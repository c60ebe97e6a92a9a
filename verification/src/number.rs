//! Numbers in text: reading them and writing them out.
use vstd::prelude::*;

verus! {

/// What a character counts for as a digit: `0` to `9`, then the letters in
/// either case from ten upwards.
pub open spec fn digit_of(c: char) -> Option<int> {
    if '0' <= c <= '9' {
        Some(c as int - '0' as int)
    } else if 'a' <= c <= 'z' {
        Some(c as int - 'a' as int + 10)
    } else if 'A' <= c <= 'Z' {
        Some(c as int - 'A' as int + 10)
    } else {
        None
    }
}

/// The number that a run of digits spells in `radix`, if every character is
/// such a digit.
pub open spec fn digits_value(s: Seq<char>, radix: int) -> Option<int>
    decreases s.len(),
{
    if s.len() == 0 {
        Some(0)
    } else {
        match (digits_value(s.drop_last(), radix), digit_of(s.last())) {
            (Some(front), Some(digit)) => if digit < radix {
                Some(front * radix + digit)
            } else {
                None
            },
            _ => None,
        }
    }
}

/// The number that a text spells in `radix`: an optional plus sign and at
/// least one digit, worth no more than `max`.
pub open spec fn number_in(s: Seq<char>, radix: int, max: int) -> Option<int> {
    let digits = if s.len() > 0 && s[0] == '+' {
        s.drop_first()
    } else {
        s
    };
    match digits_value(digits, radix) {
        Some(value) => if digits.len() > 0 && value <= max {
            Some(value)
        } else {
            None
        },
        None => None,
    }
}

/// A longer run of digits never spells a smaller number.
proof fn lemma_digits_grow(s: Seq<char>, n: int, radix: int)
    requires
        0 <= n <= s.len(),
        radix >= 1,
    ensures
        digits_value(s, radix) matches Some(whole) ==> whole >= 0 && (digits_value(
            s.take(n),
            radix,
        ) matches Some(front) && 0 <= front <= whole),
    decreases s.len(),
{
    if n == s.len() {
        assert(s.take(n) =~= s);
        if s.len() > 0 {
            lemma_digits_grow(s.drop_last(), n - 1, radix);
            if let Some(front) = digits_value(s.drop_last(), radix) {
                assert(front * radix >= 0) by (nonlinear_arith)
                    requires
                        front >= 0,
                        radix >= 1,
                ;
            }
        }
    } else {
        lemma_digits_grow(s.drop_last(), n, radix);
        assert(s.drop_last().take(n) =~= s.take(n));
        if let Some(front) = digits_value(s.drop_last(), radix) {
            assert(front * radix >= front) by (nonlinear_arith)
                requires
                    front >= 0,
                    radix >= 1,
            ;
        }
    }
}

/// The worth of one digit.
fn digit(c: char) -> (worth: Option<u32>)
    ensures
        match worth {
            Some(d) => digit_of(c) == Some(d as int) && d < 36,
            None => digit_of(c) is None,
        },
{
    if '0' <= c && c <= '9' {
        Some(c as u32 - '0' as u32)
    } else if 'a' <= c && c <= 'z' {
        Some(c as u32 - 'a' as u32 + 10)
    } else if 'A' <= c && c <= 'Z' {
        Some(c as u32 - 'A' as u32 + 10)
    } else {
        None
    }
}

/// The view of an optional machine number.
pub open spec fn opt_int(value: Option<u64>) -> Option<int> {
    match value {
        Some(value) => Some(value as int),
        None => None,
    }
}

/// Reads an unsigned number.
pub fn parse_number(chars: &Vec<char>, radix: u32, max: u64) -> (value: Option<u64>)
    requires
        2 <= radix <= 36,
    ensures
        opt_int(value) == number_in(chars@, radix as int, max as int),
{
    let from: usize = if chars.len() > 0 && chars[0] == '+' {
        1
    } else {
        0
    };
    let ghost digits = chars@.skip(from as int);
    assert(from == 0 ==> digits =~= chars@);
    assert(from == 1 ==> digits =~= chars@.drop_first());
    if from >= chars.len() {
        return None;
    }
    let mut value: u128 = 0;
    let mut i: usize = from;
    assert(digits.take(0) =~= Seq::empty());
    while i < chars.len()
        invariant
            2 <= radix <= 36,
            from <= i <= chars@.len(),
            from < chars@.len(),
            digits == chars@.skip(from as int),
            number_in(chars@, radix as int, max as int) == (match digits_value(
                digits,
                radix as int,
            ) {
                Some(whole) => if whole <= max {
                    Some(whole)
                } else {
                    None
                },
                None => None,
            }),
            digits_value(digits.take(i - from), radix as int) == Some(value as int),
            value <= max,
        decreases chars@.len() - i,
    {
        proof {
            lemma_digits_grow(digits, i - from + 1, radix as int);
            assert(digits.take(i - from + 1).drop_last() =~= digits.take(i - from));
            assert(digits.take(i - from + 1).last() == chars@[i as int]);
        }
        let worth = match digit(chars[i]) {
            Some(worth) => worth,
            None => {
                return None;
            },
        };
        if worth >= radix {
            return None;
        }
        assert(value * radix <= u64::MAX * 36) by (nonlinear_arith)
            requires
                value <= u64::MAX,
                radix <= 36,
        ;
        value = value * (radix as u128) + (worth as u128);
        if value > max as u128 {
            return None;
        }
        i += 1;
    }
    assert(digits.take(i - from) =~= digits);
    Some(value as u64)
}

/// The character for a digit below ten.
pub open spec fn digit_char(d: nat) -> char {
    ('0' as int + d) as char
}

/// A number in decimal notation.
pub open spec fn decimal(n: nat) -> Seq<char>
    decreases n,
{
    if n < 10 {
        seq![digit_char(n)]
    } else {
        decimal(n / 10).push(digit_char(n % 10))
    }
}

/// Writes a number in decimal notation.
pub fn write_decimal(n: u64) -> (text: String)
    ensures
        text@ == decimal(n as nat),
    decreases n,
{
    let mut text = if n < 10 {
        String::new()
    } else {
        write_decimal(n / 10)
    };
    let ghost front = text@;
    let last = digit_text(n % 10);
    text.append(last);
    assert(text@ =~= front.push(digit_char((n % 10) as nat)));
    assert(n < 10 ==> text@ =~= seq![digit_char(n as nat)]);
    text
}

/// A digit below ten as text.
fn digit_text(d: u64) -> (text: &'static str)
    requires
        d < 10,
    ensures
        text@ == seq![digit_char(d as nat)],
{
    proof {
        reveal_strlit("0");
        reveal_strlit("1");
        reveal_strlit("2");
        reveal_strlit("3");
        reveal_strlit("4");
        reveal_strlit("5");
        reveal_strlit("6");
        reveal_strlit("7");
        reveal_strlit("8");
        reveal_strlit("9");
    }
    let text = match d {
        0 => "0",
        1 => "1",
        2 => "2",
        3 => "3",
        4 => "4",
        5 => "5",
        6 => "6",
        7 => "7",
        8 => "8",
        _ => "9",
    };
    assert(text@ =~= seq![digit_char(d as nat)]);
    text
}

/// Reading a number that was written out gives the number back.
pub proof fn law_decimal_reads_back(n: nat, max: int)
    requires
        n <= max,
    ensures
        number_in(decimal(n), 10, max) == Some(n as int),
{
    lemma_decimal_value(n);
}

proof fn lemma_decimal_value(n: nat)
    ensures
        digits_value(decimal(n), 10) == Some(n as int),
        decimal(n).len() > 0,
        '0' <= decimal(n)[0] <= '9',
    decreases n,
{
    if n < 10 {
        assert(decimal(n).drop_last() =~= Seq::empty());
        assert(digits_value(decimal(n).drop_last(), 10) == Some(0int));
    } else {
        lemma_decimal_value(n / 10);
        assert(decimal(n).drop_last() =~= decimal(n / 10));
    }
}

/// A text of one character is worth that digit, with or without a plus sign in
/// front, and a text without a digit is no number.
pub proof fn law_one_digit_is_worth_itself(c: char, radix: int, max: int)
    requires
        2 <= radix <= 36,
    ensures
        number_in(Seq::empty(), radix, max) is None,
        number_in(seq!['+'], radix, max) is None,
        ({
            let code = c as int;
            let worth = if 0x30 <= code <= 0x39 {
                code - 0x30
            } else if 0x41 <= code <= 0x5A {
                code - 0x41 + 10
            } else if 0x61 <= code <= 0x7A {
                code - 0x61 + 10
            } else {
                radix
            };
            let number = if worth < radix && worth <= max {
                Some(worth)
            } else {
                None
            };
            &&& number_in(seq![c], radix, max) == number
            &&& number_in(seq!['+', c], radix, max) == number
        }),
{
    reveal_with_fuel(digits_value, 3);
    assert(seq!['+'].drop_first() =~= Seq::empty());
    assert(seq!['+', c].drop_first() =~= seq![c]);
    assert(seq![c].drop_last() =~= Seq::empty());
    assert(0 * radix == 0) by (nonlinear_arith);
    assert(digits_value(Seq::empty(), radix) == Some(0int));
    assert(digits_value(seq![c], radix) == (match digit_of(c) {
        Some(digit) => if digit < radix {
            Some(digit)
        } else {
            None
        },
        None => None,
    })) by {
        assert(seq![c].last() == c);
        assert(digits_value(seq![c].drop_last(), radix) == Some(0int));
    }
    if c == '+' {
        assert(seq![c].drop_first() =~= Seq::empty());
        assert(digit_of('+') is None);
        assert(seq!['+', c].drop_first() =~= seq!['+']);
    }
}

/// One more digit is worth the radix times what stands before it, and the digit.
/// What was no number before, or beyond the largest, stays so.
pub proof fn law_one_more_digit(s: Seq<char>, c: char, radix: int, max: int)
    requires
        2 <= radix <= 36,
        s.len() > 0,
        s != seq!['+'],
    ensures
        ({
            let longer = number_in(s.push(c), radix, max);
            match (number_in(s, radix, max), number_in(seq![c], radix, radix)) {
                (Some(front), Some(digit)) => if c != '+' && front * radix + digit <= max {
                    longer == Some(front * radix + digit)
                } else {
                    longer is None
                },
                _ => longer is None,
            }
        }),
{
    let plus = s[0] == '+';
    let digits = if plus {
        s.drop_first()
    } else {
        s
    };
    let longer = if plus {
        s.push(c).drop_first()
    } else {
        s.push(c)
    };
    assert(longer =~= digits.push(c));
    assert(longer.drop_last() =~= digits);
    assert(longer.take(digits.len() as int) =~= digits);
    if plus && s.len() == 1 {
        assert(s =~= seq!['+']);
    }
    lemma_digits_grow(longer, digits.len() as int, radix);
    law_one_digit_is_worth_itself(c, radix, radix);
    reveal_with_fuel(digits_value, 2);
    assert(seq![c].drop_last() =~= Seq::empty());
    if let (Some(front), Some(digit)) = (digits_value(digits, radix), digit_of(c)) {
        lemma_digits_grow(digits, 0, radix);
        assert(front * radix >= front) by (nonlinear_arith)
            requires
                front >= 0,
                radix >= 1,
        ;
    }
}

/// Decimal notation is plain digits without a zero in front.
pub proof fn law_decimal_is_plain(n: nat)
    ensures
        decimal(n).len() > 0,
        forall|i: int| 0 <= i < decimal(n).len() ==> '0' <= #[trigger] decimal(n)[i] <= '9',
        decimal(n).len() > 1 ==> decimal(n)[0] != '0',
        n > 0 ==> decimal(n)[0] != '0',
    decreases n,
{
    if n >= 10 {
        law_decimal_is_plain(n / 10);
    }
}

/// A number that was read is no less than nothing and no more than the largest.
pub proof fn law_numbers_are_in_range(s: Seq<char>, radix: int, max: int)
    requires
        2 <= radix <= 36,
    ensures
        number_in(s, radix, max) matches Some(n) ==> 0 <= n <= max,
{
    let digits = if s.len() > 0 && s[0] == '+' {
        s.drop_first()
    } else {
        s
    };
    lemma_digits_grow(digits, 0, radix);
}

} // verus!
