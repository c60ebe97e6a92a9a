//! Reading and writing the small pieces of text the daemon deals in.
use vstd::prelude::*;

verus! {

/// The characters of a string, one by one.
pub fn chars_of(text: &str) -> (chars: Vec<char>)
    ensures
        chars@ == text@,
{
    let mut chars: Vec<char> = Vec::new();
    for c in it: text.chars()
        invariant
            chars@ == text@.take(it.index() as int),
            it.seq() == text@,
    {
        chars.push(c);
    }
    chars
}

/// Whether two strings hold the same characters.
pub fn same(left: &str, right: &str) -> (equal: bool)
    ensures
        equal == (left@ == right@),
{
    left.to_owned() == right.to_owned()
}

/// Whether `chars` holds exactly the characters of `word`.
pub fn spells(chars: &Vec<char>, word: &str) -> (equal: bool)
    ensures
        equal == (chars@ == word@),
{
    assert(chars@.skip(0) =~= chars@);
    assert(chars@.subrange(0, chars@.len() as int) =~= chars@);
    chars.len() == word.unicode_len() && starts_at(chars, 0, word)
}

/// Whether `word` stands in `chars` at position `from`.
pub fn starts_at(chars: &Vec<char>, from: usize, word: &str) -> (stands: bool)
    requires
        from <= chars@.len(),
    ensures
        stands == word@.is_prefix_of(chars@.skip(from as int)),
{
    let letters = chars_of(word);
    if chars.len() - from < letters.len() {
        return false;
    }
    let mut i: usize = 0;
    while i < letters.len()
        invariant
            letters@ == word@,
            from + letters.len() <= chars.len(),
            i <= letters@.len(),
            forall|j: int| 0 <= j < i ==> letters@[j] == chars@[from + j],
        decreases letters@.len() - i,
    {
        if chars[from + i] != letters[i] {
            let ghost there = chars@.skip(from as int).subrange(0, word@.len() as int);
            assert(there[i as int] != word@[i as int]);
            return false;
        }
        i += 1;
    }
    assert(word@ =~= chars@.skip(from as int).subrange(0, word@.len() as int));
    true
}

/// The Unicode `White_Space` property.
pub open spec fn is_white_space(c: char) -> bool {
    let code = c as int;
    ||| 0x09 <= code <= 0x0D
    ||| code == 0x20
    ||| code == 0x85
    ||| code == 0xA0
    ||| code == 0x1680
    ||| 0x2000 <= code <= 0x200A
    ||| code == 0x2028
    ||| code == 0x2029
    ||| code == 0x202F
    ||| code == 0x205F
    ||| code == 0x3000
}

/// Tests a character for the Unicode `White_Space` property.
pub fn white_space(c: char) -> (white: bool)
    ensures
        white == is_white_space(c),
{
    let code: u32 = c as u32;
    (0x09 <= code && code <= 0x0D) || code == 0x20 || code == 0x85 || code == 0xA0 || code
        == 0x1680 || (0x2000 <= code && code <= 0x200A) || code == 0x2028 || code == 0x2029 || code
        == 0x202F || code == 0x205F || code == 0x3000
}

/// What is left of `s` without the white space in front.
pub open spec fn trim_front(s: Seq<char>) -> Seq<char>
    decreases s.len(),
{
    if s.len() > 0 && is_white_space(s[0]) {
        trim_front(s.drop_first())
    } else {
        s
    }
}

/// What is left of `s` without the white space at the end.
pub open spec fn trim_back(s: Seq<char>) -> Seq<char>
    decreases s.len(),
{
    if s.len() > 0 && is_white_space(s.last()) {
        trim_back(s.drop_last())
    } else {
        s
    }
}

/// What is left of `s` without the white space on either side.
pub open spec fn trimmed(s: Seq<char>) -> Seq<char> {
    trim_back(trim_front(s))
}

/// Takes the white space off both ends.
pub fn trim(chars: &Vec<char>) -> (kept: Vec<char>)
    ensures
        kept@ == trimmed(chars@),
{
    let mut from: usize = 0;
    assert(chars@.skip(0) =~= chars@);
    while from < chars.len() && white_space(chars[from])
        invariant
            from <= chars@.len(),
            trim_front(chars@) == trim_front(chars@.skip(from as int)),
        decreases chars@.len() - from,
    {
        assert(chars@.skip(from as int).drop_first() =~= chars@.skip(from as int + 1));
        from += 1;
    }
    let ghost front = chars@.skip(from as int);
    assert(trim_front(chars@) == front);
    let mut to: usize = chars.len();
    assert(chars@.subrange(from as int, to as int) =~= front);
    while from < to && white_space(chars[to - 1])
        invariant
            from <= to <= chars@.len(),
            trim_back(front) == trim_back(chars@.subrange(from as int, to as int)),
        decreases to - from,
    {
        assert(chars@.subrange(from as int, to as int).drop_last() =~= chars@.subrange(
            from as int,
            to - 1,
        ));
        to -= 1;
    }
    piece(chars, from, to)
}

/// A copy of the characters from `from` up to `to`.
pub fn piece(chars: &Vec<char>, from: usize, to: usize) -> (part: Vec<char>)
    requires
        from <= to <= chars@.len(),
    ensures
        part@ == chars@.subrange(from as int, to as int),
{
    let mut part: Vec<char> = Vec::new();
    let mut i: usize = from;
    while i < to
        invariant
            from <= i <= to <= chars@.len(),
            part@ == chars@.subrange(from as int, i as int),
        decreases to - i,
    {
        part.push(chars[i]);
        i += 1;
    }
    part
}

/// The position of the first character that is one of `stops`, or the length
/// when there is none.
pub open spec fn first_of(s: Seq<char>, stops: Seq<char>) -> int
    decreases s.len(),
{
    if s.len() == 0 || stops.contains(s[0]) {
        0
    } else {
        1 + first_of(s.drop_first(), stops)
    }
}

pub proof fn lemma_first_of_bounds(s: Seq<char>, stops: Seq<char>)
    ensures
        0 <= first_of(s, stops) <= s.len(),
    decreases s.len(),
{
    if s.len() > 0 && !stops.contains(s[0]) {
        lemma_first_of_bounds(s.drop_first(), stops);
    }
}

/// Looks for one of `stops`, starting at `from`.
pub fn find_first(chars: &Vec<char>, from: usize, stops: &str) -> (at: usize)
    requires
        from <= chars@.len(),
    ensures
        from <= at <= chars@.len(),
        at == from + first_of(chars@.skip(from as int), stops@),
{
    let stops = chars_of(stops);
    let mut at: usize = from;
    while at < chars.len() && !holds(&stops, chars[at])
        invariant
            from <= at <= chars@.len(),
            first_of(chars@.skip(from as int), stops@) == (at - from) + first_of(
                chars@.skip(at as int),
                stops@,
            ),
        decreases chars@.len() - at,
    {
        assert(chars@.skip(at as int).drop_first() =~= chars@.skip(at as int + 1));
        at += 1;
    }
    at
}

/// Whether `c` is among `chars`.
pub fn holds(chars: &Vec<char>, c: char) -> (found: bool)
    ensures
        found == chars@.contains(c),
{
    let mut i: usize = 0;
    while i < chars.len()
        invariant
            i <= chars@.len(),
            forall|j: int| 0 <= j < i ==> chars@[j] != c,
        decreases chars@.len() - i,
    {
        if chars[i] == c {
            return true;
        }
        i += 1;
    }
    false
}

/// `c` with an ASCII capital turned into its small letter.
pub open spec fn lower(c: char) -> char {
    if 'A' <= c <= 'Z' {
        (c as int + 32) as char
    } else {
        c
    }
}

/// Turns the ASCII capitals into small letters.
pub fn to_lower(chars: &Vec<char>) -> (lowered: Vec<char>)
    ensures
        lowered@ == chars@.map_values(|c: char| lower(c)),
{
    let mut lowered: Vec<char> = Vec::new();
    let mut i: usize = 0;
    while i < chars.len()
        invariant
            i <= chars@.len(),
            lowered@ == chars@.take(i as int).map_values(|c: char| lower(c)),
        decreases chars@.len() - i,
    {
        let c = chars[i];
        lowered.push(
            if 'A' <= c && c <= 'Z' {
                (c as u8 + 32) as char
            } else {
                c
            },
        );
        i += 1;
    }
    assert(chars@.take(i as int) =~= chars@);
    lowered
}

/// The end of the first line of `s`: where its line feed stands, or the end
/// of the text.
pub open spec fn line_end(s: Seq<char>) -> int {
    first_of(s, seq!['\n'])
}

/// The first line of `s`, without its line ending. A carriage return belongs
/// to the ending only in front of a line feed.
pub open spec fn first_line(s: Seq<char>) -> Seq<char> {
    let line = s.take(line_end(s));
    if line_end(s) < s.len() && line.len() > 0 && line.last() == '\r' {
        line.drop_last()
    } else {
        line
    }
}

/// The lines of a text.
pub open spec fn lines(s: Seq<char>) -> Seq<Seq<char>>
    decreases s.len(),
{
    proof {
        lemma_first_of_bounds(s, seq!['\n']);
    }
    if s.len() == 0 {
        Seq::empty()
    } else if line_end(s) >= s.len() {
        seq![first_line(s)]
    } else {
        seq![first_line(s)] + lines(s.skip(line_end(s) + 1))
    }
}

/// What follows `key` on the first line that begins with it.
pub open spec fn field_of(lines: Seq<Seq<char>>, key: Seq<char>) -> Option<Seq<char>>
    decreases lines.len(),
{
    if lines.len() == 0 {
        None
    } else if key.is_prefix_of(lines[0]) {
        Some(lines[0].skip(key.len() as int))
    } else {
        field_of(lines.drop_first(), key)
    }
}

/// Puts one text behind another.
pub fn run_on(left: &str, right: &str) -> (text: String)
    ensures
        text@ == left@ + right@,
{
    let mut text = left.to_owned();
    text.append(right);
    text
}

/// The view of an optional string.
pub open spec fn opt_view(text: Option<String>) -> Option<Seq<char>> {
    match text {
        Some(text) => Some(text@),
        None => None,
    }
}

/// Reads the value that follows `key` on the first line that begins with it.
pub fn field(text: &str, key: &str) -> (value: Option<String>)
    ensures
        opt_view(value) == field_of(lines(text@), key@),
{
    let chars = chars_of(text);
    let width: usize = key.unicode_len();
    let mut from: usize = 0;
    assert(chars@.skip(0) =~= chars@);
    proof {
        reveal_strlit("\n");
        assert("\n"@ =~= seq!['\n']);
    }
    while from < chars.len()
        invariant
            chars@ == text@,
            "\n"@ == seq!['\n'],
            width == key@.len(),
            from <= chars@.len(),
            field_of(lines(text@), key@) == field_of(lines(chars@.skip(from as int)), key@),
        decreases chars@.len() - from,
    {
        let ghost rest = chars@.skip(from as int);
        let end: usize = find_first(&chars, from, "\n");
        let ended = end < chars.len();
        let to: usize = if ended && from < end && chars[end - 1] == '\r' {
            end - 1
        } else {
            end
        };
        let line = piece(&chars, from, to);
        assert(line@ =~= first_line(rest));
        assert(lines(rest)[0] == line@);
        if starts_at(&line, 0, key) {
            assert(line@.skip(0) =~= line@);
            let value = text.substring_char(from + width, to);
            assert(value@ =~= line@.skip(width as int));
            return Some(value.to_owned());
        }
        assert(line@.skip(0) =~= line@);
        if !ended {
            assert(lines(rest).drop_first() =~= Seq::empty());
            assert(field_of(lines(rest).drop_first(), key@) is None);
            return None;
        }
        assert(rest.skip(line_end(rest) + 1) =~= chars@.skip(end as int + 1));
        assert(lines(rest).drop_first() =~= lines(chars@.skip(end as int + 1)));
        from = end + 1;
    }
    None
}

/// The second of the pieces that `separator` cuts `s` into, if there are two.
pub open spec fn second_piece_of(s: Seq<char>, separator: Seq<char>) -> Option<Seq<char>> {
    let cut = first_of(s, separator);
    if cut >= s.len() {
        None
    } else {
        let rest = s.skip(cut + 1);
        Some(rest.take(first_of(rest, separator)))
    }
}

/// The view of an optional run of characters.
pub open spec fn opt_chars(chars: Option<Vec<char>>) -> Option<Seq<char>> {
    match chars {
        Some(chars) => Some(chars@),
        None => None,
    }
}

/// Cuts out the piece between the first and the second separator.
pub fn second_piece(chars: &Vec<char>, separator: &str) -> (second: Option<Vec<char>>)
    ensures
        opt_chars(second) == second_piece_of(chars@, separator@),
{
    let cut: usize = find_first(chars, 0, separator);
    assert(chars@.skip(0) =~= chars@);
    if cut >= chars.len() {
        return None;
    }
    let end: usize = find_first(chars, cut + 1, separator);
    let second = piece(chars, cut + 1, end);
    assert(second@ =~= chars@.skip(cut as int + 1).take(end - (cut + 1)));
    Some(second)
}

/// What is left of `s` without any number of `key`s in front.
pub open spec fn strip_repeated(s: Seq<char>, key: Seq<char>) -> Seq<char>
    decreases s.len(),
{
    if key.len() > 0 && key.is_prefix_of(s) {
        strip_repeated(s.skip(key.len() as int), key)
    } else {
        s
    }
}

/// Takes every leading `key` off.
pub fn strip_front(chars: &Vec<char>, key: &str) -> (kept: Vec<char>)
    ensures
        kept@ == strip_repeated(chars@, key@),
{
    let width: usize = key.unicode_len();
    let mut from: usize = 0;
    assert(chars@.skip(0) =~= chars@);
    while width > 0 && starts_at(chars, from, key)
        invariant
            width == key@.len(),
            from <= chars.len(),
            strip_repeated(chars@, key@) == strip_repeated(chars@.skip(from as int), key@),
        decreases chars@.len() - from,
    {
        assert(chars@.skip(from as int).skip(width as int) =~= chars@.skip(from + width));
        from += width;
    }
    let kept = piece(chars, from, chars.len());
    assert(kept@ =~= chars@.skip(from as int));
    kept
}

/// Looking for a stop finds the first: there is none before it, and it is one,
/// unless the text ends first.
pub proof fn law_the_first_stop_is_found(s: Seq<char>, stops: Seq<char>)
    ensures
        0 <= first_of(s, stops) <= s.len(),
        forall|i: int| 0 <= i < first_of(s, stops) ==> !stops.contains(#[trigger] s[i]),
        first_of(s, stops) < s.len() ==> stops.contains(s[first_of(s, stops)]),
    decreases s.len(),
{
    if s.len() > 0 && !stops.contains(s[0]) {
        law_the_first_stop_is_found(s.drop_first(), stops);
        assert forall|i: int| 0 <= i < first_of(s, stops) implies !stops.contains(#[trigger] s[i]) by {
            if i > 0 {
                assert(s[i] == s.drop_first()[i - 1]);
            }
        }
    }
}

/// Where a text has no stop before a position, and one there or its end, that
/// position is found.
pub proof fn law_a_stop_is_found_where_it_stands(s: Seq<char>, stops: Seq<char>, at: int)
    requires
        0 <= at <= s.len(),
        forall|i: int| 0 <= i < at ==> !stops.contains(#[trigger] s[i]),
        at < s.len() ==> stops.contains(s[at]),
    ensures
        first_of(s, stops) == at,
{
    law_the_first_stop_is_found(s, stops);
    let found = first_of(s, stops);
    if found < at {
        assert(!stops.contains(s[found]));
    }
}

/// A field on the first line is what stands behind its key up to the end of the
/// line, whatever follows. A carriage return in front of the line feed belongs to
/// the ending.
pub proof fn law_a_field_is_read_off_its_line(
    key: Seq<char>,
    value: Seq<char>,
    rest: Seq<char>,
)
    requires
        key.len() > 0,
        !key.contains('\n'),
        !value.contains('\n'),
    ensures
        field_of(lines(key + value), key) == Some(value),
        value.len() == 0 && key.last() != '\r' || value.len() > 0 && value.last() != '\r'
            ==> field_of(lines(key + value + seq!['\n'] + rest), key) == Some(value),
        field_of(lines(key + value + seq!['\r', '\n'] + rest), key) == Some(value),
{
    let stop = seq!['\n'];
    let line = key + value;
    assert forall|i: int| 0 <= i < line.len() implies !stop.contains(#[trigger] line[i]) by {
        if i < key.len() {
            assert(key.contains(key[i]));
        } else {
            assert(value.contains(value[i - key.len()]));
        }
    }
    assert(stop[0] == '\n');
    law_a_stop_is_found_where_it_stands(line, stop, line.len() as int);
    assert(first_line(line) =~= line);
    assert(line.subrange(0, key.len() as int) =~= key);
    assert(line.skip(key.len() as int) =~= value);
    assert(lines(line)[0] == line);
    let with_feed = line + stop + rest;
    lemma_first_line(line, rest);
    let returned = line.push('\r');
    assert forall|i: int| 0 <= i < returned.len() implies !stop.contains(#[trigger] returned[i]) by {
        if i < line.len() {
            assert(!stop.contains(line[i]));
        }
    }
    lemma_first_line(returned, rest);
    assert(line + seq!['\r', '\n'] + rest =~= returned + stop + rest);
    assert(returned.drop_last() =~= line);
}

proof fn lemma_first_line(line: Seq<char>, rest: Seq<char>)
    requires
        forall|i: int| 0 <= i < line.len() ==> !seq!['\n'].contains(#[trigger] line[i]),
    ensures
        ({
            let text = line + seq!['\n'] + rest;
            let kept = if line.len() > 0 && line.last() == '\r' {
                line.drop_last()
            } else {
                line
            };
            &&& lines(text).len() > 0
            &&& lines(text)[0] == kept
            &&& lines(text).drop_first() == lines(rest)
        }),
{
    let stop = seq!['\n'];
    let text = line + stop + rest;
    let n = line.len() as int;
    assert(stop[0] == '\n');
    assert(text[n] == '\n');
    assert(stop.contains(text[n]));
    assert forall|i: int| 0 <= i < n implies !stop.contains(#[trigger] text[i]) by {
        assert(text[i] == line[i]);
    }
    law_a_stop_is_found_where_it_stands(text, stop, n);
    assert(text.take(n) =~= line);
    assert(text.skip(n + 1) =~= rest);
    assert(lines(text) =~= seq![first_line(text)] + lines(rest));
    assert(lines(text).drop_first() =~= lines(rest));
}

/// A line that does not begin with the key is passed over.
pub proof fn law_other_lines_are_passed_over(
    key: Seq<char>,
    line: Seq<char>,
    rest: Seq<char>,
)
    requires
        !line.contains('\n'),
        !key.is_prefix_of(line),
    ensures
        field_of(lines(Seq::empty()), key) is None,
        field_of(lines(line), key) is None,
        field_of(lines(line + seq!['\n'] + rest), key) == field_of(lines(rest), key),
{
    let stop = seq!['\n'];
    assert forall|i: int| 0 <= i < line.len() implies !stop.contains(#[trigger] line[i]) by {
        assert(line.contains(line[i]));
        assert(stop[0] == '\n');
    }
    lemma_first_line(line, rest);
    law_a_stop_is_found_where_it_stands(line, stop, line.len() as int);
    if line.len() > 0 {
        assert(first_line(line) =~= line);
        assert(lines(line) =~= seq![line]);
        assert(lines(line).drop_first() =~= Seq::empty());
    }
    let kept = lines(line + stop + rest)[0];
    if key.is_prefix_of(kept) {
        assert(key =~= line.subrange(0, key.len() as int)) by {
            assert(key =~= kept.subrange(0, key.len() as int));
        }
    }
    reveal_with_fuel(field_of, 3);
}

/// The second piece is what stands between the first separator and the next, or
/// the end. A text without a separator has none.
pub proof fn law_the_second_piece_stands_between_separators(
    first: Seq<char>,
    second: Seq<char>,
    separator: char,
    rest: Seq<char>,
)
    requires
        !first.contains(separator),
        !second.contains(separator),
    ensures
        second_piece_of(first, seq![separator]) is None,
        second_piece_of(first.push(separator) + second, seq![separator]) == Some(second),
        second_piece_of(first.push(separator) + second.push(separator) + rest, seq![separator])
            == Some(second),
{
    let stops = seq![separator];
    assert(stops[0] == separator);
    assert forall|i: int| 0 <= i < first.len() implies !stops.contains(#[trigger] first[i]) by {
        assert(first.contains(first[i]));
    }
    assert forall|i: int| 0 <= i < second.len() implies !stops.contains(#[trigger] second[i]) by {
        assert(second.contains(second[i]));
    }
    law_a_stop_is_found_where_it_stands(first, stops, first.len() as int);
    law_a_stop_is_found_where_it_stands(second, stops, second.len() as int);
    let two = first.push(separator) + second;
    assert forall|i: int| 0 <= i < first.len() implies !stops.contains(#[trigger] two[i]) by {
        assert(two[i] == first[i]);
    }
    assert(two[first.len() as int] == separator);
    law_a_stop_is_found_where_it_stands(two, stops, first.len() as int);
    assert(two.skip(first.len() as int + 1) =~= second);
    assert(second.take(second.len() as int) =~= second);
    let three = first.push(separator) + second.push(separator) + rest;
    assert forall|i: int| 0 <= i < first.len() implies !stops.contains(#[trigger] three[i]) by {
        assert(three[i] == first[i]);
    }
    assert(three[first.len() as int] == separator);
    law_a_stop_is_found_where_it_stands(three, stops, first.len() as int);
    let behind = three.skip(first.len() as int + 1);
    assert(behind =~= second.push(separator) + rest);
    assert forall|i: int| 0 <= i < second.len() implies !stops.contains(#[trigger] behind[i]) by {
        assert(behind[i] == second[i]);
    }
    assert(behind[second.len() as int] == separator);
    law_a_stop_is_found_where_it_stands(behind, stops, second.len() as int);
    assert(behind.take(second.len() as int) =~= second);
}

/// Every key in front is taken off, and nothing else.
pub proof fn law_every_key_in_front_is_taken_off(s: Seq<char>, key: Seq<char>)
    requires
        key.len() > 0,
    ensures
        strip_repeated(key + s, key) == strip_repeated(s, key),
        !key.is_prefix_of(s) ==> strip_repeated(s, key) == s,
{
    assert((key + s).subrange(0, key.len() as int) =~= key);
    assert((key + s).skip(key.len() as int) =~= s);
}

/// White space around a text is taken off, and nothing of a text that has none
/// around it.
pub proof fn law_white_space_around_is_taken_off(s: Seq<char>, c: char)
    ensures
        is_white_space(c) ==> trimmed(seq![c] + s) == trimmed(s),
        is_white_space(c) ==> trimmed(s.push(c)) == trimmed(s),
        s.len() == 0 ==> trimmed(s) == s,
        s.len() > 0 && !is_white_space(s[0]) && !is_white_space(s.last()) ==> trimmed(s) == s,
{
    assert((seq![c] + s).drop_first() =~= s);
    if is_white_space(c) {
        lemma_trim_front_of_longer(s, c);
    }
}

proof fn lemma_trim_front_of_longer(s: Seq<char>, c: char)
    requires
        is_white_space(c),
    ensures
        trim_back(trim_front(s.push(c))) == trim_back(trim_front(s)),
    decreases s.len(),
{
    reveal_with_fuel(trim_front, 2);
    reveal_with_fuel(trim_back, 2);
    if s.len() == 0 {
        assert(s.push(c).drop_first() =~= s);
    } else if is_white_space(s[0]) {
        assert(s.push(c).drop_first() =~= s.drop_first().push(c));
        lemma_trim_front_of_longer(s.drop_first(), c);
    } else {
        assert(s.push(c).drop_last() =~= s);
    }
}

/// Each of the 26 capitals becomes the small letter 32 places on, and everything
/// else stays.
pub proof fn law_capitals_become_small_letters(c: char)
    ensures
        0x41 <= c as int <= 0x5A ==> lower(c) as int == c as int + 32,
        !(0x41 <= c as int <= 0x5A) ==> lower(c) == c,
{
}

} // verus!
