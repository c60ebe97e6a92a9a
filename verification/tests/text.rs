use qubeherd::number::{parse_number, write_decimal};
use qubeherd::path::FilePath;
use qubeherd::text::{chars_of, field, second_piece, strip_front, to_lower, trim, white_space};
use std::path::Path;

const SAMPLES: [&str; 12] = [
    "",
    "\n",
    "\r\n\r\n",
    "A=1",
    "A=1\nB=2\r\nC=3",
    "A=\nA=2",
    "  A=1\nA=2\r\r\n",
    "x\nA= two words \n",
    "A=тест\n",
    "a=1\nA",
    "A=1\r",
    "B=1\n\nA==\n",
];

#[test]
fn white_space_is_unicode_white_space() {
    for code in 0..=0x10FFFF_u32 {
        if let Some(c) = char::from_u32(code) {
            assert_eq!(white_space(c), c.is_whitespace(), "{code:x}");
        }
    }
}

#[test]
fn fields_stand_on_lines_as_std_splits_them() {
    for sample in SAMPLES {
        let expected = sample.lines().find_map(|line| line.strip_prefix("A=")).map(String::from);
        assert_eq!(field(sample, "A="), expected, "{sample:?}");
    }
}

#[test]
fn trimming_and_lowering_agree_with_std() {
    for sample in [" a b\t", "\u{2003}Ж\u{85}", "", "   ", "AbC-Я", "İ"] {
        let trimmed: String = trim(&chars_of(sample)).into_iter().collect();
        assert_eq!(trimmed, sample.trim());
        let lowered: String = to_lower(&chars_of(sample)).into_iter().collect();
        assert_eq!(lowered, sample.to_ascii_lowercase());
    }
}

#[test]
fn pieces_and_prefixes_agree_with_std() {
    for sample in ["a:b:c", "a", "", ":", "a:", ":b"] {
        let expected = sample.split(':').nth(1).map(chars_of);
        assert_eq!(second_piece(&chars_of(sample), ":"), expected, "{sample:?}");
    }
    for sample in ["hidraw5", "hidrawhidraw7", "hidra", "5hidraw", ""] {
        let expected = chars_of(sample.trim_start_matches("hidraw"));
        assert_eq!(strip_front(&chars_of(sample), "hidraw"), expected, "{sample:?}");
    }
}

#[test]
fn numbers_are_read_as_std_reads_them() {
    for sample in [
        "", "+", "-", "+7", "-7", "0", "-0", "007", "4294967295", "4294967296", " 1", "1 ", "e126",
        "E126", "g", "+-1", "1_0", "99999999999999999999", "١",
    ] {
        let chars = chars_of(sample);
        assert_eq!(
            parse_number(&chars, 10, u32::MAX as u64),
            sample.parse::<u32>().ok().map(u64::from),
            "{sample:?}"
        );
        assert_eq!(
            parse_number(&chars, 16, u32::MAX as u64),
            u32::from_str_radix(sample, 16).ok().map(u64::from),
            "{sample:?}"
        );
        assert_eq!(
            parse_number(&chars, 10, u64::MAX),
            sample.parse::<u64>().ok(),
            "{sample:?}"
        );
    }
    assert_eq!(parse_number(&chars_of("18446744073709551615"), 10, u64::MAX), Some(u64::MAX));
    assert_eq!(parse_number(&chars_of("18446744073709551616"), 10, u64::MAX), None);
}

#[test]
fn decimals_read_back() {
    for n in [0, 1, 9, 10, 255, 1_000_000, u64::MAX] {
        assert_eq!(write_decimal(n), n.to_string());
        assert_eq!(parse_number(&chars_of(&write_decimal(n)), 10, u64::MAX), Some(n));
    }
}

#[test]
fn joining_agrees_with_std() {
    for base in ["", "/", "/run/user", "/run/user/", ".", "a//"] {
        for name in ["x", "x/y", "/abs", ""] {
            let expected = Path::new(base).join(name);
            let expected = expected.to_str().expect("text");
            assert_eq!(FilePath::of(base).join(name), FilePath::of(expected), "{base:?} {name:?}");
        }
    }
    let odd = FilePath { bytes: vec![0xFF, 0xFE] };
    assert_eq!(odd.join("a").bytes, vec![0xFF, 0xFE, b'/', b'a']);
    assert_eq!(odd.copy(), odd);
}
