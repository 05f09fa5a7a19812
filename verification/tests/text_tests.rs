use jpn_diary::decimal::{decimal_len, i32_to_decimal, usize_to_decimal};
use jpn_diary::furigana::{strip_markdown_furigana, CompiledPattern, FuriganaStripper};
use jpn_diary::sql::TextFunction;
use jpn_diary::text::{
    join, normalize_umlauts, pad_left, replace_brackets, replace_char, trim,
};

#[test]
fn normalize_umlauts_spells_out_each_letter() {
    assert_eq!(normalize_umlauts("Übung"), "Übung".replace('ü', "ue"));
    assert_eq!(normalize_umlauts("über"), "ueber");
    assert_eq!(normalize_umlauts("schön"), "schoen");
    assert_eq!(normalize_umlauts("Mädchen"), "Maedchen");
    assert_eq!(normalize_umlauts("Straße"), "Strasse");
    assert_eq!(normalize_umlauts("Müßiggänger öfter"), "Muessiggaenger oefter");
}

#[test]
fn normalize_umlauts_keeps_other_text() {
    assert_eq!(normalize_umlauts(""), "");
    assert_eq!(normalize_umlauts("kanji 漢字 ÜÖÄ"), "kanji 漢字 ÜÖÄ");
}

#[test]
fn normalize_umlauts_is_idempotent() {
    let once = normalize_umlauts("Grüße aus Köln");
    assert_eq!(once, "Gruesse aus Koeln");
    assert_eq!(normalize_umlauts(&once), once);
}

#[test]
fn replace_brackets_makes_them_full_width() {
    assert_eq!(replace_brackets("[漢字](かんじ)"), "「漢字」（かんじ）");
    assert_eq!(replace_brackets("no brackets"), "no brackets");
    assert_eq!(replace_brackets("(("), "（（");
    let once = replace_brackets("a[b]c(d)");
    assert_eq!(once, "a「b」c（d）");
    assert_eq!(replace_brackets(&once), once);
}

#[test]
fn replace_char_replaces_every_occurrence() {
    assert_eq!(replace_char("a\nb\nc", '\n', " "), "a b c");
    assert_eq!(replace_char("aaa", 'a', "bc"), "bcbcbc");
    assert_eq!(replace_char("abc", 'x', "yy"), "abc");
    assert_eq!(replace_char("abc", 'b', ""), "ac");
}

#[test]
fn trim_removes_outer_white_space() {
    assert_eq!(trim("  hello world \n"), "hello world");
    assert_eq!(trim("\t\r\n"), "");
    assert_eq!(trim(""), "");
    assert_eq!(trim("\u{3000}漢字\u{3000}"), "漢字");
    assert_eq!(trim("x"), "x");
    let once = trim(" \u{a0}a b\u{2003} ");
    assert_eq!(once, "a b");
    assert_eq!(trim(&once), once);
}

#[test]
fn trim_agrees_with_std() {
    for s in ["  a  ", "\u{85}x\u{2028}", "\u{180e}y", " \u{200b} ", "中 文\n"] {
        assert_eq!(trim(s), s.trim());
    }
}

#[test]
fn decimal_spellings() {
    assert_eq!(usize_to_decimal(0), "0");
    assert_eq!(usize_to_decimal(7), "7");
    assert_eq!(usize_to_decimal(10), "10");
    assert_eq!(usize_to_decimal(1234567890), "1234567890");
    assert_eq!(i32_to_decimal(-42), "-42");
    assert_eq!(i32_to_decimal(i32::MIN), "-2147483648");
    assert_eq!(i32_to_decimal(i32::MAX), "2147483647");
    assert_eq!(decimal_len(0), 1);
    assert_eq!(decimal_len(9), 1);
    assert_eq!(decimal_len(10), 2);
    assert_eq!(decimal_len(12345), 5);
    assert_eq!(usize_to_decimal(987).parse::<usize>().unwrap(), 987);
}

#[test]
fn pad_left_aligns_right() {
    assert_eq!(pad_left("7", 3), "  7");
    assert_eq!(pad_left("123", 2), "123");
    assert_eq!(pad_left("", 2), "  ");
    assert_eq!(pad_left("12", 2), "12");
    assert_eq!(pad_left("7", 3), format!("{:3}", 7));
}

#[test]
fn join_puts_separator_between_items() {
    let items = vec!["a".to_string(), "b".to_string(), "c".to_string()];
    assert_eq!(join(&items, ", "), "a, b, c");
    assert_eq!(join(&vec![], ", "), "");
    assert_eq!(join(&vec!["only".to_string()], "; "), "only");
}

#[test]
fn strip_furigana_keeps_base_text() {
    let stripper = FuriganaStripper::new().expect("patterns compile");
    assert_eq!(strip_markdown_furigana(&stripper, "[漢字](かんじ)を勉強する"), "漢字を勉強する");
    assert_eq!(strip_markdown_furigana(&stripper, "[日本]（にほん）"), "日本");
    assert_eq!(strip_markdown_furigana(&stripper, "「こんにちは」（です）"), "こんにちはです");
    assert_eq!(strip_markdown_furigana(&stripper, "plain"), "plain");
    assert_eq!(
        strip_markdown_furigana(&stripper, "[私](わたし)は[学生]（がくせい）「です」"),
        "私は学生です"
    );
}

#[test]
fn compiled_pattern_replaces_matches() {
    let p = CompiledPattern::new(r"a+").unwrap();
    assert_eq!(p.replace_all("baaad aa", "x"), "bxd x");
    assert!(CompiledPattern::new(r"foo(bar").is_err());
}

#[test]
fn text_functions_apply() {
    let stripper = FuriganaStripper::new().unwrap();
    assert_eq!(TextFunction::StripFurigana(stripper).apply("[猫](ねこ)"), "猫");
    assert_eq!(TextFunction::NormalizeUmlauts.apply("Bär"), "Baer");
}

#[test]
fn white_space_agrees_with_std() {
    for code in 0u32..0x11000 {
        if let Some(c) = char::from_u32(code) {
            assert_eq!(jpn_diary::text::is_white_space_char(c), c.is_whitespace(), "{:x}", code);
        }
    }
}
