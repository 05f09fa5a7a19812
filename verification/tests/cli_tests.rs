use jpn_diary::cli::{
    deleted_line, dict_line, list_line, list_width, no_dict_results_line, no_search_results_line,
    not_found_message, prompt_text, prompt_text_optional, resolve_input, resolve_optional_input,
    search_lines, total_line, updated_line, Args, Commands,
};
use jpn_diary::diarydb::DiaryDBEntry;
use jpn_diary::dictionarydb::JmdictEntry;
use jpn_diary::cli::{dict_output, edited_entry, list_output, search_output};

fn entry(id: i32, notes: Option<&str>) -> DiaryDBEntry {
    DiaryDBEntry {
        id,
        japanese: "[漢字](かんじ)".to_string(),
        romaji: "kanji".to_string(),
        meaning: "Chinese characters".to_string(),
        notes: notes.map(|s| s.to_string()),
        date_added: 1_700_000_000_000,
    }
}

#[test]
fn resolve_input_trims_or_keeps_current() {
    assert_eq!(resolve_input("  neu \n", "alt"), "neu");
    assert_eq!(resolve_input("\n", "alt"), "alt");
    assert_eq!(resolve_input("   \n", "alt"), "alt");
    assert_eq!(resolve_input("", "alt"), "alt");
    assert_eq!(resolve_input("\n", ""), "");
}

#[test]
fn resolve_optional_input_cases() {
    let current = Some("old note".to_string());
    // Just pressing Enter keeps the current value.
    assert_eq!(resolve_optional_input("\n", &current), current);
    assert_eq!(resolve_optional_input("\r\n", &current), current);
    // No line at all keeps it too.
    assert_eq!(resolve_optional_input("", &current), current);
    // A line of nothing but white space clears it.
    assert_eq!(resolve_optional_input("   \n", &current), None);
    // Anything else replaces it, trimmed.
    assert_eq!(resolve_optional_input(" new \n", &current), Some("new".to_string()));
    assert_eq!(resolve_optional_input("\n", &None), None);
}

#[test]
fn prompts_show_current_value() {
    assert_eq!(prompt_text("Japanese", "猫"), "Japanese [猫]: ");
    assert_eq!(prompt_text("Romaji", ""), "Romaji []: ");
    assert_eq!(prompt_text_optional("Notes", &None), "Notes [(empty)]: ");
    assert_eq!(prompt_text_optional("Notes", &Some("n".to_string())), "Notes [n]: ");
}

#[test]
fn list_lines_and_total() {
    let width = list_width(12);
    assert_eq!(width, 2);
    assert_eq!(
        list_line(&entry(3, Some("line one\nline two")), width),
        "[ 3]: 「漢字」（かんじ） (kanji), Chinese characters, line one line two"
    );
    assert_eq!(
        list_line(&entry(42, None), 1),
        "[42]: 「漢字」（かんじ） (kanji), Chinese characters, No notes"
    );
    assert_eq!(list_line(&entry(-5, None), 4).starts_with("[  -5]: "), true);
    assert_eq!(total_line(12), "Total entries: 12");
    assert_eq!(total_line(0), "Total entries: 0");
    assert_eq!(list_width(0), 1);
}

#[test]
fn search_lines_show_entry() {
    assert_eq!(
        search_lines(&entry(1, Some("a note"))),
        vec!["「漢字」（かんじ）", "kanji", "Chinese characters", "a note", ""]
    );
    assert_eq!(
        search_lines(&entry(1, None)),
        vec!["「漢字」（かんじ）", "kanji", "Chinese characters", ""]
    );
    assert_eq!(no_search_results_line("xyz"), "No entries found matching query: 'xyz'");
}

#[test]
fn dict_line_joins_fields() {
    let e = JmdictEntry {
        kanji: vec!["猫".to_string(), "ネコ".to_string()],
        readings: vec!["ねこ".to_string()],
        glosses: vec!["cat".to_string(), "feline".to_string()],
    };
    assert_eq!(dict_line(&e), "猫, ネコ (ねこ) - cat; feline)");
    let empty = JmdictEntry { kanji: vec![], readings: vec!["あ".to_string()], glosses: vec![] };
    assert_eq!(dict_line(&empty), " (あ) - )");
    assert_eq!(
        no_dict_results_line("zzz"),
        "No dictionary entries found matching query: 'zzz'"
    );
}

#[test]
fn messages_with_ids() {
    assert_eq!(deleted_line(7), "Deleted entry with ID: 7");
    assert_eq!(updated_line(-1), "Updated entry with ID: -1");
    assert_eq!(not_found_message(99), "Entry with ID 99 not found");
}

#[test]
fn args_hold_command() {
    let args = Args { db_path: "diary.db".to_string(), command: Commands::List { limit: Some(3) } };
    match args.command.clone() {
        Commands::List { limit } => assert_eq!(limit, Some(3)),
        _ => panic!("wrong command"),
    }
    assert_eq!(args.db_path, "diary.db");
}

#[test]
fn search_output_lists_blocks_or_says_nothing_found() {
    assert_eq!(search_output("q", &vec![]), vec!["No entries found matching query: 'q'"]);
    let out = search_output("q", &vec![entry(1, None), entry(2, Some("n"))]);
    assert_eq!(
        out,
        vec![
            "「漢字」（かんじ）", "kanji", "Chinese characters", "",
            "「漢字」（かんじ）", "kanji", "Chinese characters", "n", "",
        ]
    );
}

#[test]
fn dict_output_lists_lines_or_says_nothing_found() {
    assert_eq!(dict_output("q", &vec![]), vec!["No dictionary entries found matching query: 'q'"]);
    let e = JmdictEntry { kanji: vec!["猫".to_string()], readings: vec!["ねこ".to_string()], glosses: vec!["cat".to_string()] };
    assert_eq!(dict_output("q", &vec![e.clone(), e]), vec!["猫 (ねこ) - cat)", "猫 (ねこ) - cat)"]);
}

#[test]
fn list_output_aligns_ids_and_counts() {
    let entries: Vec<DiaryDBEntry> = (1..=10).map(|i| entry(i, None)).collect();
    let out = list_output(&entries);
    assert_eq!(out.len(), 11);
    assert!(out[0].starts_with("[ 1]: "));
    assert!(out[9].starts_with("[10]: "));
    assert_eq!(out[10], "Total entries: 10");
    assert_eq!(list_output(&vec![]), vec!["Total entries: 0"]);
}

#[test]
fn edited_entry_keeps_id_and_time() {
    let e = edited_entry(&entry(5, Some("x")), "j".to_string(), "r".to_string(), "m".to_string(), None);
    assert_eq!(e.id, 5);
    assert_eq!(e.date_added, 1_700_000_000_000);
    assert_eq!((e.japanese.as_str(), e.romaji.as_str(), e.meaning.as_str()), ("j", "r", "m"));
    assert_eq!(e.notes, None);
}

#[test]
fn constant_lines() {
    assert_eq!(jpn_diary::cli::adding_line(), "Adding entry...");
    assert_eq!(jpn_diary::cli::vacuumed_line(), "Database vacuumed successfully.");
}
