use vstd::prelude::*;

verus! {

/// Data model for a single diary entry row.
#[derive(Debug, Clone)]
pub struct DiaryDBEntry {
    /// Unique identifier for the entry.
    pub id: i32,
    /// Japanese text of the diary entry.
    pub japanese: String,
    /// Romaji transcription of the Japanese text.
    pub romaji: String,
    /// English meaning of the diary entry.
    pub meaning: String,
    /// Optional notes about the diary entry.
    pub notes: Option<String>,
    /// Timestamp when the diary entry was added (milliseconds since epoch).
    pub date_added: i64,
}

/// A diary entry with its texts as character sequences.
pub struct EntryView {
    pub id: i32,
    pub japanese: Seq<char>,
    pub romaji: Seq<char>,
    pub meaning: Seq<char>,
    pub notes: Option<Seq<char>>,
    pub date_added: i64,
}

/// The characters of an optional text.
pub open spec fn opt_text_view(t: Option<String>) -> Option<Seq<char>> {
    match t {
        Some(s) => Some(s@),
        None => None,
    }
}

impl View for DiaryDBEntry {
    type V = EntryView;

    open spec fn view(&self) -> EntryView {
        EntryView {
            id: self.id,
            japanese: self.japanese@,
            romaji: self.romaji@,
            meaning: self.meaning@,
            notes: opt_text_view(self.notes),
            date_added: self.date_added,
        }
    }
}

} // verus!
