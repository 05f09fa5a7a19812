use vstd::prelude::*;
use crate::decimal::{decimal_len, i32_to_decimal, int_decimal, nat_decimal, usize_to_decimal};
use crate::diarydb_entry::{DiaryDBEntry, EntryView};
use crate::dictionarydb::JmdictEntry;
use crate::text::{
    join, join_spec, pad_left, pad_left_spec, replace_brackets, replace_brackets_spec, replace_char,
    replace_char_spec, texts_view, trim, trim_spec,
};

verus! {

/// Command-line arguments of the application.
#[derive(Clone)]
pub struct Args {
    /// Path to the SQLite database file.
    pub db_path: String,
    /// The command to execute.
    pub command: Commands,
}

/// The commands of the application.
#[derive(Clone)]
pub enum Commands {
    /// Add a new diary entry interactively.
    Add {},
    /// Search for diary entries matching a query.
    Search { query: String },
    /// Delete a diary entry by ID.
    Delete { id: i32 },
    /// Update a diary entry by ID interactively.
    Update { id: i32 },
    /// List all diary entries, optionally limited to a certain number.
    List { limit: Option<usize> },
    /// Search the dictionary for a query.
    Dict { query: String },
    /// Vacuum the database.
    Vacuum {},
}

/// The value an edited field takes: the typed line without surrounding
/// white space, or the current value when nothing but white space was typed.
pub open spec fn resolve_input_spec(line: Seq<char>, current: Seq<char>) -> Seq<char> {
    if trim_spec(line).len() == 0 {
        current
    } else {
        trim_spec(line)
    }
}

/// The value an edited field takes from the line the user typed.
pub fn resolve_input(line: &str, current: &str) -> (r: String)
    ensures
        r@ == resolve_input_spec(line@, current@),
{
    let trimmed = trim(line);
    if chars_count(&trimmed) == 0 {
        String::from_str(current)
    } else {
        trimmed
    }
}

fn chars_count(s: &String) -> (n: usize)
    ensures
        n == s@.len(),
{
    crate::text::chars_of(s.as_str()).len()
}

/// A line without the line break that ends it (`\n` or `\r\n`).
pub open spec fn line_content_spec(line: Seq<char>) -> Seq<char> {
    if line.len() > 0 && line.last() == '\n' {
        let rest = line.drop_last();
        if rest.len() > 0 && rest.last() == '\r' {
            rest.drop_last()
        } else {
            rest
        }
    } else {
        line
    }
}

/// The value an optional field takes: the current value when the user just
/// pressed Enter (or no line was read at all); cleared by a line of nothing
/// but white space; otherwise the typed line without surrounding white
/// space.
pub open spec fn resolve_optional_input_spec(line: Seq<char>, current: Option<Seq<char>>) -> Option<Seq<char>> {
    if line_content_spec(line).len() == 0 {
        current
    } else if trim_spec(line).len() == 0 {
        None
    } else {
        Some(trim_spec(line))
    }
}

/// The characters of an optional text.
pub open spec fn opt_view(t: Option<String>) -> Option<Seq<char>> {
    match t {
        Some(s) => Some(s@),
        None => None,
    }
}

/// The value an optional field takes from the line the user typed.
pub fn resolve_optional_input(line: &str, current: &Option<String>) -> (r: Option<String>)
    ensures
        opt_view(r) == resolve_optional_input_spec(line@, opt_view(*current)),
{
    let chars = crate::text::chars_of(line);
    let mut content_len = chars.len();
    if content_len > 0 && chars[content_len - 1] == '\n' {
        content_len = content_len - 1;
        if content_len > 0 && chars[content_len - 1] == '\r' {
            content_len = content_len - 1;
        }
    }
    proof {
        let c = line_content_spec(line@);
        assert(c.len() == content_len);
    }
    if content_len == 0 {
        return match current {
            Some(c) => Some(c.clone()),
            None => None,
        };
    }
    let trimmed = trim(line);
    if chars_count(&trimmed) == 0 {
        None
    } else {
        Some(trimmed)
    }
}

/// Just pressing Enter (or reading no line at all) keeps the current value
/// of a field, whether it is required or optional.
pub proof fn lemma_enter_keeps_current(current: Seq<char>, optional_current: Option<Seq<char>>)
    ensures
        resolve_input_spec("\n"@, current) == current,
        resolve_input_spec("\r\n"@, current) == current,
        resolve_input_spec(""@, current) == current,
        resolve_optional_input_spec("\n"@, optional_current) == optional_current,
        resolve_optional_input_spec("\r\n"@, optional_current) == optional_current,
        resolve_optional_input_spec(""@, optional_current) == optional_current,
{
    reveal_strlit("\n");
    reveal_strlit("\r\n");
    reveal_strlit("");
    let n = "\n"@;
    let rn = "\r\n"@;
    assert(n.drop_first().len() == 0);
    assert(rn.drop_first().drop_first().len() == 0);
    assert(trim_spec(n).len() == 0) by {
        assert(crate::text::trim_start_spec(n.drop_first()) == n.drop_first());
    }
    assert(trim_spec(rn).len() == 0) by {
        assert(crate::text::trim_start_spec(rn.drop_first().drop_first()) == rn.drop_first().drop_first());
        assert(crate::text::trim_start_spec(rn.drop_first()) == crate::text::trim_start_spec(rn.drop_first().drop_first()));
    }
    assert(line_content_spec(n).len() == 0);
    assert(rn.drop_last().last() == '\r');
    assert(line_content_spec(rn).len() == 0);
}

/// A value typed into a field never starts or ends with white space.
pub proof fn lemma_typed_value_is_trimmed(line: Seq<char>, current: Seq<char>, optional_current: Option<Seq<char>>)
    ensures
        trim_spec(line).len() > 0 ==> resolve_input_spec(line, current) == trim_spec(line),
        ({
            let r = resolve_optional_input_spec(line, optional_current);
            r != optional_current ==> (r is None || trim_spec(r->0) == r->0)
        }),
        ({
            let r = resolve_input_spec(line, current);
            r != current ==> trim_spec(r) == r
        }),
{
    crate::text::lemma_trim_idempotent(line);
}

/// The prompt for a field: its name and current value.
pub open spec fn prompt_spec(prompt: Seq<char>, current: Seq<char>) -> Seq<char> {
    prompt + " ["@ + current + "]: "@
}

/// The prompt for a field: `name [current]: `.
pub fn prompt_text(prompt: &str, current: &str) -> (r: String)
    ensures
        r@ == prompt_spec(prompt@, current@),
{
    let mut out = String::from_str(prompt);
    out.append(" [");
    out.append(current);
    out.append("]: ");
    out
}

/// What the prompt of an optional field shows as its current value.
pub open spec fn optional_display_spec(current: Option<Seq<char>>) -> Seq<char> {
    match current {
        Some(c) => c,
        None => "(empty)"@,
    }
}

/// The prompt for an optional field; an absent value shows as `(empty)`.
pub fn prompt_text_optional(prompt: &str, current: &Option<String>) -> (r: String)
    ensures
        r@ == prompt_spec(prompt@, optional_display_spec(opt_view(*current))),
{
    match current {
        Some(c) => prompt_text(prompt, c.as_str()),
        None => prompt_text(prompt, "(empty)"),
    }
}

/// How the notes of an entry show in the list: `No notes` when absent, and
/// line breaks shown as spaces.
pub open spec fn notes_display_spec(notes: Option<Seq<char>>) -> Seq<char> {
    replace_char_spec(
        match notes {
            Some(n) => n,
            None => "No notes"@,
        },
        '\n',
        " "@,
    )
}

/// One line of the list: `[id]: japanese (romaji), meaning, notes`, the id
/// right-aligned to `width` characters and the brackets of the Japanese
/// text made full-width.
pub open spec fn list_line_spec(e: EntryView, width: nat) -> Seq<char> {
    "["@ + pad_left_spec(int_decimal(e.id as int), width) + "]: "@ + replace_brackets_spec(e.japanese)
        + " ("@ + e.romaji + "), "@ + e.meaning + ", "@ + notes_display_spec(e.notes)
}

/// One line of the list of entries.
pub fn list_line(entry: &DiaryDBEntry, width: usize) -> (r: String)
    ensures
        r@ == list_line_spec(entry@, width as nat),
{
    let id = i32_to_decimal(entry.id);
    let padded = pad_left(id.as_str(), width);
    let japanese = replace_brackets(entry.japanese.as_str());
    let notes = match &entry.notes {
        Some(n) => replace_char(n.as_str(), '\n', " "),
        None => replace_char("No notes", '\n', " "),
    };
    let mut out = String::from_str("[");
    out.append(padded.as_str());
    out.append("]: ");
    out.append(japanese.as_str());
    out.append(" (");
    out.append(entry.romaji.as_str());
    out.append("), ");
    out.append(entry.meaning.as_str());
    out.append(", ");
    out.append(notes.as_str());
    out
}

/// The width of the id column of a list of `count` entries: the number of
/// digits of `count`.
pub fn list_width(count: usize) -> (w: usize)
    ensures
        w == nat_decimal(count as nat).len(),
{
    decimal_len(count)
}

/// The line after the list.
pub open spec fn total_line_spec(count: nat) -> Seq<char> {
    "Total entries: "@ + nat_decimal(count)
}

/// The line after the list: `Total entries: count`.
pub fn total_line(count: usize) -> (r: String)
    ensures
        r@ == total_line_spec(count as nat),
{
    let mut out = String::from_str("Total entries: ");
    out.append(usize_to_decimal(count).as_str());
    out
}

/// The lines that show an entry found by a search: the Japanese text with
/// full-width brackets, the romaji, the meaning, the notes when there are
/// any, and an empty line.
pub open spec fn search_lines_spec(e: EntryView) -> Seq<Seq<char>> {
    seq![replace_brackets_spec(e.japanese), e.romaji, e.meaning] + match e.notes {
        Some(n) => seq![n],
        None => Seq::empty(),
    } + seq![Seq::empty()]
}

/// The lines that show an entry found by a search.
pub fn search_lines(entry: &DiaryDBEntry) -> (v: Vec<String>)
    ensures
        texts_view(v@) == search_lines_spec(entry@),
{
    let mut v = Vec::new();
    v.push(replace_brackets(entry.japanese.as_str()));
    v.push(entry.romaji.clone());
    v.push(entry.meaning.clone());
    match &entry.notes {
        Some(n) => v.push(n.clone()),
        None => {},
    }
    v.push(String::new());
    proof { assert(texts_view(v@) =~= search_lines_spec(entry@)); }
    v
}

/// The line that says a search of the diary found nothing.
pub open spec fn no_search_results_spec(query: Seq<char>) -> Seq<char> {
    "No entries found matching query: '"@ + query + "'"@
}

/// The line that says a search of the diary found nothing.
pub fn no_search_results_line(query: &str) -> (r: String)
    ensures
        r@ == no_search_results_spec(query@),
{
    let mut out = String::from_str("No entries found matching query: '");
    out.append(query);
    out.append("'");
    out
}

/// The line that shows a dictionary entry: `kanji (readings) - glosses)`,
/// kanji and readings joined with `, ` and glosses with `; `.
pub open spec fn dict_line_spec(kanji: Seq<Seq<char>>, readings: Seq<Seq<char>>, glosses: Seq<Seq<char>>) -> Seq<char> {
    join_spec(kanji, ", "@) + " ("@ + join_spec(readings, ", "@) + ") - "@ + join_spec(glosses, "; "@) + ")"@
}

/// The line that shows a dictionary entry.
pub fn dict_line(entry: &JmdictEntry) -> (r: String)
    ensures
        r@ == dict_line_spec(texts_view(entry.kanji@), texts_view(entry.readings@), texts_view(entry.glosses@)),
{
    let mut out = join(&entry.kanji, ", ");
    out.append(" (");
    out.append(join(&entry.readings, ", ").as_str());
    out.append(") - ");
    out.append(join(&entry.glosses, "; ").as_str());
    out.append(")");
    out
}

/// The line that says a search of the dictionary found nothing.
pub open spec fn no_dict_results_spec(query: Seq<char>) -> Seq<char> {
    "No dictionary entries found matching query: '"@ + query + "'"@
}

/// The line that says a search of the dictionary found nothing.
pub fn no_dict_results_line(query: &str) -> (r: String)
    ensures
        r@ == no_dict_results_spec(query@),
{
    let mut out = String::from_str("No dictionary entries found matching query: '");
    out.append(query);
    out.append("'");
    out
}

/// The lines of all entries found by a search, one block per entry.
pub open spec fn search_blocks_spec(entries: Seq<DiaryDBEntry>) -> Seq<Seq<char>>
    decreases entries.len(),
{
    if entries.len() == 0 {
        Seq::empty()
    } else {
        search_blocks_spec(entries.drop_last()) + search_lines_spec(entries.last()@)
    }
}

/// What a search of the diary prints: the line that says nothing was found
/// when no entry was, and otherwise the lines of each entry in order.
pub open spec fn search_output_spec(query: Seq<char>, entries: Seq<DiaryDBEntry>) -> Seq<Seq<char>> {
    if entries.len() == 0 {
        seq![no_search_results_spec(query)]
    } else {
        search_blocks_spec(entries)
    }
}

/// What a search of the diary prints, line by line.
pub fn search_output(query: &str, entries: &Vec<DiaryDBEntry>) -> (v: Vec<String>)
    ensures
        texts_view(v@) == search_output_spec(query@, entries@),
{
    let mut out: Vec<String> = Vec::new();
    if entries.len() == 0 {
        out.push(no_search_results_line(query));
        proof { assert(texts_view(out@) =~= search_output_spec(query@, entries@)); }
        return out;
    }
    let mut k: usize = 0;
    while k < entries.len()
        invariant
            k <= entries.len(),
            texts_view(out@) == search_blocks_spec(entries@.take(k as int)),
        decreases entries.len() - k,
    {
        let lines = search_lines(&entries[k]);
        let ghost before = out@;
        let mut j: usize = 0;
        while j < lines.len()
            invariant
                j <= lines.len(),
                out@ == before + lines@.take(j as int),
            decreases lines.len() - j,
        {
            out.push(lines[j].clone());
            proof { assert(out@ =~= before + lines@.take(j + 1)); }
            j = j + 1;
        }
        proof {
            assert(lines@.take(lines.len() as int) =~= lines@);
            assert(entries@.take(k + 1).drop_last() =~= entries@.take(k as int));
            assert(texts_view(before + lines@) =~= texts_view(before) + texts_view(lines@));
        }
        k = k + 1;
    }
    proof { assert(entries@.take(entries.len() as int) =~= entries@); }
    out
}

/// The line of each dictionary entry, in order.
pub open spec fn dict_lines_spec(entries: Seq<JmdictEntry>) -> Seq<Seq<char>> {
    entries.map_values(|e: JmdictEntry| dict_line_spec(texts_view(e.kanji@), texts_view(e.readings@), texts_view(e.glosses@)))
}

/// What a search of the dictionary prints: the line that says nothing was
/// found when no entry was, and otherwise one line per entry in order.
pub open spec fn dict_output_spec(query: Seq<char>, entries: Seq<JmdictEntry>) -> Seq<Seq<char>> {
    if entries.len() == 0 {
        seq![no_dict_results_spec(query)]
    } else {
        dict_lines_spec(entries)
    }
}

/// What a search of the dictionary prints, line by line.
pub fn dict_output(query: &str, entries: &Vec<JmdictEntry>) -> (v: Vec<String>)
    ensures
        texts_view(v@) == dict_output_spec(query@, entries@),
{
    let mut out: Vec<String> = Vec::new();
    if entries.len() == 0 {
        out.push(no_dict_results_line(query));
        proof { assert(texts_view(out@) =~= dict_output_spec(query@, entries@)); }
        return out;
    }
    let mut k: usize = 0;
    while k < entries.len()
        invariant
            k <= entries.len(),
            out.len() == k,
            texts_view(out@) == dict_lines_spec(entries@.take(k as int)),
        decreases entries.len() - k,
    {
        let ghost before = out@;
        let line = dict_line(&entries[k]);
        out.push(line);
        proof {
            let want = dict_lines_spec(entries@.take(k + 1));
            assert forall|i: int| 0 <= i < k + 1 implies texts_view(out@)[i] == want[i] by {
                if i < k {
                    assert(texts_view(out@)[i] == texts_view(before)[i]);
                    assert(entries@.take(k + 1)[i] == entries@.take(k as int)[i]);
                } else {
                    assert(out@[i] == line);
                }
            }
            assert(texts_view(out@) =~= want);
        }
        k = k + 1;
    }
    proof { assert(entries@.take(entries.len() as int) =~= entries@); }
    out
}

/// What listing the diary prints: one line per entry, the ids aligned to
/// the digits of the number of entries, then the total.
pub open spec fn list_output_spec(entries: Seq<DiaryDBEntry>) -> Seq<Seq<char>> {
    entries.map_values(|e: DiaryDBEntry| list_line_spec(e@, nat_decimal(entries.len()).len()))
        .push(total_line_spec(entries.len()))
}

/// What listing the diary prints, line by line.
pub fn list_output(entries: &Vec<DiaryDBEntry>) -> (v: Vec<String>)
    ensures
        texts_view(v@) == list_output_spec(entries@),
{
    let width = list_width(entries.len());
    let mut out: Vec<String> = Vec::new();
    let mut k: usize = 0;
    while k < entries.len()
        invariant
            k <= entries.len(),
            width == nat_decimal(entries.len() as nat).len(),
            out.len() == k,
            texts_view(out@) == entries@.take(k as int).map_values(
                |e: DiaryDBEntry| list_line_spec(e@, nat_decimal(entries@.len()).len()),
            ),
        decreases entries.len() - k,
    {
        let ghost before = out@;
        let line = list_line(&entries[k], width);
        out.push(line);
        proof {
            let want = entries@.take(k + 1).map_values(
                |e: DiaryDBEntry| list_line_spec(e@, nat_decimal(entries@.len()).len()),
            );
            assert forall|i: int| 0 <= i < k + 1 implies texts_view(out@)[i] == want[i] by {
                if i < k {
                    assert(texts_view(out@)[i] == texts_view(before)[i]);
                    assert(entries@.take(k + 1)[i] == entries@.take(k as int)[i]);
                } else {
                    assert(out@[i] == line);
                }
            }
            assert(texts_view(out@) =~= want);
        }
        k = k + 1;
    }
    out.push(total_line(entries.len()));
    proof {
        assert(entries@.take(entries.len() as int) =~= entries@);
        assert(texts_view(out@) =~= list_output_spec(entries@));
    }
    out
}

/// An entry after editing: the given texts, the same id and time stamp.
pub fn edited_entry(entry: &DiaryDBEntry, japanese: String, romaji: String, meaning: String, notes: Option<String>) -> (e: DiaryDBEntry)
    ensures
        e.id == entry.id,
        e.date_added == entry.date_added,
        e.japanese == japanese,
        e.romaji == romaji,
        e.meaning == meaning,
        e.notes == notes,
{
    DiaryDBEntry { id: entry.id, japanese, romaji, meaning, notes, date_added: entry.date_added }
}

/// The line before the fields of a new entry are asked for.
pub fn adding_line() -> (r: String)
    ensures
        r@ == "Adding entry..."@,
{
    String::from_str("Adding entry...")
}

/// The line after the database was vacuumed.
pub fn vacuumed_line() -> (r: String)
    ensures
        r@ == "Database vacuumed successfully."@,
{
    String::from_str("Database vacuumed successfully.")
}

/// `message` followed by the decimal id.
pub open spec fn with_id_spec(message: Seq<char>, id: i32) -> Seq<char> {
    message + int_decimal(id as int)
}

fn with_id(message: &str, id: i32) -> (r: String)
    ensures
        r@ == with_id_spec(message@, id),
{
    let mut out = String::from_str(message);
    out.append(i32_to_decimal(id).as_str());
    out
}

/// The line after a deletion: `Deleted entry with ID: id`.
pub fn deleted_line(id: i32) -> (r: String)
    ensures
        r@ == with_id_spec("Deleted entry with ID: "@, id),
{
    with_id("Deleted entry with ID: ", id)
}

/// The line after an update: `Updated entry with ID: id`.
pub fn updated_line(id: i32) -> (r: String)
    ensures
        r@ == with_id_spec("Updated entry with ID: "@, id),
{
    with_id("Updated entry with ID: ", id)
}

/// The error of an update of a missing entry: `Entry with ID id not found`.
pub fn not_found_message(id: i32) -> (r: String)
    ensures
        r@ == with_id_spec("Entry with ID "@, id) + " not found"@,
{
    let mut out = with_id("Entry with ID ", id);
    out.append(" not found");
    out
}

} // verus!
