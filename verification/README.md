# jpn_diary

A command-line tool for managing a Japanese learning diary, with its logic
verified by Verus.

- `src/` is the verified library:
  - `text`: character replacement, umlaut spelling, full-width brackets,
    Unicode trimming, right alignment and joining, with their laws;
  - `decimal`: decimal spelling of integers, read back by `decimal_value`;
  - `furigana`: stripping ruby annotations with three regular expressions;
  - `sql`: the calls into rusqlite, and the typed values rows are read as;
  - `diarydb`, `diarydb_entry`: the diary (`DiaryDB`) and its entries;
  - `dictionarydb`: the JMdict dictionary (`DictionaryDB`);
  - `cli`: the arguments, the resolution of what the user types, and every
    line the tool prints;
  - `clock`, `error`: the time stamp of new entries and the error type.
- `app/main.rs` reads the arguments and the user's input and prints.
- `tests/` runs the library against in-memory SQLite databases.

The dictionary file `jpn.db` is read from the directory of the executable.
