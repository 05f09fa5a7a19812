use vstd::prelude::*;

verus! {

/// A character as SQLite's LIKE compares it: an upper-case ASCII letter as
/// its lower-case letter, every other character as itself.
pub open spec fn like_fold(c: char) -> char {
    if 'A' <= c && c <= 'Z' {
        ((c as u32) + 32) as char
    } else {
        c
    }
}

/// Whether LIKE takes the characters `a` and `b` for the same.
pub open spec fn like_same(a: char, b: char) -> bool {
    like_fold(a) == like_fold(b)
}

/// Whether `text` matches the LIKE pattern `pattern`: `%` matches any run
/// of characters, `_` any one character, and every other character itself,
/// ASCII letters in either case.
pub open spec fn like_matches(pattern: Seq<char>, text: Seq<char>) -> bool
    decreases pattern.len(), text.len(),
{
    if pattern.len() == 0 {
        text.len() == 0
    } else if pattern[0] == '%' {
        like_matches(pattern.drop_first(), text) || (text.len() > 0 && like_matches(pattern, text.drop_first()))
    } else if text.len() == 0 {
        false
    } else {
        (pattern[0] == '_' || like_same(pattern[0], text[0])) && like_matches(pattern.drop_first(), text.drop_first())
    }
}

/// Whether `text` begins with `part`, ASCII letters in either case.
pub open spec fn starts_like(text: Seq<char>, part: Seq<char>) -> bool {
    part.len() <= text.len() && forall|j: int| 0 <= j < part.len() ==> like_same(#[trigger] part[j], text[j])
}

/// Whether `part` occurs in `text`, ASCII letters in either case.
pub open spec fn contains_like(text: Seq<char>, part: Seq<char>) -> bool {
    exists|i: int| 0 <= i <= text.len() && #[trigger] starts_like(text.skip(i), part)
}

/// Whether `s` holds none of LIKE's wildcards.
pub open spec fn no_wildcards(s: Seq<char>) -> bool {
    !s.contains('%') && !s.contains('_')
}

/// A lone `%` matches every text.
pub proof fn lemma_percent_matches_all(text: Seq<char>)
    ensures
        like_matches(seq!['%'], text),
    decreases text.len(),
{
    let p = seq!['%'];
    assert(p[0] == '%');
    assert(p.drop_first() =~= Seq::<char>::empty());
    if text.len() > 0 {
        lemma_percent_matches_all(text.drop_first());
    } else {
        assert(like_matches(p.drop_first(), text));
    }
}

/// A wildcard-free `part` followed by `%` matches exactly the texts that
/// begin with `part`.
pub proof fn lemma_prefix_pattern(part: Seq<char>, text: Seq<char>)
    requires
        no_wildcards(part),
    ensures
        like_matches(part + seq!['%'], text) <==> starts_like(text, part),
    decreases part.len(),
{
    let p = part + seq!['%'];
    if part.len() == 0 {
        assert(p =~= seq!['%']);
        lemma_percent_matches_all(text);
    } else {
        assert(p[0] == part[0]);
        assert(part.contains(part[0]));
        let rest = part.drop_first();
        assert(p.drop_first() =~= rest + seq!['%']);
        assert(no_wildcards(rest)) by {
            if rest.contains('%') {
                let j = choose|j: int| 0 <= j < rest.len() && rest[j] == '%';
                assert(part[j + 1] == '%');
            }
            if rest.contains('_') {
                let j = choose|j: int| 0 <= j < rest.len() && rest[j] == '_';
                assert(part[j + 1] == '_');
            }
        }
        if text.len() > 0 {
            lemma_prefix_pattern(rest, text.drop_first());
            if starts_like(text, part) {
                assert(like_same(part[0], text[0]));
                assert forall|j: int| 0 <= j < rest.len() implies like_same(#[trigger] rest[j], text.drop_first()[j]) by {
                    assert(like_same(part[j + 1], text[j + 1]));
                }
            }
            if like_same(part[0], text[0]) && starts_like(text.drop_first(), rest) {
                assert forall|j: int| 0 <= j < part.len() implies like_same(#[trigger] part[j], text[j]) by {
                    if j > 0 {
                        assert(like_same(rest[j - 1], text.drop_first()[j - 1]));
                    }
                }
            }
        }
    }
}

/// A `%` followed by `rest` matches exactly the texts some suffix of which
/// `rest` matches.
pub proof fn lemma_leading_percent(rest: Seq<char>, text: Seq<char>)
    ensures
        like_matches(seq!['%'] + rest, text) <==> exists|i: int| 0 <= i <= text.len() && #[trigger] like_matches(rest, text.skip(i)),
    decreases text.len(),
{
    let p = seq!['%'] + rest;
    assert(p[0] == '%');
    assert(p.drop_first() =~= rest);
    assert(text.skip(0) =~= text);
    assert(like_matches(rest, text) == like_matches(rest, text.skip(0)));
    if text.len() > 0 {
        lemma_leading_percent(rest, text.drop_first());
        if like_matches(p, text.drop_first()) {
            let i = choose|i: int| 0 <= i <= text.drop_first().len() && #[trigger] like_matches(rest, text.drop_first().skip(i));
            assert(text.drop_first().skip(i) =~= text.skip(i + 1));
            assert(like_matches(rest, text.skip(i + 1)));
        }
        if exists|i: int| 0 <= i <= text.len() && #[trigger] like_matches(rest, text.skip(i)) {
            let i = choose|i: int| 0 <= i <= text.len() && #[trigger] like_matches(rest, text.skip(i));
            if i > 0 {
                assert(text.drop_first().skip(i - 1) =~= text.skip(i));
                assert(like_matches(rest, text.drop_first().skip(i - 1)));
            }
        }
    }
}

/// `%`, a wildcard-free `part`, `%` matches exactly the texts in which
/// `part` occurs, ASCII letters in either case.
pub proof fn lemma_contains_pattern(part: Seq<char>, text: Seq<char>)
    requires
        no_wildcards(part),
    ensures
        like_matches(seq!['%'] + part + seq!['%'], text) <==> contains_like(text, part),
{
    assert(seq!['%'] + part + seq!['%'] =~= seq!['%'] + (part + seq!['%']));
    lemma_leading_percent(part + seq!['%'], text);
    if like_matches(seq!['%'] + (part + seq!['%']), text) {
        let i = choose|i: int| 0 <= i <= text.len() && #[trigger] like_matches(part + seq!['%'], text.skip(i));
        lemma_prefix_pattern(part, text.skip(i));
        assert(starts_like(text.skip(i), part));
    }
    if contains_like(text, part) {
        let i = choose|i: int| 0 <= i <= text.len() && #[trigger] starts_like(text.skip(i), part);
        lemma_prefix_pattern(part, text.skip(i));
        assert(like_matches(part + seq!['%'], text.skip(i)));
    }
}

} // verus!
