use vstd::prelude::*;

verus! {

pub assume_specification[ String::push ](s: &mut String, ch: char)
    ensures
        final(s)@ == old(s)@.push(ch),
;

/// What one character becomes when `c` is replaced by `rep`.
pub open spec fn replace_one(x: char, c: char, rep: Seq<char>) -> Seq<char> {
    if x == c { rep } else { seq![x] }
}

/// `s` with every occurrence of the character `c` replaced by `rep`.
pub open spec fn replace_char_spec(s: Seq<char>, c: char, rep: Seq<char>) -> Seq<char>
    decreases s.len(),
{
    if s.len() == 0 {
        Seq::empty()
    } else {
        replace_char_spec(s.drop_last(), c, rep) + replace_one(s.last(), c, rep)
    }
}

pub fn replace_char(s: &str, c: char, rep: &str) -> (r: String)
    ensures
        r@ == replace_char_spec(s@, c, rep@),
{
    let mut out = String::new();
    for ch in it: s.chars()
        invariant
            it.seq() == s@,
            out@ == replace_char_spec(s@.take(it.index() as int), c, rep@),
    {
        proof {
            assert(s@.take(it.index() + 1).drop_last() =~= s@.take(it.index() as int));
        }
        if ch == c {
            out.append(rep);
        } else {
            out.push(ch);
        }
    }
    proof { assert(s@.take(s@.len() as int) =~= s@); }
    out
}


/// Replacing inside a concatenation replaces inside each part.
pub proof fn lemma_replace_char_concat(a: Seq<char>, b: Seq<char>, c: char, rep: Seq<char>)
    ensures
        replace_char_spec(a + b, c, rep) == replace_char_spec(a, c, rep) + replace_char_spec(b, c, rep),
    decreases b.len(),
{
    if b.len() == 0 {
        assert(a + b =~= a);
        assert(replace_char_spec(b, c, rep) =~= Seq::<char>::empty());
        assert(replace_char_spec(a, c, rep) + Seq::<char>::empty() =~= replace_char_spec(a, c, rep));
    } else {
        lemma_replace_char_concat(a, b.drop_last(), c, rep);
        assert((a + b).drop_last() =~= a + b.drop_last());
        assert((a + b).last() == b.last());
        assert(replace_char_spec(a, c, rep) + replace_char_spec(b.drop_last(), c, rep)
            + replace_one(b.last(), c, rep) =~= replace_char_spec(a, c, rep) + (replace_char_spec(
            b.drop_last(), c, rep) + replace_one(b.last(), c, rep)));
    }
}

/// Replacing a character that does not occur leaves the text as it is.
pub proof fn lemma_replace_char_absent(s: Seq<char>, c: char, rep: Seq<char>)
    requires
        !s.contains(c),
    ensures
        replace_char_spec(s, c, rep) == s,
    decreases s.len(),
{
    if s.len() > 0 {
        assert(!s.drop_last().contains(c)) by {
            if s.drop_last().contains(c) {
                let i = choose|i: int| 0 <= i < s.drop_last().len() && s.drop_last()[i] == c;
                assert(s[i] == c);
            }
        }
        lemma_replace_char_absent(s.drop_last(), c, rep);
        assert(s[s.len() - 1] != c);
        assert(s.drop_last() + seq![s.last()] =~= s);
    }
}

/// When the replacement does not hold the replaced character, none of it is left.
pub proof fn lemma_replace_char_removes(s: Seq<char>, c: char, rep: Seq<char>)
    requires
        !rep.contains(c),
    ensures
        !replace_char_spec(s, c, rep).contains(c),
    decreases s.len(),
{
    if s.len() > 0 {
        lemma_replace_char_removes(s.drop_last(), c, rep);
        let a = replace_char_spec(s.drop_last(), c, rep);
        let b = replace_one(s.last(), c, rep);
        assert(!b.contains(c)) by {
            if s.last() != c {
                if b.contains(c) {
                    assert(b[0] == c);
                }
            }
        }
        assert forall|i: int| 0 <= i < (a + b).len() implies (a + b)[i] != c by {
            if i < a.len() {
                assert((a + b)[i] == a[i]);
            } else {
                assert((a + b)[i] == b[i - a.len()]);
            }
        }
    }
}

/// A character other than the replaced one, and absent from the replacement,
/// occurs in the result exactly when it occurs in the input.
pub proof fn lemma_replace_char_keeps_other(s: Seq<char>, c: char, rep: Seq<char>, x: char)
    requires
        x != c,
        !rep.contains(x),
    ensures
        replace_char_spec(s, c, rep).contains(x) == s.contains(x),
    decreases s.len(),
{
    if s.len() > 0 {
        lemma_replace_char_keeps_other(s.drop_last(), c, rep, x);
        let a = replace_char_spec(s.drop_last(), c, rep);
        let b = replace_one(s.last(), c, rep);
        assert(b.contains(x) == (s.last() == x)) by {
            if s.last() == x {
                assert(b[0] == x);
            } else if b.contains(x) {
                if s.last() != c {
                    assert(b[0] == x);
                }
            }
        }
        assert((a + b).contains(x) == (a.contains(x) || b.contains(x))) by {
            if (a + b).contains(x) {
                let i = choose|i: int| 0 <= i < (a + b).len() && (a + b)[i] == x;
                if i < a.len() {
                    assert(a[i] == x);
                } else {
                    assert(b[i - a.len()] == x);
                }
            }
            if a.contains(x) {
                let i = choose|i: int| 0 <= i < a.len() && a[i] == x;
                assert((a + b)[i] == x);
            }
            if b.contains(x) {
                let i = choose|i: int| 0 <= i < b.len() && b[i] == x;
                assert((a + b)[a.len() + i] == x);
            }
        }
        assert(s.contains(x) == (s.drop_last().contains(x) || s.last() == x)) by {
            if s.contains(x) {
                let i = choose|i: int| 0 <= i < s.len() && s[i] == x;
                if i < s.len() - 1 {
                    assert(s.drop_last()[i] == x);
                }
            }
            if s.drop_last().contains(x) {
                let i = choose|i: int| 0 <= i < s.drop_last().len() && s.drop_last()[i] == x;
                assert(s[i] == x);
            }
        }
    }
}


/// Spelling of the German special letters in plain Latin letters: ü, ö, ä and ß
/// are replaced, in that order, by "ue", "oe", "ae" and "ss".
pub open spec fn normalize_umlauts_spec(s: Seq<char>) -> Seq<char> {
    replace_char_spec(
        replace_char_spec(
            replace_char_spec(replace_char_spec(s, 'ü', seq!['u', 'e']), 'ö', seq!['o', 'e']),
            'ä',
            seq!['a', 'e'],
        ),
        'ß',
        seq!['s', 's'],
    )
}

/// Replaces ü, ö, ä and ß by "ue", "oe", "ae" and "ss".
pub fn normalize_umlauts(text: &str) -> (r: String)
    ensures
        r@ == normalize_umlauts_spec(text@),
{
    proof {
        reveal_strlit("ue");
        reveal_strlit("oe");
        reveal_strlit("ae");
        reveal_strlit("ss");
        assert("ue"@ =~= seq!['u', 'e']);
        assert("oe"@ =~= seq!['o', 'e']);
        assert("ae"@ =~= seq!['a', 'e']);
        assert("ss"@ =~= seq!['s', 's']);
    }
    let t1 = replace_char(text, 'ü', "ue");
    let t2 = replace_char(t1.as_str(), 'ö', "oe");
    let t3 = replace_char(t2.as_str(), 'ä', "ae");
    replace_char(t3.as_str(), 'ß', "ss")
}

/// No ü, ö, ä or ß is left after normalization.
pub proof fn lemma_normalize_umlauts_removes(s: Seq<char>)
    ensures
        !normalize_umlauts_spec(s).contains('ü'),
        !normalize_umlauts_spec(s).contains('ö'),
        !normalize_umlauts_spec(s).contains('ä'),
        !normalize_umlauts_spec(s).contains('ß'),
{
    let ue = seq!['u', 'e'];
    let oe = seq!['o', 'e'];
    let ae = seq!['a', 'e'];
    let ss = seq!['s', 's'];
    assert(!ue.contains('ü') && !oe.contains('ü') && !ae.contains('ü') && !ss.contains('ü'));
    assert(!oe.contains('ö') && !ae.contains('ö') && !ss.contains('ö'));
    assert(!ae.contains('ä') && !ss.contains('ä'));
    assert(!ss.contains('ß'));
    let t1 = replace_char_spec(s, 'ü', ue);
    let t2 = replace_char_spec(t1, 'ö', oe);
    let t3 = replace_char_spec(t2, 'ä', ae);
    lemma_replace_char_removes(s, 'ü', ue);
    lemma_replace_char_keeps_other(t1, 'ö', oe, 'ü');
    lemma_replace_char_keeps_other(t2, 'ä', ae, 'ü');
    lemma_replace_char_keeps_other(t3, 'ß', ss, 'ü');
    lemma_replace_char_removes(t1, 'ö', oe);
    lemma_replace_char_keeps_other(t2, 'ä', ae, 'ö');
    lemma_replace_char_keeps_other(t3, 'ß', ss, 'ö');
    lemma_replace_char_removes(t2, 'ä', ae);
    lemma_replace_char_keeps_other(t3, 'ß', ss, 'ä');
    lemma_replace_char_removes(t3, 'ß', ss);
}

/// Text without ü, ö, ä and ß is left unchanged by normalization.
pub proof fn lemma_normalize_umlauts_identity(s: Seq<char>)
    requires
        !s.contains('ü'),
        !s.contains('ö'),
        !s.contains('ä'),
        !s.contains('ß'),
    ensures
        normalize_umlauts_spec(s) == s,
{
    lemma_replace_char_absent(s, 'ü', seq!['u', 'e']);
    lemma_replace_char_absent(s, 'ö', seq!['o', 'e']);
    lemma_replace_char_absent(s, 'ä', seq!['a', 'e']);
    lemma_replace_char_absent(s, 'ß', seq!['s', 's']);
}

/// Normalizing twice gives what normalizing once gives.
pub proof fn lemma_normalize_umlauts_idempotent(s: Seq<char>)
    ensures
        normalize_umlauts_spec(normalize_umlauts_spec(s)) == normalize_umlauts_spec(s),
{
    lemma_normalize_umlauts_removes(s);
    lemma_normalize_umlauts_identity(normalize_umlauts_spec(s));
}

/// Half-width round and square brackets turned into their full-width
/// counterparts: ( ) [ ] become （ ） 「 」, in that order.
pub open spec fn replace_brackets_spec(s: Seq<char>) -> Seq<char> {
    replace_char_spec(
        replace_char_spec(
            replace_char_spec(replace_char_spec(s, '(', seq!['（']), ')', seq!['）']),
            '[',
            seq!['「'],
        ),
        ']',
        seq!['」'],
    )
}

/// Replaces ( ) [ ] by their full-width counterparts （ ） 「 」.
pub fn replace_brackets(s: &str) -> (r: String)
    ensures
        r@ == replace_brackets_spec(s@),
{
    proof {
        reveal_strlit("（");
        reveal_strlit("）");
        reveal_strlit("「");
        reveal_strlit("」");
        assert("（"@ =~= seq!['（']);
        assert("）"@ =~= seq!['）']);
        assert("「"@ =~= seq!['「']);
        assert("」"@ =~= seq!['」']);
    }
    let t1 = replace_char(s, '(', "（");
    let t2 = replace_char(t1.as_str(), ')', "）");
    let t3 = replace_char(t2.as_str(), '[', "「");
    replace_char(t3.as_str(), ']', "」")
}

/// No half-width bracket is left after the replacement.
pub proof fn lemma_replace_brackets_removes(s: Seq<char>)
    ensures
        !replace_brackets_spec(s).contains('('),
        !replace_brackets_spec(s).contains(')'),
        !replace_brackets_spec(s).contains('['),
        !replace_brackets_spec(s).contains(']'),
{
    let a = seq!['（'];
    let b = seq!['）'];
    let c = seq!['「'];
    let d = seq!['」'];
    assert(!a.contains('(') && !b.contains('(') && !c.contains('(') && !d.contains('('));
    assert(!b.contains(')') && !c.contains(')') && !d.contains(')'));
    assert(!c.contains('[') && !d.contains('['));
    assert(!d.contains(']'));
    let t1 = replace_char_spec(s, '(', a);
    let t2 = replace_char_spec(t1, ')', b);
    let t3 = replace_char_spec(t2, '[', c);
    lemma_replace_char_removes(s, '(', a);
    lemma_replace_char_keeps_other(t1, ')', b, '(');
    lemma_replace_char_keeps_other(t2, '[', c, '(');
    lemma_replace_char_keeps_other(t3, ']', d, '(');
    lemma_replace_char_removes(t1, ')', b);
    lemma_replace_char_keeps_other(t2, '[', c, ')');
    lemma_replace_char_keeps_other(t3, ']', d, ')');
    lemma_replace_char_removes(t2, '[', c);
    lemma_replace_char_keeps_other(t3, ']', d, '[');
    lemma_replace_char_removes(t3, ']', d);
}

/// Text without half-width brackets is left unchanged.
pub proof fn lemma_replace_brackets_identity(s: Seq<char>)
    requires
        !s.contains('('),
        !s.contains(')'),
        !s.contains('['),
        !s.contains(']'),
    ensures
        replace_brackets_spec(s) == s,
{
    lemma_replace_char_absent(s, '(', seq!['（']);
    lemma_replace_char_absent(s, ')', seq!['）']);
    lemma_replace_char_absent(s, '[', seq!['「']);
    lemma_replace_char_absent(s, ']', seq!['」']);
}

/// Replacing brackets twice gives what replacing them once gives.
pub proof fn lemma_replace_brackets_idempotent(s: Seq<char>)
    ensures
        replace_brackets_spec(replace_brackets_spec(s)) == replace_brackets_spec(s),
{
    lemma_replace_brackets_removes(s);
    lemma_replace_brackets_identity(replace_brackets_spec(s));
}


/// The characters with the Unicode `White_Space` property.
pub open spec fn is_white_space(c: char) -> bool {
    ||| ('\u{9}' <= c && c <= '\u{d}')
    ||| c == ' '
    ||| c == '\u{85}'
    ||| c == '\u{a0}'
    ||| c == '\u{1680}'
    ||| ('\u{2000}' <= c && c <= '\u{200a}')
    ||| c == '\u{2028}'
    ||| c == '\u{2029}'
    ||| c == '\u{202f}'
    ||| c == '\u{205f}'
    ||| c == '\u{3000}'
}

/// Whether `c` has the Unicode `White_Space` property, as
/// `char::is_whitespace` decides it.
pub fn is_white_space_char(c: char) -> (b: bool)
    ensures
        b == is_white_space(c),
{
    ('\u{9}' <= c && c <= '\u{d}') || c == ' ' || c == '\u{85}' || c == '\u{a0}' || c == '\u{1680}'
        || ('\u{2000}' <= c && c <= '\u{200a}') || c == '\u{2028}' || c == '\u{2029}' || c == '\u{202f}'
        || c == '\u{205f}' || c == '\u{3000}'
}

/// `s` without its leading white space.
pub open spec fn trim_start_spec(s: Seq<char>) -> Seq<char>
    decreases s.len(),
{
    if s.len() > 0 && is_white_space(s[0]) {
        trim_start_spec(s.drop_first())
    } else {
        s
    }
}

/// `s` without its trailing white space.
pub open spec fn trim_end_spec(s: Seq<char>) -> Seq<char>
    decreases s.len(),
{
    if s.len() > 0 && is_white_space(s.last()) {
        trim_end_spec(s.drop_last())
    } else {
        s
    }
}

/// `s` without leading and trailing white space.
pub open spec fn trim_spec(s: Seq<char>) -> Seq<char> {
    trim_end_spec(trim_start_spec(s))
}

/// The characters of `s`, in order.
pub fn chars_of(s: &str) -> (v: Vec<char>)
    ensures
        v@ == s@,
{
    let mut v: Vec<char> = Vec::new();
    for ch in it: s.chars()
        invariant
            it.seq() == s@,
            v@ == s@.take(it.index() as int),
    {
        proof {
            assert(s@.take(it.index() + 1) =~= s@.take(it.index() as int).push(ch));
        }
        v.push(ch);
    }
    proof { assert(s@.take(s@.len() as int) =~= s@); }
    v
}

/// The text made of the characters `v[from..to]`.
pub fn string_of_range(v: &Vec<char>, from: usize, to: usize) -> (r: String)
    requires
        from <= to <= v.len(),
    ensures
        r@ == v@.subrange(from as int, to as int),
{
    let mut out = String::new();
    let mut k = from;
    while k < to
        invariant
            from <= k <= to <= v.len(),
            out@ == v@.subrange(from as int, k as int),
        decreases to - k,
    {
        proof {
            assert(v@.subrange(from as int, k + 1) =~= v@.subrange(from as int, k as int).push(v@[k as int]));
        }
        out.push(v[k]);
        k = k + 1;
    }
    out
}

proof fn lemma_trim_start_step(s: Seq<char>, i: int)
    requires
        0 <= i < s.len(),
        is_white_space(s[i]),
    ensures
        trim_start_spec(s.subrange(i, s.len() as int)) == trim_start_spec(s.subrange(i + 1, s.len() as int)),
{
    let t = s.subrange(i, s.len() as int);
    assert(t[0] == s[i]);
    assert(t.drop_first() =~= s.subrange(i + 1, s.len() as int));
}

proof fn lemma_trim_end_step(s: Seq<char>, j: int)
    requires
        0 < j <= s.len(),
        is_white_space(s[j - 1]),
    ensures
        trim_end_spec(s.subrange(0, j)) == trim_end_spec(s.subrange(0, j - 1)),
{
    let t = s.subrange(0, j);
    assert(t.last() == s[j - 1]);
    assert(t.drop_last() =~= s.subrange(0, j - 1));
}

/// `str::trim`: the text without leading and trailing white space.
pub fn trim(s: &str) -> (r: String)
    ensures
        r@ == trim_spec(s@),
{
    let v = chars_of(s);
    let n = v.len();
    let mut i: usize = 0;
    proof { assert(s@.subrange(0, n as int) =~= s@); }
    while i < n && is_white_space_char(v[i])
        invariant
            i <= n == v.len(),
            v@ == s@,
            trim_start_spec(s@) == trim_start_spec(s@.subrange(i as int, n as int)),
        decreases n - i,
    {
        proof { lemma_trim_start_step(s@, i as int); }
        i = i + 1;
    }
    let ghost u = s@.subrange(i as int, n as int);
    proof {
        if u.len() > 0 {
            assert(u[0] == s@[i as int]);
        }
        assert(trim_start_spec(s@) == u);
    }
    let mut j: usize = n;
    proof { assert(u.subrange(0, (j - i) as int) =~= u); }
    while j > i && is_white_space_char(v[j - 1])
        invariant
            i <= j <= n == v.len(),
            v@ == s@,
            u == s@.subrange(i as int, n as int),
            trim_end_spec(u) == trim_end_spec(u.subrange(0, (j - i) as int)),
        decreases j,
    {
        proof {
            assert(u[(j - i) - 1] == s@[j - 1]);
            lemma_trim_end_step(u, (j - i) as int);
        }
        j = j - 1;
    }
    proof {
        let w = u.subrange(0, (j - i) as int);
        if w.len() > 0 {
            assert(w.last() == s@[j - 1]);
        }
        assert(trim_end_spec(w) == w);
        assert(w =~= s@.subrange(i as int, j as int));
    }
    string_of_range(&v, i, j)
}

proof fn lemma_trim_start_first(s: Seq<char>)
    ensures
        trim_start_spec(s).len() > 0 ==> !is_white_space(trim_start_spec(s)[0]),
        trim_start_spec(s).len() <= s.len(),
    decreases s.len(),
{
    if s.len() > 0 && is_white_space(s[0]) {
        lemma_trim_start_first(s.drop_first());
    }
}

proof fn lemma_trim_end_keeps_first(s: Seq<char>)
    requires
        s.len() > 0 ==> !is_white_space(s[0]),
    ensures
        trim_end_spec(s).len() > 0 ==> !is_white_space(trim_end_spec(s).last()),
        trim_end_spec(s).len() > 0 ==> !is_white_space(trim_end_spec(s)[0]),
        trim_end_spec(s).len() > 0 ==> trim_end_spec(s)[0] == s[0],
        trim_end_spec(s).len() <= s.len(),
        trim_end_spec(s) == s.subrange(0, trim_end_spec(s).len() as int),
    decreases s.len(),
{
    if s.len() > 0 && is_white_space(s.last()) {
        let t = s.drop_last();
        if t.len() > 0 {
            assert(t[0] == s[0]);
        }
        lemma_trim_end_keeps_first(t);
        assert(trim_end_spec(s) == trim_end_spec(t));
        assert(t.subrange(0, trim_end_spec(t).len() as int) =~= s.subrange(0, trim_end_spec(t).len() as int));
    } else {
        assert(s.subrange(0, s.len() as int) =~= s);
    }
}

/// Trimmed text neither starts nor ends with white space.
pub proof fn lemma_trim_no_outer_white_space(s: Seq<char>)
    ensures
        trim_spec(s).len() > 0 ==> !is_white_space(trim_spec(s)[0]),
        trim_spec(s).len() > 0 ==> !is_white_space(trim_spec(s).last()),
        trim_spec(s).len() <= s.len(),
{
    lemma_trim_start_first(s);
    lemma_trim_end_keeps_first(trim_start_spec(s));
}

proof fn lemma_trim_start_fixed(s: Seq<char>)
    requires
        s.len() > 0 ==> !is_white_space(s[0]),
    ensures
        trim_start_spec(s) == s,
{
}

proof fn lemma_trim_end_fixed(s: Seq<char>)
    requires
        s.len() > 0 ==> !is_white_space(s.last()),
    ensures
        trim_end_spec(s) == s,
{
}

/// Trimming twice gives what trimming once gives.
pub proof fn lemma_trim_idempotent(s: Seq<char>)
    ensures
        trim_spec(trim_spec(s)) == trim_spec(s),
{
    lemma_trim_no_outer_white_space(s);
    let t = trim_spec(s);
    lemma_trim_start_fixed(t);
    lemma_trim_end_fixed(t);
}


/// `k` spaces.
pub open spec fn spaces(k: nat) -> Seq<char> {
    Seq::new(k, |i: int| ' ')
}

/// `s` right-aligned in a field of `width` characters, padded with spaces
/// on the left, as `{:width$}` writes a number.
pub open spec fn pad_left_spec(s: Seq<char>, width: nat) -> Seq<char> {
    if s.len() < width {
        spaces((width - s.len()) as nat) + s
    } else {
        s
    }
}

/// A padded field is `width` characters long, or `s` itself when `s` is
/// longer, and it ends with `s` after nothing but spaces.
pub proof fn lemma_pad_left_shape(s: Seq<char>, width: nat)
    ensures
        pad_left_spec(s, width).len() == if s.len() < width { width } else { s.len() },
        pad_left_spec(s, width).subrange(
            pad_left_spec(s, width).len() - s.len(),
            pad_left_spec(s, width).len() as int,
        ) == s,
        forall|i: int|
            0 <= i < pad_left_spec(s, width).len() - s.len() ==> #[trigger] pad_left_spec(s, width)[i]
                == ' ',
{
    let p = pad_left_spec(s, width);
    assert(p.subrange(p.len() - s.len(), p.len() as int) =~= s);
}

/// `s` right-aligned in a field of `width` characters.
pub fn pad_left(s: &str, width: usize) -> (r: String)
    ensures
        r@ == pad_left_spec(s@, width as nat),
{
    let n = chars_of(s).len();
    let mut out = String::new();
    if n < width {
        let mut k: usize = 0;
        while k < width - n
            invariant
                n < width,
                k <= width - n,
                out@ == spaces(k as nat),
            decreases width - n - k,
        {
            out.push(' ');
            k = k + 1;
            proof { assert(out@ =~= spaces(k as nat)); }
        }
    }
    out.append(s);
    proof {
        if n >= width {
            assert(out@ =~= s@);
        }
    }
    out
}

/// The texts of `items` joined with `sep` between each two.
pub open spec fn join_spec(items: Seq<Seq<char>>, sep: Seq<char>) -> Seq<char>
    decreases items.len(),
{
    if items.len() == 0 {
        Seq::empty()
    } else if items.len() == 1 {
        items[0]
    } else {
        join_spec(items.drop_last(), sep) + sep + items.last()
    }
}

/// The views of a list of texts.
pub open spec fn texts_view(items: Seq<String>) -> Seq<Seq<char>> {
    items.map_values(|t: String| t@)
}

/// `items` joined with `sep`, as `[String]::join` does.
pub fn join(items: &Vec<String>, sep: &str) -> (r: String)
    ensures
        r@ == join_spec(texts_view(items@), sep@),
{
    let mut out = String::new();
    let ghost all = texts_view(items@);
    let mut k: usize = 0;
    while k < items.len()
        invariant
            k <= items.len(),
            all == texts_view(items@),
            out@ == join_spec(all.take(k as int), sep@),
        decreases items.len() - k,
    {
        proof {
            assert(all.take(k + 1).drop_last() =~= all.take(k as int));
            assert(all.take(k + 1).last() == items@[k as int]@);
        }
        if k > 0 {
            out.append(sep);
        } else {
            proof { assert(out@ + items@[0]@ =~= items@[0]@); }
        }
        out.append(items[k].as_str());
        k = k + 1;
    }
    proof { assert(all.take(items.len() as int) =~= all); }
    out
}

}
