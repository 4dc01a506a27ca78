//! String helpers shared by the rest of the library, with their
//! mathematical models over `Seq<char>`.

use vstd::prelude::*;

verus! {

/// The parts joined with `sep` between each two neighbours.
pub open spec fn seq_join(parts: Seq<Seq<char>>, sep: Seq<char>) -> Seq<char>
    decreases parts.len(),
{
    if parts.len() == 0 {
        Seq::empty()
    } else if parts.len() == 1 {
        parts[0]
    } else {
        seq_join(parts.drop_last(), sep) + sep + parts.last()
    }
}

/// The views of a vector of strings.
pub open spec fn views(v: Seq<String>) -> Seq<Seq<char>> {
    v.map_values(|s: String| s@)
}

/// Appends one character (std `String::push`).
#[verifier::external_body]
pub(crate) fn push_char(s: &mut String, c: char)
    ensures
        final(s)@ == old(s)@.push(c),
{
    s.push(c);
}

/// Appends a string slice (std `String::push_str`).
#[verifier::external_body]
pub(crate) fn push_str(s: &mut String, t: &str)
    ensures
        final(s)@ == old(s)@ + t@,
{
    s.push_str(t);
}

/// Joins the strings with `sep` between neighbours, as `Itertools::join` does.
pub fn join(parts: &Vec<String>, sep: &str) -> (res: String)
    ensures
        res@ == seq_join(views(parts@), sep@),
{
    let mut res = String::new();
    let ghost vs = views(parts@);
    let mut i: usize = 0;
    while i < parts.len()
        invariant
            i <= parts.len(),
            vs == views(parts@),
            res@ == seq_join(vs.take(i as int), sep@),
        decreases parts.len() - i,
    {
        if i > 0 {
            push_str(&mut res, sep);
        }
        push_str(&mut res, parts[i].as_str());
        proof {
            assert(vs.take(i + 1).drop_last() =~= vs.take(i as int));
            assert(vs.take(i + 1).last() == parts@[i as int]@);
            if i == 0 {
                assert(vs.take(1).len() == 1);
            }
        }
        i = i + 1;
    }
    proof {
        assert(vs.take(parts.len() as int) =~= vs);
    }
    res
}

} // verus!

verus! {

/// A copy of a list of strings.
pub fn clone_strings(v: &Vec<String>) -> (res: Vec<String>)
    ensures
        views(res@) == views(v@),
{
    let mut res: Vec<String> = Vec::new();
    let mut i: usize = 0;
    while i < v.len()
        invariant
            i <= v@.len(),
            views(res@) == views(v@.take(i as int)),
        decreases v@.len() - i,
    {
        let c = v[i].clone();
        let ghost before = res@;
        res.push(c);
        proof {
            assert(v@.take(i + 1) =~= v@.take(i as int).push(v@[i as int]));
            assert(res@ =~= before.push(c));
            assert(views(res@) =~= views(before).push(c@));
            assert(views(v@.take(i + 1)) =~= views(v@.take(i as int)).push(v@[i as int]@));
        }
        i = i + 1;
    }
    proof { assert(v@.take(v@.len() as int) =~= v@); }
    res
}

/// Whether `v` holds a string equal to `s`.
pub fn contains_string(v: &Vec<String>, s: &str) -> (res: bool)
    ensures
        res == views(v@).contains(s@),
{
    let mut i: usize = 0;
    while i < v.len()
        invariant
            i <= v.len(),
            forall|j: int| 0 <= j < i ==> v@[j]@ != s@,
        decreases v.len() - i,
    {
        if str_eq(v[i].as_str(), s) {
            proof { assert(views(v@)[i as int] == s@); }
            return true;
        }
        i = i + 1;
    }
    proof {
        if views(v@).contains(s@) {
            let j = choose|j: int| 0 <= j < views(v@).len() && views(v@)[j] == s@;
            assert(v@[j]@ == s@);
        }
    }
    false
}

/// Equality of two string slices, compared as owned strings.
pub(crate) fn str_eq(a: &str, b: &str) -> (res: bool)
    ensures
        res == (a@ == b@),
{
    let x = a.to_owned();
    let y = b.to_owned();
    x.eq(&y)
}

/// A copy of a string slice as an owned string (std `str::to_string`).
pub fn to_owned_string(s: &str) -> (res: String)
    ensures
        res@ == s@,
{
    s.to_owned()
}

} // verus!

verus! {

/// The number of bytes of the UTF-8 encoding of a character.
pub open spec fn char_width(c: char) -> nat {
    if (c as u32) < 0x80 {
        1
    } else if (c as u32) < 0x800 {
        2
    } else if (c as u32) < 0x10000 {
        3
    } else {
        4
    }
}

/// The number of bytes of the UTF-8 encoding of a character.
pub fn utf8_width(c: char) -> (res: usize)
    ensures
        res == char_width(c),
        res == vstd::utf8::encode_scalar(c as u32).len(),
{
    proof { vstd::utf8::char_is_scalar(c); }
    let v = c as u32;
    if v < 0x80 {
        1
    } else if v < 0x800 {
        2
    } else if v < 0x10000 {
        3
    } else {
        4
    }
}

/// The UTF-8 encoding of a concatenation is the concatenation of the encodings.
pub proof fn lemma_encode_utf8_concat(a: Seq<char>, b: Seq<char>)
    ensures
        vstd::utf8::encode_utf8(a + b) == vstd::utf8::encode_utf8(a) + vstd::utf8::encode_utf8(b),
    decreases a.len(),
{
    if a.len() == 0 {
        assert(a + b =~= b);
        assert(vstd::utf8::encode_utf8(a) =~= Seq::<u8>::empty());
        assert(Seq::<u8>::empty() + vstd::utf8::encode_utf8(b) =~= vstd::utf8::encode_utf8(b));
    } else {
        lemma_encode_utf8_concat(a.drop_first(), b);
        assert((a + b).drop_first() =~= a.drop_first() + b);
        assert((a + b)[0] == a[0]);
        let e0 = vstd::utf8::encode_scalar(a[0] as u32);
        assert(e0 + (vstd::utf8::encode_utf8(a.drop_first()) + vstd::utf8::encode_utf8(b))
            =~= (e0 + vstd::utf8::encode_utf8(a.drop_first())) + vstd::utf8::encode_utf8(b));
    }
}

/// The UTF-8 encoding of a string followed by one more character.
pub proof fn lemma_encode_utf8_push(a: Seq<char>, c: char)
    ensures
        vstd::utf8::encode_utf8(a.push(c)) == vstd::utf8::encode_utf8(a) + vstd::utf8::encode_scalar(c as u32),
{
    lemma_encode_utf8_concat(a, seq![c]);
    assert(a + seq![c] =~= a.push(c));
    assert(seq![c].drop_first() =~= Seq::<char>::empty());
    assert(seq![c][0] == c);
    assert(vstd::utf8::encode_utf8(Seq::<char>::empty()) =~= Seq::<u8>::empty());
    assert(vstd::utf8::encode_utf8(seq![c]) == vstd::utf8::encode_scalar(seq![c][0] as u32) + vstd::utf8::encode_utf8(seq![c].drop_first()));
    assert(vstd::utf8::encode_utf8(seq![c]) =~= vstd::utf8::encode_scalar(c as u32));
}

} // verus!

verus! {

/// The characters of a string slice.
pub fn chars_of(s: &str) -> (res: Vec<char>)
    ensures
        res@ == s@,
{
    let mut res: Vec<char> = Vec::new();
    for c in iter: s.chars()
        invariant
            iter.seq() == s@,
            res@ == s@.take(iter.index() as int),
    {
        proof { assert(s@.take(iter.index() + 1) =~= s@.take(iter.index() as int).push(c)); }
        res.push(c);
    }
    proof { assert(s@.take(s@.len() as int) =~= s@); }
    res
}

/// The string made of the characters `cs[from..to]`.
pub fn string_of(cs: &Vec<char>, from: usize, to: usize) -> (res: String)
    requires
        from <= to <= cs@.len(),
    ensures
        res@ == cs@.subrange(from as int, to as int),
{
    let mut res = String::new();
    let mut i: usize = from;
    while i < to
        invariant
            from <= i <= to <= cs@.len(),
            res@ == cs@.subrange(from as int, i as int),
        decreases to - i,
    {
        push_char(&mut res, cs[i]);
        proof { assert(cs@.subrange(from as int, i + 1) =~= cs@.subrange(from as int, i as int).push(cs@[i as int])); }
        i = i + 1;
    }
    res
}

/// Whether `sep` occurs in `s` at position `i`.
pub open spec fn occurs_at(s: Seq<char>, sep: Seq<char>, i: int) -> bool {
    0 <= i && i + sep.len() <= s.len() && s.subrange(i, i + sep.len()) == sep
}

/// The first position at or after `from` where `sep` occurs in `s`.
pub open spec fn find_from(s: Seq<char>, sep: Seq<char>, from: int) -> Option<int>
    decreases s.len() - from,
{
    if from < 0 || from >= s.len() || from + sep.len() > s.len() {
        None
    } else if occurs_at(s, sep, from) {
        Some(from)
    } else {
        find_from(s, sep, from + 1)
    }
}

/// A found position is an occurrence, at or after the start of the search.
pub proof fn lemma_find_from(s: Seq<char>, sep: Seq<char>, from: int)
    ensures
        find_from(s, sep, from) matches Some(i) ==> from <= i && occurs_at(s, sep, i),
    decreases s.len() - from,
{
    if !(from < 0 || from >= s.len() || from + sep.len() > s.len()) && !occurs_at(s, sep, from) {
        lemma_find_from(s, sep, from + 1);
    }
}

/// The pieces of `s[from..]` between the occurrences of the (non-empty)
/// separator, from left to right, as `str::split` cuts them.
pub open spec fn split_from(s: Seq<char>, sep: Seq<char>, from: int) -> Seq<Seq<char>>
    decreases s.len() - from,
{
    if sep.len() == 0 || from < 0 || from > s.len() {
        Seq::empty()
    } else {
        match find_from(s, sep, from) {
            None => seq![s.subrange(from, s.len() as int)],
            Some(i) => {
                proof { lemma_find_from(s, sep, from); }
                seq![s.subrange(from, i)] + split_from(s, sep, i + sep.len())
            },
        }
    }
}

/// The pieces of `s` between the occurrences of the (non-empty) separator.
pub open spec fn split_on(s: Seq<char>, sep: Seq<char>) -> Seq<Seq<char>> {
    split_from(s, sep, 0)
}

/// The first occurrence of `sep` in `s` at or after `from`.
pub fn find_from_index(s: &Vec<char>, sep: &Vec<char>, from: usize) -> (res: Option<usize>)
    requires
        sep@.len() > 0,
        from <= s@.len(),
    ensures
        match res {
            Some(i) => find_from(s@, sep@, from as int) == Some(i as int),
            None => find_from(s@, sep@, from as int) is None,
        },
{
    let n = s.len();
    let m = sep.len();
    let mut i: usize = from;
    while i < n && m <= n - i
        invariant
            from <= i <= n,
            n == s@.len(),
            m == sep@.len(),
            m > 0,
            find_from(s@, sep@, from as int) == find_from(s@, sep@, i as int),
        decreases n - i,
    {
        let mut j: usize = 0;
        let mut same = true;
        while j < m
            invariant
                j <= m,
                i + m <= n,
                n == s@.len(),
                m == sep@.len(),
                same == (forall|k: int| 0 <= k < j ==> s@[i + k] == sep@[k]),
            decreases m - j,
        {
            if s[i + j] != sep[j] {
                same = false;
            }
            j = j + 1;
        }
        if same {
            proof { assert(s@.subrange(i as int, i + m) =~= sep@); }
            return Some(i);
        }
        proof {
            let k = choose|k: int| 0 <= k < m && s@[i + k] != sep@[k];
            assert(s@.subrange(i as int, i + m)[k] != sep@[k]);
            assert(!occurs_at(s@, sep@, i as int));
        }
        i = i + 1;
    }
    None
}

/// The pieces of `s` between the occurrences of `sep` (std `str::split`
/// with a string pattern).
pub fn split_str(s: &str, sep: &str) -> (res: Vec<String>)
    requires
        sep@.len() > 0,
    ensures
        views(res@) == split_on(s@, sep@),
{
    let cs = chars_of(s);
    let sp = chars_of(sep);
    let mut res: Vec<String> = Vec::new();
    let mut start: usize = 0;
    let total = cs.len();
    loop
        invariant
            total == cs@.len(),
            cs@ == s@,
            sp@ == sep@,
            sp@.len() > 0,
            start <= cs@.len(),
            views(res@) + split_from(cs@, sp@, start as int) == split_from(cs@, sp@, 0),
        decreases cs@.len() - start,
    {
        match find_from_index(&cs, &sp, start) {
            None => {
                let piece = string_of(&cs, start, cs.len());
                let ghost before = views(res@);
                res.push(piece);
                proof {
                    assert(views(res@) =~= before.push(piece@));
                    assert(split_from(cs@, sp@, start as int) =~= seq![cs@.subrange(start as int, cs@.len() as int)]);
                    assert(before + seq![piece@] =~= before.push(piece@));
                }
                return res;
            },
            Some(i) => {
                proof {
                    lemma_find_from(cs@, sp@, start as int);
                    assert(occurs_at(cs@, sp@, i as int));
                    assert(i + sp@.len() <= cs@.len());
                }
                let piece = string_of(&cs, start, i);
                let ghost before = views(res@);
                res.push(piece);
                proof {
                    assert(views(res@) =~= before.push(piece@));
                    let rest = split_from(cs@, sp@, i + sp@.len());
                    assert(split_from(cs@, sp@, start as int) == seq![piece@] + rest);
                    assert(before + (seq![piece@] + rest) =~= before.push(piece@) + rest);
                }
                start = i + sp.len();
            },
        }
    }
}

/// Whether `s` begins with `p`.
pub open spec fn has_prefix(s: Seq<char>, p: Seq<char>) -> bool {
    p.len() <= s.len() && s.take(p.len() as int) == p
}

/// The rest of `s` after the prefix `p`, if `s` begins with it (std
/// `str::strip_prefix`).
pub fn strip_prefix(s: &str, p: &str) -> (res: Option<String>)
    ensures
        has_prefix(s@, p@) ==> (res matches Some(r) && r@ == s@.skip(p@.len() as int)),
        !has_prefix(s@, p@) ==> res is None,
{
    let cs = chars_of(s);
    let ps = chars_of(p);
    if ps.len() > cs.len() {
        return None;
    }
    let mut j: usize = 0;
    while j < ps.len()
        invariant
            j <= ps@.len() <= cs@.len(),
            cs@ == s@,
            ps@ == p@,
            forall|k: int| 0 <= k < j ==> cs@[k] == ps@[k],
        decreases ps@.len() - j,
    {
        if cs[j] != ps[j] {
            proof {
                assert(cs@.take(ps@.len() as int)[j as int] != ps@[j as int]);
                assert(cs@.take(ps@.len() as int) != ps@);
            }
            return None;
        }
        j = j + 1;
    }
    proof {
        assert(cs@.take(ps@.len() as int) =~= ps@);
        assert(cs@.subrange(ps@.len() as int, cs@.len() as int) =~= cs@.skip(ps@.len() as int));
    }
    Some(string_of(&cs, ps.len(), cs.len()))
}

/// Whether a character is white space (the Unicode `White_Space` property).
pub open spec fn is_white_space(c: char) -> bool {
    let v = c as u32;
    ||| 0x9 <= v <= 0xd
    ||| v == 0x20
    ||| v == 0x85
    ||| v == 0xa0
    ||| v == 0x1680
    ||| 0x2000 <= v <= 0x200a
    ||| v == 0x2028
    ||| v == 0x2029
    ||| v == 0x202f
    ||| v == 0x205f
    ||| v == 0x3000
}

/// Whether a character is white space (std `char::is_whitespace`).
pub fn white_space(c: char) -> (res: bool)
    ensures
        res == is_white_space(c),
{
    let v = c as u32;
    (0x9 <= v && v <= 0xd) || v == 0x20 || v == 0x85 || v == 0xa0 || v == 0x1680
        || (0x2000 <= v && v <= 0x200a) || v == 0x2028 || v == 0x2029 || v == 0x202f
        || v == 0x205f || v == 0x3000
}

/// `s` without its leading white space.
pub open spec fn trim_start(s: Seq<char>) -> Seq<char>
    decreases s.len(),
{
    if s.len() > 0 && is_white_space(s[0]) {
        trim_start(s.drop_first())
    } else {
        s
    }
}

/// `s` without its trailing white space.
pub open spec fn trim_end(s: Seq<char>) -> Seq<char>
    decreases s.len(),
{
    if s.len() > 0 && is_white_space(s.last()) {
        trim_end(s.drop_last())
    } else {
        s
    }
}

/// `s` without leading and trailing white space.
pub open spec fn trimmed(s: Seq<char>) -> Seq<char> {
    trim_end(trim_start(s))
}

/// A string without leading and trailing white space (std `str::trim`).
pub fn trim(s: &str) -> (res: String)
    ensures
        res@ == trimmed(s@),
{
    let cs = chars_of(s);
    let n = cs.len();
    let mut i: usize = 0;
    proof { assert(cs@.skip(0) =~= cs@); }
    while i < n && white_space(cs[i])
        invariant
            i <= n == cs@.len(),
            trim_start(cs@) == trim_start(cs@.skip(i as int)),
        decreases n - i,
    {
        proof { assert(cs@.skip(i as int).drop_first() =~= cs@.skip(i + 1)); }
        i = i + 1;
    }
    proof {
        assert(trim_start(cs@.skip(i as int)) == cs@.skip(i as int));
        assert(cs@.skip(i as int) =~= cs@.subrange(i as int, n as int));
    }
    let mut j: usize = n;
    while j > i && white_space(cs[j - 1])
        invariant
            i <= j <= n == cs@.len(),
            trim_end(cs@.subrange(i as int, n as int)) == trim_end(cs@.subrange(i as int, j as int)),
        decreases j - i,
    {
        proof { assert(cs@.subrange(i as int, j as int).drop_last() =~= cs@.subrange(i as int, j - 1)); }
        j = j - 1;
    }
    proof {
        assert(trim_end(cs@.subrange(i as int, j as int)) == cs@.subrange(i as int, j as int));
        assert(cs@ == s@);
    }
    string_of(&cs, i, j)
}

} // verus!

verus! {

/// Joining a first part onto the join of the rest.
pub proof fn lemma_join_cons(a: Seq<char>, rest: Seq<Seq<char>>, sep: Seq<char>)
    requires
        rest.len() > 0,
    ensures
        seq_join(seq![a] + rest, sep) == a + sep + seq_join(rest, sep),
    decreases rest.len(),
{
    let all = seq![a] + rest;
    if rest.len() == 1 {
        assert(all.drop_last() =~= seq![a]);
        assert(all.last() == rest[0]);
        assert(seq_join(rest, sep) == rest[0]);
        assert(seq_join(seq![a], sep) == a);
        assert(seq_join(all, sep) == seq_join(all.drop_last(), sep) + sep + all.last());
    } else {
        lemma_join_cons(a, rest.drop_last(), sep);
        assert(all.drop_last() =~= seq![a] + rest.drop_last());
        assert(all.last() == rest.last());
        assert(seq_join(all, sep) == seq_join(all.drop_last(), sep) + sep + all.last());
        assert(seq_join(rest, sep) == seq_join(rest.drop_last(), sep) + sep + rest.last());
        assert(a + sep + seq_join(rest, sep) =~= (a + sep + seq_join(rest.drop_last(), sep)) + sep + rest.last());
    }
}

/// The pieces of a split hold the whole text again when joined with the
/// separator.
pub proof fn lemma_split_from_join(s: Seq<char>, sep: Seq<char>, from: int)
    requires
        sep.len() > 0,
        0 <= from <= s.len(),
    ensures
        split_from(s, sep, from).len() > 0,
        seq_join(split_from(s, sep, from), sep) == s.subrange(from, s.len() as int),
    decreases s.len() - from,
{
    lemma_find_from(s, sep, from);
    match find_from(s, sep, from) {
        None => {},
        Some(i) => {
            let m = sep.len() as int;
            lemma_split_from_join(s, sep, i + m);
            let rest = split_from(s, sep, i + m);
            lemma_join_cons(s.subrange(from, i), rest, sep);
            assert(s.subrange(i, i + m) == sep);
            assert(s.subrange(from, i) + sep + s.subrange(i + m, s.len() as int) =~= s.subrange(from, s.len() as int));
        },
    }
}

/// Splitting a text at a (non-empty) separator and joining the pieces with
/// it gives the text back.
pub proof fn lemma_split_join(s: Seq<char>, sep: Seq<char>)
    requires
        sep.len() > 0,
    ensures
        seq_join(split_on(s, sep), sep) == s,
{
    lemma_split_from_join(s, sep, 0);
    assert(s.subrange(0, s.len() as int) =~= s);
}

} // verus!

verus! {

/// Whether no occurrence of the separator starts inside `p` when `p` is
/// followed by the separator: cutting `p + sep` at its first occurrence
/// gives `p` back.
pub open spec fn clean_piece(p: Seq<char>, sep: Seq<char>) -> bool {
    forall|i: int| 0 <= i < p.len() ==> !#[trigger] occurs_at(p + sep, sep, i)
}

/// Searching in a text that follows a prefix is searching in the text.
pub proof fn lemma_find_from_shift(x: Seq<char>, y: Seq<char>, sep: Seq<char>, j: int)
    requires
        0 <= j,
    ensures
        find_from(x + y, sep, x.len() + j) == match find_from(y, sep, j) {
            Some(i) => Some(x.len() + i),
            None => None::<int>,
        },
    decreases y.len() - j,
{
    let s = x + y;
    let a = x.len() + j;
    if j >= y.len() || j + sep.len() > y.len() {
    } else {
        assert(s.subrange(a, a + sep.len()) =~= y.subrange(j, j + sep.len()));
        if !occurs_at(y, sep, j) {
            lemma_find_from_shift(x, y, sep, j + 1);
        }
    }
}

/// Splitting a text that follows a prefix, from past the prefix, is
/// splitting the text.
pub proof fn lemma_split_from_shift(x: Seq<char>, y: Seq<char>, sep: Seq<char>, j: int)
    requires
        sep.len() > 0,
        0 <= j <= y.len(),
    ensures
        split_from(x + y, sep, x.len() + j) == split_from(y, sep, j),
    decreases y.len() - j,
{
    let s = x + y;
    lemma_find_from_shift(x, y, sep, j);
    lemma_find_from(y, sep, j);
    match find_from(y, sep, j) {
        None => {
            assert(s.subrange(x.len() + j, s.len() as int) =~= y.subrange(j, y.len() as int));
        },
        Some(i) => {
            assert(s.subrange(x.len() + j, x.len() + i) =~= y.subrange(j, i));
            lemma_split_from_shift(x, y, sep, i + sep.len());
        },
    }
}

/// The first occurrence of the separator in `p + sep + rest`, for a clean
/// piece `p`, is the one right after `p`.
pub proof fn lemma_find_after_clean(p: Seq<char>, sep: Seq<char>, rest: Seq<char>, from: int)
    requires
        sep.len() > 0,
        clean_piece(p, sep),
        0 <= from <= p.len(),
    ensures
        find_from(p + sep + rest, sep, from) == Some(p.len() as int),
    decreases p.len() - from,
{
    let s = p + sep + rest;
    if from == p.len() {
        assert(s.subrange(from, from + sep.len()) =~= sep);
    } else {
        assert(s.subrange(from, from + sep.len()) =~= (p + sep).subrange(from, from + sep.len()));
        assert(!occurs_at(p + sep, sep, from));
        lemma_find_after_clean(p, sep, rest, from + 1);
    }
}

/// Whether every piece is clean.
pub open spec fn all_clean(ps: Seq<Seq<char>>, sep: Seq<char>) -> bool {
    forall|k: int| 0 <= k < ps.len() ==> clean_piece(#[trigger] ps[k], sep)
}

/// Pieces in which no occurrence of the separator starts are what splitting
/// their join at the separator gives back.
pub proof fn lemma_join_split(ps: Seq<Seq<char>>, sep: Seq<char>)
    requires
        sep.len() > 0,
        ps.len() > 0,
        all_clean(ps, sep),
    ensures
        split_on(seq_join(ps, sep), sep) == ps,
    decreases ps.len(),
{
    let p = ps[0];
    assert(clean_piece(ps[0], sep));
    if ps.len() == 1 {
        assert(seq_join(ps, sep) == p);
        assert forall|i: int| 0 <= i < p.len() implies !occurs_at(p, sep, i) by {
            assert(!occurs_at(p + sep, sep, i));
            if occurs_at(p, sep, i) {
                assert((p + sep).subrange(i, i + sep.len()) =~= p.subrange(i, i + sep.len()));
            }
        }
        lemma_no_occurrence_find(p, sep, 0);
        assert(p.subrange(0, p.len() as int) =~= p);
    } else {
        let rest = ps.drop_first();
        assert(ps =~= seq![p] + rest);
        lemma_join_cons(p, rest, sep);
        let r = seq_join(rest, sep);
        let s = seq_join(ps, sep);
        assert(s == p + sep + r);
        assert forall|k: int| 0 <= k < rest.len() implies clean_piece(#[trigger] rest[k], sep) by {
            assert(rest[k] == ps[k + 1]);
        }
        lemma_join_split(rest, sep);
        lemma_find_after_clean(p, sep, r, 0);
        assert(s.subrange(0, p.len() as int) =~= p);
        assert(s == (p + sep) + r);
        lemma_split_from_shift(p + sep, r, sep, 0);
        assert(split_from(s, sep, 0) == seq![p] + split_from(s, sep, (p.len() + sep.len()) as int));
    }
}

/// A text in which no occurrence starts has no first occurrence.
proof fn lemma_no_occurrence_find(p: Seq<char>, sep: Seq<char>, from: int)
    requires
        0 <= from,
        forall|i: int| 0 <= i < p.len() ==> !#[trigger] occurs_at(p, sep, i),
    ensures
        find_from(p, sep, from) is None,
    decreases p.len() - from,
{
    if !(from >= p.len() || from + sep.len() > p.len()) {
        assert(!occurs_at(p, sep, from));
        lemma_no_occurrence_find(p, sep, from + 1);
    }
}

} // verus!

verus! {

/// Whether every character of a text is white space.
pub open spec fn all_white(w: Seq<char>) -> bool {
    forall|i: int| 0 <= i < w.len() ==> is_white_space(#[trigger] w[i])
}

/// Leading white space does not change what trimming the start leaves.
pub proof fn lemma_trim_start_white_prefix(w: Seq<char>, x: Seq<char>)
    requires
        all_white(w),
    ensures
        trim_start(w + x) == trim_start(x),
    decreases w.len(),
{
    if w.len() > 0 {
        assert((w + x)[0] == w[0]);
        assert((w + x).drop_first() =~= w.drop_first() + x);
        lemma_trim_start_white_prefix(w.drop_first(), x);
    } else {
        assert(w + x =~= x);
    }
}

/// Trailing white space does not change what trimming the end leaves.
pub proof fn lemma_trim_end_white_suffix(x: Seq<char>, w: Seq<char>)
    requires
        all_white(w),
    ensures
        trim_end(x + w) == trim_end(x),
    decreases w.len(),
{
    if w.len() > 0 {
        assert((x + w).last() == w.last());
        assert((x + w).drop_last() =~= x + w.drop_last());
        lemma_trim_end_white_suffix(x, w.drop_last());
    } else {
        assert(x + w =~= x);
    }
}

/// Trimming the start of a text followed by more: the start of the text is
/// trimmed and the rest kept, unless the text is all white space.
pub proof fn lemma_trim_start_append(t: Seq<char>, w: Seq<char>)
    ensures
        trim_start(t + w) == if trim_start(t).len() > 0 { trim_start(t) + w } else { trim_start(w) },
    decreases t.len(),
{
    if t.len() == 0 {
        assert(t + w =~= w);
    } else {
        assert((t + w)[0] == t[0]);
        if is_white_space(t[0]) {
            assert((t + w).drop_first() =~= t.drop_first() + w);
            lemma_trim_start_append(t.drop_first(), w);
        }
    }
}

/// White space around a text does not change what trimming leaves.
pub proof fn lemma_trimmed_surrounded(w1: Seq<char>, t: Seq<char>, w2: Seq<char>)
    requires
        all_white(w1),
        all_white(w2),
    ensures
        trimmed(w1 + t + w2) == trimmed(t),
{
    assert(w1 + t + w2 =~= w1 + (t + w2));
    lemma_trim_start_white_prefix(w1, t + w2);
    lemma_trim_start_append(t, w2);
    if trim_start(t).len() > 0 {
        lemma_trim_end_white_suffix(trim_start(t), w2);
    } else {
        lemma_trim_start_white_prefix(w2, Seq::empty());
        assert(w2 + Seq::<char>::empty() =~= w2);
        assert(trim_end(Seq::<char>::empty()) == Seq::<char>::empty());
        assert(trim_start(t) =~= Seq::<char>::empty());
    }
}

/// Joining two non-empty lists of parts: the joins of each, with the
/// separator between.
pub proof fn lemma_join_append(a: Seq<Seq<char>>, b: Seq<Seq<char>>, sep: Seq<char>)
    requires
        a.len() > 0,
        b.len() > 0,
    ensures
        seq_join(a + b, sep) == seq_join(a, sep) + sep + seq_join(b, sep),
    decreases b.len(),
{
    let ab = a + b;
    if b.len() == 1 {
        assert(ab.drop_last() =~= a);
        assert(ab.last() == b[0]);
        assert(seq_join(b, sep) == b[0]);
    } else {
        lemma_join_append(a, b.drop_last(), sep);
        assert(ab.drop_last() =~= a + b.drop_last());
        assert(ab.last() == b.last());
        assert(seq_join(b, sep) == seq_join(b.drop_last(), sep) + sep + b.last());
        assert(seq_join(a, sep) + sep + seq_join(b, sep)
            =~= (seq_join(a, sep) + sep + seq_join(b.drop_last(), sep)) + sep + b.last());
    }
}

} // verus!
