//! Character-sequence utilities: splitting on a separator, joining back, reading UTF-8, and
//! writing numbers in decimal and hexadecimal.
use vstd::prelude::*;
use vstd::utf8::{decode_utf8, valid_utf8};

verus! {

/// The pieces of `s` between occurrences of `sep`, as `str::split` produces them:
/// there is always at least one piece, and two adjacent separators give an empty piece.
pub open spec fn split_on(s: Seq<char>, sep: char) -> Seq<Seq<char>>
    decreases s.len(),
{
    if s.len() == 0 {
        seq![Seq::<char>::empty()]
    } else {
        let init = split_on(s.drop_last(), sep);
        if s.last() == sep {
            init.push(Seq::<char>::empty())
        } else {
            init.update(init.len() - 1, init.last().push(s.last()))
        }
    }
}

/// The pieces joined with `sep` between consecutive pieces.
pub open spec fn join_with(parts: Seq<Seq<char>>, sep: char) -> Seq<char>
    decreases parts.len(),
{
    if parts.len() == 0 {
        Seq::<char>::empty()
    } else if parts.len() == 1 {
        parts[0]
    } else {
        join_with(parts.drop_last(), sep).push(sep) + parts.last()
    }
}

/// The character views of a sequence of strings.
pub open spec fn string_views(v: Seq<String>) -> Seq<Seq<char>> {
    v.map_values(|p: String| p@)
}

pub proof fn lemma_split_nonempty(s: Seq<char>, sep: char)
    ensures
        split_on(s, sep).len() >= 1,
    decreases s.len(),
{
    if s.len() > 0 {
        lemma_split_nonempty(s.drop_last(), sep);
    }
}

/// A sequence without the separator is a single piece.
pub proof fn lemma_split_without_sep(s: Seq<char>, sep: char)
    requires
        !s.contains(sep),
    ensures
        split_on(s, sep) == seq![s],
    decreases s.len(),
{
    if s.len() > 0 {
        assert(!s.drop_last().contains(sep)) by {
            if s.drop_last().contains(sep) {
                let k = choose|k: int| 0 <= k < s.drop_last().len() && s.drop_last()[k] == sep;
                assert(s[k] == sep);
            }
        }
        lemma_split_without_sep(s.drop_last(), sep);
        assert(s.last() != sep) by {
            assert(s[s.len() - 1] == s.last());
        }
        assert(s.drop_last().push(s.last()) =~= s);
        assert(split_on(s, sep) =~= seq![s]);
    } else {
        assert(s =~= Seq::<char>::empty());
    }
}

/// Splitting `a`, a separator, then `b` gives the pieces of `a` followed by those of `b`.
pub proof fn lemma_split_around_sep(a: Seq<char>, b: Seq<char>, sep: char)
    ensures
        split_on(a + seq![sep] + b, sep) == split_on(a, sep) + split_on(b, sep),
    decreases b.len(),
{
    let s = a + seq![sep] + b;
    lemma_split_nonempty(a, sep);
    if b.len() == 0 {
        assert(s.drop_last() =~= a);
        assert(s.last() == sep);
        assert(split_on(s, sep) =~= split_on(a, sep) + split_on(b, sep));
    } else {
        let b0 = b.drop_last();
        lemma_split_around_sep(a, b0, sep);
        lemma_split_nonempty(b0, sep);
        assert(s.drop_last() =~= a + seq![sep] + b0);
        assert(s.last() == b.last());
        let pa = split_on(a, sep);
        let pb0 = split_on(b0, sep);
        if b.last() == sep {
            assert(split_on(s, sep) =~= pa + pb0.push(Seq::<char>::empty()));
        } else {
            let upd = pb0.update(pb0.len() - 1, pb0.last().push(b.last()));
            assert((pa + pb0).last() == pb0.last());
            assert((pa + pb0).update((pa + pb0).len() - 1, pb0.last().push(b.last())) =~= pa + upd);
        }
        assert(split_on(s, sep) =~= split_on(a, sep) + split_on(b, sep));
    }
}

/// Pushing a character onto the last piece appends it to the joined sequence.
pub proof fn lemma_join_push_last(parts: Seq<Seq<char>>, x: char, sep: char)
    requires
        parts.len() >= 1,
    ensures
        join_with(parts.update(parts.len() - 1, parts.last().push(x)), sep) == join_with(parts, sep).push(x),
{
    let upd = parts.update(parts.len() - 1, parts.last().push(x));
    if parts.len() == 1 {
        assert(join_with(upd, sep) =~= join_with(parts, sep).push(x));
    } else {
        assert(upd.drop_last() =~= parts.drop_last());
        assert(join_with(upd, sep) =~= join_with(parts, sep).push(x));
    }
}

/// Joining the pieces of `s` with the separator gives `s` back.
pub proof fn lemma_join_split(s: Seq<char>, sep: char)
    ensures
        join_with(split_on(s, sep), sep) == s,
    decreases s.len(),
{
    if s.len() > 0 {
        let s0 = s.drop_last();
        lemma_join_split(s0, sep);
        lemma_split_nonempty(s0, sep);
        let p0 = split_on(s0, sep);
        if s.last() == sep {
            let p = p0.push(Seq::<char>::empty());
            assert(p.drop_last() =~= p0);
            assert(join_with(p, sep) =~= s0.push(sep));
        } else {
            lemma_join_push_last(p0, s.last(), sep);
        }
        assert(s0.push(s.last()) =~= s);
    }
}

/// Whether two strings hold the same characters.
pub fn str_eq(a: &str, b: &str) -> (r: bool)
    ensures
        r == (a@ == b@),
{
    let n = a.unicode_len();
    let m = b.unicode_len();
    if n != m {
        return false;
    }
    let mut i: usize = 0;
    while i < n
        invariant
            n == a@.len(),
            m == b@.len(),
            n == m,
            i <= n,
            forall|k: int| 0 <= k < i ==> a@[k] == b@[k],
        decreases n - i,
    {
        if a.get_char(i) != b.get_char(i) {
            return false;
        }
        i = i + 1;
    }
    assert(a@ =~= b@);
    true
}

/// Splits `s` at every occurrence of `sep`, as `str::split` does.
pub fn split_str(s: &str, sep: char) -> (parts: Vec<String>)
    ensures
        string_views(parts@) == split_on(s@, sep),
{
    let n = s.unicode_len();
    let mut parts: Vec<String> = Vec::new();
    let mut start: usize = 0;
    let mut i: usize = 0;
    assert(s@.subrange(0, 0) =~= Seq::<char>::empty());
    assert(string_views(parts@) + seq![s@.subrange(0, 0)] =~= split_on(s@.subrange(0, 0), sep));
    while i < n
        invariant
            n == s@.len(),
            start <= i <= n,
            string_views(parts@) + seq![s@.subrange(start as int, i as int)] == split_on(
                s@.subrange(0, i as int),
                sep,
            ),
        decreases n - i,
    {
        let ch = s.get_char(i);
        let ghost pre = s@.subrange(0, i + 1);
        assert(pre.drop_last() =~= s@.subrange(0, i as int));
        assert(pre.last() == ch);
        if ch == sep {
            let piece = s.substring_char(start, i);
            let owned = String::from_str(piece);
            let ghost old_views = string_views(parts@);
            parts.push(owned);
            assert(string_views(parts@) =~= old_views.push(s@.subrange(start as int, i as int)));
            start = i + 1;
            assert(s@.subrange(start as int, i + 1) =~= Seq::<char>::empty());
            assert(string_views(parts@) + seq![s@.subrange(start as int, i + 1)] =~= split_on(pre, sep));
        } else {
            let ghost init = string_views(parts@) + seq![s@.subrange(start as int, i as int)];
            assert(s@.subrange(start as int, i + 1) =~= s@.subrange(start as int, i as int).push(ch));
            assert(string_views(parts@) + seq![s@.subrange(start as int, i + 1)] =~= init.update(
                init.len() - 1,
                init.last().push(ch),
            ));
        }
        i = i + 1;
    }
    let last = s.substring_char(start, n);
    let owned = String::from_str(last);
    let ghost old_views = string_views(parts@);
    parts.push(owned);
    assert(string_views(parts@) =~= old_views.push(s@.subrange(start as int, n as int)));
    assert(s@.subrange(0, n as int) =~= s@);
    parts
}

/// The pieces joined with the text `sep` between consecutive pieces.
pub open spec fn join_strs(parts: Seq<Seq<char>>, sep: Seq<char>) -> Seq<char>
    decreases parts.len(),
{
    if parts.len() == 0 {
        Seq::<char>::empty()
    } else if parts.len() == 1 {
        parts[0]
    } else {
        join_strs(parts.drop_last(), sep) + sep + parts.last()
    }
}

/// Joins the strings with `sep` between consecutive ones, as `[String]::join` does.
pub fn join_strings(parts: &Vec<String>, sep: &str) -> (r: String)
    ensures
        r@ == join_strs(string_views(parts@), sep@),
{
    let ghost views = string_views(parts@);
    let mut r = String::new();
    let n = parts.len();
    let mut i: usize = 0;
    while i < n
        invariant
            n == parts@.len(),
            views == string_views(parts@),
            i <= n,
            r@ == join_strs(views.take(i as int), sep@),
        decreases n - i,
    {
        assert(views.take(i + 1).drop_last() =~= views.take(i as int));
        assert(views.take(i + 1).last() == parts@[i as int]@);
        if i > 0 {
            r.append(sep);
        } else {
            assert(views.take(1) =~= seq![parts@[0]@]);
            assert(r@ =~= Seq::<char>::empty());
        }
        r.append(parts[i].as_str());
        proof {
            if i == 0 {
                assert(r@ =~= join_strs(views.take(1), sep@));
            }
        }
        i = i + 1;
    }
    assert(views.take(n as int) =~= views);
    r
}

/// Calls `String::from_utf8` on a copy of the bytes. The documentation of `String::from_utf8`
/// says that it fails exactly when the bytes are not valid UTF-8 and otherwise holds the
/// text they encode; the contract claims that, over vstd's `valid_utf8` and `decode_utf8`.
#[verifier::external_body]
pub(crate) fn utf8_text(bytes: &[u8]) -> (r: Option<String>)
    ensures
        r is Some <==> valid_utf8(bytes@),
        r matches Some(s) ==> s@ == decode_utf8(bytes@),
{
    String::from_utf8(bytes.to_vec()).ok()
}

/// The lower-case hexadecimal digit of a value below 16.
pub open spec fn hex_digit(v: u8) -> char {
    "0123456789abcdef"@[v as int]
}

/// The decimal digit of a value below 10.
pub open spec fn decimal_digit(v: nat) -> char {
    "0123456789"@[v as int]
}

/// A natural number in decimal, most significant digit first, without leading zeros.
pub open spec fn decimal(n: nat) -> Seq<char>
    decreases n,
{
    if n < 10 {
        seq![decimal_digit(n)]
    } else {
        decimal(n / 10) + seq![decimal_digit(n % 10)]
    }
}

/// An integer in decimal, with a leading `-` when it is negative.
pub open spec fn signed_decimal(n: int) -> Seq<char> {
    if n < 0 {
        seq!['-'] + decimal((-n) as nat)
    } else {
        decimal(n as nat)
    }
}

/// Writes a number in decimal, as `Display` does.
pub fn u64_text(n: u64) -> (r: String)
    ensures
        r@ == decimal(n as nat),
    decreases n,
{
    let digits: &str = "0123456789";
    proof {
        reveal_strlit("0123456789");
    }
    let d = (n % 10) as usize;
    let last = digits.substring_char(d, d + 1);
    assert(last@ =~= seq![decimal_digit((n % 10) as nat)]);
    if n < 10 {
        String::from_str(last)
    } else {
        let mut r = u64_text(n / 10);
        r.append(last);
        r
    }
}

/// Writes an integer in decimal, as `Display` does.
pub fn i64_text(n: i64) -> (r: String)
    ensures
        r@ == signed_decimal(n as int),
{
    if n < 0 {
        let magnitude: u64 = (0i128 - n as i128) as u64;
        let mut r = String::from_str("-");
        proof {
            reveal_strlit("-");
        }
        r.append(u64_text(magnitude).as_str());
        r
    } else {
        u64_text(n as u64)
    }
}

} // verus!
