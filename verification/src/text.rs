//! Text helpers: splitting on a separator character and prefix tests.

use vstd::prelude::*;

verus! {

/// `String::push` appends one character.
pub assume_specification[ String::push ](s: &mut String, ch: char)
    ensures
        final(s)@ == old(s)@.push(ch),
;

/// An owned copy of `s`.
pub fn string_of(s: &str) -> (r: String)
    ensures
        r@ == s@,
{
    s.to_owned()
}

/// The pieces of `s` between occurrences of `sep`, in order, as `str::split`
/// with a character pattern yields them: there is always one more piece than
/// there are separators.
pub open spec fn split_on(s: Seq<char>, sep: char) -> Seq<Seq<char>>
    decreases s.len(),
{
    if s.len() == 0 {
        seq![Seq::<char>::empty()]
    } else {
        let pieces = split_on(s.drop_last(), sep);
        if s.last() == sep {
            pieces.push(Seq::<char>::empty())
        } else {
            pieces.update(pieces.len() - 1, pieces.last().push(s.last()))
        }
    }
}

/// The pieces joined, with `sep` between each two neighbours.
pub open spec fn join_with(pieces: Seq<Seq<char>>, sep: char) -> Seq<char>
    decreases pieces.len(),
{
    if pieces.len() == 0 {
        Seq::<char>::empty()
    } else if pieces.len() == 1 {
        pieces[0]
    } else {
        join_with(pieces.drop_last(), sep).push(sep) + pieces.last()
    }
}

/// Splitting always yields at least one piece, and no piece holds the separator.
pub proof fn lemma_split_pieces(s: Seq<char>, sep: char)
    ensures
        split_on(s, sep).len() >= 1,
        forall|i: int| 0 <= i < split_on(s, sep).len() ==> !(#[trigger] split_on(s, sep)[i]).contains(sep),
    decreases s.len(),
{
    if s.len() > 0 {
        lemma_split_pieces(s.drop_last(), sep);
        let p = split_on(s.drop_last(), sep);
        if s.last() != sep {
            let last = p.last().push(s.last());
            assert forall|k: int| 0 <= k < last.len() implies last[k] != sep by {
                if k < p.last().len() {
                    assert(last[k] == p.last()[k]);
                }
            }
        }
    }
}

/// Joining the pieces of a split with the same separator gives back the text.
pub proof fn lemma_join_split(s: Seq<char>, sep: char)
    ensures
        join_with(split_on(s, sep), sep) == s,
    decreases s.len(),
{
    if s.len() > 0 {
        let t = s.drop_last();
        let c = s.last();
        lemma_join_split(t, sep);
        lemma_split_pieces(t, sep);
        let p = split_on(t, sep);
        if c == sep {
            let q = p.push(Seq::<char>::empty());
            assert(q.drop_last() =~= p);
            assert(join_with(q, sep) =~= t.push(sep));
        } else {
            let q = p.update(p.len() - 1, p.last().push(c));
            if p.len() == 1 {
                assert(join_with(q, sep) =~= t.push(c));
            } else {
                assert(q.drop_last() =~= p.drop_last());
                assert(join_with(q, sep) =~= (join_with(p.drop_last(), sep).push(sep) + p.last()).push(c));
            }
        }
        assert(t.push(c) =~= s);
    }
}

/// Splits `text` on every occurrence of `sep`, as `str::split` does.
pub fn split_on_char(text: &str, sep: char) -> (pieces: Vec<String>)
    ensures
        pieces.deep_view() == split_on(text@, sep),
{
    let mut pieces: Vec<String> = Vec::new();
    let mut current = String::new();
    let ghost mut seen: Seq<char> = Seq::empty();
    broadcast use vstd::string::group_string_axioms;
    for c in it: text.chars()
        invariant
            it.seq() == text@,
            seen == it.seq().take(it.index() as int),
            split_on(seen, sep) == pieces.deep_view().push(current@),
    {
        proof {
            assert(seen.push(c).drop_last() =~= seen);
        }
        if c == sep {
            let done = current;
            pieces.push(done);
            current = String::new();
        } else {
            current.push(c);
        }
        proof {
            seen = seen.push(c);
        }
    }
    proof {
        assert(seen =~= text@);
    }
    pieces.push(current);
    pieces
}

/// `prefix` begins `s`.
pub open spec fn has_prefix(s: Seq<char>, prefix: Seq<char>) -> bool {
    prefix.len() <= s.len() && s.subrange(0, prefix.len() as int) == prefix
}

/// The characters of `text`, in order.
pub fn chars_of(text: &str) -> (v: Vec<char>)
    ensures
        v@ == text@,
{
    broadcast use vstd::string::group_string_axioms;
    let mut v: Vec<char> = Vec::new();
    for c in it: text.chars()
        invariant
            it.seq() == text@,
            v@ == it.seq().take(it.index() as int),
    {
        proof {
            assert(it.seq().take(it.index() + 1) =~= v@.push(c));
        }
        v.push(c);
    }
    proof {
        assert(v@ =~= text@);
    }
    v
}

/// Whether `text` begins with `prefix`, as `str::starts_with` with a string pattern.
pub fn starts_with(text: &str, prefix: &str) -> (r: bool)
    ensures
        r == has_prefix(text@, prefix@),
{
    let t = chars_of(text);
    let p = chars_of(prefix);
    if p.len() > t.len() {
        return false;
    }
    let mut i: usize = 0;
    while i < p.len()
        invariant
            t@ == text@,
            p@ == prefix@,
            p.len() <= t.len(),
            i <= p.len(),
            t@.subrange(0, i as int) == p@.subrange(0, i as int),
        decreases p.len() - i,
    {
        if t[i] != p[i] {
            proof {
                assert(t@.subrange(0, p.len() as int)[i as int] != p@[i as int]);
            }
            return false;
        }
        proof {
            assert(t@.subrange(0, i + 1) =~= p@.subrange(0, i + 1));
        }
        i = i + 1;
    }
    proof {
        assert(p@.subrange(0, p.len() as int) =~= p@);
    }
    true
}

/// The characters with the Unicode `White_Space` property, which `char::is_whitespace`
/// tests for.
pub open spec fn is_white_space(c: char) -> bool {
    let u = c as u32;
    ||| 0x9 <= u <= 0xd
    ||| u == 0x20
    ||| u == 0x85
    ||| u == 0xa0
    ||| u == 0x1680
    ||| 0x2000 <= u <= 0x200a
    ||| u == 0x2028
    ||| u == 0x2029
    ||| u == 0x202f
    ||| u == 0x205f
    ||| u == 0x3000
}

/// `s` without its leading white space.
pub open spec fn trim_start(s: Seq<char>) -> Seq<char>
    decreases s.len(),
{
    if s.len() > 0 && is_white_space(s[0]) {
        trim_start(s.drop_first())
    } else {
        s
    }
}

/// `s` without its trailing white space.
pub open spec fn trim_end(s: Seq<char>) -> Seq<char>
    decreases s.len(),
{
    if s.len() > 0 && is_white_space(s.last()) {
        trim_end(s.drop_last())
    } else {
        s
    }
}

/// `s` without leading and trailing white space, as `str::trim` gives it.
pub open spec fn trimmed(s: Seq<char>) -> Seq<char> {
    trim_end(trim_start(s))
}

/// Trimming the front drops exactly the leading run of white space.
pub proof fn lemma_trim_start_drops_leading(s: Seq<char>)
    ensures
        exists|i: int| {
            &&& 0 <= i <= s.len()
            &&& trim_start(s) == s.skip(i)
            &&& forall|k: int| 0 <= k < i ==> is_white_space(#[trigger] s[k])
            &&& i < s.len() ==> !is_white_space(s[i])
        },
    decreases s.len(),
{
    if s.len() > 0 && is_white_space(s[0]) {
        let t = s.drop_first();
        lemma_trim_start_drops_leading(t);
        let i = choose|i: int| {
            &&& 0 <= i <= t.len()
            &&& trim_start(t) == t.skip(i)
            &&& forall|k: int| 0 <= k < i ==> is_white_space(#[trigger] t[k])
            &&& i < t.len() ==> !is_white_space(t[i])
        };
        assert(t.skip(i) =~= s.skip(i + 1));
        assert forall|k: int| 0 <= k < i + 1 implies is_white_space(#[trigger] s[k]) by {
            if k > 0 {
                assert(s[k] == t[k - 1]);
            }
        }
        if i + 1 < s.len() {
            assert(s[i + 1] == t[i]);
        }
    } else {
        assert(s.skip(0) =~= s);
    }
}

/// Trimming the back drops exactly the trailing run of white space.
pub proof fn lemma_trim_end_drops_trailing(s: Seq<char>)
    ensures
        exists|j: int| {
            &&& 0 <= j <= s.len()
            &&& trim_end(s) == s.take(j)
            &&& forall|k: int| j <= k < s.len() ==> is_white_space(#[trigger] s[k])
            &&& j > 0 ==> !is_white_space(s[j - 1])
        },
    decreases s.len(),
{
    if s.len() > 0 && is_white_space(s.last()) {
        let t = s.drop_last();
        lemma_trim_end_drops_trailing(t);
        let j = choose|j: int| {
            &&& 0 <= j <= t.len()
            &&& trim_end(t) == t.take(j)
            &&& forall|k: int| j <= k < t.len() ==> is_white_space(#[trigger] t[k])
            &&& j > 0 ==> !is_white_space(t[j - 1])
        };
        assert(t.take(j) =~= s.take(j));
        assert forall|k: int| j <= k < s.len() implies is_white_space(#[trigger] s[k]) by {
            if k < t.len() {
                assert(s[k] == t[k]);
            }
        }
        if j > 0 {
            assert(s[j - 1] == t[j - 1]);
        }
    } else {
        assert(s.take(s.len() as int) =~= s);
    }
}

/// The trimmed text is the part of `s` between its leading and its trailing
/// white space: all that is dropped is white space, and what is kept, where
/// anything is, begins and ends with a character that is not.
pub proof fn lemma_trimmed_is_inner(s: Seq<char>)
    ensures
        exists|i: int, j: int| {
            &&& 0 <= i <= j <= s.len()
            &&& trimmed(s) == s.subrange(i, j)
            &&& forall|k: int| 0 <= k < i ==> is_white_space(#[trigger] s[k])
            &&& forall|k: int| j <= k < s.len() ==> is_white_space(#[trigger] s[k])
            &&& i < j ==> !is_white_space(s[i]) && !is_white_space(s[j - 1])
        },
{
    lemma_trim_start_drops_leading(s);
    let i = choose|i: int| {
        &&& 0 <= i <= s.len()
        &&& trim_start(s) == s.skip(i)
        &&& forall|k: int| 0 <= k < i ==> is_white_space(#[trigger] s[k])
        &&& i < s.len() ==> !is_white_space(s[i])
    };
    let u = s.skip(i);
    lemma_trim_end_drops_trailing(u);
    let j = choose|j: int| {
        &&& 0 <= j <= u.len()
        &&& trim_end(u) == u.take(j)
        &&& forall|k: int| j <= k < u.len() ==> is_white_space(#[trigger] u[k])
        &&& j > 0 ==> !is_white_space(u[j - 1])
    };
    assert(u.take(j) =~= s.subrange(i, i + j));
    assert forall|k: int| i + j <= k < s.len() implies is_white_space(#[trigger] s[k]) by {
        assert(s[k] == u[k - i]);
    }
    if j > 0 {
        assert(s[i + j - 1] == u[j - 1]);
    }
    assert(trimmed(s) == s.subrange(i, i + j));
}

fn is_white_space_char(c: char) -> (r: bool)
    ensures
        r == is_white_space(c),
{
    let u = c as u32;
    (0x9 <= u && u <= 0xd) || u == 0x20 || u == 0x85 || u == 0xa0 || u == 0x1680 || (0x2000 <= u
        && u <= 0x200a) || u == 0x2028 || u == 0x2029 || u == 0x202f || u == 0x205f || u == 0x3000
}

/// `text` without leading and trailing white space.
pub fn trim(text: &str) -> (r: String)
    ensures
        r@ == trimmed(text@),
{
    let v = chars_of(text);
    let ghost s = v@;
    let mut start: usize = 0;
    proof {
        assert(s.skip(0) =~= s);
    }
    while start < v.len() && is_white_space_char(v[start])
        invariant
            s == v@,
            start <= v.len(),
            trim_start(s) == trim_start(s.skip(start as int)),
        decreases v.len() - start,
    {
        proof {
            assert(s.skip(start as int).drop_first() =~= s.skip(start + 1));
        }
        start = start + 1;
    }
    let ghost u = s.skip(start as int);
    proof {
        assert(trim_start(s) == u);
    }
    let mut end: usize = v.len();
    proof {
        assert(u.take(end - start) =~= u);
    }
    while end > start && is_white_space_char(v[end - 1])
        invariant
            s == v@,
            u == s.skip(start as int),
            start <= end <= v.len(),
            trim_end(u) == trim_end(u.take(end - start)),
        decreases end - start,
    {
        proof {
            assert(u.take(end - start).drop_last() =~= u.take(end - start - 1));
        }
        end = end - 1;
    }
    proof {
        assert(trim_end(u.take(end - start)) == u.take(end - start));
    }
    let mut r = String::new();
    let mut k: usize = start;
    while k < end
        invariant
            s == v@,
            u == s.skip(start as int),
            start <= k <= end <= v.len(),
            r@ == u.take(k - start),
        decreases end - k,
    {
        proof {
            assert(u.take(k - start + 1) =~= r@.push(v@[k as int]));
        }
        r.push(v[k]);
        k = k + 1;
    }
    r
}

} // verus!
