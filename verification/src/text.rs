//! Character-level string helpers shared by the other modules.

use vstd::prelude::*;

verus! {

broadcast use vstd::string::group_string_axioms;

/// The characters of a string slice, in order.
pub fn chars_of(s: &str) -> (v: Vec<char>)
    ensures
        v@ == s@,
{
    let mut v: Vec<char> = Vec::new();
    for c in it: s.chars()
        invariant
            it.seq() == s@,
            v@ == it.seq().take(it.index() as int),
    {
        v.push(c);
    }
    v
}

/// Appends one character to a `String` by calling `String::push`; trusted
/// (not proved): the contract claims, as std documents, that the string's
/// characters afterwards are the old ones followed by `c`.
#[verifier::external_body]
pub(crate) fn push_char(s: &mut String, c: char)
    ensures
        final(s)@ == old(s)@.push(c),
{
    s.push(c);
}

/// Whether `needle` occurs in `hay` starting at character position `at`.
pub open spec fn occurs_at(hay: Seq<char>, needle: Seq<char>, at: int) -> bool {
    0 <= at && at + needle.len() <= hay.len() && hay.subrange(at, at + needle.len()) == needle
}

/// Whether `needle` occurs anywhere in `hay`.
pub open spec fn contains_seq(hay: Seq<char>, needle: Seq<char>) -> bool {
    exists|at: int| occurs_at(hay, needle, at)
}

/// Whether `hay` begins with `prefix`.
pub open spec fn starts_with_seq(hay: Seq<char>, prefix: Seq<char>) -> bool {
    occurs_at(hay, prefix, 0)
}

/// Whether `needle` occurs in `hay` at character position `at`.
fn occurs_at_exec(hay: &Vec<char>, needle: &Vec<char>, at: usize) -> (r: bool)
    ensures
        r == occurs_at(hay@, needle@, at as int),
{
    if at > hay.len() || needle.len() > hay.len() - at {
        return false;
    }
    let mut k: usize = 0;
    while k < needle.len()
        invariant
            at + needle.len() <= hay.len(),
            k <= needle.len(),
            forall|j: int| 0 <= j < k ==> hay@[at + j] == needle@[j],
        decreases needle.len() - k,
    {
        if hay[at + k] != needle[k] {
            assert(hay@.subrange(at as int, at + needle.len())[k as int] != needle@[k as int]);
            return false;
        }
        k = k + 1;
    }
    assert(hay@.subrange(at as int, at + needle.len()) =~= needle@);
    true
}

/// Whether the two strings hold the same characters.
pub fn str_eq(a: &str, b: &str) -> (r: bool)
    ensures
        r == (a@ == b@),
{
    let x = chars_of(a);
    let y = chars_of(b);
    if x.len() != y.len() {
        return false;
    }
    let r = occurs_at_exec(&x, &y, 0);
    assert(r ==> x@.subrange(0, x@.len() as int) =~= x@);
    assert(x@ == y@ ==> x@.subrange(0, x@.len() as int) =~= y@);
    r
}

/// Whether `hay` begins with `prefix`.
pub fn starts_with(hay: &str, prefix: &str) -> (r: bool)
    ensures
        r == starts_with_seq(hay@, prefix@),
{
    let x = chars_of(hay);
    let y = chars_of(prefix);
    occurs_at_exec(&x, &y, 0)
}

/// Whether `needle` occurs somewhere in `hay` (the empty string occurs in
/// every string).
pub fn contains(hay: &str, needle: &str) -> (r: bool)
    ensures
        r == contains_seq(hay@, needle@),
{
    let x = chars_of(hay);
    let y = chars_of(needle);
    if y.len() > x.len() {
        assert forall|at: int| !occurs_at(x@, y@, at) by {}
        return false;
    }
    let last = x.len() - y.len();
    let mut at: usize = 0;
    loop
        invariant
            x@ == hay@,
            y@ == needle@,
            last == x@.len() - y@.len(),
            at <= last,
            forall|p: int| 0 <= p < at ==> !occurs_at(x@, y@, p),
        ensures
            forall|p: int| 0 <= p <= last ==> !occurs_at(x@, y@, p),
        decreases last - at,
    {
        if occurs_at_exec(&x, &y, at) {
            assert(occurs_at(hay@, needle@, at as int));
            return true;
        }
        if at == last {
            break;
        }
        at = at + 1;
    }
    assert forall|p: int| !occurs_at(x@, y@, p) by {
        if 0 <= p <= last {
        }
    }
    false
}

/// The parts joined by the separator.
pub open spec fn seq_join(parts: Seq<Seq<char>>, sep: Seq<char>) -> Seq<char>
    decreases parts.len(),
{
    if parts.len() == 0 {
        Seq::empty()
    } else if parts.len() == 1 {
        parts[0]
    } else {
        seq_join(parts.drop_last(), sep) + sep + parts.last()
    }
}

/// Joining one more part adds the separator and the part (no separator
/// before the first part).
pub proof fn lemma_seq_join_push(parts: Seq<Seq<char>>, sep: Seq<char>, part: Seq<char>)
    ensures
        seq_join(parts.push(part), sep) == if parts.len() == 0 {
            part
        } else {
            seq_join(parts, sep) + sep + part
        },
{
    assert(parts.push(part).drop_last() =~= parts);
}

/// Joining keeps every part and puts exactly one separator between
/// neighbours: no parts give nothing, one part gives itself, and each further
/// part adds the separator and the part; so the length is the parts' lengths
/// plus one separator per gap.
pub proof fn lemma_seq_join_shape(parts: Seq<Seq<char>>, sep: Seq<char>, part: Seq<char>)
    ensures
        seq_join(Seq::empty(), sep) == Seq::<char>::empty(),
        seq_join(seq![part], sep) == part,
        parts.len() > 0 ==> seq_join(parts.push(part), sep) == seq_join(parts, sep) + sep + part,
        parts.len() > 0 ==> seq_join(parts.push(part), sep).len() == seq_join(parts, sep).len()
            + sep.len() + part.len(),
{
    lemma_seq_join_push(Seq::empty(), sep, part);
    assert(Seq::<Seq<char>>::empty().push(part) =~= seq![part]);
    lemma_seq_join_push(parts, sep, part);
}

} // verus!
