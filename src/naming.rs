//! Short names for types, as used in an element's `data-name` attribute.
use vstd::prelude::*;

verus! {

/// The part of `s` after its last `':'`; all of `s` where it has none.
pub open spec fn last_segment(s: Seq<char>) -> Seq<char>
    decreases s.len(),
{
    if s.len() == 0 {
        s
    } else if s.last() == ':' {
        Seq::empty()
    } else {
        last_segment(s.drop_last()).push(s.last())
    }
}

proof fn lemma_last_segment_without_colon(s: Seq<char>)
    requires
        !s.contains(':'),
    ensures
        last_segment(s) == s,
    decreases s.len(),
{
    if s.len() > 0 {
        assert(s.drop_last().push(s.last()) == s);
        assert forall|c: char| s.drop_last().contains(c) implies s.contains(c) by {
            let i = choose|i: int| 0 <= i < s.drop_last().len() && s.drop_last()[i] == c;
            assert(s[i] == c);
        }
        assert(s[s.len() - 1] == s.last());
        lemma_last_segment_without_colon(s.drop_last());
    }
}

proof fn lemma_last_segment_after_colon(a: Seq<char>, b: Seq<char>)
    requires
        !b.contains(':'),
    ensures
        last_segment(a + seq![':'] + b) == b,
    decreases b.len(),
{
    let s = a + seq![':'] + b;
    if b.len() == 0 {
        assert(s.last() == ':');
    } else {
        assert(s.last() == b.last());
        assert(b[b.len() - 1] == b.last());
        assert(s.drop_last() == a + seq![':'] + b.drop_last());
        assert forall|c: char| b.drop_last().contains(c) implies b.contains(c) by {
            let i = choose|i: int| 0 <= i < b.drop_last().len() && b.drop_last()[i] == c;
            assert(b[i] == c);
        }
        lemma_last_segment_after_colon(a, b.drop_last());
        assert(b.drop_last().push(b.last()) == b);
    }
}

/// Relies on `str::rsplit_once` with a `char` pattern: it splits `s` around
/// the last occurrence of the character, or gives `None` where `s` has none.
#[verifier::external_body]
fn rsplit_once_char<'a>(s: &'a str, c: char) -> (r: Option<(&'a str, &'a str)>)
    ensures
        r matches Some(p) ==> s@ == p.0@ + seq![c] + p.1@ && !p.1@.contains(c),
        r is None ==> !s@.contains(c),
{
    s.rsplit_once(c)
}

/// The last path segment of a type name (`Clicked` for
/// `hobo_ext::click::Clicked`).
pub fn short_type_name(name: &str) -> (r: &str)
    ensures
        r@ == last_segment(name@),
{
    match rsplit_once_char(name, ':') {
        Some((before, after)) => {
            proof {
                lemma_last_segment_after_colon(before@, after@);
            }
            after
        },
        None => {
            proof {
                lemma_last_segment_without_colon(name@);
            }
            name
        },
    }
}

} // verus!
