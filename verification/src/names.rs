//! Short names for log spans: the last path component of a (type) name.

use vstd::prelude::*;

verus! {

/// The delimiter `d` occurs in `s` at position `i`.
pub open spec fn occurs_at(s: Seq<char>, d: Seq<char>, i: int) -> bool {
    0 <= i && i + d.len() <= s.len() && s.subrange(i, i + d.len()) == d
}

/// The path separator, `::`.
pub open spec fn path_sep() -> Seq<char> {
    seq![':', ':']
}

/// Relies on str::rsplit_once: splits on the last occurrence of the
/// delimiter, returning the text before and after it, or `None` when the
/// delimiter does not occur.
#[verifier::external_body]
fn rsplit_once_str<'a>(s: &'a str, delim: &str) -> (r: Option<(&'a str, &'a str)>)
    ensures
        match r {
            Some(parts) => exists|i: int|
                #[trigger] occurs_at(s@, delim@, i) && (forall|j: int|
                    j > i ==> !occurs_at(s@, delim@, j)) && parts.0@ == s@.subrange(0, i)
                    && parts.1@ == s@.subrange(i + delim@.len(), s@.len() as int),
            None => forall|i: int| !occurs_at(s@, delim@, i),
        },
{
    s.rsplit_once(delim)
}

/// Given `abc::bcd::cde` returns `cde`.  Given `abc` returns `abc`.
pub fn last_component_of_name<'a>(name: &'a str) -> (r: &'a str)
    ensures
        (forall|i: int| !occurs_at(name@, path_sep(), i)) ==> r@ == name@,
        forall|i: int|
            (#[trigger] occurs_at(name@, path_sep(), i) && (forall|j: int|
                j > i ==> !occurs_at(name@, path_sep(), j))) ==> r@ == name@.subrange(
                i + 2,
                name@.len() as int,
            ),
{
    proof {
        reveal_strlit("::");
        assert("::"@ =~= path_sep());
    }
    match rsplit_once_str(name, "::") {
        Some(parts) => {
            let (_, after) = parts;
            proof {
                let i = choose|i: int|
                    #[trigger] occurs_at(name@, "::"@, i) && (forall|j: int|
                        j > i ==> !occurs_at(name@, "::"@, j)) && after@ == name@.subrange(
                        i + 2,
                        name@.len() as int,
                    );
                assert forall|i2: int|
                    #[trigger] occurs_at(name@, path_sep(), i2) && (forall|j: int|
                        j > i2 ==> !occurs_at(name@, path_sep(), j)) implies after@
                    == name@.subrange(i2 + 2, name@.len() as int) by {
                    assert(!(i2 > i) && !(i > i2));
                }
            }
            after
        },
        None => name,
    }
}

} // verus!
