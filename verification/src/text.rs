//! Small verified helpers on strings.

use vstd::prelude::*;

verus! {

/// Content equality of two string slices, proved character by character.
pub fn str_eq(a: &str, b: &str) -> (r: bool)
    ensures
        r == (a@ == b@),
{
    let alen = a.unicode_len();
    let blen = b.unicode_len();
    if alen != blen {
        proof {
            assert(a@ != b@) by {
                assert(a@.len() != b@.len());
            }
        }
        return false;
    }
    let mut i: usize = 0;
    while i < alen
        invariant
            alen == a@.len(),
            alen == b@.len(),
            i <= alen,
            forall|j: int| 0 <= j < i ==> a@[j] == b@[j],
        decreases alen - i,
    {
        if a.get_char(i) != b.get_char(i) {
            proof {
                assert(a@ != b@) by {
                    assert(a@[i as int] != b@[i as int]);
                }
            }
            return false;
        }
        i = i + 1;
    }
    proof {
        assert(a@ =~= b@);
    }
    true
}

/// A display name joined from its parts: the first name, then the last name
/// after a space when there is one.
pub open spec fn full_name_spec(first: Seq<char>, last: Option<Seq<char>>) -> Seq<char> {
    match last {
        Some(l) => first + seq![' '] + l,
        None => first,
    }
}

/// Join a first and an optional last name into one display name.
pub fn full_name(first: &str, last: Option<&str>) -> (r: String)
    ensures
        r@ == full_name_spec(
            first@,
            match last {
                Some(l) => Some(l@),
                None => None,
            },
        ),
{
    let mut name = String::from_str(first);
    if let Some(l) = last {
        name.append(" ");
        name.append(l);
        proof {
            reveal_strlit(" ");
            assert(name@ =~= first@ + seq![' '] + l@);
        }
    }
    name
}

} // verus!
