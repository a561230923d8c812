//! Resource identifiers of the form `scheme:resource-path`.
//!
//! The scheme is everything before the first colon and selects the module
//! that serves the resource; the path is everything behind that colon and is
//! for the module alone to interpret. An identifier without a colon has no
//! scheme, so no module serves it.

use vstd::prelude::*;

verus! {

/// The byte that ends the scheme.
pub const SEPARATOR: u8 = 0x3A;

/// Whether `at` is the position of the first separator of `identifier`.
pub open spec fn is_scheme_end(identifier: Seq<u8>, at: int) -> bool {
    &&& 0 <= at < identifier.len()
    &&& identifier[at] == SEPARATOR
    &&& forall|j: int| 0 <= j < at ==> identifier[j] != SEPARATOR
}

/// Whether `identifier` holds no separator at all.
pub open spec fn has_no_scheme(identifier: Seq<u8>) -> bool {
    forall|j: int| 0 <= j < identifier.len() ==> identifier[j] != SEPARATOR
}

/// The position of the first separator of `identifier`, if it has one.
pub open spec fn scheme_end(identifier: Seq<u8>) -> Option<int> {
    if exists|at: int| is_scheme_end(identifier, at) {
        Some(choose|at: int| is_scheme_end(identifier, at))
    } else {
        None
    }
}

/// The scheme of `identifier`: the bytes before its first separator.
pub open spec fn scheme_of(identifier: Seq<u8>) -> Option<Seq<u8>> {
    match scheme_end(identifier) {
        Some(at) => Some(identifier.take(at)),
        None => None,
    }
}

/// The path of `identifier`: the bytes behind its first separator, and nothing
/// where it has none.
pub open spec fn path_of(identifier: Seq<u8>) -> Seq<u8> {
    match scheme_end(identifier) {
        Some(at) => identifier.skip(at + 1),
        None => Seq::empty(),
    }
}

/// At most one position is the first separator, so `scheme_end` names it.
pub proof fn lemma_scheme_end_is_unique(identifier: Seq<u8>, at: int)
    requires
        is_scheme_end(identifier, at),
    ensures
        scheme_end(identifier) == Some(at),
{
    let chosen = choose|k: int| is_scheme_end(identifier, k);
    assert(is_scheme_end(identifier, chosen));
    if chosen < at {
        assert(identifier[chosen] != SEPARATOR);
    } else if at < chosen {
        assert(identifier[at] != SEPARATOR);
    }
}

/// An identifier without a separator has neither scheme nor path.
pub proof fn lemma_no_separator_no_scheme(identifier: Seq<u8>)
    requires
        has_no_scheme(identifier),
    ensures
        scheme_end(identifier).is_none(),
        scheme_of(identifier).is_none(),
        path_of(identifier) == Seq::<u8>::empty(),
{
    if exists|at: int| is_scheme_end(identifier, at) {
        let at = choose|at: int| is_scheme_end(identifier, at);
        assert(identifier[at] != SEPARATOR);
    }
}

/// An identifier is its scheme, the separator and its path, in this order.
pub proof fn lemma_scheme_and_path_make_identifier(identifier: Seq<u8>)
    requires
        scheme_end(identifier).is_some(),
    ensures
        identifier == scheme_of(identifier).unwrap().push(SEPARATOR) + path_of(identifier),
        !scheme_of(identifier).unwrap().contains(SEPARATOR),
{
    let at = scheme_end(identifier).unwrap();
    assert(is_scheme_end(identifier, at));
    assert(identifier =~= identifier.take(at).push(SEPARATOR) + identifier.skip(at + 1));
}

/// Finds the first separator of `identifier`.
pub fn find_separator(identifier: &[u8]) -> (at: Option<usize>)
    ensures
        match at {
            Some(k) => k < identifier@.len() && scheme_end(identifier@) == Some(k as int),
            None => scheme_end(identifier@).is_none(),
        },
{
    let mut i: usize = 0;
    while i < identifier.len()
        invariant
            i <= identifier@.len(),
            forall|j: int| 0 <= j < i ==> identifier@[j] != SEPARATOR,
        decreases identifier@.len() - i,
    {
        if identifier[i] == SEPARATOR {
            proof {
                lemma_scheme_end_is_unique(identifier@, i as int);
            }
            return Some(i);
        }
        i += 1;
    }
    proof {
        lemma_no_separator_no_scheme(identifier@);
    }
    None
}

/// Whether `identifier` has the scheme `scheme`.
pub fn has_scheme(identifier: &[u8], scheme: &[u8]) -> (same: bool)
    ensures
        same == (scheme_of(identifier@) == Some(scheme@)),
{
    match find_separator(identifier) {
        None => false,
        Some(end) => {
            if end != scheme.len() {
                assert(identifier@.take(end as int).len() != scheme@.len());
                return false;
            }
            let mut i: usize = 0;
            while i < end
                invariant
                    i <= end,
                    end == scheme@.len(),
                    end <= identifier@.len(),
                    forall|j: int| 0 <= j < i ==> identifier@[j] == scheme@[j],
                decreases end - i,
            {
                if identifier[i] != scheme[i] {
                    assert(identifier@.take(end as int)[i as int] != scheme@[i as int]);
                    return false;
                }
                i += 1;
            }
            assert(identifier@.take(end as int) =~= scheme@);
            true
        },
    }
}

/// The path of `identifier`, copied out.
pub fn path(identifier: &[u8]) -> (bytes: Vec<u8>)
    ensures
        bytes@ == path_of(identifier@),
{
    let mut bytes: Vec<u8> = Vec::new();
    match find_separator(identifier) {
        None => {},
        Some(end) => {
            let size = identifier.len();
            let mut i: usize = end + 1;
            while i < size
                invariant
                    size == identifier@.len(),
                    end < i <= size,
                    bytes@ == identifier@.subrange(end + 1, i as int),
                decreases identifier@.len() - i,
            {
                bytes.push(identifier[i]);
                i += 1;
            }
            assert(bytes@ =~= identifier@.skip(end + 1));
        },
    }
    bytes
}

} // verus!
