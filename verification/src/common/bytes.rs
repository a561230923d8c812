use vstd::prelude::*;

verus! {

/// A copy of `source`.
pub fn copy(source: &[u8]) -> (copied: Vec<u8>)
    ensures
        copied@ == source@,
{
    let mut copied: Vec<u8> = Vec::new();
    let mut i: usize = 0;
    while i < source.len()
        invariant
            i <= source@.len(),
            copied@ == source@.take(i as int),
        decreases source@.len() - i,
    {
        copied.push(source[i]);
        assert(source@.take(i + 1) =~= source@.take(i as int).push(source@[i as int]));
        i += 1;
    }
    assert(source@.take(i as int) =~= source@);
    copied
}

} // verus!
