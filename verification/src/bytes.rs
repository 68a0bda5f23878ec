//! Byte-string helpers: names and name prefixes are byte strings, and the
//! prefix test is bytewise (which coincides with character-level prefixes for
//! UTF-8 encoded names).

use vstd::prelude::*;

verus! {

/// `pre` is a prefix of `s`.
pub open spec fn is_prefix_of(pre: Seq<u8>, s: Seq<u8>) -> bool {
    pre.len() <= s.len() && s.subrange(0, pre.len() as int) == pre
}

/// Bytewise prefix test.
pub fn starts_with(s: &Vec<u8>, pre: &Vec<u8>) -> (r: bool)
    ensures
        r == is_prefix_of(pre@, s@),
{
    if pre.len() > s.len() {
        return false;
    }
    let mut i: usize = 0;
    while i < pre.len()
        invariant
            i <= pre.len() <= s.len(),
            forall|j: int| 0 <= j < i ==> s@[j] == pre@[j],
        decreases pre.len() - i,
    {
        if s[i] != pre[i] {
            proof {
                if is_prefix_of(pre@, s@) {
                    assert(s@.subrange(0, pre@.len() as int)[i as int] == pre@[i as int]);
                }
            }
            return false;
        }
        i += 1;
    }
    proof {
        assert(s@.subrange(0, pre@.len() as int) =~= pre@);
    }
    true
}

} // verus!
