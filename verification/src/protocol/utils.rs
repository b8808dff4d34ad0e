use vstd::prelude::*;

verus! {

/// `s` without the zero bytes at its end.
pub open spec fn strip_trailing_zeros(s: Seq<u8>) -> Seq<u8>
    decreases s.len(),
{
    if s.len() > 0 && s.last() == 0 {
        strip_trailing_zeros(s.drop_last())
    } else {
        s
    }
}

/// What `strip_trailing_zeros` keeps is a prefix of its argument, it is empty
/// or ends in a nonzero byte, and every byte it drops is zero.
pub proof fn lemma_strip_trailing_zeros(s: Seq<u8>)
    ensures
        strip_trailing_zeros(s).len() <= s.len(),
        strip_trailing_zeros(s) =~= s.take(strip_trailing_zeros(s).len() as int),
        strip_trailing_zeros(s).len() == 0 || strip_trailing_zeros(s).last() != 0,
        forall|i: int| strip_trailing_zeros(s).len() <= i < s.len() ==> s[i] == 0,
    decreases s.len(),
{
    if s.len() > 0 && s.last() == 0 {
        lemma_strip_trailing_zeros(s.drop_last());
        assert forall|i: int| strip_trailing_zeros(s).len() <= i < s.len() implies s[i] == 0 by {
            if i < s.len() - 1 {
                assert(s.drop_last()[i] == s[i]);
            }
        }
    }
}

/// Stripping the trailing zeros a second time changes nothing.
pub proof fn lemma_strip_trailing_zeros_idempotent(s: Seq<u8>)
    ensures
        strip_trailing_zeros(strip_trailing_zeros(s)) == strip_trailing_zeros(s),
{
    lemma_strip_trailing_zeros(s);
}

/// Removes the zero bytes at the end of `vec`.
pub fn remove_trailing_zeros(vec: Vec<u8>) -> (r: Vec<u8>)
    ensures
        r@ == strip_trailing_zeros(vec@),
{
    let ghost original = vec@;
    let mut vec = vec;
    while vec.len() > 0 && vec[vec.len() - 1] == 0
        invariant
            strip_trailing_zeros(vec@) == strip_trailing_zeros(original),
        decreases vec@.len(),
    {
        let ghost before = vec@;
        vec.pop();
        assert(vec@ =~= before.drop_last());
    }
    vec
}

} // verus!
