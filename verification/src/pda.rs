use vstd::prelude::*;

verus! {

/// What the chain's address derivation computes from a 32-byte seed
/// under a deriving program: the program-derived reference, or nothing
/// in the statistically improbable case that no bump seed yields a
/// valid address. The result depends on the two arguments alone.
pub uninterp spec fn derived_reference(seed: Seq<u8>, program: Seq<u8>) -> Option<Seq<u8>>;

/// Relies on solana_pubkey's `Pubkey::try_find_program_address`
/// (re-exported by anchor_lang): the derived address is a pure function
/// of the seed bytes and the program id, and the call returns `None`
/// instead of panicking when no bump seed yields a valid address.
#[verifier::external_body]
pub fn derive_program_reference(seed: &[u8; 32], program: &[u8; 32]) -> (r: Option<[u8; 32]>)
    ensures
        r matches Some(d) ==> derived_reference(seed@, program@) == Some(d@),
        r is None ==> derived_reference(seed@, program@) is None,
{
    let program_id = anchor_lang::prelude::Pubkey::new_from_array(*program);
    anchor_lang::prelude::Pubkey::try_find_program_address(&[&seed[..]], &program_id).map(
        |found: (anchor_lang::prelude::Pubkey, u8)| found.0.to_bytes(),
    )
}

/// Whether two 32-byte keys hold the same bytes.
pub fn key_eq(a: &[u8; 32], b: &[u8; 32]) -> (r: bool)
    ensures
        r == (a@ == b@),
{
    let mut i: usize = 0;
    while i < 32
        invariant
            i <= 32,
            forall|j: int| 0 <= j < i ==> a@[j] == b@[j],
        decreases 32 - i,
    {
        if a[i] != b[i] {
            assert(a@ != b@);
            return false;
        }
        i = i + 1;
    }
    proof {
        assert(a@ =~= b@);
    }
    true
}

} // verus!
