use anchor_lang::prelude::Pubkey;
use vstd::prelude::*;

verus! {

/// Namespace tag that every escrow record address is derived from.
pub const ESCROW_SEED: &'static str = "escrow";

/// A 32-byte account address.
#[derive(Clone, Copy, Debug, PartialEq, Eq)]
pub struct Address {
    pub bytes: [u8; 32],
}

impl View for Address {
    type V = Seq<u8>;

    open spec fn view(&self) -> Seq<u8> {
        self.bytes@
    }
}

impl Address {
    pub fn new(bytes: [u8; 32]) -> (r: Address)
        ensures
            r@ == bytes@,
    {
        Address { bytes }
    }

    /// Byte-wise equality of two addresses.
    pub fn same(&self, other: &Address) -> (r: bool)
        ensures
            r == (self@ == other@),
    {
        let mut i: usize = 0;
        while i < 32
            invariant
                0 <= i <= 32,
                self@.len() == 32,
                other@.len() == 32,
                forall|j: int| 0 <= j < i ==> self@[j] == other@[j],
            decreases 32 - i,
        {
            if self.bytes[i] != other.bytes[i] {
                return false;
            }
            i = i + 1;
        }
        assert(self@ =~= other@);
        true
    }
}

/// The address and bump seed derived from a namespace, a key and a program id.
pub uninterp spec fn program_address_of(namespace: Seq<char>, key: Seq<char>, program: Seq<u8>) -> Option<(Seq<u8>, u8)>;

/// Relies on `Pubkey::try_find_program_address` (solana-program, through
/// anchor-lang): the first bump seed, counting down from 255, whose address lies
/// off the curve. The result depends on the seeds and the program id alone,
/// and it is `None` when a seed is longer than 32 bytes.
#[verifier::external_body]
pub(crate) fn find_program_address(namespace: &str, key: &str, program: &Address) -> (r: Option<(Address, u8)>)
    ensures
        r is Some <==> program_address_of(namespace@, key@, program@) is Some,
        r is Some ==> program_address_of(namespace@, key@, program@) == Some(((r->0).0@, (r->0).1)),
        key@.len() > 32 ==> r is None,
{
    let program_id = Pubkey::new_from_array(program.bytes);
    Pubkey::try_find_program_address(&[namespace.as_bytes(), key.as_bytes()], &program_id)
        .map(|(a, b)| (Address { bytes: a.to_bytes() }, b))
}

} // verus!
