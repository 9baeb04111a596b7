use vstd::prelude::*;

verus! {

/// Identity of an account in the host environment, carried as its raw bytes.
///
/// The state machine never inspects an identity; it only stores the current
/// holder and hands identities back to the host as transfer targets.
#[derive(Clone, Copy, PartialEq, Eq, Debug)]
pub struct AccountId {
    pub bytes: [u8; 32],
}

impl AccountId {
    /// Builds an identity whose bytes are all `b`; convenient for tests and
    /// for hosts that key accounts by a single byte.
    pub fn from_byte(b: u8) -> (r: Self)
        ensures
            forall|i: int| 0 <= i < 32 ==> r.bytes[i] == b,
    {
        AccountId { bytes: [b; 32] }
    }
}

} // verus!
