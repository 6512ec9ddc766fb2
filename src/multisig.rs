use vstd::prelude::*;

use crate::address::Address;
use crate::error::LaunchError;

verus! {

/// A fixed set of three members that gates privileged pool operations.
///
/// Any single member may authorise an action: the threshold is recorded
/// when the set is created but no check counts corroborating approvals.
#[derive(Debug, Clone)]
pub struct Multisig {
    pub signers: [Address; 3],
    pub threshold: u8,
    pub nonce: u64,
    pub bump: u8,
}

/// The three members are pairwise different.
pub open spec fn pairwise_distinct(signers: [Address; 3]) -> bool {
    &&& signers@[0] != signers@[1]
    &&& signers@[1] != signers@[2]
    &&& signers@[0] != signers@[2]
}

/// Why a member set with this threshold is refused, if it is.
pub open spec fn multisig_error(signers: [Address; 3], threshold: u8) -> Option<LaunchError> {
    if !(2 <= threshold <= 3) {
        Some(LaunchError::InvalidThreshold)
    } else if !pairwise_distinct(signers) {
        Some(LaunchError::DuplicateSigner)
    } else {
        None
    }
}

impl Multisig {
    /// Bytes reserved for a stored member set.
    pub const SPACE: usize = 8 + 32 * 3 + 1 + 8 + 1;

    pub open spec fn wf(&self) -> bool {
        &&& pairwise_distinct(self.signers)
        &&& 2 <= self.threshold <= 3
    }

    /// `key` is one of the three members.
    pub open spec fn has_member(&self, key: Address) -> bool {
        exists|i: int| 0 <= i < 3 && #[trigger] self.signers@[i] == key
    }

    pub fn is_signer(&self, key: &Address) -> (r: bool)
        ensures
            r == self.has_member(*key),
    {
        let mut i: usize = 0;
        while i < 3
            invariant
                0 <= i <= 3,
                forall|j: int| 0 <= j < i ==> self.signers@[j] != *key,
            decreases 3 - i,
        {
            if self.signers[i].same(key) {
                return true;
            }
            i = i + 1;
        }
        assert forall|j: int| 0 <= j < 3 implies #[trigger] self.signers@[j] != *key by {}
        false
    }
}

/// Creates the member set, refusing a threshold outside 2..=3 and then a
/// repeated member.
pub fn create_multisig(signers: [Address; 3], threshold: u8, bump: u8) -> (r: Result<
    Multisig,
    LaunchError,
>)
    ensures
        match multisig_error(signers, threshold) {
            Some(e) => r == Err::<Multisig, LaunchError>(e),
            None => r matches Ok(m) && m.signers == signers && m.threshold == threshold
                && m.nonce == 0 && m.bump == bump && m.wf(),
        },
{
    if threshold < 2 || threshold > 3 {
        return Err(LaunchError::InvalidThreshold);
    }
    let a = signers[0];
    let b = signers[1];
    let c = signers[2];
    if a.same(&b) || b.same(&c) || a.same(&c) {
        return Err(LaunchError::DuplicateSigner);
    }
    Ok(Multisig { signers, threshold, nonce: 0, bump })
}

} // verus!
