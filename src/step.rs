//! The conversion of a sync step into the step verifier's public input.

use vstd::prelude::*;

use crate::header::{header_root, BeaconBlockHeader};
use crate::participation::{count_participation, participation_of};

verus! {

/// A light-client sync step: the parts of it that the step verifier reads.
#[derive(Clone, Debug, PartialEq, Eq)]
pub struct SyncStepArgs {
    pub attested_header: BeaconBlockHeader,
    pub finalized_header: BeaconBlockHeader,
    /// One flag per sync committee member.
    pub participation_bits: Vec<bool>,
    /// The execution payload's root, expected to be 32 bytes long.
    pub execution_payload_root: Vec<u8>,
}

/// The step verifier's public input, field for field as the contract declares it.
#[derive(Clone, Copy, Debug, PartialEq, Eq)]
pub struct StepInput {
    pub attested_slot: u64,
    pub finalized_slot: u64,
    pub participation: u64,
    pub finalized_header_root: [u8; 32],
    pub execution_payload_root: [u8; 32],
}

/// Why a sync step cannot be converted.
///
/// Header slots are 64-bit, as wide as the verifier's slot fields, so every
/// slot converts exactly and no slot error can arise.
#[derive(Clone, Copy, Debug, PartialEq, Eq)]
pub enum ConvertError {
    /// The execution payload root is not exactly 32 bytes long.
    MalformedPayloadRoot,
}

/// `out` is the verifier input that `args` converts to.
pub open spec fn is_step_input_of(out: StepInput, args: SyncStepArgs) -> bool {
    &&& out.attested_slot == args.attested_header.slot
    &&& out.finalized_slot == args.finalized_header.slot
    &&& out.participation as nat == participation_of(args.participation_bits@)
    &&& out.finalized_header_root@ == header_root(args.finalized_header)
    &&& out.execution_payload_root@ == args.execution_payload_root@
}

/// Reads `bytes` as a 32-byte root; fails unless there are exactly 32 of them.
pub fn payload_root_from_bytes(bytes: &Vec<u8>) -> (r: Result<[u8; 32], ConvertError>)
    ensures
        match r {
            Ok(root) => bytes@.len() == 32 && root@ == bytes@,
            Err(e) => bytes@.len() != 32 && e == ConvertError::MalformedPayloadRoot,
        },
{
    if bytes.len() != 32 {
        return Err(ConvertError::MalformedPayloadRoot);
    }
    let mut root = [0u8; 32];
    let mut i: usize = 0;
    while i < 32
        invariant
            i <= 32,
            bytes@.len() == 32,
            forall|j: int| 0 <= j < i ==> root@[j] == bytes@[j],
        decreases 32 - i,
    {
        root[i] = bytes[i];
        i = i + 1;
    }
    assert(root@ =~= bytes@);
    Ok(root)
}

/// Converts a sync step into the step verifier's public input.
///
/// Fails exactly when the execution payload root is not 32 bytes long.
pub fn convert(args: SyncStepArgs) -> (r: Result<StepInput, ConvertError>)
    ensures
        match r {
            Ok(out) => args.execution_payload_root@.len() == 32 && is_step_input_of(out, args),
            Err(e) => args.execution_payload_root@.len() != 32 && e
                == ConvertError::MalformedPayloadRoot,
        },
{
    let execution_payload_root = match payload_root_from_bytes(&args.execution_payload_root) {
        Ok(root) => root,
        Err(e) => return Err(e),
    };
    let participation = count_participation(&args.participation_bits);
    let finalized_header_root = args.finalized_header.tree_hash_root();
    Ok(
        StepInput {
            attested_slot: args.attested_header.slot,
            finalized_slot: args.finalized_header.slot,
            participation,
            finalized_header_root,
            execution_payload_root,
        },
    )
}

/// Conversions of sync steps that share a finalized header give the same
/// finalized header root: the root is a function of the header alone.
pub proof fn lemma_finalized_root_deterministic(
    a: SyncStepArgs,
    b: SyncStepArgs,
    out_a: StepInput,
    out_b: StepInput,
)
    requires
        a.finalized_header == b.finalized_header,
        is_step_input_of(out_a, a),
        is_step_input_of(out_b, b),
    ensures
        out_a.finalized_header_root == out_b.finalized_header_root,
{
    assert(out_a.finalized_header_root@ =~= out_b.finalized_header_root@);
}

} // verus!
