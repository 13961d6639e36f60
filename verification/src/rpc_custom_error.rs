//! Implementation defined RPC server errors, and the JSON-RPC error object
//! (code, message, data) that each of them is answered with.

use vstd::prelude::*;
use vstd::string::StringExecFns;
use crate::decimal::{decimal, push_decimal};

verus! {

pub const JSON_RPC_SERVER_ERROR_BLOCK_CLEANED_UP: i64 = -32001;
pub const JSON_RPC_SERVER_ERROR_SEND_TRANSACTION_PREFLIGHT_FAILURE: i64 = -32002;
pub const JSON_RPC_SERVER_ERROR_TRANSACTION_SIGNATURE_VERIFICATION_FAILURE: i64 = -32003;
pub const JSON_RPC_SERVER_ERROR_BLOCK_NOT_AVAILABLE: i64 = -32004;
pub const JSON_RPC_SERVER_ERROR_NODE_UNHEALTHY: i64 = -32005;
pub const JSON_RPC_SERVER_ERROR_TRANSACTION_PRECOMPILE_VERIFICATION_FAILURE: i64 = -32006;
pub const JSON_RPC_SERVER_ERROR_SLOT_SKIPPED: i64 = -32007;
pub const JSON_RPC_SERVER_ERROR_NO_SNAPSHOT: i64 = -32008;
pub const JSON_RPC_SERVER_ERROR_LONG_TERM_STORAGE_SLOT_SKIPPED: i64 = -32009;
pub const JSON_RPC_SERVER_ERROR_KEY_EXCLUDED_FROM_SECONDARY_INDEX: i64 = -32010;
pub const JSON_RPC_SERVER_ERROR_TRANSACTION_HISTORY_NOT_AVAILABLE: i64 = -32011;
pub const JSON_RPC_SCAN_ERROR: i64 = -32012;
pub const JSON_RPC_SERVER_ERROR_TRANSACTION_SIGNATURE_LEN_MISMATCH: i64 = -32013;
pub const JSON_RPC_SERVER_ERROR_BLOCK_STATUS_NOT_AVAILABLE_YET: i64 = -32014;
/// TDB error range
pub const JSON_RPC_SERVER_ERROR_INDEX_NOT_AVALABLE: i64 = -32101;

/// A slot number.
pub type Slot = u64;

/// Errors that the RPC server answers with a code of its own.
///
/// `R` is the transaction simulation result that a failed preflight carries.
/// A precompile verification failure carries the debug rendering of the
/// transaction error.
#[derive(Debug)]
pub enum RpcCustomError<R> {
    BlockCleanedUp { slot: Slot, first_available_block: Slot },
    SendTransactionPreflightFailure { message: String, result: R },
    TransactionSignatureVerificationFailure,
    BlockNotAvailable { slot: Slot },
    NodeUnhealthy { num_slots_behind: Option<Slot> },
    TransactionPrecompileVerificationFailure(String),
    SlotSkipped { slot: Slot },
    NoSnapshot,
    LongTermStorageSlotSkipped { slot: Slot },
    KeyExcludedFromSecondaryIndex { index_key: String },
    TransactionHistoryNotAvailable,
    DisabledIndex(String),
    ScanError { message: String },
    TransactionSignatureLenMismatch,
    BlockStatusNotAvailableYet { slot: Slot },
}

/// The data attached to a node-unhealthy error (`numSlotsBehind` in JSON).
#[derive(Debug, Clone, Copy, PartialEq, Eq)]
pub struct NodeUnhealthyErrorData {
    pub num_slots_behind: Option<Slot>,
}

/// The `data` member of an error object.
#[derive(Debug)]
pub enum RpcErrorData<R> {
    /// no data
    Absent,
    /// the simulation result of a failed preflight
    SimulationResult(R),
    /// how far behind an unhealthy node is
    NodeUnhealthy(NodeUnhealthyErrorData),
}

/// A JSON-RPC error object: a server error code, a message and optional data.
#[derive(Debug)]
pub struct RpcError<R> {
    pub code: i64,
    pub message: String,
    pub data: RpcErrorData<R>,
}

/// The error code of each error.
pub open spec fn spec_error_code<R>(e: RpcCustomError<R>) -> i64 {
    match e {
        RpcCustomError::BlockCleanedUp { .. } => JSON_RPC_SERVER_ERROR_BLOCK_CLEANED_UP,
        RpcCustomError::SendTransactionPreflightFailure { .. } => JSON_RPC_SERVER_ERROR_SEND_TRANSACTION_PREFLIGHT_FAILURE,
        RpcCustomError::TransactionSignatureVerificationFailure => JSON_RPC_SERVER_ERROR_TRANSACTION_SIGNATURE_VERIFICATION_FAILURE,
        RpcCustomError::BlockNotAvailable { .. } => JSON_RPC_SERVER_ERROR_BLOCK_NOT_AVAILABLE,
        RpcCustomError::NodeUnhealthy { .. } => JSON_RPC_SERVER_ERROR_NODE_UNHEALTHY,
        // answered with the signature verification code, as the server always has
        RpcCustomError::TransactionPrecompileVerificationFailure(_) => JSON_RPC_SERVER_ERROR_TRANSACTION_SIGNATURE_VERIFICATION_FAILURE,
        RpcCustomError::SlotSkipped { .. } => JSON_RPC_SERVER_ERROR_SLOT_SKIPPED,
        RpcCustomError::NoSnapshot => JSON_RPC_SERVER_ERROR_NO_SNAPSHOT,
        RpcCustomError::LongTermStorageSlotSkipped { .. } => JSON_RPC_SERVER_ERROR_LONG_TERM_STORAGE_SLOT_SKIPPED,
        RpcCustomError::KeyExcludedFromSecondaryIndex { .. } => JSON_RPC_SERVER_ERROR_KEY_EXCLUDED_FROM_SECONDARY_INDEX,
        RpcCustomError::TransactionHistoryNotAvailable => JSON_RPC_SERVER_ERROR_TRANSACTION_HISTORY_NOT_AVAILABLE,
        RpcCustomError::DisabledIndex(_) => JSON_RPC_SERVER_ERROR_INDEX_NOT_AVALABLE,
        RpcCustomError::ScanError { .. } => JSON_RPC_SCAN_ERROR,
        RpcCustomError::TransactionSignatureLenMismatch => JSON_RPC_SERVER_ERROR_TRANSACTION_SIGNATURE_LEN_MISMATCH,
        RpcCustomError::BlockStatusNotAvailableYet { .. } => JSON_RPC_SERVER_ERROR_BLOCK_STATUS_NOT_AVAILABLE_YET,
    }
}

/// The message of each error.
pub open spec fn spec_error_message<R>(e: RpcCustomError<R>) -> Seq<char> {
    match e {
        RpcCustomError::BlockCleanedUp { slot, first_available_block } => "Block "@ + decimal(slot as nat)
            + " cleaned up, does not exist on node. First available block: "@ + decimal(
            first_available_block as nat,
        ),
        RpcCustomError::SendTransactionPreflightFailure { message, .. } => message@,
        RpcCustomError::TransactionSignatureVerificationFailure => "Transaction signature verification failure"@,
        RpcCustomError::BlockNotAvailable { slot } => "Block not available for slot "@ + decimal(slot as nat),
        RpcCustomError::NodeUnhealthy { num_slots_behind } => match num_slots_behind {
            Some(n) => "Node is behind by "@ + decimal(n as nat) + " slots"@,
            None => "Node is unhealthy"@,
        },
        RpcCustomError::TransactionPrecompileVerificationFailure(e) => "Transaction precompile verification failure "@ + e@,
        RpcCustomError::SlotSkipped { slot } => "Slot "@ + decimal(slot as nat)
            + " was skipped, or missing due to ledger jump to recent snapshot"@,
        RpcCustomError::NoSnapshot => "No snapshot"@,
        RpcCustomError::LongTermStorageSlotSkipped { slot } => "Slot "@ + decimal(slot as nat)
            + " was skipped, or missing in long-term storage"@,
        RpcCustomError::KeyExcludedFromSecondaryIndex { index_key } => index_key@
            + " excluded from account secondary indexes; this RPC method unavailable for key"@,
        RpcCustomError::TransactionHistoryNotAvailable => "Transaction history is not available from this node"@,
        RpcCustomError::DisabledIndex(index) => "Request for indexed accounts is not available from this node due disabled index: "@ + index@,
        RpcCustomError::ScanError { message } => message@,
        RpcCustomError::TransactionSignatureLenMismatch => "Transaction signature length mismatch"@,
        RpcCustomError::BlockStatusNotAvailableYet { slot } => "Block status not yet available for slot "@ + decimal(slot as nat),
    }
}

/// The data of each error: the simulation result of a failed preflight, the
/// lag of an unhealthy node, nothing otherwise.
pub open spec fn spec_error_data<R>(e: RpcCustomError<R>) -> RpcErrorData<R> {
    match e {
        RpcCustomError::SendTransactionPreflightFailure { result, .. } => RpcErrorData::SimulationResult(result),
        RpcCustomError::NodeUnhealthy { num_slots_behind } => RpcErrorData::NodeUnhealthy(
            NodeUnhealthyErrorData { num_slots_behind },
        ),
        _ => RpcErrorData::Absent,
    }
}

/// A string holding `s`.
fn string_of(s: &str) -> (r: String)
    ensures
        r@ == s@,
{
    let mut r = String::new();
    r.append(s);
    assert(r@ =~= s@);
    r
}

impl<R> RpcCustomError<R> {
    /// The JSON-RPC error object this error is answered with.
    pub fn into_rpc_error(self) -> (r: RpcError<R>)
        ensures
            r.code == spec_error_code(self),
            r.message@ == spec_error_message(self),
            r.data == spec_error_data(self),
    {
        match self {
            RpcCustomError::BlockCleanedUp { slot, first_available_block } => {
                let mut message = string_of("Block ");
                push_decimal(&mut message, slot);
                message.append(" cleaned up, does not exist on node. First available block: ");
                push_decimal(&mut message, first_available_block);
                RpcError { code: JSON_RPC_SERVER_ERROR_BLOCK_CLEANED_UP, message, data: RpcErrorData::Absent }
            },
            RpcCustomError::SendTransactionPreflightFailure { message, result } => RpcError {
                code: JSON_RPC_SERVER_ERROR_SEND_TRANSACTION_PREFLIGHT_FAILURE,
                message,
                data: RpcErrorData::SimulationResult(result),
            },
            RpcCustomError::TransactionSignatureVerificationFailure => RpcError {
                code: JSON_RPC_SERVER_ERROR_TRANSACTION_SIGNATURE_VERIFICATION_FAILURE,
                message: string_of("Transaction signature verification failure"),
                data: RpcErrorData::Absent,
            },
            RpcCustomError::BlockNotAvailable { slot } => {
                let mut message = string_of("Block not available for slot ");
                push_decimal(&mut message, slot);
                RpcError { code: JSON_RPC_SERVER_ERROR_BLOCK_NOT_AVAILABLE, message, data: RpcErrorData::Absent }
            },
            RpcCustomError::NodeUnhealthy { num_slots_behind } => {
                let message = match num_slots_behind {
                    Some(n) => {
                        let mut m = string_of("Node is behind by ");
                        push_decimal(&mut m, n);
                        m.append(" slots");
                        m
                    },
                    None => string_of("Node is unhealthy"),
                };
                RpcError {
                    code: JSON_RPC_SERVER_ERROR_NODE_UNHEALTHY,
                    message,
                    data: RpcErrorData::NodeUnhealthy(NodeUnhealthyErrorData { num_slots_behind }),
                }
            },
            RpcCustomError::TransactionPrecompileVerificationFailure(e) => {
                let mut message = string_of("Transaction precompile verification failure ");
                message.append(e.as_str());
                RpcError {
                    code: JSON_RPC_SERVER_ERROR_TRANSACTION_SIGNATURE_VERIFICATION_FAILURE,
                    message,
                    data: RpcErrorData::Absent,
                }
            },
            RpcCustomError::SlotSkipped { slot } => {
                let mut message = string_of("Slot ");
                push_decimal(&mut message, slot);
                message.append(" was skipped, or missing due to ledger jump to recent snapshot");
                RpcError { code: JSON_RPC_SERVER_ERROR_SLOT_SKIPPED, message, data: RpcErrorData::Absent }
            },
            RpcCustomError::NoSnapshot => RpcError {
                code: JSON_RPC_SERVER_ERROR_NO_SNAPSHOT,
                message: string_of("No snapshot"),
                data: RpcErrorData::Absent,
            },
            RpcCustomError::LongTermStorageSlotSkipped { slot } => {
                let mut message = string_of("Slot ");
                push_decimal(&mut message, slot);
                message.append(" was skipped, or missing in long-term storage");
                RpcError {
                    code: JSON_RPC_SERVER_ERROR_LONG_TERM_STORAGE_SLOT_SKIPPED,
                    message,
                    data: RpcErrorData::Absent,
                }
            },
            RpcCustomError::KeyExcludedFromSecondaryIndex { index_key } => {
                let mut message = string_of(index_key.as_str());
                message.append(" excluded from account secondary indexes; this RPC method unavailable for key");
                RpcError {
                    code: JSON_RPC_SERVER_ERROR_KEY_EXCLUDED_FROM_SECONDARY_INDEX,
                    message,
                    data: RpcErrorData::Absent,
                }
            },
            RpcCustomError::TransactionHistoryNotAvailable => RpcError {
                code: JSON_RPC_SERVER_ERROR_TRANSACTION_HISTORY_NOT_AVAILABLE,
                message: string_of("Transaction history is not available from this node"),
                data: RpcErrorData::Absent,
            },
            RpcCustomError::DisabledIndex(index) => {
                let mut message = string_of(
                    "Request for indexed accounts is not available from this node due disabled index: ",
                );
                message.append(index.as_str());
                RpcError { code: JSON_RPC_SERVER_ERROR_INDEX_NOT_AVALABLE, message, data: RpcErrorData::Absent }
            },
            RpcCustomError::ScanError { message } => RpcError {
                code: JSON_RPC_SCAN_ERROR,
                message,
                data: RpcErrorData::Absent,
            },
            RpcCustomError::TransactionSignatureLenMismatch => RpcError {
                code: JSON_RPC_SERVER_ERROR_TRANSACTION_SIGNATURE_LEN_MISMATCH,
                message: string_of("Transaction signature length mismatch"),
                data: RpcErrorData::Absent,
            },
            RpcCustomError::BlockStatusNotAvailableYet { slot } => {
                let mut message = string_of("Block status not yet available for slot ");
                push_decimal(&mut message, slot);
                RpcError {
                    code: JSON_RPC_SERVER_ERROR_BLOCK_STATUS_NOT_AVAILABLE_YET,
                    message,
                    data: RpcErrorData::Absent,
                }
            },
        }
    }
}


/// The code of an error depends on its variant alone, whatever it carries:
/// -32001 block cleaned up, -32002 preflight failure, -32003 signature or
/// precompile verification failure, -32004 block not available, -32005 node
/// unhealthy, -32007 slot skipped, -32008 no snapshot, -32009 slot skipped in
/// long-term storage, -32010 key excluded from secondary index, -32011 no
/// transaction history, -32101 disabled index, -32012 scan error, -32013
/// signature length mismatch, -32014 block status not yet available.
pub proof fn lemma_error_code_by_variant<R>()
    ensures
        forall|slot: Slot, first: Slot| #[trigger] spec_error_code((RpcCustomError::<R>::BlockCleanedUp { slot, first_available_block: first })) == -32001,
        forall|message: String, result: R| #[trigger] spec_error_code((RpcCustomError::<R>::SendTransactionPreflightFailure { message, result })) == -32002,
        spec_error_code(RpcCustomError::<R>::TransactionSignatureVerificationFailure) == -32003,
        forall|slot: Slot| #[trigger] spec_error_code((RpcCustomError::<R>::BlockNotAvailable { slot })) == -32004,
        forall|num_slots_behind: Option<Slot>| #[trigger] spec_error_code((RpcCustomError::<R>::NodeUnhealthy { num_slots_behind })) == -32005,
        forall|e: String| #[trigger] spec_error_code((RpcCustomError::<R>::TransactionPrecompileVerificationFailure(e))) == -32003,
        forall|slot: Slot| #[trigger] spec_error_code((RpcCustomError::<R>::SlotSkipped { slot })) == -32007,
        spec_error_code(RpcCustomError::<R>::NoSnapshot) == -32008,
        forall|slot: Slot| #[trigger] spec_error_code((RpcCustomError::<R>::LongTermStorageSlotSkipped { slot })) == -32009,
        forall|index_key: String| #[trigger] spec_error_code((RpcCustomError::<R>::KeyExcludedFromSecondaryIndex { index_key })) == -32010,
        spec_error_code(RpcCustomError::<R>::TransactionHistoryNotAvailable) == -32011,
        forall|index: String| #[trigger] spec_error_code((RpcCustomError::<R>::DisabledIndex(index))) == -32101,
        forall|message: String| #[trigger] spec_error_code((RpcCustomError::<R>::ScanError { message })) == -32012,
        spec_error_code(RpcCustomError::<R>::TransactionSignatureLenMismatch) == -32013,
        forall|slot: Slot| #[trigger] spec_error_code((RpcCustomError::<R>::BlockStatusNotAvailableYet { slot })) == -32014,
{
}

/// Which errors carry data: a failed preflight carries its simulation result,
/// an unhealthy node carries how far behind it is (known or not), every other
/// error carries none.
pub proof fn lemma_error_data_by_variant<R>(e: RpcCustomError<R>)
    ensures
        e is SendTransactionPreflightFailure ==> spec_error_data(e) == RpcErrorData::SimulationResult(
            e->result,
        ),
        e is NodeUnhealthy ==> spec_error_data(e) == RpcErrorData::<R>::NodeUnhealthy(
            NodeUnhealthyErrorData { num_slots_behind: e->num_slots_behind },
        ),
        !(e is SendTransactionPreflightFailure) && !(e is NodeUnhealthy) ==> spec_error_data(e)
            == RpcErrorData::<R>::Absent,
{
}

/// The message of an unhealthy node says how many slots it is behind when
/// that is known, and only that it is unhealthy otherwise; a failed preflight
/// and a scan error keep the message they carry.
pub proof fn lemma_error_message_by_variant<R>()
    ensures
        forall|n: Slot| #[trigger] spec_error_message((RpcCustomError::<R>::NodeUnhealthy { num_slots_behind: Some(n) }))
            == "Node is behind by "@ + decimal(n as nat) + " slots"@,
        spec_error_message((RpcCustomError::<R>::NodeUnhealthy { num_slots_behind: None })) == "Node is unhealthy"@,
        forall|message: String, result: R| #[trigger] spec_error_message((RpcCustomError::<R>::SendTransactionPreflightFailure { message, result })) == message@,
        forall|message: String| #[trigger] spec_error_message((RpcCustomError::<R>::ScanError { message })) == message@,
        forall|slot: Slot| #[trigger] spec_error_message((RpcCustomError::<R>::BlockNotAvailable { slot }))
            == "Block not available for slot "@ + decimal(slot as nat),
{
}

} // verus!
