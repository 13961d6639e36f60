use chui::decimal::u64_to_decimal;
use chui::rpc_custom_error::{
    NodeUnhealthyErrorData, RpcCustomError, RpcErrorData, JSON_RPC_SERVER_ERROR_SEND_TRANSACTION_PREFLIGHT_FAILURE,
};

fn err(e: RpcCustomError<u32>) -> (i64, String, String) {
    let r = e.into_rpc_error();
    (r.code, r.message, format!("{:?}", r.data))
}

#[test]
fn decimal_rendering() {
    assert_eq!(u64_to_decimal(0), "0");
    assert_eq!(u64_to_decimal(7), "7");
    assert_eq!(u64_to_decimal(10), "10");
    assert_eq!(u64_to_decimal(1234567890), "1234567890");
    assert_eq!(u64_to_decimal(u64::MAX), u64::MAX.to_string());
}

#[test]
fn block_errors() {
    assert_eq!(
        err(RpcCustomError::BlockCleanedUp { slot: 5, first_available_block: 17 }),
        (
            -32001,
            "Block 5 cleaned up, does not exist on node. First available block: 17".to_string(),
            "Absent".to_string()
        )
    );
    assert_eq!(
        err(RpcCustomError::BlockNotAvailable { slot: 42 }).1,
        "Block not available for slot 42"
    );
    assert_eq!(err(RpcCustomError::BlockNotAvailable { slot: 42 }).0, -32004);
    assert_eq!(
        err(RpcCustomError::BlockStatusNotAvailableYet { slot: 9 }),
        (-32014, "Block status not yet available for slot 9".to_string(), "Absent".to_string())
    );
}

#[test]
fn preflight_failure_keeps_message_and_result() {
    let r = RpcCustomError::SendTransactionPreflightFailure { message: "boom".to_string(), result: 77u32 }
        .into_rpc_error();
    assert_eq!(r.code, JSON_RPC_SERVER_ERROR_SEND_TRANSACTION_PREFLIGHT_FAILURE);
    assert_eq!(r.message, "boom");
    assert!(matches!(r.data, RpcErrorData::SimulationResult(77)));
}

#[test]
fn node_unhealthy_messages_and_data() {
    let r = RpcCustomError::<u32>::NodeUnhealthy { num_slots_behind: Some(12) }.into_rpc_error();
    assert_eq!(r.code, -32005);
    assert_eq!(r.message, "Node is behind by 12 slots");
    assert!(matches!(
        r.data,
        RpcErrorData::NodeUnhealthy(NodeUnhealthyErrorData { num_slots_behind: Some(12) })
    ));
    let r = RpcCustomError::<u32>::NodeUnhealthy { num_slots_behind: None }.into_rpc_error();
    assert_eq!(r.message, "Node is unhealthy");
    assert!(matches!(
        r.data,
        RpcErrorData::NodeUnhealthy(NodeUnhealthyErrorData { num_slots_behind: None })
    ));
}

#[test]
fn signature_and_precompile_errors() {
    assert_eq!(
        err(RpcCustomError::TransactionSignatureVerificationFailure),
        (-32003, "Transaction signature verification failure".to_string(), "Absent".to_string())
    );
    assert_eq!(
        err(RpcCustomError::TransactionPrecompileVerificationFailure("InvalidAccountIndex".to_string())),
        (
            -32003,
            "Transaction precompile verification failure InvalidAccountIndex".to_string(),
            "Absent".to_string()
        )
    );
    assert_eq!(
        err(RpcCustomError::TransactionSignatureLenMismatch),
        (-32013, "Transaction signature length mismatch".to_string(), "Absent".to_string())
    );
}

#[test]
fn slot_and_storage_errors() {
    assert_eq!(
        err(RpcCustomError::SlotSkipped { slot: 3 }).1,
        "Slot 3 was skipped, or missing due to ledger jump to recent snapshot"
    );
    assert_eq!(err(RpcCustomError::SlotSkipped { slot: 3 }).0, -32007);
    assert_eq!(err(RpcCustomError::NoSnapshot), (-32008, "No snapshot".to_string(), "Absent".to_string()));
    assert_eq!(
        err(RpcCustomError::LongTermStorageSlotSkipped { slot: 1000 }),
        (
            -32009,
            "Slot 1000 was skipped, or missing in long-term storage".to_string(),
            "Absent".to_string()
        )
    );
    assert_eq!(
        err(RpcCustomError::TransactionHistoryNotAvailable),
        (-32011, "Transaction history is not available from this node".to_string(), "Absent".to_string())
    );
}

#[test]
fn index_and_scan_errors() {
    assert_eq!(
        err(RpcCustomError::KeyExcludedFromSecondaryIndex { index_key: "abc".to_string() }),
        (
            -32010,
            "abc excluded from account secondary indexes; this RPC method unavailable for key".to_string(),
            "Absent".to_string()
        )
    );
    assert_eq!(
        err(RpcCustomError::DisabledIndex("spl".to_string())),
        (
            -32101,
            "Request for indexed accounts is not available from this node due disabled index: spl".to_string(),
            "Absent".to_string()
        )
    );
    assert_eq!(
        err(RpcCustomError::ScanError { message: "scan failed".to_string() }),
        (-32012, "scan failed".to_string(), "Absent".to_string())
    );
}
