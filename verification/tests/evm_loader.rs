use chui::address::{evm_address_for_program, H160, Pubkey};
use chui::evm_loader::{
    authorized_tx, big_tx_allocate, big_tx_allocate_old, big_tx_execute, big_tx_execute_authorized,
    big_tx_execute_old, big_tx_write, big_tx_write_old, create_evm_instruction_with_bincode,
    create_evm_instruction_with_borsh, create_state_account, evm_transfer, send_raw_tx, send_raw_tx_old,
    transfer_native_to_evm_ixs, AccountMeta, EvmBigTransaction, EvmBigTransactionV0, EvmInstruction,
    EvmInstructionV0, ExecuteTransaction, FeePayerType, Request, TransactionAction, EVM_INSTRUCTION_BORSH_PREFIX,
    EVM_LOADER_ID_BYTES, EVM_STATE_ID_BYTES, SYSTEM_PROGRAM_ID_BYTES,
};
use chui::uint::U256;

fn state_id() -> Pubkey {
    Pubkey(EVM_STATE_ID_BYTES)
}

fn loader_id() -> Pubkey {
    Pubkey(EVM_LOADER_ID_BYTES)
}

fn base(key: Pubkey) -> Vec<AccountMeta> {
    vec![
        AccountMeta { pubkey: state_id(), is_signer: false, is_writable: true },
        AccountMeta { pubkey: key, is_signer: true, is_writable: true },
    ]
}

#[test]
fn send_raw_tx_accounts_and_request() {
    let signer = Pubkey([1; 32]);
    let collector = Pubkey([2; 32]);
    let ix = send_raw_tx(signer, 99u32, Some(collector), FeePayerType::Native);
    assert_eq!(ix.program_id, loader_id());
    let mut expected = base(signer);
    expected.push(AccountMeta { pubkey: collector, is_signer: false, is_writable: true });
    assert_eq!(ix.accounts, expected);
    assert!(matches!(
        ix.request,
        Request::Evm(EvmInstruction::ExecuteTransaction {
            tx: ExecuteTransaction::Signed { tx: Some(99) },
            fee_type: FeePayerType::Native
        })
    ));
    let ix = send_raw_tx(signer, 99u32, None, FeePayerType::Evm);
    assert_eq!(ix.accounts, base(signer));
}

#[test]
fn authorized_tx_uses_program_address() {
    let sender = Pubkey([5; 32]);
    let tx = evm_transfer(H160([9; 20]), U256([3, 0, 0, 0]), U256([1000, 0, 0, 0]));
    let ix = authorized_tx::<u32>(sender, tx, FeePayerType::Evm);
    assert_eq!(ix.accounts, base(sender));
    match ix.request {
        Request::Evm(EvmInstruction::ExecuteTransaction {
            tx: ExecuteTransaction::ProgramAuthorized { tx: Some(tx), from },
            fee_type: FeePayerType::Evm,
        }) => {
            assert_eq!(from, evm_address_for_program(sender));
            assert_eq!(tx.nonce, U256([3, 0, 0, 0]));
        }
        other => panic!("unexpected request {:?}", other),
    }
}

#[test]
fn big_tx_instructions() {
    let storage = Pubkey([4; 32]);
    let ix = big_tx_allocate::<u32>(storage, 1024);
    assert_eq!(ix.accounts, base(storage));
    assert!(matches!(
        ix.request,
        Request::Evm(EvmInstruction::EvmBigTransaction(EvmBigTransaction::EvmTransactionAllocate {
            size: 1024
        }))
    ));
    let ix = big_tx_write::<u32>(storage, 16, vec![1, 2, 3]);
    match ix.request {
        Request::Evm(EvmInstruction::EvmBigTransaction(EvmBigTransaction::EvmTransactionWrite {
            offset: 16,
            data,
        })) => assert_eq!(data, vec![1, 2, 3]),
        other => panic!("unexpected request {:?}", other),
    }
    let collector = Pubkey([6; 32]);
    let ix = big_tx_execute::<u32>(storage, Some(&collector), FeePayerType::Evm);
    assert_eq!(ix.accounts.len(), 3);
    assert_eq!(ix.accounts[2], AccountMeta { pubkey: collector, is_signer: false, is_writable: true });
    assert!(matches!(
        ix.request,
        Request::Evm(EvmInstruction::ExecuteTransaction { tx: ExecuteTransaction::Signed { tx: None }, .. })
    ));
}

#[test]
fn big_tx_execute_authorized_collector() {
    let storage = Pubkey([4; 32]);
    let from = H160([8; 20]);
    let ix = big_tx_execute_authorized::<u32>(storage, from, storage, FeePayerType::Native);
    assert_eq!(ix.accounts, base(storage));
    let collector = Pubkey([6; 32]);
    let ix = big_tx_execute_authorized::<u32>(storage, from, collector, FeePayerType::Native);
    let mut expected = base(storage);
    expected.push(AccountMeta { pubkey: collector, is_signer: true, is_writable: false });
    assert_eq!(ix.accounts, expected);
}

#[test]
fn old_instructions() {
    let storage = Pubkey([4; 32]);
    let ix = send_raw_tx_old(storage, 5u32, None);
    assert!(matches!(ix.request, Request::EvmV0(EvmInstructionV0::EvmTransaction { evm_tx: 5 })));
    let ix = big_tx_allocate_old::<u32>(storage, 10);
    assert!(matches!(
        ix.request,
        Request::EvmV0(EvmInstructionV0::EvmBigTransaction(EvmBigTransactionV0::EvmTransactionAllocate {
            size: 10
        }))
    ));
    let ix = big_tx_write_old::<u32>(storage, 2, vec![7]);
    assert!(matches!(
        ix.request,
        Request::EvmV0(EvmInstructionV0::EvmBigTransaction(EvmBigTransactionV0::EvmTransactionWrite {
            offset: 2,
            ..
        }))
    ));
    let ix = big_tx_execute_old::<u32>(storage, None);
    assert_eq!(ix.accounts, base(storage));
    assert!(matches!(
        ix.request,
        Request::EvmV0(EvmInstructionV0::EvmBigTransaction(EvmBigTransactionV0::EvmTransactionExecute))
    ));
}

#[test]
fn transfer_native_to_evm_sequence() {
    let owner = Pubkey([3; 32]);
    let ixs = transfer_native_to_evm_ixs::<u32>(owner, 500, H160([1; 20]));
    assert_eq!(ixs.len(), 3);
    assert_eq!(ixs[0].program_id, Pubkey(SYSTEM_PROGRAM_ID_BYTES));
    assert_eq!(ixs[0].accounts, vec![AccountMeta { pubkey: owner, is_signer: true, is_writable: true }]);
    assert!(matches!(ixs[0].request, Request::SystemAssign { owner: o } if o == loader_id()));
    assert!(matches!(
        ixs[1].request,
        Request::Evm(EvmInstruction::SwapNativeToEther { lamports: 500, .. })
    ));
    assert!(matches!(ixs[2].request, Request::Evm(EvmInstruction::FreeOwnership)));
}

#[test]
fn framing_and_state_account() {
    let ix = create_evm_instruction_with_borsh(loader_id(), vec![1, 2], base(Pubkey([1; 32])));
    assert_eq!(ix.data, vec![EVM_INSTRUCTION_BORSH_PREFIX, 1, 2]);
    assert_eq!(EVM_INSTRUCTION_BORSH_PREFIX, 255);
    let ix = create_evm_instruction_with_bincode(loader_id(), vec![1, 2], Vec::new());
    assert_eq!(ix.data, vec![1, 2]);
    let account = create_state_account(41);
    assert_eq!(account.lamports, 42);
    assert_eq!(account.owner, loader_id());
    assert_eq!(account.data, b"Evm state".to_vec());
    assert!(!account.executable);
    assert_eq!(account.rent_epoch, 0);
}

#[test]
fn evm_transfer_fields() {
    let tx = evm_transfer(H160([2; 20]), U256([7, 0, 0, 0]), U256([5, 1, 0, 0]));
    assert_eq!(tx.nonce, U256([7, 0, 0, 0]));
    assert_eq!(tx.gas_price, U256([1, 0, 0, 0]));
    assert_eq!(tx.gas_limit, U256([21000, 0, 0, 0]));
    assert_eq!(tx.action, TransactionAction::Call(H160([2; 20])));
    assert_eq!(tx.value, U256([5, 1, 0, 0]));
    assert!(tx.input.is_empty());
}
