//! Instructions of the EVM loader program: which accounts each one takes and
//! which request it carries, the framing of its data, and the plain EVM
//! transfer transaction.
//!
//! A request is meant to be encoded with Borsh (current instructions) or
//! bincode (old ones); this project holds no encoder for it. The library
//! frames bytes that are already encoded.

use vstd::prelude::*;
use crate::address::{H160, Pubkey, evm_address_for_program, spec_evm_address_for_program};
use crate::uint::{U256, u256_from_u64};

verus! {

/// Id of the EVM loader program (`EvmLoader1111111111111111111111111111111111`).
pub const EVM_LOADER_ID_BYTES: [u8; 32] = [
    0x03, 0x91, 0x57, 0x9d, 0x10, 0x9a, 0xe7, 0x90, 0xd7, 0xcb, 0x1f, 0xd2, 0x80, 0xcf, 0xfb, 0x30,
    0xb1, 0xf6, 0xb3, 0x8a, 0xe0, 0x65, 0x2a, 0xd9, 0x01, 0xd9, 0xd2, 0x8c, 0x00, 0x00, 0x00, 0x00,
];

/// Id of the EVM state account (`EvmState11111111111111111111111111111111111`).
pub const EVM_STATE_ID_BYTES: [u8; 32] = [
    0x03, 0x91, 0x58, 0x23, 0x21, 0xfe, 0xf0, 0x5c, 0x2e, 0xda, 0xa5, 0xd1, 0x12, 0x8d, 0xc4, 0x3f,
    0xa3, 0x86, 0x04, 0x05, 0xa2, 0xd9, 0xcc, 0x22, 0x41, 0x13, 0xae, 0xd8, 0x00, 0x00, 0x00, 0x00,
];

/// Id of the EVM loader program.
pub open spec fn evm_loader_id() -> Pubkey {
    Pubkey(EVM_LOADER_ID_BYTES)
}

/// Id of the EVM state account.
pub open spec fn evm_state_id() -> Pubkey {
    Pubkey(EVM_STATE_ID_BYTES)
}

/// Id of the system program (all zero bytes).
pub const SYSTEM_PROGRAM_ID_BYTES: [u8; 32] = [
    0, 0, 0, 0, 0, 0, 0, 0, 0, 0, 0, 0, 0, 0, 0, 0,
    0, 0, 0, 0, 0, 0, 0, 0, 0, 0, 0, 0, 0, 0, 0, 0,
];

/// Id of the system program.
pub open spec fn system_program_id() -> Pubkey {
    Pubkey(SYSTEM_PROGRAM_ID_BYTES)
}

/// The byte that begins the data of every Borsh-encoded EVM instruction.
pub const EVM_INSTRUCTION_BORSH_PREFIX: u8 = 255;

/// The data of the EVM state account.
pub const EVM_STATE_ACCOUNT_DATA: [u8; 9] = [0x45, 0x76, 0x6d, 0x20, 0x73, 0x74, 0x61, 0x74, 0x65];

/// An account an instruction uses, and how.
#[derive(Clone, Copy, PartialEq, Eq, Debug)]
pub struct AccountMeta {
    pub pubkey: Pubkey,
    pub is_signer: bool,
    pub is_writable: bool,
}

impl AccountMeta {
    /// A writable account.
    pub fn new(pubkey: Pubkey, is_signer: bool) -> (r: AccountMeta)
        ensures
            r == (AccountMeta { pubkey, is_signer, is_writable: true }),
    {
        AccountMeta { pubkey, is_signer, is_writable: true }
    }

    /// A read-only account.
    pub fn new_readonly(pubkey: Pubkey, is_signer: bool) -> (r: AccountMeta)
        ensures
            r == (AccountMeta { pubkey, is_signer, is_writable: false }),
    {
        AccountMeta { pubkey, is_signer, is_writable: false }
    }
}

/// A program instruction with its data encoded.
#[derive(Debug)]
pub struct Instruction {
    pub program_id: Pubkey,
    pub accounts: Vec<AccountMeta>,
    pub data: Vec<u8>,
}

/// Who pays the fee of an EVM transaction.
#[derive(Clone, Copy, PartialEq, Eq, Debug)]
pub enum FeePayerType {
    Evm,
    Native,
}

/// What an EVM transaction does: call an address or create a contract.
#[derive(Clone, Copy, PartialEq, Eq, Debug)]
pub enum TransactionAction {
    Call(H160),
    Create,
}

/// An EVM transaction before it is signed.
#[derive(Debug)]
pub struct UnsignedTransaction {
    pub nonce: U256,
    pub gas_price: U256,
    pub gas_limit: U256,
    pub action: TransactionAction,
    pub value: U256,
    pub input: Vec<u8>,
}

/// Steps of a transaction too big for one instruction.
#[derive(Debug)]
pub enum EvmBigTransaction {
    EvmTransactionAllocate { size: u64 },
    EvmTransactionWrite { offset: u64, data: Vec<u8> },
}

/// The transaction an `ExecuteTransaction` instruction runs; `None` means the
/// one stored by big-transaction steps. `Tx` is a signed EVM transaction.
#[derive(Debug)]
#[allow(inconsistent_fields)]
pub enum ExecuteTransaction<Tx> {
    Signed { tx: Option<Tx> },
    ProgramAuthorized { tx: Option<UnsignedTransaction>, from: H160 },
}

/// Requests of the EVM loader program.
#[derive(Debug)]
pub enum EvmInstruction<Tx> {
    SwapNativeToEther { lamports: u64, evm_address: H160 },
    FreeOwnership,
    EvmBigTransaction(EvmBigTransaction),
    ExecuteTransaction { tx: ExecuteTransaction<Tx>, fee_type: FeePayerType },
}

/// Steps of a big transaction, in the old (bincode) instruction set.
#[derive(Debug)]
pub enum EvmBigTransactionV0 {
    EvmTransactionAllocate { size: u64 },
    EvmTransactionWrite { offset: u64, data: Vec<u8> },
    EvmTransactionExecute,
}

/// Requests of the EVM loader program, old (bincode) instruction set.
#[derive(Debug)]
pub enum EvmInstructionV0<Tx> {
    EvmTransaction { evm_tx: Tx },
    EvmBigTransaction(EvmBigTransactionV0),
}

/// The request an instruction carries, before it is encoded.
#[derive(Debug)]
pub enum Request<Tx> {
    /// An EVM loader request, encoded with Borsh and framed by
    /// `create_evm_instruction_with_borsh`.
    Evm(EvmInstruction<Tx>),
    /// An old EVM loader request, encoded with bincode.
    EvmV0(EvmInstructionV0<Tx>),
    /// A system program request to assign the account to `owner`, encoded
    /// with bincode.
    SystemAssign { owner: Pubkey },
}

/// An instruction whose request is still to be encoded.
#[derive(Debug)]
pub struct PlannedInstruction<Tx> {
    pub program_id: Pubkey,
    pub accounts: Vec<AccountMeta>,
    pub request: Request<Tx>,
}

/// An account, as it is created.
#[derive(Debug)]
pub struct Account {
    pub lamports: u64,
    pub data: Vec<u8>,
    pub owner: Pubkey,
    pub executable: bool,
    pub rent_epoch: u64,
}

/// The accounts every EVM loader instruction starts with: the EVM state
/// (writable) and the account `key` (writable, signing).
pub open spec fn evm_accounts(key: Pubkey) -> Seq<AccountMeta> {
    seq![
        AccountMeta { pubkey: evm_state_id(), is_signer: false, is_writable: true },
        AccountMeta { pubkey: key, is_signer: true, is_writable: true },
    ]
}

/// `evm_accounts(key)` followed by a gas collector, if there is one
/// (writable, not signing).
pub open spec fn evm_accounts_with_collector(key: Pubkey, gas_collector: Option<Pubkey>) -> Seq<AccountMeta> {
    match gas_collector {
        Some(g) => evm_accounts(key).push(AccountMeta { pubkey: g, is_signer: false, is_writable: true }),
        None => evm_accounts(key),
    }
}

/// The accounts of an authorized big-transaction execution: the collector
/// signs (read-only) unless it is the storage account itself.
pub open spec fn authorized_execute_accounts(storage: Pubkey, gas_collector: Pubkey) -> Seq<AccountMeta> {
    if gas_collector != storage {
        evm_accounts(storage).push(AccountMeta { pubkey: gas_collector, is_signer: true, is_writable: false })
    } else {
        evm_accounts(storage)
    }
}

fn evm_account_metas(key: Pubkey) -> (r: Vec<AccountMeta>)
    ensures
        r@ == evm_accounts(key),
{
    let r = vec![AccountMeta::new(Pubkey(EVM_STATE_ID_BYTES), false), AccountMeta::new(key, true)];
    assert(r@ =~= evm_accounts(key));
    r
}

/// Frame the Borsh encoding of an EVM instruction: its data is the encoding
/// with `EVM_INSTRUCTION_BORSH_PREFIX` in front, marking Borsh encoding.
pub fn create_evm_instruction_with_borsh(program_id: Pubkey, encoded: Vec<u8>, accounts: Vec<AccountMeta>) -> (r: Instruction)
    ensures
        r.program_id == program_id,
        r.accounts@ == accounts@,
        r.data@ == seq![EVM_INSTRUCTION_BORSH_PREFIX] + encoded@,
{
    let mut data = encoded;
    data.insert(0, EVM_INSTRUCTION_BORSH_PREFIX);
    assert(data@ =~= seq![EVM_INSTRUCTION_BORSH_PREFIX] + encoded@);
    Instruction { program_id, accounts, data }
}

/// An instruction of the old instruction set: its data is the bincode
/// encoding as it is.
pub fn create_evm_instruction_with_bincode(program_id: Pubkey, encoded: Vec<u8>, accounts: Vec<AccountMeta>) -> (r: Instruction)
    ensures
        r.program_id == program_id,
        r.accounts@ == accounts@,
        r.data@ == encoded@,
{
    Instruction { program_id, accounts, data: encoded }
}

/// Execute a signed EVM transaction, paying gas to `gas_collector` if given.
pub fn send_raw_tx<Tx>(
    signer: Pubkey,
    evm_tx: Tx,
    gas_collector: Option<Pubkey>,
    fee_type: FeePayerType,
) -> (r: PlannedInstruction<Tx>)
    ensures
        r.program_id == evm_loader_id(),
        r.accounts@ == evm_accounts_with_collector(signer, gas_collector),
        r.accounts@.len() == if gas_collector is Some { 3nat } else { 2nat },
        gas_collector is Some ==> r.accounts@[2].pubkey == gas_collector->0,
        r.request == Request::Evm(
            EvmInstruction::ExecuteTransaction {
                tx: ExecuteTransaction::Signed { tx: Some(evm_tx) },
                fee_type,
            },
        ),
{
    let mut account_metas = evm_account_metas(signer);
    if let Some(gas_collector) = gas_collector {
        account_metas.push(AccountMeta::new(gas_collector, false));
    }
    PlannedInstruction {
        program_id: Pubkey(EVM_LOADER_ID_BYTES),
        accounts: account_metas,
        request: Request::Evm(
            EvmInstruction::ExecuteTransaction {
                tx: ExecuteTransaction::Signed { tx: Some(evm_tx) },
                fee_type,
            },
        ),
    }
}

/// Execute an unsigned EVM transaction on behalf of the native account
/// `sender`, from the EVM address that stands for it.
pub fn authorized_tx<Tx>(
    sender: Pubkey,
    unsigned_tx: UnsignedTransaction,
    fee_type: FeePayerType,
) -> (r: PlannedInstruction<Tx>)
    ensures
        r.program_id == evm_loader_id(),
        r.accounts@ == evm_accounts(sender),
        match r.request {
            Request::Evm(
                EvmInstruction::ExecuteTransaction {
                    tx: ExecuteTransaction::ProgramAuthorized { tx: Some(tx), from },
                    fee_type: f,
                },
            ) => tx == unsigned_tx && from.0@ == spec_evm_address_for_program(sender.0@) && f == fee_type,
            _ => false,
        },
{
    let account_metas = evm_account_metas(sender);
    let from = evm_address_for_program(sender);
    PlannedInstruction {
        program_id: Pubkey(EVM_LOADER_ID_BYTES),
        accounts: account_metas,
        request: Request::Evm(
            EvmInstruction::ExecuteTransaction {
                tx: ExecuteTransaction::ProgramAuthorized { tx: Some(unsigned_tx), from },
                fee_type,
            },
        ),
    }
}

/// Swap `lamports` of `owner` for ether credited to `evm_address`.
pub fn transfer_native_to_evm<Tx>(owner: Pubkey, lamports: u64, evm_address: H160) -> (r: PlannedInstruction<Tx>)
    ensures
        r.program_id == evm_loader_id(),
        r.accounts@ == evm_accounts(owner),
        r.request == (Request::<Tx>::Evm(EvmInstruction::SwapNativeToEther { lamports, evm_address })),
{
    PlannedInstruction {
        program_id: Pubkey(EVM_LOADER_ID_BYTES),
        accounts: evm_account_metas(owner),
        request: Request::Evm(EvmInstruction::SwapNativeToEther { lamports, evm_address }),
    }
}

/// Give up the EVM loader's ownership of `owner`.
pub fn free_ownership<Tx>(owner: Pubkey) -> (r: PlannedInstruction<Tx>)
    ensures
        r.program_id == evm_loader_id(),
        r.accounts@ == evm_accounts(owner),
        r.request == Request::<Tx>::Evm(EvmInstruction::FreeOwnership),
{
    PlannedInstruction {
        program_id: Pubkey(EVM_LOADER_ID_BYTES),
        accounts: evm_account_metas(owner),
        request: Request::Evm(EvmInstruction::FreeOwnership),
    }
}

/// Allocate `size` bytes in `storage` for a big transaction.
pub fn big_tx_allocate<Tx>(storage: Pubkey, size: usize) -> (r: PlannedInstruction<Tx>)
    ensures
        r.program_id == evm_loader_id(),
        r.accounts@ == evm_accounts(storage),
        match r.request {
            Request::Evm(
                EvmInstruction::EvmBigTransaction(EvmBigTransaction::EvmTransactionAllocate { size: s }),
            ) => s == size,
            _ => false,
        },
{
    let big_tx = EvmBigTransaction::EvmTransactionAllocate { size: size as u64 };
    PlannedInstruction {
        program_id: Pubkey(EVM_LOADER_ID_BYTES),
        accounts: evm_account_metas(storage),
        request: Request::Evm(EvmInstruction::EvmBigTransaction(big_tx)),
    }
}

/// Write `chunk` at `offset` of the big transaction held by `storage`.
pub fn big_tx_write<Tx>(storage: Pubkey, offset: u64, chunk: Vec<u8>) -> (r: PlannedInstruction<Tx>)
    ensures
        r.program_id == evm_loader_id(),
        r.accounts@ == evm_accounts(storage),
        match r.request {
            Request::Evm(
                EvmInstruction::EvmBigTransaction(EvmBigTransaction::EvmTransactionWrite { offset: o, data }),
            ) => o == offset && data@ == chunk@,
            _ => false,
        },
{
    let big_tx = EvmBigTransaction::EvmTransactionWrite { offset, data: chunk };
    PlannedInstruction {
        program_id: Pubkey(EVM_LOADER_ID_BYTES),
        accounts: evm_account_metas(storage),
        request: Request::Evm(EvmInstruction::EvmBigTransaction(big_tx)),
    }
}

/// Execute the signed transaction stored in `storage`, paying gas to
/// `gas_collector` if given.
pub fn big_tx_execute<Tx>(
    storage: Pubkey,
    gas_collector: Option<&Pubkey>,
    fee_type: FeePayerType,
) -> (r: PlannedInstruction<Tx>)
    ensures
        r.program_id == evm_loader_id(),
        r.accounts@ == evm_accounts_with_collector(
            storage,
            match gas_collector {
                Some(g) => Some(*g),
                None => None,
            },
        ),
        r.accounts@.len() == if gas_collector is Some { 3nat } else { 2nat },
        gas_collector is Some ==> r.accounts@[2].pubkey == *gas_collector->0,
        r.request == Request::<Tx>::Evm(
            EvmInstruction::ExecuteTransaction { tx: ExecuteTransaction::Signed { tx: None }, fee_type },
        ),
{
    let mut account_metas = evm_account_metas(storage);
    if let Some(gas_collector) = gas_collector {
        account_metas.push(AccountMeta::new(*gas_collector, false));
    }
    PlannedInstruction {
        program_id: Pubkey(EVM_LOADER_ID_BYTES),
        accounts: account_metas,
        request: Request::Evm(
            EvmInstruction::ExecuteTransaction { tx: ExecuteTransaction::Signed { tx: None }, fee_type },
        ),
    }
}

/// Execute the unsigned transaction stored in `storage` from the EVM address
/// `from`; a gas collector other than the storage account signs it.
pub fn big_tx_execute_authorized<Tx>(
    storage: Pubkey,
    from: H160,
    gas_collector: Pubkey,
    fee_type: FeePayerType,
) -> (r: PlannedInstruction<Tx>)
    ensures
        r.program_id == evm_loader_id(),
        r.accounts@ == authorized_execute_accounts(storage, gas_collector),
        match r.request {
            Request::Evm(
                EvmInstruction::ExecuteTransaction {
                    tx: ExecuteTransaction::ProgramAuthorized { tx: None, from: f },
                    fee_type: t,
                },
            ) => f == from && t == fee_type,
            _ => false,
        },
{
    let mut account_metas = evm_account_metas(storage);
    if !gas_collector.same_as(&storage) {
        account_metas.push(AccountMeta::new_readonly(gas_collector, true));
    }
    PlannedInstruction {
        program_id: Pubkey(EVM_LOADER_ID_BYTES),
        accounts: account_metas,
        request: Request::Evm(
            EvmInstruction::ExecuteTransaction {
                tx: ExecuteTransaction::ProgramAuthorized { tx: None, from },
                fee_type,
            },
        ),
    }
}

/// The instructions that move `lamports` of `owner` into the EVM account
/// `ether_address`: assign `owner` to the EVM loader, swap, give the
/// ownership back.
pub fn transfer_native_to_evm_ixs<Tx>(owner: Pubkey, lamports: u64, ether_address: H160) -> (r: Vec<PlannedInstruction<Tx>>)
    ensures
        r@.len() == 3,
        r@[0].program_id == system_program_id(),
        r@[0].accounts@ == seq![(AccountMeta { pubkey: owner, is_signer: true, is_writable: true })],
        r@[0].request == (Request::<Tx>::SystemAssign { owner: evm_loader_id() }),
        r@[1].program_id == evm_loader_id(),
        r@[1].accounts@ == evm_accounts(owner),
        r@[1].request == (Request::<Tx>::Evm(EvmInstruction::SwapNativeToEther { lamports, evm_address: ether_address })),
        r@[2].program_id == evm_loader_id(),
        r@[2].accounts@ == evm_accounts(owner),
        r@[2].request == Request::<Tx>::Evm(EvmInstruction::FreeOwnership),
{
    let assign = PlannedInstruction {
        program_id: Pubkey(SYSTEM_PROGRAM_ID_BYTES),
        accounts: vec![AccountMeta::new(owner, true)],
        request: Request::SystemAssign { owner: Pubkey(EVM_LOADER_ID_BYTES) },
    };
    let r = vec![assign, transfer_native_to_evm(owner, lamports, ether_address), free_ownership(owner)];
    r
}

/// Create an account that represents the count of lamports locked in the EVM.
pub fn create_state_account(lamports: u64) -> (r: Account)
    requires
        lamports < u64::MAX,
    ensures
        r.lamports == lamports + 1,
        r.owner == evm_loader_id(),
        r.data@ == EVM_STATE_ACCOUNT_DATA@,
        !r.executable,
        r.rent_epoch == 0,
{
    let data = vstd::slice::slice_to_vec(EVM_STATE_ACCOUNT_DATA.as_slice());
    Account { lamports: lamports + 1, owner: Pubkey(EVM_LOADER_ID_BYTES), data, executable: false, rent_epoch: 0 }
}

/// A plain transfer of `value` to `to`: nonce `nonce`, gas price 1, gas limit
/// 21000, no input. Signing it is left to the caller.
pub fn evm_transfer(to: H160, nonce: U256, value: U256) -> (r: UnsignedTransaction)
    ensures
        r.nonce == nonce,
        r.gas_price@ == 1,
        r.gas_limit@ == 21000,
        r.action == TransactionAction::Call(to),
        r.value == value,
        r.input@.len() == 0,
{
    UnsignedTransaction {
        nonce,
        gas_price: u256_from_u64(1),
        gas_limit: u256_from_u64(21000),
        action: TransactionAction::Call(to),
        value,
        input: Vec::new(),
    }
}

// Old instructions of the EVM bridge (bincode encoded).

/// Execute a signed EVM transaction (old instruction set).
pub fn send_raw_tx_old<Tx>(signer: Pubkey, evm_tx: Tx, gas_collector: Option<Pubkey>) -> (r: PlannedInstruction<Tx>)
    ensures
        r.program_id == evm_loader_id(),
        r.accounts@ == evm_accounts_with_collector(signer, gas_collector),
        r.accounts@.len() == if gas_collector is Some { 3nat } else { 2nat },
        gas_collector is Some ==> r.accounts@[2].pubkey == gas_collector->0,
        r.request == Request::EvmV0(EvmInstructionV0::EvmTransaction { evm_tx }),
{
    let mut account_metas = evm_account_metas(signer);
    if let Some(gas_collector) = gas_collector {
        account_metas.push(AccountMeta::new(gas_collector, false));
    }
    PlannedInstruction {
        program_id: Pubkey(EVM_LOADER_ID_BYTES),
        accounts: account_metas,
        request: Request::EvmV0(EvmInstructionV0::EvmTransaction { evm_tx }),
    }
}

/// Allocate `size` bytes for a big transaction (old instruction set).
pub fn big_tx_allocate_old<Tx>(storage: Pubkey, size: usize) -> (r: PlannedInstruction<Tx>)
    ensures
        r.program_id == evm_loader_id(),
        r.accounts@ == evm_accounts(storage),
        match r.request {
            Request::EvmV0(
                EvmInstructionV0::EvmBigTransaction(EvmBigTransactionV0::EvmTransactionAllocate { size: s }),
            ) => s == size,
            _ => false,
        },
{
    let big_tx = EvmBigTransactionV0::EvmTransactionAllocate { size: size as u64 };
    PlannedInstruction {
        program_id: Pubkey(EVM_LOADER_ID_BYTES),
        accounts: evm_account_metas(storage),
        request: Request::EvmV0(EvmInstructionV0::EvmBigTransaction(big_tx)),
    }
}

/// Write `chunk` at `offset` of a big transaction (old instruction set).
pub fn big_tx_write_old<Tx>(storage: Pubkey, offset: u64, chunk: Vec<u8>) -> (r: PlannedInstruction<Tx>)
    ensures
        r.program_id == evm_loader_id(),
        r.accounts@ == evm_accounts(storage),
        match r.request {
            Request::EvmV0(
                EvmInstructionV0::EvmBigTransaction(EvmBigTransactionV0::EvmTransactionWrite { offset: o, data }),
            ) => o == offset && data@ == chunk@,
            _ => false,
        },
{
    let big_tx = EvmBigTransactionV0::EvmTransactionWrite { offset, data: chunk };
    PlannedInstruction {
        program_id: Pubkey(EVM_LOADER_ID_BYTES),
        accounts: evm_account_metas(storage),
        request: Request::EvmV0(EvmInstructionV0::EvmBigTransaction(big_tx)),
    }
}

/// Execute the stored big transaction (old instruction set), paying gas to
/// `gas_collector` if given.
pub fn big_tx_execute_old<Tx>(storage: Pubkey, gas_collector: Option<&Pubkey>) -> (r: PlannedInstruction<Tx>)
    ensures
        r.program_id == evm_loader_id(),
        r.accounts@ == evm_accounts_with_collector(
            storage,
            match gas_collector {
                Some(g) => Some(*g),
                None => None,
            },
        ),
        r.accounts@.len() == if gas_collector is Some { 3nat } else { 2nat },
        gas_collector is Some ==> r.accounts@[2].pubkey == *gas_collector->0,
        r.request == Request::<Tx>::EvmV0(
            EvmInstructionV0::EvmBigTransaction(EvmBigTransactionV0::EvmTransactionExecute),
        ),
{
    let mut account_metas = evm_account_metas(storage);
    if let Some(gas_collector) = gas_collector {
        account_metas.push(AccountMeta::new(*gas_collector, false));
    }
    PlannedInstruction {
        program_id: Pubkey(EVM_LOADER_ID_BYTES),
        accounts: account_metas,
        request: Request::EvmV0(EvmInstructionV0::EvmBigTransaction(EvmBigTransactionV0::EvmTransactionExecute)),
    }
}


/// Every EVM loader instruction starts with two accounts: the EVM state
/// (writable, not signing), then the given key (writable, signing). A gas
/// collector, when one is given, always comes third (writable, not signing),
/// even when it is the key itself; without one there are just the two.
pub proof fn lemma_gas_collector_accounts(key: Pubkey, gas_collector: Option<Pubkey>)
    ensures
        evm_accounts(key).len() == 2,
        evm_accounts(key)[0].pubkey == evm_state_id(),
        !evm_accounts(key)[0].is_signer && evm_accounts(key)[0].is_writable,
        evm_accounts(key)[1].pubkey == key,
        evm_accounts(key)[1].is_signer && evm_accounts(key)[1].is_writable,
        gas_collector is None ==> evm_accounts_with_collector(key, gas_collector) == evm_accounts(key),
        gas_collector is Some ==> {
            &&& evm_accounts_with_collector(key, gas_collector).len() == 3
            &&& evm_accounts_with_collector(key, gas_collector).subrange(0, 2) == evm_accounts(key)
            &&& evm_accounts_with_collector(key, gas_collector)[2].pubkey == gas_collector->0
            &&& !evm_accounts_with_collector(key, gas_collector)[2].is_signer
            &&& evm_accounts_with_collector(key, gas_collector)[2].is_writable
        },
{
    assert(evm_accounts_with_collector(key, gas_collector).subrange(0, 2) =~= evm_accounts(key)) by {
        if gas_collector is Some {
            assert(evm_accounts_with_collector(key, gas_collector).subrange(0, 2) =~= evm_accounts(key));
        }
    }
}

/// An authorized execution of a stored transaction takes the storage
/// account's two accounts, and a third, read-only and signing, exactly when
/// the gas collector is another account.
pub proof fn lemma_authorized_execute_accounts(storage: Pubkey, gas_collector: Pubkey)
    ensures
        authorized_execute_accounts(storage, gas_collector).subrange(0, 2) == evm_accounts(storage),
        gas_collector == storage ==> authorized_execute_accounts(storage, gas_collector).len() == 2,
        gas_collector != storage ==> {
            &&& authorized_execute_accounts(storage, gas_collector).len() == 3
            &&& authorized_execute_accounts(storage, gas_collector)[2].pubkey == gas_collector
            &&& authorized_execute_accounts(storage, gas_collector)[2].is_signer
            &&& !authorized_execute_accounts(storage, gas_collector)[2].is_writable
        },
{
    assert(authorized_execute_accounts(storage, gas_collector).subrange(0, 2) =~= evm_accounts(storage));
}

} // verus!
