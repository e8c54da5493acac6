//! The messages of the exercise contract: one variant for each thing that
//! it can be asked to do to the bridge.

use vstd::prelude::*;
use crate::types::HumanAddr;

verus! {

/// What the contract can be asked to do on instantiation.
#[derive(Clone, Debug, PartialEq, Eq)]
pub enum InitMsg {
    Nop {  },
    Callback { contract_addr: HumanAddr, code_hash: String },
    CallbackContractError { contract_addr: HumanAddr, code_hash: String },
    ContractError { error_type: String },
    NoLogs {  },
    CallbackToInit { code_id: u64, code_hash: String },
    CallbackBadParams { contract_addr: HumanAddr, code_hash: String },
    Panic {  },
}

/// What the contract can be asked to do in a call.
#[derive(Clone, Debug, PartialEq, Eq)]
pub enum HandleMsg {
    A { contract_addr: HumanAddr, code_hash: String, x: u8, y: u8 },
    B { contract_addr: HumanAddr, code_hash: String, x: u8, y: u8 },
    C { x: u8, y: u8 },
    UnicodeData {  },
    EmptyLogKeyValue {  },
    EmptyData {  },
    NoData {  },
    ContractError { error_type: String },
    NoLogs {  },
    CallbackToInit { code_id: u64, code_hash: String },
    CallbackContractError { contract_addr: HumanAddr, code_hash: String },
    CallbackBadParams { contract_addr: HumanAddr, code_hash: String },
    SetState { key: String, value: String },
    GetState { key: String },
    RemoveState { key: String },
    TestCanonicalizeAddressErrors {  },
    Panic {  },
    AllocateOnHeap { bytes: u32 },
    PassNullPointerToImportsShouldThrow { pass_type: String },
    SendExternalQuery { to: HumanAddr, code_hash: String },
    SendExternalQueryPanic { to: HumanAddr, code_hash: String },
    SendExternalQueryError { to: HumanAddr, code_hash: String },
    SendExternalQueryBadAbi { to: HumanAddr, code_hash: String },
    SendExternalQueryBadAbiReceiver { to: HumanAddr, code_hash: String },
    LogMsgSender {  },
    CallbackToLogMsgSender { to: HumanAddr, code_hash: String },
    DepositToContract {  },
    SendFunds { amount: u32, denom: String, to: HumanAddr, from: HumanAddr },
    SendFundsToInitCallback { amount: u32, denom: String, code_id: u64 },
    SendFundsToExecCallback { amount: u32, denom: String, to: HumanAddr },
}

/// What the contract can be asked in a query.
#[derive(Clone, Debug, PartialEq, Eq)]
pub enum QueryMsg {
    ContractError { error_type: String },
    Panic {  },
    ReceiveExternalQuery { num: u8 },
    SendExternalQueryInfiniteLoop { to: HumanAddr, code_hash: String },
    WriteToStorage {  },
    RemoveFromStorage {  },
}

/// The contract takes nothing with its migration.
#[derive(Clone, Copy, Debug, PartialEq, Eq)]
pub enum MigrateMsg {
    Migrate {  },
}

} // verus!
