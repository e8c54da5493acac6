//! The values that a contract takes and gives: addresses, coins, the
//! messages it asks the chain to send, its responses and its errors.

use vstd::prelude::*;

verus! {

/// Raw bytes.
#[derive(Clone, Debug, PartialEq, Eq)]
pub struct Binary(pub Vec<u8>);

impl View for Binary {
    type V = Seq<u8>;

    open spec fn view(&self) -> Seq<u8> {
        self.0@
    }
}

/// An address as people write it.
#[derive(Clone, Debug, PartialEq, Eq)]
pub struct HumanAddr(pub String);

impl View for HumanAddr {
    type V = Seq<char>;

    open spec fn view(&self) -> Seq<char> {
        self.0@
    }
}

/// An address as the chain stores it.
#[derive(Clone, Debug, PartialEq, Eq)]
pub struct CanonicalAddr(pub Binary);

impl View for CanonicalAddr {
    type V = Seq<u8>;

    open spec fn view(&self) -> Seq<u8> {
        self.0@
    }
}

/// An amount of tokens.
#[derive(Clone, Copy, Debug, PartialEq, Eq)]
pub struct Uint128(pub u128);

/// An amount of one denomination.
#[derive(Clone, Debug, PartialEq, Eq)]
pub struct Coin {
    pub denom: String,
    pub amount: Uint128,
}

/// A coin as plain values.
pub struct CoinView {
    pub denom: Seq<char>,
    pub amount: u128,
}

impl View for Coin {
    type V = CoinView;

    open spec fn view(&self) -> CoinView {
        CoinView { denom: self.denom@, amount: self.amount.0 }
    }
}

/// The views of a list of coins.
pub open spec fn coin_views(coins: Seq<Coin>) -> Seq<CoinView> {
    coins.map_values(|coin: Coin| coin@)
}

/// A key and a value for the transaction's log.
#[derive(Clone, Debug, PartialEq, Eq)]
pub struct LogAttribute {
    pub key: String,
    pub value: String,
}

/// A log attribute as plain values.
pub struct LogAttributeView {
    pub key: Seq<char>,
    pub value: Seq<char>,
}

impl View for LogAttribute {
    type V = LogAttributeView;

    open spec fn view(&self) -> LogAttributeView {
        LogAttributeView { key: self.key@, value: self.value@ }
    }
}

/// The log attribute with the given key and value.
pub open spec fn log_view(key: &str, value: &str) -> LogAttributeView {
    LogAttributeView { key: key@, value: value@ }
}

/// Makes a log attribute.
pub fn log(key: &str, value: &str) -> (attribute: LogAttribute)
    ensures
        attribute@ == log_view(key, value),
{
    LogAttribute { key: key.to_owned(), value: value.to_owned() }
}

/// A transfer of tokens.
#[derive(Clone, Debug, PartialEq, Eq)]
pub enum BankMsg {
    Send { from_address: HumanAddr, to_address: HumanAddr, amount: Vec<Coin> },
}

/// A call to a contract, or the making of one.
#[derive(Clone, Debug, PartialEq, Eq)]
pub enum WasmMsg {
    Execute { contract_addr: HumanAddr, callback_code_hash: String, msg: Binary, send: Vec<Coin> },
    Instantiate {
        code_id: u64,
        callback_code_hash: String,
        msg: Binary,
        send: Vec<Coin>,
        label: Option<String>,
    },
}

/// A message that a contract asks the chain to send for it.
#[derive(Clone, Debug, PartialEq, Eq)]
pub enum CosmosMsg {
    Bank(BankMsg),
    Wasm(WasmMsg),
}

/// A message as plain values.
pub enum CosmosMsgView {
    Send { from_address: Seq<char>, to_address: Seq<char>, amount: Seq<CoinView> },
    Execute {
        contract_addr: Seq<char>,
        callback_code_hash: Seq<char>,
        msg: Seq<u8>,
        send: Seq<CoinView>,
    },
    Instantiate {
        code_id: u64,
        callback_code_hash: Seq<char>,
        msg: Seq<u8>,
        send: Seq<CoinView>,
        label: Option<Seq<char>>,
    },
}

impl View for CosmosMsg {
    type V = CosmosMsgView;

    open spec fn view(&self) -> CosmosMsgView {
        match self {
            CosmosMsg::Bank(BankMsg::Send { from_address, to_address, amount }) => {
                CosmosMsgView::Send {
                    from_address: from_address@,
                    to_address: to_address@,
                    amount: coin_views(amount@),
                }
            },
            CosmosMsg::Wasm(WasmMsg::Execute { contract_addr, callback_code_hash, msg, send }) => {
                CosmosMsgView::Execute {
                    contract_addr: contract_addr@,
                    callback_code_hash: callback_code_hash@,
                    msg: msg@,
                    send: coin_views(send@),
                }
            },
            CosmosMsg::Wasm(
                WasmMsg::Instantiate { code_id, callback_code_hash, msg, send, label },
            ) => {
                CosmosMsgView::Instantiate {
                    code_id: *code_id,
                    callback_code_hash: callback_code_hash@,
                    msg: msg@,
                    send: coin_views(send@),
                    label: match label {
                        Some(text) => Some(text@),
                        None => None,
                    },
                }
            },
        }
    }
}

/// The views of a list of messages.
pub open spec fn message_views(messages: Seq<CosmosMsg>) -> Seq<CosmosMsgView> {
    messages.map_values(|message: CosmosMsg| message@)
}

/// The views of a list of log attributes.
pub open spec fn log_views(log: Seq<LogAttribute>) -> Seq<LogAttributeView> {
    log.map_values(|attribute: LogAttribute| attribute@)
}

/// What a contract answers to its instantiation.
#[derive(Clone, Debug, PartialEq, Eq)]
pub struct InitResponse {
    pub messages: Vec<CosmosMsg>,
    pub log: Vec<LogAttribute>,
}

/// An answer to an instantiation as plain values.
pub struct InitResponseView {
    pub messages: Seq<CosmosMsgView>,
    pub log: Seq<LogAttributeView>,
}

impl View for InitResponse {
    type V = InitResponseView;

    open spec fn view(&self) -> InitResponseView {
        InitResponseView { messages: message_views(self.messages@), log: log_views(self.log@) }
    }
}

/// What a contract answers to a call.
#[derive(Clone, Debug, PartialEq, Eq)]
pub struct HandleResponse {
    pub messages: Vec<CosmosMsg>,
    pub log: Vec<LogAttribute>,
    pub data: Option<Binary>,
}

/// An answer to a call as plain values.
pub struct HandleResponseView {
    pub messages: Seq<CosmosMsgView>,
    pub log: Seq<LogAttributeView>,
    pub data: Option<Seq<u8>>,
}

impl View for HandleResponse {
    type V = HandleResponseView;

    open spec fn view(&self) -> HandleResponseView {
        HandleResponseView {
            messages: message_views(self.messages@),
            log: log_views(self.log@),
            data: match self.data {
                Some(bytes) => Some(bytes@),
                None => None,
            },
        }
    }
}

/// What a contract answers to its migration.
#[derive(Clone, Debug, PartialEq, Eq)]
pub struct MigrateResponse {
    pub messages: Vec<CosmosMsg>,
    pub log: Vec<LogAttribute>,
    pub data: Option<Binary>,
}

impl View for MigrateResponse {
    type V = HandleResponseView;

    open spec fn view(&self) -> HandleResponseView {
        HandleResponseView {
            messages: message_views(self.messages@),
            log: log_views(self.log@),
            data: match self.data {
                Some(bytes) => Some(bytes@),
                None => None,
            },
        }
    }
}

/// The response with no messages, no log and no data.
pub open spec fn no_response() -> HandleResponseView {
    HandleResponseView { messages: Seq::empty(), log: Seq::empty(), data: None }
}

/// A response of messages, log attributes and data.
pub fn respond(messages: Vec<CosmosMsg>, log: Vec<LogAttribute>, data: Option<Binary>) -> (response:
    HandleResponse)
    ensures
        response@ == (HandleResponseView {
            messages: message_views(messages@),
            log: log_views(log@),
            data: match data {
                Some(bytes) => Some(bytes@),
                None => None,
            },
        }),
        response.messages == messages,
        response.log == log,
        response.data == data,
{
    HandleResponse { messages, log, data }
}

impl InitResponse {
    /// A response of messages and log attributes.
    pub fn of(messages: Vec<CosmosMsg>, log: Vec<LogAttribute>) -> (response: InitResponse)
        ensures
            response@ == (InitResponseView {
                messages: message_views(messages@),
                log: log_views(log@),
            }),
    {
        InitResponse { messages, log }
    }
}

impl Default for InitResponse {
    fn default() -> (response: InitResponse)
        ensures
            response@ == (InitResponseView { messages: Seq::empty(), log: Seq::empty() }),
    {
        let response = InitResponse { messages: Vec::new(), log: Vec::new() };
        proof {
            assert(message_views(response.messages@) =~= Seq::empty());
            assert(log_views(response.log@) =~= Seq::empty());
        }
        response
    }
}

impl Default for HandleResponse {
    fn default() -> (response: HandleResponse)
        ensures
            response@ == no_response(),
    {
        let response = HandleResponse { messages: Vec::new(), log: Vec::new(), data: None };
        proof {
            assert(message_views(response.messages@) =~= Seq::empty());
            assert(log_views(response.log@) =~= Seq::empty());
        }
        response
    }
}

impl Default for MigrateResponse {
    fn default() -> (response: MigrateResponse)
        ensures
            response@ == no_response(),
    {
        let response = MigrateResponse { messages: Vec::new(), log: Vec::new(), data: None };
        proof {
            assert(message_views(response.messages@) =~= Seq::empty());
            assert(log_views(response.log@) =~= Seq::empty());
        }
        response
    }
}

/// The errors that a contract hands back to its caller.
#[derive(Clone, Debug, PartialEq, Eq)]
pub enum StdError {
    GenericErr { msg: String },
    InvalidBase64 { msg: String },
    InvalidUtf8 { msg: String },
    NotFound { kind: String },
    NullPointer,
    ParseErr { target: String, msg: String },
    SerializeErr { source: String, msg: String },
    Unauthorized,
    Underflow { minuend: String, subtrahend: String },
}

/// An error as plain values.
pub enum StdErrorView {
    GenericErr { msg: Seq<char> },
    InvalidBase64 { msg: Seq<char> },
    InvalidUtf8 { msg: Seq<char> },
    NotFound { kind: Seq<char> },
    NullPointer,
    ParseErr { target: Seq<char>, msg: Seq<char> },
    SerializeErr { source: Seq<char>, msg: Seq<char> },
    Unauthorized,
    Underflow { minuend: Seq<char>, subtrahend: Seq<char> },
}

impl View for StdError {
    type V = StdErrorView;

    open spec fn view(&self) -> StdErrorView {
        match self {
            StdError::GenericErr { msg } => StdErrorView::GenericErr { msg: msg@ },
            StdError::InvalidBase64 { msg } => StdErrorView::InvalidBase64 { msg: msg@ },
            StdError::InvalidUtf8 { msg } => StdErrorView::InvalidUtf8 { msg: msg@ },
            StdError::NotFound { kind } => StdErrorView::NotFound { kind: kind@ },
            StdError::NullPointer => StdErrorView::NullPointer,
            StdError::ParseErr { target, msg } => StdErrorView::ParseErr {
                target: target@,
                msg: msg@,
            },
            StdError::SerializeErr { source, msg } => StdErrorView::SerializeErr {
                source: source@,
                msg: msg@,
            },
            StdError::Unauthorized => StdErrorView::Unauthorized,
            StdError::Underflow { minuend, subtrahend } => StdErrorView::Underflow {
                minuend: minuend@,
                subtrahend: subtrahend@,
            },
        }
    }
}

/// The generic error with the given text.
pub open spec fn generic_err_view(msg: &str) -> StdErrorView {
    StdErrorView::GenericErr { msg: msg@ }
}

/// An error of no particular kind.
pub fn generic_err(msg: &str) -> (error: StdError)
    ensures
        error@ == generic_err_view(msg),
{
    StdError::GenericErr { msg: msg.to_owned() }
}

/// The error for text that is no base64.
pub fn invalid_base64(msg: &str) -> (error: StdError)
    ensures
        error@ == (StdErrorView::InvalidBase64 { msg: msg@ }),
{
    StdError::InvalidBase64 { msg: msg.to_owned() }
}

/// The error for bytes that are no text.
pub fn invalid_utf8(msg: &str) -> (error: StdError)
    ensures
        error@ == (StdErrorView::InvalidUtf8 { msg: msg@ }),
{
    StdError::InvalidUtf8 { msg: msg.to_owned() }
}

/// The error for something that is not there.
pub fn not_found(kind: &str) -> (error: StdError)
    ensures
        error@ == (StdErrorView::NotFound { kind: kind@ }),
{
    StdError::NotFound { kind: kind.to_owned() }
}

/// The error for a null pointer.
pub fn null_pointer() -> (error: StdError)
    ensures
        error@ == StdErrorView::NullPointer,
{
    StdError::NullPointer
}

/// The error for a value that cannot be read.
pub fn parse_err(target: &str, msg: &str) -> (error: StdError)
    ensures
        error@ == (StdErrorView::ParseErr { target: target@, msg: msg@ }),
{
    StdError::ParseErr { target: target.to_owned(), msg: msg.to_owned() }
}

/// The error for a value that cannot be written.
pub fn serialize_err(source: &str, msg: &str) -> (error: StdError)
    ensures
        error@ == (StdErrorView::SerializeErr { source: source@, msg: msg@ }),
{
    StdError::SerializeErr { source: source.to_owned(), msg: msg.to_owned() }
}

/// The error for a caller who may not do what was asked.
pub fn unauthorized() -> (error: StdError)
    ensures
        error@ == StdErrorView::Unauthorized,
{
    StdError::Unauthorized
}

/// The error for a subtraction below zero.
pub fn underflow(minuend: &str, subtrahend: &str) -> (error: StdError)
    ensures
        error@ == (StdErrorView::Underflow { minuend: minuend@, subtrahend: subtrahend@ }),
{
    StdError::Underflow { minuend: minuend.to_owned(), subtrahend: subtrahend.to_owned() }
}

/// What an error says, without its kind.
pub open spec fn error_text(error: StdErrorView) -> Seq<char> {
    match error {
        StdErrorView::GenericErr { msg } => msg,
        StdErrorView::InvalidBase64 { msg } => msg,
        StdErrorView::InvalidUtf8 { msg } => msg,
        StdErrorView::NotFound { kind } => kind,
        StdErrorView::NullPointer => "null pointer"@,
        StdErrorView::ParseErr { target, msg } => msg,
        StdErrorView::SerializeErr { source, msg } => msg,
        StdErrorView::Unauthorized => "unauthorized"@,
        StdErrorView::Underflow { minuend, subtrahend } => "underflow"@,
    }
}

impl StdError {
    /// What the error says, without its kind.
    pub fn text(self) -> (text: String)
        ensures
            text@ == error_text(self@),
    {
        match self {
            StdError::GenericErr { msg } => msg,
            StdError::InvalidBase64 { msg } => msg,
            StdError::InvalidUtf8 { msg } => msg,
            StdError::NotFound { kind } => kind,
            StdError::NullPointer => "null pointer".to_owned(),
            StdError::ParseErr { target, msg } => msg,
            StdError::SerializeErr { source, msg } => msg,
            StdError::Unauthorized => "unauthorized".to_owned(),
            StdError::Underflow { minuend, subtrahend } => "underflow".to_owned(),
        }
    }
}

/// A value or an error.
pub type StdResult<T> = Result<T, StdError>;

/// What the instantiation of a contract gives.
pub type InitResult = Result<InitResponse, StdError>;

/// What a call to a contract gives.
pub type HandleResult = Result<HandleResponse, StdError>;

/// What a query to a contract gives.
pub type QueryResult = Result<Binary, StdError>;

/// Who called, and with what funds.
#[derive(Clone, Debug, PartialEq, Eq)]
pub struct MessageInfo {
    pub sender: CanonicalAddr,
    pub sent_funds: Vec<Coin>,
}

/// The surroundings of a call.
#[derive(Clone, Debug, PartialEq, Eq)]
pub struct Env {
    pub message: MessageInfo,
}

/// A contract's answer as plain values: a response, an error, or the trap
/// that ended the call.
pub open spec fn answer_view<T: View>(answer: Result<Result<T, StdError>, crate::trap::Trap>) -> Result<
    Result<T::V, StdErrorView>,
    crate::trap::Trap,
> {
    match answer {
        Err(trap) => Err(trap),
        Ok(Err(error)) => Ok(Err(error@)),
        Ok(Ok(response)) => Ok(Ok(response@)),
    }
}

} // verus!
