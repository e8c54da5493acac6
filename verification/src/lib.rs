//! Host-function bridge between sandboxed WebAssembly contracts and their
//! native execution host.
//!
//! Guest bytecode reaches the host only through the imports of
//! [`imports::WasmiApi`]. The [`bridge::Bridge`] of an execution context
//! implements them: it resolves the guest's pointers through [`memory`],
//! meters every call through [`gas`], and hands the bytes to the component
//! that does the work: [`storage`], [`address`], [`crypto`] or [`query`].
//! Whatever goes wrong ends in one of the outcomes of [`trap`].
//!
//! [`contract`] and [`exercise`] hold a contract that calls every part of
//! the bridge, and [`laws`] what holds of the imports as a whole.

pub mod bytes;
pub mod text;
pub mod trap;
pub mod gas;
pub mod memory;
pub mod storage;
pub mod polymod;
pub mod bech32;
pub mod address;
pub mod crypto;
pub mod query;
pub mod bridge;
pub mod imports;
pub mod laws;
pub mod types;
pub mod json;
pub mod msg;
pub mod contract;
pub mod exercise;

pub use address::AddressCodec;
pub use bridge::Bridge;
pub use gas::{GasCosts, GasMeter, HostCall};
pub use imports::{Import, WasmiApi};
pub use memory::{GuestMemory, Region};
pub use query::{Querier, QueryError, QueryRequest, QueryResponse};
pub use storage::ContractStorage;
pub use trap::{AddressError, CryptoError, RuntimeValue, Trap};
