//! Validation of state transitions on a remote resource.
//!
//! A validator submits one mutating call to a remote resource, waits until
//! it is final, reads the resource again, and holds what it reads against
//! what it predicted before: the state by its domain fields, the events in
//! their order. The library holds the data, the predictions, the comparison
//! and the order of the steps. It does no remote work itself: it says which
//! operation is due, and takes what came of it.

pub mod config;
pub mod hex;
pub mod primitives;
pub mod run;
pub mod simple_storage;
pub mod simple_storage_validator;
pub mod state;
pub mod validate;
pub mod validator;

pub use config::{config_path, config_path_of, ConfigError, FetchConfig, ValidatorConfig, Wallet};
pub use primitives::{Address, RemoteError, TransactionReceipt, H256};
pub use simple_storage::{InvalidOutputType, Token, ValueChangedFilter};
pub use simple_storage_validator::{
    SimpleStorageState, SimpleStorageStateTransition, SimpleStorageValidator,
};
pub use state::{State, StateTransition};
pub use validate::{
    begin, reconcile, validate, Answer, Mismatch, Phase, Reply, Request, Step, ValidateError,
    ValidationMismatch,
};
pub use validator::{Validator, ValidatorBase};
