//! Verified core logic of the Nova Move VM host: storage size accounting,
//! state-key encoding, table metadata bookkeeping, argument validation,
//! result shaping and error handling for the FFI boundary.

pub mod size_change_set;
pub mod bcs_format;
pub mod state_key;
pub mod table_meta;
pub mod text;
pub mod vm_status;
pub mod key_order;
pub mod memory;
pub mod rust_error;
pub mod vm_error;
pub mod args_validator;
pub mod size_delta;
pub mod event;
pub mod message;
pub mod result;
pub mod session;
pub mod compiler;
pub mod backend_error;
pub mod iterator;
pub mod storage;
pub mod mock_db;
pub mod publish;
pub mod gas;
pub mod backend;
pub mod vm_flow;
pub mod address_finder;
pub mod table_owner;
pub mod asset;
