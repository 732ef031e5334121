//! Memcached protocol

pub mod binary;
pub mod binarydef;
pub mod error;
pub mod operation;
pub mod status;
pub mod text;
pub mod wire;

pub use self::binary::reply::Version;
pub use self::error::{Error, ErrorKind, MemCachedResult, ProtoType};
pub use self::operation::{
    CasOperation, MultiOperation, NoReplyOperation, Operation, Proto, ServerOperation,
};
pub use self::status::Status;
