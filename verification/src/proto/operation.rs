//! The operations that an implementation of the protocol offers, in five
//! families, and the contract that joins them.
//!
//! An implementation owns a connection. For each call it sends the request
//! of the operation, reads the frames of the response and returns what they
//! mean, or the error that came up; it never retries. After an error of the
//! kind `IoError` or `MalformedFrame` the connection must not be used again.

use crate::proto::binary::reply::Version;
use crate::proto::error::MemCachedResult;
use std::collections::BTreeMap;
use vstd::prelude::*;

verus! {

/// The whole of the protocol: the five families together. An implementation
/// can be sent to another thread, and so can its copies.
pub trait Proto:
    Operation + MultiOperation + ServerOperation + NoReplyOperation + CasOperation + Send
{
    /// A second handle on the same server.
    fn clone(&self) -> Box<Self> where Self: Sized;
}

/// The plain operations: one request, one response.
pub trait Operation {
    fn set(&mut self, key: &[u8], value: &[u8], flags: u32, expiration: u32) -> MemCachedResult<()>;

    fn add(&mut self, key: &[u8], value: &[u8], flags: u32, expiration: u32) -> MemCachedResult<()>;

    fn delete(&mut self, key: &[u8]) -> MemCachedResult<()>;

    fn replace(
        &mut self,
        key: &[u8],
        value: &[u8],
        flags: u32,
        expiration: u32,
    ) -> MemCachedResult<()>;

    fn get(&mut self, key: &[u8]) -> MemCachedResult<(Vec<u8>, u32)>;

    fn getk(&mut self, key: &[u8]) -> MemCachedResult<(Vec<u8>, Vec<u8>, u32)>;

    fn increment(
        &mut self,
        key: &[u8],
        amount: u64,
        initial: u64,
        expiration: u32,
    ) -> MemCachedResult<u64>;

    fn decrement(
        &mut self,
        key: &[u8],
        amount: u64,
        initial: u64,
        expiration: u32,
    ) -> MemCachedResult<u64>;

    fn append(&mut self, key: &[u8], value: &[u8]) -> MemCachedResult<()>;

    fn prepend(&mut self, key: &[u8], value: &[u8]) -> MemCachedResult<()>;

    fn touch(&mut self, key: &[u8], expiration: u32) -> MemCachedResult<()>;
}

/// The operations with a CAS token. The token 0 asks for no compare. A
/// token other than 0 that is not the one of the stored item fails the
/// operation with the status "key exists", and nothing is changed. On
/// success the new token of the item is returned.
pub trait CasOperation {
    fn set_cas(
        &mut self,
        key: &[u8],
        value: &[u8],
        flags: u32,
        expiration: u32,
        cas: u64,
    ) -> MemCachedResult<u64>;

    fn add_cas(
        &mut self,
        key: &[u8],
        value: &[u8],
        flags: u32,
        expiration: u32,
    ) -> MemCachedResult<u64>;

    fn replace_cas(
        &mut self,
        key: &[u8],
        value: &[u8],
        flags: u32,
        expiration: u32,
        cas: u64,
    ) -> MemCachedResult<u64>;

    fn get_cas(&mut self, key: &[u8]) -> MemCachedResult<(Vec<u8>, u32, u64)>;

    fn getk_cas(&mut self, key: &[u8]) -> MemCachedResult<(Vec<u8>, Vec<u8>, u32, u64)>;

    fn increment_cas(
        &mut self,
        key: &[u8],
        amount: u64,
        initial: u64,
        expiration: u32,
        cas: u64,
    ) -> MemCachedResult<(u64, u64)>;

    fn decrement_cas(
        &mut self,
        key: &[u8],
        amount: u64,
        initial: u64,
        expiration: u32,
        cas: u64,
    ) -> MemCachedResult<(u64, u64)>;

    fn append_cas(&mut self, key: &[u8], value: &[u8], cas: u64) -> MemCachedResult<u64>;

    fn prepend_cas(&mut self, key: &[u8], value: &[u8], cas: u64) -> MemCachedResult<u64>;

    fn touch_cas(&mut self, key: &[u8], expiration: u32, cas: u64) -> MemCachedResult<u64>;
}

/// The operations on the server itself.
pub trait ServerOperation {
    fn quit(&mut self) -> MemCachedResult<()>;

    fn flush(&mut self, expiration: u32) -> MemCachedResult<()>;

    fn noop(&mut self) -> MemCachedResult<()>;

    fn version(&mut self) -> MemCachedResult<Version>;

    fn stat(&mut self) -> MemCachedResult<BTreeMap<String, String>>;
}

/// The operations on many keys at once. The requests go out together, and
/// the responses are read after the last request has gone.
pub trait MultiOperation {
    fn set_multi(&mut self, kv: BTreeMap<Vec<u8>, (Vec<u8>, u32, u32)>) -> MemCachedResult<()>;

    fn delete_multi(&mut self, keys: Vec<Vec<u8>>) -> MemCachedResult<()>;

    fn get_multi(
        &mut self,
        keys: Vec<Vec<u8>>,
    ) -> MemCachedResult<BTreeMap<Vec<u8>, (Vec<u8>, u32)>>;
}

/// The operations without a reply. A call returns once its request is
/// sent. What the server makes of the request the caller does not learn:
/// this is a weaker guarantee than that of the plain operation, not the
/// same one.
pub trait NoReplyOperation {
    fn set_noreply(
        &mut self,
        key: &[u8],
        value: &[u8],
        flags: u32,
        expiration: u32,
    ) -> MemCachedResult<()>;

    fn add_noreply(
        &mut self,
        key: &[u8],
        value: &[u8],
        flags: u32,
        expiration: u32,
    ) -> MemCachedResult<()>;

    fn delete_noreply(&mut self, key: &[u8]) -> MemCachedResult<()>;

    fn replace_noreply(
        &mut self,
        key: &[u8],
        value: &[u8],
        flags: u32,
        expiration: u32,
    ) -> MemCachedResult<()>;

    fn increment_noreply(
        &mut self,
        key: &[u8],
        amount: u64,
        initial: u64,
        expiration: u32,
    ) -> MemCachedResult<()>;

    fn decrement_noreply(
        &mut self,
        key: &[u8],
        amount: u64,
        initial: u64,
        expiration: u32,
    ) -> MemCachedResult<()>;

    fn append_noreply(&mut self, key: &[u8], value: &[u8]) -> MemCachedResult<()>;

    fn prepend_noreply(&mut self, key: &[u8], value: &[u8]) -> MemCachedResult<()>;
}

} // verus!
