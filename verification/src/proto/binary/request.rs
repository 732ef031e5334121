//! The request of every operation: which opcode it carries, what its
//! extras hold, and where key, value and CAS token go.
//!
//! Each function returns the bytes to send. It fails, with the error
//! [`oversized`], exactly when the key or the body is longer than a frame
//! header can say. Every request but those of a batch carries the opaque
//! token 0.

use crate::proto::binary::packet::{oversized, Request, RequestView};
use crate::proto::binarydef::Opcode;
use crate::proto::error::MemCachedResult;
use crate::proto::wire::{be32, be64, put_u32, put_u64};
use vstd::prelude::*;

verus! {

/// The extras of a storing request: the flags, then the expiration.
pub open spec fn store_extras(flags: u32, expiration: u32) -> Seq<u8> {
    be32(flags) + be32(expiration)
}

/// The extras of a counter request: the amount, the initial value, then
/// the expiration.
pub open spec fn counter_extras(amount: u64, initial: u64, expiration: u32) -> Seq<u8> {
    be64(amount) + be64(initial) + be32(expiration)
}

/// The extras of a request that carries an expiration alone.
pub open spec fn expiration_extras(expiration: u32) -> Seq<u8> {
    be32(expiration)
}

/// The request that stores `value` under `key`.
pub open spec fn store_frame(
    opcode: Opcode,
    key: Seq<u8>,
    value: Seq<u8>,
    flags: u32,
    expiration: u32,
    opaque: u32,
    cas: u64,
) -> RequestView {
    RequestView { opcode, key, extras: store_extras(flags, expiration), value, opaque, cas }
}

/// The request that names a key and nothing else.
pub open spec fn key_frame(opcode: Opcode, key: Seq<u8>, opaque: u32, cas: u64) -> RequestView {
    RequestView { opcode, key, extras: Seq::empty(), value: Seq::empty(), opaque, cas }
}

/// The request that adds to or takes from a counter.
pub open spec fn counter_frame(
    opcode: Opcode,
    key: Seq<u8>,
    amount: u64,
    initial: u64,
    expiration: u32,
    cas: u64,
) -> RequestView {
    RequestView {
        opcode,
        key,
        extras: counter_extras(amount, initial, expiration),
        value: Seq::empty(),
        opaque: 0,
        cas,
    }
}

/// The request that joins `value` to the value stored under `key`.
pub open spec fn concat_frame(
    opcode: Opcode,
    key: Seq<u8>,
    value: Seq<u8>,
    cas: u64,
) -> RequestView {
    RequestView { opcode, key, extras: Seq::empty(), value, opaque: 0, cas }
}

/// The request that changes the expiration of `key`.
pub open spec fn touch_frame(key: Seq<u8>, expiration: u32, cas: u64) -> RequestView {
    RequestView {
        opcode: Opcode::Touch,
        key,
        extras: expiration_extras(expiration),
        value: Seq::empty(),
        opaque: 0,
        cas,
    }
}

/// The request that invalidates all keys after `expiration` seconds.
pub open spec fn flush_frame(expiration: u32) -> RequestView {
    RequestView {
        opcode: Opcode::Flush,
        key: Seq::empty(),
        extras: expiration_extras(expiration),
        value: Seq::empty(),
        opaque: 0,
        cas: 0,
    }
}

/// The request that is an opcode and nothing else.
pub open spec fn bare_frame(opcode: Opcode, opaque: u32) -> RequestView {
    RequestView {
        opcode,
        key: Seq::empty(),
        extras: Seq::empty(),
        value: Seq::empty(),
        opaque,
        cas: 0,
    }
}

/// Whether `r` is what encoding `request` gives: its bytes on the wire, or
/// the error [`oversized`] where it does not fit a frame.
pub open spec fn encoding(request: RequestView, r: MemCachedResult<Vec<u8>>) -> bool {
    match r {
        Ok(bytes) => request.fits() && bytes@ == request.wire(),
        Err(e) => !request.fits() && e@ == oversized(),
    }
}

/// Encodes a storing request.
pub fn encode_store(
    opcode: Opcode,
    key: &[u8],
    value: &[u8],
    flags: u32,
    expiration: u32,
    opaque: u32,
    cas: u64,
) -> (r: MemCachedResult<Vec<u8>>)
    ensures
        encoding(store_frame(opcode, key@, value@, flags, expiration, opaque, cas), r),
{
    let mut extras: Vec<u8> = Vec::new();
    put_u32(&mut extras, flags);
    put_u32(&mut extras, expiration);
    Request { opcode, key, extras: extras.as_slice(), value, opaque, cas }.encode()
}

/// Encodes a request that names a key and nothing else.
pub fn encode_key(opcode: Opcode, key: &[u8], opaque: u32, cas: u64) -> (r: MemCachedResult<
    Vec<u8>,
>)
    ensures
        encoding(key_frame(opcode, key@, opaque, cas), r),
{
    let none: Vec<u8> = Vec::new();
    Request { opcode, key, extras: none.as_slice(), value: none.as_slice(), opaque, cas }.encode()
}

/// Encodes a counter request.
pub fn encode_counter(
    opcode: Opcode,
    key: &[u8],
    amount: u64,
    initial: u64,
    expiration: u32,
    cas: u64,
) -> (r: MemCachedResult<Vec<u8>>)
    ensures
        encoding(counter_frame(opcode, key@, amount, initial, expiration, cas), r),
{
    let mut extras: Vec<u8> = Vec::new();
    put_u64(&mut extras, amount);
    put_u64(&mut extras, initial);
    put_u32(&mut extras, expiration);
    let none: Vec<u8> = Vec::new();
    Request {
        opcode,
        key,
        extras: extras.as_slice(),
        value: none.as_slice(),
        opaque: 0,
        cas,
    }.encode()
}

/// Encodes a request that joins a value to a stored one.
pub fn encode_concat(opcode: Opcode, key: &[u8], value: &[u8], cas: u64) -> (r: MemCachedResult<
    Vec<u8>,
>)
    ensures
        encoding(concat_frame(opcode, key@, value@, cas), r),
{
    let none: Vec<u8> = Vec::new();
    Request { opcode, key, extras: none.as_slice(), value, opaque: 0, cas }.encode()
}

/// Encodes a request that is an opcode and nothing else.
pub fn encode_bare(opcode: Opcode, opaque: u32) -> (r: MemCachedResult<Vec<u8>>)
    ensures
        encoding(bare_frame(opcode, opaque), r),
        r is Ok,
{
    let none: Vec<u8> = Vec::new();
    Request {
        opcode,
        key: none.as_slice(),
        extras: none.as_slice(),
        value: none.as_slice(),
        opaque,
        cas: 0,
    }.encode()
}

// The plain operations.

/// The request of `set`: stores `value` under `key`, whether or not the key exists.
pub fn set_request(
    key: &[u8],
    value: &[u8],
    flags: u32,
    expiration: u32,
) -> (r: MemCachedResult<Vec<u8>>)
    ensures
        encoding(store_frame(Opcode::Store, key@, value@, flags, expiration, 0, 0), r),
{
    encode_store(Opcode::Store, key, value, flags, expiration, 0, 0)
}

/// The request of `add`: stores `value` under `key` if the key does not exist.
pub fn add_request(
    key: &[u8],
    value: &[u8],
    flags: u32,
    expiration: u32,
) -> (r: MemCachedResult<Vec<u8>>)
    ensures
        encoding(store_frame(Opcode::Add, key@, value@, flags, expiration, 0, 0), r),
{
    encode_store(Opcode::Add, key, value, flags, expiration, 0, 0)
}

/// The request of `replace`: stores `value` under `key` if the key exists.
pub fn replace_request(
    key: &[u8],
    value: &[u8],
    flags: u32,
    expiration: u32,
) -> (r: MemCachedResult<Vec<u8>>)
    ensures
        encoding(store_frame(Opcode::Replace, key@, value@, flags, expiration, 0, 0), r),
{
    encode_store(Opcode::Replace, key, value, flags, expiration, 0, 0)
}

/// The request of `delete`.
pub fn delete_request(key: &[u8]) -> (r: MemCachedResult<Vec<u8>>)
    ensures
        encoding(key_frame(Opcode::Delete, key@, 0, 0), r),
{
    encode_key(Opcode::Delete, key, 0, 0)
}

/// The request of `get`: the response holds the value and its flags.
pub fn get_request(key: &[u8]) -> (r: MemCachedResult<Vec<u8>>)
    ensures
        encoding(key_frame(Opcode::Get, key@, 0, 0), r),
{
    encode_key(Opcode::Get, key, 0, 0)
}

/// The request of `getk`: the response holds the key too.
pub fn getk_request(key: &[u8]) -> (r: MemCachedResult<Vec<u8>>)
    ensures
        encoding(key_frame(Opcode::GetK, key@, 0, 0), r),
{
    encode_key(Opcode::GetK, key, 0, 0)
}

/// The request of `increment`: adds `amount` to the counter under `key`. Where the key does not
/// exist the server stores `initial` under it. The three numbers go out as
/// they are given.
pub fn increment_request(
    key: &[u8],
    amount: u64,
    initial: u64,
    expiration: u32,
) -> (r: MemCachedResult<Vec<u8>>)
    ensures
        encoding(counter_frame(Opcode::Increment, key@, amount, initial, expiration, 0), r),
{
    encode_counter(Opcode::Increment, key, amount, initial, expiration, 0)
}

/// The request of `decrement`: takes `amount` from the counter under `key`. Where the key does not
/// exist the server stores `initial` under it. The three numbers go out as
/// they are given.
pub fn decrement_request(
    key: &[u8],
    amount: u64,
    initial: u64,
    expiration: u32,
) -> (r: MemCachedResult<Vec<u8>>)
    ensures
        encoding(counter_frame(Opcode::Decrement, key@, amount, initial, expiration, 0), r),
{
    encode_counter(Opcode::Decrement, key, amount, initial, expiration, 0)
}

/// The request of `append`: puts `value` after the value stored under `key`.
pub fn append_request(key: &[u8], value: &[u8]) -> (r: MemCachedResult<Vec<u8>>)
    ensures
        encoding(concat_frame(Opcode::Append, key@, value@, 0), r),
{
    encode_concat(Opcode::Append, key, value, 0)
}

/// The request of `prepend`: puts `value` before the value stored under `key`.
pub fn prepend_request(key: &[u8], value: &[u8]) -> (r: MemCachedResult<Vec<u8>>)
    ensures
        encoding(concat_frame(Opcode::Prepend, key@, value@, 0), r),
{
    encode_concat(Opcode::Prepend, key, value, 0)
}

/// The request of `touch`: gives `key` a new expiration.
pub fn touch_request(key: &[u8], expiration: u32) -> (r: MemCachedResult<Vec<u8>>)
    ensures
        encoding(touch_frame(key@, expiration, 0), r),
{
    touch_cas_request(key, expiration, 0)
}

// The operations with a CAS token. The token 0 asks for no compare: the
// request is then that of the plain operation.

/// The request of `set_cas`: that of `set`, to be carried out only if the
/// item still has the token `cas`.
pub fn set_cas_request(
    key: &[u8],
    value: &[u8],
    flags: u32,
    expiration: u32,
    cas: u64,
) -> (r: MemCachedResult<Vec<u8>>)
    ensures
        encoding(store_frame(Opcode::Store, key@, value@, flags, expiration, 0, cas), r),
{
    encode_store(Opcode::Store, key, value, flags, expiration, 0, cas)
}

/// The request of `add_cas`: that of `add`. A key that does not exist has
/// no token to compare; the response carries the token of the new item.
pub fn add_cas_request(
    key: &[u8],
    value: &[u8],
    flags: u32,
    expiration: u32,
) -> (r: MemCachedResult<Vec<u8>>)
    ensures
        encoding(store_frame(Opcode::Add, key@, value@, flags, expiration, 0, 0), r),
{
    encode_store(Opcode::Add, key, value, flags, expiration, 0, 0)
}

/// The request of `replace_cas`: that of `replace`, to be carried out only if the
/// item still has the token `cas`.
pub fn replace_cas_request(
    key: &[u8],
    value: &[u8],
    flags: u32,
    expiration: u32,
    cas: u64,
) -> (r: MemCachedResult<Vec<u8>>)
    ensures
        encoding(store_frame(Opcode::Replace, key@, value@, flags, expiration, 0, cas), r),
{
    encode_store(Opcode::Replace, key, value, flags, expiration, 0, cas)
}

/// The request of `get_cas`: that of `get`. The token comes with the
/// response.
pub fn get_cas_request(key: &[u8]) -> (r: MemCachedResult<Vec<u8>>)
    ensures
        encoding(key_frame(Opcode::Get, key@, 0, 0), r),
{
    encode_key(Opcode::Get, key, 0, 0)
}

/// The request of `getk_cas`: that of `getk`. The token comes with the
/// response.
pub fn getk_cas_request(key: &[u8]) -> (r: MemCachedResult<Vec<u8>>)
    ensures
        encoding(key_frame(Opcode::GetK, key@, 0, 0), r),
{
    encode_key(Opcode::GetK, key, 0, 0)
}

/// The request of `increment_cas`: that of `increment`, to be carried out only if the
/// item still has the token `cas`.
pub fn increment_cas_request(
    key: &[u8],
    amount: u64,
    initial: u64,
    expiration: u32,
    cas: u64,
) -> (r: MemCachedResult<Vec<u8>>)
    ensures
        encoding(counter_frame(Opcode::Increment, key@, amount, initial, expiration, cas), r),
{
    encode_counter(Opcode::Increment, key, amount, initial, expiration, cas)
}

/// The request of `decrement_cas`: that of `decrement`, to be carried out only if the
/// item still has the token `cas`.
pub fn decrement_cas_request(
    key: &[u8],
    amount: u64,
    initial: u64,
    expiration: u32,
    cas: u64,
) -> (r: MemCachedResult<Vec<u8>>)
    ensures
        encoding(counter_frame(Opcode::Decrement, key@, amount, initial, expiration, cas), r),
{
    encode_counter(Opcode::Decrement, key, amount, initial, expiration, cas)
}

/// The request of `append_cas`: that of `append`, to be carried out only if the
/// item still has the token `cas`.
pub fn append_cas_request(key: &[u8], value: &[u8], cas: u64) -> (r: MemCachedResult<Vec<u8>>)
    ensures
        encoding(concat_frame(Opcode::Append, key@, value@, cas), r),
{
    encode_concat(Opcode::Append, key, value, cas)
}

/// The request of `prepend_cas`: that of `prepend`, to be carried out only if the
/// item still has the token `cas`.
pub fn prepend_cas_request(key: &[u8], value: &[u8], cas: u64) -> (r: MemCachedResult<Vec<u8>>)
    ensures
        encoding(concat_frame(Opcode::Prepend, key@, value@, cas), r),
{
    encode_concat(Opcode::Prepend, key, value, cas)
}

/// The request of `touch_cas`: that of `touch`, to be carried out only if
/// the item still has the token `cas`.
pub fn touch_cas_request(key: &[u8], expiration: u32, cas: u64) -> (r: MemCachedResult<Vec<u8>>)
    ensures
        encoding(touch_frame(key@, expiration, cas), r),
{
    let mut extras: Vec<u8> = Vec::new();
    put_u32(&mut extras, expiration);
    let none: Vec<u8> = Vec::new();
    Request {
        opcode: Opcode::Touch,
        key,
        extras: extras.as_slice(),
        value: none.as_slice(),
        opaque: 0,
        cas,
    }.encode()
}

// The operations without a reply. Each carries the quiet variant of the
// opcode: the server answers such a request only if it fails, and the
// client does not wait for that answer, so a failure goes unseen unless a
// later response brings it.

/// The request of `set_noreply`: that of `set` with the quiet opcode.
pub fn set_noreply_request(
    key: &[u8],
    value: &[u8],
    flags: u32,
    expiration: u32,
) -> (r: MemCachedResult<Vec<u8>>)
    ensures
        encoding(store_frame(Opcode::StoreQ, key@, value@, flags, expiration, 0, 0), r),
{
    encode_store(Opcode::StoreQ, key, value, flags, expiration, 0, 0)
}

/// The request of `add_noreply`: that of `add` with the quiet opcode.
pub fn add_noreply_request(
    key: &[u8],
    value: &[u8],
    flags: u32,
    expiration: u32,
) -> (r: MemCachedResult<Vec<u8>>)
    ensures
        encoding(store_frame(Opcode::AddQ, key@, value@, flags, expiration, 0, 0), r),
{
    encode_store(Opcode::AddQ, key, value, flags, expiration, 0, 0)
}

/// The request of `replace_noreply`: that of `replace` with the quiet opcode.
pub fn replace_noreply_request(
    key: &[u8],
    value: &[u8],
    flags: u32,
    expiration: u32,
) -> (r: MemCachedResult<Vec<u8>>)
    ensures
        encoding(store_frame(Opcode::ReplaceQ, key@, value@, flags, expiration, 0, 0), r),
{
    encode_store(Opcode::ReplaceQ, key, value, flags, expiration, 0, 0)
}

/// The request of `delete_noreply`: that of `delete` with the quiet opcode.
pub fn delete_noreply_request(key: &[u8]) -> (r: MemCachedResult<Vec<u8>>)
    ensures
        encoding(key_frame(Opcode::DeleteQ, key@, 0, 0), r),
{
    encode_key(Opcode::DeleteQ, key, 0, 0)
}

/// The request of `increment_noreply`: that of `increment` with the quiet opcode.
pub fn increment_noreply_request(
    key: &[u8],
    amount: u64,
    initial: u64,
    expiration: u32,
) -> (r: MemCachedResult<Vec<u8>>)
    ensures
        encoding(counter_frame(Opcode::IncrementQ, key@, amount, initial, expiration, 0), r),
{
    encode_counter(Opcode::IncrementQ, key, amount, initial, expiration, 0)
}

/// The request of `decrement_noreply`: that of `decrement` with the quiet opcode.
pub fn decrement_noreply_request(
    key: &[u8],
    amount: u64,
    initial: u64,
    expiration: u32,
) -> (r: MemCachedResult<Vec<u8>>)
    ensures
        encoding(counter_frame(Opcode::DecrementQ, key@, amount, initial, expiration, 0), r),
{
    encode_counter(Opcode::DecrementQ, key, amount, initial, expiration, 0)
}

/// The request of `append_noreply`: that of `append` with the quiet opcode.
pub fn append_noreply_request(key: &[u8], value: &[u8]) -> (r: MemCachedResult<Vec<u8>>)
    ensures
        encoding(concat_frame(Opcode::AppendQ, key@, value@, 0), r),
{
    encode_concat(Opcode::AppendQ, key, value, 0)
}

/// The request of `prepend_noreply`: that of `prepend` with the quiet opcode.
pub fn prepend_noreply_request(key: &[u8], value: &[u8]) -> (r: MemCachedResult<Vec<u8>>)
    ensures
        encoding(concat_frame(Opcode::PrependQ, key@, value@, 0), r),
{
    encode_concat(Opcode::PrependQ, key, value, 0)
}

// The server operations. None of their requests can be too long.

/// The request of `quit`: closes the session.
pub fn quit_request() -> (r: MemCachedResult<Vec<u8>>)
    ensures
        encoding(bare_frame(Opcode::Quit, 0), r),
        r is Ok,
{
    encode_bare(Opcode::Quit, 0)
}

/// The request of `noop`: asks for an empty response and changes nothing.
pub fn noop_request() -> (r: MemCachedResult<Vec<u8>>)
    ensures
        encoding(bare_frame(Opcode::Noop, 0), r),
        r is Ok,
{
    encode_bare(Opcode::Noop, 0)
}

/// The request of `version`: asks for the version of the server.
pub fn version_request() -> (r: MemCachedResult<Vec<u8>>)
    ensures
        encoding(bare_frame(Opcode::Version, 0), r),
        r is Ok,
{
    encode_bare(Opcode::Version, 0)
}

/// The request of `stat`: asks for the statistics of the server. The answer is a run of
/// frames, one for each statistic, that a frame with an empty key ends.
pub fn stat_request() -> (r: MemCachedResult<Vec<u8>>)
    ensures
        encoding(bare_frame(Opcode::Stat, 0), r),
        r is Ok,
{
    encode_bare(Opcode::Stat, 0)
}

/// The request of `flush`: invalidates all keys after `expiration` seconds,
/// at once where it is 0.
pub fn flush_request(expiration: u32) -> (r: MemCachedResult<Vec<u8>>)
    ensures
        encoding(flush_frame(expiration), r),
        r is Ok,
{
    let mut extras: Vec<u8> = Vec::new();
    put_u32(&mut extras, expiration);
    let none: Vec<u8> = Vec::new();
    Request {
        opcode: Opcode::Flush,
        key: none.as_slice(),
        extras: extras.as_slice(),
        value: none.as_slice(),
        opaque: 0,
        cas: 0,
    }.encode()
}

} // verus!
