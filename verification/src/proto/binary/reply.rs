//! The meaning of a response, for each operation whose result is more than
//! success: where the flags, the counter and the version lie in the frame.
//!
//! These functions take a frame that [`decode_response`] has accepted, so
//! its status is "no error". An operation that returns nothing is done once
//! such a frame has come, and one that returns a CAS token alone returns the
//! `cas` field of the frame.
//!
//! [`decode_response`]: crate::proto::binary::packet::decode_response

use crate::proto::binary::packet::{Response, ResponseView};
use crate::proto::error::{Error, ErrorKind, ErrorView, MemCachedResult};
use crate::proto::text::{text_of, utf8_text};
use crate::proto::wire::{from_be32, from_be64, get_u32, get_u64};
use vstd::prelude::*;

verus! {

broadcast use vstd::slice::group_slice_axioms;

/// The error for the response to a get whose extras are not the four bytes
/// of the flags.
pub open spec fn bad_flags() -> ErrorView {
    ErrorView { kind: ErrorKind::MalformedFrame, desc: "flags are not 4 bytes"@, detail: None }
}

/// The error for the response to a counter operation whose value is not
/// the eight bytes of the counter.
pub open spec fn bad_counter() -> ErrorView {
    ErrorView { kind: ErrorKind::MalformedFrame, desc: "counter is not 8 bytes"@, detail: None }
}

/// The error for a version that is not UTF-8 text.
pub open spec fn version_not_text() -> ErrorView {
    ErrorView { kind: ErrorKind::OtherError, desc: "version is not text"@, detail: None }
}

/// The error for a version that does not read as three numbers.
pub open spec fn bad_version() -> ErrorView {
    ErrorView { kind: ErrorKind::OtherError, desc: "unrecognized version string"@, detail: None }
}

/// The flags of a stored value: the four bytes of the extras.
pub open spec fn spec_flags(response: ResponseView) -> Result<u32, ErrorView> {
    if response.extras.len() == 4 {
        Ok(from_be32(response.extras))
    } else {
        Err(bad_flags())
    }
}

/// The counter after an increment or a decrement: the eight bytes of the
/// value.
pub open spec fn spec_counter(response: ResponseView) -> Result<u64, ErrorView> {
    if response.value.len() == 8 {
        Ok(from_be64(response.value))
    } else {
        Err(bad_counter())
    }
}

/// Reads the flags of a response.
pub fn flags_of(response: &Response) -> (r: MemCachedResult<u32>)
    ensures
        match r {
            Ok(flags) => spec_flags(response@) == Ok::<u32, ErrorView>(flags),
            Err(e) => spec_flags(response@) == Err::<u32, ErrorView>(e@),
        },
{
    if response.extras.len() == 4 {
        let flags = get_u32(response.extras.as_slice(), 0);
        assert(response.extras@.subrange(0, 4) =~= response.extras@);
        Ok(flags)
    } else {
        Err(Error::new(ErrorKind::MalformedFrame, "flags are not 4 bytes", None))
    }
}

/// The result of `get`: the value and its flags.
pub fn get_reply(response: Response) -> (r: MemCachedResult<(Vec<u8>, u32)>)
    ensures
        match r {
            Ok((value, flags)) => value@ == response@.value && spec_flags(response@) == Ok::<
                u32,
                ErrorView,
            >(flags),
            Err(e) => spec_flags(response@) == Err::<u32, ErrorView>(e@),
        },
{
    match flags_of(&response) {
        Ok(flags) => Ok((response.value, flags)),
        Err(e) => Err(e),
    }
}

/// The result of `getk`: the key, the value and its flags.
pub fn getk_reply(response: Response) -> (r: MemCachedResult<(Vec<u8>, Vec<u8>, u32)>)
    ensures
        match r {
            Ok((key, value, flags)) => key@ == response@.key && value@ == response@.value
                && spec_flags(response@) == Ok::<u32, ErrorView>(flags),
            Err(e) => spec_flags(response@) == Err::<u32, ErrorView>(e@),
        },
{
    match flags_of(&response) {
        Ok(flags) => Ok((response.key, response.value, flags)),
        Err(e) => Err(e),
    }
}

/// The result of `get_cas`: the value, its flags and the CAS token of the
/// item, with which a compare-and-swap can start.
pub fn get_cas_reply(response: Response) -> (r: MemCachedResult<(Vec<u8>, u32, u64)>)
    ensures
        match r {
            Ok((value, flags, cas)) => value@ == response@.value && cas == response@.cas
                && spec_flags(response@) == Ok::<u32, ErrorView>(flags),
            Err(e) => spec_flags(response@) == Err::<u32, ErrorView>(e@),
        },
{
    match flags_of(&response) {
        Ok(flags) => Ok((response.value, flags, response.cas)),
        Err(e) => Err(e),
    }
}

/// The result of `getk_cas`: the key, the value, its flags and the CAS
/// token of the item.
pub fn getk_cas_reply(response: Response) -> (r: MemCachedResult<(Vec<u8>, Vec<u8>, u32, u64)>)
    ensures
        match r {
            Ok((key, value, flags, cas)) => key@ == response@.key && value@ == response@.value
                && cas == response@.cas && spec_flags(response@) == Ok::<u32, ErrorView>(flags),
            Err(e) => spec_flags(response@) == Err::<u32, ErrorView>(e@),
        },
{
    match flags_of(&response) {
        Ok(flags) => Ok((response.key, response.value, flags, response.cas)),
        Err(e) => Err(e),
    }
}

/// The result of `increment` and of `decrement`: the counter as the server
/// has left it.
pub fn counter_reply(response: &Response) -> (r: MemCachedResult<u64>)
    ensures
        match r {
            Ok(counter) => spec_counter(response@) == Ok::<u64, ErrorView>(counter),
            Err(e) => spec_counter(response@) == Err::<u64, ErrorView>(e@),
        },
{
    if response.value.len() == 8 {
        let counter = get_u64(response.value.as_slice(), 0);
        assert(response.value@.subrange(0, 8) =~= response.value@);
        Ok(counter)
    } else {
        Err(Error::new(ErrorKind::MalformedFrame, "counter is not 8 bytes", None))
    }
}

/// The result of `increment_cas` and of `decrement_cas`: the counter as the
/// server has left it, and the new CAS token of the item.
pub fn counter_cas_reply(response: &Response) -> (r: MemCachedResult<(u64, u64)>)
    ensures
        match r {
            Ok((counter, cas)) => cas == response@.cas && spec_counter(response@) == Ok::<
                u64,
                ErrorView,
            >(counter),
            Err(e) => spec_counter(response@) == Err::<u64, ErrorView>(e@),
        },
{
    match counter_reply(response) {
        Ok(counter) => Ok((counter, response.cas)),
        Err(e) => Err(e),
    }
}

/// The version of a server.
#[derive(Clone, Copy, Debug, PartialEq, Eq, Structural)]
pub struct Version {
    pub major: u32,
    pub minor: u32,
    pub patch: u32,
}

/// What `Version::from_str` of the crate `version` makes of a text: the
/// major, minor and patch numbers of the version it reads, or nothing where
/// it reports an error.
pub uninterp spec fn parsed_version(text: Seq<char>) -> Option<(u32, u32, u32)>;

/// `Version::from_str` of the crate `version`. The result is the function
/// [`parsed_version`] of the text: the parser reads nothing but its
/// argument.
#[verifier::external_body]
fn parse_version(text: &str) -> (r: Option<(u32, u32, u32)>)
    ensures
        r == parsed_version(text@),
{
    match text.parse::<::version::Version>() {
        Ok(v) => Some((v.major, v.minor, v.patch)),
        Err(_) => None,
    }
}

/// The version that the parser's result stands for, or the error for a
/// text that it did not accept.
pub fn version_from_parts(parts: Option<(u32, u32, u32)>) -> (r: MemCachedResult<Version>)
    ensures
        match r {
            Ok(version) => parts == Some((version.major, version.minor, version.patch)),
            Err(e) => parts is None && e@ == bad_version(),
        },
{
    match parts {
        Some((major, minor, patch)) => Ok(Version { major, minor, patch }),
        None => Err(Error::new(ErrorKind::OtherError, "unrecognized version string", None)),
    }
}

/// The version that the value of a response spells.
pub open spec fn spec_version(value: Seq<u8>) -> Result<Version, ErrorView> {
    match text_of(value) {
        None => Err(version_not_text()),
        Some(text) => match parsed_version(text) {
            Some((major, minor, patch)) => Ok(Version { major, minor, patch }),
            None => Err(bad_version()),
        },
    }
}

/// The result of `version`: the value of the response, read as text and
/// parsed as a version.
pub fn version_reply(response: &Response) -> (r: MemCachedResult<Version>)
    ensures
        match r {
            Ok(version) => spec_version(response@.value) == Ok::<Version, ErrorView>(version),
            Err(e) => spec_version(response@.value) == Err::<Version, ErrorView>(e@),
        },
{
    match utf8_text(response.value.as_slice()) {
        None => Err(Error::new(ErrorKind::OtherError, "version is not text", None)),
        Some(text) => version_from_parts(parse_version(text.as_str())),
    }
}

} // verus!
