//! The packet codec: request frames to bytes, bytes to response frames.
//!
//! A frame is a fixed header of 24 bytes followed by a body. The header
//! holds, in this order and with big-endian integers: a magic byte, the
//! opcode, the key length (2 bytes), the extras length, the data type, the
//! status of a response or the reserved field of a request (2 bytes), the
//! length of the body (4 bytes), the opaque token (4 bytes) and the CAS
//! token (8 bytes). The body holds the extras, then the key, then the value.

use crate::proto::binarydef::{
    Opcode, DATA_TYPE_RAW_BYTES, HEADER_LEN, MAGIC_REQUEST, MAGIC_RESPONSE,
};
use crate::proto::error::{Error, ErrorKind, ErrorView, MemCachedResult};
use crate::proto::status::Status;
use crate::proto::text::{
    decimal, decimal_text, decimal_value, lemma_decimal_round_trip, text_of, utf8_text,
};
use crate::proto::wire::{
    be16, be32, be64, from_be16, from_be32, from_be64, get_u16, get_u32, get_u64,
    lemma_be16_round_trip, lemma_be32_round_trip, lemma_be64_round_trip, put_u16, put_u32,
    put_u64,
};
use vstd::prelude::*;
use vstd::slice::{slice_subrange, slice_to_vec};

verus! {

broadcast use vstd::slice::group_slice_axioms;

/// The 24 bytes of a frame header.
pub open spec fn header_bytes(
    magic: u8,
    opcode: u8,
    key_len: u16,
    extras_len: u8,
    data_type: u8,
    status: u16,
    body_len: u32,
    opaque: u32,
    cas: u64,
) -> Seq<u8> {
    seq![magic, opcode] + be16(key_len) + seq![extras_len, data_type] + be16(status) + be32(
        body_len,
    ) + be32(opaque) + be64(cas)
}

/// Where each field of a header lies among its 24 bytes.
pub proof fn lemma_header_layout(
    magic: u8,
    opcode: u8,
    key_len: u16,
    extras_len: u8,
    data_type: u8,
    status: u16,
    body_len: u32,
    opaque: u32,
    cas: u64,
)
    ensures
        ({
            let h = header_bytes(
                magic,
                opcode,
                key_len,
                extras_len,
                data_type,
                status,
                body_len,
                opaque,
                cas,
            );
            &&& h.len() == HEADER_LEN
            &&& h[0] == magic
            &&& h[1] == opcode
            &&& h.subrange(2, 4) == be16(key_len)
            &&& h[4] == extras_len
            &&& h[5] == data_type
            &&& h.subrange(6, 8) == be16(status)
            &&& h.subrange(8, 12) == be32(body_len)
            &&& h.subrange(12, 16) == be32(opaque)
            &&& h.subrange(16, 24) == be64(cas)
        }),
{
    let h = header_bytes(
        magic,
        opcode,
        key_len,
        extras_len,
        data_type,
        status,
        body_len,
        opaque,
        cas,
    );
    lemma_be16_round_trip(key_len);
    lemma_be16_round_trip(status);
    lemma_be32_round_trip(body_len);
    lemma_be32_round_trip(opaque);
    lemma_be64_round_trip(cas);
    assert(h.subrange(2, 4) =~= be16(key_len));
    assert(h.subrange(6, 8) =~= be16(status));
    assert(h.subrange(8, 12) =~= be32(body_len));
    assert(h.subrange(12, 16) =~= be32(opaque));
    assert(h.subrange(16, 24) =~= be64(cas));
}

/// A request frame. It borrows its parts for the duration of one encoding.
pub struct Request<'a> {
    pub opcode: Opcode,
    pub key: &'a [u8],
    pub extras: &'a [u8],
    pub value: &'a [u8],
    pub opaque: u32,
    /// The CAS token; 0 asks for no compare.
    pub cas: u64,
}

/// The mathematical content of a [`Request`].
pub struct RequestView {
    pub opcode: Opcode,
    pub key: Seq<u8>,
    pub extras: Seq<u8>,
    pub value: Seq<u8>,
    pub opaque: u32,
    pub cas: u64,
}

impl RequestView {
    /// The length of the body: extras, key and value together.
    pub open spec fn body_len(self) -> nat {
        self.extras.len() + self.key.len() + self.value.len()
    }

    /// Whether the lengths of the frame fit the header fields that hold them.
    pub open spec fn fits(self) -> bool {
        &&& self.key.len() <= u16::MAX
        &&& self.extras.len() <= u8::MAX
        &&& self.body_len() <= u32::MAX
    }

    /// The header of the frame.
    pub open spec fn header(self) -> Seq<u8> {
        header_bytes(
            MAGIC_REQUEST,
            self.opcode.spec_code(),
            self.key.len() as u16,
            self.extras.len() as u8,
            DATA_TYPE_RAW_BYTES,
            0,
            self.body_len() as u32,
            self.opaque,
            self.cas,
        )
    }

    /// The bytes of the frame on the wire.
    pub open spec fn wire(self) -> Seq<u8> {
        self.header() + self.extras + self.key + self.value
    }
}

impl<'a> View for Request<'a> {
    type V = RequestView;

    open spec fn view(&self) -> RequestView {
        RequestView {
            opcode: self.opcode,
            key: self.key@,
            extras: self.extras@,
            value: self.value@,
            opaque: self.opaque,
            cas: self.cas,
        }
    }
}

/// The error for a request whose key, extras or body is longer than the
/// header can say.
pub open spec fn oversized() -> ErrorView {
    ErrorView { kind: ErrorKind::OtherError, desc: "request too long for a frame"@, detail: None }
}

/// The error for a frame that ends before its declared length.
pub open spec fn truncated() -> ErrorView {
    ErrorView { kind: ErrorKind::MalformedFrame, desc: "truncated frame"@, detail: None }
}

/// The error for a response that does not start with the response magic byte.
pub open spec fn bad_magic() -> ErrorView {
    ErrorView { kind: ErrorKind::MalformedFrame, desc: "bad magic byte"@, detail: None }
}

/// The error for a response whose extras and key are declared longer than
/// its body.
pub open spec fn bad_lengths() -> ErrorView {
    ErrorView { kind: ErrorKind::MalformedFrame, desc: "inconsistent lengths"@, detail: None }
}

/// The error for a response with a status code that the protocol does not
/// define. Its detail is the code as a decimal numeral.
pub open spec fn unknown_status(code: u16) -> ErrorView {
    ErrorView {
        kind: ErrorKind::OtherError,
        desc: "unknown status code"@,
        detail: Some(decimal(code as nat)),
    }
}

/// The error for a response with a status other than "no error". Its
/// detail is the message that the server sent as the value, where there is
/// one and it is text.
pub open spec fn status_error(status: Status, message: Seq<u8>) -> ErrorView {
    ErrorView {
        kind: ErrorKind::MemCachedError(status),
        desc: status.spec_desc(),
        detail: if message.len() == 0 {
            None
        } else {
            text_of(message)
        },
    }
}

impl<'a> Request<'a> {
    /// Encodes the frame: the header, then extras, key and value. Fails
    /// exactly when a length does not fit its header field.
    pub fn encode(&self) -> (r: MemCachedResult<Vec<u8>>)
        ensures
            match r {
                Ok(bytes) => self@.fits() && bytes@ == self@.wire(),
                Err(e) => !self@.fits() && e@ == oversized(),
            },
    {
        let key_len = self.key.len();
        let extras_len = self.extras.len();
        let value_len = self.value.len();
        if key_len > 0xffff || extras_len > 0xff || value_len > 0xffff_ffff {
            return Err(Error::new(ErrorKind::OtherError, "request too long for a frame", None));
        }
        let body_len: u64 = key_len as u64 + extras_len as u64 + value_len as u64;
        if body_len > 0xffff_ffff {
            return Err(Error::new(ErrorKind::OtherError, "request too long for a frame", None));
        }
        let mut out: Vec<u8> = Vec::new();
        out.push(MAGIC_REQUEST);
        out.push(self.opcode.code());
        put_u16(&mut out, key_len as u16);
        out.push(extras_len as u8);
        out.push(DATA_TYPE_RAW_BYTES);
        put_u16(&mut out, 0);
        put_u32(&mut out, body_len as u32);
        put_u32(&mut out, self.opaque);
        put_u64(&mut out, self.cas);
        assert(out@ =~= self@.header());
        out.extend_from_slice(self.extras);
        out.extend_from_slice(self.key);
        out.extend_from_slice(self.value);
        Ok(out)
    }
}

/// The header of a response frame, as read from the wire.
#[derive(Clone, Copy, Debug, PartialEq, Eq, Structural)]
pub struct ResponseHeader {
    /// The opcode of the request that the response answers.
    pub opcode: u8,
    pub key_len: u16,
    pub extras_len: u8,
    pub data_type: u8,
    /// The status code, not yet mapped to a [`Status`].
    pub status: u16,
    /// The length of the body that follows the header.
    pub body_len: u32,
    /// The opaque token of the request that the response answers.
    pub opaque: u32,
    pub cas: u64,
}

/// A response frame with the status "no error".
#[derive(Clone, Debug, PartialEq, Eq)]
pub struct Response {
    /// The opcode of the request that the response answers.
    pub opcode: u8,
    pub status: Status,
    pub key: Vec<u8>,
    pub extras: Vec<u8>,
    pub value: Vec<u8>,
    /// The opaque token of the request that the response answers.
    pub opaque: u32,
    /// The CAS token that the server has assigned to the item.
    pub cas: u64,
}

/// The mathematical content of a [`Response`].
pub struct ResponseView {
    pub opcode: u8,
    pub status: Status,
    pub key: Seq<u8>,
    pub extras: Seq<u8>,
    pub value: Seq<u8>,
    pub opaque: u32,
    pub cas: u64,
}

impl View for Response {
    type V = ResponseView;

    open spec fn view(&self) -> ResponseView {
        ResponseView {
            opcode: self.opcode,
            status: self.status,
            key: self.key@,
            extras: self.extras@,
            value: self.value@,
            opaque: self.opaque,
            cas: self.cas,
        }
    }
}

impl ResponseView {
    /// The length of the body: extras, key and value together.
    pub open spec fn body_len(self) -> nat {
        self.extras.len() + self.key.len() + self.value.len()
    }

    /// Whether the lengths of the frame fit the header fields that hold them.
    pub open spec fn fits(self) -> bool {
        &&& self.key.len() <= u16::MAX
        &&& self.extras.len() <= u8::MAX
        &&& self.body_len() <= u32::MAX
    }

    /// The bytes with which a server sends the frame.
    pub open spec fn wire(self) -> Seq<u8> {
        header_bytes(
            MAGIC_RESPONSE,
            self.opcode,
            self.key.len() as u16,
            self.extras.len() as u8,
            DATA_TYPE_RAW_BYTES,
            self.status.spec_code(),
            self.body_len() as u32,
            self.opaque,
            self.cas,
        ) + self.extras + self.key + self.value
    }
}

/// What a decoding step gives, over the views of its results.
pub open spec fn decoded(r: MemCachedResult<Response>) -> Result<ResponseView, ErrorView> {
    match r {
        Ok(response) => Ok(response@),
        Err(e) => Err(e@),
    }
}

impl ResponseHeader {
    /// The header that the first 24 bytes of `bytes` spell: an error where
    /// there are fewer bytes, or where the first is not the response magic.
    pub open spec fn spec_parse(bytes: Seq<u8>) -> Result<ResponseHeader, ErrorView> {
        if bytes.len() < HEADER_LEN {
            Err(truncated())
        } else if bytes[0] != MAGIC_RESPONSE {
            Err(bad_magic())
        } else {
            Ok(
                ResponseHeader {
                    opcode: bytes[1],
                    key_len: from_be16(bytes.subrange(2, 4)),
                    extras_len: bytes[4],
                    data_type: bytes[5],
                    status: from_be16(bytes.subrange(6, 8)),
                    body_len: from_be32(bytes.subrange(8, 12)),
                    opaque: from_be32(bytes.subrange(12, 16)),
                    cas: from_be64(bytes.subrange(16, 24)),
                },
            )
        }
    }

    /// Reads a response header from the first 24 bytes of `bytes`.
    pub fn parse(bytes: &[u8]) -> (r: MemCachedResult<ResponseHeader>)
        ensures
            match r {
                Ok(header) => Self::spec_parse(bytes@) == Ok::<ResponseHeader, ErrorView>(header),
                Err(e) => Self::spec_parse(bytes@) == Err::<ResponseHeader, ErrorView>(e@),
            },
    {
        if bytes.len() < HEADER_LEN {
            return Err(Error::new(ErrorKind::MalformedFrame, "truncated frame", None));
        }
        if bytes[0] != MAGIC_RESPONSE {
            return Err(Error::new(ErrorKind::MalformedFrame, "bad magic byte", None));
        }
        Ok(
            ResponseHeader {
                opcode: bytes[1],
                key_len: get_u16(bytes, 2),
                extras_len: bytes[4],
                data_type: bytes[5],
                status: get_u16(bytes, 6),
                body_len: get_u32(bytes, 8),
                opaque: get_u32(bytes, 12),
                cas: get_u64(bytes, 16),
            },
        )
    }

    /// The response that a header and the bytes after it spell.
    ///
    /// The body must hold at least the declared number of bytes, and the
    /// extras and key must fit in it. A status code outside the defined set
    /// gives the "other" error with the code in its detail; a status other
    /// than "no error" gives the error of that status, and the value is
    /// then read as its message, never as data.
    pub open spec fn spec_decode_body(self, body: Seq<u8>) -> Result<ResponseView, ErrorView> {
        let extras_end = self.extras_len as int;
        let key_end = self.extras_len + self.key_len;
        let value_end = self.body_len as int;
        if body.len() < self.body_len {
            Err(truncated())
        } else if key_end > value_end {
            Err(bad_lengths())
        } else {
            match Status::spec_from_code(self.status) {
                None => Err(unknown_status(self.status)),
                Some(status) => if status == Status::NoError {
                    Ok(
                        ResponseView {
                            opcode: self.opcode,
                            status,
                            key: body.subrange(extras_end, key_end),
                            extras: body.subrange(0, extras_end),
                            value: body.subrange(key_end, value_end),
                            opaque: self.opaque,
                            cas: self.cas,
                        },
                    )
                } else {
                    Err(status_error(status, body.subrange(key_end, value_end)))
                },
            }
        }
    }

    /// Decodes the body that follows this header. Bytes of `body` beyond the
    /// declared length are not read.
    pub fn decode_body(&self, body: &[u8]) -> (r: MemCachedResult<Response>)
        ensures
            decoded(r) == self.spec_decode_body(body@),
    {
        let extras_end: usize = self.extras_len as usize;
        let key_end: usize = extras_end + self.key_len as usize;
        let value_end: usize = self.body_len as usize;
        if body.len() < value_end {
            return Err(Error::new(ErrorKind::MalformedFrame, "truncated frame", None));
        }
        if key_end > value_end {
            return Err(Error::new(ErrorKind::MalformedFrame, "inconsistent lengths", None));
        }
        match Status::from_code(self.status) {
            None => Err(
                Error::new(
                    ErrorKind::OtherError,
                    "unknown status code",
                    Some(decimal_text(self.status)),
                ),
            ),
            Some(status) => {
                let value = slice_subrange(body, key_end, value_end);
                if status == Status::NoError {
                    Ok(
                        Response {
                            opcode: self.opcode,
                            status,
                            key: slice_to_vec(slice_subrange(body, extras_end, key_end)),
                            extras: slice_to_vec(slice_subrange(body, 0, extras_end)),
                            value: slice_to_vec(value),
                            opaque: self.opaque,
                            cas: self.cas,
                        },
                    )
                } else {
                    let detail = if value.len() == 0 {
                        None
                    } else {
                        utf8_text(value)
                    };
                    Err(Error::new(ErrorKind::MemCachedError(status), status.desc(), detail))
                }
            },
        }
    }
}

/// The response that a whole frame spells: its header, then its body.
pub open spec fn spec_decode_response(bytes: Seq<u8>) -> Result<ResponseView, ErrorView> {
    match ResponseHeader::spec_parse(bytes) {
        Ok(header) => header.spec_decode_body(bytes.skip(HEADER_LEN as int)),
        Err(e) => Err(e),
    }
}

/// Decodes the response frame at the start of `bytes`. Bytes beyond the
/// frame are not read.
pub fn decode_response(bytes: &[u8]) -> (r: MemCachedResult<Response>)
    ensures
        decoded(r) == spec_decode_response(bytes@),
{
    match ResponseHeader::parse(bytes) {
        Ok(header) => {
            let body = slice_subrange(bytes, HEADER_LEN, bytes.len());
            assert(body@ =~= bytes@.skip(HEADER_LEN as int));
            header.decode_body(body)
        },
        Err(e) => Err(e),
    }
}

/// The layout of a request on the wire: a header of 24 bytes whose fields
/// say the opcode, the lengths and the tokens of the request, then the
/// extras, the key and the value.
pub proof fn lemma_request_wire_layout(request: RequestView)
    requires
        request.fits(),
    ensures
        ({
            let wire = request.wire();
            let extras_end = HEADER_LEN + request.extras.len();
            let key_end = extras_end + request.key.len();
            &&& wire.len() == HEADER_LEN + request.body_len()
            &&& wire[0] == MAGIC_REQUEST
            &&& wire[1] == request.opcode.spec_code()
            &&& from_be16(wire.subrange(2, 4)) == request.key.len()
            &&& wire[4] == request.extras.len()
            &&& wire[5] == DATA_TYPE_RAW_BYTES
            &&& from_be16(wire.subrange(6, 8)) == 0
            &&& from_be32(wire.subrange(8, 12)) == request.body_len()
            &&& from_be32(wire.subrange(12, 16)) == request.opaque
            &&& from_be64(wire.subrange(16, 24)) == request.cas
            &&& wire.subrange(HEADER_LEN as int, extras_end) == request.extras
            &&& wire.subrange(extras_end, key_end) == request.key
            &&& wire.subrange(key_end, wire.len() as int) == request.value
        }),
{
    let wire = request.wire();
    let header = request.header();
    lemma_header_layout(
        MAGIC_REQUEST,
        request.opcode.spec_code(),
        request.key.len() as u16,
        request.extras.len() as u8,
        DATA_TYPE_RAW_BYTES,
        0,
        request.body_len() as u32,
        request.opaque,
        request.cas,
    );
    lemma_be16_round_trip(request.key.len() as u16);
    lemma_be16_round_trip(0);
    lemma_be32_round_trip(request.body_len() as u32);
    lemma_be32_round_trip(request.opaque);
    lemma_be64_round_trip(request.cas);
    assert(wire.subrange(0, HEADER_LEN as int) =~= header);
    assert(wire.subrange(2, 4) =~= header.subrange(2, 4));
    assert(wire.subrange(6, 8) =~= header.subrange(6, 8));
    assert(wire.subrange(8, 12) =~= header.subrange(8, 12));
    assert(wire.subrange(12, 16) =~= header.subrange(12, 16));
    assert(wire.subrange(16, 24) =~= header.subrange(16, 24));
    let extras_end = HEADER_LEN + request.extras.len();
    let key_end = extras_end + request.key.len();
    assert(wire.subrange(HEADER_LEN as int, extras_end) =~= request.extras);
    assert(wire.subrange(extras_end, key_end) =~= request.key);
    assert(wire.subrange(key_end, wire.len() as int) =~= request.value);
}

/// Two requests with the same bytes on the wire are the same request.
pub proof fn lemma_request_wire_injective(a: RequestView, b: RequestView)
    requires
        a.fits(),
        b.fits(),
        a.wire() == b.wire(),
    ensures
        a == b,
{
    lemma_request_wire_layout(a);
    lemma_request_wire_layout(b);
    Opcode::lemma_code_injective(a.opcode, b.opcode);
    assert(a.key.len() == b.key.len());
    assert(a.extras.len() == b.extras.len());
    assert(a.extras =~= b.extras);
    assert(a.key =~= b.key);
    assert(a.value =~= b.value);
}

/// Decoding undoes the server's encoding: the bytes of a response with the
/// status "no error" decode to that response, and the bytes of a response
/// with another status decode to the error of that status, with the value
/// as its message. Bytes that follow the frame change nothing.
pub proof fn lemma_decode_response_wire(response: ResponseView, rest: Seq<u8>)
    requires
        response.fits(),
    ensures
        spec_decode_response(response.wire() + rest) == if response.status == Status::NoError {
            Ok::<ResponseView, ErrorView>(response)
        } else {
            Err::<ResponseView, ErrorView>(status_error(response.status, response.value))
        },
{
    let wire = response.wire();
    let bytes = wire + rest;
    let key_len = response.key.len() as u16;
    let extras_len = response.extras.len() as u8;
    let body_len = response.body_len() as u32;
    let code = response.status.spec_code();
    let head = header_bytes(
        MAGIC_RESPONSE,
        response.opcode,
        key_len,
        extras_len,
        DATA_TYPE_RAW_BYTES,
        code,
        body_len,
        response.opaque,
        response.cas,
    );
    lemma_header_layout(
        MAGIC_RESPONSE,
        response.opcode,
        key_len,
        extras_len,
        DATA_TYPE_RAW_BYTES,
        code,
        body_len,
        response.opaque,
        response.cas,
    );
    lemma_be16_round_trip(key_len);
    lemma_be16_round_trip(code);
    lemma_be32_round_trip(body_len);
    lemma_be32_round_trip(response.opaque);
    lemma_be64_round_trip(response.cas);
    assert(bytes.subrange(0, HEADER_LEN as int) =~= head);
    assert(bytes.subrange(2, 4) =~= head.subrange(2, 4));
    assert(bytes.subrange(6, 8) =~= head.subrange(6, 8));
    assert(bytes.subrange(8, 12) =~= head.subrange(8, 12));
    assert(bytes.subrange(12, 16) =~= head.subrange(12, 16));
    assert(bytes.subrange(16, 24) =~= head.subrange(16, 24));
    let header = ResponseHeader {
        opcode: response.opcode,
        key_len,
        extras_len,
        data_type: DATA_TYPE_RAW_BYTES,
        status: code,
        body_len,
        opaque: response.opaque,
        cas: response.cas,
    };
    assert(ResponseHeader::spec_parse(bytes) == Ok::<ResponseHeader, ErrorView>(header));
    let body = bytes.skip(HEADER_LEN as int);
    assert(body =~= response.extras + response.key + response.value + rest);
    let extras_end = extras_len as int;
    let key_end = extras_len + key_len;
    assert(body.subrange(0, extras_end) =~= response.extras);
    assert(body.subrange(extras_end, key_end) =~= response.key);
    assert(body.subrange(key_end, body_len as int) =~= response.value);
    Status::lemma_code_round_trip(response.status);
}

/// Decoding reads one frame and no more: what a run of bytes decodes to
/// depends on the header and on as many bytes after it as the header
/// declares, not on what follows them.
pub proof fn lemma_decode_reads_one_frame(bytes: Seq<u8>, header: ResponseHeader)
    requires
        ResponseHeader::spec_parse(bytes) == Ok::<ResponseHeader, ErrorView>(header),
        bytes.len() >= HEADER_LEN + header.body_len,
    ensures
        spec_decode_response(bytes) == spec_decode_response(
            bytes.take(HEADER_LEN + header.body_len),
        ),
{
    let frame = bytes.take(HEADER_LEN + header.body_len);
    assert(frame.subrange(2, 4) =~= bytes.subrange(2, 4));
    assert(frame.subrange(6, 8) =~= bytes.subrange(6, 8));
    assert(frame.subrange(8, 12) =~= bytes.subrange(8, 12));
    assert(frame.subrange(12, 16) =~= bytes.subrange(12, 16));
    assert(frame.subrange(16, 24) =~= bytes.subrange(16, 24));
    assert(ResponseHeader::spec_parse(frame) == Ok::<ResponseHeader, ErrorView>(header));
    let whole = bytes.skip(HEADER_LEN as int);
    let body = frame.skip(HEADER_LEN as int);
    let extras_end = header.extras_len as int;
    let key_end = header.extras_len + header.key_len;
    let value_end = header.body_len as int;
    if key_end <= value_end {
        assert(body.subrange(0, extras_end) =~= whole.subrange(0, extras_end));
        assert(body.subrange(extras_end, key_end) =~= whole.subrange(extras_end, key_end));
        assert(body.subrange(key_end, value_end) =~= whole.subrange(key_end, value_end));
    }
}

/// A response whose status code is outside the defined set decodes to the
/// "other" error, and the detail of that error is the numeral of the code:
/// the code can be read back from it.
pub proof fn lemma_unknown_status_keeps_code(header: ResponseHeader, body: Seq<u8>)
    requires
        !Status::is_defined_code(header.status),
        body.len() >= header.body_len,
        header.extras_len + header.key_len <= header.body_len,
    ensures
        header.spec_decode_body(body) == Err::<ResponseView, ErrorView>(
            unknown_status(header.status),
        ),
        unknown_status(header.status).kind == ErrorKind::OtherError,
        unknown_status(header.status).detail matches Some(text) && decimal_value(text)
            == header.status,
{
    lemma_decimal_round_trip(header.status as nat);
}

} // verus!
