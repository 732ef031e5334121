//! The numbers of the binary protocol: magic bytes, opcodes and status codes.

use vstd::prelude::*;

verus! {

/// The first byte of every request frame.
pub const MAGIC_REQUEST: u8 = 0x80;

/// The first byte of every response frame.
pub const MAGIC_RESPONSE: u8 = 0x81;

/// The length in bytes of the fixed header of a frame.
pub const HEADER_LEN: usize = 24;

/// The only data type of the protocol: raw bytes.
pub const DATA_TYPE_RAW_BYTES: u8 = 0x00;

pub const STATUS_NO_ERROR: u16 = 0x0000;

pub const STATUS_KEY_NOT_FOUND: u16 = 0x0001;

pub const STATUS_KEY_EXISTS: u16 = 0x0002;

pub const STATUS_VALUE_TOO_LARGE: u16 = 0x0003;

pub const STATUS_INVALID_ARGUMENTS: u16 = 0x0004;

pub const STATUS_ITEM_NOT_STORED: u16 = 0x0005;

pub const STATUS_INCR_OR_DECR_ON_NON_NUMERIC_VALUE: u16 = 0x0006;

pub const STATUS_VBUCKET_BELONGS_TO_OTHER_SERVER: u16 = 0x0007;

pub const STATUS_AUTHENTICATION_ERROR: u16 = 0x0008;

pub const STATUS_AUTHENTICATION_CONTINUE: u16 = 0x0009;

pub const STATUS_UNKNOWN_COMMAND: u16 = 0x0081;

pub const STATUS_OUT_OF_MEMORY: u16 = 0x0082;

pub const STATUS_NOT_SUPPORTED: u16 = 0x0083;

pub const STATUS_INTERNAL_ERROR: u16 = 0x0084;

pub const STATUS_BUSY: u16 = 0x0085;

pub const STATUS_TEMPORARY_FAILURE: u16 = 0x0086;

pub const OPCODE_GET: u8 = 0x00;

pub const OPCODE_SET: u8 = 0x01;

pub const OPCODE_ADD: u8 = 0x02;

pub const OPCODE_REPLACE: u8 = 0x03;

pub const OPCODE_DELETE: u8 = 0x04;

pub const OPCODE_INCREMENT: u8 = 0x05;

pub const OPCODE_DECREMENT: u8 = 0x06;

pub const OPCODE_QUIT: u8 = 0x07;

pub const OPCODE_FLUSH: u8 = 0x08;

pub const OPCODE_GETQ: u8 = 0x09;

pub const OPCODE_NOOP: u8 = 0x0a;

pub const OPCODE_VERSION: u8 = 0x0b;

pub const OPCODE_GETK: u8 = 0x0c;

pub const OPCODE_GETKQ: u8 = 0x0d;

pub const OPCODE_APPEND: u8 = 0x0e;

pub const OPCODE_PREPEND: u8 = 0x0f;

pub const OPCODE_STAT: u8 = 0x10;

pub const OPCODE_SETQ: u8 = 0x11;

pub const OPCODE_ADDQ: u8 = 0x12;

pub const OPCODE_REPLACEQ: u8 = 0x13;

pub const OPCODE_DELETEQ: u8 = 0x14;

pub const OPCODE_INCREMENTQ: u8 = 0x15;

pub const OPCODE_DECREMENTQ: u8 = 0x16;

pub const OPCODE_QUITQ: u8 = 0x17;

pub const OPCODE_FLUSHQ: u8 = 0x18;

pub const OPCODE_APPENDQ: u8 = 0x19;

pub const OPCODE_PREPENDQ: u8 = 0x1a;

pub const OPCODE_TOUCH: u8 = 0x1c;

/// The commands of the binary protocol that this client issues. A name
/// that ends in `Q` is the quiet variant of a command: the server sends no
/// response to it unless it fails (or, for a quiet get, unless it hits).
#[derive(Clone, Copy, Debug, PartialEq, Eq, Structural)]
pub enum Opcode {
    Get,
    /// The `set` command: store a value whether or not the key exists.
    Store,
    Add,
    Replace,
    Delete,
    Increment,
    Decrement,
    Quit,
    Flush,
    GetQ,
    Noop,
    Version,
    GetK,
    GetKQ,
    Append,
    Prepend,
    Stat,
    StoreQ,
    AddQ,
    ReplaceQ,
    DeleteQ,
    IncrementQ,
    DecrementQ,
    QuitQ,
    FlushQ,
    AppendQ,
    PrependQ,
    Touch,
}

impl Opcode {
    /// The wire code of a command.
    pub open spec fn spec_code(&self) -> u8 {
        match *self {
            Opcode::Get => OPCODE_GET,
            Opcode::Store => OPCODE_SET,
            Opcode::Add => OPCODE_ADD,
            Opcode::Replace => OPCODE_REPLACE,
            Opcode::Delete => OPCODE_DELETE,
            Opcode::Increment => OPCODE_INCREMENT,
            Opcode::Decrement => OPCODE_DECREMENT,
            Opcode::Quit => OPCODE_QUIT,
            Opcode::Flush => OPCODE_FLUSH,
            Opcode::GetQ => OPCODE_GETQ,
            Opcode::Noop => OPCODE_NOOP,
            Opcode::Version => OPCODE_VERSION,
            Opcode::GetK => OPCODE_GETK,
            Opcode::GetKQ => OPCODE_GETKQ,
            Opcode::Append => OPCODE_APPEND,
            Opcode::Prepend => OPCODE_PREPEND,
            Opcode::Stat => OPCODE_STAT,
            Opcode::StoreQ => OPCODE_SETQ,
            Opcode::AddQ => OPCODE_ADDQ,
            Opcode::ReplaceQ => OPCODE_REPLACEQ,
            Opcode::DeleteQ => OPCODE_DELETEQ,
            Opcode::IncrementQ => OPCODE_INCREMENTQ,
            Opcode::DecrementQ => OPCODE_DECREMENTQ,
            Opcode::QuitQ => OPCODE_QUITQ,
            Opcode::FlushQ => OPCODE_FLUSHQ,
            Opcode::AppendQ => OPCODE_APPENDQ,
            Opcode::PrependQ => OPCODE_PREPENDQ,
            Opcode::Touch => OPCODE_TOUCH,
        }
    }

    /// Whether `code` is the wire code of some command.
    pub open spec fn is_defined_code(code: u8) -> bool {
        exists|op: Opcode| #[trigger] op.spec_code() == code
    }

    /// The command that a wire code stands for, if any: the inverse of
    /// [`Opcode::spec_code`].
    pub open spec fn spec_from_code(code: u8) -> Option<Opcode> {
        if Self::is_defined_code(code) {
            Some(choose|op: Opcode| #[trigger] op.spec_code() == code)
        } else {
            None
        }
    }

    /// The quiet variant of a command, for the commands that have one.
    pub open spec fn spec_quiet(&self) -> Option<Opcode> {
        match *self {
            Opcode::Get => Some(Opcode::GetQ),
            Opcode::Store => Some(Opcode::StoreQ),
            Opcode::Add => Some(Opcode::AddQ),
            Opcode::Replace => Some(Opcode::ReplaceQ),
            Opcode::Delete => Some(Opcode::DeleteQ),
            Opcode::Increment => Some(Opcode::IncrementQ),
            Opcode::Decrement => Some(Opcode::DecrementQ),
            Opcode::Quit => Some(Opcode::QuitQ),
            Opcode::Flush => Some(Opcode::FlushQ),
            Opcode::GetK => Some(Opcode::GetKQ),
            Opcode::Append => Some(Opcode::AppendQ),
            Opcode::Prepend => Some(Opcode::PrependQ),
            _ => None,
        }
    }

    /// Whether a command is the quiet variant of another.
    pub open spec fn spec_is_quiet(&self) -> bool {
        exists|op: Opcode| #[trigger] op.spec_quiet() == Some(*self)
    }

    /// The wire code of the command.
    #[verifier::when_used_as_spec(spec_code)]
    pub fn code(&self) -> (r: u8)
        ensures
            r == self.spec_code(),
    {
        match *self {
            Opcode::Get => OPCODE_GET,
            Opcode::Store => OPCODE_SET,
            Opcode::Add => OPCODE_ADD,
            Opcode::Replace => OPCODE_REPLACE,
            Opcode::Delete => OPCODE_DELETE,
            Opcode::Increment => OPCODE_INCREMENT,
            Opcode::Decrement => OPCODE_DECREMENT,
            Opcode::Quit => OPCODE_QUIT,
            Opcode::Flush => OPCODE_FLUSH,
            Opcode::GetQ => OPCODE_GETQ,
            Opcode::Noop => OPCODE_NOOP,
            Opcode::Version => OPCODE_VERSION,
            Opcode::GetK => OPCODE_GETK,
            Opcode::GetKQ => OPCODE_GETKQ,
            Opcode::Append => OPCODE_APPEND,
            Opcode::Prepend => OPCODE_PREPEND,
            Opcode::Stat => OPCODE_STAT,
            Opcode::StoreQ => OPCODE_SETQ,
            Opcode::AddQ => OPCODE_ADDQ,
            Opcode::ReplaceQ => OPCODE_REPLACEQ,
            Opcode::DeleteQ => OPCODE_DELETEQ,
            Opcode::IncrementQ => OPCODE_INCREMENTQ,
            Opcode::DecrementQ => OPCODE_DECREMENTQ,
            Opcode::QuitQ => OPCODE_QUITQ,
            Opcode::FlushQ => OPCODE_FLUSHQ,
            Opcode::AppendQ => OPCODE_APPENDQ,
            Opcode::PrependQ => OPCODE_PREPENDQ,
            Opcode::Touch => OPCODE_TOUCH,
        }
    }

    /// The command with the given wire code, if the client knows one.
    pub fn from_code(code: u8) -> (r: Option<Opcode>)
        ensures
            r == Self::spec_from_code(code),
            r matches Some(op) ==> op.spec_code() == code,
            r is None ==> forall|op: Opcode| #[trigger] op.spec_code() != code,
    {
        let r = match code {
            OPCODE_GET => Some(Opcode::Get),
            OPCODE_SET => Some(Opcode::Store),
            OPCODE_ADD => Some(Opcode::Add),
            OPCODE_REPLACE => Some(Opcode::Replace),
            OPCODE_DELETE => Some(Opcode::Delete),
            OPCODE_INCREMENT => Some(Opcode::Increment),
            OPCODE_DECREMENT => Some(Opcode::Decrement),
            OPCODE_QUIT => Some(Opcode::Quit),
            OPCODE_FLUSH => Some(Opcode::Flush),
            OPCODE_GETQ => Some(Opcode::GetQ),
            OPCODE_NOOP => Some(Opcode::Noop),
            OPCODE_VERSION => Some(Opcode::Version),
            OPCODE_GETK => Some(Opcode::GetK),
            OPCODE_GETKQ => Some(Opcode::GetKQ),
            OPCODE_APPEND => Some(Opcode::Append),
            OPCODE_PREPEND => Some(Opcode::Prepend),
            OPCODE_STAT => Some(Opcode::Stat),
            OPCODE_SETQ => Some(Opcode::StoreQ),
            OPCODE_ADDQ => Some(Opcode::AddQ),
            OPCODE_REPLACEQ => Some(Opcode::ReplaceQ),
            OPCODE_DELETEQ => Some(Opcode::DeleteQ),
            OPCODE_INCREMENTQ => Some(Opcode::IncrementQ),
            OPCODE_DECREMENTQ => Some(Opcode::DecrementQ),
            OPCODE_QUITQ => Some(Opcode::QuitQ),
            OPCODE_FLUSHQ => Some(Opcode::FlushQ),
            OPCODE_APPENDQ => Some(Opcode::AppendQ),
            OPCODE_PREPENDQ => Some(Opcode::PrependQ),
            OPCODE_TOUCH => Some(Opcode::Touch),
            _ => None,
        };
        proof {
            if let Some(op) = r {
                Self::lemma_code_round_trip(op);
            }
        }
        r
    }

    /// The quiet variant of the command, if it has one.
    #[verifier::when_used_as_spec(spec_quiet)]
    pub fn quiet(&self) -> (r: Option<Opcode>)
        ensures
            r == self.spec_quiet(),
    {
        match *self {
            Opcode::Get => Some(Opcode::GetQ),
            Opcode::Store => Some(Opcode::StoreQ),
            Opcode::Add => Some(Opcode::AddQ),
            Opcode::Replace => Some(Opcode::ReplaceQ),
            Opcode::Delete => Some(Opcode::DeleteQ),
            Opcode::Increment => Some(Opcode::IncrementQ),
            Opcode::Decrement => Some(Opcode::DecrementQ),
            Opcode::Quit => Some(Opcode::QuitQ),
            Opcode::Flush => Some(Opcode::FlushQ),
            Opcode::GetK => Some(Opcode::GetKQ),
            Opcode::Append => Some(Opcode::AppendQ),
            Opcode::Prepend => Some(Opcode::PrependQ),
            _ => None,
        }
    }

    /// Whether the command is a quiet variant.
    pub fn is_quiet(&self) -> (r: bool)
        ensures
            r == self.spec_is_quiet(),
    {
        let r = match *self {
            Opcode::GetQ
            | Opcode::GetKQ
            | Opcode::StoreQ
            | Opcode::AddQ
            | Opcode::ReplaceQ
            | Opcode::DeleteQ
            | Opcode::IncrementQ
            | Opcode::DecrementQ
            | Opcode::QuitQ
            | Opcode::FlushQ
            | Opcode::AppendQ
            | Opcode::PrependQ => true,
            _ => false,
        };
        proof {
            if r {
                let plain = Self::loud(*self);
                assert(plain.spec_quiet() == Some(*self));
            } else {
                assert forall|op: Opcode| #[trigger] op.spec_quiet() != Some(*self) by {}
            }
        }
        r
    }

    /// The command of which a quiet command is the variant.
    spec fn loud(op: Opcode) -> Opcode {
        match op {
            Opcode::GetQ => Opcode::Get,
            Opcode::StoreQ => Opcode::Store,
            Opcode::AddQ => Opcode::Add,
            Opcode::ReplaceQ => Opcode::Replace,
            Opcode::DeleteQ => Opcode::Delete,
            Opcode::IncrementQ => Opcode::Increment,
            Opcode::DecrementQ => Opcode::Decrement,
            Opcode::QuitQ => Opcode::Quit,
            Opcode::FlushQ => Opcode::Flush,
            Opcode::GetKQ => Opcode::GetK,
            Opcode::AppendQ => Opcode::Append,
            Opcode::PrependQ => Opcode::Prepend,
            _ => op,
        }
    }

    /// No two commands share a wire code.
    pub proof fn lemma_code_injective(a: Opcode, b: Opcode)
        requires
            a.spec_code() == b.spec_code(),
        ensures
            a == b,
    {
    }

    /// Decoding the wire code of a command gives that command back.
    pub proof fn lemma_code_round_trip(op: Opcode)
        ensures
            Opcode::spec_from_code(op.spec_code()) == Some(op),
    {
        let code = op.spec_code();
        assert(Self::is_defined_code(code));
        let other = choose|other: Opcode| #[trigger] other.spec_code() == code;
        Self::lemma_code_injective(op, other);
    }

    /// The quiet variant of a command is a different command, is itself
    /// quiet, and has no quiet variant of its own.
    pub proof fn lemma_quiet_variant(op: Opcode)
        requires
            op.spec_quiet() is Some,
        ensures
            op.spec_quiet().unwrap() != op,
            op.spec_quiet().unwrap().spec_is_quiet(),
            op.spec_quiet().unwrap().spec_quiet() is None,
            !op.spec_is_quiet(),
    {
        assert forall|other: Opcode| #[trigger] other.spec_quiet() != Some(op) by {}
    }
}

} // verus!
