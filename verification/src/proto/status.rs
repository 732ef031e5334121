//! Response status codes.

use super::binarydef::{
    STATUS_AUTHENTICATION_CONTINUE, STATUS_AUTHENTICATION_ERROR, STATUS_BUSY,
    STATUS_INCR_OR_DECR_ON_NON_NUMERIC_VALUE, STATUS_INTERNAL_ERROR, STATUS_INVALID_ARGUMENTS,
    STATUS_ITEM_NOT_STORED, STATUS_KEY_EXISTS, STATUS_KEY_NOT_FOUND, STATUS_NOT_SUPPORTED,
    STATUS_NO_ERROR, STATUS_OUT_OF_MEMORY, STATUS_TEMPORARY_FAILURE, STATUS_UNKNOWN_COMMAND,
    STATUS_VALUE_TOO_LARGE, STATUS_VBUCKET_BELONGS_TO_OTHER_SERVER,
};
use vstd::prelude::*;

verus! {

/// Memcached response status
#[derive(Clone, Copy, Debug, PartialEq, Eq, Structural)]
pub enum Status {
    NoError,
    KeyNotFound,
    KeyExists,
    ValueTooLarge,
    InvalidArguments,
    ItemNotStored,
    IncrDecrOnNonNumericValue,
    VBucketBelongsToOtherServer,
    AuthenticationError,
    AuthenticationContinue,
    UnknownCommand,
    OutOfMemory,
    NotSupported,
    InternalError,
    Busy,
    TemporaryFailure,
}

impl Status {
    /// The 16-bit wire code of a status.
    pub open spec fn spec_code(&self) -> u16 {
        match *self {
            Status::NoError => STATUS_NO_ERROR,
            Status::KeyNotFound => STATUS_KEY_NOT_FOUND,
            Status::KeyExists => STATUS_KEY_EXISTS,
            Status::ValueTooLarge => STATUS_VALUE_TOO_LARGE,
            Status::InvalidArguments => STATUS_INVALID_ARGUMENTS,
            Status::ItemNotStored => STATUS_ITEM_NOT_STORED,
            Status::IncrDecrOnNonNumericValue => STATUS_INCR_OR_DECR_ON_NON_NUMERIC_VALUE,
            Status::VBucketBelongsToOtherServer => STATUS_VBUCKET_BELONGS_TO_OTHER_SERVER,
            Status::AuthenticationError => STATUS_AUTHENTICATION_ERROR,
            Status::AuthenticationContinue => STATUS_AUTHENTICATION_CONTINUE,
            Status::UnknownCommand => STATUS_UNKNOWN_COMMAND,
            Status::OutOfMemory => STATUS_OUT_OF_MEMORY,
            Status::NotSupported => STATUS_NOT_SUPPORTED,
            Status::InternalError => STATUS_INTERNAL_ERROR,
            Status::Busy => STATUS_BUSY,
            Status::TemporaryFailure => STATUS_TEMPORARY_FAILURE,
        }
    }

    /// Whether `code` is the wire code of some status.
    pub open spec fn is_defined_code(code: u16) -> bool {
        exists|s: Status| #[trigger] s.spec_code() == code
    }

    /// The status that a wire code stands for, if any: the inverse of
    /// [`Status::spec_code`].
    pub open spec fn spec_from_code(code: u16) -> Option<Status> {
        if Self::is_defined_code(code) {
            Some(choose|s: Status| #[trigger] s.spec_code() == code)
        } else {
            None
        }
    }

    /// The fixed description of a status.
    pub open spec fn spec_desc(&self) -> Seq<char> {
        match *self {
            Status::NoError => "no error"@,
            Status::KeyNotFound => "key not found"@,
            Status::KeyExists => "key exists"@,
            Status::ValueTooLarge => "value too large"@,
            Status::InvalidArguments => "invalid argument"@,
            Status::ItemNotStored => "item not stored"@,
            Status::IncrDecrOnNonNumericValue => "incr or decr on non-numeric value"@,
            Status::VBucketBelongsToOtherServer => "vbucket belongs to other server"@,
            Status::AuthenticationError => "authentication error"@,
            Status::AuthenticationContinue => "authentication continue"@,
            Status::UnknownCommand => "unknown command"@,
            Status::OutOfMemory => "out of memory"@,
            Status::NotSupported => "not supported"@,
            Status::InternalError => "internal error"@,
            Status::Busy => "busy"@,
            Status::TemporaryFailure => "temporary failure"@,
        }
    }

    /// Get the binary code of the status
    #[verifier::when_used_as_spec(spec_code)]
    pub fn code(&self) -> (r: u16)
        ensures
            r == self.spec_code(),
    {
        match *self {
            Status::NoError => STATUS_NO_ERROR,
            Status::KeyNotFound => STATUS_KEY_NOT_FOUND,
            Status::KeyExists => STATUS_KEY_EXISTS,
            Status::ValueTooLarge => STATUS_VALUE_TOO_LARGE,
            Status::InvalidArguments => STATUS_INVALID_ARGUMENTS,
            Status::ItemNotStored => STATUS_ITEM_NOT_STORED,
            Status::IncrDecrOnNonNumericValue => STATUS_INCR_OR_DECR_ON_NON_NUMERIC_VALUE,
            Status::VBucketBelongsToOtherServer => STATUS_VBUCKET_BELONGS_TO_OTHER_SERVER,
            Status::AuthenticationError => STATUS_AUTHENTICATION_ERROR,
            Status::AuthenticationContinue => STATUS_AUTHENTICATION_CONTINUE,
            Status::UnknownCommand => STATUS_UNKNOWN_COMMAND,
            Status::OutOfMemory => STATUS_OUT_OF_MEMORY,
            Status::NotSupported => STATUS_NOT_SUPPORTED,
            Status::InternalError => STATUS_INTERNAL_ERROR,
            Status::Busy => STATUS_BUSY,
            Status::TemporaryFailure => STATUS_TEMPORARY_FAILURE,
        }
    }

    /// Generate a Status from binary code
    pub fn from_code(code: u16) -> (r: Option<Status>)
        ensures
            r == Self::spec_from_code(code),
            r matches Some(s) ==> s.spec_code() == code,
            r is None ==> forall|s: Status| #[trigger] s.spec_code() != code,
    {
        let r = match code {
            STATUS_NO_ERROR => Some(Status::NoError),
            STATUS_KEY_NOT_FOUND => Some(Status::KeyNotFound),
            STATUS_KEY_EXISTS => Some(Status::KeyExists),
            STATUS_VALUE_TOO_LARGE => Some(Status::ValueTooLarge),
            STATUS_INVALID_ARGUMENTS => Some(Status::InvalidArguments),
            STATUS_ITEM_NOT_STORED => Some(Status::ItemNotStored),
            STATUS_INCR_OR_DECR_ON_NON_NUMERIC_VALUE => Some(Status::IncrDecrOnNonNumericValue),
            STATUS_VBUCKET_BELONGS_TO_OTHER_SERVER => Some(Status::VBucketBelongsToOtherServer),
            STATUS_AUTHENTICATION_ERROR => Some(Status::AuthenticationError),
            STATUS_AUTHENTICATION_CONTINUE => Some(Status::AuthenticationContinue),
            STATUS_UNKNOWN_COMMAND => Some(Status::UnknownCommand),
            STATUS_OUT_OF_MEMORY => Some(Status::OutOfMemory),
            STATUS_NOT_SUPPORTED => Some(Status::NotSupported),
            STATUS_INTERNAL_ERROR => Some(Status::InternalError),
            STATUS_BUSY => Some(Status::Busy),
            STATUS_TEMPORARY_FAILURE => Some(Status::TemporaryFailure),
            _ => None,
        };
        proof {
            Self::lemma_from_code_inverse(code);
            if let Some(s) = r {
                Self::lemma_code_round_trip(s);
            }
        }
        r
    }

    /// Get a short description
    pub fn desc(&self) -> (r: &'static str)
        ensures
            r@ == self.spec_desc(),
    {
        match *self {
            Status::NoError => "no error",
            Status::KeyNotFound => "key not found",
            Status::KeyExists => "key exists",
            Status::ValueTooLarge => "value too large",
            Status::InvalidArguments => "invalid argument",
            Status::ItemNotStored => "item not stored",
            Status::IncrDecrOnNonNumericValue => "incr or decr on non-numeric value",
            Status::VBucketBelongsToOtherServer => "vbucket belongs to other server",
            Status::AuthenticationError => "authentication error",
            Status::AuthenticationContinue => "authentication continue",
            Status::UnknownCommand => "unknown command",
            Status::OutOfMemory => "out of memory",
            Status::NotSupported => "not supported",
            Status::InternalError => "internal error",
            Status::Busy => "busy",
            Status::TemporaryFailure => "temporary failure",
        }
    }

    /// No two statuses share a wire code.
    pub proof fn lemma_code_injective(a: Status, b: Status)
        requires
            a.spec_code() == b.spec_code(),
        ensures
            a == b,
    {
    }

    /// Decoding the wire code of a status gives that status back.
    pub proof fn lemma_code_round_trip(s: Status)
        ensures
            Status::spec_from_code(s.spec_code()) == Some(s),
    {
        let code = s.spec_code();
        assert(Self::is_defined_code(code));
        let t = choose|t: Status| #[trigger] t.spec_code() == code;
        Self::lemma_code_injective(s, t);
    }

    /// A wire code decodes to a status exactly when it is one of the sixteen
    /// defined codes, and the status it decodes to encodes back to it; every
    /// other code decodes to nothing.
    pub proof fn lemma_from_code_inverse(code: u16)
        ensures
            Self::is_defined_code(code) <==> (code <= STATUS_AUTHENTICATION_CONTINUE
                || STATUS_UNKNOWN_COMMAND <= code <= STATUS_TEMPORARY_FAILURE),
            Self::spec_from_code(code) matches Some(s) ==> s.spec_code() == code,
            !Self::is_defined_code(code) ==> Self::spec_from_code(code) is None,
    {
        if code <= STATUS_AUTHENTICATION_CONTINUE || STATUS_UNKNOWN_COMMAND <= code
            <= STATUS_TEMPORARY_FAILURE {
            let s = Self::witness(code);
            assert(s.spec_code() == code);
        }
    }

    /// The status whose wire code is `code`, for a code of the defined set.
    spec fn witness(code: u16) -> Status {
        if code == STATUS_NO_ERROR {
            Status::NoError
        } else if code == STATUS_KEY_NOT_FOUND {
            Status::KeyNotFound
        } else if code == STATUS_KEY_EXISTS {
            Status::KeyExists
        } else if code == STATUS_VALUE_TOO_LARGE {
            Status::ValueTooLarge
        } else if code == STATUS_INVALID_ARGUMENTS {
            Status::InvalidArguments
        } else if code == STATUS_ITEM_NOT_STORED {
            Status::ItemNotStored
        } else if code == STATUS_INCR_OR_DECR_ON_NON_NUMERIC_VALUE {
            Status::IncrDecrOnNonNumericValue
        } else if code == STATUS_VBUCKET_BELONGS_TO_OTHER_SERVER {
            Status::VBucketBelongsToOtherServer
        } else if code == STATUS_AUTHENTICATION_ERROR {
            Status::AuthenticationError
        } else if code == STATUS_AUTHENTICATION_CONTINUE {
            Status::AuthenticationContinue
        } else if code == STATUS_UNKNOWN_COMMAND {
            Status::UnknownCommand
        } else if code == STATUS_OUT_OF_MEMORY {
            Status::OutOfMemory
        } else if code == STATUS_NOT_SUPPORTED {
            Status::NotSupported
        } else if code == STATUS_INTERNAL_ERROR {
            Status::InternalError
        } else if code == STATUS_BUSY {
            Status::Busy
        } else {
            Status::TemporaryFailure
        }
    }
}

} // verus!
