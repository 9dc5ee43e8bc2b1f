//! Wire code tables: magic byte, opcode and status code, each with its fixed
//! numeric value, and the status descriptions.
use vstd::prelude::*;
use crate::error::{Error, ProtoError};

verus! {

/// The two halves of the protocol: a request packet or a response packet.
#[derive(Debug, Eq, PartialEq, Copy, Clone, Structural)]
pub enum Magic {
    Request,
    Response,
}

/// Wire value of a magic byte.
pub open spec fn spec_magic_value(m: Magic) -> u8 {
    match m {
        Magic::Request => 0x80,
        Magic::Response => 0x81,
    }
}

/// Magic for a wire byte: only 0x80 and 0x81 are recognised.
pub open spec fn spec_magic_of(b: u8) -> Option<Magic> {
    if b == 0x80 {
        Some(Magic::Request)
    } else if b == 0x81 {
        Some(Magic::Response)
    } else {
        None
    }
}

impl Magic {
    /// The byte that stands for this magic on the wire.
    pub fn value(self) -> (r: u8)
        ensures
            r == spec_magic_value(self),
    {
        match self {
            Magic::Request => 0x80,
            Magic::Response => 0x81,
        }
    }

    /// Recognise a wire byte as a magic value.
    pub fn from_u8(b: u8) -> (r: Option<Magic>)
        ensures
            r == spec_magic_of(b),
    {
        if b == 0x80 {
            Some(Magic::Request)
        } else if b == 0x81 {
            Some(Magic::Response)
        } else {
            None
        }
    }
}

/// Every magic round-trips through its wire byte.
pub proof fn lemma_magic_round_trip(m: Magic)
    ensures
        spec_magic_of(spec_magic_value(m)) == Some(m),
{
}

/// Numeric command identifiers. The range, vbucket and tap families are
/// carried but not interpreted by this crate.
#[derive(Debug, Eq, PartialEq, Copy, Clone, Structural)]
#[non_exhaustive]
pub enum Opcode {
    Get,
    SetOp,
    Add,
    Replace,
    Delete,
    Increment,
    Decrement,
    Quit,
    Flush,
    GetQ,
    NoOp,
    Version,
    GetK,
    GetKQ,
    Append,
    Prepend,
    Stat,
    SetQ,
    AddQ,
    ReplaceQ,
    DeleteQ,
    IncrementQ,
    DecrementQ,
    QuitQ,
    FlushQ,
    AppendQ,
    PrependQ,
    Verbosity,
    Touch,
    /// Get and touch
    GAT,
    GATQ,
    SASLListMechs,
    SASLAuth,
    SASLStep,
    RGet,
    RSet,
    RSetQ,
    RAppend,
    RAppendQ,
    RPrepend,
    RPrependQ,
    RDelete,
    RDeleteQ,
    RIncr,
    RIncrQ,
    RDecr,
    RDecrQ,
    SetVBucket,
    GetVBucket,
    DelVBucket,
    TapConnect,
    TapMutation,
    TapDelete,
    TapFlush,
    TapOpaque,
    TapVBucketSet,
    TapCheckPointStart,
    TabCheckPointEnd,
}

/// Wire value of an opcode.
pub open spec fn spec_opcode_value(op: Opcode) -> u8 {
    match op {
        Opcode::Get => 0x00,
        Opcode::SetOp => 0x01,
        Opcode::Add => 0x02,
        Opcode::Replace => 0x03,
        Opcode::Delete => 0x04,
        Opcode::Increment => 0x05,
        Opcode::Decrement => 0x06,
        Opcode::Quit => 0x07,
        Opcode::Flush => 0x08,
        Opcode::GetQ => 0x09,
        Opcode::NoOp => 0x0a,
        Opcode::Version => 0x0b,
        Opcode::GetK => 0x0c,
        Opcode::GetKQ => 0x0d,
        Opcode::Append => 0x0e,
        Opcode::Prepend => 0x0f,
        Opcode::Stat => 0x10,
        Opcode::SetQ => 0x11,
        Opcode::AddQ => 0x12,
        Opcode::ReplaceQ => 0x13,
        Opcode::DeleteQ => 0x14,
        Opcode::IncrementQ => 0x15,
        Opcode::DecrementQ => 0x16,
        Opcode::QuitQ => 0x17,
        Opcode::FlushQ => 0x18,
        Opcode::AppendQ => 0x19,
        Opcode::PrependQ => 0x1a,
        Opcode::Verbosity => 0x1b,
        Opcode::Touch => 0x1c,
        Opcode::GAT => 0x1d,
        Opcode::GATQ => 0x1e,
        Opcode::SASLListMechs => 0x20,
        Opcode::SASLAuth => 0x21,
        Opcode::SASLStep => 0x22,
        Opcode::RGet => 0x30,
        Opcode::RSet => 0x31,
        Opcode::RSetQ => 0x32,
        Opcode::RAppend => 0x33,
        Opcode::RAppendQ => 0x34,
        Opcode::RPrepend => 0x35,
        Opcode::RPrependQ => 0x36,
        Opcode::RDelete => 0x37,
        Opcode::RDeleteQ => 0x38,
        Opcode::RIncr => 0x39,
        Opcode::RIncrQ => 0x3a,
        Opcode::RDecr => 0x3b,
        Opcode::RDecrQ => 0x3c,
        Opcode::SetVBucket => 0x3d,
        Opcode::GetVBucket => 0x3e,
        Opcode::DelVBucket => 0x3f,
        Opcode::TapConnect => 0x40,
        Opcode::TapMutation => 0x41,
        Opcode::TapDelete => 0x42,
        Opcode::TapFlush => 0x43,
        Opcode::TapOpaque => 0x44,
        Opcode::TapVBucketSet => 0x45,
        Opcode::TapCheckPointStart => 0x46,
        Opcode::TabCheckPointEnd => 0x47,
    }
}

/// Opcode for a wire byte; bytes outside the table are unrecognised.
pub open spec fn spec_opcode_of(b: u8) -> Option<Opcode> {
    if b == 0x00 {
        Some(Opcode::Get)
    } else if b == 0x01 {
        Some(Opcode::SetOp)
    } else if b == 0x02 {
        Some(Opcode::Add)
    } else if b == 0x03 {
        Some(Opcode::Replace)
    } else if b == 0x04 {
        Some(Opcode::Delete)
    } else if b == 0x05 {
        Some(Opcode::Increment)
    } else if b == 0x06 {
        Some(Opcode::Decrement)
    } else if b == 0x07 {
        Some(Opcode::Quit)
    } else if b == 0x08 {
        Some(Opcode::Flush)
    } else if b == 0x09 {
        Some(Opcode::GetQ)
    } else if b == 0x0a {
        Some(Opcode::NoOp)
    } else if b == 0x0b {
        Some(Opcode::Version)
    } else if b == 0x0c {
        Some(Opcode::GetK)
    } else if b == 0x0d {
        Some(Opcode::GetKQ)
    } else if b == 0x0e {
        Some(Opcode::Append)
    } else if b == 0x0f {
        Some(Opcode::Prepend)
    } else if b == 0x10 {
        Some(Opcode::Stat)
    } else if b == 0x11 {
        Some(Opcode::SetQ)
    } else if b == 0x12 {
        Some(Opcode::AddQ)
    } else if b == 0x13 {
        Some(Opcode::ReplaceQ)
    } else if b == 0x14 {
        Some(Opcode::DeleteQ)
    } else if b == 0x15 {
        Some(Opcode::IncrementQ)
    } else if b == 0x16 {
        Some(Opcode::DecrementQ)
    } else if b == 0x17 {
        Some(Opcode::QuitQ)
    } else if b == 0x18 {
        Some(Opcode::FlushQ)
    } else if b == 0x19 {
        Some(Opcode::AppendQ)
    } else if b == 0x1a {
        Some(Opcode::PrependQ)
    } else if b == 0x1b {
        Some(Opcode::Verbosity)
    } else if b == 0x1c {
        Some(Opcode::Touch)
    } else if b == 0x1d {
        Some(Opcode::GAT)
    } else if b == 0x1e {
        Some(Opcode::GATQ)
    } else if b == 0x20 {
        Some(Opcode::SASLListMechs)
    } else if b == 0x21 {
        Some(Opcode::SASLAuth)
    } else if b == 0x22 {
        Some(Opcode::SASLStep)
    } else if b == 0x30 {
        Some(Opcode::RGet)
    } else if b == 0x31 {
        Some(Opcode::RSet)
    } else if b == 0x32 {
        Some(Opcode::RSetQ)
    } else if b == 0x33 {
        Some(Opcode::RAppend)
    } else if b == 0x34 {
        Some(Opcode::RAppendQ)
    } else if b == 0x35 {
        Some(Opcode::RPrepend)
    } else if b == 0x36 {
        Some(Opcode::RPrependQ)
    } else if b == 0x37 {
        Some(Opcode::RDelete)
    } else if b == 0x38 {
        Some(Opcode::RDeleteQ)
    } else if b == 0x39 {
        Some(Opcode::RIncr)
    } else if b == 0x3a {
        Some(Opcode::RIncrQ)
    } else if b == 0x3b {
        Some(Opcode::RDecr)
    } else if b == 0x3c {
        Some(Opcode::RDecrQ)
    } else if b == 0x3d {
        Some(Opcode::SetVBucket)
    } else if b == 0x3e {
        Some(Opcode::GetVBucket)
    } else if b == 0x3f {
        Some(Opcode::DelVBucket)
    } else if b == 0x40 {
        Some(Opcode::TapConnect)
    } else if b == 0x41 {
        Some(Opcode::TapMutation)
    } else if b == 0x42 {
        Some(Opcode::TapDelete)
    } else if b == 0x43 {
        Some(Opcode::TapFlush)
    } else if b == 0x44 {
        Some(Opcode::TapOpaque)
    } else if b == 0x45 {
        Some(Opcode::TapVBucketSet)
    } else if b == 0x46 {
        Some(Opcode::TapCheckPointStart)
    } else if b == 0x47 {
        Some(Opcode::TabCheckPointEnd)
    } else {
        None
    }
}

impl Opcode {
    /// The byte that stands for this opcode on the wire.
    pub fn value(self) -> (r: u8)
        ensures
            r == spec_opcode_value(self),
    {
        match self {
            Opcode::Get => 0x00,
            Opcode::SetOp => 0x01,
            Opcode::Add => 0x02,
            Opcode::Replace => 0x03,
            Opcode::Delete => 0x04,
            Opcode::Increment => 0x05,
            Opcode::Decrement => 0x06,
            Opcode::Quit => 0x07,
            Opcode::Flush => 0x08,
            Opcode::GetQ => 0x09,
            Opcode::NoOp => 0x0a,
            Opcode::Version => 0x0b,
            Opcode::GetK => 0x0c,
            Opcode::GetKQ => 0x0d,
            Opcode::Append => 0x0e,
            Opcode::Prepend => 0x0f,
            Opcode::Stat => 0x10,
            Opcode::SetQ => 0x11,
            Opcode::AddQ => 0x12,
            Opcode::ReplaceQ => 0x13,
            Opcode::DeleteQ => 0x14,
            Opcode::IncrementQ => 0x15,
            Opcode::DecrementQ => 0x16,
            Opcode::QuitQ => 0x17,
            Opcode::FlushQ => 0x18,
            Opcode::AppendQ => 0x19,
            Opcode::PrependQ => 0x1a,
            Opcode::Verbosity => 0x1b,
            Opcode::Touch => 0x1c,
            Opcode::GAT => 0x1d,
            Opcode::GATQ => 0x1e,
            Opcode::SASLListMechs => 0x20,
            Opcode::SASLAuth => 0x21,
            Opcode::SASLStep => 0x22,
            Opcode::RGet => 0x30,
            Opcode::RSet => 0x31,
            Opcode::RSetQ => 0x32,
            Opcode::RAppend => 0x33,
            Opcode::RAppendQ => 0x34,
            Opcode::RPrepend => 0x35,
            Opcode::RPrependQ => 0x36,
            Opcode::RDelete => 0x37,
            Opcode::RDeleteQ => 0x38,
            Opcode::RIncr => 0x39,
            Opcode::RIncrQ => 0x3a,
            Opcode::RDecr => 0x3b,
            Opcode::RDecrQ => 0x3c,
            Opcode::SetVBucket => 0x3d,
            Opcode::GetVBucket => 0x3e,
            Opcode::DelVBucket => 0x3f,
            Opcode::TapConnect => 0x40,
            Opcode::TapMutation => 0x41,
            Opcode::TapDelete => 0x42,
            Opcode::TapFlush => 0x43,
            Opcode::TapOpaque => 0x44,
            Opcode::TapVBucketSet => 0x45,
            Opcode::TapCheckPointStart => 0x46,
            Opcode::TabCheckPointEnd => 0x47,
        }
    }

    /// Recognise a wire byte as an opcode.
    pub fn from_u8(b: u8) -> (r: Option<Opcode>)
        ensures
            r == spec_opcode_of(b),
    {
        match b {
            0x00 => Some(Opcode::Get),
            0x01 => Some(Opcode::SetOp),
            0x02 => Some(Opcode::Add),
            0x03 => Some(Opcode::Replace),
            0x04 => Some(Opcode::Delete),
            0x05 => Some(Opcode::Increment),
            0x06 => Some(Opcode::Decrement),
            0x07 => Some(Opcode::Quit),
            0x08 => Some(Opcode::Flush),
            0x09 => Some(Opcode::GetQ),
            0x0a => Some(Opcode::NoOp),
            0x0b => Some(Opcode::Version),
            0x0c => Some(Opcode::GetK),
            0x0d => Some(Opcode::GetKQ),
            0x0e => Some(Opcode::Append),
            0x0f => Some(Opcode::Prepend),
            0x10 => Some(Opcode::Stat),
            0x11 => Some(Opcode::SetQ),
            0x12 => Some(Opcode::AddQ),
            0x13 => Some(Opcode::ReplaceQ),
            0x14 => Some(Opcode::DeleteQ),
            0x15 => Some(Opcode::IncrementQ),
            0x16 => Some(Opcode::DecrementQ),
            0x17 => Some(Opcode::QuitQ),
            0x18 => Some(Opcode::FlushQ),
            0x19 => Some(Opcode::AppendQ),
            0x1a => Some(Opcode::PrependQ),
            0x1b => Some(Opcode::Verbosity),
            0x1c => Some(Opcode::Touch),
            0x1d => Some(Opcode::GAT),
            0x1e => Some(Opcode::GATQ),
            0x20 => Some(Opcode::SASLListMechs),
            0x21 => Some(Opcode::SASLAuth),
            0x22 => Some(Opcode::SASLStep),
            0x30 => Some(Opcode::RGet),
            0x31 => Some(Opcode::RSet),
            0x32 => Some(Opcode::RSetQ),
            0x33 => Some(Opcode::RAppend),
            0x34 => Some(Opcode::RAppendQ),
            0x35 => Some(Opcode::RPrepend),
            0x36 => Some(Opcode::RPrependQ),
            0x37 => Some(Opcode::RDelete),
            0x38 => Some(Opcode::RDeleteQ),
            0x39 => Some(Opcode::RIncr),
            0x3a => Some(Opcode::RIncrQ),
            0x3b => Some(Opcode::RDecr),
            0x3c => Some(Opcode::RDecrQ),
            0x3d => Some(Opcode::SetVBucket),
            0x3e => Some(Opcode::GetVBucket),
            0x3f => Some(Opcode::DelVBucket),
            0x40 => Some(Opcode::TapConnect),
            0x41 => Some(Opcode::TapMutation),
            0x42 => Some(Opcode::TapDelete),
            0x43 => Some(Opcode::TapFlush),
            0x44 => Some(Opcode::TapOpaque),
            0x45 => Some(Opcode::TapVBucketSet),
            0x46 => Some(Opcode::TapCheckPointStart),
            0x47 => Some(Opcode::TabCheckPointEnd),
            _ => None,
        }
    }
}

/// Every opcode round-trips through its wire byte.
pub proof fn lemma_opcode_round_trip(op: Opcode)
    ensures
        spec_opcode_of(spec_opcode_value(op)) == Some(op),
{
}

/// Response status codes. `NoError` is the only success value.
#[derive(Debug, Eq, PartialEq, Copy, Clone, Structural)]
#[non_exhaustive]
pub enum Status {
    NoError,
    KeyNotFound,
    KeyExists,
    ValueTooLarge,
    InvalidArguments,
    ItemNotStored,
    IncrOrDecrOnNonNumericValue,
    VbucketBelongsToAnotherServer,
    AuthenticationError,
    AuthenticationContinue,
    UnknownCommand,
    OutOfMemory,
    NotSupported,
    InternalError,
    Busy,
    TemporaryFailure,
    AuthenticationRequired,
    AuthenticationFurtherStepRequired,
}

/// Wire value of a status code.
pub open spec fn spec_status_value(s: Status) -> u16 {
    match s {
        Status::NoError => 0x0000,
        Status::KeyNotFound => 0x0001,
        Status::KeyExists => 0x0002,
        Status::ValueTooLarge => 0x0003,
        Status::InvalidArguments => 0x0004,
        Status::ItemNotStored => 0x0005,
        Status::IncrOrDecrOnNonNumericValue => 0x0006,
        Status::VbucketBelongsToAnotherServer => 0x0007,
        Status::AuthenticationError => 0x0008,
        Status::AuthenticationContinue => 0x0009,
        Status::UnknownCommand => 0x0081,
        Status::OutOfMemory => 0x0082,
        Status::NotSupported => 0x0083,
        Status::InternalError => 0x0084,
        Status::Busy => 0x0085,
        Status::TemporaryFailure => 0x0086,
        Status::AuthenticationRequired => 0x0020,
        Status::AuthenticationFurtherStepRequired => 0x0021,
    }
}

/// Status for a wire value; values outside the table are unrecognised.
pub open spec fn spec_status_of(v: u16) -> Option<Status> {
    if v == 0x0000 {
        Some(Status::NoError)
    } else if v == 0x0001 {
        Some(Status::KeyNotFound)
    } else if v == 0x0002 {
        Some(Status::KeyExists)
    } else if v == 0x0003 {
        Some(Status::ValueTooLarge)
    } else if v == 0x0004 {
        Some(Status::InvalidArguments)
    } else if v == 0x0005 {
        Some(Status::ItemNotStored)
    } else if v == 0x0006 {
        Some(Status::IncrOrDecrOnNonNumericValue)
    } else if v == 0x0007 {
        Some(Status::VbucketBelongsToAnotherServer)
    } else if v == 0x0008 {
        Some(Status::AuthenticationError)
    } else if v == 0x0009 {
        Some(Status::AuthenticationContinue)
    } else if v == 0x0081 {
        Some(Status::UnknownCommand)
    } else if v == 0x0082 {
        Some(Status::OutOfMemory)
    } else if v == 0x0083 {
        Some(Status::NotSupported)
    } else if v == 0x0084 {
        Some(Status::InternalError)
    } else if v == 0x0085 {
        Some(Status::Busy)
    } else if v == 0x0086 {
        Some(Status::TemporaryFailure)
    } else if v == 0x0020 {
        Some(Status::AuthenticationRequired)
    } else if v == 0x0021 {
        Some(Status::AuthenticationFurtherStepRequired)
    } else {
        None
    }
}

/// Description of a status code.
pub open spec fn spec_status_desc(s: Status) -> Seq<char> {
    match s {
        Status::NoError => "no error"@,
        Status::KeyNotFound => "key not found"@,
        Status::KeyExists => "key exists"@,
        Status::ValueTooLarge => "value too large"@,
        Status::InvalidArguments => "invalid arguments"@,
        Status::ItemNotStored => "item not stored"@,
        Status::IncrOrDecrOnNonNumericValue => "incr/Decr on non-numeric value"@,
        Status::VbucketBelongsToAnotherServer => "the vbucket belongs to another server"@,
        Status::AuthenticationError => "authentication error"@,
        Status::AuthenticationContinue => "authentication continue"@,
        Status::UnknownCommand => "unknown command"@,
        Status::OutOfMemory => "out of memory"@,
        Status::NotSupported => "not supported"@,
        Status::InternalError => "internal error"@,
        Status::Busy => "busy"@,
        Status::TemporaryFailure => "temporary failure"@,
        Status::AuthenticationRequired => "authentication required/not successful"@,
        Status::AuthenticationFurtherStepRequired => "further authentication steps required"@,
    }
}

impl Status {
    /// The 16-bit value that stands for this status on the wire.
    pub fn value(self) -> (r: u16)
        ensures
            r == spec_status_value(self),
    {
        match self {
            Status::NoError => 0x0000,
            Status::KeyNotFound => 0x0001,
            Status::KeyExists => 0x0002,
            Status::ValueTooLarge => 0x0003,
            Status::InvalidArguments => 0x0004,
            Status::ItemNotStored => 0x0005,
            Status::IncrOrDecrOnNonNumericValue => 0x0006,
            Status::VbucketBelongsToAnotherServer => 0x0007,
            Status::AuthenticationError => 0x0008,
            Status::AuthenticationContinue => 0x0009,
            Status::UnknownCommand => 0x0081,
            Status::OutOfMemory => 0x0082,
            Status::NotSupported => 0x0083,
            Status::InternalError => 0x0084,
            Status::Busy => 0x0085,
            Status::TemporaryFailure => 0x0086,
            Status::AuthenticationRequired => 0x0020,
            Status::AuthenticationFurtherStepRequired => 0x0021,
        }
    }

    /// Recognise a 16-bit wire value as a status.
    pub fn from_u16(v: u16) -> (r: Option<Status>)
        ensures
            r == spec_status_of(v),
    {
        match v {
            0x0000 => Some(Status::NoError),
            0x0001 => Some(Status::KeyNotFound),
            0x0002 => Some(Status::KeyExists),
            0x0003 => Some(Status::ValueTooLarge),
            0x0004 => Some(Status::InvalidArguments),
            0x0005 => Some(Status::ItemNotStored),
            0x0006 => Some(Status::IncrOrDecrOnNonNumericValue),
            0x0007 => Some(Status::VbucketBelongsToAnotherServer),
            0x0008 => Some(Status::AuthenticationError),
            0x0009 => Some(Status::AuthenticationContinue),
            0x0081 => Some(Status::UnknownCommand),
            0x0082 => Some(Status::OutOfMemory),
            0x0083 => Some(Status::NotSupported),
            0x0084 => Some(Status::InternalError),
            0x0085 => Some(Status::Busy),
            0x0086 => Some(Status::TemporaryFailure),
            0x0020 => Some(Status::AuthenticationRequired),
            0x0021 => Some(Status::AuthenticationFurtherStepRequired),
            _ => None,
        }
    }

    /// The fixed description of this status.
    pub fn desc(&self) -> (r: &'static str)
        ensures
            r@ == spec_status_desc(*self),
    {
        match self {
            Status::NoError => "no error",
            Status::KeyNotFound => "key not found",
            Status::KeyExists => "key exists",
            Status::ValueTooLarge => "value too large",
            Status::InvalidArguments => "invalid arguments",
            Status::ItemNotStored => "item not stored",
            Status::IncrOrDecrOnNonNumericValue => "incr/Decr on non-numeric value",
            Status::VbucketBelongsToAnotherServer => "the vbucket belongs to another server",
            Status::AuthenticationError => "authentication error",
            Status::AuthenticationContinue => "authentication continue",
            Status::UnknownCommand => "unknown command",
            Status::OutOfMemory => "out of memory",
            Status::NotSupported => "not supported",
            Status::InternalError => "internal error",
            Status::Busy => "busy",
            Status::TemporaryFailure => "temporary failure",
            Status::AuthenticationRequired => "authentication required/not successful",
            Status::AuthenticationFurtherStepRequired => "further authentication steps required",
        }
    }

    /// The single chokepoint that turns a decoded status into the caller's
    /// result: `NoError` is success, every other status is a protocol error
    /// carrying the status, its description and the optional detail.
    pub fn ok_or(self, detail: Option<String>) -> (r: Result<(), Error>)
        ensures
            self == Status::NoError ==> r == Ok::<(), Error>(()),
            self != Status::NoError ==> (r matches Err(Error::Proto(e))
                && e.status == self
                && e.desc@ == spec_status_desc(self)
                && e.detail == detail),
    {
        match self {
            Status::NoError => Ok(()),
            status => Err(Error::Proto(ProtoError::from_status(status, detail))),
        }
    }
}

/// Every status round-trips through its wire value.
pub proof fn lemma_status_round_trip(s: Status)
    ensures
        spec_status_of(spec_status_value(s)) == Some(s),
{
}

impl Default for Status {
    /// The zero status, `NoError`.
    fn default() -> (r: Self)
        ensures
            r == Status::NoError,
    {
        Status::NoError
    }
}

} // verus!
