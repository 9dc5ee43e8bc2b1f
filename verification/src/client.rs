//! The abstract command surface: six capability traits a conforming
//! transport-backed client implements, together with the small value types
//! they speak of and the correlation-token source.
use vstd::prelude::*;
use crate::error::Error;
use crate::packet::Packet;

verus! {

/// A parsed server version: the numeric triple of a semantic version.
#[derive(Debug, PartialEq, Eq, Structural, Clone, Copy)]
pub struct Version {
    pub major: u64,
    pub minor: u64,
    pub patch: u64,
}

/// One step of the SASL-style handshake, as the server answered it:
/// another round is requested, or the handshake ended.
#[derive(Debug)]
pub enum AuthResponse {
    /// The server requests another round; the caller must continue with
    /// this challenge.
    Continue(Vec<u8>),
    Succeeded,
    Failed,
}

impl PartialEq for AuthResponse {
    /// Two handshake answers are equal when their shapes and payloads are.
    fn eq(&self, other: &AuthResponse) -> (r: bool) {
        match (self, other) {
            (AuthResponse::Continue(a), AuthResponse::Continue(b)) => crate::wire::bytes_eq(a, b),
            (AuthResponse::Succeeded, AuthResponse::Succeeded) => true,
            (AuthResponse::Failed, AuthResponse::Failed) => true,
            _ => false,
        }
    }
}

impl vstd::std_specs::cmp::PartialEqSpecImpl for AuthResponse {
    open spec fn obeys_eq_spec() -> bool {
        true
    }

    open spec fn eq_spec(&self, other: &AuthResponse) -> bool {
        match (self, other) {
            (AuthResponse::Continue(a), AuthResponse::Continue(b)) => a@ == b@,
            (AuthResponse::Succeeded, AuthResponse::Succeeded) => true,
            (AuthResponse::Failed, AuthResponse::Failed) => true,
            _ => false,
        }
    }
}

/// Relies on fastrand::u32: yields some 32-bit value; nothing is promised
/// of it.
#[verifier::external_body]
fn random_u32() -> u32 {
    fastrand::u32(..)
}

/// An explicit correlation-token source, scoped to one logical connection:
/// tokens step by one, so they stay distinct among the requests outstanding
/// on that connection at once.
#[derive(Debug, PartialEq, Eq, Structural, Clone, Copy)]
pub struct OpaqueSource {
    pub next: u32,
}

impl OpaqueSource {
    /// A source that starts at a given token.
    pub fn with_start(start: u32) -> (r: OpaqueSource)
        ensures
            r.next == start,
    {
        OpaqueSource { next: start }
    }

    /// A source seeded at some arbitrary token.
    pub fn seeded() -> OpaqueSource {
        OpaqueSource { next: random_u32() }
    }

    /// Hand out the next token and step the source, wrapping around.
    pub fn fresh(&mut self) -> (r: u32)
        ensures
            r == old(self).next,
            final(self).next == (old(self).next + 1) % 0x1_0000_0000,
    {
        let r = self.next;
        self.next = if self.next == u32::MAX {
            0
        } else {
            self.next + 1
        };
        r
    }
}

/// The basic operations: one write-then-read round trip each.
pub trait Operation {
    fn set(&mut self, key: &[u8], value: &[u8], flags: u32, expiration: u32) -> Result<(), Error>;

    fn add(&mut self, key: &[u8], value: &[u8], flags: u32, expiration: u32) -> Result<(), Error>;

    fn delete(&mut self, key: &[u8]) -> Result<(), Error>;

    fn replace(&mut self, key: &[u8], value: &[u8], flags: u32, expiration: u32) -> Result<
        (),
        Error,
    >;

    fn get(&mut self, key: &[u8]) -> Result<(Vec<u8>, u32), Error>;

    fn getk(&mut self, key: &[u8]) -> Result<(Vec<u8>, Vec<u8>, u32), Error>;

    fn increment(&mut self, key: &[u8], amount: u64, initial: u64, expiration: u32) -> Result<
        u64,
        Error,
    >;

    fn decrement(&mut self, key: &[u8], amount: u64, initial: u64, expiration: u32) -> Result<
        u64,
        Error,
    >;

    fn append(&mut self, key: &[u8], value: &[u8]) -> Result<(), Error>;

    fn prepend(&mut self, key: &[u8], value: &[u8]) -> Result<(), Error>;

    fn touch(&mut self, key: &[u8], expiration: u32) -> Result<(), Error>;
}

/// The CAS-qualified operations: a supplied non-zero token that does not
/// match the server's current one fails with the key-exists status; zero
/// means overwrite unconditionally.
pub trait CasOperation {
    fn set_cas(
        &mut self,
        key: &[u8],
        value: &[u8],
        flags: u32,
        expiration: u32,
        cas: u64,
    ) -> Result<u64, Error>;

    fn add_cas(&mut self, key: &[u8], value: &[u8], flags: u32, expiration: u32) -> Result<
        u64,
        Error,
    >;

    fn replace_cas(
        &mut self,
        key: &[u8],
        value: &[u8],
        flags: u32,
        expiration: u32,
        cas: u64,
    ) -> Result<u64, Error>;

    fn get_cas(&mut self, key: &[u8]) -> Result<(Vec<u8>, u32, u64), Error>;

    fn getk_cas(&mut self, key: &[u8]) -> Result<(Vec<u8>, Vec<u8>, u32, u64), Error>;

    fn increment_cas(
        &mut self,
        key: &[u8],
        amount: u64,
        initial: u64,
        expiration: u32,
        cas: u64,
    ) -> Result<(u64, u64), Error>;

    fn decrement_cas(
        &mut self,
        key: &[u8],
        amount: u64,
        initial: u64,
        expiration: u32,
        cas: u64,
    ) -> Result<(u64, u64), Error>;

    fn append_cas(&mut self, key: &[u8], value: &[u8], cas: u64) -> Result<u64, Error>;

    fn prepend_cas(&mut self, key: &[u8], value: &[u8], cas: u64) -> Result<u64, Error>;

    fn touch_cas(&mut self, key: &[u8], expiration: u32, cas: u64) -> Result<u64, Error>;
}

/// The server-wide operations.
pub trait ServerOperation {
    fn quit(&mut self) -> Result<(), Error>;

    fn flush(&mut self, expiration: u32) -> Result<(), Error>;

    fn noop(&mut self) -> Result<(), Error>;

    fn version(&mut self) -> Result<Version, Error>;

    fn stat(&mut self) -> Result<Vec<(String, String)>, Error>;
}

/// The batch operations: one request per entry; a key the server does not
/// hold is simply absent from a lookup's result, not an error.
pub trait MultiOperation {
    fn set_multi(&mut self, kv: Vec<(Vec<u8>, (Vec<u8>, u32, u32))>) -> Result<(), Error>;

    fn delete_multi(&mut self, keys: Vec<Vec<u8>>) -> Result<(), Error>;

    fn increment_multi(&mut self, kv: Vec<(Vec<u8>, (u64, u64, u32))>) -> Result<
        Vec<(Vec<u8>, u64)>,
        Error,
    >;

    fn get_multi(&mut self, keys: Vec<Vec<u8>>) -> Result<Vec<(Vec<u8>, Vec<u8>, u32)>, Error>;
}

/// The quiet operations: the server suppresses its response on success and
/// answers only on error; a batch of them is closed by one NoOp request,
/// and the issuer reads until the NoOp's own response comes back.
pub trait NoReplyOperation {
    fn set_noreply(&mut self, key: &[u8], value: &[u8], flags: u32, expiration: u32) -> Result<
        (),
        Error,
    >;

    fn add_noreply(&mut self, key: &[u8], value: &[u8], flags: u32, expiration: u32) -> Result<
        (),
        Error,
    >;

    fn delete_noreply(&mut self, key: &[u8]) -> Result<(), Error>;

    fn replace_noreply(
        &mut self,
        key: &[u8],
        value: &[u8],
        flags: u32,
        expiration: u32,
    ) -> Result<(), Error>;

    fn increment_noreply(
        &mut self,
        key: &[u8],
        amount: u64,
        initial: u64,
        expiration: u32,
    ) -> Result<(), Error>;

    fn decrement_noreply(
        &mut self,
        key: &[u8],
        amount: u64,
        initial: u64,
        expiration: u32,
    ) -> Result<(), Error>;

    fn append_noreply(&mut self, key: &[u8], value: &[u8]) -> Result<(), Error>;

    fn prepend_noreply(&mut self, key: &[u8], value: &[u8]) -> Result<(), Error>;
}

/// The SASL-style negotiated authentication: strictly request-response on
/// one connection, no reordering.
pub trait AuthOperation {
    fn list_mechanisms(&mut self) -> Result<Vec<String>, Error>;

    fn auth_start(&mut self, mech: &str, init: &[u8]) -> Result<AuthResponse, Error>;

    fn auth_continue(&mut self, mech: &str, data: &[u8]) -> Result<AuthResponse, Error>;
}

/// The whole protocol capability: everything a conforming client offers.
pub trait Proto: Operation + MultiOperation + ServerOperation + NoReplyOperation + CasOperation
    + AuthOperation {

}

impl<T> Proto for T where
    T: Operation + MultiOperation + ServerOperation + NoReplyOperation + CasOperation
        + AuthOperation,
 {

}

/// Drop a packet a read loop does not care about.
pub fn discard_packet(_p: Packet) {
}

} // verus!
