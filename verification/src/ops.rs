//! The operation contract: building the request packet for each command,
//! and deciding what each response packet means — status mapping through the
//! single `ok_or` chokepoint, value/flags/CAS unpacking, quiet-batch
//! reconciliation, batch collection, and the authentication handshake.
use vstd::prelude::*;
use crate::client::{AuthResponse, Version};
use crate::code::{Opcode, Status, spec_status_desc, spec_status_of};
use crate::error::{Error, ProtoError};
use crate::packet::{Extras, ExtrasView, Packet, PacketHeader,
    spec_is_counter_opcode, spec_is_store_opcode, spec_is_touch_opcode, spec_packet_wf};
use crate::wire::spec_u64_of;

verus! {

/// The flags a response's extras carry: the get shape holds them; any other
/// shape carries none.
pub open spec fn spec_extras_flags(ev: ExtrasView) -> u32 {
    match ev {
        ExtrasView::Get { flags } => flags,
        _ => 0,
    }
}

/// The flags carried by a response's extras.
pub fn extras_flags(e: &Extras) -> (r: u32)
    ensures
        r == spec_extras_flags(e@),
{
    match e {
        Extras::Get { flags } => *flags,
        _ => 0,
    }
}

/// What a failed status interpretation hands the caller: an unrecognised
/// status value is broken framing; any recognised status other than
/// `NoError` becomes the protocol error for that status, with no detail
/// attached.
pub open spec fn spec_response_error(field: u16, e: Error) -> bool {
    match spec_status_of(field) {
        Some(s) => s != Status::NoError && (e matches Error::Proto(pe) && pe.status == s
            && pe.desc@ == spec_status_desc(s) && pe.detail is None),
        None => e is Malformed,
    }
}

/// The numeric triple that semantic-version parsing assigns to these bytes,
/// when it accepts them.
pub uninterp spec fn spec_semver_of(b: Seq<u8>) -> Option<(u64, u64, u64)>;

/// Relies on semver::Version::parse, applied to the UTF-8 reading of the
/// bytes: whether the bytes parse, and the numeric triple they parse to,
/// depend on the bytes alone.
#[verifier::external_body]
fn parse_semver(b: &[u8]) -> (r: Option<(u64, u64, u64)>)
    ensures
        r == spec_semver_of(b@),
{
    match std::str::from_utf8(b) {
        Ok(s) => match semver::Version::parse(s) {
            Ok(v) => Some((v.major, v.minor, v.patch)),
            Err(_) => None,
        },
        Err(_) => None,
    }
}

/// The characters these bytes spell in UTF-8, when they are valid UTF-8.
pub uninterp spec fn spec_utf8_of(b: Seq<u8>) -> Option<Seq<char>>;

/// Relies on std::str::from_utf8: whether bytes are valid UTF-8, and which
/// characters they spell, depend on the bytes alone.
#[verifier::external_body]
fn utf8_string(b: &[u8]) -> (r: Option<String>)
    ensures
        r matches Some(s) ==> spec_utf8_of(b@) == Some(s@),
        (r is Some) == (spec_utf8_of(b@) is Some),
{
    match std::str::from_utf8(b) {
        Ok(s) => Some(s.to_string()),
        Err(_) => None,
    }
}

/// Request packet for a store operation (set/add/replace, plain or quiet):
/// store extras with flags and expiration, the key, and the value.
pub fn store_request(
    opcode: Opcode,
    key: &[u8],
    val: &[u8],
    flags: u32,
    expiration: u32,
    opaque: u32,
    cas: u64,
) -> (r: Packet)
    requires
        spec_is_store_opcode(opcode),
        key@.len() <= u16::MAX,
        8 + key@.len() + val@.len() <= u32::MAX,
    ensures
        r.header == (PacketHeader {
            magic: crate::code::Magic::Request,
            opcode,
            key_len: key@.len() as u16,
            extras_len: 8,
            data_type: 0,
            vbucket_id_or_status: 0,
            body_len: (8 + key@.len() + val@.len()) as u32,
            opaque,
            cas,
        }),
        r.extras@ == (ExtrasView::Store { flags, expiration }),
        r.key@ == key@,
        r.val@ == val@,
        spec_packet_wf(r),
{
    Packet::request(
        opcode,
        0,
        opaque,
        cas,
        Extras::Store { flags, expiration },
        vstd::slice::slice_to_vec(key),
        vstd::slice::slice_to_vec(val),
    )
}

/// Request packet for an operation that carries a key and nothing else
/// (get/getk/delete and their quiet variants).
pub fn key_request(opcode: Opcode, key: &[u8], opaque: u32) -> (r: Packet)
    requires
        key@.len() <= u16::MAX,
    ensures
        r.header == (PacketHeader {
            magic: crate::code::Magic::Request,
            opcode,
            key_len: key@.len() as u16,
            extras_len: 0,
            data_type: 0,
            vbucket_id_or_status: 0,
            body_len: key@.len() as u32,
            opaque,
            cas: 0,
        }),
        r.extras@ == ExtrasView::Empty,
        r.key@ == key@,
        r.val@.len() == 0,
        spec_packet_wf(r),
{
    Packet::request(opcode, 0, opaque, 0, Extras::Empty, vstd::slice::slice_to_vec(key), Vec::new())
}

/// Request packet for a counter operation (increment/decrement, plain or
/// quiet): counter extras with amount, initial value and expiration. The
/// expiration 0xFFFFFFFF means "do not create the counter when absent".
pub fn counter_request(
    opcode: Opcode,
    key: &[u8],
    amount: u64,
    initial: u64,
    expiration: u32,
    opaque: u32,
    cas: u64,
) -> (r: Packet)
    requires
        spec_is_counter_opcode(opcode),
        key@.len() <= u16::MAX,
    ensures
        r.header == (PacketHeader {
            magic: crate::code::Magic::Request,
            opcode,
            key_len: key@.len() as u16,
            extras_len: 20,
            data_type: 0,
            vbucket_id_or_status: 0,
            body_len: (20 + key@.len()) as u32,
            opaque,
            cas,
        }),
        r.extras@ == (ExtrasView::Counter { amount, initial, expiration }),
        r.key@ == key@,
        r.val@.len() == 0,
        spec_packet_wf(r),
{
    Packet::request(
        opcode,
        0,
        opaque,
        cas,
        Extras::Counter { amount, initial, expiration },
        vstd::slice::slice_to_vec(key),
        Vec::new(),
    )
}

/// Request packet for append/prepend (plain or quiet): the key and the
/// value, no extras.
pub fn concat_request(opcode: Opcode, key: &[u8], val: &[u8], opaque: u32, cas: u64) -> (r: Packet)
    requires
        key@.len() <= u16::MAX,
        key@.len() + val@.len() <= u32::MAX,
    ensures
        r.header == (PacketHeader {
            magic: crate::code::Magic::Request,
            opcode,
            key_len: key@.len() as u16,
            extras_len: 0,
            data_type: 0,
            vbucket_id_or_status: 0,
            body_len: (key@.len() + val@.len()) as u32,
            opaque,
            cas,
        }),
        r.extras@ == ExtrasView::Empty,
        r.key@ == key@,
        r.val@ == val@,
        spec_packet_wf(r),
{
    Packet::request(
        opcode,
        0,
        opaque,
        cas,
        Extras::Empty,
        vstd::slice::slice_to_vec(key),
        vstd::slice::slice_to_vec(val),
    )
}

/// Request packet for touch/GAT/GATQ: touch extras with the new expiration
/// and the key.
pub fn touch_request(opcode: Opcode, key: &[u8], expiration: u32, opaque: u32, cas: u64) -> (r:
    Packet)
    requires
        spec_is_touch_opcode(opcode),
        key@.len() <= u16::MAX,
    ensures
        r.header == (PacketHeader {
            magic: crate::code::Magic::Request,
            opcode,
            key_len: key@.len() as u16,
            extras_len: 4,
            data_type: 0,
            vbucket_id_or_status: 0,
            body_len: (4 + key@.len()) as u32,
            opaque,
            cas,
        }),
        r.extras@ == (ExtrasView::Touch { expiration }),
        r.key@ == key@,
        r.val@.len() == 0,
        spec_packet_wf(r),
{
    Packet::request(
        opcode,
        0,
        opaque,
        cas,
        Extras::Touch { expiration },
        vstd::slice::slice_to_vec(key),
        Vec::new(),
    )
}

/// Request packet for flush: flush extras with the expiration, nothing
/// else.
pub fn flush_request(expiration: u32, opaque: u32) -> (r: Packet)
    ensures
        r.header == (PacketHeader {
            magic: crate::code::Magic::Request,
            opcode: Opcode::Flush,
            key_len: 0,
            extras_len: 4,
            data_type: 0,
            vbucket_id_or_status: 0,
            body_len: 4,
            opaque,
            cas: 0,
        }),
        r.extras@ == (ExtrasView::Flush { expiration }),
        r.key@.len() == 0,
        r.val@.len() == 0,
        spec_packet_wf(r),
{
    Packet::request(
        Opcode::Flush,
        0,
        opaque,
        0,
        Extras::Flush { expiration },
        Vec::new(),
        Vec::new(),
    )
}

/// Request packet with no extras, key or value: NoOp, Quit, Version, Stat,
/// and the mechanism listing.
pub fn plain_request(opcode: Opcode, opaque: u32) -> (r: Packet)
    ensures
        r.header == (PacketHeader {
            magic: crate::code::Magic::Request,
            opcode,
            key_len: 0,
            extras_len: 0,
            data_type: 0,
            vbucket_id_or_status: 0,
            body_len: 0,
            opaque,
            cas: 0,
        }),
        r.extras@ == ExtrasView::Empty,
        r.key@.len() == 0,
        r.val@.len() == 0,
        spec_packet_wf(r),
{
    Packet::request(opcode, 0, opaque, 0, Extras::Empty, Vec::new(), Vec::new())
}

/// Request packet for one authentication step: the mechanism name as the
/// key, the step's payload as the value.
pub fn sasl_request(opcode: Opcode, mech: &[u8], data: &[u8], opaque: u32) -> (r: Packet)
    requires
        mech@.len() <= u16::MAX,
        mech@.len() + data@.len() <= u32::MAX,
    ensures
        r.header == (PacketHeader {
            magic: crate::code::Magic::Request,
            opcode,
            key_len: mech@.len() as u16,
            extras_len: 0,
            data_type: 0,
            vbucket_id_or_status: 0,
            body_len: (mech@.len() + data@.len()) as u32,
            opaque,
            cas: 0,
        }),
        r.extras@ == ExtrasView::Empty,
        r.key@ == mech@,
        r.val@ == data@,
        spec_packet_wf(r),
{
    Packet::request(
        opcode,
        0,
        opaque,
        0,
        Extras::Empty,
        vstd::slice::slice_to_vec(mech),
        vstd::slice::slice_to_vec(data),
    )
}


/// Interpret a response that carries no payload: `NoError` is success;
/// everything else reaches the caller through the `ok_or` chokepoint.
pub fn simple_response(p: &Packet) -> (r: Result<(), Error>)
    ensures
        r is Ok <==> spec_status_of(p.header.vbucket_id_or_status) == Some(Status::NoError),
        r matches Err(e) ==> spec_response_error(p.header.vbucket_id_or_status, e),
{
    match p.try_status() {
        Ok(s) => s.ok_or(None),
        Err(e) => Err(e),
    }
}

/// Interpret a get/GAT response: on success, the value bytes, the flags
/// from the get-shaped extras, and the current CAS token.
pub fn get_response(p: &Packet) -> (r: Result<(Vec<u8>, u32, u64), Error>)
    ensures
        r is Ok <==> spec_status_of(p.header.vbucket_id_or_status) == Some(Status::NoError),
        r matches Ok((v, fl, c)) ==> v@ == p.val@ && fl == spec_extras_flags(p.extras@) && c
            == p.header.cas,
        r matches Err(e) ==> spec_response_error(p.header.vbucket_id_or_status, e),
{
    match simple_response(p) {
        Ok(_) => Ok(
            (
                vstd::slice::slice_to_vec(p.val.as_slice()),
                extras_flags(&p.extras),
                p.header.cas,
            ),
        ),
        Err(e) => Err(e),
    }
}

/// Interpret a getk response: as a get response, with the echoed key in
/// front — used when multiplexed responses would otherwise be
/// indistinguishable.
pub fn getk_response(p: &Packet) -> (r: Result<(Vec<u8>, Vec<u8>, u32, u64), Error>)
    ensures
        r is Ok <==> spec_status_of(p.header.vbucket_id_or_status) == Some(Status::NoError),
        r matches Ok((k, v, fl, c)) ==> k@ == p.key@ && v@ == p.val@ && fl == spec_extras_flags(
            p.extras@,
        ) && c == p.header.cas,
        r matches Err(e) ==> spec_response_error(p.header.vbucket_id_or_status, e),
{
    match simple_response(p) {
        Ok(_) => Ok(
            (
                vstd::slice::slice_to_vec(p.key.as_slice()),
                vstd::slice::slice_to_vec(p.val.as_slice()),
                extras_flags(&p.extras),
                p.header.cas,
            ),
        ),
        Err(e) => Err(e),
    }
}

/// Interpret a mutation response under CAS: on success, the token the
/// server now holds for the key.
pub fn cas_response(p: &Packet) -> (r: Result<u64, Error>)
    ensures
        r is Ok <==> spec_status_of(p.header.vbucket_id_or_status) == Some(Status::NoError),
        r matches Ok(c) ==> c == p.header.cas,
        r matches Err(e) ==> spec_response_error(p.header.vbucket_id_or_status, e),
{
    match simple_response(p) {
        Ok(_) => Ok(p.header.cas),
        Err(e) => Err(e),
    }
}

/// Interpret a counter response: the new numeric value is the eight-byte
/// big-endian body; any other body length is malformed. The CAS token
/// comes along.
pub fn counter_response(p: &Packet) -> (r: Result<(u64, u64), Error>)
    ensures
        r is Ok <==> spec_status_of(p.header.vbucket_id_or_status) == Some(Status::NoError)
            && p.val@.len() == 8,
        r matches Ok((v, c)) ==> v == spec_u64_of(
            p.val@[0],
            p.val@[1],
            p.val@[2],
            p.val@[3],
            p.val@[4],
            p.val@[5],
            p.val@[6],
            p.val@[7],
        ) && c == p.header.cas,
        r matches Err(e) ==> if spec_status_of(p.header.vbucket_id_or_status) == Some(
            Status::NoError,
        ) {
            e is Malformed
        } else {
            spec_response_error(p.header.vbucket_id_or_status, e)
        },
{
    match simple_response(p) {
        Ok(_) => {
            if p.val.len() == 8 {
                Ok((crate::wire::read_be64(p.val.as_slice(), 0), p.header.cas))
            } else {
                Err(Error::Malformed)
            }
        },
        Err(e) => Err(e),
    }
}

/// Interpret a version response: the body is a version string; what it
/// parses to is semantic-version parsing's business, and a body it rejects
/// is malformed.
pub fn version_response(p: &Packet) -> (r: Result<Version, Error>)
    ensures
        r is Ok <==> spec_status_of(p.header.vbucket_id_or_status) == Some(Status::NoError)
            && spec_semver_of(p.val@) is Some,
        r matches Ok(v) ==> spec_semver_of(p.val@) == Some((v.major, v.minor, v.patch)),
        r matches Err(e) ==> if spec_status_of(p.header.vbucket_id_or_status) == Some(
            Status::NoError,
        ) {
            e is Malformed
        } else {
            spec_response_error(p.header.vbucket_id_or_status, e)
        },
{
    match simple_response(p) {
        Ok(_) => match parse_semver(p.val.as_slice()) {
            Some((major, minor, patch)) => Ok(Version { major, minor, patch }),
            None => Err(Error::Malformed),
        },
        Err(e) => Err(e),
    }
}

/// Interpret one packet of a statistics stream: an empty key ends the
/// stream; otherwise the key and value name one statistic. Either byte
/// string failing UTF-8 is malformed.
pub fn stat_entry(p: &Packet) -> (r: Result<Option<(String, String)>, Error>)
    ensures
        r is Ok <==> spec_status_of(p.header.vbucket_id_or_status) == Some(Status::NoError) && (
        p.key@.len() == 0 || (spec_utf8_of(p.key@) is Some && spec_utf8_of(p.val@) is Some)),
        r matches Ok(o) ==> (o is None <==> p.key@.len() == 0),
        r matches Ok(Some((k, v))) ==> spec_utf8_of(p.key@) == Some(k@) && spec_utf8_of(p.val@)
            == Some(v@),
        r matches Err(e) ==> if spec_status_of(p.header.vbucket_id_or_status) == Some(
            Status::NoError,
        ) {
            e is Malformed
        } else {
            spec_response_error(p.header.vbucket_id_or_status, e)
        },
{
    match simple_response(p) {
        Ok(_) => {
            if p.key.len() == 0 {
                Ok(None)
            } else {
                match (utf8_string(p.key.as_slice()), utf8_string(p.val.as_slice())) {
                    (Some(k), Some(v)) => Ok(Some((k, v))),
                    _ => Err(Error::Malformed),
                }
            }
        },
        Err(e) => Err(e),
    }
}

/// Interpret one authentication response: `NoError` ends the handshake
/// successfully, the continue status hands back the server's challenge for
/// another round, the authentication-error status is a plain refusal, and
/// any other status reaches the caller as the protocol error it is.
pub fn auth_response(p: &Packet) -> (r: Result<AuthResponse, Error>)
    ensures
        match spec_status_of(p.header.vbucket_id_or_status) {
            Some(Status::NoError) => r == Ok::<AuthResponse, Error>(AuthResponse::Succeeded),
            Some(Status::AuthenticationContinue) => r matches Ok(AuthResponse::Continue(c))
                && c@ == p.val@,
            Some(Status::AuthenticationError) => r == Ok::<AuthResponse, Error>(AuthResponse::Failed),
            Some(s) => r matches Err(Error::Proto(pe)) && pe.status == s && pe.desc@
                == spec_status_desc(s) && pe.detail is None,
            None => r matches Err(e) && e is Malformed,
        },
{
    match p.try_status() {
        Ok(s) => match s {
            Status::NoError => Ok(AuthResponse::Succeeded),
            Status::AuthenticationContinue => Ok(
                AuthResponse::Continue(vstd::slice::slice_to_vec(p.val.as_slice())),
            ),
            Status::AuthenticationError => Ok(AuthResponse::Failed),
            other => match other.ok_or(None) {
                Ok(_) => {
                    proof {
                        assert(false);
                    }
                    Ok(AuthResponse::Failed)
                },
                Err(e) => Err(e),
            },
        },
        Err(e) => Err(e),
    }
}


/// Whether a response packet carries the success status.
pub open spec fn spec_noerror_packet(p: Packet) -> bool {
    spec_status_of(p.header.vbucket_id_or_status) == Some(Status::NoError)
}

/// Whether every response in a batch carries the success status.
pub open spec fn spec_all_noerror(ps: Seq<Packet>) -> bool {
    forall|i: int| 0 <= i < ps.len() ==> spec_noerror_packet(ps[i])
}

/// Index of the first response in a batch that does not carry the success
/// status; -1 when every one does.
pub open spec fn spec_first_error(ps: Seq<Packet>) -> int
    decreases ps.len(),
{
    if ps.len() == 0 {
        -1
    } else if !spec_noerror_packet(ps[0]) {
        0
    } else {
        let rest = spec_first_error(ps.drop_first());
        if rest == -1 {
            -1
        } else {
            rest + 1
        }
    }
}

proof fn lemma_first_error_at(ps: Seq<Packet>, i: int)
    requires
        0 <= i < ps.len(),
        !spec_noerror_packet(ps[i]),
        forall|j: int| 0 <= j < i ==> spec_noerror_packet(ps[j]),
    ensures
        spec_first_error(ps) == i,
    decreases i,
{
    if i > 0 {
        assert(ps.drop_first()[i - 1] == ps[i]);
        assert forall|j: int| 0 <= j < i - 1 implies spec_noerror_packet(ps.drop_first()[j]) by {
            assert(ps.drop_first()[j] == ps[j + 1]);
        }
        lemma_first_error_at(ps.drop_first(), i - 1);
    }
}

/// Success of a whole batch: every response must carry the success status;
/// the first one that does not becomes the batch's error, through the same
/// status mapping as a single response.
pub fn all_ok(responses: &Vec<Packet>) -> (r: Result<(), Error>)
    ensures
        r is Ok <==> spec_all_noerror(responses@),
        r matches Err(e) ==> ({
            let i = spec_first_error(responses@);
            &&& 0 <= i < responses@.len()
            &&& spec_response_error(responses@[i].header.vbucket_id_or_status, e)
        }),
{
    let mut i: usize = 0;
    while i < responses.len()
        invariant
            i <= responses@.len(),
            forall|j: int| 0 <= j < i ==> spec_noerror_packet(responses@[j]),
        decreases responses@.len() - i,
    {
        let p = &responses[i];
        match p.try_status() {
            Ok(s) => {
                if s != Status::NoError {
                    proof {
                        lemma_first_error_at(responses@, i as int);
                    }
                    return Err(Error::Proto(ProtoError::from_status(s, None)));
                }
            },
            Err(_) => {
                proof {
                    lemma_first_error_at(responses@, i as int);
                }
                return Err(Error::Malformed);
            },
        }
        i = i + 1;
    }
    Ok(())
}

/// What a batch lookup hands back: for each response carrying the success
/// status, in order, its echoed key, its value and its flags. Keys the
/// server does not hold sent no response at all (the lookups are quiet),
/// so they are simply absent.
pub open spec fn spec_multi_get(ps: Seq<Packet>) -> Seq<(Seq<u8>, Seq<u8>, u32)>
    decreases ps.len(),
{
    if ps.len() == 0 {
        Seq::empty()
    } else {
        let init = spec_multi_get(ps.drop_last());
        let p = ps.last();
        if spec_noerror_packet(p) {
            init.push((p.key@, p.val@, spec_extras_flags(p.extras@)))
        } else {
            init
        }
    }
}

/// Collect the hits of a quiet batch lookup: each response with the
/// success status contributes (key, value, flags); anything else is
/// dropped, never an error — absence is an ordinary outcome of a lookup.
pub fn get_multi_collect(responses: &Vec<Packet>) -> (r: Vec<(Vec<u8>, Vec<u8>, u32)>)
    ensures
        r@.len() == spec_multi_get(responses@).len(),
        forall|j: int| #![auto] 0 <= j < r@.len() ==> (
            r@[j].0@,
            r@[j].1@,
            r@[j].2,
        ) == spec_multi_get(responses@)[j],
{
    let mut r: Vec<(Vec<u8>, Vec<u8>, u32)> = Vec::new();
    let mut i: usize = 0;
    while i < responses.len()
        invariant
            i <= responses@.len(),
            r@.len() == spec_multi_get(responses@.subrange(0, i as int)).len(),
            forall|j: int| #![auto] 0 <= j < r@.len() ==> (
                r@[j].0@,
                r@[j].1@,
                r@[j].2,
            ) == spec_multi_get(responses@.subrange(0, i as int))[j],
        decreases responses@.len() - i,
    {
        let p = &responses[i];
        let ghost prefix = responses@.subrange(0, i as int);
        let ghost next = responses@.subrange(0, i + 1);
        proof {
            assert(next.drop_last() =~= prefix);
            assert(next.last() == responses@[i as int]);
        }
        let hit = match p.try_status() {
            Ok(s) => s == Status::NoError,
            Err(_) => false,
        };
        if hit {
            r.push(
                (
                    vstd::slice::slice_to_vec(p.key.as_slice()),
                    vstd::slice::slice_to_vec(p.val.as_slice()),
                    extras_flags(&p.extras),
                ),
            );
        }
        i = i + 1;
    }
    proof {
        assert(responses@.subrange(0, responses@.len() as int) =~= responses@);
    }
    r
}

/// The new numeric value a counter response carries: its eight-byte
/// big-endian body.
pub open spec fn spec_counter_value(p: Packet) -> u64 {
    spec_u64_of(
        p.val@[0],
        p.val@[1],
        p.val@[2],
        p.val@[3],
        p.val@[4],
        p.val@[5],
        p.val@[6],
        p.val@[7],
    )
}

/// Whether a counter response is well-formed: the success status and an
/// eight-byte body.
pub open spec fn spec_counter_ok_packet(p: Packet) -> bool {
    spec_noerror_packet(p) && p.val@.len() == 8
}

/// Index of the first response in a counter batch that is not a
/// well-formed success; -1 when every one is.
pub open spec fn spec_first_counter_bad(ps: Seq<Packet>) -> int
    decreases ps.len(),
{
    if ps.len() == 0 {
        -1
    } else if !spec_counter_ok_packet(ps[0]) {
        0
    } else {
        let rest = spec_first_counter_bad(ps.drop_first());
        if rest == -1 {
            -1
        } else {
            rest + 1
        }
    }
}

proof fn lemma_first_counter_bad_at(ps: Seq<Packet>, i: int)
    requires
        0 <= i < ps.len(),
        !spec_counter_ok_packet(ps[i]),
        forall|j: int| 0 <= j < i ==> spec_counter_ok_packet(ps[j]),
    ensures
        spec_first_counter_bad(ps) == i,
    decreases i,
{
    if i > 0 {
        assert(ps.drop_first()[i - 1] == ps[i]);
        assert forall|j: int| 0 <= j < i - 1 implies spec_counter_ok_packet(
            ps.drop_first()[j],
        ) by {
            assert(ps.drop_first()[j] == ps[j + 1]);
        }
        lemma_first_counter_bad_at(ps.drop_first(), i - 1);
    }
}

/// Collect the new values of a counter batch, in request order (the
/// protocol is strictly request-response ordered on one connection). Every
/// response must be a well-formed success; the first that is not decides
/// the batch's error.
pub fn increment_multi_collect(responses: &Vec<Packet>) -> (r: Result<Vec<u64>, Error>)
    ensures
        r is Ok <==> (forall|i: int| 0 <= i < responses@.len() ==> spec_counter_ok_packet(
            responses@[i],
        )),
        r matches Ok(vs) ==> vs@.len() == responses@.len() && (forall|i: int|
            0 <= i < responses@.len() ==> vs@[i] == spec_counter_value(responses@[i])),
        r matches Err(e) ==> ({
            let i = spec_first_counter_bad(responses@);
            &&& 0 <= i < responses@.len()
            &&& if spec_noerror_packet(responses@[i]) {
                e is Malformed
            } else {
                spec_response_error(responses@[i].header.vbucket_id_or_status, e)
            }
        }),
{
    let mut vs: Vec<u64> = Vec::new();
    let mut i: usize = 0;
    while i < responses.len()
        invariant
            i <= responses@.len(),
            vs@.len() == i,
            forall|j: int| 0 <= j < i ==> spec_counter_ok_packet(responses@[j]),
            forall|j: int| 0 <= j < i ==> vs@[j] == spec_counter_value(responses@[j]),
        decreases responses@.len() - i,
    {
        let p = &responses[i];
        match counter_response(p) {
            Ok((v, _cas)) => {
                vs.push(v);
            },
            Err(e) => {
                proof {
                    lemma_first_counter_bad_at(responses@, i as int);
                }
                return Err(e);
            },
        }
        i = i + 1;
    }
    Ok(vs)
}

/// The chunks of a byte string between occurrences of a separator, in
/// order, kept even when empty: one chunk more than there are separators.
pub open spec fn spec_split(b: Seq<u8>, sep: u8) -> Seq<Seq<u8>>
    decreases b.len(),
{
    if b.len() == 0 {
        seq![Seq::empty()]
    } else if b[0] == sep {
        seq![Seq::<u8>::empty()] + spec_split(b.drop_first(), sep)
    } else {
        let rest = spec_split(b.drop_first(), sep);
        seq![seq![b[0]] + rest[0]] + rest.drop_first()
    }
}

/// There is always at least one chunk.
pub proof fn lemma_split_nonempty(b: Seq<u8>, sep: u8)
    ensures
        spec_split(b, sep).len() >= 1,
    decreases b.len(),
{
    if b.len() > 0 {
        lemma_split_nonempty(b.drop_first(), sep);
    }
}

/// Split a byte string on a separator.
pub fn split_bytes(b: &[u8], sep: u8) -> (r: Vec<Vec<u8>>)
    ensures
        r@.len() == spec_split(b@, sep).len(),
        forall|j: int| #![auto] 0 <= j < r@.len() ==> r@[j]@ == spec_split(b@, sep)[j],
{
    let mut r: Vec<Vec<u8>> = Vec::new();
    r.push(Vec::new());
    let mut i: usize = b.len();
    proof {
        assert(b@.subrange(b@.len() as int, b@.len() as int) =~= Seq::<u8>::empty());
    }
    while i > 0
        invariant
            i <= b@.len(),
            r@.len() >= 1,
            r@.len() == spec_split(b@.subrange(i as int, b@.len() as int), sep).len(),
            forall|j: int| #![auto] 0 <= j < r@.len() ==> r@[j]@ == spec_split(
                b@.subrange(i as int, b@.len() as int),
                sep,
            )[j],
        decreases i,
    {
        let ghost tail = b@.subrange(i as int, b@.len() as int);
        let ghost next = b@.subrange(i - 1, b@.len() as int);
        proof {
            assert(next[0] == b@[i - 1]);
            assert(next.drop_first() =~= tail);
            lemma_split_nonempty(next, sep);
            lemma_split_nonempty(tail, sep);
        }
        let c = b[i - 1];
        if c == sep {
            r.insert(0, Vec::new());
        } else {
            let mut first = r.remove(0);
            first.insert(0, c);
            r.insert(0, first);
            proof {
                assert(first@ =~= seq![b@[i - 1]] + spec_split(tail, sep)[0]);
            }
        }
        i = i - 1;
    }
    proof {
        assert(b@.subrange(0, b@.len() as int) =~= b@);
    }
    r
}

/// Interpret a mechanism-listing response: the body names the supported
/// mechanisms, separated by spaces; a name that is not valid UTF-8 is
/// malformed.
pub fn list_mechanisms_response(p: &Packet) -> (r: Result<Vec<String>, Error>)
    ensures
        r is Ok <==> spec_status_of(p.header.vbucket_id_or_status) == Some(Status::NoError) && (
        forall|j: int| #![auto]
            0 <= j < spec_split(p.val@, 0x20).len() ==> spec_utf8_of(
                spec_split(p.val@, 0x20)[j],
            ) is Some),
        r matches Ok(ms) ==> ms@.len() == spec_split(p.val@, 0x20).len() && (forall|j: int|
            #![auto]
            0 <= j < ms@.len() ==> spec_utf8_of(spec_split(p.val@, 0x20)[j]) == Some(ms@[j]@)),
        r matches Err(e) ==> if spec_status_of(p.header.vbucket_id_or_status) == Some(
            Status::NoError,
        ) {
            e is Malformed
        } else {
            spec_response_error(p.header.vbucket_id_or_status, e)
        },
{
    match simple_response(p) {
        Ok(_) => {
            let chunks = split_bytes(p.val.as_slice(), 0x20);
            let mut ms: Vec<String> = Vec::new();
            let mut i: usize = 0;
            while i < chunks.len()
                invariant
                    i <= chunks@.len(),
                    spec_status_of(p.header.vbucket_id_or_status) == Some(Status::NoError),
                    chunks@.len() == spec_split(p.val@, 0x20).len(),
                    forall|j: int| #![auto]
                        0 <= j < chunks@.len() ==> chunks@[j]@ == spec_split(p.val@, 0x20)[j],
                    ms@.len() == i,
                    forall|j: int| #![auto]
                        0 <= j < i ==> spec_utf8_of(spec_split(p.val@, 0x20)[j]) == Some(ms@[j]@),
                decreases chunks@.len() - i,
            {
                match utf8_string(chunks[i].as_slice()) {
                    Some(m) => {
                        ms.push(m);
                    },
                    None => {
                        proof {
                            assert(chunks@[i as int]@ == spec_split(p.val@, 0x20)[i as int]);
                            assert(spec_utf8_of(spec_split(p.val@, 0x20)[i as int]) is None);
                        }
                        return Err(Error::Malformed);
                    },
                }
                i = i + 1;
            }
            Ok(ms)
        },
        Err(e) => Err(e),
    }
}

/// One step of reconciling a quiet batch. Quiet requests answer only on
/// error, so after the closing NoOp is written, the issuer reads packets
/// in a loop: a packet whose opaque is not the NoOp's is the failure of
/// the quiet request it correlates to; the packet with the NoOp's opaque
/// ends the batch.
#[derive(Debug, PartialEq, Eq, Structural, Clone, Copy)]
pub enum QuietStep {
    /// The NoOp's own response arrived: the batch is complete.
    Done,
    /// A response correlated, by its opaque token, to one quiet request of
    /// the batch, which failed with this status.
    Failed { opaque: u32, status: Status },
}

/// Classify one packet read while reconciling a quiet batch closed by a
/// NoOp with the given opaque token.
pub fn quiet_step(noop_opaque: u32, p: &Packet) -> (r: Result<QuietStep, Error>)
    ensures
        p.header.opaque == noop_opaque ==> match spec_status_of(p.header.vbucket_id_or_status) {
            Some(Status::NoError) => r == Ok::<QuietStep, Error>(QuietStep::Done),
            _ => r matches Err(e) && spec_response_error(p.header.vbucket_id_or_status, e),
        },
        p.header.opaque != noop_opaque ==> match spec_status_of(p.header.vbucket_id_or_status) {
            Some(s) => r == Ok::<QuietStep, Error>(QuietStep::Failed {
                opaque: p.header.opaque,
                status: s,
            }),
            None => r matches Err(e) && e is Malformed,
        },
{
    if p.header.opaque == noop_opaque {
        match simple_response(p) {
            Ok(_) => Ok(QuietStep::Done),
            Err(e) => Err(e),
        }
    } else {
        match p.try_status() {
            Ok(s) => Ok(QuietStep::Failed { opaque: p.header.opaque, status: s }),
            Err(e) => Err(e),
        }
    }
}


} // verus!
