//! Packet framing: the fixed 24-byte header, the opcode-dependent extras
//! region, and the packet aggregate with its body-length invariant.
use vstd::prelude::*;
use crate::code::{Magic, Opcode, Status, spec_magic_of, spec_magic_value, spec_opcode_of,
    spec_opcode_value, spec_status_of};
use crate::error::Error;
use vstd::std_specs::cmp::PartialEqSpec;
use crate::wire::{bytes_eq, spec_be16, spec_be32, spec_be64, spec_u16_of, spec_u32_of, spec_u64_of,
    lemma_be16_bytes_round_trip, lemma_be16_value_round_trip, lemma_be32_bytes_round_trip,
    lemma_be32_value_round_trip, lemma_be64_bytes_round_trip, lemma_be64_value_round_trip,
    push_be16, push_be32, push_be64, push_bytes, push_u8, read_be16, read_be32, read_be64};

verus! {

/// Opcode-dependent payload carried between the header and the key. The
/// shape is selected by the opcode at parse time; it is not self-describing
/// on the wire.
#[derive(Debug)]
pub enum Extras {
    /// No extras bytes.
    Empty,
    /// Extras bytes of an opcode outside the table; kept raw, never dropped.
    Unknown(Vec<u8>),
    /// Extra data for set/add/replace
    Store { flags: u32, expiration: u32 },
    /// Extra data for incr/decr
    Counter { amount: u64, initial: u64, expiration: u32 },
    /// Extra data for flush
    Flush { expiration: u32 },
    /// Extra data for verbosity
    Verbosity { verbosity: u32 },
    /// Extra data for touch/GAT/GATQ
    Touch { expiration: u32 },
    /// Extra data for the get commands in a response
    Get { flags: u32 },
}

/// The mathematical shape of an extras region: the same variants, with the
/// raw bytes as a sequence.
pub enum ExtrasView {
    Empty,
    Unknown(Seq<u8>),
    Store { flags: u32, expiration: u32 },
    Counter { amount: u64, initial: u64, expiration: u32 },
    Flush { expiration: u32 },
    Verbosity { verbosity: u32 },
    Touch { expiration: u32 },
    Get { flags: u32 },
}

impl View for Extras {
    type V = ExtrasView;

    open spec fn view(&self) -> ExtrasView {
        match self {
            Extras::Empty => ExtrasView::Empty,
            Extras::Unknown(b) => ExtrasView::Unknown(b@),
            Extras::Store { flags, expiration } => ExtrasView::Store {
                flags: *flags,
                expiration: *expiration,
            },
            Extras::Counter { amount, initial, expiration } => ExtrasView::Counter {
                amount: *amount,
                initial: *initial,
                expiration: *expiration,
            },
            Extras::Flush { expiration } => ExtrasView::Flush { expiration: *expiration },
            Extras::Verbosity { verbosity } => ExtrasView::Verbosity { verbosity: *verbosity },
            Extras::Touch { expiration } => ExtrasView::Touch { expiration: *expiration },
            Extras::Get { flags } => ExtrasView::Get { flags: *flags },
        }
    }
}

/// How many bytes an extras region occupies on the wire.
pub open spec fn spec_extras_len(v: ExtrasView) -> nat {
    match v {
        ExtrasView::Empty => 0,
        ExtrasView::Unknown(b) => b.len(),
        ExtrasView::Store { .. } => 8,
        ExtrasView::Counter { .. } => 20,
        ExtrasView::Flush { .. } => 4,
        ExtrasView::Verbosity { .. } => 4,
        ExtrasView::Touch { .. } => 4,
        ExtrasView::Get { .. } => 4,
    }
}

/// The bytes an extras region lays down, big-endian fields in fixed order.
pub open spec fn spec_extras_bytes(v: ExtrasView) -> Seq<u8> {
    match v {
        ExtrasView::Empty => Seq::empty(),
        ExtrasView::Unknown(b) => b,
        ExtrasView::Store { flags, expiration } => spec_be32(flags) + spec_be32(expiration),
        ExtrasView::Counter { amount, initial, expiration } => spec_be64(amount) + spec_be64(
            initial,
        ) + spec_be32(expiration),
        ExtrasView::Flush { expiration } => spec_be32(expiration),
        ExtrasView::Verbosity { verbosity } => spec_be32(verbosity),
        ExtrasView::Touch { expiration } => spec_be32(expiration),
        ExtrasView::Get { flags } => spec_be32(flags),
    }
}

/// The encoded length is the declared length.
pub proof fn lemma_extras_bytes_len(v: ExtrasView)
    ensures
        spec_extras_bytes(v).len() == spec_extras_len(v),
{
}

/// Opcodes whose extras are the store shape (flags, expiration).
pub open spec fn spec_is_store_opcode(op: Opcode) -> bool {
    op == Opcode::SetOp || op == Opcode::SetQ || op == Opcode::Add || op == Opcode::AddQ || op
        == Opcode::Replace || op == Opcode::ReplaceQ
}

/// Opcodes whose response extras are the get shape (flags).
pub open spec fn spec_is_get_opcode(op: Opcode) -> bool {
    op == Opcode::Get || op == Opcode::GetQ || op == Opcode::GetK || op == Opcode::GetKQ
}

/// Opcodes whose extras are the counter shape (amount, initial, expiration).
pub open spec fn spec_is_counter_opcode(op: Opcode) -> bool {
    op == Opcode::Increment || op == Opcode::IncrementQ || op == Opcode::Decrement || op
        == Opcode::DecrementQ
}

/// Opcodes whose extras are the touch shape (expiration).
pub open spec fn spec_is_touch_opcode(op: Opcode) -> bool {
    op == Opcode::Touch || op == Opcode::GAT || op == Opcode::GATQ
}

/// Opcodes with a fixed extras shape in the table; everything else falls
/// back to `Unknown` when extras bytes are present.
pub open spec fn spec_is_shaped_opcode(op: Opcode) -> bool {
    spec_is_store_opcode(op) || spec_is_get_opcode(op) || spec_is_counter_opcode(op)
        || spec_is_touch_opcode(op) || op == Opcode::Verbosity || op == Opcode::Flush
}

/// What an extras region of a given byte length decodes to under a given
/// opcode: an empty region is always `Empty`; a region of the exact shaped
/// size decodes to the opcode's shape; a region of any other size for a
/// shaped opcode is malformed; an unmapped opcode keeps its bytes raw.
pub open spec fn spec_parse_extras(op: Opcode, b: Seq<u8>) -> Option<ExtrasView> {
    if b.len() == 0 {
        Some(ExtrasView::Empty)
    } else if spec_is_store_opcode(op) {
        if b.len() == 8 {
            Some(ExtrasView::Store {
                flags: spec_u32_of(b[0], b[1], b[2], b[3]),
                expiration: spec_u32_of(b[4], b[5], b[6], b[7]),
            })
        } else {
            None
        }
    } else if spec_is_get_opcode(op) {
        if b.len() == 4 {
            Some(ExtrasView::Get { flags: spec_u32_of(b[0], b[1], b[2], b[3]) })
        } else {
            None
        }
    } else if spec_is_counter_opcode(op) {
        if b.len() == 20 {
            Some(ExtrasView::Counter {
                amount: spec_u64_of(b[0], b[1], b[2], b[3], b[4], b[5], b[6], b[7]),
                initial: spec_u64_of(b[8], b[9], b[10], b[11], b[12], b[13], b[14], b[15]),
                expiration: spec_u32_of(b[16], b[17], b[18], b[19]),
            })
        } else {
            None
        }
    } else if op == Opcode::Verbosity {
        if b.len() == 4 {
            Some(ExtrasView::Verbosity { verbosity: spec_u32_of(b[0], b[1], b[2], b[3]) })
        } else {
            None
        }
    } else if spec_is_touch_opcode(op) {
        if b.len() == 4 {
            Some(ExtrasView::Touch { expiration: spec_u32_of(b[0], b[1], b[2], b[3]) })
        } else {
            None
        }
    } else if op == Opcode::Flush {
        if b.len() == 4 {
            Some(ExtrasView::Flush { expiration: spec_u32_of(b[0], b[1], b[2], b[3]) })
        } else {
            None
        }
    } else {
        Some(ExtrasView::Unknown(b))
    }
}

/// Whether an extras shape belongs with an opcode: the shaped variants to
/// their opcode class, `Empty` to any opcode, `Unknown` (always non-empty)
/// to the opcodes outside the table.
pub open spec fn spec_extras_matches_opcode(op: Opcode, v: ExtrasView) -> bool {
    match v {
        ExtrasView::Empty => true,
        ExtrasView::Unknown(b) => !spec_is_shaped_opcode(op) && b.len() > 0,
        ExtrasView::Store { .. } => spec_is_store_opcode(op),
        ExtrasView::Counter { .. } => spec_is_counter_opcode(op),
        ExtrasView::Flush { .. } => op == Opcode::Flush,
        ExtrasView::Verbosity { .. } => op == Opcode::Verbosity,
        ExtrasView::Touch { .. } => spec_is_touch_opcode(op),
        ExtrasView::Get { .. } => spec_is_get_opcode(op),
    }
}

impl Extras {
    /// Extra data length
    pub fn len(&self) -> (r: usize)
        ensures
            r == spec_extras_len(self@),
    {
        match self {
            Extras::Empty => 0,
            Extras::Unknown(b) => b.len(),
            Extras::Store { .. } => 8,
            Extras::Counter { .. } => 20,
            Extras::Flush { .. } => 4,
            Extras::Verbosity { .. } => 4,
            Extras::Touch { .. } => 4,
            Extras::Get { .. } => 4,
        }
    }

    /// Whether the region occupies no bytes.
    pub fn is_empty(&self) -> (r: bool)
        ensures
            r == (spec_extras_len(self@) == 0),
    {
        self.len() == 0
    }

    /// Serialise onto the end of a byte buffer, fields big-endian in fixed
    /// order.
    pub fn write_to(&self, w: &mut Vec<u8>)
        ensures
            final(w)@ == old(w)@ + spec_extras_bytes(self@),
    {
        match self {
            Extras::Empty => {
                assert(final(w)@ =~= old(w)@ + spec_extras_bytes(self@));
            },
            Extras::Unknown(b) => {
                push_bytes(w, b.as_slice());
            },
            Extras::Store { flags, expiration } => {
                push_be32(w, *flags);
                push_be32(w, *expiration);
                assert(final(w)@ =~= old(w)@ + spec_extras_bytes(self@));
            },
            Extras::Counter { amount, initial, expiration } => {
                push_be64(w, *amount);
                push_be64(w, *initial);
                push_be32(w, *expiration);
                assert(final(w)@ =~= old(w)@ + spec_extras_bytes(self@));
            },
            Extras::Flush { expiration } => {
                push_be32(w, *expiration);
            },
            Extras::Verbosity { verbosity } => {
                push_be32(w, *verbosity);
            },
            Extras::Touch { expiration } => {
                push_be32(w, *expiration);
            },
            Extras::Get { flags } => {
                push_be32(w, *flags);
            },
        }
    }

    /// Decode an extras region. The buffer is exactly the region the caller
    /// carved out: zero bytes always give `Empty`, whatever the opcode; a
    /// shaped opcode demands its exact size and fails `Malformed` on any
    /// other; an opcode outside the table keeps the bytes raw as `Unknown`.
    pub fn parse(opcode: Opcode, buf: &[u8]) -> (r: Result<Extras, Error>)
        ensures
            match r {
                Ok(e) => spec_parse_extras(opcode, buf@) == Some(e@),
                Err(e) => spec_parse_extras(opcode, buf@) is None && e is Malformed,
            },
    {
        if buf.len() == 0 {
            return Ok(Extras::Empty);
        }
        match opcode {
            Opcode::SetOp | Opcode::SetQ | Opcode::Add | Opcode::AddQ | Opcode::Replace
                | Opcode::ReplaceQ => {
                if buf.len() == 8 {
                    Ok(Extras::Store { flags: read_be32(buf, 0), expiration: read_be32(buf, 4) })
                } else {
                    Err(Error::Malformed)
                }
            },
            Opcode::Get | Opcode::GetQ | Opcode::GetK | Opcode::GetKQ => {
                if buf.len() == 4 {
                    Ok(Extras::Get { flags: read_be32(buf, 0) })
                } else {
                    Err(Error::Malformed)
                }
            },
            Opcode::Increment | Opcode::IncrementQ | Opcode::Decrement | Opcode::DecrementQ => {
                if buf.len() == 20 {
                    Ok(Extras::Counter {
                        amount: read_be64(buf, 0),
                        initial: read_be64(buf, 8),
                        expiration: read_be32(buf, 16),
                    })
                } else {
                    Err(Error::Malformed)
                }
            },
            Opcode::Verbosity => {
                if buf.len() == 4 {
                    Ok(Extras::Verbosity { verbosity: read_be32(buf, 0) })
                } else {
                    Err(Error::Malformed)
                }
            },
            Opcode::Touch | Opcode::GAT | Opcode::GATQ => {
                if buf.len() == 4 {
                    Ok(Extras::Touch { expiration: read_be32(buf, 0) })
                } else {
                    Err(Error::Malformed)
                }
            },
            Opcode::Flush => {
                if buf.len() == 4 {
                    Ok(Extras::Flush { expiration: read_be32(buf, 0) })
                } else {
                    Err(Error::Malformed)
                }
            },
            _ => {
                let mut raw: Vec<u8> = Vec::new();
                push_bytes(&mut raw, buf);
                Ok(Extras::Unknown(raw))
            },
        }
    }
}

/// A decoded extras region re-encodes to exactly the bytes it came from.
pub proof fn lemma_extras_parse_exact(op: Opcode, b: Seq<u8>)
    ensures
        spec_parse_extras(op, b) matches Some(v) ==> spec_extras_bytes(v) == b
            && spec_extras_len(v) == b.len(),
{
    if spec_parse_extras(op, b) is Some {
        let v = spec_parse_extras(op, b)->Some_0;
        match v {
            ExtrasView::Empty => {
                assert(spec_extras_bytes(v) =~= b);
            },
            ExtrasView::Unknown(raw) => {},
            ExtrasView::Store { flags, expiration } => {
                lemma_be32_bytes_round_trip(b[0], b[1], b[2], b[3]);
                lemma_be32_bytes_round_trip(b[4], b[5], b[6], b[7]);
                assert(spec_extras_bytes(v) =~= b);
            },
            ExtrasView::Counter { amount, initial, expiration } => {
                lemma_be64_bytes_round_trip(b[0], b[1], b[2], b[3], b[4], b[5], b[6], b[7]);
                lemma_be64_bytes_round_trip(b[8], b[9], b[10], b[11], b[12], b[13], b[14], b[15]);
                lemma_be32_bytes_round_trip(b[16], b[17], b[18], b[19]);
                assert(spec_extras_bytes(v) =~= b);
            },
            ExtrasView::Flush { expiration } => {
                lemma_be32_bytes_round_trip(b[0], b[1], b[2], b[3]);
                assert(spec_extras_bytes(v) =~= b);
            },
            ExtrasView::Verbosity { verbosity } => {
                lemma_be32_bytes_round_trip(b[0], b[1], b[2], b[3]);
                assert(spec_extras_bytes(v) =~= b);
            },
            ExtrasView::Touch { expiration } => {
                lemma_be32_bytes_round_trip(b[0], b[1], b[2], b[3]);
                assert(spec_extras_bytes(v) =~= b);
            },
            ExtrasView::Get { flags } => {
                lemma_be32_bytes_round_trip(b[0], b[1], b[2], b[3]);
                assert(spec_extras_bytes(v) =~= b);
            },
        }
    }
}

/// Round trip: an extras shape that belongs with an opcode decodes, under
/// that opcode, from its own encoding back to itself.
pub proof fn lemma_extras_round_trip(op: Opcode, v: ExtrasView)
    requires
        spec_extras_matches_opcode(op, v),
    ensures
        spec_parse_extras(op, spec_extras_bytes(v)) == Some(v),
{
    let b = spec_extras_bytes(v);
    lemma_extras_bytes_len(v);
    match v {
        ExtrasView::Empty => {},
        ExtrasView::Unknown(raw) => {},
        ExtrasView::Store { flags, expiration } => {
            assert(b =~= spec_be32(flags) + spec_be32(expiration));
            lemma_be32_value_round_trip(flags);
            lemma_be32_value_round_trip(expiration);
            assert(spec_u32_of(b[0], b[1], b[2], b[3]) == flags);
            assert(spec_u32_of(b[4], b[5], b[6], b[7]) == expiration);
        },
        ExtrasView::Counter { amount, initial, expiration } => {
            lemma_be64_value_round_trip(amount);
            lemma_be64_value_round_trip(initial);
            lemma_be32_value_round_trip(expiration);
            assert(spec_u64_of(b[0], b[1], b[2], b[3], b[4], b[5], b[6], b[7]) == amount);
            assert(spec_u64_of(b[8], b[9], b[10], b[11], b[12], b[13], b[14], b[15]) == initial);
            assert(spec_u32_of(b[16], b[17], b[18], b[19]) == expiration);
        },
        ExtrasView::Flush { expiration } => {
            lemma_be32_value_round_trip(expiration);
            assert(spec_u32_of(b[0], b[1], b[2], b[3]) == expiration);
        },
        ExtrasView::Verbosity { verbosity } => {
            lemma_be32_value_round_trip(verbosity);
            assert(spec_u32_of(b[0], b[1], b[2], b[3]) == verbosity);
        },
        ExtrasView::Touch { expiration } => {
            lemma_be32_value_round_trip(expiration);
            assert(spec_u32_of(b[0], b[1], b[2], b[3]) == expiration);
        },
        ExtrasView::Get { flags } => {
            lemma_be32_value_round_trip(flags);
            assert(spec_u32_of(b[0], b[1], b[2], b[3]) == flags);
        },
    }
}

/// An empty extras region decodes to `Empty` under every opcode, including
/// the ones with a fixed non-empty shape.
pub proof fn lemma_empty_extras(op: Opcode)
    ensures
        spec_parse_extras(op, Seq::empty()) == Some(ExtrasView::Empty),
{
}

impl PartialEq for Extras {
    /// Two extras regions are equal when their shapes and fields are.
    fn eq(&self, other: &Extras) -> (r: bool) {
        match (self, other) {
            (Extras::Empty, Extras::Empty) => true,
            (Extras::Unknown(a), Extras::Unknown(b)) => {
                let r = a == b;
                proof {
                    if r {
                        assert forall|i: int| 0 <= i < a@.len() implies a@[i] == b@[i] by {
                            assert(a@[i].eq_spec(&b@[i]));
                        }
                        assert(a@ =~= b@);
                    } else {
                        if a@ == b@ {
                            assert(a.eq_spec(b));
                        }
                    }
                }
                r
            },
            (
                Extras::Store { flags: f1, expiration: e1 },
                Extras::Store { flags: f2, expiration: e2 },
            ) => f1 == f2 && e1 == e2,
            (
                Extras::Counter { amount: a1, initial: i1, expiration: e1 },
                Extras::Counter { amount: a2, initial: i2, expiration: e2 },
            ) => a1 == a2 && i1 == i2 && e1 == e2,
            (Extras::Flush { expiration: e1 }, Extras::Flush { expiration: e2 }) => e1 == e2,
            (Extras::Verbosity { verbosity: v1 }, Extras::Verbosity { verbosity: v2 }) => v1 == v2,
            (Extras::Touch { expiration: e1 }, Extras::Touch { expiration: e2 }) => e1 == e2,
            (Extras::Get { flags: f1 }, Extras::Get { flags: f2 }) => f1 == f2,
            _ => false,
        }
    }
}

impl vstd::std_specs::cmp::PartialEqSpecImpl for Extras {
    open spec fn obeys_eq_spec() -> bool {
        true
    }

    open spec fn eq_spec(&self, other: &Extras) -> bool {
        self@ == other@
    }
}


/// The fixed 24-byte packet header. Field order and widths on the wire are
/// fixed and big-endian: magic(1) opcode(1) key_len(2) extras_len(1)
/// data_type(1) vbucket_id_or_status(2) body_len(4) opaque(4) cas(8).
#[derive(Debug, PartialEq, Eq, Structural, Clone, Copy)]
pub struct PacketHeader {
    pub magic: Magic,
    pub opcode: Opcode,
    pub key_len: u16,
    pub extras_len: u8,
    /// raw bytes(0x00)
    pub data_type: u8,
    /// vbucket id in requests, status in responses
    pub vbucket_id_or_status: u16,
    /// `extras_len` + `key_len` + `val_len`
    pub body_len: u32,
    /// caller-chosen correlation token, echoed verbatim by a conforming peer
    pub opaque: u32,
    pub cas: u64,
}

/// The 24 bytes a header lays down on the wire.
pub open spec fn spec_header_bytes(h: PacketHeader) -> Seq<u8> {
    seq![spec_magic_value(h.magic), spec_opcode_value(h.opcode)] + spec_be16(h.key_len) + seq![
        h.extras_len,
        h.data_type,
    ] + spec_be16(h.vbucket_id_or_status) + spec_be32(h.body_len) + spec_be32(h.opaque)
        + spec_be64(h.cas)
}

/// What a 24-byte (or longer) buffer's prefix decodes to: a header when the
/// magic and opcode bytes are recognised, nothing otherwise.
pub open spec fn spec_parse_header(b: Seq<u8>) -> Option<PacketHeader>
    recommends
        b.len() >= 24,
{
    match (spec_magic_of(b[0]), spec_opcode_of(b[1])) {
        (Some(magic), Some(opcode)) => Some(
            PacketHeader {
                magic,
                opcode,
                key_len: spec_u16_of(b[2], b[3]),
                extras_len: b[4],
                data_type: b[5],
                vbucket_id_or_status: spec_u16_of(b[6], b[7]),
                body_len: spec_u32_of(b[8], b[9], b[10], b[11]),
                opaque: spec_u32_of(b[12], b[13], b[14], b[15]),
                cas: spec_u64_of(b[16], b[17], b[18], b[19], b[20], b[21], b[22], b[23]),
            },
        ),
        _ => None,
    }
}

/// A header's encoding is 24 bytes.
pub proof fn lemma_header_bytes_len(h: PacketHeader)
    ensures
        spec_header_bytes(h).len() == 24,
{
}

/// A header decodes from its own encoding back to itself.
pub proof fn lemma_header_round_trip(h: PacketHeader)
    ensures
        spec_parse_header(spec_header_bytes(h)) == Some(h),
{
    let b = spec_header_bytes(h);
    crate::code::lemma_magic_round_trip(h.magic);
    crate::code::lemma_opcode_round_trip(h.opcode);
    lemma_be16_value_round_trip(h.key_len);
    lemma_be16_value_round_trip(h.vbucket_id_or_status);
    lemma_be32_value_round_trip(h.body_len);
    lemma_be32_value_round_trip(h.opaque);
    lemma_be64_value_round_trip(h.cas);
}

/// A decoded header re-encodes to exactly the 24 bytes it came from.
pub proof fn lemma_header_parse_exact(b: Seq<u8>)
    requires
        b.len() >= 24,
    ensures
        spec_parse_header(b) matches Some(h) ==> spec_header_bytes(h) == b.subrange(0, 24),
{
    if spec_parse_header(b) is Some {
        let h = spec_parse_header(b)->Some_0;
        lemma_be16_bytes_round_trip(b[2], b[3]);
        lemma_be16_bytes_round_trip(b[6], b[7]);
        lemma_be32_bytes_round_trip(b[8], b[9], b[10], b[11]);
        lemma_be32_bytes_round_trip(b[12], b[13], b[14], b[15]);
        lemma_be64_bytes_round_trip(b[16], b[17], b[18], b[19], b[20], b[21], b[22], b[23]);
        assert(spec_header_bytes(h) =~= b.subrange(0, 24));
    }
}

/// A buffer whose magic byte is not one of the two known values never
/// decodes to a header: the framing is malformed, whatever the rest holds.
pub proof fn lemma_malformed_magic(b: Seq<u8>)
    requires
        b.len() >= 24,
        b[0] != 0x80,
        b[0] != 0x81,
    ensures
        spec_parse_header(b) is None,
{
}

impl PacketHeader {
    /// Request header with default (zeroed) values.
    pub fn request(opcode: Opcode) -> (r: Self)
        ensures
            r == (PacketHeader {
                magic: Magic::Request,
                opcode,
                key_len: 0,
                extras_len: 0,
                data_type: 0,
                vbucket_id_or_status: 0,
                body_len: 0,
                opaque: 0,
                cas: 0,
            }),
    {
        PacketHeader {
            magic: Magic::Request,
            opcode,
            key_len: 0,
            extras_len: 0,
            data_type: 0,
            vbucket_id_or_status: 0,
            body_len: 0,
            opaque: 0,
            cas: 0,
        }
    }

    /// Response header with default (zeroed) values.
    pub fn response(opcode: Opcode) -> (r: Self)
        ensures
            r == (PacketHeader {
                magic: Magic::Response,
                opcode,
                key_len: 0,
                extras_len: 0,
                data_type: 0,
                vbucket_id_or_status: 0,
                body_len: 0,
                opaque: 0,
                cas: 0,
            }),
    {
        PacketHeader {
            magic: Magic::Response,
            opcode,
            key_len: 0,
            extras_len: 0,
            data_type: 0,
            vbucket_id_or_status: 0,
            body_len: 0,
            opaque: 0,
            cas: 0,
        }
    }

    /// Request header whose length fields are computed from the payload:
    /// `body_len` is always `extras_len + key_len + val_len`.
    pub fn request_from_payload(
        opcode: Opcode,
        vbucket_id: u16,
        opaque: u32,
        cas: u64,
        extras: &Extras,
        key: &[u8],
        val: &[u8],
    ) -> (r: Self)
        requires
            key@.len() <= u16::MAX,
            spec_extras_len(extras@) <= u8::MAX,
            spec_extras_len(extras@) + key@.len() + val@.len() <= u32::MAX,
        ensures
            r == (PacketHeader {
                magic: Magic::Request,
                opcode,
                key_len: key@.len() as u16,
                extras_len: spec_extras_len(extras@) as u8,
                data_type: 0,
                vbucket_id_or_status: vbucket_id,
                body_len: (spec_extras_len(extras@) + key@.len() + val@.len()) as u32,
                opaque,
                cas,
            }),
    {
        let key_len = key.len() as u16;
        let extras_len = extras.len() as u8;
        let body_len = (key.len() + extras.len() + val.len()) as u32;
        PacketHeader {
            magic: Magic::Request,
            opcode,
            key_len,
            extras_len,
            data_type: 0,
            vbucket_id_or_status: vbucket_id,
            body_len,
            opaque,
            cas,
        }
    }

    /// Response header whose length fields are computed from the payload.
    /// The status value is carried in the 16-bit vbucket/status field. The
    /// magic is encoded as `Request`, keeping the legacy layout this wire
    /// format has always used for locally built response headers.
    pub fn response_from_payload(
        opcode: Opcode,
        status: Status,
        opaque: u32,
        cas: u64,
        extras: &Extras,
        key: &[u8],
        val: &[u8],
    ) -> (r: Self)
        requires
            key@.len() <= u16::MAX,
            spec_extras_len(extras@) <= u8::MAX,
            spec_extras_len(extras@) + key@.len() + val@.len() <= u32::MAX,
        ensures
            r == (PacketHeader {
                magic: Magic::Request,
                opcode,
                key_len: key@.len() as u16,
                extras_len: spec_extras_len(extras@) as u8,
                data_type: 0,
                vbucket_id_or_status: crate::code::spec_status_value(status),
                body_len: (spec_extras_len(extras@) + key@.len() + val@.len()) as u32,
                opaque,
                cas,
            }),
    {
        let key_len = key.len() as u16;
        let extras_len = extras.len() as u8;
        let body_len = (key.len() + extras.len() + val.len()) as u32;
        PacketHeader {
            magic: Magic::Request,
            opcode,
            key_len,
            extras_len,
            data_type: 0,
            vbucket_id_or_status: status.value(),
            body_len,
            opaque,
            cas,
        }
    }

    /// Size of `PacketHeader` in bytes.
    pub fn size() -> (r: usize)
        ensures
            r == 24,
    {
        24
    }

    /// Decode the fixed 24-byte prefix of a buffer. Fails `Malformed` when
    /// the magic byte is not one of the two known values or the opcode byte
    /// is not in the table; such a failure is fatal to the connection.
    pub fn parse(buf: &[u8]) -> (r: Result<PacketHeader, Error>)
        requires
            buf@.len() >= 24,
        ensures
            match r {
                Ok(h) => spec_parse_header(buf@) == Some(h),
                Err(e) => spec_parse_header(buf@) is None && e is Malformed,
            },
    {
        let magic = match Magic::from_u8(buf[0]) {
            Some(m) => m,
            None => {
                return Err(Error::Malformed);
            },
        };
        let opcode = match Opcode::from_u8(buf[1]) {
            Some(oc) => oc,
            None => {
                return Err(Error::Malformed);
            },
        };
        Ok(
            PacketHeader {
                magic,
                opcode,
                key_len: read_be16(buf, 2),
                extras_len: buf[4],
                data_type: buf[5],
                vbucket_id_or_status: read_be16(buf, 6),
                body_len: read_be32(buf, 8),
                opaque: read_be32(buf, 12),
                cas: read_be64(buf, 16),
            },
        )
    }
}


/// Reading a value back from a byte buffer: the unit of one transmission.
/// `write_to` lays a value's bytes onto a buffer; `read_from` rebuilds a
/// value from the front of one, succeeding exactly on a well-formed prefix,
/// and what it read re-encodes to the bytes consumed.
pub trait SyncOps: Sized {
    /// The bytes this value lays down on the wire.
    spec fn wire_bytes(&self) -> Seq<u8>;

    /// Whether the front of a buffer holds a well-formed encoding.
    spec fn read_ok(buf: Seq<u8>) -> bool;

    /// What reading from the front of a buffer yields: the value rebuilt
    /// and the number of bytes consumed.
    spec fn read_result(buf: Seq<u8>, v: Self, n: int) -> bool;

    /// Serialise onto the end of a byte buffer, without flushing anything.
    fn write_to(&self, w: &mut Vec<u8>)
        ensures
            final(w)@ == old(w)@ + self.wire_bytes(),
    ;

    /// Rebuild a value from the front of a byte buffer.
    fn read_from(buf: &[u8]) -> (r: Result<(Self, usize), Error>)
        ensures
            r matches Ok((v, n)) ==> Self::read_ok(buf@) && Self::read_result(buf@, v, n as int)
                && 0 < n <= buf@.len() && v.wire_bytes() == buf@.subrange(0, n as int),
            r matches Err(e) ==> !Self::read_ok(buf@) && e is Malformed,
            Self::read_ok(buf@) ==> r is Ok,
    ;
}

impl SyncOps for PacketHeader {
    open spec fn wire_bytes(&self) -> Seq<u8> {
        spec_header_bytes(*self)
    }

    open spec fn read_ok(buf: Seq<u8>) -> bool {
        buf.len() >= 24 && spec_parse_header(buf) is Some
    }

    open spec fn read_result(buf: Seq<u8>, v: Self, n: int) -> bool {
        n == 24 && spec_parse_header(buf) == Some(v)
    }

    fn write_to(&self, w: &mut Vec<u8>) {
        push_u8(w, self.magic.value());
        push_u8(w, self.opcode.value());
        push_be16(w, self.key_len);
        push_u8(w, self.extras_len);
        push_u8(w, self.data_type);
        push_be16(w, self.vbucket_id_or_status);
        push_be32(w, self.body_len);
        push_be32(w, self.opaque);
        push_be64(w, self.cas);
        assert(w@ =~= old(w)@ + spec_header_bytes(*self));
    }

    fn read_from(buf: &[u8]) -> (r: Result<(Self, usize), Error>) {
        if buf.len() < 24 {
            return Err(Error::Malformed);
        }
        match PacketHeader::parse(buf) {
            Ok(h) => {
                proof {
                    lemma_header_parse_exact(buf@);
                }
                Ok((h, 24))
            },
            Err(e) => Err(e),
        }
    }
}

/// The whole packet aggregate: header, extras, key bytes and value bytes.
/// A packet owns its payload; it is built immediately before serialisation
/// or rebuilt from wire bytes as the unit of one read, and not mutated
/// afterwards.
#[derive(Debug)]
pub struct Packet {
    pub header: PacketHeader,
    pub extras: Extras,
    pub key: Vec<u8>,
    pub val: Vec<u8>,
}

/// The bytes of a packet given as its four parts: header, then extras, then
/// key, then value, contiguous.
pub open spec fn spec_packet_parts_bytes(
    h: PacketHeader,
    ev: ExtrasView,
    key: Seq<u8>,
    val: Seq<u8>,
) -> Seq<u8> {
    spec_header_bytes(h) + spec_extras_bytes(ev) + key + val
}

/// The bytes a packet lays down on the wire.
pub open spec fn spec_packet_bytes(p: Packet) -> Seq<u8> {
    spec_packet_parts_bytes(p.header, p.extras@, p.key@, p.val@)
}

/// The header length fields agree with the payload: this must hold of every
/// constructed or parsed packet.
pub open spec fn spec_packet_wf(p: Packet) -> bool {
    &&& p.header.extras_len == spec_extras_len(p.extras@)
    &&& p.header.key_len == p.key@.len()
    &&& p.header.body_len == spec_extras_len(p.extras@) + p.key@.len() + p.val@.len()
}

/// What a buffer's prefix decodes to as a whole packet: the header from the
/// first 24 bytes, then one bounded body of `body_len` bytes split into
/// extras, key and value by cumulative offset. Contradictory lengths are
/// malformed.
pub open spec fn spec_read_packet(b: Seq<u8>) -> Option<
    (PacketHeader, ExtrasView, Seq<u8>, Seq<u8>),
> {
    if b.len() < 24 {
        None
    } else {
        match spec_parse_header(b) {
            None => None,
            Some(h) => {
                let body = h.body_len as int;
                let xl = h.extras_len as int;
                let kl = h.key_len as int;
                if b.len() < 24 + body || xl + kl > body {
                    None
                } else {
                    match spec_parse_extras(h.opcode, b.subrange(24, 24 + xl)) {
                        None => None,
                        Some(ev) => Some(
                            (
                                h,
                                ev,
                                b.subrange(24 + xl, 24 + xl + kl),
                                b.subrange(24 + xl + kl, 24 + body),
                            ),
                        ),
                    }
                }
            },
        }
    }
}

impl Packet {
    /// Construct a request packet; the header length fields are computed
    /// from the payload, never hand-assembled.
    pub fn request(
        opcode: Opcode,
        vbucket_id: u16,
        opaque: u32,
        cas: u64,
        extras: Extras,
        key: Vec<u8>,
        val: Vec<u8>,
    ) -> (r: Packet)
        requires
            key@.len() <= u16::MAX,
            spec_extras_len(extras@) <= u8::MAX,
            spec_extras_len(extras@) + key@.len() + val@.len() <= u32::MAX,
        ensures
            r.header == (PacketHeader {
                magic: Magic::Request,
                opcode,
                key_len: key@.len() as u16,
                extras_len: spec_extras_len(extras@) as u8,
                data_type: 0,
                vbucket_id_or_status: vbucket_id,
                body_len: (spec_extras_len(extras@) + key@.len() + val@.len()) as u32,
                opaque,
                cas,
            }),
            r.extras == extras,
            r.key == key,
            r.val == val,
            spec_packet_wf(r),
    {
        let header = PacketHeader::request_from_payload(
            opcode,
            vbucket_id,
            opaque,
            cas,
            &extras,
            key.as_slice(),
            val.as_slice(),
        );
        Packet { header, extras, key, val }
    }

    /// Construct a response packet; the status is carried in the 16-bit
    /// vbucket/status field and the length fields are computed from the
    /// payload. As in the legacy layout, the magic is encoded as `Request`.
    pub fn response(
        opcode: Opcode,
        status: Status,
        opaque: u32,
        cas: u64,
        extras: Extras,
        key: Vec<u8>,
        val: Vec<u8>,
    ) -> (r: Packet)
        requires
            key@.len() <= u16::MAX,
            spec_extras_len(extras@) <= u8::MAX,
            spec_extras_len(extras@) + key@.len() + val@.len() <= u32::MAX,
        ensures
            r.header == (PacketHeader {
                magic: Magic::Request,
                opcode,
                key_len: key@.len() as u16,
                extras_len: spec_extras_len(extras@) as u8,
                data_type: 0,
                vbucket_id_or_status: crate::code::spec_status_value(status),
                body_len: (spec_extras_len(extras@) + key@.len() + val@.len()) as u32,
                opaque,
                cas,
            }),
            r.extras == extras,
            r.key == key,
            r.val == val,
            spec_packet_wf(r),
    {
        let header = PacketHeader::response_from_payload(
            opcode,
            status,
            opaque,
            cas,
            &extras,
            key.as_slice(),
            val.as_slice(),
        );
        Packet { header, extras, key, val }
    }

    /// Assemble a packet around a given header, recomputing the header's
    /// length fields from the payload so the body-length invariant holds by
    /// construction.
    pub fn new(header: PacketHeader, extras: Extras, key: Vec<u8>, val: Vec<u8>) -> (r: Packet)
        requires
            key@.len() <= u16::MAX,
            spec_extras_len(extras@) <= u8::MAX,
            spec_extras_len(extras@) + key@.len() + val@.len() <= u32::MAX,
        ensures
            r.header == (PacketHeader {
                key_len: key@.len() as u16,
                extras_len: spec_extras_len(extras@) as u8,
                body_len: (spec_extras_len(extras@) + key@.len() + val@.len()) as u32,
                ..header
            }),
            r.extras == extras,
            r.key == key,
            r.val == val,
            spec_packet_wf(r),
    {
        let key_len = key.len() as u16;
        let extras_len = extras.len() as u8;
        let body_len = (key.len() + extras.len() + val.len()) as u32;
        let header = PacketHeader { key_len, extras_len, body_len, ..header };
        Packet { header, extras, key, val }
    }

    /// Whether the magic marks this packet as a request.
    pub fn is_request(&self) -> (r: bool)
        ensures
            r == (self.header.magic == Magic::Request),
    {
        match self.header.magic {
            Magic::Request => true,
            Magic::Response => false,
        }
    }

    /// Whether the magic marks this packet as a response.
    pub fn is_response(&self) -> (r: bool)
        ensures
            r == (self.header.magic == Magic::Response),
    {
        match self.header.magic {
            Magic::Request => false,
            Magic::Response => true,
        }
    }

    /// The response status carried in the vbucket/status field. The caller
    /// must know the field holds a recognised status value.
    pub fn status(&self) -> (r: Status)
        requires
            spec_status_of(self.header.vbucket_id_or_status) is Some,
        ensures
            Some(r) == spec_status_of(self.header.vbucket_id_or_status),
    {
        match Status::from_u16(self.header.vbucket_id_or_status) {
            Some(s) => s,
            None => {
                proof {
                    assert(false);
                }
                Status::NoError
            },
        }
    }

    /// The response status, or `Malformed` when the field does not hold a
    /// recognised status value.
    pub fn try_status(&self) -> (r: Result<Status, Error>)
        ensures
            match r {
                Ok(s) => spec_status_of(self.header.vbucket_id_or_status) == Some(s),
                Err(e) => spec_status_of(self.header.vbucket_id_or_status) is None
                    && e is Malformed,
            },
    {
        match Status::from_u16(self.header.vbucket_id_or_status) {
            Some(s) => Ok(s),
            None => Err(Error::Malformed),
        }
    }
}

impl SyncOps for Packet {
    open spec fn wire_bytes(&self) -> Seq<u8> {
        spec_packet_bytes(*self)
    }

    open spec fn read_ok(buf: Seq<u8>) -> bool {
        spec_read_packet(buf) is Some
    }

    open spec fn read_result(buf: Seq<u8>, v: Self, n: int) -> bool {
        spec_read_packet(buf) == Some((v.header, v.extras@, v.key@, v.val@)) && n == 24
            + v.header.body_len
    }

    /// Header, then extras, then key bytes, then value bytes, in that fixed
    /// order. The flush of the underlying channel is the transport's step.
    fn write_to(&self, w: &mut Vec<u8>) {
        self.header.write_to(w);
        self.extras.write_to(w);
        push_bytes(w, self.key.as_slice());
        push_bytes(w, self.val.as_slice());
        assert(w@ =~= old(w)@ + spec_packet_bytes(*self));
    }

    /// Read the 24-byte header, then one body of `body_len` bytes, split
    /// into extras, key and value by cumulative offset. Lengths that
    /// contradict each other are malformed.
    fn read_from(buf: &[u8]) -> (r: Result<(Self, usize), Error>) {
        if buf.len() < 24 {
            return Err(Error::Malformed);
        }
        let header = match PacketHeader::parse(buf) {
            Ok(h) => h,
            Err(e) => {
                return Err(e);
            },
        };
        let body_len = header.body_len as usize;
        if buf.len() - 24 < body_len {
            return Err(Error::Malformed);
        }
        let extras_len = header.extras_len as usize;
        let key_len = header.key_len as usize;
        if extras_len + key_len > body_len {
            return Err(Error::Malformed);
        }
        let eb = vstd::slice::slice_subrange(buf, 24, 24 + extras_len);
        let extras = match Extras::parse(header.opcode, eb) {
            Ok(e) => e,
            Err(e) => {
                return Err(e);
            },
        };
        let key = vstd::slice::slice_to_vec(
            vstd::slice::slice_subrange(buf, 24 + extras_len, 24 + extras_len + key_len),
        );
        let val = vstd::slice::slice_to_vec(
            vstd::slice::slice_subrange(buf, 24 + extras_len + key_len, 24 + body_len),
        );
        let p = Packet { header, extras, key, val };
        proof {
            lemma_header_parse_exact(buf@);
            lemma_extras_parse_exact(p.header.opcode, buf@.subrange(24, 24 + extras_len as int));
            assert(spec_packet_bytes(p) =~= buf@.subrange(0, 24 + body_len as int));
        }
        Ok((p, 24 + body_len))
    }
}

/// A parsed packet satisfies the body-length invariant.
pub proof fn lemma_read_packet_wf(b: Seq<u8>)
    ensures
        spec_read_packet(b) matches Some((h, ev, key, val)) ==> {
            &&& h.extras_len == spec_extras_len(ev)
            &&& h.key_len == key.len()
            &&& h.body_len == spec_extras_len(ev) + key.len() + val.len()
        },
{
    if spec_read_packet(b) is Some {
        let h = spec_parse_header(b)->Some_0;
        let xl = h.extras_len as int;
        lemma_extras_parse_exact(h.opcode, b.subrange(24, 24 + xl));
    }
}

/// Round trip: a well-formed packet whose extras shape belongs with its
/// opcode decodes from its own encoding back to itself.
pub proof fn lemma_packet_round_trip(p: Packet)
    requires
        spec_packet_wf(p),
        spec_extras_matches_opcode(p.header.opcode, p.extras@),
    ensures
        spec_read_packet(spec_packet_bytes(p)) == Some((p.header, p.extras@, p.key@, p.val@)),
{
    let b = spec_packet_bytes(p);
    let hb = spec_header_bytes(p.header);
    let eb = spec_extras_bytes(p.extras@);
    lemma_header_bytes_len(p.header);
    lemma_extras_bytes_len(p.extras@);
    lemma_header_round_trip(p.header);
    assert forall|i: int| 0 <= i < 24 implies b[i] == hb[i] by {}
    assert(spec_parse_header(b) == Some(p.header));
    let xl = p.header.extras_len as int;
    let kl = p.header.key_len as int;
    let body = p.header.body_len as int;
    assert(b.len() == 24 + body);
    assert(b.subrange(24, 24 + xl) =~= eb);
    lemma_extras_round_trip(p.header.opcode, p.extras@);
    assert(b.subrange(24 + xl, 24 + xl + kl) =~= p.key@);
    assert(b.subrange(24 + xl + kl, 24 + body) =~= p.val@);
}

impl PartialEq for Packet {
    /// Two packets are equal when all four parts are.
    fn eq(&self, other: &Packet) -> (r: bool) {
        self.header == other.header && self.extras == other.extras && bytes_eq(
            &self.key,
            &other.key,
        ) && bytes_eq(&self.val, &other.val)
    }
}

impl vstd::std_specs::cmp::PartialEqSpecImpl for Packet {
    open spec fn obeys_eq_spec() -> bool {
        true
    }

    open spec fn eq_spec(&self, other: &Packet) -> bool {
        self.header == other.header && self.extras@ == other.extras@ && self.key@ == other.key@
            && self.val@ == other.val@
    }
}

/// A packet borrowed from caller-owned storage: same write path as the
/// owning `Packet` without allocating or copying, but no read path — a read
/// needs ownership, since the payload length is only known once the header
/// has been parsed.
#[derive(Debug)]
pub struct PacketRef<'a> {
    pub header: &'a PacketHeader,
    pub extras: &'a Extras,
    pub key: &'a [u8],
    pub val: &'a [u8],
}

impl<'a> PacketRef<'a> {
    /// Borrow the four parts of a packet.
    pub fn new(
        header: &'a PacketHeader,
        extras: &'a Extras,
        key: &'a [u8],
        val: &'a [u8],
    ) -> (r: PacketRef<'a>)
        ensures
            r.header == header,
            r.extras == extras,
            r.key == key,
            r.val == val,
    {
        PacketRef { header, extras, key, val }
    }

    /// Serialise onto the end of a byte buffer: header, extras, key, value,
    /// in that fixed order.
    pub fn write_to(&self, w: &mut Vec<u8>)
        ensures
            final(w)@ == old(w)@ + spec_packet_parts_bytes(
                *self.header,
                self.extras@,
                self.key@,
                self.val@,
            ),
    {
        self.header.write_to(w);
        self.extras.write_to(w);
        push_bytes(w, self.key);
        push_bytes(w, self.val);
        assert(w@ =~= old(w)@ + spec_packet_parts_bytes(
            *self.header,
            self.extras@,
            self.key@,
            self.val@,
        ));
    }
}

} // verus!
