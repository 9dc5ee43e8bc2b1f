//! Codec and operation-contract layer for the memcached binary wire
//! protocol: the fixed 24-byte header, the opcode-dependent extras region,
//! packet assembly with its body-length invariant, status mapping, and the
//! capability traits that make up the client-side command surface.
//!
//! The crate is transport-agnostic: it turns packets into bytes and bytes
//! back into packets, and decides what each response means. Reading and
//! writing a real channel is the caller's business.
mod client;
mod code;
mod error;
mod ops;
mod packet;
mod wire;

pub use client::{
    AuthOperation, AuthResponse, CasOperation, MultiOperation, NoReplyOperation, OpaqueSource,
    Operation, Proto, ServerOperation, Version, discard_packet,
};
pub use code::{
    Magic, Opcode, Status, lemma_magic_round_trip, lemma_opcode_round_trip,
    lemma_status_round_trip, spec_magic_of, spec_magic_value, spec_opcode_of, spec_opcode_value,
    spec_status_desc, spec_status_of, spec_status_value,
};
pub use error::{Error, ProtoError};
pub use ops::{
    QuietStep, all_ok, auth_response, cas_response, concat_request, counter_request,
    counter_response, extras_flags, flush_request, get_multi_collect, get_response, getk_response,
    increment_multi_collect, key_request, list_mechanisms_response, plain_request, quiet_step,
    sasl_request, simple_response, spec_all_noerror, spec_counter_ok_packet, spec_counter_value,
    spec_extras_flags, spec_first_counter_bad, spec_first_error, spec_multi_get,
    spec_noerror_packet, spec_response_error, spec_semver_of, spec_split, spec_utf8_of,
    split_bytes, stat_entry, store_request, touch_request, version_response,
};
pub use packet::{
    Extras, ExtrasView, Packet, PacketHeader, PacketRef, SyncOps, lemma_empty_extras,
    lemma_extras_bytes_len, lemma_extras_parse_exact, lemma_extras_round_trip,
    lemma_header_bytes_len, lemma_header_parse_exact, lemma_header_round_trip,
    lemma_malformed_magic, lemma_packet_round_trip, lemma_read_packet_wf, spec_extras_bytes, spec_extras_len,
    spec_extras_matches_opcode, spec_header_bytes, spec_is_counter_opcode, spec_is_get_opcode,
    spec_is_shaped_opcode, spec_is_store_opcode, spec_is_touch_opcode, spec_packet_bytes,
    spec_packet_parts_bytes, spec_packet_wf, spec_parse_extras, spec_parse_header,
    spec_read_packet,
};
pub use wire::{
    lemma_be16_bytes_round_trip, lemma_be16_value_round_trip, lemma_be32_bytes_round_trip,
    lemma_be32_value_round_trip, lemma_be64_bytes_round_trip, lemma_be64_value_round_trip,
    push_be16, push_be32, push_be64, push_bytes, push_u8, read_be16, read_be32, read_be64,
    spec_be16, spec_be32, spec_be64, spec_u16_of, spec_u32_of, spec_u64_of,
};
