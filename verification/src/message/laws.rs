//! The codec's governing properties, proved once and for all:
//!
//! - decoding inverts encoding for every representable message;
//! - the escape transform emits only escape pairs and plain non-marker bytes,
//!   and unescaping restores the original bytes exactly;
//! - changing any single byte of the checksum-covered region of a frame
//!   (outside the length field) makes the parse fail with a checksum error.

use vstd::prelude::*;

use crate::message::{
    is_special, lemma_be32_round_trip, spec_be32, spec_be32_value, spec_body, spec_checksum,
    spec_decode, spec_decode_payload, spec_encode, spec_escape, spec_parse, spec_unescape,
    spec_unescape_compose, spec_unescape_from, sum_bytes, DataView, MessageView, ESCAPE_CHAR,
    MESSAGE_END, MESSAGE_START,
};
use crate::message::data_mdr::{
    spec_deserialize_command, spec_serialize_command, CommandType, CommandView,
};
use crate::message::data_mdr::nc_asm::{NcAsmNtfyParam, NcAsmSetParam};
use crate::serializable::DeserializeError;

verus! {

/// Unescaping from position `i` is unescaping of the suffix from `i`.
proof fn lemma_unescape_from_skip(s: Seq<u8>, i: int)
    requires
        0 <= i <= s.len(),
    ensures
        spec_unescape_from(s, i) == spec_unescape(s.skip(i)),
    decreases s.len() - i,
{
    let t = s.skip(i);
    if i >= s.len() {
        assert(t =~= Seq::<u8>::empty());
    } else {
        assert(t[0] == s[i]);
        if s[i] == ESCAPE_CHAR {
            if i + 1 >= s.len() {
            } else {
                assert(t[1] == s[i + 1]);
                if is_special(s[i + 1]) {
                    lemma_unescape_from_skip(s, i + 2);
                    assert(s.skip(i + 2) =~= t.skip(2));
                    lemma_unescape_from_skip(t, 2);
                }
            }
        } else {
            lemma_unescape_from_skip(s, i + 1);
            assert(s.skip(i + 1) =~= t.skip(1));
            lemma_unescape_from_skip(t, 1);
        }
    }
}

/// If a buffer unescapes cleanly, its escape pairs are self-contained, so a
/// following buffer unescapes independently.
proof fn lemma_unescape_concat(x: Seq<u8>, y: Seq<u8>)
    requires
        spec_unescape(x) is Ok,
    ensures
        spec_unescape(x + y) == spec_unescape_compose(spec_unescape(x)->Ok_0, spec_unescape(y)),
    decreases x.len(),
{
    let u = x + y;
    if x.len() == 0 {
        assert(u =~= y);
        match spec_unescape(y) {
            Ok(b) => {
                assert(Seq::<u8>::empty() + b =~= b);
                assert(spec_unescape(x)->Ok_0 =~= Seq::<u8>::empty());
            },
            Err(_) => {},
        }
    } else if x[0] == ESCAPE_CHAR {
        // a clean unescape means the escape pair is complete and valid
        assert(x.len() >= 2 && is_special(x[1]));
        assert(u[0] == ESCAPE_CHAR && u[1] == x[1]);
        lemma_unescape_from_skip(x, 2);
        lemma_unescape_concat(x.skip(2), y);
        assert(x.skip(2) + y =~= u.skip(2));
        lemma_unescape_from_skip(u, 2);
        let a2 = spec_unescape(x.skip(2))->Ok_0;
        assert(spec_unescape(x)->Ok_0 =~= seq![x[1]] + a2);
        match spec_unescape(y) {
            Ok(b) => {
                assert(seq![x[1]] + (a2 + b) =~= (seq![x[1]] + a2) + b);
            },
            Err(_) => {},
        }
    } else {
        assert(u[0] == x[0]);
        lemma_unescape_from_skip(x, 1);
        lemma_unescape_concat(x.skip(1), y);
        assert(x.skip(1) + y =~= u.skip(1));
        lemma_unescape_from_skip(u, 1);
        let a1 = spec_unescape(x.skip(1))->Ok_0;
        assert(spec_unescape(x)->Ok_0 =~= seq![x[0]] + a1);
        match spec_unescape(y) {
            Ok(b) => {
                assert(seq![x[0]] + (a1 + b) =~= (seq![x[0]] + a1) + b);
            },
            Err(_) => {},
        }
    }
}

/// Unescaping inverts escaping: the original bytes come back exactly.
pub proof fn lemma_unescape_escape(s: Seq<u8>)
    ensures
        spec_unescape(spec_escape(s)) == Ok::<Seq<u8>, DeserializeError>(s),
    decreases s.len(),
{
    if s.len() == 0 {
        assert(spec_escape(s) =~= Seq::<u8>::empty());
        assert(s =~= Seq::<u8>::empty());
    } else {
        let unit = if is_special(s.last()) {
            seq![ESCAPE_CHAR, s.last()]
        } else {
            seq![s.last()]
        };
        lemma_unescape_escape(s.drop_last());
        // the one-element (or pair) tail unescapes to the last byte alone
        assert(spec_unescape(unit) == Ok::<Seq<u8>, DeserializeError>(seq![s.last()])) by {
            if is_special(s.last()) {
                assert(unit.skip(2) =~= Seq::<u8>::empty());
                lemma_unescape_from_skip(unit, 2);
                assert(seq![s.last()] + Seq::<u8>::empty() =~= seq![s.last()]);
            } else {
                assert(unit.skip(1) =~= Seq::<u8>::empty());
                lemma_unescape_from_skip(unit, 1);
                assert(seq![s.last()] + Seq::<u8>::empty() =~= seq![s.last()]);
            }
        }
        lemma_unescape_concat(spec_escape(s.drop_last()), unit);
        assert(spec_escape(s) == spec_escape(s.drop_last()) + unit);
        assert(s.drop_last() + seq![s.last()] =~= s);
    }
}

/// The shape of a well-escaped region: every escape marker begins a two-byte
/// pair whose second byte is an escapable value, and no marker-valued byte
/// stands anywhere else.
pub open spec fn escape_pairs_only(t: Seq<u8>) -> bool
    decreases t.len(),
{
    if t.len() == 0 {
        true
    } else if t[0] == ESCAPE_CHAR {
        t.len() >= 2 && is_special(t[1]) && escape_pairs_only(t.skip(2))
    } else {
        !is_special(t[0]) && escape_pairs_only(t.skip(1))
    }
}

/// Two well-escaped regions concatenate to a well-escaped region.
proof fn lemma_pairs_only_concat(x: Seq<u8>, y: Seq<u8>)
    requires
        escape_pairs_only(x),
        escape_pairs_only(y),
    ensures
        escape_pairs_only(x + y),
    decreases x.len(),
{
    let u = x + y;
    if x.len() == 0 {
        assert(u =~= y);
    } else if x[0] == ESCAPE_CHAR {
        assert(u[0] == ESCAPE_CHAR && u[1] == x[1]);
        lemma_pairs_only_concat(x.skip(2), y);
        assert(x.skip(2) + y =~= u.skip(2));
    } else {
        assert(u[0] == x[0]);
        lemma_pairs_only_concat(x.skip(1), y);
        assert(x.skip(1) + y =~= u.skip(1));
    }
}

/// The escape transform emits only escape pairs and plain non-marker bytes.
pub proof fn lemma_escape_pairs_only(s: Seq<u8>)
    ensures
        escape_pairs_only(spec_escape(s)),
    decreases s.len(),
{
    if s.len() == 0 {
    } else {
        let unit = if is_special(s.last()) {
            seq![ESCAPE_CHAR, s.last()]
        } else {
            seq![s.last()]
        };
        lemma_escape_pairs_only(s.drop_last());
        assert(escape_pairs_only(unit)) by {
            assert(escape_pairs_only(Seq::<u8>::empty()));
            if is_special(s.last()) {
                assert(unit.skip(2) =~= Seq::<u8>::empty());
            } else {
                assert(unit.skip(1) =~= Seq::<u8>::empty());
            }
        }
        lemma_pairs_only_concat(spec_escape(s.drop_last()), unit);
    }
}

/// The escaped region of every encoded frame — everything between the two
/// markers — consists solely of escape pairs and plain non-marker bytes, so
/// neither marker ever occurs bare inside a frame.
pub proof fn lemma_encoded_frame_escaped_region(m: MessageView)
    ensures
        spec_encode(m) == seq![MESSAGE_START] + spec_escape(
            spec_body(m) + seq![spec_checksum(spec_body(m))],
        ) + seq![MESSAGE_END],
        escape_pairs_only(spec_escape(spec_body(m) + seq![spec_checksum(spec_body(m))])),
{
    lemma_escape_pairs_only(spec_body(m) + seq![spec_checksum(spec_body(m))]);
}

/// Decoding a command inverts encoding it, for every command value.
pub proof fn lemma_command_round_trip(c: CommandView)
    ensures
        spec_deserialize_command(spec_serialize_command(c)) == Ok::<
            CommandView,
            DeserializeError,
        >(c),
{
    let s = spec_serialize_command(c);
    match c {
        CommandView::NcAsmSetParam(p) => {
            assert(s.skip(1) =~= p.spec_serialize());
            assert(NcAsmSetParam::spec_deserialize(p.spec_serialize()) == Ok::<
                NcAsmSetParam,
                DeserializeError,
            >(p)) by {
                lemma_set_param_round_trip(p);
            }
        },
        CommandView::NcAsmNtfyParam(p) => {
            assert(s.skip(1) =~= p.spec_serialize());
            assert(NcAsmNtfyParam::spec_deserialize(p.spec_serialize()) == Ok::<
                NcAsmNtfyParam,
                DeserializeError,
            >(p)) by {
                lemma_ntfy_param_round_trip(p);
            }
        },
        CommandView::Unknown(bytes) => {
            assert(s[0] == CommandType::Unknown.spec_code());
            assert(s.skip(1) =~= bytes);
        },
    }
}

/// Decoding a set-parameter block inverts encoding it.
pub proof fn lemma_set_param_round_trip(p: NcAsmSetParam)
    ensures
        NcAsmSetParam::spec_deserialize(p.spec_serialize()) == Ok::<
            NcAsmSetParam,
            DeserializeError,
        >(p),
{
}

/// Decoding a notify-parameter block inverts encoding it.
pub proof fn lemma_ntfy_param_round_trip(p: NcAsmNtfyParam)
    ensures
        NcAsmNtfyParam::spec_deserialize(p.spec_serialize()) == Ok::<
            NcAsmNtfyParam,
            DeserializeError,
        >(p),
{
}

/// The de-escaped image of a message's frame: start marker, body, checksum,
/// end marker. Unescaping the encoded frame yields exactly this.
pub open spec fn spec_frame_image(m: MessageView) -> Seq<u8> {
    seq![MESSAGE_START] + spec_body(m) + seq![spec_checksum(spec_body(m))] + seq![MESSAGE_END]
}

/// Unescaping an encoded frame yields its de-escaped image.
pub proof fn lemma_decode_unescapes(m: MessageView)
    ensures
        spec_unescape(spec_encode(m)) == Ok::<Seq<u8>, DeserializeError>(spec_frame_image(m)),
{
    let body2 = spec_body(m) + seq![spec_checksum(spec_body(m))];
    let esc = spec_escape(body2);
    lemma_unescape_escape(body2);
    assert(spec_unescape(seq![MESSAGE_END]) == Ok::<Seq<u8>, DeserializeError>(
        seq![MESSAGE_END],
    )) by {
        lemma_unescape_from_skip(seq![MESSAGE_END], 1);
        assert(seq![MESSAGE_END].skip(1) =~= Seq::<u8>::empty());
        assert(seq![MESSAGE_END] + Seq::<u8>::empty() =~= seq![MESSAGE_END]);
    }
    lemma_unescape_concat(esc, seq![MESSAGE_END]);
    assert(spec_unescape(esc + seq![MESSAGE_END]) == Ok::<Seq<u8>, DeserializeError>(
        body2 + seq![MESSAGE_END],
    ));
    // prepend the start marker, itself a one-byte cleanly-unescaping buffer
    assert(spec_unescape(seq![MESSAGE_START]) == Ok::<Seq<u8>, DeserializeError>(
        seq![MESSAGE_START],
    )) by {
        lemma_unescape_from_skip(seq![MESSAGE_START], 1);
        assert(seq![MESSAGE_START].skip(1) =~= Seq::<u8>::empty());
        assert(seq![MESSAGE_START] + Seq::<u8>::empty() =~= seq![MESSAGE_START]);
    }
    lemma_unescape_concat(seq![MESSAGE_START], esc + seq![MESSAGE_END]);
    assert(seq![MESSAGE_START] + (esc + seq![MESSAGE_END]) =~= spec_encode(m));
    assert(seq![MESSAGE_START] + (body2 + seq![MESSAGE_END]) =~= spec_frame_image(m));
}

/// Parsing the de-escaped image of a representable message yields the message.
pub proof fn lemma_parse_frame_image(m: MessageView)
    requires
        m.representable(),
    ensures
        spec_parse(spec_frame_image(m)) == Ok::<MessageView, DeserializeError>(m),
{
    let payload = m.data.spec_payload();
    let len = payload.len() as int;
    let body = spec_body(m);
    let chk = spec_checksum(body);
    let u = spec_frame_image(m);
    assert(body.len() == 6 + len);
    assert(u.len() == 9 + len);
    assert(u[0] == MESSAGE_START);
    assert(u.subrange(3, 7) =~= spec_be32(payload.len() as u32));
    lemma_be32_round_trip(payload.len() as u32);
    let n = spec_be32_value(u.subrange(3, 7)) as int;
    assert(n == len);
    assert(u.subrange(1, 7 + n) =~= body);
    assert(u[7 + n] == chk);
    assert(u[8 + n] == MESSAGE_END);
    assert(u[1] == m.data.spec_data_type().spec_code());
    assert(u[2] == m.sequence_number);
    assert(u.subrange(7, 7 + n) =~= payload);
    match m.data {
        DataView::Ack => {
            assert(payload =~= Seq::<u8>::empty());
        },
        DataView::DataMdr(c) => {
            lemma_command_round_trip(c);
        },
        DataView::Unknown(bytes) => {
        },
    }
    assert(spec_parse(u)->Ok_0 =~= m);
}

/// Round trip: decoding an encoded frame yields the message it was encoded
/// from, for every representable message value.
pub proof fn lemma_round_trip(m: MessageView)
    requires
        m.representable(),
    ensures
        spec_decode(spec_encode(m)) == Ok::<MessageView, DeserializeError>(m),
{
    lemma_decode_unescapes(m);
    lemma_parse_frame_image(m);
}

/// The de-escaped image of a frame built from raw header fields: start
/// marker, type byte, sequence number, big-endian payload length, payload,
/// checksum, end marker.
pub open spec fn spec_raw_frame(t: u8, seqno: u8, payload: Seq<u8>) -> Seq<u8> {
    let body = seq![t, seqno] + spec_be32(payload.len() as u32) + payload;
    seq![MESSAGE_START] + body + seq![spec_checksum(body)] + seq![MESSAGE_END]
}

/// Parsing a well-formed frame image reduces to decoding its payload: the
/// header fields come through unchanged, whatever the type byte.
pub proof fn lemma_parse_raw_frame(t: u8, seqno: u8, payload: Seq<u8>)
    requires
        payload.len() <= 0xFFFFFFFF,
    ensures
        spec_parse(spec_raw_frame(t, seqno, payload)) == (match spec_decode_payload(t, payload) {
            Ok(d) => Ok::<MessageView, DeserializeError>(
                MessageView { sequence_number: seqno, data: d },
            ),
            Err(e) => Err::<MessageView, DeserializeError>(e),
        }),
{
    let len = payload.len() as int;
    let body = seq![t, seqno] + spec_be32(payload.len() as u32) + payload;
    let chk = spec_checksum(body);
    let u = spec_raw_frame(t, seqno, payload);
    assert(body.len() == 6 + len);
    assert(u.len() == 9 + len);
    assert(u[0] == MESSAGE_START);
    assert(u.subrange(3, 7) =~= spec_be32(payload.len() as u32));
    lemma_be32_round_trip(payload.len() as u32);
    let n = spec_be32_value(u.subrange(3, 7)) as int;
    assert(n == len);
    assert(u.subrange(1, 7 + n) =~= body);
    assert(u[7 + n] == chk);
    assert(u[8 + n] == MESSAGE_END);
    assert(u[1] == t);
    assert(u[2] == seqno);
    assert(u.subrange(7, 7 + n) =~= payload);
}

/// Unknown-discriminant tolerance: a frame whose type byte names no known
/// payload kind parses successfully into the catch-all variant carrying the
/// payload bytes untouched.
pub proof fn lemma_unknown_discriminant_tolerance(t: u8, seqno: u8, payload: Seq<u8>)
    requires
        t != 1,
        t != 12,
        payload.len() <= 0xFFFFFFFF,
    ensures
        spec_parse(spec_raw_frame(t, seqno, payload)) == Ok::<MessageView, DeserializeError>(
            MessageView { sequence_number: seqno, data: DataView::Unknown(payload) },
        ),
{
    lemma_parse_raw_frame(t, seqno, payload);
}

/// Two equal-length byte sequences differing in exactly one byte have sums
/// that differ by less than 256 in absolute value, and by a nonzero amount.
proof fn lemma_sum_single_change(b1: Seq<u8>, b2: Seq<u8>, i: int)
    requires
        b1.len() == b2.len(),
        0 <= i < b1.len(),
        forall|j: int| 0 <= j < b1.len() && j != i ==> b1[j] == b2[j],
    ensures
        sum_bytes(b2) + b1[i] == sum_bytes(b1) + b2[i],
    decreases b1.len(),
{
    if i == b1.len() - 1 {
        assert(b1.drop_last() =~= b2.drop_last());
    } else {
        lemma_sum_single_change(b1.drop_last(), b2.drop_last(), i);
    }
}

/// Checksum sensitivity, byte level: changing exactly one byte of a sequence
/// changes its checksum.
pub proof fn lemma_checksum_byte_change(b1: Seq<u8>, b2: Seq<u8>, i: int)
    requires
        b1.len() == b2.len(),
        0 <= i < b1.len(),
        forall|j: int| 0 <= j < b1.len() && j != i ==> b1[j] == b2[j],
        b1[i] != b2[i],
    ensures
        spec_checksum(b1) != spec_checksum(b2),
{
    lemma_sum_single_change(b1, b2, i);
    let s1 = sum_bytes(b1) as int;
    let s2 = sum_bytes(b2) as int;
    let d = b2[i] - b1[i];
    assert(s2 == s1 + d);
    assert(-256 < d < 256 && d != 0);
    if spec_checksum(b1) == spec_checksum(b2) {
        assert(s1 % 256 == s2 % 256);
        vstd::arithmetic::div_mod::lemma_sub_mod_noop(s2, s1, 256);
        assert((s2 - s1) % 256 == (s2 % 256 - s1 % 256) % 256);
        vstd::arithmetic::div_mod::lemma_mod_self_0(256);
        assert(d % 256 == 0);
        vstd::arithmetic::div_mod::lemma_fundamental_div_mod(d, 256);
        let q = d / 256;
        assert(d == 256 * q);
        assert(q >= 0 ==> d >= 0);
        assert(q <= -1 ==> d <= -256);
        assert(false);
    }
}

/// Checksum sensitivity, frame level: changing any single byte in the
/// checksum-covered region of a valid frame's de-escaped image — outside the
/// length field — makes the parse fail with a checksum error. A single bit
/// flip is such a change.
pub proof fn lemma_checksum_sensitivity(m: MessageView, i: int, v: u8)
    requires
        m.representable(),
        1 <= i < 3 || 7 <= i < 7 + m.data.spec_payload().len(),
        v != spec_frame_image(m)[i],
    ensures
        spec_parse(spec_frame_image(m).update(i, v)) == Err::<MessageView, DeserializeError>(
            DeserializeError::InvalidChecksum(spec_checksum(spec_body(m))),
        ),
{
    let payload = m.data.spec_payload();
    let len = payload.len() as int;
    let body = spec_body(m);
    let chk = spec_checksum(body);
    let u = spec_frame_image(m);
    let w = u.update(i, v);
    assert(body.len() == 6 + len);
    assert(u.len() == 9 + len);
    assert(w.len() == u.len());
    assert(w[0] == u[0]);
    assert(u[0] == MESSAGE_START);
    assert(w.subrange(3, 7) =~= u.subrange(3, 7));
    assert(u.subrange(3, 7) =~= spec_be32(payload.len() as u32));
    lemma_be32_round_trip(payload.len() as u32);
    let n = spec_be32_value(w.subrange(3, 7)) as int;
    assert(n == len);
    assert(w[7 + n] == u[7 + n]);
    assert(u[7 + n] == chk);
    assert(u.subrange(1, 7 + n) =~= body);
    assert(w.subrange(1, 7 + n) =~= body.update(i - 1, v));
    lemma_checksum_byte_change(body, body.update(i - 1, v), i - 1);
    assert(spec_checksum(w.subrange(1, 7 + n)) != chk);
}

} // verus!
