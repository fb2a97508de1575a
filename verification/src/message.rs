//! The message codec: framing, escaping and checksumming of typed messages.
//!
//! Wire layout of one frame:
//!
//! ```text
//! MESSAGE_START
//! escape_specials(
//!     u8:      data type
//!     u8:      sequence number
//!     u32 be:  payload length (bytes before escaping)
//!     [u8; _]: payload
//!     u8:      checksum (wrapping 8-bit sum, excluding MESSAGE_START)
//! )
//! MESSAGE_END
//! ```
//!
//! The escape transform is applied to the whole region between the markers and
//! undone over the same region on decode, so the markers never occur bare
//! inside a frame; the length counts payload bytes before escaping, which is
//! what the positional parse after unescaping needs. Both choices make decode
//! invert encode for every representable message.

pub mod ack;
pub mod data_mdr;
pub mod laws;

use vstd::prelude::*;
use vstd::slice::{slice_index_get, slice_subrange, slice_to_vec};

use crate::serializable::{DeserializeError, Serializable};

verus! {

/// First byte of every frame.
pub const MESSAGE_START: u8 = 62;

/// Last byte of every frame.
pub const MESSAGE_END: u8 = 60;

/// Byte that escapes a marker-valued byte inside the frame body.
pub const ESCAPE_CHAR: u8 = 61;

/// The byte values that cannot stand bare inside a frame body.
pub open spec fn is_special(b: u8) -> bool {
    b == MESSAGE_START || b == MESSAGE_END || b == ESCAPE_CHAR
}

/// Sum of a byte sequence, as an unbounded natural number.
pub open spec fn sum_bytes(s: Seq<u8>) -> nat
    decreases s.len(),
{
    if s.len() == 0 {
        0
    } else {
        sum_bytes(s.drop_last()) + s.last() as nat
    }
}

/// The checksum of a byte sequence: its sum, wrapped to 8 bits.
pub open spec fn spec_checksum(s: Seq<u8>) -> u8 {
    (sum_bytes(s) % 256) as u8
}

/// The escape transform: every marker-valued byte gains an escape-marker
/// prefix; every other byte is passed through unchanged.
pub open spec fn spec_escape(s: Seq<u8>) -> Seq<u8>
    decreases s.len(),
{
    if s.len() == 0 {
        Seq::empty()
    } else {
        spec_escape(s.drop_last()) + (if is_special(s.last()) {
            seq![ESCAPE_CHAR, s.last()]
        } else {
            seq![s.last()]
        })
    }
}

/// The inverse transform from position `i` on: a byte following an escape
/// marker is taken literally if it is an escapable value, any other escaped
/// byte is an error, and a trailing escape marker is an error.
pub open spec fn spec_unescape_from(s: Seq<u8>, i: int) -> Result<Seq<u8>, DeserializeError>
    decreases s.len() - i,
{
    if i < 0 || i >= s.len() {
        Ok(Seq::empty())
    } else if s[i] == ESCAPE_CHAR {
        if i + 1 >= s.len() {
            Err(DeserializeError::EscapeTruncated)
        } else if is_special(s[i + 1]) {
            match spec_unescape_from(s, i + 2) {
                Ok(rest) => Ok(seq![s[i + 1]] + rest),
                Err(e) => Err(e),
            }
        } else {
            Err(DeserializeError::InvalidEscape(s[i + 1]))
        }
    } else {
        match spec_unescape_from(s, i + 1) {
            Ok(rest) => Ok(seq![s[i]] + rest),
            Err(e) => Err(e),
        }
    }
}

/// The inverse of the escape transform over a whole buffer.
pub open spec fn spec_unescape(s: Seq<u8>) -> Result<Seq<u8>, DeserializeError> {
    spec_unescape_from(s, 0)
}

/// How an already-unescaped prefix combines with the result for the remaining
/// input: an error anywhere in the remainder is the result for the whole.
pub open spec fn spec_unescape_compose(
    done: Seq<u8>,
    rest: Result<Seq<u8>, DeserializeError>,
) -> Result<Seq<u8>, DeserializeError> {
    match rest {
        Ok(r) => Ok(done + r),
        Err(e) => Err(e),
    }
}

/// Wrapping 8-bit sum of a byte slice (the frame checksum).
pub fn checksum(s: &[u8]) -> (r: u8)
    ensures
        r == spec_checksum(s@),
{
    let r = checksum_range(s, 0, s.len());
    proof {
        assert(s@.subrange(0, s@.len() as int) =~= s@);
    }
    r
}

/// Wrapping 8-bit sum of `s[from..to]`.
pub fn checksum_range(s: &[u8], from: usize, to: usize) -> (r: u8)
    requires
        from <= to <= s@.len(),
    ensures
        r == spec_checksum(s@.subrange(from as int, to as int)),
{
    let mut acc: u8 = 0;
    let mut i: usize = from;
    while i < to
        invariant
            from <= i <= to <= s@.len(),
            acc == spec_checksum(s@.subrange(from as int, i as int)),
        decreases to - i,
    {
        proof {
            let pre = s@.subrange(from as int, i as int);
            let post = s@.subrange(from as int, i + 1);
            assert(post.drop_last() =~= pre);
            assert(sum_bytes(post) == sum_bytes(pre) + s@[i as int]);
            vstd::arithmetic::div_mod::lemma_add_mod_noop(
                sum_bytes(pre) as int,
                s@[i as int] as int,
                256,
            );
        }
        acc = acc.wrapping_add(*slice_index_get(s, i));
        i = i + 1;
    }
    acc
}

/// Escape every marker-valued byte of `s`.
pub fn escape_specials(s: &[u8]) -> (r: Vec<u8>)
    ensures
        r@ == spec_escape(s@),
{
    let mut out: Vec<u8> = Vec::new();
    let mut i: usize = 0;
    while i < s.len()
        invariant
            i <= s@.len(),
            out@ == spec_escape(s@.subrange(0, i as int)),
        decreases s@.len() - i,
    {
        proof {
            assert(s@.subrange(0, i + 1).drop_last() =~= s@.subrange(0, i as int));
        }
        let b = *slice_index_get(s, i);
        if b == MESSAGE_START || b == MESSAGE_END || b == ESCAPE_CHAR {
            out.push(ESCAPE_CHAR);
        }
        out.push(b);
        i = i + 1;
        proof {
            assert(out@ =~= spec_escape(s@.subrange(0, i as int)));
        }
    }
    proof {
        assert(s@.subrange(0, s@.len() as int) =~= s@);
    }
    out
}

/// Undo the escape transform over the whole buffer.
pub fn unescape_specials(s: &[u8]) -> (r: Result<Vec<u8>, DeserializeError>)
    ensures
        match r {
            Ok(v) => spec_unescape(s@) == Ok::<Seq<u8>, DeserializeError>(v@),
            Err(e) => spec_unescape(s@) == Err::<Seq<u8>, DeserializeError>(e),
        },
{
    let mut out: Vec<u8> = Vec::new();
    let mut i: usize = 0;
    while i < s.len()
        invariant
            i <= s@.len(),
            spec_unescape_compose(out@, spec_unescape_from(s@, i as int)) == spec_unescape(s@),
        decreases s@.len() - i,
    {
        let ghost old_out = out@;
        let ghost old_i = i as int;
        let b = *slice_index_get(s, i);
        if b == ESCAPE_CHAR {
            if i + 1 >= s.len() {
                return Err(DeserializeError::EscapeTruncated);
            }
            let e = *slice_index_get(s, i + 1);
            if e == MESSAGE_START || e == MESSAGE_END || e == ESCAPE_CHAR {
                out.push(e);
                i = i + 2;
                proof {
                    assert(out@ =~= old_out + seq![e]);
                    let rest = spec_unescape_from(s@, old_i + 2);
                    assert(spec_unescape_from(s@, old_i) == (match rest {
                        Ok(r) => Ok::<Seq<u8>, DeserializeError>(seq![e] + r),
                        Err(err) => Err(err),
                    }));
                    if rest is Ok {
                        assert(old_out + (seq![e] + rest->Ok_0) =~= (old_out + seq![e])
                            + rest->Ok_0);
                    }
                }
            } else {
                return Err(DeserializeError::InvalidEscape(e));
            }
        } else {
            out.push(b);
            i = i + 1;
            proof {
                assert(out@ =~= old_out + seq![b]);
                let rest = spec_unescape_from(s@, old_i + 1);
                assert(spec_unescape_from(s@, old_i) == (match rest {
                    Ok(r) => Ok::<Seq<u8>, DeserializeError>(seq![b] + r),
                    Err(err) => Err(err),
                }));
                if rest is Ok {
                    assert(old_out + (seq![b] + rest->Ok_0) =~= (old_out + seq![b]) + rest->Ok_0);
                }
            }
        }
    }
    proof {
        assert(out@ + Seq::<u8>::empty() =~= out@);
    }
    Ok(out)
}

/// Frame-level payload kinds.
#[derive(Clone, Copy, Debug, PartialEq, Eq, Structural)]
pub enum DataType {
    Ack,
    DataMdr,
    Unknown,
}

impl DataType {
    /// The type byte of this payload kind. Payloads of an unrecognized kind
    /// are re-encoded under a reserved placeholder type that no known kind
    /// uses.
    pub open spec fn spec_code(self) -> u8 {
        match self {
            DataType::Ack => 1,
            DataType::DataMdr => 12,
            DataType::Unknown => 13,
        }
    }

    /// The payload kind a type byte names; total, unknown bytes map to
    /// `Unknown`.
    pub open spec fn spec_from_code(b: u8) -> DataType {
        if b == 1 {
            DataType::Ack
        } else if b == 12 {
            DataType::DataMdr
        } else {
            DataType::Unknown
        }
    }

    pub fn code(self) -> (b: u8)
        ensures
            b == self.spec_code(),
    {
        match self {
            DataType::Ack => 1,
            DataType::DataMdr => 12,
            DataType::Unknown => 13,
        }
    }

    pub fn from_code(b: u8) -> (r: DataType)
        ensures
            r == Self::spec_from_code(b),
    {
        match b {
            1 => DataType::Ack,
            12 => DataType::DataMdr,
            _ => DataType::Unknown,
        }
    }
}

/// The typed payload of a message: an acknowledgment, a device command, or
/// the raw bytes of a payload kind this library does not know.
#[derive(Debug, PartialEq, Eq)]
pub enum Data {
    Ack(ack::Ack),
    DataMdr(data_mdr::DataMdr),
    Unknown(Vec<u8>),
}

/// The mathematical image of a [`Data`]: unknown bytes as a sequence.
#[verifier::ext_equal]
pub enum DataView {
    Ack,
    DataMdr(data_mdr::CommandView),
    Unknown(Seq<u8>),
}

impl View for Data {
    type V = DataView;

    open spec fn view(&self) -> DataView {
        match self {
            Data::Ack(_) => DataView::Ack,
            Data::DataMdr(m) => DataView::DataMdr(m@),
            Data::Unknown(bytes) => DataView::Unknown(bytes@),
        }
    }
}

impl DataView {
    /// The kind of this payload.
    pub open spec fn spec_data_type(self) -> DataType {
        match self {
            DataView::Ack => DataType::Ack,
            DataView::DataMdr(_) => DataType::DataMdr,
            DataView::Unknown(_) => DataType::Unknown,
        }
    }

    /// The wire bytes of this payload, before escaping.
    pub open spec fn spec_payload(self) -> Seq<u8> {
        match self {
            DataView::Ack => Seq::empty(),
            DataView::DataMdr(c) => data_mdr::spec_serialize_command(c),
            DataView::Unknown(bytes) => bytes,
        }
    }
}

/// Decode of a payload from its type byte and its raw bytes: dispatch on the
/// kind; an unknown kind yields the catch-all holding the bytes unmodified.
pub open spec fn spec_decode_payload(t: u8, p: Seq<u8>) -> Result<DataView, DeserializeError> {
    match DataType::spec_from_code(t) {
        DataType::Ack => match ack::Ack::spec_deserialize(p) {
            Ok(_) => Ok(DataView::Ack),
            Err(e) => Err(e),
        },
        DataType::DataMdr => match data_mdr::spec_deserialize_command(p) {
            Ok(c) => Ok(DataView::DataMdr(c)),
            Err(e) => Err(e),
        },
        DataType::Unknown => Ok(DataView::Unknown(p)),
    }
}

impl Data {
    /// The kind of this payload.
    pub fn data_type(&self) -> (t: DataType)
        ensures
            t == self@.spec_data_type(),
    {
        match self {
            Data::Ack(_) => DataType::Ack,
            Data::DataMdr(_) => DataType::DataMdr,
            Data::Unknown(_) => DataType::Unknown,
        }
    }
}

/// A typed, de-escaped message: what one frame carries.
#[derive(Debug, PartialEq, Eq)]
pub struct Message {
    pub sequence_number: u8,
    pub data: Data,
}

/// The mathematical image of a [`Message`].
#[verifier::ext_equal]
pub struct MessageView {
    pub sequence_number: u8,
    pub data: DataView,
}

impl View for Message {
    type V = MessageView;

    open spec fn view(&self) -> MessageView {
        MessageView { sequence_number: self.sequence_number, data: self.data@ }
    }
}

impl MessageView {
    /// Whether this message fits in a frame: its payload length must fit the
    /// 4-byte length field.
    pub open spec fn representable(self) -> bool {
        self.data.spec_payload().len() <= 0xFFFFFFFF
    }
}

/// The 4-byte big-endian image of a 32-bit length.
pub open spec fn spec_be32(n: u32) -> Seq<u8> {
    seq![
        ((n >> 24) & 0xff) as u8,
        ((n >> 16) & 0xff) as u8,
        ((n >> 8) & 0xff) as u8,
        (n & 0xff) as u8,
    ]
}

/// The 32-bit value of a 4-byte big-endian field.
pub open spec fn spec_be32_value(s: Seq<u8>) -> u32
    recommends
        s.len() == 4,
{
    ((s[0] as u32) << 24) | ((s[1] as u32) << 16) | ((s[2] as u32) << 8) | (s[3] as u32)
}

/// A 4-byte big-endian field reads back as the value it was written from.
pub proof fn lemma_be32_round_trip(n: u32)
    ensures
        spec_be32_value(spec_be32(n)) == n,
{
    assert((((((n >> 24) & 0xff) as u8) as u32) << 24) | (((((n >> 16) & 0xff) as u8) as u32)
        << 16) | (((((n >> 8) & 0xff) as u8) as u32) << 8) | (((n & 0xff) as u8) as u32) == n)
        by (bit_vector);
}

/// The frame body of a message, before escaping and without its checksum:
/// type byte, sequence number, big-endian payload length, payload.
pub open spec fn spec_body(m: MessageView) -> Seq<u8> {
    let payload = m.data.spec_payload();
    seq![m.data.spec_data_type().spec_code(), m.sequence_number] + spec_be32(payload.len() as u32)
        + payload
}

/// The full frame of a message: start marker, the escaped image of body plus
/// checksum, end marker.
pub open spec fn spec_encode(m: MessageView) -> Seq<u8> {
    let body = spec_body(m) + seq![spec_checksum(spec_body(m))];
    seq![MESSAGE_START] + spec_escape(body) + seq![MESSAGE_END]
}

/// The positional parse of an already-unescaped frame, start marker through
/// end marker. The checksum is verified before the payload is decoded, so a
/// corrupted frame fails with a checksum error even where the corruption also
/// falls inside the payload. Bytes after the end marker position are ignored.
pub open spec fn spec_parse(b: Seq<u8>) -> Result<MessageView, DeserializeError> {
    if b.len() < 9 {
        Err(DeserializeError::TooShort)
    } else if b[0] != MESSAGE_START {
        Err(DeserializeError::InvalidStart(b[0]))
    } else {
        let n = spec_be32_value(b.subrange(3, 7)) as int;
        if b.len() < 9 + n {
            Err(DeserializeError::TooShort)
        } else if b[7 + n] != spec_checksum(b.subrange(1, 7 + n)) {
            Err(DeserializeError::InvalidChecksum(b[7 + n]))
        } else if b[8 + n] != MESSAGE_END {
            Err(DeserializeError::InvalidEnd(b[8 + n]))
        } else {
            match spec_decode_payload(b[1], b.subrange(7, 7 + n)) {
                Ok(d) => Ok(MessageView { sequence_number: b[2], data: d }),
                Err(e) => Err(e),
            }
        }
    }
}

/// The decode of a candidate frame: undo the escaping over the whole buffer,
/// then parse positionally.
pub open spec fn spec_decode(s: Seq<u8>) -> Result<MessageView, DeserializeError> {
    match spec_unescape(s) {
        Ok(b) => spec_parse(b),
        Err(e) => Err(e),
    }
}

impl Message {
    /// Whether this message's payload is a command that the device expects an
    /// acknowledgment for.
    pub fn requires_ack(&self) -> (r: bool)
        ensures
            r == (self@.data is DataMdr),
    {
        match self.data.data_type() {
            DataType::DataMdr => true,
            _ => false,
        }
    }

    /// Whether this message can be encoded: its payload must fit the frame's
    /// 4-byte length field.
    pub fn encodable(&self) -> (r: bool)
        ensures
            r == self@.representable(),
    {
        match &self.data {
            Data::Ack(_) => true,
            Data::DataMdr(m) => match &m.command {
                data_mdr::Command::NcAsmSetParam(_) => true,
                data_mdr::Command::NcAsmNtfyParam(_) => true,
                data_mdr::Command::Unknown(bytes) => bytes.len() <= (u32::MAX - 1) as usize,
            },
            Data::Unknown(bytes) => bytes.len() <= u32::MAX as usize,
        }
    }

    /// Encode this message as one frame.
    pub fn serialize(&self) -> (r: Vec<u8>)
        requires
            self@.representable(),
        ensures
            r@ == spec_encode(self@),
    {
        let mut payload: Vec<u8> = match &self.data {
            Data::Ack(a) => a.serialize(),
            Data::DataMdr(m) => m.serialize(),
            Data::Unknown(bytes) => slice_to_vec(bytes.as_slice()),
        };
        let len32 = payload.len() as u32;
        let mut body: Vec<u8> = Vec::new();
        body.push(self.data.data_type().code());
        body.push(self.sequence_number);
        body.push(((len32 >> 24) & 0xff) as u8);
        body.push(((len32 >> 16) & 0xff) as u8);
        body.push(((len32 >> 8) & 0xff) as u8);
        body.push((len32 & 0xff) as u8);
        body.append(&mut payload);
        proof {
            assert(body@ =~= spec_body(self@));
        }
        let chk = checksum(body.as_slice());
        body.push(chk);
        proof {
            assert(body@ =~= spec_body(self@) + seq![spec_checksum(spec_body(self@))]);
        }
        let mut escaped = escape_specials(body.as_slice());
        let mut out: Vec<u8> = Vec::new();
        out.push(MESSAGE_START);
        out.append(&mut escaped);
        out.push(MESSAGE_END);
        proof {
            assert(out@ =~= spec_encode(self@));
        }
        out
    }

    /// Decode one candidate frame, start marker through end marker inclusive.
    /// Total: every failure is a typed error for this one frame.
    pub fn deserialize(bytes: &[u8]) -> (r: Result<Message, DeserializeError>)
        ensures
            match r {
                Ok(m) => spec_decode(bytes@) == Ok::<MessageView, DeserializeError>(m@),
                Err(e) => spec_decode(bytes@) == Err::<MessageView, DeserializeError>(e),
            },
    {
        let unescaped = match unescape_specials(bytes) {
            Ok(v) => v,
            Err(e) => {
                return Err(e);
            },
        };
        let b = unescaped.as_slice();
        if b.len() < 9 {
            return Err(DeserializeError::TooShort);
        }
        let first = *slice_index_get(b, 0);
        if first != MESSAGE_START {
            return Err(DeserializeError::InvalidStart(first));
        }
        let n32 = u32_from_be_bytes(
            *slice_index_get(b, 3),
            *slice_index_get(b, 4),
            *slice_index_get(b, 5),
            *slice_index_get(b, 6),
        );
        proof {
            assert(seq![b@[3], b@[4], b@[5], b@[6]] =~= b@.subrange(3, 7));
        }
        let n = n32 as usize;
        if b.len() - 9 < n {
            return Err(DeserializeError::TooShort);
        }
        let chk = *slice_index_get(b, 7 + n);
        let computed = checksum_range(b, 1, 7 + n);
        if chk != computed {
            return Err(DeserializeError::InvalidChecksum(chk));
        }
        let last = *slice_index_get(b, 8 + n);
        if last != MESSAGE_END {
            return Err(DeserializeError::InvalidEnd(last));
        }
        let payload = slice_subrange(b, 7, 7 + n);
        let t = *slice_index_get(b, 1);
        let sequence_number = *slice_index_get(b, 2);
        let data = match DataType::from_code(t) {
            DataType::Ack => match ack::Ack::deserialize(payload) {
                Ok(a) => Data::Ack(a),
                Err(e) => {
                    return Err(e);
                },
            },
            DataType::DataMdr => match data_mdr::DataMdr::deserialize(payload) {
                Ok(m) => Data::DataMdr(m),
                Err(e) => {
                    return Err(e);
                },
            },
            DataType::Unknown => Data::Unknown(slice_to_vec(payload)),
        };
        Ok(Message { sequence_number, data })
    }
}

impl Serializable for Message {
    open spec fn serializable(&self) -> bool {
        self@.representable()
    }

    fn serialize(&self) -> Vec<u8> {
        Message::serialize(self)
    }

    fn deserialize(bytes: &[u8]) -> Result<Self, DeserializeError> {
        Message::deserialize(bytes)
    }
}

/// Reads a 4-byte big-endian field.
pub fn u32_from_be_bytes(b0: u8, b1: u8, b2: u8, b3: u8) -> (n: u32)
    ensures
        n == spec_be32_value(seq![b0, b1, b2, b3]),
{
    ((b0 as u32) << 24) | ((b1 as u32) << 16) | ((b2 as u32) << 8) | (b3 as u32)
}

} // verus!
