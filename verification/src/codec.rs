//! Wire codec for the fixed-size framed chat protocol.
//!
//! Every frame on the wire is exactly 1024 bytes: a 3-byte header (one type
//! byte, a little-endian 16-bit payload length) followed by a 1021-byte
//! payload region that is zero-padded past the meaningful length.

use vstd::prelude::*;
use byteorder::{ByteOrder, LittleEndian};

verus! {

pub const SERVER_ECHO: u8 = 0x05;
pub const SERVER_ACK: u8 = 0x06;
pub const SERVER_INFO: u8 = 0x07;
pub const CLIENT_CHAT: u8 = 0x13;
pub const CLIENT_INFO: u8 = 0x14;

/// Advisory protocol version; never written into a frame.
pub const PROTOCOL_VERSION: u8 = 0x01;

/// type (1 byte) + length (2 bytes)
pub const MESSAGE_HEADER_SIZE: usize = 3;
/// fixed size of the payload region
pub const MESSAGE_DATA_SIZE: usize = 1021;
/// every encoded frame is exactly this long
pub const MESSAGE_TOTAL_SIZE: usize = MESSAGE_HEADER_SIZE + MESSAGE_DATA_SIZE;

/// The server-originated message tags; a worker counts a response only for
/// these.
pub open spec fn is_server_type(t: u8) -> bool {
    t == SERVER_ECHO || t == SERVER_ACK || t == SERVER_INFO
}

/// The value of two bytes read as a little-endian unsigned 16-bit integer.
pub open spec fn le16(lo: u8, hi: u8) -> u16 {
    (lo + 256 * hi) as u16
}

/// How many payload bytes an encoder copies from an input of length `n`:
/// everything, capped at the fixed payload size.
pub open spec fn capped_payload_len(n: int) -> int {
    if n < MESSAGE_DATA_SIZE as int {
        n
    } else {
        MESSAGE_DATA_SIZE as int
    }
}

/// A length field as the decoder accepts it: clamped to the payload size.
pub open spec fn clamped_length(raw: u16) -> u16 {
    if raw > MESSAGE_DATA_SIZE as u16 {
        MESSAGE_DATA_SIZE as u16
    } else {
        raw
    }
}

/// Decoding a buffer of at least 3 bytes never fails; this variant covers
/// the only failing case.
#[derive(Clone, Copy, Debug, PartialEq, Eq, Structural)]
pub enum DecodeError {
    TruncatedHeader,
}

/// The message type a decoder reads from a buffer of at least 3 bytes.
pub open spec fn decoded_type(bytes: Seq<u8>) -> u8 {
    bytes[0]
}

/// The length a decoder reads from a buffer of at least 3 bytes.
pub open spec fn decoded_length(bytes: Seq<u8>) -> u16 {
    clamped_length(le16(bytes[1], bytes[2]))
}

/// The payload region a decoder fills from a buffer of at least 3 bytes:
/// the bytes present after the header, zero-filled to the fixed size.
pub open spec fn decoded_payload(bytes: Seq<u8>) -> Seq<u8> {
    Seq::new(
        MESSAGE_DATA_SIZE as nat,
        |i: int|
            if MESSAGE_HEADER_SIZE + i < bytes.len() {
                bytes[MESSAGE_HEADER_SIZE + i]
            } else {
                0
            },
    )
}

/// One protocol message, held in decoded form. The payload vector always has
/// the full fixed size; `length` says how many of its leading bytes are
/// meaningful.
pub struct ChatMessage {
    pub msg_type: u8,
    pub length: u16,
    pub data: Vec<u8>,
}

impl ChatMessage {
    /// Internal invariant: the payload buffer has the fixed size and the
    /// length field never exceeds it.
    pub open spec fn wf(&self) -> bool {
        &&& self.data@.len() == MESSAGE_DATA_SIZE
        &&& self.length <= MESSAGE_DATA_SIZE as u16
    }

    /// The exact 1024 bytes that `pack` emits for this message.
    pub open spec fn encoded(&self) -> Seq<u8> {
        seq![self.msg_type, (self.length % 256) as u8, (self.length / 256) as u8] + self.data@
    }

    /// Builds a message from a payload, copying at most the fixed payload
    /// size and zero-padding the rest; `length` records how much was copied.
    pub fn new(msg_type: u8, data: &[u8]) -> (m: Self)
        ensures
            m.wf(),
            m.msg_type == msg_type,
            m.length as int == capped_payload_len(data@.len() as int),
            forall|i: int| 0 <= i < m.length ==> #[trigger] m.data@[i] == data@[i],
            forall|i: int| m.length <= i < MESSAGE_DATA_SIZE ==> #[trigger] m.data@[i] == 0,
    {
        let mut fixed_data = zero_vec(MESSAGE_DATA_SIZE);
        let copy_len = if data.len() < MESSAGE_DATA_SIZE {
            data.len()
        } else {
            MESSAGE_DATA_SIZE
        };
        let mut i: usize = 0;
        while i < copy_len
            invariant
                i <= copy_len,
                copy_len as int == capped_payload_len(data@.len() as int),
                copy_len <= data@.len(),
                fixed_data@.len() == MESSAGE_DATA_SIZE,
                forall|j: int| 0 <= j < i ==> fixed_data@[j] == data@[j],
                forall|j: int| i <= j < MESSAGE_DATA_SIZE ==> fixed_data@[j] == 0,
            decreases copy_len - i,
        {
            fixed_data.set(i, data[i]);
            i += 1;
        }
        ChatMessage { msg_type, length: copy_len as u16, data: fixed_data }
    }

    /// Encodes the message into its fixed 1024-byte wire form.
    pub fn pack(&self) -> (buffer: Vec<u8>)
        requires
            self.wf(),
        ensures
            buffer@.len() == MESSAGE_TOTAL_SIZE,
            buffer@ == self.encoded(),
    {
        let mut buffer = zero_vec(MESSAGE_TOTAL_SIZE);
        buffer.set(0, self.msg_type);
        write_u16_le(&mut buffer, 1, self.length);
        let mut i: usize = 0;
        while i < MESSAGE_DATA_SIZE
            invariant
                i <= MESSAGE_DATA_SIZE,
                self.wf(),
                buffer@.len() == MESSAGE_TOTAL_SIZE,
                buffer@[0] == self.msg_type,
                buffer@[1] == (self.length % 256) as u8,
                buffer@[2] == (self.length / 256) as u8,
                forall|j: int| 0 <= j < i ==> buffer@[MESSAGE_HEADER_SIZE + j] == self.data@[j],
            decreases MESSAGE_DATA_SIZE - i,
        {
            buffer.set(MESSAGE_HEADER_SIZE + i, self.data[i]);
            i += 1;
        }
        proof {
            assert(buffer@ =~= self.encoded());
        }
        buffer
    }

    /// Decodes a buffer. Fails only when even the 3-byte header is missing;
    /// any longer buffer decodes, with the payload bytes that are present
    /// copied and the rest of the payload region zero-filled, and with the
    /// length field clamped to the fixed payload size.
    pub fn unpack(data: &[u8]) -> (r: Result<Self, DecodeError>)
        ensures
            r is Err <==> data@.len() < MESSAGE_HEADER_SIZE,
            r matches Err(e) ==> e == DecodeError::TruncatedHeader,
            r matches Ok(m) ==> {
                &&& m.wf()
                &&& m.msg_type == decoded_type(data@)
                &&& m.length == decoded_length(data@)
                &&& m.data@ == decoded_payload(data@)
            },
    {
        if data.len() < MESSAGE_HEADER_SIZE {
            return Err(DecodeError::TruncatedHeader);
        }

        let msg_type = data[0];
        let raw_length = read_u16_le_at(data, 1);
        let length = if raw_length > MESSAGE_DATA_SIZE as u16 {
            MESSAGE_DATA_SIZE as u16
        } else {
            raw_length
        };

        let mut fixed_data = zero_vec(MESSAGE_DATA_SIZE);
        let available = if data.len() >= MESSAGE_TOTAL_SIZE {
            MESSAGE_DATA_SIZE
        } else {
            data.len() - MESSAGE_HEADER_SIZE
        };
        let mut i: usize = 0;
        while i < available
            invariant
                i <= available,
                MESSAGE_HEADER_SIZE + available <= data@.len(),
                available <= MESSAGE_DATA_SIZE,
                fixed_data@.len() == MESSAGE_DATA_SIZE,
                forall|j: int| 0 <= j < i ==> fixed_data@[j] == data@[MESSAGE_HEADER_SIZE + j],
                forall|j: int| i <= j < MESSAGE_DATA_SIZE ==> fixed_data@[j] == 0,
            decreases available - i,
        {
            fixed_data.set(i, data[MESSAGE_HEADER_SIZE + i]);
            i += 1;
        }
        proof {
            assert(fixed_data@ =~= decoded_payload(data@));
        }

        Ok(ChatMessage { msg_type, length, data: fixed_data })
    }
}

/// A vector of `n` zero bytes.
fn zero_vec(n: usize) -> (v: Vec<u8>)
    ensures
        v@.len() == n,
        forall|i: int| 0 <= i < n ==> v@[i] == 0,
{
    let mut v: Vec<u8> = Vec::new();
    let mut i: usize = 0;
    while i < n
        invariant
            i <= n,
            v@.len() == i,
            forall|j: int| 0 <= j < i ==> v@[j] == 0,
        decreases n - i,
    {
        v.push(0);
        i += 1;
    }
    v
}

/// Relies on byteorder's `LittleEndian::write_u16`: it stores the two
/// little-endian bytes of `v` at `buf[pos]` and `buf[pos + 1]`.
#[verifier::external_body]
fn write_u16_le(buf: &mut Vec<u8>, pos: usize, v: u16)
    requires
        pos + 2 <= old(buf)@.len(),
    ensures
        final(buf)@.len() == old(buf)@.len(),
        final(buf)@[pos as int] == (v % 256) as u8,
        final(buf)@[pos as int + 1] == (v / 256) as u8,
        forall|i: int|
            0 <= i < final(buf)@.len() && i != pos && i != pos + 1 ==> final(buf)@[i] == old(
                buf,
            )@[i],
{
    LittleEndian::write_u16(&mut buf[pos..pos + 2], v);
}

/// Relies on byteorder's `LittleEndian::read_u16`: it reads the two bytes at
/// `buf[pos]` and `buf[pos + 1]` as a little-endian unsigned 16-bit integer.
#[verifier::external_body]
fn read_u16_le_at(buf: &[u8], pos: usize) -> (r: u16)
    requires
        pos + 2 <= buf@.len(),
    ensures
        r == le16(buf@[pos as int], buf@[pos as int + 1]),
{
    LittleEndian::read_u16(&buf[pos..pos + 2])
}

/// Round trip: decoding the encoded form of any well-formed message
/// recovers its type, its length, and its full payload region.
pub proof fn lemma_round_trip(m: ChatMessage)
    requires
        m.wf(),
    ensures
        m.encoded().len() == MESSAGE_TOTAL_SIZE,
        decoded_type(m.encoded()) == m.msg_type,
        decoded_length(m.encoded()) == m.length,
        decoded_payload(m.encoded()) == m.data@,
{
    let bytes = m.encoded();
    assert(le16(bytes[1], bytes[2]) == m.length) by {
        assert(m.length % 256 + 256 * (m.length / 256) == m.length);
    };
    assert(decoded_payload(bytes) =~= m.data@);
}

} // verus!
