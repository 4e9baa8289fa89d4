use vstd::prelude::*;
use crate::socket::commands::{ErrorKind, MessageError};

verus! {

/// The largest message a frame may carry: 10 MiB.
pub const MAX_MESSAGE_LENGTH: u64 = 10485760;

/// Sends one message.
pub trait MessageSender {
    fn send_message(&mut self, msg: &[u8]) -> Result<(), MessageError>;
}

/// Receives one message.
pub trait MessageReceiver {
    fn read_message(&mut self) -> Result<Vec<u8>, MessageError>;
}

/// Accepts a frame length of at most 10 MiB; a longer one is invalid data.
pub fn validate_message_length(len: u64) -> (r: Result<(), MessageError>)
    ensures
        r is Ok <==> len <= MAX_MESSAGE_LENGTH,
        r matches Err(e) ==> e.kind == ErrorKind::InvalidData && e.message@ == "Message too large"@,
{
    if len > MAX_MESSAGE_LENGTH {
        return Err(MessageError::new(ErrorKind::InvalidData, "Message too large"));
    }
    Ok(())
}

/// The eight little-endian bytes of `v`.
pub open spec fn le_bytes(v: u64) -> Seq<u8> {
    seq![
        v as u8,
        (v >> 8u64) as u8,
        (v >> 16u64) as u8,
        (v >> 24u64) as u8,
        (v >> 32u64) as u8,
        (v >> 40u64) as u8,
        (v >> 48u64) as u8,
        (v >> 56u64) as u8,
    ]
}

/// The number whose little-endian bytes `b` are.
pub open spec fn le_value(b: Seq<u8>) -> u64 {
    (b[0] as u64) | ((b[1] as u64) << 8u64) | ((b[2] as u64) << 16u64) | ((b[3] as u64) << 24u64)
        | ((b[4] as u64) << 32u64) | ((b[5] as u64) << 40u64) | ((b[6] as u64) << 48u64) | ((
    b[7] as u64) << 56u64)
}

/// The header of a frame carrying `len` bytes.
pub fn length_header(len: u64) -> (r: [u8; 8])
    ensures
        r@ == le_bytes(len),
{
    let r: [u8; 8] = [
        len as u8,
        (len >> 8) as u8,
        (len >> 16) as u8,
        (len >> 24) as u8,
        (len >> 32) as u8,
        (len >> 40) as u8,
        (len >> 48) as u8,
        (len >> 56) as u8,
    ];
    assert(r@ =~= le_bytes(len));
    r
}

/// The length a frame header announces.
pub fn header_length(header: [u8; 8]) -> (r: u64)
    ensures
        r == le_value(header@),
{
    (header[0] as u64) | ((header[1] as u64) << 8) | ((header[2] as u64) << 16) | ((
    header[3] as u64) << 24) | ((header[4] as u64) << 32) | ((header[5] as u64) << 40) | ((
    header[6] as u64) << 48) | ((header[7] as u64) << 56)
}

/// A frame: the message's length in eight little-endian bytes, then the
/// message.
pub fn frame_message(msg: &[u8]) -> (r: Vec<u8>)
    ensures
        r@ == le_bytes(msg@.len() as u64) + msg@,
{
    let header = length_header(msg.len() as u64);
    let mut out: Vec<u8> = Vec::new();
    let mut i: usize = 0;
    while i < 8
        invariant
            i <= 8,
            out@ == header@.take(i as int),
        decreases 8 - i,
    {
        out.push(header[i]);
        i = i + 1;
        assert(out@ =~= header@.take(i as int));
    }
    let mut j: usize = 0;
    while j < msg.len()
        invariant
            j <= msg@.len(),
            out@ == header@ + msg@.take(j as int),
        decreases msg@.len() - j,
    {
        out.push(msg[j]);
        j = j + 1;
        assert(out@ =~= header@ + msg@.take(j as int));
    }
    assert(header@.take(8) =~= header@);
    assert(msg@.take(msg@.len() as int) =~= msg@);
    out
}

/// Reading a frame header back gives the length it was made for.
pub proof fn lemma_header_round_trip(len: u64)
    ensures
        le_value(le_bytes(len)) == len,
{
    assert(((len as u8) as u64) | ((((len >> 8u64) as u8) as u64) << 8u64) | ((((len >> 16u64) as u8) as u64) << 16u64)
        | ((((len >> 24u64) as u8) as u64) << 24u64) | ((((len >> 32u64) as u8) as u64) << 32u64)
        | ((((len >> 40u64) as u8) as u64) << 40u64) | ((((len >> 48u64) as u8) as u64) << 48u64)
        | ((((len >> 56u64) as u8) as u64) << 56u64) == len) by (bit_vector);
}

} // verus!
