use vstd::prelude::*;

verus! {

/// Largest message that a two-byte length prefix can announce.
pub const MAX_MESSAGE_LEN: usize = 65535;

/// Why a message could not be framed or a frame could not be read.
#[derive(Clone, Copy, Debug, PartialEq, Eq, Structural)]
pub enum FrameError {
    /// The message is too short to hold its two-byte id.
    MissingId,
    /// The message is longer than a length prefix can announce.
    TooLong,
    /// The stream ended before the two bytes of the length prefix.
    MissingLength,
    /// The stream ended before the number of bytes that the prefix announced.
    Truncated,
}

/// The message with its id (its first two bytes, big-endian) set to zero.
pub open spec fn with_zero_id(m: Seq<u8>) -> Seq<u8>
    recommends
        m.len() >= 2,
{
    seq![0u8, 0u8] + m.subrange(2, m.len() as int)
}

/// The id that a wire-format message carries in its first two bytes.
pub open spec fn message_id(m: Seq<u8>) -> int
    recommends
        m.len() >= 2,
{
    m[0] as int * 256 + m[1] as int
}

/// A length written as two bytes, most significant first.
pub open spec fn length_prefix(n: nat) -> Seq<u8> {
    seq![(n / 256) as u8, (n % 256) as u8]
}

/// The length that two bytes announce, most significant first.
pub open spec fn announced_len(b: Seq<u8>) -> nat
    recommends
        b.len() >= 2,
{
    (b[0] as nat) * 256 + (b[1] as nat)
}

/// What goes on a query's stream: the length prefix, then the message with a zero id.
pub open spec fn request_frame(m: Seq<u8>) -> Seq<u8> {
    length_prefix(m.len()) + with_zero_id(m)
}

/// The outcome of framing a query message.
pub open spec fn encode_result(m: Seq<u8>) -> Result<Seq<u8>, FrameError> {
    if m.len() < 2 {
        Err(FrameError::MissingId)
    } else if m.len() > MAX_MESSAGE_LEN {
        Err(FrameError::TooLong)
    } else {
        Ok(request_frame(m))
    }
}

/// The outcome of reading the response frame at the start of what a stream delivered.
pub open spec fn decode_result(b: Seq<u8>) -> Result<Seq<u8>, FrameError> {
    if b.len() < 2 {
        Err(FrameError::MissingLength)
    } else if b.len() < 2 + announced_len(b) {
        Err(FrameError::Truncated)
    } else {
        Ok(b.subrange(2, 2 + announced_len(b) as int))
    }
}

/// Sets the id of a wire-format message to zero in place: the stream that carries
/// a query is what ties its response to it.
pub fn clear_message_id(message: &mut Vec<u8>)
    requires
        old(message)@.len() >= 2,
    ensures
        final(message)@ == with_zero_id(old(message)@),
{
    message.set(0, 0u8);
    message.set(1, 0u8);
    assert(final(message)@ =~= with_zero_id(old(message)@));
}

/// Frames a query: a two-byte big-endian length, then the message with its id set
/// to zero.
pub fn encode_request(message: &[u8]) -> (r: Result<Vec<u8>, FrameError>)
    ensures
        match (r, encode_result(message@)) {
            (Ok(v), Ok(s)) => v@ == s,
            (Err(e), Err(f)) => e == f,
            _ => false,
        },
{
    let n = message.len();
    if n < 2 {
        return Err(FrameError::MissingId);
    }
    if n > MAX_MESSAGE_LEN {
        return Err(FrameError::TooLong);
    }
    let mut out: Vec<u8> = Vec::with_capacity(n + 2);
    out.push((n / 256) as u8);
    out.push((n % 256) as u8);
    out.push(0u8);
    out.push(0u8);
    let mut i: usize = 2;
    while i < n
        invariant
            2 <= i <= n,
            n == message@.len(),
            out@ == length_prefix(n as nat) + with_zero_id(message@).subrange(0, i as int),
        decreases n - i,
    {
        out.push(message[i]);
        i = i + 1;
        assert(out@ =~= length_prefix(n as nat) + with_zero_id(message@).subrange(0, i as int));
    }
    assert(with_zero_id(message@).subrange(0, n as int) =~= with_zero_id(message@));
    Ok(out)
}

/// Reads the response frame that a stream delivered: two bytes of length, then that
/// many bytes of message. Bytes after the frame are not part of the response.
pub fn decode_response(bytes: &[u8]) -> (r: Result<Vec<u8>, FrameError>)
    ensures
        match (r, decode_result(bytes@)) {
            (Ok(v), Ok(s)) => v@ == s,
            (Err(e), Err(f)) => e == f,
            _ => false,
        },
{
    if bytes.len() < 2 {
        return Err(FrameError::MissingLength);
    }
    let len: usize = (bytes[0] as usize) * 256 + (bytes[1] as usize);
    if bytes.len() - 2 < len {
        return Err(FrameError::Truncated);
    }
    let mut out: Vec<u8> = Vec::with_capacity(len);
    let mut i: usize = 0;
    while i < len
        invariant
            i <= len,
            len == announced_len(bytes@),
            2 + len <= bytes@.len(),
            out@ == bytes@.subrange(2, 2 + i),
        decreases len - i,
    {
        out.push(bytes[2 + i]);
        i = i + 1;
        assert(out@ =~= bytes@.subrange(2, 2 + i));
    }
    Ok(out)
}

/// Reads the id of a wire-format message.
pub fn read_message_id(message: &[u8]) -> (r: u16)
    requires
        message@.len() >= 2,
    ensures
        r as int == message_id(message@),
{
    (message[0] as u16) * 256 + (message[1] as u16)
}

/// Whatever id a query carries, the message inside its frame has id zero.
pub proof fn lemma_framed_id_is_zero(m: Seq<u8>)
    requires
        2 <= m.len() <= MAX_MESSAGE_LEN,
    ensures
        encode_result(m) is Ok,
        message_id(encode_result(m)->Ok_0.subrange(2, m.len() + 2 as int)) == 0,
{
    let f = request_frame(m);
    assert(f.subrange(2, m.len() + 2 as int) =~= with_zero_id(m));
}

/// Reading back the frame of a query gives the query with its id set to zero.
pub proof fn lemma_decode_inverts_encode(m: Seq<u8>)
    requires
        2 <= m.len() <= MAX_MESSAGE_LEN,
    ensures
        decode_result(request_frame(m)) == Ok::<Seq<u8>, FrameError>(with_zero_id(m)),
{
    let f = request_frame(m);
    let n = m.len();
    assert(f[0] == (n / 256) as u8);
    assert(f[1] == (n % 256) as u8);
    assert((n / 256) as u8 as nat * 256 + (n % 256) as u8 as nat == n) by (nonlinear_arith)
        requires
            n <= 65535,
    ;
    assert(announced_len(f) == n);
    assert(f.subrange(2, 2 + n as int) =~= with_zero_id(m));
}

} // verus!
