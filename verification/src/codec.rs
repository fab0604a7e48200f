//! Wire codec for control messages.
//!
//! A frame is a two-byte big-endian length `L` followed by a body of `L`
//! bytes. The body is a tag byte followed by the variant's fields: ports as
//! two big-endian bytes, nonces and connection ids as sixteen, a proof as the
//! rest of the body, an error reason as a one-byte code. Bytes after the
//! known fields of a fixed-size variant are ignored, so a newer peer may add
//! fields without breaking an older one; an unknown tag fails the frame.

use vstd::prelude::*;

use crate::msg::ControlMessage;
use crate::msg::MsgModel;
use crate::msg::TunnelError;

verus! {

/// Big-endian bytes of a 16-bit value.
pub open spec fn be16(x: u16) -> Seq<u8> {
    seq![(((x >> 8) & 0xff) as u8), ((x & 0xff) as u8)]
}

/// The 16-bit value read back from two big-endian bytes.
pub open spec fn be16_val(hi: u8, lo: u8) -> u16 {
    ((hi as u16) << 8) | (lo as u16)
}

/// Big-endian bytes of a 128-bit value.
pub open spec fn be128(x: u128) -> Seq<u8> {
    seq![
        (((x >> 120) & 0xff) as u8),
        (((x >> 112) & 0xff) as u8),
        (((x >> 104) & 0xff) as u8),
        (((x >> 96) & 0xff) as u8),
        (((x >> 88) & 0xff) as u8),
        (((x >> 80) & 0xff) as u8),
        (((x >> 72) & 0xff) as u8),
        (((x >> 64) & 0xff) as u8),
        (((x >> 56) & 0xff) as u8),
        (((x >> 48) & 0xff) as u8),
        (((x >> 40) & 0xff) as u8),
        (((x >> 32) & 0xff) as u8),
        (((x >> 24) & 0xff) as u8),
        (((x >> 16) & 0xff) as u8),
        (((x >> 8) & 0xff) as u8),
        ((x & 0xff) as u8),
    ]
}

/// The 128-bit value read back from sixteen big-endian bytes.
pub open spec fn be128_val(s: Seq<u8>) -> u128
    recommends
        s.len() >= 16,
{
    ((s[0] as u128) << 120) | ((s[1] as u128) << 112) | ((s[2] as u128) << 104) | ((s[3] as u128)
        << 96) | ((s[4] as u128) << 88) | ((s[5] as u128) << 80) | ((s[6] as u128) << 72) | ((
    s[7] as u128) << 64) | ((s[8] as u128) << 56) | ((s[9] as u128) << 48) | ((s[10] as u128)
        << 40) | ((s[11] as u128) << 32) | ((s[12] as u128) << 24) | ((s[13] as u128) << 16) | ((
    s[14] as u128) << 8) | (s[15] as u128)
}

/// The one-byte wire code of an error reason.
pub open spec fn spec_reason_code(e: TunnelError) -> u8 {
    match e {
        TunnelError::MalformedMessage => 0,
        TunnelError::UnknownMessageType => 1,
        TunnelError::ProtocolViolation => 2,
        TunnelError::AuthenticationMismatch => 3,
        TunnelError::AuthenticationFailed => 4,
        TunnelError::NoPortsAvailable => 5,
        TunnelError::PortOutOfRange => 6,
        TunnelError::PortInUse => 7,
        TunnelError::PeerUnreachable => 8,
    }
}

/// The error reason named by a wire code, if the code is a known one.
pub open spec fn spec_code_reason(c: u8) -> Option<TunnelError> {
    if c == 0 {
        Some(TunnelError::MalformedMessage)
    } else if c == 1 {
        Some(TunnelError::UnknownMessageType)
    } else if c == 2 {
        Some(TunnelError::ProtocolViolation)
    } else if c == 3 {
        Some(TunnelError::AuthenticationMismatch)
    } else if c == 4 {
        Some(TunnelError::AuthenticationFailed)
    } else if c == 5 {
        Some(TunnelError::NoPortsAvailable)
    } else if c == 6 {
        Some(TunnelError::PortOutOfRange)
    } else if c == 7 {
        Some(TunnelError::PortInUse)
    } else if c == 8 {
        Some(TunnelError::PeerUnreachable)
    } else {
        None
    }
}

/// The body bytes of a message: its tag byte followed by its fields.
pub open spec fn spec_body(m: MsgModel) -> Seq<u8> {
    match m {
        MsgModel::Hello { requested_port } => seq![0u8] + be16(requested_port),
        MsgModel::Challenge { nonce } => seq![1u8] + be128(nonce),
        MsgModel::Authenticate { proof } => seq![2u8] + proof,
        MsgModel::HelloAck { leased_port } => seq![3u8] + be16(leased_port),
        MsgModel::NewConnection { id } => seq![4u8] + be128(id),
        MsgModel::AcceptConnection { id } => seq![5u8] + be128(id),
        MsgModel::Heartbeat => seq![6u8],
        MsgModel::Error { reason } => seq![7u8, spec_reason_code(reason)],
    }
}

/// A message is encodable when its body length fits the two-byte frame
/// header; only a proof payload can ever exceed it.
pub open spec fn wf_msg(m: MsgModel) -> bool {
    match m {
        MsgModel::Authenticate { proof } => proof.len() <= 65534,
        _ => true,
    }
}

/// The full frame of a message: length header, then body.
pub open spec fn spec_encode(m: MsgModel) -> Seq<u8> {
    be16(spec_body(m).len() as u16) + spec_body(m)
}

/// What decoding a body yields: a message, or the reason the body is bad.
pub open spec fn spec_decode_body(b: Seq<u8>) -> Result<MsgModel, TunnelError> {
    if b.len() < 1 {
        Err(TunnelError::MalformedMessage)
    } else if b[0] == 0 {
        if b.len() >= 3 {
            Ok(MsgModel::Hello { requested_port: be16_val(b[1], b[2]) })
        } else {
            Err(TunnelError::MalformedMessage)
        }
    } else if b[0] == 1 {
        if b.len() >= 17 {
            Ok(MsgModel::Challenge { nonce: be128_val(b.subrange(1, 17)) })
        } else {
            Err(TunnelError::MalformedMessage)
        }
    } else if b[0] == 2 {
        Ok(MsgModel::Authenticate { proof: b.subrange(1, b.len() as int) })
    } else if b[0] == 3 {
        if b.len() >= 3 {
            Ok(MsgModel::HelloAck { leased_port: be16_val(b[1], b[2]) })
        } else {
            Err(TunnelError::MalformedMessage)
        }
    } else if b[0] == 4 {
        if b.len() >= 17 {
            Ok(MsgModel::NewConnection { id: be128_val(b.subrange(1, 17)) })
        } else {
            Err(TunnelError::MalformedMessage)
        }
    } else if b[0] == 5 {
        if b.len() >= 17 {
            Ok(MsgModel::AcceptConnection { id: be128_val(b.subrange(1, 17)) })
        } else {
            Err(TunnelError::MalformedMessage)
        }
    } else if b[0] == 6 {
        Ok(MsgModel::Heartbeat)
    } else if b[0] == 7 {
        if b.len() >= 2 {
            match spec_code_reason(b[1]) {
                Some(reason) => Ok(MsgModel::Error { reason }),
                None => Err(TunnelError::MalformedMessage),
            }
        } else {
            Err(TunnelError::MalformedMessage)
        }
    } else {
        Err(TunnelError::UnknownMessageType)
    }
}

/// Spec-level outcome of reading one frame from the front of a buffer.
pub enum DecodedModel {
    Msg { msg: MsgModel, consumed: int },
    Incomplete,
    Bad { reason: TunnelError },
}

/// What decoding the front of a byte buffer yields. A buffer shorter than
/// the frame it announces is incomplete, never an error, so frames split
/// across reads are reassembled by retrying with more bytes.
pub open spec fn spec_decode(s: Seq<u8>) -> DecodedModel {
    if s.len() < 2 {
        DecodedModel::Incomplete
    } else {
        let blen = be16_val(s[0], s[1]) as int;
        if s.len() < 2 + blen {
            DecodedModel::Incomplete
        } else {
            match spec_decode_body(s.subrange(2, 2 + blen)) {
                Ok(msg) => (DecodedModel::Msg { msg, consumed: 2 + blen }),
                Err(reason) => (DecodedModel::Bad { reason }),
            }
        }
    }
}

/// Exec-level outcome of reading one frame from the front of a buffer.
pub enum Decoded {
    /// One whole frame decoded; `consumed` bytes of the buffer are spent.
    Msg { msg: ControlMessage, consumed: usize },
    /// No complete frame yet: keep the buffer and read more bytes.
    Incomplete,
    /// The first frame is invalid; the connection must be closed.
    Bad { reason: TunnelError },
}

impl View for Decoded {
    type V = DecodedModel;

    open spec fn view(&self) -> DecodedModel {
        match self {
            Decoded::Msg { msg, consumed } => (DecodedModel::Msg {
                msg: msg@,
                consumed: *consumed as int,
            }),
            Decoded::Incomplete => DecodedModel::Incomplete,
            Decoded::Bad { reason } => (DecodedModel::Bad { reason: *reason }),
        }
    }
}

/// Append the two big-endian bytes of `x`.
fn push_u16(v: &mut Vec<u8>, x: u16)
    ensures
        final(v)@ == old(v)@ + be16(x),
{
    v.push(((x >> 8) & 0xff) as u8);
    v.push((x & 0xff) as u8);
    assert(v@ =~= old(v)@ + be16(x));
}

/// Append the sixteen big-endian bytes of `x`.
fn push_u128(v: &mut Vec<u8>, x: u128)
    ensures
        final(v)@ == old(v)@ + be128(x),
{
    v.push(((x >> 120) & 0xff) as u8);
    v.push(((x >> 112) & 0xff) as u8);
    v.push(((x >> 104) & 0xff) as u8);
    v.push(((x >> 96) & 0xff) as u8);
    v.push(((x >> 88) & 0xff) as u8);
    v.push(((x >> 80) & 0xff) as u8);
    v.push(((x >> 72) & 0xff) as u8);
    v.push(((x >> 64) & 0xff) as u8);
    v.push(((x >> 56) & 0xff) as u8);
    v.push(((x >> 48) & 0xff) as u8);
    v.push(((x >> 40) & 0xff) as u8);
    v.push(((x >> 32) & 0xff) as u8);
    v.push(((x >> 24) & 0xff) as u8);
    v.push(((x >> 16) & 0xff) as u8);
    v.push(((x >> 8) & 0xff) as u8);
    v.push((x & 0xff) as u8);
    assert(v@ =~= old(v)@ + be128(x));
}

/// The sixteen big-endian bytes of a 128-bit value, as a fresh vector.
pub fn u128_bytes(x: u128) -> (r: Vec<u8>)
    ensures
        r@ == be128(x),
{
    let mut v: Vec<u8> = Vec::new();
    push_u128(&mut v, x);
    assert(v@ =~= be128(x));
    v
}

/// The one-byte wire code of an error reason.
pub fn reason_code(e: TunnelError) -> (r: u8)
    ensures
        r == spec_reason_code(e),
{
    match e {
        TunnelError::MalformedMessage => 0,
        TunnelError::UnknownMessageType => 1,
        TunnelError::ProtocolViolation => 2,
        TunnelError::AuthenticationMismatch => 3,
        TunnelError::AuthenticationFailed => 4,
        TunnelError::NoPortsAvailable => 5,
        TunnelError::PortOutOfRange => 6,
        TunnelError::PortInUse => 7,
        TunnelError::PeerUnreachable => 8,
    }
}

/// The error reason named by a wire code, if the code is a known one.
pub fn code_reason(c: u8) -> (r: Option<TunnelError>)
    ensures
        r == spec_code_reason(c),
{
    if c == 0 {
        Some(TunnelError::MalformedMessage)
    } else if c == 1 {
        Some(TunnelError::UnknownMessageType)
    } else if c == 2 {
        Some(TunnelError::ProtocolViolation)
    } else if c == 3 {
        Some(TunnelError::AuthenticationMismatch)
    } else if c == 4 {
        Some(TunnelError::AuthenticationFailed)
    } else if c == 5 {
        Some(TunnelError::NoPortsAvailable)
    } else if c == 6 {
        Some(TunnelError::PortOutOfRange)
    } else if c == 7 {
        Some(TunnelError::PortInUse)
    } else if c == 8 {
        Some(TunnelError::PeerUnreachable)
    } else {
        None
    }
}

/// Encode one message as a complete frame.
pub fn serialize(m: &ControlMessage) -> (r: Vec<u8>)
    requires
        wf_msg(m@),
    ensures
        r@ == spec_encode(m@),
{
    let mut body: Vec<u8> = Vec::new();
    match m {
        ControlMessage::Hello { requested_port } => {
            body.push(0);
            push_u16(&mut body, *requested_port);
        },
        ControlMessage::Challenge { nonce } => {
            body.push(1);
            push_u128(&mut body, *nonce);
        },
        ControlMessage::Authenticate { proof } => {
            body.push(2);
            let mut k: usize = 0;
            while k < proof.len()
                invariant
                    k <= proof.len(),
                    body@ == seq![2u8] + proof@.take(k as int),
                decreases proof.len() - k,
            {
                body.push(proof[k]);
                k = k + 1;
                assert(body@ =~= seq![2u8] + proof@.take(k as int));
            }
            assert(proof@.take(proof@.len() as int) =~= proof@);
        },
        ControlMessage::HelloAck { leased_port } => {
            body.push(3);
            push_u16(&mut body, *leased_port);
        },
        ControlMessage::NewConnection { id } => {
            body.push(4);
            push_u128(&mut body, *id);
        },
        ControlMessage::AcceptConnection { id } => {
            body.push(5);
            push_u128(&mut body, *id);
        },
        ControlMessage::Heartbeat => {
            body.push(6);
        },
        ControlMessage::Error { reason } => {
            body.push(7);
            let c = reason_code(*reason);
            body.push(c);
        },
    }
    assert(body@ =~= spec_body(m@));
    let blen: u16 = body.len() as u16;
    let mut out: Vec<u8> = Vec::new();
    push_u16(&mut out, blen);
    let mut k: usize = 0;
    while k < body.len()
        invariant
            k <= body.len(),
            body@ == spec_body(m@),
            out@ == be16(body@.len() as u16) + body@.take(k as int),
        decreases body.len() - k,
    {
        out.push(body[k]);
        k = k + 1;
        assert(out@ =~= be16(body@.len() as u16) + body@.take(k as int));
    }
    assert(body@.take(body@.len() as int) =~= body@);
    out
}

/// Read the 128-bit value at `off`.
fn read_u128(buf: &[u8], off: usize) -> (r: u128)
    requires
        off + 16 <= buf@.len(),
    ensures
        r == be128_val(buf@.subrange(off as int, off as int + 16)),
{
    let r: u128 = ((buf[off] as u128) << 120) | ((buf[off + 1] as u128) << 112) | ((buf[off
        + 2] as u128) << 104) | ((buf[off + 3] as u128) << 96) | ((buf[off + 4] as u128) << 88) | ((
    buf[off + 5] as u128) << 80) | ((buf[off + 6] as u128) << 72) | ((buf[off + 7] as u128) << 64)
        | ((buf[off + 8] as u128) << 56) | ((buf[off + 9] as u128) << 48) | ((buf[off
        + 10] as u128) << 40) | ((buf[off + 11] as u128) << 32) | ((buf[off + 12] as u128) << 24)
        | ((buf[off + 13] as u128) << 16) | ((buf[off + 14] as u128) << 8) | (buf[off
        + 15] as u128);
    proof {
        let s = buf@.subrange(off as int, off as int + 16);
        assert(forall|k: int| 0 <= k < 16 ==> s[k] == buf@[off + k]);
    }
    r
}

/// Decode the frame, if any, at the front of `buf`. Trailing bytes past the
/// first frame are left untouched; the caller drops `consumed` bytes and
/// calls again.
pub fn deserialize(buf: &[u8]) -> (r: Decoded)
    ensures
        r@ == spec_decode(buf@),
{
    if buf.len() < 2 {
        return Decoded::Incomplete;
    }
    let blen16: u16 = ((buf[0] as u16) << 8) | (buf[1] as u16);
    let blen: usize = blen16 as usize;
    assert(blen16 == be16_val(buf@[0], buf@[1]));
    if buf.len() - 2 < blen {
        return Decoded::Incomplete;
    }
    let ghost body: Seq<u8> = buf@.subrange(2, 2 + blen as int);
    if blen < 1 {
        return Decoded::Bad { reason: TunnelError::MalformedMessage };
    }
    let tag: u8 = buf[2];
    assert(tag == body[0]);
    let consumed: usize = 2 + blen;
    if tag == 0 {
        if blen >= 3 {
            let port: u16 = ((buf[3] as u16) << 8) | (buf[4] as u16);
            assert(port == be16_val(body[1], body[2]));
            Decoded::Msg { msg: ControlMessage::Hello { requested_port: port }, consumed }
        } else {
            Decoded::Bad { reason: TunnelError::MalformedMessage }
        }
    } else if tag == 1 {
        if blen >= 17 {
            let nonce: u128 = read_u128(buf, 3);
            assert(buf@.subrange(3, 19) =~= body.subrange(1, 17));
            Decoded::Msg { msg: ControlMessage::Challenge { nonce }, consumed }
        } else {
            Decoded::Bad { reason: TunnelError::MalformedMessage }
        }
    } else if tag == 2 {
        let mut proof_bytes: Vec<u8> = Vec::new();
        let mut k: usize = 3;
        while k < 2 + blen
            invariant
                blen <= 65535,
                3 <= k <= 2 + blen,
                2 + blen <= buf@.len(),
                proof_bytes@ == buf@.subrange(3, k as int),
            decreases 2 + blen - k,
        {
            proof_bytes.push(buf[k]);
            k = k + 1;
            assert(proof_bytes@ =~= buf@.subrange(3, k as int));
        }
        assert(buf@.subrange(3, 2 + blen as int) =~= body.subrange(1, body.len() as int));
        Decoded::Msg { msg: ControlMessage::Authenticate { proof: proof_bytes }, consumed }
    } else if tag == 3 {
        if blen >= 3 {
            let port: u16 = ((buf[3] as u16) << 8) | (buf[4] as u16);
            assert(port == be16_val(body[1], body[2]));
            Decoded::Msg { msg: ControlMessage::HelloAck { leased_port: port }, consumed }
        } else {
            Decoded::Bad { reason: TunnelError::MalformedMessage }
        }
    } else if tag == 4 {
        if blen >= 17 {
            let id: u128 = read_u128(buf, 3);
            assert(buf@.subrange(3, 19) =~= body.subrange(1, 17));
            Decoded::Msg { msg: ControlMessage::NewConnection { id }, consumed }
        } else {
            Decoded::Bad { reason: TunnelError::MalformedMessage }
        }
    } else if tag == 5 {
        if blen >= 17 {
            let id: u128 = read_u128(buf, 3);
            assert(buf@.subrange(3, 19) =~= body.subrange(1, 17));
            Decoded::Msg { msg: ControlMessage::AcceptConnection { id }, consumed }
        } else {
            Decoded::Bad { reason: TunnelError::MalformedMessage }
        }
    } else if tag == 6 {
        Decoded::Msg { msg: ControlMessage::Heartbeat, consumed }
    } else if tag == 7 {
        if blen >= 2 {
            assert(buf@[3] == body[1]);
            match code_reason(buf[3]) {
                Some(reason) => Decoded::Msg { msg: ControlMessage::Error { reason }, consumed },
                None => Decoded::Bad { reason: TunnelError::MalformedMessage },
            }
        } else {
            Decoded::Bad { reason: TunnelError::MalformedMessage }
        }
    } else {
        Decoded::Bad { reason: TunnelError::UnknownMessageType }
    }
}

/// The two-byte header reads back as the body length it was written from.
proof fn lemma_be16_round(x: u16)
    ensures
        be16_val(be16(x)[0], be16(x)[1]) == x,
{
    assert((((((x >> 8) & 0xff) as u8) as u16) << 8) | (((x & 0xff) as u8) as u16) == x)
        by (bit_vector);
}

/// Sixteen big-endian bytes read back as the value they were written from.
proof fn lemma_be128_round(x: u128)
    ensures
        be128_val(be128(x)) == x,
{
    let s = be128(x);
    let b0 = s[0];
    let b1 = s[1];
    let b2 = s[2];
    let b3 = s[3];
    let b4 = s[4];
    let b5 = s[5];
    let b6 = s[6];
    let b7 = s[7];
    let b8 = s[8];
    let b9 = s[9];
    let b10 = s[10];
    let b11 = s[11];
    let b12 = s[12];
    let b13 = s[13];
    let b14 = s[14];
    let b15 = s[15];
    assert(((b0 as u128) << 120) | ((b1 as u128) << 112) | ((b2 as u128) << 104) | ((b3 as u128)
        << 96) | ((b4 as u128) << 88) | ((b5 as u128) << 80) | ((b6 as u128) << 72) | ((b7 as u128)
        << 64) | ((b8 as u128) << 56) | ((b9 as u128) << 48) | ((b10 as u128) << 40) | ((
    b11 as u128) << 32) | ((b12 as u128) << 24) | ((b13 as u128) << 16) | ((b14 as u128) << 8) | (
    b15 as u128) == x) by (bit_vector)
        requires
            b0 == ((x >> 120) & 0xff) as u8,
            b1 == ((x >> 112) & 0xff) as u8,
            b2 == ((x >> 104) & 0xff) as u8,
            b3 == ((x >> 96) & 0xff) as u8,
            b4 == ((x >> 88) & 0xff) as u8,
            b5 == ((x >> 80) & 0xff) as u8,
            b6 == ((x >> 72) & 0xff) as u8,
            b7 == ((x >> 64) & 0xff) as u8,
            b8 == ((x >> 56) & 0xff) as u8,
            b9 == ((x >> 48) & 0xff) as u8,
            b10 == ((x >> 40) & 0xff) as u8,
            b11 == ((x >> 32) & 0xff) as u8,
            b12 == ((x >> 24) & 0xff) as u8,
            b13 == ((x >> 16) & 0xff) as u8,
            b14 == ((x >> 8) & 0xff) as u8,
            b15 == (x & 0xff) as u8,
    ;
}

/// The reason read back from a reason's wire code is that reason.
proof fn lemma_reason_code_round(e: TunnelError)
    ensures
        spec_code_reason(spec_reason_code(e)) == Some(e),
{
}

/// Round trip: a well-formed message's frame, followed by any further bytes,
/// decodes to exactly that message, consuming exactly the frame. The codec
/// is self-delimiting: what follows one frame never changes how it reads.
pub proof fn lemma_codec_round_trip(m: MsgModel, rest: Seq<u8>)
    requires
        wf_msg(m),
    ensures
        spec_decode(spec_encode(m) + rest) == (DecodedModel::Msg {
            msg: m,
            consumed: spec_encode(m).len() as int,
        }),
{
    let b = spec_body(m);
    let e = spec_encode(m);
    let s = e + rest;
    assert(b.len() <= 65535);
    lemma_be16_round(b.len() as u16);
    assert(s[0] == be16(b.len() as u16)[0]);
    assert(s[1] == be16(b.len() as u16)[1]);
    assert(be16_val(s[0], s[1]) == b.len() as u16);
    assert(s.subrange(2, 2 + b.len() as int) =~= b);
    lemma_decode_body_round(m);
}

/// Decoding a well-formed message's body yields that message.
proof fn lemma_decode_body_round(m: MsgModel)
    requires
        wf_msg(m),
    ensures
        spec_decode_body(spec_body(m)) == Ok::<MsgModel, TunnelError>(m),
{
    let b = spec_body(m);
    match m {
        MsgModel::Hello { requested_port } => {
            lemma_be16_round(requested_port);
        },
        MsgModel::Challenge { nonce } => {
            assert(b.subrange(1, 17) =~= be128(nonce));
            lemma_be128_round(nonce);
        },
        MsgModel::Authenticate { proof } => {
            assert(b.subrange(1, b.len() as int) =~= proof);
        },
        MsgModel::HelloAck { leased_port } => {
            lemma_be16_round(leased_port);
        },
        MsgModel::NewConnection { id } => {
            assert(b.subrange(1, 17) =~= be128(id));
            lemma_be128_round(id);
        },
        MsgModel::AcceptConnection { id } => {
            assert(b.subrange(1, 17) =~= be128(id));
            lemma_be128_round(id);
        },
        MsgModel::Heartbeat => {
        },
        MsgModel::Error { reason } => {
            lemma_reason_code_round(reason);
        },
    }
}

/// A strict prefix of a frame decodes as incomplete, never as an error: a
/// frame split across reads is simply retried with more bytes.
pub proof fn lemma_prefix_incomplete(m: MsgModel, n: int)
    requires
        wf_msg(m),
        0 <= n < spec_encode(m).len(),
    ensures
        spec_decode(spec_encode(m).take(n)) == DecodedModel::Incomplete,
{
    let e = spec_encode(m);
    let b = spec_body(m);
    let p = e.take(n);
    if p.len() >= 2 {
        assert(p[0] == e[0]);
        assert(p[1] == e[1]);
        assert(b.len() <= 65535);
        lemma_be16_round(b.len() as u16);
        assert(be16_val(p[0], p[1]) == b.len() as u16);
        assert(p.len() < 2 + b.len());
    }
}

} // verus!
