//! Packet-4 framing.
//!
//! One big-endian 32-bit byte length followed by exactly that many bytes of
//! UTF-8 JSON. The length is validated against the contract's ceiling before
//! anything is allocated, so a hostile or broken peer cannot make this process
//! ask the allocator for four gigabytes.

use vstd::prelude::*;

use crate::management::contract::{self, published_limits};
use crate::management::errors::FrameError;

verus! {

/// The frame ceiling, from the vendored contract.
pub open spec fn frame_ceiling() -> usize {
    published_limits().max_frame_bytes
}

/// The frame ceiling, as executable code.
pub fn ceiling() -> (c: usize)
    ensures
        c == frame_ceiling(),
{
    contract::limits().max_frame_bytes
}

/// The four header bytes of a length, most significant first.
pub open spec fn be32(n: nat) -> Seq<u8> {
    seq![
        ((n / 16_777_216) % 256) as u8,
        ((n / 65_536) % 256) as u8,
        ((n / 256) % 256) as u8,
        (n % 256) as u8,
    ]
}

/// The length four header bytes declare.
pub open spec fn declared_by(b0: u8, b1: u8, b2: u8, b3: u8) -> nat {
    (b0 as nat) * 16_777_216 + (b1 as nat) * 65_536 + (b2 as nat) * 256 + (b3 as nat)
}

/// One frame: the header and the body.
pub open spec fn frame_of(body: Seq<u8>) -> Seq<u8> {
    be32(body.len()) + body
}

/// What reading one frame from a stream that holds exactly these bytes
/// answers.
pub open spec fn frame_read(bytes: Seq<u8>) -> Result<Seq<u8>, FrameError> {
    if bytes.len() < 4 {
        Err(FrameError::Truncated { expected: 4, read: bytes.len() as usize })
    } else {
        let declared = declared_by(bytes[0], bytes[1], bytes[2], bytes[3]);
        if declared > frame_ceiling() {
            Err(FrameError::TooLarge { declared: declared as usize, ceiling: frame_ceiling() })
        } else if bytes.len() - 4 < declared {
            Err(
                FrameError::Truncated {
                    expected: declared as usize,
                    read: (bytes.len() - 4) as usize,
                },
            )
        } else {
            Ok(bytes.subrange(4, 4 + declared as int))
        }
    }
}

/// Encode one frame. Refuses a body above the ceiling before it is sent, so an
/// oversized request never becomes an opaque failure on the far side.
pub fn encode(body: &[u8]) -> (r: Result<Vec<u8>, FrameError>)
    ensures
        body@.len() > frame_ceiling() ==> r == Err::<Vec<u8>, FrameError>(
            FrameError::TooLarge { declared: body@.len() as usize, ceiling: frame_ceiling() },
        ),
        body@.len() <= frame_ceiling() ==> (r matches Ok(frame) && frame@ == frame_of(body@)),
{
    let ceiling = ceiling();
    if body.len() > ceiling {
        return Err(FrameError::TooLarge { declared: body.len(), ceiling });
    }
    let n = body.len();
    let mut frame: Vec<u8> = Vec::new();
    frame.push(((n / 16_777_216) % 256) as u8);
    frame.push(((n / 65_536) % 256) as u8);
    frame.push(((n / 256) % 256) as u8);
    frame.push((n % 256) as u8);
    let mut i: usize = 0;
    while i < body.len()
        invariant
            i <= body@.len(),
            n == body@.len(),
            frame@ == be32(n as nat) + body@.take(i as int),
        decreases body@.len() - i,
    {
        proof {
            assert(body@.take(i + 1) =~= body@.take(i as int).push(body@[i as int]));
        }
        frame.push(body[i]);
        i = i + 1;
    }
    proof {
        assert(body@.take(body@.len() as int) =~= body@);
    }
    Ok(frame)
}

/// The length four header bytes declare, refused above the ceiling before
/// anything is allocated for it.
pub fn declared_length(header: &[u8]) -> (r: Result<usize, FrameError>)
    requires
        header@.len() == 4,
    ensures
        declared_by(header@[0], header@[1], header@[2], header@[3]) > frame_ceiling() ==> r
            == Err::<usize, FrameError>(
            FrameError::TooLarge {
                declared: declared_by(header@[0], header@[1], header@[2], header@[3]) as usize,
                ceiling: frame_ceiling(),
            },
        ),
        declared_by(header@[0], header@[1], header@[2], header@[3]) <= frame_ceiling() ==> r
            == Ok::<usize, FrameError>(
            declared_by(header@[0], header@[1], header@[2], header@[3]) as usize,
        ),
{
    let declared: u64 = (header[0] as u64) * 16_777_216 + (header[1] as u64) * 65_536
        + (header[2] as u64) * 256 + (header[3] as u64);
    let ceiling = ceiling();
    if declared > ceiling as u64 {
        return Err(FrameError::TooLarge { declared: declared as usize, ceiling });
    }
    Ok(declared as usize)
}

/// Read one frame from a stream that holds exactly these bytes: the header,
/// checked against the ceiling, then exactly the length it declares, or how
/// few of them arrived.
pub fn decode(bytes: &[u8]) -> (r: Result<Vec<u8>, FrameError>)
    ensures
        match frame_read(bytes@) {
            Ok(body) => r matches Ok(b) && b@ == body,
            Err(e) => r == Err::<Vec<u8>, FrameError>(e),
        },
{
    if bytes.len() < 4 {
        return Err(FrameError::Truncated { expected: 4, read: bytes.len() });
    }
    let header = crate::bytes::take_bytes(bytes, 0, 4);
    let declared = match declared_length(header.as_slice()) {
        Ok(d) => d,
        Err(e) => return Err(e),
    };
    if bytes.len() - 4 < declared {
        return Err(FrameError::Truncated { expected: declared, read: bytes.len() - 4 });
    }
    Ok(crate::bytes::take_bytes(bytes, 4, 4 + declared))
}

/// A frame round-trips: every body the ceiling admits reads back as itself.
pub proof fn a_frame_round_trips(body: Seq<u8>)
    requires
        body.len() <= frame_ceiling(),
    ensures
        frame_read(frame_of(body)) == Ok::<Seq<u8>, FrameError>(body),
{
    let n = body.len();
    let f = frame_of(body);
    assert(f[0] == be32(n)[0]);
    assert(f[1] == be32(n)[1]);
    assert(f[2] == be32(n)[2]);
    assert(f[3] == be32(n)[3]);
    assert(declared_by(f[0], f[1], f[2], f[3]) == n) by (nonlinear_arith)
        requires
            n <= 4_194_304,
            f[0] == ((n / 16_777_216) % 256) as u8,
            f[1] == ((n / 65_536) % 256) as u8,
            f[2] == ((n / 256) % 256) as u8,
            f[3] == (n % 256) as u8,
    ;
    assert(f.subrange(4, 4 + n as int) =~= body);
}

} // verus!
