//! Wire protocol: a 4-byte little-endian length prefix followed by that many
//! bytes of a serialized generation request.  The server reads exactly one
//! request per connection and never replies.
use vstd::prelude::*;

verus! {

/// The single request variant the wire protocol carries.
#[derive(Debug, Clone, PartialEq, Eq, Structural)]
pub enum RequestType {
    GenerateVoice,
}

/// A generation request as decoded from the wire: the text to synthesize,
/// where the client wants the artifact, an optional cache directory override,
/// and the configuration file governing the request.
#[derive(Debug, Clone)]
pub struct VoiceRequest {
    pub request_type: RequestType,
    pub text: String,
    pub output_path: String,
    pub cache_dir: Option<String>,
    pub config_path: String,
}

/// Outcome report for a processed request.  Nothing on the wire carries it
/// (the protocol is fire-and-forget); it exists for local bookkeeping.
#[derive(Debug, Clone)]
pub struct VoiceResponse {
    pub success: bool,
    pub message: String,
    pub cache_path: Option<String>,
}

/// Little-endian interpretation of four bytes, least significant first.
pub open spec fn le32_spec(b0: u8, b1: u8, b2: u8, b3: u8) -> int {
    b0 + 256 * (b1 + 256 * (b2 + 256 * (b3 as int)))
}

/// Decodes the wire protocol's 4-byte little-endian length prefix.
pub fn le32_decode(b: &[u8; 4]) -> (r: u32)
    ensures
        r == le32_spec(b[0], b[1], b[2], b[3]),
{
    (b[0] as u32) + 256 * ((b[1] as u32) + 256 * ((b[2] as u32) + 256 * (b[3] as u32)))
}

/// The length a frame's header declares for its body.
pub open spec fn declared_len(buf: Seq<u8>) -> int
    recommends
        buf.len() >= 4,
{
    le32_spec(buf[0], buf[1], buf[2], buf[3])
}

/// A byte stream holds a complete frame when the 4-byte header is present and
/// at least as many body bytes follow as the header declares.
pub open spec fn frame_complete(buf: Seq<u8>) -> bool {
    buf.len() >= 4 && buf.len() >= 4 + declared_len(buf)
}

/// The body of a complete frame: exactly the declared number of bytes after
/// the header.  Trailing bytes beyond the declared length are ignored, as a
/// stream read of the declared length would leave them unread.
pub open spec fn frame_body(buf: Seq<u8>) -> Seq<u8>
    recommends
        frame_complete(buf),
{
    buf.subrange(4, 4 + declared_len(buf))
}

/// Why a received byte stream does not hold a complete frame.
#[derive(Debug, Clone, PartialEq, Eq, Structural)]
pub enum FrameError {
    /// Fewer than four bytes arrived: the length prefix itself is incomplete.
    ShortHeader,
    /// The header declares more body bytes than actually arrived.
    ShortBody,
}

/// Checks the bytes received on a connection against the framing rules and
/// extracts the request body.  A short read (the timeout struck before the
/// declared bytes arrived) is reported as an error and nothing is extracted.
pub fn decode_frame(buf: &Vec<u8>) -> (r: Result<Vec<u8>, FrameError>)
    ensures
        r is Ok <==> frame_complete(buf@),
        r matches Ok(body) ==> body@ == frame_body(buf@),
        r matches Err(e) ==> (e == FrameError::ShortHeader <==> buf@.len() < 4),
{
    if buf.len() < 4 {
        return Err(FrameError::ShortHeader);
    }
    let header: [u8; 4] = [buf[0], buf[1], buf[2], buf[3]];
    let len = le32_decode(&header) as usize;
    if buf.len() < 4 || buf.len() - 4 < len {
        return Err(FrameError::ShortBody);
    }
    let mut body: Vec<u8> = Vec::new();
    let mut i: usize = 0;
    while i < len
        invariant
            i <= len,
            4 + len <= buf@.len(),
            buf@.len() <= usize::MAX,
            len == declared_len(buf@),
            body@ == buf@.subrange(4, 4 + i),
        decreases len - i,
    {
        body.push(buf[4 + i]);
        proof {
            assert(body@ =~= buf@.subrange(4, 4 + (i + 1)));
        }
        i = i + 1;
    }
    proof {
        assert(body@ =~= frame_body(buf@));
    }
    Ok(body)
}

/// Frames a serialized request body for the wire: the body's length as a
/// 4-byte little-endian prefix, then the body itself.
pub fn encode_frame(body: &Vec<u8>) -> (r: Vec<u8>)
    requires
        body@.len() <= u32::MAX,
    ensures
        r@.len() == 4 + body@.len(),
        declared_len(r@) == body@.len(),
        frame_body(r@) == body@,
        frame_complete(r@),
{
    let n = body.len() as u32;
    let mut out: Vec<u8> = Vec::new();
    out.push((n % 256) as u8);
    out.push((n / 256 % 256) as u8);
    out.push((n / 65536 % 256) as u8);
    out.push((n / 16777216) as u8);
    assert(le32_spec(out@[0], out@[1], out@[2], out@[3]) == n) by (nonlinear_arith)
        requires
            out@[0] == n % 256,
            out@[1] == n / 256 % 256,
            out@[2] == n / 65536 % 256,
            out@[3] == n / 16777216,
    ;
    let mut i: usize = 0;
    let len = body.len();
    while i < len
        invariant
            i <= len,
            len == body@.len(),
            out@.len() == 4 + i,
            declared_len(out@) == len,
            out@.subrange(4, out@.len() as int) == body@.subrange(0, i as int),
        decreases len - i,
    {
        out.push(body[i]);
        proof {
            assert(out@.subrange(4, out@.len() as int) =~= body@.subrange(0, i + 1));
        }
        i = i + 1;
    }
    proof {
        assert(body@.subrange(0, body@.len() as int) =~= body@);
        assert(frame_body(out@) =~= body@);
    }
    out
}

/// Round trip: a frame built from a body decodes back to exactly that body.
/// Every byte stream with the declared length prefix in front of the body
/// is a complete frame whose body is the original.
pub proof fn lemma_frame_round_trip(buf: Seq<u8>, body: Seq<u8>)
    requires
        body.len() <= u32::MAX,
        buf.len() == 4 + body.len(),
        declared_len(buf) == body.len(),
        buf.subrange(4, buf.len() as int) == body,
    ensures
        frame_complete(buf),
        frame_body(buf) == body,
{
    assert(frame_body(buf) =~= body);
}

} // verus!
