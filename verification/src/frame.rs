//! The frames of Discord's local protocol: a header of eight bytes, which holds
//! an opcode and the length of the body, and a body of JSON text.
use crate::json;
use crate::json::Json;
use crate::text;
use serde_json::Value;
use vstd::prelude::*;
use vstd::string::StringExecFns;
use vstd::utf8::*;

verus! {

/// The length of a frame's header in bytes.
pub const HEADER_LEN: usize = 8;

/// The four bytes of `x`, the least significant first.
pub open spec fn le_bytes(x: u32) -> Seq<u8> {
    seq![
        (x % 256) as u8,
        (x / 256 % 256) as u8,
        (x / 65536 % 256) as u8,
        (x / 16777216) as u8,
    ]
}

/// The number whose bytes are `bytes[at..at + 4]`, the least significant first.
pub open spec fn le_value(bytes: Seq<u8>, at: int) -> int {
    bytes[at] + 256 * bytes[at + 1] + 65536 * bytes[at + 2] + 16777216 * bytes[at + 3]
}

/// The header of a frame.
pub open spec fn header_bytes(opcode: u32, data_len: u32) -> Seq<u8> {
    le_bytes(opcode) + le_bytes(data_len)
}

/// The length that a header states for a body of `len` bytes: what is left of
/// it in 32 bits.
pub open spec fn stated_len(len: nat) -> u32 {
    (len % 0x1_0000_0000) as u32
}

/// A frame to be sent: its header is written first, then its body.
#[derive(Debug)]
pub struct Frame {
    pub header: Vec<u8>,
    pub body: Vec<u8>,
}

/// What a frame holds.
pub struct FrameView {
    pub header: Seq<u8>,
    pub body: Seq<u8>,
}

impl View for Frame {
    type V = FrameView;

    open spec fn view(&self) -> FrameView {
        FrameView { header: self.header@, body: self.body@ }
    }
}

/// The frame that carries `text`.
pub open spec fn text_frame(opcode: u32, text: Seq<char>) -> FrameView {
    FrameView {
        header: header_bytes(opcode, stated_len(encode_utf8(text).len())),
        body: encode_utf8(text),
    }
}

/// The frame that carries the text of `data`.
pub open spec fn json_frame(opcode: u32, data: Json) -> FrameView {
    text_frame(opcode, json::json_text(data))
}

/// What a body says: the text must be UTF-8, and it must be JSON.
pub open spec fn body_json(body: Seq<u8>) -> Result<Json, Seq<char>> {
    if !valid_utf8(body) {
        Err("UTF-8 error: "@ + text::utf8_error(body))
    } else {
        match json::json_parsed(decode_utf8(body)) {
            Ok(json) => Ok(json),
            Err(message) => Err("JSON error: "@ + message),
        }
    }
}

/// The bytes of a frame in the order in which they are sent.
pub open spec fn frame_bytes(frame: FrameView) -> Seq<u8> {
    frame.header + frame.body
}

/// The bytes of frames that are sent one after the other.
pub open spec fn stream_of(frames: Seq<FrameView>) -> Seq<u8>
    decreases frames.len(),
{
    if frames.len() == 0 {
        seq![]
    } else {
        frame_bytes(frames[0]) + stream_of(frames.drop_first())
    }
}

/// What comes of reading a frame.
pub struct Received {
    pub opcode: u32,
    /// What the body says.
    pub outcome: Result<Json, Seq<char>>,
    /// The bytes that were not read.
    pub rest: Seq<u8>,
}

/// Reads a frame off a stream of bytes: a header, and then as many bytes as it
/// states. There may not be so many.
pub open spec fn received(stream: Seq<u8>) -> Option<Received> {
    let end = HEADER_LEN + le_value(stream, 4);
    if stream.len() < HEADER_LEN || stream.len() < end {
        None
    } else {
        Some(
            Received {
                opcode: le_value(stream, 0) as u32,
                outcome: body_json(stream.subrange(HEADER_LEN as int, end)),
                rest: stream.skip(end),
            },
        )
    }
}

/// Reads this many frames off a stream of bytes: the opcode of each and what its
/// body says, and the bytes that were not read. Each of them must be there, and
/// be JSON.
pub open spec fn received_all(stream: Seq<u8>, count: nat) -> Option<(Seq<(u32, Json)>, Seq<u8>)>
    decreases count,
{
    if count == 0 {
        Some((seq![], stream))
    } else {
        match received(stream) {
            Some(Received { opcode, outcome: Ok(json), rest }) => match received_all(
                rest,
                (count - 1) as nat,
            ) {
                Some((later, left)) => Some((seq![(opcode, json)] + later, left)),
                None => None,
            },
            _ => None,
        }
    }
}

/// Whatever follows the frame, this opcode and this value are read from it, and
/// no byte but its own is used up.
pub open spec fn carries(frame: FrameView, opcode: u32, json: Json) -> bool {
    forall|rest: Seq<u8>| #[trigger]
        received(frame_bytes(frame) + rest) == Some(Received { opcode, outcome: Ok(json), rest })
}

fn push_le(bytes: &mut Vec<u8>, x: u32)
    ensures
        final(bytes)@ == old(bytes)@ + le_bytes(x),
{
    bytes.push((x % 256) as u8);
    bytes.push((x / 256 % 256) as u8);
    bytes.push((x / 65536 % 256) as u8);
    bytes.push((x / 16777216) as u8);
}

/// The header of a frame with this opcode and a body of this length.
pub fn pack(opcode: u32, data_len: u32) -> (bytes: Vec<u8>)
    ensures
        bytes@ == header_bytes(opcode, data_len),
{
    let mut bytes: Vec<u8> = Vec::with_capacity(HEADER_LEN);
    push_le(&mut bytes, opcode);
    push_le(&mut bytes, data_len);
    bytes
}

fn read_le(bytes: &[u8], at: usize) -> (x: u32)
    requires
        at + 4 <= bytes@.len(),
    ensures
        x == le_value(bytes@, at as int),
{
    bytes[at] as u32 + 256 * (bytes[at + 1] as u32) + 65536 * (bytes[at + 2] as u32) + 16777216 * (
    bytes[at + 3] as u32)
}

/// The opcode and the body's length that a header states. Bytes after the
/// header are passed over.
pub fn unpack(data: &[u8]) -> (fields: Result<(u32, u32), String>)
    ensures
        data@.len() < HEADER_LEN ==> (fields matches Err(message) && message@
            == "Header too short"@),
        data@.len() >= HEADER_LEN ==> (fields matches Ok((opcode, length)) && opcode == le_value(
            data@,
            0,
        ) && length == le_value(data@, 4)),
{
    if data.len() < HEADER_LEN {
        return Err("Header too short".to_owned());
    }
    Ok((read_le(data, 0), read_le(data, 4)))
}

/// The frame that carries a text. The length in the header is the number of the
/// text's bytes, in 32 bits.
pub fn frame_text(text: &str, opcode: u32) -> (frame: Frame)
    ensures
        frame@ == text_frame(opcode, text@),
{
    let body: Vec<u8> = vstd::slice::slice_to_vec(text.as_bytes());
    let len: u64 = body.len() as u64;
    assert((len as u32) == len % 0x1_0000_0000) by (bit_vector);
    Frame { header: pack(opcode, #[verifier::truncate] (len as u32)), body }
}

/// The frame that carries a JSON value. The value is read back from it if it
/// holds no decimals, is not nested too deep and has a text shorter than four
/// gibibytes.
pub fn frame_json(data: &Value, opcode: u32) -> (frame: Frame)
    ensures
        frame@ == json_frame(opcode, json::value_json(*data)),
        json::value_json(*data) == Json::Object(json::no_fields()) ==> frame@ == text_frame(opcode, "{}"@),
        json::is_plain(json::value_json(*data), json::READABLE_DEPTH as nat) && frame@.body.len()
            < 0x1_0000_0000 ==> carries(frame@, opcode, json::value_json(*data)),
{
    let text = json::write_json(data);
    proof {
        if json::reads_as(text@, json::value_json(*data)) && encode_utf8(text@).len()
            < 0x1_0000_0000 {
            assert forall|rest: Seq<u8>| #[trigger]
                received(frame_bytes(text_frame(opcode, text@)) + rest) == Some(
                    Received { opcode, outcome: Ok(json::value_json(*data)), rest },
                ) by {
                law_frame_is_read_back(opcode, text@, rest);
            }
        }
    }
    frame_text(text.as_str(), opcode)
}

/// Reads the body of a frame.
pub fn read_body(body: &[u8]) -> (outcome: Result<Value, String>)
    ensures
        json::outcome_json(outcome) == body_json(body@),
{
    match text::utf8_text(body) {
        Err(message) => Err("UTF-8 error: ".to_owned().concat(message.as_str())),
        Ok(text) => match json::read_json(text) {
            Ok(value) => Ok(value),
            Err(message) => Err("JSON error: ".to_owned().concat(message.as_str())),
        },
    }
}

/// A header that `pack` makes says, to `unpack`, what went into it, whatever
/// bytes follow it.
pub proof fn law_unpack_of_pack(opcode: u32, data_len: u32, rest: Seq<u8>)
    ensures
        header_bytes(opcode, data_len).len() == HEADER_LEN,
        le_value(header_bytes(opcode, data_len) + rest, 0) == opcode,
        le_value(header_bytes(opcode, data_len) + rest, 4) == data_len,
{
}

proof fn lemma_le_bytes_of_value(bytes: Seq<u8>, at: int, x: u32)
    requires
        0 <= at,
        at + 4 <= bytes.len(),
        x == le_value(bytes, at),
    ensures
        le_bytes(x) == bytes.subrange(at, at + 4),
{
    let (a, b, c, d) = (bytes[at], bytes[at + 1], bytes[at + 2], bytes[at + 3]);
    assert(x / 256 == b + 256 * c + 65536 * d);
    assert(x / 65536 == c + 256 * d);
    assert(x / 16777216 == d);
    assert(le_bytes(x) =~= bytes.subrange(at, at + 4));
}

/// The fields that `unpack` reads from a header pack into the same eight bytes.
pub proof fn law_pack_of_unpack(data: Seq<u8>, opcode: u32, data_len: u32)
    requires
        data.len() >= HEADER_LEN,
        opcode == le_value(data, 0),
        data_len == le_value(data, 4),
    ensures
        header_bytes(opcode, data_len) == data.take(HEADER_LEN as int),
{
    lemma_le_bytes_of_value(data, 0, opcode);
    lemma_le_bytes_of_value(data, 4, data_len);
    assert(data.subrange(0, 4) + data.subrange(4, 8) =~= data.take(HEADER_LEN as int));
}

/// A frame is read back as it was sent, if its body is shorter than four
/// gibibytes: the opcode and what the text says come out, and exactly the bytes
/// of the frame are used up.
pub proof fn law_frame_is_read_back(opcode: u32, text: Seq<char>, rest: Seq<u8>)
    requires
        encode_utf8(text).len() < 0x1_0000_0000,
    ensures
        received(frame_bytes(text_frame(opcode, text)) + rest) == Some(
            Received {
                opcode,
                outcome: match json::json_parsed(text) {
                    Ok(json) => Ok(json),
                    Err(message) => Err("JSON error: "@ + message),
                },
                rest,
            },
        ),
{
    let frame = text_frame(opcode, text);
    let stream = frame_bytes(frame) + rest;
    let end = HEADER_LEN + frame.body.len() as int;
    law_unpack_of_pack(opcode, stated_len(frame.body.len()), frame.body + rest);
    assert(frame.header + (frame.body + rest) =~= stream);
    assert(stream.subrange(HEADER_LEN as int, end) =~= frame.body);
    assert(stream.skip(end) =~= rest);
    encode_utf8_valid_utf8(text);
    encode_utf8_decode_utf8(text);
}

/// Frames that follow one another are read back one by one, in the order in
/// which they were sent, and the bytes behind the last are left, if each of them
/// is read back alone.
pub proof fn law_frames_are_read_back(
    frames: Seq<FrameView>,
    messages: Seq<(u32, Json)>,
    rest: Seq<u8>,
)
    requires
        frames.len() == messages.len(),
    ensures
        (forall|i: int|
            0 <= i < frames.len() ==> carries(#[trigger] frames[i], messages[i].0, messages[i].1))
            ==> received_all(stream_of(frames) + rest, frames.len()) == Some((messages, rest)),
    decreases frames.len(),
{
    if forall|i: int|
        0 <= i < frames.len() ==> carries(#[trigger] frames[i], messages[i].0, messages[i].1) {
        if frames.len() == 0 {
            assert(stream_of(frames) + rest =~= rest);
            assert(messages =~= seq![]);
        } else {
            let later = stream_of(frames.drop_first()) + rest;
            assert forall|i: int| 0 <= i < frames.drop_first().len() implies carries(
                #[trigger] frames.drop_first()[i],
                messages.drop_first()[i].0,
                messages.drop_first()[i].1,
            ) by {
                assert(frames.drop_first()[i] == frames[i + 1]);
            }
            law_frames_are_read_back(frames.drop_first(), messages.drop_first(), rest);
            assert(stream_of(frames) + rest =~= frame_bytes(frames[0]) + later);
            assert(carries(frames[0], messages[0].0, messages[0].1));
            assert(messages =~= seq![messages[0]] + messages.drop_first());
        }
    }
}

} // verus!
