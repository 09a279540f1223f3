//! What goes over the pipe.
use crate::frame;
use crate::frame::Frame;
use crate::json;
use crate::json::Json;
use crate::text;
use serde_json::Value;
use vstd::prelude::*;
use vstd::utf8::*;

verus! {

/// As many bytes are read for a header as it has.
pub proof fn law_header_len()
    ensures
        frame::HEADER_LEN == 8,
{
}

/// A header is eight bytes: four that make up the opcode, and four that make up
/// the length, in each case the least significant first.
pub proof fn law_header(opcode: u32, data_len: u32, bytes: Vec<u8>)
    requires
        call_ensures(frame::pack, (opcode, data_len), bytes),
    ensures
        bytes@.len() == 8,
        opcode == bytes@[0] + 0x100 * bytes@[1] + 0x1_0000 * bytes@[2] + 0x100_0000 * bytes@[3],
        data_len == bytes@[4] + 0x100 * bytes@[5] + 0x1_0000 * bytes@[6] + 0x100_0000 * bytes@[7],
{
    frame::law_unpack_of_pack(opcode, data_len, seq![]);
}

/// Eight bytes or more are read as a header, fewer are refused.
pub proof fn law_header_is_read(data: &[u8], fields: Result<(u32, u32), String>)
    requires
        call_ensures(frame::unpack, (data,), fields),
    ensures
        data@.len() < 8 <==> fields is Err,
        fields matches Err(message) ==> message@ == "Header too short"@,
        fields matches Ok((opcode, data_len)) ==> {
            &&& opcode == data@[0] + 0x100 * data@[1] + 0x1_0000 * data@[2] + 0x100_0000 * data@[3]
            &&& data_len == data@[4] + 0x100 * data@[5] + 0x1_0000 * data@[6] + 0x100_0000
                * data@[7]
        },
{
}

/// What is packed into a header is unpacked from it, whatever follows it.
pub proof fn law_header_is_read_back(
    opcode: u32,
    data_len: u32,
    bytes: Vec<u8>,
    data: &[u8],
    fields: Result<(u32, u32), String>,
)
    requires
        call_ensures(frame::pack, (opcode, data_len), bytes),
        call_ensures(frame::unpack, (data,), fields),
        bytes@.is_prefix_of(data@),
    ensures
        fields == Ok::<(u32, u32), String>((opcode, data_len)),
{
    law_header(opcode, data_len, bytes);
    law_header_is_read(data, fields);
    assert forall|i: int| 0 <= i < 8 implies #[trigger] bytes@[i] == data@[i] by {}
}

/// A text is framed as its UTF-8 bytes, behind a header with the opcode given and
/// the number of those bytes, as far as 32 bits hold it.
pub proof fn law_text_is_framed(text: &str, opcode: u32, frame: Frame)
    requires
        call_ensures(frame::frame_text, (text, opcode), frame),
    ensures
        frame.body@ == encode_utf8(text@),
        frame.header@.len() == 8,
        opcode == frame.header@[0] + 0x100 * frame.header@[1] + 0x1_0000 * frame.header@[2]
            + 0x100_0000 * frame.header@[3],
        frame.body@.len() % 0x1_0000_0000 == frame.header@[4] + 0x100 * frame.header@[5] + 0x1_0000
            * frame.header@[6] + 0x100_0000 * frame.header@[7],
{
    let len = frame::stated_len(encode_utf8(text@).len());
    assert(frame@ == frame::text_frame(opcode, text@));
    frame::law_unpack_of_pack(opcode, len, seq![]);
}

/// A value is framed as its text is, and the text of the object without members
/// is a pair of braces.
pub proof fn law_value_is_framed(data: Value, opcode: u32, frame: Frame)
    requires
        call_ensures(frame::frame_json, (&data, opcode), frame),
    ensures
        frame.body@ == encode_utf8(json::json_text(json::value_json(data))),
        json::value_json(data) == Json::Object(Map::empty()) ==> frame.body@ == encode_utf8("{}"@),
        frame.header@.len() == 8,
        opcode == frame.header@[0] + 0x100 * frame.header@[1] + 0x1_0000 * frame.header@[2]
            + 0x100_0000 * frame.header@[3],
        frame.body@.len() % 0x1_0000_0000 == frame.header@[4] + 0x100 * frame.header@[5] + 0x1_0000
            * frame.header@[6] + 0x100_0000 * frame.header@[7],
{
    let text = json::json_text(json::value_json(data));
    let len = frame::stated_len(encode_utf8(text).len());
    assert(frame@ == frame::text_frame(opcode, text));
    frame::law_unpack_of_pack(opcode, len, seq![]);
}

/// A body is read exactly if it is UTF-8 and JSON, and then gives the value that
/// the text holds. The message otherwise says which of the two it is not.
pub proof fn law_body(body: &[u8], outcome: Result<Value, String>)
    requires
        call_ensures(frame::read_body, (body,), outcome),
    ensures
        !valid_utf8(body@) ==> (outcome matches Err(message) && message@ == "UTF-8 error: "@
            + text::utf8_error(body@)),
        valid_utf8(body@) ==> match json::json_parsed(decode_utf8(body@)) {
            Ok(json) => outcome matches Ok(value) && json::value_json(value) == json,
            Err(why) => outcome matches Err(message) && message@ == "JSON error: "@ + why,
        },
{
    assert(json::outcome_json(outcome) == frame::body_json(body@));
}

/// What is framed is read back: the opcode and the length from the header, and
/// the value from the body. The value may hold no decimals and may be nested 127
/// deep, and its text must be shorter than four gibibytes.
pub proof fn law_value_is_read_back(
    data: Value,
    opcode: u32,
    frame: Frame,
    header: &[u8],
    fields: Result<(u32, u32), String>,
    body: &[u8],
    outcome: Result<Value, String>,
)
    requires
        call_ensures(frame::frame_json, (&data, opcode), frame),
        call_ensures(frame::unpack, (header,), fields),
        call_ensures(frame::read_body, (body,), outcome),
        header@ == frame.header@,
        body@ == frame.body@,
        json::is_plain(json::value_json(data), 127),
        frame.body@.len() < 0x1_0000_0000,
    ensures
        fields matches Ok((read, length)) && read == opcode && length == frame.body@.len(),
        outcome matches Ok(value) && json::value_json(value) == json::value_json(data),
{
    law_value_is_framed(data, opcode, frame);
    law_header_is_read(header, fields);
    let stream = frame::frame_bytes(frame@) + Seq::<u8>::empty();
    assert(frame::received(stream)->Some_0.outcome == Ok::<Json, Seq<char>>(json::value_json(data)));
    assert(frame@.header =~= frame.header@);
    assert(forall|i: int| 0 <= i < 8 ==> stream[i] == #[trigger] frame.header@[i]);
    assert(stream.subrange(8, 8 + frame.body@.len() as int) =~= frame.body@);
    assert(json::outcome_json(outcome) == frame::body_json(body@));
}

} // verus!
