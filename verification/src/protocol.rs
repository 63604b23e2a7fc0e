//! The byte-level protocol between the orchestrator and the renderer
//! subprocess.
//!
//! Output framing (renderer to orchestrator): the first byte is a status
//! flag. Status `0x00` means success; the second byte then tells whether the
//! rendered content overflowed its normal bounds, and all remaining bytes are
//! the raw image payload. Status `0x01` means the engine rejected the input;
//! all remaining bytes are a human-readable description. Output shorter than
//! two bytes, or with an unknown status byte, is a framing violation.
//!
//! Input framing (orchestrator to renderer): a newline-terminated mode token
//! followed immediately by the raw source payload.
use crate::bytes::{is_prefix_of, push_bytes, starts_with_bytes, sub_bytes};
use crate::ImageWidth;
use vstd::prelude::*;

verus! {

/// A decoded renderer output frame.
pub enum FrameDecode {
    /// The engine produced an image; `overflow` tells whether the content
    /// overran its normal bounds.
    Success { overflow: bool, png: Vec<u8> },
    /// The engine rejected the input with a message for the user.
    EngineFailure { message: Vec<u8> },
    /// The output did not follow the framing.
    Malformed,
}

/// The mathematical model of a decoded frame.
pub enum FrameModel {
    Success { overflow: bool, png: Seq<u8> },
    EngineFailure { message: Seq<u8> },
    Malformed,
}

impl View for FrameDecode {
    type V = FrameModel;

    open spec fn view(&self) -> FrameModel {
        match self {
            FrameDecode::Success { overflow, png } => FrameModel::Success {
                overflow: *overflow,
                png: png@,
            },
            FrameDecode::EngineFailure { message } => FrameModel::EngineFailure {
                message: message@,
            },
            FrameDecode::Malformed => FrameModel::Malformed,
        }
    }
}

/// The encoded frame reporting a successful render.
pub open spec fn success_frame(overflow: bool, png: Seq<u8>) -> Seq<u8> {
    seq![0u8, if overflow { 1u8 } else { 0u8 }] + png
}

/// The encoded frame reporting an engine-level failure.
pub open spec fn engine_error_frame(message: Seq<u8>) -> Seq<u8> {
    seq![1u8] + message
}

/// What decoding an output stream yields. The status byte is resolved before
/// any payload byte is interpreted.
pub open spec fn decode_frame_spec(out: Seq<u8>) -> FrameModel {
    if out.len() < 2 {
        FrameModel::Malformed
    } else if out[0] == 0 {
        FrameModel::Success { overflow: out[1] != 0, png: out.subrange(2, out.len() as int) }
    } else if out[0] == 1 {
        FrameModel::EngineFailure { message: out.subrange(1, out.len() as int) }
    } else {
        FrameModel::Malformed
    }
}

/// Encodes a successful render: status byte, overflow byte, raw image.
pub fn encode_success(overflow: bool, png: &Vec<u8>) -> (r: Vec<u8>)
    ensures
        r@ == success_frame(overflow, png@),
{
    let mut r: Vec<u8> = Vec::new();
    r.push(0u8);
    r.push(if overflow { 1u8 } else { 0u8 });
    push_bytes(&mut r, png);
    proof {
        assert(r@ =~= success_frame(overflow, png@));
    }
    r
}

/// Encodes an engine-level failure: status byte, then the message bytes.
pub fn encode_engine_error(message: &Vec<u8>) -> (r: Vec<u8>)
    ensures
        r@ == engine_error_frame(message@),
{
    let mut r: Vec<u8> = Vec::new();
    r.push(1u8);
    push_bytes(&mut r, message);
    proof {
        assert(r@ =~= engine_error_frame(message@));
    }
    r
}

/// Decodes the renderer's output stream.
pub fn decode_frame(out: &Vec<u8>) -> (r: FrameDecode)
    ensures
        r@ == decode_frame_spec(out@),
{
    if out.len() < 2 {
        return FrameDecode::Malformed;
    }
    let status = out[0];
    if status == 0 {
        let overflow = out[1] != 0;
        let png = sub_bytes(out, 2, out.len());
        FrameDecode::Success { overflow, png }
    } else if status == 1 {
        let message = sub_bytes(out, 1, out.len());
        FrameDecode::EngineFailure { message }
    } else {
        FrameDecode::Malformed
    }
}

/// Encoding a successful render and decoding it yields back the identical
/// image bytes and overflow flag, for either flag value and any payload.
pub proof fn lemma_success_round_trip(overflow: bool, png: Seq<u8>)
    ensures
        decode_frame_spec(success_frame(overflow, png)) == (FrameModel::Success { overflow, png }),
{
    let f = success_frame(overflow, png);
    assert(f[0] == 0);
    assert(f[1] == if overflow { 1u8 } else { 0u8 });
    assert((f[1] != 0) == overflow);
    assert(f.subrange(2, f.len() as int) =~= png);
}

/// Encoding an engine failure and decoding it yields back the identical
/// message, as long as the message is not empty (a one-byte frame is below
/// the two-byte framing minimum).
pub proof fn lemma_engine_error_round_trip(message: Seq<u8>)
    requires
        message.len() >= 1,
    ensures
        decode_frame_spec(engine_error_frame(message)) == (FrameModel::EngineFailure { message }),
{
    let f = engine_error_frame(message);
    assert(f[0] == 1);
    assert(f.subrange(1, f.len() as int) =~= message);
}

/// The mode token for a width variant, as bytes: `wide` or `normal`.
pub open spec fn mode_token(mode: ImageWidth) -> Seq<u8> {
    match mode {
        ImageWidth::Wide => seq![119u8, 105u8, 100u8, 101u8],  // "wide"
        ImageWidth::Normal => seq![110u8, 111u8, 114u8, 109u8, 97u8, 108u8],  // "normal"
    }
}

/// The mode token followed by the terminating newline.
pub open spec fn mode_line(mode: ImageWidth) -> Seq<u8> {
    mode_token(mode) + seq![10u8]
}

/// The encoded input stream: mode line, then the raw source.
pub open spec fn input_frame(mode: ImageWidth, source: Seq<u8>) -> Seq<u8> {
    mode_line(mode) + source
}

/// The mode token for `mode`, as bytes.
pub fn mode_token_vec(mode: ImageWidth) -> (r: Vec<u8>)
    ensures
        r@ == mode_token(mode),
{
    let mut r: Vec<u8> = Vec::new();
    match mode {
        ImageWidth::Wide => {
            r.push(119u8);  // 'w'
            r.push(105u8);  // 'i'
            r.push(100u8);  // 'd'
            r.push(101u8);  // 'e'
        },
        ImageWidth::Normal => {
            r.push(110u8);  // 'n'
            r.push(111u8);  // 'o'
            r.push(114u8);  // 'r'
            r.push(109u8);  // 'm'
            r.push(97u8);  // 'a'
            r.push(108u8);  // 'l'
        },
    }
    proof {
        assert(r@ =~= mode_token(mode));
    }
    r
}

/// Encodes the renderer's input stream: the mode line, then the source.
pub fn encode_input(mode: ImageWidth, source: &Vec<u8>) -> (r: Vec<u8>)
    ensures
        r@ == input_frame(mode, source@),
{
    let mut r = mode_token_vec(mode);
    r.push(10u8);
    push_bytes(&mut r, source);
    proof {
        assert(r@ =~= input_frame(mode, source@));
    }
    r
}

/// What decoding an input stream yields: the width variant named by the mode
/// line, and everything after the newline as the source.
pub open spec fn decode_input_spec(input: Seq<u8>) -> Option<(ImageWidth, Seq<u8>)> {
    if is_prefix_of(mode_line(ImageWidth::Wide), input) {
        Some((ImageWidth::Wide, input.subrange(5, input.len() as int)))
    } else if is_prefix_of(mode_line(ImageWidth::Normal), input) {
        Some((ImageWidth::Normal, input.subrange(7, input.len() as int)))
    } else {
        None
    }
}

/// Decodes the renderer's input stream into the width variant and the source.
pub fn decode_input(input: &Vec<u8>) -> (r: Option<(ImageWidth, Vec<u8>)>)
    ensures
        match r {
            Some(p) => decode_input_spec(input@) == Some((p.0, p.1@)),
            None => decode_input_spec(input@) is None,
        },
{
    let mut wide_line: Vec<u8> = mode_token_vec(ImageWidth::Wide);
    wide_line.push(10u8);
    proof {
        assert(wide_line@ =~= mode_line(ImageWidth::Wide));
    }
    if starts_with_bytes(input, &wide_line) {
        let source = sub_bytes(input, 5, input.len());
        return Some((ImageWidth::Wide, source));
    }
    let mut normal_line: Vec<u8> = mode_token_vec(ImageWidth::Normal);
    normal_line.push(10u8);
    proof {
        assert(normal_line@ =~= mode_line(ImageWidth::Normal));
    }
    if starts_with_bytes(input, &normal_line) {
        let source = sub_bytes(input, 7, input.len());
        return Some((ImageWidth::Normal, source));
    }
    None
}

/// Framing the renderer's input and decoding it yields back the identical
/// width variant and source, for either variant and any source bytes.
pub proof fn lemma_input_round_trip(mode: ImageWidth, source: Seq<u8>)
    ensures
        decode_input_spec(input_frame(mode, source)) == Some((mode, source)),
{
    let f = input_frame(mode, source);
    match mode {
        ImageWidth::Wide => {
            assert(f.subrange(0, 5) =~= mode_line(ImageWidth::Wide));
            assert(f.subrange(5, f.len() as int) =~= source);
        },
        ImageWidth::Normal => {
            assert(f[0] == 110);
            assert(!is_prefix_of(mode_line(ImageWidth::Wide), f)) by {
                if is_prefix_of(mode_line(ImageWidth::Wide), f) {
                    assert(f.subrange(0, 5)[0] == f[0]);
                }
            }
            assert(f.subrange(0, 7) =~= mode_line(ImageWidth::Normal));
            assert(f.subrange(7, f.len() as int) =~= source);
        },
    }
}

} // verus!
