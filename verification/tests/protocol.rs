use latexfogel::protocol::{
    decode_frame, decode_input, encode_engine_error, encode_input, encode_success, mode_token_vec,
    FrameDecode,
};
use latexfogel::ImageWidth;

#[test]
fn success_round_trip_with_payload() {
    let png: Vec<u8> = vec![137, 80, 78, 71, 0, 255];
    let encoded = encode_success(false, &png);
    assert_eq!(encoded[0], 0);
    assert_eq!(encoded[1], 0);
    match decode_frame(&encoded) {
        FrameDecode::Success { overflow, png: decoded } => {
            assert!(!overflow);
            assert_eq!(decoded, png);
        }
        _ => panic!("expected success frame"),
    }
}

#[test]
fn success_round_trip_overflow_empty_payload() {
    let png: Vec<u8> = vec![];
    let encoded = encode_success(true, &png);
    assert_eq!(encoded, vec![0, 1]);
    match decode_frame(&encoded) {
        FrameDecode::Success { overflow, png: decoded } => {
            assert!(overflow);
            assert!(decoded.is_empty());
        }
        _ => panic!("expected success frame"),
    }
}

#[test]
fn engine_error_round_trip() {
    let message: Vec<u8> = b"Invalid LaTeX".to_vec();
    let encoded = encode_engine_error(&message);
    assert_eq!(encoded[0], 1);
    match decode_frame(&encoded) {
        FrameDecode::EngineFailure { message: decoded } => assert_eq!(decoded, message),
        _ => panic!("expected engine failure frame"),
    }
}

#[test]
fn output_shorter_than_two_bytes_is_malformed() {
    assert!(matches!(decode_frame(&vec![]), FrameDecode::Malformed));
    assert!(matches!(decode_frame(&vec![0]), FrameDecode::Malformed));
    assert!(matches!(decode_frame(&vec![1]), FrameDecode::Malformed));
}

#[test]
fn unknown_status_byte_is_malformed() {
    assert!(matches!(decode_frame(&vec![2, 0, 7]), FrameDecode::Malformed));
    assert!(matches!(decode_frame(&vec![255, 1]), FrameDecode::Malformed));
}

#[test]
fn nonzero_overflow_byte_reads_as_overflow() {
    match decode_frame(&vec![0, 7, 42]) {
        FrameDecode::Success { overflow, png } => {
            assert!(overflow);
            assert_eq!(png, vec![42]);
        }
        _ => panic!("expected success frame"),
    }
}

#[test]
fn mode_tokens() {
    assert_eq!(mode_token_vec(ImageWidth::Wide), b"wide".to_vec());
    assert_eq!(mode_token_vec(ImageWidth::Normal), b"normal".to_vec());
    assert_eq!(ImageWidth::Wide.arg_name(), "wide");
    assert_eq!(ImageWidth::Normal.arg_name(), "normal");
}

#[test]
fn input_frame_round_trip_wide() {
    let source = b"x^2 + y^2".to_vec();
    let framed = encode_input(ImageWidth::Wide, &source);
    assert_eq!(framed, b"wide\nx^2 + y^2".to_vec());
    let (mode, decoded) = decode_input(&framed).expect("frame decodes");
    assert_eq!(mode, ImageWidth::Wide);
    assert_eq!(decoded, source);
}

#[test]
fn input_frame_round_trip_normal_with_newlines_in_source() {
    let source = b"line one\nline two\n".to_vec();
    let framed = encode_input(ImageWidth::Normal, &source);
    let (mode, decoded) = decode_input(&framed).expect("frame decodes");
    assert_eq!(mode, ImageWidth::Normal);
    assert_eq!(decoded, source);
}

#[test]
fn input_frame_rejects_unknown_mode_token() {
    assert!(decode_input(&b"bogus\nsource".to_vec()).is_none());
    assert!(decode_input(&b"wide".to_vec()).is_none());
    assert!(decode_input(&b"".to_vec()).is_none());
}
