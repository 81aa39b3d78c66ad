use opus_player::codec::{
    check_created, error_kind, frame_len, get_opus_error, quantized_gain, CodecErrorKind,
    DecodeStage, OpusError,
};

#[test]
fn frame_len_mono_48k() {
    assert_eq!(frame_len(48000, 1), 960);
}

#[test]
fn frame_len_stereo_and_other_rates() {
    assert_eq!(frame_len(48000, 2), 1920);
    assert_eq!(frame_len(44100, 2), 1764);
    assert_eq!(frame_len(8000, 1), 160);
    assert_eq!(frame_len(16000, 6), 1920);
}

#[test]
fn frame_len_largest_inputs() {
    assert_eq!(frame_len(u32::MAX, u32::MAX), (20u64 * u32::MAX as u64 / 1000) * u32::MAX as u64);
}

#[test]
fn error_table_known_codes() {
    let expected = [
        (0, CodecErrorKind::Success, "success"),
        (-1, CodecErrorKind::BadArgument, "invalid argument"),
        (-2, CodecErrorKind::BufferTooSmall, "buffer too small"),
        (-3, CodecErrorKind::InternalError, "internal error"),
        (-4, CodecErrorKind::InvalidPacket, "corrupted stream"),
        (-5, CodecErrorKind::Unimplemented, "request not implemented"),
        (-6, CodecErrorKind::InvalidState, "invalid state"),
        (-7, CodecErrorKind::AllocationFailed, "memory allocation failed"),
    ];
    for (code, kind, text) in expected {
        assert_eq!(error_kind(code), kind);
        let e: OpusError = get_opus_error(code);
        assert_eq!(e.error, code);
        assert_eq!(e.message, text);
        assert_eq!(e.kind(), kind);
    }
}

#[test]
fn error_table_unknown_codes() {
    for code in [-8, -100, 1, 5, i32::MIN, i32::MAX] {
        let e = get_opus_error(code);
        assert_eq!(e.error, code);
        assert_eq!(e.message, "unknown error");
        assert_eq!(e.kind(), CodecErrorKind::Unknown);
    }
}

#[test]
fn creation_result_codes() {
    assert!(check_created(0).is_ok());
    let e = check_created(-1).unwrap_err();
    assert_eq!(e.error, -1);
    assert_eq!(e.message, "invalid argument");
    assert!(check_created(-7).is_err());
}

#[test]
fn decode_stage_settings() {
    let d = DecodeStage::new(48000, 2).unwrap();
    assert_eq!(d.sample_rate(), 48000);
    assert_eq!(d.channels(), 2);
    assert_eq!(d.frame_len(), 1920);
    let buf = d.output_buffer();
    assert_eq!(buf.len(), 1920);
    assert!(buf.iter().all(|s| *s == 0));
}

#[test]
fn decode_stage_rejects_zero() {
    assert!(DecodeStage::new(0, 1).is_none());
    assert!(DecodeStage::new(48000, 0).is_none());
}

#[test]
fn decoded_frame_has_nominal_length() {
    let d = DecodeStage::new(24000, 2).unwrap();
    let mut buf = d.output_buffer();
    buf[0] = 5;
    buf[959] = -5;
    let v = d.finish(480, buf.clone()).unwrap();
    assert_eq!(v.len(), 960);
    assert_eq!(v, buf);
}

#[test]
fn decode_failure_carries_code_and_reason() {
    let d = DecodeStage::new(48000, 1).unwrap();
    let e = d.finish(-4, d.output_buffer()).unwrap_err();
    assert_eq!(e.error, -4);
    assert_eq!(e.message, "corrupted stream");
    let e = d.finish(-42, d.output_buffer()).unwrap_err();
    assert_eq!(e.message, "unknown error");
}

#[test]
fn gain_quantization_and_clamp() {
    assert_eq!(quantized_gain(0), 0);
    assert_eq!(quantized_gain(-40), -10240);
    assert_eq!(quantized_gain(20), 5120);
    assert_eq!(quantized_gain(127), 32512);
    assert_eq!(quantized_gain(128), i16::MAX);
    assert_eq!(quantized_gain(-128), i16::MIN);
    assert_eq!(quantized_gain(-129), i16::MIN);
    assert_eq!(quantized_gain(i32::MAX), i16::MAX);
    assert_eq!(quantized_gain(i32::MIN), i16::MIN);
}

fn decibels_of_scale(scale: i16) -> i32 {
    (20.0 * (scale as f64 / 100.0).log10()) as i32
}

#[test]
fn gain_for_volume_scales() {
    assert_eq!(quantized_gain(decibels_of_scale(100)), 0);
    for scale in 1..=1000i16 {
        let db = decibels_of_scale(scale);
        let q = quantized_gain(db) as i32;
        assert_eq!(q, db * 256);
        assert!(q >= i16::MIN as i32 && q <= i16::MAX as i32);
    }
}
