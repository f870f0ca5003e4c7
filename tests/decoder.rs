use videostream::decoder::{
    decode_result, DecodeReturnCode, DecodeStatus, Decoder, DecoderInputCodec, DEC_ERROR,
    DEC_FRAME_DECODED, DEC_INIT_INFO,
};
use videostream::encoder::{Encoder, VSLEncoderProfileEnum, VSLRect};
use videostream::error::VslError;
use videostream::frame::Frame;

#[test]
fn error_bit_takes_precedence() {
    assert_eq!(decode_result(DEC_ERROR | DEC_FRAME_DECODED), Err(VslError::Decode));
    assert_eq!(
        decode_result(DEC_ERROR | DEC_FRAME_DECODED | DEC_INIT_INFO),
        Err(VslError::Decode)
    );
    let dec = Decoder::create(DecoderInputCodec::H264, 30);
    let frame = Frame::new(16, 16, 0, "NV12").unwrap();
    assert!(matches!(
        dec.decode_frame(DEC_ERROR | DEC_FRAME_DECODED, 100, Some(frame)),
        Err(VslError::Decode)
    ));
}

#[test]
fn status_words() {
    assert_eq!(decode_result(0).unwrap().codes(), vec![DecodeReturnCode::Success]);
    assert_eq!(
        decode_result(DEC_FRAME_DECODED).unwrap().codes(),
        vec![DecodeReturnCode::FrameDecoded]
    );
    assert_eq!(
        decode_result(DEC_INIT_INFO).unwrap().codes(),
        vec![DecodeReturnCode::Initialized]
    );
    // Both facts are kept where both bits are set.
    assert_eq!(
        decode_result(DEC_INIT_INFO | DEC_FRAME_DECODED).unwrap().codes(),
        vec![DecodeReturnCode::Initialized, DecodeReturnCode::FrameDecoded]
    );
    let dec = Decoder::create(DecoderInputCodec::H264, 30);
    let (st, _, _) = dec.decode_frame(DEC_INIT_INFO | DEC_FRAME_DECODED, 10, None).unwrap();
    assert!(st.init_info && st.frame_decoded && !st.error);
    assert_eq!(
        DecodeStatus::from_bits(DEC_INIT_INFO | DEC_FRAME_DECODED),
        DecodeStatus { error: false, init_info: true, frame_decoded: true }
    );
}

#[test]
fn decode_passes_frame_through() {
    let dec = Decoder::create(DecoderInputCodec::HEVC, 25);
    assert_eq!(dec.codec(), DecoderInputCodec::HEVC);
    assert_eq!(dec.fps(), 25);
    assert_eq!(DecoderInputCodec::HEVC.code(), 1);
    let frame = Frame::new(16, 16, 0, "GREY").unwrap();
    let (status, used, out) = dec.decode_frame(DEC_FRAME_DECODED, 512, Some(frame)).unwrap();
    assert_eq!(status.codes(), vec![DecodeReturnCode::FrameDecoded]);
    assert_eq!(used, 512);
    assert_eq!(out.unwrap().width(), 16);
}

#[test]
fn encoder_settings() {
    let e = Encoder::create(VSLEncoderProfileEnum::Kbps25000.code(), 0x34363248, 30);
    assert_eq!(e.profile, 2);
    assert_eq!(e.output_fourcc, 0x34363248);
    let r = VSLRect::new(1, 2, 3, 4);
    assert_eq!((r.get_x(), r.get_y(), r.get_width(), r.get_height()), (1, 2, 3, 4));
}
