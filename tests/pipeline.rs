use camctl::convert::{
    code, convert, BgraImage, Conversion, Error as ConvertError, ImageInfo, Invalid, PayloadType, PixelFormat,
    RawPayload,
};
use camctl::frame::Frame;
use camctl::Error;

fn image(pf: PixelFormat, w: usize, h: usize, data: Vec<u8>) -> RawPayload {
    RawPayload {
        payload_type: PayloadType::Image,
        info: Some(ImageInfo { width: w, height: h, pixel_format: pf }),
        image: Some(data),
    }
}

fn converted(p: &RawPayload) -> BgraImage {
    match convert(p).unwrap() {
        Conversion::Done(img) => img,
        other => panic!("expected a converted image, got {:?}", other),
    }
}

#[test]
fn mono8_two_by_two() {
    let out = converted(&image(PixelFormat::Mono8, 2, 2, vec![10, 20, 30, 40]));
    assert_eq!(out.width, 2);
    assert_eq!(out.height, 2);
    assert_eq!(out.data, vec![10, 10, 10, 255, 20, 20, 20, 255, 30, 30, 30, 255, 40, 40, 40, 255]);
}

#[test]
fn rgb8_is_reordered() {
    let out = converted(&image(PixelFormat::RGB8, 2, 1, vec![1, 2, 3, 4, 5, 6]));
    assert_eq!(out.data, vec![3, 2, 1, 255, 6, 5, 4, 255]);
}

#[test]
fn bgr8_is_kept() {
    let out = converted(&image(PixelFormat::BGR8, 1, 1, vec![7, 8, 9]));
    assert_eq!(out.data, vec![7, 8, 9, 255]);
}

#[test]
fn extra_bytes_are_ignored() {
    let out = converted(&image(PixelFormat::Mono8, 1, 1, vec![5, 6]));
    assert_eq!(out.data, vec![5, 5, 5, 255]);
}

#[test]
fn empty_image() {
    let out = converted(&image(PixelFormat::Mono8, 0, 3, vec![]));
    assert!(out.data.is_empty());
}

#[test]
fn bayer_phases_go_to_opencv_with_their_own_codes() {
    let cases = [
        (PixelFormat::BayerRG8, 139),
        (PixelFormat::BayerBG8, 141),
        (PixelFormat::BayerGR8, 140),
        (PixelFormat::BayerGB8, 142),
    ];
    for (pf, expected) in cases {
        match convert(&image(pf, 4, 4, vec![7; 16])) {
            Ok(Conversion::Delegated { code, width, height }) => {
                assert_eq!((code, width, height), (expected, 4, 4));
            }
            other => panic!("{:?} gave {:?}", pf, other),
        }
    }
}

#[test]
fn yuv422_goes_to_opencv() {
    match convert(&image(PixelFormat::YCbCr422_8, 2, 1, vec![1, 2, 3, 4])) {
        Ok(Conversion::Delegated { code, .. }) => assert_eq!(code, 120),
        other => panic!("unexpected {:?}", other),
    }
    let short = convert(&image(PixelFormat::YCbCr422_8, 2, 1, vec![1, 2, 3]));
    assert_eq!(short.err(), Some(ConvertError::InvalidData(Invalid::ShortBuffer)));
}

#[test]
fn color_code_table() {
    assert_eq!(code(PixelFormat::Mono8), Some(9));
    assert_eq!(code(PixelFormat::RGB8), Some(2));
    assert_eq!(code(PixelFormat::BGR8), Some(0));
    assert_eq!(code(PixelFormat::BayerRG8), Some(139));
    assert_eq!(code(PixelFormat::BayerBG8), Some(141));
    assert_eq!(code(PixelFormat::BayerGR8), Some(140));
    assert_eq!(code(PixelFormat::BayerGB8), Some(142));
    assert_eq!(code(PixelFormat::YCbCr422_8), Some(120));
    assert_eq!(code(PixelFormat::Other(0x0110_0003)), None);
}

#[test]
fn unsupported_formats_are_refused() {
    for pf in [PixelFormat::Other(0x0110_0003), PixelFormat::Other(0)] {
        let r = convert(&image(pf, 2, 2, vec![1, 2, 3, 4]));
        assert_eq!(r.err(), Some(ConvertError::UnsupportedPixelFormat(pf)));
    }
}

#[test]
fn chunk_and_imageless_payloads_are_invalid() {
    let chunk = RawPayload { payload_type: PayloadType::Chunk, info: None, image: None };
    assert_eq!(convert(&chunk).err(), Some(ConvertError::InvalidData(Invalid::ChunkPayload)));
    let imageless = RawPayload { payload_type: PayloadType::Image, info: None, image: None };
    assert_eq!(convert(&imageless).err(), Some(ConvertError::InvalidData(Invalid::NotImage)));
    let mut with_chunk_type = image(PixelFormat::Mono8, 1, 1, vec![1]);
    with_chunk_type.payload_type = PayloadType::Chunk;
    assert_eq!(convert(&with_chunk_type).err(), Some(ConvertError::InvalidData(Invalid::ChunkPayload)));
}

#[test]
fn short_buffer_is_invalid() {
    let r = convert(&image(PixelFormat::RGB8, 2, 2, vec![0; 11]));
    assert_eq!(r.err(), Some(ConvertError::InvalidData(Invalid::ShortBuffer)));
}

#[test]
fn huge_geometry_is_invalid() {
    let r = convert(&image(PixelFormat::Mono8, usize::MAX, 2, vec![0; 4]));
    assert_eq!(r.err(), Some(ConvertError::InvalidData(Invalid::ShortBuffer)));
}

#[test]
fn pixel_format_codes() {
    assert_eq!(PixelFormat::from_code(0x0108_0001), PixelFormat::Mono8);
    assert_eq!(PixelFormat::from_code(0x0218_0014), PixelFormat::RGB8);
    assert_eq!(PixelFormat::from_code(0x0218_0015), PixelFormat::BGR8);
    assert_eq!(PixelFormat::from_code(0x0108_0008), PixelFormat::BayerGR8);
    assert_eq!(PixelFormat::from_code(0x0108_0009), PixelFormat::BayerRG8);
    assert_eq!(PixelFormat::from_code(0x0108_000A), PixelFormat::BayerGB8);
    assert_eq!(PixelFormat::from_code(0x0108_000B), PixelFormat::BayerBG8);
    assert_eq!(PixelFormat::from_code(0x0210_003B), PixelFormat::YCbCr422_8);
    assert_eq!(PixelFormat::from_code(42), PixelFormat::Other(42));
}

/// A stand-in for a device's buffer pool that counts what comes back.
struct FakeChannel {
    lent: usize,
    returned: Vec<u32>,
}

impl FakeChannel {
    fn lend(&mut self) -> u32 {
        self.lent += 1;
        self.lent as u32
    }

    fn send_back(&mut self, buffer: u32) {
        self.returned.push(buffer);
    }
}

#[test]
fn every_received_buffer_is_released_once() {
    let mut channel = FakeChannel { lent: 0, returned: vec![] };
    let mut frame: Frame<()> = Frame::new();
    frame.attach(());
    let payloads = vec![
        image(PixelFormat::Mono8, 1, 1, vec![9]),
        image(PixelFormat::Other(1), 1, 1, vec![9]),
        RawPayload { payload_type: PayloadType::Chunk, info: None, image: None },
        image(PixelFormat::RGB8, 1, 1, vec![1]),
        image(PixelFormat::BGR8, 1, 1, vec![1, 2, 3]),
    ];
    let mut ok = 0;
    for p in &payloads {
        let buffer = channel.lend();
        let cycle = frame.acquired(buffer, p, None);
        if cycle.result.is_ok() {
            ok += 1;
        }
        channel.send_back(cycle.release);
    }
    assert_eq!(ok, 2);
    assert_eq!(channel.lent, 5);
    assert_eq!(channel.returned, vec![1, 2, 3, 4, 5]);
}

#[test]
fn unsupported_payload_still_returns_buffer_and_keeps_frame() {
    let mut frame: Frame<()> = Frame::new();
    let first = frame.acquired(1u32, &image(PixelFormat::Mono8, 1, 1, vec![9]), None);
    assert_eq!(first.result, Ok(()));
    assert_eq!(first.release, 1);
    let other = PixelFormat::Other(0x0110_0003);
    let second = frame.acquired(2u32, &image(other, 1, 1, vec![9]), None);
    assert_eq!(
        second.result,
        Err(Error::ConversionError(ConvertError::UnsupportedPixelFormat(other)))
    );
    assert_eq!(second.release, 2);
    assert_eq!(frame.image().unwrap().data, vec![9, 9, 9, 255]);
}

#[test]
fn bayer_frame_shows_what_opencv_gave() {
    let mut frame: Frame<()> = Frame::new();
    let payload = image(PixelFormat::BayerGB8, 2, 1, vec![1, 2]);
    let missing = frame.acquired(1u32, &payload, None);
    assert_eq!(missing.result, Err(Error::ConversionError(ConvertError::InvalidData(Invalid::MissingDelegated))));
    assert!(frame.image().is_none());
    let wrong = frame.acquired(2u32, &payload, Some(vec![0; 7]));
    assert_eq!(wrong.result, Err(Error::ConversionError(ConvertError::InvalidData(Invalid::DelegatedSize))));
    assert_eq!(wrong.release, 2);
    let bgra = vec![1, 2, 3, 255, 4, 5, 6, 255];
    let ok = frame.acquired(3u32, &payload, Some(bgra.clone()));
    assert_eq!(ok.result, Ok(()));
    assert_eq!(ok.release, 3);
    let shown = frame.image().unwrap();
    assert_eq!((shown.width, shown.height), (2, 1));
    assert_eq!(shown.data, bgra);
}

#[test]
fn attach_and_detach() {
    let mut frame: Frame<u8> = Frame::new();
    assert!(frame.receiver().is_none());
    frame.attach(5);
    assert_eq!(frame.receiver(), Some(&5));
    assert_eq!(frame.detach(), Some(5));
    assert!(frame.receiver().is_none());
    assert!(frame.image().is_none());
}
