//! Conversion of raw sensor payloads into 32-bit BGRA images.
use vstd::prelude::*;

verus! {

/// Pixel encodings a device may declare for a payload, by their GenICam
/// pixel-format codes; every code outside the named set is kept as `Other`.
#[allow(non_camel_case_types)]
#[derive(Clone, Copy, Debug, PartialEq, Eq, Structural)]
pub enum PixelFormat {
    Mono8,
    RGB8,
    BGR8,
    BayerGR8,
    BayerRG8,
    BayerGB8,
    BayerBG8,
    YCbCr422_8,
    Other(u32),
}

/// The pixel format that a GenICam pixel-format code names.
pub open spec fn format_of_code(code: u32) -> PixelFormat {
    if code == 0x0108_0001 {
        PixelFormat::Mono8
    } else if code == 0x0218_0014 {
        PixelFormat::RGB8
    } else if code == 0x0218_0015 {
        PixelFormat::BGR8
    } else if code == 0x0108_0008 {
        PixelFormat::BayerGR8
    } else if code == 0x0108_0009 {
        PixelFormat::BayerRG8
    } else if code == 0x0108_000A {
        PixelFormat::BayerGB8
    } else if code == 0x0108_000B {
        PixelFormat::BayerBG8
    } else if code == 0x0210_003B {
        PixelFormat::YCbCr422_8
    } else {
        PixelFormat::Other(code)
    }
}

impl PixelFormat {
    /// The pixel format named by a GenICam pixel-format code.
    pub fn from_code(code: u32) -> (r: PixelFormat)
        ensures
            r == format_of_code(code),
    {
        if code == 0x0108_0001 {
            PixelFormat::Mono8
        } else if code == 0x0218_0014 {
            PixelFormat::RGB8
        } else if code == 0x0218_0015 {
            PixelFormat::BGR8
        } else if code == 0x0108_0008 {
            PixelFormat::BayerGR8
        } else if code == 0x0108_0009 {
            PixelFormat::BayerRG8
        } else if code == 0x0108_000A {
            PixelFormat::BayerGB8
        } else if code == 0x0108_000B {
            PixelFormat::BayerBG8
        } else if code == 0x0210_003B {
            PixelFormat::YCbCr422_8
        } else {
            PixelFormat::Other(code)
        }
    }
}

/// How a payload's bytes are to be read.
#[derive(Clone, Copy, Debug, PartialEq, Eq, Structural)]
pub enum PayloadType {
    /// Image data only.
    Image,
    /// Several chunks, the first of which is an image.
    ImageExtendedChunk,
    /// Several chunks, none of which need be an image.
    Chunk,
}

/// Geometry and encoding of the image a payload carries.
#[derive(Clone, Copy, Debug, PartialEq, Eq, Structural)]
pub struct ImageInfo {
    pub width: usize,
    pub height: usize,
    pub pixel_format: PixelFormat,
}

/// A payload as received from a device: its type, and for image payloads the
/// image's description and bytes.
#[derive(Debug)]
pub struct RawPayload {
    pub payload_type: PayloadType,
    pub info: Option<ImageInfo>,
    pub image: Option<Vec<u8>>,
}

/// A converted frame: `width * height` pixels of four bytes each, in the
/// order blue, green, red, alpha.
#[derive(Debug)]
pub struct BgraImage {
    pub width: usize,
    pub height: usize,
    pub data: Vec<u8>,
}

/// Why a payload's bytes cannot be read as an image.
#[derive(Clone, Copy, Debug, PartialEq, Eq, Structural)]
pub enum Invalid {
    /// A chunk payload, which need not hold an image.
    ChunkPayload,
    /// The payload holds no image description or no image bytes.
    NotImage,
    /// Fewer bytes than the image's geometry and format need.
    ShortBuffer,
    /// The BGRA image would not fit in memory.
    TooLarge,
    /// OpenCV's conversion was asked for but gave no image.
    MissingDelegated,
    /// OpenCV's conversion gave an image of the wrong size.
    DelegatedSize,
}

/// Why a payload could not be converted.
#[derive(Clone, Copy, Debug, PartialEq, Eq, Structural)]
pub enum Error {
    /// The declared pixel format is not one this converter handles.
    UnsupportedPixelFormat(PixelFormat),
    /// The payload's bytes cannot be read as an image.
    InvalidData(Invalid),
}

/// What converting a payload gives.
#[derive(Debug)]
pub enum Conversion {
    /// The BGRA image, converted here.
    Done(BgraImage),
    /// The image is to be converted by OpenCV's `cvtColor` with this
    /// color-conversion code, into `width * height` BGRA pixels.
    Delegated { code: i32, width: usize, height: usize },
}

/// Bytes per pixel of each handled encoding; 0 for the others.
pub open spec fn bytes_per_pixel(pf: PixelFormat) -> int {
    match pf {
        PixelFormat::Mono8 => 1,
        PixelFormat::RGB8 => 3,
        PixelFormat::BGR8 => 3,
        PixelFormat::BayerGR8 => 1,
        PixelFormat::BayerRG8 => 1,
        PixelFormat::BayerGB8 => 1,
        PixelFormat::BayerBG8 => 1,
        PixelFormat::YCbCr422_8 => 2,
        PixelFormat::Other(_) => 0,
    }
}

/// Bytes per pixel of a pixel format, as `bytes_per_pixel` gives them.
pub fn pixel_size(pf: PixelFormat) -> (r: usize)
    ensures
        r == bytes_per_pixel(pf),
{
    match pf {
        PixelFormat::Mono8 => 1,
        PixelFormat::RGB8 => 3,
        PixelFormat::BGR8 => 3,
        PixelFormat::BayerGR8 => 1,
        PixelFormat::BayerRG8 => 1,
        PixelFormat::BayerGB8 => 1,
        PixelFormat::BayerBG8 => 1,
        PixelFormat::YCbCr422_8 => 2,
        PixelFormat::Other(_) => 0,
    }
}

/// Whether the converter handles a pixel format.
pub open spec fn is_supported(pf: PixelFormat) -> bool {
    bytes_per_pixel(pf) > 0
}

/// Whether a pixel format is converted here rather than by OpenCV.
pub open spec fn is_direct(pf: PixelFormat) -> bool {
    pf == PixelFormat::Mono8 || pf == PixelFormat::RGB8 || pf == PixelFormat::BGR8
}

/// OpenCV's color-conversion code from each handled format to BGRA.
///
/// GenICam names a Bayer pattern by the 2x2 block at the image's top-left
/// corner; OpenCV names it by the block one row and one column further in,
/// so each GenICam phase maps to the OpenCV code of the diagonally opposite
/// phase: RG to `COLOR_BayerBG2BGRA` (139), BG to `COLOR_BayerRG2BGRA` (141),
/// GR to `COLOR_BayerGB2BGRA` (140), GB to `COLOR_BayerGR2BGRA` (142). The
/// others are `COLOR_GRAY2BGRA` (9), `COLOR_RGB2BGRA` (2), `COLOR_BGR2BGRA`
/// (0) and `COLOR_YUV2BGRA_YUY2` (120).
pub open spec fn color_code_of(pf: PixelFormat) -> Option<i32> {
    match pf {
        PixelFormat::Mono8 => Some(9i32),
        PixelFormat::RGB8 => Some(2i32),
        PixelFormat::BGR8 => Some(0i32),
        PixelFormat::BayerRG8 => Some(139i32),
        PixelFormat::BayerBG8 => Some(141i32),
        PixelFormat::BayerGR8 => Some(140i32),
        PixelFormat::BayerGB8 => Some(142i32),
        PixelFormat::YCbCr422_8 => Some(120i32),
        PixelFormat::Other(_) => None,
    }
}

/// OpenCV's color-conversion code to BGRA for a pixel format, as
/// `color_code_of` gives it; `None` for the formats that are not handled.
pub fn code(pf: PixelFormat) -> (r: Option<i32>)
    ensures
        r == color_code_of(pf),
{
    match pf {
        PixelFormat::Mono8 => Some(9),
        PixelFormat::RGB8 => Some(2),
        PixelFormat::BGR8 => Some(0),
        PixelFormat::BayerRG8 => Some(139),
        PixelFormat::BayerBG8 => Some(141),
        PixelFormat::BayerGR8 => Some(140),
        PixelFormat::BayerGB8 => Some(142),
        PixelFormat::YCbCr422_8 => Some(120),
        PixelFormat::Other(_) => None,
    }
}

/// The four Bayer phases go to four different OpenCV codes, and the handled
/// formats are exactly those with a code.
pub proof fn lemma_bayer_codes_distinct()
    ensures
        color_code_of(PixelFormat::BayerRG8) != color_code_of(PixelFormat::BayerBG8),
        color_code_of(PixelFormat::BayerRG8) != color_code_of(PixelFormat::BayerGR8),
        color_code_of(PixelFormat::BayerRG8) != color_code_of(PixelFormat::BayerGB8),
        color_code_of(PixelFormat::BayerBG8) != color_code_of(PixelFormat::BayerGR8),
        color_code_of(PixelFormat::BayerBG8) != color_code_of(PixelFormat::BayerGB8),
        color_code_of(PixelFormat::BayerGR8) != color_code_of(PixelFormat::BayerGB8),
        forall|pf: PixelFormat| is_supported(pf) <==> color_code_of(pf) is Some,
{
}

/// Channel `c` (0 blue, 1 green, 2 red, 3 alpha) of pixel `p` of the BGRA
/// image made from `data`, read in format `pf`.
pub open spec fn bgra_channel(pf: PixelFormat, data: Seq<u8>, p: int, c: int) -> u8 {
    if c == 3 {
        255u8
    } else {
        match pf {
            PixelFormat::Mono8 => data[p],
            PixelFormat::RGB8 => data[3 * p + (2 - c)],
            _ => data[3 * p + c],
        }
    }
}

/// `out` is the BGRA image of the first `n` pixels of `data`.
pub open spec fn is_bgra_of(pf: PixelFormat, data: Seq<u8>, n: int, out: Seq<u8>) -> bool {
    &&& out.len() == 4 * n
    &&& forall|p: int, c: int|
        0 <= p < n && 0 <= c < 4 ==> #[trigger] out[4 * p + c] == bgra_channel(pf, data, p, c)
}

/// The geometry and format of a payload that can be converted, or why it
/// cannot.
pub open spec fn conversion_outcome(payload: RawPayload) -> Result<(usize, usize, PixelFormat), Error> {
    if payload.payload_type == PayloadType::Chunk {
        Err(Error::InvalidData(Invalid::ChunkPayload))
    } else if payload.info is None || payload.image is None {
        Err(Error::InvalidData(Invalid::NotImage))
    } else {
        let info = payload.info.unwrap();
        if !is_supported(info.pixel_format) {
            Err(Error::UnsupportedPixelFormat(info.pixel_format))
        } else if payload.image.unwrap()@.len() < info.width * info.height * bytes_per_pixel(info.pixel_format) {
            Err(Error::InvalidData(Invalid::ShortBuffer))
        } else if 4 * (info.width * info.height) > usize::MAX {
            Err(Error::InvalidData(Invalid::TooLarge))
        } else {
            Ok((info.width, info.height, info.pixel_format))
        }
    }
}

/// `r` is what converting `payload` must give: for Mono8, RGB8 and BGR8 the
/// BGRA image itself; for the Bayer phases and YUV 4:2:2 the OpenCV code to
/// convert with; otherwise the error of `conversion_outcome`.
pub open spec fn converts_to(payload: RawPayload, r: Result<Conversion, Error>) -> bool {
    match conversion_outcome(payload) {
        Ok((w, h, pf)) => if is_direct(pf) {
            match r {
                Ok(Conversion::Done(img)) => {
                    &&& img.width == w
                    &&& img.height == h
                    &&& is_bgra_of(pf, payload.image.unwrap()@, w * h, img.data@)
                },
                _ => false,
            }
        } else {
            r == Ok::<Conversion, Error>(Conversion::Delegated { code: color_code_of(pf).unwrap(), width: w, height: h })
        },
        Err(e) => r == Err::<Conversion, Error>(e),
    }
}

fn expand_pixels(pf: PixelFormat, data: &Vec<u8>, n: usize) -> (out: Vec<u8>)
    requires
        is_direct(pf),
        n * bytes_per_pixel(pf) <= data@.len(),
        4 * n <= usize::MAX,
    ensures
        is_bgra_of(pf, data@, n as int, out@),
{
    let mut out: Vec<u8> = Vec::with_capacity(4 * n);
    let mut p: usize = 0;
    while p < n
        invariant
            p <= n,
            is_direct(pf),
            n * bytes_per_pixel(pf) <= data@.len(),
            4 * n <= usize::MAX,
            is_bgra_of(pf, data@, p as int, out@),
        decreases n - p,
    {
        proof {
            let k = bytes_per_pixel(pf);
            let len = data@.len();
            assert(k * (p + 1) <= len) by (nonlinear_arith)
                requires p < n, k >= 0, n * k <= len;
            if k == 1 {
                assert(p < len) by (nonlinear_arith)
                    requires k * (p + 1) <= len, k == 1;
            } else {
                assert(3 * p + 2 < len) by (nonlinear_arith)
                    requires k * (p + 1) <= len, k == 3;
            }
        }
        let (b, g, r): (u8, u8, u8) = match pf {
            PixelFormat::Mono8 => (data[p], data[p], data[p]),
            PixelFormat::RGB8 => (data[3 * p + 2], data[3 * p + 1], data[3 * p]),
            _ => (data[3 * p], data[3 * p + 1], data[3 * p + 2]),
        };
        let ghost before = out@;
        out.push(b);
        out.push(g);
        out.push(r);
        out.push(255u8);
        assert forall|q: int, c: int| 0 <= q < p + 1 && 0 <= c < 4 implies
            #[trigger] out@[4 * q + c] == bgra_channel(pf, data@, q, c) by {
            if q < p {
                assert(out@[4 * q + c] == before[4 * q + c]);
            }
        }
        p = p + 1;
    }
    out
}

/// Converts a payload. Mono8, RGB8 and BGR8 are converted here; the four
/// Bayer phases and YUV 4:2:2 are handed to OpenCV with the code that
/// `color_code_of` gives; any other pixel format is `UnsupportedPixelFormat`,
/// never coerced. Chunk payloads, payloads without an image, images with fewer
/// bytes than their geometry needs and images whose BGRA form would not fit
/// in memory are `InvalidData`.
pub fn convert(payload: &RawPayload) -> (r: Result<Conversion, Error>)
    ensures
        converts_to(*payload, r),
{
    if let PayloadType::Chunk = payload.payload_type {
        return Err(Error::InvalidData(Invalid::ChunkPayload));
    }
    let info = match &payload.info {
        Some(info) => *info,
        None => return Err(Error::InvalidData(Invalid::NotImage)),
    };
    let data = match &payload.image {
        Some(data) => data,
        None => return Err(Error::InvalidData(Invalid::NotImage)),
    };
    let channels = pixel_size(info.pixel_format);
    if channels == 0 {
        return Err(Error::UnsupportedPixelFormat(info.pixel_format));
    }
    let n = match info.width.checked_mul(info.height) {
        Some(n) => n,
        None => {
            proof {
                assert(data@.len() == data.len());
                assert(info.width * info.height * channels >= info.width * info.height) by (nonlinear_arith)
                    requires channels >= 1;
            }
            return Err(Error::InvalidData(Invalid::ShortBuffer));
        },
    };
    let needed = match n.checked_mul(channels) {
        Some(k) => k,
        None => {
            proof {
                assert(data@.len() == data.len());
            }
            return Err(Error::InvalidData(Invalid::ShortBuffer));
        },
    };
    if data.len() < needed {
        return Err(Error::InvalidData(Invalid::ShortBuffer));
    }
    if n > usize::MAX / 4 {
        return Err(Error::InvalidData(Invalid::TooLarge));
    }
    match info.pixel_format {
        PixelFormat::Mono8 | PixelFormat::RGB8 | PixelFormat::BGR8 => {
            let out = expand_pixels(info.pixel_format, data, n);
            Ok(Conversion::Done(BgraImage { width: info.width, height: info.height, data: out }))
        },
        pf => match code(pf) {
            Some(c) => Ok(Conversion::Delegated { code: c, width: info.width, height: info.height }),
            None => Err(Error::UnsupportedPixelFormat(pf)),
        },
    }
}

} // verus!
