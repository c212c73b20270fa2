//! The streaming pipeline's per-device consumer: it converts each received
//! payload into the displayed frame and gives every borrowed buffer back, on
//! every path, for release to the channel it came from.
use crate::convert::{
    conversion_outcome, convert, is_bgra_of, is_direct, BgraImage, Conversion,
    Error as ConvertError, Invalid, RawPayload,
};
use crate::Error;
use vstd::prelude::*;

verus! {

/// The outcome of one acquisition cycle: the buffer to give back to its
/// channel, and whether the payload became the displayed frame.
pub struct Cycle<B> {
    pub release: B,
    pub result: Result<(), Error>,
}

/// The consumer of one device's payload channel. `R` is the type of the
/// channel's receiving end, held only while streaming.
pub struct Frame<R> {
    receiver: Option<R>,
    image: Option<BgraImage>,
    received: Ghost<nat>,
    released: Ghost<nat>,
}

impl<R> Frame<R> {
    /// The receiving end, while attached.
    pub closed spec fn attached(&self) -> Option<R> {
        self.receiver
    }

    /// The displayed frame: the most recent payload that converted.
    pub closed spec fn shown(&self) -> Option<BgraImage> {
        self.image
    }

    /// How many payloads have been received.
    pub closed spec fn receive_count(&self) -> nat {
        self.received@
    }

    /// How many buffers have been given back for release.
    pub closed spec fn release_count(&self) -> nat {
        self.released@
    }

    /// A detached consumer with nothing shown.
    pub fn new() -> (r: Frame<R>)
        ensures
            r.attached() is None,
            r.shown() is None,
            r.receive_count() == 0,
            r.release_count() == 0,
    {
        Frame { receiver: None, image: None, received: Ghost(0), released: Ghost(0) }
    }

    /// Attaches the receiving end of a channel that has started streaming.
    pub fn attach(&mut self, receiver: R)
        ensures
            final(self).attached() == Some(receiver),
            final(self).shown() == old(self).shown(),
            final(self).receive_count() == old(self).receive_count(),
            final(self).release_count() == old(self).release_count(),
    {
        self.receiver = Some(receiver);
    }

    /// Detaches from the channel and hands its receiving end back.
    pub fn detach(&mut self) -> (r: Option<R>)
        ensures
            r == old(self).attached(),
            final(self).attached() is None,
            final(self).shown() == old(self).shown(),
            final(self).receive_count() == old(self).receive_count(),
            final(self).release_count() == old(self).release_count(),
    {
        let mut r: Option<R> = None;
        std::mem::swap(&mut r, &mut self.receiver);
        r
    }

    /// The receiving end, while attached.
    pub fn receiver(&self) -> (r: Option<&R>)
        ensures
            r == match self.attached() {
                Some(x) => Some(&x),
                None => None::<&R>,
            },
    {
        match &self.receiver {
            Some(x) => Some(x),
            None => None,
        }
    }

    /// The displayed frame.
    pub fn image(&self) -> (r: Option<&BgraImage>)
        ensures
            r == match self.shown() {
                Some(x) => Some(&x),
                None => None::<&BgraImage>,
            },
    {
        match &self.image {
            Some(x) => Some(x),
            None => None,
        }
    }

    /// One acquisition cycle on a received payload whose buffer is `buffer`.
    /// `delegated` is what OpenCV gave for a payload that `convert` hands to
    /// it, if anything. A payload that converts replaces the displayed frame;
    /// one that does not leaves it as it was and reports the converter's
    /// error. Either way the buffer comes back in the result, to be released
    /// exactly once, and both counts grow by one.
    pub fn acquired<B>(&mut self, buffer: B, payload: &RawPayload, delegated: Option<Vec<u8>>) -> (r: Cycle<B>)
        ensures
            r.release == buffer,
            final(self).receive_count() == old(self).receive_count() + 1,
            final(self).release_count() == old(self).release_count() + 1,
            final(self).attached() == old(self).attached(),
            cycle_result(*payload, delegated, old(self).shown(), final(self).shown(), r.result),
    {
        self.received = Ghost(self.received@ + 1);
        let result = match convert(payload) {
            Ok(Conversion::Done(img)) => {
                self.image = Some(img);
                Ok(())
            },
            Ok(Conversion::Delegated { code: _, width, height }) => match delegated {
                Some(data) => {
                    proof {
                        assert(width * height * 4 == 4 * (width * height)) by (nonlinear_arith);
                    }
                    if data.len() == width * height * 4 {
                        self.image = Some(BgraImage { width, height, data });
                        Ok(())
                    } else {
                        Err(Error::ConversionError(ConvertError::InvalidData(Invalid::DelegatedSize)))
                    }
                },
                None => Err(Error::ConversionError(ConvertError::InvalidData(Invalid::MissingDelegated))),
            },
            Err(e) => Err(Error::ConversionError(e)),
        };
        self.released = Ghost(self.released@ + 1);
        Cycle { release: buffer, result }
    }
}

/// What a cycle on `payload` gives and shows: the converted image for a
/// payload converted here; OpenCV's image for one handed to it, when that has
/// the payload's geometry; otherwise exactly the converter's error (or the
/// missing or misshapen OpenCV result), with the shown frame unchanged.
pub open spec fn cycle_result(
    payload: RawPayload,
    delegated: Option<Vec<u8>>,
    before: Option<BgraImage>,
    after: Option<BgraImage>,
    result: Result<(), Error>,
) -> bool {
    match conversion_outcome(payload) {
        Err(e) => result == Err::<(), Error>(Error::ConversionError(e)) && after == before,
        Ok((w, h, pf)) => if is_direct(pf) {
            &&& result is Ok
            &&& match after {
                Some(img) => img.width == w && img.height == h
                    && is_bgra_of(pf, payload.image.unwrap()@, w * h, img.data@),
                None => false,
            }
        } else {
            match delegated {
                None => result == Err::<(), Error>(Error::ConversionError(ConvertError::InvalidData(Invalid::MissingDelegated)))
                    && after == before,
                Some(d) => if d@.len() == 4 * (w * h) {
                    result is Ok && after == Some(BgraImage { width: w, height: h, data: d })
                } else {
                    result == Err::<(), Error>(Error::ConversionError(ConvertError::InvalidData(Invalid::DelegatedSize)))
                        && after == before
                },
            }
        },
    }
}

/// Over any run of acquisition cycles, each received buffer is given back
/// exactly once: a consumer whose counts agree still has them agree after
/// another cycle, whether the payload converted or not.
pub proof fn lemma_release_per_receive<R>(before: Frame<R>, after: Frame<R>)
    requires
        before.receive_count() == before.release_count(),
        after.receive_count() == before.receive_count() + 1,
        after.release_count() == before.release_count() + 1,
    ensures
        after.receive_count() == after.release_count(),
{
}

} // verus!

verus! {

/// A cycle on an image payload whose pixel format the converter does not
/// handle reports exactly `UnsupportedPixelFormat` and keeps the shown frame;
/// `Frame::acquired` hands the buffer back on this path as on every other.
pub proof fn lemma_unsupported_format_reported(
    payload: RawPayload,
    delegated: Option<Vec<u8>>,
    before: Option<BgraImage>,
    after: Option<BgraImage>,
    result: Result<(), Error>,
)
    requires
        payload.payload_type != crate::convert::PayloadType::Chunk,
        payload.info matches Some(i) && !crate::convert::is_supported(i.pixel_format),
        payload.image is Some,
        cycle_result(payload, delegated, before, after, result),
    ensures
        result == Err::<(), Error>(Error::ConversionError(
            ConvertError::UnsupportedPixelFormat(payload.info.unwrap().pixel_format),
        )),
        after == before,
{
}

} // verus!
