use vstd::prelude::*;

use crate::domain::MonitorId;

verus! {

/// Bytes per BGRA pixel.
pub const BYTES_PER_PIXEL: usize = 4;

/// Why a frame or its dimensions were refused.
#[derive(Debug, Clone, PartialEq, Eq, Structural)]
pub enum FrameError {
    InvalidDimensions,
    ArithmeticOverflow,
    StrideTooSmall { minimum: usize, actual: usize },
    BufferLengthMismatch { expected: usize, actual: usize },
    InvalidMaximumEdge,
}

/// The non-zero width and height of a frame, in pixels.
#[derive(Debug, Clone, Copy, PartialEq, Eq, Structural)]
pub struct FrameDimensions {
    width: u32,
    height: u32,
}

impl FrameDimensions {
    #[verifier::type_invariant]
    closed spec fn nonzero(self) -> bool {
        self.width > 0 && self.height > 0
    }

    /// The width, in pixels.
    pub closed spec fn spec_width(self) -> u32 {
        self.width
    }

    /// The height, in pixels.
    pub closed spec fn spec_height(self) -> u32 {
        self.height
    }

    /// Accepts exactly the non-zero dimensions.
    pub fn new(width: u32, height: u32) -> (r: Result<Self, FrameError>)
        ensures
            match r {
                Ok(d) => width != 0 && height != 0 && d.spec_width() == width && d.spec_height()
                    == height,
                Err(e) => (width == 0 || height == 0) && e == FrameError::InvalidDimensions,
            },
    {
        if width == 0 || height == 0 {
            return Err(FrameError::InvalidDimensions);
        }
        Ok(FrameDimensions { width, height })
    }

    pub fn width(self) -> (w: u32)
        ensures
            w == self.spec_width(),
            w > 0,
    {
        proof {
            use_type_invariant(self);
        }
        self.width
    }

    pub fn height(self) -> (h: u32)
        ensures
            h == self.spec_height(),
            h > 0,
    {
        proof {
            use_type_invariant(self);
        }
        self.height
    }

    /// The byte length of one unpadded row.
    pub fn tight_stride(self) -> (r: Result<usize, FrameError>)
        ensures
            match r {
                Ok(s) => s == self.spec_width() * BYTES_PER_PIXEL,
                Err(e) => self.spec_width() * BYTES_PER_PIXEL > usize::MAX && e
                    == FrameError::ArithmeticOverflow,
            },
    {
        let w = self.width as usize;
        match w.checked_mul(BYTES_PER_PIXEL) {
            Some(s) => Ok(s),
            None => Err(FrameError::ArithmeticOverflow),
        }
    }

    /// The byte length of an unpadded frame.
    pub fn tight_byte_len(self) -> (r: Result<usize, FrameError>)
        ensures
            match r {
                Ok(n) => n == self.spec_width() * BYTES_PER_PIXEL * self.spec_height(),
                Err(e) => self.spec_width() * BYTES_PER_PIXEL * self.spec_height() > usize::MAX
                    && e == FrameError::ArithmeticOverflow,
            },
    {
        let stride = self.tight_stride();
        match stride {
            Err(e) => {
                proof {
                    use_type_invariant(self);
                    assert(self.spec_width() * BYTES_PER_PIXEL * self.spec_height() >= self.spec_width()
                        * BYTES_PER_PIXEL) by (nonlinear_arith)
                        requires
                            self.spec_height() >= 1,
                    ;
                }
                Err(e)
            },
            Ok(s) => match s.checked_mul(self.height as usize) {
                Some(n) => Ok(n),
                None => Err(FrameError::ArithmeticOverflow),
            },
        }
    }
}

/// A captured BGRA frame whose rows may be padded to `stride` bytes.
pub struct BgraFrame {
    monitor_id: MonitorId,
    captured_at_ms: i64,
    dimensions: FrameDimensions,
    stride: usize,
    pixels: Vec<u8>,
}

impl BgraFrame {
    #[verifier::type_invariant]
    closed spec fn well_formed(self) -> bool {
        &&& self.stride >= self.dimensions.spec_width() * BYTES_PER_PIXEL
        &&& self.pixels@.len() == self.stride * self.dimensions.spec_height()
    }

    pub closed spec fn spec_monitor_id(&self) -> MonitorId {
        self.monitor_id
    }

    pub closed spec fn spec_captured_at_ms(&self) -> i64 {
        self.captured_at_ms
    }

    pub closed spec fn spec_dimensions(&self) -> FrameDimensions {
        self.dimensions
    }

    pub closed spec fn spec_stride(&self) -> usize {
        self.stride
    }

    pub closed spec fn spec_pixels(&self) -> Seq<u8> {
        self.pixels@
    }

    /// Accepts a buffer of exactly `height` rows of `stride` bytes, each row holding at
    /// least one tight row.
    pub fn new(
        monitor_id: MonitorId,
        captured_at_ms: i64,
        dimensions: FrameDimensions,
        stride: usize,
        pixels: Vec<u8>,
    ) -> (r: Result<Self, FrameError>)
        ensures
            ({
                let minimum = dimensions.spec_width() * BYTES_PER_PIXEL;
                let expected = stride * dimensions.spec_height();
                match r {
                    Ok(frame) => {
                        &&& minimum <= stride
                        &&& expected == pixels@.len()
                        &&& frame.spec_monitor_id() == monitor_id
                        &&& frame.spec_captured_at_ms() == captured_at_ms
                        &&& frame.spec_dimensions() == dimensions
                        &&& frame.spec_stride() == stride
                        &&& frame.spec_pixels() == pixels@
                    },
                    Err(e) => {
                        ||| minimum > usize::MAX && e == FrameError::ArithmeticOverflow
                        ||| minimum <= usize::MAX && stride < minimum && e
                            == (FrameError::StrideTooSmall { minimum: minimum as usize, actual: stride })
                        ||| minimum <= stride && expected > usize::MAX && e
                            == FrameError::ArithmeticOverflow
                        ||| minimum <= stride && expected <= usize::MAX && expected != pixels@.len()
                            && e == (FrameError::BufferLengthMismatch {
                            expected: expected as usize,
                            actual: pixels@.len() as usize,
                        })
                    },
                }
            }),
    {
        let minimum = dimensions.tight_stride()?;
        if stride < minimum {
            return Err(FrameError::StrideTooSmall { minimum, actual: stride });
        }
        let expected = match stride.checked_mul(dimensions.height() as usize) {
            Some(e) => e,
            None => return Err(FrameError::ArithmeticOverflow),
        };
        if pixels.len() != expected {
            return Err(FrameError::BufferLengthMismatch { expected, actual: pixels.len() });
        }
        Ok(BgraFrame { monitor_id, captured_at_ms, dimensions, stride, pixels })
    }

    pub fn monitor_id(&self) -> (m: &MonitorId)
        ensures
            *m == self.spec_monitor_id(),
    {
        &self.monitor_id
    }

    pub fn captured_at_ms(&self) -> (t: i64)
        ensures
            t == self.spec_captured_at_ms(),
    {
        self.captured_at_ms
    }

    pub fn dimensions(&self) -> (d: FrameDimensions)
        ensures
            d == self.spec_dimensions(),
            d.spec_width() > 0,
            d.spec_height() > 0,
    {
        proof {
            use_type_invariant(&self.dimensions);
        }
        self.dimensions
    }

    pub fn stride(&self) -> (s: usize)
        ensures
            s == self.spec_stride(),
            s >= self.spec_dimensions().spec_width() * BYTES_PER_PIXEL,
            self.spec_pixels().len() == s * self.spec_dimensions().spec_height(),
    {
        proof {
            use_type_invariant(self);
        }
        self.stride
    }

    pub fn pixels(&self) -> (p: &[u8])
        ensures
            p@ == self.spec_pixels(),
    {
        self.pixels.as_slice()
    }
}

/// A frame scaled to its target size, stored as tight BGRA rows, with its fingerprint.
pub struct PreparedFrame {
    monitor_id: MonitorId,
    captured_at_ms: i64,
    dimensions: FrameDimensions,
    pixels: Vec<u8>,
    fingerprint: u64,
}

impl PreparedFrame {
    #[verifier::type_invariant]
    closed spec fn tight(self) -> bool {
        self.pixels@.len() == self.dimensions.spec_width() * BYTES_PER_PIXEL
            * self.dimensions.spec_height()
    }

    pub closed spec fn spec_monitor_id(&self) -> MonitorId {
        self.monitor_id
    }

    pub closed spec fn spec_captured_at_ms(&self) -> i64 {
        self.captured_at_ms
    }

    pub closed spec fn spec_dimensions(&self) -> FrameDimensions {
        self.dimensions
    }

    pub closed spec fn spec_pixels(&self) -> Seq<u8> {
        self.pixels@
    }

    pub closed spec fn spec_fingerprint(&self) -> u64 {
        self.fingerprint
    }

    pub(crate) fn new(
        monitor_id: MonitorId,
        captured_at_ms: i64,
        dimensions: FrameDimensions,
        pixels: Vec<u8>,
        fingerprint: u64,
    ) -> (frame: Self)
        requires
            pixels@.len() == dimensions.spec_width() * BYTES_PER_PIXEL * dimensions.spec_height(),
        ensures
            frame.spec_monitor_id() == monitor_id,
            frame.spec_captured_at_ms() == captured_at_ms,
            frame.spec_dimensions() == dimensions,
            frame.spec_pixels() == pixels@,
            frame.spec_fingerprint() == fingerprint,
    {
        PreparedFrame { monitor_id, captured_at_ms, dimensions, pixels, fingerprint }
    }

    pub fn monitor_id(&self) -> (m: &MonitorId)
        ensures
            *m == self.spec_monitor_id(),
    {
        &self.monitor_id
    }

    pub fn captured_at_ms(&self) -> (t: i64)
        ensures
            t == self.spec_captured_at_ms(),
    {
        self.captured_at_ms
    }

    pub fn dimensions(&self) -> (d: FrameDimensions)
        ensures
            d == self.spec_dimensions(),
    {
        self.dimensions
    }

    pub fn pixels(&self) -> (p: &[u8])
        ensures
            p@ == self.spec_pixels(),
            p@.len() == self.spec_dimensions().spec_width() * BYTES_PER_PIXEL
                * self.spec_dimensions().spec_height(),
    {
        proof {
            use_type_invariant(self);
        }
        self.pixels.as_slice()
    }

    pub fn fingerprint(&self) -> (f: u64)
        ensures
            f == self.spec_fingerprint(),
    {
        self.fingerprint
    }
}

} // verus!
