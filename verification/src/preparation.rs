use vstd::prelude::*;
use vstd::arithmetic::div_mod::lemma_fundamental_div_mod_converse;

use crate::frame::{BYTES_PER_PIXEL, BgraFrame, FrameDimensions, FrameError, PreparedFrame};

verus! {

/// The longest edge a prepared frame may have.
#[derive(Debug, Clone, Copy, PartialEq, Eq, Structural)]
pub struct FramePreparationConfig {
    maximum_edge: u32,
}

/// The default longest edge, in pixels.
pub const DEFAULT_MAXIMUM_EDGE: u32 = 640;

/// `a * maximum / b` rounded to nearest, halves up.
pub open spec fn scaled_edge(a: nat, b: nat, maximum: nat) -> nat {
    (a * maximum + b / 2) / b
}

/// The dimensions a frame of `width` by `height` is prepared at: unchanged when its longest
/// edge fits, else scaled so that the longest edge becomes `maximum` and the other edge keeps
/// the aspect ratio, rounded to nearest and at least one pixel.
pub open spec fn target_edges(maximum: nat, width: nat, height: nat) -> (nat, nat) {
    if width <= maximum && height <= maximum {
        (width, height)
    } else if width >= height {
        let h = scaled_edge(height, width, maximum);
        (maximum, if h >= 1 { h } else { 1 })
    } else {
        let w = scaled_edge(width, height, maximum);
        (if w >= 1 { w } else { 1 }, maximum)
    }
}

proof fn lemma_scaled_edge_bounded(a: nat, b: nat, maximum: nat)
    requires
        0 < b,
        a <= b,
    ensures
        scaled_edge(a, b, maximum) <= maximum,
{
    assert((a * maximum + b / 2) / b <= maximum) by (nonlinear_arith)
        requires
            0 < b,
            a <= b,
    ;
}

impl FramePreparationConfig {
    #[verifier::type_invariant]
    closed spec fn positive(self) -> bool {
        self.maximum_edge > 0
    }

    pub closed spec fn spec_maximum_edge(self) -> u32 {
        self.maximum_edge
    }

    /// Accepts any non-zero longest edge.
    pub fn new(maximum_edge: u32) -> (r: Result<Self, FrameError>)
        ensures
            match r {
                Ok(c) => maximum_edge != 0 && c.spec_maximum_edge() == maximum_edge,
                Err(e) => maximum_edge == 0 && e == FrameError::InvalidMaximumEdge,
            },
    {
        if maximum_edge == 0 {
            return Err(FrameError::InvalidMaximumEdge);
        }
        Ok(FramePreparationConfig { maximum_edge })
    }

    /// The configuration with the default longest edge.
    pub fn default_config() -> (c: Self)
        ensures
            c.spec_maximum_edge() == DEFAULT_MAXIMUM_EDGE,
    {
        FramePreparationConfig { maximum_edge: DEFAULT_MAXIMUM_EDGE }
    }

    /// The dimensions `source` is prepared at. It never enlarges a frame.
    pub fn target(self, source: FrameDimensions) -> (r: Result<FrameDimensions, FrameError>)
        ensures
            match r {
                Ok(d) => (d.spec_width() as nat, d.spec_height() as nat) == target_edges(
                    self.spec_maximum_edge() as nat,
                    source.spec_width() as nat,
                    source.spec_height() as nat,
                ),
                Err(_) => false,
            },
    {
        proof {
            use_type_invariant(self);
        }
        let width = source.width();
        let height = source.height();
        let maximum_edge = self.maximum_edge;
        if width <= maximum_edge && height <= maximum_edge {
            return Ok(source);
        }
        let maximum = maximum_edge as u64;
        if width >= height {
            proof {
                lemma_scaled_edge_bounded(height as nat, width as nat, maximum as nat);
            }
            assert(height as u64 * maximum <= 0xffff_ffff_u64 * 0xffff_ffff_u64) by (nonlinear_arith)
                requires
                    height <= 0xffff_ffff_u64,
                    maximum <= 0xffff_ffff_u64,
            ;
            let scaled = (height as u64 * maximum + width as u64 / 2) / width as u64;
            let h = if scaled >= 1 {
                scaled
            } else {
                1
            };
            FrameDimensions::new(maximum_edge, h as u32)
        } else {
            proof {
                lemma_scaled_edge_bounded(width as nat, height as nat, maximum as nat);
            }
            assert(width as u64 * maximum <= 0xffff_ffff_u64 * 0xffff_ffff_u64) by (nonlinear_arith)
                requires
                    width <= 0xffff_ffff_u64,
                    maximum <= 0xffff_ffff_u64,
            ;
            let scaled = (width as u64 * maximum + height as u64 / 2) / height as u64;
            let w = if scaled >= 1 {
                scaled
            } else {
                1
            };
            FrameDimensions::new(w as u32, maximum_edge)
        }
    }
}

/// Where a target index samples its source axis: the two neighbouring source indices and
/// the weight of the higher one, out of `denominator`.
#[derive(Debug, Clone, Copy)]
struct AxisSample {
    low: usize,
    high: usize,
    high_weight: u64,
    denominator: u64,
}

/// The sample positions of target index `index` on an axis scaled from `source` to `target`
/// cells, corners aligned: `(low, high, high_weight, denominator)`.
pub open spec fn axis_spec(source: nat, target: nat, index: nat) -> (nat, nat, nat, nat) {
    if source == 1 || target == 1 {
        (0, 0, 0, 1)
    } else {
        let denominator = (target - 1) as nat;
        let numerator = index * (source - 1) as nat;
        let low = numerator / denominator;
        let high = if low + 1 <= source - 1 {
            low + 1
        } else {
            (source - 1) as nat
        };
        (low, high, numerator % denominator, denominator)
    }
}

/// Linear interpolation between two bytes, rounded to nearest.
pub open spec fn lerp_spec(first: nat, second: nat, weight: nat, denominator: nat) -> nat {
    (first * (denominator - weight) as nat + second * weight + denominator / 2) / denominator
}

/// The byte offset of channel `channel` of pixel (`x`, `y`) in rows of `stride` bytes.
pub open spec fn offset_spec(x: nat, y: nat, stride: nat, channel: nat) -> nat {
    y * stride + x * 4 + channel
}

/// Bilinear sample of one channel between the four neighbouring source pixels.
pub open spec fn sample_spec(
    pixels: Seq<u8>,
    stride: nat,
    x: (nat, nat, nat, nat),
    y: (nat, nat, nat, nat),
    channel: nat,
) -> nat {
    let top_left = pixels[offset_spec(x.0, y.0, stride, channel) as int] as nat;
    let top_right = pixels[offset_spec(x.1, y.0, stride, channel) as int] as nat;
    let bottom_left = pixels[offset_spec(x.0, y.1, stride, channel) as int] as nat;
    let bottom_right = pixels[offset_spec(x.1, y.1, stride, channel) as int] as nat;
    let top = lerp_spec(top_left, top_right, x.2, x.3);
    let bottom = lerp_spec(bottom_left, bottom_right, x.2, x.3);
    lerp_spec(top, bottom, y.2, y.3)
}

/// Channel `channel` of target pixel (`tx`, `ty`) when a `sw` by `sh` image with rows of
/// `stride` bytes is scaled to `tw` by `th`.
pub open spec fn scaled_channel(
    pixels: Seq<u8>,
    stride: nat,
    sw: nat,
    sh: nat,
    tw: nat,
    th: nat,
    tx: nat,
    ty: nat,
    channel: nat,
) -> nat {
    sample_spec(pixels, stride, axis_spec(sw, tw, tx), axis_spec(sh, th, ty), channel)
}

/// Byte `k` of the tight target image.
pub open spec fn scaled_byte(
    pixels: Seq<u8>,
    stride: nat,
    sw: nat,
    sh: nat,
    tw: nat,
    th: nat,
    k: nat,
) -> nat {
    let row_bytes = tw * 4;
    scaled_channel(pixels, stride, sw, sh, tw, th, (k % row_bytes) / 4, k / row_bytes, k % 4)
}

proof fn lemma_axis_in_range(source: nat, target: nat, index: nat)
    requires
        0 < source,
        0 < target,
        index < target,
    ensures
        axis_spec(source, target, index).0 <= axis_spec(source, target, index).1,
        axis_spec(source, target, index).1 < source,
        axis_spec(source, target, index).2 < axis_spec(source, target, index).3,
        0 < axis_spec(source, target, index).3 < target + 1,
{
    if source != 1 && target != 1 {
        let d = (target - 1) as nat;
        let s1 = (source - 1) as nat;
        assert(index * s1 / d <= s1) by (nonlinear_arith)
            requires
                index <= d,
                0 < d,
        ;
    }
}

proof fn lemma_lerp_is_byte(first: nat, second: nat, weight: nat, denominator: nat)
    requires
        first < 256,
        second < 256,
        weight < denominator,
    ensures
        lerp_spec(first, second, weight, denominator) < 256,
        first * (denominator - weight) as nat + second * weight + denominator / 2 <= 256
            * denominator,
{
    let inverse = (denominator - weight) as nat;
    assert(first * inverse + second * weight <= 255 * denominator) by (nonlinear_arith)
        requires
            first <= 255,
            second <= 255,
            inverse + weight == denominator,
    ;
    assert((first * inverse + second * weight + denominator / 2) / denominator < 256) by (
    nonlinear_arith)
        requires
            first * inverse + second * weight <= 255 * denominator,
            0 < denominator,
    ;
}

proof fn lemma_offset_in_bounds(x: nat, y: nat, stride: nat, channel: nat, width: nat, height: nat)
    requires
        x < width,
        y < height,
        channel < 4,
        stride >= width * 4,
    ensures
        offset_spec(x, y, stride, channel) < stride * height,
{
    assert(y * stride + x * 4 + channel < stride * height) by (nonlinear_arith)
        requires
            x < width,
            y < height,
            channel < 4,
            stride >= width * 4,
    ;
}

fn axis_sample(source: u32, target: u32, index: u32) -> (a: AxisSample)
    requires
        0 < source,
        0 < target,
        index < target,
    ensures
        (a.low as nat, a.high as nat, a.high_weight as nat, a.denominator as nat) == axis_spec(
            source as nat,
            target as nat,
            index as nat,
        ),
{
    if source == 1 || target == 1 {
        return AxisSample { low: 0, high: 0, high_weight: 0, denominator: 1 };
    }
    let denominator = (target - 1) as u64;
    let a = index as u64;
    let b = (source - 1) as u64;
    assert(a * b <= 0xffff_ffff_u64 * 0xffff_ffff_u64) by (nonlinear_arith)
        requires
            a <= 0xffff_ffff_u64,
            b <= 0xffff_ffff_u64,
    ;
    let numerator = a * b;
    let low = numerator / denominator;
    proof {
        lemma_axis_in_range(source as nat, target as nat, index as nat);
    }
    let source_last = (source - 1) as u64;
    let high = if low + 1 <= source_last {
        low + 1
    } else {
        source_last
    };
    AxisSample {
        low: low as usize,
        high: high as usize,
        high_weight: numerator % denominator,
        denominator,
    }
}

fn lerp(first: u8, second: u8, weight: u64, denominator: u64) -> (v: u8)
    requires
        weight < denominator,
        denominator <= 0x1_0000_0000,
    ensures
        v as nat == lerp_spec(first as nat, second as nat, weight as nat, denominator as nat),
{
    proof {
        lemma_lerp_is_byte(first as nat, second as nat, weight as nat, denominator as nat);
    }
    let inverse = denominator - weight;
    assert(first as u64 * inverse <= 255 * 0x1_0000_0000) by (nonlinear_arith)
        requires
            first <= 255,
            inverse <= 0x1_0000_0000,
    ;
    assert(second as u64 * weight <= 255 * 0x1_0000_0000) by (nonlinear_arith)
        requires
            second <= 255,
            weight <= 0x1_0000_0000,
    ;
    ((first as u64 * inverse + second as u64 * weight + denominator / 2) / denominator) as u8
}

fn offset(
    x: usize,
    y: usize,
    stride: usize,
    channel: usize,
    len: usize,
    width: Ghost<nat>,
    height: Ghost<nat>,
) -> (o: usize)
    requires
        x < width@,
        y < height@,
        channel < 4,
        stride >= width@ * 4,
        len == stride * height@,
    ensures
        o as nat == offset_spec(x as nat, y as nat, stride as nat, channel as nat),
        o < len,
{
    proof {
        lemma_offset_in_bounds(x as nat, y as nat, stride as nat, channel as nat, width@, height@);
        assert(y * stride <= y * stride + x * 4 + channel);
    }
    let row = y * stride;
    row + x * 4 + channel
}

fn sample_channel(
    pixels: &[u8],
    stride: usize,
    width: Ghost<nat>,
    height: Ghost<nat>,
    x: AxisSample,
    y: AxisSample,
    channel: usize,
) -> (v: u8)
    requires
        stride >= width@ * 4,
        pixels@.len() == stride * height@,
        x.low <= x.high < width@,
        y.low <= y.high < height@,
        x.high_weight < x.denominator <= 0x1_0000_0000,
        y.high_weight < y.denominator <= 0x1_0000_0000,
        channel < 4,
    ensures
        v as nat == sample_spec(
            pixels@,
            stride as nat,
            (x.low as nat, x.high as nat, x.high_weight as nat, x.denominator as nat),
            (y.low as nat, y.high as nat, y.high_weight as nat, y.denominator as nat),
            channel as nat,
        ),
{
    let len = pixels.len();
    let top_left = pixels[offset(x.low, y.low, stride, channel, len, width, height)];
    let top_right = pixels[offset(x.high, y.low, stride, channel, len, width, height)];
    let bottom_left = pixels[offset(x.low, y.high, stride, channel, len, width, height)];
    let bottom_right = pixels[offset(x.high, y.high, stride, channel, len, width, height)];
    let top = lerp(top_left, top_right, x.high_weight, x.denominator);
    let bottom = lerp(bottom_left, bottom_right, x.high_weight, x.denominator);
    lerp(top, bottom, y.high_weight, y.denominator)
}

proof fn lemma_decode_byte_index(ty: nat, tx: nat, channel: nat, tw: nat)
    requires
        tx < tw,
        channel < 4,
    ensures
        ({
            let k = ty * (tw * 4) + tx * 4 + channel;
            &&& k / (tw * 4) == ty
            &&& (k % (tw * 4)) / 4 == tx
            &&& k % 4 == channel
        }),
{
    let row_bytes = tw * 4;
    let k = ty * row_bytes + tx * 4 + channel;
    lemma_fundamental_div_mod_converse(k as int, row_bytes as int, ty as int, (tx * 4 + channel) as int);
    lemma_fundamental_div_mod_converse((tx * 4 + channel) as int, 4, tx as int, channel as int);
    assert(k == (ty * tw + tx) * 4 + channel) by (nonlinear_arith)
        requires
            k == ty * (tw * 4) + tx * 4 + channel,
    ;
    lemma_fundamental_div_mod_converse(k as int, 4, (ty * tw + tx) as int, channel as int);
}

proof fn lemma_byte_index_in_bounds(ty: nat, tx: nat, channel: nat, tw: nat, th: nat)
    requires
        tx < tw,
        ty < th,
        channel < 4,
    ensures
        ty * (tw * 4) + tx * 4 + channel < tw * 4 * th,
        ty * (tw * 4) + tw * 4 == (ty + 1) * (tw * 4),
{
    assert(ty * (tw * 4) + tx * 4 + channel < tw * 4 * th) by (nonlinear_arith)
        requires
            tx < tw,
            ty < th,
            channel < 4,
    ;
    assert(ty * (tw * 4) + tw * 4 == (ty + 1) * (tw * 4)) by (nonlinear_arith);
}

/// Scales `input` to `target` by bilinear interpolation with corners aligned, into tight rows.
fn scale_bgra(input: &BgraFrame, target: FrameDimensions) -> (r: Result<Vec<u8>, FrameError>)
    ensures
        ({
            let source = input.spec_dimensions();
            let (sw, sh) = (source.spec_width() as nat, source.spec_height() as nat);
            let (tw, th) = (target.spec_width() as nat, target.spec_height() as nat);
            match r {
                Ok(out) => {
                    &&& out@.len() == tw * 4 * th
                    &&& forall|k: int|
                        0 <= k < out@.len() ==> #[trigger] out@[k] as nat == scaled_byte(
                            input.spec_pixels(),
                            input.spec_stride() as nat,
                            sw,
                            sh,
                            tw,
                            th,
                            k as nat,
                        )
                },
                Err(e) => tw * 4 * th > usize::MAX && e == FrameError::ArithmeticOverflow,
            }
        }),
{
    let source = input.dimensions();
    let sw = source.width();
    let sh = source.height();
    let tw = target.width();
    let th = target.height();
    let row_bytes = match target.tight_stride() {
        Ok(s) => s,
        Err(e) => {
            assert(tw as nat * 4 * th as nat >= tw as nat * 4) by (nonlinear_arith)
                requires
                    th >= 1,
            ;
            return Err(e);
        },
    };
    let total = target.tight_byte_len()?;
    let stride = input.stride();
    let pixels = input.pixels();
    let ghost gpixels = input.spec_pixels();
    let ghost gstride = stride as nat;
    let mut output: Vec<u8> = Vec::new();
    let mut ty: u32 = 0;
    while ty < th
        invariant
            0 < sw && 0 < sh && 0 < tw && 0 < th,
            sw == input.spec_dimensions().spec_width(),
            sh == input.spec_dimensions().spec_height(),
            tw == target.spec_width(),
            th == target.spec_height(),
            row_bytes == tw * 4,
            total == tw * 4 * th,
            pixels@ == gpixels,
            gpixels == input.spec_pixels(),
            gstride == input.spec_stride(),
            stride == gstride,
            stride >= sw * 4,
            pixels@.len() == stride * sh,
            ty <= th,
            output@.len() == ty * row_bytes,
            forall|k: int|
                0 <= k < output@.len() ==> #[trigger] output@[k] as nat == scaled_byte(
                    gpixels,
                    gstride,
                    sw as nat,
                    sh as nat,
                    tw as nat,
                    th as nat,
                    k as nat,
                ),
        decreases th - ty,
    {
        let y = axis_sample(sh, th, ty);
        proof {
            lemma_axis_in_range(sh as nat, th as nat, ty as nat);
        }
        let mut tx: u32 = 0;
        while tx < tw
            invariant
                0 < sw && 0 < sh && 0 < tw && 0 < th,
                ty < th,
                row_bytes == tw * 4,
                total == tw * 4 * th,
                pixels@ == gpixels,
                stride == gstride,
                stride >= sw * 4,
                pixels@.len() == stride * sh,
                (y.low as nat, y.high as nat, y.high_weight as nat, y.denominator as nat)
                    == axis_spec(sh as nat, th as nat, ty as nat),
                y.low <= y.high < sh,
                y.high_weight < y.denominator <= th,
                tx <= tw,
                output@.len() == ty * row_bytes + tx * 4,
                forall|k: int|
                    0 <= k < output@.len() ==> #[trigger] output@[k] as nat == scaled_byte(
                        gpixels,
                        gstride,
                        sw as nat,
                        sh as nat,
                        tw as nat,
                        th as nat,
                        k as nat,
                    ),
            decreases tw - tx,
        {
            let x = axis_sample(sw, tw, tx);
            proof {
                lemma_axis_in_range(sw as nat, tw as nat, tx as nat);
            }
            let mut channel: usize = 0;
            while channel < 4
                invariant
                    0 < sw && 0 < sh && 0 < tw && 0 < th,
                    ty < th,
                    tx < tw,
                    row_bytes == tw * 4,
                    total == tw * 4 * th,
                    pixels@ == gpixels,
                    stride == gstride,
                    stride >= sw * 4,
                    pixels@.len() == stride * sh,
                    (y.low as nat, y.high as nat, y.high_weight as nat, y.denominator as nat)
                        == axis_spec(sh as nat, th as nat, ty as nat),
                    y.low <= y.high < sh,
                    y.high_weight < y.denominator <= th,
                    (x.low as nat, x.high as nat, x.high_weight as nat, x.denominator as nat)
                        == axis_spec(sw as nat, tw as nat, tx as nat),
                    x.low <= x.high < sw,
                    x.high_weight < x.denominator <= tw,
                    channel <= 4,
                    output@.len() == ty * row_bytes + tx * 4 + channel,
                    forall|k: int|
                        0 <= k < output@.len() ==> #[trigger] output@[k] as nat == scaled_byte(
                            gpixels,
                            gstride,
                            sw as nat,
                            sh as nat,
                            tw as nat,
                            th as nat,
                            k as nat,
                        ),
                decreases 4 - channel,
            {
                let v = sample_channel(pixels, stride, Ghost(sw as nat), Ghost(sh as nat), x, y, channel);
                proof {
                    lemma_decode_byte_index(ty as nat, tx as nat, channel as nat, tw as nat);
                    lemma_byte_index_in_bounds(ty as nat, tx as nat, channel as nat, tw as nat, th as nat);
                }
                let ghost before = output@;
                output.push(v);
                assert forall|k: int| 0 <= k < output@.len() implies #[trigger] output@[k] as nat
                    == scaled_byte(
                    gpixels,
                    gstride,
                    sw as nat,
                    sh as nat,
                    tw as nat,
                    th as nat,
                    k as nat,
                ) by {
                    if k < before.len() {
                        assert(output@[k] == before[k]);
                    }
                }
                channel = channel + 1;
            }
            tx = tx + 1;
        }
        proof {
            lemma_byte_index_in_bounds(ty as nat, 0, 0, tw as nat, th as nat);
        }
        ty = ty + 1;
    }
    assert(th as nat * (tw as nat * 4) == tw as nat * 4 * th as nat) by (nonlinear_arith);
    Ok(output)
}

/// The luma of the sample at fingerprint column `column` (of 9) and row `row` (of 8).
#[verifier::opaque]
pub open spec fn luma_spec(pixels: Seq<u8>, stride: nat, w: nat, h: nat, row: nat, column: nat) -> nat {
    let x = axis_spec(w, 9, column);
    let y = axis_spec(h, 8, row);
    let blue = sample_spec(pixels, stride, x, y, 0);
    let green = sample_spec(pixels, stride, x, y, 1);
    let red = sample_spec(pixels, stride, x, y, 2);
    (77 * red + 150 * green + 29 * blue) / 256
}

/// Fingerprint bit `row * 8 + column` is set when the luma falls from `column` to `column + 1`.
pub open spec fn fingerprint_bit(pixels: Seq<u8>, stride: nat, w: nat, h: nat, row: nat, column: nat) -> bool {
    luma_spec(pixels, stride, w, h, row, column) > luma_spec(pixels, stride, w, h, row, column + 1)
}

/// Bit `bit` of `value`.
pub open spec fn bit_of(value: u64, bit: u64) -> bool {
    (value >> bit) & 1u64 == 1u64
}

/// Fingerprint bit `row * 8 + column` of `value`.
pub open spec fn hash_bit(value: u64, row: u64, column: u64) -> bool {
    bit_of(value, (row * 8 + column) as u64)
}

proof fn lemma_set_bit(h: u64, k: u64, j: u64)
    requires
        k < 64,
        j < 64,
    ensures
        bit_of(h | (1u64 << k), j) == (j == k || bit_of(h, j)),
{
    assert(((h | (1u64 << k)) >> j) & 1u64 == 1u64 <==> (j == k || (h >> j) & 1u64 == 1u64)) by (bit_vector)
        requires
            k < 64,
            j < 64,
    ;
}

proof fn lemma_zero_has_no_bits(j: u64)
    requires
        j < 64,
    ensures
        !bit_of(0, j),
{
    assert((0u64 >> j) & 1u64 != 1u64) by (bit_vector);
}

/// The 64-bit difference hash of a tight frame: 8 rows of 9 luma samples, one bit per
/// falling neighbour pair.
fn difference_hash(pixels: &[u8], dimensions: FrameDimensions) -> (hash: u64)
    requires
        pixels@.len() == dimensions.spec_width() * BYTES_PER_PIXEL * dimensions.spec_height(),
    ensures
        forall|row: u64, column: u64|
            row < 8 && column < 8 ==> #[trigger] hash_bit(hash, row, column) == fingerprint_bit(
                pixels@,
                (dimensions.spec_width() * 4) as nat,
                dimensions.spec_width() as nat,
                dimensions.spec_height() as nat,
                row as nat,
                column as nat,
            ),
{
    let w = dimensions.width();
    let h = dimensions.height();
    assert(w as nat * 4 <= w as nat * 4 * h as nat) by (nonlinear_arith)
        requires
            h >= 1,
    ;
    let len = pixels.len();
    let stride = (w as usize) * 4;
    assert(pixels@.len() == stride * h as nat) by (nonlinear_arith)
        requires
            pixels@.len() == w as nat * 4 * h as nat,
            stride == w as nat * 4,
    ;
    let ghost gstride = stride as nat;
    let mut hash: u64 = 0;
    assert forall|r: u64, c: u64| r < 8 && c < 8 implies #[trigger] hash_bit(hash, r, c) == (r < 0
        && fingerprint_bit(pixels@, gstride, w as nat, h as nat, r as nat, c as nat)) by {
        lemma_zero_has_no_bits((r * 8 + c) as u64);
    }
    let mut row: u32 = 0;
    while row < 8
        invariant
            0 < w && 0 < h,
            w == dimensions.spec_width(),
            h == dimensions.spec_height(),
            stride == w * 4,
            gstride == stride,
            pixels@.len() == stride * h,
            row <= 8,
            forall|r: u64, c: u64|
                r < 8 && c < 8 ==> #[trigger] hash_bit(hash, r, c) == (r < row
                    && fingerprint_bit(pixels@, gstride, w as nat, h as nat, r as nat, c as nat)),
        decreases 8 - row,
    {
        let y = axis_sample(h, 8, row);
        proof {
            lemma_axis_in_range(h as nat, 8, row as nat);
        }
        let mut lumas: Vec<u16> = Vec::new();
        let mut column: u32 = 0;
        while column < 9
            invariant
                0 < w && 0 < h,
                row < 8,
                stride == w * 4,
                gstride == stride,
                pixels@.len() == stride * h,
                (y.low as nat, y.high as nat, y.high_weight as nat, y.denominator as nat)
                    == axis_spec(h as nat, 8, row as nat),
                y.low <= y.high < h,
                y.high_weight < y.denominator <= 8,
                column <= 9,
                lumas@.len() == column,
                forall|c: int|
                    0 <= c < column ==> #[trigger] lumas@[c] as nat == luma_spec(
                        pixels@,
                        gstride,
                        w as nat,
                        h as nat,
                        row as nat,
                        c as nat,
                    ),
            decreases 9 - column,
        {
            let x = axis_sample(w, 9, column);
            proof {
                lemma_axis_in_range(w as nat, 9, column as nat);
            }
            let blue = sample_channel(pixels, stride, Ghost(w as nat), Ghost(h as nat), x, y, 0) as u16;
            let green = sample_channel(pixels, stride, Ghost(w as nat), Ghost(h as nat), x, y, 1) as u16;
            let red = sample_channel(pixels, stride, Ghost(w as nat), Ghost(h as nat), x, y, 2) as u16;
            let luma = (77 * red + 150 * green + 29 * blue) / 256;
            proof {
                reveal(luma_spec);
            }
            lumas.push(luma);
            column = column + 1;
        }
        let mut column: u32 = 0;
        while column < 8
            invariant
                row < 8,
                column <= 8,
                lumas@.len() == 9,
                forall|c: int|
                    0 <= c < 9 ==> #[trigger] lumas@[c] as nat == luma_spec(
                        pixels@,
                        gstride,
                        w as nat,
                        h as nat,
                        row as nat,
                        c as nat,
                    ),
                forall|r: u64, c: u64|
                    r < 8 && c < 8 ==> #[trigger] hash_bit(hash, r, c) == ((r < row || (r == row
                        && c < column)) && fingerprint_bit(
                        pixels@,
                        gstride,
                        w as nat,
                        h as nat,
                        r as nat,
                        c as nat,
                    )),
            decreases 8 - column,
        {
            let falls = lumas[column as usize] > lumas[column as usize + 1];
            assert(falls == fingerprint_bit(pixels@, gstride, w as nat, h as nat, row as nat, column as nat)) by {
                assert(lumas@[column as int] as nat == luma_spec(pixels@, gstride, w as nat, h as nat, row as nat, column as nat));
                assert(lumas@[column + 1] as nat == luma_spec(pixels@, gstride, w as nat, h as nat, row as nat, column as nat + 1));
            }
            let k = (row * 8 + column) as u64;
            let old_hash = hash;
            if falls {
                hash = hash | (1u64 << k);
            }
            assert forall|r: u64, c: u64| r < 8 && c < 8 implies #[trigger] hash_bit(hash, r, c)
                == ((r < row || (r == row && c < column + 1)) && fingerprint_bit(
                pixels@,
                gstride,
                w as nat,
                h as nat,
                r as nat,
                c as nat,
            )) by {
                if falls {
                    lemma_set_bit(old_hash, k, (r * 8 + c) as u64);
                }
                assert(hash_bit(old_hash, r, c) == ((r < row || (r == row && c < column)) && fingerprint_bit(
                    pixels@,
                    gstride,
                    w as nat,
                    h as nat,
                    r as nat,
                    c as nat,
                )));
            }
            column = column + 1;
        }
        row = row + 1;
    }
    hash
}

/// Scales captured frames to the configured size and fingerprints them.
#[derive(Debug)]
pub struct FramePreparer {
    config: FramePreparationConfig,
}

impl FramePreparer {
    pub closed spec fn spec_config(&self) -> FramePreparationConfig {
        self.config
    }

    pub fn new(config: FramePreparationConfig) -> (p: Self)
        ensures
            p.spec_config() == config,
    {
        FramePreparer { config }
    }

    /// Scales `input` to the configured target size by bilinear interpolation, stores it as
    /// tight rows, and fingerprints the result.
    pub fn prepare(&self, input: BgraFrame) -> (r: Result<PreparedFrame, FrameError>)
        ensures
            ({
                let source = input.spec_dimensions();
                let (sw, sh) = (source.spec_width() as nat, source.spec_height() as nat);
                let (tw, th) = target_edges(
                    self.spec_config().spec_maximum_edge() as nat,
                    sw,
                    sh,
                );
                match r {
                    Ok(frame) => {
                        &&& frame.spec_monitor_id() == input.spec_monitor_id()
                        &&& frame.spec_captured_at_ms() == input.spec_captured_at_ms()
                        &&& frame.spec_dimensions().spec_width() == tw
                        &&& frame.spec_dimensions().spec_height() == th
                        &&& frame.spec_pixels().len() == tw * 4 * th
                        &&& forall|k: int|
                            0 <= k < frame.spec_pixels().len() ==> #[trigger] frame.spec_pixels()[k] as nat
                                == scaled_byte(
                                input.spec_pixels(),
                                input.spec_stride() as nat,
                                sw,
                                sh,
                                tw,
                                th,
                                k as nat,
                            )
                        &&& forall|row: u64, column: u64|
                            row < 8 && column < 8 ==> #[trigger] hash_bit(
                                frame.spec_fingerprint(),
                                row,
                                column,
                            ) == fingerprint_bit(
                                frame.spec_pixels(),
                                tw * 4,
                                tw,
                                th,
                                row as nat,
                                column as nat,
                            )
                    },
                    Err(e) => tw * 4 * th > usize::MAX && e == FrameError::ArithmeticOverflow,
                }
            }),
    {
        let target = match self.config.target(input.dimensions()) {
            Ok(t) => t,
            Err(e) => return Err(e),
        };
        let pixels = scale_bgra(&input, target)?;
        let fingerprint = difference_hash(pixels.as_slice(), target);
        let monitor_id = input.monitor_id().clone();
        let captured_at_ms = input.captured_at_ms();
        Ok(PreparedFrame::new(monitor_id, captured_at_ms, target, pixels, fingerprint))
    }
}

impl Default for FramePreparationConfig {
    fn default() -> (c: Self)
        ensures
            c.spec_maximum_edge() == DEFAULT_MAXIMUM_EDGE,
    {
        FramePreparationConfig { maximum_edge: DEFAULT_MAXIMUM_EDGE }
    }
}

impl Default for FramePreparer {
    fn default() -> (p: Self)
        ensures
            p.spec_config().spec_maximum_edge() == DEFAULT_MAXIMUM_EDGE,
    {
        FramePreparer { config: FramePreparationConfig { maximum_edge: DEFAULT_MAXIMUM_EDGE } }
    }
}

} // verus!
