use vstd::prelude::*;

use crate::health::{InferenceError, InferenceErrorKind};

verus! {

/// The first four bytes of a reference tensor file: `KOR1`.
pub const REFERENCE_MAGIC: [u8; 4] = [0x4b, 0x4f, 0x52, 0x31];

/// The most dimensions a reference tensor may have.
pub const MAX_REFERENCE_RANK: u32 = 8;

/// The little-endian `u32` stored in the four bytes at `at`.
pub open spec fn le_u32(bytes: Seq<u8>, at: int) -> nat {
    (bytes[at] + 256 * bytes[at + 1] + 65536 * bytes[at + 2] + 16777216 * bytes[at + 3]) as nat
}

/// The `rank` dimensions stored after the eight-byte header start.
pub open spec fn dims_of(bytes: Seq<u8>, rank: nat) -> Seq<nat> {
    Seq::new(rank, |i: int| le_u32(bytes, 8 + 4 * i))
}

/// The product of the numbers.
pub open spec fn product(s: Seq<nat>) -> nat
    decreases s.len(),
{
    if s.len() == 0 {
        1
    } else {
        product(s.drop_last()) * s.last()
    }
}

/// A reference tensor file: `KOR1`, a little-endian rank from one to eight, that many
/// little-endian non-zero dimensions, then exactly four bytes per element.
pub open spec fn reference_layout_ok(bytes: Seq<u8>) -> bool {
    &&& bytes.len() >= 8
    &&& bytes.subrange(0, 4) == REFERENCE_MAGIC@
    &&& 1 <= le_u32(bytes, 4) <= MAX_REFERENCE_RANK
    &&& bytes.len() >= 8 + 4 * le_u32(bytes, 4)
    &&& forall|i: int| 0 <= i < le_u32(bytes, 4) ==> #[trigger] dims_of(bytes, le_u32(bytes, 4))[i] > 0
    &&& 8 + 4 * le_u32(bytes, 4) + 4 * product(dims_of(bytes, le_u32(bytes, 4))) == bytes.len()
}

/// Where the elements of a reference tensor file are: its shape, and the offset at which its
/// four-byte elements start.
pub struct ReferenceLayout {
    pub shape: Vec<usize>,
    pub payload_offset: usize,
}

fn le_u32_at(bytes: &[u8], at: usize) -> (v: usize)
    requires
        at + 4 <= bytes@.len(),
    ensures
        v == le_u32(bytes@, at as int),
{
    let value: u64 = bytes[at] as u64 + 256 * (bytes[at + 1] as u64) + 65536 * (bytes[at + 2] as u64)
        + 16777216 * (bytes[at + 3] as u64);
    assert(value < 0x1_0000_0000);
    value as usize
}

proof fn lemma_product_grows(s: Seq<nat>, j: int)
    requires
        0 <= j <= s.len(),
        forall|k: int| 0 <= k < s.len() ==> #[trigger] s[k] >= 1,
    ensures
        product(s.take(j)) <= product(s),
    decreases s.len(),
{
    if j < s.len() {
        let rest = s.drop_last();
        assert forall|k: int| 0 <= k < rest.len() implies #[trigger] rest[k] >= 1 by {
            assert(rest[k] == s[k]);
        }
        lemma_product_grows(rest, j);
        assert(rest.take(j) =~= s.take(j));
        let a = product(rest);
        let b = s.last();
        assert(a <= a * b) by (nonlinear_arith)
            requires
                b >= 1,
        ;
    } else {
        assert(s.take(j) =~= s);
    }
}

/// Reads the layout of a reference tensor file; `None` where the file is not one.
pub fn parse_reference_layout(bytes: &[u8]) -> (r: Option<ReferenceLayout>)
    ensures
        r is Some <==> reference_layout_ok(bytes@),
        r matches Some(layout) ==> {
            &&& layout.shape@.len() == le_u32(bytes@, 4)
            &&& forall|i: int|
                0 <= i < layout.shape@.len() ==> #[trigger] layout.shape@[i] == dims_of(
                    bytes@,
                    le_u32(bytes@, 4),
                )[i]
            &&& layout.payload_offset == 8 + 4 * le_u32(bytes@, 4)
        },
{
    if bytes.len() < 8 {
        return None;
    }
    let magic = REFERENCE_MAGIC;
    if bytes[0] != magic[0] || bytes[1] != magic[1] || bytes[2] != magic[2] || bytes[3] != magic[3] {
        proof {
            if bytes@.subrange(0, 4) == REFERENCE_MAGIC@ {
                assert(bytes@.subrange(0, 4)[0] == bytes@[0]);
                assert(bytes@.subrange(0, 4)[1] == bytes@[1]);
                assert(bytes@.subrange(0, 4)[2] == bytes@[2]);
                assert(bytes@.subrange(0, 4)[3] == bytes@[3]);
            }
        }
        return None;
    }
    assert(bytes@.subrange(0, 4) =~= REFERENCE_MAGIC@);
    let rank = le_u32_at(bytes, 4);
    if rank == 0 || rank > 8 {
        return None;
    }
    let header = 8 + 4 * rank;
    if bytes.len() < header {
        return None;
    }
    let ghost dims = dims_of(bytes@, rank as nat);
    let mut shape: Vec<usize> = Vec::new();
    let mut elements: usize = 1;
    let mut i: usize = 0;
    while i < rank
        invariant
            rank == le_u32(bytes@, 4),
            1 <= rank <= 8,
            header == 8 + 4 * rank,
            header <= bytes@.len(),
            dims == dims_of(bytes@, rank as nat),
            i <= rank,
            shape@.len() == i,
            forall|k: int| 0 <= k < i ==> #[trigger] shape@[k] == dims[k] && dims[k] > 0,
            elements == product(dims.take(i as int)),
        decreases rank - i,
    {
        let dimension = le_u32_at(bytes, 8 + 4 * i);
        assert(dimension == dims[i as int]);
        assert(dims.take(i + 1).drop_last() =~= dims.take(i as int));
        if dimension == 0 {
            assert(dims_of(bytes@, le_u32(bytes@, 4))[i as int] == 0);
            return None;
        }
        match elements.checked_mul(dimension) {
            Some(next) => {
                elements = next;
            },
            None => {
                proof {
                    assert(dims.take(i + 1).last() == dims[i as int]);
                    assert(product(dims.take(i + 1)) == elements * dimension);
                    assert(bytes@.len() == bytes.len());
                    if reference_layout_ok(bytes@) {
                        assert forall|k: int| 0 <= k < dims.len() implies #[trigger] dims[k] >= 1 by {
                            assert(dims_of(bytes@, le_u32(bytes@, 4))[k] > 0);
                        }
                        lemma_product_grows(dims, i + 1);
                        assert(product(dims) > usize::MAX);
                    }
                }
                return None;
            },
        }
        shape.push(dimension);
        i = i + 1;
    }
    assert(dims.take(rank as int) =~= dims);
    assert forall|k: int| 0 <= k < le_u32(bytes@, 4) implies #[trigger] dims_of(bytes@, le_u32(bytes@, 4))[k]
        > 0 by {
        assert(shape@[k] == dims[k]);
    }
    let payload = match elements.checked_mul(4) {
        Some(n) => n,
        None => return None,
    };
    match header.checked_add(payload) {
        Some(total) => {
            if total != bytes.len() {
                return None;
            }
        },
        None => return None,
    }
    Some(ReferenceLayout { shape, payload_offset: header })
}


// ---------------------------------------------------------------------------
// Shapes of the OCR reference tensors.
// ---------------------------------------------------------------------------

/// A detector reference input: one three-channel image whose height and width are multiples
/// of 32 from 32 to 640.
pub open spec fn detector_reference_shape_ok(shape: Seq<usize>) -> bool {
    &&& shape.len() == 4
    &&& shape[0] == 1
    &&& shape[1] == 3
    &&& 32 <= shape[2] <= 640
    &&& 32 <= shape[3] <= 640
    &&& shape[2] % 32 == 0
    &&& shape[3] % 32 == 0
}

/// A recognizer reference input: one three-channel line 48 pixels high and 1 to 320 wide.
pub open spec fn recognizer_reference_shape_ok(shape: Seq<usize>) -> bool {
    &&& shape.len() == 4
    &&& shape[0] == 1
    &&& shape[1] == 3
    &&& shape[2] == 48
    &&& 1 <= shape[3] <= 320
}

/// Checks the shape of the detector reference input and gives its height and width.
pub fn check_detector_reference_shape(shape: &[usize]) -> (r: Result<(usize, usize), InferenceError>)
    ensures
        match r {
            Ok((h, w)) => detector_reference_shape_ok(shape@) && shape@ == seq![1usize, 3usize, h, w],
            Err(e) => !detector_reference_shape_ok(shape@) && e.spec_kind() == InferenceErrorKind::OcrReferenceInvalid,
        },
{
    if shape.len() != 4 {
        return Err(InferenceError::new(InferenceErrorKind::OcrReferenceInvalid));
    }
    let (batch, channels, height, width) = (shape[0], shape[1], shape[2], shape[3]);
    if batch != 1 || channels != 3 || height < 32 || height > 640 || width < 32 || width > 640
        || height % 32 != 0 || width % 32 != 0 {
        return Err(InferenceError::new(InferenceErrorKind::OcrReferenceInvalid));
    }
    assert(shape@ =~= seq![1usize, 3usize, height, width]);
    Ok((height, width))
}

/// Checks the shape of the recognizer reference input and gives its width.
pub fn check_recognizer_reference_shape(shape: &[usize]) -> (r: Result<usize, InferenceError>)
    ensures
        match r {
            Ok(w) => recognizer_reference_shape_ok(shape@) && shape@ == seq![1usize, 3usize, 48usize, w],
            Err(e) => !recognizer_reference_shape_ok(shape@) && e.spec_kind()
                == InferenceErrorKind::OcrReferenceInvalid,
        },
{
    if shape.len() != 4 {
        return Err(InferenceError::new(InferenceErrorKind::OcrReferenceInvalid));
    }
    if shape[0] != 1 || shape[1] != 3 || shape[2] != 48 || shape[3] < 1 || shape[3] > 320 {
        return Err(InferenceError::new(InferenceErrorKind::OcrReferenceInvalid));
    }
    assert(shape@ =~= seq![1usize, 3usize, 48usize, shape[3]]);
    Ok(shape[3])
}

/// Checks that the detector's output on the reference input is one single-channel map of
/// the input's height and width.
pub fn check_detector_reference_output_shape(shape: &[usize], height: usize, width: usize) -> (r: Result<
    (),
    InferenceError,
>)
    ensures
        match r {
            Ok(()) => shape@ == seq![1usize, 1usize, height, width],
            Err(e) => shape@ != seq![1usize, 1usize, height, width] && e.spec_kind()
                == InferenceErrorKind::OcrReferenceInvalid,
        },
{
    if shape.len() != 4 || shape[0] != 1 || shape[1] != 1 || shape[2] != height || shape[3] != width {
        proof {
            if shape@ == seq![1usize, 1usize, height, width] {
                assert(shape@[0] == 1usize);
            }
        }
        return Err(InferenceError::new(InferenceErrorKind::OcrReferenceInvalid));
    }
    assert(shape@ =~= seq![1usize, 1usize, height, width]);
    Ok(())
}

} // verus!
