use vstd::prelude::*;

use crate::frame::PreparedFrame;
use crate::observation::ImageInference;
use crate::text::str_eq;
use crate::word_pack::{OcrMatchSummary, WordPack};

verus! {

/// Classifies prepared frames by their image content.
pub trait ImageClassifier {
    type Error;

    fn classify(&mut self, frame: &PreparedFrame) -> Result<ImageInference, Self::Error>;
}

/// Recognises the text of prepared frames and matches it against a word pack.
pub trait OcrEngine {
    type Error;

    fn classify(&mut self, frame: &PreparedFrame, word_pack: &WordPack) -> Result<OcrMatchSummary, Self::Error>;

    /// The number of resource-limit events so far.
    fn resource_limit_events(&self) -> u64;
}

/// The memory layout of an image tensor.
#[derive(Debug, Clone, Copy, PartialEq, Eq, Structural)]
pub enum TensorLayout {
    Nchw,
}

/// The channel order of an image tensor.
#[derive(Debug, Clone, Copy, PartialEq, Eq, Structural)]
pub enum ColorOrder {
    Rgb,
}

/// A class of the image model and its output index.
#[derive(Debug, Clone, PartialEq, Eq)]
pub struct ModelLabel {
    pub index: usize,
    pub name: String,
}

/// Why an image model manifest was refused.
#[derive(Debug, Clone, Copy, PartialEq, Eq, Structural)]
pub enum ImageManifestError {
    InvalidAsset,
    InvalidSource,
    InvalidFile,
    InvalidOpset,
    InvalidRuntimeVersion,
    InvalidInputShape,
    InvalidTensorName,
    InvalidNormalization,
    InvalidLabels,
}

/// Why a classifier output was refused.
#[derive(Debug, Clone, Copy, PartialEq, Eq, Structural)]
pub enum ClassifierOutputError {
    LengthMismatch,
    InvalidLabels,
    InvalidProbability,
    InvalidProbabilitySum,
}

/// Why an image tensor could not be built.
#[derive(Debug, Clone, Copy, PartialEq, Eq, Structural)]
pub enum ImageTensorError {
    InvalidContract,
    ArithmeticOverflow,
    InvalidFrameBuffer,
}

/// Why a CTC dictionary or decoding was refused.
#[derive(Debug, Clone, Copy, PartialEq, Eq, Structural)]
pub enum CtcError {
    InvalidDictionary,
    InvalidConfiguration,
    InvalidShape,
    ClassCountMismatch,
    InvalidLogitCount,
    ArithmeticOverflow,
    NonFiniteLogits,
}

/// Why a detection map was refused.
#[derive(Debug, Clone, Copy, PartialEq, Eq, Structural)]
pub enum DetectionMapError {
    InvalidDimensions,
    InvalidElementCount,
    NonFiniteValue,
    OutOfRangeValue,
    InvalidThreshold,
    InvalidRegion,
}

/// Why text regions could not be extracted from a detection map.
#[derive(Debug, Clone, Copy, PartialEq, Eq, Structural)]
pub enum DbPostProcessError {
    InvalidConfiguration,
    InvalidMap,
}

/// The repository the image model comes from.
pub const VIDDEXA_REPOSITORY: &'static str = "https://huggingface.co/viddexa/nsfw-detection-2-nano";

/// The pinned revision of the image model.
pub const VIDDEXA_REVISION: &'static str = "913bc502e69fa3edfe2cfce72c98cad4ddc6149b";

/// The classes of the image model.
pub const VIDDEXA_LABELS: [&'static str; 5] = ["normal", "hentai", "porn", "sexy", "drawing"];

/// The number of times `label` occurs in `labels`.
pub open spec fn occurrences(labels: Seq<String>, label: Seq<char>) -> nat
    decreases labels.len(),
{
    if labels.len() == 0 {
        0
    } else {
        occurrences(labels.drop_last(), label) + (if labels.last()@ == label {
            1nat
        } else {
            0nat
        })
    }
}

fn count_label(labels: &[String], label: &str) -> (n: usize)
    ensures
        n == occurrences(labels@, label@),
{
    let mut n: usize = 0;
    let mut i: usize = 0;
    while i < labels.len()
        invariant
            i <= labels@.len(),
            n == occurrences(labels@.take(i as int), label@),
            n <= i,
        decreases labels@.len() - i,
    {
        assert(labels@.take(i + 1).drop_last() =~= labels@.take(i as int));
        if str_eq(labels[i].as_str(), label) {
            n = n + 1;
        }
        i = i + 1;
    }
    assert(labels@.take(labels@.len() as int) =~= labels@);
    n
}

/// The labels are exactly the image model's classes, each once, in any order.
pub open spec fn labels_are_model_classes(labels: Seq<String>) -> bool {
    &&& labels.len() == 5
    &&& forall|k: int| 0 <= k < 5 ==> occurrences(labels, #[trigger] VIDDEXA_LABELS@[k]@) == 1
}

/// Whether classifier output labels are exactly the image model's classes, each once.
pub fn has_model_labels(labels: &[String]) -> (ok: bool)
    ensures
        ok == labels_are_model_classes(labels@),
{
    if labels.len() != 5 {
        return false;
    }
    let required = VIDDEXA_LABELS;
    let mut k: usize = 0;
    while k < 5
        invariant
            k <= 5,
            labels@.len() == 5,
            required == VIDDEXA_LABELS,
            forall|j: int| 0 <= j < k ==> occurrences(labels@, #[trigger] VIDDEXA_LABELS@[j]@) == 1,
        decreases 5 - k,
    {
        if count_label(labels, required[k]) != 1 {
            return false;
        }
        k = k + 1;
    }
    true
}

} // verus!
