use vstd::prelude::*;

use crate::assets::VerifiedImageModel;
use crate::engines::ModelLabel;
use crate::health::{InferenceError, InferenceErrorKind};
use crate::image_manifest::{image_manifest_verdict, labels_ok, ImageModelManifest};
use crate::text::str_eq;

verus! {

/// An input or output of a loaded model as the runtime describes it: its name, whether it is
/// a tensor of `f32`, and its shape where the runtime reports one (`-1` for a free
/// dimension).
pub struct TensorPort {
    pub name: String,
    pub is_f32_tensor: bool,
    pub shape: Option<Vec<i64>>,
}

/// The shape of the image model's output: one row of five class logits.
pub open spec fn logits_shape() -> Seq<i64> {
    seq![1i64, 5i64]
}

/// The manifest's input shape as the runtime writes shapes.
pub open spec fn manifest_input_shape(manifest: ImageModelManifest) -> Seq<i64> {
    manifest.input.shape@.map_values(|d: usize| d as i64)
}

/// A port is an `f32` tensor of this name and exactly this shape.
pub open spec fn port_matches(port: TensorPort, name: Seq<char>, shape: Seq<i64>) -> bool {
    &&& port.name@ == name
    &&& port.is_f32_tensor
    &&& port.shape matches Some(s) && s@ == shape
}

/// A loaded session matches the manifest: one input and one output, named as the manifest
/// names them, `f32` tensors, the input of the manifest's shape and the output of one row of
/// five logits.
pub open spec fn session_matches(inputs: Seq<TensorPort>, outputs: Seq<TensorPort>, manifest: ImageModelManifest) -> bool {
    &&& inputs.len() == 1
    &&& outputs.len() == 1
    &&& port_matches(inputs[0], manifest.input.name@, manifest_input_shape(manifest))
    &&& port_matches(outputs[0], manifest.output_name@, logits_shape())
}

fn shape_is(shape: &Option<Vec<i64>>, expected: &Vec<i64>) -> (same: bool)
    ensures
        same == (shape matches Some(s) && s@ == expected@),
{
    match shape {
        None => false,
        Some(s) => {
            if s.len() != expected.len() {
                return false;
            }
            let mut i: usize = 0;
            while i < s.len()
                invariant
                    *shape == Some(*s),
                    s@.len() == expected@.len(),
                    i <= s@.len(),
                    forall|j: int| 0 <= j < i ==> s@[j] == expected@[j],
                decreases s@.len() - i,
            {
                if s[i] != expected[i] {
                    assert(s@[i as int] != expected@[i as int]);
                    return false;
                }
                i = i + 1;
            }
            assert(s@ =~= expected@);
            true
        },
    }
}

/// Checks the inputs and outputs of a loaded session against the image model's manifest;
/// any difference is a model contract mismatch.
pub fn check_image_session(inputs: &[TensorPort], outputs: &[TensorPort], manifest: &ImageModelManifest) -> (r:
    Result<(), InferenceError>)
    ensures
        match r {
            Ok(()) => session_matches(inputs@, outputs@, *manifest),
            Err(e) => e.spec_kind() == InferenceErrorKind::ModelContractMismatch && !session_matches(
                inputs@,
                outputs@,
                *manifest,
            ),
        },
{
    let mismatch = InferenceError::new(InferenceErrorKind::ModelContractMismatch);
    if inputs.len() != 1 || outputs.len() != 1 {
        return Err(mismatch);
    }
    let input = &inputs[0];
    let output = &outputs[0];
    let dims = manifest.input.shape;
    let expected_input: Vec<i64> = vec![dims[0] as i64, dims[1] as i64, dims[2] as i64, dims[3] as i64];
    proof {
        assert(expected_input@ =~= manifest_input_shape(*manifest));
    }
    let expected_output: Vec<i64> = vec![1, 5];
    assert(expected_output@ =~= logits_shape());
    if !str_eq(input.name.as_str(), manifest.input.name.as_str()) || !input.is_f32_tensor || !shape_is(
        &input.shape,
        &expected_input,
    ) || !str_eq(output.name.as_str(), manifest.output_name.as_str()) || !output.is_f32_tensor
        || !shape_is(&output.shape, &expected_output) {
        return Err(mismatch);
    }
    Ok(())
}

/// A session has one input and one output, named as given, both `f32` tensors.
pub open spec fn single_io_matches(
    inputs: Seq<TensorPort>,
    outputs: Seq<TensorPort>,
    input_name: Seq<char>,
    output_name: Seq<char>,
) -> bool {
    &&& inputs.len() == 1
    &&& outputs.len() == 1
    &&& inputs[0].name@ == input_name
    &&& outputs[0].name@ == output_name
    &&& inputs[0].is_f32_tensor
    &&& outputs[0].is_f32_tensor
}

/// A text detector takes one three-channel image of any size and gives one probability map
/// of the same size.
pub open spec fn detector_session_matches(
    inputs: Seq<TensorPort>,
    outputs: Seq<TensorPort>,
    input_name: Seq<char>,
    output_name: Seq<char>,
) -> bool {
    &&& single_io_matches(inputs, outputs, input_name, output_name)
    &&& inputs[0].shape matches Some(s) && s@ == seq![1i64, 3i64, -1i64, -1i64]
    &&& outputs[0].shape matches Some(s) && s@ == seq![1i64, 1i64, -1i64, -1i64]
}

/// A text recognizer takes a batch of three-channel lines 48 pixels high and gives, per
/// line, a positive number of timesteps of `class_count` class scores.
pub open spec fn recognizer_session_matches(
    inputs: Seq<TensorPort>,
    outputs: Seq<TensorPort>,
    input_name: Seq<char>,
    output_name: Seq<char>,
    class_count: usize,
) -> bool {
    &&& single_io_matches(inputs, outputs, input_name, output_name)
    &&& class_count <= i64::MAX
    &&& inputs[0].shape matches Some(s) && s@ == seq![-1i64, 3i64, 48i64, -1i64]
    &&& outputs[0].shape matches Some(s) && s@.len() == 3 && s@[0] == -1 && s@[1] > 0 && s@[2]
        == class_count
}

fn single_io(inputs: &[TensorPort], outputs: &[TensorPort], input_name: &str, output_name: &str) -> (ok:
    bool)
    ensures
        ok == single_io_matches(inputs@, outputs@, input_name@, output_name@),
{
    inputs.len() == 1 && outputs.len() == 1 && str_eq(inputs[0].name.as_str(), input_name) && str_eq(
        outputs[0].name.as_str(),
        output_name,
    ) && inputs[0].is_f32_tensor && outputs[0].is_f32_tensor
}

/// Checks a text detector session against the bundle's tensor names; any difference is a
/// model contract mismatch.
pub fn check_detector_session(
    inputs: &[TensorPort],
    outputs: &[TensorPort],
    input_name: &str,
    output_name: &str,
) -> (r: Result<(), InferenceError>)
    ensures
        match r {
            Ok(()) => detector_session_matches(inputs@, outputs@, input_name@, output_name@),
            Err(e) => e.spec_kind() == InferenceErrorKind::ModelContractMismatch
                && !detector_session_matches(inputs@, outputs@, input_name@, output_name@),
        },
{
    let mismatch = InferenceError::new(InferenceErrorKind::ModelContractMismatch);
    if !single_io(inputs, outputs, input_name, output_name) {
        return Err(mismatch);
    }
    let expected_input: Vec<i64> = vec![1, 3, -1, -1];
    let expected_output: Vec<i64> = vec![1, 1, -1, -1];
    assert(expected_input@ =~= seq![1i64, 3i64, -1i64, -1i64]);
    assert(expected_output@ =~= seq![1i64, 1i64, -1i64, -1i64]);
    if !shape_is(&inputs[0].shape, &expected_input) || !shape_is(&outputs[0].shape, &expected_output) {
        return Err(mismatch);
    }
    Ok(())
}

/// Checks a text recognizer session against the bundle's tensor names and the number of
/// classes its dictionary gives; any difference is a model contract mismatch.
pub fn check_recognizer_session(
    inputs: &[TensorPort],
    outputs: &[TensorPort],
    input_name: &str,
    output_name: &str,
    class_count: usize,
) -> (r: Result<(), InferenceError>)
    ensures
        match r {
            Ok(()) => recognizer_session_matches(inputs@, outputs@, input_name@, output_name@, class_count),
            Err(e) => e.spec_kind() == InferenceErrorKind::ModelContractMismatch
                && !recognizer_session_matches(inputs@, outputs@, input_name@, output_name@, class_count),
        },
{
    let mismatch = InferenceError::new(InferenceErrorKind::ModelContractMismatch);
    if !single_io(inputs, outputs, input_name, output_name) {
        return Err(mismatch);
    }
    if class_count as u64 > 0x7fff_ffff_ffff_ffffu64 {
        return Err(mismatch);
    }
    let classes = class_count as i64;
    let expected_input: Vec<i64> = vec![-1, 3, 48, -1];
    assert(expected_input@ =~= seq![-1i64, 3i64, 48i64, -1i64]);
    if !shape_is(&inputs[0].shape, &expected_input) {
        return Err(mismatch);
    }
    match &outputs[0].shape {
        None => Err(mismatch),
        Some(shape) => {
            if shape.len() != 3 || shape[0] != -1 || shape[1] <= 0 || shape[2] != classes {
                return Err(mismatch);
            }
            Ok(())
        },
    }
}

/// The names of the labels ordered by their indices: each label's name stands at the
/// position of its index.
pub open spec fn names_in_index_order(labels: Seq<ModelLabel>, names: Seq<String>) -> bool {
    &&& names.len() == labels.len()
    &&& forall|i: int|
        0 <= i < labels.len() ==> (#[trigger] labels[i]).index < names.len() && names[labels[i].index as int]@
            == labels[i].name@
}

impl VerifiedImageModel {
    /// The class names in output order: the name of the label with index 0 first, and so on.
    pub fn labels_in_index_order(&self) -> (names: Vec<String>)
        ensures
            names_in_index_order(self.spec_manifest().labels@, names@),
    {
        let manifest = self.manifest();
        let labels = &manifest.labels;
        proof {
            assert(labels_ok(labels@)) by {
                assert(image_manifest_verdict(*manifest, true) is Ok);
            }
        }
        let mut names: Vec<String> = Vec::new();
        let mut k: usize = 0;
        while k < 5
            invariant
                labels@ == self.spec_manifest().labels@,
                labels_ok(labels@),
                k <= 5,
                names@.len() == k,
                forall|a: int|
                    0 <= a < labels@.len() && (#[trigger] labels@[a]).index < k ==> names@[labels@[a].index as int]@
                        == labels@[a].name@,
            decreases 5 - k,
        {
            let ghost before = names@;
            let mut i: usize = 0;
            while i < 5 && labels[i].index != k
                invariant
                    labels@.len() == 5,
                    i <= 5,
                    forall|a: int| 0 <= a < i ==> (#[trigger] labels@[a]).index != k,
                decreases 5 - i,
            {
                i = i + 1;
            }
            if i == 5 {
                proof {
                    lemma_every_index_is_used(labels@, k as int);
                }
                return names;
            }
            names.push(labels[i].name.clone());
            proof {
                assert forall|a: int|
                    0 <= a < labels@.len() && (#[trigger] labels@[a]).index < k + 1 implies names@[labels@[a].index as int]@
                        == labels@[a].name@ by {
                    if labels@[a].index < k {
                        assert(names@[labels@[a].index as int] == before[labels@[a].index as int]);
                    } else {
                        if a != i {
                            if a < i {
                                assert(labels@[a].index != labels@[i as int].index);
                            } else {
                                assert(labels@[i as int].index != labels@[a].index);
                            }
                        }
                    }
                }
            }
            k = k + 1;
        }
        names
    }
}

/// Five labels with distinct indices below five use every index below five.
proof fn lemma_every_index_is_used(labels: Seq<ModelLabel>, k: int)
    requires
        labels_ok(labels),
        0 <= k < 5,
    ensures
        exists|i: int| 0 <= i < labels.len() && #[trigger] labels[i].index == k,
{
    if !(exists|i: int| 0 <= i < labels.len() && #[trigger] labels[i].index == k) {
        let indices = Seq::new(5, |i: int| labels[i].index as int);
        assert forall|a: int, b: int| 0 <= a < b < 5 implies indices[a] != indices[b] by {
            assert(labels[a].index != labels[b].index);
        }
        assert forall|a: int| 0 <= a < 5 implies 0 <= #[trigger] indices[a] < 5 by {
            assert(labels[a].index < 5);
        }
        lemma_pigeonhole(indices, k);
        let a = choose|a: int| 0 <= a < 5 && #[trigger] indices[a] == k;
        assert(labels[a].index == k);
    }
}

/// Five distinct values below five take every value below five.
proof fn lemma_pigeonhole(values: Seq<int>, k: int)
    requires
        values.len() == 5,
        0 <= k < 5,
        forall|a: int, b: int| 0 <= a < b < 5 ==> values[a] != values[b],
        forall|a: int| 0 <= a < 5 ==> 0 <= #[trigger] values[a] < 5,
    ensures
        exists|a: int| 0 <= a < 5 && #[trigger] values[a] == k,
{
    if exists|a: int| 0 <= a < 5 && #[trigger] values[a] == k {
        return;
    }
    assert(values.no_duplicates()) by {
        assert forall|a: int, b: int| 0 <= a < values.len() && 0 <= b < values.len() && a != b implies values[a]
            != values[b] by {
            if a < b {
            } else {
            }
        }
    }
    values.unique_seq_to_set();
    let s = values.to_set();
    let range = vstd::set_lib::set_int_range(0, 5).remove(k);
    vstd::set_lib::lemma_int_range(0, 5);
    assert(s.subset_of(range)) by {
        assert forall|x: int| s.contains(x) implies range.contains(x) by {
            let a = choose|a: int| 0 <= a < values.len() && values[a] == x;
            assert(0 <= values[a] < 5);
            assert(values[a] != k);
        }
    }
    vstd::set_lib::lemma_len_subset(s, range);
}

} // verus!
