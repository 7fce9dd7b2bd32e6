use vstd::prelude::*;

use crate::health::InferenceErrorKind;
use crate::ocr_contract::{OcrResourceLimits, OcrTensorError};

verus! {

// ---------------------------------------------------------------------------
// One OCR pass over the detected text boxes.
//
// The pass first probes every detected box, in order, for whether a recognizer input can be
// built from it; boxes whose coordinates or geometry cannot be used are skipped and counted.
// It then recognizes the usable boxes in order, in batches of at most the batch size, while
// the character budget lasts. The caller performs each action and answers with an event.
// ---------------------------------------------------------------------------

/// Where a pass stands: how many boxes were detected, probed, found usable and skipped, how
/// many usable boxes were recognized, and how many characters they gave.
#[derive(Debug, Clone, Copy, PartialEq, Eq, Structural)]
pub struct OcrPassState {
    pub boxes: usize,
    pub probed: usize,
    pub usable: usize,
    pub skipped: usize,
    pub processed: usize,
    pub characters: usize,
}

/// What the caller does next.
#[derive(Debug, Clone, Copy, PartialEq, Eq, Structural)]
pub enum OcrPassAction {
    /// Build a recognizer input from detected box `index` alone, to see whether it is usable.
    ProbeBox { index: usize },
    /// Recognize the usable boxes `first .. first + count`, decoding at most
    /// `remaining_characters` characters.
    RecognizeBatch { first: usize, count: usize, remaining_characters: usize },
    /// The pass is over.
    Finish { skipped_boxes: usize, resource_limit_reached: bool },
    /// The pass failed.
    Fail { kind: InferenceErrorKind },
}

/// What the caller reports back.
#[derive(Debug, Clone, Copy, PartialEq, Eq, Structural)]
pub enum OcrPassEvent {
    /// Ask for the first action.
    Begin,
    /// A recognizer input could be built from the box asked for.
    BoxUsable,
    /// Building a recognizer input from the box asked for failed with `error`.
    BoxRefused { error: OcrTensorError },
    /// The batch asked for was recognized and gave `characters` characters.
    Decoded { characters: usize },
    /// Building, running or decoding the batch failed with `kind`.
    Failed { kind: InferenceErrorKind },
}

impl OcrPassState {
    /// The consistency of the counts.
    pub open spec fn wf(self) -> bool {
        &&& self.probed <= self.boxes
        &&& self.usable + self.skipped == self.probed
        &&& self.processed <= self.usable
    }

    /// A pass over `boxes` detected boxes, before anything was probed.
    pub fn start(boxes: usize) -> (state: Self)
        ensures
            state.wf(),
            state == (OcrPassState {
                boxes,
                probed: 0,
                usable: 0,
                skipped: 0,
                processed: 0,
                characters: 0,
            }),
    {
        OcrPassState { boxes, probed: 0, usable: 0, skipped: 0, processed: 0, characters: 0 }
    }
}

/// The smaller of two counts.
pub open spec fn smaller(a: int, b: int) -> int {
    if a <= b {
        a
    } else {
        b
    }
}

/// The action a state asks for: probe the next box while any is unprobed; then recognize
/// the next batch of usable boxes while any is left and the character budget is not spent;
/// then finish, the resource limit reached exactly where usable boxes were left unrecognized.
pub open spec fn pass_action(state: OcrPassState, limits: OcrResourceLimits) -> OcrPassAction {
    if state.probed < state.boxes {
        OcrPassAction::ProbeBox { index: state.probed }
    } else if state.processed < state.usable && state.characters < limits.maximum_total_characters {
        OcrPassAction::RecognizeBatch {
            first: state.processed,
            count: smaller(limits.maximum_batch_size as int, state.usable - state.processed) as usize,
            remaining_characters: (limits.maximum_total_characters - state.characters) as usize,
        }
    } else {
        OcrPassAction::Finish {
            skipped_boxes: state.skipped,
            resource_limit_reached: state.processed < state.usable,
        }
    }
}

/// A probe error that only makes its box unusable.
pub open spec fn skips_box(error: OcrTensorError) -> bool {
    error == OcrTensorError::InvalidCoordinate || error == OcrTensorError::InvalidGeometry
}

/// The next state and action. A usable probe counts the box as usable; a probe that fails
/// for the box's coordinates or geometry skips and counts it; any other probe error fails
/// the pass with `InputPreparation`. A decoded batch moves past its boxes and adds its
/// characters, failing with `OutputInvalid` where the count overflows. A failed batch fails
/// the pass with its kind. An event that answers no pending action fails the pass with
/// `InputPreparation`, the state unchanged.
pub open spec fn ocr_pass_next(state: OcrPassState, event: OcrPassEvent, limits: OcrResourceLimits) -> (
    OcrPassState,
    OcrPassAction,
) {
    let out_of_turn = (state, OcrPassAction::Fail { kind: InferenceErrorKind::InputPreparation });
    match event {
        OcrPassEvent::Begin => (state, pass_action(state, limits)),
        OcrPassEvent::BoxUsable => match pass_action(state, limits) {
            OcrPassAction::ProbeBox { .. } => {
                let next = OcrPassState {
                    probed: (state.probed + 1) as usize,
                    usable: (state.usable + 1) as usize,
                    ..state
                };
                (next, pass_action(next, limits))
            },
            _ => out_of_turn,
        },
        OcrPassEvent::BoxRefused { error } => match pass_action(state, limits) {
            OcrPassAction::ProbeBox { .. } => if skips_box(error) {
                let next = OcrPassState {
                    probed: (state.probed + 1) as usize,
                    skipped: (state.skipped + 1) as usize,
                    ..state
                };
                (next, pass_action(next, limits))
            } else {
                out_of_turn
            },
            _ => out_of_turn,
        },
        OcrPassEvent::Decoded { characters } => match pass_action(state, limits) {
            OcrPassAction::RecognizeBatch { count, .. } => if state.characters + characters > usize::MAX {
                (state, OcrPassAction::Fail { kind: InferenceErrorKind::OutputInvalid })
            } else {
                let next = OcrPassState {
                    processed: (state.processed + count) as usize,
                    characters: (state.characters + characters) as usize,
                    ..state
                };
                (next, pass_action(next, limits))
            },
            _ => out_of_turn,
        },
        OcrPassEvent::Failed { kind } => (state, OcrPassAction::Fail { kind }),
    }
}

/// The action a state asks for.
fn next_action(state: OcrPassState, limits: &OcrResourceLimits) -> (action: OcrPassAction)
    requires
        state.wf(),
    ensures
        action == pass_action(state, *limits),
{
    if state.probed < state.boxes {
        OcrPassAction::ProbeBox { index: state.probed }
    } else if state.processed < state.usable && state.characters < limits.maximum_total_characters {
        let left = state.usable - state.processed;
        let count = if limits.maximum_batch_size <= left {
            limits.maximum_batch_size
        } else {
            left
        };
        OcrPassAction::RecognizeBatch {
            first: state.processed,
            count,
            remaining_characters: limits.maximum_total_characters - state.characters,
        }
    } else {
        OcrPassAction::Finish {
            skipped_boxes: state.skipped,
            resource_limit_reached: state.processed < state.usable,
        }
    }
}

/// One step of an OCR pass: the next state and action for `event`.
pub fn ocr_pass_step(state: OcrPassState, event: OcrPassEvent, limits: &OcrResourceLimits) -> (r: (
    OcrPassState,
    OcrPassAction,
))
    requires
        state.wf(),
    ensures
        r == ocr_pass_next(state, event, *limits),
        r.0.wf(),
{
    let out_of_turn = (state, OcrPassAction::Fail { kind: InferenceErrorKind::InputPreparation });
    match event {
        OcrPassEvent::Begin => (state, next_action(state, limits)),
        OcrPassEvent::BoxUsable => match next_action(state, limits) {
            OcrPassAction::ProbeBox { .. } => {
                let next = OcrPassState { probed: state.probed + 1, usable: state.usable + 1, ..state };
                (next, next_action(next, limits))
            },
            _ => out_of_turn,
        },
        OcrPassEvent::BoxRefused { error } => match next_action(state, limits) {
            OcrPassAction::ProbeBox { .. } => {
                if error == OcrTensorError::InvalidCoordinate || error == OcrTensorError::InvalidGeometry {
                    let next = OcrPassState { probed: state.probed + 1, skipped: state.skipped + 1, ..state };
                    (next, next_action(next, limits))
                } else {
                    out_of_turn
                }
            },
            _ => out_of_turn,
        },
        OcrPassEvent::Decoded { characters } => match next_action(state, limits) {
            OcrPassAction::RecognizeBatch { count, .. } => match state.characters.checked_add(characters) {
                None => (state, OcrPassAction::Fail { kind: InferenceErrorKind::OutputInvalid }),
                Some(total) => {
                    let next = OcrPassState { processed: state.processed + count, characters: total, ..state };
                    (next, next_action(next, limits))
                },
            },
            _ => out_of_turn,
        },
        OcrPassEvent::Failed { kind } => (state, OcrPassAction::Fail { kind }),
    }
}

/// Boxes are recognized in order and in batches of at most the batch size: a batch starts at
/// the first usable box not yet recognized, and holds at least one and at most the batch
/// size of the usable boxes that are left.
pub proof fn lemma_batches_in_order(state: OcrPassState, limits: OcrResourceLimits)
    requires
        state.wf(),
        limits.maximum_batch_size > 0,
    ensures
        pass_action(state, limits) matches OcrPassAction::RecognizeBatch { first, count, remaining_characters } ==> {
            &&& first == state.processed
            &&& 0 < count <= limits.maximum_batch_size
            &&& first + count <= state.usable
            &&& remaining_characters > 0
            &&& state.probed == state.boxes
        },
{
}

/// The pass stops recognizing once the character budget is spent, and it reports the
/// resource limit reached exactly where usable boxes are left unrecognized when it stops.
pub proof fn lemma_budget_stops_the_pass(state: OcrPassState, limits: OcrResourceLimits)
    requires
        state.wf(),
        state.probed == state.boxes,
        state.characters >= limits.maximum_total_characters,
    ensures
        pass_action(state, limits) == (OcrPassAction::Finish {
            skipped_boxes: state.skipped,
            resource_limit_reached: state.processed < state.usable,
        }),
{
}

/// A finished pass reports the resource limit reached exactly where usable boxes are left
/// unrecognized, and that can only happen once the character budget is spent.
pub proof fn lemma_finish_reports_unrecognized_boxes(state: OcrPassState, limits: OcrResourceLimits)
    requires
        state.wf(),
    ensures
        pass_action(state, limits) matches OcrPassAction::Finish { skipped_boxes, resource_limit_reached } ==> {
            &&& skipped_boxes == state.skipped
            &&& resource_limit_reached == (state.processed < state.usable)
            &&& resource_limit_reached ==> state.characters >= limits.maximum_total_characters
        },
{
}

} // verus!
