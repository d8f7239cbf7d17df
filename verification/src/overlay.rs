//! The modal overlay, as far as the rest of the screen depends on it.

use vstd::prelude::*;

verus! {

#[derive(Clone, Copy, Debug, PartialEq, Eq, Structural)]
pub enum OverlayKind {
    Approval,
    Clarification,
    ModelPicker,
    ModePicker,
    ThemePicker,
    WorkModePicker,
    CollabPicker,
    UnsupportedMedia,
    CheckpointPicker,
}

#[derive(Debug)]
pub struct Overlay {
    pub kind: OverlayKind,
    /// What the status strip says while the overlay waits, where it says anything.
    pub status_hint: Option<String>,
    /// The tool call that an approval holds back.
    pub gated_call: Option<String>,
}

} // verus!
