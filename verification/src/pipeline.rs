//! The capture-and-persist step machine.
//!
//! On commit the selection is captured, written to disk and pushed to the
//! clipboard, in five strictly ordered steps, each a possible failure
//! point: resolve a screen, capture the rectangle's pixels, prepare the
//! output directory, save the image under a timestamped name, copy the
//! pixels to the clipboard.  The steps themselves are outside work; this
//! machine holds every decision between them.  The shell performs the
//! pending action, reports what happened, and the machine answers with the
//! next action, stopping at the first failure.  One chosen policy: a
//! clipboard failure after a successful save does not discard the saved
//! file — the outcome still reports the save as done and carries the
//! clipboard failure separately.
//!
//! Events that do not answer the pending action are ignored: the machine
//! stays where it is and re-issues what it is waiting for.

use vstd::prelude::*;

use crate::geometry::SelectionRectangle;

verus! {

/// Everything that can go wrong while capturing and persisting a selection.
#[derive(Clone, Copy, Debug, PartialEq, Eq, Structural)]
pub enum CaptureError {
    /// The capture backend reported no usable screen.
    NoScreenAvailable,
    /// The capture backend could not produce pixels for the rectangle.
    CaptureFailed,
    /// The output directory could not be created.
    DirectoryCreateFailed,
    /// The captured pixels could not be encoded as an image.
    EncodeFailed,
    /// The encoded image could not be written to disk.
    WriteFailed,
    /// The pixels could not be placed on the clipboard.
    ClipboardFailed,
}

/// How the save step ended, as the shell reports it.
#[derive(Clone, Copy, Debug, PartialEq, Eq, Structural)]
pub enum SaveStatus {
    /// The image is on disk.
    Saved,
    /// No filename could be derived because the local clock was unusable;
    /// nothing was written.
    ClockUnavailable,
    /// Encoding the pixels failed.
    EncodeError,
    /// Writing the encoded file failed.
    WriteError,
}

/// What the shell reports back after performing a pending action.
#[derive(Clone, Copy, Debug, PartialEq, Eq, Structural)]
pub enum PipelineEvent {
    /// Whether the capture backend reported at least one screen.
    ScreenFound(bool),
    /// Whether the rectangle's pixels could be captured.
    CaptureDone(bool),
    /// Whether the output directory exists now.
    DirectoryReady(bool),
    /// How saving the image ended.
    SaveDone(SaveStatus),
    /// Whether the pixels reached the clipboard.
    ClipboardDone(bool),
}

/// How one whole capture ended.
#[derive(Clone, Copy, Debug, PartialEq, Eq, Structural)]
pub enum PipelineOutcome {
    /// The image was saved; `clipboard_ok` tells whether the clipboard copy
    /// also succeeded.  A clipboard failure does not undo the save.
    Saved { clipboard_ok: bool },
    /// The pipeline stopped at its first failure, with the step's error.
    Failed(CaptureError),
}

/// Where in the five steps one capture currently stands.
#[derive(Clone, Copy, Debug, PartialEq, Eq, Structural)]
pub enum PipelineStage {
    /// Waiting to learn whether a screen exists.
    FindingScreen,
    /// Waiting for the rectangle's pixels.
    Capturing,
    /// Waiting for the output directory.
    PreparingDirectory,
    /// Waiting for the image file.
    Saving,
    /// Waiting for the clipboard copy.
    CopyingToClipboard,
    /// Done, with the overall outcome.
    Finished(PipelineOutcome),
}

/// What the shell must do next for the machine.
#[derive(Clone, Copy, Debug, PartialEq, Eq, Structural)]
pub enum PipelineAction {
    /// Ask the capture backend for its screens and report whether there is
    /// one.
    ListScreens,
    /// Capture the pixels of this rectangle, in absolute screen
    /// coordinates.
    CaptureArea(SelectionRectangle),
    /// Resolve the output directory and create it if absent.
    PrepareDirectory,
    /// Derive the timestamped filename and write the captured image there.
    SaveImage,
    /// Push the captured pixels to the clipboard.
    CopyToClipboard,
    /// Nothing is left to do; this is how it all ended.
    Report(PipelineOutcome),
}

/// One capture in progress: the rectangle it is about, and how far it has
/// come.
#[derive(Clone, Copy, Debug, PartialEq, Eq, Structural)]
pub struct CapturePipeline {
    pub stage: PipelineStage,
    pub rect: SelectionRectangle,
}

/// The action a pipeline in this state is waiting on.
pub open spec fn spec_pending_action(p: CapturePipeline) -> PipelineAction {
    match p.stage {
        PipelineStage::FindingScreen => PipelineAction::ListScreens,
        PipelineStage::Capturing => PipelineAction::CaptureArea(p.rect),
        PipelineStage::PreparingDirectory => PipelineAction::PrepareDirectory,
        PipelineStage::Saving => PipelineAction::SaveImage,
        PipelineStage::CopyingToClipboard => PipelineAction::CopyToClipboard,
        PipelineStage::Finished(outcome) => PipelineAction::Report(outcome),
    }
}

/// The transition relation: each stage consumes exactly the event that
/// answers its pending action, moving on when the step succeeded and
/// finishing with that step's error when it failed; any other event leaves
/// the pipeline unchanged.
pub open spec fn spec_step(p: CapturePipeline, e: PipelineEvent) -> CapturePipeline {
    let stage = match (p.stage, e) {
        (PipelineStage::FindingScreen, PipelineEvent::ScreenFound(true)) => PipelineStage::Capturing,
        (PipelineStage::FindingScreen, PipelineEvent::ScreenFound(false)) => PipelineStage::Finished(
            PipelineOutcome::Failed(CaptureError::NoScreenAvailable),
        ),
        (PipelineStage::Capturing, PipelineEvent::CaptureDone(true)) => PipelineStage::PreparingDirectory,
        (PipelineStage::Capturing, PipelineEvent::CaptureDone(false)) => PipelineStage::Finished(
            PipelineOutcome::Failed(CaptureError::CaptureFailed),
        ),
        (PipelineStage::PreparingDirectory, PipelineEvent::DirectoryReady(true)) => PipelineStage::Saving,
        (PipelineStage::PreparingDirectory, PipelineEvent::DirectoryReady(false)) => PipelineStage::Finished(
            PipelineOutcome::Failed(CaptureError::DirectoryCreateFailed),
        ),
        (PipelineStage::Saving, PipelineEvent::SaveDone(SaveStatus::Saved)) => PipelineStage::CopyingToClipboard,
        (PipelineStage::Saving, PipelineEvent::SaveDone(SaveStatus::ClockUnavailable)) => PipelineStage::Finished(
            PipelineOutcome::Failed(CaptureError::WriteFailed),
        ),
        (PipelineStage::Saving, PipelineEvent::SaveDone(SaveStatus::EncodeError)) => PipelineStage::Finished(
            PipelineOutcome::Failed(CaptureError::EncodeFailed),
        ),
        (PipelineStage::Saving, PipelineEvent::SaveDone(SaveStatus::WriteError)) => PipelineStage::Finished(
            PipelineOutcome::Failed(CaptureError::WriteFailed),
        ),
        (PipelineStage::CopyingToClipboard, PipelineEvent::ClipboardDone(ok)) => PipelineStage::Finished(
            PipelineOutcome::Saved { clipboard_ok: ok },
        ),
        _ => p.stage,
    };
    CapturePipeline { stage, rect: p.rect }
}

impl CapturePipeline {
    /// A capture of `rect` about to begin: the first thing to learn is
    /// whether there is a screen at all.
    pub fn begin(rect: SelectionRectangle) -> (p: CapturePipeline)
        ensures
            p.stage == PipelineStage::FindingScreen,
            p.rect == rect,
            spec_pending_action(p) == PipelineAction::ListScreens,
    {
        CapturePipeline { stage: PipelineStage::FindingScreen, rect }
    }

    /// The action this pipeline is waiting on.
    pub fn pending_action(&self) -> (a: PipelineAction)
        ensures
            a == spec_pending_action(*self),
    {
        match self.stage {
            PipelineStage::FindingScreen => PipelineAction::ListScreens,
            PipelineStage::Capturing => PipelineAction::CaptureArea(self.rect),
            PipelineStage::PreparingDirectory => PipelineAction::PrepareDirectory,
            PipelineStage::Saving => PipelineAction::SaveImage,
            PipelineStage::CopyingToClipboard => PipelineAction::CopyToClipboard,
            PipelineStage::Finished(outcome) => PipelineAction::Report(outcome),
        }
    }

    /// Absorbs the shell's report on the pending action and returns the
    /// next action: the following step while steps succeed, and from the
    /// first failure on, the final report with that step's error.
    pub fn step(&mut self, e: PipelineEvent) -> (a: PipelineAction)
        ensures
            *final(self) == spec_step(*old(self), e),
            a == spec_pending_action(spec_step(*old(self), e)),
    {
        let next = match (self.stage, e) {
            (PipelineStage::FindingScreen, PipelineEvent::ScreenFound(true)) => PipelineStage::Capturing,
            (PipelineStage::FindingScreen, PipelineEvent::ScreenFound(false)) => PipelineStage::Finished(
                PipelineOutcome::Failed(CaptureError::NoScreenAvailable),
            ),
            (PipelineStage::Capturing, PipelineEvent::CaptureDone(true)) => PipelineStage::PreparingDirectory,
            (PipelineStage::Capturing, PipelineEvent::CaptureDone(false)) => PipelineStage::Finished(
                PipelineOutcome::Failed(CaptureError::CaptureFailed),
            ),
            (PipelineStage::PreparingDirectory, PipelineEvent::DirectoryReady(true)) => PipelineStage::Saving,
            (PipelineStage::PreparingDirectory, PipelineEvent::DirectoryReady(false)) => PipelineStage::Finished(
                PipelineOutcome::Failed(CaptureError::DirectoryCreateFailed),
            ),
            (PipelineStage::Saving, PipelineEvent::SaveDone(SaveStatus::Saved)) => PipelineStage::CopyingToClipboard,
            (
                PipelineStage::Saving,
                PipelineEvent::SaveDone(SaveStatus::ClockUnavailable),
            ) => PipelineStage::Finished(PipelineOutcome::Failed(CaptureError::WriteFailed)),
            (PipelineStage::Saving, PipelineEvent::SaveDone(SaveStatus::EncodeError)) => PipelineStage::Finished(
                PipelineOutcome::Failed(CaptureError::EncodeFailed),
            ),
            (PipelineStage::Saving, PipelineEvent::SaveDone(SaveStatus::WriteError)) => PipelineStage::Finished(
                PipelineOutcome::Failed(CaptureError::WriteFailed),
            ),
            (PipelineStage::CopyingToClipboard, PipelineEvent::ClipboardDone(ok)) => PipelineStage::Finished(
                PipelineOutcome::Saved { clipboard_ok: ok },
            ),
            _ => self.stage,
        };
        self.stage = next;
        self.pending_action()
    }
}

/// A capture-backend failure and a directory-creation failure surface as
/// distinct errors: the former ends the pipeline with `CaptureFailed`, the
/// latter with `DirectoryCreateFailed`, and the two are different values.
pub proof fn lemma_capture_and_directory_failures_distinct(p: CapturePipeline)
    ensures
        p.stage is Capturing ==> spec_step(p, PipelineEvent::CaptureDone(false)).stage
            == PipelineStage::Finished(PipelineOutcome::Failed(CaptureError::CaptureFailed)),
        p.stage is PreparingDirectory ==> spec_step(
            p,
            PipelineEvent::DirectoryReady(false),
        ).stage == PipelineStage::Finished(
            PipelineOutcome::Failed(CaptureError::DirectoryCreateFailed),
        ),
        CaptureError::CaptureFailed != CaptureError::DirectoryCreateFailed,
{
}

/// A finished pipeline stays finished: no further event moves it or
/// changes its outcome.
pub proof fn lemma_finished_is_terminal(p: CapturePipeline, e: PipelineEvent)
    requires
        p.stage is Finished,
    ensures
        spec_step(p, e) == p,
{
}

} // verus!
