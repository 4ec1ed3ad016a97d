//! The order of work inside one stereo frame.
//!
//! A frame is a conversation: the driver names the next call to make, the
//! caller makes it and reports what came back, and the driver answers with
//! the call after that. The driver never touches the runtime or the GPU; it
//! only decides. What it guarantees is the order: the swapchain image is
//! acquired once, waited for before anything is drawn into it and released
//! before the frame ends, and every pass is submitted right after the upload
//! of the uniform that it reads.

use crate::xr::pose::{hand_usable, pose_usable, views_usable};
use vstd::prelude::*;

verus! {

/// One of the two tracked controllers.
#[derive(Clone, Copy, Debug, PartialEq, Eq, Structural)]
pub enum Hand {
    Left,
    Right,
}

/// One pass over a view's colour target, in the order in which a view runs
/// them.
#[derive(Clone, Copy, Debug, PartialEq, Eq, Structural)]
pub enum Stage {
    Sky,
    Scene,
    Grid,
    Marker { hand: Hand },
}

/// A uniform buffer. The scene and the hand markers share one.
#[derive(Clone, Copy, Debug, PartialEq, Eq, Structural)]
pub enum UniformSlot {
    Sky,
    Scene,
    Grid,
}

/// What a pass does with what an attachment already holds.
#[derive(Clone, Copy, Debug, PartialEq, Eq, Structural)]
pub enum Attachment {
    /// The pass does not bind the attachment.
    Unused,
    /// The pass starts from a cleared attachment.
    Clear,
    /// The pass draws over what earlier passes left.
    Load,
}

impl Stage {
    /// The place of this pass in a view's order, from 0.
    pub open spec fn rank(self) -> nat {
        match self {
            Stage::Sky => 0,
            Stage::Scene => 1,
            Stage::Grid => 2,
            Stage::Marker { hand: Hand::Left } => 3,
            Stage::Marker { hand: Hand::Right } => 4,
        }
    }

    /// The hand whose marker this pass draws; the left one for a pass that
    /// draws none.
    pub open spec fn hand(self) -> Hand {
        match self {
            Stage::Marker { hand } => hand,
            _ => Hand::Left,
        }
    }

    /// The uniform buffer that this pass reads.
    pub open spec fn slot(self) -> UniformSlot {
        match self {
            Stage::Sky => UniformSlot::Sky,
            Stage::Grid => UniformSlot::Grid,
            Stage::Scene => UniformSlot::Scene,
            Stage::Marker { .. } => UniformSlot::Scene,
        }
    }

    /// How this pass treats the colour target: the first pass of a view
    /// clears it, the others draw over it.
    pub open spec fn color(self) -> Attachment {
        if self == Stage::Sky {
            Attachment::Clear
        } else {
            Attachment::Load
        }
    }

    /// How this pass treats the depth target: the sky has none, the scene
    /// is the first to use it and clears it, the others test against it.
    pub open spec fn depth(self) -> Attachment {
        match self {
            Stage::Sky => Attachment::Unused,
            Stage::Scene => Attachment::Clear,
            _ => Attachment::Load,
        }
    }

    /// The uniform buffer that this pass reads.
    pub fn uniform_slot(&self) -> (slot: UniformSlot)
        ensures
            slot == self.slot(),
    {
        match self {
            Stage::Sky => UniformSlot::Sky,
            Stage::Grid => UniformSlot::Grid,
            _ => UniformSlot::Scene,
        }
    }

    /// How this pass treats the colour target.
    pub fn color_attachment(&self) -> (use_of: Attachment)
        ensures
            use_of == self.color(),
    {
        match self {
            Stage::Sky => Attachment::Clear,
            _ => Attachment::Load,
        }
    }

    /// How this pass treats the depth target.
    pub fn depth_attachment(&self) -> (use_of: Attachment)
        ensures
            use_of == self.depth(),
    {
        match self {
            Stage::Sky => Attachment::Unused,
            Stage::Scene => Attachment::Clear,
            _ => Attachment::Load,
        }
    }
}

/// How a frame ended.
#[derive(Clone, Copy, Debug, PartialEq, Eq, Structural)]
pub enum FrameOutcome {
    /// Every view was drawn and the frame was handed to the compositor.
    Rendered,
    /// The frame was ended without layers: the runtime asked for no
    /// rendering, or did not vouch for the located views.
    Skipped,
    /// A call into the runtime failed; its error goes to the caller's caller.
    CallFailed,
    /// The runtime handed out an image index that the swapchain does not have.
    ImageOutOfRange,
    /// The reply does not answer the call that was asked for.
    Unexpected,
}

/// The next call to make.
#[derive(Clone, Copy, Debug, PartialEq, Eq, Structural)]
pub enum FrameAction {
    /// Begin the frame.
    BeginFrame,
    /// Locate the views for the predicted display time.
    LocateViews,
    /// Acquire the next swapchain image.
    AcquireImage,
    /// Wait until the acquired image may be written.
    WaitImage,
    /// Get the targets of a view ready: a colour view onto array layer
    /// `layer` of swapchain image `image`, and the depth target.
    PrepareView { view: u32, image: u32, layer: u32 },
    /// Upload the uniform that pass `stage` of view `view` reads.
    WriteUniform { view: u32, slot: UniformSlot, stage: Stage },
    /// Record pass `stage` of view `view` and submit it. `pulled` says
    /// whether a hand marker is drawn in its pulled colour.
    SubmitPass { view: u32, stage: Stage, color: Attachment, depth: Attachment, pulled: bool },
    /// Locate a hand for the predicted display time.
    LocateHand { hand: Hand },
    /// Read a hand's trigger.
    ReadTrigger { hand: Hand },
    /// Release the swapchain image.
    ReleaseImage,
    /// End the frame without layers.
    EndFrameEmpty,
    /// End the frame with one projection layer of `views` views, view `i` on
    /// array layer `i`.
    EndFrameProjected { views: u32 },
    /// Nothing is left to do.
    Finish { outcome: FrameOutcome },
}

/// What the call that was asked for gave back.
#[derive(Clone, Copy, Debug, PartialEq, Eq, Structural)]
pub enum FrameReply {
    /// The call succeeded and gave nothing back.
    Done,
    /// The call failed.
    Failed,
    /// `LocateViews` succeeded with these view state flags and this many views.
    Views { flags: u64, count: u32 },
    /// `AcquireImage` succeeded with this image index.
    Image { index: u32 },
    /// `LocateHand` succeeded with these location flags.
    HandPose { flags: u64 },
    /// `ReadTrigger` succeeded; `pulled` says whether the trigger is past
    /// its threshold.
    Trigger { pulled: bool },
}

/// Where a frame stands: the call that was asked for last.
#[derive(Clone, Copy, Debug, PartialEq, Eq, Structural)]
pub enum Phase {
    Beginning,
    LocatingViews,
    Acquiring,
    Waiting,
    Preparing,
    Uploading,
    Submitting,
    LocatingHand,
    ReadingTrigger,
    Releasing,
    Ending,
    Finished,
}

/// The state of one frame.
#[derive(Clone, Copy, Debug, PartialEq, Eq, Structural)]
pub struct FrameState {
    pub phase: Phase,
    /// Whether the runtime asked for this frame to be rendered.
    pub should_render: bool,
    /// The number of images in the swapchain.
    pub image_count: usize,
    /// The number of located views; 0 until they are located.
    pub view_count: u32,
    /// The index of the acquired image; 0 until it is acquired.
    pub image: u32,
    /// The view that is being drawn.
    pub view: u32,
    /// The pass of that view that is being drawn.
    pub stage: Stage,
    /// Whether the pass that was submitted last drew a marker in its
    /// pulled colour.
    pub pulled: bool,
    /// Whether the views were drawn.
    pub rendered: bool,
    /// How the frame ended, once it has.
    pub outcome: FrameOutcome,
}

impl FrameState {
    /// The state right after `BeginFrame` was asked for.
    pub open spec fn initial(should_render: bool, image_count: usize) -> FrameState {
        FrameState {
            phase: Phase::Beginning,
            should_render,
            image_count,
            view_count: 0,
            image: 0,
            view: 0,
            stage: Stage::Sky,
            pulled: false,
            rendered: false,
            outcome: FrameOutcome::Unexpected,
        }
    }

    /// Whether the state is one that a frame can reach.
    pub open spec fn wf(self) -> bool {
        &&& self.drawing() ==> self.view < self.view_count && self.image < self.image_count
        &&& self.phase == Phase::Releasing ==> self.image < self.image_count && self.rendered
        &&& self.rendered ==> self.phase == Phase::Releasing || self.phase == Phase::Ending
            || self.phase == Phase::Finished
        &&& (self.phase == Phase::LocatingHand || self.phase == Phase::ReadingTrigger)
            ==> self.stage is Marker
        &&& self.phase == Phase::Preparing ==> self.stage == Stage::Sky
    }

    /// Whether the frame is in the middle of a view.
    pub open spec fn drawing(self) -> bool {
        self.phase == Phase::Preparing || self.phase == Phase::Uploading || self.phase
            == Phase::Submitting || self.phase == Phase::LocatingHand || self.phase
            == Phase::ReadingTrigger
    }

    /// Whether a swapchain image is acquired and not yet released.
    pub open spec fn holds_image(self) -> bool {
        self.phase == Phase::Waiting || self.drawing()
    }

    /// Whether the acquired image may be written: it was waited for.
    pub open spec fn image_writable(self) -> bool {
        self.drawing()
    }

    /// The uniform that was uploaded and not yet drawn with, and the view it
    /// was uploaded for.
    pub open spec fn fresh_uniform(self) -> Option<(u32, UniformSlot)> {
        if self.phase == Phase::Uploading || self.phase == Phase::ReadingTrigger {
            Some((self.view, self.stage.slot()))
        } else {
            None
        }
    }

    /// The call that the frame waits on: the one that was asked for last
    /// and is not yet answered.
    pub open spec fn pending(self) -> FrameAction {
        match self.phase {
            Phase::Beginning => FrameAction::BeginFrame,
            Phase::LocatingViews => FrameAction::LocateViews,
            Phase::Acquiring => FrameAction::AcquireImage,
            Phase::Waiting => FrameAction::WaitImage,
            Phase::Preparing => FrameAction::PrepareView {
                view: self.view,
                image: self.image,
                layer: self.view,
            },
            Phase::Uploading => FrameAction::WriteUniform {
                view: self.view,
                slot: self.stage.slot(),
                stage: self.stage,
            },
            Phase::Submitting => FrameAction::SubmitPass {
                view: self.view,
                stage: self.stage,
                color: self.stage.color(),
                depth: self.stage.depth(),
                pulled: self.pulled,
            },
            Phase::LocatingHand => FrameAction::LocateHand { hand: self.stage.hand() },
            Phase::ReadingTrigger => FrameAction::ReadTrigger { hand: self.stage.hand() },
            Phase::Releasing => FrameAction::ReleaseImage,
            Phase::Ending => if self.rendered {
                FrameAction::EndFrameProjected { views: self.view_count }
            } else {
                FrameAction::EndFrameEmpty
            },
            Phase::Finished => FrameAction::Finish { outcome: self.outcome },
        }
    }

    /// The state in which nothing is left to do.
    pub open spec fn finished(self, outcome: FrameOutcome) -> FrameState {
        FrameState { phase: Phase::Finished, outcome, ..self }
    }

    /// The state and the call that open pass `stage` of the current view.
    pub open spec fn upload(self, stage: Stage) -> (FrameState, FrameAction) {
        (
            FrameState { phase: Phase::Uploading, stage, ..self },
            FrameAction::WriteUniform { view: self.view, slot: stage.slot(), stage },
        )
    }

    /// The state and the call that submit the current pass.
    pub open spec fn submit(self, pulled: bool) -> (FrameState, FrameAction) {
        (
            FrameState { phase: Phase::Submitting, pulled, ..self },
            FrameAction::SubmitPass {
                view: self.view,
                stage: self.stage,
                color: self.stage.color(),
                depth: self.stage.depth(),
                pulled,
            },
        )
    }

    /// The state and the call that turn to a hand of the current view.
    pub open spec fn locate(self, hand: Hand) -> (FrameState, FrameAction) {
        (
            FrameState { phase: Phase::LocatingHand, stage: Stage::Marker { hand }, ..self },
            FrameAction::LocateHand { hand },
        )
    }

    /// The state and the call that open view `view`, or that release the
    /// image when no view is left.
    pub open spec fn enter_view(self, view: u32) -> (FrameState, FrameAction) {
        if view < self.view_count {
            (
                FrameState { phase: Phase::Preparing, view, stage: Stage::Sky, ..self },
                FrameAction::PrepareView { view, image: self.image, layer: view },
            )
        } else {
            (
                FrameState { phase: Phase::Releasing, rendered: true, ..self },
                FrameAction::ReleaseImage,
            )
        }
    }

    /// What follows once the current pass is done with, drawn or left out.
    pub open spec fn after_stage(self) -> (FrameState, FrameAction) {
        match self.stage {
            Stage::Sky => self.upload(Stage::Scene),
            Stage::Scene => self.upload(Stage::Grid),
            Stage::Grid => self.locate(Hand::Left),
            Stage::Marker { hand: Hand::Left } => self.locate(Hand::Right),
            Stage::Marker { hand: Hand::Right } => self.enter_view((self.view + 1) as u32),
        }
    }

    /// The state and the call that end the frame without layers.
    pub open spec fn skip(self) -> (FrameState, FrameAction) {
        (FrameState { phase: Phase::Ending, ..self }, FrameAction::EndFrameEmpty)
    }

    /// The state and the answer that give the frame up.
    pub open spec fn stop(self, outcome: FrameOutcome) -> (FrameState, FrameAction) {
        (self.finished(outcome), FrameAction::Finish { outcome })
    }

    /// What a reply to the pending call leads to: the state after it and the
    /// next call.
    pub open spec fn step(self, reply: FrameReply) -> (FrameState, FrameAction) {
        match (self.phase, reply) {
            (Phase::Finished, _) => (self, FrameAction::Finish { outcome: self.outcome }),
            (Phase::LocatingHand, FrameReply::Failed) => self.after_stage(),
            (Phase::LocatingHand, FrameReply::HandPose { flags }) => if pose_usable(flags) {
                self.upload(self.stage)
            } else {
                self.after_stage()
            },
            (Phase::ReadingTrigger, FrameReply::Failed) => self.submit(false),
            (Phase::ReadingTrigger, FrameReply::Trigger { pulled }) => self.submit(pulled),
            (_, FrameReply::Failed) => self.stop(FrameOutcome::CallFailed),
            (Phase::Beginning, FrameReply::Done) => if self.should_render {
                (FrameState { phase: Phase::LocatingViews, ..self }, FrameAction::LocateViews)
            } else {
                self.skip()
            },
            (Phase::LocatingViews, FrameReply::Views { flags, count }) => if pose_usable(flags) {
                (
                    FrameState { phase: Phase::Acquiring, view_count: count, ..self },
                    FrameAction::AcquireImage,
                )
            } else {
                self.skip()
            },
            (Phase::Acquiring, FrameReply::Image { index }) => (
                FrameState { phase: Phase::Waiting, image: index, ..self },
                FrameAction::WaitImage,
            ),
            (Phase::Waiting, FrameReply::Done) => if self.image < self.image_count {
                self.enter_view(0)
            } else {
                self.stop(FrameOutcome::ImageOutOfRange)
            },
            (Phase::Preparing, FrameReply::Done) => self.upload(Stage::Sky),
            (Phase::Uploading, FrameReply::Done) => match self.stage {
                Stage::Marker { hand } => (
                    FrameState { phase: Phase::ReadingTrigger, ..self },
                    FrameAction::ReadTrigger { hand },
                ),
                _ => self.submit(false),
            },
            (Phase::Submitting, FrameReply::Done) => self.after_stage(),
            (Phase::Releasing, FrameReply::Done) => (
                FrameState { phase: Phase::Ending, ..self },
                FrameAction::EndFrameProjected { views: self.view_count },
            ),
            (Phase::Ending, FrameReply::Done) => self.stop(
                if self.rendered {
                    FrameOutcome::Rendered
                } else {
                    FrameOutcome::Skipped
                },
            ),
            _ => self.stop(FrameOutcome::Unexpected),
        }
    }
}

/// Drives one frame: names the next call, and takes what it gave back.
pub struct FrameDriver {
    state: FrameState,
}

impl FrameDriver {
    #[verifier::type_invariant]
    spec fn reachable(self) -> bool {
        self.state.wf()
    }

    /// The state of the frame.
    pub closed spec fn view(&self) -> FrameState {
        self.state
    }

    /// Starts a frame on a swapchain of `image_count` images. The first call
    /// to make is always `BeginFrame`; `should_render` is what the runtime
    /// said when the frame was waited for.
    pub fn start(should_render: bool, image_count: usize) -> (begun: (FrameDriver, FrameAction))
        ensures
            begun.0@ == FrameState::initial(should_render, image_count),
            begun.0@.wf(),
            begun.1 == FrameAction::BeginFrame,
    {
        let state = FrameState {
            phase: Phase::Beginning,
            should_render,
            image_count,
            view_count: 0,
            image: 0,
            view: 0,
            stage: Stage::Sky,
            pulled: false,
            rendered: false,
            outcome: FrameOutcome::Unexpected,
        };
        (FrameDriver { state }, FrameAction::BeginFrame)
    }

    /// Takes the reply to the call that was asked for last and names the
    /// next one.
    pub fn advance(&mut self, reply: FrameReply) -> (action: FrameAction)
        ensures
            (final(self)@, action) == old(self)@.step(reply),
            old(self)@.wf(),
            final(self)@.wf(),
    {
        proof {
            use_type_invariant(&*self);
        }
        let (state, action) = advance_state(self.state, reply);
        self.state = state;
        action
    }

    /// The state of the frame, for a caller that wants to look.
    pub fn state(&self) -> (state: FrameState)
        ensures
            state == self@,
            state.wf(),
    {
        proof {
            use_type_invariant(self);
        }
        self.state
    }

    /// The call that the frame waits on: what `start` or the last
    /// `advance` answered.
    pub fn pending(&self) -> (action: FrameAction)
        ensures
            action == self@.pending(),
    {
        proof {
            use_type_invariant(self);
        }
        let state = self.state;
        match state.phase {
            Phase::Beginning => FrameAction::BeginFrame,
            Phase::LocatingViews => FrameAction::LocateViews,
            Phase::Acquiring => FrameAction::AcquireImage,
            Phase::Waiting => FrameAction::WaitImage,
            Phase::Preparing => FrameAction::PrepareView {
                view: state.view,
                image: state.image,
                layer: state.view,
            },
            Phase::Uploading => FrameAction::WriteUniform {
                view: state.view,
                slot: state.stage.uniform_slot(),
                stage: state.stage,
            },
            Phase::Submitting => FrameAction::SubmitPass {
                view: state.view,
                stage: state.stage,
                color: state.stage.color_attachment(),
                depth: state.stage.depth_attachment(),
                pulled: state.pulled,
            },
            Phase::LocatingHand => match state.stage {
                Stage::Marker { hand } => FrameAction::LocateHand { hand },
                _ => FrameAction::LocateHand { hand: Hand::Left },
            },
            Phase::ReadingTrigger => match state.stage {
                Stage::Marker { hand } => FrameAction::ReadTrigger { hand },
                _ => FrameAction::ReadTrigger { hand: Hand::Left },
            },
            Phase::Releasing => FrameAction::ReleaseImage,
            Phase::Ending => if state.rendered {
                FrameAction::EndFrameProjected { views: state.view_count }
            } else {
                FrameAction::EndFrameEmpty
            },
            Phase::Finished => FrameAction::Finish { outcome: state.outcome },
        }
    }

    /// How the frame ended, or `None` while calls are still to be made.
    pub fn outcome(&self) -> (outcome: Option<FrameOutcome>)
        ensures
            outcome == if self@.phase == Phase::Finished {
                Some(self@.outcome)
            } else {
                None
            },
    {
        if self.state.phase == Phase::Finished {
            Some(self.state.outcome)
        } else {
            None
        }
    }
}

fn stop(state: FrameState, outcome: FrameOutcome) -> (next: (FrameState, FrameAction))
    ensures
        next == state.stop(outcome),
{
    (
        FrameState { phase: Phase::Finished, outcome, ..state },
        FrameAction::Finish { outcome },
    )
}

fn skip(state: FrameState) -> (next: (FrameState, FrameAction))
    ensures
        next == state.skip(),
{
    (FrameState { phase: Phase::Ending, ..state }, FrameAction::EndFrameEmpty)
}

fn upload(state: FrameState, stage: Stage) -> (next: (FrameState, FrameAction))
    ensures
        next == state.upload(stage),
{
    (
        FrameState { phase: Phase::Uploading, stage, ..state },
        FrameAction::WriteUniform { view: state.view, slot: stage.uniform_slot(), stage },
    )
}

fn submit(state: FrameState, pulled: bool) -> (next: (FrameState, FrameAction))
    ensures
        next == state.submit(pulled),
{
    (
        FrameState { phase: Phase::Submitting, pulled, ..state },
        FrameAction::SubmitPass {
            view: state.view,
            stage: state.stage,
            color: state.stage.color_attachment(),
            depth: state.stage.depth_attachment(),
            pulled,
        },
    )
}

fn locate(state: FrameState, hand: Hand) -> (next: (FrameState, FrameAction))
    ensures
        next == state.locate(hand),
{
    (
        FrameState { phase: Phase::LocatingHand, stage: Stage::Marker { hand }, ..state },
        FrameAction::LocateHand { hand },
    )
}

fn enter_view(state: FrameState, view: u32) -> (next: (FrameState, FrameAction))
    ensures
        next == state.enter_view(view),
{
    if view < state.view_count {
        (
            FrameState { phase: Phase::Preparing, view, stage: Stage::Sky, ..state },
            FrameAction::PrepareView { view, image: state.image, layer: view },
        )
    } else {
        (FrameState { phase: Phase::Releasing, rendered: true, ..state }, FrameAction::ReleaseImage)
    }
}

fn after_stage(state: FrameState) -> (next: (FrameState, FrameAction))
    requires
        state.view < state.view_count,
    ensures
        next == state.after_stage(),
{
    match state.stage {
        Stage::Sky => upload(state, Stage::Scene),
        Stage::Scene => upload(state, Stage::Grid),
        Stage::Grid => locate(state, Hand::Left),
        Stage::Marker { hand: Hand::Left } => locate(state, Hand::Right),
        Stage::Marker { hand: Hand::Right } => enter_view(state, state.view + 1),
    }
}

fn advance_state(state: FrameState, reply: FrameReply) -> (next: (FrameState, FrameAction))
    requires
        state.wf(),
    ensures
        next == state.step(reply),
        next.0.wf(),
{
    match state.phase {
        Phase::Finished => (state, FrameAction::Finish { outcome: state.outcome }),
        Phase::LocatingHand => match reply {
            FrameReply::Failed => after_stage(state),
            FrameReply::HandPose { flags } => if hand_usable(flags) {
                upload(state, state.stage)
            } else {
                after_stage(state)
            },
            _ => stop(state, FrameOutcome::Unexpected),
        },
        Phase::ReadingTrigger => match reply {
            FrameReply::Failed => submit(state, false),
            FrameReply::Trigger { pulled } => submit(state, pulled),
            _ => stop(state, FrameOutcome::Unexpected),
        },
        Phase::Beginning => match reply {
            FrameReply::Failed => stop(state, FrameOutcome::CallFailed),
            FrameReply::Done => if state.should_render {
                (FrameState { phase: Phase::LocatingViews, ..state }, FrameAction::LocateViews)
            } else {
                skip(state)
            },
            _ => stop(state, FrameOutcome::Unexpected),
        },
        Phase::LocatingViews => match reply {
            FrameReply::Failed => stop(state, FrameOutcome::CallFailed),
            FrameReply::Views { flags, count } => if views_usable(flags) {
                (
                    FrameState { phase: Phase::Acquiring, view_count: count, ..state },
                    FrameAction::AcquireImage,
                )
            } else {
                skip(state)
            },
            _ => stop(state, FrameOutcome::Unexpected),
        },
        Phase::Acquiring => match reply {
            FrameReply::Failed => stop(state, FrameOutcome::CallFailed),
            FrameReply::Image { index } => (
                FrameState { phase: Phase::Waiting, image: index, ..state },
                FrameAction::WaitImage,
            ),
            _ => stop(state, FrameOutcome::Unexpected),
        },
        Phase::Waiting => match reply {
            FrameReply::Failed => stop(state, FrameOutcome::CallFailed),
            FrameReply::Done => if (state.image as usize) < state.image_count {
                enter_view(state, 0)
            } else {
                stop(state, FrameOutcome::ImageOutOfRange)
            },
            _ => stop(state, FrameOutcome::Unexpected),
        },
        Phase::Preparing => match reply {
            FrameReply::Failed => stop(state, FrameOutcome::CallFailed),
            FrameReply::Done => upload(state, Stage::Sky),
            _ => stop(state, FrameOutcome::Unexpected),
        },
        Phase::Uploading => match reply {
            FrameReply::Failed => stop(state, FrameOutcome::CallFailed),
            FrameReply::Done => match state.stage {
                Stage::Marker { hand } => (
                    FrameState { phase: Phase::ReadingTrigger, ..state },
                    FrameAction::ReadTrigger { hand },
                ),
                _ => submit(state, false),
            },
            _ => stop(state, FrameOutcome::Unexpected),
        },
        Phase::Submitting => match reply {
            FrameReply::Failed => stop(state, FrameOutcome::CallFailed),
            FrameReply::Done => after_stage(state),
            _ => stop(state, FrameOutcome::Unexpected),
        },
        Phase::Releasing => match reply {
            FrameReply::Failed => stop(state, FrameOutcome::CallFailed),
            FrameReply::Done => (
                FrameState { phase: Phase::Ending, ..state },
                FrameAction::EndFrameProjected { views: state.view_count },
            ),
            _ => stop(state, FrameOutcome::Unexpected),
        },
        Phase::Ending => match reply {
            FrameReply::Failed => stop(state, FrameOutcome::CallFailed),
            FrameReply::Done => stop(
                state,
                if state.rendered {
                    FrameOutcome::Rendered
                } else {
                    FrameOutcome::Skipped
                },
            ),
            _ => stop(state, FrameOutcome::Unexpected),
        },
    }
}

impl Phase {
    /// The place of a phase in a frame. The phases in the middle of a view
    /// share a place: a frame goes through them once for every pass.
    pub open spec fn rank(self) -> nat {
        match self {
            Phase::Beginning => 0,
            Phase::LocatingViews => 1,
            Phase::Acquiring => 2,
            Phase::Waiting => 3,
            Phase::Preparing => 4,
            Phase::Uploading => 4,
            Phase::Submitting => 4,
            Phase::LocatingHand => 4,
            Phase::ReadingTrigger => 4,
            Phase::Releasing => 5,
            Phase::Ending => 6,
            Phase::Finished => 7,
        }
    }

    /// The place of a phase inside one pass of a view.
    pub open spec fn turn(self) -> nat {
        match self {
            Phase::Uploading => 1,
            Phase::ReadingTrigger => 2,
            Phase::Submitting => 3,
            _ => 0,
        }
    }
}

impl FrameState {
    /// How far the frame has come: the place of its phase, and inside the
    /// views the view, the pass and the place inside the pass.
    pub open spec fn position(self) -> (nat, nat, nat, nat) {
        if self.drawing() {
            (self.phase.rank(), self.view as nat, self.stage.rank(), self.phase.turn())
        } else {
            (self.phase.rank(), 0, 0, 0)
        }
    }
}

/// Whether position `a` lies before position `b`.
pub open spec fn precedes(a: (nat, nat, nat, nat), b: (nat, nat, nat, nat)) -> bool {
    a.0 < b.0 || (a.0 == b.0 && (a.1 < b.1 || (a.1 == b.1 && (a.2 < b.2 || (a.2 == b.2 && a.3
        < b.3)))))
}

/// A frame only ever reaches states in which the view and the image that
/// it draws exist.
pub proof fn lemma_step_keeps_wf(state: FrameState, reply: FrameReply)
    requires
        state.wf(),
    ensures
        state.step(reply).0.wf(),
        FrameState::initial(state.should_render, state.image_count).wf(),
{
}

/// The answer to a reply is the call that the frame waits on from then on:
/// a state always knows which call it was left with.
pub proof fn lemma_answer_is_pending(state: FrameState, reply: FrameReply)
    requires
        state.wf(),
    ensures
        state.step(reply).1 == state.step(reply).0.pending(),
        FrameState::initial(state.should_render, state.image_count).pending()
            == FrameAction::BeginFrame,
{
}

/// Every reply moves an unfinished frame forward, whatever the reply is:
/// no call is asked for twice, and since a frame has finitely many views
/// and passes, it ends. A finished frame stays as it is.
pub proof fn lemma_step_moves_forward(state: FrameState, reply: FrameReply)
    requires
        state.wf(),
    ensures
        state.phase != Phase::Finished ==> precedes(
            state.position(),
            state.step(reply).0.position(),
        ),
        state.phase == Phase::Finished ==> state.step(reply) == (
            state,
            FrameAction::Finish { outcome: state.outcome },
        ),
        state.step(reply).1 is Finish <==> state.step(reply).0.phase == Phase::Finished,
{
}

/// A call that fails ends the frame with its failure, at every point but
/// two: a hand that cannot be located is left out, and a trigger that
/// cannot be read counts as at rest. Nothing is asked for after a failure
/// that ends the frame; a call that was pending stays unanswered, as does
/// an image that was acquired.
pub proof fn lemma_failures(state: FrameState)
    requires
        state.wf(),
    ensures
        state.phase == Phase::LocatingHand ==> state.step(FrameReply::Failed)
            == state.after_stage(),
        state.phase == Phase::ReadingTrigger ==> state.step(FrameReply::Failed) == state.submit(
            false,
        ),
        state.phase != Phase::LocatingHand && state.phase != Phase::ReadingTrigger && state.phase
            != Phase::Finished ==> state.step(FrameReply::Failed) == state.stop(
            FrameOutcome::CallFailed,
        ),
        state.step(FrameReply::Failed).0.phase == Phase::Finished ==> state.step(
            FrameReply::Failed,
        ).0.step(FrameReply::Done) == state.step(FrameReply::Failed),
{
}

/// The swapchain image is handled in order. It is asked for only before
/// any image is held, so once in a frame. Nothing is prepared, uploaded or
/// submitted before the image was waited for and found to exist. It is
/// released only after it was waited for, and a frame is ended with its
/// layer only after the release.
pub proof fn lemma_image_in_order(state: FrameState, reply: FrameReply)
    requires
        state.wf(),
    ensures
        ({
            let (next, action) = state.step(reply);
            &&& action is AcquireImage ==> state.phase == Phase::LocatingViews
                && !state.holds_image()
            &&& action is WaitImage ==> state.phase == Phase::Acquiring && next.holds_image()
            &&& (action is PrepareView || action is WriteUniform || action is SubmitPass
                || action is LocateHand || action is ReadTrigger) ==> next.image_writable()
                && next.image < next.image_count && next.image == state.image
            &&& action is PrepareView ==> action == (FrameAction::PrepareView {
                view: next.view,
                image: state.image,
                layer: next.view,
            }) && next.view < next.view_count
            &&& action is ReleaseImage ==> state.holds_image() && !next.holds_image()
            &&& next.holds_image() && !state.holds_image() ==> action is WaitImage
            &&& state.holds_image() && !next.holds_image() ==> action is ReleaseImage
                || action is Finish
            &&& action is EndFrameProjected ==> state.phase == Phase::Releasing && next.rendered
            &&& action is EndFrameEmpty ==> !state.holds_image() && !next.rendered
                && state.phase.rank() < 2
        }),
{
}

/// Every pass is submitted with the uniform it reads freshly uploaded for
/// its view. An upload is followed by the submit that uses it before any
/// other upload or submit: the buffers are shared, and a second upload
/// would overwrite what the first pass has not yet drawn with. Only a
/// failing call leaves an upload unused.
pub proof fn lemma_upload_before_submit(state: FrameState, reply: FrameReply)
    requires
        state.wf(),
    ensures
        ({
            let (next, action) = state.step(reply);
            &&& action matches FrameAction::SubmitPass { view, stage, color, depth, .. }
                ==> state.fresh_uniform() == Some((view, stage.slot())) && next.fresh_uniform()
                is None && color == stage.color() && depth == stage.depth()
            &&& action matches FrameAction::WriteUniform { view, slot, stage }
                ==> state.fresh_uniform() is None && next.fresh_uniform() == Some((view, slot))
                && slot == stage.slot() && next.stage == stage
            &&& state.fresh_uniform() is Some ==> action is SubmitPass || action is ReadTrigger
                || action is Finish
            &&& action is ReadTrigger ==> next.fresh_uniform() == state.fresh_uniform()
        }),
{
}

/// Inside a view the passes run in their order, each at most once: sky,
/// scene, grid, left marker, right marker. The views run in their order,
/// each exactly once, and a view starts with its sky.
pub proof fn lemma_passes_in_order(state: FrameState, reply: FrameReply)
    requires
        state.wf(),
        state.drawing(),
        state.step(reply).0.drawing(),
    ensures
        ({
            let next = state.step(reply).0;
            ||| next.view == state.view && next.stage == state.stage
            ||| next.view == state.view && next.stage.rank() > state.stage.rank()
            ||| next.view == state.view + 1 && next.phase == Phase::Preparing && state.stage
                == (Stage::Marker { hand: Hand::Right })
        }),
{
}

/// The first pass of a view that binds an attachment clears it, and every
/// later pass keeps what is there: the sky clears the colour target, the
/// scene clears the depth target, which the sky does not bind.
pub proof fn lemma_first_use_clears(stage: Stage)
    ensures
        stage.color() == Attachment::Clear <==> stage.rank() == 0,
        stage.color() != Attachment::Unused,
        stage.depth() == Attachment::Unused <==> stage.rank() == 0,
        stage.depth() == Attachment::Clear <==> stage.rank() == 1,
{
}

} // verus!
