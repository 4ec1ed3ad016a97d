//! The script of a frame: the calls that a frame makes, written down in
//! one piece from what the runtime reports, and the proof that the driver
//! asks for exactly these calls in exactly this order.

use crate::xr::frame::{
    Attachment, FrameAction, FrameOutcome, FrameReply, FrameState, Hand, Phase, Stage,
    UniformSlot,
};
use crate::xr::pose::pose_usable;
use vstd::prelude::*;

verus! {

/// What the runtime reports about one hand while one view is drawn.
pub struct HandReport {
    /// The location flags of the hand, or `None` if it could not be located.
    pub pose: Option<u64>,
    /// Whether the trigger is past its threshold, or `None` if it could not
    /// be read.
    pub trigger: Option<bool>,
}

/// What the runtime reports about the two hands while one view is drawn.
pub struct ViewReport {
    pub left: HandReport,
    pub right: HandReport,
}

/// What the runtime reports in the course of a frame that it wants
/// rendered: the flags of the located views, the index of the acquired
/// image, and for each view what it reports about the hands.
pub struct FrameReport {
    pub view_flags: u64,
    pub image: u32,
    pub views: Seq<ViewReport>,
}

impl HandReport {
    /// Whether the hand's marker is drawn: the hand was located, and the
    /// runtime vouches for its position and orientation.
    pub open spec fn drawn(self) -> bool {
        self.pose matches Some(flags) && pose_usable(flags)
    }

    /// Whether the marker is drawn in its pulled colour. A trigger that
    /// could not be read counts as at rest.
    pub open spec fn pulled(self) -> bool {
        self.trigger == Some(true)
    }

    /// The answer to `LocateHand`.
    pub open spec fn located(self) -> FrameReply {
        match self.pose {
            Some(flags) => FrameReply::HandPose { flags },
            None => FrameReply::Failed,
        }
    }

    /// The answer to `ReadTrigger`.
    pub open spec fn squeezed(self) -> FrameReply {
        match self.trigger {
            Some(pulled) => FrameReply::Trigger { pulled },
            None => FrameReply::Failed,
        }
    }

    /// The answers that are given while the hand is dealt with, one for
    /// each call of `calls`.
    pub open spec fn replies(self) -> Seq<FrameReply> {
        if self.drawn() {
            seq![self.located(), FrameReply::Done, self.squeezed(), FrameReply::Done]
        } else {
            seq![self.located()]
        }
    }

    /// The calls that deal with the hand in view `view`: it is located,
    /// and if its marker is drawn, the marker's uniform is uploaded, the
    /// trigger is read, and the marker is submitted over what the view
    /// already holds.
    pub open spec fn calls(self, view: u32, hand: Hand) -> Seq<FrameAction> {
        if self.drawn() {
            seq![
                FrameAction::LocateHand { hand },
                FrameAction::WriteUniform {
                    view,
                    slot: UniformSlot::Scene,
                    stage: Stage::Marker { hand },
                },
                FrameAction::ReadTrigger { hand },
                FrameAction::SubmitPass {
                    view,
                    stage: Stage::Marker { hand },
                    color: Attachment::Load,
                    depth: Attachment::Load,
                    pulled: self.pulled(),
                },
            ]
        } else {
            seq![FrameAction::LocateHand { hand }]
        }
    }
}

/// The two calls of a pass that is always drawn: the upload of its
/// uniform, then its submit.
pub open spec fn pass_calls(view: u32, stage: Stage) -> Seq<FrameAction> {
    seq![
        FrameAction::WriteUniform { view, slot: stage.slot(), stage },
        FrameAction::SubmitPass {
            view,
            stage,
            color: stage.color(),
            depth: stage.depth(),
            pulled: false,
        },
    ]
}

/// The answers to the two calls of a pass that is always drawn.
pub open spec fn pass_replies() -> Seq<FrameReply> {
    seq![FrameReply::Done, FrameReply::Done]
}

impl ViewReport {
    /// The answers that are given while the view is drawn, one for each
    /// call of `calls`.
    pub open spec fn replies(self) -> Seq<FrameReply> {
        seq![FrameReply::Done] + pass_replies() + pass_replies() + pass_replies()
            + self.left.replies() + self.right.replies()
    }

    /// The calls that draw view `view` into swapchain image `image`: its
    /// targets are prepared on the array layer of its index; the sky, the
    /// scene and the grid are drawn; then the left hand and the right hand
    /// are dealt with.
    pub open spec fn calls(self, view: u32, image: u32) -> Seq<FrameAction> {
        seq![FrameAction::PrepareView { view, image, layer: view }] + pass_calls(view, Stage::Sky)
            + pass_calls(view, Stage::Scene) + pass_calls(view, Stage::Grid) + self.left.calls(
            view,
            Hand::Left,
        ) + self.right.calls(view, Hand::Right)
    }
}

/// The answers that are given while the views from `from` on are drawn.
pub open spec fn views_replies(views: Seq<ViewReport>, from: int) -> Seq<FrameReply>
    decreases views.len() - from,
{
    if 0 <= from < views.len() {
        views[from].replies() + views_replies(views, from + 1)
    } else {
        seq![]
    }
}

/// The calls that draw the views from `from` on, in their order.
pub open spec fn views_calls(views: Seq<ViewReport>, from: int, image: u32) -> Seq<FrameAction>
    decreases views.len() - from,
{
    if 0 <= from < views.len() {
        views[from].calls(from as u32, image) + views_calls(views, from + 1, image)
    } else {
        seq![]
    }
}

impl FrameReport {
    /// The answers that are given in the course of the frame, one for
    /// each call of `calls`.
    pub open spec fn replies(self) -> Seq<FrameReply> {
        seq![
            FrameReply::Done,
            FrameReply::Views { flags: self.view_flags, count: self.views.len() as u32 },
            FrameReply::Image { index: self.image },
            FrameReply::Done,
        ] + views_replies(self.views, 0) + seq![FrameReply::Done, FrameReply::Done]
    }

    /// The calls of the frame: it is begun, the views are located, the
    /// image is acquired and waited for, every view is drawn in its
    /// order, the image is released, and the frame is ended with a layer
    /// that shows every view.
    pub open spec fn calls(self) -> Seq<FrameAction> {
        seq![
            FrameAction::BeginFrame,
            FrameAction::LocateViews,
            FrameAction::AcquireImage,
            FrameAction::WaitImage,
        ] + views_calls(self.views, 0, self.image) + seq![
            FrameAction::ReleaseImage,
            FrameAction::EndFrameProjected { views: self.views.len() as u32 },
        ]
    }
}

/// The state that a frame is in after it was given `replies` one after the
/// other, starting in `state`.
pub open spec fn run(state: FrameState, replies: Seq<FrameReply>) -> FrameState
    decreases replies.len(),
{
    if replies.len() == 0 {
        state
    } else {
        run(state.step(replies[0]).0, replies.drop_first())
    }
}

/// The calls that `replies` answer, one after the other, starting in
/// `state`: the call that `state` waits on, then the call that the first
/// reply leads to, and so on. The call that the last reply leads to is the
/// one that the state after all of them waits on.
pub open spec fn answered(state: FrameState, replies: Seq<FrameReply>) -> Seq<FrameAction>
    decreases replies.len(),
{
    if replies.len() == 0 {
        seq![]
    } else {
        seq![state.pending()] + answered(state.step(replies[0]).0, replies.drop_first())
    }
}

/// Whether two states belong to the same frame at the same image: they
/// agree in everything that the runtime said before the views were drawn.
pub open spec fn same_frame(a: FrameState, b: FrameState) -> bool {
    a.should_render == b.should_render && a.image_count == b.image_count && a.view_count
        == b.view_count && a.image == b.image
}

proof fn lemma_first(state: FrameState, reply: FrameReply, rest: Seq<FrameReply>)
    ensures
        run(state, seq![reply] + rest) == run(state.step(reply).0, rest),
        answered(state, seq![reply] + rest) == seq![state.pending()] + answered(
            state.step(reply).0,
            rest,
        ),
{
    let all = seq![reply] + rest;
    assert(all.drop_first() =~= rest);
    assert(all[0] == reply);
}

proof fn lemma_one(state: FrameState, reply: FrameReply)
    ensures
        run(state, seq![reply]) == state.step(reply).0,
        answered(state, seq![reply]) == seq![state.pending()],
{
    lemma_first(state, reply, seq![]);
    assert(seq![reply] + Seq::<FrameReply>::empty() =~= seq![reply]);
    assert(seq![state.pending()] + Seq::<FrameAction>::empty() =~= seq![state.pending()]);
}

/// Replies can be given in two parts: the second part goes on where the
/// first one left the frame.
pub proof fn lemma_run_in_parts(state: FrameState, first: Seq<FrameReply>, second: Seq<FrameReply>)
    ensures
        run(state, first + second) == run(run(state, first), second),
        answered(state, first + second) == answered(state, first) + answered(
            run(state, first),
            second,
        ),
    decreases first.len(),
{
    if first.len() == 0 {
        assert(first + second =~= second);
        assert(answered(state, first) + answered(run(state, first), second) =~= answered(
            state,
            second,
        ));
    } else {
        let next = state.step(first[0]).0;
        assert(first + second =~= seq![first[0]] + (first.drop_first() + second));
        lemma_first(state, first[0], first.drop_first() + second);
        lemma_run_in_parts(next, first.drop_first(), second);
        assert(seq![state.pending()] + (answered(next, first.drop_first()) + answered(
            run(next, first.drop_first()),
            second,
        )) =~= (seq![state.pending()] + answered(next, first.drop_first())) + answered(
            run(next, first.drop_first()),
            second,
        ));
    }
}

proof fn lemma_pass(state: FrameState)
    requires
        state.wf(),
        state.phase == Phase::Uploading,
        !(state.stage is Marker),
    ensures
        answered(state, pass_replies()) == pass_calls(state.view, state.stage),
        run(state, pass_replies()) == (FrameState {
            phase: Phase::Submitting,
            pulled: false,
            ..state
        }).after_stage().0,
{
    let submitting = state.step(FrameReply::Done).0;
    assert(pass_replies() =~= seq![FrameReply::Done] + seq![FrameReply::Done]);
    lemma_first(state, FrameReply::Done, seq![FrameReply::Done]);
    lemma_one(submitting, FrameReply::Done);
    assert(seq![state.pending()] + seq![submitting.pending()] =~= pass_calls(
        state.view,
        state.stage,
    ));
}

proof fn lemma_hand(state: FrameState, hand: Hand, report: HandReport)
    requires
        state.wf(),
        state.phase == Phase::LocatingHand,
        state.stage == (Stage::Marker { hand }),
    ensures
        answered(state, report.replies()) == report.calls(state.view, hand),
        run(state, report.replies()) == if report.drawn() {
            (FrameState { phase: Phase::Submitting, pulled: report.pulled(), ..state }).after_stage().0
        } else {
            state.after_stage().0
        },
{
    if report.drawn() {
        let uploading = state.step(report.located()).0;
        let reading = uploading.step(FrameReply::Done).0;
        let submitting = reading.step(report.squeezed()).0;
        let rest3 = seq![FrameReply::Done, report.squeezed(), FrameReply::Done];
        let rest2 = seq![report.squeezed(), FrameReply::Done];
        assert(report.replies() =~= seq![report.located()] + rest3);
        assert(rest3 =~= seq![FrameReply::Done] + rest2);
        assert(rest2 =~= seq![report.squeezed()] + seq![FrameReply::Done]);
        lemma_first(state, report.located(), rest3);
        lemma_first(uploading, FrameReply::Done, rest2);
        lemma_first(reading, report.squeezed(), seq![FrameReply::Done]);
        lemma_one(submitting, FrameReply::Done);
        assert(seq![state.pending()] + (seq![uploading.pending()] + (seq![reading.pending()]
            + seq![submitting.pending()])) =~= report.calls(state.view, hand));
    } else {
        lemma_one(state, report.located());
    }
}

/// The frame after a view was drawn: it turns to the next view, or, after
/// the last one, releases the image.
pub open spec fn after_view(state: FrameState, next: FrameState) -> bool {
    &&& next.wf()
    &&& same_frame(state, next)
    &&& if state.view + 1 < state.view_count {
        next.phase == Phase::Preparing && next.view == state.view + 1
    } else {
        next.phase == Phase::Releasing
    }
}

proof fn lemma_view(state: FrameState, report: ViewReport)
    requires
        state.wf(),
        state.phase == Phase::Preparing,
    ensures
        answered(state, report.replies()) == report.calls(state.view, state.image),
        after_view(state, run(state, report.replies())),
{
    let view = state.view;
    let prepared = seq![FrameReply::Done];
    let sky = state.step(FrameReply::Done).0;
    lemma_one(state, FrameReply::Done);
    lemma_pass(sky);
    let scene = run(sky, pass_replies());
    lemma_pass(scene);
    let grid = run(scene, pass_replies());
    lemma_pass(grid);
    let left = run(grid, pass_replies());
    lemma_hand(left, Hand::Left, report.left);
    let right = run(left, report.left.replies());
    lemma_hand(right, Hand::Right, report.right);

    let r1 = prepared + pass_replies();
    let r2 = r1 + pass_replies();
    let r3 = r2 + pass_replies();
    let r4 = r3 + report.left.replies();
    lemma_run_in_parts(state, prepared, pass_replies());
    lemma_run_in_parts(state, r1, pass_replies());
    lemma_run_in_parts(state, r2, pass_replies());
    lemma_run_in_parts(state, r3, report.left.replies());
    lemma_run_in_parts(state, r4, report.right.replies());
    assert(report.replies() == r4 + report.right.replies());
}

proof fn lemma_views(state: FrameState, views: Seq<ViewReport>, from: int)
    requires
        state.wf(),
        views.len() == state.view_count,
        0 <= from <= views.len(),
        from < views.len() ==> state.phase == Phase::Preparing && state.view == from,
        from == views.len() ==> state.phase == Phase::Releasing,
    ensures
        answered(state, views_replies(views, from)) == views_calls(views, from, state.image),
        run(state, views_replies(views, from)).wf(),
        run(state, views_replies(views, from)).phase == Phase::Releasing,
        same_frame(state, run(state, views_replies(views, from))),
    decreases views.len() - from,
{
    if from < views.len() {
        let report = views[from];
        lemma_view(state, report);
        let next = run(state, report.replies());
        lemma_views(next, views, from + 1);
        lemma_run_in_parts(state, report.replies(), views_replies(views, from + 1));
    }
}

/// A frame that the runtime wants rendered, whose views it vouches for and
/// whose image the swapchain has, makes exactly the calls of its script,
/// in the script's order, and then finishes as rendered. Each reply of the
/// script answers the call at its place.
pub proof fn lemma_rendered_frame_follows_script(image_count: usize, report: FrameReport)
    requires
        pose_usable(report.view_flags),
        report.image < image_count,
        report.views.len() <= u32::MAX,
    ensures
        report.replies().len() == report.calls().len(),
        answered(FrameState::initial(true, image_count), report.replies()) == report.calls(),
        run(FrameState::initial(true, image_count), report.replies()).pending() == (
        FrameAction::Finish { outcome: FrameOutcome::Rendered }),
{
    let start = FrameState::initial(true, image_count);
    let count = report.views.len() as u32;
    let located = FrameReply::Views { flags: report.view_flags, count };
    let acquired = FrameReply::Image { index: report.image };
    let head = seq![FrameReply::Done, located, acquired, FrameReply::Done];
    let tail = seq![FrameReply::Done, FrameReply::Done];

    let locating = start.step(FrameReply::Done).0;
    let acquiring = locating.step(located).0;
    let waiting = acquiring.step(acquired).0;
    let drawing = waiting.step(FrameReply::Done).0;
    let head3 = seq![located, acquired, FrameReply::Done];
    let head2 = seq![acquired, FrameReply::Done];
    assert(head =~= seq![FrameReply::Done] + head3);
    assert(head3 =~= seq![located] + head2);
    assert(head2 =~= seq![acquired] + seq![FrameReply::Done]);
    lemma_first(start, FrameReply::Done, head3);
    lemma_first(locating, located, head2);
    lemma_first(acquiring, acquired, seq![FrameReply::Done]);
    lemma_one(waiting, FrameReply::Done);
    assert(answered(start, head) =~= seq![
        FrameAction::BeginFrame,
        FrameAction::LocateViews,
        FrameAction::AcquireImage,
        FrameAction::WaitImage,
    ]);
    assert(run(start, head) == drawing);

    lemma_views(drawing, report.views, 0);
    let releasing = run(drawing, views_replies(report.views, 0));
    let ending = releasing.step(FrameReply::Done).0;
    assert(tail =~= seq![FrameReply::Done] + seq![FrameReply::Done]);
    lemma_first(releasing, FrameReply::Done, seq![FrameReply::Done]);
    lemma_one(ending, FrameReply::Done);
    assert(answered(releasing, tail) =~= seq![
        FrameAction::ReleaseImage,
        FrameAction::EndFrameProjected { views: count },
    ]);

    let body = head + views_replies(report.views, 0);
    lemma_run_in_parts(start, head, views_replies(report.views, 0));
    lemma_run_in_parts(start, body, tail);
    lemma_script_lengths(report.views, 0, report.image);
}

/// Every call of a script has its reply.
pub proof fn lemma_script_lengths(views: Seq<ViewReport>, from: int, image: u32)
    requires
        0 <= from,
    ensures
        views_replies(views, from).len() == views_calls(views, from, image).len(),
    decreases views.len() - from,
{
    if from < views.len() {
        lemma_script_lengths(views, from + 1, image);
    }
}

/// A frame that the runtime does not want rendered is begun and ended
/// without layers, and nothing else.
pub proof fn lemma_unwanted_frame_is_skipped(image_count: usize)
    ensures
        answered(
            FrameState::initial(false, image_count),
            seq![FrameReply::Done, FrameReply::Done],
        ) == seq![FrameAction::BeginFrame, FrameAction::EndFrameEmpty],
        run(
            FrameState::initial(false, image_count),
            seq![FrameReply::Done, FrameReply::Done],
        ).pending() == (FrameAction::Finish { outcome: FrameOutcome::Skipped }),
{
    let start = FrameState::initial(false, image_count);
    let ending = start.step(FrameReply::Done).0;
    let replies = seq![FrameReply::Done, FrameReply::Done];
    assert(replies =~= seq![FrameReply::Done] + seq![FrameReply::Done]);
    lemma_first(start, FrameReply::Done, seq![FrameReply::Done]);
    lemma_one(ending, FrameReply::Done);
    assert(seq![start.pending()] + seq![ending.pending()] =~= seq![
        FrameAction::BeginFrame,
        FrameAction::EndFrameEmpty,
    ]);
}

/// A frame whose views the runtime does not vouch for acquires no image
/// and draws nothing: it is ended without layers right after the views
/// were located.
pub proof fn lemma_frame_without_valid_views_is_skipped(image_count: usize, flags: u64, count: u32)
    requires
        !pose_usable(flags),
    ensures
        answered(
            FrameState::initial(true, image_count),
            seq![FrameReply::Done, FrameReply::Views { flags, count }, FrameReply::Done],
        ) == seq![FrameAction::BeginFrame, FrameAction::LocateViews, FrameAction::EndFrameEmpty],
        run(
            FrameState::initial(true, image_count),
            seq![FrameReply::Done, FrameReply::Views { flags, count }, FrameReply::Done],
        ).pending() == (FrameAction::Finish { outcome: FrameOutcome::Skipped }),
{
    let start = FrameState::initial(true, image_count);
    let located = FrameReply::Views { flags, count };
    let locating = start.step(FrameReply::Done).0;
    let ending = locating.step(located).0;
    let replies = seq![FrameReply::Done, located, FrameReply::Done];
    let rest = seq![located, FrameReply::Done];
    assert(replies =~= seq![FrameReply::Done] + rest);
    assert(rest =~= seq![located] + seq![FrameReply::Done]);
    lemma_first(start, FrameReply::Done, rest);
    lemma_first(locating, located, seq![FrameReply::Done]);
    lemma_one(ending, FrameReply::Done);
    assert(seq![start.pending()] + (seq![locating.pending()] + seq![ending.pending()]) =~= seq![
        FrameAction::BeginFrame,
        FrameAction::LocateViews,
        FrameAction::EndFrameEmpty,
    ]);
}

} // verus!
