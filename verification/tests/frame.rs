use app_core::xr::frame::{
    Attachment, FrameAction, FrameDriver, FrameOutcome, FrameReply, FrameState, Hand, Phase,
    Stage, UniformSlot,
};

const USABLE: u64 = 3;

fn run(should_render: bool, image_count: usize, replies: &[FrameReply]) -> Vec<FrameAction> {
    let (mut frame, first) = FrameDriver::start(should_render, image_count);
    let mut actions = vec![first];
    for reply in replies {
        let action = frame.advance(*reply);
        assert_eq!(frame.pending(), action);
        actions.push(action);
    }
    actions
}

fn upload(view: u32, stage: Stage) -> FrameAction {
    let slot = match stage {
        Stage::Sky => UniformSlot::Sky,
        Stage::Grid => UniformSlot::Grid,
        _ => UniformSlot::Scene,
    };
    FrameAction::WriteUniform { view, slot, stage }
}

fn submit(view: u32, stage: Stage, pulled: bool) -> FrameAction {
    let (color, depth) = match stage {
        Stage::Sky => (Attachment::Clear, Attachment::Unused),
        Stage::Scene => (Attachment::Load, Attachment::Clear),
        _ => (Attachment::Load, Attachment::Load),
    };
    FrameAction::SubmitPass { view, stage, color, depth, pulled }
}

fn left() -> Stage {
    Stage::Marker { hand: Hand::Left }
}

fn right() -> Stage {
    Stage::Marker { hand: Hand::Right }
}

fn finish(outcome: FrameOutcome) -> FrameAction {
    FrameAction::Finish { outcome }
}

#[test]
fn frame_starts_with_begin() {
    let (frame, first) = FrameDriver::start(true, 3);
    assert_eq!(first, FrameAction::BeginFrame);
    assert_eq!(
        frame.state(),
        FrameState {
            phase: Phase::Beginning,
            should_render: true,
            image_count: 3,
            view_count: 0,
            image: 0,
            view: 0,
            stage: Stage::Sky,
            pulled: false,
            rendered: false,
            outcome: FrameOutcome::Unexpected,
        }
    );
    assert_eq!(frame.outcome(), None);
    assert_eq!(frame.pending(), FrameAction::BeginFrame);
}

#[test]
fn frame_that_should_not_render_ends_without_layers() {
    let actions = run(false, 3, &[FrameReply::Done, FrameReply::Done]);
    assert_eq!(
        actions,
        vec![FrameAction::BeginFrame, FrameAction::EndFrameEmpty, finish(FrameOutcome::Skipped)]
    );
}

#[test]
fn frame_without_valid_views_ends_without_layers() {
    for flags in [0u64, 1, 2, 0b1100] {
        let actions = run(
            true,
            3,
            &[FrameReply::Done, FrameReply::Views { flags, count: 2 }, FrameReply::Done],
        );
        assert_eq!(
            actions,
            vec![
                FrameAction::BeginFrame,
                FrameAction::LocateViews,
                FrameAction::EndFrameEmpty,
                finish(FrameOutcome::Skipped),
            ]
        );
    }
}

#[test]
fn stereo_frame_without_hands_runs_three_passes_a_view() {
    let none = FrameReply::HandPose { flags: 0 };
    let done = FrameReply::Done;
    let mut replies = vec![
        done,
        FrameReply::Views { flags: USABLE, count: 2 },
        FrameReply::Image { index: 1 },
        done,
    ];
    for _view in 0..2 {
        replies.extend([done, done, done, done, done, done, done, none, none]);
    }
    replies.extend([done, done]);
    let mut expected = vec![
        FrameAction::BeginFrame,
        FrameAction::LocateViews,
        FrameAction::AcquireImage,
        FrameAction::WaitImage,
    ];
    for view in 0..2 {
        expected.extend([
            FrameAction::PrepareView { view, image: 1, layer: view },
            upload(view, Stage::Sky),
            submit(view, Stage::Sky, false),
            upload(view, Stage::Scene),
            submit(view, Stage::Scene, false),
            upload(view, Stage::Grid),
            submit(view, Stage::Grid, false),
            FrameAction::LocateHand { hand: Hand::Left },
            FrameAction::LocateHand { hand: Hand::Right },
        ]);
    }
    expected.extend([
        FrameAction::ReleaseImage,
        FrameAction::EndFrameProjected { views: 2 },
        finish(FrameOutcome::Rendered),
    ]);
    assert_eq!(run(true, 3, &replies), expected);
}

#[test]
fn located_hands_are_drawn_after_the_grid() {
    let done = FrameReply::Done;
    let replies = vec![
        done,
        FrameReply::Views { flags: 0b1111, count: 1 },
        FrameReply::Image { index: 0 },
        done,
        done,
        done,
        done,
        done,
        done,
        done,
        done,
        FrameReply::HandPose { flags: USABLE },
        done,
        FrameReply::Trigger { pulled: true },
        done,
        FrameReply::HandPose { flags: 0b1011 },
        done,
        FrameReply::Trigger { pulled: false },
        done,
        done,
        done,
    ];
    let expected = vec![
        FrameAction::BeginFrame,
        FrameAction::LocateViews,
        FrameAction::AcquireImage,
        FrameAction::WaitImage,
        FrameAction::PrepareView { view: 0, image: 0, layer: 0 },
        upload(0, Stage::Sky),
        submit(0, Stage::Sky, false),
        upload(0, Stage::Scene),
        submit(0, Stage::Scene, false),
        upload(0, Stage::Grid),
        submit(0, Stage::Grid, false),
        FrameAction::LocateHand { hand: Hand::Left },
        upload(0, left()),
        FrameAction::ReadTrigger { hand: Hand::Left },
        submit(0, left(), true),
        FrameAction::LocateHand { hand: Hand::Right },
        upload(0, right()),
        FrameAction::ReadTrigger { hand: Hand::Right },
        submit(0, right(), false),
        FrameAction::ReleaseImage,
        FrameAction::EndFrameProjected { views: 1 },
        finish(FrameOutcome::Rendered),
    ];
    assert_eq!(run(true, 2, &replies), expected);
}

fn at_left_hand() -> FrameDriver {
    let (mut frame, _) = FrameDriver::start(true, 1);
    let done = FrameReply::Done;
    for reply in [
        done,
        FrameReply::Views { flags: USABLE, count: 1 },
        FrameReply::Image { index: 0 },
        done,
        done,
        done,
        done,
        done,
        done,
        done,
    ] {
        frame.advance(reply);
    }
    assert_eq!(frame.advance(done), FrameAction::LocateHand { hand: Hand::Left });
    frame
}

#[test]
fn hand_that_cannot_be_located_is_left_out() {
    let mut frame = at_left_hand();
    assert_eq!(frame.advance(FrameReply::Failed), FrameAction::LocateHand { hand: Hand::Right });
    assert_eq!(frame.advance(FrameReply::Failed), FrameAction::ReleaseImage);
}

#[test]
fn hand_without_a_valid_pose_is_left_out() {
    for flags in [0u64, 1, 2, 0b1110] {
        let mut frame = at_left_hand();
        assert_eq!(
            frame.advance(FrameReply::HandPose { flags }),
            FrameAction::LocateHand { hand: Hand::Right }
        );
        assert_eq!(frame.advance(FrameReply::HandPose { flags }), FrameAction::ReleaseImage);
    }
}

#[test]
fn trigger_that_cannot_be_read_counts_as_released() {
    let mut frame = at_left_hand();
    assert_eq!(frame.advance(FrameReply::HandPose { flags: USABLE }), upload(0, left()));
    assert_eq!(frame.advance(FrameReply::Done), FrameAction::ReadTrigger { hand: Hand::Left });
    assert_eq!(frame.advance(FrameReply::Failed), submit(0, left(), false));
    assert_eq!(frame.advance(FrameReply::Done), FrameAction::LocateHand { hand: Hand::Right });
}

#[test]
fn pulled_trigger_marks_the_hand() {
    let mut frame = at_left_hand();
    frame.advance(FrameReply::HandPose { flags: USABLE });
    frame.advance(FrameReply::Done);
    assert_eq!(
        frame.advance(FrameReply::Trigger { pulled: true }),
        FrameAction::SubmitPass {
            view: 0,
            stage: Stage::Marker { hand: Hand::Left },
            color: Attachment::Load,
            depth: Attachment::Load,
            pulled: true,
        }
    );
}

#[test]
fn frame_without_views_still_releases_and_ends_with_its_layer() {
    let done = FrameReply::Done;
    let actions = run(
        true,
        1,
        &[
            done,
            FrameReply::Views { flags: USABLE, count: 0 },
            FrameReply::Image { index: 0 },
            done,
            done,
            done,
        ],
    );
    assert_eq!(
        actions,
        vec![
            FrameAction::BeginFrame,
            FrameAction::LocateViews,
            FrameAction::AcquireImage,
            FrameAction::WaitImage,
            FrameAction::ReleaseImage,
            FrameAction::EndFrameProjected { views: 0 },
            finish(FrameOutcome::Rendered),
        ]
    );
}

#[test]
fn image_index_past_the_swapchain_stops_the_frame() {
    for (image_count, index) in [(3usize, 3u32), (3, 4), (0, 0), (1, u32::MAX)] {
        let (mut frame, _) = FrameDriver::start(true, image_count);
        frame.advance(FrameReply::Done);
        frame.advance(FrameReply::Views { flags: USABLE, count: 2 });
        assert_eq!(frame.advance(FrameReply::Image { index }), FrameAction::WaitImage);
        assert_eq!(frame.advance(FrameReply::Done), finish(FrameOutcome::ImageOutOfRange));
        assert_eq!(frame.outcome(), Some(FrameOutcome::ImageOutOfRange));
    }
}

#[test]
fn last_image_of_the_swapchain_is_drawn_into() {
    let (mut frame, _) = FrameDriver::start(true, 3);
    frame.advance(FrameReply::Done);
    frame.advance(FrameReply::Views { flags: USABLE, count: 2 });
    frame.advance(FrameReply::Image { index: 2 });
    assert_eq!(
        frame.advance(FrameReply::Done),
        FrameAction::PrepareView { view: 0, image: 2, layer: 0 }
    );
}

#[test]
fn failing_call_stops_the_frame_at_every_point() {
    let done = FrameReply::Done;
    let script = [
        done,
        FrameReply::Views { flags: USABLE, count: 1 },
        FrameReply::Image { index: 0 },
        done,
        done,
        done,
        done,
        done,
        done,
        done,
        done,
        FrameReply::HandPose { flags: USABLE },
        done,
        FrameReply::Trigger { pulled: false },
        done,
        FrameReply::HandPose { flags: 0 },
        done,
        done,
    ];
    // Points at which a failure is forgiven: a hand that is not located,
    // and a trigger that is not read.
    let forgiven = [11usize, 13, 15];
    for fail_at in 0..script.len() {
        if forgiven.contains(&fail_at) {
            continue;
        }
        let (mut frame, _) = FrameDriver::start(true, 1);
        for reply in &script[..fail_at] {
            let action = frame.advance(*reply);
            assert!(!matches!(action, FrameAction::Finish { .. }));
        }
        assert_eq!(frame.advance(FrameReply::Failed), finish(FrameOutcome::CallFailed));
        assert_eq!(frame.outcome(), Some(FrameOutcome::CallFailed));
    }
}

#[test]
fn reply_of_the_wrong_kind_stops_the_frame() {
    let (mut frame, _) = FrameDriver::start(true, 1);
    assert_eq!(frame.advance(FrameReply::Image { index: 0 }), finish(FrameOutcome::Unexpected));
    let (mut frame, _) = FrameDriver::start(true, 1);
    frame.advance(FrameReply::Done);
    assert_eq!(frame.advance(FrameReply::Done), finish(FrameOutcome::Unexpected));
    let (mut frame, _) = FrameDriver::start(true, 1);
    frame.advance(FrameReply::Done);
    frame.advance(FrameReply::Views { flags: USABLE, count: 1 });
    assert_eq!(
        frame.advance(FrameReply::Views { flags: USABLE, count: 1 }),
        finish(FrameOutcome::Unexpected)
    );
    let mut frame = at_left_hand();
    assert_eq!(frame.advance(FrameReply::Done), finish(FrameOutcome::Unexpected));
    let mut frame = at_left_hand();
    frame.advance(FrameReply::HandPose { flags: USABLE });
    frame.advance(FrameReply::Done);
    assert_eq!(
        frame.advance(FrameReply::HandPose { flags: USABLE }),
        finish(FrameOutcome::Unexpected)
    );
}

#[test]
fn finished_frame_stays_finished() {
    let (mut frame, _) = FrameDriver::start(false, 1);
    frame.advance(FrameReply::Done);
    assert_eq!(frame.advance(FrameReply::Done), finish(FrameOutcome::Skipped));
    let state = frame.state();
    for reply in [
        FrameReply::Done,
        FrameReply::Failed,
        FrameReply::Image { index: 0 },
        FrameReply::Trigger { pulled: true },
    ] {
        assert_eq!(frame.advance(reply), finish(FrameOutcome::Skipped));
        assert_eq!(frame.state(), state);
    }
    assert_eq!(frame.outcome(), Some(FrameOutcome::Skipped));
}

#[test]
fn passes_read_their_uniforms() {
    assert_eq!(Stage::Sky.uniform_slot(), UniformSlot::Sky);
    assert_eq!(Stage::Scene.uniform_slot(), UniformSlot::Scene);
    assert_eq!(Stage::Grid.uniform_slot(), UniformSlot::Grid);
    assert_eq!(left().uniform_slot(), UniformSlot::Scene);
    assert_eq!(right().uniform_slot(), UniformSlot::Scene);
}

#[test]
fn first_use_of_an_attachment_clears_it() {
    assert_eq!(Stage::Sky.color_attachment(), Attachment::Clear);
    assert_eq!(Stage::Sky.depth_attachment(), Attachment::Unused);
    assert_eq!(Stage::Scene.color_attachment(), Attachment::Load);
    assert_eq!(Stage::Scene.depth_attachment(), Attachment::Clear);
    for stage in [Stage::Grid, left(), right()] {
        assert_eq!(stage.color_attachment(), Attachment::Load);
        assert_eq!(stage.depth_attachment(), Attachment::Load);
    }
}

#[test]
fn every_submit_follows_the_upload_of_its_uniform() {
    let done = FrameReply::Done;
    let mut replies = vec![
        done,
        FrameReply::Views { flags: USABLE, count: 2 },
        FrameReply::Image { index: 0 },
        done,
    ];
    for _view in 0..2 {
        replies.extend([done, done, done, done, done, done, done]);
        for _hand in 0..2 {
            replies.extend([
                FrameReply::HandPose { flags: USABLE },
                done,
                FrameReply::Trigger { pulled: true },
                done,
            ]);
        }
    }
    replies.extend([done, done]);
    let actions = run(true, 1, &replies);
    assert_eq!(actions.last(), Some(&finish(FrameOutcome::Rendered)));
    let mut fresh: Option<(u32, UniformSlot)> = None;
    let mut submits = 0;
    for action in actions {
        match action {
            FrameAction::WriteUniform { view, slot, stage } => {
                assert_eq!(fresh, None);
                assert_eq!(slot, stage.uniform_slot());
                fresh = Some((view, slot));
            }
            FrameAction::SubmitPass { view, stage, .. } => {
                assert_eq!(fresh, Some((view, stage.uniform_slot())));
                fresh = None;
                submits += 1;
            }
            _ => {}
        }
    }
    assert_eq!(submits, 10);
}

#[test]
fn image_is_acquired_and_released_once() {
    let done = FrameReply::Done;
    let none = FrameReply::HandPose { flags: 0 };
    let mut replies = vec![
        done,
        FrameReply::Views { flags: USABLE, count: 3 },
        FrameReply::Image { index: 0 },
        done,
    ];
    for _view in 0..3 {
        replies.extend([done, done, done, done, done, done, done, none, none]);
    }
    replies.extend([done, done]);
    let actions = run(true, 1, &replies);
    let acquire = actions.iter().position(|a| *a == FrameAction::AcquireImage).unwrap();
    let wait = actions.iter().position(|a| *a == FrameAction::WaitImage).unwrap();
    let release = actions.iter().position(|a| *a == FrameAction::ReleaseImage).unwrap();
    let end = actions.iter().position(|a| matches!(a, FrameAction::EndFrameProjected { .. }));
    assert_eq!(actions.iter().filter(|a| **a == FrameAction::AcquireImage).count(), 1);
    assert_eq!(actions.iter().filter(|a| **a == FrameAction::ReleaseImage).count(), 1);
    assert!(acquire < wait && wait < release && release < end.unwrap());
    for (at, action) in actions.iter().enumerate() {
        if matches!(
            action,
            FrameAction::PrepareView { .. }
                | FrameAction::WriteUniform { .. }
                | FrameAction::SubmitPass { .. }
        ) {
            assert!(wait < at && at < release);
        }
    }
    let prepared: Vec<u32> = actions
        .iter()
        .filter_map(|a| match a {
            FrameAction::PrepareView { view, layer, .. } => {
                assert_eq!(view, layer);
                Some(*view)
            }
            _ => None,
        })
        .collect();
    assert_eq!(prepared, vec![0, 1, 2]);
}

#[test]
fn driver_takes_down_what_the_runtime_said() {
    let (mut frame, _) = FrameDriver::start(true, 2);
    let replies = [
        FrameReply::Done,
        FrameReply::Views { flags: USABLE, count: 1 },
        FrameReply::Image { index: 1 },
        FrameReply::Done,
        FrameReply::Done,
    ];
    for reply in replies {
        frame.advance(reply);
    }
    assert_eq!(
        frame.state(),
        FrameState {
            phase: Phase::Uploading,
            should_render: true,
            image_count: 2,
            view_count: 1,
            image: 1,
            view: 0,
            stage: Stage::Sky,
            pulled: false,
            rendered: false,
            outcome: FrameOutcome::Unexpected,
        }
    );
    assert_eq!(frame.pending(), upload(0, Stage::Sky));
    assert_eq!(frame.outcome(), None);
}

#[test]
fn pending_call_of_a_finished_frame_is_its_outcome() {
    let (mut frame, _) = FrameDriver::start(true, 1);
    frame.advance(FrameReply::Failed);
    assert_eq!(frame.pending(), finish(FrameOutcome::CallFailed));
    assert_eq!(frame.state().phase, Phase::Finished);
}
