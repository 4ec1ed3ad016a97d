use app_core::webxr::{
    attribute_index, attribute_pointers, initialize_webxr, setup_step, setup_xr_rendering,
    AttributePointer, FramePlan, ReferenceSpace, SetupAction, SetupFailure, SetupPhase, Startup,
    WebXrState,
};

#[test]
fn button_is_offered_only_on_a_plain_yes() {
    assert_eq!(initialize_webxr(Ok(Some(true))), Startup::OfferButton);
    assert_eq!(initialize_webxr(Ok(Some(false))), Startup::Unsupported);
    assert_eq!(initialize_webxr(Ok(None)), Startup::Unsupported);
    assert_eq!(initialize_webxr(Err(())), Startup::QueryFailed);
}

#[test]
fn setup_starts_by_making_the_context_compatible() {
    assert_eq!(setup_xr_rendering(), SetupPhase::MakingCompatible);
}

#[test]
fn setup_prefers_the_floor_space() {
    let (phase, action) = setup_step(setup_xr_rendering(), true);
    assert_eq!(phase, SetupPhase::Requesting { space: ReferenceSpace::LocalFloor });
    assert_eq!(action, SetupAction::CreateLayerAndRequest { space: ReferenceSpace::LocalFloor });
    let (phase, action) = setup_step(phase, true);
    assert_eq!(phase, SetupPhase::Running { space: ReferenceSpace::LocalFloor });
    assert_eq!(action, SetupAction::Start { space: ReferenceSpace::LocalFloor });
}

#[test]
fn setup_falls_back_to_the_local_space() {
    let (phase, _) = setup_step(setup_xr_rendering(), true);
    let (phase, action) = setup_step(phase, false);
    assert_eq!(phase, SetupPhase::Requesting { space: ReferenceSpace::Local });
    assert_eq!(action, SetupAction::Request { space: ReferenceSpace::Local });
    let (phase, action) = setup_step(phase, true);
    assert_eq!(phase, SetupPhase::Running { space: ReferenceSpace::Local });
    assert_eq!(action, SetupAction::Start { space: ReferenceSpace::Local });
}

#[test]
fn setup_gives_up_without_a_compatible_context() {
    let (phase, action) = setup_step(setup_xr_rendering(), false);
    assert_eq!(phase, SetupPhase::Failed { failure: SetupFailure::NotCompatible });
    assert_eq!(action, SetupAction::Abort { failure: SetupFailure::NotCompatible });
}

#[test]
fn setup_gives_up_without_a_reference_space() {
    let (phase, _) = setup_step(setup_xr_rendering(), true);
    let (phase, _) = setup_step(phase, false);
    let (phase, action) = setup_step(phase, false);
    assert_eq!(phase, SetupPhase::Failed { failure: SetupFailure::NoReferenceSpace });
    assert_eq!(action, SetupAction::Abort { failure: SetupFailure::NoReferenceSpace });
}

#[test]
fn ended_setup_asks_for_nothing() {
    for phase in [
        SetupPhase::Running { space: ReferenceSpace::Local },
        SetupPhase::Running { space: ReferenceSpace::LocalFloor },
        SetupPhase::Failed { failure: SetupFailure::NotCompatible },
        SetupPhase::Failed { failure: SetupFailure::NoReferenceSpace },
    ] {
        assert_eq!(setup_step(phase, true), (phase, SetupAction::Nothing));
        assert_eq!(setup_step(phase, false), (phase, SetupAction::Nothing));
    }
}

#[test]
fn found_location_keeps_its_value() {
    assert_eq!(attribute_index(0), 0);
    assert_eq!(attribute_index(1), 1);
    assert_eq!(attribute_index(i32::MAX), 2_147_483_647);
}

#[test]
fn missing_location_becomes_the_largest_index() {
    assert_eq!(attribute_index(-1), u32::MAX);
    assert_eq!(attribute_index(-2), u32::MAX - 1);
    assert_eq!(attribute_index(i32::MIN), 0x8000_0000);
    for location in [i32::MIN, -7, -1, 0, 5, i32::MAX] {
        assert_eq!(attribute_index(location), location as u32);
    }
}

#[test]
fn started_state_holds_everything() {
    let state = WebXrState::started(0, 1);
    assert_eq!(
        state,
        WebXrState {
            session: true,
            reference_space: true,
            gl_layer: true,
            gl_context: true,
            program: true,
            vertex_buffer: true,
            mvp_location: true,
            position_attrib_location: 0,
            color_attrib_location: 1,
            last_time: false,
        }
    );
    assert!(state.wants_pose());
    assert_eq!(WebXrState::started(-1, 3).position_attrib_location, u32::MAX);
    assert_eq!(WebXrState::started(-1, 3).color_attrib_location, 3);
}

#[test]
fn first_frame_measures_no_time() {
    let mut state = WebXrState::started(0, 1);
    let plan = state.animation_frame(true);
    assert_eq!(plan, FramePlan { measure: false, draw: true, reschedule: true });
    assert!(state.last_time);
    let plan = state.animation_frame(true);
    assert_eq!(plan, FramePlan { measure: true, draw: true, reschedule: true });
}

#[test]
fn frame_without_a_pose_draws_nothing_and_goes_on() {
    let mut state = WebXrState::started(0, 1);
    let plan = state.animation_frame(false);
    assert_eq!(plan, FramePlan { measure: false, draw: false, reschedule: true });
}

#[test]
fn frame_with_a_missing_handle_draws_nothing() {
    let full = WebXrState::started(0, 1);
    let partial = [
        WebXrState { reference_space: false, ..full },
        WebXrState { gl_layer: false, ..full },
        WebXrState { gl_context: false, ..full },
        WebXrState { program: false, ..full },
        WebXrState { vertex_buffer: false, ..full },
        WebXrState { mvp_location: false, ..full },
    ];
    for mut state in partial {
        assert!(!state.wants_pose());
        let plan = state.animation_frame(true);
        assert_eq!(plan, FramePlan { measure: false, draw: false, reschedule: true });
    }
}

#[test]
fn ended_session_stops_the_animation() {
    let mut state = WebXrState::started(2, 5);
    state.animation_frame(true);
    state.session_ended();
    assert_eq!(
        state,
        WebXrState {
            session: false,
            reference_space: false,
            gl_layer: false,
            gl_context: false,
            program: true,
            vertex_buffer: true,
            mvp_location: true,
            position_attrib_location: 2,
            color_attrib_location: 5,
            last_time: true,
        }
    );
    let plan = state.animation_frame(true);
    assert_eq!(plan, FramePlan { measure: true, draw: false, reschedule: false });
}

#[test]
fn headset_vertex_is_packed_into_28_bytes() {
    assert_eq!(
        attribute_pointers(),
        vec![
            AttributePointer { components: 3, stride: 28, offset: 0 },
            AttributePointer { components: 4, stride: 28, offset: 12 },
        ]
    );
}
