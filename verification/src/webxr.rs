//! The browser's headset path: whether to offer it, how its rendering is
//! set up, and what each animation frame does.

use crate::vertex::{packed_attributes, packed_bytes, packed_stride, VertexFormat};
use vstd::prelude::*;

verus! {

/// What the page does once the browser has said whether it can present to
/// a headset.
#[derive(Clone, Copy, Debug, PartialEq, Eq, Structural)]
pub enum Startup {
    /// Offer the button that enters VR.
    OfferButton,
    /// Say that the device or the browser cannot present to a headset.
    Unsupported,
    /// Say that the question itself failed.
    QueryFailed,
}

/// Decides what the page does about the browser's answer to "is an
/// immersive session supported?". `answer` is `Err` when the question
/// failed, `Ok(None)` when the answer was no boolean, and `Ok(Some(b))`
/// when it was the boolean `b`. Only a plain yes offers the button.
pub fn initialize_webxr(answer: Result<Option<bool>, ()>) -> (startup: Startup)
    ensures
        startup == match answer {
            Ok(Some(true)) => Startup::OfferButton,
            Ok(_) => Startup::Unsupported,
            Err(_) => Startup::QueryFailed,
        },
{
    match answer {
        Ok(Some(true)) => Startup::OfferButton,
        Ok(_) => Startup::Unsupported,
        Err(_) => Startup::QueryFailed,
    }
}

/// A reference space that a session can be asked for.
#[derive(Clone, Copy, Debug, PartialEq, Eq, Structural)]
pub enum ReferenceSpace {
    /// The origin on the floor.
    LocalFloor,
    /// The origin near the viewer's head at the start.
    Local,
}

/// Why the set-up of a session's rendering was given up.
#[derive(Clone, Copy, Debug, PartialEq, Eq, Structural)]
pub enum SetupFailure {
    /// The GL context could not be made compatible with the headset.
    NotCompatible,
    /// The session has none of the reference spaces that were asked for.
    NoReferenceSpace,
}

/// Where the set-up of a session's rendering stands: the request that is
/// pending, or how the set-up ended.
#[derive(Clone, Copy, Debug, PartialEq, Eq, Structural)]
pub enum SetupPhase {
    /// The GL context is being made compatible with the headset.
    MakingCompatible,
    /// A reference space was asked for.
    Requesting { space: ReferenceSpace },
    /// The set-up went through with this reference space.
    Running { space: ReferenceSpace },
    /// The set-up was given up.
    Failed { failure: SetupFailure },
}

/// The next thing to do in the set-up of a session's rendering.
#[derive(Clone, Copy, Debug, PartialEq, Eq, Structural)]
pub enum SetupAction {
    /// Make the base layer on the GL context and ask the session for this
    /// reference space.
    CreateLayerAndRequest { space: ReferenceSpace },
    /// Ask the session for this reference space.
    Request { space: ReferenceSpace },
    /// Make the GL resources and start the animation frames, with the
    /// reference space that was granted.
    Start { space: ReferenceSpace },
    /// Give up and report.
    Abort { failure: SetupFailure },
    /// The set-up has ended; nothing is pending.
    Nothing,
}

impl SetupPhase {
    /// The phase and the action that follow when the pending request was
    /// granted (`granted`) or refused.
    pub open spec fn step(self, granted: bool) -> (SetupPhase, SetupAction) {
        match self {
            SetupPhase::MakingCompatible => if granted {
                (
                    SetupPhase::Requesting { space: ReferenceSpace::LocalFloor },
                    SetupAction::CreateLayerAndRequest { space: ReferenceSpace::LocalFloor },
                )
            } else {
                (
                    SetupPhase::Failed { failure: SetupFailure::NotCompatible },
                    SetupAction::Abort { failure: SetupFailure::NotCompatible },
                )
            },
            SetupPhase::Requesting { space } => if granted {
                (SetupPhase::Running { space }, SetupAction::Start { space })
            } else if space == ReferenceSpace::LocalFloor {
                (
                    SetupPhase::Requesting { space: ReferenceSpace::Local },
                    SetupAction::Request { space: ReferenceSpace::Local },
                )
            } else {
                (
                    SetupPhase::Failed { failure: SetupFailure::NoReferenceSpace },
                    SetupAction::Abort { failure: SetupFailure::NoReferenceSpace },
                )
            },
            _ => (self, SetupAction::Nothing),
        }
    }

    /// How many requests can still be pending one after the other.
    pub open spec fn requests_left(self) -> nat {
        match self {
            SetupPhase::MakingCompatible => 3,
            SetupPhase::Requesting { space: ReferenceSpace::LocalFloor } => 2,
            SetupPhase::Requesting { space: ReferenceSpace::Local } => 1,
            _ => 0,
        }
    }
}

/// Starts the set-up of a session's rendering: the first request makes the
/// GL context compatible with the headset.
pub fn setup_xr_rendering() -> (phase: SetupPhase)
    ensures
        phase == SetupPhase::MakingCompatible,
{
    SetupPhase::MakingCompatible
}

/// Takes the answer to the pending request and names what follows. The
/// floor-level space is asked for first and the local one only if that is
/// refused; a refusal of the context or of both spaces ends the set-up.
pub fn setup_step(phase: SetupPhase, granted: bool) -> (next: (SetupPhase, SetupAction))
    ensures
        next == phase.step(granted),
{
    match phase {
        SetupPhase::MakingCompatible => if granted {
            (
                SetupPhase::Requesting { space: ReferenceSpace::LocalFloor },
                SetupAction::CreateLayerAndRequest { space: ReferenceSpace::LocalFloor },
            )
        } else {
            (
                SetupPhase::Failed { failure: SetupFailure::NotCompatible },
                SetupAction::Abort { failure: SetupFailure::NotCompatible },
            )
        },
        SetupPhase::Requesting { space } => if granted {
            (SetupPhase::Running { space }, SetupAction::Start { space })
        } else {
            match space {
                ReferenceSpace::LocalFloor => (
                    SetupPhase::Requesting { space: ReferenceSpace::Local },
                    SetupAction::Request { space: ReferenceSpace::Local },
                ),
                ReferenceSpace::Local => (
                    SetupPhase::Failed { failure: SetupFailure::NoReferenceSpace },
                    SetupAction::Abort { failure: SetupFailure::NoReferenceSpace },
                ),
            }
        },
        _ => (phase, SetupAction::Nothing),
    }
}

/// The set-up ends after at most three answers, and it starts rendering
/// exactly when the context was made compatible and one of the two spaces
/// was granted, the floor-level one if both would be.
pub proof fn lemma_setup_ends(compatible: bool, floor: bool, local: bool)
    ensures
        ({
            let first = SetupPhase::MakingCompatible.step(compatible);
            let second = first.0.step(floor);
            let third = second.0.step(local);
            &&& third.0.requests_left() == 0
            &&& !compatible ==> first.1 == SetupAction::Abort {
                failure: SetupFailure::NotCompatible,
            }
            &&& compatible && floor ==> second.1 == SetupAction::Start {
                space: ReferenceSpace::LocalFloor,
            }
            &&& compatible && !floor && local ==> third.1 == SetupAction::Start {
                space: ReferenceSpace::Local,
            }
            &&& compatible && !floor && !local ==> third.1 == SetupAction::Abort {
                failure: SetupFailure::NoReferenceSpace,
            }
        }),
{
}

/// Every answer to a pending request brings the set-up nearer to its end.
pub proof fn lemma_setup_progress(phase: SetupPhase, granted: bool)
    ensures
        phase.requests_left() > 0 ==> phase.step(granted).0.requests_left()
            < phase.requests_left(),
        phase.requests_left() == 0 ==> phase.step(granted) == (phase, SetupAction::Nothing),
{
}

/// The shader input that a looked-up attribute location names. The lookup
/// answers with a signed number, and the calls that take a location want an
/// unsigned one: a location that was found keeps its value, and the -1 of
/// one that was not becomes the largest index.
pub fn attribute_index(location: i32) -> (index: u32)
    ensures
        location >= 0 ==> index == location,
        location < 0 ==> index == location + 0x1_0000_0000,
{
    if location >= 0 {
        location as u32
    } else {
        u32::MAX - ((-(location + 1)) as u32)
    }
}

/// What the headset path holds while a session runs, as far as the frame
/// callback reads it: which of its handles exist, and the two shader inputs.
#[derive(Clone, Copy, Debug, PartialEq, Eq, Structural)]
pub struct WebXrState {
    pub session: bool,
    pub reference_space: bool,
    pub gl_layer: bool,
    pub gl_context: bool,
    pub program: bool,
    pub vertex_buffer: bool,
    pub mvp_location: bool,
    pub position_attrib_location: u32,
    pub color_attrib_location: u32,
    /// Whether an earlier frame left its time behind.
    pub last_time: bool,
}

/// What one animation frame does.
#[derive(Clone, Copy, Debug, PartialEq, Eq, Structural)]
pub struct FramePlan {
    /// Whether the time since the frame before is measured; the first
    /// frame counts as no time at all.
    pub measure: bool,
    /// Whether the views are drawn.
    pub draw: bool,
    /// Whether the next animation frame is asked for.
    pub reschedule: bool,
}

impl WebXrState {
    /// Whether everything that drawing needs exists.
    pub open spec fn drawable(self) -> bool {
        self.reference_space && self.gl_layer && self.gl_context && self.program
            && self.vertex_buffer && self.mvp_location
    }

    /// What an animation frame does in this state. `has_pose` says whether
    /// the session knew the viewer's pose.
    pub open spec fn plan(self, has_pose: bool) -> FramePlan {
        FramePlan {
            measure: self.last_time,
            draw: self.drawable() && has_pose,
            reschedule: self.session,
        }
    }

    /// This state once its session has ended: the session, its reference
    /// space, its layer and the GL context are gone.
    pub open spec fn ended(self) -> WebXrState {
        WebXrState {
            session: false,
            reference_space: false,
            gl_layer: false,
            gl_context: false,
            ..self
        }
    }

    /// The state right after the set-up: every handle exists, and no frame
    /// has run. The two locations are what the lookup of the position and
    /// of the colour input answered.
    pub fn started(position_location: i32, color_location: i32) -> (state: WebXrState)
        ensures
            state.session && state.drawable() && !state.last_time,
            position_location >= 0 ==> state.position_attrib_location == position_location,
            position_location < 0 ==> state.position_attrib_location == position_location
                + 0x1_0000_0000,
            color_location >= 0 ==> state.color_attrib_location == color_location,
            color_location < 0 ==> state.color_attrib_location == color_location + 0x1_0000_0000,
    {
        WebXrState {
            session: true,
            reference_space: true,
            gl_layer: true,
            gl_context: true,
            program: true,
            vertex_buffer: true,
            mvp_location: true,
            position_attrib_location: attribute_index(position_location),
            color_attrib_location: attribute_index(color_location),
            last_time: false,
        }
    }

    /// Whether the next animation frame has to ask the session for the
    /// viewer's pose: only a state that could draw has a use for it.
    pub fn wants_pose(&self) -> (wanted: bool)
        ensures
            wanted == self.drawable(),
    {
        self.reference_space && self.gl_layer && self.gl_context && self.program
            && self.vertex_buffer && self.mvp_location
    }

    /// Plans one animation frame. `has_pose` says whether the session knew
    /// the viewer's pose. The frame draws when everything that drawing
    /// needs exists and the pose is known, it asks for the next frame as
    /// long as the session exists, and it leaves its time behind for the
    /// next frame to measure from.
    pub fn animation_frame(&mut self, has_pose: bool) -> (plan: FramePlan)
        ensures
            plan == old(self).plan(has_pose),
            *final(self) == (WebXrState { last_time: true, ..*old(self) }),
    {
        let measure: bool = self.last_time;
        self.last_time = true;
        FramePlan { measure, draw: self.wants_pose() && has_pose, reschedule: self.session }
    }

    /// Takes down that the session ended. The program, the vertex buffer
    /// and the uniform location stay as they are.
    pub fn session_ended(&mut self)
        ensures
            *final(self) == old(self).ended(),
    {
        self.session = false;
        self.reference_space = false;
        self.gl_layer = false;
        self.gl_context = false;
    }
}

/// Once a session has ended, a frame that still arrives draws nothing and
/// asks for no further frame, whatever the state was and whether or not a
/// pose is known: the animation stops.
pub proof fn lemma_ended_session_stops(state: WebXrState, has_pose: bool)
    ensures
        state.ended().plan(has_pose) == (FramePlan {
            measure: state.last_time,
            draw: false,
            reschedule: false,
        }),
        state.ended().ended() == state.ended(),
{
}

/// How one attribute of the interleaved vertex data is handed to GL.
#[derive(Clone, Copy, Debug, PartialEq, Eq, Structural)]
pub struct AttributePointer {
    /// The number of floats in the attribute.
    pub components: i32,
    /// The distance in bytes from one vertex to the next.
    pub stride: i32,
    /// The byte at which the attribute starts inside a vertex.
    pub offset: i32,
}

/// The formats of the headset path's vertex: a position of three floats,
/// then a colour of four.
pub open spec fn gl_vertex_formats() -> Seq<VertexFormat> {
    seq![VertexFormat::Float32x3, VertexFormat::Float32x4]
}

/// The attribute pointers of the headset path's vertex data: the position
/// first, then the colour, packed into 28 bytes a vertex.
pub fn attribute_pointers() -> (pointers: Vec<AttributePointer>)
    ensures
        pointers@ == seq![
            AttributePointer { components: 3, stride: 28, offset: 0 },
            AttributePointer { components: 4, stride: 28, offset: 12 },
        ],
        forall|i: int|
            0 <= i < 2 ==> {
                &&& (#[trigger] pointers[i]).components == gl_vertex_formats()[i].components()
                &&& pointers[i].offset == packed_bytes(gl_vertex_formats(), i)
                &&& pointers[i].stride == packed_bytes(gl_vertex_formats(), 2)
            },
{
    let mut formats: Vec<VertexFormat> = Vec::new();
    formats.push(VertexFormat::Float32x3);
    formats.push(VertexFormat::Float32x4);
    let attributes = packed_attributes(&formats);
    let stride: u64 = packed_stride(&formats);
    proof {
        assert(formats@ =~= gl_vertex_formats());
        reveal_with_fuel(packed_bytes, 3);
    }
    let mut pointers: Vec<AttributePointer> = Vec::new();
    let mut i: usize = 0;
    while i < 2
        invariant
            i <= 2,
            attributes.len() == 2,
            stride == 28,
            pointers.len() == i,
            formats@ == gl_vertex_formats(),
            attributes[0].offset == 0 && attributes[0].format == VertexFormat::Float32x3,
            attributes[1].offset == 12 && attributes[1].format == VertexFormat::Float32x4,
            forall|j: int|
                0 <= j < i ==> {
                    &&& (#[trigger] pointers[j]).components == gl_vertex_formats()[j].components()
                    &&& pointers[j].offset == attributes[j].offset
                    &&& pointers[j].stride == 28
                },
        decreases 2 - i,
    {
        let attribute = attributes[i];
        pointers.push(
            AttributePointer {
                components: attribute.format.component_count() as i32,
                stride: stride as i32,
                offset: attribute.offset as i32,
            },
        );
        i += 1;
    }
    proof {
        assert(pointers@ =~= seq![
            AttributePointer { components: 3, stride: 28, offset: 0 },
            AttributePointer { components: 4, stride: 28, offset: 12 },
        ]);
    }
    pointers
}

} // verus!
