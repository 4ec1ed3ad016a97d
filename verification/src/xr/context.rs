//! What the headset path knows about its session between frames.

use crate::surface::TargetCache;
use crate::xr::frame::{FrameAction, FrameDriver, FrameState};
use crate::xr::session::{poll_for, state_after, Event, Poll, SessionState};
use vstd::prelude::*;

verus! {

/// A rectangle inside a swapchain image, in pixels.
#[derive(Clone, Copy, Debug, PartialEq, Eq, Structural)]
pub struct ImageRect {
    pub x: i32,
    pub y: i32,
    pub width: i32,
    pub height: i32,
}

/// One view of a projection layer: the array layer of the swapchain image
/// that shows it, and the part of that layer that it fills.
#[derive(Clone, Copy, Debug, PartialEq, Eq, Structural)]
pub struct ProjectionView {
    pub image_array_index: u32,
    pub image_rect: ImageRect,
}

/// An unsigned extent as the signed number that the runtime takes: the
/// same 32 bits, so an extent past the largest signed number comes out
/// negative.
pub open spec fn signed_extent(extent: u32) -> int {
    if extent <= i32::MAX {
        extent as int
    } else {
        extent - 0x1_0000_0000
    }
}

/// The state of the headset path: the size of a swapchain layer, the
/// number of swapchain images, the session's lifecycle state as last
/// reported, and the depth target that the views share.
#[derive(Clone, Copy, Debug, PartialEq, Eq)]
pub struct XrContext {
    pub resolution: (u32, u32),
    pub image_count: usize,
    pub session_state: SessionState,
    pub depth: TargetCache,
}

impl XrContext {
    /// Sets the state up from the recommended size of each view, in the
    /// runtime's order. Every layer of the swapchain has the size
    /// recommended for the first view. No swapchain exists yet.
    pub fn new(view_sizes: &Vec<(u32, u32)>) -> (context: XrContext)
        requires
            view_sizes.len() > 0,
        ensures
            context.resolution == view_sizes[0],
            context.image_count == 0,
            context.session_state == SessionState::Unknown,
            context.depth.size is None,
    {
        XrContext {
            resolution: view_sizes[0],
            image_count: 0,
            session_state: SessionState::Unknown,
            depth: TargetCache::new(),
        }
    }

    /// Takes down the number of images that the swapchain was made with.
    pub fn swapchain_created(&mut self, image_count: usize)
        ensures
            *final(self) == (XrContext { image_count, ..*old(self) }),
    {
        self.image_count = image_count;
    }

    /// Takes what the runtime handed out, an event or `None` when its queue
    /// is empty, and says what polling does next. A reported lifecycle
    /// state is taken down.
    pub fn poll_events(&mut self, event: Option<Event>) -> (poll: Poll)
        ensures
            poll == poll_for(event),
            *final(self) == (XrContext {
                session_state: state_after(old(self).session_state, event),
                ..*old(self)
            }),
    {
        match event {
            None => Poll::Drained,
            Some(Event::SessionStateChanged { state }) => {
                self.session_state = state;
                match state {
                    SessionState::Ready => Poll::BeginSession,
                    SessionState::Stopping => Poll::EndSession,
                    SessionState::Exiting | SessionState::LossPending => Poll::Quit,
                    _ => Poll::Continue,
                }
            },
            Some(Event::InstanceLossPending) => Poll::Quit,
            Some(Event::Other) => Poll::Continue,
        }
    }

    /// Starts a frame. `should_render` is what the runtime said when the
    /// frame was waited for. The first call to make is `BeginFrame`.
    pub fn render_frame(&self, should_render: bool) -> (begun: (FrameDriver, FrameAction))
        ensures
            begun.0@ == FrameState::initial(should_render, self.image_count),
            begun.1 == FrameAction::BeginFrame,
    {
        FrameDriver::start(should_render, self.image_count)
    }

    /// Asks for the depth target of a view and says whether it has to be
    /// made: only the first view ever drawn finds none, since every view
    /// has the swapchain's size.
    pub fn depth_target(&mut self) -> (rebuild: bool)
        ensures
            rebuild == old(self).depth.misses(old(self).resolution.0, old(self).resolution.1),
            *final(self) == (XrContext {
                depth: old(self).depth.requested(old(self).resolution.0, old(self).resolution.1),
                ..*old(self)
            }),
    {
        let (width, height) = self.resolution;
        self.depth.request(width, height)
    }

    /// The part of a swapchain layer that a view fills: all of it.
    pub fn image_rect(&self) -> (rect: ImageRect)
        ensures
            rect.x == 0,
            rect.y == 0,
            rect.width == signed_extent(self.resolution.0),
            rect.height == signed_extent(self.resolution.1),
    {
        ImageRect {
            x: 0,
            y: 0,
            width: to_signed(self.resolution.0),
            height: to_signed(self.resolution.1),
        }
    }

    /// The views of the projection layer that ends a rendered frame: view
    /// `i` is shown from array layer `i`, and each fills its layer.
    pub fn projection_views(&self, views: u32) -> (layer: Vec<ProjectionView>)
        ensures
            layer.len() == views,
            forall|i: int|
                0 <= i < views ==> {
                    &&& (#[trigger] layer[i]).image_array_index == i
                    &&& layer[i].image_rect.x == 0
                    &&& layer[i].image_rect.y == 0
                    &&& layer[i].image_rect.width == signed_extent(self.resolution.0)
                    &&& layer[i].image_rect.height == signed_extent(self.resolution.1)
                },
    {
        let rect: ImageRect = self.image_rect();
        let mut layer: Vec<ProjectionView> = Vec::new();
        let mut i: u32 = 0;
        while i < views
            invariant
                i <= views,
                layer.len() == i,
                rect.x == 0,
                rect.y == 0,
                rect.width == signed_extent(self.resolution.0),
                rect.height == signed_extent(self.resolution.1),
                forall|j: int|
                    0 <= j < i ==> {
                        &&& (#[trigger] layer[j]).image_array_index == j
                        &&& layer[j].image_rect == rect
                    },
            decreases views - i,
        {
            layer.push(ProjectionView { image_array_index: i, image_rect: rect });
            i += 1;
        }
        layer
    }
}

fn to_signed(extent: u32) -> (signed: i32)
    ensures
        signed == signed_extent(extent),
{
    if extent <= 0x7fff_ffff {
        extent as i32
    } else {
        let below: u32 = u32::MAX - extent;
        -1 - (below as i32)
    }
}

} // verus!
