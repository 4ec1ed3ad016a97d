//! The desktop and browser window: what each window event leads to.

use crate::surface::{clamp_surface_size, clamped_edge, Gpu, MAX_SURFACE_EDGE, MIN_SURFACE_EDGE};
use vstd::prelude::*;

verus! {

/// A key on the keyboard, as far as the application tells keys apart.
#[derive(Clone, Copy, Debug, PartialEq, Eq, Structural)]
pub enum Key {
    Escape,
    Other,
}

/// A window event, as far as the application tells events apart.
#[derive(Clone, Copy, Debug, PartialEq, Eq, Structural)]
pub enum WindowEvent {
    /// Keyboard input on a key with a known physical position.
    Keyboard { key: Key },
    /// The window's inner size changed.
    Resized { width: u32, height: u32 },
    /// The user asked for the window to close.
    CloseRequested,
    /// The window wants to be drawn.
    RedrawRequested,
    /// Any other event.
    Other,
}

/// What the application does about a window event.
#[derive(Clone, Copy, Debug, PartialEq, Eq, Structural)]
pub enum WindowAction {
    /// Nothing at all: the application is not set up, or the GUI took the
    /// event.
    Nothing,
    /// Leave the event loop.
    Exit,
    /// Configure the surface and the depth target to this size.
    Resize { width: u32, height: u32 },
    /// Lay out the GUI and render a frame onto a screen of this size.
    /// `panels_visible` says whether the four docked panels are laid out.
    Render { width: u32, height: u32, panels_visible: bool },
    /// No work for this event.
    Idle,
}

impl WindowAction {
    /// Whether the window is asked to redraw after this action. Only an
    /// event that was dropped before it was looked at asks for nothing.
    pub open spec fn redraws(self) -> bool {
        self != WindowAction::Nothing
    }

    /// The GPU context once this action was carried out: a resize
    /// configures the surface anew, nothing else touches it.
    pub open spec fn carried_out(self, gpu: Gpu) -> Gpu {
        match self {
            WindowAction::Resize { width, height } => Gpu {
                surface_width: width,
                surface_height: height,
                ..gpu
            },
            _ => gpu,
        }
    }

    /// Whether the window is asked to redraw after this action.
    pub fn requests_redraw(&self) -> (redraw: bool)
        ensures
            redraw == self.redraws(),
    {
        match self {
            WindowAction::Nothing => false,
            _ => true,
        }
    }
}

/// What the application does when it is resumed.
#[derive(Clone, Copy, Debug, PartialEq, Eq, Structural)]
pub enum ResumeAction {
    /// Nothing: no window could be made, or the application was set up
    /// before and only got a new window.
    Nothing,
    /// Set up the GUI and a renderer for a surface of this size.
    Initialize { width: u32, height: u32 },
}

/// The state of the application that its decisions read: which of its
/// parts exist, the size it last configured, and whether the docked panels
/// are shown.
#[derive(Clone, Copy, Debug, PartialEq, Eq)]
pub struct App {
    /// Whether a window exists.
    pub window: bool,
    /// Whether the renderer exists.
    pub renderer: bool,
    /// Whether the GUI state and the frame clock exist.
    pub gui_state: bool,
    /// The size that the GUI is laid out for.
    pub last_size: (u32, u32),
    /// Whether the four docked panels are shown.
    pub panels_visible: bool,
}

impl Default for App {
    fn default() -> (app: App)
        ensures
            app == App::initial(),
    {
        App {
            window: false,
            renderer: false,
            gui_state: false,
            last_size: (0, 0),
            panels_visible: false,
        }
    }
}

impl App {
    /// The application before it was ever resumed.
    pub open spec fn initial() -> App {
        App {
            window: false,
            renderer: false,
            gui_state: false,
            last_size: (0, 0),
            panels_visible: false,
        }
    }

    /// Whether the application looks at window events: it has a window, a
    /// renderer and a GUI.
    pub open spec fn ready(self) -> bool {
        self.window && self.renderer && self.gui_state
    }

    /// The action that a window event leads to, for an application that is
    /// ready and whose GUI left the event alone.
    pub open spec fn action_for(self, event: WindowEvent) -> WindowAction {
        match event {
            WindowEvent::Keyboard { key: Key::Escape } => WindowAction::Exit,
            WindowEvent::CloseRequested => WindowAction::Exit,
            WindowEvent::Resized { width, height } => WindowAction::Resize {
                width: clamped_edge(width),
                height: clamped_edge(height),
            },
            WindowEvent::RedrawRequested => WindowAction::Render {
                width: self.last_size.0,
                height: self.last_size.1,
                panels_visible: self.panels_visible,
            },
            _ => WindowAction::Idle,
        }
    }

    /// The application after a window event that it looked at.
    pub open spec fn after(self, event: WindowEvent) -> App {
        match event {
            WindowEvent::Resized { width, height } => App {
                last_size: (clamped_edge(width), clamped_edge(height)),
                ..self
            },
            _ => self,
        }
    }

    /// Whether the size that the GUI is laid out for is one that a surface
    /// is configured with.
    pub open spec fn size_supported(self) -> bool {
        &&& MIN_SURFACE_EDGE <= self.last_size.0 <= MAX_SURFACE_EDGE
        &&& MIN_SURFACE_EDGE <= self.last_size.1 <= MAX_SURFACE_EDGE
    }

    /// Whether the GUI is laid out for the size of this GPU context's
    /// surface.
    pub open spec fn agrees_with(self, gpu: Gpu) -> bool {
        self.last_size == (gpu.surface_width, gpu.surface_height)
    }

    /// Whether the application looks at window events.
    pub fn is_ready(&self) -> (ready: bool)
        ensures
            ready == self.ready(),
    {
        self.window && self.renderer && self.gui_state
    }

    /// Answers the event loop's resume call. `window_size` is the inner size
    /// of the window that was just made, or `None` if none could be made.
    /// Only the first window sets the application up.
    pub fn resumed(&mut self, window_size: Option<(u32, u32)>) -> (action: ResumeAction)
        ensures
            final(self).renderer == old(self).renderer,
            final(self).panels_visible == old(self).panels_visible,
            match window_size {
                None => action == ResumeAction::Nothing && *final(self) == *old(self),
                Some(size) => {
                    &&& final(self).window
                    &&& if old(self).window {
                        &&& action == ResumeAction::Nothing
                        &&& final(self).gui_state == old(self).gui_state
                        &&& final(self).last_size == old(self).last_size
                    } else {
                        &&& action == ResumeAction::Initialize { width: size.0, height: size.1 }
                        &&& final(self).gui_state
                        &&& final(self).last_size == size
                    }
                },
            },
    {
        match window_size {
            None => ResumeAction::Nothing,
            Some(size) => {
                let first: bool = !self.window;
                self.window = true;
                if first {
                    self.last_size = size;
                    self.gui_state = true;
                    ResumeAction::Initialize { width: size.0, height: size.1 }
                } else {
                    ResumeAction::Nothing
                }
            },
        }
    }

    /// Records that the renderer exists. On the desktop that is right after
    /// `resumed` asked for it; in the browser it arrives some events later.
    pub fn renderer_created(&mut self)
        ensures
            *final(self) == (App { renderer: true, ..*old(self) }),
    {
        self.renderer = true;
    }

    /// Records the size of the canvas that the browser hands over, which
    /// the GUI is laid out for from then on.
    pub fn canvas_measured(&mut self, width: u32, height: u32)
        ensures
            *final(self) == (App { last_size: (width, height), ..*old(self) }),
    {
        self.last_size = (width, height);
    }

    /// Records what the GUI's checkbox says after a frame was laid out.
    pub fn set_panels_visible(&mut self, visible: bool)
        ensures
            *final(self) == (App { panels_visible: visible, ..*old(self) }),
    {
        self.panels_visible = visible;
    }

    /// Answers a window event. `consumed` says whether the GUI took the
    /// event for itself; it is read only when the application is ready.
    ///
    /// An application that is not ready drops the event, and so does one
    /// whose GUI took it. Otherwise Escape and a close request leave the
    /// event loop, a new size is clamped and configured, and a redraw
    /// request renders a frame for the size configured last.
    pub fn window_event(&mut self, event: WindowEvent, consumed: bool) -> (action: WindowAction)
        ensures
            !old(self).ready() || consumed ==> action == WindowAction::Nothing && *final(self)
                == *old(self),
            old(self).ready() && !consumed ==> action == old(self).action_for(event) && *final(self)
                == old(self).after(event),
    {
        if !self.is_ready() || consumed {
            return WindowAction::Nothing;
        }
        match event {
            WindowEvent::Keyboard { key: Key::Escape } => WindowAction::Exit,
            WindowEvent::CloseRequested => WindowAction::Exit,
            WindowEvent::Resized { width, height } => {
                let (width, height) = clamp_surface_size(width, height);
                self.last_size = (width, height);
                WindowAction::Resize { width, height }
            },
            WindowEvent::RedrawRequested => WindowAction::Render {
                width: self.last_size.0,
                height: self.last_size.1,
                panels_visible: self.panels_visible,
            },
            _ => WindowAction::Idle,
        }
    }
}

/// A resize always leaves a supported size behind, and no other window
/// event changes the size: once the window was resized, every frame is
/// rendered for a size that the surface was configured with. The surface
/// and the GUI never disagree about it, since both get the size of the
/// same `Resize`.
pub proof fn lemma_window_events_keep_size_supported(app: App, event: WindowEvent)
    ensures
        event is Resized ==> app.after(event).size_supported(),
        event is Resized ==> app.action_for(event) == (WindowAction::Resize {
            width: app.after(event).last_size.0,
            height: app.after(event).last_size.1,
        }),
        !(event is Resized) ==> app.after(event) == app,
        app.size_supported() ==> app.after(event).size_supported(),
        app.ready() ==> app.after(event).ready(),
{
}

/// The GUI and the surface agree about their size at every frame. They
/// agree when the application is set up, since the renderer is made for
/// the size that the GUI is laid out for; every window event keeps them in
/// agreement, since a resize hands both the same clamped size; and so a
/// frame is always rendered for the size of the surface it is drawn to.
pub proof fn lemma_gui_and_surface_agree(app: App, gpu: Gpu, event: WindowEvent)
    requires
        app.agrees_with(gpu),
    ensures
        app.after(event).agrees_with(app.action_for(event).carried_out(gpu)),
        app.action_for(event) matches WindowAction::Render { width, height, .. } ==> width
            == gpu.surface_width && height == gpu.surface_height,
        app.action_for(event).carried_out(gpu).surface_format == gpu.surface_format,
{
}

} // verus!
