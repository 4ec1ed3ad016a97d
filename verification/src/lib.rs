//! Verified decision core of a small multi-target renderer.
//!
//! The crate holds the rules that a desktop window, a browser canvas and a
//! stereo headset share when they drive one scene: how a surface is sized,
//! which surface format is picked, how vertex data is laid out, how window
//! and session events are answered, and in which order the work of one frame
//! is issued. Every function states its result in its contract; the code that
//! talks to the GPU, the window system and the XR runtime lives outside and
//! follows the actions that these functions hand out.

pub mod app;
pub mod surface;
pub mod text;
pub mod vertex;
pub mod webxr;
pub mod xr;

pub use crate::app::App;
pub use crate::surface::Gpu;
pub use crate::surface::Renderer;
pub use crate::vertex::Vertex;
pub use crate::webxr::initialize_webxr;
pub use crate::xr::context::XrContext;
