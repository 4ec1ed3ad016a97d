//! The headset path: version gates at start-up, session events, and the
//! order of work inside one stereo frame.

pub mod context;
pub mod frame;
pub mod pose;
pub mod script;
pub mod session;
pub mod version;
