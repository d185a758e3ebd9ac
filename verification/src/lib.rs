//! A backend set that touches no platform: a window that only remembers what it
//! was told, a graphics device that only numbers its resources, an audio device
//! that only keeps a table of sounds, and the order in which a rendering
//! context is asked for. Every function is total on the inputs its contract
//! admits, and every contract is proved.

pub mod audio;
pub mod backend;
pub mod context;
pub mod device;
pub mod window;

pub use audio::EmptyAudioBackend;
pub use backend::EmptyBackend;
pub use device::EmptyDeviceBackend;
pub use window::{CursorIcon, EmptyWindowBackend};
