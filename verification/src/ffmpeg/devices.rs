//! The devices the recorder tool reports; one shared representation serves
//! the whole crate.

pub use crate::audio::devices::AudioInputDevice;
pub use crate::audio::devices::AudioInputDevices;
