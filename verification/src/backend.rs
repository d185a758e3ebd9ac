//! The backend set as a whole: it owns the window, makes the two devices, and
//! runs the application for one frame.

use crate::audio::EmptyAudioBackend;
use crate::device::EmptyDeviceBackend;
use crate::window::{EmptyWindowBackend, WindowState};
use vstd::prelude::*;

verus! {

/// The backend set that touches no platform.
pub struct EmptyBackend {
    window: EmptyWindowBackend,
}

impl View for EmptyBackend {
    type V = WindowState;

    /// What the window of the set holds.
    closed spec fn view(&self) -> WindowState {
        self.window@
    }
}

impl Default for EmptyBackend {
    /// A set whose window has been told nothing yet.
    fn default() -> (backend: Self)
        ensures
            backend@ == WindowState::initial(),
    {
        EmptyBackend { window: EmptyWindowBackend::default() }
    }
}

/// What one frame comes to: the error to put into the log, if the frame
/// returned one.
pub open spec fn frame_error<T>(outcome: Result<T, String>) -> Option<String> {
    match outcome {
        Ok(_) => None,
        Err(error) => Some(error),
    }
}

/// The error to put into the log after a frame, if the frame returned one.
pub fn frame_report<T>(outcome: Result<T, String>) -> (logged: Option<String>)
    ensures
        logged == frame_error(outcome),
{
    match outcome {
        Ok(_) => None,
        Err(error) => Some(error),
    }
}

impl EmptyBackend {
    /// Makes the set. It never fails.
    pub fn new() -> (backend: Result<Self, String>)
        ensures
            backend matches Ok(made) && made@ == WindowState::initial(),
    {
        Ok(EmptyBackend::default())
    }

    /// The window of the set, to read and to change.
    pub fn window(&mut self) -> (window: &mut EmptyWindowBackend)
        ensures
            window@ == old(self)@,
            final(self)@ == final(window)@,
    {
        &mut self.window
    }

    /// The events that are waiting: there are never any.
    pub fn events_iter<E>(&mut self) -> (events: Vec<E>)
        ensures
            events@.len() == 0,
            final(self)@ == old(self)@,
    {
        Vec::new()
    }

    /// Takes note of a request to close: there is nothing to close.
    pub fn exit(&mut self)
        ensures
            final(self)@ == old(self)@,
    {
    }

    /// The time of the system: this set has no clock, and says zero.
    pub fn system_timestamp(&self) -> (timestamp: u64)
        ensures
            timestamp == 0,
    {
        0
    }

    /// Takes note of a link to open: nothing is opened.
    pub fn open_link(&self, url: &str, new_tab: bool) {
    }

    /// A new graphics device, which has given out no handle.
    pub fn get_graphics_backend(&self) -> (device: EmptyDeviceBackend)
        ensures
            device@ == 0,
    {
        EmptyDeviceBackend::default()
    }

    /// A new audio device, with an empty table and master gain zero.
    pub fn get_audio_backend(&self) -> (device: EmptyAudioBackend)
        ensures
            device@.table.len() == 0,
            device@.global_volume == 0,
    {
        EmptyAudioBackend::default()
    }

    /// Runs the application for one frame and then ends, whatever the frame
    /// asked for. It returns `Ok` even where the frame failed, beside the
    /// frame's error for the log.
    pub fn run_once<T, F>(frame: F) -> (report: (Result<(), String>, Option<String>)) where
        F: FnOnce() -> Result<T, String>,

        requires
            call_requires(frame, ()),
        ensures
            report.0 is Ok,
            exists|outcome: Result<T, String>|
                call_ensures(frame, (), outcome) && report.1 == frame_error(outcome),
    {
        let outcome = frame();
        (Ok(()), frame_report(outcome))
    }
}

} // verus!
