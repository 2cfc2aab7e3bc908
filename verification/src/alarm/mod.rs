use vstd::prelude::*;

pub mod buzzer;

verus! {

/// Whether the alarm sounds, and where in its pattern it is.
pub struct AlarmState {
    pub is_playing: bool,
    pub phase: u32,
    pub step: u32,
}

impl AlarmState {
    /// A silent alarm at the start of its pattern.
    pub fn new() -> (r: Self)
        ensures
            !r.is_playing,
            r.phase == 0,
            r.step == 0,
    {
        AlarmState { is_playing: false, phase: 0, step: 0 }
    }

    /// Silences the alarm and rewinds its pattern.
    pub fn reset(&mut self)
        ensures
            !final(self).is_playing,
            final(self).phase == 0,
            final(self).step == 0,
    {
        self.is_playing = false;
        self.phase = 0;
        self.step = 0;
    }
}

} // verus!
