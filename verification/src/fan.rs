//! The fan actuator: what was last written to the fan, and whether a new
//! duty cycle has to be written at all.

use vstd::prelude::*;

verus! {

/// The control file of the fan. A duty cycle is written to it as a decimal
/// number.
pub const CONTROL_PATH: &'static str = "/sys/devices/pwm-fan/target_pwm";

/// The duty cycle that the fan is forced to at startup.
pub const INITIAL_DUTY: u8 = 0;

/// The state of the fan actuator: the duty cycle that was last written to
/// the fan's control file.
///
/// The state decides, the caller writes. A write that fails ends the program,
/// so the state is never asked again after one.
#[derive(Debug)]
pub struct FanState {
    cur_speed: u8,
}

/// What has to be written to the fan when `speed` is asked for while
/// `current` is what the fan holds: `speed` if it is new, nothing if the fan
/// holds it already.
pub open spec fn write_for(current: u8, speed: u8) -> Option<u8> {
    if speed != current {
        Some(speed)
    } else {
        None
    }
}

/// How many writes a request stands for.
pub open spec fn write_count(request: Option<u8>) -> nat {
    if request is Some {
        1
    } else {
        0
    }
}

impl View for FanState {
    type V = u8;

    /// The duty cycle that the fan holds.
    closed spec fn view(&self) -> u8 {
        self.cur_speed
    }
}

impl FanState {
    /// The state at startup, and the write that puts the fan into it.
    ///
    /// Whatever the fan held before, it is forced to 0: the write is owed
    /// without any comparison.
    pub fn new() -> (start: (FanState, Option<u8>))
        ensures
            start.0@ == INITIAL_DUTY,
            start.1 == Some(INITIAL_DUTY),
    {
        (FanState { cur_speed: INITIAL_DUTY }, Some(INITIAL_DUTY))
    }

    /// The duty cycle that the fan holds.
    pub fn current_speed(&self) -> (speed: u8)
        ensures
            speed == self@,
    {
        self.cur_speed
    }

    /// Asks for a duty cycle. Returns what the caller has to write to the
    /// fan: `speed` if the fan holds something else, nothing if it holds
    /// `speed` already. Afterwards the fan holds `speed`.
    pub fn set(&mut self, speed: u8) -> (request: Option<u8>)
        ensures
            final(self)@ == speed,
            request == write_for(old(self)@, speed),
    {
        if speed != self.cur_speed {
            self.cur_speed = speed;
            Some(speed)
        } else {
            None
        }
    }
}

/// Asking twice in a row for the same duty cycle: the second request never
/// writes, so the two together write exactly once where the fan held
/// something else before, and not at all where it held that duty cycle.
pub proof fn lemma_repeated_set_writes_once(current: u8, speed: u8)
    ensures
        write_for(speed, speed) is None,
        current != speed ==> write_count(write_for(current, speed)) + write_count(
            write_for(speed, speed),
        ) == 1,
        current == speed ==> write_count(write_for(current, speed)) + write_count(
            write_for(speed, speed),
        ) == 0,
{
}

} // verus!
