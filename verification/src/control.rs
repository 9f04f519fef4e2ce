//! One round of the control loop: from the content of the sensor file to
//! what has to be written to the fan.

use crate::config::Config;
use crate::curve::duty;
use crate::fan::{write_for, FanState};
use crate::text::reading;
use vstd::prelude::*;

verus! {

/// The content of the sensor file is no reading. Nothing can be done about
/// it from inside: the loop ends.
#[derive(Clone, Copy, Debug, PartialEq, Eq, Structural)]
pub struct InvalidReading;

/// Takes one sample through the loop.
///
/// Where `content` is a reading, the fan is asked for the duty cycle that the
/// fan curve gives for it, and the result is what the caller has to write:
/// that duty cycle, or nothing where the fan holds it already. Where
/// `content` is no reading, the fan is left as it is.
pub fn step(config: &Config, fan: &mut FanState, content: &str) -> (res: Result<
    Option<u8>,
    InvalidReading,
>)
    ensures
        match reading(content@) {
            Some(temp) => {
                &&& final(fan)@ == duty(temp as int, config.min_temp as int, config.max_temp as int)
                &&& res == Ok::<Option<u8>, InvalidReading>(write_for(old(fan)@, final(fan)@))
            },
            None => final(fan)@ == old(fan)@ && res is Err,
        },
{
    match config.read_temp(content) {
        Some(temp) => Ok(fan.set(config.get_fancurve(temp))),
        None => Err(InvalidReading),
    }
}

} // verus!
