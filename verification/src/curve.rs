//! The fan curve: a temperature and two bounds give a duty cycle.

use vstd::prelude::*;

verus! {

/// The duty cycle of a fan at full speed.
pub const FULL_DUTY: u8 = 255;

/// `value` held between `low` and `high`.
pub open spec fn clamp(value: int, low: int, high: int) -> int {
    if value < low {
        low
    } else if value > high {
        high
    } else {
        value
    }
}

/// The fan curve over the mathematical integers.
///
/// Below `min_temp` the fan is off, from `max_temp` on it runs at full speed,
/// and in between the duty rises linearly with the temperature. On the ramp
/// the dividend is not negative and the divisor is positive, so the quotient
/// is the same whether the division truncates or rounds down.
pub open spec fn duty(temp: int, min_temp: int, max_temp: int) -> int {
    if temp < min_temp {
        0
    } else if temp < max_temp {
        clamp(((temp - min_temp) * 255) / (max_temp - min_temp), 0, 255)
    } else {
        255
    }
}

/// On the ramp the quotient needs no clamping: it lies between 0 and 254.
pub proof fn lemma_ramp_is_quotient(temp: int, min_temp: int, max_temp: int)
    requires
        min_temp <= temp < max_temp,
    ensures
        duty(temp, min_temp, max_temp) == ((temp - min_temp) * 255) / (max_temp - min_temp),
        0 <= duty(temp, min_temp, max_temp) <= 254,
{
    let rise = temp - min_temp;
    let span = max_temp - min_temp;
    assert(0 <= (rise * 255) / span <= 254) by (nonlinear_arith)
        requires
            0 <= rise < span,
    ;
}

/// The duty is a duty cycle whatever the three integers are.
pub proof fn lemma_duty_in_range(temp: int, min_temp: int, max_temp: int)
    ensures
        0 <= duty(temp, min_temp, max_temp) <= 255,
{
}

/// Only a temperature of at least `max_temp` gives full speed.
pub proof fn lemma_below_max_is_not_full(temp: int, min_temp: int, max_temp: int)
    requires
        temp < max_temp,
    ensures
        duty(temp, min_temp, max_temp) < 255,
{
    if min_temp <= temp {
        lemma_ramp_is_quotient(temp, min_temp, max_temp);
    }
}

/// The duty at `min_temp` is 0 where the bounds are in order.
pub proof fn lemma_duty_at_min(min_temp: int, max_temp: int)
    requires
        min_temp < max_temp,
    ensures
        duty(min_temp, min_temp, max_temp) == 0,
{
    lemma_ramp_is_quotient(min_temp, min_temp, max_temp);
    let span = max_temp - min_temp;
    assert(0int / span == 0) by (nonlinear_arith)
        requires
            span > 0,
    ;
}

/// A warmer reading never gives a lower duty.
pub proof fn lemma_duty_monotonic(cooler: int, warmer: int, min_temp: int, max_temp: int)
    requires
        cooler <= warmer,
    ensures
        duty(cooler, min_temp, max_temp) <= duty(warmer, min_temp, max_temp),
{
    if min_temp <= cooler && warmer < max_temp {
        lemma_ramp_is_quotient(cooler, min_temp, max_temp);
        lemma_ramp_is_quotient(warmer, min_temp, max_temp);
        let low = (cooler - min_temp) * 255;
        let high = (warmer - min_temp) * 255;
        let span = max_temp - min_temp;
        assert(low / span <= high / span) by (nonlinear_arith)
            requires
                low <= high,
                span > 0,
        ;
    } else if min_temp <= cooler && cooler < max_temp {
        lemma_ramp_is_quotient(cooler, min_temp, max_temp);
    } else if min_temp <= warmer && warmer < max_temp {
        lemma_ramp_is_quotient(warmer, min_temp, max_temp);
    }
}

/// Computes the fan curve for a sensor reading.
///
/// The arithmetic is done in 128 bits, so the result is the mathematical
/// value for every reading and every pair of bounds.
pub fn fan_duty(temp: i64, min_temp: i64, max_temp: i64) -> (d: u8)
    ensures
        d == duty(temp as int, min_temp as int, max_temp as int),
        temp < min_temp ==> d == 0,
        temp >= max_temp && temp >= min_temp ==> d == 255,
        temp < max_temp ==> d < 255,
        temp == min_temp && min_temp < max_temp ==> d == 0,
        min_temp <= temp < max_temp ==> d == ((temp - min_temp) * 255) / (max_temp - min_temp),
{
    if temp < min_temp {
        0u8
    } else if temp < max_temp {
        let rise: u128 = (temp as i128 - min_temp as i128) as u128;
        let span: u128 = (max_temp as i128 - min_temp as i128) as u128;
        let scaled: u128 = rise * 255;
        let quotient: u128 = scaled / span;
        proof {
            lemma_ramp_is_quotient(temp as int, min_temp as int, max_temp as int);
            if temp == min_temp {
                lemma_duty_at_min(min_temp as int, max_temp as int);
            }
        }
        quotient as u8
    } else {
        FULL_DUTY
    }
}

} // verus!
