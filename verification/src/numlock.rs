use vstd::prelude::*;

verus! {

/// The keyboard LED bit of num lock.
pub const LED_NUM: i32 = 0x02;

/// The keyboard LED flags with num lock switched on or off, the other
/// LEDs kept.
pub fn numlock_leds(leds: i32, enable: bool) -> (r: i32)
    ensures
        r == (if enable { leds | LED_NUM } else { leds & !LED_NUM }),
        enable ==> r & LED_NUM == LED_NUM,
        !enable ==> r & LED_NUM == 0,
        r & !LED_NUM == leds & !LED_NUM,
{
    let r = if enable {
        leds | LED_NUM
    } else {
        leds & !LED_NUM
    };
    assert((leds | 2i32) & 2i32 == 2i32) by (bit_vector);
    assert((leds & !2i32) & 2i32 == 0i32) by (bit_vector);
    assert((leds | 2i32) & !2i32 == leds & !2i32) by (bit_vector);
    assert((leds & !2i32) & !2i32 == leds & !2i32) by (bit_vector);
    r
}

} // verus!
