use vstd::prelude::*;

use super::driver_builder::{
    high_bit_timer_setup, idle_timer_setup, low_bit_timer_setup, shift_timer_setup,
    shifter_setup, DriverBuilder, FlexioConfig, ShifterSetup, TimerSetup,
};
use super::interleaved_pixels::{interleave, lanes_of};
use super::transmit::{BlockingWrite, DmaPhase, DmaWrite, WritePhase};
use crate::errors::WS2812InitError;
use crate::pixelstream::PixelStreamRef;

verus! {

/// What the FlexIO peripheral reports in its `PARAM` register.
#[derive(Debug, Clone, Copy, PartialEq, Eq, Structural)]
pub struct FlexioParams {
    /// Number of FlexIO pins. Always `u8`, because pin offsets are `u8`.
    pub available_pins: u8,
    pub available_timers: u32,
    pub available_shifters: u32,
}

/// The internal pins that the driver takes for itself.
#[derive(Debug, Clone, Copy, PartialEq, Eq, Structural)]
pub struct PinAllocation {
    /// First of the four consecutive pins of the shifter's parallel output.
    pub shifter_output_start_pin: u8,
    /// The pin the shift timer drives.
    pub shift_timer_output_pin: u8,
}

/// Pin `p` is not one of the output pins.
pub open spec fn pin_free(lane_pins: Seq<u8>, p: int) -> bool {
    forall|k: int| 0 <= k < lane_pins.len() ==> lane_pins[k] as int != p
}

/// The four pins from `s` on are all free.
pub open spec fn run_free(lane_pins: Seq<u8>, s: int) -> bool {
    forall|j: int| s <= j < s + 4 ==> pin_free(lane_pins, j)
}

/// The four pins from `s` on exist and are free.
pub open spec fn run_fits(lane_pins: Seq<u8>, available_pins: int, s: int) -> bool {
    0 <= s && s + 4 <= available_pins && run_free(lane_pins, s)
}

/// `s` starts the lowest run of four free pins.
pub open spec fn is_first_run(lane_pins: Seq<u8>, available_pins: int, s: int) -> bool {
    run_fits(lane_pins, available_pins, s) && forall|t: int|
        0 <= t < s ==> !run_fits(lane_pins, available_pins, t)
}

/// Pin `p` exists and is neither an output pin nor one of the run at `start`.
pub open spec fn clock_pin_fits(lane_pins: Seq<u8>, available_pins: int, start: int, p: int) -> bool {
    0 <= p < available_pins && pin_free(lane_pins, p) && !(start <= p < start + 4)
}

/// `p` is the lowest pin that can carry the shift timer's output.
pub open spec fn is_first_clock_pin(lane_pins: Seq<u8>, available_pins: int, start: int, p: int) -> bool {
    clock_pin_fits(lane_pins, available_pins, start, p) && forall|q: int|
        0 <= q < p ==> !clock_pin_fits(lane_pins, available_pins, start, q)
}

/// The pin offsets are pairwise distinct.
pub open spec fn pins_distinct(lane_pins: Seq<u8>) -> bool {
    forall|i: int, j: int| 0 <= i < j < lane_pins.len() ==> lane_pins[i] != lane_pins[j]
}

/// Timers needed for the given number of lanes: the shift timer, the idle timer
/// and two per lane.
pub open spec fn timers_needed(lanes: nat) -> nat {
    2 + 2 * lanes
}

/// The error `init` reports for these resources, if any.
pub open spec fn init_error(params: FlexioParams, lane_pins: Seq<u8>) -> Option<WS2812InitError> {
    if params.available_shifters < 1 {
        Some(WS2812InitError::NotEnoughShifters)
    } else if params.available_timers < timers_needed(lane_pins.len()) {
        Some(WS2812InitError::NotEnoughTimers)
    } else if !(exists|s: int| run_fits(lane_pins, params.available_pins as int, s)) {
        Some(WS2812InitError::NeedFourConsecutiveInternalPins)
    } else if !(exists|s: int, p: int|
        is_first_run(lane_pins, params.available_pins as int, s) && clock_pin_fits(
            lane_pins,
            params.available_pins as int,
            s,
            p,
        )) {
        Some(WS2812InitError::NotEnoughPins)
    } else {
        None
    }
}

/// The two PWM timers of lane `i`, in the order they are configured:
/// element `2i` is the lane's `0`-bit timer, `2i + 1` its `1`-bit timer.
pub open spec fn lane_timers(lane_pins: Seq<u8>, alloc: PinAllocation) -> Seq<TimerSetup> {
    Seq::new(
        2 * lane_pins.len(),
        |k: int|
            if k % 2 == 0 {
                low_bit_timer_setup(
                    (k + 2) as u8,
                    alloc.shift_timer_output_pin,
                    lane_pins[k / 2],
                )
            } else {
                high_bit_timer_setup(
                    (k + 2) as u8,
                    (alloc.shifter_output_start_pin + k / 2) as u8,
                    lane_pins[k / 2],
                )
            },
    )
}

/// The timers of a driver with this allocation, in the order they are configured.
pub open spec fn configured_timers(lane_pins: Seq<u8>, alloc: PinAllocation) -> Seq<TimerSetup> {
    seq![
        shift_timer_setup(0, 0, alloc.shift_timer_output_pin),
        idle_timer_setup(1, alloc.shift_timer_output_pin, None),
    ] + lane_timers(lane_pins, alloc)
}

/// The shifters of a driver with this allocation.
pub open spec fn configured_shifters(alloc: PinAllocation) -> Seq<ShifterSetup> {
    seq![shifter_setup(0, 0, alloc.shifter_output_start_pin)]
}

/// A configured WS2812 driver: which resources it uses and how they are programmed.
pub struct WS2812Driver {
    lane_pins: Vec<u8>,
    allocation: PinAllocation,
    config: FlexioConfig,
}

/// Tells whether `p` is one of the output pins.
fn is_lane_pin(lane_pins: &Vec<u8>, p: u8) -> (r: bool)
    ensures
        r == !pin_free(lane_pins@, p as int),
{
    let mut k: usize = 0;
    while k < lane_pins.len()
        invariant
            k <= lane_pins.len(),
            forall|j: int| 0 <= j < k ==> lane_pins@[j] != p,
        decreases lane_pins.len() - k,
    {
        if lane_pins[k] == p {
            return true;
        }
        k += 1;
    }
    false
}

/// Finds the lowest run of four free pins.
fn find_shifter_output_pins(lane_pins: &Vec<u8>, available_pins: u8) -> (r: Option<u8>)
    ensures
        match r {
            Some(s) => is_first_run(lane_pins@, available_pins as int, s as int),
            None => !(exists|s: int| run_fits(lane_pins@, available_pins as int, s)),
        },
{
    let ghost avail = available_pins as int;
    let mut start: u8 = 0;
    let mut i: u8 = 0;
    while i < available_pins
        invariant
            avail == available_pins as int,
            start <= i <= available_pins,
            i - start <= 3,
            forall|j: int| start <= j < i ==> pin_free(lane_pins@, j),
            start == 0 || !pin_free(lane_pins@, start - 1),
            forall|t: int| 0 <= t && t + 4 <= i ==> !run_fits(lane_pins@, avail, t),
        decreases available_pins - i,
    {
        if is_lane_pin(lane_pins, i) {
            assert forall|t: int| 0 <= t && t + 4 <= i + 1 implies !run_fits(lane_pins@, avail, t) by {
                if t + 4 == i + 1 {
                    assert(!pin_free(lane_pins@, i as int));
                }
            }
            start = i + 1;
        } else if i - start >= 3 {
            // We found 4 consecutive free pins!
            assert forall|j: int| start <= j < start + 4 implies pin_free(lane_pins@, j) by {
                if j < i {
                } else {
                    assert(j == i);
                }
            }
            assert(run_fits(lane_pins@, avail, start as int));
            assert forall|t: int| 0 <= t < start implies !run_fits(lane_pins@, avail, t) by {
                assert(t + 4 <= i);
            }
            return Some(start);
        } else {
            assert forall|t: int| 0 <= t && t + 4 <= i + 1 implies !run_fits(lane_pins@, avail, t) by {
                if t + 4 == i + 1 {
                    assert(start > 0);
                    assert(!pin_free(lane_pins@, start - 1));
                }
            }
        }
        i += 1;
    }
    assert forall|s: int| !run_fits(lane_pins@, avail, s) by {
        if 0 <= s && s + 4 <= avail {
            assert(s + 4 <= i);
        }
    }
    None
}

/// Finds the lowest free pin outside of the shifter's output pins.
fn find_shift_timer_output_pin(lane_pins: &Vec<u8>, available_pins: u8, start: u8) -> (r: Option<u8>)
    requires
        start + 4 <= available_pins,
    ensures
        match r {
            Some(p) => is_first_clock_pin(lane_pins@, available_pins as int, start as int, p as int),
            None => forall|p: int| !clock_pin_fits(lane_pins@, available_pins as int, start as int, p),
        },
{
    let mut i: u8 = 0;
    while i < available_pins
        invariant
            i <= available_pins,
            start + 4 <= available_pins,
            forall|q: int| 0 <= q < i ==> !clock_pin_fits(lane_pins@, available_pins as int, start as int, q),
        decreases available_pins - i,
    {
        if !is_lane_pin(lane_pins, i) && !(start <= i && i < start + 4) {
            return Some(i);
        }
        i += 1;
    }
    None
}

impl WS2812Driver {
    /// The output pins, lane by lane.
    pub closed spec fn lane_pins(&self) -> Seq<u8> {
        self.lane_pins@
    }

    /// The internal pins the driver uses.
    pub closed spec fn allocation(&self) -> PinAllocation {
        self.allocation
    }

    /// The shifters as they are programmed.
    pub closed spec fn shifters(&self) -> Seq<ShifterSetup> {
        self.config.shifters@
    }

    /// The timers as they are programmed.
    pub closed spec fn timers(&self) -> Seq<TimerSetup> {
        self.config.timers@
    }

    /// Allocates the peripheral's resources for the given output pins and
    /// computes the register programming that produces the WS2812 timing.
    ///
    /// Fails, in this order of checks, when there is no shifter, when there are
    /// fewer than `2 + 2 * lanes` timers, when no four consecutive pins are free
    /// for the shifter's output, or when no further pin is free for the shift
    /// timer's output. On success all timers, shifters and pins it uses are
    /// distinct and exist on the peripheral.
    pub fn init(params: FlexioParams, lane_pins: &Vec<u8>) -> (r: Result<WS2812Driver, WS2812InitError>)
        requires
            1 <= lane_pins.len() <= 4,
            pins_distinct(lane_pins@),
        ensures
            match init_error(params, lane_pins@) {
                Some(e) => r == Err::<WS2812Driver, WS2812InitError>(e),
                None => r.is_ok(),
            },
            params.available_shifters == 0 ==> r == Err::<WS2812Driver, WS2812InitError>(
                WS2812InitError::NotEnoughShifters,
            ),
            r matches Ok(d) ==> {
                let a = d.allocation();
                &&& d.lane_pins() == lane_pins@
                &&& is_first_run(lane_pins@, params.available_pins as int, a.shifter_output_start_pin as int)
                &&& is_first_clock_pin(
                    lane_pins@,
                    params.available_pins as int,
                    a.shifter_output_start_pin as int,
                    a.shift_timer_output_pin as int,
                )
                &&& d.shifters() == configured_shifters(a)
                &&& d.timers() == configured_timers(lane_pins@, a)
                &&& forall|i: int, j: int|
                    0 <= i < j < d.timers().len() ==> d.timers()[i].timer_id != d.timers()[j].timer_id
                &&& forall|i: int|
                    0 <= i < d.timers().len() ==> (d.timers()[i].timer_id as int) < params.available_timers
                &&& forall|i: int|
                    0 <= i < d.shifters().len() ==> (d.shifters()[i].shifter_id as int) < params.available_shifters
            },
    {
        if params.available_shifters < 1 {
            return Err(WS2812InitError::NotEnoughShifters);
        }
        if params.available_timers < 2 + (lane_pins.len() as u32) * 2 {
            return Err(WS2812InitError::NotEnoughTimers);
        }
        let ghost avail = params.available_pins as int;

        // Find 4 consecutive pins for the shifter output
        let shifter_output_start_pin = match find_shifter_output_pins(lane_pins, params.available_pins) {
            Some(s) => s,
            None => {
                return Err(WS2812InitError::NeedFourConsecutiveInternalPins);
            },
        };

        // Find a free pin for the shift timer output
        let shift_timer_output_pin = match find_shift_timer_output_pin(
            lane_pins,
            params.available_pins,
            shifter_output_start_pin,
        ) {
            Some(p) => p,
            None => {
                assert forall|s: int, p: int|
                    is_first_run(lane_pins@, avail, s) implies !clock_pin_fits(lane_pins@, avail, s, p) by {
                    if s < shifter_output_start_pin {
                        assert(!run_fits(lane_pins@, avail, s));
                    } else if s > shifter_output_start_pin {
                        assert(!run_fits(lane_pins@, avail, shifter_output_start_pin as int));
                    }
                }
                return Err(WS2812InitError::NotEnoughPins);
            },
        };
        assert(is_first_run(lane_pins@, avail, shifter_output_start_pin as int) && clock_pin_fits(
            lane_pins@,
            avail,
            shifter_output_start_pin as int,
            shift_timer_output_pin as int,
        ));

        let allocation = PinAllocation { shifter_output_start_pin, shift_timer_output_pin };
        let data_shifter = Self::get_shifter_id();
        let shifter_timer = Self::get_shifter_timer_id();
        let idle_timer = Self::get_idle_timer_id();

        let mut builder = DriverBuilder::new();
        builder.configure_shifter(data_shifter, shifter_timer, shifter_output_start_pin);
        builder.configure_shift_timer(shifter_timer, data_shifter, shift_timer_output_pin);
        builder.configure_idle_timer(idle_timer, shift_timer_output_pin, None);

        let ghost head = seq![
            shift_timer_setup(0, 0, shift_timer_output_pin),
            idle_timer_setup(1, shift_timer_output_pin, None),
        ];
        let mut pin_pos: u8 = 0;
        while (pin_pos as usize) < lane_pins.len()
            invariant
                1 <= lane_pins.len() <= 4,
                pin_pos <= lane_pins.len(),
                shifter_output_start_pin + 4 <= avail <= 255,
                allocation.shifter_output_start_pin == shifter_output_start_pin,
                allocation.shift_timer_output_pin == shift_timer_output_pin,
                head == seq![
                    shift_timer_setup(0, 0, shift_timer_output_pin),
                    idle_timer_setup(1, shift_timer_output_pin, None),
                ],
                builder.shifters() == configured_shifters(allocation),
                builder.timers() == head + lane_timers(lane_pins@, allocation).take(2 * pin_pos),
            decreases lane_pins.len() - pin_pos,
        {
            let low_bit_timer = Self::get_low_bit_timer_id(pin_pos);
            let high_bit_timer = Self::get_high_bit_timer_id(pin_pos);
            let neopixel_output_pin = lane_pins[pin_pos as usize];

            builder.configure_low_bit_timer(low_bit_timer, shift_timer_output_pin, neopixel_output_pin);
            builder.configure_high_bit_timer(
                high_bit_timer,
                shifter_output_start_pin + pin_pos,
                neopixel_output_pin,
            );
            proof {
                let lt = lane_timers(lane_pins@, allocation);
                let k = 2 * pin_pos as int;
                assert(lt.take(k + 2) =~= lt.take(k).push(lt[k]).push(lt[k + 1]));
                assert((k + 1) / 2 == pin_pos as int);
                assert(k / 2 == pin_pos as int);
                assert((k + 1) % 2 == 1);
                assert(k % 2 == 0);
                assert(lt[k] == low_bit_timer_setup(low_bit_timer, shift_timer_output_pin, neopixel_output_pin));
                assert(lt[k + 1] == high_bit_timer_setup(high_bit_timer, (shifter_output_start_pin + pin_pos) as u8, neopixel_output_pin));
                assert(builder.timers() =~= head + lt.take(k + 2));
            }
            pin_pos += 1;
        }
        let config = builder.build();
        let ghost timers = configured_timers(lane_pins@, allocation);
        assert(lane_timers(lane_pins@, allocation).take(2 * lane_pins.len()) =~= lane_timers(lane_pins@, allocation));
        assert(config.timers@ == timers);
        assert forall|i: int| 0 <= i < timers.len() implies (timers[i].timer_id as int) == i by {
            if i >= 2 {
                assert(timers[i] == lane_timers(lane_pins@, allocation)[i - 2]);
            }
        }
        Ok(WS2812Driver { lane_pins: lane_pins.clone(), allocation, config })
    }

    /// The shifter that holds the interleaved data.
    pub fn get_shifter_id() -> (r: u8)
        ensures
            r == 0,
    {
        0
    }

    /// The timer that clocks the data shifter.
    pub fn get_shifter_timer_id() -> (r: u8)
        ensures
            r == 0,
    {
        0
    }

    /// The timer that detects the end of a transmission.
    pub fn get_idle_timer_id() -> (r: u8)
        ensures
            r == 1,
    {
        1
    }

    /// The timer that emits `0` bits on lane `pin_pos`.
    pub fn get_low_bit_timer_id(pin_pos: u8) -> (r: u8)
        requires
            pin_pos <= 126,
        ensures
            r == 2 * pin_pos + 2,
    {
        2 * pin_pos + 2
    }

    /// The timer that emits `1` bits on lane `pin_pos`.
    pub fn get_high_bit_timer_id(pin_pos: u8) -> (r: u8)
        requires
            pin_pos <= 126,
        ensures
            r == 2 * pin_pos + 3,
    {
        2 * pin_pos + 3
    }

    /// Writes pixels to the LED strips, one stream per lane, in the order of
    /// the output pins.
    ///
    /// If the strips are of different length, the shorter ones are padded
    /// with `0` to match the longest strip. The caller drives the returned
    /// transmission against the hardware until it completes.
    pub fn write<S: PixelStreamRef>(&self, data: Vec<S>) -> (r: BlockingWrite<S>)
        requires
            data.len() == self.lane_pins().len(),
        ensures
            r.phase() == WritePhase::Start,
            r.words() == interleave(lanes_of(data@)).push(0),
    {
        BlockingWrite::new(data)
    }

    /// Starts a transmission of a prepared buffer by DMA, during which a
    /// concurrent action runs. The caller drives the returned transmission.
    pub fn write_dma(&self) -> (r: DmaWrite)
        ensures
            r.phase() == DmaPhase::Start,
    {
        DmaWrite::new()
    }

    /// The output pins, lane by lane.
    pub fn pin_offsets(&self) -> (r: &Vec<u8>)
        ensures
            r@ == self.lane_pins(),
    {
        &self.lane_pins
    }

    /// The internal pins the driver uses.
    pub fn pin_allocation(&self) -> (r: PinAllocation)
        ensures
            r == self.allocation(),
    {
        self.allocation
    }

    /// The register programming to apply to the peripheral.
    pub fn config(&self) -> (r: &FlexioConfig)
        ensures
            r.shifters@ == self.shifters(),
            r.timers@ == self.timers(),
    {
        &self.config
    }
}

} // verus!
