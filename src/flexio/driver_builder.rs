use vstd::prelude::*;

verus! {

// A total cycle is 20 clock cycles. (16 MHz / 20 = 800 kHz)
/// Timer toggles; meaning we need two cycles for one timer clock cycle, so this
/// is half the total cycle length.
pub const CLOCK_DIVIDER: u8 = 10;

/// On-time of a `0` bit, in FlexIO clock cycles.
pub const LOW_BIT_CYCLES_ON: u8 = 5;

/// On-time of a `1` bit, in FlexIO clock cycles.
pub const HIGH_BIT_CYCLES_ON: u8 = 15;

/// Newest WS2812 version requires 300us latch time.
pub const LATCH_DELAY_PIXELS: u16 = 240;

/// Length of one WS2812 bit, in FlexIO clock cycles.
pub const CYCLE_LENGTH: u8 = CLOCK_DIVIDER * 2;

/// Off-time of a `0` bit.
pub const LOW_BIT_CYCLES_OFF: u8 = CYCLE_LENGTH - LOW_BIT_CYCLES_ON;

/// Off-time of a `1` bit.
pub const HIGH_BIT_CYCLES_OFF: u8 = CYCLE_LENGTH - HIGH_BIT_CYCLES_ON;

/// The idle timer's compare value: the quiet period that latches the LEDs,
/// `LATCH_DELAY_PIXELS` bit periods of `CYCLE_LENGTH` (20) cycles.
pub const LATCH_DELAY: u16 = 20 * LATCH_DELAY_PIXELS;

/// Timer cycles needed to shift out one 32-bit shift buffer.
pub const CYCLES_PER_SHIFTBUFFER: u32 = 64;

/// Field values of a shifter's `SHIFTCTL` register.
#[derive(Debug, Clone, Copy, PartialEq, Eq, Structural)]
pub struct ShifterControl {
    pub timsel: u32,
    pub timpol: u32,
    pub pincfg: u32,
    pub pinsel: u32,
    pub pinpol: u32,
    pub smod: u32,
}

/// Field values of a shifter's `SHIFTCFG` register.
#[derive(Debug, Clone, Copy, PartialEq, Eq, Structural)]
pub struct ShifterConfig {
    pub pwidth: u32,
    pub insrc: u32,
    pub sstop: u32,
    pub sstart: u32,
}

/// Everything that is written to the registers of one shifter.
#[derive(Debug, Clone, Copy, PartialEq, Eq, Structural)]
pub struct ShifterSetup {
    pub shifter_id: u8,
    pub control: ShifterControl,
    pub config: ShifterConfig,
}

/// Field values of a timer's `TIMCTL` register.
#[derive(Debug, Clone, Copy, PartialEq, Eq, Structural)]
pub struct TimerControl {
    pub trgsel: u32,
    pub trgpol: u32,
    pub trgsrc: u32,
    pub pinsel: u32,
    pub pincfg: u32,
    pub pinpol: u32,
    pub timod: u32,
}

/// Field values of a timer's `TIMCFG` register.
#[derive(Debug, Clone, Copy, PartialEq, Eq, Structural)]
pub struct TimerConfig {
    pub timout: u32,
    pub timdec: u32,
    pub timrst: u32,
    pub timdis: u32,
    pub timena: u32,
    pub tstop: u32,
    pub tstart: u32,
}

/// Everything that is written to the registers of one timer.
#[derive(Debug, Clone, Copy, PartialEq, Eq, Structural)]
pub struct TimerSetup {
    pub timer_id: u8,
    /// The whole `TIMCMP` register.
    pub compare: u32,
    pub control: TimerControl,
    pub config: TimerConfig,
}

/// The complete register programming of the FlexIO peripheral, in the order
/// in which it is applied.
pub struct FlexioConfig {
    pub shifters: Vec<ShifterSetup>,
    pub timers: Vec<TimerSetup>,
}

/// The data shifter: transmit mode, shifting on the positive edge of its timer,
/// with its parallel output on four pins starting at `output_pin`.
pub open spec fn shifter_setup(shifter_id: u8, input_timer: u8, output_pin: u8) -> ShifterSetup {
    ShifterSetup {
        shifter_id,
        control: ShifterControl {
            timsel: input_timer as u32,
            timpol: 0,
            pincfg: 3,
            pinsel: output_pin as u32,
            pinpol: 0,
            smod: 2,
        },
        config: ShifterConfig { pwidth: 0, insrc: 0, sstop: 0, sstart: 1 },
    }
}

/// The shift timer: a dual 8-bit baud counter started when the shifter is
/// filled, clocking 32 bits at one bit per WS2812 bit period.
pub open spec fn shift_timer_setup(timer_id: u8, shifter_id: u8, output_pin: u8) -> TimerSetup {
    TimerSetup {
        timer_id,
        compare: ((CYCLES_PER_SHIFTBUFFER - 1) * 256 + (CLOCK_DIVIDER - 1)) as u32,
        control: TimerControl {
            trgsel: (shifter_id * 4 + 1) as u32,
            trgpol: 1,
            trgsrc: 1,
            pinsel: output_pin as u32,
            pincfg: 3,
            pinpol: 0,
            timod: 1,
        },
        config: TimerConfig {
            timout: 1,
            timdec: 0,
            timrst: 0,
            timdis: 2,
            timena: 2,
            tstop: 0,
            tstart: 0,
        },
    }
}

/// A PWM timer that emits the waveform of a `0` bit on `output_pin` each time
/// the shift timer's output rises.
pub open spec fn low_bit_timer_setup(timer_id: u8, shift_timer_pin: u8, output_pin: u8) -> TimerSetup {
    TimerSetup {
        timer_id,
        compare: ((LOW_BIT_CYCLES_OFF - 1) * 256 + (LOW_BIT_CYCLES_ON - 1)) as u32,
        control: TimerControl {
            trgsel: (shift_timer_pin * 2) as u32,
            trgpol: 0,
            trgsrc: 1,
            pinsel: output_pin as u32,
            pincfg: 3,
            pinpol: 0,
            timod: 2,
        },
        config: TimerConfig {
            timout: 0,
            timdec: 0,
            timrst: 0,
            timdis: 2,
            timena: 6,
            tstop: 0,
            tstart: 0,
        },
    }
}

/// A PWM timer that emits the waveform of a `1` bit on `output_pin` while the
/// shifter's output for that lane is high.
pub open spec fn high_bit_timer_setup(timer_id: u8, shift_pin: u8, output_pin: u8) -> TimerSetup {
    TimerSetup {
        timer_id,
        compare: ((HIGH_BIT_CYCLES_OFF - 1) * 256 + (HIGH_BIT_CYCLES_ON - 1)) as u32,
        control: TimerControl {
            trgsel: (shift_pin * 2) as u32,
            trgpol: 0,
            trgsrc: 1,
            pinsel: output_pin as u32,
            pincfg: 3,
            pinpol: 0,
            timod: 2,
        },
        config: TimerConfig {
            timout: 0,
            timdec: 0,
            timrst: 0,
            timdis: 6,
            timena: 6,
            tstop: 0,
            tstart: 0,
        },
    }
}

/// The idle timer: restarted by every rising edge of the shift timer's output,
/// it runs out only after `LATCH_DELAY` cycles without one.
pub open spec fn idle_timer_setup(timer_id: u8, shift_timer_pin: u8, output_pin: Option<u8>) -> TimerSetup {
    TimerSetup {
        timer_id,
        compare: LATCH_DELAY as u32,
        control: TimerControl {
            trgsel: (shift_timer_pin * 2) as u32,
            trgpol: 0,
            trgsrc: 1,
            pinsel: match output_pin {
                Some(p) => p as u32,
                None => 0,
            },
            pincfg: if output_pin.is_some() { 3 } else { 0 },
            pinpol: 0,
            timod: 3,
        },
        config: TimerConfig {
            timout: 2,
            timdec: 0,
            timrst: 6,
            timdis: 2,
            timena: 6,
            tstop: 0,
            tstart: 0,
        },
    }
}

/// Collects the register programming of the peripheral.
pub struct DriverBuilder {
    shifters: Vec<ShifterSetup>,
    timers: Vec<TimerSetup>,
}

impl DriverBuilder {
    /// The shifters configured so far, in order.
    pub closed spec fn shifters(&self) -> Seq<ShifterSetup> {
        self.shifters@
    }

    /// The timers configured so far, in order.
    pub closed spec fn timers(&self) -> Seq<TimerSetup> {
        self.timers@
    }

    /// A builder with nothing configured yet.
    pub fn new() -> (r: Self)
        ensures
            r.shifters() == Seq::<ShifterSetup>::empty(),
            r.timers() == Seq::<TimerSetup>::empty(),
    {
        DriverBuilder { shifters: Vec::new(), timers: Vec::new() }
    }

    /// Finishes the configuration.
    pub fn build(self) -> (r: FlexioConfig)
        ensures
            r.shifters@ == self.shifters(),
            r.timers@ == self.timers(),
    {
        FlexioConfig { shifters: self.shifters, timers: self.timers }
    }

    pub fn configure_shifter(&mut self, shifter_id: u8, input_timer: u8, output_pin: u8)
        ensures
            final(self).shifters() == old(self).shifters().push(
                shifter_setup(shifter_id, input_timer, output_pin),
            ),
            final(self).timers() == old(self).timers(),
    {
        let setup = ShifterSetup {
            shifter_id,
            control: ShifterControl {
                timsel: input_timer as u32,
                timpol: 0,  // Shift on positive edge of the timer
                pincfg: 3,  // Output to a pin.
                pinsel: output_pin as u32,  // Output pin
                pinpol: 0,  // Pin polarity
                smod: 2,  // Transmit mode
            },
            config: ShifterConfig {
                pwidth: 0,  // Single bit shift-width
                insrc: 0,  // Input source; irrelevant for transmit mode
                sstop: 0,  // No stop bit
                sstart: 1,  // No start bit, load data on first shift
            },
        };
        self.shifters.push(setup);
    }

    pub fn configure_shift_timer(&mut self, timer_id: u8, shifter_id: u8, output_pin: u8)
        ensures
            final(self).timers() == old(self).timers().push(
                shift_timer_setup(timer_id, shifter_id, output_pin),
            ),
            final(self).shifters() == old(self).shifters(),
    {
        let setup = TimerSetup {
            timer_id,
            compare: ((CYCLES_PER_SHIFTBUFFER - 1) << 8u32) | (CLOCK_DIVIDER as u32 - 1),
            control: TimerControl {
                trgsel: shifter_id as u32 * 4 + 1,  // Use shifter flag as trigger
                trgpol: 1,  // Trigger when shifter got filled
                trgsrc: 1,  // Internal trigger
                pinsel: output_pin as u32,
                pincfg: 3,  // Pin output enabled
                pinpol: 0,  // Active high
                timod: 1,  // 8-bit dual counter baud/bit mode
            },
            config: TimerConfig {
                timout: 1,  // Zero when enabled, not affected by reset
                timdec: 0,  // Input clock from FlexIO clock
                timrst: 0,  // Never reset
                timdis: 2,  // Disabled on timer compare (upper 8 bits match and decrement)
                timena: 2,  // Enabled on trigger high
                tstop: 0,  // No stop bit
                tstart: 0,  // No start bit
            },
        };
        assert(((63u32 << 8u32) | 9u32) == 63 * 256 + 9) by (bit_vector);
        self.timers.push(setup);
    }

    pub fn configure_low_bit_timer(&mut self, timer_id: u8, shift_timer_pin: u8, output_pin: u8)
        ensures
            final(self).timers() == old(self).timers().push(
                low_bit_timer_setup(timer_id, shift_timer_pin, output_pin),
            ),
            final(self).shifters() == old(self).shifters(),
    {
        let setup = TimerSetup {
            timer_id,
            compare: (((LOW_BIT_CYCLES_OFF - 1) as u32) << 8u32) | ((LOW_BIT_CYCLES_ON - 1) as u32),
            control: TimerControl {
                trgsel: shift_timer_pin as u32 * 2,  // Use shift timer output as trigger
                trgpol: 0,  // Trigger when shift timer output gets high
                trgsrc: 1,  // Internal trigger
                pinsel: output_pin as u32,
                pincfg: 3,  // Pin output enabled
                pinpol: 0,  // Active high
                timod: 2,  // 8-bit PWM mode
            },
            config: TimerConfig {
                timout: 0,  // One when enabled, not affected by reset
                timdec: 0,  // Input clock from FlexIO clock
                timrst: 0,  // Never reset
                timdis: 2,  // Disabled on timer compare (upper 8 bits match and decrement)
                timena: 6,  // Enabled on trigger rising edge
                tstop: 0,  // No stop bit
                tstart: 0,  // No start bit
            },
        };
        assert(((14u32 << 8u32) | 4u32) == 14 * 256 + 4) by (bit_vector);
        self.timers.push(setup);
    }

    pub fn configure_high_bit_timer(&mut self, timer_id: u8, shift_pin: u8, output_pin: u8)
        ensures
            final(self).timers() == old(self).timers().push(
                high_bit_timer_setup(timer_id, shift_pin, output_pin),
            ),
            final(self).shifters() == old(self).shifters(),
    {
        let setup = TimerSetup {
            timer_id,
            compare: (((HIGH_BIT_CYCLES_OFF - 1) as u32) << 8u32) | ((HIGH_BIT_CYCLES_ON - 1) as u32),
            control: TimerControl {
                trgsel: shift_pin as u32 * 2,  // Use shift output as trigger
                trgpol: 0,  // Trigger when shift output gets high
                trgsrc: 1,  // Internal trigger
                pinsel: output_pin as u32,
                pincfg: 3,  // Pin output enabled
                pinpol: 0,  // Active high
                timod: 2,  // 8-bit PWM mode
            },
            config: TimerConfig {
                timout: 0,  // One when enabled, not affected by reset
                timdec: 0,  // Input clock from FlexIO clock
                timrst: 0,  // Never reset
                timdis: 6,  // Disabled on trigger falling edge
                timena: 6,  // Enabled on trigger rising edge
                tstop: 0,  // No stop bit
                tstart: 0,  // No start bit
            },
        };
        assert(((4u32 << 8u32) | 14u32) == 4 * 256 + 14) by (bit_vector);
        self.timers.push(setup);
    }

    pub fn configure_idle_timer(&mut self, timer_id: u8, shift_timer_pin: u8, output_pin: Option<u8>)
        ensures
            final(self).timers() == old(self).timers().push(
                idle_timer_setup(timer_id, shift_timer_pin, output_pin),
            ),
            final(self).shifters() == old(self).shifters(),
    {
        let pinsel: u32 = match output_pin {
            Some(p) => p as u32,
            None => 0,
        };
        let pincfg: u32 = if output_pin.is_some() { 3 } else { 0 };
        let setup = TimerSetup {
            timer_id,
            compare: LATCH_DELAY as u32,
            control: TimerControl {
                trgsel: shift_timer_pin as u32 * 2,  // Use shift output as trigger
                trgpol: 0,  // Trigger when shift output gets high
                trgsrc: 1,  // Internal trigger
                pinsel,
                pincfg,  // Pin output enabled if there is a pin
                pinpol: 0,  // Active high
                timod: 3,  // 16-bit counter mode
            },
            config: TimerConfig {
                timout: 2,  // Zero when enabled, reset on timer reset
                timdec: 0,  // Input clock from FlexIO clock
                timrst: 6,  // Reset on trigger rising edge
                timdis: 2,  // Disable on timer compare
                timena: 6,  // Enabled on trigger rising edge
                tstop: 0,  // No stop bit
                tstart: 0,  // No start bit
            },
        };
        self.timers.push(setup);
    }
}

} // verus!
