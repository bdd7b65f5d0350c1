use vstd::prelude::*;

verus! {

/// Milliseconds per second.
pub const UNIT_MS: u16 = 1000;

/// Number of LEDs on the strip.
pub const N_LEDS: u8 = 8;

/// Number of LEDs, as a length.
pub const LEDS: usize = 8;

/// Base pause between two ticks, in milliseconds.
pub const TICKRATE: u16 = 16;

/// Pause of the solid mode, which only refreshes the strip now and then.
pub const REFRESH_PERIOD: u16 = 10 * UNIT_MS;

/// Ticks in one blink period.
pub const BLINK_PERIOD: u16 = UNIT_MS / TICKRATE;

/// Ticks in one full turn of the smooth spin.
pub const SPIN_PERIOD: u16 = (UNIT_MS / TICKRATE) * 5;

/// Number of samples in one spectral transform.
pub const FFT_SIZE: usize = 1024;

/// Largest number of bytes handed to the visualizer in one tick.
pub const READ_CHUNK: usize = 2048;

/// Silence longer than this many milliseconds switches to the fallback spin.
pub const SILENCE_MS: u64 = 1000;

/// Band level that stands for full brightness.
pub const LEVEL_ONE: u32 = 65536;

} // verus!
