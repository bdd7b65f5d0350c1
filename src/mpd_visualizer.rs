use vstd::prelude::*;

use crate::animations::{Animation, spin_frame, spin_next};
use crate::color::Rgb;
use crate::consts::{FFT_SIZE, LEDS, LEVEL_ONE, READ_CHUNK, SILENCE_MS};

verus! {

/// The audio-reactive animation's own state.
///
/// Samples are kept as the sum of the left and right 16-bit channels of one
/// stereo frame: the normalized mono sample in [-1, 1] is that sum divided
/// by 65536. Opening and reading the audio source, and the spectral
/// transform, happen around this state: each tick is handed the bytes read
/// and the time in milliseconds.
pub struct MpdVisualizer {
    /// Time of the last tick that brought audio bytes, in milliseconds.
    pub last_audio_ms: u64,
    /// Decoded samples that wait for a full transform window, oldest first.
    pub sample_buffer: Vec<i32>,
    /// Gradient of the spin shown while the audio is silent.
    pub fallback_gradient: Vec<Rgb>,
    /// Rotation of that spin, in ticks.
    pub fallback_angle: u16,
    /// Ticks in one turn of that spin.
    pub fallback_period: u16,
}

/// A 16-bit signed little-endian sample.
pub open spec fn le_i16(lo: u8, hi: u8) -> int {
    let v = lo as int + 256 * hi as int;
    if v >= 32768 {
        v - 65536
    } else {
        v
    }
}

/// The mono sample of stereo frame `k` of `b`: the sum of its two channels.
pub open spec fn frame_mono(b: Seq<u8>, k: int) -> int {
    le_i16(b[4 * k], b[4 * k + 1]) + le_i16(b[4 * k + 2], b[4 * k + 3])
}

/// The mono samples of the whole stereo frames in `b`; a trailing partial
/// frame is dropped.
pub open spec fn decode_pcm(b: Seq<u8>) -> Seq<i32> {
    Seq::new(b.len() / 4, |k: int| frame_mono(b, k) as i32)
}

/// A mono sample whose normalized value `s / 65536` lies in [-1, 1].
pub open spec fn sample_in_range(s: i32) -> bool {
    -65536 <= s <= 65534
}

/// Milliseconds from `last` to `now`; none when the clock went back.
pub open spec fn silent_ms(now: int, last: int) -> int {
    if now >= last {
        now - last
    } else {
        0
    }
}

/// A channel dimmed to 85%, rounded down.
pub open spec fn decay_channel(c: u8) -> u8 {
    (c as int * 85 / 100) as u8
}

/// A color dimmed to 85% on every channel.
pub open spec fn decay(c: Rgb) -> Rgb {
    Rgb { r: decay_channel(c.r), g: decay_channel(c.g), b: decay_channel(c.b) }
}

/// A frame with every LED dimmed.
pub open spec fn decayed(leds: Seq<Rgb>) -> Seq<Rgb> {
    Seq::new(leds.len(), |i: int| decay(leds[i]))
}

/// Base color of each frequency band, from deep bass to treble.
pub open spec fn freq_color(i: int) -> Rgb {
    if i == 0 {
        Rgb { r: 255, g: 0, b: 255 }
    } else if i == 1 {
        Rgb { r: 0, g: 0, b: 255 }
    } else if i == 2 {
        Rgb { r: 0, g: 100, b: 255 }
    } else if i == 3 {
        Rgb { r: 0, g: 255, b: 0 }
    } else if i == 4 {
        Rgb { r: 255, g: 255, b: 0 }
    } else if i == 5 {
        Rgb { r: 255, g: 50, b: 0 }
    } else if i == 6 {
        Rgb { r: 255, g: 0, b: 0 }
    } else if i == 7 {
        Rgb { r: 255, g: 80, b: 80 }
    } else {
        Rgb { r: 255, g: 255, b: 255 }
    }
}

/// The bins `[start, end)` of the transform that band `i` averages.
pub open spec fn band_range(i: int) -> (int, int) {
    if i == 0 {
        (1, 2)
    } else if i == 1 {
        (2, 4)
    } else if i == 2 {
        (4, 10)
    } else if i == 3 {
        (10, 25)
    } else if i == 4 {
        (25, 60)
    } else if i == 5 {
        (60, 150)
    } else if i == 6 {
        (150, 300)
    } else {
        (300, 511)
    }
}

/// A channel scaled by `level / LEVEL_ONE`, rounded down.
pub open spec fn scale_channel(c: u8, level: u32) -> u8 {
    (c as int * level as int / LEVEL_ONE as int) as u8
}

/// A color scaled by `level / LEVEL_ONE` on every channel.
pub open spec fn scale(c: Rgb, level: u32) -> Rgb {
    Rgb {
        r: scale_channel(c.r, level),
        g: scale_channel(c.g, level),
        b: scale_channel(c.b, level),
    }
}

fn decode_sample(lo: u8, hi: u8) -> (r: i32)
    ensures
        r as int == le_i16(lo, hi),
{
    let v: i32 = lo as i32 + 256 * hi as i32;
    if v >= 32768 {
        v - 65536
    } else {
        v
    }
}

fn decay_channel_exec(c: u8) -> (r: u8)
    ensures
        r == decay_channel(c),
{
    (c as u16 * 85 / 100) as u8
}

fn scale_channel_exec(c: u8, level: u32) -> (r: u8)
    requires
        level <= LEVEL_ONE,
    ensures
        r == scale_channel(c, level),
{
    proof {
        assert(c as int * level as int <= 255 * 65536) by (nonlinear_arith)
            requires
                c <= 255,
                level <= 65536,
        ;
    }
    (c as u64 * level as u64 / LEVEL_ONE as u64) as u8
}

impl MpdVisualizer {
    /// The state that every method keeps.
    pub open spec fn wf(&self) -> bool {
        &&& self.sample_buffer@.len() < FFT_SIZE
        &&& forall|i: int|
            0 <= i < self.sample_buffer@.len() ==> sample_in_range(#[trigger] self.sample_buffer@[i])
        &&& self.fallback_gradient@.len() > 0
    }

    /// A visualizer as it is made: no samples, no audio yet, the spin at rest.
    pub open spec fn fresh(&self, g: Seq<Rgb>, period: u16) -> bool {
        &&& self.last_audio_ms == 0
        &&& self.sample_buffer@.len() == 0
        &&& self.fallback_gradient@ == g
        &&& self.fallback_angle == 0
        &&& self.fallback_period == period
    }

    /// What one tick does: `old` and `new` are the state before and after,
    /// `leds_old` and `leds_new` the frame, `data` the bytes read this tick
    /// and `r` the window handed out for spectral analysis.
    pub open spec fn tick_post(
        old: MpdVisualizer,
        new: MpdVisualizer,
        leds_old: Seq<Rgb>,
        leds_new: Seq<Rgb>,
        now_ms: u64,
        data: Seq<u8>,
        r: Option<Vec<i32>>,
    ) -> bool {
        &&& new.wf()
        &&& new.fallback_gradient == old.fallback_gradient
        &&& new.fallback_period == old.fallback_period
        &&& if data.len() > 0 {
            let all = old.sample_buffer@ + decode_pcm(data);
            &&& new.last_audio_ms == now_ms
            &&& new.fallback_angle == old.fallback_angle
            &&& leds_new == leds_old
            &&& if all.len() >= FFT_SIZE {
                &&& r is Some
                &&& r->Some_0@ == all.take(FFT_SIZE as int)
                &&& new.sample_buffer@ == all.skip(FFT_SIZE as int)
            } else {
                &&& r is None
                &&& new.sample_buffer@ == all
            }
        } else {
            &&& r is None
            &&& new.last_audio_ms == old.last_audio_ms
            &&& if silent_ms(now_ms as int, old.last_audio_ms as int) > SILENCE_MS {
                &&& new.sample_buffer@.len() == 0
                &&& new.fallback_angle as int == spin_next(
                    old.fallback_angle as int,
                    old.fallback_period as int,
                )
                &&& leds_new == spin_frame(
                    old.fallback_gradient@,
                    new.fallback_angle as int,
                    old.fallback_period as int,
                )
            } else {
                &&& new.sample_buffer@ == old.sample_buffer@
                &&& new.fallback_angle == old.fallback_angle
                &&& leds_new == decayed(leds_old)
            }
        }
    }

    /// Makes a visualizer that falls back to spinning `fallback_gradient`
    /// with a turn of `fallback_period` ticks.
    pub fn new(fallback_gradient: Vec<Rgb>, fallback_period: u16) -> (v: MpdVisualizer)
        requires
            fallback_gradient@.len() > 0,
        ensures
            v.wf(),
            v.fresh(fallback_gradient@, fallback_period),
    {
        MpdVisualizer {
            last_audio_ms: 0,
            sample_buffer: Vec::new(),
            fallback_gradient,
            fallback_angle: 0,
            fallback_period,
        }
    }

    /// One tick of the visualizer, with the bytes read from the audio source
    /// (none when nothing was read) and the time in milliseconds.
    ///
    /// Bytes are decoded and buffered; when a full window is buffered it is
    /// taken from the front of the buffer and returned for spectral analysis.
    /// Without bytes, after more than a second of silence the buffer is
    /// cleared and the fallback spin is rendered; before that the frame fades.
    pub fn tick(&mut self, leds: &mut [Rgb; LEDS], now_ms: u64, data: &[u8]) -> (r: Option<
        Vec<i32>,
    >)
        requires
            old(self).wf(),
            data@.len() <= READ_CHUNK,
        ensures
            MpdVisualizer::tick_post(
                *old(self),
                *final(self),
                old(leds)@,
                final(leds)@,
                now_ms,
                data@,
                r,
            ),
    {
        if data.len() > 0 {
            self.last_audio_ms = now_ms;
            return self.process_incoming_bytes(data);
        }
        let silence: u64 = if now_ms >= self.last_audio_ms {
            now_ms - self.last_audio_ms
        } else {
            0
        };
        if silence > SILENCE_MS {
            self.sample_buffer.clear();
            Animation::step_smoothspin(
                leds,
                &mut self.fallback_angle,
                &self.fallback_gradient,
                self.fallback_period,
            );
        } else {
            let ghost before = leds@;
            let mut i: usize = 0;
            while i < LEDS
                invariant
                    i <= LEDS,
                    leds@.len() == LEDS,
                    before.len() == LEDS,
                    forall|j: int| 0 <= j < i ==> leds@[j] == decay(before[j]),
                    forall|j: int| i <= j < LEDS ==> leds@[j] == before[j],
                decreases LEDS - i,
            {
                let c = leds[i];
                leds[i] = Rgb {
                    r: decay_channel_exec(c.r),
                    g: decay_channel_exec(c.g),
                    b: decay_channel_exec(c.b),
                };
                i = i + 1;
            }
            assert(leds@ =~= decayed(before));
        }
        None
    }

    /// Decodes 16-bit little-endian stereo frames into mono samples, appends
    /// them to the buffer, and takes a full window from its front when there
    /// is one.
    pub fn process_incoming_bytes(&mut self, data: &[u8]) -> (r: Option<Vec<i32>>)
        requires
            old(self).sample_buffer@.len() < FFT_SIZE,
            forall|i: int|
                0 <= i < old(self).sample_buffer@.len() ==> sample_in_range(
                    #[trigger] old(self).sample_buffer@[i],
                ),
            data@.len() <= READ_CHUNK,
        ensures
            final(self).sample_buffer@.len() < FFT_SIZE,
            forall|i: int|
                0 <= i < final(self).sample_buffer@.len() ==> sample_in_range(
                    #[trigger] final(self).sample_buffer@[i],
                ),
            r matches Some(w) ==> forall|i: int|
                0 <= i < w@.len() ==> sample_in_range(#[trigger] w@[i]),
            final(self).last_audio_ms == old(self).last_audio_ms,
            final(self).fallback_gradient == old(self).fallback_gradient,
            final(self).fallback_angle == old(self).fallback_angle,
            final(self).fallback_period == old(self).fallback_period,
            ({
                let all = old(self).sample_buffer@ + decode_pcm(data@);
                if all.len() >= FFT_SIZE {
                    &&& r is Some
                    &&& r->Some_0@ == all.take(FFT_SIZE as int)
                    &&& final(self).sample_buffer@ == all.skip(FFT_SIZE as int)
                } else {
                    &&& r is None
                    &&& final(self).sample_buffer@ == all
                }
            }),
    {
        let ghost start = self.sample_buffer@;
        let frames: usize = data.len() / 4;
        let mut k: usize = 0;
        while k < frames
            invariant
                frames == data@.len() / 4,
                k <= frames,
                self.sample_buffer@ == start + decode_pcm(data@).take(k as int),
                start.len() < FFT_SIZE,
                forall|i: int|
                    0 <= i < self.sample_buffer@.len() ==> sample_in_range(
                        #[trigger] self.sample_buffer@[i],
                    ),
                data@.len() <= READ_CHUNK,
                self.last_audio_ms == old(self).last_audio_ms,
                self.fallback_gradient == old(self).fallback_gradient,
                self.fallback_angle == old(self).fallback_angle,
                self.fallback_period == old(self).fallback_period,
            decreases frames - k,
        {
            let ghost prev = self.sample_buffer@;
            let l = decode_sample(data[4 * k], data[4 * k + 1]);
            let rr = decode_sample(data[4 * k + 2], data[4 * k + 3]);
            self.sample_buffer.push(l + rr);
            proof {
                assert(self.sample_buffer@ == prev.push((l + rr) as i32));
                assert(sample_in_range((l + rr) as i32));
                assert(decode_pcm(data@).take(k as int + 1) =~= decode_pcm(data@).take(
                    k as int,
                ).push((l + rr) as i32));
            }
            k = k + 1;
        }
        assert(decode_pcm(data@).take(frames as int) =~= decode_pcm(data@));
        if self.sample_buffer.len() >= FFT_SIZE {
            let mut window = self.sample_buffer.split_off(FFT_SIZE);
            std::mem::swap(&mut self.sample_buffer, &mut window);
            Some(window)
        } else {
            None
        }
    }

    /// The base color of band `index`.
    pub fn get_freq_color(&self, index: usize) -> (c: Rgb)
        ensures
            c == freq_color(index as int),
    {
        if index == 0 {
            Rgb { r: 255, g: 0, b: 255 }
        } else if index == 1 {
            Rgb { r: 0, g: 0, b: 255 }
        } else if index == 2 {
            Rgb { r: 0, g: 100, b: 255 }
        } else if index == 3 {
            Rgb { r: 0, g: 255, b: 0 }
        } else if index == 4 {
            Rgb { r: 255, g: 255, b: 0 }
        } else if index == 5 {
            Rgb { r: 255, g: 50, b: 0 }
        } else if index == 6 {
            Rgb { r: 255, g: 0, b: 0 }
        } else if index == 7 {
            Rgb { r: 255, g: 80, b: 80 }
        } else {
            Rgb { r: 255, g: 255, b: 255 }
        }
    }

    /// The transform bins `[start, end)` that band `index` averages.
    pub fn band_bins(index: usize) -> (r: (usize, usize))
        requires
            index < LEDS,
        ensures
            r.0 as int == band_range(index as int).0,
            r.1 as int == band_range(index as int).1,
            1 <= r.0 < r.1 <= FFT_SIZE / 2,
    {
        if index == 0 {
            (1, 2)
        } else if index == 1 {
            (2, 4)
        } else if index == 2 {
            (4, 10)
        } else if index == 3 {
            (10, 25)
        } else if index == 4 {
            (25, 60)
        } else if index == 5 {
            (60, 150)
        } else if index == 6 {
            (150, 300)
        } else {
            (300, 511)
        }
    }

    /// Renders the bands: LED `i` shows band `i`'s base color scaled by
    /// `levels[i] / LEVEL_ONE`.
    pub fn render_bands(&self, leds: &mut [Rgb; LEDS], levels: &[u32; LEDS])
        requires
            forall|i: int| 0 <= i < LEDS ==> levels@[i] <= LEVEL_ONE,
        ensures
            final(leds)@ == Seq::new(LEDS as nat, |i: int| scale(freq_color(i), levels@[i])),
    {
        let mut i: usize = 0;
        while i < LEDS
            invariant
                i <= LEDS,
                leds@.len() == LEDS,
                levels@.len() == LEDS,
                forall|i: int| 0 <= i < LEDS ==> levels@[i] <= LEVEL_ONE,
                forall|j: int| 0 <= j < i ==> leds@[j] == scale(freq_color(j), levels@[j]),
            decreases LEDS - i,
        {
            let base = self.get_freq_color(i);
            let level = levels[i];
            leds[i] = Rgb {
                r: scale_channel_exec(base.r, level),
                g: scale_channel_exec(base.g, level),
                b: scale_channel_exec(base.b, level),
            };
            i = i + 1;
        }
        assert(leds@ =~= Seq::new(LEDS as nat, |i: int| scale(freq_color(i), levels@[i])));
    }
}

} // verus!
