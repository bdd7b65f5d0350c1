use vstd::prelude::*;
use vstd::string::StrSliceExecFns;

use crate::color::{Rgb, off, sample_gradient, sample_spec};
use crate::consts::{BLINK_PERIOD, LEDS, N_LEDS, REFRESH_PERIOD, SPIN_PERIOD, TICKRATE};
use crate::mpd_visualizer::MpdVisualizer;

verus! {

/// Why an animation could not be built from its mode name and colors.
#[derive(Clone, Copy, Debug, PartialEq, Eq, Structural)]
pub enum ConfigError {
    /// More colors were given than there are LEDs.
    TooManyColors,
    /// The mode name is none of the known ones.
    UnknownMode,
    /// The mode needs at least one color and none was given.
    MissingColor,
}

/// The running animation: exactly one mode, with its own state.
pub enum Animation {
    Solid { color: Rgb },
    Blink {
        colors: Vec<Rgb>,
        /// Pause between two ticks, in milliseconds.
        period: u16,
        current_color_index: u8,
        on: bool,
    },
    SmoothSpin {
        colors: Vec<Rgb>,
        /// Ticks in one full turn.
        period: u16,
        /// Rotation in ticks: the wheel stands turned by
        /// `current_rotation * N_LEDS / period` LEDs.
        current_rotation: u16,
    },
    Mpd { visualizer: MpdVisualizer },
}

/// Every LED of the frame shows `c`.
pub open spec fn filled(leds: Seq<Rgb>, c: Rgb) -> bool {
    forall|i: int| 0 <= i < leds.len() ==> leds[i] == c
}

/// The spin's rotation, in ticks, one tick later.
pub open spec fn spin_next(phase: int, period: int) -> int {
    if period == 0 {
        phase
    } else {
        (phase + 1) % period
    }
}

/// Position of LED `i` on the wheel, as a numerator over `rot_den`, when the
/// wheel stands turned by `rot_num / rot_den` LEDs.
pub open spec fn spin_pos(rot_num: int, rot_den: int, i: int) -> int {
    (rot_num + i * rot_den) % (N_LEDS as int * rot_den)
}

/// The frame that shows the gradient turned by `rot_num / rot_den` LEDs.
pub open spec fn gradient_frame(g: Seq<Rgb>, rot_num: int, rot_den: int) -> Seq<Rgb> {
    Seq::new(
        LEDS as nat,
        |i: int| sample_spec(g, spin_pos(rot_num, rot_den, i), rot_den, N_LEDS as int),
    )
}

/// The frame of the spin at rotation `phase` ticks of a `period`-tick turn; a
/// zero period never turns.
pub open spec fn spin_frame(g: Seq<Rgb>, phase: int, period: int) -> Seq<Rgb> {
    if period == 0 {
        gradient_frame(g, 0, 1)
    } else {
        gradient_frame(g, phase * N_LEDS as int, period)
    }
}

/// The blink's color index after the tick that switches the LEDs off.
pub open spec fn blink_next_index(index: int, len: int) -> int {
    if index >= len - 1 {
        0
    } else {
        index + 1
    }
}

/// The blink's `(index, lit)` state one tick later, over `len` colors.
pub open spec fn blink_tick(s: (int, bool), len: int) -> (int, bool) {
    if s.1 {
        (blink_next_index(s.0, len), false)
    } else {
        (s.0, true)
    }
}

/// The blink's `(index, lit)` state after `n` ticks.
pub open spec fn blink_ticks(s: (int, bool), len: int, n: nat) -> (int, bool)
    decreases n,
{
    if n == 0 {
        s
    } else {
        blink_ticks(blink_tick(s, len), len, (n - 1) as nat)
    }
}

/// The spin's rotation after `n` ticks.
pub open spec fn spin_ticks(phase: int, period: int, n: nat) -> int
    decreases n,
{
    if n == 0 {
        phase
    } else {
        spin_ticks(spin_next(phase, period), period, (n - 1) as nat)
    }
}

proof fn lemma_blink_cycles(j: int, len: int, m: nat)
    requires
        0 <= j < len,
        m == len - j,
    ensures
        blink_ticks((j, false), len, 2 * m) == (0int, false),
    decreases m,
{
    assert(blink_ticks((j, false), len, 2 * m) == blink_ticks(
        (blink_next_index(j, len), false),
        len,
        (2 * m - 2) as nat,
    )) by {
        assert(blink_tick((j, false), len) == (j, true));
        assert(blink_tick((j, true), len) == (blink_next_index(j, len), false));
        assert(blink_ticks((j, true), len, (2 * m - 1) as nat) == blink_ticks(
            (blink_next_index(j, len), false),
            len,
            (2 * m - 2) as nat,
        ));
    }
    if m > 1 {
        lemma_blink_cycles(j + 1, len, (m - 1) as nat);
        assert((2 * m - 2) as nat == 2 * ((m - 1) as nat));
    }
}

/// Starting unlit at index 0 with `k` colors, after `k` full unlit-lit-unlit
/// cycles (two ticks each) the blink is back at index 0, unlit.
pub proof fn lemma_blink_wraps(k: int)
    requires
        k > 0,
    ensures
        blink_ticks((0, false), k, (2 * k) as nat) == (0int, false),
{
    lemma_blink_cycles(0, k, k as nat);
}

proof fn lemma_spin_ticks_mod(p: int, period: int, n: nat)
    requires
        period > 0,
        0 <= p < period,
    ensures
        spin_ticks(p, period, n) == (p + n) % period,
    decreases n,
{
    if n == 0 {
        vstd::arithmetic::div_mod::lemma_small_mod(p as nat, period as nat);
    } else {
        let q = (p + 1) % period;
        if p + 1 < period {
            vstd::arithmetic::div_mod::lemma_small_mod((p + 1) as nat, period as nat);
        } else {
            vstd::arithmetic::div_mod::lemma_mod_self_0(period);
        }
        lemma_spin_ticks_mod(q, period, (n - 1) as nat);
        if p + 1 == period {
            vstd::arithmetic::div_mod::lemma_mod_add_multiples_vanish(n - 1, period);
        }
    }
}

/// After `period` ticks of constant step the spin is back at its starting
/// rotation, and so renders the same frame.
pub proof fn lemma_spin_period(g: Seq<Rgb>, phase: int, period: int)
    requires
        period > 0,
        0 <= phase < period,
    ensures
        spin_ticks(phase, period, period as nat) == phase,
        spin_frame(g, spin_ticks(phase, period, period as nat), period) == spin_frame(
            g,
            phase,
            period,
        ),
{
    lemma_spin_ticks_mod(phase, period, period as nat);
    vstd::arithmetic::div_mod::lemma_mod_add_multiples_vanish(phase, period);
    vstd::arithmetic::div_mod::lemma_small_mod(phase as nat, period as nat);
}

/// Whether `s` names one of the modes.
pub open spec fn is_mode_name(s: Seq<char>) -> bool {
    s == "solid"@ || s == "blink"@ || s == "smoothspin"@ || s == "mpd"@
}

fn str_eq(a: &str, b: &str) -> (r: bool)
    ensures
        r == (a@ == b@),
{
    let n = a.unicode_len();
    if n != b.unicode_len() {
        return false;
    }
    let mut i: usize = 0;
    while i < n
        invariant
            n == a@.len(),
            n == b@.len(),
            i <= n,
            forall|j: int| 0 <= j < i ==> a@[j] == b@[j],
        decreases n - i,
    {
        if a.get_char(i) != b.get_char(i) {
            return false;
        }
        i = i + 1;
    }
    assert(a@ =~= b@);
    true
}

impl Animation {
    /// The state that every method keeps.
    pub open spec fn wf(&self) -> bool {
        match self {
            Animation::Solid { .. } => true,
            Animation::Blink { colors, current_color_index, .. } => 0 < colors@.len() <= LEDS
                && (*current_color_index as int) < colors@.len(),
            Animation::SmoothSpin { colors, .. } => 0 < colors@.len() <= LEDS,
            Animation::Mpd { visualizer } => visualizer.wf(),
        }
    }

    /// Builds the animation named `modestr` over `colors`.
    pub fn from_cli(modestr: &str, colors: Vec<Rgb>) -> (r: Result<Animation, ConfigError>)
        ensures
            colors@.len() > LEDS ==> r == Err::<Animation, ConfigError>(
                ConfigError::TooManyColors,
            ),
            colors@.len() <= LEDS && !is_mode_name(modestr@) ==> r == Err::<
                Animation,
                ConfigError,
            >(ConfigError::UnknownMode),
            colors@.len() == 0 && is_mode_name(modestr@) ==> r == Err::<Animation, ConfigError>(
                ConfigError::MissingColor,
            ),
            0 < colors@.len() <= LEDS && modestr@ == "solid"@ ==> r == Ok::<
                Animation,
                ConfigError,
            >(Animation::Solid { color: colors@[0] }),
            0 < colors@.len() <= LEDS && modestr@ == "blink"@ ==> r == Ok::<
                Animation,
                ConfigError,
            >(
                (Animation::Blink {
                    colors,
                    period: (BLINK_PERIOD * TICKRATE) as u16,
                    current_color_index: 0,
                    on: false,
                }),
            ),
            0 < colors@.len() <= LEDS && modestr@ == "smoothspin"@ ==> r == Ok::<
                Animation,
                ConfigError,
            >((Animation::SmoothSpin { colors, period: SPIN_PERIOD, current_rotation: 0 })),
            0 < colors@.len() <= LEDS && modestr@ == "mpd"@ ==> (match r {
                Ok(Animation::Mpd { visualizer }) => visualizer.fresh(colors@, SPIN_PERIOD),
                _ => false,
            }),
            r is Ok ==> r->Ok_0.wf(),
    {
        proof {
            reveal_strlit("solid");
            reveal_strlit("blink");
            reveal_strlit("smoothspin");
            reveal_strlit("mpd");
            assert("solid"@[0] != "blink"@[0]);
            assert("solid"@.len() != "smoothspin"@.len());
            assert("solid"@.len() != "mpd"@.len());
            assert("blink"@.len() != "smoothspin"@.len());
            assert("blink"@.len() != "mpd"@.len());
            assert("smoothspin"@.len() != "mpd"@.len());
        }
        if colors.len() > LEDS {
            return Err(ConfigError::TooManyColors);
        }
        let solid = str_eq(modestr, "solid");
        let blink = str_eq(modestr, "blink");
        let spin = str_eq(modestr, "smoothspin");
        let mpd = str_eq(modestr, "mpd");
        if !(solid || blink || spin || mpd) {
            return Err(ConfigError::UnknownMode);
        }
        if colors.len() == 0 {
            return Err(ConfigError::MissingColor);
        }
        if solid {
            Ok(Animation::Solid { color: colors[0] })
        } else if blink {
            Ok(
                Animation::Blink {
                    colors,
                    period: BLINK_PERIOD * TICKRATE,
                    current_color_index: 0,
                    on: false,
                },
            )
        } else if spin {
            Ok(Animation::SmoothSpin { colors, period: SPIN_PERIOD, current_rotation: 0 })
        } else {
            Ok(Animation::Mpd { visualizer: MpdVisualizer::new(colors, SPIN_PERIOD) })
        }
    }

    /// Turns the spin by one tick and renders the gradient at the new rotation.
    pub fn step_smoothspin(
        leds: &mut [Rgb; LEDS],
        current_rotation: &mut u16,
        gradient: &Vec<Rgb>,
        period: u16,
    )
        requires
            gradient@.len() > 0,
        ensures
            *final(current_rotation) as int == spin_next(*old(current_rotation) as int, period as int),
            final(leds)@ == spin_frame(gradient@, *final(current_rotation) as int, period as int),
    {
        if period == 0 {
            Animation::map_gradient(leds, gradient, 0, 1);
        } else {
            *current_rotation = ((*current_rotation as u32 + 1) % period as u32) as u16;
            Animation::map_gradient(
                leds,
                gradient,
                *current_rotation as u64 * N_LEDS as u64,
                period as u32,
            );
        }
    }

    /// Renders the gradient turned by `rot_num / rot_den` LEDs: LED `i` shows the
    /// gradient at position `rotation + i`, modulo the number of LEDs.
    pub fn map_gradient(samples: &mut [Rgb; LEDS], gradient: &Vec<Rgb>, rot_num: u64, rot_den: u32)
        requires
            gradient@.len() > 0,
            rot_den > 0,
        ensures
            final(samples)@ == gradient_frame(gradient@, rot_num as int, rot_den as int),
    {
        let m: u128 = N_LEDS as u128 * rot_den as u128;
        let mut i: usize = 0;
        while i < LEDS
            invariant
                i <= LEDS,
                m == N_LEDS as int * rot_den as int,
                gradient@.len() > 0,
                rot_den > 0,
                samples@.len() == LEDS,
                forall|j: int|
                    0 <= j < i ==> samples@[j] == sample_spec(
                        gradient@,
                        spin_pos(rot_num as int, rot_den as int, j),
                        rot_den as int,
                        N_LEDS as int,
                    ),
            decreases LEDS - i,
        {
            proof {
                assert(i as int * rot_den as int <= 8 * 0xffff_ffff) by (nonlinear_arith)
                    requires
                        i < 8,
                        rot_den <= 0xffff_ffff,
                ;
            }
            let pos: u128 = (rot_num as u128 + i as u128 * rot_den as u128) % m;
            samples[i] = sample_gradient(gradient, pos as u64, rot_den as u64, N_LEDS);
            i = i + 1;
        }
        assert(samples@ =~= gradient_frame(gradient@, rot_num as int, rot_den as int));
    }

    /// Pause before each tick, in milliseconds.
    pub fn pause_ms(&self) -> (ms: u64)
        ensures
            ms == match self {
                Animation::Solid { .. } => REFRESH_PERIOD as u64,
                Animation::Blink { period, .. } => *period as u64,
                _ => TICKRATE as u64,
            },
    {
        match self {
            Animation::Solid { .. } => REFRESH_PERIOD as u64,
            Animation::Blink { period, .. } => *period as u64,
            _ => TICKRATE as u64,
        }
    }

    /// Advances the animation by one tick and renders the whole frame.
    ///
    /// The audio mode is handed the bytes read from the audio source this
    /// tick and the time in milliseconds; when a full window of samples is
    /// due for spectral analysis it is returned.
    pub fn step(&mut self, leds: &mut [Rgb; LEDS], now_ms: u64, audio: &[u8]) -> (window: Option<
        Vec<i32>,
    >)
        requires
            old(self).wf(),
            audio@.len() <= crate::consts::READ_CHUNK,
        ensures
            final(self).wf(),
            match *old(self) {
                Animation::Solid { color } => *final(self) == *old(self) && filled(
                    final(leds)@,
                    color,
                ) && window is None,
                Animation::Blink { colors, period, current_color_index, on } => {
                    let next = blink_tick((current_color_index as int, on), colors@.len() as int);
                    &&& window is None
                    &&& filled(
                        final(leds)@,
                        if on {
                            Rgb { r: 0, g: 0, b: 0 }
                        } else {
                            colors@[current_color_index as int]
                        },
                    )
                    &&& *final(self) == (Animation::Blink {
                        colors,
                        period,
                        current_color_index: next.0 as u8,
                        on: next.1,
                    })
                },
                Animation::SmoothSpin { colors, period, current_rotation } => window is None
                    && *final(self) == (Animation::SmoothSpin {
                    colors,
                    period,
                    current_rotation: spin_next(current_rotation as int, period as int) as u16,
                }) && final(leds)@ == spin_frame(
                    colors@,
                    spin_next(current_rotation as int, period as int),
                    period as int,
                ),
                Animation::Mpd { visualizer } => match *final(self) {
                    Animation::Mpd { visualizer: v } => MpdVisualizer::tick_post(
                        visualizer,
                        v,
                        old(leds)@,
                        final(leds)@,
                        now_ms,
                        audio@,
                        window,
                    ),
                    _ => false,
                },
            },
    {
        match self {
            Animation::Solid { color } => {
                let mut i: usize = 0;
                while i < LEDS
                    invariant
                        i <= LEDS,
                        leds@.len() == LEDS,
                        forall|j: int| 0 <= j < i ==> leds@[j] == *color,
                    decreases LEDS - i,
                {
                    leds[i] = *color;
                    i = i + 1;
                }
                None
            },
            Animation::Blink { colors, period, current_color_index, on } => {
                let c = if *on {
                    off()
                } else {
                    colors[*current_color_index as usize]
                };
                let mut i: usize = 0;
                while i < LEDS
                    invariant
                        i <= LEDS,
                        leds@.len() == LEDS,
                        forall|j: int| 0 <= j < i ==> leds@[j] == c,
                    decreases LEDS - i,
                {
                    leds[i] = c;
                    i = i + 1;
                }
                if *on {
                    if (*current_color_index as usize) >= colors.len() - 1 {
                        *current_color_index = 0;
                    } else {
                        *current_color_index = *current_color_index + 1;
                    }
                }
                *on = !*on;
                None
            },
            Animation::SmoothSpin { colors, period, current_rotation } => {
                Animation::step_smoothspin(leds, current_rotation, colors, *period);
                None
            },
            Animation::Mpd { visualizer } => visualizer.tick(leds, now_ms, audio),
        }
    }
}

} // verus!
