use rgbkbd_anim::animations::{Animation, ConfigError};
use rgbkbd_anim::cli::{args_to_rgbs, parse_hex, HexParseError};
use rgbkbd_anim::color::{lerp, off, sample_gradient, Rgb};
use rgbkbd_anim::consts::{LEDS, LEVEL_ONE, SPIN_PERIOD};
use rgbkbd_anim::mpd_visualizer::MpdVisualizer;
use rustfft::num_complex::Complex;
use rustfft::FftPlanner;

fn rgb(r: u8, g: u8, b: u8) -> Rgb {
    Rgb { r, g, b }
}

fn red() -> Rgb {
    rgb(255, 0, 0)
}

fn blue() -> Rgb {
    rgb(0, 0, 255)
}

fn filled(c: Rgb) -> [Rgb; LEDS] {
    [c; LEDS]
}

#[test]
fn lerp_endpoints_are_exact() {
    let a = rgb(12, 200, 7);
    let b = rgb(250, 3, 99);
    assert_eq!(lerp(a, b, 0, 7), a);
    assert_eq!(lerp(a, b, 7, 7), b);
}

#[test]
fn lerp_rounds_half_away_from_zero() {
    assert_eq!(lerp(rgb(0, 0, 0), rgb(255, 100, 1), 1, 2), rgb(128, 50, 1));
    assert_eq!(lerp(rgb(10, 10, 10), rgb(20, 0, 10), 1, 4), rgb(13, 8, 10));
}

#[test]
fn sample_blends_between_neighbours() {
    let g = vec![red(), blue()];
    // position 2 of 8 is a quarter turn: half way from red to blue
    assert_eq!(sample_gradient(&g, 2, 1, 8), rgb(128, 0, 128));
    assert_eq!(sample_gradient(&g, 0, 1, 8), red());
    assert_eq!(sample_gradient(&g, 4, 1, 8), blue());
    // past the last color the wheel blends back to the first
    assert_eq!(sample_gradient(&g, 6, 1, 8), rgb(128, 0, 128));
}

#[test]
fn sample_is_periodic() {
    let g = vec![red(), rgb(0, 255, 0), blue()];
    for pos in 0u64..40 {
        assert_eq!(sample_gradient(&g, pos, 5, 8), sample_gradient(&g, pos + 8 * 5, 5, 8));
    }
}

#[test]
fn single_color_gradient_is_constant() {
    let c = rgb(9, 8, 7);
    let g = vec![c];
    for pos in 0u64..50 {
        assert_eq!(sample_gradient(&g, pos, 3, 8), c);
    }
}

#[test]
fn too_many_colors_is_refused() {
    let colors = vec![red(); 9];
    assert!(matches!(Animation::from_cli("blink", colors), Err(ConfigError::TooManyColors)));
}

#[test]
fn unknown_mode_is_refused() {
    assert!(matches!(Animation::from_cli("sparkle", vec![red()]), Err(ConfigError::UnknownMode)));
}

#[test]
fn solid_without_color_is_refused() {
    assert!(matches!(Animation::from_cli("solid", vec![]), Err(ConfigError::MissingColor)));
}

#[test]
fn solid_fills_every_led() {
    let mut a = Animation::from_cli("solid", vec![blue(), red()]).unwrap();
    let mut leds = filled(off());
    assert_eq!(a.pause_ms(), 10000);
    assert!(a.step(&mut leds, 0, &[]).is_none());
    assert_eq!(leds, filled(blue()));
}

#[test]
fn blink_red_blue_sequence() {
    let mut a = Animation::from_cli("blink", vec![red(), blue()]).unwrap();
    let mut leds = filled(off());
    let expected = [filled(red()), filled(off()), filled(blue()), filled(off())];
    for frame in expected.iter() {
        a.step(&mut leds, 0, &[]);
        assert_eq!(&leds, frame);
    }
    assert_eq!(a.pause_ms(), 992);
}

#[test]
fn blink_index_wraps_after_all_colors() {
    let colors = vec![red(), blue(), rgb(0, 255, 0)];
    let mut a = Animation::from_cli("blink", colors).unwrap();
    let mut leds = filled(off());
    for _ in 0..6 {
        a.step(&mut leds, 0, &[]);
    }
    match a {
        Animation::Blink { current_color_index, on, .. } => {
            assert_eq!(current_color_index, 0);
            assert!(!on);
        }
        _ => panic!("not a blink"),
    }
}

#[test]
fn smoothspin_returns_after_one_period() {
    let g = vec![red(), blue(), rgb(0, 255, 0)];
    let mut a = Animation::from_cli("smoothspin", g.clone()).unwrap();
    let mut leds = filled(off());
    let mut start = filled(off());
    Animation::map_gradient(&mut start, &g, 0, 1);
    for _ in 0..SPIN_PERIOD {
        a.step(&mut leds, 0, &[]);
    }
    match a {
        Animation::SmoothSpin { current_rotation, .. } => assert_eq!(current_rotation, 0),
        _ => panic!("not a spin"),
    }
    assert_eq!(leds, start);
    assert_eq!(a.pause_ms(), 16);
}

#[test]
fn smoothspin_turns_by_eight_over_period_each_tick() {
    let g = vec![red(), blue()];
    let mut leds = filled(off());
    let mut rot: u16 = 0;
    // period 4: each tick turns the wheel by two LEDs
    Animation::step_smoothspin(&mut leds, &mut rot, &g, 4);
    assert_eq!(rot, 1);
    assert_eq!(leds[0], rgb(128, 0, 128));
    assert_eq!(leds[2], blue());
    assert_eq!(leds[6], red());
}

#[test]
fn smoothspin_with_zero_period_stands_still() {
    let g = vec![red(), blue()];
    let mut leds = filled(off());
    let mut rot: u16 = 0;
    Animation::step_smoothspin(&mut leds, &mut rot, &g, 0);
    assert_eq!(rot, 0);
    assert_eq!(leds[0], red());
    assert_eq!(leds[4], blue());
}

fn stereo(frames: &[(i16, i16)]) -> Vec<u8> {
    let mut out = Vec::new();
    for (l, r) in frames {
        out.extend_from_slice(&l.to_le_bytes());
        out.extend_from_slice(&r.to_le_bytes());
    }
    out
}

#[test]
fn pcm_frames_are_mixed_to_mono() {
    let mut v = MpdVisualizer::new(vec![red()], 4);
    let mut data = stereo(&[(-32768, 32767), (1, 2), (-5, -7)]);
    data.push(0x55); // a partial frame is dropped
    assert!(v.process_incoming_bytes(&data).is_none());
    assert_eq!(v.sample_buffer, vec![-1, 3, -12]);
}

#[test]
fn a_full_window_is_taken_from_the_front() {
    let mut v = MpdVisualizer::new(vec![red()], 4);
    let mut leds = filled(rgb(1, 2, 3));
    let first: Vec<(i16, i16)> = (0..512).map(|i| (i as i16, 0)).collect();
    let second: Vec<(i16, i16)> = (512..1024 + 10).map(|i| (i as i16, 0)).collect();
    assert!(v.tick(&mut leds, 5, &stereo(&first)).is_none());
    assert_eq!(v.last_audio_ms, 5);
    let w = v.tick(&mut leds, 6, &stereo(&second[..512])).expect("window due");
    assert_eq!(w.len(), 1024);
    assert_eq!(w[0], 0);
    assert_eq!(w[1023], 1023);
    assert!(v.sample_buffer.is_empty());
    let rest = v.tick(&mut leds, 7, &stereo(&second[512..]));
    assert!(rest.is_none());
    assert_eq!(v.sample_buffer, (1024..1034).collect::<Vec<i32>>());
    // audio ticks leave the frame to the spectral rendering
    assert_eq!(leds, filled(rgb(1, 2, 3)));
}

#[test]
fn silence_falls_back_to_spin_and_clears_buffer() {
    let g = vec![red(), blue()];
    let mut v = MpdVisualizer::new(g.clone(), 4);
    let mut leds = filled(off());
    v.tick(&mut leds, 100, &stereo(&[(100, 100); 10]));
    assert_eq!(v.sample_buffer.len(), 10);
    assert!(v.tick(&mut leds, 1101, &[]).is_none());
    assert!(v.sample_buffer.is_empty());
    assert_eq!(v.fallback_angle, 1);
    let mut expected = filled(off());
    let mut rot: u16 = 0;
    Animation::step_smoothspin(&mut expected, &mut rot, &g, 4);
    assert_eq!(leds, expected);
}

#[test]
fn short_silence_decays_the_frame() {
    let mut v = MpdVisualizer::new(vec![red()], 4);
    let mut leds = filled(rgb(200, 100, 7));
    leds[3] = rgb(255, 1, 20);
    v.tick(&mut leds, 1000, &[]);
    let mut expected = filled(rgb(170, 85, 5));
    expected[3] = rgb(216, 0, 17);
    assert_eq!(leds, expected);
    // floor(c * 0.85) on every channel value
    for c in 0..=255u8 {
        let mut one = filled(rgb(c, c, c));
        let mut w = MpdVisualizer::new(vec![red()], 4);
        w.tick(&mut one, 0, &[]);
        let want = (c as f32 * 0.85) as u8;
        assert_eq!(one[0], rgb(want, want, want));
    }
}

#[test]
fn exactly_one_second_is_not_yet_silence() {
    let mut v = MpdVisualizer::new(vec![red()], 4);
    v.tick(&mut filled(off()), 0, &stereo(&[(1, 1)]));
    let mut leds = filled(rgb(100, 100, 100));
    v.tick(&mut leds, 1000, &[]);
    assert_eq!(leds, filled(rgb(85, 85, 85)));
    assert_eq!(v.sample_buffer.len(), 1);
}

#[test]
fn bands_scale_their_base_colors() {
    let v = MpdVisualizer::new(vec![red()], 4);
    let mut leds = filled(rgb(9, 9, 9));
    let mut levels = [0u32; LEDS];
    levels[0] = LEVEL_ONE;
    levels[7] = LEVEL_ONE / 2;
    v.render_bands(&mut leds, &levels);
    assert_eq!(leds[0], rgb(255, 0, 255));
    assert_eq!(leds[7], rgb(127, 40, 40));
    assert_eq!(leds[3], off());
    assert_eq!(v.get_freq_color(5), rgb(255, 50, 0));
    assert_eq!(v.get_freq_color(9), rgb(255, 255, 255));
    assert_eq!(MpdVisualizer::band_bins(0), (1, 2));
    assert_eq!(MpdVisualizer::band_bins(7), (300, 511));
}

#[test]
fn silent_window_renders_all_off() {
    let mut v = MpdVisualizer::new(vec![red()], 4);
    let mut leds = filled(rgb(50, 60, 70));
    let zeros = vec![0u8; 2048];
    assert!(v.tick(&mut leds, 0, &zeros).is_none());
    let w = v.tick(&mut leds, 1, &zeros).expect("window due");
    assert_eq!(w, vec![0; 1024]);
    let mut buf: Vec<Complex<f32>> = w.iter().map(|&s| Complex::new(s as f32 / 65536.0, 0.0)).collect();
    FftPlanner::new().plan_fft_forward(1024).process(&mut buf);
    let mut levels = [0u32; LEDS];
    for (i, level) in levels.iter_mut().enumerate() {
        let (start, end) = MpdVisualizer::band_bins(i);
        let sum: f32 = buf[start..end].iter().map(|c| c.norm()).sum();
        let amp = (sum / (end - start) as f32 * 0.1).ln_1p().clamp(0.0, 1.0);
        assert_eq!(amp, 0.0);
        *level = (amp * LEVEL_ONE as f32) as u32;
    }
    v.render_bands(&mut leds, &levels);
    assert_eq!(leds, filled(off()));
}

#[test]
fn hex_colors_are_read() {
    assert_eq!(parse_hex("ff8000"), Ok(rgb(255, 128, 0)));
    assert_eq!(parse_hex("0aBc1F"), Ok(rgb(10, 188, 31)));
    assert_eq!(parse_hex("fff"), Err(HexParseError::WrongLength));
    assert_eq!(parse_hex("ff80zz"), Err(HexParseError::InvalidDigit));
}

#[test]
fn arguments_after_the_mode_are_colors() {
    let args = vec!["blink".to_string(), "ff0000".to_string(), "0000ff".to_string()];
    assert_eq!(args_to_rgbs(args), Ok(vec![red(), blue()]));
    let bad = vec!["blink".to_string(), "ff0000".to_string(), "12".to_string()];
    assert_eq!(args_to_rgbs(bad), Err(HexParseError::WrongLength));
}
