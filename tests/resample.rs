use audio_dynamics::resample::{resampled_len, source_tap, Tap};

fn apply(src: &[f32], src_rate: u32, dst_rate: u32) -> Vec<f32> {
    let n = resampled_len(src.len(), src_rate, dst_rate) as usize;
    let mut out = Vec::new();
    for i in 0..n {
        let v = match source_tap(i, src.len(), src_rate, dst_rate) {
            Tap::Blend { index, num, den } => {
                let frac = num as f32 / den as f32;
                src[index] * (1.0 - frac) + src[index + 1] * frac
            }
            Tap::Hold { index } => src[index],
            Tap::Silence => 0.0,
        };
        out.push(v);
    }
    out
}

#[test]
fn upsample_doubles_length_with_midpoints() {
    assert_eq!(resampled_len(4, 8000, 16000), 8);
    for k in 0..3usize {
        assert_eq!(source_tap(2 * k, 4, 8000, 16000), Tap::Blend { index: k, num: 0, den: 16000 });
        assert_eq!(source_tap(2 * k + 1, 4, 8000, 16000), Tap::Blend { index: k, num: 8000, den: 16000 });
    }
    assert_eq!(source_tap(6, 4, 8000, 16000), Tap::Hold { index: 3 });
    assert_eq!(source_tap(7, 4, 8000, 16000), Tap::Hold { index: 3 });
    let out = apply(&[0.0, 0.5, 1.0, -1.0], 8000, 16000);
    assert_eq!(out, vec![0.0, 0.25, 0.5, 0.75, 1.0, 0.0, -1.0, -1.0]);
}

#[test]
fn equal_rates_are_identity() {
    let src = [0.3f32, -0.5, 0.9, 0.2, 0.0];
    assert_eq!(resampled_len(src.len(), 44100, 44100), 5);
    assert_eq!(apply(&src, 44100, 44100), src.to_vec());
    assert_eq!(source_tap(4, 5, 44100, 44100), Tap::Hold { index: 4 });
}

#[test]
fn length_rounds_to_nearest() {
    // 3 * 2 / 4 = 1.5 rounds up
    assert_eq!(resampled_len(3, 4, 2), 2);
    // 5 * 1 / 3 = 1.67 rounds up, 4 * 1 / 3 = 1.33 rounds down
    assert_eq!(resampled_len(5, 3, 1), 2);
    assert_eq!(resampled_len(4, 3, 1), 1);
    assert_eq!(resampled_len(0, 48000, 44100), 0);
    assert_eq!(resampled_len(441, 44100, 48000), 480);
    assert_eq!(resampled_len(usize::MAX, 1, u32::MAX), (usize::MAX as u128) * (u32::MAX as u128));
}

#[test]
fn downsample_skips_samples() {
    assert_eq!(resampled_len(6, 48000, 16000), 2);
    assert_eq!(source_tap(1, 6, 48000, 16000), Tap::Blend { index: 3, num: 0, den: 16000 });
    let out = apply(&[0.0, 0.1, 0.2, 0.3, 0.4, 0.5], 48000, 16000);
    assert_eq!(out, vec![0.0, 0.3]);
}

#[test]
fn positions_past_the_source_are_silent() {
    assert_eq!(source_tap(10, 4, 8000, 16000), Tap::Silence);
    assert_eq!(source_tap(0, 0, 8000, 16000), Tap::Silence);
}

#[test]
fn fractional_weights_use_the_destination_rate() {
    // position 1 * 44100 / 48000 = 0 + 44100/48000
    assert_eq!(source_tap(1, 10, 44100, 48000), Tap::Blend { index: 0, num: 44100, den: 48000 });
    // position 2 * 44100 / 48000 = 1 + 40200/48000
    assert_eq!(source_tap(2, 10, 44100, 48000), Tap::Blend { index: 1, num: 40200, den: 48000 });
}
