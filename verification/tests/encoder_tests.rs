use sstv::encoder::{byte_to_freq, gen_freq_bits, GrayscaleSstv, SstvModes};
use sstv::grid::PixelGrid;
use sstv::tones::{SstvError, ToneEvent};

fn grid(width: u32, height: u32, luma: u8) -> PixelGrid {
    PixelGrid::new(width, height, vec![luma; (width * height) as usize]).unwrap()
}

#[test]
fn byte_to_freq_endpoints() {
    // Black is exactly 1500 Hz, white exactly 2300 Hz.
    assert_eq!(byte_to_freq(0), 1_500_000);
    assert_eq!(byte_to_freq(255), 2_300_000);
    assert_eq!(byte_to_freq(0) as f64 / 1000.0, 1500.0);
    assert_eq!(byte_to_freq(255) as f64 / 1000.0, 2300.0);
}

#[test]
fn byte_to_freq_monotone() {
    let mut prev: u64 = 0;
    for v in 0..=255u8 {
        let f = byte_to_freq(v);
        assert!(f >= prev);
        assert!((1_500_000..=2_300_000).contains(&f));
        prev = f;
    }
}

#[test]
fn byte_to_freq_midpoint() {
    // 1500 + 800 * 128 / 255 kHz, in millihertz with floor division.
    assert_eq!(byte_to_freq(128), 1_500_000 + 800_000 * 128 / 255);
}

#[test]
fn vis_parity_robot8bw() {
    // Code 0x02 has one set bit: odd parity, so the parity tone is 1100 Hz.
    let mode = GrayscaleSstv::new(SstvModes::Robot8BW, grid(160, 120, 0));
    assert_eq!(mode.vis_code(), 0x02);
    let tones = gen_freq_bits(false, &mode).unwrap();
    // Leader: 1900/300ms, 1200/10ms, 1900/300ms, 1200/30ms.
    assert_eq!(tones[0], ToneEvent { freq_mhz: 1_900_000, dur_ns: 300_000_000 });
    assert_eq!(tones[1], ToneEvent { freq_mhz: 1_200_000, dur_ns: 10_000_000 });
    assert_eq!(tones[2], ToneEvent { freq_mhz: 1_900_000, dur_ns: 300_000_000 });
    assert_eq!(tones[3], ToneEvent { freq_mhz: 1_200_000, dur_ns: 30_000_000 });
    // Data bits of 0x02, least significant first: 0 1 0 0 0 0 0.
    let expect_bits = [
        1_300_000u64,
        1_100_000,
        1_300_000,
        1_300_000,
        1_300_000,
        1_300_000,
        1_300_000,
    ];
    for (i, f) in expect_bits.iter().enumerate() {
        assert_eq!(tones[4 + i].freq_mhz, *f);
        assert_eq!(tones[4 + i].dur_ns, 30_000_000);
    }
    // Parity bit: odd, so the bit-1 frequency.
    assert_eq!(tones[11].freq_mhz, 1_100_000);
    assert_eq!(tones[11].dur_ns, 30_000_000);
    // Trailing sync.
    assert_eq!(tones[12], ToneEvent { freq_mhz: 1_200_000, dur_ns: 30_000_000 });
}

#[test]
fn vis_parity_even_code() {
    // Code 0x0A has two set bits: even parity, so the parity tone is 1300 Hz.
    let mode = GrayscaleSstv::new(SstvModes::Robot24BW, grid(320, 240, 0));
    assert_eq!(mode.vis_code(), 0x0A);
    let tones = gen_freq_bits(false, &mode).unwrap();
    assert_eq!(tones[11].freq_mhz, 1_300_000);
}

#[test]
fn vox_priming_tones() {
    let mode = GrayscaleSstv::new(SstvModes::Robot8BW, grid(160, 120, 0));
    let with_vox = gen_freq_bits(true, &mode).unwrap();
    let without = gen_freq_bits(false, &mode).unwrap();
    let expect = [
        1_900_000u64,
        1_500_000,
        1_900_000,
        1_500_000,
        2_300_000,
        1_500_000,
        2_300_000,
        1_500_000,
    ];
    for (i, f) in expect.iter().enumerate() {
        assert_eq!(with_vox[i].freq_mhz, *f);
        assert_eq!(with_vox[i].dur_ns, 100_000_000);
    }
    // After the preamble the transmissions agree.
    assert_eq!(with_vox.len(), without.len() + 8);
    assert_eq!(&with_vox[8..], &without[..]);
}

#[test]
fn all_black_robot8bw_geometry() {
    // 120 sync pulses of 1200 Hz / 7 ms, 120 × 160 pixel tones of 1500 Hz,
    // each lasting 60/160 ms, in row-major order.
    let mode = GrayscaleSstv::new(SstvModes::Robot8BW, grid(160, 120, 0));
    let tones = gen_freq_bits(false, &mode).unwrap();
    let header = 13;
    assert_eq!(tones.len(), header + 120 * (1 + 160));
    let mut syncs = 0;
    let mut pixels = 0;
    for (i, t) in tones.iter().enumerate().skip(header) {
        let off = (i - header) % 161;
        if off == 0 {
            assert_eq!(*t, ToneEvent { freq_mhz: 1_200_000, dur_ns: 7_000_000 });
            syncs += 1;
        } else {
            // 60 ms / 160 columns = 0.375 ms per pixel.
            assert_eq!(*t, ToneEvent { freq_mhz: 1_500_000, dur_ns: 375_000 });
            pixels += 1;
        }
    }
    assert_eq!(syncs, 120);
    assert_eq!(pixels, 120 * 160);
}

#[test]
fn all_white_pixels() {
    let mode = GrayscaleSstv::new(SstvModes::Robot8BW, grid(160, 120, 255));
    let tones = gen_freq_bits(false, &mode).unwrap();
    let header = 13;
    for (i, t) in tones.iter().enumerate().skip(header) {
        if (i - header) % 161 != 0 {
            assert_eq!(t.freq_mhz, 2_300_000);
        }
    }
}

#[test]
fn pixel_tones_row_major() {
    // A 160×120 gradient: pixel (row, col) holds (row + col) mod 256, and the
    // emitted tone for each position carries exactly that luminance.
    let mut data = Vec::new();
    for row in 0..120u32 {
        for col in 0..160u32 {
            data.push(((row + col) % 256) as u8);
        }
    }
    let pic = PixelGrid::new(160, 120, data).unwrap();
    let mode = GrayscaleSstv::new(SstvModes::Robot8BW, pic);
    let tones = gen_freq_bits(false, &mode).unwrap();
    let header = 13;
    for row in 0..120usize {
        for col in 0..160usize {
            let t = tones[header + row * 161 + 1 + col];
            let luma = ((row + col) % 256) as u8;
            assert_eq!(t.freq_mhz, byte_to_freq(luma));
        }
    }
}

#[test]
fn image_too_small_is_refused() {
    let mode = GrayscaleSstv::new(SstvModes::Robot24BW, grid(160, 120, 0));
    assert_eq!(gen_freq_bits(true, &mode), Err(SstvError::ImageTooSmall));
    assert_eq!(mode.gen_image_tuples(), Err(SstvError::ImageTooSmall));
}

#[test]
fn larger_image_is_cropped() {
    // A picture bigger than the mode is fine: only the top-left region scans.
    let mode = GrayscaleSstv::new(SstvModes::Robot8BW, grid(200, 150, 7));
    let tones = mode.gen_image_tuples().unwrap();
    assert_eq!(tones.len(), 120 * 161);
}

#[test]
fn pixel_grid_shape_checked() {
    assert!(PixelGrid::new(4, 3, vec![0; 12]).is_some());
    assert!(PixelGrid::new(4, 3, vec![0; 11]).is_none());
    assert!(PixelGrid::new(4, 3, vec![0; 13]).is_none());
    let g = PixelGrid::new(4, 3, (0..12).collect()).unwrap();
    assert_eq!(g.width(), 4);
    assert_eq!(g.height(), 3);
    assert_eq!(g.get_pixel(2, 1), 6);
}
