use dhvani::analysis::waveform_windows;
use dhvani::dsp::convolution::{convolution_blocks, partition_bounds, partition_count};
use dhvani::dsp::graphic_eq::{band_name, preset_gains_db, preset_names};

#[test]
fn block_sizes_round_up_to_powers_of_two() {
    assert_eq!(convolution_blocks(512), (512, 1024));
    assert_eq!(convolution_blocks(0), (1, 2));
    assert_eq!(convolution_blocks(1), (1, 2));
    assert_eq!(convolution_blocks(3), (4, 8));
    assert_eq!(convolution_blocks(1000), (1024, 2048));
    for b in 1usize..5000 {
        assert_eq!(convolution_blocks(b).0, b.next_power_of_two());
    }
}

#[test]
fn partitions_cover_the_response() {
    assert_eq!(partition_count(0, 512), 0);
    assert_eq!(partition_count(1, 512), 1);
    assert_eq!(partition_count(1024, 512), 2);
    assert_eq!(partition_count(1025, 512), 3);
    assert_eq!(partition_bounds(0, 512, 1025), (0, 512));
    assert_eq!(partition_bounds(2, 512, 1025), (1024, 1025));
    let len = 2000;
    let mut next = 0;
    for p in 0..partition_count(len, 300) {
        let (s, e) = partition_bounds(p, 300, len);
        assert_eq!(s, next);
        next = e;
    }
    assert_eq!(next, len);
}

#[test]
fn graphic_eq_band_names() {
    assert_eq!(band_name(0), "31 Hz");
    assert_eq!(band_name(5), "1 kHz");
    assert_eq!(band_name(9), "16 kHz");
    assert_eq!(band_name(10), "?");
}

#[test]
fn graphic_eq_presets() {
    assert_eq!(preset_gains_db("rock"), [4, 3, 1, -1, -2, 0, 2, 3, 4, 4]);
    assert_eq!(preset_gains_db("classical"), [0, 0, 0, 0, 0, 0, -2, -3, -2, 0]);
    assert_eq!(preset_gains_db("flat"), [0; 10]);
    assert_eq!(preset_gains_db("nonexistent"), [0; 10]);
    assert_eq!(preset_gains_db("Rock"), [0; 10]);
    assert_eq!(preset_names().len(), 10);
    for name in preset_names() {
        for g in preset_gains_db(name) {
            assert!((-12..=12).contains(&g));
        }
    }
}

#[test]
fn waveform_window_sizes() {
    assert_eq!(waveform_windows(44100, 100, 44100), (441, 100));
    assert_eq!(waveform_windows(44100, 50, 44100), (882, 50));
    assert_eq!(waveform_windows(44100, 0, 10), (44100, 1));
    assert_eq!(waveform_windows(44100, 1000, 0), (45, 0));
    assert_eq!(waveform_windows(10, 100, 5), (1, 5));
}
