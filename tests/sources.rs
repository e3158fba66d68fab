use gamvis::pipes::{get_highest_output_index, total_order_position, FillProgress, Source};

fn bits(values: &[f32]) -> Vec<u32> {
    values.iter().map(|v| v.to_bits()).collect()
}

#[test]
fn backend_choice() {
    assert_eq!(Source::from_choice(Some(&"mpd_fifo".to_string())), Source::MpdFifo);
    assert_eq!(Source::from_choice(Some(&"alsa".to_string())), Source::Alsa);
    assert_eq!(Source::from_choice(Some(&"mpd".to_string())), Source::Alsa);
    assert_eq!(Source::from_choice(None), Source::Alsa);
}

#[test]
fn total_order_positions() {
    assert_eq!(total_order_position(0.0f32.to_bits()), 0);
    assert_eq!(total_order_position((-0.0f32).to_bits()), -1);
    assert_eq!(total_order_position(1.0f32.to_bits()), 0x3f80_0000);
    assert_eq!(total_order_position((-1.0f32).to_bits()), -0x3f80_0001);
    let ordered = [f32::NEG_INFINITY, -2.5, -0.0, 0.0, 1e-40, 3.0, f32::INFINITY, f32::NAN];
    for pair in ordered.windows(2) {
        assert!(total_order_position(pair[0].to_bits()) < total_order_position(pair[1].to_bits()));
        assert_eq!(pair[0].total_cmp(&pair[1]), std::cmp::Ordering::Less);
    }
}

#[test]
fn loudest_bin() {
    assert_eq!(get_highest_output_index(&bits(&[0.1, 0.7, 0.3])), 1);
    assert_eq!(get_highest_output_index(&bits(&[0.9, 0.7, 0.3])), 0);
    assert_eq!(get_highest_output_index(&bits(&[0.1, 0.7, 0.8])), 2);
}

#[test]
fn loudest_bin_ties_go_to_the_last() {
    assert_eq!(get_highest_output_index(&bits(&[0.5, 0.2, 0.5, 0.1])), 2);
    assert_eq!(get_highest_output_index(&bits(&[0.0, 0.0, 0.0])), 2);
    assert_eq!(get_highest_output_index(&bits(&[0.0, -0.0])), 0);
}

#[test]
fn loudest_bin_of_empty_spectrum() {
    assert_eq!(get_highest_output_index(&[]), 0);
    assert_eq!(get_highest_output_index(&bits(&[-3.0])), 0);
}

#[test]
fn partial_reads_complete_a_frame() {
    let mut progress = FillProgress::new(10);
    assert!(!progress.is_complete());
    assert_eq!(progress.remaining(), 10);
    assert!(!progress.record_read(4));
    assert_eq!(progress.filled, 4);
    assert_eq!(progress.remaining(), 6);
    assert!(!progress.record_read(0));
    assert!(progress.record_read(6));
    assert!(progress.is_complete());
    assert_eq!(progress.remaining(), 0);
}

#[test]
fn empty_frame_is_complete_at_once() {
    let progress = FillProgress::new(0);
    assert!(progress.is_complete());
}
