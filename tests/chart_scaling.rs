use senec_display::chart::max_in_slice;
use senec_display::chart::max_label;
use senec_display::chart::polyline_points;
use senec_display::chart::rescale;

#[test]
fn max_of_samples() {
    assert_eq!(max_in_slice(&[]), None);
    assert_eq!(max_in_slice(&[3, -1, 7, 7, 2]), Some(7));
    assert_eq!(max_in_slice(&[-5, -2, -9]), Some(-2));
}

#[test]
fn pair_of_maxima_reaches_full_height() {
    let mut samples = vec![0i32; 288];
    samples[10] = 9000;
    samples[11] = 9000;
    let h = rescale(&samples).unwrap();
    assert_eq!(h.len(), 144);
    assert_eq!(h[5], 45);
    assert_eq!(h[0], 0);
}

#[test]
fn lone_peak_is_averaged_with_its_neighbour() {
    let mut samples = vec![0i32; 288];
    samples[1] = 5000;
    let h = rescale(&samples).unwrap();
    assert_eq!(h[0], 23);
    assert!(h[1..].iter().all(|v| *v == 0));
}

#[test]
fn odd_length_keeps_last_sample_alone() {
    let h = rescale(&[1000, 3000, 2000]).unwrap();
    assert_eq!(h, vec![30, 30]);
}

#[test]
fn empty_and_flat_forecasts() {
    assert_eq!(rescale(&[]), None);
    assert_eq!(rescale(&[0, 0, 0, 0]).unwrap(), vec![0, 0]);
}

#[test]
fn scaled_values_round_half_away_from_zero() {
    // 1000 / 2000 * 45 = 22.5
    let h = rescale(&[1000, 1000, 2000, 2000]).unwrap();
    assert_eq!(h, vec![23, 45]);
}

#[test]
fn polyline_starts_at_chart_origin() {
    let p = polyline_points(&vec![0, 45, 10]);
    assert_eq!(p, vec![(151, 120), (152, 75), (153, 110)]);
}

#[test]
fn maximum_label_in_kilowatts() {
    assert_eq!(max_label(11500), "11.50 kW");
    assert_eq!(max_label(5234), "5.23 kW");
    assert_eq!(max_label(5235), "5.24 kW");
    assert_eq!(max_label(0), "0.00 kW");
    assert_eq!(max_label(7), "0.01 kW");
    assert_eq!(max_label(-1234), "-1.23 kW");
}
