use hostboard::charts::{
    demo_box_elem, gaussian_xs, stacked_bar_xs, stacked_series_heights, stacked_tops,
};

#[test]
fn box_plot_five_number_summary() {
    let e = demo_box_elem();
    assert_eq!(e.x_milli, 500);
    assert_eq!(e.spread.lower_whisker, 1500);
    assert_eq!(e.spread.quartile1, 1800);
    assert_eq!(e.spread.median, 2300);
    assert_eq!(e.spread.quartile3, 2600);
    assert_eq!(e.spread.upper_whisker, 3000);
    assert_eq!(e.box_width_milli, 10000);
}

#[test]
fn stacked_series_literals() {
    let h = stacked_series_heights();
    assert_eq!(h.len(), 4);
    assert_eq!(h[0], vec![1000, 3000, 1000, 2000, 4000]);
    assert_eq!(h[1], vec![1000, 1500, 100, 700, 800]);
    assert_eq!(h[2], vec![-500, 1000, 500, -1000, 300]);
    assert_eq!(h[3], vec![500, 1000, 500, -500, -500]);
    assert_eq!(stacked_bar_xs(), vec![500, 1500, 2500, 3500, 4500]);
}

#[test]
fn second_series_tops_out_at_two_at_first_position() {
    // At x = 0.5 the second series is drawn on top of the first:
    // 1.0 + 1.0 = 2.0 units, i.e. 2000 milli-units.
    let tops = stacked_tops(&stacked_series_heights());
    assert_eq!(tops[1][0], 2000);
}

#[test]
fn stacked_tops_are_running_totals() {
    let h = stacked_series_heights();
    let tops = stacked_tops(&h);
    assert_eq!(tops.len(), 4);
    for k in 0..4 {
        for j in 0..5 {
            let expected: i64 = (0..=k).map(|a| h[a][j]).sum();
            assert_eq!(tops[k][j], expected);
        }
    }
    assert_eq!(tops[0], vec![1000, 3000, 1000, 2000, 4000]);
    assert_eq!(tops[1], vec![2000, 4500, 1100, 2700, 4800]);
    assert_eq!(tops[2], vec![1500, 5500, 1600, 1700, 5100]);
    assert_eq!(tops[3], vec![2000, 6500, 2100, 1200, 4600]);
}

#[test]
fn gaussian_grid_spans_and_steps() {
    let xs = gaussian_xs();
    assert_eq!(xs.len(), 80);
    assert_eq!(xs[0], -3950);
    assert_eq!(*xs.last().unwrap(), 3950);
    for w in xs.windows(2) {
        assert_eq!(w[1] - w[0], 100);
    }
}

#[test]
fn gaussian_curve_from_grid() {
    // The y-value each grid point feeds to the histogram:
    // exp(-x^2 / 2) / sqrt(2 * pi), scaled by 10 for the aspect ratio.
    let xs = gaussian_xs();
    let peak_index = xs.iter().position(|&x| x == -50).unwrap();
    let x = xs[peak_index] as f64 / 1000.0;
    let y = (-x * x / 2.0).exp() / (2.0 * std::f64::consts::PI).sqrt() * 10.0;
    assert!((y - 3.984439).abs() < 1e-5);
}
