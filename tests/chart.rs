use ratatui::style::Color;
use tui_piechart::symbols::{PIE_CHAR_BLOCK, PIE_CHAR_CIRCLE, PIE_CHAR_SQUARE};
use tui_piechart::{
    is_angle_in_slice, legend_entry_text, slice_angle_range, LegendAlignment, LegendLayout,
    LegendPosition, PieChart, PieSlice, Rect, Resolution, QUARTER, TURN,
};

/// Angle units for a whole number of degrees.
fn deg(d: i64) -> i64 {
    d * TURN / 360
}

#[test]
fn pie_slice_new() {
    let slice = PieSlice::new("Test", 50, Color::Red);
    assert_eq!(slice.label(), "Test");
    assert_eq!(slice.value(), 50);
    assert_eq!(slice.color(), Color::Red);
}

#[test]
fn piechart_new() {
    let slices = vec![PieSlice::new("A", 30, Color::Red), PieSlice::new("B", 70, Color::Blue)];
    let piechart = PieChart::new(slices.clone());
    assert_eq!(piechart.slices, slices);
}

#[test]
fn piechart_default() {
    let piechart = PieChart::default();
    assert!(piechart.slices.is_empty());
    assert!(piechart.show_legend);
    assert!(piechart.show_percentages);
}

#[test]
fn piechart_slices() {
    let slices = vec![PieSlice::new("Test", 100, Color::Green)];
    let piechart = PieChart::default().slices(slices.clone());
    assert_eq!(piechart.slices, slices);
}

#[test]
fn piechart_show_legend() {
    let piechart = PieChart::default().show_legend(false);
    assert!(!piechart.show_legend);
}

#[test]
fn piechart_show_percentages() {
    let piechart = PieChart::default().show_percentages(false);
    assert!(!piechart.show_percentages);
}

#[test]
fn piechart_pie_char() {
    let piechart = PieChart::default().pie_char('█');
    assert_eq!(piechart.pie_char, '█');
}

#[test]
fn piechart_total_value() {
    let slices = vec![PieSlice::new("A", 30, Color::Red), PieSlice::new("B", 70, Color::Blue)];
    let piechart = PieChart::new(slices);
    assert_eq!(piechart.total_value(), 100);
}

#[test]
fn piechart_percentage() {
    let slices = vec![PieSlice::new("A", 30, Color::Red), PieSlice::new("B", 70, Color::Blue)];
    let piechart = PieChart::new(slices);
    let p = piechart.percentage(&PieSlice::new("A", 30, Color::Red));
    assert_eq!(p.numerator as f64 / p.denominator as f64, 30.0);
}

#[test]
fn piechart_with_multiple_slices() {
    let slices = vec![
        PieSlice::new("A", 25, Color::Red),
        PieSlice::new("B", 25, Color::Blue),
        PieSlice::new("C", 25, Color::Green),
        PieSlice::new("D", 25, Color::Yellow),
    ];
    let piechart = PieChart::new(slices);
    assert_eq!(piechart.total_value(), 100);
}

#[test]
fn piechart_zero_values() {
    let slices = vec![PieSlice::new("A", 0, Color::Red), PieSlice::new("B", 0, Color::Blue)];
    let piechart = PieChart::new(slices);
    assert_eq!(piechart.total_value(), 0);
}

#[test]
fn piechart_method_chaining() {
    let slices = vec![PieSlice::new("Test", 100, Color::Red)];
    let piechart = PieChart::new(slices)
        .show_legend(true)
        .show_percentages(true)
        .pie_char('█');
    assert!(piechart.show_legend);
    assert!(piechart.show_percentages);
    assert_eq!(piechart.pie_char, '█');
}

#[test]
fn piechart_custom_symbols() {
    let piechart = PieChart::default().pie_char(PIE_CHAR_BLOCK);
    assert_eq!(piechart.pie_char, '█');

    let piechart = PieChart::default().pie_char(PIE_CHAR_CIRCLE);
    assert_eq!(piechart.pie_char, '◉');

    let piechart = PieChart::default().pie_char(PIE_CHAR_SQUARE);
    assert_eq!(piechart.pie_char, '■');
}

#[test]
fn piechart_is_angle_in_slice() {
    // angles in ten-thousandths of a degree
    assert!(is_angle_in_slice(deg(45), 0, deg(90)));
    assert!(!is_angle_in_slice(deg(180), 0, deg(90)));
    // wrap around: 0.1 rad lies in [1.5 pi, 0.5 rad]
    assert!(is_angle_in_slice(57_296, deg(270), 286_479));
}

#[test]
fn wraparound_slice_membership() {
    assert!(is_angle_in_slice(deg(5), deg(350), deg(10)));
    assert!(!is_angle_in_slice(deg(180), deg(350), deg(10)));
    assert!(is_angle_in_slice(deg(-5), deg(350), deg(10)));
    assert!(is_angle_in_slice(deg(350 + 360), deg(-10), deg(10)));
}

#[test]
fn slice_angle_range_quarters() {
    assert_eq!(slice_angle_range(0, 25, 100), (-QUARTER, 0));
    assert_eq!(slice_angle_range(25, 25, 100), (0, QUARTER));
    assert_eq!(slice_angle_range(75, 25, 100), (2 * QUARTER, 3 * QUARTER));
    // a third of a turn is rounded down to whole units
    assert_eq!(slice_angle_range(0, 1, 3), (-QUARTER, TURN / 3 - QUARTER));
}

#[test]
fn percentages_sum_to_hundred() {
    let chart = PieChart::new(vec![
        PieSlice::new("A", 30, Color::Red),
        PieSlice::new("B", 70, Color::Blue),
    ]);
    let shares: Vec<_> = chart.slices.iter().map(|s| chart.percentage(s)).collect();
    assert!(shares.iter().all(|p| p.denominator == 100));
    let sum: u128 = shares.iter().map(|p| p.numerator).sum();
    assert_eq!(sum, 100 * 100);
    // the last boundary closes the circle
    let bounds = chart.slice_boundaries();
    assert_eq!(bounds[0], -QUARTER);
    assert_eq!(bounds[2], TURN - QUARTER);
}

#[test]
fn percentage_is_exact() {
    let chart = PieChart::new(vec![
        PieSlice::new("A", 1, Color::Red),
        PieSlice::new("B", 15, Color::Blue),
    ]);
    let a = chart.percentage(&chart.slices[0]);
    assert_eq!((a.numerator, a.denominator), (100, 16));
    assert_eq!(a.numerator as f64 / a.denominator as f64, 6.25);
    let third = PieChart::new(vec![PieSlice::new("A", 1, Color::Red), PieSlice::new("B", 2, Color::Blue)]);
    let p = third.percentage(&third.slices[0]);
    assert_eq!((p.numerator, p.denominator), (100, 3));
}

#[test]
fn legend_share_rounds_half_away_from_zero() {
    let chart = PieChart::new(vec![
        PieSlice::new("A", 1, Color::Red),
        PieSlice::new("B", 15, Color::Blue),
    ]);
    let texts = chart.legend_entries(Rect { x: 0, y: 0, width: 30, height: 4 });
    // 1/16 = 6.25% -> 6.3%, 15/16 = 93.75% -> 93.8%
    assert_eq!(texts[0].text, "■ A 6.3%");
    assert_eq!(texts[1].text, "■ B 93.8%");
    let third = PieChart::new(vec![PieSlice::new("A", 1, Color::Red), PieSlice::new("B", 2, Color::Blue)]);
    let texts = third.legend_entries(Rect { x: 0, y: 0, width: 30, height: 4 });
    assert_eq!(texts[0].text, "■ A 33.3%");
    assert_eq!(texts[1].text, "■ B 66.7%");
}

#[test]
fn zero_total_percentage_is_zero() {
    let chart = PieChart::new(vec![PieSlice::new("A", 0, Color::Red), PieSlice::new("B", 0, Color::Blue)]);
    assert_eq!(chart.percentage(&chart.slices[0]).numerator, 0);
    assert_eq!(chart.percentage(&chart.slices[1]).numerator, 0);
}

#[test]
fn legend_entry_text_formats() {
    assert_eq!(legend_entry_text("■", "Rust", 450, true), "■ Rust 45.0%");
    assert_eq!(legend_entry_text("->", "Go", 3, true), "-> Go 0.3%");
    assert_eq!(legend_entry_text("■", "Go", 1000, true), "■ Go 100.0%");
    assert_eq!(legend_entry_text("■", "Go", 300, false), "■ Go");
}

#[test]
fn builder_settings() {
    let chart = PieChart::default()
        .high_resolution(true)
        .legend_position(LegendPosition::Top)
        .legend_layout(LegendLayout::Horizontal)
        .legend_alignment(LegendAlignment::Center)
        .legend_marker("-->");
    assert_eq!(chart.resolution, Resolution::Braille);
    assert_eq!(chart.legend_position, LegendPosition::Top);
    assert_eq!(chart.legend_layout, LegendLayout::Horizontal);
    assert_eq!(chart.legend_alignment, LegendAlignment::Center);
    assert_eq!(chart.legend_marker, "-->");
    let chart = chart.high_resolution(false);
    assert_eq!(chart.resolution, Resolution::Standard);
    let chart = chart.resolution(Resolution::Braille);
    assert_eq!(chart.resolution, Resolution::Braille);
}

#[test]
fn rect_emptiness() {
    assert!(Rect { x: 3, y: 4, width: 0, height: 5 }.is_empty());
    assert!(!Rect { x: 3, y: 4, width: 1, height: 1 }.is_empty());
}

#[test]
fn slices_partition_the_circle() {
    let chart = PieChart::new(vec![
        PieSlice::new("A", 45, Color::Red),
        PieSlice::new("B", 30, Color::Blue),
        PieSlice::new("C", 25, Color::Green),
    ]);
    let bounds = chart.slice_boundaries();
    assert_eq!(bounds, vec![-QUARTER, deg(72), deg(180), deg(270)]);
    let is_boundary = |a: i64| bounds.iter().any(|b| (a - b).rem_euclid(TURN) == 0);
    let mut step = 0;
    while step < TURN {
        let a = step - QUARTER;
        let holders = (0..3).filter(|&i| is_angle_in_slice(a, bounds[i], bounds[i + 1])).count();
        if is_boundary(a) {
            assert!(holders >= 1);
        } else {
            assert_eq!(holders, 1, "angle {a}");
        }
        step += 1_000;
    }
    assert!(is_angle_in_slice(deg(0), bounds[0], bounds[1]));
    assert!(is_angle_in_slice(deg(100), bounds[1], bounds[2]));
    assert!(is_angle_in_slice(deg(200), bounds[2], bounds[3]));
}

#[test]
fn thirds_sum_to_whole_turn() {
    let chart = PieChart::new(vec![
        PieSlice::new("A", 1, Color::Red),
        PieSlice::new("B", 1, Color::Blue),
        PieSlice::new("C", 1, Color::Green),
    ]);
    let bounds = chart.slice_boundaries();
    assert_eq!(bounds, vec![-QUARTER, TURN / 3 - QUARTER, 2 * TURN / 3 - QUARTER, TURN - QUARTER]);
    let shares: Vec<_> = chart.slices.iter().map(|s| chart.percentage(s)).collect();
    assert!(shares.iter().all(|p| p.denominator == 3 && p.numerator == 100));
    let sum: u128 = shares.iter().map(|p| p.numerator).sum();
    assert_eq!(sum, 100 * 3);
}
