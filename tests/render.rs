use ratatui::style::Color;
use tui_piechart::{
    LegendAlignment, LegendLayout, LegendPosition, PieChart, PieSlice, Rect, Resolution, TURN,
};

/// The angle of a vector in angle units, as a host computes it.
fn angle_units(dx: i32, dy: i32) -> i64 {
    let radians = (dy as f64).atan2(dx as f64);
    (radians / (2.0 * std::f64::consts::PI) * TURN as f64).round() as i64
}

fn angles_for(chart: &PieChart, area: Rect) -> Vec<i64> {
    chart.disc_offsets(area).iter().map(|&(dx, dy)| angle_units(dx, dy)).collect()
}

fn languages() -> Vec<PieSlice> {
    vec![
        PieSlice::new("Rust", 45, Color::Red),
        PieSlice::new("Go", 30, Color::Blue),
        PieSlice::new("Python", 25, Color::Green),
    ]
}

fn rect(x: u16, y: u16, width: u16, height: u16) -> Rect {
    Rect { x, y, width, height }
}

#[test]
fn round_trip_example() {
    let chart = PieChart::new(languages());
    let area = rect(0, 0, 40, 20);
    let p = chart.percentage(&chart.slices[0]);
    assert_eq!(p.numerator as f64 / p.denominator as f64, 45.0);
    let (pie, legend) = chart.calculate_layout(area);
    assert_eq!(pie, rect(0, 0, 19, 20));
    assert_eq!(legend, Some(rect(20, 1, 19, 18)));
    let angles = angles_for(&chart, area);
    assert_eq!(angles.len(), 19 * 20);
    let (cells, texts) = chart.render(area, &angles);
    assert!(cells.iter().any(|c| c.symbol == '●'
        && c.color == Color::Red
        && c.x < pie.x + pie.width
        && c.y < pie.y + pie.height));
    assert!(cells.iter().any(|c| c.color == Color::Blue));
    assert!(cells.iter().any(|c| c.color == Color::Green));
    assert_eq!(texts.len(), 3);
    let first = &texts[0].text;
    let at = first.find("Rust").unwrap();
    assert!(first[at..].contains("45.0%"));
    assert_eq!((texts[0].x, texts[0].y, texts[0].width), (20, 1, 19));
    assert_eq!((texts[1].x, texts[1].y), (20, 3));
    assert_eq!(texts[2].text, "■ Python 25.0%");
}

#[test]
fn standard_disc_shape() {
    let chart = PieChart::new(languages()).show_legend(false);
    let area = rect(0, 0, 20, 10);
    let angles = angles_for(&chart, area);
    let (cells, texts) = chart.render(area, &angles);
    assert!(texts.is_empty());
    // radius min(10, 10) - 1 = 9: the center row spans dx in [-9, 9]
    let center_row: Vec<u16> = cells.iter().filter(|c| c.y == 5).map(|c| c.x).collect();
    assert_eq!(center_row.len(), 19);
    assert_eq!(*center_row.first().unwrap(), 1);
    // just right of 12 o'clock lies in the first slice; 12 o'clock itself
    // closes the last slice as well, and the last slice wins
    let top = cells.iter().find(|c| c.x == 11 && c.y == 1).unwrap();
    assert_eq!(top.color, Color::Red);
    let seam = cells.iter().find(|c| c.x == 10 && c.y == 1).unwrap();
    assert_eq!(seam.color, Color::Green);
    // straight down (6 o'clock, 50%) lies in the second slice
    let bottom = cells.iter().find(|c| c.x == 10 && c.y == 9).unwrap();
    assert_eq!(bottom.color, Color::Blue);
    // straight left (9 o'clock, 75%) lies on the boundary into the third
    let left = cells.iter().find(|c| c.x == 2 && c.y == 5).unwrap();
    assert_eq!(left.color, Color::Green);
    assert!(cells.iter().all(|c| c.symbol == '●'));
}

#[test]
fn zero_value_edge_case() {
    let chart = PieChart::new(vec![PieSlice::new("A", 0, Color::Red), PieSlice::new("B", 0, Color::Blue)]);
    let area = rect(0, 0, 40, 20);
    assert_eq!(chart.total_value(), 0);
    let angles = angles_for(&chart, area);
    assert!(angles.is_empty());
    let (cells, texts) = chart.render(area, &angles);
    assert!(cells.is_empty());
    assert_eq!(texts.len(), 2);
    assert_eq!(texts[0].text, "■ A 0.0%");
    assert_eq!(texts[1].text, "■ B 0.0%");
}

#[test]
fn empty_inputs_draw_nothing() {
    let chart = PieChart::default();
    let (cells, texts) = chart.render(rect(0, 0, 40, 20), &Vec::new());
    assert!(cells.is_empty() && texts.is_empty());
    let chart = PieChart::new(languages());
    let (cells, texts) = chart.render(rect(0, 0, 0, 20), &Vec::new());
    assert!(cells.is_empty() && texts.is_empty());
}

#[test]
fn small_area_suppresses_legend() {
    for (w, h) in [(19u16, 30u16), (60, 9), (5, 5)] {
        for position in [LegendPosition::Right, LegendPosition::Left, LegendPosition::Top, LegendPosition::Bottom] {
            let chart = PieChart::new(languages()).legend_position(position);
            let area = rect(2, 3, w, h);
            assert_eq!(chart.calculate_layout(area), (area, None));
        }
    }
}

#[test]
fn layout_falls_back_instead_of_empty_disc() {
    let slices: Vec<PieSlice> = (0..9).map(|_| PieSlice::new("X", 1, Color::Red)).collect();
    let chart = PieChart::new(slices).legend_position(LegendPosition::Top);
    let area = rect(0, 0, 20, 10);
    // a nine-row legend strip and a spacing row would leave no disc
    assert_eq!(chart.calculate_layout(area), (area, None));
    // a side legend of twenty cells in twenty cells leaves nothing either
    let chart = PieChart::new(languages());
    assert_eq!(chart.calculate_layout(area), (area, None));
}

#[test]
fn layout_positions() {
    let area = rect(0, 0, 100, 20);
    let chart = PieChart::new(languages()).legend_layout(LegendLayout::Horizontal);
    // one-row widths: 14 + 12 + 16 = 42, within min(80, 60)
    assert_eq!(chart.calculate_layout(area), (rect(0, 0, 57, 20), Some(rect(58, 1, 41, 18))));
    let chart = chart.legend_position(LegendPosition::Left);
    assert_eq!(chart.calculate_layout(area), (rect(43, 0, 57, 20), Some(rect(1, 1, 41, 18))));
    let area = rect(0, 0, 60, 20);
    let chart = chart.legend_position(LegendPosition::Top);
    assert_eq!(chart.calculate_layout(area), (rect(0, 4, 60, 16), Some(rect(1, 1, 58, 2))));
    let chart = chart.legend_position(LegendPosition::Bottom);
    assert_eq!(chart.calculate_layout(area), (rect(0, 0, 60, 16), Some(rect(1, 17, 58, 2))));
    // stacked above: three entries in one column take six rows
    let chart = chart.legend_layout(LegendLayout::Vertical).legend_position(LegendPosition::Top);
    assert_eq!(chart.calculate_layout(area), (rect(0, 7, 60, 13), Some(rect(1, 1, 58, 5))));
    // stacked beside a wide area: a third of the width
    let chart = PieChart::new(languages()).legend_marker("a much longer marker than usual");
    let area = rect(0, 0, 90, 20);
    assert_eq!(chart.calculate_layout(area), (rect(0, 0, 59, 20), Some(rect(60, 1, 29, 18))));
    // no legend when it is switched off
    let chart = PieChart::new(languages()).show_legend(false);
    assert_eq!(chart.calculate_layout(area), (area, None));
}

#[test]
fn horizontal_legend_alignment() {
    let area = rect(0, 0, 60, 20);
    let chart = PieChart::new(languages())
        .legend_position(LegendPosition::Top)
        .legend_layout(LegendLayout::Horizontal);
    let (_, legend) = chart.calculate_layout(area);
    let legend = legend.unwrap();
    let texts = chart.legend_entries(legend);
    let xs: Vec<u16> = texts.iter().map(|t| t.x).collect();
    assert_eq!(xs, vec![1, 15, 27]);
    assert_eq!(texts[0].text, "■ Rust 45.0%  ");
    let chart = chart.legend_alignment(LegendAlignment::Center);
    let xs: Vec<u16> = chart.legend_entries(legend).iter().map(|t| t.x).collect();
    assert_eq!(xs, vec![9, 23, 35]);
    let chart = chart.legend_alignment(LegendAlignment::Right);
    let xs: Vec<u16> = chart.legend_entries(legend).iter().map(|t| t.x).collect();
    assert_eq!(xs, vec![17, 31, 43]);
    // entries that would start past the right edge are left out
    let texts = chart.legend_entries(rect(0, 0, 20, 1));
    assert_eq!(texts.len(), 2);
    assert_eq!((texts[0].x, texts[0].width), (0, 14));
    assert_eq!((texts[1].x, texts[1].width), (14, 6));
}

#[test]
fn vertical_legend_alignment_and_truncation() {
    let chart = PieChart::new(languages()).legend_alignment(LegendAlignment::Right);
    let texts = chart.legend_entries(rect(10, 2, 20, 3));
    // rows 0 and 2 fit in three rows; "■ Rust 45.0%" is 12 wide
    assert_eq!(texts.len(), 2);
    assert_eq!((texts[0].x, texts[0].y, texts[0].width), (18, 2, 12));
    assert_eq!((texts[1].x, texts[1].y), (20, 4));
    let chart = chart.legend_alignment(LegendAlignment::Center).show_percentages(false);
    let texts = chart.legend_entries(rect(10, 2, 20, 6));
    assert_eq!(texts.len(), 3);
    assert_eq!(texts[0].text, "■ Rust");
    assert_eq!(texts[0].x, 17);
}

#[test]
fn braille_dot_conservation() {
    let chart = PieChart::new(vec![PieSlice::new("A", 50, Color::Red), PieSlice::new("B", 50, Color::Blue)])
        .resolution(Resolution::Braille)
        .show_legend(false);
    let area = rect(0, 0, 30, 12);
    let angles = angles_for(&chart, area);
    assert_eq!(angles.len(), (30 * 2) * (12 * 4));
    let dots = chart.braille_dots(area, &angles);
    assert_eq!(dots.len(), 60 * 48);
    let (cells, _) = chart.render(area, &angles);
    let owned_cells = (0..12usize)
        .flat_map(|cy| (0..30usize).map(move |cx| (cx, cy)))
        .filter(|&(cx, cy)| {
            (0..4).any(|r| (0..2).any(|c| dots[(4 * cy + r) * 60 + 2 * cx + c].is_some()))
        })
        .count();
    assert!(!cells.is_empty());
    assert!(cells.len() <= owned_cells);
    assert!(cells.iter().all(|c| ('\u{2801}'..='\u{28FF}').contains(&c.symbol)));
    assert!(cells.iter().any(|c| c.color == Color::Red));
    assert!(cells.iter().any(|c| c.color == Color::Blue));
    // the center dot (30, 24) lies in cell (15, 6) at its top-left dot
    let center = cells.iter().find(|c| c.x == 15 && c.y == 6).unwrap();
    assert_eq!(center.symbol, '\u{28FF}');
}

#[test]
fn braille_majority_color() {
    let chart = PieChart::new(vec![PieSlice::new("A", 1, Color::Red), PieSlice::new("B", 1, Color::Blue)])
        .resolution(Resolution::Braille);
    // a hand-made grid of one cell: three dots for slice 1, two for slice 0
    let pie = rect(4, 5, 1, 1);
    let dots = vec![Some(0), None, Some(1), Some(1), Some(0), None, Some(1), None];
    let cells = chart.paint_braille(pie, &dots);
    assert_eq!(cells.len(), 1);
    assert_eq!((cells[0].x, cells[0].y), (4, 5));
    assert_eq!(cells[0].color, Color::Blue);
    // owned dots (0,0) (0,1) (0,2) (1,1) (0,3): bits 0x01 0x02 0x04 0x10 0x40
    assert_eq!(cells[0].symbol as u32, 0x2800 + 0x57);
    // a tie goes to the slice found first in dot order
    let dots = vec![None, Some(1), Some(0), Some(0), None, None, Some(1), None];
    let cells = chart.paint_braille(pie, &dots);
    assert_eq!(cells[0].color, Color::Red);
    let empty = vec![None; 8];
    assert!(chart.paint_braille(pie, &empty).is_empty());
}

#[test]
fn full_turn_slice_fills_the_disc() {
    let area = rect(0, 0, 20, 10);
    let whole = PieChart::new(vec![PieSlice::new("A", 10, Color::Red)]).show_legend(false);
    let (cells, _) = whole.render(area, &angles_for(&whole, area));
    assert!(cells.iter().all(|c| c.color == Color::Red));
    // the same disc as a chart of several slices
    let split = PieChart::new(languages()).show_legend(false);
    let (split_cells, _) = split.render(area, &angles_for(&split, area));
    assert_eq!(cells.len(), split_cells.len());
    // other slices of value zero leave the whole turn to the one that is not
    let zeros = PieChart::new(vec![
        PieSlice::new("A", 0, Color::Red),
        PieSlice::new("B", 10, Color::Blue),
        PieSlice::new("C", 0, Color::Green),
    ])
    .show_legend(false);
    let (cells, _) = zeros.render(area, &angles_for(&zeros, area));
    assert_eq!(cells.len(), split_cells.len());
    assert!(cells.iter().all(|c| c.color == Color::Blue));
    // a first slice too small for one angle unit leaves a full turn to the second
    let tiny = PieChart::new(vec![PieSlice::new("A", 1, Color::Red), PieSlice::new("B", 3_999_999, Color::Blue)])
        .show_legend(false);
    let (cells, _) = tiny.render(area, &angles_for(&tiny, area));
    assert_eq!(cells.len(), split_cells.len());
    assert!(cells.iter().any(|c| c.color == Color::Blue));
}

#[test]
fn zero_height_legend_draws_nothing() {
    let chart = PieChart::new(languages()).legend_layout(LegendLayout::Horizontal);
    assert!(chart.legend_entries(rect(0, 0, 40, 0)).is_empty());
    let chart = chart.legend_layout(LegendLayout::Vertical);
    assert!(chart.legend_entries(rect(0, 0, 40, 0)).is_empty());
}

#[test]
fn stacked_legend_above_is_one_column() {
    let slices: Vec<PieSlice> = (0..6).map(|_| PieSlice::new("X", 1, Color::Red)).collect();
    let chart = PieChart::new(slices).legend_position(LegendPosition::Top);
    let area = rect(0, 0, 40, 30);
    // six entries want twelve rows; the strip is capped at nine
    let (pie, legend) = chart.calculate_layout(area);
    assert_eq!(pie, rect(0, 10, 40, 20));
    let legend = legend.unwrap();
    assert_eq!(legend, rect(1, 1, 38, 8));
    let texts = chart.legend_entries(legend);
    assert_eq!(texts.len(), 4);
    assert!(texts.iter().all(|t| t.x == 1));
}
