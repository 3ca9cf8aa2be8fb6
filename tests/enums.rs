use tui_piechart::{
    BorderStyle, LegendAlignment, LegendLayout, LegendPosition, TitleAlignment, TitlePosition,
    TitleStyle,
};

#[test]
fn border_style_default() {
    assert_eq!(BorderStyle::default(), BorderStyle::Standard);
}

#[test]
fn border_style_equality() {
    assert_eq!(BorderStyle::Standard, BorderStyle::Standard);
    assert_ne!(BorderStyle::Standard, BorderStyle::Rounded);
}

#[test]
fn legend_position_default() {
    assert_eq!(LegendPosition::default(), LegendPosition::Right);
}

#[test]
fn legend_layout_default() {
    assert_eq!(LegendLayout::default(), LegendLayout::Vertical);
}

#[test]
fn legend_position_clone() {
    let pos = LegendPosition::Left;
    let cloned = pos;
    assert_eq!(pos, cloned);
}

#[test]
fn legend_layout_clone() {
    let layout = LegendLayout::Horizontal;
    let cloned = layout;
    assert_eq!(layout, cloned);
}

#[test]
fn legend_position_debug() {
    let pos = LegendPosition::Top;
    let debug = format!("{pos:?}");
    assert_eq!(debug, "Top");
}

#[test]
fn legend_layout_debug() {
    let layout = LegendLayout::Vertical;
    let debug = format!("{layout:?}");
    assert_eq!(debug, "Vertical");
}

#[test]
fn legend_alignment_default() {
    assert_eq!(LegendAlignment::default(), LegendAlignment::Left);
}

#[test]
fn legend_alignment_clone() {
    let alignment = LegendAlignment::Center;
    let cloned = alignment;
    assert_eq!(alignment, cloned);
}

#[test]
fn legend_alignment_debug() {
    let alignment = LegendAlignment::Right;
    let debug = format!("{:?}", alignment);
    assert_eq!(debug, "Right");
}

#[test]
fn title_alignment_default() {
    assert_eq!(TitleAlignment::default(), TitleAlignment::Center);
}

#[test]
fn title_position_default() {
    assert_eq!(TitlePosition::default(), TitlePosition::Top);
}

#[test]
fn title_style_default() {
    assert_eq!(TitleStyle::default(), TitleStyle::Normal);
}

#[test]
fn title_alignment_clone() {
    let align = TitleAlignment::End;
    let cloned = align;
    assert_eq!(align, cloned);
}

#[test]
fn title_position_clone() {
    let pos = TitlePosition::Bottom;
    let cloned = pos;
    assert_eq!(pos, cloned);
}

#[test]
fn title_style_clone() {
    let style = TitleStyle::Bold;
    let cloned = style;
    assert_eq!(style, cloned);
}

#[test]
fn title_alignment_debug() {
    let align = TitleAlignment::Start;
    let debug = format!("{:?}", align);
    assert_eq!(debug, "Start");
}

#[test]
fn title_position_debug() {
    let pos = TitlePosition::Bottom;
    let debug = format!("{:?}", pos);
    assert_eq!(debug, "Bottom");
}

#[test]
fn title_style_debug() {
    let style = TitleStyle::Bold;
    let debug = format!("{:?}", style);
    assert_eq!(debug, "Bold");
}
