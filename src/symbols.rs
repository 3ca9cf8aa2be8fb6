use vstd::prelude::*;

pub use crate::border_style::BorderStyle;

verus! {

/// The default pie glyph: a filled circle.
pub const PIE_CHAR: char = '●';

/// Alternative pie glyph: filled block.
pub const PIE_CHAR_BLOCK: char = '█';

/// Alternative pie glyph: medium shade.
pub const PIE_CHAR_SHADE: char = '▒';

/// Alternative pie glyph: light shade.
pub const PIE_CHAR_LIGHT: char = '░';

/// Alternative pie glyph: dark shade.
pub const PIE_CHAR_DARK: char = '▓';

/// Alternative pie glyph: circle.
pub const PIE_CHAR_CIRCLE: char = '◉';

/// Alternative pie glyph: square.
pub const PIE_CHAR_SQUARE: char = '■';

/// Alternative pie glyph: diamond.
pub const PIE_CHAR_DIAMOND: char = '◆';

/// Alternative pie glyph: small circle.
pub const PIE_CHAR_SMALL_CIRCLE: char = '•';

/// Alternative pie glyph: white circle.
pub const PIE_CHAR_WHITE_CIRCLE: char = '○';

/// Alternative pie glyph: double circle.
pub const PIE_CHAR_DOUBLE_CIRCLE: char = '◎';

/// Alternative pie glyph: small square.
pub const PIE_CHAR_SMALL_SQUARE: char = '▪';

/// Alternative pie glyph: white square.
pub const PIE_CHAR_WHITE_SQUARE: char = '□';

/// Alternative pie glyph: small diamond.
pub const PIE_CHAR_SMALL_DIAMOND: char = '◆';

/// Alternative pie glyph: white diamond.
pub const PIE_CHAR_WHITE_DIAMOND: char = '◇';

/// Alternative pie glyph: star.
pub const PIE_CHAR_STAR: char = '★';

/// Alternative pie glyph: white star.
pub const PIE_CHAR_WHITE_STAR: char = '☆';

/// Alternative pie glyph: triangle up.
pub const PIE_CHAR_TRIANGLE_UP: char = '▲';

/// Alternative pie glyph: triangle down.
pub const PIE_CHAR_TRIANGLE_DOWN: char = '▼';

/// Alternative pie glyph: triangle right.
pub const PIE_CHAR_TRIANGLE_RIGHT: char = '▶';

/// Alternative pie glyph: triangle left.
pub const PIE_CHAR_TRIANGLE_LEFT: char = '◀';

/// Alternative pie glyph: plus.
pub const PIE_CHAR_PLUS: char = '✚';

/// Alternative pie glyph: cross.
pub const PIE_CHAR_CROSS: char = '✖';

/// Alternative pie glyph: heart.
pub const PIE_CHAR_HEART: char = '♥';

/// Alternative pie glyph: white heart.
pub const PIE_CHAR_WHITE_HEART: char = '♡';

/// Alternative pie glyph: spade.
pub const PIE_CHAR_SPADE: char = '♠';

/// Alternative pie glyph: club.
pub const PIE_CHAR_CLUB: char = '♣';

/// Alternative pie glyph: dot.
pub const PIE_CHAR_DOT: char = '·';

/// Alternative pie glyph: hexagon.
pub const PIE_CHAR_HEXAGON: char = '⬢';

/// Alternative pie glyph: bullseye.
pub const PIE_CHAR_BULLSEYE: char = '◉';

/// Alternative pie glyph: square box.
pub const PIE_CHAR_SQUARE_BOX: char = '▣';

/// Alternative pie glyph: asterism.
pub const PIE_CHAR_ASTERISM: char = '※';

/// Alternative pie glyph: horizontal bar.
pub const PIE_CHAR_HORIZONTAL_BAR: char = '▰';

/// The default legend marker: a filled square.
pub const LEGEND_MARKER: &'static str = "■";

/// Alternative legend marker: circle - classic filled circle.
pub const LEGEND_MARKER_CIRCLE: &'static str = "●";

/// Alternative legend marker: square - compact filled square.
pub const LEGEND_MARKER_SQUARE: &'static str = "▪";

/// Alternative legend marker: diamond - filled diamond shape.
pub const LEGEND_MARKER_DIAMOND: &'static str = "◆";

/// Alternative legend marker: triangle - upward-pointing triangle.
pub const LEGEND_MARKER_TRIANGLE: &'static str = "▲";

/// Alternative legend marker: hexagon - outlined hexagon.
pub const LEGEND_MARKER_HEXAGON: &'static str = "⬡";

/// Alternative legend marker: white circle - outlined circle.
pub const LEGEND_MARKER_WHITE_CIRCLE: &'static str = "○";

/// Alternative legend marker: square box - outlined square.
pub const LEGEND_MARKER_SQUARE_BOX: &'static str = "▢";

/// Alternative legend marker: arrow - right-pointing arrow.
pub const LEGEND_MARKER_ARROW: &'static str = "▶";

/// Alternative legend marker: right arrow - simple arrow.
pub const LEGEND_MARKER_RIGHT_ARROW: &'static str = "→";

/// Alternative legend marker: double right - double chevron.
pub const LEGEND_MARKER_DOUBLE_RIGHT: &'static str = "»";

/// Alternative legend marker: star - filled star.
pub const LEGEND_MARKER_STAR: &'static str = "★";

/// Alternative legend marker: white star - outlined star.
pub const LEGEND_MARKER_WHITE_STAR: &'static str = "☆";

/// Alternative legend marker: heart - filled heart.
pub const LEGEND_MARKER_HEART: &'static str = "♥";

/// Alternative legend marker: white heart - outlined heart.
pub const LEGEND_MARKER_WHITE_HEART: &'static str = "♡";

/// Alternative legend marker: plus - plus sign.
pub const LEGEND_MARKER_PLUS: &'static str = "✚";

/// Alternative legend marker: cross - X-shaped cross.
pub const LEGEND_MARKER_CROSS: &'static str = "✖";

/// Alternative legend marker: check - check mark.
pub const LEGEND_MARKER_CHECK: &'static str = "✓";

/// Alternative legend marker: bullseye - circle with center dot.
pub const LEGEND_MARKER_BULLSEYE: &'static str = "◉";

/// Alternative legend marker: asterism - three asterisks.
pub const LEGEND_MARKER_ASTERISM: &'static str = "⁂";

/// Alternative legend marker: small circle - bullet point.
pub const LEGEND_MARKER_SMALL_CIRCLE: &'static str = "•";

/// Alternative legend marker: dash - horizontal dash.
pub const LEGEND_MARKER_DASH: &'static str = "–";

/// Alternative legend marker: dot - middle dot.
pub const LEGEND_MARKER_DOT: &'static str = "·";

/// Alternative legend marker: horizontal bar - white bar.
pub const LEGEND_MARKER_HORIZONTAL_BAR: &'static str = "▱";

} // verus!
