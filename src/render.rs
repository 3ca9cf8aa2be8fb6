use vstd::prelude::*;
use crate::chart::{rect_wf, PieChart};
use crate::config::{Rect, Resolution};
use crate::legend::{entry_text, legend_matches, LegendText};
use crate::raster::{
    braille_cells, braille_offset, braille_offsets, dot_owner, standard_cells, standard_offset,
    standard_offsets, Cell,
};
use crate::slice::total_value;

verus! {

/// Whether `r` holds few enough cells that its braille dot grid can be
/// indexed.
pub open spec fn grid_fits(r: Rect) -> bool {
    8 * r.width * r.height <= usize::MAX
}

impl PieChart {
    /// The rectangle in which the disc is drawn within `area`, if one is
    /// drawn: not for an empty area, no slices, or a total of zero.
    pub open spec fn disc_area(&self, area: Rect) -> Option<Rect> {
        if area.width == 0 || area.height == 0 || self.slices@.len() == 0 || self.total_spec() == 0 {
            None
        } else {
            Some(self.layout(area).0)
        }
    }

    /// The legend's rectangle within `area`, if a legend is drawn: not for
    /// an empty area or no slices.
    pub open spec fn legend_area(&self, area: Rect) -> Option<Rect> {
        if area.width == 0 || area.height == 0 || self.slices@.len() == 0 {
            None
        } else {
            self.layout(area).1
        }
    }

    /// How many angles `render` takes for `area`: one per cell of the disc's
    /// rectangle in standard resolution, one per dot in braille; none when
    /// no disc is drawn.
    pub open spec fn angle_count(&self, area: Rect) -> int {
        match self.disc_area(area) {
            Some(pie) => match self.resolution {
                Resolution::Standard => pie.width * pie.height,
                Resolution::Braille => (2 * pie.width) * (4 * pie.height),
            },
            None => 0,
        }
    }

    /// The cell writes of the disc drawn in `area`, given the angle of each
    /// vector from `disc_offsets(area)`.
    pub open spec fn disc_cells(&self, area: Rect, angles: Seq<i64>) -> Seq<Cell> {
        match self.disc_area(area) {
            Some(pie) => match self.resolution {
                Resolution::Standard => standard_cells(self, pie, angles, pie.width * pie.height),
                Resolution::Braille => braille_cells(
                    self,
                    pie,
                    Seq::new(((2 * pie.width) * (4 * pie.height)) as nat, |d: int| dot_owner(self, pie, angles, d)),
                    pie.width * pie.height,
                ),
            },
            None => Seq::empty(),
        }
    }

    /// The vectors whose angles `render` takes for `area`: from the disc's
    /// center to each cell (standard) or dot (braille) of the disc's
    /// rectangle, row by row; none when no disc is drawn.
    pub fn disc_offsets(&self, area: Rect) -> (r: Vec<(i32, i32)>)
        requires
            rect_wf(area),
            grid_fits(area),
        ensures
            r@.len() == self.angle_count(area),
            self.disc_area(area) matches Some(pie) ==> forall|k: int| 0 <= k < r@.len() ==>
                (r@[k].0 as int, r@[k].1 as int) == match self.resolution {
                    Resolution::Standard => standard_offset(pie, k),
                    Resolution::Braille => braille_offset(pie, k),
                },
    {
        if area.width == 0 || area.height == 0 || self.slices.len() == 0 {
            return Vec::new();
        }
        let total = total_value(&self.slices);
        if total == 0 {
            return Vec::new();
        }
        let (pie, _legend) = self.calculate_layout(area);
        proof {
            self.lemma_layout_within(area);
        }
        match self.resolution {
            Resolution::Standard => standard_offsets(pie),
            Resolution::Braille => braille_offsets(pie),
        }
    }

    /// What is drawn in `area`: the disc's cell writes (see `disc_cells`) and
    /// the legend's text runs (see `legend_entries`), given the angle
    /// `atan2(dy, dx)` of each vector `(dx, dy)` from `disc_offsets(area)`,
    /// in units of which `TURN` make a full turn.
    pub fn render(&self, area: Rect, angles: &Vec<i64>) -> (r: (Vec<Cell>, Vec<LegendText>))
        requires
            rect_wf(area),
            grid_fits(area),
            angles@.len() == self.angle_count(area),
        ensures
            r.0@ == self.disc_cells(area, angles@),
            self.legend_area(area) is None ==> r.1@.len() == 0,
            self.legend_area(area) matches Some(l) ==> legend_matches(self, l, r.1@),
    {
        if area.width == 0 || area.height == 0 || self.slices.len() == 0 {
            return (Vec::new(), Vec::new());
        }
        let (pie, legend) = self.calculate_layout(area);
        proof {
            self.lemma_layout_within(area);
        }
        let total = total_value(&self.slices);
        let cells = if total == 0 {
            Vec::new()
        } else {
            match self.resolution {
                Resolution::Standard => self.paint_standard(pie, angles),
                Resolution::Braille => {
                    let dots = self.braille_dots(pie, angles);
                    assert(dots@ =~= Seq::new(((2 * pie.width) * (4 * pie.height)) as nat, |d: int| dot_owner(self, pie, angles@, d)));
                    self.paint_braille(pie, &dots)
                },
            }
        };
        let texts = match legend {
            Some(l) => self.legend_entries(l),
            None => Vec::new(),
        };
        (cells, texts)
    }
}

/// A chart whose values sum to zero draws no disc, whatever the angles, but
/// still its legend, where every entry shows a share of zero (`0.0%`).
pub proof fn lemma_zero_total_draws_nothing(chart: &PieChart, area: Rect, angles: Seq<i64>)
    requires
        chart.total_spec() == 0,
    ensures
        chart.disc_cells(area, angles).len() == 0,
        chart.angle_count(area) == 0,
        area.width > 0 && area.height > 0 && chart.slices@.len() > 0
            ==> chart.legend_area(area) == chart.layout(area).1,
        forall|i: int| 0 <= i < chart.slices@.len() ==> #[trigger] chart.item_text(i)
            == entry_text(chart.legend_marker@, chart.slices@[i].label@, 0, chart.show_percentages),
{
}

} // verus!
