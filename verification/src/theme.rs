//! The colors that panes and their titles are drawn in.

use crate::term::Color;
use vstd::prelude::*;

verus! {

/// The pane colors of the default theme.
pub open spec fn default_pane_colors() -> Seq<Color> {
    seq![
        Color::Cyan,
        Color::Green,
        Color::Magenta,
        Color::Yellow,
        Color::Blue,
        Color::LightCyan,
        Color::LightGreen,
        Color::LightMagenta,
    ]
}

/// The title colors of the default theme.
pub open spec fn default_title_colors() -> Seq<Color> {
    seq![
        Color::Rgb(0x00, 0xee, 0xff),
        Color::Rgb(0x00, 0xff, 0x88),
        Color::Rgb(0xff, 0x66, 0xff),
        Color::Rgb(0xff, 0xee, 0x00),
        Color::Rgb(0x44, 0xaa, 0xff),
        Color::Rgb(0x66, 0xff, 0xff),
        Color::Rgb(0x66, 0xff, 0x99),
        Color::Rgb(0xff, 0x99, 0xff),
    ]
}

/// The color that a repeating `palette` gives to the item at `index`.
pub open spec fn palette_color(palette: Seq<Color>, index: int) -> Color {
    palette[index % (palette.len() as int)]
}

/// Two palettes that repeat: one for panes, one for their titles.
#[derive(Clone, Debug)]
pub struct Theme {
    pub pane_colors: Vec<Color>,
    pub title_colors: Vec<Color>,
}

impl Default for Theme {
    fn default() -> (theme: Theme)
        ensures
            theme.pane_colors@ == default_pane_colors(),
            theme.title_colors@ == default_title_colors(),
    {
        let mut pane_colors: Vec<Color> = Vec::new();
        pane_colors.push(Color::Cyan);
        pane_colors.push(Color::Green);
        pane_colors.push(Color::Magenta);
        pane_colors.push(Color::Yellow);
        pane_colors.push(Color::Blue);
        pane_colors.push(Color::LightCyan);
        pane_colors.push(Color::LightGreen);
        pane_colors.push(Color::LightMagenta);
        let mut title_colors: Vec<Color> = Vec::new();
        title_colors.push(Color::Rgb(0x00, 0xee, 0xff));
        title_colors.push(Color::Rgb(0x00, 0xff, 0x88));
        title_colors.push(Color::Rgb(0xff, 0x66, 0xff));
        title_colors.push(Color::Rgb(0xff, 0xee, 0x00));
        title_colors.push(Color::Rgb(0x44, 0xaa, 0xff));
        title_colors.push(Color::Rgb(0x66, 0xff, 0xff));
        title_colors.push(Color::Rgb(0x66, 0xff, 0x99));
        title_colors.push(Color::Rgb(0xff, 0x99, 0xff));
        Theme { pane_colors, title_colors }
    }
}

impl Theme {
    /// Both palettes hold a color.
    pub open spec fn wf(&self) -> bool {
        self.pane_colors@.len() > 0 && self.title_colors@.len() > 0
    }

    /// The color of the pane that was discovered as number `index`.
    pub fn pane_color(&self, index: usize) -> (color: Color)
        requires
            self.pane_colors@.len() > 0,
        ensures
            color == palette_color(self.pane_colors@, index as int),
    {
        self.pane_colors[index % self.pane_colors.len()]
    }

    /// The title color of the pane at `index`.
    pub fn title_color(&self, index: usize) -> (color: Color)
        requires
            self.title_colors@.len() > 0,
        ensures
            color == palette_color(self.title_colors@, index as int),
    {
        self.title_colors[index % self.title_colors.len()]
    }
}

/// The default palette gives different colors to any two panes whose
/// discovery numbers differ by less than the palette's length, and the same
/// color again after one full round.
pub proof fn law_default_palette_repeats_after_eight(i: nat, j: nat)
    ensures
        i != j && i / 8 == j / 8 ==> palette_color(default_pane_colors(), i as int)
            != palette_color(default_pane_colors(), j as int),
        palette_color(default_pane_colors(), i as int) == palette_color(
            default_pane_colors(),
            (i + 8) as int,
        ),
{
    let p = default_pane_colors();
    assert(p.len() == 8);
}

} // verus!
