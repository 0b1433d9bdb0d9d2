//! Colours for the cells of a rule: samples of a gradient, and how they
//! are spread over a line of glyphs.
use vstd::prelude::*;

verus! {

/// `ratatui::style::Color`: a colour of the terminal. Its value is carried
/// through as it is and never looked into.
#[verifier::external_type_specification]
#[verifier::external_body]
pub struct ExColor(ratatui::style::Color);

/// A colour of eight bits per channel.
#[derive(Clone, Copy, Debug, PartialEq, Eq, Structural, Hash)]
pub struct Rgb {
    pub r: u8,
    pub g: u8,
    pub b: u8,
}

/// A colour gradient of the `colorgrad` crate, of whichever kind.
///
/// It holds a `Box<dyn colorgrad::Gradient>`. A trait object of another
/// crate cannot be shown to the verifier, so the whole struct is hidden
/// from it: nothing is known of the colours that the gradient gives.
#[verifier::external_body]
pub struct GradientSource {
    inner: Box<dyn colorgrad::Gradient>,
}

/// The background of a rule.
pub enum Bg {
    /// No background colour.
    Unset,
    /// One colour behind every cell.
    Solid(ratatui::style::Color),
    /// Behind each cell the colour of its foreground.
    Gradient,
    /// A gradient of its own.
    GradientCustom(GradientSource),
}

/// The background of one cell.
#[derive(Clone, Copy, Debug, PartialEq, Eq)]
pub enum Ground {
    /// The cell keeps the background it has.
    Unset,
    /// A colour of the terminal's palette.
    Solid(ratatui::style::Color),
    /// A sample of a gradient.
    Sample(Rgb),
}

/// One glyph with its colours.
#[derive(Clone, Copy, Debug, PartialEq, Eq)]
pub struct StyledCell {
    pub symbol: char,
    /// The foreground; `None` keeps the colour that the cell has.
    pub fg: Option<Rgb>,
    pub bg: Ground,
}

impl GradientSource {
    /// Moves a gradient into a box, as `colorgrad::Gradient::boxed` does.
    #[verifier::external_body]
    pub(crate) fn boxed<G: colorgrad::Gradient + 'static>(gradient: G) -> (source: GradientSource) {
        GradientSource { inner: colorgrad::Gradient::boxed(gradient) }
    }

    /// `colorgrad::Gradient::colors` for `count` samples, each brought to
    /// eight bits per channel by `Color::to_rgba8` (which rounds
    /// `channel * 255`), its alpha dropped. A gradient may be of any
    /// implementation, so nothing is claimed of the samples, not even
    /// their number.
    #[verifier::external_body]
    pub(crate) fn sample(&self, count: usize) -> (colors: Vec<Rgb>) {
        self.inner.colors(count).iter().map(|c| c.to_rgba8()).map(|v| Rgb { r: v[0], g: v[1], b: v[2] }).collect()
    }
}

impl Bg {
    /// A background that follows `gradient`.
    pub fn custom<G: colorgrad::Gradient + 'static>(gradient: G) -> (bg: Bg)
        ensures
            bg is GradientCustom,
    {
        Bg::GradientCustom(GradientSource::boxed(gradient))
    }

    /// Whether the background has a gradient of its own.
    pub open spec fn own_gradient(self) -> bool {
        self is GradientCustom
    }
}

/// The background of the cell at `index`, whose foreground is `fg`, when
/// the samples of the background's own gradient are `own`.
pub open spec fn ground_at(bg: Bg, fg: Rgb, own: Seq<Rgb>, index: int) -> Ground {
    match bg {
        Bg::Unset => Ground::Unset,
        Bg::Solid(color) => Ground::Solid(color),
        Bg::Gradient => Ground::Sample(fg),
        Bg::GradientCustom(_) => Ground::Sample(own[index]),
    }
}

/// How many cells get a colour: as many as there are glyphs, but no more
/// than there are foreground samples, nor, where the background has a
/// gradient of its own, than it has samples.
pub open spec fn colored_len(glyphs: nat, fg: nat, bg: Bg, own: nat) -> nat {
    let paired = if glyphs <= fg { glyphs } else { fg };
    if bg.own_gradient() && own < paired {
        own
    } else {
        paired
    }
}

/// The glyph `symbol` with the foreground `fg` and the background `bg`.
pub open spec fn cell_of(symbol: char, fg: Option<Rgb>, bg: Ground) -> StyledCell {
    StyledCell { symbol, fg, bg }
}

/// The glyphs of `line`, the one at `i` with the foreground `fg[i]` and
/// the background `ground_at(bg, fg[i], own, i)`.
pub open spec fn colored(line: Seq<char>, fg: Seq<Rgb>, bg: Bg, own: Seq<Rgb>) -> Seq<StyledCell> {
    Seq::new(
        colored_len(line.len(), fg.len(), bg, own.len()),
        |i: int| cell_of(line[i], Some(fg[i]), ground_at(bg, fg[i], own, i)),
    )
}

/// The glyphs of `line` without any colour.
pub open spec fn plain(line: Seq<char>) -> Seq<StyledCell> {
    Seq::new(line.len(), |i: int| cell_of(line[i], None, Ground::Unset))
}

/// The glyph at `index` of `line`.
pub fn glyph_at(line: &Vec<char>, index: usize) -> (symbol: char)
    requires
        index < line@.len(),
    ensures
        symbol == line@[index as int],
{
    line[index]
}

/// Gives each glyph of `line` its colours: see `colored`.
pub fn colorize(line: &Vec<char>, fg: &Vec<Rgb>, bg: &Bg, own: &Vec<Rgb>) -> (cells: Vec<StyledCell>)
    ensures
        cells@ == colored(line@, fg@, *bg, own@),
{
    let paired: usize = if line.len() <= fg.len() {
        line.len()
    } else {
        fg.len()
    };
    let custom: bool = match bg {
        Bg::GradientCustom(_) => true,
        _ => false,
    };
    let count: usize = if custom && own.len() < paired {
        own.len()
    } else {
        paired
    };
    let mut out: Vec<StyledCell> = Vec::new();
    let mut i: usize = 0;
    while i < count
        invariant
            i <= count,
            count == colored_len(line@.len(), fg@.len(), *bg, own@.len()),
            out@.len() == i,
            forall|k: int| 0 <= k < i ==> out@[k] == colored(line@, fg@, *bg, own@)[k],
        decreases count - i,
    {
        let front: Rgb = fg[i];
        let ground: Ground = match bg {
            Bg::Unset => Ground::Unset,
            Bg::Solid(color) => Ground::Solid(*color),
            Bg::Gradient => Ground::Sample(front),
            Bg::GradientCustom(_) => {
                let back: Rgb = own[i];
                Ground::Sample(back)
            },
        };
        let symbol: char = glyph_at(line, i);
        out.push(StyledCell { symbol, fg: Some(front), bg: ground });
        i = i + 1;
    }
    assert(out@ =~= colored(line@, fg@, *bg, own@));
    out
}

/// Whether `cells` are the glyphs of `line` with colours from some samples:
/// `colored` for some foreground samples and some samples of the
/// background's own gradient.
pub open spec fn colored_by_some(line: Seq<char>, bg: Bg, cells: Seq<StyledCell>) -> bool {
    exists|fg: Seq<Rgb>, own: Seq<Rgb>| cells == #[trigger] colored(line, fg, bg, own)
}

/// Gives each glyph of `line` a colour of `gradient`, and the background
/// that `bg` asks for. Each gradient is asked for as many samples as the
/// line has glyphs; what it answers is not known here, so the cells are
/// `colored` for whatever samples came back.
pub fn gradient_cells(line: &Vec<char>, gradient: &GradientSource, bg: &Bg) -> (cells: Vec<
    StyledCell,
>)
    ensures
        colored_by_some(line@, *bg, cells@),
{
    let fg = gradient.sample(line.len());
    let own = match bg {
        Bg::GradientCustom(second) => second.sample(line.len()),
        _ => Vec::new(),
    };
    colorize(line, &fg, bg, &own)
}

/// Gives each glyph of `line` a colour of `gradient`, as `gradient_cells`
/// does.
pub fn generate_gradient_text<G: colorgrad::Gradient + 'static>(
    line: &Vec<char>,
    gradient: G,
    bg: &Bg,
) -> (cells: Vec<StyledCell>)
    ensures
        colored_by_some(line@, *bg, cells@),
{
    let source = GradientSource::boxed(gradient);
    gradient_cells(line, &source, bg)
}

/// Gives the glyphs of `line` without any colour: see `plain`.
pub fn uncolored(line: &Vec<char>) -> (cells: Vec<StyledCell>)
    ensures
        cells@ == plain(line@),
{
    let mut out: Vec<StyledCell> = Vec::new();
    let mut i: usize = 0;
    while i < line.len()
        invariant
            i <= line.len(),
            out@.len() == i,
            forall|k: int| 0 <= k < i ==> out@[k] == plain(line@)[k],
        decreases line.len() - i,
    {
        let symbol: char = glyph_at(line, i);
        out.push(StyledCell { symbol, fg: None, bg: Ground::Unset });
        i = i + 1;
    }
    assert(out@ =~= plain(line@));
    out
}

} // verus!
