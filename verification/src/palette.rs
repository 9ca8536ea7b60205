//! The palette model: tunable parameters per variant, and a fixed catalog of
//! named color tokens that every palette instance resolves.
//!
//! Most tokens are literal fixed points of the color space; the abstract
//! "base" neutral scale is derived from `base_lightness_start ..
//! base_lightness_end` by linear interpolation, so that one override of the
//! range can invert or compress the whole background/foreground ramp.

use vstd::arithmetic::div_mod::{
    lemma_div_is_ordered, lemma_div_multiples_vanish, lemma_div_of0, lemma_div_pos_is_pos,
};
use vstd::arithmetic::mul::{lemma_mul_inequality, lemma_mul_nonnegative};
use vstd::prelude::*;

use crate::color::{color_wf, Color, AXIS_UNIT, CHROMA_MAX, LIGHTNESS_MAX};

verus! {

/// The tunable knobs of one palette instance. Lightness fields are held in
/// ten-thousandths of a unit; the base lightness range is direction aware,
/// so `base_lightness_start` may exceed `base_lightness_end` to signal an
/// inverted (light-oriented) ramp.
#[derive(Clone, Copy, Debug, PartialEq, Eq, Structural)]
pub struct PaletteParameters {
    pub base_lightness_start: u32,
    pub base_lightness_end: u32,
    pub low_lightness: u32,
    pub high_lightness: u32,
    pub low_chroma: u32,
    pub medium_chroma: u32,
    pub high_chroma: u32,
}

/// Every numeric field lies within the valid range of its axis.
pub open spec fn params_wf(p: PaletteParameters) -> bool {
    &&& p.base_lightness_start <= LIGHTNESS_MAX
    &&& p.base_lightness_end <= LIGHTNESS_MAX
    &&& p.low_lightness <= LIGHTNESS_MAX
    &&& p.high_lightness <= LIGHTNESS_MAX
    &&& p.low_chroma <= CHROMA_MAX
    &&& p.medium_chroma <= CHROMA_MAX
    &&& p.high_chroma <= CHROMA_MAX
}

/// The canonical base definition every variant is derived from: a dark
/// ramp from near-black up to near-white, with restrained accent chroma.
pub open spec fn base_parameters() -> PaletteParameters {
    PaletteParameters {
        base_lightness_start: 1700,
        base_lightness_end: 9880,
        low_lightness: 8000,
        high_lightness: 9880,
        low_chroma: 320,
        medium_chroma: 700,
        high_chroma: 1000,
    }
}

impl Default for PaletteParameters {
    /// The base definition; see [`base_parameters`].
    fn default() -> (d: Self)
        ensures
            d == base_parameters(),
            params_wf(d),
    {
        PaletteParameters {
            base_lightness_start: 1700,
            base_lightness_end: 9880,
            low_lightness: 8000,
            high_lightness: 9880,
            low_chroma: 320,
            medium_chroma: 700,
            high_chroma: 1000,
        }
    }
}

impl PaletteParameters {
    /// Reports whether every field lies within the valid range of its axis.
    pub fn is_well_formed(&self) -> (r: bool)
        ensures
            r == params_wf(*self),
    {
        self.base_lightness_start <= LIGHTNESS_MAX && self.base_lightness_end <= LIGHTNESS_MAX
            && self.low_lightness <= LIGHTNESS_MAX && self.high_lightness <= LIGHTNESS_MAX
            && self.low_chroma <= CHROMA_MAX && self.medium_chroma <= CHROMA_MAX
            && self.high_chroma <= CHROMA_MAX
    }
}

/// A partial override set: a variant names only the fields it changes.
#[derive(Clone, Copy, Debug, PartialEq, Eq, Structural)]
pub struct ParameterOverrides {
    pub base_lightness_start: Option<u32>,
    pub base_lightness_end: Option<u32>,
    pub low_lightness: Option<u32>,
    pub high_lightness: Option<u32>,
    pub low_chroma: Option<u32>,
    pub medium_chroma: Option<u32>,
    pub high_chroma: Option<u32>,
}

/// The empty override set: it changes nothing.
pub open spec fn no_overrides() -> ParameterOverrides {
    ParameterOverrides {
        base_lightness_start: None,
        base_lightness_end: None,
        low_lightness: None,
        high_lightness: None,
        low_chroma: None,
        medium_chroma: None,
        high_chroma: None,
    }
}

impl Default for ParameterOverrides {
    /// The empty override set; see [`no_overrides`].
    fn default() -> (d: Self)
        ensures
            d == no_overrides(),
    {
        ParameterOverrides {
            base_lightness_start: None,
            base_lightness_end: None,
            low_lightness: None,
            high_lightness: None,
            low_chroma: None,
            medium_chroma: None,
            high_chroma: None,
        }
    }
}

/// Every named override lies within the valid range of its axis.
pub open spec fn overrides_wf(o: ParameterOverrides) -> bool {
    &&& (o.base_lightness_start matches Some(v) ==> v <= LIGHTNESS_MAX)
    &&& (o.base_lightness_end matches Some(v) ==> v <= LIGHTNESS_MAX)
    &&& (o.low_lightness matches Some(v) ==> v <= LIGHTNESS_MAX)
    &&& (o.high_lightness matches Some(v) ==> v <= LIGHTNESS_MAX)
    &&& (o.low_chroma matches Some(v) ==> v <= CHROMA_MAX)
    &&& (o.medium_chroma matches Some(v) ==> v <= CHROMA_MAX)
    &&& (o.high_chroma matches Some(v) ==> v <= CHROMA_MAX)
}

/// Structural inheritance: every field is copied from `base`, then the
/// fields named in `overrides` are replaced.
pub open spec fn apply_overrides(
    base: PaletteParameters,
    overrides: ParameterOverrides,
) -> PaletteParameters {
    PaletteParameters {
        base_lightness_start: match overrides.base_lightness_start {
            Some(v) => v,
            None => base.base_lightness_start,
        },
        base_lightness_end: match overrides.base_lightness_end {
            Some(v) => v,
            None => base.base_lightness_end,
        },
        low_lightness: match overrides.low_lightness {
            Some(v) => v,
            None => base.low_lightness,
        },
        high_lightness: match overrides.high_lightness {
            Some(v) => v,
            None => base.high_lightness,
        },
        low_chroma: match overrides.low_chroma {
            Some(v) => v,
            None => base.low_chroma,
        },
        medium_chroma: match overrides.medium_chroma {
            Some(v) => v,
            None => base.medium_chroma,
        },
        high_chroma: match overrides.high_chroma {
            Some(v) => v,
            None => base.high_chroma,
        },
    }
}

/// Copies `base` and replaces exactly the fields named in `overrides`.
pub fn derive(base: &PaletteParameters, overrides: &ParameterOverrides) -> (p: PaletteParameters)
    ensures
        p == apply_overrides(*base, *overrides),
{
    PaletteParameters {
        base_lightness_start: match overrides.base_lightness_start {
            Some(v) => v,
            None => base.base_lightness_start,
        },
        base_lightness_end: match overrides.base_lightness_end {
            Some(v) => v,
            None => base.base_lightness_end,
        },
        low_lightness: match overrides.low_lightness {
            Some(v) => v,
            None => base.low_lightness,
        },
        high_lightness: match overrides.high_lightness {
            Some(v) => v,
            None => base.high_lightness,
        },
        low_chroma: match overrides.low_chroma {
            Some(v) => v,
            None => base.low_chroma,
        },
        medium_chroma: match overrides.medium_chroma {
            Some(v) => v,
            None => base.medium_chroma,
        },
        high_chroma: match overrides.high_chroma {
            Some(v) => v,
            None => base.high_chroma,
        },
    }
}

/// Law: derivation with an empty override set is the identity, so a variant
/// that overrides nothing is structurally equal to its base.
pub proof fn lemma_derive_identity(base: PaletteParameters)
    ensures
        apply_overrides(base, no_overrides()) == base,
{
}

/// Law: derivation from a well-formed base with well-formed overrides
/// yields well-formed parameters, so declared variants keep the range
/// invariant.
pub proof fn lemma_derive_preserves_wf(base: PaletteParameters, overrides: ParameterOverrides)
    requires
        params_wf(base),
        overrides_wf(overrides),
    ensures
        params_wf(apply_overrides(base, overrides)),
{
}

/// Named positions on the abstract base neutral scale, from the darkest
/// conceptual background to the brightest conceptual foreground.
#[derive(Clone, Copy, Debug, PartialEq, Eq, Structural)]
pub enum BaseScale {
    Bg,
    LightBg,
    LighterBg,
    DarkFg,
    DimFg,
    Fg,
    BrightFg,
}

/// The position of each base-scale name, in ten-thousandths of the way
/// from the start of the base lightness range to its end.
pub open spec fn base_scale_position(s: BaseScale) -> u32 {
    match s {
        BaseScale::Bg => 0,
        BaseScale::LightBg => 1000,
        BaseScale::LighterBg => 2500,
        BaseScale::DarkFg => 3500,
        BaseScale::DimFg => 6000,
        BaseScale::Fg => 8500,
        BaseScale::BrightFg => 10000,
    }
}

impl BaseScale {
    /// The scale position of this name; see [`base_scale_position`].
    pub fn value(self) -> (v: u32)
        ensures
            v == base_scale_position(self),
            v <= AXIS_UNIT,
    {
        match self {
            BaseScale::Bg => 0,
            BaseScale::LightBg => 1000,
            BaseScale::LighterBg => 2500,
            BaseScale::DarkFg => 3500,
            BaseScale::DimFg => 6000,
            BaseScale::Fg => 8500,
            BaseScale::BrightFg => 10000,
        }
    }
}

/// Direction-aware linear interpolation: the value `pos` ten-thousandths of
/// the way from `start` to `end`, also when `start` exceeds `end`.
pub open spec fn lerp_spec(pos: int, start: int, end: int) -> int {
    if end >= start {
        start + pos * (end - start) / (AXIS_UNIT as int)
    } else {
        start - pos * (start - end) / (AXIS_UNIT as int)
    }
}

/// The interpolation term `pos * d / AXIS_UNIT` never leaves `0 ..= d`.
proof fn lemma_lerp_term_bound(pos: int, d: int)
    requires
        0 <= pos <= AXIS_UNIT,
        0 <= d,
    ensures
        0 <= pos * d / (AXIS_UNIT as int) <= d,
{
    lemma_mul_nonnegative(pos, d);
    lemma_div_pos_is_pos(pos * d, AXIS_UNIT as int);
    lemma_mul_inequality(pos, AXIS_UNIT as int, d);
    lemma_div_is_ordered(pos * d, (AXIS_UNIT as int) * d, AXIS_UNIT as int);
    lemma_div_multiples_vanish(d, AXIS_UNIT as int);
}

/// Interpolation stays within the range it is given, whichever way the
/// range points.
pub proof fn lemma_lerp_in_range(pos: int, start: int, end: int)
    requires
        0 <= pos <= AXIS_UNIT,
        0 <= start,
        0 <= end,
    ensures
        end >= start ==> start <= lerp_spec(pos, start, end) <= end,
        end < start ==> end <= lerp_spec(pos, start, end) <= start,
{
    if end >= start {
        lemma_lerp_term_bound(pos, end - start);
    } else {
        lemma_lerp_term_bound(pos, start - end);
    }
}

/// Law: interpolation hits the range endpoints exactly — position zero
/// resolves to `start` and the full position to `end`, also for inverted
/// ranges where `start` exceeds `end`.
pub proof fn lemma_lerp_endpoints(start: int, end: int)
    requires
        0 <= start,
        0 <= end,
    ensures
        lerp_spec(0, start, end) == start,
        lerp_spec(AXIS_UNIT as int, start, end) == end,
{
    lemma_div_of0(AXIS_UNIT as int);
    if end >= start {
        lemma_div_multiples_vanish(end - start, AXIS_UNIT as int);
        assert((AXIS_UNIT as int) * (end - start) == (end - start) * (AXIS_UNIT as int));
    } else {
        lemma_div_multiples_vanish(start - end, AXIS_UNIT as int);
        assert((AXIS_UNIT as int) * (start - end) == (start - end) * (AXIS_UNIT as int));
    }
}

/// Direction-aware linear interpolation over the fixed-point axes; see
/// [`lerp_spec`].
pub fn lerp(pos: u32, start: u32, end: u32) -> (r: u32)
    requires
        pos <= AXIS_UNIT,
        start <= LIGHTNESS_MAX,
        end <= LIGHTNESS_MAX,
    ensures
        r == lerp_spec(pos as int, start as int, end as int),
        end >= start ==> start <= r <= end,
        end < start ==> end <= r <= start,
{
    if end >= start {
        let d: u32 = end - start;
        proof {
            lemma_lerp_term_bound(pos as int, d as int);
            lemma_mul_inequality(pos as int, AXIS_UNIT as int, d as int);
        }
        let t: u32 = pos * d / AXIS_UNIT;
        start + t
    } else {
        let d: u32 = start - end;
        proof {
            lemma_lerp_term_bound(pos as int, d as int);
            lemma_mul_inequality(pos as int, AXIS_UNIT as int, d as int);
        }
        let t: u32 = pos * d / AXIS_UNIT;
        start - t
    }
}

} // verus!

verus! {

/// The fixed catalog of named color tokens. Every palette instance
/// resolves every token name: the literal tokens to fixed points of the
/// color space, the base-scale tokens by interpolation through the base
/// lightness range.
#[derive(Clone, Copy, Debug, PartialEq, Eq, Structural)]
pub enum Token {
    Black,
    One,
    Two,
    Four,
    Six,
    Seven,
    Eight,
    Nine,
    Ten,
    Eleven,
    White,
    Red,
    Orange,
    Yellow,
    Green,
    Teal,
    Blue,
    Purple,
    Pink,
    Magenta,
    Lavender,
    LightRed,
    LightOrange,
    LightYellow,
    LightGreen,
    LightTeal,
    LightBlue,
    LightPurple,
    LightPink,
    DarkRed,
    DarkOrange,
    DarkYellow,
    DarkGreen,
    DarkTeal,
    DarkBlue,
    DarkPurple,
    DarkPink,
    Base(BaseScale),
}

/// The color each token resolves to under the given parameters. The
/// base-scale tokens are neutral: interpolated lightness, zero chroma.
pub open spec fn token_color(p: PaletteParameters, t: Token) -> Color {
    match t {
        Token::Black => Color { l: 2898, c: 83, h: 31772 },
        Token::One => Color { l: 3554, c: 109, h: 32580 },
        Token::Two => Color { l: 4181, c: 134, h: 33040 },
        Token::Four => Color { l: 5374, c: 128, h: 34876 },
        Token::Six => Color { l: 6497, c: 132, h: 1750 },
        Token::Seven => Color { l: 7072, c: 121, h: 3108 },
        Token::Eight => Color { l: 7658, c: 108, h: 4858 },
        Token::Nine => Color { l: 8263, c: 118, h: 7188 },
        Token::Ten => Color { l: 8849, c: 139, h: 9300 },
        Token::Eleven => Color { l: 9433, c: 173, h: 10315 },
        Token::White => Color { l: 9947, c: 184, h: 11333 },
        Token::Red => Color { l: 6880, c: 1950, h: 2060 },
        Token::Orange => Color { l: 7467, c: 1308, h: 4376 },
        Token::Yellow => Color { l: 8910, c: 919, h: 8510 },
        Token::Green => Color { l: 8820, c: 1010, h: 13000 },
        Token::Teal => Color { l: 8341, c: 889, h: 17567 },
        Token::Blue => Color { l: 8240, c: 857, h: 20400 },
        Token::Purple => Color { l: 5720, c: 840, h: 29100 },
        Token::Pink => Color { l: 7699, c: 1315, h: 35849 },
        Token::Magenta => Color { l: 7800, c: 1287, h: 34500 },
        Token::Lavender => Color { l: 8004, c: 665, h: 29550 },
        Token::LightRed => Color { l: 8257, c: 934, h: 2169 },
        Token::LightOrange => Color { l: 8648, c: 666, h: 5180 },
        Token::LightYellow => Color { l: 9420, c: 545, h: 8991 },
        Token::LightGreen => Color { l: 9391, c: 601, h: 12695 },
        Token::LightTeal => Color { l: 9108, c: 508, h: 16788 },
        Token::LightBlue => Color { l: 9056, c: 455, h: 19296 },
        Token::LightPurple => Color { l: 7881, c: 282, h: 29263 },
        Token::LightPink => Color { l: 8774, c: 595, h: 395 },
        Token::DarkRed => Color { l: 4897, c: 1093, h: 1668 },
        Token::DarkOrange => Color { l: 5281, c: 722, h: 4157 },
        Token::DarkYellow => Color { l: 6104, c: 500, h: 8305 },
        Token::DarkGreen => Color { l: 6046, c: 518, h: 12890 },
        Token::DarkTeal => Color { l: 5769, c: 477, h: 17931 },
        Token::DarkBlue => Color { l: 5711, c: 485, h: 20870 },
        Token::DarkPurple => Color { l: 4368, c: 476, h: 29222 },
        Token::DarkPink => Color { l: 5425, c: 741, h: 35562 },
        Token::Base(s) => Color {
            l: lerp_spec(
                base_scale_position(s) as int,
                p.base_lightness_start as int,
                p.base_lightness_end as int,
            ) as u32,
            c: 0,
            h: 0,
        },
    }
}

/// Law: under well-formed parameters, token resolution never leaves the
/// valid domain of the color space's axes, for any token name.
pub proof fn lemma_token_color_wf(p: PaletteParameters, t: Token)
    requires
        params_wf(p),
    ensures
        color_wf(token_color(p, t)),
{
    match t {
        Token::Black => {},
        Token::One => {},
        Token::Two => {},
        Token::Four => {},
        Token::Six => {},
        Token::Seven => {},
        Token::Eight => {},
        Token::Nine => {},
        Token::Ten => {},
        Token::Eleven => {},
        Token::White => {},
        Token::Red => {},
        Token::Orange => {},
        Token::Yellow => {},
        Token::Green => {},
        Token::Teal => {},
        Token::Blue => {},
        Token::Purple => {},
        Token::Pink => {},
        Token::Magenta => {},
        Token::Lavender => {},
        Token::LightRed => {},
        Token::LightOrange => {},
        Token::LightYellow => {},
        Token::LightGreen => {},
        Token::LightTeal => {},
        Token::LightBlue => {},
        Token::LightPurple => {},
        Token::LightPink => {},
        Token::DarkRed => {},
        Token::DarkOrange => {},
        Token::DarkYellow => {},
        Token::DarkGreen => {},
        Token::DarkTeal => {},
        Token::DarkBlue => {},
        Token::DarkPurple => {},
        Token::DarkPink => {},
        Token::Base(s) => {
            lemma_lerp_in_range(
                base_scale_position(s) as int,
                p.base_lightness_start as int,
                p.base_lightness_end as int,
            );
        },
    }
}

/// One palette instance: the parameters of a variant, answering every
/// token name of the catalog.
pub struct Palette {
    pub params: PaletteParameters,
}

impl Palette {
    /// Instantiates the palette model. Construction never fails for
    /// well-formed parameters, and the parameters are immutable
    /// thereafter.
    pub fn new(params: PaletteParameters) -> (palette: Palette)
        requires
            params_wf(params),
        ensures
            palette.params == params,
    {
        Palette { params }
    }

    /// Resolves one token name; see [`token_color`]. The result always
    /// lies within the valid domain of the color space's axes.
    pub fn token(&self, t: Token) -> (r: Color)
        requires
            params_wf(self.params),
        ensures
            r == token_color(self.params, t),
            color_wf(r),
    {
        proof {
            lemma_token_color_wf(self.params, t);
        }
        match t {
            Token::Black => Color { l: 2898, c: 83, h: 31772 },
            Token::One => Color { l: 3554, c: 109, h: 32580 },
            Token::Two => Color { l: 4181, c: 134, h: 33040 },
            Token::Four => Color { l: 5374, c: 128, h: 34876 },
            Token::Six => Color { l: 6497, c: 132, h: 1750 },
            Token::Seven => Color { l: 7072, c: 121, h: 3108 },
            Token::Eight => Color { l: 7658, c: 108, h: 4858 },
            Token::Nine => Color { l: 8263, c: 118, h: 7188 },
            Token::Ten => Color { l: 8849, c: 139, h: 9300 },
            Token::Eleven => Color { l: 9433, c: 173, h: 10315 },
            Token::White => Color { l: 9947, c: 184, h: 11333 },
            Token::Red => Color { l: 6880, c: 1950, h: 2060 },
            Token::Orange => Color { l: 7467, c: 1308, h: 4376 },
            Token::Yellow => Color { l: 8910, c: 919, h: 8510 },
            Token::Green => Color { l: 8820, c: 1010, h: 13000 },
            Token::Teal => Color { l: 8341, c: 889, h: 17567 },
            Token::Blue => Color { l: 8240, c: 857, h: 20400 },
            Token::Purple => Color { l: 5720, c: 840, h: 29100 },
            Token::Pink => Color { l: 7699, c: 1315, h: 35849 },
            Token::Magenta => Color { l: 7800, c: 1287, h: 34500 },
            Token::Lavender => Color { l: 8004, c: 665, h: 29550 },
            Token::LightRed => Color { l: 8257, c: 934, h: 2169 },
            Token::LightOrange => Color { l: 8648, c: 666, h: 5180 },
            Token::LightYellow => Color { l: 9420, c: 545, h: 8991 },
            Token::LightGreen => Color { l: 9391, c: 601, h: 12695 },
            Token::LightTeal => Color { l: 9108, c: 508, h: 16788 },
            Token::LightBlue => Color { l: 9056, c: 455, h: 19296 },
            Token::LightPurple => Color { l: 7881, c: 282, h: 29263 },
            Token::LightPink => Color { l: 8774, c: 595, h: 395 },
            Token::DarkRed => Color { l: 4897, c: 1093, h: 1668 },
            Token::DarkOrange => Color { l: 5281, c: 722, h: 4157 },
            Token::DarkYellow => Color { l: 6104, c: 500, h: 8305 },
            Token::DarkGreen => Color { l: 6046, c: 518, h: 12890 },
            Token::DarkTeal => Color { l: 5769, c: 477, h: 17931 },
            Token::DarkBlue => Color { l: 5711, c: 485, h: 20870 },
            Token::DarkPurple => Color { l: 4368, c: 476, h: 29222 },
            Token::DarkPink => Color { l: 5425, c: 741, h: 35562 },
            Token::Base(s) => {
                proof {
                    lemma_lerp_in_range(
                        base_scale_position(s) as int,
                        self.params.base_lightness_start as int,
                        self.params.base_lightness_end as int,
                    );
                }
                let l = lerp(
                    s.value(),
                    self.params.base_lightness_start,
                    self.params.base_lightness_end,
                );
                Color { l, c: 0, h: 0 }
            },
        }
    }

    /// Resolves a position of the abstract base neutral scale.
    pub fn base(&self, s: BaseScale) -> (r: Color)
        requires
            params_wf(self.params),
        ensures
            r == token_color(self.params, Token::Base(s)),
            color_wf(r),
    {
        self.token(Token::Base(s))
    }

    /// Resolves the `black` token.
    pub fn black(&self) -> (r: Color)
        requires
            params_wf(self.params),
        ensures
            r == token_color(self.params, Token::Black),
            color_wf(r),
    {
        self.token(Token::Black)
    }

    /// Resolves the `one` token.
    pub fn one(&self) -> (r: Color)
        requires
            params_wf(self.params),
        ensures
            r == token_color(self.params, Token::One),
            color_wf(r),
    {
        self.token(Token::One)
    }

    /// Resolves the `two` token.
    pub fn two(&self) -> (r: Color)
        requires
            params_wf(self.params),
        ensures
            r == token_color(self.params, Token::Two),
            color_wf(r),
    {
        self.token(Token::Two)
    }

    /// Resolves the `four` token.
    pub fn four(&self) -> (r: Color)
        requires
            params_wf(self.params),
        ensures
            r == token_color(self.params, Token::Four),
            color_wf(r),
    {
        self.token(Token::Four)
    }

    /// Resolves the `six` token.
    pub fn six(&self) -> (r: Color)
        requires
            params_wf(self.params),
        ensures
            r == token_color(self.params, Token::Six),
            color_wf(r),
    {
        self.token(Token::Six)
    }

    /// Resolves the `seven` token.
    pub fn seven(&self) -> (r: Color)
        requires
            params_wf(self.params),
        ensures
            r == token_color(self.params, Token::Seven),
            color_wf(r),
    {
        self.token(Token::Seven)
    }

    /// Resolves the `eight` token.
    pub fn eight(&self) -> (r: Color)
        requires
            params_wf(self.params),
        ensures
            r == token_color(self.params, Token::Eight),
            color_wf(r),
    {
        self.token(Token::Eight)
    }

    /// Resolves the `nine` token.
    pub fn nine(&self) -> (r: Color)
        requires
            params_wf(self.params),
        ensures
            r == token_color(self.params, Token::Nine),
            color_wf(r),
    {
        self.token(Token::Nine)
    }

    /// Resolves the `ten` token.
    pub fn ten(&self) -> (r: Color)
        requires
            params_wf(self.params),
        ensures
            r == token_color(self.params, Token::Ten),
            color_wf(r),
    {
        self.token(Token::Ten)
    }

    /// Resolves the `eleven` token.
    pub fn eleven(&self) -> (r: Color)
        requires
            params_wf(self.params),
        ensures
            r == token_color(self.params, Token::Eleven),
            color_wf(r),
    {
        self.token(Token::Eleven)
    }

    /// Resolves the `white` token.
    pub fn white(&self) -> (r: Color)
        requires
            params_wf(self.params),
        ensures
            r == token_color(self.params, Token::White),
            color_wf(r),
    {
        self.token(Token::White)
    }

    /// Resolves the `red` token.
    pub fn red(&self) -> (r: Color)
        requires
            params_wf(self.params),
        ensures
            r == token_color(self.params, Token::Red),
            color_wf(r),
    {
        self.token(Token::Red)
    }

    /// Resolves the `orange` token.
    pub fn orange(&self) -> (r: Color)
        requires
            params_wf(self.params),
        ensures
            r == token_color(self.params, Token::Orange),
            color_wf(r),
    {
        self.token(Token::Orange)
    }

    /// Resolves the `yellow` token.
    pub fn yellow(&self) -> (r: Color)
        requires
            params_wf(self.params),
        ensures
            r == token_color(self.params, Token::Yellow),
            color_wf(r),
    {
        self.token(Token::Yellow)
    }

    /// Resolves the `green` token.
    pub fn green(&self) -> (r: Color)
        requires
            params_wf(self.params),
        ensures
            r == token_color(self.params, Token::Green),
            color_wf(r),
    {
        self.token(Token::Green)
    }

    /// Resolves the `teal` token.
    pub fn teal(&self) -> (r: Color)
        requires
            params_wf(self.params),
        ensures
            r == token_color(self.params, Token::Teal),
            color_wf(r),
    {
        self.token(Token::Teal)
    }

    /// Resolves the `blue` token.
    pub fn blue(&self) -> (r: Color)
        requires
            params_wf(self.params),
        ensures
            r == token_color(self.params, Token::Blue),
            color_wf(r),
    {
        self.token(Token::Blue)
    }

    /// Resolves the `purple` token.
    pub fn purple(&self) -> (r: Color)
        requires
            params_wf(self.params),
        ensures
            r == token_color(self.params, Token::Purple),
            color_wf(r),
    {
        self.token(Token::Purple)
    }

    /// Resolves the `pink` token.
    pub fn pink(&self) -> (r: Color)
        requires
            params_wf(self.params),
        ensures
            r == token_color(self.params, Token::Pink),
            color_wf(r),
    {
        self.token(Token::Pink)
    }

    /// Resolves the `magenta` token.
    pub fn magenta(&self) -> (r: Color)
        requires
            params_wf(self.params),
        ensures
            r == token_color(self.params, Token::Magenta),
            color_wf(r),
    {
        self.token(Token::Magenta)
    }

    /// Resolves the `lavender` token.
    pub fn lavender(&self) -> (r: Color)
        requires
            params_wf(self.params),
        ensures
            r == token_color(self.params, Token::Lavender),
            color_wf(r),
    {
        self.token(Token::Lavender)
    }

    /// Resolves the `light_red` token.
    pub fn light_red(&self) -> (r: Color)
        requires
            params_wf(self.params),
        ensures
            r == token_color(self.params, Token::LightRed),
            color_wf(r),
    {
        self.token(Token::LightRed)
    }

    /// Resolves the `light_orange` token.
    pub fn light_orange(&self) -> (r: Color)
        requires
            params_wf(self.params),
        ensures
            r == token_color(self.params, Token::LightOrange),
            color_wf(r),
    {
        self.token(Token::LightOrange)
    }

    /// Resolves the `light_yellow` token.
    pub fn light_yellow(&self) -> (r: Color)
        requires
            params_wf(self.params),
        ensures
            r == token_color(self.params, Token::LightYellow),
            color_wf(r),
    {
        self.token(Token::LightYellow)
    }

    /// Resolves the `light_green` token.
    pub fn light_green(&self) -> (r: Color)
        requires
            params_wf(self.params),
        ensures
            r == token_color(self.params, Token::LightGreen),
            color_wf(r),
    {
        self.token(Token::LightGreen)
    }

    /// Resolves the `light_teal` token.
    pub fn light_teal(&self) -> (r: Color)
        requires
            params_wf(self.params),
        ensures
            r == token_color(self.params, Token::LightTeal),
            color_wf(r),
    {
        self.token(Token::LightTeal)
    }

    /// Resolves the `light_blue` token.
    pub fn light_blue(&self) -> (r: Color)
        requires
            params_wf(self.params),
        ensures
            r == token_color(self.params, Token::LightBlue),
            color_wf(r),
    {
        self.token(Token::LightBlue)
    }

    /// Resolves the `light_purple` token.
    pub fn light_purple(&self) -> (r: Color)
        requires
            params_wf(self.params),
        ensures
            r == token_color(self.params, Token::LightPurple),
            color_wf(r),
    {
        self.token(Token::LightPurple)
    }

    /// Resolves the `light_pink` token.
    pub fn light_pink(&self) -> (r: Color)
        requires
            params_wf(self.params),
        ensures
            r == token_color(self.params, Token::LightPink),
            color_wf(r),
    {
        self.token(Token::LightPink)
    }

    /// Resolves the `dark_red` token.
    pub fn dark_red(&self) -> (r: Color)
        requires
            params_wf(self.params),
        ensures
            r == token_color(self.params, Token::DarkRed),
            color_wf(r),
    {
        self.token(Token::DarkRed)
    }

    /// Resolves the `dark_orange` token.
    pub fn dark_orange(&self) -> (r: Color)
        requires
            params_wf(self.params),
        ensures
            r == token_color(self.params, Token::DarkOrange),
            color_wf(r),
    {
        self.token(Token::DarkOrange)
    }

    /// Resolves the `dark_yellow` token.
    pub fn dark_yellow(&self) -> (r: Color)
        requires
            params_wf(self.params),
        ensures
            r == token_color(self.params, Token::DarkYellow),
            color_wf(r),
    {
        self.token(Token::DarkYellow)
    }

    /// Resolves the `dark_green` token.
    pub fn dark_green(&self) -> (r: Color)
        requires
            params_wf(self.params),
        ensures
            r == token_color(self.params, Token::DarkGreen),
            color_wf(r),
    {
        self.token(Token::DarkGreen)
    }

    /// Resolves the `dark_teal` token.
    pub fn dark_teal(&self) -> (r: Color)
        requires
            params_wf(self.params),
        ensures
            r == token_color(self.params, Token::DarkTeal),
            color_wf(r),
    {
        self.token(Token::DarkTeal)
    }

    /// Resolves the `dark_blue` token.
    pub fn dark_blue(&self) -> (r: Color)
        requires
            params_wf(self.params),
        ensures
            r == token_color(self.params, Token::DarkBlue),
            color_wf(r),
    {
        self.token(Token::DarkBlue)
    }

    /// Resolves the `dark_purple` token.
    pub fn dark_purple(&self) -> (r: Color)
        requires
            params_wf(self.params),
        ensures
            r == token_color(self.params, Token::DarkPurple),
            color_wf(r),
    {
        self.token(Token::DarkPurple)
    }

    /// Resolves the `dark_pink` token.
    pub fn dark_pink(&self) -> (r: Color)
        requires
            params_wf(self.params),
        ensures
            r == token_color(self.params, Token::DarkPink),
            color_wf(r),
    {
        self.token(Token::DarkPink)
    }
}

} // verus!
