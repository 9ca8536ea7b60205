//! The declared appearance variants and the generation driver.
//!
//! Exactly eight variants exist: plain, chroma, soft and soft-chroma, each
//! in a dark and a light orientation. Each variant is plain data — a base
//! to derive from plus a partial override set — so the derivation graph is
//! a DAG rooted at the canonical base definition.

use vstd::prelude::*;

use crate::color::color_wf;
use crate::palette::{
    apply_overrides, base_parameters, lemma_derive_preserves_wf, lemma_lerp_endpoints,
    lemma_token_color_wf, no_overrides, overrides_wf, params_wf, token_color, BaseScale, Palette,
    PaletteParameters, ParameterOverrides, Token,
};
use crate::rules::{build_rules, rules_match, table, Rule};

verus! {

/// The eight declared variants. The set and its naming are fixed, not
/// configurable.
#[derive(Clone, Copy, Debug, PartialEq, Eq, Structural)]
pub enum Variant {
    Plain,
    Chroma,
    Soft,
    SoftChroma,
    Light,
    LightChroma,
    LightSoft,
    LightSoftChroma,
}

/// The orientation tag of a variant: whether its base ramp runs dark to
/// light or the other way around.
#[derive(Clone, Copy, Debug, PartialEq, Eq, Structural)]
pub enum Orientation {
    Dark,
    Light,
}

/// The base each variant derives from; the plain variant is the root.
pub open spec fn variant_base(v: Variant) -> Option<Variant> {
    match v {
        Variant::Plain => None,
        Variant::Chroma => Some(Variant::Plain),
        Variant::Soft => Some(Variant::Plain),
        Variant::SoftChroma => Some(Variant::Chroma),
        Variant::Light => Some(Variant::Plain),
        Variant::LightChroma => Some(Variant::Chroma),
        Variant::LightSoft => Some(Variant::Light),
        Variant::LightSoftChroma => Some(Variant::LightChroma),
    }
}

/// The raised chroma tiers (and the headroom in `high_lightness` that
/// keeps boosted saturation inside the gamut) of the chroma variants.
pub open spec fn chroma_overrides() -> ParameterOverrides {
    ParameterOverrides {
        base_lightness_start: None,
        base_lightness_end: None,
        low_lightness: None,
        high_lightness: Some(9940),
        low_chroma: Some(500),
        medium_chroma: Some(1000),
        high_chroma: Some(1400),
    }
}

/// The compressed base ramp of the soft dark variants.
pub open spec fn soft_overrides() -> ParameterOverrides {
    ParameterOverrides {
        base_lightness_start: Some(2400),
        base_lightness_end: Some(9500),
        low_lightness: None,
        high_lightness: None,
        low_chroma: None,
        medium_chroma: None,
        high_chroma: None,
    }
}

/// The inverted base ramp of the light variants: the range start exceeds
/// its end, so the whole background/foreground ramp flips.
pub open spec fn light_overrides() -> ParameterOverrides {
    ParameterOverrides {
        base_lightness_start: Some(9880),
        base_lightness_end: Some(1700),
        low_lightness: None,
        high_lightness: None,
        low_chroma: None,
        medium_chroma: None,
        high_chroma: None,
    }
}

/// The inverted and compressed base ramp of the soft light variants.
pub open spec fn light_soft_overrides() -> ParameterOverrides {
    ParameterOverrides {
        base_lightness_start: Some(9500),
        base_lightness_end: Some(2400),
        low_lightness: None,
        high_lightness: None,
        low_chroma: None,
        medium_chroma: None,
        high_chroma: None,
    }
}

/// The override set each variant applies on top of its base.
pub open spec fn variant_overrides(v: Variant) -> ParameterOverrides {
    match v {
        Variant::Plain => no_overrides(),
        Variant::Chroma => chroma_overrides(),
        Variant::Soft => soft_overrides(),
        Variant::SoftChroma => soft_overrides(),
        Variant::Light => light_overrides(),
        Variant::LightChroma => light_overrides(),
        Variant::LightSoft => light_soft_overrides(),
        Variant::LightSoftChroma => light_soft_overrides(),
    }
}

/// The depth of a variant in the derivation DAG; every derivation chain
/// ends at the root after at most this many steps.
pub open spec fn variant_depth(v: Variant) -> nat {
    match v {
        Variant::Plain => 0,
        Variant::Chroma => 1,
        Variant::Soft => 1,
        Variant::SoftChroma => 2,
        Variant::Light => 1,
        Variant::LightChroma => 2,
        Variant::LightSoft => 2,
        Variant::LightSoftChroma => 3,
    }
}

/// The resolved parameters of a variant: its base's parameters, patched by
/// its own override set.
pub open spec fn variant_params(v: Variant) -> PaletteParameters
    decreases variant_depth(v),
{
    match variant_base(v) {
        None => base_parameters(),
        Some(b) => {
            if variant_depth(b) < variant_depth(v) {
                apply_overrides(variant_params(b), variant_overrides(v))
            } else {
                base_parameters()
            }
        },
    }
}

/// Every variant's override set stays within the valid axis ranges.
proof fn lemma_variant_overrides_wf(v: Variant)
    ensures
        overrides_wf(variant_overrides(v)),
{
}

/// Law: every declared variant, after applying its overrides, still
/// satisfies the parameter range invariants.
pub proof fn lemma_variant_params_wf(v: Variant)
    ensures
        params_wf(variant_params(v)),
    decreases variant_depth(v),
{
    match variant_base(v) {
        None => {},
        Some(b) => {
            if variant_depth(b) < variant_depth(v) {
                lemma_variant_params_wf(b);
                lemma_variant_overrides_wf(v);
                lemma_derive_preserves_wf(variant_params(b), variant_overrides(v));
            }
        },
    }
}

/// The orientation tag of each variant.
pub open spec fn variant_orientation(v: Variant) -> Orientation {
    match v {
        Variant::Plain => Orientation::Dark,
        Variant::Chroma => Orientation::Dark,
        Variant::Soft => Orientation::Dark,
        Variant::SoftChroma => Orientation::Dark,
        Variant::Light => Orientation::Light,
        Variant::LightChroma => Orientation::Light,
        Variant::LightSoft => Orientation::Light,
        Variant::LightSoftChroma => Orientation::Light,
    }
}

/// Law: the light variants invert the base ramp — the resolved lightness
/// at the background position exceeds the one at the bright-foreground
/// position — and the dark variants keep it the usual way around.
pub proof fn lemma_orientation_ramp(v: Variant)
    ensures
        variant_orientation(v) == Orientation::Light ==> variant_params(v).base_lightness_start
            > variant_params(v).base_lightness_end,
        variant_orientation(v) == Orientation::Dark ==> variant_params(v).base_lightness_start
            < variant_params(v).base_lightness_end,
{
    reveal_with_fuel(variant_params, 4);
}

/// The human-readable theme name each (variant, orientation) pair is
/// published under.
pub open spec fn variant_name(v: Variant) -> Seq<char> {
    match v {
        Variant::Plain => "lc"@,
        Variant::Chroma => "lc chroma"@,
        Variant::Soft => "lc soft"@,
        Variant::SoftChroma => "lc soft chroma"@,
        Variant::Light => "lc light"@,
        Variant::LightChroma => "lc light chroma"@,
        Variant::LightSoft => "lc light soft"@,
        Variant::LightSoftChroma => "lc light soft chroma"@,
    }
}

impl Variant {
    /// The base this variant derives from; see [`variant_base`].
    pub fn base(self) -> (b: Option<Variant>)
        ensures
            b == variant_base(self),
    {
        match self {
            Variant::Plain => None,
            Variant::Chroma => Some(Variant::Plain),
            Variant::Soft => Some(Variant::Plain),
            Variant::SoftChroma => Some(Variant::Chroma),
            Variant::Light => Some(Variant::Plain),
            Variant::LightChroma => Some(Variant::Chroma),
            Variant::LightSoft => Some(Variant::Light),
            Variant::LightSoftChroma => Some(Variant::LightChroma),
        }
    }

    /// The override set this variant applies; see [`variant_overrides`].
    pub fn overrides(self) -> (o: ParameterOverrides)
        ensures
            o == variant_overrides(self),
    {
        match self {
            Variant::Plain => ParameterOverrides {
                base_lightness_start: None,
                base_lightness_end: None,
                low_lightness: None,
                high_lightness: None,
                low_chroma: None,
                medium_chroma: None,
                high_chroma: None,
            },
            Variant::Chroma => ParameterOverrides {
                base_lightness_start: None,
                base_lightness_end: None,
                low_lightness: None,
                high_lightness: Some(9940),
                low_chroma: Some(500),
                medium_chroma: Some(1000),
                high_chroma: Some(1400),
            },
            Variant::Soft | Variant::SoftChroma => ParameterOverrides {
                base_lightness_start: Some(2400),
                base_lightness_end: Some(9500),
                low_lightness: None,
                high_lightness: None,
                low_chroma: None,
                medium_chroma: None,
                high_chroma: None,
            },
            Variant::Light | Variant::LightChroma => ParameterOverrides {
                base_lightness_start: Some(9880),
                base_lightness_end: Some(1700),
                low_lightness: None,
                high_lightness: None,
                low_chroma: None,
                medium_chroma: None,
                high_chroma: None,
            },
            Variant::LightSoft | Variant::LightSoftChroma => ParameterOverrides {
                base_lightness_start: Some(9500),
                base_lightness_end: Some(2400),
                low_lightness: None,
                high_lightness: None,
                low_chroma: None,
                medium_chroma: None,
                high_chroma: None,
            },
        }
    }

    /// The orientation tag; see [`variant_orientation`].
    pub fn orientation(self) -> (o: Orientation)
        ensures
            o == variant_orientation(self),
    {
        match self {
            Variant::Plain | Variant::Chroma | Variant::Soft | Variant::SoftChroma => {
                Orientation::Dark
            },
            Variant::Light | Variant::LightChroma | Variant::LightSoft
            | Variant::LightSoftChroma => Orientation::Light,
        }
    }

    /// Resolves the parameters of this variant by walking its derivation
    /// chain down to the root and patching overrides on the way back up.
    pub fn parameters(self) -> (p: PaletteParameters)
        ensures
            p == variant_params(self),
            params_wf(p),
        decreases variant_depth(self),
    {
        proof {
            lemma_variant_params_wf(self);
        }
        match self.base() {
            None => PaletteParameters::default(),
            Some(b) => {
                let base = b.parameters();
                crate::palette::derive(&base, &self.overrides())
            },
        }
    }

    /// The published theme name; see [`variant_name`].
    pub fn name(self) -> (r: &'static str)
        ensures
            r@ == variant_name(self),
    {
        match self {
            Variant::Plain => "lc",
            Variant::Chroma => "lc chroma",
            Variant::Soft => "lc soft",
            Variant::SoftChroma => "lc soft chroma",
            Variant::Light => "lc light",
            Variant::LightChroma => "lc light chroma",
            Variant::LightSoft => "lc light soft",
            Variant::LightSoftChroma => "lc light soft chroma",
        }
    }
}

/// The declared variants, in the order they are published.
pub open spec fn declared_variants() -> Seq<Variant> {
    seq![
        Variant::Plain,
        Variant::Chroma,
        Variant::Soft,
        Variant::SoftChroma,
        Variant::Light,
        Variant::LightChroma,
        Variant::LightSoft,
        Variant::LightSoftChroma,
    ]
}

/// Enumerates the declared variants; see [`declared_variants`].
pub fn all_variants() -> (vs: Vec<Variant>)
    ensures
        vs@ == declared_variants(),
{
    let vs = vec![
        Variant::Plain,
        Variant::Chroma,
        Variant::Soft,
        Variant::SoftChroma,
        Variant::Light,
        Variant::LightChroma,
        Variant::LightSoft,
        Variant::LightSoftChroma,
    ];
    proof {
        assert(vs@ =~= declared_variants());
    }
    vs
}

/// One finished theme: the published name, the orientation tag, and the
/// complete rule set, ready to hand to an external builder.
pub struct VariantTheme {
    pub name: &'static str,
    pub orientation: Orientation,
    pub rules: Vec<Rule>,
}

/// Generates the finished theme of one declared variant: instantiates the
/// variant's palette and runs the whole binding table against it.
pub fn generate_variant(v: Variant) -> (t: VariantTheme)
    ensures
        t.name@ == variant_name(v),
        t.orientation == variant_orientation(v),
        rules_match(variant_params(v), t.rules@, table()),
{
    let params = v.parameters();
    let palette = Palette::new(params);
    VariantTheme { name: v.name(), orientation: v.orientation(), rules: build_rules(&palette) }
}

/// Law: resolving any token name under any declared variant never leaves
/// the valid domain of the color space's axes.
pub proof fn lemma_variant_token_wf(v: Variant, t: Token)
    ensures
        color_wf(token_color(variant_params(v), t)),
{
    lemma_variant_params_wf(v);
    lemma_token_color_wf(variant_params(v), t);
}

/// Law: any light variant resolves a base-scale lightness at the
/// background position that exceeds the one at the bright-foreground
/// position (an inverted ramp); any dark variant resolves the reverse.
pub proof fn lemma_light_ramp_inverted(v: Variant)
    ensures
        variant_orientation(v) == Orientation::Light ==> token_color(
            variant_params(v),
            Token::Base(BaseScale::Bg),
        ).l > token_color(variant_params(v), Token::Base(BaseScale::BrightFg)).l,
        variant_orientation(v) == Orientation::Dark ==> token_color(
            variant_params(v),
            Token::Base(BaseScale::Bg),
        ).l < token_color(variant_params(v), Token::Base(BaseScale::BrightFg)).l,
{
    let p = variant_params(v);
    lemma_variant_params_wf(v);
    lemma_orientation_ramp(v);
    lemma_lerp_endpoints(p.base_lightness_start as int, p.base_lightness_end as int);
}

} // verus!
