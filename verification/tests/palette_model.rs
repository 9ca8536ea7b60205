use lc_theme::color::{Color, CHROMA_MAX, LIGHTNESS_MAX};
use lc_theme::palette::{lerp, BaseScale, Palette, PaletteParameters, ParameterOverrides, Token};

fn base_params() -> PaletteParameters {
    PaletteParameters::default()
}

fn empty_overrides() -> ParameterOverrides {
    ParameterOverrides::default()
}

fn all_tokens() -> Vec<Token> {
    let mut tokens = vec![
        Token::Black,
        Token::One,
        Token::Two,
        Token::Four,
        Token::Six,
        Token::Seven,
        Token::Eight,
        Token::Nine,
        Token::Ten,
        Token::Eleven,
        Token::White,
        Token::Red,
        Token::Orange,
        Token::Yellow,
        Token::Green,
        Token::Teal,
        Token::Blue,
        Token::Purple,
        Token::Pink,
        Token::Magenta,
        Token::Lavender,
        Token::LightRed,
        Token::LightOrange,
        Token::LightYellow,
        Token::LightGreen,
        Token::LightTeal,
        Token::LightBlue,
        Token::LightPurple,
        Token::LightPink,
        Token::DarkRed,
        Token::DarkOrange,
        Token::DarkYellow,
        Token::DarkGreen,
        Token::DarkTeal,
        Token::DarkBlue,
        Token::DarkPurple,
        Token::DarkPink,
    ];
    for scale in [
        BaseScale::Bg,
        BaseScale::LightBg,
        BaseScale::LighterBg,
        BaseScale::DarkFg,
        BaseScale::DimFg,
        BaseScale::Fg,
        BaseScale::BrightFg,
    ] {
        tokens.push(Token::Base(scale));
    }
    tokens
}

fn all_variants_list() -> Vec<lc_theme::variants::Variant> {
    lc_theme::variants::all_variants()
}

#[test]
fn derive_with_empty_overrides_is_identity() {
    let base = base_params();
    let derived = lc_theme::palette::derive(&base, &empty_overrides());
    assert_eq!(derived, base);
}

#[test]
fn derive_replaces_exactly_the_named_fields() {
    let base = base_params();
    let mut overrides = empty_overrides();
    overrides.high_lightness = Some(9940);
    overrides.high_chroma = Some(1400);
    let derived = lc_theme::palette::derive(&base, &overrides);
    assert_eq!(derived.high_lightness, 9940);
    assert_eq!(derived.high_chroma, 1400);
    assert_eq!(derived.base_lightness_start, base.base_lightness_start);
    assert_eq!(derived.base_lightness_end, base.base_lightness_end);
    assert_eq!(derived.low_lightness, base.low_lightness);
    assert_eq!(derived.low_chroma, base.low_chroma);
    assert_eq!(derived.medium_chroma, base.medium_chroma);
}

#[test]
fn lerp_hits_the_range_start_at_position_zero() {
    assert_eq!(lerp(0, 1700, 9880), 1700);
    assert_eq!(lerp(0, 9880, 1700), 9880);
    assert_eq!(lerp(0, 0, 10000), 0);
}

#[test]
fn lerp_hits_the_range_end_at_the_full_position() {
    assert_eq!(lerp(10000, 1700, 9880), 9880);
    assert_eq!(lerp(10000, 9880, 1700), 1700);
    assert_eq!(lerp(10000, 10000, 0), 0);
}

#[test]
fn lerp_interpolates_exactly() {
    assert_eq!(lerp(5000, 0, 10000), 5000);
    // 1700 + 1000 * (9880 - 1700) / 10000 = 1700 + 818
    assert_eq!(lerp(1000, 1700, 9880), 2518);
    // inverted: 9880 - 2500 * (9880 - 1700) / 10000 = 9880 - 2045
    assert_eq!(lerp(2500, 9880, 1700), 7835);
}

#[test]
fn base_scale_positions_are_fixed() {
    assert_eq!(BaseScale::Bg.value(), 0);
    assert_eq!(BaseScale::LightBg.value(), 1000);
    assert_eq!(BaseScale::LighterBg.value(), 2500);
    assert_eq!(BaseScale::DarkFg.value(), 3500);
    assert_eq!(BaseScale::DimFg.value(), 6000);
    assert_eq!(BaseScale::Fg.value(), 8500);
    assert_eq!(BaseScale::BrightFg.value(), 10000);
}

#[test]
fn literal_tokens_resolve_to_their_fixed_points() {
    let palette = Palette::new(base_params());
    assert_eq!(palette.black(), Color { l: 2898, c: 83, h: 31772 });
    assert_eq!(palette.six(), Color { l: 6497, c: 132, h: 1750 });
    assert_eq!(palette.white(), Color { l: 9947, c: 184, h: 11333 });
    assert_eq!(palette.red(), Color { l: 6880, c: 1950, h: 2060 });
    assert_eq!(palette.lavender(), Color { l: 8004, c: 665, h: 29550 });
    assert_eq!(palette.magenta(), Color { l: 7800, c: 1287, h: 34500 });
    assert_eq!(palette.dark_pink(), Color { l: 5425, c: 741, h: 35562 });
}

#[test]
fn literal_tokens_ignore_parameter_overrides() {
    let plain = Palette::new(base_params());
    let light = Palette::new(lc_theme::variants::Variant::LightSoftChroma.parameters());
    for token in all_tokens() {
        if !matches!(token, Token::Base(_)) {
            assert_eq!(plain.token(token), light.token(token));
        }
    }
}

#[test]
fn base_scale_tokens_follow_the_lightness_range() {
    let palette = Palette::new(base_params());
    let bg = palette.base(BaseScale::Bg);
    assert_eq!(bg, Color { l: 1700, c: 0, h: 0 });
    let fg = palette.base(BaseScale::BrightFg);
    assert_eq!(fg, Color { l: 9880, c: 0, h: 0 });
}

#[test]
fn every_token_of_every_variant_stays_in_range() {
    for variant in all_variants_list() {
        let params = variant.parameters();
        assert!(params.is_well_formed());
        let palette = Palette::new(params);
        for token in all_tokens() {
            let color = palette.token(token);
            assert!(color.is_well_formed());
            assert!(color.l <= LIGHTNESS_MAX);
            assert!(color.c <= CHROMA_MAX);
        }
    }
}

#[test]
fn out_of_range_parameters_are_rejected_by_validation() {
    let mut params = base_params();
    params.base_lightness_start = LIGHTNESS_MAX + 1;
    assert!(!params.is_well_formed());
    let mut params = base_params();
    params.high_chroma = CHROMA_MAX + 1;
    assert!(!params.is_well_formed());
    assert!(base_params().is_well_formed());
}
