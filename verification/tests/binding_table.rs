use lc_theme::color::Color;
use lc_theme::palette::{BaseScale, Palette, Token};
use lc_theme::rules::{build_rules, collect_scopes, scopes_are_distinct, FontStyle, Rule};
use lc_theme::scope::{scope_text, ScopeId, SemanticScope, TextmateScope, WorkspaceKey};
use lc_theme::variants::{all_variants, generate_variant, Orientation, Variant};

/// The color the rule set binds a literal identifier to, if any rule
/// names it.
fn color_of(rules: &[Rule], name: &str) -> Option<Color> {
    for rule in rules {
        for scope in &rule.scopes {
            if scope_text(*scope) == name {
                return rule.color;
            }
        }
    }
    None
}

#[test]
fn build_rules_is_nonempty_for_every_variant() {
    for variant in all_variants() {
        let theme = generate_variant(variant);
        assert!(!theme.rules.is_empty());
        assert_eq!(theme.rules.len(), 79);
    }
}

#[test]
fn every_rule_set_covers_the_whole_catalog() {
    for variant in all_variants() {
        let theme = generate_variant(variant);
        let scopes = collect_scopes(&theme.rules);
        assert_eq!(scopes.len(), 59 + 38 + 57);
        for name in [
            "editor.background",
            "foreground",
            "terminal.ansiBrightCyan",
            "rust_analyzer.inlayHints.foreground",
            "keyword",
            "*.mutable",
            "*.public.declaration",
            "magit-remote-ref-name",
            "invalid.illegal.line-too-long.git-commit",
            "storage.type.uintptr.go",
        ] {
            assert!(
                scopes.iter().any(|s| scope_text(*s) == name),
                "catalog key missing: {}",
                name
            );
        }
    }
}

#[test]
fn no_rule_set_binds_one_identifier_twice() {
    for variant in all_variants() {
        let theme = generate_variant(variant);
        assert!(scopes_are_distinct(&theme.rules));
    }
}

#[test]
fn a_duplicated_identifier_is_detected() {
    let plain = FontStyle { bold: false, italic: false, underline: false };
    let rules = vec![
        Rule {
            scopes: vec![ScopeId::Workspace(WorkspaceKey::FocusBorder)],
            color: None,
            font: plain,
        },
        Rule {
            scopes: vec![
                ScopeId::Semantic(SemanticScope::Keyword),
                ScopeId::Workspace(WorkspaceKey::FocusBorder),
            ],
            color: None,
            font: plain,
        },
    ];
    assert!(!scopes_are_distinct(&rules));
}

#[test]
fn inlay_hint_background_aliases_share_one_color() {
    for variant in all_variants() {
        let theme = generate_variant(variant);
        let base = color_of(&theme.rules, "editorInlayHint.background");
        assert!(base.is_some());
        for alias in [
            "editorInlayHint.parameterBackground",
            "editorInlayHint.typeBackground",
            "editor.background",
        ] {
            assert_eq!(color_of(&theme.rules, alias), base);
        }
    }
}

#[test]
fn plain_dark_binds_editor_background_like_inlay_hints() {
    let theme = generate_variant(Variant::Plain);
    let palette = Palette::new(Variant::Plain.parameters());
    let background = color_of(&theme.rules, "editor.background");
    assert_eq!(background, Some(palette.black()));
    assert_eq!(color_of(&theme.rules, "editorInlayHint.background"), background);
}

#[test]
fn light_variants_invert_the_base_ramp() {
    for variant in all_variants() {
        let palette = Palette::new(variant.parameters());
        let bg = palette.base(BaseScale::Bg).l;
        let fg = palette.base(BaseScale::BrightFg).l;
        match variant.orientation() {
            Orientation::Light => assert!(bg > fg),
            Orientation::Dark => assert!(bg < fg),
        }
    }
}

#[test]
fn comments_are_italic_and_unsafe_is_bold() {
    let theme = generate_variant(Variant::Plain);
    let palette = Palette::new(Variant::Plain.parameters());
    let mut comment_italic = false;
    let mut unsafe_bold = false;
    let mut mutable_underline = false;
    for rule in &theme.rules {
        for scope in &rule.scopes {
            if let ScopeId::Semantic(SemanticScope::Comment) = scope {
                comment_italic = rule.font.italic && rule.color == Some(palette.eight());
            }
            if let ScopeId::Semantic(SemanticScope::AnyUnsafe) = scope {
                unsafe_bold = rule.font.bold && rule.color == Some(palette.red());
            }
            if let ScopeId::Semantic(SemanticScope::AnyMutable) = scope {
                mutable_underline = rule.font.underline && rule.color.is_none();
            }
        }
    }
    assert!(comment_italic);
    assert!(unsafe_bold);
    assert!(mutable_underline);
}

#[test]
fn scope_identifiers_render_verbatim() {
    assert_eq!(
        scope_text(ScopeId::Workspace(WorkspaceKey::EditorGroupHeaderTabsBackground)),
        "editorGroupHeader.tabsBackground"
    );
    assert_eq!(
        scope_text(ScopeId::Workspace(WorkspaceKey::RustAnalyzerInlayHintsForeground)),
        "rust_analyzer.inlayHints.foreground"
    );
    assert_eq!(scope_text(ScopeId::Semantic(SemanticScope::AnyControlFlow)), "*.controlFlow");
    assert_eq!(scope_text(ScopeId::Semantic(SemanticScope::MagitTagName)), "magit-tag-name");
    assert_eq!(
        scope_text(ScopeId::Textmate(TextmateScope::EntityNameTypeTypeParameter)),
        "entity.name.type.type-parameter"
    );
    assert_eq!(
        scope_text(ScopeId::Textmate(TextmateScope::CommentLineNumberSignGitCommit)),
        "comment.line.number-sign.git-commit"
    );
}

#[test]
fn terminal_ansi_palette_is_bound_exactly() {
    let theme = generate_variant(Variant::Plain);
    let palette = Palette::new(Variant::Plain.parameters());
    assert_eq!(color_of(&theme.rules, "terminal.ansiRed"), Some(palette.red()));
    assert_eq!(color_of(&theme.rules, "terminal.ansiBrightGreen"), Some(palette.light_green()));
    assert_eq!(color_of(&theme.rules, "terminal.ansiCyan"), Some(palette.lavender()));
    assert_eq!(color_of(&theme.rules, "terminal.ansiBrightWhite"), Some(palette.white()));
}

#[test]
fn keyword_scopes_resolve_to_the_red_token() {
    let theme = generate_variant(Variant::Plain);
    let palette = Palette::new(Variant::Plain.parameters());
    assert_eq!(color_of(&theme.rules, "keyword"), Some(palette.token(Token::Red)));
    assert_eq!(color_of(&theme.rules, "keyword.control"), Some(palette.orange()));
    assert_eq!(color_of(&theme.rules, "constant.numeric"), Some(palette.magenta()));
}

#[test]
fn themes_are_published_under_their_fixed_names() {
    let names: Vec<&str> = all_variants().into_iter().map(|v| generate_variant(v).name).collect();
    assert_eq!(
        names,
        vec![
            "lc",
            "lc chroma",
            "lc soft",
            "lc soft chroma",
            "lc light",
            "lc light chroma",
            "lc light soft",
            "lc light soft chroma",
        ]
    );
    for variant in all_variants() {
        let theme = generate_variant(variant);
        let light = theme.name.contains("light");
        match theme.orientation {
            Orientation::Light => assert!(light),
            Orientation::Dark => assert!(!light),
        }
    }
}

#[test]
fn variant_derivation_follows_the_declared_dag() {
    let plain = Variant::Plain.parameters();
    let soft = Variant::Soft.parameters();
    assert_eq!(soft.base_lightness_start, 2400);
    assert_eq!(soft.base_lightness_end, 9500);
    assert_eq!(soft.high_chroma, plain.high_chroma);

    let chroma = Variant::Chroma.parameters();
    assert_eq!(chroma.high_chroma, 1400);
    assert_eq!(chroma.high_lightness, 9940);
    assert_eq!(chroma.base_lightness_start, plain.base_lightness_start);

    let light = Variant::Light.parameters();
    assert_eq!(light.base_lightness_start, 9880);
    assert_eq!(light.base_lightness_end, 1700);

    let light_soft_chroma = Variant::LightSoftChroma.parameters();
    assert_eq!(light_soft_chroma.base_lightness_start, 9500);
    assert_eq!(light_soft_chroma.base_lightness_end, 2400);
    assert_eq!(light_soft_chroma.high_chroma, 1400);
    assert_eq!(light_soft_chroma.low_chroma, 500);
}
