//! The binding table: a fixed, literal enumeration of rules, each binding
//! a set of scope identifiers to one palette token and/or a style
//! modifier. The table is applied identically to every palette instance.
//!
//! Aliased identifiers (keys that share one meaning) stand together in a
//! single rule, so they can never drift apart across edits.

use vstd::prelude::*;

use crate::color::Color;
use crate::palette::{params_wf, token_color, Palette, PaletteParameters, Token};
use crate::scope::{ScopeId, SemanticScope, TextmateScope, WorkspaceKey};

verus! {

/// Style modifiers a rule may carry beside or instead of a color:
/// independently combinable flags, not mutually exclusive.
#[derive(Clone, Copy, Debug, PartialEq, Eq, Structural)]
pub struct FontStyle {
    pub bold: bool,
    pub italic: bool,
    pub underline: bool,
}

/// A finished binding: one or more scope identifiers, an optional
/// resolved color, and a style modifier set.
pub struct Rule {
    pub scopes: Vec<ScopeId>,
    pub color: Option<Color>,
    pub font: FontStyle,
}

/// One row of the fixed binding table, before token resolution: the
/// scope alias set, the token it is bound to (if any), and the style.
pub struct Entry {
    pub scopes: Seq<ScopeId>,
    pub token: Option<Token>,
    pub font: FontStyle,
}

/// The color a table row resolves to under the given parameters.
pub open spec fn entry_color(p: PaletteParameters, e: Entry) -> Option<Color> {
    match e.token {
        Some(t) => Some(token_color(p, t)),
        None => None,
    }
}

/// A produced rule realizes a table row: same alias set, the row's token
/// resolved under the given parameters, and the same style.
pub open spec fn rule_matches(p: PaletteParameters, r: Rule, e: Entry) -> bool {
    &&& r.scopes@ == e.scopes
    &&& r.color == entry_color(p, e)
    &&& r.font == e.font
}

/// A produced rule sequence realizes a table section, row by row.
pub open spec fn rules_match(p: PaletteParameters, rs: Seq<Rule>, es: Seq<Entry>) -> bool {
    &&& rs.len() == es.len()
    &&& forall|i: int| 0 <= i < es.len() ==> rule_matches(p, #[trigger] rs[i], es[i])
}

/// The workspace section of the table: bindings for the editor's UI
/// chrome.
pub open spec fn workspace_entries() -> Seq<Entry> {
    seq![
        Entry {
            scopes: seq![
                ScopeId::Workspace(WorkspaceKey::EditorBackground),
                ScopeId::Workspace(WorkspaceKey::EditorInlayHintBackground),
                ScopeId::Workspace(WorkspaceKey::EditorInlayHintParameterBackground),
                ScopeId::Workspace(WorkspaceKey::EditorInlayHintTypeBackground),
            ],
            token: Some(Token::Black),
            font: FontStyle { bold: false, italic: false, underline: false },
        },
        Entry {
            scopes: seq![
                ScopeId::Workspace(WorkspaceKey::EditorForeground),
                ScopeId::Workspace(WorkspaceKey::Foreground),
            ],
            token: Some(Token::Six),
            font: FontStyle { bold: false, italic: false, underline: false },
        },
        Entry {
            scopes: seq![
                ScopeId::Workspace(WorkspaceKey::EditorLineHighlightBackground),
            ],
            token: Some(Token::One),
            font: FontStyle { bold: false, italic: false, underline: false },
        },
        Entry {
            scopes: seq![
                ScopeId::Workspace(WorkspaceKey::EditorSelectionBackground),
            ],
            token: Some(Token::Two),
            font: FontStyle { bold: false, italic: false, underline: false },
        },
        Entry {
            scopes: seq![
                ScopeId::Workspace(WorkspaceKey::EditorCursorForeground),
                ScopeId::Workspace(WorkspaceKey::TerminalCursorForeground),
            ],
            token: Some(Token::White),
            font: FontStyle { bold: false, italic: false, underline: false },
        },
        Entry {
            scopes: seq![
                ScopeId::Workspace(WorkspaceKey::EditorCursorBackground),
                ScopeId::Workspace(WorkspaceKey::TerminalCursorBackground),
            ],
            token: Some(Token::Black),
            font: FontStyle { bold: false, italic: false, underline: false },
        },
        Entry {
            scopes: seq![
                ScopeId::Workspace(WorkspaceKey::ActivityBarBackground),
                ScopeId::Workspace(WorkspaceKey::SideBarBackground),
            ],
            token: Some(Token::Black),
            font: FontStyle { bold: false, italic: false, underline: false },
        },
        Entry {
            scopes: seq![
                ScopeId::Workspace(WorkspaceKey::ActivityBarForeground),
            ],
            token: Some(Token::White),
            font: FontStyle { bold: false, italic: false, underline: false },
        },
        Entry {
            scopes: seq![
                ScopeId::Workspace(WorkspaceKey::ActivityBarInactiveForeground),
            ],
            token: Some(Token::Four),
            font: FontStyle { bold: false, italic: false, underline: false },
        },
        Entry {
            scopes: seq![
                ScopeId::Workspace(WorkspaceKey::StatusBarForeground),
            ],
            token: Some(Token::Four),
            font: FontStyle { bold: false, italic: false, underline: false },
        },
        Entry {
            scopes: seq![
                ScopeId::Workspace(WorkspaceKey::StatusBarBackground),
                ScopeId::Workspace(WorkspaceKey::StatusBarDebuggingBackground),
                ScopeId::Workspace(WorkspaceKey::StatusBarNoFolderBackground),
            ],
            token: Some(Token::Black),
            font: FontStyle { bold: false, italic: false, underline: false },
        },
        Entry {
            scopes: seq![
                ScopeId::Workspace(WorkspaceKey::EditorLineNumberForeground),
            ],
            token: Some(Token::Four),
            font: FontStyle { bold: false, italic: false, underline: false },
        },
        Entry {
            scopes: seq![
                ScopeId::Workspace(WorkspaceKey::EditorLineNumberActiveForeground),
            ],
            token: Some(Token::White),
            font: FontStyle { bold: false, italic: false, underline: false },
        },
        Entry {
            scopes: seq![
                ScopeId::Workspace(WorkspaceKey::EditorWidgetBackground),
            ],
            token: Some(Token::One),
            font: FontStyle { bold: false, italic: false, underline: false },
        },
        Entry {
            scopes: seq![
                ScopeId::Workspace(WorkspaceKey::ListHighlightForeground),
            ],
            token: Some(Token::White),
            font: FontStyle { bold: false, italic: false, underline: false },
        },
        Entry {
            scopes: seq![
                ScopeId::Workspace(WorkspaceKey::ListFocusBackground),
                ScopeId::Workspace(WorkspaceKey::ListActiveSelectionBackground),
            ],
            token: Some(Token::Two),
            font: FontStyle { bold: false, italic: false, underline: false },
        },
        Entry {
            scopes: seq![
                ScopeId::Workspace(WorkspaceKey::EditorGroupHeaderTabsBackground),
                ScopeId::Workspace(WorkspaceKey::TabInactiveBackground),
            ],
            token: Some(Token::Black),
            font: FontStyle { bold: false, italic: false, underline: false },
        },
        Entry {
            scopes: seq![
                ScopeId::Workspace(WorkspaceKey::TabActiveBackground),
            ],
            token: Some(Token::One),
            font: FontStyle { bold: false, italic: false, underline: false },
        },
        Entry {
            scopes: seq![
                ScopeId::Workspace(WorkspaceKey::TabInactiveForeground),
            ],
            token: Some(Token::Four),
            font: FontStyle { bold: false, italic: false, underline: false },
        },
        Entry {
            scopes: seq![
                ScopeId::Workspace(WorkspaceKey::TabActiveForeground),
            ],
            token: Some(Token::White),
            font: FontStyle { bold: false, italic: false, underline: false },
        },
        Entry {
            scopes: seq![
                ScopeId::Workspace(WorkspaceKey::TitleBarActiveBackground),
                ScopeId::Workspace(WorkspaceKey::TitleBarInactiveBackground),
            ],
            token: Some(Token::Black),
            font: FontStyle { bold: false, italic: false, underline: false },
        },
        Entry {
            scopes: seq![
                ScopeId::Workspace(WorkspaceKey::TitleBarActiveForeground),
            ],
            token: Some(Token::Six),
            font: FontStyle { bold: false, italic: false, underline: false },
        },
        Entry {
            scopes: seq![
                ScopeId::Workspace(WorkspaceKey::TitleBarInactiveForeground),
            ],
            token: Some(Token::Four),
            font: FontStyle { bold: false, italic: false, underline: false },
        },
        Entry {
            scopes: seq![
                ScopeId::Workspace(WorkspaceKey::BreadcrumbForeground),
            ],
            token: Some(Token::Four),
            font: FontStyle { bold: false, italic: false, underline: false },
        },
        Entry {
            scopes: seq![
                ScopeId::Workspace(WorkspaceKey::BreadcrumbFocusForeground),
            ],
            token: Some(Token::White),
            font: FontStyle { bold: false, italic: false, underline: false },
        },
        Entry {
            scopes: seq![
                ScopeId::Workspace(WorkspaceKey::TerminalForeground),
            ],
            token: Some(Token::Six),
            font: FontStyle { bold: false, italic: false, underline: false },
        },
        Entry {
            scopes: seq![
                ScopeId::Workspace(WorkspaceKey::TerminalAnsiBlack),
            ],
            token: Some(Token::One),
            font: FontStyle { bold: false, italic: false, underline: false },
        },
        Entry {
            scopes: seq![
                ScopeId::Workspace(WorkspaceKey::TerminalAnsiBrightBlack),
            ],
            token: Some(Token::Four),
            font: FontStyle { bold: false, italic: false, underline: false },
        },
        Entry {
            scopes: seq![
                ScopeId::Workspace(WorkspaceKey::TerminalAnsiRed),
            ],
            token: Some(Token::Red),
            font: FontStyle { bold: false, italic: false, underline: false },
        },
        Entry {
            scopes: seq![
                ScopeId::Workspace(WorkspaceKey::TerminalAnsiBrightRed),
            ],
            token: Some(Token::Red),
            font: FontStyle { bold: false, italic: false, underline: false },
        },
        Entry {
            scopes: seq![
                ScopeId::Workspace(WorkspaceKey::TerminalAnsiGreen),
            ],
            token: Some(Token::Green),
            font: FontStyle { bold: false, italic: false, underline: false },
        },
        Entry {
            scopes: seq![
                ScopeId::Workspace(WorkspaceKey::TerminalAnsiBrightGreen),
            ],
            token: Some(Token::LightGreen),
            font: FontStyle { bold: false, italic: false, underline: false },
        },
        Entry {
            scopes: seq![
                ScopeId::Workspace(WorkspaceKey::TerminalAnsiYellow),
            ],
            token: Some(Token::Yellow),
            font: FontStyle { bold: false, italic: false, underline: false },
        },
        Entry {
            scopes: seq![
                ScopeId::Workspace(WorkspaceKey::TerminalAnsiBrightYellow),
            ],
            token: Some(Token::Yellow),
            font: FontStyle { bold: false, italic: false, underline: false },
        },
        Entry {
            scopes: seq![
                ScopeId::Workspace(WorkspaceKey::TerminalAnsiBlue),
            ],
            token: Some(Token::Blue),
            font: FontStyle { bold: false, italic: false, underline: false },
        },
        Entry {
            scopes: seq![
                ScopeId::Workspace(WorkspaceKey::TerminalAnsiBrightBlue),
            ],
            token: Some(Token::LightBlue),
            font: FontStyle { bold: false, italic: false, underline: false },
        },
        Entry {
            scopes: seq![
                ScopeId::Workspace(WorkspaceKey::TerminalAnsiMagenta),
            ],
            token: Some(Token::Pink),
            font: FontStyle { bold: false, italic: false, underline: false },
        },
        Entry {
            scopes: seq![
                ScopeId::Workspace(WorkspaceKey::TerminalAnsiBrightMagenta),
            ],
            token: Some(Token::Pink),
            font: FontStyle { bold: false, italic: false, underline: false },
        },
        Entry {
            scopes: seq![
                ScopeId::Workspace(WorkspaceKey::TerminalAnsiCyan),
            ],
            token: Some(Token::Lavender),
            font: FontStyle { bold: false, italic: false, underline: false },
        },
        Entry {
            scopes: seq![
                ScopeId::Workspace(WorkspaceKey::TerminalAnsiBrightCyan),
            ],
            token: Some(Token::Lavender),
            font: FontStyle { bold: false, italic: false, underline: false },
        },
        Entry {
            scopes: seq![
                ScopeId::Workspace(WorkspaceKey::TerminalAnsiWhite),
            ],
            token: Some(Token::Six),
            font: FontStyle { bold: false, italic: false, underline: false },
        },
        Entry {
            scopes: seq![
                ScopeId::Workspace(WorkspaceKey::TerminalAnsiBrightWhite),
            ],
            token: Some(Token::White),
            font: FontStyle { bold: false, italic: false, underline: false },
        },
        Entry {
            scopes: seq![
                ScopeId::Workspace(WorkspaceKey::FocusBorder),
            ],
            token: Some(Token::Black),
            font: FontStyle { bold: false, italic: false, underline: false },
        },
        Entry {
            scopes: seq![
                ScopeId::Workspace(WorkspaceKey::RustAnalyzerInlayHintsForeground),
                ScopeId::Workspace(WorkspaceKey::EditorInlayHintForeground),
                ScopeId::Workspace(WorkspaceKey::EditorInlayHintParameterForeground),
                ScopeId::Workspace(WorkspaceKey::EditorInlayHintTypeForeground),
            ],
            token: Some(Token::Four),
            font: FontStyle { bold: false, italic: false, underline: false },
        },
    ]
}

/// The syntax section of the table: bindings for semantic and textmate
/// highlighting scopes.
pub open spec fn syntax_entries() -> Seq<Entry> {
    seq![
        Entry {
            scopes: seq![
                ScopeId::Semantic(SemanticScope::Keyword),
                ScopeId::Textmate(TextmateScope::Keyword),
                ScopeId::Textmate(TextmateScope::Storage),
                ScopeId::Textmate(TextmateScope::VariableLanguageSelf),
                ScopeId::Textmate(TextmateScope::VariableLanguageThis),
                ScopeId::Textmate(TextmateScope::KeywordTypeGo),
            ],
            token: Some(Token::Red),
            font: FontStyle { bold: false, italic: false, underline: false },
        },
        Entry {
            scopes: seq![
                ScopeId::Semantic(SemanticScope::AnyControlFlow),
                ScopeId::Textmate(TextmateScope::KeywordControl),
            ],
            token: Some(Token::Orange),
            font: FontStyle { bold: false, italic: false, underline: false },
        },
        Entry {
            scopes: seq![
                ScopeId::Semantic(SemanticScope::FunctionTrait),
                ScopeId::Semantic(SemanticScope::MethodTrait),
            ],
            token: Some(Token::Orange),
            font: FontStyle { bold: false, italic: false, underline: false },
        },
        Entry {
            scopes: seq![
                ScopeId::Semantic(SemanticScope::Type),
                ScopeId::Semantic(SemanticScope::Class),
                ScopeId::Semantic(SemanticScope::Struct),
                ScopeId::Semantic(SemanticScope::Enum),
                ScopeId::Semantic(SemanticScope::Union),
                ScopeId::Semantic(SemanticScope::TypeAlias),
                ScopeId::Semantic(SemanticScope::BuiltinType),
                ScopeId::Textmate(TextmateScope::EntityNameType),
                ScopeId::Textmate(TextmateScope::KeywordType),
                ScopeId::Textmate(TextmateScope::StorageTypeCs),
                ScopeId::Textmate(TextmateScope::StorageTypeJava),
                ScopeId::Textmate(TextmateScope::StorageTypeBooleanGo),
                ScopeId::Textmate(TextmateScope::StorageTypeByteGo),
                ScopeId::Textmate(TextmateScope::StorageTypeErrorGo),
                ScopeId::Textmate(TextmateScope::StorageTypeNumericGo),
                ScopeId::Textmate(TextmateScope::StorageTypeRuneGo),
                ScopeId::Textmate(TextmateScope::StorageTypeStringGo),
                ScopeId::Textmate(TextmateScope::StorageTypeUintptrGo),
            ],
            token: Some(Token::Yellow),
            font: FontStyle { bold: false, italic: false, underline: false },
        },
        Entry {
            scopes: seq![
                ScopeId::Semantic(SemanticScope::Interface),
                ScopeId::Semantic(SemanticScope::TypeAliasTrait),
                ScopeId::Semantic(SemanticScope::TypeParameter),
                ScopeId::Textmate(TextmateScope::EntityNameTypeInterface),
                ScopeId::Textmate(TextmateScope::EntityNameTypeTypeParameter),
            ],
            token: Some(Token::Orange),
            font: FontStyle { bold: false, italic: false, underline: false },
        },
        Entry {
            scopes: seq![
                ScopeId::Semantic(SemanticScope::VariableConstant),
                ScopeId::Semantic(SemanticScope::VariableStatic),
                ScopeId::Textmate(TextmateScope::Constant),
            ],
            token: Some(Token::Pink),
            font: FontStyle { bold: false, italic: false, underline: false },
        },
        Entry {
            scopes: seq![
                ScopeId::Semantic(SemanticScope::VariableConstantTrait),
            ],
            token: Some(Token::Blue),
            font: FontStyle { bold: false, italic: false, underline: false },
        },
        Entry {
            scopes: seq![
                ScopeId::Semantic(SemanticScope::Number),
                ScopeId::Textmate(TextmateScope::ConstantNumeric),
            ],
            token: Some(Token::Magenta),
            font: FontStyle { bold: false, italic: false, underline: false },
        },
        Entry {
            scopes: seq![
                ScopeId::Semantic(SemanticScope::Str),
                ScopeId::Semantic(SemanticScope::CharacterLiteral),
                ScopeId::Textmate(TextmateScope::Str),
            ],
            token: Some(Token::Green),
            font: FontStyle { bold: false, italic: false, underline: false },
        },
        Entry {
            scopes: seq![
                ScopeId::Semantic(SemanticScope::Property),
                ScopeId::Textmate(TextmateScope::EntityNameVariableField),
                ScopeId::Textmate(TextmateScope::EntityNameVariableProperty),
                ScopeId::Textmate(TextmateScope::VariableOtherMember),
                ScopeId::Textmate(TextmateScope::VariableOtherObjectProperty),
                ScopeId::Textmate(TextmateScope::VariableOtherReadwriteInstance),
                ScopeId::Textmate(TextmateScope::SupportTypePropertyName),
            ],
            token: Some(Token::Lavender),
            font: FontStyle { bold: false, italic: false, underline: false },
        },
        Entry {
            scopes: seq![
                ScopeId::Semantic(SemanticScope::EnumMember),
                ScopeId::Semantic(SemanticScope::Boolean),
                ScopeId::Textmate(TextmateScope::EntityNameVariableEnumMember),
                ScopeId::Textmate(TextmateScope::ConstantOtherEnum),
                ScopeId::Textmate(TextmateScope::VariableOtherEnummember),
                ScopeId::Textmate(TextmateScope::EntityNameTypeOption),
                ScopeId::Textmate(TextmateScope::EntityNameTypeResult),
            ],
            token: Some(Token::Lavender),
            font: FontStyle { bold: false, italic: false, underline: false },
        },
        Entry {
            scopes: seq![
                ScopeId::Semantic(SemanticScope::Macro),
                ScopeId::Textmate(TextmateScope::EntityNameFunctionMacro),
                ScopeId::Textmate(TextmateScope::EntityNameFunctionPreprocessor),
            ],
            token: Some(Token::LightGreen),
            font: FontStyle { bold: false, italic: false, underline: false },
        },
        Entry {
            scopes: seq![
                ScopeId::Semantic(SemanticScope::FormatSpecifier),
                ScopeId::Semantic(SemanticScope::EscapeSequence),
                ScopeId::Textmate(TextmateScope::ConstantOtherPlaceholder),
                ScopeId::Textmate(TextmateScope::PunctuationDefinitionInterpolation),
                ScopeId::Textmate(TextmateScope::PunctuationSectionEmbedded),
                ScopeId::Textmate(TextmateScope::ConstantCharacterEscape),
            ],
            token: Some(Token::Lavender),
            font: FontStyle { bold: false, italic: false, underline: false },
        },
        Entry {
            scopes: seq![
                ScopeId::Semantic(SemanticScope::Lifetime),
            ],
            token: Some(Token::Blue),
            font: FontStyle { bold: false, italic: false, underline: false },
        },
        Entry {
            scopes: seq![
                ScopeId::Semantic(SemanticScope::Comment),
                ScopeId::Textmate(TextmateScope::Comment),
            ],
            token: Some(Token::Eight),
            font: FontStyle { bold: false, italic: true, underline: false },
        },
        Entry {
            scopes: seq![
                ScopeId::Semantic(SemanticScope::CommentDocumentation),
                ScopeId::Textmate(TextmateScope::CommentLineDocumentation),
                ScopeId::Textmate(TextmateScope::CommentBlockDocumentation),
                ScopeId::Textmate(TextmateScope::CommentBlockJavadoc),
            ],
            token: Some(Token::Eight),
            font: FontStyle { bold: false, italic: false, underline: false },
        },
        Entry {
            scopes: seq![
                ScopeId::Semantic(SemanticScope::AnyAttribute),
                ScopeId::Textmate(TextmateScope::EntityNameFunctionDecorator),
                ScopeId::Textmate(TextmateScope::StorageTypeAnnotation),
                ScopeId::Textmate(TextmateScope::PunctuationDefinitionAnnotation),
            ],
            token: Some(Token::Four),
            font: FontStyle { bold: false, italic: false, underline: false },
        },
        Entry {
            scopes: seq![
                ScopeId::Textmate(TextmateScope::KeywordOperator),
            ],
            token: Some(Token::Six),
            font: FontStyle { bold: false, italic: false, underline: false },
        },
        Entry {
            scopes: seq![
                ScopeId::Semantic(SemanticScope::UnresolvedReference),
            ],
            token: Some(Token::Red),
            font: FontStyle { bold: false, italic: false, underline: false },
        },
        Entry {
            scopes: seq![
                ScopeId::Textmate(TextmateScope::MarkupDeleted),
            ],
            token: Some(Token::Red),
            font: FontStyle { bold: false, italic: false, underline: false },
        },
        Entry {
            scopes: seq![
                ScopeId::Textmate(TextmateScope::MarkupInserted),
            ],
            token: Some(Token::Green),
            font: FontStyle { bold: false, italic: false, underline: false },
        },
        Entry {
            scopes: seq![
                ScopeId::Textmate(TextmateScope::MarkupChanged),
            ],
            token: Some(Token::Orange),
            font: FontStyle { bold: false, italic: false, underline: false },
        },
        Entry {
            scopes: seq![
                ScopeId::Textmate(TextmateScope::MetaDiff),
            ],
            token: Some(Token::Four),
            font: FontStyle { bold: false, italic: false, underline: false },
        },
        Entry {
            scopes: seq![
                ScopeId::Textmate(TextmateScope::CommentLineNumberSignGitCommit),
            ],
            token: Some(Token::Four),
            font: FontStyle { bold: false, italic: false, underline: false },
        },
        Entry {
            scopes: seq![
                ScopeId::Textmate(TextmateScope::InvalidDeprecatedLineTooLongGitCommit),
            ],
            token: Some(Token::Pink),
            font: FontStyle { bold: false, italic: false, underline: false },
        },
        Entry {
            scopes: seq![
                ScopeId::Textmate(TextmateScope::InvalidIllegalLineTooLongGitCommit),
            ],
            token: Some(Token::Red),
            font: FontStyle { bold: false, italic: false, underline: false },
        },
        Entry {
            scopes: seq![
                ScopeId::Semantic(SemanticScope::MagitRefName),
                ScopeId::Semantic(SemanticScope::MagitRemoteRefName),
            ],
            token: Some(Token::Yellow),
            font: FontStyle { bold: false, italic: false, underline: false },
        },
        Entry {
            scopes: seq![
                ScopeId::Semantic(SemanticScope::MagitTagName),
            ],
            token: Some(Token::Magenta),
            font: FontStyle { bold: false, italic: false, underline: false },
        },
        Entry {
            scopes: seq![
                ScopeId::Textmate(TextmateScope::MagitEntity),
            ],
            token: Some(Token::Green),
            font: FontStyle { bold: false, italic: false, underline: false },
        },
        Entry {
            scopes: seq![
                ScopeId::Textmate(TextmateScope::MagitHeader),
            ],
            token: Some(Token::Red),
            font: FontStyle { bold: false, italic: false, underline: false },
        },
        Entry {
            scopes: seq![
                ScopeId::Textmate(TextmateScope::MagitSubheader),
            ],
            token: Some(Token::Orange),
            font: FontStyle { bold: false, italic: false, underline: false },
        },
        Entry {
            scopes: seq![
                ScopeId::Semantic(SemanticScope::AnyUnsafe),
            ],
            token: Some(Token::Red),
            font: FontStyle { bold: true, italic: false, underline: false },
        },
        Entry {
            scopes: seq![
                ScopeId::Semantic(SemanticScope::AnyMutable),
            ],
            token: None,
            font: FontStyle { bold: false, italic: false, underline: true },
        },
        Entry {
            scopes: seq![
                ScopeId::Semantic(SemanticScope::AnyConsuming),
            ],
            token: None,
            font: FontStyle { bold: false, italic: true, underline: false },
        },
        Entry {
            scopes: seq![
                ScopeId::Semantic(SemanticScope::AnyPublicDeclaration),
            ],
            token: Some(Token::Magenta),
            font: FontStyle { bold: false, italic: false, underline: false },
        },
    ]
}

/// The whole binding table, workspace section first.
pub open spec fn table() -> Seq<Entry> {
    workspace_entries() + syntax_entries()
}

/// Produces the workspace section of the rule set; one rule per row of
/// [`workspace_entries`].
pub fn workspace_colors(palette: &Palette) -> (rules: Vec<Rule>)
    requires
        params_wf(palette.params),
    ensures
        rules_match(palette.params, rules@, workspace_entries()),
{
    let rules = vec![
        Rule {
            scopes: vec![
                ScopeId::Workspace(WorkspaceKey::EditorBackground),
                ScopeId::Workspace(WorkspaceKey::EditorInlayHintBackground),
                ScopeId::Workspace(WorkspaceKey::EditorInlayHintParameterBackground),
                ScopeId::Workspace(WorkspaceKey::EditorInlayHintTypeBackground),
            ],
            color: Some(palette.token(Token::Black)),
            font: FontStyle { bold: false, italic: false, underline: false },
        },
        Rule {
            scopes: vec![
                ScopeId::Workspace(WorkspaceKey::EditorForeground),
                ScopeId::Workspace(WorkspaceKey::Foreground),
            ],
            color: Some(palette.token(Token::Six)),
            font: FontStyle { bold: false, italic: false, underline: false },
        },
        Rule {
            scopes: vec![
                ScopeId::Workspace(WorkspaceKey::EditorLineHighlightBackground),
            ],
            color: Some(palette.token(Token::One)),
            font: FontStyle { bold: false, italic: false, underline: false },
        },
        Rule {
            scopes: vec![
                ScopeId::Workspace(WorkspaceKey::EditorSelectionBackground),
            ],
            color: Some(palette.token(Token::Two)),
            font: FontStyle { bold: false, italic: false, underline: false },
        },
        Rule {
            scopes: vec![
                ScopeId::Workspace(WorkspaceKey::EditorCursorForeground),
                ScopeId::Workspace(WorkspaceKey::TerminalCursorForeground),
            ],
            color: Some(palette.token(Token::White)),
            font: FontStyle { bold: false, italic: false, underline: false },
        },
        Rule {
            scopes: vec![
                ScopeId::Workspace(WorkspaceKey::EditorCursorBackground),
                ScopeId::Workspace(WorkspaceKey::TerminalCursorBackground),
            ],
            color: Some(palette.token(Token::Black)),
            font: FontStyle { bold: false, italic: false, underline: false },
        },
        Rule {
            scopes: vec![
                ScopeId::Workspace(WorkspaceKey::ActivityBarBackground),
                ScopeId::Workspace(WorkspaceKey::SideBarBackground),
            ],
            color: Some(palette.token(Token::Black)),
            font: FontStyle { bold: false, italic: false, underline: false },
        },
        Rule {
            scopes: vec![
                ScopeId::Workspace(WorkspaceKey::ActivityBarForeground),
            ],
            color: Some(palette.token(Token::White)),
            font: FontStyle { bold: false, italic: false, underline: false },
        },
        Rule {
            scopes: vec![
                ScopeId::Workspace(WorkspaceKey::ActivityBarInactiveForeground),
            ],
            color: Some(palette.token(Token::Four)),
            font: FontStyle { bold: false, italic: false, underline: false },
        },
        Rule {
            scopes: vec![
                ScopeId::Workspace(WorkspaceKey::StatusBarForeground),
            ],
            color: Some(palette.token(Token::Four)),
            font: FontStyle { bold: false, italic: false, underline: false },
        },
        Rule {
            scopes: vec![
                ScopeId::Workspace(WorkspaceKey::StatusBarBackground),
                ScopeId::Workspace(WorkspaceKey::StatusBarDebuggingBackground),
                ScopeId::Workspace(WorkspaceKey::StatusBarNoFolderBackground),
            ],
            color: Some(palette.token(Token::Black)),
            font: FontStyle { bold: false, italic: false, underline: false },
        },
        Rule {
            scopes: vec![
                ScopeId::Workspace(WorkspaceKey::EditorLineNumberForeground),
            ],
            color: Some(palette.token(Token::Four)),
            font: FontStyle { bold: false, italic: false, underline: false },
        },
        Rule {
            scopes: vec![
                ScopeId::Workspace(WorkspaceKey::EditorLineNumberActiveForeground),
            ],
            color: Some(palette.token(Token::White)),
            font: FontStyle { bold: false, italic: false, underline: false },
        },
        Rule {
            scopes: vec![
                ScopeId::Workspace(WorkspaceKey::EditorWidgetBackground),
            ],
            color: Some(palette.token(Token::One)),
            font: FontStyle { bold: false, italic: false, underline: false },
        },
        Rule {
            scopes: vec![
                ScopeId::Workspace(WorkspaceKey::ListHighlightForeground),
            ],
            color: Some(palette.token(Token::White)),
            font: FontStyle { bold: false, italic: false, underline: false },
        },
        Rule {
            scopes: vec![
                ScopeId::Workspace(WorkspaceKey::ListFocusBackground),
                ScopeId::Workspace(WorkspaceKey::ListActiveSelectionBackground),
            ],
            color: Some(palette.token(Token::Two)),
            font: FontStyle { bold: false, italic: false, underline: false },
        },
        Rule {
            scopes: vec![
                ScopeId::Workspace(WorkspaceKey::EditorGroupHeaderTabsBackground),
                ScopeId::Workspace(WorkspaceKey::TabInactiveBackground),
            ],
            color: Some(palette.token(Token::Black)),
            font: FontStyle { bold: false, italic: false, underline: false },
        },
        Rule {
            scopes: vec![
                ScopeId::Workspace(WorkspaceKey::TabActiveBackground),
            ],
            color: Some(palette.token(Token::One)),
            font: FontStyle { bold: false, italic: false, underline: false },
        },
        Rule {
            scopes: vec![
                ScopeId::Workspace(WorkspaceKey::TabInactiveForeground),
            ],
            color: Some(palette.token(Token::Four)),
            font: FontStyle { bold: false, italic: false, underline: false },
        },
        Rule {
            scopes: vec![
                ScopeId::Workspace(WorkspaceKey::TabActiveForeground),
            ],
            color: Some(palette.token(Token::White)),
            font: FontStyle { bold: false, italic: false, underline: false },
        },
        Rule {
            scopes: vec![
                ScopeId::Workspace(WorkspaceKey::TitleBarActiveBackground),
                ScopeId::Workspace(WorkspaceKey::TitleBarInactiveBackground),
            ],
            color: Some(palette.token(Token::Black)),
            font: FontStyle { bold: false, italic: false, underline: false },
        },
        Rule {
            scopes: vec![
                ScopeId::Workspace(WorkspaceKey::TitleBarActiveForeground),
            ],
            color: Some(palette.token(Token::Six)),
            font: FontStyle { bold: false, italic: false, underline: false },
        },
        Rule {
            scopes: vec![
                ScopeId::Workspace(WorkspaceKey::TitleBarInactiveForeground),
            ],
            color: Some(palette.token(Token::Four)),
            font: FontStyle { bold: false, italic: false, underline: false },
        },
        Rule {
            scopes: vec![
                ScopeId::Workspace(WorkspaceKey::BreadcrumbForeground),
            ],
            color: Some(palette.token(Token::Four)),
            font: FontStyle { bold: false, italic: false, underline: false },
        },
        Rule {
            scopes: vec![
                ScopeId::Workspace(WorkspaceKey::BreadcrumbFocusForeground),
            ],
            color: Some(palette.token(Token::White)),
            font: FontStyle { bold: false, italic: false, underline: false },
        },
        Rule {
            scopes: vec![
                ScopeId::Workspace(WorkspaceKey::TerminalForeground),
            ],
            color: Some(palette.token(Token::Six)),
            font: FontStyle { bold: false, italic: false, underline: false },
        },
        Rule {
            scopes: vec![
                ScopeId::Workspace(WorkspaceKey::TerminalAnsiBlack),
            ],
            color: Some(palette.token(Token::One)),
            font: FontStyle { bold: false, italic: false, underline: false },
        },
        Rule {
            scopes: vec![
                ScopeId::Workspace(WorkspaceKey::TerminalAnsiBrightBlack),
            ],
            color: Some(palette.token(Token::Four)),
            font: FontStyle { bold: false, italic: false, underline: false },
        },
        Rule {
            scopes: vec![
                ScopeId::Workspace(WorkspaceKey::TerminalAnsiRed),
            ],
            color: Some(palette.token(Token::Red)),
            font: FontStyle { bold: false, italic: false, underline: false },
        },
        Rule {
            scopes: vec![
                ScopeId::Workspace(WorkspaceKey::TerminalAnsiBrightRed),
            ],
            color: Some(palette.token(Token::Red)),
            font: FontStyle { bold: false, italic: false, underline: false },
        },
        Rule {
            scopes: vec![
                ScopeId::Workspace(WorkspaceKey::TerminalAnsiGreen),
            ],
            color: Some(palette.token(Token::Green)),
            font: FontStyle { bold: false, italic: false, underline: false },
        },
        Rule {
            scopes: vec![
                ScopeId::Workspace(WorkspaceKey::TerminalAnsiBrightGreen),
            ],
            color: Some(palette.token(Token::LightGreen)),
            font: FontStyle { bold: false, italic: false, underline: false },
        },
        Rule {
            scopes: vec![
                ScopeId::Workspace(WorkspaceKey::TerminalAnsiYellow),
            ],
            color: Some(palette.token(Token::Yellow)),
            font: FontStyle { bold: false, italic: false, underline: false },
        },
        Rule {
            scopes: vec![
                ScopeId::Workspace(WorkspaceKey::TerminalAnsiBrightYellow),
            ],
            color: Some(palette.token(Token::Yellow)),
            font: FontStyle { bold: false, italic: false, underline: false },
        },
        Rule {
            scopes: vec![
                ScopeId::Workspace(WorkspaceKey::TerminalAnsiBlue),
            ],
            color: Some(palette.token(Token::Blue)),
            font: FontStyle { bold: false, italic: false, underline: false },
        },
        Rule {
            scopes: vec![
                ScopeId::Workspace(WorkspaceKey::TerminalAnsiBrightBlue),
            ],
            color: Some(palette.token(Token::LightBlue)),
            font: FontStyle { bold: false, italic: false, underline: false },
        },
        Rule {
            scopes: vec![
                ScopeId::Workspace(WorkspaceKey::TerminalAnsiMagenta),
            ],
            color: Some(palette.token(Token::Pink)),
            font: FontStyle { bold: false, italic: false, underline: false },
        },
        Rule {
            scopes: vec![
                ScopeId::Workspace(WorkspaceKey::TerminalAnsiBrightMagenta),
            ],
            color: Some(palette.token(Token::Pink)),
            font: FontStyle { bold: false, italic: false, underline: false },
        },
        Rule {
            scopes: vec![
                ScopeId::Workspace(WorkspaceKey::TerminalAnsiCyan),
            ],
            color: Some(palette.token(Token::Lavender)),
            font: FontStyle { bold: false, italic: false, underline: false },
        },
        Rule {
            scopes: vec![
                ScopeId::Workspace(WorkspaceKey::TerminalAnsiBrightCyan),
            ],
            color: Some(palette.token(Token::Lavender)),
            font: FontStyle { bold: false, italic: false, underline: false },
        },
        Rule {
            scopes: vec![
                ScopeId::Workspace(WorkspaceKey::TerminalAnsiWhite),
            ],
            color: Some(palette.token(Token::Six)),
            font: FontStyle { bold: false, italic: false, underline: false },
        },
        Rule {
            scopes: vec![
                ScopeId::Workspace(WorkspaceKey::TerminalAnsiBrightWhite),
            ],
            color: Some(palette.token(Token::White)),
            font: FontStyle { bold: false, italic: false, underline: false },
        },
        Rule {
            scopes: vec![
                ScopeId::Workspace(WorkspaceKey::FocusBorder),
            ],
            color: Some(palette.token(Token::Black)),
            font: FontStyle { bold: false, italic: false, underline: false },
        },
        Rule {
            scopes: vec![
                ScopeId::Workspace(WorkspaceKey::RustAnalyzerInlayHintsForeground),
                ScopeId::Workspace(WorkspaceKey::EditorInlayHintForeground),
                ScopeId::Workspace(WorkspaceKey::EditorInlayHintParameterForeground),
                ScopeId::Workspace(WorkspaceKey::EditorInlayHintTypeForeground),
            ],
            color: Some(palette.token(Token::Four)),
            font: FontStyle { bold: false, italic: false, underline: false },
        },
    ];
    proof {
        assert(rules@[0].scopes@ =~= workspace_entries()[0].scopes);
        assert(rules@[1].scopes@ =~= workspace_entries()[1].scopes);
        assert(rules@[2].scopes@ =~= workspace_entries()[2].scopes);
        assert(rules@[3].scopes@ =~= workspace_entries()[3].scopes);
        assert(rules@[4].scopes@ =~= workspace_entries()[4].scopes);
        assert(rules@[5].scopes@ =~= workspace_entries()[5].scopes);
        assert(rules@[6].scopes@ =~= workspace_entries()[6].scopes);
        assert(rules@[7].scopes@ =~= workspace_entries()[7].scopes);
        assert(rules@[8].scopes@ =~= workspace_entries()[8].scopes);
        assert(rules@[9].scopes@ =~= workspace_entries()[9].scopes);
        assert(rules@[10].scopes@ =~= workspace_entries()[10].scopes);
        assert(rules@[11].scopes@ =~= workspace_entries()[11].scopes);
        assert(rules@[12].scopes@ =~= workspace_entries()[12].scopes);
        assert(rules@[13].scopes@ =~= workspace_entries()[13].scopes);
        assert(rules@[14].scopes@ =~= workspace_entries()[14].scopes);
        assert(rules@[15].scopes@ =~= workspace_entries()[15].scopes);
        assert(rules@[16].scopes@ =~= workspace_entries()[16].scopes);
        assert(rules@[17].scopes@ =~= workspace_entries()[17].scopes);
        assert(rules@[18].scopes@ =~= workspace_entries()[18].scopes);
        assert(rules@[19].scopes@ =~= workspace_entries()[19].scopes);
        assert(rules@[20].scopes@ =~= workspace_entries()[20].scopes);
        assert(rules@[21].scopes@ =~= workspace_entries()[21].scopes);
        assert(rules@[22].scopes@ =~= workspace_entries()[22].scopes);
        assert(rules@[23].scopes@ =~= workspace_entries()[23].scopes);
        assert(rules@[24].scopes@ =~= workspace_entries()[24].scopes);
        assert(rules@[25].scopes@ =~= workspace_entries()[25].scopes);
        assert(rules@[26].scopes@ =~= workspace_entries()[26].scopes);
        assert(rules@[27].scopes@ =~= workspace_entries()[27].scopes);
        assert(rules@[28].scopes@ =~= workspace_entries()[28].scopes);
        assert(rules@[29].scopes@ =~= workspace_entries()[29].scopes);
        assert(rules@[30].scopes@ =~= workspace_entries()[30].scopes);
        assert(rules@[31].scopes@ =~= workspace_entries()[31].scopes);
        assert(rules@[32].scopes@ =~= workspace_entries()[32].scopes);
        assert(rules@[33].scopes@ =~= workspace_entries()[33].scopes);
        assert(rules@[34].scopes@ =~= workspace_entries()[34].scopes);
        assert(rules@[35].scopes@ =~= workspace_entries()[35].scopes);
        assert(rules@[36].scopes@ =~= workspace_entries()[36].scopes);
        assert(rules@[37].scopes@ =~= workspace_entries()[37].scopes);
        assert(rules@[38].scopes@ =~= workspace_entries()[38].scopes);
        assert(rules@[39].scopes@ =~= workspace_entries()[39].scopes);
        assert(rules@[40].scopes@ =~= workspace_entries()[40].scopes);
        assert(rules@[41].scopes@ =~= workspace_entries()[41].scopes);
        assert(rules@[42].scopes@ =~= workspace_entries()[42].scopes);
        assert(rules@[43].scopes@ =~= workspace_entries()[43].scopes);
    }
    rules
}

/// Produces the syntax section of the rule set; one rule per row of
/// [`syntax_entries`].
pub fn syntax_highlighting(palette: &Palette) -> (rules: Vec<Rule>)
    requires
        params_wf(palette.params),
    ensures
        rules_match(palette.params, rules@, syntax_entries()),
{
    let rules = vec![
        Rule {
            scopes: vec![
                ScopeId::Semantic(SemanticScope::Keyword),
                ScopeId::Textmate(TextmateScope::Keyword),
                ScopeId::Textmate(TextmateScope::Storage),
                ScopeId::Textmate(TextmateScope::VariableLanguageSelf),
                ScopeId::Textmate(TextmateScope::VariableLanguageThis),
                ScopeId::Textmate(TextmateScope::KeywordTypeGo),
            ],
            color: Some(palette.token(Token::Red)),
            font: FontStyle { bold: false, italic: false, underline: false },
        },
        Rule {
            scopes: vec![
                ScopeId::Semantic(SemanticScope::AnyControlFlow),
                ScopeId::Textmate(TextmateScope::KeywordControl),
            ],
            color: Some(palette.token(Token::Orange)),
            font: FontStyle { bold: false, italic: false, underline: false },
        },
        Rule {
            scopes: vec![
                ScopeId::Semantic(SemanticScope::FunctionTrait),
                ScopeId::Semantic(SemanticScope::MethodTrait),
            ],
            color: Some(palette.token(Token::Orange)),
            font: FontStyle { bold: false, italic: false, underline: false },
        },
        Rule {
            scopes: vec![
                ScopeId::Semantic(SemanticScope::Type),
                ScopeId::Semantic(SemanticScope::Class),
                ScopeId::Semantic(SemanticScope::Struct),
                ScopeId::Semantic(SemanticScope::Enum),
                ScopeId::Semantic(SemanticScope::Union),
                ScopeId::Semantic(SemanticScope::TypeAlias),
                ScopeId::Semantic(SemanticScope::BuiltinType),
                ScopeId::Textmate(TextmateScope::EntityNameType),
                ScopeId::Textmate(TextmateScope::KeywordType),
                ScopeId::Textmate(TextmateScope::StorageTypeCs),
                ScopeId::Textmate(TextmateScope::StorageTypeJava),
                ScopeId::Textmate(TextmateScope::StorageTypeBooleanGo),
                ScopeId::Textmate(TextmateScope::StorageTypeByteGo),
                ScopeId::Textmate(TextmateScope::StorageTypeErrorGo),
                ScopeId::Textmate(TextmateScope::StorageTypeNumericGo),
                ScopeId::Textmate(TextmateScope::StorageTypeRuneGo),
                ScopeId::Textmate(TextmateScope::StorageTypeStringGo),
                ScopeId::Textmate(TextmateScope::StorageTypeUintptrGo),
            ],
            color: Some(palette.token(Token::Yellow)),
            font: FontStyle { bold: false, italic: false, underline: false },
        },
        Rule {
            scopes: vec![
                ScopeId::Semantic(SemanticScope::Interface),
                ScopeId::Semantic(SemanticScope::TypeAliasTrait),
                ScopeId::Semantic(SemanticScope::TypeParameter),
                ScopeId::Textmate(TextmateScope::EntityNameTypeInterface),
                ScopeId::Textmate(TextmateScope::EntityNameTypeTypeParameter),
            ],
            color: Some(palette.token(Token::Orange)),
            font: FontStyle { bold: false, italic: false, underline: false },
        },
        Rule {
            scopes: vec![
                ScopeId::Semantic(SemanticScope::VariableConstant),
                ScopeId::Semantic(SemanticScope::VariableStatic),
                ScopeId::Textmate(TextmateScope::Constant),
            ],
            color: Some(palette.token(Token::Pink)),
            font: FontStyle { bold: false, italic: false, underline: false },
        },
        Rule {
            scopes: vec![
                ScopeId::Semantic(SemanticScope::VariableConstantTrait),
            ],
            color: Some(palette.token(Token::Blue)),
            font: FontStyle { bold: false, italic: false, underline: false },
        },
        Rule {
            scopes: vec![
                ScopeId::Semantic(SemanticScope::Number),
                ScopeId::Textmate(TextmateScope::ConstantNumeric),
            ],
            color: Some(palette.token(Token::Magenta)),
            font: FontStyle { bold: false, italic: false, underline: false },
        },
        Rule {
            scopes: vec![
                ScopeId::Semantic(SemanticScope::Str),
                ScopeId::Semantic(SemanticScope::CharacterLiteral),
                ScopeId::Textmate(TextmateScope::Str),
            ],
            color: Some(palette.token(Token::Green)),
            font: FontStyle { bold: false, italic: false, underline: false },
        },
        Rule {
            scopes: vec![
                ScopeId::Semantic(SemanticScope::Property),
                ScopeId::Textmate(TextmateScope::EntityNameVariableField),
                ScopeId::Textmate(TextmateScope::EntityNameVariableProperty),
                ScopeId::Textmate(TextmateScope::VariableOtherMember),
                ScopeId::Textmate(TextmateScope::VariableOtherObjectProperty),
                ScopeId::Textmate(TextmateScope::VariableOtherReadwriteInstance),
                ScopeId::Textmate(TextmateScope::SupportTypePropertyName),
            ],
            color: Some(palette.token(Token::Lavender)),
            font: FontStyle { bold: false, italic: false, underline: false },
        },
        Rule {
            scopes: vec![
                ScopeId::Semantic(SemanticScope::EnumMember),
                ScopeId::Semantic(SemanticScope::Boolean),
                ScopeId::Textmate(TextmateScope::EntityNameVariableEnumMember),
                ScopeId::Textmate(TextmateScope::ConstantOtherEnum),
                ScopeId::Textmate(TextmateScope::VariableOtherEnummember),
                ScopeId::Textmate(TextmateScope::EntityNameTypeOption),
                ScopeId::Textmate(TextmateScope::EntityNameTypeResult),
            ],
            color: Some(palette.token(Token::Lavender)),
            font: FontStyle { bold: false, italic: false, underline: false },
        },
        Rule {
            scopes: vec![
                ScopeId::Semantic(SemanticScope::Macro),
                ScopeId::Textmate(TextmateScope::EntityNameFunctionMacro),
                ScopeId::Textmate(TextmateScope::EntityNameFunctionPreprocessor),
            ],
            color: Some(palette.token(Token::LightGreen)),
            font: FontStyle { bold: false, italic: false, underline: false },
        },
        Rule {
            scopes: vec![
                ScopeId::Semantic(SemanticScope::FormatSpecifier),
                ScopeId::Semantic(SemanticScope::EscapeSequence),
                ScopeId::Textmate(TextmateScope::ConstantOtherPlaceholder),
                ScopeId::Textmate(TextmateScope::PunctuationDefinitionInterpolation),
                ScopeId::Textmate(TextmateScope::PunctuationSectionEmbedded),
                ScopeId::Textmate(TextmateScope::ConstantCharacterEscape),
            ],
            color: Some(palette.token(Token::Lavender)),
            font: FontStyle { bold: false, italic: false, underline: false },
        },
        Rule {
            scopes: vec![
                ScopeId::Semantic(SemanticScope::Lifetime),
            ],
            color: Some(palette.token(Token::Blue)),
            font: FontStyle { bold: false, italic: false, underline: false },
        },
        Rule {
            scopes: vec![
                ScopeId::Semantic(SemanticScope::Comment),
                ScopeId::Textmate(TextmateScope::Comment),
            ],
            color: Some(palette.token(Token::Eight)),
            font: FontStyle { bold: false, italic: true, underline: false },
        },
        Rule {
            scopes: vec![
                ScopeId::Semantic(SemanticScope::CommentDocumentation),
                ScopeId::Textmate(TextmateScope::CommentLineDocumentation),
                ScopeId::Textmate(TextmateScope::CommentBlockDocumentation),
                ScopeId::Textmate(TextmateScope::CommentBlockJavadoc),
            ],
            color: Some(palette.token(Token::Eight)),
            font: FontStyle { bold: false, italic: false, underline: false },
        },
        Rule {
            scopes: vec![
                ScopeId::Semantic(SemanticScope::AnyAttribute),
                ScopeId::Textmate(TextmateScope::EntityNameFunctionDecorator),
                ScopeId::Textmate(TextmateScope::StorageTypeAnnotation),
                ScopeId::Textmate(TextmateScope::PunctuationDefinitionAnnotation),
            ],
            color: Some(palette.token(Token::Four)),
            font: FontStyle { bold: false, italic: false, underline: false },
        },
        Rule {
            scopes: vec![
                ScopeId::Textmate(TextmateScope::KeywordOperator),
            ],
            color: Some(palette.token(Token::Six)),
            font: FontStyle { bold: false, italic: false, underline: false },
        },
        Rule {
            scopes: vec![
                ScopeId::Semantic(SemanticScope::UnresolvedReference),
            ],
            color: Some(palette.token(Token::Red)),
            font: FontStyle { bold: false, italic: false, underline: false },
        },
        Rule {
            scopes: vec![
                ScopeId::Textmate(TextmateScope::MarkupDeleted),
            ],
            color: Some(palette.token(Token::Red)),
            font: FontStyle { bold: false, italic: false, underline: false },
        },
        Rule {
            scopes: vec![
                ScopeId::Textmate(TextmateScope::MarkupInserted),
            ],
            color: Some(palette.token(Token::Green)),
            font: FontStyle { bold: false, italic: false, underline: false },
        },
        Rule {
            scopes: vec![
                ScopeId::Textmate(TextmateScope::MarkupChanged),
            ],
            color: Some(palette.token(Token::Orange)),
            font: FontStyle { bold: false, italic: false, underline: false },
        },
        Rule {
            scopes: vec![
                ScopeId::Textmate(TextmateScope::MetaDiff),
            ],
            color: Some(palette.token(Token::Four)),
            font: FontStyle { bold: false, italic: false, underline: false },
        },
        Rule {
            scopes: vec![
                ScopeId::Textmate(TextmateScope::CommentLineNumberSignGitCommit),
            ],
            color: Some(palette.token(Token::Four)),
            font: FontStyle { bold: false, italic: false, underline: false },
        },
        Rule {
            scopes: vec![
                ScopeId::Textmate(TextmateScope::InvalidDeprecatedLineTooLongGitCommit),
            ],
            color: Some(palette.token(Token::Pink)),
            font: FontStyle { bold: false, italic: false, underline: false },
        },
        Rule {
            scopes: vec![
                ScopeId::Textmate(TextmateScope::InvalidIllegalLineTooLongGitCommit),
            ],
            color: Some(palette.token(Token::Red)),
            font: FontStyle { bold: false, italic: false, underline: false },
        },
        Rule {
            scopes: vec![
                ScopeId::Semantic(SemanticScope::MagitRefName),
                ScopeId::Semantic(SemanticScope::MagitRemoteRefName),
            ],
            color: Some(palette.token(Token::Yellow)),
            font: FontStyle { bold: false, italic: false, underline: false },
        },
        Rule {
            scopes: vec![
                ScopeId::Semantic(SemanticScope::MagitTagName),
            ],
            color: Some(palette.token(Token::Magenta)),
            font: FontStyle { bold: false, italic: false, underline: false },
        },
        Rule {
            scopes: vec![
                ScopeId::Textmate(TextmateScope::MagitEntity),
            ],
            color: Some(palette.token(Token::Green)),
            font: FontStyle { bold: false, italic: false, underline: false },
        },
        Rule {
            scopes: vec![
                ScopeId::Textmate(TextmateScope::MagitHeader),
            ],
            color: Some(palette.token(Token::Red)),
            font: FontStyle { bold: false, italic: false, underline: false },
        },
        Rule {
            scopes: vec![
                ScopeId::Textmate(TextmateScope::MagitSubheader),
            ],
            color: Some(palette.token(Token::Orange)),
            font: FontStyle { bold: false, italic: false, underline: false },
        },
        Rule {
            scopes: vec![
                ScopeId::Semantic(SemanticScope::AnyUnsafe),
            ],
            color: Some(palette.token(Token::Red)),
            font: FontStyle { bold: true, italic: false, underline: false },
        },
        Rule {
            scopes: vec![
                ScopeId::Semantic(SemanticScope::AnyMutable),
            ],
            color: None,
            font: FontStyle { bold: false, italic: false, underline: true },
        },
        Rule {
            scopes: vec![
                ScopeId::Semantic(SemanticScope::AnyConsuming),
            ],
            color: None,
            font: FontStyle { bold: false, italic: true, underline: false },
        },
        Rule {
            scopes: vec![
                ScopeId::Semantic(SemanticScope::AnyPublicDeclaration),
            ],
            color: Some(palette.token(Token::Magenta)),
            font: FontStyle { bold: false, italic: false, underline: false },
        },
    ];
    proof {
        assert(rules@[0].scopes@ =~= syntax_entries()[0].scopes);
        assert(rules@[1].scopes@ =~= syntax_entries()[1].scopes);
        assert(rules@[2].scopes@ =~= syntax_entries()[2].scopes);
        assert(rules@[3].scopes@ =~= syntax_entries()[3].scopes);
        assert(rules@[4].scopes@ =~= syntax_entries()[4].scopes);
        assert(rules@[5].scopes@ =~= syntax_entries()[5].scopes);
        assert(rules@[6].scopes@ =~= syntax_entries()[6].scopes);
        assert(rules@[7].scopes@ =~= syntax_entries()[7].scopes);
        assert(rules@[8].scopes@ =~= syntax_entries()[8].scopes);
        assert(rules@[9].scopes@ =~= syntax_entries()[9].scopes);
        assert(rules@[10].scopes@ =~= syntax_entries()[10].scopes);
        assert(rules@[11].scopes@ =~= syntax_entries()[11].scopes);
        assert(rules@[12].scopes@ =~= syntax_entries()[12].scopes);
        assert(rules@[13].scopes@ =~= syntax_entries()[13].scopes);
        assert(rules@[14].scopes@ =~= syntax_entries()[14].scopes);
        assert(rules@[15].scopes@ =~= syntax_entries()[15].scopes);
        assert(rules@[16].scopes@ =~= syntax_entries()[16].scopes);
        assert(rules@[17].scopes@ =~= syntax_entries()[17].scopes);
        assert(rules@[18].scopes@ =~= syntax_entries()[18].scopes);
        assert(rules@[19].scopes@ =~= syntax_entries()[19].scopes);
        assert(rules@[20].scopes@ =~= syntax_entries()[20].scopes);
        assert(rules@[21].scopes@ =~= syntax_entries()[21].scopes);
        assert(rules@[22].scopes@ =~= syntax_entries()[22].scopes);
        assert(rules@[23].scopes@ =~= syntax_entries()[23].scopes);
        assert(rules@[24].scopes@ =~= syntax_entries()[24].scopes);
        assert(rules@[25].scopes@ =~= syntax_entries()[25].scopes);
        assert(rules@[26].scopes@ =~= syntax_entries()[26].scopes);
        assert(rules@[27].scopes@ =~= syntax_entries()[27].scopes);
        assert(rules@[28].scopes@ =~= syntax_entries()[28].scopes);
        assert(rules@[29].scopes@ =~= syntax_entries()[29].scopes);
        assert(rules@[30].scopes@ =~= syntax_entries()[30].scopes);
        assert(rules@[31].scopes@ =~= syntax_entries()[31].scopes);
        assert(rules@[32].scopes@ =~= syntax_entries()[32].scopes);
        assert(rules@[33].scopes@ =~= syntax_entries()[33].scopes);
        assert(rules@[34].scopes@ =~= syntax_entries()[34].scopes);
    }
    rules
}

/// Appends the full rule set for one palette instance: the workspace
/// section, then the syntax section, in table order.
pub fn add_rules(rules: &mut Vec<Rule>, palette: &Palette)
    requires
        params_wf(palette.params),
    ensures
        final(rules)@.len() == old(rules)@.len() + table().len(),
        forall|i: int| 0 <= i < old(rules)@.len() ==> final(rules)@[i] == old(rules)@[i],
        rules_match(
            palette.params,
            final(rules)@.subrange(old(rules)@.len() as int, final(rules)@.len() as int),
            table(),
        ),
{
    let ghost base_len = rules@.len();
    let mut workspace = workspace_colors(palette);
    let mut syntax = syntax_highlighting(palette);
    let ghost w_len = workspace@.len();
    rules.append(&mut workspace);
    rules.append(&mut syntax);
    proof {
        let produced = rules@.subrange(base_len as int, rules@.len() as int);
        assert forall|i: int| 0 <= i < table().len() implies rule_matches(
            palette.params,
            #[trigger] produced[i],
            table()[i],
        ) by {
            if i < w_len {
                assert(table()[i] == workspace_entries()[i]);
            } else {
                assert(table()[i] == syntax_entries()[i - w_len]);
            }
        }
    }
}

/// Produces the full rule set for one palette instance: one rule per row
/// of [`table`], in table order.
pub fn build_rules(palette: &Palette) -> (rules: Vec<Rule>)
    requires
        params_wf(palette.params),
    ensures
        rules_match(palette.params, rules@, table()),
{
    let mut rules: Vec<Rule> = Vec::new();
    add_rules(&mut rules, palette);
    proof {
        assert(rules@.subrange(0, rules@.len() as int) =~= rules@);
    }
    rules
}

/// Some row of the table binds the given identifier.
pub open spec fn table_covers(s: ScopeId) -> bool {
    exists|i: int| 0 <= i < table().len() && (#[trigger] table()[i]).scopes.contains(s)
}

/// Every workspace key of the catalog stands in some row of the table.
proof fn lemma_workspace_keys_covered(k: WorkspaceKey)
    ensures
        table_covers(ScopeId::Workspace(k)),
{
    match k {
        WorkspaceKey::EditorBackground => {
            assert(table()[0].scopes[0] == ScopeId::Workspace(WorkspaceKey::EditorBackground));
        },
        WorkspaceKey::EditorInlayHintBackground => {
            assert(table()[0].scopes[1] == ScopeId::Workspace(WorkspaceKey::EditorInlayHintBackground));
        },
        WorkspaceKey::EditorInlayHintParameterBackground => {
            assert(table()[0].scopes[2] == ScopeId::Workspace(WorkspaceKey::EditorInlayHintParameterBackground));
        },
        WorkspaceKey::EditorInlayHintTypeBackground => {
            assert(table()[0].scopes[3] == ScopeId::Workspace(WorkspaceKey::EditorInlayHintTypeBackground));
        },
        WorkspaceKey::EditorForeground => {
            assert(table()[1].scopes[0] == ScopeId::Workspace(WorkspaceKey::EditorForeground));
        },
        WorkspaceKey::Foreground => {
            assert(table()[1].scopes[1] == ScopeId::Workspace(WorkspaceKey::Foreground));
        },
        WorkspaceKey::EditorLineHighlightBackground => {
            assert(table()[2].scopes[0] == ScopeId::Workspace(WorkspaceKey::EditorLineHighlightBackground));
        },
        WorkspaceKey::EditorSelectionBackground => {
            assert(table()[3].scopes[0] == ScopeId::Workspace(WorkspaceKey::EditorSelectionBackground));
        },
        WorkspaceKey::EditorCursorForeground => {
            assert(table()[4].scopes[0] == ScopeId::Workspace(WorkspaceKey::EditorCursorForeground));
        },
        WorkspaceKey::TerminalCursorForeground => {
            assert(table()[4].scopes[1] == ScopeId::Workspace(WorkspaceKey::TerminalCursorForeground));
        },
        WorkspaceKey::EditorCursorBackground => {
            assert(table()[5].scopes[0] == ScopeId::Workspace(WorkspaceKey::EditorCursorBackground));
        },
        WorkspaceKey::TerminalCursorBackground => {
            assert(table()[5].scopes[1] == ScopeId::Workspace(WorkspaceKey::TerminalCursorBackground));
        },
        WorkspaceKey::ActivityBarBackground => {
            assert(table()[6].scopes[0] == ScopeId::Workspace(WorkspaceKey::ActivityBarBackground));
        },
        WorkspaceKey::SideBarBackground => {
            assert(table()[6].scopes[1] == ScopeId::Workspace(WorkspaceKey::SideBarBackground));
        },
        WorkspaceKey::ActivityBarForeground => {
            assert(table()[7].scopes[0] == ScopeId::Workspace(WorkspaceKey::ActivityBarForeground));
        },
        WorkspaceKey::ActivityBarInactiveForeground => {
            assert(table()[8].scopes[0] == ScopeId::Workspace(WorkspaceKey::ActivityBarInactiveForeground));
        },
        WorkspaceKey::StatusBarForeground => {
            assert(table()[9].scopes[0] == ScopeId::Workspace(WorkspaceKey::StatusBarForeground));
        },
        WorkspaceKey::StatusBarBackground => {
            assert(table()[10].scopes[0] == ScopeId::Workspace(WorkspaceKey::StatusBarBackground));
        },
        WorkspaceKey::StatusBarDebuggingBackground => {
            assert(table()[10].scopes[1] == ScopeId::Workspace(WorkspaceKey::StatusBarDebuggingBackground));
        },
        WorkspaceKey::StatusBarNoFolderBackground => {
            assert(table()[10].scopes[2] == ScopeId::Workspace(WorkspaceKey::StatusBarNoFolderBackground));
        },
        WorkspaceKey::EditorLineNumberForeground => {
            assert(table()[11].scopes[0] == ScopeId::Workspace(WorkspaceKey::EditorLineNumberForeground));
        },
        WorkspaceKey::EditorLineNumberActiveForeground => {
            assert(table()[12].scopes[0] == ScopeId::Workspace(WorkspaceKey::EditorLineNumberActiveForeground));
        },
        WorkspaceKey::EditorWidgetBackground => {
            assert(table()[13].scopes[0] == ScopeId::Workspace(WorkspaceKey::EditorWidgetBackground));
        },
        WorkspaceKey::ListHighlightForeground => {
            assert(table()[14].scopes[0] == ScopeId::Workspace(WorkspaceKey::ListHighlightForeground));
        },
        WorkspaceKey::ListFocusBackground => {
            assert(table()[15].scopes[0] == ScopeId::Workspace(WorkspaceKey::ListFocusBackground));
        },
        WorkspaceKey::ListActiveSelectionBackground => {
            assert(table()[15].scopes[1] == ScopeId::Workspace(WorkspaceKey::ListActiveSelectionBackground));
        },
        WorkspaceKey::EditorGroupHeaderTabsBackground => {
            assert(table()[16].scopes[0] == ScopeId::Workspace(WorkspaceKey::EditorGroupHeaderTabsBackground));
        },
        WorkspaceKey::TabInactiveBackground => {
            assert(table()[16].scopes[1] == ScopeId::Workspace(WorkspaceKey::TabInactiveBackground));
        },
        WorkspaceKey::TabActiveBackground => {
            assert(table()[17].scopes[0] == ScopeId::Workspace(WorkspaceKey::TabActiveBackground));
        },
        WorkspaceKey::TabInactiveForeground => {
            assert(table()[18].scopes[0] == ScopeId::Workspace(WorkspaceKey::TabInactiveForeground));
        },
        WorkspaceKey::TabActiveForeground => {
            assert(table()[19].scopes[0] == ScopeId::Workspace(WorkspaceKey::TabActiveForeground));
        },
        WorkspaceKey::TitleBarActiveBackground => {
            assert(table()[20].scopes[0] == ScopeId::Workspace(WorkspaceKey::TitleBarActiveBackground));
        },
        WorkspaceKey::TitleBarInactiveBackground => {
            assert(table()[20].scopes[1] == ScopeId::Workspace(WorkspaceKey::TitleBarInactiveBackground));
        },
        WorkspaceKey::TitleBarActiveForeground => {
            assert(table()[21].scopes[0] == ScopeId::Workspace(WorkspaceKey::TitleBarActiveForeground));
        },
        WorkspaceKey::TitleBarInactiveForeground => {
            assert(table()[22].scopes[0] == ScopeId::Workspace(WorkspaceKey::TitleBarInactiveForeground));
        },
        WorkspaceKey::BreadcrumbForeground => {
            assert(table()[23].scopes[0] == ScopeId::Workspace(WorkspaceKey::BreadcrumbForeground));
        },
        WorkspaceKey::BreadcrumbFocusForeground => {
            assert(table()[24].scopes[0] == ScopeId::Workspace(WorkspaceKey::BreadcrumbFocusForeground));
        },
        WorkspaceKey::TerminalForeground => {
            assert(table()[25].scopes[0] == ScopeId::Workspace(WorkspaceKey::TerminalForeground));
        },
        WorkspaceKey::TerminalAnsiBlack => {
            assert(table()[26].scopes[0] == ScopeId::Workspace(WorkspaceKey::TerminalAnsiBlack));
        },
        WorkspaceKey::TerminalAnsiBrightBlack => {
            assert(table()[27].scopes[0] == ScopeId::Workspace(WorkspaceKey::TerminalAnsiBrightBlack));
        },
        WorkspaceKey::TerminalAnsiRed => {
            assert(table()[28].scopes[0] == ScopeId::Workspace(WorkspaceKey::TerminalAnsiRed));
        },
        WorkspaceKey::TerminalAnsiBrightRed => {
            assert(table()[29].scopes[0] == ScopeId::Workspace(WorkspaceKey::TerminalAnsiBrightRed));
        },
        WorkspaceKey::TerminalAnsiGreen => {
            assert(table()[30].scopes[0] == ScopeId::Workspace(WorkspaceKey::TerminalAnsiGreen));
        },
        WorkspaceKey::TerminalAnsiBrightGreen => {
            assert(table()[31].scopes[0] == ScopeId::Workspace(WorkspaceKey::TerminalAnsiBrightGreen));
        },
        WorkspaceKey::TerminalAnsiYellow => {
            assert(table()[32].scopes[0] == ScopeId::Workspace(WorkspaceKey::TerminalAnsiYellow));
        },
        WorkspaceKey::TerminalAnsiBrightYellow => {
            assert(table()[33].scopes[0] == ScopeId::Workspace(WorkspaceKey::TerminalAnsiBrightYellow));
        },
        WorkspaceKey::TerminalAnsiBlue => {
            assert(table()[34].scopes[0] == ScopeId::Workspace(WorkspaceKey::TerminalAnsiBlue));
        },
        WorkspaceKey::TerminalAnsiBrightBlue => {
            assert(table()[35].scopes[0] == ScopeId::Workspace(WorkspaceKey::TerminalAnsiBrightBlue));
        },
        WorkspaceKey::TerminalAnsiMagenta => {
            assert(table()[36].scopes[0] == ScopeId::Workspace(WorkspaceKey::TerminalAnsiMagenta));
        },
        WorkspaceKey::TerminalAnsiBrightMagenta => {
            assert(table()[37].scopes[0] == ScopeId::Workspace(WorkspaceKey::TerminalAnsiBrightMagenta));
        },
        WorkspaceKey::TerminalAnsiCyan => {
            assert(table()[38].scopes[0] == ScopeId::Workspace(WorkspaceKey::TerminalAnsiCyan));
        },
        WorkspaceKey::TerminalAnsiBrightCyan => {
            assert(table()[39].scopes[0] == ScopeId::Workspace(WorkspaceKey::TerminalAnsiBrightCyan));
        },
        WorkspaceKey::TerminalAnsiWhite => {
            assert(table()[40].scopes[0] == ScopeId::Workspace(WorkspaceKey::TerminalAnsiWhite));
        },
        WorkspaceKey::TerminalAnsiBrightWhite => {
            assert(table()[41].scopes[0] == ScopeId::Workspace(WorkspaceKey::TerminalAnsiBrightWhite));
        },
        WorkspaceKey::FocusBorder => {
            assert(table()[42].scopes[0] == ScopeId::Workspace(WorkspaceKey::FocusBorder));
        },
        WorkspaceKey::RustAnalyzerInlayHintsForeground => {
            assert(table()[43].scopes[0] == ScopeId::Workspace(WorkspaceKey::RustAnalyzerInlayHintsForeground));
        },
        WorkspaceKey::EditorInlayHintForeground => {
            assert(table()[43].scopes[1] == ScopeId::Workspace(WorkspaceKey::EditorInlayHintForeground));
        },
        WorkspaceKey::EditorInlayHintParameterForeground => {
            assert(table()[43].scopes[2] == ScopeId::Workspace(WorkspaceKey::EditorInlayHintParameterForeground));
        },
        WorkspaceKey::EditorInlayHintTypeForeground => {
            assert(table()[43].scopes[3] == ScopeId::Workspace(WorkspaceKey::EditorInlayHintTypeForeground));
        },
    }
}

/// Every semantic scope of the catalog stands in some row of the table.
proof fn lemma_semantic_scopes_covered(k: SemanticScope)
    ensures
        table_covers(ScopeId::Semantic(k)),
{
    match k {
        SemanticScope::Keyword => {
            assert(table()[44].scopes[0] == ScopeId::Semantic(SemanticScope::Keyword));
        },
        SemanticScope::AnyControlFlow => {
            assert(table()[45].scopes[0] == ScopeId::Semantic(SemanticScope::AnyControlFlow));
        },
        SemanticScope::FunctionTrait => {
            assert(table()[46].scopes[0] == ScopeId::Semantic(SemanticScope::FunctionTrait));
        },
        SemanticScope::MethodTrait => {
            assert(table()[46].scopes[1] == ScopeId::Semantic(SemanticScope::MethodTrait));
        },
        SemanticScope::Type => {
            assert(table()[47].scopes[0] == ScopeId::Semantic(SemanticScope::Type));
        },
        SemanticScope::Class => {
            assert(table()[47].scopes[1] == ScopeId::Semantic(SemanticScope::Class));
        },
        SemanticScope::Struct => {
            assert(table()[47].scopes[2] == ScopeId::Semantic(SemanticScope::Struct));
        },
        SemanticScope::Enum => {
            assert(table()[47].scopes[3] == ScopeId::Semantic(SemanticScope::Enum));
        },
        SemanticScope::Union => {
            assert(table()[47].scopes[4] == ScopeId::Semantic(SemanticScope::Union));
        },
        SemanticScope::TypeAlias => {
            assert(table()[47].scopes[5] == ScopeId::Semantic(SemanticScope::TypeAlias));
        },
        SemanticScope::BuiltinType => {
            assert(table()[47].scopes[6] == ScopeId::Semantic(SemanticScope::BuiltinType));
        },
        SemanticScope::Interface => {
            assert(table()[48].scopes[0] == ScopeId::Semantic(SemanticScope::Interface));
        },
        SemanticScope::TypeAliasTrait => {
            assert(table()[48].scopes[1] == ScopeId::Semantic(SemanticScope::TypeAliasTrait));
        },
        SemanticScope::TypeParameter => {
            assert(table()[48].scopes[2] == ScopeId::Semantic(SemanticScope::TypeParameter));
        },
        SemanticScope::VariableConstant => {
            assert(table()[49].scopes[0] == ScopeId::Semantic(SemanticScope::VariableConstant));
        },
        SemanticScope::VariableStatic => {
            assert(table()[49].scopes[1] == ScopeId::Semantic(SemanticScope::VariableStatic));
        },
        SemanticScope::VariableConstantTrait => {
            assert(table()[50].scopes[0] == ScopeId::Semantic(SemanticScope::VariableConstantTrait));
        },
        SemanticScope::Number => {
            assert(table()[51].scopes[0] == ScopeId::Semantic(SemanticScope::Number));
        },
        SemanticScope::Str => {
            assert(table()[52].scopes[0] == ScopeId::Semantic(SemanticScope::Str));
        },
        SemanticScope::CharacterLiteral => {
            assert(table()[52].scopes[1] == ScopeId::Semantic(SemanticScope::CharacterLiteral));
        },
        SemanticScope::Property => {
            assert(table()[53].scopes[0] == ScopeId::Semantic(SemanticScope::Property));
        },
        SemanticScope::EnumMember => {
            assert(table()[54].scopes[0] == ScopeId::Semantic(SemanticScope::EnumMember));
        },
        SemanticScope::Boolean => {
            assert(table()[54].scopes[1] == ScopeId::Semantic(SemanticScope::Boolean));
        },
        SemanticScope::Macro => {
            assert(table()[55].scopes[0] == ScopeId::Semantic(SemanticScope::Macro));
        },
        SemanticScope::FormatSpecifier => {
            assert(table()[56].scopes[0] == ScopeId::Semantic(SemanticScope::FormatSpecifier));
        },
        SemanticScope::EscapeSequence => {
            assert(table()[56].scopes[1] == ScopeId::Semantic(SemanticScope::EscapeSequence));
        },
        SemanticScope::Lifetime => {
            assert(table()[57].scopes[0] == ScopeId::Semantic(SemanticScope::Lifetime));
        },
        SemanticScope::Comment => {
            assert(table()[58].scopes[0] == ScopeId::Semantic(SemanticScope::Comment));
        },
        SemanticScope::CommentDocumentation => {
            assert(table()[59].scopes[0] == ScopeId::Semantic(SemanticScope::CommentDocumentation));
        },
        SemanticScope::AnyAttribute => {
            assert(table()[60].scopes[0] == ScopeId::Semantic(SemanticScope::AnyAttribute));
        },
        SemanticScope::UnresolvedReference => {
            assert(table()[62].scopes[0] == ScopeId::Semantic(SemanticScope::UnresolvedReference));
        },
        SemanticScope::MagitRefName => {
            assert(table()[70].scopes[0] == ScopeId::Semantic(SemanticScope::MagitRefName));
        },
        SemanticScope::MagitRemoteRefName => {
            assert(table()[70].scopes[1] == ScopeId::Semantic(SemanticScope::MagitRemoteRefName));
        },
        SemanticScope::MagitTagName => {
            assert(table()[71].scopes[0] == ScopeId::Semantic(SemanticScope::MagitTagName));
        },
        SemanticScope::AnyUnsafe => {
            assert(table()[75].scopes[0] == ScopeId::Semantic(SemanticScope::AnyUnsafe));
        },
        SemanticScope::AnyMutable => {
            assert(table()[76].scopes[0] == ScopeId::Semantic(SemanticScope::AnyMutable));
        },
        SemanticScope::AnyConsuming => {
            assert(table()[77].scopes[0] == ScopeId::Semantic(SemanticScope::AnyConsuming));
        },
        SemanticScope::AnyPublicDeclaration => {
            assert(table()[78].scopes[0] == ScopeId::Semantic(SemanticScope::AnyPublicDeclaration));
        },
    }
}

/// Every textmate scope of the catalog stands in some row of the table.
proof fn lemma_textmate_scopes_covered(k: TextmateScope)
    ensures
        table_covers(ScopeId::Textmate(k)),
{
    match k {
        TextmateScope::Keyword => {
            assert(table()[44].scopes[1] == ScopeId::Textmate(TextmateScope::Keyword));
        },
        TextmateScope::Storage => {
            assert(table()[44].scopes[2] == ScopeId::Textmate(TextmateScope::Storage));
        },
        TextmateScope::VariableLanguageSelf => {
            assert(table()[44].scopes[3] == ScopeId::Textmate(TextmateScope::VariableLanguageSelf));
        },
        TextmateScope::VariableLanguageThis => {
            assert(table()[44].scopes[4] == ScopeId::Textmate(TextmateScope::VariableLanguageThis));
        },
        TextmateScope::KeywordTypeGo => {
            assert(table()[44].scopes[5] == ScopeId::Textmate(TextmateScope::KeywordTypeGo));
        },
        TextmateScope::KeywordControl => {
            assert(table()[45].scopes[1] == ScopeId::Textmate(TextmateScope::KeywordControl));
        },
        TextmateScope::EntityNameType => {
            assert(table()[47].scopes[7] == ScopeId::Textmate(TextmateScope::EntityNameType));
        },
        TextmateScope::KeywordType => {
            assert(table()[47].scopes[8] == ScopeId::Textmate(TextmateScope::KeywordType));
        },
        TextmateScope::StorageTypeCs => {
            assert(table()[47].scopes[9] == ScopeId::Textmate(TextmateScope::StorageTypeCs));
        },
        TextmateScope::StorageTypeJava => {
            assert(table()[47].scopes[10] == ScopeId::Textmate(TextmateScope::StorageTypeJava));
        },
        TextmateScope::StorageTypeBooleanGo => {
            assert(table()[47].scopes[11] == ScopeId::Textmate(TextmateScope::StorageTypeBooleanGo));
        },
        TextmateScope::StorageTypeByteGo => {
            assert(table()[47].scopes[12] == ScopeId::Textmate(TextmateScope::StorageTypeByteGo));
        },
        TextmateScope::StorageTypeErrorGo => {
            assert(table()[47].scopes[13] == ScopeId::Textmate(TextmateScope::StorageTypeErrorGo));
        },
        TextmateScope::StorageTypeNumericGo => {
            assert(table()[47].scopes[14] == ScopeId::Textmate(TextmateScope::StorageTypeNumericGo));
        },
        TextmateScope::StorageTypeRuneGo => {
            assert(table()[47].scopes[15] == ScopeId::Textmate(TextmateScope::StorageTypeRuneGo));
        },
        TextmateScope::StorageTypeStringGo => {
            assert(table()[47].scopes[16] == ScopeId::Textmate(TextmateScope::StorageTypeStringGo));
        },
        TextmateScope::StorageTypeUintptrGo => {
            assert(table()[47].scopes[17] == ScopeId::Textmate(TextmateScope::StorageTypeUintptrGo));
        },
        TextmateScope::EntityNameTypeInterface => {
            assert(table()[48].scopes[3] == ScopeId::Textmate(TextmateScope::EntityNameTypeInterface));
        },
        TextmateScope::EntityNameTypeTypeParameter => {
            assert(table()[48].scopes[4] == ScopeId::Textmate(TextmateScope::EntityNameTypeTypeParameter));
        },
        TextmateScope::Constant => {
            assert(table()[49].scopes[2] == ScopeId::Textmate(TextmateScope::Constant));
        },
        TextmateScope::ConstantNumeric => {
            assert(table()[51].scopes[1] == ScopeId::Textmate(TextmateScope::ConstantNumeric));
        },
        TextmateScope::Str => {
            assert(table()[52].scopes[2] == ScopeId::Textmate(TextmateScope::Str));
        },
        TextmateScope::EntityNameVariableField => {
            assert(table()[53].scopes[1] == ScopeId::Textmate(TextmateScope::EntityNameVariableField));
        },
        TextmateScope::EntityNameVariableProperty => {
            assert(table()[53].scopes[2] == ScopeId::Textmate(TextmateScope::EntityNameVariableProperty));
        },
        TextmateScope::VariableOtherMember => {
            assert(table()[53].scopes[3] == ScopeId::Textmate(TextmateScope::VariableOtherMember));
        },
        TextmateScope::VariableOtherObjectProperty => {
            assert(table()[53].scopes[4] == ScopeId::Textmate(TextmateScope::VariableOtherObjectProperty));
        },
        TextmateScope::VariableOtherReadwriteInstance => {
            assert(table()[53].scopes[5] == ScopeId::Textmate(TextmateScope::VariableOtherReadwriteInstance));
        },
        TextmateScope::SupportTypePropertyName => {
            assert(table()[53].scopes[6] == ScopeId::Textmate(TextmateScope::SupportTypePropertyName));
        },
        TextmateScope::EntityNameVariableEnumMember => {
            assert(table()[54].scopes[2] == ScopeId::Textmate(TextmateScope::EntityNameVariableEnumMember));
        },
        TextmateScope::ConstantOtherEnum => {
            assert(table()[54].scopes[3] == ScopeId::Textmate(TextmateScope::ConstantOtherEnum));
        },
        TextmateScope::VariableOtherEnummember => {
            assert(table()[54].scopes[4] == ScopeId::Textmate(TextmateScope::VariableOtherEnummember));
        },
        TextmateScope::EntityNameTypeOption => {
            assert(table()[54].scopes[5] == ScopeId::Textmate(TextmateScope::EntityNameTypeOption));
        },
        TextmateScope::EntityNameTypeResult => {
            assert(table()[54].scopes[6] == ScopeId::Textmate(TextmateScope::EntityNameTypeResult));
        },
        TextmateScope::EntityNameFunctionMacro => {
            assert(table()[55].scopes[1] == ScopeId::Textmate(TextmateScope::EntityNameFunctionMacro));
        },
        TextmateScope::EntityNameFunctionPreprocessor => {
            assert(table()[55].scopes[2] == ScopeId::Textmate(TextmateScope::EntityNameFunctionPreprocessor));
        },
        TextmateScope::ConstantOtherPlaceholder => {
            assert(table()[56].scopes[2] == ScopeId::Textmate(TextmateScope::ConstantOtherPlaceholder));
        },
        TextmateScope::PunctuationDefinitionInterpolation => {
            assert(table()[56].scopes[3] == ScopeId::Textmate(TextmateScope::PunctuationDefinitionInterpolation));
        },
        TextmateScope::PunctuationSectionEmbedded => {
            assert(table()[56].scopes[4] == ScopeId::Textmate(TextmateScope::PunctuationSectionEmbedded));
        },
        TextmateScope::ConstantCharacterEscape => {
            assert(table()[56].scopes[5] == ScopeId::Textmate(TextmateScope::ConstantCharacterEscape));
        },
        TextmateScope::Comment => {
            assert(table()[58].scopes[1] == ScopeId::Textmate(TextmateScope::Comment));
        },
        TextmateScope::CommentLineDocumentation => {
            assert(table()[59].scopes[1] == ScopeId::Textmate(TextmateScope::CommentLineDocumentation));
        },
        TextmateScope::CommentBlockDocumentation => {
            assert(table()[59].scopes[2] == ScopeId::Textmate(TextmateScope::CommentBlockDocumentation));
        },
        TextmateScope::CommentBlockJavadoc => {
            assert(table()[59].scopes[3] == ScopeId::Textmate(TextmateScope::CommentBlockJavadoc));
        },
        TextmateScope::EntityNameFunctionDecorator => {
            assert(table()[60].scopes[1] == ScopeId::Textmate(TextmateScope::EntityNameFunctionDecorator));
        },
        TextmateScope::StorageTypeAnnotation => {
            assert(table()[60].scopes[2] == ScopeId::Textmate(TextmateScope::StorageTypeAnnotation));
        },
        TextmateScope::PunctuationDefinitionAnnotation => {
            assert(table()[60].scopes[3] == ScopeId::Textmate(TextmateScope::PunctuationDefinitionAnnotation));
        },
        TextmateScope::KeywordOperator => {
            assert(table()[61].scopes[0] == ScopeId::Textmate(TextmateScope::KeywordOperator));
        },
        TextmateScope::MarkupDeleted => {
            assert(table()[63].scopes[0] == ScopeId::Textmate(TextmateScope::MarkupDeleted));
        },
        TextmateScope::MarkupInserted => {
            assert(table()[64].scopes[0] == ScopeId::Textmate(TextmateScope::MarkupInserted));
        },
        TextmateScope::MarkupChanged => {
            assert(table()[65].scopes[0] == ScopeId::Textmate(TextmateScope::MarkupChanged));
        },
        TextmateScope::MetaDiff => {
            assert(table()[66].scopes[0] == ScopeId::Textmate(TextmateScope::MetaDiff));
        },
        TextmateScope::CommentLineNumberSignGitCommit => {
            assert(table()[67].scopes[0] == ScopeId::Textmate(TextmateScope::CommentLineNumberSignGitCommit));
        },
        TextmateScope::InvalidDeprecatedLineTooLongGitCommit => {
            assert(table()[68].scopes[0] == ScopeId::Textmate(TextmateScope::InvalidDeprecatedLineTooLongGitCommit));
        },
        TextmateScope::InvalidIllegalLineTooLongGitCommit => {
            assert(table()[69].scopes[0] == ScopeId::Textmate(TextmateScope::InvalidIllegalLineTooLongGitCommit));
        },
        TextmateScope::MagitEntity => {
            assert(table()[72].scopes[0] == ScopeId::Textmate(TextmateScope::MagitEntity));
        },
        TextmateScope::MagitHeader => {
            assert(table()[73].scopes[0] == ScopeId::Textmate(TextmateScope::MagitHeader));
        },
        TextmateScope::MagitSubheader => {
            assert(table()[74].scopes[0] == ScopeId::Textmate(TextmateScope::MagitSubheader));
        },
    }
}

/// Law: the catalog is complete — every declared scope identifier is
/// bound by at least one row of the table.
pub proof fn lemma_catalog_complete(s: ScopeId)
    ensures
        table_covers(s),
{
    match s {
        ScopeId::Workspace(k) => lemma_workspace_keys_covered(k),
        ScopeId::Semantic(k) => lemma_semantic_scopes_covered(k),
        ScopeId::Textmate(k) => lemma_textmate_scopes_covered(k),
    }
}

/// Law: a produced rule set is non-empty and complete — every scope
/// identifier of the catalog appears in at least one of its rules.
pub proof fn lemma_rules_complete(p: PaletteParameters, rs: Seq<Rule>, s: ScopeId)
    requires
        rules_match(p, rs, table()),
    ensures
        rs.len() > 0,
        exists|i: int| 0 <= i < rs.len() && (#[trigger] rs[i]).scopes@.contains(s),
{
    assert(table().len() > 0);
    lemma_catalog_complete(s);
    let i = choose|i: int| 0 <= i < table().len() && (#[trigger] table()[i]).scopes.contains(s);
    assert(rule_matches(p, rs[i], table()[i]));
    assert(rs[i].scopes@.contains(s));
}

/// Law: alias groups are never split. The editor background and the
/// inlay-hint background keys stand in one single rule of any produced
/// rule set, bound to one color: the resolved neutral-darkest token.
pub proof fn lemma_inlay_hint_aliases(p: PaletteParameters, rs: Seq<Rule>)
    requires
        rules_match(p, rs, table()),
    ensures
        rs.len() > 0,
        rs[0].scopes@.contains(ScopeId::Workspace(WorkspaceKey::EditorBackground)),
        rs[0].scopes@.contains(ScopeId::Workspace(WorkspaceKey::EditorInlayHintBackground)),
        rs[0].scopes@.contains(ScopeId::Workspace(WorkspaceKey::EditorInlayHintParameterBackground)),
        rs[0].scopes@.contains(ScopeId::Workspace(WorkspaceKey::EditorInlayHintTypeBackground)),
        rs[0].color == Some(token_color(p, Token::Black)),
{
    assert(rule_matches(p, rs[0], table()[0]));
    assert(table()[0].scopes[0] == ScopeId::Workspace(WorkspaceKey::EditorBackground));
    assert(table()[0].scopes[1] == ScopeId::Workspace(WorkspaceKey::EditorInlayHintBackground));
    assert(table()[0].scopes[2] == ScopeId::Workspace(WorkspaceKey::EditorInlayHintParameterBackground));
    assert(table()[0].scopes[3] == ScopeId::Workspace(WorkspaceKey::EditorInlayHintTypeBackground));
}

/// The scope identifiers a rule set binds, row by row, in order.
pub open spec fn all_scopes(rs: Seq<Rule>) -> Seq<ScopeId>
    decreases rs.len(),
{
    if rs.len() == 0 {
        Seq::empty()
    } else {
        all_scopes(rs.drop_last()) + rs.last().scopes@
    }
}

/// Collects every scope identifier a rule set binds, in order.
pub fn collect_scopes(rules: &Vec<Rule>) -> (flat: Vec<ScopeId>)
    ensures
        flat@ == all_scopes(rules@),
{
    let mut flat: Vec<ScopeId> = Vec::new();
    let mut i: usize = 0;
    while i < rules.len()
        invariant
            i <= rules@.len(),
            flat@ == all_scopes(rules@.take(i as int)),
        decreases rules@.len() - i,
    {
        let row = &rules[i];
        let mut j: usize = 0;
        while j < row.scopes.len()
            invariant
                j <= row.scopes@.len(),
                i < rules@.len(),
                *row == rules@[i as int],
                flat@ == all_scopes(rules@.take(i as int)) + rules@[i as int].scopes@.take(
                    j as int,
                ),
            decreases row.scopes@.len() - j,
        {
            flat.push(row.scopes[j]);
            proof {
                assert(rules@[i as int].scopes@.take(j + 1) =~= rules@[i as int].scopes@.take(
                    j as int,
                ).push(rules@[i as int].scopes@[j as int]));
            }
            j += 1;
        }
        proof {
            let next = rules@.take(i + 1);
            assert(next.drop_last() =~= rules@.take(i as int));
            assert(rules@[i as int].scopes@.take(rules@[i as int].scopes@.len() as int)
                =~= rules@[i as int].scopes@);
            assert(flat@ =~= all_scopes(next));
        }
        i += 1;
    }
    proof {
        assert(rules@.take(rules@.len() as int) =~= rules@);
    }
    flat
}

/// Reports whether a collection of identifiers holds no duplicates.
fn identifiers_distinct(v: &Vec<ScopeId>) -> (r: bool)
    ensures
        r == v@.no_duplicates(),
{
    let mut i: usize = 0;
    while i < v.len()
        invariant
            i <= v@.len(),
            v@.take(i as int).no_duplicates(),
        decreases v@.len() - i,
    {
        let mut j: usize = 0;
        while j < i
            invariant
                j <= i < v@.len(),
                forall|k: int| 0 <= k < j ==> v@[k] != v@[i as int],
            decreases i - j,
        {
            if v[j] == v[i] {
                proof {
                    assert(v@[j as int] == v@[i as int]);
                    assert(!v@.no_duplicates());
                }
                return false;
            }
            j += 1;
        }
        proof {
            assert(v@.take(i + 1).no_duplicates());
        }
        i += 1;
    }
    proof {
        assert(v@.take(v@.len() as int) =~= v@);
    }
    true
}

/// Build-time assertion: no two rules of a produced rule set bind the same
/// literal scope identifier, so the table can never assign contradictory
/// colors to one key.
pub fn scopes_are_distinct(rules: &Vec<Rule>) -> (r: bool)
    ensures
        r == all_scopes(rules@).no_duplicates(),
{
    let flat = collect_scopes(rules);
    identifiers_distinct(&flat)
}

/// The row of the table that binds each identifier.
pub open spec fn catalog_row(s: ScopeId) -> int {
    match s {
        ScopeId::Workspace(WorkspaceKey::EditorBackground) => 0,
        ScopeId::Workspace(WorkspaceKey::EditorInlayHintBackground) => 0,
        ScopeId::Workspace(WorkspaceKey::EditorInlayHintParameterBackground) => 0,
        ScopeId::Workspace(WorkspaceKey::EditorInlayHintTypeBackground) => 0,
        ScopeId::Workspace(WorkspaceKey::EditorForeground) => 1,
        ScopeId::Workspace(WorkspaceKey::Foreground) => 1,
        ScopeId::Workspace(WorkspaceKey::EditorLineHighlightBackground) => 2,
        ScopeId::Workspace(WorkspaceKey::EditorSelectionBackground) => 3,
        ScopeId::Workspace(WorkspaceKey::EditorCursorForeground) => 4,
        ScopeId::Workspace(WorkspaceKey::TerminalCursorForeground) => 4,
        ScopeId::Workspace(WorkspaceKey::EditorCursorBackground) => 5,
        ScopeId::Workspace(WorkspaceKey::TerminalCursorBackground) => 5,
        ScopeId::Workspace(WorkspaceKey::ActivityBarBackground) => 6,
        ScopeId::Workspace(WorkspaceKey::SideBarBackground) => 6,
        ScopeId::Workspace(WorkspaceKey::ActivityBarForeground) => 7,
        ScopeId::Workspace(WorkspaceKey::ActivityBarInactiveForeground) => 8,
        ScopeId::Workspace(WorkspaceKey::StatusBarForeground) => 9,
        ScopeId::Workspace(WorkspaceKey::StatusBarBackground) => 10,
        ScopeId::Workspace(WorkspaceKey::StatusBarDebuggingBackground) => 10,
        ScopeId::Workspace(WorkspaceKey::StatusBarNoFolderBackground) => 10,
        ScopeId::Workspace(WorkspaceKey::EditorLineNumberForeground) => 11,
        ScopeId::Workspace(WorkspaceKey::EditorLineNumberActiveForeground) => 12,
        ScopeId::Workspace(WorkspaceKey::EditorWidgetBackground) => 13,
        ScopeId::Workspace(WorkspaceKey::ListHighlightForeground) => 14,
        ScopeId::Workspace(WorkspaceKey::ListFocusBackground) => 15,
        ScopeId::Workspace(WorkspaceKey::ListActiveSelectionBackground) => 15,
        ScopeId::Workspace(WorkspaceKey::EditorGroupHeaderTabsBackground) => 16,
        ScopeId::Workspace(WorkspaceKey::TabInactiveBackground) => 16,
        ScopeId::Workspace(WorkspaceKey::TabActiveBackground) => 17,
        ScopeId::Workspace(WorkspaceKey::TabInactiveForeground) => 18,
        ScopeId::Workspace(WorkspaceKey::TabActiveForeground) => 19,
        ScopeId::Workspace(WorkspaceKey::TitleBarActiveBackground) => 20,
        ScopeId::Workspace(WorkspaceKey::TitleBarInactiveBackground) => 20,
        ScopeId::Workspace(WorkspaceKey::TitleBarActiveForeground) => 21,
        ScopeId::Workspace(WorkspaceKey::TitleBarInactiveForeground) => 22,
        ScopeId::Workspace(WorkspaceKey::BreadcrumbForeground) => 23,
        ScopeId::Workspace(WorkspaceKey::BreadcrumbFocusForeground) => 24,
        ScopeId::Workspace(WorkspaceKey::TerminalForeground) => 25,
        ScopeId::Workspace(WorkspaceKey::TerminalAnsiBlack) => 26,
        ScopeId::Workspace(WorkspaceKey::TerminalAnsiBrightBlack) => 27,
        ScopeId::Workspace(WorkspaceKey::TerminalAnsiRed) => 28,
        ScopeId::Workspace(WorkspaceKey::TerminalAnsiBrightRed) => 29,
        ScopeId::Workspace(WorkspaceKey::TerminalAnsiGreen) => 30,
        ScopeId::Workspace(WorkspaceKey::TerminalAnsiBrightGreen) => 31,
        ScopeId::Workspace(WorkspaceKey::TerminalAnsiYellow) => 32,
        ScopeId::Workspace(WorkspaceKey::TerminalAnsiBrightYellow) => 33,
        ScopeId::Workspace(WorkspaceKey::TerminalAnsiBlue) => 34,
        ScopeId::Workspace(WorkspaceKey::TerminalAnsiBrightBlue) => 35,
        ScopeId::Workspace(WorkspaceKey::TerminalAnsiMagenta) => 36,
        ScopeId::Workspace(WorkspaceKey::TerminalAnsiBrightMagenta) => 37,
        ScopeId::Workspace(WorkspaceKey::TerminalAnsiCyan) => 38,
        ScopeId::Workspace(WorkspaceKey::TerminalAnsiBrightCyan) => 39,
        ScopeId::Workspace(WorkspaceKey::TerminalAnsiWhite) => 40,
        ScopeId::Workspace(WorkspaceKey::TerminalAnsiBrightWhite) => 41,
        ScopeId::Workspace(WorkspaceKey::FocusBorder) => 42,
        ScopeId::Workspace(WorkspaceKey::RustAnalyzerInlayHintsForeground) => 43,
        ScopeId::Workspace(WorkspaceKey::EditorInlayHintForeground) => 43,
        ScopeId::Workspace(WorkspaceKey::EditorInlayHintParameterForeground) => 43,
        ScopeId::Workspace(WorkspaceKey::EditorInlayHintTypeForeground) => 43,
        ScopeId::Semantic(SemanticScope::Keyword) => 44,
        ScopeId::Textmate(TextmateScope::Keyword) => 44,
        ScopeId::Textmate(TextmateScope::Storage) => 44,
        ScopeId::Textmate(TextmateScope::VariableLanguageSelf) => 44,
        ScopeId::Textmate(TextmateScope::VariableLanguageThis) => 44,
        ScopeId::Textmate(TextmateScope::KeywordTypeGo) => 44,
        ScopeId::Semantic(SemanticScope::AnyControlFlow) => 45,
        ScopeId::Textmate(TextmateScope::KeywordControl) => 45,
        ScopeId::Semantic(SemanticScope::FunctionTrait) => 46,
        ScopeId::Semantic(SemanticScope::MethodTrait) => 46,
        ScopeId::Semantic(SemanticScope::Type) => 47,
        ScopeId::Semantic(SemanticScope::Class) => 47,
        ScopeId::Semantic(SemanticScope::Struct) => 47,
        ScopeId::Semantic(SemanticScope::Enum) => 47,
        ScopeId::Semantic(SemanticScope::Union) => 47,
        ScopeId::Semantic(SemanticScope::TypeAlias) => 47,
        ScopeId::Semantic(SemanticScope::BuiltinType) => 47,
        ScopeId::Textmate(TextmateScope::EntityNameType) => 47,
        ScopeId::Textmate(TextmateScope::KeywordType) => 47,
        ScopeId::Textmate(TextmateScope::StorageTypeCs) => 47,
        ScopeId::Textmate(TextmateScope::StorageTypeJava) => 47,
        ScopeId::Textmate(TextmateScope::StorageTypeBooleanGo) => 47,
        ScopeId::Textmate(TextmateScope::StorageTypeByteGo) => 47,
        ScopeId::Textmate(TextmateScope::StorageTypeErrorGo) => 47,
        ScopeId::Textmate(TextmateScope::StorageTypeNumericGo) => 47,
        ScopeId::Textmate(TextmateScope::StorageTypeRuneGo) => 47,
        ScopeId::Textmate(TextmateScope::StorageTypeStringGo) => 47,
        ScopeId::Textmate(TextmateScope::StorageTypeUintptrGo) => 47,
        ScopeId::Semantic(SemanticScope::Interface) => 48,
        ScopeId::Semantic(SemanticScope::TypeAliasTrait) => 48,
        ScopeId::Semantic(SemanticScope::TypeParameter) => 48,
        ScopeId::Textmate(TextmateScope::EntityNameTypeInterface) => 48,
        ScopeId::Textmate(TextmateScope::EntityNameTypeTypeParameter) => 48,
        ScopeId::Semantic(SemanticScope::VariableConstant) => 49,
        ScopeId::Semantic(SemanticScope::VariableStatic) => 49,
        ScopeId::Textmate(TextmateScope::Constant) => 49,
        ScopeId::Semantic(SemanticScope::VariableConstantTrait) => 50,
        ScopeId::Semantic(SemanticScope::Number) => 51,
        ScopeId::Textmate(TextmateScope::ConstantNumeric) => 51,
        ScopeId::Semantic(SemanticScope::Str) => 52,
        ScopeId::Semantic(SemanticScope::CharacterLiteral) => 52,
        ScopeId::Textmate(TextmateScope::Str) => 52,
        ScopeId::Semantic(SemanticScope::Property) => 53,
        ScopeId::Textmate(TextmateScope::EntityNameVariableField) => 53,
        ScopeId::Textmate(TextmateScope::EntityNameVariableProperty) => 53,
        ScopeId::Textmate(TextmateScope::VariableOtherMember) => 53,
        ScopeId::Textmate(TextmateScope::VariableOtherObjectProperty) => 53,
        ScopeId::Textmate(TextmateScope::VariableOtherReadwriteInstance) => 53,
        ScopeId::Textmate(TextmateScope::SupportTypePropertyName) => 53,
        ScopeId::Semantic(SemanticScope::EnumMember) => 54,
        ScopeId::Semantic(SemanticScope::Boolean) => 54,
        ScopeId::Textmate(TextmateScope::EntityNameVariableEnumMember) => 54,
        ScopeId::Textmate(TextmateScope::ConstantOtherEnum) => 54,
        ScopeId::Textmate(TextmateScope::VariableOtherEnummember) => 54,
        ScopeId::Textmate(TextmateScope::EntityNameTypeOption) => 54,
        ScopeId::Textmate(TextmateScope::EntityNameTypeResult) => 54,
        ScopeId::Semantic(SemanticScope::Macro) => 55,
        ScopeId::Textmate(TextmateScope::EntityNameFunctionMacro) => 55,
        ScopeId::Textmate(TextmateScope::EntityNameFunctionPreprocessor) => 55,
        ScopeId::Semantic(SemanticScope::FormatSpecifier) => 56,
        ScopeId::Semantic(SemanticScope::EscapeSequence) => 56,
        ScopeId::Textmate(TextmateScope::ConstantOtherPlaceholder) => 56,
        ScopeId::Textmate(TextmateScope::PunctuationDefinitionInterpolation) => 56,
        ScopeId::Textmate(TextmateScope::PunctuationSectionEmbedded) => 56,
        ScopeId::Textmate(TextmateScope::ConstantCharacterEscape) => 56,
        ScopeId::Semantic(SemanticScope::Lifetime) => 57,
        ScopeId::Semantic(SemanticScope::Comment) => 58,
        ScopeId::Textmate(TextmateScope::Comment) => 58,
        ScopeId::Semantic(SemanticScope::CommentDocumentation) => 59,
        ScopeId::Textmate(TextmateScope::CommentLineDocumentation) => 59,
        ScopeId::Textmate(TextmateScope::CommentBlockDocumentation) => 59,
        ScopeId::Textmate(TextmateScope::CommentBlockJavadoc) => 59,
        ScopeId::Semantic(SemanticScope::AnyAttribute) => 60,
        ScopeId::Textmate(TextmateScope::EntityNameFunctionDecorator) => 60,
        ScopeId::Textmate(TextmateScope::StorageTypeAnnotation) => 60,
        ScopeId::Textmate(TextmateScope::PunctuationDefinitionAnnotation) => 60,
        ScopeId::Textmate(TextmateScope::KeywordOperator) => 61,
        ScopeId::Semantic(SemanticScope::UnresolvedReference) => 62,
        ScopeId::Textmate(TextmateScope::MarkupDeleted) => 63,
        ScopeId::Textmate(TextmateScope::MarkupInserted) => 64,
        ScopeId::Textmate(TextmateScope::MarkupChanged) => 65,
        ScopeId::Textmate(TextmateScope::MetaDiff) => 66,
        ScopeId::Textmate(TextmateScope::CommentLineNumberSignGitCommit) => 67,
        ScopeId::Textmate(TextmateScope::InvalidDeprecatedLineTooLongGitCommit) => 68,
        ScopeId::Textmate(TextmateScope::InvalidIllegalLineTooLongGitCommit) => 69,
        ScopeId::Semantic(SemanticScope::MagitRefName) => 70,
        ScopeId::Semantic(SemanticScope::MagitRemoteRefName) => 70,
        ScopeId::Semantic(SemanticScope::MagitTagName) => 71,
        ScopeId::Textmate(TextmateScope::MagitEntity) => 72,
        ScopeId::Textmate(TextmateScope::MagitHeader) => 73,
        ScopeId::Textmate(TextmateScope::MagitSubheader) => 74,
        ScopeId::Semantic(SemanticScope::AnyUnsafe) => 75,
        ScopeId::Semantic(SemanticScope::AnyMutable) => 76,
        ScopeId::Semantic(SemanticScope::AnyConsuming) => 77,
        ScopeId::Semantic(SemanticScope::AnyPublicDeclaration) => 78,
    }
}

/// The position of each identifier within its row's alias set.
pub open spec fn catalog_column(s: ScopeId) -> int {
    match s {
        ScopeId::Workspace(WorkspaceKey::EditorBackground) => 0,
        ScopeId::Workspace(WorkspaceKey::EditorInlayHintBackground) => 1,
        ScopeId::Workspace(WorkspaceKey::EditorInlayHintParameterBackground) => 2,
        ScopeId::Workspace(WorkspaceKey::EditorInlayHintTypeBackground) => 3,
        ScopeId::Workspace(WorkspaceKey::EditorForeground) => 0,
        ScopeId::Workspace(WorkspaceKey::Foreground) => 1,
        ScopeId::Workspace(WorkspaceKey::EditorLineHighlightBackground) => 0,
        ScopeId::Workspace(WorkspaceKey::EditorSelectionBackground) => 0,
        ScopeId::Workspace(WorkspaceKey::EditorCursorForeground) => 0,
        ScopeId::Workspace(WorkspaceKey::TerminalCursorForeground) => 1,
        ScopeId::Workspace(WorkspaceKey::EditorCursorBackground) => 0,
        ScopeId::Workspace(WorkspaceKey::TerminalCursorBackground) => 1,
        ScopeId::Workspace(WorkspaceKey::ActivityBarBackground) => 0,
        ScopeId::Workspace(WorkspaceKey::SideBarBackground) => 1,
        ScopeId::Workspace(WorkspaceKey::ActivityBarForeground) => 0,
        ScopeId::Workspace(WorkspaceKey::ActivityBarInactiveForeground) => 0,
        ScopeId::Workspace(WorkspaceKey::StatusBarForeground) => 0,
        ScopeId::Workspace(WorkspaceKey::StatusBarBackground) => 0,
        ScopeId::Workspace(WorkspaceKey::StatusBarDebuggingBackground) => 1,
        ScopeId::Workspace(WorkspaceKey::StatusBarNoFolderBackground) => 2,
        ScopeId::Workspace(WorkspaceKey::EditorLineNumberForeground) => 0,
        ScopeId::Workspace(WorkspaceKey::EditorLineNumberActiveForeground) => 0,
        ScopeId::Workspace(WorkspaceKey::EditorWidgetBackground) => 0,
        ScopeId::Workspace(WorkspaceKey::ListHighlightForeground) => 0,
        ScopeId::Workspace(WorkspaceKey::ListFocusBackground) => 0,
        ScopeId::Workspace(WorkspaceKey::ListActiveSelectionBackground) => 1,
        ScopeId::Workspace(WorkspaceKey::EditorGroupHeaderTabsBackground) => 0,
        ScopeId::Workspace(WorkspaceKey::TabInactiveBackground) => 1,
        ScopeId::Workspace(WorkspaceKey::TabActiveBackground) => 0,
        ScopeId::Workspace(WorkspaceKey::TabInactiveForeground) => 0,
        ScopeId::Workspace(WorkspaceKey::TabActiveForeground) => 0,
        ScopeId::Workspace(WorkspaceKey::TitleBarActiveBackground) => 0,
        ScopeId::Workspace(WorkspaceKey::TitleBarInactiveBackground) => 1,
        ScopeId::Workspace(WorkspaceKey::TitleBarActiveForeground) => 0,
        ScopeId::Workspace(WorkspaceKey::TitleBarInactiveForeground) => 0,
        ScopeId::Workspace(WorkspaceKey::BreadcrumbForeground) => 0,
        ScopeId::Workspace(WorkspaceKey::BreadcrumbFocusForeground) => 0,
        ScopeId::Workspace(WorkspaceKey::TerminalForeground) => 0,
        ScopeId::Workspace(WorkspaceKey::TerminalAnsiBlack) => 0,
        ScopeId::Workspace(WorkspaceKey::TerminalAnsiBrightBlack) => 0,
        ScopeId::Workspace(WorkspaceKey::TerminalAnsiRed) => 0,
        ScopeId::Workspace(WorkspaceKey::TerminalAnsiBrightRed) => 0,
        ScopeId::Workspace(WorkspaceKey::TerminalAnsiGreen) => 0,
        ScopeId::Workspace(WorkspaceKey::TerminalAnsiBrightGreen) => 0,
        ScopeId::Workspace(WorkspaceKey::TerminalAnsiYellow) => 0,
        ScopeId::Workspace(WorkspaceKey::TerminalAnsiBrightYellow) => 0,
        ScopeId::Workspace(WorkspaceKey::TerminalAnsiBlue) => 0,
        ScopeId::Workspace(WorkspaceKey::TerminalAnsiBrightBlue) => 0,
        ScopeId::Workspace(WorkspaceKey::TerminalAnsiMagenta) => 0,
        ScopeId::Workspace(WorkspaceKey::TerminalAnsiBrightMagenta) => 0,
        ScopeId::Workspace(WorkspaceKey::TerminalAnsiCyan) => 0,
        ScopeId::Workspace(WorkspaceKey::TerminalAnsiBrightCyan) => 0,
        ScopeId::Workspace(WorkspaceKey::TerminalAnsiWhite) => 0,
        ScopeId::Workspace(WorkspaceKey::TerminalAnsiBrightWhite) => 0,
        ScopeId::Workspace(WorkspaceKey::FocusBorder) => 0,
        ScopeId::Workspace(WorkspaceKey::RustAnalyzerInlayHintsForeground) => 0,
        ScopeId::Workspace(WorkspaceKey::EditorInlayHintForeground) => 1,
        ScopeId::Workspace(WorkspaceKey::EditorInlayHintParameterForeground) => 2,
        ScopeId::Workspace(WorkspaceKey::EditorInlayHintTypeForeground) => 3,
        ScopeId::Semantic(SemanticScope::Keyword) => 0,
        ScopeId::Textmate(TextmateScope::Keyword) => 1,
        ScopeId::Textmate(TextmateScope::Storage) => 2,
        ScopeId::Textmate(TextmateScope::VariableLanguageSelf) => 3,
        ScopeId::Textmate(TextmateScope::VariableLanguageThis) => 4,
        ScopeId::Textmate(TextmateScope::KeywordTypeGo) => 5,
        ScopeId::Semantic(SemanticScope::AnyControlFlow) => 0,
        ScopeId::Textmate(TextmateScope::KeywordControl) => 1,
        ScopeId::Semantic(SemanticScope::FunctionTrait) => 0,
        ScopeId::Semantic(SemanticScope::MethodTrait) => 1,
        ScopeId::Semantic(SemanticScope::Type) => 0,
        ScopeId::Semantic(SemanticScope::Class) => 1,
        ScopeId::Semantic(SemanticScope::Struct) => 2,
        ScopeId::Semantic(SemanticScope::Enum) => 3,
        ScopeId::Semantic(SemanticScope::Union) => 4,
        ScopeId::Semantic(SemanticScope::TypeAlias) => 5,
        ScopeId::Semantic(SemanticScope::BuiltinType) => 6,
        ScopeId::Textmate(TextmateScope::EntityNameType) => 7,
        ScopeId::Textmate(TextmateScope::KeywordType) => 8,
        ScopeId::Textmate(TextmateScope::StorageTypeCs) => 9,
        ScopeId::Textmate(TextmateScope::StorageTypeJava) => 10,
        ScopeId::Textmate(TextmateScope::StorageTypeBooleanGo) => 11,
        ScopeId::Textmate(TextmateScope::StorageTypeByteGo) => 12,
        ScopeId::Textmate(TextmateScope::StorageTypeErrorGo) => 13,
        ScopeId::Textmate(TextmateScope::StorageTypeNumericGo) => 14,
        ScopeId::Textmate(TextmateScope::StorageTypeRuneGo) => 15,
        ScopeId::Textmate(TextmateScope::StorageTypeStringGo) => 16,
        ScopeId::Textmate(TextmateScope::StorageTypeUintptrGo) => 17,
        ScopeId::Semantic(SemanticScope::Interface) => 0,
        ScopeId::Semantic(SemanticScope::TypeAliasTrait) => 1,
        ScopeId::Semantic(SemanticScope::TypeParameter) => 2,
        ScopeId::Textmate(TextmateScope::EntityNameTypeInterface) => 3,
        ScopeId::Textmate(TextmateScope::EntityNameTypeTypeParameter) => 4,
        ScopeId::Semantic(SemanticScope::VariableConstant) => 0,
        ScopeId::Semantic(SemanticScope::VariableStatic) => 1,
        ScopeId::Textmate(TextmateScope::Constant) => 2,
        ScopeId::Semantic(SemanticScope::VariableConstantTrait) => 0,
        ScopeId::Semantic(SemanticScope::Number) => 0,
        ScopeId::Textmate(TextmateScope::ConstantNumeric) => 1,
        ScopeId::Semantic(SemanticScope::Str) => 0,
        ScopeId::Semantic(SemanticScope::CharacterLiteral) => 1,
        ScopeId::Textmate(TextmateScope::Str) => 2,
        ScopeId::Semantic(SemanticScope::Property) => 0,
        ScopeId::Textmate(TextmateScope::EntityNameVariableField) => 1,
        ScopeId::Textmate(TextmateScope::EntityNameVariableProperty) => 2,
        ScopeId::Textmate(TextmateScope::VariableOtherMember) => 3,
        ScopeId::Textmate(TextmateScope::VariableOtherObjectProperty) => 4,
        ScopeId::Textmate(TextmateScope::VariableOtherReadwriteInstance) => 5,
        ScopeId::Textmate(TextmateScope::SupportTypePropertyName) => 6,
        ScopeId::Semantic(SemanticScope::EnumMember) => 0,
        ScopeId::Semantic(SemanticScope::Boolean) => 1,
        ScopeId::Textmate(TextmateScope::EntityNameVariableEnumMember) => 2,
        ScopeId::Textmate(TextmateScope::ConstantOtherEnum) => 3,
        ScopeId::Textmate(TextmateScope::VariableOtherEnummember) => 4,
        ScopeId::Textmate(TextmateScope::EntityNameTypeOption) => 5,
        ScopeId::Textmate(TextmateScope::EntityNameTypeResult) => 6,
        ScopeId::Semantic(SemanticScope::Macro) => 0,
        ScopeId::Textmate(TextmateScope::EntityNameFunctionMacro) => 1,
        ScopeId::Textmate(TextmateScope::EntityNameFunctionPreprocessor) => 2,
        ScopeId::Semantic(SemanticScope::FormatSpecifier) => 0,
        ScopeId::Semantic(SemanticScope::EscapeSequence) => 1,
        ScopeId::Textmate(TextmateScope::ConstantOtherPlaceholder) => 2,
        ScopeId::Textmate(TextmateScope::PunctuationDefinitionInterpolation) => 3,
        ScopeId::Textmate(TextmateScope::PunctuationSectionEmbedded) => 4,
        ScopeId::Textmate(TextmateScope::ConstantCharacterEscape) => 5,
        ScopeId::Semantic(SemanticScope::Lifetime) => 0,
        ScopeId::Semantic(SemanticScope::Comment) => 0,
        ScopeId::Textmate(TextmateScope::Comment) => 1,
        ScopeId::Semantic(SemanticScope::CommentDocumentation) => 0,
        ScopeId::Textmate(TextmateScope::CommentLineDocumentation) => 1,
        ScopeId::Textmate(TextmateScope::CommentBlockDocumentation) => 2,
        ScopeId::Textmate(TextmateScope::CommentBlockJavadoc) => 3,
        ScopeId::Semantic(SemanticScope::AnyAttribute) => 0,
        ScopeId::Textmate(TextmateScope::EntityNameFunctionDecorator) => 1,
        ScopeId::Textmate(TextmateScope::StorageTypeAnnotation) => 2,
        ScopeId::Textmate(TextmateScope::PunctuationDefinitionAnnotation) => 3,
        ScopeId::Textmate(TextmateScope::KeywordOperator) => 0,
        ScopeId::Semantic(SemanticScope::UnresolvedReference) => 0,
        ScopeId::Textmate(TextmateScope::MarkupDeleted) => 0,
        ScopeId::Textmate(TextmateScope::MarkupInserted) => 0,
        ScopeId::Textmate(TextmateScope::MarkupChanged) => 0,
        ScopeId::Textmate(TextmateScope::MetaDiff) => 0,
        ScopeId::Textmate(TextmateScope::CommentLineNumberSignGitCommit) => 0,
        ScopeId::Textmate(TextmateScope::InvalidDeprecatedLineTooLongGitCommit) => 0,
        ScopeId::Textmate(TextmateScope::InvalidIllegalLineTooLongGitCommit) => 0,
        ScopeId::Semantic(SemanticScope::MagitRefName) => 0,
        ScopeId::Semantic(SemanticScope::MagitRemoteRefName) => 1,
        ScopeId::Semantic(SemanticScope::MagitTagName) => 0,
        ScopeId::Textmate(TextmateScope::MagitEntity) => 0,
        ScopeId::Textmate(TextmateScope::MagitHeader) => 0,
        ScopeId::Textmate(TextmateScope::MagitSubheader) => 0,
        ScopeId::Semantic(SemanticScope::AnyUnsafe) => 0,
        ScopeId::Semantic(SemanticScope::AnyMutable) => 0,
        ScopeId::Semantic(SemanticScope::AnyConsuming) => 0,
        ScopeId::Semantic(SemanticScope::AnyPublicDeclaration) => 0,
    }
}

/// Each table position holds the identifier whose catalog position it
/// is: the identifier at row `i`, column `a` maps back to `(i, a)`.
proof fn lemma_scope_position(i: int, a: int)
    requires
        0 <= i < table().len(),
        0 <= a < table()[i].scopes.len(),
    ensures
        catalog_row(table()[i].scopes[a]) == i,
        catalog_column(table()[i].scopes[a]) == a,
{
    // The indices range over the literal table, so the solver settles
    // every case by evaluation.
}

/// Law: the table binds every literal scope identifier at most once, so
/// no two rules of one generation pass can assign it contradictory
/// colors.
pub proof fn lemma_table_scopes_distinct(i: int, a: int, j: int, b: int)
    requires
        0 <= i < table().len(),
        0 <= a < table()[i].scopes.len(),
        0 <= j < table().len(),
        0 <= b < table()[j].scopes.len(),
        table()[i].scopes[a] == table()[j].scopes[b],
    ensures
        i == j,
        a == b,
{
    lemma_scope_position(i, a);
    lemma_scope_position(j, b);
}

/// Law: within one produced rule set no two rules bind the same literal
/// scope identifier, so no contradictory colors can be assigned to one
/// key.
pub proof fn lemma_no_contradictory_bindings(
    p: PaletteParameters,
    rs: Seq<Rule>,
    i: int,
    a: int,
    j: int,
    b: int,
)
    requires
        rules_match(p, rs, table()),
        0 <= i < rs.len(),
        0 <= a < rs[i].scopes@.len(),
        0 <= j < rs.len(),
        0 <= b < rs[j].scopes@.len(),
        rs[i].scopes@[a] == rs[j].scopes@[b],
    ensures
        i == j,
        a == b,
{
    assert(rule_matches(p, rs[i], table()[i]));
    assert(rule_matches(p, rs[j], table()[j]));
    lemma_table_scopes_distinct(i, a, j, b);
}

} // verus!
