//! The fixed catalog of abstract scope identifiers the binding table
//! covers: workspace UI regions, semantic highlighting scopes, and
//! textmate grammar scopes.
//!
//! The literal strings these identifiers render to are a compatibility
//! surface with the target editor's theme schema and are reproduced
//! verbatim, including vendor-specific keys.

use vstd::prelude::*;

verus! {

/// A workspace UI region bound by the theme (editor chrome, terminal,
/// lists, tabs and so on).
#[derive(Clone, Copy, Debug, PartialEq, Eq, Structural)]
pub enum WorkspaceKey {
    EditorBackground,
    EditorInlayHintBackground,
    EditorInlayHintParameterBackground,
    EditorInlayHintTypeBackground,
    EditorForeground,
    Foreground,
    EditorLineHighlightBackground,
    EditorSelectionBackground,
    EditorCursorForeground,
    TerminalCursorForeground,
    EditorCursorBackground,
    TerminalCursorBackground,
    ActivityBarBackground,
    SideBarBackground,
    ActivityBarForeground,
    ActivityBarInactiveForeground,
    StatusBarForeground,
    StatusBarBackground,
    StatusBarDebuggingBackground,
    StatusBarNoFolderBackground,
    EditorLineNumberForeground,
    EditorLineNumberActiveForeground,
    EditorWidgetBackground,
    ListHighlightForeground,
    ListFocusBackground,
    ListActiveSelectionBackground,
    EditorGroupHeaderTabsBackground,
    TabInactiveBackground,
    TabActiveBackground,
    TabInactiveForeground,
    TabActiveForeground,
    TitleBarActiveBackground,
    TitleBarInactiveBackground,
    TitleBarActiveForeground,
    TitleBarInactiveForeground,
    BreadcrumbForeground,
    BreadcrumbFocusForeground,
    TerminalForeground,
    TerminalAnsiBlack,
    TerminalAnsiBrightBlack,
    TerminalAnsiRed,
    TerminalAnsiBrightRed,
    TerminalAnsiGreen,
    TerminalAnsiBrightGreen,
    TerminalAnsiYellow,
    TerminalAnsiBrightYellow,
    TerminalAnsiBlue,
    TerminalAnsiBrightBlue,
    TerminalAnsiMagenta,
    TerminalAnsiBrightMagenta,
    TerminalAnsiCyan,
    TerminalAnsiBrightCyan,
    TerminalAnsiWhite,
    TerminalAnsiBrightWhite,
    FocusBorder,
    RustAnalyzerInlayHintsForeground,
    EditorInlayHintForeground,
    EditorInlayHintParameterForeground,
    EditorInlayHintTypeForeground,
}

/// A semantic highlighting scope, resolved by the editor's language
/// services.
#[derive(Clone, Copy, Debug, PartialEq, Eq, Structural)]
pub enum SemanticScope {
    Keyword,
    AnyControlFlow,
    FunctionTrait,
    MethodTrait,
    Type,
    Class,
    Struct,
    Enum,
    Union,
    TypeAlias,
    BuiltinType,
    Interface,
    TypeAliasTrait,
    TypeParameter,
    VariableConstant,
    VariableStatic,
    VariableConstantTrait,
    Number,
    Str,
    CharacterLiteral,
    Property,
    EnumMember,
    Boolean,
    Macro,
    FormatSpecifier,
    EscapeSequence,
    Lifetime,
    Comment,
    CommentDocumentation,
    AnyAttribute,
    UnresolvedReference,
    MagitRefName,
    MagitRemoteRefName,
    MagitTagName,
    AnyUnsafe,
    AnyMutable,
    AnyConsuming,
    AnyPublicDeclaration,
}

/// A textmate grammar scope, the fallback highlighting namespace.
#[derive(Clone, Copy, Debug, PartialEq, Eq, Structural)]
pub enum TextmateScope {
    Keyword,
    Storage,
    VariableLanguageSelf,
    VariableLanguageThis,
    KeywordTypeGo,
    KeywordControl,
    EntityNameType,
    KeywordType,
    StorageTypeCs,
    StorageTypeJava,
    StorageTypeBooleanGo,
    StorageTypeByteGo,
    StorageTypeErrorGo,
    StorageTypeNumericGo,
    StorageTypeRuneGo,
    StorageTypeStringGo,
    StorageTypeUintptrGo,
    EntityNameTypeInterface,
    EntityNameTypeTypeParameter,
    Constant,
    ConstantNumeric,
    Str,
    EntityNameVariableField,
    EntityNameVariableProperty,
    VariableOtherMember,
    VariableOtherObjectProperty,
    VariableOtherReadwriteInstance,
    SupportTypePropertyName,
    EntityNameVariableEnumMember,
    ConstantOtherEnum,
    VariableOtherEnummember,
    EntityNameTypeOption,
    EntityNameTypeResult,
    EntityNameFunctionMacro,
    EntityNameFunctionPreprocessor,
    ConstantOtherPlaceholder,
    PunctuationDefinitionInterpolation,
    PunctuationSectionEmbedded,
    ConstantCharacterEscape,
    Comment,
    CommentLineDocumentation,
    CommentBlockDocumentation,
    CommentBlockJavadoc,
    EntityNameFunctionDecorator,
    StorageTypeAnnotation,
    PunctuationDefinitionAnnotation,
    KeywordOperator,
    MarkupDeleted,
    MarkupInserted,
    MarkupChanged,
    MetaDiff,
    CommentLineNumberSignGitCommit,
    InvalidDeprecatedLineTooLongGitCommit,
    InvalidIllegalLineTooLongGitCommit,
    MagitEntity,
    MagitHeader,
    MagitSubheader,
}

/// The literal identifier each workspace key renders to in the theme schema.
pub open spec fn workspace_key_name(k: WorkspaceKey) -> Seq<char> {
    match k {
        WorkspaceKey::EditorBackground => "editor.background"@,
        WorkspaceKey::EditorInlayHintBackground => "editorInlayHint.background"@,
        WorkspaceKey::EditorInlayHintParameterBackground => "editorInlayHint.parameterBackground"@,
        WorkspaceKey::EditorInlayHintTypeBackground => "editorInlayHint.typeBackground"@,
        WorkspaceKey::EditorForeground => "editor.foreground"@,
        WorkspaceKey::Foreground => "foreground"@,
        WorkspaceKey::EditorLineHighlightBackground => "editor.lineHighlightBackground"@,
        WorkspaceKey::EditorSelectionBackground => "editor.selectionBackground"@,
        WorkspaceKey::EditorCursorForeground => "editorCursor.foreground"@,
        WorkspaceKey::TerminalCursorForeground => "terminalCursor.foreground"@,
        WorkspaceKey::EditorCursorBackground => "editorCursor.background"@,
        WorkspaceKey::TerminalCursorBackground => "terminalCursor.background"@,
        WorkspaceKey::ActivityBarBackground => "activityBar.background"@,
        WorkspaceKey::SideBarBackground => "sideBar.background"@,
        WorkspaceKey::ActivityBarForeground => "activityBar.foreground"@,
        WorkspaceKey::ActivityBarInactiveForeground => "activityBar.inactiveForeground"@,
        WorkspaceKey::StatusBarForeground => "statusBar.foreground"@,
        WorkspaceKey::StatusBarBackground => "statusBar.background"@,
        WorkspaceKey::StatusBarDebuggingBackground => "statusBar.debuggingBackground"@,
        WorkspaceKey::StatusBarNoFolderBackground => "statusBar.noFolderBackground"@,
        WorkspaceKey::EditorLineNumberForeground => "editorLineNumber.foreground"@,
        WorkspaceKey::EditorLineNumberActiveForeground => "editorLineNumber.activeForeground"@,
        WorkspaceKey::EditorWidgetBackground => "editorWidget.background"@,
        WorkspaceKey::ListHighlightForeground => "list.highlightForeground"@,
        WorkspaceKey::ListFocusBackground => "list.focusBackground"@,
        WorkspaceKey::ListActiveSelectionBackground => "list.activeSelectionBackground"@,
        WorkspaceKey::EditorGroupHeaderTabsBackground => "editorGroupHeader.tabsBackground"@,
        WorkspaceKey::TabInactiveBackground => "tab.inactiveBackground"@,
        WorkspaceKey::TabActiveBackground => "tab.activeBackground"@,
        WorkspaceKey::TabInactiveForeground => "tab.inactiveForeground"@,
        WorkspaceKey::TabActiveForeground => "tab.activeForeground"@,
        WorkspaceKey::TitleBarActiveBackground => "titleBar.activeBackground"@,
        WorkspaceKey::TitleBarInactiveBackground => "titleBar.inactiveBackground"@,
        WorkspaceKey::TitleBarActiveForeground => "titleBar.activeForeground"@,
        WorkspaceKey::TitleBarInactiveForeground => "titleBar.inactiveForeground"@,
        WorkspaceKey::BreadcrumbForeground => "breadcrumb.foreground"@,
        WorkspaceKey::BreadcrumbFocusForeground => "breadcrumb.focusForeground"@,
        WorkspaceKey::TerminalForeground => "terminal.foreground"@,
        WorkspaceKey::TerminalAnsiBlack => "terminal.ansiBlack"@,
        WorkspaceKey::TerminalAnsiBrightBlack => "terminal.ansiBrightBlack"@,
        WorkspaceKey::TerminalAnsiRed => "terminal.ansiRed"@,
        WorkspaceKey::TerminalAnsiBrightRed => "terminal.ansiBrightRed"@,
        WorkspaceKey::TerminalAnsiGreen => "terminal.ansiGreen"@,
        WorkspaceKey::TerminalAnsiBrightGreen => "terminal.ansiBrightGreen"@,
        WorkspaceKey::TerminalAnsiYellow => "terminal.ansiYellow"@,
        WorkspaceKey::TerminalAnsiBrightYellow => "terminal.ansiBrightYellow"@,
        WorkspaceKey::TerminalAnsiBlue => "terminal.ansiBlue"@,
        WorkspaceKey::TerminalAnsiBrightBlue => "terminal.ansiBrightBlue"@,
        WorkspaceKey::TerminalAnsiMagenta => "terminal.ansiMagenta"@,
        WorkspaceKey::TerminalAnsiBrightMagenta => "terminal.ansiBrightMagenta"@,
        WorkspaceKey::TerminalAnsiCyan => "terminal.ansiCyan"@,
        WorkspaceKey::TerminalAnsiBrightCyan => "terminal.ansiBrightCyan"@,
        WorkspaceKey::TerminalAnsiWhite => "terminal.ansiWhite"@,
        WorkspaceKey::TerminalAnsiBrightWhite => "terminal.ansiBrightWhite"@,
        WorkspaceKey::FocusBorder => "focusBorder"@,
        WorkspaceKey::RustAnalyzerInlayHintsForeground => "rust_analyzer.inlayHints.foreground"@,
        WorkspaceKey::EditorInlayHintForeground => "editorInlayHint.foreground"@,
        WorkspaceKey::EditorInlayHintParameterForeground => "editorInlayHint.parameterForeground"@,
        WorkspaceKey::EditorInlayHintTypeForeground => "editorInlayHint.typeForeground"@,
    }
}

/// Renders the identifier verbatim; see [`workspace_key_name`].
pub fn workspace_key_text(k: WorkspaceKey) -> (r: &'static str)
    ensures
        r@ == workspace_key_name(k),
{
    match k {
        WorkspaceKey::EditorBackground => "editor.background",
        WorkspaceKey::EditorInlayHintBackground => "editorInlayHint.background",
        WorkspaceKey::EditorInlayHintParameterBackground => "editorInlayHint.parameterBackground",
        WorkspaceKey::EditorInlayHintTypeBackground => "editorInlayHint.typeBackground",
        WorkspaceKey::EditorForeground => "editor.foreground",
        WorkspaceKey::Foreground => "foreground",
        WorkspaceKey::EditorLineHighlightBackground => "editor.lineHighlightBackground",
        WorkspaceKey::EditorSelectionBackground => "editor.selectionBackground",
        WorkspaceKey::EditorCursorForeground => "editorCursor.foreground",
        WorkspaceKey::TerminalCursorForeground => "terminalCursor.foreground",
        WorkspaceKey::EditorCursorBackground => "editorCursor.background",
        WorkspaceKey::TerminalCursorBackground => "terminalCursor.background",
        WorkspaceKey::ActivityBarBackground => "activityBar.background",
        WorkspaceKey::SideBarBackground => "sideBar.background",
        WorkspaceKey::ActivityBarForeground => "activityBar.foreground",
        WorkspaceKey::ActivityBarInactiveForeground => "activityBar.inactiveForeground",
        WorkspaceKey::StatusBarForeground => "statusBar.foreground",
        WorkspaceKey::StatusBarBackground => "statusBar.background",
        WorkspaceKey::StatusBarDebuggingBackground => "statusBar.debuggingBackground",
        WorkspaceKey::StatusBarNoFolderBackground => "statusBar.noFolderBackground",
        WorkspaceKey::EditorLineNumberForeground => "editorLineNumber.foreground",
        WorkspaceKey::EditorLineNumberActiveForeground => "editorLineNumber.activeForeground",
        WorkspaceKey::EditorWidgetBackground => "editorWidget.background",
        WorkspaceKey::ListHighlightForeground => "list.highlightForeground",
        WorkspaceKey::ListFocusBackground => "list.focusBackground",
        WorkspaceKey::ListActiveSelectionBackground => "list.activeSelectionBackground",
        WorkspaceKey::EditorGroupHeaderTabsBackground => "editorGroupHeader.tabsBackground",
        WorkspaceKey::TabInactiveBackground => "tab.inactiveBackground",
        WorkspaceKey::TabActiveBackground => "tab.activeBackground",
        WorkspaceKey::TabInactiveForeground => "tab.inactiveForeground",
        WorkspaceKey::TabActiveForeground => "tab.activeForeground",
        WorkspaceKey::TitleBarActiveBackground => "titleBar.activeBackground",
        WorkspaceKey::TitleBarInactiveBackground => "titleBar.inactiveBackground",
        WorkspaceKey::TitleBarActiveForeground => "titleBar.activeForeground",
        WorkspaceKey::TitleBarInactiveForeground => "titleBar.inactiveForeground",
        WorkspaceKey::BreadcrumbForeground => "breadcrumb.foreground",
        WorkspaceKey::BreadcrumbFocusForeground => "breadcrumb.focusForeground",
        WorkspaceKey::TerminalForeground => "terminal.foreground",
        WorkspaceKey::TerminalAnsiBlack => "terminal.ansiBlack",
        WorkspaceKey::TerminalAnsiBrightBlack => "terminal.ansiBrightBlack",
        WorkspaceKey::TerminalAnsiRed => "terminal.ansiRed",
        WorkspaceKey::TerminalAnsiBrightRed => "terminal.ansiBrightRed",
        WorkspaceKey::TerminalAnsiGreen => "terminal.ansiGreen",
        WorkspaceKey::TerminalAnsiBrightGreen => "terminal.ansiBrightGreen",
        WorkspaceKey::TerminalAnsiYellow => "terminal.ansiYellow",
        WorkspaceKey::TerminalAnsiBrightYellow => "terminal.ansiBrightYellow",
        WorkspaceKey::TerminalAnsiBlue => "terminal.ansiBlue",
        WorkspaceKey::TerminalAnsiBrightBlue => "terminal.ansiBrightBlue",
        WorkspaceKey::TerminalAnsiMagenta => "terminal.ansiMagenta",
        WorkspaceKey::TerminalAnsiBrightMagenta => "terminal.ansiBrightMagenta",
        WorkspaceKey::TerminalAnsiCyan => "terminal.ansiCyan",
        WorkspaceKey::TerminalAnsiBrightCyan => "terminal.ansiBrightCyan",
        WorkspaceKey::TerminalAnsiWhite => "terminal.ansiWhite",
        WorkspaceKey::TerminalAnsiBrightWhite => "terminal.ansiBrightWhite",
        WorkspaceKey::FocusBorder => "focusBorder",
        WorkspaceKey::RustAnalyzerInlayHintsForeground => "rust_analyzer.inlayHints.foreground",
        WorkspaceKey::EditorInlayHintForeground => "editorInlayHint.foreground",
        WorkspaceKey::EditorInlayHintParameterForeground => "editorInlayHint.parameterForeground",
        WorkspaceKey::EditorInlayHintTypeForeground => "editorInlayHint.typeForeground",
    }
}

/// The literal identifier each semantic scope renders to in the theme schema.
pub open spec fn semantic_scope_name(k: SemanticScope) -> Seq<char> {
    match k {
        SemanticScope::Keyword => "keyword"@,
        SemanticScope::AnyControlFlow => "*.controlFlow"@,
        SemanticScope::FunctionTrait => "function.trait"@,
        SemanticScope::MethodTrait => "method.trait"@,
        SemanticScope::Type => "type"@,
        SemanticScope::Class => "class"@,
        SemanticScope::Struct => "struct"@,
        SemanticScope::Enum => "enum"@,
        SemanticScope::Union => "union"@,
        SemanticScope::TypeAlias => "typeAlias"@,
        SemanticScope::BuiltinType => "builtinType"@,
        SemanticScope::Interface => "interface"@,
        SemanticScope::TypeAliasTrait => "typeAlias.trait"@,
        SemanticScope::TypeParameter => "typeParameter"@,
        SemanticScope::VariableConstant => "variable.constant"@,
        SemanticScope::VariableStatic => "variable.static"@,
        SemanticScope::VariableConstantTrait => "variable.constant.trait"@,
        SemanticScope::Number => "number"@,
        SemanticScope::Str => "string"@,
        SemanticScope::CharacterLiteral => "characterLiteral"@,
        SemanticScope::Property => "property"@,
        SemanticScope::EnumMember => "enumMember"@,
        SemanticScope::Boolean => "boolean"@,
        SemanticScope::Macro => "macro"@,
        SemanticScope::FormatSpecifier => "formatSpecifier"@,
        SemanticScope::EscapeSequence => "escapeSequence"@,
        SemanticScope::Lifetime => "lifetime"@,
        SemanticScope::Comment => "comment"@,
        SemanticScope::CommentDocumentation => "comment.documentation"@,
        SemanticScope::AnyAttribute => "*.attribute"@,
        SemanticScope::UnresolvedReference => "unresolvedReference"@,
        SemanticScope::MagitRefName => "magit-ref-name"@,
        SemanticScope::MagitRemoteRefName => "magit-remote-ref-name"@,
        SemanticScope::MagitTagName => "magit-tag-name"@,
        SemanticScope::AnyUnsafe => "*.unsafe"@,
        SemanticScope::AnyMutable => "*.mutable"@,
        SemanticScope::AnyConsuming => "*.consuming"@,
        SemanticScope::AnyPublicDeclaration => "*.public.declaration"@,
    }
}

/// Renders the identifier verbatim; see [`semantic_scope_name`].
pub fn semantic_scope_text(k: SemanticScope) -> (r: &'static str)
    ensures
        r@ == semantic_scope_name(k),
{
    match k {
        SemanticScope::Keyword => "keyword",
        SemanticScope::AnyControlFlow => "*.controlFlow",
        SemanticScope::FunctionTrait => "function.trait",
        SemanticScope::MethodTrait => "method.trait",
        SemanticScope::Type => "type",
        SemanticScope::Class => "class",
        SemanticScope::Struct => "struct",
        SemanticScope::Enum => "enum",
        SemanticScope::Union => "union",
        SemanticScope::TypeAlias => "typeAlias",
        SemanticScope::BuiltinType => "builtinType",
        SemanticScope::Interface => "interface",
        SemanticScope::TypeAliasTrait => "typeAlias.trait",
        SemanticScope::TypeParameter => "typeParameter",
        SemanticScope::VariableConstant => "variable.constant",
        SemanticScope::VariableStatic => "variable.static",
        SemanticScope::VariableConstantTrait => "variable.constant.trait",
        SemanticScope::Number => "number",
        SemanticScope::Str => "string",
        SemanticScope::CharacterLiteral => "characterLiteral",
        SemanticScope::Property => "property",
        SemanticScope::EnumMember => "enumMember",
        SemanticScope::Boolean => "boolean",
        SemanticScope::Macro => "macro",
        SemanticScope::FormatSpecifier => "formatSpecifier",
        SemanticScope::EscapeSequence => "escapeSequence",
        SemanticScope::Lifetime => "lifetime",
        SemanticScope::Comment => "comment",
        SemanticScope::CommentDocumentation => "comment.documentation",
        SemanticScope::AnyAttribute => "*.attribute",
        SemanticScope::UnresolvedReference => "unresolvedReference",
        SemanticScope::MagitRefName => "magit-ref-name",
        SemanticScope::MagitRemoteRefName => "magit-remote-ref-name",
        SemanticScope::MagitTagName => "magit-tag-name",
        SemanticScope::AnyUnsafe => "*.unsafe",
        SemanticScope::AnyMutable => "*.mutable",
        SemanticScope::AnyConsuming => "*.consuming",
        SemanticScope::AnyPublicDeclaration => "*.public.declaration",
    }
}

/// The literal identifier each textmate scope renders to in the theme schema.
pub open spec fn textmate_scope_name(k: TextmateScope) -> Seq<char> {
    match k {
        TextmateScope::Keyword => "keyword"@,
        TextmateScope::Storage => "storage"@,
        TextmateScope::VariableLanguageSelf => "variable.language.self"@,
        TextmateScope::VariableLanguageThis => "variable.language.this"@,
        TextmateScope::KeywordTypeGo => "keyword.type.go"@,
        TextmateScope::KeywordControl => "keyword.control"@,
        TextmateScope::EntityNameType => "entity.name.type"@,
        TextmateScope::KeywordType => "keyword.type"@,
        TextmateScope::StorageTypeCs => "storage.type.cs"@,
        TextmateScope::StorageTypeJava => "storage.type.java"@,
        TextmateScope::StorageTypeBooleanGo => "storage.type.boolean.go"@,
        TextmateScope::StorageTypeByteGo => "storage.type.byte.go"@,
        TextmateScope::StorageTypeErrorGo => "storage.type.error.go"@,
        TextmateScope::StorageTypeNumericGo => "storage.type.numeric.go"@,
        TextmateScope::StorageTypeRuneGo => "storage.type.rune.go"@,
        TextmateScope::StorageTypeStringGo => "storage.type.string.go"@,
        TextmateScope::StorageTypeUintptrGo => "storage.type.uintptr.go"@,
        TextmateScope::EntityNameTypeInterface => "entity.name.type.interface"@,
        TextmateScope::EntityNameTypeTypeParameter => "entity.name.type.type-parameter"@,
        TextmateScope::Constant => "constant"@,
        TextmateScope::ConstantNumeric => "constant.numeric"@,
        TextmateScope::Str => "string"@,
        TextmateScope::EntityNameVariableField => "entity.name.variable.field"@,
        TextmateScope::EntityNameVariableProperty => "entity.name.variable.property"@,
        TextmateScope::VariableOtherMember => "variable.other.member"@,
        TextmateScope::VariableOtherObjectProperty => "variable.other.object.property"@,
        TextmateScope::VariableOtherReadwriteInstance => "variable.other.readwrite.instance"@,
        TextmateScope::SupportTypePropertyName => "support.type.property-name"@,
        TextmateScope::EntityNameVariableEnumMember => "entity.name.variable.enum-member"@,
        TextmateScope::ConstantOtherEnum => "constant.other.enum"@,
        TextmateScope::VariableOtherEnummember => "variable.other.enummember"@,
        TextmateScope::EntityNameTypeOption => "entity.name.type.option"@,
        TextmateScope::EntityNameTypeResult => "entity.name.type.result"@,
        TextmateScope::EntityNameFunctionMacro => "entity.name.function.macro"@,
        TextmateScope::EntityNameFunctionPreprocessor => "entity.name.function.preprocessor"@,
        TextmateScope::ConstantOtherPlaceholder => "constant.other.placeholder"@,
        TextmateScope::PunctuationDefinitionInterpolation => "punctuation.definition.interpolation"@,
        TextmateScope::PunctuationSectionEmbedded => "punctuation.section.embedded"@,
        TextmateScope::ConstantCharacterEscape => "constant.character.escape"@,
        TextmateScope::Comment => "comment"@,
        TextmateScope::CommentLineDocumentation => "comment.line.documentation"@,
        TextmateScope::CommentBlockDocumentation => "comment.block.documentation"@,
        TextmateScope::CommentBlockJavadoc => "comment.block.javadoc"@,
        TextmateScope::EntityNameFunctionDecorator => "entity.name.function.decorator"@,
        TextmateScope::StorageTypeAnnotation => "storage.type.annotation"@,
        TextmateScope::PunctuationDefinitionAnnotation => "punctuation.definition.annotation"@,
        TextmateScope::KeywordOperator => "keyword.operator"@,
        TextmateScope::MarkupDeleted => "markup.deleted"@,
        TextmateScope::MarkupInserted => "markup.inserted"@,
        TextmateScope::MarkupChanged => "markup.changed"@,
        TextmateScope::MetaDiff => "meta.diff"@,
        TextmateScope::CommentLineNumberSignGitCommit => "comment.line.number-sign.git-commit"@,
        TextmateScope::InvalidDeprecatedLineTooLongGitCommit => "invalid.deprecated.line-too-long.git-commit"@,
        TextmateScope::InvalidIllegalLineTooLongGitCommit => "invalid.illegal.line-too-long.git-commit"@,
        TextmateScope::MagitEntity => "magit.entity"@,
        TextmateScope::MagitHeader => "magit.header"@,
        TextmateScope::MagitSubheader => "magit.subheader"@,
    }
}

/// Renders the identifier verbatim; see [`textmate_scope_name`].
pub fn textmate_scope_text(k: TextmateScope) -> (r: &'static str)
    ensures
        r@ == textmate_scope_name(k),
{
    match k {
        TextmateScope::Keyword => "keyword",
        TextmateScope::Storage => "storage",
        TextmateScope::VariableLanguageSelf => "variable.language.self",
        TextmateScope::VariableLanguageThis => "variable.language.this",
        TextmateScope::KeywordTypeGo => "keyword.type.go",
        TextmateScope::KeywordControl => "keyword.control",
        TextmateScope::EntityNameType => "entity.name.type",
        TextmateScope::KeywordType => "keyword.type",
        TextmateScope::StorageTypeCs => "storage.type.cs",
        TextmateScope::StorageTypeJava => "storage.type.java",
        TextmateScope::StorageTypeBooleanGo => "storage.type.boolean.go",
        TextmateScope::StorageTypeByteGo => "storage.type.byte.go",
        TextmateScope::StorageTypeErrorGo => "storage.type.error.go",
        TextmateScope::StorageTypeNumericGo => "storage.type.numeric.go",
        TextmateScope::StorageTypeRuneGo => "storage.type.rune.go",
        TextmateScope::StorageTypeStringGo => "storage.type.string.go",
        TextmateScope::StorageTypeUintptrGo => "storage.type.uintptr.go",
        TextmateScope::EntityNameTypeInterface => "entity.name.type.interface",
        TextmateScope::EntityNameTypeTypeParameter => "entity.name.type.type-parameter",
        TextmateScope::Constant => "constant",
        TextmateScope::ConstantNumeric => "constant.numeric",
        TextmateScope::Str => "string",
        TextmateScope::EntityNameVariableField => "entity.name.variable.field",
        TextmateScope::EntityNameVariableProperty => "entity.name.variable.property",
        TextmateScope::VariableOtherMember => "variable.other.member",
        TextmateScope::VariableOtherObjectProperty => "variable.other.object.property",
        TextmateScope::VariableOtherReadwriteInstance => "variable.other.readwrite.instance",
        TextmateScope::SupportTypePropertyName => "support.type.property-name",
        TextmateScope::EntityNameVariableEnumMember => "entity.name.variable.enum-member",
        TextmateScope::ConstantOtherEnum => "constant.other.enum",
        TextmateScope::VariableOtherEnummember => "variable.other.enummember",
        TextmateScope::EntityNameTypeOption => "entity.name.type.option",
        TextmateScope::EntityNameTypeResult => "entity.name.type.result",
        TextmateScope::EntityNameFunctionMacro => "entity.name.function.macro",
        TextmateScope::EntityNameFunctionPreprocessor => "entity.name.function.preprocessor",
        TextmateScope::ConstantOtherPlaceholder => "constant.other.placeholder",
        TextmateScope::PunctuationDefinitionInterpolation => "punctuation.definition.interpolation",
        TextmateScope::PunctuationSectionEmbedded => "punctuation.section.embedded",
        TextmateScope::ConstantCharacterEscape => "constant.character.escape",
        TextmateScope::Comment => "comment",
        TextmateScope::CommentLineDocumentation => "comment.line.documentation",
        TextmateScope::CommentBlockDocumentation => "comment.block.documentation",
        TextmateScope::CommentBlockJavadoc => "comment.block.javadoc",
        TextmateScope::EntityNameFunctionDecorator => "entity.name.function.decorator",
        TextmateScope::StorageTypeAnnotation => "storage.type.annotation",
        TextmateScope::PunctuationDefinitionAnnotation => "punctuation.definition.annotation",
        TextmateScope::KeywordOperator => "keyword.operator",
        TextmateScope::MarkupDeleted => "markup.deleted",
        TextmateScope::MarkupInserted => "markup.inserted",
        TextmateScope::MarkupChanged => "markup.changed",
        TextmateScope::MetaDiff => "meta.diff",
        TextmateScope::CommentLineNumberSignGitCommit => "comment.line.number-sign.git-commit",
        TextmateScope::InvalidDeprecatedLineTooLongGitCommit => "invalid.deprecated.line-too-long.git-commit",
        TextmateScope::InvalidIllegalLineTooLongGitCommit => "invalid.illegal.line-too-long.git-commit",
        TextmateScope::MagitEntity => "magit.entity",
        TextmateScope::MagitHeader => "magit.header",
        TextmateScope::MagitSubheader => "magit.subheader",
    }
}

/// An abstract scope identifier: one key of the fixed catalog, tagged by
/// the namespace it belongs to.
#[derive(Clone, Copy, Debug, PartialEq, Eq, Structural)]
pub enum ScopeId {
    Workspace(WorkspaceKey),
    Semantic(SemanticScope),
    Textmate(TextmateScope),
}

/// The literal identifier a scope renders to, without its namespace tag.
pub open spec fn scope_name(s: ScopeId) -> Seq<char> {
    match s {
        ScopeId::Workspace(k) => workspace_key_name(k),
        ScopeId::Semantic(k) => semantic_scope_name(k),
        ScopeId::Textmate(k) => textmate_scope_name(k),
    }
}

/// Renders the identifier verbatim; see [`scope_name`].
pub fn scope_text(s: ScopeId) -> (r: &'static str)
    ensures
        r@ == scope_name(s),
{
    match s {
        ScopeId::Workspace(k) => workspace_key_text(k),
        ScopeId::Semantic(k) => semantic_scope_text(k),
        ScopeId::Textmate(k) => textmate_scope_text(k),
    }
}

} // verus!
