//! Entries of the compatibility report: features used, features refused, and
//! how legacy-dialect constructs were translated or emulated.
use vstd::prelude::*;

use vstd::string::*;

use crate::syntax::{diags_view, error_view, push_error, DiagView, Diagnostic, Span};

verus! {

/// A supported feature the script uses.
#[derive(Clone, Debug)]
pub struct FeatureUse {
    pub feature: String,
    pub span: Span,
}

/// A feature the script uses that the runtime refuses, with the reason.
#[derive(Clone, Debug)]
pub struct UnsupportedFeature {
    pub feature: String,
    pub reason: String,
    pub span: Span,
}

/// How a legacy-dialect construct maps to its current form.
#[derive(Clone, Copy, Debug, PartialEq, Eq, Structural, Hash)]
pub enum LegacyTranslationKind {
    ExactAlias,
    SymbolAlias,
    ConstantAlias,
    ParameterRename,
    SignatureReshape,
    ExpressionDesugar,
    OutputAdaptation,
}

pub open spec fn spec_legacy_translation_kind_name(kind: LegacyTranslationKind) -> Seq<char> {
    match kind {
        LegacyTranslationKind::ExactAlias => "exactAlias"@,
        LegacyTranslationKind::SymbolAlias => "symbolAlias"@,
        LegacyTranslationKind::ConstantAlias => "constantAlias"@,
        LegacyTranslationKind::ParameterRename => "parameterRename"@,
        LegacyTranslationKind::SignatureReshape => "signatureReshape"@,
        LegacyTranslationKind::ExpressionDesugar => "expressionDesugar"@,
        LegacyTranslationKind::OutputAdaptation => "outputAdaptation"@,
    }
}

impl LegacyTranslationKind {
    /// The report name of the kind.
    pub fn name(self) -> (r: &'static str)
        ensures
            r@ == spec_legacy_translation_kind_name(self),
    {
        match self {
            LegacyTranslationKind::ExactAlias => "exactAlias",
            LegacyTranslationKind::SymbolAlias => "symbolAlias",
            LegacyTranslationKind::ConstantAlias => "constantAlias",
            LegacyTranslationKind::ParameterRename => "parameterRename",
            LegacyTranslationKind::SignatureReshape => "signatureReshape",
            LegacyTranslationKind::ExpressionDesugar => "expressionDesugar",
            LegacyTranslationKind::OutputAdaptation => "outputAdaptation",
        }
    }
}

/// A legacy construct and the canonical feature it was translated to.
#[derive(Clone, Debug)]
pub struct LegacyTranslation {
    pub source_feature: String,
    pub canonical_feature: String,
    pub kind: LegacyTranslationKind,
    pub span: Span,
}

/// A legacy behavior the runtime emulates.
#[derive(Clone, Debug)]
pub struct LegacyEmulation {
    pub feature: String,
    pub behavior: String,
    pub span: Span,
}

/// A translation's report name identifies its kind: no two kinds share a name.
pub proof fn lemma_translation_kind_names_are_distinct(a: LegacyTranslationKind, b: LegacyTranslationKind)
    ensures
        spec_legacy_translation_kind_name(a) == spec_legacy_translation_kind_name(b) ==> a == b,
{
    reveal_strlit("exactAlias");
    reveal_strlit("symbolAlias");
    reveal_strlit("constantAlias");
    reveal_strlit("parameterRename");
    reveal_strlit("signatureReshape");
    reveal_strlit("expressionDesugar");
    reveal_strlit("outputAdaptation");
    assert("exactAlias"@.len() == 10);
    assert("symbolAlias"@.len() == 11);
    assert("constantAlias"@.len() == 13);
    assert("parameterRename"@.len() == 15);
    assert("signatureReshape"@.len() == 16);
    assert("expressionDesugar"@.len() == 17);
    assert("outputAdaptation"@.len() == 16);
    assert("signatureReshape"@[0] != "outputAdaptation"@[0]);
}

/// The dialect of the language a script is written in, by version.
#[derive(Clone, Copy, Debug, PartialEq, Eq, Structural, Hash)]
pub enum PineDialect {
    V1,
    V2,
    V3,
    V4,
    V5,
    V6,
}

pub open spec fn spec_dialect_version(d: PineDialect) -> u16 {
    match d {
        PineDialect::V1 => 1,
        PineDialect::V2 => 2,
        PineDialect::V3 => 3,
        PineDialect::V4 => 4,
        PineDialect::V5 => 5,
        PineDialect::V6 => 6,
    }
}

impl PineDialect {
    /// The language version of the dialect.
    pub fn version(self) -> (r: u16)
        ensures
            r == spec_dialect_version(self),
    {
        match self {
            PineDialect::V1 => 1,
            PineDialect::V2 => 2,
            PineDialect::V3 => 3,
            PineDialect::V4 => 4,
            PineDialect::V5 => 5,
            PineDialect::V6 => 6,
        }
    }
}

/// Where a script's language version comes from: a script without a
/// version annotation is version 1; otherwise its annotation gives it.
#[derive(Clone, Copy, Debug, PartialEq, Eq, Structural, Hash)]
pub enum VersionOrigin {
    ImplicitV1,
    Annotation,
}

/// What kind of script the declarations make: none yet, an indicator, a
/// strategy or a library.
#[derive(Clone, Copy, Debug, PartialEq, Eq, Structural, Hash)]
pub enum ScriptModeClassification {
    Missing,
    Indicator,
    Strategy,
    Library,
}

/// What the analysis reports of a script's compatibility: its language
/// version, dialect and kind, the supported features it uses, the features
/// refused, and the legacy constructs translated or emulated.
#[derive(Clone, Debug)]
pub struct CompatibilityReport {
    pub language_version: Option<u16>,
    pub language_version_origin: VersionOrigin,
    pub dialect: Option<PineDialect>,
    pub script_mode: ScriptModeClassification,
    pub supported: Vec<FeatureUse>,
    pub unsupported: Vec<UnsupportedFeature>,
    pub legacy_translations: Vec<LegacyTranslation>,
    pub legacy_emulations: Vec<LegacyEmulation>,
}

impl Default for CompatibilityReport {
    /// The report of a script not yet analyzed: implicitly version 1, with
    /// no declaration and nothing recorded.
    fn default() -> (r: CompatibilityReport)
        ensures
            r.language_version == Some(1u16),
            r.language_version_origin == VersionOrigin::ImplicitV1,
            r.dialect == Some(PineDialect::V1),
            r.script_mode == ScriptModeClassification::Missing,
            r.supported@.len() == 0,
            r.unsupported@.len() == 0,
            r.legacy_translations@.len() == 0,
            r.legacy_emulations@.len() == 0,
    {
        CompatibilityReport {
            language_version: Some(1),
            language_version_origin: VersionOrigin::ImplicitV1,
            dialect: Some(PineDialect::V1),
            script_mode: ScriptModeClassification::Missing,
            supported: Vec::new(),
            unsupported: Vec::new(),
            legacy_translations: Vec::new(),
            legacy_emulations: Vec::new(),
        }
    }
}

/// A refused feature as plain values: (feature, reason, span).
pub type UnsupportedView = (Seq<char>, Seq<char>, Span);

pub open spec fn unsupported_view(s: Seq<UnsupportedFeature>) -> Seq<UnsupportedView> {
    s.map_values(|u: UnsupportedFeature| (u.feature@, u.reason@, u.span))
}

/// The diagnostic that goes with a refused feature.
pub open spec fn unsupported_diag(feature: Seq<char>, reason: Seq<char>, span: Span) -> DiagView {
    error_view("E_UNSUPPORTED_FEATURE"@, "`"@ + feature + "` is not supported: "@ + reason, span)
}

/// A refused feature is never silent: its diagnostic is an error, at the
/// feature's own span, that names the feature and gives the reason.
pub proof fn lemma_refusal_is_an_error_at_its_span(feature: Seq<char>, reason: Seq<char>, span: Span)
    ensures
        unsupported_diag(feature, reason, span).severity == crate::syntax::Severity::Error,
        unsupported_diag(feature, reason, span).code == "E_UNSUPPORTED_FEATURE"@,
        unsupported_diag(feature, reason, span).span == span,
        unsupported_diag(feature, reason, span).message.subrange(1, 1 + feature.len() as int) == feature,
        unsupported_diag(feature, reason, span).message.subrange(
            unsupported_diag(feature, reason, span).message.len() - reason.len(),
            unsupported_diag(feature, reason, span).message.len() as int,
        ) == reason,
{
    reveal_strlit("`");
    reveal_strlit("` is not supported: ");
    let m = unsupported_diag(feature, reason, span).message;
    assert(m =~= "`"@ + feature + "` is not supported: "@ + reason);
    assert(m.subrange(1, 1 + feature.len() as int) =~= feature);
    assert(m.subrange(m.len() - reason.len(), m.len() as int) =~= reason);
}

/// Records `feature` as refused for `reason`, in the compatibility report
/// and as an error diagnostic.
pub fn unsupported(
    feature: &str,
    reason: &str,
    span: Span,
    report: &mut Vec<UnsupportedFeature>,
    diagnostics: &mut Vec<Diagnostic>,
)
    ensures
        unsupported_view(final(report)@) == unsupported_view(old(report)@) + seq![
            (feature@, reason@, span),
        ],
        diags_view(final(diagnostics)@) == diags_view(old(diagnostics)@) + seq![
            unsupported_diag(feature@, reason@, span),
        ],
{
    let ghost before = unsupported_view(report@);
    report.push(
        UnsupportedFeature {
            feature: String::from_str(feature),
            reason: String::from_str(reason),
            span,
        },
    );
    assert(unsupported_view(report@) =~= before + seq![(feature@, reason@, span)]);
    let s = String::from_str("`");
    let s = s.concat(feature);
    let s = s.concat("` is not supported: ");
    let s = s.concat(reason);
    push_error(diagnostics, "E_UNSUPPORTED_FEATURE", s, span);
}

/// A supported feature as plain values: (feature, span).
pub open spec fn feature_uses_view(s: Seq<FeatureUse>) -> Seq<(Seq<char>, Span)> {
    s.map_values(|f: FeatureUse| (f.feature@, f.span))
}

/// Records `feature` as a supported feature in use.
pub fn push_feature_use(supported: &mut Vec<FeatureUse>, feature: &str, span: Span)
    ensures
        feature_uses_view(final(supported)@) == feature_uses_view(old(supported)@) + seq![
            (feature@, span),
        ],
{
    let ghost before = feature_uses_view(supported@);
    supported.push(FeatureUse { feature: String::from_str(feature), span });
    assert(feature_uses_view(supported@) =~= before + seq![(feature@, span)]);
}

} // verus!
