//! Data model of the build-time half.
//!
//! The transformer works on a plain description of the hook-shaped function
//! being rewritten: paths, types, attributes, the signature and the emitted
//! component. Each type carries a mathematical view (`deep_view`) that the
//! contracts of the analyzer, resolver and transformer are stated over.
//!
//! Spans are plain numbers naming source locations; the model never reads
//! them, it only carries them into diagnostics and generated items. The
//! span of freshly synthesized tokens is `SPAN_CALL_SITE`.

use vstd::prelude::*;

verus! {

/// Span given to tokens the transformer makes up itself.
pub const SPAN_CALL_SITE: u64 = 0;

// ---------------------------------------------------------------------
// Paths
// ---------------------------------------------------------------------

/// A module path: optional leading `::`, then identifier segments.
#[derive(Debug, PartialEq, Eq)]
pub struct SimplePath {
    pub leading_colon: bool,
    pub segments: Vec<String>,
}

/// Mathematical view of a [`SimplePath`].
#[verifier::ext_equal]
pub ghost struct PathV {
    pub leading_colon: bool,
    pub segments: Seq<Seq<char>>,
}

impl DeepView for SimplePath {
    type V = PathV;

    open spec fn deep_view(&self) -> PathV {
        PathV { leading_colon: self.leading_colon, segments: self.segments.deep_view() }
    }
}

impl SimplePath {
    /// An exact copy.
    pub fn duplicate(&self) -> (r: Self)
        ensures
            r.deep_view() == self.deep_view(),
    {
        let segments = self.segments.clone();
        proof {
            assert(segments.deep_view() =~= self.segments.deep_view());
        }
        SimplePath { leading_colon: self.leading_colon, segments }
    }
}

// ---------------------------------------------------------------------
// Types
// ---------------------------------------------------------------------

/// A type as far as the transformer reads it: the unit type, a path type,
/// an inferred placeholder `_`, a reference `&T`, or anything else kept as
/// uninterpreted text.
#[derive(Debug, PartialEq, Eq)]
pub enum TypeModel {
    Unit,
    Path(SimplePath),
    Infer,
    Reference(Box<TypeModel>),
    Other(String),
}

/// The shape under all leading references of a type.
#[verifier::ext_equal]
pub ghost enum BaseTypeV {
    Unit,
    Path(PathV),
    Infer,
    Other(Seq<char>),
}

/// Mathematical view of a [`TypeModel`]: every type is some number of
/// references wrapped around a base shape.
#[verifier::ext_equal]
pub ghost struct TypeV {
    pub ref_depth: nat,
    pub base: BaseTypeV,
}

/// View of a type, peeling references into a depth count.
pub open spec fn type_view(t: TypeModel) -> TypeV
    decreases t,
{
    match t {
        TypeModel::Unit => TypeV { ref_depth: 0, base: BaseTypeV::Unit },
        TypeModel::Path(p) => TypeV { ref_depth: 0, base: BaseTypeV::Path(p.deep_view()) },
        TypeModel::Infer => TypeV { ref_depth: 0, base: BaseTypeV::Infer },
        TypeModel::Reference(e) => {
            let inner = type_view(*e);
            TypeV { ref_depth: inner.ref_depth + 1, base: inner.base }
        },
        TypeModel::Other(s) => TypeV { ref_depth: 0, base: BaseTypeV::Other(s@) },
    }
}

impl DeepView for TypeModel {
    type V = TypeV;

    open spec fn deep_view(&self) -> TypeV {
        type_view(*self)
    }
}

impl TypeModel {
    /// An exact copy.
    pub fn duplicate(&self) -> (r: Self)
        ensures
            r.deep_view() == self.deep_view(),
        decreases *self,
    {
        match self {
            TypeModel::Unit => TypeModel::Unit,
            TypeModel::Path(p) => TypeModel::Path(p.duplicate()),
            TypeModel::Infer => TypeModel::Infer,
            TypeModel::Reference(e) => TypeModel::Reference(Box::new(e.duplicate())),
            TypeModel::Other(s) => TypeModel::Other(s.clone()),
        }
    }
}

// ---------------------------------------------------------------------
// Attributes
// ---------------------------------------------------------------------

/// Whether an attribute was written outer (`#[..]`) or inner (`#![..]`).
#[derive(Clone, Copy, Debug, PartialEq, Eq, Structural)]
pub enum AttrStyle {
    Outer,
    Inner,
}

/// The argument tokens of an attribute: nothing, uninterpreted text, or a
/// path that the emitter renders as the string-literal argument
/// `(hooks_core_path = "...")` of the hook-behavior attribute.
#[derive(Debug, PartialEq, Eq)]
pub enum AttrTokens {
    Empty,
    Raw(String),
    PathArg(SimplePath),
}

/// Mathematical view of [`AttrTokens`].
#[verifier::ext_equal]
pub ghost enum AttrTokensV {
    Empty,
    Raw(Seq<char>),
    PathArg(PathV),
}

impl DeepView for AttrTokens {
    type V = AttrTokensV;

    open spec fn deep_view(&self) -> AttrTokensV {
        match self {
            AttrTokens::Empty => AttrTokensV::Empty,
            AttrTokens::Raw(s) => AttrTokensV::Raw(s@),
            AttrTokens::PathArg(p) => AttrTokensV::PathArg(p.deep_view()),
        }
    }
}

/// An attribute: style, path and argument tokens.
#[derive(Debug, PartialEq, Eq)]
pub struct AttrModel {
    pub style: AttrStyle,
    pub path: SimplePath,
    pub tokens: AttrTokens,
}

/// Mathematical view of an [`AttrModel`].
#[verifier::ext_equal]
pub ghost struct AttrV {
    pub style: AttrStyle,
    pub path: PathV,
    pub tokens: AttrTokensV,
}

impl DeepView for AttrModel {
    type V = AttrV;

    open spec fn deep_view(&self) -> AttrV {
        AttrV {
            style: self.style,
            path: self.path.deep_view(),
            tokens: self.tokens.deep_view(),
        }
    }
}

impl AttrModel {
    /// An exact copy.
    pub fn duplicate(&self) -> (r: Self)
        ensures
            r.deep_view() == self.deep_view(),
    {
        let tokens = match &self.tokens {
            AttrTokens::Empty => AttrTokens::Empty,
            AttrTokens::Raw(s) => AttrTokens::Raw(s.clone()),
            AttrTokens::PathArg(p) => AttrTokens::PathArg(p.duplicate()),
        };
        AttrModel { style: self.style, path: self.path.duplicate(), tokens }
    }
}

// ---------------------------------------------------------------------
// Visibility
// ---------------------------------------------------------------------

/// Visibility of an item: `pub`, private, or a restriction such as
/// `pub(crate)` kept as text.
#[derive(Debug, PartialEq, Eq)]
pub enum Visibility {
    Public,
    Inherited,
    Restricted(String),
}

/// Mathematical view of a [`Visibility`].
#[verifier::ext_equal]
pub ghost enum VisibilityV {
    Public,
    Inherited,
    Restricted(Seq<char>),
}

impl DeepView for Visibility {
    type V = VisibilityV;

    open spec fn deep_view(&self) -> VisibilityV {
        match self {
            Visibility::Public => VisibilityV::Public,
            Visibility::Inherited => VisibilityV::Inherited,
            Visibility::Restricted(s) => VisibilityV::Restricted(s@),
        }
    }
}

impl Visibility {
    /// An exact copy.
    pub fn duplicate(&self) -> (r: Self)
        ensures
            r.deep_view() == self.deep_view(),
    {
        match self {
            Visibility::Public => Visibility::Public,
            Visibility::Inherited => Visibility::Inherited,
            Visibility::Restricted(s) => Visibility::Restricted(s.clone()),
        }
    }
}

// ---------------------------------------------------------------------
// Function arguments, return type, signature
// ---------------------------------------------------------------------

/// One declared parameter: a `self` receiver, or a pattern with its type.
/// The pattern is carried as uninterpreted text; the logic never reads it.
#[derive(Debug, PartialEq, Eq)]
pub enum FnArgModel {
    Receiver { span: u64 },
    Typed { pat: String, ty: TypeModel, span: u64 },
}

/// Mathematical view of a [`FnArgModel`].
#[verifier::ext_equal]
pub ghost enum FnArgV {
    Receiver { span: u64 },
    Typed { pat: Seq<char>, ty: TypeV, span: u64 },
}

impl DeepView for FnArgModel {
    type V = FnArgV;

    open spec fn deep_view(&self) -> FnArgV {
        match self {
            FnArgModel::Receiver { span } => FnArgV::Receiver { span: *span },
            FnArgModel::Typed { pat, ty, span } => FnArgV::Typed {
                pat: pat@,
                ty: ty.deep_view(),
                span: *span,
            },
        }
    }
}

/// A declared return type: elided, or an explicit type.
#[derive(Debug, PartialEq, Eq)]
pub enum ReturnType {
    Elided { span: u64 },
    Ty { ty: TypeModel, span: u64 },
}

/// Mathematical view of a [`ReturnType`].
#[verifier::ext_equal]
pub ghost enum ReturnTypeV {
    Elided { span: u64 },
    Ty { ty: TypeV, span: u64 },
}

impl DeepView for ReturnType {
    type V = ReturnTypeV;

    open spec fn deep_view(&self) -> ReturnTypeV {
        match self {
            ReturnType::Elided { span } => ReturnTypeV::Elided { span: *span },
            ReturnType::Ty { ty, span } => ReturnTypeV::Ty { ty: ty.deep_view(), span: *span },
        }
    }
}

/// The signature of the hook-shaped function: name, generics kept as
/// uninterpreted text, parameters with the span of the whole parameter
/// list, and the return type.
#[derive(Debug, PartialEq, Eq)]
pub struct HookSig {
    pub ident: String,
    pub ident_span: u64,
    pub generics: String,
    pub inputs: Vec<FnArgModel>,
    pub inputs_span: u64,
    pub output: ReturnType,
}

/// Mathematical view of a [`HookSig`].
#[verifier::ext_equal]
pub ghost struct HookSigV {
    pub ident: Seq<char>,
    pub ident_span: u64,
    pub generics: Seq<char>,
    pub inputs: Seq<FnArgV>,
    pub inputs_span: u64,
    pub output: ReturnTypeV,
}

impl DeepView for HookSig {
    type V = HookSigV;

    open spec fn deep_view(&self) -> HookSigV {
        HookSigV {
            ident: self.ident@,
            ident_span: self.ident_span,
            generics: self.generics@,
            inputs: self.inputs.deep_view(),
            inputs_span: self.inputs_span,
            output: self.output.deep_view(),
        }
    }
}

/// The function being transformed: attributes, visibility, signature and
/// the body kept as uninterpreted text.
#[derive(Debug, PartialEq, Eq)]
pub struct HookDefinition {
    pub attrs: Vec<AttrModel>,
    pub vis: Visibility,
    pub sig: HookSig,
    pub body: String,
}

/// Mathematical view of a [`HookDefinition`].
#[verifier::ext_equal]
pub ghost struct HookDefinitionV {
    pub attrs: Seq<AttrV>,
    pub vis: VisibilityV,
    pub sig: HookSigV,
    pub body: Seq<char>,
}

impl DeepView for HookDefinition {
    type V = HookDefinitionV;

    open spec fn deep_view(&self) -> HookDefinitionV {
        HookDefinitionV {
            attrs: self.attrs.deep_view(),
            vis: self.vis.deep_view(),
            sig: self.sig.deep_view(),
            body: self.body@,
        }
    }
}

// ---------------------------------------------------------------------
// Diagnostics
// ---------------------------------------------------------------------

/// The two signature-shape violations the analyzer reports.
#[derive(Clone, Copy, Debug, PartialEq, Eq, Structural)]
pub enum DiagnosticKind {
    /// More than one parameter was declared.
    TooManyArgs,
    /// The sole parameter is not a reference to a properties type.
    FirstArgNotReference,
}

/// A diagnostic attached to the source span it is about.
#[derive(Clone, Copy, Debug, PartialEq, Eq, Structural)]
pub struct Diagnostic {
    pub kind: DiagnosticKind,
    pub span: u64,
}

impl DeepView for Diagnostic {
    type V = Diagnostic;

    open spec fn deep_view(&self) -> Diagnostic {
        *self
    }
}

impl Diagnostic {
    /// The message the diagnostic is rendered with.
    pub fn message(&self) -> (r: &'static str)
        ensures
            r@ == message_spec(self.kind),
    {
        match self.kind {
            DiagnosticKind::TooManyArgs => "only one optional argument is allowed",
            DiagnosticKind::FirstArgNotReference => "first argument must be `&Props`",
        }
    }
}

/// Message text of each diagnostic kind.
pub open spec fn message_spec(kind: DiagnosticKind) -> Seq<char> {
    match kind {
        DiagnosticKind::TooManyArgs => "only one optional argument is allowed"@,
        DiagnosticKind::FirstArgNotReference => "first argument must be `&Props`"@,
    }
}

// ---------------------------------------------------------------------
// Resolved paths and the generated component
// ---------------------------------------------------------------------

/// The four fully resolved dependency paths the emitted code mentions.
#[derive(Debug, PartialEq, Eq)]
pub struct ResolvedPaths {
    pub hooks_yew: SimplePath,
    pub yew: SimplePath,
    pub hooks_core: SimplePath,
    pub hook_macro: SimplePath,
}

/// Mathematical view of [`ResolvedPaths`].
#[verifier::ext_equal]
pub ghost struct ResolvedPathsV {
    pub hooks_yew: PathV,
    pub yew: PathV,
    pub hooks_core: PathV,
    pub hook_macro: PathV,
}

impl DeepView for ResolvedPaths {
    type V = ResolvedPathsV;

    open spec fn deep_view(&self) -> ResolvedPathsV {
        ResolvedPathsV {
            hooks_yew: self.hooks_yew.deep_view(),
            yew: self.yew.deep_view(),
            hooks_core: self.hooks_core.deep_view(),
            hook_macro: self.hook_macro.deep_view(),
        }
    }
}

/// The synthesized zero-argument entry point `use_html` of a zero-argument
/// hook: its attributes, the original function's visibility, and the span
/// it is emitted at. Its name, return type and body are fixed by the
/// emitter: `use_html() -> yew::Html { Self::use_impl_html(&()) }`.
#[derive(Debug, PartialEq, Eq)]
pub struct Forwarder {
    pub attrs: Vec<AttrModel>,
    pub vis: Visibility,
    pub span: u64,
}

/// Mathematical view of a [`Forwarder`].
#[verifier::ext_equal]
pub ghost struct ForwarderV {
    pub attrs: Seq<AttrV>,
    pub vis: VisibilityV,
    pub span: u64,
}

impl DeepView for Forwarder {
    type V = ForwarderV;

    open spec fn deep_view(&self) -> ForwarderV {
        ForwarderV {
            attrs: self.attrs.deep_view(),
            vis: self.vis.deep_view(),
            span: self.span,
        }
    }
}

/// The transformed function: the original body under a fixed internal
/// constructor name, with the function-facing attributes and the
/// hook-behavior attribute, a possibly synthesized parameter, and a
/// possibly filled-in return type.
#[derive(Debug, PartialEq, Eq)]
pub struct HookFn {
    pub attrs: Vec<AttrModel>,
    pub vis: Visibility,
    pub ident: String,
    pub ident_span: u64,
    pub inputs: Vec<FnArgModel>,
    pub inputs_span: u64,
    pub output: ReturnType,
    pub body: String,
}

/// Mathematical view of a [`HookFn`].
#[verifier::ext_equal]
pub ghost struct HookFnV {
    pub attrs: Seq<AttrV>,
    pub vis: VisibilityV,
    pub ident: Seq<char>,
    pub ident_span: u64,
    pub inputs: Seq<FnArgV>,
    pub inputs_span: u64,
    pub output: ReturnTypeV,
    pub body: Seq<char>,
}

impl DeepView for HookFn {
    type V = HookFnV;

    open spec fn deep_view(&self) -> HookFnV {
        HookFnV {
            attrs: self.attrs.deep_view(),
            vis: self.vis.deep_view(),
            ident: self.ident@,
            ident_span: self.ident_span,
            inputs: self.inputs.deep_view(),
            inputs_span: self.inputs_span,
            output: self.output.deep_view(),
            body: self.body@,
        }
    }
}

/// The emitted component definition: the wrapper type (name, visibility
/// and generics of the original function, one adapter field of the
/// properties type), the inherent impl holding the optional forwarder and
/// the transformed function, and the resolved paths the component-trait
/// impl mentions.
#[derive(Debug, PartialEq, Eq)]
pub struct GeneratedComponent {
    pub struct_attrs: Vec<AttrModel>,
    pub vis: Visibility,
    pub ident: String,
    pub ident_span: u64,
    pub generics: String,
    pub props_ty: TypeModel,
    pub forwarder: Option<Forwarder>,
    pub hook_fn: HookFn,
    pub paths: ResolvedPaths,
}

/// Mathematical view of a [`GeneratedComponent`].
#[verifier::ext_equal]
pub ghost struct GeneratedComponentV {
    pub struct_attrs: Seq<AttrV>,
    pub vis: VisibilityV,
    pub ident: Seq<char>,
    pub ident_span: u64,
    pub generics: Seq<char>,
    pub props_ty: TypeV,
    pub forwarder: Option<ForwarderV>,
    pub hook_fn: HookFnV,
    pub paths: ResolvedPathsV,
}

impl DeepView for GeneratedComponent {
    type V = GeneratedComponentV;

    open spec fn deep_view(&self) -> GeneratedComponentV {
        GeneratedComponentV {
            struct_attrs: self.struct_attrs.deep_view(),
            vis: self.vis.deep_view(),
            ident: self.ident@,
            ident_span: self.ident_span,
            generics: self.generics@,
            props_ty: self.props_ty.deep_view(),
            forwarder: self.forwarder.deep_view(),
            hook_fn: self.hook_fn.deep_view(),
            paths: self.paths.deep_view(),
        }
    }
}

/// The caller-supplied path overrides, all optional.
#[derive(Debug, PartialEq, Eq)]
pub struct HookComponentArgs {
    pub hooks_yew_path: Option<SimplePath>,
    pub yew_path: Option<SimplePath>,
    pub hooks_core_path: Option<SimplePath>,
    pub hook_macro_path: Option<SimplePath>,
}

/// Mathematical view of [`HookComponentArgs`].
#[verifier::ext_equal]
pub ghost struct HookComponentArgsV {
    pub hooks_yew_path: Option<PathV>,
    pub yew_path: Option<PathV>,
    pub hooks_core_path: Option<PathV>,
    pub hook_macro_path: Option<PathV>,
}

impl DeepView for HookComponentArgs {
    type V = HookComponentArgsV;

    open spec fn deep_view(&self) -> HookComponentArgsV {
        HookComponentArgsV {
            hooks_yew_path: self.hooks_yew_path.deep_view(),
            yew_path: self.yew_path.deep_view(),
            hooks_core_path: self.hooks_core_path.deep_view(),
            hook_macro_path: self.hook_macro_path.deep_view(),
        }
    }
}

impl Default for HookComponentArgs {
    /// No override set: every path falls back to its derivation rule.
    fn default() -> (r: Self)
        ensures
            r.hooks_yew_path is None,
            r.yew_path is None,
            r.hooks_core_path is None,
            r.hook_macro_path is None,
    {
        HookComponentArgs {
            hooks_yew_path: None,
            yew_path: None,
            hooks_core_path: None,
            hook_macro_path: None,
        }
    }
}

} // verus!
