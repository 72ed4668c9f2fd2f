//! The transformation algorithm.
//!
//! Given the caller's path overrides and a hook-shaped function
//! definition, the transformer resolves the dependency paths, partitions
//! the function's attributes between the generated wrapper type and the
//! retained method, analyzes the signature, renames the function to its
//! fixed internal constructor name, fills in an elided return type with
//! the framework's markup type, synthesizes the zero-argument entry point
//! where one is owed, and attaches the hook-behavior attribute. All shape
//! violations are accumulated as diagnostics; output is always produced.

use vstd::prelude::*;
use vstd::string::StringExecFns;

use crate::model::{AttrModel, AttrStyle, AttrTokens, AttrTokensV, AttrV, BaseTypeV, Diagnostic,
    Forwarder, ForwarderV, GeneratedComponent, GeneratedComponentV, HookComponentArgs,
    HookComponentArgsV, HookDefinition, HookDefinitionV, HookFn, HookFnV, PathV, ResolvedPathsV,
    ReturnType, ReturnTypeV, SimplePath, TypeModel, TypeV, Visibility, VisibilityV, FnArgModel,
    FnArgV, SPAN_CALL_SITE};
use crate::paths::{is_inline_spec, path_is_inline, resolve_spec};
use crate::sig::{analyze_signature, props_spec, sig_diags_spec, unit_type_spec, zero_arg_spec};

verus! {

/// An attribute belongs on the generated wrapper type exactly when it was
/// written as an outer attribute and is not the bare `inline` marker;
/// `inline` and inner attributes stay on the retained method.
pub open spec fn keep_struct_spec(a: AttrV) -> bool {
    a.style is Outer && !is_inline_spec(a.path)
}

/// The attributes attached to the generated wrapper type, in order.
pub open spec fn struct_attrs_spec(attrs: Seq<AttrV>) -> Seq<AttrV> {
    attrs.filter(|a: AttrV| keep_struct_spec(a))
}

/// The attributes retained on the transformed function, in order.
pub open spec fn fn_attrs_spec(attrs: Seq<AttrV>) -> Seq<AttrV> {
    attrs.filter(|a: AttrV| !keep_struct_spec(a))
}

/// The hook-behavior attribute: the hook-attribute path, applied to the
/// hook-engine path rendered as a string-literal argument.
pub open spec fn hook_attr_spec(hook_macro: PathV, hooks_core: PathV) -> AttrV {
    AttrV {
        style: AttrStyle::Outer,
        path: hook_macro,
        tokens: AttrTokensV::PathArg(hooks_core),
    }
}

/// The bare `#[inline]` marker.
pub open spec fn inline_attr_spec() -> AttrV {
    AttrV {
        style: AttrStyle::Outer,
        path: PathV { leading_colon: false, segments: seq!["inline"@] },
        tokens: AttrTokensV::Empty,
    }
}

/// The `#[allow(dead_code)]` marker carried by the synthesized entry
/// point.
pub open spec fn allow_dead_code_attr_spec() -> AttrV {
    AttrV {
        style: AttrStyle::Outer,
        path: PathV { leading_colon: false, segments: seq!["allow"@] },
        tokens: AttrTokensV::Raw("(dead_code)"@),
    }
}

/// The framework's markup-result type `<yew>::Html`.
pub open spec fn yew_html_type_spec(yew: PathV) -> TypeV {
    TypeV {
        ref_depth: 0,
        base: BaseTypeV::Path(
            PathV { leading_colon: yew.leading_colon, segments: yew.segments.push("Html"@) },
        ),
    }
}

/// An elided or inferred return type is filled in with the framework's
/// markup type at its own span; an explicit type is left alone.
pub open spec fn auto_output_spec(output: ReturnTypeV, yew: PathV) -> ReturnTypeV {
    match output {
        ReturnTypeV::Elided { span } => ReturnTypeV::Ty { ty: yew_html_type_spec(yew), span },
        ReturnTypeV::Ty { ty, span } => if ty.ref_depth == 0 && ty.base is Infer {
            ReturnTypeV::Ty { ty: yew_html_type_spec(yew), span }
        } else {
            output
        },
    }
}

/// The reference-to-unit type `&()` synthesized as the parameter of a
/// zero-argument hook's internal constructor.
pub open spec fn ref_unit_type_spec() -> TypeV {
    TypeV { ref_depth: 1, base: BaseTypeV::Unit }
}

/// The attributes of the synthesized entry point: the hook-behavior
/// attribute, `#[inline]`, `#[allow(dead_code)]`.
pub open spec fn forwarder_attrs_spec(rp: ResolvedPathsV) -> Seq<AttrV> {
    seq![
        hook_attr_spec(rp.hook_macro, rp.hooks_core),
        inline_attr_spec(),
        allow_dead_code_attr_spec(),
    ]
}

/// The synthesized zero-argument entry point: the original visibility at
/// the original function name's span.
pub open spec fn forwarder_spec(f: HookDefinitionV, rp: ResolvedPathsV) -> ForwarderV {
    ForwarderV { attrs: forwarder_attrs_spec(rp), vis: f.vis, span: f.sig.ident_span }
}

/// The transformed function: renamed to its fixed internal constructor
/// name (`use_impl_html` for a zero-argument hook, `use_html` otherwise),
/// demoted to private in the zero-argument case, keeping the
/// function-facing attributes plus the hook-behavior attribute, with a
/// synthesized `&()` parameter when none was declared and the return type
/// filled in where it was elided.
pub open spec fn hook_fn_spec(f: HookDefinitionV, rp: ResolvedPathsV) -> HookFnV {
    let zero = zero_arg_spec(f.sig.inputs);
    HookFnV {
        attrs: fn_attrs_spec(f.attrs).push(hook_attr_spec(rp.hook_macro, rp.hooks_core)),
        vis: if zero {
            VisibilityV::Inherited
        } else {
            f.vis
        },
        ident: if zero {
            "use_impl_html"@
        } else {
            "use_html"@
        },
        ident_span: f.sig.ident_span,
        inputs: if zero {
            seq![FnArgV::Typed { pat: "_"@, ty: ref_unit_type_spec(), span: SPAN_CALL_SITE }]
        } else {
            f.sig.inputs
        },
        inputs_span: f.sig.inputs_span,
        output: auto_output_spec(f.sig.output, rp.yew),
        body: f.body,
    }
}

/// The whole emitted component for given overrides and function.
pub open spec fn transform_spec(args: HookComponentArgsV, f: HookDefinitionV)
    -> GeneratedComponentV {
    let rp = resolve_spec(args);
    GeneratedComponentV {
        struct_attrs: struct_attrs_spec(f.attrs),
        vis: f.vis,
        ident: f.sig.ident,
        ident_span: f.sig.ident_span,
        generics: f.sig.generics,
        props_ty: props_spec(f.sig.inputs),
        forwarder: if zero_arg_spec(f.sig.inputs) {
            Option::Some(forwarder_spec(f, rp))
        } else {
            Option::None
        },
        hook_fn: hook_fn_spec(f, rp),
        paths: rp,
    }
}

/// The diagnostics of a transformation: exactly the signature-shape
/// violations, in order.
pub open spec fn transform_diags_spec(f: HookDefinitionV) -> Seq<Diagnostic> {
    sig_diags_spec(f.sig.inputs, f.sig.inputs_span)
}

/// The unit type `()`.
pub fn type_tuple_0() -> (r: TypeModel)
    ensures
        r.deep_view() == unit_type_spec(),
{
    TypeModel::Unit
}

/// The reference-to-unit type `&()`.
pub fn ref_type_tuple_0() -> (r: TypeModel)
    ensures
        r.deep_view() == ref_unit_type_spec(),
{
    let r = TypeModel::Reference(Box::new(TypeModel::Unit));
    proof {
        assert(crate::model::type_view(TypeModel::Unit) == unit_type_spec());
    }
    r
}

/// The framework's markup type: the framework path with `Html` appended.
pub fn type_yew_html(yew_path: &SimplePath) -> (r: TypeModel)
    ensures
        r.deep_view() == yew_html_type_spec(yew_path.deep_view()),
{
    let mut p = yew_path.duplicate();
    p.segments.push(String::from_str("Html"));
    proof {
        assert(p.segments.deep_view() =~= yew_path.deep_view().segments.push("Html"@));
    }
    TypeModel::Path(p)
}

/// Fill an elided (`fn f()`) or inferred (`fn f() -> _`) return type in
/// with the framework's markup type.
pub fn auto_fn_output_yew_html(output: &mut ReturnType, yew_path: &SimplePath)
    ensures
        final(output).deep_view() == auto_output_spec(old(output).deep_view(),
            yew_path.deep_view()),
{
    let fill_span: Option<u64> = match output {
        ReturnType::Elided { span } => Option::Some(*span),
        ReturnType::Ty { ty: TypeModel::Infer, span } => Option::Some(*span),
        _ => Option::None,
    };
    match fill_span {
        Option::Some(span) => {
            *output = ReturnType::Ty { ty: type_yew_html(yew_path), span };
        },
        Option::None => {},
    }
}

/// Split a function's attributes into those attached to the generated
/// wrapper type and those retained on the method, preserving order.
pub fn partition_attrs(attrs: &Vec<AttrModel>) -> (r: (Vec<AttrModel>, Vec<AttrModel>))
    ensures
        r.0.deep_view() == struct_attrs_spec(attrs.deep_view()),
        r.1.deep_view() == fn_attrs_spec(attrs.deep_view()),
{
    let ghost s = attrs.deep_view();
    let mut struct_attrs: Vec<AttrModel> = Vec::new();
    let mut fn_attrs: Vec<AttrModel> = Vec::new();
    proof {
        reveal(Seq::<_>::filter);
        assert(struct_attrs.deep_view() =~= struct_attrs_spec(s.take(0int)));
        assert(fn_attrs.deep_view() =~= fn_attrs_spec(s.take(0int)));
    }
    let mut i: usize = 0;
    while i < attrs.len()
        invariant
            i <= attrs.len(),
            s == attrs.deep_view(),
            s.len() == attrs.len(),
            struct_attrs.deep_view() == struct_attrs_spec(s.take(i as int)),
            fn_attrs.deep_view() == fn_attrs_spec(s.take(i as int)),
        decreases attrs.len() - i,
    {
        let a = &attrs[i];
        let ghost sa_old = struct_attrs.deep_view();
        let ghost fa_old = fn_attrs.deep_view();
        let to_struct = match a.style {
            AttrStyle::Outer => !path_is_inline(&a.path),
            AttrStyle::Inner => false,
        };
        if to_struct {
            struct_attrs.push(a.duplicate());
            proof {
                assert(struct_attrs.deep_view() =~= sa_old.push(a.deep_view()));
            }
        } else {
            fn_attrs.push(a.duplicate());
            proof {
                assert(fn_attrs.deep_view() =~= fa_old.push(a.deep_view()));
            }
        }
        proof {
            reveal(Seq::<_>::filter);
            let t1 = s.take(i + 1int);
            assert(t1.drop_last() =~= s.take(i as int));
            assert(t1.last() == s[i as int]);
            assert(s[i as int] == a.deep_view());
            assert(struct_attrs_spec(t1) == if keep_struct_spec(a.deep_view()) {
                struct_attrs_spec(s.take(i as int)).push(a.deep_view())
            } else {
                struct_attrs_spec(s.take(i as int))
            });
            assert(fn_attrs_spec(t1) == if !keep_struct_spec(a.deep_view()) {
                fn_attrs_spec(s.take(i as int)).push(a.deep_view())
            } else {
                fn_attrs_spec(s.take(i as int))
            });
        }
        i = i + 1;
    }
    proof {
        assert(s.take(attrs.len() as int) =~= s);
    }
    (struct_attrs, fn_attrs)
}

/// The hook-behavior attribute for the resolved hook-attribute and
/// hook-engine paths.
pub fn hook_attr(hook_macro_path: &SimplePath, hooks_core_path: &SimplePath) -> (r: AttrModel)
    ensures
        r.deep_view() == hook_attr_spec(hook_macro_path.deep_view(), hooks_core_path.deep_view()),
{
    AttrModel {
        style: AttrStyle::Outer,
        path: hook_macro_path.duplicate(),
        tokens: AttrTokens::PathArg(hooks_core_path.duplicate()),
    }
}

/// The bare `#[inline]` marker.
pub fn inline_attr() -> (r: AttrModel)
    ensures
        r.deep_view() == inline_attr_spec(),
{
    let mut segments: Vec<String> = Vec::new();
    segments.push(String::from_str("inline"));
    proof {
        assert(segments.deep_view() =~= seq!["inline"@]);
    }
    AttrModel {
        style: AttrStyle::Outer,
        path: SimplePath { leading_colon: false, segments },
        tokens: AttrTokens::Empty,
    }
}

/// The `#[allow(dead_code)]` marker.
pub fn allow_dead_code_attr() -> (r: AttrModel)
    ensures
        r.deep_view() == allow_dead_code_attr_spec(),
{
    let mut segments: Vec<String> = Vec::new();
    segments.push(String::from_str("allow"));
    proof {
        assert(segments.deep_view() =~= seq!["allow"@]);
    }
    AttrModel {
        style: AttrStyle::Outer,
        path: SimplePath { leading_colon: false, segments },
        tokens: AttrTokens::Raw(String::from_str("(dead_code)")),
    }
}

impl HookComponentArgs {
    /// Rewrite a hook-shaped function definition into the emitted
    /// component, accumulating shape violations as diagnostics.
    pub fn transform_item_fn(self, item_fn: HookDefinition) -> (r: (
        GeneratedComponent,
        Vec<Diagnostic>,
    ))
        ensures
            r.0.deep_view() == transform_spec(self.deep_view(), item_fn.deep_view()),
            r.1@ == transform_diags_spec(item_fn.deep_view()),
    {
        let ghost args_v = self.deep_view();
        let ghost f = item_fn.deep_view();
        let rp = self.resolve();
        let (struct_attrs, mut fn_attrs) = partition_attrs(&item_fn.attrs);
        let (props_ty, zero, diags) = analyze_signature(&item_fn.sig.inputs,
            item_fn.sig.inputs_span);
        let ghost fa_old = fn_attrs.deep_view();
        let ha = hook_attr(&rp.hook_macro, &rp.hooks_core);
        fn_attrs.push(ha);
        proof {
            assert(fn_attrs.deep_view() =~= fa_old.push(hook_attr_spec(resolve_spec(
                args_v).hook_macro, resolve_spec(args_v).hooks_core)));
        }
        let hook_vis = if zero {
            Visibility::Inherited
        } else {
            item_fn.vis.duplicate()
        };
        let hook_ident = if zero {
            String::from_str("use_impl_html")
        } else {
            String::from_str("use_html")
        };
        let forwarder = if zero {
            let mut fattrs: Vec<AttrModel> = Vec::new();
            fattrs.push(hook_attr(&rp.hook_macro, &rp.hooks_core));
            fattrs.push(inline_attr());
            fattrs.push(allow_dead_code_attr());
            proof {
                assert(fattrs.deep_view() =~= forwarder_attrs_spec(resolve_spec(args_v)));
            }
            Option::Some(
                Forwarder {
                    attrs: fattrs,
                    vis: item_fn.vis.duplicate(),
                    span: item_fn.sig.ident_span,
                },
            )
        } else {
            Option::None
        };
        let inputs = if zero {
            let mut v: Vec<FnArgModel> = Vec::new();
            v.push(FnArgModel::Typed {
                pat: String::from_str("_"),
                ty: ref_type_tuple_0(),
                span: SPAN_CALL_SITE,
            });
            proof {
                assert(v.deep_view() =~= seq![
                    FnArgV::Typed { pat: "_"@, ty: ref_unit_type_spec(), span: SPAN_CALL_SITE },
                ]);
            }
            v
        } else {
            item_fn.sig.inputs
        };
        let mut output = item_fn.sig.output;
        auto_fn_output_yew_html(&mut output, &rp.yew);
        let hook_fn = HookFn {
            attrs: fn_attrs,
            vis: hook_vis,
            ident: hook_ident,
            ident_span: item_fn.sig.ident_span,
            inputs,
            inputs_span: item_fn.sig.inputs_span,
            output,
            body: item_fn.body,
        };
        let g = GeneratedComponent {
            struct_attrs,
            vis: item_fn.vis,
            ident: item_fn.sig.ident,
            ident_span: item_fn.sig.ident_span,
            generics: item_fn.sig.generics,
            props_ty,
            forwarder,
            hook_fn,
            paths: rp,
        };
        proof {
            assert(g.deep_view().hook_fn == hook_fn_spec(f, resolve_spec(args_v)));
            assert(g.deep_view() == transform_spec(args_v, f));
        }
        (g, diags)
    }
}

/// A zero-argument hook gets the synthesized entry point with the
/// original visibility, while its internal constructor — renamed
/// `use_impl_html` — is demoted to private; the input is valid, so no
/// diagnostic is produced.
pub proof fn lemma_zero_arg_entry_point(args: HookComponentArgsV, f: HookDefinitionV)
    requires
        zero_arg_spec(f.sig.inputs),
    ensures
        ({
            let g = transform_spec(args, f);
            &&& g.forwarder matches Option::Some(fw) && fw.vis == f.vis
            &&& g.hook_fn.vis is Inherited
            &&& g.hook_fn.ident == "use_impl_html"@
            &&& transform_diags_spec(f).len() == 0
        }),
{
}

/// A one-argument hook whose parameter is a reference `&T` gets `T` as
/// its properties type, keeps its own visibility on the retained
/// `use_html`, and produces no diagnostic.
pub proof fn lemma_reference_arg_props(args: HookComponentArgsV, f: HookDefinitionV, t: TypeV)
    requires
        f.sig.inputs.len() == 1,
        f.sig.inputs[0] matches FnArgV::Typed { pat, ty, span } && ty == (TypeV {
            ref_depth: t.ref_depth + 1,
            base: t.base,
        }),
    ensures
        transform_spec(args, f).props_ty == t,
        transform_spec(args, f).hook_fn.vis == f.vis,
        transform_spec(args, f).hook_fn.ident == "use_html"@,
        transform_diags_spec(f).len() == 0,
{
}

/// A one-argument hook whose parameter is not a reference produces
/// exactly one diagnostic, at that parameter's span, and falls back to
/// the unit properties type.
pub proof fn lemma_non_reference_arg(args: HookComponentArgsV, f: HookDefinitionV)
    requires
        f.sig.inputs.len() == 1,
        crate::sig::arg_props_spec(f.sig.inputs[0]) is None,
    ensures
        transform_diags_spec(f) =~= seq![
            Diagnostic {
                kind: crate::model::DiagnosticKind::FirstArgNotReference,
                span: crate::sig::arg_span_spec(f.sig.inputs[0]),
            },
        ],
        transform_spec(args, f).props_ty == unit_type_spec(),
{
}

/// A hook with surplus parameters produces a surplus diagnostic first,
/// attached to the whole parameter list's span and produced only once,
/// and only the first parameter takes part in the analysis.
pub proof fn lemma_surplus_args(args: HookComponentArgsV, f: HookDefinitionV)
    requires
        f.sig.inputs.len() > 1,
    ensures
        transform_diags_spec(f).len() >= 1,
        transform_diags_spec(f)[0] == (Diagnostic {
            kind: crate::model::DiagnosticKind::TooManyArgs,
            span: f.sig.inputs_span,
        }),
        forall|i: int|
            0 < i < transform_diags_spec(f).len() ==> #[trigger] transform_diags_spec(f)[i].kind
                != crate::model::DiagnosticKind::TooManyArgs,
        transform_spec(args, f).props_ty == props_spec(f.sig.inputs.take(1int)),
{
    assert(f.sig.inputs.take(1int)[0] == f.sig.inputs[0]);
}

} // verus!
