use hooks_yew::model::{AttrModel, AttrStyle, AttrTokens, Diagnostic, DiagnosticKind, FnArgModel,
    HookComponentArgs, HookDefinition, HookSig, ReturnType, SimplePath, TypeModel, Visibility,
    SPAN_CALL_SITE};
use hooks_yew::paths::path_display;
use hooks_yew::transform::{allow_dead_code_attr, hook_attr, inline_attr, partition_attrs,
    ref_type_tuple_0, type_tuple_0, type_yew_html};

fn path(leading: bool, segs: &[&str]) -> SimplePath {
    SimplePath {
        leading_colon: leading,
        segments: segs.iter().map(|s| s.to_string()).collect(),
    }
}

fn props_path_ty(name: &str) -> TypeModel {
    TypeModel::Path(path(false, &[name]))
}

fn hook_def(inputs: Vec<FnArgModel>, vis: Visibility, output: ReturnType) -> HookDefinition {
    HookDefinition {
        attrs: Vec::new(),
        vis,
        sig: HookSig {
            ident: "my_hook".to_string(),
            ident_span: 7,
            generics: String::new(),
            inputs,
            inputs_span: 9,
            output,
        },
        body: "BODY".to_string(),
    }
}

#[test]
fn zero_arg_gets_public_entry_point_and_private_constructor() {
    let def = hook_def(Vec::new(), Visibility::Public, ReturnType::Elided { span: 3 });
    let (g, diags) = HookComponentArgs::default().transform_item_fn(def);
    assert!(diags.is_empty());

    let fw = g.forwarder.expect("zero-argument hook must expose an entry point");
    assert_eq!(fw.vis, Visibility::Public);
    assert_eq!(fw.span, 7);
    assert_eq!(fw.attrs.len(), 3);
    assert_eq!(fw.attrs[1], inline_attr());
    assert_eq!(fw.attrs[2], allow_dead_code_attr());

    assert_eq!(g.hook_fn.vis, Visibility::Inherited);
    assert_eq!(g.hook_fn.ident, "use_impl_html");
    assert_eq!(g.hook_fn.ident_span, 7);
    assert_eq!(g.props_ty, TypeModel::Unit);

    // the body still compiles against a reference-shaped input
    assert_eq!(
        g.hook_fn.inputs,
        vec![FnArgModel::Typed { pat: "_".to_string(), ty: ref_type_tuple_0(), span: SPAN_CALL_SITE }]
    );
    assert_eq!(g.hook_fn.body, "BODY");
}

#[test]
fn one_reference_arg_takes_element_as_props() {
    let arg = FnArgModel::Typed {
        pat: "p".to_string(),
        ty: TypeModel::Reference(Box::new(props_path_ty("MyProps"))),
        span: 21,
    };
    let def = hook_def(vec![arg], Visibility::Public, ReturnType::Elided { span: 3 });
    let (g, diags) = HookComponentArgs::default().transform_item_fn(def);
    assert!(diags.is_empty());
    assert!(g.forwarder.is_none());
    assert_eq!(g.props_ty, props_path_ty("MyProps"));
    assert_eq!(g.hook_fn.ident, "use_html");
    assert_eq!(g.hook_fn.vis, Visibility::Public);
    assert_eq!(g.ident, "my_hook");
    assert_eq!(g.vis, Visibility::Public);
}

#[test]
fn one_non_reference_arg_reports_and_falls_back_to_unit() {
    let arg = FnArgModel::Typed { pat: "p".to_string(), ty: props_path_ty("MyProps"), span: 21 };
    let def = hook_def(vec![arg], Visibility::Public, ReturnType::Elided { span: 3 });
    let (g, diags) = HookComponentArgs::default().transform_item_fn(def);
    assert_eq!(
        diags,
        vec![Diagnostic { kind: DiagnosticKind::FirstArgNotReference, span: 21 }]
    );
    assert_eq!(diags[0].message(), "first argument must be `&Props`");
    assert_eq!(g.props_ty, type_tuple_0());
}

#[test]
fn receiver_arg_reports_and_falls_back_to_unit() {
    let def = hook_def(
        vec![FnArgModel::Receiver { span: 33 }],
        Visibility::Public,
        ReturnType::Elided { span: 3 },
    );
    let (g, diags) = HookComponentArgs::default().transform_item_fn(def);
    assert_eq!(
        diags,
        vec![Diagnostic { kind: DiagnosticKind::FirstArgNotReference, span: 33 }]
    );
    assert_eq!(g.props_ty, TypeModel::Unit);
}

#[test]
fn surplus_args_report_once_at_the_whole_list() {
    let first = FnArgModel::Typed {
        pat: "p".to_string(),
        ty: TypeModel::Reference(Box::new(props_path_ty("MyProps"))),
        span: 21,
    };
    let second = FnArgModel::Typed { pat: "q".to_string(), ty: props_path_ty("Extra"), span: 22 };
    let def = hook_def(vec![first, second], Visibility::Public, ReturnType::Elided { span: 3 });
    let (g, diags) = HookComponentArgs::default().transform_item_fn(def);
    // one diagnostic at the parameter list's span; the first parameter is
    // still analyzed
    assert_eq!(diags, vec![Diagnostic { kind: DiagnosticKind::TooManyArgs, span: 9 }]);
    assert_eq!(diags[0].message(), "only one optional argument is allowed");
    assert_eq!(g.props_ty, props_path_ty("MyProps"));
}

#[test]
fn surplus_and_shape_violations_accumulate_in_order() {
    let first = FnArgModel::Typed { pat: "p".to_string(), ty: props_path_ty("NotRef"), span: 21 };
    let second = FnArgModel::Receiver { span: 22 };
    let def = hook_def(vec![first, second], Visibility::Public, ReturnType::Elided { span: 3 });
    let (g, diags) = HookComponentArgs::default().transform_item_fn(def);
    assert_eq!(
        diags,
        vec![
            Diagnostic { kind: DiagnosticKind::TooManyArgs, span: 9 },
            Diagnostic { kind: DiagnosticKind::FirstArgNotReference, span: 21 },
        ]
    );
    assert_eq!(g.props_ty, TypeModel::Unit);
}

#[test]
fn elided_and_inferred_outputs_are_filled_with_html() {
    let expected_ty = type_yew_html(&path(true, &["hooks_yew", "__private", "yew"]));

    let def = hook_def(Vec::new(), Visibility::Public, ReturnType::Elided { span: 3 });
    let (g, _) = HookComponentArgs::default().transform_item_fn(def);
    assert_eq!(g.hook_fn.output, ReturnType::Ty { ty: expected_ty.duplicate(), span: 3 });

    let def = hook_def(
        Vec::new(),
        Visibility::Public,
        ReturnType::Ty { ty: TypeModel::Infer, span: 4 },
    );
    let (g, _) = HookComponentArgs::default().transform_item_fn(def);
    assert_eq!(g.hook_fn.output, ReturnType::Ty { ty: expected_ty.duplicate(), span: 4 });

    let def = hook_def(
        Vec::new(),
        Visibility::Public,
        ReturnType::Ty { ty: props_path_ty("Markup"), span: 5 },
    );
    let (g, _) = HookComponentArgs::default().transform_item_fn(def);
    assert_eq!(g.hook_fn.output, ReturnType::Ty { ty: props_path_ty("Markup"), span: 5 });
}

#[test]
fn attributes_split_between_struct_and_function() {
    let doc = AttrModel {
        style: AttrStyle::Outer,
        path: path(false, &["doc"]),
        tokens: AttrTokens::Raw("= \"a hook\"".to_string()),
    };
    let inline = AttrModel {
        style: AttrStyle::Outer,
        path: path(false, &["inline"]),
        tokens: AttrTokens::Empty,
    };
    let inner = AttrModel {
        style: AttrStyle::Inner,
        path: path(false, &["allow"]),
        tokens: AttrTokens::Raw("(dead_code)".to_string()),
    };
    let attrs = vec![doc.duplicate(), inline.duplicate(), inner.duplicate()];
    let (struct_attrs, fn_attrs) = partition_attrs(&attrs);
    assert_eq!(struct_attrs, vec![doc.duplicate()]);
    assert_eq!(fn_attrs, vec![inline.duplicate(), inner.duplicate()]);

    let mut def = hook_def(Vec::new(), Visibility::Public, ReturnType::Elided { span: 3 });
    def.attrs = attrs;
    let (g, _) = HookComponentArgs::default().transform_item_fn(def);
    assert_eq!(g.struct_attrs, vec![doc.duplicate()]);
    // function keeps its attributes and gains the hook-behavior attribute
    assert_eq!(g.hook_fn.attrs.len(), 3);
    assert_eq!(g.hook_fn.attrs[0], inline.duplicate());
    assert_eq!(g.hook_fn.attrs[1], inner.duplicate());
    let expected_hook_attr = hook_attr(
        &path(true, &["hooks_yew", "__private", "hook_macro"]),
        &path(true, &["hooks_yew", "__private", "hooks_core"]),
    );
    assert_eq!(g.hook_fn.attrs[2], expected_hook_attr);
}

#[test]
fn hook_attribute_carries_engine_path_for_the_string_literal() {
    let ha = hook_attr(&path(true, &["m"]), &path(true, &["hooks_yew", "__private",
        "hooks_core"]));
    match &ha.tokens {
        AttrTokens::PathArg(p) => {
            assert_eq!(path_display(p), "::hooks_yew::__private::hooks_core");
        },
        other => panic!("expected a path argument, got {:?}", other),
    }
}

#[test]
fn generics_and_body_are_carried_unchanged() {
    let mut def = hook_def(Vec::new(), Visibility::Public, ReturnType::Elided { span: 3 });
    def.sig.generics = "<T: Clone>".to_string();
    let (g, _) = HookComponentArgs::default().transform_item_fn(def);
    assert_eq!(g.generics, "<T: Clone>");
    assert_eq!(g.hook_fn.body, "BODY");
    assert_eq!(g.ident, "my_hook");
    assert_eq!(g.ident_span, 7);
}
