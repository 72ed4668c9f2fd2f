//! Signature analysis.
//!
//! The analyzer inspects the declared parameter list of the hook-shaped
//! function and extracts the properties type: no parameter means the unit
//! type, one reference parameter `&T` means `T`, and everything else is a
//! shape violation reported as a diagnostic while analysis proceeds with
//! the unit-type fallback. Violations accumulate; they never abort.

use vstd::prelude::*;

use crate::model::{BaseTypeV, Diagnostic, DiagnosticKind, FnArgModel, FnArgV, TypeModel, TypeV};

verus! {

/// The view of the unit type.
pub open spec fn unit_type_spec() -> TypeV {
    TypeV { ref_depth: 0, base: BaseTypeV::Unit }
}

/// The span a parameter is reported at.
pub open spec fn arg_span_spec(a: FnArgV) -> u64 {
    match a {
        FnArgV::Receiver { span } => span,
        FnArgV::Typed { pat, ty, span } => span,
    }
}

/// The properties type a parameter contributes: the referenced element
/// type of a reference parameter, and nothing for a receiver or a
/// non-reference parameter.
pub open spec fn arg_props_spec(a: FnArgV) -> Option<TypeV> {
    match a {
        FnArgV::Receiver { span } => Option::None,
        FnArgV::Typed { pat, ty, span } => if ty.ref_depth >= 1 {
            Option::Some(TypeV { ref_depth: (ty.ref_depth - 1) as nat, base: ty.base })
        } else {
            Option::None
        },
    }
}

/// Whether the parameter list declares no parameter at all.
pub open spec fn zero_arg_spec(inputs: Seq<FnArgV>) -> bool {
    inputs.len() == 0
}

/// The properties type of a parameter list: unit for an empty list, the
/// referenced element type of the first parameter when it is a reference,
/// and the unit fallback otherwise. Only the first parameter ever
/// participates.
pub open spec fn props_spec(inputs: Seq<FnArgV>) -> TypeV {
    if inputs.len() == 0 {
        unit_type_spec()
    } else {
        match arg_props_spec(inputs[0]) {
            Option::Some(t) => t,
            Option::None => unit_type_spec(),
        }
    }
}

/// The diagnostics of a parameter list, in order: a surplus-parameter
/// report at the whole list's span when more than one parameter is
/// declared, then a shape report at the first parameter's span when it is
/// not a reference. An empty list is valid.
pub open spec fn sig_diags_spec(inputs: Seq<FnArgV>, inputs_span: u64) -> Seq<Diagnostic> {
    if inputs.len() == 0 {
        Seq::empty()
    } else {
        let too_many: Seq<Diagnostic> = if inputs.len() > 1 {
            seq![Diagnostic { kind: DiagnosticKind::TooManyArgs, span: inputs_span }]
        } else {
            Seq::empty()
        };
        let not_ref: Seq<Diagnostic> = match arg_props_spec(inputs[0]) {
            Option::Some(t) => Seq::empty(),
            Option::None => seq![
                Diagnostic {
                    kind: DiagnosticKind::FirstArgNotReference,
                    span: arg_span_spec(inputs[0]),
                },
            ],
        };
        too_many + not_ref
    }
}

/// Analyze a parameter list: the properties type, whether the list was
/// empty, and the accumulated diagnostics.
pub fn analyze_signature(inputs: &Vec<FnArgModel>, inputs_span: u64) -> (r: (
    TypeModel,
    bool,
    Vec<Diagnostic>,
))
    ensures
        r.0.deep_view() == props_spec(inputs.deep_view()),
        r.1 == zero_arg_spec(inputs.deep_view()),
        r.2@ == sig_diags_spec(inputs.deep_view(), inputs_span),
{
    let mut diags: Vec<Diagnostic> = Vec::new();
    if inputs.len() == 0 {
        proof {
            assert(diags@ =~= sig_diags_spec(inputs.deep_view(), inputs_span));
        }
        return (TypeModel::Unit, true, diags);
    }
    if inputs.len() > 1 {
        diags.push(Diagnostic { kind: DiagnosticKind::TooManyArgs, span: inputs_span });
    }
    let props = match &inputs[0] {
        FnArgModel::Receiver { span } => {
            diags.push(Diagnostic { kind: DiagnosticKind::FirstArgNotReference, span: *span });
            TypeModel::Unit
        },
        FnArgModel::Typed { pat, ty, span } => {
            match ty {
                TypeModel::Reference(elem) => elem.duplicate(),
                _ => {
                    diags.push(
                        Diagnostic { kind: DiagnosticKind::FirstArgNotReference, span: *span },
                    );
                    TypeModel::Unit
                },
            }
        },
    };
    proof {
        assert(diags@ =~= sig_diags_spec(inputs.deep_view(), inputs_span));
    }
    (props, false, diags)
}

} // verus!
