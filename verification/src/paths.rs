//! Path resolution.
//!
//! The emitted component mentions four dependency symbols: the own library
//! root, the framework module, the hook-engine module and the
//! hook-behavior attribute. Each may be overridden by the caller; an
//! absent override derives from the root path by appending the fixed
//! two-segment suffix `__private::<name>`. Resolution is pure and total.

use vstd::prelude::*;
use vstd::string::StringExecFns;

use crate::model::{HookComponentArgs, HookComponentArgsV, PathV, ResolvedPaths, ResolvedPathsV,
    SimplePath};

verus! {

/// The default root path `::hooks_yew`.
pub open spec fn default_root_spec() -> PathV {
    PathV { leading_colon: true, segments: seq!["hooks_yew"@] }
}

/// The derivation rule for an absent override: append `__private` and the
/// symbol's name to the root path.
pub open spec fn private_path_spec(root: PathV, name: Seq<char>) -> PathV {
    PathV {
        leading_colon: root.leading_colon,
        segments: root.segments + seq!["__private"@, name],
    }
}

/// A path is the bare `inline` marker: no leading `::`, one segment,
/// spelled `inline`.
pub open spec fn is_inline_spec(p: PathV) -> bool {
    &&& !p.leading_colon
    &&& p.segments.len() == 1
    &&& p.segments[0] == "inline"@
}

/// What resolution returns for given overrides: the root itself, and each
/// of the three symbols either as its override or derived from the root.
pub open spec fn resolve_spec(args: HookComponentArgsV) -> ResolvedPathsV {
    let root = match args.hooks_yew_path {
        Option::Some(p) => p,
        Option::None => default_root_spec(),
    };
    ResolvedPathsV {
        hooks_yew: root,
        yew: match args.yew_path {
            Option::Some(p) => p,
            Option::None => private_path_spec(root, "yew"@),
        },
        hooks_core: match args.hooks_core_path {
            Option::Some(p) => p,
            Option::None => private_path_spec(root, "hooks_core"@),
        },
        hook_macro: match args.hook_macro_path {
            Option::Some(p) => p,
            Option::None => private_path_spec(root, "hook_macro"@),
        },
    }
}

/// The textual form of a path: segments joined by `::`, with a leading
/// `::` when the path is fully qualified.
pub open spec fn join_segments_spec(segments: Seq<Seq<char>>) -> Seq<char>
    decreases segments.len(),
{
    if segments.len() == 0 {
        Seq::empty()
    } else if segments.len() == 1 {
        segments[0]
    } else {
        join_segments_spec(segments.drop_last()) + "::"@ + segments.last()
    }
}

/// The textual form of a whole path.
pub open spec fn path_display_spec(p: PathV) -> Seq<char> {
    if p.leading_colon {
        "::"@ + join_segments_spec(p.segments)
    } else {
        join_segments_spec(p.segments)
    }
}

/// The default root path `::hooks_yew`.
pub fn default_hooks_yew_path() -> (r: SimplePath)
    ensures
        r.deep_view() == default_root_spec(),
{
    let mut segments: Vec<String> = Vec::new();
    segments.push(String::from_str("hooks_yew"));
    proof {
        assert(segments.deep_view() =~= seq!["hooks_yew"@]);
    }
    SimplePath { leading_colon: true, segments }
}

/// Derive the path of one dependency symbol from the root path.
pub fn private_path(hooks_yew_path: &SimplePath, name: &str) -> (r: SimplePath)
    ensures
        r.deep_view() == private_path_spec(hooks_yew_path.deep_view(), name@),
{
    let mut base = hooks_yew_path.duplicate();
    base.segments.push(String::from_str("__private"));
    base.segments.push(String::from_str(name));
    proof {
        assert(base.segments.deep_view() =~= hooks_yew_path.deep_view().segments
            + seq!["__private"@, name@]);
    }
    base
}

/// Whether an attribute path is the bare `inline` marker.
pub fn path_is_inline(path: &SimplePath) -> (r: bool)
    ensures
        r == is_inline_spec(path.deep_view()),
{
    if path.leading_colon {
        false
    } else if path.segments.len() != 1 {
        false
    } else {
        let target = String::from_str("inline");
        path.segments[0] == target
    }
}

/// Render a path as text, e.g. `::hooks_yew::__private::hooks_core`. The
/// emitter uses this for the string-literal argument handed to the
/// hook-behavior attribute.
pub fn path_display(p: &SimplePath) -> (r: String)
    ensures
        r@ == path_display_spec(p.deep_view()),
{
    let ghost segs = p.deep_view().segments;
    let mut out = if p.leading_colon {
        String::from_str("::")
    } else {
        String::new()
    };
    let ghost lead = out@;
    let mut i: usize = 0;
    while i < p.segments.len()
        invariant
            i <= p.segments.len(),
            segs == p.deep_view().segments,
            segs.len() == p.segments.len(),
            lead == if p.leading_colon { "::"@ } else { Seq::<char>::empty() },
            out@ == lead + join_segments_spec(segs.take(i as int)),
        decreases p.segments.len() - i,
    {
        if i > 0 {
            out.append("::");
        }
        out.append(p.segments[i].as_str());
        proof {
            let t1 = segs.take(i + 1 as int);
            assert(t1.drop_last() =~= segs.take(i as int));
            assert(t1.last() == segs[i as int]);
            if i == 0 {
                assert(join_segments_spec(t1) == segs[0]);
                assert(join_segments_spec(segs.take(0int)) == Seq::<char>::empty());
                assert(out@ == lead + join_segments_spec(t1));
            } else {
                assert(join_segments_spec(t1) == join_segments_spec(segs.take(i as int)) + "::"@
                    + segs[i as int]);
            }
        }
        i = i + 1;
    }
    proof {
        assert(segs.take(p.segments.len() as int) =~= segs);
    }
    out
}

impl HookComponentArgs {
    /// Resolve the four dependency paths from the overrides.
    pub fn resolve(&self) -> (r: ResolvedPaths)
        ensures
            r.deep_view() == resolve_spec(self.deep_view()),
    {
        let hooks_yew = match &self.hooks_yew_path {
            Option::Some(p) => p.duplicate(),
            Option::None => default_hooks_yew_path(),
        };
        let yew = match &self.yew_path {
            Option::Some(p) => p.duplicate(),
            Option::None => private_path(&hooks_yew, "yew"),
        };
        let hooks_core = match &self.hooks_core_path {
            Option::Some(p) => p.duplicate(),
            Option::None => private_path(&hooks_yew, "hooks_core"),
        };
        let hook_macro = match &self.hook_macro_path {
            Option::Some(p) => p.duplicate(),
            Option::None => private_path(&hooks_yew, "hook_macro"),
        };
        ResolvedPaths { hooks_yew, yew, hooks_core, hook_macro }
    }
}

/// With no overrides for the three derived symbols, every one of them is
/// the root path with `__private::<name>` appended — for the given root
/// override, or for the default root `::hooks_yew`.
pub proof fn lemma_derived_paths(args: HookComponentArgsV, root: PathV)
    requires
        args.hooks_yew_path == Option::Some(root) || (args.hooks_yew_path is None && root
            == default_root_spec()),
        args.yew_path is None,
        args.hooks_core_path is None,
        args.hook_macro_path is None,
    ensures
        resolve_spec(args).hooks_yew == root,
        resolve_spec(args).yew == private_path_spec(root, "yew"@),
        resolve_spec(args).hooks_core == private_path_spec(root, "hooks_core"@),
        resolve_spec(args).hook_macro == private_path_spec(root, "hook_macro"@),
{
}

/// Overriding the framework path changes that resolved path alone.
pub proof fn lemma_yew_override_is_local(args: HookComponentArgsV, p: PathV)
    ensures
        ({
            let o = HookComponentArgsV { yew_path: Option::Some(p), ..args };
            &&& resolve_spec(o).yew == p
            &&& resolve_spec(o).hooks_yew == resolve_spec(args).hooks_yew
            &&& resolve_spec(o).hooks_core == resolve_spec(args).hooks_core
            &&& resolve_spec(o).hook_macro == resolve_spec(args).hook_macro
        }),
{
}

/// Overriding the hook-engine path changes that resolved path alone.
pub proof fn lemma_hooks_core_override_is_local(args: HookComponentArgsV, p: PathV)
    ensures
        ({
            let o = HookComponentArgsV { hooks_core_path: Option::Some(p), ..args };
            &&& resolve_spec(o).hooks_core == p
            &&& resolve_spec(o).hooks_yew == resolve_spec(args).hooks_yew
            &&& resolve_spec(o).yew == resolve_spec(args).yew
            &&& resolve_spec(o).hook_macro == resolve_spec(args).hook_macro
        }),
{
}

/// Overriding the hook-attribute path changes that resolved path alone.
pub proof fn lemma_hook_macro_override_is_local(args: HookComponentArgsV, p: PathV)
    ensures
        ({
            let o = HookComponentArgsV { hook_macro_path: Option::Some(p), ..args };
            &&& resolve_spec(o).hook_macro == p
            &&& resolve_spec(o).hooks_yew == resolve_spec(args).hooks_yew
            &&& resolve_spec(o).yew == resolve_spec(args).yew
            &&& resolve_spec(o).hooks_core == resolve_spec(args).hooks_core
        }),
{
}

} // verus!
