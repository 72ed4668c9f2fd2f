use hooks_yew::model::{HookComponentArgs, SimplePath};
use hooks_yew::paths::{default_hooks_yew_path, path_display, path_is_inline, private_path};

fn path(leading: bool, segs: &[&str]) -> SimplePath {
    SimplePath {
        leading_colon: leading,
        segments: segs.iter().map(|s| s.to_string()).collect(),
    }
}

#[test]
fn default_root_is_hooks_yew() {
    let root = default_hooks_yew_path();
    assert_eq!(path_display(&root), "::hooks_yew");
}

#[test]
fn private_path_appends_two_segments() {
    let root = path(true, &["hooks_yew"]);
    let p = private_path(&root, "hooks_core");
    assert_eq!(p.leading_colon, true);
    assert_eq!(p.segments, vec!["hooks_yew", "__private", "hooks_core"]);
    assert_eq!(path_display(&p), "::hooks_yew::__private::hooks_core");
}

#[test]
fn no_overrides_derive_all_three_paths() {
    let args = HookComponentArgs::default();
    let r = args.resolve();
    assert_eq!(path_display(&r.hooks_yew), "::hooks_yew");
    assert_eq!(path_display(&r.yew), "::hooks_yew::__private::yew");
    assert_eq!(path_display(&r.hooks_core), "::hooks_yew::__private::hooks_core");
    assert_eq!(path_display(&r.hook_macro), "::hooks_yew::__private::hook_macro");
}

#[test]
fn root_override_drives_every_derivation() {
    let args = HookComponentArgs {
        hooks_yew_path: Some(path(false, &["my_lib", "reexports"])),
        ..HookComponentArgs::default()
    };
    let r = args.resolve();
    assert_eq!(path_display(&r.hooks_yew), "my_lib::reexports");
    assert_eq!(path_display(&r.yew), "my_lib::reexports::__private::yew");
    assert_eq!(path_display(&r.hooks_core), "my_lib::reexports::__private::hooks_core");
    assert_eq!(path_display(&r.hook_macro), "my_lib::reexports::__private::hook_macro");
}

#[test]
fn single_override_changes_that_path_alone() {
    let args = HookComponentArgs {
        yew_path: Some(path(true, &["yew"])),
        ..HookComponentArgs::default()
    };
    let r = args.resolve();
    assert_eq!(path_display(&r.yew), "::yew");
    assert_eq!(path_display(&r.hooks_yew), "::hooks_yew");
    assert_eq!(path_display(&r.hooks_core), "::hooks_yew::__private::hooks_core");
    assert_eq!(path_display(&r.hook_macro), "::hooks_yew::__private::hook_macro");

    let args = HookComponentArgs {
        hooks_core_path: Some(path(true, &["hooks", "core"])),
        ..HookComponentArgs::default()
    };
    let r = args.resolve();
    assert_eq!(path_display(&r.hooks_core), "::hooks::core");
    assert_eq!(path_display(&r.yew), "::hooks_yew::__private::yew");
    assert_eq!(path_display(&r.hook_macro), "::hooks_yew::__private::hook_macro");

    let args = HookComponentArgs {
        hook_macro_path: Some(path(true, &["hooks", "hook"])),
        ..HookComponentArgs::default()
    };
    let r = args.resolve();
    assert_eq!(path_display(&r.hook_macro), "::hooks::hook");
    assert_eq!(path_display(&r.yew), "::hooks_yew::__private::yew");
    assert_eq!(path_display(&r.hooks_core), "::hooks_yew::__private::hooks_core");
}

#[test]
fn bare_inline_marker_is_recognized() {
    assert!(path_is_inline(&path(false, &["inline"])));
    assert!(!path_is_inline(&path(true, &["inline"])));
    assert!(!path_is_inline(&path(false, &["core", "inline"])));
    assert!(!path_is_inline(&path(false, &["inlined"])));
}

#[test]
fn display_of_bare_and_qualified_paths() {
    assert_eq!(path_display(&path(false, &["allow"])), "allow");
    assert_eq!(path_display(&path(false, &[])), "");
    assert_eq!(path_display(&path(true, &["a", "b", "c"])), "::a::b::c");
}
