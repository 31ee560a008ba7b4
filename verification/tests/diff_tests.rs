use export_diff::analyze_diff;
use export_diff::snapshot_of_source;
use export_diff::ChangeType;

#[test]
fn modified_initializer_reported() {
    let r = analyze_diff("export const a = 1;", "export const a = 2;").unwrap();
    assert_eq!(r.len(), 1);
    assert_eq!(r[0].name, "a");
    assert!(matches!(r[0].change, ChangeType::Modified));
}

#[test]
fn added_export_reported() {
    let r = analyze_diff(
        "export const a = 1;",
        "export const a = 1; export const b = 2;",
    )
    .unwrap();
    assert_eq!(r.len(), 1);
    assert_eq!(r[0].name, "b");
    assert!(matches!(r[0].change, ChangeType::Added));
}

#[test]
fn removed_export_reported() {
    let r = analyze_diff("function f(){} export { f };", "").unwrap();
    assert_eq!(r.len(), 1);
    assert_eq!(r[0].name, "f");
    assert!(matches!(r[0].change, ChangeType::Removed));
}

#[test]
fn default_export_has_no_body() {
    // A default export contributes only the sentinel name, never a body,
    // so two different default expressions yield no record.
    let r = analyze_diff("export default 1;", "export default 2;").unwrap();
    assert_eq!(r.len(), 0);
}

#[test]
fn wildcard_reexport_collapses() {
    let snap_old = snapshot_of_source("export * from \"x\";").unwrap();
    let snap_new = snapshot_of_source("export * from \"y\";").unwrap();
    assert!(snap_old.has_export("*"));
    assert!(snap_new.has_export("*"));
    // No body is tracked for the sentinel, so even a changed re-export
    // source yields no record.
    let r = analyze_diff("export * from \"x\";", "export * from \"y\";").unwrap();
    assert_eq!(r.len(), 0);
}

#[test]
fn malformed_input_fails() {
    let r = analyze_diff("export const a = ;", "export const b = 1;");
    assert!(r.is_err());
}

#[test]
fn identical_source_yields_empty_diff() {
    let code = "export const a = 1;\nfunction f(){}\nexport { f };\nexport default 3;\n";
    let r = analyze_diff(code, code).unwrap();
    assert_eq!(r.len(), 0);
}

#[test]
fn added_and_removed_are_symmetric() {
    let older = "";
    let newer = "export const x = 1;";
    let forward = analyze_diff(older, newer).unwrap();
    assert_eq!(forward.len(), 1);
    assert_eq!(forward[0].name, "x");
    assert!(matches!(forward[0].change, ChangeType::Added));
    let backward = analyze_diff(newer, older).unwrap();
    assert_eq!(backward.len(), 1);
    assert_eq!(backward[0].name, "x");
    assert!(matches!(backward[0].change, ChangeType::Removed));
}

#[test]
fn unexported_declarations_never_appear() {
    // The name is declared on both sides with different bodies, but it is
    // exported by neither, so it never shows up.
    let r = analyze_diff("const h = 1;", "const h = 2;").unwrap();
    assert_eq!(r.len(), 0);
}

#[test]
fn bare_declaration_supplies_the_body() {
    let r = analyze_diff(
        "function f(){} export { f };",
        "function f(){ return 1; } export { f };",
    )
    .unwrap();
    assert_eq!(r.len(), 1);
    assert_eq!(r[0].name, "f");
    assert!(matches!(r[0].change, ChangeType::Modified));
}

#[test]
fn aliased_reexport_tracks_no_body() {
    // `export { x as y }` exposes `y`, but the body stays recorded under
    // the local name `x`, so `y` is absent from the bodies on both sides
    // and yields no record.
    let snap = snapshot_of_source("const x = 1; export { x as y };").unwrap();
    assert!(snap.has_export("y"));
    assert!(!snap.has_export("x"));
    let r = analyze_diff("const x = 1; export { x as y };", "").unwrap();
    assert_eq!(r.len(), 0);
}

#[test]
fn later_declaration_overwrites_earlier() {
    let r = analyze_diff(
        "export var a = 1; var a = 2;",
        "export var a = 1; var a = 2;",
    )
    .unwrap();
    assert_eq!(r.len(), 0);
    let r = analyze_diff(
        "export var a = 1; var a = 2;",
        "export var a = 1; var a = 3;",
    )
    .unwrap();
    assert_eq!(r.len(), 1);
    assert_eq!(r[0].name, "a");
    assert!(matches!(r[0].change, ChangeType::Modified));
}

#[test]
fn declarations_in_statement_bodies_are_reachable() {
    let r = analyze_diff("{ function g(){} } export { g };", "export { g };").unwrap();
    assert_eq!(r.len(), 1);
    assert_eq!(r[0].name, "g");
    assert!(matches!(r[0].change, ChangeType::Removed));
}

#[test]
fn declarations_in_function_bodies_are_out_of_scope() {
    // `inner` is exported by name, but its declaration lives inside a
    // function body, so no body is ever recorded for it.
    let r = analyze_diff(
        "function outer(){ const inner = 1; } export { inner };",
        "",
    )
    .unwrap();
    assert_eq!(r.len(), 0);
}

#[test]
fn namespace_reexport_contributes_its_name() {
    let snap = snapshot_of_source("export * as ns from \"m\";").unwrap();
    assert!(snap.has_export("ns"));
    assert!(!snap.has_export("*"));
}

#[test]
fn default_declaration_contributes_sentinel_only() {
    let snap = snapshot_of_source("export default function d(){}").unwrap();
    assert!(snap.has_export("default"));
    assert!(!snap.has_export("d"));
}

#[test]
fn string_alias_is_the_exported_name() {
    let snap = snapshot_of_source("const x = 1; export { x as \"s p\" };").unwrap();
    assert!(snap.has_export("s p"));
}

#[test]
fn empty_sources_diff_to_nothing() {
    let r = analyze_diff("", "").unwrap();
    assert_eq!(r.len(), 0);
}

#[test]
fn class_exports_are_tracked() {
    let r = analyze_diff(
        "export class C { m(){ return 1; } }",
        "export class C { m(){ return 2; } }",
    )
    .unwrap();
    assert_eq!(r.len(), 1);
    assert_eq!(r[0].name, "C");
    assert!(matches!(r[0].change, ChangeType::Modified));
}

#[test]
fn multiple_declarators_contribute_each_name() {
    let r = analyze_diff("export const a = 1, b = 2;", "export const a = 1, b = 3;").unwrap();
    assert_eq!(r.len(), 1);
    assert_eq!(r[0].name, "b");
    assert!(matches!(r[0].change, ChangeType::Modified));
}

#[test]
fn tsx_syntax_is_accepted() {
    let older = "export const v = <div a={1} />;";
    let newer = "export const v = <div a={2} />;";
    let r = analyze_diff(older, newer).unwrap();
    assert_eq!(r.len(), 1);
    assert_eq!(r[0].name, "v");
    assert!(matches!(r[0].change, ChangeType::Modified));
}
