use aoctool::{input_ignore_entry, needs_workspace, plan_scope, reconcile, Error, PathOpts, Reconciled, ScopePaths};

fn some(s: &str) -> Option<String> {
    Some(s.to_string())
}

fn is_unchanged(r: &Result<Reconciled, Error>) -> bool {
    matches!(r, Ok(Reconciled::Unchanged))
}

#[test]
fn nothing_asked_is_nothing_done() {
    assert!(is_unchanged(&reconcile(&None, &None, "/w")));
    assert!(is_unchanged(&reconcile(&None, &some("/x"), "/w")));
}

#[test]
fn unconfigured_directory_is_created() {
    match reconcile(&some("inputs"), &None, "/w") {
        Ok(Reconciled::Create(d)) => assert_eq!(d, "inputs"),
        _ => panic!("expected a directory to create"),
    }
}

#[test]
fn same_directory_is_accepted() {
    assert!(is_unchanged(&reconcile(&some("/w/a/./b/../b"), &some("/w/a/b"), "/elsewhere")));
    assert!(is_unchanged(&reconcile(&some("a/b"), &some("/w/a/b"), "/w")));
}

#[test]
fn different_directory_conflicts() {
    let configured = some("/w/a");
    let r = reconcile(&some("/w/b"), &configured, "/w");
    assert_eq!(r.err(), Some(Error::ConfigCliConflict("/w/b".to_string(), "/w/a".to_string())));
    assert_eq!(configured, some("/w/a"));
    let r = reconcile(&some("b"), &some("/w/a"), "/w");
    assert_eq!(r.err(), Some(Error::ConfigCliConflict("b".to_string(), "/w/a".to_string())));
}

#[test]
fn scope_stops_at_first_conflict() {
    let configured = ScopePaths { input_files: some("/w/in"), implementation: some("/w"), day_template: some("/t") };
    let opts = PathOpts { input_files: some("/w/in"), implementation: some("/v"), day_templates: some("/u") };
    assert_eq!(
        plan_scope(&configured, &opts, "/").err(),
        Some(Error::ConfigCliConflict("/v".to_string(), "/w".to_string()))
    );
}

#[test]
fn scope_plan_lists_each_directory() {
    let configured = ScopePaths { input_files: None, implementation: some("/w"), day_template: None };
    let opts = PathOpts { input_files: some("/w/in"), implementation: some("/w/"), day_templates: None };
    let plan = plan_scope(&configured, &opts, "/").ok().unwrap();
    assert!(matches!(plan.input_files, Reconciled::Create(ref d) if d == "/w/in"));
    assert!(matches!(plan.implementation, Reconciled::Unchanged));
    assert!(matches!(plan.day_template, Reconciled::Unchanged));
}

#[test]
fn inputs_inside_implementation_are_ignored() {
    assert_eq!(input_ignore_entry("/w/inputs", "/w"), some("inputs/"));
    assert_eq!(input_ignore_entry("/w/data/inputs", "/w"), some("data/inputs/"));
}

#[test]
fn inputs_elsewhere_are_not_ignored() {
    assert_eq!(input_ignore_entry("/x/inputs", "/w"), None);
    assert_eq!(input_ignore_entry("/w", "/w"), None);
    assert_eq!(input_ignore_entry("/", "/w"), None);
}

#[test]
fn workspace_is_made_only_where_nothing_stands() {
    assert!(needs_workspace(false, false, false));
    assert!(needs_workspace(true, true, true));
    assert!(!needs_workspace(true, true, false));
    assert!(!needs_workspace(true, false, false));
}
