//! Scaffolding for a multi-module workspace of daily puzzle solutions.
//!
//! The library holds the decisions: how the workspace manifest gains a member,
//! which ignore-file line is still missing, which templates must be fetched and
//! what each one renders to, and how configured directories are reconciled with
//! the ones asked for. Reading and writing files, fetching over the network and
//! the persisted configuration are left to the caller.

mod error;
mod lines;
mod manifest;
mod paths;
pub mod skeleton;
mod templates;
mod unit;

pub use error::Error;
pub use lines::{after_append, append_to_missing_file, contains_line, is_line_at, line_to_append, twice_is_once};
pub use manifest::{
    add_lists_once_more, add_member, add_member_to_text, default_manifest, manifest_text, occurrences, parse_manifest,
    parse_of, root_is_table, text_beside_members, text_of, workspace_members,
};
pub use templates::{
    first_present, first_unrendered, plain_template, render_result, render_templates, rendered, rendered_in, template_files, template_names, template_url,
    template_url_of, templates_to_fetch, views, TemplateContext,
};
pub use skeleton::{part1, part2};
pub use paths::{
    absolutized, conflict_keeps_configured, ignore_entry_of, input_ignore_entry, is_absolute, leaves_base, needs_workspace,
    opt_view, path_diff, plan_scope, reconcile, reconcile_outcome, reconciled_as, PathOpts, Reconciled, ScopePaths,
    ScopePlan,
};
pub use unit::{digit_char, two_digits, unit_name, unit_name_of};
