use vstd::prelude::*;
use path_absolutize::Absolutize;
use crate::error::Error;

verus! {

/// Directories asked for on the command line for one scope.
pub struct PathOpts {
    /// Directory of the input files.
    pub input_files: Option<String>,
    /// The scope's implementation directory.
    pub implementation: Option<String>,
    /// Directory of the unit template files.
    pub day_templates: Option<String>,
}

/// Directories configured for one scope.
pub struct ScopePaths {
    pub input_files: Option<String>,
    pub implementation: Option<String>,
    pub day_template: Option<String>,
}

/// What reconciling one directory leaves to the caller.
pub enum Reconciled {
    /// Nothing: no directory was asked for, or the one asked for is the one configured.
    Unchanged,
    /// Create this directory where absent, and record its canonical form as configured.
    Create(String),
}

/// `p` is an absolute path.
pub open spec fn is_absolute(p: Seq<char>) -> bool {
    p.len() > 0 && p[0] == '/'
}

/// `path` with `.` and `..` resolved, and made absolute against `cwd`.
pub uninterp spec fn absolutized(path: Seq<char>, cwd: Seq<char>) -> Seq<char>;

/// The relative path from `base` to `path`, where pathdiff finds one.
pub uninterp spec fn path_diff(path: Seq<char>, base: Seq<char>) -> Option<Seq<char>>;

/// Relies on path-absolutize's `Absolutize::absolutize_from`: it works on the
/// path's text alone, and with an absolute `cwd` it always succeeds.
#[verifier::external_body]
fn absolutize_from(path: &str, cwd: &str) -> (r: String)
    requires
        is_absolute(cwd@),
    ensures
        r@ == absolutized(path@, cwd@),
{
    match std::path::Path::new(path).absolutize_from(cwd) {
        Ok(p) => p.to_string_lossy().into_owned(),
        Err(_) => String::new(),
    }
}

/// Relies on pathdiff's `diff_paths`: it works on the paths' text alone.
#[verifier::external_body]
fn diff_paths(path: &str, base: &str) -> (r: Option<String>)
    ensures
        match r {
            Some(s) => path_diff(path@, base@) == Some(s@),
            None => path_diff(path@, base@) is None,
        },
{
    pathdiff::diff_paths(path, base).map(|p| p.to_string_lossy().into_owned())
}

/// The outcome of reconciling `desired` with `configured`: the directory to create
/// and record, or `Err((desired, configured))` on a conflict.
pub open spec fn reconcile_outcome(
    desired: Option<Seq<char>>,
    configured: Option<Seq<char>>,
    cwd: Seq<char>,
) -> Result<Option<Seq<char>>, (Seq<char>, Seq<char>)> {
    match (desired, configured) {
        (None, _) => Ok(None),
        (Some(d), None) => Ok(Some(d)),
        (Some(d), Some(c)) => if absolutized(d, cwd) == absolutized(c, cwd) {
            Ok(None)
        } else {
            Err((d, c))
        },
    }
}

/// The view of an optional string.
pub open spec fn opt_view(o: Option<String>) -> Option<Seq<char>> {
    match o {
        Some(s) => Some(s@),
        None => None,
    }
}

/// `r` is what reconciling `desired` with `configured` comes to.
pub open spec fn reconciled_as(
    r: Result<Reconciled, Error>,
    desired: Option<String>,
    configured: Option<String>,
    cwd: Seq<char>,
) -> bool {
    match reconcile_outcome(opt_view(desired), opt_view(configured), cwd) {
        Ok(None) => r is Ok && r->Ok_0 is Unchanged,
        Ok(Some(d)) => r is Ok && r->Ok_0 is Create && r->Ok_0->Create_0@ == d,
        Err((d, c)) => {
            &&& r is Err
            &&& r->Err_0 is ConfigCliConflict
            &&& r->Err_0->ConfigCliConflict_0@ == d
            &&& r->Err_0->ConfigCliConflict_1@ == c
        },
    }
}

/// Reconciles a directory asked for with the one configured, if any.
///
/// Nothing is asked: nothing to do. Nothing is configured: the directory asked
/// for is to be created and recorded. Both are there: nothing to do where they
/// name the same directory once made absolute against `cwd`, and a conflict
/// otherwise; the configured one is never replaced.
pub fn reconcile(desired: &Option<String>, configured: &Option<String>, cwd: &str) -> (r: Result<Reconciled, Error>)
    requires
        is_absolute(cwd@),
    ensures
        reconciled_as(r, *desired, *configured, cwd@),
{
    match desired {
        None => Ok(Reconciled::Unchanged),
        Some(d) => match configured {
            None => Ok(Reconciled::Create(d.clone())),
            Some(c) => {
                let da = absolutize_from(d.as_str(), cwd);
                let ca = absolutize_from(c.as_str(), cwd);
                if da == ca {
                    Ok(Reconciled::Unchanged)
                } else {
                    Err(Error::ConfigCliConflict(d.clone(), c.clone()))
                }
            },
        },
    }
}

/// What reconciling each of a scope's three directories leaves to the caller.
pub struct ScopePlan {
    pub input_files: Reconciled,
    pub implementation: Reconciled,
    pub day_template: Reconciled,
}

/// Reconciles all three directories of a scope, in the order input files,
/// implementation, templates; the first conflict is returned and nothing else.
pub fn plan_scope(configured: &ScopePaths, opts: &PathOpts, cwd: &str) -> (r: Result<ScopePlan, Error>)
    requires
        is_absolute(cwd@),
    ensures
        ({
            let a = reconcile_outcome(opt_view(opts.input_files), opt_view(configured.input_files), cwd@);
            let b = reconcile_outcome(opt_view(opts.implementation), opt_view(configured.implementation), cwd@);
            let c = reconcile_outcome(opt_view(opts.day_templates), opt_view(configured.day_template), cwd@);
            &&& a is Err ==> r is Err && reconciled_as(Err(r->Err_0), opts.input_files, configured.input_files, cwd@)
            &&& a is Ok && b is Err ==> r is Err && reconciled_as(Err(r->Err_0), opts.implementation, configured.implementation, cwd@)
            &&& a is Ok && b is Ok && c is Err ==> r is Err && reconciled_as(Err(r->Err_0), opts.day_templates, configured.day_template, cwd@)
            &&& a is Ok && b is Ok && c is Ok ==> {
                &&& r is Ok
                &&& reconciled_as(Ok(r->Ok_0.input_files), opts.input_files, configured.input_files, cwd@)
                &&& reconciled_as(Ok(r->Ok_0.implementation), opts.implementation, configured.implementation, cwd@)
                &&& reconciled_as(Ok(r->Ok_0.day_template), opts.day_templates, configured.day_template, cwd@)
            }
        }),
{
    let input_files = reconcile(&opts.input_files, &configured.input_files, cwd)?;
    let implementation = reconcile(&opts.implementation, &configured.implementation, cwd)?;
    let day_template = reconcile(&opts.day_templates, &configured.day_template, cwd)?;
    Ok(ScopePlan { input_files, implementation, day_template })
}

/// A relative path that leaves its base or stays at it: empty, absolute, `..`,
/// or beginning with `../`.
pub open spec fn leaves_base(rel: Seq<char>) -> bool {
    ||| rel.len() == 0
    ||| rel[0] == '/'
    ||| rel == seq!['.', '.']
    ||| (rel.len() >= 3 && rel[0] == '.' && rel[1] == '.' && rel[2] == '/')
}

/// The ignore-file entry for the input directory: where it lies strictly inside
/// the implementation directory, its relative path with a trailing separator, so
/// that the rule matches a directory only.
pub open spec fn ignore_entry_of(input_files: Seq<char>, implementation: Seq<char>) -> Option<Seq<char>> {
    match path_diff(input_files, implementation) {
        Some(rel) => if leaves_base(rel) {
            None
        } else {
            Some(rel.push('/'))
        },
        None => None,
    }
}

/// Whether the relative path `rel` leaves its base or stays at it.
fn is_outside(rel: &str) -> (r: bool)
    ensures
        r == leaves_base(rel@),
{
    let n = rel.unicode_len();
    if n == 0 {
        return true;
    }
    let c0 = rel.get_char(0);
    if c0 == '/' {
        return true;
    }
    if n < 2 {
        return false;
    }
    let c1 = rel.get_char(1);
    if n == 2 {
        assert(c0 == '.' && c1 == '.' ==> rel@ =~= seq!['.', '.']);
        return c0 == '.' && c1 == '.';
    }
    let c2 = rel.get_char(2);
    c0 == '.' && c1 == '.' && c2 == '/'
}

/// The line that the ignore file of the implementation directory needs for the
/// input directory, if that lies strictly inside it.
pub fn input_ignore_entry(input_files: &str, implementation: &str) -> (r: Option<String>)
    ensures
        opt_view(r) == ignore_entry_of(input_files@, implementation@),
{
    match diff_paths(input_files, implementation) {
        None => None,
        Some(rel) => {
            if is_outside(rel.as_str()) {
                None
            } else {
                let mut entry = rel;
                entry.append("/");
                proof {
                    reveal_strlit("/");
                }
                assert(entry@ =~= path_diff(input_files@, implementation@)->Some_0.push('/'));
                Some(entry)
            }
        },
    }
}

/// Whether a workspace must be created at the implementation directory: it does
/// not exist, or it is an empty directory.
pub fn needs_workspace(present: bool, is_dir: bool, is_empty: bool) -> (r: bool)
    ensures
        r == (!present || (is_dir && is_empty)),
{
    !present || (is_dir && is_empty)
}

/// Whenever the directory asked for and the configured one differ once made
/// absolute, reconciling them fails with a conflict that names both, asked for
/// first; the configured value is only read, so it stays as it was.
pub proof fn conflict_keeps_configured(
    r: Result<Reconciled, Error>,
    desired: String,
    configured: String,
    cwd: Seq<char>,
)
    requires
        absolutized(desired@, cwd) != absolutized(configured@, cwd),
        reconciled_as(r, Some(desired), Some(configured), cwd),
    ensures
        r is Err,
        r->Err_0 is ConfigCliConflict,
        r->Err_0->ConfigCliConflict_0@ == desired@,
        r->Err_0->ConfigCliConflict_1@ == configured@,
{
}

} // verus!
