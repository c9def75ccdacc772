use crate::command::{
    blank, build_args, checked, diff_args, diff_line, export_args, export_line, import_args,
    import_line, inspect_args, inspect_line, opt_entries, opt_text, opt_texts, request_line,
    scan_args, scan_line, Request,
};
use crate::environment::{
    child_environment, pair_texts, resolve_environment, resolve_executable, resolved_executable,
};
use crate::text::texts;
use vstd::prelude::*;

verus! {

// Each operation of the bridge is split in two around the one thing it cannot
// do itself, starting a process. The functions here decide, from the request,
// either that nothing is to run (a required path is missing) or exactly what is
// to run. The host runs that invocation once, waits for it, and hands what came
// back to `outcome::normalize`, whose result is the operation's result.
/// Everything one run of the tool is started with.
pub struct Invocation {
    pub program: String,
    pub args: Vec<String>,
    pub env: Vec<(String, String)>,
}

/// `inv` runs the tool's command line `line`: with the executable that the
/// override selects, and with the UTF-8 variables added to the environment.
pub open spec fn runs_line(inv: Invocation, line: Seq<Seq<char>>, override_value: Option<String>) -> bool {
    &&& inv.program@ == resolved_executable(opt_text(override_value))
    &&& texts(inv.args@) == line
    &&& pair_texts(inv.env@) == child_environment()
}

/// `r` runs the command line of `line` when it is one, and is the validation
/// message, with nothing to run, when it is that.
pub open spec fn planned(
    r: Result<Invocation, String>,
    line: Result<Seq<Seq<char>>, Seq<char>>,
    override_value: Option<String>,
) -> bool {
    match (r, line) {
        (Ok(inv), Ok(l)) => runs_line(inv, l, override_value),
        (Err(e), Err(m)) => e@ == m,
        _ => false,
    }
}

fn invocation_of(args: Vec<String>, override_value: Option<String>) -> (r: Invocation)
    ensures
        runs_line(r, texts(args@), override_value),
{
    Invocation { program: resolve_executable(override_value), args, env: resolve_environment() }
}

fn plan_of(args: Result<Vec<String>, String>, override_value: Option<String>) -> (r: Result<
    Invocation,
    String,
>)
    ensures
        match (r, args) {
            (Ok(inv), Ok(a)) => runs_line(inv, texts(a@), override_value),
            (Err(e), Err(m)) => e == m,
            _ => false,
        },
{
    match args {
        Err(e) => Err(e),
        Ok(a) => Ok(invocation_of(a, override_value)),
    }
}

/// What any request comes to: the run of its command line, or the validation
/// message when a required path is missing.
pub fn plan_invocation(req: &Request, override_value: Option<String>) -> (r: Result<
    Invocation,
    String,
>)
    ensures
        planned(r, request_line(*req), override_value),
{
    plan_of(build_args(req), override_value)
}

/// A scan: never refused, it always runs the tool on the scan's command line.
pub fn scan(
    categories: Option<Vec<String>>,
    format: Option<String>,
    modified_only: Option<bool>,
    override_value: Option<String>,
) -> (r: Invocation)
    ensures
        runs_line(r, scan_line(opt_texts(categories), opt_text(format), modified_only), override_value),
{
    invocation_of(scan_args(&categories, &format, modified_only), override_value)
}

/// An export to `path`: refused with nothing to run exactly when `path` is
/// blank, else the run of the export's command line.
pub fn export_config(
    path: String,
    categories: Option<String>,
    include_defaults: Option<bool>,
    override_value: Option<String>,
) -> (r: Result<Invocation, String>)
    ensures
        planned(
            r,
            checked(!blank(path@), export_line(path@, opt_entries(categories), include_defaults)),
            override_value,
        ),
{
    plan_of(export_args(&path, &categories, include_defaults), override_value)
}

/// An import from `path`: refused with nothing to run exactly when `path` is
/// blank, else the run of the import's command line.
pub fn import_config(
    path: String,
    dry_run: Option<bool>,
    skip_restore: Option<bool>,
    override_value: Option<String>,
) -> (r: Result<Invocation, String>)
    ensures
        planned(
            r,
            checked(!blank(path@), import_line(path@, dry_run, skip_restore)),
            override_value,
        ),
{
    plan_of(import_args(&path, dry_run, skip_restore), override_value)
}

/// An inspection of `path`, as JSON: refused with nothing to run exactly when
/// `path` is blank, else the run of the inspection's command line.
pub fn inspect(path: String, override_value: Option<String>) -> (r: Result<Invocation, String>)
    ensures
        planned(r, checked(!blank(path@), inspect_line(path@)), override_value),
{
    plan_of(inspect_args(&path), override_value)
}

/// A comparison of `path_a` with `path_b`, as JSON: refused with nothing to run
/// exactly when either path is blank, else the run of the comparison's command
/// line.
pub fn diff(
    path_a: String,
    path_b: String,
    show_all: Option<bool>,
    override_value: Option<String>,
) -> (r: Result<Invocation, String>)
    ensures
        planned(
            r,
            checked(!blank(path_a@) && !blank(path_b@), diff_line(path_a@, path_b@, show_all)),
            override_value,
        ),
{
    plan_of(diff_args(&path_a, &path_b, show_all), override_value)
}

} // verus!
