use crate::text::{list_entries, split_list, texts, trim, trim_text};
use vstd::prelude::*;

verus! {

/// One operation of the tool, with the fields its command line is built from.
///
/// Opening the output folder runs no tool and has no request: see
/// `bridge::open_output_folder`.
pub enum Request {
    Scan { categories: Option<Vec<String>>, format: Option<String>, modified_only: Option<bool> },
    Export { path: String, categories: Option<String>, include_defaults: Option<bool> },
    Import { path: String, dry_run: Option<bool>, skip_restore: Option<bool> },
    Inspect { path: String },
    Diff { path_a: String, path_b: String, show_all: Option<bool> },
}

/// The message for a required path that is empty or only white space.
pub open spec fn path_required() -> Seq<char> {
    "path is required"@
}

/// A required path that is empty once trimmed is missing.
pub open spec fn blank(s: Seq<char>) -> bool {
    trim(s).len() == 0
}

/// The tokens every invocation starts with: run the tool's module, then name
/// the operation.
pub open spec fn invocation_prefix(op: Seq<char>) -> Seq<Seq<char>> {
    seq!["-m"@, "winstyles"@, op]
}

/// One `-c <category>` pair per category, in order.
pub open spec fn category_pairs(cs: Seq<Seq<char>>) -> Seq<Seq<char>>
    decreases cs.len(),
{
    if cs.len() == 0 {
        Seq::empty()
    } else {
        category_pairs(cs.drop_last()) + seq!["-c"@, cs.last()]
    }
}

/// `-f <format>` when a format is given, nothing otherwise.
pub open spec fn format_tokens(format: Option<Seq<char>>) -> Seq<Seq<char>> {
    match format {
        Some(f) => seq!["-f"@, f],
        None => Seq::empty(),
    }
}

/// The flag alone when the option is present and true, nothing otherwise.
pub open spec fn flag_tokens(on: Option<bool>, flag: Seq<char>) -> Seq<Seq<char>> {
    if on == Some(true) {
        seq![flag]
    } else {
        Seq::empty()
    }
}

pub open spec fn opt_text(o: Option<String>) -> Option<Seq<char>> {
    match o {
        Some(s) => Some(s@),
        None => None,
    }
}

/// The categories of a list that may be absent; an absent list has none.
pub open spec fn opt_texts(o: Option<Vec<String>>) -> Seq<Seq<char>> {
    match o {
        Some(v) => texts(v@),
        None => Seq::empty(),
    }
}

/// The entries of a comma-separated list that may be absent.
pub open spec fn opt_entries(o: Option<String>) -> Seq<Seq<char>> {
    match o {
        Some(s) => list_entries(s@),
        None => Seq::empty(),
    }
}

pub open spec fn scan_line(
    categories: Seq<Seq<char>>,
    format: Option<Seq<char>>,
    modified_only: Option<bool>,
) -> Seq<Seq<char>> {
    invocation_prefix("scan"@) + category_pairs(categories) + format_tokens(format) + flag_tokens(
        modified_only,
        "--modified-only"@,
    )
}

pub open spec fn export_line(
    path: Seq<char>,
    categories: Seq<Seq<char>>,
    include_defaults: Option<bool>,
) -> Seq<Seq<char>> {
    invocation_prefix("export"@) + seq![path] + category_pairs(categories) + flag_tokens(
        include_defaults,
        "--include-defaults"@,
    )
}

pub open spec fn import_line(path: Seq<char>, dry_run: Option<bool>, skip_restore: Option<bool>) -> Seq<
    Seq<char>,
> {
    invocation_prefix("import"@) + seq![path] + flag_tokens(dry_run, "--dry-run"@) + flag_tokens(
        skip_restore,
        "--skip-restore-point"@,
    )
}

pub open spec fn inspect_line(path: Seq<char>) -> Seq<Seq<char>> {
    invocation_prefix("inspect"@) + seq![path, "-f"@, "json"@]
}

pub open spec fn diff_line(path_a: Seq<char>, path_b: Seq<char>, show_all: Option<bool>) -> Seq<
    Seq<char>,
> {
    invocation_prefix("diff"@) + seq![path_a, path_b, "-f"@, "json"@] + flag_tokens(
        show_all,
        "--all"@,
    )
}

/// A command line, or the validation message that stands in its place.
pub open spec fn args_view(r: Result<Vec<String>, String>) -> Result<Seq<Seq<char>>, Seq<char>> {
    match r {
        Ok(v) => Ok(texts(v@)),
        Err(e) => Err(e@),
    }
}

/// `line` when the required paths are given, the validation message otherwise.
pub open spec fn checked(paths_given: bool, line: Seq<Seq<char>>) -> Result<
    Seq<Seq<char>>,
    Seq<char>,
> {
    if paths_given {
        Ok(line)
    } else {
        Err(path_required())
    }
}

/// What a request becomes: its command line, or the validation message.
pub open spec fn request_line(req: Request) -> Result<Seq<Seq<char>>, Seq<char>> {
    match req {
        Request::Scan { categories, format, modified_only } => Ok(
            scan_line(opt_texts(categories), opt_text(format), modified_only),
        ),
        Request::Export { path, categories, include_defaults } => checked(
            !blank(path@),
            export_line(path@, opt_entries(categories), include_defaults),
        ),
        Request::Import { path, dry_run, skip_restore } => checked(
            !blank(path@),
            import_line(path@, dry_run, skip_restore),
        ),
        Request::Inspect { path } => checked(!blank(path@), inspect_line(path@)),
        Request::Diff { path_a, path_b, show_all } => checked(
            !blank(path_a@) && !blank(path_b@),
            diff_line(path_a@, path_b@, show_all),
        ),
    }
}

/// Whether `s` is empty or only white space.
pub fn is_blank(s: &String) -> (r: bool)
    ensures
        r == blank(s@),
{
    trim_text(s.as_str()).as_str().is_empty()
}

fn push_text(out: &mut Vec<String>, s: String)
    ensures
        texts(final(out)@) == texts(old(out)@).push(s@),
{
    out.push(s);
    assert(texts(final(out)@) =~= texts(old(out)@).push(s@));
}

fn push_token(out: &mut Vec<String>, token: &str)
    ensures
        texts(final(out)@) == texts(old(out)@) + seq![token@],
{
    push_text(out, token.to_owned());
    assert(texts(old(out)@).push(token@) =~= texts(old(out)@) + seq![token@]);
}

fn push_flag(out: &mut Vec<String>, on: Option<bool>, flag: &str)
    ensures
        texts(final(out)@) == texts(old(out)@) + flag_tokens(on, flag@),
{
    match on {
        Some(true) => push_token(out, flag),
        _ => {
            assert(texts(old(out)@) + flag_tokens(on, flag@) =~= texts(old(out)@));
        },
    }
}

fn push_category_pairs(out: &mut Vec<String>, cats: &Vec<String>)
    ensures
        texts(final(out)@) == texts(old(out)@) + category_pairs(texts(cats@)),
{
    let ghost start = texts(out@);
    let mut i: usize = 0;
    assert(texts(cats@.subrange(0, 0)) =~= Seq::<Seq<char>>::empty());
    assert(start + category_pairs(Seq::empty()) =~= start);
    while i < cats.len()
        invariant
            i <= cats@.len(),
            texts(out@) == start + category_pairs(texts(cats@.subrange(0, i as int))),
        decreases cats@.len() - i,
    {
        let ghost done = texts(cats@.subrange(0, i as int));
        assert(texts(cats@.subrange(0, i + 1)).drop_last() =~= done);
        push_token(out, "-c");
        push_text(out, cats[i].clone());
        assert(start + category_pairs(done) + seq!["-c"@] + seq![cats@[i as int]@] =~= start + (
        category_pairs(done) + seq!["-c"@, cats@[i as int]@]));
        assert(texts(out@) =~= start + category_pairs(done) + seq!["-c"@] + seq![cats@[i as int]@])
            by {
            assert(texts(out@).drop_last() =~= start + category_pairs(done) + seq!["-c"@]);
        };
        i = i + 1;
    }
    assert(cats@.subrange(0, i as int) =~= cats@);
}

/// `-m winstyles <op>`.
fn invocation(op: &str) -> (r: Vec<String>)
    ensures
        texts(r@) == invocation_prefix(op@),
{
    let mut out: Vec<String> = Vec::new();
    assert(texts(out@) =~= Seq::<Seq<char>>::empty());
    push_token(&mut out, "-m");
    push_token(&mut out, "winstyles");
    push_token(&mut out, op);
    assert(texts(out@) =~= invocation_prefix(op@));
    out
}

fn missing_path() -> (r: String)
    ensures
        r@ == path_required(),
{
    "path is required".to_owned()
}

/// The command line of a scan: categories as `-c` pairs in order, then the
/// format, then `--modified-only`.
pub fn scan_args(
    categories: &Option<Vec<String>>,
    format: &Option<String>,
    modified_only: Option<bool>,
) -> (r: Vec<String>)
    ensures
        texts(r@) == scan_line(opt_texts(*categories), opt_text(*format), modified_only),
{
    let mut out = invocation("scan");
    match categories {
        Some(cats) => push_category_pairs(&mut out, cats),
        None => {
            assert(category_pairs(Seq::empty()) =~= Seq::<Seq<char>>::empty());
            assert(texts(out@) + category_pairs(Seq::empty()) =~= texts(out@));
        },
    }
    match format {
        Some(f) => {
            let ghost before = texts(out@);
            push_token(&mut out, "-f");
            push_text(&mut out, f.clone());
            assert(texts(out@) =~= before + format_tokens(opt_text(*format)));
        },
        None => {
            assert(texts(out@) + format_tokens(None) =~= texts(out@));
        },
    }
    push_flag(&mut out, modified_only, "--modified-only");
    out
}

/// The command line of an export, or the validation message when the path is
/// missing. The categories are a comma-separated list.
pub fn export_args(path: &String, categories: &Option<String>, include_defaults: Option<bool>) -> (r:
    Result<Vec<String>, String>)
    ensures
        args_view(r) == checked(
            !blank(path@),
            export_line(path@, opt_entries(*categories), include_defaults),
        ),
{
    if is_blank(path) {
        return Err(missing_path());
    }
    let mut out = invocation("export");
    push_text(&mut out, path.clone());
    match categories {
        Some(list) => {
            let cats = split_list(list.as_str());
            push_category_pairs(&mut out, &cats);
        },
        None => {
            assert(category_pairs(Seq::empty()) =~= Seq::<Seq<char>>::empty());
            assert(texts(out@) + category_pairs(Seq::empty()) =~= texts(out@));
        },
    }
    push_flag(&mut out, include_defaults, "--include-defaults");
    assert(texts(out@) =~= export_line(path@, opt_entries(*categories), include_defaults));
    Ok(out)
}

/// The command line of an import, or the validation message when the path is
/// missing.
pub fn import_args(path: &String, dry_run: Option<bool>, skip_restore: Option<bool>) -> (r: Result<
    Vec<String>,
    String,
>)
    ensures
        args_view(r) == checked(!blank(path@), import_line(path@, dry_run, skip_restore)),
{
    if is_blank(path) {
        return Err(missing_path());
    }
    let mut out = invocation("import");
    push_text(&mut out, path.clone());
    push_flag(&mut out, dry_run, "--dry-run");
    push_flag(&mut out, skip_restore, "--skip-restore-point");
    assert(texts(out@) =~= import_line(path@, dry_run, skip_restore));
    Ok(out)
}

/// The command line of an inspection, always with JSON output, or the
/// validation message when the path is missing.
pub fn inspect_args(path: &String) -> (r: Result<Vec<String>, String>)
    ensures
        args_view(r) == checked(!blank(path@), inspect_line(path@)),
{
    if is_blank(path) {
        return Err(missing_path());
    }
    let mut out = invocation("inspect");
    push_text(&mut out, path.clone());
    push_token(&mut out, "-f");
    push_token(&mut out, "json");
    assert(texts(out@) =~= inspect_line(path@));
    Ok(out)
}

/// The command line of a comparison of two files, always with JSON output, or
/// the validation message when either path is missing.
pub fn diff_args(path_a: &String, path_b: &String, show_all: Option<bool>) -> (r: Result<
    Vec<String>,
    String,
>)
    ensures
        args_view(r) == checked(
            !blank(path_a@) && !blank(path_b@),
            diff_line(path_a@, path_b@, show_all),
        ),
{
    if is_blank(path_a) || is_blank(path_b) {
        return Err(missing_path());
    }
    let mut out = invocation("diff");
    push_text(&mut out, path_a.clone());
    push_text(&mut out, path_b.clone());
    push_token(&mut out, "-f");
    push_token(&mut out, "json");
    push_flag(&mut out, show_all, "--all");
    assert(texts(out@) =~= diff_line(path_a@, path_b@, show_all));
    Ok(out)
}

/// The command line of any request, or the validation message when a required
/// path is missing.
pub fn build_args(req: &Request) -> (r: Result<Vec<String>, String>)
    ensures
        args_view(r) == request_line(*req),
{
    match req {
        Request::Scan { categories, format, modified_only } => Ok(
            scan_args(categories, format, *modified_only),
        ),
        Request::Export { path, categories, include_defaults } => export_args(
            path,
            categories,
            *include_defaults,
        ),
        Request::Import { path, dry_run, skip_restore } => import_args(
            path,
            *dry_run,
            *skip_restore,
        ),
        Request::Inspect { path } => inspect_args(path),
        Request::Diff { path_a, path_b, show_all } => diff_args(path_a, path_b, *show_all),
    }
}

} // verus!
