use crate::command::opt_text;
use vstd::prelude::*;

verus! {

/// The environment variable whose value, when set and not empty, names the
/// interpreter that runs the tool.
pub const EXECUTABLE_VARIABLE: &'static str = "PYTHON";

/// The interpreter run when no override is given.
pub open spec fn default_executable() -> Seq<char> {
    "python"@
}

/// The override when it is present and not empty, the default otherwise.
pub open spec fn resolved_executable(override_value: Option<Seq<char>>) -> Seq<char> {
    match override_value {
        Some(name) => if name.len() > 0 {
            name
        } else {
            default_executable()
        },
        None => default_executable(),
    }
}

/// The executable to run, from the value of `EXECUTABLE_VARIABLE` if it is set.
pub fn resolve_executable(override_value: Option<String>) -> (r: String)
    ensures
        r@ == resolved_executable(opt_text(override_value)),
{
    match override_value {
        Some(name) => if name.as_str().is_empty() {
            "python".to_owned()
        } else {
            name
        },
        None => "python".to_owned(),
    }
}

/// The variables added to the child's inherited environment so that its text
/// input and output are UTF-8 whatever the host's locale.
pub open spec fn child_environment() -> Seq<(Seq<char>, Seq<char>)> {
    seq![("PYTHONUTF8"@, "1"@), ("PYTHONIOENCODING"@, "utf-8"@)]
}

pub open spec fn pair_texts(v: Seq<(String, String)>) -> Seq<(Seq<char>, Seq<char>)> {
    v.map_values(|p: (String, String)| (p.0@, p.1@))
}

/// The variables of `child_environment`, as name and value.
pub fn resolve_environment() -> (r: Vec<(String, String)>)
    ensures
        pair_texts(r@) == child_environment(),
{
    let mut env: Vec<(String, String)> = Vec::new();
    env.push(("PYTHONUTF8".to_owned(), "1".to_owned()));
    env.push(("PYTHONIOENCODING".to_owned(), "utf-8".to_owned()));
    assert(pair_texts(env@) =~= child_environment());
    env
}

} // verus!
