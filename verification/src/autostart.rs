use crate::text;
use vstd::prelude::*;
use vstd::string::*;

verus! {

/// Where the system keeps what it starts for the user.
pub const RUN_KEY: &'static str = "HKCU\\Software\\Microsoft\\Windows\\CurrentVersion\\Run";

/// The application's entry there.
pub const RUN_VALUE: &'static str = "ClipLink";

/// Starts the application without its window.
pub const ARG_MINIMIZED: &'static str = "--minimized";

/// The command line that the entry holds: the program in quotes, started without its window.
pub open spec fn entry(exe: Seq<char>) -> Seq<char> {
    seq!['"'] + exe + seq!['"', ' '] + ARG_MINIMIZED@
}

pub fn enable_data(exe: &str) -> (r: String)
    ensures
        r@ == entry(exe@),
{
    let mut s = String::new();
    s.push('"');
    s.append(exe);
    s.push('"');
    s.push(' ');
    s.append(ARG_MINIMIZED);
    assert(s@ =~= entry(exe@));
    s
}

/// The arguments for the system's registry tool that make or remove the entry. Making it replaces
/// one that is there.
pub open spec fn registry_args(enabled: bool, exe: Seq<char>) -> Seq<Seq<char>> {
    if enabled {
        seq!["add"@, RUN_KEY@, "/v"@, RUN_VALUE@, "/t"@, "REG_SZ"@, "/d"@, entry(exe), "/f"@]
    } else {
        seq!["delete"@, RUN_KEY@, "/v"@, RUN_VALUE@, "/f"@]
    }
}

/// The views of a list of texts.
pub open spec fn texts(v: Seq<String>) -> Seq<Seq<char>> {
    v.map_values(|s: String| s@)
}

pub fn reg_command(enabled: bool, exe: &str) -> (r: Vec<String>)
    ensures
        texts(r@) == registry_args(enabled, exe@),
{
    let mut args: Vec<String> = Vec::new();
    if enabled {
        args.push("add".to_string());
    } else {
        args.push("delete".to_string());
    }
    args.push(RUN_KEY.to_string());
    args.push("/v".to_string());
    args.push(RUN_VALUE.to_string());
    if enabled {
        args.push("/t".to_string());
        args.push("REG_SZ".to_string());
        args.push("/d".to_string());
        args.push(enable_data(exe));
    }
    args.push("/f".to_string());
    assert(texts(args@) =~= registry_args(enabled, exe@));
    args
}

/// The arguments for the system's registry tool that ask whether the entry is there.
pub fn query_command() -> (r: Vec<String>)
    ensures
        texts(r@) == seq!["query"@, RUN_KEY@, "/v"@, RUN_VALUE@],
{
    let mut args: Vec<String> = Vec::new();
    args.push("query".to_string());
    args.push(RUN_KEY.to_string());
    args.push("/v".to_string());
    args.push(RUN_VALUE.to_string());
    assert(texts(args@) =~= seq!["query"@, RUN_KEY@, "/v"@, RUN_VALUE@]);
    args
}

/// Whether removing the entry has nothing to do: one that is not there counts as removed.
pub fn disable_is_noop(exists: bool) -> (r: bool)
    ensures
        r == !exists,
{
    !exists
}

/// What to run to have the application start with the system, or not: nothing where there is no
/// entry to remove.
pub fn plan(enabled: bool, exists: bool, exe: &str) -> (r: Option<Vec<String>>)
    ensures
        match r {
            Some(args) => (enabled || exists) && texts(args@) == registry_args(enabled, exe@),
            None => !enabled && !exists,
        },
{
    if disable_is_noop(exists) && !enabled {
        None
    } else {
        Some(reg_command(enabled, exe))
    }
}

/// What the registry tool said where it failed: its error output, or its output where there is
/// none.
pub open spec fn complaint(stdout: Seq<char>, stderr: Seq<char>) -> Seq<char> {
    "reg.exe 退出码非零: "@ + if text::blank(stderr) {
        text::trimmed(stdout)
    } else {
        text::trimmed(stderr)
    }
}

/// What came of running the registry tool.
pub fn apply(success: bool, stdout: &str, stderr: &str) -> (r: Result<(), String>)
    ensures
        match r {
            Ok(()) => success,
            Err(m) => !success && m@ == complaint(stdout@, stderr@),
        },
{
    if success {
        return Ok(());
    }
    proof {
        text::trimmed_visible(stderr@);
    }
    let err = text::trim(stderr);
    let mut m = "reg.exe 退出码非零: ".to_string();
    if err.as_str().is_empty() {
        m.append(text::trim(stdout).as_str());
    } else {
        m.append(err.as_str());
    }
    Err(m)
}

/// The entry is always for the program as it is called now, wherever it was before: two programs
/// at different places have different entries.
pub proof fn entry_names_the_program(exe: Seq<char>, other: Seq<char>)
    requires
        entry(exe) == entry(other),
    ensures
        exe == other,
{
    assert(entry(exe).len() == exe.len() + 3 + ARG_MINIMIZED@.len());
    assert(entry(other).len() == other.len() + 3 + ARG_MINIMIZED@.len());
    assert(entry(exe).subrange(1, 1 + exe.len() as int) =~= exe);
    assert(entry(other).subrange(1, 1 + other.len() as int) =~= other);
}

/// The entry is the program in quotes, a space, and the word that hides the window.
pub proof fn entry_word_by_word(exe: Seq<char>)
    ensures
        entry(exe) == "\""@ + exe + "\" --minimized"@,
{
    reveal_strlit("\"");
    reveal_strlit("\" --minimized");
    reveal_strlit("--minimized");
    assert(entry(exe) =~= "\""@ + exe + "\" --minimized"@);
}

/// The registry tool is told to add or to delete the value named ClipLink of the user's Run key,
/// without being asked back; only adding hands over a text, which is the entry.
pub proof fn what_the_registry_tool_is_told(exe: Seq<char>)
    ensures
        registry_args(true, exe).len() == 9,
        registry_args(true, exe)[0] == "add"@,
        registry_args(true, exe)[4] == "/t"@,
        registry_args(true, exe)[5] == "REG_SZ"@,
        registry_args(true, exe)[6] == "/d"@,
        registry_args(true, exe)[7] == entry(exe),
        registry_args(true, exe)[8] == "/f"@,
        registry_args(false, exe).len() == 5,
        registry_args(false, exe)[0] == "delete"@,
        registry_args(false, exe)[4] == "/f"@,
        forall|enabled: bool| {
            &&& #[trigger] registry_args(enabled, exe)[1]
                == "HKCU\\Software\\Microsoft\\Windows\\CurrentVersion\\Run"@
            &&& registry_args(enabled, exe)[2] == "/v"@
            &&& registry_args(enabled, exe)[3] == "ClipLink"@
        },
{
}

/// What is said of a failure ends with what the tool said itself, its error output before its
/// output, without white space around it.
pub proof fn complaint_ends_with_the_tools_own(stdout: Seq<char>, stderr: Seq<char>)
    ensures
        !text::blank(stderr) ==> complaint(stdout, stderr) == "reg.exe 退出码非零: "@ + text::trimmed(
            stderr,
        ),
        text::blank(stderr) ==> complaint(stdout, stderr) == "reg.exe 退出码非零: "@ + text::trimmed(
            stdout,
        ),
{
}

/// Texts are shown one by one and in their order.
pub proof fn texts_one_by_one(v: Seq<String>, i: int)
    requires
        0 <= i < v.len(),
    ensures
        texts(v).len() == v.len(),
        texts(v)[i] == v[i]@,
{
}

} // verus!
