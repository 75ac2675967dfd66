//! The command table: a fixed mapping from pacman-style flag tokens to the
//! argument tokens of the target tool, winget.

use vstd::prelude::*;
use vstd::string::StringExecFns;

verus! {

/// The authoritative table. A recognized flag maps to its ordered target
/// tokens; the sentinel `"&&"` separates two sub-invocations that must run in
/// sequence. Every other flag maps to `None` and is passed through verbatim.
pub open spec fn flag_mapping(flag: Seq<char>) -> Option<Seq<Seq<char>>> {
    if flag == "-Syu"@ {
        Some(seq!["upgrade"@, "--all"@])
    } else if flag == "-Syyu"@ {
        Some(seq!["source"@, "update"@, "&&"@, "upgrade"@, "--all"@])
    } else if flag == "-Sy"@ {
        Some(seq!["source"@, "update"@])
    } else if flag == "-S"@ {
        Some(seq!["install"@])
    } else if flag == "-Ss"@ {
        Some(seq!["search"@])
    } else if flag == "-R"@ {
        Some(seq!["uninstall"@])
    } else if flag == "-Rns"@ {
        Some(seq!["uninstall"@])
    } else if flag == "-Q"@ {
        Some(seq!["list"@])
    } else if flag == "-Qi"@ {
        Some(seq!["show"@])
    } else if flag == "-Si"@ {
        Some(seq!["show"@])
    } else if flag == "-Qs"@ {
        Some(seq!["list"@])
    } else {
        None
    }
}

/// Whether two string slices hold the same characters.
pub fn str_eq(a: &str, b: &str) -> (r: bool)
    ensures
        r == (a@ == b@),
{
    let owned_a = a.to_owned();
    let owned_b = b.to_owned();
    owned_a == owned_b
}

fn tokens1(a: &str) -> (r: Vec<String>)
    ensures
        r.deep_view() == seq![a@],
{
    let mut v: Vec<String> = Vec::new();
    v.push(a.to_owned());
    proof {
        assert(v.deep_view() =~= seq![a@]);
    }
    v
}

fn tokens2(a: &str, b: &str) -> (r: Vec<String>)
    ensures
        r.deep_view() == seq![a@, b@],
{
    let mut v: Vec<String> = Vec::new();
    v.push(a.to_owned());
    v.push(b.to_owned());
    proof {
        assert(v.deep_view() =~= seq![a@, b@]);
    }
    v
}

fn tokens5(a: &str, b: &str, c: &str, d: &str, e: &str) -> (r: Vec<String>)
    ensures
        r.deep_view() == seq![a@, b@, c@, d@, e@],
{
    let mut v: Vec<String> = Vec::new();
    v.push(a.to_owned());
    v.push(b.to_owned());
    v.push(c.to_owned());
    v.push(d.to_owned());
    v.push(e.to_owned());
    proof {
        assert(v.deep_view() =~= seq![a@, b@, c@, d@, e@]);
    }
    v
}

/// The command table as a value. The table is fixed, so the value carries no
/// data; looking a flag up answers exactly as `flag_mapping` says.
pub struct CommandMapping;

impl CommandMapping {
    /// Look a flag token up: `Some` with the target tokens for every
    /// recognized flag, `None` for all others.
    pub fn get(&self, token: &str) -> (r: Option<Vec<String>>)
        ensures
            match r {
                Some(v) => flag_mapping(token@) == Some(v.deep_view()),
                None => flag_mapping(token@) is None,
            },
    {
        if str_eq(token, "-Syu") {
            Some(tokens2("upgrade", "--all"))
        } else if str_eq(token, "-Syyu") {
            Some(tokens5("source", "update", "&&", "upgrade", "--all"))
        } else if str_eq(token, "-Sy") {
            Some(tokens2("source", "update"))
        } else if str_eq(token, "-S") {
            Some(tokens1("install"))
        } else if str_eq(token, "-Ss") {
            Some(tokens1("search"))
        } else if str_eq(token, "-R") {
            Some(tokens1("uninstall"))
        } else if str_eq(token, "-Rns") {
            Some(tokens1("uninstall"))
        } else if str_eq(token, "-Q") {
            Some(tokens1("list"))
        } else if str_eq(token, "-Qi") {
            Some(tokens1("show"))
        } else if str_eq(token, "-Si") {
            Some(tokens1("show"))
        } else if str_eq(token, "-Qs") {
            Some(tokens1("list"))
        } else {
            None
        }
    }
}

/// The usage text shown for `-h`, `--help` or an empty command line.
pub open spec fn help_text() -> Seq<char> {
    "Usage: ray [options] [package]\n\
        Options:\n\
        -Syu       Upgrade all packages\n\
        -Syyu      Update sources and upgrade all packages\n\
        -Sy        Update sources\n\
        -S         Install package\n\
        -Ss        Search for package\n\
        -R         Uninstall package\n\
        -Rns       Uninstall package and dependencies\n\
        -Q         List installed packages\n\
        -Qi        Show package details\n\
        -Si        Show package details from remote\n\
        -Qs        List installed packages matching search term\n\
        -h, --help  Show this help message\n"@
}

/// The Windows package manager, the target tool behind this shim.
pub struct Winget;

impl Winget {
    /// The table from pacman-style flags to winget tokens.
    pub fn get_command_mapping(&self) -> CommandMapping {
        CommandMapping
    }

    /// The usage text for this wrapper.
    pub fn get_help_message(&self) -> (r: &str)
        ensures
            r@ == help_text(),
    {
        "Usage: ray [options] [package]\n\
        Options:\n\
        -Syu       Upgrade all packages\n\
        -Syyu      Update sources and upgrade all packages\n\
        -Sy        Update sources\n\
        -S         Install package\n\
        -Ss        Search for package\n\
        -R         Uninstall package\n\
        -Rns       Uninstall package and dependencies\n\
        -Q         List installed packages\n\
        -Qi        Show package details\n\
        -Si        Show package details from remote\n\
        -Qs        List installed packages matching search term\n\
        -h, --help  Show this help message\n"
    }

    /// The name of the executable that every sub-invocation runs.
    pub fn get_executable_name(&self) -> (r: &str)
        ensures
            r@ == "winget"@,
    {
        "winget"
    }
}

} // verus!
