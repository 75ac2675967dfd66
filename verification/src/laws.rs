//! The table's plans, written out and proved: for every recognized flag, the
//! exact sub-invocations that `resolve` yields (its contract gives the plan as
//! `plan_groups` of the mapped tokens; these lemmas evaluate that expression),
//! and whether the flag demands a trailing user argument.

use vstd::prelude::*;
use crate::command_handler::chain_groups;
use crate::command_handler::chain_needs_arg;
use crate::command_handler::groups_state;
use crate::command_handler::plan_groups;
use crate::command_handler::requires_trailing;
use crate::command_handler::sep_token;
use crate::table::flag_mapping;

verus! {

proof fn lemma_chain_one(tok: Seq<char>)
    requires
        tok != sep_token(),
    ensures
        chain_groups(seq![tok]) == seq![seq![tok]],
{
    reveal_with_fuel(groups_state, 3);
    assert(seq![tok].drop_last() =~= Seq::<Seq<char>>::empty());
    assert(groups_state(seq![tok]).0 =~= Seq::<Seq<Seq<char>>>::empty());
    assert(groups_state(seq![tok]).1 =~= seq![tok]);
    assert(chain_groups(seq![tok]) =~= seq![seq![tok]]);
}

proof fn lemma_chain_two(a: Seq<char>, b: Seq<char>)
    requires
        a != sep_token(),
        b != sep_token(),
    ensures
        chain_groups(seq![a, b]) == seq![seq![a, b]],
{
    reveal_with_fuel(groups_state, 4);
    assert(seq![a, b].drop_last() =~= seq![a]);
    assert(seq![a].drop_last() =~= Seq::<Seq<char>>::empty());
    assert(groups_state(seq![a]).1 =~= seq![a]);
    assert(groups_state(seq![a, b]).0 =~= Seq::<Seq<Seq<char>>>::empty());
    assert(groups_state(seq![a, b]).1 =~= seq![a, b]);
    assert(chain_groups(seq![a, b]) =~= seq![seq![a, b]]);
}

proof fn lemma_chain_two_sep_two(a: Seq<char>, b: Seq<char>, c: Seq<char>, d: Seq<char>)
    requires
        a != sep_token(),
        b != sep_token(),
        c != sep_token(),
        d != sep_token(),
    ensures
        chain_groups(seq![a, b, sep_token(), c, d]) == seq![seq![a, b], seq![c, d]],
{
    reveal_with_fuel(groups_state, 7);
    let full = seq![a, b, sep_token(), c, d];
    assert(full.drop_last() =~= seq![a, b, sep_token(), c]);
    assert(seq![a, b, sep_token(), c].drop_last() =~= seq![a, b, sep_token()]);
    assert(seq![a, b, sep_token()].drop_last() =~= seq![a, b]);
    assert(seq![a, b].drop_last() =~= seq![a]);
    assert(seq![a].drop_last() =~= Seq::<Seq<char>>::empty());
    assert(groups_state(seq![a]).1 =~= seq![a]);
    assert(groups_state(seq![a, b]).1 =~= seq![a, b]);
    assert(groups_state(seq![a, b, sep_token()]).0 =~= seq![seq![a, b]]);
    assert(groups_state(seq![a, b, sep_token()]).1 =~= Seq::<Seq<char>>::empty());
    assert(groups_state(seq![a, b, sep_token(), c]).1 =~= seq![c]);
    assert(groups_state(full).0 =~= seq![seq![a, b]]);
    assert(groups_state(full).1 =~= seq![c, d]);
    assert(chain_groups(full) =~= seq![seq![a, b], seq![c, d]]);
}

proof fn reveal_subcommands()
    ensures
        !requires_trailing("upgrade"@),
        !requires_trailing("--all"@),
        !requires_trailing("source"@),
        !requires_trailing("update"@),
        !requires_trailing("list"@),
        requires_trailing("install"@),
        requires_trailing("search"@),
        requires_trailing("uninstall"@),
        requires_trailing("show"@),
        "upgrade"@ != sep_token(),
        "--all"@ != sep_token(),
        "source"@ != sep_token(),
        "update"@ != sep_token(),
        "list"@ != sep_token(),
        "install"@ != sep_token(),
        "search"@ != sep_token(),
        "uninstall"@ != sep_token(),
        "show"@ != sep_token(),
{
    reveal_strlit("upgrade");
    reveal_strlit("--all");
    reveal_strlit("source");
    reveal_strlit("update");
    reveal_strlit("list");
    reveal_strlit("install");
    reveal_strlit("search");
    reveal_strlit("uninstall");
    reveal_strlit("show");
    reveal_strlit("&&");
    assert("upgrade"@ =~= seq!['u', 'p', 'g', 'r', 'a', 'd', 'e']);
    assert("--all"@ =~= seq!['-', '-', 'a', 'l', 'l']);
    assert("source"@ =~= seq!['s', 'o', 'u', 'r', 'c', 'e']);
    assert("update"@ =~= seq!['u', 'p', 'd', 'a', 't', 'e']);
    assert("list"@ =~= seq!['l', 'i', 's', 't']);
    assert("install"@ =~= seq!['i', 'n', 's', 't', 'a', 'l', 'l']);
    assert("search"@ =~= seq!['s', 'e', 'a', 'r', 'c', 'h']);
    assert("uninstall"@ =~= seq!['u', 'n', 'i', 'n', 's', 't', 'a', 'l', 'l']);
    assert("show"@ =~= seq!['s', 'h', 'o', 'w']);
    assert("&&"@ =~= seq!['&', '&']);
}

proof fn reveal_flags()
    ensures
        flag_mapping("-Syu"@) == Some(seq!["upgrade"@, "--all"@]),
        flag_mapping("-Syyu"@) == Some(seq!["source"@, "update"@, "&&"@, "upgrade"@, "--all"@]),
        flag_mapping("-Sy"@) == Some(seq!["source"@, "update"@]),
        flag_mapping("-S"@) == Some(seq!["install"@]),
        flag_mapping("-Ss"@) == Some(seq!["search"@]),
        flag_mapping("-R"@) == Some(seq!["uninstall"@]),
        flag_mapping("-Rns"@) == Some(seq!["uninstall"@]),
        flag_mapping("-Q"@) == Some(seq!["list"@]),
        flag_mapping("-Qi"@) == Some(seq!["show"@]),
        flag_mapping("-Si"@) == Some(seq!["show"@]),
        flag_mapping("-Qs"@) == Some(seq!["list"@]),
{
    reveal_strlit("-Syu");
    reveal_strlit("-Syyu");
    reveal_strlit("-Sy");
    reveal_strlit("-S");
    reveal_strlit("-Ss");
    reveal_strlit("-R");
    reveal_strlit("-Rns");
    reveal_strlit("-Q");
    reveal_strlit("-Qi");
    reveal_strlit("-Si");
    reveal_strlit("-Qs");
    assert("-Syu"@ =~= seq!['-', 'S', 'y', 'u']);
    assert("-Syyu"@ =~= seq!['-', 'S', 'y', 'y', 'u']);
    assert("-Sy"@ =~= seq!['-', 'S', 'y']);
    assert("-S"@ =~= seq!['-', 'S']);
    assert("-Ss"@ =~= seq!['-', 'S', 's']);
    assert("-R"@ =~= seq!['-', 'R']);
    assert("-Rns"@ =~= seq!['-', 'R', 'n', 's']);
    assert("-Q"@ =~= seq!['-', 'Q']);
    assert("-Qi"@ =~= seq!['-', 'Q', 'i']);
    assert("-Si"@ =~= seq!['-', 'S', 'i']);
    assert("-Qs"@ =~= seq!['-', 'Q', 's']);
}

/// Expanding a chain of one sub-invocation whose leading token does not need
/// a trailing argument leaves the plan exactly as the table gives it.
proof fn lemma_plan_plain_one(tok: Seq<char>, trailing: Seq<Seq<char>>)
    requires
        tok != sep_token(),
        !requires_trailing(tok),
    ensures
        plan_groups(seq![tok], trailing) == seq![seq![tok]],
        !chain_needs_arg(seq![tok]),
{
    lemma_chain_one(tok);
    assert(plan_groups(seq![tok], trailing) =~= seq![seq![tok]]);
    assert(chain_groups(seq![tok])[0][0] == tok);
    assert(!chain_needs_arg(seq![tok]));
}

/// Expanding a chain of one sub-invocation whose leading token does need a
/// trailing argument appends exactly the trailing arguments.
proof fn lemma_plan_needy_one(tok: Seq<char>, trailing: Seq<Seq<char>>)
    requires
        tok != sep_token(),
        requires_trailing(tok),
    ensures
        plan_groups(seq![tok], trailing) == seq![seq![tok] + trailing],
        chain_needs_arg(seq![tok]),
{
    lemma_chain_one(tok);
    assert(plan_groups(seq![tok], trailing) =~= seq![seq![tok] + trailing]);
    assert(requires_trailing(chain_groups(seq![tok])[0][0]));
}

/// `-Syu` plans one sub-invocation, `upgrade --all`, never taking a trailing
/// argument.
pub proof fn lemma_plan_syu(trailing: Seq<Seq<char>>)
    ensures
        flag_mapping("-Syu"@) == Some(seq!["upgrade"@, "--all"@]),
        plan_groups(seq!["upgrade"@, "--all"@], trailing) == seq![seq!["upgrade"@, "--all"@]],
        !chain_needs_arg(seq!["upgrade"@, "--all"@]),
{
    reveal_flags();
    reveal_subcommands();
    lemma_chain_two("upgrade"@, "--all"@);
    assert(plan_groups(seq!["upgrade"@, "--all"@], trailing) =~= seq![seq!["upgrade"@, "--all"@]]);
    assert(chain_groups(seq!["upgrade"@, "--all"@])[0][0] == "upgrade"@);
    assert(!chain_needs_arg(seq!["upgrade"@, "--all"@]));
}

/// `-Syyu` plans exactly two sub-invocations in order: `source update`, then
/// `upgrade --all`; neither takes a trailing argument.
pub proof fn lemma_plan_syyu(trailing: Seq<Seq<char>>)
    ensures
        flag_mapping("-Syyu"@) == Some(seq!["source"@, "update"@, "&&"@, "upgrade"@, "--all"@]),
        plan_groups(seq!["source"@, "update"@, "&&"@, "upgrade"@, "--all"@], trailing) == seq![
            seq!["source"@, "update"@],
            seq!["upgrade"@, "--all"@],
        ],
        !chain_needs_arg(seq!["source"@, "update"@, "&&"@, "upgrade"@, "--all"@]),
{
    reveal_flags();
    reveal_subcommands();
    assert(seq!["source"@, "update"@, "&&"@, "upgrade"@, "--all"@] =~= seq![
        "source"@,
        "update"@,
        sep_token(),
        "upgrade"@,
        "--all"@,
    ]);
    lemma_chain_two_sep_two("source"@, "update"@, "upgrade"@, "--all"@);
    let tokens = seq!["source"@, "update"@, "&&"@, "upgrade"@, "--all"@];
    assert(plan_groups(tokens, trailing) =~= seq![
        seq!["source"@, "update"@],
        seq!["upgrade"@, "--all"@],
    ]);
    assert(chain_groups(tokens)[0][0] == "source"@);
    assert(chain_groups(tokens)[1][0] == "upgrade"@);
    assert(!chain_needs_arg(tokens));
}

/// `-Sy` plans one sub-invocation, `source update`, never taking a trailing
/// argument.
pub proof fn lemma_plan_sy(trailing: Seq<Seq<char>>)
    ensures
        flag_mapping("-Sy"@) == Some(seq!["source"@, "update"@]),
        plan_groups(seq!["source"@, "update"@], trailing) == seq![seq!["source"@, "update"@]],
        !chain_needs_arg(seq!["source"@, "update"@]),
{
    reveal_flags();
    reveal_subcommands();
    lemma_chain_two("source"@, "update"@);
    assert(plan_groups(seq!["source"@, "update"@], trailing) =~= seq![seq!["source"@, "update"@]]);
    assert(chain_groups(seq!["source"@, "update"@])[0][0] == "source"@);
    assert(!chain_needs_arg(seq!["source"@, "update"@]));
}

/// `-S` plans one sub-invocation, `install` followed by the trailing
/// arguments, and demands that a trailing argument be given.
pub proof fn lemma_plan_install(trailing: Seq<Seq<char>>)
    ensures
        flag_mapping("-S"@) == Some(seq!["install"@]),
        plan_groups(seq!["install"@], trailing) == seq![seq!["install"@] + trailing],
        chain_needs_arg(seq!["install"@]),
{
    reveal_flags();
    reveal_subcommands();
    lemma_plan_needy_one("install"@, trailing);
}

/// `-Ss` plans one sub-invocation, `search` followed by the trailing
/// arguments, and demands that a trailing argument be given.
pub proof fn lemma_plan_search(trailing: Seq<Seq<char>>)
    ensures
        flag_mapping("-Ss"@) == Some(seq!["search"@]),
        plan_groups(seq!["search"@], trailing) == seq![seq!["search"@] + trailing],
        chain_needs_arg(seq!["search"@]),
{
    reveal_flags();
    reveal_subcommands();
    lemma_plan_needy_one("search"@, trailing);
}

/// `-R` and `-Rns` both plan one sub-invocation, `uninstall` followed by the
/// trailing arguments, and demand that a trailing argument be given.
pub proof fn lemma_plan_uninstall(trailing: Seq<Seq<char>>)
    ensures
        flag_mapping("-R"@) == Some(seq!["uninstall"@]),
        flag_mapping("-Rns"@) == Some(seq!["uninstall"@]),
        plan_groups(seq!["uninstall"@], trailing) == seq![seq!["uninstall"@] + trailing],
        chain_needs_arg(seq!["uninstall"@]),
{
    reveal_flags();
    reveal_subcommands();
    lemma_plan_needy_one("uninstall"@, trailing);
}

/// `-Q` and `-Qs` both plan one sub-invocation, `list`, never taking a
/// trailing argument.
pub proof fn lemma_plan_list(trailing: Seq<Seq<char>>)
    ensures
        flag_mapping("-Q"@) == Some(seq!["list"@]),
        flag_mapping("-Qs"@) == Some(seq!["list"@]),
        plan_groups(seq!["list"@], trailing) == seq![seq!["list"@]],
        !chain_needs_arg(seq!["list"@]),
{
    reveal_flags();
    reveal_subcommands();
    lemma_plan_plain_one("list"@, trailing);
}

/// `-Qi` and `-Si` both plan one sub-invocation, `show` followed by the
/// trailing arguments, and demand that a trailing argument be given.
pub proof fn lemma_plan_show(trailing: Seq<Seq<char>>)
    ensures
        flag_mapping("-Qi"@) == Some(seq!["show"@]),
        flag_mapping("-Si"@) == Some(seq!["show"@]),
        plan_groups(seq!["show"@], trailing) == seq![seq!["show"@] + trailing],
        chain_needs_arg(seq!["show"@]),
{
    reveal_flags();
    reveal_subcommands();
    lemma_plan_needy_one("show"@, trailing);
}

} // verus!

