//! The dispatcher: it turns a recognized flag's target tokens, together with
//! the user's trailing arguments, into an ordered plan of sub-invocations, and
//! turns an unrecognized command line into a verbatim passthrough plan.

use vstd::prelude::*;
use vstd::string::StringExecFns;
use crate::error::RayError;
use crate::table::CommandMapping;
use crate::table::flag_mapping;
use crate::table::str_eq;

verus! {

/// The sentinel token that separates two chained sub-invocations.
pub open spec fn sep_token() -> Seq<char> {
    "&&"@
}

/// The target subcommands that must receive at least one trailing user
/// argument (a package name or search term).
pub open spec fn requires_trailing(tok: Seq<char>) -> bool {
    tok == "install"@ || tok == "search"@ || tok == "uninstall"@ || tok == "show"@
}

/// Whether a target subcommand must receive a trailing user argument.
pub fn requires_trailing_arg(token: &str) -> (r: bool)
    ensures
        r == requires_trailing(token@),
{
    str_eq(token, "install") || str_eq(token, "search") || str_eq(token, "uninstall") || str_eq(
        token,
        "show",
    )
}

/// Splitting a token sequence on the `"&&"` sentinel, one token at a time:
/// the completed groups so far, and the group still being collected. Empty
/// groups are dropped, as a shell drops an empty command between two `&&`.
pub open spec fn groups_state(tokens: Seq<Seq<char>>) -> (Seq<Seq<Seq<char>>>, Seq<Seq<char>>)
    decreases tokens.len(),
{
    if tokens.len() == 0 {
        (Seq::empty(), Seq::empty())
    } else {
        let prev = groups_state(tokens.drop_last());
        if tokens.last() == sep_token() {
            if prev.1.len() > 0 {
                (prev.0.push(prev.1), Seq::empty())
            } else {
                prev
            }
        } else {
            (prev.0, prev.1.push(tokens.last()))
        }
    }
}

/// The ordered, non-empty groups that a token sequence splits into on the
/// `"&&"` sentinel: one group per sub-invocation.
pub open spec fn chain_groups(tokens: Seq<Seq<char>>) -> Seq<Seq<Seq<char>>> {
    let state = groups_state(tokens);
    if state.1.len() > 0 {
        state.0.push(state.1)
    } else {
        state.0
    }
}

/// Every completed group holds at least one token.
pub proof fn lemma_groups_state_nonempty(tokens: Seq<Seq<char>>)
    ensures
        forall|i: int|
            0 <= i < groups_state(tokens).0.len() ==> #[trigger] groups_state(
                tokens,
            ).0[i].len() > 0,
    decreases tokens.len(),
{
    if tokens.len() > 0 {
        lemma_groups_state_nonempty(tokens.drop_last());
        let prev = groups_state(tokens.drop_last());
        if tokens.last() == sep_token() && prev.1.len() > 0 {
            assert forall|i: int| 0 <= i < groups_state(tokens).0.len() implies #[trigger] groups_state(
                tokens,
            ).0[i].len() > 0 by {
                if i < prev.0.len() {
                    assert(groups_state(tokens).0[i] == prev.0[i]);
                } else {
                    assert(groups_state(tokens).0[i] == prev.1);
                }
            }
        }
    }
}

/// Every group of a chain holds at least one token.
pub proof fn lemma_chain_groups_nonempty(tokens: Seq<Seq<char>>)
    ensures
        forall|i: int|
            0 <= i < chain_groups(tokens).len() ==> #[trigger] chain_groups(tokens)[i].len() > 0,
{
    lemma_groups_state_nonempty(tokens);
}

/// Whether some sub-invocation of the chain needs a trailing user argument.
pub open spec fn chain_needs_arg(tokens: Seq<Seq<char>>) -> bool {
    exists|i: int|
        0 <= i < chain_groups(tokens).len() && requires_trailing(
            #[trigger] chain_groups(tokens)[i][0],
        )
}

/// `i` points at the first sub-invocation of `groups` that needs a trailing
/// user argument.
pub open spec fn is_first_needy(groups: Seq<Seq<Seq<char>>>, i: int) -> bool {
    &&& 0 <= i < groups.len()
    &&& requires_trailing(groups[i][0])
    &&& forall|j: int| 0 <= j < i ==> !requires_trailing(#[trigger] groups[j][0])
}

/// The user's trailing arguments: everything after the flag token.
pub open spec fn trailing_of(args: Seq<Seq<char>>) -> Seq<Seq<char>> {
    if args.len() == 0 {
        Seq::empty()
    } else {
        args.skip(1)
    }
}

/// A sub-invocation with the trailing user arguments appended exactly when
/// its own leading token requires them.
pub open spec fn expand_group(group: Seq<Seq<char>>, trailing: Seq<Seq<char>>) -> Seq<Seq<char>> {
    if group.len() > 0 && requires_trailing(group[0]) {
        group + trailing
    } else {
        group
    }
}

/// The full plan for a recognized flag: each chained sub-invocation, expanded
/// with the trailing arguments where its leading token requires them.
pub open spec fn plan_groups(tokens: Seq<Seq<char>>, trailing: Seq<Seq<char>>) -> Seq<
    Seq<Seq<char>>,
> {
    chain_groups(tokens).map_values(|group: Seq<Seq<char>>| expand_group(group, trailing))
}

/// The message of the error raised when a subcommand needs a trailing
/// argument and none was given.
pub open spec fn needs_arg_message(tok: Seq<char>) -> Seq<char> {
    "The command '"@ + tok + "' requires a package name or search term."@
}

/// `m` is the message that names the first sub-invocation of `groups` needing
/// a trailing argument.
pub open spec fn names_first_needy(groups: Seq<Seq<Seq<char>>>, m: Seq<char>) -> bool {
    exists|i: int| #[trigger] is_first_needy(groups, i) && m == needs_arg_message(groups[i][0])
}

/// An ordered plan of child-process invocations: each element of `subs` is
/// the argument list of one run of `executable`.
#[derive(Debug)]
pub struct DispatchPlan {
    /// The name of the target executable, the same for every sub-invocation.
    pub executable: String,
    /// The argument lists of the sub-invocations, in the order they must run.
    pub subs: Vec<Vec<String>>,
}

fn clone_tokens(v: &Vec<String>) -> (r: Vec<String>)
    ensures
        r.deep_view() == v.deep_view(),
{
    let mut r: Vec<String> = Vec::new();
    proof {
        assert(r.deep_view() =~= v.deep_view().take(0));
    }
    let mut i: usize = 0;
    while i < v.len()
        invariant
            i <= v.len(),
            r.deep_view() == v.deep_view().take(i as int),
        decreases v.len() - i,
    {
        let ghost prev = r.deep_view();
        r.push(v[i].clone());
        i = i + 1;
        proof {
            assert(r.deep_view() =~= prev.push(v.deep_view()[i - 1]));
            assert(r.deep_view() =~= v.deep_view().take(i as int));
        }
    }
    proof {
        assert(v.deep_view().take(v.len() as int) =~= v.deep_view());
    }
    r
}

/// Expand a recognized flag's target tokens into the plan of sub-invocations:
/// split on the `"&&"` sentinel, and append the user's trailing arguments
/// (everything in `args` after the flag) to each sub-invocation whose leading
/// token requires them. Fails with `InvalidArguments` exactly when some
/// sub-invocation requires a trailing argument and none was given, naming the
/// first such sub-invocation.
pub fn run_commands(executable: &str, commands: &Vec<String>, args: &Vec<String>) -> (r: Result<
    DispatchPlan,
    RayError,
>)
    ensures
        ({
            let cmds = commands.deep_view();
            let trailing = trailing_of(args.deep_view());
            match r {
                Ok(plan) => {
                    &&& plan.executable@ == executable@
                    &&& plan.subs.deep_view() == plan_groups(cmds, trailing)
                    &&& !(chain_needs_arg(cmds) && trailing.len() == 0)
                },
                Err(e) => match e {
                    RayError::InvalidArguments(m) => {
                        &&& trailing.len() == 0
                        &&& chain_needs_arg(cmds)
                        &&& names_first_needy(chain_groups(cmds), m@)
                    },
                    _ => false,
                },
            }
        }),
{
    let ghost cmds = commands.deep_view();
    let mut done: Vec<Vec<String>> = Vec::new();
    let mut cur: Vec<String> = Vec::new();
    proof {
        assert(done.deep_view() =~= groups_state(cmds.take(0)).0);
        assert(cur.deep_view() =~= groups_state(cmds.take(0)).1);
    }
    let mut i: usize = 0;
    while i < commands.len()
        invariant
            i <= commands.len(),
            cmds == commands.deep_view(),
            done.deep_view() == groups_state(cmds.take(i as int)).0,
            cur.deep_view() == groups_state(cmds.take(i as int)).1,
        decreases commands.len() - i,
    {
        let tok = &commands[i];
        proof {
            assert(cmds.take(i as int + 1).drop_last() =~= cmds.take(i as int));
            assert(cmds.take(i as int + 1).last() == tok@);
        }
        if str_eq(tok.as_str(), "&&") {
            if cur.len() > 0 {
                let ghost prev_done = done.deep_view();
                let ghost prev_cur = cur.deep_view();
                done.push(cur);
                cur = Vec::new();
                proof {
                    assert(done.deep_view() =~= prev_done.push(prev_cur));
                    assert(cur.deep_view() =~= Seq::<Seq<char>>::empty());
                }
            }
        } else {
            let ghost prev_cur = cur.deep_view();
            cur.push(tok.clone());
            proof {
                assert(cur.deep_view() =~= prev_cur.push(tok@));
            }
        }
        i = i + 1;
    }
    proof {
        assert(cmds.take(commands.len() as int) =~= cmds);
    }
    let mut groups = done;
    if cur.len() > 0 {
        let ghost prev_groups = groups.deep_view();
        let ghost prev_cur = cur.deep_view();
        groups.push(cur);
        proof {
            assert(groups.deep_view() =~= prev_groups.push(prev_cur));
        }
    }
    let ghost gdv = chain_groups(cmds);
    assert(groups.deep_view() == gdv);
    proof {
        lemma_chain_groups_nonempty(cmds);
    }
    let ghost trailing = trailing_of(args.deep_view());
    proof {
        if args.len() <= 1 {
            assert(trailing =~= Seq::<Seq<char>>::empty());
        }
    }
    let mut subs: Vec<Vec<String>> = Vec::new();
    let mut k: usize = 0;
    while k < groups.len()
        invariant
            k <= groups.len(),
            cmds == commands.deep_view(),
            groups.deep_view() == gdv,
            gdv == chain_groups(cmds),
            trailing == trailing_of(args.deep_view()),
            args.deep_view().len() == args.len(),
            args.len() <= 1 ==> trailing.len() == 0,
            args.len() > 1 ==> trailing.len() > 0,
            forall|j: int| 0 <= j < gdv.len() ==> #[trigger] gdv[j].len() > 0,
            subs.deep_view().len() == k,
            forall|j: int|
                0 <= j < k ==> #[trigger] subs.deep_view()[j] == expand_group(gdv[j], trailing),
            forall|j: int|
                0 <= j < k ==> !(requires_trailing(#[trigger] gdv[j][0]) && trailing.len() == 0),
        decreases groups.len() - k,
    {
        let ghost gk = gdv[k as int];
        let group = &groups[k];
        proof {
            assert(group.deep_view() == gk);
            assert(group@.len() == gk.len());
        }
        let head = &group[0];
        proof {
            assert(head@ == gk[0]);
        }
        if requires_trailing_arg(head.as_str()) {
            if args.len() <= 1 {
                let msg = String::from_str("The command '").concat(head.as_str()).concat(
                    "' requires a package name or search term.",
                );
                proof {
                    assert(is_first_needy(chain_groups(cmds), k as int));
                    assert(requires_trailing(chain_groups(cmds)[k as int][0]));
                    assert(chain_needs_arg(cmds));
                    assert(msg@ == needs_arg_message(chain_groups(cmds)[k as int][0]));
                    assert(names_first_needy(chain_groups(cmds), msg@));
                }
                return Err(RayError::InvalidArguments(msg));
            }
            let mut expanded = clone_tokens(group);
            proof {
                assert(expanded.deep_view() =~= gk + args.deep_view().subrange(1, 1));
            }
            let mut t: usize = 1;
            while t < args.len()
                invariant
                    1 <= t <= args.len(),
                    args.deep_view().len() == args.len(),
                    expanded.deep_view() == gk + args.deep_view().subrange(1, t as int),
                decreases args.len() - t,
            {
                let ghost prev = expanded.deep_view();
                expanded.push(args[t].clone());
                t = t + 1;
                proof {
                    assert(expanded.deep_view() =~= prev.push(args.deep_view()[t - 1]));
                    assert(args.deep_view().subrange(1, t as int) =~= args.deep_view().subrange(
                        1,
                        t as int - 1,
                    ).push(args.deep_view()[t - 1]));
                    assert(expanded.deep_view() =~= gk + args.deep_view().subrange(1, t as int));
                }
            }
            proof {
                assert(args.deep_view().subrange(1, args.len() as int) == trailing);
                assert(expanded.deep_view() == expand_group(gk, trailing));
            }
            let ghost prev_subs = subs.deep_view();
            subs.push(expanded);
            proof {
                assert(subs.deep_view() =~= prev_subs.push(expand_group(gk, trailing)));
            }
        } else {
            let copied = clone_tokens(group);
            proof {
                assert(copied.deep_view() == expand_group(gk, trailing));
            }
            let ghost prev_subs = subs.deep_view();
            subs.push(copied);
            proof {
                assert(subs.deep_view() =~= prev_subs.push(expand_group(gk, trailing)));
            }
        }
        k = k + 1;
    }
    proof {
        assert(subs.deep_view() =~= plan_groups(cmds, trailing));
    }
    let plan = DispatchPlan { executable: executable.to_owned(), subs };
    Ok(plan)
}

/// Turn the whole argument vector into an execution plan. The empty vector is
/// a usage error; a recognized leading flag is expanded through the command
/// table, failing with `InvalidArguments` when a required trailing argument
/// is missing; any other leading token makes a single passthrough
/// sub-invocation that hands all arguments to winget unchanged.
pub fn resolve(args: &Vec<String>) -> (r: Result<DispatchPlan, RayError>)
    ensures
        ({
            let a = args.deep_view();
            match r {
                Ok(plan) => {
                    &&& a.len() > 0
                    &&& plan.executable@ == "winget"@
                    &&& match flag_mapping(a[0]) {
                        Some(tokens) => {
                            &&& plan.subs.deep_view() == plan_groups(tokens, a.skip(1))
                            &&& !(chain_needs_arg(tokens) && a.len() == 1)
                        },
                        None => plan.subs.deep_view() == seq![a],
                    }
                },
                Err(e) => match e {
                    RayError::UsageError => a.len() == 0,
                    RayError::InvalidArguments(m) => {
                        &&& a.len() == 1
                        &&& flag_mapping(a[0]) is Some
                        &&& chain_needs_arg(flag_mapping(a[0])->0)
                        &&& names_first_needy(chain_groups(flag_mapping(a[0])->0), m@)
                    },
                    _ => false,
                },
            }
        }),
{
    if args.len() == 0 {
        return Err(RayError::UsageError);
    }
    let mapping = CommandMapping;
    let flag = &args[0];
    proof {
        assert(flag@ == args.deep_view()[0]);
    }
    match mapping.get(flag.as_str()) {
        Some(tokens) => {
            let r = run_commands("winget", &tokens, args);
            proof {
                assert(args.deep_view().skip(1) =~= trailing_of(args.deep_view()));
                if args.len() == 1 {
                    assert(trailing_of(args.deep_view()) =~= Seq::<Seq<char>>::empty());
                } else {
                    assert(trailing_of(args.deep_view()).len() == args.deep_view().len() - 1);
                }
            }
            r
        },
        None => {
            let subs_first = clone_tokens(args);
            let mut subs: Vec<Vec<String>> = Vec::new();
            subs.push(subs_first);
            proof {
                assert(subs.deep_view() =~= seq![args.deep_view()]);
            }
            Ok(DispatchPlan { executable: String::from_str("winget"), subs })
        },
    }
}

/// Whether the command line asks for the usage text: no arguments at all, or
/// `-h` or `--help` anywhere among them.
pub open spec fn spec_wants_help(args: Seq<Seq<char>>) -> bool {
    args.len() == 0 || exists|i: int|
        0 <= i < args.len() && ((#[trigger] args[i]) == "-h"@ || args[i] == "--help"@)
}

/// Decide whether the command line asks for the usage text.
pub fn wants_help(args: &Vec<String>) -> (r: bool)
    ensures
        r == spec_wants_help(args.deep_view()),
{
    if args.len() == 0 {
        return true;
    }
    let mut i: usize = 0;
    while i < args.len()
        invariant
            i <= args.len(),
            forall|j: int|
                0 <= j < i ==> !((#[trigger] args.deep_view()[j]) == "-h"@
                    || args.deep_view()[j] == "--help"@),
        decreases args.len() - i,
    {
        let arg = &args[i];
        if str_eq(arg.as_str(), "-h") || str_eq(arg.as_str(), "--help") {
            proof {
                assert(args.deep_view()[i as int] == arg@);
            }
            return true;
        }
        i = i + 1;
    }
    false
}

} // verus!
