//! Laws on adding a worktree and on upstreams.

use vstd::prelude::*;

use crate::add;
use crate::command;
use crate::laws::replies;
use crate::laws::tracking as tracking_laws;
use crate::session::{Outcome, Stage};
use crate::text;
use crate::tracking;

verus! {

// ---- the worktree ----

/// Without a tracking branch the first command adds the worktree at the path, for a
/// new branch with `-b` and for an existing one without; an error of git ends it.
pub proof fn law_add_begins_with_the_worktree(
    repo: Seq<char>,
    path: Seq<char>,
    branch_name: Seq<char>,
    replies: Seq<Outcome>,
)
    ensures
        add::add_worktree_stage(repo, path, branch_name, true, None, Seq::empty()) == Stage::<
            (),
        >::Run(
            replies::on_clone(
                repo,
                seq!["worktree"@, "add"@, "-b"@, branch_name, command::git_path(path)],
            ),
        ),
        add::add_worktree_stage(repo, path, branch_name, false, None, Seq::empty()) == Stage::<
            (),
        >::Run(
            replies::on_clone(
                repo,
                seq!["worktree"@, "add"@, command::git_path(path), branch_name],
            ),
        ),
        forall|create_branch: bool|
            replies.len() > 0 && !replies::went_well(replies[0])
                ==> #[trigger] add::add_worktree_stage(
                repo,
                path,
                branch_name,
                create_branch,
                None,
                replies,
            ) == Stage::<()>::Failed(
                "Failed to add worktree: "@ + replies::complaint(replies[0]),
            ),
{
}

/// Once git has added the worktree, and no tracking branch was given, all that is
/// left is the default upstream of the branch.
pub proof fn law_add_goes_on_with_the_default_upstream(
    repo: Seq<char>,
    path: Seq<char>,
    branch_name: Seq<char>,
    create_branch: bool,
    replies: Seq<Outcome>,
)
    requires
        replies.len() > 0,
        replies::went_well(replies[0]),
    ensures
        add::add_worktree_stage(repo, path, branch_name, create_branch, None, replies)
            == add::maybe_set_default_upstream_stage(repo, branch_name, replies.skip(1)),
{
}

/// The default upstream, reply by reply: is `branch.autoSetupMerge` set to `false`,
/// does `origin` have the branch, has the branch an upstream; only then is
/// `origin/<branch>` set, and what becomes of that does not matter.
pub proof fn law_default_upstream_steps(
    repo: Seq<char>,
    branch_name: Seq<char>,
    replies: Seq<Outcome>,
)
    ensures
        ({
            let stage = add::maybe_set_default_upstream_stage(repo, branch_name, replies);
            let n = replies.len();
            let off = replies::went_well(replies[0]) && text::equal_ignoring_case(
                text::trim(replies::written(replies[0])),
                "false"@,
            );
            let on_origin = replies::went_well(replies[1]);
            let has_one = replies::went_well(replies[2]);
            let done = Stage::<()>::Done(());
            &&& n == 0 ==> stage == Stage::<()>::Run(
                replies::on_clone(repo, seq!["config"@, "--get"@, "branch.autoSetupMerge"@]),
            )
            &&& n >= 1 && off ==> stage == done
            &&& n == 1 && !off ==> stage == Stage::<()>::Run(
                replies::on_clone(
                    repo,
                    seq!["rev-parse"@, "--verify"@, "refs/remotes/origin/"@ + branch_name],
                ),
            )
            &&& n >= 2 && !off && !on_origin ==> stage == done
            &&& n == 2 && !off && on_origin ==> stage == Stage::<()>::Run(
                replies::on_clone(
                    repo,
                    seq![
                        "rev-parse"@,
                        "--abbrev-ref"@,
                        "--symbolic-full-name"@,
                        branch_name + "@{u}"@,
                    ],
                ),
            )
            &&& n >= 3 && !off && on_origin && has_one ==> stage == done
            &&& n == 3 && !off && on_origin && !has_one ==> stage == Stage::<()>::Run(
                replies::on_clone(
                    repo,
                    seq!["branch"@, "--set-upstream-to"@, "origin/"@ + branch_name, branch_name],
                ),
            )
            &&& n >= 4 ==> stage == done
        }),
{
}

/// The two questions about upstreams, asked on their own.
pub proof fn law_upstream_questions(
    repo: Seq<char>,
    branch_name: Seq<char>,
    replies: Seq<Outcome>,
)
    ensures
        replies.len() == 0 ==> add::auto_setup_merge_disabled_stage(repo, replies) == Stage::<
            bool,
        >::Run(replies::on_clone(repo, seq!["config"@, "--get"@, "branch.autoSetupMerge"@])),
        replies.len() > 0 ==> add::auto_setup_merge_disabled_stage(repo, replies) == Stage::Done(
            replies::went_well(replies[0]) && text::equal_ignoring_case(
                text::trim(replies::written(replies[0])),
                "false"@,
            ),
        ),
        replies.len() == 0 ==> add::branch_has_upstream_stage(repo, branch_name, replies)
            == Stage::<bool>::Run(
            replies::on_clone(
                repo,
                seq![
                    "rev-parse"@,
                    "--abbrev-ref"@,
                    "--symbolic-full-name"@,
                    branch_name + "@{u}"@,
                ],
            ),
        ),
        replies.len() > 0 ==> add::branch_has_upstream_stage(repo, branch_name, replies)
            == Stage::Done(replies::went_well(replies[0])),
{
}

// ---- the tracking branch ----

/// The message for a tracking branch that is not valid, which adding a worktree fails
/// with before it runs anything.
pub proof fn law_invalid_tracking_branch_is_named(
    repo: Seq<char>,
    path: Seq<char>,
    branch_name: Seq<char>,
    create_branch: bool,
    reference: Seq<char>,
    replies: Seq<Outcome>,
)
    requires
        tracking::tracking_name(reference) is None,
    ensures
        add::add_worktree_stage(repo, path, branch_name, create_branch, Some(reference), replies)
            == Stage::<()>::Failed(
            "Invalid tracking branch '"@ + reference
                + "'. Use '<remote>/<branch>' or 'refs/remotes/<remote>/<branch>'."@,
        ),
{
}

/// As long as it is not known whether the tracking branch exists, adding a worktree
/// does nothing but find that out, under the tracking branch's normalised name.
pub proof fn law_tracking_branch_is_looked_for_first(
    repo: Seq<char>,
    path: Seq<char>,
    branch_name: Seq<char>,
    create_branch: bool,
    reference: Seq<char>,
    replies: Seq<Outcome>,
)
    requires
        tracking::tracking_name(reference) is Some,
    ensures
        ({
            let name = tracking::tracking_name(reference)->0;
            let stage = add::add_worktree_stage(
                repo,
                path,
                branch_name,
                create_branch,
                Some(reference),
                replies,
            );
            match add::ensure_tracking_reference_stage(repo, name, replies) {
                Stage::Run(invocation) => stage == Stage::<()>::Run(invocation),
                Stage::ReadTimes(_) => false,
                Stage::Failed(error) => stage == Stage::<()>::Failed(error),
                Stage::Done(n) => true,
            }
        }),
{
}

/// Finding a tracking reference, reply by reply: under its given name, under its full
/// name, by a fetch of that one branch from its remote, and again under both names.
pub proof fn law_tracking_reference_steps(
    repo: Seq<char>,
    track_ref: Seq<char>,
    replies: Seq<Outcome>,
)
    ensures
        ({
            let stage = add::ensure_tracking_reference_stage(repo, track_ref, replies);
            let n = replies.len();
            let given = Stage::<usize>::Run(
                replies::on_clone(repo, seq!["rev-parse"@, "--verify"@, track_ref]),
            );
            &&& n == 0 ==> stage == given
            &&& n >= 1 && replies::went_well(replies[0]) ==> stage == Stage::<usize>::Done(1)
            &&& n >= 1 && !replies::went_well(replies[0]) ==> match tracking::remote_and_branch(
                track_ref,
            ) {
                None => stage == Stage::<usize>::Failed(
                    "Tracking reference '"@ + track_ref
                        + "' does not exist. Use a valid remote-tracking branch like 'origin/main'."@,
                ),
                Some((remote, branch)) => {
                    let full_name = "refs/remotes/"@ + remote + "/"@ + branch;
                    let full = Stage::<usize>::Run(
                        replies::on_clone(repo, seq!["rev-parse"@, "--verify"@, full_name]),
                    );
                    &&& n == 1 ==> stage == full
                    &&& n >= 2 && replies::went_well(replies[1]) ==> stage == Stage::<usize>::Done(
                        2,
                    )
                    &&& n >= 2 && !replies::went_well(replies[1]) ==> {
                        &&& n == 2 ==> stage == Stage::<usize>::Run(
                            replies::on_clone(
                                repo,
                                seq!["fetch"@, remote, branch + ":"@ + full_name],
                            ),
                        )
                        &&& n >= 3 && !replies::went_well(replies[2]) ==> stage == Stage::<
                            usize,
                        >::Failed(
                            "Failed to fetch tracking branch '"@ + track_ref + "': "@
                                + replies::complaint(replies[2]),
                        )
                        &&& n == 3 && replies::went_well(replies[2]) ==> stage == given
                        &&& n >= 4 && replies::went_well(replies[2]) && replies::went_well(
                            replies[3],
                        ) ==> stage == Stage::<usize>::Done(4)
                        &&& n == 4 && replies::went_well(replies[2]) && !replies::went_well(
                            replies[3],
                        ) ==> stage == full
                        &&& n >= 5 && replies::went_well(replies[2]) && !replies::went_well(
                            replies[3],
                        ) ==> stage == (if replies::went_well(replies[4]) {
                            Stage::<usize>::Done(5)
                        } else {
                            Stage::<usize>::Failed(
                                "Tracking reference '"@ + track_ref
                                    + "' is still unavailable after fetching from remote '"@
                                    + remote + "'."@,
                            )
                        })
                    }
                },
            }
        }),
{
}

/// The upstream for a normalised tracking branch: the very name.  Only where a remote
/// is called `refs` can a name look like a full reference, which is then shortened.
pub open spec fn upstream_of(name: Seq<char>) -> Seq<char> {
    if text::starts_with(name, "refs/remotes/"@) && tracking::remote_and_branch(name) is Some {
        text::without_prefix(name, "refs/remotes/"@)
    } else {
        name
    }
}

proof fn lemma_upstream_of(name: Seq<char>)
    ensures
        tracking::upstream_name(name) == upstream_of(name),
{
    tracking_laws::law_reference_is_its_remote_and_branch(name);
    if let Some((remote, branch)) = tracking::remote_and_branch(name) {
        let short = remote + "/"@ + branch;
        text::lemma_prefix("refs/remotes/"@, short);
        if text::starts_with(name, "refs/remotes/"@) && name == short {
            reveal_strlit("refs/");
            reveal_strlit("refs/remotes/");
            assert(name.take(5) =~= name.take(13).take(5));
            assert(name.take(5) =~= "refs/"@);
        }
    }
}

/// Once the tracking branch is known to exist, after `n` replies, the worktree is
/// added, for a new branch with the tracking branch as its start.  Then the branch
/// gets the tracking branch, with the remote that was given, as its upstream, and
/// both commands have to go well.
pub proof fn law_upstream_is_the_tracking_branch(
    repo: Seq<char>,
    path: Seq<char>,
    branch_name: Seq<char>,
    create_branch: bool,
    reference: Seq<char>,
    n: usize,
    replies: Seq<Outcome>,
)
    requires
        tracking::tracking_name(reference) is Some,
        add::ensure_tracking_reference_stage(
            repo,
            tracking::tracking_name(reference)->0,
            replies,
        ) == Stage::<usize>::Done(n),
    ensures
        ({
            let name = tracking::tracking_name(reference)->0;
            let stage = add::add_worktree_stage(
                repo,
                path,
                branch_name,
                create_branch,
                Some(reference),
                replies,
            );
            let added = replies::went_well(replies[n as int]);
            let set = replies::went_well(replies[n + 1]);
            &&& n <= replies.len()
            &&& replies.len() == n && create_branch ==> stage == Stage::<()>::Run(
                replies::on_clone(
                    repo,
                    seq![
                        "worktree"@,
                        "add"@,
                        "-b"@,
                        branch_name,
                        "--track"@,
                        command::git_path(path),
                        name,
                    ],
                ),
            )
            &&& replies.len() == n && !create_branch ==> stage == Stage::<()>::Run(
                replies::on_clone(
                    repo,
                    seq!["worktree"@, "add"@, command::git_path(path), branch_name],
                ),
            )
            &&& replies.len() > n && !added ==> stage == Stage::<()>::Failed(
                "Failed to add worktree: "@ + replies::complaint(replies[n as int]),
            )
            &&& replies.len() == n + 1 && added ==> stage == Stage::<()>::Run(
                replies::on_clone(
                    repo,
                    seq!["branch"@, "--set-upstream-to"@, upstream_of(name), branch_name],
                ),
            )
            &&& replies.len() > n + 1 && added && !set ==> stage == Stage::<()>::Failed(
                "Failed to set upstream '"@ + upstream_of(name) + "' for branch '"@ + branch_name + "': "@
                    + replies::complaint(replies[n + 1]),
            )
            &&& replies.len() > n + 1 && added && set ==> stage == Stage::<()>::Done(())
        }),
{
    lemma_upstream_of(tracking::tracking_name(reference)->0);
    if replies.len() > n {
        assert(replies.skip(n as int).skip(1) =~= replies.skip(n + 1));
    }
}

/// Tracking the branch of a remote sets that branch of that remote as the upstream,
/// in whichever form it is given: no other remote, and no other branch.
pub proof fn law_upstream_has_the_given_remote(
    repo: Seq<char>,
    path: Seq<char>,
    branch_name: Seq<char>,
    create_branch: bool,
    remote: Seq<char>,
    branch: Seq<char>,
    replies: Seq<Outcome>,
)
    requires
        tracking::valid_ref_component(remote),
        forall|i: int| 0 <= i < remote.len() ==> remote[i] != '/',
        remote != "refs"@,
        tracking::valid_ref_path(branch),
        replies.len() == 2,
        replies::went_well(replies[0]),
        replies::went_well(replies[1]),
    ensures
        ({
            let short = remote + "/"@ + branch;
            let run = Stage::<()>::Run(
                replies::on_clone(
                    repo,
                    seq!["branch"@, "--set-upstream-to"@, short, branch_name],
                ),
            );
            &&& add::add_worktree_stage(repo, path, branch_name, create_branch, Some(short), replies)
                == run
            &&& add::add_worktree_stage(
                repo,
                path,
                branch_name,
                create_branch,
                Some("refs/remotes/"@ + short),
                replies,
            ) == run
        }),
{
    let short = remote + "/"@ + branch;
    tracking_laws::law_valid_tracking_branches_are_accepted(remote, branch);
    tracking_laws::law_remote_and_branch_of_short_form(remote, branch);
    law_tracking_reference_steps(repo, short, replies);
    tracking_laws::lemma_not_full_reference(remote, branch);
    law_upstream_is_the_tracking_branch(
        repo,
        path,
        branch_name,
        create_branch,
        short,
        1,
        replies,
    );
    law_upstream_is_the_tracking_branch(
        repo,
        path,
        branch_name,
        create_branch,
        "refs/remotes/"@ + short,
        1,
        replies,
    );
}

/// Setting an upstream, on its own: the remote and the branch that the reference
/// names, in the short form and whichever form it has, or else the reference as it
/// is.
pub proof fn law_upstream_is_set_as_named(
    repo: Seq<char>,
    branch_name: Seq<char>,
    remote: Seq<char>,
    branch: Seq<char>,
    other: Seq<char>,
    replies: Seq<Outcome>,
)
    requires
        remote.len() > 0,
        branch.len() > 0,
        forall|i: int| 0 <= i < remote.len() ==> remote[i] != '/',
        tracking::remote_and_branch(other) is None,
    ensures
        ({
            let short = remote + "/"@ + branch;
            let full = "refs/remotes/"@ + short;
            &&& sets_upstream(
                add::set_branch_upstream_stage(repo, branch_name, full, replies),
                repo,
                short,
                branch_name,
                replies,
            )
            &&& remote != "refs"@ ==> sets_upstream(
                add::set_branch_upstream_stage(repo, branch_name, short, replies),
                repo,
                short,
                branch_name,
                replies,
            )
            &&& sets_upstream(
                add::set_branch_upstream_stage(repo, branch_name, other, replies),
                repo,
                other,
                branch_name,
                replies,
            )
        }),
{
    tracking_laws::law_remote_and_branch_of_full_form(remote, branch);
    if remote != "refs"@ {
        tracking_laws::law_remote_and_branch_of_short_form(remote, branch);
    }
}

/// The stage is that of setting this upstream.
pub open spec fn sets_upstream(
    stage: Stage<()>,
    repo: Seq<char>,
    upstream: Seq<char>,
    branch_name: Seq<char>,
    replies: Seq<Outcome>,
) -> bool {
    stage == (if replies.len() == 0 {
        Stage::Run(
            replies::on_clone(
                repo,
                seq!["branch"@, "--set-upstream-to"@, upstream, branch_name],
            ),
        )
    } else if replies::went_well(replies[0]) {
        Stage::Done(())
    } else {
        Stage::Failed(
            "Failed to set upstream '"@ + upstream + "' for branch '"@ + branch_name + "': "@
                + replies::complaint(replies[0]),
        )
    })
}

} // verus!
