//! Properties of the configuration model, stated over [`ChrootView`] and proved.

use vstd::prelude::*;

use crate::chroot::{ChrootView, join_commas};

verus! {

/// With no option set, the command line is `chroot`, the root and the program, and nothing else.
pub proof fn lemma_empty_argv(root: Seq<char>, program: Seq<char>)
    ensures
        ChrootView::empty().argv(root, program, seq![]) == seq!["chroot"@, root, program],
{
    assert(ChrootView::empty().argv(root, program, seq![]) =~= seq!["chroot"@, root, program]);
}

/// The configuration after asking `n` times for `--skip-chdir`.
pub open spec fn skip_chdir_times(v: ChrootView, n: nat) -> ChrootView
    decreases n,
{
    if n == 0 {
        v
    } else {
        skip_chdir_times(v, (n - 1) as nat).with_skip_chdir()
    }
}

/// Asking for `--skip-chdir` one or more times has the effect of asking once: the flag then
/// comes right after `chroot`, and no other flag is `--skip-chdir`.
pub proof fn lemma_skip_chdir_once(
    v: ChrootView,
    n: nat,
    root: Seq<char>,
    program: Seq<char>,
    extra: Seq<Seq<char>>,
)
    requires
        n >= 1,
    ensures
        skip_chdir_times(v, n) == v.with_skip_chdir(),
        v.with_skip_chdir().argv(root, program, extra)[1] == "--skip-chdir"@,
        v.with_skip_chdir().flags()[0] == "--skip-chdir"@,
        forall|i: int|
            1 <= i < v.with_skip_chdir().flags().len() ==> #[trigger] v.with_skip_chdir().flags()[i]
                != "--skip-chdir"@,
    decreases n,
{
    if n > 1 {
        lemma_skip_chdir_once(v, (n - 1) as nat, root, program, extra);
        assert(skip_chdir_times(v, n) == skip_chdir_times(v, (n - 1) as nat).with_skip_chdir());
    } else {
        assert(skip_chdir_times(v, 0) == v);
    }
    let w = v.with_skip_chdir();
    assert(w.argv(root, program, extra)[1] == w.flags()[0]);
    assert forall|i: int| 1 <= i < w.flags().len() implies #[trigger] w.flags()[i]
        != "--skip-chdir"@ by {
        reveal_strlit("--skip-chdir");
        reveal_strlit("--userspec=");
        reveal_strlit("--groups=");
        assert(w.flags()[i][2] != "--skip-chdir"@[2]);
    }
}

/// Whether `s` is a `--userspec=` flag.
pub open spec fn is_user_spec_flag(s: Seq<char>) -> bool {
    "--userspec="@.is_prefix_of(s)
}

/// A user and group given after a user replace it: the command line then holds a single
/// `--userspec=` flag, `--userspec=<user>:<group>`.
pub proof fn lemma_user_group_replaces_user(
    v: ChrootView,
    first: Seq<char>,
    user: Seq<char>,
    group: Seq<char>,
)
    ensures
        v.with_user(first).flags().contains("--userspec="@ + first),
        v.with_user(first).with_user_group(user, group) == v.with_user_group(user, group),
        v.with_user_group(user, group).flags().contains("--userspec="@ + user + ":"@ + group),
        forall|i: int|
            0 <= i < v.with_user_group(user, group).flags().len() && is_user_spec_flag(
                #[trigger] v.with_user_group(user, group).flags()[i],
            ) ==> v.with_user_group(user, group).flags()[i] == "--userspec="@ + user + ":"@
                + group,
{
    let w = v.with_user_group(user, group);
    let f = v.with_user(first).flags();
    let k = v.with_user(first).skip_chdir_flag().len() as int;
    assert(f[k] == "--userspec="@ + first);
    let kw = w.skip_chdir_flag().len() as int;
    assert(w.flags()[kw] == "--userspec="@ + user + ":"@ + group);
    assert forall|i: int|
        0 <= i < w.flags().len() && is_user_spec_flag(
            #[trigger] w.flags()[i],
        ) implies w.flags()[i] == "--userspec="@ + user + ":"@ + group by {
        reveal_strlit("--skip-chdir");
        reveal_strlit("--userspec=");
        reveal_strlit("--groups=");
        if i != kw {
            assert(w.flags()[i][2] != "--userspec="@[2]);
        }
    }
}

/// Giving an empty list of groups changes nothing, neither alone nor before other groups.
pub proof fn lemma_empty_groups_no_op(v: ChrootView, groups: Seq<Seq<char>>)
    ensures
        v.with_groups(seq![]) == v,
        v.with_groups(seq![]).with_groups(groups) == v.with_groups(groups),
{
}

/// The builder steps commute, so the order of the calls does not matter: the flags always
/// come as `--skip-chdir`, `--userspec=`, `--groups=`, then the root, the program and its
/// arguments.
pub proof fn lemma_call_order_irrelevant(
    v: ChrootView,
    user: Seq<char>,
    group: Seq<char>,
    groups: Seq<Seq<char>>,
    root: Seq<char>,
    program: Seq<char>,
    extra: Seq<Seq<char>>,
)
    ensures
        v.with_skip_chdir().with_user(user) == v.with_user(user).with_skip_chdir(),
        v.with_skip_chdir().with_user_group(user, group) == v.with_user_group(
            user,
            group,
        ).with_skip_chdir(),
        v.with_skip_chdir().with_groups(groups) == v.with_groups(groups).with_skip_chdir(),
        v.with_user(user).with_groups(groups) == v.with_groups(groups).with_user(user),
        v.with_user_group(user, group).with_groups(groups) == v.with_groups(
            groups,
        ).with_user_group(user, group),
        v.argv(root, program, extra) == seq!["chroot"@] + v.skip_chdir_flag()
            + v.user_spec_flag() + v.groups_flag() + seq![root, program] + extra,
{
    assert(v.argv(root, program, extra) =~= seq!["chroot"@] + v.skip_chdir_flag()
        + v.user_spec_flag() + v.groups_flag() + seq![root, program] + extra);
}

} // verus!
