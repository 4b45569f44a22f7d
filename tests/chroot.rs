use beach::{Chroot, Invocation};

fn owned(items: &[&str]) -> Vec<String> {
    items.iter().map(|s| s.to_string()).collect()
}

fn argv(inv: &Invocation) -> Vec<String> {
    inv.to_vec()
}

#[test]
fn empty_config_runs_program_under_root() {
    let inv = Chroot::new().build_invocation("/srv/root", "sh", &[]);
    assert_eq!(argv(&inv), owned(&["chroot", "/srv/root", "sh"]));
}

#[test]
fn default_is_new() {
    let a = Chroot::default().command("/r", "p");
    let b = Chroot::new().command("/r", "p");
    assert_eq!(argv(&a), argv(&b));
    assert_eq!(argv(&a), owned(&["chroot", "/r", "p"]));
}

#[test]
fn skip_chdir_repeated_gives_one_flag() {
    let inv = Chroot::new()
        .skip_chdir()
        .skip_chdir()
        .skip_chdir()
        .user("alice")
        .command("/r", "p");
    assert_eq!(
        argv(&inv),
        owned(&["chroot", "--skip-chdir", "--userspec=alice", "/r", "p"])
    );
}

#[test]
fn user_gives_userspec() {
    let inv = Chroot::new().user("alice").command("/r", "p");
    assert_eq!(argv(&inv), owned(&["chroot", "--userspec=alice", "/r", "p"]));
}

#[test]
fn user_group_replaces_user() {
    let inv = Chroot::new()
        .user("alice")
        .user_group("bob", "staff")
        .command("/r", "p");
    assert_eq!(
        argv(&inv),
        owned(&["chroot", "--userspec=bob:staff", "/r", "p"])
    );
}

#[test]
fn user_replaces_user_group() {
    let inv = Chroot::new()
        .user_group("bob", "staff")
        .user("alice")
        .command("/r", "p");
    assert_eq!(argv(&inv), owned(&["chroot", "--userspec=alice", "/r", "p"]));
}

#[test]
fn empty_groups_is_no_op() {
    let a = Chroot::new().groups(&[]).groups(&["x"]).command("/r", "p");
    let b = Chroot::new().groups(&["x"]).command("/r", "p");
    assert_eq!(argv(&a), argv(&b));
    assert_eq!(argv(&a), owned(&["chroot", "--groups=x", "/r", "p"]));
    let c = Chroot::new().groups(&[]).command("/r", "p");
    assert_eq!(argv(&c), owned(&["chroot", "/r", "p"]));
}

#[test]
fn empty_groups_keeps_earlier_groups() {
    let inv = Chroot::new().groups(&["x", "y"]).groups(&[]).command("/r", "p");
    assert_eq!(argv(&inv), owned(&["chroot", "--groups=x,y", "/r", "p"]));
}

#[test]
fn later_groups_replace_earlier() {
    let inv = Chroot::new().groups(&["x"]).groups(&["y", "z"]).command("/r", "p");
    assert_eq!(argv(&inv), owned(&["chroot", "--groups=y,z", "/r", "p"]));
}

#[test]
fn groups_joined_in_order() {
    let inv = Chroot::new().groups(&["a", "b", "c"]).command("/r", "p");
    assert_eq!(argv(&inv), owned(&["chroot", "--groups=a,b,c", "/r", "p"]));
}

#[test]
fn groups_keep_duplicates() {
    let inv = Chroot::new().groups(&["a", "a"]).command("/r", "p");
    assert_eq!(argv(&inv), owned(&["chroot", "--groups=a,a", "/r", "p"]));
}

#[test]
fn flag_order_independent_of_call_order() {
    let expected = owned(&[
        "chroot",
        "--skip-chdir",
        "--userspec=u",
        "--groups=g1,g2",
        "/r",
        "p",
        "x",
    ]);
    let a = Chroot::new()
        .skip_chdir()
        .user("u")
        .groups(&["g1", "g2"])
        .build_invocation("/r", "p", &["x"]);
    let b = Chroot::new()
        .groups(&["g1", "g2"])
        .user("u")
        .skip_chdir()
        .build_invocation("/r", "p", &["x"]);
    let c = Chroot::new()
        .user("u")
        .groups(&["g1", "g2"])
        .skip_chdir()
        .build_invocation("/r", "p", &["x"]);
    assert_eq!(argv(&a), expected);
    assert_eq!(argv(&b), expected);
    assert_eq!(argv(&c), expected);
}

#[test]
fn end_to_end_example() {
    let inv = Chroot::new()
        .skip_chdir()
        .user_group("nvzqz", "everyone")
        .groups(&["wheel", "docker"])
        .build_invocation("/path/to/root", "ls", &["/"]);
    assert_eq!(
        argv(&inv),
        owned(&[
            "chroot",
            "--skip-chdir",
            "--userspec=nvzqz:everyone",
            "--groups=wheel,docker",
            "/path/to/root",
            "ls",
            "/",
        ])
    );
    assert_eq!(inv.get_program(), "chroot");
    assert_eq!(
        inv.get_args().to_vec(),
        owned(&[
            "--skip-chdir",
            "--userspec=nvzqz:everyone",
            "--groups=wheel,docker",
            "/path/to/root",
            "ls",
            "/",
        ])
    );
}

#[test]
fn invocation_arg_and_args_append() {
    let inv = Chroot::new()
        .command("/r", "ls")
        .arg("-l")
        .args(&["/a", "/b"]);
    assert_eq!(argv(&inv), owned(&["chroot", "/r", "ls", "-l", "/a", "/b"]));
    assert_eq!(inv.get_args().len(), 5);
}

#[test]
fn config_reusable_for_several_commands() {
    let config = Chroot::new().user("alice");
    let a = config.command("/r1", "p1");
    let b = config.clone().skip_chdir().command("/r2", "p2");
    assert_eq!(argv(&a), owned(&["chroot", "--userspec=alice", "/r1", "p1"]));
    assert_eq!(
        argv(&b),
        owned(&["chroot", "--skip-chdir", "--userspec=alice", "/r2", "p2"])
    );
}
