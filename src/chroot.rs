use vstd::prelude::*;
use vstd::string::*;

verus! {

/// The options of a [`Chroot`], as plain mathematical values.
pub struct ChrootView {
    /// Whether `--skip-chdir` is passed.
    pub skip_chdir: bool,
    /// The `<user>` or `<user>:<group>` text given to `--userspec=`, if any.
    pub user_spec: Option<Seq<char>>,
    /// The supplementary groups, in the order given; empty when none were set.
    pub groups: Seq<Seq<char>>,
}

impl ChrootView {
    /// No option set.
    pub open spec fn empty() -> ChrootView {
        ChrootView { skip_chdir: false, user_spec: None, groups: seq![] }
    }

    /// `--skip-chdir` is to be passed.
    pub open spec fn with_skip_chdir(self) -> ChrootView {
        ChrootView { skip_chdir: true, ..self }
    }

    /// The user specification becomes `user`, replacing any earlier one.
    pub open spec fn with_user(self, user: Seq<char>) -> ChrootView {
        ChrootView { user_spec: Some(user), ..self }
    }

    /// The user specification becomes `<user>:<group>`, replacing any earlier one.
    pub open spec fn with_user_group(self, user: Seq<char>, group: Seq<char>) -> ChrootView {
        ChrootView { user_spec: Some(user + ":"@ + group), ..self }
    }

    /// A non-empty `groups` replaces the supplementary groups; an empty one changes nothing.
    pub open spec fn with_groups(self, groups: Seq<Seq<char>>) -> ChrootView {
        if groups.len() == 0 {
            self
        } else {
            ChrootView { groups, ..self }
        }
    }

    /// The `--skip-chdir` flag, if set.
    pub open spec fn skip_chdir_flag(self) -> Seq<Seq<char>> {
        if self.skip_chdir {
            seq!["--skip-chdir"@]
        } else {
            seq![]
        }
    }

    /// The `--userspec=` flag, if a user was given.
    pub open spec fn user_spec_flag(self) -> Seq<Seq<char>> {
        match self.user_spec {
            Some(u) => seq!["--userspec="@ + u],
            None => seq![],
        }
    }

    /// The `--groups=` flag, if supplementary groups were given.
    pub open spec fn groups_flag(self) -> Seq<Seq<char>> {
        if self.groups.len() == 0 {
            seq![]
        } else {
            seq!["--groups="@ + join_commas(self.groups)]
        }
    }

    /// The flags given to `chroot` before the root, in their fixed order.
    pub open spec fn flags(self) -> Seq<Seq<char>> {
        self.skip_chdir_flag() + self.user_spec_flag() + self.groups_flag()
    }

    /// The whole command line: `chroot`, the flags, the root, the program and its arguments.
    pub open spec fn argv(self, root: Seq<char>, program: Seq<char>, extra: Seq<Seq<char>>) -> Seq<
        Seq<char>,
    > {
        seq!["chroot"@] + self.flags() + seq![root, program] + extra
    }
}

/// The items of `items` separated by commas.
pub open spec fn join_commas(items: Seq<Seq<char>>) -> Seq<char>
    decreases items.len(),
{
    if items.len() == 0 {
        seq![]
    } else if items.len() == 1 {
        items[0]
    } else {
        join_commas(items.drop_last()) + ","@ + items.last()
    }
}

/// A program name and its arguments, ready to be handed to a process launcher.
///
/// Its view is the whole command line: the program first, then each argument.
#[derive(Debug)]
pub struct Invocation {
    program: String,
    args: Vec<String>,
}

impl View for Invocation {
    type V = Seq<Seq<char>>;

    closed spec fn view(&self) -> Seq<Seq<char>> {
        seq![self.program@] + self.args.deep_view()
    }
}

impl Invocation {
    /// The program to launch.
    pub fn get_program(&self) -> (r: &str)
        ensures
            r@ == self@[0],
    {
        self.program.as_str()
    }

    /// The arguments handed to the program, in order.
    pub fn get_args(&self) -> (r: &[String])
        ensures
            r.deep_view() == self@.skip(1),
    {
        let r = self.args.as_slice();
        assert(r.deep_view() =~= self@.skip(1));
        r
    }

    /// Appends one argument.
    pub fn arg(self, arg: &str) -> (r: Self)
        ensures
            r@ == self@.push(arg@),
    {
        let mut args = self.args;
        let ghost before = args.deep_view();
        args.push(String::from_str(arg));
        assert(args.deep_view() =~= before.push(arg@));
        let r = Invocation { program: self.program, args };
        assert(r@ =~= self@.push(arg@));
        r
    }

    /// Appends several arguments, in order.
    pub fn args(self, more: &[&str]) -> (r: Self)
        ensures
            r@ == self@ + more.deep_view(),
    {
        let mut r = self;
        let mut i: usize = 0;
        while i < more.len()
            invariant
                i <= more@.len(),
                r@ =~= self@ + more.deep_view().take(i as int),
            decreases more@.len() - i,
        {
            assert(more.deep_view()[i as int] == more@[i as int]@);
            r = r.arg(more[i]);
            assert(more.deep_view().take(i + 1) =~= more.deep_view().take(i as int).push(
                more@[i as int]@,
            ));
            i += 1;
        }
        assert(more.deep_view().take(i as int) =~= more.deep_view());
        r
    }

    /// The whole command line as owned strings: the program, then its arguments.
    pub fn to_vec(&self) -> (r: Vec<String>)
        ensures
            r.deep_view() == self@,
    {
        let mut r: Vec<String> = Vec::new();
        r.push(self.program.clone());
        let mut i: usize = 0;
        while i < self.args.len()
            invariant
                i <= self.args@.len(),
                r.deep_view() =~= self@.take(i + 1),
            decreases self.args@.len() - i,
        {
            let ghost before = r.deep_view();
            r.push(self.args[i].clone());
            assert(r.deep_view() =~= before.push(self.args@[i as int]@));
            i += 1;
        }
        assert(self@.take(i + 1) =~= self@);
        r
    }
}

/// The strings of `items` separated by commas.
fn join_commas_exec(items: &Vec<String>) -> (r: String)
    requires
        items@.len() > 0,
    ensures
        r@ == join_commas(items.deep_view()),
{
    let mut r = items[0].clone();
    let mut i: usize = 1;
    assert(items.deep_view().take(1) =~= seq![items@[0]@]);
    while i < items.len()
        invariant
            1 <= i <= items@.len(),
            r@ == join_commas(items.deep_view().take(i as int)),
        decreases items@.len() - i,
    {
        r.append(",");
        r.append(items[i].as_str());
        assert(items.deep_view().take(i + 1).drop_last() =~= items.deep_view().take(i as int));
        i += 1;
    }
    assert(items.deep_view().take(i as int) =~= items.deep_view());
    r
}

/// A builder for invocations of [`chroot(1)`](https://www.gnu.org/software/coreutils/chroot).
///
/// **Note:** running `chroot` requires root privileges.
#[derive(Clone, Debug)]
pub struct Chroot {
    skip_chdir: bool,
    user_spec: Option<String>,
    groups: Vec<String>,
}

impl View for Chroot {
    type V = ChrootView;

    closed spec fn view(&self) -> ChrootView {
        ChrootView {
            skip_chdir: self.skip_chdir,
            user_spec: match self.user_spec {
                Some(s) => Some(s@),
                None => None,
            },
            groups: self.groups.deep_view(),
        }
    }
}

impl Default for Chroot {
    fn default() -> (r: Self)
        ensures
            r@ == ChrootView::empty(),
    {
        Self::new()
    }
}

impl Chroot {
    /// Creates a configuration with no option set.
    pub fn new() -> (r: Self)
        ensures
            r@ == ChrootView::empty(),
    {
        let r = Chroot { skip_chdir: false, user_spec: None, groups: Vec::new() };
        assert(r@.groups =~= seq![]);
        r
    }

    /// Do not change the working directory to `/`.
    pub fn skip_chdir(self) -> (r: Self)
        ensures
            r@ == self@.with_skip_chdir(),
    {
        Chroot { skip_chdir: true, user_spec: self.user_spec, groups: self.groups }
    }

    /// Specifies the user to run as.
    pub fn user(self, user: &str) -> (r: Self)
        ensures
            r@ == self@.with_user(user@),
    {
        Chroot { skip_chdir: self.skip_chdir, user_spec: Some(String::from_str(user)), groups: self.groups }
    }

    /// Specifies the user and group (ID or name) to run as.
    pub fn user_group(self, user: &str, group: &str) -> (r: Self)
        ensures
            r@ == self@.with_user_group(user@, group@),
    {
        let mut spec = String::from_str(user);
        spec.append(":");
        spec.append(group);
        Chroot { skip_chdir: self.skip_chdir, user_spec: Some(spec), groups: self.groups }
    }

    /// Specifies supplementary groups; an empty list leaves the configuration as it is.
    pub fn groups(self, groups: &[&str]) -> (r: Self)
        ensures
            r@ == self@.with_groups(groups.deep_view()),
    {
        if groups.len() == 0 {
            return self;
        }
        let mut list: Vec<String> = Vec::new();
        let mut i: usize = 0;
        while i < groups.len()
            invariant
                i <= groups@.len(),
                list.deep_view() =~= groups.deep_view().take(i as int),
            decreases groups@.len() - i,
        {
            let g = String::from_str(groups[i]);
            assert(g.deep_view() == groups.deep_view()[i as int]);
            let ghost before = list.deep_view();
            list.push(g);
            assert(list.deep_view() =~= before.push(g.deep_view()));
            i += 1;
        }
        assert(groups.deep_view().take(i as int) =~= groups.deep_view());
        Chroot { skip_chdir: self.skip_chdir, user_spec: self.user_spec, groups: list }
    }

    /// Returns an invocation that runs `program` with `root` as `/`.
    pub fn command(&self, root: &str, program: &str) -> (r: Invocation)
        ensures
            r@ == self@.argv(root@, program@, seq![]),
    {
        let mut args: Vec<String> = Vec::new();
        if self.skip_chdir {
            args.push(String::from_str("--skip-chdir"));
        }
        assert(args.deep_view() =~= self@.skip_chdir_flag());
        match &self.user_spec {
            Some(user_spec) => {
                let mut flag = String::from_str("--userspec=");
                flag.append(user_spec.as_str());
                args.push(flag);
            },
            None => {},
        }
        assert(args.deep_view() =~= self@.skip_chdir_flag() + self@.user_spec_flag());
        if self.groups.len() > 0 {
            let mut flag = String::from_str("--groups=");
            let joined = join_commas_exec(&self.groups);
            flag.append(joined.as_str());
            args.push(flag);
        }
        assert(args.deep_view() =~= self@.flags());
        args.push(String::from_str(root));
        args.push(String::from_str(program));
        let r = Invocation { program: String::from_str("chroot"), args };
        assert(r@ =~= self@.argv(root@, program@, seq![]));
        r
    }

    /// Returns an invocation that runs `program` with `root` as `/`, passing it `extra_args`.
    pub fn build_invocation(&self, root: &str, program: &str, extra_args: &[&str]) -> (r:
        Invocation)
        ensures
            r@ == self@.argv(root@, program@, extra_args.deep_view()),
    {
        self.command(root, program).args(extra_args)
    }
}

} // verus!
