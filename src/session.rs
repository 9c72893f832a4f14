//! The session: global options shared by every command of one handle.

use vstd::prelude::*;

use crate::options::{
    build_command, command_tokens, names1, push_token, result_tokens, rule_views,
    switch_rule, value_rule, views, OptionRule, Options, RuleSpec, TranslateError,
};

verus! {

/// The global options of a session, fixed when it is made.
#[derive(Debug, Clone)]
pub struct Xvc {
    pub verbosity: Option<u8>,
    pub quiet: Option<bool>,
    pub debug: Option<bool>,
    pub workdir: Option<String>,
    /// The directory that the project is looked for in: `workdir`, or `.`.
    pub current_dir: String,
    pub include_system_config: bool,
    pub include_user_config: bool,
    pub include_environment_config: bool,
    pub skip_git: Option<bool>,
    pub from_ref: Option<String>,
    pub to_branch: Option<String>,
}

/// The verbosity token: a dash and one `v` per level.
pub open spec fn verbosity_token(n: u8) -> Seq<char> {
    seq!['-'] + Seq::new(n as nat, |i: int| 'v')
}

/// `flag` when `on` holds.
pub open spec fn switch_seg(on: bool, flag: Seq<char>) -> Seq<Seq<char>> {
    if on {
        seq![flag]
    } else {
        Seq::empty()
    }
}

/// `flag` and the value, when there is one.
pub open spec fn value_seg(v: Option<String>, flag: Seq<char>) -> Seq<Seq<char>> {
    match v {
        Some(s) => seq![flag, s@],
        None => Seq::empty(),
    }
}

/// The token of the verbosity level, when one is set.
pub open spec fn verbosity_seg(v: Option<u8>) -> Seq<Seq<char>> {
    match v {
        Some(n) => seq![verbosity_token(n)],
        None => Seq::empty(),
    }
}

fn push_switch(cli: &mut Vec<String>, on: bool, flag: &str)
    ensures
        views(final(cli)@) == views(old(cli)@) + switch_seg(on, flag@),
{
    if on {
        push_token(cli, flag);
        assert(views(cli@) =~= views(old(cli)@) + switch_seg(on, flag@));
    } else {
        assert(views(cli@) =~= views(old(cli)@) + switch_seg(on, flag@));
    }
}

pub(crate) fn push_value(cli: &mut Vec<String>, v: &Option<String>, flag: &str)
    ensures
        views(final(cli)@) == views(old(cli)@) + value_seg(*v, flag@),
{
    match v {
        Some(s) => {
            push_token(cli, flag);
            push_token(cli, s.as_str());
            assert(views(cli@) =~= views(old(cli)@) + value_seg(*v, flag@));
        },
        None => {
            assert(views(cli@) =~= views(old(cli)@) + value_seg(*v, flag@));
        },
    }
}

pub(crate) fn copy_text(v: &Option<String>) -> (r: Option<String>)
    ensures
        r == *v,
{
    match v {
        Some(s) => Some(s.clone()),
        None => None,
    }
}

/// The verbosity token for `n` levels.
fn verbosity_flag(n: u8) -> (r: String)
    ensures
        r@ == verbosity_token(n),
{
    let mut s = "-".to_string();
    proof {
        reveal_strlit("-");
        assert(s@ =~= seq!['-'] + Seq::new(0 as nat, |j: int| 'v'));
    }
    let mut i: u8 = 0;
    while i < n
        invariant
            i <= n,
            s@ == seq!['-'] + Seq::new(i as nat, |j: int| 'v'),
        decreases n - i,
    {
        proof {
            reveal_strlit("v");
            assert("v"@ =~= seq!['v']);
        }
        s.append("v");
        i = i + 1;
        assert(s@ =~= seq!['-'] + Seq::new(i as nat, |j: int| 'v'));
    }
    s
}

pub open spec fn root_rules() -> Seq<RuleSpec> {
    seq![switch_rule(seq!["absolute"@], "--absolute"@)]
}

pub open spec fn check_ignore_rules() -> Seq<RuleSpec> {
    seq![
        switch_rule(seq!["help"@], "--help"@),
        switch_rule(seq!["details"@], "--details"@),
        value_rule(seq!["ignore_filename"@], "--ignore-filename"@),
        switch_rule(seq!["non_matching"@], "--non-matching"@),
    ]
}

pub open spec fn init_rules() -> Seq<RuleSpec> {
    seq![
        switch_rule(seq!["help"@], "--help"@),
        value_rule(seq!["path"@], "--path"@),
        switch_rule(seq!["no-git"@], "--no-git"@),
        switch_rule(seq!["force"@], "--force"@),
    ]
}

impl Xvc {
    /// A session from its global options; an absent switch counts as false.
    pub fn new(
        verbosity: Option<u8>,
        quiet: Option<bool>,
        debug: Option<bool>,
        workdir: Option<String>,
        no_system_config: Option<bool>,
        no_user_config: Option<bool>,
        no_env_config: Option<bool>,
        skip_git: Option<bool>,
        from_ref: Option<String>,
        to_branch: Option<String>,
    ) -> (r: Xvc)
        ensures
            r.verbosity == verbosity,
            r.quiet == quiet,
            r.debug == debug,
            r.workdir == workdir,
            r.current_dir@ == (match workdir {
                Some(w) => w@,
                None => "."@,
            }),
            r.include_system_config == (no_system_config != Some(true)),
            r.include_user_config == (no_user_config != Some(true)),
            r.include_environment_config == (no_env_config != Some(true)),
            r.skip_git == skip_git,
            r.from_ref == from_ref,
            r.to_branch == to_branch,
    {
        let current_dir = match &workdir {
            Some(w) => w.clone(),
            None => ".".to_string(),
        };
        Xvc {
            verbosity,
            quiet,
            debug,
            workdir,
            current_dir,
            include_system_config: !matches!(no_system_config, Some(true)),
            include_user_config: !matches!(no_user_config, Some(true)),
            include_environment_config: !matches!(no_env_config, Some(true)),
            skip_git,
            from_ref,
            to_branch,
        }
    }

    /// A copy of these options.
    pub fn duplicate(&self) -> (r: Xvc)
        ensures
            r == *self,
    {
        Xvc {
            verbosity: self.verbosity,
            quiet: self.quiet,
            debug: self.debug,
            workdir: copy_text(&self.workdir),
            current_dir: self.current_dir.clone(),
            include_system_config: self.include_system_config,
            include_user_config: self.include_user_config,
            include_environment_config: self.include_environment_config,
            skip_git: self.skip_git,
            from_ref: copy_text(&self.from_ref),
            to_branch: copy_text(&self.to_branch),
        }
    }

    /// The tokens that every command of this session starts with.
    pub open spec fn prefix(&self) -> Seq<Seq<char>> {
        seq!["xvc"@] + verbosity_seg(self.verbosity) + switch_seg(self.quiet == Some(true), "--quiet"@)
            + switch_seg(self.debug == Some(true), "--debug"@) + value_seg(self.workdir, "-C"@)
            + switch_seg(!self.include_system_config, "--no-system-config"@) + switch_seg(
            !self.include_user_config,
            "--no-user-config"@,
        ) + switch_seg(!self.include_environment_config, "--no-env-config"@) + switch_seg(
            self.skip_git == Some(true),
            "--skip-git"@,
        ) + value_seg(self.from_ref, "--from-ref"@) + value_seg(self.to_branch, "--to-branch"@)
    }

    /// The global option tokens of this session.
    pub fn cli(&self) -> (r: Vec<String>)
        ensures
            views(r@) == self.prefix(),
    {
        let mut cli: Vec<String> = Vec::new();
        push_token(&mut cli, "xvc");
        assert(views(cli@) =~= seq!["xvc"@]);
        let ghost s0 = views(cli@);
        match self.verbosity {
            Some(n) => {
                let v = verbosity_flag(n);
                push_token(&mut cli, v.as_str());
            },
            None => {},
        }
        assert(views(cli@) =~= s0 + verbosity_seg(self.verbosity));
        push_switch(&mut cli, matches!(self.quiet, Some(true)), "--quiet");
        push_switch(&mut cli, matches!(self.debug, Some(true)), "--debug");
        push_value(&mut cli, &self.workdir, "-C");
        push_switch(&mut cli, !self.include_system_config, "--no-system-config");
        push_switch(&mut cli, !self.include_user_config, "--no-user-config");
        push_switch(&mut cli, !self.include_environment_config, "--no-env-config");
        push_switch(&mut cli, matches!(self.skip_git, Some(true)), "--skip-git");
        push_value(&mut cli, &self.from_ref, "--from-ref");
        push_value(&mut cli, &self.to_branch, "--to-branch");
        cli
    }

    /// The command line of `root`.
    pub fn root(&self, opts: &Options) -> (r: Result<Vec<String>, TranslateError>)
        ensures
            result_tokens(r) == command_tokens(
                self.prefix().push("root"@),
                root_rules(),
                opts@,
                Seq::empty(),
            ),
    {
        let mut cli = self.cli();
        push_token(&mut cli, "root");
        let rules = vec![OptionRule::switch(names1("absolute"), "--absolute")];
        assert(rule_views(rules@) =~= root_rules());
        let none: Vec<String> = Vec::new();
        assert(views(none@) =~= Seq::<Seq<char>>::empty());
        build_command(cli, &rules, opts, none.as_slice())
    }

    /// The command line of `check-ignore` on `targets`.
    pub fn check_ignore(&self, targets: &[String], opts: &Options) -> (r: Result<
        Vec<String>,
        TranslateError,
    >)
        ensures
            result_tokens(r) == command_tokens(
                self.prefix().push("check-ignore"@),
                check_ignore_rules(),
                opts@,
                views(targets@),
            ),
    {
        let mut cli = self.cli();
        push_token(&mut cli, "check-ignore");
        let rules = vec![
            OptionRule::switch(names1("help"), "--help"),
            OptionRule::switch(names1("details"), "--details"),
            OptionRule::value(names1("ignore_filename"), "--ignore-filename"),
            OptionRule::switch(names1("non_matching"), "--non-matching"),
        ];
        assert(rule_views(rules@) =~= check_ignore_rules());
        build_command(cli, &rules, opts, targets)
    }

    /// The command line of `init`.
    pub fn init(&self, opts: &Options) -> (r: Result<Vec<String>, TranslateError>)
        ensures
            result_tokens(r) == command_tokens(
                self.prefix().push("init"@),
                init_rules(),
                opts@,
                Seq::empty(),
            ),
    {
        let mut cli = self.cli();
        push_token(&mut cli, "init");
        let rules = vec![
            OptionRule::switch(names1("help"), "--help"),
            OptionRule::value(names1("path"), "--path"),
            OptionRule::switch(names1("no-git"), "--no-git"),
            OptionRule::switch(names1("force"), "--force"),
        ];
        assert(rule_views(rules@) =~= init_rules());
        let none: Vec<String> = Vec::new();
        assert(views(none@) =~= Seq::<Seq<char>>::empty());
        build_command(cli, &rules, opts, none.as_slice())
    }

    /// The command line of `help`.
    pub fn help(&self) -> (r: Vec<String>)
        ensures
            views(r@) == self.prefix().push("help"@),
    {
        let mut cli = self.cli();
        push_token(&mut cli, "help");
        cli
    }
}

} // verus!
