//! The `file` commands.

use vstd::prelude::*;

use crate::options::{
    build_command, command_tokens, names1, names2, names3, push_token, result_tokens, rule_views,
    switch_rule, value_rule, views, OptionRule, Options, RuleSpec, TranslateError,
};
use crate::session::Xvc;

verus! {

/// The option table of `file track`.
pub open spec fn file_track_rules() -> Seq<RuleSpec> {
    seq![
        switch_rule(seq!["help"@], "--help"@),
        value_rule(seq!["recheck-method"@, "recheck_method"@], "--recheck-method"@),
        switch_rule(seq!["no-commit"@, "no_commit"@], "--no-commit"@),
        value_rule(seq!["text-or-binary"@, "text_or_binary"@], "--text-or-binary"@),
        switch_rule(seq!["force"@], "--force"@),
        switch_rule(seq!["no-parallel"@, "no_parallel"@], "--no-parallel"@),
    ]
}

/// The option table of `file hash`.
pub open spec fn file_hash_rules() -> Seq<RuleSpec> {
    seq![
        switch_rule(seq!["help"@], "--help"@),
        value_rule(seq!["algorithm"@], "--algorithm"@),
        value_rule(seq!["text-or-binary"@, "text_or_binary"@], "--text-or-binary"@),
    ]
}

/// The option table of `file carry-in`.
pub open spec fn file_carry_in_rules() -> Seq<RuleSpec> {
    seq![
        switch_rule(seq!["help"@], "--help"@),
        value_rule(seq!["text-or-binary"@, "text_or_binary"@], "--text-or-binary"@),
        switch_rule(seq!["force"@], "--force"@),
        switch_rule(seq!["no-parallel"@, "no_parallel"@], "--no-parallel"@),
    ]
}

/// The option table of `file recheck`.
pub open spec fn file_recheck_rules() -> Seq<RuleSpec> {
    seq![
        switch_rule(seq!["help"@], "--help"@),
        value_rule(seq!["recheck-method"@, "recheck_method"@], "--recheck-method"@),
        switch_rule(seq!["force"@], "--force"@),
        switch_rule(seq!["no-parallel"@, "no_parallel"@], "--no-parallel"@),
    ]
}

/// The option table of `file list`.
pub open spec fn file_list_rules() -> Seq<RuleSpec> {
    seq![
        switch_rule(seq!["help"@], "--help"@),
        value_rule(seq!["format"@], "--format"@),
        value_rule(seq!["sort"@], "--sort"@),
        switch_rule(seq!["no-summary"@], "--no-summary"@),
    ]
}

/// The option table of `file send`.
pub open spec fn file_send_rules() -> Seq<RuleSpec> {
    seq![
        switch_rule(seq!["help"@], "--help"@),
        value_rule(seq!["remote"@, "to"@, "storage"@], "--storage"@),
        switch_rule(seq!["force"@], "--force"@),
    ]
}

/// The option table of `file bring`.
pub open spec fn file_bring_rules() -> Seq<RuleSpec> {
    seq![
        switch_rule(seq!["help"@], "--help"@),
        value_rule(seq!["remote"@, "frm"@, "storage"@], "--storage"@),
        switch_rule(seq!["force"@], "--force"@),
        switch_rule(seq!["no-recheck"@], "--no-recheck"@),
        value_rule(seq!["recheck-as"@, "recheck_as"@], "--recheck-as"@),
    ]
}

/// The option table of `file copy`.
pub open spec fn file_copy_rules() -> Seq<RuleSpec> {
    seq![
        switch_rule(seq!["help"@], "--help"@),
        value_rule(seq!["recheck-method"@, "recheck_method"@], "--recheck-method"@),
        switch_rule(seq!["force"@], "--force"@),
        switch_rule(seq!["no-recheck"@], "--no-recheck"@),
    ]
}

/// The option table of `file move`.
pub open spec fn file_mv_rules() -> Seq<RuleSpec> {
    seq![
        switch_rule(seq!["help"@], "--help"@),
        value_rule(seq!["recheck-method"@, "recheck_method"@], "--recheck-method"@),
        switch_rule(seq!["force"@], "--force"@),
        switch_rule(seq!["no-recheck"@], "--no-recheck"@),
    ]
}

/// The option table of `file untrack`.
pub open spec fn file_untrack_rules() -> Seq<RuleSpec> {
    seq![
        switch_rule(seq!["help"@], "--help"@),
        value_rule(seq!["restore-versions"@, "restore_versions"@], "--recheck-method"@),
    ]
}

/// The option table of `file remove`.
pub open spec fn file_remove_rules() -> Seq<RuleSpec> {
    seq![
        switch_rule(seq!["help"@], "--help"@),
        switch_rule(seq!["force"@], "--force"@),
        switch_rule(seq!["from-cache"@, "from_cache"@], "--from-cache"@),
        value_rule(seq!["from-storage"@, "from_storage"@], "--from-storage"@),
        switch_rule(seq!["all_versions"@, "all-versions"@], "--all-versions"@),
        value_rule(seq!["only_version"@, "only-version"@], "--only-version"@),
    ]
}

/// The option table of `file share`.
pub open spec fn file_share_rules() -> Seq<RuleSpec> {
    seq![
        switch_rule(seq!["help"@], "--help"@),
        value_rule(seq!["remote"@, "storage"@], "--storage"@),
        value_rule(seq!["duration"@], "--duration"@),
    ]
}

/// The `file` commands of a session.
#[derive(Debug, Clone)]
pub struct XvcFile {
    pub xvc_opts: Xvc,
}

impl XvcFile {
    /// The `file` commands of `xvc_opts`.
    pub fn new(xvc_opts: &Xvc) -> (r: XvcFile)
        ensures
            r.xvc_opts == *xvc_opts,
    {
        XvcFile { xvc_opts: xvc_opts.duplicate() }
    }

    /// The tokens that every `file` command starts with.
    pub open spec fn prefix(&self) -> Seq<Seq<char>> {
        self.xvc_opts.prefix().push("file"@)
    }

    pub fn cli(&self) -> (r: Vec<String>)
        ensures
            views(r@) == self.prefix(),
    {
        let mut cli = self.xvc_opts.cli();
        push_token(&mut cli, "file");
        cli
    }

    /// The command line of `file track` on `targets`.
    pub fn track(&self, targets: &[String], opts: &Options) -> (r: Result<Vec<String>, TranslateError>)
        ensures
            result_tokens(r) == command_tokens(
                self.prefix().push("track"@),
                file_track_rules(),
                opts@,
                views(targets@),
            ),
    {
        let mut cli = self.cli();
        push_token(&mut cli, "track");
        let rules = vec![
            OptionRule::switch(names1("help"), "--help"),
            OptionRule::value(names2("recheck-method", "recheck_method"), "--recheck-method"),
            OptionRule::switch(names2("no-commit", "no_commit"), "--no-commit"),
            OptionRule::value(names2("text-or-binary", "text_or_binary"), "--text-or-binary"),
            OptionRule::switch(names1("force"), "--force"),
            OptionRule::switch(names2("no-parallel", "no_parallel"), "--no-parallel"),
        ];
        assert(rule_views(rules@) =~= file_track_rules());
        build_command(cli, &rules, opts, targets)
    }

    /// The command line of `file hash` on `targets`.
    pub fn hash(&self, targets: &[String], opts: &Options) -> (r: Result<Vec<String>, TranslateError>)
        ensures
            result_tokens(r) == command_tokens(
                self.prefix().push("hash"@),
                file_hash_rules(),
                opts@,
                views(targets@),
            ),
    {
        let mut cli = self.cli();
        push_token(&mut cli, "hash");
        let rules = vec![
            OptionRule::switch(names1("help"), "--help"),
            OptionRule::value(names1("algorithm"), "--algorithm"),
            OptionRule::value(names2("text-or-binary", "text_or_binary"), "--text-or-binary"),
        ];
        assert(rule_views(rules@) =~= file_hash_rules());
        build_command(cli, &rules, opts, targets)
    }

    /// The command line of `file carry-in` on `targets`.
    pub fn carry_in(&self, targets: &[String], opts: &Options) -> (r: Result<Vec<String>, TranslateError>)
        ensures
            result_tokens(r) == command_tokens(
                self.prefix().push("carry-in"@),
                file_carry_in_rules(),
                opts@,
                views(targets@),
            ),
    {
        let mut cli = self.cli();
        push_token(&mut cli, "carry-in");
        let rules = vec![
            OptionRule::switch(names1("help"), "--help"),
            OptionRule::value(names2("text-or-binary", "text_or_binary"), "--text-or-binary"),
            OptionRule::switch(names1("force"), "--force"),
            OptionRule::switch(names2("no-parallel", "no_parallel"), "--no-parallel"),
        ];
        assert(rule_views(rules@) =~= file_carry_in_rules());
        build_command(cli, &rules, opts, targets)
    }

    /// The command line of `file recheck` on `targets`.
    pub fn recheck(&self, targets: &[String], opts: &Options) -> (r: Result<Vec<String>, TranslateError>)
        ensures
            result_tokens(r) == command_tokens(
                self.prefix().push("recheck"@),
                file_recheck_rules(),
                opts@,
                views(targets@),
            ),
    {
        let mut cli = self.cli();
        push_token(&mut cli, "recheck");
        let rules = vec![
            OptionRule::switch(names1("help"), "--help"),
            OptionRule::value(names2("recheck-method", "recheck_method"), "--recheck-method"),
            OptionRule::switch(names1("force"), "--force"),
            OptionRule::switch(names2("no-parallel", "no_parallel"), "--no-parallel"),
        ];
        assert(rule_views(rules@) =~= file_recheck_rules());
        build_command(cli, &rules, opts, targets)
    }

    /// The command line of `file list` on `targets`.
    pub fn list(&self, targets: &[String], opts: &Options) -> (r: Result<Vec<String>, TranslateError>)
        ensures
            result_tokens(r) == command_tokens(
                self.prefix().push("list"@),
                file_list_rules(),
                opts@,
                views(targets@),
            ),
    {
        let mut cli = self.cli();
        push_token(&mut cli, "list");
        let rules = vec![
            OptionRule::switch(names1("help"), "--help"),
            OptionRule::value(names1("format"), "--format"),
            OptionRule::value(names1("sort"), "--sort"),
            OptionRule::switch(names1("no-summary"), "--no-summary"),
        ];
        assert(rule_views(rules@) =~= file_list_rules());
        build_command(cli, &rules, opts, targets)
    }

    /// The command line of `file send` on `targets`.
    pub fn send(&self, targets: &[String], opts: &Options) -> (r: Result<Vec<String>, TranslateError>)
        ensures
            result_tokens(r) == command_tokens(
                self.prefix().push("send"@),
                file_send_rules(),
                opts@,
                views(targets@),
            ),
    {
        let mut cli = self.cli();
        push_token(&mut cli, "send");
        let rules = vec![
            OptionRule::switch(names1("help"), "--help"),
            OptionRule::value(names3("remote", "to", "storage"), "--storage"),
            OptionRule::switch(names1("force"), "--force"),
        ];
        assert(rule_views(rules@) =~= file_send_rules());
        build_command(cli, &rules, opts, targets)
    }

    /// The command line of `file bring` on `targets`.
    pub fn bring(&self, targets: &[String], opts: &Options) -> (r: Result<Vec<String>, TranslateError>)
        ensures
            result_tokens(r) == command_tokens(
                self.prefix().push("bring"@),
                file_bring_rules(),
                opts@,
                views(targets@),
            ),
    {
        let mut cli = self.cli();
        push_token(&mut cli, "bring");
        let rules = vec![
            OptionRule::switch(names1("help"), "--help"),
            OptionRule::value(names3("remote", "frm", "storage"), "--storage"),
            OptionRule::switch(names1("force"), "--force"),
            OptionRule::switch(names1("no-recheck"), "--no-recheck"),
            OptionRule::value(names2("recheck-as", "recheck_as"), "--recheck-as"),
        ];
        assert(rule_views(rules@) =~= file_bring_rules());
        build_command(cli, &rules, opts, targets)
    }

    /// The command line of `file copy` from `source` to `destination`.
    pub fn copy(&self, source: String, destination: String, opts: &Options) -> (r: Result<Vec<String>, TranslateError>)
        ensures
            result_tokens(r) == command_tokens(
                self.prefix().push("copy"@),
                file_copy_rules(),
                opts@,
                seq![source@, destination@],
            ),
    {
        let mut cli = self.cli();
        push_token(&mut cli, "copy");
        let rules = vec![
            OptionRule::switch(names1("help"), "--help"),
            OptionRule::value(names2("recheck-method", "recheck_method"), "--recheck-method"),
            OptionRule::switch(names1("force"), "--force"),
            OptionRule::switch(names1("no-recheck"), "--no-recheck"),
        ];
        assert(rule_views(rules@) =~= file_copy_rules());
        let ghost (s, d) = (source@, destination@);
        let paths = vec![source, destination];
        assert(views(paths@) =~= seq![s, d]);
        build_command(cli, &rules, opts, paths.as_slice())
    }

    /// The command line of `file move` from `source` to `destination`.
    pub fn mv(&self, source: String, destination: String, opts: &Options) -> (r: Result<Vec<String>, TranslateError>)
        ensures
            result_tokens(r) == command_tokens(
                self.prefix().push("move"@),
                file_mv_rules(),
                opts@,
                seq![source@, destination@],
            ),
    {
        let mut cli = self.cli();
        push_token(&mut cli, "move");
        let rules = vec![
            OptionRule::switch(names1("help"), "--help"),
            OptionRule::value(names2("recheck-method", "recheck_method"), "--recheck-method"),
            OptionRule::switch(names1("force"), "--force"),
            OptionRule::switch(names1("no-recheck"), "--no-recheck"),
        ];
        assert(rule_views(rules@) =~= file_mv_rules());
        let ghost (s, d) = (source@, destination@);
        let paths = vec![source, destination];
        assert(views(paths@) =~= seq![s, d]);
        build_command(cli, &rules, opts, paths.as_slice())
    }

    /// The command line of `file untrack` on `targets`.
    pub fn untrack(&self, targets: &[String], opts: &Options) -> (r: Result<Vec<String>, TranslateError>)
        ensures
            result_tokens(r) == command_tokens(
                self.prefix().push("untrack"@),
                file_untrack_rules(),
                opts@,
                views(targets@),
            ),
    {
        let mut cli = self.cli();
        push_token(&mut cli, "untrack");
        let rules = vec![
            OptionRule::switch(names1("help"), "--help"),
            OptionRule::value(names2("restore-versions", "restore_versions"), "--recheck-method"),
        ];
        assert(rule_views(rules@) =~= file_untrack_rules());
        build_command(cli, &rules, opts, targets)
    }

    /// The command line of `file remove` on `targets`.
    pub fn remove(&self, targets: &[String], opts: &Options) -> (r: Result<Vec<String>, TranslateError>)
        ensures
            result_tokens(r) == command_tokens(
                self.prefix().push("remove"@),
                file_remove_rules(),
                opts@,
                views(targets@),
            ),
    {
        let mut cli = self.cli();
        push_token(&mut cli, "remove");
        let rules = vec![
            OptionRule::switch(names1("help"), "--help"),
            OptionRule::switch(names1("force"), "--force"),
            OptionRule::switch(names2("from-cache", "from_cache"), "--from-cache"),
            OptionRule::value(names2("from-storage", "from_storage"), "--from-storage"),
            OptionRule::switch(names2("all_versions", "all-versions"), "--all-versions"),
            OptionRule::value(names2("only_version", "only-version"), "--only-version"),
        ];
        assert(rule_views(rules@) =~= file_remove_rules());
        build_command(cli, &rules, opts, targets)
    }

    /// The command line of `file share` on `targets`.
    pub fn share(&self, targets: &[String], opts: &Options) -> (r: Result<Vec<String>, TranslateError>)
        ensures
            result_tokens(r) == command_tokens(
                self.prefix().push("share"@),
                file_share_rules(),
                opts@,
                views(targets@),
            ),
    {
        let mut cli = self.cli();
        push_token(&mut cli, "share");
        let rules = vec![
            OptionRule::switch(names1("help"), "--help"),
            OptionRule::value(names2("remote", "storage"), "--storage"),
            OptionRule::value(names1("duration"), "--duration"),
        ];
        assert(rule_views(rules@) =~= file_share_rules());
        build_command(cli, &rules, opts, targets)
    }
}

} // verus!
