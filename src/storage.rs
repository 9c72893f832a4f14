//! The `storage` commands.

use vstd::prelude::*;

use crate::options::{
    build_command, command_tokens, names1, names2, names3, push_token, result_tokens, rule_views,
    switch_rule, value_rule, views, OptionRule, Options, RuleSpec, TranslateError,
};
use crate::session::Xvc;

verus! {

/// The option table of `storage list`.
pub open spec fn storage_list_rules() -> Seq<RuleSpec> {
    seq![
        switch_rule(seq!["help"@], "--help"@),
    ]
}

/// The option table of `storage remove`.
pub open spec fn storage_remove_rules() -> Seq<RuleSpec> {
    seq![
        switch_rule(seq!["help"@], "--help"@),
    ]
}

/// The option table of `storage new local`.
pub open spec fn storage_new_local_rules() -> Seq<RuleSpec> {
    seq![
        switch_rule(seq!["help"@], "--help"@),
        value_rule(seq!["name"@], "--name"@),
        value_rule(seq!["path"@], "--path"@),
    ]
}

/// The option table of `storage new generic`.
pub open spec fn storage_new_generic_rules() -> Seq<RuleSpec> {
    seq![
        switch_rule(seq!["help"@], "--help"@),
        value_rule(seq!["name"@], "--name"@),
        value_rule(seq!["init"@, "init_command"@, "init-command"@], "--init"@),
        value_rule(seq!["list"@, "list_command"@, "list-command"@], "--list"@),
        value_rule(seq!["download"@, "download_command"@, "download-command"@], "--download"@),
        value_rule(seq!["upload"@, "upload_command"@, "upload-command"@], "--upload"@),
        value_rule(seq!["delete"@, "delete_command"@, "delete-command"@], "--delete"@),
        value_rule(seq!["processes"@, "max_processes"@, "max-processes"@], "--processes"@),
        value_rule(seq!["url"@], "--url"@),
        value_rule(seq!["storage_dir"@, "storage-dir"@], "--storage-dir"@),
    ]
}

/// The option table of `storage new rsync`.
pub open spec fn storage_new_rsync_rules() -> Seq<RuleSpec> {
    seq![
        switch_rule(seq!["help"@], "--help"@),
        value_rule(seq!["name"@], "--name"@),
        value_rule(seq!["host"@], "--host"@),
        value_rule(seq!["port"@], "--port"@),
        value_rule(seq!["user"@], "--user"@),
        value_rule(seq!["storage_dir"@, "storage-dir"@], "--storage-dir"@),
    ]
}

/// The option table of `storage new s3`.
pub open spec fn storage_new_s3_rules() -> Seq<RuleSpec> {
    seq![
        switch_rule(seq!["help"@], "--help"@),
        value_rule(seq!["name"@], "--name"@),
        value_rule(seq!["storage_prefix"@, "storage-prefix"@], "--storage-prefix"@),
        value_rule(seq!["bucket_name"@, "bucket-name"@], "--bucket-name"@),
        value_rule(seq!["region"@], "--region"@),
    ]
}

/// The option table of `storage new minio`.
pub open spec fn storage_new_minio_rules() -> Seq<RuleSpec> {
    seq![
        switch_rule(seq!["help"@], "--help"@),
        value_rule(seq!["name"@], "--name"@),
        value_rule(seq!["storage_prefix"@, "storage-prefix"@], "--storage-prefix"@),
        value_rule(seq!["bucket_name"@, "bucket-name"@], "--bucket-name"@),
        value_rule(seq!["endpoint"@], "--endpoint"@),
        value_rule(seq!["region"@], "--region"@),
    ]
}

/// The option table of `storage new digital-ocean`.
pub open spec fn storage_new_digital_ocean_rules() -> Seq<RuleSpec> {
    seq![
        switch_rule(seq!["help"@], "--help"@),
        value_rule(seq!["name"@], "--name"@),
        value_rule(seq!["storage_prefix"@, "storage-prefix"@], "--storage-prefix"@),
        value_rule(seq!["bucket_name"@, "bucket-name"@], "--bucket-name"@),
        value_rule(seq!["region"@], "--region"@),
    ]
}

/// The option table of `storage new r2`.
pub open spec fn storage_new_r2_rules() -> Seq<RuleSpec> {
    seq![
        switch_rule(seq!["help"@], "--help"@),
        value_rule(seq!["name"@], "--name"@),
        value_rule(seq!["storage_prefix"@, "storage-prefix"@], "--storage-prefix"@),
        value_rule(seq!["account_id"@, "account-id"@], "--account-id"@),
        value_rule(seq!["bucket_name"@, "bucket-name"@], "--bucket-name"@),
    ]
}

/// The option table of `storage new gcs`.
pub open spec fn storage_new_gcs_rules() -> Seq<RuleSpec> {
    seq![
        switch_rule(seq!["help"@], "--help"@),
        value_rule(seq!["name"@], "--name"@),
        value_rule(seq!["storage_prefix"@, "storage-prefix"@], "--storage-prefix"@),
        value_rule(seq!["bucket_name"@, "bucket-name"@], "--bucket-name"@),
        value_rule(seq!["region"@], "--region"@),
    ]
}

/// The option table of `storage new wasabi`.
pub open spec fn storage_new_wasabi_rules() -> Seq<RuleSpec> {
    seq![
        switch_rule(seq!["help"@], "--help"@),
        value_rule(seq!["name"@], "--name"@),
        value_rule(seq!["storage_prefix"@, "storage-prefix"@], "--storage-prefix"@),
        value_rule(seq!["bucket_name"@, "bucket-name"@], "--bucket-name"@),
        value_rule(seq!["endpoint"@], "--endpoint"@),
    ]
}

/// The `storage` commands of a session.
#[derive(Debug, Clone)]
pub struct XvcStorage {
    pub xvc_opts: Xvc,
}

impl XvcStorage {
    /// The `storage` commands of `xvc_opts`.
    pub fn init(xvc_opts: &Xvc) -> (r: XvcStorage)
        ensures
            r.xvc_opts == *xvc_opts,
    {
        XvcStorage { xvc_opts: xvc_opts.duplicate() }
    }

    /// The tokens that every `storage` command starts with.
    pub open spec fn prefix(&self) -> Seq<Seq<char>> {
        self.xvc_opts.prefix().push("storage"@)
    }

    pub fn cli(&self) -> (r: Vec<String>)
        ensures
            views(r@) == self.prefix(),
    {
        let mut cli = self.xvc_opts.cli();
        push_token(&mut cli, "storage");
        cli
    }

    /// The command line of `storage list`.
    pub fn list(&self, opts: &Options) -> (r: Result<Vec<String>, TranslateError>)
        ensures
            result_tokens(r) == command_tokens(
                self.prefix().push("list"@),
                storage_list_rules(),
                opts@,
                Seq::empty(),
            ),
    {
        let mut cli = self.cli();
        push_token(&mut cli, "list");
        let rules = vec![
            OptionRule::switch(names1("help"), "--help"),
        ];
        assert(rule_views(rules@) =~= storage_list_rules());
        let none: Vec<String> = Vec::new();
        assert(views(none@) =~= Seq::<Seq<char>>::empty());
        build_command(cli, &rules, opts, none.as_slice())
    }

    /// The command line of `storage remove` of the storage `name`.
    pub fn remove(&self, name: &str, opts: &Options) -> (r: Result<Vec<String>, TranslateError>)
        ensures
            result_tokens(r) == command_tokens(
                self.prefix().push("remove"@),
                storage_remove_rules(),
                opts@,
                seq![name@],
            ),
    {
        let mut cli = self.cli();
        push_token(&mut cli, "remove");
        let rules = vec![
            OptionRule::switch(names1("help"), "--help"),
        ];
        assert(rule_views(rules@) =~= storage_remove_rules());
        let names = names1(name);
        build_command(cli, &rules, opts, names.as_slice())
    }

    /// The command line of `storage new local`.
    pub fn new_local(&self, opts: &Options) -> (r: Result<Vec<String>, TranslateError>)
        ensures
            result_tokens(r) == command_tokens(
                self.prefix().push("new"@).push("local"@),
                storage_new_local_rules(),
                opts@,
                Seq::empty(),
            ),
    {
        let mut cli = self.cli();
        push_token(&mut cli, "new");
        push_token(&mut cli, "local");
        let rules = vec![
            OptionRule::switch(names1("help"), "--help"),
            OptionRule::value(names1("name"), "--name"),
            OptionRule::value(names1("path"), "--path"),
        ];
        assert(rule_views(rules@) =~= storage_new_local_rules());
        let none: Vec<String> = Vec::new();
        assert(views(none@) =~= Seq::<Seq<char>>::empty());
        build_command(cli, &rules, opts, none.as_slice())
    }

    /// The command line of `storage new generic`.
    pub fn new_generic(&self, opts: &Options) -> (r: Result<Vec<String>, TranslateError>)
        ensures
            result_tokens(r) == command_tokens(
                self.prefix().push("new"@).push("generic"@),
                storage_new_generic_rules(),
                opts@,
                Seq::empty(),
            ),
    {
        let mut cli = self.cli();
        push_token(&mut cli, "new");
        push_token(&mut cli, "generic");
        let rules = vec![
            OptionRule::switch(names1("help"), "--help"),
            OptionRule::value(names1("name"), "--name"),
            OptionRule::value(names3("init", "init_command", "init-command"), "--init"),
            OptionRule::value(names3("list", "list_command", "list-command"), "--list"),
            OptionRule::value(names3("download", "download_command", "download-command"), "--download"),
            OptionRule::value(names3("upload", "upload_command", "upload-command"), "--upload"),
            OptionRule::value(names3("delete", "delete_command", "delete-command"), "--delete"),
            OptionRule::value(names3("processes", "max_processes", "max-processes"), "--processes"),
            OptionRule::value(names1("url"), "--url"),
            OptionRule::value(names2("storage_dir", "storage-dir"), "--storage-dir"),
        ];
        assert(rule_views(rules@) =~= storage_new_generic_rules());
        let none: Vec<String> = Vec::new();
        assert(views(none@) =~= Seq::<Seq<char>>::empty());
        build_command(cli, &rules, opts, none.as_slice())
    }

    /// The command line of `storage new rsync`.
    pub fn new_rsync(&self, opts: &Options) -> (r: Result<Vec<String>, TranslateError>)
        ensures
            result_tokens(r) == command_tokens(
                self.prefix().push("new"@).push("rsync"@),
                storage_new_rsync_rules(),
                opts@,
                Seq::empty(),
            ),
    {
        let mut cli = self.cli();
        push_token(&mut cli, "new");
        push_token(&mut cli, "rsync");
        let rules = vec![
            OptionRule::switch(names1("help"), "--help"),
            OptionRule::value(names1("name"), "--name"),
            OptionRule::value(names1("host"), "--host"),
            OptionRule::value(names1("port"), "--port"),
            OptionRule::value(names1("user"), "--user"),
            OptionRule::value(names2("storage_dir", "storage-dir"), "--storage-dir"),
        ];
        assert(rule_views(rules@) =~= storage_new_rsync_rules());
        let none: Vec<String> = Vec::new();
        assert(views(none@) =~= Seq::<Seq<char>>::empty());
        build_command(cli, &rules, opts, none.as_slice())
    }

    /// The command line of `storage new s3`.
    pub fn new_s3(&self, opts: &Options) -> (r: Result<Vec<String>, TranslateError>)
        ensures
            result_tokens(r) == command_tokens(
                self.prefix().push("new"@).push("s3"@),
                storage_new_s3_rules(),
                opts@,
                Seq::empty(),
            ),
    {
        let mut cli = self.cli();
        push_token(&mut cli, "new");
        push_token(&mut cli, "s3");
        let rules = vec![
            OptionRule::switch(names1("help"), "--help"),
            OptionRule::value(names1("name"), "--name"),
            OptionRule::value(names2("storage_prefix", "storage-prefix"), "--storage-prefix"),
            OptionRule::value(names2("bucket_name", "bucket-name"), "--bucket-name"),
            OptionRule::value(names1("region"), "--region"),
        ];
        assert(rule_views(rules@) =~= storage_new_s3_rules());
        let none: Vec<String> = Vec::new();
        assert(views(none@) =~= Seq::<Seq<char>>::empty());
        build_command(cli, &rules, opts, none.as_slice())
    }

    /// The command line of `storage new minio`.
    pub fn new_minio(&self, opts: &Options) -> (r: Result<Vec<String>, TranslateError>)
        ensures
            result_tokens(r) == command_tokens(
                self.prefix().push("new"@).push("minio"@),
                storage_new_minio_rules(),
                opts@,
                Seq::empty(),
            ),
    {
        let mut cli = self.cli();
        push_token(&mut cli, "new");
        push_token(&mut cli, "minio");
        let rules = vec![
            OptionRule::switch(names1("help"), "--help"),
            OptionRule::value(names1("name"), "--name"),
            OptionRule::value(names2("storage_prefix", "storage-prefix"), "--storage-prefix"),
            OptionRule::value(names2("bucket_name", "bucket-name"), "--bucket-name"),
            OptionRule::value(names1("endpoint"), "--endpoint"),
            OptionRule::value(names1("region"), "--region"),
        ];
        assert(rule_views(rules@) =~= storage_new_minio_rules());
        let none: Vec<String> = Vec::new();
        assert(views(none@) =~= Seq::<Seq<char>>::empty());
        build_command(cli, &rules, opts, none.as_slice())
    }

    /// The command line of `storage new digital-ocean`.
    pub fn new_digital_ocean(&self, opts: &Options) -> (r: Result<Vec<String>, TranslateError>)
        ensures
            result_tokens(r) == command_tokens(
                self.prefix().push("new"@).push("digital-ocean"@),
                storage_new_digital_ocean_rules(),
                opts@,
                Seq::empty(),
            ),
    {
        let mut cli = self.cli();
        push_token(&mut cli, "new");
        push_token(&mut cli, "digital-ocean");
        let rules = vec![
            OptionRule::switch(names1("help"), "--help"),
            OptionRule::value(names1("name"), "--name"),
            OptionRule::value(names2("storage_prefix", "storage-prefix"), "--storage-prefix"),
            OptionRule::value(names2("bucket_name", "bucket-name"), "--bucket-name"),
            OptionRule::value(names1("region"), "--region"),
        ];
        assert(rule_views(rules@) =~= storage_new_digital_ocean_rules());
        let none: Vec<String> = Vec::new();
        assert(views(none@) =~= Seq::<Seq<char>>::empty());
        build_command(cli, &rules, opts, none.as_slice())
    }

    /// The command line of `storage new r2`.
    pub fn new_r2(&self, opts: &Options) -> (r: Result<Vec<String>, TranslateError>)
        ensures
            result_tokens(r) == command_tokens(
                self.prefix().push("new"@).push("r2"@),
                storage_new_r2_rules(),
                opts@,
                Seq::empty(),
            ),
    {
        let mut cli = self.cli();
        push_token(&mut cli, "new");
        push_token(&mut cli, "r2");
        let rules = vec![
            OptionRule::switch(names1("help"), "--help"),
            OptionRule::value(names1("name"), "--name"),
            OptionRule::value(names2("storage_prefix", "storage-prefix"), "--storage-prefix"),
            OptionRule::value(names2("account_id", "account-id"), "--account-id"),
            OptionRule::value(names2("bucket_name", "bucket-name"), "--bucket-name"),
        ];
        assert(rule_views(rules@) =~= storage_new_r2_rules());
        let none: Vec<String> = Vec::new();
        assert(views(none@) =~= Seq::<Seq<char>>::empty());
        build_command(cli, &rules, opts, none.as_slice())
    }

    /// The command line of `storage new gcs`.
    pub fn new_gcs(&self, opts: &Options) -> (r: Result<Vec<String>, TranslateError>)
        ensures
            result_tokens(r) == command_tokens(
                self.prefix().push("new"@).push("gcs"@),
                storage_new_gcs_rules(),
                opts@,
                Seq::empty(),
            ),
    {
        let mut cli = self.cli();
        push_token(&mut cli, "new");
        push_token(&mut cli, "gcs");
        let rules = vec![
            OptionRule::switch(names1("help"), "--help"),
            OptionRule::value(names1("name"), "--name"),
            OptionRule::value(names2("storage_prefix", "storage-prefix"), "--storage-prefix"),
            OptionRule::value(names2("bucket_name", "bucket-name"), "--bucket-name"),
            OptionRule::value(names1("region"), "--region"),
        ];
        assert(rule_views(rules@) =~= storage_new_gcs_rules());
        let none: Vec<String> = Vec::new();
        assert(views(none@) =~= Seq::<Seq<char>>::empty());
        build_command(cli, &rules, opts, none.as_slice())
    }

    /// The command line of `storage new wasabi`.
    pub fn new_wasabi(&self, opts: &Options) -> (r: Result<Vec<String>, TranslateError>)
        ensures
            result_tokens(r) == command_tokens(
                self.prefix().push("new"@).push("wasabi"@),
                storage_new_wasabi_rules(),
                opts@,
                Seq::empty(),
            ),
    {
        let mut cli = self.cli();
        push_token(&mut cli, "new");
        push_token(&mut cli, "wasabi");
        let rules = vec![
            OptionRule::switch(names1("help"), "--help"),
            OptionRule::value(names1("name"), "--name"),
            OptionRule::value(names2("storage_prefix", "storage-prefix"), "--storage-prefix"),
            OptionRule::value(names2("bucket_name", "bucket-name"), "--bucket-name"),
            OptionRule::value(names1("endpoint"), "--endpoint"),
        ];
        assert(rule_views(rules@) =~= storage_new_wasabi_rules());
        let none: Vec<String> = Vec::new();
        assert(views(none@) =~= Seq::<Seq<char>>::empty());
        build_command(cli, &rules, opts, none.as_slice())
    }
}

} // verus!
