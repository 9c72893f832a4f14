//! The `pipeline` commands and the commands of its steps.

use vstd::prelude::*;

use crate::options::{
    build_command, command_tokens, names1, names2, names3, pair_rule, push_token, result_tokens,
    rule_views, switch_rule, value_rule, views, OptionRule, Options, RuleSpec, TranslateError,
};
use crate::session::{copy_text, push_value, value_seg, Xvc};

verus! {

/// The option table of `pipeline new`.
pub open spec fn pipeline_new_rules() -> Seq<RuleSpec> {
    seq![
        switch_rule(seq!["help"@], "--help"@),
        value_rule(seq!["name"@, "pipeline_name"@, "pipeline-name"@], "--pipeline-name"@),
        value_rule(seq!["workdir"@], "--workdir"@),
    ]
}

/// The option table of `pipeline update`.
pub open spec fn pipeline_update_rules() -> Seq<RuleSpec> {
    seq![
        switch_rule(seq!["help"@], "--help"@),
        value_rule(seq!["name"@, "pipeline_name"@, "pipeline-name"@], "--pipeline-name"@),
        value_rule(seq!["rename"@], "--rename"@),
        value_rule(seq!["workdir"@], "--workdir"@),
        switch_rule(seq!["set_default"@, "set-default"@], "--set-default"@),
    ]
}

/// The option table of `pipeline delete`.
pub open spec fn pipeline_delete_rules() -> Seq<RuleSpec> {
    seq![
        switch_rule(seq!["help"@], "--help"@),
        value_rule(seq!["name"@, "pipeline_name"@, "pipeline-name"@], "--pipeline-name"@),
    ]
}

/// The option table of `pipeline run`.
pub open spec fn pipeline_run_rules() -> Seq<RuleSpec> {
    seq![
        switch_rule(seq!["help"@], "--help"@),
        value_rule(seq!["name"@, "pipeline_name"@, "pipeline-name"@], "--pipeline-name"@),
    ]
}

/// The option table of `pipeline list`.
pub open spec fn pipeline_list_rules() -> Seq<RuleSpec> {
    seq![
        switch_rule(seq!["help"@], "--help"@),
    ]
}

/// The option table of `pipeline dag`.
pub open spec fn pipeline_dag_rules() -> Seq<RuleSpec> {
    seq![
        switch_rule(seq!["help"@], "--help"@),
        value_rule(seq!["name"@, "pipeline_name"@, "pipeline-name"@], "--pipeline-name"@),
        value_rule(seq!["file"@], "--file"@),
        value_rule(seq!["format"@], "--format"@),
    ]
}

/// The option table of `pipeline export`.
pub open spec fn pipeline_export_rules() -> Seq<RuleSpec> {
    seq![
        switch_rule(seq!["help"@], "--help"@),
        value_rule(seq!["name"@, "pipeline_name"@, "pipeline-name"@], "--pipeline-name"@),
        value_rule(seq!["file"@], "--file"@),
        value_rule(seq!["format"@], "--format"@),
    ]
}

/// The option table of `pipeline import`.
pub open spec fn pipeline_import_pipeline_rules() -> Seq<RuleSpec> {
    seq![
        switch_rule(seq!["help"@], "--help"@),
        value_rule(seq!["name"@, "pipeline_name"@, "pipeline-name"@], "--pipeline-name"@),
        value_rule(seq!["file"@], "--file"@),
        value_rule(seq!["format"@], "--format"@),
        switch_rule(seq!["overwrite"@], "--overwrite"@),
    ]
}

/// The option table of `pipeline step new`.
pub open spec fn step_new_rules() -> Seq<RuleSpec> {
    seq![
        switch_rule(seq!["help"@], "--help"@),
        value_rule(seq!["name"@, "step_name"@, "step-name"@], "--step-name"@),
        value_rule(seq!["command"@], "--command"@),
        value_rule(seq!["when"@], "--when"@),
    ]
}

/// The option table of `pipeline step update`.
pub open spec fn step_update_rules() -> Seq<RuleSpec> {
    seq![
        switch_rule(seq!["help"@], "--help"@),
        value_rule(seq!["name"@, "step_name"@, "step-name"@], "--step-name"@),
        value_rule(seq!["command"@], "--command"@),
        value_rule(seq!["when"@], "--when"@),
    ]
}

/// The option table of `pipeline step dependency`.
pub open spec fn step_dependency_rules() -> Seq<RuleSpec> {
    seq![
        switch_rule(seq!["help"@], "--help"@),
        switch_rule(seq!["no_recheck"@], "--no-recheck"@),
        value_rule(seq!["name"@, "step_name"@, "step-name"@], "--step-name"@),
        value_rule(seq!["file"@], "--file"@),
        value_rule(seq!["url"@], "--url"@),
        value_rule(seq!["glob"@], "--glob"@),
        value_rule(seq!["glob_items"@], "--glob-items"@),
        value_rule(seq!["step"@], "--step"@),
        value_rule(seq!["param"@], "--param"@),
        value_rule(seq!["regex"@], "--regex"@),
        value_rule(seq!["regex_items"@], "--regex-items"@),
        value_rule(seq!["line"@, "lines"@], "--line"@),
        value_rule(seq!["line_items"@], "--line-items"@),
        value_rule(seq!["generic"@], "--generic"@),
        pair_rule("sqlite_file"@, "sqlite_query"@, "--sqlite-query"@),
    ]
}

/// The option table of `pipeline step output`.
pub open spec fn step_output_rules() -> Seq<RuleSpec> {
    seq![
        switch_rule(seq!["help"@], "--help"@),
        switch_rule(seq!["no-recheck"@], "--no-recheck"@),
        value_rule(seq!["name"@, "step_name"@, "step-name"@], "--step-name"@),
        value_rule(seq!["file"@], "--output-file"@),
        value_rule(seq!["metric"@], "--output-metric"@),
        value_rule(seq!["image"@], "--output-images"@),
    ]
}

/// The option table of `pipeline step list`.
pub open spec fn step_list_rules() -> Seq<RuleSpec> {
    seq![
        switch_rule(seq!["help"@], "--help"@),
        switch_rule(seq!["names_only"@], "--names-only"@),
    ]
}

/// The option table of `pipeline step show`.
pub open spec fn step_show_rules() -> Seq<RuleSpec> {
    seq![
        switch_rule(seq!["help"@], "--help"@),
        value_rule(seq!["name"@, "step_name"@, "step-name"@], "--step-name"@),
    ]
}

/// The `pipeline` commands of a session, on the named pipeline or the
/// default one.
#[derive(Debug, Clone)]
pub struct XvcPipeline {
    pub xvc_opts: Xvc,
    pub pipeline_name: Option<String>,
}

impl XvcPipeline {
    /// The `pipeline` commands of `xvc_opts` on `pipeline_name`.
    pub fn init(xvc_opts: &Xvc, pipeline_name: Option<String>) -> (r: XvcPipeline)
        ensures
            r.xvc_opts == *xvc_opts,
            r.pipeline_name == pipeline_name,
    {
        XvcPipeline { xvc_opts: xvc_opts.duplicate(), pipeline_name }
    }

    /// The tokens that every `pipeline` command starts with.
    pub open spec fn prefix(&self) -> Seq<Seq<char>> {
        self.xvc_opts.prefix().push("pipeline"@) + value_seg(self.pipeline_name, "--pipeline-name"@)
    }

    pub fn cli(&self) -> (r: Vec<String>)
        ensures
            views(r@) == self.prefix(),
    {
        let mut cli = self.xvc_opts.cli();
        push_token(&mut cli, "pipeline");
        push_value(&mut cli, &self.pipeline_name, "--pipeline-name");
        cli
    }

    /// The commands of the steps of this pipeline.
    pub fn step(&self) -> (r: XvcPipelineStep)
        ensures
            r.xvc_pipeline_opts == *self,
    {
        XvcPipelineStep {
            xvc_pipeline_opts: XvcPipeline {
                xvc_opts: self.xvc_opts.duplicate(),
                pipeline_name: copy_text(&self.pipeline_name),
            },
        }
    }

    /// The command line of `pipeline new`.
    pub fn new(&self, opts: &Options) -> (r: Result<Vec<String>, TranslateError>)
        ensures
            result_tokens(r) == command_tokens(
                self.prefix().push("new"@),
                pipeline_new_rules(),
                opts@,
                Seq::empty(),
            ),
    {
        let mut cli = self.cli();
        push_token(&mut cli, "new");
        let rules = vec![
            OptionRule::switch(names1("help"), "--help"),
            OptionRule::value(names3("name", "pipeline_name", "pipeline-name"), "--pipeline-name"),
            OptionRule::value(names1("workdir"), "--workdir"),
        ];
        assert(rule_views(rules@) =~= pipeline_new_rules());
        let none: Vec<String> = Vec::new();
        assert(views(none@) =~= Seq::<Seq<char>>::empty());
        build_command(cli, &rules, opts, none.as_slice())
    }

    /// The command line of `pipeline update`.
    pub fn update(&self, opts: &Options) -> (r: Result<Vec<String>, TranslateError>)
        ensures
            result_tokens(r) == command_tokens(
                self.prefix().push("update"@),
                pipeline_update_rules(),
                opts@,
                Seq::empty(),
            ),
    {
        let mut cli = self.cli();
        push_token(&mut cli, "update");
        let rules = vec![
            OptionRule::switch(names1("help"), "--help"),
            OptionRule::value(names3("name", "pipeline_name", "pipeline-name"), "--pipeline-name"),
            OptionRule::value(names1("rename"), "--rename"),
            OptionRule::value(names1("workdir"), "--workdir"),
            OptionRule::switch(names2("set_default", "set-default"), "--set-default"),
        ];
        assert(rule_views(rules@) =~= pipeline_update_rules());
        let none: Vec<String> = Vec::new();
        assert(views(none@) =~= Seq::<Seq<char>>::empty());
        build_command(cli, &rules, opts, none.as_slice())
    }

    /// The command line of `pipeline delete`.
    pub fn delete(&self, opts: &Options) -> (r: Result<Vec<String>, TranslateError>)
        ensures
            result_tokens(r) == command_tokens(
                self.prefix().push("delete"@),
                pipeline_delete_rules(),
                opts@,
                Seq::empty(),
            ),
    {
        let mut cli = self.cli();
        push_token(&mut cli, "delete");
        let rules = vec![
            OptionRule::switch(names1("help"), "--help"),
            OptionRule::value(names3("name", "pipeline_name", "pipeline-name"), "--pipeline-name"),
        ];
        assert(rule_views(rules@) =~= pipeline_delete_rules());
        let none: Vec<String> = Vec::new();
        assert(views(none@) =~= Seq::<Seq<char>>::empty());
        build_command(cli, &rules, opts, none.as_slice())
    }

    /// The command line of `pipeline run`.
    pub fn run(&self, opts: &Options) -> (r: Result<Vec<String>, TranslateError>)
        ensures
            result_tokens(r) == command_tokens(
                self.prefix().push("run"@),
                pipeline_run_rules(),
                opts@,
                Seq::empty(),
            ),
    {
        let mut cli = self.cli();
        push_token(&mut cli, "run");
        let rules = vec![
            OptionRule::switch(names1("help"), "--help"),
            OptionRule::value(names3("name", "pipeline_name", "pipeline-name"), "--pipeline-name"),
        ];
        assert(rule_views(rules@) =~= pipeline_run_rules());
        let none: Vec<String> = Vec::new();
        assert(views(none@) =~= Seq::<Seq<char>>::empty());
        build_command(cli, &rules, opts, none.as_slice())
    }

    /// The command line of `pipeline list`.
    pub fn list(&self, opts: &Options) -> (r: Result<Vec<String>, TranslateError>)
        ensures
            result_tokens(r) == command_tokens(
                self.prefix().push("list"@),
                pipeline_list_rules(),
                opts@,
                Seq::empty(),
            ),
    {
        let mut cli = self.cli();
        push_token(&mut cli, "list");
        let rules = vec![
            OptionRule::switch(names1("help"), "--help"),
        ];
        assert(rule_views(rules@) =~= pipeline_list_rules());
        let none: Vec<String> = Vec::new();
        assert(views(none@) =~= Seq::<Seq<char>>::empty());
        build_command(cli, &rules, opts, none.as_slice())
    }

    /// The command line of `pipeline dag`.
    pub fn dag(&self, opts: &Options) -> (r: Result<Vec<String>, TranslateError>)
        ensures
            result_tokens(r) == command_tokens(
                self.prefix().push("dag"@),
                pipeline_dag_rules(),
                opts@,
                Seq::empty(),
            ),
    {
        let mut cli = self.cli();
        push_token(&mut cli, "dag");
        let rules = vec![
            OptionRule::switch(names1("help"), "--help"),
            OptionRule::value(names3("name", "pipeline_name", "pipeline-name"), "--pipeline-name"),
            OptionRule::value(names1("file"), "--file"),
            OptionRule::value(names1("format"), "--format"),
        ];
        assert(rule_views(rules@) =~= pipeline_dag_rules());
        let none: Vec<String> = Vec::new();
        assert(views(none@) =~= Seq::<Seq<char>>::empty());
        build_command(cli, &rules, opts, none.as_slice())
    }

    /// The command line of `pipeline export`.
    pub fn export(&self, opts: &Options) -> (r: Result<Vec<String>, TranslateError>)
        ensures
            result_tokens(r) == command_tokens(
                self.prefix().push("export"@),
                pipeline_export_rules(),
                opts@,
                Seq::empty(),
            ),
    {
        let mut cli = self.cli();
        push_token(&mut cli, "export");
        let rules = vec![
            OptionRule::switch(names1("help"), "--help"),
            OptionRule::value(names3("name", "pipeline_name", "pipeline-name"), "--pipeline-name"),
            OptionRule::value(names1("file"), "--file"),
            OptionRule::value(names1("format"), "--format"),
        ];
        assert(rule_views(rules@) =~= pipeline_export_rules());
        let none: Vec<String> = Vec::new();
        assert(views(none@) =~= Seq::<Seq<char>>::empty());
        build_command(cli, &rules, opts, none.as_slice())
    }

    /// The command line of `pipeline import`.
    pub fn import_pipeline(&self, opts: &Options) -> (r: Result<Vec<String>, TranslateError>)
        ensures
            result_tokens(r) == command_tokens(
                self.prefix().push("import"@),
                pipeline_import_pipeline_rules(),
                opts@,
                Seq::empty(),
            ),
    {
        let mut cli = self.cli();
        push_token(&mut cli, "import");
        let rules = vec![
            OptionRule::switch(names1("help"), "--help"),
            OptionRule::value(names3("name", "pipeline_name", "pipeline-name"), "--pipeline-name"),
            OptionRule::value(names1("file"), "--file"),
            OptionRule::value(names1("format"), "--format"),
            OptionRule::switch(names1("overwrite"), "--overwrite"),
        ];
        assert(rule_views(rules@) =~= pipeline_import_pipeline_rules());
        let none: Vec<String> = Vec::new();
        assert(views(none@) =~= Seq::<Seq<char>>::empty());
        build_command(cli, &rules, opts, none.as_slice())
    }
}

/// The `pipeline step` commands of a pipeline.
#[derive(Debug, Clone)]
pub struct XvcPipelineStep {
    pub xvc_pipeline_opts: XvcPipeline,
}

impl XvcPipelineStep {
    /// The tokens that every `pipeline step` command starts with.
    pub open spec fn prefix(&self) -> Seq<Seq<char>> {
        self.xvc_pipeline_opts.prefix().push("step"@)
    }

    pub fn cli(&self) -> (r: Vec<String>)
        ensures
            views(r@) == self.prefix(),
    {
        let mut cli = self.xvc_pipeline_opts.cli();
        push_token(&mut cli, "step");
        cli
    }

    /// The command line of `pipeline step new`.
    pub fn new(&self, opts: &Options) -> (r: Result<Vec<String>, TranslateError>)
        ensures
            result_tokens(r) == command_tokens(
                self.prefix().push("new"@),
                step_new_rules(),
                opts@,
                Seq::empty(),
            ),
    {
        let mut cli = self.cli();
        push_token(&mut cli, "new");
        let rules = vec![
            OptionRule::switch(names1("help"), "--help"),
            OptionRule::value(names3("name", "step_name", "step-name"), "--step-name"),
            OptionRule::value(names1("command"), "--command"),
            OptionRule::value(names1("when"), "--when"),
        ];
        assert(rule_views(rules@) =~= step_new_rules());
        let none: Vec<String> = Vec::new();
        assert(views(none@) =~= Seq::<Seq<char>>::empty());
        build_command(cli, &rules, opts, none.as_slice())
    }

    /// The command line of `pipeline step update`.
    pub fn update(&self, opts: &Options) -> (r: Result<Vec<String>, TranslateError>)
        ensures
            result_tokens(r) == command_tokens(
                self.prefix().push("update"@),
                step_update_rules(),
                opts@,
                Seq::empty(),
            ),
    {
        let mut cli = self.cli();
        push_token(&mut cli, "update");
        let rules = vec![
            OptionRule::switch(names1("help"), "--help"),
            OptionRule::value(names3("name", "step_name", "step-name"), "--step-name"),
            OptionRule::value(names1("command"), "--command"),
            OptionRule::value(names1("when"), "--when"),
        ];
        assert(rule_views(rules@) =~= step_update_rules());
        let none: Vec<String> = Vec::new();
        assert(views(none@) =~= Seq::<Seq<char>>::empty());
        build_command(cli, &rules, opts, none.as_slice())
    }

    /// The command line of `pipeline step dependency`.
    #[verifier::rlimit(30)]
    pub fn dependency(&self, opts: &Options) -> (r: Result<Vec<String>, TranslateError>)
        ensures
            result_tokens(r) == command_tokens(
                self.prefix().push("dependency"@),
                step_dependency_rules(),
                opts@,
                Seq::empty(),
            ),
    {
        let mut cli = self.cli();
        push_token(&mut cli, "dependency");
        let rules = vec![
            OptionRule::switch(names1("help"), "--help"),
            OptionRule::switch(names1("no_recheck"), "--no-recheck"),
            OptionRule::value(names3("name", "step_name", "step-name"), "--step-name"),
            OptionRule::value(names1("file"), "--file"),
            OptionRule::value(names1("url"), "--url"),
            OptionRule::value(names1("glob"), "--glob"),
            OptionRule::value(names1("glob_items"), "--glob-items"),
            OptionRule::value(names1("step"), "--step"),
            OptionRule::value(names1("param"), "--param"),
            OptionRule::value(names1("regex"), "--regex"),
            OptionRule::value(names1("regex_items"), "--regex-items"),
            OptionRule::value(names2("line", "lines"), "--line"),
            OptionRule::value(names1("line_items"), "--line-items"),
            OptionRule::value(names1("generic"), "--generic"),
            OptionRule::pair("sqlite_file", "sqlite_query", "--sqlite-query"),
        ];
        assert(rule_views(rules@) =~= step_dependency_rules());
        let none: Vec<String> = Vec::new();
        assert(views(none@) =~= Seq::<Seq<char>>::empty());
        build_command(cli, &rules, opts, none.as_slice())
    }

    /// The command line of `pipeline step output`.
    pub fn output(&self, opts: &Options) -> (r: Result<Vec<String>, TranslateError>)
        ensures
            result_tokens(r) == command_tokens(
                self.prefix().push("output"@),
                step_output_rules(),
                opts@,
                Seq::empty(),
            ),
    {
        let mut cli = self.cli();
        push_token(&mut cli, "output");
        let rules = vec![
            OptionRule::switch(names1("help"), "--help"),
            OptionRule::switch(names1("no-recheck"), "--no-recheck"),
            OptionRule::value(names3("name", "step_name", "step-name"), "--step-name"),
            OptionRule::value(names1("file"), "--output-file"),
            OptionRule::value(names1("metric"), "--output-metric"),
            OptionRule::value(names1("image"), "--output-images"),
        ];
        assert(rule_views(rules@) =~= step_output_rules());
        let none: Vec<String> = Vec::new();
        assert(views(none@) =~= Seq::<Seq<char>>::empty());
        build_command(cli, &rules, opts, none.as_slice())
    }

    /// The command line of `pipeline step list`.
    pub fn list(&self, opts: &Options) -> (r: Result<Vec<String>, TranslateError>)
        ensures
            result_tokens(r) == command_tokens(
                self.prefix().push("list"@),
                step_list_rules(),
                opts@,
                Seq::empty(),
            ),
    {
        let mut cli = self.cli();
        push_token(&mut cli, "list");
        let rules = vec![
            OptionRule::switch(names1("help"), "--help"),
            OptionRule::switch(names1("names_only"), "--names-only"),
        ];
        assert(rule_views(rules@) =~= step_list_rules());
        let none: Vec<String> = Vec::new();
        assert(views(none@) =~= Seq::<Seq<char>>::empty());
        build_command(cli, &rules, opts, none.as_slice())
    }

    /// The command line of `pipeline step show`.
    pub fn show(&self, opts: &Options) -> (r: Result<Vec<String>, TranslateError>)
        ensures
            result_tokens(r) == command_tokens(
                self.prefix().push("show"@),
                step_show_rules(),
                opts@,
                Seq::empty(),
            ),
    {
        let mut cli = self.cli();
        push_token(&mut cli, "show");
        let rules = vec![
            OptionRule::switch(names1("help"), "--help"),
            OptionRule::value(names3("name", "step_name", "step-name"), "--step-name"),
        ];
        assert(rule_views(rules@) =~= step_show_rules());
        let none: Vec<String> = Vec::new();
        assert(views(none@) =~= Seq::<Seq<char>>::empty());
        build_command(cli, &rules, opts, none.as_slice())
    }
}

} // verus!
