//! Keyword arguments and their translation into command-line tokens.

use vstd::prelude::*;

verus! {

/// The value given for one keyword argument.
#[derive(Debug, Clone, PartialEq, Eq)]
pub enum OptValue {
    Bool(bool),
    Text(String),
}

/// The mathematical form of an [`OptValue`].
pub enum OptVal {
    Bool(bool),
    Text(Seq<char>),
}

impl View for OptValue {
    type V = OptVal;

    open spec fn view(&self) -> OptVal {
        match self {
            OptValue::Bool(b) => OptVal::Bool(*b),
            OptValue::Text(s) => OptVal::Text(s@),
        }
    }
}

/// One named keyword argument.
pub struct OptEntry {
    pub name: String,
    pub value: OptValue,
}

/// A set of keyword arguments: a finite map from names to values.
pub struct Options {
    entries: Vec<OptEntry>,
    contents: Ghost<Map<Seq<char>, OptVal>>,
}

impl View for Options {
    type V = Map<Seq<char>, OptVal>;

    closed spec fn view(&self) -> Map<Seq<char>, OptVal> {
        self.contents@
    }
}

impl Options {
    #[verifier::type_invariant]
    closed spec fn well_formed(&self) -> bool {
        &&& forall|i: int|
            0 <= i < self.entries@.len() ==> #[trigger] self.contents@.contains_key(
                self.entries@[i].name@,
            ) && self.contents@[self.entries@[i].name@] == self.entries@[i].value@
        &&& forall|k: Seq<char>|
            #[trigger] self.contents@.contains_key(k) ==> exists|i: int|
                0 <= i < self.entries@.len() && #[trigger] self.entries@[i].name@ == k
        &&& forall|i: int, j: int|
            0 <= i < self.entries@.len() && 0 <= j < self.entries@.len() && i != j
                ==> #[trigger] self.entries@[i].name@ != #[trigger] self.entries@[j].name@
    }

    /// No keyword arguments.
    pub fn new() -> (r: Options)
        ensures
            r@ == Map::<Seq<char>, OptVal>::empty(),
    {
        Options { entries: Vec::new(), contents: Ghost(Map::empty()) }
    }

    /// The position of `name` among the entries, if it is there.
    fn position(&self, name: &String) -> (r: Option<usize>)
        ensures
            match r {
                Some(i) => i < self.entries@.len() && self.entries@[i as int].name@ == name@,
                None => !self@.contains_key(name@),
            },
    {
        proof {
            use_type_invariant(self);
        }
        let mut i: usize = 0;
        while i < self.entries.len()
            invariant
                i <= self.entries@.len(),
                forall|j: int| 0 <= j < i ==> self.entries@[j].name@ != name@,
            decreases self.entries@.len() - i,
        {
            if self.entries[i].name == *name {
                return Some(i);
            }
            i = i + 1;
        }
        None
    }

    /// The value given for `name`.
    pub fn get(&self, name: &String) -> (r: Option<&OptValue>)
        ensures
            match r {
                Some(v) => self@.contains_key(name@) && self@[name@] == v@,
                None => !self@.contains_key(name@),
            },
    {
        proof {
            use_type_invariant(self);
        }
        match self.position(name) {
            Some(i) => {
                assert(self.contents@.contains_key(self.entries@[i as int].name@));
                Some(&self.entries[i].value)
            },
            None => None,
        }
    }

    /// These arguments with `name` set to `value`, replacing what it held.
    pub fn set(self, name: String, value: OptValue) -> (r: Options)
        ensures
            r@ == self@.insert(name@, value@),
    {
        proof {
            use_type_invariant(&self);
        }
        let ghost key = name@;
        let ghost new_contents = self@.insert(key, value@);
        let pos = self.position(&name);
        let Options { entries, contents } = self;
        let ghost old_entries = entries@;
        let mut entries = entries;
        match pos {
            Some(i) => {
                entries.set(i, OptEntry { name, value });
                assert forall|j: int| 0 <= j < entries@.len() implies #[trigger] new_contents.contains_key(
                    entries@[j].name@,
                ) && new_contents[entries@[j].name@] == entries@[j].value@ by {
                    if j != i {
                        assert(old_entries[j].name@ != old_entries[i as int].name@);
                        assert(contents@.contains_key(old_entries[j].name@));
                    }
                }
                assert forall|a: int, b: int|
                    0 <= a < entries@.len() && 0 <= b < entries@.len() && a != b implies #[trigger] entries@[a].name@
                    != #[trigger] entries@[b].name@ by {
                    assert(old_entries[a].name@ != old_entries[b].name@);
                }
                assert forall|k: Seq<char>| #[trigger] new_contents.contains_key(k) implies exists|
                    j: int,
                | 0 <= j < entries@.len() && #[trigger] entries@[j].name@ == k by {
                    if k != key {
                        let j = choose|j: int|
                            0 <= j < old_entries.len() && #[trigger] old_entries[j].name@ == k;
                        assert(entries@[j].name@ == k);
                    } else {
                        assert(entries@[i as int].name@ == k);
                    }
                }
            },
            None => {
                entries.push(OptEntry { name, value });
                assert forall|j: int| 0 <= j < old_entries.len() implies old_entries[j].name@ != key by {
                    assert(contents@.contains_key(old_entries[j].name@));
                }
                assert forall|j: int| 0 <= j < entries@.len() implies #[trigger] new_contents.contains_key(
                    entries@[j].name@,
                ) && new_contents[entries@[j].name@] == entries@[j].value@ by {
                    if j < old_entries.len() {
                        assert(contents@.contains_key(old_entries[j].name@));
                    }
                }
                assert forall|a: int, b: int|
                    0 <= a < entries@.len() && 0 <= b < entries@.len() && a != b implies #[trigger] entries@[a].name@
                    != #[trigger] entries@[b].name@ by {
                    if a < old_entries.len() && b < old_entries.len() {
                        assert(old_entries[a].name@ != old_entries[b].name@);
                    }
                }
                assert forall|k: Seq<char>| #[trigger] new_contents.contains_key(k) implies exists|
                    j: int,
                | 0 <= j < entries@.len() && #[trigger] entries@[j].name@ == k by {
                    if k != key {
                        let j = choose|j: int|
                            0 <= j < old_entries.len() && #[trigger] old_entries[j].name@ == k;
                        assert(entries@[j].name@ == k);
                    } else {
                        assert(entries@[old_entries.len() as int].name@ == k);
                    }
                }
            },
        }
        Options { entries, contents: Ghost(new_contents) }
    }
}

/// The mathematical form of a list of strings.
pub open spec fn views(s: Seq<String>) -> Seq<Seq<char>> {
    s.map_values(|x: String| x@)
}

/// How a rule turns the value it finds into tokens.
#[derive(Debug, Clone, Copy, PartialEq, Eq, Structural)]
pub enum RuleKind {
    /// A boolean switch: the flag alone when true.
    Flag,
    /// A string option: the flag followed by the value.
    Value,
    /// Two string options joined into one flag with two values.
    Pair,
}

/// One line of an option table: the accepted names and the flag they give.
///
/// A `Pair` rule reads its first two names, those of its two values in order;
/// with fewer names it gives nothing.
pub struct OptionRule {
    pub keys: Vec<String>,
    pub flag: String,
    pub kind: RuleKind,
}

/// The mathematical form of an [`OptionRule`].
pub struct RuleSpec {
    pub keys: Seq<Seq<char>>,
    pub flag: Seq<char>,
    pub kind: RuleKind,
}

impl View for OptionRule {
    type V = RuleSpec;

    open spec fn view(&self) -> RuleSpec {
        RuleSpec { keys: views(self.keys@), flag: self.flag@, kind: self.kind }
    }
}

/// The mathematical form of a list of rules.
pub open spec fn rule_views(s: Seq<OptionRule>) -> Seq<RuleSpec> {
    s.map_values(|r: OptionRule| r@)
}

/// A keyword argument of the wrong type: a string for a switch, or a boolean
/// for a string option. It names the argument as the caller gave it.
#[derive(Debug, Clone, PartialEq, Eq)]
pub enum TranslateError {
    TypeMismatch { option: String },
}

/// The argument that a [`TranslateError`] names.
pub open spec fn option_of(e: TranslateError) -> Seq<char> {
    match e {
        TranslateError::TypeMismatch { option } => option@,
    }
}

/// The mathematical form of a translation result.
pub open spec fn result_tokens(r: Result<Vec<String>, TranslateError>) -> Result<
    Seq<Seq<char>>,
    Seq<char>,
> {
    match r {
        Ok(v) => Ok(views(v@)),
        Err(e) => Err(option_of(e)),
    }
}

/// The first of `keys` that `m` holds.
pub open spec fn first_present(m: Map<Seq<char>, OptVal>, keys: Seq<Seq<char>>) -> Option<
    Seq<char>,
>
    decreases keys.len(),
{
    if keys.len() == 0 {
        None
    } else if m.contains_key(keys[0]) {
        Some(keys[0])
    } else {
        first_present(m, keys.drop_first())
    }
}

/// What a switch looked up by `keys` reads as: absent, a boolean, or an error
/// naming the argument that holds a string.
pub open spec fn bool_option(m: Map<Seq<char>, OptVal>, keys: Seq<Seq<char>>) -> Result<
    Option<bool>,
    Seq<char>,
> {
    match first_present(m, keys) {
        None => Ok(None),
        Some(k) => match m[k] {
            OptVal::Bool(b) => Ok(Some(b)),
            OptVal::Text(_) => Err(k),
        },
    }
}

/// What a string option looked up by `keys` reads as.
pub open spec fn text_option(m: Map<Seq<char>, OptVal>, keys: Seq<Seq<char>>) -> Result<
    Option<Seq<char>>,
    Seq<char>,
> {
    match first_present(m, keys) {
        None => Ok(None),
        Some(k) => match m[k] {
            OptVal::Text(s) => Ok(Some(s)),
            OptVal::Bool(_) => Err(k),
        },
    }
}

/// The tokens of a switch: the flag when it is true, nothing when it is
/// false or absent.
pub open spec fn flag_tokens(m: Map<Seq<char>, OptVal>, keys: Seq<Seq<char>>, flag: Seq<char>) -> Result<
    Seq<Seq<char>>,
    Seq<char>,
> {
    match bool_option(m, keys) {
        Ok(Some(true)) => Ok(seq![flag]),
        Ok(_) => Ok(Seq::empty()),
        Err(k) => Err(k),
    }
}

/// The tokens of a string option: the flag and the value, or nothing.
pub open spec fn value_tokens(m: Map<Seq<char>, OptVal>, keys: Seq<Seq<char>>, flag: Seq<char>) -> Result<
    Seq<Seq<char>>,
    Seq<char>,
> {
    match text_option(m, keys) {
        Ok(Some(v)) => Ok(seq![flag, v]),
        Ok(None) => Ok(Seq::empty()),
        Err(k) => Err(k),
    }
}

/// The tokens of a pair: the flag and both values when both are given.
pub open spec fn pair_tokens(m: Map<Seq<char>, OptVal>, first: Seq<char>, second: Seq<char>, flag: Seq<char>) -> Result<
    Seq<Seq<char>>,
    Seq<char>,
> {
    match (text_option(m, seq![first]), text_option(m, seq![second])) {
        (Err(k), _) => Err(k),
        (_, Err(k)) => Err(k),
        (Ok(Some(a)), Ok(Some(b))) => Ok(seq![flag, a, b]),
        _ => Ok(Seq::empty()),
    }
}

/// The tokens that one rule gives.
pub open spec fn rule_tokens(m: Map<Seq<char>, OptVal>, r: RuleSpec) -> Result<
    Seq<Seq<char>>,
    Seq<char>,
> {
    match r.kind {
        RuleKind::Flag => flag_tokens(m, r.keys, r.flag),
        RuleKind::Value => value_tokens(m, r.keys, r.flag),
        RuleKind::Pair => if r.keys.len() >= 2 {
            pair_tokens(m, r.keys[0], r.keys[1], r.flag)
        } else {
            Ok(Seq::empty())
        },
    }
}

/// The tokens of a whole table, rule after rule in the table's order; the
/// first rule that fails decides the error.
pub open spec fn translated(m: Map<Seq<char>, OptVal>, rules: Seq<RuleSpec>) -> Result<
    Seq<Seq<char>>,
    Seq<char>,
>
    decreases rules.len(),
{
    if rules.len() == 0 {
        Ok(Seq::empty())
    } else {
        match translated(m, rules.drop_last()) {
            Err(k) => Err(k),
            Ok(t) => match rule_tokens(m, rules.last()) {
                Err(k) => Err(k),
                Ok(u) => Ok(t + u),
            },
        }
    }
}

/// `after` is `before` with the tokens of `expected` appended, or, where
/// `expected` is an error, `r` reports it and `after` is `before`.
pub open spec fn appended(
    before: Seq<String>,
    after: Seq<String>,
    r: Result<(), TranslateError>,
    expected: Result<Seq<Seq<char>>, Seq<char>>,
) -> bool {
    match expected {
        Ok(t) => r is Ok && views(after) == views(before) + t,
        Err(k) => r is Err && option_of(r->Err_0) == k && after == before,
    }
}

proof fn lemma_views_push(s: Seq<String>, x: String)
    ensures
        views(s.push(x)) == views(s).push(x@),
{
    assert(views(s.push(x)) =~= views(s).push(x@));
}

/// The position in `keys` of the first name that `opts` holds.
fn first_present_index(opts: &Options, keys: &[String]) -> (r: Option<usize>)
    ensures
        match r {
            Some(i) => i < keys@.len() && opts@.contains_key(keys@[i as int]@) && first_present(
                opts@,
                views(keys@),
            ) == Some(keys@[i as int]@),
            None => first_present(opts@, views(keys@)) is None,
        },
{
    let ghost ks = views(keys@);
    let mut i: usize = 0;
    assert(ks.subrange(0, ks.len() as int) =~= ks);
    while i < keys.len()
        invariant
            i <= keys@.len(),
            ks == views(keys@),
            first_present(opts@, ks) == first_present(opts@, ks.subrange(i as int, ks.len() as int)),
        decreases keys@.len() - i,
    {
        let ghost rest = ks.subrange(i as int, ks.len() as int);
        assert(rest.drop_first() =~= ks.subrange(i + 1, ks.len() as int));
        assert(rest[0] == keys@[i as int]@);
        if opts.get(&keys[i]).is_some() {
            return Some(i);
        }
        i = i + 1;
    }
    assert(ks.subrange(i as int, ks.len() as int).len() == 0);
    None
}

/// Reads the switch named by the first of `keys` that `opts` holds.
pub fn get_bool(opts: &Options, keys: &[String]) -> (r: Result<Option<bool>, TranslateError>)
    ensures
        match bool_option(opts@, views(keys@)) {
            Ok(b) => r == Ok::<Option<bool>, TranslateError>(b),
            Err(k) => r is Err && option_of(r->Err_0) == k,
        },
{
    match first_present_index(opts, keys) {
        None => Ok(None),
        Some(i) => match opts.get(&keys[i]) {
            Some(OptValue::Bool(b)) => Ok(Some(*b)),
            Some(OptValue::Text(_)) => Err(TranslateError::TypeMismatch { option: keys[i].clone() }),
            None => Ok(None),
        },
    }
}

/// Reads the string option named by the first of `keys` that `opts` holds.
pub fn get_string(opts: &Options, keys: &[String]) -> (r: Result<Option<String>, TranslateError>)
    ensures
        match text_option(opts@, views(keys@)) {
            Ok(None) => r == Ok::<Option<String>, TranslateError>(None),
            Ok(Some(v)) => r is Ok && r->Ok_0 is Some && r->Ok_0->Some_0@ == v,
            Err(k) => r is Err && option_of(r->Err_0) == k,
        },
{
    match first_present_index(opts, keys) {
        None => Ok(None),
        Some(i) => match opts.get(&keys[i]) {
            Some(OptValue::Text(s)) => Ok(Some(s.clone())),
            Some(OptValue::Bool(_)) => Err(TranslateError::TypeMismatch { option: keys[i].clone() }),
            None => Ok(None),
        },
    }
}

/// Appends `cli_flag` to `cli` when the switch named by `keys` is true.
pub fn update_cli_flag(opts: &Options, cli: &mut Vec<String>, keys: &[String], cli_flag: &String) -> (r: Result<(), TranslateError>)
    ensures
        appended(old(cli)@, final(cli)@, r, flag_tokens(opts@, views(keys@), cli_flag@)),
{
    let value = match get_bool(opts, keys) {
        Ok(v) => v,
        Err(e) => return Err(e),
    };
    if let Some(true) = value {
        let ghost before = cli@;
        proof {
            lemma_views_push(cli@, *cli_flag);
        }
        cli.push(cli_flag.clone());
        assert(views(cli@) =~= views(before) + seq![cli_flag@]);
    } else {
        assert(views(cli@) =~= views(cli@) + Seq::<Seq<char>>::empty());
    }
    Ok(())
}

/// Appends `cli_opt` and the value when the string option named by `keys` is
/// given.
pub fn update_cli_opt(opts: &Options, cli: &mut Vec<String>, keys: &[String], cli_opt: &String) -> (r: Result<(), TranslateError>)
    ensures
        appended(old(cli)@, final(cli)@, r, value_tokens(opts@, views(keys@), cli_opt@)),
{
    let value = match get_string(opts, keys) {
        Ok(v) => v,
        Err(e) => return Err(e),
    };
    match value {
        Some(v) => {
            let ghost before = cli@;
            let ghost vv = v@;
            proof {
                lemma_views_push(cli@, *cli_opt);
            }
            cli.push(cli_opt.clone());
            proof {
                lemma_views_push(cli@, v);
            }
            cli.push(v);
            assert(views(cli@) =~= views(before) + seq![cli_opt@, vv]);
        },
        None => {
            assert(views(cli@) =~= views(cli@) + Seq::<Seq<char>>::empty());
        },
    }
    Ok(())
}

/// Appends `cli_opt` and both values when both string options are given.
pub fn update_cli_tuple(
    opts: &Options,
    cli: &mut Vec<String>,
    first: &String,
    second: &String,
    cli_opt: &String,
) -> (r: Result<(), TranslateError>)
    ensures
        appended(old(cli)@, final(cli)@, r, pair_tokens(opts@, first@, second@, cli_opt@)),
{
    let first_keys = vec![first.clone()];
    let second_keys = vec![second.clone()];
    assert(views(first_keys@) =~= seq![first@]);
    assert(views(second_keys@) =~= seq![second@]);
    let a = match get_string(opts, first_keys.as_slice()) {
        Ok(v) => v,
        Err(e) => return Err(e),
    };
    let b = match get_string(opts, second_keys.as_slice()) {
        Ok(v) => v,
        Err(e) => return Err(e),
    };
    match (a, b) {
        (Some(a), Some(b)) => {
            let ghost before = cli@;
            let ghost (av, bv) = (a@, b@);
            proof {
                lemma_views_push(cli@, *cli_opt);
            }
            cli.push(cli_opt.clone());
            proof {
                lemma_views_push(cli@, a);
            }
            cli.push(a);
            proof {
                lemma_views_push(cli@, b);
            }
            cli.push(b);
            assert(views(cli@) =~= views(before) + seq![cli_opt@, av, bv]);
        },
        _ => {
            assert(views(cli@) =~= views(cli@) + Seq::<Seq<char>>::empty());
        },
    }
    Ok(())
}

/// Appends the positional targets in their order.
pub fn update_targets(targets: &[String], cli: &mut Vec<String>)
    ensures
        views(final(cli)@) == views(old(cli)@) + views(targets@),
{
    let ghost before = cli@;
    let mut i: usize = 0;
    while i < targets.len()
        invariant
            i <= targets@.len(),
            views(cli@) == views(before) + views(targets@.subrange(0, i as int)),
        decreases targets@.len() - i,
    {
        proof {
            lemma_views_push(cli@, targets@[i as int]);
            assert(views(targets@.subrange(0, i + 1)) =~= views(targets@.subrange(0, i as int)).push(
                targets@[i as int]@,
            ));
        }
        cli.push(targets[i].clone());
        i = i + 1;
    }
    assert(targets@.subrange(0, i as int) =~= targets@);
}

/// Appends the tokens of one rule.
fn apply_rule(opts: &Options, cli: &mut Vec<String>, rule: &OptionRule) -> (r: Result<(), TranslateError>)
    ensures
        appended(old(cli)@, final(cli)@, r, rule_tokens(opts@, rule@)),
{
    match rule.kind {
        RuleKind::Flag => update_cli_flag(opts, cli, rule.keys.as_slice(), &rule.flag),
        RuleKind::Value => update_cli_opt(opts, cli, rule.keys.as_slice(), &rule.flag),
        RuleKind::Pair => if rule.keys.len() >= 2 {
            update_cli_tuple(opts, cli, &rule.keys[0], &rule.keys[1], &rule.flag)
        } else {
            assert(views(cli@) =~= views(cli@) + Seq::<Seq<char>>::empty());
            Ok(())
        },
    }
}

/// Translates keyword arguments into tokens by an option table, appending
/// them to `cli`. Each rule, in the table's order, reads the first of its
/// names that `opts` holds; names that no rule lists are ignored.
pub fn translate(opts: &Options, rules: &Vec<OptionRule>, cli: &mut Vec<String>) -> (r: Result<(), TranslateError>)
    ensures
        match translated(opts@, rule_views(rules@)) {
            Ok(t) => r is Ok && views(final(cli)@) == views(old(cli)@) + t,
            Err(k) => r is Err && option_of(r->Err_0) == k,
        },
{
    let ghost before = cli@;
    let ghost rs = rule_views(rules@);
    let mut i: usize = 0;
    while i < rules.len()
        invariant
            i <= rules@.len(),
            rs == rule_views(rules@),
            translated(opts@, rs.subrange(0, i as int)) is Ok,
            views(cli@) == views(before) + translated(opts@, rs.subrange(0, i as int))->Ok_0,
        decreases rules@.len() - i,
    {
        let ghost mid = cli@;
        let res = apply_rule(opts, cli, &rules[i]);
        proof {
            assert(rs.subrange(0, i + 1).drop_last() =~= rs.subrange(0, i as int));
            assert(rs.subrange(0, i + 1).last() == rules@[i as int]@);
        }
        if res.is_err() {
            proof {
                let pre = rs.subrange(0, i + 1);
                assert(translated(opts@, pre) is Err);
                lemma_translated_err_extends(opts@, rs, i as int + 1);
            }
            return res;
        }
        proof {
            assert(views(cli@) =~= views(before) + translated(opts@, rs.subrange(0, i + 1))->Ok_0);
        }
        i = i + 1;
    }
    assert(rs.subrange(0, i as int) =~= rs);
    Ok(())
}

/// Once a prefix of a table fails, the whole table fails with the same error.
proof fn lemma_translated_err_extends(m: Map<Seq<char>, OptVal>, rs: Seq<RuleSpec>, n: int)
    requires
        0 <= n <= rs.len(),
        translated(m, rs.subrange(0, n)) is Err,
    ensures
        translated(m, rs) == translated(m, rs.subrange(0, n)),
    decreases rs.len() - n,
{
    if n < rs.len() {
        assert(rs.subrange(0, n + 1).drop_last() =~= rs.subrange(0, n));
        lemma_translated_err_extends(m, rs, n + 1);
    } else {
        assert(rs.subrange(0, n) =~= rs);
    }
}

impl OptionRule {
    /// A switch read from `keys`.
    pub fn switch(keys: Vec<String>, flag: &str) -> (r: OptionRule)
        ensures
            r@ == switch_rule(views(keys@), flag@),
    {
        OptionRule { keys, flag: flag.to_string(), kind: RuleKind::Flag }
    }

    /// A string option read from `keys`.
    pub fn value(keys: Vec<String>, flag: &str) -> (r: OptionRule)
        ensures
            r@ == value_rule(views(keys@), flag@),
    {
        OptionRule { keys, flag: flag.to_string(), kind: RuleKind::Value }
    }

    /// A pair of string options, `first` and `second`, joined into `flag`.
    pub fn pair(first: &str, second: &str, flag: &str) -> (r: OptionRule)
        ensures
            r@ == pair_rule(first@, second@, flag@),
    {
        let keys = vec![first.to_string(), second.to_string()];
        assert(views(keys@) =~= seq![first@, second@]);
        OptionRule { keys, flag: flag.to_string(), kind: RuleKind::Pair }
    }
}

pub open spec fn switch_rule(keys: Seq<Seq<char>>, flag: Seq<char>) -> RuleSpec {
    RuleSpec { keys, flag, kind: RuleKind::Flag }
}

pub open spec fn value_rule(keys: Seq<Seq<char>>, flag: Seq<char>) -> RuleSpec {
    RuleSpec { keys, flag, kind: RuleKind::Value }
}

pub open spec fn pair_rule(first: Seq<char>, second: Seq<char>, flag: Seq<char>) -> RuleSpec {
    RuleSpec { keys: seq![first, second], flag, kind: RuleKind::Pair }
}

/// A list of one name.
pub fn names1(a: &str) -> (r: Vec<String>)
    ensures
        views(r@) == seq![a@],
{
    let r = vec![a.to_string()];
    assert(views(r@) =~= seq![a@]);
    r
}

/// A list of two names.
pub fn names2(a: &str, b: &str) -> (r: Vec<String>)
    ensures
        views(r@) == seq![a@, b@],
{
    let r = vec![a.to_string(), b.to_string()];
    assert(views(r@) =~= seq![a@, b@]);
    r
}

/// A list of three names.
pub fn names3(a: &str, b: &str, c: &str) -> (r: Vec<String>)
    ensures
        views(r@) == seq![a@, b@, c@],
{
    let r = vec![a.to_string(), b.to_string(), c.to_string()];
    assert(views(r@) =~= seq![a@, b@, c@]);
    r
}

/// Appends one token.
pub fn push_token(cli: &mut Vec<String>, token: &str)
    ensures
        views(final(cli)@) == views(old(cli)@).push(token@),
{
    let t = token.to_string();
    proof {
        lemma_views_push(cli@, t);
    }
    cli.push(t);
}

/// A full command line: the prefix, the translated options, then the
/// positional targets in their order.
pub open spec fn command_tokens(
    prefix: Seq<Seq<char>>,
    rules: Seq<RuleSpec>,
    m: Map<Seq<char>, OptVal>,
    targets: Seq<Seq<char>>,
) -> Result<Seq<Seq<char>>, Seq<char>> {
    match translated(m, rules) {
        Ok(t) => Ok(prefix + t + targets),
        Err(k) => Err(k),
    }
}

/// Builds a command line from a prefix, an option table, keyword arguments
/// and positional targets.
pub fn build_command(
    prefix: Vec<String>,
    rules: &Vec<OptionRule>,
    opts: &Options,
    targets: &[String],
) -> (r: Result<Vec<String>, TranslateError>)
    ensures
        result_tokens(r) == command_tokens(views(prefix@), rule_views(rules@), opts@, views(targets@)),
{
    let mut cli = prefix;
    match translate(opts, rules, &mut cli) {
        Ok(()) => {
            update_targets(targets, &mut cli);
            Ok(cli)
        },
        Err(e) => Err(e),
    }
}

/// What `first_present` finds: nothing exactly when no name is held, and
/// otherwise a held name of the list.
proof fn lemma_first_present(m: Map<Seq<char>, OptVal>, keys: Seq<Seq<char>>)
    ensures
        first_present(m, keys) is None <==> forall|j: int|
            0 <= j < keys.len() ==> !m.contains_key(#[trigger] keys[j]),
        first_present(m, keys) is Some ==> m.contains_key(first_present(m, keys)->Some_0)
            && keys.contains(first_present(m, keys)->Some_0),
    decreases keys.len(),
{
    if keys.len() > 0 {
        lemma_first_present(m, keys.drop_first());
        if first_present(m, keys) is None {
            assert forall|j: int| 0 <= j < keys.len() implies !m.contains_key(#[trigger] keys[j]) by {
                if j > 0 {
                    assert(keys[j] == keys.drop_first()[j - 1]);
                }
            }
        }
        if first_present(m, keys) is Some && !m.contains_key(keys[0]) {
            let k = first_present(m, keys)->Some_0;
            let j = choose|j: int| 0 <= j < keys.drop_first().len() && keys.drop_first()[j] == k;
            assert(keys[j + 1] == k);
        }
    }
}

/// A name outside `keys` changes nothing that `keys` reads.
proof fn lemma_first_present_insert(
    m: Map<Seq<char>, OptVal>,
    keys: Seq<Seq<char>>,
    k: Seq<char>,
    v: OptVal,
)
    requires
        !keys.contains(k),
    ensures
        first_present(m.insert(k, v), keys) == first_present(m, keys),
    decreases keys.len(),
{
    if keys.len() > 0 {
        assert(keys[0] != k);
        assert forall|j: int| 0 <= j < keys.drop_first().len() implies keys.drop_first()[j] != k by {
            assert(keys.drop_first()[j] == keys[j + 1]);
        }
        lemma_first_present_insert(m, keys.drop_first(), k, v);
    }
}

/// A rule that does not list `k` gives the same tokens whatever `k` holds.
proof fn lemma_rule_unaffected(m: Map<Seq<char>, OptVal>, r: RuleSpec, k: Seq<char>, v: OptVal)
    requires
        !r.keys.contains(k),
    ensures
        rule_tokens(m.insert(k, v), r) == rule_tokens(m, r),
{
    let m2 = m.insert(k, v);
    lemma_first_present_insert(m, r.keys, k, v);
    lemma_first_present(m, r.keys);
    if first_present(m, r.keys) is Some {
        assert(first_present(m, r.keys)->Some_0 != k);
    }
    if r.kind == RuleKind::Pair && r.keys.len() >= 2 {
        assert(r.keys[0] != k);
        assert(r.keys[1] != k);
        assert(!seq![r.keys[0]].contains(k));
        assert(!seq![r.keys[1]].contains(k));
        lemma_first_present_insert(m, seq![r.keys[0]], k, v);
        lemma_first_present_insert(m, seq![r.keys[1]], k, v);
        lemma_first_present(m, seq![r.keys[0]]);
        lemma_first_present(m, seq![r.keys[1]]);
    }
}

/// Two argument sets on which every rule agrees give the same tokens.
proof fn lemma_translated_pointwise(
    m1: Map<Seq<char>, OptVal>,
    m2: Map<Seq<char>, OptVal>,
    rules: Seq<RuleSpec>,
)
    requires
        forall|j: int| 0 <= j < rules.len() ==> rule_tokens(m1, #[trigger] rules[j]) == rule_tokens(m2, rules[j]),
    ensures
        translated(m1, rules) == translated(m2, rules),
    decreases rules.len(),
{
    if rules.len() > 0 {
        assert forall|j: int| 0 <= j < rules.drop_last().len() implies rule_tokens(
            m1,
            #[trigger] rules.drop_last()[j],
        ) == rule_tokens(m2, rules.drop_last()[j]) by {
            assert(rules.drop_last()[j] == rules[j]);
        }
        lemma_translated_pointwise(m1, m2, rules.drop_last());
        assert(rules.last() == rules[rules.len() - 1]);
    }
}

/// The names that the rule at `i` alone lists.
pub open spec fn owned_by(rules: Seq<RuleSpec>, i: int, k: Seq<char>) -> bool {
    &&& 0 <= i < rules.len()
    &&& rules[i].keys.contains(k)
    &&& forall|j: int| 0 <= j < rules.len() && j != i ==> !(#[trigger] rules[j].keys).contains(k)
}

/// None of the names of `r` is given in `m`.
pub open spec fn untouched(m: Map<Seq<char>, OptVal>, r: RuleSpec) -> bool {
    forall|j: int| 0 <= j < r.keys.len() ==> !m.contains_key(#[trigger] r.keys[j])
}

/// When a rule's only given name is `k`, the rule reads `k`.
proof fn lemma_single_given(m: Map<Seq<char>, OptVal>, keys: Seq<Seq<char>>, k: Seq<char>, v: OptVal)
    requires
        keys.contains(k),
        forall|j: int| 0 <= j < keys.len() ==> !m.contains_key(#[trigger] keys[j]),
    ensures
        first_present(m.insert(k, v), keys) == Some(k),
{
    let m2 = m.insert(k, v);
    lemma_first_present(m2, keys);
    let j = choose|j: int| 0 <= j < keys.len() && keys[j] == k;
    assert(m2.contains_key(keys[j]));
    let f = first_present(m2, keys)->Some_0;
    let jf = choose|jf: int| 0 <= jf < keys.len() && keys[jf] == f;
    assert(!m.contains_key(keys[jf]));
}

/// A switch given as false gives the same tokens as a switch left out: the
/// switch `k` of the rule at `i`, of which no name is given otherwise.
pub proof fn lemma_false_switch_is_absent(
    m: Map<Seq<char>, OptVal>,
    rules: Seq<RuleSpec>,
    i: int,
    k: Seq<char>,
)
    requires
        owned_by(rules, i, k),
        rules[i].kind == RuleKind::Flag,
        untouched(m, rules[i]),
    ensures
        translated(m.insert(k, OptVal::Bool(false)), rules) == translated(m, rules),
{
    let v = OptVal::Bool(false);
    let m2 = m.insert(k, v);
    assert forall|j: int| 0 <= j < rules.len() implies rule_tokens(m2, #[trigger] rules[j])
        == rule_tokens(m, rules[j]) by {
        if j == i {
            lemma_single_given(m, rules[i].keys, k, v);
            lemma_first_present(m, rules[i].keys);
        } else {
            lemma_rule_unaffected(m, rules[j], k, v);
        }
    }
    lemma_translated_pointwise(m2, m, rules);
}

/// Any name of a string option gives the same tokens as its first name: the
/// value `v` under the `a`-th name of the rule at `i` or under its first.
pub proof fn lemma_alias_equivalence(
    m: Map<Seq<char>, OptVal>,
    rules: Seq<RuleSpec>,
    i: int,
    a: int,
    v: Seq<char>,
)
    requires
        0 <= i < rules.len(),
        rules[i].kind == RuleKind::Value,
        0 <= a < rules[i].keys.len(),
        owned_by(rules, i, rules[i].keys[a]),
        owned_by(rules, i, rules[i].keys[0]),
        untouched(m, rules[i]),
    ensures
        translated(m.insert(rules[i].keys[a], OptVal::Text(v)), rules) == translated(
            m.insert(rules[i].keys[0], OptVal::Text(v)),
            rules,
        ),
        rule_tokens(m.insert(rules[i].keys[a], OptVal::Text(v)), rules[i]) == Ok::<
            Seq<Seq<char>>,
            Seq<char>,
        >(seq![rules[i].flag, v]),
{
    let keys = rules[i].keys;
    let val = OptVal::Text(v);
    let m1 = m.insert(keys[a], val);
    let m0 = m.insert(keys[0], val);
    assert(keys.contains(keys[a]));
    assert(keys.contains(keys[0]));
    lemma_single_given(m, keys, keys[a], val);
    lemma_single_given(m, keys, keys[0], val);
    assert forall|j: int| 0 <= j < rules.len() implies rule_tokens(m1, #[trigger] rules[j])
        == rule_tokens(m0, rules[j]) by {
        if j != i {
            lemma_rule_unaffected(m, rules[j], keys[a], val);
            lemma_rule_unaffected(m, rules[j], keys[0], val);
        }
    }
    lemma_translated_pointwise(m1, m0, rules);
}

/// The tokens depend on the arguments given, not on the order in which they
/// were given.
pub proof fn lemma_order_independent(
    m: Map<Seq<char>, OptVal>,
    k1: Seq<char>,
    v1: OptVal,
    k2: Seq<char>,
    v2: OptVal,
    rules: Seq<RuleSpec>,
)
    requires
        k1 != k2,
    ensures
        translated(m.insert(k1, v1).insert(k2, v2), rules) == translated(
            m.insert(k2, v2).insert(k1, v1),
            rules,
        ),
{
    assert(m.insert(k1, v1).insert(k2, v2) =~= m.insert(k2, v2).insert(k1, v1));
}

/// A command line starts with its prefix and ends with its targets in their
/// order, after every option token.
pub proof fn lemma_targets_last(
    prefix: Seq<Seq<char>>,
    rules: Seq<RuleSpec>,
    m: Map<Seq<char>, OptVal>,
    targets: Seq<Seq<char>>,
)
    requires
        command_tokens(prefix, rules, m, targets) is Ok,
    ensures
        ({
            let c = command_tokens(prefix, rules, m, targets)->Ok_0;
            &&& c.subrange(0, prefix.len() as int) == prefix
            &&& c.subrange(c.len() - targets.len(), c.len() as int) == targets
            &&& c.subrange(prefix.len() as int, c.len() - targets.len()) == translated(m, rules)->Ok_0
        }),
{
    let c = command_tokens(prefix, rules, m, targets)->Ok_0;
    let t = translated(m, rules)->Ok_0;
    assert(c.subrange(0, prefix.len() as int) =~= prefix);
    assert(c.subrange(c.len() - targets.len(), c.len() as int) =~= targets);
    assert(c.subrange(prefix.len() as int, c.len() - targets.len()) =~= t);
}

/// With no arguments every table gives no tokens.
pub proof fn lemma_no_arguments(rules: Seq<RuleSpec>)
    ensures
        translated(Map::empty(), rules) == Ok::<Seq<Seq<char>>, Seq<char>>(Seq::empty()),
    decreases rules.len(),
{
    if rules.len() > 0 {
        lemma_no_arguments(rules.drop_last());
        let r = rules.last();
        lemma_first_present(Map::empty(), r.keys);
        if r.keys.len() >= 2 {
            lemma_first_present(Map::empty(), seq![r.keys[0]]);
            lemma_first_present(Map::empty(), seq![r.keys[1]]);
        }
        assert(Seq::<Seq<char>>::empty() + Seq::<Seq<char>>::empty() =~= Seq::<Seq<char>>::empty());
    }
}

/// A command with no arguments and no targets is its prefix alone.
pub proof fn lemma_bare_command(prefix: Seq<Seq<char>>, rules: Seq<RuleSpec>)
    ensures
        command_tokens(prefix, rules, Map::empty(), Seq::empty()) == Ok::<
            Seq<Seq<char>>,
            Seq<char>,
        >(prefix),
{
    lemma_no_arguments(rules);
    assert(prefix + Seq::<Seq<char>>::empty() + Seq::<Seq<char>>::empty() =~= prefix);
}

/// What one rule of a table reads, as a command parser sees it.
pub enum Setting {
    Absent,
    On,
    Value(Seq<char>),
    Values(Seq<char>, Seq<char>),
}

/// What the rule `r` reads from the arguments `m`; a switch given as false
/// reads as absent.
pub open spec fn setting(m: Map<Seq<char>, OptVal>, r: RuleSpec) -> Setting {
    match r.kind {
        RuleKind::Flag => if bool_option(m, r.keys) == Ok::<Option<bool>, Seq<char>>(Some(true)) {
            Setting::On
        } else {
            Setting::Absent
        },
        RuleKind::Value => match text_option(m, r.keys) {
            Ok(Some(v)) => Setting::Value(v),
            _ => Setting::Absent,
        },
        RuleKind::Pair => if r.keys.len() >= 2 {
            match (text_option(m, seq![r.keys[0]]), text_option(m, seq![r.keys[1]])) {
                (Ok(Some(a)), Ok(Some(b))) => Setting::Values(a, b),
                _ => Setting::Absent,
            }
        } else {
            Setting::Absent
        },
    }
}

/// The number of tokens that a rule of `kind` gives when it gives any.
pub open spec fn arity(kind: RuleKind) -> nat {
    match kind {
        RuleKind::Flag => 1,
        RuleKind::Value => 2,
        RuleKind::Pair => 3,
    }
}

/// The setting that the tokens of a rule of `kind` stand for.
pub open spec fn read_setting(kind: RuleKind, tokens: Seq<Seq<char>>) -> Setting {
    match kind {
        RuleKind::Flag => Setting::On,
        RuleKind::Value => Setting::Value(tokens[1]),
        RuleKind::Pair => Setting::Values(tokens[1], tokens[2]),
    }
}

/// Reads option tokens back by a table: each rule in order takes its flag
/// and values when the next token is its flag; every token must be taken.
pub open spec fn parse_options(tokens: Seq<Seq<char>>, rules: Seq<RuleSpec>) -> Option<Seq<Setting>>
    decreases rules.len(),
{
    if rules.len() == 0 {
        if tokens.len() == 0 {
            Some(Seq::empty())
        } else {
            None
        }
    } else {
        let r = rules[0];
        if tokens.len() > 0 && tokens[0] == r.flag {
            if tokens.len() < arity(r.kind) {
                None
            } else {
                match parse_options(tokens.skip(arity(r.kind) as int), rules.drop_first()) {
                    Some(rest) => Some(seq![read_setting(r.kind, tokens)] + rest),
                    None => None,
                }
            }
        } else {
            match parse_options(tokens, rules.drop_first()) {
                Some(rest) => Some(seq![Setting::Absent] + rest),
                None => None,
            }
        }
    }
}

/// No two rules of the table give the same flag.
pub open spec fn distinct_flags(rules: Seq<RuleSpec>) -> bool {
    forall|i: int, j: int| 0 <= i < j < rules.len() ==> rules[i].flag != rules[j].flag
}

/// The tokens of one rule: nothing when it reads as absent, else its flag
/// and as many values as its kind takes.
proof fn lemma_rule_shape(m: Map<Seq<char>, OptVal>, r: RuleSpec)
    requires
        rule_tokens(m, r) is Ok,
    ensures
        ({
            let u = rule_tokens(m, r)->Ok_0;
            &&& u.len() == 0 <==> setting(m, r) == Setting::Absent
            &&& u.len() > 0 ==> u.len() == arity(r.kind) && u[0] == r.flag && read_setting(r.kind, u)
                == setting(m, r)
        }),
{
}

/// A table's tokens are those of its first rule, then those of the rest.
proof fn lemma_translated_front(m: Map<Seq<char>, OptVal>, rules: Seq<RuleSpec>)
    requires
        rules.len() > 0,
        translated(m, rules) is Ok,
    ensures
        rule_tokens(m, rules[0]) is Ok,
        translated(m, rules.drop_first()) is Ok,
        translated(m, rules)->Ok_0 == rule_tokens(m, rules[0])->Ok_0 + translated(
            m,
            rules.drop_first(),
        )->Ok_0,
    decreases rules.len(),
{
    if rules.len() == 1 {
        assert(rules.drop_first() =~= Seq::<RuleSpec>::empty());
        assert(rules.drop_last() =~= Seq::<RuleSpec>::empty());
        let u = rule_tokens(m, rules[0])->Ok_0;
        assert(Seq::<Seq<char>>::empty() + u =~= u + Seq::<Seq<char>>::empty());
    } else {
        let init = rules.drop_last();
        lemma_translated_front(m, init);
        assert(init[0] == rules[0]);
        assert(rules.drop_first().drop_last() =~= init.drop_first());
        assert(rules.drop_first().last() == rules.last());
        let u0 = rule_tokens(m, rules[0])->Ok_0;
        let mid = translated(m, init.drop_first())->Ok_0;
        let ul = rule_tokens(m, rules.last())->Ok_0;
        assert(u0 + mid + ul =~= u0 + (mid + ul));
    }
}

/// The first token of a table's tokens is the flag of one of its rules.
proof fn lemma_first_token_is_flag(m: Map<Seq<char>, OptVal>, rules: Seq<RuleSpec>)
    requires
        translated(m, rules) is Ok,
        translated(m, rules)->Ok_0.len() > 0,
    ensures
        exists|j: int| 0 <= j < rules.len() && translated(m, rules)->Ok_0[0] == rules[j].flag,
    decreases rules.len(),
{
    if rules.len() == 0 {
    } else {
        lemma_translated_front(m, rules);
        lemma_rule_shape(m, rules[0]);
        let u0 = rule_tokens(m, rules[0])->Ok_0;
        if u0.len() > 0 {
            assert(translated(m, rules)->Ok_0[0] == rules[0].flag);
        } else {
            let rest = rules.drop_first();
            assert(translated(m, rules)->Ok_0 =~= translated(m, rest)->Ok_0);
            lemma_first_token_is_flag(m, rest);
            let j = choose|j: int| 0 <= j < rest.len() && translated(m, rest)->Ok_0[0] == rest[j].flag;
            assert(rest[j] == rules[j + 1]);
        }
    }
}

/// Reading a table's tokens back by the same table gives what each rule
/// read from the arguments, when the table's flags are distinct.
pub proof fn lemma_round_trip(m: Map<Seq<char>, OptVal>, rules: Seq<RuleSpec>)
    requires
        distinct_flags(rules),
        translated(m, rules) is Ok,
    ensures
        parse_options(translated(m, rules)->Ok_0, rules) == Some(
            rules.map_values(|r: RuleSpec| setting(m, r)),
        ),
    decreases rules.len(),
{
    let all = rules.map_values(|r: RuleSpec| setting(m, r));
    if rules.len() == 0 {
        assert(all =~= Seq::<Setting>::empty());
    } else {
        let r = rules[0];
        let rest = rules.drop_first();
        lemma_translated_front(m, rules);
        lemma_rule_shape(m, r);
        assert forall|i: int, j: int| 0 <= i < j < rest.len() implies rest[i].flag != rest[j].flag by {
            assert(rest[i] == rules[i + 1]);
            assert(rest[j] == rules[j + 1]);
        }
        lemma_round_trip(m, rest);
        let t = translated(m, rules)->Ok_0;
        let u0 = rule_tokens(m, r)->Ok_0;
        let t2 = translated(m, rest)->Ok_0;
        let rest_settings = rest.map_values(|x: RuleSpec| setting(m, x));
        assert(all =~= seq![setting(m, r)] + rest_settings);
        if u0.len() > 0 {
            assert(t.skip(arity(r.kind) as int) =~= t2);
            assert(t[0] == r.flag);
            assert(read_setting(r.kind, t) == read_setting(r.kind, u0));
        } else {
            assert(t =~= t2);
            if t2.len() > 0 {
                lemma_first_token_is_flag(m, rest);
                let j = choose|j: int| 0 <= j < rest.len() && t2[0] == rest[j].flag;
                assert(rest[j] == rules[j + 1]);
            }
        }
    }
}

} // verus!
