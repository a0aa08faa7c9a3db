//! The root schema of an application and the state machine that reads a
//! token stream against it.

use vstd::prelude::*;
use indexmap::IndexMap;
use crate::app::{App, AppView};
use crate::arguments::{arguments_alike, arguments_unguarded, ArgumentDef, ArgumentDefs};
use crate::checks::{abides, asked_then, complaint_of, or_else, settle};
use crate::entries::{has_key, lemma_position, lemma_upsert_entries, lookup, upsert};
use crate::flags::{clone_optional, FlagDef, FlagDefs};
use crate::groups::{copy_groups, groups_alike, Group};
use crate::maps::{
    counts_get, counts_insert, flags_get, flags_insert, list_entries,
    lists_get_mut, lists_insert, texts_get, texts_insert,
};
use crate::options::{options_alike, options_unguarded, OptionDef, OptionDefs};
use crate::parser::{
    is_readable, readable, texts, token_text, tokenize, Parser, Token, TokenView,
};
use crate::subcommands::{copy_optional_subcommand, optional_alike, SubCommandDef};
use crate::text::{decimal, push_decimal, push_text};
use crate::validators::{check_app, copy_app_validators, AppValidator};

verus! {

/// The root schema: what the command line of an application may hold. It is
/// built once and only read while parsing.
#[derive(Default)]
pub struct AppDef {
    pub name: String,
    pub version: String,
    pub help: Option<String>,
    pub validators: Vec<AppValidator>,
    pub flags: FlagDefs,
    pub flag_groups: Option<IndexMap<String, Group>>,
    pub options: OptionDefs,
    pub option_groups: Option<IndexMap<String, Group>>,
    pub arguments: ArgumentDefs,
    pub subcommand: Option<Box<SubCommandDef>>,
}

impl AppDef {
    /// Two schemas that say the same: every setting is equal, and lists,
    /// groups and the subcommand hold the same in the same order.
    pub open spec fn alike(&self, other: AppDef) -> bool {
        &&& self.name == other.name
        &&& self.version == other.version
        &&& self.help == other.help
        &&& self.validators@ == other.validators@
        &&& self.flags.0@ == other.flags.0@
        &&& groups_alike(self.flag_groups, other.flag_groups)
        &&& options_alike(self.options.0@, other.options.0@)
        &&& groups_alike(self.option_groups, other.option_groups)
        &&& arguments_alike(self.arguments.0@, other.arguments.0@)
        &&& optional_alike(self.subcommand, other.subcommand)
    }
}

impl Clone for AppDef {
    /// A copy that says the same.
    fn clone(&self) -> (r: Self)
        ensures
            self.alike(r),
    {
        AppDef {
            name: self.name.clone(),
            version: self.version.clone(),
            help: clone_optional(&self.help),
            validators: copy_app_validators(&self.validators),
            flags: self.flags.clone(),
            flag_groups: copy_groups(&self.flag_groups),
            options: self.options.clone(),
            option_groups: copy_groups(&self.option_groups),
            arguments: self.arguments.clone(),
            subcommand: copy_optional_subcommand(&self.subcommand),
        }
    }
}

/// What the parser waits for.
#[derive(Clone, Copy)]
pub enum State<'a> {
    /// A flag, an option marker, the first positional value or the end.
    ExpectAnything,
    /// The value of the option whose marker was just read.
    ExpectOptionValue(&'a OptionDef),
    /// A value of the positional argument that stands at the given index.
    ExpectArgumentValue(&'a ArgumentDef, usize),
    /// The name of a subcommand.
    ExpectCommand,
    /// Nothing but the end.
    ExpectEnd,
}

/// What the parser waits for, with the definitions themselves.
pub enum StateView {
    ExpectAnything,
    ExpectOptionValue(OptionDef),
    ExpectArgumentValue(ArgumentDef, usize),
    ExpectCommand,
    ExpectEnd,
}

impl<'a> View for State<'a> {
    type V = StateView;

    open spec fn view(&self) -> StateView {
        match *self {
            State::ExpectAnything => StateView::ExpectAnything,
            State::ExpectOptionValue(o) => StateView::ExpectOptionValue(*o),
            State::ExpectArgumentValue(a, i) => StateView::ExpectArgumentValue(*a, i),
            State::ExpectCommand => StateView::ExpectCommand,
            State::ExpectEnd => StateView::ExpectEnd,
        }
    }
}

/// What one token does to the parse.
pub enum Step {
    /// The parse goes on in a new state with a new result.
    Continue(StateView, AppView),
    /// The command line is read; the result is to be validated.
    Accept,
    /// The parse fails with a message.
    Reject(Seq<char>),
}

/// The message for a marker that names nothing, and for an entry that may
/// occur once and occurs again.
pub open spec fn invalid_arguments() -> Seq<char> {
    "Invalid arguments"@
}

/// How a message shows a state.
pub open spec fn state_text(state: StateView) -> Seq<char> {
    match state {
        StateView::ExpectAnything => "ExpectAnything"@,
        StateView::ExpectOptionValue(o) => "ExpectOptionValue("@ + o.key() + ")"@,
        StateView::ExpectArgumentValue(a, i) => "ExpectArgumentValue("@ + a.key() + ", "@
            + decimal(i as nat) + ")"@,
        StateView::ExpectCommand => "ExpectCommand"@,
        StateView::ExpectEnd => "ExpectEnd"@,
    }
}

/// The message for a token that the state cannot take.
pub open spec fn mismatch_message(state: StateView, token: TokenView) -> Seq<char> {
    "Invalid arguments: "@ + state_text(state) + ", "@ + token_text(token)
}

/// The values that stand under `name`, or none.
pub open spec fn values_under(lists: Seq<(Seq<char>, Seq<Seq<char>>)>, name: Seq<char>) -> Seq<
    Seq<char>,
> {
    match lookup(lists, name) {
        Some(values) => values,
        None => Seq::empty(),
    }
}

/// The lists after `value` was added to those under `name`.
pub open spec fn appended(
    lists: Seq<(Seq<char>, Seq<Seq<char>>)>,
    name: Seq<char>,
    value: Seq<char>,
) -> Seq<(Seq<char>, Seq<Seq<char>>)> {
    upsert(lists, name, values_under(lists, name).push(value))
}

/// The count under `name` after one more occurrence.
pub open spec fn once_more(counts: Seq<(Seq<char>, u64)>, name: Seq<char>) -> u64 {
    match lookup(counts, name) {
        Some(n) => (n + 1) as u64,
        None => 1,
    }
}

/// No count is above `bound`.
pub open spec fn counts_within(counts: Seq<(Seq<char>, u64)>, bound: int) -> bool {
    forall|i: int| 0 <= i < counts.len() ==> (#[trigger] counts[i]).1 <= bound
}

/// What a flag does to the parse: a boolean flag is recorded, and fails
/// where it is recorded already; a counted flag is counted.
pub open spec fn flag_step(flag: FlagDef, app: AppView) -> Step {
    match flag {
        FlagDef::BooleanFlagDef(b) => if has_key(app.boolean_flags, b.name@) {
            Step::Reject(invalid_arguments())
        } else {
            Step::Continue(
                StateView::ExpectAnything,
                AppView { boolean_flags: upsert(app.boolean_flags, b.name@, true), ..app },
            )
        },
        FlagDef::CountedFlagDef(c) => Step::Continue(
            StateView::ExpectAnything,
            AppView {
                counted_flags: upsert(
                    app.counted_flags,
                    c.name@,
                    once_more(app.counted_flags, c.name@),
                ),
                ..app
            },
        ),
    }
}

/// What a marker does to the parse: flags are looked at first, then
/// options; an option waits for its value; a marker that names neither
/// fails.
pub open spec fn marker_step(flag: Option<FlagDef>, option: Option<OptionDef>, app: AppView) -> Step {
    match flag {
        Some(f) => flag_step(f, app),
        None => match option {
            Some(o) => Step::Continue(StateView::ExpectOptionValue(o), app),
            None => Step::Reject(invalid_arguments()),
        },
    }
}

/// What the value of an option does to the parse: a single value is stored,
/// and fails where one is stored already; a further value is added to the
/// others.
pub open spec fn option_value_step(option: OptionDef, value: Seq<char>, app: AppView) -> Step {
    match option {
        OptionDef::SingleValue(o) => if has_key(app.single_value_options, o.name@) {
            Step::Reject(invalid_arguments())
        } else {
            Step::Continue(
                StateView::ExpectAnything,
                AppView {
                    single_value_options: upsert(app.single_value_options, o.name@, value),
                    ..app
                },
            )
        },
        OptionDef::MultiValue(o) => Step::Continue(
            StateView::ExpectAnything,
            AppView {
                multi_value_options: appended(app.multi_value_options, o.name@, value),
                ..app
            },
        ),
    }
}

impl AppDef {
    /// The state after the last positional argument.
    pub open spec fn after_positionals(&self) -> StateView {
        if self.subcommand is Some {
            StateView::ExpectCommand
        } else {
            StateView::ExpectEnd
        }
    }

    /// The state after the positional argument at `index` has all its
    /// values: the next positional argument waits, or, after the last one,
    /// the subcommand or the end.
    pub open spec fn after_positional(&self, index: int) -> StateView {
        if index + 1 == self.arguments.0@.len() {
            self.after_positionals()
        } else {
            StateView::ExpectArgumentValue(self.arguments.0@[index + 1], (index + 1) as usize)
        }
    }

    /// The state names a positional argument of this schema.
    pub open spec fn fits(&self, state: StateView) -> bool {
        state matches StateView::ExpectArgumentValue(_, index) ==> index
            < self.arguments.0@.len()
    }

    /// What the first positional value does to the parse. A single value is
    /// stored and the next positional waits. A first value of several is
    /// stored as the whole list; where only one is allowed the next
    /// positional waits as well, and else the second positional waits: the
    /// first one is not come back to. The value is out of place where no
    /// positional argument is declared, and where the first one would hand
    /// over to a second that is not declared.
    pub open spec fn first_value_step(&self, value: Seq<char>, app: AppView) -> Step {
        if self.arguments.0@.len() == 0 {
            Step::Reject(mismatch_message(StateView::ExpectAnything, TokenView::Value(value)))
        } else {
            match self.arguments.0@[0] {
                ArgumentDef::SingleValue(a) => Step::Continue(
                    self.after_positional(0),
                    AppView {
                        single_value_arguments: upsert(app.single_value_arguments, a.name@, value),
                        ..app
                    },
                ),
                ArgumentDef::MultiValue(a) => if a.max_occurences != Some(1u64)
                    && self.arguments.0@.len() == 1 {
                    Step::Reject(
                        mismatch_message(StateView::ExpectAnything, TokenView::Value(value)),
                    )
                } else {
                    Step::Continue(
                        if a.max_occurences == Some(1u64) {
                            self.after_positional(0)
                        } else {
                            StateView::ExpectArgumentValue(self.arguments.0@[1], 1)
                        },
                        AppView {
                            multi_value_arguments: upsert(
                                app.multi_value_arguments,
                                a.name@,
                                Seq::empty().push(value),
                            ),
                            ..app
                        },
                    )
                },
            }
        }
    }

    /// What a further positional value does to the parse. A single value is
    /// stored and the next positional waits. A value of several is added to
    /// the others; once their number is the greatest allowed the next
    /// positional waits, and else the same one waits for more.
    pub open spec fn next_value_step(
        &self,
        argument: ArgumentDef,
        index: usize,
        value: Seq<char>,
        app: AppView,
    ) -> Step {
        match argument {
            ArgumentDef::SingleValue(a) => Step::Continue(
                self.after_positional(index as int),
                AppView {
                    single_value_arguments: upsert(app.single_value_arguments, a.name@, value),
                    ..app
                },
            ),
            ArgumentDef::MultiValue(a) => Step::Continue(
                if a.max_occurences is Some && values_under(
                    app.multi_value_arguments,
                    a.name@,
                ).len() + 1 == a.max_occurences->0 {
                    self.after_positional(index as int)
                } else {
                    StateView::ExpectArgumentValue(argument, index)
                },
                AppView {
                    multi_value_arguments: appended(app.multi_value_arguments, a.name@, value),
                    ..app
                },
            ),
        }
    }

    /// The transition table: what `token` does to the parse in `state`. A
    /// marker is taken only where anything may come; a value where anything
    /// may come or where a value is waited for; the end where anything may
    /// come or nothing but the end. The positional separator and a lexical
    /// error are taken nowhere: they fail the parse in every state, as does
    /// every token that its state does not take.
    pub open spec fn advance(&self, state: StateView, app: AppView, token: TokenView) -> Step {
        match token {
            TokenView::Short(ch) => if state is ExpectAnything {
                marker_step(self.flags.with_short(ch), self.options.with_short(ch), app)
            } else {
                Step::Reject(mismatch_message(state, token))
            },
            TokenView::Long(name) => if state is ExpectAnything {
                marker_step(self.flags.with_long(name), self.options.with_long(name), app)
            } else {
                Step::Reject(mismatch_message(state, token))
            },
            TokenView::Value(value) => match state {
                StateView::ExpectAnything => self.first_value_step(value, app),
                StateView::ExpectOptionValue(o) => option_value_step(o, value, app),
                StateView::ExpectArgumentValue(a, index) => self.next_value_step(
                    a,
                    index,
                    value,
                    app,
                ),
                _ => Step::Reject(mismatch_message(state, token)),
            },
            TokenView::End => if state is ExpectAnything || state is ExpectEnd {
                Step::Accept
            } else {
                Step::Reject(mismatch_message(state, token))
            },
            TokenView::PositionalSeparator => Step::Reject(mismatch_message(state, token)),
            TokenView::Error(_, _) => Step::Reject(mismatch_message(state, token)),
        }
    }

    /// What the schema itself says against a result, the validators left
    /// aside: the flags are held against it first, then the options, then
    /// the positional arguments; the first message stands.
    pub open spec fn complaint(&self, app: AppView) -> Option<Seq<char>> {
        or_else(
            self.flags.complaint(app.boolean_flags, app.counted_flags),
            or_else(
                self.options.complaint(app.single_value_options, app.multi_value_options),
                self.arguments.complaint(app.single_value_arguments, app.multi_value_arguments),
            ),
        )
    }

    /// Whether a validator is asked before the schema has a complaint of
    /// its own: one of an option or of a positional argument, about the
    /// value under the canonical name of its definition, or one of the
    /// application, about the whole result.
    pub open spec fn asks(&self, app: AppView) -> bool {
        asked_then(
            false,
            self.flags.complaint(app.boolean_flags, app.counted_flags),
            asked_then(
                self.options.asks(app.single_value_options, app.multi_value_options),
                self.options.complaint(app.single_value_options, app.multi_value_options),
                asked_then(
                    self.arguments.asks(app.single_value_arguments, app.multi_value_arguments),
                    self.arguments.complaint(
                        app.single_value_arguments,
                        app.multi_value_arguments,
                    ),
                    self.validators@.len() > 0,
                ),
            ),
        )
    }

    /// Whether the schema has no validator at all.
    pub open spec fn unguarded(&self) -> bool {
        &&& options_unguarded(self.options.0@)
        &&& arguments_unguarded(self.arguments.0@)
        &&& self.validators@.len() == 0
    }

    /// The verdict of validation on `app` when the answers of the
    /// validators are given: `rejection` is the message of the first one
    /// that rejects among those that are asked, or `None` where they all
    /// accept.
    pub open spec fn verdict(&self, app: AppView, rejection: Option<Seq<char>>) -> Option<
        Seq<char>,
    > {
        settle(self.complaint(app), self.asks(app), rejection)
    }

    /// The outcome of reading `tokens` from `state` on, before validation:
    /// the result as it stands when `End` is accepted, or the message of
    /// the first failure. A stream that ends without `End` fails.
    pub open spec fn run(&self, tokens: Seq<TokenView>, state: StateView, app: AppView) -> Result<
        AppView,
        Seq<char>,
    >
        decreases tokens.len(),
    {
        if tokens.len() == 0 {
            Err("err"@)
        } else {
            match self.advance(state, app, tokens[0]) {
                Step::Continue(next, seen) => self.run(tokens.skip(1), next, seen),
                Step::Accept => Ok(app),
                Step::Reject(message) => Err(message),
            }
        }
    }

    /// The outcome of reading an argument vector, before validation.
    pub open spec fn scan(&self, args: Seq<Seq<char>>) -> Result<AppView, Seq<char>> {
        self.run(tokenize(args), StateView::ExpectAnything, AppView::fresh(self.name@))
    }

    /// The outcome of parsing an argument vector when the answers of the
    /// validators are given: a failure of reading stands; what was read is
    /// the result unless validation has a message.
    pub open spec fn parse(&self, args: Seq<Seq<char>>, rejection: Option<Seq<char>>) -> Result<
        AppView,
        Seq<char>,
    > {
        match self.scan(args) {
            Ok(app) => concluded(app, self.verdict(app, rejection)),
            Err(message) => Err(message),
        }
    }

    /// The invariants of the schema model: within the flags, the options
    /// and the positional arguments no two definitions share a name or an
    /// alias; a counted flag and a multi-value option have an alias; no
    /// window is crossed or exactly zero; and only the last positional
    /// argument may take values without an upper bound.
    pub open spec fn sound(&self) -> bool {
        &&& self.flags.distinct()
        &&& self.flags.sound()
        &&& self.options.distinct()
        &&& self.options.sound()
        &&& self.arguments.distinct()
        &&& self.arguments.sound()
    }

    /// Whether the schema keeps the invariants of the schema model.
    pub fn is_sound(&self) -> (r: bool)
        ensures
            r == self.sound(),
    {
        self.flags.is_distinct() && self.flags.is_sound() && self.options.is_distinct()
            && self.options.is_sound() && self.arguments.is_distinct()
            && self.arguments.is_sound()
    }

    /// Holds a result against the schema: the flags first, then the
    /// options, then the positional arguments, then the validators of the
    /// application, which are handed `app` itself; the first message
    /// stands.
    ///
    /// The answers of the validators are open. Whatever they are: a
    /// complaint of the schema's own that is met before a validator is
    /// asked is the verdict; `Ok` is returned only where the schema has no
    /// complaint of its own; and for a schema without validators the verdict
    /// is exactly `self.complaint(app@)`.
    pub fn validate(&self, app: &App) -> (r: Result<(), String>)
        ensures
            abides(complaint_of(r), self.complaint(app@), self.asks(app@)),
    {
        match self.flags.validate(&app.boolean_flags, &app.counted_flags) {
            Err(message) => {
                return Err(message);
            },
            Ok(_) => {},
        }
        match self.options.validate(&app.single_value_options, &app.multi_value_options) {
            Err(message) => {
                return Err(message);
            },
            Ok(_) => {},
        }
        match self.arguments.validate(&app.single_value_arguments, &app.multi_value_arguments) {
            Err(message) => {
                return Err(message);
            },
            Ok(_) => {},
        }
        check_app(&self.validators, app)
    }

    /// The state after the positional argument at `index` has all its
    /// values.
    fn next_positional<'a>(&'a self, index: usize) -> (next: State<'a>)
        requires
            index < self.arguments.0@.len(),
        ensures
            next@ == self.after_positional(index as int),
            self.fits(next@),
    {
        let count = self.arguments.0.len();
        if index + 1 == count {
            if self.subcommand.is_some() {
                State::ExpectCommand
            } else {
                State::ExpectEnd
            }
        } else {
            State::ExpectArgumentValue(&self.arguments.0[index + 1], index + 1)
        }
    }

    /// Reads one token in `state`: the next state, or `None` where the
    /// command line is read, or the message of the failure.
    fn step<'a>(&'a self, state: State<'a>, app: &mut App, token: &Token<'_>, seen: usize) -> (r:
        Result<Option<State<'a>>, String>)
        requires
            self.fits(state@),
            seen < usize::MAX,
            counts_within(old(app)@.counted_flags, seen as int),
        ensures
            match self.advance(state@, old(app)@, token@) {
                Step::Continue(next, result) => {
                    &&& r matches Ok(Some(s))
                    &&& s@ == next
                    &&& self.fits(next)
                    &&& final(app)@ == result
                    &&& counts_within(result.counted_flags, seen + 1)
                },
                Step::Accept => r matches Ok(None) && final(app)@ == old(app)@,
                Step::Reject(message) => r matches Err(e) && e@ == message,
            },
    {
        match token {
            Token::Short(ch) => {
                match state {
                    State::ExpectAnything => {
                        match self.flags.by_short(ch) {
                            Some(flag) => note_flag(flag, app, seen),
                            None => match self.options.by_short(ch) {
                                Some(option) => Ok(Some(State::ExpectOptionValue(option))),
                                None => Err("Invalid arguments".to_owned()),
                            },
                        }
                    },
                    _ => Err(mismatch(state, token)),
                }
            },
            Token::Long(name) => {
                match state {
                    State::ExpectAnything => {
                        match self.flags.by_long(name) {
                            Some(flag) => note_flag(flag, app, seen),
                            None => match self.options.by_long(name) {
                                Some(option) => Ok(Some(State::ExpectOptionValue(option))),
                                None => Err("Invalid arguments".to_owned()),
                            },
                        }
                    },
                    _ => Err(mismatch(state, token)),
                }
            },
            Token::Value(value) => {
                match state {
                    State::ExpectAnything => {
                        if self.arguments.0.len() == 0 {
                            return Err(mismatch(state, token));
                        }
                        match &self.arguments.0[0] {
                            ArgumentDef::SingleValue(a) => {
                                texts_insert(
                                    &mut app.single_value_arguments,
                                    a.name.clone(),
                                    (*value).to_owned(),
                                );
                                Ok(Some(self.next_positional(0)))
                            },
                            ArgumentDef::MultiValue(a) => {
                                let single = match a.max_occurences {
                                    Some(most) => most == 1,
                                    None => false,
                                };
                                if !single && self.arguments.0.len() == 1 {
                                    return Err(mismatch(state, token));
                                }
                                let mut values: Vec<String> = Vec::new();
                                values.push((*value).to_owned());
                                assert(values.deep_view() =~= Seq::empty().push(value@));
                                lists_insert(&mut app.multi_value_arguments, a.name.clone(), values);
                                if single {
                                    Ok(Some(self.next_positional(0)))
                                } else {
                                    Ok(Some(State::ExpectArgumentValue(&self.arguments.0[1], 1)))
                                }
                            },
                        }
                    },
                    State::ExpectOptionValue(option) => {
                        match option {
                            OptionDef::SingleValue(o) => {
                                if texts_get(&app.single_value_options, o.name.as_str()).is_some() {
                                    return Err("Invalid arguments".to_owned());
                                }
                                texts_insert(
                                    &mut app.single_value_options,
                                    o.name.clone(),
                                    (*value).to_owned(),
                                );
                                Ok(Some(State::ExpectAnything))
                            },
                            OptionDef::MultiValue(o) => {
                                let _ = add_value(&mut app.multi_value_options, &o.name, value);
                                Ok(Some(State::ExpectAnything))
                            },
                        }
                    },
                    State::ExpectArgumentValue(argument, index) => {
                        match argument {
                            ArgumentDef::SingleValue(a) => {
                                texts_insert(
                                    &mut app.single_value_arguments,
                                    a.name.clone(),
                                    (*value).to_owned(),
                                );
                                Ok(Some(self.next_positional(index)))
                            },
                            ArgumentDef::MultiValue(a) => {
                                let count = add_value(
                                    &mut app.multi_value_arguments,
                                    &a.name,
                                    value,
                                );
                                let full = match a.max_occurences {
                                    Some(most) => count as u64 == most,
                                    None => false,
                                };
                                if full {
                                    Ok(Some(self.next_positional(index)))
                                } else {
                                    Ok(Some(state))
                                }
                            },
                        }
                    },
                    _ => Err(mismatch(state, token)),
                }
            },
            Token::End => {
                match state {
                    State::ExpectAnything => Ok(None),
                    State::ExpectEnd => Ok(None),
                    _ => Err(mismatch(state, token)),
                }
            },
            _ => Err(mismatch(state, token)),
        }
    }

    /// What holds of an outcome of parsing `args`, whatever the validators
    /// answer: a failure of reading is returned as it is; what was read is
    /// held against the schema as `validate` does, and is the result where
    /// validation has no message.
    pub open spec fn parsed(&self, args: Seq<Seq<char>>, outcome: Result<App, String>) -> bool {
        match self.scan(args) {
            Err(message) => outcome_of(outcome) == Err::<AppView, Seq<char>>(message),
            Ok(app) => {
                &&& abides(failure_of(outcome), self.complaint(app), self.asks(app))
                &&& outcome is Ok ==> outcome_of(outcome) == Ok::<AppView, Seq<char>>(app)
            },
        }
    }

    /// Parses an argument vector against the schema: the validated result,
    /// or the message of the first failure. The offsets inside every short
    /// cluster must be countable.
    pub fn parse_args(&self, args: &[&str]) -> (r: Result<App, String>)
        requires
            readable(texts(args@)),
        ensures
            self.parsed(texts(args@), r),
    {
        match self.scan_args(args) {
            Err(message) => Err(message),
            Ok(app) => {
                let verdict = self.validate(&app);
                conclude(app, verdict)
            },
        }
    }

    /// Parses an argument vector where it can be read, and gives `None`
    /// where a short cluster is too long for its offsets to be counted.
    pub fn parse_readable(&self, args: &[&str]) -> (r: Option<Result<App, String>>)
        ensures
            r is Some == readable(texts(args@)),
            r matches Some(outcome) ==> self.parsed(texts(args@), outcome),
    {
        if is_readable(args) {
            Some(self.parse_args(args))
        } else {
            None
        }
    }

    /// Reads an argument vector against the schema, without validating:
    /// the result as it stands at the end of the arguments, or the message
    /// of the first token that the state machine cannot take.
    pub fn scan_args(&self, args: &[&str]) -> (r: Result<App, String>)
        requires
            readable(texts(args@)),
        ensures
            outcome_of(r) == self.scan(texts(args@)),
    {
        let mut app = App::new(self.name.as_str());
        let mut state = State::ExpectAnything;
        let tokens = Parser::new(args).iter().collect();
        let ghost all = tokens.deep_view();
        let mut i: usize = 0;
        assert(all.skip(0) =~= all);
        while i < tokens.len()
            invariant
                i <= tokens.len(),
                all == tokens.deep_view(),
                all == tokenize(texts(args@)),
                self.fits(state@),
                counts_within(app@.counted_flags, i as int),
                self.scan(texts(args@)) == self.run(all.skip(i as int), state@, app@),
            decreases tokens.len() - i,
        {
            let ghost before = app@;
            let ghost rest = all.skip(i as int);
            assert(rest[0] == tokens[i as int]@);
            assert(rest.skip(1) =~= all.skip(i + 1));
            match self.step(state, &mut app, &tokens[i], i) {
                Err(message) => {
                    return Err(message);
                },
                Ok(None) => {
                    return Ok(app);
                },
                Ok(Some(next)) => {
                    state = next;
                },
            }
            i = i + 1;
        }
        Err("err".to_owned())
    }
}

/// A parse outcome with its result and message as plain values.
pub open spec fn outcome_of(r: Result<App, String>) -> Result<AppView, Seq<char>> {
    match r {
        Ok(app) => Ok(app@),
        Err(message) => Err(message@),
    }
}

/// The message of a parse outcome that is a failure.
pub open spec fn failure_of(r: Result<App, String>) -> Option<Seq<char>> {
    match r {
        Ok(_) => None,
        Err(message) => Some(message@),
    }
}

/// What becomes of a result that was read once validation has spoken: the
/// result itself, or the message of validation.
pub open spec fn concluded(app: AppView, verdict: Option<Seq<char>>) -> Result<
    AppView,
    Seq<char>,
> {
    match verdict {
        Some(message) => Err(message),
        None => Ok(app),
    }
}

/// What becomes of a result that was read once validation has spoken: the
/// result itself, or the message of validation.
pub fn conclude(app: App, verdict: Result<(), String>) -> (r: Result<App, String>)
    ensures
        outcome_of(r) == concluded(app@, complaint_of(verdict)),
{
    match verdict {
        Ok(_) => Ok(app),
        Err(message) => Err(message),
    }
}

/// The message for a token that the state cannot take.
fn mismatch(state: State<'_>, token: &Token<'_>) -> (message: String)
    ensures
        message@ == mismatch_message(state@, token@),
{
    let mut message = String::new();
    push_text(&mut message, "Invalid arguments: ");
    match state {
        State::ExpectAnything => {
            push_text(&mut message, "ExpectAnything");
        },
        State::ExpectOptionValue(option) => {
            push_text(&mut message, "ExpectOptionValue(");
            match option {
                OptionDef::SingleValue(o) => push_text(&mut message, o.name.as_str()),
                OptionDef::MultiValue(o) => push_text(&mut message, o.name.as_str()),
            }
            push_text(&mut message, ")");
            assert(message@ =~= "Invalid arguments: "@ + state_text(state@));
        },
        State::ExpectArgumentValue(argument, index) => {
            push_text(&mut message, "ExpectArgumentValue(");
            match argument {
                ArgumentDef::SingleValue(a) => push_text(&mut message, a.name.as_str()),
                ArgumentDef::MultiValue(a) => push_text(&mut message, a.name.as_str()),
            }
            push_text(&mut message, ", ");
            push_decimal(&mut message, index as u64);
            push_text(&mut message, ")");
            assert(message@ =~= "Invalid arguments: "@ + state_text(state@));
        },
        State::ExpectCommand => {
            push_text(&mut message, "ExpectCommand");
        },
        State::ExpectEnd => {
            push_text(&mut message, "ExpectEnd");
        },
    }
    push_text(&mut message, ", ");
    let shown = token.describe();
    push_text(&mut message, shown.as_str());
    assert(message@ =~= mismatch_message(state@, token@));
    message
}

/// Records a flag in the result.
fn note_flag<'a>(flag: &FlagDef, app: &mut App, seen: usize) -> (r: Result<
    Option<State<'a>>,
    String,
>)
    requires
        seen < usize::MAX,
        counts_within(old(app)@.counted_flags, seen as int),
    ensures
        match flag_step(*flag, old(app)@) {
            Step::Continue(next, result) => {
                &&& r matches Ok(Some(s))
                &&& s@ == next
                &&& next is ExpectAnything
                &&& final(app)@ == result
                &&& counts_within(result.counted_flags, seen + 1)
            },
            Step::Accept => false,
            Step::Reject(message) => r matches Err(e) && e@ == message,
        },
{
    match flag {
        FlagDef::BooleanFlagDef(b) => {
            if flags_get(&app.boolean_flags, b.name.as_str()).is_some() {
                return Err("Invalid arguments".to_owned());
            }
            flags_insert(&mut app.boolean_flags, b.name.clone(), true);
            Ok(Some(State::ExpectAnything))
        },
        FlagDef::CountedFlagDef(c) => {
            let ghost counts = app@.counted_flags;
            let count: u64 = match counts_get(&app.counted_flags, c.name.as_str()) {
                Some(n) => {
                    proof {
                        lemma_position(counts, c.name@);
                    }
                    n + 1
                },
                None => 1,
            };
            counts_insert(&mut app.counted_flags, c.name.clone(), count);
            proof {
                lemma_upsert_entries(counts, c.name@, count);
            }
            Ok(Some(State::ExpectAnything))
        },
    }
}

/// Adds `value` to the values under `name`, and says how many there are now.
fn add_value(lists: &mut IndexMap<String, Vec<String>>, name: &String, value: &str) -> (count:
    usize)
    ensures
        list_entries(*final(lists)) == appended(list_entries(*old(lists)), name@, value@),
        count == values_under(list_entries(*old(lists)), name@).len() + 1,
{
    match lists_get_mut(lists, name.as_str()) {
        Some(values) => {
            let ghost before = values.deep_view();
            values.push(value.to_owned());
            assert(values.deep_view() =~= before.push(value@));
            values.len()
        },
        None => {
            let mut values: Vec<String> = Vec::new();
            values.push(value.to_owned());
            assert(values.deep_view() =~= Seq::<Seq<char>>::empty().push(value@));
            lists_insert(lists, name.clone(), values);
            1
        },
    }
}

} // verus!
