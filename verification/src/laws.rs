//! What holds of every parse and of every validation: what validation says
//! whatever the validators answer, and exactly where there are none; that a
//! result speaks of the schema's application and files everything under
//! canonical names of the schema, never under an alias.

use vstd::prelude::*;
use crate::app::{App, AppView};
use crate::arguments::{lemma_unguarded_arguments_ask_nothing, ArgumentDef};
use crate::checks::{abides, complaint_of, lemma_abides_is_settled, settle};
use crate::entries::{lemma_upsert_entries, upsert};
use crate::flags::FlagDef;
use crate::options::{lemma_unguarded_options_ask_nothing, OptionDef};
use crate::parser::{tokenize, TokenView};
use crate::schema::{marker_step, once_more, outcome_of, values_under, AppDef, StateView, Step};

verus! {

/// A schema without validators asks none, whatever the result.
pub proof fn lemma_unguarded_asks_nothing(def: AppDef, app: AppView)
    requires
        def.unguarded(),
    ensures
        !def.asks(app),
{
    lemma_unguarded_options_ask_nothing(
        def.options.0@,
        app.single_value_options,
        app.multi_value_options,
    );
    lemma_unguarded_arguments_ask_nothing(
        def.arguments.0@,
        app.single_value_arguments,
        app.multi_value_arguments,
    );
}

/// For a schema without validators the verdict of `AppDef::validate` is
/// exactly the schema's own complaint.
pub proof fn lemma_unguarded_validation_is_exact(def: AppDef, app: App, verdict: Result<(), String>)
    requires
        def.unguarded(),
        abides(complaint_of(verdict), def.complaint(app@), def.asks(app@)),
    ensures
        complaint_of(verdict) == def.complaint(app@),
{
    lemma_unguarded_asks_nothing(def, app@);
}

/// For a schema without validators the outcome of `AppDef::parse_args` is
/// exactly what was read, held against the schema's own constraints.
pub proof fn lemma_unguarded_parse_is_exact(
    def: AppDef,
    args: Seq<Seq<char>>,
    outcome: Result<App, String>,
)
    requires
        def.unguarded(),
        def.parsed(args, outcome),
    ensures
        outcome_of(outcome) == def.parse(args, None),
{
    match def.scan(args) {
        Ok(app) => {
            lemma_unguarded_asks_nothing(def, app);
        },
        Err(_) => {},
    }
}

/// `Ok` is the verdict only where every constraint of the schema's own
/// holds, whatever the validators answer.
pub proof fn lemma_accepted_meets_own_constraints(def: AppDef, app: App, verdict: Result<(), String>)
    requires
        abides(complaint_of(verdict), def.complaint(app@), def.asks(app@)),
        verdict is Ok,
    ensures
        def.complaint(app@) is None,
{
}

/// A complaint of the schema's own that is met before a validator is asked
/// is the verdict, whatever the validators would answer.
pub proof fn lemma_own_complaint_stands(def: AppDef, app: App, verdict: Result<(), String>)
    requires
        abides(complaint_of(verdict), def.complaint(app@), def.asks(app@)),
        !def.asks(app@),
    ensures
        complaint_of(verdict) == def.complaint(app@),
{
}

/// The verdicts that `AppDef::validate` may give are those that some
/// answers of the validators give.
pub proof fn lemma_verdicts_are_settled(def: AppDef, app: App, verdict: Result<(), String>)
    ensures
        abides(complaint_of(verdict), def.complaint(app@), def.asks(app@)) <==> exists|
            rejection: Option<Seq<char>>,
        |
            complaint_of(verdict) == #[trigger] def.verdict(app@, rejection),
{
    lemma_abides_is_settled(complaint_of(verdict), def.complaint(app@), def.asks(app@));
    if abides(complaint_of(verdict), def.complaint(app@), def.asks(app@)) {
        let rejection = choose|rejection: Option<Seq<char>>|
            complaint_of(verdict) == #[trigger] settle(
                def.complaint(app@),
                def.asks(app@),
                rejection,
            );
        assert(complaint_of(verdict) == def.verdict(app@, rejection));
    }
    if exists|rejection: Option<Seq<char>>|
        complaint_of(verdict) == #[trigger] def.verdict(app@, rejection) {
        let rejection = choose|rejection: Option<Seq<char>>|
            complaint_of(verdict) == #[trigger] def.verdict(app@, rejection);
        assert(complaint_of(verdict) == settle(def.complaint(app@), def.asks(app@), rejection));
    }
}

/// Validation is idempotent for a schema without validators: two verdicts
/// of `AppDef::validate` on the same schema and the same result are the
/// same verdict.
pub proof fn lemma_validation_is_idempotent(
    def: AppDef,
    app: App,
    first: Result<(), String>,
    second: Result<(), String>,
)
    requires
        def.unguarded(),
        abides(complaint_of(first), def.complaint(app@), def.asks(app@)),
        abides(complaint_of(second), def.complaint(app@), def.asks(app@)),
    ensures
        complaint_of(first) == complaint_of(second),
        first is Ok <==> second is Ok,
{
    lemma_unguarded_asks_nothing(def, app@);
}

/// Validation is idempotent where the validators answer alike: two
/// verdicts on the same schema and the same result, given the same answers
/// of the validators, are the same verdict, and both are verdicts that
/// `AppDef::validate` may give.
pub proof fn lemma_validation_is_idempotent_given(
    def: AppDef,
    app: App,
    rejection: Option<Seq<char>>,
    first: Result<(), String>,
    second: Result<(), String>,
)
    requires
        complaint_of(first) == def.verdict(app@, rejection),
        complaint_of(second) == def.verdict(app@, rejection),
    ensures
        complaint_of(first) == complaint_of(second),
        first is Ok <==> second is Ok,
        abides(complaint_of(first), def.complaint(app@), def.asks(app@)),
        abides(complaint_of(second), def.complaint(app@), def.asks(app@)),
{
}

/// A result that a parse gives is what was read, and it meets every
/// constraint of the schema's own, whatever the validators answered.
pub proof fn lemma_parsed_is_valid(def: AppDef, args: Seq<Seq<char>>, rejection: Option<Seq<char>>)
    ensures
        def.parse(args, rejection) matches Ok(result) ==> def.scan(args) == Ok::<
            AppView,
            Seq<char>,
        >(result) && def.complaint(result) is None,
{
}

/// Every key of `entries` is one of `names`.
pub open spec fn keys_among<V>(entries: Seq<(Seq<char>, V)>, names: Seq<Seq<char>>) -> bool {
    forall|i: int| 0 <= i < entries.len() ==> names.contains((#[trigger] entries[i]).0)
}

/// The canonical names of the flags of a schema.
pub open spec fn flag_names(def: AppDef) -> Seq<Seq<char>> {
    Seq::new(def.flags.0@.len(), |i: int| def.flags.0@[i].key())
}

/// The canonical names of the positional arguments of a schema.
pub open spec fn argument_names(def: AppDef) -> Seq<Seq<char>> {
    Seq::new(def.arguments.0@.len(), |i: int| def.arguments.0@[i].key())
}

/// The result is one of the schema's application, and every key in it is
/// the canonical name of a definition of the kind that the map is for.
pub open spec fn files_under_names(def: AppDef, app: AppView) -> bool {
    &&& app.name == def.name@
    &&& keys_among(app.boolean_flags, flag_names(def))
    &&& keys_among(app.counted_flags, flag_names(def))
    &&& keys_among(app.single_value_options, def.options.keys())
    &&& keys_among(app.multi_value_options, def.options.keys())
    &&& keys_among(app.single_value_arguments, argument_names(def))
    &&& keys_among(app.multi_value_arguments, argument_names(def))
}

/// The definition that the state waits for is one of the schema.
pub open spec fn waits_for_own(def: AppDef, state: StateView) -> bool {
    match state {
        StateView::ExpectOptionValue(o) => def.options.0@.contains(o),
        StateView::ExpectArgumentValue(a, index) => index < def.arguments.0@.len()
            && def.arguments.0@[index as int] == a,
        _ => true,
    }
}

/// Storing under one of `names` keeps every key among `names`.
pub proof fn lemma_upsert_keeps_keys_among<V>(
    entries: Seq<(Seq<char>, V)>,
    key: Seq<char>,
    value: V,
    names: Seq<Seq<char>>,
)
    requires
        keys_among(entries, names),
        names.contains(key),
    ensures
        keys_among(upsert(entries, key, value), names),
{
    lemma_upsert_entries(entries, key, value);
    let after = upsert(entries, key, value);
    assert forall|i: int| 0 <= i < after.len() implies names.contains((#[trigger] after[i]).0) by {
        if after[i] != (key, value) {
            assert(after[i] == entries[i]);
        }
    }
}

proof fn lemma_found_flag_is_own(def: AppDef, found: Option<FlagDef>, by_short: bool, ch: char, name: Seq<char>)
    requires
        found == (if by_short {
            def.flags.with_short(ch)
        } else {
            def.flags.with_long(name)
        }),
    ensures
        found matches Some(f) ==> flag_names(def).contains(f.key()),
{
    def.flags.short_aliases().index_of_first_ensures(Some(ch));
    def.flags.long_aliases().index_of_first_ensures(Some(name));
    if found is Some {
        let i = if by_short {
            def.flags.short_aliases().index_of_first(Some(ch))->0
        } else {
            def.flags.long_aliases().index_of_first(Some(name))->0
        };
        assert(flag_names(def)[i] == found->0.key());
    }
}

proof fn lemma_found_option_is_own(def: AppDef, found: Option<OptionDef>, by_short: bool, ch: char, name: Seq<char>)
    requires
        found == (if by_short {
            def.options.with_short(ch)
        } else {
            def.options.with_long(name)
        }),
    ensures
        found matches Some(o) ==> def.options.0@.contains(o),
{
    def.options.short_aliases().index_of_first_ensures(Some(ch));
    def.options.long_aliases().index_of_first_ensures(Some(name));
    if found is Some {
        let i = if by_short {
            def.options.short_aliases().index_of_first(Some(ch))->0
        } else {
            def.options.long_aliases().index_of_first(Some(name))->0
        };
        assert(def.options.0@[i] == found->0);
    }
}

proof fn lemma_marker_keeps_names(
    def: AppDef,
    flag: Option<FlagDef>,
    option: Option<OptionDef>,
    app: AppView,
)
    requires
        files_under_names(def, app),
        flag matches Some(f) ==> flag_names(def).contains(f.key()),
        option matches Some(o) ==> def.options.0@.contains(o),
    ensures
        marker_step(flag, option, app) matches Step::Continue(next, result) ==> files_under_names(
            def,
            result,
        ) && waits_for_own(def, next),
{
    match flag {
        Some(FlagDef::BooleanFlagDef(b)) => {
            lemma_upsert_keeps_keys_among(app.boolean_flags, b.name@, true, flag_names(def));
        },
        Some(FlagDef::CountedFlagDef(c)) => {
            lemma_upsert_keeps_keys_among(
                app.counted_flags,
                c.name@,
                once_more(app.counted_flags, c.name@),
                flag_names(def),
            );
        },
        None => {},
    }
}

proof fn lemma_own_option_has_own_name(def: AppDef, option: OptionDef)
    requires
        def.options.0@.contains(option),
    ensures
        def.options.keys().contains(option.key()),
{
    let i = choose|i: int| 0 <= i < def.options.0@.len() && def.options.0@[i] == option;
    assert(def.options.keys()[i] == option.key());
}

proof fn lemma_after_positional_is_own(def: AppDef, index: int)
    requires
        0 <= index < def.arguments.0@.len(),
        def.arguments.0@.len() <= usize::MAX,
    ensures
        waits_for_own(def, def.after_positional(index)),
{
}

/// One step of the state machine keeps the result filed under canonical
/// names and keeps waiting for definitions of the schema.
pub proof fn lemma_advance_keeps_names(def: AppDef, state: StateView, app: AppView, token: TokenView)
    requires
        def.arguments.0@.len() <= usize::MAX,
        files_under_names(def, app),
        waits_for_own(def, state),
    ensures
        def.advance(state, app, token) matches Step::Continue(next, result) ==> files_under_names(
            def,
            result,
        ) && waits_for_own(def, next),
{
    match token {
        TokenView::Short(ch) => {
            if state is ExpectAnything {
                lemma_found_flag_is_own(def, def.flags.with_short(ch), true, ch, Seq::empty());
                lemma_found_option_is_own(def, def.options.with_short(ch), true, ch, Seq::empty());
                lemma_marker_keeps_names(
                    def,
                    def.flags.with_short(ch),
                    def.options.with_short(ch),
                    app,
                );
            }
        },
        TokenView::Long(name) => {
            if state is ExpectAnything {
                lemma_found_flag_is_own(def, def.flags.with_long(name), false, 'a', name);
                lemma_found_option_is_own(def, def.options.with_long(name), false, 'a', name);
                lemma_marker_keeps_names(
                    def,
                    def.flags.with_long(name),
                    def.options.with_long(name),
                    app,
                );
            }
        },
        TokenView::Value(value) => {
            match state {
                StateView::ExpectAnything => {
                    if def.arguments.0@.len() > 0 {
                        let first = def.arguments.0@[0];
                        assert(argument_names(def)[0] == first.key());
                        lemma_after_positional_is_own(def, 0);
                        match first {
                            ArgumentDef::SingleValue(a) => {
                                lemma_upsert_keeps_keys_among(
                                    app.single_value_arguments,
                                    a.name@,
                                    value,
                                    argument_names(def),
                                );
                            },
                            ArgumentDef::MultiValue(a) => {
                                lemma_upsert_keeps_keys_among(
                                    app.multi_value_arguments,
                                    a.name@,
                                    Seq::empty().push(value),
                                    argument_names(def),
                                );
                            },
                        }
                    }
                },
                StateView::ExpectOptionValue(o) => {
                    lemma_own_option_has_own_name(def, o);
                    match o {
                        OptionDef::SingleValue(s) => {
                            lemma_upsert_keeps_keys_among(
                                app.single_value_options,
                                s.name@,
                                value,
                                def.options.keys(),
                            );
                        },
                        OptionDef::MultiValue(m) => {
                            lemma_upsert_keeps_keys_among(
                                app.multi_value_options,
                                m.name@,
                                values_under(app.multi_value_options, m.name@).push(value),
                                def.options.keys(),
                            );
                        },
                    }
                },
                StateView::ExpectArgumentValue(a, index) => {
                    assert(argument_names(def)[index as int] == a.key());
                    lemma_after_positional_is_own(def, index as int);
                    match a {
                        ArgumentDef::SingleValue(s) => {
                            lemma_upsert_keeps_keys_among(
                                app.single_value_arguments,
                                s.name@,
                                value,
                                argument_names(def),
                            );
                        },
                        ArgumentDef::MultiValue(m) => {
                            lemma_upsert_keeps_keys_among(
                                app.multi_value_arguments,
                                m.name@,
                                values_under(app.multi_value_arguments, m.name@).push(value),
                                argument_names(def),
                            );
                        },
                    }
                },
                _ => {},
            }
        },
        _ => {},
    }
}

/// Whatever `run` accepts, from a result filed under canonical names and a
/// state that waits for a definition of the schema, is filed under
/// canonical names.
pub proof fn lemma_run_keeps_names(
    def: AppDef,
    tokens: Seq<TokenView>,
    state: StateView,
    app: AppView,
)
    requires
        def.arguments.0@.len() <= usize::MAX,
        files_under_names(def, app),
        waits_for_own(def, state),
    ensures
        def.run(tokens, state, app) matches Ok(result) ==> files_under_names(def, result),
    decreases tokens.len(),
{
    if tokens.len() > 0 {
        lemma_advance_keeps_names(def, state, app, tokens[0]);
        match def.advance(state, app, tokens[0]) {
            Step::Continue(next, seen) => {
                lemma_run_keeps_names(def, tokens.skip(1), next, seen);
            },
            Step::Accept => {},
            Step::Reject(_) => {},
        }
    }
}

/// The result of a parse bears the name of the schema's application, and
/// every key in it is the canonical name of a flag, an option or a
/// positional argument of the schema: never an alias, never a name from
/// elsewhere. (The bound on the number of positional arguments holds of
/// every vector.)
pub proof fn lemma_parse_files_under_names(
    def: AppDef,
    args: Seq<Seq<char>>,
    rejection: Option<Seq<char>>,
)
    requires
        def.arguments.0@.len() <= usize::MAX,
    ensures
        def.scan(args) matches Ok(result) ==> files_under_names(def, result),
        def.parse(args, rejection) matches Ok(result) ==> files_under_names(def, result),
{
    lemma_run_keeps_names(
        def,
        tokenize(args),
        StateView::ExpectAnything,
        AppView::fresh(def.name@),
    );
}

} // verus!
