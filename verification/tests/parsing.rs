use rust_yap::{
    AppDef, AppDefBuilder, AppValidator, ArgumentDef, BooleanFlagDefBuilder,
    CountedFlagDefBuilder, MultiValueValidator, OptionDef, SubCommandDef, ValueValidator,
};

fn schema_with_option() -> AppDef {
    AppDefBuilder::new("tool".to_string())
        .add_option(
            OptionDef::new_single_value("depth".to_string(), Some('s'), Some("long".to_string()))
                .build()
                .unwrap()
                .into(),
        )
        .build()
        .unwrap()
}

#[test]
fn single_value_option_by_long_marker_is_stored() {
    let def = schema_with_option();
    let app = def.parse_args(&["--long", "value"]).unwrap();
    assert_eq!(app.single_value_options.get("depth"), Some(&"value".to_string()));
    assert_eq!(app.single_value_arguments.get("depth"), None);
    assert_eq!(app.name, "tool");
}

#[test]
fn single_value_option_by_short_marker_is_stored() {
    let def = schema_with_option();
    let app = def.parse_args(&["-s", "7"]).unwrap();
    assert_eq!(app.single_value_options.get("depth"), Some(&"7".to_string()));
}

#[test]
fn marker_in_place_of_an_option_value_fails() {
    let def = schema_with_option();
    let r = def.parse_args(&["-s", "--long", "value"]);
    assert_eq!(
        r.unwrap_err(),
        "Invalid arguments: ExpectOptionValue(depth), Long(\"long\")"
    );
}

#[test]
fn single_value_option_given_twice_fails() {
    let def = schema_with_option();
    let r = def.parse_args(&["-s", "1", "--long", "2"]);
    assert_eq!(r.unwrap_err(), "Invalid arguments");
}

#[test]
fn option_without_its_value_fails() {
    let def = schema_with_option();
    let r = def.parse_args(&["-s"]);
    assert_eq!(r.unwrap_err(), "Invalid arguments: ExpectOptionValue(depth), End");
}

#[test]
fn unknown_markers_fail() {
    let def = schema_with_option();
    assert_eq!(def.parse_args(&["-x"]).unwrap_err(), "Invalid arguments");
    assert_eq!(def.parse_args(&["--nothing"]).unwrap_err(), "Invalid arguments");
}

#[test]
fn empty_command_line_gives_an_empty_result() {
    let def = schema_with_option();
    let app = def.parse_args(&[]).unwrap();
    assert!(app.boolean_flags.is_empty());
    assert!(app.counted_flags.is_empty());
    assert!(app.single_value_options.is_empty());
    assert!(app.multi_value_options.is_empty());
    assert!(app.single_value_arguments.is_empty());
    assert!(app.multi_value_arguments.is_empty());
}

#[test]
fn every_builder_starts_with_the_verbose_flag() {
    let def = AppDefBuilder::new("tool".to_string()).build().unwrap();
    let app = def.parse_args(&["-V"]).unwrap();
    assert_eq!(app.boolean_flags.get("verbose"), Some(&true));
    let app = def.parse_args(&["--verbose"]).unwrap();
    assert_eq!(app.boolean_flags.get("verbose"), Some(&true));
    let app = def.parse_args(&[]).unwrap();
    assert_eq!(app.boolean_flags.get("verbose"), None);
}

#[test]
fn boolean_flag_given_twice_fails() {
    let def = AppDefBuilder::new("tool".to_string()).build().unwrap();
    assert_eq!(def.parse_args(&["-V", "--verbose"]).unwrap_err(), "Invalid arguments");
    assert_eq!(def.parse_args(&["-VV"]).unwrap_err(), "Invalid arguments");
}

#[test]
fn required_boolean_flag_must_be_present() {
    let def = AppDefBuilder::new("tool".to_string())
        .add_flag(
            BooleanFlagDefBuilder::new("force".to_string(), Some('f'), None)
                .required(true)
                .build()
                .unwrap()
                .into(),
        )
        .build()
        .unwrap();
    assert_eq!(def.parse_args(&[]).unwrap_err(), "flag force is required");
    let app = def.parse_args(&["-f"]).unwrap();
    assert_eq!(app.boolean_flags.get("force"), Some(&true));
}

fn schema_with_counted_flag(min: u64, max: Option<u64>) -> AppDef {
    AppDefBuilder::new("tool".to_string())
        .add_flag(
            CountedFlagDefBuilder::new("level".to_string(), Some('l'), Some("level".to_string()))
                .min_occurences(min)
                .max_occurences(max)
                .build()
                .unwrap()
                .into(),
        )
        .build()
        .unwrap()
}

#[test]
fn counted_flag_must_stay_inside_its_window() {
    let def = schema_with_counted_flag(3, Some(3));
    assert_eq!(
        def.parse_args(&["-l", "-l"]).unwrap_err(),
        "flag level must appear at least 3 time(s), it appeared 2 time(s)"
    );
    assert_eq!(
        def.parse_args(&["-llll"]).unwrap_err(),
        "flag level may appear at most 3 time(s), it appeared 4 time(s)"
    );
    let app = def.parse_args(&["-l", "--level", "-l"]).unwrap();
    assert_eq!(app.counted_flags.get("level"), Some(&3));
    assert_eq!(
        def.parse_args(&[]).unwrap_err(),
        "flag level must appear at least 3 time(s), it appeared 0 time(s)"
    );
}

#[test]
fn counted_flag_counts_every_occurrence() {
    let def = schema_with_counted_flag(0, None);
    let app = def.parse_args(&["-lllllllllll", "-l"]).unwrap();
    assert_eq!(app.counted_flags.get("level"), Some(&12));
    let app = def.parse_args(&[]).unwrap();
    assert_eq!(app.counted_flags.get("level"), None);
    let def = schema_with_counted_flag(0, Some(11));
    assert_eq!(
        def.parse_args(&["-llllllllllll"]).unwrap_err(),
        "flag level may appear at most 11 time(s), it appeared 12 time(s)"
    );
}

#[test]
fn flags_are_looked_up_before_options() {
    let def = AppDefBuilder::new("tool".to_string())
        .add_option(
            OptionDef::new_single_value("volume".to_string(), Some('V'), None)
                .build()
                .unwrap()
                .into(),
        )
        .build()
        .unwrap();
    let app = def.parse_args(&["-V"]).unwrap();
    assert_eq!(app.boolean_flags.get("verbose"), Some(&true));
    assert_eq!(app.single_value_options.get("volume"), None);
}

#[test]
fn lexical_error_fails_with_its_place() {
    let def = AppDefBuilder::new("tool".to_string()).build().unwrap();
    assert_eq!(
        def.parse_args(&["-V "]).unwrap_err(),
        "Invalid arguments: ExpectAnything, Error(\"invalid character\", Position { argument: 0, char_in_argument: 2 })"
    );
    assert_eq!(
        def.parse_args(&["-V", "-"]).unwrap_err(),
        "Invalid arguments: ExpectAnything, Error(\"invalid value\", Position { argument: 1, char_in_argument: 0 })"
    );
}

#[test]
fn positional_separator_is_out_of_place() {
    let def = AppDefBuilder::new("tool".to_string()).build().unwrap();
    assert_eq!(
        def.parse_args(&["--"]).unwrap_err(),
        "Invalid arguments: ExpectAnything, PositionalSeparator"
    );
}

#[test]
fn value_without_any_positional_is_out_of_place() {
    let def = AppDefBuilder::new("tool".to_string()).build().unwrap();
    assert_eq!(
        def.parse_args(&["stray"]).unwrap_err(),
        "Invalid arguments: ExpectAnything, Value(\"stray\")"
    );
}

#[test]
fn multi_value_option_collects_its_values_in_order() {
    let def = AppDefBuilder::new("tool".to_string())
        .add_option(
            OptionDef::new_multi_value("color".to_string(), Some('c'), Some("color".to_string()))
                .min_occurences(2)
                .max_occurences(Some(3))
                .build()
                .unwrap()
                .into(),
        )
        .build()
        .unwrap();
    let app = def.parse_args(&["-c", "red", "--color", "green"]).unwrap();
    assert_eq!(
        app.multi_value_options.get("color"),
        Some(&vec!["red".to_string(), "green".to_string()])
    );
    assert_eq!(app.multi_value_arguments.get("color"), None);
    assert_eq!(
        def.parse_args(&["-c", "red"]).unwrap_err(),
        "option color must appear at least 2 time(s), it appeared 1 time(s)"
    );
    assert_eq!(
        def.parse_args(&[]).unwrap_err(),
        "option color must appear at least 2 time(s), it appeared 0 time(s)"
    );
    assert_eq!(
        def.parse_args(&["-c", "1", "-c", "2", "-c", "3", "-c", "4"]).unwrap_err(),
        "option color may appear at most 3 time(s), it appeared 4 time(s)"
    );
}

fn three_positionals() -> AppDef {
    AppDefBuilder::new("food_delivery".to_string())
        .add_argument(
            ArgumentDef::new_single_value("main".to_string()).required(true).build().unwrap().into(),
        )
        .add_argument(
            ArgumentDef::new_single_value("drink".to_string())
                .required(true)
                .build()
                .unwrap()
                .into(),
        )
        .add_argument(
            ArgumentDef::new_single_value("side".to_string()).required(true).build().unwrap().into(),
        )
        .build()
        .unwrap()
}

#[test]
fn positionals_are_assigned_in_declaration_order() {
    let def = three_positionals();
    let app = def.parse_args(&["pizza", "orange juice", "coleslaw"]).unwrap();
    let stored: Vec<(&String, &String)> = app.single_value_arguments.iter().collect();
    assert_eq!(
        stored,
        vec![
            (&"main".to_string(), &"pizza".to_string()),
            (&"drink".to_string(), &"orange juice".to_string()),
            (&"side".to_string(), &"coleslaw".to_string()),
        ]
    );
}

#[test]
fn too_few_or_too_many_positionals_fail() {
    let def = three_positionals();
    assert_eq!(
        def.parse_args(&[]).unwrap_err(),
        "required positional argument: main is missing"
    );
    assert_eq!(
        def.parse_args(&["pizza"]).unwrap_err(),
        "Invalid arguments: ExpectArgumentValue(drink, 1), End"
    );
    assert_eq!(
        def.parse_args(&["pizza", "juice"]).unwrap_err(),
        "Invalid arguments: ExpectArgumentValue(side, 2), End"
    );
    assert_eq!(
        def.parse_args(&["pizza", "juice", "slaw", "salt"]).unwrap_err(),
        "Invalid arguments: ExpectEnd, Value(\"salt\")"
    );
    assert_eq!(
        def.parse_args(&["pizza", "-V"]).unwrap_err(),
        "Invalid arguments: ExpectArgumentValue(drink, 1), Short('V')"
    );
}

#[test]
fn flags_may_stand_before_the_positionals() {
    let def = three_positionals();
    let app = def.parse_args(&["-V", "a", "b", "c"]).unwrap();
    assert_eq!(app.boolean_flags.get("verbose"), Some(&true));
    assert_eq!(app.single_value_arguments.get("side"), Some(&"c".to_string()));
}

#[test]
fn optional_positional_may_be_absent() {
    let def = AppDefBuilder::new("tool".to_string())
        .add_argument(ArgumentDef::new_single_value("target".to_string()).build().unwrap().into())
        .build()
        .unwrap();
    let app = def.parse_args(&[]).unwrap();
    assert_eq!(app.single_value_arguments.get("target"), None);
}

fn single_then_multi(max: Option<u64>, then_single: bool) -> AppDef {
    let mut builder = AppDefBuilder::new("tool".to_string());
    builder.add_argument(
        ArgumentDef::new_single_value("first".to_string()).required(true).build().unwrap().into(),
    );
    builder.add_argument(
        ArgumentDef::new_multi_value("files".to_string())
            .max_occurences(max)
            .build()
            .unwrap()
            .into(),
    );
    if then_single {
        builder.add_argument(
            ArgumentDef::new_single_value("last".to_string()).build().unwrap().into(),
        );
    }
    builder.build().unwrap()
}

#[test]
fn multi_value_positional_takes_values_up_to_its_maximum() {
    let def = single_then_multi(Some(2), true);
    let app = def.parse_args(&["a", "b", "c", "d"]).unwrap();
    assert_eq!(app.single_value_arguments.get("first"), Some(&"a".to_string()));
    assert_eq!(
        app.multi_value_arguments.get("files"),
        Some(&vec!["b".to_string(), "c".to_string()])
    );
    assert_eq!(app.single_value_arguments.get("last"), Some(&"d".to_string()));
    assert_eq!(
        def.parse_args(&["a", "b"]).unwrap_err(),
        "Invalid arguments: ExpectArgumentValue(files, 1), End"
    );
    assert_eq!(
        def.parse_args(&["a", "b", "c", "d", "e"]).unwrap_err(),
        "Invalid arguments: ExpectEnd, Value(\"e\")"
    );
}

#[test]
fn open_multi_value_positional_never_hands_over() {
    let def = single_then_multi(None, false);
    assert_eq!(
        def.parse_args(&["a", "b", "c"]).unwrap_err(),
        "Invalid arguments: ExpectArgumentValue(files, 1), End"
    );
}

#[test]
fn missing_multi_value_positional_is_below_its_window() {
    let def = single_then_multi(Some(2), false);
    assert_eq!(
        def.parse_args(&["a"]).unwrap_err(),
        "Invalid arguments: ExpectArgumentValue(files, 1), End"
    );
    let def = AppDefBuilder::new("tool".to_string())
        .add_argument(
            ArgumentDef::new_multi_value("files".to_string())
                .max_occurences(Some(1))
                .build()
                .unwrap()
                .into(),
        )
        .build()
        .unwrap();
    assert_eq!(
        def.parse_args(&[]).unwrap_err(),
        "argument files must appear at least 1 time(s), it appeared 0 time(s)"
    );
}

#[test]
fn first_multi_value_positional_of_one_value_behaves_like_a_single_one() {
    let def = AppDefBuilder::new("tool".to_string())
        .add_argument(
            ArgumentDef::new_multi_value("files".to_string())
                .max_occurences(Some(1))
                .build()
                .unwrap()
                .into(),
        )
        .add_argument(ArgumentDef::new_single_value("mode".to_string()).build().unwrap().into())
        .build()
        .unwrap();
    let app = def.parse_args(&["x", "fast"]).unwrap();
    assert_eq!(app.multi_value_arguments.get("files"), Some(&vec!["x".to_string()]));
    assert_eq!(app.single_value_arguments.get("mode"), Some(&"fast".to_string()));
}

#[test]
fn first_multi_value_positional_hands_over_after_its_first_value() {
    let def = AppDefBuilder::new("tool".to_string())
        .add_argument(
            ArgumentDef::new_multi_value("files".to_string())
                .max_occurences(Some(3))
                .build()
                .unwrap()
                .into(),
        )
        .add_argument(ArgumentDef::new_single_value("mode".to_string()).build().unwrap().into())
        .build()
        .unwrap();
    let app = def.parse_args(&["x", "fast"]).unwrap();
    assert_eq!(app.multi_value_arguments.get("files"), Some(&vec!["x".to_string()]));
    assert_eq!(app.single_value_arguments.get("mode"), Some(&"fast".to_string()));
}

#[test]
fn lone_multi_value_positional_of_several_values_takes_none() {
    let def = AppDefBuilder::new("tool".to_string())
        .add_argument(ArgumentDef::new_multi_value("files".to_string()).build().unwrap().into())
        .build()
        .unwrap();
    assert_eq!(
        def.parse_args(&["x"]).unwrap_err(),
        "Invalid arguments: ExpectAnything, Value(\"x\")"
    );
    assert_eq!(
        def.parse_args(&[]).unwrap_err(),
        "argument files must appear at least 1 time(s), it appeared 0 time(s)"
    );
    let def = AppDefBuilder::new("tool".to_string())
        .add_argument(
            ArgumentDef::new_multi_value("files".to_string())
                .min_occurences(0)
                .max_occurences(Some(2))
                .build()
                .unwrap()
                .into(),
        )
        .build()
        .unwrap();
    assert_eq!(
        def.parse_args(&["-V", "x"]).unwrap_err(),
        "Invalid arguments: ExpectAnything, Value(\"x\")"
    );
    assert!(def.parse_args(&["-V"]).is_ok());
}

#[test]
fn declared_subcommand_is_waited_for_after_the_positionals() {
    let def = AppDefBuilder::new("tool".to_string())
        .add_argument(ArgumentDef::new_single_value("target".to_string()).build().unwrap().into())
        .subcommand(Some(Box::new(SubCommandDef::SubCommandEnumDef(vec![]))))
        .build()
        .unwrap();
    assert_eq!(
        def.parse_args(&["x"]).unwrap_err(),
        "Invalid arguments: ExpectCommand, End"
    );
    assert_eq!(
        def.parse_args(&["x", "run"]).unwrap_err(),
        "Invalid arguments: ExpectCommand, Value(\"run\")"
    );
    assert!(def.parse_args(&[]).is_ok());
}

fn short_enough(value: &str) -> Result<(), String> {
    if value.len() <= 3 {
        Ok(())
    } else {
        Err(format!("{} is too long", value))
    }
}

fn not_empty(value: &str) -> Result<(), String> {
    if value.is_empty() {
        Err("empty".to_string())
    } else {
        Ok(())
    }
}

#[test]
fn value_validators_run_in_order_on_a_given_option() {
    let def = AppDefBuilder::new("tool".to_string())
        .add_option(
            OptionDef::new_single_value("tag".to_string(), Some('t'), None)
                .validators(vec![ValueValidator::new(not_empty), ValueValidator::new(short_enough)])
                .build()
                .unwrap()
                .into(),
        )
        .build()
        .unwrap();
    assert!(def.parse_args(&[]).is_ok());
    assert!(def.parse_args(&["-t", "abc"]).is_ok());
    assert_eq!(def.parse_args(&["-t", "abcd"]).unwrap_err(), "abcd is too long");
    assert_eq!(def.parse_args(&["-t", ""]).unwrap_err(), "empty");
}

#[test]
fn value_validators_run_on_a_given_positional() {
    let def = AppDefBuilder::new("tool".to_string())
        .add_argument(
            ArgumentDef::new_single_value("tag".to_string())
                .validators(vec![ValueValidator::new(short_enough)])
                .build()
                .unwrap()
                .into(),
        )
        .build()
        .unwrap();
    assert!(def.parse_args(&[]).is_ok());
    assert!(def.parse_args(&["abc"]).is_ok());
    assert_eq!(def.parse_args(&["abcd"]).unwrap_err(), "abcd is too long");
}

#[test]
fn multi_value_validators_see_the_whole_list() {
    let def = AppDefBuilder::new("tool".to_string())
        .add_option(
            OptionDef::new_multi_value("rgb".to_string(), None, Some("rgb".to_string()))
                .validators(vec![MultiValueValidator::new(|values: &Vec<String>| {
                    if values.len() == 3 {
                        Ok(())
                    } else {
                        Err(format!("rgb takes 3 values, not {}", values.len()))
                    }
                })])
                .build()
                .unwrap()
                .into(),
        )
        .build()
        .unwrap();
    assert!(def.parse_args(&[]).is_ok());
    assert!(def.parse_args(&["--rgb", "1", "--rgb", "2", "--rgb", "3"]).is_ok());
    assert_eq!(
        def.parse_args(&["--rgb", "1"]).unwrap_err(),
        "rgb takes 3 values, not 1"
    );
}

#[test]
fn validation_goes_flags_options_arguments_application() {
    let def = AppDefBuilder::new("tool".to_string())
        .validators(vec![AppValidator::new(|_app: &rust_yap::App| Err("app".to_string()))])
        .add_flag(
            BooleanFlagDefBuilder::new("force".to_string(), Some('f'), None)
                .required(true)
                .build()
                .unwrap()
                .into(),
        )
        .add_option(
            OptionDef::new_single_value("tag".to_string(), Some('t'), None)
                .validators(vec![ValueValidator::new(|_v: &str| Err("option".to_string()))])
                .build()
                .unwrap()
                .into(),
        )
        .add_argument(
            ArgumentDef::new_single_value("target".to_string())
                .required(true)
                .build()
                .unwrap()
                .into(),
        )
        .build()
        .unwrap();
    assert_eq!(def.parse_args(&["-t", "x"]).unwrap_err(), "flag force is required");
    assert_eq!(def.parse_args(&["-f", "-t", "x"]).unwrap_err(), "option");
    assert_eq!(
        def.parse_args(&["-f"]).unwrap_err(),
        "required positional argument: target is missing"
    );
    assert_eq!(def.parse_args(&["-f", "here"]).unwrap_err(), "app");
}

#[test]
fn application_validators_see_the_finished_result() {
    let def = AppDefBuilder::new("tool".to_string())
        .validators(vec![AppValidator::new(|app: &rust_yap::App| {
            if app.boolean_flags.contains_key("verbose") {
                Err("too loud".to_string())
            } else {
                Ok(())
            }
        })])
        .build()
        .unwrap();
    assert!(def.parse_args(&[]).is_ok());
    assert_eq!(def.parse_args(&["-V"]).unwrap_err(), "too loud");
}

#[test]
fn validating_twice_gives_the_same_verdict() {
    let def = three_positionals();
    let app = def.parse_args(&["a", "b", "c"]).unwrap();
    assert_eq!(def.validate(&app), Ok(()));
    assert_eq!(def.validate(&app), def.validate(&app));
    let empty = rust_yap::App::new("food_delivery");
    let first = def.validate(&empty);
    let second = def.validate(&empty);
    assert_eq!(first, second);
    assert_eq!(first.unwrap_err(), "required positional argument: main is missing");
}

#[test]
fn new_result_is_empty() {
    let app = rust_yap::App::new("abc");
    assert_eq!(app.name, "abc");
    assert_eq!(app.boolean_flags.len(), 0);
    assert_eq!(app.multi_value_options.len(), 0);
}

#[test]
fn results_are_filed_under_canonical_names() {
    let def = AppDefBuilder::new("tool".to_string())
        .add_flag(
            CountedFlagDefBuilder::new("level".to_string(), Some('l'), Some("lvl".to_string()))
                .build()
                .unwrap()
                .into(),
        )
        .add_option(
            OptionDef::new_single_value("depth".to_string(), Some('d'), Some("deep".to_string()))
                .build()
                .unwrap()
                .into(),
        )
        .add_option(
            OptionDef::new_multi_value("color".to_string(), Some('c'), Some("col".to_string()))
                .build()
                .unwrap()
                .into(),
        )
        .add_argument(ArgumentDef::new_single_value("target".to_string()).build().unwrap().into())
        .build()
        .unwrap();
    let app = def
        .parse_args(&["--verbose", "--lvl", "-l", "--deep", "3", "--col", "red", "-c", "blue", "x"])
        .unwrap();
    assert_eq!(app.name, "tool");
    let keys: Vec<&String> = app.boolean_flags.keys().collect();
    assert_eq!(keys, vec![&"verbose".to_string()]);
    let keys: Vec<&String> = app.counted_flags.keys().collect();
    assert_eq!(keys, vec![&"level".to_string()]);
    assert_eq!(app.counted_flags["level"], 2);
    let keys: Vec<&String> = app.single_value_options.keys().collect();
    assert_eq!(keys, vec![&"depth".to_string()]);
    let keys: Vec<&String> = app.multi_value_options.keys().collect();
    assert_eq!(keys, vec![&"color".to_string()]);
    assert_eq!(app.multi_value_options["color"], vec!["red".to_string(), "blue".to_string()]);
    let keys: Vec<&String> = app.single_value_arguments.keys().collect();
    assert_eq!(keys, vec![&"target".to_string()]);
    assert!(app.multi_value_arguments.is_empty());
}
