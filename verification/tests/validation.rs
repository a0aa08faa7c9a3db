use rust_yap::schema::conclude;
use rust_yap::{
    App, AppDef, AppDefBuilder, AppValidator, ArgumentDef, BooleanFlagDefBuilder,
    MultiValueValidator, OptionDef, ValueValidator,
};
use std::sync::{Arc, Mutex};

fn recorder(log: &Arc<Mutex<Vec<String>>>, verdict: Result<(), String>) -> ValueValidator {
    let log = Arc::clone(log);
    ValueValidator::new(move |value: &str| {
        log.lock().unwrap().push(value.to_string());
        verdict.clone()
    })
}

fn tagged(log: &Arc<Mutex<Vec<String>>>, required: bool) -> AppDef {
    AppDefBuilder::new("tool".to_string())
        .add_flag(
            BooleanFlagDefBuilder::new("force".to_string(), Some('f'), None)
                .required(required)
                .build()
                .unwrap()
                .into(),
        )
        .add_option(
            OptionDef::new_single_value("tag".to_string(), Some('t'), Some("label".to_string()))
                .validators(vec![recorder(log, Ok(()))])
                .build()
                .unwrap()
                .into(),
        )
        .build()
        .unwrap()
}

#[test]
fn validator_is_handed_the_value_under_the_canonical_name() {
    let log = Arc::new(Mutex::new(Vec::new()));
    let def = tagged(&log, false);
    let app = def.parse_args(&["--label", "blue"]).unwrap();
    assert_eq!(app.single_value_options.get("tag").unwrap(), "blue");
    assert_eq!(*log.lock().unwrap(), vec!["blue".to_string()]);
    let again = def.parse_args(&["-t", "green"]).unwrap();
    assert_eq!(again.single_value_options.get("tag").unwrap(), "green");
    assert_eq!(*log.lock().unwrap(), vec!["blue".to_string(), "green".to_string()]);
}

#[test]
fn validator_of_an_absent_option_is_not_asked() {
    let log = Arc::new(Mutex::new(Vec::new()));
    let def = tagged(&log, false);
    assert!(def.parse_args(&[]).is_ok());
    assert!(def.parse_args(&["-f"]).is_ok());
    assert!(log.lock().unwrap().is_empty());
}

#[test]
fn own_complaint_comes_before_a_validator_is_asked() {
    let log = Arc::new(Mutex::new(Vec::new()));
    let def = tagged(&log, true);
    assert_eq!(
        def.parse_args(&["-t", "blue"]).unwrap_err(),
        "flag force is required"
    );
    assert!(log.lock().unwrap().is_empty());
}

#[test]
fn parse_error_comes_before_a_validator_is_asked() {
    let log = Arc::new(Mutex::new(Vec::new()));
    let def = tagged(&log, false);
    assert_eq!(
        def.parse_args(&["-t", "blue", "-t", "red"]).unwrap_err(),
        "Invalid arguments"
    );
    assert!(log.lock().unwrap().is_empty());
}

#[test]
fn later_validators_are_not_asked_after_a_message() {
    let first = Arc::new(Mutex::new(Vec::new()));
    let second = Arc::new(Mutex::new(Vec::new()));
    let def = AppDefBuilder::new("tool".to_string())
        .add_argument(
            ArgumentDef::new_single_value("target".to_string())
                .validators(vec![
                    recorder(&first, Err("no".to_string())),
                    recorder(&second, Ok(())),
                ])
                .build()
                .unwrap()
                .into(),
        )
        .build()
        .unwrap();
    assert_eq!(def.parse_args(&["x"]).unwrap_err(), "no");
    assert_eq!(*first.lock().unwrap(), vec!["x".to_string()]);
    assert!(second.lock().unwrap().is_empty());
}

#[test]
fn absent_required_positional_is_reported_without_asking() {
    let log = Arc::new(Mutex::new(Vec::new()));
    let def = AppDefBuilder::new("tool".to_string())
        .add_argument(
            ArgumentDef::new_single_value("target".to_string())
                .required(true)
                .validators(vec![recorder(&log, Err("no".to_string()))])
                .build()
                .unwrap()
                .into(),
        )
        .build()
        .unwrap();
    assert_eq!(
        def.validate(&App::new("tool")).unwrap_err(),
        "required positional argument: target is missing"
    );
    assert!(log.lock().unwrap().is_empty());
}

#[test]
fn window_is_held_before_the_validators_of_a_list() {
    let asked = Arc::new(Mutex::new(0u32));
    let count = Arc::clone(&asked);
    let def = AppDefBuilder::new("tool".to_string())
        .add_option(
            OptionDef::new_multi_value("rgb".to_string(), Some('c'), None)
                .min_occurences(2)
                .max_occurences(Some(3))
                .validators(vec![MultiValueValidator::new(move |values: &Vec<String>| {
                    *count.lock().unwrap() += 1;
                    if values[0] == "0" {
                        Err("black".to_string())
                    } else {
                        Ok(())
                    }
                })])
                .build()
                .unwrap()
                .into(),
        )
        .build()
        .unwrap();
    assert_eq!(
        def.parse_args(&["-c", "0"]).unwrap_err(),
        "option rgb must appear at least 2 time(s), it appeared 1 time(s)"
    );
    assert_eq!(*asked.lock().unwrap(), 0);
    assert_eq!(def.parse_args(&["-c", "0", "-c", "1"]).unwrap_err(), "black");
    assert_eq!(*asked.lock().unwrap(), 1);
    assert!(def.parse_args(&["-c", "1", "-c", "0"]).is_ok());
    assert_eq!(*asked.lock().unwrap(), 2);
}

#[test]
fn application_validator_is_handed_the_whole_result() {
    let seen = Arc::new(Mutex::new(Vec::new()));
    let log = Arc::clone(&seen);
    let def = AppDefBuilder::new("tool".to_string())
        .validators(vec![AppValidator::new(move |app: &App| {
            let mut names: Vec<String> = app.boolean_flags.keys().cloned().collect();
            names.extend(app.single_value_arguments.values().cloned());
            names.push(app.name.clone());
            log.lock().unwrap().push(names);
            Ok(())
        })])
        .add_argument(ArgumentDef::new_single_value("target".to_string()).build().unwrap().into())
        .build()
        .unwrap();
    assert!(def.parse_args(&["-V", "all"]).is_ok());
    assert_eq!(
        *seen.lock().unwrap(),
        vec![vec!["verbose".to_string(), "all".to_string(), "tool".to_string()]]
    );
}

#[test]
fn scanning_reads_without_validating() {
    let log = Arc::new(Mutex::new(Vec::new()));
    let def = tagged(&log, true);
    let app = def.scan_args(&["-t", "blue"]).unwrap();
    assert_eq!(app.name, "tool");
    assert_eq!(app.single_value_options.get("tag").unwrap(), "blue");
    assert!(app.boolean_flags.is_empty());
    assert!(log.lock().unwrap().is_empty());
    assert_eq!(def.scan_args(&["-x"]).unwrap_err(), "Invalid arguments");
    assert_eq!(
        def.scan_args(&["--"]).unwrap_err(),
        "Invalid arguments: ExpectAnything, PositionalSeparator"
    );
    assert_eq!(def.validate(&app).unwrap_err(), "flag force is required");
}

#[test]
fn verdict_decides_what_becomes_of_a_result() {
    let kept = conclude(App::new("tool"), Ok(())).unwrap();
    assert_eq!(kept.name, "tool");
    assert_eq!(conclude(App::new("tool"), Err("no".to_string())).unwrap_err(), "no");
}

#[test]
fn schema_without_validators_gives_the_same_verdict_every_time() {
    let def = AppDefBuilder::new("tool".to_string())
        .add_flag(
            BooleanFlagDefBuilder::new("force".to_string(), Some('f'), None)
                .required(true)
                .build()
                .unwrap()
                .into(),
        )
        .build()
        .unwrap();
    let missing = App::new("tool");
    assert_eq!(def.validate(&missing), Err("flag force is required".to_string()));
    assert_eq!(def.validate(&missing), def.validate(&missing));
    let given = def.parse_args(&["-f"]).unwrap();
    assert_eq!(def.validate(&given), Ok(()));
    assert_eq!(def.validate(&given), Ok(()));
}

#[test]
fn validators_that_answer_alike_give_the_same_verdict() {
    let log = Arc::new(Mutex::new(Vec::new()));
    let def = AppDefBuilder::new("tool".to_string())
        .add_argument(
            ArgumentDef::new_single_value("target".to_string())
                .validators(vec![recorder(&log, Err("no".to_string()))])
                .build()
                .unwrap()
                .into(),
        )
        .build()
        .unwrap();
    let app = def.scan_args(&["x"]).unwrap();
    assert_eq!(def.validate(&app), Err("no".to_string()));
    assert_eq!(def.validate(&app), Err("no".to_string()));
    assert_eq!(log.lock().unwrap().len(), 2);
}

#[test]
fn readable_arguments_are_parsed() {
    let log = Arc::new(Mutex::new(Vec::new()));
    let def = tagged(&log, false);
    let app = def.parse_readable(&["-ft", "blue"]).unwrap().unwrap();
    assert!(app.boolean_flags.contains_key("force"));
    assert_eq!(app.single_value_options.get("tag").unwrap(), "blue");
    assert_eq!(def.parse_readable(&["-x"]).unwrap().unwrap_err(), "Invalid arguments");
}

#[test]
fn subject_is_what_is_filed_under_the_canonical_name() {
    let option = OptionDef::new_single_value("tag".to_string(), Some('t'), Some("label".to_string()))
        .build()
        .unwrap();
    let mut values = indexmap::IndexMap::new();
    assert_eq!(option.subject_in(&values), None);
    values.insert("label".to_string(), "alias".to_string());
    values.insert("t".to_string(), "short".to_string());
    assert_eq!(option.subject_in(&values), None);
    values.insert("tag".to_string(), "blue".to_string());
    assert_eq!(option.subject_in(&values), Some(&"blue".to_string()));

    let argument = ArgumentDef::new_multi_value("files".to_string()).build().unwrap();
    let mut lists = indexmap::IndexMap::new();
    assert_eq!(argument.subject_in(&lists), None);
    lists.insert("other".to_string(), vec!["x".to_string()]);
    assert_eq!(argument.subject_in(&lists), None);
    lists.insert("files".to_string(), vec!["a".to_string(), "b".to_string()]);
    assert_eq!(argument.subject_in(&lists), Some(&vec!["a".to_string(), "b".to_string()]));
}
