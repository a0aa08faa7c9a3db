use rust_yap::{
    AppDefBuilder, ArgumentDef, BooleanFlagDef, BooleanFlagDefBuilder, CountedFlagDef,
    CountedFlagDefBuilder, FlagDef, FlagDefs, Group, MultiValueArgumentDefBuilder,
    MultiValueOptionDefBuilder, OptionDef, OptionDefs, SingleValueArgumentDefBuilder,
    SingleValueOptionDefBuilder,
};
use indexmap::IndexMap;

fn flag(name: &str, short: Option<char>, long: Option<&str>) -> FlagDef {
    BooleanFlagDefBuilder::new(name.to_string(), short, long.map(|l| l.to_string()))
        .build()
        .unwrap()
        .to_flag_def()
}

fn counted(name: &str, short: Option<char>, long: Option<&str>) -> FlagDef {
    CountedFlagDefBuilder::new(name.to_string(), short, long.map(|l| l.to_string()))
        .build()
        .unwrap()
        .to_flag_def()
}

fn flag_name(f: &FlagDef) -> &str {
    match f {
        FlagDef::BooleanFlagDef(b) => &b.name,
        FlagDef::CountedFlagDef(c) => &c.name,
    }
}

#[test]
fn flags_are_found_by_short_alias() {
    let mut flags = FlagDefs(vec![]);
    flags
        .add_flag(flag("one", Some('a'), None))
        .add_flag(counted("two", Some('b'), Some("bee")))
        .add_flag(flag("three", Some('a'), Some("again")));
    assert_eq!(flags.0.len(), 3);
    assert_eq!(flags.by_short(&'a').map(flag_name), Some("one"));
    assert_eq!(flags.by_short(&'b').map(flag_name), Some("two"));
    assert!(flags.by_short(&'z').is_none());
}

#[test]
fn flags_are_found_by_long_alias() {
    let flags = FlagDefs(vec![
        flag("one", Some('a'), None),
        counted("two", Some('b'), Some("bee")),
        flag("three", None, Some("bee")),
    ]);
    assert_eq!(flags.by_long("bee").map(flag_name), Some("two"));
    assert!(flags.by_long("one").is_none());
    assert!(flags.by_long("").is_none());
    assert!(FlagDefs(vec![]).by_long("bee").is_none());
}

fn single(name: &str, short: Option<char>, long: Option<&str>) -> OptionDef {
    OptionDef::new_single_value(name.to_string(), short, long.map(|l| l.to_string()))
        .build()
        .unwrap()
        .into()
}

fn multi(name: &str, short: Option<char>, long: Option<&str>) -> OptionDef {
    OptionDef::new_multi_value(name.to_string(), short, long.map(|l| l.to_string()))
        .build()
        .unwrap()
        .into()
}

#[test]
fn options_are_found_by_name_short_and_long() {
    let options = OptionDefs(vec![
        single("depth", Some('d'), Some("depth")),
        multi("color", Some('c'), Some("colour")),
        single("color", Some('d'), Some("colour")),
    ]);
    assert_eq!(options.by_name("color").map(|o| o.name()), Some("color".to_string()));
    assert!(matches!(options.by_name("color"), Some(OptionDef::MultiValue(_))));
    assert!(options.by_name("colour").is_none());
    assert_eq!(options.by_short(&'d').map(|o| o.name()), Some("depth".to_string()));
    assert_eq!(options.by_short(&'c').map(|o| o.name()), Some("color".to_string()));
    assert!(options.by_short(&'x').is_none());
    assert!(matches!(options.by_long("colour"), Some(OptionDef::MultiValue(_))));
    assert_eq!(options.by_long("depth").map(|o| o.name()), Some("depth".to_string()));
    assert!(options.by_long("d").is_none());
}

#[test]
fn boolean_flag_builder_fills_in_what_was_not_set() {
    let def = BooleanFlagDefBuilder::new("force".to_string(), Some('f'), None).build().unwrap();
    assert_eq!(def.name, "force");
    assert_eq!(def.short, Some('f'));
    assert_eq!(def.long, None);
    assert_eq!(def.help, None);
    assert_eq!(def.required, false);
    let def = BooleanFlagDefBuilder::default()
        .name("x".to_string())
        .help(Some("does x".to_string()))
        .long(Some("ex".to_string()))
        .required(true)
        .build()
        .unwrap();
    assert_eq!(def.short, None);
    assert_eq!(def.long, Some("ex".to_string()));
    assert_eq!(def.help, Some("does x".to_string()));
    assert_eq!(def.required, true);
}

#[test]
fn builders_need_a_name() {
    assert_eq!(
        BooleanFlagDefBuilder::default().build().err(),
        Some("`name` must be initialized".to_string())
    );
    assert_eq!(
        SingleValueOptionDefBuilder::default().build().err(),
        Some("`name` must be initialized".to_string())
    );
    assert_eq!(
        MultiValueOptionDefBuilder::default().build().err(),
        Some("`name` must be initialized".to_string())
    );
    assert_eq!(
        SingleValueArgumentDefBuilder::default().build().err(),
        Some("`name` must be initialized".to_string())
    );
    assert_eq!(
        MultiValueArgumentDefBuilder::default().build().err(),
        Some("`name` must be initialized".to_string())
    );
    assert_eq!(
        AppDefBuilder::default().build().err(),
        Some("`name` must be initialized".to_string())
    );
    assert_eq!(
        CountedFlagDefBuilder::default().short(Some('c')).build().err(),
        Some("`name` must be initialized".to_string())
    );
}

#[test]
fn counted_flag_needs_an_alias() {
    let r = CountedFlagDefBuilder::new("level".to_string(), None, None).build();
    assert_eq!(
        r.err(),
        Some("Some(\"level\"): either short or long name must be provided".to_string())
    );
    let r = CountedFlagDefBuilder::default().build();
    assert_eq!(r.err(), Some("None: either short or long name must be provided".to_string()));
    assert!(CountedFlagDefBuilder::new("level".to_string(), None, Some("l".to_string()))
        .build()
        .is_ok());
}

#[test]
fn counted_flag_window_must_be_sound() {
    let r = CountedFlagDefBuilder::new("level".to_string(), Some('l'), None)
        .min_occurences(0)
        .max_occurences(Some(0))
        .build();
    assert_eq!(
        r.err(),
        Some("Some(\"level\"): min/max_occurences cannot be both set to 0".to_string())
    );
    let r = CountedFlagDefBuilder::new("level".to_string(), Some('l'), None)
        .max_occurences(Some(0))
        .build();
    assert_eq!(
        r.err(),
        Some("Some(\"level\"): min/max_occurences cannot be both set to 0".to_string())
    );
    let r = CountedFlagDefBuilder::new("level".to_string(), Some('l'), None)
        .min_occurences(4)
        .max_occurences(Some(3))
        .build();
    assert_eq!(
        r.err(),
        Some("Some(\"level\"): min_occurences must not exceed max_occurences".to_string())
    );
    let mut builder = CountedFlagDefBuilder::new("level".to_string(), Some('l'), None);
    builder.min_occurences(3).max_occurences(Some(3));
    assert_eq!(builder.validate_def(), Ok(()));
    let def: CountedFlagDef = builder.build().unwrap();
    assert_eq!(def.min_occurences, 3);
    assert_eq!(def.max_occurences, Some(3));
    let def = CountedFlagDefBuilder::new("level".to_string(), Some('l'), None).build().unwrap();
    assert_eq!(def.min_occurences, 0);
    assert_eq!(def.max_occurences, None);
}

#[test]
fn option_and_argument_builders_fill_in_what_was_not_set() {
    let def = SingleValueOptionDefBuilder::new("o".to_string(), Some('o'), None).build().unwrap();
    assert_eq!((def.required, def.validators.len(), def.help.clone()), (false, 0, None));
    let def = MultiValueOptionDefBuilder::new("o".to_string(), Some('o'), None).build().unwrap();
    assert_eq!((def.min_occurences, def.max_occurences, def.validators.len()), (0, None, 0));
    let def = SingleValueArgumentDefBuilder::new("a".to_string())
        .help(Some("an a".to_string()))
        .build()
        .unwrap();
    assert_eq!((def.required, def.validators.len(), def.help.clone()), (false, 0, Some("an a".to_string())));
    let def = MultiValueArgumentDefBuilder::new("a".to_string()).build().unwrap();
    assert_eq!((def.min_occurences, def.max_occurences, def.validators.len()), (1, None, 0));
    let def = ArgumentDef::new_multi_value("a".to_string())
        .min_occurences(2)
        .max_occurences(Some(5))
        .build()
        .unwrap();
    assert_eq!((def.min_occurences, def.max_occurences), (2, Some(5)));
    assert!(matches!(def.to_argument_def(), ArgumentDef::MultiValue(_)));
    let def = ArgumentDef::new_single_value("a".to_string()).build().unwrap();
    assert!(matches!(def.to_argument_def(), ArgumentDef::SingleValue(_)));
}

#[test]
fn flag_definitions_convert_into_flags() {
    let b: BooleanFlagDef = BooleanFlagDefBuilder::new("b".to_string(), Some('b'), None)
        .build()
        .unwrap();
    assert!(matches!(FlagDef::from(b.clone()), FlagDef::BooleanFlagDef(_)));
    assert!(matches!(b.to_flag_def(), FlagDef::BooleanFlagDef(_)));
    let c = CountedFlagDefBuilder::new("c".to_string(), Some('c'), None).build().unwrap();
    assert!(matches!(FlagDef::from(c), FlagDef::CountedFlagDef(_)));
}

#[test]
fn flag_definitions_validate_against_maps() {
    let mut flags: IndexMap<String, bool> = IndexMap::new();
    let mut counts: IndexMap<String, u64> = IndexMap::new();
    let b = BooleanFlagDefBuilder::new("b".to_string(), Some('b'), None)
        .required(true)
        .build()
        .unwrap();
    assert_eq!(b.validate(&flags), Err("flag b is required".to_string()));
    flags.insert("b".to_string(), true);
    assert_eq!(b.validate(&flags), Ok(()));
    let c = CountedFlagDefBuilder::new("c".to_string(), Some('c'), None)
        .min_occurences(1)
        .max_occurences(Some(2))
        .build()
        .unwrap();
    assert_eq!(
        c.validate(&counts),
        Err("flag c must appear at least 1 time(s), it appeared 0 time(s)".to_string())
    );
    counts.insert("c".to_string(), 2);
    assert_eq!(c.validate(&counts), Ok(()));
    counts.insert("c".to_string(), 1234567890);
    assert_eq!(
        c.validate(&counts),
        Err("flag c may appear at most 2 time(s), it appeared 1234567890 time(s)".to_string())
    );
    let all = FlagDefs(vec![b.to_flag_def(), c.to_flag_def()]);
    assert_eq!(
        all.validate(&flags, &counts),
        Err("flag c may appear at most 2 time(s), it appeared 1234567890 time(s)".to_string())
    );
    counts.insert("c".to_string(), 1);
    assert_eq!(all.validate(&flags, &counts), Ok(()));
}

#[test]
fn app_builder_copies_its_settings_into_the_schema() {
    let mut builder = AppDefBuilder::new("abc".to_string());
    builder.version("9.9".to_string()).help(Some("help".to_string()));
    let def = builder.build().unwrap();
    assert_eq!(def.name, "abc");
    assert_eq!(def.version, "9.9");
    assert_eq!(def.help, Some("help".to_string()));
    assert_eq!(def.flags.0.len(), 1);
    assert_eq!(def.options.0.len(), 0);
    assert_eq!(def.arguments.0.len(), 0);
    assert!(def.flag_groups.is_none());
    assert!(def.option_groups.is_none());
    assert!(def.subcommand.is_none());
    assert_eq!(builder.build().unwrap().version, "9.9");
    assert_eq!(builder.name, Some("abc".to_string()));
    let def = AppDefBuilder::new("abc".to_string()).build().unwrap();
    assert_eq!(def.version, "0.1.0");
    assert_eq!(def.version_line(), "abc 0.1.0");
}

#[test]
fn groups_keep_their_items_in_order_without_repeats() {
    let mut group = Group::new("basic".to_string(), Some("basic options".to_string()));
    assert!(group.items.is_none());
    group.add_item("b");
    group.add_item("a");
    group.add_item("b");
    let items: Vec<&String> = group.items.as_ref().unwrap().iter().collect();
    assert_eq!(items, vec![&"b".to_string(), &"a".to_string()]);
    assert_eq!(group.name, "basic");
    assert_eq!(group.help, Some("basic options".to_string()));
}

#[test]
fn groups_are_stored_under_their_names() {
    let mut builder = AppDefBuilder::new("abc".to_string());
    builder
        .add_flag_group(Group::new("loud".to_string(), None))
        .unwrap()
        .add_flag_group(Group::new("quiet".to_string(), None))
        .unwrap()
        .add_option_group(Group::new("basic".to_string(), None))
        .unwrap()
        .add_option_group(Group::new("basic".to_string(), Some("again".to_string())))
        .unwrap();
    let def = builder.build().unwrap();
    let names: Vec<&String> = def.flag_groups.as_ref().unwrap().keys().collect();
    assert_eq!(names, vec![&"loud".to_string(), &"quiet".to_string()]);
    let groups = def.option_groups.as_ref().unwrap();
    assert_eq!(groups.len(), 1);
    assert_eq!(groups.get("basic").unwrap().help, Some("again".to_string()));
}

#[test]
fn option_groups_take_the_names_of_their_options() {
    let mut builder = AppDefBuilder::new("abc".to_string());
    builder
        .add_option(single("loose", Some('l'), None))
        .add_option_groups(vec![
            (
                Group::new("basic".to_string(), None),
                vec![single("alpha", Some('a'), None), multi("beta", Some('b'), None)],
            ),
            (Group::new("empty".to_string(), None), vec![]),
        ])
        .unwrap()
        .add_option_groups(vec![(
            Group::new("more".to_string(), None),
            vec![single("gamma", Some('g'), None)],
        )])
        .unwrap();
    let def = builder.build().unwrap();
    let names: Vec<String> = def.options.0.iter().map(|o| o.name()).collect();
    assert_eq!(names, vec!["loose", "alpha", "beta", "gamma"]);
    let groups = def.option_groups.as_ref().unwrap();
    let keys: Vec<&String> = groups.keys().collect();
    assert_eq!(keys, vec![&"basic".to_string(), &"empty".to_string(), &"more".to_string()]);
    let items: Vec<&String> = groups["basic"].items.as_ref().unwrap().iter().collect();
    assert_eq!(items, vec![&"alpha".to_string(), &"beta".to_string()]);
    assert!(groups["empty"].items.is_none());
    let items: Vec<&String> = groups["more"].items.as_ref().unwrap().iter().collect();
    assert_eq!(items, vec![&"gamma".to_string()]);
}

#[test]
fn option_joins_an_existing_group() {
    let mut builder = AppDefBuilder::new("abc".to_string());
    assert_eq!(
        builder.add_option_to_group("basic", single("alpha", Some('a'), None)).err(),
        Some("group does not exist: basic".to_string())
    );
    builder.add_option_group(Group::new("basic".to_string(), None)).unwrap();
    builder.add_option_to_group("basic", single("alpha", Some('a'), None)).unwrap();
    builder.add_option_to_group("other", single("beta", Some('b'), None)).unwrap();
    let def = builder.build().unwrap();
    let names: Vec<String> = def.options.0.iter().map(|o| o.name()).collect();
    assert_eq!(names, vec!["alpha", "beta"]);
    let groups = def.option_groups.as_ref().unwrap();
    assert_eq!(groups.len(), 1);
    let items: Vec<&String> = groups["basic"].items.as_ref().unwrap().iter().collect();
    assert_eq!(items, vec![&"alpha".to_string()]);
}

#[test]
fn schema_needs_flags_that_differ() {
    let mut builder = AppDefBuilder::new("abc".to_string());
    builder.add_flag(flag("loud", Some('V'), None));
    assert_eq!(
        builder.build().err(),
        Some("flags must differ in their names and aliases".to_string())
    );
    let mut builder = AppDefBuilder::new("abc".to_string());
    builder.add_flag(flag("verbose", None, None));
    assert_eq!(
        builder.build().err(),
        Some("flags must differ in their names and aliases".to_string())
    );
    let mut builder = AppDefBuilder::new("abc".to_string());
    builder.add_flag(counted("loud", None, Some("verbose")));
    assert_eq!(
        builder.build().err(),
        Some("flags must differ in their names and aliases".to_string())
    );
    let mut builder = AppDefBuilder::new("abc".to_string());
    builder.add_flag(flag("a", None, None)).add_flag(flag("b", None, None));
    let def = builder.build().unwrap();
    assert!(def.is_sound());
    assert!(def.flags.is_distinct());
    assert_eq!(builder.build().unwrap().flags.0.len(), 3);
}

#[test]
fn schema_needs_options_and_arguments_that_differ() {
    let mut builder = AppDefBuilder::new("abc".to_string());
    builder.add_option(single("a", Some('x'), None)).add_option(multi("b", Some('x'), None));
    assert_eq!(
        builder.build().err(),
        Some("options must differ in their names and aliases".to_string())
    );
    let mut builder = AppDefBuilder::new("abc".to_string());
    builder
        .add_option(single("a", None, Some("same")))
        .add_option(single("b", None, Some("same")));
    assert_eq!(
        builder.build().err(),
        Some("options must differ in their names and aliases".to_string())
    );
    let mut builder = AppDefBuilder::new("abc".to_string());
    builder
        .add_argument(ArgumentDef::new_single_value("a".to_string()).build().unwrap().into())
        .add_argument(
            ArgumentDef::new_multi_value("a".to_string())
                .max_occurences(Some(2))
                .build()
                .unwrap()
                .into(),
        );
    assert_eq!(builder.build().err(), Some("arguments must differ in their names".to_string()));
    assert!(OptionDefs(vec![single("a", Some('a'), None), multi("b", Some('b'), Some("a"))])
        .is_distinct());
    assert!(!OptionDefs(vec![single("a", Some('a'), None), multi("a", None, None)]).is_distinct());
}

#[test]
fn schema_needs_sound_definitions() {
    let mut builder = AppDefBuilder::new("abc".to_string());
    builder.add_flag(FlagDef::CountedFlagDef(CountedFlagDef {
        name: "level".to_string(),
        short: None,
        long: None,
        help: None,
        min_occurences: 0,
        max_occurences: None,
    }));
    assert_eq!(
        builder.build().err(),
        Some("a counted flag needs an alias and a window that is not empty".to_string())
    );
    let mut builder = AppDefBuilder::new("abc".to_string());
    builder.add_option(
        OptionDef::new_multi_value("o".to_string(), Some('o'), None)
            .min_occurences(3)
            .max_occurences(Some(2))
            .build()
            .unwrap()
            .into(),
    );
    assert_eq!(
        builder.build().err(),
        Some("a multi-value option needs a marker and a window that is not empty".to_string())
    );
    let mut builder = AppDefBuilder::new("abc".to_string());
    builder.add_option(multi("o", None, None));
    assert_eq!(
        builder.build().err(),
        Some("a multi-value option needs a marker and a window that is not empty".to_string())
    );
    let mut builder = AppDefBuilder::new("abc".to_string());
    builder
        .add_argument(ArgumentDef::new_multi_value("files".to_string()).build().unwrap().into())
        .add_argument(ArgumentDef::new_single_value("last".to_string()).build().unwrap().into());
    assert_eq!(
        builder.build().err(),
        Some(
            "a multi-value argument needs a window that is not empty, and one before the last needs an upper bound"
                .to_string()
        )
    );
    let mut builder = AppDefBuilder::new("abc".to_string());
    builder.add_argument(
        ArgumentDef::new_multi_value("files".to_string())
            .min_occurences(0)
            .max_occurences(Some(0))
            .build()
            .unwrap()
            .into(),
    );
    assert!(builder.build().is_err());
    let mut builder = AppDefBuilder::new("abc".to_string());
    builder
        .add_argument(ArgumentDef::new_single_value("first".to_string()).build().unwrap().into())
        .add_argument(ArgumentDef::new_multi_value("files".to_string()).build().unwrap().into());
    assert!(builder.build().unwrap().is_sound());
}

fn shareable<T: Send + Sync>(_: &T) -> bool {
    true
}

#[test]
fn schema_can_be_shared_between_threads() {
    let def = AppDefBuilder::new("abc".to_string())
        .validators(vec![rust_yap::AppValidator::new(|_app: &rust_yap::App| Ok(()))])
        .build()
        .unwrap();
    assert!(shareable(&def));
    let first = def.parse_args(&["-V"]).unwrap();
    let second = def.parse_args(&[]).unwrap();
    assert_eq!(first.boolean_flags.len(), 1);
    assert_eq!(second.boolean_flags.len(), 0);
}
