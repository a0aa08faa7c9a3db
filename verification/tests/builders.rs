use indexmap::IndexSet;
use rust_yap::{
    AppDefBuilder, ArgumentDef, BasicSubCommandDefBuilder, BooleanFlagDefBuilder, FlagDef,
    Group, GroupBuilder, OptionDef, OptionDefs, SubCommandChainDefBuilder,
    SubCommandChainsDefBuilder, SubCommandDef, SubCommandValidator, ValueValidator,
};

fn leaf() -> Box<SubCommandDef> {
    Box::new(SubCommandDef::SubCommandEnumDef(vec![]))
}

fn named(def: &SubCommandDef) -> &str {
    match def {
        SubCommandDef::BasicSubCommandDef(d) => d.name.as_str(),
        SubCommandDef::SubCommandChainDef(d) => d.name.as_str(),
        SubCommandDef::SubCommandChainsDef(d) => d.name.as_str(),
        SubCommandDef::SubCommandEnumDef(_) => "",
    }
}

#[test]
fn building_a_schema_leaves_the_builder_as_it_was() {
    let mut builder = AppDefBuilder::new("tool".to_string());
    builder
        .version("2.0".to_string())
        .add_option(
            OptionDef::new_single_value("tag".to_string(), Some('t'), None)
                .validators(vec![ValueValidator::new(|value: &str| {
                    if value.is_empty() {
                        Err("empty".to_string())
                    } else {
                        Ok(())
                    }
                })])
                .build()
                .unwrap()
                .into(),
        )
        .add_argument(ArgumentDef::new_single_value("target".to_string()).build().unwrap().into());
    let first = builder.build().unwrap();
    let second = builder.build().unwrap();
    assert_eq!(builder.name, Some("tool".to_string()));
    assert_eq!(builder.options.as_ref().unwrap().0.len(), 1);
    for def in [&first, &second] {
        assert_eq!(def.name, "tool");
        assert_eq!(def.version, "2.0");
        assert_eq!(def.flags.0.len(), 1);
        assert_eq!(def.options.0.len(), 1);
        assert_eq!(def.arguments.0.len(), 1);
        assert_eq!(def.parse_args(&["-t", ""]).unwrap_err(), "empty");
        let app = def.parse_args(&["-t", "x", "y"]).unwrap();
        assert_eq!(app.single_value_options.get("tag").unwrap(), "x");
        assert_eq!(app.single_value_arguments.get("target").unwrap(), "y");
    }
    builder.add_flag(
        BooleanFlagDefBuilder::new("force".to_string(), Some('f'), None).build().unwrap().into(),
    );
    assert_eq!(builder.build().unwrap().flags.0.len(), 2);
    assert_eq!(first.flags.0.len(), 1);
}

#[test]
fn schema_copy_says_the_same() {
    let mut builder = AppDefBuilder::new("tool".to_string());
    builder.help(Some("does things".to_string()));
    builder
        .add_option_groups(vec![(
            Group::new("colours".to_string(), None),
            vec![OptionDef::new_single_value("red".to_string(), Some('r'), None)
                .build()
                .unwrap()
                .into()],
        )])
        .unwrap();
    builder.subcommand(Some(leaf()));
    let def = builder.build().unwrap();
    let copy = def.clone();
    assert_eq!(copy.name, def.name);
    assert_eq!(copy.version, def.version);
    assert_eq!(copy.help, def.help);
    assert_eq!(copy.options.0.len(), 1);
    let groups = copy.option_groups.as_ref().unwrap();
    assert_eq!(groups.len(), 1);
    assert!(groups["colours"].items.as_ref().unwrap().contains("red"));
    assert!(copy.subcommand.is_some());
    assert_eq!(copy.usage(), def.usage());
}

#[test]
fn group_builder_needs_a_name() {
    assert_eq!(GroupBuilder::default().build().err().unwrap(), "`name` must be initialized");
    let mut items = IndexSet::new();
    items.insert("b".to_string());
    items.insert("a".to_string());
    let mut builder = GroupBuilder::default();
    builder.name("letters".to_string()).help(Some("some letters".to_string())).items(Some(items));
    let group = builder.build().unwrap();
    assert_eq!(group.name, "letters");
    assert_eq!(group.help, Some("some letters".to_string()));
    let kept: Vec<&String> = group.items.as_ref().unwrap().iter().collect();
    assert_eq!(kept, vec!["b", "a"]);
    let plain = GroupBuilder::default().name("plain".to_string()).build().unwrap();
    assert!(plain.items.is_none());
    assert!(plain.help.is_none());
    let copy = group.clone();
    assert_eq!(copy.name, "letters");
    assert_eq!(copy.items.unwrap().len(), 2);
}

#[test]
fn basic_subcommand_builder_fills_in_the_defaults() {
    assert_eq!(
        BasicSubCommandDefBuilder::default().build().err().unwrap(),
        "`name` must be initialized"
    );
    let mut builder = BasicSubCommandDefBuilder::default();
    builder.name("add".to_string());
    assert_eq!(builder.build().err().unwrap(), "`subcommand` must be initialized");
    builder.subcommand(None);
    let def = builder.build().unwrap();
    assert_eq!(def.name, "add");
    assert!(def.help.is_none());
    assert!(def.validators.is_none());
    assert!(!def.required);
    assert!(def.flags.is_empty());
    assert!(def.flag_groups.is_none());
    assert!(def.options.0.is_empty());
    assert!(def.option_groups.is_none());
    assert!(def.arguments.0.is_empty());
    assert!(def.subcommand.is_none());
    assert!(def.subcommand_groups.is_none());
}

#[test]
fn basic_subcommand_builder_keeps_what_was_set() {
    let flag: FlagDef =
        BooleanFlagDefBuilder::new("all".to_string(), Some('a'), None).build().unwrap().into();
    let mut builder = BasicSubCommandDefBuilder::default();
    builder
        .name("add".to_string())
        .help(Some("adds".to_string()))
        .validators(Some(vec![SubCommandValidator::new(|_def: &SubCommandDef| Ok(()))]))
        .required(true)
        .flags(vec![flag])
        .options(OptionDefs(vec![OptionDef::new_single_value("tag".to_string(), Some('t'), None)
            .build()
            .unwrap()
            .into()]))
        .subcommand(Some(leaf()));
    let def = builder.build().unwrap();
    assert_eq!(def.help, Some("adds".to_string()));
    assert_eq!(def.validators.as_ref().unwrap().len(), 1);
    assert!(def.required);
    assert_eq!(def.flags.len(), 1);
    assert_eq!(def.options.0.len(), 1);
    assert!(def.subcommand.is_some());
    assert_eq!(builder.build().unwrap().name, "add");
}

#[test]
fn chain_builder_names_the_first_missing_setting() {
    let mut builder = SubCommandChainDefBuilder::default();
    assert_eq!(builder.build().err().unwrap(), "`name` must be initialized");
    builder.name("step".to_string());
    assert_eq!(builder.build().err().unwrap(), "`validators` must be initialized");
    builder.validators(vec![]);
    assert_eq!(builder.build().err().unwrap(), "`arguments` must be initialized");
    builder.arguments(vec![ArgumentDef::new_single_value("x".to_string()).build().unwrap().into()]);
    assert_eq!(builder.build().err().unwrap(), "`subcommand` must be initialized");
    builder.subcommand(leaf());
    let def = builder.build().unwrap();
    assert_eq!(def.name, "step");
    assert!(def.help.is_none());
    assert_eq!(def.arguments.len(), 1);
    assert_eq!(def.min_occurences, 1);
    assert_eq!(def.max_occurences, None);
    builder.min_occurences(2).max_occurences(Some(5));
    let wider = builder.build().unwrap();
    assert_eq!(wider.min_occurences, 2);
    assert_eq!(wider.max_occurences, Some(5));
}

#[test]
fn chains_builder_has_no_defaults() {
    let mut builder = SubCommandChainsDefBuilder::default();
    builder.name("flow".to_string());
    assert_eq!(builder.build().err().unwrap(), "`help` must be initialized");
    builder.help(None);
    assert_eq!(builder.build().err().unwrap(), "`validators` must be initialized");
    builder.validators(vec![]);
    assert_eq!(builder.build().err().unwrap(), "`arguments` must be initialized");
    builder.arguments(vec![]);
    assert_eq!(builder.build().err().unwrap(), "`subcommands` must be initialized");
    builder.subcommands(vec![leaf(), leaf()]);
    let def = builder.build().unwrap();
    assert_eq!(def.name, "flow");
    assert_eq!(def.subcommands.len(), 2);
}

#[test]
fn subcommand_copy_goes_all_the_way_down() {
    let mut inner = SubCommandChainDefBuilder::default();
    inner.name("inner".to_string()).validators(vec![]).arguments(vec![]).subcommand(leaf());
    let inner = SubCommandDef::SubCommandChainDef(inner.build().unwrap());
    let mut outer = BasicSubCommandDefBuilder::default();
    outer.name("outer".to_string()).subcommand(Some(Box::new(inner)));
    let outer = SubCommandDef::BasicSubCommandDef(outer.build().unwrap());
    let copy = outer.clone();
    assert_eq!(named(&copy), "outer");
    match &copy {
        SubCommandDef::BasicSubCommandDef(d) => {
            let nested = d.subcommand.as_ref().unwrap();
            assert_eq!(named(nested), "inner");
            match &**nested {
                SubCommandDef::SubCommandChainDef(c) => {
                    assert!(matches!(&*c.subcommand, SubCommandDef::SubCommandEnumDef(v) if v.is_empty()))
                },
                _ => panic!("the nested command changed its shape"),
            }
        },
        _ => panic!("the command changed its shape"),
    }
}
