use rust_yap::{
    AppDef, AppDefBuilder, ArgumentDef, ArgumentDefs, Group, OptionDef, SubCommandDef,
};

#[test]
fn single_value_option_help_line() {
    let def = OptionDef::new_single_value("verbose".to_string(), Some('v'), Some("verbose".to_string()))
        .help(Some("be verbose".to_string()))
        .build()
        .unwrap();
    assert_eq!(def.get_help(), "    -v, --verbose be verbose\n");
    let def = OptionDef::new_single_value("x".to_string(), Some('x'), None).build().unwrap();
    assert_eq!(def.get_help(), "    -x\n");
    let def = OptionDef::new_single_value("x".to_string(), None, Some("ex".to_string()))
        .build()
        .unwrap();
    assert_eq!(def.get_help(), "    --ex\n");
}

#[test]
fn multi_value_option_help_line_shows_the_occurrences() {
    let def = OptionDef::new_multi_value("complex".to_string(), Some('c'), Some("complex".to_string()))
        .help(Some("complex option".to_string()))
        .build()
        .unwrap();
    assert_eq!(def.get_help(), "    -c, --complex [COMPLEX] [...] complex option\n");
    let def = OptionDef::new_multi_value("color".to_string(), None, Some("color".to_string()))
        .min_occurences(3)
        .max_occurences(Some(3))
        .help(Some("color RGB values".to_string()))
        .build()
        .unwrap();
    assert_eq!(def.get_help(), "    --color COLOR COLOR COLOR color RGB values\n");
    let def = OptionDef::new_multi_value("p".to_string(), Some('p'), None)
        .min_occurences(1)
        .max_occurences(Some(3))
        .build()
        .unwrap();
    assert_eq!(def.get_help(), "    -p P [P] [P]\n");
    let def = OptionDef::new_multi_value("straße".to_string(), Some('p'), None)
        .min_occurences(2)
        .build()
        .unwrap();
    assert_eq!(def.get_help(), "    -p STRASSE STRASSE [...]\n");
    let def: OptionDef = OptionDef::new_multi_value("q".to_string(), Some('q'), None)
        .min_occurences(2)
        .max_occurences(Some(1))
        .build()
        .unwrap()
        .into();
    assert_eq!(def.get_help(), "    -q Q Q\n");
    assert_eq!(def.name(), "q");
}

#[test]
fn arguments_part_of_the_usage() {
    let def = AppDef {
        name: "abc".to_string(),
        arguments: ArgumentDefs(vec![
            ArgumentDef::new_single_value("src".to_string()).required(true).build().unwrap().into(),
            ArgumentDef::new_single_value("dst".to_string()).build().unwrap().into(),
            ArgumentDef::new_multi_value("more".to_string()).build().unwrap().into(),
            ArgumentDef::new_multi_value("opt".to_string())
                .min_occurences(0)
                .build()
                .unwrap()
                .into(),
            ArgumentDef::new_multi_value("few".to_string())
                .min_occurences(1)
                .max_occurences(Some(2))
                .build()
                .unwrap()
                .into(),
        ]),
        ..AppDef::default()
    };
    assert!(!def.is_sound());
    assert_eq!(def.get_arguments_part(), " src [dst] more [...] [opt] [...] few [few]");
    let def = AppDefBuilder::new("abc".to_string()).build().unwrap();
    assert_eq!(def.get_arguments_part(), "");
}

#[test]
fn usage_of_a_schema_without_options() {
    let def = AppDefBuilder::new("abc".to_string())
        .help(Some("this is an app".to_string()))
        .build()
        .unwrap();
    assert!(def.can_show());
    assert_eq!(def.usage(), "this is an app\n\nUSAGE:\n    abc [FLAGS]\n\n");
    assert_eq!(def.version_line(), "abc 0.1.0");
}

#[test]
fn usage_shows_every_kind_of_entry() {
    let def = AppDefBuilder::new("abc".to_string())
        .flags(rust_yap::FlagDefs(vec![]))
        .add_argument(
            ArgumentDef::new_single_value("src".to_string()).required(true).build().unwrap().into(),
        )
        .subcommand(Some(Box::new(SubCommandDef::SubCommandEnumDef(vec![]))))
        .build()
        .unwrap();
    assert_eq!(def.usage(), "\n\nUSAGE:\n    abc src [SUBCOMMAND(S)]\n\n");
}

#[test]
fn usage_lists_grouped_options_before_the_others() {
    let def = AppDefBuilder::new("abc".into())
        .help(Some("this is an app".into()))
        .add_option_groups(vec![
            (
                Group::new("basic".into(), Some("basic options".into())),
                vec![OptionDef::new_single_value(
                    "verbose".into(),
                    Some('v'),
                    Some("verbose".into()),
                )
                .help(Some("be verbose".into()))
                .build()
                .unwrap()
                .into()],
            ),
            (
                Group::new("advanced".into(), Some("advanced options".into())),
                vec![
                    OptionDef::new_multi_value("complex".into(), Some('c'), Some("complex".into()))
                        .help(Some("complex option".into()))
                        .build()
                        .unwrap()
                        .into(),
                    OptionDef::new_multi_value("color".into(), None, Some("color".into()))
                        .min_occurences(3)
                        .max_occurences(Some(3))
                        .help(Some("color RGB values".into()))
                        .build()
                        .unwrap()
                        .into(),
                ],
            ),
        ])
        .unwrap()
        .add_option(
            OptionDef::new_single_value("secret".into(), Some('s'), Some("secret".into()))
                .help(Some("be secret".into()))
                .build()
                .unwrap()
                .into(),
        )
        .build()
        .unwrap();
    assert!(def.can_show());
    assert_eq!(
        def.usage(),
        "this is an app\n\nUSAGE:\n    abc [FLAGS] [OPTIONS]\n\nOPTIONS:\n\
         \n    basic options\n\n    -v, --verbose be verbose\n\
         \n    advanced options\n\n    -c, --complex [COMPLEX] [...] complex option\n\
         \x20   --color COLOR COLOR COLOR color RGB values\n\
         \n    -s, --secret be secret\n"
    );
}

#[test]
fn schema_that_cannot_be_shown() {
    let def = AppDefBuilder::new("abc".to_string())
        .add_option(OptionDef::new_single_value("bare".to_string(), None, None).build().unwrap().into())
        .build()
        .unwrap();
    assert!(!def.can_show());
    assert_eq!(
        def.why_not_shown(),
        Some("option bare must have either short or long value provided".to_string())
    );

    let mut builder = AppDefBuilder::new("abc".to_string());
    builder.add_option_group(Group::new("hollow".to_string(), None)).unwrap();
    builder.add_option(
        OptionDef::new_single_value("x".to_string(), Some('x'), None).build().unwrap().into(),
    );
    let def = builder.build().unwrap();
    assert!(!def.can_show());
    assert_eq!(def.why_not_shown(), Some("group is empty: hollow".to_string()));

    let mut group = Group::new("basic".to_string(), None);
    group.add_item("x");
    group.add_item("missing");
    let mut builder = AppDefBuilder::new("abc".to_string());
    builder.add_option_group(group).unwrap();
    builder.add_option(
        OptionDef::new_single_value("x".to_string(), Some('x'), None).build().unwrap().into(),
    );
    let def = builder.build().unwrap();
    assert_eq!(
        def.why_not_shown(),
        Some("Group basic doesn't have option missing".to_string())
    );

    let mut builder = AppDefBuilder::new("abc".to_string());
    builder
        .add_option_groups(vec![(
            Group::new("basic".to_string(), None),
            vec![OptionDef::new_single_value("bare".to_string(), None, None)
                .build()
                .unwrap()
                .into()],
        )])
        .unwrap();
    let def = builder.build().unwrap();
    assert_eq!(
        def.why_not_shown(),
        Some("option bare must have either short or long value provided".to_string())
    );

    let mut builder = AppDefBuilder::new("abc".to_string());
    builder.add_option_group(Group::new("hollow".to_string(), None)).unwrap();
    let def = builder.build().unwrap();
    assert!(def.can_show());
    assert_eq!(def.why_not_shown(), None);
    assert_eq!(def.usage(), "\n\nUSAGE:\n    abc [FLAGS]\n\n");
}
