//! Step-by-step construction of the root schema.

use vstd::prelude::*;
use indexmap::IndexMap;
use crate::arguments::{
    arguments_alike, lemma_alike_arguments_keep_rules, ArgumentDef, ArgumentDefs,
};
use crate::flags::{
    clone_optional, settled, unset_error, unset_message, BooleanFlagDef, FlagDef, FlagDefs,
};
use crate::entries::{lookup, upsert};
use crate::groups::{
    copy_groups, group_entries, groups_alike, groups_get_mut, groups_insert, groups_new,
    items_so_far, with_item, Group, GroupView,
};
use crate::options::{lemma_alike_options_keep_rules, options_alike, OptionDef, OptionDefs};
use crate::schema::AppDef;
use crate::subcommands::{copy_optional_subcommand, optional_alike, SubCommandDef};
use crate::text::{optional_text, push_text};
use crate::validators::{copy_app_validators, AppValidator};

verus! {

/// Collects the settings of an `AppDef`.
#[derive(Clone)]
pub struct AppDefBuilder {
    pub name: Option<String>,
    pub version: Option<String>,
    pub help: Option<Option<String>>,
    pub validators: Option<Vec<AppValidator>>,
    pub flags: Option<FlagDefs>,
    pub flag_groups: Option<Option<IndexMap<String, Group>>>,
    pub options: Option<OptionDefs>,
    pub option_groups: Option<Option<IndexMap<String, Group>>>,
    pub arguments: Option<ArgumentDefs>,
    pub subcommand: Option<Option<Box<SubCommandDef>>>,
}

/// The version of a schema that names none.
pub open spec fn default_version() -> Seq<char> {
    "0.1.0"@
}

/// The flag that every new builder starts with: the optional boolean flag
/// `verbose`, with the aliases `-V` and `--verbose`.
pub open spec fn is_verbose_flag(flag: FlagDef) -> bool {
    &&& flag matches FlagDef::BooleanFlagDef(b)
    &&& b.name@ == "verbose"@
    &&& b.short == Some('V')
    &&& optional_text(b.long) == Some("verbose"@)
    &&& b.help is None
    &&& !b.required
}

/// The definitions of a setting, or none where it was never set.
pub open spec fn flags_so_far(setting: Option<FlagDefs>) -> Seq<FlagDef> {
    match setting {
        Some(defs) => defs.0@,
        None => Seq::empty(),
    }
}

/// The definitions of a setting, or none where it was never set.
pub open spec fn options_so_far(setting: Option<OptionDefs>) -> Seq<OptionDef> {
    match setting {
        Some(defs) => defs.0@,
        None => Seq::empty(),
    }
}

/// The definitions of a setting, or none where it was never set.
pub open spec fn arguments_so_far(setting: Option<ArgumentDefs>) -> Seq<ArgumentDef> {
    match setting {
        Some(defs) => defs.0@,
        None => Seq::empty(),
    }
}

/// The groups of a setting, or none where it was never set or set to none.
pub open spec fn groups_so_far(setting: Option<Option<IndexMap<String, Group>>>) -> Seq<
    (Seq<char>, GroupView),
> {
    match setting {
        Some(Some(m)) => group_entries(m),
        _ => Seq::empty(),
    }
}

/// The items after the names of `defs` were inserted one by one.
pub open spec fn names_added(items: Seq<Seq<char>>, defs: Seq<OptionDef>) -> Seq<Seq<char>>
    decreases defs.len(),
{
    if defs.len() == 0 {
        items
    } else {
        with_item(names_added(items, defs.drop_last()), defs.last().key())
    }
}

/// The group after the names of `defs` were put into it. A group keeps
/// having no set of items where `defs` is empty.
pub open spec fn with_names(group: GroupView, defs: Seq<OptionDef>) -> GroupView {
    if defs.len() == 0 {
        group
    } else {
        GroupView { items: Some(names_added(items_so_far(group), defs)), ..group }
    }
}

/// The groups and options after a batch of groups with their options was
/// added: each group takes the names of its options and is stored under its
/// own name, and the options join the others in order.
pub open spec fn batch_added(
    groups: Seq<(Seq<char>, GroupView)>,
    options: Seq<OptionDef>,
    batch: Seq<(Group, Vec<OptionDef>)>,
) -> (Seq<(Seq<char>, GroupView)>, Seq<OptionDef>)
    decreases batch.len(),
{
    if batch.len() == 0 {
        (groups, options)
    } else {
        let before = batch_added(groups, options, batch.drop_last());
        let group = batch.last().0;
        let defs = batch.last().1@;
        (upsert(before.0, group.name@, with_names(group@, defs)), before.1 + defs)
    }
}

/// The message for an option that is to join a group while there are no
/// groups.
pub open spec fn no_groups_message(group_name: Seq<char>) -> Seq<char> {
    "group does not exist: "@ + group_name
}

/// Puts the names of `defs` into `group`, in order.
fn add_names(group: &mut Group, defs: &Vec<OptionDef>)
    ensures
        final(group)@ == with_names(old(group)@, defs@),
{
    let mut i: usize = 0;
    assert(defs@.take(0) =~= Seq::empty());
    while i < defs.len()
        invariant
            i <= defs.len(),
            group@ == with_names(old(group)@, defs@.take(i as int)),
        decreases defs.len() - i,
    {
        let name = defs[i].name();
        proof {
            let now = defs@.take(i + 1);
            assert(now.drop_last() =~= defs@.take(i as int));
            assert(now.last() == defs@[i as int]);
        }
        group.add_item(name.as_str());
        i = i + 1;
    }
    assert(defs@.take(defs.len() as int) =~= defs@);
}

impl AppDefBuilder {
    /// A builder with nothing set.
    pub open spec fn unset() -> AppDefBuilder {
        AppDefBuilder {
            name: None,
            version: None,
            help: None,
            validators: None,
            flags: None,
            flag_groups: None,
            options: None,
            option_groups: None,
            arguments: None,
            subcommand: None,
        }
    }

    /// A builder with nothing set.
    fn empty() -> (b: AppDefBuilder)
        ensures
            b == AppDefBuilder::unset(),
    {
        AppDefBuilder {
            name: None,
            version: None,
            help: None,
            validators: None,
            flags: None,
            flag_groups: None,
            options: None,
            option_groups: None,
            arguments: None,
            subcommand: None,
        }
    }

    /// A builder for the application `name`. It starts with the flag
    /// `verbose` and nothing else.
    pub fn new(name: String) -> (b: AppDefBuilder)
        ensures
            b.name == Some(name),
            b.flags is Some,
            flags_so_far(b.flags).len() == 1,
            is_verbose_flag(flags_so_far(b.flags)[0]),
            b == (AppDefBuilder { name: b.name, flags: b.flags, ..AppDefBuilder::unset() }),
    {
        let mut b = AppDefBuilder::empty();
        let verbose = BooleanFlagDef {
            name: "verbose".to_owned(),
            short: Some('V'),
            long: Some("verbose".to_owned()),
            help: None,
            required: false,
        };
        b.add_flag(FlagDef::BooleanFlagDef(verbose));
        b.name(name);
        b
    }

    /// Sets the name of the application.
    pub fn name(&mut self, value: String) -> (r: &mut Self)
        ensures
            *r == (AppDefBuilder { name: Some(value), ..*old(self) }),
            *final(self) == *final(r),
    {
        self.name = Some(value);
        self
    }

    /// Sets the version.
    pub fn version(&mut self, value: String) -> (r: &mut Self)
        ensures
            *r == (AppDefBuilder { version: Some(value), ..*old(self) }),
            *final(self) == *final(r),
    {
        self.version = Some(value);
        self
    }

    /// Sets the help text.
    pub fn help(&mut self, value: Option<String>) -> (r: &mut Self)
        ensures
            *r == (AppDefBuilder { help: Some(value), ..*old(self) }),
            *final(self) == *final(r),
    {
        self.help = Some(value);
        self
    }

    /// Sets the validators of the application.
    pub fn validators(&mut self, value: Vec<AppValidator>) -> (r: &mut Self)
        ensures
            *r == (AppDefBuilder { validators: Some(value), ..*old(self) }),
            *final(self) == *final(r),
    {
        self.validators = Some(value);
        self
    }

    /// Sets the flags.
    pub fn flags(&mut self, value: FlagDefs) -> (r: &mut Self)
        ensures
            *r == (AppDefBuilder { flags: Some(value), ..*old(self) }),
            *final(self) == *final(r),
    {
        self.flags = Some(value);
        self
    }

    /// Sets the groups of flags.
    pub fn flag_groups(&mut self, value: Option<IndexMap<String, Group>>) -> (r: &mut Self)
        ensures
            *r == (AppDefBuilder { flag_groups: Some(value), ..*old(self) }),
            *final(self) == *final(r),
    {
        self.flag_groups = Some(value);
        self
    }

    /// Sets the options.
    pub fn options(&mut self, value: OptionDefs) -> (r: &mut Self)
        ensures
            *r == (AppDefBuilder { options: Some(value), ..*old(self) }),
            *final(self) == *final(r),
    {
        self.options = Some(value);
        self
    }

    /// Sets the groups of options.
    pub fn option_groups(&mut self, value: Option<IndexMap<String, Group>>) -> (r: &mut Self)
        ensures
            *r == (AppDefBuilder { option_groups: Some(value), ..*old(self) }),
            *final(self) == *final(r),
    {
        self.option_groups = Some(value);
        self
    }

    /// Sets the positional arguments.
    pub fn arguments(&mut self, value: ArgumentDefs) -> (r: &mut Self)
        ensures
            *r == (AppDefBuilder { arguments: Some(value), ..*old(self) }),
            *final(self) == *final(r),
    {
        self.arguments = Some(value);
        self
    }

    /// Sets the subcommand.
    pub fn subcommand(&mut self, value: Option<Box<SubCommandDef>>) -> (r: &mut Self)
        ensures
            *r == (AppDefBuilder { subcommand: Some(value), ..*old(self) }),
            *final(self) == *final(r),
    {
        self.subcommand = Some(value);
        self
    }

    /// Appends a flag to the flags.
    pub fn add_flag(&mut self, flag_def: FlagDef) -> (r: &mut Self)
        ensures
            r.flags is Some,
            flags_so_far(r.flags) == flags_so_far(old(self).flags).push(flag_def),
            *r == (AppDefBuilder { flags: r.flags, ..*old(self) }),
            *final(self) == *final(r),
    {
        match &mut self.flags {
            Some(defs) => {
                defs.0.push(flag_def);
            },
            None => {
                let mut list: Vec<FlagDef> = Vec::new();
                list.push(flag_def);
                self.flags = Some(FlagDefs(list));
            },
        }
        self
    }

    /// Appends an option to the options.
    pub fn add_option(&mut self, option_def: OptionDef) -> (r: &mut Self)
        ensures
            r.options is Some,
            options_so_far(r.options) == options_so_far(old(self).options).push(option_def),
            *r == (AppDefBuilder { options: r.options, ..*old(self) }),
            *final(self) == *final(r),
    {
        match &mut self.options {
            Some(defs) => {
                defs.0.push(option_def);
            },
            None => {
                let mut list: Vec<OptionDef> = Vec::new();
                list.push(option_def);
                self.options = Some(OptionDefs(list));
            },
        }
        self
    }

    /// Appends a positional argument to the arguments.
    pub fn add_argument(&mut self, argument_def: ArgumentDef) -> (r: &mut Self)
        ensures
            r.arguments is Some,
            arguments_so_far(r.arguments) == arguments_so_far(old(self).arguments).push(argument_def),
            *r == (AppDefBuilder { arguments: r.arguments, ..*old(self) }),
            *final(self) == *final(r),
    {
        match &mut self.arguments {
            Some(defs) => {
                defs.0.push(argument_def);
            },
            None => {
                let mut list: Vec<ArgumentDef> = Vec::new();
                list.push(argument_def);
                self.arguments = Some(ArgumentDefs(list));
            },
        }
        self
    }

    /// Stores a group of flags under its name.
    pub fn add_flag_group(&mut self, group: Group) -> (r: Result<&mut Self, String>)
        ensures
            r matches Ok(b) && {
                &&& b.flag_groups matches Some(Some(_))
                &&& groups_so_far(b.flag_groups) == upsert(
                    groups_so_far(old(self).flag_groups),
                    group.name@,
                    group@,
                )
                &&& *b == (AppDefBuilder { flag_groups: b.flag_groups, ..*old(self) })
                &&& *final(self) == *final(b)
            },
    {
        let key = group.name.clone();
        match &mut self.flag_groups {
            Some(Some(m)) => {
                groups_insert(m, key, group);
            },
            _ => {
                let mut m = groups_new();
                assert(group_entries(m) =~= Seq::empty());
                groups_insert(&mut m, key, group);
                self.flag_groups = Some(Some(m));
            },
        }
        Ok(self)
    }

    /// Stores a group of options under its name.
    pub fn add_option_group(&mut self, group: Group) -> (r: Result<&mut Self, String>)
        ensures
            r matches Ok(b) && {
                &&& b.option_groups matches Some(Some(_))
                &&& groups_so_far(b.option_groups) == upsert(
                    groups_so_far(old(self).option_groups),
                    group.name@,
                    group@,
                )
                &&& *b == (AppDefBuilder { option_groups: b.option_groups, ..*old(self) })
                &&& *final(self) == *final(b)
            },
    {
        let key = group.name.clone();
        match &mut self.option_groups {
            Some(Some(m)) => {
                groups_insert(m, key, group);
            },
            _ => {
                let mut m = groups_new();
                assert(group_entries(m) =~= Seq::empty());
                groups_insert(&mut m, key, group);
                self.option_groups = Some(Some(m));
            },
        }
        Ok(self)
    }

    /// Adds groups together with their options: each group takes the names
    /// of its options and is stored under its own name, and the options
    /// join the others in order.
    pub fn add_option_groups(&mut self, groups: Vec<(Group, Vec<OptionDef>)>) -> (r: Result<
        &mut Self,
        String,
    >)
        ensures
            r matches Ok(b) && {
                let after = batch_added(
                    groups_so_far(old(self).option_groups),
                    options_so_far(old(self).options),
                    groups@,
                );
                &&& groups_so_far(b.option_groups) == after.0
                &&& options_so_far(b.options) == after.1
                &&& *b == (AppDefBuilder {
                    option_groups: b.option_groups,
                    options: b.options,
                    ..*old(self)
                })
                &&& *final(self) == *final(b)
            },
    {
        let ghost batch = groups@;
        let ghost groups_before = groups_so_far(self.option_groups);
        let ghost options_before = options_so_far(self.options);
        let mut rest = groups;
        let ghost mut done: int = 0;
        assert(batch.take(0) =~= Seq::empty());
        while rest.len() > 0
            invariant
                0 <= done <= batch.len(),
                rest@ == batch.skip(done),
                groups_so_far(self.option_groups) == batch_added(
                    groups_before,
                    options_before,
                    batch.take(done),
                ).0,
                options_so_far(self.options) == batch_added(
                    groups_before,
                    options_before,
                    batch.take(done),
                ).1,
                *self == (AppDefBuilder {
                    option_groups: self.option_groups,
                    options: self.options,
                    ..*old(self)
                }),
            decreases rest.len(),
        {
            let pair = rest.remove(0);
            let mut group = pair.0;
            let mut defs = pair.1;
            proof {
                let now = batch.take(done + 1);
                assert(now.drop_last() =~= batch.take(done));
                assert(now.last() == batch[done]);
                assert(batch.skip(done)[0] == batch[done]);
                assert(batch.skip(done).remove(0) =~= batch.skip(done + 1));
            }
            let ghost listed = defs@;
            add_names(&mut group, &defs);
            let key = group.name.clone();
            match &mut self.option_groups {
                Some(Some(m)) => {
                    groups_insert(m, key, group);
                },
                _ => {
                    let mut m = groups_new();
                    assert(group_entries(m) =~= Seq::empty());
                    groups_insert(&mut m, key, group);
                    self.option_groups = Some(Some(m));
                },
            }
            match &mut self.options {
                Some(options) => {
                    options.0.append(&mut defs);
                },
                None => {
                    assert(Seq::<OptionDef>::empty() + listed =~= listed);
                    self.options = Some(OptionDefs(defs));
                },
            }
            proof {
                done = done + 1;
            }
        }
        assert(batch.take(batch.len() as int) =~= batch);
        Ok(self)
    }

    /// Appends an option and puts its name into the group `group_name`.
    /// Without any groups this is an error; with groups but none of that
    /// name the option is appended all the same.
    pub fn add_option_to_group(&mut self, group_name: &str, option_def: OptionDef) -> (r: Result<
        &mut Self,
        String,
    >)
        ensures
            match r {
                Ok(b) => {
                    let before = groups_so_far(old(self).option_groups);
                    &&& old(self).option_groups matches Some(Some(_))
                    &&& b.option_groups matches Some(Some(_))
                    &&& groups_so_far(b.option_groups) == (match lookup(before, group_name@) {
                        Some(group) => upsert(
                            before,
                            group_name@,
                            (GroupView {
                                items: Some(with_item(items_so_far(group), option_def.key())),
                                ..group
                            }),
                        ),
                        None => before,
                    })
                    &&& options_so_far(b.options) == options_so_far(old(self).options).push(
                        option_def,
                    )
                    &&& *b == (AppDefBuilder {
                        option_groups: b.option_groups,
                        options: b.options,
                        ..*old(self)
                    })
                    &&& *final(self) == *final(b)
                },
                Err(message) => {
                    &&& !(old(self).option_groups matches Some(Some(_)))
                    &&& message@ == no_groups_message(group_name@)
                    &&& *final(self) == *old(self)
                },
            },
    {
        match &mut self.option_groups {
            Some(Some(m)) => {
                let name = option_def.name();
                match groups_get_mut(m, group_name) {
                    Some(group) => {
                        group.add_item(name.as_str());
                    },
                    None => {},
                }
            },
            _ => {
                let mut message = String::new();
                push_text(&mut message, "group does not exist: ");
                push_text(&mut message, group_name);
                assert(message@ =~= no_groups_message(group_name@));
                return Err(message);
            },
        }
        match &mut self.options {
            Some(defs) => {
                defs.0.push(option_def);
            },
            None => {
                let mut list: Vec<OptionDef> = Vec::new();
                list.push(option_def);
                self.options = Some(OptionDefs(list));
            },
        }
        Ok(self)
    }

    /// `def` is what the settings describe, once a name is set: an unset
    /// version is `0.1.0`, unset help, groups and subcommand are absent, and
    /// unset lists are empty.
    pub open spec fn yields(&self, def: AppDef) -> bool {
        &&& self.name == Some(def.name)
        &&& def.version@ == (match self.version {
            Some(v) => v@,
            None => default_version(),
        })
        &&& def.help == settled(self.help)
        &&& def.validators@ == (match self.validators {
            Some(list) => list@,
            None => Seq::empty(),
        })
        &&& def.flags.0@ == flags_so_far(self.flags)
        &&& groups_alike(settled(self.flag_groups), def.flag_groups)
        &&& options_alike(options_so_far(self.options), def.options.0@)
        &&& groups_alike(settled(self.option_groups), def.option_groups)
        &&& arguments_alike(arguments_so_far(self.arguments), def.arguments.0@)
        &&& optional_alike(settled(self.subcommand), def.subcommand)
    }

    /// What keeps the settings from becoming a schema: the name was never
    /// set, or two flags, two options or two positional arguments cannot be
    /// told apart, or a definition is not sound.
    pub open spec fn defect(&self) -> Option<Seq<char>> {
        if self.name is None {
            Some(unset_message("name"@))
        } else if self.flags is Some && !self.flags->0.distinct() {
            Some("flags must differ in their names and aliases"@)
        } else if self.flags is Some && !self.flags->0.sound() {
            Some("a counted flag needs an alias and a window that is not empty"@)
        } else if self.options is Some && !self.options->0.distinct() {
            Some("options must differ in their names and aliases"@)
        } else if self.options is Some && !self.options->0.sound() {
            Some("a multi-value option needs a marker and a window that is not empty"@)
        } else if self.arguments is Some && !self.arguments->0.distinct() {
            Some("arguments must differ in their names"@)
        } else if self.arguments is Some && !self.arguments->0.sound() {
            Some(
                "a multi-value argument needs a window that is not empty, and one before the last needs an upper bound"@,
            )
        } else {
            None
        }
    }

    /// The schema, or what keeps the settings from becoming one. The
    /// schema is a copy of the settings, and the builder stays as it was. A
    /// schema that was built is sound: no two flags, no two options and no
    /// two positional arguments share a name or an alias, and every
    /// definition is sound.
    pub fn build(&self) -> (r: Result<AppDef, String>)
        ensures
            match r {
                Ok(def) => {
                    &&& self.defect() is None
                    &&& self.yields(def)
                    &&& def.sound()
                },
                Err(message) => self.defect() == Some(message@),
            },
    {
        if self.name.is_none() {
            return Err(unset_error("name"));
        }
        let flags_differ = match &self.flags {
            Some(defs) => defs.is_distinct(),
            None => true,
        };
        if !flags_differ {
            return Err("flags must differ in their names and aliases".to_owned());
        }
        let flags_sound = match &self.flags {
            Some(defs) => defs.is_sound(),
            None => true,
        };
        if !flags_sound {
            return Err("a counted flag needs an alias and a window that is not empty".to_owned());
        }
        let options_differ = match &self.options {
            Some(defs) => defs.is_distinct(),
            None => true,
        };
        if !options_differ {
            return Err("options must differ in their names and aliases".to_owned());
        }
        let options_sound = match &self.options {
            Some(defs) => defs.is_sound(),
            None => true,
        };
        if !options_sound {
            return Err(
                "a multi-value option needs a marker and a window that is not empty".to_owned(),
            );
        }
        let arguments_differ = match &self.arguments {
            Some(defs) => defs.is_distinct(),
            None => true,
        };
        if !arguments_differ {
            return Err("arguments must differ in their names".to_owned());
        }
        let arguments_sound = match &self.arguments {
            Some(defs) => defs.is_sound(),
            None => true,
        };
        if !arguments_sound {
            return Err(
                "a multi-value argument needs a window that is not empty, and one before the last needs an upper bound".to_owned(),
            );
        }
        let name = match &self.name {
            Some(value) => value.clone(),
            None => {
                return Err(unset_error("name"));
            },
        };
        let version = match &self.version {
            Some(value) => value.clone(),
            None => "0.1.0".to_owned(),
        };
        let help = match &self.help {
            Some(value) => clone_optional(value),
            None => None,
        };
        let validators = match &self.validators {
            Some(list) => copy_app_validators(list),
            None => Vec::new(),
        };
        let flags = match &self.flags {
            Some(defs) => defs.clone(),
            None => FlagDefs(Vec::new()),
        };
        let flag_groups = match &self.flag_groups {
            Some(groups) => copy_groups(groups),
            None => None,
        };
        let options = match &self.options {
            Some(defs) => {
                let copy = defs.clone();
                proof {
                    lemma_alike_options_keep_rules(*defs, copy);
                }
                copy
            },
            None => OptionDefs(Vec::new()),
        };
        let option_groups = match &self.option_groups {
            Some(groups) => copy_groups(groups),
            None => None,
        };
        let arguments = match &self.arguments {
            Some(defs) => {
                let copy = defs.clone();
                proof {
                    lemma_alike_arguments_keep_rules(*defs, copy);
                }
                copy
            },
            None => ArgumentDefs(Vec::new()),
        };
        let subcommand = match &self.subcommand {
            Some(value) => copy_optional_subcommand(value),
            None => None,
        };
        Ok(
            AppDef {
                name,
                version,
                help,
                validators,
                flags,
                flag_groups,
                options,
                option_groups,
                arguments,
                subcommand,
            },
        )
    }
}

impl Default for AppDefBuilder {
    fn default() -> (b: Self)
        ensures
            b == AppDefBuilder::unset(),
    {
        AppDefBuilder::empty()
    }
}

} // verus!
