//! The usage text of a schema.

use vstd::prelude::*;
use crate::arguments::ArgumentDef;
use crate::groups::{
    group_entries, groups_get_index, groups_len, items_so_far, names_contains, names_get_index,
    names_len, set_items, Group, GroupView,
};
use crate::options::{occurrences_text, push_occurrences, OptionDef, OptionDefs};
use crate::schema::AppDef;
use crate::text::{optional_text, push_text};

verus! {

/// How the usage shows one positional argument: a single value by its name,
/// in brackets unless it is required; several values by the occurrences of
/// the name.
pub open spec fn argument_usage(argument: ArgumentDef) -> Seq<char> {
    match argument {
        ArgumentDef::SingleValue(a) => if a.required {
            " "@ + a.name@
        } else {
            " ["@ + a.name@ + "]"@
        },
        ArgumentDef::MultiValue(a) => occurrences_text(
            a.name@,
            a.min_occurences,
            a.max_occurences,
        ),
    }
}

/// How the usage shows the positional arguments, in declaration order.
pub open spec fn arguments_usage(arguments: Seq<ArgumentDef>) -> Seq<char>
    decreases arguments.len(),
{
    if arguments.len() == 0 {
        Seq::empty()
    } else {
        arguments_usage(arguments.drop_last()) + argument_usage(arguments.last())
    }
}

/// The help lines of the options that `items` name, in order.
pub open spec fn item_lines(items: Seq<Seq<char>>, options: OptionDefs) -> Seq<char>
    decreases items.len(),
{
    if items.len() == 0 {
        Seq::empty()
    } else {
        item_lines(items.drop_last(), options) + options.with_name(items.last())->0.help_line()
    }
}

/// The heading of a group: its help, set off by blank lines.
pub open spec fn group_heading(help: Option<Seq<char>>) -> Seq<char> {
    match help {
        Some(h) => "\n    "@ + h + "\n\n"@,
        None => Seq::empty(),
    }
}

/// The part of the usage for one group: its heading and the help lines of
/// its options.
pub open spec fn group_block(group: GroupView, options: OptionDefs) -> Seq<char> {
    group_heading(group.help) + item_lines(items_so_far(group), options)
}

/// The parts of the usage for the groups, in order.
pub open spec fn groups_block(groups: Seq<(Seq<char>, GroupView)>, options: OptionDefs) -> Seq<
    char,
>
    decreases groups.len(),
{
    if groups.len() == 0 {
        Seq::empty()
    } else {
        groups_block(groups.drop_last(), options) + group_block(groups.last().1, options)
    }
}

/// Some group names `key` among its items.
pub open spec fn listed(groups: Seq<(Seq<char>, GroupView)>, key: Seq<char>) -> bool {
    exists|i: int| 0 <= i < groups.len() && items_so_far((#[trigger] groups[i]).1).contains(key)
}

/// The help lines of the options that no group names, in declaration
/// order.
pub open spec fn ungrouped_lines(
    options: Seq<OptionDef>,
    groups: Seq<(Seq<char>, GroupView)>,
) -> Seq<char>
    decreases options.len(),
{
    if options.len() == 0 {
        Seq::empty()
    } else {
        ungrouped_lines(options.drop_last(), groups) + (if listed(groups, options.last().key()) {
            Seq::empty()
        } else {
            options.last().help_line()
        })
    }
}

/// The message for an option without any marker.
pub open spec fn bare_option_message(name: Seq<char>) -> Seq<char> {
    "option "@ + name + " must have either short or long value provided"@
}

/// The message for a group without items.
pub open spec fn empty_group_message(group: Seq<char>) -> Seq<char> {
    "group is empty: "@ + group
}

/// The message for an item of a group that names no option.
pub open spec fn stray_item_message(group: Seq<char>, item: Seq<char>) -> Seq<char> {
    "Group "@ + group + " doesn't have option "@ + item
}

/// What keeps the help line of an option from being written: it has no
/// marker.
pub open spec fn option_defect(option: OptionDef) -> Option<Seq<char>> {
    if option.short_alias() is None && option.long_alias() is None {
        Some(bare_option_message(option.key()))
    } else {
        None
    }
}

/// What keeps the help lines of the options that `items` name from being
/// written: the first item that names no option, or that names one without
/// a marker.
pub open spec fn items_defect(group: Seq<char>, items: Seq<Seq<char>>, options: OptionDefs) -> Option<
    Seq<char>,
>
    decreases items.len(),
{
    if items.len() == 0 {
        None
    } else {
        match options.with_name(items[0]) {
            None => Some(stray_item_message(group, items[0])),
            Some(option) => if option_defect(option) is Some {
                option_defect(option)
            } else {
                items_defect(group, items.skip(1), options)
            },
        }
    }
}

/// What keeps the part of the usage for one group from being written: the
/// group has no items, or something is wrong with one of them.
pub open spec fn group_defect(group: GroupView, options: OptionDefs) -> Option<Seq<char>> {
    match group.items {
        None => Some(empty_group_message(group.name)),
        Some(items) => items_defect(group.name, items, options),
    }
}

/// What keeps the parts of the usage for the groups from being written:
/// what is wrong with the first group with which something is wrong.
pub open spec fn groups_defect(groups: Seq<(Seq<char>, GroupView)>, options: OptionDefs) -> Option<
    Seq<char>,
>
    decreases groups.len(),
{
    if groups.len() == 0 {
        None
    } else if group_defect(groups[0].1, options) is Some {
        group_defect(groups[0].1, options)
    } else {
        groups_defect(groups.skip(1), options)
    }
}

/// What keeps the help lines of the options that no group names from being
/// written: the first of them without a marker.
pub open spec fn ungrouped_defect(
    options: Seq<OptionDef>,
    groups: Seq<(Seq<char>, GroupView)>,
) -> Option<Seq<char>>
    decreases options.len(),
{
    if options.len() == 0 {
        None
    } else if !listed(groups, options[0].key()) && option_defect(options[0]) is Some {
        option_defect(options[0])
    } else {
        ungrouped_defect(options.skip(1), groups)
    }
}

/// What keeps the help line of an option from being written, if anything
/// does.
fn option_trouble(option: &OptionDef) -> (r: Option<String>)
    ensures
        optional_text(r) == option_defect(*option),
{
    let marked = match option {
        OptionDef::SingleValue(o) => o.short.is_some() || o.long.is_some(),
        OptionDef::MultiValue(o) => o.short.is_some() || o.long.is_some(),
    };
    if marked {
        None
    } else {
        let name = option.name();
        let mut message = String::new();
        push_text(&mut message, "option ");
        push_text(&mut message, name.as_str());
        push_text(&mut message, " must have either short or long value provided");
        assert(message@ =~= bare_option_message(option.key()));
        Some(message)
    }
}

/// The help of the application, or nothing.
pub open spec fn help_or_nothing(help: Option<String>) -> Seq<char> {
    match help {
        Some(h) => h@,
        None => Seq::empty(),
    }
}

impl AppDef {
    /// The groups of options, or none where there are none.
    pub open spec fn grouping(&self) -> Seq<(Seq<char>, GroupView)> {
        match self.option_groups {
            Some(m) => group_entries(m),
            None => Seq::empty(),
        }
    }

    /// What keeps the schema from being shown, in the order in which the
    /// usage text is laid out: a group without items, an item that names no
    /// option, or an option without any marker whose line is due. A schema
    /// without options can always be shown.
    pub open spec fn usage_defect(&self) -> Option<Seq<char>> {
        if self.options.0@.len() == 0 {
            None
        } else if groups_defect(self.grouping(), self.options) is Some {
            groups_defect(self.grouping(), self.options)
        } else {
            ungrouped_defect(self.options.0@, self.grouping())
        }
    }

    /// The schema can be shown.
    pub open spec fn usage_ready(&self) -> bool {
        self.usage_defect() is None
    }

    /// The line that names the application and its version.
    pub open spec fn version_text(&self) -> Seq<char> {
        self.name@ + " "@ + self.version@
    }

    /// The usage line: the name, a mark for each kind of entry that the
    /// schema holds, and the positional arguments.
    pub open spec fn synopsis(&self) -> Seq<char> {
        self.name@ + (if self.flags.0@.len() > 0 {
            " [FLAGS]"@
        } else {
            Seq::empty()
        }) + (if self.options.0@.len() > 0 {
            " [OPTIONS]"@
        } else {
            Seq::empty()
        }) + arguments_usage(self.arguments.0@) + (if self.subcommand is Some {
            " [SUBCOMMAND(S)]"@
        } else {
            Seq::empty()
        })
    }

    /// The list of options: the groups with their options first, then the
    /// options that no group names. A schema without options has none.
    pub open spec fn options_text(&self) -> Seq<char> {
        if self.options.0@.len() > 0 {
            "OPTIONS:\n"@ + groups_block(self.grouping(), self.options) + "\n"@ + ungrouped_lines(
                self.options.0@,
                self.grouping(),
            )
        } else {
            Seq::empty()
        }
    }

    /// The head of the usage text: the help and the usage line.
    pub open spec fn usage_head(&self) -> Seq<char> {
        help_or_nothing(self.help) + "\n\nUSAGE:\n    "@ + self.synopsis() + "\n\n"@
    }

    /// The usage text: the help, the usage line and the list of options.
    pub open spec fn usage_text(&self) -> Seq<char> {
        self.usage_head() + self.options_text()
    }

    /// Whether the schema can be shown.
    pub fn can_show(&self) -> (r: bool)
        ensures
            r == self.usage_ready(),
    {
        self.why_not_shown().is_none()
    }

    /// What keeps the schema from being shown, if anything does.
    pub fn why_not_shown(&self) -> (r: Option<String>)
        ensures
            optional_text(r) == self.usage_defect(),
    {
        if self.options.0.len() == 0 {
            return None;
        }
        match self.groups_trouble() {
            Some(message) => {
                return Some(message);
            },
            None => {},
        }
        let ghost groups = self.grouping();
        let mut k: usize = 0;
        assert(self.options.0@.skip(0) =~= self.options.0@);
        while k < self.options.0.len()
            invariant
                k <= self.options.0.len(),
                self.options.0@.len() > 0,
                groups == self.grouping(),
                groups_defect(groups, self.options) is None,
                ungrouped_defect(self.options.0@, groups) == ungrouped_defect(
                    self.options.0@.skip(k as int),
                    groups,
                ),
            decreases self.options.0.len() - k,
        {
            proof {
                let rest = self.options.0@.skip(k as int);
                assert(rest[0] == self.options.0@[k as int]);
                assert(rest.skip(1) =~= self.options.0@.skip(k + 1));
            }
            let option = &self.options.0[k];
            let key = option.name();
            if !self.is_listed(key.as_str()) {
                match option_trouble(option) {
                    Some(message) => {
                        return Some(message);
                    },
                    None => {},
                }
            }
            k = k + 1;
        }
        None
    }

    /// What is wrong with the groups of options, if anything is.
    fn groups_trouble(&self) -> (r: Option<String>)
        ensures
            optional_text(r) == groups_defect(self.grouping(), self.options),
    {
        match &self.option_groups {
            Some(m) => {
                let ghost groups = group_entries(*m);
                let count = groups_len(m);
                let mut g: usize = 0;
                assert(groups.skip(0) =~= groups);
                while g < count
                    invariant
                        g <= count,
                        count == groups.len(),
                        groups == group_entries(*m),
                        groups == self.grouping(),
                        groups_defect(groups, self.options) == groups_defect(
                            groups.skip(g as int),
                            self.options,
                        ),
                    decreases count - g,
                {
                    proof {
                        let rest = groups.skip(g as int);
                        assert(rest[0] == groups[g as int]);
                        assert(rest.skip(1) =~= groups.skip(g + 1));
                    }
                    match groups_get_index(m, g) {
                        Some(group) => {
                            match self.group_trouble(group) {
                                Some(message) => {
                                    return Some(message);
                                },
                                None => {},
                            }
                        },
                        None => {
                            assert(false);
                        },
                    }
                    g = g + 1;
                }
                None
            },
            None => None,
        }
    }

    /// What is wrong with one group of options, if anything is.
    fn group_trouble(&self, group: &Group) -> (r: Option<String>)
        ensures
            optional_text(r) == group_defect(group@, self.options),
    {
        match &group.items {
            None => {
                let mut message = String::new();
                push_text(&mut message, "group is empty: ");
                push_text(&mut message, group.name.as_str());
                assert(message@ =~= empty_group_message(group@.name));
                Some(message)
            },
            Some(items) => {
                let ghost names = set_items(*items);
                let total = names_len(items);
                let mut j: usize = 0;
                assert(names.skip(0) =~= names);
                while j < total
                    invariant
                        j <= total,
                        total == names.len(),
                        names == set_items(*items),
                        group@.items == Some(names),
                        items_defect(group@.name, names, self.options) == items_defect(
                            group@.name,
                            names.skip(j as int),
                            self.options,
                        ),
                    decreases total - j,
                {
                    proof {
                        let rest = names.skip(j as int);
                        assert(rest[0] == names[j as int]);
                        assert(rest.skip(1) =~= names.skip(j + 1));
                    }
                    match names_get_index(items, j) {
                        Some(item) => {
                            match self.options.by_name(item.as_str()) {
                                Some(option) => {
                                    match option_trouble(option) {
                                        Some(message) => {
                                            return Some(message);
                                        },
                                        None => {},
                                    }
                                },
                                None => {
                                    let mut message = String::new();
                                    push_text(&mut message, "Group ");
                                    push_text(&mut message, group.name.as_str());
                                    push_text(&mut message, " doesn't have option ");
                                    push_text(&mut message, item.as_str());
                                    assert(message@ =~= stray_item_message(group@.name, item@));
                                    return Some(message);
                                },
                            }
                        },
                        None => {
                            assert(false);
                        },
                    }
                    j = j + 1;
                }
                None
            },
        }
    }

    /// The line that names the application and its version.
    pub fn version_line(&self) -> (s: String)
        ensures
            s@ == self.version_text(),
    {
        let mut s = String::new();
        push_text(&mut s, self.name.as_str());
        push_text(&mut s, " ");
        push_text(&mut s, self.version.as_str());
        assert(s@ =~= self.version_text());
        s
    }

    /// How the usage shows the positional arguments.
    pub fn get_arguments_part(&self) -> (s: String)
        ensures
            s@ == arguments_usage(self.arguments.0@),
    {
        let mut s = String::new();
        let mut i: usize = 0;
        assert(self.arguments.0@.take(0) =~= Seq::empty());
        assert(s@ =~= arguments_usage(self.arguments.0@.take(0)));
        while i < self.arguments.0.len()
            invariant
                i <= self.arguments.0.len(),
                s@ == arguments_usage(self.arguments.0@.take(i as int)),
            decreases self.arguments.0.len() - i,
        {
            let ghost before = s@;
            proof {
                let now = self.arguments.0@.take(i + 1);
                assert(now.drop_last() =~= self.arguments.0@.take(i as int));
                assert(now.last() == self.arguments.0@[i as int]);
            }
            match &self.arguments.0[i] {
                ArgumentDef::SingleValue(a) => {
                    if a.required {
                        push_text(&mut s, " ");
                        push_text(&mut s, a.name.as_str());
                        assert(s@ =~= before + (" "@ + a.name@));
                    } else {
                        push_text(&mut s, " [");
                        push_text(&mut s, a.name.as_str());
                        push_text(&mut s, "]");
                        assert(s@ =~= before + (" ["@ + a.name@ + "]"@));
                    }
                },
                ArgumentDef::MultiValue(a) => {
                    push_occurrences(&mut s, a.name.as_str(), a.min_occurences, a.max_occurences);
                },
            }
            i = i + 1;
        }
        assert(self.arguments.0@.take(self.arguments.0.len() as int) =~= self.arguments.0@);
        s
    }

    /// Whether some group of options names `key`.
    fn is_listed(&self, key: &str) -> (r: bool)
        ensures
            r == listed(self.grouping(), key@),
    {
        match &self.option_groups {
            Some(m) => {
                let ghost groups = group_entries(*m);
                let count = groups_len(m);
                let mut i: usize = 0;
                while i < count
                    invariant
                        i <= count,
                        count == groups.len(),
                        groups == group_entries(*m),
                        groups == self.grouping(),
                        forall|k: int|
                            0 <= k < i ==> !items_so_far((#[trigger] groups[k]).1).contains(key@),
                    decreases count - i,
                {
                    match groups_get_index(m, i) {
                        Some(group) => {
                            match &group.items {
                                Some(items) => {
                                    if names_contains(items, key) {
                                        assert(group@ == groups[i as int].1);
                                        assert(items_so_far(groups[i as int].1).contains(key@));
                                        assert(self.grouping() == groups);
                                        assert(listed(groups, key@));
                                        return true;
                                    }
                                },
                                None => {
                                    assert(items_so_far(groups[i as int].1) =~= Seq::empty());
                                },
                            }
                        },
                        None => {},
                    }
                    i = i + 1;
                }
                false
            },
            None => false,
        }
    }

    /// Appends the part of the usage for one group.
    fn push_group(&self, s: &mut String, group: &Group)
        requires
            group_defect(group@, self.options) is None,
        ensures
            final(s)@ == old(s)@ + group_block(group@, self.options),
    {
        let ghost names = items_so_far(group@);
        match &group.help {
            Some(h) => {
                push_text(s, "\n    ");
                push_text(s, h.as_str());
                push_text(s, "\n\n");
                assert(s@ =~= old(s)@ + group_heading(group@.help));
            },
            None => {
                assert(s@ =~= old(s)@ + group_heading(group@.help));
            },
        }
        match &group.items {
            Some(items) => {
                let count = names_len(items);
                let mut j: usize = 0;
                assert(names.take(0) =~= Seq::empty());
                assert(names.skip(0) =~= names);
                assert(s@ =~= old(s)@ + group_heading(group@.help) + item_lines(
                    names.take(0),
                    self.options,
                ));
                while j < count
                    invariant
                        j <= count,
                        count == names.len(),
                        names == set_items(*items),
                        names == items_so_far(group@),
                        items_defect(group@.name, names.skip(j as int), self.options) is None,
                        s@ == old(s)@ + group_heading(group@.help) + item_lines(
                            names.take(j as int),
                            self.options,
                        ),
                    decreases count - j,
                {
                    proof {
                        let now = names.take(j + 1);
                        assert(now.drop_last() =~= names.take(j as int));
                        assert(now.last() == names[j as int]);
                        let rest = names.skip(j as int);
                        assert(rest[0] == names[j as int]);
                        assert(rest.skip(1) =~= names.skip(j + 1));
                    }
                    match names_get_index(items, j) {
                        Some(item) => {
                            match self.options.by_name(item.as_str()) {
                                Some(option) => {
                                    let line = option.get_help();
                                    push_text(s, line.as_str());
                                    assert(s@ =~= old(s)@ + group_heading(group@.help)
                                        + item_lines(names.take(j + 1), self.options));
                                },
                                None => {
                                    assert(false);
                                },
                            }
                        },
                        None => {
                            assert(false);
                        },
                    }
                    j = j + 1;
                }
                assert(names.take(names.len() as int) =~= names);
                assert(s@ =~= old(s)@ + group_block(group@, self.options));
            },
            None => {},
        }
    }

    /// Appends the help and the usage line.
    fn push_head(&self, s: &mut String)
        ensures
            final(s)@ == old(s)@ + self.usage_head(),
    {
        let mut head = String::new();
        match &self.help {
            Some(h) => {
                push_text(&mut head, h.as_str());
            },
            None => {},
        }
        push_text(&mut head, "\n\n");
        push_text(&mut head, "USAGE:\n    ");
        proof {
            reveal_strlit("\n\n");
            reveal_strlit("USAGE:\n    ");
            reveal_strlit("\n\nUSAGE:\n    ");
            assert("\n\n"@ + "USAGE:\n    "@ =~= "\n\nUSAGE:\n    "@);
        }
        let ghost lead = help_or_nothing(self.help) + "\n\nUSAGE:\n    "@;
        assert(head@ =~= lead);
        let mut line = String::new();
        push_text(&mut line, self.name.as_str());
        if self.flags.0.len() > 0 {
            push_text(&mut line, " [FLAGS]");
        }
        if self.options.0.len() > 0 {
            push_text(&mut line, " [OPTIONS]");
        }
        if self.arguments.0.len() > 0 {
            let part = self.get_arguments_part();
            push_text(&mut line, part.as_str());
        } else {
            assert(arguments_usage(self.arguments.0@) =~= Seq::empty());
        }
        if self.subcommand.is_some() {
            push_text(&mut line, " [SUBCOMMAND(S)]");
        }
        assert(line@ =~= self.synopsis());
        push_text(&mut head, line.as_str());
        push_text(&mut head, "\n\n");
        assert(head@ =~= self.usage_head());
        push_text(s, head.as_str());
    }

    /// Appends the parts of the usage for the groups of options.
    fn push_groups(&self, s: &mut String)
        requires
            groups_defect(self.grouping(), self.options) is None,
        ensures
            final(s)@ == old(s)@ + groups_block(self.grouping(), self.options),
    {
        let ghost groups = self.grouping();
        match &self.option_groups {
            Some(m) => {
                let count = groups_len(m);
                let mut i: usize = 0;
                assert(groups.take(0) =~= Seq::empty());
                assert(groups.skip(0) =~= groups);
                assert(s@ =~= old(s)@ + groups_block(groups.take(0), self.options));
                while i < count
                    invariant
                        i <= count,
                        count == groups.len(),
                        groups == group_entries(*m),
                        groups == self.grouping(),
                        groups_defect(groups.skip(i as int), self.options) is None,
                        s@ == old(s)@ + groups_block(groups.take(i as int), self.options),
                    decreases count - i,
                {
                    proof {
                        let now = groups.take(i + 1);
                        assert(now.drop_last() =~= groups.take(i as int));
                        assert(now.last() == groups[i as int]);
                        let rest = groups.skip(i as int);
                        assert(rest[0] == groups[i as int]);
                        assert(rest.skip(1) =~= groups.skip(i + 1));
                    }
                    match groups_get_index(m, i) {
                        Some(group) => {
                            self.push_group(s, group);
                            assert(s@ =~= old(s)@ + groups_block(
                                groups.take(i + 1),
                                self.options,
                            ));
                        },
                        None => {
                            assert(false);
                        },
                    }
                    i = i + 1;
                }
                assert(groups.take(groups.len() as int) =~= groups);
            },
            None => {
                assert(s@ =~= old(s)@ + groups_block(groups, self.options));
            },
        }
    }

    /// Appends the help lines of the options that no group names.
    fn push_ungrouped(&self, s: &mut String)
        requires
            ungrouped_defect(self.options.0@, self.grouping()) is None,
        ensures
            final(s)@ == old(s)@ + ungrouped_lines(self.options.0@, self.grouping()),
    {
        let ghost groups = self.grouping();
        let mut k: usize = 0;
        assert(self.options.0@.take(0) =~= Seq::empty());
        assert(self.options.0@.skip(0) =~= self.options.0@);
        assert(s@ =~= old(s)@ + ungrouped_lines(self.options.0@.take(0), groups));
        while k < self.options.0.len()
            invariant
                k <= self.options.0.len(),
                groups == self.grouping(),
                ungrouped_defect(self.options.0@.skip(k as int), groups) is None,
                s@ == old(s)@ + ungrouped_lines(self.options.0@.take(k as int), groups),
            decreases self.options.0.len() - k,
        {
            proof {
                let now = self.options.0@.take(k + 1);
                assert(now.drop_last() =~= self.options.0@.take(k as int));
                assert(now.last() == self.options.0@[k as int]);
                let rest = self.options.0@.skip(k as int);
                assert(rest[0] == self.options.0@[k as int]);
                assert(rest.skip(1) =~= self.options.0@.skip(k + 1));
            }
            let option = &self.options.0[k];
            let key = option.name();
            if !self.is_listed(key.as_str()) {
                let line = option.get_help();
                push_text(s, line.as_str());
                assert(s@ =~= old(s)@ + ungrouped_lines(self.options.0@.take(k + 1), groups));
            } else {
                assert(s@ =~= old(s)@ + ungrouped_lines(self.options.0@.take(k + 1), groups));
            }
            k = k + 1;
        }
        assert(self.options.0@.take(self.options.0.len() as int) =~= self.options.0@);
    }

    /// The usage text of the schema. A schema that cannot be shown has
    /// none.
    pub fn usage(&self) -> (s: String)
        requires
            self.usage_ready(),
        ensures
            s@ == self.usage_text(),
    {
        let mut s = String::new();
        self.push_head(&mut s);
        if self.options.0.len() > 0 {
            push_text(&mut s, "OPTIONS:\n");
            self.push_groups(&mut s);
            push_text(&mut s, "\n");
            self.push_ungrouped(&mut s);
            assert(s@ =~= self.usage_text());
        } else {
            assert(s@ =~= self.usage_text());
        }
        s
    }
}

} // verus!
