//! Subcommands: schemas of nested commands. They are part of the schema
//! model; the parser only asks whether one is declared.

use std::sync::Arc;
use vstd::prelude::*;
use indexmap::IndexMap;
use crate::arguments::{arguments_alike, copy_arguments, ArgumentDef, ArgumentDefs};
use crate::flags::{clone_optional, copy_flags, settled, unset_error, unset_message, FlagDef};
use crate::groups::{copy_groups, groups_alike, Group};
use crate::options::{options_alike, OptionDefs};

verus! {

/// A predicate over a subcommand definition. Opaque to the verifier: it
/// holds a function of the caller. The library keeps such predicates with
/// the definition and never asks them.
#[verifier::external_body]
pub struct SubCommandValidator {
    check: Arc<dyn Fn(&SubCommandDef) -> Result<(), String> + Send + Sync>,
}

impl SubCommandValidator {
    /// Wraps the caller's predicate `check` (`Arc::new`). The predicate must
    /// take every definition. Nothing is known of its answers.
    #[verifier::external_body]
    pub fn new<F>(check: F) -> (v: SubCommandValidator)
        where F: Fn(&SubCommandDef) -> Result<(), String> + Send + Sync + 'static,
        requires
            forall|def: &SubCommandDef| check.requires((def,)),
    {
        SubCommandValidator { check: Arc::new(check) }
    }
}

impl Clone for SubCommandValidator {
    /// `Arc::clone`: the copy holds the same predicate.
    #[verifier::external_body]
    fn clone(&self) -> (c: Self)
        ensures
            c == *self,
    {
        SubCommandValidator { check: self.check.clone() }
    }
}

/// A copy of a list of validators: the same predicates in the same order.
pub(crate) fn copy_subcommand_validators(list: &Vec<SubCommandValidator>) -> (r: Vec<
    SubCommandValidator,
>)
    ensures
        r@ == list@,
{
    let mut copy: Vec<SubCommandValidator> = Vec::new();
    let mut i: usize = 0;
    while i < list.len()
        invariant
            i <= list.len(),
            copy@ == list@.take(i as int),
        decreases list.len() - i,
    {
        copy.push(list[i].clone());
        i = i + 1;
        assert(copy@ =~= list@.take(i as int));
    }
    assert(list@.take(list.len() as int) =~= list@);
    copy
}

/// A nested command of one level, with its own flags, options and
/// arguments and, optionally, a subcommand of its own.
pub struct BasicSubCommandDef {
    pub name: String,
    pub help: Option<String>,
    pub validators: Option<Vec<SubCommandValidator>>,
    pub required: bool,
    pub flags: Vec<FlagDef>,
    pub flag_groups: Option<IndexMap<String, Group>>,
    pub options: OptionDefs,
    pub option_groups: Option<IndexMap<String, Group>>,
    pub arguments: ArgumentDefs,
    pub subcommand: Option<Box<SubCommandDef>>,
    pub subcommand_groups: Option<IndexMap<String, Group>>,
}

/// A nested command that may be repeated in a chain.
pub struct SubCommandChainDef {
    pub name: String,
    pub help: Option<String>,
    pub validators: Vec<SubCommandValidator>,
    pub arguments: Vec<ArgumentDef>,
    pub min_occurences: u64,
    pub max_occurences: Option<u64>,
    pub subcommand: Box<SubCommandDef>,
}

/// A nested command that is followed by chains of further commands.
pub struct SubCommandChainsDef {
    pub name: String,
    pub help: Option<String>,
    pub validators: Vec<SubCommandValidator>,
    pub arguments: Vec<ArgumentDef>,
    pub subcommands: Vec<Box<SubCommandDef>>,
}

/// A subcommand of any shape, or a choice among several.
pub enum SubCommandDef {
    BasicSubCommandDef(BasicSubCommandDef),
    SubCommandChainDef(SubCommandChainDef),
    SubCommandChainsDef(SubCommandChainsDef),
    SubCommandEnumDef(Vec<Box<SubCommandDef>>),
}

/// Two optional lists of validators with the same predicates in the same
/// order.
pub open spec fn validators_alike(
    a: Option<Vec<SubCommandValidator>>,
    b: Option<Vec<SubCommandValidator>>,
) -> bool {
    match (a, b) {
        (Some(x), Some(y)) => x@ == y@,
        (None, None) => true,
        _ => false,
    }
}

/// Two subcommands of the same shape that say the same all the way down:
/// every setting is equal, lists and groups hold the same in the same
/// order, and the nested subcommands are alike in turn.
pub open spec fn subcommands_alike(a: SubCommandDef, b: SubCommandDef) -> bool
    decreases a,
{
    match (a, b) {
        (SubCommandDef::BasicSubCommandDef(x), SubCommandDef::BasicSubCommandDef(y)) => {
            &&& x.name == y.name
            &&& x.help == y.help
            &&& validators_alike(x.validators, y.validators)
            &&& x.required == y.required
            &&& x.flags@ == y.flags@
            &&& groups_alike(x.flag_groups, y.flag_groups)
            &&& options_alike(x.options.0@, y.options.0@)
            &&& groups_alike(x.option_groups, y.option_groups)
            &&& arguments_alike(x.arguments.0@, y.arguments.0@)
            &&& match (x.subcommand, y.subcommand) {
                (Some(p), Some(q)) => subcommands_alike(*p, *q),
                (None, None) => true,
                _ => false,
            }
            &&& groups_alike(x.subcommand_groups, y.subcommand_groups)
        },
        (SubCommandDef::SubCommandChainDef(x), SubCommandDef::SubCommandChainDef(y)) => {
            &&& x.name == y.name
            &&& x.help == y.help
            &&& x.validators@ == y.validators@
            &&& arguments_alike(x.arguments@, y.arguments@)
            &&& x.min_occurences == y.min_occurences
            &&& x.max_occurences == y.max_occurences
            &&& subcommands_alike(*x.subcommand, *y.subcommand)
        },
        (SubCommandDef::SubCommandChainsDef(x), SubCommandDef::SubCommandChainsDef(y)) => {
            &&& x.name == y.name
            &&& x.help == y.help
            &&& x.validators@ == y.validators@
            &&& arguments_alike(x.arguments@, y.arguments@)
            &&& all_alike(x.subcommands@, y.subcommands@)
        },
        (SubCommandDef::SubCommandEnumDef(x), SubCommandDef::SubCommandEnumDef(y)) => all_alike(
            x@,
            y@,
        ),
        _ => false,
    }
}

/// Two lists of subcommands that are alike one by one.
pub open spec fn all_alike(a: Seq<Box<SubCommandDef>>, b: Seq<Box<SubCommandDef>>) -> bool
    decreases a,
{
    &&& a.len() == b.len()
    &&& forall|i: int| 0 <= i < a.len() ==> subcommands_alike(*#[trigger] a[i], *b[i])
}

/// Two optional subcommands that are both absent or alike.
pub open spec fn optional_alike(a: Option<Box<SubCommandDef>>, b: Option<Box<SubCommandDef>>) -> bool {
    match (a, b) {
        (Some(p), Some(q)) => subcommands_alike(*p, *q),
        (None, None) => true,
        _ => false,
    }
}

/// A copy of a subcommand, all the way down.
pub fn copy_subcommand(def: &SubCommandDef) -> (r: SubCommandDef)
    ensures
        subcommands_alike(*def, r),
    decreases def,
{
    match def {
        SubCommandDef::BasicSubCommandDef(x) => SubCommandDef::BasicSubCommandDef(copy_basic(x)),
        SubCommandDef::SubCommandChainDef(x) => SubCommandDef::SubCommandChainDef(copy_chain(x)),
        SubCommandDef::SubCommandChainsDef(x) => SubCommandDef::SubCommandChainsDef(
            copy_chains(x),
        ),
        SubCommandDef::SubCommandEnumDef(x) => SubCommandDef::SubCommandEnumDef(
            copy_subcommands(x),
        ),
    }
}

/// A copy of a command of one level, all the way down.
pub fn copy_basic(def: &BasicSubCommandDef) -> (r: BasicSubCommandDef)
    ensures
        subcommands_alike(
            SubCommandDef::BasicSubCommandDef(*def),
            SubCommandDef::BasicSubCommandDef(r),
        ),
    decreases def,
{
    let validators = match &def.validators {
        Some(list) => Some(copy_subcommand_validators(list)),
        None => None,
    };
    let subcommand = match &def.subcommand {
        Some(nested) => Some(Box::new(copy_subcommand(&**nested))),
        None => None,
    };
    BasicSubCommandDef {
        name: def.name.clone(),
        help: clone_optional(&def.help),
        validators,
        required: def.required,
        flags: copy_flags(&def.flags),
        flag_groups: copy_groups(&def.flag_groups),
        options: def.options.clone(),
        option_groups: copy_groups(&def.option_groups),
        arguments: def.arguments.clone(),
        subcommand,
        subcommand_groups: copy_groups(&def.subcommand_groups),
    }
}

/// A copy of a chained command, all the way down.
pub fn copy_chain(def: &SubCommandChainDef) -> (r: SubCommandChainDef)
    ensures
        subcommands_alike(
            SubCommandDef::SubCommandChainDef(*def),
            SubCommandDef::SubCommandChainDef(r),
        ),
    decreases def,
{
    SubCommandChainDef {
        name: def.name.clone(),
        help: clone_optional(&def.help),
        validators: copy_subcommand_validators(&def.validators),
        arguments: copy_arguments(&def.arguments),
        min_occurences: def.min_occurences,
        max_occurences: def.max_occurences,
        subcommand: Box::new(copy_subcommand(&*def.subcommand)),
    }
}

/// A copy of a command with chains, all the way down.
pub fn copy_chains(def: &SubCommandChainsDef) -> (r: SubCommandChainsDef)
    ensures
        subcommands_alike(
            SubCommandDef::SubCommandChainsDef(*def),
            SubCommandDef::SubCommandChainsDef(r),
        ),
    decreases def,
{
    SubCommandChainsDef {
        name: def.name.clone(),
        help: clone_optional(&def.help),
        validators: copy_subcommand_validators(&def.validators),
        arguments: copy_arguments(&def.arguments),
        subcommands: copy_subcommands(&def.subcommands),
    }
}

/// A copy of a list of subcommands, each all the way down.
pub fn copy_subcommands(list: &Vec<Box<SubCommandDef>>) -> (r: Vec<Box<SubCommandDef>>)
    ensures
        all_alike(list@, r@),
    decreases list,
{
    let mut copy: Vec<Box<SubCommandDef>> = Vec::new();
    let mut i: usize = 0;
    while i < list.len()
        invariant
            i <= list.len(),
            all_alike(list@.take(i as int), copy@),
        decreases list.len() - i,
    {
        let ghost before = copy@;
        copy.push(Box::new(copy_subcommand(&*list[i])));
        i = i + 1;
        assert forall|k: int| 0 <= k < i implies subcommands_alike(
            *#[trigger] list@.take(i as int)[k],
            *copy@[k],
        ) by {
            if k < i - 1 {
                assert(subcommands_alike(*list@.take(i - 1)[k], *before[k]));
            }
        }
    }
    assert(list@.take(list.len() as int) =~= list@);
    copy
}

/// A copy of an optional subcommand.
pub fn copy_optional_subcommand(def: &Option<Box<SubCommandDef>>) -> (r: Option<Box<SubCommandDef>>)
    ensures
        optional_alike(*def, r),
{
    match def {
        Some(nested) => Some(Box::new(copy_subcommand(&**nested))),
        None => None,
    }
}

impl Clone for SubCommandDef {
    /// A copy that is alike all the way down.
    fn clone(&self) -> (r: Self)
        ensures
            subcommands_alike(*self, r),
    {
        copy_subcommand(self)
    }
}

impl Clone for BasicSubCommandDef {
    /// A copy that is alike all the way down.
    fn clone(&self) -> (r: Self)
        ensures
            subcommands_alike(
                SubCommandDef::BasicSubCommandDef(*self),
                SubCommandDef::BasicSubCommandDef(r),
            ),
    {
        copy_basic(self)
    }
}

impl Clone for SubCommandChainDef {
    /// A copy that is alike all the way down.
    fn clone(&self) -> (r: Self)
        ensures
            subcommands_alike(
                SubCommandDef::SubCommandChainDef(*self),
                SubCommandDef::SubCommandChainDef(r),
            ),
    {
        copy_chain(self)
    }
}

impl Clone for SubCommandChainsDef {
    /// A copy that is alike all the way down.
    fn clone(&self) -> (r: Self)
        ensures
            subcommands_alike(
                SubCommandDef::SubCommandChainsDef(*self),
                SubCommandDef::SubCommandChainsDef(r),
            ),
    {
        copy_chains(self)
    }
}

/// Collects the settings of a `BasicSubCommandDef`.
#[derive(Clone)]
pub struct BasicSubCommandDefBuilder {
    pub name: Option<String>,
    pub help: Option<Option<String>>,
    pub validators: Option<Option<Vec<SubCommandValidator>>>,
    pub required: Option<bool>,
    pub flags: Option<Vec<FlagDef>>,
    pub flag_groups: Option<Option<IndexMap<String, Group>>>,
    pub options: Option<OptionDefs>,
    pub option_groups: Option<Option<IndexMap<String, Group>>>,
    pub arguments: Option<ArgumentDefs>,
    pub subcommand: Option<Option<Box<SubCommandDef>>>,
    pub subcommand_groups: Option<Option<IndexMap<String, Group>>>,
}

impl BasicSubCommandDefBuilder {
    /// A builder with nothing set.
    pub open spec fn unset() -> BasicSubCommandDefBuilder {
        BasicSubCommandDefBuilder { name: None, help: None, validators: None, required: None, flags: None, flag_groups: None, options: None, option_groups: None, arguments: None, subcommand: None, subcommand_groups: None }
    }

    /// Sets the name.
    pub fn name(&mut self, value: String) -> (r: &mut Self)
        ensures
            *r == (BasicSubCommandDefBuilder { name: Some(value), ..*old(self) }),
            *final(self) == *final(r),
    {
        self.name = Some(value);
        self
    }

    /// Sets the help text.
    pub fn help(&mut self, value: Option<String>) -> (r: &mut Self)
        ensures
            *r == (BasicSubCommandDefBuilder { help: Some(value), ..*old(self) }),
            *final(self) == *final(r),
    {
        self.help = Some(value);
        self
    }

    /// Sets the validators.
    pub fn validators(&mut self, value: Option<Vec<SubCommandValidator>>) -> (r: &mut Self)
        ensures
            *r == (BasicSubCommandDefBuilder { validators: Some(value), ..*old(self) }),
            *final(self) == *final(r),
    {
        self.validators = Some(value);
        self
    }

    /// Sets whether the command must be given.
    pub fn required(&mut self, value: bool) -> (r: &mut Self)
        ensures
            *r == (BasicSubCommandDefBuilder { required: Some(value), ..*old(self) }),
            *final(self) == *final(r),
    {
        self.required = Some(value);
        self
    }

    /// Sets the flags.
    pub fn flags(&mut self, value: Vec<FlagDef>) -> (r: &mut Self)
        ensures
            *r == (BasicSubCommandDefBuilder { flags: Some(value), ..*old(self) }),
            *final(self) == *final(r),
    {
        self.flags = Some(value);
        self
    }

    /// Sets the groups of flags.
    pub fn flag_groups(&mut self, value: Option<IndexMap<String, Group>>) -> (r: &mut Self)
        ensures
            *r == (BasicSubCommandDefBuilder { flag_groups: Some(value), ..*old(self) }),
            *final(self) == *final(r),
    {
        self.flag_groups = Some(value);
        self
    }

    /// Sets the options.
    pub fn options(&mut self, value: OptionDefs) -> (r: &mut Self)
        ensures
            *r == (BasicSubCommandDefBuilder { options: Some(value), ..*old(self) }),
            *final(self) == *final(r),
    {
        self.options = Some(value);
        self
    }

    /// Sets the groups of options.
    pub fn option_groups(&mut self, value: Option<IndexMap<String, Group>>) -> (r: &mut Self)
        ensures
            *r == (BasicSubCommandDefBuilder { option_groups: Some(value), ..*old(self) }),
            *final(self) == *final(r),
    {
        self.option_groups = Some(value);
        self
    }

    /// Sets the positional arguments.
    pub fn arguments(&mut self, value: ArgumentDefs) -> (r: &mut Self)
        ensures
            *r == (BasicSubCommandDefBuilder { arguments: Some(value), ..*old(self) }),
            *final(self) == *final(r),
    {
        self.arguments = Some(value);
        self
    }

    /// Sets the subcommand of the command.
    pub fn subcommand(&mut self, value: Option<Box<SubCommandDef>>) -> (r: &mut Self)
        ensures
            *r == (BasicSubCommandDefBuilder { subcommand: Some(value), ..*old(self) }),
            *final(self) == *final(r),
    {
        self.subcommand = Some(value);
        self
    }

    /// Sets the groups of subcommands.
    pub fn subcommand_groups(&mut self, value: Option<IndexMap<String, Group>>) -> (r: &mut Self)
        ensures
            *r == (BasicSubCommandDefBuilder { subcommand_groups: Some(value), ..*old(self) }),
            *final(self) == *final(r),
    {
        self.subcommand_groups = Some(value);
        self
    }

    /// What keeps the settings from becoming a definition: the first of the
    /// name and the subcommand that was never set.
    pub open spec fn defect(&self) -> Option<Seq<char>> {
        if self.name is None {
            Some(unset_message("name"@))
        } else if self.subcommand is None {
            Some(unset_message("subcommand"@))
        } else {
            None
        }
    }

    /// `def` is what the settings describe: unset help, validators and
    /// groups are absent, unset lists are empty, and the command is optional
    /// unless set otherwise.
    pub open spec fn yields(&self, def: BasicSubCommandDef) -> bool {
        &&& self.name == Some(def.name)
        &&& def.help == settled(self.help)
        &&& validators_alike(settled(self.validators), def.validators)
        &&& def.required == (match self.required {
            Some(value) => value,
            None => false,
        })
        &&& def.flags@ == (match self.flags {
            Some(list) => list@,
            None => Seq::empty(),
        })
        &&& groups_alike(settled(self.flag_groups), def.flag_groups)
        &&& options_alike(
            match self.options {
                Some(list) => list.0@,
                None => Seq::empty(),
            },
            def.options.0@,
        )
        &&& groups_alike(settled(self.option_groups), def.option_groups)
        &&& arguments_alike(
            match self.arguments {
                Some(list) => list.0@,
                None => Seq::empty(),
            },
            def.arguments.0@,
        )
        &&& self.subcommand is Some
        &&& optional_alike(self.subcommand->0, def.subcommand)
        &&& groups_alike(settled(self.subcommand_groups), def.subcommand_groups)
    }

    /// The definition, or the error that a setting without a default was
    /// never given. The builder stays as it was.
    pub fn build(&self) -> (r: Result<BasicSubCommandDef, String>)
        ensures
            match r {
                Ok(def) => self.defect() is None && self.yields(def),
                Err(message) => self.defect() == Some(message@),
            },
    {
        let name = match &self.name {
            Some(value) => value.clone(),
            None => {
                return Err(unset_error("name"));
            },
        };
        let subcommand = match &self.subcommand {
            Some(value) => copy_optional_subcommand(value),
            None => {
                return Err(unset_error("subcommand"));
            },
        };
        let help = match &self.help {
            Some(value) => clone_optional(value),
            None => None,
        };
        let validators = match &self.validators {
            Some(Some(list)) => Some(copy_subcommand_validators(list)),
            _ => None,
        };
        let required = match self.required {
            Some(value) => value,
            None => false,
        };
        let flags = match &self.flags {
            Some(list) => copy_flags(list),
            None => Vec::new(),
        };
        let flag_groups = match &self.flag_groups {
            Some(groups) => copy_groups(groups),
            None => None,
        };
        let options = match &self.options {
            Some(list) => list.clone(),
            None => OptionDefs(Vec::new()),
        };
        let option_groups = match &self.option_groups {
            Some(groups) => copy_groups(groups),
            None => None,
        };
        let arguments = match &self.arguments {
            Some(list) => list.clone(),
            None => ArgumentDefs(Vec::new()),
        };
        let subcommand_groups = match &self.subcommand_groups {
            Some(groups) => copy_groups(groups),
            None => None,
        };
        Ok(
            BasicSubCommandDef {
                name,
                help,
                validators,
                required,
                flags,
                flag_groups,
                options,
                option_groups,
                arguments,
                subcommand,
                subcommand_groups,
            },
        )
    }
}

impl Default for BasicSubCommandDefBuilder {
    fn default() -> (b: Self)
        ensures
            b == BasicSubCommandDefBuilder::unset(),
    {
        BasicSubCommandDefBuilder { name: None, help: None, validators: None, required: None, flags: None, flag_groups: None, options: None, option_groups: None, arguments: None, subcommand: None, subcommand_groups: None }
    }
}

/// Collects the settings of a `SubCommandChainDef`.
#[derive(Clone)]
pub struct SubCommandChainDefBuilder {
    pub name: Option<String>,
    pub help: Option<Option<String>>,
    pub validators: Option<Vec<SubCommandValidator>>,
    pub arguments: Option<Vec<ArgumentDef>>,
    pub min_occurences: Option<u64>,
    pub max_occurences: Option<Option<u64>>,
    pub subcommand: Option<Box<SubCommandDef>>,
}

impl SubCommandChainDefBuilder {
    /// A builder with nothing set.
    pub open spec fn unset() -> SubCommandChainDefBuilder {
        SubCommandChainDefBuilder { name: None, help: None, validators: None, arguments: None, min_occurences: None, max_occurences: None, subcommand: None }
    }

    /// Sets the name.
    pub fn name(&mut self, value: String) -> (r: &mut Self)
        ensures
            *r == (SubCommandChainDefBuilder { name: Some(value), ..*old(self) }),
            *final(self) == *final(r),
    {
        self.name = Some(value);
        self
    }

    /// Sets the help text.
    pub fn help(&mut self, value: Option<String>) -> (r: &mut Self)
        ensures
            *r == (SubCommandChainDefBuilder { help: Some(value), ..*old(self) }),
            *final(self) == *final(r),
    {
        self.help = Some(value);
        self
    }

    /// Sets the validators.
    pub fn validators(&mut self, value: Vec<SubCommandValidator>) -> (r: &mut Self)
        ensures
            *r == (SubCommandChainDefBuilder { validators: Some(value), ..*old(self) }),
            *final(self) == *final(r),
    {
        self.validators = Some(value);
        self
    }

    /// Sets the positional arguments.
    pub fn arguments(&mut self, value: Vec<ArgumentDef>) -> (r: &mut Self)
        ensures
            *r == (SubCommandChainDefBuilder { arguments: Some(value), ..*old(self) }),
            *final(self) == *final(r),
    {
        self.arguments = Some(value);
        self
    }

    /// Sets the least number of occurrences.
    pub fn min_occurences(&mut self, value: u64) -> (r: &mut Self)
        ensures
            *r == (SubCommandChainDefBuilder { min_occurences: Some(value), ..*old(self) }),
            *final(self) == *final(r),
    {
        self.min_occurences = Some(value);
        self
    }

    /// Sets the greatest number of occurrences.
    pub fn max_occurences(&mut self, value: Option<u64>) -> (r: &mut Self)
        ensures
            *r == (SubCommandChainDefBuilder { max_occurences: Some(value), ..*old(self) }),
            *final(self) == *final(r),
    {
        self.max_occurences = Some(value);
        self
    }

    /// Sets the command that the chain repeats.
    pub fn subcommand(&mut self, value: Box<SubCommandDef>) -> (r: &mut Self)
        ensures
            *r == (SubCommandChainDefBuilder { subcommand: Some(value), ..*old(self) }),
            *final(self) == *final(r),
    {
        self.subcommand = Some(value);
        self
    }

    /// What keeps the settings from becoming a definition: the first of the
    /// name, the validators, the arguments and the subcommand that was never
    /// set.
    pub open spec fn defect(&self) -> Option<Seq<char>> {
        if self.name is None {
            Some(unset_message("name"@))
        } else if self.validators is None {
            Some(unset_message("validators"@))
        } else if self.arguments is None {
            Some(unset_message("arguments"@))
        } else if self.subcommand is None {
            Some(unset_message("subcommand"@))
        } else {
            None
        }
    }

    /// `def` is what the settings describe: unset help is absent, and the
    /// window is one or more unless set otherwise.
    pub open spec fn yields(&self, def: SubCommandChainDef) -> bool {
        &&& self.name == Some(def.name)
        &&& def.help == settled(self.help)
        &&& self.validators is Some
        &&& self.validators->0@ == def.validators@
        &&& self.arguments is Some
        &&& arguments_alike(self.arguments->0@, def.arguments@)
        &&& def.min_occurences == (match self.min_occurences {
            Some(value) => value,
            None => 1,
        })
        &&& def.max_occurences == settled(self.max_occurences)
        &&& self.subcommand is Some
        &&& subcommands_alike(*self.subcommand->0, *def.subcommand)
    }

    /// The definition, or the error that a setting without a default was
    /// never given. The builder stays as it was.
    pub fn build(&self) -> (r: Result<SubCommandChainDef, String>)
        ensures
            match r {
                Ok(def) => self.defect() is None && self.yields(def),
                Err(message) => self.defect() == Some(message@),
            },
    {
        let name = match &self.name {
            Some(value) => value.clone(),
            None => {
                return Err(unset_error("name"));
            },
        };
        let validators = match &self.validators {
            Some(list) => copy_subcommand_validators(list),
            None => {
                return Err(unset_error("validators"));
            },
        };
        let arguments = match &self.arguments {
            Some(list) => copy_arguments(list),
            None => {
                return Err(unset_error("arguments"));
            },
        };
        let subcommand = match &self.subcommand {
            Some(value) => Box::new(copy_subcommand(&**value)),
            None => {
                return Err(unset_error("subcommand"));
            },
        };
        let help = match &self.help {
            Some(value) => clone_optional(value),
            None => None,
        };
        let min_occurences: u64 = match self.min_occurences {
            Some(value) => value,
            None => 1,
        };
        let max_occurences = match self.max_occurences {
            Some(value) => value,
            None => None,
        };
        Ok(
            SubCommandChainDef {
                name,
                help,
                validators,
                arguments,
                min_occurences,
                max_occurences,
                subcommand,
            },
        )
    }
}

impl Default for SubCommandChainDefBuilder {
    fn default() -> (b: Self)
        ensures
            b == SubCommandChainDefBuilder::unset(),
    {
        SubCommandChainDefBuilder { name: None, help: None, validators: None, arguments: None, min_occurences: None, max_occurences: None, subcommand: None }
    }
}

/// Collects the settings of a `SubCommandChainsDef`.
#[derive(Clone)]
pub struct SubCommandChainsDefBuilder {
    pub name: Option<String>,
    pub help: Option<Option<String>>,
    pub validators: Option<Vec<SubCommandValidator>>,
    pub arguments: Option<Vec<ArgumentDef>>,
    pub subcommands: Option<Vec<Box<SubCommandDef>>>,
}

impl SubCommandChainsDefBuilder {
    /// A builder with nothing set.
    pub open spec fn unset() -> SubCommandChainsDefBuilder {
        SubCommandChainsDefBuilder { name: None, help: None, validators: None, arguments: None, subcommands: None }
    }

    /// Sets the name.
    pub fn name(&mut self, value: String) -> (r: &mut Self)
        ensures
            *r == (SubCommandChainsDefBuilder { name: Some(value), ..*old(self) }),
            *final(self) == *final(r),
    {
        self.name = Some(value);
        self
    }

    /// Sets the help text.
    pub fn help(&mut self, value: Option<String>) -> (r: &mut Self)
        ensures
            *r == (SubCommandChainsDefBuilder { help: Some(value), ..*old(self) }),
            *final(self) == *final(r),
    {
        self.help = Some(value);
        self
    }

    /// Sets the validators.
    pub fn validators(&mut self, value: Vec<SubCommandValidator>) -> (r: &mut Self)
        ensures
            *r == (SubCommandChainsDefBuilder { validators: Some(value), ..*old(self) }),
            *final(self) == *final(r),
    {
        self.validators = Some(value);
        self
    }

    /// Sets the positional arguments.
    pub fn arguments(&mut self, value: Vec<ArgumentDef>) -> (r: &mut Self)
        ensures
            *r == (SubCommandChainsDefBuilder { arguments: Some(value), ..*old(self) }),
            *final(self) == *final(r),
    {
        self.arguments = Some(value);
        self
    }

    /// Sets the commands that may follow.
    pub fn subcommands(&mut self, value: Vec<Box<SubCommandDef>>) -> (r: &mut Self)
        ensures
            *r == (SubCommandChainsDefBuilder { subcommands: Some(value), ..*old(self) }),
            *final(self) == *final(r),
    {
        self.subcommands = Some(value);
        self
    }

    /// What keeps the settings from becoming a definition: the first
    /// setting, in the order of the fields, that was never given. None has a
    /// default.
    pub open spec fn defect(&self) -> Option<Seq<char>> {
        if self.name is None {
            Some(unset_message("name"@))
        } else if self.help is None {
            Some(unset_message("help"@))
        } else if self.validators is None {
            Some(unset_message("validators"@))
        } else if self.arguments is None {
            Some(unset_message("arguments"@))
        } else if self.subcommands is None {
            Some(unset_message("subcommands"@))
        } else {
            None
        }
    }

    /// `def` is what the settings describe.
    pub open spec fn yields(&self, def: SubCommandChainsDef) -> bool {
        &&& self.name == Some(def.name)
        &&& self.help == Some(def.help)
        &&& self.validators is Some
        &&& self.validators->0@ == def.validators@
        &&& self.arguments is Some
        &&& arguments_alike(self.arguments->0@, def.arguments@)
        &&& self.subcommands is Some
        &&& all_alike(self.subcommands->0@, def.subcommands@)
    }

    /// The definition, or the error that a setting was never given. The
    /// builder stays as it was.
    pub fn build(&self) -> (r: Result<SubCommandChainsDef, String>)
        ensures
            match r {
                Ok(def) => self.defect() is None && self.yields(def),
                Err(message) => self.defect() == Some(message@),
            },
    {
        let name = match &self.name {
            Some(value) => value.clone(),
            None => {
                return Err(unset_error("name"));
            },
        };
        let help = match &self.help {
            Some(value) => clone_optional(value),
            None => {
                return Err(unset_error("help"));
            },
        };
        let validators = match &self.validators {
            Some(list) => copy_subcommand_validators(list),
            None => {
                return Err(unset_error("validators"));
            },
        };
        let arguments = match &self.arguments {
            Some(list) => copy_arguments(list),
            None => {
                return Err(unset_error("arguments"));
            },
        };
        let subcommands = match &self.subcommands {
            Some(list) => copy_subcommands(list),
            None => {
                return Err(unset_error("subcommands"));
            },
        };
        Ok(SubCommandChainsDef { name, help, validators, arguments, subcommands })
    }
}

impl Default for SubCommandChainsDefBuilder {
    fn default() -> (b: Self)
        ensures
            b == SubCommandChainsDefBuilder::unset(),
    {
        SubCommandChainsDefBuilder { name: None, help: None, validators: None, arguments: None, subcommands: None }
    }
}

} // verus!
