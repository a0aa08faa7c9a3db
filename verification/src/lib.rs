//! Declarative command-line schemas and the parser that reads an argument
//! vector against them.
//!
//! A caller describes the command line of an application once, as flags,
//! options, positional arguments, groups and subcommands, and then turns
//! argument vectors into validated results or into messages.

pub mod app;
pub mod arguments;
pub mod builder;
pub mod checks;
pub mod entries;
pub mod flags;
pub mod groups;
pub mod laws;
pub mod maps;
pub mod options;
pub mod parser;
pub mod schema;
pub mod subcommands;
pub mod text;
pub mod usage;
pub mod validators;

pub use crate::app::App;
pub use crate::arguments::{
    ArgumentDef, ArgumentDefs, MultiValueArgumentDef, MultiValueArgumentDefBuilder,
    SingleValueArgumentDef, SingleValueArgumentDefBuilder,
};
pub use crate::builder::AppDefBuilder;
pub use crate::flags::{
    BooleanFlagDef, BooleanFlagDefBuilder, CountedFlagDef, CountedFlagDefBuilder, FlagDef,
    FlagDefs,
};
pub use crate::groups::{Group, GroupBuilder};
pub use crate::options::{
    MultiValueOptionDef, MultiValueOptionDefBuilder, OptionDef, OptionDefs, SingleValueOptionDef,
    SingleValueOptionDefBuilder,
};
pub use crate::schema::AppDef;
pub use crate::subcommands::{
    BasicSubCommandDef, BasicSubCommandDefBuilder, SubCommandChainDef, SubCommandChainDefBuilder,
    SubCommandChainsDef, SubCommandChainsDefBuilder, SubCommandDef, SubCommandValidator,
};
pub use crate::validators::{AppValidator, MultiValueValidator, ValueValidator};
