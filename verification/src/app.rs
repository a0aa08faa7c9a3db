//! The result of a parse: what was found on the command line, by canonical
//! name.

use vstd::prelude::*;
use indexmap::IndexMap;
use crate::maps::{
    count_entries, counts_new, flag_entries, flags_new, list_entries, lists_new, text_entries,
    texts_new,
};

verus! {

/// The result of a parse. Every key is the canonical name of a definition,
/// never its short or long alias.
#[derive(Debug)]
pub struct App {
    pub name: String,
    pub boolean_flags: IndexMap<String, bool>,
    pub counted_flags: IndexMap<String, u64>,
    pub single_value_options: IndexMap<String, String>,
    pub multi_value_options: IndexMap<String, Vec<String>>,
    pub single_value_arguments: IndexMap<String, String>,
    pub multi_value_arguments: IndexMap<String, Vec<String>>,
}

/// A parse result as association lists, each in the order in which its names
/// were first seen.
pub struct AppView {
    pub name: Seq<char>,
    pub boolean_flags: Seq<(Seq<char>, bool)>,
    pub counted_flags: Seq<(Seq<char>, u64)>,
    pub single_value_options: Seq<(Seq<char>, Seq<char>)>,
    pub multi_value_options: Seq<(Seq<char>, Seq<Seq<char>>)>,
    pub single_value_arguments: Seq<(Seq<char>, Seq<char>)>,
    pub multi_value_arguments: Seq<(Seq<char>, Seq<Seq<char>>)>,
}

impl AppView {
    /// The result in which nothing has been found yet.
    pub open spec fn fresh(name: Seq<char>) -> AppView {
        AppView {
            name,
            boolean_flags: Seq::empty(),
            counted_flags: Seq::empty(),
            single_value_options: Seq::empty(),
            multi_value_options: Seq::empty(),
            single_value_arguments: Seq::empty(),
            multi_value_arguments: Seq::empty(),
        }
    }
}

impl View for App {
    type V = AppView;

    open spec fn view(&self) -> AppView {
        AppView {
            name: self.name@,
            boolean_flags: flag_entries(self.boolean_flags),
            counted_flags: count_entries(self.counted_flags),
            single_value_options: text_entries(self.single_value_options),
            multi_value_options: list_entries(self.multi_value_options),
            single_value_arguments: text_entries(self.single_value_arguments),
            multi_value_arguments: list_entries(self.multi_value_arguments),
        }
    }
}

impl App {
    /// An empty result for the application `name`.
    pub fn new(name: &str) -> (app: App)
        ensures
            app@ == AppView::fresh(name@),
    {
        let app = App {
            name: name.to_owned(),
            boolean_flags: flags_new(),
            counted_flags: counts_new(),
            single_value_options: texts_new(),
            multi_value_options: lists_new(),
            single_value_arguments: texts_new(),
            multi_value_arguments: lists_new(),
        };
        assert(app@.boolean_flags =~= Seq::empty());
        assert(app@.counted_flags =~= Seq::empty());
        assert(app@.single_value_options =~= Seq::empty());
        assert(app@.multi_value_options =~= Seq::empty());
        assert(app@.single_value_arguments =~= Seq::empty());
        assert(app@.multi_value_arguments =~= Seq::empty());
        app
    }
}

} // verus!
