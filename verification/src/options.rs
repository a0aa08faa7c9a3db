//! Options: schema entries that are introduced by a short or long marker and
//! take the value that follows it.

use vstd::prelude::*;
use indexmap::IndexMap;
use crate::checks::{
    abides, asked_then, check_window, complaint_of, is_window_sound, or_else, window_complaint,
    window_sound,
};
use crate::entries::{lemma_first_is, lemma_first_none, lookup};
use crate::flags::{clone_optional, same_ids, settled, unset_error, unset_message};
use crate::maps::{list_entries, lists_get, text_entries, texts_get};
use crate::text::{
    optional_text, push_char, push_repeated, push_text, repeated, uppercase, uppercase_of,
};
use crate::validators::{
    check_value, check_values, copy_value_validators, copy_values_validators, MultiValueValidator,
    ValueValidator,
};

verus! {

/// An option that takes exactly one value and may be given once.
pub struct SingleValueOptionDef {
    pub name: String,
    pub short: Option<char>,
    pub long: Option<String>,
    pub help: Option<String>,
    pub required: bool,
    pub validators: Vec<ValueValidator>,
}

/// An option whose values pile up in order; their number is held against the
/// window `[min_occurences, max_occurences]`.
pub struct MultiValueOptionDef {
    pub name: String,
    pub short: Option<char>,
    pub long: Option<String>,
    pub help: Option<String>,
    pub min_occurences: u64,
    pub max_occurences: Option<u64>,
    pub validators: Vec<MultiValueValidator>,
}

/// An option of either shape.
pub enum OptionDef {
    SingleValue(SingleValueOptionDef),
    MultiValue(MultiValueOptionDef),
}

/// The options of a schema, in declaration order.
#[derive(Default)]
pub struct OptionDefs(pub Vec<OptionDef>);

impl SingleValueOptionDef {
    /// Two definitions with the same settings and the same validators in
    /// the same order.
    pub open spec fn alike(&self, other: SingleValueOptionDef) -> bool {
        &&& self.name == other.name
        &&& self.short == other.short
        &&& self.long == other.long
        &&& self.help == other.help
        &&& self.required == other.required
        &&& self.validators@ == other.validators@
    }
}

impl Clone for SingleValueOptionDef {
    /// A copy with the same settings and the same validators.
    fn clone(&self) -> (r: Self)
        ensures
            self.alike(r),
    {
        SingleValueOptionDef {
            name: self.name.clone(),
            short: self.short,
            long: clone_optional(&self.long),
            help: clone_optional(&self.help),
            required: self.required,
            validators: copy_value_validators(&self.validators),
        }
    }
}

impl MultiValueOptionDef {
    /// Two definitions with the same settings and the same validators in
    /// the same order.
    pub open spec fn alike(&self, other: MultiValueOptionDef) -> bool {
        &&& self.name == other.name
        &&& self.short == other.short
        &&& self.long == other.long
        &&& self.help == other.help
        &&& self.min_occurences == other.min_occurences
        &&& self.max_occurences == other.max_occurences
        &&& self.validators@ == other.validators@
    }
}

impl Clone for MultiValueOptionDef {
    /// A copy with the same settings and the same validators.
    fn clone(&self) -> (r: Self)
        ensures
            self.alike(r),
    {
        MultiValueOptionDef {
            name: self.name.clone(),
            short: self.short,
            long: clone_optional(&self.long),
            help: clone_optional(&self.help),
            min_occurences: self.min_occurences,
            max_occurences: self.max_occurences,
            validators: copy_values_validators(&self.validators),
        }
    }
}

impl OptionDef {
    /// Two definitions of the same shape with the same settings and the
    /// same validators in the same order.
    pub open spec fn alike(&self, other: OptionDef) -> bool {
        match (*self, other) {
            (OptionDef::SingleValue(a), OptionDef::SingleValue(b)) => a.alike(b),
            (OptionDef::MultiValue(a), OptionDef::MultiValue(b)) => a.alike(b),
            _ => false,
        }
    }
}

impl Clone for OptionDef {
    /// A copy of the same shape with the same settings and the same
    /// validators.
    fn clone(&self) -> (r: Self)
        ensures
            self.alike(r),
    {
        match self {
            OptionDef::SingleValue(o) => OptionDef::SingleValue(o.clone()),
            OptionDef::MultiValue(o) => OptionDef::MultiValue(o.clone()),
        }
    }
}

/// Two lists of definitions that are alike one by one.
pub open spec fn options_alike(a: Seq<OptionDef>, b: Seq<OptionDef>) -> bool {
    &&& a.len() == b.len()
    &&& forall|i: int| 0 <= i < a.len() ==> (#[trigger] a[i]).alike(b[i])
}

impl Clone for OptionDefs {
    /// A copy with the same options in the same order.
    fn clone(&self) -> (r: Self)
        ensures
            options_alike(self.0@, r.0@),
    {
        let mut copy: Vec<OptionDef> = Vec::new();
        let mut i: usize = 0;
        while i < self.0.len()
            invariant
                i <= self.0.len(),
                options_alike(self.0@.take(i as int), copy@),
            decreases self.0.len() - i,
        {
            let ghost before = copy@;
            copy.push(self.0[i].clone());
            i = i + 1;
            assert forall|k: int| 0 <= k < i implies (#[trigger] self.0@.take(i as int)[k]).alike(
                copy@[k],
            ) by {
                if k < i - 1 {
                    assert(self.0@.take(i - 1)[k].alike(before[k]));
                }
            }
        }
        assert(self.0@.take(self.0.len() as int) =~= self.0@);
        OptionDefs(copy)
    }
}

/// Lists of options that are alike keep the same rules: both are distinct
/// or neither is, and both are sound or neither is.
pub proof fn lemma_alike_options_keep_rules(a: OptionDefs, b: OptionDefs)
    requires
        options_alike(a.0@, b.0@),
    ensures
        a.distinct() == b.distinct(),
        a.sound() == b.sound(),
{
    assert forall|i: int| 0 <= i < a.0@.len() implies (#[trigger] a.0@[i]).sound() == b.0@[i].sound()
        && a.0@[i].key() == b.0@[i].key() && a.0@[i].short_alias() == b.0@[i].short_alias()
        && a.0@[i].long_alias() == b.0@[i].long_alias() by {
        assert(a.0@[i].alike(b.0@[i]));
    }
    if a.distinct() {
        assert forall|i: int, j: int| 0 <= i < j < b.0@.len() implies !options_clash(
            #[trigger] b.0@[i],
            #[trigger] b.0@[j],
        ) by {
            assert(!options_clash(a.0@[i], a.0@[j]));
        }
    }
    if b.distinct() {
        assert forall|i: int, j: int| 0 <= i < j < a.0@.len() implies !options_clash(
            #[trigger] a.0@[i],
            #[trigger] a.0@[j],
        ) by {
            assert(!options_clash(b.0@[i], b.0@[j]));
        }
    }
    if a.sound() {
        assert forall|i: int| 0 <= i < b.0@.len() implies (#[trigger] b.0@[i]).sound() by {
            assert(a.0@[i].sound());
        }
    }
    if b.sound() {
        assert forall|i: int| 0 <= i < a.0@.len() implies (#[trigger] a.0@[i]).sound() by {
            assert(b.0@[i].sound());
        }
    }
}

/// The markers of an entry as the help shows them.
pub open spec fn markers_text(short: Option<char>, long: Option<Seq<char>>) -> Seq<char> {
    match (short, long) {
        (Some(s), None) => "-"@.push(s),
        (None, Some(l)) => "--"@ + l,
        (Some(s), Some(l)) => "-"@.push(s) + ", --"@ + l,
        (None, None) => Seq::empty(),
    }
}

/// Appends the markers of an entry to `s`.
pub(crate) fn push_markers(s: &mut String, short: &Option<char>, long: &Option<String>)
    ensures
        final(s)@ == old(s)@ + markers_text(*short, optional_text(*long)),
{
    match short {
        Some(c) => {
            push_text(s, "-");
            push_char(s, *c);
            match long {
                Some(l) => {
                    push_text(s, ", --");
                    push_text(s, l.as_str());
                    assert(s@ =~= old(s)@ + ("-"@.push(*c) + ", --"@ + l@));
                },
                None => {
                    assert(s@ =~= old(s)@ + "-"@.push(*c));
                },
            }
        },
        None => {
            match long {
                Some(l) => {
                    push_text(s, "--");
                    push_text(s, l.as_str());
                    assert(s@ =~= old(s)@ + ("--"@ + l@));
                },
                None => {
                    assert(s@ =~= old(s)@ + Seq::<char>::empty());
                },
            }
        },
    }
}

/// The help text, led by a blank where there is one.
pub open spec fn help_text(help: Option<Seq<char>>) -> Seq<char> {
    match help {
        Some(h) => " "@ + h,
        None => Seq::empty(),
    }
}

/// Appends the help text, led by a blank, to `s`.
pub(crate) fn push_help(s: &mut String, help: &Option<String>)
    ensures
        final(s)@ == old(s)@ + help_text(optional_text(*help)),
{
    match help {
        Some(h) => {
            push_text(s, " ");
            push_text(s, h.as_str());
            assert(s@ =~= old(s)@ + (" "@ + h@));
        },
        None => {
            assert(s@ =~= old(s)@ + Seq::<char>::empty());
        },
    }
}

/// How the usage shows an entry that may occur from `min` to `max` times:
/// the label once for each occurrence that is owed, then in brackets once
/// for each that is allowed beyond those, or an ellipsis where the number is
/// open.
pub open spec fn occurrences_text(label: Seq<char>, min: u64, max: Option<u64>) -> Seq<char> {
    match max {
        None => {
            if min == 0 {
                " ["@ + label + "] [...]"@
            } else {
                repeated(" "@ + label, min as nat) + " [...]"@
            }
        },
        Some(most) => {
            repeated(" "@ + label, min as nat) + (if min < most {
                repeated(" ["@ + label + "]"@, (most - min) as nat)
            } else {
                Seq::empty()
            })
        },
    }
}

/// Appends to `s` how the usage shows an entry that may occur from `min` to
/// `max` times.
pub(crate) fn push_occurrences(s: &mut String, label: &str, min: u64, max: Option<u64>)
    ensures
        final(s)@ == old(s)@ + occurrences_text(label@, min, max),
{
    let mut plain = String::new();
    push_text(&mut plain, " ");
    push_text(&mut plain, label);
    assert(plain@ =~= " "@ + label@);
    let mut bracketed = String::new();
    push_text(&mut bracketed, " [");
    push_text(&mut bracketed, label);
    push_text(&mut bracketed, "]");
    assert(bracketed@ =~= " ["@ + label@ + "]"@);
    match max {
        None => {
            if min == 0 {
                push_text(s, " [");
                push_text(s, label);
                push_text(s, "] [...]");
                assert(s@ =~= old(s)@ + (" ["@ + label@ + "] [...]"@));
            } else {
                push_repeated(s, plain.as_str(), min);
                push_text(s, " [...]");
                assert(s@ =~= old(s)@ + (repeated(" "@ + label@, min as nat) + " [...]"@));
            }
        },
        Some(most) => {
            push_repeated(s, plain.as_str(), min);
            if min < most {
                push_repeated(s, bracketed.as_str(), most - min);
                assert(s@ =~= old(s)@ + (repeated(" "@ + label@, min as nat) + repeated(
                    " ["@ + label@ + "]"@,
                    (most - min) as nat,
                )));
            } else {
                assert(s@ =~= old(s)@ + (repeated(" "@ + label@, min as nat) + Seq::<
                    char,
                >::empty()));
            }
        },
    }
}

impl SingleValueOptionDef {
    /// The line of the usage text for this option.
    pub open spec fn help_line(&self) -> Seq<char> {
        "    "@ + markers_text(self.short, optional_text(self.long)) + help_text(
            optional_text(self.help),
        ) + "\n"@
    }

    /// The line of the usage text for this option. An option without any
    /// marker has none.
    pub fn get_help(&self) -> (s: String)
        requires
            self.short is Some || self.long is Some,
        ensures
            s@ == self.help_line(),
    {
        let mut s = String::new();
        push_text(&mut s, "    ");
        push_markers(&mut s, &self.short, &self.long);
        push_help(&mut s, &self.help);
        push_text(&mut s, "\n");
        assert(s@ =~= self.help_line());
        s
    }

    /// The value that the validators of this option are asked about: the
    /// one filed under its canonical name.
    pub open spec fn subject(&self, values: Seq<(Seq<char>, Seq<char>)>) -> Option<Seq<char>> {
        lookup(values, self.name@)
    }

    /// Whether a validator is asked: the option was given and has one.
    pub open spec fn asks(&self, values: Seq<(Seq<char>, Seq<char>)>) -> bool {
        self.subject(values) is Some && self.validators@.len() > 0
    }

    /// The value filed under the canonical name of this option.
    pub fn subject_in<'a>(&self, single_value_options: &'a IndexMap<String, String>) -> (r: Option<
        &'a String,
    >)
        ensures
            match r {
                Some(value) => self.subject(text_entries(*single_value_options)) == Some(value@),
                None => self.subject(text_entries(*single_value_options)) is None,
            },
    {
        texts_get(single_value_options, self.name.as_str())
    }

    /// Holds the single values seen against this definition. The option has
    /// no constraint of its own: where it was given, its validators are
    /// asked about its value, in order, and the first message is the
    /// verdict. Where none is asked, the verdict is `Ok`.
    pub fn validate(&self, single_value_options: &IndexMap<String, String>) -> (r: Result<
        (),
        String,
    >)
        ensures
            abides(complaint_of(r), None, self.asks(text_entries(*single_value_options))),
    {
        match self.subject_in(single_value_options) {
            Some(value) => check_value(&self.validators, value.as_str()),
            None => Ok(()),
        }
    }
}

/// What a multi-value entry itself says against its values: their number
/// must lie in its window. An entry that was not given has none.
pub open spec fn multi_value_complaint(
    kind: Seq<char>,
    name: Seq<char>,
    min: u64,
    max: Option<u64>,
    subject: Option<Seq<Seq<char>>>,
) -> Option<Seq<char>> {
    let seen = match subject {
        Some(values) => values.len() as u64,
        None => 0u64,
    };
    window_complaint(kind, name, min, max, seen)
}

/// Whether a validator of a multi-value entry is asked: the number of its
/// values lies in its window, it was given, and it has a validator.
pub open spec fn multi_value_asks(
    kind: Seq<char>,
    name: Seq<char>,
    min: u64,
    max: Option<u64>,
    validators: Seq<MultiValueValidator>,
    subject: Option<Seq<Seq<char>>>,
) -> bool {
    &&& multi_value_complaint(kind, name, min, max, subject) is None
    &&& subject is Some
    &&& validators.len() > 0
}

/// Holds the values of a multi-value entry against it: first the window
/// of their number, then, where the entry was given, its validators, which
/// are asked about `subject`, in order.
pub(crate) fn check_multi_value(
    kind: &str,
    name: &str,
    min: u64,
    max: Option<u64>,
    validators: &Vec<MultiValueValidator>,
    subject: Option<&Vec<String>>,
) -> (r: Result<(), String>)
    ensures
        abides(
            complaint_of(r),
            multi_value_complaint(kind@, name@, min, max, handed(subject)),
            multi_value_asks(kind@, name@, min, max, validators@, handed(subject)),
        ),
{
    let seen: u64 = match subject {
        Some(values) => values.len() as u64,
        None => 0,
    };
    match check_window(kind, name, min, max, seen) {
        Err(message) => {
            return Err(message);
        },
        Ok(_) => {},
    }
    match subject {
        Some(values) => check_values(validators, values),
        None => Ok(()),
    }
}

/// An optional list of values as plain values.
pub open spec fn handed(subject: Option<&Vec<String>>) -> Option<Seq<Seq<char>>> {
    match subject {
        Some(values) => Some(values.deep_view()),
        None => None,
    }
}

impl MultiValueOptionDef {
    /// The line of the usage text for this option.
    pub open spec fn help_line(&self) -> Seq<char> {
        "    "@ + markers_text(self.short, optional_text(self.long)) + occurrences_text(
            uppercase_of(self.name@),
            self.min_occurences,
            self.max_occurences,
        ) + help_text(optional_text(self.help)) + "\n"@
    }

    /// The line of the usage text for this option. An option without any
    /// marker has none.
    pub fn get_help(&self) -> (s: String)
        requires
            self.short is Some || self.long is Some,
        ensures
            s@ == self.help_line(),
    {
        let mut s = String::new();
        push_text(&mut s, "    ");
        push_markers(&mut s, &self.short, &self.long);
        let label = uppercase(self.name.as_str());
        push_occurrences(&mut s, label.as_str(), self.min_occurences, self.max_occurences);
        push_help(&mut s, &self.help);
        push_text(&mut s, "\n");
        assert(s@ =~= self.help_line());
        s
    }

    /// The values that the validators of this option are asked about: those
    /// filed under its canonical name.
    pub open spec fn subject(&self, lists: Seq<(Seq<char>, Seq<Seq<char>>)>) -> Option<
        Seq<Seq<char>>,
    > {
        lookup(lists, self.name@)
    }

    /// What this definition itself says against the value lists seen: the
    /// number of its values must lie in its window.
    pub open spec fn complaint(&self, lists: Seq<(Seq<char>, Seq<Seq<char>>)>) -> Option<
        Seq<char>,
    > {
        multi_value_complaint(
            "option"@,
            self.name@,
            self.min_occurences,
            self.max_occurences,
            self.subject(lists),
        )
    }

    /// Whether a validator is asked: the count lies in the window, the
    /// option was given and has a validator.
    pub open spec fn asks(&self, lists: Seq<(Seq<char>, Seq<Seq<char>>)>) -> bool {
        multi_value_asks(
            "option"@,
            self.name@,
            self.min_occurences,
            self.max_occurences,
            self.validators@,
            self.subject(lists),
        )
    }

    /// The values filed under the canonical name of this option.
    pub fn subject_in<'a>(&self, multi_value_options: &'a IndexMap<String, Vec<String>>) -> (r:
        Option<&'a Vec<String>>)
        ensures
            handed(r) == self.subject(list_entries(*multi_value_options)),
    {
        lists_get(multi_value_options, self.name.as_str())
    }

    /// Holds the value lists seen against this definition: a count outside
    /// the window is the verdict whatever the validators would say; within
    /// it, the first message of a validator is, and `Ok` where none is
    /// asked.
    pub fn validate(&self, multi_value_options: &IndexMap<String, Vec<String>>) -> (r: Result<
        (),
        String,
    >)
        ensures
            abides(
                complaint_of(r),
                self.complaint(list_entries(*multi_value_options)),
                self.asks(list_entries(*multi_value_options)),
            ),
    {
        check_multi_value(
            "option",
            self.name.as_str(),
            self.min_occurences,
            self.max_occurences,
            &self.validators,
            self.subject_in(multi_value_options),
        )
    }
}

impl OptionDef {
    /// The canonical name.
    pub open spec fn key(&self) -> Seq<char> {
        match *self {
            OptionDef::SingleValue(o) => o.name@,
            OptionDef::MultiValue(o) => o.name@,
        }
    }

    /// The one-letter marker, if there is one.
    pub open spec fn short_alias(&self) -> Option<char> {
        match *self {
            OptionDef::SingleValue(o) => o.short,
            OptionDef::MultiValue(o) => o.short,
        }
    }

    /// The long marker, if there is one.
    pub open spec fn long_alias(&self) -> Option<Seq<char>> {
        match *self {
            OptionDef::SingleValue(o) => optional_text(o.long),
            OptionDef::MultiValue(o) => optional_text(o.long),
        }
    }

    /// The line of the usage text for this option.
    pub open spec fn help_line(&self) -> Seq<char> {
        match *self {
            OptionDef::SingleValue(o) => o.help_line(),
            OptionDef::MultiValue(o) => o.help_line(),
        }
    }

    /// What this definition itself says against the values seen.
    pub open spec fn complaint(
        &self,
        values: Seq<(Seq<char>, Seq<char>)>,
        lists: Seq<(Seq<char>, Seq<Seq<char>>)>,
    ) -> Option<Seq<char>> {
        match *self {
            OptionDef::SingleValue(_) => None,
            OptionDef::MultiValue(o) => o.complaint(lists),
        }
    }

    /// Whether a validator of this definition is asked.
    pub open spec fn asks(
        &self,
        values: Seq<(Seq<char>, Seq<char>)>,
        lists: Seq<(Seq<char>, Seq<Seq<char>>)>,
    ) -> bool {
        match *self {
            OptionDef::SingleValue(o) => o.asks(values),
            OptionDef::MultiValue(o) => o.asks(lists),
        }
    }

    /// The canonical name.
    pub fn name(&self) -> (s: String)
        ensures
            s@ == self.key(),
    {
        match self {
            OptionDef::SingleValue(o) => o.name.clone(),
            OptionDef::MultiValue(o) => o.name.clone(),
        }
    }

    /// The line of the usage text for this option. An option without any
    /// marker has none.
    pub fn get_help(&self) -> (s: String)
        requires
            self.short_alias() is Some || self.long_alias() is Some,
        ensures
            s@ == self.help_line(),
    {
        match self {
            OptionDef::SingleValue(o) => o.get_help(),
            OptionDef::MultiValue(o) => o.get_help(),
        }
    }

    /// Holds the values seen against this definition.
    pub fn validate(
        &self,
        single_value_options: &IndexMap<String, String>,
        multi_value_options: &IndexMap<String, Vec<String>>,
    ) -> (r: Result<(), String>)
        ensures
            abides(
                complaint_of(r),
                self.complaint(
                    text_entries(*single_value_options),
                    list_entries(*multi_value_options),
                ),
                self.asks(text_entries(*single_value_options), list_entries(*multi_value_options)),
            ),
    {
        match self {
            OptionDef::SingleValue(o) => o.validate(single_value_options),
            OptionDef::MultiValue(o) => o.validate(multi_value_options),
        }
    }

    /// A builder for a single-value option with the name and both markers
    /// set.
    pub fn new_single_value(name: String, short: Option<char>, long: Option<String>) -> (b:
        SingleValueOptionDefBuilder)
        ensures
            b == (SingleValueOptionDefBuilder {
                name: Some(name),
                short: Some(short),
                long: Some(long),
                ..SingleValueOptionDefBuilder::unset()
            }),
    {
        SingleValueOptionDefBuilder::new(name, short, long)
    }

    /// A builder for a multi-value option with the name and both markers
    /// set.
    pub fn new_multi_value(name: String, short: Option<char>, long: Option<String>) -> (b:
        MultiValueOptionDefBuilder)
        ensures
            b == (MultiValueOptionDefBuilder {
                name: Some(name),
                short: Some(short),
                long: Some(long),
                ..MultiValueOptionDefBuilder::unset()
            }),
    {
        MultiValueOptionDefBuilder::new(name, short, long)
    }
}

impl From<SingleValueOptionDef> for OptionDef {
    fn from(item: SingleValueOptionDef) -> (r: Self) {
        OptionDef::SingleValue(item)
    }
}

impl vstd::std_specs::convert::FromSpecImpl<SingleValueOptionDef> for OptionDef {
    open spec fn obeys_from_spec() -> bool {
        true
    }

    open spec fn from_spec(v: SingleValueOptionDef) -> Self {
        OptionDef::SingleValue(v)
    }
}

impl From<MultiValueOptionDef> for OptionDef {
    fn from(item: MultiValueOptionDef) -> (r: Self) {
        OptionDef::MultiValue(item)
    }
}

impl vstd::std_specs::convert::FromSpecImpl<MultiValueOptionDef> for OptionDef {
    open spec fn obeys_from_spec() -> bool {
        true
    }

    open spec fn from_spec(v: MultiValueOptionDef) -> Self {
        OptionDef::MultiValue(v)
    }
}

/// What the first definition of `defs` with a complaint of its own says
/// against the values seen.
pub open spec fn first_option_complaint(
    defs: Seq<OptionDef>,
    values: Seq<(Seq<char>, Seq<char>)>,
    lists: Seq<(Seq<char>, Seq<Seq<char>>)>,
) -> Option<Seq<char>>
    decreases defs.len(),
{
    if defs.len() == 0 {
        None
    } else {
        or_else(
            defs[0].complaint(values, lists),
            first_option_complaint(defs.skip(1), values, lists),
        )
    }
}

/// Whether a validator of `defs` is asked before a definition has a
/// complaint of its own.
pub open spec fn options_ask(
    defs: Seq<OptionDef>,
    values: Seq<(Seq<char>, Seq<char>)>,
    lists: Seq<(Seq<char>, Seq<Seq<char>>)>,
) -> bool
    decreases defs.len(),
{
    if defs.len() == 0 {
        false
    } else {
        asked_then(
            defs[0].asks(values, lists),
            defs[0].complaint(values, lists),
            options_ask(defs.skip(1), values, lists),
        )
    }
}

/// Whether no definition of `defs` has a validator.
pub open spec fn options_unguarded(defs: Seq<OptionDef>) -> bool {
    forall|i: int|
        0 <= i < defs.len() ==> match #[trigger] defs[i] {
            OptionDef::SingleValue(o) => o.validators@.len() == 0,
            OptionDef::MultiValue(o) => o.validators@.len() == 0,
        }
}

/// Definitions without validators ask none.
pub proof fn lemma_unguarded_options_ask_nothing(
    defs: Seq<OptionDef>,
    values: Seq<(Seq<char>, Seq<char>)>,
    lists: Seq<(Seq<char>, Seq<Seq<char>>)>,
)
    requires
        options_unguarded(defs),
    ensures
        !options_ask(defs, values, lists),
    decreases defs.len(),
{
    if defs.len() > 0 {
        assert(defs[0] == defs[0]);
        assert forall|i: int| 0 <= i < defs.skip(1).len() implies match #[trigger] defs.skip(1)[i] {
            OptionDef::SingleValue(o) => o.validators@.len() == 0,
            OptionDef::MultiValue(o) => o.validators@.len() == 0,
        } by {
            assert(defs.skip(1)[i] == defs[i + 1]);
        }
        lemma_unguarded_options_ask_nothing(defs.skip(1), values, lists);
    }
}

/// Two options cannot be told apart: they share the name, a one-letter
/// marker or a long marker.
pub open spec fn options_clash(a: OptionDef, b: OptionDef) -> bool {
    ||| a.key() == b.key()
    ||| (a.short_alias() is Some && a.short_alias() == b.short_alias())
    ||| (a.long_alias() is Some && a.long_alias() == b.long_alias())
}

/// Whether two options share the name, a one-letter marker or a long marker.
pub(crate) fn options_do_clash(a: &OptionDef, b: &OptionDef) -> (r: bool)
    ensures
        r == options_clash(*a, *b),
{
    let (a_name, a_short, a_long) = match a {
        OptionDef::SingleValue(d) => (&d.name, d.short, &d.long),
        OptionDef::MultiValue(d) => (&d.name, d.short, &d.long),
    };
    let (b_name, b_short, b_long) = match b {
        OptionDef::SingleValue(d) => (&d.name, d.short, &d.long),
        OptionDef::MultiValue(d) => (&d.name, d.short, &d.long),
    };
    same_ids(a_name, a_short, a_long, b_name, b_short, b_long)
}

impl OptionDef {
    /// A multi-value option has a marker and a window that is neither
    /// crossed nor exactly zero. Nothing is asked of a single-value option.
    pub open spec fn sound(&self) -> bool {
        match *self {
            OptionDef::SingleValue(_) => true,
            OptionDef::MultiValue(o) => {
                &&& o.short is Some || o.long is Some
                &&& window_sound(o.min_occurences, o.max_occurences)
            },
        }
    }

    /// Whether the definition is sound.
    pub fn is_sound(&self) -> (r: bool)
        ensures
            r == self.sound(),
    {
        match self {
            OptionDef::SingleValue(_) => true,
            OptionDef::MultiValue(o) => (o.short.is_some() || o.long.is_some())
                && is_window_sound(o.min_occurences, o.max_occurences),
        }
    }
}

impl OptionDefs {
    /// Every option is sound.
    pub open spec fn sound(&self) -> bool {
        forall|i: int| 0 <= i < self.0@.len() ==> (#[trigger] self.0@[i]).sound()
    }

    /// Whether every option is sound.
    pub fn is_sound(&self) -> (r: bool)
        ensures
            r == self.sound(),
    {
        let mut i: usize = 0;
        while i < self.0.len()
            invariant
                i <= self.0.len(),
                forall|k: int| 0 <= k < i ==> (#[trigger] self.0@[k]).sound(),
            decreases self.0.len() - i,
        {
            if !self.0[i].is_sound() {
                assert(!self.0@[i as int].sound());
                return false;
            }
            i = i + 1;
        }
        true
    }

    /// In options that differ from each other, an option with the
    /// one-letter marker `ch` is the one that a search for `ch` finds.
    pub proof fn lemma_short_marker_names_one(&self, i: int, ch: char)
        requires
            self.distinct(),
            0 <= i < self.0@.len(),
            self.0@[i].short_alias() == Some(ch),
        ensures
            self.with_short(ch) == Some(self.0@[i]),
    {
        let aliases = self.short_aliases();
        aliases.index_of_first_ensures(Some(ch));
        assert(aliases[i] == Some(ch));
        let found = aliases.index_of_first(Some(ch))->0;
        assert(aliases[found] == self.0@[found].short_alias());
        if found != i {
            if found < i {
                assert(options_clash(self.0@[found], self.0@[i]));
            } else {
                assert(options_clash(self.0@[i], self.0@[found]));
            }
        }
    }

    /// In options that differ from each other, an option with the long
    /// marker `name` is the one that a search for `name` finds.
    pub proof fn lemma_long_marker_names_one(&self, i: int, name: Seq<char>)
        requires
            self.distinct(),
            0 <= i < self.0@.len(),
            self.0@[i].long_alias() == Some(name),
        ensures
            self.with_long(name) == Some(self.0@[i]),
    {
        let aliases = self.long_aliases();
        aliases.index_of_first_ensures(Some(name));
        assert(aliases[i] == Some(name));
        let found = aliases.index_of_first(Some(name))->0;
        assert(aliases[found] == self.0@[found].long_alias());
        if found != i {
            if found < i {
                assert(options_clash(self.0@[found], self.0@[i]));
            } else {
                assert(options_clash(self.0@[i], self.0@[found]));
            }
        }
    }

    /// In options that differ from each other, an option with the name
    /// `name` is the one that a search for `name` finds.
    pub proof fn lemma_name_names_one(&self, i: int, name: Seq<char>)
        requires
            self.distinct(),
            0 <= i < self.0@.len(),
            self.0@[i].key() == name,
        ensures
            self.with_name(name) == Some(self.0@[i]),
    {
        let keys = self.keys();
        keys.index_of_first_ensures(name);
        assert(keys[i] == name);
        let found = keys.index_of_first(name)->0;
        assert(keys[found] == self.0@[found].key());
        if found != i {
            if found < i {
                assert(options_clash(self.0@[found], self.0@[i]));
            } else {
                assert(options_clash(self.0@[i], self.0@[found]));
            }
        }
    }

    /// No two options share a name, a one-letter marker or a long marker.
    pub open spec fn distinct(&self) -> bool {
        forall|i: int, j: int|
            0 <= i < j < self.0@.len() ==> !options_clash(
                #[trigger] self.0@[i],
                #[trigger] self.0@[j],
            )
    }

    /// Whether no two options share a name, a one-letter marker or a long
    /// marker.
    pub fn is_distinct(&self) -> (r: bool)
        ensures
            r == self.distinct(),
    {
        let mut j: usize = 0;
        while j < self.0.len()
            invariant
                j <= self.0.len(),
                forall|a: int, b: int|
                    0 <= a < b < j ==> !options_clash(
                        #[trigger] self.0@[a],
                        #[trigger] self.0@[b],
                    ),
            decreases self.0.len() - j,
        {
            let mut i: usize = 0;
            while i < j
                invariant
                    i <= j,
                    j < self.0.len(),
                    forall|a: int|
                        0 <= a < i ==> !options_clash(#[trigger] self.0@[a], self.0@[j as int]),
                decreases j - i,
            {
                if options_do_clash(&self.0[i], &self.0[j]) {
                    assert(options_clash(self.0@[i as int], self.0@[j as int]));
                    return false;
                }
                i = i + 1;
            }
            j = j + 1;
        }
        true
    }

    /// The canonical names of the options, in declaration order.
    pub open spec fn keys(&self) -> Seq<Seq<char>> {
        Seq::new(self.0@.len(), |i: int| self.0@[i].key())
    }

    /// The one-letter markers of the options, in declaration order.
    pub open spec fn short_aliases(&self) -> Seq<Option<char>> {
        Seq::new(self.0@.len(), |i: int| self.0@[i].short_alias())
    }

    /// The long markers of the options, in declaration order.
    pub open spec fn long_aliases(&self) -> Seq<Option<Seq<char>>> {
        Seq::new(self.0@.len(), |i: int| self.0@[i].long_alias())
    }

    /// The first option whose canonical name is `name`.
    pub open spec fn with_name(&self, name: Seq<char>) -> Option<OptionDef> {
        match self.keys().index_of_first(name) {
            Some(i) => Some(self.0@[i]),
            None => None,
        }
    }

    /// The first option whose one-letter marker is `ch`.
    pub open spec fn with_short(&self, ch: char) -> Option<OptionDef> {
        match self.short_aliases().index_of_first(Some(ch)) {
            Some(i) => Some(self.0@[i]),
            None => None,
        }
    }

    /// The first option whose long marker is `name`.
    pub open spec fn with_long(&self, name: Seq<char>) -> Option<OptionDef> {
        match self.long_aliases().index_of_first(Some(name)) {
            Some(i) => Some(self.0@[i]),
            None => None,
        }
    }

    /// What the first option with a complaint of its own says against the
    /// values seen.
    pub open spec fn complaint(
        &self,
        values: Seq<(Seq<char>, Seq<char>)>,
        lists: Seq<(Seq<char>, Seq<Seq<char>>)>,
    ) -> Option<Seq<char>> {
        first_option_complaint(self.0@, values, lists)
    }

    /// Whether a validator of an option is asked before an option has a
    /// complaint of its own.
    pub open spec fn asks(
        &self,
        values: Seq<(Seq<char>, Seq<char>)>,
        lists: Seq<(Seq<char>, Seq<Seq<char>>)>,
    ) -> bool {
        options_ask(self.0@, values, lists)
    }

    /// The first option whose canonical name is `name`.
    pub fn by_name(&self, name: &str) -> (r: Option<&OptionDef>)
        ensures
            match r {
                Some(o) => self.with_name(name@) == Some(*o),
                None => self.with_name(name@) is None,
            },
    {
        let ghost keys = self.keys();
        let needle = name.to_owned();
        let mut i: usize = 0;
        while i < self.0.len()
            invariant
                i <= self.0.len(),
                needle@ == name@,
                keys == self.keys(),
                forall|j: int| 0 <= j < i ==> #[trigger] keys[j] != name@,
            decreases self.0.len() - i,
        {
            let od = &self.0[i];
            let key = match od {
                OptionDef::SingleValue(o) => &o.name,
                OptionDef::MultiValue(o) => &o.name,
            };
            assert(keys[i as int] == key@);
            if *key == needle {
                proof {
                    lemma_first_is(keys, name@, i as int);
                }
                return Some(od);
            }
            i = i + 1;
        }
        proof {
            lemma_first_none(keys, name@);
        }
        None
    }

    /// The first option whose one-letter marker is `ch`.
    pub fn by_short(&self, ch: &char) -> (r: Option<&OptionDef>)
        ensures
            match r {
                Some(o) => self.with_short(*ch) == Some(*o),
                None => self.with_short(*ch) is None,
            },
    {
        let ghost aliases = self.short_aliases();
        let mut i: usize = 0;
        while i < self.0.len()
            invariant
                i <= self.0.len(),
                aliases == self.short_aliases(),
                forall|j: int| 0 <= j < i ==> #[trigger] aliases[j] != Some(*ch),
            decreases self.0.len() - i,
        {
            let od = &self.0[i];
            let short = match od {
                OptionDef::SingleValue(o) => o.short,
                OptionDef::MultiValue(o) => o.short,
            };
            assert(aliases[i as int] == short);
            let hit = match short {
                Some(v) => v == *ch,
                None => false,
            };
            if hit {
                proof {
                    lemma_first_is(aliases, Some(*ch), i as int);
                }
                return Some(od);
            }
            i = i + 1;
        }
        proof {
            lemma_first_none(aliases, Some(*ch));
        }
        None
    }

    /// The first option whose long marker is `param`.
    pub fn by_long(&self, param: &str) -> (r: Option<&OptionDef>)
        ensures
            match r {
                Some(o) => self.with_long(param@) == Some(*o),
                None => self.with_long(param@) is None,
            },
    {
        let ghost aliases = self.long_aliases();
        let needle = param.to_owned();
        let mut i: usize = 0;
        while i < self.0.len()
            invariant
                i <= self.0.len(),
                needle@ == param@,
                aliases == self.long_aliases(),
                forall|j: int| 0 <= j < i ==> #[trigger] aliases[j] != Some(param@),
            decreases self.0.len() - i,
        {
            let od = &self.0[i];
            let long = match od {
                OptionDef::SingleValue(o) => &o.long,
                OptionDef::MultiValue(o) => &o.long,
            };
            assert(aliases[i as int] == optional_text(*long));
            let hit = match long {
                Some(v) => *v == needle,
                None => false,
            };
            if hit {
                proof {
                    lemma_first_is(aliases, Some(param@), i as int);
                }
                return Some(od);
            }
            i = i + 1;
        }
        proof {
            lemma_first_none(aliases, Some(param@));
        }
        None
    }

    /// Holds the values seen against every option, in declaration order, and
    /// stops at the first message, be it of the library's own or of a
    /// validator.
    pub fn validate(
        &self,
        single_value_options: &IndexMap<String, String>,
        multi_value_options: &IndexMap<String, Vec<String>>,
    ) -> (r: Result<(), String>)
        ensures
            abides(
                complaint_of(r),
                self.complaint(
                    text_entries(*single_value_options),
                    list_entries(*multi_value_options),
                ),
                self.asks(text_entries(*single_value_options), list_entries(*multi_value_options)),
            ),
    {
        let ghost values = text_entries(*single_value_options);
        let ghost lists = list_entries(*multi_value_options);
        let ghost mut seen = false;
        let mut i: usize = 0;
        assert(self.0@.skip(0) =~= self.0@);
        while i < self.0.len()
            invariant
                i <= self.0.len(),
                values == text_entries(*single_value_options),
                lists == list_entries(*multi_value_options),
                first_option_complaint(self.0@, values, lists) == first_option_complaint(
                    self.0@.skip(i as int),
                    values,
                    lists,
                ),
                options_ask(self.0@, values, lists) == (seen || options_ask(
                    self.0@.skip(i as int),
                    values,
                    lists,
                )),
            decreases self.0.len() - i,
        {
            let r = self.0[i].validate(single_value_options, multi_value_options);
            proof {
                let rest = self.0@.skip(i as int);
                assert(rest[0] == self.0@[i as int]);
                assert(rest.skip(1) =~= self.0@.skip(i + 1));
            }
            match r {
                Err(message) => {
                    return Err(message);
                },
                Ok(_) => {},
            }
            proof {
                seen = seen || self.0@[i as int].asks(values, lists);
            }
            i = i + 1;
        }
        Ok(())
    }
}

/// Collects the settings of a `SingleValueOptionDef`.
#[derive(Clone)]
pub struct SingleValueOptionDefBuilder {
    pub name: Option<String>,
    pub short: Option<Option<char>>,
    pub long: Option<Option<String>>,
    pub help: Option<Option<String>>,
    pub required: Option<bool>,
    pub validators: Option<Vec<ValueValidator>>,
}

impl SingleValueOptionDefBuilder {
    /// A builder with nothing set.
    pub open spec fn unset() -> SingleValueOptionDefBuilder {
        SingleValueOptionDefBuilder {
            name: None,
            short: None,
            long: None,
            help: None,
            required: None,
            validators: None,
        }
    }

    /// A builder with the name and both markers set.
    pub fn new(name: String, short: Option<char>, long: Option<String>) -> (b:
        SingleValueOptionDefBuilder)
        ensures
            b == (SingleValueOptionDefBuilder {
                name: Some(name),
                short: Some(short),
                long: Some(long),
                ..SingleValueOptionDefBuilder::unset()
            }),
    {
        SingleValueOptionDefBuilder {
            name: Some(name),
            short: Some(short),
            long: Some(long),
            help: None,
            required: None,
            validators: None,
        }
    }

    /// Sets the canonical name.
    pub fn name(&mut self, value: String) -> (r: &mut Self)
        ensures
            *r == (SingleValueOptionDefBuilder { name: Some(value), ..*old(self) }),
            *final(self) == *final(r),
    {
        self.name = Some(value);
        self
    }

    /// Sets the one-letter marker.
    pub fn short(&mut self, value: Option<char>) -> (r: &mut Self)
        ensures
            *r == (SingleValueOptionDefBuilder { short: Some(value), ..*old(self) }),
            *final(self) == *final(r),
    {
        self.short = Some(value);
        self
    }

    /// Sets the long marker.
    pub fn long(&mut self, value: Option<String>) -> (r: &mut Self)
        ensures
            *r == (SingleValueOptionDefBuilder { long: Some(value), ..*old(self) }),
            *final(self) == *final(r),
    {
        self.long = Some(value);
        self
    }

    /// Sets the help text.
    pub fn help(&mut self, value: Option<String>) -> (r: &mut Self)
        ensures
            *r == (SingleValueOptionDefBuilder { help: Some(value), ..*old(self) }),
            *final(self) == *final(r),
    {
        self.help = Some(value);
        self
    }

    /// Sets whether the option must be given.
    pub fn required(&mut self, value: bool) -> (r: &mut Self)
        ensures
            *r == (SingleValueOptionDefBuilder { required: Some(value), ..*old(self) }),
            *final(self) == *final(r),
    {
        self.required = Some(value);
        self
    }

    /// Sets the validators.
    pub fn validators(&mut self, value: Vec<ValueValidator>) -> (r: &mut Self)
        ensures
            *r == (SingleValueOptionDefBuilder { validators: Some(value), ..*old(self) }),
            *final(self) == *final(r),
    {
        self.validators = Some(value);
        self
    }

    /// `def` is what the settings describe, once a name is set: unset
    /// markers and help are absent, the option is optional and has no
    /// validators unless set otherwise.
    pub open spec fn yields(&self, def: SingleValueOptionDef) -> bool {
        &&& self.name == Some(def.name)
        &&& def.short == settled(self.short)
        &&& def.long == settled(self.long)
        &&& def.help == settled(self.help)
        &&& def.required == (match self.required {
            Some(value) => value,
            None => false,
        })
        &&& def.validators@ == (match self.validators {
            Some(list) => list@,
            None => Seq::empty(),
        })
    }

    /// The definition, or the error that the name was never set.
    pub fn build(&self) -> (r: Result<SingleValueOptionDef, String>)
        ensures
            match r {
                Ok(def) => self.yields(def),
                Err(message) => self.name is None && message@ == unset_message("name"@),
            },
    {
        let name = match &self.name {
            Some(value) => value.clone(),
            None => {
                return Err(unset_error("name"));
            },
        };
        let short = match self.short {
            Some(value) => value,
            None => None,
        };
        let long = match &self.long {
            Some(value) => clone_optional(value),
            None => None,
        };
        let help = match &self.help {
            Some(value) => clone_optional(value),
            None => None,
        };
        let required = match self.required {
            Some(value) => value,
            None => false,
        };
        let validators = match &self.validators {
            Some(list) => copy_value_validators(list),
            None => Vec::new(),
        };
        Ok(SingleValueOptionDef { name, short, long, help, required, validators })
    }
}

impl Default for SingleValueOptionDefBuilder {
    fn default() -> (b: Self)
        ensures
            b == SingleValueOptionDefBuilder::unset(),
    {
        SingleValueOptionDefBuilder {
            name: None,
            short: None,
            long: None,
            help: None,
            required: None,
            validators: None,
        }
    }
}

/// Collects the settings of a `MultiValueOptionDef`.
#[derive(Clone)]
pub struct MultiValueOptionDefBuilder {
    pub name: Option<String>,
    pub short: Option<Option<char>>,
    pub long: Option<Option<String>>,
    pub help: Option<Option<String>>,
    pub min_occurences: Option<u64>,
    pub max_occurences: Option<Option<u64>>,
    pub validators: Option<Vec<MultiValueValidator>>,
}

impl MultiValueOptionDefBuilder {
    /// A builder with nothing set.
    pub open spec fn unset() -> MultiValueOptionDefBuilder {
        MultiValueOptionDefBuilder {
            name: None,
            short: None,
            long: None,
            help: None,
            min_occurences: None,
            max_occurences: None,
            validators: None,
        }
    }

    /// A builder with the name and both markers set.
    pub fn new(name: String, short: Option<char>, long: Option<String>) -> (b:
        MultiValueOptionDefBuilder)
        ensures
            b == (MultiValueOptionDefBuilder {
                name: Some(name),
                short: Some(short),
                long: Some(long),
                ..MultiValueOptionDefBuilder::unset()
            }),
    {
        MultiValueOptionDefBuilder {
            name: Some(name),
            short: Some(short),
            long: Some(long),
            help: None,
            min_occurences: None,
            max_occurences: None,
            validators: None,
        }
    }

    /// Sets the canonical name.
    pub fn name(&mut self, value: String) -> (r: &mut Self)
        ensures
            *r == (MultiValueOptionDefBuilder { name: Some(value), ..*old(self) }),
            *final(self) == *final(r),
    {
        self.name = Some(value);
        self
    }

    /// Sets the one-letter marker.
    pub fn short(&mut self, value: Option<char>) -> (r: &mut Self)
        ensures
            *r == (MultiValueOptionDefBuilder { short: Some(value), ..*old(self) }),
            *final(self) == *final(r),
    {
        self.short = Some(value);
        self
    }

    /// Sets the long marker.
    pub fn long(&mut self, value: Option<String>) -> (r: &mut Self)
        ensures
            *r == (MultiValueOptionDefBuilder { long: Some(value), ..*old(self) }),
            *final(self) == *final(r),
    {
        self.long = Some(value);
        self
    }

    /// Sets the help text.
    pub fn help(&mut self, value: Option<String>) -> (r: &mut Self)
        ensures
            *r == (MultiValueOptionDefBuilder { help: Some(value), ..*old(self) }),
            *final(self) == *final(r),
    {
        self.help = Some(value);
        self
    }

    /// Sets the least number of values.
    pub fn min_occurences(&mut self, value: u64) -> (r: &mut Self)
        ensures
            *r == (MultiValueOptionDefBuilder { min_occurences: Some(value), ..*old(self) }),
            *final(self) == *final(r),
    {
        self.min_occurences = Some(value);
        self
    }

    /// Sets the greatest number of values; `None` leaves it open.
    pub fn max_occurences(&mut self, value: Option<u64>) -> (r: &mut Self)
        ensures
            *r == (MultiValueOptionDefBuilder { max_occurences: Some(value), ..*old(self) }),
            *final(self) == *final(r),
    {
        self.max_occurences = Some(value);
        self
    }

    /// Sets the validators.
    pub fn validators(&mut self, value: Vec<MultiValueValidator>) -> (r: &mut Self)
        ensures
            *r == (MultiValueOptionDefBuilder { validators: Some(value), ..*old(self) }),
            *final(self) == *final(r),
    {
        self.validators = Some(value);
        self
    }

    /// `def` is what the settings describe, once a name is set: unset
    /// markers and help are absent, the lower bound is 0, the upper bound
    /// open and there are no validators unless set otherwise.
    pub open spec fn yields(&self, def: MultiValueOptionDef) -> bool {
        &&& self.name == Some(def.name)
        &&& def.short == settled(self.short)
        &&& def.long == settled(self.long)
        &&& def.help == settled(self.help)
        &&& def.min_occurences == (match self.min_occurences {
            Some(value) => value,
            None => 0,
        })
        &&& def.max_occurences == settled(self.max_occurences)
        &&& def.validators@ == (match self.validators {
            Some(list) => list@,
            None => Seq::empty(),
        })
    }

    /// The definition, or the error that the name was never set.
    pub fn build(&self) -> (r: Result<MultiValueOptionDef, String>)
        ensures
            match r {
                Ok(def) => self.yields(def),
                Err(message) => self.name is None && message@ == unset_message("name"@),
            },
    {
        let name = match &self.name {
            Some(value) => value.clone(),
            None => {
                return Err(unset_error("name"));
            },
        };
        let short = match self.short {
            Some(value) => value,
            None => None,
        };
        let long = match &self.long {
            Some(value) => clone_optional(value),
            None => None,
        };
        let help = match &self.help {
            Some(value) => clone_optional(value),
            None => None,
        };
        let min_occurences = match self.min_occurences {
            Some(value) => value,
            None => 0,
        };
        let max_occurences = match self.max_occurences {
            Some(value) => value,
            None => None,
        };
        let validators = match &self.validators {
            Some(list) => copy_values_validators(list),
            None => Vec::new(),
        };
        Ok(
            MultiValueOptionDef {
                name,
                short,
                long,
                help,
                min_occurences,
                max_occurences,
                validators,
            },
        )
    }
}

impl Default for MultiValueOptionDefBuilder {
    fn default() -> (b: Self)
        ensures
            b == MultiValueOptionDefBuilder::unset(),
    {
        MultiValueOptionDefBuilder {
            name: None,
            short: None,
            long: None,
            help: None,
            min_occurences: None,
            max_occurences: None,
            validators: None,
        }
    }
}

} // verus!
