//! Positional arguments: schema entries that are matched by their place on
//! the command line, in declaration order.

use vstd::prelude::*;
use indexmap::IndexMap;
use crate::checks::{abides, asked_then, complaint_of, is_window_sound, or_else, window_sound};
use crate::entries::lookup;
use crate::flags::{clone_optional, settled, unset_error, unset_message};
use crate::maps::{list_entries, lists_get, text_entries, texts_get};
use crate::options::{check_multi_value, handed, multi_value_asks, multi_value_complaint};
use crate::text::push_text;
use crate::validators::{
    check_value, copy_value_validators, copy_values_validators, MultiValueValidator,
    ValueValidator,
};

verus! {

/// A positional argument that takes one value.
pub struct SingleValueArgumentDef {
    pub name: String,
    pub help: Option<String>,
    pub required: bool,
    pub validators: Vec<ValueValidator>,
}

/// A positional argument whose values pile up in order; their number is held
/// against the window `[min_occurences, max_occurences]`.
pub struct MultiValueArgumentDef {
    pub name: String,
    pub help: Option<String>,
    pub validators: Vec<MultiValueValidator>,
    pub min_occurences: u64,
    pub max_occurences: Option<u64>,
}

/// A positional argument of either shape.
pub enum ArgumentDef {
    SingleValue(SingleValueArgumentDef),
    MultiValue(MultiValueArgumentDef),
}

/// The positional arguments of a schema, in declaration order.
#[derive(Default)]
pub struct ArgumentDefs(pub Vec<ArgumentDef>);

impl SingleValueArgumentDef {
    /// Two definitions with the same settings and the same validators in
    /// the same order.
    pub open spec fn alike(&self, other: SingleValueArgumentDef) -> bool {
        &&& self.name == other.name
        &&& self.help == other.help
        &&& self.required == other.required
        &&& self.validators@ == other.validators@
    }
}

impl Clone for SingleValueArgumentDef {
    /// A copy with the same settings and the same validators.
    fn clone(&self) -> (r: Self)
        ensures
            self.alike(r),
    {
        SingleValueArgumentDef {
            name: self.name.clone(),
            help: clone_optional(&self.help),
            required: self.required,
            validators: copy_value_validators(&self.validators),
        }
    }
}

impl MultiValueArgumentDef {
    /// Two definitions with the same settings and the same validators in
    /// the same order.
    pub open spec fn alike(&self, other: MultiValueArgumentDef) -> bool {
        &&& self.name == other.name
        &&& self.help == other.help
        &&& self.min_occurences == other.min_occurences
        &&& self.max_occurences == other.max_occurences
        &&& self.validators@ == other.validators@
    }
}

impl Clone for MultiValueArgumentDef {
    /// A copy with the same settings and the same validators.
    fn clone(&self) -> (r: Self)
        ensures
            self.alike(r),
    {
        MultiValueArgumentDef {
            name: self.name.clone(),
            help: clone_optional(&self.help),
            validators: copy_values_validators(&self.validators),
            min_occurences: self.min_occurences,
            max_occurences: self.max_occurences,
        }
    }
}

impl ArgumentDef {
    /// Two definitions of the same shape with the same settings and the
    /// same validators in the same order.
    pub open spec fn alike(&self, other: ArgumentDef) -> bool {
        match (*self, other) {
            (ArgumentDef::SingleValue(a), ArgumentDef::SingleValue(b)) => a.alike(b),
            (ArgumentDef::MultiValue(a), ArgumentDef::MultiValue(b)) => a.alike(b),
            _ => false,
        }
    }
}

impl Clone for ArgumentDef {
    /// A copy of the same shape with the same settings and the same
    /// validators.
    fn clone(&self) -> (r: Self)
        ensures
            self.alike(r),
    {
        match self {
            ArgumentDef::SingleValue(a) => ArgumentDef::SingleValue(a.clone()),
            ArgumentDef::MultiValue(a) => ArgumentDef::MultiValue(a.clone()),
        }
    }
}

/// Two lists of definitions that are alike one by one.
pub open spec fn arguments_alike(a: Seq<ArgumentDef>, b: Seq<ArgumentDef>) -> bool {
    &&& a.len() == b.len()
    &&& forall|i: int| 0 <= i < a.len() ==> (#[trigger] a[i]).alike(b[i])
}

/// A copy of a list of definitions: alike one by one.
pub fn copy_arguments(list: &Vec<ArgumentDef>) -> (r: Vec<ArgumentDef>)
    ensures
        arguments_alike(list@, r@),
{
    let mut copy: Vec<ArgumentDef> = Vec::new();
    let mut i: usize = 0;
    while i < list.len()
        invariant
            i <= list.len(),
            arguments_alike(list@.take(i as int), copy@),
        decreases list.len() - i,
    {
        let ghost before = copy@;
        copy.push(list[i].clone());
        i = i + 1;
        assert forall|k: int| 0 <= k < i implies (#[trigger] list@.take(i as int)[k]).alike(
            copy@[k],
        ) by {
            if k < i - 1 {
                assert(list@.take(i - 1)[k].alike(before[k]));
            }
        }
    }
    assert(list@.take(list.len() as int) =~= list@);
    copy
}

impl Clone for ArgumentDefs {
    /// A copy with the same arguments in the same order.
    fn clone(&self) -> (r: Self)
        ensures
            arguments_alike(self.0@, r.0@),
    {
        ArgumentDefs(copy_arguments(&self.0))
    }
}

/// Lists of arguments that are alike keep the same rules: both are
/// distinct or neither is, and both are sound or neither is.
pub proof fn lemma_alike_arguments_keep_rules(a: ArgumentDefs, b: ArgumentDefs)
    requires
        arguments_alike(a.0@, b.0@),
    ensures
        a.distinct() == b.distinct(),
        a.sound() == b.sound(),
{
    assert forall|i: int| 0 <= i < a.0@.len() implies (#[trigger] a.0@[i]).sound() == b.0@[i].sound()
        && a.0@[i].key() == b.0@[i].key() && a.0@[i].open_ended() == b.0@[i].open_ended() by {
        assert(a.0@[i].alike(b.0@[i]));
    }
    if a.distinct() {
        assert forall|i: int, j: int| 0 <= i < j < b.0@.len() implies (#[trigger] b.0@[i]).key() != (
        #[trigger] b.0@[j]).key() by {
            assert(a.0@[i].key() != a.0@[j].key());
        }
    }
    if b.distinct() {
        assert forall|i: int, j: int| 0 <= i < j < a.0@.len() implies (#[trigger] a.0@[i]).key() != (
        #[trigger] a.0@[j]).key() by {
            assert(b.0@[i].key() != b.0@[j].key());
        }
    }
    if a.sound() {
        assert forall|i: int| 0 <= i < b.0@.len() implies (#[trigger] b.0@[i]).sound() by {
            assert(a.0@[i].sound());
        }
        assert forall|i: int| 0 <= i < b.0@.len() - 1 implies !(#[trigger] b.0@[i]).open_ended() by {
            assert(!a.0@[i].open_ended());
        }
    }
    if b.sound() {
        assert forall|i: int| 0 <= i < a.0@.len() implies (#[trigger] a.0@[i]).sound() by {
            assert(b.0@[i].sound());
        }
        assert forall|i: int| 0 <= i < a.0@.len() - 1 implies !(#[trigger] a.0@[i]).open_ended() by {
            assert(!b.0@[i].open_ended());
        }
    }
}

/// The message for a required positional argument that is absent.
pub open spec fn missing_argument_message(name: Seq<char>) -> Seq<char> {
    "required positional argument: "@ + name + " is missing"@
}

impl SingleValueArgumentDef {
    /// This definition as an `ArgumentDef`.
    pub fn to_argument_def(self) -> (a: ArgumentDef)
        ensures
            a == ArgumentDef::SingleValue(self),
    {
        ArgumentDef::SingleValue(self)
    }

    /// The value that the validators of this argument are asked about: the
    /// one filed under its canonical name.
    pub open spec fn subject(&self, values: Seq<(Seq<char>, Seq<char>)>) -> Option<Seq<char>> {
        lookup(values, self.name@)
    }

    /// What this definition itself says against the single values seen: a
    /// required argument must be among them.
    pub open spec fn complaint(&self, values: Seq<(Seq<char>, Seq<char>)>) -> Option<Seq<char>> {
        if self.required && self.subject(values) is None {
            Some(missing_argument_message(self.name@))
        } else {
            None
        }
    }

    /// Whether a validator is asked: the argument was given and has one.
    pub open spec fn asks(&self, values: Seq<(Seq<char>, Seq<char>)>) -> bool {
        self.subject(values) is Some && self.validators@.len() > 0
    }

    /// The value filed under the canonical name of this argument.
    pub fn subject_in<'a>(&self, single_value_arguments: &'a IndexMap<String, String>) -> (r:
        Option<&'a String>)
        ensures
            match r {
                Some(value) => self.subject(text_entries(*single_value_arguments)) == Some(value@),
                None => self.subject(text_entries(*single_value_arguments)) is None,
            },
    {
        texts_get(single_value_arguments, self.name.as_str())
    }

    /// Holds the single values seen against this definition: a required
    /// argument that is absent is the verdict, and no validator is asked
    /// then; where the argument was given, its validators are asked about
    /// its value, in order, and the first message is the verdict.
    pub fn validate(&self, single_value_arguments: &IndexMap<String, String>) -> (r: Result<
        (),
        String,
    >)
        ensures
            abides(
                complaint_of(r),
                self.complaint(text_entries(*single_value_arguments)),
                self.asks(text_entries(*single_value_arguments)),
            ),
    {
        match self.subject_in(single_value_arguments) {
            Some(value) => check_value(&self.validators, value.as_str()),
            None => {
                if self.required {
                    let mut message = String::new();
                    push_text(&mut message, "required positional argument: ");
                    push_text(&mut message, self.name.as_str());
                    push_text(&mut message, " is missing");
                    assert(message@ =~= missing_argument_message(self.name@));
                    Err(message)
                } else {
                    Ok(())
                }
            },
        }
    }
}

impl MultiValueArgumentDef {
    /// This definition as an `ArgumentDef`.
    pub fn to_argument_def(self) -> (a: ArgumentDef)
        ensures
            a == ArgumentDef::MultiValue(self),
    {
        ArgumentDef::MultiValue(self)
    }

    /// The values that the validators of this argument are asked about:
    /// those filed under its canonical name.
    pub open spec fn subject(&self, lists: Seq<(Seq<char>, Seq<Seq<char>>)>) -> Option<
        Seq<Seq<char>>,
    > {
        lookup(lists, self.name@)
    }

    /// What this definition itself says against the value lists seen: the
    /// number of its values must lie in its window.
    pub open spec fn complaint(&self, lists: Seq<(Seq<char>, Seq<Seq<char>>)>) -> Option<
        Seq<char>,
    > {
        multi_value_complaint(
            "argument"@,
            self.name@,
            self.min_occurences,
            self.max_occurences,
            self.subject(lists),
        )
    }

    /// Whether a validator is asked: the count lies in the window, the
    /// argument was given and has a validator.
    pub open spec fn asks(&self, lists: Seq<(Seq<char>, Seq<Seq<char>>)>) -> bool {
        multi_value_asks(
            "argument"@,
            self.name@,
            self.min_occurences,
            self.max_occurences,
            self.validators@,
            self.subject(lists),
        )
    }

    /// The values filed under the canonical name of this argument.
    pub fn subject_in<'a>(&self, multi_value_arguments: &'a IndexMap<String, Vec<String>>) -> (r:
        Option<&'a Vec<String>>)
        ensures
            handed(r) == self.subject(list_entries(*multi_value_arguments)),
    {
        lists_get(multi_value_arguments, self.name.as_str())
    }

    /// Holds the value lists seen against this definition: a count outside
    /// the window is the verdict whatever the validators would say; within
    /// it, the first message of a validator is, and `Ok` where none is
    /// asked.
    pub fn validate(&self, multi_value_arguments: &IndexMap<String, Vec<String>>) -> (r: Result<
        (),
        String,
    >)
        ensures
            abides(
                complaint_of(r),
                self.complaint(list_entries(*multi_value_arguments)),
                self.asks(list_entries(*multi_value_arguments)),
            ),
    {
        check_multi_value(
            "argument",
            self.name.as_str(),
            self.min_occurences,
            self.max_occurences,
            &self.validators,
            self.subject_in(multi_value_arguments),
        )
    }
}

impl ArgumentDef {
    /// The canonical name.
    pub open spec fn key(&self) -> Seq<char> {
        match *self {
            ArgumentDef::SingleValue(a) => a.name@,
            ArgumentDef::MultiValue(a) => a.name@,
        }
    }

    /// What this definition itself says against the values seen.
    pub open spec fn complaint(
        &self,
        values: Seq<(Seq<char>, Seq<char>)>,
        lists: Seq<(Seq<char>, Seq<Seq<char>>)>,
    ) -> Option<Seq<char>> {
        match *self {
            ArgumentDef::SingleValue(a) => a.complaint(values),
            ArgumentDef::MultiValue(a) => a.complaint(lists),
        }
    }

    /// Whether a validator of this definition is asked.
    pub open spec fn asks(
        &self,
        values: Seq<(Seq<char>, Seq<char>)>,
        lists: Seq<(Seq<char>, Seq<Seq<char>>)>,
    ) -> bool {
        match *self {
            ArgumentDef::SingleValue(a) => a.asks(values),
            ArgumentDef::MultiValue(a) => a.asks(lists),
        }
    }

    /// A builder for a single-value argument with the name set.
    pub fn new_single_value(name: String) -> (b: SingleValueArgumentDefBuilder)
        ensures
            b == (SingleValueArgumentDefBuilder {
                name: Some(name),
                ..SingleValueArgumentDefBuilder::unset()
            }),
    {
        SingleValueArgumentDefBuilder::new(name)
    }

    /// A builder for a multi-value argument with the name set.
    pub fn new_multi_value(name: String) -> (b: MultiValueArgumentDefBuilder)
        ensures
            b == (MultiValueArgumentDefBuilder {
                name: Some(name),
                ..MultiValueArgumentDefBuilder::unset()
            }),
    {
        MultiValueArgumentDefBuilder::new(name)
    }

    /// Holds the values seen against this definition.
    pub fn validate(
        &self,
        single_value_arguments: &IndexMap<String, String>,
        multi_value_arguments: &IndexMap<String, Vec<String>>,
    ) -> (r: Result<(), String>)
        ensures
            abides(
                complaint_of(r),
                self.complaint(
                    text_entries(*single_value_arguments),
                    list_entries(*multi_value_arguments),
                ),
                self.asks(
                    text_entries(*single_value_arguments),
                    list_entries(*multi_value_arguments),
                ),
            ),
    {
        match self {
            ArgumentDef::SingleValue(a) => a.validate(single_value_arguments),
            ArgumentDef::MultiValue(a) => a.validate(multi_value_arguments),
        }
    }
}

impl From<SingleValueArgumentDef> for ArgumentDef {
    fn from(item: SingleValueArgumentDef) -> (r: Self) {
        ArgumentDef::SingleValue(item)
    }
}

impl vstd::std_specs::convert::FromSpecImpl<SingleValueArgumentDef> for ArgumentDef {
    open spec fn obeys_from_spec() -> bool {
        true
    }

    open spec fn from_spec(v: SingleValueArgumentDef) -> Self {
        ArgumentDef::SingleValue(v)
    }
}

impl From<MultiValueArgumentDef> for ArgumentDef {
    fn from(item: MultiValueArgumentDef) -> (r: Self) {
        ArgumentDef::MultiValue(item)
    }
}

impl vstd::std_specs::convert::FromSpecImpl<MultiValueArgumentDef> for ArgumentDef {
    open spec fn obeys_from_spec() -> bool {
        true
    }

    open spec fn from_spec(v: MultiValueArgumentDef) -> Self {
        ArgumentDef::MultiValue(v)
    }
}

/// What the first definition of `defs` with a complaint of its own says
/// against the values seen.
pub open spec fn first_argument_complaint(
    defs: Seq<ArgumentDef>,
    values: Seq<(Seq<char>, Seq<char>)>,
    lists: Seq<(Seq<char>, Seq<Seq<char>>)>,
) -> Option<Seq<char>>
    decreases defs.len(),
{
    if defs.len() == 0 {
        None
    } else {
        or_else(
            defs[0].complaint(values, lists),
            first_argument_complaint(defs.skip(1), values, lists),
        )
    }
}

/// Whether a validator of `defs` is asked before a definition has a
/// complaint of its own.
pub open spec fn arguments_ask(
    defs: Seq<ArgumentDef>,
    values: Seq<(Seq<char>, Seq<char>)>,
    lists: Seq<(Seq<char>, Seq<Seq<char>>)>,
) -> bool
    decreases defs.len(),
{
    if defs.len() == 0 {
        false
    } else {
        asked_then(
            defs[0].asks(values, lists),
            defs[0].complaint(values, lists),
            arguments_ask(defs.skip(1), values, lists),
        )
    }
}

/// Whether no definition of `defs` has a validator.
pub open spec fn arguments_unguarded(defs: Seq<ArgumentDef>) -> bool {
    forall|i: int|
        0 <= i < defs.len() ==> match #[trigger] defs[i] {
            ArgumentDef::SingleValue(a) => a.validators@.len() == 0,
            ArgumentDef::MultiValue(a) => a.validators@.len() == 0,
        }
}

/// Definitions without validators ask none.
pub proof fn lemma_unguarded_arguments_ask_nothing(
    defs: Seq<ArgumentDef>,
    values: Seq<(Seq<char>, Seq<char>)>,
    lists: Seq<(Seq<char>, Seq<Seq<char>>)>,
)
    requires
        arguments_unguarded(defs),
    ensures
        !arguments_ask(defs, values, lists),
    decreases defs.len(),
{
    if defs.len() > 0 {
        assert(defs[0] == defs[0]);
        assert forall|i: int|
            0 <= i < defs.skip(1).len() implies match #[trigger] defs.skip(1)[i] {
            ArgumentDef::SingleValue(a) => a.validators@.len() == 0,
            ArgumentDef::MultiValue(a) => a.validators@.len() == 0,
        } by {
            assert(defs.skip(1)[i] == defs[i + 1]);
        }
        lemma_unguarded_arguments_ask_nothing(defs.skip(1), values, lists);
    }
}

impl ArgumentDef {
    /// A multi-value argument has a window that is neither crossed nor
    /// exactly zero. Nothing is asked of a single-value argument.
    pub open spec fn sound(&self) -> bool {
        match *self {
            ArgumentDef::SingleValue(_) => true,
            ArgumentDef::MultiValue(a) => window_sound(a.min_occurences, a.max_occurences),
        }
    }

    /// The argument takes values without an upper bound.
    pub open spec fn open_ended(&self) -> bool {
        self matches ArgumentDef::MultiValue(a) && a.max_occurences is None
    }

    /// Whether the definition is sound.
    pub fn is_sound(&self) -> (r: bool)
        ensures
            r == self.sound(),
    {
        match self {
            ArgumentDef::SingleValue(_) => true,
            ArgumentDef::MultiValue(a) => is_window_sound(a.min_occurences, a.max_occurences),
        }
    }

    /// Whether the argument takes values without an upper bound.
    pub fn is_open_ended(&self) -> (r: bool)
        ensures
            r == self.open_ended(),
    {
        match self {
            ArgumentDef::SingleValue(_) => false,
            ArgumentDef::MultiValue(a) => a.max_occurences.is_none(),
        }
    }
}

impl ArgumentDefs {
    /// Every positional argument is sound, and none but the last takes
    /// values without an upper bound.
    pub open spec fn sound(&self) -> bool {
        &&& forall|i: int| 0 <= i < self.0@.len() ==> (#[trigger] self.0@[i]).sound()
        &&& forall|i: int| 0 <= i < self.0@.len() - 1 ==> !(#[trigger] self.0@[i]).open_ended()
    }

    /// Whether every positional argument is sound and none but the last
    /// takes values without an upper bound.
    pub fn is_sound(&self) -> (r: bool)
        ensures
            r == self.sound(),
    {
        let count = self.0.len();
        let mut i: usize = 0;
        while i < count
            invariant
                i <= count,
                count == self.0@.len(),
                forall|k: int| 0 <= k < i ==> (#[trigger] self.0@[k]).sound(),
                forall|k: int| 0 <= k < i && k < count - 1 ==> !(#[trigger] self.0@[k]).open_ended(),
            decreases count - i,
        {
            if !self.0[i].is_sound() {
                assert(!self.0@[i as int].sound());
                return false;
            }
            if i + 1 < count && self.0[i].is_open_ended() {
                assert(self.0@[i as int].open_ended());
                return false;
            }
            i = i + 1;
        }
        true
    }

    /// No two positional arguments share a name.
    pub open spec fn distinct(&self) -> bool {
        forall|i: int, j: int|
            0 <= i < j < self.0@.len() ==> (#[trigger] self.0@[i]).key() != (
            #[trigger] self.0@[j]).key()
    }

    /// Whether no two positional arguments share a name.
    pub fn is_distinct(&self) -> (r: bool)
        ensures
            r == self.distinct(),
    {
        let mut j: usize = 0;
        while j < self.0.len()
            invariant
                j <= self.0.len(),
                forall|a: int, b: int|
                    0 <= a < b < j ==> (#[trigger] self.0@[a]).key() != (
                    #[trigger] self.0@[b]).key(),
            decreases self.0.len() - j,
        {
            let mut i: usize = 0;
            let later = match &self.0[j] {
                ArgumentDef::SingleValue(d) => &d.name,
                ArgumentDef::MultiValue(d) => &d.name,
            };
            while i < j
                invariant
                    i <= j,
                    j < self.0.len(),
                    later@ == self.0@[j as int].key(),
                    forall|a: int|
                        0 <= a < i ==> (#[trigger] self.0@[a]).key() != self.0@[j as int].key(),
                decreases j - i,
            {
                let earlier = match &self.0[i] {
                    ArgumentDef::SingleValue(d) => &d.name,
                    ArgumentDef::MultiValue(d) => &d.name,
                };
                if *earlier == *later {
                    assert(self.0@[i as int].key() == self.0@[j as int].key());
                    return false;
                }
                i = i + 1;
            }
            j = j + 1;
        }
        true
    }

    /// What the first argument with a complaint of its own says against the
    /// values seen.
    pub open spec fn complaint(
        &self,
        values: Seq<(Seq<char>, Seq<char>)>,
        lists: Seq<(Seq<char>, Seq<Seq<char>>)>,
    ) -> Option<Seq<char>> {
        first_argument_complaint(self.0@, values, lists)
    }

    /// Whether a validator of an argument is asked before an argument has a
    /// complaint of its own.
    pub open spec fn asks(
        &self,
        values: Seq<(Seq<char>, Seq<char>)>,
        lists: Seq<(Seq<char>, Seq<Seq<char>>)>,
    ) -> bool {
        arguments_ask(self.0@, values, lists)
    }

    /// Holds the values seen against every argument, in declaration order,
    /// and stops at the first message, be it of the library's own or of a
    /// validator.
    pub fn validate(
        &self,
        single_value_arguments: &IndexMap<String, String>,
        multi_value_arguments: &IndexMap<String, Vec<String>>,
    ) -> (r: Result<(), String>)
        ensures
            abides(
                complaint_of(r),
                self.complaint(
                    text_entries(*single_value_arguments),
                    list_entries(*multi_value_arguments),
                ),
                self.asks(
                    text_entries(*single_value_arguments),
                    list_entries(*multi_value_arguments),
                ),
            ),
    {
        let ghost values = text_entries(*single_value_arguments);
        let ghost lists = list_entries(*multi_value_arguments);
        let ghost mut seen = false;
        let mut i: usize = 0;
        assert(self.0@.skip(0) =~= self.0@);
        while i < self.0.len()
            invariant
                i <= self.0.len(),
                values == text_entries(*single_value_arguments),
                lists == list_entries(*multi_value_arguments),
                first_argument_complaint(self.0@, values, lists) == first_argument_complaint(
                    self.0@.skip(i as int),
                    values,
                    lists,
                ),
                arguments_ask(self.0@, values, lists) == (seen || arguments_ask(
                    self.0@.skip(i as int),
                    values,
                    lists,
                )),
            decreases self.0.len() - i,
        {
            let r = self.0[i].validate(single_value_arguments, multi_value_arguments);
            proof {
                let rest = self.0@.skip(i as int);
                assert(rest[0] == self.0@[i as int]);
                assert(rest.skip(1) =~= self.0@.skip(i + 1));
            }
            match r {
                Err(message) => {
                    return Err(message);
                },
                Ok(_) => {},
            }
            proof {
                seen = seen || self.0@[i as int].asks(values, lists);
            }
            i = i + 1;
        }
        Ok(())
    }
}

/// Collects the settings of a `SingleValueArgumentDef`.
#[derive(Clone)]
pub struct SingleValueArgumentDefBuilder {
    pub name: Option<String>,
    pub help: Option<Option<String>>,
    pub required: Option<bool>,
    pub validators: Option<Vec<ValueValidator>>,
}

impl SingleValueArgumentDefBuilder {
    /// A builder with nothing set.
    pub open spec fn unset() -> SingleValueArgumentDefBuilder {
        SingleValueArgumentDefBuilder { name: None, help: None, required: None, validators: None }
    }

    /// A builder with the name set.
    pub fn new(name: String) -> (b: SingleValueArgumentDefBuilder)
        ensures
            b == (SingleValueArgumentDefBuilder {
                name: Some(name),
                ..SingleValueArgumentDefBuilder::unset()
            }),
    {
        SingleValueArgumentDefBuilder {
            name: Some(name),
            help: None,
            required: None,
            validators: None,
        }
    }

    /// Sets the canonical name.
    pub fn name(&mut self, value: String) -> (r: &mut Self)
        ensures
            *r == (SingleValueArgumentDefBuilder { name: Some(value), ..*old(self) }),
            *final(self) == *final(r),
    {
        self.name = Some(value);
        self
    }

    /// Sets the help text.
    pub fn help(&mut self, value: Option<String>) -> (r: &mut Self)
        ensures
            *r == (SingleValueArgumentDefBuilder { help: Some(value), ..*old(self) }),
            *final(self) == *final(r),
    {
        self.help = Some(value);
        self
    }

    /// Sets whether the argument must be given.
    pub fn required(&mut self, value: bool) -> (r: &mut Self)
        ensures
            *r == (SingleValueArgumentDefBuilder { required: Some(value), ..*old(self) }),
            *final(self) == *final(r),
    {
        self.required = Some(value);
        self
    }

    /// Sets the validators.
    pub fn validators(&mut self, value: Vec<ValueValidator>) -> (r: &mut Self)
        ensures
            *r == (SingleValueArgumentDefBuilder { validators: Some(value), ..*old(self) }),
            *final(self) == *final(r),
    {
        self.validators = Some(value);
        self
    }

    /// `def` is what the settings describe, once a name is set: unset help
    /// is absent, the argument is optional and has no validators unless set
    /// otherwise.
    pub open spec fn yields(&self, def: SingleValueArgumentDef) -> bool {
        &&& self.name == Some(def.name)
        &&& def.help == settled(self.help)
        &&& def.required == (match self.required {
            Some(value) => value,
            None => false,
        })
        &&& def.validators@ == (match self.validators {
            Some(list) => list@,
            None => Seq::empty(),
        })
    }

    /// The definition, or the error that the name was never set.
    pub fn build(&self) -> (r: Result<SingleValueArgumentDef, String>)
        ensures
            match r {
                Ok(def) => self.yields(def),
                Err(message) => self.name is None && message@ == unset_message("name"@),
            },
    {
        let name = match &self.name {
            Some(value) => value.clone(),
            None => {
                return Err(unset_error("name"));
            },
        };
        let help = match &self.help {
            Some(value) => clone_optional(value),
            None => None,
        };
        let required = match self.required {
            Some(value) => value,
            None => false,
        };
        let validators = match &self.validators {
            Some(list) => copy_value_validators(list),
            None => Vec::new(),
        };
        Ok(SingleValueArgumentDef { name, help, required, validators })
    }
}

impl Default for SingleValueArgumentDefBuilder {
    fn default() -> (b: Self)
        ensures
            b == SingleValueArgumentDefBuilder::unset(),
    {
        SingleValueArgumentDefBuilder { name: None, help: None, required: None, validators: None }
    }
}

/// Collects the settings of a `MultiValueArgumentDef`.
#[derive(Clone)]
pub struct MultiValueArgumentDefBuilder {
    pub name: Option<String>,
    pub help: Option<Option<String>>,
    pub validators: Option<Vec<MultiValueValidator>>,
    pub min_occurences: Option<u64>,
    pub max_occurences: Option<Option<u64>>,
}

impl MultiValueArgumentDefBuilder {
    /// A builder with nothing set.
    pub open spec fn unset() -> MultiValueArgumentDefBuilder {
        MultiValueArgumentDefBuilder {
            name: None,
            help: None,
            validators: None,
            min_occurences: None,
            max_occurences: None,
        }
    }

    /// A builder with the name set.
    pub fn new(name: String) -> (b: MultiValueArgumentDefBuilder)
        ensures
            b == (MultiValueArgumentDefBuilder {
                name: Some(name),
                ..MultiValueArgumentDefBuilder::unset()
            }),
    {
        MultiValueArgumentDefBuilder {
            name: Some(name),
            help: None,
            validators: None,
            min_occurences: None,
            max_occurences: None,
        }
    }

    /// Sets the canonical name.
    pub fn name(&mut self, value: String) -> (r: &mut Self)
        ensures
            *r == (MultiValueArgumentDefBuilder { name: Some(value), ..*old(self) }),
            *final(self) == *final(r),
    {
        self.name = Some(value);
        self
    }

    /// Sets the help text.
    pub fn help(&mut self, value: Option<String>) -> (r: &mut Self)
        ensures
            *r == (MultiValueArgumentDefBuilder { help: Some(value), ..*old(self) }),
            *final(self) == *final(r),
    {
        self.help = Some(value);
        self
    }

    /// Sets the validators.
    pub fn validators(&mut self, value: Vec<MultiValueValidator>) -> (r: &mut Self)
        ensures
            *r == (MultiValueArgumentDefBuilder { validators: Some(value), ..*old(self) }),
            *final(self) == *final(r),
    {
        self.validators = Some(value);
        self
    }

    /// Sets the least number of values.
    pub fn min_occurences(&mut self, value: u64) -> (r: &mut Self)
        ensures
            *r == (MultiValueArgumentDefBuilder { min_occurences: Some(value), ..*old(self) }),
            *final(self) == *final(r),
    {
        self.min_occurences = Some(value);
        self
    }

    /// Sets the greatest number of values; `None` leaves it open.
    pub fn max_occurences(&mut self, value: Option<u64>) -> (r: &mut Self)
        ensures
            *r == (MultiValueArgumentDefBuilder { max_occurences: Some(value), ..*old(self) }),
            *final(self) == *final(r),
    {
        self.max_occurences = Some(value);
        self
    }

    /// `def` is what the settings describe, once a name is set: unset help
    /// is absent, there are no validators, the lower bound is 1 and the
    /// upper bound open unless set otherwise.
    pub open spec fn yields(&self, def: MultiValueArgumentDef) -> bool {
        &&& self.name == Some(def.name)
        &&& def.help == settled(self.help)
        &&& def.validators@ == (match self.validators {
            Some(list) => list@,
            None => Seq::empty(),
        })
        &&& def.min_occurences == (match self.min_occurences {
            Some(value) => value,
            None => 1,
        })
        &&& def.max_occurences == settled(self.max_occurences)
    }

    /// The definition, or the error that the name was never set.
    pub fn build(&self) -> (r: Result<MultiValueArgumentDef, String>)
        ensures
            match r {
                Ok(def) => self.yields(def),
                Err(message) => self.name is None && message@ == unset_message("name"@),
            },
    {
        let name = match &self.name {
            Some(value) => value.clone(),
            None => {
                return Err(unset_error("name"));
            },
        };
        let help = match &self.help {
            Some(value) => clone_optional(value),
            None => None,
        };
        let validators = match &self.validators {
            Some(list) => copy_values_validators(list),
            None => Vec::new(),
        };
        let min_occurences = match self.min_occurences {
            Some(value) => value,
            None => 1,
        };
        let max_occurences = match self.max_occurences {
            Some(value) => value,
            None => None,
        };
        Ok(MultiValueArgumentDef { name, help, validators, min_occurences, max_occurences })
    }
}

impl Default for MultiValueArgumentDefBuilder {
    fn default() -> (b: Self)
        ensures
            b == MultiValueArgumentDefBuilder::unset(),
    {
        MultiValueArgumentDefBuilder {
            name: None,
            help: None,
            validators: None,
            min_occurences: None,
            max_occurences: None,
        }
    }
}

} // verus!
