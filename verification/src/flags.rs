//! Flags: schema entries without a value, told by their presence (boolean)
//! or by how often they are repeated (counted).

use vstd::prelude::*;
use indexmap::IndexMap;
use crate::checks::{
    check_window, complaint_of, is_window_sound, window_complaint, window_sound,
};
use crate::entries::{has_key, lemma_first_is, lemma_first_none, lookup};
use crate::maps::{count_entries, counts_get, flag_entries, flags_get};
use crate::text::{optional_text, push_text};

verus! {

/// A flag that is present or absent.
#[derive(Clone)]
pub struct BooleanFlagDef {
    pub name: String,
    pub short: Option<char>,
    pub long: Option<String>,
    pub help: Option<String>,
    pub required: bool,
}

/// A flag that may be repeated; its occurrences are counted and held against
/// the window `[min_occurences, max_occurences]`.
#[derive(Clone)]
pub struct CountedFlagDef {
    pub name: String,
    pub short: Option<char>,
    pub long: Option<String>,
    pub help: Option<String>,
    pub min_occurences: u64,
    pub max_occurences: Option<u64>,
}

/// A flag of either shape.
pub enum FlagDef {
    BooleanFlagDef(BooleanFlagDef),
    CountedFlagDef(CountedFlagDef),
}

/// The flags of a schema, in declaration order.
#[derive(Default)]
pub struct FlagDefs(pub Vec<FlagDef>);

impl Clone for FlagDef {
    /// A copy with the same settings.
    fn clone(&self) -> (r: Self)
        ensures
            r == *self,
    {
        match self {
            FlagDef::BooleanFlagDef(f) => FlagDef::BooleanFlagDef(
                BooleanFlagDef {
                    name: f.name.clone(),
                    short: f.short,
                    long: clone_optional(&f.long),
                    help: clone_optional(&f.help),
                    required: f.required,
                },
            ),
            FlagDef::CountedFlagDef(f) => FlagDef::CountedFlagDef(
                CountedFlagDef {
                    name: f.name.clone(),
                    short: f.short,
                    long: clone_optional(&f.long),
                    help: clone_optional(&f.help),
                    min_occurences: f.min_occurences,
                    max_occurences: f.max_occurences,
                },
            ),
        }
    }
}

/// A copy of a list of flags: the same flags in the same order.
pub fn copy_flags(list: &Vec<FlagDef>) -> (r: Vec<FlagDef>)
    ensures
        r@ == list@,
{
    let mut copy: Vec<FlagDef> = Vec::new();
    let mut i: usize = 0;
    while i < list.len()
        invariant
            i <= list.len(),
            copy@ == list@.take(i as int),
        decreases list.len() - i,
    {
        copy.push(list[i].clone());
        i = i + 1;
        assert(copy@ =~= list@.take(i as int));
    }
    assert(list@.take(list.len() as int) =~= list@);
    copy
}

impl Clone for FlagDefs {
    /// A copy with the same flags in the same order.
    fn clone(&self) -> (r: Self)
        ensures
            r.0@ == self.0@,
    {
        FlagDefs(copy_flags(&self.0))
    }
}

/// The message for a required flag that is absent.
pub open spec fn missing_flag_message(name: Seq<char>) -> Seq<char> {
    "flag "@ + name + " is required"@
}

impl BooleanFlagDef {
    /// This definition as a `FlagDef`.
    pub fn to_flag_def(self) -> (f: FlagDef)
        ensures
            f == FlagDef::BooleanFlagDef(self),
    {
        FlagDef::BooleanFlagDef(self)
    }

    /// What this definition says against the flags seen: a required flag
    /// must be among them.
    pub open spec fn complaint(&self, flags: Seq<(Seq<char>, bool)>) -> Option<Seq<char>> {
        if self.required && !has_key(flags, self.name@) {
            Some(missing_flag_message(self.name@))
        } else {
            None
        }
    }

    /// Holds the flags seen against this definition.
    pub fn validate(&self, boolean_flags: &IndexMap<String, bool>) -> (r: Result<(), String>)
        ensures
            complaint_of(r) == self.complaint(flag_entries(*boolean_flags)),
    {
        if self.required && flags_get(boolean_flags, self.name.as_str()).is_none() {
            let mut message = String::new();
            push_text(&mut message, "flag ");
            push_text(&mut message, self.name.as_str());
            push_text(&mut message, " is required");
            assert(message@ =~= missing_flag_message(self.name@));
            return Err(message);
        }
        Ok(())
    }
}

impl CountedFlagDef {
    /// This definition as a `FlagDef`.
    pub fn to_flag_def(self) -> (f: FlagDef)
        ensures
            f == FlagDef::CountedFlagDef(self),
    {
        FlagDef::CountedFlagDef(self)
    }

    /// How often the flag was seen: its count, or 0 where it has none.
    pub open spec fn seen(&self, counts: Seq<(Seq<char>, u64)>) -> u64 {
        match lookup(counts, self.name@) {
            Some(n) => n,
            None => 0,
        }
    }

    /// What this definition says against the counts: the flag's count must
    /// lie in its window.
    pub open spec fn complaint(&self, counts: Seq<(Seq<char>, u64)>) -> Option<Seq<char>> {
        window_complaint(
            "flag"@,
            self.name@,
            self.min_occurences,
            self.max_occurences,
            self.seen(counts),
        )
    }

    /// Holds the counts against this definition.
    pub fn validate(&self, counted_flags: &IndexMap<String, u64>) -> (r: Result<(), String>)
        ensures
            complaint_of(r) == self.complaint(count_entries(*counted_flags)),
    {
        let seen = match counts_get(counted_flags, self.name.as_str()) {
            Some(n) => n,
            None => 0,
        };
        check_window("flag", self.name.as_str(), self.min_occurences, self.max_occurences, seen)
    }
}

impl FlagDef {
    /// The canonical name.
    pub open spec fn key(&self) -> Seq<char> {
        match *self {
            FlagDef::BooleanFlagDef(b) => b.name@,
            FlagDef::CountedFlagDef(c) => c.name@,
        }
    }

    /// The one-letter alias, if there is one.
    pub open spec fn short_alias(&self) -> Option<char> {
        match *self {
            FlagDef::BooleanFlagDef(b) => b.short,
            FlagDef::CountedFlagDef(c) => c.short,
        }
    }

    /// The long alias, if there is one.
    pub open spec fn long_alias(&self) -> Option<Seq<char>> {
        match *self {
            FlagDef::BooleanFlagDef(b) => optional_text(b.long),
            FlagDef::CountedFlagDef(c) => optional_text(c.long),
        }
    }

    /// What this definition says against the flags and counts seen.
    pub open spec fn complaint(
        &self,
        flags: Seq<(Seq<char>, bool)>,
        counts: Seq<(Seq<char>, u64)>,
    ) -> Option<Seq<char>> {
        match *self {
            FlagDef::BooleanFlagDef(b) => b.complaint(flags),
            FlagDef::CountedFlagDef(c) => c.complaint(counts),
        }
    }

    /// Holds the flags and counts seen against this definition.
    pub fn validate(
        &self,
        boolean_flags: &IndexMap<String, bool>,
        counted_flags: &IndexMap<String, u64>,
    ) -> (r: Result<(), String>)
        ensures
            complaint_of(r) == self.complaint(
                flag_entries(*boolean_flags),
                count_entries(*counted_flags),
            ),
    {
        match self {
            FlagDef::BooleanFlagDef(b) => b.validate(boolean_flags),
            FlagDef::CountedFlagDef(c) => c.validate(counted_flags),
        }
    }
}

impl From<BooleanFlagDef> for FlagDef {
    fn from(item: BooleanFlagDef) -> (r: Self) {
        FlagDef::BooleanFlagDef(item)
    }
}

impl vstd::std_specs::convert::FromSpecImpl<BooleanFlagDef> for FlagDef {
    open spec fn obeys_from_spec() -> bool {
        true
    }

    open spec fn from_spec(v: BooleanFlagDef) -> Self {
        FlagDef::BooleanFlagDef(v)
    }
}

impl From<CountedFlagDef> for FlagDef {
    fn from(item: CountedFlagDef) -> (r: Self) {
        FlagDef::CountedFlagDef(item)
    }
}

impl vstd::std_specs::convert::FromSpecImpl<CountedFlagDef> for FlagDef {
    open spec fn obeys_from_spec() -> bool {
        true
    }

    open spec fn from_spec(v: CountedFlagDef) -> Self {
        FlagDef::CountedFlagDef(v)
    }
}

/// What the first dissatisfied definition of `defs` says against the flags
/// and counts seen.
pub open spec fn first_flag_complaint(
    defs: Seq<FlagDef>,
    flags: Seq<(Seq<char>, bool)>,
    counts: Seq<(Seq<char>, u64)>,
) -> Option<Seq<char>>
    decreases defs.len(),
{
    if defs.len() == 0 {
        None
    } else if defs[0].complaint(flags, counts) is Some {
        defs[0].complaint(flags, counts)
    } else {
        first_flag_complaint(defs.skip(1), flags, counts)
    }
}

/// Two flags cannot be told apart: they share the name, a one-letter alias
/// or a long alias.
pub open spec fn flags_clash(a: FlagDef, b: FlagDef) -> bool {
    ||| a.key() == b.key()
    ||| (a.short_alias() is Some && a.short_alias() == b.short_alias())
    ||| (a.long_alias() is Some && a.long_alias() == b.long_alias())
}

/// Whether two flags share the name, a one-letter alias or a long alias.
pub(crate) fn flags_do_clash(a: &FlagDef, b: &FlagDef) -> (r: bool)
    ensures
        r == flags_clash(*a, *b),
{
    let (a_name, a_short, a_long) = match a {
        FlagDef::BooleanFlagDef(d) => (&d.name, d.short, &d.long),
        FlagDef::CountedFlagDef(d) => (&d.name, d.short, &d.long),
    };
    let (b_name, b_short, b_long) = match b {
        FlagDef::BooleanFlagDef(d) => (&d.name, d.short, &d.long),
        FlagDef::CountedFlagDef(d) => (&d.name, d.short, &d.long),
    };
    same_ids(a_name, a_short, a_long, b_name, b_short, b_long)
}

/// Whether two entries share the name, a one-letter alias or a long alias.
pub(crate) fn same_ids(
    a_name: &String,
    a_short: Option<char>,
    a_long: &Option<String>,
    b_name: &String,
    b_short: Option<char>,
    b_long: &Option<String>,
) -> (r: bool)
    ensures
        r == {
            ||| a_name@ == b_name@
            ||| (a_short is Some && a_short == b_short)
            ||| (optional_text(*a_long) is Some && optional_text(*a_long) == optional_text(
                *b_long,
            ))
        },
{
    if *a_name == *b_name {
        return true;
    }
    match (a_short, b_short) {
        (Some(x), Some(y)) => {
            if x == y {
                return true;
            }
        },
        _ => {},
    }
    match (a_long, b_long) {
        (Some(x), Some(y)) => *x == *y,
        _ => false,
    }
}

impl FlagDef {
    /// A counted flag has an alias and a window that is neither crossed nor
    /// exactly zero. Nothing is asked of a boolean flag.
    pub open spec fn sound(&self) -> bool {
        match *self {
            FlagDef::BooleanFlagDef(_) => true,
            FlagDef::CountedFlagDef(c) => {
                &&& c.short is Some || c.long is Some
                &&& window_sound(c.min_occurences, c.max_occurences)
            },
        }
    }

    /// Whether the definition is sound.
    pub fn is_sound(&self) -> (r: bool)
        ensures
            r == self.sound(),
    {
        match self {
            FlagDef::BooleanFlagDef(_) => true,
            FlagDef::CountedFlagDef(c) => (c.short.is_some() || c.long.is_some())
                && is_window_sound(c.min_occurences, c.max_occurences),
        }
    }
}

impl FlagDefs {
    /// Every flag is sound.
    pub open spec fn sound(&self) -> bool {
        forall|i: int| 0 <= i < self.0@.len() ==> (#[trigger] self.0@[i]).sound()
    }

    /// Whether every flag is sound.
    pub fn is_sound(&self) -> (r: bool)
        ensures
            r == self.sound(),
    {
        let mut i: usize = 0;
        while i < self.0.len()
            invariant
                i <= self.0.len(),
                forall|k: int| 0 <= k < i ==> (#[trigger] self.0@[k]).sound(),
            decreases self.0.len() - i,
        {
            if !self.0[i].is_sound() {
                assert(!self.0@[i as int].sound());
                return false;
            }
            i = i + 1;
        }
        true
    }

    /// In flags that differ from each other, a flag with the one-letter
    /// alias `ch` is the one that a search for `ch` finds.
    pub proof fn lemma_short_alias_names_one(&self, i: int, ch: char)
        requires
            self.distinct(),
            0 <= i < self.0@.len(),
            self.0@[i].short_alias() == Some(ch),
        ensures
            self.with_short(ch) == Some(self.0@[i]),
    {
        let aliases = self.short_aliases();
        aliases.index_of_first_ensures(Some(ch));
        assert(aliases[i] == Some(ch));
        let found = aliases.index_of_first(Some(ch))->0;
        assert(aliases[found] == self.0@[found].short_alias());
        if found != i {
            if found < i {
                assert(flags_clash(self.0@[found], self.0@[i]));
            } else {
                assert(flags_clash(self.0@[i], self.0@[found]));
            }
        }
    }

    /// In flags that differ from each other, a flag with the long alias
    /// `name` is the one that a search for `name` finds.
    pub proof fn lemma_long_alias_names_one(&self, i: int, name: Seq<char>)
        requires
            self.distinct(),
            0 <= i < self.0@.len(),
            self.0@[i].long_alias() == Some(name),
        ensures
            self.with_long(name) == Some(self.0@[i]),
    {
        let aliases = self.long_aliases();
        aliases.index_of_first_ensures(Some(name));
        assert(aliases[i] == Some(name));
        let found = aliases.index_of_first(Some(name))->0;
        assert(aliases[found] == self.0@[found].long_alias());
        if found != i {
            if found < i {
                assert(flags_clash(self.0@[found], self.0@[i]));
            } else {
                assert(flags_clash(self.0@[i], self.0@[found]));
            }
        }
    }

    /// No two flags share a name, a one-letter alias or a long alias.
    pub open spec fn distinct(&self) -> bool {
        forall|i: int, j: int|
            0 <= i < j < self.0@.len() ==> !flags_clash(#[trigger] self.0@[i], #[trigger] self.0@[j])
    }

    /// Whether no two flags share a name, a one-letter alias or a long
    /// alias.
    pub fn is_distinct(&self) -> (r: bool)
        ensures
            r == self.distinct(),
    {
        let mut j: usize = 0;
        while j < self.0.len()
            invariant
                j <= self.0.len(),
                forall|a: int, b: int|
                    0 <= a < b < j ==> !flags_clash(#[trigger] self.0@[a], #[trigger] self.0@[b]),
            decreases self.0.len() - j,
        {
            let mut i: usize = 0;
            while i < j
                invariant
                    i <= j,
                    j < self.0.len(),
                    forall|a: int|
                        0 <= a < i ==> !flags_clash(#[trigger] self.0@[a], self.0@[j as int]),
                decreases j - i,
            {
                if flags_do_clash(&self.0[i], &self.0[j]) {
                    assert(flags_clash(self.0@[i as int], self.0@[j as int]));
                    return false;
                }
                i = i + 1;
            }
            j = j + 1;
        }
        true
    }

    /// The one-letter aliases of the flags, in declaration order.
    pub open spec fn short_aliases(&self) -> Seq<Option<char>> {
        Seq::new(self.0@.len(), |i: int| self.0@[i].short_alias())
    }

    /// The long aliases of the flags, in declaration order.
    pub open spec fn long_aliases(&self) -> Seq<Option<Seq<char>>> {
        Seq::new(self.0@.len(), |i: int| self.0@[i].long_alias())
    }

    /// The first flag whose one-letter alias is `ch`.
    pub open spec fn with_short(&self, ch: char) -> Option<FlagDef> {
        match self.short_aliases().index_of_first(Some(ch)) {
            Some(i) => Some(self.0@[i]),
            None => None,
        }
    }

    /// The first flag whose long alias is `name`.
    pub open spec fn with_long(&self, name: Seq<char>) -> Option<FlagDef> {
        match self.long_aliases().index_of_first(Some(name)) {
            Some(i) => Some(self.0@[i]),
            None => None,
        }
    }

    /// What the first dissatisfied flag says against the flags and counts
    /// seen.
    pub open spec fn complaint(
        &self,
        flags: Seq<(Seq<char>, bool)>,
        counts: Seq<(Seq<char>, u64)>,
    ) -> Option<Seq<char>> {
        first_flag_complaint(self.0@, flags, counts)
    }

    /// Appends `flag_def` to the flags.
    pub fn add_flag(&mut self, flag_def: FlagDef) -> (r: &mut Self)
        ensures
            r.0@ == old(self).0@.push(flag_def),
            *final(self) == *final(r),
    {
        self.0.push(flag_def);
        self
    }

    /// The first flag whose one-letter alias is `ch`.
    pub fn by_short(&self, ch: &char) -> (r: Option<&FlagDef>)
        ensures
            match r {
                Some(f) => self.with_short(*ch) == Some(*f),
                None => self.with_short(*ch) is None,
            },
    {
        let ghost aliases = self.short_aliases();
        let mut i: usize = 0;
        while i < self.0.len()
            invariant
                i <= self.0.len(),
                aliases == self.short_aliases(),
                forall|j: int| 0 <= j < i ==> #[trigger] aliases[j] != Some(*ch),
            decreases self.0.len() - i,
        {
            let fd = &self.0[i];
            let short = match fd {
                FlagDef::BooleanFlagDef(b) => b.short,
                FlagDef::CountedFlagDef(c) => c.short,
            };
            assert(aliases[i as int] == short);
            let hit = match short {
                Some(v) => v == *ch,
                None => false,
            };
            if hit {
                proof {
                    lemma_first_is(aliases, Some(*ch), i as int);
                }
                return Some(fd);
            }
            i = i + 1;
        }
        proof {
            lemma_first_none(aliases, Some(*ch));
        }
        None
    }

    /// The first flag whose long alias is `param`.
    pub fn by_long(&self, param: &str) -> (r: Option<&FlagDef>)
        ensures
            match r {
                Some(f) => self.with_long(param@) == Some(*f),
                None => self.with_long(param@) is None,
            },
    {
        let ghost aliases = self.long_aliases();
        let needle = param.to_owned();
        let mut i: usize = 0;
        while i < self.0.len()
            invariant
                i <= self.0.len(),
                needle@ == param@,
                aliases == self.long_aliases(),
                forall|j: int| 0 <= j < i ==> #[trigger] aliases[j] != Some(param@),
            decreases self.0.len() - i,
        {
            let fd = &self.0[i];
            let long = match fd {
                FlagDef::BooleanFlagDef(b) => &b.long,
                FlagDef::CountedFlagDef(c) => &c.long,
            };
            assert(aliases[i as int] == optional_text(*long));
            let hit = match long {
                Some(v) => *v == needle,
                None => false,
            };
            if hit {
                proof {
                    lemma_first_is(aliases, Some(param@), i as int);
                }
                return Some(fd);
            }
            i = i + 1;
        }
        proof {
            lemma_first_none(aliases, Some(param@));
        }
        None
    }

    /// Holds the flags and counts seen against every flag, in declaration
    /// order, and stops at the first message.
    pub fn validate(
        &self,
        boolean_flags: &IndexMap<String, bool>,
        counted_flags: &IndexMap<String, u64>,
    ) -> (r: Result<(), String>)
        ensures
            complaint_of(r) == self.complaint(
                flag_entries(*boolean_flags),
                count_entries(*counted_flags),
            ),
    {
        let ghost flags = flag_entries(*boolean_flags);
        let ghost counts = count_entries(*counted_flags);
        let mut i: usize = 0;
        assert(self.0@.skip(0) =~= self.0@);
        while i < self.0.len()
            invariant
                i <= self.0.len(),
                flags == flag_entries(*boolean_flags),
                counts == count_entries(*counted_flags),
                first_flag_complaint(self.0@, flags, counts) == first_flag_complaint(
                    self.0@.skip(i as int),
                    flags,
                    counts,
                ),
            decreases self.0.len() - i,
        {
            let r = self.0[i].validate(boolean_flags, counted_flags);
            proof {
                let rest = self.0@.skip(i as int);
                assert(rest[0] == self.0@[i as int]);
                assert(rest.skip(1) =~= self.0@.skip(i + 1));
            }
            match r {
                Err(message) => {
                    return Err(message);
                },
                Ok(_) => {},
            }
            i = i + 1;
        }
        Ok(())
    }
}

/// Collects the settings of a `BooleanFlagDef`.
#[derive(Clone)]
pub struct BooleanFlagDefBuilder {
    pub name: Option<String>,
    pub short: Option<Option<char>>,
    pub long: Option<Option<String>>,
    pub help: Option<Option<String>>,
    pub required: Option<bool>,
}

/// The message for a setting that `build` needs and that was never given.
pub open spec fn unset_message(field: Seq<char>) -> Seq<char> {
    "`"@ + field + "` must be initialized"@
}

/// The error for a setting that `build` needs and that was never given.
pub(crate) fn unset_error(field: &str) -> (message: String)
    ensures
        message@ == unset_message(field@),
{
    let mut message = String::new();
    push_text(&mut message, "`");
    push_text(&mut message, field);
    push_text(&mut message, "` must be initialized");
    assert(message@ =~= unset_message(field@));
    message
}

/// A setting that holds an option: what was set, or `None` where nothing
/// was.
pub open spec fn settled<T>(setting: Option<Option<T>>) -> Option<T> {
    match setting {
        Some(value) => value,
        None => None,
    }
}

impl BooleanFlagDefBuilder {
    /// A builder with nothing set.
    pub open spec fn unset() -> BooleanFlagDefBuilder {
        BooleanFlagDefBuilder { name: None, short: None, long: None, help: None, required: None }
    }

    /// A builder with the name and both aliases set.
    pub fn new(name: String, short: Option<char>, long: Option<String>) -> (b:
        BooleanFlagDefBuilder)
        ensures
            b == (BooleanFlagDefBuilder {
                name: Some(name),
                short: Some(short),
                long: Some(long),
                ..BooleanFlagDefBuilder::unset()
            }),
    {
        BooleanFlagDefBuilder {
            name: Some(name),
            short: Some(short),
            long: Some(long),
            help: None,
            required: None,
        }
    }

    /// Sets the canonical name.
    pub fn name(&mut self, value: String) -> (r: &mut Self)
        ensures
            *r == (BooleanFlagDefBuilder { name: Some(value), ..*old(self) }),
            *final(self) == *final(r),
    {
        self.name = Some(value);
        self
    }

    /// Sets the one-letter alias.
    pub fn short(&mut self, value: Option<char>) -> (r: &mut Self)
        ensures
            *r == (BooleanFlagDefBuilder { short: Some(value), ..*old(self) }),
            *final(self) == *final(r),
    {
        self.short = Some(value);
        self
    }

    /// Sets the long alias.
    pub fn long(&mut self, value: Option<String>) -> (r: &mut Self)
        ensures
            *r == (BooleanFlagDefBuilder { long: Some(value), ..*old(self) }),
            *final(self) == *final(r),
    {
        self.long = Some(value);
        self
    }

    /// Sets the help text.
    pub fn help(&mut self, value: Option<String>) -> (r: &mut Self)
        ensures
            *r == (BooleanFlagDefBuilder { help: Some(value), ..*old(self) }),
            *final(self) == *final(r),
    {
        self.help = Some(value);
        self
    }

    /// Sets whether the flag must be present.
    pub fn required(&mut self, value: bool) -> (r: &mut Self)
        ensures
            *r == (BooleanFlagDefBuilder { required: Some(value), ..*old(self) }),
            *final(self) == *final(r),
    {
        self.required = Some(value);
        self
    }

    /// The definition that the settings describe, once a name is set: unset
    /// aliases and help are absent, and the flag is optional unless set
    /// otherwise.
    pub open spec fn product(&self) -> BooleanFlagDef {
        BooleanFlagDef {
            name: self.name->0,
            short: settled(self.short),
            long: settled(self.long),
            help: settled(self.help),
            required: match self.required {
                Some(value) => value,
                None => false,
            },
        }
    }

    /// The definition, or the error that the name was never set.
    pub fn build(&self) -> (r: Result<BooleanFlagDef, String>)
        ensures
            match r {
                Ok(def) => self.name is Some && def == self.product(),
                Err(message) => self.name is None && message@ == unset_message("name"@),
            },
    {
        let name = match &self.name {
            Some(value) => value.clone(),
            None => {
                return Err(unset_error("name"));
            },
        };
        let short = match self.short {
            Some(value) => value,
            None => None,
        };
        let long = match &self.long {
            Some(value) => clone_optional(value),
            None => None,
        };
        let help = match &self.help {
            Some(value) => clone_optional(value),
            None => None,
        };
        let required = match self.required {
            Some(value) => value,
            None => false,
        };
        Ok(BooleanFlagDef { name, short, long, help, required })
    }
}

impl Default for BooleanFlagDefBuilder {
    fn default() -> (b: Self)
        ensures
            b == BooleanFlagDefBuilder::unset(),
    {
        BooleanFlagDefBuilder { name: None, short: None, long: None, help: None, required: None }
    }
}

/// A copy of an optional text that is the same value.
pub(crate) fn clone_optional(s: &Option<String>) -> (r: Option<String>)
    ensures
        r == *s,
{
    match s {
        Some(t) => Some(t.clone()),
        None => None,
    }
}

/// Collects the settings of a `CountedFlagDef`.
#[derive(Clone)]
pub struct CountedFlagDefBuilder {
    pub name: Option<String>,
    pub short: Option<Option<char>>,
    pub long: Option<Option<String>>,
    pub help: Option<Option<String>>,
    pub min_occurences: Option<u64>,
    pub max_occurences: Option<Option<u64>>,
}

/// An optional name as the builder's messages show it.
pub open spec fn shown_name(name: Option<Seq<char>>) -> Seq<char> {
    match name {
        Some(n) => "Some(\""@ + n + "\")"@,
        None => "None"@,
    }
}

/// The message for a counted flag without any alias.
pub open spec fn no_alias_message(name: Option<Seq<char>>) -> Seq<char> {
    shown_name(name) + ": either short or long name must be provided"@
}

/// The message for a counted flag whose window is exactly zero.
pub open spec fn empty_window_message(name: Option<Seq<char>>) -> Seq<char> {
    shown_name(name) + ": min/max_occurences cannot be both set to 0"@
}

/// The message for a counted flag whose lower bound exceeds the upper one.
pub open spec fn crossed_window_message(name: Option<Seq<char>>) -> Seq<char> {
    shown_name(name) + ": min_occurences must not exceed max_occurences"@
}

impl CountedFlagDefBuilder {
    /// A builder with nothing set.
    pub open spec fn unset() -> CountedFlagDefBuilder {
        CountedFlagDefBuilder {
            name: None,
            short: None,
            long: None,
            help: None,
            min_occurences: None,
            max_occurences: None,
        }
    }

    /// A builder with the name and both aliases set.
    pub fn new(name: String, short: Option<char>, long: Option<String>) -> (b:
        CountedFlagDefBuilder)
        ensures
            b == (CountedFlagDefBuilder {
                name: Some(name),
                short: Some(short),
                long: Some(long),
                ..CountedFlagDefBuilder::unset()
            }),
    {
        CountedFlagDefBuilder {
            name: Some(name),
            short: Some(short),
            long: Some(long),
            help: None,
            min_occurences: None,
            max_occurences: None,
        }
    }

    /// Sets the canonical name.
    pub fn name(&mut self, value: String) -> (r: &mut Self)
        ensures
            *r == (CountedFlagDefBuilder { name: Some(value), ..*old(self) }),
            *final(self) == *final(r),
    {
        self.name = Some(value);
        self
    }

    /// Sets the one-letter alias.
    pub fn short(&mut self, value: Option<char>) -> (r: &mut Self)
        ensures
            *r == (CountedFlagDefBuilder { short: Some(value), ..*old(self) }),
            *final(self) == *final(r),
    {
        self.short = Some(value);
        self
    }

    /// Sets the long alias.
    pub fn long(&mut self, value: Option<String>) -> (r: &mut Self)
        ensures
            *r == (CountedFlagDefBuilder { long: Some(value), ..*old(self) }),
            *final(self) == *final(r),
    {
        self.long = Some(value);
        self
    }

    /// Sets the help text.
    pub fn help(&mut self, value: Option<String>) -> (r: &mut Self)
        ensures
            *r == (CountedFlagDefBuilder { help: Some(value), ..*old(self) }),
            *final(self) == *final(r),
    {
        self.help = Some(value);
        self
    }

    /// Sets the least number of occurrences.
    pub fn min_occurences(&mut self, value: u64) -> (r: &mut Self)
        ensures
            *r == (CountedFlagDefBuilder { min_occurences: Some(value), ..*old(self) }),
            *final(self) == *final(r),
    {
        self.min_occurences = Some(value);
        self
    }

    /// Sets the greatest number of occurrences; `None` leaves it open.
    pub fn max_occurences(&mut self, value: Option<u64>) -> (r: &mut Self)
        ensures
            *r == (CountedFlagDefBuilder { max_occurences: Some(value), ..*old(self) }),
            *final(self) == *final(r),
    {
        self.max_occurences = Some(value);
        self
    }

    /// The lower bound that the settings resolve to.
    pub open spec fn least(&self) -> u64 {
        match self.min_occurences {
            Some(value) => value,
            None => 0,
        }
    }

    /// What is wrong with the settings: a counted flag needs an alias, and
    /// its window may be neither exactly zero nor crossed.
    pub open spec fn defect(&self) -> Option<Seq<char>> {
        let most = settled(self.max_occurences);
        if settled(self.short) is None && settled(self.long) is None {
            Some(no_alias_message(optional_text(self.name)))
        } else if self.least() == 0 && most == Some(0u64) {
            Some(empty_window_message(optional_text(self.name)))
        } else if most is Some && self.least() > most->0 {
            Some(crossed_window_message(optional_text(self.name)))
        } else {
            None
        }
    }

    /// The name as the messages show it.
    fn show_name(&self) -> (shown: String)
        ensures
            shown@ == shown_name(optional_text(self.name)),
    {
        let mut shown = String::new();
        match &self.name {
            Some(n) => {
                push_text(&mut shown, "Some(\"");
                push_text(&mut shown, n.as_str());
                push_text(&mut shown, "\")");
                assert(shown@ =~= shown_name(Some(n@)));
            },
            None => {
                push_text(&mut shown, "None");
                assert(shown@ =~= shown_name(None));
            },
        }
        shown
    }

    /// Checks the settings before a definition is built from them.
    pub fn validate_def(&self) -> (r: Result<(), String>)
        ensures
            complaint_of(r) == self.defect(),
    {
        let short = match self.short {
            Some(value) => value,
            None => None,
        };
        let has_long = match &self.long {
            Some(value) => value.is_some(),
            None => false,
        };
        let least = match self.min_occurences {
            Some(value) => value,
            None => 0,
        };
        let most = match self.max_occurences {
            Some(value) => value,
            None => None,
        };
        assert(has_long == (settled(self.long) is Some));
        if short.is_none() && !has_long {
            let mut message = self.show_name();
            push_text(&mut message, ": either short or long name must be provided");
            return Err(message);
        }
        match most {
            Some(bound) => {
                if least == 0 && bound == 0 {
                    let mut message = self.show_name();
                    push_text(&mut message, ": min/max_occurences cannot be both set to 0");
                    return Err(message);
                }
                if least > bound {
                    let mut message = self.show_name();
                    push_text(&mut message, ": min_occurences must not exceed max_occurences");
                    return Err(message);
                }
            },
            None => {},
        }
        Ok(())
    }

    /// The definition that the settings describe, once they are sound and a
    /// name is set: unset help is absent, the lower bound is 0 and the upper
    /// bound open unless set otherwise.
    pub open spec fn product(&self) -> CountedFlagDef {
        CountedFlagDef {
            name: self.name->0,
            short: settled(self.short),
            long: settled(self.long),
            help: settled(self.help),
            min_occurences: self.least(),
            max_occurences: settled(self.max_occurences),
        }
    }

    /// The definition, or what is wrong with the settings, or the error that
    /// the name was never set. The settings are checked first.
    pub fn build(&self) -> (r: Result<CountedFlagDef, String>)
        ensures
            match r {
                Ok(def) => self.defect() is None && self.name is Some && def == self.product(),
                Err(message) => {
                    ||| self.defect() == Some(message@)
                    ||| (self.defect() is None && self.name is None && message@ == unset_message(
                        "name"@,
                    ))
                },
            },
    {
        match self.validate_def() {
            Err(message) => {
                return Err(message);
            },
            Ok(_) => {},
        }
        let name = match &self.name {
            Some(value) => value.clone(),
            None => {
                return Err(unset_error("name"));
            },
        };
        let short = match self.short {
            Some(value) => value,
            None => None,
        };
        let long = match &self.long {
            Some(value) => clone_optional(value),
            None => None,
        };
        let help = match &self.help {
            Some(value) => clone_optional(value),
            None => None,
        };
        let min_occurences = match self.min_occurences {
            Some(value) => value,
            None => 0,
        };
        let max_occurences = match self.max_occurences {
            Some(value) => value,
            None => None,
        };
        Ok(CountedFlagDef { name, short, long, help, min_occurences, max_occurences })
    }
}

impl Default for CountedFlagDefBuilder {
    fn default() -> (b: Self)
        ensures
            b == CountedFlagDefBuilder::unset(),
    {
        CountedFlagDefBuilder {
            name: None,
            short: None,
            long: None,
            help: None,
            min_occurences: None,
            max_occurences: None,
        }
    }
}

} // verus!
