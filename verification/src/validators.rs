//! Caller-supplied predicates on parsed values.
//!
//! A validator answers with `Ok` or with a message. The library cannot see
//! inside one and claims nothing of its answers, nor that it answers alike
//! when asked again: it asks the validators in order, hands each one the
//! value in question, and stops at the first message. A predicate must take
//! every value that it may be handed; `new` asks for that.

use std::sync::Arc;
use vstd::prelude::*;
use crate::app::App;

verus! {

/// A predicate over one value. Opaque to the verifier: it holds a function of
/// the caller.
#[verifier::external_body]
pub struct ValueValidator {
    check: Arc<dyn Fn(&str) -> Result<(), String> + Send + Sync>,
}

/// A predicate over the values of a multi-value entry. Opaque to the
/// verifier: it holds a function of the caller.
#[verifier::external_body]
pub struct MultiValueValidator {
    check: Arc<dyn Fn(&Vec<String>) -> Result<(), String> + Send + Sync>,
}

/// A predicate over a whole parse result. Opaque to the verifier: it holds a
/// function of the caller.
#[verifier::external_body]
pub struct AppValidator {
    check: Arc<dyn Fn(&App) -> Result<(), String> + Send + Sync>,
}

impl ValueValidator {
    /// Wraps the caller's predicate `check` (`Arc::new`). The predicate must
    /// take every value: the library asks it without knowing what it will be
    /// asked about. Nothing is known of its answers.
    #[verifier::external_body]
    pub fn new<F>(check: F) -> (v: ValueValidator)
        where F: Fn(&str) -> Result<(), String> + Send + Sync + 'static,
        requires
            forall|value: &str| check.requires((value,)),
    {
        ValueValidator { check: Arc::new(check) }
    }

    /// Calls the caller's predicate on `value` (`Fn::call`). Nothing is
    /// known of the answer.
    #[verifier::external_body]
    pub(crate) fn run(&self, value: &str) -> (r: Result<(), String>) {
        (self.check)(value)
    }
}

impl Clone for ValueValidator {
    /// `Arc::clone`: the copy holds the same predicate.
    #[verifier::external_body]
    fn clone(&self) -> (c: Self)
        ensures
            c == *self,
    {
        ValueValidator { check: self.check.clone() }
    }
}

impl MultiValueValidator {
    /// Wraps the caller's predicate `check` (`Arc::new`). The predicate must
    /// take every list of values: the library asks it without knowing what
    /// it will be asked about. Nothing is known of its answers.
    #[verifier::external_body]
    pub fn new<F>(check: F) -> (v: MultiValueValidator)
        where F: Fn(&Vec<String>) -> Result<(), String> + Send + Sync + 'static,
        requires
            forall|values: &Vec<String>| check.requires((values,)),
    {
        MultiValueValidator { check: Arc::new(check) }
    }

    /// Calls the caller's predicate on `values` (`Fn::call`). Nothing is
    /// known of the answer.
    #[verifier::external_body]
    pub(crate) fn run(&self, values: &Vec<String>) -> (r: Result<(), String>) {
        (self.check)(values)
    }
}

impl Clone for MultiValueValidator {
    /// `Arc::clone`: the copy holds the same predicate.
    #[verifier::external_body]
    fn clone(&self) -> (c: Self)
        ensures
            c == *self,
    {
        MultiValueValidator { check: self.check.clone() }
    }
}

impl AppValidator {
    /// Wraps the caller's predicate `check` (`Arc::new`). The predicate must
    /// take every result: the library asks it without knowing what it will
    /// be asked about. Nothing is known of its answers.
    #[verifier::external_body]
    pub fn new<F>(check: F) -> (v: AppValidator)
        where F: Fn(&App) -> Result<(), String> + Send + Sync + 'static,
        requires
            forall|app: &App| check.requires((app,)),
    {
        AppValidator { check: Arc::new(check) }
    }

    /// Calls the caller's predicate on `app` (`Fn::call`). Nothing is known
    /// of the answer.
    #[verifier::external_body]
    pub(crate) fn run(&self, app: &App) -> (r: Result<(), String>) {
        (self.check)(app)
    }
}

impl Clone for AppValidator {
    /// `Arc::clone`: the copy holds the same predicate.
    #[verifier::external_body]
    fn clone(&self) -> (c: Self)
        ensures
            c == *self,
    {
        AppValidator { check: self.check.clone() }
    }
}

/// A copy of a list of validators: the same predicates in the same order.
pub(crate) fn copy_value_validators(list: &Vec<ValueValidator>) -> (r: Vec<ValueValidator>)
    ensures
        r@ == list@,
{
    let mut copy: Vec<ValueValidator> = Vec::new();
    let mut i: usize = 0;
    while i < list.len()
        invariant
            i <= list.len(),
            copy@ == list@.take(i as int),
        decreases list.len() - i,
    {
        copy.push(list[i].clone());
        i = i + 1;
        assert(copy@ =~= list@.take(i as int));
    }
    assert(list@.take(list.len() as int) =~= list@);
    copy
}

/// A copy of a list of validators: the same predicates in the same order.
pub(crate) fn copy_values_validators(list: &Vec<MultiValueValidator>) -> (r: Vec<
    MultiValueValidator,
>)
    ensures
        r@ == list@,
{
    let mut copy: Vec<MultiValueValidator> = Vec::new();
    let mut i: usize = 0;
    while i < list.len()
        invariant
            i <= list.len(),
            copy@ == list@.take(i as int),
        decreases list.len() - i,
    {
        copy.push(list[i].clone());
        i = i + 1;
        assert(copy@ =~= list@.take(i as int));
    }
    assert(list@.take(list.len() as int) =~= list@);
    copy
}

/// A copy of a list of validators: the same predicates in the same order.
pub(crate) fn copy_app_validators(list: &Vec<AppValidator>) -> (r: Vec<AppValidator>)
    ensures
        r@ == list@,
{
    let mut copy: Vec<AppValidator> = Vec::new();
    let mut i: usize = 0;
    while i < list.len()
        invariant
            i <= list.len(),
            copy@ == list@.take(i as int),
        decreases list.len() - i,
    {
        copy.push(list[i].clone());
        i = i + 1;
        assert(copy@ =~= list@.take(i as int));
    }
    assert(list@.take(list.len() as int) =~= list@);
    copy
}

/// Asks the validators about `value`, in order, and stops at the first
/// message. Without validators nothing is asked and nothing is wrong.
pub fn check_value(validators: &Vec<ValueValidator>, value: &str) -> (r: Result<(), String>)
    ensures
        validators@.len() == 0 ==> r is Ok,
{
    let mut i: usize = 0;
    while i < validators.len()
        invariant
            i <= validators.len(),
        decreases validators.len() - i,
    {
        match validators[i].run(value) {
            Err(message) => {
                return Err(message);
            },
            Ok(_) => {},
        }
        i = i + 1;
    }
    Ok(())
}

/// Asks the validators about `values`, in order, and stops at the first
/// message. Without validators nothing is asked and nothing is wrong.
pub fn check_values(validators: &Vec<MultiValueValidator>, values: &Vec<String>) -> (r: Result<
    (),
    String,
>)
    ensures
        validators@.len() == 0 ==> r is Ok,
{
    let mut i: usize = 0;
    while i < validators.len()
        invariant
            i <= validators.len(),
        decreases validators.len() - i,
    {
        match validators[i].run(values) {
            Err(message) => {
                return Err(message);
            },
            Ok(_) => {},
        }
        i = i + 1;
    }
    Ok(())
}

/// Asks the validators about the result `app`, in order, and stops at the
/// first message. Without validators nothing is asked and nothing is wrong.
pub fn check_app(validators: &Vec<AppValidator>, app: &App) -> (r: Result<(), String>)
    ensures
        validators@.len() == 0 ==> r is Ok,
{
    let mut i: usize = 0;
    while i < validators.len()
        invariant
            i <= validators.len(),
        decreases validators.len() - i,
    {
        match validators[i].run(app) {
            Err(message) => {
                return Err(message);
            },
            Ok(_) => {},
        }
        i = i + 1;
    }
    Ok(())
}

} // verus!
