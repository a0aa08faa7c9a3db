//! Verdicts of validation and the occurrence window shared by counted flags
//! and multi-value entries.

use vstd::prelude::*;
use crate::text::{decimal, push_decimal, push_text};

verus! {

/// What a check has to say against its input: nothing, or a message.
pub open spec fn complaint_of(r: Result<(), String>) -> Option<Seq<char>> {
    match r {
        Ok(_) => None,
        Err(message) => Some(message@),
    }
}

/// The first of two complaints that is one: `first` where it is one, else
/// `second`.
pub open spec fn or_else(first: Option<Seq<char>>, second: Option<Seq<char>>) -> Option<
    Seq<char>,
> {
    if first is Some {
        first
    } else {
        second
    }
}

/// Whether a predicate is asked in the course of two checks, one after the
/// other: in the first, or, where the first has no complaint of its own, in
/// the second.
pub open spec fn asked_then(asked: bool, own: Option<Seq<char>>, asked_after: bool) -> bool {
    asked || (own is None && asked_after)
}

/// What validation may say when the answers of the caller's predicates are
/// open. `own` is the first complaint of the library's own; `asked` tells
/// whether a predicate is asked before that complaint is met, or, where
/// there is none, at all.
///
/// - Where no predicate is asked, the verdict is `own`.
/// - Where one is asked and the library has a complaint of its own, the
///   verdict is that complaint or the message of a predicate, never `Ok`.
/// - Where one is asked and the library has no complaint, the verdict is
///   `Ok` or the message of a predicate.
pub open spec fn abides(complaint: Option<Seq<char>>, own: Option<Seq<char>>, asked: bool) -> bool {
    match own {
        Some(message) => complaint == Some(message) || (asked && complaint is Some),
        None => asked || complaint is None,
    }
}

/// The verdict of validation when the answers are given. `rejection` is the
/// message of the first predicate that rejects among those that are asked,
/// or `None` where all of them accept.
pub open spec fn settle(own: Option<Seq<char>>, asked: bool, rejection: Option<Seq<char>>) -> Option<
    Seq<char>,
> {
    if asked && rejection is Some {
        rejection
    } else {
        own
    }
}

/// A verdict abides exactly when some answers of the predicates give it.
pub proof fn lemma_abides_is_settled(complaint: Option<Seq<char>>, own: Option<Seq<char>>, asked: bool)
    ensures
        abides(complaint, own, asked) <==> exists|rejection: Option<Seq<char>>|
            complaint == #[trigger] settle(own, asked, rejection),
{
    if abides(complaint, own, asked) {
        if complaint == own {
            assert(complaint == settle(own, asked, None));
        } else {
            assert(complaint == settle(own, asked, complaint));
        }
    }
}

/// The message for an entry that was seen fewer than `least` times.
pub open spec fn too_few_message(kind: Seq<char>, name: Seq<char>, least: u64, seen: u64) -> Seq<
    char,
> {
    kind + " "@ + name + " must appear at least "@ + decimal(least as nat)
        + " time(s), it appeared "@ + decimal(seen as nat) + " time(s)"@
}

/// The message for an entry that was seen more than `most` times.
pub open spec fn too_many_message(kind: Seq<char>, name: Seq<char>, most: u64, seen: u64) -> Seq<
    char,
> {
    kind + " "@ + name + " may appear at most "@ + decimal(most as nat)
        + " time(s), it appeared "@ + decimal(seen as nat) + " time(s)"@
}

/// What the window `[min, max]` has to say against `seen` occurrences. The
/// lower bound is looked at first.
pub open spec fn window_complaint(
    kind: Seq<char>,
    name: Seq<char>,
    min: u64,
    max: Option<u64>,
    seen: u64,
) -> Option<Seq<char>> {
    if seen < min {
        Some(too_few_message(kind, name, min, seen))
    } else if max is Some && seen > max->0 {
        Some(too_many_message(kind, name, max->0, seen))
    } else {
        None
    }
}

/// The window `[min, max]` is neither crossed nor exactly zero.
pub open spec fn window_sound(min: u64, max: Option<u64>) -> bool {
    max is Some ==> min <= max->0 && max->0 > 0
}

/// Whether the window `[min, max]` is neither crossed nor exactly zero.
pub fn is_window_sound(min: u64, max: Option<u64>) -> (r: bool)
    ensures
        r == window_sound(min, max),
{
    match max {
        Some(most) => min <= most && most > 0,
        None => true,
    }
}

/// Holds `seen` occurrences of the entry `name` against the window
/// `[min, max]`.
pub fn check_window(kind: &str, name: &str, min: u64, max: Option<u64>, seen: u64) -> (r: Result<
    (),
    String,
>)
    ensures
        complaint_of(r) == window_complaint(kind@, name@, min, max, seen),
{
    if seen < min {
        let mut message = String::new();
        push_text(&mut message, kind);
        push_text(&mut message, " ");
        push_text(&mut message, name);
        push_text(&mut message, " must appear at least ");
        push_decimal(&mut message, min);
        push_text(&mut message, " time(s), it appeared ");
        push_decimal(&mut message, seen);
        push_text(&mut message, " time(s)");
        assert(message@ =~= too_few_message(kind@, name@, min, seen));
        return Err(message);
    }
    match max {
        Some(most) => {
            if seen > most {
                let mut message = String::new();
                push_text(&mut message, kind);
                push_text(&mut message, " ");
                push_text(&mut message, name);
                push_text(&mut message, " may appear at most ");
                push_decimal(&mut message, most);
                push_text(&mut message, " time(s), it appeared ");
                push_decimal(&mut message, seen);
                push_text(&mut message, " time(s)");
                assert(message@ =~= too_many_message(kind@, name@, most, seen));
                return Err(message);
            }
        },
        None => {},
    }
    Ok(())
}

} // verus!
