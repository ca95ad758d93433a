//! Truthiness: whether an attribute is there, or is `true`.

use std::rc::Rc;
use vstd::prelude::*;

use crate::models::{
    Animation, Audio, Chat, Dice, Document, Location, Message, PhotoSize, Poll, Sticker, User,
    Venue, Video, Voice,
};

verus! {

/// Tells whether a value counts as true.
///
/// A boolean counts as itself. An optional value counts as false where it is
/// absent, and as what it holds where it is there. Every other value counts
/// as true: it is there.
pub trait IsTruthy {
    /// Whether the value counts as true.
    spec fn truthy(&self) -> bool;

    fn is_truthy(&self) -> (r: bool)
        ensures
            r == self.truthy(),
    ;
}

impl IsTruthy for bool {
    open spec fn truthy(&self) -> bool {
        *self
    }

    fn is_truthy(&self) -> (r: bool) {
        *self
    }
}

impl<T: IsTruthy> IsTruthy for Option<T> {
    open spec fn truthy(&self) -> bool {
        match self {
            Some(v) => v.truthy(),
            None => false,
        }
    }

    fn is_truthy(&self) -> (r: bool) {
        if let Some(v) = self {
            v.is_truthy()
        } else {
            false
        }
    }
}

impl<T> IsTruthy for Vec<T> {
    open spec fn truthy(&self) -> bool {
        true
    }

    fn is_truthy(&self) -> (r: bool) {
        true
    }
}

impl<T> IsTruthy for Rc<T> {
    open spec fn truthy(&self) -> bool {
        true
    }

    fn is_truthy(&self) -> (r: bool) {
        true
    }
}

impl IsTruthy for i32 {
    open spec fn truthy(&self) -> bool {
        true
    }

    fn is_truthy(&self) -> (r: bool) {
        true
    }
}

impl IsTruthy for i64 {
    open spec fn truthy(&self) -> bool {
        true
    }

    fn is_truthy(&self) -> (r: bool) {
        true
    }
}

impl IsTruthy for String {
    open spec fn truthy(&self) -> bool {
        true
    }

    fn is_truthy(&self) -> (r: bool) {
        true
    }
}

impl IsTruthy for User {
    open spec fn truthy(&self) -> bool {
        true
    }

    fn is_truthy(&self) -> (r: bool) {
        true
    }
}

impl IsTruthy for Chat {
    open spec fn truthy(&self) -> bool {
        true
    }

    fn is_truthy(&self) -> (r: bool) {
        true
    }
}

impl IsTruthy for Animation {
    open spec fn truthy(&self) -> bool {
        true
    }

    fn is_truthy(&self) -> (r: bool) {
        true
    }
}

impl IsTruthy for Audio {
    open spec fn truthy(&self) -> bool {
        true
    }

    fn is_truthy(&self) -> (r: bool) {
        true
    }
}

impl IsTruthy for Document {
    open spec fn truthy(&self) -> bool {
        true
    }

    fn is_truthy(&self) -> (r: bool) {
        true
    }
}

impl IsTruthy for PhotoSize {
    open spec fn truthy(&self) -> bool {
        true
    }

    fn is_truthy(&self) -> (r: bool) {
        true
    }
}

impl IsTruthy for Sticker {
    open spec fn truthy(&self) -> bool {
        true
    }

    fn is_truthy(&self) -> (r: bool) {
        true
    }
}

impl IsTruthy for Video {
    open spec fn truthy(&self) -> bool {
        true
    }

    fn is_truthy(&self) -> (r: bool) {
        true
    }
}

impl IsTruthy for Voice {
    open spec fn truthy(&self) -> bool {
        true
    }

    fn is_truthy(&self) -> (r: bool) {
        true
    }
}

impl IsTruthy for Dice {
    open spec fn truthy(&self) -> bool {
        true
    }

    fn is_truthy(&self) -> (r: bool) {
        true
    }
}

impl IsTruthy for Poll {
    open spec fn truthy(&self) -> bool {
        true
    }

    fn is_truthy(&self) -> (r: bool) {
        true
    }
}

impl IsTruthy for Venue {
    open spec fn truthy(&self) -> bool {
        true
    }

    fn is_truthy(&self) -> (r: bool) {
        true
    }
}

impl IsTruthy for Location {
    open spec fn truthy(&self) -> bool {
        true
    }

    fn is_truthy(&self) -> (r: bool) {
        true
    }
}

impl IsTruthy for Message {
    open spec fn truthy(&self) -> bool {
        true
    }

    fn is_truthy(&self) -> (r: bool) {
        true
    }
}

} // verus!
