//! The people who use the bathroom.

use vstd::prelude::*;
use crate::outside::{fresh_id, is_random_id};

verus! {

/// The two groups that take turns in the bathroom.
#[derive(Copy, Clone, Debug, PartialEq, Eq, Structural)]
pub enum Gender {
    Male,
    Female,
}

impl Gender {
    /// The gender that `self` competes with.
    pub open spec fn spec_other(self) -> Gender {
        match self {
            Gender::Male => Gender::Female,
            Gender::Female => Gender::Male,
        }
    }

    /// The gender that `self` competes with.
    #[verifier::when_used_as_spec(spec_other)]
    pub fn other(self) -> (g: Gender)
        ensures
            g == self.spec_other(),
    {
        match self {
            Gender::Male => Gender::Female,
            Gender::Female => Gender::Male,
        }
    }

    /// The gender that a coin decides on: `Female` for `true`, `Male` for
    /// `false`.
    pub fn from_coin(coin: bool) -> (g: Gender)
        ensures
            g == if coin {
                Gender::Female
            } else {
                Gender::Male
            },
    {
        if coin {
            Gender::Female
        } else {
            Gender::Male
        }
    }

    /// The gender's name as it is printed.
    pub open spec fn spec_label(self) -> Seq<char> {
        match self {
            Gender::Male => "Male"@,
            Gender::Female => "Female"@,
        }
    }

    /// The gender's name as it is printed: `Male` or `Female`.
    pub fn label(self) -> (text: &'static str)
        ensures
            text@ == self.spec_label(),
    {
        match self {
            Gender::Male => "Male",
            Gender::Female => "Female",
        }
    }
}

/// One person, with the times at which they joined the queue, entered the
/// bathroom and left it. A time is absent until the step has happened.
#[derive(Copy, Clone, Debug, PartialEq, Eq, Structural)]
pub struct Person {
    pub id: u128,
    pub gender: Gender,
    pub joined_queue_at: Option<u64>,
    pub entered_bathroom_at: Option<u64>,
    pub left_bathroom_at: Option<u64>,
}

/// A person who has not joined anything yet.
pub open spec fn unqueued_person(id: u128, g: Gender) -> Person {
    Person {
        id,
        gender: g,
        joined_queue_at: None,
        entered_bathroom_at: None,
        left_bathroom_at: None,
    }
}

/// A person of gender `g` under the given identifier, with no time recorded.
pub fn person_with_id(id: u128, g: Gender) -> (p: Person)
    ensures
        p == unqueued_person(id, g),
{
    Person {
        id,
        gender: g,
        joined_queue_at: None,
        entered_bathroom_at: None,
        left_bathroom_at: None,
    }
}

/// A person of gender `g` under a newly drawn random identifier, with no
/// time recorded.
pub fn new_person(g: Gender) -> (p: Person)
    ensures
        p == unqueued_person(p.id, g),
        is_random_id(p.id),
{
    let id: u128 = fresh_id();
    person_with_id(id, g)
}

} // verus!
