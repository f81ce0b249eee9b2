//! A coarse, display-oriented classification of a container, kept beside the
//! precise lifecycle model in [`crate::docker`] for callers that only need a
//! broad status bucket together with the text to show for it.

use vstd::prelude::*;

verus! {

/// A container reduced to its display attributes.
pub struct Container {
    pub name: String,
    pub id: String,
    pub status: Status,
}

/// Broad status bucket with the text that should be displayed for it.
#[derive(Debug)]
pub enum Status {
    Active { display: String },
    Restarting { display: String },
    Looping { display: String },
    Inactive { display: String },
}

impl Status {
    /// The text to display for this status.
    pub fn display(&self) -> (r: &String)
        ensures
            r@ == self.spec_display(),
    {
        match self {
            Status::Active { display } => display,
            Status::Restarting { display } => display,
            Status::Looping { display } => display,
            Status::Inactive { display } => display,
        }
    }

    /// The display text carried by this status value.
    pub open spec fn spec_display(&self) -> Seq<char> {
        match self {
            Status::Active { display } => display@,
            Status::Restarting { display } => display@,
            Status::Looping { display } => display@,
            Status::Inactive { display } => display@,
        }
    }
}

} // verus!
