//! How far the action that an event reports has come.

use vstd::prelude::*;
use vstd::string::*;

verus! {

/// The action is under way, is done, or has failed.
#[derive(Debug, Clone, Copy, PartialEq, Eq, Structural)]
pub enum EventStatus {
    Running,
    Successful,
    Failed,
}

impl EventStatus {
    /// The word that stands for the status, in messages and in keys.
    pub open spec fn name(self) -> Seq<char> {
        match self {
            EventStatus::Running => "Running"@,
            EventStatus::Successful => "Successful"@,
            EventStatus::Failed => "Failed"@,
        }
    }

    /// The word that stands for the status.
    pub fn to_string(&self) -> (text: String)
        ensures
            text@ == self.name(),
    {
        match self {
            EventStatus::Running => "Running".to_owned(),
            EventStatus::Successful => "Successful".to_owned(),
            EventStatus::Failed => "Failed".to_owned(),
        }
    }
}

} // verus!
