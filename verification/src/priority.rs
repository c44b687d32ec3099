//! Scheduling priority of a job: a closed set of five ranks, each standing for
//! one priority class of the cluster.

use vstd::prelude::*;
use crate::text::str_eq;

verus! {

/// Rank of a job. The rank carries no weight of its own: the cluster's
/// priority class of the same name supplies the ordering.
#[derive(Clone, Copy, Debug, PartialEq, Eq, Structural)]
pub enum JobPriority {
    Lowest,
    Low,
    Medium,
    High,
    Highest,
}

/// Name of the priority class that `priority` stands for.
pub open spec fn priority_class_name(priority: JobPriority) -> Seq<char> {
    match priority {
        JobPriority::Lowest => "lowest"@,
        JobPriority::Low => "low"@,
        JobPriority::Medium => "medium"@,
        JobPriority::High => "high"@,
        JobPriority::Highest => "highest"@,
    }
}

/// The rank whose priority class is called `name`, if there is one.
pub open spec fn priority_from_name(name: Seq<char>) -> Option<JobPriority> {
    if name == "lowest"@ {
        Some(JobPriority::Lowest)
    } else if name == "low"@ {
        Some(JobPriority::Low)
    } else if name == "medium"@ {
        Some(JobPriority::Medium)
    } else if name == "high"@ {
        Some(JobPriority::High)
    } else if name == "highest"@ {
        Some(JobPriority::Highest)
    } else {
        None
    }
}

impl JobPriority {
    /// The priority class name of this rank.
    pub fn to_string(&self) -> (name: String)
        ensures
            name@ == priority_class_name(*self),
    {
        let priority = match self {
            JobPriority::Lowest => "lowest",
            JobPriority::Low => "low",
            JobPriority::Medium => "medium",
            JobPriority::High => "high",
            JobPriority::Highest => "highest",
        };
        priority.to_string()
    }

    /// The rank whose priority class is called `name`: one of `lowest`,
    /// `low`, `medium`, `high` and `highest`, in small letters.
    pub fn from_name(name: &str) -> (priority: Option<JobPriority>)
        ensures
            priority == priority_from_name(name@),
    {
        if str_eq(name, "lowest") {
            Some(JobPriority::Lowest)
        } else if str_eq(name, "low") {
            Some(JobPriority::Low)
        } else if str_eq(name, "medium") {
            Some(JobPriority::Medium)
        } else if str_eq(name, "high") {
            Some(JobPriority::High)
        } else if str_eq(name, "highest") {
            Some(JobPriority::Highest)
        } else {
            None
        }
    }
}

/// Ranks and priority classes correspond one to one: the name of a rank
/// reads back as that rank, and a name that reads as a rank is the name of
/// that rank. So no two ranks share a class.
pub proof fn lemma_priority_names_correspond(priority: JobPriority, name: Seq<char>)
    ensures
        priority_from_name(priority_class_name(priority)) == Some(priority),
        priority_from_name(name) == Some(priority) ==> name == priority_class_name(priority),
{
    reveal_strlit("lowest");
    reveal_strlit("low");
    reveal_strlit("medium");
    reveal_strlit("high");
    reveal_strlit("highest");
    assert("lowest"@.len() == 6 && "low"@.len() == 3 && "medium"@.len() == 6 && "high"@.len() == 4
        && "highest"@.len() == 7);
    assert("lowest"@[0] == 'l' && "medium"@[0] == 'm');
}

} // verus!
