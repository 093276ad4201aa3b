use vstd::prelude::*;
use crate::time::Timestamp;

verus! {

#[derive(Clone, Copy, Debug, PartialEq, Eq, Structural)]
pub enum Priority {
    High,
    Medium,
    Low,
}

/// The rotation Low -> Medium -> High -> Low.
pub open spec fn spec_next_priority(p: Priority) -> Priority {
    match p {
        Priority::Low => Priority::Medium,
        Priority::Medium => Priority::High,
        Priority::High => Priority::Low,
    }
}

impl Priority {
    pub fn next(self) -> (r: Priority)
        ensures
            r == spec_next_priority(self),
    {
        match self {
            Priority::Low => Priority::Medium,
            Priority::Medium => Priority::High,
            Priority::High => Priority::Low,
        }
    }
}

/// One task record.
#[derive(Clone, Debug)]
pub struct Todo {
    pub id: usize,
    pub description: String,
    pub completed: bool,
    pub priority: Priority,
    pub created_at: Timestamp,
    pub completed_at: Option<Timestamp>,
    pub tags: Vec<String>,
    pub notes: String,
}

impl Todo {
    /// A completion time is present exactly when the record is completed.
    pub open spec fn wf(&self) -> bool {
        self.completed_at is Some <==> self.completed
    }

    /// A record as it is created: open, of medium priority, with no tags or notes.
    pub open spec fn is_fresh(&self, id: int, description: Seq<char>, now: Timestamp) -> bool {
        &&& self.id == id
        &&& self.description@ == description
        &&& !self.completed
        &&& self.priority == Priority::Medium
        &&& self.created_at == now
        &&& self.completed_at is None
        &&& self.tags@.len() == 0
        &&& self.notes@.len() == 0
    }

    /// The record with its completion flipped at `now`.
    pub open spec fn toggled(self, now: Timestamp) -> Todo {
        Todo {
            completed: !self.completed,
            completed_at: if self.completed { None } else { Some(now) },
            ..self
        }
    }

    /// The record with its priority rotated once.
    pub open spec fn with_next_priority(self) -> Todo {
        Todo { priority: spec_next_priority(self.priority), ..self }
    }

    /// `new` is `old` with other tags and every other field kept.
    pub open spec fn same_but_tags(old: Todo, new: Todo) -> bool {
        new == Todo { tags: new.tags, ..old }
    }

    pub fn new(id: usize, description: String, now: Timestamp) -> (r: Todo)
        ensures
            r.is_fresh(id as int, description@, now),
            r.wf(),
    {
        Todo {
            id,
            description,
            completed: false,
            priority: Priority::Medium,
            created_at: now,
            completed_at: None,
            tags: Vec::new(),
            notes: String::new(),
        }
    }
}

} // verus!
