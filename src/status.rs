use vstd::prelude::*;

verus! {

/// Where a task stands: not started, under way, or finished.
#[derive(Debug, Clone, Copy, PartialEq, Eq, Structural)]
pub enum TaskStatus {
    Done,
    Progress,
    Todo,
}

impl TaskStatus {
    /// The three-character marker shown after a task in a listing.
    pub open spec fn marker_spec(self) -> Seq<char> {
        match self {
            TaskStatus::Done => seq!['[', '\u{2714}', ']'],
            TaskStatus::Progress => seq!['[', '~', ']'],
            TaskStatus::Todo => seq!['[', ' ', ']'],
        }
    }

    /// The marker shown after a task in a listing.
    pub fn marker(&self) -> (r: &'static str)
        ensures
            r@ == self.marker_spec(),
    {
        match self {
            TaskStatus::Done => {
                let m = "[\u{2714}]";
                proof {
                    reveal_strlit("[\u{2714}]");
                }
                m
            },
            TaskStatus::Progress => {
                let m = "[~]";
                proof {
                    reveal_strlit("[~]");
                }
                m
            },
            TaskStatus::Todo => {
                let m = "[ ]";
                proof {
                    reveal_strlit("[ ]");
                }
                m
            },
        }
    }
}

} // verus!
