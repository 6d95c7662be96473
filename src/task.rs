use crate::clock::{local_time, Timestamp};
use crate::status::TaskStatus;
use vstd::prelude::*;
use vstd::string::*;

verus! {

/// Width to which a task's name is padded in a listing.
pub const NAME_WIDTH: usize = 20;

/// The character of the decimal digit `d`, for `0 <= d < 10`.
pub open spec fn digit_char(d: int) -> char {
    ('0' as int + d) as char
}

/// The decimal digits of `n`, without leading zeros.
pub open spec fn digits(n: nat) -> Seq<char>
    decreases n,
{
    if n < 10 {
        seq![digit_char(n as int)]
    } else {
        digits(n / 10) + seq![digit_char((n % 10) as int)]
    }
}

/// `n` written in decimal, with a leading `-` when negative.
pub open spec fn decimal(n: int) -> Seq<char> {
    if n < 0 {
        seq!['-'] + digits((-n) as nat)
    } else {
        digits(n as nat)
    }
}

/// `s` followed by spaces up to `width` characters; longer text is kept whole.
pub open spec fn padded(s: Seq<char>, width: int) -> Seq<char> {
    if s.len() < width {
        s + Seq::new((width - s.len()) as nat, |i: int| ' ')
    } else {
        s
    }
}

/// One task as a listing shows it: ` <id>. <name padded> <marker>`.
pub open spec fn line_of(t: Task) -> Seq<char> {
    seq![' '] + decimal(t.id as int) + seq!['.', ' '] + padded(t.name@, NAME_WIDTH as int) + seq![
        ' ',
    ] + t.status.marker_spec()
}

/// Appends the decimal digits of `n` to `out`.
fn push_digits(out: &mut String, n: u8)
    ensures
        final(out)@ == old(out)@ + digits(n as nat),
    decreases n,
{
    let all = "0123456789";
    proof {
        reveal_strlit("0123456789");
    }
    if n >= 10 {
        push_digits(out, n / 10);
    }
    let d: usize = (n % 10) as usize;
    let c = all.substring_char(d, d + 1);
    assert(c@ =~= seq![digit_char(d as int)]);
    out.append(c);
    assert(out@ =~= old(out)@ + digits(n as nat));
}

/// Appends `n` in decimal to `out`.
fn push_decimal(out: &mut String, n: i8)
    ensures
        final(out)@ == old(out)@ + decimal(n as int),
{
    if n < 0 {
        out.append("-");
        proof {
            reveal_strlit("-");
        }
        let magnitude: u8 = (-(n as i16)) as u8;
        push_digits(out, magnitude);
        assert(out@ =~= old(out)@ + decimal(n as int));
    } else {
        push_digits(out, n as u8);
    }
}

/// The id that the next added task receives: one past the last task's id,
/// or 1 in an empty collection.
pub open spec fn next_id(ts: Seq<Task>) -> int {
    if ts.len() == 0 {
        1
    } else {
        ts.last().id + 1
    }
}

/// Whether a task can still be numbered after `ts` within the range of `i8`.
pub open spec fn has_next_id(ts: Seq<Task>) -> bool {
    ts.len() == 0 || ts.last().id < 127
}

/// `ts` without the tasks whose id is `id`, the rest in their order.
pub open spec fn without_id(ts: Seq<Task>, id: int) -> Seq<Task> {
    ts.filter(|t: Task| t.id != id)
}

/// The tasks of `ts` whose id is `id`.
pub open spec fn with_id(ts: Seq<Task>, id: int) -> Seq<Task> {
    ts.filter(|t: Task| t.id == id)
}

/// `t` with its status set to `status`.
pub open spec fn set_status(t: Task, status: TaskStatus) -> Task {
    Task { status, ..t }
}

/// `t` with its name set to `name`.
pub open spec fn set_name(t: Task, name: String) -> Task {
    Task { name, ..t }
}

/// `ts` with every task whose id is `id` given the status `status`.
pub open spec fn marked(ts: Seq<Task>, id: int, status: TaskStatus) -> Seq<Task> {
    ts.map_values(|t: Task| if t.id == id { set_status(t, status) } else { t })
}

/// The tasks of `ts` that have the status `status`, in their order.
pub open spec fn of_status(ts: Seq<Task>, status: TaskStatus) -> Seq<Task> {
    ts.filter(|t: Task| t.status == status)
}

/// The listing of `ts`: one line per task, in order.
pub open spec fn lines_of(ts: Seq<Task>) -> Seq<Seq<char>> {
    ts.map_values(|t: Task| line_of(t))
}

/// The text of each string of `v`.
pub open spec fn texts(v: Seq<String>) -> Seq<Seq<char>> {
    v.map_values(|s: String| s@)
}

/// One entry of the collection.
#[derive(Debug)]
pub struct Task {
    pub id: i8,
    pub name: String,
    pub status: TaskStatus,
    pub created_at: Timestamp,
}

impl Task {
    /// A new task to follow the tasks of `tasks`, created at `created_at`.
    pub fn new_at(name: String, tasks: &Tasks, created_at: Timestamp) -> (r: Task)
        requires
            has_next_id(tasks@),
        ensures
            r.id == next_id(tasks@),
            r.name == name,
            r.status == TaskStatus::Todo,
            r.created_at == created_at,
    {
        Task { id: tasks.id(), name, status: TaskStatus::Todo, created_at }
    }

    /// A new task to follow the tasks of `tasks`, created now by the local
    /// clock.
    pub fn new(name: String, tasks: &Tasks) -> (r: Task)
        requires
            has_next_id(tasks@),
        ensures
            r.id == next_id(tasks@),
            r.name == name,
            r.status == TaskStatus::Todo,
            r.created_at.wf(),
    {
        Task::new_at(name, tasks, local_time())
    }

    /// The task as a listing shows it, name padded to a fixed width.
    pub fn to_string(&self) -> (r: String)
        ensures
            r@ == line_of(*self),
    {
        let mut out = String::from_str(" ");
        proof {
            reveal_strlit(" ");
        }
        push_decimal(&mut out, self.id);
        out.append(". ");
        proof {
            reveal_strlit(". ");
        }
        let name = self.name.as_str();
        out.append(name);
        let len = name.unicode_len();
        let mut i: usize = len;
        while i < NAME_WIDTH
            invariant
                len == self.name@.len(),
                len <= i <= NAME_WIDTH || (len == i && i > NAME_WIDTH),
                out@ == seq![' '] + decimal(self.id as int) + seq!['.', ' '] + self.name@
                    + Seq::new((i - len) as nat, |k: int| ' '),
            decreases NAME_WIDTH - i,
        {
            out.append(" ");
            proof {
                reveal_strlit(" ");
            }
            i = i + 1;
            assert(out@ =~= seq![' '] + decimal(self.id as int) + seq!['.', ' '] + self.name@
                + Seq::new((i - len) as nat, |k: int| ' '));
        }
        out.append(" ");
        out.append(self.status.marker());
        assert(out@ =~= line_of(*self));
        out
    }
}

/// Why an operation on the collection was refused.
#[derive(Debug, Clone, Copy, PartialEq, Eq, Structural)]
pub enum TaskError {
    /// No task stands at the position that was asked for.
    NotFound,
}

/// The tasks, in the order in which they were added.
#[derive(Debug)]
pub struct Tasks {
    tasks: Vec<Task>,
}

impl View for Tasks {
    type V = Seq<Task>;

    closed spec fn view(&self) -> Seq<Task> {
        self.tasks@
    }
}

impl Tasks {
    /// An empty collection.
    pub fn new() -> (r: Tasks)
        ensures
            r@ == Seq::<Task>::empty(),
    {
        Tasks { tasks: Vec::new() }
    }

    /// The collection of the tasks of `tasks`, in their order.
    pub fn from_tasks(tasks: Vec<Task>) -> (r: Tasks)
        ensures
            r@ == tasks@,
    {
        Tasks { tasks }
    }

    /// The tasks, in order.
    pub fn tasks(&self) -> (r: &Vec<Task>)
        ensures
            r@ == self@,
    {
        &self.tasks
    }

    /// Whether one more task can be numbered within the range of its id.
    pub fn has_next_id(&self) -> (r: bool)
        ensures
            r == has_next_id(self@),
    {
        let len_tasks = self.tasks.len();
        len_tasks == 0 || self.tasks[len_tasks - 1].id < 127
    }

    /// The id that the next added task receives.
    pub fn id(&self) -> (r: i8)
        requires
            has_next_id(self@),
        ensures
            r == next_id(self@),
    {
        let len_tasks = self.tasks.len();
        if len_tasks == 0 {
            return 1;
        }
        self.tasks[len_tasks - 1].id + 1
    }

    /// Appends `task` at the end.
    pub fn add_task(&mut self, task: Task)
        ensures
            final(self)@ == old(self)@.push(task),
    {
        self.tasks.push(task);
    }

    /// Removes every task whose id is `id`; the others keep their order.
    pub fn delete_task(&mut self, id: i8)
        ensures
            final(self)@ == without_id(old(self)@, id as int),
    {
        let ghost start = self.tasks@;
        let ghost mut k: int = 0;
        let mut i: usize = 0;
        while i < self.tasks.len()
            invariant
                0 <= k <= start.len(),
                i == without_id(start.take(k), id as int).len(),
                self.tasks@ == without_id(start.take(k), id as int) + start.skip(k),
            decreases start.len() - k,
        {
            proof {
                reveal(Seq::filter);
                assert(start.take(k + 1).drop_last() =~= start.take(k));
                assert(start.take(k + 1).last() == start[k]);
                assert(self.tasks@[i as int] == start[k]);
            }
            if self.tasks[i].id == id {
                self.tasks.remove(i);
            } else {
                i = i + 1;
            }
            proof {
                k = k + 1;
                assert(self.tasks@ =~= without_id(start.take(k), id as int) + start.skip(k));
            }
        }
        assert(start.take(k) =~= start);
    }

    /// Gives the status `status` to every task whose id is `id`.
    fn mark(&mut self, id: i8, status: TaskStatus)
        ensures
            final(self)@ == marked(old(self)@, id as int, status),
    {
        let mut i: usize = 0;
        while i < self.tasks.len()
            invariant
                i <= self.tasks@.len() == old(self)@.len(),
                forall|j: int|
                    0 <= j < i ==> #[trigger] self.tasks@[j] == marked(old(self)@, id as int, status)[j],
                forall|j: int| i <= j < self.tasks@.len() ==> #[trigger] self.tasks@[j] == old(self)@[j],
            decreases old(self)@.len() - i,
        {
            if self.tasks[i].id == id {
                self.tasks[i].status = status;
            }
            i = i + 1;
        }
        assert(self.tasks@ =~= marked(old(self)@, id as int, status));
    }

    /// Moves every task whose id is `id` to in progress.
    pub fn mark_progress(&mut self, id: i8)
        ensures
            final(self)@ == marked(old(self)@, id as int, TaskStatus::Progress),
    {
        self.mark(id, TaskStatus::Progress);
    }

    /// Moves every task whose id is `id` to done.
    pub fn mark_done(&mut self, id: i8)
        ensures
            final(self)@ == marked(old(self)@, id as int, TaskStatus::Done),
    {
        self.mark(id, TaskStatus::Done);
    }

    /// Renames the task at position `id - 1`. Unlike the other operations this
    /// one goes by position, not by the tasks' ids.
    pub fn update_task(&mut self, id: i8, name: String) -> (r: Result<(), TaskError>)
        ensures
            r.is_ok() <==> 1 <= id <= old(self)@.len(),
            r.is_ok() ==> final(self)@ == old(self)@.update(
                id - 1,
                set_name(old(self)@[id - 1], name),
            ),
            r.is_err() ==> r == Err::<(), TaskError>(TaskError::NotFound) && final(self)@ == old(
                self,
            )@,
    {
        if id < 1 {
            return Err(TaskError::NotFound);
        }
        let position: usize = (id - 1) as usize;
        if position >= self.tasks.len() {
            return Err(TaskError::NotFound);
        }
        self.tasks[position].name = name;
        assert(self.tasks@ =~= old(self)@.update(id - 1, set_name(old(self)@[id - 1], name)));
        Ok(())
    }

    /// The lines of a listing of the tasks with the status `status`, or of
    /// every task where it is `None`, in order.
    fn lines_where(&self, status: Option<TaskStatus>) -> (r: Vec<String>)
        ensures
            status matches Some(s) ==> texts(r@) == lines_of(of_status(self@, s)),
            status is None ==> texts(r@) == lines_of(self@),
    {
        let mut out: Vec<String> = Vec::new();
        let mut i: usize = 0;
        while i < self.tasks.len()
            invariant
                i <= self.tasks@.len(),
                status matches Some(s) ==> texts(out@) == lines_of(
                    of_status(self.tasks@.take(i as int), s),
                ),
                status is None ==> texts(out@) == lines_of(self.tasks@.take(i as int)),
            decreases self.tasks@.len() - i,
        {
            let task = &self.tasks[i];
            let shown = match status {
                Some(s) => task.status == s,
                None => true,
            };
            let ghost before = out@;
            let ghost t = self.tasks@[i as int];
            proof {
                reveal(Seq::filter);
                assert(self.tasks@.take(i + 1).drop_last() =~= self.tasks@.take(i as int));
                assert(self.tasks@.take(i + 1).last() == t);
                assert(self.tasks@.take(i + 1) =~= self.tasks@.take(i as int).push(t));
                if let Some(s) = status {
                    let prev = of_status(self.tasks@.take(i as int), s);
                    assert(of_status(self.tasks@.take(i + 1), s) == if t.status == s {
                        prev.push(t)
                    } else {
                        prev
                    });
                }
            }
            if shown {
                let line = task.to_string();
                out.push(line);
                assert(texts(out@) =~= texts(before).push(line_of(t)));
            }
            proof {
                if let Some(s) = status {
                    let prev = of_status(self.tasks@.take(i as int), s);
                    if t.status == s {
                        assert(lines_of(prev.push(t)) =~= lines_of(prev).push(line_of(t)));
                    }
                    assert(texts(out@) =~= lines_of(of_status(self.tasks@.take(i + 1), s)));
                } else {
                    assert(lines_of(self.tasks@.take(i as int).push(t)) =~= lines_of(
                        self.tasks@.take(i as int),
                    ).push(line_of(t)));
                    assert(texts(out@) =~= lines_of(self.tasks@.take(i + 1)));
                }
            }
            i = i + 1;
        }
        assert(self.tasks@.take(i as int) =~= self.tasks@);
        out
    }

    /// The listing of every task, in order.
    pub fn list(&self) -> (r: Vec<String>)
        ensures
            texts(r@) == lines_of(self@),
    {
        self.lines_where(None)
    }

    /// The listing of the tasks that have the status `status`, in order.
    pub fn list_by_status(&self, status: TaskStatus) -> (r: Vec<String>)
        ensures
            texts(r@) == lines_of(of_status(self@, status)),
    {
        self.lines_where(Some(status))
    }

    /// The listing of the tasks that are done.
    pub fn list_done(&self) -> (r: Vec<String>)
        ensures
            texts(r@) == lines_of(of_status(self@, TaskStatus::Done)),
    {
        self.list_by_status(TaskStatus::Done)
    }

    /// The listing of the tasks that are in progress.
    pub fn list_progress(&self) -> (r: Vec<String>)
        ensures
            texts(r@) == lines_of(of_status(self@, TaskStatus::Progress)),
    {
        self.list_by_status(TaskStatus::Progress)
    }

    /// The listing of the tasks that are still to do.
    pub fn list_todo(&self) -> (r: Vec<String>)
        ensures
            texts(r@) == lines_of(of_status(self@, TaskStatus::Todo)),
    {
        self.list_by_status(TaskStatus::Todo)
    }

    /// Removes every task.
    pub fn delete_all_tasks(&mut self)
        ensures
            final(self)@ == Seq::<Task>::empty(),
    {
        self.tasks.clear();
    }
}

} // verus!
