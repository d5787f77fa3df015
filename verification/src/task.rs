use vstd::prelude::*;

verus! {

/// What the ptrace checks read of one `task_struct`.
///
/// Links to other tasks (`group_leader`, `real_parent`, `parent`) are indices
/// into the [`TaskTable`] the task belongs to; `signal` identifies the shared
/// `signal_struct`, so two tasks are in one thread group exactly when their
/// `signal` values are equal.
#[derive(Clone, Copy, Debug)]
pub struct Task {
    pub pid: i32,
    pub exit_signal: i32,
    pub group_leader: usize,
    pub real_parent: usize,
    pub parent: usize,
    pub ptrace: u32,
    pub signal: u64,
    pub has_thread_pid: bool,
}

/// The task itself when it leads its thread group, else its group leader.
pub open spec fn leader_of(s: Seq<Task>, i: int) -> int {
    if s[i].exit_signal >= 0 {
        i
    } else {
        s[i].group_leader as int
    }
}

/// One step up the ancestry: the real parent of the task's group leader.
pub open spec fn ancestry_step(s: Seq<Task>, i: int) -> int {
    s[leader_of(s, i)].real_parent as int
}

/// Walking up the ancestry from `i` meets a task with `pid <= 0` (the idle
/// task) within `k` steps.
pub open spec fn reaches_root(s: Seq<Task>, i: int, k: nat) -> bool
    decreases k,
{
    s[i].pid <= 0 || (k > 0 && reaches_root(s, ancestry_step(s, i), (k - 1) as nat))
}

pub open spec fn links_in_range(s: Seq<Task>, i: int) -> bool {
    &&& s[i].group_leader < s.len()
    &&& s[i].real_parent < s.len()
    &&& s[i].parent < s.len()
}

/// A well-formed snapshot: every link points into the table, and every
/// ancestry walk ends at the idle task before visiting more tasks than the
/// table holds.
pub open spec fn table_wf(s: Seq<Task>) -> bool {
    forall|i: int|
        0 <= i < s.len() ==> #[trigger] links_in_range(s, i) && reaches_root(s, i, s.len())
}

/// The walk that starts at `w` finds a task whose group leader is `target`
/// before it reaches the idle task, within `k` further steps.
pub open spec fn walk_finds(s: Seq<Task>, target: int, w: int, k: nat) -> bool
    decreases k,
{
    if s[w].pid <= 0 {
        false
    } else if leader_of(s, w) == target {
        true
    } else if k == 0 {
        false
    } else {
        walk_finds(s, target, ancestry_step(s, w), (k - 1) as nat)
    }
}

/// `child` descends from `parent` (a thread group counts as descending from
/// itself); absent tasks descend from nothing.
pub open spec fn is_descendant(s: Seq<Task>, parent: Option<usize>, child: Option<usize>) -> bool {
    match (parent, child) {
        (Some(p), Some(c)) => walk_finds(s, leader_of(s, p as int), c as int, s.len()),
        _ => false,
    }
}

/// The tracer of `t` when `t` is being ptraced.
pub open spec fn ptrace_parent_of(s: Seq<Task>, t: int) -> Option<usize> {
    if s[t].ptrace != 0 {
        Some(s[t].parent)
    } else {
        None
    }
}

/// A well-formed snapshot of the task graph.
pub struct TaskTable {
    tasks: Vec<Task>,
}

impl TaskTable {
    /// Every table is well formed; `use_type_invariant` on a table gives
    /// `table_wf` of its view.
    #[verifier::type_invariant]
    pub open spec fn inv(self) -> bool {
        table_wf(self@)
    }

    pub closed spec fn view(&self) -> Seq<Task> {
        self.tasks@
    }

    /// Whether the ancestry walk from `i` reaches the idle task within
    /// `s.len()` steps.
    fn chain_ends(s: &Vec<Task>, i: usize) -> (r: bool)
        requires
            i < s.len(),
            forall|j: int| 0 <= j < s.len() ==> #[trigger] links_in_range(s@, j),
        ensures
            r == reaches_root(s@, i as int, s@.len()),
    {
        let n = s.len();
        let mut w = i;
        let mut k = n;
        while s[w].pid > 0
            invariant
                n == s.len(),
                w < n,
                k <= n,
                forall|j: int| 0 <= j < s.len() ==> #[trigger] links_in_range(s@, j),
                reaches_root(s@, i as int, n as nat) == reaches_root(s@, w as int, k as nat),
            decreases k,
        {
            if k == 0 {
                return false;
            }
            proof {
                assert(links_in_range(s@, w as int));
            }
            let l = if s[w].exit_signal >= 0 { w } else { s[w].group_leader };
            proof {
                assert(links_in_range(s@, l as int));
            }
            w = s[l].real_parent;
            k = k - 1;
        }
        true
    }

    /// Takes a snapshot of the task graph, or `None` when a link points
    /// outside the table or some ancestry walk never reaches the idle task.
    pub fn new(tasks: Vec<Task>) -> (r: Option<TaskTable>)
        ensures
            r is Some <==> table_wf(tasks@),
            r matches Some(t) ==> t@ == tasks@,
    {
        let n = tasks.len();
        let mut i: usize = 0;
        while i < n
            invariant
                n == tasks.len(),
                i <= n,
                forall|j: int| 0 <= j < i ==> #[trigger] links_in_range(tasks@, j),
            decreases n - i,
        {
            let t = tasks[i];
            if t.group_leader >= n || t.real_parent >= n || t.parent >= n {
                assert(!links_in_range(tasks@, i as int));
                return None;
            }
            assert(links_in_range(tasks@, i as int));
            i = i + 1;
        }
        let mut i: usize = 0;
        while i < n
            invariant
                n == tasks.len(),
                i <= n,
                forall|j: int| 0 <= j < n ==> #[trigger] links_in_range(tasks@, j),
                forall|j: int| 0 <= j < i ==> reaches_root(tasks@, j, n as nat),
            decreases n - i,
        {
            if !Self::chain_ends(&tasks, i) {
                assert(!table_wf(tasks@)) by {
                    if table_wf(tasks@) {
                        assert(links_in_range(tasks@, i as int));
                    }
                }
                return None;
            }
            i = i + 1;
        }
        Some(TaskTable { tasks })
    }

    /// The number of tasks in the snapshot.
    pub fn len(&self) -> (r: usize)
        ensures
            r == self@.len(),
    {
        self.tasks.len()
    }

    /// The task at index `i`.
    pub fn get(&self, i: usize) -> (r: Task)
        requires
            i < self@.len(),
        ensures
            r == self@[i as int],
            links_in_range(self@, i as int),
    {
        proof {
            use_type_invariant(self);
        }
        self.tasks[i]
    }

    /// The leader of the thread group of task `i`.
    pub fn leader(&self, i: usize) -> (r: usize)
        requires
            i < self@.len(),
        ensures
            r == leader_of(self@, i as int),
            r < self@.len(),
    {
        let t = self.get(i);
        if t.exit_signal >= 0 {
            i
        } else {
            t.group_leader
        }
    }
}

/// Whether the task's pid is still attached (`thread_pid` is set).
pub fn pid_alive(tasks: &TaskTable, p: usize) -> (r: bool)
    requires
        p < tasks@.len(),
    ensures
        r == tasks@[p as int].has_thread_pid,
{
    tasks.get(p).has_thread_pid
}

/// Whether the task leads its thread group.
pub fn thread_group_leader(tasks: &TaskTable, p: usize) -> (r: bool)
    requires
        p < tasks@.len(),
    ensures
        r == (tasks@[p as int].exit_signal >= 0),
{
    tasks.get(p).exit_signal >= 0
}

/// Whether two tasks share one thread group.
pub fn same_thread_group(tasks: &TaskTable, p1: usize, p2: usize) -> (r: bool)
    requires
        p1 < tasks@.len(),
        p2 < tasks@.len(),
    ensures
        r == (tasks@[p1 as int].signal == tasks@[p2 as int].signal),
{
    tasks.get(p1).signal == tasks.get(p2).signal
}

/// The task's tracer, when it is being ptraced.
pub fn ptrace_parent(tasks: &TaskTable, task: usize) -> (r: Option<usize>)
    requires
        task < tasks@.len(),
    ensures
        r == ptrace_parent_of(tasks@, task as int),
        r matches Some(p) ==> p < tasks@.len(),
{
    let t = tasks.get(task);
    if t.ptrace != 0 {
        Some(t.parent)
    } else {
        None
    }
}

/// Whether `child` is `parent` or one of its descendants, walking the real
/// parents of `child`'s thread-group leaders up to the idle task.
pub fn task_is_descendant(tasks: &TaskTable, parent: Option<usize>, child: Option<usize>) -> (r: bool)
    requires
        parent matches Some(p) ==> p < tasks@.len(),
        child matches Some(c) ==> c < tasks@.len(),
    ensures
        r == is_descendant(tasks@, parent, child),
{
    if parent.is_none() || child.is_none() {
        return false;
    }
    let p = parent.unwrap();
    let c = child.unwrap();
    let ghost s = tasks@;
    let n = tasks.len();
    proof {
        use_type_invariant(tasks);
        assert(links_in_range(s, p as int));
        assert(links_in_range(s, c as int));
    }
    let p = if thread_group_leader(tasks, p) { p } else { tasks.get(p).group_leader };
    let mut walker = c;
    let ghost mut rem: nat = n as nat;
    while tasks.get(walker).pid > 0
        invariant
            s == tasks@,
            n == s.len(),
            table_wf(s),
            walker < n,
            parent is Some,
            child == Some(c),
            p == leader_of(s, parent->0 as int),
            reaches_root(s, walker as int, rem),
            walk_finds(s, p as int, c as int, n as nat) == walk_finds(s, p as int, walker as int, rem),
        decreases rem,
    {
        let ghost w0 = walker;
        proof {
            assert(links_in_range(s, walker as int));
        }
        if !thread_group_leader(tasks, walker) {
            walker = tasks.get(walker).group_leader;
        }
        proof {
            assert(links_in_range(s, walker as int));
        }
        if walker == p {
            assert(walk_finds(s, p as int, w0 as int, rem));
            return true;
        }
        walker = tasks.get(walker).real_parent;
        proof {
            rem = (rem - 1) as nat;
        }
    }
    false
}

/// In a well-formed table, fuel beyond what the ancestry walk from `w` needs
/// changes nothing about what it finds.
pub proof fn lemma_walk_fuel(s: Seq<Task>, t: int, w: int, k: nat, k2: nat)
    requires
        table_wf(s),
        0 <= w < s.len(),
        reaches_root(s, w, k),
        k <= k2,
    ensures
        walk_finds(s, t, w, k) == walk_finds(s, t, w, k2),
        reaches_root(s, w, k2),
    decreases k,
{
    if s[w].pid > 0 {
        assert(links_in_range(s, w));
        assert(links_in_range(s, leader_of(s, w)));
        lemma_walk_fuel(s, t, ancestry_step(s, w), (k - 1) as nat, (k2 - 1) as nat);
    }
}

proof fn lemma_walk_through(s: Seq<Task>, la: int, b: int, w: int, k: nat)
    requires
        table_wf(s),
        0 <= b < s.len(),
        0 <= w < s.len(),
        walk_finds(s, la, b, s.len()),
        walk_finds(s, leader_of(s, b), w, k),
    ensures
        walk_finds(s, la, w, s.len()),
    decreases k,
{
    let n = s.len();
    assert(links_in_range(s, w));
    assert(links_in_range(s, leader_of(s, w)));
    assert(links_in_range(s, b));
    if leader_of(s, w) == leader_of(s, b) {
        assert(ancestry_step(s, w) == ancestry_step(s, b));
    } else {
        lemma_walk_through(s, la, b, ancestry_step(s, w), (k - 1) as nat);
        assert(reaches_root(s, w, n));
        lemma_walk_fuel(s, la, ancestry_step(s, w), (n - 1) as nat, n);
    }
}

/// A task other than the idle task descends from itself.
pub proof fn lemma_descendant_reflexive(s: Seq<Task>, p: usize)
    requires
        table_wf(s),
        p < s.len(),
        s[p as int].pid > 0,
    ensures
        is_descendant(s, Some(p), Some(p)),
{
}

/// Descent is transitive: whatever descends from a descendant of `a`
/// descends from `a`.
pub proof fn lemma_descendant_transitive(s: Seq<Task>, a: usize, b: usize, c: usize)
    requires
        table_wf(s),
        a < s.len(),
        b < s.len(),
        c < s.len(),
        is_descendant(s, Some(a), Some(b)),
        is_descendant(s, Some(b), Some(c)),
    ensures
        is_descendant(s, Some(a), Some(c)),
{
    lemma_walk_through(s, leader_of(s, a as int), b as int, c as int, s.len());
}

/// The idle task descends from nothing.
pub proof fn lemma_idle_descends_from_nothing(s: Seq<Task>, p: usize, c: usize)
    requires
        table_wf(s),
        p < s.len(),
        c < s.len(),
        s[c as int].pid <= 0,
    ensures
        !is_descendant(s, Some(p), Some(c)),
{
}

/// Every live task descends from the real parent of its thread-group leader
/// when that parent is live too, whatever tracer either of them has.
pub proof fn lemma_descends_from_real_parent(s: Seq<Task>, c: usize)
    requires
        table_wf(s),
        c < s.len(),
        s[c as int].pid > 0,
        s[s[leader_of(s, c as int)].real_parent as int].pid > 0,
    ensures
        is_descendant(s, Some(s[leader_of(s, c as int)].real_parent), Some(c)),
{
    let n = s.len();
    assert(links_in_range(s, c as int));
    assert(links_in_range(s, leader_of(s, c as int)));
    let rp = s[leader_of(s, c as int)].real_parent as int;
    assert(walk_finds(s, leader_of(s, rp), rp, (n - 1) as nat));
    assert(walk_finds(s, leader_of(s, rp), c as int, n));
}

/// Two tables that agree on every task's pid, exit signal, group leader and
/// real parent: they may differ in tracers, tracing flags, thread groups and
/// pid attachment.
pub open spec fn same_lineage(s1: Seq<Task>, s2: Seq<Task>) -> bool {
    &&& s1.len() == s2.len()
    &&& forall|i: int|
        0 <= i < s1.len() ==> {
            &&& #[trigger] s1[i].pid == s2[i].pid
            &&& s1[i].exit_signal == s2[i].exit_signal
            &&& s1[i].group_leader == s2[i].group_leader
            &&& s1[i].real_parent == s2[i].real_parent
        }
}

proof fn lemma_walk_lineage(s1: Seq<Task>, s2: Seq<Task>, t: int, w: int, k: nat)
    requires
        table_wf(s1),
        same_lineage(s1, s2),
        0 <= w < s1.len(),
    ensures
        walk_finds(s1, t, w, k) == walk_finds(s2, t, w, k),
    decreases k,
{
    assert(s1[w].pid == s2[w].pid);
    assert(links_in_range(s1, w));
    let l = leader_of(s1, w);
    assert(s1[l].pid == s2[l].pid);
    assert(links_in_range(s1, l));
    if k > 0 {
        lemma_walk_lineage(s1, s2, t, ancestry_step(s1, w), (k - 1) as nat);
    }
}

/// Descent is a matter of lineage alone: it does not depend on which task
/// traces which, nor on any other field than pid, exit signal, group leader
/// and real parent.
pub proof fn lemma_descent_ignores_tracing(s1: Seq<Task>, s2: Seq<Task>, p: usize, c: usize)
    requires
        table_wf(s1),
        table_wf(s2),
        same_lineage(s1, s2),
        p < s1.len(),
        c < s1.len(),
    ensures
        is_descendant(s1, Some(p), Some(c)) == is_descendant(s2, Some(p), Some(c)),
{
    assert(s1[p as int].pid == s2[p as int].pid);
    lemma_walk_lineage(s1, s2, leader_of(s1, p as int), c as int, s1.len());
}

/// A thread counts as its group leader on both sides of descent: as the
/// ancestor it stands for its leader, and as the descendant it descends from
/// whatever its live leader descends from.
pub proof fn lemma_descent_by_group_leader(s: Seq<Task>, p: usize, c: usize)
    requires
        table_wf(s),
        p < s.len(),
        c < s.len(),
        s[leader_of(s, p as int)].exit_signal >= 0,
        s[leader_of(s, c as int)].exit_signal >= 0,
        s[c as int].pid > 0,
        s[leader_of(s, c as int)].pid > 0,
    ensures
        is_descendant(s, Some(p), Some(c)) == is_descendant(s, Some(leader_of(s, p as int) as usize), Some(c)),
        is_descendant(s, Some(p), Some(c)) == is_descendant(s, Some(p), Some(leader_of(s, c as int) as usize)),
{
    assert(links_in_range(s, p as int));
    assert(links_in_range(s, c as int));
    let lc = leader_of(s, c as int);
    assert(links_in_range(s, lc));
    assert(leader_of(s, lc) == lc);
    assert(ancestry_step(s, lc) == ancestry_step(s, c as int));
}

} // verus!
