use vstd::prelude::*;
use crate::task::{
    Task, TaskTable, table_wf, leader_of, is_descendant, ptrace_parent_of, pid_alive,
    same_thread_group, ptrace_parent, task_is_descendant,
};
use crate::relation::{Relation, first_relation, find_relation};

verus! {

/// `kernel.yama.ptrace_scope = 0`: classic ptrace permissions.
pub const YAMA_SCOPE_DISABLED: i32 = 0;

/// `kernel.yama.ptrace_scope = 1`: only descendants, declared ptracers and
/// holders of `CAP_SYS_PTRACE` may attach.
pub const YAMA_SCOPE_RELATIONAL: i32 = 1;

/// `kernel.yama.ptrace_scope = 2`: only holders of `CAP_SYS_PTRACE` may attach.
pub const YAMA_SCOPE_CAPABILITY: i32 = 2;

/// `kernel.yama.ptrace_scope = 3`: nobody may attach.
pub const YAMA_SCOPE_NO_ATTACH: i32 = 3;

/// The errno returned, negated, for a refused request.
pub const EPERM: i32 = 1;

/// The access mode bit of a request to attach.
pub const PTRACE_MODE_ATTACH: u32 = 0x02;

/// The access mode bit that asks for no audit report.
pub const PTRACE_MODE_NOAUDIT: u32 = 0x04;

/// What the policy says of a request before any capability check.
#[derive(Clone, Copy, Debug, PartialEq, Eq, Structural)]
pub enum Verdict {
    /// Allowed, whatever the capabilities.
    Granted,
    /// Refused, whatever the capabilities.
    Denied,
    /// Allowed exactly when the capability check passes.
    CapabilityDecides,
}

/// The final answer to a request: the return code (`0` or `-EPERM`) and
/// whether the refusal is to be reported.
#[derive(Clone, Copy, Debug, PartialEq, Eq, Structural)]
pub struct Decision {
    pub rc: i32,
    pub report: bool,
}

/// The return code of a verdict, given the outcome of the capability check.
pub open spec fn rc_of(v: Verdict, capable: bool) -> int {
    match v {
        Verdict::Granted => 0,
        Verdict::Denied => -EPERM,
        Verdict::CapabilityDecides => if capable { 0 } else { -EPERM },
    }
}

/// Every declared ptracer is a task of the snapshot.
pub open spec fn relations_fit(rs: Seq<Relation>, n: nat) -> bool {
    forall|i: int| 0 <= i < rs.len() ==> (#[trigger] rs[i].tracer matches Some(t) ==> t < n)
}

/// Whether `security_capable` granted a capability, from its return value.
pub fn has_ns_capability(security_capable_ret: i32) -> (r: bool)
    ensures
        r == (security_capable_ret == 0),
{
    security_capable_ret == 0
}

/// The verdict on `PTRACE_TRACEME` under `scope`.
pub open spec fn traceme_verdict(scope: i32) -> Verdict {
    if scope == YAMA_SCOPE_CAPABILITY {
        Verdict::CapabilityDecides
    } else if scope == YAMA_SCOPE_NO_ATTACH {
        Verdict::Denied
    } else {
        Verdict::Granted
    }
}

/// Decides a `PTRACE_TRACEME` request under `ptrace_scope`. Under the
/// capability scope the answer rests on whether the would-be tracer holds
/// `CAP_SYS_PTRACE` in the caller's user namespace.
pub fn rust_yama_ptrace_traceme(ptrace_scope: i32) -> (v: Verdict)
    ensures
        v == traceme_verdict(ptrace_scope),
{
    if ptrace_scope == YAMA_SCOPE_CAPABILITY {
        Verdict::CapabilityDecides
    } else if ptrace_scope == YAMA_SCOPE_NO_ATTACH {
        Verdict::Denied
    } else {
        Verdict::Granted
    }
}

/// The final answer to `PTRACE_TRACEME`: every refusal is reported.
pub fn traceme_decision(verdict: Verdict, parent_capable: bool) -> (d: Decision)
    ensures
        d.rc == rc_of(verdict, parent_capable),
        d.report == (d.rc != 0),
{
    let rc = match verdict {
        Verdict::Granted => 0,
        Verdict::Denied => -EPERM,
        Verdict::CapabilityDecides => if parent_capable { 0 } else { -EPERM },
    };
    Decision { rc, report: rc != 0 }
}

/// Whether `tracer` is excepted from the relational scope for `tracee`: it is
/// in the thread group of `tracee`'s current tracer, or `tracee`'s thread
/// group declared a ptracer (the first valid declaration counts) that is
/// either any task or one `tracer` descends from. Without a declaration and
/// without such a current tracer there is no exception.
pub open spec fn exception_found(s: Seq<Task>, rs: Seq<Relation>, tracer: usize, tracee: usize) -> bool {
    let pp = ptrace_parent_of(s, tracee as int);
    if pp matches Some(p) && s[p as int].signal == s[tracer as int].signal {
        true
    } else {
        match first_relation(rs, leader_of(s, tracee as int) as usize) {
            Some(i) => rs[i].tracer is None || is_descendant(s, rs[i].tracer, Some(tracer)),
            None => false,
        }
    }
}

/// Looks for an exception from the relational scope for `tracer` on `tracee`.
pub fn ptracer_exception_found(
    tasks: &TaskTable,
    relations: &Vec<Relation>,
    tracer: usize,
    tracee: usize,
) -> (r: bool)
    requires
        tracer < tasks@.len(),
        tracee < tasks@.len(),
        relations_fit(relations@, tasks@.len()),
    ensures
        r == exception_found(tasks@, relations@, tracer, tracee),
{
    let mut parent = ptrace_parent(tasks, tracee);
    if let Some(p) = parent {
        if same_thread_group(tasks, p, tracer) {
            return true;
        }
    }
    let leader = tasks.leader(tracee);
    let mut found = false;
    if let Some(i) = find_relation(relations, leader) {
        parent = relations[i].tracer;
        found = true;
    }
    found && (parent.is_none() || task_is_descendant(tasks, parent, Some(tracer)))
}

/// The verdict on an access of mode `mode` by `current` to `child` under
/// `scope`, before any capability check.
pub open spec fn access_verdict(
    s: Seq<Task>,
    rs: Seq<Relation>,
    current: usize,
    child: usize,
    mode: u32,
    scope: i32,
) -> Verdict {
    if mode & PTRACE_MODE_ATTACH == 0 {
        Verdict::Granted
    } else if scope == YAMA_SCOPE_DISABLED {
        Verdict::Granted
    } else if scope == YAMA_SCOPE_RELATIONAL {
        if !s[child as int].has_thread_pid {
            Verdict::Denied
        } else if is_descendant(s, Some(current), Some(child)) || exception_found(s, rs, current, child) {
            Verdict::Granted
        } else {
            Verdict::CapabilityDecides
        }
    } else if scope == YAMA_SCOPE_CAPABILITY {
        Verdict::CapabilityDecides
    } else {
        Verdict::Denied
    }
}

/// Decides whether `current` may access `child` with `mode` under
/// `ptrace_scope`. Only attaching is restricted; where the verdict rests on
/// a capability, it is whether `current` holds `CAP_SYS_PTRACE` in the user
/// namespace of `child`'s credentials.
pub fn rust_yama_ptrace_access_check(
    tasks: &TaskTable,
    relations: &Vec<Relation>,
    current: usize,
    child: usize,
    mode: u32,
    ptrace_scope: i32,
) -> (v: Verdict)
    requires
        current < tasks@.len(),
        child < tasks@.len(),
        relations_fit(relations@, tasks@.len()),
    ensures
        v == access_verdict(tasks@, relations@, current, child, mode, ptrace_scope),
{
    if mode & PTRACE_MODE_ATTACH == 0 {
        return Verdict::Granted;
    }
    if ptrace_scope == YAMA_SCOPE_DISABLED {
        Verdict::Granted
    } else if ptrace_scope == YAMA_SCOPE_RELATIONAL {
        if !pid_alive(tasks, child) {
            Verdict::Denied
        } else if task_is_descendant(tasks, Some(current), Some(child))
            || ptracer_exception_found(tasks, relations, current, child) {
            Verdict::Granted
        } else {
            Verdict::CapabilityDecides
        }
    } else if ptrace_scope == YAMA_SCOPE_CAPABILITY {
        Verdict::CapabilityDecides
    } else {
        Verdict::Denied
    }
}

/// The verdict on an access when the task graph could not be read: the
/// scopes that do not look at the graph decide as usual, and the relational
/// scope, which cannot be judged, refuses.
pub open spec fn graph_free_verdict(mode: u32, scope: i32) -> Verdict {
    if mode & PTRACE_MODE_ATTACH == 0 || scope == YAMA_SCOPE_DISABLED {
        Verdict::Granted
    } else if scope == YAMA_SCOPE_CAPABILITY {
        Verdict::CapabilityDecides
    } else {
        Verdict::Denied
    }
}

/// Decides an access of mode `mode` under `ptrace_scope` without a snapshot
/// of the task graph.
pub fn access_check_without_graph(mode: u32, ptrace_scope: i32) -> (v: Verdict)
    ensures
        v == graph_free_verdict(mode, ptrace_scope),
{
    if mode & PTRACE_MODE_ATTACH == 0 || ptrace_scope == YAMA_SCOPE_DISABLED {
        Verdict::Granted
    } else if ptrace_scope == YAMA_SCOPE_CAPABILITY {
        Verdict::CapabilityDecides
    } else {
        Verdict::Denied
    }
}

/// The final answer to an access request: a refusal is reported unless the
/// mode asks for no audit.
pub fn access_decision(verdict: Verdict, child_ns_capable: bool, mode: u32) -> (d: Decision)
    ensures
        d.rc == rc_of(verdict, child_ns_capable),
        d.report == (d.rc != 0 && mode & PTRACE_MODE_NOAUDIT == 0),
{
    let rc = match verdict {
        Verdict::Granted => 0,
        Verdict::Denied => -EPERM,
        Verdict::CapabilityDecides => if child_ns_capable { 0 } else { -EPERM },
    };
    Decision { rc, report: rc != 0 && mode & PTRACE_MODE_NOAUDIT == 0 }
}

/// Raising `ptrace_scope` never grants an access that a lower scope refused,
/// as long as the child's pid is still attached.
pub proof fn lemma_access_scope_monotone(
    s: Seq<Task>,
    rs: Seq<Relation>,
    current: usize,
    child: usize,
    mode: u32,
    capable: bool,
    lo: i32,
    hi: i32,
)
    requires
        table_wf(s),
        current < s.len(),
        child < s.len(),
        s[child as int].has_thread_pid,
        0 <= lo <= hi,
        rc_of(access_verdict(s, rs, current, child, mode, lo), capable) != 0,
    ensures
        rc_of(access_verdict(s, rs, current, child, mode, hi), capable) != 0,
{
}

/// Raising `ptrace_scope` within its range never grants a `PTRACE_TRACEME`
/// that a lower scope refused.
pub proof fn lemma_traceme_scope_monotone(capable: bool, lo: i32, hi: i32)
    requires
        YAMA_SCOPE_DISABLED <= lo <= hi <= YAMA_SCOPE_NO_ATTACH,
        rc_of(traceme_verdict(lo), capable) != 0,
    ensures
        rc_of(traceme_verdict(hi), capable) != 0,
{
}

/// Only attaching is restricted: any other access is granted under every scope.
pub proof fn lemma_non_attach_granted(
    s: Seq<Task>,
    rs: Seq<Relation>,
    current: usize,
    child: usize,
    mode: u32,
    scope: i32,
)
    requires
        table_wf(s),
        current < s.len(),
        child < s.len(),
        mode & PTRACE_MODE_ATTACH == 0,
    ensures
        access_verdict(s, rs, current, child, mode, scope) == Verdict::Granted,
{
}

/// Under `ptrace_scope = 3` nobody may attach, whatever the capabilities.
pub proof fn lemma_no_attach_denies(
    s: Seq<Task>,
    rs: Seq<Relation>,
    current: usize,
    child: usize,
    mode: u32,
    capable: bool,
)
    requires
        table_wf(s),
        current < s.len(),
        child < s.len(),
        mode & PTRACE_MODE_ATTACH != 0,
    ensures
        rc_of(access_verdict(s, rs, current, child, mode, YAMA_SCOPE_NO_ATTACH), capable) == -EPERM,
        rc_of(traceme_verdict(YAMA_SCOPE_NO_ATTACH), capable) == -EPERM,
{
}

/// Under the relational scope a task may attach to its live descendants
/// without any capability.
pub proof fn lemma_relational_allows_descendants(
    s: Seq<Task>,
    rs: Seq<Relation>,
    current: usize,
    child: usize,
    mode: u32,
)
    requires
        table_wf(s),
        current < s.len(),
        child < s.len(),
        s[child as int].has_thread_pid,
        is_descendant(s, Some(current), Some(child)),
    ensures
        access_verdict(s, rs, current, child, mode, YAMA_SCOPE_RELATIONAL) == Verdict::Granted,
{
}

/// A tracee's declared ptracer, and every task that descends from it, is
/// excepted from the relational scope; a declaration of any ptracer excepts
/// every task.
pub proof fn lemma_declared_ptracer_excepted(
    s: Seq<Task>,
    rs: Seq<Relation>,
    tracer: usize,
    tracee: usize,
)
    requires
        table_wf(s),
        tracer < s.len(),
        tracee < s.len(),
        first_relation(rs, leader_of(s, tracee as int) as usize) matches Some(i) && (
            rs[i].tracer is None || is_descendant(s, rs[i].tracer, Some(tracer))),
    ensures
        exception_found(s, rs, tracer, tracee),
{
}

/// Under the relational scope, attaching to a live task that is no
/// descendant, is not being traced and declared no ptracer is left to the
/// capability check.
pub proof fn lemma_relational_unrelated_needs_capability(
    s: Seq<Task>,
    rs: Seq<Relation>,
    current: usize,
    child: usize,
    mode: u32,
)
    requires
        table_wf(s),
        current < s.len(),
        child < s.len(),
        mode & PTRACE_MODE_ATTACH != 0,
        s[child as int].has_thread_pid,
        s[child as int].ptrace == 0,
        !is_descendant(s, Some(current), Some(child)),
        first_relation(rs, leader_of(s, child as int) as usize) is None,
    ensures
        !exception_found(s, rs, current, child),
        access_verdict(s, rs, current, child, mode, YAMA_SCOPE_RELATIONAL) == Verdict::CapabilityDecides,
        rc_of(access_verdict(s, rs, current, child, mode, YAMA_SCOPE_RELATIONAL), false) == -EPERM,
{
}

/// Outside the relational scope the verdict does not depend on the task
/// graph, so deciding without it gives the same answer.
pub proof fn lemma_graph_free_agrees(
    s: Seq<Task>,
    rs: Seq<Relation>,
    current: usize,
    child: usize,
    mode: u32,
    scope: i32,
)
    requires
        table_wf(s),
        current < s.len(),
        child < s.len(),
        mode & PTRACE_MODE_ATTACH == 0 || scope != YAMA_SCOPE_RELATIONAL,
    ensures
        graph_free_verdict(mode, scope) == access_verdict(s, rs, current, child, mode, scope),
{
}

/// Of the mode, only the attach bit matters: two modes that agree on it get
/// the same verdict, with the task graph or without it.
pub proof fn lemma_mode_only_attach_bit(
    s: Seq<Task>,
    rs: Seq<Relation>,
    current: usize,
    child: usize,
    m1: u32,
    m2: u32,
    scope: i32,
)
    requires
        table_wf(s),
        current < s.len(),
        child < s.len(),
        (m1 & PTRACE_MODE_ATTACH == 0) == (m2 & PTRACE_MODE_ATTACH == 0),
    ensures
        access_verdict(s, rs, current, child, m1, scope) == access_verdict(s, rs, current, child, m2, scope),
        graph_free_verdict(m1, scope) == graph_free_verdict(m2, scope),
{
}

/// Under the capability scope every attach, whatever other mode bits come
/// with it, is allowed exactly to holders of `CAP_SYS_PTRACE`.
pub proof fn lemma_capability_scope_defers(
    s: Seq<Task>,
    rs: Seq<Relation>,
    current: usize,
    child: usize,
    mode: u32,
)
    requires
        table_wf(s),
        current < s.len(),
        child < s.len(),
        mode & PTRACE_MODE_ATTACH != 0,
    ensures
        access_verdict(s, rs, current, child, mode, YAMA_SCOPE_CAPABILITY) == Verdict::CapabilityDecides,
        graph_free_verdict(mode, YAMA_SCOPE_CAPABILITY) == Verdict::CapabilityDecides,
        rc_of(access_verdict(s, rs, current, child, mode, YAMA_SCOPE_CAPABILITY), true) == 0,
        rc_of(access_verdict(s, rs, current, child, mode, YAMA_SCOPE_CAPABILITY), false) == -EPERM,
{
}

/// Under the relational scope an attach succeeds exactly when the child's
/// pid is attached and the requester is its ancestor, is excepted, or holds
/// `CAP_SYS_PTRACE`.
pub proof fn lemma_relational_rule(
    s: Seq<Task>,
    rs: Seq<Relation>,
    current: usize,
    child: usize,
    mode: u32,
    capable: bool,
)
    requires
        table_wf(s),
        current < s.len(),
        child < s.len(),
        mode & PTRACE_MODE_ATTACH != 0,
    ensures
        (rc_of(access_verdict(s, rs, current, child, mode, YAMA_SCOPE_RELATIONAL), capable) == 0) <==> (
            s[child as int].has_thread_pid && (is_descendant(s, Some(current), Some(child))
                || exception_found(s, rs, current, child) || capable)),
        rc_of(access_verdict(s, rs, current, child, mode, YAMA_SCOPE_RELATIONAL), capable) == 0
            || rc_of(access_verdict(s, rs, current, child, mode, YAMA_SCOPE_RELATIONAL), capable) == -EPERM,
{
}

/// `PTRACE_TRACEME` is refused exactly under the no-attach scope, and under
/// the capability scope when the would-be tracer lacks `CAP_SYS_PTRACE`.
pub proof fn lemma_traceme_rule(scope: i32, capable: bool)
    ensures
        (rc_of(traceme_verdict(scope), capable) != 0) <==> (scope == YAMA_SCOPE_NO_ATTACH || (scope
            == YAMA_SCOPE_CAPABILITY && !capable)),
        rc_of(traceme_verdict(scope), capable) == 0 || rc_of(traceme_verdict(scope), capable) == -EPERM,
{
}

/// The thread group of the tracee's current tracer is excepted.
pub proof fn lemma_current_tracer_group_excepted(
    s: Seq<Task>,
    rs: Seq<Relation>,
    tracer: usize,
    tracee: usize,
    p: usize,
)
    requires
        table_wf(s),
        tracer < s.len(),
        tracee < s.len(),
        s[tracee as int].ptrace != 0,
        s[tracee as int].parent == p,
        s[p as int].signal == s[tracer as int].signal,
    ensures
        exception_found(s, rs, tracer, tracee),
{
}

/// A declared ptracer excepts only itself and its descendants: a requester
/// that does not descend from the declared `d`, and whose thread group does
/// not trace the tracee, gets no exception.
pub proof fn lemma_declared_ptracer_only(
    s: Seq<Task>,
    rs: Seq<Relation>,
    tracer: usize,
    tracee: usize,
    i: int,
    d: usize,
)
    requires
        table_wf(s),
        tracer < s.len(),
        tracee < s.len(),
        first_relation(rs, leader_of(s, tracee as int) as usize) == Some(i),
        rs[i].tracer == Some(d),
        !is_descendant(s, Some(d), Some(tracer)),
        !(s[tracee as int].ptrace != 0 && s[s[tracee as int].parent as int].signal == s[tracer as int].signal),
    ensures
        !exception_found(s, rs, tracer, tracee),
{
}

/// Without a valid declaration for the tracee's thread group, only the
/// thread group of its current tracer is excepted.
pub proof fn lemma_undeclared_only_current_tracer(
    s: Seq<Task>,
    rs: Seq<Relation>,
    tracer: usize,
    tracee: usize,
)
    requires
        table_wf(s),
        tracer < s.len(),
        tracee < s.len(),
        forall|j: int| 0 <= j < rs.len() ==> #[trigger] rs[j].invalid || rs[j].tracee != leader_of(s, tracee as int),
    ensures
        exception_found(s, rs, tracer, tracee) <==> (s[tracee as int].ptrace != 0
            && s[s[tracee as int].parent as int].signal == s[tracer as int].signal),
{
    crate::relation::lemma_first_relation(rs, leader_of(s, tracee as int) as usize);
}

/// `ptrace_scope = 0` grants every access, and a scope outside the known
/// ones refuses every attach, whatever the capabilities.
pub proof fn lemma_disabled_and_unknown_scopes(
    s: Seq<Task>,
    rs: Seq<Relation>,
    current: usize,
    child: usize,
    mode: u32,
    scope: i32,
    capable: bool,
)
    requires
        table_wf(s),
        current < s.len(),
        child < s.len(),
    ensures
        rc_of(access_verdict(s, rs, current, child, mode, YAMA_SCOPE_DISABLED), capable) == 0,
        rc_of(graph_free_verdict(mode, YAMA_SCOPE_DISABLED), capable) == 0,
        mode & PTRACE_MODE_ATTACH != 0 && (scope < YAMA_SCOPE_DISABLED || scope > YAMA_SCOPE_NO_ATTACH) ==> rc_of(
            access_verdict(s, rs, current, child, mode, scope),
            capable,
        ) == -EPERM && rc_of(graph_free_verdict(mode, scope), capable) == -EPERM,
{
}

} // verus!
