use vstd::prelude::*;

verus! {

/// The task flag of kernel threads.
pub const PF_KTHREAD: u32 = 0x0020_0000;

/// Where a report of a refused access stands.
#[derive(Clone, Copy, Debug, PartialEq, Eq, Structural)]
pub enum ReportState {
    /// Nothing done yet.
    Start,
    /// Waiting for the report record to be allocated.
    Allocating,
    /// The record holds references to both tasks and waits to be queued as
    /// task work on the current task.
    Queueing,
    /// Done; `handed_off` tells whether the queued work now owns the record
    /// and its task references.
    Finished { handed_off: bool },
}

/// What the caller observed since the last step.
#[derive(Clone, Copy, Debug, PartialEq, Eq, Structural)]
pub enum ReportEvent {
    /// The report begins; `current_flags` are the flags of the current task.
    Begin { current_flags: u32 },
    /// The allocation of the report record succeeded (`ok`) or failed.
    Allocated { ok: bool },
    /// `task_work_add` returned `ret`.
    Queued { ret: i32 },
}

/// What the caller has to do next.
#[derive(Clone, Copy, Debug, PartialEq, Eq, Structural)]
pub enum ReportAction {
    /// Print the rate-limited report right away.
    ReportRatelimited,
    /// Allocate the report record.
    AllocateInfo,
    /// Fill the record, take a reference on the target and on the agent, and
    /// queue the record as task work on the current task.
    TakeRefsAndQueue,
    /// Warn that the current task is exiting, drop both task references and
    /// free the record.
    WarnReleaseAndFree,
    /// Nothing more.
    Nothing,
}

/// One step of reporting an access: from the state and what was observed, the
/// next state and what to do. A step that does not fit the state is refused.
pub open spec fn report_step(st: ReportState, ev: ReportEvent) -> Option<(ReportState, ReportAction)> {
    match (st, ev) {
        (ReportState::Start, ReportEvent::Begin { current_flags }) => if current_flags & PF_KTHREAD != 0 {
            Some((ReportState::Finished { handed_off: false }, ReportAction::ReportRatelimited))
        } else {
            Some((ReportState::Allocating, ReportAction::AllocateInfo))
        },
        (ReportState::Allocating, ReportEvent::Allocated { ok }) => if ok {
            Some((ReportState::Queueing, ReportAction::TakeRefsAndQueue))
        } else {
            Some((ReportState::Finished { handed_off: false }, ReportAction::Nothing))
        },
        (ReportState::Queueing, ReportEvent::Queued { ret }) => if ret == 0 {
            Some((ReportState::Finished { handed_off: true }, ReportAction::Nothing))
        } else {
            Some((ReportState::Finished { handed_off: false }, ReportAction::WarnReleaseAndFree))
        },
        _ => None,
    }
}

/// Reports an access: a kernel thread reports right away, any other task
/// defers the report to task work run when it returns to user space.
pub fn rust_report_access(state: ReportState, event: ReportEvent) -> (r: Option<(ReportState, ReportAction)>)
    ensures
        r == report_step(state, event),
{
    match (state, event) {
        (ReportState::Start, ReportEvent::Begin { current_flags }) => if current_flags & PF_KTHREAD != 0 {
            Some((ReportState::Finished { handed_off: false }, ReportAction::ReportRatelimited))
        } else {
            Some((ReportState::Allocating, ReportAction::AllocateInfo))
        },
        (ReportState::Allocating, ReportEvent::Allocated { ok }) => if ok {
            Some((ReportState::Queueing, ReportAction::TakeRefsAndQueue))
        } else {
            Some((ReportState::Finished { handed_off: false }, ReportAction::Nothing))
        },
        (ReportState::Queueing, ReportEvent::Queued { ret }) => if ret == 0 {
            Some((ReportState::Finished { handed_off: true }, ReportAction::Nothing))
        } else {
            Some((ReportState::Finished { handed_off: false }, ReportAction::WarnReleaseAndFree))
        },
        _ => None,
    }
}

/// The states and actions that a sequence of events drives the report
/// through, or `None` when some event does not fit.
pub open spec fn report_run(st: ReportState, evs: Seq<ReportEvent>) -> Option<(ReportState, Seq<ReportAction>)>
    decreases evs.len(),
{
    if evs.len() == 0 {
        Some((st, Seq::empty()))
    } else {
        match report_step(st, evs[0]) {
            None => None,
            Some((next, a)) => match report_run(next, evs.drop_first()) {
                None => None,
                Some((last, acts)) => Some((last, seq![a] + acts)),
            },
        }
    }
}

/// The record and task references an action takes (`1`) or gives back (`-1`).
pub open spec fn held_delta(a: ReportAction) -> int {
    match a {
        ReportAction::TakeRefsAndQueue => 1,
        ReportAction::WarnReleaseAndFree => -1,
        _ => 0,
    }
}

/// The records, with their task references, that a list of actions leaves held.
pub open spec fn net_held(acts: Seq<ReportAction>) -> int
    decreases acts.len(),
{
    if acts.len() == 0 {
        0
    } else {
        held_delta(acts[0]) + net_held(acts.drop_first())
    }
}

/// The records held while the report stands in `st`.
pub open spec fn held_in(st: ReportState) -> int {
    match st {
        ReportState::Queueing => 1,
        ReportState::Finished { handed_off } => if handed_off { 1 } else { 0 },
        _ => 0,
    }
}

proof fn lemma_run_accounts(st: ReportState, evs: Seq<ReportEvent>)
    requires
        report_run(st, evs) is Some,
    ensures
        held_in(st) + net_held(report_run(st, evs).unwrap().1) == held_in(report_run(st, evs).unwrap().0),
    decreases evs.len(),
{
    if evs.len() > 0 {
        let (next, a) = report_step(st, evs[0])->0;
        lemma_run_accounts(next, evs.drop_first());
        let acts = report_run(next, evs.drop_first()).unwrap().1;
        assert((seq![a] + acts).drop_first() =~= acts);
    }
}

/// A report that finishes holds nothing more than it started with, unless it
/// handed one record, with its two task references, to the queued work.
pub proof fn lemma_report_releases_what_it_takes(evs: Seq<ReportEvent>)
    requires
        report_run(ReportState::Start, evs) matches Some((ReportState::Finished { handed_off }, _)),
    ensures
        net_held(report_run(ReportState::Start, evs).unwrap().1)
            == if report_run(ReportState::Start, evs).unwrap().0 == (ReportState::Finished { handed_off: true }) { 1int } else { 0int },
{
    lemma_run_accounts(ReportState::Start, evs);
}

/// The report takes the kernel-thread path, printing at once, exactly when
/// the current task's flags carry `PF_KTHREAD`; any other task allocates a
/// record to defer the report.
pub proof fn lemma_report_begin(flags: u32)
    ensures
        flags & PF_KTHREAD != 0 ==> report_step(ReportState::Start, ReportEvent::Begin { current_flags: flags })
            == Some((ReportState::Finished { handed_off: false }, ReportAction::ReportRatelimited)),
        flags & PF_KTHREAD == 0 ==> report_step(ReportState::Start, ReportEvent::Begin { current_flags: flags })
            == Some((ReportState::Allocating, ReportAction::AllocateInfo)),
{
}

/// Of the current task's flags only `PF_KTHREAD` matters.
pub proof fn lemma_report_begin_only_kthread_bit(f1: u32, f2: u32)
    requires
        f1 & PF_KTHREAD == f2 & PF_KTHREAD,
    ensures
        report_step(ReportState::Start, ReportEvent::Begin { current_flags: f1 })
            == report_step(ReportState::Start, ReportEvent::Begin { current_flags: f2 }),
{
}

/// A full report ends with the record handed to the queued work exactly
/// when the task is no kernel thread, the allocation succeeded and the work
/// was queued; it takes the task references at most once.
pub proof fn lemma_report_handoff(flags: u32, ok: bool, ret: i32)
    ensures
        report_run(ReportState::Start, seq![
            ReportEvent::Begin { current_flags: flags },
            ReportEvent::Allocated { ok },
            ReportEvent::Queued { ret },
        ]) matches Some((ReportState::Finished { handed_off }, _)) ==> (handed_off <==> (flags & PF_KTHREAD == 0
            && ok && ret == 0)),
        flags & PF_KTHREAD == 0 && ok ==> report_run(ReportState::Start, seq![
            ReportEvent::Begin { current_flags: flags },
            ReportEvent::Allocated { ok },
            ReportEvent::Queued { ret },
        ]) is Some,
        flags & PF_KTHREAD != 0 || !ok ==> report_run(ReportState::Start, seq![
            ReportEvent::Begin { current_flags: flags },
            ReportEvent::Allocated { ok },
            ReportEvent::Queued { ret },
        ]) is None,
{
    let evs = seq![
        ReportEvent::Begin { current_flags: flags },
        ReportEvent::Allocated { ok },
        ReportEvent::Queued { ret },
    ];
    assert(evs.drop_first() =~= seq![ReportEvent::Allocated { ok }, ReportEvent::Queued { ret }]);
    assert(evs.drop_first().drop_first() =~= seq![ReportEvent::Queued { ret }]);
    assert(evs.drop_first().drop_first().drop_first() =~= Seq::<ReportEvent>::empty());
    reveal_with_fuel(report_run, 4);
}

} // verus!
