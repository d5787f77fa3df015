use yama::policy::{
    access_check_without_graph, access_decision, has_ns_capability, ptracer_exception_found, rust_yama_ptrace_access_check,
    rust_yama_ptrace_traceme, traceme_decision, Decision, Verdict, EPERM, PTRACE_MODE_ATTACH,
    PTRACE_MODE_NOAUDIT, YAMA_SCOPE_CAPABILITY, YAMA_SCOPE_DISABLED, YAMA_SCOPE_NO_ATTACH,
    YAMA_SCOPE_RELATIONAL,
};
use yama::relation::{rust_yama_ptracer_del, Relation};
use yama::task::{Task, TaskTable};

fn task(pid: i32, exit_signal: i32, group_leader: usize, real_parent: usize, signal: u64) -> Task {
    Task {
        pid,
        exit_signal,
        group_leader,
        real_parent,
        parent: real_parent,
        ptrace: 0,
        signal,
        has_thread_pid: true,
    }
}

/// idle(0) <- init(1) <- shell(2) <- app(3) with thread 4; debugger(5) and
/// its thread 6 under init; app(7) under init.
fn world() -> Vec<Task> {
    vec![
        task(0, 17, 0, 0, 0),
        task(1, 17, 1, 0, 1),
        task(100, 17, 2, 1, 2),
        task(200, 17, 3, 2, 3),
        task(201, -1, 3, 2, 3),
        task(300, 17, 5, 1, 5),
        task(301, -1, 5, 1, 5),
        task(400, 17, 7, 1, 7),
    ]
}

fn relation(tracer: Option<usize>, tracee: usize) -> Relation {
    Relation { tracer, tracee, invalid: false }
}

const ATTACH: u32 = PTRACE_MODE_ATTACH;
const READ: u32 = 0x01;

#[test]
fn capability_from_security_capable() {
    assert!(has_ns_capability(0));
    assert!(!has_ns_capability(-EPERM));
}

#[test]
fn traceme_verdicts() {
    assert_eq!(rust_yama_ptrace_traceme(YAMA_SCOPE_DISABLED), Verdict::Granted);
    assert_eq!(rust_yama_ptrace_traceme(YAMA_SCOPE_RELATIONAL), Verdict::Granted);
    assert_eq!(rust_yama_ptrace_traceme(YAMA_SCOPE_CAPABILITY), Verdict::CapabilityDecides);
    assert_eq!(rust_yama_ptrace_traceme(YAMA_SCOPE_NO_ATTACH), Verdict::Denied);
    assert_eq!(rust_yama_ptrace_traceme(42), Verdict::Granted);
}

#[test]
fn traceme_decisions_report_every_refusal() {
    assert_eq!(traceme_decision(Verdict::Granted, false), Decision { rc: 0, report: false });
    assert_eq!(traceme_decision(Verdict::Denied, true), Decision { rc: -EPERM, report: true });
    assert_eq!(traceme_decision(Verdict::CapabilityDecides, true), Decision { rc: 0, report: false });
    assert_eq!(
        traceme_decision(Verdict::CapabilityDecides, false),
        Decision { rc: -1, report: true }
    );
}

#[test]
fn access_decisions_respect_noaudit() {
    assert_eq!(access_decision(Verdict::Granted, false, ATTACH), Decision { rc: 0, report: false });
    assert_eq!(access_decision(Verdict::Denied, true, ATTACH), Decision { rc: -1, report: true });
    assert_eq!(
        access_decision(Verdict::Denied, true, ATTACH | PTRACE_MODE_NOAUDIT),
        Decision { rc: -1, report: false }
    );
    assert_eq!(
        access_decision(Verdict::CapabilityDecides, false, ATTACH),
        Decision { rc: -1, report: true }
    );
    assert_eq!(
        access_decision(Verdict::CapabilityDecides, true, ATTACH),
        Decision { rc: 0, report: false }
    );
}

#[test]
fn reading_is_never_restricted() {
    let t = TaskTable::new(world()).unwrap();
    let rels = Vec::new();
    for scope in [0, 1, 2, 3, 9, -1] {
        assert_eq!(rust_yama_ptrace_access_check(&t, &rels, 5, 3, READ, scope), Verdict::Granted);
    }
}

#[test]
fn attach_under_each_scope() {
    let t = TaskTable::new(world()).unwrap();
    let rels = Vec::new();
    // the shell attaches to its child; the debugger to an unrelated app
    assert_eq!(rust_yama_ptrace_access_check(&t, &rels, 2, 3, ATTACH, YAMA_SCOPE_DISABLED), Verdict::Granted);
    assert_eq!(rust_yama_ptrace_access_check(&t, &rels, 2, 3, ATTACH, YAMA_SCOPE_RELATIONAL), Verdict::Granted);
    assert_eq!(rust_yama_ptrace_access_check(&t, &rels, 2, 4, ATTACH, YAMA_SCOPE_RELATIONAL), Verdict::Granted);
    assert_eq!(
        rust_yama_ptrace_access_check(&t, &rels, 2, 3, ATTACH, YAMA_SCOPE_CAPABILITY),
        Verdict::CapabilityDecides
    );
    assert_eq!(rust_yama_ptrace_access_check(&t, &rels, 2, 3, ATTACH, YAMA_SCOPE_NO_ATTACH), Verdict::Denied);
    assert_eq!(rust_yama_ptrace_access_check(&t, &rels, 2, 3, ATTACH, 4), Verdict::Denied);
    assert_eq!(rust_yama_ptrace_access_check(&t, &rels, 2, 3, ATTACH, -1), Verdict::Denied);
}

#[test]
fn relational_refuses_dead_child() {
    let mut w = world();
    w[3].has_thread_pid = false;
    let t = TaskTable::new(w).unwrap();
    let rels = Vec::new();
    assert_eq!(rust_yama_ptrace_access_check(&t, &rels, 2, 3, ATTACH, YAMA_SCOPE_RELATIONAL), Verdict::Denied);
    // the capability scope does not look at the pid
    assert_eq!(
        rust_yama_ptrace_access_check(&t, &rels, 2, 3, ATTACH, YAMA_SCOPE_CAPABILITY),
        Verdict::CapabilityDecides
    );
}

#[test]
fn relational_non_descendant_needs_capability_or_declaration() {
    let mut w = world();
    // app 3 is being traced by the app 7, outside the debugger's group
    w[3].ptrace = 1;
    w[3].parent = 7;
    let t = TaskTable::new(w).unwrap();
    let none = Vec::new();
    assert_eq!(
        rust_yama_ptrace_access_check(&t, &none, 5, 3, ATTACH, YAMA_SCOPE_RELATIONAL),
        Verdict::CapabilityDecides
    );
    // app 3 declares the debugger as its ptracer
    let rels = vec![relation(Some(5), 3)];
    assert_eq!(
        rust_yama_ptrace_access_check(&t, &rels, 5, 3, ATTACH, YAMA_SCOPE_RELATIONAL),
        Verdict::Granted
    );
    // a thread of the debugger descends from its group leader
    assert_eq!(
        rust_yama_ptrace_access_check(&t, &rels, 6, 4, ATTACH, YAMA_SCOPE_RELATIONAL),
        Verdict::Granted
    );
    // declaring any ptracer excepts everybody
    let any = vec![relation(None, 3)];
    assert!(ptracer_exception_found(&t, &any, 2, 3));
    // an invalidated declaration counts for nothing
    let stale = vec![Relation { tracer: Some(5), tracee: 3, invalid: true }];
    assert!(!ptracer_exception_found(&t, &stale, 5, 3));
}

#[test]
fn exception_through_the_current_tracer() {
    let mut w = world();
    w[3].ptrace = 1;
    w[3].parent = 6;
    let t = TaskTable::new(w).unwrap();
    let none = Vec::new();
    // the debugger's leader shares a thread group with the current tracer
    assert!(ptracer_exception_found(&t, &none, 5, 3));
    // with no declaration, the current tracer stands in as the declared one
    assert!(!ptracer_exception_found(&t, &none, 7, 3));
}

#[test]
fn exception_without_any_tracer() {
    let t = TaskTable::new(world()).unwrap();
    let none = Vec::new();
    // app 3 is not traced and declared nothing: there is no exception
    assert!(!ptracer_exception_found(&t, &none, 7, 3));
    // a declaration for another tracee does not help either
    let other = vec![relation(None, 5)];
    assert!(!ptracer_exception_found(&t, &other, 7, 3));
}

#[test]
fn relational_refuses_unrelated_untraced_child_without_capability() {
    let t = TaskTable::new(world()).unwrap();
    let none = Vec::new();
    let v = rust_yama_ptrace_access_check(&t, &none, 7, 3, ATTACH, YAMA_SCOPE_RELATIONAL);
    assert_eq!(v, Verdict::CapabilityDecides);
    assert_eq!(access_decision(v, false, ATTACH), Decision { rc: -EPERM, report: true });
    assert_eq!(access_decision(v, true, ATTACH), Decision { rc: 0, report: false });
    // the same child is open to its ancestors
    assert_eq!(
        rust_yama_ptrace_access_check(&t, &none, 1, 3, ATTACH, YAMA_SCOPE_RELATIONAL),
        Verdict::Granted
    );
}

#[test]
fn deciding_without_the_graph() {
    assert_eq!(access_check_without_graph(READ, YAMA_SCOPE_NO_ATTACH), Verdict::Granted);
    assert_eq!(access_check_without_graph(ATTACH, YAMA_SCOPE_DISABLED), Verdict::Granted);
    assert_eq!(access_check_without_graph(ATTACH, YAMA_SCOPE_RELATIONAL), Verdict::Denied);
    assert_eq!(access_check_without_graph(ATTACH, YAMA_SCOPE_CAPABILITY), Verdict::CapabilityDecides);
    assert_eq!(access_check_without_graph(ATTACH, YAMA_SCOPE_NO_ATTACH), Verdict::Denied);
    assert_eq!(access_check_without_graph(ATTACH, 7), Verdict::Denied);
}

#[test]
fn first_valid_declaration_wins() {
    let t = TaskTable::new(world()).unwrap();
    let rels = vec![
        Relation { tracer: None, tracee: 3, invalid: true },
        relation(Some(7), 3),
        relation(Some(5), 3),
    ];
    assert!(ptracer_exception_found(&t, &rels, 7, 3));
    assert!(!ptracer_exception_found(&t, &rels, 5, 3));
}

#[test]
fn ptracer_del_marks_matches() {
    let mut rels = vec![
        relation(Some(5), 3),
        relation(Some(2), 7),
        relation(Some(5), 7),
        relation(None, 2),
    ];
    // removing the relations of tracee 3 and tracer 5
    assert!(rust_yama_ptracer_del(&mut rels, Some(5), 3));
    let invalid: Vec<bool> = rels.iter().map(|r| r.invalid).collect();
    assert_eq!(invalid, vec![true, false, true, false]);
    assert_eq!(rels[2].tracer, Some(5));
    assert_eq!(rels[2].tracee, 7);
    // a second deletion finds nothing left to mark
    assert!(!rust_yama_ptracer_del(&mut rels, Some(5), 3));
    let again: Vec<bool> = rels.iter().map(|r| r.invalid).collect();
    assert_eq!(again, invalid);
}

#[test]
fn ptracer_del_without_tracer_matches_tracee_only() {
    let mut rels = vec![relation(None, 2), relation(None, 7)];
    assert!(rust_yama_ptracer_del(&mut rels, None, 7));
    assert!(!rels[0].invalid);
    assert!(rels[1].invalid);
    assert!(!rust_yama_ptracer_del(&mut rels, None, 5));
    let mut empty: Vec<Relation> = Vec::new();
    assert!(!rust_yama_ptracer_del(&mut empty, Some(1), 1));
}

#[test]
fn deleted_tracee_loses_its_exception() {
    let mut w = world();
    w[3].ptrace = 1;
    w[3].parent = 7;
    let t = TaskTable::new(w).unwrap();
    let mut rels = vec![relation(Some(5), 3)];
    assert!(ptracer_exception_found(&t, &rels, 5, 3));
    assert!(rust_yama_ptracer_del(&mut rels, None, 3));
    assert!(!ptracer_exception_found(&t, &rels, 5, 3));
}

#[test]
fn raising_the_scope_never_grants_more() {
    let t = TaskTable::new(world()).unwrap();
    let rels = Vec::new();
    for cap in [false, true] {
        let rcs: Vec<i32> = (0..4)
            .map(|s| access_decision(rust_yama_ptrace_access_check(&t, &rels, 5, 3, ATTACH, s), cap, ATTACH).rc)
            .collect();
        for i in 0..4 {
            for j in i..4 {
                assert!(rcs[i] == 0 || rcs[j] != 0);
            }
        }
    }
}
