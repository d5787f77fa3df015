use yama::task::{
    pid_alive, ptrace_parent, same_thread_group, task_is_descendant, thread_group_leader, Task,
    TaskTable,
};

fn task(pid: i32, exit_signal: i32, group_leader: usize, real_parent: usize, signal: u64) -> Task {
    Task {
        pid,
        exit_signal,
        group_leader,
        real_parent,
        parent: real_parent,
        ptrace: 0,
        signal,
        has_thread_pid: true,
    }
}

/// idle(0) <- init(1) <- shell(2) <- app(3) with thread 4; other(5) under init.
fn world() -> Vec<Task> {
    vec![
        task(0, 17, 0, 0, 0),
        task(1, 17, 1, 0, 1),
        task(100, 17, 2, 1, 2),
        task(200, 17, 3, 2, 3),
        task(201, -1, 3, 2, 3),
        task(300, 17, 5, 1, 5),
    ]
}

#[test]
fn table_accepts_a_tree() {
    let t = TaskTable::new(world()).unwrap();
    assert_eq!(t.len(), 6);
    assert_eq!(t.get(3).pid, 200);
    assert_eq!(t.leader(4), 3);
    assert_eq!(t.leader(2), 2);
}

#[test]
fn table_refuses_link_out_of_range() {
    let mut w = world();
    w[2].real_parent = 6;
    assert!(TaskTable::new(w).is_none());
    let mut w = world();
    w[4].group_leader = 9;
    assert!(TaskTable::new(w).is_none());
    let mut w = world();
    w[5].parent = 60;
    assert!(TaskTable::new(w).is_none());
}

#[test]
fn table_refuses_ancestry_cycle() {
    let mut w = world();
    // shell and init become each other's parents: no walk reaches the idle task
    w[1].real_parent = 2;
    assert!(TaskTable::new(w).is_none());
}

#[test]
fn table_accepts_empty() {
    assert_eq!(TaskTable::new(Vec::new()).unwrap().len(), 0);
}

#[test]
fn field_reads() {
    let mut w = world();
    w[3].has_thread_pid = false;
    w[3].ptrace = 1;
    w[3].parent = 5;
    let t = TaskTable::new(w).unwrap();
    assert!(!pid_alive(&t, 3));
    assert!(pid_alive(&t, 2));
    assert!(thread_group_leader(&t, 3));
    assert!(!thread_group_leader(&t, 4));
    assert!(same_thread_group(&t, 3, 4));
    assert!(!same_thread_group(&t, 2, 3));
    assert_eq!(ptrace_parent(&t, 3), Some(5));
    assert_eq!(ptrace_parent(&t, 2), None);
}

#[test]
fn descendants() {
    let t = TaskTable::new(world()).unwrap();
    // the shell's descendants: itself, its child and the child's thread
    assert!(task_is_descendant(&t, Some(2), Some(2)));
    assert!(task_is_descendant(&t, Some(2), Some(3)));
    assert!(task_is_descendant(&t, Some(2), Some(4)));
    assert!(task_is_descendant(&t, Some(1), Some(4)));
    // a thread stands for its whole group as the parent
    assert!(task_is_descendant(&t, Some(4), Some(3)));
    // siblings and ancestors are no descendants
    assert!(!task_is_descendant(&t, Some(5), Some(3)));
    assert!(!task_is_descendant(&t, Some(3), Some(2)));
    // the idle task descends from nothing, and nothing is missing
    assert!(!task_is_descendant(&t, Some(0), Some(0)));
    assert!(!task_is_descendant(&t, None, Some(3)));
    assert!(!task_is_descendant(&t, Some(2), None));
}

#[test]
fn descent_is_transitive_on_a_chain() {
    let t = TaskTable::new(world()).unwrap();
    assert!(task_is_descendant(&t, Some(1), Some(2)));
    assert!(task_is_descendant(&t, Some(2), Some(3)));
    assert!(task_is_descendant(&t, Some(1), Some(3)));
}
