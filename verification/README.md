# yama

Yama's ptrace-scope enforcement as verified decisions.

- `src/task.rs`: a well-formed snapshot of the task graph (`TaskTable`), the
  field reads the checks need, the descendant walk, and its laws
  (reflexivity, transitivity).
- `src/relation.rs`: the list of declared ptracers and the deletion of a
  task's relations, with its laws.
- `src/policy.rs`: the verdicts on `PTRACE_TRACEME` and on access requests
  under each `ptrace_scope`, the ptracer exception, and the laws tying the
  scopes together.
- `src/report.rs`: reporting a refused access as a state machine, with the
  law that a report gives back every task reference it takes unless it hands
  them to the queued work.
- `app/`: the exported kernel hooks, which read the task graph under RCU,
  call the library and carry out its decisions.
