# crostini

A minimal PID 1 init for OCI containers, verified with Verus.

- `src/signals.rs`: the signal mask the init installs (nix's `SigSet`) and the
  classification of a signal read from the signalfd.
- `src/supervisor.rs`: the supervision loop as a state machine; the caller
  performs each requested read or wait, delivers the requested signal, and
  feeds the result back.
- `src/laws.rs`: properties over runs of the state machine (the reported
  status is the workload's own, it never changes once decided, whom the init
  signals and when).
- `src/executor.rs`, `src/env.rs`: the container executor's decisions: which
  process descriptions it accepts and where it looks for the program.
- `src/cli.rs`: the command line of the standalone init.
- `src/descriptors.rs`: the inherited descriptors closed before the spawn.
- `app/`: the standalone binary, the system calls (spawn, `close`,
  `sigprocmask`, signalfd, `waitpid`, `killpg`) and the libcontainer
  `Executor` implementation.
