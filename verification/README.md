# swarm_sync

The verified core of SwarmSync, a job and worker orchestrator: a core that
accepts Docker jobs and tracks workers, and workers that report their status
to it over UDP.

- `src/` is the library, written in Verus. Each public function states what
  it returns in its contract, and the laws the library keeps (round trips of
  the enum texts, of the heartbeat wire form and of stored log entries; what a
  sweep of silent workers does; that the logger flushes before it stops) are
  public proof functions beside the code they speak of. Calls into `url` and
  `chrono` go through small trusted wrappers whose contracts name what those
  crates return.
- `tests/` runs the library on concrete values.
- `app/` is the program around it: the worker, which sends heartbeats and runs
  jobs, and the core's modules (`dispatcher` as first argument): the
  dispatcher, which receives the heartbeats, the logger, the harvester and
  the scheduler. It owns the sockets, the clock and the configuration file.
