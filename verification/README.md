# cube_shim

The logic of a sandbox shim, verified with Verus. A shim starts a sandbox in a
process of its own, places that process in a Host cgroup, runs its machine in a
VMM worker, and leaves nothing behind when any of the processes involved dies.

The library decides; it does no I/O. What was read from the system comes in as
plain values, and what is to be done next goes out as one.

## Layout

- `src/` is the library.
  - Records and their parts: `record`, `identity`, `target`, `lifecycle`,
    `operation`, `persist`.
  - A lifecycle, from its preparation to its end: `prepare`, `bootstrap`,
    `session`, `claim`, `placement`, `publish`, `recovery`, `scanner`, `cleanup`,
    `queues`, `host_cleanup`, `scope`, `sockets`, `watchdog`, `observe`.
  - Host resource limits, as transactions with a journal: `controllers`,
    `ceiling`, `replay`, `forward`, `rollback`.
  - The sandbox: `sandbox`, `create_flow`, `start_flow`, `teardown`, `tasks`,
    `rpc`, `fingerprint`, `sandbox_spec`.
  - The VMM worker: `worker_protocol`, `worker_client`, `worker_server`,
    `vm_config`, `vm_fds`, `pci`.
  - What all of them use: `text`, `paths`, `digest`, `clock`, `procfs`, `cri`.
  - `laws` relates several of these; the other laws stand beside the functions
    they speak of, under names that begin with `law_`.
- `tests/` runs the library on concrete values.
- `app/` is the shim around it: files, processes, cgroups, sockets and the RPC
  service. It performs what the library decides and hands back what came of it.

## What is trusted

Calls into other crates and into parts of the standard library stand behind
functions marked `#[verifier::external_body]` or `assume_specification`. Each has
a doc comment that says what is claimed of the call.
