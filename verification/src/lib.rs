//! Verified logic of a sandbox shim: durable lifecycle records, Host cgroup
//! transactions, sandbox and VMM worker state machines.
pub mod cri;
pub mod digest;
pub mod text;
pub mod identity;
pub mod target;
pub mod laws;
pub mod host_cleanup;
pub mod lifecycle;
pub mod observe;
pub mod operation;
pub mod paths;
pub mod pci;
pub mod persist;
pub mod placement;
pub mod prepare;
pub mod procfs;
pub mod publish;
pub mod queues;
pub mod record;
pub mod bootstrap;
pub mod ceiling;
pub mod claim;
pub mod cleanup;
pub mod controllers;
pub mod replay;
pub mod forward;
pub mod rollback;
pub mod recovery;
pub mod scanner;
pub mod session;
pub mod scope;
pub mod sockets;
pub mod watchdog;
pub mod worker_protocol;
pub mod vm_config;
pub mod vm_fds;
pub mod worker_server;
pub mod worker_client;
pub mod fingerprint;
pub mod rpc;
pub mod sandbox;
pub mod tasks;
pub mod teardown;
pub mod clock;
pub mod sandbox_spec;
pub mod start_flow;
pub mod create_flow;
