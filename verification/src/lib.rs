//! File I/O attribution: the wire event exchanged between the kernel-side
//! probes and the user-space aggregator, the bounded path resolver, the
//! decisions of the probe handlers, and the label derivation of the
//! aggregator.

pub mod aggregator;
pub mod cache;
pub mod cmdline;
pub mod device;
pub mod error;
pub mod event;
pub mod event_ext;
pub mod ext;
pub mod fmt;
pub mod fs_type;
pub mod init;
pub mod machine;
pub mod mode;
pub mod mount;
pub mod path;
pub mod path_laws;
pub mod pretty;
pub mod probe;
pub mod size;
pub mod text;
