//! Host-side logic of a sandboxed disk image tool.
pub mod abi;
pub mod amend;
pub mod boot;
pub mod bytes;
pub mod capacity;
pub mod chain;
pub mod check;
pub mod commit;
pub mod compare;
pub mod convert;
pub mod copy;
pub mod create;
pub mod create_options;
pub mod device;
pub mod formats;
pub mod info;
pub mod info_report;
pub mod json;
pub mod limits;
pub mod luks;
pub mod map;
pub mod map_report;
pub mod measure;
pub mod measure_options;
pub mod message;
pub mod options;
pub mod passphrase;
pub mod paths;
pub mod preallocation;
pub mod rebase;
pub mod resize;
pub mod result_report;
pub mod rounding;
pub mod serial;
pub mod settings;
pub mod size;
pub mod snapshot;
pub mod snapshot_report;
pub mod stats;
pub mod text;
pub mod vm;
