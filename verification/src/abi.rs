//! Numbers the host and the guest binaries agree on: addresses, ports,
//! configuration magics and flags, format codes and result codes.
use vstd::prelude::*;

verus! {

// Guest memory.
pub const GDT_BASE: u64 = 0x1000;
pub const PAGE_TABLE_BASE: u64 = 0x2000;
pub const GUEST_CODE_BASE: u64 = 0x10000;
pub const OPERATION_LOAD_ADDR: u64 = 0x22000;
pub const OPERATION_CONFIG_ADDR: u64 = 0x19000;
pub const STACK_BASE: u64 = 0x100_0000;
pub const STACK_SIZE: u64 = 0x40_0000;
pub const STACK_TOP: u64 = 0x13f_fff8;
pub const DEFAULT_MMIO_BASE: u64 = 0x1000_0000;
pub const MMIO_SIZE: u64 = 0x1000;
pub const VQ_BASE_START: u64 = 0x10_0000;
pub const VQ_SIZE_PER_DEVICE: u64 = 0x1_0000;
pub const DMA_POOL_BASE: u64 = 0x20_0000;
pub const GUEST_MEM_SIZE: u64 = 0x200_0000;
pub const MAX_CHAIN_DEPTH: usize = 16;
pub const MAX_CHAIN_DEVICES: usize = 16;
pub const MAX_SECTOR_SIZE: u32 = 65536;
pub const MAX_CLUSTER_SIZE: usize = 0x20_0000;

// Ports.
pub const SERIAL_PORT: u16 = 0x3f8;
pub const SERIAL_STATUS_PORT: u16 = 0x3fd;
pub const DEBUG_PORT: u16 = 0x2f8;

// Processor state.
pub const CODE_SELECTOR: u16 = 0x08;
pub const DATA_SELECTOR: u16 = 0x10;
pub const CR0_PE: u64 = 0x1;
pub const CR0_PG: u64 = 0x8000_0000;
pub const CR4_PAE: u64 = 0x20;
pub const EFER_LME: u64 = 0x100;
pub const EFER_LMA: u64 = 0x400;
pub const PTE_PRESENT: u64 = 0x1;
pub const PTE_WRITABLE: u64 = 0x2;
pub const PTE_PAGE_SIZE: u64 = 0x80;

// Image formats.
pub const IMAGE_FORMAT_UNKNOWN: u32 = 0;
pub const IMAGE_FORMAT_RAW: u32 = 1;
pub const IMAGE_FORMAT_QCOW2: u32 = 2;
pub const IMAGE_FORMAT_VMDK4: u32 = 3;
pub const IMAGE_FORMAT_VMDK3: u32 = 4;
pub const IMAGE_FORMAT_VHD: u32 = 5;
pub const IMAGE_FORMAT_VHDX: u32 = 6;
pub const IMAGE_FORMAT_QCOW1: u32 = 7;
pub const IMAGE_FORMAT_VDI: u32 = 8;
pub const IMAGE_FORMAT_QED: u32 = 9;
pub const IMAGE_FORMAT_ISO: u32 = 10;
pub const IMAGE_FORMAT_LUKS: u32 = 11;

// Info.
pub const INFO_CONFIG_MAGIC: u32 = 0x494E464F;
pub const INFO_CONFIG_FLAG_DETAILED: u32 = 0x1;
pub const INFO_CONFIG_FLAG_SECURITY_CHECK: u32 = 0x2;
pub const INFO_CONFIG_FLAG_UNSAFE_QUIRKS: u32 = 0x4;
pub const INFO_CONFIG_FLAG_EXTRA_DETAIL: u32 = 0x8;
pub const INFO_CONFIG_FLAG_VERBOSE: u32 = 0x8000_0000;
pub const INFO_RESULT_FLAG_HAS_BACKING_FILE: u32 = 0x1;
pub const INFO_RESULT_FLAG_HAS_EXTERNAL_DATA: u32 = 0x2;
pub const INFO_RESULT_FLAG_ENCRYPTED: u32 = 0x4;
pub const INFO_RESULT_FLAG_COMPRESSED: u32 = 0x8;
pub const INFO_RESULT_FLAG_HAS_SNAPSHOTS: u32 = 0x10;
pub const INFO_RESULT_FLAG_DIRTY: u32 = 0x20;
pub const INFO_RESULT_FLAG_CORRUPT: u32 = 0x40;

// Check.
pub const CHECK_CONFIG_MAGIC: u32 = 0x43484543;
pub const CHECK_CONFIG_FLAG_REPAIR: u32 = 0x1;
pub const CHECK_CONFIG_FLAG_QUIET: u32 = 0x2;
pub const CHECK_CONFIG_FLAG_UNSAFE_QUIRKS: u32 = 0x4;
pub const CHECK_CONFIG_FLAG_CHAIN: u32 = 0x8;
pub const CHECK_CONFIG_FLAG_REPAIR_ALL: u32 = 0x10;
pub const CHECK_CONFIG_FLAG_VERBOSE: u32 = 0x8000_0000;
pub const CHECK_RESULT_FLAG_VALID: u32 = 0x1;
pub const CHECK_RESULT_FLAG_HAS_LEAKS: u32 = 0x2;
pub const CHECK_RESULT_FLAG_HAS_CORRUPTIONS: u32 = 0x4;
pub const CHECK_RESULT_FLAG_DIRTY: u32 = 0x8;
pub const CHECK_RESULT_FLAG_CORRUPT_BIT: u32 = 0x10;
pub const CHECK_RESULT_FLAG_INCOMPLETE: u32 = 0x20;
pub const CHECK_RESULT_FLAG_NOT_SUPPORTED: u32 = 0x40;
pub const CHECK_RESULT_FLAG_REPAIR_INCOMPLETE: u32 = 0x100;

// Copy, compare, convert.
pub const COPY_CONFIG_MAGIC: u32 = 0x434F5059;
pub const COPY_CONFIG_FLAG_VERIFY: u32 = 0x1;
pub const COPY_CONFIG_FLAG_SKIP_ZEROS: u32 = 0x2;
pub const COPY_CONFIG_FLAG_VERBOSE: u32 = 0x8000_0000;
pub const COMPARE_CONFIG_MAGIC: u32 = 0x434D5052;
pub const COMPARE_CONFIG_FLAG_STRICT: u32 = 0x1;
pub const COMPARE_CONFIG_FLAG_QUIET: u32 = 0x2;
pub const COMPARE_CONFIG_FLAG_DECRYPT_AES: u32 = 0x4;
pub const COMPARE_CONFIG_FLAG_VERBOSE: u32 = 0x8000_0000;
pub const COMPARE_RESULT_FLAG_SIZE_MISMATCH: u32 = 0x1;
pub const CONVERT_CONFIG_MAGIC: u32 = 0x434F4E56;
pub const CONVERT_CONFIG_FLAG_SKIP_ZEROS: u32 = 0x1;
pub const CONVERT_CONFIG_FLAG_COMPRESS: u32 = 0x2;
pub const CONVERT_CONFIG_FLAG_DECRYPT_AES: u32 = 0x4;
pub const CONVERT_CONFIG_FLAG_EXTENDED_L2: u32 = 0x8;
pub const CONVERT_CONFIG_FLAG_ENCRYPT_LUKS: u32 = 0x10;
pub const CONVERT_CONFIG_FLAG_VERBOSE: u32 = 0x8000_0000;

// Measure.
pub const MEASURE_CONFIG_MAGIC: u32 = 0x4D454153;
pub const MEASURE_CONFIG_FLAG_EXTENDED_L2: u32 = 0x1;
pub const MEASURE_CONFIG_FLAG_LAZY_REFCOUNTS: u32 = 0x2;
pub const MEASURE_CONFIG_FLAG_COMPAT_V3: u32 = 0x4;
pub const MEASURE_CONFIG_FLAG_COMPRESS: u32 = 0x8;
pub const MEASURE_CONFIG_PREALLOC_OFF: u32 = 0x0;
pub const MEASURE_CONFIG_PREALLOC_METADATA: u32 = 0x10;
pub const MEASURE_CONFIG_PREALLOC_FALLOC: u32 = 0x20;
pub const MEASURE_CONFIG_PREALLOC_FULL: u32 = 0x30;
pub const MEASURE_RESULT_ERROR_OK: u32 = 0;
pub const MEASURE_RESULT_ERROR_OVERFLOW: u32 = 1;
pub const MEASURE_RESULT_ERROR_INVALID_OPTION: u32 = 2;
pub const MEASURE_RESULT_ERROR_INVALID_SIZE: u32 = 3;

// Map.
pub const MAP_CONFIG_MAGIC: u32 = 0x4D41505F;
pub const MAP_CONFIG_FLAG_VERBOSE: u32 = 0x8000_0000;
pub const MAP_RESULT_ERROR_OK: u32 = 0;
pub const MAP_RESULT_ERROR_INVALID_SOURCE: u32 = 1;
pub const MAP_RESULT_ERROR_INVALID_OPTION: u32 = 2;
pub const MAP_RESULT_ERROR_HAS_BACKING: u32 = 3;
pub const MAP_RESULT_ERROR_IO: u32 = 4;

// Snapshot.
pub const SNAPSHOT_CONFIG_MAGIC: u32 = 0x534E4150;
pub const SNAPSHOT_CONFIG_MODE_LIST: u32 = 0;
pub const SNAPSHOT_CONFIG_MODE_APPLY: u32 = 1;
pub const SNAPSHOT_CONFIG_MODE_CREATE: u32 = 2;
pub const SNAPSHOT_CONFIG_MODE_DELETE: u32 = 3;
pub const SNAPSHOT_CONFIG_FLAG_QUIET: u32 = 0x1;
pub const SNAPSHOT_CONFIG_FLAG_FORCE_SHARE: u32 = 0x2;
pub const SNAPSHOT_CONFIG_FLAG_VERBOSE: u32 = 0x8000_0000;
pub const SNAPSHOT_RESULT_ERROR_OK: u32 = 0;
pub const SNAPSHOT_RESULT_ERROR_UNSUPPORTED_FORMAT: u32 = 1;
pub const SNAPSHOT_RESULT_ERROR_UNSUPPORTED_FEATURE: u32 = 2;
pub const SNAPSHOT_RESULT_ERROR_NOT_FOUND: u32 = 3;
pub const SNAPSHOT_RESULT_ERROR_DUPLICATE_NAME: u32 = 4;
pub const SNAPSHOT_RESULT_ERROR_REFCOUNT_OVERFLOW: u32 = 5;
pub const SNAPSHOT_RESULT_ERROR_ALLOCATION_FAILED: u32 = 6;
pub const SNAPSHOT_RESULT_ERROR_SNAPSHOT_TABLE_FULL: u32 = 7;
pub const SNAPSHOT_RESULT_ERROR_IO: u32 = 8;
pub const SNAPSHOT_RESULT_ERROR_L1_SIZE_MISMATCH: u32 = 9;
pub const SNAPSHOT_RESULT_ERROR_INVALID_UTF8: u32 = 10;
pub const SNAPSHOT_RESULT_ERROR_INVALID_CONFIG: u32 = 11;
pub const SNAPSHOT_RESULT_ERROR_PARSE_FAILED: u32 = 12;

// Create.
pub const CREATE_CONFIG_MAGIC: u32 = 0x43524541;
pub const CREATE_CONFIG_FLAG_EXTENDED_L2: u32 = 0x1;
pub const CREATE_CONFIG_FLAG_LAZY_REFCOUNTS: u32 = 0x2;
pub const CREATE_CONFIG_FLAG_COMPAT_V3: u32 = 0x4;
pub const CREATE_CONFIG_FLAG_BACKING_UNSAFE: u32 = 0x8;
pub const CREATE_CONFIG_PREALLOC_OFF: u32 = 0x0;
pub const CREATE_CONFIG_PREALLOC_METADATA: u32 = 0x10;
pub const CREATE_CONFIG_PREALLOC_FALLOC: u32 = 0x20;
pub const CREATE_CONFIG_PREALLOC_FULL: u32 = 0x30;
pub const CREATE_CONFIG_MAX_BACKING_FILE: usize = 1024;
pub const CREATE_RESULT_ERROR_OK: u32 = 0;
pub const CREATE_RESULT_ERROR_INVALID_OPTION: u32 = 1;
pub const CREATE_RESULT_ERROR_INVALID_SIZE: u32 = 2;
pub const CREATE_RESULT_ERROR_SCRATCH_TOO_SMALL: u32 = 3;
pub const CREATE_RESULT_ERROR_BACKING_READ_FAILED: u32 = 4;
pub const CREATE_RESULT_ERROR_BACKING_PARSE_FAILED: u32 = 5;
pub const CREATE_RESULT_ERROR_BACKING_TOO_LONG: u32 = 6;
pub const CREATE_RESULT_ERROR_WRITE_FAILED: u32 = 7;
pub const CREATE_RESULT_ERROR_UNSUPPORTED_FORMAT: u32 = 8;
pub const CREATE_RESULT_ERROR_BACKING_FORMAT_UNSUPPORTED: u32 = 9;
pub const CREATE_RESULT_ERROR_BACKING_SIZE_TOO_LARGE: u32 = 10;

// Resize, rebase, commit.
pub const RESIZE_CONFIG_MAGIC: u32 = 0x52455349;
pub const RESIZE_CONFIG_FLAG_SHRINK: u32 = 0x1;
pub const RESIZE_CONFIG_FLAG_EXTENDED_L2: u32 = 0x2;
pub const RESIZE_CONFIG_FLAG_QUIET: u32 = 0x4;
pub const RESIZE_CONFIG_PREALLOC_OFF: u32 = 0x0;
pub const RESIZE_CONFIG_PREALLOC_METADATA: u32 = 0x10;
pub const RESIZE_CONFIG_PREALLOC_FALLOC: u32 = 0x20;
pub const RESIZE_CONFIG_PREALLOC_FULL: u32 = 0x30;
pub const RESIZE_RESULT_ACTION_NOOP: u32 = 0;
pub const RESIZE_RESULT_ACTION_GROW: u32 = 1;
pub const RESIZE_RESULT_ACTION_SHRINK: u32 = 2;
pub const RESIZE_RESULT_ERROR_OK: u32 = 0;
pub const RESIZE_RESULT_ERROR_INVALID_OPTION: u32 = 1;
pub const RESIZE_RESULT_ERROR_INVALID_NEW_SIZE: u32 = 2;
pub const RESIZE_RESULT_ERROR_SHRINK_WITHOUT_FLAG: u32 = 3;
pub const RESIZE_RESULT_ERROR_SHRINK_BELOW_ALLOCATED: u32 = 4;
pub const RESIZE_RESULT_ERROR_UNSUPPORTED_FORMAT: u32 = 5;
pub const RESIZE_RESULT_ERROR_UNSUPPORTED_SUBFORMAT: u32 = 6;
pub const RESIZE_RESULT_ERROR_UNSUPPORTED_SHRINK: u32 = 7;
pub const RESIZE_RESULT_ERROR_PREALLOCATION_UNSUPPORTED: u32 = 8;
pub const RESIZE_RESULT_ERROR_SCRATCH_TOO_SMALL: u32 = 9;
pub const RESIZE_RESULT_ERROR_READ_FAILED: u32 = 10;
pub const RESIZE_RESULT_ERROR_WRITE_FAILED: u32 = 11;
pub const RESIZE_RESULT_ERROR_PARSE_FAILED: u32 = 12;
pub const RESIZE_RESULT_ERROR_HEADER_MISMATCH: u32 = 13;
pub const REBASE_CONFIG_MAGIC: u32 = 0x52454241;
pub const REBASE_CONFIG_FLAG_UNSAFE: u32 = 0x1;
pub const REBASE_CONFIG_FLAG_QUIET: u32 = 0x2;
pub const REBASE_CONFIG_FLAG_DETACH: u32 = 0x4;
pub const REBASE_CONFIG_MAX_BACKING: usize = 1024;
pub const REBASE_RESULT_ERROR_OK: u32 = 0;
pub const REBASE_RESULT_ERROR_UNSUPPORTED_FORMAT: u32 = 1;
pub const REBASE_RESULT_ERROR_NEW_BACKING_INCOMPATIBLE: u32 = 2;
pub const REBASE_RESULT_ERROR_EXTERNAL_DATA_FILE: u32 = 3;
pub const REBASE_RESULT_ERROR_LUKS_UNSUPPORTED: u32 = 4;
pub const REBASE_RESULT_ERROR_CHAIN_DEPTH: u32 = 5;
pub const REBASE_RESULT_ERROR_HEADER_MISMATCH: u32 = 6;
pub const REBASE_RESULT_ERROR_OVERLAY_CORRUPT: u32 = 7;
pub const REBASE_RESULT_ERROR_BACKING_PATH_TOO_LONG: u32 = 8;
pub const REBASE_RESULT_ERROR_SCRATCH_TOO_SMALL: u32 = 9;
pub const REBASE_RESULT_ERROR_REFCOUNT_EXHAUSTED: u32 = 10;
pub const REBASE_RESULT_ERROR_DESCRIPTOR_TOO_LARGE: u32 = 11;
pub const REBASE_RESULT_ERROR_PARSE_FAILED: u32 = 12;
pub const REBASE_RESULT_ERROR_INTERNAL_OVERFLOW: u32 = 13;
pub const COMMIT_CONFIG_MAGIC: u32 = 0x434F4D4D;
pub const COMMIT_CONFIG_FLAG_QUIET: u32 = 0x1;
pub const COMMIT_RESULT_ERROR_OK: u32 = 0;
pub const COMMIT_RESULT_ERROR_UNSUPPORTED_FORMAT: u32 = 1;
pub const COMMIT_RESULT_ERROR_NO_BACKING: u32 = 2;
pub const COMMIT_RESULT_ERROR_EXTERNAL_DATA_FILE: u32 = 3;
pub const COMMIT_RESULT_ERROR_LUKS_UNSUPPORTED: u32 = 4;
pub const COMMIT_RESULT_ERROR_BACKING_TOO_SMALL: u32 = 5;
pub const COMMIT_RESULT_ERROR_OVERLAY_LARGER_THAN_BACKING: u32 = 6;
pub const COMMIT_RESULT_ERROR_HEADER_MISMATCH: u32 = 7;
pub const COMMIT_RESULT_ERROR_OVERLAY_CORRUPT: u32 = 8;
pub const COMMIT_RESULT_ERROR_BACKING_CORRUPT: u32 = 9;
pub const COMMIT_RESULT_ERROR_SCRATCH_TOO_SMALL: u32 = 10;
pub const COMMIT_RESULT_ERROR_REFCOUNT_EXHAUSTED: u32 = 11;
pub const COMMIT_RESULT_ERROR_PARSE_FAILED: u32 = 12;
pub const COMMIT_RESULT_ERROR_INTERNAL_OVERFLOW: u32 = 13;

// Amend.
pub const AMEND_CONFIG_MAGIC: u32 = 0x414D4E44;
pub const AMEND_CONFIG_FLAG_SET_COMPAT: u32 = 0x1;
pub const AMEND_CONFIG_FLAG_COMPAT_V3: u32 = 0x2;
pub const AMEND_CONFIG_FLAG_SET_LAZY: u32 = 0x4;
pub const AMEND_CONFIG_FLAG_LAZY_ON: u32 = 0x8;
pub const AMEND_CONFIG_FLAG_QUIET: u32 = 0x10;
pub const AMEND_RESULT_ACTION_NOOP: u32 = 0;
pub const AMEND_RESULT_ACTION_AMENDED: u32 = 1;
pub const AMEND_RESULT_ERROR_OK: u32 = 0;
pub const AMEND_RESULT_ERROR_UNSUPPORTED_FORMAT: u32 = 1;
pub const AMEND_RESULT_ERROR_INVALID_OPTION: u32 = 2;
pub const AMEND_RESULT_ERROR_DOWNGRADE_BLOCKED_FEATURE: u32 = 3;
pub const AMEND_RESULT_ERROR_DOWNGRADE_REFCOUNT_WIDTH: u32 = 4;
pub const AMEND_RESULT_ERROR_LAZY_REQUIRES_V3: u32 = 5;
pub const AMEND_RESULT_ERROR_HEADER_MISMATCH: u32 = 6;
pub const AMEND_RESULT_ERROR_PARSE_FAILED: u32 = 7;
pub const AMEND_RESULT_ERROR_DIRTY: u32 = 8;
pub const AMEND_RESULT_ERROR_EXTENSION_RELOCATION_UNSUPPORTED: u32 = 9;
pub const AMEND_RESULT_ERROR_SCRATCH_TOO_SMALL: u32 = 10;
pub const AMEND_RESULT_ERROR_WRITE_FAILED: u32 = 11;
pub const AMEND_RESULT_ERROR_INTERNAL_OVERFLOW: u32 = 12;

// Chain description.
pub const CHAIN_CONFIG_MAGIC: u32 = 0x4348414E;
pub const CHAIN_CONFIG_VERSION: u32 = 2;

} // verus!
