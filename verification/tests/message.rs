use instar::message::{
    format_message, AmendResultMessage, CapacityMessage, CheckResultMessage, CommitResultMessage,
    CompareResultMessage, CompleteMessage, CreateResultMessage, ErrorMessage, GuestMessage,
    InfoResultMessage, InitMessage, Level, LuksInfo, MapExtentMessage, MapResultMessage,
    MeasureResultMessage, Payload, ProgressMessage, Qcow2Info, RebaseResultMessage,
    ResizeResultMessage, SnapshotEntryMessage, SnapshotResultMessage, VdiInfo, VmdkInfo,
};

fn line(level: Level, payload: Payload) -> String {
    format_message(&GuestMessage { level, payload: Some(payload) })
}

fn t(s: &str) -> String {
    s.to_string()
}

fn info() -> InfoResultMessage {
    InfoResultMessage {
        format: t("qcow2"),
        version: 3,
        virtual_size: 10,
        actual_size: 20,
        cluster_size: 30,
        flags: 0x41,
        backing_file: t(""),
        external_data_file: t(""),
        qcow2_info: Qcow2Info {
            compat: t(""),
            compression_type: t(""),
            lazy_refcounts: false,
            refcount_bits: 0,
            corrupt: false,
            extended_l2: false,
            dirty: false,
            nb_snapshots: 0,
            backing_format: t(""),
        },
        vmdk_info: VmdkInfo { cid: 0, parent_cid: 0, create_type: t("") },
        vdi_info: VdiInfo {
            image_type: 0,
            block_size: 0,
            blocks_in_image: 0,
            blocks_allocated: 0,
            uuid: t(""),
        },
        luks_info: LuksInfo {
            cipher: t(""),
            cipher_mode: t(""),
            hash: t(""),
            uuid: t(""),
            payload_offset: 0,
            master_key_length: 0,
            active_key_slots: 0,
            inner_format: t(""),
            inner_virtual_size: 0,
        },
    }
}

#[test]
fn progress_messages_have_one_line_each() {
    assert_eq!(
        line(
            Level::Debug,
            Payload::Init(InitMessage { stage: t("probe"), device: t("blk0"), address: 0x1000_0000 })
        ),
        "[DEBUG] init stage=probe device=blk0 address=0x10000000"
    );
    assert_eq!(
        line(
            Level::Info,
            Payload::Capacity(CapacityMessage { device: t("blk0"), sectors: 2, bytes: 1024 })
        ),
        "[INFO] capacity device=blk0 sectors=2 bytes=1024"
    );
    assert_eq!(
        line(
            Level::Progress,
            Payload::Progress(ProgressMessage { operation: t("copy"), current: 1, total: 4, percent: 25 })
        ),
        "[PROGRESS] progress op=copy 1/4 (25%)"
    );
    assert_eq!(
        line(
            Level::Error,
            Payload::Error(ErrorMessage { operation: t("read"), device: t("in"), sector: 7, status: 5 })
        ),
        "[ERROR] error op=read device=in sector=7 status=5"
    );
    assert_eq!(
        line(
            Level::Complete,
            Payload::Complete(CompleteMessage { operation: t("copy"), count: 9, success: true })
        ),
        "[COMPLETE] complete op=copy count=9 success=true"
    );
    assert_eq!(
        format_message(&GuestMessage { level: Level::Other, payload: None }),
        "[UNKNOWN] empty payload"
    );
}

#[test]
fn an_image_names_its_files_only_where_it_has_them() {
    let mut m = info();
    assert_eq!(
        line(Level::Info, Payload::InfoResult(m)),
        "[INFO] info_result format=qcow2 version=3 virtual_size=10 actual_size=20 \
         cluster_size=30 flags=0x41"
    );
    m = info();
    m.backing_file = t("base");
    m.external_data_file = t("data");
    assert!(line(Level::Info, Payload::InfoResult(m))
        .ends_with("flags=0x41 backing_file=base external_data_file=data"));
}

#[test]
fn results_have_one_line_each() {
    let check = CheckResultMessage {
        format: t("qcow2"),
        total_errors: 1,
        corruptions: 2,
        leaks: 3,
        refcount_errors: 4,
        chain_errors: 5,
        subcluster_errors: 6,
        clusters_checked: 7,
        clusters_allocated: 8,
        fragmentation: 9,
        image_end_offset: 10,
        repaired_leaks: 11,
        repaired_refcounts: 12,
        repaired_corruptions: 13,
        flags: 0x104,
    };
    assert_eq!(
        line(Level::Info, Payload::CheckResult(check)),
        "[INFO] check_result format=qcow2 errors=1 corruptions=2 leaks=3 flags=0x104"
    );
    let compare = CompareResultMessage {
        identical: false,
        first_mismatch_offset: 512,
        total_bytes_compared: 1024,
        flags: 1,
    };
    assert_eq!(
        line(Level::Info, Payload::CompareResult(compare)),
        "[INFO] compare_result identical=false first_mismatch_offset=512 \
         total_bytes_compared=1024 flags=0x1"
    );
    let measure = MeasureResultMessage {
        target_format: t("qcow2"),
        required: 1,
        fully_allocated: 2,
        resolved_unit_size: 3,
        error: 0,
    };
    assert_eq!(
        line(Level::Info, Payload::MeasureResult(measure)),
        "[INFO] measure_result target_format=qcow2 required=1 fully_allocated=2 \
         resolved_unit_size=3 error=0"
    );
    let create = CreateResultMessage {
        target_format: t("vhdx"),
        resolved_virtual_size: 1,
        metadata_bytes_written: 2,
        file_size_after: 3,
        resolved_unit_size: 4,
        error: 5,
    };
    assert_eq!(
        line(Level::Info, Payload::CreateResult(create)),
        "[INFO] create_result target_format=vhdx resolved_virtual_size=1 \
         metadata_bytes_written=2 file_size_after=3 resolved_unit_size=4 error=5"
    );
    let resize = ResizeResultMessage {
        target_format: t("qcow2"),
        resolved_new_virtual_size: 1,
        file_size_before: 2,
        file_size_after: 3,
        action: t("grow"),
        error: 0,
    };
    assert_eq!(
        line(Level::Info, Payload::ResizeResult(resize)),
        "[INFO] resize_result target_format=qcow2 resolved_new_virtual_size=1 \
         file_size_before=2 file_size_after=3 action=grow error=0"
    );
    let rebase = RebaseResultMessage {
        overlay_format: t("qcow2"),
        mode: t("safe"),
        clusters_copied: 1,
        bytes_copied: 2,
        error: 3,
    };
    assert_eq!(
        line(Level::Info, Payload::RebaseResult(rebase)),
        "[INFO] rebase_result overlay_format=qcow2 mode=safe clusters_copied=1 \
         bytes_copied=2 error=3"
    );
    let amend = AmendResultMessage {
        target_format: t("qcow2"),
        action: 1,
        resulting_version: 3,
        lazy_refcounts: true,
        error: 0,
    };
    assert_eq!(
        line(Level::Info, Payload::AmendResult(amend)),
        "[INFO] amend_result target_format=qcow2 action=1 resulting_version=3 \
         lazy_refcounts=true error=0"
    );
    let commit = CommitResultMessage {
        overlay_format: t("qcow2"),
        backing_format: t("vmdk"),
        clusters_committed: 1,
        bytes_committed: 2,
        overlay_clusters_cleared: 3,
        error: 4,
    };
    assert_eq!(
        line(Level::Info, Payload::CommitResult(commit)),
        "[INFO] commit_result overlay_format=qcow2 backing_format=vmdk clusters_committed=1 \
         bytes_committed=2 overlay_clusters_cleared=3 error=4"
    );
    let extent = MapExtentMessage { start: 1, length: 2, state: t("data"), file_offset: 3 };
    assert_eq!(
        line(Level::Info, Payload::MapExtent(extent)),
        "[INFO] map_extent start=1 length=2 state=data file_offset=3"
    );
    let map = MapResultMessage {
        source_format: t("raw"),
        extents_emitted: 1,
        virtual_size: 2,
        error: 3,
    };
    assert_eq!(
        line(Level::Info, Payload::MapResult(map)),
        "[INFO] map_result source_format=raw extents_emitted=1 virtual_size=2 error=3"
    );
    let entry = SnapshotEntryMessage {
        id: t("1"),
        name: t("n"),
        l1_table_offset: 1,
        l1_size: 2,
        date_sec_hi: 3,
        date_sec_lo: 4,
        date_nsec: 5,
        vm_clock_nsec: 6,
        vm_state_size: 7,
        disk_size: 8,
        icount: 9,
        extra_data_size: 10,
    };
    assert_eq!(
        line(Level::Info, Payload::SnapshotEntry(entry)),
        "[INFO] snapshot_entry id=1 name=n l1_table_offset=1 l1_size=2 date_sec_hi=3 \
         date_sec_lo=4 date_nsec=5 vm_clock_nsec=6 vm_state_size=7 disk_size=8 icount=9 \
         extra_data_size=10"
    );
    let snapshot =
        SnapshotResultMessage { mode: 2, error: 0, snapshots_emitted: 1, assigned_id: t("4") };
    assert_eq!(
        line(Level::Info, Payload::SnapshotResult(snapshot)),
        "[INFO] snapshot_result mode=2 error=0 snapshots_emitted=1 assigned_id=4"
    );
}
