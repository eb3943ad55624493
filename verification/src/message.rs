//! The messages a guest sends over the serial line, as plain values, and the
//! line the log prints for each.
use vstd::prelude::*;
use crate::text::{
    dec, hex, holds_part, lemma_first_part, lemma_last_part, lemma_part_stays, lemma_tail_part, opt,
    push_dec, push_hex, push_if, truth, truth_word,
};

verus! {

/// How urgent a guest's message is.
#[derive(Debug, Clone, Copy, PartialEq, Eq, Structural)]
pub enum Level {
    Debug,
    Info,
    Progress,
    Error,
    Complete,
    Other,
}

/// A step of the guest's start-up.
#[derive(Debug)]
pub struct InitMessage {
    pub stage: String,
    pub device: String,
    pub address: u64,
}

/// The size of an attached device.
#[derive(Debug)]
pub struct CapacityMessage {
    pub device: String,
    pub sectors: u64,
    pub bytes: u64,
}

/// How far an operation has come.
#[derive(Debug)]
pub struct ProgressMessage {
    pub operation: String,
    pub current: u64,
    pub total: u64,
    pub percent: u32,
}

/// A failed device access.
#[derive(Debug)]
pub struct ErrorMessage {
    pub operation: String,
    pub device: String,
    pub sector: u64,
    pub status: u32,
}

/// The end of an operation.
#[derive(Debug)]
pub struct CompleteMessage {
    pub operation: String,
    pub count: u64,
    pub success: bool,
}

/// The part of an info result that only qcow2 images have.
#[derive(Debug)]
pub struct Qcow2Info {
    pub compat: String,
    pub compression_type: String,
    pub lazy_refcounts: bool,
    pub refcount_bits: u32,
    pub corrupt: bool,
    pub extended_l2: bool,
    pub dirty: bool,
    pub nb_snapshots: u32,
    pub backing_format: String,
}

/// The part of an info result that only VMDK images have.
#[derive(Debug)]
pub struct VmdkInfo {
    pub cid: u32,
    pub parent_cid: u32,
    pub create_type: String,
}

/// The part of an info result that only VDI images have.
#[derive(Debug)]
pub struct VdiInfo {
    pub image_type: u32,
    pub block_size: u32,
    pub blocks_in_image: u32,
    pub blocks_allocated: u32,
    pub uuid: String,
}

/// The part of an info result that only LUKS images have.
#[derive(Debug)]
pub struct LuksInfo {
    pub cipher: String,
    pub cipher_mode: String,
    pub hash: String,
    pub uuid: String,
    pub payload_offset: u64,
    pub master_key_length: u32,
    pub active_key_slots: u32,
    pub inner_format: String,
    pub inner_virtual_size: u64,
}

/// What the guest found out about an image.
#[derive(Debug)]
pub struct InfoResultMessage {
    pub format: String,
    pub version: u32,
    pub virtual_size: u64,
    pub actual_size: u64,
    pub cluster_size: u32,
    pub flags: u32,
    pub backing_file: String,
    pub external_data_file: String,
    pub qcow2_info: Qcow2Info,
    pub vmdk_info: VmdkInfo,
    pub vdi_info: VdiInfo,
    pub luks_info: LuksInfo,
}

/// What a consistency check found.
#[derive(Debug)]
pub struct CheckResultMessage {
    pub format: String,
    pub total_errors: u64,
    pub corruptions: u64,
    pub leaks: u64,
    pub refcount_errors: u64,
    pub chain_errors: u64,
    pub subcluster_errors: u64,
    pub clusters_checked: u64,
    pub clusters_allocated: u64,
    pub fragmentation: u64,
    pub image_end_offset: u64,
    pub repaired_leaks: u64,
    pub repaired_refcounts: u64,
    pub repaired_corruptions: u64,
    pub flags: u32,
}

/// What a comparison of two images found.
#[derive(Debug)]
pub struct CompareResultMessage {
    pub identical: bool,
    pub first_mismatch_offset: u64,
    pub total_bytes_compared: u64,
    pub flags: u32,
}

/// The predicted size of a converted image.
#[derive(Debug)]
pub struct MeasureResultMessage {
    pub target_format: String,
    pub required: u64,
    pub fully_allocated: u64,
    pub resolved_unit_size: u32,
    pub error: u32,
}

/// What creating an image came to.
#[derive(Debug)]
pub struct CreateResultMessage {
    pub target_format: String,
    pub resolved_virtual_size: u64,
    pub metadata_bytes_written: u64,
    pub file_size_after: u64,
    pub resolved_unit_size: u32,
    pub error: u32,
}

/// What resizing an image came to.
#[derive(Debug)]
pub struct ResizeResultMessage {
    pub target_format: String,
    pub resolved_new_virtual_size: u64,
    pub file_size_before: u64,
    pub file_size_after: u64,
    pub action: String,
    pub error: u32,
}

/// What changing a backing reference came to.
#[derive(Debug)]
pub struct RebaseResultMessage {
    pub overlay_format: String,
    pub mode: String,
    pub clusters_copied: u64,
    pub bytes_copied: u64,
    pub error: u32,
}

/// What amending an image came to.
#[derive(Debug)]
pub struct AmendResultMessage {
    pub target_format: String,
    pub action: u32,
    pub resulting_version: u32,
    pub lazy_refcounts: bool,
    pub error: u32,
}

/// What committing an overlay came to.
#[derive(Debug)]
pub struct CommitResultMessage {
    pub overlay_format: String,
    pub backing_format: String,
    pub clusters_committed: u64,
    pub bytes_committed: u64,
    pub overlay_clusters_cleared: u64,
    pub error: u32,
}

/// One extent of an allocation map.
#[derive(Debug)]
pub struct MapExtentMessage {
    pub start: u64,
    pub length: u64,
    pub state: String,
    pub file_offset: u64,
}

/// The end of an allocation map.
#[derive(Debug)]
pub struct MapResultMessage {
    pub source_format: String,
    pub extents_emitted: u64,
    pub virtual_size: u64,
    pub error: u32,
}

/// One entry of a snapshot table.
#[derive(Debug)]
pub struct SnapshotEntryMessage {
    pub id: String,
    pub name: String,
    pub l1_table_offset: u64,
    pub l1_size: u32,
    pub date_sec_hi: u32,
    pub date_sec_lo: u32,
    pub date_nsec: u32,
    pub vm_clock_nsec: u64,
    pub vm_state_size: u64,
    pub disk_size: u64,
    pub icount: u64,
    pub extra_data_size: u32,
}

/// The end of a snapshot operation.
#[derive(Debug)]
pub struct SnapshotResultMessage {
    pub mode: u32,
    pub error: u32,
    pub snapshots_emitted: u32,
    pub assigned_id: String,
}

/// What a message is about.
#[derive(Debug)]
pub enum Payload {
    Init(InitMessage),
    Capacity(CapacityMessage),
    Progress(ProgressMessage),
    Error(ErrorMessage),
    Complete(CompleteMessage),
    InfoResult(InfoResultMessage),
    CheckResult(CheckResultMessage),
    CompareResult(CompareResultMessage),
    MeasureResult(MeasureResultMessage),
    CreateResult(CreateResultMessage),
    ResizeResult(ResizeResultMessage),
    RebaseResult(RebaseResultMessage),
    AmendResult(AmendResultMessage),
    CommitResult(CommitResultMessage),
    MapExtent(MapExtentMessage),
    MapResult(MapResultMessage),
    SnapshotEntry(SnapshotEntryMessage),
    SnapshotResult(SnapshotResultMessage),
}

/// A message of a guest.
#[derive(Debug)]
pub struct GuestMessage {
    pub level: Level,
    pub payload: Option<Payload>,
}

/// The name of a level.
pub open spec fn level_name(level: Level) -> Seq<char> {
    match level {
        Level::Debug => "DEBUG"@,
        Level::Info => "INFO"@,
        Level::Progress => "PROGRESS"@,
        Level::Error => "ERROR"@,
        Level::Complete => "COMPLETE"@,
        Level::Other => "UNKNOWN"@,
    }
}

fn format_level(level: Level) -> (r: &'static str)
    ensures
        r@ == level_name(level),
{
    match level {
        Level::Debug => "DEBUG",
        Level::Info => "INFO",
        Level::Progress => "PROGRESS",
        Level::Error => "ERROR",
        Level::Complete => "COMPLETE",
        Level::Other => "UNKNOWN",
    }
}

/// The log text of an init message.
pub open spec fn init_text(m: InitMessage) -> Seq<char> {
    "init stage="@
        + m.stage@
        + " device="@
        + m.device@
        + " address=0x"@
        + hex(m.address as int)
}

fn format_init(m: &InitMessage) -> (r: String)
    ensures
        r@ == init_text(*m),
{
    let mut s = "init stage=".to_owned();
    s.append(m.stage.as_str());
    s.append(" device=");
    s.append(m.device.as_str());
    s.append(" address=0x");
    push_hex(&mut s, m.address);
    s
}

/// The log text of a capacity message.
pub open spec fn capacity_text(m: CapacityMessage) -> Seq<char> {
    "capacity device="@
        + m.device@
        + " sectors="@
        + dec(m.sectors as int)
        + " bytes="@
        + dec(m.bytes as int)
}

fn format_capacity(m: &CapacityMessage) -> (r: String)
    ensures
        r@ == capacity_text(*m),
{
    let mut s = "capacity device=".to_owned();
    s.append(m.device.as_str());
    s.append(" sectors=");
    push_dec(&mut s, m.sectors);
    s.append(" bytes=");
    push_dec(&mut s, m.bytes);
    s
}

/// The log text of a progress message.
pub open spec fn progress_text(m: ProgressMessage) -> Seq<char> {
    "progress op="@
        + m.operation@
        + " "@
        + dec(m.current as int)
        + "/"@
        + dec(m.total as int)
        + " ("@
        + dec(m.percent as int)
        + "%)"@
}

fn format_progress(m: &ProgressMessage) -> (r: String)
    ensures
        r@ == progress_text(*m),
{
    let mut s = "progress op=".to_owned();
    s.append(m.operation.as_str());
    s.append(" ");
    push_dec(&mut s, m.current);
    s.append("/");
    push_dec(&mut s, m.total);
    s.append(" (");
    push_dec(&mut s, m.percent as u64);
    s.append("%)");
    s
}

/// The log text of an error message.
pub open spec fn error_text(m: ErrorMessage) -> Seq<char> {
    "error op="@
        + m.operation@
        + " device="@
        + m.device@
        + " sector="@
        + dec(m.sector as int)
        + " status="@
        + dec(m.status as int)
}

fn format_error(m: &ErrorMessage) -> (r: String)
    ensures
        r@ == error_text(*m),
{
    let mut s = "error op=".to_owned();
    s.append(m.operation.as_str());
    s.append(" device=");
    s.append(m.device.as_str());
    s.append(" sector=");
    push_dec(&mut s, m.sector);
    s.append(" status=");
    push_dec(&mut s, m.status as u64);
    s
}

/// The log text of a complete message.
pub open spec fn complete_text(m: CompleteMessage) -> Seq<char> {
    "complete op="@
        + m.operation@
        + " count="@
        + dec(m.count as int)
        + " success="@
        + truth(m.success)
}

fn format_complete(m: &CompleteMessage) -> (r: String)
    ensures
        r@ == complete_text(*m),
{
    let mut s = "complete op=".to_owned();
    s.append(m.operation.as_str());
    s.append(" count=");
    push_dec(&mut s, m.count);
    s.append(" success=");
    s.append(truth_word(m.success));
    s
}

/// The log text of an info result.
pub open spec fn info_result_text(m: InfoResultMessage) -> Seq<char> {
    "info_result format="@ + m.format@ + " version="@ + dec(m.version as int) + " virtual_size="@
        + dec(m.virtual_size as int) + " actual_size="@ + dec(m.actual_size as int)
        + " cluster_size="@ + dec(m.cluster_size as int) + " flags=0x"@ + hex(m.flags as int)
        + opt(m.backing_file@.len() > 0, " backing_file="@ + m.backing_file@)
        + opt(m.external_data_file@.len() > 0, " external_data_file="@ + m.external_data_file@)
}

fn format_info_result(m: &InfoResultMessage) -> (r: String)
    ensures
        r@ == info_result_text(*m),
{
    let mut s = "info_result format=".to_owned();
    s.append(m.format.as_str());
    s.append(" version=");
    push_dec(&mut s, m.version as u64);
    s.append(" virtual_size=");
    push_dec(&mut s, m.virtual_size);
    s.append(" actual_size=");
    push_dec(&mut s, m.actual_size);
    s.append(" cluster_size=");
    push_dec(&mut s, m.cluster_size as u64);
    s.append(" flags=0x");
    push_hex(&mut s, m.flags as u64);
    let backing = " backing_file=".to_owned().concat(m.backing_file.as_str());
    push_if(&mut s, !m.backing_file.as_str().is_empty(), backing.as_str());
    let data = " external_data_file=".to_owned().concat(m.external_data_file.as_str());
    push_if(&mut s, !m.external_data_file.as_str().is_empty(), data.as_str());
    s
}

/// The log text of a check result.
pub open spec fn check_result_text(m: CheckResultMessage) -> Seq<char> {
    "check_result format="@
        + m.format@
        + " errors="@
        + dec(m.total_errors as int)
        + " corruptions="@
        + dec(m.corruptions as int)
        + " leaks="@
        + dec(m.leaks as int)
        + " flags=0x"@
        + hex(m.flags as int)
}

fn format_check_result(m: &CheckResultMessage) -> (r: String)
    ensures
        r@ == check_result_text(*m),
{
    let mut s = "check_result format=".to_owned();
    s.append(m.format.as_str());
    s.append(" errors=");
    push_dec(&mut s, m.total_errors);
    s.append(" corruptions=");
    push_dec(&mut s, m.corruptions);
    s.append(" leaks=");
    push_dec(&mut s, m.leaks);
    s.append(" flags=0x");
    push_hex(&mut s, m.flags as u64);
    s
}

/// The log text of a compare result.
pub open spec fn compare_result_text(m: CompareResultMessage) -> Seq<char> {
    "compare_result identical="@
        + truth(m.identical)
        + " first_mismatch_offset="@
        + dec(m.first_mismatch_offset as int)
        + " total_bytes_compared="@
        + dec(m.total_bytes_compared as int)
        + " flags=0x"@
        + hex(m.flags as int)
}

fn format_compare_result(m: &CompareResultMessage) -> (r: String)
    ensures
        r@ == compare_result_text(*m),
{
    let mut s = "compare_result identical=".to_owned();
    s.append(truth_word(m.identical));
    s.append(" first_mismatch_offset=");
    push_dec(&mut s, m.first_mismatch_offset);
    s.append(" total_bytes_compared=");
    push_dec(&mut s, m.total_bytes_compared);
    s.append(" flags=0x");
    push_hex(&mut s, m.flags as u64);
    s
}

/// The log text of a measure result.
pub open spec fn measure_result_text(m: MeasureResultMessage) -> Seq<char> {
    "measure_result target_format="@
        + m.target_format@
        + " required="@
        + dec(m.required as int)
        + " fully_allocated="@
        + dec(m.fully_allocated as int)
        + " resolved_unit_size="@
        + dec(m.resolved_unit_size as int)
        + " error="@
        + dec(m.error as int)
}

fn format_measure_result(m: &MeasureResultMessage) -> (r: String)
    ensures
        r@ == measure_result_text(*m),
{
    let mut s = "measure_result target_format=".to_owned();
    s.append(m.target_format.as_str());
    s.append(" required=");
    push_dec(&mut s, m.required);
    s.append(" fully_allocated=");
    push_dec(&mut s, m.fully_allocated);
    s.append(" resolved_unit_size=");
    push_dec(&mut s, m.resolved_unit_size as u64);
    s.append(" error=");
    push_dec(&mut s, m.error as u64);
    s
}

/// The log text of a create result.
pub open spec fn create_result_text(m: CreateResultMessage) -> Seq<char> {
    "create_result target_format="@
        + m.target_format@
        + " resolved_virtual_size="@
        + dec(m.resolved_virtual_size as int)
        + " metadata_bytes_written="@
        + dec(m.metadata_bytes_written as int)
        + " file_size_after="@
        + dec(m.file_size_after as int)
        + " resolved_unit_size="@
        + dec(m.resolved_unit_size as int)
        + " error="@
        + dec(m.error as int)
}

fn format_create_result(m: &CreateResultMessage) -> (r: String)
    ensures
        r@ == create_result_text(*m),
{
    let mut s = "create_result target_format=".to_owned();
    s.append(m.target_format.as_str());
    s.append(" resolved_virtual_size=");
    push_dec(&mut s, m.resolved_virtual_size);
    s.append(" metadata_bytes_written=");
    push_dec(&mut s, m.metadata_bytes_written);
    s.append(" file_size_after=");
    push_dec(&mut s, m.file_size_after);
    s.append(" resolved_unit_size=");
    push_dec(&mut s, m.resolved_unit_size as u64);
    s.append(" error=");
    push_dec(&mut s, m.error as u64);
    s
}

/// The log text of a resize result.
pub open spec fn resize_result_text(m: ResizeResultMessage) -> Seq<char> {
    "resize_result target_format="@
        + m.target_format@
        + " resolved_new_virtual_size="@
        + dec(m.resolved_new_virtual_size as int)
        + " file_size_before="@
        + dec(m.file_size_before as int)
        + " file_size_after="@
        + dec(m.file_size_after as int)
        + " action="@
        + m.action@
        + " error="@
        + dec(m.error as int)
}

fn format_resize_result(m: &ResizeResultMessage) -> (r: String)
    ensures
        r@ == resize_result_text(*m),
{
    let mut s = "resize_result target_format=".to_owned();
    s.append(m.target_format.as_str());
    s.append(" resolved_new_virtual_size=");
    push_dec(&mut s, m.resolved_new_virtual_size);
    s.append(" file_size_before=");
    push_dec(&mut s, m.file_size_before);
    s.append(" file_size_after=");
    push_dec(&mut s, m.file_size_after);
    s.append(" action=");
    s.append(m.action.as_str());
    s.append(" error=");
    push_dec(&mut s, m.error as u64);
    s
}

/// The log text of a rebase result.
pub open spec fn rebase_result_text(m: RebaseResultMessage) -> Seq<char> {
    "rebase_result overlay_format="@
        + m.overlay_format@
        + " mode="@
        + m.mode@
        + " clusters_copied="@
        + dec(m.clusters_copied as int)
        + " bytes_copied="@
        + dec(m.bytes_copied as int)
        + " error="@
        + dec(m.error as int)
}

fn format_rebase_result(m: &RebaseResultMessage) -> (r: String)
    ensures
        r@ == rebase_result_text(*m),
{
    let mut s = "rebase_result overlay_format=".to_owned();
    s.append(m.overlay_format.as_str());
    s.append(" mode=");
    s.append(m.mode.as_str());
    s.append(" clusters_copied=");
    push_dec(&mut s, m.clusters_copied);
    s.append(" bytes_copied=");
    push_dec(&mut s, m.bytes_copied);
    s.append(" error=");
    push_dec(&mut s, m.error as u64);
    s
}

/// The log text of an amend result.
pub open spec fn amend_result_text(m: AmendResultMessage) -> Seq<char> {
    "amend_result target_format="@
        + m.target_format@
        + " action="@
        + dec(m.action as int)
        + " resulting_version="@
        + dec(m.resulting_version as int)
        + " lazy_refcounts="@
        + truth(m.lazy_refcounts)
        + " error="@
        + dec(m.error as int)
}

fn format_amend_result(m: &AmendResultMessage) -> (r: String)
    ensures
        r@ == amend_result_text(*m),
{
    let mut s = "amend_result target_format=".to_owned();
    s.append(m.target_format.as_str());
    s.append(" action=");
    push_dec(&mut s, m.action as u64);
    s.append(" resulting_version=");
    push_dec(&mut s, m.resulting_version as u64);
    s.append(" lazy_refcounts=");
    s.append(truth_word(m.lazy_refcounts));
    s.append(" error=");
    push_dec(&mut s, m.error as u64);
    s
}

/// The log text of a commit result.
pub open spec fn commit_result_text(m: CommitResultMessage) -> Seq<char> {
    "commit_result overlay_format="@
        + m.overlay_format@
        + " backing_format="@
        + m.backing_format@
        + " clusters_committed="@
        + dec(m.clusters_committed as int)
        + " bytes_committed="@
        + dec(m.bytes_committed as int)
        + " overlay_clusters_cleared="@
        + dec(m.overlay_clusters_cleared as int)
        + " error="@
        + dec(m.error as int)
}

fn format_commit_result(m: &CommitResultMessage) -> (r: String)
    ensures
        r@ == commit_result_text(*m),
{
    let mut s = "commit_result overlay_format=".to_owned();
    s.append(m.overlay_format.as_str());
    s.append(" backing_format=");
    s.append(m.backing_format.as_str());
    s.append(" clusters_committed=");
    push_dec(&mut s, m.clusters_committed);
    s.append(" bytes_committed=");
    push_dec(&mut s, m.bytes_committed);
    s.append(" overlay_clusters_cleared=");
    push_dec(&mut s, m.overlay_clusters_cleared);
    s.append(" error=");
    push_dec(&mut s, m.error as u64);
    s
}

/// The log text of a map extent.
pub open spec fn map_extent_text(m: MapExtentMessage) -> Seq<char> {
    "map_extent start="@
        + dec(m.start as int)
        + " length="@
        + dec(m.length as int)
        + " state="@
        + m.state@
        + " file_offset="@
        + dec(m.file_offset as int)
}

fn format_map_extent(m: &MapExtentMessage) -> (r: String)
    ensures
        r@ == map_extent_text(*m),
{
    let mut s = "map_extent start=".to_owned();
    push_dec(&mut s, m.start);
    s.append(" length=");
    push_dec(&mut s, m.length);
    s.append(" state=");
    s.append(m.state.as_str());
    s.append(" file_offset=");
    push_dec(&mut s, m.file_offset);
    s
}

/// The log text of a map result.
pub open spec fn map_result_text(m: MapResultMessage) -> Seq<char> {
    "map_result source_format="@
        + m.source_format@
        + " extents_emitted="@
        + dec(m.extents_emitted as int)
        + " virtual_size="@
        + dec(m.virtual_size as int)
        + " error="@
        + dec(m.error as int)
}

fn format_map_result(m: &MapResultMessage) -> (r: String)
    ensures
        r@ == map_result_text(*m),
{
    let mut s = "map_result source_format=".to_owned();
    s.append(m.source_format.as_str());
    s.append(" extents_emitted=");
    push_dec(&mut s, m.extents_emitted);
    s.append(" virtual_size=");
    push_dec(&mut s, m.virtual_size);
    s.append(" error=");
    push_dec(&mut s, m.error as u64);
    s
}

/// The log text of a snapshot entry.
pub open spec fn snapshot_entry_text(m: SnapshotEntryMessage) -> Seq<char> {
    "snapshot_entry id="@
        + m.id@
        + " name="@
        + m.name@
        + " l1_table_offset="@
        + dec(m.l1_table_offset as int)
        + " l1_size="@
        + dec(m.l1_size as int)
        + " date_sec_hi="@
        + dec(m.date_sec_hi as int)
        + " date_sec_lo="@
        + dec(m.date_sec_lo as int)
        + " date_nsec="@
        + dec(m.date_nsec as int)
        + " vm_clock_nsec="@
        + dec(m.vm_clock_nsec as int)
        + " vm_state_size="@
        + dec(m.vm_state_size as int)
        + " disk_size="@
        + dec(m.disk_size as int)
        + " icount="@
        + dec(m.icount as int)
        + " extra_data_size="@
        + dec(m.extra_data_size as int)
}

fn format_snapshot_entry(m: &SnapshotEntryMessage) -> (r: String)
    ensures
        r@ == snapshot_entry_text(*m),
{
    let mut s = "snapshot_entry id=".to_owned();
    s.append(m.id.as_str());
    s.append(" name=");
    s.append(m.name.as_str());
    s.append(" l1_table_offset=");
    push_dec(&mut s, m.l1_table_offset);
    s.append(" l1_size=");
    push_dec(&mut s, m.l1_size as u64);
    s.append(" date_sec_hi=");
    push_dec(&mut s, m.date_sec_hi as u64);
    s.append(" date_sec_lo=");
    push_dec(&mut s, m.date_sec_lo as u64);
    s.append(" date_nsec=");
    push_dec(&mut s, m.date_nsec as u64);
    s.append(" vm_clock_nsec=");
    push_dec(&mut s, m.vm_clock_nsec);
    s.append(" vm_state_size=");
    push_dec(&mut s, m.vm_state_size);
    s.append(" disk_size=");
    push_dec(&mut s, m.disk_size);
    s.append(" icount=");
    push_dec(&mut s, m.icount);
    s.append(" extra_data_size=");
    push_dec(&mut s, m.extra_data_size as u64);
    s
}

/// The log text of a snapshot result.
pub open spec fn snapshot_result_text(m: SnapshotResultMessage) -> Seq<char> {
    "snapshot_result mode="@
        + dec(m.mode as int)
        + " error="@
        + dec(m.error as int)
        + " snapshots_emitted="@
        + dec(m.snapshots_emitted as int)
        + " assigned_id="@
        + m.assigned_id@
}

fn format_snapshot_result(m: &SnapshotResultMessage) -> (r: String)
    ensures
        r@ == snapshot_result_text(*m),
{
    let mut s = "snapshot_result mode=".to_owned();
    push_dec(&mut s, m.mode as u64);
    s.append(" error=");
    push_dec(&mut s, m.error as u64);
    s.append(" snapshots_emitted=");
    push_dec(&mut s, m.snapshots_emitted as u64);
    s.append(" assigned_id=");
    s.append(m.assigned_id.as_str());
    s
}

/// The log text of a payload.
pub open spec fn payload_text(p: Option<Payload>) -> Seq<char> {
    match p {
        None => "empty payload"@,
        Some(Payload::Init(m)) => init_text(m),
        Some(Payload::Capacity(m)) => capacity_text(m),
        Some(Payload::Progress(m)) => progress_text(m),
        Some(Payload::Error(m)) => error_text(m),
        Some(Payload::Complete(m)) => complete_text(m),
        Some(Payload::InfoResult(m)) => info_result_text(m),
        Some(Payload::CheckResult(m)) => check_result_text(m),
        Some(Payload::CompareResult(m)) => compare_result_text(m),
        Some(Payload::MeasureResult(m)) => measure_result_text(m),
        Some(Payload::CreateResult(m)) => create_result_text(m),
        Some(Payload::ResizeResult(m)) => resize_result_text(m),
        Some(Payload::RebaseResult(m)) => rebase_result_text(m),
        Some(Payload::AmendResult(m)) => amend_result_text(m),
        Some(Payload::CommitResult(m)) => commit_result_text(m),
        Some(Payload::MapExtent(m)) => map_extent_text(m),
        Some(Payload::MapResult(m)) => map_result_text(m),
        Some(Payload::SnapshotEntry(m)) => snapshot_entry_text(m),
        Some(Payload::SnapshotResult(m)) => snapshot_result_text(m),
    }
}

fn format_payload(p: &Option<Payload>) -> (r: String)
    ensures
        r@ == payload_text(*p),
{
    match p {
        None => "empty payload".to_owned(),
        Some(Payload::Init(m)) => format_init(m),
        Some(Payload::Capacity(m)) => format_capacity(m),
        Some(Payload::Progress(m)) => format_progress(m),
        Some(Payload::Error(m)) => format_error(m),
        Some(Payload::Complete(m)) => format_complete(m),
        Some(Payload::InfoResult(m)) => format_info_result(m),
        Some(Payload::CheckResult(m)) => format_check_result(m),
        Some(Payload::CompareResult(m)) => format_compare_result(m),
        Some(Payload::MeasureResult(m)) => format_measure_result(m),
        Some(Payload::CreateResult(m)) => format_create_result(m),
        Some(Payload::ResizeResult(m)) => format_resize_result(m),
        Some(Payload::RebaseResult(m)) => format_rebase_result(m),
        Some(Payload::AmendResult(m)) => format_amend_result(m),
        Some(Payload::CommitResult(m)) => format_commit_result(m),
        Some(Payload::MapExtent(m)) => format_map_extent(m),
        Some(Payload::MapResult(m)) => format_map_result(m),
        Some(Payload::SnapshotEntry(m)) => format_snapshot_entry(m),
        Some(Payload::SnapshotResult(m)) => format_snapshot_result(m),
    }
}

/// Formats a guest's message for the log.
pub fn format_message(msg: &GuestMessage) -> (r: String)
    ensures
        r@ == "["@ + level_name(msg.level) + "] "@ + payload_text(msg.payload),
{
    let mut s = "[".to_owned();
    s.append(format_level(msg.level));
    s.append("] ");
    s.append(format_payload(&msg.payload).as_str());
    s
}

// ---------------------------------------------------------------------------
// Laws
// ---------------------------------------------------------------------------

/// A log line begins with the level of its message and goes on with the text
/// of its kind of message.
pub proof fn law_line_is_that_of_its_message(msg: &GuestMessage, r: String)
    requires
        call_ensures(format_message, (msg,), r),
    ensures
        msg.level == Level::Debug ==> holds_part(r@, "["@ + "DEBUG"@),
        msg.level == Level::Info ==> holds_part(r@, "["@ + "INFO"@),
        msg.level == Level::Progress ==> holds_part(r@, "["@ + "PROGRESS"@),
        msg.level == Level::Error ==> holds_part(r@, "["@ + "ERROR"@),
        msg.level == Level::Complete ==> holds_part(r@, "["@ + "COMPLETE"@),
        msg.level == Level::Other ==> holds_part(r@, "["@ + "UNKNOWN"@),
        msg.payload is None ==> holds_part(r@, "] "@ + "empty payload"@),
        msg.payload matches Some(Payload::Init(m)) ==> holds_part(r@, "] "@ + init_text(m)),
        msg.payload matches Some(Payload::Capacity(m)) ==> holds_part(r@, "] "@ + capacity_text(m)),
        msg.payload matches Some(Payload::Progress(m)) ==> holds_part(r@, "] "@ + progress_text(m)),
        msg.payload matches Some(Payload::Error(m)) ==> holds_part(r@, "] "@ + error_text(m)),
        msg.payload matches Some(Payload::Complete(m)) ==> holds_part(r@, "] "@ + complete_text(m)),
        msg.payload matches Some(Payload::InfoResult(m)) ==> holds_part(
            r@,
            "] "@ + info_result_text(m),
        ),
        msg.payload matches Some(Payload::CheckResult(m)) ==> holds_part(
            r@,
            "] "@ + check_result_text(m),
        ),
        msg.payload matches Some(Payload::CompareResult(m)) ==> holds_part(
            r@,
            "] "@ + compare_result_text(m),
        ),
        msg.payload matches Some(Payload::MeasureResult(m)) ==> holds_part(
            r@,
            "] "@ + measure_result_text(m),
        ),
        msg.payload matches Some(Payload::CreateResult(m)) ==> holds_part(
            r@,
            "] "@ + create_result_text(m),
        ),
        msg.payload matches Some(Payload::ResizeResult(m)) ==> holds_part(
            r@,
            "] "@ + resize_result_text(m),
        ),
        msg.payload matches Some(Payload::RebaseResult(m)) ==> holds_part(
            r@,
            "] "@ + rebase_result_text(m),
        ),
        msg.payload matches Some(Payload::AmendResult(m)) ==> holds_part(
            r@,
            "] "@ + amend_result_text(m),
        ),
        msg.payload matches Some(Payload::CommitResult(m)) ==> holds_part(
            r@,
            "] "@ + commit_result_text(m),
        ),
        msg.payload matches Some(Payload::MapExtent(m)) ==> holds_part(
            r@,
            "] "@ + map_extent_text(m),
        ),
        msg.payload matches Some(Payload::MapResult(m)) ==> holds_part(
            r@,
            "] "@ + map_result_text(m),
        ),
        msg.payload matches Some(Payload::SnapshotEntry(m)) ==> holds_part(
            r@,
            "] "@ + snapshot_entry_text(m),
        ),
        msg.payload matches Some(Payload::SnapshotResult(m)) ==> holds_part(
            r@,
            "] "@ + snapshot_result_text(m),
        ),
{
    broadcast use {lemma_part_stays, lemma_last_part, lemma_first_part};

}

/// The line of a message `init` holds each value behind its name.
pub proof fn law_init_line_holds_its_values(m: InitMessage)
    ensures
        holds_part(init_text(m), "init stage="@ + m.stage@),
        holds_part(init_text(m), " device="@ + m.device@),
        holds_part(init_text(m), " address=0x"@ + hex(m.address as int)),
{
    broadcast use {lemma_part_stays, lemma_tail_part, lemma_last_part, lemma_first_part};

}

/// The line of a message `capacity` holds each value behind its name.
pub proof fn law_capacity_line_holds_its_values(m: CapacityMessage)
    ensures
        holds_part(capacity_text(m), "capacity device="@ + m.device@),
        holds_part(capacity_text(m), " sectors="@ + dec(m.sectors as int)),
        holds_part(capacity_text(m), " bytes="@ + dec(m.bytes as int)),
{
    broadcast use {lemma_part_stays, lemma_tail_part, lemma_last_part, lemma_first_part};

}

/// The line of a message `progress` holds each value behind its name.
pub proof fn law_progress_line_holds_its_values(m: ProgressMessage)
    ensures
        holds_part(progress_text(m), "progress op="@ + m.operation@),
        holds_part(progress_text(m), " "@ + dec(m.current as int)),
        holds_part(progress_text(m), "/"@ + dec(m.total as int)),
        holds_part(progress_text(m), " ("@ + dec(m.percent as int)),
{
    broadcast use {lemma_part_stays, lemma_tail_part, lemma_last_part, lemma_first_part};

}

/// The line of a message `error` holds each value behind its name.
pub proof fn law_error_line_holds_its_values(m: ErrorMessage)
    ensures
        holds_part(error_text(m), "error op="@ + m.operation@),
        holds_part(error_text(m), " device="@ + m.device@),
        holds_part(error_text(m), " sector="@ + dec(m.sector as int)),
        holds_part(error_text(m), " status="@ + dec(m.status as int)),
{
    broadcast use {lemma_part_stays, lemma_tail_part, lemma_last_part, lemma_first_part};

}

/// The line of a message `complete` holds each value behind its name.
pub proof fn law_complete_line_holds_its_values(m: CompleteMessage)
    ensures
        holds_part(complete_text(m), "complete op="@ + m.operation@),
        holds_part(complete_text(m), " count="@ + dec(m.count as int)),
        holds_part(complete_text(m), " success="@ + truth(m.success)),
{
    broadcast use {lemma_part_stays, lemma_tail_part, lemma_last_part, lemma_first_part};

}

/// The line of a message `info result` holds each value behind its name.
pub proof fn law_info_result_line_holds_its_values(m: InfoResultMessage)
    ensures
        holds_part(info_result_text(m), "info_result format="@ + m.format@),
        holds_part(info_result_text(m), " version="@ + dec(m.version as int)),
        holds_part(info_result_text(m), " virtual_size="@ + dec(m.virtual_size as int)),
        holds_part(info_result_text(m), " actual_size="@ + dec(m.actual_size as int)),
        holds_part(info_result_text(m), " cluster_size="@ + dec(m.cluster_size as int)),
        holds_part(info_result_text(m), " flags=0x"@ + hex(m.flags as int)),
        m.backing_file@.len() > 0 ==> holds_part(
            info_result_text(m),
            " backing_file="@ + m.backing_file@,
        ),
        m.external_data_file@.len() > 0 ==> holds_part(
            info_result_text(m),
            " external_data_file="@ + m.external_data_file@,
        ),
{
    broadcast use {lemma_part_stays, lemma_tail_part, lemma_last_part, lemma_first_part};

}

/// The line of a message `check result` holds each value behind its name.
pub proof fn law_check_result_line_holds_its_values(m: CheckResultMessage)
    ensures
        holds_part(check_result_text(m), "check_result format="@ + m.format@),
        holds_part(check_result_text(m), " errors="@ + dec(m.total_errors as int)),
        holds_part(check_result_text(m), " corruptions="@ + dec(m.corruptions as int)),
        holds_part(check_result_text(m), " leaks="@ + dec(m.leaks as int)),
        holds_part(check_result_text(m), " flags=0x"@ + hex(m.flags as int)),
{
    broadcast use {lemma_part_stays, lemma_tail_part, lemma_last_part, lemma_first_part};

}

/// The line of a message `compare result` holds each value behind its name.
pub proof fn law_compare_result_line_holds_its_values(m: CompareResultMessage)
    ensures
        holds_part(compare_result_text(m), "compare_result identical="@ + truth(m.identical)),
        holds_part(
            compare_result_text(m),
            " first_mismatch_offset="@ + dec(m.first_mismatch_offset as int),
        ),
        holds_part(
            compare_result_text(m),
            " total_bytes_compared="@ + dec(m.total_bytes_compared as int),
        ),
        holds_part(compare_result_text(m), " flags=0x"@ + hex(m.flags as int)),
{
    broadcast use {lemma_part_stays, lemma_tail_part, lemma_last_part, lemma_first_part};

}

/// The line of a message `measure result` holds each value behind its name.
pub proof fn law_measure_result_line_holds_its_values(m: MeasureResultMessage)
    ensures
        holds_part(measure_result_text(m), "measure_result target_format="@ + m.target_format@),
        holds_part(measure_result_text(m), " required="@ + dec(m.required as int)),
        holds_part(measure_result_text(m), " fully_allocated="@ + dec(m.fully_allocated as int)),
        holds_part(
            measure_result_text(m),
            " resolved_unit_size="@ + dec(m.resolved_unit_size as int),
        ),
        holds_part(measure_result_text(m), " error="@ + dec(m.error as int)),
{
    broadcast use {lemma_part_stays, lemma_tail_part, lemma_last_part, lemma_first_part};

}

/// The line of a message `create result` holds each value behind its name.
pub proof fn law_create_result_line_holds_its_values(m: CreateResultMessage)
    ensures
        holds_part(create_result_text(m), "create_result target_format="@ + m.target_format@),
        holds_part(
            create_result_text(m),
            " resolved_virtual_size="@ + dec(m.resolved_virtual_size as int),
        ),
        holds_part(
            create_result_text(m),
            " metadata_bytes_written="@ + dec(m.metadata_bytes_written as int),
        ),
        holds_part(create_result_text(m), " file_size_after="@ + dec(m.file_size_after as int)),
        holds_part(
            create_result_text(m),
            " resolved_unit_size="@ + dec(m.resolved_unit_size as int),
        ),
        holds_part(create_result_text(m), " error="@ + dec(m.error as int)),
{
    broadcast use {lemma_part_stays, lemma_tail_part, lemma_last_part, lemma_first_part};

}

/// The line of a message `resize result` holds each value behind its name.
pub proof fn law_resize_result_line_holds_its_values(m: ResizeResultMessage)
    ensures
        holds_part(resize_result_text(m), "resize_result target_format="@ + m.target_format@),
        holds_part(
            resize_result_text(m),
            " resolved_new_virtual_size="@ + dec(m.resolved_new_virtual_size as int),
        ),
        holds_part(resize_result_text(m), " file_size_before="@ + dec(m.file_size_before as int)),
        holds_part(resize_result_text(m), " file_size_after="@ + dec(m.file_size_after as int)),
        holds_part(resize_result_text(m), " action="@ + m.action@),
        holds_part(resize_result_text(m), " error="@ + dec(m.error as int)),
{
    broadcast use {lemma_part_stays, lemma_tail_part, lemma_last_part, lemma_first_part};

}

/// The line of a message `rebase result` holds each value behind its name.
pub proof fn law_rebase_result_line_holds_its_values(m: RebaseResultMessage)
    ensures
        holds_part(rebase_result_text(m), "rebase_result overlay_format="@ + m.overlay_format@),
        holds_part(rebase_result_text(m), " mode="@ + m.mode@),
        holds_part(rebase_result_text(m), " clusters_copied="@ + dec(m.clusters_copied as int)),
        holds_part(rebase_result_text(m), " bytes_copied="@ + dec(m.bytes_copied as int)),
        holds_part(rebase_result_text(m), " error="@ + dec(m.error as int)),
{
    broadcast use {lemma_part_stays, lemma_tail_part, lemma_last_part, lemma_first_part};

}

/// The line of a message `amend result` holds each value behind its name.
pub proof fn law_amend_result_line_holds_its_values(m: AmendResultMessage)
    ensures
        holds_part(amend_result_text(m), "amend_result target_format="@ + m.target_format@),
        holds_part(amend_result_text(m), " action="@ + dec(m.action as int)),
        holds_part(amend_result_text(m), " resulting_version="@ + dec(m.resulting_version as int)),
        holds_part(amend_result_text(m), " lazy_refcounts="@ + truth(m.lazy_refcounts)),
        holds_part(amend_result_text(m), " error="@ + dec(m.error as int)),
{
    broadcast use {lemma_part_stays, lemma_tail_part, lemma_last_part, lemma_first_part};

}

/// The line of a message `commit result` holds each value behind its name.
pub proof fn law_commit_result_line_holds_its_values(m: CommitResultMessage)
    ensures
        holds_part(commit_result_text(m), "commit_result overlay_format="@ + m.overlay_format@),
        holds_part(commit_result_text(m), " backing_format="@ + m.backing_format@),
        holds_part(
            commit_result_text(m),
            " clusters_committed="@ + dec(m.clusters_committed as int),
        ),
        holds_part(commit_result_text(m), " bytes_committed="@ + dec(m.bytes_committed as int)),
        holds_part(
            commit_result_text(m),
            " overlay_clusters_cleared="@ + dec(m.overlay_clusters_cleared as int),
        ),
        holds_part(commit_result_text(m), " error="@ + dec(m.error as int)),
{
    broadcast use {lemma_part_stays, lemma_tail_part, lemma_last_part, lemma_first_part};

}

/// The line of a message `map extent` holds each value behind its name.
pub proof fn law_map_extent_line_holds_its_values(m: MapExtentMessage)
    ensures
        holds_part(map_extent_text(m), "map_extent start="@ + dec(m.start as int)),
        holds_part(map_extent_text(m), " length="@ + dec(m.length as int)),
        holds_part(map_extent_text(m), " state="@ + m.state@),
        holds_part(map_extent_text(m), " file_offset="@ + dec(m.file_offset as int)),
{
    broadcast use {lemma_part_stays, lemma_tail_part, lemma_last_part, lemma_first_part};

}

/// The line of a message `map result` holds each value behind its name.
pub proof fn law_map_result_line_holds_its_values(m: MapResultMessage)
    ensures
        holds_part(map_result_text(m), "map_result source_format="@ + m.source_format@),
        holds_part(map_result_text(m), " extents_emitted="@ + dec(m.extents_emitted as int)),
        holds_part(map_result_text(m), " virtual_size="@ + dec(m.virtual_size as int)),
        holds_part(map_result_text(m), " error="@ + dec(m.error as int)),
{
    broadcast use {lemma_part_stays, lemma_tail_part, lemma_last_part, lemma_first_part};

}

/// The line of a message `snapshot entry` holds each value behind its name.
pub proof fn law_snapshot_entry_line_holds_its_values(m: SnapshotEntryMessage)
    ensures
        holds_part(snapshot_entry_text(m), "snapshot_entry id="@ + m.id@),
        holds_part(snapshot_entry_text(m), " name="@ + m.name@),
        holds_part(snapshot_entry_text(m), " l1_table_offset="@ + dec(m.l1_table_offset as int)),
        holds_part(snapshot_entry_text(m), " l1_size="@ + dec(m.l1_size as int)),
        holds_part(snapshot_entry_text(m), " date_sec_hi="@ + dec(m.date_sec_hi as int)),
        holds_part(snapshot_entry_text(m), " date_sec_lo="@ + dec(m.date_sec_lo as int)),
        holds_part(snapshot_entry_text(m), " date_nsec="@ + dec(m.date_nsec as int)),
        holds_part(snapshot_entry_text(m), " vm_clock_nsec="@ + dec(m.vm_clock_nsec as int)),
        holds_part(snapshot_entry_text(m), " vm_state_size="@ + dec(m.vm_state_size as int)),
        holds_part(snapshot_entry_text(m), " disk_size="@ + dec(m.disk_size as int)),
        holds_part(snapshot_entry_text(m), " icount="@ + dec(m.icount as int)),
        holds_part(snapshot_entry_text(m), " extra_data_size="@ + dec(m.extra_data_size as int)),
{
    broadcast use {lemma_part_stays, lemma_tail_part, lemma_last_part, lemma_first_part};

}

/// The line of a message `snapshot result` holds each value behind its name.
pub proof fn law_snapshot_result_line_holds_its_values(m: SnapshotResultMessage)
    ensures
        holds_part(snapshot_result_text(m), "snapshot_result mode="@ + dec(m.mode as int)),
        holds_part(snapshot_result_text(m), " error="@ + dec(m.error as int)),
        holds_part(
            snapshot_result_text(m),
            " snapshots_emitted="@ + dec(m.snapshots_emitted as int),
        ),
        holds_part(snapshot_result_text(m), " assigned_id="@ + m.assigned_id@),
{
    broadcast use {lemma_part_stays, lemma_tail_part, lemma_last_part, lemma_first_part};

}

} // verus!
