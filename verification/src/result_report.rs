//! The reports of `check`, `measure` and `compare`.
use vstd::prelude::*;
use crate::abi::{
    CHECK_RESULT_FLAG_CORRUPT_BIT, CHECK_RESULT_FLAG_DIRTY, CHECK_RESULT_FLAG_NOT_SUPPORTED,
    CHECK_RESULT_FLAG_REPAIR_INCOMPLETE, CHECK_RESULT_FLAG_VALID,
    COMPARE_RESULT_FLAG_SIZE_MISMATCH, MEASURE_RESULT_ERROR_INVALID_OPTION,
    MEASURE_RESULT_ERROR_INVALID_SIZE, MEASURE_RESULT_ERROR_OK, MEASURE_RESULT_ERROR_OVERFLOW,
};
use crate::json::{escape_json_string, escaped, EscapeStyle};
use crate::message::{CheckResultMessage, CompareResultMessage, MeasureResultMessage};
use crate::rounding::{
    binary64, hundredths, lemma_u64_to_binary64, percentage, push_hundredths, rounded_percentage,
    to_binary64,
};
use crate::text::{
    between, dec, holds_part, lemma_first_part, lemma_last_part, lemma_part_stays, lemma_tail_part,
    number_between, opt, push_dec, push_if, same, truth, truth_word,
};

verus! {

// ---------------------------------------------------------------------------
// Check
// ---------------------------------------------------------------------------

/// What is said of the errors that a check found.
pub open spec fn error_lines(m: CheckResultMessage) -> Seq<char> {
    if m.total_errors > 0 {
        opt(
            m.corruptions > 0,
            dec(m.total_errors as int) + " errors were found on the image.\nData may be corrupted, or the image has been written incompletely.\n"@,
        ) + opt(
            m.leaks > 0,
            dec(m.leaks as int) + " leaked clusters were found on the image.\nThis means waste of disk space, but no harm to data.\n"@,
        )
    } else {
        opt(
            m.flags & CHECK_RESULT_FLAG_VALID != 0 && m.chain_errors == 0,
            "No errors were found on the image.\n"@,
        )
    }
}

/// A numeral followed by a text.
fn number_then(n: u64, after: &str) -> (r: String)
    ensures
        r@ == dec(n as int) + after@,
{
    let mut s = String::new();
    push_dec(&mut s, n);
    s.append(after);
    assert(s@ =~= dec(n as int) + after@);
    s
}

fn format_error_lines(m: &CheckResultMessage) -> (r: String)
    ensures
        r@ == error_lines(*m),
{
    let mut s = String::new();
    if m.total_errors > 0 {
        let corrupt = number_then(
            m.total_errors,
            " errors were found on the image.\nData may be corrupted, or the image has been written incompletely.\n",
        );
        let leaked = number_then(
            m.leaks,
            " leaked clusters were found on the image.\nThis means waste of disk space, but no harm to data.\n",
        );
        push_if(&mut s, m.corruptions > 0, corrupt.as_str());
        push_if(&mut s, m.leaks > 0, leaked.as_str());
    } else {
        push_if(
            &mut s,
            m.flags & CHECK_RESULT_FLAG_VALID != 0 && m.chain_errors == 0,
            "No errors were found on the image.\n",
        );
    }
    assert(s@ =~= error_lines(*m));
    s
}

/// Whether a repair changed anything.
pub open spec fn repaired_any(m: CheckResultMessage) -> bool {
    m.repaired_leaks > 0 || m.repaired_refcounts > 0 || m.repaired_corruptions > 0
}

/// What a repair changed.
pub open spec fn repair_line(m: CheckResultMessage) -> Seq<char> {
    "Repaired "@
        + dec(m.repaired_leaks as int)
        + " leaked cluster(s), "@
        + dec(m.repaired_refcounts as int)
        + " refcount correction(s), "@
        + dec(m.repaired_corruptions as int)
        + " corruption(s).\n"@
}

/// What a repair changed.
fn format_repair_line(m: &CheckResultMessage) -> (r: String)
    ensures
        r@ == repair_line(*m),
{
    let mut s = "Repaired ".to_owned();
    push_dec(&mut s, m.repaired_leaks);
    s.append(" leaked cluster(s), ");
    push_dec(&mut s, m.repaired_refcounts);
    s.append(" refcount correction(s), ");
    push_dec(&mut s, m.repaired_corruptions);
    s.append(" corruption(s).\n");
    s
}

/// How much of the image is allocated and fragmented.
pub open spec fn statistics_line(m: CheckResultMessage) -> Seq<char> {
    dec(m.clusters_allocated as int) + "/"@ + dec(m.clusters_checked as int) + " = "@ + hundredths(
        percentage(m.clusters_allocated, m.clusters_checked, 100),
    ) + "% allocated, "@ + hundredths(binary64(m.fragmentation as nat) * 100)
        + "% fragmented\n"@
}

fn format_statistics_line(m: &CheckResultMessage) -> (r: String)
    ensures
        r@ == statistics_line(*m),
{
    proof {
        lemma_u64_to_binary64(m.fragmentation);
    }
    let mut s = number_then(m.clusters_allocated, "/");
    push_dec(&mut s, m.clusters_checked);
    s.append(" = ");
    push_hundredths(&mut s, rounded_percentage(m.clusters_allocated, m.clusters_checked, 100));
    s.append("% allocated, ");
    push_hundredths(&mut s, to_binary64(m.fragmentation as u128) * 100);
    s.append("% fragmented\n");
    s
}

/// The report of a check for people.
pub open spec fn check_text(m: CheckResultMessage) -> Seq<char> {
    if m.flags & CHECK_RESULT_FLAG_NOT_SUPPORTED != 0 {
        "This image format ("@ + m.format@ + ") does not support checks\n"@
    } else {
        error_lines(m) + opt(
            m.chain_errors > 0,
            dec(m.chain_errors as int) + " backing chain error(s) were found.\n"@,
        ) + opt(
            m.subcluster_errors > 0,
            dec(m.subcluster_errors as int) + " subcluster bitmap error(s) were found.\n"@,
        ) + opt(repaired_any(m), repair_line(m)) + opt(
            m.flags & CHECK_RESULT_FLAG_REPAIR_INCOMPLETE != 0,
            "Repair did not complete; some issues remain (re-run or use qemu-img).\n"@,
        ) + opt(m.clusters_checked > 0 || m.clusters_allocated > 0, statistics_line(m)) + opt(
            m.image_end_offset > 0,
            "Image end offset: "@ + dec(m.image_end_offset as int) + "\n"@,
        )
    }
}

fn format_check(m: &CheckResultMessage) -> (r: String)
    ensures
        r@ == check_text(*m),
{
    if m.flags & CHECK_RESULT_FLAG_NOT_SUPPORTED != 0 {
        return between(
            "This image format (",
            m.format.as_str(),
            ") does not support checks\n",
        );
    }
    let mut s = format_error_lines(m);
    let chain = number_then(m.chain_errors, " backing chain error(s) were found.\n");
    push_if(&mut s, m.chain_errors > 0, chain.as_str());
    let bitmap = number_then(m.subcluster_errors, " subcluster bitmap error(s) were found.\n");
    push_if(&mut s, m.subcluster_errors > 0, bitmap.as_str());
    push_if(
        &mut s,
        m.repaired_leaks > 0 || m.repaired_refcounts > 0 || m.repaired_corruptions > 0,
        format_repair_line(m).as_str(),
    );
    push_if(
        &mut s,
        m.flags & CHECK_RESULT_FLAG_REPAIR_INCOMPLETE != 0,
        "Repair did not complete; some issues remain (re-run or use qemu-img).\n",
    );
    push_if(
        &mut s,
        m.clusters_checked > 0 || m.clusters_allocated > 0,
        format_statistics_line(m).as_str(),
    );
    let end = number_between("Image end offset: ", m.image_end_offset, "\n");
    push_if(&mut s, m.image_end_offset > 0, end.as_str());
    s
}

/// A JSON member with a number, and the comma after it.
pub open spec fn number_member(name: Seq<char>, n: u64) -> Seq<char> {
    "    \""@ + name + "\": "@ + dec(n as int) + ",\n"@
}

fn format_number_member(name: &str, n: u64) -> (r: String)
    ensures
        r@ == number_member(name@, n),
{
    let mut s = "    \"".to_owned();
    s.append(name);
    s.append("\": ");
    push_dec(&mut s, n);
    s.append(",\n");
    s
}

/// The report of a check in JSON. With `unsafe_quirks` three counts are left
/// out when they are zero.
pub open spec fn check_json(m: CheckResultMessage, path: Seq<char>, unsafe_quirks: bool) -> Seq<char> {
    "{\n    \"filename\": \""@
        + escaped(path, EscapeStyle::Report)
        + "\",\n    \"format\": \""@
        + escaped(m.format@, EscapeStyle::Report)
        + "\",\n"@
        + number_member("check-errors"@, m.total_errors)
        + opt(!unsafe_quirks || m.corruptions > 0, number_member("corruptions"@, m.corruptions))
        + opt(!unsafe_quirks || m.leaks > 0, number_member("leaks"@, m.leaks))
        + opt(!unsafe_quirks || m.refcount_errors > 0, number_member("refcount-errors"@, m.refcount_errors))
        + number_member("image-end-offset"@, m.image_end_offset)
        + number_member("total-clusters"@, m.clusters_checked)
        + number_member("allocated-clusters"@, m.clusters_allocated)
        + number_member("fragmented-clusters"@, m.fragmentation)
        + "    \"dirty\": "@
        + truth(m.flags & CHECK_RESULT_FLAG_DIRTY != 0)
        + ",\n    \"corrupt\": "@
        + truth(m.flags & CHECK_RESULT_FLAG_CORRUPT_BIT != 0)
        + ",\n"@
        + number_member("chain-errors"@, m.chain_errors)
        + number_member("subcluster-errors"@, m.subcluster_errors)
        + opt(m.repaired_leaks > 0, number_member("repaired-leaks"@, m.repaired_leaks))
        + opt(m.repaired_refcounts > 0, number_member("repaired-refcounts"@, m.repaired_refcounts))
        + opt(m.repaired_corruptions > 0, number_member("repaired-corruptions"@, m.repaired_corruptions))
        + "    \"repair-incomplete\": "@
        + truth(m.flags & CHECK_RESULT_FLAG_REPAIR_INCOMPLETE != 0)
        + "\n}\n"@
}

/// The report of a check in JSON. With `unsafe_quirks` three counts are left
/// out when they are zero.
fn format_check_json(m: &CheckResultMessage, path: &str, unsafe_quirks: bool) -> (r: String)
    ensures
        r@ == check_json(*m, path@, unsafe_quirks),
{
    let mut s = "{\n    \"filename\": \"".to_owned();
    s.append(escape_json_string(path).as_str());
    s.append("\",\n    \"format\": \"");
    s.append(escape_json_string(m.format.as_str()).as_str());
    s.append("\",\n");
    s.append(format_number_member("check-errors", m.total_errors).as_str());
    push_if(&mut s, !unsafe_quirks || m.corruptions > 0, format_number_member("corruptions", m.corruptions).as_str());
    push_if(&mut s, !unsafe_quirks || m.leaks > 0, format_number_member("leaks", m.leaks).as_str());
    push_if(&mut s, !unsafe_quirks || m.refcount_errors > 0, format_number_member("refcount-errors", m.refcount_errors).as_str());
    s.append(format_number_member("image-end-offset", m.image_end_offset).as_str());
    s.append(format_number_member("total-clusters", m.clusters_checked).as_str());
    s.append(format_number_member("allocated-clusters", m.clusters_allocated).as_str());
    s.append(format_number_member("fragmented-clusters", m.fragmentation).as_str());
    s.append("    \"dirty\": ");
    s.append(truth_word(m.flags & CHECK_RESULT_FLAG_DIRTY != 0));
    s.append(",\n    \"corrupt\": ");
    s.append(truth_word(m.flags & CHECK_RESULT_FLAG_CORRUPT_BIT != 0));
    s.append(",\n");
    s.append(format_number_member("chain-errors", m.chain_errors).as_str());
    s.append(format_number_member("subcluster-errors", m.subcluster_errors).as_str());
    push_if(&mut s, m.repaired_leaks > 0, format_number_member("repaired-leaks", m.repaired_leaks).as_str());
    push_if(&mut s, m.repaired_refcounts > 0, format_number_member("repaired-refcounts", m.repaired_refcounts).as_str());
    push_if(&mut s, m.repaired_corruptions > 0, format_number_member("repaired-corruptions", m.repaired_corruptions).as_str());
    s.append("    \"repair-incomplete\": ");
    s.append(truth_word(m.flags & CHECK_RESULT_FLAG_REPAIR_INCOMPLETE != 0));
    s.append("\n}\n");
    s
}

/// The report of `check` in the form the user asked for.
pub open spec fn check_report_text(
    m: CheckResultMessage,
    path: Seq<char>,
    json: bool,
    unsafe_quirks: bool,
) -> Seq<char> {
    if json {
        check_json(m, path, unsafe_quirks)
    } else {
        check_text(m)
    }
}

/// Formats the report of `check` on the image at an absolute path.
pub fn check_report(
    m: &CheckResultMessage,
    path: &str,
    output_format: &str,
    unsafe_quirks: bool,
) -> (r: String)
    ensures
        r@ == check_report_text(*m, path@, output_format@ == "json"@, unsafe_quirks),
{
    if same(output_format, "json") {
        format_check_json(m, path, unsafe_quirks)
    } else {
        format_check(m)
    }
}

// ---------------------------------------------------------------------------
// Measure
// ---------------------------------------------------------------------------

/// What an error code of `measure` means.
pub open spec fn measure_error_detail(error: u32) -> Seq<char> {
    if error == MEASURE_RESULT_ERROR_OVERFLOW {
        "overflow computing target size"@
    } else if error == MEASURE_RESULT_ERROR_INVALID_OPTION {
        "invalid option for target format"@
    } else if error == MEASURE_RESULT_ERROR_INVALID_SIZE {
        "source image is unsupported format"@
    } else {
        "unknown error"@
    }
}

/// Explains an error code of `measure`.
pub fn explain_measure_error(error: u32) -> (r: &'static str)
    ensures
        r@ == measure_error_detail(error),
{
    if error == MEASURE_RESULT_ERROR_OVERFLOW {
        "overflow computing target size"
    } else if error == MEASURE_RESULT_ERROR_INVALID_OPTION {
        "invalid option for target format"
    } else if error == MEASURE_RESULT_ERROR_INVALID_SIZE {
        "source image is unsupported format"
    } else {
        "unknown error"
    }
}

/// What `measure` prints: a report on the standard output, or a complaint on
/// the error output.
#[derive(Debug)]
pub enum MeasureOutput {
    Report(String),
    Complaint(String),
}

/// The report of `measure` for people.
pub open spec fn measure_text(m: MeasureResultMessage, bitmaps: bool) -> Seq<char> {
    "required size: "@
        + dec(m.required as int)
        + "\nfully allocated size: "@
        + dec(m.fully_allocated as int)
        + "\n"@
        + opt(bitmaps, "bitmaps size: 0\n"@)
}

/// The report of `measure` for people.
fn format_measure(m: &MeasureResultMessage, bitmaps: bool) -> (r: String)
    ensures
        r@ == measure_text(*m, bitmaps),
{
    let mut s = "required size: ".to_owned();
    push_dec(&mut s, m.required);
    s.append("\nfully allocated size: ");
    push_dec(&mut s, m.fully_allocated);
    s.append("\n");
    push_if(&mut s, bitmaps, "bitmaps size: 0\n");
    s
}

/// The report of `measure` in JSON.
pub open spec fn measure_json(m: MeasureResultMessage, bitmaps: bool) -> Seq<char> {
    "{\n"@
        + opt(bitmaps, "    \"bitmaps\": 0,\n"@)
        + "    \"required\": "@
        + dec(m.required as int)
        + ",\n    \"fully-allocated\": "@
        + dec(m.fully_allocated as int)
        + "\n}\n"@
}

/// The report of `measure` in JSON.
fn format_measure_json(m: &MeasureResultMessage, bitmaps: bool) -> (r: String)
    ensures
        r@ == measure_json(*m, bitmaps),
{
    let mut s = "{\n".to_owned();
    push_if(&mut s, bitmaps, "    \"bitmaps\": 0,\n");
    s.append("    \"required\": ");
    push_dec(&mut s, m.required);
    s.append(",\n    \"fully-allocated\": ");
    push_dec(&mut s, m.fully_allocated);
    s.append("\n}\n");
    s
}

/// Formats the result of `measure`. `bitmaps` says that the target is qcow2
/// and the source a qcow2 image of version 3.
pub fn measure_report(m: &MeasureResultMessage, output_format: &str, bitmaps: bool) -> (r:
    MeasureOutput)
    ensures
        match r {
            MeasureOutput::Complaint(t) => m.error != MEASURE_RESULT_ERROR_OK && t@ == "measure: "@
                + measure_error_detail(m.error),
            MeasureOutput::Report(t) => m.error == MEASURE_RESULT_ERROR_OK && t@ == if output_format@
                == "json"@ {
                measure_json(*m, bitmaps)
            } else {
                measure_text(*m, bitmaps)
            },
        },
{
    if m.error != MEASURE_RESULT_ERROR_OK {
        let mut t = "measure: ".to_owned();
        t.append(explain_measure_error(m.error));
        return MeasureOutput::Complaint(t);
    }
    if same(output_format, "json") {
        MeasureOutput::Report(format_measure_json(m, bitmaps))
    } else {
        MeasureOutput::Report(format_measure(m, bitmaps))
    }
}

/// What `measure` comes to once the guest has stopped.
pub open spec fn measure_verdict(seen: bool, error: u32) -> Result<(), Seq<char>> {
    if !seen {
        Err("measure: guest did not return a result"@)
    } else if error != MEASURE_RESULT_ERROR_OK {
        Err("measure failed: "@ + measure_error_detail(error))
    } else {
        Ok(())
    }
}

/// Decides what `measure` comes to once the guest has stopped; `error` is the
/// code of the last result, if one was seen.
pub fn finish_measure(error: Option<u32>) -> (r: Result<(), String>)
    ensures
        crate::text::outcome(r) == measure_verdict(
            error is Some,
            if error is Some {
                error->0
            } else {
                0
            },
        ),
{
    match error {
        None => Err("measure: guest did not return a result".to_owned()),
        Some(code) => if code != MEASURE_RESULT_ERROR_OK {
            let mut t = "measure failed: ".to_owned();
            t.append(explain_measure_error(code));
            Err(t)
        } else {
            Ok(())
        },
    }
}

// ---------------------------------------------------------------------------
// Compare
// ---------------------------------------------------------------------------

/// Whether the compared images differ in size.
pub open spec fn size_mismatch(m: CompareResultMessage) -> bool {
    m.flags & COMPARE_RESULT_FLAG_SIZE_MISMATCH != 0
}

/// The report of `compare` for people.
pub open spec fn compare_text(m: CompareResultMessage, strict: bool) -> Seq<char> {
    opt(
        size_mismatch(m),
        if strict {
            "Strict mode: Image size mismatch!\n"@
        } else {
            "Warning: Image size mismatch!\n"@
        },
    ) + opt(
        !strict || !size_mismatch(m),
        if m.identical {
            "Images are identical.\n"@
        } else {
            "Content mismatch at offset "@ + dec(m.first_mismatch_offset as int) + "!\n"@
        },
    )
}

fn format_compare(m: &CompareResultMessage, strict: bool) -> (r: String)
    ensures
        r@ == compare_text(*m, strict),
{
    let mismatch: bool = m.flags & COMPARE_RESULT_FLAG_SIZE_MISMATCH != 0;
    let mut s = String::new();
    let size_line = if strict {
        "Strict mode: Image size mismatch!\n"
    } else {
        "Warning: Image size mismatch!\n"
    };
    push_if(&mut s, mismatch, size_line);
    let content_line = if m.identical {
        "Images are identical.\n".to_owned()
    } else {
        number_between("Content mismatch at offset ", m.first_mismatch_offset, "!\n")
    };
    push_if(&mut s, !strict || !mismatch, content_line.as_str());
    assert(s@ =~= compare_text(*m, strict));
    s
}

/// The report of `compare` in JSON.
pub open spec fn compare_json(m: CompareResultMessage) -> Seq<char> {
    "{\n    \"identical\": "@
        + truth(m.identical)
        + ",\n    \"first-mismatch-offset\": "@
        + dec(m.first_mismatch_offset as int)
        + ",\n    \"total-bytes-compared\": "@
        + dec(m.total_bytes_compared as int)
        + ",\n    \"size-mismatch\": "@
        + truth(m.flags & COMPARE_RESULT_FLAG_SIZE_MISMATCH != 0)
        + "\n}\n"@
}

/// The report of `compare` in JSON.
fn format_compare_json(m: &CompareResultMessage) -> (r: String)
    ensures
        r@ == compare_json(*m),
{
    let mut s = "{\n    \"identical\": ".to_owned();
    s.append(truth_word(m.identical));
    s.append(",\n    \"first-mismatch-offset\": ");
    push_dec(&mut s, m.first_mismatch_offset);
    s.append(",\n    \"total-bytes-compared\": ");
    push_dec(&mut s, m.total_bytes_compared);
    s.append(",\n    \"size-mismatch\": ");
    s.append(truth_word(m.flags & COMPARE_RESULT_FLAG_SIZE_MISMATCH != 0));
    s.append("\n}\n");
    s
}

/// Formats the report of `compare`.
pub fn compare_report(m: &CompareResultMessage, output_format: &str, strict: bool) -> (r: String)
    ensures
        r@ == if output_format@ == "json"@ {
            compare_json(*m)
        } else {
            compare_text(*m, strict)
        },
{
    if same(output_format, "json") {
        format_compare_json(m)
    } else {
        format_compare(m, strict)
    }
}

// ---------------------------------------------------------------------------
// Laws
// ---------------------------------------------------------------------------

/// What a repair changed is told by kind.
pub proof fn law_repair_line_holds_the_counts(m: CheckResultMessage)
    ensures
        holds_part(repair_line(m), "Repaired "@ + dec(m.repaired_leaks as int)),
        holds_part(repair_line(m), " leaked cluster(s), "@ + dec(m.repaired_refcounts as int)),
        holds_part(
            repair_line(m),
            " refcount correction(s), "@ + dec(m.repaired_corruptions as int),
        ),
{
    broadcast use {lemma_part_stays, lemma_tail_part, lemma_last_part, lemma_first_part};

}

/// The statistics hold how many clusters are allocated, of how many, and both
/// shares.
pub proof fn law_statistics_hold_the_clusters(m: CheckResultMessage)
    ensures
        holds_part(statistics_line(m), dec(m.clusters_allocated as int) + "/"@),
        holds_part(statistics_line(m), "/"@ + dec(m.clusters_checked as int)),
        holds_part(
            statistics_line(m),
            " = "@ + hundredths(percentage(m.clusters_allocated, m.clusters_checked, 100)),
        ),
        holds_part(
            statistics_line(m),
            "% allocated, "@ + hundredths(binary64(m.fragmentation as nat) * 100),
        ),
{
    broadcast use {lemma_part_stays, lemma_tail_part, lemma_last_part, lemma_first_part};

}

/// A member holds its number behind its name.
pub proof fn law_member_holds_its_number(name: Seq<char>, n: u64)
    ensures
        holds_part(number_member(name, n), "    \""@ + name),
        holds_part(number_member(name, n), "\": "@ + dec(n as int)),
{
    broadcast use {lemma_part_stays, lemma_tail_part, lemma_last_part, lemma_first_part};

}

/// A report as JSON holds each count behind its name; quirks leave three of them
/// out only where they are zero.
pub proof fn law_check_json_holds_the_counts(
    m: CheckResultMessage,
    path: Seq<char>,
    unsafe_quirks: bool,
)
    ensures
        holds_part(
            check_json(m, path, unsafe_quirks),
            "{\n    \"filename\": \""@ + escaped(path, EscapeStyle::Report),
        ),
        holds_part(
            check_json(m, path, unsafe_quirks),
            "\",\n    \"format\": \""@ + escaped(m.format@, EscapeStyle::Report),
        ),
        holds_part(
            check_json(m, path, unsafe_quirks),
            "\",\n"@ + number_member("check-errors"@, m.total_errors),
        ),
        (!unsafe_quirks || m.corruptions > 0) ==> holds_part(
            check_json(m, path, unsafe_quirks),
            number_member("corruptions"@, m.corruptions),
        ),
        (!unsafe_quirks || m.leaks > 0) ==> holds_part(
            check_json(m, path, unsafe_quirks),
            number_member("leaks"@, m.leaks),
        ),
        (!unsafe_quirks || m.refcount_errors > 0) ==> holds_part(
            check_json(m, path, unsafe_quirks),
            number_member("refcount-errors"@, m.refcount_errors),
        ),
        holds_part(
            check_json(m, path, unsafe_quirks),
            number_member("image-end-offset"@, m.image_end_offset),
        ),
        holds_part(
            check_json(m, path, unsafe_quirks),
            number_member("total-clusters"@, m.clusters_checked),
        ),
        holds_part(
            check_json(m, path, unsafe_quirks),
            number_member("allocated-clusters"@, m.clusters_allocated),
        ),
        holds_part(
            check_json(m, path, unsafe_quirks),
            number_member("fragmented-clusters"@, m.fragmentation),
        ),
        holds_part(
            check_json(m, path, unsafe_quirks),
            "    \"dirty\": "@ + truth(m.flags & 8 != 0),
        ),
        holds_part(
            check_json(m, path, unsafe_quirks),
            ",\n    \"corrupt\": "@ + truth(m.flags & 0x10 != 0),
        ),
        holds_part(
            check_json(m, path, unsafe_quirks),
            ",\n"@ + number_member("chain-errors"@, m.chain_errors),
        ),
        holds_part(
            check_json(m, path, unsafe_quirks),
            number_member("subcluster-errors"@, m.subcluster_errors),
        ),
        m.repaired_leaks > 0 ==> holds_part(
            check_json(m, path, unsafe_quirks),
            number_member("repaired-leaks"@, m.repaired_leaks),
        ),
        m.repaired_refcounts > 0 ==> holds_part(
            check_json(m, path, unsafe_quirks),
            number_member("repaired-refcounts"@, m.repaired_refcounts),
        ),
        m.repaired_corruptions > 0 ==> holds_part(
            check_json(m, path, unsafe_quirks),
            number_member("repaired-corruptions"@, m.repaired_corruptions),
        ),
        holds_part(
            check_json(m, path, unsafe_quirks),
            "    \"repair-incomplete\": "@ + truth(m.flags & 0x100 != 0),
        ),
{
    broadcast use {lemma_part_stays, lemma_tail_part, lemma_last_part, lemma_first_part};

}

/// A measurement for people holds both sizes, and speaks of bitmaps where there
/// may be any.
pub proof fn law_measure_text_holds_both_sizes(m: MeasureResultMessage, bitmaps: bool)
    ensures
        holds_part(measure_text(m, bitmaps), "required size: "@ + dec(m.required as int)),
        holds_part(
            measure_text(m, bitmaps),
            "\nfully allocated size: "@ + dec(m.fully_allocated as int),
        ),
        bitmaps ==> holds_part(measure_text(m, bitmaps), "bitmaps size: 0\n"@),
{
    broadcast use {lemma_part_stays, lemma_tail_part, lemma_last_part, lemma_first_part};

}

/// A measurement as JSON holds both sizes, and speaks of bitmaps where there may
/// be any.
pub proof fn law_measure_json_holds_both_sizes(m: MeasureResultMessage, bitmaps: bool)
    ensures
        bitmaps ==> holds_part(measure_json(m, bitmaps), "    \"bitmaps\": 0,\n"@),
        holds_part(measure_json(m, bitmaps), "    \"required\": "@ + dec(m.required as int)),
        holds_part(
            measure_json(m, bitmaps),
            ",\n    \"fully-allocated\": "@ + dec(m.fully_allocated as int),
        ),
{
    broadcast use {lemma_part_stays, lemma_tail_part, lemma_last_part, lemma_first_part};

}

/// A comparison as JSON holds what the guest found, each behind its name.
pub proof fn law_compare_json_holds_the_result(m: CompareResultMessage)
    ensures
        holds_part(compare_json(m), "{\n    \"identical\": "@ + truth(m.identical)),
        holds_part(
            compare_json(m),
            ",\n    \"first-mismatch-offset\": "@ + dec(m.first_mismatch_offset as int),
        ),
        holds_part(
            compare_json(m),
            ",\n    \"total-bytes-compared\": "@ + dec(m.total_bytes_compared as int),
        ),
        holds_part(
            compare_json(m),
            ",\n    \"size-mismatch\": "@ + truth(m.flags & 1 != 0),
        ),
{
    broadcast use {lemma_part_stays, lemma_tail_part, lemma_last_part, lemma_first_part};

}

/// A report of a check is as JSON exactly where that is asked for. A format that
/// cannot be checked is named and nothing else is said; of any other, errors,
/// repairs and statistics are told where there are any.
pub proof fn law_check_report_tells_what_there_is(
    m: &CheckResultMessage,
    path: &str,
    output_format: &str,
    unsafe_quirks: bool,
    r: String,
)
    requires
        call_ensures(check_report, (m, path, output_format, unsafe_quirks), r),
    ensures
        output_format@ == "json"@ ==> r@ == check_json(*m, path@, unsafe_quirks),
        output_format@ != "json"@ && m.flags & 0x40 != 0 ==> r@ == "This image format ("@
            + m.format@ + ") does not support checks\n"@,
        output_format@ != "json"@ && m.flags & 0x40 == 0 ==> {
            &&& m.chain_errors > 0 ==> holds_part(
                r@,
                dec(m.chain_errors as int) + " backing chain error(s) were found.\n"@,
            )
            &&& m.subcluster_errors > 0 ==> holds_part(
                r@,
                dec(m.subcluster_errors as int) + " subcluster bitmap error(s) were found.\n"@,
            )
            &&& m.repaired_leaks > 0 || m.repaired_refcounts > 0 || m.repaired_corruptions > 0
                ==> holds_part(r@, repair_line(*m))
            &&& m.flags & 0x100 != 0 ==> holds_part(
                r@,
                "Repair did not complete; some issues remain (re-run or use qemu-img).\n"@,
            )
            &&& m.clusters_checked > 0 || m.clusters_allocated > 0 ==> holds_part(
                r@,
                statistics_line(*m),
            )
            &&& m.image_end_offset > 0 ==> holds_part(
                r@,
                "Image end offset: "@ + dec(m.image_end_offset as int) + "\n"@,
            )
        },
{
    broadcast use {lemma_part_stays, lemma_tail_part, lemma_last_part, lemma_first_part};

}

/// Errors are told as such, leaks as a waste of space, and an image without
/// either is called sound only where it was checked and its chain has none.
pub proof fn law_errors_and_leaks_are_told_apart(m: CheckResultMessage)
    ensures
        m.total_errors > 0 && m.corruptions > 0 ==> holds_part(
            error_lines(m),
            dec(m.total_errors as int)
                + " errors were found on the image.\nData may be corrupted, or the image has been written incompletely.\n"@,
        ),
        m.total_errors > 0 && m.leaks > 0 ==> holds_part(
            error_lines(m),
            dec(m.leaks as int)
                + " leaked clusters were found on the image.\nThis means waste of disk space, but no harm to data.\n"@,
        ),
        m.total_errors > 0 && m.corruptions == 0 && m.leaks == 0 ==> error_lines(m).len() == 0,
        m.total_errors == 0 && m.flags & 1 != 0 && m.chain_errors == 0 ==> error_lines(m)
            == "No errors were found on the image.\n"@,
        m.total_errors == 0 && (m.flags & 1 == 0 || m.chain_errors > 0) ==> error_lines(m).len()
            == 0,
{
    broadcast use {lemma_part_stays, lemma_tail_part, lemma_last_part, lemma_first_part};

}

/// A measurement is reported exactly where the guest made it, in the form that
/// was asked for; and `measure` succeeds exactly then.
pub proof fn law_measurement_is_reported_where_made(
    m: &MeasureResultMessage,
    output_format: &str,
    bitmaps: bool,
    r: MeasureOutput,
    s: Result<(), String>,
    none: Result<(), String>,
)
    requires
        call_ensures(measure_report, (m, output_format, bitmaps), r),
        call_ensures(finish_measure, (Some(m.error),), s),
        call_ensures(finish_measure, (None,), none),
    ensures
        r is Report <==> m.error == 0,
        s is Ok <==> m.error == 0,
        none is Err,
        r matches MeasureOutput::Report(t) ==> t@ == if output_format@ == "json"@ {
            measure_json(*m, bitmaps)
        } else {
            measure_text(*m, bitmaps)
        },
        r matches MeasureOutput::Complaint(t) ==> s is Err && holds_part(
            t@,
            "measure: "@ + measure_error_detail(m.error),
        ) && holds_part(s->Err_0@, "measure failed: "@ + measure_error_detail(m.error)),
{
    broadcast use {lemma_part_stays, lemma_tail_part, lemma_last_part, lemma_first_part};

}

/// A comparison for people speaks of sizes exactly where they differ, as an
/// error in strict mode, which then says nothing of the content; otherwise it
/// says that the images are the same, or where they first differ.
pub proof fn law_comparison_tells_where_images_differ(
    m: &CompareResultMessage,
    output_format: &str,
    strict: bool,
    r: String,
)
    requires
        call_ensures(compare_report, (m, output_format, strict), r),
    ensures
        output_format@ == "json"@ ==> r@ == compare_json(*m),
        output_format@ != "json"@ ==> {
            let differ = m.flags & 1 != 0;
            &&& differ && strict ==> r@ == "Strict mode: Image size mismatch!\n"@
            &&& differ && !strict ==> holds_part(r@, "Warning: Image size mismatch!\n"@)
            &&& (!differ || !strict) && m.identical ==> holds_part(r@, "Images are identical.\n"@)
            &&& (!differ || !strict) && !m.identical ==> holds_part(
                r@,
                "Content mismatch at offset "@ + dec(m.first_mismatch_offset as int) + "!\n"@,
            )
            &&& !differ && m.identical ==> r@ == "Images are identical.\n"@
        },
{
    broadcast use {lemma_part_stays, lemma_tail_part, lemma_last_part, lemma_first_part};

    if output_format@ != "json"@ && m.flags & 1 != 0 {
        let head = if strict {
            "Strict mode: Image size mismatch!\n"@
        } else {
            "Warning: Image size mismatch!\n"@
        };
        assert(head + Seq::<char>::empty() =~= head);
        assert(holds_part(head, head)) by {
            assert(head =~= (Seq::<char>::empty() + head) + Seq::<char>::empty());
        }
    }
    if output_format@ != "json"@ && m.flags & 1 == 0 {
        let tail = "Images are identical.\n"@;
        assert(Seq::<char>::empty() + tail =~= tail);
    }
}

/// Each error number of a measurement is explained by what went wrong.
pub proof fn law_measure_errors_are_explained(error: u32, r: &'static str)
    requires
        call_ensures(explain_measure_error, (error,), r),
    ensures
        error == 1 ==> r@ == "overflow computing target size"@,
        error == 2 ==> r@ == "invalid option for target format"@,
        error == 3 ==> r@ == "source image is unsupported format"@,
        error > 3 ==> r@ == "unknown error"@,
{
}

/// Of what there is none, nothing is said: without chain errors, repairs,
/// statistics and the like only the line on errors is left.
pub proof fn law_nothing_is_said_of_nothing(
    m: &CheckResultMessage,
    path: &str,
    output_format: &str,
    unsafe_quirks: bool,
    r: String,
)
    requires
        call_ensures(check_report, (m, path, output_format, unsafe_quirks), r),
        output_format@ != "json"@,
        m.flags & 0x40 == 0,
        m.flags & 0x100 == 0,
        m.chain_errors == 0 && m.subcluster_errors == 0,
        m.repaired_leaks == 0 && m.repaired_refcounts == 0 && m.repaired_corruptions == 0,
        m.clusters_checked == 0 && m.clusters_allocated == 0,
        m.image_end_offset == 0,
    ensures
        r@ == error_lines(*m),
{
    assert(r@ =~= error_lines(*m));
}

/// With quirks, counts that are zero are left out of JSON, and so are repairs
/// that were not made.
pub proof fn law_zero_counts_are_left_out(m: CheckResultMessage, path: Seq<char>)
    requires
        m.corruptions == 0 && m.leaks == 0 && m.refcount_errors == 0,
        m.repaired_leaks == 0 && m.repaired_refcounts == 0 && m.repaired_corruptions == 0,
    ensures
        holds_part(
            check_json(m, path, true),
            number_member("check-errors"@, m.total_errors) + number_member(
                "image-end-offset"@,
                m.image_end_offset,
            ),
        ),
        holds_part(
            check_json(m, path, true),
            number_member("subcluster-errors"@, m.subcluster_errors)
                + "    \"repair-incomplete\": "@,
        ),
{
    broadcast use {lemma_part_stays, lemma_last_part};

    let none = Seq::<char>::empty();
    let x = "{\n    \"filename\": \""@ + escaped(path, EscapeStyle::Report)
        + "\",\n    \"format\": \""@ + escaped(m.format@, EscapeStyle::Report) + "\",\n"@
        + number_member("check-errors"@, m.total_errors);
    assert(x + none =~= x);
    let y = x + number_member("image-end-offset"@, m.image_end_offset) + number_member(
        "total-clusters"@,
        m.clusters_checked,
    ) + number_member("allocated-clusters"@, m.clusters_allocated) + number_member(
        "fragmented-clusters"@,
        m.fragmentation,
    ) + "    \"dirty\": "@ + truth(m.flags & CHECK_RESULT_FLAG_DIRTY != 0)
        + ",\n    \"corrupt\": "@ + truth(m.flags & CHECK_RESULT_FLAG_CORRUPT_BIT != 0) + ",\n"@
        + number_member("chain-errors"@, m.chain_errors) + number_member(
        "subcluster-errors"@,
        m.subcluster_errors,
    );
    assert(y + none =~= y);
}

} // verus!
