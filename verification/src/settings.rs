//! What `config` says of the configuration files.
use vstd::prelude::*;
use crate::text::{holds_part, lemma_part_stays};

verus! {

/// A configuration file with an error.
#[derive(Debug)]
pub struct FileError {
    pub path: String,
    pub error: String,
}

/// What a validation says, and whether it failed.
#[derive(Debug)]
pub struct Validation {
    /// The text for the user: for the error output where it failed.
    pub text: String,
    pub failure: Option<&'static str>,
}

/// A line for each file with an error.
pub open spec fn error_lines(errors: Seq<FileError>) -> Seq<char>
    decreases errors.len(),
{
    if errors.len() == 0 {
        Seq::empty()
    } else {
        error_lines(errors.drop_last()) + "  "@ + errors.last().path@ + ": "@ + errors.last().error@
            + "\n"@
    }
}

/// Says what a validation of the configuration files found.
pub fn validation(errors: &Vec<FileError>) -> (r: Validation)
    ensures
        if errors@.len() == 0 {
            r.text@ == "All configuration files are valid.\n"@ && r.failure is None
        } else {
            r.text@ == "Configuration errors found:\n"@ + error_lines(errors@) && r.failure is Some
                && r.failure->Some_0@ == "configuration validation failed"@
        },
{
    if errors.len() == 0 {
        return Validation {
            text: "All configuration files are valid.\n".to_owned(),
            failure: None,
        };
    }
    let mut s = "Configuration errors found:\n".to_owned();
    let ghost head = s@;
    let mut i: usize = 0;
    proof {
        assert(errors@.take(0) =~= Seq::<FileError>::empty());
        assert(s@ =~= head + error_lines(errors@.take(0)));
    }
    while i < errors.len()
        invariant
            i <= errors@.len(),
            s@ == head + error_lines(errors@.take(i as int)),
        decreases errors.len() - i,
    {
        let ghost now = error_lines(errors@.take(i as int));
        s.append("  ");
        s.append(errors[i].path.as_str());
        s.append(": ");
        s.append(errors[i].error.as_str());
        s.append("\n");
        proof {
            assert(errors@.take(i + 1).drop_last() =~= errors@.take(i as int));
            assert(s@ =~= head + (now + "  "@ + errors@[i as int].path@ + ": "@
                + errors@[i as int].error@ + "\n"@));
        }
        i = i + 1;
    }
    assert(errors@.take(i as int) =~= errors@);
    Validation { text: s, failure: Some("configuration validation failed") }
}

// ---------------------------------------------------------------------------
// Laws
// ---------------------------------------------------------------------------

/// A validation fails exactly where there is an error, and then tells of each
/// file with its own error.
pub proof fn law_each_error_is_told(errors: &Vec<FileError>, r: Validation, i: int)
    requires
        call_ensures(validation, (errors,), r),
    ensures
        r.failure is None <==> errors@.len() == 0,
        0 <= i < errors@.len() ==> holds_part(
            r.text@,
            "  "@ + errors@[i].path@ + ": "@ + errors@[i].error@ + "\n"@,
        ),
{
    if 0 <= i < errors@.len() {
        lemma_line_of_error(errors@, i);
        let part = "  "@ + errors@[i].path@ + ": "@ + errors@[i].error@ + "\n"@;
        let (before, after) = choose|before: Seq<char>, after: Seq<char>|
            error_lines(errors@) == #[trigger] ((before + part) + after);
        assert(r.text@ =~= (("Configuration errors found:\n"@ + before) + part) + after);
    }
}

proof fn lemma_line_of_error(errors: Seq<FileError>, i: int)
    requires
        0 <= i < errors.len(),
    ensures
        holds_part(
            error_lines(errors),
            "  "@ + errors[i].path@ + ": "@ + errors[i].error@ + "\n"@,
        ),
    decreases errors.len(),
{
    broadcast use lemma_part_stays;

    let part = "  "@ + errors[i].path@ + ": "@ + errors[i].error@ + "\n"@;
    let shorter = errors.drop_last();
    if i == errors.len() - 1 {
        assert(error_lines(errors) =~= (error_lines(shorter) + part) + Seq::<char>::empty());
    } else {
        lemma_line_of_error(shorter, i);
        assert(shorter[i] == errors[i]);
    }
}

} // verus!
