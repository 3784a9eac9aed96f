//! Unpacking the embedded Sedna installation: which files become programs,
//! the steps each file takes, and the errors those steps report.
use vstd::prelude::*;

use crate::error::{SednaError, SednaErrorView};
use crate::text::has_prefix;

verus! {

/// The directory of the installation that holds the Sedna programs.
pub const BINARY_DIR: &'static str = "bin";

/// The permissions given to the unpacked programs: `rwxr-xr-x`.
pub const PROGRAM_MODE: u32 = 0o755;

/// Whether the installation file at `path` is a program, that is, lies in
/// `bin/`.
pub open spec fn is_program_path(path: Seq<char>) -> bool {
    "bin/"@.is_prefix_of(path)
}

/// Whether the installation file at `path` is a program.
pub fn is_program_file(path: &str) -> (b: bool)
    ensures
        b == is_program_path(path@),
        b == "bin/"@.is_prefix_of(path@),
{
    has_prefix(path, "bin/")
}

/// One step of unpacking an installation file.
#[derive(Debug, Clone, Copy, PartialEq, Eq, Structural)]
pub enum FileStep {
    /// Look the file up among the embedded ones.
    Lookup,
    /// Create the directory the file goes into.
    CreateParent,
    /// Write the file's contents.
    Write,
    /// Read the written file's permissions.
    ReadPermissions,
    /// Set the file's permissions to `mode`.
    SetPermissions(u32),
}

/// The steps that unpack the file at `path`, in order: programs are also
/// made executable.
pub open spec fn file_plan(path: Seq<char>) -> Seq<FileStep> {
    let common = seq![FileStep::Lookup, FileStep::CreateParent, FileStep::Write];
    if is_program_path(path) {
        common + seq![FileStep::ReadPermissions, FileStep::SetPermissions(PROGRAM_MODE)]
    } else {
        common
    }
}

/// The steps that unpack the installation file at `path`.
pub fn file_steps(path: &str) -> (steps: Vec<FileStep>)
    ensures
        steps@ == file_plan(path@),
        steps@.len() >= 3,
        steps@[0] == FileStep::Lookup,
        steps@[1] == FileStep::CreateParent,
        steps@[2] == FileStep::Write,
        steps@.contains(FileStep::SetPermissions(0o755)) <==> "bin/"@.is_prefix_of(path@),
        steps@.len() == 5 <==> "bin/"@.is_prefix_of(path@),
        steps@.len() == 3 <==> !"bin/"@.is_prefix_of(path@),
{
    let mut steps: Vec<FileStep> = Vec::new();
    steps.push(FileStep::Lookup);
    steps.push(FileStep::CreateParent);
    steps.push(FileStep::Write);
    if is_program_file(path) {
        steps.push(FileStep::ReadPermissions);
        steps.push(FileStep::SetPermissions(PROGRAM_MODE));
    }
    assert(steps@ =~= file_plan(path@));
    proof {
        lemma_plan_shape(path@);
    }
    steps
}

/// Every plan looks the file up, makes its directory and writes it, in that
/// order; it sets permissions, to `rwxr-xr-x`, exactly when the file lies in
/// `bin/`, and then it first reads them.
pub proof fn lemma_plan_shape(path: Seq<char>)
    ensures
        file_plan(path).len() >= 3,
        file_plan(path)[0] == FileStep::Lookup,
        file_plan(path)[1] == FileStep::CreateParent,
        file_plan(path)[2] == FileStep::Write,
        file_plan(path).contains(FileStep::SetPermissions(0o755)) <==> "bin/"@.is_prefix_of(path),
        file_plan(path).len() == 5 <==> "bin/"@.is_prefix_of(path),
        file_plan(path).len() == 3 <==> !"bin/"@.is_prefix_of(path),
        "bin/"@.is_prefix_of(path) ==> file_plan(path)[3] == FileStep::ReadPermissions
            && file_plan(path)[4] == FileStep::SetPermissions(0o755),
{
    let plan = file_plan(path);
    if "bin/"@.is_prefix_of(path) {
        assert(plan[4] == FileStep::SetPermissions(0o755));
    } else {
        assert forall|i: int| 0 <= i < plan.len() implies plan[i] != FileStep::SetPermissions(
            0o755,
        ) by {}
    }
}

/// Every file of the installation's `bin/` directory, whatever its name, is
/// made executable: its plan ends by reading its permissions and setting
/// them to `rwxr-xr-x`.
pub proof fn lemma_programs_made_executable(name: Seq<char>)
    ensures
        file_plan("bin/"@ + name).contains(FileStep::SetPermissions(PROGRAM_MODE)),
        file_plan("bin/"@ + name).last() == FileStep::SetPermissions(0o755),
        file_plan("bin/"@ + name)[file_plan("bin/"@ + name).len() - 2] == FileStep::ReadPermissions,
{
    let path = "bin/"@ + name;
    assert(path.subrange(0, "bin/"@.len() as int) =~= "bin/"@);
    assert("bin/"@.is_prefix_of(path));
    lemma_plan_shape(path);
}

/// A file outside `bin/` keeps the permissions it is written with: its plan
/// neither reads nor sets them.
pub proof fn lemma_other_files_not_made_executable(path: Seq<char>, mode: u32)
    requires
        !"bin/"@.is_prefix_of(path),
    ensures
        !file_plan(path).contains(FileStep::SetPermissions(mode)),
        !file_plan(path).contains(FileStep::ReadPermissions),
{
    let plan = file_plan(path);
    assert forall|i: int| 0 <= i < plan.len() implies plan[i] != FileStep::SetPermissions(mode)
        && plan[i] != FileStep::ReadPermissions by {}
}

/// A failed part of unpacking the installation.
#[derive(Debug, Clone, Copy, PartialEq, Eq, Structural)]
pub enum ExtractFailure {
    /// The temporary directory could not be created.
    TempDir,
    /// A file step failed.
    Step(FileStep),
}

/// The error of a failed part of unpacking: `subject` is the file's path, or
/// for `CreateParent` the directory's; `detail` is the system's message.
pub open spec fn extraction_error_view(
    failure: ExtractFailure,
    subject: Seq<char>,
    detail: Seq<char>,
) -> SednaErrorView {
    SednaErrorView::BinaryExtractionFailed(
        match failure {
            ExtractFailure::TempDir => "Failed to create temp dir: "@ + detail,
            ExtractFailure::Step(FileStep::Lookup) => "Failed to get embedded file: "@ + subject,
            ExtractFailure::Step(FileStep::CreateParent) => "Failed to create directory "@ + subject
                + ": "@ + detail,
            ExtractFailure::Step(FileStep::Write) => "Failed to write file "@ + subject + ": "@
                + detail,
            ExtractFailure::Step(FileStep::ReadPermissions) => "Failed to get metadata for "@
                + subject + ": "@ + detail,
            ExtractFailure::Step(FileStep::SetPermissions(_)) => "Failed to set permissions for "@
                + subject + ": "@ + detail,
        },
    )
}

/// Builds the error of a failed part of unpacking.
pub fn extraction_error(failure: ExtractFailure, subject: &str, detail: &str) -> (e: SednaError)
    ensures
        e@ == extraction_error_view(failure, subject@, detail@),
{
    let mut text = match failure {
        ExtractFailure::TempDir => String::from_str("Failed to create temp dir: "),
        ExtractFailure::Step(FileStep::Lookup) => String::from_str("Failed to get embedded file: "),
        ExtractFailure::Step(FileStep::CreateParent) => String::from_str("Failed to create directory "),
        ExtractFailure::Step(FileStep::Write) => String::from_str("Failed to write file "),
        ExtractFailure::Step(FileStep::ReadPermissions) => String::from_str("Failed to get metadata for "),
        ExtractFailure::Step(FileStep::SetPermissions(_)) => String::from_str(
            "Failed to set permissions for ",
        ),
    };
    match failure {
        ExtractFailure::TempDir => {
            text.append(detail);
        },
        ExtractFailure::Step(FileStep::Lookup) => {
            text.append(subject);
        },
        _ => {
            text.append(subject);
            text.append(": ");
            text.append(detail);
        },
    }
    SednaError::BinaryExtractionFailed(text)
}

} // verus!
