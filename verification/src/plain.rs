//! Plain-text renderings of failures, for output without `--json`.
use vstd::prelude::*;
use vstd::string::*;
use crate::error::CliError;
use crate::artifacts::{CleanupReport, ArtifactError};
use crate::text::{decimal_digits, push_decimal};

verus! {

/// One line per path, each `\n- ` and the path.
pub open spec fn path_lines(paths: Seq<String>) -> Seq<char>
    decreases paths.len(),
{
    if paths.len() == 0 {
        seq![]
    } else {
        path_lines(paths.drop_last()) + "\n- "@ + paths.last()@
    }
}

/// The location lines of a cleanup report.
pub open spec fn report_places(r: CleanupReport) -> Seq<char> {
    "\nartifact_root: "@ + r.artifact_root@ + "\ntoday_dir: "@ + r.today_dir@
}

/// The size lines of a cleanup report.
pub open spec fn report_sizes(r: CleanupReport) -> Seq<char> {
    "\nbytes_before: "@ + decimal_digits(r.bytes_before as nat)
        + "\nbytes_after: "@ + decimal_digits(r.bytes_after as nat)
        + "\ncomplete: "@ + (if r.complete { "true"@ } else { "false"@ })
}

/// The count lines of a cleanup report.
pub open spec fn report_counts(r: CleanupReport) -> Seq<char> {
    "\ndeleted_dirs: "@ + decimal_digits(r.deleted_dirs@.len())
        + "\ndeleted_files: "@ + decimal_digits(r.deleted_files@.len())
        + "\nkept_dirs: "@ + decimal_digits(r.kept_dirs@.len())
}

/// The report section of a failed artifact cleanup.
pub open spec fn report_text(r: CleanupReport) -> Seq<char> {
    report_places(r) + report_sizes(r) + report_counts(r)
}

/// The deleted-paths section of a failed artifact cleanup.
pub open spec fn deleted_text(paths: Seq<String>) -> Seq<char> {
    "\ndeleted_paths:"@ + if paths.len() == 0 { " []"@ } else { path_lines(paths) }
}

/// The plain text of a failed artifact cleanup.
pub open spec fn cleanup_error_text(error: CliError, artifact_error: ArtifactError) -> Seq<char> {
    error.code@ + ": "@ + error.message@
        + (match artifact_error.report { Some(r) => report_text(r), None => seq![] })
        + (match artifact_error.deleted_paths { Some(p) => deleted_text(p@), None => seq![] })
}

/// Appends `\nlabel` and the decimal digits of `n`.
fn push_count(out: &mut String, label: &str, n: u128)
    ensures
        final(out)@ == old(out)@ + label@ + decimal_digits(n as nat),
{
    out.append(label);
    push_decimal(out, n);
}

/// Appends the report section.
fn push_report(out: &mut String, r: &CleanupReport)
    ensures
        final(out)@ == old(out)@ + report_text(*r),
{
    let ghost o0 = out@;
    out.append("\nartifact_root: ");
    out.append(r.artifact_root.as_str());
    out.append("\ntoday_dir: ");
    out.append(r.today_dir.as_str());
    assert(out@ =~= o0 + report_places(*r));
    let ghost o1 = out@;
    push_count(out, "\nbytes_before: ", r.bytes_before as u128);
    push_count(out, "\nbytes_after: ", r.bytes_after as u128);
    out.append("\ncomplete: ");
    out.append(if r.complete { "true" } else { "false" });
    assert(out@ =~= o1 + report_sizes(*r));
    let ghost o2 = out@;
    push_count(out, "\ndeleted_dirs: ", r.deleted_dirs.len() as u128);
    push_count(out, "\ndeleted_files: ", r.deleted_files.len() as u128);
    push_count(out, "\nkept_dirs: ", r.kept_dirs.len() as u128);
    assert(out@ =~= o2 + report_counts(*r));
    assert(out@ =~= o0 + report_text(*r));
}

/// The plain text of a failed cleanup that carries its report opens with the code and
/// the message, then one line per report field: the root and today's directory, the
/// sizes before and after, whether the cleanup completed, and the number of deleted
/// directories, deleted files and kept directories, each the length of the list it names.
pub proof fn lemma_cleanup_text_report(error: CliError, artifact_error: ArtifactError, rep: CleanupReport)
    requires
        artifact_error.report == Some(rep),
    ensures
        (error.code@ + ": "@ + error.message@
            + "\nartifact_root: "@ + rep.artifact_root@ + "\ntoday_dir: "@ + rep.today_dir@
            + "\nbytes_before: "@ + decimal_digits(rep.bytes_before as nat)
            + "\nbytes_after: "@ + decimal_digits(rep.bytes_after as nat)
            + "\ncomplete: "@ + (if rep.complete { "true"@ } else { "false"@ })
            + "\ndeleted_dirs: "@ + decimal_digits(rep.deleted_dirs@.len())
            + "\ndeleted_files: "@ + decimal_digits(rep.deleted_files@.len())
            + "\nkept_dirs: "@ + decimal_digits(rep.kept_dirs@.len())).is_prefix_of(cleanup_error_text(error, artifact_error)),
{
    let head = error.code@ + ": "@ + error.message@
            + "\nartifact_root: "@ + rep.artifact_root@ + "\ntoday_dir: "@ + rep.today_dir@
            + "\nbytes_before: "@ + decimal_digits(rep.bytes_before as nat)
            + "\nbytes_after: "@ + decimal_digits(rep.bytes_after as nat)
            + "\ncomplete: "@ + (if rep.complete { "true"@ } else { "false"@ })
            + "\ndeleted_dirs: "@ + decimal_digits(rep.deleted_dirs@.len())
            + "\ndeleted_files: "@ + decimal_digits(rep.deleted_files@.len())
            + "\nkept_dirs: "@ + decimal_digits(rep.kept_dirs@.len());
    let whole = cleanup_error_text(error, artifact_error);
    let rest = match artifact_error.deleted_paths { Some(p) => deleted_text(p@), None => seq![] };
    assert(whole =~= head + rest);
    assert(whole.subrange(0, head.len() as int) =~= head);
}

/// The plain text a failed artifact cleanup prints: `code: message`, then the
/// cleanup report, then the paths already deleted, each where the failure has them.
pub fn artifact_cleanup_error_text(error: &CliError, artifact_error: &ArtifactError) -> (r: String)
    ensures
        r@ == cleanup_error_text(*error, *artifact_error),
        artifact_error.report matches Some(rep) ==> (error.code@ + ": "@ + error.message@
            + "\nartifact_root: "@ + rep.artifact_root@ + "\ntoday_dir: "@ + rep.today_dir@
            + "\nbytes_before: "@ + decimal_digits(rep.bytes_before as nat)
            + "\nbytes_after: "@ + decimal_digits(rep.bytes_after as nat)
            + "\ncomplete: "@ + (if rep.complete { "true"@ } else { "false"@ })
            + "\ndeleted_dirs: "@ + decimal_digits(rep.deleted_dirs@.len())
            + "\ndeleted_files: "@ + decimal_digits(rep.deleted_files@.len())
            + "\nkept_dirs: "@ + decimal_digits(rep.kept_dirs@.len())).is_prefix_of(r@),
{
    proof {
        if artifact_error.report is Some {
            lemma_cleanup_text_report(*error, *artifact_error, artifact_error.report->0);
        }
    }
    let mut out = String::new();
    out.append(error.code);
    out.append(": ");
    out.append(error.message.as_str());
    match artifact_error.cleanup_report() {
        Some(report) => push_report(&mut out, report),
        None => {},
    }
    let ghost head = out@;
    match artifact_error.deleted_paths() {
        Some(paths) => {
            out.append("\ndeleted_paths:");
            if paths.len() == 0 {
                out.append(" []");
            } else {
                let ghost start = out@;
                let mut i: usize = 0;
                while i < paths.len()
                    invariant
                        i <= paths@.len(),
                        out@ == start + path_lines(paths@.take(i as int)),
                    decreases paths@.len() - i,
                {
                    out.append("\n- ");
                    out.append(paths[i].as_str());
                    assert(paths@.take(i + 1).drop_last() =~= paths@.take(i as int));
                    i = i + 1;
                }
                assert(paths@.take(paths@.len() as int) =~= paths@);
            }
            assert(out@ =~= head + deleted_text(paths@));
        },
        None => {},
    }
    assert(out@ =~= cleanup_error_text(*error, *artifact_error));
    out
}

} // verus!
