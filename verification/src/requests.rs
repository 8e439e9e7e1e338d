//! The decisions a recall or feedback command makes about its request before it
//! opens a workspace.
use vstd::prelude::*;
use crate::bundle::RecallBundleId;
use crate::error::CliError;
use crate::codes::EXIT_INVALID_ARGS;
use crate::args::{is_blank, blank_text};
use crate::text::same_text;

verus! {

/// A recall query, when given, must hold more than white space.
pub fn check_recall_query(query: Option<&str>) -> (r: Result<(), CliError>)
    ensures
        match query {
            Some(q) if is_blank(q@) => r matches Err(e) && e.has(EXIT_INVALID_ARGS, "INVALID_ARGS"@,
                "recall query must not be blank"@, "provide a non-empty task description after `--query`"@),
            _ => r is Ok,
        },
{
    match query {
        Some(q) => if blank_text(q) { Err(CliError::invalid_recall_query()) } else { Ok(()) },
        None => Ok(()),
    }
}

/// The bundle a recall continues: the one its continuation cursor carries, which a
/// `--bundle-id` given alongside must match. A new recall takes no `--bundle-id`; it
/// gets a fresh bundle, so none is returned for it.
pub fn recall_bundle_choice(
    cursor_bundle: Option<RecallBundleId>,
    supplied: Option<&RecallBundleId>,
) -> (r: Result<Option<RecallBundleId>, CliError>)
    ensures
        match (cursor_bundle, supplied) {
            (Some(c), Some(s)) if c@ != s@ => r matches Err(e) && e.has(EXIT_INVALID_ARGS, "INVALID_ARGS"@,
                "--bundle-id does not match the recall continuation cursor"@,
                "pass the exact bundle_id returned by the recall page, or omit --bundle-id"@),
            (Some(c), _) => r == Ok::<Option<RecallBundleId>, CliError>(Some(c)),
            (None, Some(_)) => r matches Err(e) && e.has(EXIT_INVALID_ARGS, "INVALID_ARGS"@,
                "--bundle-id is not accepted when starting a new recall bundle"@,
                "omit --bundle-id; the first recall command creates and returns bundle_id"@),
            (None, None) => r == Ok::<Option<RecallBundleId>, CliError>(None),
        },
{
    match cursor_bundle {
        Some(c) => match supplied {
            Some(s) => if same_text(c.as_str(), s.as_str()) { Ok(Some(c)) } else { Err(CliError::recall_bundle_mismatch()) },
            None => Ok(Some(c)),
        },
        None => match supplied {
            Some(_) => Err(CliError::recall_bundle_on_new_recall()),
            None => Ok(None),
        },
    }
}

/// The bundle a feedback record is about: the global `--bundle-id`, which is required.
pub fn feedback_bundle(supplied: Option<&RecallBundleId>) -> (r: Result<RecallBundleId, CliError>)
    ensures
        match supplied {
            Some(b) => r matches Ok(x) && x@ == b@ && x.wf() == b.wf(),
            None => r matches Err(e) && e.has(EXIT_INVALID_ARGS, "INVALID_ARGS"@,
                "feedback record requires global --bundle-id"@,
                "pass the bundle_id returned by the recall used for this work"@),
        },
{
    match supplied {
        Some(b) => Ok(b.clone()),
        None => Err(CliError::feedback_bundle_required()),
    }
}

} // verus!
