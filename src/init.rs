//! Start of a scan unit: the metadata buffer becomes the installed report.
use vstd::prelude::*;

use crate::cache::{set_local, ReportCache};
use crate::report::BehaviorReport;

verus! {

/// Failure reported once per scan unit, at initialisation.
#[derive(Clone, Debug, PartialEq, Eq)]
pub enum ModuleError {
    /// The metadata buffer is not a report; `err` is the parser's message.
    MetadataError { err: String },
}

/// The scan unit carries a metadata buffer that is not empty.
pub open spec fn has_metadata(meta: Option<&[u8]>) -> bool {
    meta matches Some(b) && b@.len() > 0
}

/// What a parse outcome leaves installed: the report, or an empty one.
pub open spec fn report_after(outcome: Result<BehaviorReport, String>) -> BehaviorReport {
    match outcome {
        Ok(rep) => rep,
        Err(_) => BehaviorReport { network: None, behavior: None },
    }
}

/// What a parse outcome reports upward: nothing, or the parser's message.
pub open spec fn result_after(outcome: Result<BehaviorReport, String>) -> Result<(), ModuleError> {
    match outcome {
        Ok(_) => Ok(()),
        Err(e) => Err(ModuleError::MetadataError { err: e }),
    }
}

/// Installs the outcome of parsing a metadata buffer. A failed parse still
/// leaves an empty report, so that later queries are well defined.
pub fn install_parsed(cache: &mut ReportCache, outcome: Result<BehaviorReport, String>) -> (r: Result<(), ModuleError>)
    ensures
        final(cache)@ == Some(report_after(outcome)),
        r == result_after(outcome),
{
    match outcome {
        Ok(parsed) => {
            set_local(cache, parsed);
            Ok(())
        },
        Err(e) => {
            set_local(cache, BehaviorReport::empty());
            Err(ModuleError::MetadataError { err: e })
        },
    }
}

/// Initialises `cache` for a scan unit. Without metadata (absent or empty)
/// the empty report is installed and `parse` is not called; otherwise the
/// buffer is handed to `parse` and its outcome installed.
pub fn initialize<P: FnOnce(&[u8]) -> Result<BehaviorReport, String>>(
    cache: &mut ReportCache,
    meta: Option<&[u8]>,
    parse: P,
) -> (r: Result<(), ModuleError>)
    requires
        meta matches Some(b) ==> parse.requires((b,)),
    ensures
        !has_metadata(meta) ==> r is Ok && final(cache)@ == Some(
            BehaviorReport { network: None, behavior: None },
        ),
        has_metadata(meta) ==> exists|outcome: Result<BehaviorReport, String>|
            #![trigger parse.ensures((meta->0,), outcome)]
            parse.ensures((meta->0,), outcome) && final(cache)@ == Some(report_after(outcome)) && r
                == result_after(outcome),
{
    match meta {
        None => {
            set_local(cache, BehaviorReport::empty());
            Ok(())
        },
        Some(bytes) => {
            if bytes.len() == 0 {
                set_local(cache, BehaviorReport::empty());
                Ok(())
            } else {
                let outcome = parse(bytes);
                install_parsed(cache, outcome)
            }
        },
    }
}

} // verus!
