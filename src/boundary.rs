use vstd::prelude::*;

use crate::error::{status_code, status_of, ErrorKind, STATUS_OK, STATUS_OPEN_FAILED};
use crate::host::HostSigningBlock;
use crate::model::SigningBlock;
use crate::projection::project_signing_block;

verus! {

/// What the host bridge observed while running a verification: the path
/// could not be read, the archive could not be opened, or the engine
/// checked the opened archive with the given result.
pub enum VerifyOutcome {
    PathUnreadable,
    OpenFailed,
    Checked(Result<(), ErrorKind>),
}

/// What the host bridge observed while extracting a signing block: the path
/// could not be read, the archive could not be opened, or the engine's
/// extraction returned the given result.
pub enum ExtractOutcome {
    PathUnreadable,
    OpenFailed,
    Extracted(Result<SigningBlock, ErrorKind>),
}

/// The status code that a verification outcome reports.
pub open spec fn verify_status_of(o: VerifyOutcome) -> i32 {
    match o {
        VerifyOutcome::PathUnreadable => STATUS_OPEN_FAILED,
        VerifyOutcome::OpenFailed => STATUS_OPEN_FAILED,
        VerifyOutcome::Checked(Ok(())) => STATUS_OK,
        VerifyOutcome::Checked(Err(kind)) => status_of(kind),
    }
}

/// The signing block that an extraction outcome delivers, if any.
pub open spec fn extracted_block(o: ExtractOutcome) -> Option<SigningBlock> {
    match o {
        ExtractOutcome::Extracted(Ok(sb)) => Some(sb),
        _ => None,
    }
}

/// The status code to return across the boundary for a verification.
pub fn verify_status(o: &VerifyOutcome) -> (r: i32)
    ensures
        r == verify_status_of(*o),
{
    match o {
        VerifyOutcome::PathUnreadable => STATUS_OPEN_FAILED,
        VerifyOutcome::OpenFailed => STATUS_OPEN_FAILED,
        VerifyOutcome::Checked(Ok(())) => STATUS_OK,
        VerifyOutcome::Checked(Err(kind)) => status_code(*kind),
    }
}

/// The coarse form of `verify_status`: whether verification fully succeeded.
pub fn verify_passed(o: &VerifyOutcome) -> (r: bool)
    ensures
        r == (verify_status_of(*o) == STATUS_OK),
{
    verify_status(o) == STATUS_OK
}

/// The host graph to return for an extraction: the projection of the
/// extracted block, or nothing when any step before it failed.
pub fn signing_block_result(o: &ExtractOutcome) -> (r: Option<HostSigningBlock>)
    ensures
        r is Some <==> extracted_block(*o) is Some,
        r matches Some(h) ==> h.projects(extracted_block(*o)->0),
{
    match o {
        ExtractOutcome::Extracted(Ok(sb)) => Some(project_signing_block(sb)),
        _ => None,
    }
}

/// A verification reports success exactly when the engine's check
/// succeeded, and each failure kind it reports by that kind's own code.
pub proof fn lemma_verify_status_exact(o: VerifyOutcome)
    ensures
        verify_status_of(o) == STATUS_OK <==> o matches VerifyOutcome::Checked(Ok(_)),
        o matches VerifyOutcome::Checked(Err(kind)) ==> verify_status_of(o) == status_of(kind),
        !(o is Checked) ==> verify_status_of(o) == STATUS_OPEN_FAILED,
{
    if let VerifyOutcome::Checked(Err(kind)) = o {
        crate::error::lemma_status_codes_distinct(kind, kind);
    }
}

/// Extraction yields a block exactly when the engine extracted one; a path
/// that cannot be read, an archive that cannot be opened or a failed
/// extraction yields nothing. Verification plays no part in it.
pub proof fn lemma_extraction_outcome(o: ExtractOutcome)
    ensures
        extracted_block(o) is Some <==> o matches ExtractOutcome::Extracted(Ok(_)),
        extracted_block(o) is None <==> {
            ||| o is PathUnreadable
            ||| o is OpenFailed
            ||| o matches ExtractOutcome::Extracted(Err(_))
        },
{
}

} // verus!
