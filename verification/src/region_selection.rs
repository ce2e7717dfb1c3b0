//! Choosing a region of a display for visual translation: which display
//! the selector covers, and which drawn regions are accepted.

use vstd::prelude::*;
use vstd::string::*;

use crate::contracts::{
    error_is, ApplicationError, ApplicationErrorCode, ErrorRecoverability, PixelRect,
    RecoveryAction, VisualRegionSelected, VisualRegionSelectorRequest, VisualSource,
};
use crate::models::{first_with, first_with_scan};
use crate::speech::str_eq;

verus! {

/// The index of the first display whose identifier is `id`.
pub open spec fn display_index(displays: Seq<VisualSource>, id: Seq<char>) -> Option<int> {
    first_with(displays, |display: VisualSource| display.id@, id)
}

/// Finds the display the user chose; it may have gone since the list was
/// shown.
pub fn selected_display(displays: &Vec<VisualSource>, display_id: &str) -> (result: Result<usize, ApplicationError>)
    ensures
        match display_index(displays@, display_id@) {
            Some(i) => result == Ok::<usize, ApplicationError>(i as usize),
            None => result matches Err(error) && error_is(
                error,
                ApplicationErrorCode::CaptureUnavailable,
                "The selected display is no longer available."@,
                ErrorRecoverability::UserActionRequired,
                RecoveryAction::ChooseAnotherSource,
                None,
            ),
        },
        result matches Ok(i) ==> i < displays@.len() && displays@[i as int].id@ == display_id@,
{
    let mut index: usize = 0;
    while index < displays.len()
        invariant
            index <= displays@.len(),
            forall|j: int| 0 <= j < index ==> (#[trigger] displays@[j]).id@ != display_id@,
        decreases displays@.len() - index,
    {
        if str_eq(displays[index].id.as_str(), display_id) {
            proof {
                first_with_scan(displays@, |display: VisualSource| display.id@, display_id@, index as int);
            }
            return Ok(index);
        }
        index = index + 1;
    }
    proof {
        first_with_scan(displays@, |display: VisualSource| display.id@, display_id@, index as int);
    }
    Err(
        ApplicationError::new(
            ApplicationErrorCode::CaptureUnavailable,
            "The selected display is no longer available.",
            ErrorRecoverability::UserActionRequired,
            RecoveryAction::ChooseAnotherSource,
        ),
    )
}

/// What the selector is asked to cover: the whole display.
pub fn selector_request(display: &VisualSource) -> (request: VisualRegionSelectorRequest)
    ensures
        request.display_id@ == display.id@,
        request.width == display.width,
        request.height == display.height,
{
    VisualRegionSelectorRequest {
        display_id: display.id.clone(),
        width: display.width,
        height: display.height,
    }
}

/// Accepts a drawn region only when it is non-empty and lies on the display.
pub fn accept_region(display_id: String, region: PixelRect, display: &VisualSource) -> (result: Result<VisualRegionSelected, ApplicationError>)
    ensures
        region.fits_within_spec(display.width, display.height) ==> result == Ok::<
            VisualRegionSelected,
            ApplicationError,
        >(VisualRegionSelected { display_id, region }),
        !region.fits_within_spec(display.width, display.height) ==> (result matches Err(error)
            && error_is(
            error,
            ApplicationErrorCode::ConfigurationInvalid,
            "The selected region is outside the display."@,
            ErrorRecoverability::UserActionRequired,
            RecoveryAction::ChooseAnotherSource,
            None,
        )),
{
    if !region.fits_within(display.width, display.height) {
        return Err(
            ApplicationError::new(
                ApplicationErrorCode::ConfigurationInvalid,
                "The selected region is outside the display.",
                ErrorRecoverability::UserActionRequired,
                RecoveryAction::ChooseAnotherSource,
            ),
        );
    }
    Ok(VisualRegionSelected { display_id, region })
}

} // verus!
