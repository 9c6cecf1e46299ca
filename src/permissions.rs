use vstd::prelude::*;
use crate::text::{contains_chars, text_contains};
use crate::types::{PermissionStatus, SCError};

verus! {

/// Reading of the operating system's capture authorization.
pub struct PermissionHelpers;

impl PermissionHelpers {
    /// The status that an authorization query's answer stands for.
    pub fn status_of(granted: bool) -> (r: PermissionStatus)
        ensures
            r == if granted {
                PermissionStatus::Granted
            } else {
                PermissionStatus::Denied
            },
    {
        if granted {
            PermissionStatus::Granted
        } else {
            PermissionStatus::Denied
        }
    }
}

/// The recovery step suggested for an error reported by the capture service.
pub open spec fn recovery_for(description: Seq<char>) -> Seq<char> {
    if contains_chars(description, "permission"@) || contains_chars(description, "access"@) {
        "Permission issue detected. Please check screen recording permissions."@
    } else if contains_chars(description, "content"@) || contains_chars(description, "filter"@) {
        "Content filter issue. Try selecting a different screen or window."@
    } else if contains_chars(description, "stream"@) {
        "Stream configuration issue. Check video/audio settings."@
    } else if contains_chars(description, "delegate"@) {
        "Delegate issue. This is likely an internal error."@
    } else {
        "Unknown ScreenCaptureKit error. Check system compatibility."@
    }
}

/// Decisions of the permission gate.
pub struct PermissionManager;

impl PermissionManager {
    /// Whether a prompt must follow the silent check.
    pub fn needs_request(checked: PermissionStatus) -> (r: bool)
        ensures
            r == (checked != PermissionStatus::Granted),
    {
        checked != PermissionStatus::Granted
    }

    /// Whether the user can still be asked.
    pub fn can_request(status: PermissionStatus) -> (r: bool)
        ensures
            r == (status != PermissionStatus::Restricted),
    {
        status != PermissionStatus::Restricted
    }

    /// The error text of the capture service, with the recovery step that
    /// its wording points to.
    pub fn handle_screencapturekit_error(error_description: &str) -> (r: String)
        ensures
            r@ == "Error: "@ + error_description@ + " | Recovery: "@ + recovery_for(
                error_description@,
            ),
    {
        let recovery = if text_contains(error_description, "permission") || text_contains(
            error_description,
            "access",
        ) {
            "Permission issue detected. Please check screen recording permissions."
        } else if text_contains(error_description, "content") || text_contains(
            error_description,
            "filter",
        ) {
            "Content filter issue. Try selecting a different screen or window."
        } else if text_contains(error_description, "stream") {
            "Stream configuration issue. Check video/audio settings."
        } else if text_contains(error_description, "delegate") {
            "Delegate issue. This is likely an internal error."
        } else {
            "Unknown ScreenCaptureKit error. Check system compatibility."
        };
        let mut r = "Error: ".to_owned();
        r.append(error_description);
        r.append(" | Recovery: ");
        r.append(recovery);
        r
    }

    /// The outcome of ensuring permission: granted by the silent check, or
    /// else by the one prompt (`requested`, absent when no prompt was
    /// made); otherwise `PermissionDenied`.
    pub fn ensure_permission(checked: PermissionStatus, requested: Option<PermissionStatus>) -> (r:
        Result<(), SCError>)
        ensures
            r is Ok <==> (checked == PermissionStatus::Granted || requested == Some(
                PermissionStatus::Granted,
            )),
            r matches Err(e) ==> e is PermissionDenied,
    {
        if checked == PermissionStatus::Granted {
            return Ok(());
        }
        match requested {
            Some(PermissionStatus::Granted) => Ok(()),
            _ => Err(SCError::PermissionDenied),
        }
    }
}

} // verus!
