//! Who may change the application configuration, and when a change made
//! against an earlier revision is refused. Storing the configuration is the
//! repository's part.

use vstd::prelude::*;
use vstd::string::*;

use crate::speech::str_eq;
use crate::text::{decimal, decimal_string};

verus! {

/// The windows that may change the application configuration.
pub open spec fn configuration_writer(label: Seq<char>) -> bool {
    label == "main"@ || label == "appearance"@
}

/// Only the main and appearance windows may change the configuration.
pub fn require_configuration_writer(label: &str) -> (result: Result<(), String>)
    ensures
        result is Ok <==> configuration_writer(label@),
        result matches Err(message) ==> message@ == "The "@ + label@
            + " window is not allowed to change application configuration."@,
{
    if str_eq(label, "main") || str_eq(label, "appearance") {
        return Ok(());
    }
    let mut message = String::from_str("The ");
    message.append(label);
    message.append(" window is not allowed to change application configuration.");
    Err(message)
}

/// Judges a configuration change made against `expected_revision` while the
/// stored configuration is at `current_revision`: a change against an
/// earlier revision is refused, and model selections only change through
/// the model-management commands.
pub fn check_configuration_update(current_revision: u64, expected_revision: u64, models_unchanged: bool) -> (result: Result<(), String>)
    ensures
        result is Ok <==> current_revision == expected_revision && models_unchanged,
        current_revision != expected_revision ==> (result matches Err(message) && message@
            == "Configuration revision "@ + decimal(expected_revision as nat)
            + " is stale; current revision is "@ + decimal(current_revision as nat) + "."@),
        current_revision == expected_revision && !models_unchanged ==> (result matches Err(message)
            && message@ == "Model selections must be changed through the model-management commands."@),
{
    if current_revision != expected_revision {
        let mut message = String::from_str("Configuration revision ");
        message.append(decimal_string(expected_revision).as_str());
        message.append(" is stale; current revision is ");
        message.append(decimal_string(current_revision).as_str());
        message.append(".");
        return Err(message);
    }
    if !models_unchanged {
        return Err(String::from_str("Model selections must be changed through the model-management commands."));
    }
    Ok(())
}

/// The refusal of a configuration request before the configuration loaded.
pub fn uninitialized_configuration() -> (message: String)
    ensures
        message@ == "The local configuration has not initialized yet."@,
{
    String::from_str("The local configuration has not initialized yet.")
}

} // verus!
