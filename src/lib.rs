//! Host-side core of a bridge to a native audio framework: layout mirrors,
//! collection views, capability lifecycles, the runtime guard and the
//! message queue of the affine thread.

pub mod application;
pub mod array;
pub mod bridge;
pub mod buffer;
pub mod channels;
pub mod device;
pub mod device_callback;
pub mod device_manager;
pub mod file;
pub mod layout;
pub mod message_manager;
pub mod plugin_description;
pub mod plugin_formats;
pub mod runtime;
mod slots;
pub mod string;
pub mod time;

use crate::string::JuceString;
use vstd::prelude::*;

verus! {

/// A failure that the foreign runtime reports, with its diagnostic text.
#[derive(Debug)]
pub struct JuceError(pub JuceString);

impl JuceError {
    /// The diagnostic text.
    pub fn message(&self) -> (r: &JuceString)
        ensures
            r@ == self.0@,
    {
        &self.0
    }
}

/// Reads the foreign success idiom: an empty diagnostic means success, any
/// other text is the error.
pub fn result_from_diagnostic(diagnostic: JuceString) -> (r: Result<(), JuceError>)
    ensures
        diagnostic@.len() == 0 <==> r is Ok,
        r matches Err(e) ==> e.0@ == diagnostic@,
{
    if diagnostic.is_empty() {
        Ok(())
    } else {
        Err(JuceError(diagnostic))
    }
}

/// Whether `diagnostic` is how the foreign idiom writes `result`.
pub open spec fn diagnostic_matches(result: Result<(), JuceError>, diagnostic: Seq<char>) -> bool {
    match result {
        Ok(()) => diagnostic.len() == 0,
        Err(e) => diagnostic == e.0@,
    }
}

/// Writes the foreign success idiom: success is the empty diagnostic, an
/// error is its own text.
pub fn diagnostic_from_result(result: Result<(), JuceError>) -> (r: JuceString)
    ensures
        diagnostic_matches(result, r@),
{
    match result {
        Ok(()) => JuceString::default(),
        Err(e) => e.0,
    }
}

} // verus!
