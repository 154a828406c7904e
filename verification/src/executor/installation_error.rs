use vstd::prelude::*;

verus! {

/// A tool that could not be installed, with what is known of why and where.
#[derive(Debug, Clone)]
pub struct InstallationError {
    pub tool_name: String,
    pub error_message: Option<String>,
    pub directory: Option<String>,
}

} // verus!
