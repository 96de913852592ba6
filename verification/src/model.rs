//! The result of a lookup as the service reports it. Every attribute may be
//! absent, whether the service left it out or sent it as null.

use vstd::prelude::*;

verus! {

/// What the service knows about the caller's name.
#[derive(Debug, PartialEq, Eq)]
pub struct CallerName {
    pub caller_name: Option<String>,
    pub caller_type: Option<String>,
    pub error_code: Option<u64>,
}

/// What the service knows about the line and its carrier.
#[derive(Debug, PartialEq, Eq)]
pub struct LineTypeIntelligence {
    pub carrier_name: Option<String>,
    pub error_code: Option<u64>,
    pub mobile_country_code: Option<String>,
    pub mobile_network_code: Option<String>,
    /// The attribute that the service calls `type`.
    pub line_type: Option<String>,
}

/// The result of one lookup.
#[derive(Debug, PartialEq, Eq)]
pub struct Lookup {
    pub call_forwarding: Option<String>,
    pub caller_name: Option<CallerName>,
    pub calling_country_code: Option<String>,
    pub country_code: Option<String>,
    pub identity_match: Option<String>,
    pub line_type_intelligence: Option<LineTypeIntelligence>,
}

} // verus!
