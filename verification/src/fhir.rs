//! The FHIR resources that the gateway exchanges, as far as the trust store
//! and the capability statement need them.

pub mod capability_statement;
pub mod contact_point;
pub mod resources;
