//! Trust store of an e-prescription gateway: the trust anchors it accepts,
//! the slots through which refreshed anchors and keys are published, and the
//! verification of signed CMS containers against them.

pub mod backend;
pub mod cert;
pub mod cms;
pub mod error;
pub mod fhir;
pub mod pem;
pub mod puk_token;
pub mod refresh;
pub mod registry;
pub mod slot;
pub mod store;
pub mod tsl;
