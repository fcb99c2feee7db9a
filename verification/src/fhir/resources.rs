//! Resources of the e-prescription workflow.

use vstd::prelude::*;

verus! {

/// A point in time with the precision that its text has.
#[derive(Debug, PartialEq, Eq)]
pub struct DateTime(pub String);

impl Clone for DateTime {
    fn clone(&self) -> (copy: DateTime)
        ensures
            copy == *self,
    {
        DateTime(self.0.clone())
    }
}

/// An instant, to the second or finer, with its time zone.
#[derive(Debug, Clone, PartialEq, Eq)]
pub struct Instant(pub String);

/// The identifier of a participant of the telematics infrastructure.
#[derive(Debug, Clone, PartialEq, Eq)]
pub struct TelematikId(pub String);

/// The logical id of a resource.
#[derive(Debug, Clone, PartialEq, Eq)]
pub struct Id(pub String);

/// The id of a prescription, held as its text.
#[derive(Debug, Clone, PartialEq, Eq)]
pub struct PrescriptionId(pub String);

impl PrescriptionId {
    /// The naming system under which prescription ids are issued.
    pub fn system() -> (system: Option<&'static str>)
        ensures
            system matches Some(name) && name@
                == "https://gematik.de/fhir/NamingSystem/PrescriptionID"@,
    {
        Some("https://gematik.de/fhir/NamingSystem/PrescriptionID")
    }
}

/// A composition resource, held as its document.
#[derive(Debug, Clone, PartialEq, Eq)]
pub struct Composition(pub String);

/// A medication request resource, held as its document.
#[derive(Debug, Clone, PartialEq, Eq)]
pub struct MedicationRequest(pub String);

/// A medication resource, held as its document.
#[derive(Debug, Clone, PartialEq, Eq)]
pub struct Medication(pub String);

/// A patient resource, held as its document.
#[derive(Debug, Clone, PartialEq, Eq)]
pub struct Patient(pub String);

/// A practitioner resource, held as its document.
#[derive(Debug, Clone, PartialEq, Eq)]
pub struct Practitioner(pub String);

/// An organization resource, held as its document.
#[derive(Debug, Clone, PartialEq, Eq)]
pub struct Organization(pub String);

/// A coverage resource, held as its document.
#[derive(Debug, Clone, PartialEq, Eq)]
pub struct Coverage(pub String);

/// A practitioner role resource, held as its document.
#[derive(Debug, Clone, PartialEq, Eq)]
pub struct PractitionerRole(pub String);

/// The bundle that a prescriber signs: the prescription with every
/// resource that it refers to.
#[derive(Debug, Clone, PartialEq)]
pub struct KbvBundle {
    pub id: Id,
    pub meta: Meta,
    pub identifier: PrescriptionId,
    pub timestamp: Instant,
    pub entry: Entry,
}

/// The resources of a bundle, each with the URL under which the bundle
/// lists it.
#[derive(Debug, Clone, PartialEq)]
pub struct Entry {
    pub composition: Option<(String, Composition)>,
    pub medication_request: Option<(String, MedicationRequest)>,
    pub medication: Option<(String, Medication)>,
    pub patient: Option<(String, Patient)>,
    pub practitioner: Option<(String, Practitioner)>,
    pub organization: Option<(String, Organization)>,
    pub coverage: Option<(String, Coverage)>,
    pub practitioner_role: Option<(String, PractitionerRole)>,
}

impl Default for Entry {
    /// An entry with no resource.
    fn default() -> (entry: Entry)
        ensures
            entry.composition is None,
            entry.medication_request is None,
            entry.medication is None,
            entry.patient is None,
            entry.practitioner is None,
            entry.organization is None,
            entry.coverage is None,
            entry.practitioner_role is None,
    {
        Entry {
            composition: None,
            medication_request: None,
            medication: None,
            patient: None,
            practitioner: None,
            organization: None,
            coverage: None,
            practitioner_role: None,
        }
    }
}

/// The composition that the service writes for a dispensed prescription.
#[derive(Debug, Clone, PartialEq)]
pub struct ErxComposition {
    pub beneficiary: TelematikId,
    pub date: DateTime,
    pub author: String,
    pub event_start: DateTime,
    pub event_end: DateTime,
}

/// The metadata of a bundle.
#[derive(Debug, Clone, PartialEq)]
pub struct Meta {
    pub last_updated: Option<Instant>,
}

} // verus!
