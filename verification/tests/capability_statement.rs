use pki_store::fhir::capability_statement::{
    CapabilityStatement, CapabilityStatementCow, CapabilityStatementDef,
    CapabilityStatementHelper, FhirVersion, Format, FormatDef, Interaction, InteractionCodeDef,
    InteractionDef, KindDef, Mode, Operation, OperationDef, Resource, ResourceDef, Rest, RestDef,
    Status, Type,
};
use pki_store::fhir::contact_point::ContactPointDef;
use pki_store::fhir::resources::{
    Composition, DateTime, Entry, ErxComposition, Id, Instant, KbvBundle, Meta, Patient,
    PrescriptionId, TelematikId,
};
use std::borrow::Cow;

fn task() -> Resource {
    Resource {
        type_: Type::Task,
        profile: String::from("https://gematik.de/fhir/StructureDefinition/ErxTask"),
        supported_profiles: vec![String::from("a"), String::from("b")],
        operation: vec![
            Operation {
                name: String::from("create"),
                definition: String::from("http://gematik.de/fhir/OperationDefinition/CreateOperationDefinition"),
            },
            Operation {
                name: String::from("activate"),
                definition: String::from("http://gematik.de/fhir/OperationDefinition/ActivateOperationDefinition"),
            },
        ],
        interaction: vec![Interaction::Read, Interaction::SearchTyp],
    }
}

fn statement() -> CapabilityStatement {
    CapabilityStatement {
        name: String::from("Gem_erxCapabilityStatement"),
        title: String::from("E-Rezept Workflow CapabilityStatement"),
        description: String::from("E-Rezept Fachdienst Server"),
        status: Status::Draft,
        date: DateTime(String::from("2020-01-01T00:00:00Z")),
        fhir_version: FhirVersion::V4_0_0,
        format: vec![Format::XML, Format::JSON],
        rest: vec![
            Rest {
                mode: Mode::Server,
                resource: vec![
                    task(),
                    Resource {
                        type_: Type::Communication,
                        profile: String::from("http://hl7.org/fhir/StructureDefinition/Communication"),
                        supported_profiles: Vec::new(),
                        operation: Vec::new(),
                        interaction: vec![Interaction::Create],
                    },
                ],
            },
            Rest {
                mode: Mode::Client,
                resource: Vec::new(),
            },
        ],
    }
}

#[test]
fn the_written_tree_carries_every_part_of_the_statement() {
    let helper = CapabilityStatementHelper::from_statement(&statement());

    assert_eq!(helper.name, "Gem_erxCapabilityStatement");
    assert_eq!(helper.title, "E-Rezept Workflow CapabilityStatement");
    assert_eq!(helper.status, Status::Draft);
    assert_eq!(helper.date, DateTime(String::from("2020-01-01T00:00:00Z")));
    assert_eq!(helper.kind, KindDef::Instance);
    assert_eq!(helper.implementation.description, "E-Rezept Fachdienst Server");
    assert_eq!(helper.fhir_version, FhirVersion::V4_0_0);
    assert_eq!(helper.format, vec![FormatDef::XML, FormatDef::JSON]);
    assert_eq!(helper.rest.len(), 2);
    assert_eq!(helper.rest[0].mode, Mode::Server);
    assert_eq!(helper.rest[0].resource.len(), 2);
    assert_eq!(helper.rest[1].mode, Mode::Client);
    assert!(helper.rest[1].resource.is_empty());

    let written = &helper.rest[0].resource[0];
    assert_eq!(written.type_, Type::Task);
    assert_eq!(written.profile, "https://gematik.de/fhir/StructureDefinition/ErxTask");
    assert_eq!(written.supported_profile, vec![String::from("a"), String::from("b")]);
    assert_eq!(written.interaction.len(), 2);
    assert_eq!(written.interaction[0].code, Interaction::Read);
    assert_eq!(written.interaction[1].code, Interaction::SearchTyp);
    assert_eq!(written.operation.len(), 2);
    assert_eq!(written.operation[0].name, "create");
    assert_eq!(written.operation[1].name, "activate");
    assert_eq!(
        written.operation[1].definition,
        "http://gematik.de/fhir/OperationDefinition/ActivateOperationDefinition"
    );

    let second = &helper.rest[0].resource[1];
    assert_eq!(second.type_, Type::Communication);
    assert!(second.supported_profile.is_empty());
    assert!(second.operation.is_empty());
    assert_eq!(second.interaction[0].code, Interaction::Create);
}

#[test]
fn the_writer_prepares_the_same_tree() {
    let helper = CapabilityStatementDef::serialize(&statement());
    assert_eq!(helper.name, "Gem_erxCapabilityStatement");
    assert_eq!(helper.kind, KindDef::Instance);
    assert_eq!(helper.rest.len(), 2);
    assert_eq!(helper.format.len(), 2);
}

#[test]
fn an_empty_statement_is_written_with_empty_lists() {
    let empty = CapabilityStatement {
        name: String::new(),
        title: String::new(),
        description: String::new(),
        status: Status::Unknown,
        date: DateTime(String::new()),
        fhir_version: FhirVersion::V4_0_1,
        format: Vec::new(),
        rest: Vec::new(),
    };
    let helper = CapabilityStatementHelper::from_statement(&empty);
    assert_eq!(helper.status, Status::Unknown);
    assert_eq!(helper.fhir_version, FhirVersion::V4_0_1);
    assert_eq!(helper.kind, KindDef::Instance);
    assert!(helper.format.is_empty());
    assert!(helper.rest.is_empty());
}

#[test]
fn the_parts_are_written_one_by_one() {
    let rest = RestDef::from_rest(&Rest {
        mode: Mode::Client,
        resource: vec![task()],
    });
    assert_eq!(rest.mode, Mode::Client);
    assert_eq!(rest.resource.len(), 1);

    let resource = ResourceDef::from_resource(&task());
    assert_eq!(resource.type_, Type::Task);
    assert_eq!(resource.operation.len(), 2);

    let operation = OperationDef::from_operation(&Operation {
        name: String::from("abort"),
        definition: String::from("definition"),
    });
    assert_eq!(operation.name, "abort");
    assert_eq!(operation.definition, "definition");

    assert_eq!(InteractionDef::from_interaction(Interaction::Patch).code, Interaction::Patch);
    assert_eq!(FormatDef::from_format(Format::XML), FormatDef::XML);
    assert_eq!(FormatDef::from_format(Format::JSON), FormatDef::JSON);
}

#[test]
fn every_interaction_has_its_code() {
    let pairs = [
        (Interaction::Read, InteractionCodeDef::Read),
        (Interaction::Vread, InteractionCodeDef::Vread),
        (Interaction::Update, InteractionCodeDef::Update),
        (Interaction::Patch, InteractionCodeDef::Patch),
        (Interaction::Delete, InteractionCodeDef::Delete),
        (Interaction::HistoryInstance, InteractionCodeDef::HistoryInstance),
        (Interaction::HistoryType, InteractionCodeDef::HistoryType),
        (Interaction::Create, InteractionCodeDef::Create),
        (Interaction::SearchTyp, InteractionCodeDef::SearchTyp),
    ];
    for (interaction, code) in pairs {
        assert_eq!(InteractionCodeDef::from_interaction(interaction), code);
    }
}

#[test]
fn a_borrowed_statement_is_wrapped_without_a_copy() {
    let statement = statement();
    let wrapped = CapabilityStatementCow::from_inner(&statement);
    assert!(matches!(wrapped.0, Cow::Borrowed(_)));
    assert_eq!(wrapped.0.name, "Gem_erxCapabilityStatement");
}

#[test]
fn a_default_contact_point_has_no_part_set() {
    let point = ContactPointDef::default();
    assert_eq!(point.system, None);
    assert_eq!(point.value, None);
    assert_eq!(point.use_, None);
    assert_eq!(point.rank, None);
}

#[test]
fn resources_hold_their_parts() {
    let composition = ErxComposition {
        beneficiary: TelematikId(String::from("606358757")),
        date: DateTime(String::from("2020-03-20T07:31:34.328+00:00")),
        author: String::from("https://prescriptionserver.telematik/Device/ErxService"),
        event_start: DateTime(String::from("2020-03-20T07:23:34.328+00:00")),
        event_end: DateTime(String::from("2020-03-20T07:31:34.328+00:00")),
    };
    let copy = composition.clone();
    assert_eq!(copy, composition);
    assert_eq!(copy.date.clone(), composition.event_end);

    let updated = Meta {
        last_updated: Some(Instant(String::from("2020-03-20T07:31:34Z"))),
    };
    assert_ne!(updated, Meta { last_updated: None });
}

#[test]
fn a_default_entry_holds_no_resource() {
    let entry = Entry::default();
    assert_eq!(entry.composition, None);
    assert_eq!(entry.medication_request, None);
    assert_eq!(entry.medication, None);
    assert_eq!(entry.patient, None);
    assert_eq!(entry.practitioner, None);
    assert_eq!(entry.organization, None);
    assert_eq!(entry.coverage, None);
    assert_eq!(entry.practitioner_role, None);
}

#[test]
fn a_bundle_holds_its_parts() {
    let mut entry = Entry::default();
    entry.patient = Some((
        String::from("http://pvs.praxis.local/fhir/Patient/512ab5bc"),
        Patient(String::from("<Patient/>")),
    ));
    entry.composition = Some((
        String::from("http://pvs.praxis.local/fhir/Composition/ed52c1e3"),
        Composition(String::from("<Composition/>")),
    ));
    let bundle = KbvBundle {
        id: Id(String::from("281a985c-f25b-4aae-91a6-41ad744080b0")),
        meta: Meta {
            last_updated: Some(Instant(String::from("2020-06-23T08:30:00Z"))),
        },
        identifier: PrescriptionId(String::from("160.123.456.789.123.58")),
        timestamp: Instant(String::from("2020-06-23T08:30:00Z")),
        entry,
    };
    let copy = bundle.clone();
    assert_eq!(copy, bundle);
    assert_eq!(copy.identifier, PrescriptionId(String::from("160.123.456.789.123.58")));
    assert_eq!(copy.entry.patient.unwrap().1, Patient(String::from("<Patient/>")));
    assert_eq!(copy.entry.medication, None);
}

#[test]
fn the_naming_system_and_the_namespace_are_fixed() {
    assert_eq!(
        PrescriptionId::system(),
        Some("https://gematik.de/fhir/NamingSystem/PrescriptionID")
    );
    assert_eq!(CapabilityStatement::xmlns(), "http://hl7.org/fhir");
}
