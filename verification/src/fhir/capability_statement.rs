//! The capability statement of the service and the tree that is written
//! out for it.

use crate::fhir::resources::DateTime;
use std::borrow::Cow;
use vstd::prelude::*;

verus! {

/// The FHIR version that the service speaks.
#[derive(Debug, Clone, Copy, PartialEq, Eq, Structural)]
pub enum FhirVersion {
    V4_0_0,
    V4_0_1,
}

/// The publication status of the statement.
#[derive(Debug, Clone, Copy, PartialEq, Eq, Structural)]
pub enum Status {
    Draft,
    Active,
    Retired,
    Unknown,
}

/// A format that the service reads and writes.
#[derive(Debug, Clone, Copy, PartialEq, Eq, Structural)]
pub enum Format {
    XML,
    JSON,
}

/// The side of an exchange that a REST description speaks of.
#[derive(Debug, Clone, Copy, PartialEq, Eq, Structural)]
pub enum Mode {
    Client,
    Server,
}

/// The type of a resource that the service offers.
#[derive(Debug, Clone, Copy, PartialEq, Eq, Structural)]
pub enum Type {
    Task,
    Operation,
    Communication,
}

/// An interaction that a resource supports.
#[derive(Debug, Clone, Copy, PartialEq, Eq, Structural)]
pub enum Interaction {
    Read,
    Vread,
    Update,
    Patch,
    Delete,
    HistoryInstance,
    HistoryType,
    Create,
    SearchTyp,
}

/// An operation that a resource offers.
#[derive(Debug, Clone, PartialEq)]
pub struct Operation {
    pub name: String,
    pub definition: String,
}

/// A resource that the service offers.
#[derive(Debug, Clone, PartialEq)]
pub struct Resource {
    pub type_: Type,
    pub profile: String,
    pub supported_profiles: Vec<String>,
    pub operation: Vec<Operation>,
    pub interaction: Vec<Interaction>,
}

/// The REST capabilities of one side of an exchange.
#[derive(Debug, Clone, PartialEq)]
pub struct Rest {
    pub mode: Mode,
    pub resource: Vec<Resource>,
}

/// The capability statement of the service.
#[derive(Debug, Clone, PartialEq)]
pub struct CapabilityStatement {
    pub name: String,
    pub title: String,
    pub description: String,
    pub status: Status,
    pub date: DateTime,
    pub fhir_version: FhirVersion,
    pub format: Vec<Format>,
    pub rest: Vec<Rest>,
}

impl CapabilityStatement {
    /// The XML namespace under which a capability statement is written.
    pub fn xmlns() -> (namespace: &'static str)
        ensures
            namespace@ == "http://hl7.org/fhir"@,
    {
        "http://hl7.org/fhir"
    }
}

/// The way in which a capability statement is meant.
#[derive(Debug, Clone, Copy, PartialEq, Eq, Structural)]
pub enum KindDef {
    Instance,
    Capability,
    Requirements,
}

/// A format, as it is written out.
#[derive(Debug, Clone, Copy, PartialEq, Eq, Structural)]
pub enum FormatDef {
    XML,
    JSON,
}

impl FormatDef {
    /// The written form of `format`.
    pub open spec fn of(format: Format) -> FormatDef {
        match format {
            Format::XML => FormatDef::XML,
            Format::JSON => FormatDef::JSON,
        }
    }

    /// The written form of `format`.
    pub fn from_format(format: Format) -> (def: FormatDef)
        ensures
            def == FormatDef::of(format),
    {
        match format {
            Format::XML => FormatDef::XML,
            Format::JSON => FormatDef::JSON,
        }
    }
}

/// The code of an interaction, as it is written out.
#[derive(Debug, Clone, Copy, PartialEq, Eq, Structural)]
pub enum InteractionCodeDef {
    Read,
    Vread,
    Update,
    Patch,
    Delete,
    HistoryInstance,
    HistoryType,
    Create,
    SearchTyp,
}

impl InteractionCodeDef {
    /// The code that stands for `interaction`.
    pub open spec fn of(interaction: Interaction) -> InteractionCodeDef {
        match interaction {
            Interaction::Read => InteractionCodeDef::Read,
            Interaction::Vread => InteractionCodeDef::Vread,
            Interaction::Update => InteractionCodeDef::Update,
            Interaction::Patch => InteractionCodeDef::Patch,
            Interaction::Delete => InteractionCodeDef::Delete,
            Interaction::HistoryInstance => InteractionCodeDef::HistoryInstance,
            Interaction::HistoryType => InteractionCodeDef::HistoryType,
            Interaction::Create => InteractionCodeDef::Create,
            Interaction::SearchTyp => InteractionCodeDef::SearchTyp,
        }
    }

    /// The code that stands for `interaction`.
    pub fn from_interaction(interaction: Interaction) -> (code: InteractionCodeDef)
        ensures
            code == InteractionCodeDef::of(interaction),
    {
        match interaction {
            Interaction::Read => InteractionCodeDef::Read,
            Interaction::Vread => InteractionCodeDef::Vread,
            Interaction::Update => InteractionCodeDef::Update,
            Interaction::Patch => InteractionCodeDef::Patch,
            Interaction::Delete => InteractionCodeDef::Delete,
            Interaction::HistoryInstance => InteractionCodeDef::HistoryInstance,
            Interaction::HistoryType => InteractionCodeDef::HistoryType,
            Interaction::Create => InteractionCodeDef::Create,
            Interaction::SearchTyp => InteractionCodeDef::SearchTyp,
        }
    }
}

/// The description of the implementation, as it is written out.
#[derive(Debug)]
pub struct ImplementationDef {
    pub description: String,
}

/// An operation, as it is written out.
#[derive(Debug)]
pub struct OperationDef {
    pub name: String,
    pub definition: String,
}

impl OperationDef {
    /// `self` is the written form of `operation`.
    pub open spec fn mirrors(&self, operation: &Operation) -> bool {
        self.name == operation.name && self.definition == operation.definition
    }

    /// The written form of `operation`.
    pub fn from_operation(operation: &Operation) -> (def: OperationDef)
        ensures
            def.mirrors(operation),
    {
        OperationDef { name: operation.name.clone(), definition: operation.definition.clone() }
    }
}

/// An interaction, as it is written out.
#[derive(Debug)]
pub struct InteractionDef {
    pub code: Interaction,
}

impl InteractionDef {
    /// The written form of `interaction`.
    pub fn from_interaction(interaction: Interaction) -> (def: InteractionDef)
        ensures
            def.code == interaction,
    {
        InteractionDef { code: interaction }
    }
}

/// A resource, as it is written out.
#[derive(Debug)]
pub struct ResourceDef {
    pub type_: Type,
    pub profile: String,
    pub supported_profile: Vec<String>,
    pub interaction: Vec<InteractionDef>,
    pub operation: Vec<OperationDef>,
}

impl ResourceDef {
    /// `self` is the written form of `resource`: every part is carried
    /// over, lists item by item in their order.
    pub open spec fn mirrors(&self, resource: &Resource) -> bool {
        &&& self.type_ == resource.type_
        &&& self.profile == resource.profile
        &&& self.supported_profile@ == resource.supported_profiles@
        &&& self.interaction@.len() == resource.interaction@.len()
        &&& forall|i: int|
            0 <= i < self.interaction@.len() ==> (#[trigger] self.interaction@[i]).code
                == resource.interaction@[i]
        &&& self.operation@.len() == resource.operation@.len()
        &&& forall|i: int|
            0 <= i < self.operation@.len() ==> (#[trigger] self.operation@[i]).mirrors(
                &resource.operation@[i],
            )
    }

    /// The written form of `resource`.
    pub fn from_resource(resource: &Resource) -> (def: ResourceDef)
        ensures
            def.mirrors(resource),
    {
        let mut supported_profile: Vec<String> = Vec::new();
        let mut p: usize = 0;
        while p < resource.supported_profiles.len()
            invariant
                p <= resource.supported_profiles.len(),
                supported_profile@ == resource.supported_profiles@.take(p as int),
            decreases resource.supported_profiles.len() - p,
        {
            supported_profile.push(resource.supported_profiles[p].clone());
            assert(supported_profile@ =~= resource.supported_profiles@.take(p + 1));
            p += 1;
        }
        assert(resource.supported_profiles@.take(p as int) =~= resource.supported_profiles@);
        let mut operation: Vec<OperationDef> = Vec::new();
        let mut o: usize = 0;
        while o < resource.operation.len()
            invariant
                o <= resource.operation.len(),
                operation@.len() == o,
                forall|i: int|
                    0 <= i < o ==> (#[trigger] operation@[i]).mirrors(&resource.operation@[i]),
            decreases resource.operation.len() - o,
        {
            operation.push(OperationDef::from_operation(&resource.operation[o]));
            o += 1;
        }
        let mut interaction: Vec<InteractionDef> = Vec::new();
        let mut n: usize = 0;
        while n < resource.interaction.len()
            invariant
                n <= resource.interaction.len(),
                interaction@.len() == n,
                forall|i: int|
                    0 <= i < n ==> (#[trigger] interaction@[i]).code == resource.interaction@[i],
            decreases resource.interaction.len() - n,
        {
            interaction.push(InteractionDef::from_interaction(resource.interaction[n]));
            n += 1;
        }
        ResourceDef {
            type_: resource.type_,
            profile: resource.profile.clone(),
            supported_profile,
            interaction,
            operation,
        }
    }
}

/// The REST capabilities of one side, as they are written out.
#[derive(Debug)]
pub struct RestDef {
    pub mode: Mode,
    pub resource: Vec<ResourceDef>,
}

impl RestDef {
    /// `self` is the written form of `rest`.
    pub open spec fn mirrors(&self, rest: &Rest) -> bool {
        &&& self.mode == rest.mode
        &&& self.resource@.len() == rest.resource@.len()
        &&& forall|i: int|
            0 <= i < self.resource@.len() ==> (#[trigger] self.resource@[i]).mirrors(
                &rest.resource@[i],
            )
    }

    /// The written form of `rest`.
    pub fn from_rest(rest: &Rest) -> (def: RestDef)
        ensures
            def.mirrors(rest),
    {
        let mut resource: Vec<ResourceDef> = Vec::new();
        let mut r: usize = 0;
        while r < rest.resource.len()
            invariant
                r <= rest.resource.len(),
                resource@.len() == r,
                forall|i: int|
                    0 <= i < r ==> (#[trigger] resource@[i]).mirrors(&rest.resource@[i]),
            decreases rest.resource.len() - r,
        {
            resource.push(ResourceDef::from_resource(&rest.resource[r]));
            r += 1;
        }
        RestDef { mode: rest.mode, resource }
    }
}

/// The tree that is written out for a capability statement.
#[derive(Debug)]
pub struct CapabilityStatementHelper {
    pub name: String,
    pub title: String,
    pub status: Status,
    pub date: DateTime,
    pub kind: KindDef,
    pub implementation: ImplementationDef,
    pub fhir_version: FhirVersion,
    pub format: Vec<FormatDef>,
    pub rest: Vec<RestDef>,
}

impl CapabilityStatementHelper {
    /// `self` is the written form of `statement`: the kind is `Instance`,
    /// the description moves under the implementation, and every other part
    /// is carried over, lists item by item in their order.
    pub open spec fn mirrors(&self, statement: &CapabilityStatement) -> bool {
        &&& self.name == statement.name
        &&& self.title == statement.title
        &&& self.status == statement.status
        &&& self.date == statement.date
        &&& self.kind == KindDef::Instance
        &&& self.implementation.description == statement.description
        &&& self.fhir_version == statement.fhir_version
        &&& self.format@.len() == statement.format@.len()
        &&& forall|i: int|
            0 <= i < self.format@.len() ==> #[trigger] self.format@[i] == FormatDef::of(
                statement.format@[i],
            )
        &&& self.rest@.len() == statement.rest@.len()
        &&& forall|i: int|
            0 <= i < self.rest@.len() ==> (#[trigger] self.rest@[i]).mirrors(&statement.rest@[i])
    }

    /// The written form of `statement`.
    pub fn from_statement(statement: &CapabilityStatement) -> (helper: CapabilityStatementHelper)
        ensures
            helper.mirrors(statement),
    {
        let mut format: Vec<FormatDef> = Vec::new();
        let mut f: usize = 0;
        while f < statement.format.len()
            invariant
                f <= statement.format.len(),
                format@.len() == f,
                forall|i: int|
                    0 <= i < f ==> #[trigger] format@[i] == FormatDef::of(statement.format@[i]),
            decreases statement.format.len() - f,
        {
            format.push(FormatDef::from_format(statement.format[f]));
            f += 1;
        }
        let mut rest: Vec<RestDef> = Vec::new();
        let mut r: usize = 0;
        while r < statement.rest.len()
            invariant
                r <= statement.rest.len(),
                rest@.len() == r,
                forall|i: int| 0 <= i < r ==> (#[trigger] rest@[i]).mirrors(&statement.rest@[i]),
            decreases statement.rest.len() - r,
        {
            rest.push(RestDef::from_rest(&statement.rest[r]));
            r += 1;
        }
        CapabilityStatementHelper {
            fhir_version: statement.fhir_version,
            name: statement.name.clone(),
            title: statement.title.clone(),
            status: statement.status,
            date: statement.date.clone(),
            kind: KindDef::Instance,
            implementation: ImplementationDef { description: statement.description.clone() },
            format,
            rest,
        }
    }
}

/// The writer of capability statements.
pub struct CapabilityStatementDef;

impl CapabilityStatementDef {
    /// The tree that is written out for `capability_statement`.
    pub fn serialize(capability_statement: &CapabilityStatement) -> (root: CapabilityStatementHelper)
        ensures
            root.mirrors(capability_statement),
    {
        CapabilityStatementHelper::from_statement(capability_statement)
    }
}

/// A capability statement on its way out, borrowed or owned.
pub struct CapabilityStatementCow<'a>(pub Cow<'a, CapabilityStatement>);

impl<'a> CapabilityStatementCow<'a> {
    /// Wraps a borrowed statement.
    pub fn from_inner(inner: &'a CapabilityStatement) -> (wrapped: CapabilityStatementCow<'a>)
        ensures
            wrapped.0 == Cow::<'a, CapabilityStatement>::Borrowed(inner),
    {
        CapabilityStatementCow(Cow::Borrowed(inner))
    }
}

} // verus!
