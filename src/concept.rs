use vstd::prelude::*;

verus! {

/// The type at the root of the type hierarchy.
pub struct RootThingType;

impl RootThingType {
    pub const LABEL: &'static str = "thing";
}

/// The value kind that an attribute type holds.
#[derive(Clone, Copy, Debug, PartialEq, Eq, Structural)]
pub enum ValueType {
    Object,
    Boolean,
    Long,
    Double,
    String,
    DateTime,
}

/// A primitive value held by an attribute.
pub enum Value {
    Boolean(bool),
    Long(i64),
    String(String),
    DateTime(i64),
}

/// A label qualified by the relation type that declares it.
pub struct ScopedLabel {
    pub scope: String,
    pub name: String,
}

pub struct EntityType {
    pub label: String,
    pub is_root: bool,
    pub is_abstract: bool,
}

pub struct RelationType {
    pub label: String,
    pub is_root: bool,
    pub is_abstract: bool,
}

pub struct RoleType {
    pub label: ScopedLabel,
    pub is_root: bool,
    pub is_abstract: bool,
}

pub struct AttributeType {
    pub label: String,
    pub is_root: bool,
    pub is_abstract: bool,
    pub value_type: ValueType,
}

/// The internal identifier of a data instance.
pub struct IID {
    pub bytes: Vec<u8>,
}

pub struct Entity {
    pub iid: IID,
    pub type_: EntityType,
    pub is_inferred: bool,
}

pub struct Relation {
    pub iid: IID,
    pub type_: RelationType,
    pub is_inferred: bool,
}

pub struct Attribute {
    pub iid: IID,
    pub type_: AttributeType,
    pub value: Value,
    pub is_inferred: bool,
}

/// Any element of the schema or of the data.
pub enum Concept {
    RootThingType(RootThingType),
    EntityType(EntityType),
    RelationType(RelationType),
    RoleType(RoleType),
    AttributeType(AttributeType),
    Entity(Entity),
    Relation(Relation),
    Attribute(Attribute),
    Value(Value),
}

/// Whether a hierarchy query follows the whole chain or only direct links.
#[derive(Clone, Copy, Debug, PartialEq, Eq, Structural)]
pub enum Transitivity {
    Explicit,
    Transitive,
}

/// A schema violation the server reports for the current transaction.
pub struct SchemaException {
    pub code: String,
    pub message: String,
}

impl Concept {
    /// The label of this concept's type; a role type shows as `scope:name`.
    pub open spec fn type_label(&self) -> Seq<char>
        recommends
            !(self is Value),
    {
        match self {
            Concept::RootThingType(_) => "thing"@,
            Concept::EntityType(t) => t.label@,
            Concept::RelationType(t) => t.label@,
            Concept::RoleType(t) => t.label.scope@ + ":"@ + t.label.name@,
            Concept::AttributeType(t) => t.label@,
            Concept::Entity(e) => e.type_.label@,
            Concept::Relation(r) => r.type_.label@,
            Concept::Attribute(a) => a.type_.label@,
            Concept::Value(_) => Seq::empty(),
        }
    }

    /// A value has no type label, so it is not accepted here.
    pub fn type_label_cloned(&self) -> (r: String)
        requires
            !(self is Value),
        ensures
            r@ == self.type_label(),
    {
        match self {
            Concept::RootThingType(_) => String::from_str(RootThingType::LABEL),
            Concept::EntityType(t) => t.label.clone(),
            Concept::RelationType(t) => t.label.clone(),
            Concept::RoleType(t) => t.label.scope.clone().concat(":").concat(t.label.name.as_str()),
            Concept::AttributeType(t) => t.label.clone(),
            Concept::Entity(e) => e.type_.label.clone(),
            Concept::Relation(r) => r.type_.label.clone(),
            Concept::Attribute(a) => a.type_.label.clone(),
            Concept::Value(_) => {
                proof {
                    assert(false);
                }
                String::new()
            },
        }
    }
}

} // verus!
