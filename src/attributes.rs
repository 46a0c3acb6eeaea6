//! Attributes: which keys each kind of node takes and in what form, and the
//! construction of a node from the attributes of its start tag.
use vstd::prelude::*;
use crate::literal::{integer_value, is_real, is_real_literal, parse_integer, text_is};
use crate::math::name_view;
use crate::tag::{
    Tag, TagKind, Root, ListOfUnitDefinitions, UnitDefinition, ListOfUnits, Unit, ListOfCompartments, Compartment, ListOfParameters, Parameter, ListOfSpecies, Species, ListOfReactions, Reaction, ListOfReactants, ListOfProducts, SpeciesReference, ListOfModifiers, ModifierSpeciesReference, ListOfLocalParameters, LocalParameter, KineticLaw, ListOfFunctionDefinitions, FunctionDefinition, ListOfInitialAssignments, InitialAssignment, ListOfRules, AssignmentRule, RateRule,
};

verus! {

/// The form that an attribute's value must take.
#[derive(Debug, Clone, Copy, PartialEq, Eq, Structural)]
pub enum AttrType {
    /// Any text.
    Text,
    /// A real number (`is_real_literal`), kept as written.
    Real,
    /// A decimal `i64`.
    Integer,
    /// `true` or `false`.
    Flag,
}

/// The form of the attribute `key` on a node of kind `kind`, if it takes one.
pub open spec fn attribute_type(kind: TagKind, key: Seq<char>) -> Option<AttrType> {
    match kind {
        TagKind::UnitDefinition => if key == "id"@ {
            Some(AttrType::Text)
        } else {
            None
        },
        TagKind::Unit => if key == "kind"@ {
            Some(AttrType::Text)
        } else if key == "exponent"@ {
            Some(AttrType::Real)
        } else if key == "scale"@ {
            Some(AttrType::Integer)
        } else if key == "multiplier"@ {
            Some(AttrType::Real)
        } else {
            None
        },
        TagKind::Compartment => if key == "id"@ {
            Some(AttrType::Text)
        } else if key == "name"@ {
            Some(AttrType::Text)
        } else if key == "units"@ {
            Some(AttrType::Text)
        } else if key == "sboTerm"@ {
            Some(AttrType::Text)
        } else if key == "spatialDimensions"@ {
            Some(AttrType::Real)
        } else if key == "size"@ {
            Some(AttrType::Real)
        } else if key == "constant"@ {
            Some(AttrType::Flag)
        } else {
            None
        },
        TagKind::Parameter => if key == "id"@ {
            Some(AttrType::Text)
        } else if key == "metaid"@ {
            Some(AttrType::Text)
        } else if key == "name"@ {
            Some(AttrType::Text)
        } else if key == "value"@ {
            Some(AttrType::Real)
        } else if key == "units"@ {
            Some(AttrType::Text)
        } else if key == "sboTerm"@ {
            Some(AttrType::Text)
        } else if key == "constant"@ {
            Some(AttrType::Flag)
        } else {
            None
        },
        TagKind::Species => if key == "id"@ {
            Some(AttrType::Text)
        } else if key == "name"@ {
            Some(AttrType::Text)
        } else if key == "metaid"@ {
            Some(AttrType::Text)
        } else if key == "sboTerm"@ {
            Some(AttrType::Text)
        } else if key == "compartment"@ {
            Some(AttrType::Text)
        } else if key == "initialConcentration"@ {
            Some(AttrType::Real)
        } else if key == "initialAmount"@ {
            Some(AttrType::Real)
        } else if key == "substanceUnits"@ {
            Some(AttrType::Text)
        } else if key == "hasOnlySubstanceUnits"@ {
            Some(AttrType::Flag)
        } else if key == "boundaryCondition"@ {
            Some(AttrType::Flag)
        } else if key == "constant"@ {
            Some(AttrType::Flag)
        } else {
            None
        },
        TagKind::Reaction => if key == "id"@ {
            Some(AttrType::Text)
        } else if key == "reversible"@ {
            Some(AttrType::Flag)
        } else if key == "compartment"@ {
            Some(AttrType::Text)
        } else if key == "name"@ {
            Some(AttrType::Text)
        } else if key == "sboTerm"@ {
            Some(AttrType::Text)
        } else {
            None
        },
        TagKind::SpeciesReference => if key == "id"@ {
            Some(AttrType::Text)
        } else if key == "name"@ {
            Some(AttrType::Text)
        } else if key == "species"@ {
            Some(AttrType::Text)
        } else if key == "constant"@ {
            Some(AttrType::Flag)
        } else if key == "sboTerm"@ {
            Some(AttrType::Text)
        } else if key == "stoichiometry"@ {
            Some(AttrType::Real)
        } else {
            None
        },
        TagKind::ModifierSpeciesReference => if key == "id"@ {
            Some(AttrType::Text)
        } else if key == "name"@ {
            Some(AttrType::Text)
        } else if key == "species"@ {
            Some(AttrType::Text)
        } else if key == "sboTerm"@ {
            Some(AttrType::Text)
        } else {
            None
        },
        TagKind::KineticLaw => if key == "sboTerm"@ {
            Some(AttrType::Text)
        } else {
            None
        },
        TagKind::LocalParameter => if key == "id"@ {
            Some(AttrType::Text)
        } else if key == "value"@ {
            Some(AttrType::Real)
        } else if key == "units"@ {
            Some(AttrType::Text)
        } else if key == "sboTerm"@ {
            Some(AttrType::Text)
        } else {
            None
        },
        TagKind::FunctionDefinition => if key == "id"@ {
            Some(AttrType::Text)
        } else if key == "name"@ {
            Some(AttrType::Text)
        } else if key == "sboTerm"@ {
            Some(AttrType::Text)
        } else {
            None
        },
        TagKind::InitialAssignment => if key == "id"@ {
            Some(AttrType::Text)
        } else if key == "symbol"@ {
            Some(AttrType::Text)
        } else if key == "sboTerm"@ {
            Some(AttrType::Text)
        } else {
            None
        },
        TagKind::AssignmentRule => if key == "id"@ {
            Some(AttrType::Text)
        } else if key == "metaid"@ {
            Some(AttrType::Text)
        } else if key == "variable"@ {
            Some(AttrType::Text)
        } else if key == "sboTerm"@ {
            Some(AttrType::Text)
        } else {
            None
        },
        TagKind::RateRule => if key == "id"@ {
            Some(AttrType::Text)
        } else if key == "metaid"@ {
            Some(AttrType::Text)
        } else if key == "variable"@ {
            Some(AttrType::Text)
        } else if key == "sboTerm"@ {
            Some(AttrType::Text)
        } else {
            None
        },
        _ => None,
    }
}

/// The form of the attribute `key` on a node of kind `kind` (`attribute_type`).
pub fn type_of_attribute(kind: TagKind, key: &str) -> (r: Option<AttrType>)
    ensures
        r == attribute_type(kind, key@),
{
    match kind {
        TagKind::UnitDefinition => if text_is(key, "id") {
            Some(AttrType::Text)
        } else {
            None
        },
        TagKind::Unit => if text_is(key, "kind") {
            Some(AttrType::Text)
        } else if text_is(key, "exponent") {
            Some(AttrType::Real)
        } else if text_is(key, "scale") {
            Some(AttrType::Integer)
        } else if text_is(key, "multiplier") {
            Some(AttrType::Real)
        } else {
            None
        },
        TagKind::Compartment => if text_is(key, "id") {
            Some(AttrType::Text)
        } else if text_is(key, "name") {
            Some(AttrType::Text)
        } else if text_is(key, "units") {
            Some(AttrType::Text)
        } else if text_is(key, "sboTerm") {
            Some(AttrType::Text)
        } else if text_is(key, "spatialDimensions") {
            Some(AttrType::Real)
        } else if text_is(key, "size") {
            Some(AttrType::Real)
        } else if text_is(key, "constant") {
            Some(AttrType::Flag)
        } else {
            None
        },
        TagKind::Parameter => if text_is(key, "id") {
            Some(AttrType::Text)
        } else if text_is(key, "metaid") {
            Some(AttrType::Text)
        } else if text_is(key, "name") {
            Some(AttrType::Text)
        } else if text_is(key, "value") {
            Some(AttrType::Real)
        } else if text_is(key, "units") {
            Some(AttrType::Text)
        } else if text_is(key, "sboTerm") {
            Some(AttrType::Text)
        } else if text_is(key, "constant") {
            Some(AttrType::Flag)
        } else {
            None
        },
        TagKind::Species => if text_is(key, "id") {
            Some(AttrType::Text)
        } else if text_is(key, "name") {
            Some(AttrType::Text)
        } else if text_is(key, "metaid") {
            Some(AttrType::Text)
        } else if text_is(key, "sboTerm") {
            Some(AttrType::Text)
        } else if text_is(key, "compartment") {
            Some(AttrType::Text)
        } else if text_is(key, "initialConcentration") {
            Some(AttrType::Real)
        } else if text_is(key, "initialAmount") {
            Some(AttrType::Real)
        } else if text_is(key, "substanceUnits") {
            Some(AttrType::Text)
        } else if text_is(key, "hasOnlySubstanceUnits") {
            Some(AttrType::Flag)
        } else if text_is(key, "boundaryCondition") {
            Some(AttrType::Flag)
        } else if text_is(key, "constant") {
            Some(AttrType::Flag)
        } else {
            None
        },
        TagKind::Reaction => if text_is(key, "id") {
            Some(AttrType::Text)
        } else if text_is(key, "reversible") {
            Some(AttrType::Flag)
        } else if text_is(key, "compartment") {
            Some(AttrType::Text)
        } else if text_is(key, "name") {
            Some(AttrType::Text)
        } else if text_is(key, "sboTerm") {
            Some(AttrType::Text)
        } else {
            None
        },
        TagKind::SpeciesReference => if text_is(key, "id") {
            Some(AttrType::Text)
        } else if text_is(key, "name") {
            Some(AttrType::Text)
        } else if text_is(key, "species") {
            Some(AttrType::Text)
        } else if text_is(key, "constant") {
            Some(AttrType::Flag)
        } else if text_is(key, "sboTerm") {
            Some(AttrType::Text)
        } else if text_is(key, "stoichiometry") {
            Some(AttrType::Real)
        } else {
            None
        },
        TagKind::ModifierSpeciesReference => if text_is(key, "id") {
            Some(AttrType::Text)
        } else if text_is(key, "name") {
            Some(AttrType::Text)
        } else if text_is(key, "species") {
            Some(AttrType::Text)
        } else if text_is(key, "sboTerm") {
            Some(AttrType::Text)
        } else {
            None
        },
        TagKind::KineticLaw => if text_is(key, "sboTerm") {
            Some(AttrType::Text)
        } else {
            None
        },
        TagKind::LocalParameter => if text_is(key, "id") {
            Some(AttrType::Text)
        } else if text_is(key, "value") {
            Some(AttrType::Real)
        } else if text_is(key, "units") {
            Some(AttrType::Text)
        } else if text_is(key, "sboTerm") {
            Some(AttrType::Text)
        } else {
            None
        },
        TagKind::FunctionDefinition => if text_is(key, "id") {
            Some(AttrType::Text)
        } else if text_is(key, "name") {
            Some(AttrType::Text)
        } else if text_is(key, "sboTerm") {
            Some(AttrType::Text)
        } else {
            None
        },
        TagKind::InitialAssignment => if text_is(key, "id") {
            Some(AttrType::Text)
        } else if text_is(key, "symbol") {
            Some(AttrType::Text)
        } else if text_is(key, "sboTerm") {
            Some(AttrType::Text)
        } else {
            None
        },
        TagKind::AssignmentRule => if text_is(key, "id") {
            Some(AttrType::Text)
        } else if text_is(key, "metaid") {
            Some(AttrType::Text)
        } else if text_is(key, "variable") {
            Some(AttrType::Text)
        } else if text_is(key, "sboTerm") {
            Some(AttrType::Text)
        } else {
            None
        },
        TagKind::RateRule => if text_is(key, "id") {
            Some(AttrType::Text)
        } else if text_is(key, "metaid") {
            Some(AttrType::Text)
        } else if text_is(key, "variable") {
            Some(AttrType::Text)
        } else if text_is(key, "sboTerm") {
            Some(AttrType::Text)
        } else {
            None
        },
        _ => None,
    }
}

/// Whether `value` has the form `t`.
pub open spec fn value_fits(t: AttrType, value: Seq<char>) -> bool {
    match t {
        AttrType::Text => true,
        AttrType::Real => is_real_literal(value),
        AttrType::Integer => integer_value(value) is Some,
        AttrType::Flag => value == "true"@ || value == "false"@,
    }
}

/// Whether the attribute `(key, value)` is one that a node of kind `kind`
/// takes, in its form.
pub open spec fn attribute_fits(kind: TagKind, attr: (String, String)) -> bool {
    match attribute_type(kind, attr.0@) {
        Some(t) => value_fits(t, attr.1@),
        None => false,
    }
}

/// Whether every attribute is one that a node of kind `kind` takes.
pub open spec fn attributes_fit(kind: TagKind, attrs: Seq<(String, String)>) -> bool {
    forall|i: int| 0 <= i < attrs.len() ==> #[trigger] attribute_fits(kind, attrs[i])
}

/// An attribute that a node cannot take.
#[derive(Debug)]
pub enum AttributeError {
    /// The key is not one that the node's kind takes.
    Unknown { tag: TagKind, key: String },
    /// The value does not have the form that the key calls for.
    Invalid { tag: TagKind, key: String, value: String },
    /// A species declares both an initial amount and an initial
    /// concentration.
    AmountAndConcentration,
}

/// The attributes do not contradict each other: a species declares at most
/// one of an initial amount and an initial concentration.
pub open spec fn attributes_consistent(kind: TagKind, attrs: Seq<(String, String)>) -> bool {
    !(kind == TagKind::Species && attr_text(attrs, "initialAmount"@) is Some && attr_text(attrs, "initialConcentration"@) is Some)
}

/// Checks that the attributes do not contradict each other
/// (`attributes_consistent`).
pub fn check_consistency(kind: TagKind, attrs: &Vec<(String, String)>) -> (r: Result<(), AttributeError>)
    ensures
        r is Ok <==> attributes_consistent(kind, attrs@),
        r matches Err(e) ==> e is AmountAndConcentration,
{
    if kind == TagKind::Species && text_attr(attrs, "initialAmount").is_some() && text_attr(attrs, "initialConcentration").is_some() {
        return Err(AttributeError::AmountAndConcentration);
    }
    Ok(())
}

/// `e` reports the attribute `attr` on a node of kind `kind`.
pub open spec fn reports(e: AttributeError, kind: TagKind, attr: (String, String)) -> bool {
    match e {
        AttributeError::Unknown { tag, key } => tag == kind && key@ == attr.0@ && attribute_type(kind, attr.0@) is None,
        AttributeError::Invalid { tag, key, value } => tag == kind && key@ == attr.0@ && value@ == attr.1@
            && attribute_type(kind, attr.0@) is Some && !attribute_fits(kind, attr),
        AttributeError::AmountAndConcentration => false,
    }
}

fn value_has_form(t: AttrType, value: &str) -> (r: bool)
    ensures
        r == value_fits(t, value@),
{
    match t {
        AttrType::Text => true,
        AttrType::Real => is_real(value),
        AttrType::Integer => parse_integer(value).is_some(),
        AttrType::Flag => text_is(value, "true") || text_is(value, "false"),
    }
}

/// Checks the attributes of a start tag of kind `kind`; the error reports the
/// first that does not fit.
pub fn check_attributes(kind: TagKind, attrs: &Vec<(String, String)>) -> (r: Result<(), AttributeError>)
    ensures
        r is Ok <==> attributes_fit(kind, attrs@),
        r matches Err(e) ==> exists|i: int|
            0 <= i < attrs@.len() && (forall|j: int| 0 <= j < i ==> #[trigger] attribute_fits(kind, attrs@[j]))
                && reports(e, kind, attrs@[i]),
{
    let mut i: usize = 0;
    while i < attrs.len()
        invariant
            i <= attrs@.len(),
            forall|j: int| 0 <= j < i ==> #[trigger] attribute_fits(kind, attrs@[j]),
        decreases attrs@.len() - i,
    {
        let key = &attrs[i].0;
        let value = &attrs[i].1;
        match type_of_attribute(kind, key.as_str()) {
            None => {
                assert(!attribute_fits(kind, attrs@[i as int]));
                return Err(AttributeError::Unknown { tag: kind, key: key.clone() });
            },
            Some(t) => {
                if !value_has_form(t, value.as_str()) {
                    assert(!attribute_fits(kind, attrs@[i as int]));
                    return Err(AttributeError::Invalid { tag: kind, key: key.clone(), value: value.clone() });
                }
            },
        }
        i = i + 1;
    }
    Ok(())
}

/// The value of the first attribute named `key`.
pub open spec fn attr_text(attrs: Seq<(String, String)>, key: Seq<char>) -> Option<Seq<char>>
    decreases attrs.len(),
{
    if attrs.len() == 0 {
        None
    } else if attrs[0].0@ == key {
        Some(attrs[0].1@)
    } else {
        attr_text(attrs.drop_first(), key)
    }
}

pub open spec fn attr_flag(attrs: Seq<(String, String)>, key: Seq<char>) -> Option<bool> {
    match attr_text(attrs, key) {
        Some(v) => Some(v == "true"@),
        None => None,
    }
}

pub open spec fn attr_integer(attrs: Seq<(String, String)>, key: Seq<char>) -> Option<i64> {
    match attr_text(attrs, key) {
        Some(v) => integer_value(v),
        None => None,
    }
}

fn text_attr(attrs: &Vec<(String, String)>, key: &str) -> (r: Option<String>)
    ensures
        name_view(r) == attr_text(attrs@, key@),
{
    let mut i: usize = 0;
    assert(attrs@.subrange(0, attrs@.len() as int) =~= attrs@);
    while i < attrs.len()
        invariant
            i <= attrs@.len(),
            attr_text(attrs@, key@) == attr_text(attrs@.subrange(i as int, attrs@.len() as int), key@),
        decreases attrs@.len() - i,
    {
        let ghost rest = attrs@.subrange(i as int, attrs@.len() as int);
        assert(rest.drop_first() =~= attrs@.subrange(i + 1, attrs@.len() as int));
        if text_is(attrs[i].0.as_str(), key) {
            return Some(attrs[i].1.clone());
        }
        i = i + 1;
    }
    None
}

fn flag_attr(attrs: &Vec<(String, String)>, key: &str) -> (r: Option<bool>)
    ensures
        r == attr_flag(attrs@, key@),
{
    match text_attr(attrs, key) {
        Some(v) => Some(text_is(v.as_str(), "true")),
        None => None,
    }
}

fn integer_attr(attrs: &Vec<(String, String)>, key: &str) -> (r: Option<i64>)
    ensures
        r == attr_integer(attrs@, key@),
{
    match text_attr(attrs, key) {
        Some(v) => parse_integer(v.as_str()),
        None => None,
    }
}

/// The node holds, in each attribute field, the value of the attribute of
/// that name: as written for text and real numbers, read for integers and
/// booleans.
pub open spec fn holds_attributes(t: Tag, attrs: Seq<(String, String)>) -> bool {
    match t {
        Tag::UnitDefinition(n) => name_view(n.id) == attr_text(attrs, "id"@),
        Tag::Unit(n) => name_view(n.kind) == attr_text(attrs, "kind"@)
                && name_view(n.exponent) == attr_text(attrs, "exponent"@)
                && n.scale == attr_integer(attrs, "scale"@)
                && name_view(n.multiplier) == attr_text(attrs, "multiplier"@),
        Tag::Compartment(n) => name_view(n.id) == attr_text(attrs, "id"@)
                && name_view(n.name) == attr_text(attrs, "name"@)
                && name_view(n.units) == attr_text(attrs, "units"@)
                && name_view(n.sbo_term) == attr_text(attrs, "sboTerm"@)
                && name_view(n.spatial_dimensions) == attr_text(attrs, "spatialDimensions"@)
                && name_view(n.size) == attr_text(attrs, "size"@)
                && n.constant == attr_flag(attrs, "constant"@),
        Tag::Parameter(n) => name_view(n.id) == attr_text(attrs, "id"@)
                && name_view(n.metaid) == attr_text(attrs, "metaid"@)
                && name_view(n.name) == attr_text(attrs, "name"@)
                && name_view(n.value) == attr_text(attrs, "value"@)
                && name_view(n.units) == attr_text(attrs, "units"@)
                && name_view(n.sbo_term) == attr_text(attrs, "sboTerm"@)
                && n.constant == attr_flag(attrs, "constant"@),
        Tag::Species(n) => name_view(n.id) == attr_text(attrs, "id"@)
                && name_view(n.name) == attr_text(attrs, "name"@)
                && name_view(n.metaid) == attr_text(attrs, "metaid"@)
                && name_view(n.sbo_term) == attr_text(attrs, "sboTerm"@)
                && name_view(n.compartment) == attr_text(attrs, "compartment"@)
                && name_view(n.initial_concentration) == attr_text(attrs, "initialConcentration"@)
                && name_view(n.initial_amount) == attr_text(attrs, "initialAmount"@)
                && name_view(n.substance_units) == attr_text(attrs, "substanceUnits"@)
                && n.has_only_substance_units == attr_flag(attrs, "hasOnlySubstanceUnits"@)
                && n.boundary_condition == attr_flag(attrs, "boundaryCondition"@)
                && n.constant == attr_flag(attrs, "constant"@),
        Tag::Reaction(n) => name_view(n.id) == attr_text(attrs, "id"@)
                && n.reversible == attr_flag(attrs, "reversible"@)
                && name_view(n.compartment) == attr_text(attrs, "compartment"@)
                && name_view(n.name) == attr_text(attrs, "name"@)
                && name_view(n.sbo_term) == attr_text(attrs, "sboTerm"@),
        Tag::SpeciesReference(n) => name_view(n.id) == attr_text(attrs, "id"@)
                && name_view(n.name) == attr_text(attrs, "name"@)
                && name_view(n.species) == attr_text(attrs, "species"@)
                && n.constant == attr_flag(attrs, "constant"@)
                && name_view(n.sbo_term) == attr_text(attrs, "sboTerm"@)
                && name_view(n.stoichiometry) == attr_text(attrs, "stoichiometry"@),
        Tag::ModifierSpeciesReference(n) => name_view(n.id) == attr_text(attrs, "id"@)
                && name_view(n.name) == attr_text(attrs, "name"@)
                && name_view(n.species) == attr_text(attrs, "species"@)
                && name_view(n.sbo_term) == attr_text(attrs, "sboTerm"@),
        Tag::KineticLaw(n) => name_view(n.sbo_term) == attr_text(attrs, "sboTerm"@),
        Tag::LocalParameter(n) => name_view(n.id) == attr_text(attrs, "id"@)
                && name_view(n.value) == attr_text(attrs, "value"@)
                && name_view(n.units) == attr_text(attrs, "units"@)
                && name_view(n.sbo_term) == attr_text(attrs, "sboTerm"@),
        Tag::FunctionDefinition(n) => name_view(n.id) == attr_text(attrs, "id"@)
                && name_view(n.name) == attr_text(attrs, "name"@)
                && name_view(n.sbo_term) == attr_text(attrs, "sboTerm"@),
        Tag::InitialAssignment(n) => name_view(n.id) == attr_text(attrs, "id"@)
                && name_view(n.symbol) == attr_text(attrs, "symbol"@)
                && name_view(n.sbo_term) == attr_text(attrs, "sboTerm"@),
        Tag::AssignmentRule(n) => name_view(n.id) == attr_text(attrs, "id"@)
                && name_view(n.metaid) == attr_text(attrs, "metaid"@)
                && name_view(n.variable) == attr_text(attrs, "variable"@)
                && name_view(n.sbo_term) == attr_text(attrs, "sboTerm"@),
        Tag::RateRule(n) => name_view(n.id) == attr_text(attrs, "id"@)
                && name_view(n.metaid) == attr_text(attrs, "metaid"@)
                && name_view(n.variable) == attr_text(attrs, "variable"@)
                && name_view(n.sbo_term) == attr_text(attrs, "sboTerm"@),
        _ => true,
    }
}

/// The node links to nothing yet and has no parent.
pub open spec fn is_fresh(t: Tag) -> bool {
    match t {
        Tag::Root(..) => false,
        Tag::MathTag(..) => false,
        Tag::ListOfUnitDefinitions(n) => n.unit_definitions@.len() == 0 && n.parent is None,
        Tag::ListOfUnits(n) => n.units@.len() == 0 && n.parent is None,
        Tag::ListOfCompartments(n) => n.compartments@.len() == 0 && n.parent is None,
        Tag::ListOfParameters(n) => n.parameters@.len() == 0 && n.parent is None,
        Tag::ListOfSpecies(n) => n.species@.len() == 0 && n.parent is None,
        Tag::ListOfReactions(n) => n.reactions@.len() == 0 && n.parent is None,
        Tag::ListOfReactants(n) => n.species_references@.len() == 0 && n.parent is None,
        Tag::ListOfProducts(n) => n.species_references@.len() == 0 && n.parent is None,
        Tag::ListOfModifiers(n) => n.modifier_species_references@.len() == 0 && n.parent is None,
        Tag::ListOfLocalParameters(n) => n.local_parameters@.len() == 0 && n.parent is None,
        Tag::ListOfFunctionDefinitions(n) => n.function_definitions@.len() == 0 && n.parent is None,
        Tag::ListOfInitialAssignments(n) => n.initial_assignments@.len() == 0 && n.parent is None,
        Tag::ListOfRules(n) => n.assignment_rules@.len() == 0 && n.rate_rules@.len() == 0 && n.parent is None,
        Tag::UnitDefinition(n) => n.list_of_units is None && n.parent is None,
        Tag::Unit(n) => n.parent is None,
        Tag::Compartment(n) => n.parent is None,
        Tag::Parameter(n) => n.parent is None,
        Tag::Species(n) => n.parent is None,
        Tag::Reaction(n) => n.list_of_reactants is None && n.list_of_products is None && n.list_of_modifiers is None && n.kinetic_law is None && n.parent is None,
        Tag::SpeciesReference(n) => n.parent is None,
        Tag::ModifierSpeciesReference(n) => n.parent is None,
        Tag::KineticLaw(n) => n.math is None && n.list_of_local_parameters is None && n.parent is None,
        Tag::LocalParameter(n) => n.parent is None,
        Tag::FunctionDefinition(n) => n.math is None && n.parent is None,
        Tag::InitialAssignment(n) => n.math is None && n.parent is None,
        Tag::AssignmentRule(n) => n.math is None && n.parent is None,
        Tag::RateRule(n) => n.math is None && n.parent is None,
    }
}

/// A new node of kind `kind` from the attributes of its start tag.
pub fn new_node(kind: TagKind, attrs: &Vec<(String, String)>) -> (r: Tag)
    requires
        kind != TagKind::Root,
        kind != TagKind::MathTag,
    ensures
        r.kind_of() == kind,
        is_fresh(r),
        holds_attributes(r, attrs@),
{
    match kind {
        TagKind::Root => Tag::Root(Root::default()),
        TagKind::MathTag => Tag::Root(Root::default()),
        TagKind::ListOfUnitDefinitions => Tag::ListOfUnitDefinitions(ListOfUnitDefinitions { unit_definitions: Vec::new(), parent: None }),
        TagKind::ListOfUnits => Tag::ListOfUnits(ListOfUnits { units: Vec::new(), parent: None }),
        TagKind::ListOfCompartments => Tag::ListOfCompartments(ListOfCompartments { compartments: Vec::new(), parent: None }),
        TagKind::ListOfParameters => Tag::ListOfParameters(ListOfParameters { parameters: Vec::new(), parent: None }),
        TagKind::ListOfSpecies => Tag::ListOfSpecies(ListOfSpecies { species: Vec::new(), parent: None }),
        TagKind::ListOfReactions => Tag::ListOfReactions(ListOfReactions { reactions: Vec::new(), parent: None }),
        TagKind::ListOfReactants => Tag::ListOfReactants(ListOfReactants { species_references: Vec::new(), parent: None }),
        TagKind::ListOfProducts => Tag::ListOfProducts(ListOfProducts { species_references: Vec::new(), parent: None }),
        TagKind::ListOfModifiers => Tag::ListOfModifiers(ListOfModifiers { modifier_species_references: Vec::new(), parent: None }),
        TagKind::ListOfLocalParameters => Tag::ListOfLocalParameters(ListOfLocalParameters { local_parameters: Vec::new(), parent: None }),
        TagKind::ListOfFunctionDefinitions => Tag::ListOfFunctionDefinitions(ListOfFunctionDefinitions { function_definitions: Vec::new(), parent: None }),
        TagKind::ListOfInitialAssignments => Tag::ListOfInitialAssignments(ListOfInitialAssignments { initial_assignments: Vec::new(), parent: None }),
        TagKind::ListOfRules => Tag::ListOfRules(ListOfRules { assignment_rules: Vec::new(), rate_rules: Vec::new(), parent: None }),
        TagKind::UnitDefinition => Tag::UnitDefinition(UnitDefinition {
            id: text_attr(attrs, "id"),
            list_of_units: None,
            parent: None,
        }),
        TagKind::Unit => Tag::Unit(Unit {
            kind: text_attr(attrs, "kind"),
            exponent: text_attr(attrs, "exponent"),
            scale: integer_attr(attrs, "scale"),
            multiplier: text_attr(attrs, "multiplier"),
            parent: None,
        }),
        TagKind::Compartment => Tag::Compartment(Compartment {
            id: text_attr(attrs, "id"),
            name: text_attr(attrs, "name"),
            units: text_attr(attrs, "units"),
            sbo_term: text_attr(attrs, "sboTerm"),
            spatial_dimensions: text_attr(attrs, "spatialDimensions"),
            size: text_attr(attrs, "size"),
            constant: flag_attr(attrs, "constant"),
            parent: None,
        }),
        TagKind::Parameter => Tag::Parameter(Parameter {
            id: text_attr(attrs, "id"),
            metaid: text_attr(attrs, "metaid"),
            name: text_attr(attrs, "name"),
            value: text_attr(attrs, "value"),
            units: text_attr(attrs, "units"),
            sbo_term: text_attr(attrs, "sboTerm"),
            constant: flag_attr(attrs, "constant"),
            parent: None,
        }),
        TagKind::Species => Tag::Species(Species {
            id: text_attr(attrs, "id"),
            name: text_attr(attrs, "name"),
            metaid: text_attr(attrs, "metaid"),
            sbo_term: text_attr(attrs, "sboTerm"),
            compartment: text_attr(attrs, "compartment"),
            initial_concentration: text_attr(attrs, "initialConcentration"),
            initial_amount: text_attr(attrs, "initialAmount"),
            substance_units: text_attr(attrs, "substanceUnits"),
            has_only_substance_units: flag_attr(attrs, "hasOnlySubstanceUnits"),
            boundary_condition: flag_attr(attrs, "boundaryCondition"),
            constant: flag_attr(attrs, "constant"),
            parent: None,
        }),
        TagKind::Reaction => Tag::Reaction(Reaction {
            id: text_attr(attrs, "id"),
            reversible: flag_attr(attrs, "reversible"),
            compartment: text_attr(attrs, "compartment"),
            name: text_attr(attrs, "name"),
            sbo_term: text_attr(attrs, "sboTerm"),
            list_of_reactants: None,
            list_of_products: None,
            list_of_modifiers: None,
            kinetic_law: None,
            parent: None,
        }),
        TagKind::SpeciesReference => Tag::SpeciesReference(SpeciesReference {
            id: text_attr(attrs, "id"),
            name: text_attr(attrs, "name"),
            species: text_attr(attrs, "species"),
            constant: flag_attr(attrs, "constant"),
            sbo_term: text_attr(attrs, "sboTerm"),
            stoichiometry: text_attr(attrs, "stoichiometry"),
            parent: None,
        }),
        TagKind::ModifierSpeciesReference => Tag::ModifierSpeciesReference(ModifierSpeciesReference {
            id: text_attr(attrs, "id"),
            name: text_attr(attrs, "name"),
            species: text_attr(attrs, "species"),
            sbo_term: text_attr(attrs, "sboTerm"),
            parent: None,
        }),
        TagKind::KineticLaw => Tag::KineticLaw(KineticLaw {
            sbo_term: text_attr(attrs, "sboTerm"),
            math: None,
            list_of_local_parameters: None,
            parent: None,
        }),
        TagKind::LocalParameter => Tag::LocalParameter(LocalParameter {
            id: text_attr(attrs, "id"),
            value: text_attr(attrs, "value"),
            units: text_attr(attrs, "units"),
            sbo_term: text_attr(attrs, "sboTerm"),
            parent: None,
        }),
        TagKind::FunctionDefinition => Tag::FunctionDefinition(FunctionDefinition {
            id: text_attr(attrs, "id"),
            name: text_attr(attrs, "name"),
            sbo_term: text_attr(attrs, "sboTerm"),
            math: None,
            parent: None,
        }),
        TagKind::InitialAssignment => Tag::InitialAssignment(InitialAssignment {
            id: text_attr(attrs, "id"),
            symbol: text_attr(attrs, "symbol"),
            sbo_term: text_attr(attrs, "sboTerm"),
            math: None,
            parent: None,
        }),
        TagKind::AssignmentRule => Tag::AssignmentRule(AssignmentRule {
            id: text_attr(attrs, "id"),
            metaid: text_attr(attrs, "metaid"),
            variable: text_attr(attrs, "variable"),
            sbo_term: text_attr(attrs, "sboTerm"),
            math: None,
            parent: None,
        }),
        TagKind::RateRule => Tag::RateRule(RateRule {
            id: text_attr(attrs, "id"),
            metaid: text_attr(attrs, "metaid"),
            variable: text_attr(attrs, "variable"),
            sbo_term: text_attr(attrs, "sboTerm"),
            math: None,
            parent: None,
        }),
    }
}

} // verus!
