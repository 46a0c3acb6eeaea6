//! The nodes of the arena: one struct per element kind of the document, and
//! the tagged union `Tag` over them. Links between nodes are positions in the
//! arena.
use vstd::prelude::*;
use crate::math::MathTag;

verus! {

/// The kind of a node of the arena.
#[derive(Debug, Clone, Copy, PartialEq, Eq, Structural)]
pub enum TagKind {
    Root,
    ListOfUnitDefinitions,
    UnitDefinition,
    ListOfUnits,
    Unit,
    ListOfCompartments,
    Compartment,
    ListOfParameters,
    Parameter,
    ListOfSpecies,
    Species,
    ListOfReactions,
    Reaction,
    ListOfReactants,
    ListOfProducts,
    SpeciesReference,
    ListOfModifiers,
    ModifierSpeciesReference,
    ListOfLocalParameters,
    LocalParameter,
    KineticLaw,
    MathTag,
    ListOfFunctionDefinitions,
    FunctionDefinition,
    ListOfInitialAssignments,
    InitialAssignment,
    ListOfRules,
    AssignmentRule,
    RateRule,
}

/// The document root: one link to each top-level list.
#[derive(Debug)]
pub struct Root {
    pub list_of_species: Option<usize>,
    pub list_of_reactions: Option<usize>,
    pub list_of_unit_definitions: Option<usize>,
    pub list_of_compartments: Option<usize>,
    pub list_of_parameters: Option<usize>,
    pub list_of_function_definitions: Option<usize>,
    pub list_of_initial_assignments: Option<usize>,
    pub list_of_rules: Option<usize>,
}

impl Root {
    pub open spec fn is_empty(&self) -> bool {
        &&& self.list_of_species is None
        &&& self.list_of_reactions is None
        &&& self.list_of_unit_definitions is None
        &&& self.list_of_compartments is None
        &&& self.list_of_parameters is None
        &&& self.list_of_function_definitions is None
        &&& self.list_of_initial_assignments is None
        &&& self.list_of_rules is None
    }
}

impl Default for Root {
    fn default() -> (r: Root)
        ensures
            r.is_empty(),
    {
        Root {
            list_of_species: None,
            list_of_reactions: None,
            list_of_unit_definitions: None,
            list_of_compartments: None,
            list_of_parameters: None,
            list_of_function_definitions: None,
            list_of_initial_assignments: None,
            list_of_rules: None,
        }
    }
}

impl Clone for Root {
    fn clone(&self) -> (r: Self)
        ensures
            r == *self,
    {
        Root { ..*self }
    }
}

/// A container: the positions of its members, in document order.
#[derive(Debug)]
pub struct ListOfUnitDefinitions {
    pub unit_definitions: Vec<usize>,
    pub parent: Option<usize>,
}

/// A container: the positions of its members, in document order.
#[derive(Debug)]
pub struct ListOfUnits {
    pub units: Vec<usize>,
    pub parent: Option<usize>,
}

/// A container: the positions of its members, in document order.
#[derive(Debug)]
pub struct ListOfCompartments {
    pub compartments: Vec<usize>,
    pub parent: Option<usize>,
}

/// A container: the positions of its members, in document order.
#[derive(Debug)]
pub struct ListOfParameters {
    pub parameters: Vec<usize>,
    pub parent: Option<usize>,
}

/// A container: the positions of its members, in document order.
#[derive(Debug)]
pub struct ListOfSpecies {
    pub species: Vec<usize>,
    pub parent: Option<usize>,
}

/// A container: the positions of its members, in document order.
#[derive(Debug)]
pub struct ListOfReactions {
    pub reactions: Vec<usize>,
    pub parent: Option<usize>,
}

/// A container: the positions of its members, in document order.
#[derive(Debug)]
pub struct ListOfReactants {
    pub species_references: Vec<usize>,
    pub parent: Option<usize>,
}

/// A container: the positions of its members, in document order.
#[derive(Debug)]
pub struct ListOfProducts {
    pub species_references: Vec<usize>,
    pub parent: Option<usize>,
}

/// A container: the positions of its members, in document order.
#[derive(Debug)]
pub struct ListOfModifiers {
    pub modifier_species_references: Vec<usize>,
    pub parent: Option<usize>,
}

/// A container: the positions of its members, in document order.
#[derive(Debug)]
pub struct ListOfLocalParameters {
    pub local_parameters: Vec<usize>,
    pub parent: Option<usize>,
}

/// A container: the positions of its members, in document order.
#[derive(Debug)]
pub struct ListOfFunctionDefinitions {
    pub function_definitions: Vec<usize>,
    pub parent: Option<usize>,
}

/// A container: the positions of its members, in document order.
#[derive(Debug)]
pub struct ListOfInitialAssignments {
    pub initial_assignments: Vec<usize>,
    pub parent: Option<usize>,
}

/// A container: the positions of its members, in document order.
#[derive(Debug)]
pub struct ListOfRules {
    pub assignment_rules: Vec<usize>,
    pub rate_rules: Vec<usize>,
    pub parent: Option<usize>,
}

#[derive(Debug)]
pub struct UnitDefinition {
    pub id: Option<String>,
    pub list_of_units: Option<usize>,
    pub parent: Option<usize>,
}

impl Clone for UnitDefinition {
    fn clone(&self) -> (r: Self)
        ensures
            r == *self,
    {
        UnitDefinition {
            id: self.id.clone(),
            list_of_units: self.list_of_units,
            parent: self.parent,
        }
    }
}

#[derive(Debug)]
pub struct Unit {
    pub kind: Option<String>,
    /// The decimal text of a real number.
    pub exponent: Option<String>,
    pub scale: Option<i64>,
    /// The decimal text of a real number.
    pub multiplier: Option<String>,
    pub parent: Option<usize>,
}

impl Clone for Unit {
    fn clone(&self) -> (r: Self)
        ensures
            r == *self,
    {
        Unit {
            kind: self.kind.clone(),
            exponent: self.exponent.clone(),
            scale: self.scale,
            multiplier: self.multiplier.clone(),
            parent: self.parent,
        }
    }
}

#[derive(Debug)]
pub struct Compartment {
    pub id: Option<String>,
    pub name: Option<String>,
    pub units: Option<String>,
    pub sbo_term: Option<String>,
    /// The decimal text of a real number.
    pub spatial_dimensions: Option<String>,
    /// The decimal text of a real number.
    pub size: Option<String>,
    pub constant: Option<bool>,
    pub parent: Option<usize>,
}

impl Clone for Compartment {
    fn clone(&self) -> (r: Self)
        ensures
            r == *self,
    {
        Compartment {
            id: self.id.clone(),
            name: self.name.clone(),
            units: self.units.clone(),
            sbo_term: self.sbo_term.clone(),
            spatial_dimensions: self.spatial_dimensions.clone(),
            size: self.size.clone(),
            constant: self.constant,
            parent: self.parent,
        }
    }
}

#[derive(Debug)]
pub struct Parameter {
    pub id: Option<String>,
    pub metaid: Option<String>,
    pub name: Option<String>,
    /// The decimal text of a real number.
    pub value: Option<String>,
    pub units: Option<String>,
    pub sbo_term: Option<String>,
    pub constant: Option<bool>,
    pub parent: Option<usize>,
}

impl Clone for Parameter {
    fn clone(&self) -> (r: Self)
        ensures
            r == *self,
    {
        Parameter {
            id: self.id.clone(),
            metaid: self.metaid.clone(),
            name: self.name.clone(),
            value: self.value.clone(),
            units: self.units.clone(),
            sbo_term: self.sbo_term.clone(),
            constant: self.constant,
            parent: self.parent,
        }
    }
}

#[derive(Debug)]
pub struct Species {
    pub id: Option<String>,
    pub name: Option<String>,
    pub metaid: Option<String>,
    pub sbo_term: Option<String>,
    pub compartment: Option<String>,
    /// The decimal text of a real number.
    pub initial_concentration: Option<String>,
    /// The decimal text of a real number.
    pub initial_amount: Option<String>,
    pub substance_units: Option<String>,
    pub has_only_substance_units: Option<bool>,
    pub boundary_condition: Option<bool>,
    pub constant: Option<bool>,
    pub parent: Option<usize>,
}

impl Clone for Species {
    fn clone(&self) -> (r: Self)
        ensures
            r == *self,
    {
        Species {
            id: self.id.clone(),
            name: self.name.clone(),
            metaid: self.metaid.clone(),
            sbo_term: self.sbo_term.clone(),
            compartment: self.compartment.clone(),
            initial_concentration: self.initial_concentration.clone(),
            initial_amount: self.initial_amount.clone(),
            substance_units: self.substance_units.clone(),
            has_only_substance_units: self.has_only_substance_units,
            boundary_condition: self.boundary_condition,
            constant: self.constant,
            parent: self.parent,
        }
    }
}

#[derive(Debug)]
pub struct Reaction {
    pub id: Option<String>,
    pub list_of_reactants: Option<usize>,
    pub list_of_products: Option<usize>,
    pub list_of_modifiers: Option<usize>,
    pub reversible: Option<bool>,
    pub kinetic_law: Option<usize>,
    pub compartment: Option<String>,
    pub name: Option<String>,
    pub sbo_term: Option<String>,
    pub parent: Option<usize>,
}

impl Clone for Reaction {
    fn clone(&self) -> (r: Self)
        ensures
            r == *self,
    {
        Reaction {
            id: self.id.clone(),
            list_of_reactants: self.list_of_reactants,
            list_of_products: self.list_of_products,
            list_of_modifiers: self.list_of_modifiers,
            reversible: self.reversible,
            kinetic_law: self.kinetic_law,
            compartment: self.compartment.clone(),
            name: self.name.clone(),
            sbo_term: self.sbo_term.clone(),
            parent: self.parent,
        }
    }
}

#[derive(Debug)]
pub struct SpeciesReference {
    pub id: Option<String>,
    pub name: Option<String>,
    pub species: Option<String>,
    pub constant: Option<bool>,
    pub sbo_term: Option<String>,
    /// The decimal text of a real number.
    pub stoichiometry: Option<String>,
    pub parent: Option<usize>,
}

impl Clone for SpeciesReference {
    fn clone(&self) -> (r: Self)
        ensures
            r == *self,
    {
        SpeciesReference {
            id: self.id.clone(),
            name: self.name.clone(),
            species: self.species.clone(),
            constant: self.constant,
            sbo_term: self.sbo_term.clone(),
            stoichiometry: self.stoichiometry.clone(),
            parent: self.parent,
        }
    }
}

#[derive(Debug)]
pub struct ModifierSpeciesReference {
    pub id: Option<String>,
    pub name: Option<String>,
    pub species: Option<String>,
    pub sbo_term: Option<String>,
    pub parent: Option<usize>,
}

impl Clone for ModifierSpeciesReference {
    fn clone(&self) -> (r: Self)
        ensures
            r == *self,
    {
        ModifierSpeciesReference {
            id: self.id.clone(),
            name: self.name.clone(),
            species: self.species.clone(),
            sbo_term: self.sbo_term.clone(),
            parent: self.parent,
        }
    }
}

#[derive(Debug)]
pub struct KineticLaw {
    pub sbo_term: Option<String>,
    pub math: Option<usize>,
    pub list_of_local_parameters: Option<usize>,
    pub parent: Option<usize>,
}

impl Clone for KineticLaw {
    fn clone(&self) -> (r: Self)
        ensures
            r == *self,
    {
        KineticLaw {
            sbo_term: self.sbo_term.clone(),
            math: self.math,
            list_of_local_parameters: self.list_of_local_parameters,
            parent: self.parent,
        }
    }
}

#[derive(Debug)]
pub struct LocalParameter {
    pub id: Option<String>,
    /// The decimal text of a real number.
    pub value: Option<String>,
    pub units: Option<String>,
    pub sbo_term: Option<String>,
    pub parent: Option<usize>,
}

impl Clone for LocalParameter {
    fn clone(&self) -> (r: Self)
        ensures
            r == *self,
    {
        LocalParameter {
            id: self.id.clone(),
            value: self.value.clone(),
            units: self.units.clone(),
            sbo_term: self.sbo_term.clone(),
            parent: self.parent,
        }
    }
}

#[derive(Debug)]
pub struct FunctionDefinition {
    pub id: Option<String>,
    pub name: Option<String>,
    pub sbo_term: Option<String>,
    pub math: Option<usize>,
    pub parent: Option<usize>,
}

impl Clone for FunctionDefinition {
    fn clone(&self) -> (r: Self)
        ensures
            r == *self,
    {
        FunctionDefinition {
            id: self.id.clone(),
            name: self.name.clone(),
            sbo_term: self.sbo_term.clone(),
            math: self.math,
            parent: self.parent,
        }
    }
}

#[derive(Debug)]
pub struct InitialAssignment {
    pub id: Option<String>,
    pub symbol: Option<String>,
    pub sbo_term: Option<String>,
    pub math: Option<usize>,
    pub parent: Option<usize>,
}

impl Clone for InitialAssignment {
    fn clone(&self) -> (r: Self)
        ensures
            r == *self,
    {
        InitialAssignment {
            id: self.id.clone(),
            symbol: self.symbol.clone(),
            sbo_term: self.sbo_term.clone(),
            math: self.math,
            parent: self.parent,
        }
    }
}

#[derive(Debug)]
pub struct AssignmentRule {
    pub id: Option<String>,
    pub metaid: Option<String>,
    pub variable: Option<String>,
    pub sbo_term: Option<String>,
    pub math: Option<usize>,
    pub parent: Option<usize>,
}

impl Clone for AssignmentRule {
    fn clone(&self) -> (r: Self)
        ensures
            r == *self,
    {
        AssignmentRule {
            id: self.id.clone(),
            metaid: self.metaid.clone(),
            variable: self.variable.clone(),
            sbo_term: self.sbo_term.clone(),
            math: self.math,
            parent: self.parent,
        }
    }
}

#[derive(Debug)]
pub struct RateRule {
    pub id: Option<String>,
    pub metaid: Option<String>,
    pub variable: Option<String>,
    pub sbo_term: Option<String>,
    pub math: Option<usize>,
    pub parent: Option<usize>,
}

impl Clone for RateRule {
    fn clone(&self) -> (r: Self)
        ensures
            r == *self,
    {
        RateRule {
            id: self.id.clone(),
            metaid: self.metaid.clone(),
            variable: self.variable.clone(),
            sbo_term: self.sbo_term.clone(),
            math: self.math,
            parent: self.parent,
        }
    }
}

/// A node of the arena.
#[derive(Debug)]
pub enum Tag {
    Root(Root),
    ListOfUnitDefinitions(ListOfUnitDefinitions),
    UnitDefinition(UnitDefinition),
    ListOfUnits(ListOfUnits),
    Unit(Unit),
    ListOfCompartments(ListOfCompartments),
    Compartment(Compartment),
    ListOfParameters(ListOfParameters),
    Parameter(Parameter),
    ListOfSpecies(ListOfSpecies),
    Species(Species),
    ListOfReactions(ListOfReactions),
    Reaction(Reaction),
    ListOfReactants(ListOfReactants),
    ListOfProducts(ListOfProducts),
    SpeciesReference(SpeciesReference),
    ListOfModifiers(ListOfModifiers),
    ModifierSpeciesReference(ModifierSpeciesReference),
    ListOfLocalParameters(ListOfLocalParameters),
    LocalParameter(LocalParameter),
    KineticLaw(KineticLaw),
    MathTag(MathTag),
    ListOfFunctionDefinitions(ListOfFunctionDefinitions),
    FunctionDefinition(FunctionDefinition),
    ListOfInitialAssignments(ListOfInitialAssignments),
    InitialAssignment(InitialAssignment),
    ListOfRules(ListOfRules),
    AssignmentRule(AssignmentRule),
    RateRule(RateRule),
}

impl Tag {
    pub open spec fn kind_of(&self) -> TagKind {
        match self {
            Tag::Root(..) => TagKind::Root,
            Tag::ListOfUnitDefinitions(..) => TagKind::ListOfUnitDefinitions,
            Tag::UnitDefinition(..) => TagKind::UnitDefinition,
            Tag::ListOfUnits(..) => TagKind::ListOfUnits,
            Tag::Unit(..) => TagKind::Unit,
            Tag::ListOfCompartments(..) => TagKind::ListOfCompartments,
            Tag::Compartment(..) => TagKind::Compartment,
            Tag::ListOfParameters(..) => TagKind::ListOfParameters,
            Tag::Parameter(..) => TagKind::Parameter,
            Tag::ListOfSpecies(..) => TagKind::ListOfSpecies,
            Tag::Species(..) => TagKind::Species,
            Tag::ListOfReactions(..) => TagKind::ListOfReactions,
            Tag::Reaction(..) => TagKind::Reaction,
            Tag::ListOfReactants(..) => TagKind::ListOfReactants,
            Tag::ListOfProducts(..) => TagKind::ListOfProducts,
            Tag::SpeciesReference(..) => TagKind::SpeciesReference,
            Tag::ListOfModifiers(..) => TagKind::ListOfModifiers,
            Tag::ModifierSpeciesReference(..) => TagKind::ModifierSpeciesReference,
            Tag::ListOfLocalParameters(..) => TagKind::ListOfLocalParameters,
            Tag::LocalParameter(..) => TagKind::LocalParameter,
            Tag::KineticLaw(..) => TagKind::KineticLaw,
            Tag::MathTag(..) => TagKind::MathTag,
            Tag::ListOfFunctionDefinitions(..) => TagKind::ListOfFunctionDefinitions,
            Tag::FunctionDefinition(..) => TagKind::FunctionDefinition,
            Tag::ListOfInitialAssignments(..) => TagKind::ListOfInitialAssignments,
            Tag::InitialAssignment(..) => TagKind::InitialAssignment,
            Tag::ListOfRules(..) => TagKind::ListOfRules,
            Tag::AssignmentRule(..) => TagKind::AssignmentRule,
            Tag::RateRule(..) => TagKind::RateRule,
        }
    }

    /// The kind of the node.
    pub fn kind(&self) -> (r: TagKind)
        ensures
            r == self.kind_of(),
    {
        match self {
            Tag::Root(..) => TagKind::Root,
            Tag::ListOfUnitDefinitions(..) => TagKind::ListOfUnitDefinitions,
            Tag::UnitDefinition(..) => TagKind::UnitDefinition,
            Tag::ListOfUnits(..) => TagKind::ListOfUnits,
            Tag::Unit(..) => TagKind::Unit,
            Tag::ListOfCompartments(..) => TagKind::ListOfCompartments,
            Tag::Compartment(..) => TagKind::Compartment,
            Tag::ListOfParameters(..) => TagKind::ListOfParameters,
            Tag::Parameter(..) => TagKind::Parameter,
            Tag::ListOfSpecies(..) => TagKind::ListOfSpecies,
            Tag::Species(..) => TagKind::Species,
            Tag::ListOfReactions(..) => TagKind::ListOfReactions,
            Tag::Reaction(..) => TagKind::Reaction,
            Tag::ListOfReactants(..) => TagKind::ListOfReactants,
            Tag::ListOfProducts(..) => TagKind::ListOfProducts,
            Tag::SpeciesReference(..) => TagKind::SpeciesReference,
            Tag::ListOfModifiers(..) => TagKind::ListOfModifiers,
            Tag::ModifierSpeciesReference(..) => TagKind::ModifierSpeciesReference,
            Tag::ListOfLocalParameters(..) => TagKind::ListOfLocalParameters,
            Tag::LocalParameter(..) => TagKind::LocalParameter,
            Tag::KineticLaw(..) => TagKind::KineticLaw,
            Tag::MathTag(..) => TagKind::MathTag,
            Tag::ListOfFunctionDefinitions(..) => TagKind::ListOfFunctionDefinitions,
            Tag::FunctionDefinition(..) => TagKind::FunctionDefinition,
            Tag::ListOfInitialAssignments(..) => TagKind::ListOfInitialAssignments,
            Tag::InitialAssignment(..) => TagKind::InitialAssignment,
            Tag::ListOfRules(..) => TagKind::ListOfRules,
            Tag::AssignmentRule(..) => TagKind::AssignmentRule,
            Tag::RateRule(..) => TagKind::RateRule,
        }
    }

    pub open spec fn parent_of(&self) -> Option<usize> {
        match self {
            Tag::Root(..) => None,
            Tag::ListOfUnitDefinitions(t) => t.parent,
            Tag::UnitDefinition(t) => t.parent,
            Tag::ListOfUnits(t) => t.parent,
            Tag::Unit(t) => t.parent,
            Tag::ListOfCompartments(t) => t.parent,
            Tag::Compartment(t) => t.parent,
            Tag::ListOfParameters(t) => t.parent,
            Tag::Parameter(t) => t.parent,
            Tag::ListOfSpecies(t) => t.parent,
            Tag::Species(t) => t.parent,
            Tag::ListOfReactions(t) => t.parent,
            Tag::Reaction(t) => t.parent,
            Tag::ListOfReactants(t) => t.parent,
            Tag::ListOfProducts(t) => t.parent,
            Tag::SpeciesReference(t) => t.parent,
            Tag::ListOfModifiers(t) => t.parent,
            Tag::ModifierSpeciesReference(t) => t.parent,
            Tag::ListOfLocalParameters(t) => t.parent,
            Tag::LocalParameter(t) => t.parent,
            Tag::KineticLaw(t) => t.parent,
            Tag::MathTag(t) => t.parent,
            Tag::ListOfFunctionDefinitions(t) => t.parent,
            Tag::FunctionDefinition(t) => t.parent,
            Tag::ListOfInitialAssignments(t) => t.parent,
            Tag::InitialAssignment(t) => t.parent,
            Tag::ListOfRules(t) => t.parent,
            Tag::AssignmentRule(t) => t.parent,
            Tag::RateRule(t) => t.parent,
        }
    }

    /// The node with its parent link set to `p` and all else kept.
    pub open spec fn with_parent_spec(self, p: usize) -> Tag {
        match self {
            Tag::Root(r) => Tag::Root(r),
            Tag::ListOfUnitDefinitions(t) => Tag::ListOfUnitDefinitions(ListOfUnitDefinitions { parent: Some(p), ..t }),
            Tag::UnitDefinition(t) => Tag::UnitDefinition(UnitDefinition { parent: Some(p), ..t }),
            Tag::ListOfUnits(t) => Tag::ListOfUnits(ListOfUnits { parent: Some(p), ..t }),
            Tag::Unit(t) => Tag::Unit(Unit { parent: Some(p), ..t }),
            Tag::ListOfCompartments(t) => Tag::ListOfCompartments(ListOfCompartments { parent: Some(p), ..t }),
            Tag::Compartment(t) => Tag::Compartment(Compartment { parent: Some(p), ..t }),
            Tag::ListOfParameters(t) => Tag::ListOfParameters(ListOfParameters { parent: Some(p), ..t }),
            Tag::Parameter(t) => Tag::Parameter(Parameter { parent: Some(p), ..t }),
            Tag::ListOfSpecies(t) => Tag::ListOfSpecies(ListOfSpecies { parent: Some(p), ..t }),
            Tag::Species(t) => Tag::Species(Species { parent: Some(p), ..t }),
            Tag::ListOfReactions(t) => Tag::ListOfReactions(ListOfReactions { parent: Some(p), ..t }),
            Tag::Reaction(t) => Tag::Reaction(Reaction { parent: Some(p), ..t }),
            Tag::ListOfReactants(t) => Tag::ListOfReactants(ListOfReactants { parent: Some(p), ..t }),
            Tag::ListOfProducts(t) => Tag::ListOfProducts(ListOfProducts { parent: Some(p), ..t }),
            Tag::SpeciesReference(t) => Tag::SpeciesReference(SpeciesReference { parent: Some(p), ..t }),
            Tag::ListOfModifiers(t) => Tag::ListOfModifiers(ListOfModifiers { parent: Some(p), ..t }),
            Tag::ModifierSpeciesReference(t) => Tag::ModifierSpeciesReference(ModifierSpeciesReference { parent: Some(p), ..t }),
            Tag::ListOfLocalParameters(t) => Tag::ListOfLocalParameters(ListOfLocalParameters { parent: Some(p), ..t }),
            Tag::LocalParameter(t) => Tag::LocalParameter(LocalParameter { parent: Some(p), ..t }),
            Tag::KineticLaw(t) => Tag::KineticLaw(KineticLaw { parent: Some(p), ..t }),
            Tag::MathTag(t) => Tag::MathTag(MathTag { parent: Some(p), ..t }),
            Tag::ListOfFunctionDefinitions(t) => Tag::ListOfFunctionDefinitions(ListOfFunctionDefinitions { parent: Some(p), ..t }),
            Tag::FunctionDefinition(t) => Tag::FunctionDefinition(FunctionDefinition { parent: Some(p), ..t }),
            Tag::ListOfInitialAssignments(t) => Tag::ListOfInitialAssignments(ListOfInitialAssignments { parent: Some(p), ..t }),
            Tag::InitialAssignment(t) => Tag::InitialAssignment(InitialAssignment { parent: Some(p), ..t }),
            Tag::ListOfRules(t) => Tag::ListOfRules(ListOfRules { parent: Some(p), ..t }),
            Tag::AssignmentRule(t) => Tag::AssignmentRule(AssignmentRule { parent: Some(p), ..t }),
            Tag::RateRule(t) => Tag::RateRule(RateRule { parent: Some(p), ..t }),
        }
    }

    /// Sets the parent link of the node; the root has none.
    pub fn set_parent(&mut self, p: usize)
        ensures
            *final(self) == old(self).with_parent_spec(p),
    {
        match self {
            Tag::Root(..) => {},
            Tag::ListOfUnitDefinitions(t) => {
                t.parent = Some(p);
            },
            Tag::UnitDefinition(t) => {
                t.parent = Some(p);
            },
            Tag::ListOfUnits(t) => {
                t.parent = Some(p);
            },
            Tag::Unit(t) => {
                t.parent = Some(p);
            },
            Tag::ListOfCompartments(t) => {
                t.parent = Some(p);
            },
            Tag::Compartment(t) => {
                t.parent = Some(p);
            },
            Tag::ListOfParameters(t) => {
                t.parent = Some(p);
            },
            Tag::Parameter(t) => {
                t.parent = Some(p);
            },
            Tag::ListOfSpecies(t) => {
                t.parent = Some(p);
            },
            Tag::Species(t) => {
                t.parent = Some(p);
            },
            Tag::ListOfReactions(t) => {
                t.parent = Some(p);
            },
            Tag::Reaction(t) => {
                t.parent = Some(p);
            },
            Tag::ListOfReactants(t) => {
                t.parent = Some(p);
            },
            Tag::ListOfProducts(t) => {
                t.parent = Some(p);
            },
            Tag::SpeciesReference(t) => {
                t.parent = Some(p);
            },
            Tag::ListOfModifiers(t) => {
                t.parent = Some(p);
            },
            Tag::ModifierSpeciesReference(t) => {
                t.parent = Some(p);
            },
            Tag::ListOfLocalParameters(t) => {
                t.parent = Some(p);
            },
            Tag::LocalParameter(t) => {
                t.parent = Some(p);
            },
            Tag::KineticLaw(t) => {
                t.parent = Some(p);
            },
            Tag::MathTag(t) => {
                t.parent = Some(p);
            },
            Tag::ListOfFunctionDefinitions(t) => {
                t.parent = Some(p);
            },
            Tag::FunctionDefinition(t) => {
                t.parent = Some(p);
            },
            Tag::ListOfInitialAssignments(t) => {
                t.parent = Some(p);
            },
            Tag::InitialAssignment(t) => {
                t.parent = Some(p);
            },
            Tag::ListOfRules(t) => {
                t.parent = Some(p);
            },
            Tag::AssignmentRule(t) => {
                t.parent = Some(p);
            },
            Tag::RateRule(t) => {
                t.parent = Some(p);
            },
        }
    }
}

/// Whether a node of kind `child` may stand directly under one of kind
/// `parent`.
pub open spec fn legal_parent(child: TagKind, parent: TagKind) -> bool {
    match child {
        TagKind::ListOfUnitDefinitions => parent == TagKind::Root,
        TagKind::UnitDefinition => parent == TagKind::ListOfUnitDefinitions,
        TagKind::ListOfUnits => parent == TagKind::UnitDefinition,
        TagKind::Unit => parent == TagKind::ListOfUnits,
        TagKind::ListOfCompartments => parent == TagKind::Root,
        TagKind::Compartment => parent == TagKind::ListOfCompartments,
        TagKind::ListOfParameters => parent == TagKind::Root,
        TagKind::Parameter => parent == TagKind::ListOfParameters,
        TagKind::ListOfSpecies => parent == TagKind::Root,
        TagKind::Species => parent == TagKind::ListOfSpecies,
        TagKind::ListOfReactions => parent == TagKind::Root,
        TagKind::Reaction => parent == TagKind::ListOfReactions,
        TagKind::ListOfReactants => parent == TagKind::Reaction,
        TagKind::ListOfProducts => parent == TagKind::Reaction,
        TagKind::SpeciesReference => parent == TagKind::ListOfReactants || parent == TagKind::ListOfProducts,
        TagKind::ListOfModifiers => parent == TagKind::Reaction,
        TagKind::ModifierSpeciesReference => parent == TagKind::ListOfModifiers,
        TagKind::ListOfLocalParameters => parent == TagKind::KineticLaw,
        TagKind::LocalParameter => parent == TagKind::ListOfLocalParameters,
        TagKind::KineticLaw => parent == TagKind::Reaction,
        TagKind::MathTag => parent == TagKind::KineticLaw || parent == TagKind::FunctionDefinition || parent == TagKind::InitialAssignment || parent == TagKind::AssignmentRule || parent == TagKind::RateRule,
        TagKind::ListOfFunctionDefinitions => parent == TagKind::Root,
        TagKind::FunctionDefinition => parent == TagKind::ListOfFunctionDefinitions,
        TagKind::ListOfInitialAssignments => parent == TagKind::Root,
        TagKind::InitialAssignment => parent == TagKind::ListOfInitialAssignments,
        TagKind::ListOfRules => parent == TagKind::Root,
        TagKind::AssignmentRule => parent == TagKind::ListOfRules,
        TagKind::RateRule => parent == TagKind::ListOfRules,
        TagKind::Root => false,
    }
}

/// Whether `child` may stand directly under `parent` (`legal_parent`).
pub fn is_legal_parent(child: TagKind, parent: TagKind) -> (r: bool)
    ensures
        r == legal_parent(child, parent),
{
    match child {
        TagKind::ListOfUnitDefinitions => parent == TagKind::Root,
        TagKind::UnitDefinition => parent == TagKind::ListOfUnitDefinitions,
        TagKind::ListOfUnits => parent == TagKind::UnitDefinition,
        TagKind::Unit => parent == TagKind::ListOfUnits,
        TagKind::ListOfCompartments => parent == TagKind::Root,
        TagKind::Compartment => parent == TagKind::ListOfCompartments,
        TagKind::ListOfParameters => parent == TagKind::Root,
        TagKind::Parameter => parent == TagKind::ListOfParameters,
        TagKind::ListOfSpecies => parent == TagKind::Root,
        TagKind::Species => parent == TagKind::ListOfSpecies,
        TagKind::ListOfReactions => parent == TagKind::Root,
        TagKind::Reaction => parent == TagKind::ListOfReactions,
        TagKind::ListOfReactants => parent == TagKind::Reaction,
        TagKind::ListOfProducts => parent == TagKind::Reaction,
        TagKind::SpeciesReference => parent == TagKind::ListOfReactants || parent == TagKind::ListOfProducts,
        TagKind::ListOfModifiers => parent == TagKind::Reaction,
        TagKind::ModifierSpeciesReference => parent == TagKind::ListOfModifiers,
        TagKind::ListOfLocalParameters => parent == TagKind::KineticLaw,
        TagKind::LocalParameter => parent == TagKind::ListOfLocalParameters,
        TagKind::KineticLaw => parent == TagKind::Reaction,
        TagKind::MathTag => parent == TagKind::KineticLaw || parent == TagKind::FunctionDefinition || parent == TagKind::InitialAssignment || parent == TagKind::AssignmentRule || parent == TagKind::RateRule,
        TagKind::ListOfFunctionDefinitions => parent == TagKind::Root,
        TagKind::FunctionDefinition => parent == TagKind::ListOfFunctionDefinitions,
        TagKind::ListOfInitialAssignments => parent == TagKind::Root,
        TagKind::InitialAssignment => parent == TagKind::ListOfInitialAssignments,
        TagKind::ListOfRules => parent == TagKind::Root,
        TagKind::AssignmentRule => parent == TagKind::ListOfRules,
        TagKind::RateRule => parent == TagKind::ListOfRules,
        TagKind::Root => false,
    }
}

/// `q` is `p` with the node at position `idx`, of kind `child`, linked in:
/// appended to the member list of a container, or set in the one slot of an
/// entity that holds a child of that kind. Nothing else changes.
pub open spec fn attached(p: Tag, q: Tag, child: TagKind, idx: usize) -> bool {
    match p {
        Tag::Root(t) => match child {
            TagKind::ListOfUnitDefinitions => q == Tag::Root(Root { list_of_unit_definitions: Some(idx), ..t }),
            TagKind::ListOfCompartments => q == Tag::Root(Root { list_of_compartments: Some(idx), ..t }),
            TagKind::ListOfParameters => q == Tag::Root(Root { list_of_parameters: Some(idx), ..t }),
            TagKind::ListOfSpecies => q == Tag::Root(Root { list_of_species: Some(idx), ..t }),
            TagKind::ListOfReactions => q == Tag::Root(Root { list_of_reactions: Some(idx), ..t }),
            TagKind::ListOfFunctionDefinitions => q == Tag::Root(Root { list_of_function_definitions: Some(idx), ..t }),
            TagKind::ListOfInitialAssignments => q == Tag::Root(Root { list_of_initial_assignments: Some(idx), ..t }),
            TagKind::ListOfRules => q == Tag::Root(Root { list_of_rules: Some(idx), ..t }),
            _ => q == p,
        },
        Tag::ListOfUnitDefinitions(t) => match q {
            Tag::ListOfUnitDefinitions(u) => match child {
                TagKind::UnitDefinition => u.unit_definitions@ == t.unit_definitions@.push(idx) && u.parent == t.parent,
                _ => u.unit_definitions@ == t.unit_definitions@ && u.parent == t.parent,
            },
            _ => false,
        },
        Tag::UnitDefinition(t) => match child {
            TagKind::ListOfUnits => q == Tag::UnitDefinition(UnitDefinition { list_of_units: Some(idx), ..t }),
            _ => q == p,
        },
        Tag::ListOfUnits(t) => match q {
            Tag::ListOfUnits(u) => match child {
                TagKind::Unit => u.units@ == t.units@.push(idx) && u.parent == t.parent,
                _ => u.units@ == t.units@ && u.parent == t.parent,
            },
            _ => false,
        },
        Tag::Unit(..) => q == p,
        Tag::ListOfCompartments(t) => match q {
            Tag::ListOfCompartments(u) => match child {
                TagKind::Compartment => u.compartments@ == t.compartments@.push(idx) && u.parent == t.parent,
                _ => u.compartments@ == t.compartments@ && u.parent == t.parent,
            },
            _ => false,
        },
        Tag::Compartment(..) => q == p,
        Tag::ListOfParameters(t) => match q {
            Tag::ListOfParameters(u) => match child {
                TagKind::Parameter => u.parameters@ == t.parameters@.push(idx) && u.parent == t.parent,
                _ => u.parameters@ == t.parameters@ && u.parent == t.parent,
            },
            _ => false,
        },
        Tag::Parameter(..) => q == p,
        Tag::ListOfSpecies(t) => match q {
            Tag::ListOfSpecies(u) => match child {
                TagKind::Species => u.species@ == t.species@.push(idx) && u.parent == t.parent,
                _ => u.species@ == t.species@ && u.parent == t.parent,
            },
            _ => false,
        },
        Tag::Species(..) => q == p,
        Tag::ListOfReactions(t) => match q {
            Tag::ListOfReactions(u) => match child {
                TagKind::Reaction => u.reactions@ == t.reactions@.push(idx) && u.parent == t.parent,
                _ => u.reactions@ == t.reactions@ && u.parent == t.parent,
            },
            _ => false,
        },
        Tag::Reaction(t) => match child {
            TagKind::ListOfReactants => q == Tag::Reaction(Reaction { list_of_reactants: Some(idx), ..t }),
            TagKind::ListOfProducts => q == Tag::Reaction(Reaction { list_of_products: Some(idx), ..t }),
            TagKind::ListOfModifiers => q == Tag::Reaction(Reaction { list_of_modifiers: Some(idx), ..t }),
            TagKind::KineticLaw => q == Tag::Reaction(Reaction { kinetic_law: Some(idx), ..t }),
            _ => q == p,
        },
        Tag::ListOfReactants(t) => match q {
            Tag::ListOfReactants(u) => match child {
                TagKind::SpeciesReference => u.species_references@ == t.species_references@.push(idx) && u.parent == t.parent,
                _ => u.species_references@ == t.species_references@ && u.parent == t.parent,
            },
            _ => false,
        },
        Tag::ListOfProducts(t) => match q {
            Tag::ListOfProducts(u) => match child {
                TagKind::SpeciesReference => u.species_references@ == t.species_references@.push(idx) && u.parent == t.parent,
                _ => u.species_references@ == t.species_references@ && u.parent == t.parent,
            },
            _ => false,
        },
        Tag::SpeciesReference(..) => q == p,
        Tag::ListOfModifiers(t) => match q {
            Tag::ListOfModifiers(u) => match child {
                TagKind::ModifierSpeciesReference => u.modifier_species_references@ == t.modifier_species_references@.push(idx) && u.parent == t.parent,
                _ => u.modifier_species_references@ == t.modifier_species_references@ && u.parent == t.parent,
            },
            _ => false,
        },
        Tag::ModifierSpeciesReference(..) => q == p,
        Tag::ListOfLocalParameters(t) => match q {
            Tag::ListOfLocalParameters(u) => match child {
                TagKind::LocalParameter => u.local_parameters@ == t.local_parameters@.push(idx) && u.parent == t.parent,
                _ => u.local_parameters@ == t.local_parameters@ && u.parent == t.parent,
            },
            _ => false,
        },
        Tag::LocalParameter(..) => q == p,
        Tag::KineticLaw(t) => match child {
            TagKind::ListOfLocalParameters => q == Tag::KineticLaw(KineticLaw { list_of_local_parameters: Some(idx), ..t }),
            TagKind::MathTag => q == Tag::KineticLaw(KineticLaw { math: Some(idx), ..t }),
            _ => q == p,
        },
        Tag::MathTag(..) => q == p,
        Tag::ListOfFunctionDefinitions(t) => match q {
            Tag::ListOfFunctionDefinitions(u) => match child {
                TagKind::FunctionDefinition => u.function_definitions@ == t.function_definitions@.push(idx) && u.parent == t.parent,
                _ => u.function_definitions@ == t.function_definitions@ && u.parent == t.parent,
            },
            _ => false,
        },
        Tag::FunctionDefinition(t) => match child {
            TagKind::MathTag => q == Tag::FunctionDefinition(FunctionDefinition { math: Some(idx), ..t }),
            _ => q == p,
        },
        Tag::ListOfInitialAssignments(t) => match q {
            Tag::ListOfInitialAssignments(u) => match child {
                TagKind::InitialAssignment => u.initial_assignments@ == t.initial_assignments@.push(idx) && u.parent == t.parent,
                _ => u.initial_assignments@ == t.initial_assignments@ && u.parent == t.parent,
            },
            _ => false,
        },
        Tag::InitialAssignment(t) => match child {
            TagKind::MathTag => q == Tag::InitialAssignment(InitialAssignment { math: Some(idx), ..t }),
            _ => q == p,
        },
        Tag::ListOfRules(t) => match q {
            Tag::ListOfRules(u) => match child {
                TagKind::AssignmentRule => u.assignment_rules@ == t.assignment_rules@.push(idx) && u.rate_rules@ == t.rate_rules@ && u.parent == t.parent,
                TagKind::RateRule => u.rate_rules@ == t.rate_rules@.push(idx) && u.assignment_rules@ == t.assignment_rules@ && u.parent == t.parent,
                _ => u.assignment_rules@ == t.assignment_rules@ && u.rate_rules@ == t.rate_rules@ && u.parent == t.parent,
            },
            _ => false,
        },
        Tag::AssignmentRule(t) => match child {
            TagKind::MathTag => q == Tag::AssignmentRule(AssignmentRule { math: Some(idx), ..t }),
            _ => q == p,
        },
        Tag::RateRule(t) => match child {
            TagKind::MathTag => q == Tag::RateRule(RateRule { math: Some(idx), ..t }),
            _ => q == p,
        },
    }
}

/// Links the node at position `idx`, of kind `child`, into this node
/// (`attached`).
pub fn attach(p: &mut Tag, child: TagKind, idx: usize)
    ensures
        attached(*old(p), *final(p), child, idx),
{
    match p {
        Tag::Root(t) => match child {
            TagKind::ListOfUnitDefinitions => {
                t.list_of_unit_definitions = Some(idx);
            },
            TagKind::ListOfCompartments => {
                t.list_of_compartments = Some(idx);
            },
            TagKind::ListOfParameters => {
                t.list_of_parameters = Some(idx);
            },
            TagKind::ListOfSpecies => {
                t.list_of_species = Some(idx);
            },
            TagKind::ListOfReactions => {
                t.list_of_reactions = Some(idx);
            },
            TagKind::ListOfFunctionDefinitions => {
                t.list_of_function_definitions = Some(idx);
            },
            TagKind::ListOfInitialAssignments => {
                t.list_of_initial_assignments = Some(idx);
            },
            TagKind::ListOfRules => {
                t.list_of_rules = Some(idx);
            },
            _ => {},
        },
        Tag::ListOfUnitDefinitions(t) => match child {
            TagKind::UnitDefinition => {
                t.unit_definitions.push(idx);
            },
            _ => {},
        },
        Tag::UnitDefinition(t) => match child {
            TagKind::ListOfUnits => {
                t.list_of_units = Some(idx);
            },
            _ => {},
        },
        Tag::ListOfUnits(t) => match child {
            TagKind::Unit => {
                t.units.push(idx);
            },
            _ => {},
        },
        Tag::Unit(..) => {},
        Tag::ListOfCompartments(t) => match child {
            TagKind::Compartment => {
                t.compartments.push(idx);
            },
            _ => {},
        },
        Tag::Compartment(..) => {},
        Tag::ListOfParameters(t) => match child {
            TagKind::Parameter => {
                t.parameters.push(idx);
            },
            _ => {},
        },
        Tag::Parameter(..) => {},
        Tag::ListOfSpecies(t) => match child {
            TagKind::Species => {
                t.species.push(idx);
            },
            _ => {},
        },
        Tag::Species(..) => {},
        Tag::ListOfReactions(t) => match child {
            TagKind::Reaction => {
                t.reactions.push(idx);
            },
            _ => {},
        },
        Tag::Reaction(t) => match child {
            TagKind::ListOfReactants => {
                t.list_of_reactants = Some(idx);
            },
            TagKind::ListOfProducts => {
                t.list_of_products = Some(idx);
            },
            TagKind::ListOfModifiers => {
                t.list_of_modifiers = Some(idx);
            },
            TagKind::KineticLaw => {
                t.kinetic_law = Some(idx);
            },
            _ => {},
        },
        Tag::ListOfReactants(t) => match child {
            TagKind::SpeciesReference => {
                t.species_references.push(idx);
            },
            _ => {},
        },
        Tag::ListOfProducts(t) => match child {
            TagKind::SpeciesReference => {
                t.species_references.push(idx);
            },
            _ => {},
        },
        Tag::SpeciesReference(..) => {},
        Tag::ListOfModifiers(t) => match child {
            TagKind::ModifierSpeciesReference => {
                t.modifier_species_references.push(idx);
            },
            _ => {},
        },
        Tag::ModifierSpeciesReference(..) => {},
        Tag::ListOfLocalParameters(t) => match child {
            TagKind::LocalParameter => {
                t.local_parameters.push(idx);
            },
            _ => {},
        },
        Tag::LocalParameter(..) => {},
        Tag::KineticLaw(t) => match child {
            TagKind::ListOfLocalParameters => {
                t.list_of_local_parameters = Some(idx);
            },
            TagKind::MathTag => {
                t.math = Some(idx);
            },
            _ => {},
        },
        Tag::MathTag(..) => {},
        Tag::ListOfFunctionDefinitions(t) => match child {
            TagKind::FunctionDefinition => {
                t.function_definitions.push(idx);
            },
            _ => {},
        },
        Tag::FunctionDefinition(t) => match child {
            TagKind::MathTag => {
                t.math = Some(idx);
            },
            _ => {},
        },
        Tag::ListOfInitialAssignments(t) => match child {
            TagKind::InitialAssignment => {
                t.initial_assignments.push(idx);
            },
            _ => {},
        },
        Tag::InitialAssignment(t) => match child {
            TagKind::MathTag => {
                t.math = Some(idx);
            },
            _ => {},
        },
        Tag::ListOfRules(t) => match child {
            TagKind::AssignmentRule => {
                t.assignment_rules.push(idx);
            },
            TagKind::RateRule => {
                t.rate_rules.push(idx);
            },
            _ => {},
        },
        Tag::AssignmentRule(t) => match child {
            TagKind::MathTag => {
                t.math = Some(idx);
            },
            _ => {},
        },
        Tag::RateRule(t) => match child {
            TagKind::MathTag => {
                t.math = Some(idx);
            },
            _ => {},
        },
    }
}

impl ListOfUnitDefinitions {
    /// An empty list, with no parent yet.
    pub fn new() -> (r: Self)
        ensures
            r.unit_definitions@.len() == 0,
            r.parent is None,
    {
        ListOfUnitDefinitions { unit_definitions: Vec::new(), parent: None }
    }
}

impl UnitDefinition {
    /// A unit definition with no attributes, units or parent yet.
    pub fn new() -> (r: Self)
        ensures
            r.id is None,
            r.list_of_units is None,
            r.parent is None,
    {
        UnitDefinition { id: None, list_of_units: None, parent: None }
    }
}

impl ListOfUnits {
    /// An empty list, with no parent yet.
    pub fn new() -> (r: Self)
        ensures
            r.units@.len() == 0,
            r.parent is None,
    {
        ListOfUnits { units: Vec::new(), parent: None }
    }
}

impl Unit {
    /// A unit with no attributes or parent yet.
    pub fn new() -> (r: Self)
        ensures
            r.kind is None,
            r.exponent is None,
            r.scale is None,
            r.multiplier is None,
            r.parent is None,
    {
        Unit { kind: None, exponent: None, scale: None, multiplier: None, parent: None }
    }
}

/// Every node of `old` is still there, of the same kind, in `new`, which may
/// have more nodes after them.
pub open spec fn kinds_kept(old: Seq<Tag>, new: Seq<Tag>) -> bool {
    old.len() <= new.len() && forall|i: int| 0 <= i < old.len() ==> #[trigger] new[i].kind_of() == old[i].kind_of()
}

/// Round-trip indexing: a step that keeps every node's kind, followed by
/// another, keeps every node's kind; so along any run of the parser's and
/// the passes' steps, the node appended at a position keeps its kind there.
pub proof fn lemma_kinds_kept_along(a: Seq<Tag>, b: Seq<Tag>, c: Seq<Tag>)
    requires
        kinds_kept(a, b),
        kinds_kept(b, c),
    ensures
        kinds_kept(a, c),
{
    assert forall|i: int| 0 <= i < a.len() implies #[trigger] c[i].kind_of() == a[i].kind_of() by {
        assert(c[i].kind_of() == b[i].kind_of());
    }
}

} // verus!
