//! A built document: its header attributes and its arena, with typed views
//! over the arena.
use vstd::prelude::*;
use crate::attributes::attr_text;
use crate::literal::text_is;
use crate::math::name_view;
use crate::parser::ParseError;
use crate::math::{fragment_view, MathNodeView, MathTag};
use crate::tag::{
    attached,
    AssignmentRule, Compartment, FunctionDefinition, InitialAssignment, KineticLaw, LocalParameter, Parameter, RateRule, Reaction,
    Species, SpeciesReference, Tag, TagKind, UnitDefinition,
};

verus! {

/// A document: the attributes of its header, and the arena of its nodes, with
/// the root at position 0.
#[derive(Debug)]
pub struct Model {
    pub id: Option<String>,
    pub name: Option<String>,
    pub meta_id: Option<String>,
    pub substance_units: Option<String>,
    pub time_units: Option<String>,
    pub volume_units: Option<String>,
    pub area_units: Option<String>,
    pub length_units: Option<String>,
    pub extent_units: Option<String>,
    pub conversion_factor: Option<String>,
    pub nodes: Vec<Tag>,
}

/// Whether the document header takes an attribute named `key`.
pub open spec fn header_key(key: Seq<char>) -> bool {
    key == "id"@ || key == "name"@ || key == "metaid"@ || key == "substanceUnits"@ || key == "timeUnits"@ || key == "volumeUnits"@ || key == "areaUnits"@ || key == "lengthUnits"@ || key == "extentUnits"@ || key == "conversionFactor"@
}

/// Whether the document header takes every one of these attributes.
pub open spec fn header_fits(attrs: Seq<(String, String)>) -> bool {
    forall|i: int| 0 <= i < attrs.len() ==> header_key(#[trigger] attrs[i].0@)
}

fn is_header_key(key: &str) -> (r: bool)
    ensures
        r == header_key(key@),
{
    text_is(key, "id") || text_is(key, "name") || text_is(key, "metaid") || text_is(key, "substanceUnits") || text_is(key, "timeUnits") || text_is(key, "volumeUnits") || text_is(key, "areaUnits") || text_is(key, "lengthUnits") || text_is(key, "extentUnits") || text_is(key, "conversionFactor")
}

/// Checks the attributes of the document header; the error names the first
/// that it does not take.
pub fn check_header(attrs: &Vec<(String, String)>) -> (r: Result<(), String>)
    ensures
        r is Ok <==> header_fits(attrs@),
        r matches Err(k) ==> exists|i: int|
            0 <= i < attrs@.len() && !header_key(#[trigger] attrs@[i].0@) && k@ == attrs@[i].0@,
{
    let mut i: usize = 0;
    while i < attrs.len()
        invariant
            i <= attrs@.len(),
            forall|j: int| 0 <= j < i ==> header_key(#[trigger] attrs@[j].0@),
        decreases attrs@.len() - i,
    {
        if !is_header_key(attrs[i].0.as_str()) {
            return Err(attrs[i].0.clone());
        }
        i = i + 1;
    }
    Ok(())
}

/// Each header field of `m` holds the header attribute of its name.
pub open spec fn holds_header(m: Model, attrs: Seq<(String, String)>) -> bool {
    &&& name_view(m.id) == attr_text(attrs, "id"@)
    &&& name_view(m.name) == attr_text(attrs, "name"@)
    &&& name_view(m.meta_id) == attr_text(attrs, "metaid"@)
    &&& name_view(m.substance_units) == attr_text(attrs, "substanceUnits"@)
    &&& name_view(m.time_units) == attr_text(attrs, "timeUnits"@)
    &&& name_view(m.volume_units) == attr_text(attrs, "volumeUnits"@)
    &&& name_view(m.area_units) == attr_text(attrs, "areaUnits"@)
    &&& name_view(m.length_units) == attr_text(attrs, "lengthUnits"@)
    &&& name_view(m.extent_units) == attr_text(attrs, "extentUnits"@)
    &&& name_view(m.conversion_factor) == attr_text(attrs, "conversionFactor"@)
}

fn header_value(attrs: &Vec<(String, String)>, key: &str) -> (r: Option<String>)
    ensures
        name_view(r) == attr_text(attrs@, key@),
{
    let mut i: usize = 0;
    assert(attrs@.subrange(0, attrs@.len() as int) =~= attrs@);
    while i < attrs.len()
        invariant
            i <= attrs@.len(),
            attr_text(attrs@, key@) == attr_text(attrs@.subrange(i as int, attrs@.len() as int), key@),
        decreases attrs@.len() - i,
    {
        let ghost rest = attrs@.subrange(i as int, attrs@.len() as int);
        assert(rest.drop_first() =~= attrs@.subrange(i + 1, attrs@.len() as int));
        if text_is(attrs[i].0.as_str(), key) {
            return Some(attrs[i].1.clone());
        }
        i = i + 1;
    }
    None
}

impl Model {
    /// The model of an arena and the attributes of the document header; each
    /// header field holds the attribute of its name. An attribute that the
    /// header does not take is an error.
    pub fn new(nodes: Vec<Tag>, attributes: &Vec<(String, String)>) -> (r: Result<Model, ParseError>)
        ensures
            r is Ok <==> header_fits(attributes@),
            r matches Err(e) ==> (e matches ParseError::UnknownModelAttribute(k) && exists|i: int|
                0 <= i < attributes@.len() && !header_key(#[trigger] attributes@[i].0@) && k@ == attributes@[i].0@),
            r matches Ok(m) ==> m.nodes == nodes && holds_header(m, attributes@),
    {
        match check_header(attributes) {
            Err(k) => Err(ParseError::UnknownModelAttribute(k)),
            Ok(()) => Ok(Model {
                id: header_value(attributes, "id"),
                name: header_value(attributes, "name"),
                meta_id: header_value(attributes, "metaid"),
                substance_units: header_value(attributes, "substanceUnits"),
                time_units: header_value(attributes, "timeUnits"),
                volume_units: header_value(attributes, "volumeUnits"),
                area_units: header_value(attributes, "areaUnits"),
                length_units: header_value(attributes, "lengthUnits"),
                extent_units: header_value(attributes, "extentUnits"),
                conversion_factor: header_value(attributes, "conversionFactor"),
                nodes,
            }),
        }
    }
}


/// The positions that the container `t` lists as members of kind `member`.
pub open spec fn listed(t: Tag, member: TagKind) -> Seq<usize> {
    match t {
        Tag::ListOfUnitDefinitions(l) => if member == TagKind::UnitDefinition {
            l.unit_definitions@
        } else {
            Seq::empty()
        },
        Tag::ListOfUnits(l) => if member == TagKind::Unit {
            l.units@
        } else {
            Seq::empty()
        },
        Tag::ListOfCompartments(l) => if member == TagKind::Compartment {
            l.compartments@
        } else {
            Seq::empty()
        },
        Tag::ListOfParameters(l) => if member == TagKind::Parameter {
            l.parameters@
        } else {
            Seq::empty()
        },
        Tag::ListOfSpecies(l) => if member == TagKind::Species {
            l.species@
        } else {
            Seq::empty()
        },
        Tag::ListOfReactions(l) => if member == TagKind::Reaction {
            l.reactions@
        } else {
            Seq::empty()
        },
        Tag::ListOfReactants(l) => if member == TagKind::SpeciesReference {
            l.species_references@
        } else {
            Seq::empty()
        },
        Tag::ListOfProducts(l) => if member == TagKind::SpeciesReference {
            l.species_references@
        } else {
            Seq::empty()
        },
        Tag::ListOfModifiers(l) => if member == TagKind::ModifierSpeciesReference {
            l.modifier_species_references@
        } else {
            Seq::empty()
        },
        Tag::ListOfLocalParameters(l) => if member == TagKind::LocalParameter {
            l.local_parameters@
        } else {
            Seq::empty()
        },
        Tag::ListOfFunctionDefinitions(l) => if member == TagKind::FunctionDefinition {
            l.function_definitions@
        } else {
            Seq::empty()
        },
        Tag::ListOfInitialAssignments(l) => if member == TagKind::InitialAssignment {
            l.initial_assignments@
        } else {
            Seq::empty()
        },
        Tag::ListOfRules(l) => if member == TagKind::AssignmentRule {
            l.assignment_rules@
        } else if member == TagKind::RateRule {
            l.rate_rules@
        } else {
            Seq::empty()
        },
        _ => Seq::empty(),
    }
}

/// The members listed by the container that `link` points to, if it points
/// to a node of kind `container`.
pub open spec fn linked_members(nodes: Seq<Tag>, link: Option<usize>, container: TagKind, member: TagKind) -> Seq<usize> {
    match link {
        Some(i) => if i < nodes.len() && nodes[i as int].kind_of() == container {
            listed(nodes[i as int], member)
        } else {
            Seq::empty()
        },
        None => Seq::empty(),
    }
}

/// The positions among `ids` that hold a node of kind `kind`, in order.
pub open spec fn of_kind(nodes: Seq<Tag>, ids: Seq<usize>, kind: TagKind) -> Seq<usize>
    decreases ids.len(),
{
    if ids.len() == 0 {
        Seq::empty()
    } else {
        let r = of_kind(nodes, ids.drop_last(), kind);
        let i = ids.last();
        if i < nodes.len() && nodes[i as int].kind_of() == kind {
            r.push(i)
        } else {
            r
        }
    }
}

/// The resolved members of kind `member` of the container that `link` points
/// to: a link that does not resolve, or a member of another kind, counts as
/// absent.
pub open spec fn resolved(nodes: Seq<Tag>, link: Option<usize>, container: TagKind, member: TagKind) -> Seq<usize> {
    of_kind(nodes, linked_members(nodes, link, container, member), member)
}

pub proof fn lemma_of_kind(nodes: Seq<Tag>, ids: Seq<usize>, kind: TagKind)
    ensures
        forall|j: int| 0 <= j < of_kind(nodes, ids, kind).len() ==> #[trigger] of_kind(nodes, ids, kind)[j] < nodes.len()
            && nodes[of_kind(nodes, ids, kind)[j] as int].kind_of() == kind,
    decreases ids.len(),
{
    if ids.len() > 0 {
        lemma_of_kind(nodes, ids.drop_last(), kind);
    }
}

/// The link of the root to its top-level container of kind `container`.
pub open spec fn root_link(nodes: Seq<Tag>, container: TagKind) -> Option<usize> {
    if nodes.len() > 0 {
        match nodes[0] {
            Tag::Root(r) => match container {
                TagKind::ListOfSpecies => r.list_of_species,
                TagKind::ListOfReactions => r.list_of_reactions,
                TagKind::ListOfUnitDefinitions => r.list_of_unit_definitions,
                TagKind::ListOfCompartments => r.list_of_compartments,
                TagKind::ListOfParameters => r.list_of_parameters,
                TagKind::ListOfFunctionDefinitions => r.list_of_function_definitions,
                TagKind::ListOfInitialAssignments => r.list_of_initial_assignments,
                TagKind::ListOfRules => r.list_of_rules,
                _ => None,
            },
            _ => None,
        }
    } else {
        None
    }
}

/// The link from a node to the math fragment it owns, if it owns one.
pub open spec fn math_link(t: Tag) -> Option<usize> {
    match t {
        Tag::KineticLaw(n) => n.math,
        Tag::FunctionDefinition(n) => n.math,
        Tag::InitialAssignment(n) => n.math,
        Tag::AssignmentRule(n) => n.math,
        Tag::RateRule(n) => n.math,
        _ => None,
    }
}

/// The fragment that `link` points to, if it points to one.
pub open spec fn fragment_at(nodes: Seq<Tag>, link: Option<usize>) -> Option<MathTag> {
    match link {
        Some(i) => if i < nodes.len() && nodes[i as int] is MathTag {
            Some(nodes[i as int]->MathTag_0)
        } else {
            None
        },
        None => None,
    }
}

/// `r` is a copy of the fragment `t`, if there is one.
pub open spec fn copies(r: Option<MathTag>, t: Option<MathTag>) -> bool {
    match (r, t) {
        (Some(a), Some(b)) => fragment_view(a.nodes@) == fragment_view(b.nodes@) && a.parent == b.parent,
        (None, None) => true,
        _ => false,
    }
}

impl Model {
    /// The positions of the resolved members of kind `member` of the
    /// container that `link` points to (`resolved`).
    pub fn members(&self, link: Option<usize>, container: TagKind, member: TagKind) -> (r: Vec<usize>)
        ensures
            r@ == resolved(self.nodes@, link, container, member),
    {
        let mut r: Vec<usize> = Vec::new();
        let idx = match link {
            Some(i) => i,
            None => {
                return r;
            },
        };
        if idx >= self.nodes.len() || self.nodes[idx].kind() != container {
            return r;
        }
        let ids = self.listed_in(idx, member);
        let ghost nodes = self.nodes@;
        let mut j: usize = 0;
        while j < ids.len()
            invariant
                nodes == self.nodes@,
                j <= ids@.len(),
                r@ == of_kind(nodes, ids@.subrange(0, j as int), member),
            decreases ids@.len() - j,
        {
            let i = ids[j];
            if i < self.nodes.len() && self.nodes[i].kind() == member {
                r.push(i);
            }
            j = j + 1;
            assert(ids@.subrange(0, j as int).drop_last() =~= ids@.subrange(0, j - 1));
        }
        assert(ids@.subrange(0, j as int) =~= ids@);
        r
    }

    fn listed_in(&self, idx: usize, member: TagKind) -> (r: Vec<usize>)
        requires
            idx < self.nodes@.len(),
        ensures
            r@ == listed(self.nodes@[idx as int], member),
    {
        let v: &Vec<usize> = match &self.nodes[idx] {
            Tag::ListOfUnitDefinitions(l) => if member == TagKind::UnitDefinition {
                &l.unit_definitions
            } else {
                return Vec::new();
            },
            Tag::ListOfUnits(l) => if member == TagKind::Unit {
                &l.units
            } else {
                return Vec::new();
            },
            Tag::ListOfCompartments(l) => if member == TagKind::Compartment {
                &l.compartments
            } else {
                return Vec::new();
            },
            Tag::ListOfParameters(l) => if member == TagKind::Parameter {
                &l.parameters
            } else {
                return Vec::new();
            },
            Tag::ListOfSpecies(l) => if member == TagKind::Species {
                &l.species
            } else {
                return Vec::new();
            },
            Tag::ListOfReactions(l) => if member == TagKind::Reaction {
                &l.reactions
            } else {
                return Vec::new();
            },
            Tag::ListOfReactants(l) => if member == TagKind::SpeciesReference {
                &l.species_references
            } else {
                return Vec::new();
            },
            Tag::ListOfProducts(l) => if member == TagKind::SpeciesReference {
                &l.species_references
            } else {
                return Vec::new();
            },
            Tag::ListOfModifiers(l) => if member == TagKind::ModifierSpeciesReference {
                &l.modifier_species_references
            } else {
                return Vec::new();
            },
            Tag::ListOfLocalParameters(l) => if member == TagKind::LocalParameter {
                &l.local_parameters
            } else {
                return Vec::new();
            },
            Tag::ListOfFunctionDefinitions(l) => if member == TagKind::FunctionDefinition {
                &l.function_definitions
            } else {
                return Vec::new();
            },
            Tag::ListOfInitialAssignments(l) => if member == TagKind::InitialAssignment {
                &l.initial_assignments
            } else {
                return Vec::new();
            },
            Tag::ListOfRules(l) => if member == TagKind::AssignmentRule {
                &l.assignment_rules
            } else if member == TagKind::RateRule {
                &l.rate_rules
            } else {
                return Vec::new();
            },
            _ => {
                return Vec::new();
            },
        };
        let mut r: Vec<usize> = Vec::new();
        let mut j: usize = 0;
        while j < v.len()
            invariant
                j <= v@.len(),
                r@ == v@.subrange(0, j as int),
            decreases v@.len() - j,
        {
            r.push(v[j]);
            j = j + 1;
        }
        assert(r@ =~= v@);
        r
    }

    /// The link of the root to its top-level container of kind `container`
    /// (`root_link`).
    pub fn top_link(&self, container: TagKind) -> (r: Option<usize>)
        ensures
            r == root_link(self.nodes@, container),
    {
        if self.nodes.len() == 0 {
            return None;
        }
        match &self.nodes[0] {
            Tag::Root(r) => match container {
                TagKind::ListOfSpecies => r.list_of_species,
                TagKind::ListOfReactions => r.list_of_reactions,
                TagKind::ListOfUnitDefinitions => r.list_of_unit_definitions,
                TagKind::ListOfCompartments => r.list_of_compartments,
                TagKind::ListOfParameters => r.list_of_parameters,
                TagKind::ListOfFunctionDefinitions => r.list_of_function_definitions,
                TagKind::ListOfInitialAssignments => r.list_of_initial_assignments,
                TagKind::ListOfRules => r.list_of_rules,
                _ => None,
            },
            _ => None,
        }
    }

    /// A copy of the fragment that `link` points to, if it points to one.
    pub fn fragment(&self, link: Option<usize>) -> (r: Option<MathTag>)
        ensures
            copies(r, fragment_at(self.nodes@, link)),
    {
        match link {
            Some(i) => if i < self.nodes.len() {
                match &self.nodes[i] {
                    Tag::MathTag(t) => Some(t.clone()),
                    _ => None,
                }
            } else {
                None
            },
            None => None,
        }
    }

    /// The positions of the document's `Species` nodes, in document order.
    pub open spec fn species_positions(&self) -> Seq<usize> {
        resolved(self.nodes@, root_link(self.nodes@, TagKind::ListOfSpecies), TagKind::ListOfSpecies, TagKind::Species)
    }

    /// The document's `Species` nodes, in document order; empty where the root
    /// has no such list.
    pub fn species(&self) -> (r: Vec<Species>)
        ensures
            r@.len() == self.species_positions().len(),
            forall|i: int| 0 <= i < r@.len() ==> self.nodes@[self.species_positions()[i] as int] == Tag::Species(#[trigger] r@[i]),
    {
        let link = self.top_link(TagKind::ListOfSpecies);
        let ids = self.members(link, TagKind::ListOfSpecies, TagKind::Species);
        proof {
            lemma_of_kind(self.nodes@, linked_members(self.nodes@, link, TagKind::ListOfSpecies, TagKind::Species), TagKind::Species);
        }
        collect_species(self, &ids)
    }

    /// The positions of the document's `Reaction` nodes, in document order.
    pub open spec fn reactions_positions(&self) -> Seq<usize> {
        resolved(self.nodes@, root_link(self.nodes@, TagKind::ListOfReactions), TagKind::ListOfReactions, TagKind::Reaction)
    }

    /// The document's `Reaction` nodes, in document order; empty where the root
    /// has no such list.
    pub fn reactions(&self) -> (r: Vec<Reaction>)
        ensures
            r@.len() == self.reactions_positions().len(),
            forall|i: int| 0 <= i < r@.len() ==> self.nodes@[self.reactions_positions()[i] as int] == Tag::Reaction(#[trigger] r@[i]),
    {
        let link = self.top_link(TagKind::ListOfReactions);
        let ids = self.members(link, TagKind::ListOfReactions, TagKind::Reaction);
        proof {
            lemma_of_kind(self.nodes@, linked_members(self.nodes@, link, TagKind::ListOfReactions, TagKind::Reaction), TagKind::Reaction);
        }
        collect_reaction(self, &ids)
    }

    /// The positions of the document's `UnitDefinition` nodes, in document order.
    pub open spec fn unit_definitions_positions(&self) -> Seq<usize> {
        resolved(self.nodes@, root_link(self.nodes@, TagKind::ListOfUnitDefinitions), TagKind::ListOfUnitDefinitions, TagKind::UnitDefinition)
    }

    /// The document's `UnitDefinition` nodes, in document order; empty where the root
    /// has no such list.
    pub fn unit_definitions(&self) -> (r: Vec<UnitDefinition>)
        ensures
            r@.len() == self.unit_definitions_positions().len(),
            forall|i: int| 0 <= i < r@.len() ==> self.nodes@[self.unit_definitions_positions()[i] as int] == Tag::UnitDefinition(#[trigger] r@[i]),
    {
        let link = self.top_link(TagKind::ListOfUnitDefinitions);
        let ids = self.members(link, TagKind::ListOfUnitDefinitions, TagKind::UnitDefinition);
        proof {
            lemma_of_kind(self.nodes@, linked_members(self.nodes@, link, TagKind::ListOfUnitDefinitions, TagKind::UnitDefinition), TagKind::UnitDefinition);
        }
        collect_unitdefinition(self, &ids)
    }

    /// The positions of the document's `Compartment` nodes, in document order.
    pub open spec fn compartments_positions(&self) -> Seq<usize> {
        resolved(self.nodes@, root_link(self.nodes@, TagKind::ListOfCompartments), TagKind::ListOfCompartments, TagKind::Compartment)
    }

    /// The document's `Compartment` nodes, in document order; empty where the root
    /// has no such list.
    pub fn compartments(&self) -> (r: Vec<Compartment>)
        ensures
            r@.len() == self.compartments_positions().len(),
            forall|i: int| 0 <= i < r@.len() ==> self.nodes@[self.compartments_positions()[i] as int] == Tag::Compartment(#[trigger] r@[i]),
    {
        let link = self.top_link(TagKind::ListOfCompartments);
        let ids = self.members(link, TagKind::ListOfCompartments, TagKind::Compartment);
        proof {
            lemma_of_kind(self.nodes@, linked_members(self.nodes@, link, TagKind::ListOfCompartments, TagKind::Compartment), TagKind::Compartment);
        }
        collect_compartment(self, &ids)
    }

    /// The positions of the document's `Parameter` nodes, in document order.
    pub open spec fn parameters_positions(&self) -> Seq<usize> {
        resolved(self.nodes@, root_link(self.nodes@, TagKind::ListOfParameters), TagKind::ListOfParameters, TagKind::Parameter)
    }

    /// The document's `Parameter` nodes, in document order; empty where the root
    /// has no such list.
    pub fn parameters(&self) -> (r: Vec<Parameter>)
        ensures
            r@.len() == self.parameters_positions().len(),
            forall|i: int| 0 <= i < r@.len() ==> self.nodes@[self.parameters_positions()[i] as int] == Tag::Parameter(#[trigger] r@[i]),
    {
        let link = self.top_link(TagKind::ListOfParameters);
        let ids = self.members(link, TagKind::ListOfParameters, TagKind::Parameter);
        proof {
            lemma_of_kind(self.nodes@, linked_members(self.nodes@, link, TagKind::ListOfParameters, TagKind::Parameter), TagKind::Parameter);
        }
        collect_parameter(self, &ids)
    }

    /// The positions of the document's `FunctionDefinition` nodes, in document order.
    pub open spec fn function_definitions_positions(&self) -> Seq<usize> {
        resolved(self.nodes@, root_link(self.nodes@, TagKind::ListOfFunctionDefinitions), TagKind::ListOfFunctionDefinitions, TagKind::FunctionDefinition)
    }

    /// The document's `FunctionDefinition` nodes, in document order; empty where the root
    /// has no such list.
    pub fn function_definitions(&self) -> (r: Vec<FunctionDefinition>)
        ensures
            r@.len() == self.function_definitions_positions().len(),
            forall|i: int| 0 <= i < r@.len() ==> self.nodes@[self.function_definitions_positions()[i] as int] == Tag::FunctionDefinition(#[trigger] r@[i]),
    {
        let link = self.top_link(TagKind::ListOfFunctionDefinitions);
        let ids = self.members(link, TagKind::ListOfFunctionDefinitions, TagKind::FunctionDefinition);
        proof {
            lemma_of_kind(self.nodes@, linked_members(self.nodes@, link, TagKind::ListOfFunctionDefinitions, TagKind::FunctionDefinition), TagKind::FunctionDefinition);
        }
        collect_functiondefinition(self, &ids)
    }

    /// The positions of the document's `AssignmentRule` nodes, in document order.
    pub open spec fn assignment_rules_positions(&self) -> Seq<usize> {
        resolved(self.nodes@, root_link(self.nodes@, TagKind::ListOfRules), TagKind::ListOfRules, TagKind::AssignmentRule)
    }

    /// The document's `AssignmentRule` nodes, in document order; empty where the root
    /// has no such list.
    pub fn assignment_rules(&self) -> (r: Vec<AssignmentRule>)
        ensures
            r@.len() == self.assignment_rules_positions().len(),
            forall|i: int| 0 <= i < r@.len() ==> self.nodes@[self.assignment_rules_positions()[i] as int] == Tag::AssignmentRule(#[trigger] r@[i]),
    {
        let link = self.top_link(TagKind::ListOfRules);
        let ids = self.members(link, TagKind::ListOfRules, TagKind::AssignmentRule);
        proof {
            lemma_of_kind(self.nodes@, linked_members(self.nodes@, link, TagKind::ListOfRules, TagKind::AssignmentRule), TagKind::AssignmentRule);
        }
        collect_assignmentrule(self, &ids)
    }

    /// The positions of the document's `RateRule` nodes, in document order.
    pub open spec fn rate_rules_positions(&self) -> Seq<usize> {
        resolved(self.nodes@, root_link(self.nodes@, TagKind::ListOfRules), TagKind::ListOfRules, TagKind::RateRule)
    }

    /// The document's `RateRule` nodes, in document order; empty where the root
    /// has no such list.
    pub fn rate_rules(&self) -> (r: Vec<RateRule>)
        ensures
            r@.len() == self.rate_rules_positions().len(),
            forall|i: int| 0 <= i < r@.len() ==> self.nodes@[self.rate_rules_positions()[i] as int] == Tag::RateRule(#[trigger] r@[i]),
    {
        let link = self.top_link(TagKind::ListOfRules);
        let ids = self.members(link, TagKind::ListOfRules, TagKind::RateRule);
        proof {
            lemma_of_kind(self.nodes@, linked_members(self.nodes@, link, TagKind::ListOfRules, TagKind::RateRule), TagKind::RateRule);
        }
        collect_raterule(self, &ids)
    }

    /// The positions of the document's `InitialAssignment` nodes, in document order.
    pub open spec fn initial_assignments_positions(&self) -> Seq<usize> {
        resolved(self.nodes@, root_link(self.nodes@, TagKind::ListOfInitialAssignments), TagKind::ListOfInitialAssignments, TagKind::InitialAssignment)
    }

    /// The document's `InitialAssignment` nodes, in document order; empty where the root
    /// has no such list.
    pub fn initial_assignments(&self) -> (r: Vec<InitialAssignment>)
        ensures
            r@.len() == self.initial_assignments_positions().len(),
            forall|i: int| 0 <= i < r@.len() ==> self.nodes@[self.initial_assignments_positions()[i] as int] == Tag::InitialAssignment(#[trigger] r@[i]),
    {
        let link = self.top_link(TagKind::ListOfInitialAssignments);
        let ids = self.members(link, TagKind::ListOfInitialAssignments, TagKind::InitialAssignment);
        proof {
            lemma_of_kind(self.nodes@, linked_members(self.nodes@, link, TagKind::ListOfInitialAssignments, TagKind::InitialAssignment), TagKind::InitialAssignment);
        }
        collect_initialassignment(self, &ids)
    }
}

fn collect_assignmentrule(model: &Model, ids: &Vec<usize>) -> (r: Vec<AssignmentRule>)
    requires
        forall|j: int| 0 <= j < ids@.len() ==> #[trigger] ids@[j] < model.nodes@.len()
            && model.nodes@[ids@[j] as int].kind_of() == TagKind::AssignmentRule,
    ensures
        r@.len() == ids@.len(),
        forall|i: int| 0 <= i < r@.len() ==> model.nodes@[ids@[i] as int] == Tag::AssignmentRule(#[trigger] r@[i]),
{
    let mut r: Vec<AssignmentRule> = Vec::new();
    let mut j: usize = 0;
    while j < ids.len()
        invariant
            j <= ids@.len(),
            forall|k: int| 0 <= k < ids@.len() ==> #[trigger] ids@[k] < model.nodes@.len()
                && model.nodes@[ids@[k] as int].kind_of() == TagKind::AssignmentRule,
            r@.len() == j,
            forall|i: int| 0 <= i < j ==> model.nodes@[ids@[i] as int] == Tag::AssignmentRule(#[trigger] r@[i]),
        decreases ids@.len() - j,
    {
        match &model.nodes[ids[j]] {
            Tag::AssignmentRule(n) => r.push(n.clone()),
            _ => {
                assert(false);
            },
        }
        j = j + 1;
    }
    r
}

fn collect_compartment(model: &Model, ids: &Vec<usize>) -> (r: Vec<Compartment>)
    requires
        forall|j: int| 0 <= j < ids@.len() ==> #[trigger] ids@[j] < model.nodes@.len()
            && model.nodes@[ids@[j] as int].kind_of() == TagKind::Compartment,
    ensures
        r@.len() == ids@.len(),
        forall|i: int| 0 <= i < r@.len() ==> model.nodes@[ids@[i] as int] == Tag::Compartment(#[trigger] r@[i]),
{
    let mut r: Vec<Compartment> = Vec::new();
    let mut j: usize = 0;
    while j < ids.len()
        invariant
            j <= ids@.len(),
            forall|k: int| 0 <= k < ids@.len() ==> #[trigger] ids@[k] < model.nodes@.len()
                && model.nodes@[ids@[k] as int].kind_of() == TagKind::Compartment,
            r@.len() == j,
            forall|i: int| 0 <= i < j ==> model.nodes@[ids@[i] as int] == Tag::Compartment(#[trigger] r@[i]),
        decreases ids@.len() - j,
    {
        match &model.nodes[ids[j]] {
            Tag::Compartment(n) => r.push(n.clone()),
            _ => {
                assert(false);
            },
        }
        j = j + 1;
    }
    r
}

fn collect_functiondefinition(model: &Model, ids: &Vec<usize>) -> (r: Vec<FunctionDefinition>)
    requires
        forall|j: int| 0 <= j < ids@.len() ==> #[trigger] ids@[j] < model.nodes@.len()
            && model.nodes@[ids@[j] as int].kind_of() == TagKind::FunctionDefinition,
    ensures
        r@.len() == ids@.len(),
        forall|i: int| 0 <= i < r@.len() ==> model.nodes@[ids@[i] as int] == Tag::FunctionDefinition(#[trigger] r@[i]),
{
    let mut r: Vec<FunctionDefinition> = Vec::new();
    let mut j: usize = 0;
    while j < ids.len()
        invariant
            j <= ids@.len(),
            forall|k: int| 0 <= k < ids@.len() ==> #[trigger] ids@[k] < model.nodes@.len()
                && model.nodes@[ids@[k] as int].kind_of() == TagKind::FunctionDefinition,
            r@.len() == j,
            forall|i: int| 0 <= i < j ==> model.nodes@[ids@[i] as int] == Tag::FunctionDefinition(#[trigger] r@[i]),
        decreases ids@.len() - j,
    {
        match &model.nodes[ids[j]] {
            Tag::FunctionDefinition(n) => r.push(n.clone()),
            _ => {
                assert(false);
            },
        }
        j = j + 1;
    }
    r
}

fn collect_initialassignment(model: &Model, ids: &Vec<usize>) -> (r: Vec<InitialAssignment>)
    requires
        forall|j: int| 0 <= j < ids@.len() ==> #[trigger] ids@[j] < model.nodes@.len()
            && model.nodes@[ids@[j] as int].kind_of() == TagKind::InitialAssignment,
    ensures
        r@.len() == ids@.len(),
        forall|i: int| 0 <= i < r@.len() ==> model.nodes@[ids@[i] as int] == Tag::InitialAssignment(#[trigger] r@[i]),
{
    let mut r: Vec<InitialAssignment> = Vec::new();
    let mut j: usize = 0;
    while j < ids.len()
        invariant
            j <= ids@.len(),
            forall|k: int| 0 <= k < ids@.len() ==> #[trigger] ids@[k] < model.nodes@.len()
                && model.nodes@[ids@[k] as int].kind_of() == TagKind::InitialAssignment,
            r@.len() == j,
            forall|i: int| 0 <= i < j ==> model.nodes@[ids@[i] as int] == Tag::InitialAssignment(#[trigger] r@[i]),
        decreases ids@.len() - j,
    {
        match &model.nodes[ids[j]] {
            Tag::InitialAssignment(n) => r.push(n.clone()),
            _ => {
                assert(false);
            },
        }
        j = j + 1;
    }
    r
}

fn collect_localparameter(model: &Model, ids: &Vec<usize>) -> (r: Vec<LocalParameter>)
    requires
        forall|j: int| 0 <= j < ids@.len() ==> #[trigger] ids@[j] < model.nodes@.len()
            && model.nodes@[ids@[j] as int].kind_of() == TagKind::LocalParameter,
    ensures
        r@.len() == ids@.len(),
        forall|i: int| 0 <= i < r@.len() ==> model.nodes@[ids@[i] as int] == Tag::LocalParameter(#[trigger] r@[i]),
{
    let mut r: Vec<LocalParameter> = Vec::new();
    let mut j: usize = 0;
    while j < ids.len()
        invariant
            j <= ids@.len(),
            forall|k: int| 0 <= k < ids@.len() ==> #[trigger] ids@[k] < model.nodes@.len()
                && model.nodes@[ids@[k] as int].kind_of() == TagKind::LocalParameter,
            r@.len() == j,
            forall|i: int| 0 <= i < j ==> model.nodes@[ids@[i] as int] == Tag::LocalParameter(#[trigger] r@[i]),
        decreases ids@.len() - j,
    {
        match &model.nodes[ids[j]] {
            Tag::LocalParameter(n) => r.push(n.clone()),
            _ => {
                assert(false);
            },
        }
        j = j + 1;
    }
    r
}

fn collect_parameter(model: &Model, ids: &Vec<usize>) -> (r: Vec<Parameter>)
    requires
        forall|j: int| 0 <= j < ids@.len() ==> #[trigger] ids@[j] < model.nodes@.len()
            && model.nodes@[ids@[j] as int].kind_of() == TagKind::Parameter,
    ensures
        r@.len() == ids@.len(),
        forall|i: int| 0 <= i < r@.len() ==> model.nodes@[ids@[i] as int] == Tag::Parameter(#[trigger] r@[i]),
{
    let mut r: Vec<Parameter> = Vec::new();
    let mut j: usize = 0;
    while j < ids.len()
        invariant
            j <= ids@.len(),
            forall|k: int| 0 <= k < ids@.len() ==> #[trigger] ids@[k] < model.nodes@.len()
                && model.nodes@[ids@[k] as int].kind_of() == TagKind::Parameter,
            r@.len() == j,
            forall|i: int| 0 <= i < j ==> model.nodes@[ids@[i] as int] == Tag::Parameter(#[trigger] r@[i]),
        decreases ids@.len() - j,
    {
        match &model.nodes[ids[j]] {
            Tag::Parameter(n) => r.push(n.clone()),
            _ => {
                assert(false);
            },
        }
        j = j + 1;
    }
    r
}

fn collect_raterule(model: &Model, ids: &Vec<usize>) -> (r: Vec<RateRule>)
    requires
        forall|j: int| 0 <= j < ids@.len() ==> #[trigger] ids@[j] < model.nodes@.len()
            && model.nodes@[ids@[j] as int].kind_of() == TagKind::RateRule,
    ensures
        r@.len() == ids@.len(),
        forall|i: int| 0 <= i < r@.len() ==> model.nodes@[ids@[i] as int] == Tag::RateRule(#[trigger] r@[i]),
{
    let mut r: Vec<RateRule> = Vec::new();
    let mut j: usize = 0;
    while j < ids.len()
        invariant
            j <= ids@.len(),
            forall|k: int| 0 <= k < ids@.len() ==> #[trigger] ids@[k] < model.nodes@.len()
                && model.nodes@[ids@[k] as int].kind_of() == TagKind::RateRule,
            r@.len() == j,
            forall|i: int| 0 <= i < j ==> model.nodes@[ids@[i] as int] == Tag::RateRule(#[trigger] r@[i]),
        decreases ids@.len() - j,
    {
        match &model.nodes[ids[j]] {
            Tag::RateRule(n) => r.push(n.clone()),
            _ => {
                assert(false);
            },
        }
        j = j + 1;
    }
    r
}

fn collect_reaction(model: &Model, ids: &Vec<usize>) -> (r: Vec<Reaction>)
    requires
        forall|j: int| 0 <= j < ids@.len() ==> #[trigger] ids@[j] < model.nodes@.len()
            && model.nodes@[ids@[j] as int].kind_of() == TagKind::Reaction,
    ensures
        r@.len() == ids@.len(),
        forall|i: int| 0 <= i < r@.len() ==> model.nodes@[ids@[i] as int] == Tag::Reaction(#[trigger] r@[i]),
{
    let mut r: Vec<Reaction> = Vec::new();
    let mut j: usize = 0;
    while j < ids.len()
        invariant
            j <= ids@.len(),
            forall|k: int| 0 <= k < ids@.len() ==> #[trigger] ids@[k] < model.nodes@.len()
                && model.nodes@[ids@[k] as int].kind_of() == TagKind::Reaction,
            r@.len() == j,
            forall|i: int| 0 <= i < j ==> model.nodes@[ids@[i] as int] == Tag::Reaction(#[trigger] r@[i]),
        decreases ids@.len() - j,
    {
        match &model.nodes[ids[j]] {
            Tag::Reaction(n) => r.push(n.clone()),
            _ => {
                assert(false);
            },
        }
        j = j + 1;
    }
    r
}

fn collect_species(model: &Model, ids: &Vec<usize>) -> (r: Vec<Species>)
    requires
        forall|j: int| 0 <= j < ids@.len() ==> #[trigger] ids@[j] < model.nodes@.len()
            && model.nodes@[ids@[j] as int].kind_of() == TagKind::Species,
    ensures
        r@.len() == ids@.len(),
        forall|i: int| 0 <= i < r@.len() ==> model.nodes@[ids@[i] as int] == Tag::Species(#[trigger] r@[i]),
{
    let mut r: Vec<Species> = Vec::new();
    let mut j: usize = 0;
    while j < ids.len()
        invariant
            j <= ids@.len(),
            forall|k: int| 0 <= k < ids@.len() ==> #[trigger] ids@[k] < model.nodes@.len()
                && model.nodes@[ids@[k] as int].kind_of() == TagKind::Species,
            r@.len() == j,
            forall|i: int| 0 <= i < j ==> model.nodes@[ids@[i] as int] == Tag::Species(#[trigger] r@[i]),
        decreases ids@.len() - j,
    {
        match &model.nodes[ids[j]] {
            Tag::Species(n) => r.push(n.clone()),
            _ => {
                assert(false);
            },
        }
        j = j + 1;
    }
    r
}

fn collect_speciesreference(model: &Model, ids: &Vec<usize>) -> (r: Vec<SpeciesReference>)
    requires
        forall|j: int| 0 <= j < ids@.len() ==> #[trigger] ids@[j] < model.nodes@.len()
            && model.nodes@[ids@[j] as int].kind_of() == TagKind::SpeciesReference,
    ensures
        r@.len() == ids@.len(),
        forall|i: int| 0 <= i < r@.len() ==> model.nodes@[ids@[i] as int] == Tag::SpeciesReference(#[trigger] r@[i]),
{
    let mut r: Vec<SpeciesReference> = Vec::new();
    let mut j: usize = 0;
    while j < ids.len()
        invariant
            j <= ids@.len(),
            forall|k: int| 0 <= k < ids@.len() ==> #[trigger] ids@[k] < model.nodes@.len()
                && model.nodes@[ids@[k] as int].kind_of() == TagKind::SpeciesReference,
            r@.len() == j,
            forall|i: int| 0 <= i < j ==> model.nodes@[ids@[i] as int] == Tag::SpeciesReference(#[trigger] r@[i]),
        decreases ids@.len() - j,
    {
        match &model.nodes[ids[j]] {
            Tag::SpeciesReference(n) => r.push(n.clone()),
            _ => {
                assert(false);
            },
        }
        j = j + 1;
    }
    r
}

fn collect_unitdefinition(model: &Model, ids: &Vec<usize>) -> (r: Vec<UnitDefinition>)
    requires
        forall|j: int| 0 <= j < ids@.len() ==> #[trigger] ids@[j] < model.nodes@.len()
            && model.nodes@[ids@[j] as int].kind_of() == TagKind::UnitDefinition,
    ensures
        r@.len() == ids@.len(),
        forall|i: int| 0 <= i < r@.len() ==> model.nodes@[ids@[i] as int] == Tag::UnitDefinition(#[trigger] r@[i]),
{
    let mut r: Vec<UnitDefinition> = Vec::new();
    let mut j: usize = 0;
    while j < ids.len()
        invariant
            j <= ids@.len(),
            forall|k: int| 0 <= k < ids@.len() ==> #[trigger] ids@[k] < model.nodes@.len()
                && model.nodes@[ids@[k] as int].kind_of() == TagKind::UnitDefinition,
            r@.len() == j,
            forall|i: int| 0 <= i < j ==> model.nodes@[ids@[i] as int] == Tag::UnitDefinition(#[trigger] r@[i]),
        decreases ids@.len() - j,
    {
        match &model.nodes[ids[j]] {
            Tag::UnitDefinition(n) => r.push(n.clone()),
            _ => {
                assert(false);
            },
        }
        j = j + 1;
    }
    r
}

/// The positions of the reaction's reactants, in document order.
pub open spec fn reactant_positions(nodes: Seq<Tag>, r: Reaction) -> Seq<usize> {
    resolved(nodes, r.list_of_reactants, TagKind::ListOfReactants, TagKind::SpeciesReference)
}

/// The positions of the reaction's products, in document order.
pub open spec fn product_positions(nodes: Seq<Tag>, r: Reaction) -> Seq<usize> {
    resolved(nodes, r.list_of_products, TagKind::ListOfProducts, TagKind::SpeciesReference)
}

/// The positions of the reaction's modifiers, in document order.
pub open spec fn modifier_positions(nodes: Seq<Tag>, r: Reaction) -> Seq<usize> {
    resolved(nodes, r.list_of_modifiers, TagKind::ListOfModifiers, TagKind::ModifierSpeciesReference)
}

/// The kinetic law that `link` points to, if it points to one.
pub open spec fn kinetic_law_at(nodes: Seq<Tag>, link: Option<usize>) -> Option<KineticLaw> {
    match link {
        Some(i) => if i < nodes.len() && nodes[i as int] is KineticLaw {
            Some(nodes[i as int]->KineticLaw_0)
        } else {
            None
        },
        None => None,
    }
}

/// The positions of the local parameters of a kinetic law.
pub open spec fn local_parameter_positions(nodes: Seq<Tag>, k: KineticLaw) -> Seq<usize> {
    resolved(nodes, k.list_of_local_parameters, TagKind::ListOfLocalParameters, TagKind::LocalParameter)
}

/// The species named by the nodes at `ids`, skipping those that name none.
pub open spec fn named_species(nodes: Seq<Tag>, ids: Seq<usize>) -> Seq<Seq<char>>
    decreases ids.len(),
{
    if ids.len() == 0 {
        Seq::empty()
    } else {
        let r = named_species(nodes, ids.drop_last());
        let i = ids.last() as int;
        let s = if 0 <= i < nodes.len() {
            match nodes[i] {
                Tag::SpeciesReference(n) => name_view(n.species),
                Tag::ModifierSpeciesReference(n) => name_view(n.species),
                _ => None,
            }
        } else {
            None
        };
        match s {
            Some(name) => r.push(name),
            None => r,
        }
    }
}

/// The pairs (id, value) of the local parameters at `ids` that declare both.
pub open spec fn parameter_values(nodes: Seq<Tag>, ids: Seq<usize>) -> Seq<(Seq<char>, Seq<char>)>
    decreases ids.len(),
{
    if ids.len() == 0 {
        Seq::empty()
    } else {
        let r = parameter_values(nodes, ids.drop_last());
        let i = ids.last() as int;
        if 0 <= i < nodes.len() {
            match nodes[i] {
                Tag::LocalParameter(p) => match (p.id, p.value) {
                    (Some(id), Some(v)) => r.push((id@, v@)),
                    _ => r,
                },
                _ => r,
            }
        } else {
            r
        }
    }
}

pub open spec fn text_pairs(v: Seq<(String, String)>) -> Seq<(Seq<char>, Seq<char>)> {
    v.map_values(|p: (String, String)| (p.0@, p.1@))
}

/// The node names a species, if it is a reference.
pub open spec fn names_species(t: Tag) -> bool {
    match t {
        Tag::SpeciesReference(n) => n.species is Some,
        Tag::ModifierSpeciesReference(n) => n.species is Some,
        _ => true,
    }
}

/// Every reference at `ids` names a species.
pub open spec fn all_named(nodes: Seq<Tag>, ids: Seq<usize>) -> bool {
    forall|j: int| 0 <= j < ids.len() && ids[j] < nodes.len() ==> names_species(#[trigger] nodes[ids[j] as int])
}

/// Why a derived view cannot be given.
#[derive(Debug)]
pub enum ReferenceError {
    /// A species reference that names no species.
    NoSpecies,
    /// A reaction without an id.
    ReactionWithoutId,
    /// A function definition, rule or kinetic law without its name or its
    /// fragment.
    Incomplete,
    /// A species that names no compartment.
    NoCompartment,
    /// No compartment with this id declares a size.
    NoCompartmentSize(String),
}

fn species_named(model: &Model, ids: &Vec<usize>) -> (r: Result<Vec<String>, ReferenceError>)
    ensures
        r is Ok <==> all_named(model.nodes@, ids@),
        r matches Err(e) ==> e is NoSpecies,
        r matches Ok(v) ==> v@.map_values(|s: String| s@) == named_species(model.nodes@, ids@),
{
    let mut r: Vec<String> = Vec::new();
    let mut j: usize = 0;
    while j < ids.len()
        invariant
            j <= ids@.len(),
            r@.map_values(|s: String| s@) == named_species(model.nodes@, ids@.subrange(0, j as int)),
            forall|k: int| 0 <= k < j && ids@[k] < model.nodes@.len() ==> names_species(#[trigger] model.nodes@[ids@[k] as int]),
        decreases ids@.len() - j,
    {
        let ghost before = r@;
        let i = ids[j];
        if i < model.nodes.len() {
            match &model.nodes[i] {
                Tag::SpeciesReference(n) => match &n.species {
                    Some(s) => r.push(s.clone()),
                    None => {
                        assert(!names_species(model.nodes@[ids@[j as int] as int]));
                        return Err(ReferenceError::NoSpecies);
                    },
                },
                Tag::ModifierSpeciesReference(n) => match &n.species {
                    Some(s) => r.push(s.clone()),
                    None => {
                        assert(!names_species(model.nodes@[ids@[j as int] as int]));
                        return Err(ReferenceError::NoSpecies);
                    },
                },
                _ => {},
            }
        }
        j = j + 1;
        assert(ids@.subrange(0, j as int).drop_last() =~= ids@.subrange(0, j - 1));
        assert(r@.map_values(|s: String| s@) =~= named_species(model.nodes@, ids@.subrange(0, j as int)));
    }
    assert(ids@.subrange(0, j as int) =~= ids@);
    Ok(r)
}

fn values_of_parameters(model: &Model, ids: &Vec<usize>) -> (r: Vec<(String, String)>)
    ensures
        text_pairs(r@) == parameter_values(model.nodes@, ids@),
{
    let mut r: Vec<(String, String)> = Vec::new();
    let mut j: usize = 0;
    while j < ids.len()
        invariant
            j <= ids@.len(),
            text_pairs(r@) == parameter_values(model.nodes@, ids@.subrange(0, j as int)),
        decreases ids@.len() - j,
    {
        let i = ids[j];
        if i < model.nodes.len() {
            if let Tag::LocalParameter(p) = &model.nodes[i] {
                if let (Some(id), Some(v)) = (&p.id, &p.value) {
                    r.push((id.clone(), v.clone()));
                }
            }
        }
        j = j + 1;
        assert(ids@.subrange(0, j as int).drop_last() =~= ids@.subrange(0, j - 1));
        assert(text_pairs(r@) =~= parameter_values(model.nodes@, ids@.subrange(0, j as int)));
    }
    assert(ids@.subrange(0, j as int) =~= ids@);
    r
}

impl Reaction {
    /// The species references listed as this reaction's reactants.
    pub fn reactants(&self, model: &Model) -> (r: Vec<SpeciesReference>)
        ensures
            r@.len() == reactant_positions(model.nodes@, *self).len(),
            forall|i: int| 0 <= i < r@.len() ==> model.nodes@[reactant_positions(model.nodes@, *self)[i] as int]
                == Tag::SpeciesReference(#[trigger] r@[i]),
    {
        let ids = model.members(self.list_of_reactants, TagKind::ListOfReactants, TagKind::SpeciesReference);
        proof {
            lemma_of_kind(model.nodes@, linked_members(model.nodes@, self.list_of_reactants, TagKind::ListOfReactants, TagKind::SpeciesReference), TagKind::SpeciesReference);
        }
        collect_speciesreference(model, &ids)
    }

    /// The species references listed as this reaction's products.
    pub fn products(&self, model: &Model) -> (r: Vec<SpeciesReference>)
        ensures
            r@.len() == product_positions(model.nodes@, *self).len(),
            forall|i: int| 0 <= i < r@.len() ==> model.nodes@[product_positions(model.nodes@, *self)[i] as int]
                == Tag::SpeciesReference(#[trigger] r@[i]),
    {
        let ids = model.members(self.list_of_products, TagKind::ListOfProducts, TagKind::SpeciesReference);
        proof {
            lemma_of_kind(model.nodes@, linked_members(model.nodes@, self.list_of_products, TagKind::ListOfProducts, TagKind::SpeciesReference), TagKind::SpeciesReference);
        }
        collect_speciesreference(model, &ids)
    }

    /// The species of the reactants; a reference that names none is an
    /// error.
    pub fn reactant_ids(&self, model: &Model) -> (r: Result<Vec<String>, ReferenceError>)
        ensures
            r is Ok <==> all_named(model.nodes@, reactant_positions(model.nodes@, *self)),
            r matches Err(e) ==> e is NoSpecies,
            r matches Ok(v) ==> v@.map_values(|s: String| s@) == named_species(model.nodes@, reactant_positions(model.nodes@, *self)),
    {
        let ids = model.members(self.list_of_reactants, TagKind::ListOfReactants, TagKind::SpeciesReference);
        species_named(model, &ids)
    }

    /// The species of the products; a reference that names none is an error.
    pub fn product_ids(&self, model: &Model) -> (r: Result<Vec<String>, ReferenceError>)
        ensures
            r is Ok <==> all_named(model.nodes@, product_positions(model.nodes@, *self)),
            r matches Err(e) ==> e is NoSpecies,
            r matches Ok(v) ==> v@.map_values(|s: String| s@) == named_species(model.nodes@, product_positions(model.nodes@, *self)),
    {
        let ids = model.members(self.list_of_products, TagKind::ListOfProducts, TagKind::SpeciesReference);
        species_named(model, &ids)
    }

    /// The species of the modifiers; a reference that names none is an error.
    pub fn modifiers(&self, model: &Model) -> (r: Result<Vec<String>, ReferenceError>)
        ensures
            r is Ok <==> all_named(model.nodes@, modifier_positions(model.nodes@, *self)),
            r matches Err(e) ==> e is NoSpecies,
            r matches Ok(v) ==> v@.map_values(|s: String| s@) == named_species(model.nodes@, modifier_positions(model.nodes@, *self)),
    {
        let ids = model.members(self.list_of_modifiers, TagKind::ListOfModifiers, TagKind::ModifierSpeciesReference);
        species_named(model, &ids)
    }

    /// The fragment of the reaction's kinetic law.
    pub fn kinetic_law(&self, model: &Model) -> (r: Option<MathTag>)
        ensures
            copies(r, match kinetic_law_at(model.nodes@, self.kinetic_law) {
                Some(k) => fragment_at(model.nodes@, k.math),
                None => None,
            }),
    {
        match model.kinetic_law_node(self.kinetic_law) {
            Some(k) => model.fragment(k.math),
            None => None,
        }
    }

    /// The local parameters of the reaction's kinetic law.
    pub fn local_parameters(&self, model: &Model) -> (r: Vec<LocalParameter>)
        ensures
            kinetic_law_at(model.nodes@, self.kinetic_law) matches Some(k) ==> {
                &&& r@.len() == local_parameter_positions(model.nodes@, k).len()
                &&& forall|i: int| 0 <= i < r@.len() ==> model.nodes@[local_parameter_positions(model.nodes@, k)[i] as int]
                    == Tag::LocalParameter(#[trigger] r@[i])
            },
            kinetic_law_at(model.nodes@, self.kinetic_law) is None ==> r@.len() == 0,
    {
        match model.kinetic_law_node(self.kinetic_law) {
            Some(k) => k.local_parameters(model),
            None => Vec::new(),
        }
    }

    /// The pairs (id, value) of the local parameters of the reaction's kinetic
    /// law that declare both; the value as written.
    pub fn local_parameter_values(&self, model: &Model) -> (r: Vec<(String, String)>)
        ensures
            text_pairs(r@) == match kinetic_law_at(model.nodes@, self.kinetic_law) {
                Some(k) => parameter_values(model.nodes@, local_parameter_positions(model.nodes@, k)),
                None => Seq::empty(),
            },
    {
        match model.kinetic_law_node(self.kinetic_law) {
            Some(k) => k.local_parameter_values(model),
            None => {
                let r: Vec<(String, String)> = Vec::new();
                assert(text_pairs(r@) =~= Seq::empty());
                r
            },
        }
    }
}

impl KineticLaw {
    /// The local parameters of the kinetic law.
    pub fn local_parameters(&self, model: &Model) -> (r: Vec<LocalParameter>)
        ensures
            r@.len() == local_parameter_positions(model.nodes@, *self).len(),
            forall|i: int| 0 <= i < r@.len() ==> model.nodes@[local_parameter_positions(model.nodes@, *self)[i] as int]
                == Tag::LocalParameter(#[trigger] r@[i]),
    {
        let ids = model.members(self.list_of_local_parameters, TagKind::ListOfLocalParameters, TagKind::LocalParameter);
        proof {
            lemma_of_kind(model.nodes@, linked_members(model.nodes@, self.list_of_local_parameters, TagKind::ListOfLocalParameters, TagKind::LocalParameter), TagKind::LocalParameter);
        }
        collect_localparameter(model, &ids)
    }

    /// The pairs (id, value) of the local parameters that declare both; the
    /// value as written.
    pub fn local_parameter_values(&self, model: &Model) -> (r: Vec<(String, String)>)
        ensures
            text_pairs(r@) == parameter_values(model.nodes@, local_parameter_positions(model.nodes@, *self)),
    {
        let ids = model.members(self.list_of_local_parameters, TagKind::ListOfLocalParameters, TagKind::LocalParameter);
        values_of_parameters(model, &ids)
    }
}

impl FunctionDefinition {
    /// A copy of the node's fragment, if its link resolves to one.
    pub fn math_tag(&self, model: &Model) -> (r: Option<MathTag>)
        ensures
            copies(r, fragment_at(model.nodes@, self.math)),
    {
        model.fragment(self.math)
    }
}

impl InitialAssignment {
    /// A copy of the node's fragment, if its link resolves to one.
    pub fn math_tag(&self, model: &Model) -> (r: Option<MathTag>)
        ensures
            copies(r, fragment_at(model.nodes@, self.math)),
    {
        model.fragment(self.math)
    }
}

impl AssignmentRule {
    /// A copy of the node's fragment, if its link resolves to one.
    pub fn math_tag(&self, model: &Model) -> (r: Option<MathTag>)
        ensures
            copies(r, fragment_at(model.nodes@, self.math)),
    {
        model.fragment(self.math)
    }
}

impl RateRule {
    /// A copy of the node's fragment, if its link resolves to one.
    pub fn math_tag(&self, model: &Model) -> (r: Option<MathTag>)
        ensures
            copies(r, fragment_at(model.nodes@, self.math)),
    {
        model.fragment(self.math)
    }
}

impl Species {
    /// The species' id; it must have one.
    pub fn id(&self) -> (r: String)
        requires
            self.id is Some,
        ensures
            r@ == self.id->0@,
    {
        match &self.id {
            Some(s) => s.clone(),
            None => String::new(),
        }
    }

    /// The declared size, as written, of the first compartment of the
    /// document whose id is the species' compartment and which declares a
    /// size. A species without a compartment, and a compartment id that no
    /// compartment with a size has, are errors.
    pub fn compartment_size(&self, model: &Model) -> (r: Result<String, ReferenceError>)
        ensures
            self.compartment is None ==> (r matches Err(e) && e is NoCompartment),
            self.compartment matches Some(c) ==> match sized_compartment(model.compartments_spec(), Some(c@)) {
                Some(size) => r matches Ok(s) && s@ == size,
                None => r matches Err(ReferenceError::NoCompartmentSize(k)) && k@ == c@,
            },
    {
        match self.compartment_size_of(model) {
            Some(s) => Ok(s),
            None => match &self.compartment {
                Some(c) => Err(ReferenceError::NoCompartmentSize(c.clone())),
                None => Err(ReferenceError::NoCompartment),
            },
        }
    }

    fn compartment_size_of(&self, model: &Model) -> (r: Option<String>)
        ensures
            name_view(r) == sized_compartment(model.compartments_spec(), name_view(self.compartment)),
    {
        let target = match &self.compartment {
            Some(c) => c,
            None => {
                return None;
            },
        };
        let compartments = model.compartments();
        let ghost cs = model.compartments_spec();
        assert(cs.len() == compartments@.len());
        assert forall|j: int| 0 <= j < compartments@.len() implies compartments@[j] == cs[j] by {
            assert(model.nodes@[model.compartments_positions()[j] as int] == Tag::Compartment(compartments@[j]));
        }
        assert(compartments@ =~= cs);
        assert(cs.subrange(0, cs.len() as int) =~= cs);
        let mut i: usize = 0;
        while i < compartments.len()
            invariant
                i <= compartments@.len(),
                compartments@ == cs,
                self.compartment == Some(*target),
                cs == model.compartments_spec(),
                sized_compartment(cs, Some(target@)) == sized_compartment(cs.subrange(i as int, cs.len() as int), Some(target@)),
            decreases compartments@.len() - i,
        {
            let ghost rest = cs.subrange(i as int, cs.len() as int);
            assert(rest.drop_first() =~= cs.subrange(i + 1, cs.len() as int));
            let c = &compartments[i];
            assert(rest[0] == compartments@[i as int]);
            if let (Some(id), Some(size)) = (&c.id, &c.size) {
                if *id == *target {
                    assert(name_view(rest[0].id) == Some(target@));
                    return Some(size.clone());
                }
            }
            i = i + 1;
        }
        None
    }
}

/// The size of the first of `cs` whose id is `id` and which declares a size.
pub open spec fn sized_compartment(cs: Seq<Compartment>, id: Option<Seq<char>>) -> Option<Seq<char>>
    decreases cs.len(),
{
    match id {
        None => None,
        Some(target) => if cs.len() == 0 {
            None
        } else if name_view(cs[0].id) == Some(target) && cs[0].size is Some {
            name_view(cs[0].size)
        } else {
            sized_compartment(cs.drop_first(), id)
        },
    }
}

impl Model {
    /// The document's compartments, as `compartments` returns them.
    pub open spec fn compartments_spec(&self) -> Seq<Compartment> {
        self.compartments_positions().map_values(|i: usize| self.nodes@[i as int]->Compartment_0)
    }

    /// The kinetic law that `link` points to, if it points to one.
    pub fn kinetic_law_node(&self, link: Option<usize>) -> (r: Option<&KineticLaw>)
        ensures
            match r {
                Some(k) => kinetic_law_at(self.nodes@, link) == Some(*k),
                None => kinetic_law_at(self.nodes@, link) is None,
            },
    {
        match link {
            Some(i) => if i < self.nodes.len() {
                match &self.nodes[i] {
                    Tag::KineticLaw(k) => Some(k),
                    _ => None,
                }
            } else {
                None
            },
            None => None,
        }
    }
}

proof fn lemma_of_kind_within(nodes: Seq<Tag>, ids: Seq<usize>, kind: TagKind, j: usize)
    requires
        of_kind(nodes, ids, kind).contains(j),
    ensures
        ids.contains(j),
    decreases ids.len(),
{
    if ids.len() > 0 {
        let r = of_kind(nodes, ids.drop_last(), kind);
        if r.contains(j) {
            lemma_of_kind_within(nodes, ids.drop_last(), kind, j);
            let k = choose|k: int| 0 <= k < ids.drop_last().len() && ids.drop_last()[k] == j;
            assert(ids[k] == j);
        } else {
            assert(ids.last() == j);
        }
    }
}

/// The reaction's link to its list of products if `reactants`, else to its
/// list of reactants.
pub open spec fn other_list(r: Reaction, reactants: bool) -> Option<usize> {
    if reactants {
        r.list_of_products
    } else {
        r.list_of_reactants
    }
}

pub open spec fn other_container(reactants: bool) -> TagKind {
    if reactants {
        TagKind::ListOfProducts
    } else {
        TagKind::ListOfReactants
    }
}

/// Attach fan-out: when a species reference is appended at position `len`
/// under the list of reactants of reaction `r` (as `start_tag` does), it is
/// among `r`'s reactants and not among its products; and the same with
/// products and reactants exchanged. The other list is one whose members
/// were all in the arena before.
pub proof fn lemma_attach_fan_out(nodes: Seq<Tag>, new_nodes: Seq<Tag>, cur: usize, r: Reaction, into_reactants: bool)
    requires
        cur < nodes.len() < usize::MAX,
        nodes[cur as int].kind_of() == if into_reactants {
            TagKind::ListOfReactants
        } else {
            TagKind::ListOfProducts
        },
        new_nodes.len() == nodes.len() + 1,
        forall|i: int| 0 <= i < nodes.len() && i != cur ==> new_nodes[i] == nodes[i],
        attached(nodes[cur as int], new_nodes[cur as int], TagKind::SpeciesReference, nodes.len() as usize),
        new_nodes[nodes.len() as int].kind_of() == TagKind::SpeciesReference,
        if into_reactants {
            r.list_of_reactants == Some(cur)
        } else {
            r.list_of_products == Some(cur)
        },
        forall|j: usize| #[trigger] linked_members(nodes, other_list(r, into_reactants), other_container(into_reactants), TagKind::SpeciesReference).contains(j)
            ==> j < nodes.len(),
    ensures
        into_reactants ==> reactant_positions(new_nodes, r).contains(nodes.len() as usize) && !product_positions(
            new_nodes,
            r,
        ).contains(nodes.len() as usize),
        !into_reactants ==> product_positions(new_nodes, r).contains(nodes.len() as usize) && !reactant_positions(
            new_nodes,
            r,
        ).contains(nodes.len() as usize),
{
    let len = nodes.len() as usize;
    let same_side = if into_reactants {
        TagKind::ListOfReactants
    } else {
        TagKind::ListOfProducts
    };
    let other_side = other_container(into_reactants);
    let other_link = other_list(r, into_reactants);
    let ids = listed(new_nodes[cur as int], TagKind::SpeciesReference);
    assert(ids == listed(nodes[cur as int], TagKind::SpeciesReference).push(len));
    assert(linked_members(new_nodes, Some(cur), same_side, TagKind::SpeciesReference) == ids);
    assert(ids.drop_last() =~= listed(nodes[cur as int], TagKind::SpeciesReference));
    let mine = of_kind(new_nodes, ids, TagKind::SpeciesReference);
    assert(ids.last() == len);
    assert(len < new_nodes.len() && new_nodes[len as int].kind_of() == TagKind::SpeciesReference);
    assert(mine == of_kind(new_nodes, ids.drop_last(), TagKind::SpeciesReference).push(len));
    assert(mine.last() == len);
    assert(mine.contains(len));
    let others = linked_members(new_nodes, other_link, other_side, TagKind::SpeciesReference);
    assert(others == linked_members(nodes, other_link, other_side, TagKind::SpeciesReference) || others.len() == 0);
    if of_kind(new_nodes, others, TagKind::SpeciesReference).contains(len) {
        lemma_of_kind_within(new_nodes, others, TagKind::SpeciesReference, len);
        assert(others.len() > 0);
        assert(linked_members(nodes, other_link, other_side, TagKind::SpeciesReference).contains(len));
    }
}

impl Model {
    /// The document's reactions, as `reactions` returns them.
    pub open spec fn reactions_spec(&self) -> Seq<Reaction> {
        self.reactions_positions().map_values(|i: usize| self.nodes@[i as int]->Reaction_0)
    }

    /// The document's function definitions, as `function_definitions` returns
    /// them.
    pub open spec fn function_definitions_spec(&self) -> Seq<FunctionDefinition> {
        self.function_definitions_positions().map_values(|i: usize| self.nodes@[i as int]->FunctionDefinition_0)
    }

    /// The document's assignment rules, as `assignment_rules` returns them.
    pub open spec fn assignment_rules_spec(&self) -> Seq<AssignmentRule> {
        self.assignment_rules_positions().map_values(|i: usize| self.nodes@[i as int]->AssignmentRule_0)
    }
}

/// Every one of the reactions declares an id.
pub open spec fn all_ided(rs: Seq<Reaction>) -> bool {
    forall|i: int| 0 <= i < rs.len() ==> (#[trigger] rs[i]).id is Some
}

/// The pairs (name, fragment view) of the named nodes whose fragment resolves,
/// given as pairs (name, link).
pub open spec fn named_fragments(nodes: Seq<Tag>, named: Seq<(Option<String>, Option<usize>)>) -> Seq<(Seq<char>, Seq<MathNodeView>)>
    decreases named.len(),
{
    if named.len() == 0 {
        Seq::empty()
    } else {
        let r = named_fragments(nodes, named.drop_last());
        match (named.last().0, fragment_at(nodes, named.last().1)) {
            (Some(n), Some(f)) => r.push((n@, fragment_view(f.nodes@))),
            _ => r,
        }
    }
}

pub open spec fn fragment_pairs(v: Seq<(String, MathTag)>) -> Seq<(Seq<char>, Seq<MathNodeView>)> {
    v.map_values(|p: (String, MathTag)| (p.0@, fragment_view(p.1.nodes@)))
}

/// Every entry has a name and a fragment that resolves.
pub open spec fn all_complete(nodes: Seq<Tag>, named: Seq<(Option<String>, Option<usize>)>) -> bool {
    forall|i: int| 0 <= i < named.len() ==> (#[trigger] named[i]).0 is Some && fragment_at(nodes, named[i].1) is Some
}

fn fragments_named(model: &Model, named: &Vec<(Option<String>, Option<usize>)>) -> (r: Result<Vec<(String, MathTag)>, ReferenceError>)
    ensures
        r is Ok <==> all_complete(model.nodes@, named@),
        r matches Err(e) ==> e is Incomplete,
        r matches Ok(v) ==> fragment_pairs(v@) == named_fragments(model.nodes@, named@),
{
    let mut r: Vec<(String, MathTag)> = Vec::new();
    let mut i: usize = 0;
    while i < named.len()
        invariant
            i <= named@.len(),
            fragment_pairs(r@) == named_fragments(model.nodes@, named@.subrange(0, i as int)),
            forall|k: int| 0 <= k < i ==> (#[trigger] named@[k]).0 is Some && fragment_at(model.nodes@, named@[k].1) is Some,
        decreases named@.len() - i,
    {
        match (&named[i].0, model.fragment(named[i].1)) {
            (Some(n), Some(f)) => r.push((n.clone(), f)),
            _ => {
                assert(!all_complete(model.nodes@, named@)) by {
                    assert(!(named@[i as int].0 is Some && fragment_at(model.nodes@, named@[i as int].1) is Some));
                }
                return Err(ReferenceError::Incomplete);
            },
        }
        i = i + 1;
        assert(named@.subrange(0, i as int).drop_last() =~= named@.subrange(0, i - 1));
        assert(fragment_pairs(r@) =~= named_fragments(model.nodes@, named@.subrange(0, i as int)));
    }
    assert(named@.subrange(0, i as int) =~= named@);
    Ok(r)
}

impl Model {
    /// The fragment of each function definition, by id: the table of user
    /// functions for evaluation. A definition without an id or a fragment is
    /// an error.
    pub fn function_definition_math(&self) -> (r: Result<Vec<(String, MathTag)>, ReferenceError>)
        ensures
            r is Ok <==> all_complete(self.nodes@, self.function_definitions_spec().map_values(|f: FunctionDefinition| (f.id, f.math))),
            r matches Err(e) ==> e is Incomplete,
            r matches Ok(v) ==> fragment_pairs(v@) == named_fragments(self.nodes@, self.function_definitions_spec().map_values(|f: FunctionDefinition| (f.id, f.math))),
    {
        let fds = self.function_definitions();
        let mut named: Vec<(Option<String>, Option<usize>)> = Vec::new();
        let mut i: usize = 0;
        while i < fds.len()
            invariant
                i <= fds@.len(),
                fds@.len() == self.function_definitions_positions().len(),
                forall|j: int| 0 <= j < fds@.len() ==> self.nodes@[self.function_definitions_positions()[j] as int] == Tag::FunctionDefinition(#[trigger] fds@[j]),
                named@ == fds@.subrange(0, i as int).map_values(|f: FunctionDefinition| (f.id, f.math)),
            decreases fds@.len() - i,
        {
            named.push((fds[i].id.clone(), fds[i].math));
            i = i + 1;
            assert(named@ =~= fds@.subrange(0, i as int).map_values(|f: FunctionDefinition| (f.id, f.math)));
        }
        assert(fds@ =~= self.function_definitions_spec());
        assert(fds@.subrange(0, i as int) =~= fds@);
        fragments_named(self, &named)
    }

    /// The fragment of each assignment rule, by variable. A rule without a
    /// variable or a fragment is an error.
    pub fn assignment_rule_math(&self) -> (r: Result<Vec<(String, MathTag)>, ReferenceError>)
        ensures
            r is Ok <==> all_complete(self.nodes@, self.assignment_rules_spec().map_values(|a: AssignmentRule| (a.variable, a.math))),
            r matches Err(e) ==> e is Incomplete,
            r matches Ok(v) ==> fragment_pairs(v@) == named_fragments(self.nodes@, self.assignment_rules_spec().map_values(|a: AssignmentRule| (a.variable, a.math))),
    {
        let rules = self.assignment_rules();
        let mut named: Vec<(Option<String>, Option<usize>)> = Vec::new();
        let mut i: usize = 0;
        while i < rules.len()
            invariant
                i <= rules@.len(),
                rules@.len() == self.assignment_rules_positions().len(),
                forall|j: int| 0 <= j < rules@.len() ==> self.nodes@[self.assignment_rules_positions()[j] as int] == Tag::AssignmentRule(#[trigger] rules@[j]),
                named@ == rules@.subrange(0, i as int).map_values(|a: AssignmentRule| (a.variable, a.math)),
            decreases rules@.len() - i,
        {
            named.push((rules[i].variable.clone(), rules[i].math));
            i = i + 1;
            assert(named@ =~= rules@.subrange(0, i as int).map_values(|a: AssignmentRule| (a.variable, a.math)));
        }
        assert(rules@ =~= self.assignment_rules_spec());
        assert(rules@.subrange(0, i as int) =~= rules@);
        fragments_named(self, &named)
    }

    /// The document's reactions, if every one declares an id.
    fn identified_reactions(&self) -> (r: Result<Vec<Reaction>, ReferenceError>)
        ensures
            r is Ok <==> all_ided(self.reactions_spec()),
            r matches Err(e) ==> e is ReactionWithoutId,
            r matches Ok(v) ==> v@ == self.reactions_spec(),
    {
        let rs = self.reactions();
        assert(rs@ =~= self.reactions_spec()) by {
            assert forall|j: int| 0 <= j < rs@.len() implies rs@[j] == self.reactions_spec()[j] by {
                assert(self.nodes@[self.reactions_positions()[j] as int] == Tag::Reaction(rs@[j]));
            }
        }
        let mut i: usize = 0;
        while i < rs.len()
            invariant
                i <= rs@.len(),
                rs@ == self.reactions_spec(),
                forall|k: int| 0 <= k < i ==> (#[trigger] rs@[k]).id is Some,
            decreases rs@.len() - i,
        {
            if rs[i].id.is_none() {
                assert(!all_ided(self.reactions_spec())) by {
                    assert(self.reactions_spec()[i as int].id is None);
                }
                return Err(ReferenceError::ReactionWithoutId);
            }
            i = i + 1;
        }
        Ok(rs)
    }

    /// For each reaction, in document order: its id and its reactants. A reaction
    /// without an id is an error.
    pub fn all_reactants(&self) -> (r: Result<Vec<(String, Vec<SpeciesReference>)>, ReferenceError>)
        ensures
            r is Ok <==> all_ided(self.reactions_spec()),
            r matches Err(e) ==> e is ReactionWithoutId,
            r matches Ok(v) ==> v@.len() == self.reactions_spec().len() && forall|i: int| #![trigger v@[i]] 0 <= i < v@.len() ==> self.reactions_spec()[i].id == Some(v@[i].0)
                && v@[i].1@.len() == reactant_positions(self.nodes@, self.reactions_spec()[i]).len()
                && forall|j: int| 0 <= j < v@[i].1@.len() ==> self.nodes@[reactant_positions(self.nodes@, self.reactions_spec()[i])[j] as int]
                    == Tag::SpeciesReference(#[trigger] v@[i].1@[j]),
    {
        let rs = self.identified_reactions()?;
        let mut r: Vec<(String, Vec<SpeciesReference>)> = Vec::new();
        let mut i: usize = 0;
        while i < rs.len()
            invariant
                i <= rs@.len(),
                rs@ == self.reactions_spec(),
                forall|k: int| 0 <= k < rs@.len() ==> (#[trigger] rs@[k]).id is Some,
                r@.len() == i,
                forall|k: int| #![trigger r@[k]] 0 <= k < i ==> rs@[k].id == Some(r@[k].0)
                    && r@[k].1@.len() == reactant_positions(self.nodes@, rs@[k]).len()
                && forall|j: int| 0 <= j < r@[k].1@.len() ==> self.nodes@[reactant_positions(self.nodes@, rs@[k])[j] as int]
                    == Tag::SpeciesReference(#[trigger] r@[k].1@[j]),
            decreases rs@.len() - i,
        {
            let id = match &rs[i].id {
                Some(id) => id.clone(),
                None => String::new(),
            };
            let v = rs[i].reactants(self);
            r.push((id, v));
            i = i + 1;
        }
        Ok(r)
    }

    /// For each reaction, in document order: its id and its products. A reaction
    /// without an id is an error.
    pub fn all_products(&self) -> (r: Result<Vec<(String, Vec<SpeciesReference>)>, ReferenceError>)
        ensures
            r is Ok <==> all_ided(self.reactions_spec()),
            r matches Err(e) ==> e is ReactionWithoutId,
            r matches Ok(v) ==> v@.len() == self.reactions_spec().len() && forall|i: int| #![trigger v@[i]] 0 <= i < v@.len() ==> self.reactions_spec()[i].id == Some(v@[i].0)
                && v@[i].1@.len() == product_positions(self.nodes@, self.reactions_spec()[i]).len()
                && forall|j: int| 0 <= j < v@[i].1@.len() ==> self.nodes@[product_positions(self.nodes@, self.reactions_spec()[i])[j] as int]
                    == Tag::SpeciesReference(#[trigger] v@[i].1@[j]),
    {
        let rs = self.identified_reactions()?;
        let mut r: Vec<(String, Vec<SpeciesReference>)> = Vec::new();
        let mut i: usize = 0;
        while i < rs.len()
            invariant
                i <= rs@.len(),
                rs@ == self.reactions_spec(),
                forall|k: int| 0 <= k < rs@.len() ==> (#[trigger] rs@[k]).id is Some,
                r@.len() == i,
                forall|k: int| #![trigger r@[k]] 0 <= k < i ==> rs@[k].id == Some(r@[k].0)
                    && r@[k].1@.len() == product_positions(self.nodes@, rs@[k]).len()
                && forall|j: int| 0 <= j < r@[k].1@.len() ==> self.nodes@[product_positions(self.nodes@, rs@[k])[j] as int]
                    == Tag::SpeciesReference(#[trigger] r@[k].1@[j]),
            decreases rs@.len() - i,
        {
            let id = match &rs[i].id {
                Some(id) => id.clone(),
                None => String::new(),
            };
            let v = rs[i].products(self);
            r.push((id, v));
            i = i + 1;
        }
        Ok(r)
    }

    /// For each reaction, in document order: its id and its reactants' species. A reaction
    /// without an id, or a reference without a species, is an error.
    pub fn all_reactant_ids(&self) -> (r: Result<Vec<(String, Vec<String>)>, ReferenceError>)
        ensures
            r is Ok <==> all_ided(self.reactions_spec()) && forall|i: int| 0 <= i < self.reactions_spec().len() ==> all_named(self.nodes@, reactant_positions(self.nodes@, #[trigger] self.reactions_spec()[i])),
            r matches Err(e) ==> (e is ReactionWithoutId <==> !all_ided(self.reactions_spec())) && (e is ReactionWithoutId || e is NoSpecies),
            r matches Ok(v) ==> v@.len() == self.reactions_spec().len() && forall|i: int| #![trigger v@[i]] 0 <= i < v@.len() ==> self.reactions_spec()[i].id == Some(v@[i].0)
                && v@[i].1@.map_values(|s: String| s@) == named_species(self.nodes@, reactant_positions(self.nodes@, self.reactions_spec()[i])),
    {
        let rs = self.identified_reactions()?;
        let mut r: Vec<(String, Vec<String>)> = Vec::new();
        let mut i: usize = 0;
        while i < rs.len()
            invariant
                i <= rs@.len(),
                rs@ == self.reactions_spec(),
                forall|k: int| 0 <= k < rs@.len() ==> (#[trigger] rs@[k]).id is Some,
                forall|k: int| 0 <= k < i ==> all_named(self.nodes@, reactant_positions(self.nodes@, #[trigger] rs@[k])),
                r@.len() == i,
                forall|k: int| #![trigger r@[k]] 0 <= k < i ==> rs@[k].id == Some(r@[k].0)
                    && r@[k].1@.map_values(|s: String| s@) == named_species(self.nodes@, reactant_positions(self.nodes@, rs@[k])),
            decreases rs@.len() - i,
        {
            let id = match &rs[i].id {
                Some(id) => id.clone(),
                None => String::new(),
            };
            let v = match rs[i].reactant_ids(self) {
                Ok(v) => v,
                Err(e) => {
                    return Err(e);
                },
            };
            r.push((id, v));
            i = i + 1;
        }
        Ok(r)
    }

    /// For each reaction, in document order: its id and its products' species. A reaction
    /// without an id, or a reference without a species, is an error.
    pub fn all_product_ids(&self) -> (r: Result<Vec<(String, Vec<String>)>, ReferenceError>)
        ensures
            r is Ok <==> all_ided(self.reactions_spec()) && forall|i: int| 0 <= i < self.reactions_spec().len() ==> all_named(self.nodes@, product_positions(self.nodes@, #[trigger] self.reactions_spec()[i])),
            r matches Err(e) ==> (e is ReactionWithoutId <==> !all_ided(self.reactions_spec())) && (e is ReactionWithoutId || e is NoSpecies),
            r matches Ok(v) ==> v@.len() == self.reactions_spec().len() && forall|i: int| #![trigger v@[i]] 0 <= i < v@.len() ==> self.reactions_spec()[i].id == Some(v@[i].0)
                && v@[i].1@.map_values(|s: String| s@) == named_species(self.nodes@, product_positions(self.nodes@, self.reactions_spec()[i])),
    {
        let rs = self.identified_reactions()?;
        let mut r: Vec<(String, Vec<String>)> = Vec::new();
        let mut i: usize = 0;
        while i < rs.len()
            invariant
                i <= rs@.len(),
                rs@ == self.reactions_spec(),
                forall|k: int| 0 <= k < rs@.len() ==> (#[trigger] rs@[k]).id is Some,
                forall|k: int| 0 <= k < i ==> all_named(self.nodes@, product_positions(self.nodes@, #[trigger] rs@[k])),
                r@.len() == i,
                forall|k: int| #![trigger r@[k]] 0 <= k < i ==> rs@[k].id == Some(r@[k].0)
                    && r@[k].1@.map_values(|s: String| s@) == named_species(self.nodes@, product_positions(self.nodes@, rs@[k])),
            decreases rs@.len() - i,
        {
            let id = match &rs[i].id {
                Some(id) => id.clone(),
                None => String::new(),
            };
            let v = match rs[i].product_ids(self) {
                Ok(v) => v,
                Err(e) => {
                    return Err(e);
                },
            };
            r.push((id, v));
            i = i + 1;
        }
        Ok(r)
    }

    /// For each reaction, in document order: its id and the pairs (id, value)
    /// of its kinetic law's local parameters. A reaction without an id is an
    /// error.
    pub fn local_parameter_values(&self) -> (r: Result<Vec<(String, Vec<(String, String)>)>, ReferenceError>)
        ensures
            r is Ok <==> all_ided(self.reactions_spec()),
            r matches Err(e) ==> e is ReactionWithoutId,
            r matches Ok(v) ==> v@.len() == self.reactions_spec().len() && forall|i: int| #![trigger v@[i]] 0 <= i < v@.len() ==> self.reactions_spec()[i].id == Some(v@[i].0)
                && text_pairs(v@[i].1@) == match kinetic_law_at(self.nodes@, self.reactions_spec()[i].kinetic_law) {
                    Some(k) => parameter_values(self.nodes@, local_parameter_positions(self.nodes@, k)),
                    None => Seq::empty(),
                },
    {
        let rs = self.identified_reactions()?;
        let mut r: Vec<(String, Vec<(String, String)>)> = Vec::new();
        let mut i: usize = 0;
        while i < rs.len()
            invariant
                i <= rs@.len(),
                rs@ == self.reactions_spec(),
                forall|k: int| 0 <= k < rs@.len() ==> (#[trigger] rs@[k]).id is Some,
                r@.len() == i,
                forall|k: int| #![trigger r@[k]] 0 <= k < i ==> rs@[k].id == Some(r@[k].0)
                    && text_pairs(r@[k].1@) == match kinetic_law_at(self.nodes@, rs@[k].kinetic_law) {
                        Some(kl) => parameter_values(self.nodes@, local_parameter_positions(self.nodes@, kl)),
                        None => Seq::empty(),
                    },
            decreases rs@.len() - i,
        {
            let id = match &rs[i].id {
                Some(id) => id.clone(),
                None => String::new(),
            };
            let v = rs[i].local_parameter_values(self);
            r.push((id, v));
            i = i + 1;
        }
        Ok(r)
    }

    /// For each reaction, in document order: its id and a copy of its kinetic
    /// law's fragment. A reaction without either is an error.
    pub fn all_kinetic_laws(&self) -> (r: Result<Vec<(String, MathTag)>, ReferenceError>)
        ensures
            r is Ok <==> all_complete(self.nodes@, self.reactions_spec().map_values(|x: Reaction| (x.id, match kinetic_law_at(self.nodes@, x.kinetic_law) {
                    Some(k) => k.math,
                    None => None,
                }))),
            r matches Err(e) ==> e is Incomplete,
            r matches Ok(v) ==> fragment_pairs(v@) == named_fragments(self.nodes@, self.reactions_spec().map_values(|x: Reaction| (x.id, match kinetic_law_at(self.nodes@, x.kinetic_law) {
                    Some(k) => k.math,
                    None => None,
                }))),
    {
        let rs = self.reactions();
        assert(rs@ =~= self.reactions_spec()) by {
            assert forall|j: int| 0 <= j < rs@.len() implies rs@[j] == self.reactions_spec()[j] by {
                assert(self.nodes@[self.reactions_positions()[j] as int] == Tag::Reaction(rs@[j]));
            }
        }
        let ghost law = |x: Reaction| (x.id, match kinetic_law_at(self.nodes@, x.kinetic_law) {
            Some(k) => k.math,
            None => None,
        });
        let mut named: Vec<(Option<String>, Option<usize>)> = Vec::new();
        let mut i: usize = 0;
        while i < rs.len()
            invariant
                i <= rs@.len(),
                named@ == rs@.subrange(0, i as int).map_values(law),
                law == (|x: Reaction| (x.id, match kinetic_law_at(self.nodes@, x.kinetic_law) {
                    Some(k) => k.math,
                    None => None,
                })),
            decreases rs@.len() - i,
        {
            let link = match self.kinetic_law_node(rs[i].kinetic_law) {
                Some(k) => k.math,
                None => None,
            };
            named.push((rs[i].id.clone(), link));
            i = i + 1;
            assert(named@ =~= rs@.subrange(0, i as int).map_values(law));
        }
        assert(rs@.subrange(0, i as int) =~= rs@);
        fragments_named(self, &named)
    }
}

/// How a species takes part in a reaction, with its stoichiometry as written,
/// if declared.
#[derive(Debug)]
pub enum SpeciesStatus {
    Reactant(Option<String>),
    Product(Option<String>),
    /// Not involved.
    Uninvolved,
}

impl Default for SpeciesStatus {
    fn default() -> (r: SpeciesStatus)
        ensures
            r is Uninvolved,
    {
        SpeciesStatus::Uninvolved
    }
}

/// The mathematical value of a `SpeciesStatus`.
pub enum SpeciesStatusView {
    Reactant(Option<Seq<char>>),
    Product(Option<Seq<char>>),
    Uninvolved,
}

impl View for SpeciesStatus {
    type V = SpeciesStatusView;

    open spec fn view(&self) -> SpeciesStatusView {
        match self {
            SpeciesStatus::Reactant(c) => SpeciesStatusView::Reactant(name_view(*c)),
            SpeciesStatus::Product(c) => SpeciesStatusView::Product(name_view(*c)),
            SpeciesStatus::Uninvolved => SpeciesStatusView::Uninvolved,
        }
    }
}

pub open spec fn incidence_view(v: Seq<(String, String, SpeciesStatus)>) -> Seq<(Seq<char>, Seq<char>, SpeciesStatusView)> {
    v.map_values(|e: (String, String, SpeciesStatus)| (e.0@, e.1@, e.2@))
}

/// The entries (species, reaction, status) of the references at `ids` that
/// name a species, for reaction `rid`, as reactants or as products.
pub open spec fn reference_entries(nodes: Seq<Tag>, ids: Seq<usize>, rid: Seq<char>, reactant: bool) -> Seq<(Seq<char>, Seq<char>, SpeciesStatusView)>
    decreases ids.len(),
{
    if ids.len() == 0 {
        Seq::empty()
    } else {
        let r = reference_entries(nodes, ids.drop_last(), rid, reactant);
        let i = ids.last() as int;
        if 0 <= i < nodes.len() {
            match nodes[i] {
                Tag::SpeciesReference(n) => match n.species {
                    Some(s) => r.push((
                        s@,
                        rid,
                        if reactant {
                            SpeciesStatusView::Reactant(name_view(n.stoichiometry))
                        } else {
                            SpeciesStatusView::Product(name_view(n.stoichiometry))
                        },
                    )),
                    None => r,
                },
                _ => r,
            }
        } else {
            r
        }
    }
}

/// The stoichiometry incidence relation of reactions `rs` (each with an id):
/// for each, its reactants and then its products that name a species. A
/// species may appear both ways in one reaction; a pair that does not appear
/// is not involved.
pub open spec fn incidence(nodes: Seq<Tag>, rs: Seq<Reaction>) -> Seq<(Seq<char>, Seq<char>, SpeciesStatusView)>
    decreases rs.len(),
{
    if rs.len() == 0 {
        Seq::empty()
    } else {
        let r = rs.last();
        let rid = match r.id {
            Some(id) => id@,
            None => Seq::empty(),
        };
        incidence(nodes, rs.drop_last()) + reference_entries(nodes, reactant_positions(nodes, r), rid, true)
            + reference_entries(nodes, product_positions(nodes, r), rid, false)
    }
}

fn push_entries(model: &Model, out: &mut Vec<(String, String, SpeciesStatus)>, ids: &Vec<usize>, rid: &String, reactant: bool)
    ensures
        incidence_view(final(out)@) == incidence_view(old(out)@) + reference_entries(model.nodes@, ids@, rid@, reactant),
{
    let ghost start = incidence_view(out@);
    let mut j: usize = 0;
    while j < ids.len()
        invariant
            j <= ids@.len(),
            incidence_view(out@) == start + reference_entries(model.nodes@, ids@.subrange(0, j as int), rid@, reactant),
        decreases ids@.len() - j,
    {
        let ghost before = incidence_view(out@);
        let i = ids[j];
        if i < model.nodes.len() {
            if let Tag::SpeciesReference(n) = &model.nodes[i] {
                if let Some(s) = &n.species {
                    let status = if reactant {
                        SpeciesStatus::Reactant(n.stoichiometry.clone())
                    } else {
                        SpeciesStatus::Product(n.stoichiometry.clone())
                    };
                    let ghost sv = status@;
                    out.push((s.clone(), rid.clone(), status));
                    assert(incidence_view(out@) =~= before.push((s@, rid@, sv)));
                }
            }
        }
        j = j + 1;
        assert(ids@.subrange(0, j as int).drop_last() =~= ids@.subrange(0, j - 1));
        assert(incidence_view(out@) =~= start + reference_entries(model.nodes@, ids@.subrange(0, j as int), rid@, reactant));
    }
    assert(ids@.subrange(0, j as int) =~= ids@);
}

impl Model {
    /// The stoichiometry incidence relation (`incidence`) of the document's
    /// reactions, in document order. A reaction without an id is an error.
    pub fn stoichiometry(&self) -> (r: Result<Vec<(String, String, SpeciesStatus)>, ReferenceError>)
        ensures
            r is Ok <==> all_ided(self.reactions_spec()),
            r matches Err(e) ==> e is ReactionWithoutId,
            r matches Ok(v) ==> incidence_view(v@) == incidence(self.nodes@, self.reactions_spec()),
    {
        let rs = self.identified_reactions()?;
        let mut out: Vec<(String, String, SpeciesStatus)> = Vec::new();
        let mut i: usize = 0;
        while i < rs.len()
            invariant
                i <= rs@.len(),
                forall|k: int| 0 <= k < rs@.len() ==> (#[trigger] rs@[k]).id is Some,
                incidence_view(out@) == incidence(self.nodes@, rs@.subrange(0, i as int)),
            decreases rs@.len() - i,
        {
            let rid = match &rs[i].id {
                Some(id) => id.clone(),
                None => String::new(),
            };
            let reactants = self.members(rs[i].list_of_reactants, TagKind::ListOfReactants, TagKind::SpeciesReference);
            let products = self.members(rs[i].list_of_products, TagKind::ListOfProducts, TagKind::SpeciesReference);
            push_entries(self, &mut out, &reactants, &rid, true);
            push_entries(self, &mut out, &products, &rid, false);
            i = i + 1;
            assert(rs@.subrange(0, i as int).drop_last() =~= rs@.subrange(0, i - 1));
            assert(rs@.subrange(0, i as int).last() == rs@[i - 1]);
        }
        assert(rs@.subrange(0, i as int) =~= rs@);
        Ok(out)
    }
}

} // verus!
