use sbml_rs::attributes::AttributeError;
use sbml_rs::literal::{is_real, parse_integer};
use sbml_rs::model::{ReferenceError, SpeciesStatus};
use sbml_rs::parser::{ParseError, Parser, Step};
use sbml_rs::tag::{Tag, TagKind};

fn kv(a: &[(&str, &str)]) -> Vec<(String, String)> {
    a.iter().map(|(k, v)| (k.to_string(), v.to_string())).collect()
}

fn start(p: &mut Parser, name: &str, a: &[(&str, &str)]) {
    assert_eq!(p.start_tag(name, &kv(a)).unwrap(), Step::Continue);
}

#[test]
fn unknown_tag_is_rejected_at_the_root() {
    let mut p = Parser::new();
    let r = p.start_tag("listOfThings", &Vec::new());
    assert!(matches!(r, Err(ParseError::UnknownTag(ref n)) if n == "listOfThings"));
    assert_eq!(p.nodes.len(), 1);
    assert_eq!(p.stack, vec![0]);
}

#[test]
fn unknown_tag_is_rejected_when_nested() {
    let mut p = Parser::new();
    start(&mut p, "listOfSpecies", &[]);
    start(&mut p, "species", &[("id", "A")]);
    let before = p.nodes.len();
    let r = p.start_tag("annotation", &Vec::new());
    assert!(matches!(r, Err(ParseError::UnknownTag(_))));
    assert_eq!(p.nodes.len(), before);
    assert_eq!(p.stack.len(), 3);
}

#[test]
fn balanced_document_ends_at_the_root() {
    let mut p = Parser::new();
    start(&mut p, "sbml", &[]);
    start(&mut p, "model", &[]);
    start(&mut p, "listOfUnitDefinitions", &[]);
    start(&mut p, "unitDefinition", &[("id", "per_second")]);
    start(&mut p, "listOfUnits", &[]);
    start(&mut p, "unit", &[("kind", "second"), ("exponent", "-1"), ("scale", "0"), ("multiplier", "1")]);
    for name in ["unit", "listOfUnits", "unitDefinition", "listOfUnitDefinitions", "model", "sbml"] {
        p.end_tag(name).unwrap();
    }
    assert_eq!(p.stack, vec![0]);
    let model = p.finish().unwrap();
    let defs = model.unit_definitions();
    assert_eq!(defs.len(), 1);
    assert_eq!(defs[0].id.as_deref(), Some("per_second"));
    match &model.nodes[4] {
        Tag::Unit(u) => {
            assert_eq!(u.scale, Some(0));
            assert_eq!(u.exponent.as_deref(), Some("-1"));
            assert_eq!(u.parent, Some(3));
        }
        other => panic!("{:?}", other),
    }
}

#[test]
fn mismatched_close_is_rejected() {
    let mut p = Parser::new();
    start(&mut p, "listOfSpecies", &[]);
    start(&mut p, "species", &[]);
    let r = p.end_tag("listOfSpecies");
    assert!(matches!(r, Err(ParseError::MismatchedClose { open: TagKind::Species, close: TagKind::ListOfSpecies })));
    assert_eq!(p.stack.len(), 3);
}

#[test]
fn close_at_the_root_is_rejected() {
    let mut p = Parser::new();
    let r = p.end_tag("species");
    assert!(matches!(r, Err(ParseError::MismatchedClose { open: TagKind::Root, close: TagKind::Species })));
}

#[test]
fn unclosed_node_fails_at_the_end() {
    let mut p = Parser::new();
    start(&mut p, "listOfSpecies", &[]);
    assert!(matches!(p.finish(), Err(ParseError::Unclosed(TagKind::ListOfSpecies))));
}

#[test]
fn misplaced_tag_is_rejected() {
    let mut p = Parser::new();
    let r = p.start_tag("species", &Vec::new());
    assert!(matches!(r, Err(ParseError::Misplaced { tag: TagKind::Species, parent: TagKind::Root })));
    assert_eq!(p.nodes.len(), 1);
}

#[test]
fn math_outside_a_math_holder_is_rejected() {
    let mut p = Parser::new();
    start(&mut p, "listOfSpecies", &[]);
    assert!(matches!(p.start_tag("math", &Vec::new()), Err(ParseError::Misplaced { tag: TagKind::MathTag, .. })));
    assert!(p.math(Vec::new()).is_err());
}

#[test]
fn malformed_math_is_rejected() {
    let mut p = Parser::new();
    start(&mut p, "listOfFunctionDefinitions", &[]);
    start(&mut p, "functionDefinition", &[("id", "f")]);
    assert!(matches!(p.math(Vec::new()), Err(ParseError::MalformedMath)));
}

#[test]
fn text_is_rejected() {
    let p = Parser::new();
    assert!(matches!(p.text("hello"), Err(ParseError::UnexpectedText(ref t)) if t == "hello"));
}

#[test]
fn unknown_attribute_is_rejected() {
    let mut p = Parser::new();
    start(&mut p, "listOfParameters", &[]);
    let r = p.start_tag("parameter", &kv(&[("id", "k"), ("colour", "red")]));
    assert!(matches!(r, Err(ParseError::Attribute(AttributeError::Unknown { tag: TagKind::Parameter, ref key })) if key == "colour"));
    assert_eq!(p.nodes.len(), 2);
}

#[test]
fn badly_typed_attribute_is_rejected() {
    let mut p = Parser::new();
    start(&mut p, "listOfParameters", &[]);
    let r = p.start_tag("parameter", &kv(&[("id", "k"), ("value", "fast")]));
    assert!(matches!(r, Err(ParseError::Attribute(AttributeError::Invalid { ref value, .. })) if value == "fast"));
    let r = p.start_tag("parameter", &kv(&[("constant", "yes")]));
    assert!(matches!(r, Err(ParseError::Attribute(AttributeError::Invalid { .. }))));
}

#[test]
fn unknown_model_attribute_is_rejected() {
    let mut p = Parser::new();
    let r = p.start_tag("model", &kv(&[("colour", "red")]));
    assert!(matches!(r, Err(ParseError::UnknownModelAttribute(ref k)) if k == "colour"));
}

#[test]
fn model_header_fields() {
    let mut p = Parser::new();
    start(&mut p, "model", &[("id", "m"), ("timeUnits", "second"), ("conversionFactor", "cf")]);
    let m = p.finish().unwrap();
    assert_eq!(m.id.as_deref(), Some("m"));
    assert_eq!(m.time_units.as_deref(), Some("second"));
    assert_eq!(m.conversion_factor.as_deref(), Some("cf"));
    assert_eq!(m.name, None);
}

fn reaction_document() -> sbml_rs::model::Model {
    let mut p = Parser::new();
    start(&mut p, "listOfReactions", &[]);
    start(&mut p, "reaction", &[("id", "r1"), ("reversible", "false")]);
    start(&mut p, "listOfReactants", &[]);
    start(&mut p, "speciesReference", &[("species", "A"), ("stoichiometry", "2")]);
    p.end_tag("speciesReference").unwrap();
    p.end_tag("listOfReactants").unwrap();
    start(&mut p, "listOfProducts", &[]);
    start(&mut p, "speciesReference", &[("species", "B"), ("stoichiometry", "1")]);
    p.end_tag("speciesReference").unwrap();
    p.end_tag("listOfProducts").unwrap();
    start(&mut p, "listOfModifiers", &[]);
    start(&mut p, "modifierSpeciesReference", &[("species", "E")]);
    p.end_tag("modifierSpeciesReference").unwrap();
    p.end_tag("listOfModifiers").unwrap();
    start(&mut p, "kineticLaw", &[]);
    start(&mut p, "listOfLocalParameters", &[]);
    start(&mut p, "localParameter", &[("id", "k"), ("value", "0.1")]);
    p.end_tag("localParameter").unwrap();
    start(&mut p, "localParameter", &[("id", "unset")]);
    p.end_tag("localParameter").unwrap();
    p.end_tag("listOfLocalParameters").unwrap();
    p.end_tag("kineticLaw").unwrap();
    p.end_tag("reaction").unwrap();
    p.end_tag("listOfReactions").unwrap();
    p.finish().unwrap()
}

#[test]
fn reactants_and_products_are_kept_apart() {
    let m = reaction_document();
    let r = &m.reactions()[0];
    let reactants = r.reactants(&m);
    let products = r.products(&m);
    assert_eq!(reactants.len(), 1);
    assert_eq!(products.len(), 1);
    assert_eq!(reactants[0].species.as_deref(), Some("A"));
    assert_eq!(reactants[0].stoichiometry.as_deref(), Some("2"));
    assert_eq!(products[0].species.as_deref(), Some("B"));
    assert_eq!(r.reactant_ids(&m).unwrap(), vec!["A".to_string()]);
    assert_eq!(r.product_ids(&m).unwrap(), vec!["B".to_string()]);
    assert_eq!(r.modifiers(&m).unwrap(), vec!["E".to_string()]);
    assert_eq!(r.reversible, Some(false));
}

#[test]
fn model_wide_reaction_tables() {
    let m = reaction_document();
    let ids = m.all_reactant_ids().unwrap();
    assert_eq!(ids, vec![("r1".to_string(), vec!["A".to_string()])]);
    let ids = m.all_product_ids().unwrap();
    assert_eq!(ids, vec![("r1".to_string(), vec!["B".to_string()])]);
    assert_eq!(m.all_reactants().unwrap()[0].1.len(), 1);
    assert_eq!(m.all_products().unwrap()[0].1[0].species.as_deref(), Some("B"));
    assert_eq!(m.local_parameter_values().unwrap(), vec![("r1".to_string(), vec![("k".to_string(), "0.1".to_string())])]);
    assert_eq!(m.reactions()[0].local_parameters(&m).len(), 2);
    assert!(matches!(m.all_kinetic_laws(), Err(ReferenceError::Incomplete)));
}

#[test]
fn species_with_amount_and_concentration_is_rejected() {
    let mut p = Parser::new();
    start(&mut p, "listOfSpecies", &[]);
    let r = p.start_tag("species", &kv(&[("id", "A"), ("initialAmount", "1"), ("initialConcentration", "2")]));
    assert!(matches!(r, Err(ParseError::Attribute(AttributeError::AmountAndConcentration))));
    assert_eq!(p.nodes.len(), 2);
    start(&mut p, "species", &[("id", "A"), ("initialConcentration", "2")]);
    p.end_tag("species").unwrap();
    p.end_tag("listOfSpecies").unwrap();
    let mut m = p.finish().unwrap();
    assert!(m.initial_values().is_ok());
    if let Tag::Species(s) = &mut m.nodes[2] {
        s.initial_amount = Some("1".to_string());
    }
    assert!(matches!(m.initial_values(), Err(sbml_rs::bindings::BindingError::AmountAndConcentration(ref s)) if s == "A"));
}

#[test]
fn reference_without_species_is_reported() {
    let mut p = Parser::new();
    start(&mut p, "listOfReactions", &[]);
    start(&mut p, "reaction", &[("id", "r1")]);
    start(&mut p, "listOfReactants", &[]);
    start(&mut p, "speciesReference", &[("stoichiometry", "1")]);
    for name in ["speciesReference", "listOfReactants", "reaction", "listOfReactions"] {
        p.end_tag(name).unwrap();
    }
    let m = p.finish().unwrap();
    assert!(matches!(m.reactions()[0].reactant_ids(&m), Err(ReferenceError::NoSpecies)));
    assert!(matches!(m.all_reactant_ids(), Err(ReferenceError::NoSpecies)));
    assert_eq!(m.all_reactants().unwrap()[0].1.len(), 1);
}

#[test]
fn reaction_without_id_is_reported() {
    let mut p = Parser::new();
    start(&mut p, "listOfReactions", &[]);
    start(&mut p, "reaction", &[("name", "anonymous")]);
    p.end_tag("reaction").unwrap();
    p.end_tag("listOfReactions").unwrap();
    let m = p.finish().unwrap();
    assert!(matches!(m.all_reactants(), Err(ReferenceError::ReactionWithoutId)));
    assert!(matches!(m.stoichiometry(), Err(ReferenceError::ReactionWithoutId)));
    assert!(matches!(m.local_parameter_values(), Err(ReferenceError::ReactionWithoutId)));
}

#[test]
fn species_amount_without_compartment_size_fails() {
    let mut p = Parser::new();
    start(&mut p, "listOfSpecies", &[]);
    start(&mut p, "species", &[("id", "A"), ("initialAmount", "1"), ("compartment", "nowhere")]);
    p.end_tag("species").unwrap();
    p.end_tag("listOfSpecies").unwrap();
    let m = p.finish().unwrap();
    assert!(matches!(m.initial_values(), Err(sbml_rs::bindings::BindingError::NoCompartmentSize(ref s)) if s == "A"));
    let sp = &m.species()[0];
    assert!(matches!(sp.compartment_size(&m), Err(ReferenceError::NoCompartmentSize(ref c)) if c == "nowhere"));
    assert_eq!(sp.id(), "A".to_string());
}

#[test]
fn real_literals() {
    for ok in ["2.0", "10", "-1", "+.5", "1.", "1e5", "2.5E-3", "inf", "-Infinity", "NaN"] {
        assert!(is_real(ok), "{}", ok);
        assert!(ok.parse::<f64>().is_ok());
    }
    for bad in ["", "abc", "1.2.3", "e5", ".", "1e", "--1", "1e+", "infinite"] {
        assert!(!is_real(bad), "{}", bad);
        assert!(bad.parse::<f64>().is_err());
    }
}

#[test]
fn integer_literals() {
    assert_eq!(parse_integer("42"), Some(42));
    assert_eq!(parse_integer("-7"), Some(-7));
    assert_eq!(parse_integer("+3"), Some(3));
    assert_eq!(parse_integer("9223372036854775807"), Some(i64::MAX));
    assert_eq!(parse_integer("-9223372036854775808"), Some(i64::MIN));
    assert_eq!(parse_integer("9223372036854775808"), None);
    assert_eq!(parse_integer("123456789012345678901234567890"), None);
    assert_eq!(parse_integer(""), None);
    assert_eq!(parse_integer("-"), None);
    assert_eq!(parse_integer("1x"), None);
}

#[test]
fn empty_constructors() {
    assert!(sbml_rs::tag::ListOfUnitDefinitions::new().unit_definitions.is_empty());
    assert!(sbml_rs::tag::ListOfUnits::new().units.is_empty());
    assert_eq!(sbml_rs::tag::UnitDefinition::new().id, None);
    assert_eq!(sbml_rs::tag::Unit::new().scale, None);
}

#[test]
fn stoichiometry_lists_reactants_then_products() {
    let m = reaction_document();
    let table = m.stoichiometry().unwrap();
    assert_eq!(table.len(), 2);
    assert_eq!((table[0].0.as_str(), table[0].1.as_str()), ("A", "r1"));
    assert!(matches!(&table[0].2, SpeciesStatus::Reactant(Some(c)) if c == "2"));
    assert_eq!((table[1].0.as_str(), table[1].1.as_str()), ("B", "r1"));
    assert!(matches!(&table[1].2, SpeciesStatus::Product(Some(c)) if c == "1"));
    assert!(matches!(SpeciesStatus::default(), SpeciesStatus::Uninvolved));
}

#[test]
fn species_without_compartment_has_no_size() {
    let mut p = Parser::new();
    start(&mut p, "listOfSpecies", &[]);
    start(&mut p, "species", &[("id", "A")]);
    p.end_tag("species").unwrap();
    p.end_tag("listOfSpecies").unwrap();
    let m = p.finish().unwrap();
    assert!(matches!(m.species()[0].compartment_size(&m), Err(ReferenceError::NoCompartment)));
}
