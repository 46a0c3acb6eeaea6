use std::collections::HashMap;

use sbml_rs::bindings::InitialValue;
use sbml_rs::math::{MathNode, MathOp};

#[test]
fn lib_it_works() {
    assert_eq!(2 + 2, 4);
}

fn to_mathml(nodes: &[MathNode]) -> Vec<mathml_rs::MathNode> {
    nodes
        .iter()
        .map(|n| match n {
            MathNode::Root { children, parent } => mathml_rs::MathNode::Root(mathml_rs::Root { children: children.clone(), parent: *parent }),
            MathNode::Apply { children, operator, operands, parent } => mathml_rs::MathNode::Apply(mathml_rs::Apply {
                children: children.clone(),
                operator: *operator,
                operands: operands.clone(),
                parent: *parent,
            }),
            MathNode::Op { op, parent } => mathml_rs::MathNode::Op(mathml_rs::OpNode {
                op: op.map(|o| match o {
                    MathOp::Times => mathml_rs::Op::Times,
                    MathOp::Divide => mathml_rs::Op::Divide,
                    MathOp::Plus => mathml_rs::Op::Plus,
                    MathOp::Minus => mathml_rs::Op::Minus,
                    other => panic!("operator {:?} not used here", other),
                }),
                parent: *parent,
            }),
            MathNode::Ci { name, parent } => mathml_rs::MathNode::Ci(mathml_rs::Ci { name: name.clone(), parent: *parent }),
            other => panic!("node {:?} not used here", other),
        })
        .collect()
}

fn eval(nodes: &[MathNode], values: &[(&str, f64)]) -> f64 {
    let values: HashMap<String, f64> = values.iter().map(|(k, v)| (k.to_string(), *v)).collect();
    mathml_rs::evaluate_node(&to_mathml(nodes), 0, &values, &HashMap::new()).unwrap()
}

fn product(a: &str, b: &str) -> Vec<MathNode> {
    vec![
        MathNode::Root { children: vec![1], parent: None },
        MathNode::Apply { children: vec![2, 3, 4], operator: Some(2), operands: vec![3, 4], parent: Some(0) },
        MathNode::Op { op: Some(MathOp::Times), parent: Some(1) },
        MathNode::Ci { name: Some(a.to_string()), parent: Some(1) },
        MathNode::Ci { name: Some(b.to_string()), parent: Some(1) },
    ]
}

fn symbol(a: &str) -> Vec<MathNode> {
    vec![MathNode::Root { children: vec![1], parent: None }, MathNode::Ci { name: Some(a.to_string()), parent: Some(0) }]
}

#[test]
fn divide_adds_three_nodes_and_keeps_value() {
    let mut nodes = symbol("S");
    let pairs = vec![("S".to_string(), "C".to_string())];
    sbml_rs::rewrite::divide_by_compartments(&mut nodes, &pairs);
    assert_eq!(nodes.len(), 2 + 3);
    assert!(sbml_rs::math::fragment_is_well_formed(&nodes));
    assert_eq!(eval(&nodes, &[("S", 6.0), ("C", 3.0)]), 2.0);
}

#[test]
fn divide_leaves_other_symbols() {
    let mut nodes = product("k", "S");
    let pairs = vec![("S".to_string(), "C".to_string())];
    sbml_rs::rewrite::divide_by_compartments(&mut nodes, &pairs);
    assert_eq!(nodes.len(), 5 + 3);
    assert!(matches!(&nodes[3], MathNode::Ci { name: Some(n), .. } if n == "k"));
    assert!(matches!(&nodes[4], MathNode::Apply { operands, .. } if operands == &vec![6, 7]));
    assert_eq!(eval(&nodes, &[("k", 3.0), ("S", 8.0), ("C", 2.0)]), 12.0);
}

#[test]
fn divide_without_pairs_changes_nothing() {
    let mut nodes = product("k", "S");
    sbml_rs::rewrite::divide_by_compartments(&mut nodes, &Vec::new());
    assert_eq!(nodes.len(), 5);
    assert_eq!(eval(&nodes, &[("k", 3.0), ("S", 8.0)]), 24.0);
}

#[test]
fn rate_rule_with_constant_compartment() {
    let rate = sbml_rs::math::MathTag { nodes: symbol("k"), parent: None };
    let r = sbml_rs::rewrite::transform_species_rate_rule(&"S".to_string(), &rate, &"C".to_string(), None);
    assert_eq!(r.nodes.len(), 4 + 1);
    assert!(sbml_rs::math::fragment_is_well_formed(&r.nodes));
    assert_eq!(eval(&r.nodes, &[("k", 1.5), ("C", 4.0)]), 6.0);
}

#[test]
fn rate_rule_with_changing_compartment() {
    let rate = sbml_rs::math::MathTag { nodes: symbol("k"), parent: None };
    let comp = sbml_rs::math::MathTag { nodes: symbol("m"), parent: None };
    let r = sbml_rs::rewrite::transform_species_rate_rule(&"S".to_string(), &rate, &"C".to_string(), Some(&comp));
    assert_eq!(r.nodes.len(), 6 + 1 + 6 + 1);
    assert!(sbml_rs::math::fragment_is_well_formed(&r.nodes));
    let v = eval(&r.nodes, &[("k", 2.0), ("m", 3.0), ("S", 10.0), ("C", 4.0)]);
    assert_eq!(v, 4.0 * 2.0 + (10.0 / 4.0) * 3.0);
}

#[test]
fn rate_rule_with_compound_expressions() {
    let rate = sbml_rs::math::MathTag { nodes: product("a", "b"), parent: None };
    let comp = sbml_rs::math::MathTag { nodes: product("c", "d"), parent: None };
    let r = sbml_rs::rewrite::transform_species_rate_rule(&"S".to_string(), &rate, &"C".to_string(), Some(&comp));
    assert!(sbml_rs::math::fragment_is_well_formed(&r.nodes));
    let v = eval(&r.nodes, &[("a", 2.0), ("b", 3.0), ("c", 5.0), ("d", 7.0), ("S", 9.0), ("C", 3.0)]);
    assert_eq!(v, 3.0 * 6.0 + (9.0 / 3.0) * 35.0);
}

#[test]
fn malformed_fragment_is_detected() {
    let nodes = vec![
        MathNode::Root { children: vec![1], parent: None },
        MathNode::Ci { name: Some("x".to_string()), parent: Some(7) },
    ];
    assert!(!sbml_rs::math::fragment_is_well_formed(&nodes));
    assert!(!sbml_rs::math::fragment_is_well_formed(&Vec::new()));
}

fn text_pairs(a: &[(&str, &str)]) -> Vec<(String, String)> {
    a.iter().map(|(k, v)| (k.to_string(), v.to_string())).collect()
}

fn open_tag(p: &mut sbml_rs::parser::Parser, name: &str, a: &[(&str, &str)]) {
    assert_eq!(p.start_tag(name, &text_pairs(a)).unwrap(), sbml_rs::parser::Step::Continue);
}

fn close_tag(p: &mut sbml_rs::parser::Parser, name: &str) {
    p.end_tag(name).unwrap();
}

#[test]
fn example_document_values_and_kinetic_law() {
    let mut p = sbml_rs::parser::Parser::new();
    open_tag(&mut p, "sbml", &[]);
    open_tag(&mut p, "model", &[("id", "example")]);
    open_tag(&mut p, "listOfCompartments", &[]);
    open_tag(&mut p, "compartment", &[("id", "cell"), ("size", "2.0")]);
    close_tag(&mut p, "compartment");
    close_tag(&mut p, "listOfCompartments");
    open_tag(&mut p, "listOfSpecies", &[]);
    open_tag(
        &mut p,
        "species",
        &[("id", "A"), ("initialAmount", "10.0"), ("hasOnlySubstanceUnits", "false"), ("compartment", "cell")],
    );
    close_tag(&mut p, "species");
    close_tag(&mut p, "listOfSpecies");
    open_tag(&mut p, "listOfParameters", &[]);
    open_tag(&mut p, "parameter", &[("id", "k1"), ("value", "0.5")]);
    close_tag(&mut p, "parameter");
    close_tag(&mut p, "listOfParameters");
    open_tag(&mut p, "listOfReactions", &[]);
    open_tag(&mut p, "reaction", &[("id", "r1")]);
    open_tag(&mut p, "kineticLaw", &[]);
    assert_eq!(p.start_tag("math", &Vec::new()).unwrap(), sbml_rs::parser::Step::Math);
    p.math(product("k1", "A")).unwrap();
    close_tag(&mut p, "kineticLaw");
    close_tag(&mut p, "reaction");
    close_tag(&mut p, "listOfReactions");
    close_tag(&mut p, "model");
    close_tag(&mut p, "sbml");
    assert_eq!(p.stack.len(), 1);
    let model = p.finish().unwrap();
    assert_eq!(model.id.as_deref(), Some("example"));
    assert_eq!(model.species()[0].compartment_size(&model).unwrap(), "2.0".to_string());

    let values = model.initial_values().unwrap();
    let mut numbers = HashMap::new();
    for (id, v) in values {
        let n = match v {
            InitialValue::Declared(t) => t.parse::<f64>().unwrap(),
            InitialValue::AmountPerSize { amount, size } => amount.parse::<f64>().unwrap() / size.parse::<f64>().unwrap(),
        };
        numbers.insert(id, n);
    }
    assert_eq!(numbers["A"], 5.0);
    assert_eq!(numbers["k1"], 0.5);
    assert_eq!(numbers["cell"], 2.0);

    let converted = sbml_rs::transform::convert_species_to_amounts(model).ok().unwrap();
    let reaction = &converted.reactions()[0];
    let law = reaction.kinetic_law(&converted).unwrap();
    assert_eq!(law.nodes.len(), 5 + 3);
    assert_eq!(eval(&law.nodes, &[("A", 5.0), ("cell", 2.0), ("k1", 0.5)]), 1.25);
}

fn rate_rule_document(compartment_rate: bool, with_compartment: bool) -> sbml_rs::model::Model {
    let mut p = sbml_rs::parser::Parser::new();
    open_tag(&mut p, "listOfCompartments", &[]);
    open_tag(&mut p, "compartment", &[("id", "C"), ("size", "4"), ("constant", "false")]);
    close_tag(&mut p, "compartment");
    close_tag(&mut p, "listOfCompartments");
    open_tag(&mut p, "listOfSpecies", &[]);
    if with_compartment {
        open_tag(&mut p, "species", &[("id", "S"), ("initialConcentration", "1"), ("hasOnlySubstanceUnits", "false"), ("compartment", "C")]);
    } else {
        open_tag(&mut p, "species", &[("id", "S"), ("initialConcentration", "1"), ("hasOnlySubstanceUnits", "false")]);
    }
    close_tag(&mut p, "species");
    close_tag(&mut p, "listOfSpecies");
    open_tag(&mut p, "listOfRules", &[]);
    open_tag(&mut p, "rateRule", &[("variable", "S")]);
    assert_eq!(p.start_tag("math", &Vec::new()).unwrap(), sbml_rs::parser::Step::Math);
    p.math(symbol("k")).unwrap();
    close_tag(&mut p, "rateRule");
    if compartment_rate {
        open_tag(&mut p, "rateRule", &[("variable", "C")]);
        assert_eq!(p.start_tag("math", &Vec::new()).unwrap(), sbml_rs::parser::Step::Math);
        p.math(symbol("m")).unwrap();
        close_tag(&mut p, "rateRule");
    }
    close_tag(&mut p, "listOfRules");
    p.finish().unwrap()
}

fn species_rate(model: &sbml_rs::model::Model) -> Vec<MathNode> {
    let rules = model.rate_rules();
    rules[0].math_tag(model).unwrap().nodes
}

#[test]
fn transform_rate_rule_constant_compartment() {
    let model = sbml_rs::transform::transform(rate_rule_document(false, true)).ok().unwrap();
    let nodes = species_rate(&model);
    assert_eq!(eval(&nodes, &[("k", 3.0), ("C", 4.0)]), 12.0);
}

#[test]
fn transform_rate_rule_changing_compartment() {
    let model = sbml_rs::transform::transform(rate_rule_document(true, true)).ok().unwrap();
    let nodes = species_rate(&model);
    let v = eval(&nodes, &[("k", 3.0), ("m", 0.5), ("S", 8.0), ("C", 4.0)]);
    assert_eq!(v, 4.0 * 3.0 + (8.0 / 4.0) * 0.5);
    let comp = model.rate_rules()[1].math_tag(&model).unwrap();
    assert_eq!(comp.nodes.len(), 2);
}

#[test]
fn rate_rule_keeps_its_owner() {
    let before = rate_rule_document(false, true);
    let link = before.rate_rules()[0].math.unwrap();
    let owner = before.rate_rules()[0].math_tag(&before).unwrap().parent;
    let after = sbml_rs::transform::transform(before).ok().unwrap();
    assert_eq!(after.rate_rules()[0].math, Some(link));
    assert_eq!(after.rate_rules()[0].math_tag(&after).unwrap().parent, owner);
}

#[test]
fn rate_rule_on_species_without_compartment_fails() {
    let r = sbml_rs::transform::transform_species_rate_rules(rate_rule_document(false, false));
    assert!(matches!(r, Err(sbml_rs::transform::TransformError::SpeciesWithoutCompartment(ref s)) if s == "S"));
}
