//! The structural parser: it consumes start, end and text events, one at a
//! time, and builds the arena of a document.
use vstd::prelude::*;
use crate::attributes::{attributes_consistent, attributes_fit, check_attributes, check_consistency, holds_attributes, is_fresh, new_node, AttributeError};
use crate::literal::text_is;
use crate::math::{fragment_is_well_formed, fragment_ok, fragment_view, MathNode, MathTag};
use crate::model::{check_header, header_fits, holds_header, Model};
use crate::tag::{attach, attached, is_legal_parent, kinds_kept, legal_parent, lemma_kinds_kept_along, Root, Tag, TagKind};

verus! {

/// The kind of node that a start or end tag of this name stands for.
pub open spec fn kind_named(name: Seq<char>) -> Option<TagKind> {
    if name == "listOfUnitDefinitions"@ {
        Some(TagKind::ListOfUnitDefinitions)
    } else     if name == "unitDefinition"@ {
        Some(TagKind::UnitDefinition)
    } else     if name == "listOfUnits"@ {
        Some(TagKind::ListOfUnits)
    } else     if name == "unit"@ {
        Some(TagKind::Unit)
    } else     if name == "listOfCompartments"@ {
        Some(TagKind::ListOfCompartments)
    } else     if name == "compartment"@ {
        Some(TagKind::Compartment)
    } else     if name == "listOfParameters"@ {
        Some(TagKind::ListOfParameters)
    } else     if name == "parameter"@ {
        Some(TagKind::Parameter)
    } else     if name == "listOfSpecies"@ {
        Some(TagKind::ListOfSpecies)
    } else     if name == "species"@ {
        Some(TagKind::Species)
    } else     if name == "listOfReactions"@ {
        Some(TagKind::ListOfReactions)
    } else     if name == "reaction"@ {
        Some(TagKind::Reaction)
    } else     if name == "listOfReactants"@ {
        Some(TagKind::ListOfReactants)
    } else     if name == "listOfProducts"@ {
        Some(TagKind::ListOfProducts)
    } else     if name == "speciesReference"@ {
        Some(TagKind::SpeciesReference)
    } else     if name == "listOfModifiers"@ {
        Some(TagKind::ListOfModifiers)
    } else     if name == "modifierSpeciesReference"@ {
        Some(TagKind::ModifierSpeciesReference)
    } else     if name == "kineticLaw"@ {
        Some(TagKind::KineticLaw)
    } else     if name == "listOfLocalParameters"@ {
        Some(TagKind::ListOfLocalParameters)
    } else     if name == "localParameter"@ {
        Some(TagKind::LocalParameter)
    } else     if name == "math"@ {
        Some(TagKind::MathTag)
    } else     if name == "listOfFunctionDefinitions"@ {
        Some(TagKind::ListOfFunctionDefinitions)
    } else     if name == "functionDefinition"@ {
        Some(TagKind::FunctionDefinition)
    } else     if name == "listOfInitialAssignments"@ {
        Some(TagKind::ListOfInitialAssignments)
    } else     if name == "initialAssignment"@ {
        Some(TagKind::InitialAssignment)
    } else     if name == "listOfRules"@ {
        Some(TagKind::ListOfRules)
    } else     if name == "assignmentRule"@ {
        Some(TagKind::AssignmentRule)
    } else     if name == "rateRule"@ {
        Some(TagKind::RateRule)
    } else {
        None
    }
}

/// The kind of node that a tag of this name stands for (`kind_named`).
pub fn kind_of_name(name: &str) -> (r: Option<TagKind>)
    ensures
        r == kind_named(name@),
{
    if text_is(name, "listOfUnitDefinitions") {
        Some(TagKind::ListOfUnitDefinitions)
    } else     if text_is(name, "unitDefinition") {
        Some(TagKind::UnitDefinition)
    } else     if text_is(name, "listOfUnits") {
        Some(TagKind::ListOfUnits)
    } else     if text_is(name, "unit") {
        Some(TagKind::Unit)
    } else     if text_is(name, "listOfCompartments") {
        Some(TagKind::ListOfCompartments)
    } else     if text_is(name, "compartment") {
        Some(TagKind::Compartment)
    } else     if text_is(name, "listOfParameters") {
        Some(TagKind::ListOfParameters)
    } else     if text_is(name, "parameter") {
        Some(TagKind::Parameter)
    } else     if text_is(name, "listOfSpecies") {
        Some(TagKind::ListOfSpecies)
    } else     if text_is(name, "species") {
        Some(TagKind::Species)
    } else     if text_is(name, "listOfReactions") {
        Some(TagKind::ListOfReactions)
    } else     if text_is(name, "reaction") {
        Some(TagKind::Reaction)
    } else     if text_is(name, "listOfReactants") {
        Some(TagKind::ListOfReactants)
    } else     if text_is(name, "listOfProducts") {
        Some(TagKind::ListOfProducts)
    } else     if text_is(name, "speciesReference") {
        Some(TagKind::SpeciesReference)
    } else     if text_is(name, "listOfModifiers") {
        Some(TagKind::ListOfModifiers)
    } else     if text_is(name, "modifierSpeciesReference") {
        Some(TagKind::ModifierSpeciesReference)
    } else     if text_is(name, "kineticLaw") {
        Some(TagKind::KineticLaw)
    } else     if text_is(name, "listOfLocalParameters") {
        Some(TagKind::ListOfLocalParameters)
    } else     if text_is(name, "localParameter") {
        Some(TagKind::LocalParameter)
    } else     if text_is(name, "math") {
        Some(TagKind::MathTag)
    } else     if text_is(name, "listOfFunctionDefinitions") {
        Some(TagKind::ListOfFunctionDefinitions)
    } else     if text_is(name, "functionDefinition") {
        Some(TagKind::FunctionDefinition)
    } else     if text_is(name, "listOfInitialAssignments") {
        Some(TagKind::ListOfInitialAssignments)
    } else     if text_is(name, "initialAssignment") {
        Some(TagKind::InitialAssignment)
    } else     if text_is(name, "listOfRules") {
        Some(TagKind::ListOfRules)
    } else     if text_is(name, "assignmentRule") {
        Some(TagKind::AssignmentRule)
    } else     if text_is(name, "rateRule") {
        Some(TagKind::RateRule)
    } else {
        None
    }
}

/// Why a document could not be read.
#[derive(Debug)]
pub enum ParseError {
    /// A start or end tag of a name that the format does not have.
    UnknownTag(String),
    /// A tag under a node that may not hold it.
    Misplaced { tag: TagKind, parent: TagKind },
    /// An end tag that does not close the innermost open node.
    MismatchedClose { open: TagKind, close: TagKind },
    /// Text where the format has none.
    UnexpectedText(String),
    /// An attribute that its node cannot take.
    Attribute(AttributeError),
    /// An attribute that the document header cannot take.
    UnknownModelAttribute(String),
    /// Embedded mathematics whose nodes do not form a fragment (`fragment_ok`).
    MalformedMath,
    /// The document ended with this node still open.
    Unclosed(TagKind),
}

/// What the caller does next after a start tag.
#[derive(Debug, Clone, Copy, PartialEq, Eq, Structural)]
pub enum Step {
    /// Go on with the next event.
    Continue,
    /// The tag opens embedded mathematics: hand the events up to its end tag
    /// to the expression engine, and its nodes to `math`.
    Math,
}

/// A scope event, as far as nesting goes.
pub enum ScopeEvent {
    Open(TagKind),
    Close(TagKind),
}

/// The kinds of the open scopes after one more event; `None` where an end
/// tag does not close the innermost open scope (the root never closes).
pub open spec fn scope_step(kinds: Seq<TagKind>, e: ScopeEvent) -> Option<Seq<TagKind>> {
    match e {
        ScopeEvent::Open(k) => Some(kinds.push(k)),
        ScopeEvent::Close(k) => if kinds.len() > 1 && kinds.last() == k {
            Some(kinds.drop_last())
        } else {
            None
        },
    }
}

/// The kinds of the open scopes after a run of events, or `None` from the
/// first event that fails on.
pub open spec fn scope_run(kinds: Seq<TagKind>, events: Seq<ScopeEvent>) -> Option<Seq<TagKind>>
    decreases events.len(),
{
    if events.len() == 0 {
        Some(kinds)
    } else {
        match scope_run(kinds, events.drop_last()) {
            Some(k) => scope_step(k, events.last()),
            None => None,
        }
    }
}

/// An element of a document as far as nesting goes: its kind and children.
pub struct Element {
    pub kind: TagKind,
    pub children: Seq<Element>,
}

/// The events of an element: its start, those of its children, its end.
pub open spec fn element_events(e: Element) -> Seq<ScopeEvent>
    decreases e, 0nat,
{
    seq![ScopeEvent::Open(e.kind)] + forest_events(e.children) + seq![ScopeEvent::Close(e.kind)]
}

/// The events of a run of sibling elements.
pub open spec fn forest_events(f: Seq<Element>) -> Seq<ScopeEvent>
    decreases f, f.len(),
{
    if f.len() == 0 {
        Seq::empty()
    } else {
        forest_events(f.drop_last()) + element_events(f.last())
    }
}

proof fn lemma_scope_run_append(kinds: Seq<TagKind>, a: Seq<ScopeEvent>, b: Seq<ScopeEvent>)
    ensures
        scope_run(kinds, a + b) == match scope_run(kinds, a) {
            Some(k) => scope_run(k, b),
            None => None,
        },
    decreases b.len(),
{
    if b.len() == 0 {
        assert(a + b =~= a);
    } else {
        lemma_scope_run_append(kinds, a, b.drop_last());
        assert((a + b).drop_last() =~= a + b.drop_last());
    }
}

proof fn lemma_element_balanced(kinds: Seq<TagKind>, e: Element)
    requires
        kinds.len() > 0,
    ensures
        scope_run(kinds, element_events(e)) == Some(kinds),
    decreases e, 0nat,
{
    let open = seq![ScopeEvent::Open(e.kind)];
    let inner = forest_events(e.children);
    let close = seq![ScopeEvent::Close(e.kind)];
    assert(scope_run(kinds, open) == Some(kinds.push(e.kind))) by {
        assert(open.drop_last() =~= Seq::<ScopeEvent>::empty());
        assert(scope_run(kinds, Seq::<ScopeEvent>::empty()) == Some(kinds));
    }
    lemma_scope_run_append(kinds, open, inner);
    lemma_forest_balanced(kinds.push(e.kind), e.children);
    lemma_scope_run_append(kinds, open + inner, close);
    assert(close.drop_last() =~= Seq::<ScopeEvent>::empty());
    assert(scope_run(kinds.push(e.kind), Seq::<ScopeEvent>::empty()) == Some(kinds.push(e.kind)));
    assert(scope_run(kinds.push(e.kind), close) == scope_step(kinds.push(e.kind), ScopeEvent::Close(e.kind)));
    assert(kinds.push(e.kind).drop_last() =~= kinds);
}

proof fn lemma_forest_balanced(kinds: Seq<TagKind>, f: Seq<Element>)
    requires
        kinds.len() > 0,
    ensures
        scope_run(kinds, forest_events(f)) == Some(kinds),
    decreases f, f.len(),
{
    if f.len() == 0 {
    } else {
        lemma_forest_balanced(kinds, f.drop_last());
        lemma_element_balanced(kinds, f.last());
        lemma_scope_run_append(kinds, forest_events(f.drop_last()), element_events(f.last()));
    }
}

/// Scope balance: the events of any run of correctly nested elements leave
/// the open scopes as they were, so from the root alone they end with the
/// root alone; and a run that reaches an end tag which does not close the
/// innermost open scope fails at that tag, whatever follows.
pub proof fn lemma_scope_balance(f: Seq<Element>, prefix: Seq<ScopeEvent>, k: TagKind, rest: Seq<ScopeEvent>)
    ensures
        scope_run(seq![TagKind::Root], forest_events(f)) == Some(seq![TagKind::Root]),
        scope_run(seq![TagKind::Root], prefix) matches Some(open) && !(open.len() > 1 && open.last() == k) ==> scope_run(
            seq![TagKind::Root],
            prefix.push(ScopeEvent::Close(k)) + rest,
        ) is None,
{
    lemma_forest_balanced(seq![TagKind::Root], f);
    let start = seq![TagKind::Root];
    assert(prefix.push(ScopeEvent::Close(k)).drop_last() =~= prefix);
    lemma_scope_run_append(start, prefix.push(ScopeEvent::Close(k)), rest);
}

/// The parser's state: the arena built so far, the positions of the open
/// nodes (the root at the bottom, the node being filled at the top), and the
/// attributes of the document header.
pub struct Parser {
    pub nodes: Vec<Tag>,
    pub stack: Vec<usize>,
    pub model_attributes: Vec<(String, String)>,
}

impl Parser {
    /// The arena holds the root at position 0, and the stack holds the root at
    /// its bottom and positions of the arena above it.
    pub open spec fn wf(&self) -> bool {
        &&& self.nodes@.len() > 0
        &&& self.nodes@[0] is Root
        &&& self.stack@.len() > 0
        &&& self.stack@[0] == 0
        &&& forall|i: int| 0 <= i < self.stack@.len() ==> #[trigger] self.stack@[i] < self.nodes@.len()
        &&& forall|i: int| 1 <= i < self.stack@.len() ==> !(#[trigger] self.nodes@[self.stack@[i] as int] is Root)
        &&& header_fits(self.model_attributes@)
    }

    /// The position of the node being filled.
    pub open spec fn current(&self) -> usize {
        self.stack@.last()
    }

    /// The kinds of the open nodes, from the root up.
    pub open spec fn open_kinds(&self) -> Seq<TagKind> {
        self.stack@.map_values(|i: usize| self.nodes@[i as int].kind_of())
    }

    /// A parser at the start of a document: the arena holds only the root.
    pub fn new() -> (r: Parser)
        ensures
            r.wf(),
            r.nodes@.len() == 1,
            r.nodes@[0] matches Tag::Root(root) && root.is_empty(),
            r.stack@ == seq![0usize],
            r.open_kinds() == seq![TagKind::Root],
            r.model_attributes@.len() == 0,
    {
        let mut nodes: Vec<Tag> = Vec::new();
        nodes.push(Tag::Root(Root::default()));
        let mut stack: Vec<usize> = Vec::new();
        stack.push(0);
        let r = Parser { nodes, stack, model_attributes: Vec::new() };
        assert(r.stack@ =~= seq![0usize]);
        assert(r.open_kinds() =~= seq![TagKind::Root]);
        r
    }

    fn current_kind(&self) -> (r: TagKind)
        requires
            self.wf(),
        ensures
            r == self.nodes@[self.current() as int].kind_of(),
    {
        self.nodes[self.stack[self.stack.len() - 1]].kind()
    }

    /// Handles a start tag. `sbml` opens no node; `model` adds its attributes
    /// to the document header; `math` asks for the embedded fragment
    /// (`Step::Math`). Any other known tag appends a new node of its kind,
    /// links it into the current node, and opens it. A tag of unknown name, a
    /// tag where its kind may not stand, an attribute that does not fit, and a
    /// species with both an initial amount and an initial concentration
    /// fail, and change nothing.
    pub fn start_tag(&mut self, name: &str, attrs: &Vec<(String, String)>) -> (r: Result<Step, ParseError>)
        requires
            old(self).wf(),
        ensures
            final(self).wf(),
            kinds_kept(old(self).nodes@, final(self).nodes@),
            parse_step(*old(self), *final(self), start_event(name@, r is Ok)),
            r is Err ==> *final(self) == *old(self),
            name@ == "sbml"@ ==> r == Ok::<Step, ParseError>(Step::Continue) && *final(self) == *old(self),
            name@ == "model"@ ==> (r is Ok <==> header_fits(attrs@)) && (r is Ok ==> r == Ok::<Step, ParseError>(Step::Continue)
                && final(self).nodes == old(self).nodes && final(self).stack == old(self).stack
                && final(self).model_attributes@ == old(self).model_attributes@ + attrs@),
            name@ != "sbml"@ && name@ != "model"@ && kind_named(name@) is None ==> (r matches Err(ParseError::UnknownTag(n)) && n@ == name@),
            kind_named(name@) == Some(TagKind::MathTag) ==> (r is Ok <==> legal_parent(TagKind::MathTag, old(self).nodes@[old(self).current() as int].kind_of()))
                && (r is Ok ==> r == Ok::<Step, ParseError>(Step::Math) && *final(self) == *old(self)),
            kind_named(name@) is Some && kind_named(name@)->0 != TagKind::MathTag ==> {
                let k = kind_named(name@)->0;
                let cur = old(self).current();
                let len = old(self).nodes@.len();
                &&& !legal_parent(k, old(self).nodes@[cur as int].kind_of()) ==> (r matches Err(ParseError::Misplaced { tag, parent })
                    && tag == k && parent == old(self).nodes@[cur as int].kind_of())
                &&& (r is Ok <==> legal_parent(k, old(self).nodes@[cur as int].kind_of()) && attributes_fit(k, attrs@)
                    && attributes_consistent(k, attrs@))
                &&& legal_parent(k, old(self).nodes@[cur as int].kind_of()) && attributes_fit(k, attrs@)
                    && !attributes_consistent(k, attrs@) ==> (r matches Err(ParseError::Attribute(e)) && e is AmountAndConcentration)
                &&& r is Ok ==> {
                    &&& r == Ok::<Step, ParseError>(Step::Continue)
                    &&& final(self).nodes@.len() == len + 1
                    &&& forall|i: int| 0 <= i < len && i != cur ==> final(self).nodes@[i] == old(self).nodes@[i]
                    &&& attached(old(self).nodes@[cur as int], final(self).nodes@[cur as int], k, len as usize)
                    &&& final(self).nodes@[len as int].kind_of() == k
                    &&& is_fresh(final(self).nodes@[len as int])
                    &&& holds_attributes(final(self).nodes@[len as int], attrs@)
                    &&& final(self).stack@ == old(self).stack@.push(len as usize)
                    &&& final(self).model_attributes == old(self).model_attributes
                    &&& final(self).open_kinds() == scope_step(old(self).open_kinds(), ScopeEvent::Open(k))->0
                }
            },
    {
        proof {
            lemma_header_tags_unnamed();
        }
        if text_is(name, "sbml") {
            return Ok(Step::Continue);
        }
        if text_is(name, "model") {
            if let Err(k) = check_header(attrs) {
                return Err(ParseError::UnknownModelAttribute(k));
            }
            let mut i: usize = 0;
            while i < attrs.len()
                invariant
                    i <= attrs@.len(),
                    self.nodes == old(self).nodes,
                    self.stack == old(self).stack,
                    self.model_attributes@ == old(self).model_attributes@ + attrs@.subrange(0, i as int),
                decreases attrs@.len() - i,
            {
                self.model_attributes.push((attrs[i].0.clone(), attrs[i].1.clone()));
                i = i + 1;
                assert(self.model_attributes@ =~= old(self).model_attributes@ + attrs@.subrange(0, i as int));
            }
            assert(attrs@.subrange(0, i as int) =~= attrs@);
            return Ok(Step::Continue);
        }
        let k = match kind_of_name(name) {
            None => {
                return Err(ParseError::UnknownTag(name.to_owned()));
            },
            Some(k) => k,
        };
        proof {
            lemma_named_not_root(name@);
        }
        let pk = self.current_kind();
        if !is_legal_parent(k, pk) {
            return Err(ParseError::Misplaced { tag: k, parent: pk });
        }
        if k == TagKind::MathTag {
            return Ok(Step::Math);
        }
        if let Err(e) = check_attributes(k, attrs) {
            return Err(ParseError::Attribute(e));
        }
        if let Err(e) = check_consistency(k, attrs) {
            return Err(ParseError::Attribute(e));
        }
        let node = new_node(k, attrs);
        let len = self.nodes.len();
        let cur = self.stack[self.stack.len() - 1];
        let ghost before = self.nodes@;
        let ghost kinds = self.open_kinds();
        attach(&mut self.nodes[cur], k, len);
        proof {
            lemma_attached_kind(before[cur as int], self.nodes@[cur as int], k, len);
        }
        self.nodes.push(node);
        self.stack.push(len);
        proof {
            assert(forall|i: int| 0 <= i < len ==> #[trigger] self.nodes@[i].kind_of() == before[i].kind_of());
            assert(self.open_kinds() =~= kinds.push(k));
        }
        Ok(Step::Continue)
    }

    /// Handles an end tag. The ends of `sbml` and `model` close nothing. Any
    /// other known tag must close the innermost open node, which then gets
    /// its parent link to the node below it, and that node becomes current.
    /// Anything else fails, and changes nothing.
    pub fn end_tag(&mut self, name: &str) -> (r: Result<(), ParseError>)
        requires
            old(self).wf(),
        ensures
            final(self).wf(),
            kinds_kept(old(self).nodes@, final(self).nodes@),
            parse_step(*old(self), *final(self), end_event(name@, r is Ok)),
            r is Err ==> *final(self) == *old(self),
            name@ == "sbml"@ || name@ == "model"@ ==> r is Ok && *final(self) == *old(self),
            name@ != "sbml"@ && name@ != "model"@ && kind_named(name@) is None ==> (r matches Err(ParseError::UnknownTag(n)) && n@ == name@),
            kind_named(name@) is Some ==> {
                let k = kind_named(name@)->0;
                let cur = old(self).current();
                &&& (r is Ok <==> scope_step(old(self).open_kinds(), ScopeEvent::Close(k)) is Some)
                &&& r is Err ==> (r matches Err(ParseError::MismatchedClose { open, close })
                    && open == old(self).open_kinds().last() && close == k)
                &&& r is Ok ==> {
                    &&& final(self).stack@ == old(self).stack@.drop_last()
                    &&& final(self).nodes@ == old(self).nodes@.update(cur as int, old(self).nodes@[cur as int].with_parent_spec(final(self).current()))
                    &&& final(self).model_attributes == old(self).model_attributes
                    &&& final(self).open_kinds() == scope_step(old(self).open_kinds(), ScopeEvent::Close(k))->0
                }
            },
    {
        proof {
            lemma_header_tags_unnamed();
        }
        if text_is(name, "sbml") || text_is(name, "model") {
            return Ok(());
        }
        let k = match kind_of_name(name) {
            None => {
                return Err(ParseError::UnknownTag(name.to_owned()));
            },
            Some(k) => k,
        };
        proof {
            reveal_strlit("sbml");
            reveal_strlit("model");
        }
        let open = self.current_kind();
        assert(open == self.open_kinds().last());
        if self.stack.len() == 1 || open != k {
            return Err(ParseError::MismatchedClose { open, close: k });
        }
        let ghost before = self.nodes@;
        let ghost kinds = self.open_kinds();
        let cur = self.stack.pop().unwrap();
        let top = self.stack[self.stack.len() - 1];
        self.nodes[cur].set_parent(top);
        proof {
            assert(self.nodes@[cur as int].kind_of() == before[cur as int].kind_of());
            assert(forall|i: int| 0 <= i < before.len() ==> #[trigger] self.nodes@[i].kind_of() == before[i].kind_of());
            assert(self.open_kinds() =~= kinds.drop_last());
        }
        Ok(())
    }

    /// Handles the nodes of embedded mathematics, which the expression engine
    /// read up to and including the end tag of the region: they are appended
    /// as one fragment, owned by and linked into the current node. A fragment
    /// that is not well formed, or a current node that holds no mathematics,
    /// fails, and changes nothing.
    pub fn math(&mut self, nodes: Vec<MathNode>) -> (r: Result<(), ParseError>)
        requires
            old(self).wf(),
        ensures
            final(self).wf(),
            kinds_kept(old(self).nodes@, final(self).nodes@),
            parse_step(*old(self), *final(self), None),
            r is Err ==> *final(self) == *old(self),
            r is Ok <==> legal_parent(TagKind::MathTag, old(self).nodes@[old(self).current() as int].kind_of())
                && fragment_ok(fragment_view(nodes@)),
            r is Ok ==> {
                let cur = old(self).current();
                let len = old(self).nodes@.len();
                &&& final(self).nodes@.len() == len + 1
                &&& forall|i: int| 0 <= i < len && i != cur ==> final(self).nodes@[i] == old(self).nodes@[i]
                &&& attached(old(self).nodes@[cur as int], final(self).nodes@[cur as int], TagKind::MathTag, len as usize)
                &&& final(self).nodes@[len as int] == Tag::MathTag(MathTag { nodes, parent: Some(cur) })
                &&& final(self).stack == old(self).stack
                &&& final(self).model_attributes == old(self).model_attributes
                &&& final(self).open_kinds() == old(self).open_kinds()
            },
    {
        let pk = self.current_kind();
        if !is_legal_parent(TagKind::MathTag, pk) {
            return Err(ParseError::Misplaced { tag: TagKind::MathTag, parent: pk });
        }
        if !fragment_is_well_formed(&nodes) {
            return Err(ParseError::MalformedMath);
        }
        let len = self.nodes.len();
        let cur = self.stack[self.stack.len() - 1];
        let ghost before = self.nodes@;
        let ghost kinds = self.open_kinds();
        attach(&mut self.nodes[cur], TagKind::MathTag, len);
        proof {
            lemma_attached_kind(before[cur as int], self.nodes@[cur as int], TagKind::MathTag, len);
        }
        self.nodes.push(Tag::MathTag(MathTag { nodes, parent: Some(cur) }));
        proof {
            assert(forall|i: int| 0 <= i < len ==> #[trigger] self.nodes@[i].kind_of() == before[i].kind_of());
            assert(self.open_kinds() =~= kinds);
        }
        Ok(())
    }

    /// Handles text: the format has no text outside embedded mathematics.
    pub fn text(&self, content: &str) -> (r: Result<(), ParseError>)
        ensures
            r matches Err(ParseError::UnexpectedText(t)) && t@ == content@,
    {
        Err(ParseError::UnexpectedText(content.to_owned()))
    }

    /// The document, once the stream has ended; a node still open is an error.
    pub fn finish(self) -> (r: Result<Model, ParseError>)
        requires
            self.wf(),
        ensures
            r is Ok <==> self.stack@.len() == 1,
            r matches Err(e) ==> e == ParseError::Unclosed(self.open_kinds().last()),
            r matches Ok(m) ==> m.nodes == self.nodes && m.nodes@.len() > 0 && m.nodes@[0] is Root && holds_header(m, self.model_attributes@),
    {
        if self.stack.len() != 1 {
            let k = self.current_kind();
            return Err(ParseError::Unclosed(k));
        }
        match Model::new(self.nodes, &self.model_attributes) {
            Ok(m) => Ok(m),
            Err(e) => Err(e),
        }
    }
}

/// The scope event of a start tag named `name` that succeeded or not: a node
/// kind other than mathematics opens a scope; anything else opens none.
pub open spec fn start_event(name: Seq<char>, ok: bool) -> Option<ScopeEvent> {
    match kind_named(name) {
        Some(k) => if ok && k != TagKind::MathTag {
            Some(ScopeEvent::Open(k))
        } else {
            None
        },
        None => None,
    }
}

/// The scope event of an end tag named `name` that succeeded or not.
pub open spec fn end_event(name: Seq<char>, ok: bool) -> Option<ScopeEvent> {
    match kind_named(name) {
        Some(k) => if ok {
            Some(ScopeEvent::Close(k))
        } else {
            None
        },
        None => None,
    }
}

/// One event takes the parser from `a` to `b`: every node keeps its kind, and
/// the open scopes follow the event's scope event, if it has one.
pub open spec fn parse_step(a: Parser, b: Parser, e: Option<ScopeEvent>) -> bool {
    &&& kinds_kept(a.nodes@, b.nodes@)
    &&& match e {
        Some(ev) => scope_step(a.open_kinds(), ev) == Some(b.open_kinds()),
        None => b.open_kinds() == a.open_kinds(),
    }
}

/// The states of a parse, one more than its events, each step one event.
pub open spec fn parse_run(states: Seq<Parser>, events: Seq<Option<ScopeEvent>>) -> bool {
    &&& states.len() == events.len() + 1
    &&& forall|i: int| 0 <= i < events.len() ==> #[trigger] parse_step(states[i], states[i + 1], events[i])
}

/// The scope events among the events of a run, in order.
pub open spec fn scope_events(events: Seq<Option<ScopeEvent>>) -> Seq<ScopeEvent>
    decreases events.len(),
{
    if events.len() == 0 {
        Seq::empty()
    } else {
        match events.last() {
            Some(e) => scope_events(events.drop_last()).push(e),
            None => scope_events(events.drop_last()),
        }
    }
}

/// Over a whole run of the parser, every node keeps the kind it was appended
/// with, and the open scopes at the end are those that the run's scope events
/// leave from the open scopes at the start.
pub proof fn lemma_parse_run(states: Seq<Parser>, events: Seq<Option<ScopeEvent>>)
    requires
        parse_run(states, events),
    ensures
        kinds_kept(states[0].nodes@, states.last().nodes@),
        scope_run(states[0].open_kinds(), scope_events(events)) == Some(states.last().open_kinds()),
    decreases events.len(),
{
    let n = events.len();
    if n == 0 {
        assert forall|i: int| 0 <= i < states[0].nodes@.len() implies #[trigger] states[0].nodes@[i].kind_of() == states[0].nodes@[i].kind_of() by {}
    } else {
        let prefix = states.subrange(0, n as int);
        assert forall|i: int| 0 <= i < events.drop_last().len() implies #[trigger] parse_step(prefix[i], prefix[i + 1], events.drop_last()[i]) by {
            assert(parse_step(states[i], states[i + 1], events[i]));
        }
        lemma_parse_run(prefix, events.drop_last());
        assert(parse_step(states[n - 1], states[n as int], events[n - 1]));
        lemma_kinds_kept_along(states[0].nodes@, states[n - 1].nodes@, states[n as int].nodes@);
        match events.last() {
            Some(e) => {
                let evs = scope_events(events);
                assert(evs.drop_last() == scope_events(events.drop_last()));
            },
            None => {},
        }
    }
}

/// Scope balance for a whole parse: a run from a new parser whose scope
/// events are those of correctly nested elements ends with the root alone
/// open, so `finish` succeeds.
pub proof fn lemma_balanced_parse(states: Seq<Parser>, events: Seq<Option<ScopeEvent>>, f: Seq<Element>)
    requires
        parse_run(states, events),
        states[0].open_kinds() == seq![TagKind::Root],
        scope_events(events) == forest_events(f),
    ensures
        states.last().open_kinds() == seq![TagKind::Root],
        states.last().stack@.len() == 1,
{
    lemma_parse_run(states, events);
    lemma_scope_balance(f, Seq::empty(), TagKind::Root, Seq::empty());
}

proof fn lemma_header_tags_unnamed()
    ensures
        kind_named("sbml"@) is None,
        kind_named("model"@) is None,
        "sbml"@ != "model"@,
{
    reveal_strlit("sbml");
    reveal_strlit("model");
    assert("sbml"@.len() != "model"@.len());
    reveal_strlit("listOfUnitDefinitions");
    assert("sbml"@.len() != "listOfUnitDefinitions"@.len());
    assert("model"@.len() != "listOfUnitDefinitions"@.len());
    reveal_strlit("unitDefinition");
    assert("sbml"@.len() != "unitDefinition"@.len());
    assert("model"@.len() != "unitDefinition"@.len());
    reveal_strlit("listOfUnits");
    assert("sbml"@.len() != "listOfUnits"@.len());
    assert("model"@.len() != "listOfUnits"@.len());
    reveal_strlit("unit");
    assert("sbml"@[0] != "unit"@[0]);
    assert("model"@.len() != "unit"@.len());
    reveal_strlit("listOfCompartments");
    assert("sbml"@.len() != "listOfCompartments"@.len());
    assert("model"@.len() != "listOfCompartments"@.len());
    reveal_strlit("compartment");
    assert("sbml"@.len() != "compartment"@.len());
    assert("model"@.len() != "compartment"@.len());
    reveal_strlit("listOfParameters");
    assert("sbml"@.len() != "listOfParameters"@.len());
    assert("model"@.len() != "listOfParameters"@.len());
    reveal_strlit("parameter");
    assert("sbml"@.len() != "parameter"@.len());
    assert("model"@.len() != "parameter"@.len());
    reveal_strlit("listOfSpecies");
    assert("sbml"@.len() != "listOfSpecies"@.len());
    assert("model"@.len() != "listOfSpecies"@.len());
    reveal_strlit("species");
    assert("sbml"@.len() != "species"@.len());
    assert("model"@.len() != "species"@.len());
    reveal_strlit("listOfReactions");
    assert("sbml"@.len() != "listOfReactions"@.len());
    assert("model"@.len() != "listOfReactions"@.len());
    reveal_strlit("reaction");
    assert("sbml"@.len() != "reaction"@.len());
    assert("model"@.len() != "reaction"@.len());
    reveal_strlit("listOfReactants");
    assert("sbml"@.len() != "listOfReactants"@.len());
    assert("model"@.len() != "listOfReactants"@.len());
    reveal_strlit("listOfProducts");
    assert("sbml"@.len() != "listOfProducts"@.len());
    assert("model"@.len() != "listOfProducts"@.len());
    reveal_strlit("speciesReference");
    assert("sbml"@.len() != "speciesReference"@.len());
    assert("model"@.len() != "speciesReference"@.len());
    reveal_strlit("listOfModifiers");
    assert("sbml"@.len() != "listOfModifiers"@.len());
    assert("model"@.len() != "listOfModifiers"@.len());
    reveal_strlit("modifierSpeciesReference");
    assert("sbml"@.len() != "modifierSpeciesReference"@.len());
    assert("model"@.len() != "modifierSpeciesReference"@.len());
    reveal_strlit("kineticLaw");
    assert("sbml"@.len() != "kineticLaw"@.len());
    assert("model"@.len() != "kineticLaw"@.len());
    reveal_strlit("listOfLocalParameters");
    assert("sbml"@.len() != "listOfLocalParameters"@.len());
    assert("model"@.len() != "listOfLocalParameters"@.len());
    reveal_strlit("localParameter");
    assert("sbml"@.len() != "localParameter"@.len());
    assert("model"@.len() != "localParameter"@.len());
    reveal_strlit("math");
    assert("sbml"@[0] != "math"@[0]);
    assert("model"@.len() != "math"@.len());
    reveal_strlit("listOfFunctionDefinitions");
    assert("sbml"@.len() != "listOfFunctionDefinitions"@.len());
    assert("model"@.len() != "listOfFunctionDefinitions"@.len());
    reveal_strlit("functionDefinition");
    assert("sbml"@.len() != "functionDefinition"@.len());
    assert("model"@.len() != "functionDefinition"@.len());
    reveal_strlit("listOfInitialAssignments");
    assert("sbml"@.len() != "listOfInitialAssignments"@.len());
    assert("model"@.len() != "listOfInitialAssignments"@.len());
    reveal_strlit("initialAssignment");
    assert("sbml"@.len() != "initialAssignment"@.len());
    assert("model"@.len() != "initialAssignment"@.len());
    reveal_strlit("listOfRules");
    assert("sbml"@.len() != "listOfRules"@.len());
    assert("model"@.len() != "listOfRules"@.len());
    reveal_strlit("assignmentRule");
    assert("sbml"@.len() != "assignmentRule"@.len());
    assert("model"@.len() != "assignmentRule"@.len());
    reveal_strlit("rateRule");
    assert("sbml"@.len() != "rateRule"@.len());
    assert("model"@.len() != "rateRule"@.len());
}

proof fn lemma_named_not_root(name: Seq<char>)
    ensures
        kind_named(name) != Some(TagKind::Root),
{
}

proof fn lemma_attached_kind(p: Tag, q: Tag, child: TagKind, idx: usize)
    requires
        attached(p, q, child, idx),
    ensures
        q.kind_of() == p.kind_of(),
{
}

} // verus!
