//! Embedded mathematics: a fragment is a flat list of nodes whose links are
//! positions in the same list.
use vstd::prelude::*;

verus! {

/// An operator that can head an application.
#[derive(Debug, Clone, Copy, PartialEq, Eq, Structural)]
pub enum MathOp {
    Times,
    Divide,
    Minus,
    Plus,
    Power,
    Factorial,
    Eq,
    Neq,
    Gt,
    Lt,
    Geq,
    Leq,
    And,
    Or,
    Xor,
    Ceiling,
    Floor,
}

/// A named constant of the expression language.
#[derive(Debug, Clone, Copy, PartialEq, Eq, Structural)]
pub enum MathConstant {
    ImaginaryI,
    True,
    False,
    Pi,
    EulerGamma,
    Infinity,
}

/// The declared type of a numeric literal.
#[derive(Debug, Clone, Copy, PartialEq, Eq, Structural)]
pub enum NumKind {
    Real,
    Integer,
    Rational,
    ComplexCartesian,
    ComplexPolar,
    Constant,
    ENotation,
}

/// The value of a numeric literal. The library never computes with it: a real
/// part is carried as the 64-bit pattern of the binary number it stands for.
#[derive(Debug)]
pub enum Number {
    Real(u64),
    Integer(i32),
    Rational(i64, i64),
    ComplexCartesian(u64, u64),
    ComplexPolar(u64, u64),
    Constant(String),
    ENotation(u64, i64),
}

impl Clone for Number {
    fn clone(&self) -> (r: Self)
        ensures
            r == *self,
    {
        match self {
            Number::Real(a) => Number::Real(*a),
            Number::Integer(a) => Number::Integer(*a),
            Number::Rational(a, b) => Number::Rational(*a, *b),
            Number::ComplexCartesian(a, b) => Number::ComplexCartesian(*a, *b),
            Number::ComplexPolar(a, b) => Number::ComplexPolar(*a, *b),
            Number::Constant(s) => Number::Constant(s.clone()),
            Number::ENotation(a, b) => Number::ENotation(*a, *b),
        }
    }
}

/// One node of a fragment. Every index in it is a position in the same
/// fragment.
#[derive(Debug)]
pub enum MathNode {
    Apply { children: Vec<usize>, operator: Option<usize>, operands: Vec<usize>, parent: Option<usize> },
    Op { op: Option<MathOp>, parent: Option<usize> },
    Constant { constant: Option<MathConstant>, parent: Option<usize> },
    Root { children: Vec<usize>, parent: Option<usize> },
    Ci { name: Option<String>, parent: Option<usize> },
    Cn { num_type: Option<NumKind>, value: Option<Number>, parent: Option<usize> },
    Lambda { children: Vec<usize>, bindings: Vec<usize>, expr: Option<usize>, parent: Option<usize> },
    BVar { children: Vec<usize>, parent: Option<usize> },
    Piecewise { children: Vec<usize>, pieces: Vec<usize>, otherwise: Option<usize>, parent: Option<usize> },
    Piece { children: Vec<usize>, expr: Option<usize>, condition: Option<usize>, parent: Option<usize> },
    Otherwise { children: Vec<usize>, expr: Option<usize>, parent: Option<usize> },
}

/// The mathematical value of a `MathNode`: its lists of links as sequences.
pub enum MathNodeView {
    Apply { children: Seq<usize>, operator: Option<usize>, operands: Seq<usize>, parent: Option<usize> },
    Op { op: Option<MathOp>, parent: Option<usize> },
    Constant { constant: Option<MathConstant>, parent: Option<usize> },
    Root { children: Seq<usize>, parent: Option<usize> },
    Ci { name: Option<Seq<char>>, parent: Option<usize> },
    Cn { num_type: Option<NumKind>, value: Option<Number>, parent: Option<usize> },
    Lambda { children: Seq<usize>, bindings: Seq<usize>, expr: Option<usize>, parent: Option<usize> },
    BVar { children: Seq<usize>, parent: Option<usize> },
    Piecewise { children: Seq<usize>, pieces: Seq<usize>, otherwise: Option<usize>, parent: Option<usize> },
    Piece { children: Seq<usize>, expr: Option<usize>, condition: Option<usize>, parent: Option<usize> },
    Otherwise { children: Seq<usize>, expr: Option<usize>, parent: Option<usize> },
}

pub open spec fn name_view(name: Option<String>) -> Option<Seq<char>> {
    match name {
        Some(s) => Some(s@),
        None => None,
    }
}

impl View for MathNode {
    type V = MathNodeView;

    open spec fn view(&self) -> MathNodeView {
        match self {
            MathNode::Apply { children, operator, operands, parent } => MathNodeView::Apply {
                children: children@,
                operator: *operator,
                operands: operands@,
                parent: *parent,
            },
            MathNode::Op { op, parent } => MathNodeView::Op { op: *op, parent: *parent },
            MathNode::Constant { constant, parent } => MathNodeView::Constant {
                constant: *constant,
                parent: *parent,
            },
            MathNode::Root { children, parent } => MathNodeView::Root {
                children: children@,
                parent: *parent,
            },
            MathNode::Ci { name, parent } => MathNodeView::Ci {
                name: name_view(*name),
                parent: *parent,
            },
            MathNode::Cn { num_type, value, parent } => MathNodeView::Cn {
                num_type: *num_type,
                value: *value,
                parent: *parent,
            },
            MathNode::Lambda { children, bindings, expr, parent } => MathNodeView::Lambda {
                children: children@,
                bindings: bindings@,
                expr: *expr,
                parent: *parent,
            },
            MathNode::BVar { children, parent } => MathNodeView::BVar {
                children: children@,
                parent: *parent,
            },
            MathNode::Piecewise { children, pieces, otherwise, parent } => MathNodeView::Piecewise {
                children: children@,
                pieces: pieces@,
                otherwise: *otherwise,
                parent: *parent,
            },
            MathNode::Piece { children, expr, condition, parent } => MathNodeView::Piece {
                children: children@,
                expr: *expr,
                condition: *condition,
                parent: *parent,
            },
            MathNode::Otherwise { children, expr, parent } => MathNodeView::Otherwise {
                children: children@,
                expr: *expr,
                parent: *parent,
            },
        }
    }
}

/// The views of the nodes of a fragment, in order.
pub open spec fn fragment_view(nodes: Seq<MathNode>) -> Seq<MathNodeView> {
    nodes.map_values(|n: MathNode| n@)
}

fn copy_links(v: &Vec<usize>) -> (r: Vec<usize>)
    ensures
        r@ == v@,
{
    let mut r: Vec<usize> = Vec::new();
    let mut i: usize = 0;
    while i < v.len()
        invariant
            i <= v@.len(),
            r@ == v@.subrange(0, i as int),
        decreases v@.len() - i,
    {
        r.push(v[i]);
        i = i + 1;
    }
    assert(r@ =~= v@);
    r
}

impl Clone for MathNode {
    fn clone(&self) -> (r: Self)
        ensures
            r@ == self@,
    {
        match self {
            MathNode::Apply { children, operator, operands, parent } => MathNode::Apply {
                children: copy_links(children),
                operator: *operator,
                operands: copy_links(operands),
                parent: *parent,
            },
            MathNode::Op { op, parent } => MathNode::Op { op: *op, parent: *parent },
            MathNode::Constant { constant, parent } => MathNode::Constant {
                constant: *constant,
                parent: *parent,
            },
            MathNode::Root { children, parent } => MathNode::Root {
                children: copy_links(children),
                parent: *parent,
            },
            MathNode::Ci { name, parent } => MathNode::Ci { name: name.clone(), parent: *parent },
            MathNode::Cn { num_type, value, parent } => MathNode::Cn {
                num_type: *num_type,
                value: match value {
                    Some(v) => Some(v.clone()),
                    None => None,
                },
                parent: *parent,
            },
            MathNode::Lambda { children, bindings, expr, parent } => MathNode::Lambda {
                children: copy_links(children),
                bindings: copy_links(bindings),
                expr: *expr,
                parent: *parent,
            },
            MathNode::BVar { children, parent } => MathNode::BVar {
                children: copy_links(children),
                parent: *parent,
            },
            MathNode::Piecewise { children, pieces, otherwise, parent } => MathNode::Piecewise {
                children: copy_links(children),
                pieces: copy_links(pieces),
                otherwise: *otherwise,
                parent: *parent,
            },
            MathNode::Piece { children, expr, condition, parent } => MathNode::Piece {
                children: copy_links(children),
                expr: *expr,
                condition: *condition,
                parent: *parent,
            },
            MathNode::Otherwise { children, expr, parent } => MathNode::Otherwise {
                children: copy_links(children),
                expr: *expr,
                parent: *parent,
            },
        }
    }
}


pub open spec fn link_below(link: Option<usize>, bound: nat) -> bool {
    match link {
        Some(i) => i < bound,
        None => true,
    }
}

pub open spec fn links_below(links: Seq<usize>, bound: nat) -> bool {
    forall|i: int| 0 <= i < links.len() ==> #[trigger] links[i] < bound
}

/// Every link held by the node is a position below `bound`.
pub open spec fn node_within(v: MathNodeView, bound: nat) -> bool {
    match v {
        MathNodeView::Apply { children, operator, operands, parent } => links_below(children, bound)
            && link_below(operator, bound) && links_below(operands, bound) && link_below(parent, bound),
        MathNodeView::Op { parent, .. } => link_below(parent, bound),
        MathNodeView::Constant { parent, .. } => link_below(parent, bound),
        MathNodeView::Root { children, parent } => links_below(children, bound) && link_below(parent, bound),
        MathNodeView::Ci { parent, .. } => link_below(parent, bound),
        MathNodeView::Cn { parent, .. } => link_below(parent, bound),
        MathNodeView::Lambda { children, bindings, expr, parent } => links_below(children, bound)
            && links_below(bindings, bound) && link_below(expr, bound) && link_below(parent, bound),
        MathNodeView::BVar { children, parent } => links_below(children, bound) && link_below(parent, bound),
        MathNodeView::Piecewise { children, pieces, otherwise, parent } => links_below(children, bound)
            && links_below(pieces, bound) && link_below(otherwise, bound) && link_below(parent, bound),
        MathNodeView::Piece { children, expr, condition, parent } => links_below(children, bound)
            && link_below(expr, bound) && link_below(condition, bound) && link_below(parent, bound),
        MathNodeView::Otherwise { children, expr, parent } => links_below(children, bound)
            && link_below(expr, bound) && link_below(parent, bound),
    }
}

/// A well-formed fragment: position 0 holds the root, which has exactly one
/// child, and every link of every node resolves inside the fragment.
pub open spec fn fragment_ok(f: Seq<MathNodeView>) -> bool {
    &&& f.len() > 0
    &&& f[0] matches MathNodeView::Root { children, .. } && children.len() == 1
    &&& forall|i: int| 0 <= i < f.len() ==> node_within(#[trigger] f[i], f.len())
}

/// The position of the expression under the root of a well-formed fragment.
pub open spec fn head(f: Seq<MathNodeView>) -> usize {
    match f[0] {
        MathNodeView::Root { children, .. } => children[0],
        _ => 0,
    }
}

pub open spec fn moved_link(link: Option<usize>, k: usize) -> Option<usize> {
    match link {
        Some(i) => Some((i + k) as usize),
        None => None,
    }
}

pub open spec fn moved_links(links: Seq<usize>, k: usize) -> Seq<usize> {
    links.map_values(|i: usize| (i + k) as usize)
}

/// The node with every link moved up by `k`, but for a parent link to the
/// root (position 0), which becomes `top`.
pub open spec fn relocated(v: MathNodeView, k: usize, top: usize) -> MathNodeView {
    let p = |parent: Option<usize>|
        if parent == Some(0usize) {
            Some(top)
        } else {
            moved_link(parent, k)
        };
    match v {
        MathNodeView::Apply { children, operator, operands, parent } => MathNodeView::Apply {
            children: moved_links(children, k),
            operator: moved_link(operator, k),
            operands: moved_links(operands, k),
            parent: p(parent),
        },
        MathNodeView::Op { op, parent } => MathNodeView::Op { op, parent: p(parent) },
        MathNodeView::Constant { constant, parent } => MathNodeView::Constant {
            constant,
            parent: p(parent),
        },
        MathNodeView::Root { children, parent } => MathNodeView::Root {
            children: moved_links(children, k),
            parent: p(parent),
        },
        MathNodeView::Ci { name, parent } => MathNodeView::Ci { name, parent: p(parent) },
        MathNodeView::Cn { num_type, value, parent } => MathNodeView::Cn {
            num_type,
            value,
            parent: p(parent),
        },
        MathNodeView::Lambda { children, bindings, expr, parent } => MathNodeView::Lambda {
            children: moved_links(children, k),
            bindings: moved_links(bindings, k),
            expr: moved_link(expr, k),
            parent: p(parent),
        },
        MathNodeView::BVar { children, parent } => MathNodeView::BVar {
            children: moved_links(children, k),
            parent: p(parent),
        },
        MathNodeView::Piecewise { children, pieces, otherwise, parent } => MathNodeView::Piecewise {
            children: moved_links(children, k),
            pieces: moved_links(pieces, k),
            otherwise: moved_link(otherwise, k),
            parent: p(parent),
        },
        MathNodeView::Piece { children, expr, condition, parent } => MathNodeView::Piece {
            children: moved_links(children, k),
            expr: moved_link(expr, k),
            condition: moved_link(condition, k),
            parent: p(parent),
        },
        MathNodeView::Otherwise { children, expr, parent } => MathNodeView::Otherwise {
            children: moved_links(children, k),
            expr: moved_link(expr, k),
            parent: p(parent),
        },
    }
}

fn link_ok(link: Option<usize>, bound: usize) -> (r: bool)
    ensures
        r == link_below(link, bound as nat),
{
    match link {
        Some(i) => i < bound,
        None => true,
    }
}

fn links_ok(links: &Vec<usize>, bound: usize) -> (r: bool)
    ensures
        r == links_below(links@, bound as nat),
{
    let mut i: usize = 0;
    while i < links.len()
        invariant
            i <= links@.len(),
            forall|j: int| 0 <= j < i ==> #[trigger] links@[j] < bound,
        decreases links@.len() - i,
    {
        if links[i] >= bound {
            return false;
        }
        i = i + 1;
    }
    true
}

impl MathNode {
    /// Whether every link of the node is a position below `bound`.
    pub fn links_within(&self, bound: usize) -> (r: bool)
        ensures
            r == node_within(self@, bound as nat),
    {
        match self {
            MathNode::Apply { children, operator, operands, parent } => links_ok(children, bound)
                && link_ok(*operator, bound) && links_ok(operands, bound) && link_ok(*parent, bound),
            MathNode::Op { parent, .. } => link_ok(*parent, bound),
            MathNode::Constant { parent, .. } => link_ok(*parent, bound),
            MathNode::Root { children, parent } => links_ok(children, bound) && link_ok(*parent, bound),
            MathNode::Ci { parent, .. } => link_ok(*parent, bound),
            MathNode::Cn { parent, .. } => link_ok(*parent, bound),
            MathNode::Lambda { children, bindings, expr, parent } => links_ok(children, bound)
                && links_ok(bindings, bound) && link_ok(*expr, bound) && link_ok(*parent, bound),
            MathNode::BVar { children, parent } => links_ok(children, bound) && link_ok(*parent, bound),
            MathNode::Piecewise { children, pieces, otherwise, parent } => links_ok(children, bound)
                && links_ok(pieces, bound) && link_ok(*otherwise, bound) && link_ok(*parent, bound),
            MathNode::Piece { children, expr, condition, parent } => links_ok(children, bound)
                && link_ok(*expr, bound) && link_ok(*condition, bound) && link_ok(*parent, bound),
            MathNode::Otherwise { children, expr, parent } => links_ok(children, bound)
                && link_ok(*expr, bound) && link_ok(*parent, bound),
        }
    }

    /// A copy of the node with every link moved up by `k`; a parent link to
    /// the root becomes `top`.
    pub fn relocate(&self, k: usize, top: usize, bound: usize) -> (r: MathNode)
        requires
            node_within(self@, bound as nat),
            bound + k <= usize::MAX,
        ensures
            r@ == relocated(self@, k, top),
    {
        let p = if *self.parent_link() == Some(0usize) {
            Some(top)
        } else {
            move_link(*self.parent_link(), k, bound)
        };
        match self {
            MathNode::Apply { children, operator, operands, .. } => MathNode::Apply {
                children: move_links(children, k, bound),
                operator: move_link(*operator, k, bound),
                operands: move_links(operands, k, bound),
                parent: p,
            },
            MathNode::Op { op, .. } => MathNode::Op { op: *op, parent: p },
            MathNode::Constant { constant, .. } => MathNode::Constant { constant: *constant, parent: p },
            MathNode::Root { children, .. } => MathNode::Root {
                children: move_links(children, k, bound),
                parent: p,
            },
            MathNode::Ci { name, .. } => MathNode::Ci { name: name.clone(), parent: p },
            MathNode::Cn { num_type, value, .. } => MathNode::Cn {
                num_type: *num_type,
                value: match value {
                    Some(v) => Some(v.clone()),
                    None => None,
                },
                parent: p,
            },
            MathNode::Lambda { children, bindings, expr, .. } => MathNode::Lambda {
                children: move_links(children, k, bound),
                bindings: move_links(bindings, k, bound),
                expr: move_link(*expr, k, bound),
                parent: p,
            },
            MathNode::BVar { children, .. } => MathNode::BVar {
                children: move_links(children, k, bound),
                parent: p,
            },
            MathNode::Piecewise { children, pieces, otherwise, .. } => MathNode::Piecewise {
                children: move_links(children, k, bound),
                pieces: move_links(pieces, k, bound),
                otherwise: move_link(*otherwise, k, bound),
                parent: p,
            },
            MathNode::Piece { children, expr, condition, .. } => MathNode::Piece {
                children: move_links(children, k, bound),
                expr: move_link(*expr, k, bound),
                condition: move_link(*condition, k, bound),
                parent: p,
            },
            MathNode::Otherwise { children, expr, .. } => MathNode::Otherwise {
                children: move_links(children, k, bound),
                expr: move_link(*expr, k, bound),
                parent: p,
            },
        }
    }

    /// The node's parent link.
    pub fn parent_link(&self) -> (r: &Option<usize>)
        ensures
            *r == parent_of(self@),
    {
        match self {
            MathNode::Apply { parent, .. } => parent,
            MathNode::Op { parent, .. } => parent,
            MathNode::Constant { parent, .. } => parent,
            MathNode::Root { parent, .. } => parent,
            MathNode::Ci { parent, .. } => parent,
            MathNode::Cn { parent, .. } => parent,
            MathNode::Lambda { parent, .. } => parent,
            MathNode::BVar { parent, .. } => parent,
            MathNode::Piecewise { parent, .. } => parent,
            MathNode::Piece { parent, .. } => parent,
            MathNode::Otherwise { parent, .. } => parent,
        }
    }
}

pub open spec fn parent_of(v: MathNodeView) -> Option<usize> {
    match v {
        MathNodeView::Apply { parent, .. } => parent,
        MathNodeView::Op { parent, .. } => parent,
        MathNodeView::Constant { parent, .. } => parent,
        MathNodeView::Root { parent, .. } => parent,
        MathNodeView::Ci { parent, .. } => parent,
        MathNodeView::Cn { parent, .. } => parent,
        MathNodeView::Lambda { parent, .. } => parent,
        MathNodeView::BVar { parent, .. } => parent,
        MathNodeView::Piecewise { parent, .. } => parent,
        MathNodeView::Piece { parent, .. } => parent,
        MathNodeView::Otherwise { parent, .. } => parent,
    }
}

fn move_link(link: Option<usize>, k: usize, bound: usize) -> (r: Option<usize>)
    requires
        link_below(link, bound as nat),
        bound + k <= usize::MAX,
    ensures
        r == moved_link(link, k),
{
    match link {
        Some(i) => Some(i + k),
        None => None,
    }
}

fn move_links(links: &Vec<usize>, k: usize, bound: usize) -> (r: Vec<usize>)
    requires
        links_below(links@, bound as nat),
        bound + k <= usize::MAX,
    ensures
        r@ == moved_links(links@, k),
{
    let mut r: Vec<usize> = Vec::new();
    let mut i: usize = 0;
    while i < links.len()
        invariant
            i <= links@.len(),
            links_below(links@, bound as nat),
            bound + k <= usize::MAX,
            r@ == moved_links(links@.subrange(0, i as int), k),
        decreases links@.len() - i,
    {
        assert(links@[i as int] < bound);
        r.push(links[i] + k);
        i = i + 1;
        assert(links@.subrange(0, i as int) =~= links@.subrange(0, i - 1).push(links@[i - 1]));
        assert(r@ =~= moved_links(links@.subrange(0, i as int), k));
    }
    assert(links@.subrange(0, i as int) =~= links@);
    r
}

/// Whether the fragment is well formed (`fragment_ok`).
pub fn fragment_is_well_formed(nodes: &Vec<MathNode>) -> (r: bool)
    ensures
        r == fragment_ok(fragment_view(nodes@)),
{
    if nodes.len() == 0 {
        return false;
    }
    let root_ok = match &nodes[0] {
        MathNode::Root { children, .. } => children.len() == 1,
        _ => false,
    };
    if !root_ok {
        return false;
    }
    let mut i: usize = 0;
    while i < nodes.len()
        invariant
            i <= nodes@.len(),
            forall|j: int| 0 <= j < i ==> node_within(#[trigger] nodes@[j]@, nodes@.len() as nat),
        decreases nodes@.len() - i,
    {
        if !nodes[i].links_within(nodes.len()) {
            assert(!node_within(fragment_view(nodes@)[i as int], nodes@.len() as nat));
            return false;
        }
        i = i + 1;
    }
    assert(forall|j: int| 0 <= j < nodes@.len() ==> #[trigger] fragment_view(nodes@)[j] == nodes@[j]@);
    true
}


/// A fragment of mathematics held in the arena, with its owner.
#[derive(Debug)]
pub struct MathTag {
    pub nodes: Vec<MathNode>,
    pub parent: Option<usize>,
}

impl MathTag {
    /// The tag with its nodes replaced by `nodes`.
    pub fn with_nodes(self, nodes: Vec<MathNode>) -> (r: MathTag)
        ensures
            r.nodes == nodes,
            r.parent == self.parent,
    {
        MathTag { nodes, parent: self.parent }
    }

    /// The tag with its owner set to `parent`.
    pub fn with_parent(self, parent: usize) -> (r: MathTag)
        ensures
            r.nodes == self.nodes,
            r.parent == Some(parent),
    {
        MathTag { nodes: self.nodes, parent: Some(parent) }
    }
}

impl Default for MathTag {
    fn default() -> (r: MathTag)
        ensures
            r.nodes@.len() == 0,
            r.parent is None,
    {
        MathTag { nodes: Vec::new(), parent: None }
    }
}

impl Clone for MathTag {
    fn clone(&self) -> (r: Self)
        ensures
            fragment_view(r.nodes@) == fragment_view(self.nodes@),
            r.parent == self.parent,
    {
        let mut nodes: Vec<MathNode> = Vec::new();
        let mut i: usize = 0;
        while i < self.nodes.len()
            invariant
                i <= self.nodes@.len(),
                fragment_view(nodes@) == fragment_view(self.nodes@.subrange(0, i as int)),
            decreases self.nodes@.len() - i,
        {
            let ghost before = fragment_view(nodes@);
            nodes.push(self.nodes[i].clone());
            assert(fragment_view(nodes@) =~= before.push(self.nodes@[i as int]@));
            i = i + 1;
            assert(self.nodes@.subrange(0, i as int) =~= self.nodes@.subrange(0, i - 1).push(self.nodes@[i - 1]));
            assert(fragment_view(nodes@) =~= fragment_view(self.nodes@.subrange(0, i as int)));
        }
        assert(self.nodes@.subrange(0, i as int) =~= self.nodes@);
        MathTag { nodes, parent: self.parent }
    }
}

} // verus!
