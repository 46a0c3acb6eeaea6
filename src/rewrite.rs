//! Rewrites of single fragments: a species reference divided by its
//! compartment, and the product rule for the rate of a species amount.
use vstd::prelude::*;
use crate::math::{
    fragment_ok, fragment_view, head, link_below, links_below, moved_link, moved_links, name_view, node_within,
    parent_of, relocated, MathNode, MathNodeView, MathOp, MathTag,
};

verus! {

/// The pairs (species, compartment) as text.
pub open spec fn pairs_view(pairs: Seq<(String, String)>) -> Seq<(Seq<char>, Seq<char>)> {
    pairs.map_values(|p: (String, String)| (p.0@, p.1@))
}

/// The compartment paired with `name`; of several pairs for one name the last
/// one counts.
pub open spec fn compartment_of(pairs: Seq<(Seq<char>, Seq<char>)>, name: Seq<char>) -> Option<Seq<char>>
    decreases pairs.len(),
{
    if pairs.len() == 0 {
        None
    } else if pairs.last().0 == name {
        Some(pairs.last().1)
    } else {
        compartment_of(pairs.drop_last(), name)
    }
}

/// The fragment with the reference at `j` turned into `name / compartment`:
/// position `j` becomes a division whose operator and operands are appended.
pub open spec fn divided_at(f: Seq<MathNodeView>, j: int, name: Seq<char>, compartment: Seq<char>) -> Seq<MathNodeView> {
    let l = f.len() as usize;
    let ju = j as usize;
    f.update(j, MathNodeView::Apply {
        children: seq![l, (l + 1) as usize, (l + 2) as usize],
        operator: Some(l),
        operands: seq![(l + 1) as usize, (l + 2) as usize],
        parent: parent_of(f[j]),
    })
        .push(MathNodeView::Op { op: Some(MathOp::Divide), parent: Some(ju) })
        .push(MathNodeView::Ci { name: Some(name), parent: Some(ju) })
        .push(MathNodeView::Ci { name: Some(compartment), parent: Some(ju) })
}

/// The compartment by which the node at `j` is to be divided, if it is a
/// reference to a paired species.
pub open spec fn divisor_at(f: Seq<MathNodeView>, pairs: Seq<(Seq<char>, Seq<char>)>, j: int) -> Option<Seq<char>> {
    match f[j] {
        MathNodeView::Ci { name: Some(n), .. } => compartment_of(pairs, n),
        _ => None,
    }
}

/// The first `k` nodes of `f` rewritten in order.
pub open spec fn amounts_upto(f: Seq<MathNodeView>, pairs: Seq<(Seq<char>, Seq<char>)>, k: nat) -> Seq<MathNodeView>
    decreases k,
{
    if k == 0 {
        f
    } else {
        let g = amounts_upto(f, pairs, (k - 1) as nat);
        let j = k - 1;
        match divisor_at(g, pairs, j) {
            Some(c) => divided_at(g, j, g[j]->Ci_name->0, c),
            None => g,
        }
    }
}

/// Every reference to a paired species in the original nodes of `f`
/// replaced by `species / compartment`.
pub open spec fn to_amounts(f: Seq<MathNodeView>, pairs: Seq<(Seq<char>, Seq<char>)>) -> Seq<MathNodeView> {
    amounts_upto(f, pairs, f.len())
}

/// How many of the first `k` nodes of `f` refer to a paired species.
pub open spec fn paired_refs(f: Seq<MathNodeView>, pairs: Seq<(Seq<char>, Seq<char>)>, k: nat) -> nat
    decreases k,
{
    if k == 0 {
        0
    } else {
        paired_refs(f, pairs, (k - 1) as nat) + if divisor_at(f, pairs, k - 1) is Some {
            1nat
        } else {
            0nat
        }
    }
}

/// Rewriting the first `k` nodes leaves the nodes from `k` on in place, and
/// adds three nodes for each paired reference among the first `k`.
pub proof fn lemma_amounts_upto(f: Seq<MathNodeView>, pairs: Seq<(Seq<char>, Seq<char>)>, k: nat)
    requires
        k <= f.len(),
    ensures
        amounts_upto(f, pairs, k).len() == f.len() + 3 * paired_refs(f, pairs, k),
        forall|i: int| k <= i < f.len() ==> #[trigger] amounts_upto(f, pairs, k)[i] == f[i],
    decreases k,
{
    if k > 0 {
        lemma_amounts_upto(f, pairs, (k - 1) as nat);
    }
}

/// The rewrite adds exactly three nodes for each reference to a paired
/// species, and leaves a fragment without such references as it was.
pub proof fn lemma_to_amounts_len(f: Seq<MathNodeView>, pairs: Seq<(Seq<char>, Seq<char>)>)
    ensures
        to_amounts(f, pairs).len() == f.len() + 3 * paired_refs(f, pairs, f.len()),
        paired_refs(f, pairs, f.len()) == 0 ==> to_amounts(f, pairs) == f,
{
    lemma_amounts_upto(f, pairs, f.len());
    if paired_refs(f, pairs, f.len()) == 0 {
        lemma_no_refs_unchanged(f, pairs, f.len());
    }
}

proof fn lemma_no_refs_unchanged(f: Seq<MathNodeView>, pairs: Seq<(Seq<char>, Seq<char>)>, k: nat)
    requires
        k <= f.len(),
        paired_refs(f, pairs, k) == 0,
    ensures
        amounts_upto(f, pairs, k) == f,
    decreases k,
{
    if k > 0 {
        lemma_no_refs_unchanged(f, pairs, (k - 1) as nat);
    }
}

/// The rewrite keeps a fragment well formed.
pub proof fn lemma_to_amounts_well_formed(f: Seq<MathNodeView>, pairs: Seq<(Seq<char>, Seq<char>)>)
    requires
        fragment_ok(f),
    ensures
        fragment_ok(to_amounts(f, pairs)),
{
    lemma_amounts_upto_within(f, pairs, f.len());
}

proof fn lemma_within_grows(v: MathNodeView, a: nat, b: nat)
    requires
        node_within(v, a),
        a <= b,
    ensures
        node_within(v, b),
{
}

proof fn lemma_amounts_upto_within(f: Seq<MathNodeView>, pairs: Seq<(Seq<char>, Seq<char>)>, k: nat)
    requires
        fragment_ok(f),
        k <= f.len(),
    ensures
        fragment_ok(amounts_upto(f, pairs, k)),
    decreases k,
{
    if k > 0 {
        lemma_amounts_upto_within(f, pairs, (k - 1) as nat);
        lemma_amounts_upto(f, pairs, (k - 1) as nat);
        let g = amounts_upto(f, pairs, (k - 1) as nat);
        let j = k - 1;
        if let Some(c) = divisor_at(g, pairs, j) {
            let h = divided_at(g, j, g[j]->Ci_name->0, c);
            assert(j > 0);
            assert forall|i: int| 0 <= i < h.len() implies node_within(#[trigger] h[i], h.len()) by {
                if i < g.len() && i != j {
                    lemma_within_grows(g[i], g.len() as nat, h.len() as nat);
                }
            }
        }
    }
}

pub(crate) fn compartment_for(pairs: &Vec<(String, String)>, name: &String) -> (r: Option<String>)
    ensures
        name_view(r) == compartment_of(pairs_view(pairs@), name@),
{
    let mut i: usize = pairs.len();
    assert(pairs@.subrange(0, i as int) =~= pairs@);
    while i > 0
        invariant
            i <= pairs@.len(),
            compartment_of(pairs_view(pairs@), name@) == compartment_of(pairs_view(pairs@.subrange(0, i as int)), name@),
        decreases i,
    {
        let ghost pv = pairs_view(pairs@.subrange(0, i as int));
        assert(pv.drop_last() =~= pairs_view(pairs@.subrange(0, i - 1)));
        if pairs[i - 1].0 == *name {
            return Some(pairs[i - 1].1.clone());
        }
        i = i - 1;
    }
    None
}

/// Rewrites, in place, every reference in the fragment to a species of
/// `pairs` into `species / compartment`: the reference's position becomes a
/// division node, and its operator and two operands are appended.
pub fn divide_by_compartments(nodes: &mut Vec<MathNode>, pairs: &Vec<(String, String)>)
    requires
        4 * old(nodes)@.len() <= usize::MAX,
    ensures
        fragment_view(final(nodes)@) == to_amounts(fragment_view(old(nodes)@), pairs_view(pairs@)),
{
    let ghost f = fragment_view(nodes@);
    let ghost pv = pairs_view(pairs@);
    let n = nodes.len();
    let mut j: usize = 0;
    proof {
        lemma_amounts_upto(f, pv, 0);
    }
    while j < n
        invariant
            n == f.len(),
            pv == pairs_view(pairs@),
            4 * n <= usize::MAX,
            j <= n,
            fragment_view(nodes@) == amounts_upto(f, pv, j as nat),
            nodes@.len() == n + 3 * paired_refs(f, pv, j as nat),
            paired_refs(f, pv, j as nat) <= j,
        decreases n - j,
    {
        proof {
            lemma_amounts_upto(f, pv, j as nat);
            lemma_amounts_upto(f, pv, (j + 1) as nat);
        }
        let ghost g = fragment_view(nodes@);
        assert(g[j as int] == nodes@[j as int]@);
        let mut found: Option<(String, String, Option<usize>)> = None;
        if let MathNode::Ci { name: Some(nm), parent } = &nodes[j] {
            let c = compartment_for(pairs, nm);
            assert(g[j as int] == (MathNodeView::Ci { name: Some(nm@), parent: *parent }));
            if let Some(c) = c {
                found = Some((nm.clone(), c, *parent));
            }
        }
        match found {
            Some((species, compartment, parent)) => {
                let l = nodes.len();
                nodes.set(j, MathNode::Apply {
                    children: vec![l, l + 1, l + 2],
                    operator: Some(l),
                    operands: vec![l + 1, l + 2],
                    parent,
                });
                nodes.push(MathNode::Op { op: Some(MathOp::Divide), parent: Some(j) });
                nodes.push(MathNode::Ci { name: Some(species), parent: Some(j) });
                nodes.push(MathNode::Ci { name: Some(compartment), parent: Some(j) });
                proof {
                    let h = divided_at(g, j as int, g[j as int]->Ci_name->0, compartment@);
                    assert(fragment_view(nodes@) =~= h);
                }
            },
            None => {},
        }
        j = j + 1;
    }
}


/// The nodes of `f` after its root, each relocated by `k`; those that hung
/// from the root hang from `top`.
pub open spec fn body(f: Seq<MathNodeView>, k: usize, top: usize) -> Seq<MathNodeView> {
    f.drop_first().map_values(|v: MathNodeView| relocated(v, k, top))
}

pub open spec fn root_of(child: usize) -> MathNodeView {
    MathNodeView::Root { children: seq![child], parent: None }
}

pub open spec fn binary(op: usize, left: usize, right: usize, parent: usize) -> MathNodeView {
    MathNodeView::Apply { children: seq![op, left, right], operator: Some(op), operands: seq![left, right], parent: Some(parent) }
}

pub open spec fn operator(op: MathOp, parent: usize) -> MathNodeView {
    MathNodeView::Op { op: Some(op), parent: Some(parent) }
}

pub open spec fn symbol(name: Seq<char>, parent: usize) -> MathNodeView {
    MathNodeView::Ci { name: Some(name), parent: Some(parent) }
}

/// `c * e`, where `e` is the expression of `fs`.
pub open spec fn scaled_rate(c: Seq<char>, fs: Seq<MathNodeView>) -> Seq<MathNodeView> {
    seq![
        root_of(1),
        binary(2, 3, (head(fs) + 3) as usize, 0),
        operator(MathOp::Times, 1),
        symbol(c, 1),
    ] + body(fs, 3, 1)
}

/// `c * e + (s / c) * d`, where `e` is the expression of `fs` and `d` that
/// of `fc`.
pub open spec fn product_rule_rate(s: Seq<char>, c: Seq<char>, fs: Seq<MathNodeView>, fc: Seq<MathNodeView>) -> Seq<MathNodeView> {
    let a = (fs.len() - 1) as usize;
    seq![
        root_of(1),
        binary(2, 3, (a + 6) as usize, 0),
        operator(MathOp::Plus, 1),
        binary(4, 5, (head(fs) + 5) as usize, 1),
        operator(MathOp::Times, 3),
        symbol(c, 3),
    ] + body(fs, 5, 3) + seq![
        binary((a + 7) as usize, (a + 8) as usize, (head(fc) + a + 11) as usize, 1),
        operator(MathOp::Times, (a + 6) as usize),
        binary((a + 9) as usize, (a + 10) as usize, (a + 11) as usize, (a + 6) as usize),
        operator(MathOp::Divide, (a + 8) as usize),
        symbol(s, (a + 8) as usize),
        symbol(c, (a + 8) as usize),
    ] + body(fc, (a + 11) as usize, (a + 6) as usize)
}

/// The rate of the amount of species `s` in compartment `c`, from the rate
/// `fs` of its concentration and, when the compartment changes, the rate `fc`
/// of its size.
pub open spec fn amount_rate(s: Seq<char>, c: Seq<char>, fs: Seq<MathNodeView>, fc: Option<Seq<MathNodeView>>) -> Seq<MathNodeView> {
    match fc {
        None => scaled_rate(c, fs),
        Some(fc) => product_rule_rate(s, c, fs, fc),
    }
}

proof fn lemma_moved_links_below(links: Seq<usize>, k: usize, bound: nat)
    requires
        links_below(links, bound),
        bound + k <= usize::MAX,
    ensures
        links_below(moved_links(links, k), (bound + k) as nat),
{
    assert forall|i: int| 0 <= i < moved_links(links, k).len() implies #[trigger] moved_links(links, k)[i] < bound + k by {
        assert(links[i] < bound);
    }
}

/// A relocated node keeps its links inside the relocated fragment.
pub proof fn lemma_relocated_within(v: MathNodeView, k: usize, top: usize, bound: nat)
    requires
        node_within(v, bound),
        top < bound + k,
        bound + k <= usize::MAX,
    ensures
        node_within(relocated(v, k, top), (bound + k) as nat),
{
    match v {
        MathNodeView::Apply { children, operands, .. } => {
            lemma_moved_links_below(children, k, bound);
            lemma_moved_links_below(operands, k, bound);
        },
        MathNodeView::Root { children, .. } => {
            lemma_moved_links_below(children, k, bound);
        },
        MathNodeView::Lambda { children, bindings, .. } => {
            lemma_moved_links_below(children, k, bound);
            lemma_moved_links_below(bindings, k, bound);
        },
        MathNodeView::BVar { children, .. } => {
            lemma_moved_links_below(children, k, bound);
        },
        MathNodeView::Piecewise { children, pieces, .. } => {
            lemma_moved_links_below(children, k, bound);
            lemma_moved_links_below(pieces, k, bound);
        },
        MathNodeView::Piece { children, .. } => {
            lemma_moved_links_below(children, k, bound);
        },
        MathNodeView::Otherwise { children, .. } => {
            lemma_moved_links_below(children, k, bound);
        },
        _ => {},
    }
}

proof fn lemma_body_within(f: Seq<MathNodeView>, k: usize, top: usize, bound: nat)
    requires
        fragment_ok(f),
        top < f.len() + k,
        f.len() + k <= bound,
        bound <= usize::MAX,
    ensures
        forall|i: int| 0 <= i < body(f, k, top).len() ==> node_within(#[trigger] body(f, k, top)[i], bound),
{
    assert forall|i: int| 0 <= i < body(f, k, top).len() implies node_within(#[trigger] body(f, k, top)[i], bound) by {
        assert(node_within(f[i + 1], f.len() as nat));
        lemma_relocated_within(f[i + 1], k, top, f.len() as nat);
        lemma_within_grows(relocated(f[i + 1], k, top), (f.len() + k) as nat, bound);
    }
}

/// The rewritten rate is a well-formed fragment.
pub proof fn lemma_amount_rate_well_formed(s: Seq<char>, c: Seq<char>, fs: Seq<MathNodeView>, fc: Option<Seq<MathNodeView>>)
    requires
        fragment_ok(fs),
        fc matches Some(g) ==> fragment_ok(g),
        fs.len() + match fc {
            Some(g) => g.len(),
            None => 0,
        } + 12 <= usize::MAX,
    ensures
        fragment_ok(amount_rate(s, c, fs, fc)),
{
    let r = amount_rate(s, c, fs, fc);
    assert(node_within(fs[0], fs.len() as nat));
    match fc {
        None => {
            lemma_body_within(fs, 3, 1, r.len() as nat);
            assert forall|i: int| 0 <= i < r.len() implies node_within(#[trigger] r[i], r.len() as nat) by {
                if i >= 4 {
                    assert(r[i] == body(fs, 3, 1)[i - 4]);
                }
            }
        },
        Some(g) => {
            let a = (fs.len() - 1) as usize;
            assert(node_within(g[0], g.len() as nat));
            lemma_body_within(fs, 5, 3, r.len() as nat);
            lemma_body_within(g, (a + 11) as usize, (a + 6) as usize, r.len() as nat);
            assert forall|i: int| 0 <= i < r.len() implies node_within(#[trigger] r[i], r.len() as nat) by {
                if 6 <= i < a + 6 {
                    assert(r[i] == body(fs, 5, 3)[i - 6]);
                } else if i >= a + 12 {
                    assert(r[i] == body(g, (a + 11) as usize, (a + 6) as usize)[i - a - 12]);
                }
            }
        },
    }
}

/// Appends the nodes of `f` after its root, relocated to follow `out`; those
/// that hung from the root of `f` now hang from `top`.
fn append_body(out: &mut Vec<MathNode>, f: &Vec<MathNode>, top: usize)
    requires
        old(out)@.len() >= 1,
        fragment_ok(fragment_view(f@)),
        old(out)@.len() + f@.len() <= usize::MAX,
    ensures
        fragment_view(final(out)@) == fragment_view(old(out)@) + body(fragment_view(f@), (old(out)@.len() - 1) as usize, top),
{
    let ghost start = fragment_view(out@);
    let ghost fv = fragment_view(f@);
    let k = out.len() - 1;
    let mut i: usize = 1;
    while i < f.len()
        invariant
            1 <= i <= f@.len(),
            fv == fragment_view(f@),
            fragment_ok(fv),
            k + f@.len() <= usize::MAX,
            fragment_view(out@) == start + fv.subrange(1, i as int).map_values(|v: MathNodeView| relocated(v, k, top)),
        decreases f@.len() - i,
    {
        assert(node_within(fv[i as int], fv.len() as nat));
        assert(fv[i as int] == f@[i as int]@);
        let node = f[i].relocate(k, top, f.len());
        let ghost before = fragment_view(out@);
        out.push(node);
        assert(fragment_view(out@) =~= before.push(node@));
        i = i + 1;
        assert(fv.subrange(1, i as int) =~= fv.subrange(1, i - 1).push(fv[i - 1]));
        assert(fragment_view(out@) =~= start + fv.subrange(1, i as int).map_values(|v: MathNodeView| relocated(v, k, top)));
    }
    assert(fv.subrange(1, i as int) =~= fv.drop_first());
}

fn root_node(child: usize) -> (r: MathNode)
    ensures
        r@ == root_of(child),
{
    let mut children: Vec<usize> = Vec::new();
    children.push(child);
    let r = MathNode::Root { children, parent: None };
    assert(r@ =~= root_of(child));
    r
}

fn binary_node(op: usize, left: usize, right: usize, parent: usize) -> (r: MathNode)
    ensures
        r@ == binary(op, left, right, parent),
{
    let r = MathNode::Apply { children: vec![op, left, right], operator: Some(op), operands: vec![left, right], parent: Some(parent) };
    assert(r@ =~= binary(op, left, right, parent));
    r
}

fn root_child(f: &Vec<MathNode>) -> (r: usize)
    requires
        fragment_ok(fragment_view(f@)),
    ensures
        r == head(fragment_view(f@)),
        r < f@.len(),
{
    let ghost fv = fragment_view(f@);
    assert(fv[0] == f@[0]@);
    assert(node_within(fv[0], fv.len() as nat));
    match &f[0] {
        MathNode::Root { children, .. } => children[0],
        _ => 0,
    }
}

/// The rate rule of species `species_id` rewritten from concentration to
/// amount: `C * e` where the compartment `C` has no rate rule, and
/// `C * e + (S / C) * d` where `d` is the rate of `C`. The result is a
/// fragment of its own, with no owner yet.
pub fn transform_species_rate_rule(
    species_id: &String,
    species_rate_rule: &MathTag,
    compartment_id: &String,
    compartment_rate_rule: Option<&MathTag>,
) -> (r: MathTag)
    requires
        fragment_ok(fragment_view(species_rate_rule.nodes@)),
        compartment_rate_rule matches Some(c) ==> fragment_ok(fragment_view(c.nodes@)),
        species_rate_rule.nodes@.len() + match compartment_rate_rule {
            Some(c) => c.nodes@.len(),
            None => 0,
        } + 12 <= usize::MAX,
    ensures
        fragment_view(r.nodes@) == amount_rate(
            species_id@,
            compartment_id@,
            fragment_view(species_rate_rule.nodes@),
            match compartment_rate_rule {
                Some(c) => Some(fragment_view(c.nodes@)),
                None => None,
            },
        ),
        r.parent is None,
{
    let fs = &species_rate_rule.nodes;
    let ghost fsv = fragment_view(fs@);
    let hs = root_child(fs);
    let mut out: Vec<MathNode> = Vec::new();
    match compartment_rate_rule {
        None => {
            out.push(root_node(1));
            out.push(binary_node(2, 3, hs + 3, 0));
            out.push(MathNode::Op { op: Some(MathOp::Times), parent: Some(1) });
            out.push(MathNode::Ci { name: Some(compartment_id.clone()), parent: Some(1) });
            append_body(&mut out, fs, 1);
            assert(fragment_view(out@) =~= scaled_rate(compartment_id@, fsv));
        },
        Some(c) => {
            let fc = &c.nodes;
            let hc = root_child(fc);
            let a = fs.len() - 1;
            out.push(root_node(1));
            out.push(binary_node(2, 3, a + 6, 0));
            out.push(MathNode::Op { op: Some(MathOp::Plus), parent: Some(1) });
            out.push(binary_node(4, 5, hs + 5, 1));
            out.push(MathNode::Op { op: Some(MathOp::Times), parent: Some(3) });
            out.push(MathNode::Ci { name: Some(compartment_id.clone()), parent: Some(3) });
            let ghost part1 = fragment_view(out@);
            assert(part1 =~= seq![
                root_of(1),
                binary(2, 3, (a + 6) as usize, 0),
                operator(MathOp::Plus, 1),
                binary(4, 5, (head(fsv) + 5) as usize, 1),
                operator(MathOp::Times, 3),
                symbol(compartment_id@, 3),
            ]);
            append_body(&mut out, fs, 3);
            assert(fragment_view(out@).len() == out@.len());
            assert(out@.len() == a + 6);
            out.push(binary_node(a + 7, a + 8, hc + a + 11, 1));
            out.push(MathNode::Op { op: Some(MathOp::Times), parent: Some(a + 6) });
            out.push(binary_node(a + 9, a + 10, a + 11, a + 6));
            out.push(MathNode::Op { op: Some(MathOp::Divide), parent: Some(a + 8) });
            out.push(MathNode::Ci { name: Some(species_id.clone()), parent: Some(a + 8) });
            out.push(MathNode::Ci { name: Some(compartment_id.clone()), parent: Some(a + 8) });
            let ghost part3 = fragment_view(out@);
            assert(part3 =~= part1 + body(fsv, 5, 3) + seq![
                binary((a + 7) as usize, (a + 8) as usize, (head(fragment_view(fc@)) + a + 11) as usize, 1),
                operator(MathOp::Times, (a + 6) as usize),
                binary((a + 9) as usize, (a + 10) as usize, (a + 11) as usize, (a + 6) as usize),
                operator(MathOp::Divide, (a + 8) as usize),
                symbol(species_id@, (a + 8) as usize),
                symbol(compartment_id@, (a + 8) as usize),
            ]);
            assert(fragment_view(out@).len() == out@.len());
            assert(out@.len() == a + 12);
            append_body(&mut out, fc, a + 6);
            assert(fragment_view(out@) =~= product_rule_rate(species_id@, compartment_id@, fsv, fragment_view(fc@)));
        },
    }
    MathTag { nodes: out, parent: None }
}

} // verus!
