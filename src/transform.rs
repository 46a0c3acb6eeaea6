//! The two whole-document passes: every reference to a species tracked by
//! concentration becomes `species / compartment`, and the rate rule of such a
//! species becomes the rate of its amount.
use vstd::prelude::*;
use crate::math::{name_view, fragment_is_well_formed, fragment_ok, fragment_view, MathNodeView, MathTag};
use crate::model::{fragment_at, lemma_of_kind, linked_members, of_kind, resolved, root_link, Model};
use crate::rewrite::{
    amount_rate, compartment_of, divide_by_compartments, pairs_view, to_amounts, transform_species_rate_rule,
};
use crate::tag::{kinds_kept, lemma_kinds_kept_along, RateRule, Species, Tag, TagKind};

verus! {

/// Why a pass could not be applied.
#[derive(Debug)]
pub enum TransformError {
    /// A fragment too large for its rewrite to be indexed.
    FragmentTooLarge,
    /// A rate rule whose fragment, or that of its compartment, is not well
    /// formed.
    MalformedMath,
    /// A rate rule on a species tracked by concentration that declares no
    /// compartment.
    SpeciesWithoutCompartment(String),
}

/// The pairs (species, compartment) of the species tracked by concentration,
/// that is, whose `hasOnlySubstanceUnits` is declared false, and which declare
/// an id and a compartment.
pub open spec fn concentration_pairs(sp: Seq<Species>) -> Seq<(Seq<char>, Seq<char>)>
    decreases sp.len(),
{
    if sp.len() == 0 {
        Seq::empty()
    } else {
        let r = concentration_pairs(sp.drop_last());
        let s = sp.last();
        match (s.id, s.compartment) {
            (Some(id), Some(c)) => if s.has_only_substance_units == Some(false) {
                r.push((id@, c@))
            } else {
                r
            },
            _ => r,
        }
    }
}

/// The same header as `b`.
pub open spec fn same_header(a: Model, b: Model) -> bool {
    &&& a.id == b.id
    &&& a.name == b.name
    &&& a.meta_id == b.meta_id
    &&& a.substance_units == b.substance_units
    &&& a.time_units == b.time_units
    &&& a.volume_units == b.volume_units
    &&& a.area_units == b.area_units
    &&& a.length_units == b.length_units
    &&& a.extent_units == b.extent_units
    &&& a.conversion_factor == b.conversion_factor
}

impl Model {
    /// The document's species, as `species` returns them.
    pub open spec fn species_spec(&self) -> Seq<Species> {
        self.species_positions().map_values(|i: usize| self.nodes@[i as int]->Species_0)
    }
}

fn species_list(model: &Model) -> (r: Vec<Species>)
    ensures
        r@ == model.species_spec(),
{
    let r = model.species();
    assert forall|j: int| 0 <= j < r@.len() implies r@[j] == model.species_spec()[j] by {
        assert(model.nodes@[model.species_positions()[j] as int] == Tag::Species(r@[j]));
    }
    assert(r@ =~= model.species_spec());
    r
}

fn concentration_pairs_of(model: &Model) -> (r: Vec<(String, String)>)
    ensures
        pairs_view(r@) == concentration_pairs(model.species_spec()),
{
    let sp = species_list(model);
    let mut r: Vec<(String, String)> = Vec::new();
    let mut i: usize = 0;
    while i < sp.len()
        invariant
            i <= sp@.len(),
            pairs_view(r@) == concentration_pairs(sp@.subrange(0, i as int)),
        decreases sp@.len() - i,
    {
        let s = &sp[i];
        if let (Some(id), Some(c)) = (&s.id, &s.compartment) {
            if s.has_only_substance_units == Some(false) {
                r.push((id.clone(), c.clone()));
            }
        }
        i = i + 1;
        assert(sp@.subrange(0, i as int).drop_last() =~= sp@.subrange(0, i - 1));
        assert(pairs_view(r@) =~= concentration_pairs(sp@.subrange(0, i as int)));
    }
    assert(sp@.subrange(0, i as int) =~= sp@);
    r
}

/// The node after the first pass: a fragment with every reference to a paired
/// species divided by its compartment; any other node as it was.
pub open spec fn converted(old: Tag, new: Tag, pairs: Seq<(Seq<char>, Seq<char>)>) -> bool {
    match old {
        Tag::MathTag(t) => (new matches Tag::MathTag(u) && fragment_view(u.nodes@) == to_amounts(fragment_view(t.nodes@), pairs)
            && u.parent == t.parent),
        _ => new == old,
    }
}

/// Whether every fragment is small enough for the first pass.
pub open spec fn fragments_fit(nodes: Seq<Tag>) -> bool {
    forall|i: int| 0 <= i < nodes.len() ==> (#[trigger] nodes[i] is MathTag ==> 4 * nodes[i]->MathTag_0.nodes@.len() <= usize::MAX)
}

fn convert_node(t: &mut Tag, pairs: &Vec<(String, String)>) -> (r: bool)
    ensures
        r == (*old(t) is MathTag ==> 4 * old(t)->MathTag_0.nodes@.len() <= usize::MAX),
        r ==> converted(*old(t), *final(t), pairs_view(pairs@)),
        !r ==> *final(t) == *old(t),
{
    match t {
        Tag::MathTag(m) => {
            if m.nodes.len() > usize::MAX / 4 {
                return false;
            }
            divide_by_compartments(&mut m.nodes, pairs);
            true
        },
        _ => true,
    }
}

/// Converts every species tracked by concentration to its amount: in every
/// fragment of the document, each reference to such a species `S` in
/// compartment `C` becomes `S / C` (`to_amounts`). Nodes keep their
/// positions. Running the pass twice divides twice.
pub fn convert_species_to_amounts(model: Model) -> (r: Result<Model, TransformError>)
    ensures
        r is Ok <==> fragments_fit(model.nodes@),
        r matches Err(e) ==> e is FragmentTooLarge,
        r matches Ok(m) ==> {
            &&& same_header(m, model)
            &&& kinds_kept(model.nodes@, m.nodes@)
            &&& m.nodes@.len() == model.nodes@.len()
            &&& forall|i: int| 0 <= i < m.nodes@.len() ==> converted(
                #[trigger] model.nodes@[i],
                m.nodes@[i],
                pairs_view_of(model),
            )
        },
{
    let pairs = concentration_pairs_of(&model);
    let ghost given = model;
    let mut m = model;
    let n = m.nodes.len();
    let mut i: usize = 0;
    while i < n
        invariant
            n == given.nodes@.len(),
            given == model,
            n == m.nodes@.len(),
            i <= n,
            same_header(m, given),
            pairs_view(pairs@) == pairs_view_of(given),
            forall|j: int| 0 <= j < i ==> converted(#[trigger] given.nodes@[j], m.nodes@[j], pairs_view(pairs@)),
            forall|j: int| i <= j < n ==> #[trigger] m.nodes@[j] == given.nodes@[j],
            forall|j: int| 0 <= j < i ==> (#[trigger] given.nodes@[j] is MathTag ==> 4 * given.nodes@[j]->MathTag_0.nodes@.len() <= usize::MAX),
        decreases n - i,
    {
        let ghost cur = m.nodes@[i as int];
        if !convert_node(&mut m.nodes[i], &pairs) {
            assert(cur == given.nodes@[i as int]);
            assert(!(given.nodes@[i as int] is MathTag ==> 4 * given.nodes@[i as int]->MathTag_0.nodes@.len() <= usize::MAX));
            return Err(TransformError::FragmentTooLarge);
        }
        i = i + 1;
    }
    proof {
        assert forall|j: int| 0 <= j < given.nodes@.len() implies #[trigger] m.nodes@[j].kind_of() == given.nodes@[j].kind_of() by {
            assert(converted(given.nodes@[j], m.nodes@[j], pairs_view(pairs@)));
        }
    }
    Ok(m)
}

/// The pairs (species, compartment) of the species tracked by concentration.
pub open spec fn pairs_view_of(m: Model) -> Seq<(Seq<char>, Seq<char>)> {
    concentration_pairs(m.species_spec())
}

/// The ids of the species tracked by concentration, with or without a
/// compartment.
pub open spec fn concentration_ids(sp: Seq<Species>) -> Seq<Seq<char>>
    decreases sp.len(),
{
    if sp.len() == 0 {
        Seq::empty()
    } else {
        let r = concentration_ids(sp.drop_last());
        let s = sp.last();
        match s.id {
            Some(id) => if s.has_only_substance_units == Some(false) {
                r.push(id@)
            } else {
                r
            },
            None => r,
        }
    }
}

pub open spec fn texts(v: Seq<String>) -> Seq<Seq<char>> {
    v.map_values(|s: String| s@)
}

fn concentration_ids_of(model: &Model) -> (r: Vec<String>)
    ensures
        texts(r@) == concentration_ids(model.species_spec()),
{
    let sp = species_list(model);
    let mut r: Vec<String> = Vec::new();
    let mut i: usize = 0;
    while i < sp.len()
        invariant
            i <= sp@.len(),
            texts(r@) == concentration_ids(sp@.subrange(0, i as int)),
        decreases sp@.len() - i,
    {
        let s = &sp[i];
        if let Some(id) = &s.id {
            if s.has_only_substance_units == Some(false) {
                r.push(id.clone());
            }
        }
        i = i + 1;
        assert(sp@.subrange(0, i as int).drop_last() =~= sp@.subrange(0, i - 1));
        assert(texts(r@) =~= concentration_ids(sp@.subrange(0, i as int)));
    }
    assert(sp@.subrange(0, i as int) =~= sp@);
    r
}

fn contains_text(v: &Vec<String>, s: &String) -> (r: bool)
    ensures
        r == texts(v@).contains(s@),
{
    let mut i: usize = 0;
    while i < v.len()
        invariant
            i <= v@.len(),
            forall|j: int| 0 <= j < i ==> v@[j]@ != s@,
        decreases v@.len() - i,
    {
        if v[i] == *s {
            assert(texts(v@)[i as int] == s@);
            return true;
        }
        i = i + 1;
    }
    assert(!texts(v@).contains(s@)) by {
        if texts(v@).contains(s@) {
            let j = choose|j: int| 0 <= j < texts(v@).len() && texts(v@)[j] == s@;
            assert(v@[j]@ == s@);
        }
    }
    false
}

/// The fragment of the rate rule at `p`, if `p` holds a rate rule whose
/// variable is `c` and whose fragment resolves.
pub open spec fn rate_of_at(nodes: Seq<Tag>, p: usize, c: Seq<char>) -> Option<Seq<MathNodeView>> {
    if p < nodes.len() && nodes[p as int] is RateRule && name_view(nodes[p as int]->RateRule_0.variable) == Some(c) {
        match fragment_at(nodes, nodes[p as int]->RateRule_0.math) {
            Some(f) => Some(fragment_view(f.nodes@)),
            None => None,
        }
    } else {
        None
    }
}

/// The fragment of the last of the rate rules at `rules` whose variable is
/// `c` and whose fragment resolves.
pub open spec fn last_rate_of(nodes: Seq<Tag>, rules: Seq<usize>, c: Seq<char>) -> Option<Seq<MathNodeView>>
    decreases rules.len(),
{
    if rules.len() == 0 {
        None
    } else {
        match rate_of_at(nodes, rules.last(), c) {
            Some(f) => Some(f),
            None => last_rate_of(nodes, rules.drop_last(), c),
        }
    }
}

/// The positions of the document's rate rules.
pub open spec fn rate_rule_positions(m: Model) -> Seq<usize> {
    m.rate_rules_positions()
}

/// The rate of the size of compartment `c`: that of its last rate rule,
/// unless `c` is itself the id of a species tracked by concentration.
pub open spec fn compartment_rate(m: Model, c: Seq<char>) -> Option<Seq<MathNodeView>> {
    if concentration_ids(m.species_spec()).contains(c) {
        None
    } else {
        last_rate_of(m.nodes@, rate_rule_positions(m), c)
    }
}

/// What the second pass does with the rate rule at `p`.
pub enum RateCase {
    /// Not the rule of a species tracked by concentration, or it has no
    /// fragment: left as it is.
    Keep,
    /// The species declares no compartment.
    NoCompartment(Seq<char>),
    /// A fragment involved is not well formed.
    Malformed,
    /// The rewritten fragment would be too large to index.
    TooLarge,
    /// The fragment at this position becomes this one.
    Replace(usize, Seq<MathNodeView>),
}

pub open spec fn rate_case(m: Model, p: usize) -> RateCase {
    let nodes = m.nodes@;
    let rr = nodes[p as int]->RateRule_0;
    match rr.variable {
        None => RateCase::Keep,
        Some(v) => if !concentration_ids(m.species_spec()).contains(v@) {
            RateCase::Keep
        } else {
            match fragment_at(nodes, rr.math) {
                None => RateCase::Keep,
                Some(f) => match compartment_of(pairs_view_of(m), v@) {
                    None => RateCase::NoCompartment(v@),
                    Some(c) => {
                        let fs = fragment_view(f.nodes@);
                        let fc = compartment_rate(m, c);
                        if !fragment_ok(fs) || (fc is Some && !fragment_ok(fc->0)) {
                            RateCase::Malformed
                        } else if fs.len() + (if fc is Some { fc->0.len() } else { 0 }) + 12 > usize::MAX {
                            RateCase::TooLarge
                        } else {
                            RateCase::Replace(rr.math->0, amount_rate(v@, c, fs, fc))
                        }
                    },
                },
            }
        },
    }
}

pub open spec fn fails(c: RateCase) -> bool {
    c is NoCompartment || c is Malformed || c is TooLarge
}

/// `e` is the error for case `c`.
pub open spec fn error_for(e: TransformError, c: RateCase) -> bool {
    match c {
        RateCase::NoCompartment(s) => e matches TransformError::SpeciesWithoutCompartment(t) && t@ == s,
        RateCase::Malformed => e is MalformedMath,
        RateCase::TooLarge => e is FragmentTooLarge,
        _ => false,
    }
}

/// The replacements of the first `k` rate rules, in order.
pub open spec fn replacements(m: Model, rules: Seq<usize>, k: nat) -> Seq<(usize, Seq<MathNodeView>)>
    decreases k,
{
    if k == 0 || k > rules.len() {
        Seq::empty()
    } else {
        let r = replacements(m, rules, (k - 1) as nat);
        match rate_case(m, rules[k - 1]) {
            RateCase::Replace(pos, f) => r.push((pos, f)),
            _ => r,
        }
    }
}

/// The last replacement at position `j`.
pub open spec fn last_at(us: Seq<(usize, Seq<MathNodeView>)>, j: usize) -> Option<Seq<MathNodeView>>
    decreases us.len(),
{
    if us.len() == 0 {
        None
    } else if us.last().0 == j {
        Some(us.last().1)
    } else {
        last_at(us.drop_last(), j)
    }
}

fn last_rate(model: &Model, rules: &Vec<usize>, c: &String) -> (r: Option<MathTag>)
    ensures
        match r {
            Some(t) => last_rate_of(model.nodes@, rules@, c@) == Some(fragment_view(t.nodes@)),
            None => last_rate_of(model.nodes@, rules@, c@) is None,
        },
{
    let mut i: usize = rules.len();
    assert(rules@.subrange(0, i as int) =~= rules@);
    while i > 0
        invariant
            i <= rules@.len(),
            last_rate_of(model.nodes@, rules@, c@) == last_rate_of(model.nodes@, rules@.subrange(0, i as int), c@),
        decreases i,
    {
        let ghost pre = rules@.subrange(0, i as int);
        assert(pre.drop_last() =~= rules@.subrange(0, i - 1));
        let p = rules[i - 1];
        if p < model.nodes.len() {
            if let Tag::RateRule(rr) = &model.nodes[p] {
                if let Some(v) = &rr.variable {
                    if *v == *c {
                        let f = model.fragment(rr.math);
                        if f.is_some() {
                            return f;
                        }
                    }
                }
            }
        }
        i = i - 1;
    }
    None
}

/// The second pass's work on the rate rule at `p`: `Ok(None)` to keep it,
/// `Ok(Some((pos, t)))` to put `t` at `pos`, or the error.
fn rate_case_of(
    model: &Model,
    p: usize,
    pairs: &Vec<(String, String)>,
    ids: &Vec<String>,
    rules: &Vec<usize>,
) -> (r: Result<Option<(usize, MathTag)>, TransformError>)
    requires
        p < model.nodes@.len(),
        model.nodes@[p as int] is RateRule,
        pairs_view(pairs@) == pairs_view_of(*model),
        texts(ids@) == concentration_ids(model.species_spec()),
        rules@ == rate_rule_positions(*model),
    ensures
        match r {
            Ok(None) => rate_case(*model, p) is Keep,
            Ok(Some((pos, t))) => rate_case(*model, p) == RateCase::Replace(pos, fragment_view(t.nodes@))
                && pos < model.nodes@.len() && model.nodes@[pos as int] is MathTag
                && t.parent == model.nodes@[pos as int]->MathTag_0.parent,
            Err(e) => fails(rate_case(*model, p)) && error_for(e, rate_case(*model, p)),
        },
{
    let rr = match &model.nodes[p] {
        Tag::RateRule(rr) => rr,
        _ => {
            return Ok(None);
        },
    };
    let v = match &rr.variable {
        Some(v) => v,
        None => {
            return Ok(None);
        },
    };
    if !contains_text(ids, v) {
        return Ok(None);
    }
    let f = match model.fragment(rr.math) {
        Some(f) => f,
        None => {
            return Ok(None);
        },
    };
    let c = match crate::rewrite::compartment_for(pairs, v) {
        Some(c) => c,
        None => {
            return Err(TransformError::SpeciesWithoutCompartment(v.clone()));
        },
    };
    let fc = if contains_text(ids, &c) {
        None
    } else {
        last_rate(model, rules, &c)
    };
    if !fragment_is_well_formed(&f.nodes) {
        return Err(TransformError::MalformedMath);
    }
    let extra: usize = match &fc {
        Some(t) => {
            if !fragment_is_well_formed(&t.nodes) {
                return Err(TransformError::MalformedMath);
            }
            t.nodes.len()
        },
        None => 0,
    };
    if f.nodes.len() > usize::MAX - 12 || extra > usize::MAX - 12 - f.nodes.len() {
        return Err(TransformError::FragmentTooLarge);
    }
    let t = transform_species_rate_rule(v, &f, &c, fc.as_ref());
    let pos = match rr.math {
        Some(pos) => pos,
        None => {
            return Ok(None);
        },
    };
    Ok(Some((pos, MathTag { nodes: t.nodes, parent: f.parent })))
}

/// The update list as pairs (position, fragment view).
pub open spec fn update_views(us: Seq<(usize, MathTag)>) -> Seq<(usize, Seq<MathNodeView>)> {
    us.map_values(|u: (usize, MathTag)| (u.0, fragment_view(u.1.nodes@)))
}

/// The node at `j` after the second pass: the last replacement made at `j`,
/// which keeps the fragment's owner, or the node as it was.
pub open spec fn rate_rewritten(old: Seq<Tag>, new: Seq<Tag>, us: Seq<(usize, Seq<MathNodeView>)>, j: int) -> bool {
    match last_at(us, j as usize) {
        Some(f) => new[j] matches Tag::MathTag(u) && fragment_view(u.nodes@) == f && old[j] is MathTag
            && u.parent == old[j]->MathTag_0.parent,
        None => new[j] == old[j],
    }
}

/// Rewrites the rate rule of every species tracked by concentration to the
/// rate of its amount (`amount_rate`): `C * e` where its compartment `C` has
/// no rate rule, `C * e + (S / C) * d` where `d` is the rate of `C`. All
/// rewrites are computed from the document as it was given; each replaces the
/// fragment of its rule in place. The first rule that cannot be rewritten
/// (`fails`) gives the error.
pub fn transform_species_rate_rules(model: Model) -> (r: Result<Model, TransformError>)
    ensures
        r is Err <==> exists|k: int| 0 <= k < rate_rule_positions(model).len() && fails(#[trigger] rate_case(model, rate_rule_positions(model)[k])),
        r matches Err(e) ==> exists|k: int| 0 <= k < rate_rule_positions(model).len()
            && (forall|j: int| 0 <= j < k ==> !fails(#[trigger] rate_case(model, rate_rule_positions(model)[j])))
            && error_for(e, rate_case(model, rate_rule_positions(model)[k])),
        r matches Ok(m) ==> {
            let us = replacements(model, rate_rule_positions(model), rate_rule_positions(model).len());
            &&& same_header(m, model)
            &&& kinds_kept(model.nodes@, m.nodes@)
            &&& m.nodes@.len() == model.nodes@.len()
            &&& forall|j: int| 0 <= j < m.nodes@.len() ==> #[trigger] rate_rewritten(model.nodes@, m.nodes@, us, j)
        },
{
    let pairs = concentration_pairs_of(&model);
    let ids = concentration_ids_of(&model);
    let link = model.top_link(TagKind::ListOfRules);
    let rules = model.members(link, TagKind::ListOfRules, TagKind::RateRule);
    proof {
        lemma_of_kind(model.nodes@, linked_members(model.nodes@, link, TagKind::ListOfRules, TagKind::RateRule), TagKind::RateRule);
    }
    let ghost rs = rules@;
    let mut updates: Vec<(usize, MathTag)> = Vec::new();
    let mut k: usize = 0;
    while k < rules.len()
        invariant
            rs == rules@,
            rs == rate_rule_positions(model),
            pairs_view(pairs@) == pairs_view_of(model),
            texts(ids@) == concentration_ids(model.species_spec()),
            forall|j: int| 0 <= j < rs.len() ==> #[trigger] rs[j] < model.nodes@.len() && model.nodes@[rs[j] as int].kind_of() == TagKind::RateRule,
            k <= rs.len(),
            forall|j: int| 0 <= j < k ==> !fails(#[trigger] rate_case(model, rs[j])),
            update_views(updates@) == replacements(model, rs, k as nat),
            forall|j: int| 0 <= j < updates@.len() ==> (#[trigger] updates@[j]).0 < model.nodes@.len()
                && model.nodes@[updates@[j].0 as int] is MathTag
                && updates@[j].1.parent == model.nodes@[updates@[j].0 as int]->MathTag_0.parent,
        decreases rs.len() - k,
    {
        let p = rules[k];
        match rate_case_of(&model, p, &pairs, &ids, &rules) {
            Err(e) => {
                return Err(e);
            },
            Ok(None) => {},
            Ok(Some(u)) => {
                updates.push(u);
            },
        }
        k = k + 1;
        assert(update_views(updates@) =~= replacements(model, rs, k as nat));
    }
    let ghost us = update_views(updates@);
    let ghost given = model;
    let mut m = model;
    let mut t: usize = 0;
    while t < updates.len()
        invariant
            given == model,
            us == update_views(updates@),
            t <= updates@.len(),
            same_header(m, given),
            m.nodes@.len() == given.nodes@.len(),
            forall|j: int| 0 <= j < updates@.len() ==> (#[trigger] updates@[j]).0 < given.nodes@.len()
                && given.nodes@[updates@[j].0 as int] is MathTag
                && updates@[j].1.parent == given.nodes@[updates@[j].0 as int]->MathTag_0.parent,
            forall|j: int| 0 <= j < m.nodes@.len() ==> #[trigger] rate_rewritten(given.nodes@, m.nodes@, us.subrange(0, t as int), j),
        decreases updates@.len() - t,
    {
        let pos = updates[t].0;
        let tag = updates[t].1.clone();
        let ghost before = m.nodes@;
        m.nodes.set(pos, Tag::MathTag(MathTag { nodes: tag.nodes, parent: updates[t].1.parent }));
        t = t + 1;
        let n = m.nodes.len();
        proof {
            let pre = us.subrange(0, t - 1);
            let now = us.subrange(0, t as int);
            assert(now.drop_last() =~= pre);
            assert(now.last() == us[t - 1]);
            assert(us[t - 1] == (pos, fragment_view(updates@[t - 1].1.nodes@)));
            assert forall|j: int| 0 <= j < m.nodes@.len() implies #[trigger] rate_rewritten(given.nodes@, m.nodes@, now, j) by {
                assert(rate_rewritten(given.nodes@, before, pre, j));
                if j == pos {
                    assert(last_at(now, j as usize) == Some(us[t - 1].1));
                } else {
                    assert(now.last().0 == pos);
                    assert(j < n);
                    assert(last_at(now, j as usize) == last_at(pre, j as usize));
                    assert(m.nodes@[j] == before[j]);
                }
            }
        }
    }
    proof {
        assert(us.subrange(0, t as int) =~= us);
        assert forall|j: int| 0 <= j < given.nodes@.len() implies #[trigger] m.nodes@[j].kind_of() == given.nodes@[j].kind_of() by {
            assert(rate_rewritten(given.nodes@, m.nodes@, us, j));
        }
    }
    Ok(m)
}

/// `a` is a result of the first pass on `model`.
pub open spec fn first_pass(model: Model, a: Model) -> bool {
    &&& same_header(a, model)
    &&& a.nodes@.len() == model.nodes@.len()
    &&& forall|i: int| 0 <= i < a.nodes@.len() ==> converted(#[trigger] model.nodes@[i], a.nodes@[i], pairs_view_of(model))
}

/// `y` is `x`, but that a fragment may be another copy of the same fragment.
pub open spec fn same_node(x: Tag, y: Tag) -> bool {
    match x {
        Tag::MathTag(t) => y is MathTag && fragment_view(y->MathTag_0.nodes@) == fragment_view(t.nodes@)
            && y->MathTag_0.parent == t.parent,
        _ => y == x,
    }
}

pub open spec fn alike(a: Seq<Tag>, b: Seq<Tag>) -> bool {
    a.len() == b.len() && forall|i: int| 0 <= i < a.len() ==> #[trigger] same_node(a[i], b[i])
}

proof fn lemma_first_pass_alike(model: Model, a: Model, b: Model)
    requires
        first_pass(model, a),
        first_pass(model, b),
    ensures
        alike(a.nodes@, b.nodes@),
{
    assert forall|i: int| 0 <= i < a.nodes@.len() implies #[trigger] same_node(a.nodes@[i], b.nodes@[i]) by {
        assert(converted(model.nodes@[i], a.nodes@[i], pairs_view_of(model)));
        assert(converted(model.nodes@[i], b.nodes@[i], pairs_view_of(model)));
    }
}

proof fn lemma_of_kind_alike(a: Seq<Tag>, b: Seq<Tag>, ids: Seq<usize>, k: TagKind)
    requires
        alike(a, b),
    ensures
        of_kind(a, ids, k) == of_kind(b, ids, k),
    decreases ids.len(),
{
    if ids.len() > 0 {
        lemma_of_kind_alike(a, b, ids.drop_last(), k);
        let i = ids.last();
        if i < a.len() {
            assert(same_node(a[i as int], b[i as int]));
        }
    }
}

proof fn lemma_resolved_alike(a: Seq<Tag>, b: Seq<Tag>, link: Option<usize>, c: TagKind, m: TagKind)
    requires
        alike(a, b),
    ensures
        resolved(a, link, c, m) == resolved(b, link, c, m),
{
    if let Some(i) = link {
        if i < a.len() {
            assert(same_node(a[i as int], b[i as int]));
        }
    }
    lemma_of_kind_alike(a, b, linked_members(a, link, c, m), m);
}

proof fn lemma_positions_alike(a: Model, b: Model)
    requires
        alike(a.nodes@, b.nodes@),
    ensures
        a.species_positions() == b.species_positions(),
        a.rate_rules_positions() == b.rate_rules_positions(),
        a.species_spec() == b.species_spec(),
{
    if a.nodes@.len() > 0 {
        assert(same_node(a.nodes@[0], b.nodes@[0]));
    }
    assert(root_link(a.nodes@, TagKind::ListOfSpecies) == root_link(b.nodes@, TagKind::ListOfSpecies));
    assert(root_link(a.nodes@, TagKind::ListOfRules) == root_link(b.nodes@, TagKind::ListOfRules));
    lemma_resolved_alike(a.nodes@, b.nodes@, root_link(a.nodes@, TagKind::ListOfSpecies), TagKind::ListOfSpecies, TagKind::Species);
    lemma_resolved_alike(a.nodes@, b.nodes@, root_link(a.nodes@, TagKind::ListOfRules), TagKind::ListOfRules, TagKind::RateRule);
    let ps = a.species_positions();
    lemma_of_kind(a.nodes@, linked_members(a.nodes@, root_link(a.nodes@, TagKind::ListOfSpecies), TagKind::ListOfSpecies, TagKind::Species), TagKind::Species);
    assert forall|j: int| 0 <= j < ps.len() implies a.species_spec()[j] == b.species_spec()[j] by {
        assert(same_node(a.nodes@[ps[j] as int], b.nodes@[ps[j] as int]));
    }
    assert(a.species_spec() =~= b.species_spec());
}

proof fn lemma_last_rate_alike(a: Seq<Tag>, b: Seq<Tag>, rules: Seq<usize>, c: Seq<char>)
    requires
        alike(a, b),
    ensures
        last_rate_of(a, rules, c) == last_rate_of(b, rules, c),
    decreases rules.len(),
{
    if rules.len() > 0 {
        lemma_last_rate_alike(a, b, rules.drop_last(), c);
        let p = rules.last();
        if p < a.len() {
            assert(same_node(a[p as int], b[p as int]));
            if a[p as int] is RateRule {
                if let Some(m) = a[p as int]->RateRule_0.math {
                    if m < a.len() {
                        assert(same_node(a[m as int], b[m as int]));
                    }
                }
            }
        }
    }
}

/// Two results of the first pass give the second pass the same work: the same
/// rate rules, each with the same case.
proof fn lemma_rate_cases_alike(a: Model, b: Model)
    requires
        alike(a.nodes@, b.nodes@),
    ensures
        rate_rule_positions(a) == rate_rule_positions(b),
        forall|k: int| 0 <= k < rate_rule_positions(a).len() ==> #[trigger] rate_case(a, rate_rule_positions(a)[k])
            == rate_case(b, rate_rule_positions(b)[k]),
{
    lemma_positions_alike(a, b);
    let rs = rate_rule_positions(a);
    lemma_of_kind(a.nodes@, linked_members(a.nodes@, root_link(a.nodes@, TagKind::ListOfRules), TagKind::ListOfRules, TagKind::RateRule), TagKind::RateRule);
    assert forall|k: int| 0 <= k < rs.len() implies #[trigger] rate_case(a, rs[k]) == rate_case(b, rs[k]) by {
        let p = rs[k];
        assert(same_node(a.nodes@[p as int], b.nodes@[p as int]));
        let rr = a.nodes@[p as int]->RateRule_0;
        if let Some(m) = rr.math {
            if m < a.nodes@.len() {
                assert(same_node(a.nodes@[m as int], b.nodes@[m as int]));
            }
        }
        assert forall|c: Seq<char>| #[trigger] compartment_rate(a, c) == compartment_rate(b, c) by {
            lemma_last_rate_alike(a.nodes@, b.nodes@, rs, c);
        }
    }
}

/// Both passes in order, each once: species to amounts, then their rate
/// rules on the whole result of the first. The first pass fails only on a
/// fragment too large for it. Otherwise, whatever result of the first pass
/// is taken, the second fails exactly when one of its rate rules does, with
/// the error of the first such rule; and on success the document is the
/// second pass's result on a result of the first.
pub fn transform(model: Model) -> (r: Result<Model, TransformError>)
    ensures
        !fragments_fit(model.nodes@) ==> (r matches Err(e) && e is FragmentTooLarge),
        fragments_fit(model.nodes@) ==> forall|a: Model| #[trigger] first_pass(model, a) ==> {
            &&& (r is Err <==> exists|k: int| 0 <= k < rate_rule_positions(a).len() && fails(#[trigger] rate_case(a, rate_rule_positions(a)[k])))
            &&& r matches Err(e) ==> exists|k: int| 0 <= k < rate_rule_positions(a).len()
                && (forall|j: int| 0 <= j < k ==> !fails(#[trigger] rate_case(a, rate_rule_positions(a)[j])))
                && error_for(e, rate_case(a, rate_rule_positions(a)[k]))
        },
        r matches Ok(m) ==> exists|a: Model| #[trigger] first_pass(model, a) && {
            let us = replacements(a, rate_rule_positions(a), rate_rule_positions(a).len());
            &&& same_header(m, a)
            &&& m.nodes@.len() == a.nodes@.len()
            &&& forall|j: int| 0 <= j < m.nodes@.len() ==> #[trigger] rate_rewritten(a.nodes@, m.nodes@, us, j)
        },
        r matches Ok(m) ==> kinds_kept(model.nodes@, m.nodes@),
{
    let a = match convert_species_to_amounts(model) {
        Err(e) => {
            return Err(e);
        },
        Ok(a) => a,
    };
    let ghost a0 = a;
    assert(first_pass(model, a0));
    let r = transform_species_rate_rules(a);
    proof {
        if r is Ok {
            lemma_kinds_kept_along(model.nodes@, a0.nodes@, r->Ok_0.nodes@);
        }
        assert forall|b: Model| #[trigger] first_pass(model, b) implies {
            &&& (r is Err <==> exists|k: int| 0 <= k < rate_rule_positions(b).len() && fails(#[trigger] rate_case(b, rate_rule_positions(b)[k])))
            &&& r matches Err(e) ==> exists|k: int| 0 <= k < rate_rule_positions(b).len()
                && (forall|j: int| 0 <= j < k ==> !fails(#[trigger] rate_case(b, rate_rule_positions(b)[j])))
                && error_for(e, rate_case(b, rate_rule_positions(b)[k]))
        } by {
            lemma_first_pass_alike(model, a0, b);
            lemma_rate_cases_alike(a0, b);
            let rs = rate_rule_positions(a0);
            if r is Err {
                let k = choose|k: int| 0 <= k < rs.len() && fails(#[trigger] rate_case(a0, rs[k]));
                assert(fails(rate_case(b, rate_rule_positions(b)[k])));
                let e = r->Err_0;
                let k2 = choose|k2: int| 0 <= k2 < rs.len()
                    && (forall|j: int| 0 <= j < k2 ==> !fails(#[trigger] rate_case(a0, rs[j])))
                    && error_for(e, rate_case(a0, rs[k2]));
                assert forall|j: int| 0 <= j < k2 implies !fails(#[trigger] rate_case(b, rate_rule_positions(b)[j])) by {
                    assert(rate_case(b, rate_rule_positions(b)[j]) == rate_case(a0, rs[j]));
                }
                assert(error_for(e, rate_case(b, rate_rule_positions(b)[k2])));
            } else {
                assert forall|k: int| 0 <= k < rate_rule_positions(b).len() implies !fails(#[trigger] rate_case(b, rate_rule_positions(b)[k])) by {
                    assert(rate_case(b, rate_rule_positions(b)[k]) == rate_case(a0, rs[k]));
                }
            }
        }
    }
    r
}

} // verus!
