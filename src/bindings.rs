//! Where the starting value of each compartment, species and parameter comes
//! from. The numbers themselves are computed by the caller from the text
//! written in the document.
use vstd::prelude::*;
use crate::math::name_view;
use crate::model::{sized_compartment, Model};
use crate::tag::{Compartment, Parameter, Species, Tag};

verus! {

/// The source of a starting value.
#[derive(Debug)]
pub enum InitialValue {
    /// A number as written: a compartment's size, a species' concentration,
    /// a parameter's value.
    Declared(String),
    /// A species' amount as written, to be divided by its compartment's size
    /// as written.
    AmountPerSize { amount: String, size: String },
}

/// The mathematical value of an `InitialValue`.
pub enum InitialValueView {
    Declared(Seq<char>),
    AmountPerSize(Seq<char>, Seq<char>),
}

impl View for InitialValue {
    type V = InitialValueView;

    open spec fn view(&self) -> InitialValueView {
        match self {
            InitialValue::Declared(s) => InitialValueView::Declared(s@),
            InitialValue::AmountPerSize { amount, size } => InitialValueView::AmountPerSize(amount@, size@),
        }
    }
}

/// Why the starting values cannot be resolved.
#[derive(Debug)]
pub enum BindingError {
    /// The species declares both an initial amount and an initial
    /// concentration.
    AmountAndConcentration(String),
    /// The species declares an amount, but no compartment of the document
    /// with its compartment's id declares a size.
    NoCompartmentSize(String),
}

pub open spec fn binding_view(v: Seq<(String, InitialValue)>) -> Seq<(Seq<char>, InitialValueView)> {
    v.map_values(|p: (String, InitialValue)| (p.0@, p.1@))
}

/// The sizes of the compartments that declare an id and a size.
pub open spec fn compartment_values(cs: Seq<Compartment>) -> Seq<(Seq<char>, InitialValueView)>
    decreases cs.len(),
{
    if cs.len() == 0 {
        Seq::empty()
    } else {
        let r = compartment_values(cs.drop_last());
        match (cs.last().id, cs.last().size) {
            (Some(id), Some(size)) => r.push((id@, InitialValueView::Declared(size@))),
            _ => r,
        }
    }
}

/// The values of the parameters that declare an id and a value.
pub open spec fn parameter_values_of(ps: Seq<Parameter>) -> Seq<(Seq<char>, InitialValueView)>
    decreases ps.len(),
{
    if ps.len() == 0 {
        Seq::empty()
    } else {
        let r = parameter_values_of(ps.drop_last());
        match (ps.last().id, ps.last().value) {
            (Some(id), Some(v)) => r.push((id@, InitialValueView::Declared(v@))),
            _ => r,
        }
    }
}

/// What a species with an id contributes: its concentration; or its amount
/// per the size of its compartment; or nothing where it declares neither.
/// `Err(true)`: both declared; `Err(false)`: an amount with no compartment
/// size.
pub open spec fn species_value(s: Species, cs: Seq<Compartment>) -> Result<Option<InitialValueView>, bool> {
    match (s.initial_amount, s.initial_concentration) {
        (Some(_), Some(_)) => Err(true),
        (None, Some(c)) => Ok(Some(InitialValueView::Declared(c@))),
        (Some(a), None) => match sized_compartment(cs, name_view(s.compartment)) {
            Some(size) => Ok(Some(InitialValueView::AmountPerSize(a@, size))),
            None => Err(false),
        },
        (None, None) => Ok(None),
    }
}

/// The values of the species that declare an id, in document order, or the
/// position of the first that fails and how.
pub open spec fn species_values(sp: Seq<Species>, cs: Seq<Compartment>) -> Result<Seq<(Seq<char>, InitialValueView)>, (int, bool)>
    decreases sp.len(),
{
    if sp.len() == 0 {
        Ok(Seq::empty())
    } else {
        match species_values(sp.drop_last(), cs) {
            Err(e) => Err(e),
            Ok(r) => match sp.last().id {
                None => Ok(r),
                Some(id) => match species_value(sp.last(), cs) {
                    Err(both) => Err((sp.len() - 1, both)),
                    Ok(None) => Ok(r),
                    Ok(Some(v)) => Ok(r.push((id@, v))),
                },
            },
        }
    }
}

impl Model {
    /// The document's parameters, as `parameters` returns them.
    pub open spec fn parameters_spec(&self) -> Seq<Parameter> {
        self.parameters_positions().map_values(|i: usize| self.nodes@[i as int]->Parameter_0)
    }

    /// The source of the starting value of each compartment, species and
    /// parameter with an id, in that order and each in document order: a
    /// compartment's size; a species' concentration, or its amount per its
    /// compartment's size; a parameter's value. Initial assignments are then
    /// to be evaluated in document order over these.
    pub fn initial_values(&self) -> (r: Result<Vec<(String, InitialValue)>, BindingError>)
        ensures
            match species_values(self.species_spec(), self.compartments_spec()) {
                Ok(sv) => r is Ok && binding_view(r->Ok_0@) == compartment_values(self.compartments_spec()) + sv
                    + parameter_values_of(self.parameters_spec()),
                Err((k, both)) => r matches Err(e) && match e {
                    BindingError::AmountAndConcentration(s) => both && self.species_spec()[k].id == Some(s),
                    BindingError::NoCompartmentSize(s) => !both && self.species_spec()[k].id == Some(s),
                },
            },
    {
        let cs = self.compartments();
        let sp = self.species();
        let ps = self.parameters();
        let ghost csv = self.compartments_spec();
        let ghost spv = self.species_spec();
        let ghost psv = self.parameters_spec();
        assert(cs@ =~= csv) by {
            assert forall|j: int| 0 <= j < cs@.len() implies cs@[j] == csv[j] by {
                assert(self.nodes@[self.compartments_positions()[j] as int] == Tag::Compartment(cs@[j]));
            }
        }
        assert(sp@ =~= spv) by {
            assert forall|j: int| 0 <= j < sp@.len() implies sp@[j] == spv[j] by {
                assert(self.nodes@[self.species_positions()[j] as int] == Tag::Species(sp@[j]));
            }
        }
        assert(ps@ =~= psv) by {
            assert forall|j: int| 0 <= j < ps@.len() implies ps@[j] == psv[j] by {
                assert(self.nodes@[self.parameters_positions()[j] as int] == Tag::Parameter(ps@[j]));
            }
        }
        let mut r: Vec<(String, InitialValue)> = Vec::new();
        let mut i: usize = 0;
        while i < cs.len()
            invariant
                i <= cs@.len(),
                binding_view(r@) == compartment_values(cs@.subrange(0, i as int)),
            decreases cs@.len() - i,
        {
            if let (Some(id), Some(size)) = (&cs[i].id, &cs[i].size) {
                r.push((id.clone(), InitialValue::Declared(size.clone())));
            }
            i = i + 1;
            assert(cs@.subrange(0, i as int).drop_last() =~= cs@.subrange(0, i - 1));
            assert(binding_view(r@) =~= compartment_values(cs@.subrange(0, i as int)));
        }
        assert(cs@.subrange(0, i as int) =~= cs@);
        let ghost base = binding_view(r@);
        let mut j: usize = 0;
        while j < sp.len()
            invariant
                j <= sp@.len(),
                sp@ == spv,
                spv == self.species_spec(),
                cs@ == csv,
                csv == self.compartments_spec(),
                species_values(sp@.subrange(0, j as int), csv) is Ok,
                binding_view(r@) == base + species_values(sp@.subrange(0, j as int), csv)->Ok_0,
            decreases sp@.len() - j,
        {
            let s = &sp[j];
            let ghost pre = sp@.subrange(0, j as int);
            let ghost sub = sp@.subrange(0, j + 1);
            let ghost before = binding_view(r@);
            assert(sub.drop_last() =~= pre);
            assert(sub.last() == *s);
            assert(sub.len() - 1 == j);
            if let Some(id) = &s.id {
                match (&s.initial_amount, &s.initial_concentration) {
                    (Some(_), Some(_)) => {
                        proof {
                            assert(species_values(sub, csv) == Err::<Seq<(Seq<char>, InitialValueView)>, (int, bool)>((j as int, true)));
                            lemma_species_values_stop(sp@, csv, j as int + 1);
                        }
                        return Err(BindingError::AmountAndConcentration(id.clone()));
                    },
                    (None, Some(c)) => {
                        r.push((id.clone(), InitialValue::Declared(c.clone())));
                        assert(binding_view(r@) =~= before.push((id@, InitialValueView::Declared(c@))));
                    },
                    (Some(a), None) => match s.compartment_size(self) {
                        Ok(size) => {
                            let ghost sv = size@;
                            r.push((id.clone(), InitialValue::AmountPerSize { amount: a.clone(), size }));
                            assert(binding_view(r@) =~= before.push((id@, InitialValueView::AmountPerSize(a@, sv))));
                        },
                        Err(_) => {
                            proof {
                                assert(species_values(sub, csv) == Err::<Seq<(Seq<char>, InitialValueView)>, (int, bool)>((j as int, false)));
                                lemma_species_values_stop(sp@, csv, j as int + 1);
                            }
                            return Err(BindingError::NoCompartmentSize(id.clone()));
                        },
                    },
                    (None, None) => {},
                }
            }
            j = j + 1;
            assert(sp@.subrange(0, j as int) == sub);
            assert(binding_view(r@) =~= base + species_values(sp@.subrange(0, j as int), csv)->Ok_0);
        }
        assert(sp@.subrange(0, j as int) =~= sp@);
        let ghost mid = binding_view(r@);
        let mut k: usize = 0;
        while k < ps.len()
            invariant
                k <= ps@.len(),
                binding_view(r@) == mid + parameter_values_of(ps@.subrange(0, k as int)),
            decreases ps@.len() - k,
        {
            let ghost before = binding_view(r@);
            let ghost sub = ps@.subrange(0, k + 1);
            assert(sub.drop_last() =~= ps@.subrange(0, k as int));
            assert(sub.last() == ps@[k as int]);
            if let (Some(id), Some(v)) = (&ps[k].id, &ps[k].value) {
                r.push((id.clone(), InitialValue::Declared(v.clone())));
                assert(binding_view(r@) =~= before.push((id@, InitialValueView::Declared(v@))));
            }
            k = k + 1;
            assert(ps@.subrange(0, k as int).drop_last() =~= ps@.subrange(0, k - 1));
            assert(binding_view(r@) =~= mid + parameter_values_of(ps@.subrange(0, k as int)));
        }
        assert(ps@.subrange(0, k as int) =~= ps@);
        Ok(r)
    }
}

/// A failure among the first `n` species is the result for all of them.
proof fn lemma_species_values_stop(sp: Seq<Species>, cs: Seq<Compartment>, n: int)
    requires
        0 < n <= sp.len(),
        species_values(sp.subrange(0, n), cs) is Err,
    ensures
        species_values(sp, cs) == species_values(sp.subrange(0, n), cs),
    decreases sp.len() - n,
{
    if n < sp.len() {
        assert(sp.subrange(0, n + 1).drop_last() =~= sp.subrange(0, n));
        lemma_species_values_stop(sp, cs, n + 1);
    } else {
        assert(sp.subrange(0, n) =~= sp);
    }
}

} // verus!
