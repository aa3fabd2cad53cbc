//! The four measurement kinds and the binding of their circuit parameters.
use vstd::prelude::*;

use crate::circuit::{circuit_substituted, circuits_substituted, substitute_circuits, Circuit};
use crate::error::QoqoError;
use crate::input::{BasisRotationInput, CheatedBasisRotationInput, CheatedInput};

verus! {

/// Expectation values of Pauli products measured in rotated bases from bit registers.
#[derive(Debug, Clone, PartialEq, Eq)]
pub struct BasisRotation<V> {
    pub constant_circuit: Option<Circuit<V>>,
    pub circuits: Vec<Circuit<V>>,
    pub input: BasisRotationInput<V>,
}

/// Expectation values of Pauli products read from pre-computed readouts.
#[derive(Debug, Clone, PartialEq, Eq)]
pub struct CheatedBasisRotation<V> {
    pub constant_circuit: Option<Circuit<V>>,
    pub circuits: Vec<Circuit<V>>,
    pub input: CheatedBasisRotationInput<V>,
}

/// Expectation values of operators read from state readouts.
#[derive(Debug, Clone, PartialEq, Eq)]
pub struct Cheated<V> {
    pub constant_circuit: Option<Circuit<V>>,
    pub circuits: Vec<Circuit<V>>,
    pub input: CheatedInput<V>,
}

/// A measurement whose result is the raw output registers themselves.
#[derive(Debug, Clone, PartialEq, Eq)]
pub struct ClassicalRegister<V> {
    pub constant_circuit: Option<Circuit<V>>,
    pub circuits: Vec<Circuit<V>>,
}

/// One measurement of any of the four kinds.
#[derive(Debug, Clone, PartialEq, Eq)]
pub enum Measurement<V> {
    BasisRotation(BasisRotation<V>),
    CheatedBasisRotation(CheatedBasisRotation<V>),
    Cheated(Cheated<V>),
    ClassicalRegister(ClassicalRegister<V>),
}

/// The kind of a measurement, as named by its tag.
#[derive(Debug, Clone, Copy, PartialEq, Eq)]
pub enum MeasurementKind {
    BasisRotation,
    CheatedBasisRotation,
    Cheated,
    ClassicalRegister,
}

/// The tag that names a measurement kind.
pub open spec fn kind_tag(kind: MeasurementKind) -> Seq<char> {
    match kind {
        MeasurementKind::BasisRotation => "BasisRotation"@,
        MeasurementKind::CheatedBasisRotation => "CheatedBasisRotation"@,
        MeasurementKind::Cheated => "Cheated"@,
        MeasurementKind::ClassicalRegister => "ClassicalRegister"@,
    }
}

/// Distinct kinds have distinct tags.
pub proof fn lemma_kind_tags_distinct(a: MeasurementKind, b: MeasurementKind)
    ensures
        kind_tag(a) == kind_tag(b) ==> a == b,
{
    reveal_strlit("BasisRotation");
    reveal_strlit("CheatedBasisRotation");
    reveal_strlit("Cheated");
    reveal_strlit("ClassicalRegister");
    if kind_tag(a) == kind_tag(b) && a != b {
        let (x, y) = (kind_tag(a), kind_tag(b));
        assert(x.len() == y.len());
        assert(x[7] == y[7]);
    }
}

impl MeasurementKind {
    /// The tag of this kind.
    pub fn tag(&self) -> (r: String)
        ensures
            r@ == kind_tag(*self),
    {
        match self {
            MeasurementKind::BasisRotation => String::from_str("BasisRotation"),
            MeasurementKind::CheatedBasisRotation => String::from_str("CheatedBasisRotation"),
            MeasurementKind::Cheated => String::from_str("Cheated"),
            MeasurementKind::ClassicalRegister => String::from_str("ClassicalRegister"),
        }
    }

    /// The kind that `tag` names; fails with `UnknownMeasurementKind` when it names none.
    pub fn from_tag(tag: &String) -> (r: Result<MeasurementKind, QoqoError>)
        ensures
            r matches Ok(k) ==> kind_tag(k) == tag@ && forall|j: MeasurementKind|
                kind_tag(j) == tag@ ==> j == k,
            r is Err ==> r == Err::<MeasurementKind, QoqoError>(QoqoError::UnknownMeasurementKind)
                && forall|k: MeasurementKind| kind_tag(k) != tag@,
    {
        let kinds = [
            MeasurementKind::BasisRotation,
            MeasurementKind::CheatedBasisRotation,
            MeasurementKind::Cheated,
            MeasurementKind::ClassicalRegister,
        ];
        let mut i: usize = 0;
        while i < 4
            invariant
                i <= 4,
                kinds@ == seq![
                    MeasurementKind::BasisRotation,
                    MeasurementKind::CheatedBasisRotation,
                    MeasurementKind::Cheated,
                    MeasurementKind::ClassicalRegister,
                ],
                forall|k: int| 0 <= k < i ==> kind_tag(#[trigger] kinds@[k]) != tag@,
            decreases 4 - i,
        {
            let kind = kinds[i];
            if kind.tag() == *tag {
                proof {
                    assert forall|j: MeasurementKind| kind_tag(j) == tag@ implies j == kind by {
                        lemma_kind_tags_distinct(j, kind);
                    }
                }
                return Ok(kind);
            }
            i = i + 1;
        }
        proof {
            assert forall|k: MeasurementKind| kind_tag(k) != tag@ by {
                match k {
                    MeasurementKind::BasisRotation => assert(kinds@[0] == k),
                    MeasurementKind::CheatedBasisRotation => assert(kinds@[1] == k),
                    MeasurementKind::Cheated => assert(kinds@[2] == k),
                    MeasurementKind::ClassicalRegister => assert(kinds@[3] == k),
                }
            }
        }
        Err(QoqoError::UnknownMeasurementKind)
    }
}

/// `new` is the optional constant circuit `old` with parameters bound.
pub open spec fn constant_substituted<V>(
    new: Option<Circuit<V>>,
    old: Option<Circuit<V>>,
    bindings: Seq<(String, V)>,
) -> bool {
    match (new, old) {
        (Some(n), Some(o)) => circuit_substituted(n, o, bindings),
        (None, None) => true,
        _ => false,
    }
}

fn substitute_constant<V: Copy>(c: &Option<Circuit<V>>, bindings: &Vec<(String, V)>) -> (r: Option<Circuit<V>>)
    ensures
        constant_substituted(r, *c, bindings@),
{
    match c {
        Some(circuit) => Some(circuit.substitute_parameters(bindings)),
        None => None,
    }
}

impl<V: Copy> Measurement<V> {
    /// The kind of this measurement.
    pub open spec fn spec_kind(&self) -> MeasurementKind {
        match self {
            Measurement::BasisRotation(_) => MeasurementKind::BasisRotation,
            Measurement::CheatedBasisRotation(_) => MeasurementKind::CheatedBasisRotation,
            Measurement::Cheated(_) => MeasurementKind::Cheated,
            Measurement::ClassicalRegister(_) => MeasurementKind::ClassicalRegister,
        }
    }

    /// The kind of this measurement.
    pub fn kind(&self) -> (r: MeasurementKind)
        ensures
            r == self.spec_kind(),
    {
        match self {
            Measurement::BasisRotation(_) => MeasurementKind::BasisRotation,
            Measurement::CheatedBasisRotation(_) => MeasurementKind::CheatedBasisRotation,
            Measurement::Cheated(_) => MeasurementKind::Cheated,
            Measurement::ClassicalRegister(_) => MeasurementKind::ClassicalRegister,
        }
    }

    /// The constant circuit, if any.
    pub open spec fn spec_constant_circuit(&self) -> Option<Circuit<V>> {
        match self {
            Measurement::BasisRotation(m) => m.constant_circuit,
            Measurement::CheatedBasisRotation(m) => m.constant_circuit,
            Measurement::Cheated(m) => m.constant_circuit,
            Measurement::ClassicalRegister(m) => m.constant_circuit,
        }
    }

    /// The circuits run after the constant circuit.
    pub open spec fn spec_circuits(&self) -> Seq<Circuit<V>> {
        match self {
            Measurement::BasisRotation(m) => m.circuits@,
            Measurement::CheatedBasisRotation(m) => m.circuits@,
            Measurement::Cheated(m) => m.circuits@,
            Measurement::ClassicalRegister(m) => m.circuits@,
        }
    }

    /// `new` is `old` with the parameters of its circuits bound: same kind,
    /// same input, every circuit substituted.
    pub open spec fn is_substitution_of(new: Self, old: Self, bindings: Seq<(String, V)>) -> bool {
        &&& constant_substituted(new.spec_constant_circuit(), old.spec_constant_circuit(), bindings)
        &&& circuits_substituted(new.spec_circuits(), old.spec_circuits(), bindings)
        &&& match (new, old) {
            (Measurement::BasisRotation(n), Measurement::BasisRotation(o)) => n.input == o.input,
            (Measurement::CheatedBasisRotation(n), Measurement::CheatedBasisRotation(o)) => n.input
                == o.input,
            (Measurement::Cheated(n), Measurement::Cheated(o)) => n.input == o.input,
            (Measurement::ClassicalRegister(_), Measurement::ClassicalRegister(_)) => true,
            _ => false,
        }
    }

    /// The measurement with every circuit parameter bound by `bindings` replaced by
    /// its value; symbols without a binding stay, and the input is kept as it is.
    pub fn substitute_parameters(self, bindings: &Vec<(String, V)>) -> (r: Measurement<V>)
        ensures
            Self::is_substitution_of(r, self, bindings@),
    {
        match self {
            Measurement::BasisRotation(m) => Measurement::BasisRotation(
                BasisRotation {
                    constant_circuit: substitute_constant(&m.constant_circuit, bindings),
                    circuits: substitute_circuits(&m.circuits, bindings),
                    input: m.input,
                },
            ),
            Measurement::CheatedBasisRotation(m) => Measurement::CheatedBasisRotation(
                CheatedBasisRotation {
                    constant_circuit: substitute_constant(&m.constant_circuit, bindings),
                    circuits: substitute_circuits(&m.circuits, bindings),
                    input: m.input,
                },
            ),
            Measurement::Cheated(m) => Measurement::Cheated(
                Cheated {
                    constant_circuit: substitute_constant(&m.constant_circuit, bindings),
                    circuits: substitute_circuits(&m.circuits, bindings),
                    input: m.input,
                },
            ),
            Measurement::ClassicalRegister(m) => Measurement::ClassicalRegister(
                ClassicalRegister {
                    constant_circuit: substitute_constant(&m.constant_circuit, bindings),
                    circuits: substitute_circuits(&m.circuits, bindings),
                },
            ),
        }
    }
}

} // verus!
