//! Measurement inputs: which Pauli products to measure and how to combine them.
use vstd::prelude::*;

use crate::error::QoqoError;
use crate::formula::{check_formula_variables, formula_declared};

verus! {

/// A Pauli product: the parity of the listed qubits in the named readout register.
#[derive(Debug, Clone, PartialEq, Eq)]
pub struct PauliProductMask {
    pub readout: String,
    pub qubits: Vec<usize>,
}

/// A named linear combination of Pauli products: pairs of product index and coefficient.
#[derive(Debug, Clone, PartialEq, Eq)]
pub struct LinearExpVal<V> {
    pub name: String,
    pub terms: Vec<(usize, V)>,
}

/// A named formula over the variables `pauli_product_<index>`.
#[derive(Debug, Clone, PartialEq, Eq)]
pub struct SymbolicExpVal {
    pub name: String,
    pub formula: String,
}

/// Input of a basis-rotation measurement: Pauli products read from bit registers
/// and the expectation values computed from them.
///
/// A product's index is its position in `pauli_products`.
#[derive(Debug, Clone, PartialEq, Eq)]
pub struct BasisRotationInput<V> {
    pub number_qubits: usize,
    pub use_flipped_measurement: bool,
    pub pauli_products: Vec<PauliProductMask>,
    pub linear_exp_vals: Vec<LinearExpVal<V>>,
    pub symbolic_exp_vals: Vec<SymbolicExpVal>,
}

/// Input of a cheated basis-rotation measurement: each Pauli product is read
/// directly from a readout register of pre-computed values.
///
/// A product's index is its position in `pauli_product_readouts`.
#[derive(Debug, Clone, PartialEq, Eq)]
pub struct CheatedBasisRotationInput<V> {
    pub pauli_product_readouts: Vec<String>,
    pub linear_exp_vals: Vec<LinearExpVal<V>>,
    pub symbolic_exp_vals: Vec<SymbolicExpVal>,
}

/// An operator measured on a state readout: sparse entries of row, column,
/// real part and imaginary part.
#[derive(Debug, Clone, PartialEq, Eq)]
pub struct CheatedOperator<V> {
    pub name: String,
    pub readout: String,
    pub entries: Vec<(usize, usize, V, V)>,
}

/// Input of a cheated measurement: operators whose expectation values are read
/// from state-vector or density-matrix readouts.
#[derive(Debug, Clone, PartialEq, Eq)]
pub struct CheatedInput<V> {
    pub number_qubits: usize,
    pub measured_operators: Vec<CheatedOperator<V>>,
}

/// Every qubit of `qubits` is below `bound`.
pub open spec fn qubits_below(qubits: Seq<usize>, bound: usize) -> bool {
    forall|q: int| 0 <= q < qubits.len() ==> #[trigger] qubits[q] < bound
}

/// Every term of a linear combination names one of `n` products.
pub open spec fn terms_declared<V>(terms: Seq<(usize, V)>, n: int) -> bool {
    forall|t: int| 0 <= t < terms.len() ==> (#[trigger] terms[t]).0 < n
}

impl<V> BasisRotationInput<V> {
    /// The names of all expectation values, linear ones first.
    pub open spec fn result_names(&self) -> Seq<Seq<char>> {
        self.linear_exp_vals@.map_values(|l: LinearExpVal<V>| l.name@) + self.symbolic_exp_vals@.map_values(
            |s: SymbolicExpVal| s.name@,
        )
    }

    /// Some expectation value is already called `name`.
    pub open spec fn uses_name(&self, name: Seq<char>) -> bool {
        self.result_names().contains(name)
    }

    /// The input's invariant: product qubits are below `number_qubits`, linear
    /// terms and formulas name declared products, and the result names are
    /// pairwise distinct.
    pub open spec fn wf(&self) -> bool {
        &&& forall|p: int|
            0 <= p < self.pauli_products.len() ==> qubits_below(
                (#[trigger] self.pauli_products@[p]).qubits@,
                self.number_qubits,
            )
        &&& forall|l: int|
            0 <= l < self.linear_exp_vals.len() ==> terms_declared(
                (#[trigger] self.linear_exp_vals@[l]).terms@,
                self.pauli_products.len() as int,
            )
        &&& forall|s: int|
            0 <= s < self.symbolic_exp_vals.len() ==> formula_declared(
                (#[trigger] self.symbolic_exp_vals@[s]).formula@,
                self.pauli_products.len() as nat,
            )
        &&& self.result_names().no_duplicates()
    }

    /// An input over `number_qubits` qubits without products or expectation values.
    pub fn new(number_qubits: usize, use_flipped_measurement: bool) -> (r: Self)
        ensures
            r.wf(),
            r.number_qubits == number_qubits,
            r.use_flipped_measurement == use_flipped_measurement,
            r.pauli_products.len() == 0,
            r.linear_exp_vals.len() == 0,
            r.symbolic_exp_vals.len() == 0,
    {
        let r = BasisRotationInput {
            number_qubits,
            use_flipped_measurement,
            pauli_products: Vec::new(),
            linear_exp_vals: Vec::new(),
            symbolic_exp_vals: Vec::new(),
        };
        assert(r.result_names() =~= Seq::empty());
        r
    }

    /// Whether some expectation value is already called `name`.
    pub fn has_name(&self, name: &String) -> (r: bool)
        ensures
            r == self.uses_name(name@),
    {
        let ghost names = self.result_names();
        let nl = self.linear_exp_vals.len();
        let mut i: usize = 0;
        while i < nl
            invariant
                nl == self.linear_exp_vals.len(),
                names == self.result_names(),
                i <= nl,
                forall|k: int| 0 <= k < i ==> names[k] != name@,
            decreases nl - i,
        {
            if self.linear_exp_vals[i].name == *name {
                assert(names[i as int] == name@);
                return true;
            }
            i = i + 1;
        }
        let mut j: usize = 0;
        while j < self.symbolic_exp_vals.len()
            invariant
                nl == self.linear_exp_vals.len(),
                names == self.result_names(),
                j <= self.symbolic_exp_vals.len(),
                forall|k: int| 0 <= k < nl + j ==> names[k] != name@,
            decreases self.symbolic_exp_vals.len() - j,
        {
            if self.symbolic_exp_vals[j].name == *name {
                assert(names[nl + j] == name@);
                return true;
            }
            j = j + 1;
        }
        false
    }

    /// Declares the Pauli product over `qubits` in register `readout` and returns its index.
    ///
    /// Fails with `QubitIndexOutOfRange` when a qubit is not below `number_qubits`.
    pub fn add_pauli_product(&mut self, readout: String, qubits: Vec<usize>) -> (r: Result<
        usize,
        QoqoError,
    >)
        requires
            old(self).wf(),
        ensures
            final(self).wf(),
            r is Ok <==> qubits_below(qubits@, old(self).number_qubits),
            r matches Ok(i) ==> i == old(self).pauli_products.len() && final(self).pauli_products@
                == old(self).pauli_products@.push(PauliProductMask { readout, qubits }),
            r matches Err(e) ==> e is QubitIndexOutOfRange && *final(self) == *old(self),
            final(self).number_qubits == old(self).number_qubits,
            final(self).use_flipped_measurement == old(self).use_flipped_measurement,
            final(self).linear_exp_vals == old(self).linear_exp_vals,
            final(self).symbolic_exp_vals == old(self).symbolic_exp_vals,
    {
        let mut q: usize = 0;
        while q < qubits.len()
            invariant
                q <= qubits.len(),
                *self == *old(self),
                old(self).wf(),
                forall|k: int| 0 <= k < q ==> qubits[k] < self.number_qubits,
            decreases qubits.len() - q,
        {
            if qubits[q] >= self.number_qubits {
                return Err(QoqoError::QubitIndexOutOfRange { index: qubits[q], bound: self.number_qubits });
            }
            q = q + 1;
        }
        let index = self.pauli_products.len();
        let ghost before = *self;
        self.pauli_products.push(PauliProductMask { readout, qubits });
        proof {
            assert(self.result_names() == before.result_names());
            assert forall|l: int| 0 <= l < self.linear_exp_vals.len() implies terms_declared(
                (#[trigger] self.linear_exp_vals@[l]).terms@,
                self.pauli_products.len() as int,
            ) by {
                assert(terms_declared(before.linear_exp_vals@[l].terms@, before.pauli_products.len() as int));
            }
            assert forall|k: int| 0 <= k < self.symbolic_exp_vals.len() implies formula_declared(
                (#[trigger] self.symbolic_exp_vals@[k]).formula@,
                self.pauli_products.len() as nat,
            ) by {
                assert(formula_declared(before.symbolic_exp_vals@[k].formula@, before.pauli_products.len() as nat));
            }
            assert forall|p: int| 0 <= p < self.pauli_products.len() implies qubits_below(
                (#[trigger] self.pauli_products@[p]).qubits@,
                self.number_qubits,
            ) by {
                if p < index {
                    assert(self.pauli_products@[p] == before.pauli_products@[p]);
                }
            }
        }
        Ok(index)
    }

    /// Declares the linear combination `terms` of Pauli products under `name`.
    ///
    /// Fails with `DuplicateResultName` when an expectation value is already
    /// called `name`, else with `UndeclaredProductIndex` when a term names a
    /// product that is not declared.
    pub fn add_linear_exp_val(&mut self, name: String, terms: Vec<(usize, V)>) -> (r: Result<
        (),
        QoqoError,
    >)
        requires
            old(self).wf(),
        ensures
            final(self).wf(),
            r is Ok <==> !old(self).uses_name(name@) && terms_declared(
                terms@,
                old(self).pauli_products.len() as int,
            ),
            r matches Err(e) ==> *final(self) == *old(self) && (old(self).uses_name(name@) ==> e
                is DuplicateResultName) && (!old(self).uses_name(name@)
                ==> e is UndeclaredProductIndex),
            r is Ok ==> final(self).linear_exp_vals@ == old(self).linear_exp_vals@.push(
                LinearExpVal { name, terms },
            ),
            final(self).number_qubits == old(self).number_qubits,
            final(self).use_flipped_measurement == old(self).use_flipped_measurement,
            final(self).pauli_products == old(self).pauli_products,
            final(self).symbolic_exp_vals == old(self).symbolic_exp_vals,
    {
        if self.has_name(&name) {
            return Err(QoqoError::DuplicateResultName { name });
        }
        let mut t: usize = 0;
        while t < terms.len()
            invariant
                t <= terms.len(),
                *self == *old(self),
                old(self).wf(),
                !old(self).uses_name(name@),
                forall|k: int| 0 <= k < t ==> terms@[k].0 < self.pauli_products.len(),
            decreases terms.len() - t,
        {
            if terms[t].0 >= self.pauli_products.len() {
                return Err(QoqoError::UndeclaredProductIndex { index: terms[t].0 });
            }
            t = t + 1;
        }
        let ghost before = *self;
        let ghost new_name = name@;
        self.linear_exp_vals.push(LinearExpVal { name, terms });
        proof {
            let nl = before.linear_exp_vals.len() as int;
            let old_names = before.result_names();
            let names = self.result_names();
            assert(names.len() == old_names.len() + 1);
            assert forall|k: int| 0 <= k < names.len() implies #[trigger] names[k] == if k < nl {
                old_names[k]
            } else if k == nl {
                new_name
            } else {
                old_names[k - 1]
            } by {
                if k < nl {
                    assert(self.linear_exp_vals@[k] == before.linear_exp_vals@[k]);
                }
            }
            assert forall|a: int, b: int| 0 <= a < names.len() && 0 <= b < names.len() && a != b
                implies names[a] != names[b] by {
                if a == nl {
                    assert(names[b] == old_names[if b < nl { b } else { b - 1 }]);
                } else if b == nl {
                    assert(names[a] == old_names[if a < nl { a } else { a - 1 }]);
                } else {
                    let a0 = if a < nl { a } else { a - 1 };
                    let b0 = if b < nl { b } else { b - 1 };
                    assert(names[a] == old_names[a0] && names[b] == old_names[b0]);
                }
            }
            assert forall|l: int| 0 <= l < self.linear_exp_vals.len() implies terms_declared(
                (#[trigger] self.linear_exp_vals@[l]).terms@,
                self.pauli_products.len() as int,
            ) by {
                if l < nl {
                    assert(self.linear_exp_vals@[l] == before.linear_exp_vals@[l]);
                }
            }
        }
        Ok(())
    }
    /// Declares the formula `formula` over Pauli-product variables under `name`.
    ///
    /// Fails with `DuplicateResultName` when an expectation value is already
    /// called `name`, else with `UndeclaredFormulaVariable` when the formula
    /// refers to a product that is not declared.
    pub fn add_symbolic_exp_val(&mut self, name: String, formula: String) -> (r: Result<
        (),
        QoqoError,
    >)
        requires
            old(self).wf(),
        ensures
            final(self).wf(),
            r is Ok <==> !old(self).uses_name(name@) && formula_declared(
                formula@,
                old(self).pauli_products.len() as nat,
            ),
            r matches Err(e) ==> *final(self) == *old(self) && (old(self).uses_name(name@) ==> e
                is DuplicateResultName) && (!old(self).uses_name(name@)
                ==> e is UndeclaredFormulaVariable),
            r is Ok ==> final(self).symbolic_exp_vals@ == old(self).symbolic_exp_vals@.push(
                SymbolicExpVal { name, formula },
            ),
            final(self).number_qubits == old(self).number_qubits,
            final(self).use_flipped_measurement == old(self).use_flipped_measurement,
            final(self).pauli_products == old(self).pauli_products,
            final(self).linear_exp_vals == old(self).linear_exp_vals,
    {
        if self.has_name(&name) {
            return Err(QoqoError::DuplicateResultName { name });
        }
        check_formula_variables(formula.as_str(), self.pauli_products.len())?;
        let ghost before = *self;
        let ghost new_name = name@;
        self.symbolic_exp_vals.push(SymbolicExpVal { name, formula });
        proof {
            let old_names = before.result_names();
            let names = self.result_names();
            assert(names =~= old_names.push(new_name));
            assert forall|a: int, b: int| 0 <= a < names.len() && 0 <= b < names.len() && a != b
                implies names[a] != names[b] by {
                if a < old_names.len() && b < old_names.len() {
                    assert(names[a] == old_names[a] && names[b] == old_names[b]);
                }
            }
            assert forall|k: int| 0 <= k < self.symbolic_exp_vals.len() implies formula_declared(
                (#[trigger] self.symbolic_exp_vals@[k]).formula@,
                self.pauli_products.len() as nat,
            ) by {
                if k < before.symbolic_exp_vals.len() {
                    assert(self.symbolic_exp_vals@[k] == before.symbolic_exp_vals@[k]);
                }
            }
        }
        Ok(())
    }
}

} // verus!
