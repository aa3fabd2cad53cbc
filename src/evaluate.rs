//! Evaluation of all Pauli products of a basis-rotation input over named bit registers.
use vstd::prelude::*;

use crate::error::QoqoError;
use crate::input::{terms_declared, BasisRotationInput, PauliProductMask};
use crate::pauli::{evaluate_pauli_product, fits_shots, PauliProductValue};
use crate::registers::{
    find_register, has_register, lemma_first_register_shots, register_shots, NamedBitRegister,
};

verus! {

/// The product `mask` can be evaluated on `regs`: its register is there and
/// each of its qubits selects a slot of every shot.
pub open spec fn product_evaluable(regs: Seq<NamedBitRegister>, mask: PauliProductMask) -> bool {
    &&& has_register(regs, mask.readout@)
    &&& fits_shots(register_shots(regs, mask.readout@), mask.qubits@)
}

/// The error that evaluating `mask` on `regs` fails with.
pub open spec fn product_error(regs: Seq<NamedBitRegister>, mask: PauliProductMask, e: QoqoError) -> bool {
    if !has_register(regs, mask.readout@) {
        e == QoqoError::UnknownRegisterName { name: mask.readout }
    } else {
        e is QubitIndexOutOfRange
    }
}

impl<V> BasisRotationInput<V> {
    /// Evaluates every declared Pauli product on the registers, in declaration order.
    ///
    /// Fails at the first product whose register is missing, with
    /// `UnknownRegisterName`, or whose qubits do not fit the register's shots,
    /// with `QubitIndexOutOfRange`.
    pub fn evaluate_pauli_products(&self, registers: &Vec<NamedBitRegister>) -> (r: Result<
        Vec<PauliProductValue>,
        QoqoError,
    >)
        ensures
            r is Ok <==> forall|p: int|
                0 <= p < self.pauli_products.len() ==> product_evaluable(
                    registers@,
                    #[trigger] self.pauli_products@[p],
                ),
            r matches Ok(values) ==> values.len() == self.pauli_products.len() && forall|p: int|
                0 <= p < values.len() ==> (#[trigger] values@[p]).is_value_of(
                    register_shots(registers@, self.pauli_products@[p].readout@),
                    self.pauli_products@[p].qubits@,
                    self.use_flipped_measurement,
                ),
            r matches Err(e) ==> exists|p: int|
                0 <= p < self.pauli_products.len() && !product_evaluable(
                    registers@,
                    #[trigger] self.pauli_products@[p],
                ) && product_error(registers@, self.pauli_products@[p], e) && forall|q: int|
                    0 <= q < p ==> product_evaluable(registers@, #[trigger] self.pauli_products@[q]),
    {
        let mut values: Vec<PauliProductValue> = Vec::new();
        let mut p: usize = 0;
        while p < self.pauli_products.len()
            invariant
                p <= self.pauli_products.len(),
                values.len() == p,
                forall|q: int|
                    0 <= q < p ==> product_evaluable(registers@, #[trigger] self.pauli_products@[q]),
                forall|q: int|
                    0 <= q < p ==> (#[trigger] values@[q]).is_value_of(
                        register_shots(registers@, self.pauli_products@[q].readout@),
                        self.pauli_products@[q].qubits@,
                        self.use_flipped_measurement,
                    ),
            decreases self.pauli_products.len() - p,
        {
            let mask = &self.pauli_products[p];
            match find_register(registers, &mask.readout) {
                None => {
                    assert(!product_evaluable(registers@, self.pauli_products@[p as int]));
                    return Err(QoqoError::UnknownRegisterName { name: mask.readout.clone() });
                },
                Some(i) => {
                    proof {
                        lemma_first_register_shots(registers@, mask.readout@, i as int);
                    }
                    match evaluate_pauli_product(
                        &registers[i].shots,
                        &mask.qubits,
                        self.use_flipped_measurement,
                    ) {
                        Ok(v) => {
                            values.push(v);
                        },
                        Err(e) => {
                            assert(!product_evaluable(registers@, self.pauli_products@[p as int]));
                            return Err(e);
                        },
                    }
                },
            }
            p = p + 1;
        }
        Ok(values)
    }
}

/// The terms of a linear combination paired with the values of their products:
/// each coefficient with the value of the product it names.
pub open spec fn terms_paired<V>(
    paired: Seq<(V, PauliProductValue)>,
    terms: Seq<(usize, V)>,
    values: Seq<PauliProductValue>,
) -> bool {
    &&& paired.len() == terms.len()
    &&& forall|t: int|
        0 <= t < terms.len() ==> #[trigger] paired[t] == (terms[t].1, values[terms[t].0 as int])
}

impl<V: Copy> BasisRotationInput<V> {
    /// For each linear expectation value, in declaration order, its coefficients
    /// paired with the values of the products they weigh; the expectation value
    /// is the sum of coefficient times product value over these pairs.
    ///
    /// Fails with `UndeclaredProductIndex` when a term names a product that
    /// `values` does not hold.
    pub fn linear_terms(&self, values: &Vec<PauliProductValue>) -> (r: Result<
        Vec<Vec<(V, PauliProductValue)>>,
        QoqoError,
    >)
        ensures
            r is Ok <==> forall|l: int|
                0 <= l < self.linear_exp_vals.len() ==> terms_declared(
                    (#[trigger] self.linear_exp_vals@[l]).terms@,
                    values.len() as int,
                ),
            r matches Ok(all) ==> all.len() == self.linear_exp_vals.len() && forall|l: int|
                0 <= l < all.len() ==> terms_paired(
                    (#[trigger] all@[l])@,
                    self.linear_exp_vals@[l].terms@,
                    values@,
                ),
            r matches Err(e) ==> e is UndeclaredProductIndex,
    {
        let mut all: Vec<Vec<(V, PauliProductValue)>> = Vec::new();
        let mut l: usize = 0;
        while l < self.linear_exp_vals.len()
            invariant
                l <= self.linear_exp_vals.len(),
                all.len() == l,
                forall|k: int|
                    0 <= k < l ==> terms_declared(
                        (#[trigger] self.linear_exp_vals@[k]).terms@,
                        values.len() as int,
                    ),
                forall|k: int|
                    0 <= k < l ==> terms_paired(
                        (#[trigger] all@[k])@,
                        self.linear_exp_vals@[k].terms@,
                        values@,
                    ),
            decreases self.linear_exp_vals.len() - l,
        {
            let terms = &self.linear_exp_vals[l].terms;
            let mut paired: Vec<(V, PauliProductValue)> = Vec::new();
            let mut t: usize = 0;
            while t < terms.len()
                invariant
                    l < self.linear_exp_vals.len(),
                    terms@ == self.linear_exp_vals@[l as int].terms@,
                    t <= terms.len(),
                    paired.len() == t,
                    forall|k: int| 0 <= k < t ==> (#[trigger] terms@[k]).0 < values.len(),
                    forall|k: int|
                        0 <= k < t ==> #[trigger] paired@[k] == (
                            terms@[k].1,
                            values@[terms@[k].0 as int],
                        ),
                decreases terms.len() - t,
            {
                let (index, coefficient) = terms[t];
                if index >= values.len() {
                    assert(!terms_declared(self.linear_exp_vals@[l as int].terms@, values.len() as int));
                    return Err(QoqoError::UndeclaredProductIndex { index });
                }
                paired.push((coefficient, values[index]));
                t = t + 1;
            }
            all.push(paired);
            l = l + 1;
        }
        Ok(all)
    }
}

} // verus!
