//! Pauli-product evaluation: the parity of selected bits in each shot of a bit register.
use vstd::prelude::*;

use crate::error::QoqoError;

verus! {

/// Whether an odd number of the bits selected by `qubits` is set in `shot`.
pub open spec fn odd_parity(shot: Seq<bool>, qubits: Seq<usize>) -> bool
    decreases qubits.len(),
{
    if qubits.len() == 0 {
        false
    } else {
        odd_parity(shot, qubits.drop_last()) != shot[qubits.last() as int]
    }
}

/// The sign of one shot: +1 for even parity, -1 for odd, negated when `flipped`.
pub open spec fn shot_sign(shot: Seq<bool>, qubits: Seq<usize>, flipped: bool) -> int {
    if odd_parity(shot, qubits) != flipped {
        -1
    } else {
        1
    }
}

/// Number of shots whose sign is +1.
pub open spec fn count_positive(shots: Seq<Seq<bool>>, qubits: Seq<usize>, flipped: bool) -> nat
    decreases shots.len(),
{
    if shots.len() == 0 {
        0
    } else {
        count_positive(shots.drop_last(), qubits, flipped) + if shot_sign(
            shots.last(),
            qubits,
            flipped,
        ) == 1 {
            1nat
        } else {
            0nat
        }
    }
}

/// Sum of the signs of all shots.
pub open spec fn sign_sum(shots: Seq<Seq<bool>>, qubits: Seq<usize>, flipped: bool) -> int
    decreases shots.len(),
{
    if shots.len() == 0 {
        0
    } else {
        sign_sum(shots.drop_last(), qubits, flipped) + shot_sign(shots.last(), qubits, flipped)
    }
}

/// Every qubit index selects a slot of every shot.
pub open spec fn fits_shots(shots: Seq<Seq<bool>>, qubits: Seq<usize>) -> bool {
    forall|s: int, q: int|
        0 <= s < shots.len() && 0 <= q < qubits.len() ==> #[trigger] qubits[q] < (
            #[trigger] shots[s]).len()
}

/// The exact value of a Pauli product over a register: the expectation value is
/// `(positive - negative) / (positive + negative)`, one count per shot.
#[derive(Debug, Clone, Copy, PartialEq, Eq)]
pub struct PauliProductValue {
    /// Shots whose sign is +1.
    pub positive: usize,
    /// Shots whose sign is -1.
    pub negative: usize,
}

impl PauliProductValue {
    /// Number of shots that went into the value.
    pub open spec fn shots(self) -> int {
        self.positive + self.negative
    }

    /// Numerator of the expectation value: the sum of the per-shot signs.
    pub open spec fn numerator(self) -> int {
        self.positive - self.negative
    }

    /// The value of `qubits` over `shots`, with the sign convention `flipped`.
    pub open spec fn is_value_of(self, shots: Seq<Seq<bool>>, qubits: Seq<usize>, flipped: bool) -> bool {
        &&& self.shots() == shots.len()
        &&& self.positive == count_positive(shots, qubits, flipped)
        &&& self.numerator() == sign_sum(shots, qubits, flipped)
    }
}

proof fn lemma_sign_sum_counts(shots: Seq<Seq<bool>>, qubits: Seq<usize>, flipped: bool)
    ensures
        count_positive(shots, qubits, flipped) <= shots.len(),
        sign_sum(shots, qubits, flipped) == 2 * count_positive(shots, qubits, flipped)
            - shots.len(),
    decreases shots.len(),
{
    if shots.len() > 0 {
        lemma_sign_sum_counts(shots.drop_last(), qubits, flipped);
    }
}

/// Every shot holds only unset bits.
pub open spec fn all_zero(shots: Seq<Seq<bool>>) -> bool {
    forall|s: int, b: int| 0 <= s < shots.len() && 0 <= b < shots[s].len() ==> !#[trigger] shots[s][b]
}

/// Every shot holds only set bits.
pub open spec fn all_one(shots: Seq<Seq<bool>>) -> bool {
    forall|s: int, b: int| 0 <= s < shots.len() && 0 <= b < shots[s].len() ==> #[trigger] shots[s][b]
}

proof fn lemma_parity_constant(shot: Seq<bool>, qubits: Seq<usize>, bit: bool)
    requires
        forall|q: int| 0 <= q < qubits.len() ==> #[trigger] qubits[q] < shot.len() && shot[qubits[q] as int] == bit,
    ensures
        odd_parity(shot, qubits) == (bit && qubits.len() % 2 == 1),
    decreases qubits.len(),
{
    if qubits.len() > 0 {
        let rest = qubits.drop_last();
        assert forall|q: int| 0 <= q < rest.len() implies #[trigger] rest[q] < shot.len() && shot[rest[q] as int] == bit by {
            assert(rest[q] == qubits[q]);
        }
        lemma_parity_constant(shot, rest, bit);
        assert(qubits.last() == qubits[qubits.len() - 1]);
    }
}

proof fn lemma_sign_sum_constant(shots: Seq<Seq<bool>>, qubits: Seq<usize>, flipped: bool, bit: bool)
    requires
        fits_shots(shots, qubits),
        forall|s: int, b: int| 0 <= s < shots.len() && 0 <= b < shots[s].len() ==> #[trigger] shots[s][b] == bit,
    ensures
        sign_sum(shots, qubits, flipped) == if (bit && qubits.len() % 2 == 1) != flipped {
            -(shots.len() as int)
        } else {
            shots.len() as int
        },
    decreases shots.len(),
{
    if shots.len() > 0 {
        let rest = shots.drop_last();
        assert forall|s: int, q: int| 0 <= s < rest.len() && 0 <= q < qubits.len() implies #[trigger] qubits[q] < (
            #[trigger] rest[s]).len() by {
            assert(rest[s] == shots[s]);
        }
        assert forall|s: int, b: int| 0 <= s < rest.len() && 0 <= b < rest[s].len() implies #[trigger] rest[s][b] == bit by {
            assert(rest[s] == shots[s]);
        }
        lemma_sign_sum_constant(rest, qubits, flipped, bit);
        let last = shots.last();
        assert(last == shots[shots.len() - 1]);
        assert forall|q: int| 0 <= q < qubits.len() implies #[trigger] qubits[q] < last.len() && last[qubits[q] as int] == bit by {
            assert(qubits[q] < shots[shots.len() - 1].len());
        }
        lemma_parity_constant(last, qubits, bit);
    }
}

/// On a register whose shots hold no set bit, every Pauli product evaluates to
/// +1 in each shot, the empty product included: the sign sum equals the number
/// of shots, so the expectation value is +1 whenever there is a shot.
pub proof fn lemma_all_zero_register(shots: Seq<Seq<bool>>, qubits: Seq<usize>, v: PauliProductValue)
    requires
        all_zero(shots),
        fits_shots(shots, qubits),
        v.is_value_of(shots, qubits, false),
    ensures
        sign_sum(shots, qubits, false) == shots.len(),
        v.numerator() == v.shots(),
        v.negative == 0,
{
    lemma_sign_sum_constant(shots, qubits, false, false);
}

/// On a register whose shots hold only set bits, a Pauli product over an odd
/// number of qubits evaluates to -1 and one over an even number to +1 in each
/// shot; the sign sum is minus or plus the number of shots accordingly.
pub proof fn lemma_all_one_register(shots: Seq<Seq<bool>>, qubits: Seq<usize>, v: PauliProductValue)
    requires
        all_one(shots),
        fits_shots(shots, qubits),
        v.is_value_of(shots, qubits, false),
    ensures
        qubits.len() % 2 == 1 ==> sign_sum(shots, qubits, false) == -(shots.len() as int)
            && v.numerator() == -v.shots() && v.positive == 0,
        qubits.len() % 2 == 0 ==> sign_sum(shots, qubits, false) == shots.len()
            && v.numerator() == v.shots() && v.negative == 0,
{
    lemma_sign_sum_constant(shots, qubits, false, true);
}

/// Whether an odd number of the selected bits of `shot` is set.
pub fn shot_parity(shot: &Vec<bool>, qubits: &Vec<usize>) -> (r: bool)
    requires
        forall|q: int| 0 <= q < qubits.len() ==> qubits[q] < shot.len(),
    ensures
        r == odd_parity(shot@, qubits@),
{
    let mut odd = false;
    let mut i: usize = 0;
    while i < qubits.len()
        invariant
            i <= qubits.len(),
            forall|q: int| 0 <= q < qubits.len() ==> qubits[q] < shot.len(),
            odd == odd_parity(shot@, qubits@.subrange(0, i as int)),
        decreases qubits.len() - i,
    {
        proof {
            let next = qubits@.subrange(0, i + 1);
            assert(next.drop_last() =~= qubits@.subrange(0, i as int));
        }
        odd = odd != shot[qubits[i]];
        i = i + 1;
    }
    assert(qubits@.subrange(0, i as int) =~= qubits@);
    odd
}

/// Checks that every qubit index selects a slot of every shot of `shots`;
/// on failure names the first qubit index that does not.
pub fn check_register_shape(shots: &Vec<Vec<bool>>, qubits: &Vec<usize>) -> (r: Result<(), QoqoError>)
    ensures
        r is Ok <==> fits_shots(shots.deep_view(), qubits@),
        r matches Err(e) ==> e is QubitIndexOutOfRange,
{
    let mut s: usize = 0;
    while s < shots.len()
        invariant
            s <= shots.len(),
            fits_shots(shots.deep_view().subrange(0, s as int), qubits@),
        decreases shots.len() - s,
    {
        let mut q: usize = 0;
        while q < qubits.len()
            invariant
                s < shots.len(),
                q <= qubits.len(),
                forall|k: int| 0 <= k < q ==> qubits[k] < shots[s as int].len(),
            decreases qubits.len() - q,
        {
            if qubits[q] >= shots[s].len() {
                proof {
                    assert(shots.deep_view()[s as int] == shots[s as int]@);
                }
                return Err(QoqoError::QubitIndexOutOfRange { index: qubits[q], bound: shots[s].len() });
            }
            q = q + 1;
        }
        proof {
            let prev = shots.deep_view().subrange(0, s as int);
            let next = shots.deep_view().subrange(0, s + 1);
            assert forall|a: int, b: int|
                0 <= a < next.len() && 0 <= b < qubits@.len() implies #[trigger] qubits@[b] < (
                #[trigger] next[a]).len() by {
                if a < s {
                    assert(next[a] == prev[a]);
                } else {
                    assert(next[a] == shots[s as int]@);
                }
            }
        }
        s = s + 1;
    }
    assert(shots.deep_view().subrange(0, s as int) =~= shots.deep_view());
    Ok(())
}

/// Evaluates the Pauli product over `qubits` on every shot of a bit register.
///
/// Fails with `QubitIndexOutOfRange` when a qubit index does not select a slot
/// of some shot; otherwise the result counts the shots of each sign exactly.
pub fn evaluate_pauli_product(shots: &Vec<Vec<bool>>, qubits: &Vec<usize>, flipped: bool) -> (r:
    Result<PauliProductValue, QoqoError>)
    ensures
        r is Ok <==> fits_shots(shots.deep_view(), qubits@),
        r matches Ok(v) ==> v.is_value_of(shots.deep_view(), qubits@, flipped),
        r matches Err(e) ==> e is QubitIndexOutOfRange,
{
    check_register_shape(shots, qubits)?;
    let ghost all = shots.deep_view();
    let mut positive: usize = 0;
    let mut negative: usize = 0;
    let mut s: usize = 0;
    while s < shots.len()
        invariant
            s <= shots.len(),
            all == shots.deep_view(),
            fits_shots(all, qubits@),
            positive + negative == s,
            positive == count_positive(all.subrange(0, s as int), qubits@, flipped),
        decreases shots.len() - s,
    {
        proof {
            let next = all.subrange(0, s + 1);
            assert(next.drop_last() =~= all.subrange(0, s as int));
            assert(next.last() == shots[s as int]@);
            assert forall|q: int| 0 <= q < qubits.len() implies qubits[q] < shots[s as int].len() by {
                assert(all[s as int] == shots[s as int]@);
            }
        }
        if shot_parity(&shots[s], qubits) != flipped {
            negative = negative + 1;
        } else {
            positive = positive + 1;
        }
        s = s + 1;
    }
    assert(all.subrange(0, s as int) =~= all);
    proof {
        lemma_sign_sum_counts(all, qubits@, flipped);
    }
    Ok(PauliProductValue { positive, negative })
}

} // verus!
