//! Named bit registers: the raw readout of repeated circuit executions.
use vstd::prelude::*;

use crate::error::QoqoError;

verus! {

/// A bit register under its readout name: one row of bits per shot.
#[derive(Debug, Clone, PartialEq, Eq)]
pub struct NamedBitRegister {
    pub name: String,
    pub shots: Vec<Vec<bool>>,
}

impl NamedBitRegister {
    /// The shots of the register as sequences of bits.
    pub open spec fn shots_view(&self) -> Seq<Seq<bool>> {
        self.shots.deep_view()
    }
}

/// `i` is the first register of `regs` named `name`.
pub open spec fn is_first_register(regs: Seq<NamedBitRegister>, name: Seq<char>, i: int) -> bool {
    &&& 0 <= i < regs.len()
    &&& regs[i].name@ == name
    &&& forall|j: int| 0 <= j < i ==> (#[trigger] regs[j]).name@ != name
}

/// Some register of `regs` is named `name`.
pub open spec fn has_register(regs: Seq<NamedBitRegister>, name: Seq<char>) -> bool {
    exists|i: int| 0 <= i < regs.len() && (#[trigger] regs[i]).name@ == name
}

/// The shots of the first register of `regs` named `name`.
pub open spec fn register_shots(regs: Seq<NamedBitRegister>, name: Seq<char>) -> Seq<Seq<bool>> {
    let i = choose|i: int| is_first_register(regs, name, i);
    regs[i].shots_view()
}

/// Position of the first register named `name`, if there is one.
pub fn find_register(regs: &Vec<NamedBitRegister>, name: &String) -> (r: Option<usize>)
    ensures
        r is None <==> !has_register(regs@, name@),
        r matches Some(i) ==> is_first_register(regs@, name@, i as int),
{
    let mut i: usize = 0;
    while i < regs.len()
        invariant
            i <= regs.len(),
            forall|j: int| 0 <= j < i ==> (#[trigger] regs@[j]).name@ != name@,
        decreases regs.len() - i,
    {
        if regs[i].name == *name {
            return Some(i);
        }
        i = i + 1;
    }
    None
}

/// Lemma: the first register named `name` is the one `register_shots` reads.
pub proof fn lemma_first_register_shots(regs: Seq<NamedBitRegister>, name: Seq<char>, i: int)
    requires
        is_first_register(regs, name, i),
    ensures
        register_shots(regs, name) == regs[i].shots_view(),
{
    let k = choose|k: int| is_first_register(regs, name, k);
    assert(is_first_register(regs, name, k));
    if k < i {
        assert(regs[k].name@ != name);
    } else if i < k {
        assert(regs[i].name@ != name);
    }
}

/// The bits of a register written as the integers 0 and 1.
pub open spec fn bits_of_integers(shots: Seq<Seq<u64>>) -> Seq<Seq<bool>> {
    shots.map_values(|shot: Seq<u64>| shot.map_values(|b: u64| b == 1))
}

/// Every value of the register is 0 or 1.
pub open spec fn is_binary(shots: Seq<Seq<u64>>) -> bool {
    forall|s: int, b: int|
        0 <= s < shots.len() && 0 <= b < shots[s].len() ==> #[trigger] shots[s][b] <= 1
}

/// Reads a bit register written as the integers 0 and 1.
///
/// Fails with `InvalidBitValue` on the first value that is neither.
pub fn bits_from_integers(shots: &Vec<Vec<u64>>) -> (r: Result<Vec<Vec<bool>>, QoqoError>)
    ensures
        r is Ok <==> is_binary(shots.deep_view()),
        r matches Ok(bits) ==> bits.deep_view() == bits_of_integers(shots.deep_view()),
        r matches Err(e) ==> e is InvalidBitValue,
{
    let ghost all = shots.deep_view();
    let mut out: Vec<Vec<bool>> = Vec::new();
    let mut s: usize = 0;
    while s < shots.len()
        invariant
            s <= shots.len(),
            all == shots.deep_view(),
            out.len() == s,
            is_binary(all.subrange(0, s as int)),
            forall|k: int| 0 <= k < s ==> (#[trigger] out@[k])@ == bits_of_integers(all)[k],
        decreases shots.len() - s,
    {
        let shot = &shots[s];
        let mut row: Vec<bool> = Vec::new();
        let mut b: usize = 0;
        while b < shot.len()
            invariant
                s < shots.len(),
                all == shots.deep_view(),
                shot@ == all[s as int],
                b <= shot.len(),
                row.len() == b,
                forall|k: int| 0 <= k < b ==> shot[k] <= 1 && row[k] == (shot[k] == 1),
            decreases shot.len() - b,
        {
            if shot[b] > 1 {
                proof {
                    assert(all[s as int][b as int] > 1);
                }
                return Err(QoqoError::InvalidBitValue { value: shot[b] });
            }
            row.push(shot[b] == 1);
            b = b + 1;
        }
        proof {
            assert(all[s as int] == shot@);
            assert(row@ =~= bits_of_integers(all)[s as int]);
            let prev = all.subrange(0, s as int);
            let next = all.subrange(0, s + 1);
            assert forall|x: int, y: int| 0 <= x < next.len() && 0 <= y < next[x].len() implies #[trigger] next[x][y] <= 1 by {
                if x < s {
                    assert(next[x] == prev[x]);
                }
            }
        }
        out.push(row);
        s = s + 1;
    }
    assert(all.subrange(0, s as int) =~= all);
    assert forall|k: int| 0 <= k < out.len() implies #[trigger] out.deep_view()[k]
        == bits_of_integers(all)[k] by {
        assert(out.deep_view()[k] == out@[k]@);
    }
    assert(out.deep_view() =~= bits_of_integers(all));
    Ok(out)
}

} // verus!
