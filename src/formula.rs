//! The Pauli-product variables that a symbolic formula refers to.
use vstd::prelude::*;
use vstd::string::StrSliceExecFns;

use crate::error::QoqoError;

verus! {

/// Characters that make up identifiers and numerals in a formula.
pub open spec fn is_ident_char(c: char) -> bool {
    ('a' <= c && c <= 'z') || ('A' <= c && c <= 'Z') || ('0' <= c && c <= '9') || c == '_'
}

/// A decimal digit.
pub open spec fn is_digit(c: char) -> bool {
    '0' <= c && c <= '9'
}

/// The value of a digit character.
pub open spec fn digit_value(c: char) -> nat {
    (c as u32 - '0' as u32) as nat
}

/// The value of a string of decimal digits.
pub open spec fn decimal_value(s: Seq<char>) -> nat
    decreases s.len(),
{
    if s.len() == 0 {
        0
    } else {
        10 * decimal_value(s.drop_last()) + digit_value(s.last())
    }
}

/// A decimal numeral without superfluous leading zeros.
pub open spec fn is_canonical_numeral(s: Seq<char>) -> bool {
    &&& s.len() > 0
    &&& forall|k: int| 0 <= k < s.len() ==> is_digit(#[trigger] s[k])
    &&& (s.len() == 1 || s[0] != '0')
}

/// End of the identifier run of `f` that starts at `i`.
pub open spec fn ident_end(f: Seq<char>, i: nat) -> nat
    decreases f.len() - i,
{
    if i >= f.len() || !is_ident_char(f[i as int]) {
        i
    } else {
        ident_end(f, i + 1)
    }
}

/// A token (identifier or numeral) of `f` starts at `i`.
pub open spec fn starts_token(f: Seq<char>, i: nat) -> bool {
    &&& i < f.len()
    &&& is_ident_char(f[i as int])
    &&& (i == 0 || !is_ident_char(f[i - 1]))
}

/// The token of `f` that starts at `i`.
pub open spec fn token_at(f: Seq<char>, i: nat) -> Seq<char> {
    f.subrange(i as int, ident_end(f, i) as int)
}

/// The prefix of the variable names of Pauli products.
pub open spec fn product_prefix() -> Seq<char> {
    "pauli_product_"@
}

/// The token begins like a Pauli-product variable.
pub open spec fn has_product_prefix(t: Seq<char>) -> bool {
    t.len() >= 14 && t.subrange(0, 14) == product_prefix()
}

/// The token is `pauli_product_<k>` for a declared product `k < n`, `k` written canonically.
pub open spec fn names_declared_product(t: Seq<char>, n: nat) -> bool {
    &&& has_product_prefix(t)
    &&& is_canonical_numeral(t.subrange(14, t.len() as int))
    &&& decimal_value(t.subrange(14, t.len() as int)) < n
}

/// Every token of `f` that begins like a Pauli-product variable names one of `n` products.
pub open spec fn formula_declared(f: Seq<char>, n: nat) -> bool {
    forall|i: nat|
        starts_token(f, i) && has_product_prefix(#[trigger] token_at(f, i)) ==> names_declared_product(
            token_at(f, i),
            n,
        )
}

proof fn lemma_ident_end(f: Seq<char>, i: nat)
    requires
        i <= f.len(),
    ensures
        i <= ident_end(f, i) <= f.len(),
        forall|k: int| i <= k < ident_end(f, i) ==> is_ident_char(#[trigger] f[k]),
        ident_end(f, i) < f.len() ==> !is_ident_char(f[ident_end(f, i) as int]),
    decreases f.len() - i,
{
    if i < f.len() && is_ident_char(f[i as int]) {
        lemma_ident_end(f, i + 1);
    }
}

proof fn lemma_decimal_prefix(s: Seq<char>, j: int)
    requires
        0 <= j <= s.len(),
    ensures
        decimal_value(s.subrange(0, j)) <= decimal_value(s),
    decreases s.len(),
{
    if j < s.len() {
        assert(s.drop_last().subrange(0, j) =~= s.subrange(0, j));
        lemma_decimal_prefix(s.drop_last(), j);
    } else {
        assert(s.subrange(0, j) =~= s);
    }
}

fn ident_char(c: char) -> (r: bool)
    ensures
        r == is_ident_char(c),
{
    ('a' <= c && c <= 'z') || ('A' <= c && c <= 'Z') || ('0' <= c && c <= '9') || c == '_'
}

/// The characters of `s`.
pub fn chars_of(s: &str) -> (r: Vec<char>)
    ensures
        r@ == s@,
{
    let n = s.unicode_len();
    let mut out: Vec<char> = Vec::new();
    let mut i: usize = 0;
    while i < n
        invariant
            n == s@.len(),
            i <= n,
            out@ == s@.subrange(0, i as int),
        decreases n - i,
    {
        out.push(s.get_char(i));
        i = i + 1;
        assert(out@ =~= s@.subrange(0, i as int));
    }
    assert(s@.subrange(0, i as int) =~= s@);
    out
}

fn matches_prefix(cs: &Vec<char>, start: usize, prefix: &Vec<char>) -> (r: bool)
    requires
        start + prefix.len() <= cs.len(),
    ensures
        r == (cs@.subrange(start as int, start + prefix.len()) == prefix@),
{
    let mut k: usize = 0;
    while k < prefix.len()
        invariant
            start + prefix.len() <= cs.len(),
            k <= prefix.len(),
            forall|m: int| 0 <= m < k ==> cs@[start + m] == prefix@[m],
        decreases prefix.len() - k,
    {
        if cs[start + k] != prefix[k] {
            assert(cs@.subrange(start as int, start + prefix.len())[k as int] != prefix@[k as int]);
            return false;
        }
        k = k + 1;
    }
    assert(cs@.subrange(start as int, start + prefix.len()) =~= prefix@);
    true
}

/// Checks the token `cs[start..end]`, which begins like a Pauli-product variable.
fn check_product_token(cs: &Vec<char>, start: usize, end: usize, n: usize) -> (r: bool)
    requires
        start + 14 <= end <= cs.len(),
    ensures
        r == (is_canonical_numeral(cs@.subrange(start + 14, end as int)) && decimal_value(
            cs@.subrange(start + 14, end as int),
        ) < n),
{
    let ghost digits = cs@.subrange(start + 14, end as int);
    let first = start + 14;
    if first == end || n == 0 {
        return false;
    }
    if cs[first] == '0' && end - first > 1 {
        assert(digits[0] == cs@[first as int]);
        return false;
    }
    let mut value: u128 = 0;
    let mut j = first;
    while j < end
        invariant
            first == start + 14,
            first <= j <= end <= cs.len(),
            first < end,
            digits == cs@.subrange(first as int, end as int),
            cs@[first as int] != '0' || end - first == 1,
            value < n,
            value == decimal_value(digits.subrange(0, j - first)),
            forall|k: int| 0 <= k < j - first ==> is_digit(#[trigger] digits[k]),
        decreases end - j,
    {
        let c = cs[j];
        if !('0' <= c && c <= '9') {
            assert(digits[j - first] == c);
            assert(!is_digit(digits[j - first]));
            return false;
        }
        let d = (c as u32 - '0' as u32) as u128;
        proof {
            let pre = digits.subrange(0, j + 1 - first);
            assert(pre.drop_last() =~= digits.subrange(0, j - first));
            assert(pre.last() == c);
        }
        value = value * 10 + d;
        assert(value == decimal_value(digits.subrange(0, j + 1 - first)));
        if value >= n as u128 {
            proof {
                lemma_decimal_prefix(digits, j + 1 - first);
            }
            return false;
        }
        j = j + 1;
    }
    assert(digits.subrange(0, j - first) =~= digits);
    true
}

/// Checks that every Pauli-product variable in `formula` names one of `n`
/// declared products; fails with `UndeclaredFormulaVariable` naming the first
/// token that does not.
pub fn check_formula_variables(formula: &str, n: usize) -> (r: Result<(), QoqoError>)
    ensures
        r is Ok <==> formula_declared(formula@, n as nat),
        r matches Err(e) ==> e is UndeclaredFormulaVariable,
{
    let cs = chars_of(formula);
    let prefix = chars_of("pauli_product_");
    proof {
        reveal_strlit("pauli_product_");
    }
    let ghost f = formula@;
    let len = cs.len();
    let mut i: usize = 0;
    while i < len
        invariant
            cs@ == f,
            f == formula@,
            prefix@ == product_prefix(),
            product_prefix().len() == 14,
            len == cs.len(),
            i <= len,
            forall|t: nat|
                t < i && starts_token(f, t) && has_product_prefix(#[trigger] token_at(f, t))
                    ==> names_declared_product(token_at(f, t), n as nat),
        decreases len - i,
    {
        let starts = ident_char(cs[i]) && (i == 0 || !ident_char(cs[i - 1]));
        if !starts {
            i = i + 1;
            continue;
        }
        let mut end = i + 1;
        proof {
            lemma_ident_end(f, i as nat);
            reveal_with_fuel(ident_end, 2);
        }
        while end < len && ident_char(cs[end])
            invariant
                cs@ == f,
                len == cs.len(),
                i < end <= len,
                ident_end(f, i as nat) == ident_end(f, end as nat),
            decreases len - end,
        {
            end = end + 1;
        }
        let ghost tok = token_at(f, i as nat);
        assert(tok =~= f.subrange(i as int, end as int));
        assert(prefix@.len() == 14);
        let has_prefix = end - i >= 14 && matches_prefix(&cs, i, &prefix);
        proof {
            if end - i >= 14 {
                assert(tok.subrange(0, 14) =~= cs@.subrange(i as int, i + 14));
            }
        }
        if has_prefix && !check_product_token(&cs, i, end, n) {
            assert(tok.subrange(14, tok.len() as int) =~= cs@.subrange(i + 14, end as int));
            return Err(
                QoqoError::UndeclaredFormulaVariable {
                    name: formula.substring_char(i, end).to_owned(),
                },
            );
        }
        proof {
            if has_prefix {
                assert(tok.subrange(14, tok.len() as int) =~= cs@.subrange(i + 14, end as int));
            }
            lemma_ident_end(f, i as nat);
            assert forall|t: nat| i < t < end implies !starts_token(f, t) by {
                assert(is_ident_char(f[t - 1]));
            }
        }
        i = end;
    }
    Ok(())
}

} // verus!
