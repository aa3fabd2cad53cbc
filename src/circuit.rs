//! Circuits with symbolic parameters, and the binding of parameters to values.
use vstd::prelude::*;

verus! {

/// A gate parameter: a value, or a symbol that still has to be bound.
#[derive(Debug, Clone, PartialEq, Eq)]
pub enum CalculatorFloat<V> {
    Float(V),
    Str(String),
}

/// One operation of a circuit: its kind, the qubits it acts on and its parameters.
#[derive(Debug, Clone, PartialEq, Eq)]
pub struct Operation<V> {
    pub name: String,
    pub qubits: Vec<usize>,
    pub parameters: Vec<CalculatorFloat<V>>,
}

/// A quantum circuit: register definitions followed by operations.
#[derive(Debug, Clone, PartialEq, Eq)]
pub struct Circuit<V> {
    pub definitions: Vec<Operation<V>>,
    pub operations: Vec<Operation<V>>,
}

/// The value bound to `name` by `bindings`; where a name is bound twice the later binding counts.
pub open spec fn bound_value<V>(bindings: Seq<(String, V)>, name: Seq<char>) -> Option<V>
    decreases bindings.len(),
{
    if bindings.len() == 0 {
        None
    } else if bindings.last().0@ == name {
        Some(bindings.last().1)
    } else {
        bound_value(bindings.drop_last(), name)
    }
}

/// A parameter after binding: a bound symbol becomes its value, anything else stays.
pub open spec fn substituted_parameter<V>(p: CalculatorFloat<V>, bindings: Seq<(String, V)>) -> CalculatorFloat<V> {
    match p {
        CalculatorFloat::Float(v) => CalculatorFloat::Float(v),
        CalculatorFloat::Str(s) => match bound_value(bindings, s@) {
            Some(v) => CalculatorFloat::Float(v),
            None => CalculatorFloat::Str(s),
        },
    }
}

/// `new` is `old` with every parameter bound by `bindings`.
pub open spec fn operation_substituted<V>(new: Operation<V>, old: Operation<V>, bindings: Seq<(String, V)>) -> bool {
    &&& new.name@ == old.name@
    &&& new.qubits@ == old.qubits@
    &&& new.parameters.len() == old.parameters.len()
    &&& forall|i: int|
        0 <= i < old.parameters.len() ==> new.parameters@[i] == substituted_parameter(
            #[trigger] old.parameters@[i],
            bindings,
        )
}

/// Each operation of `new` is the one of `old` at its place, with parameters bound.
pub open spec fn operations_substituted<V>(
    new: Seq<Operation<V>>,
    old: Seq<Operation<V>>,
    bindings: Seq<(String, V)>,
) -> bool {
    &&& new.len() == old.len()
    &&& forall|i: int| 0 <= i < old.len() ==> operation_substituted(#[trigger] new[i], old[i], bindings)
}

/// `new` is the circuit `old` with every parameter bound by `bindings`.
pub open spec fn circuit_substituted<V>(new: Circuit<V>, old: Circuit<V>, bindings: Seq<(String, V)>) -> bool {
    &&& operations_substituted(new.definitions@, old.definitions@, bindings)
    &&& operations_substituted(new.operations@, old.operations@, bindings)
}

/// Each circuit of `new` is the one of `old` at its place, with parameters bound.
pub open spec fn circuits_substituted<V>(
    new: Seq<Circuit<V>>,
    old: Seq<Circuit<V>>,
    bindings: Seq<(String, V)>,
) -> bool {
    &&& new.len() == old.len()
    &&& forall|i: int| 0 <= i < old.len() ==> circuit_substituted(#[trigger] new[i], old[i], bindings)
}

/// The value bound to `name`, the latest binding first.
pub fn lookup_binding<V: Copy>(bindings: &Vec<(String, V)>, name: &String) -> (r: Option<V>)
    ensures
        r == bound_value(bindings@, name@),
{
    let mut i: usize = bindings.len();
    assert(bindings@.subrange(0, i as int) =~= bindings@);
    while i > 0
        invariant
            i <= bindings.len(),
            bound_value(bindings@, name@) == bound_value(bindings@.subrange(0, i as int), name@),
        decreases i,
    {
        let ghost prefix = bindings@.subrange(0, i as int);
        assert(prefix.drop_last() =~= bindings@.subrange(0, i - 1));
        if bindings[i - 1].0 == *name {
            return Some(bindings[i - 1].1);
        }
        i = i - 1;
    }
    None
}

/// Binds one parameter.
pub fn substitute_parameter<V: Copy>(p: &CalculatorFloat<V>, bindings: &Vec<(String, V)>) -> (r:
    CalculatorFloat<V>)
    ensures
        r == substituted_parameter(*p, bindings@),
{
    match p {
        CalculatorFloat::Float(v) => CalculatorFloat::Float(*v),
        CalculatorFloat::Str(s) => match lookup_binding(bindings, s) {
            Some(v) => CalculatorFloat::Float(v),
            None => CalculatorFloat::Str(s.clone()),
        },
    }
}

/// Binds every parameter of one operation.
pub fn substitute_operation<V: Copy>(op: &Operation<V>, bindings: &Vec<(String, V)>) -> (r: Operation<
    V,
>)
    ensures
        operation_substituted(r, *op, bindings@),
{
    let mut parameters: Vec<CalculatorFloat<V>> = Vec::new();
    let mut i: usize = 0;
    while i < op.parameters.len()
        invariant
            i <= op.parameters.len(),
            parameters.len() == i,
            forall|k: int|
                0 <= k < i ==> parameters@[k] == substituted_parameter(
                    #[trigger] op.parameters@[k],
                    bindings@,
                ),
        decreases op.parameters.len() - i,
    {
        parameters.push(substitute_parameter(&op.parameters[i], bindings));
        i = i + 1;
    }
    let qubits = op.qubits.clone();
    assert(qubits@ =~= op.qubits@);
    Operation { name: op.name.clone(), qubits, parameters }
}

/// Binds every parameter of a list of operations.
pub fn substitute_operations<V: Copy>(ops: &Vec<Operation<V>>, bindings: &Vec<(String, V)>) -> (r: Vec<
    Operation<V>,
>)
    ensures
        operations_substituted(r@, ops@, bindings@),
{
    let mut out: Vec<Operation<V>> = Vec::new();
    let mut i: usize = 0;
    while i < ops.len()
        invariant
            i <= ops.len(),
            out.len() == i,
            forall|k: int| 0 <= k < i ==> operation_substituted(#[trigger] out@[k], ops@[k], bindings@),
        decreases ops.len() - i,
    {
        out.push(substitute_operation(&ops[i], bindings));
        i = i + 1;
    }
    out
}

impl<V: Copy> Circuit<V> {
    /// The circuit with every symbol bound by `bindings` replaced by its value;
    /// symbols without a binding stay as they are.
    pub fn substitute_parameters(&self, bindings: &Vec<(String, V)>) -> (r: Circuit<V>)
        ensures
            circuit_substituted(r, *self, bindings@),
    {
        Circuit {
            definitions: substitute_operations(&self.definitions, bindings),
            operations: substitute_operations(&self.operations, bindings),
        }
    }
}

/// Binds every parameter of a list of circuits.
pub fn substitute_circuits<V: Copy>(circuits: &Vec<Circuit<V>>, bindings: &Vec<(String, V)>) -> (r: Vec<
    Circuit<V>,
>)
    ensures
        circuits_substituted(r@, circuits@, bindings@),
{
    let mut out: Vec<Circuit<V>> = Vec::new();
    let mut i: usize = 0;
    while i < circuits.len()
        invariant
            i <= circuits.len(),
            out.len() == i,
            forall|k: int| 0 <= k < i ==> circuit_substituted(#[trigger] out@[k], circuits@[k], bindings@),
        decreases circuits.len() - i,
    {
        out.push(circuits[i].substitute_parameters(bindings));
        i = i + 1;
    }
    out
}

} // verus!
