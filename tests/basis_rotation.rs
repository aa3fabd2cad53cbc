use qoqo::circuit::{CalculatorFloat, Circuit, Operation};
use qoqo::error::QoqoError;
use qoqo::input::BasisRotationInput;
use qoqo::measurement::{BasisRotation, Measurement, MeasurementKind};
use qoqo::pauli::PauliProductValue;
use qoqo::registers::{bits_from_integers, NamedBitRegister};

fn empty_circuit() -> Circuit<f64> {
    Circuit { definitions: Vec::new(), operations: Vec::new() }
}

fn rotate_x(qubit: usize, angle: CalculatorFloat<f64>) -> Operation<f64> {
    Operation { name: "RotateX".to_string(), qubits: vec![qubit], parameters: vec![angle] }
}

fn circuit_with(op: Operation<f64>) -> Circuit<f64> {
    Circuit { definitions: Vec::new(), operations: vec![op] }
}

fn register(name: &str, shots: Vec<Vec<bool>>) -> NamedBitRegister {
    NamedBitRegister { name: name.to_string(), shots }
}

fn expectation(v: &PauliProductValue) -> f64 {
    (v.positive as f64 - v.negative as f64) / (v.positive + v.negative) as f64
}

/// The input of the evaluation scenarios: products {}, {0}, {1,2} on "ro" and {1,2} on "rx",
/// and four linear expectation values.
fn evaluation_input() -> BasisRotationInput<f64> {
    let mut input = BasisRotationInput::new(3, false);
    assert_eq!(input.add_pauli_product("ro".to_string(), vec![]), Ok(0));
    assert_eq!(input.add_pauli_product("ro".to_string(), vec![0]), Ok(1));
    assert_eq!(input.add_pauli_product("ro".to_string(), vec![1, 2]), Ok(2));
    assert_eq!(input.add_pauli_product("rx".to_string(), vec![1, 2]), Ok(3));
    input.add_linear_exp_val("constant".to_string(), vec![(0, 3.0)]).unwrap();
    input.add_linear_exp_val("single_qubit_exp_val".to_string(), vec![(1, 4.0)]).unwrap();
    input.add_linear_exp_val("two_qubit_exp_val".to_string(), vec![(2, 5.0)]).unwrap();
    input.add_linear_exp_val("two_pp_exp_val".to_string(), vec![(0, 6.0), (1, 7.0)]).unwrap();
    input
}

/// Linear expectation values computed from the exact product values.
fn linear_values(input: &BasisRotationInput<f64>, values: &[PauliProductValue]) -> Vec<(String, f64)> {
    let terms = input.linear_terms(&values.to_vec()).unwrap();
    input
        .linear_exp_vals
        .iter()
        .zip(terms.iter())
        .map(|(l, pairs)| (l.name.clone(), pairs.iter().map(|(c, v)| c * expectation(v)).sum()))
        .collect()
}

fn evaluate_linear(ro: Vec<Vec<bool>>) -> Vec<(String, f64)> {
    let input = evaluation_input();
    let registers = vec![
        register("ro", ro),
        register("rx", vec![vec![false, false, false]; 3]),
    ];
    let values = input.evaluate_pauli_products(&registers).unwrap();
    linear_values(&input, &values)
}

fn check_linear(ro: Vec<Vec<bool>>, expected: [f64; 4]) {
    let result = evaluate_linear(ro);
    let names = ["constant", "single_qubit_exp_val", "two_qubit_exp_val", "two_pp_exp_val"];
    for (k, name) in names.iter().enumerate() {
        assert_eq!(result[k].0, *name);
        assert_eq!(result[k].1, expected[k]);
    }
}

#[test]
fn test_returning_circuits() {
    let mut input: BasisRotationInput<f64> = BasisRotationInput::new(3, false);
    input.add_pauli_product("ro".to_string(), vec![]).unwrap();
    input.add_pauli_product("ro".to_string(), vec![0]).unwrap();
    input.add_pauli_product("ro".to_string(), vec![0, 1]).unwrap();
    let circs = vec![empty_circuit(), circuit_with(rotate_x(0, CalculatorFloat::Float(0.0)))];
    let br = BasisRotation { constant_circuit: Some(empty_circuit()), circuits: circs.clone(), input };
    for (index, b) in br.circuits.iter().enumerate() {
        assert_eq!(b, circs.get(index).unwrap());
    }
    assert_eq!(Some(empty_circuit()), br.constant_circuit);
}

#[test]
fn evaluate_all_measurements_zero() {
    check_linear(vec![vec![false, false, false]; 3], [3.0, 4.0, 5.0, 13.0]);
}

#[test]
fn evaluate_all_measurements_one() {
    check_linear(vec![vec![true, true, true]; 3], [3.0, -4.0, 5.0, -1.0]);
}

#[test]
fn evaluate_average_zero() {
    check_linear(
        vec![
            vec![true, true, true],
            vec![true, true, true],
            vec![false, false, false],
            vec![false, false, false],
        ],
        [3.0, 0.0, 5.0, 6.0],
    );
}

#[test]
fn evaluate_cross_correlation_zero() {
    check_linear(
        vec![
            vec![true, true, false],
            vec![true, true, false],
            vec![false, false, true],
            vec![false, false, true],
        ],
        [3.0, 0.0, -5.0, 6.0],
    );
}

#[test]
fn evaluate_integer_register() {
    let ro = bits_from_integers(&vec![vec![1, 1, 0], vec![1, 1, 0], vec![0, 0, 1], vec![0, 0, 1]]).unwrap();
    check_linear(ro, [3.0, 0.0, -5.0, 6.0]);
}

#[test]
fn integer_register_rejects_other_values() {
    assert_eq!(
        bits_from_integers(&vec![vec![0, 1], vec![2, 0]]),
        Err(QoqoError::InvalidBitValue { value: 2 })
    );
    assert_eq!(bits_from_integers(&vec![]), Ok(vec![]));
}

#[test]
fn weighted_sum_of_products() {
    // products {} -> +1, {0} -> -1, {1,2} -> +1 on an all-one register
    let input = evaluation_input();
    let registers = vec![
        register("ro", vec![vec![true, true, true]; 2]),
        register("rx", vec![vec![true, true, true]; 2]),
    ];
    let values = input.evaluate_pauli_products(&registers).unwrap();
    assert_eq!(values[0], PauliProductValue { positive: 2, negative: 0 });
    assert_eq!(values[1], PauliProductValue { positive: 0, negative: 2 });
    assert_eq!(values[2], PauliProductValue { positive: 2, negative: 0 });
    let terms = input.linear_terms(&values).unwrap();
    assert_eq!(terms[3], vec![(6.0, values[0]), (7.0, values[1])]);
    let result = linear_values(&input, &values);
    assert_eq!(result[3], ("two_pp_exp_val".to_string(), -1.0));
    assert_eq!(
        input.linear_terms(&values[..1].to_vec()),
        Err(QoqoError::UndeclaredProductIndex { index: 1 })
    );
}

#[test]
fn flipped_measurement_negates_signs() {
    let mut input: BasisRotationInput<f64> = BasisRotationInput::new(2, true);
    input.add_pauli_product("ro".to_string(), vec![]).unwrap();
    input.add_pauli_product("ro".to_string(), vec![0, 1]).unwrap();
    let registers = vec![register("ro", vec![vec![false, true], vec![false, false], vec![false, false]])];
    let values = input.evaluate_pauli_products(&registers).unwrap();
    assert_eq!(values[0], PauliProductValue { positive: 0, negative: 3 });
    assert_eq!(values[1], PauliProductValue { positive: 1, negative: 2 });
}

#[test]
fn test_py03_evaluate_error0() {
    let mut input: BasisRotationInput<f64> = BasisRotationInput::new(3, false);
    input.add_pauli_product("ro".to_string(), vec![]).unwrap();
    input.add_pauli_product("ro".to_string(), vec![0]).unwrap();
    input.add_pauli_product("ro".to_string(), vec![1, 2]).unwrap();
    input.add_pauli_product("rx".to_string(), vec![1, 2]).unwrap();
    let result = input.evaluate_pauli_products(&vec![]);
    assert!(result.is_err());
    assert_eq!(result, Err(QoqoError::UnknownRegisterName { name: "ro".to_string() }));
    let only_ro = vec![register("ro", vec![vec![false, false, false]])];
    assert_eq!(
        input.evaluate_pauli_products(&only_ro),
        Err(QoqoError::UnknownRegisterName { name: "rx".to_string() })
    );
}

#[test]
fn evaluate_rejects_short_shots() {
    let mut input: BasisRotationInput<f64> = BasisRotationInput::new(3, false);
    input.add_pauli_product("ro".to_string(), vec![2]).unwrap();
    let registers = vec![register("ro", vec![vec![false, false, false], vec![true, false]])];
    assert_eq!(
        input.evaluate_pauli_products(&registers),
        Err(QoqoError::QubitIndexOutOfRange { index: 2, bound: 2 })
    );
}

#[test]
fn first_register_of_a_name_is_used() {
    let mut input: BasisRotationInput<f64> = BasisRotationInput::new(1, false);
    input.add_pauli_product("ro".to_string(), vec![0]).unwrap();
    let registers = vec![register("ro", vec![vec![true]]), register("ro", vec![vec![false]])];
    let values = input.evaluate_pauli_products(&registers).unwrap();
    assert_eq!(values, vec![PauliProductValue { positive: 0, negative: 1 }]);
}

#[test]
fn test_pyo3_copy() {
    let mut input: BasisRotationInput<f64> = BasisRotationInput::new(3, false);
    input.add_pauli_product("ro".to_string(), vec![]).unwrap();
    input.add_pauli_product("ro".to_string(), vec![0]).unwrap();
    input.add_pauli_product("ro".to_string(), vec![0, 1]).unwrap();
    let circs = vec![empty_circuit(), circuit_with(rotate_x(0, CalculatorFloat::Float(0.0)))];
    let br = BasisRotation { constant_circuit: Some(empty_circuit()), circuits: circs, input };
    let br_clone = br.clone();
    assert_eq!(br.circuits, br_clone.circuits);
    assert_eq!(br.constant_circuit, br_clone.constant_circuit);
}

#[test]
fn test_pyo3_debug() {
    let mut input: BasisRotationInput<f64> = BasisRotationInput::new(3, false);
    input.add_pauli_product("ro".to_string(), vec![]).unwrap();
    let br = BasisRotation {
        constant_circuit: Some(empty_circuit()),
        circuits: vec![empty_circuit()],
        input: input.clone(),
    };
    let br_clone = br.clone();
    assert_eq!(format!("{:?}", br), format!("{:?}", br_clone));

    assert!(input.add_linear_exp_val("single_pp_val".to_string(), vec![(0, 3.0)]).is_ok());
    let error = input.add_linear_exp_val("single_pp_val".to_string(), vec![(0, 5.0)]);
    assert!(error.is_err());
    assert_eq!(error, Err(QoqoError::DuplicateResultName { name: "single_pp_val".to_string() }));

    let error = input
        .add_symbolic_exp_val("single_pp_val".to_string(), "sin(3.0 * pauli_product_1)".to_string());
    assert!(error.is_err());

    let error = input.add_pauli_product("ro".to_string(), vec![4]);
    assert!(error.is_err());
    assert_eq!(error, Err(QoqoError::QubitIndexOutOfRange { index: 4, bound: 3 }));
}

#[test]
fn linear_term_must_name_declared_product() {
    let mut input: BasisRotationInput<f64> = BasisRotationInput::new(2, false);
    input.add_pauli_product("ro".to_string(), vec![0]).unwrap();
    assert_eq!(
        input.add_linear_exp_val("a".to_string(), vec![(0, 1.0), (1, 2.0)]),
        Err(QoqoError::UndeclaredProductIndex { index: 1 })
    );
    assert!(input.linear_exp_vals.is_empty());
}

#[test]
fn result_names_are_unique_across_linear_and_symbolic() {
    let mut input: BasisRotationInput<f64> = BasisRotationInput::new(2, false);
    input.add_pauli_product("ro".to_string(), vec![0]).unwrap();
    input.add_symbolic_exp_val("s".to_string(), "2 * pauli_product_0".to_string()).unwrap();
    assert_eq!(
        input.add_linear_exp_val("s".to_string(), vec![(0, 1.0)]),
        Err(QoqoError::DuplicateResultName { name: "s".to_string() })
    );
    assert_eq!(
        input.add_symbolic_exp_val("s".to_string(), "pauli_product_0".to_string()),
        Err(QoqoError::DuplicateResultName { name: "s".to_string() })
    );
}

#[test]
fn symbolic_formula_checks_its_variables() {
    let mut input: BasisRotationInput<f64> = BasisRotationInput::new(3, false);
    input.add_pauli_product("ro".to_string(), vec![]).unwrap();
    input.add_pauli_product("ro".to_string(), vec![0]).unwrap();
    assert!(input
        .add_symbolic_exp_val(
            "constant".to_string(),
            "sin(3.0*pauli_product_0) + sin(-1.0*pauli_product_1)".to_string()
        )
        .is_ok());
    assert_eq!(
        input.add_symbolic_exp_val("b".to_string(), "pauli_product_2".to_string()),
        Err(QoqoError::UndeclaredFormulaVariable { name: "pauli_product_2".to_string() })
    );
    assert_eq!(
        input.add_symbolic_exp_val("c".to_string(), "cos(pauli_product_01)".to_string()),
        Err(QoqoError::UndeclaredFormulaVariable { name: "pauli_product_01".to_string() })
    );
    assert_eq!(input.symbolic_exp_vals.len(), 1);
}

#[test]
fn basis_rotation_measurement_test_substitute_parameters() {
    let mut input: BasisRotationInput<f64> = BasisRotationInput::new(3, false);
    input.add_pauli_product("ro".to_string(), vec![]).unwrap();
    input.add_pauli_product("ro".to_string(), vec![0]).unwrap();
    input.add_pauli_product("ro".to_string(), vec![0, 1]).unwrap();
    let circs = vec![empty_circuit(), circuit_with(rotate_x(0, CalculatorFloat::Str("theta".to_string())))];
    let br = Measurement::BasisRotation(BasisRotation {
        constant_circuit: Some(empty_circuit()),
        circuits: circs,
        input,
    });
    let br_sub = br.clone().substitute_parameters(&vec![("theta".to_string(), 0.0)]);
    assert_ne!(format!("{:?}", br), format!("{:?}", br_sub));
    match br_sub {
        Measurement::BasisRotation(m) => {
            assert_eq!(m.circuits[1].operations[0].parameters, vec![CalculatorFloat::Float(0.0)]);
        }
        _ => panic!("kind changed"),
    }
}

// Symbols without a value stay symbolic: they are resolved, or fail, when the
// measurement is executed, not when parameters are substituted.
#[test]
fn test_substitute_parameters_error() {
    let mut input: BasisRotationInput<f64> = BasisRotationInput::new(3, false);
    input.add_pauli_product("ro".to_string(), vec![]).unwrap();
    let circs = vec![empty_circuit(), circuit_with(rotate_x(0, CalculatorFloat::Str("theta".to_string())))];
    let br = Measurement::BasisRotation(BasisRotation {
        constant_circuit: Some(empty_circuit()),
        circuits: circs,
        input,
    });
    let br_sub = br.clone().substitute_parameters(&vec![]);
    assert_eq!(br_sub, br);
}

#[test]
fn measurement_tags() {
    for kind in [
        MeasurementKind::BasisRotation,
        MeasurementKind::CheatedBasisRotation,
        MeasurementKind::Cheated,
        MeasurementKind::ClassicalRegister,
    ] {
        assert_eq!(MeasurementKind::from_tag(&kind.tag()), Ok(kind));
    }
    assert_eq!(MeasurementKind::BasisRotation.tag(), "BasisRotation");
    assert_eq!(
        MeasurementKind::from_tag(&"Circuit".to_string()),
        Err(QoqoError::UnknownMeasurementKind)
    );
}
