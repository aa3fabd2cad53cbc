use qoqo::formula::check_formula_variables;
use qoqo::input::BasisRotationInput;
use qoqo::pauli::{evaluate_pauli_product, shot_parity, PauliProductValue};
use qoqo::registers::NamedBitRegister;
use qoqo_calculator::Calculator;

fn expectation(v: &PauliProductValue) -> f64 {
    (v.positive as f64 - v.negative as f64) / (v.positive + v.negative) as f64
}

#[test]
fn all_zero_register_gives_plus_one() {
    let shots = vec![vec![false; 4]; 5];
    for qubits in [vec![], vec![0], vec![1, 3], vec![0, 1, 2], vec![0, 1, 2, 3]] {
        let v = evaluate_pauli_product(&shots, &qubits, false).unwrap();
        assert_eq!(v, PauliProductValue { positive: 5, negative: 0 });
        assert_eq!(expectation(&v), 1.0);
    }
}

#[test]
fn all_one_register_gives_parity_sign() {
    let shots = vec![vec![true; 4]; 3];
    for qubits in [vec![0], vec![0, 1, 2], vec![3, 2, 1]] {
        let v = evaluate_pauli_product(&shots, &qubits, false).unwrap();
        assert_eq!(v, PauliProductValue { positive: 0, negative: 3 });
        assert_eq!(expectation(&v), -1.0);
    }
    for qubits in [vec![], vec![0, 1], vec![0, 1, 2, 3]] {
        let v = evaluate_pauli_product(&shots, &qubits, false).unwrap();
        assert_eq!(v, PauliProductValue { positive: 3, negative: 0 });
        assert_eq!(expectation(&v), 1.0);
    }
}

#[test]
fn parity_of_selected_bits() {
    let shot = vec![true, false, true, true];
    assert!(!shot_parity(&shot, &vec![]));
    assert!(shot_parity(&shot, &vec![0]));
    assert!(!shot_parity(&shot, &vec![0, 2]));
    assert!(shot_parity(&shot, &vec![0, 1, 2, 3]));
    assert!(!shot_parity(&shot, &vec![1]));
}

#[test]
fn empty_register_has_no_shots() {
    let v = evaluate_pauli_product(&vec![], &vec![5], false).unwrap();
    assert_eq!(v, PauliProductValue { positive: 0, negative: 0 });
}

fn symbolic_value(ro: Vec<Vec<bool>>) -> f64 {
    let mut input: BasisRotationInput<f64> = BasisRotationInput::new(3, false);
    input.add_pauli_product("ro".to_string(), vec![0]).unwrap();
    input.add_pauli_product("ro".to_string(), vec![1, 2, 0]).unwrap();
    input
        .add_symbolic_exp_val(
            "constant".to_string(),
            "sin(3.0*pauli_product_0) + sin(-1.0*pauli_product_1)".to_string(),
        )
        .unwrap();
    let registers = vec![NamedBitRegister { name: "ro".to_string(), shots: ro }];
    let values = input.evaluate_pauli_products(&registers).unwrap();
    let mut calculator = Calculator::new();
    for (i, v) in values.iter().enumerate() {
        calculator.set_variable(&format!("pauli_product_{}", i), expectation(v));
    }
    calculator.parse_str(&input.symbolic_exp_vals[0].formula).unwrap()
}

#[test]
fn symbolic_formula_on_all_zero_register() {
    let value = symbolic_value(vec![vec![false; 3]; 3]);
    assert!((value - (3.0_f64.sin() + (-1.0_f64).sin())).abs() < 1e-12);
}

#[test]
fn symbolic_formula_on_all_one_register() {
    let value = symbolic_value(vec![vec![true; 3]; 3]);
    assert!((value - ((-3.0_f64).sin() + 1.0_f64.sin())).abs() < 1e-12);
}

#[test]
fn formula_variables() {
    assert!(check_formula_variables("pauli_product_0 + pauli_product_12", 13).is_ok());
    assert!(check_formula_variables("pauli_product_12", 12).is_err());
    assert!(check_formula_variables("pauli_product_", 3).is_err());
    assert!(check_formula_variables("pauli_product_1x", 3).is_err());
    assert!(check_formula_variables("xpauli_product_9", 0).is_ok());
    assert!(check_formula_variables("3*theta", 0).is_ok());
    assert!(check_formula_variables("", 0).is_ok());
    assert!(check_formula_variables("pauli_product_99999999999999999999999999999", 5).is_err());
    assert!(check_formula_variables("pauli_product_0", 0).is_err());
}
