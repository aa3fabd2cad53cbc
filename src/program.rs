//! Quantum programs: a measurement whose circuits take free parameters, bound by position.
use vstd::prelude::*;

use crate::error::QoqoError;
use crate::measurement::{
    BasisRotation, Cheated, CheatedBasisRotation, ClassicalRegister, Measurement, MeasurementKind,
};

verus! {

/// A measurement together with the ordered names of its free parameters.
#[derive(Debug, Clone, PartialEq, Eq)]
pub enum QuantumProgram<V> {
    BasisRotation { measurement: BasisRotation<V>, input_parameter_names: Vec<String> },
    CheatedBasisRotation {
        measurement: CheatedBasisRotation<V>,
        input_parameter_names: Vec<String>,
    },
    Cheated { measurement: Cheated<V>, input_parameter_names: Vec<String> },
    ClassicalRegister { measurement: ClassicalRegister<V>, input_parameter_names: Vec<String> },
}

/// A quantum program, the handle through which it is built and run.
#[derive(Debug, Clone, PartialEq, Eq)]
pub struct QuantumProgramWrapper<V> {
    pub internal: QuantumProgram<V>,
}

/// The parameter values of a call: none given means none.
pub open spec fn given_parameters<V>(parameters: Option<Vec<V>>) -> Seq<V> {
    match parameters {
        Some(p) => p@,
        None => Seq::empty(),
    }
}

/// Names paired with values position by position.
pub open spec fn bindings_of<V>(names: Seq<String>, values: Seq<V>) -> Seq<(String, V)> {
    Seq::new(names.len(), |i: int| (names[i], values[i]))
}

/// Pairs each name with the value at its position.
pub fn zip_parameters<V: Copy>(names: &Vec<String>, values: &Vec<V>) -> (r: Vec<(String, V)>)
    requires
        names.len() == values.len(),
    ensures
        r@ == bindings_of(names@, values@),
{
    let mut out: Vec<(String, V)> = Vec::new();
    let mut i: usize = 0;
    while i < names.len()
        invariant
            names.len() == values.len(),
            i <= names.len(),
            out@ == bindings_of(names@, values@).subrange(0, i as int),
        decreases names.len() - i,
    {
        out.push((names[i].clone(), values[i]));
        i = i + 1;
        assert(out@ =~= bindings_of(names@, values@).subrange(0, i as int));
    }
    assert(bindings_of(names@, values@).subrange(0, i as int) =~= bindings_of(names@, values@));
    out
}

fn parameters_or_empty<V>(parameters: Option<Vec<V>>) -> (r: Vec<V>)
    ensures
        r@ == given_parameters(parameters),
{
    match parameters {
        Some(p) => p,
        None => Vec::new(),
    }
}

impl<V: Copy> QuantumProgram<V> {
    /// The kind of the program's measurement.
    pub open spec fn spec_kind(&self) -> MeasurementKind {
        match self {
            QuantumProgram::BasisRotation { .. } => MeasurementKind::BasisRotation,
            QuantumProgram::CheatedBasisRotation { .. } => MeasurementKind::CheatedBasisRotation,
            QuantumProgram::Cheated { .. } => MeasurementKind::Cheated,
            QuantumProgram::ClassicalRegister { .. } => MeasurementKind::ClassicalRegister,
        }
    }

    /// The program's measurement.
    pub open spec fn spec_measurement(&self) -> Measurement<V> {
        match self {
            QuantumProgram::BasisRotation { measurement, .. } => Measurement::BasisRotation(
                *measurement,
            ),
            QuantumProgram::CheatedBasisRotation { measurement, .. } =>
                Measurement::CheatedBasisRotation(*measurement),
            QuantumProgram::Cheated { measurement, .. } => Measurement::Cheated(*measurement),
            QuantumProgram::ClassicalRegister { measurement, .. } => Measurement::ClassicalRegister(
                *measurement,
            ),
        }
    }

    /// The names of the free parameters, in the order their values are given.
    pub open spec fn spec_parameter_names(&self) -> Seq<String> {
        match self {
            QuantumProgram::BasisRotation { input_parameter_names, .. } => input_parameter_names@,
            QuantumProgram::CheatedBasisRotation { input_parameter_names, .. } =>
                input_parameter_names@,
            QuantumProgram::Cheated { input_parameter_names, .. } => input_parameter_names@,
            QuantumProgram::ClassicalRegister { input_parameter_names, .. } =>
                input_parameter_names@,
        }
    }

    /// Splits the program into its measurement and its parameter names.
    pub fn into_parts(self) -> (r: (Measurement<V>, Vec<String>))
        ensures
            r.0 == self.spec_measurement(),
            r.1@ == self.spec_parameter_names(),
    {
        match self {
            QuantumProgram::BasisRotation { measurement, input_parameter_names } => (
                Measurement::BasisRotation(measurement),
                input_parameter_names,
            ),
            QuantumProgram::CheatedBasisRotation { measurement, input_parameter_names } => (
                Measurement::CheatedBasisRotation(measurement),
                input_parameter_names,
            ),
            QuantumProgram::Cheated { measurement, input_parameter_names } => (
                Measurement::Cheated(measurement),
                input_parameter_names,
            ),
            QuantumProgram::ClassicalRegister { measurement, input_parameter_names } => (
                Measurement::ClassicalRegister(measurement),
                input_parameter_names,
            ),
        }
    }

    /// Binds the parameter values to the names by position and substitutes them
    /// into the measurement, after checking that there is one value per name.
    fn bind(self, parameters: Option<Vec<V>>) -> (r: Result<Measurement<V>, QoqoError>)
        ensures
            given_parameters(parameters).len() != self.spec_parameter_names().len() ==> r == Err::<
                Measurement<V>,
                QoqoError,
            >(
                QoqoError::ParameterCountMismatch {
                    expected: self.spec_parameter_names().len() as usize,
                    given: given_parameters(parameters).len() as usize,
                },
            ),
            given_parameters(parameters).len() == self.spec_parameter_names().len() ==> (r matches Ok(
                m,
            ) && Measurement::is_substitution_of(
                m,
                self.spec_measurement(),
                bindings_of(self.spec_parameter_names(), given_parameters(parameters)),
            )),
    {
        let values = parameters_or_empty(parameters);
        let (measurement, names) = self.into_parts();
        if values.len() != names.len() {
            return Err(QoqoError::ParameterCountMismatch { expected: names.len(), given: values.len() });
        }
        let bindings = zip_parameters(&names, &values);
        Ok(measurement.substitute_parameters(&bindings))
    }
}

impl<V: Copy> QuantumProgramWrapper<V> {
    /// A program that measures `measurement` after binding the parameters
    /// `input_parameter_names`; the program has the measurement's kind.
    pub fn new(measurement: Measurement<V>, input_parameter_names: Vec<String>) -> (r: Self)
        ensures
            r.internal.spec_measurement() == measurement,
            r.internal.spec_parameter_names() == input_parameter_names@,
            r.internal.spec_kind() == measurement.spec_kind(),
    {
        let internal = match measurement {
            Measurement::BasisRotation(m) => QuantumProgram::BasisRotation {
                measurement: m,
                input_parameter_names,
            },
            Measurement::CheatedBasisRotation(m) => QuantumProgram::CheatedBasisRotation {
                measurement: m,
                input_parameter_names,
            },
            Measurement::Cheated(m) => QuantumProgram::Cheated {
                measurement: m,
                input_parameter_names,
            },
            Measurement::ClassicalRegister(m) => QuantumProgram::ClassicalRegister {
                measurement: m,
                input_parameter_names,
            },
        };
        QuantumProgramWrapper { internal }
    }

    /// Binds the parameters and returns the measurement to hand to a backend
    /// that computes expectation values.
    ///
    /// A program of the register kind fails with `WrongExecutionEntryPoint`
    /// whatever the parameters. Any other fails with `ParameterCountMismatch`
    /// when the number of values differs from the number of names; otherwise it
    /// returns its measurement with each named symbol bound to the value at the
    /// name's position, the later position where a name repeats.
    pub fn run(self, parameters: Option<Vec<V>>) -> (r: Result<Measurement<V>, QoqoError>)
        ensures
            self.internal.spec_kind() == MeasurementKind::ClassicalRegister ==> r == Err::<
                Measurement<V>,
                QoqoError,
            >(QoqoError::WrongExecutionEntryPoint),
            self.internal.spec_kind() != MeasurementKind::ClassicalRegister && given_parameters(
                parameters,
            ).len() != self.internal.spec_parameter_names().len() ==> r == Err::<
                Measurement<V>,
                QoqoError,
            >(
                QoqoError::ParameterCountMismatch {
                    expected: self.internal.spec_parameter_names().len() as usize,
                    given: given_parameters(parameters).len() as usize,
                },
            ),
            self.internal.spec_kind() != MeasurementKind::ClassicalRegister && given_parameters(
                parameters,
            ).len() == self.internal.spec_parameter_names().len() ==> (r matches Ok(m)
                && Measurement::is_substitution_of(
                m,
                self.internal.spec_measurement(),
                bindings_of(self.internal.spec_parameter_names(), given_parameters(parameters)),
            )),
    {
        if let QuantumProgram::ClassicalRegister { .. } = self.internal {
            return Err(QoqoError::WrongExecutionEntryPoint);
        }
        self.internal.bind(parameters)
    }

    /// Binds the parameters and returns the measurement to hand to a backend
    /// that returns the raw output registers.
    ///
    /// A program of any kind but the register kind fails with
    /// `WrongExecutionEntryPoint` whatever the parameters; otherwise as `run`.
    pub fn run_registers(self, parameters: Option<Vec<V>>) -> (r: Result<Measurement<V>, QoqoError>)
        ensures
            self.internal.spec_kind() != MeasurementKind::ClassicalRegister ==> r == Err::<
                Measurement<V>,
                QoqoError,
            >(QoqoError::WrongExecutionEntryPoint),
            self.internal.spec_kind() == MeasurementKind::ClassicalRegister && given_parameters(
                parameters,
            ).len() != self.internal.spec_parameter_names().len() ==> r == Err::<
                Measurement<V>,
                QoqoError,
            >(
                QoqoError::ParameterCountMismatch {
                    expected: self.internal.spec_parameter_names().len() as usize,
                    given: given_parameters(parameters).len() as usize,
                },
            ),
            self.internal.spec_kind() == MeasurementKind::ClassicalRegister && given_parameters(
                parameters,
            ).len() == self.internal.spec_parameter_names().len() ==> (r matches Ok(m)
                && Measurement::is_substitution_of(
                m,
                self.internal.spec_measurement(),
                bindings_of(self.internal.spec_parameter_names(), given_parameters(parameters)),
            )),
    {
        if let QuantumProgram::ClassicalRegister { .. } = self.internal {
            self.internal.bind(parameters)
        } else {
            Err(QoqoError::WrongExecutionEntryPoint)
        }
    }
}

} // verus!
