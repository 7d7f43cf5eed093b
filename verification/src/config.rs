//! The network configuration and the executable descriptor.
//!
//! The surrounding system fixes how many records a transition consumes and
//! produces, and which auxiliary circuit logic governs it. Both are handed
//! to the assembler as explicit values rather than compile-time parameters.

use vstd::prelude::*;

verus! {

/// The record counts a network configures for every state transition.
#[derive(Clone, Copy, Debug, PartialEq, Eq, Structural)]
pub struct NetworkConfig {
    /// Number of records a transition consumes.
    pub num_input_records: usize,
    /// Number of records a transition produces.
    pub num_output_records: usize,
}

impl NetworkConfig {
    /// The combined record count of a transition: inputs plus outputs.
    pub open spec fn total_records(self) -> int {
        self.num_input_records + self.num_output_records
    }

    /// The combined record count fits in a machine word, so that it can be
    /// computed and compared in executable code.
    pub open spec fn wf(self) -> bool {
        self.total_records() <= usize::MAX
    }

    /// Builds a configuration, rejecting record counts whose sum would not
    /// fit in a machine word.
    pub fn new(num_input_records: usize, num_output_records: usize) -> (r: Option<NetworkConfig>)
        ensures
            r is Some <==> num_input_records + num_output_records <= usize::MAX,
            r matches Some(c) ==> {
                &&& c.num_input_records == num_input_records
                &&& c.num_output_records == num_output_records
                &&& c.wf()
            },
    {
        if num_input_records <= usize::MAX - num_output_records {
            Some(NetworkConfig { num_input_records, num_output_records })
        } else {
            None
        }
    }

    /// The combined record count of a transition.
    pub fn num_total_records(&self) -> (n: usize)
        requires
            self.wf(),
        ensures
            n == self.total_records(),
    {
        self.num_input_records + self.num_output_records
    }
}

/// Tags which auxiliary circuit logic governs a transition.
#[derive(Clone, Copy, Debug, PartialEq, Eq, Structural)]
pub enum CircuitType {
    /// The built-in no-operation logic.
    Noop,
    /// A custom program bound to the transition.
    Program,
}

/// Descriptor of the executable bound to a transition. The assembler
/// queries it for the circuit type; a caller never supplies the type
/// directly.
#[derive(Clone, Copy, Debug, PartialEq, Eq, Structural)]
pub enum Executable {
    /// The built-in no-operation executable.
    Noop,
    /// A custom program, identified by the surrounding system.
    Program { program_id: u64 },
}

impl Executable {
    /// The circuit type this executable selects.
    pub open spec fn circuit_type_spec(self) -> CircuitType {
        match self {
            Executable::Noop => CircuitType::Noop,
            Executable::Program { .. } => CircuitType::Program,
        }
    }

    /// Returns the circuit type this executable selects.
    pub fn circuit_type(&self) -> (t: CircuitType)
        ensures
            t == self.circuit_type_spec(),
    {
        match self {
            Executable::Noop => CircuitType::Noop,
            Executable::Program { .. } => CircuitType::Program,
        }
    }
}

} // verus!
