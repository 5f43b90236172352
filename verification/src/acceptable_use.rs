//! Acceptable-use classes that a job declares.
use vstd::prelude::*;

verus! {

/// Acceptable-use class of a workload.
#[derive(Debug, Clone, Copy, PartialEq, Eq, Structural, Hash)]
pub enum AcceptableUseClass {
    Scientific,
    MlTraining,
}

/// The class's name as it appears in quarantine lists.
pub open spec fn spec_class_name(c: AcceptableUseClass) -> Seq<char> {
    match c {
        AcceptableUseClass::Scientific => "Scientific"@,
        AcceptableUseClass::MlTraining => "MlTraining"@,
    }
}

impl AcceptableUseClass {
    /// The class's name as it appears in quarantine lists.
    pub fn name(self) -> (r: &'static str)
        ensures
            r@ == spec_class_name(self),
    {
        match self {
            AcceptableUseClass::Scientific => "Scientific",
            AcceptableUseClass::MlTraining => "MlTraining",
        }
    }
}

} // verus!
