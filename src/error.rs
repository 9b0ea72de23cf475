use vstd::prelude::*;

verus! {

/// The closed set of ways a radio operation can fail.
#[derive(Debug, Clone, Copy, PartialEq, Eq, Structural)]
pub enum RadioControlError {
    /// No data could be exchanged with the device (link failure, timeout).
    CommunicationError,
    /// The request reached the device but the data is invalid (bad handle, bad sample).
    DataError,
    /// The device itself reported or showed a fault.
    HardwareError,
}

impl RadioControlError {
    /// Only a communication failure may be retried as it is; a data error needs a
    /// corrected request and a hardware error is handed upward for fail-safe handling.
    pub open spec fn retryable(self) -> bool {
        self == RadioControlError::CommunicationError
    }

    pub fn is_retryable(&self) -> (r: bool)
        ensures
            r == self.retryable(),
    {
        match self {
            RadioControlError::CommunicationError => true,
            RadioControlError::DataError => false,
            RadioControlError::HardwareError => false,
        }
    }
}

/// An error type of a backend: whatever it carries, each value falls under one
/// kind of the taxonomy.
pub trait RadioError {
    spec fn kind_spec(&self) -> RadioControlError;

    fn kind(&self) -> (k: RadioControlError)
        ensures
            k == self.kind_spec(),
    ;
}

impl RadioError for RadioControlError {
    open spec fn kind_spec(&self) -> RadioControlError {
        *self
    }

    fn kind(&self) -> (k: RadioControlError) {
        *self
    }
}

} // verus!
