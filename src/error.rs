use vstd::prelude::*;

verus! {

/// Why an operation on a switch was refused. A refused operation changes nothing.
#[derive(Clone, Copy, Debug, PartialEq, Eq, Structural)]
pub enum ErrorCode {
    InvalidInterval,
    DataTooLarge,
    EmptyData,
    TimeOverflow,
    InvalidSwitchId,
    Unauthorized,
    InactiveSwitch,
    ActiveSwitch,
    NotExpired,
    InvalidTimestamp,
    ArithmeticOverflow,
    AlreadyInactive,
    /// No switch occupies the addressed slot (never created, or already closed).
    SwitchNotFound,
    /// A live switch already occupies the slot that creation would fill.
    SwitchExists,
}

impl ErrorCode {
    /// A human-readable description of the error.
    pub fn message(&self) -> (r: &'static str) {
        match self {
            ErrorCode::InvalidInterval => "Ping interval must be between 60 seconds and 1 year",
            ErrorCode::DataTooLarge => "Encrypted data is too large (max 512 bytes)",
            ErrorCode::EmptyData => "Encrypted data cannot be empty",
            ErrorCode::TimeOverflow => "Time overflow during calculation",
            ErrorCode::InvalidSwitchId => "Invalid switch ID",
            ErrorCode::Unauthorized => "Unauthorized operation",
            ErrorCode::InactiveSwitch => "Switch is not active",
            ErrorCode::ActiveSwitch => "Switch is still active",
            ErrorCode::NotExpired => "Switch has not expired yet",
            ErrorCode::InvalidTimestamp => "Invalid timestamp detected",
            ErrorCode::ArithmeticOverflow => "Arithmetic overflow occurred",
            ErrorCode::AlreadyInactive => "Switch is already inactive",
            ErrorCode::SwitchNotFound => "Switch does not exist",
            ErrorCode::SwitchExists => "Switch already exists",
        }
    }
}

} // verus!
