use vstd::prelude::*;

verus! {

/// The classes into which every failure of the four services falls.
///
/// Each service has an error enum of its own; its `kind` method maps a value
/// to one of these classes. Every error is terminal for the operation that
/// raised it, and an operation that fails leaves the records it was given
/// as they were.
#[derive(Clone, Copy, Debug, PartialEq, Eq, Structural)]
pub enum ErrorKind {
    /// A record that the operation refers to does not exist.
    NotFound,
    /// A record already exists at the identity where one was to be created.
    AlreadyExists,
    /// The caller is not on the allow-list, or does not own the record.
    Unauthorized,
    /// The record is not in a state that admits the operation.
    InvalidState,
    /// A checked addition or multiplication left the range of the counter.
    ArithmeticOverflow,
    /// A checked subtraction left the range of the counter.
    ArithmeticUnderflow,
    /// Available points or accumulated revenue are too low.
    InsufficientBalance,
    /// An argument is out of range, or a referenced record is malformed.
    InvalidInput,
    /// The value-transfer substrate did not carry out the transfer.
    TransferFailed,
}

} // verus!
