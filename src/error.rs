use vstd::prelude::*;

verus! {

/// Failures that the checked operations of this layer report.
#[derive(Clone, Copy, Debug, PartialEq, Eq, Structural)]
pub enum Error {
    /// The runtime refused to create a global reference.
    PromotionFailed,
    /// A pin was requested for the placeholder element kind.
    WrongElementType,
    /// The runtime flagged an exception after a checked call.
    PendingException,
    /// A call returned a null reference where one was required.
    NullHandle,
}

/// Turns the runtime's exception flag, read right after a call, into a result.
pub fn check_exception(pending: bool) -> (r: Result<(), Error>)
    ensures
        r == (if pending { Err(Error::PendingException) } else { Ok::<(), Error>(()) }),
{
    if pending {
        Err(Error::PendingException)
    } else {
        Ok(())
    }
}

} // verus!
