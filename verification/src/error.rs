use vstd::prelude::*;

verus! {

/// The three kinds of record that the ledger keeps.
#[derive(Clone, Copy, Debug, PartialEq, Eq, Structural)]
pub enum RecordKind {
    Creative,
    AdSpot,
    Presentation,
}

/// The argument that an operation turned down, and why.
#[derive(Clone, Copy, Debug, PartialEq, Eq, Structural)]
pub enum InputFault {
    /// The creative id is zero.
    CreativeId,
    /// The ad spot id is zero.
    AdSpotId,
    /// The playback id is zero.
    PlaybackId,
    /// The price is zero.
    Price,
    /// The price, once scaled to the smallest unit, exceeds a `Balance`.
    PriceRange,
    /// The name is empty.
    EmptyName,
    /// The name is longer than `MAX_NAME_LEN` characters.
    LongName,
    /// The content is empty.
    EmptyContent,
    /// The start time lies before the current time.
    StartTime,
    /// The end time does not lie after the current time.
    EndTime,
    /// The end time does not lie after the start time.
    TimeRange,
}

/// What a caller must be to make a call.
#[derive(Clone, Copy, Debug, PartialEq, Eq, Structural)]
pub enum Claim {
    /// The owner of the creative that the call books with.
    CreativeOwner,
    /// The platform itself.
    Platform,
}

/// Why an operation was turned down. A failed operation never changes the ledger.
#[derive(Clone, Copy, Debug, PartialEq, Eq, Structural)]
pub enum ContractError {
    /// The ledger's state exists already and cannot be set up again.
    AlreadyInitialized,
    /// An argument is malformed.
    InvalidInput(InputFault),
    /// A record of this kind is stored under the id already.
    Conflict(RecordKind),
    /// No record of this kind is stored under the id.
    NotFound(RecordKind),
    /// The deposit attached to the call does not cover the spot's price.
    InsufficientDeposit { attached: u128, required: u128 },
    /// The caller is not who the operation is reserved to.
    Unauthorized(Claim),
    /// The agreement's funds were released before.
    AlreadySettled,
    /// The agreement's display window is still open.
    WindowNotElapsed,
}

/// An operation's result with the record, if there is one, taken by its view.
pub open spec fn outcome_view<T: View>(r: Result<T, ContractError>) -> Result<T::V, ContractError> {
    match r {
        Ok(t) => Ok(t@),
        Err(e) => Err(e),
    }
}

} // verus!
