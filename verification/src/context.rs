use vstd::prelude::*;

verus! {

/// An account's name.
pub type AccountId = String;

/// An amount of money in the smallest unit.
pub type Balance = u128;

/// A point in time, in whole seconds.
pub type Timestamp = u64;

/// Nanoseconds in one second: the host's clock counts nanoseconds.
pub const NANOS_PER_SECOND: u64 = 1_000_000_000;

/// The longest name that a record may carry, in characters.
pub const MAX_NAME_LEN: usize = 100;

/// What the host says about the call that is being served.
#[derive(Debug, PartialEq, Eq)]
pub struct CallContext {
    /// The account that made the call.
    pub predecessor_account_id: AccountId,
    /// The account of the platform itself, which receives the fee.
    pub current_account_id: AccountId,
    /// The time of the current block, in nanoseconds.
    pub block_timestamp: u64,
    /// The deposit attached to the call.
    pub attached_deposit: Balance,
}

/// A call context as a mathematical value.
pub struct CallContextView {
    pub predecessor_account_id: Seq<char>,
    pub current_account_id: Seq<char>,
    pub block_timestamp: u64,
    pub attached_deposit: Balance,
}

impl CallContextView {
    /// The current time in whole seconds.
    pub open spec fn now(self) -> Timestamp {
        self.block_timestamp / NANOS_PER_SECOND
    }

    /// Whether the platform itself made the call.
    pub open spec fn by_platform(self) -> bool {
        self.predecessor_account_id == self.current_account_id
    }
}

impl View for CallContext {
    type V = CallContextView;

    open spec fn view(&self) -> CallContextView {
        CallContextView {
            predecessor_account_id: self.predecessor_account_id@,
            current_account_id: self.current_account_id@,
            block_timestamp: self.block_timestamp,
            attached_deposit: self.attached_deposit,
        }
    }
}

impl Clone for CallContext {
    fn clone(&self) -> (c: Self)
        ensures
            c == *self,
    {
        CallContext {
            predecessor_account_id: self.predecessor_account_id.clone(),
            current_account_id: self.current_account_id.clone(),
            block_timestamp: self.block_timestamp,
            attached_deposit: self.attached_deposit,
        }
    }
}

impl CallContext {
    /// The current time in whole seconds.
    pub fn now(&self) -> (t: Timestamp)
        ensures
            t == self@.now(),
    {
        self.block_timestamp / NANOS_PER_SECOND
    }

    /// Whether the platform itself made the call.
    pub fn by_platform(&self) -> (own: bool)
        ensures
            own == self@.by_platform(),
    {
        self.predecessor_account_id == self.current_account_id
    }
}

/// An optional text as a mathematical value.
pub open spec fn opt_text(o: Option<String>) -> Option<Seq<char>> {
    match o {
        Some(s) => Some(s@),
        None => None,
    }
}

} // verus!
