//! The kinds of failure of routing, and the error that carries one with its cause.
use vstd::prelude::*;

verus! {

/// The stable kind of a routing failure, which callers match on.
///
/// Only `TradeHashInvalid`, `TradeHashNotFound`, `TradeHashAlreadyRouted`,
/// `StoreUnavailable`, `AmbiguousOutcome` and `IntegrityViolation` are produced
/// today; the identifier kinds are kept for validations yet to come.
#[derive(Clone, Copy, Debug, PartialEq, Eq, Structural)]
pub enum Errors {
    TradeHashNotFound,
    TradeHashInvalid,
    TradeHashAlreadyRouted,
    MessageIdNotFound,
    MessageIdInvalid,
    ChannelIdNotFound,
    ChannelIdInvalid,
    GuildIdNotFound,
    GuildIdInvalid,
    /// The store could not be reached, or it failed the request.
    StoreUnavailable,
    /// A write timed out and whether it took effect is unknown; retrying is safe.
    AmbiguousOutcome,
    /// The store holds more than one record for a trade hash.
    IntegrityViolation,
}

/// The one-line text shown to a person for each kind.
pub open spec fn error_text(e: Errors) -> Seq<char> {
    match e {
        Errors::TradeHashNotFound => "Trade hash not found."@,
        Errors::TradeHashInvalid => "Trade hash is invalid."@,
        Errors::TradeHashAlreadyRouted => "Trade hash has already been routed."@,
        Errors::MessageIdNotFound => "Message ID not found."@,
        Errors::MessageIdInvalid => "Message ID is invalid."@,
        Errors::ChannelIdNotFound => "Channel ID not found."@,
        Errors::ChannelIdInvalid => "Channel ID is invalid."@,
        Errors::GuildIdNotFound => "Guild ID not found."@,
        Errors::GuildIdInvalid => "Guild ID is invalid."@,
        Errors::StoreUnavailable => "The trade hash store is unavailable."@,
        Errors::AmbiguousOutcome => "The store did not confirm whether the write took effect."@,
        Errors::IntegrityViolation => "More than one record is routed to the trade hash."@,
    }
}

impl Errors {
    /// The text shown to a person for this kind.
    pub fn describe(&self) -> (r: String)
        ensures
            r@ == error_text(*self),
    {
        let text: &str = match self {
            Errors::TradeHashNotFound => "Trade hash not found.",
            Errors::TradeHashInvalid => "Trade hash is invalid.",
            Errors::TradeHashAlreadyRouted => "Trade hash has already been routed.",
            Errors::MessageIdNotFound => "Message ID not found.",
            Errors::MessageIdInvalid => "Message ID is invalid.",
            Errors::ChannelIdNotFound => "Channel ID not found.",
            Errors::ChannelIdInvalid => "Channel ID is invalid.",
            Errors::GuildIdNotFound => "Guild ID not found.",
            Errors::GuildIdInvalid => "Guild ID is invalid.",
            Errors::StoreUnavailable => "The trade hash store is unavailable.",
            Errors::AmbiguousOutcome => "The store did not confirm whether the write took effect.",
            Errors::IntegrityViolation => "More than one record is routed to the trade hash.",
        };
        text.to_owned()
    }
}

/// A routing failure: its kind, and the cause that the store reported, if any.
///
/// The cause is kept for diagnosis; the text shown to a person is that of the
/// kind alone.
#[derive(Clone, Debug)]
pub struct HashRoutingError {
    pub error: Errors,
    pub cause: Option<String>,
}

impl HashRoutingError {
    /// An error of the given kind with no underlying cause.
    pub fn of_kind(error: Errors) -> (r: Self)
        ensures
            r.error == error,
            r.cause is None,
    {
        HashRoutingError { error, cause: None }
    }

    /// The text shown to a person: that of the kind.
    pub fn describe(&self) -> (r: String)
        ensures
            r@ == error_text(self.error),
    {
        self.error.describe()
    }
}

} // verus!
