use xylex_hash_router::{Errors, HashRoutingError};

#[test]
fn every_kind_has_its_text() {
    let cases = [
        (Errors::TradeHashNotFound, "Trade hash not found."),
        (Errors::TradeHashInvalid, "Trade hash is invalid."),
        (Errors::TradeHashAlreadyRouted, "Trade hash has already been routed."),
        (Errors::MessageIdNotFound, "Message ID not found."),
        (Errors::MessageIdInvalid, "Message ID is invalid."),
        (Errors::ChannelIdNotFound, "Channel ID not found."),
        (Errors::ChannelIdInvalid, "Channel ID is invalid."),
        (Errors::GuildIdNotFound, "Guild ID not found."),
        (Errors::GuildIdInvalid, "Guild ID is invalid."),
        (Errors::StoreUnavailable, "The trade hash store is unavailable."),
        (Errors::AmbiguousOutcome, "The store did not confirm whether the write took effect."),
        (Errors::IntegrityViolation, "More than one record is routed to the trade hash."),
    ];
    for (kind, text) in cases {
        assert_eq!(kind.describe(), text);
        assert!(!kind.describe().contains('\n'));
    }
}

#[test]
fn routing_error_shows_its_kind_only() {
    let e = HashRoutingError { error: Errors::StoreUnavailable, cause: Some("connection reset".to_string()) };
    assert_eq!(e.describe(), "The trade hash store is unavailable.");
    let k = HashRoutingError::of_kind(Errors::TradeHashNotFound);
    assert_eq!(k.error, Errors::TradeHashNotFound);
    assert!(k.cause.is_none());
}
