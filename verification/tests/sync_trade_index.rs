use mostrix::order::{Action, CantDoReason, Payload};
use mostrix::protocol::{
    effective_last_trade_index, parse_last_trade_index_response, validate_correlated_response,
    LastTradeIndexSync, MessageKind, TradeIndexError,
};

fn kind(request_id: Option<u64>, trade_index: Option<i64>, action: Action, payload: Option<Payload>) -> MessageKind {
    MessageKind { id: None, request_id, trade_index, action, payload }
}

#[test]
fn effective_last_trade_index_uses_the_higher_value() {
    assert_eq!(effective_last_trade_index(0, 0), 0);
    assert_eq!(effective_last_trade_index(3, 7), 7);
    assert_eq!(effective_last_trade_index(9, 4), 9);
}

#[test]
fn parse_last_trade_index_response_reads_trade_index_field() {
    let message = kind(Some(42), Some(12), Action::LastTradeIndex, None);
    assert!(validate_correlated_response(&message, 42).is_ok());
    assert_eq!(
        parse_last_trade_index_response(&message).ok(),
        Some(LastTradeIndexSync { last_used_index: 12, no_history: false })
    );
}

#[test]
fn parse_last_trade_index_response_maps_not_found_to_empty_history() {
    let message = kind(
        Some(7),
        None,
        Action::CantDo,
        Some(Payload::CantDo(Some(CantDoReason::NotFound))),
    );
    assert!(validate_correlated_response(&message, 7).is_ok());
    assert_eq!(
        parse_last_trade_index_response(&message).ok(),
        Some(LastTradeIndexSync { last_used_index: 0, no_history: true })
    );
}

#[test]
fn parse_last_trade_index_response_rejects_missing_trade_index() {
    let message = kind(None, None, Action::LastTradeIndex, None);
    let err = parse_last_trade_index_response(&message).err().expect("missing trade_index must fail closed");
    assert!(err.message().contains("omitted trade_index"), "unexpected error: {}", err.message());
}

#[test]
fn parse_last_trade_index_response_rejects_non_positive_trade_index() {
    let message = kind(None, Some(0), Action::LastTradeIndex, None);
    let err = parse_last_trade_index_response(&message).err().expect("zero trade_index must fail closed");
    assert!(err.message().contains("invalid trade index"), "unexpected error: {}", err.message());
    assert!(matches!(err, TradeIndexError::NonPositiveTradeIndex(0)));
}

#[test]
fn parse_last_trade_index_response_rejects_invalid_trade_index_cant_do() {
    let message = kind(
        None,
        None,
        Action::CantDo,
        Some(Payload::CantDo(Some(CantDoReason::InvalidTradeIndex))),
    );
    assert!(parse_last_trade_index_response(&message).is_err());
}

#[test]
fn parse_last_trade_index_response_reports_other_refusals() {
    let other = kind(None, None, Action::CantDo, Some(Payload::CantDo(Some(CantDoReason::InvalidSignature))));
    assert!(matches!(
        parse_last_trade_index_response(&other),
        Err(TradeIndexError::CantDo(CantDoReason::InvalidSignature))
    ));
    let bare = kind(None, None, Action::CantDo, Some(Payload::CantDo(None)));
    assert!(matches!(parse_last_trade_index_response(&bare), Err(TradeIndexError::CantDoUnspecified)));
    let wrong = kind(None, Some(3), Action::NewOrder, None);
    assert!(matches!(
        parse_last_trade_index_response(&wrong),
        Err(TradeIndexError::UnexpectedAction(Action::NewOrder))
    ));
}

#[test]
fn validate_correlated_response_rejects_mismatched_request_id() {
    let message = kind(Some(9), Some(3), Action::LastTradeIndex, None);
    let err = validate_correlated_response(&message, 1).err().expect("mismatch");
    assert!(err.message().contains("request_id mismatch"));
    assert_eq!(
        err.message(),
        "Last-trade-index response request_id mismatch: expected 1, got 9"
    );
}

#[test]
fn validate_correlated_response_rejects_null_request_id() {
    let message = kind(None, Some(3), Action::LastTradeIndex, None);
    let err = validate_correlated_response(&message, 1).err().expect("missing rid");
    assert!(err.message().contains("omitted request_id"));
}
