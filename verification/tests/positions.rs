use alpaca_types::errors::DecodeError;
use alpaca_types::numeric::Number;
use alpaca_types::orders::{AssetClass, OrderStatus};
use alpaca_types::positions::{
    decode_open_position, CloseAllPositionsResponse, OpenPosition, PositionSide,
};

const LONG_INPUT: &str = r#"
        {
            "asset_id": "3fa85f64-5717-4562-b3fc-2c963f66afa6",
            "symbol": "AAPL",
            "exchange": "NYSE",
            "asset_class": "us_equity",
            "avg_entry_price": "12.5",
            "qty": "105.0",
            "qty_available": "0.0",
            "side": "long",
            "market_value": "1020.5",
            "cost_basis": "1005.0",
            "unrealized_pl": "15.0",
            "unrealized_plpc": "1.0",
            "unrealized_intraday_pl": "1.5",
            "unrealized_intraday_plpc": "0.4",
            "current_price": "12.0",
            "lastday_price": "11.23",
            "change_today": "0.5",
            "asset_marginable": true
        }
        "#;

const SHORT_INPUT: &str = r#"
        {
            "asset_id":"02ee28f8-d7a5-41ef-b212-a66d8dd85c4d",
            "symbol":"PENN",
            "exchange":"NASDAQ",
            "asset_class":"us_equity",
            "avg_entry_price":"18.36",
            "qty":"-100",
            "qty_available":"-100",
            "side":"short",
            "market_value":"-1821.0",
            "cost_basis":"-1836.0",
            "unrealized_pl":"1.5",
            "unrealized_plpc":"0.0081699346405229",
            "unrealized_intraday_pl":"1.5",
            "unrealized_intraday_plpc":"0.01",
            "current_price":"18.21",
            "lastday_price":"18.57",
            "change_today":"-0.0193861066235864",
            "asset_marginable":true
        }
        "#;

fn position_float(n: &Number) -> f64 {
    n.as_str().parse::<f64>().expect("a number's text is a float")
}

#[test]
fn position_parses() {
    let parsed = decode_open_position(LONG_INPUT.as_bytes());
    assert!(parsed.is_ok());

    // Testing a short position as well.
    let parsed_short = decode_open_position(SHORT_INPUT.as_bytes()).expect("failed short");
    println!("{parsed_short:#?}");
}

#[test]
fn long_position_holds_what_was_sent() {
    let p = decode_open_position(LONG_INPUT.as_bytes()).expect("decodes");
    assert_eq!(
        p.asset_id,
        uuid::Uuid::parse_str("3fa85f64-5717-4562-b3fc-2c963f66afa6").unwrap()
    );
    assert_eq!(p.symbol, "AAPL");
    assert_eq!(p.exchange, "NYSE");
    assert_eq!(p.asset_class, AssetClass::USEquity);
    assert_eq!(p.avg_entry_price.as_ref().map(position_float), Some(12.5));
    assert_eq!(position_float(&p.qty), 105.0);
    assert_eq!(position_float(&p.qty_available), 0.0);
    assert_eq!(p.side, PositionSide::Long);
    assert_eq!(position_float(&p.market_value), 1020.5);
    assert_eq!(position_float(&p.cost_basis), 1005.0);
    assert_eq!(position_float(&p.unrealized_pl), 15.0);
    assert_eq!(position_float(&p.unrealized_plpc), 1.0);
    assert_eq!(position_float(&p.unrealized_intraday_pl), 1.5);
    assert_eq!(position_float(&p.unrealized_intraday_plpc), 0.4);
    assert_eq!(position_float(&p.current_price), 12.0);
    assert_eq!(position_float(&p.lastday_price), 11.23);
    assert_eq!(position_float(&p.change_today), 0.5);
    assert!(p.asset_marginable);
}

#[test]
fn short_position_keeps_its_sign() {
    let p = decode_open_position(SHORT_INPUT.as_bytes()).expect("decodes");
    assert_eq!(position_float(&p.qty), -100.0);
    assert_eq!(position_float(&p.qty_available), -100.0);
    assert_eq!(p.side, PositionSide::Short);
    assert_eq!(position_float(&p.market_value), -1821.0);
    assert_eq!(position_float(&p.change_today), -0.0193861066235864);
}

#[test]
fn sign_and_side_are_not_held_against_each_other() {
    let text = SHORT_INPUT.replace("\"side\":\"short\"", "\"side\":\"long\"");
    let p = decode_open_position(text.as_bytes()).expect("decodes");
    assert_eq!(position_float(&p.qty), -100.0);
    assert_eq!(p.side, PositionSide::Long);
}

#[test]
fn empty_intraday_percentage_counts_as_zero() {
    let text = LONG_INPUT.replace("\"unrealized_intraday_plpc\": \"0.4\"", "\"unrealized_intraday_plpc\": \"\"");
    let p = decode_open_position(text.as_bytes()).expect("decodes");
    assert_eq!(position_float(&p.unrealized_intraday_plpc), 0.0);
    let text = LONG_INPUT.replace("\"unrealized_intraday_plpc\": \"0.4\"", "\"unrealized_intraday_plpc\": \"n/a\"");
    let p = decode_open_position(text.as_bytes()).expect("decodes");
    assert_eq!(position_float(&p.unrealized_intraday_plpc), 0.0);
    let text = LONG_INPUT.replace("\"unrealized_intraday_plpc\": \"0.4\"", "\"unrealized_intraday_plpc\": null");
    assert!(matches!(decode_open_position(text.as_bytes()), Err(DecodeError::MalformedPayload)));
}

#[test]
fn entry_price_may_be_absent() {
    let text = LONG_INPUT.replace("\"avg_entry_price\": \"12.5\"", "\"avg_entry_price\": null");
    let p = decode_open_position(text.as_bytes()).expect("decodes");
    assert!(p.avg_entry_price.is_none());
    let text = LONG_INPUT.replace("\"avg_entry_price\": \"12.5\",", "");
    let p = decode_open_position(text.as_bytes()).expect("decodes");
    assert!(p.avg_entry_price.is_none());
    let text = LONG_INPUT.replace("\"avg_entry_price\": \"12.5\"", "\"avg_entry_price\": \"\"");
    assert!(matches!(decode_open_position(text.as_bytes()), Err(DecodeError::InvalidNumber)));
}

#[test]
fn position_failures_are_told_apart() {
    let text = LONG_INPUT.replace("\"qty\": \"105.0\"", "\"qty\": \"many\"");
    assert!(matches!(decode_open_position(text.as_bytes()), Err(DecodeError::InvalidNumber)));
    let text = LONG_INPUT.replace("\"qty\": \"105.0\"", "\"qty\": 105.0");
    assert!(matches!(decode_open_position(text.as_bytes()), Err(DecodeError::MalformedPayload)));
    let text = LONG_INPUT.replace("\"side\": \"long\"", "\"side\": \"flat\"");
    match decode_open_position(text.as_bytes()) {
        Err(DecodeError::UnknownVariant { field, value }) => {
            assert_eq!((field.as_str(), value.as_str()), ("side", "flat"));
        }
        other => panic!("unexpected: {:?}", other.map(|_| ())),
    }
    let text = LONG_INPUT.replace("\"asset_class\": \"us_equity\"", "\"asset_class\": \"bond\"");
    match decode_open_position(text.as_bytes()) {
        Err(DecodeError::UnknownVariant { field, value }) => {
            assert_eq!((field.as_str(), value.as_str()), ("asset_class", "bond"));
        }
        other => panic!("unexpected: {:?}", other.map(|_| ())),
    }
    assert!(matches!(decode_open_position(b"not json"), Err(DecodeError::MalformedPayload)));
    assert!(matches!(OpenPosition::from_bytes(b"null"), Err(DecodeError::MalformedPayload)));
}

#[test]
fn position_side_table_goes_both_ways() {
    for (variant, wire) in [(PositionSide::Long, "long"), (PositionSide::Short, "short")] {
        assert_eq!(variant.as_str(), wire);
        assert_eq!(variant.to_string(), wire);
        assert_eq!(PositionSide::from_wire(wire).unwrap(), variant);
    }
    assert!(matches!(PositionSide::from_wire("Long"), Err(DecodeError::UnknownVariant { .. })));
}

#[test]
fn close_all_positions_decodes_with_a_numeric_status() {
    let body = r#"{
        "id": "7b08df51-c1ac-453c-99f9-323a5f075f0d", "client_order_id": "c",
        "created_at": "2023-12-12T22:31:24Z", "updated_at": "2023-12-12T22:31:24Z",
        "submitted_at": "2023-12-12T22:31:24Z",
        "asset_id": "b0b6dd9d-8b9b-48a9-ba46-b9d54906e415", "symbol": "AAPL",
        "asset_class": "crypto", "filled_qty": "0", "order_class": "", "type": "market",
        "side": "sell", "time_in_force": "day", "status": "pending_new", "extended_hours": true
    }"#;
    let text = format!("{{\"symbol\": \"AAPL\", \"status\": 200, \"body\": {}}}", body);
    let closed = CloseAllPositionsResponse::from_bytes(text.as_bytes()).expect("decodes");
    assert_eq!(closed.symbol, "AAPL");
    assert_eq!(closed.status, 200);
    assert_eq!(closed.body.status, OrderStatus::PendingNew);
    assert_eq!(closed.body.asset_class, AssetClass::Crypto);
    assert!(closed.body.qty.is_none());
    assert!(closed.body.extended_hours);
    let text = format!("{{\"symbol\": \"AAPL\", \"status\": \"200\", \"body\": {}}}", body);
    assert!(matches!(
        CloseAllPositionsResponse::from_bytes(text.as_bytes()),
        Err(DecodeError::MalformedPayload)
    ));
    let text = format!("{{\"symbol\": \"AAPL\", \"status\": 65536, \"body\": {}}}", body);
    assert!(matches!(
        CloseAllPositionsResponse::from_bytes(text.as_bytes()),
        Err(DecodeError::MalformedPayload)
    ));
    let text = format!("{{\"symbol\": \"AAPL\", \"status\": 65535, \"body\": {}}}", body);
    assert_eq!(CloseAllPositionsResponse::from_bytes(text.as_bytes()).unwrap().status, 65535);
}
