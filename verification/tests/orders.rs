use alpaca_types::errors::DecodeError;
use alpaca_types::json::{parse_json, Json};
use alpaca_types::numeric::Number;
use alpaca_types::orders::{
    decode_order_response, encode_order_request, AssetClass, OrderError, OrderRequest,
    OrderResponse, OrderSide, OrderStatus, OrderType, PositionClosed, TimeInForce,
};

const TEST_ORDER: &str = r#"
        {
            "id": "7b08df51-c1ac-453c-99f9-323a5f075f0d",
            "client_order_id": "5680c4bc-9ac1-4a12-a44c-df427ba53032",
            "created_at": "2023-12-12T22:31:24.668464435Z",
            "updated_at": "2023-12-12T22:31:24.668464435Z",
            "submitted_at": "2023-12-12T22:31:24.577215743Z",
            "filled_at": null,
            "expired_at": null,
            "canceled_at": null,
            "failed_at": null,
            "replaced_at": null,
            "replaced_by": null,
            "replaces": null,
            "asset_id": "b0b6dd9d-8b9b-48a9-ba46-b9d54906e415",
            "symbol": "AAPL",
            "asset_class": "us_equity",
            "notional": null,
            "qty": "2",
            "filled_qty": "0",
            "filled_avg_price": null,
            "order_class": "",
            "order_type": "limit",
            "type": "limit",
            "side": "buy",
            "time_in_force": "gtc",
            "limit_price": "150",
            "stop_price": null,
            "status": "accepted",
            "extended_hours": false,
            "legs": null,
            "trail_percent": null,
            "trail_price": null,
            "hwm": null,
            "subtag": null,
            "source": null
        }
        "#;

fn float(n: &Number) -> f64 {
    n.as_str().parse::<f64>().expect("a number's text is a float")
}

fn with_member(name: &str, value: &str) -> String {
    let at = TEST_ORDER.find(&format!("\"{}\":", name)).expect("the member is there");
    let end = at + TEST_ORDER[at..].find('\n').expect("a line");
    format!("{}\"{}\": {},{}", &TEST_ORDER[..at], name, value, &TEST_ORDER[end..])
}

#[test]
fn test_parsing_order() {
    let data = decode_order_response(TEST_ORDER.as_bytes());
    assert!(data.is_ok());
}

#[test]
fn test_order_request() {
    let wanted =
        r#"{"symbol":"PTON","qty":"10","side":"buy","type":"market","time_in_force":"day"}"#;

    let new_order = OrderRequest {
        qty: Number::parse(&10.0_f64.to_string()).expect("a float's text is a number"),
        side: OrderSide::Buy,
        symbol: "PTON".to_string(),
        order_type: OrderType::Market,
        time_in_force: TimeInForce::Day,
    };
    let got = new_order.to_json_text().expect("failed to parse");
    println!("{got}");
    assert!(wanted == &got);
}

#[test]
fn order_request_bytes_are_the_text() {
    let order = OrderRequest {
        qty: Number::parse("0.5").unwrap(),
        side: OrderSide::Sell,
        symbol: "BRK.B".to_string(),
        order_type: OrderType::Limit,
        time_in_force: TimeInForce::Gtc,
    };
    let bytes = encode_order_request(&order).expect("encodes");
    assert_eq!(
        String::from_utf8(bytes).unwrap(),
        r#"{"symbol":"BRK.B","qty":"0.5","side":"sell","type":"limit","time_in_force":"gtc"}"#
    );
}

#[test]
fn order_request_escapes_the_symbol() {
    let order = OrderRequest {
        qty: Number::parse("1").unwrap(),
        side: OrderSide::Buy,
        symbol: "A\"B\\C\n".to_string(),
        order_type: OrderType::Market,
        time_in_force: TimeInForce::Day,
    };
    let got = order.to_json_text().expect("encodes");
    assert_eq!(
        got,
        r#"{"symbol":"A\"B\\C\n","qty":"1","side":"buy","type":"market","time_in_force":"day"}"#
    );
    let back = parse_json(got.as_bytes()).expect("the text is JSON");
    assert!(matches!(back.get("symbol"), Some(Json::Text(t)) if t == "A\"B\\C\n"));
}

#[test]
fn order_request_assembles_from_quoted_parts() {
    let order = OrderRequest {
        qty: Number::parse("3").unwrap(),
        side: OrderSide::Sell,
        symbol: "X".to_string(),
        order_type: OrderType::Market,
        time_in_force: TimeInForce::Day,
    };
    assert_eq!(
        order.assemble("\"X\"", "\"3\""),
        r#"{"symbol":"X","qty":"3","side":"sell","type":"market","time_in_force":"day"}"#
    );
}

#[test]
fn order_response_holds_what_was_sent() {
    let order = decode_order_response(TEST_ORDER.as_bytes()).expect("decodes");
    assert_eq!(order.qty.as_ref().map(float), Some(2.0));
    assert_eq!(order.limit_price.as_ref().map(float), Some(150.0));
    assert_eq!(order.status, OrderStatus::Accepted);
    assert!(order.filled_avg_price.is_none());
    assert!(order.stop_price.is_none());
    assert!(order.notional.is_none());
    assert_eq!(order.filled_qty, "0");
    assert_eq!(order.symbol, "AAPL");
    assert_eq!(order.client_order_id, "5680c4bc-9ac1-4a12-a44c-df427ba53032");
    assert_eq!(order.order_class, "");
    assert_eq!(order.asset_class, AssetClass::USEquity);
    assert_eq!(order.order_type, OrderType::Limit);
    assert_eq!(order.order_side, OrderSide::Buy);
    assert_eq!(order.time_in_force, TimeInForce::Gtc);
    assert!(!order.extended_hours);
    assert_eq!(order.id, uuid::Uuid::parse_str("7b08df51-c1ac-453c-99f9-323a5f075f0d").unwrap());
    assert_eq!(
        order.asset_id,
        uuid::Uuid::parse_str("b0b6dd9d-8b9b-48a9-ba46-b9d54906e415").unwrap()
    );
    assert_eq!(order.created_at.unix_timestamp_nanos(), 1_702_420_284_668_464_435);
    assert_eq!(order.submitted_at.unix_timestamp_nanos(), 1_702_420_284_577_215_743);
    assert_eq!(order.updated_at, order.created_at);
    assert!(order.filled_at.is_none() && order.expired_at.is_none());
    assert!(order.canceled_at.is_none() && order.failed_at.is_none());
    assert!(order.replaced_at.is_none());
    assert!(order.replaced_by.is_none() && order.replaces.is_none());
    assert!(order.trail_percent.is_none() && order.trail_price.is_none());
    assert!(order.hwm.is_none() && order.subtag.is_none() && order.source.is_none());
}

#[test]
fn order_response_keeps_members_it_does_not_know() {
    let order = decode_order_response(TEST_ORDER.as_bytes()).expect("decodes");
    match &order.legs {
        Json::Object(members) => {
            let names: Vec<&str> = members.iter().map(|m| m.0.as_str()).collect();
            assert_eq!(names, vec!["legs", "order_type"]);
            assert!(matches!(members[0].1, Json::Null));
            assert!(matches!(&members[1].1, Json::Text(t) if t == "limit"));
        }
        other => panic!("unexpected: {:?}", other),
    }
}

#[test]
fn order_response_keeps_opaque_members() {
    let text = with_member("trail_percent", "{\"a\": [1, 2.5]}");
    let order = decode_order_response(text.as_bytes()).expect("decodes");
    match order.trail_percent {
        Some(Json::Object(members)) => {
            assert_eq!(members.len(), 1);
            assert_eq!(members[0].0, "a");
            match &members[0].1 {
                Json::Array(items) => {
                    assert!(matches!(&items[0], Json::Number(t) if t == "1"));
                    assert!(matches!(&items[1], Json::Number(t) if t == "2.5"));
                }
                other => panic!("unexpected: {:?}", other),
            }
        }
        other => panic!("unexpected: {:?}", other),
    }
}

#[test]
fn order_response_takes_optional_timestamps() {
    let text = with_member("filled_at", "\"2023-12-12T22:31:25+01:00\"");
    let order = decode_order_response(text.as_bytes()).expect("decodes");
    let filled = order.filled_at.expect("was given");
    assert_eq!(filled.unix_timestamp(), 1_702_416_685);
    assert_eq!(filled.offset().whole_hours(), 1);
}

#[test]
fn order_response_refuses_an_unknown_status() {
    let text = with_member("status", "\"held\"");
    match decode_order_response(text.as_bytes()) {
        Err(DecodeError::UnknownVariant { field, value }) => {
            assert_eq!(field, "status");
            assert_eq!(value, "held");
        }
        other => panic!("unexpected: {:?}", other.map(|_| ())),
    }
}

#[test]
fn order_response_refuses_a_bad_number() {
    let text = with_member("limit_price", "\"a lot\"");
    assert!(matches!(decode_order_response(text.as_bytes()), Err(DecodeError::InvalidNumber)));
}

#[test]
fn order_response_refuses_a_bad_timestamp() {
    let text = with_member("created_at", "\"yesterday\"");
    assert!(matches!(decode_order_response(text.as_bytes()), Err(DecodeError::InvalidTimestamp)));
    let text = with_member("failed_at", "\"2023-13-12T22:31:24Z\"");
    assert!(matches!(decode_order_response(text.as_bytes()), Err(DecodeError::InvalidTimestamp)));
}

#[test]
fn order_response_refuses_a_malformed_payload() {
    assert!(matches!(decode_order_response(b"{"), Err(DecodeError::MalformedPayload)));
    assert!(matches!(decode_order_response(b"[]"), Err(DecodeError::MalformedPayload)));
    let text = with_member("symbol", "7");
    assert!(matches!(decode_order_response(text.as_bytes()), Err(DecodeError::MalformedPayload)));
    let text = with_member("id", "\"not-a-uuid\"");
    assert!(matches!(decode_order_response(text.as_bytes()), Err(DecodeError::MalformedPayload)));
    let text = with_member("extended_hours", "\"no\"");
    assert!(matches!(decode_order_response(text.as_bytes()), Err(DecodeError::MalformedPayload)));
    let text = TEST_ORDER.replace("\"filled_qty\": \"0\",", "");
    assert!(matches!(decode_order_response(text.as_bytes()), Err(DecodeError::MalformedPayload)));
}

#[test]
fn order_response_reports_the_first_failure() {
    let text = with_member("status", "\"held\"");
    let text = text.replace("\"2023-12-12T22:31:24.577215743Z\"", "\"soon\"");
    assert!(matches!(decode_order_response(text.as_bytes()), Err(DecodeError::InvalidTimestamp)));
}

#[test]
fn order_response_reads_from_a_document() {
    let doc = parse_json(TEST_ORDER.as_bytes()).expect("is JSON");
    let order = OrderResponse::from_json(&doc).expect("decodes");
    assert_eq!(order.status, OrderStatus::Accepted);
    assert!(matches!(OrderResponse::field(None), Err(DecodeError::MalformedPayload)));
}

#[test]
fn unknown_order_status_is_refused() {
    match OrderStatus::from_wire("held") {
        Err(DecodeError::UnknownVariant { field, value }) => {
            assert_eq!(field, "status");
            assert_eq!(value, "held");
        }
        other => panic!("unexpected: {:?}", other),
    }
    assert!(matches!(OrderStatus::from_wire("New"), Err(DecodeError::UnknownVariant { .. })));
    assert!(matches!(OrderStatus::from_wire(""), Err(DecodeError::UnknownVariant { .. })));
    assert!(matches!(
        OrderStatus::from_wire("partiallyfilled"),
        Err(DecodeError::UnknownVariant { .. })
    ));
}

#[test]
fn order_status_table_goes_both_ways() {
    let table = [
        (OrderStatus::New, "new"),
        (OrderStatus::PartiallyFilled, "partially_filled"),
        (OrderStatus::Filled, "filled"),
        (OrderStatus::DoneForDay, "done_for_day"),
        (OrderStatus::Canceled, "canceled"),
        (OrderStatus::Expired, "expired"),
        (OrderStatus::Replaced, "replaced"),
        (OrderStatus::PendingCancel, "pending_cancel"),
        (OrderStatus::PendingReplace, "pending_replace"),
        (OrderStatus::Accepted, "accepted"),
        (OrderStatus::PendingNew, "pending_new"),
        (OrderStatus::AcceptedForBidding, "accepted_for_bidding"),
        (OrderStatus::Stopped, "stopped"),
        (OrderStatus::Rejected, "rejected"),
        (OrderStatus::Suspended, "suspended"),
        (OrderStatus::Calculated, "calculated"),
    ];
    assert_eq!(table.len(), 16);
    for (variant, wire) in table {
        assert_eq!(variant.as_str(), wire);
        assert_eq!(variant.to_string(), wire);
        assert_eq!(OrderStatus::from_wire(wire).unwrap(), variant);
    }
}

#[test]
fn small_tables_go_both_ways() {
    for (variant, wire) in [(OrderSide::Buy, "buy"), (OrderSide::Sell, "sell")] {
        assert_eq!(variant.to_string(), wire);
        assert_eq!(OrderSide::from_wire(wire).unwrap(), variant);
    }
    for (variant, wire) in [(OrderType::Market, "market"), (OrderType::Limit, "limit")] {
        assert_eq!(variant.to_string(), wire);
        assert_eq!(OrderType::from_wire(wire).unwrap(), variant);
    }
    for (variant, wire) in [(TimeInForce::Day, "day"), (TimeInForce::Gtc, "gtc")] {
        assert_eq!(variant.to_string(), wire);
        assert_eq!(TimeInForce::from_wire(wire).unwrap(), variant);
    }
    for (variant, wire) in [
        (AssetClass::USEquity, "us_equity"),
        (AssetClass::USOption, "us_option"),
        (AssetClass::Crypto, "crypto"),
    ] {
        assert_eq!(variant.to_string(), wire);
        assert_eq!(AssetClass::from_wire(wire).unwrap(), variant);
    }
    match OrderSide::from_wire("hold") {
        Err(DecodeError::UnknownVariant { field, value }) => {
            assert_eq!((field.as_str(), value.as_str()), ("side", "hold"));
        }
        other => panic!("unexpected: {:?}", other),
    }
    match OrderType::from_wire("stop") {
        Err(DecodeError::UnknownVariant { field, .. }) => assert_eq!(field, "type"),
        other => panic!("unexpected: {:?}", other),
    }
    match TimeInForce::from_wire("ioc") {
        Err(DecodeError::UnknownVariant { field, .. }) => assert_eq!(field, "time_in_force"),
        other => panic!("unexpected: {:?}", other),
    }
    match AssetClass::from_wire("USEquity") {
        Err(DecodeError::UnknownVariant { field, .. }) => assert_eq!(field, "asset_class"),
        other => panic!("unexpected: {:?}", other),
    }
}

#[test]
fn order_error_decodes() {
    let e = OrderError::from_bytes(br#"{"code": 40310000, "message": "insufficient buying power"}"#)
        .expect("decodes");
    assert_eq!(e.code, 40310000);
    assert_eq!(e.message, "insufficient buying power");
    assert!(matches!(
        OrderError::from_bytes(br#"{"code": 1.5, "message": "x"}"#),
        Err(DecodeError::MalformedPayload)
    ));
    assert!(matches!(
        OrderError::from_bytes(br#"{"code": 9223372036854775808, "message": "x"}"#),
        Err(DecodeError::MalformedPayload)
    ));
    let low = OrderError::from_bytes(br#"{"code": -9223372036854775808, "message": ""}"#).unwrap();
    assert_eq!(low.code, i64::MIN);
    let high = OrderError::from_bytes(br#"{"code": 9223372036854775807, "message": ""}"#).unwrap();
    assert_eq!(high.code, i64::MAX);
}

#[test]
fn position_closed_decodes_with_a_text_status() {
    let text = format!("{{\"symbol\": \"AAPL\", \"status\": \"200\", \"body\": {}}}", TEST_ORDER);
    let closed = PositionClosed::from_bytes(text.as_bytes()).expect("decodes");
    assert_eq!(closed.symbol, "AAPL");
    assert_eq!(closed.status, "200");
    assert_eq!(closed.body.status, OrderStatus::Accepted);
    let text = format!("{{\"symbol\": \"AAPL\", \"status\": 200, \"body\": {}}}", TEST_ORDER);
    assert!(matches!(
        PositionClosed::from_bytes(text.as_bytes()),
        Err(DecodeError::MalformedPayload)
    ));
    assert!(matches!(
        PositionClosed::from_bytes(br#"{"symbol": "AAPL", "status": "200"}"#),
        Err(DecodeError::MalformedPayload)
    ));
}
