use alpaca_types::errors::{DecodeError, ErrorMessage};
use alpaca_types::identifiers::parse_uuid;
use alpaca_types::json::{is_one_of, parse_json, quote, Json};
use alpaca_types::market_data::crypto::{decode_latest_crypto_bars, CryptoBar, LatestCryptoBars};
use alpaca_types::market_data::stock::{decode_latest_trades, LatestTrades, Trade};
use alpaca_types::table::SymbolTable;

const LATEST_TRADE: &str = r#"
        {
            "trades": {
                "AAPL": {
                    "t": "2022-08-17T09:50:43.361102308Z",
                    "x": "Q",
                    "p": 172.78,
                    "s": 100,
                    "c": [
                        "@",
                        "F",
                        "T"
                    ],
                    "i": 826,
                    "z": "C"
                }
            }
        }
        "#;

const CRYPTO_BARS: &str = r#"
            {
              "bars": {
                "BTC/USD": {
                  "t": "2022-05-27T10:18:00Z",
                  "o": 28999,
                  "h": 29003,
                  "l": 28999,
                  "c": 29003,
                  "v": 0.01,
                  "n": 4,
                  "vw": 29001
                }
              }
            }
            "#;

#[test]
fn crypto_bar_parses() {
    assert!(decode_latest_crypto_bars(CRYPTO_BARS.as_bytes()).is_ok());
}

#[test]
fn latest_trade_parses() {
    let got = decode_latest_trades(LATEST_TRADE.as_bytes());
    assert!(got.is_ok());
}

#[test]
fn latest_trade_holds_what_was_sent() {
    let got: LatestTrades = decode_latest_trades(LATEST_TRADE.as_bytes()).expect("decodes");
    assert_eq!(got.trades.len(), 1);
    assert_eq!(got.trades.name_at(0), "AAPL");
    let trade: &Trade = got.trades.get("AAPL").expect("is there");
    assert_eq!(trade.condition_flags, vec!["@", "F", "T"]);
    assert_eq!(trade.trade_id, 826);
    assert_eq!(trade.price.as_str().parse::<f64>().unwrap(), 172.78);
    assert_eq!(trade.trade_size, 100);
    assert_eq!(trade.timestamp, "2022-08-17T09:50:43.361102308Z");
    assert_eq!(trade.exchange_code, "Q");
    assert_eq!(trade.tape, "C");
    assert!(got.trades.get("MSFT").is_none());
}

#[test]
fn crypto_bar_holds_what_was_sent() {
    let got: LatestCryptoBars = decode_latest_crypto_bars(CRYPTO_BARS.as_bytes()).expect("decodes");
    assert_eq!(got.bars.len(), 1);
    let bar: &CryptoBar = got.bars.get("BTC/USD").expect("is there");
    assert_eq!(bar.timestamp.unix_timestamp(), 1_653_646_680);
    assert_eq!(bar.open.as_str().parse::<f64>().unwrap(), 28999.0);
    assert_eq!(bar.high.as_str().parse::<f64>().unwrap(), 29003.0);
    assert_eq!(bar.low.as_str().parse::<f64>().unwrap(), 28999.0);
    assert_eq!(bar.close.as_str().parse::<f64>().unwrap(), 29003.0);
    assert_eq!(bar.volume.as_str().parse::<f64>().unwrap(), 0.01);
    assert_eq!(bar.trade_count, 4);
    assert_eq!(bar.vwap.as_str().parse::<f64>().unwrap(), 29001.0);
}

#[test]
fn market_data_failures_are_told_apart() {
    assert!(matches!(decode_latest_trades(b"{}"), Err(DecodeError::MalformedPayload)));
    assert!(matches!(decode_latest_trades(b"{\"trades\": null}"), Err(DecodeError::MalformedPayload)));
    assert!(matches!(decode_latest_trades(b"{\"trades\": []}"), Err(DecodeError::MalformedPayload)));
    assert!(matches!(decode_latest_trades(b"{\"trades\""), Err(DecodeError::MalformedPayload)));
    assert_eq!(decode_latest_trades(b"{\"trades\": {}}").unwrap().trades.len(), 0);
    let text = LATEST_TRADE.replace("\"s\": 100", "\"s\": -1");
    assert!(matches!(decode_latest_trades(text.as_bytes()), Err(DecodeError::MalformedPayload)));
    let text = LATEST_TRADE.replace("\"s\": 100", "\"s\": 4294967296");
    assert!(matches!(decode_latest_trades(text.as_bytes()), Err(DecodeError::MalformedPayload)));
    let text = LATEST_TRADE.replace("\"s\": 100", "\"s\": 4294967295");
    assert_eq!(decode_latest_trades(text.as_bytes()).unwrap().trades.value_at(0).trade_size, u32::MAX);
    let text = LATEST_TRADE.replace("\"F\"", "7");
    assert!(matches!(decode_latest_trades(text.as_bytes()), Err(DecodeError::MalformedPayload)));
    let text = LATEST_TRADE.replace("172.78", "\"172.78\"");
    assert!(matches!(decode_latest_trades(text.as_bytes()), Err(DecodeError::MalformedPayload)));
    let text = CRYPTO_BARS.replace("2022-05-27T10:18:00Z", "2022-05-27");
    assert!(matches!(decode_latest_crypto_bars(text.as_bytes()), Err(DecodeError::InvalidTimestamp)));
    let text = CRYPTO_BARS.replace("\"n\": 4", "\"n\": 4.5");
    assert!(matches!(decode_latest_crypto_bars(text.as_bytes()), Err(DecodeError::MalformedPayload)));
}

#[test]
fn several_symbols_are_kept_apart() {
    let text = r#"{"trades": {
        "MSFT": {"t": "a", "x": "Q", "p": 1.5, "s": 1, "c": [], "i": 1, "z": "C"},
        "AAPL": {"t": "b", "x": "V", "p": 2, "s": 2, "c": ["@"], "i": 2, "z": "A"}
    }}"#;
    let got = decode_latest_trades(text.as_bytes()).expect("decodes");
    assert_eq!(got.trades.len(), 2);
    assert_eq!(got.trades.get("MSFT").unwrap().trade_id, 1);
    assert_eq!(got.trades.get("AAPL").unwrap().trade_id, 2);
    assert!(got.trades.get("MSFT").unwrap().condition_flags.is_empty());
    let doc = parse_json(text.as_bytes()).unwrap();
    assert_eq!(LatestTrades::from_json(&doc).unwrap().trades.len(), 2);
}

#[test]
fn a_name_put_twice_keeps_its_place_and_the_last_value() {
    let doc = Json::Object(vec![(
        "trades".to_string(),
        Json::Object(vec![
            ("A".to_string(), trade_json(1)),
            ("B".to_string(), trade_json(2)),
            ("A".to_string(), trade_json(3)),
        ]),
    )]);
    let got = LatestTrades::from_json(&doc).expect("decodes");
    assert_eq!(got.trades.len(), 2);
    assert_eq!(got.trades.name_at(0), "A");
    assert_eq!(got.trades.value_at(0).trade_id, 3);
    assert_eq!(got.trades.name_at(1), "B");
    assert_eq!(got.trades.get("B").unwrap().trade_id, 2);
}

fn trade_json(id: i64) -> Json {
    Json::Object(vec![
        ("c".to_string(), Json::Array(vec![])),
        ("i".to_string(), Json::Number(id.to_string())),
        ("p".to_string(), Json::Number("1.0".to_string())),
        ("s".to_string(), Json::Number("1".to_string())),
        ("t".to_string(), Json::Text(String::new())),
        ("x".to_string(), Json::Text(String::new())),
        ("z".to_string(), Json::Text(String::new())),
    ])
}

#[test]
fn symbol_table_holds_one_value_for_a_name() {
    let table: SymbolTable<Json> = SymbolTable::new();
    assert_eq!(table.len(), 0);
    assert!(table.get("a").is_none());
    let table = table.insert("a".to_string(), Json::Bool(true));
    let table = table.insert("b".to_string(), Json::Null);
    let table = table.insert("a".to_string(), Json::Bool(false));
    assert_eq!(table.len(), 2);
    assert!(matches!(table.get("a"), Some(Json::Bool(false))));
    assert!(matches!(table.get("b"), Some(Json::Null)));
    assert!(table.get("c").is_none());
    assert_eq!(table.name_at(0), "a");
    assert_eq!(table.name_at(1), "b");
    assert!(matches!(table.value_at(1), Json::Null));
}

#[test]
fn json_documents_are_read_as_trees() {
    let doc = parse_json(b"{\"b\": [true, null, \"x\", -3, 2.50], \"a\": {\"k\": 1e2}}").expect("is JSON");
    match doc.get("b") {
        Some(Json::Array(items)) => {
            assert_eq!(items.len(), 5);
            assert!(matches!(items[0], Json::Bool(true)));
            assert!(matches!(items[1], Json::Null));
            assert!(matches!(&items[2], Json::Text(t) if t == "x"));
            assert!(matches!(&items[3], Json::Number(t) if t == "-3"));
            assert!(matches!(&items[4], Json::Number(t) if t == "2.5"));
        }
        other => panic!("unexpected: {:?}", other),
    }
    match doc.get("a") {
        Some(inner) => assert!(matches!(inner.get("k"), Some(Json::Number(t)) if t == "100.0")),
        None => panic!("no member"),
    }
    assert!(doc.get("c").is_none());
    assert!(Json::Null.get("a").is_none());
    assert!(parse_json(b"").is_none());
    assert!(parse_json(b"{\"a\": }").is_none());
    assert!(parse_json(b"[1, 2] x").is_none());
    assert!(matches!(parse_json(b" 7 "), Some(Json::Number(t)) if t == "7"));
}

#[test]
fn first_member_of_a_name_is_the_one_found() {
    let doc = Json::Object(vec![
        ("a".to_string(), Json::Bool(true)),
        ("a".to_string(), Json::Bool(false)),
    ]);
    assert!(matches!(doc.get("a"), Some(Json::Bool(true))));
}

#[test]
fn members_can_be_left_out_by_name() {
    let doc = parse_json(b"{\"a\": 1, \"b\": [2], \"c\": {\"a\": 3}, \"d\": null}").unwrap();
    let names = vec!["a", "d", "zz"];
    match doc.without(&names) {
        Json::Object(members) => {
            assert_eq!(members.len(), 2);
            assert_eq!(members[0].0, "b");
            assert!(matches!(&members[0].1, Json::Array(items) if items.len() == 1));
            assert_eq!(members[1].0, "c");
            assert!(matches!(members[1].1.get("a"), Some(Json::Number(t)) if t == "3"));
        }
        other => panic!("unexpected: {:?}", other),
    }
    assert!(matches!(Json::Bool(true).without(&names), Json::Object(m) if m.is_empty()));
    assert!(is_one_of(&names, "d"));
    assert!(!is_one_of(&names, "b"));
    assert!(!is_one_of(&vec![], "b"));
}

#[test]
fn documents_are_copied_whole() {
    let doc = parse_json(b"{\"a\": [1, {\"b\": \"x\"}], \"c\": false}").unwrap();
    let copy = doc.duplicate();
    assert_eq!(format!("{:?}", copy), format!("{:?}", doc));
}

#[test]
fn texts_are_quoted_as_json_strings() {
    assert_eq!(quote("PTON").unwrap(), "\"PTON\"");
    assert_eq!(quote("").unwrap(), "\"\"");
    assert_eq!(quote("a\"b").unwrap(), "\"a\\\"b\"");
    assert_eq!(quote("tab\there").unwrap(), "\"tab\\there\"");
    assert_eq!(quote("\u{1}").unwrap(), "\"\\u0001\"");
    assert_eq!(quote("é").unwrap(), "\"é\"");
}

#[test]
fn identifiers_are_read_from_text() {
    let id = parse_uuid("3fa85f64-5717-4562-b3fc-2c963f66afa6").expect("reads");
    assert_eq!(id.as_u128(), 0x3fa85f64_5717_4562_b3fc_2c963f66afa6);
    let same = parse_uuid("3FA85F6457174562B3FC2C963F66AFA6").expect("reads");
    assert_eq!(id, same);
    assert!(matches!(parse_uuid(""), Err(DecodeError::MalformedPayload)));
    assert!(matches!(parse_uuid("3fa85f64-5717-4562-b3fc"), Err(DecodeError::MalformedPayload)));
}

#[test]
fn error_message_decodes() {
    let e = ErrorMessage::from_bytes(br#"{"code": 404, "message": "not found"}"#).expect("decodes");
    assert_eq!(e.code, http_serde::http::StatusCode::NOT_FOUND);
    assert_eq!(e.code.as_u16(), 404);
    assert_eq!(e.message, "not found");
    assert_eq!(ErrorMessage::from_bytes(br#"{"code": 100, "message": ""}"#).unwrap().code.as_u16(), 100);
    assert_eq!(ErrorMessage::from_bytes(br#"{"code": 999, "message": ""}"#).unwrap().code.as_u16(), 999);
    for bad in ["99", "1000", "0", "-404", "\"404\"", "404.0", "70000", "null"] {
        let text = format!("{{\"code\": {}, \"message\": \"m\"}}", bad);
        assert!(
            matches!(ErrorMessage::from_bytes(text.as_bytes()), Err(DecodeError::MalformedPayload)),
            "{}",
            bad
        );
    }
    assert!(matches!(
        ErrorMessage::from_bytes(br#"{"code": 404}"#),
        Err(DecodeError::MalformedPayload)
    ));
}

#[test]
fn unknown_variant_names_its_field_and_value() {
    match DecodeError::unknown_variant("status", "held") {
        DecodeError::UnknownVariant { field, value } => {
            assert_eq!(field, "status");
            assert_eq!(value, "held");
        }
        other => panic!("unexpected: {:?}", other),
    }
}
