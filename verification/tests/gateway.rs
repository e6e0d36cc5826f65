use seekergate::handler::auth_reply;
use seekergate::handler::key_status_valid;
use seekergate::handler::require_api_key;
use seekergate::handler::servers_reply;
use seekergate::handler::whereis_reply;
use seekergate::handler::whereis_request;
use seekergate::handler::FetchOutcome;
use seekergate::jsontext::JVal;
use seekergate::query::servers_body;
use seekergate::query::string_bool_value;
use seekergate::upstream::server_records;
use seekergate::upstream::whereis_records;
use seekergate::upstream::Problem;
use seekergate::upstream::RawRecord;
use seekergate::upstream::Scalar;
use seekergate::upstream::ServerRecord;
use seekergate::upstream::TopValue;
use seekergate::upstream::UpstreamBody;
use seekergate::upstream::WhereisRecord;
use seekergate::csvtext::servers_csv;
use seekergate::csvtext::whereis_csv;
use seekergate::num::parse_i32;
use seekergate::num::parse_u16;

fn params(pairs: &[(&str, &str)]) -> Vec<(String, String)> {
    pairs
        .iter()
        .map(|(k, v)| (k.to_string(), v.to_string()))
        .collect()
}

fn record(fields: &[(&str, Scalar)]) -> RawRecord {
    RawRecord {
        fields: fields
            .iter()
            .map(|(k, v)| (k.to_string(), v.clone()))
            .collect(),
    }
}

fn object(fields: Vec<(&str, TopValue)>) -> UpstreamBody {
    UpstreamBody::Object(fields.into_iter().map(|(k, v)| (k.to_string(), v)).collect())
}

#[test]
fn missing_api_key_is_401_with_prompt() {
    let r = require_api_key(&params(&[("name", "x")]));
    match r {
        Ok(_) => panic!("expected a rejection"),
        Err(rep) => {
            assert_eq!(rep.status, 401);
            assert_eq!(
                rep.body,
                "Please provide an API key using the api_key query parameter."
            );
        }
    }
}

#[test]
fn api_key_is_found_wherever_it_stands() {
    let r = require_api_key(&params(&[("asn", "1"), ("api_key", "secret")]));
    match r {
        Ok(k) => assert_eq!(k, "secret"),
        Err(_) => panic!("expected the key"),
    }
}

#[test]
fn auth_outcomes_map_to_replies() {
    assert!(auth_reply(&Ok(true)).is_none());
    let rep = auth_reply(&Ok(false)).expect("a reply");
    assert_eq!(rep.status, 401);
    assert_eq!(rep.body, "Invalid API key");
    let rep = auth_reply(&Err("boom".to_string())).expect("a reply");
    assert_eq!(rep.status, 500);
    assert_eq!(rep.body, "Failed to send request to /user_info: boom");
}

#[test]
fn key_status_only_200_is_valid() {
    assert!(key_status_valid(200));
    assert!(!key_status_valid(401));
    assert!(!key_status_valid(403));
    assert!(!key_status_valid(500));
}

#[test]
fn whereis_with_both_name_and_uuid_is_400() {
    let r = whereis_request(&params(&[("name", "a"), ("uuid", "b")]));
    match r {
        Ok(_) => panic!("expected a rejection"),
        Err(rep) => {
            assert_eq!(rep.status, 400);
            assert_eq!(rep.body, "You cannot provide a name and a UUID at the same time!");
        }
    }
}

#[test]
fn whereis_with_neither_name_nor_uuid_is_400() {
    let r = whereis_request(&params(&[]));
    match r {
        Ok(_) => panic!("expected a rejection"),
        Err(rep) => {
            assert_eq!(rep.status, 400);
            assert_eq!(rep.body, "Please provide either name or uuid in the query!");
        }
    }
}

#[test]
fn whereis_body_carries_the_one_key() {
    let r = whereis_request(&params(&[("name", "foo")])).expect("a body");
    assert_eq!(r, "{\"name\":\"foo\"}");
    let r = whereis_request(&params(&[("uuid", "ab-cd")])).expect("a body");
    assert_eq!(r, "{\"uuid\":\"ab-cd\"}");
}

#[test]
fn whereis_body_escapes_the_value() {
    let r = whereis_request(&params(&[("name", "a\"b\\c")])).expect("a body");
    assert_eq!(r, "{\"name\":\"a\\\"b\\\\c\"}");
    let r = whereis_request(&params(&[("name", "a\nb")])).expect("a body");
    assert_eq!(r, "{\"name\":\"a\\u000ab\"}");
}

#[test]
fn tri_state_parsing_is_total() {
    assert!(matches!(string_bool_value("true"), JVal::Bool(true)));
    assert!(matches!(string_bool_value("yes"), JVal::Bool(true)));
    assert!(matches!(string_bool_value("false"), JVal::Bool(false)));
    assert!(matches!(string_bool_value("no"), JVal::Bool(false)));
    assert!(matches!(string_bool_value(""), JVal::Null));
    assert!(matches!(string_bool_value("TRUE"), JVal::Null));
    assert!(matches!(string_bool_value("maybe"), JVal::Null));
}

#[test]
fn parse_u16_matches_std() {
    for s in ["0", "65535", "65536", "+7", "-1", "", "007", "4x", "+", "99999999999999999999"] {
        assert_eq!(parse_u16(s), s.parse::<u16>().ok(), "input {s:?}");
    }
}

#[test]
fn parse_i32_matches_std() {
    for s in [
        "0",
        "2147483647",
        "2147483648",
        "-2147483648",
        "-2147483649",
        "+42",
        "-",
        "+",
        "",
        "12a",
        "-99999999999999999999",
    ] {
        assert_eq!(parse_i32(s), s.parse::<i32>().ok(), "input {s:?}");
    }
}

const EMPTY_FILTER: &str = "{\"asn\":null,\"country_code\":null,\"cracked\":null,\"description\":null,\"ignore_modded\":null,\"max_players\":null,\"online_players\":null,\"only_bungeespoofable\":null,\"protocol\":null,\"version\":null}";

#[test]
fn servers_body_with_no_params_is_all_null() {
    assert_eq!(servers_body(&params(&[])), EMPTY_FILTER);
}

#[test]
fn servers_body_out_of_range_asn_is_null() {
    let body = servers_body(&params(&[("asn", "65536")]));
    assert_eq!(body, EMPTY_FILTER);
}

#[test]
fn servers_body_in_range_asn_is_a_number() {
    let body = servers_body(&params(&[("asn", "65535")]));
    assert!(body.starts_with("{\"asn\":65535,"), "{body}");
}

#[test]
fn servers_body_max_players_is_an_integer() {
    let body = servers_body(&params(&[("max_players", "50")]));
    assert!(body.contains("\"max_players\":50,"), "{body}");
    assert!(!body.contains("\"max_players\":\"50\""), "{body}");
}

#[test]
fn servers_body_tri_state_and_text_fields() {
    let body = servers_body(&params(&[
        ("cracked", "yes"),
        ("ignore_modded", "nope"),
        ("country_code", "de"),
    ]));
    assert!(body.contains("\"cracked\":true,"), "{body}");
    assert!(body.contains("\"ignore_modded\":null,"), "{body}");
    assert!(body.contains("\"country_code\":\"de\","), "{body}");
}

#[test]
fn whereis_error_field_is_surfaced_not_200() {
    let body = object(vec![(
        "error",
        TopValue::Scalar(Scalar::Str("not found".to_string())),
    )]);
    let rep = whereis_reply(&FetchOutcome::Body(body));
    assert_eq!(rep.status, 500);
    assert!(rep.body.contains("not found"));
}

#[test]
fn servers_error_field_is_surfaced_not_200() {
    let body = object(vec![(
        "error",
        TopValue::Scalar(Scalar::Str("bad key".to_string())),
    )]);
    let rep = servers_reply(&FetchOutcome::Body(body));
    assert_eq!(rep.status, 500);
    assert_eq!(rep.body, "bad key");
}

#[test]
fn transport_and_json_failures_are_500() {
    let rep = whereis_reply(&FetchOutcome::Transport("timed out".to_string()));
    assert_eq!(rep.status, 500);
    assert_eq!(rep.body, "Error sending request to /whereis: timed out");
    let rep = servers_reply(&FetchOutcome::Transport("timed out".to_string()));
    assert_eq!(rep.status, 500);
    assert_eq!(rep.body, "Error sending request: timed out");
    let rep = whereis_reply(&FetchOutcome::BadJson("eof".to_string()));
    assert_eq!(rep.status, 500);
    assert_eq!(rep.body, "Failed to deserialize json: eof");
}

#[test]
fn whereis_records_extracts_typed_rows() {
    let body = object(vec![(
        "data",
        TopValue::Records(vec![record(&[
            ("server", Scalar::Str("1.2.3.4:25565".to_string())),
            ("name", Scalar::Str("alice".to_string())),
            ("uuid", Scalar::Str("u-1".to_string())),
            ("last_seen", Scalar::Int(1700000000)),
        ])]),
    )]);
    let rs = whereis_records(&body).expect("records");
    assert_eq!(rs.len(), 1);
    assert_eq!(rs[0].server, "1.2.3.4:25565");
    assert_eq!(rs[0].last_seen, 1700000000);
}

#[test]
fn a_malformed_record_fails_the_whole_response() {
    let body = object(vec![(
        "data",
        TopValue::Records(vec![
            record(&[
                ("server", Scalar::Str("a".to_string())),
                ("name", Scalar::Str("b".to_string())),
                ("uuid", Scalar::Str("c".to_string())),
                ("last_seen", Scalar::Int(1)),
            ]),
            record(&[
                ("server", Scalar::Str("a".to_string())),
                ("name", Scalar::Int(7)),
                ("uuid", Scalar::Str("c".to_string())),
                ("last_seen", Scalar::Int(1)),
            ]),
        ]),
    )]);
    assert!(matches!(whereis_records(&body), Err(Problem::Shape)));
}

#[test]
fn missing_data_key_is_a_shape_failure() {
    let body = object(vec![]);
    assert!(matches!(whereis_records(&body), Err(Problem::Shape)));
    assert!(matches!(server_records(&UpstreamBody::NotObject), Err(Problem::Shape)));
}

#[test]
fn non_string_error_field_is_a_shape_failure() {
    let body = object(vec![("error", TopValue::Scalar(Scalar::Int(3)))]);
    assert!(matches!(whereis_records(&body), Err(Problem::Shape)));
}

#[test]
fn whereis_csv_has_header_and_rows() {
    let rows = vec![WhereisRecord {
        server: "h:1".to_string(),
        name: "ali,ce".to_string(),
        uuid: "u1".to_string(),
        last_seen: -3,
    }];
    let csv = whereis_csv(&rows);
    assert_eq!(csv, "server,name,uuid,last_seen\nh:1,\"ali,ce\",u1,-3\n");
}

#[test]
fn whereis_csv_of_no_records_is_empty() {
    assert_eq!(whereis_csv(&Vec::new()), "");
    assert_eq!(servers_csv(&Vec::new()), "");
}

fn sample_server(description: &str, cracked: Option<bool>) -> ServerRecord {
    ServerRecord {
        server: "s:1".to_string(),
        cracked,
        description: description.to_string(),
        last_seen: 5,
        max_players: 20,
        online_players: -1,
        protocol: 763,
        version: "1.20".to_string(),
    }
}

#[test]
fn servers_csv_escapes_newline_comma_and_quote() {
    let csv = servers_csv(&vec![sample_server("a\nb,c\"d", Some(true))]);
    let expected = "server,cracked,description,last_seen,max_players,online_players,protocol,version\n\
        s:1,true,\"a\\nb,c\"\"d\",5,20,-1,763,1.20\n";
    assert_eq!(csv, expected);
}

#[test]
fn servers_csv_renders_absent_cracked_as_null() {
    let csv = servers_csv(&vec![sample_server("d", None)]);
    assert_eq!(
        csv,
        "server,cracked,description,last_seen,max_players,online_players,protocol,version\n\
         s:1,null,d,5,20,-1,763,1.20\n"
    );
}

#[test]
fn servers_reply_end_to_end_with_absent_cracked() {
    let body = object(vec![(
        "data",
        TopValue::Records(vec![record(&[
            ("server", Scalar::Str("s:1".to_string())),
            ("description", Scalar::Str("d".to_string())),
            ("version", Scalar::Str("1.20".to_string())),
            ("last_seen", Scalar::Int(5)),
            ("max_players", Scalar::Int(20)),
            ("online_players", Scalar::Int(-1)),
            ("protocol", Scalar::Int(763)),
        ])]),
    )]);
    let rep = servers_reply(&FetchOutcome::Body(body));
    assert_eq!(rep.status, 200);
    let row = rep.body.lines().nth(1).expect("a data row");
    assert_eq!(row.split(',').nth(1), Some("null"));
}

#[test]
fn server_record_range_violations_fail_the_shape() {
    let mk = |last_seen: i64| {
        object(vec![(
            "data",
            TopValue::Records(vec![record(&[
                ("server", Scalar::Str("s".to_string())),
                ("description", Scalar::Str("d".to_string())),
                ("version", Scalar::Str("v".to_string())),
                ("last_seen", Scalar::Int(last_seen)),
                ("max_players", Scalar::Int(0)),
                ("online_players", Scalar::Int(0)),
                ("protocol", Scalar::Int(0)),
            ])]),
        )])
    };
    assert!(server_records(&mk(-1)).is_err());
    assert!(server_records(&mk(4294967296)).is_err());
    assert!(server_records(&mk(0)).is_ok());
}
