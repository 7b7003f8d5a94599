use zipcode_lookup::client::build_uri;
use zipcode_lookup::client::classify_status;
use zipcode_lookup::client::decoded_outcome;
use zipcode_lookup::client::ENDPOINT;
use zipcode_lookup::error::Error;
use zipcode_lookup::model::first_address;
use zipcode_lookup::model::Address;
use zipcode_lookup::model::Response;

fn tokyo_station() -> Address {
    Address {
        address1: "東京都".to_string(),
        address2: "千代田区".to_string(),
        address3: "".to_string(),
        kana1: "ﾄｳｷｮｳﾄ".to_string(),
        kana2: "ﾁﾖﾀ\u{ff9e}ｸ".to_string(),
        kana3: "".to_string(),
        prefcode: "13".to_string(),
        zipcode: "1000000".to_string(),
    }
}

#[test]
fn uri_appends_zipcode_and_limit() {
    let uri = build_uri("100-0000");
    assert_eq!(
        uri,
        "https://zipcloud.ibsnet.co.jp/api/search?zipcode=100-0000&limit=1"
    );
    assert_eq!(ENDPOINT, "https://zipcloud.ibsnet.co.jp/api/search");
}

#[test]
fn uri_passes_code_through_verbatim() {
    let uri = build_uri("999-9999");
    assert_eq!(
        uri,
        "https://zipcloud.ibsnet.co.jp/api/search?zipcode=999-9999&limit=1"
    );
    let empty = build_uri("");
    assert_eq!(empty, "https://zipcloud.ibsnet.co.jp/api/search?zipcode=&limit=1");
}

#[test]
fn ok_status_hands_body_on() {
    match classify_status(200, "{\"status\": 200}".to_string()) {
        Ok(body) => assert_eq!(body, "{\"status\": 200}"),
        Err(_) => panic!("a 200 status must not fail"),
    }
}

#[test]
fn non_ok_status_is_gateway_error() {
    match classify_status(404, "not found".to_string()) {
        Err(Error::Gateway { status_code, reason }) => {
            assert_eq!(status_code, 404);
            assert_eq!(reason, "not found");
        }
        _ => panic!("a 404 status must give a gateway error"),
    }
    match classify_status(500, "{\"message\": \"broken\"}".to_string()) {
        Err(Error::Gateway { status_code, reason }) => {
            assert_eq!(status_code, 500);
            assert_eq!(reason, "{\"message\": \"broken\"}");
        }
        _ => panic!("a 500 status must give a gateway error, JSON body or not"),
    }
}

#[test]
fn found_record_is_returned_field_for_field() {
    let response = Response {
        message: None,
        results: Some(vec![tokyo_station()]),
        status: Some(200),
    };
    match decoded_outcome(Ok(response)) {
        Ok(Some(found)) => assert_eq!(found, tokyo_station()),
        _ => panic!("a non-empty record list must yield its first record"),
    }
}

#[test]
fn later_records_are_discarded() {
    let mut second = tokyo_station();
    second.zipcode = "9999999".to_string();
    let response = Response {
        message: None,
        results: Some(vec![tokyo_station(), second]),
        status: Some(200),
    };
    match decoded_outcome(Ok(response)) {
        Ok(Some(found)) => assert_eq!(found, tokyo_station()),
        _ => panic!("the first of several records must be returned"),
    }
}

#[test]
fn absent_records_mean_none_not_error() {
    let response = Response {
        message: None,
        results: None,
        status: Some(200),
    };
    match decoded_outcome(Ok(response)) {
        Ok(outcome) => assert!(outcome.is_none()),
        Err(_) => panic!("an absent record list is not an error"),
    }
}

#[test]
fn empty_records_mean_none_not_error() {
    let response = Response {
        message: Some("no match".to_string()),
        results: Some(vec![]),
        status: Some(200),
    };
    match decoded_outcome(Ok(response)) {
        Ok(outcome) => assert!(outcome.is_none()),
        Err(_) => panic!("an empty record list is not an error"),
    }
}

#[test]
fn rejected_body_is_decode_error() {
    let verdict = Err("expected value at line 1 column 1".to_string());
    match decoded_outcome(verdict) {
        Err(Error::Decode { reason }) => {
            assert_eq!(reason, "expected value at line 1 column 1");
        }
        _ => panic!("a rejected body must give a decode error, never an outcome"),
    }
}

#[test]
fn first_address_checks_length_before_access() {
    let present_but_empty = Response {
        message: None,
        results: Some(vec![]),
        status: Some(200),
    };
    assert!(first_address(&present_but_empty).is_none());
    let absent = Response {
        message: None,
        results: None,
        status: None,
    };
    assert!(first_address(&absent).is_none());
}

#[test]
fn address_clone_and_equality() {
    let a = tokyo_station();
    let b = a.clone();
    assert_eq!(a, b);
    let mut c = a.clone();
    c.address3 = "丸の内".to_string();
    assert!(a != c);
}

#[test]
fn response_clone_keeps_contents() {
    let response = Response {
        message: Some("ok".to_string()),
        results: Some(vec![tokyo_station()]),
        status: Some(200),
    };
    let copy = response.clone();
    assert_eq!(copy.message, Some("ok".to_string()));
    assert_eq!(copy.status, Some(200));
    assert_eq!(copy.results.unwrap(), vec![tokyo_station()]);
}

#[test]
fn repeated_lookups_agree() {
    let run = || {
        let body = "{\"results\": [..]}".to_string();
        match classify_status(200, body) {
            Ok(_) => decoded_outcome(Ok(Response {
                message: None,
                results: Some(vec![tokyo_station()]),
                status: Some(200),
            })),
            Err(e) => Err(e),
        }
    };
    match (run(), run()) {
        (Ok(Some(first)), Ok(Some(second))) => assert_eq!(first, second),
        _ => panic!("equal inputs must give equal outcomes"),
    }
}
