use mazure::aadclient::{AADClient, AADCredentials, AADToken, AADTokenResponse};
use mazure::client_authentication::AuthenticationError;
use mazure::http::{HttpMethod, HttpStatus};

fn credentials() -> AADCredentials {
    AADCredentials {
        tenant_id: "contoso".into(),
        client_id: "app-1".into(),
        secret: "hunter2".into(),
    }
}

fn answer(expires_on: &str) -> AADTokenResponse {
    AADTokenResponse {
        token_type: "Bearer".into(),
        expires_on: expires_on.into(),
        access_token: "abc.def".into(),
    }
}

fn token(text: &str, expires: u64) -> AADToken {
    AADToken { token: text.into(), expires }
}

#[test]
fn to_token_reads_the_expiry() {
    let granted = answer("1700000000").to_token().unwrap();
    assert_eq!(granted, token("abc.def", 1_700_000_000));
}

#[test]
fn to_token_rejects_an_expiry_that_is_no_number() {
    match answer("tomorrow").to_token() {
        Err(AuthenticationError::ParseError(detail)) => {
            assert_eq!(detail, "invalid digit found in string")
        }
        other => panic!("unexpected {:?}", other),
    }
    match answer("").to_token() {
        Err(AuthenticationError::ParseError(detail)) => {
            assert_eq!(detail, "cannot parse integer from empty string")
        }
        other => panic!("unexpected {:?}", other),
    }
    match answer("18446744073709551616").to_token() {
        Err(AuthenticationError::ParseError(detail)) => {
            assert_eq!(detail, "number too large to fit in target type")
        }
        other => panic!("unexpected {:?}", other),
    }
    match answer("-1").to_token() {
        Err(AuthenticationError::ParseError(_)) => {}
        other => panic!("unexpected {:?}", other),
    }
}

#[test]
fn a_token_is_good_strictly_before_its_expiry() {
    let t = token("t", 1000);
    assert!(!t.is_expired_at(Some(0)));
    assert!(!t.is_expired_at(Some(999)));
    assert!(t.is_expired_at(Some(1000)));
    assert!(t.is_expired_at(Some(1001)));
    assert!(t.is_expired_at(Some(u64::MAX)));
}

#[test]
fn no_token_is_good_without_a_clock() {
    assert!(token("t", 1000).is_expired_at(None));
    assert!(token("t", u64::MAX).is_expired_at(None));
}

#[test]
fn is_expired_goes_by_the_system_clock() {
    assert!(token("t", 0).is_expired());
    assert!(token("t", 1).is_expired());
    assert!(!token("t", u64::MAX).is_expired());
}

#[test]
fn a_token_is_cloned_whole() {
    let t = token("abc", 17);
    assert_eq!(t.clone(), t);
}

#[test]
fn the_token_request_names_endpoint_and_tenant() {
    let client = AADClient::new(credentials(), "https://servicebus.azure.net", None);
    let request = client.get_token();
    assert_eq!(request.method, HttpMethod::Post);
    assert_eq!(request.url, "https://login.microsoftonline.com/contoso/oauth2/token");
    assert_eq!(request.grant_type, "client_credentials");
    assert_eq!(request.client_id, "app-1");
    assert_eq!(request.client_secret, "hunter2");
    assert_eq!(request.resource, "https://servicebus.azure.net");
}

#[test]
fn the_token_request_goes_to_a_named_endpoint() {
    let client = AADClient::new(credentials(), "res", Some("http://localhost:8080"));
    assert_eq!(client.get_token().url, "http://localhost:8080/contoso/oauth2/token");
}

#[test]
fn only_status_200_grants_a_token() {
    assert!(AADClient::get_token_status(Ok(HttpStatus::new(200).unwrap())).is_ok());
    match AADClient::get_token_status(Ok(HttpStatus::new(401).unwrap())) {
        Err(AuthenticationError::AuthenticationAcquisitionError(detail)) => {
            assert_eq!(detail, "401 Unauthorized")
        }
        other => panic!("unexpected {:?}", other),
    }
    match AADClient::get_token_status(Ok(HttpStatus::new(201).unwrap())) {
        Err(AuthenticationError::AuthenticationAcquisitionError(detail)) => {
            assert_eq!(detail, "201 Created")
        }
        other => panic!("unexpected {:?}", other),
    }
    match AADClient::get_token_status(Ok(HttpStatus::new(500).unwrap())) {
        Err(AuthenticationError::AuthenticationAcquisitionError(detail)) => {
            assert_eq!(detail, "500 Internal Server Error")
        }
        other => panic!("unexpected {:?}", other),
    }
}

#[test]
fn a_token_request_that_gets_no_reply_is_a_communication_error() {
    match AADClient::get_token_status(Err("dns failure".into())) {
        Err(AuthenticationError::CommunicationError(detail)) => assert_eq!(detail, "dns failure"),
        other => panic!("unexpected {:?}", other),
    }
}

#[test]
fn the_body_of_the_reply_becomes_the_token() {
    let granted = AADClient::get_token_response(Ok(answer("42"))).unwrap();
    assert_eq!(granted, token("abc.def", 42));
    match AADClient::get_token_response(Err("unexpected end of input".into())) {
        Err(AuthenticationError::CommunicationError(detail)) => {
            assert_eq!(detail, "unexpected end of input")
        }
        other => panic!("unexpected {:?}", other),
    }
    match AADClient::get_token_response(Ok(answer("4x2"))) {
        Err(AuthenticationError::ParseError(detail)) => {
            assert_eq!(detail, "invalid digit found in string")
        }
        other => panic!("unexpected {:?}", other),
    }
}

#[test]
fn an_empty_cache_serves_nothing() {
    let client = AADClient::new(credentials(), "res", None);
    assert_eq!(client.cached_token_at(Some(0)), None);
    assert_eq!(client.cached_token_at(None), None);
    assert_eq!(client.get_cached_token(), None);
}

#[test]
fn an_unexpired_token_is_served_again_and_again() {
    let mut client = AADClient::new(credentials(), "res", None);
    let stored = client.store_token(Ok(token("first", 1000))).unwrap();
    assert_eq!(stored, token("first", 1000));
    assert_eq!(client.cached_token_at(Some(10)), Some(token("first", 1000)));
    assert_eq!(client.cached_token_at(Some(500)), Some(token("first", 1000)));
    assert_eq!(client.cached_token_at(Some(999)), Some(token("first", 1000)));
}

#[test]
fn an_expired_token_is_replaced_by_one_exchange() {
    let mut client = AADClient::new(credentials(), "res", None);
    client.store_token(Ok(token("first", 1000))).unwrap();
    assert_eq!(client.cached_token_at(Some(1000)), None);
    let stored = client.store_token(Ok(token("second", 2000))).unwrap();
    assert_eq!(stored, token("second", 2000));
    assert_eq!(client.cached_token_at(Some(1000)), Some(token("second", 2000)));
    assert_eq!(client.cached_token_at(Some(1999)), Some(token("second", 2000)));
    assert_eq!(client.cached_token_at(Some(2000)), None);
}

#[test]
fn a_failed_exchange_leaves_the_cache_as_it_was() {
    let mut client = AADClient::new(credentials(), "res", None);
    client.store_token(Ok(token("first", 1000))).unwrap();
    match client.store_token(Err(AuthenticationError::CommunicationError("down".into()))) {
        Err(AuthenticationError::CommunicationError(detail)) => assert_eq!(detail, "down"),
        other => panic!("unexpected {:?}", other),
    }
    assert_eq!(client.cached_token_at(Some(999)), Some(token("first", 1000)));
    assert_eq!(client.cached_token_at(Some(1000)), None);
}

#[test]
fn the_system_clock_decides_what_the_cache_serves() {
    let mut client = AADClient::new(credentials(), "res", None);
    client.store_token(Ok(token("stale", 1))).unwrap();
    assert_eq!(client.get_cached_token(), None);
    client.store_token(Ok(token("lasting", u64::MAX))).unwrap();
    assert_eq!(client.get_cached_token(), Some(token("lasting", u64::MAX)));
    assert_eq!(client.get_cached_token(), Some(token("lasting", u64::MAX)));
}

#[test]
fn credentials_are_cloned_whole() {
    let c = credentials();
    let d = c.clone();
    assert_eq!(d.tenant_id, "contoso");
    assert_eq!(d.client_id, "app-1");
    assert_eq!(d.secret, "hunter2");
}

#[test]
fn a_request_for_a_token_makes_at_most_one_exchange() {
    let mut client = AADClient::new(credentials(), "res", None);
    let mut exchanges = 0;

    let first = client.get_cached_token_with(Some(10), |request| {
        exchanges += 1;
        assert_eq!(request.url, "https://login.microsoftonline.com/contoso/oauth2/token");
        Ok(token("first", 1000))
    });
    assert_eq!(first.unwrap(), token("first", 1000));
    assert_eq!(exchanges, 1);

    for now in [10, 11, 500, 999] {
        let again = client.get_cached_token_with(Some(now), |_| {
            exchanges += 1;
            Ok(token("unwanted", 5000))
        });
        assert_eq!(again.unwrap(), token("first", 1000));
    }
    assert_eq!(exchanges, 1);

    let renewed = client.get_cached_token_with(Some(1000), |_| {
        exchanges += 1;
        Ok(token("second", 2000))
    });
    assert_eq!(renewed.unwrap(), token("second", 2000));
    assert_eq!(exchanges, 2);

    let again = client.get_cached_token_with(Some(1001), |_| {
        exchanges += 1;
        Ok(token("unwanted", 5000))
    });
    assert_eq!(again.unwrap(), token("second", 2000));
    assert_eq!(exchanges, 2);
}

#[test]
fn a_failed_exchange_is_tried_again_by_the_next_request() {
    let mut client = AADClient::new(credentials(), "res", None);
    let failed = client.get_cached_token_with(Some(10), |_| {
        Err(AuthenticationError::AuthenticationAcquisitionError("401 Unauthorized".into()))
    });
    match failed {
        Err(AuthenticationError::AuthenticationAcquisitionError(detail)) => {
            assert_eq!(detail, "401 Unauthorized")
        }
        other => panic!("unexpected {:?}", other),
    }
    assert_eq!(client.cached_token_at(Some(10)), None);
    let granted = client.get_cached_token_with(Some(11), |_| Ok(token("late", 100)));
    assert_eq!(granted.unwrap(), token("late", 100));
}

#[test]
fn without_a_clock_every_request_makes_an_exchange() {
    let mut client = AADClient::new(credentials(), "res", None);
    let mut exchanges = 0;
    for _ in 0..3 {
        let served = client.get_cached_token_with(None, |_| {
            exchanges += 1;
            Ok(token("t", u64::MAX))
        });
        assert_eq!(served.unwrap(), token("t", u64::MAX));
    }
    assert_eq!(exchanges, 3);
}
