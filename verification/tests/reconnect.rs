use ownserver::clock::Timestamp;
use ownserver::id::ClientId;
use ownserver::reconnect::{
    ReconnectTokenClaims, ReconnectTokenError, ReconnectTokenPayload,
};
use std::time::{Duration, Instant};

#[test]
fn test_encode_decode() -> Result<(), ReconnectTokenError> {
    let secret = "foobarbaz";
    let client_id = ClientId::new();

    let token = ReconnectTokenPayload::new(client_id).into_token(secret)?;
    let decoded = ReconnectTokenPayload::decode_token(secret, &token)?;

    assert_eq!(decoded.client_id, client_id);
    Ok(())
}

#[test]
fn test_decode_with_invalid_secret() -> Result<(), ReconnectTokenError> {
    let client_id = ClientId::new();

    let token = ReconnectTokenPayload::new(client_id).into_token("foobarbaz")?;
    let decode_result = ReconnectTokenPayload::decode_token("hogepiyo", &token);

    assert!(decode_result.is_err());
    Ok(())
}

#[test]
fn test_decode_after_expired() -> Result<(), ReconnectTokenError> {
    let secret = "foobarbaz";
    let client_id = ClientId::new();

    let token = ReconnectTokenPayload::new(client_id)._into_token(secret, 3)?;
    let issued = Instant::now();
    while issued.elapsed() < Duration::from_secs(5) {}

    let decode_result = ReconnectTokenPayload::_decode_token(secret, &token, 0);
    assert_eq!(decode_result, Err(ReconnectTokenError::Rejected));
    Ok(())
}

#[test]
fn token_past_its_end_is_taken_within_the_leeway() -> Result<(), ReconnectTokenError> {
    let payload = ReconnectTokenPayload::new(ClientId::new());
    let token = payload._into_token("secret", -20)?;
    assert_eq!(ReconnectTokenPayload::decode_token("secret", &token), Ok(payload));
    assert!(ReconnectTokenPayload::_decode_token("secret", &token, 5).is_err());
    let token = payload._into_token("secret", -120)?;
    assert!(ReconnectTokenPayload::decode_token("secret", &token).is_err());
    Ok(())
}

#[test]
fn token_has_three_parts_and_the_usual_header() {
    let token = ReconnectTokenPayload::new(ClientId::default()).into_token("secret").unwrap();
    let parts: Vec<&str> = token.split('.').collect();
    assert_eq!(parts.len(), 3);
    let header = base64::decode_config(parts[0], base64::URL_SAFE_NO_PAD).unwrap();
    let header: serde_json::Value = serde_json::from_slice(&header).unwrap();
    assert_eq!(header["alg"], "HS256");
    assert_eq!(header["typ"], "JWT");
    let body = base64::decode_config(parts[1], base64::URL_SAFE_NO_PAD).unwrap();
    let text = String::from_utf8(body).unwrap();
    assert!(text.starts_with(
        "{\"payload\":{\"client_id\":\"00000000-0000-0000-0000-000000000000\"},\"iat\":"
    ));
    let claims: serde_json::Value = serde_json::from_str(&text).unwrap();
    assert_eq!(claims["exp"].as_i64().unwrap() - claims["iat"].as_i64().unwrap(), 300);
}

#[test]
fn text_that_is_no_token() {
    assert_eq!(
        ReconnectTokenPayload::decode_token("secret", "invalid jwt"),
        Err(ReconnectTokenError::Rejected)
    );
}

fn signed(claims: &str) -> String {
    let claims = serde_json::from_str::<serde_json::Value>(claims).unwrap();
    jsonwebtoken::encode(
        &jsonwebtoken::Header::default(),
        &claims,
        &jsonwebtoken::EncodingKey::from_secret(b"secret"),
    )
    .unwrap()
}

#[test]
fn token_of_another_kind_is_malformed() {
    for payload in [
        "\"host\":\"foo\"",
        "\"payload\":[]",
        "\"payload\":[1]",
        "\"payload\":{\"0\":\"00000000-0000-0000-0000-000000000007\"}",
        "\"payload\":[\"00000000-0000-0000-0000-000000000007\",1]",
    ] {
        let token = signed(&format!("{{{payload},\"iat\":1,\"exp\":99999999999}}"));
        assert_eq!(
            ReconnectTokenPayload::decode_token("secret", &token),
            Err(ReconnectTokenError::MalformedClaims)
        );
    }
}

#[test]
fn payload_may_be_an_array_of_one() {
    let token = signed(
        "{\"payload\":[\"00000000-0000-0000-0000-000000000007\"],\"iat\":1,\"exp\":99999999999}",
    );
    assert_eq!(
        ReconnectTokenPayload::decode_token("secret", &token),
        Ok(ReconnectTokenPayload::new(ClientId { uuid: 7 }))
    );
}

#[test]
fn token_without_an_end_is_rejected() {
    let payload = "\"payload\":{\"client_id\":\"00000000-0000-0000-0000-000000000007\"}";
    for end in ["", ",\"exp\":-1", ",\"exp\":\"soon\"", ",\"exp\":1"] {
        let token = signed(&format!("{{{payload},\"iat\":1{end}}}"));
        assert_eq!(
            ReconnectTokenPayload::decode_token("secret", &token),
            Err(ReconnectTokenError::Rejected)
        );
    }
}

#[test]
fn token_with_two_ends_is_rejected() {
    let claims = "{\"payload\":{\"client_id\":\"00000000-0000-0000-0000-000000000007\"},\
                  \"iat\":1,\"exp\":99999999999,\"exp\":99999999999}";
    let token = jsonwebtoken::encode(
        &jsonwebtoken::Header::default(),
        &serde_json::value::RawValue::from_string(claims.to_string()).unwrap(),
        &jsonwebtoken::EncodingKey::from_secret(b"secret"),
    )
    .unwrap();
    assert_eq!(
        ReconnectTokenPayload::decode_token("secret", &token),
        Err(ReconnectTokenError::Rejected)
    );
}

#[test]
fn claims_as_they_are_written() {
    let payload = ReconnectTokenPayload::new(ClientId { uuid: 7 });
    let claims = ReconnectTokenClaims { payload, iat: 1_700_000_000, exp: -12 };
    assert_eq!(
        claims.to_json(),
        "{\"payload\":{\"client_id\":\"00000000-0000-0000-0000-000000000007\"},\
         \"iat\":1700000000,\"exp\":-12}"
    );
    let claims = ReconnectTokenClaims { payload, iat: i64::MIN, exp: i64::MAX };
    assert!(claims.to_json().ends_with("\"iat\":-9223372036854775808,\"exp\":9223372036854775807}"));
}

#[test]
fn claims_are_read_whole_or_not_at_all() {
    let id = ClientId { uuid: 0x755d0b36_f863_41e1_b5ff_c6c89fdb92a5 };
    let text = "755d0b36-f863-41e1-b5ff-c6c89fdb92a5".to_string();
    let claims = ReconnectTokenClaims::read(Some(text.clone()), None, Some(3), Some(4)).unwrap();
    assert_eq!(claims.payload.client_id, id);
    assert_eq!((claims.iat, claims.exp), (3, 4));
    assert_eq!(ReconnectTokenPayload::from(claims), ReconnectTokenPayload::new(id));
    let bad = Err(ReconnectTokenError::MalformedClaims);
    assert_eq!(ReconnectTokenClaims::read(None, None, Some(3), Some(4)), bad);
    assert_eq!(ReconnectTokenClaims::read(Some(text.clone()), None, None, Some(4)), bad);
    assert_eq!(ReconnectTokenClaims::read(Some(text.clone()), None, Some(3), None), bad);
    let client = Some("client".to_string());
    assert_eq!(ReconnectTokenClaims::read(client.clone(), None, Some(3), Some(4)), bad);
    assert_eq!(ReconnectTokenClaims::read(client, Some(text.clone()), Some(3), Some(4)), bad);
    let placed = ReconnectTokenClaims::read(None, Some(text), Some(3), Some(4)).unwrap();
    assert_eq!(placed, claims);
}

#[test]
fn claims_end_after_their_time() {
    let payload = ReconnectTokenPayload::new(ClientId::default());
    let now = Timestamp { secs: 1_700_000_000, nanos: 5 };
    let claims = ReconnectTokenClaims::issued_at(payload, now, 300);
    assert_eq!(claims.iat, 1_700_000_000);
    assert_eq!(claims.exp, 1_700_000_300);
}
