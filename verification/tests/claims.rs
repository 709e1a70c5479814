use atopio_extra::claims::{
    claims_from_json, find_claims, parse_claims, read_text, read_uint, read_value,
};
use atopio_extra::error::ClaimsError;
use atopio_extra::types::{Claim, FoundClaims, SurrealJWTClaims};
use atopio_extra::{decode_payload_insecurely, decode_segment};
use base64::{engine::general_purpose::URL_SAFE_NO_PAD, Engine};
use serde_json::{Number, Value};

const KEYS: [&str; 9] = ["iat", "nbf", "exp", "iss", "jti", "NS", "DB", "AC", "ID"];

/// The payload that every claim is in: `{iat:1, nbf:2, exp:3, iss:"issuer",
/// jti:"jti", NS:"ns", DB:"db", AC:{"role":"admin"}, ID:"subject"}`.
fn full_payload() -> serde_json::Map<String, Value> {
    let mut role = serde_json::Map::new();
    role.insert("role".to_string(), Value::from("admin"));
    let mut object = serde_json::Map::new();
    object.insert("iat".to_string(), Value::from(1u64));
    object.insert("nbf".to_string(), Value::from(2u64));
    object.insert("exp".to_string(), Value::from(3u64));
    object.insert("iss".to_string(), Value::from("issuer"));
    object.insert("jti".to_string(), Value::from("jti"));
    object.insert("NS".to_string(), Value::from("ns"));
    object.insert("DB".to_string(), Value::from("db"));
    object.insert("AC".to_string(), Value::Object(role));
    object.insert("ID".to_string(), Value::from("subject"));
    object
}

/// A token of three segments around the given payload bytes.
fn token_around(payload: &[u8]) -> String {
    format!("header.{}.sig", URL_SAFE_NO_PAD.encode(payload))
}

fn token_of(payload: &Value) -> String {
    token_around(&serde_json::to_vec(payload).unwrap())
}

fn error_of<T>(outcome: Result<SurrealJWTClaims<T>, ClaimsError>) -> ClaimsError {
    match outcome {
        Ok(_) => panic!("claims where an error was owed"),
        Err(e) => e,
    }
}

#[test]
fn every_claim_comes_out_as_it_went_in() {
    let token = token_of(&Value::Object(full_payload()));
    let claims = decode_payload_insecurely(&token).unwrap();
    assert_eq!(claims.iat, 1);
    assert_eq!(claims.nbf, 2);
    assert_eq!(claims.exp, 3);
    assert_eq!(claims.iss, "issuer");
    assert_eq!(claims.jti, "jti");
    assert_eq!(claims.ns, "ns");
    assert_eq!(claims.db, "db");
    assert_eq!(claims.ac["role"], "admin");
    assert_eq!(claims.ac, full_payload()["AC"]);
    assert_eq!(claims.id, "subject");
}

#[test]
fn literal_token_yields_its_claims() {
    // {"iat":1,"nbf":2,"exp":3,"iss":"i","jti":"j","NS":"n","DB":"d","AC":null,"ID":"s"}
    let token = "e30.eyJpYXQiOjEsIm5iZiI6MiwiZXhwIjozLCJpc3MiOiJpIiwianRpIjoiaiIsIk5TIjoibiIsIkRCIjoiZCIsIkFDIjpudWxsLCJJRCI6InMifQ.c2ln";
    let claims = decode_payload_insecurely(token).unwrap();
    assert_eq!((claims.iat, claims.nbf, claims.exp), (1, 2, 3));
    assert_eq!(claims.iss, "i");
    assert_eq!(claims.jti, "j");
    assert_eq!(claims.ns, "n");
    assert_eq!(claims.db, "d");
    assert_eq!(claims.ac, Value::Null);
    assert_eq!(claims.id, "s");
}

#[test]
fn token_without_separator_is_malformed() {
    assert_eq!(error_of(decode_payload_insecurely("no-dots")), ClaimsError::MalformedToken);
    assert_eq!(error_of(decode_payload_insecurely("")), ClaimsError::MalformedToken);
}

#[test]
fn segment_outside_the_alphabet_is_invalid_encoding() {
    assert_eq!(
        error_of(decode_payload_insecurely("a.invalid!!.c")),
        ClaimsError::InvalidEncoding
    );
}

#[test]
fn padding_and_the_standard_alphabet_are_invalid_encoding() {
    // "e30=" is the padded form of the encoding of "{}", "+/" belong to the
    // standard alphabet, and a single symbol is no possible length.
    for segment in ["e30=", "e3+/", "e", "e30 ", "e3\u{e9}0"] {
        let token = format!("header.{segment}.sig");
        assert_eq!(
            error_of(decode_payload_insecurely(&token)),
            ClaimsError::InvalidEncoding,
            "{segment:?}"
        );
    }
}

#[test]
fn stray_bits_in_the_last_symbol_are_invalid_encoding() {
    // "e30" decodes to "{}"; "e31" would leave two set bits over.
    assert_eq!(
        error_of(decode_payload_insecurely("h.e31.s")),
        ClaimsError::InvalidEncoding
    );
}

#[test]
fn bytes_that_are_no_json_are_a_schema_mismatch() {
    for payload in [&b"not json"[..], b"", b"{", b"{} {}", b"{\"iat\":1,}", b"\xff\xfe"] {
        assert_eq!(
            error_of(decode_payload_insecurely(&token_around(payload))),
            ClaimsError::SchemaMismatch,
            "{payload:?}"
        );
    }
}

#[test]
fn empty_second_segment_is_a_schema_mismatch() {
    assert_eq!(error_of(decode_payload_insecurely("a..c")), ClaimsError::SchemaMismatch);
    assert_eq!(error_of(decode_payload_insecurely(".")), ClaimsError::SchemaMismatch);
}

#[test]
fn json_that_is_no_object_is_a_schema_mismatch() {
    let list = Value::Array(full_payload().into_iter().map(|(_, v)| v).collect());
    for payload in [Value::Null, Value::from(1u64), Value::from("iat"), Value::Array(vec![]), list] {
        assert_eq!(
            error_of(decode_payload_insecurely(&token_of(&payload))),
            ClaimsError::SchemaMismatch,
            "{payload}"
        );
    }
}

#[test]
fn each_missing_claim_is_a_schema_mismatch() {
    for key in KEYS {
        let mut object = full_payload();
        object.remove(key);
        assert_eq!(
            error_of(decode_payload_insecurely(&token_of(&Value::Object(object)))),
            ClaimsError::SchemaMismatch,
            "{key}"
        );
    }
    assert_eq!(
        error_of(decode_payload_insecurely(&token_of(&Value::Object(serde_json::Map::new())))),
        ClaimsError::SchemaMismatch
    );
}

#[test]
fn keys_are_matched_letter_for_letter() {
    for (key, other) in [("NS", "ns"), ("DB", "db"), ("AC", "ac"), ("ID", "id"), ("iat", "IAT"), ("iss", "Iss")] {
        let mut object = full_payload();
        let value = object.remove(key).unwrap();
        object.insert(other.to_string(), value);
        assert_eq!(
            error_of(decode_payload_insecurely(&token_of(&Value::Object(object)))),
            ClaimsError::SchemaMismatch,
            "{key}"
        );
    }
}

#[test]
fn a_time_must_be_an_unsigned_integer() {
    let wrong = [
        Value::from(-1i64),
        Value::from(1.5f64),
        Value::from(1.0f64),
        Value::from("1"),
        Value::Null,
        Value::Bool(true),
        Value::Array(vec![Value::from(1u64)]),
    ];
    for key in ["iat", "nbf", "exp"] {
        for value in &wrong {
            let mut object = full_payload();
            object.insert(key.to_string(), value.clone());
            assert_eq!(
                error_of(decode_payload_insecurely(&token_of(&Value::Object(object)))),
                ClaimsError::SchemaMismatch,
                "{key}: {value}"
            );
        }
    }
}

#[test]
fn a_time_may_be_as_large_as_fits() {
    let mut object = full_payload();
    object.insert("iat".to_string(), Value::from(u64::MAX));
    object.insert("nbf".to_string(), Value::from(0u64));
    let claims = decode_payload_insecurely(&token_of(&Value::Object(object))).unwrap();
    assert_eq!(claims.iat, u64::MAX);
    assert_eq!(claims.nbf, 0);

    // One more than fits.
    let payload = br#"{"iat":18446744073709551616,"nbf":2,"exp":3,"iss":"i","jti":"j","NS":"n","DB":"d","AC":null,"ID":"s"}"#;
    assert_eq!(
        error_of(decode_payload_insecurely(&token_around(payload))),
        ClaimsError::SchemaMismatch
    );
}

#[test]
fn a_text_claim_must_be_a_string() {
    let wrong = [Value::from(1u64), Value::Null, Value::Bool(false), Value::Array(vec![])];
    for key in ["iss", "jti", "NS", "DB", "ID"] {
        for value in &wrong {
            let mut object = full_payload();
            object.insert(key.to_string(), value.clone());
            assert_eq!(
                error_of(decode_payload_insecurely(&token_of(&Value::Object(object)))),
                ClaimsError::SchemaMismatch,
                "{key}: {value}"
            );
        }
    }
}

#[test]
fn access_claims_may_have_any_shape() {
    let mut nested = serde_json::Map::new();
    nested.insert("roles".to_string(), Value::Array(vec![Value::from("a"), Value::from(2u64)]));
    nested.insert("limit".to_string(), Value::Number(Number::from_f64(0.5).unwrap()));
    let shapes = [
        Value::Null,
        Value::Bool(true),
        Value::from(7u64),
        Value::from("scope"),
        Value::Array(vec![Value::Null, Value::from("x")]),
        Value::Object(nested),
    ];
    for ac in shapes {
        let mut object = full_payload();
        object.insert("AC".to_string(), ac.clone());
        let claims = decode_payload_insecurely(&token_of(&Value::Object(object))).unwrap();
        assert_eq!(claims.ac, ac);
    }
}

#[test]
fn members_under_other_keys_are_passed_over() {
    let mut object = full_payload();
    object.insert("aud".to_string(), Value::from("someone"));
    object.insert("SC".to_string(), Value::Null);
    let claims = decode_payload_insecurely(&token_of(&Value::Object(object))).unwrap();
    assert_eq!(claims.iat, 1);
    assert_eq!(claims.id, "subject");
}

#[test]
fn times_are_not_held_against_one_another() {
    let mut object = full_payload();
    object.insert("iat".to_string(), Value::from(300u64));
    object.insert("nbf".to_string(), Value::from(200u64));
    object.insert("exp".to_string(), Value::from(100u64));
    let claims = decode_payload_insecurely(&token_of(&Value::Object(object))).unwrap();
    assert_eq!((claims.iat, claims.nbf, claims.exp), (300, 200, 100));
}

#[test]
fn only_the_second_segment_is_read() {
    let payload = URL_SAFE_NO_PAD.encode(serde_json::to_vec(&Value::Object(full_payload())).unwrap());
    for token in [
        format!("header.{payload}.sig"),
        format!("header.{payload}"),
        format!(".{payload}."),
        format!("!!not base64!!.{payload}.\u{e9}\u{2e2e}"),
        format!("h\u{12e}.{payload}.a.b.c"),
    ] {
        let claims = decode_payload_insecurely(&token).unwrap();
        assert_eq!(claims.iss, "issuer", "{token}");
    }
    // The payload in the first or the third place is not found.
    assert_eq!(
        error_of(decode_payload_insecurely(&format!("{payload}.!!.{payload}"))),
        ClaimsError::InvalidEncoding
    );
}

#[test]
fn earlier_failure_wins() {
    // No second segment, whatever the first holds.
    let payload = URL_SAFE_NO_PAD.encode(b"{}");
    assert_eq!(error_of(decode_payload_insecurely(&payload)), ClaimsError::MalformedToken);
    // A second segment that decodes, to bytes that hold no claims.
    assert_eq!(
        error_of(decode_payload_insecurely(&format!("h.{payload}.s"))),
        ClaimsError::SchemaMismatch
    );
}

#[test]
fn decode_segment_gives_the_encoded_bytes() {
    assert_eq!(decode_segment(b"aGk"), Ok(b"hi".to_vec()));
    assert_eq!(decode_segment(b""), Ok(Vec::new()));
    assert_eq!(decode_segment(b"-_8"), Ok(vec![0xfb, 0xff]));
    assert_eq!(decode_segment(b"aGk="), Err(ClaimsError::InvalidEncoding));
    assert_eq!(decode_segment(b"+/8"), Err(ClaimsError::InvalidEncoding));
}

#[test]
fn parse_claims_reads_json_text() {
    let text = br#" { "ID": "s", "AC": [1, "b", null], "DB": "d", "NS": "n", "jti": "j",
        "iss": "i", "exp": 30, "nbf": 20, "iat": 10 } "#;
    let claims = parse_claims(text).unwrap();
    assert_eq!((claims.iat, claims.nbf, claims.exp), (10, 20, 30));
    assert_eq!(claims.ac[1], "b");
    assert_eq!(claims.id, "s");
    assert_eq!(error_of(parse_claims(b"{}")), ClaimsError::SchemaMismatch);
    assert_eq!(error_of(parse_claims(b"12 13")), ClaimsError::SchemaMismatch);
    assert_eq!(error_of(parse_claims(b"")), ClaimsError::SchemaMismatch);
}

#[test]
fn nesting_beyond_the_parsers_limit_is_a_schema_mismatch() {
    let deep = format!("{}{}", "[".repeat(100_000), "]".repeat(100_000));
    assert_eq!(error_of(parse_claims(deep.as_bytes())), ClaimsError::SchemaMismatch);
}

#[test]
fn claims_from_json_reads_an_object() {
    let claims = claims_from_json(&Value::Object(full_payload())).unwrap();
    assert_eq!(claims.exp, 3);
    assert_eq!(claims.ns, "ns");
    assert_eq!(error_of(claims_from_json(&Value::Null)), ClaimsError::SchemaMismatch);
    assert_eq!(
        error_of(claims_from_json(&Value::Array(vec![Value::Object(full_payload())]))),
        ClaimsError::SchemaMismatch
    );
}

#[test]
fn readers_tell_shapes_apart() {
    let payload = Value::Object(full_payload());
    assert_eq!(read_uint(&payload, Claim::ExpiresAt), Some(3));
    assert_eq!(read_uint(&payload, Claim::Issuer), None);
    assert_eq!(read_text(&payload, Claim::Issuer), Some("issuer".to_string()));
    assert_eq!(read_text(&payload, Claim::ExpiresAt), None);
    assert_eq!(read_text(&payload, Claim::AccessClaims), None);
    assert_eq!(read_value(&payload, Claim::ExpiresAt), Some(Value::from(3u64)));
    assert_eq!(read_value(&payload, Claim::AccessClaims), Some(full_payload()["AC"].clone()));
    let empty = Value::Object(serde_json::Map::new());
    assert_eq!(read_uint(&empty, Claim::ExpiresAt), None);
    assert_eq!(read_text(&empty, Claim::Issuer), None);
    assert_eq!(read_value(&empty, Claim::AccessClaims), None);
    assert_eq!(read_value(&Value::from("AC"), Claim::AccessClaims), None);
}

#[test]
fn find_claims_keeps_what_is_there() {
    let mut object = full_payload();
    object.remove("jti");
    object.insert("exp".to_string(), Value::from("soon"));
    let found = find_claims(&Value::Object(object));
    assert_eq!(found.iat, Some(1));
    assert_eq!(found.nbf, Some(2));
    assert_eq!(found.exp, None);
    assert_eq!(found.iss.as_deref(), Some("issuer"));
    assert_eq!(found.jti, None);
    assert_eq!(found.ns.as_deref(), Some("ns"));
    assert_eq!(found.db.as_deref(), Some("db"));
    assert_eq!(found.ac, Some(full_payload()["AC"].clone()));
    assert_eq!(found.id.as_deref(), Some("subject"));
}

#[test]
fn wire_names_of_the_claims() {
    assert_eq!(Claim::IssuedAt.key(), "iat");
    assert_eq!(Claim::NotBefore.key(), "nbf");
    assert_eq!(Claim::ExpiresAt.key(), "exp");
    assert_eq!(Claim::Issuer.key(), "iss");
    assert_eq!(Claim::TokenId.key(), "jti");
    assert_eq!(Claim::Namespace.key(), "NS");
    assert_eq!(Claim::Database.key(), "DB");
    assert_eq!(Claim::AccessClaims.key(), "AC");
    assert_eq!(Claim::Subject.key(), "ID");
}

fn all_found() -> FoundClaims<u8> {
    FoundClaims {
        iat: Some(1),
        nbf: Some(2),
        exp: Some(3),
        iss: Some("issuer".to_string()),
        jti: Some("jti".to_string()),
        ns: Some("ns".to_string()),
        db: Some("db".to_string()),
        ac: Some(9),
        id: Some("subject".to_string()),
    }
}

#[test]
fn complete_needs_all_nine() {
    let claims = all_found().complete().unwrap();
    assert_eq!((claims.iat, claims.nbf, claims.exp, claims.ac), (1, 2, 3, 9));
    assert_eq!(
        (claims.iss.as_str(), claims.jti.as_str(), claims.ns.as_str(), claims.db.as_str(), claims.id.as_str()),
        ("issuer", "jti", "ns", "db", "subject")
    );

    let mut without: Vec<FoundClaims<u8>> = (0..9).map(|_| all_found()).collect();
    without[0].iat = None;
    without[1].nbf = None;
    without[2].exp = None;
    without[3].iss = None;
    without[4].jti = None;
    without[5].ns = None;
    without[6].db = None;
    without[7].ac = None;
    without[8].id = None;
    for found in without {
        assert_eq!(error_of(found.complete()), ClaimsError::SchemaMismatch);
    }
}
