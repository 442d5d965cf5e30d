use auth_gate::bearer::{bearer_header, bearer_token};
use auth_gate::error::AuthError;
use auth_gate::gate::{response_text, AuthGate, GateAction, GateState};
use auth_gate::keys::key_set_url;

fn reading_by_std(header: &str) -> Option<String> {
    match header.split_whitespace().collect::<Vec<_>>().as_slice() {
        &["Bearer", token] => Some(token.to_string()),
        _ => None,
    }
}

#[test]
fn bearer_token_is_the_second_word() {
    assert_eq!(bearer_token("Bearer abc.def.ghi"), Some("abc.def.ghi".to_string()));
    assert_eq!(bearer_token("  Bearer \t abc  "), Some("abc".to_string()));
    assert_eq!(bearer_token("Bearer\u{00A0}abc"), Some("abc".to_string()));
}

#[test]
fn other_headers_carry_no_token() {
    assert_eq!(bearer_token(""), None);
    assert_eq!(bearer_token("   "), None);
    assert_eq!(bearer_token("Bearer"), None);
    assert_eq!(bearer_token("Bearer "), None);
    assert_eq!(bearer_token("Basic dXNlcjpwYXNz"), None);
    assert_eq!(bearer_token("bearer abc"), None);
    assert_eq!(bearer_token("BEARER abc"), None);
    assert_eq!(bearer_token("Bearer abc def"), None);
    assert_eq!(bearer_token("Bearerabc"), None);
    assert_eq!(bearer_token("abc Bearer"), None);
}

#[test]
fn bearer_token_reads_as_the_split_of_std_does() {
    let samples = [
        "",
        " ",
        "Bearer",
        "Bearer x",
        "Bearer  x",
        " Bearer x ",
        "Bearer x y",
        "Bearer\tx",
        "Bearer\u{2003}x",
        "Bearer\u{200B}x",
        "Basic x",
        "bearer x",
        "x Bearer",
        "Bearer Bearer",
    ];
    for sample in samples {
        assert_eq!(bearer_token(sample), reading_by_std(sample), "{:?}", sample);
    }
}

#[test]
fn bearer_header_presents_the_token() {
    assert_eq!(bearer_header("abc.def.ghi"), "Bearer abc.def.ghi");
    assert_eq!(bearer_header(""), "Bearer ");
}

#[test]
fn bearer_header_round_trips() {
    for token in ["a", "abc.def.ghi", "not.a.validtoken", "ünï.cø.de"] {
        assert_eq!(bearer_token(&bearer_header(token)), Some(token.to_string()));
    }
    assert_eq!(bearer_token(&bearer_header("")), None);
    assert_eq!(bearer_token(&bearer_header("two words")), None);
}

#[test]
fn key_set_url_joins_with_one_slash() {
    assert_eq!(
        key_set_url("https://issuer.example/"),
        "https://issuer.example/.well-known/jwks.json"
    );
    assert_eq!(
        key_set_url("https://issuer.example"),
        "https://issuer.example/.well-known/jwks.json"
    );
    assert_eq!(key_set_url(""), "/.well-known/jwks.json");
    assert_eq!(key_set_url("/"), "/.well-known/jwks.json");
    assert_eq!(
        key_set_url("https://issuer.example//"),
        "https://issuer.example//.well-known/jwks.json"
    );
    assert_eq!(
        AuthGate::new("https://issuer.example/").key_set_url(),
        "https://issuer.example/.well-known/jwks.json"
    );
}

#[test]
fn missing_header_is_anonymous() {
    let gate = AuthGate::new("https://issuer.example/");
    let state = gate.on_header(None);
    assert!(matches!(state, GateState::Anonymous));
    assert_eq!(state.action(), GateAction::Respond);
    assert!(state.claims().is_none());
}

#[test]
fn headers_of_another_shape_are_anonymous() {
    let gate = AuthGate::new("https://issuer.example/");
    for header in ["", "   ", "Bearer", "Basic abc", "bearer a.b.c", "Bearer a.b.c extra"] {
        let state = gate.on_header(Some(header));
        assert!(matches!(state, GateState::Anonymous), "{:?}", header);
        assert_eq!(state.action(), GateAction::Respond);
        assert!(state.claims().is_none());
    }
}

#[test]
fn token_that_is_no_token_fails() {
    let gate = AuthGate::new("https://issuer.example/");
    let state = gate.on_header(Some("Bearer not.a.validtoken"));
    assert!(matches!(state, GateState::Rejected { cause: AuthError::MalformedToken }));
    assert_eq!(state.action(), GateAction::Respond);
    assert!(state.claims().is_none());
    assert_eq!(response_text(state.claims()), "Authorization Failed");
}

#[test]
fn tokens_with_other_than_three_segments_are_malformed() {
    let gate = AuthGate::new("https://issuer.example/");
    for header in ["Bearer abc", "Bearer a.b", "Bearer a.b.c.d", "Bearer .b.c", "Bearer a..c", "Bearer a.b."] {
        let state = gate.on_header(Some(header));
        assert!(
            matches!(state, GateState::Rejected { cause: AuthError::MalformedToken }),
            "{:?}",
            header
        );
    }
}

#[test]
fn failures_are_described() {
    assert_eq!(AuthError::Network.describe(), "key set fetch failed");
    assert_eq!(AuthError::Parse.describe(), "malformed key set or claims");
    assert_eq!(AuthError::MalformedToken.describe(), "malformed token");
    assert_eq!(AuthError::KeyNotFound.describe(), "no key with the token's identifier");
    assert_eq!(AuthError::Signature.describe(), "signature or algorithm mismatch");
    assert_eq!(AuthError::Claims.describe(), "claims do not pass the policy");
}
