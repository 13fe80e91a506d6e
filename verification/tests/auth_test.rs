use rmail::gmail_api::auth::{AuthEvent, AuthStep, Authentication, MAIL_SCOPE};
use rmail::gmail_api::{RealOAuthFlow, SecureCredentials};

fn creds(secret: Option<&str>, token: Option<&str>) -> Option<SecureCredentials> {
    Some(SecureCredentials {
        client_secret: secret.map(|s| s.to_string()),
        token: token.map(|t| t.to_string()),
    })
}

fn saved(step: AuthStep) -> (Option<String>, Option<String>) {
    match step {
        AuthStep::SaveCredentials(c) => (c.client_secret, c.token),
        other => panic!("expected credentials to save, got {:?}", other),
    }
}

#[test]
fn credentials_are_built_field_by_field() {
    let c = SecureCredentials::new();
    assert!(c.client_secret.is_none() && c.token.is_none());
    let c = c.with_token("tok".to_string());
    assert_eq!(c.token, Some("tok".to_string()));
    assert!(c.client_secret.is_none());
    let c = c.with_client_secret("sec".to_string()).with_token("tok2".to_string());
    assert_eq!(c.client_secret, Some("sec".to_string()));
    assert_eq!(c.token, Some("tok2".to_string()));
    assert_eq!(MAIL_SCOPE, "https://mail.google.com/");
    assert_eq!(RealOAuthFlow, RealOAuthFlow);
}

#[test]
fn a_token_in_the_keyring_ends_authentication_at_once() {
    let (mut auth, step) = Authentication::start();
    assert!(matches!(step, AuthStep::ReadCredentials));
    assert!(!auth.is_finished());
    let step = auth.advance(AuthEvent::Credentials(creds(Some("sec"), Some("tok"))));
    assert!(matches!(step, AuthStep::ReadCredentials));
    let step = auth.advance(AuthEvent::Credentials(creds(Some("sec"), Some("tok"))));
    match step {
        AuthStep::Done(result) => {
            assert_eq!(result.token, "tok");
            assert!(!result.client_secret_loaded_from_file);
        }
        other => panic!("expected success, got {:?}", other),
    }
    assert!(auth.is_finished());
    assert!(matches!(auth.advance(AuthEvent::Saved), AuthStep::Failed(_)));
}

#[test]
fn the_secret_is_read_from_its_file_and_saved() {
    let (mut auth, _) = Authentication::start();
    assert!(matches!(auth.advance(AuthEvent::Credentials(None)), AuthStep::ReadSecretFile));
    assert!(matches!(
        auth.advance(AuthEvent::SecretFile(Some("file-secret".to_string()))),
        AuthStep::ReadCredentials
    ));
    let step = auth.advance(AuthEvent::Credentials(creds(None, Some("old-token"))));
    assert_eq!(saved(step), (Some("file-secret".to_string()), Some("old-token".to_string())));
    assert!(matches!(auth.advance(AuthEvent::Saved), AuthStep::ReadCredentials));
    let step = auth.advance(AuthEvent::Credentials(creds(Some("file-secret"), None)));
    assert!(matches!(step, AuthStep::RunFlow(secret) if secret == "file-secret"));
    assert!(matches!(auth.advance(AuthEvent::Flow(Ok("new".to_string()))), AuthStep::ReadCredentials));
    let step = auth.advance(AuthEvent::Credentials(None));
    assert_eq!(saved(step), (Some("file-secret".to_string()), Some("new".to_string())));
    match auth.advance(AuthEvent::Saved) {
        AuthStep::Done(result) => {
            assert_eq!(result.token, "new");
            assert!(result.client_secret_loaded_from_file);
        }
        other => panic!("expected success, got {:?}", other),
    }
    assert!(auth.is_finished());
}

#[test]
fn a_missing_secret_fails() {
    let (mut auth, _) = Authentication::start();
    auth.advance(AuthEvent::Credentials(creds(None, Some("tok"))));
    match auth.advance(AuthEvent::SecretFile(None)) {
        AuthStep::Failed(reason) => {
            assert_eq!(reason, "Client secret not found. Please check README for instructions.")
        }
        other => panic!("expected failure, got {:?}", other),
    }
    assert!(auth.is_finished());
}

#[test]
fn a_failed_flow_is_retried_once() {
    let (mut auth, _) = Authentication::start();
    auth.advance(AuthEvent::Credentials(creds(Some("sec"), None)));
    assert!(matches!(auth.advance(AuthEvent::Credentials(creds(Some("sec"), None))), AuthStep::RunFlow(_)));
    assert!(matches!(
        auth.advance(AuthEvent::Flow(Err("denied".to_string()))),
        AuthStep::ClearCredentials
    ));
    assert!(matches!(auth.advance(AuthEvent::Cleared), AuthStep::ReadCredentials));
    assert!(matches!(auth.advance(AuthEvent::Credentials(None)), AuthStep::ReadSecretFile));
    auth.advance(AuthEvent::SecretFile(Some("sec2".to_string())));
    let step = auth.advance(AuthEvent::Credentials(None));
    assert_eq!(saved(step), (Some("sec2".to_string()), None));
    let step = auth.advance(AuthEvent::Saved);
    assert!(matches!(step, AuthStep::RunFlow(secret) if secret == "sec2"));
    match auth.advance(AuthEvent::Flow(Err("denied again".to_string()))) {
        AuthStep::Failed(reason) => assert_eq!(reason, "Authentication failed after retry."),
        other => panic!("expected failure, got {:?}", other),
    }
    assert!(auth.is_finished());
}

#[test]
fn the_second_attempt_ignores_a_token_in_the_keyring() {
    let (mut auth, _) = Authentication::start();
    auth.advance(AuthEvent::Credentials(creds(Some("sec"), None)));
    auth.advance(AuthEvent::Credentials(None));
    auth.advance(AuthEvent::Flow(Err("x".to_string())));
    auth.advance(AuthEvent::Cleared);
    let step = auth.advance(AuthEvent::Credentials(creds(Some("sec"), Some("stale"))));
    assert!(matches!(step, AuthStep::RunFlow(secret) if secret == "sec"));
    auth.advance(AuthEvent::Flow(Ok("fresh".to_string())));
    let step = auth.advance(AuthEvent::Credentials(creds(Some("other"), Some("stale"))));
    assert_eq!(saved(step), (Some("sec".to_string()), Some("fresh".to_string())));
    assert!(matches!(auth.advance(AuthEvent::Saved), AuthStep::Done(r) if r.token == "fresh" && !r.client_secret_loaded_from_file));
}

#[test]
fn an_unexpected_answer_brings_the_pending_step_again() {
    let (mut auth, _) = Authentication::start();
    assert!(matches!(auth.advance(AuthEvent::Saved), AuthStep::ReadCredentials));
    assert!(matches!(auth.advance(AuthEvent::Cleared), AuthStep::ReadCredentials));
    auth.advance(AuthEvent::Credentials(None));
    assert!(matches!(auth.advance(AuthEvent::Credentials(None)), AuthStep::ReadSecretFile));
    auth.advance(AuthEvent::SecretFile(Some("s".to_string())));
    auth.advance(AuthEvent::Credentials(creds(None, Some("t"))));
    let step = auth.advance(AuthEvent::Cleared);
    assert_eq!(saved(step), (Some("s".to_string()), Some("t".to_string())));
    auth.advance(AuthEvent::Saved);
    auth.advance(AuthEvent::Credentials(None));
    assert!(matches!(auth.advance(AuthEvent::Saved), AuthStep::RunFlow(secret) if secret == "s"));
}
