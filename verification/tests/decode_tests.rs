use gpapi::auth::{AuthData, AuthError, SamlAuthResult};
use gpapi::auth_launcher::SamlAuthLauncher;
use gpapi::credential::Credential;

#[test]
fn success_outcome_yields_credential() {
    let outcome = SamlAuthResult::Success(AuthData { token: "abc".to_string() });
    let result = SamlAuthLauncher::new("vpn.example.com").conclude(Some(outcome));
    assert_eq!(result, Ok(Some(Credential { token: "abc".to_string() })));
}

#[test]
fn credential_conversion_is_lossless() {
    let credential = Credential::from(AuthData { token: "abc".to_string() });
    assert_eq!(credential, Credential { token: "abc".to_string() });
}

#[test]
fn failure_outcome_propagates_message_verbatim() {
    let outcome = SamlAuthResult::Failure("user cancelled".to_string());
    let result = SamlAuthLauncher::new("vpn.example.com").conclude(Some(outcome));
    match result {
        Err(err) => {
            assert_eq!(err, AuthError::AuthFailed("user cancelled".to_string()));
            assert_eq!(err.message(), "user cancelled");
        },
        Ok(_) => panic!("a failure outcome must not yield a credential"),
    }
}

#[test]
fn undecodable_output_is_the_fixed_parse_failure() {
    let result = SamlAuthLauncher::new("vpn.example.com").conclude(None);
    match result {
        Err(err) => {
            assert_eq!(err, AuthError::ParseFailed);
            assert_eq!(err.message(), "Failed to parse auth data");
        },
        Ok(_) => panic!("undecodable output must not yield a credential"),
    }
}

#[test]
fn default_browser_mode_yields_no_credential_whatever_was_printed() {
    let success = SamlAuthResult::Success(AuthData { token: "abc".to_string() });
    let result =
        SamlAuthLauncher::new("vpn.example.com").default_browser(true).conclude(Some(success));
    assert_eq!(result, Ok(None));

    let failure = SamlAuthResult::Failure("user cancelled".to_string());
    let result =
        SamlAuthLauncher::new("vpn.example.com").default_browser(true).conclude(Some(failure));
    assert_eq!(result, Ok(None));

    let result = SamlAuthLauncher::new("vpn.example.com").default_browser(true).conclude(None);
    assert_eq!(result, Ok(None));
}
