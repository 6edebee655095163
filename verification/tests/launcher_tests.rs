use gpapi::auth_launcher::{SamlAuthLauncher, GP_AUTH_BINARY};

#[test]
fn renders_only_server_by_default() {
    let args = SamlAuthLauncher::new("portal.example.com").command_args();
    assert_eq!(args, vec!["portal.example.com".to_string()]);
}

#[test]
fn renders_helper_before_arguments() {
    let argv = SamlAuthLauncher::new("portal.example.com").render_argv(GP_AUTH_BINARY);
    assert_eq!(argv, vec!["gpauth".to_string(), "portal.example.com".to_string()]);
}

#[test]
fn renders_gateway_and_user_agent() {
    let argv = SamlAuthLauncher::new("vpn.example.com")
        .gateway(true)
        .user_agent("gp-client/1.0")
        .render_argv(GP_AUTH_BINARY);
    assert_eq!(
        argv,
        vec![
            GP_AUTH_BINARY.to_string(),
            "vpn.example.com".to_string(),
            "--gateway".to_string(),
            "--user-agent".to_string(),
            "gp-client/1.0".to_string(),
        ]
    );
}

#[test]
fn renders_every_parameter_in_fixed_order() {
    let args = SamlAuthLauncher::new("vpn.example.com")
        .gateway(true)
        .saml_request("req-blob")
        .user_agent("agent/2")
        .os("Linux")
        .os_version(Some("6.1"))
        .hidpi(true)
        .fix_openssl(true)
        .ignore_tls_errors(true)
        .clean(true)
        .default_browser(true)
        .command_args();
    assert_eq!(
        args,
        vec![
            "vpn.example.com".to_string(),
            "--gateway".to_string(),
            "--saml-request".to_string(),
            "req-blob".to_string(),
            "--user-agent".to_string(),
            "agent/2".to_string(),
            "--os".to_string(),
            "Linux".to_string(),
            "--os-version".to_string(),
            "6.1".to_string(),
            "--hidpi".to_string(),
            "--fix-openssl".to_string(),
            "--ignore-tls-errors".to_string(),
            "--clean".to_string(),
            "--default-browser".to_string(),
        ]
    );
}

#[test]
fn false_flags_and_absent_values_leave_no_token() {
    let args = SamlAuthLauncher::new("vpn.example.com")
        .gateway(false)
        .os_version(None)
        .hidpi(false)
        .fix_openssl(false)
        .ignore_tls_errors(false)
        .clean(false)
        .default_browser(false)
        .command_args();
    assert_eq!(args, vec!["vpn.example.com".to_string()]);
}

#[test]
fn rendering_is_deterministic() {
    let first = SamlAuthLauncher::new("vpn.example.com")
        .gateway(true)
        .os("Linux")
        .clean(true)
        .render_argv(GP_AUTH_BINARY);
    let second = SamlAuthLauncher::new("vpn.example.com")
        .gateway(true)
        .os("Linux")
        .clean(true)
        .render_argv(GP_AUTH_BINARY);
    assert_eq!(first, second);
}

#[test]
fn true_boolean_flags_appear_bare() {
    let args = SamlAuthLauncher::new("vpn.example.com").hidpi(true).clean(true).command_args();
    assert_eq!(
        args,
        vec!["vpn.example.com".to_string(), "--hidpi".to_string(), "--clean".to_string()]
    );
}

#[test]
fn default_browser_mode_is_reported() {
    let launcher = SamlAuthLauncher::new("vpn.example.com");
    assert!(!launcher.uses_default_browser());
    let launcher = launcher.default_browser(true);
    assert!(launcher.uses_default_browser());
}
