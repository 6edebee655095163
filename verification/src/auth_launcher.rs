//! A single-use builder that assembles the invocation of the external SAML
//! authentication helper and classifies the helper's captured output.
//!
//! The builder accumulates optional launch parameters through fluent setters,
//! renders them into a deterministic argument list (`command_args`,
//! `render_argv`), and finally classifies the helper's parsed output into a
//! credential, an explicit "no credential" outcome, or an error (`conclude`).
//! Spawning the helper process itself, resolving the helper binary from the
//! environment, de-escalating privileges and decoding raw bytes are the
//! surrounding application's concern: this module holds the logic that can be
//! stated and proved.

use vstd::prelude::*;
use crate::auth::{AuthError, SamlAuthResult};
use crate::credential::Credential;

verus! {

/// The view of each string in a sequence of strings.
pub open spec fn string_views(v: Seq<String>) -> Seq<Seq<char>> {
    v.map_values(|s: String| s@)
}

/// The view of an optional borrowed string.
pub open spec fn opt_str_view(v: Option<&str>) -> Option<Seq<char>> {
    match v {
        Option::Some(s) => Option::Some(s@),
        Option::None => Option::None,
    }
}

/// The tokens a boolean flag contributes to the argument list: the bare flag
/// when set, nothing at all when not.
pub open spec fn flag_tokens(set: bool, flag: Seq<char>) -> Seq<Seq<char>> {
    if set {
        seq![flag]
    } else {
        Seq::empty()
    }
}

/// The tokens a value-bearing optional parameter contributes: the flag and
/// its value as a two-token pair when present, nothing at all when absent.
pub open spec fn value_tokens(value: Option<Seq<char>>, flag: Seq<char>) -> Seq<Seq<char>> {
    match value {
        Option::Some(v) => seq![flag, v],
        Option::None => Seq::empty(),
    }
}

/// The helper's argument list (everything after the program name): the
/// positional server argument first, then the flags of exactly the
/// parameters that were set, in the fixed field order of
/// [`LauncherConfig`].
pub open spec fn spec_args(c: LauncherConfig) -> Seq<Seq<char>> {
    seq![c.server] + flag_tokens(c.gateway, "--gateway"@) + value_tokens(
        c.saml_request,
        "--saml-request"@,
    ) + value_tokens(c.user_agent, "--user-agent"@) + value_tokens(c.os, "--os"@) + value_tokens(
        c.os_version,
        "--os-version"@,
    ) + flag_tokens(c.hidpi, "--hidpi"@) + flag_tokens(c.fix_openssl, "--fix-openssl"@)
        + flag_tokens(c.ignore_tls_errors, "--ignore-tls-errors"@) + flag_tokens(
        c.clean,
        "--clean"@,
    ) + flag_tokens(c.default_browser, "--default-browser"@)
}

/// The full process invocation: the helper program name followed by the
/// argument list.
pub open spec fn spec_argv(helper: Seq<char>, c: LauncherConfig) -> Seq<Seq<char>> {
    seq![helper] + spec_args(c)
}

/// How a launch ends, given the configuration and the helper's parsed output
/// (`None` when the output did not decode as the tagged union).
///
/// In default-browser mode the output plays no part and no credential is
/// returned; otherwise a successful outcome yields the credential converted
/// from the authentication data, a failure outcome propagates the helper's
/// message verbatim, and undecodable output is the fixed parse failure.
pub open spec fn spec_conclude(c: LauncherConfig, auth_result: Option<SamlAuthResult>) -> Result<
    Option<Credential>,
    AuthError,
> {
    if c.default_browser {
        Result::Ok(Option::None)
    } else {
        match auth_result {
            Option::None => Result::Err(AuthError::ParseFailed),
            Option::Some(SamlAuthResult::Success(data)) => Result::Ok(
                Option::Some(Credential::spec_from(data)),
            ),
            Option::Some(SamlAuthResult::Failure(msg)) => Result::Err(AuthError::AuthFailed(msg)),
        }
    }
}

/// The default helper program name, used when the caller finds no
/// environment override for it.
pub const GP_AUTH_BINARY: &'static str = "gpauth";

/// The mathematical value of a [`SamlAuthLauncher`]: every launch parameter
/// as a plain value.
pub ghost struct LauncherConfig {
    pub server: Seq<char>,
    pub gateway: bool,
    pub saml_request: Option<Seq<char>>,
    pub user_agent: Option<Seq<char>>,
    pub os: Option<Seq<char>>,
    pub os_version: Option<Seq<char>>,
    pub hidpi: bool,
    pub fix_openssl: bool,
    pub ignore_tls_errors: bool,
    pub clean: bool,
    pub default_browser: bool,
}

/// A single-use builder for one launch of the authentication helper.
///
/// Only the server address is mandatory; every other parameter defaults to
/// absent or `false` and is supplied through a fluent setter that consumes
/// and returns the builder.
pub struct SamlAuthLauncher<'a> {
    server: &'a str,
    gateway: bool,
    saml_request: Option<&'a str>,
    user_agent: Option<&'a str>,
    os: Option<&'a str>,
    os_version: Option<&'a str>,
    hidpi: bool,
    fix_openssl: bool,
    ignore_tls_errors: bool,
    clean: bool,
    default_browser: bool,
}

impl<'a> View for SamlAuthLauncher<'a> {
    type V = LauncherConfig;

    closed spec fn view(&self) -> LauncherConfig {
        LauncherConfig {
            server: self.server@,
            gateway: self.gateway,
            saml_request: match self.saml_request {
                Option::Some(s) => Option::Some(s@),
                Option::None => Option::None,
            },
            user_agent: match self.user_agent {
                Option::Some(s) => Option::Some(s@),
                Option::None => Option::None,
            },
            os: match self.os {
                Option::Some(s) => Option::Some(s@),
                Option::None => Option::None,
            },
            os_version: match self.os_version {
                Option::Some(s) => Option::Some(s@),
                Option::None => Option::None,
            },
            hidpi: self.hidpi,
            fix_openssl: self.fix_openssl,
            ignore_tls_errors: self.ignore_tls_errors,
            clean: self.clean,
            default_browser: self.default_browser,
        }
    }
}

impl<'a> SamlAuthLauncher<'a> {
    /// A builder for the given server with every optional parameter unset.
    pub fn new(server: &'a str) -> (r: Self)
        ensures
            r@ == (LauncherConfig {
                server: server@,
                gateway: false,
                saml_request: Option::None,
                user_agent: Option::None,
                os: Option::None,
                os_version: Option::None,
                hidpi: false,
                fix_openssl: false,
                ignore_tls_errors: false,
                clean: false,
                default_browser: false,
            }),
    {
        Self {
            server,
            gateway: false,
            saml_request: None,
            user_agent: None,
            os: None,
            os_version: None,
            hidpi: false,
            fix_openssl: false,
            ignore_tls_errors: false,
            clean: false,
            default_browser: false,
        }
    }

    /// Select gateway-mode authentication instead of portal-mode.
    pub fn gateway(self, gateway: bool) -> (r: Self)
        ensures
            r@ == (LauncherConfig { gateway, ..self@ }),
    {
        Self { gateway, ..self }
    }

    /// Supply a pre-fetched SAML request blob to resume an exchange.
    pub fn saml_request(self, saml_request: &'a str) -> (r: Self)
        ensures
            r@ == (LauncherConfig { saml_request: Option::Some(saml_request@), ..self@ }),
    {
        Self { saml_request: Some(saml_request), ..self }
    }

    /// Supply the HTTP user-agent to present during the SAML flow.
    pub fn user_agent(self, user_agent: &'a str) -> (r: Self)
        ensures
            r@ == (LauncherConfig { user_agent: Option::Some(user_agent@), ..self@ }),
    {
        Self { user_agent: Some(user_agent), ..self }
    }

    /// Supply the client OS identifier to present to the identity provider.
    pub fn os(self, os: &'a str) -> (r: Self)
        ensures
            r@ == (LauncherConfig { os: Option::Some(os@), ..self@ }),
    {
        Self { os: Some(os), ..self }
    }

    /// Supply or clear the client OS version identifier.
    pub fn os_version(self, os_version: Option<&'a str>) -> (r: Self)
        ensures
            r@ == (LauncherConfig {
                os_version: match os_version {
                    Option::Some(s) => Option::Some(s@),
                    Option::None => Option::None,
                },
                ..self@
            }),
    {
        Self { os_version, ..self }
    }

    /// Hint the helper to render at high-DPI.
    pub fn hidpi(self, hidpi: bool) -> (r: Self)
        ensures
            r@ == (LauncherConfig { hidpi, ..self@ }),
    {
        Self { hidpi, ..self }
    }

    /// Request the TLS-library compatibility workaround inside the helper.
    pub fn fix_openssl(self, fix_openssl: bool) -> (r: Self)
        ensures
            r@ == (LauncherConfig { fix_openssl, ..self@ }),
    {
        Self { fix_openssl, ..self }
    }

    /// Request that the helper disable certificate validation.
    pub fn ignore_tls_errors(self, ignore_tls_errors: bool) -> (r: Self)
        ensures
            r@ == (LauncherConfig { ignore_tls_errors, ..self@ }),
    {
        Self { ignore_tls_errors, ..self }
    }

    /// Request that the helper discard cached browser session state.
    pub fn clean(self, clean: bool) -> (r: Self)
        ensures
            r@ == (LauncherConfig { clean, ..self@ }),
    {
        Self { clean, ..self }
    }

    /// Switch to fire-and-forget mode: the helper opens the system default
    /// browser and no structured output is expected or decoded.
    pub fn default_browser(self, default_browser: bool) -> (r: Self)
        ensures
            r@ == (LauncherConfig { default_browser, ..self@ }),
    {
        Self { default_browser, ..self }
    }

    /// Whether this launch is in fire-and-forget default-browser mode, in
    /// which no structured output is expected or decoded.
    pub fn uses_default_browser(&self) -> (r: bool)
        ensures
            r == self@.default_browser,
    {
        self.default_browser
    }

    /// Ends the launch: classifies the helper's parsed output as
    /// [`spec_conclude`] says, consuming the single-use builder.
    ///
    /// `auth_result` is the helper's output decoded as the tagged union, or
    /// `None` when the captured bytes did not decode as that union. In
    /// default-browser mode the result is "no credential" whatever the
    /// helper printed.
    pub fn conclude(self, auth_result: Option<SamlAuthResult>) -> (r: Result<
        Option<Credential>,
        AuthError,
    >)
        ensures
            r == spec_conclude(self@, auth_result),
    {
        if self.default_browser {
            return Ok(None);
        }
        match auth_result {
            None => Err(AuthError::ParseFailed),
            Some(SamlAuthResult::Success(data)) => Ok(Some(Credential::from(data))),
            Some(SamlAuthResult::Failure(msg)) => Err(AuthError::AuthFailed(msg)),
        }
    }

    /// The argument list for the helper, rendered deterministically from the
    /// configuration as [`spec_args`] says: the server first, then exactly
    /// the set parameters, in the fixed field order.
    pub fn command_args(&self) -> (args: Vec<String>)
        ensures
            string_views(args@) == spec_args(self@),
    {
        let mut args: Vec<String> = Vec::new();
        args.push(self.server.to_owned());
        proof {
            assert(string_views(args@) =~~= seq![self@.server]);
        }
        push_flag(&mut args, self.gateway, "--gateway");
        push_value(&mut args, self.saml_request, "--saml-request");
        push_value(&mut args, self.user_agent, "--user-agent");
        push_value(&mut args, self.os, "--os");
        push_value(&mut args, self.os_version, "--os-version");
        push_flag(&mut args, self.hidpi, "--hidpi");
        push_flag(&mut args, self.fix_openssl, "--fix-openssl");
        push_flag(&mut args, self.ignore_tls_errors, "--ignore-tls-errors");
        push_flag(&mut args, self.clean, "--clean");
        push_flag(&mut args, self.default_browser, "--default-browser");
        args
    }

    /// The full process invocation for the given helper program name, as
    /// [`spec_argv`] says.
    pub fn render_argv(&self, helper: &str) -> (argv: Vec<String>)
        ensures
            string_views(argv@) == spec_argv(helper@, self@),
    {
        let mut argv: Vec<String> = Vec::new();
        argv.push(helper.to_owned());
        proof {
            assert(string_views(argv@) =~~= seq![helper@]);
        }
        let mut args = self.command_args();
        argv.append(&mut args);
        proof {
            assert(string_views(argv@) =~~= seq![helper@] + spec_args(self@));
        }
        argv
    }
}

/// Tokens of a concatenation are exactly the tokens of its parts.
proof fn lemma_add_contains<A>(a: Seq<A>, b: Seq<A>, x: A)
    ensures
        (a + b).contains(x) <==> a.contains(x) || b.contains(x),
{
    if (a + b).contains(x) {
        let i = choose|i: int| 0 <= i < (a + b).len() && (a + b)[i] == x;
        if i < a.len() {
            assert(a[i] == x);
        } else {
            assert(b[i - a.len()] == x);
        }
    }
    if a.contains(x) {
        let i = choose|i: int| 0 <= i < a.len() && a[i] == x;
        assert((a + b)[i] == x);
    }
    if b.contains(x) {
        let i = choose|i: int| 0 <= i < b.len() && b[i] == x;
        assert((a + b)[a.len() + i] == x);
    }
}

/// A boolean flag's tokens hold exactly the bare flag, and only when set.
proof fn lemma_flag_tokens_contains(set: bool, flag: Seq<char>, tok: Seq<char>)
    ensures
        flag_tokens(set, flag).contains(tok) <==> (set && tok == flag),
{
    if set {
        let s = flag_tokens(set, flag);
        if s.contains(tok) {
            let i = choose|i: int| 0 <= i < s.len() && s[i] == tok;
            assert(s[0] == flag);
        }
        if tok == flag {
            assert(s[0] == tok);
            assert(s.contains(tok));
        }
    }
}

/// An optional value's tokens hold exactly the flag and the value, and only
/// when the value is present.
proof fn lemma_value_tokens_contains(value: Option<Seq<char>>, flag: Seq<char>, tok: Seq<char>)
    ensures
        value_tokens(value, flag).contains(tok) <==> (value matches Option::Some(v) && (tok == flag
            || tok == v)),
{
    match value {
        Option::Some(v) => {
            let s = value_tokens(value, flag);
            if s.contains(tok) {
                let i = choose|i: int| 0 <= i < s.len() && s[i] == tok;
                assert(s[0] == flag);
                assert(s[1] == v);
            }
            if tok == flag {
                assert(s[0] == tok);
                assert(s.contains(tok));
            }
            if tok == v {
                assert(s[1] == tok);
                assert(s.contains(tok));
            }
        },
        Option::None => {},
    }
}

/// Rendering is deterministic: identical configuration values and helper
/// name always produce the identical invocation.
pub proof fn lemma_render_deterministic(
    helper1: Seq<char>,
    c1: LauncherConfig,
    helper2: Seq<char>,
    c2: LauncherConfig,
)
    requires
        helper1 == helper2,
        c1 == c2,
    ensures
        spec_argv(helper1, c1) == spec_argv(helper2, c2),
{
}

/// Exactly which tokens the argument list holds: the server, and the flag
/// (and value) of each parameter that was set — so a parameter that was not
/// set contributes no token at all, and a boolean flag set to true
/// contributes its bare flag.
pub proof fn lemma_args_membership(c: LauncherConfig, tok: Seq<char>)
    ensures
        spec_args(c).contains(tok) <==> (tok == c.server || (c.gateway && tok == "--gateway"@) || (
        c.saml_request matches Option::Some(v) && (tok == "--saml-request"@ || tok == v)) || (
        c.user_agent matches Option::Some(v) && (tok == "--user-agent"@ || tok == v)) || (
        c.os matches Option::Some(v) && (tok == "--os"@ || tok == v)) || (
        c.os_version matches Option::Some(v) && (tok == "--os-version"@ || tok == v)) || (c.hidpi
            && tok == "--hidpi"@) || (c.fix_openssl && tok == "--fix-openssl"@) || (
        c.ignore_tls_errors && tok == "--ignore-tls-errors"@) || (c.clean && tok == "--clean"@) || (
        c.default_browser && tok == "--default-browser"@)),
{
    let s0 = seq![c.server];
    let s1 = flag_tokens(c.gateway, "--gateway"@);
    let s2 = value_tokens(c.saml_request, "--saml-request"@);
    let s3 = value_tokens(c.user_agent, "--user-agent"@);
    let s4 = value_tokens(c.os, "--os"@);
    let s5 = value_tokens(c.os_version, "--os-version"@);
    let s6 = flag_tokens(c.hidpi, "--hidpi"@);
    let s7 = flag_tokens(c.fix_openssl, "--fix-openssl"@);
    let s8 = flag_tokens(c.ignore_tls_errors, "--ignore-tls-errors"@);
    let s9 = flag_tokens(c.clean, "--clean"@);
    let s10 = flag_tokens(c.default_browser, "--default-browser"@);
    lemma_add_contains(s0, s1, tok);
    lemma_add_contains(s0 + s1, s2, tok);
    lemma_add_contains(s0 + s1 + s2, s3, tok);
    lemma_add_contains(s0 + s1 + s2 + s3, s4, tok);
    lemma_add_contains(s0 + s1 + s2 + s3 + s4, s5, tok);
    lemma_add_contains(s0 + s1 + s2 + s3 + s4 + s5, s6, tok);
    lemma_add_contains(s0 + s1 + s2 + s3 + s4 + s5 + s6, s7, tok);
    lemma_add_contains(s0 + s1 + s2 + s3 + s4 + s5 + s6 + s7, s8, tok);
    lemma_add_contains(s0 + s1 + s2 + s3 + s4 + s5 + s6 + s7 + s8, s9, tok);
    lemma_add_contains(s0 + s1 + s2 + s3 + s4 + s5 + s6 + s7 + s8 + s9, s10, tok);
    lemma_flag_tokens_contains(c.gateway, "--gateway"@, tok);
    lemma_value_tokens_contains(c.saml_request, "--saml-request"@, tok);
    lemma_value_tokens_contains(c.user_agent, "--user-agent"@, tok);
    lemma_value_tokens_contains(c.os, "--os"@, tok);
    lemma_value_tokens_contains(c.os_version, "--os-version"@, tok);
    lemma_flag_tokens_contains(c.hidpi, "--hidpi"@, tok);
    lemma_flag_tokens_contains(c.fix_openssl, "--fix-openssl"@, tok);
    lemma_flag_tokens_contains(c.ignore_tls_errors, "--ignore-tls-errors"@, tok);
    lemma_flag_tokens_contains(c.clean, "--clean"@, tok);
    lemma_flag_tokens_contains(c.default_browser, "--default-browser"@, tok);
    assert(s0.contains(tok) <==> tok == c.server) by {
        if s0.contains(tok) {
            let i = choose|i: int| 0 <= i < s0.len() && s0[i] == tok;
            assert(s0[0] == c.server);
        }
        if tok == c.server {
            assert(s0[0] == tok);
        }
    }
}

/// Exactly which tokens the full invocation holds: the helper program name,
/// and the tokens of the argument list ([`lemma_args_membership`] says which
/// those are).
pub proof fn lemma_argv_membership(helper: Seq<char>, c: LauncherConfig, tok: Seq<char>)
    ensures
        spec_argv(helper, c).contains(tok) <==> (tok == helper || spec_args(c).contains(tok)),
{
    lemma_add_contains(seq![helper], spec_args(c), tok);
    let s = seq![helper];
    assert(s.contains(tok) <==> tok == helper) by {
        if s.contains(tok) {
            let i = choose|i: int| 0 <= i < s.len() && s[i] == tok;
            assert(s[0] == helper);
        }
        if tok == helper {
            assert(s[0] == tok);
        }
    }
}

/// How long the argument list is: one token for the server, one more for
/// each boolean flag that is true, and two more for each optional value that
/// is present — so false flags and absent values add nothing, and a true
/// flag stands bare, with no following token.
pub proof fn lemma_args_length(c: LauncherConfig)
    ensures
        spec_args(c).len() == 1 + (if c.gateway {
            1int
        } else {
            0int
        }) + (if c.saml_request is Some {
            2int
        } else {
            0int
        }) + (if c.user_agent is Some {
            2int
        } else {
            0int
        }) + (if c.os is Some {
            2int
        } else {
            0int
        }) + (if c.os_version is Some {
            2int
        } else {
            0int
        }) + (if c.hidpi {
            1int
        } else {
            0int
        }) + (if c.fix_openssl {
            1int
        } else {
            0int
        }) + (if c.ignore_tls_errors {
            1int
        } else {
            0int
        }) + (if c.clean {
            1int
        } else {
            0int
        }) + (if c.default_browser {
            1int
        } else {
            0int
        }),
{
}

/// Appends the bare flag when `set`, nothing otherwise.
fn push_flag(args: &mut Vec<String>, set: bool, flag: &str)
    ensures
        string_views(final(args)@) == string_views(old(args)@) + flag_tokens(set, flag@),
{
    if set {
        args.push(flag.to_owned());
    }
    proof {
        assert(string_views(args@) =~~= string_views(old(args)@) + flag_tokens(set, flag@));
    }
}

/// Appends the flag and its value as a two-token pair when present, nothing
/// otherwise.
fn push_value(args: &mut Vec<String>, value: Option<&str>, flag: &str)
    ensures
        string_views(final(args)@) == string_views(old(args)@) + value_tokens(
            opt_str_view(value),
            flag@,
        ),
{
    if let Some(v) = value {
        args.push(flag.to_owned());
        args.push(v.to_owned());
    }
    proof {
        assert(string_views(args@) =~~= string_views(old(args)@) + value_tokens(
            opt_str_view(value),
            flag@,
        ));
    }
}

} // verus!
