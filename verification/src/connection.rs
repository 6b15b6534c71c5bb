//! What a NATS connection is configured with: the environment, the kind of
//! authentication and of transport security, and the plan from which the
//! caller builds its client options.

use vstd::prelude::*;

use crate::settings::{NatsSection, NatsSectionView};
use crate::text::{nonempty, nonempty_copy, owned, str_eq, view_opt};

verus! {

/// The broker environment the HMI talks to.
#[derive(Clone, Copy, Debug, PartialEq, Eq, Structural)]
pub enum Environment {
    Dev,
    Prod,
}

/// How the client authenticates to the broker.
#[derive(Clone, Copy, Debug, PartialEq, Eq, Structural)]
pub enum Authentication {
    NoAuthentication,
    UserPwd,
    Token,
    Creds,
}

/// The transport security of the connection.
#[derive(Clone, Copy, Debug, PartialEq, Eq, Structural)]
pub enum Security {
    NoSecurity,
    TlsServer,
    TlsMutual,
}

/// The environment named by a configuration value.
pub open spec fn parse_environment(s: Seq<char>) -> Option<Environment> {
    if s == "dev"@ {
        Some(Environment::Dev)
    } else if s == "prod"@ {
        Some(Environment::Prod)
    } else {
        None
    }
}

/// The configuration value that names an environment.
pub open spec fn environment_key(e: Environment) -> Seq<char> {
    match e {
        Environment::Dev => "dev"@,
        Environment::Prod => "prod"@,
    }
}

/// The other environment.
pub open spec fn other_environment(e: Environment) -> Environment {
    match e {
        Environment::Dev => Environment::Prod,
        Environment::Prod => Environment::Dev,
    }
}

/// The authentication kind named by a configuration value.
pub open spec fn parse_authentication(s: Seq<char>) -> Option<Authentication> {
    if s == "none"@ {
        Some(Authentication::NoAuthentication)
    } else if s == "user_pwd"@ {
        Some(Authentication::UserPwd)
    } else if s == "token"@ {
        Some(Authentication::Token)
    } else if s == "creds"@ {
        Some(Authentication::Creds)
    } else {
        None
    }
}

/// The security kind named by a configuration value.
pub open spec fn parse_security(s: Seq<char>) -> Option<Security> {
    if s == "none"@ {
        Some(Security::NoSecurity)
    } else if s == "tls_server"@ {
        Some(Security::TlsServer)
    } else if s == "tls_mutual"@ {
        Some(Security::TlsMutual)
    } else {
        None
    }
}

impl Environment {
    /// The numeric code of the environment.
    pub open spec fn spec_code(self) -> i32 {
        match self {
            Environment::Dev => 0,
            Environment::Prod => 1,
        }
    }

    pub fn code(&self) -> (r: i32)
        ensures
            r == self.spec_code(),
    {
        match self {
            Environment::Dev => 0,
            Environment::Prod => 1,
        }
    }

    /// The environment with the given numeric code.
    pub fn try_from_code(v: i32) -> (r: Result<Environment, ()>)
        ensures
            v == 0 ==> r == Ok::<Environment, ()>(Environment::Dev),
            v == 1 ==> r == Ok::<Environment, ()>(Environment::Prod),
            v != 0 && v != 1 ==> r is Err,
    {
        if v == 0 {
            Ok(Environment::Dev)
        } else if v == 1 {
            Ok(Environment::Prod)
        } else {
            Err(())
        }
    }

    /// Parses `"dev"` or `"prod"`.
    pub fn parse(input: &str) -> (r: Result<Environment, ()>)
        ensures
            match parse_environment(input@) {
                Some(e) => r == Ok::<Environment, ()>(e),
                None => r is Err,
            },
    {
        if str_eq(input, "dev") {
            Ok(Environment::Dev)
        } else if str_eq(input, "prod") {
            Ok(Environment::Prod)
        } else {
            Err(())
        }
    }

    /// The configuration value naming this environment.
    pub fn key(&self) -> (r: String)
        ensures
            r@ == environment_key(*self),
    {
        match self {
            Environment::Dev => owned("dev"),
            Environment::Prod => owned("prod"),
        }
    }

    /// The name shown to users (`Dev` or `Prod`).
    pub fn display_name(&self) -> (r: String)
        ensures
            r@ == (match *self {
                Environment::Dev => "Dev"@,
                Environment::Prod => "Prod"@,
            }),
    {
        match self {
            Environment::Dev => owned("Dev"),
            Environment::Prod => owned("Prod"),
        }
    }

    /// The other environment.
    pub fn toggled(&self) -> (r: Environment)
        ensures
            r == other_environment(*self),
    {
        match self {
            Environment::Dev => Environment::Prod,
            Environment::Prod => Environment::Dev,
        }
    }
}

impl Authentication {
    pub open spec fn spec_code(self) -> i32 {
        match self {
            Authentication::NoAuthentication => 0,
            Authentication::UserPwd => 1,
            Authentication::Token => 2,
            Authentication::Creds => 3,
        }
    }

    pub fn code(&self) -> (r: i32)
        ensures
            r == self.spec_code(),
    {
        match self {
            Authentication::NoAuthentication => 0,
            Authentication::UserPwd => 1,
            Authentication::Token => 2,
            Authentication::Creds => 3,
        }
    }

    /// The authentication kind with the given numeric code.
    pub fn try_from_code(v: i32) -> (r: Result<Authentication, ()>)
        ensures
            (0 <= v <= 3) == (r is Ok),
            r matches Ok(a) ==> a.spec_code() == v,
    {
        if v == 0 {
            Ok(Authentication::NoAuthentication)
        } else if v == 1 {
            Ok(Authentication::UserPwd)
        } else if v == 2 {
            Ok(Authentication::Token)
        } else if v == 3 {
            Ok(Authentication::Creds)
        } else {
            Err(())
        }
    }

    /// Parses `"none"`, `"user_pwd"`, `"token"` or `"creds"`.
    pub fn parse(input: &str) -> (r: Result<Authentication, ()>)
        ensures
            match parse_authentication(input@) {
                Some(a) => r == Ok::<Authentication, ()>(a),
                None => r is Err,
            },
    {
        if str_eq(input, "none") {
            Ok(Authentication::NoAuthentication)
        } else if str_eq(input, "user_pwd") {
            Ok(Authentication::UserPwd)
        } else if str_eq(input, "token") {
            Ok(Authentication::Token)
        } else if str_eq(input, "creds") {
            Ok(Authentication::Creds)
        } else {
            Err(())
        }
    }

    /// The name shown to users (the variant's name).
    pub fn display_name(&self) -> (r: String)
        ensures
            r@ == (match *self {
                Authentication::NoAuthentication => "None"@,
                Authentication::UserPwd => "UserPwd"@,
                Authentication::Token => "Token"@,
                Authentication::Creds => "Creds"@,
            }),
    {
        match self {
            Authentication::NoAuthentication => owned("None"),
            Authentication::UserPwd => owned("UserPwd"),
            Authentication::Token => owned("Token"),
            Authentication::Creds => owned("Creds"),
        }
    }
}

impl Security {
    pub open spec fn spec_code(self) -> i32 {
        match self {
            Security::NoSecurity => 0,
            Security::TlsServer => 1,
            Security::TlsMutual => 2,
        }
    }

    pub fn code(&self) -> (r: i32)
        ensures
            r == self.spec_code(),
    {
        match self {
            Security::NoSecurity => 0,
            Security::TlsServer => 1,
            Security::TlsMutual => 2,
        }
    }

    /// The security kind with the given numeric code.
    pub fn try_from_code(v: i32) -> (r: Result<Security, ()>)
        ensures
            (0 <= v <= 2) == (r is Ok),
            r matches Ok(s) ==> s.spec_code() == v,
    {
        if v == 0 {
            Ok(Security::NoSecurity)
        } else if v == 1 {
            Ok(Security::TlsServer)
        } else if v == 2 {
            Ok(Security::TlsMutual)
        } else {
            Err(())
        }
    }

    /// Parses `"none"`, `"tls_server"` or `"tls_mutual"`.
    pub fn parse(input: &str) -> (r: Result<Security, ()>)
        ensures
            match parse_security(input@) {
                Some(s) => r == Ok::<Security, ()>(s),
                None => r is Err,
            },
    {
        if str_eq(input, "none") {
            Ok(Security::NoSecurity)
        } else if str_eq(input, "tls_server") {
            Ok(Security::TlsServer)
        } else if str_eq(input, "tls_mutual") {
            Ok(Security::TlsMutual)
        } else {
            Err(())
        }
    }

    /// The name shown to users (the variant's name).
    pub fn display_name(&self) -> (r: String)
        ensures
            r@ == (match *self {
                Security::NoSecurity => "None"@,
                Security::TlsServer => "TlsServer"@,
                Security::TlsMutual => "TlsMutual"@,
            }),
    {
        match self {
            Security::NoSecurity => owned("None"),
            Security::TlsServer => owned("TlsServer"),
            Security::TlsMutual => owned("TlsMutual"),
        }
    }
}

/// The options of a connection as read from one settings section.
pub struct OptionsView {
    pub connection_url: Seq<char>,
    pub authentication_type: Authentication,
    pub env: Environment,
    pub token: Option<Seq<char>>,
    pub creds_file: Option<Seq<char>>,
    pub username: Option<Seq<char>>,
    pub password: Option<Seq<char>>,
    pub security_type: Security,
    pub root_cert: Option<Seq<char>>,
    pub client_cert: Option<Seq<char>>,
    pub client_key: Option<Seq<char>>,
}

/// The URI configured for an environment.
pub open spec fn section_uri(s: NatsSectionView, env: Environment) -> Option<Seq<char>> {
    match env {
        Environment::Prod => s.prod_uri,
        Environment::Dev => s.dev_uri,
    }
}

/// The authentication configured in a section: an unknown or missing value
/// leaves it at `None`.
pub open spec fn section_authentication(s: NatsSectionView) -> Authentication {
    match s.authentication_type {
        Some(v) => match parse_authentication(v) {
            Some(a) => a,
            None => Authentication::NoAuthentication,
        },
        None => Authentication::NoAuthentication,
    }
}

/// The security configured in a section: an unknown or missing value leaves
/// it at `None`.
pub open spec fn section_security(s: NatsSectionView) -> Security {
    match s.security_type {
        Some(v) => match parse_security(v) {
            Some(a) => a,
            None => Security::NoSecurity,
        },
        None => Security::NoSecurity,
    }
}

/// The options that a section yields for an environment whose URI is set.
pub open spec fn section_options(s: NatsSectionView, env: Environment) -> OptionsView {
    OptionsView {
        connection_url: section_uri(s, env).unwrap(),
        authentication_type: section_authentication(s),
        env: env,
        token: nonempty(s.token),
        creds_file: nonempty(s.creds),
        username: nonempty(s.username),
        password: nonempty(s.password),
        security_type: section_security(s),
        root_cert: nonempty(s.root_cert),
        client_cert: nonempty(s.client_cert),
        client_key: nonempty(s.client_key),
    }
}

/// The fields read from a settings section, shared by the coordinator and
/// the pub/sub options.
pub struct ConnectionFields {
    pub connection_url: String,
    pub authentication_type: Authentication,
    pub token: Option<String>,
    pub creds_file: Option<String>,
    pub username: Option<String>,
    pub password: Option<String>,
    pub security_type: Security,
    pub root_cert: Option<String>,
    pub client_cert: Option<String>,
    pub client_key: Option<String>,
}

impl ConnectionFields {
    pub open spec fn view_with(self, env: Environment) -> OptionsView {
        OptionsView {
            connection_url: self.connection_url@,
            authentication_type: self.authentication_type,
            env: env,
            token: view_opt(self.token),
            creds_file: view_opt(self.creds_file),
            username: view_opt(self.username),
            password: view_opt(self.password),
            security_type: self.security_type,
            root_cert: view_opt(self.root_cert),
            client_cert: view_opt(self.client_cert),
            client_key: view_opt(self.client_key),
        }
    }
}

/// Reads the connection fields of a section for an environment.
pub fn read_connection_fields(section: &NatsSection, env: Environment) -> (r: ConnectionFields)
    requires
        section_uri(section@, env) is Some,
    ensures
        r.view_with(env) == section_options(section@, env),
{
    let url = match env {
        Environment::Prod => section.prod_uri.as_ref().unwrap().clone(),
        Environment::Dev => section.dev_uri.as_ref().unwrap().clone(),
    };
    let mut authentication_type = Authentication::NoAuthentication;
    if let Some(s) = &section.authentication_type {
        if let Ok(a) = Authentication::parse(s.as_str()) {
            authentication_type = a;
        }
    }
    let mut security_type = Security::NoSecurity;
    if let Some(s) = &section.security_type {
        if let Ok(a) = Security::parse(s.as_str()) {
            security_type = a;
        }
    }
    ConnectionFields {
        connection_url: url,
        authentication_type,
        token: nonempty_copy(&section.token),
        creds_file: nonempty_copy(&section.creds),
        username: nonempty_copy(&section.username),
        password: nonempty_copy(&section.password),
        security_type,
        root_cert: nonempty_copy(&section.root_cert),
        client_cert: nonempty_copy(&section.client_cert),
        client_key: nonempty_copy(&section.client_key),
    }
}

/// The credentials a client presents.
pub enum Credentials {
    /// The client's default options.
    Default,
    UserPassword { username: String, password: String },
    Token(String),
    /// The path of a credentials file.
    CredentialsFile(String),
}

/// The transport security a client sets up.
pub enum TlsPlan {
    Plain,
    /// Trust the server certificate signed by this root.
    ServerRoot { root_cert: String },
    /// Trust the root and present a client certificate and key.
    Mutual { root_cert: String, client_cert: String, client_key: String },
}

/// Everything a client needs to build its connection options.
pub struct ConnectionPlan {
    pub url: String,
    pub credentials: Credentials,
    pub tls: TlsPlan,
}

/// Whether the options carry every field that their authentication and
/// security kinds need.
pub open spec fn plan_ready(o: OptionsView) -> bool {
    &&& o.authentication_type == Authentication::UserPwd ==> o.username is Some && o.password is Some
    &&& o.authentication_type == Authentication::Token ==> o.token is Some
    &&& o.authentication_type == Authentication::Creds ==> o.creds_file is Some
    &&& o.security_type == Security::TlsServer ==> o.root_cert is Some
    &&& o.security_type == Security::TlsMutual ==> o.root_cert is Some && o.client_cert is Some
        && o.client_key is Some
}

/// The plan that options describe.
pub open spec fn plan_matches(o: OptionsView, p: ConnectionPlan) -> bool {
    &&& p.url@ == o.connection_url
    &&& match o.authentication_type {
        Authentication::NoAuthentication => p.credentials is Default,
        Authentication::UserPwd => p.credentials matches Credentials::UserPassword {
            username,
            password,
        } && username@ == o.username.unwrap() && password@ == o.password.unwrap(),
        Authentication::Token => p.credentials matches Credentials::Token(t) && t@
            == o.token.unwrap(),
        Authentication::Creds => p.credentials matches Credentials::CredentialsFile(f) && f@
            == o.creds_file.unwrap(),
    }
    &&& match o.security_type {
        Security::NoSecurity => p.tls is Plain,
        Security::TlsServer => p.tls matches TlsPlan::ServerRoot { root_cert } && root_cert@
            == o.root_cert.unwrap(),
        Security::TlsMutual => p.tls matches TlsPlan::Mutual { root_cert, client_cert, client_key }
            && root_cert@ == o.root_cert.unwrap() && client_cert@ == o.client_cert.unwrap()
            && client_key@ == o.client_key.unwrap(),
    }
}

/// Builds the plan from the parts of a set of options.
pub(crate) fn build_plan(
    url: &String,
    authentication_type: Authentication,
    token: &Option<String>,
    creds_file: &Option<String>,
    username: &Option<String>,
    password: &Option<String>,
    security_type: Security,
    root_cert: &Option<String>,
    client_cert: &Option<String>,
    client_key: &Option<String>,
    Ghost(o): Ghost<OptionsView>,
) -> (r: ConnectionPlan)
    requires
        o.connection_url == url@,
        o.authentication_type == authentication_type,
        o.token == view_opt(*token),
        o.creds_file == view_opt(*creds_file),
        o.username == view_opt(*username),
        o.password == view_opt(*password),
        o.security_type == security_type,
        o.root_cert == view_opt(*root_cert),
        o.client_cert == view_opt(*client_cert),
        o.client_key == view_opt(*client_key),
        plan_ready(o),
    ensures
        plan_matches(o, r),
{
    let credentials = match authentication_type {
        Authentication::UserPwd => Credentials::UserPassword {
            username: username.as_ref().unwrap().clone(),
            password: password.as_ref().unwrap().clone(),
        },
        Authentication::Token => Credentials::Token(token.as_ref().unwrap().clone()),
        Authentication::Creds => Credentials::CredentialsFile(creds_file.as_ref().unwrap().clone()),
        Authentication::NoAuthentication => Credentials::Default,
    };
    let tls = match security_type {
        Security::TlsServer => TlsPlan::ServerRoot { root_cert: root_cert.as_ref().unwrap().clone() },
        Security::TlsMutual => TlsPlan::Mutual {
            root_cert: root_cert.as_ref().unwrap().clone(),
            client_cert: client_cert.as_ref().unwrap().clone(),
            client_key: client_key.as_ref().unwrap().clone(),
        },
        Security::NoSecurity => TlsPlan::Plain,
    };
    ConnectionPlan { url: url.clone(), credentials, tls }
}

/// Parsing the value that names an environment gives that environment back.
pub proof fn lemma_environment_key_roundtrip(e: Environment)
    ensures
        parse_environment(environment_key(e)) == Some(e),
{
    reveal_strlit("dev");
    reveal_strlit("prod");
    assert("dev"@ != "prod"@) by {
        assert("dev"@.len() != "prod"@.len());
    }
}

/// Each authentication kind's configuration name parses to that kind:
/// `none`, `user_pwd`, `token` and `creds`, in the order of their codes.
pub proof fn law_authentication_names()
    ensures
        parse_authentication("none"@) == Some(Authentication::NoAuthentication),
        parse_authentication("user_pwd"@) == Some(Authentication::UserPwd),
        parse_authentication("token"@) == Some(Authentication::Token),
        parse_authentication("creds"@) == Some(Authentication::Creds),
{
    reveal_strlit("none");
    reveal_strlit("user_pwd");
    reveal_strlit("token");
    reveal_strlit("creds");
    assert("user_pwd"@ != "none"@) by {
        assert("user_pwd"@.len() != "none"@.len());
    }
    assert("token"@ != "none"@) by {
        assert("token"@.len() != "none"@.len());
    }
    assert("token"@ != "user_pwd"@) by {
        assert("token"@.len() != "user_pwd"@.len());
    }
    assert("creds"@ != "none"@) by {
        assert("creds"@.len() != "none"@.len());
    }
    assert("creds"@ != "user_pwd"@) by {
        assert("creds"@.len() != "user_pwd"@.len());
    }
    assert("creds"@ != "token"@) by {
        assert("creds"@[0] != "token"@[0]);
    }
}

/// Different configuration names never parse to the same authentication
/// kind, so each kind is configured by exactly one name.
pub proof fn law_authentication_names_distinct(a: Seq<char>, b: Seq<char>)
    requires
        parse_authentication(a) is Some,
        parse_authentication(a) == parse_authentication(b),
    ensures
        a == b,
{
    law_authentication_names();
}

/// Each security kind's configuration name parses to that kind, and
/// different names never parse to the same kind.
pub proof fn law_security_names(a: Seq<char>, b: Seq<char>)
    ensures
        parse_security("none"@) == Some(Security::NoSecurity),
        parse_security("tls_server"@) == Some(Security::TlsServer),
        parse_security("tls_mutual"@) == Some(Security::TlsMutual),
        parse_security(a) is Some && parse_security(a) == parse_security(b) ==> a == b,
{
    reveal_strlit("none");
    reveal_strlit("tls_server");
    reveal_strlit("tls_mutual");
    assert("tls_server"@ != "none"@) by {
        assert("tls_server"@.len() != "none"@.len());
    }
    assert("tls_mutual"@ != "none"@) by {
        assert("tls_mutual"@.len() != "none"@.len());
    }
    assert("tls_mutual"@ != "tls_server"@) by {
        assert("tls_mutual"@[4] != "tls_server"@[4]);
    }
}

} // verus!
