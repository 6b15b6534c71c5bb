use hmi_server::configuration::{
    default_backoff, AuthType, ConnectCredentials, HmiConfig, ModuleLogLevel, NatsConfiguration, NatsConnector,
    OESAppSettings, RetryDecision,
};
use hmi_server::connection::{Authentication, Credentials, Environment, Security, TlsPlan};
use hmi_server::coordinator::CoordinatorOptions;
use hmi_server::logging::{log_plan, LogLevel};
use hmi_server::pubsub::PubSubOptions;
use hmi_server::settings::Settings;

fn settings() -> Settings {
    let mut s = Settings::empty();
    s.hmi_environment = Some("dev".to_string());
    s.coordinator_environment = Some("prod".to_string());
    s.nats.dev_uri = Some("nats://dev:4222".to_string());
    s.nats.prod_uri = Some("nats://prod:4222".to_string());
    s.nats.authentication_type = Some("user_pwd".to_string());
    s.nats.username = Some("u".to_string());
    s.nats.password = Some("p".to_string());
    s.nats.security_type = Some("tls_server".to_string());
    s.nats.root_cert = Some("ca.pem".to_string());
    s.nats.token = Some("".to_string());
    s.openfmb_nats_subscriber.prod_uri = Some("nats://sub:4222".to_string());
    s.openfmb_nats_subscriber.connected = Some(false);
    s
}

#[test]
fn coordinator_options_follow_the_selected_environment() {
    let mut s = settings();
    let o = CoordinatorOptions::new(&mut s);
    assert_eq!(o.connection_url, "nats://dev:4222");
    assert_eq!(o.env, Environment::Dev);
    assert_eq!(o.authentication_type, Authentication::UserPwd);
    assert_eq!(o.security_type, Security::TlsServer);
    assert_eq!(o.token, None);
    assert_eq!(s.nats.connected, Some(true));
    assert!(o.has_required_fields());
    let plan = o.options();
    assert_eq!(plan.url, "nats://dev:4222");
    assert!(matches!(plan.credentials, Credentials::UserPassword { ref username, ref password } if username == "u" && password == "p"));
    assert!(matches!(plan.tls, TlsPlan::ServerRoot { ref root_cert } if root_cert == "ca.pem"));

    let o = CoordinatorOptions::toggle_environment(&mut s);
    assert_eq!(o.env, Environment::Prod);
    assert_eq!(s.hmi_environment, Some("prod".to_string()));
    let o = CoordinatorOptions::toggle_environment(&mut s);
    assert_eq!(o.connection_url, "nats://dev:4222");
}

#[test]
fn coordinator_status_and_callbacks() {
    let mut s = settings();
    CoordinatorOptions::new(&mut s);
    CoordinatorOptions::update_coordinator_status(&mut s, true, false);
    CoordinatorOptions::on_disconnect(&mut s);
    let st = CoordinatorOptions::current_status(&s);
    assert_eq!(st.env, Environment::Dev);
    assert!(!st.connected);
    assert!(st.coordinator_active);
    assert!(!st.comm_ok);
    assert_eq!(st.server_id, "");
    assert!(!st.send_status_update);
    CoordinatorOptions::on_reconnect(&mut s);
    s.nats.server_id = Some("srv".to_string());
    s.nats.send_status_update = Some(true);
    let st = CoordinatorOptions::current_status(&s);
    assert!(st.connected);
    assert!(st.send_status_update);
    assert_eq!(CoordinatorOptions::server_id(&s), Some("srv".to_string()));
    assert_eq!(CoordinatorOptions::on_delay_reconnect(3), 300);
    assert_eq!(CoordinatorOptions::on_delay_reconnect(1000), 10000);
}

#[test]
fn subscriber_options() {
    let mut s = settings();
    let o = PubSubOptions::new(&mut s);
    assert_eq!(o.connection_url, "nats://sub:4222");
    assert_eq!(o.env, Environment::Prod);
    assert_eq!(o.authentication_type, Authentication::NoAuthentication);
    let st = PubSubOptions::current_status(&s);
    assert!(!st.connected);
    PubSubOptions::on_reconnect(&mut s);
    assert!(PubSubOptions::current_status(&s).connected);
    let plan = o.connection_plan();
    assert!(matches!(plan.credentials, Credentials::Default));
    assert!(matches!(plan.tls, TlsPlan::Plain));
}

#[test]
fn environment_names() {
    assert_eq!(Environment::parse("dev"), Ok(Environment::Dev));
    assert_eq!(Environment::parse("prod"), Ok(Environment::Prod));
    assert_eq!(Environment::parse("Prod"), Err(()));
    assert_eq!(Environment::Dev.toggled(), Environment::Prod);
    assert_eq!(Environment::Prod.key(), "prod");
    assert_eq!(Authentication::parse("creds"), Ok(Authentication::Creds));
    assert_eq!(Security::parse("tls_mutual"), Ok(Security::TlsMutual));
    assert_eq!(Security::try_from_code(7), Err(()));
}

#[test]
fn default_backoff_doubles_up_to_the_limit() {
    assert_eq!(default_backoff(1000, 250), (1250, 2000));
    assert_eq!(default_backoff(16000, 500), (16500, 30000));
    assert_eq!(default_backoff(30000, 1000), (30000, 30000));
    assert_eq!(default_backoff(29500, 1000), (30000, 30000));
}

#[test]
fn connector_retry_decisions() {
    let cfg = NatsConfiguration::from_platform(None, None);
    assert_eq!(cfg.connection_url, "nats://localhost:4222");
    let c: NatsConnector<fn(i32, u64) -> u64> = cfg.connector().max_attempts(3);
    assert_eq!(c.after_failure(1, 1000, 10), RetryDecision::RetryAfter { sleep_ms: 1010, next_delay_ms: 2000 });
    assert_eq!(c.after_failure(3, 1000, 10), RetryDecision::GiveUp);
    match c.next_retry(2, 4000) {
        RetryDecision::RetryAfter { sleep_ms, next_delay_ms } => {
            assert!(4000 <= sleep_ms && sleep_ms <= 5000);
            assert_eq!(next_delay_ms, 8000);
        }
        RetryDecision::GiveUp => panic!("gave up early"),
    }
    fn same(_attempt: i32, prev: u64) -> u64 {
        prev
    }
    let c = NatsConfiguration::from_platform(Some("nats://h".to_string()), Some("1".to_string()))
        .connector()
        .backoff(same as fn(i32, u64) -> u64);
    assert_eq!(c.connection_url, "nats://h:1");
    assert_eq!(c.after_failure(9, 700, 0), RetryDecision::RetryAfter { sleep_ms: 700, next_delay_ms: 700 });
    assert!(matches!(c.options(), ConnectCredentials::Default));
}

#[test]
fn auth_types_and_endpoint() {
    assert_eq!(AuthType::from_value(Some("KeyCloak".to_string())), AuthType::KEYCLOAK);
    assert_eq!(AuthType::from_value(Some("other".to_string())), AuthType::NIL);
    assert_eq!(AuthType::from(None), AuthType::NIL);
    let h = HmiConfig::default();
    assert_eq!(h.server_host(), "0.0.0.0");
    assert_eq!(h.server_port(), 80);
    assert_eq!(h.ssl_cert(), "");
    let h = HmiConfig::new(8443, None, Some("c.pem".to_string()), Some("k.pem".to_string()));
    assert_eq!(h.ssl_key(), "k.pem");
    assert_eq!(h.server_host(), "0.0.0.0");
}

#[test]
fn test_setup_logger() {
    let settings = OESAppSettings {
        log_level: "info".to_string(),
        log_file: Some("test.log".to_string()),
        colored: Some(true),
        app_name: "test".to_string(),
        module_log_levels: Some(vec![
            ModuleLogLevel { module: "test_module".to_string(), level: "debug".to_string() },
            ModuleLogLevel { module: "another_module".to_string(), level: "error".to_string() },
        ]),
    };
    let plan = log_plan(&settings);
    assert_eq!(plan.level, LogLevel::Info);
    assert_eq!(
        plan.module_levels,
        vec![("test_module".to_string(), LogLevel::Debug), ("another_module".to_string(), LogLevel::Error)]
    );
    assert!(plan.colored);
    assert_eq!(plan.app_name, "test");
    assert_eq!(plan.log_file, Some("test.log".to_string()));
}

#[test]
fn log_levels_default_when_unknown() {
    let mut settings = OESAppSettings::new();
    assert!(!settings.colored());
    settings.log_level = "TrAcE".to_string();
    settings.module_log_levels = Some(vec![ModuleLogLevel { module: "m".to_string(), level: "loud".to_string() }]);
    let plan = log_plan(&settings);
    assert_eq!(plan.level, LogLevel::Trace);
    assert_eq!(plan.module_levels, vec![("m".to_string(), LogLevel::Off)]);
    settings.log_level = "verbose".to_string();
    assert_eq!(log_plan(&settings).level, LogLevel::Error);
}
