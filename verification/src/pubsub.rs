//! The OpenFMB subscriber's broker connection: the selected environment
//! (`coordinator.environment`) and the `openfmb_nats_subscriber.*` keys of
//! the shared [`Settings`] store.

use vstd::prelude::*;

pub use crate::connection::{Authentication, Environment, Security};
use crate::connection::{
    build_plan, environment_key, other_environment, parse_environment, plan_matches, plan_ready,
    read_connection_fields, section_options, section_uri, ConnectionPlan, OptionsView,
};
use crate::settings::{NatsSectionView, Settings, SettingsView};
use crate::text::{owned, view_opt};

verus! {

/// The status of the subscriber connection.
#[derive(Clone, Debug, PartialEq)]
pub struct PubSubStatus {
    pub env: Environment,
    pub connected: bool,
    pub server_id: String,
    pub send_status_update: bool,
}

/// The character view of a [`PubSubStatus`].
pub struct PubSubStatusView {
    pub env: Environment,
    pub connected: bool,
    pub server_id: Seq<char>,
    pub send_status_update: bool,
}

impl View for PubSubStatus {
    type V = PubSubStatusView;

    open spec fn view(&self) -> PubSubStatusView {
        PubSubStatusView {
            env: self.env,
            connected: self.connected,
            server_id: self.server_id@,
            send_status_update: self.send_status_update,
        }
    }
}

/// The options for connecting the subscriber to its broker.
#[derive(Clone, Debug)]
pub struct PubSubOptions {
    pub connection_url: String,
    pub authentication_type: Authentication,
    pub env: Environment,
    pub token: Option<String>,
    pub creds_file: Option<String>,
    pub username: Option<String>,
    pub password: Option<String>,
    pub security_type: Security,
    pub root_cert: Option<String>,
    pub client_cert: Option<String>,
    pub client_key: Option<String>,
}

impl View for PubSubOptions {
    type V = OptionsView;

    open spec fn view(&self) -> OptionsView {
        OptionsView {
            connection_url: self.connection_url@,
            authentication_type: self.authentication_type,
            env: self.env,
            token: view_opt(self.token),
            creds_file: view_opt(self.creds_file),
            username: view_opt(self.username),
            password: view_opt(self.password),
            security_type: self.security_type,
            root_cert: view_opt(self.root_cert),
            client_cert: view_opt(self.client_cert),
            client_key: view_opt(self.client_key),
        }
    }
}

/// The environment selected for the subscriber, if the store names one.
pub open spec fn subscriber_environment(s: SettingsView) -> Option<Environment> {
    match s.coordinator_environment {
        Some(v) => parse_environment(v),
        None => None,
    }
}

/// The store after selecting the subscriber's environment.
pub open spec fn select_subscriber_environment(s: SettingsView, env: Environment) -> SettingsView {
    SettingsView { coordinator_environment: Some(environment_key(env)), ..s }
}

/// The store after `openfmb_nats_subscriber.connected` gets its default of `true`.
pub open spec fn with_subscriber_connected_default(s: SettingsView) -> SettingsView {
    SettingsView {
        openfmb_nats_subscriber: NatsSectionView {
            connected: Some(
                match s.openfmb_nats_subscriber.connected {
                    Some(b) => b,
                    None => true,
                },
            ),
            ..s.openfmb_nats_subscriber
        },
        ..s
    }
}

/// Whether the store holds what `current_status` reads without a default.
pub open spec fn subscriber_status_available(s: SettingsView) -> bool {
    subscriber_environment(s) is Some && s.openfmb_nats_subscriber.connected is Some
}

/// The status that the store describes.
pub open spec fn subscriber_status(s: SettingsView) -> PubSubStatusView {
    PubSubStatusView {
        env: subscriber_environment(s).unwrap(),
        connected: s.openfmb_nats_subscriber.connected.unwrap(),
        server_id: match s.openfmb_nats_subscriber.server_id {
            Some(id) => id,
            None => Seq::empty(),
        },
        send_status_update: match s.openfmb_nats_subscriber.send_status_update {
            Some(b) => b,
            None => false,
        } && s.openfmb_nats_subscriber.server_id is Some,
    }
}

/// The store after the subscriber connection goes up or down.
pub open spec fn record_subscriber_connected(s: SettingsView, connected: bool) -> SettingsView {
    SettingsView {
        openfmb_nats_subscriber: s.openfmb_nats_subscriber.with_connected(connected),
        ..s
    }
}

impl PubSubOptions {
    /// Reads the options for the selected environment and records it;
    /// `openfmb_nats_subscriber.connected` defaults to `true`.
    pub fn new(settings: &mut Settings) -> (r: PubSubOptions)
        requires
            subscriber_environment(old(settings)@) is Some,
            section_uri(
                old(settings)@.openfmb_nats_subscriber,
                subscriber_environment(old(settings)@).unwrap(),
            ) is Some,
        ensures
            ({
                let env = subscriber_environment(old(settings)@).unwrap();
                &&& final(settings)@ == select_subscriber_environment(
                    with_subscriber_connected_default(old(settings)@),
                    env,
                )
                &&& r@ == section_options(old(settings)@.openfmb_nats_subscriber, env)
            }),
    {
        let env = Environment::parse(settings.coordinator_environment.as_ref().unwrap().as_str()).unwrap();
        if settings.openfmb_nats_subscriber.connected.is_none() {
            settings.openfmb_nats_subscriber.connected = Some(true);
        }
        PubSubOptions::get_options(settings, env)
    }

    /// Selects `env` for the subscriber and reads its options.
    pub fn get_options(settings: &mut Settings, env: Environment) -> (r: PubSubOptions)
        requires
            section_uri(old(settings)@.openfmb_nats_subscriber, env) is Some,
        ensures
            final(settings)@ == select_subscriber_environment(old(settings)@, env),
            r@ == section_options(old(settings)@.openfmb_nats_subscriber, env),
    {
        settings.coordinator_environment = Some(env.key());
        let f = read_connection_fields(&settings.openfmb_nats_subscriber, env);
        PubSubOptions {
            connection_url: f.connection_url,
            authentication_type: f.authentication_type,
            env: env,
            token: f.token,
            creds_file: f.creds_file,
            username: f.username,
            password: f.password,
            security_type: f.security_type,
            root_cert: f.root_cert,
            client_cert: f.client_cert,
            client_key: f.client_key,
        }
    }

    /// Switches the subscriber to the other environment and reads its options.
    pub fn toggle_environment(settings: &mut Settings) -> (r: PubSubOptions)
        requires
            subscriber_environment(old(settings)@) is Some,
            section_uri(
                old(settings)@.openfmb_nats_subscriber,
                other_environment(subscriber_environment(old(settings)@).unwrap()),
            ) is Some,
        ensures
            ({
                let env = other_environment(subscriber_environment(old(settings)@).unwrap());
                &&& final(settings)@ == select_subscriber_environment(old(settings)@, env)
                &&& r@ == section_options(old(settings)@.openfmb_nats_subscriber, env)
            }),
    {
        let env = Environment::parse(settings.coordinator_environment.as_ref().unwrap().as_str()).unwrap();
        let env = env.toggled();
        PubSubOptions::get_options(settings, env)
    }

    /// Whether the options carry every field their kinds need.
    pub fn has_required_fields(&self) -> (r: bool)
        ensures
            r == plan_ready(self@),
    {
        let user_ok = match self.authentication_type {
            Authentication::UserPwd => self.username.is_some() && self.password.is_some(),
            Authentication::Token => self.token.is_some(),
            Authentication::Creds => self.creds_file.is_some(),
            Authentication::NoAuthentication => true,
        };
        let tls_ok = match self.security_type {
            Security::TlsServer => self.root_cert.is_some(),
            Security::TlsMutual => self.root_cert.is_some() && self.client_cert.is_some()
                && self.client_key.is_some(),
            Security::NoSecurity => true,
        };
        user_ok && tls_ok
    }

    /// The URL, credentials and transport security to connect with.
    pub fn connection_plan(&self) -> (r: ConnectionPlan)
        requires
            plan_ready(self@),
        ensures
            plan_matches(self@, r),
    {
        build_plan(
            &self.connection_url,
            self.authentication_type,
            &self.token,
            &self.creds_file,
            &self.username,
            &self.password,
            self.security_type,
            &self.root_cert,
            &self.client_cert,
            &self.client_key,
            Ghost(self@),
        )
    }

    /// The subscriber's status; status updates are only sent with a server id.
    pub fn current_status(settings: &Settings) -> (r: PubSubStatus)
        requires
            subscriber_status_available(settings@),
        ensures
            r@ == subscriber_status(settings@),
    {
        let mut send_update_status = match settings.openfmb_nats_subscriber.send_status_update {
            Some(b) => b,
            None => false,
        };
        let server_id = match &settings.openfmb_nats_subscriber.server_id {
            Some(id) => id.clone(),
            None => {
                send_update_status = false;
                owned("")
            },
        };
        proof {
            reveal_strlit("");
            assert(""@ =~= Seq::<char>::empty());
        }
        PubSubStatus {
            env: Environment::parse(settings.coordinator_environment.as_ref().unwrap().as_str()).unwrap(),
            connected: settings.openfmb_nats_subscriber.connected.unwrap(),
            send_status_update: send_update_status,
            server_id: server_id,
        }
    }

    /// Records that the subscriber connection was lost.
    pub fn on_disconnect(settings: &mut Settings)
        ensures
            final(settings)@ == record_subscriber_connected(old(settings)@, false),
    {
        settings.openfmb_nats_subscriber.connected = Some(false);
    }

    /// Records that the subscriber connection is back.
    pub fn on_reconnect(settings: &mut Settings)
        ensures
            final(settings)@ == record_subscriber_connected(old(settings)@, true),
    {
        settings.openfmb_nats_subscriber.connected = Some(true);
    }
}

/// The subscriber's environment, once selected, is read back; the
/// coordinator's selection is left alone.
pub proof fn law_subscriber_select_then_read(s: SettingsView, env: Environment)
    ensures
        subscriber_environment(select_subscriber_environment(s, env)) == Some(env),
        select_subscriber_environment(s, env).hmi_environment == s.hmi_environment,
{
    crate::connection::lemma_environment_key_roundtrip(env);
}

/// Toggling the subscriber's environment twice selects the one selected before.
pub proof fn law_subscriber_toggle_twice(s0: SettingsView, s1: SettingsView, s2: SettingsView)
    requires
        subscriber_environment(s0) is Some,
        s1 == select_subscriber_environment(
            s0,
            other_environment(subscriber_environment(s0).unwrap()),
        ),
        s2 == select_subscriber_environment(
            s1,
            other_environment(subscriber_environment(s1).unwrap()),
        ),
    ensures
        subscriber_environment(s2) == subscriber_environment(s0),
{
    let e = subscriber_environment(s0).unwrap();
    law_subscriber_select_then_read(s0, other_environment(e));
    law_subscriber_select_then_read(s1, other_environment(other_environment(e)));
}

/// The subscriber status read after a disconnect or reconnect reports that state.
pub proof fn law_subscriber_status_reports_connection(s: SettingsView, connected: bool)
    requires
        subscriber_environment(s) is Some,
    ensures
        subscriber_status_available(record_subscriber_connected(s, connected)),
        subscriber_status(record_subscriber_connected(s, connected)).connected == connected,
{
}

} // verus!
