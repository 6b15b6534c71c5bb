//! The HMI coordinator's view of its broker connection: which environment
//! is selected, how to connect to it, and the status shown to clients.
//! Everything is read from and written to the shared [`Settings`] store
//! (`hmi.*` and `nats.*` keys).

use vstd::prelude::*;

pub use crate::connection::{Authentication, Environment, Security};
use crate::connection::{
    build_plan, environment_key, other_environment, parse_environment, plan_matches, plan_ready,
    read_connection_fields, section_options, section_uri, ConnectionPlan, OptionsView,
};
use crate::settings::{NatsSectionView, Settings, SettingsView};
use crate::text::{owned, view_opt};

verus! {

/// The status of the coordinator as shown to HMI clients.
#[derive(Clone, Debug, PartialEq)]
pub struct CoordinatorStatus {
    pub env: Environment,
    pub connected: bool,
    pub coordinator_active: bool,
    pub comm_ok: bool,
    pub server_id: String,
    pub send_status_update: bool,
}

/// The character view of a [`CoordinatorStatus`].
pub struct CoordinatorStatusView {
    pub env: Environment,
    pub connected: bool,
    pub coordinator_active: bool,
    pub comm_ok: bool,
    pub server_id: Seq<char>,
    pub send_status_update: bool,
}

impl View for CoordinatorStatus {
    type V = CoordinatorStatusView;

    open spec fn view(&self) -> CoordinatorStatusView {
        CoordinatorStatusView {
            env: self.env,
            connected: self.connected,
            coordinator_active: self.coordinator_active,
            comm_ok: self.comm_ok,
            server_id: self.server_id@,
            send_status_update: self.send_status_update,
        }
    }
}

/// The options for connecting the coordinator to its broker.
#[derive(Clone, Debug)]
pub struct CoordinatorOptions {
    pub connection_url: String,
    pub authentication_type: Authentication,
    pub env: Environment,
    pub token: Option<String>,
    pub creds_file: Option<String>,
    pub username: Option<String>,
    pub password: Option<String>,
    pub security_type: Security,
    pub root_cert: Option<String>,
    pub client_cert: Option<String>,
    pub client_key: Option<String>,
}

impl View for CoordinatorOptions {
    type V = OptionsView;

    open spec fn view(&self) -> OptionsView {
        OptionsView {
            connection_url: self.connection_url@,
            authentication_type: self.authentication_type,
            env: self.env,
            token: view_opt(self.token),
            creds_file: view_opt(self.creds_file),
            username: view_opt(self.username),
            password: view_opt(self.password),
            security_type: self.security_type,
            root_cert: view_opt(self.root_cert),
            client_cert: view_opt(self.client_cert),
            client_key: view_opt(self.client_key),
        }
    }
}

/// The environment selected in the store (`hmi.environment`), if it names one.
pub open spec fn selected_environment(s: SettingsView) -> Option<Environment> {
    match s.hmi_environment {
        Some(v) => parse_environment(v),
        None => None,
    }
}

/// The store after selecting an environment.
pub open spec fn select_environment(s: SettingsView, env: Environment) -> SettingsView {
    SettingsView { hmi_environment: Some(environment_key(env)), ..s }
}

/// The store after `nats.connected` gets its default of `true`.
pub open spec fn with_connected_default(s: SettingsView) -> SettingsView {
    SettingsView {
        nats: NatsSectionView {
            connected: Some(
                match s.nats.connected {
                    Some(b) => b,
                    None => true,
                },
            ),
            ..s.nats
        },
        ..s
    }
}

/// Whether the store holds what `current_status` reads without a default.
pub open spec fn status_available(s: SettingsView) -> bool {
    selected_environment(s) is Some && s.nats.connected is Some
}

/// The status that the store describes.
pub open spec fn coordinator_status(s: SettingsView) -> CoordinatorStatusView {
    CoordinatorStatusView {
        env: selected_environment(s).unwrap(),
        connected: s.nats.connected.unwrap(),
        coordinator_active: match s.hmi_active {
            Some(b) => b,
            None => false,
        },
        comm_ok: match s.hmi_comm_ok {
            Some(b) => b,
            None => false,
        },
        server_id: match s.nats.server_id {
            Some(id) => id,
            None => Seq::empty(),
        },
        send_status_update: match s.nats.send_status_update {
            Some(b) => b,
            None => false,
        } && s.nats.server_id is Some,
    }
}

/// The store after the coordinator records its activity and communication state.
pub open spec fn record_status(s: SettingsView, is_active: bool, overall_comm: bool) -> SettingsView {
    SettingsView { hmi_active: Some(is_active), hmi_comm_ok: Some(overall_comm), ..s }
}

/// The store after the broker connection goes up or down.
pub open spec fn record_connected(s: SettingsView, connected: bool) -> SettingsView {
    SettingsView { nats: s.nats.with_connected(connected), ..s }
}

/// The reconnect delay in milliseconds after `c` attempts.
pub open spec fn reconnect_delay(c: int) -> int {
    if c * 100 < 10000 {
        c * 100
    } else {
        10000
    }
}

impl CoordinatorOptions {
    /// Reads the options for the selected environment and records that
    /// environment in the store; `nats.connected` defaults to `true`.
    pub fn new(settings: &mut Settings) -> (r: CoordinatorOptions)
        requires
            selected_environment(old(settings)@) is Some,
            section_uri(old(settings)@.nats, selected_environment(old(settings)@).unwrap()) is Some,
        ensures
            ({
                let env = selected_environment(old(settings)@).unwrap();
                &&& final(settings)@ == select_environment(
                    with_connected_default(old(settings)@),
                    env,
                )
                &&& r@ == section_options(old(settings)@.nats, env)
            }),
    {
        let env = Environment::parse(settings.hmi_environment.as_ref().unwrap().as_str()).unwrap();
        if settings.nats.connected.is_none() {
            settings.nats.connected = Some(true);
        }
        CoordinatorOptions::get_options(settings, env)
    }

    /// Selects `env` in the store and reads its options.
    pub fn get_options(settings: &mut Settings, env: Environment) -> (r: CoordinatorOptions)
        requires
            section_uri(old(settings)@.nats, env) is Some,
        ensures
            final(settings)@ == select_environment(old(settings)@, env),
            r@ == section_options(old(settings)@.nats, env),
    {
        settings.hmi_environment = Some(env.key());
        let f = read_connection_fields(&settings.nats, env);
        CoordinatorOptions {
            connection_url: f.connection_url,
            authentication_type: f.authentication_type,
            env: env,
            token: f.token,
            creds_file: f.creds_file,
            username: f.username,
            password: f.password,
            security_type: f.security_type,
            root_cert: f.root_cert,
            client_cert: f.client_cert,
            client_key: f.client_key,
        }
    }

    /// Switches to the other environment and reads its options.
    pub fn toggle_environment(settings: &mut Settings) -> (r: CoordinatorOptions)
        requires
            selected_environment(old(settings)@) is Some,
            section_uri(
                old(settings)@.nats,
                other_environment(selected_environment(old(settings)@).unwrap()),
            ) is Some,
        ensures
            ({
                let env = other_environment(selected_environment(old(settings)@).unwrap());
                &&& final(settings)@ == select_environment(old(settings)@, env)
                &&& r@ == section_options(old(settings)@.nats, env)
            }),
    {
        let env = Environment::parse(settings.hmi_environment.as_ref().unwrap().as_str()).unwrap();
        let env = env.toggled();
        CoordinatorOptions::get_options(settings, env)
    }

    /// Whether the options carry every field their kinds need.
    pub fn has_required_fields(&self) -> (r: bool)
        ensures
            r == plan_ready(self@),
    {
        let user_ok = match self.authentication_type {
            Authentication::UserPwd => self.username.is_some() && self.password.is_some(),
            Authentication::Token => self.token.is_some(),
            Authentication::Creds => self.creds_file.is_some(),
            Authentication::NoAuthentication => true,
        };
        let tls_ok = match self.security_type {
            Security::TlsServer => self.root_cert.is_some(),
            Security::TlsMutual => self.root_cert.is_some() && self.client_cert.is_some()
                && self.client_key.is_some(),
            Security::NoSecurity => true,
        };
        user_ok && tls_ok
    }

    /// The credentials and transport security to connect with.
    pub fn options(&self) -> (r: ConnectionPlan)
        requires
            plan_ready(self@),
        ensures
            plan_matches(self@, r),
    {
        build_plan(
            &self.connection_url,
            self.authentication_type,
            &self.token,
            &self.creds_file,
            &self.username,
            &self.password,
            self.security_type,
            &self.root_cert,
            &self.client_cert,
            &self.client_key,
            Ghost(self@),
        )
    }

    /// The status shown to clients; status updates are only sent with a
    /// server id.
    pub fn current_status(settings: &Settings) -> (r: CoordinatorStatus)
        requires
            status_available(settings@),
        ensures
            r@ == coordinator_status(settings@),
    {
        let mut send_update_status = match settings.nats.send_status_update {
            Some(b) => b,
            None => false,
        };
        let server_id = match &settings.nats.server_id {
            Some(id) => id.clone(),
            None => {
                send_update_status = false;
                owned("")
            },
        };
        proof {
            reveal_strlit("");
            assert(""@ =~= Seq::<char>::empty());
        }
        CoordinatorStatus {
            env: Environment::parse(settings.hmi_environment.as_ref().unwrap().as_str()).unwrap(),
            connected: settings.nats.connected.unwrap(),
            send_status_update: send_update_status,
            server_id: server_id,
            coordinator_active: match settings.hmi_active {
                Some(b) => b,
                None => false,
            },
            comm_ok: match settings.hmi_comm_ok {
                Some(b) => b,
                None => false,
            },
        }
    }

    /// Records whether the coordinator is active and communication is fine.
    pub fn update_coordinator_status(settings: &mut Settings, is_active: bool, overall_comm: bool)
        ensures
            final(settings)@ == record_status(old(settings)@, is_active, overall_comm),
    {
        settings.hmi_active = Some(is_active);
        settings.hmi_comm_ok = Some(overall_comm);
    }

    /// The configured server id (`nats.server_id`).
    pub fn server_id(settings: &Settings) -> (r: Option<String>)
        ensures
            view_opt(r) == settings@.nats.server_id,
    {
        match &settings.nats.server_id {
            Some(id) => Some(id.clone()),
            None => None,
        }
    }

    /// Records that the broker connection was lost.
    pub fn on_disconnect(settings: &mut Settings)
        ensures
            final(settings)@ == record_connected(old(settings)@, false),
    {
        settings.nats.connected = Some(false);
    }

    /// Records that the broker connection is back.
    pub fn on_reconnect(settings: &mut Settings)
        ensures
            final(settings)@ == record_connected(old(settings)@, true),
    {
        settings.nats.connected = Some(true);
    }

    /// The delay in milliseconds before reconnect attempt `c`: 100 ms per
    /// attempt, at most 10 s.
    pub fn on_delay_reconnect(c: usize) -> (r: u64)
        requires
            c * 100 <= usize::MAX,
        ensures
            r == reconnect_delay(c as int),
    {
        let ms = c * 100;
        if ms < 10000 {
            ms as u64
        } else {
            10000
        }
    }
}

/// After an environment is selected, the store names that environment.
pub proof fn law_select_then_read(s: SettingsView, env: Environment)
    ensures
        selected_environment(select_environment(s, env)) == Some(env),
{
    crate::connection::lemma_environment_key_roundtrip(env);
}

/// Toggling the environment twice selects the environment selected before.
pub proof fn law_toggle_twice(s0: SettingsView, s1: SettingsView, s2: SettingsView)
    requires
        selected_environment(s0) is Some,
        s1 == select_environment(s0, other_environment(selected_environment(s0).unwrap())),
        s2 == select_environment(s1, other_environment(selected_environment(s1).unwrap())),
    ensures
        selected_environment(s2) == selected_environment(s0),
        s2.nats == s0.nats,
{
    let e = selected_environment(s0).unwrap();
    law_select_then_read(s0, other_environment(e));
    law_select_then_read(s1, other_environment(other_environment(e)));
}

/// The status read after recording activity reports what was recorded, and
/// recording leaves the connection state alone.
pub proof fn law_status_reports_record(s: SettingsView, is_active: bool, overall_comm: bool)
    requires
        status_available(s),
    ensures
        status_available(record_status(s, is_active, overall_comm)),
        coordinator_status(record_status(s, is_active, overall_comm)).coordinator_active
            == is_active,
        coordinator_status(record_status(s, is_active, overall_comm)).comm_ok == overall_comm,
        coordinator_status(record_status(s, is_active, overall_comm)).connected
            == coordinator_status(s).connected,
{
}

/// The status read after a disconnect or reconnect reports that state.
pub proof fn law_status_reports_connection(s: SettingsView, connected: bool)
    requires
        selected_environment(s) is Some,
    ensures
        status_available(record_connected(s, connected)),
        coordinator_status(record_connected(s, connected)).connected == connected,
        coordinator_status(record_connected(s, connected)).env == coordinator_status(s).env,
{
}

/// Status updates are only requested when a server id is configured.
pub proof fn law_status_update_needs_server_id(s: SettingsView)
    requires
        status_available(s),
    ensures
        coordinator_status(s).send_status_update ==> s.nats.server_id is Some,
{
}

/// The reconnect delay never exceeds 10 s and never shrinks as attempts grow.
pub proof fn law_reconnect_delay_bounded(c: int, d: int)
    requires
        0 <= c <= d,
    ensures
        0 <= reconnect_delay(c) <= 10000,
        reconnect_delay(c) <= reconnect_delay(d),
{
    assert(c * 100 <= d * 100) by (nonlinear_arith)
        requires
            0 <= c <= d,
    ;
}

} // verus!
