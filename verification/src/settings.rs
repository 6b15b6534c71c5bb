//! The process-wide settings store that the coordinator and the pub/sub
//! options read and write. Each field is one key of the application's
//! configuration; a missing key is `None`.

use vstd::prelude::*;

use crate::text::view_opt;

verus! {

/// The keys of one NATS section (`nats.*` or `openfmb_nats_subscriber.*`).
#[derive(Clone, Debug)]
pub struct NatsSection {
    pub dev_uri: Option<String>,
    pub prod_uri: Option<String>,
    pub authentication_type: Option<String>,
    pub security_type: Option<String>,
    pub token: Option<String>,
    pub creds: Option<String>,
    pub username: Option<String>,
    pub password: Option<String>,
    pub client_cert: Option<String>,
    pub client_key: Option<String>,
    pub root_cert: Option<String>,
    pub send_status_update: Option<bool>,
    pub server_id: Option<String>,
    pub connected: Option<bool>,
}

/// The character view of a [`NatsSection`].
pub struct NatsSectionView {
    pub dev_uri: Option<Seq<char>>,
    pub prod_uri: Option<Seq<char>>,
    pub authentication_type: Option<Seq<char>>,
    pub security_type: Option<Seq<char>>,
    pub token: Option<Seq<char>>,
    pub creds: Option<Seq<char>>,
    pub username: Option<Seq<char>>,
    pub password: Option<Seq<char>>,
    pub client_cert: Option<Seq<char>>,
    pub client_key: Option<Seq<char>>,
    pub root_cert: Option<Seq<char>>,
    pub send_status_update: Option<bool>,
    pub server_id: Option<Seq<char>>,
    pub connected: Option<bool>,
}

impl View for NatsSection {
    type V = NatsSectionView;

    open spec fn view(&self) -> NatsSectionView {
        NatsSectionView {
            dev_uri: view_opt(self.dev_uri),
            prod_uri: view_opt(self.prod_uri),
            authentication_type: view_opt(self.authentication_type),
            security_type: view_opt(self.security_type),
            token: view_opt(self.token),
            creds: view_opt(self.creds),
            username: view_opt(self.username),
            password: view_opt(self.password),
            client_cert: view_opt(self.client_cert),
            client_key: view_opt(self.client_key),
            root_cert: view_opt(self.root_cert),
            send_status_update: self.send_status_update,
            server_id: view_opt(self.server_id),
            connected: self.connected,
        }
    }
}

impl NatsSection {
    /// A section in which no key is set.
    pub fn empty() -> (r: NatsSection)
        ensures
            r@ == NatsSectionView::empty(),
    {
        NatsSection {
            dev_uri: None,
            prod_uri: None,
            authentication_type: None,
            security_type: None,
            token: None,
            creds: None,
            username: None,
            password: None,
            client_cert: None,
            client_key: None,
            root_cert: None,
            send_status_update: None,
            server_id: None,
            connected: None,
        }
    }
}

impl NatsSectionView {
    pub open spec fn empty() -> NatsSectionView {
        NatsSectionView {
            dev_uri: None,
            prod_uri: None,
            authentication_type: None,
            security_type: None,
            token: None,
            creds: None,
            username: None,
            password: None,
            client_cert: None,
            client_key: None,
            root_cert: None,
            send_status_update: None,
            server_id: None,
            connected: None,
        }
    }

    pub open spec fn with_connected(self, connected: bool) -> NatsSectionView {
        NatsSectionView { connected: Some(connected), ..self }
    }
}

/// All keys that the coordinator and the pub/sub options use.
#[derive(Clone, Debug)]
pub struct Settings {
    /// `hmi.environment`
    pub hmi_environment: Option<String>,
    /// `hmi.active`
    pub hmi_active: Option<bool>,
    /// `hmi.comm_ok`
    pub hmi_comm_ok: Option<bool>,
    /// `nats.*`
    pub nats: NatsSection,
    /// `coordinator.environment`
    pub coordinator_environment: Option<String>,
    /// `openfmb_nats_subscriber.*`
    pub openfmb_nats_subscriber: NatsSection,
}

/// The character view of [`Settings`].
pub struct SettingsView {
    pub hmi_environment: Option<Seq<char>>,
    pub hmi_active: Option<bool>,
    pub hmi_comm_ok: Option<bool>,
    pub nats: NatsSectionView,
    pub coordinator_environment: Option<Seq<char>>,
    pub openfmb_nats_subscriber: NatsSectionView,
}

impl View for Settings {
    type V = SettingsView;

    open spec fn view(&self) -> SettingsView {
        SettingsView {
            hmi_environment: view_opt(self.hmi_environment),
            hmi_active: self.hmi_active,
            hmi_comm_ok: self.hmi_comm_ok,
            nats: self.nats@,
            coordinator_environment: view_opt(self.coordinator_environment),
            openfmb_nats_subscriber: self.openfmb_nats_subscriber@,
        }
    }
}

impl Settings {
    /// A store in which no key is set.
    pub fn empty() -> (r: Settings)
        ensures
            r@ == SettingsView::empty(),
    {
        Settings {
            hmi_environment: None,
            hmi_active: None,
            hmi_comm_ok: None,
            nats: NatsSection::empty(),
            coordinator_environment: None,
            openfmb_nats_subscriber: NatsSection::empty(),
        }
    }
}

impl SettingsView {
    pub open spec fn empty() -> SettingsView {
        SettingsView {
            hmi_environment: None,
            hmi_active: None,
            hmi_comm_ok: None,
            nats: NatsSectionView::empty(),
            coordinator_environment: None,
            openfmb_nats_subscriber: NatsSectionView::empty(),
        }
    }
}

} // verus!
