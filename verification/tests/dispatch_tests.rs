use hmi_server::connection::Environment;
use hmi_server::control_type::ControlType;
use hmi_server::coordinator::CoordinatorStatus;
use hmi_server::dispatch::{route_update, status_updates, UpdateRoute};
use hmi_server::flatten::DataValue;
use hmi_server::updates::{Topic, UpdateMessage};

fn update(name: &str, action: Option<&str>) -> UpdateMessage {
    UpdateMessage {
        profile: None,
        session_id: Some("s".to_string()),
        topic: Topic {
            name: name.to_string(),
            mrid: "dev".to_string(),
            value: None,
            action: action.map(|a| a.to_string()),
            args: Some(1.5f64.to_bits()),
        },
    }
}

#[test]
fn updates_are_routed() {
    assert!(matches!(route_update(&update("ToggleEnvironment", None), true, true), UpdateRoute::ToggleEnvironment));
    assert!(matches!(route_update(&update("IslandMicrogrid", None), true, false), UpdateRoute::MicrogridControl(n) if n == "IslandMicrogrid"));
    assert!(matches!(route_update(&update("ResetDevices", None), false, true), UpdateRoute::DeviceControl(_)));
    match route_update(&update("Open", None), false, false) {
        UpdateRoute::Generic(g) => {
            assert_eq!(g.message, ControlType::Open);
            assert_eq!(g.text, "Open");
            assert_eq!(g.mrid, "dev");
            assert_eq!(g.args, Some(1.5f64.to_bits()));
            assert!(g.profile_name.is_none());
        }
        _ => panic!("expected a generic control"),
    }
    match route_update(&update("ESSControlProfile.x", Some("SetValue")), false, false) {
        UpdateRoute::Generic(g) => {
            assert_eq!(g.message, ControlType::SetValue);
            assert_eq!(g.text, "ESSControlProfile.x");
        }
        _ => panic!("expected a generic control"),
    }
    assert!(matches!(route_update(&update("x", Some("Dance")), false, false), UpdateRoute::UnknownAction(a) if a == "Dance"));
    assert!(matches!(route_update(&update("x", None), false, false), UpdateRoute::UnknownCommand));
}

#[test]
fn status_goes_to_every_session() {
    let status = CoordinatorStatus {
        env: Environment::Prod,
        connected: true,
        coordinator_active: false,
        comm_ok: true,
        server_id: "srv".to_string(),
        send_status_update: true,
    };
    let u = status_updates(&status);
    assert!(u.session_id.is_none());
    assert_eq!(u.updates.len(), 3);
    assert_eq!(u.updates[0].topic.name, "hmi.pubsub.status.connected");
    assert!(matches!(u.updates[0].topic.value, Some(DataValue::Bool(true))));
    assert_eq!(u.updates[1].topic.name, "hmi.pubsub.status.environment");
    match u.updates[1].topic.value {
        Some(DataValue::Double(b)) => assert_eq!(f64::from_bits(b), 1.0),
        _ => panic!("missing environment"),
    }
    assert_eq!(u.updates[2].topic.name, "hmi.coordinator.active");
    assert!(matches!(u.updates[2].topic.value, Some(DataValue::Bool(false))));
    assert_eq!(u.updates[2].topic.mrid, "srv");
}
