use hmi_server::registry::{subscriber_name_of, ProfileActors};
use hmi_server::routing::{get_profile_name, is_openfmb_subject, publication_subject, MessageKind, ProfileGroup};
use hmi_server::ui_keys::{command_for_key, key_bindings, DeviceCommand, KeyCommand, MicrogridCommand};

#[test]
fn published_messages_get_subjects() {
    assert_eq!(
        publication_subject(MessageKind::SwitchStatus, "switchmodule", "SwitchStatus", "abc"),
        Some("openfmb.switchmodule.SwitchStatusProfile.abc".to_string())
    );
    assert_eq!(publication_subject(MessageKind::ESSCapability, "essmodule", "ESSCapability", "e"), None);
    assert_eq!(publication_subject(MessageKind::CoordinationStatus, "x", "y", "z"), None);
}

#[test]
fn messages_are_grouped_by_profile() {
    assert_eq!(MessageKind::CapBankDiscreteControl.profile_group(), ProfileGroup::CapBank);
    assert_eq!(MessageKind::CircuitSegmentEvent.profile_group(), ProfileGroup::CircuitSegmentService);
    assert_eq!(MessageKind::SolarCapabilityOverride.profile_group(), ProfileGroup::Solar);
    assert!(MessageKind::MeterReading.carries_device_data());
    assert!(!MessageKind::BreakerDiscreteControl.carries_device_data());
}

#[test]
fn subjects_and_profile_names() {
    assert!(is_openfmb_subject("openfmb.breakermodule.BreakerReadingProfile.1"));
    assert!(!is_openfmb_subject("openfmbx.a"));
    assert!(is_openfmb_subject("openfmb"));
    assert_eq!(get_profile_name("SwitchReadingProfile.mapping.x"), "SwitchReadingProfile");
    assert_eq!(get_profile_name("plain"), "plain");
}

#[test]
fn subscribers_are_made_once_per_group() {
    let mut actors: ProfileActors<u32> = ProfileActors::new();
    assert_eq!(actors.get(ProfileGroup::ESS), None);
    actors.insert(ProfileGroup::ESS, 7);
    actors.insert(ProfileGroup::Meter, 9);
    assert_eq!(actors.get(ProfileGroup::ESS), Some(&7));
    assert_eq!(actors.get(ProfileGroup::Meter), Some(&9));
    assert_eq!(actors.get(ProfileGroup::Load), None);
    assert_eq!(subscriber_name_of(ProfileGroup::CircuitSegmentService), "CircuitSegmentService");
}

#[test]
fn console_keys() {
    assert_eq!(command_for_key('c'), Some(KeyCommand::Microgrid(MicrogridCommand::InitiateGridConnect)));
    assert_eq!(command_for_key('`'), Some(KeyCommand::Device(DeviceCommand::EssStop)));
    assert_eq!(command_for_key('g'), Some(KeyCommand::Device(DeviceCommand::BreakerThreeClosed)));
    assert_eq!(command_for_key('q'), None);
    let bindings = key_bindings();
    assert_eq!(bindings.len(), 27);
    for (k, c) in bindings.iter() {
        assert_eq!(command_for_key(*k), Some(*c));
    }
}

#[test]
fn one_subscriber_is_made_per_group() {
    let made = std::cell::Cell::new(0u32);
    let mut actors: ProfileActors<String> = ProfileActors::new();
    let first = actors
        .ensure_actor(MessageKind::BreakerReading, |g| {
            made.set(made.get() + 1);
            subscriber_name_of(g)
        })
        .clone();
    assert_eq!(first, "Breaker");
    let second = actors
        .ensure_actor(MessageKind::BreakerStatus, |g| {
            made.set(made.get() + 1);
            format!("another {}", subscriber_name_of(g))
        })
        .clone();
    assert_eq!(second, "Breaker");
    assert_eq!(made.get(), 1);
    let meter = actors.ensure_actor_type(ProfileGroup::Meter, |g| subscriber_name_of(g)).clone();
    assert_eq!(meter, "Meter");
    assert_eq!(actors.get(ProfileGroup::Breaker), Some(&"Breaker".to_string()));
}
