use hmi_server::flatten::{DataValue, JsonNumber, JsonValue};
use hmi_server::routing::MessageKind;
use hmi_server::updates::{openfmb_updates, recipients, register_topics, ClientTopics, Topic, UpdateMessages};

fn topic(name: &str, mrid: &str) -> Topic {
    Topic { name: name.to_string(), mrid: mrid.to_string(), value: None, action: None, args: None }
}

fn client(session: &str, topics: Vec<Topic>) -> ClientTopics {
    ClientTopics { session_id: session.to_string(), topics }
}

fn profile_doc() -> JsonValue {
    JsonValue::Object(vec![
        ("reading".to_string(), JsonValue::Object(vec![
            ("w".to_string(), JsonValue::Number(JsonNumber { text: "5".to_string(), bits: 5.0f64.to_bits() })),
            ("name".to_string(), JsonValue::Str("meter".to_string())),
        ])),
    ])
}

fn message_doc() -> JsonValue {
    JsonValue::Object(vec![("MeterReading".to_string(), profile_doc())])
}

#[test]
fn watched_points_of_the_device_are_sent() {
    let clients = vec![
        client("s2", vec![topic("MeterReadingProfile.mapping.reading.W", "m1"), topic("x.y", "other")]),
        client("s1", vec![topic("*", "m1")]),
    ];
    let msg = message_doc();
    let prof = profile_doc();
    let groups = openfmb_updates(&clients, MessageKind::MeterReading, "MeterReading", "m1", Some(&msg), Some(&prof));
    let entries = groups.entries();
    assert_eq!(entries.len(), 2);
    assert_eq!(entries[0].0, "s1");
    let star = &entries[0].1;
    assert_eq!(star.len(), 2);
    assert_eq!(star[0].topic.name, "meterreadingprofile.mapping.meterreading.reading.name");
    assert_eq!(star[0].profile, Some("MeterReading".to_string()));
    assert_eq!(star[0].session_id, Some("s1".to_string()));
    assert_eq!(star[1].topic.name, "meterreadingprofile.mapping.meterreading.reading.w");
    assert_eq!(entries[1].0, "s2");
    let one = &entries[1].1;
    assert_eq!(one.len(), 1);
    assert_eq!(one[0].topic.name, "MeterReadingProfile.mapping.reading.W");
    assert_eq!(one[0].profile, None);
    match &one[0].topic.value {
        Some(DataValue::Double(b)) => assert_eq!(f64::from_bits(*b), 5.0),
        _ => panic!("missing value"),
    }
}

#[test]
fn no_updates_without_a_device() {
    let clients = vec![client("s1", vec![topic("*", "")])];
    let msg = message_doc();
    let groups = openfmb_updates(&clients, MessageKind::MeterReading, "MeterReading", "", Some(&msg), None);
    assert_eq!(groups.len(), 0);
}

#[test]
fn control_messages_carry_no_device_data() {
    let clients = vec![client("s1", vec![topic("SwitchDiscreteControlProfile.mapping.reading.w", "m1")])];
    let prof = profile_doc();
    let groups = openfmb_updates(&clients, MessageKind::SwitchDiscreteControl, "SwitchDiscreteControl", "m1", None, Some(&prof));
    assert_eq!(groups.len(), 0);
}

#[test]
fn updates_go_to_clients_of_the_session() {
    let clients = vec![client("a", vec![]), client("b", vec![]), client("a", vec![])];
    assert_eq!(recipients(&clients, &Some("a".to_string())), vec![0, 2]);
    assert_eq!(recipients(&clients, &None), Vec::<usize>::new());
    let u = UpdateMessages::new(vec![], "a".to_string());
    assert_eq!(u.session_id, Some("a".to_string()));
}

#[test]
fn registering_replaces_topics() {
    let mut c = client("s", vec![topic("old", "m")]);
    register_topics(&mut c, &vec![topic("new1", "m"), topic("new2", "n")]);
    assert_eq!(c.topics.len(), 2);
    assert_eq!(c.topics[0].name, "new1");
    assert_eq!(c.session_id, "s");
}
