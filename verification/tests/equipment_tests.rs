use hmi_server::equipment::{
    create_equipment, delete_equipment, device_type_by_mrid, get_common_control_profile, get_equipment_file,
    update_equipment, Equipment,
};
use hmi_server::error::Error;

fn eq(mrid: &str, name: &str, kind: Option<&str>) -> Equipment {
    Equipment { mrid: mrid.to_string(), name: name.to_string(), device_type: kind.map(|k| k.to_string()) }
}

#[test]
fn create_refuses_duplicate_mrid() {
    let mut list = vec![eq("a", "A", Some("switch"))];
    assert_eq!(create_equipment(&mut list, eq("b", "B", Some("ess"))), Ok(()));
    assert_eq!(list.len(), 2);
    assert_eq!(create_equipment(&mut list, eq("a", "again", None)), Err(Error::AddDeviceError));
    assert_eq!(list.len(), 2);
    assert_eq!(list[0].name, "A");
    assert_eq!(Error::AddDeviceError.message(), "add device failed");
}

#[test]
fn lookup_update_delete() {
    let mut list = vec![eq("a", "A", Some("switch")), eq("b", "B", None), eq("c", "C", Some("load"))];
    assert_eq!(device_type_by_mrid(&list, "a"), Some("switch".to_string()));
    assert_eq!(device_type_by_mrid(&list, "b"), None);
    assert_eq!(get_common_control_profile(&list, "c"), Some("LoadControlProfile".to_string()));
    assert_eq!(get_common_control_profile(&list, "zz"), None);
    update_equipment(&mut list, eq("b", "Bee", Some("solar")));
    assert_eq!(list[1].name, "Bee");
    assert_eq!(get_common_control_profile(&list, "b"), Some("SolarControlProfile".to_string()));
    delete_equipment(&mut list, "a");
    assert_eq!(list.len(), 2);
    assert_eq!(device_type_by_mrid(&list, "a"), None);
    delete_equipment(&mut list, "missing");
    assert_eq!(list.len(), 2);
}

#[test]
fn first_entry_wins_for_duplicates() {
    let list = vec![eq("a", "first", Some("breaker")), eq("a", "second", Some("switch"))];
    assert_eq!(device_type_by_mrid(&list, "a"), Some("breaker".to_string()));
}

#[test]
fn equipment_file_location() {
    assert_eq!(get_equipment_file(""), "equipment.json");
    assert_eq!(get_equipment_file("hmi"), "/hmi/equipment.json");
}
