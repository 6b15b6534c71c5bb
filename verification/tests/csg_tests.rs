use hmi_server::control_type::ControlType;
use hmi_server::csg::{
    create_regulator_point, ess_point, generation_point, set_ess_csg, set_generation_csg, set_regulator_csg,
    set_solar_csg, solar_point, ControlMessageInfo, ControlTimestamp, StateKind,
};
use hmi_server::ordered::OrderedMap;

fn t() -> ControlTimestamp {
    ControlTimestamp { seconds: 1_700_000_000, nanoseconds: 5 }
}

fn info() -> ControlMessageInfo {
    ControlMessageInfo { message_id: "id-1".to_string(), message_time: t() }
}

#[test]
fn ess_schedules() {
    let p = ess_point(ControlType::TransToIslandOnGridLossDisable, t()).expect("an ESS point");
    assert_eq!(p.start_time, Some(t()));
    let c = p.control.expect("a control");
    assert_eq!(c.trans_to_islnd_on_grid_loss_enabled, Some(false));
    assert_eq!(c.black_start_enabled, None);
    assert!(ess_point(ControlType::Open, t()).is_none());
    let prof = set_ess_csg("e1", ControlType::SetStateKindOn, t(), info()).expect("a profile");
    assert_eq!(prof.m_rid, "e1");
    assert_eq!(prof.crv_pts.len(), 1);
    assert_eq!(prof.crv_pts[0].control.unwrap().state, Some(StateKind::On));
    assert_eq!(prof.control_message_info.message_id, "id-1");
}

#[test]
fn solar_generation_and_regulator_schedules() {
    assert_eq!(solar_point(ControlType::SetStateKindOff, t()).unwrap().control.unwrap().state, Some(StateKind::Off));
    assert!(solar_point(ControlType::BlackStartEnable, t()).is_none());
    assert!(set_solar_csg("s", ControlType::FrequencySetPointEnable, t(), info()).is_none());
    let g = generation_point(ControlType::RealPowerSetPointEnable, t()).unwrap();
    assert_eq!(g.setting.real_pwr_set_point_enabled, Some(true));
    assert_eq!(g.setting.state, None);
    let prof = set_generation_csg("g", ControlType::SetStateKindUndefined, t(), info()).unwrap();
    assert_eq!(prof.crv_pts[0].setting.state, Some(StateKind::Undefined));
    assert!(set_regulator_csg("r", ControlType::SetStateKindOn, t(), info()).is_none());
    let rp = create_regulator_point(t());
    assert_eq!(rp.start_time, Some(t()));
    assert!(rp.control.is_some());
}

#[test]
fn ordered_map_keeps_keys_in_order() {
    let mut m: OrderedMap<u32> = OrderedMap::new();
    m.insert("b".to_string(), 1);
    m.insert("a".to_string(), 2);
    m.insert("ab".to_string(), 3);
    m.insert("b".to_string(), 4);
    m.insert("B".to_string(), 5);
    let keys: Vec<&str> = m.entries().iter().map(|(k, _)| k.as_str()).collect();
    assert_eq!(keys, vec!["B", "a", "ab", "b"]);
    assert_eq!(m.get("b"), Some(&4));
    assert_eq!(m.get("c"), None);
    assert_eq!(m.len(), 4);
}
