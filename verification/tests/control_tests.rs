use hmi_server::control::{
    control_profile, has_needed_argument, plan_for_profile, plan_generic_control, resolve_profile_name,
    ControlAction, ControlOutcome, ControlProfile, GenericControl, Phase,
};
use hmi_server::control_type::{ControlType, ScheduleParameterKind};
use hmi_server::csg::{EssPoint, GenerationSetting, StateKind};
use hmi_server::equipment::Equipment;

fn control(text: &str, message: ControlType, mrid: &str) -> GenericControl {
    GenericControl {
        text: text.to_string(),
        message,
        mrid: mrid.to_string(),
        profile_name: None,
        args: None,
        args2: None,
    }
}

fn device(mrid: &str, kind: &str) -> Equipment {
    Equipment { mrid: mrid.to_string(), name: format!("{} device", kind), device_type: Some(kind.to_string()) }
}

fn published(outcome: ControlOutcome) -> (ControlProfile, String, ControlAction) {
    match outcome {
        ControlOutcome::Publish(plan) => (plan.profile, plan.subject, plan.action),
        _ => panic!("expected a control to publish"),
    }
}

#[test]
fn breaker_open_from_equipment_list() {
    let equipment = vec![device("b1", "breaker"), device("s1", "switch")];
    let msg = control("Open", ControlType::Open, "b1");
    let (p, subject, action) = published(plan_generic_control(&msg, &equipment));
    assert_eq!(p, ControlProfile::Breaker);
    assert_eq!(subject, "openfmb.breakermodule.BreakerDiscreteControlProfile.b1");
    assert_eq!(action, ControlAction::Open);
}

#[test]
fn profile_from_dotted_topic_name() {
    let msg = control("SwitchDiscreteControlProfile.xyz.pos", ControlType::SetModBlkOn, "s9");
    assert_eq!(control_profile(&msg, &vec![]), "SwitchDiscreteControlProfile");
    let (p, subject, action) = published(plan_generic_control(&msg, &vec![]));
    assert_eq!(p, ControlProfile::Switch);
    assert_eq!(subject, "openfmb.switchmodule.SwitchDiscreteControlProfile.s9");
    assert_eq!(action, ControlAction::ModBlk(true));
}

#[test]
fn dotted_name_without_profile_suffix_falls_back_to_device() {
    let msg = control("Breaker.open", ControlType::Close, "r1");
    let equipment = vec![device("r1", "recloser")];
    assert_eq!(control_profile(&msg, &equipment), "RecloserDiscreteControlProfile");
    assert_eq!(resolve_profile_name(&msg, None), "");
}

#[test]
fn named_profile_takes_precedence() {
    let mut msg = control("SwitchDiscreteControlProfile.a", ControlType::Open, "b1");
    msg.profile_name = Some("BreakerDiscreteControlProfile".to_string());
    let equipment = vec![device("b1", "switch")];
    assert_eq!(control_profile(&msg, &equipment), "BreakerDiscreteControlProfile");
}

#[test]
fn ess_discharge_and_schedules() {
    let mut msg = control("x", ControlType::SetValue, "e1");
    msg.profile_name = Some("EssControlProfile".to_string());
    msg.args = Some(2500.0f64.to_bits());
    let (p, subject, action) = published(plan_generic_control(&msg, &vec![]));
    assert_eq!(p, ControlProfile::Ess);
    assert_eq!(subject, "openfmb.essmodule.ESSControlProfile.e1");
    assert_eq!(action, ControlAction::DischargeNow(2500.0f64.to_bits()));

    msg.message = ControlType::SetWNetMag;
    let (_, _, action) = published(plan_generic_control(&msg, &vec![]));
    assert_eq!(action, ControlAction::Schedule(ScheduleParameterKind::WNetMag, 2500.0f64.to_bits()));
}

#[test]
fn ess_setpoints_from_curve_controls() {
    let mut msg = control("x", ControlType::BlackStartEnable, "e1");
    msg.profile_name = Some("ESSControlProfile".to_string());
    let (_, _, action) = published(plan_generic_control(&msg, &vec![]));
    assert_eq!(
        action,
        ControlAction::EssSetpoint(EssPoint {
            black_start_enabled: Some(true),
            trans_to_islnd_on_grid_loss_enabled: None,
            state: None
        })
    );
    msg.message = ControlType::SetStateKindStandBy;
    let (_, _, action) = published(plan_generic_control(&msg, &vec![]));
    assert_eq!(
        action,
        ControlAction::EssSetpoint(EssPoint {
            black_start_enabled: None,
            trans_to_islnd_on_grid_loss_enabled: None,
            state: Some(StateKind::Standby)
        })
    );
    msg.message = ControlType::Open;
    assert!(matches!(plan_generic_control(&msg, &vec![]), ControlOutcome::UnsupportedControl(ControlProfile::Ess)));
}

#[test]
fn load_bank_controls() {
    let mut msg = control("x", ControlType::StateOn, "l1");
    msg.profile_name = Some("LoadControlProfile".to_string());
    let (_, subject, action) = published(plan_generic_control(&msg, &vec![]));
    assert_eq!(subject, "openfmb.loadmodule.LoadControlProfile.l1");
    assert_eq!(action, ControlAction::LoadbankOnDefault);
    msg.message = ControlType::SetWNetMag;
    msg.args = Some((-3.5f64).to_bits());
    let (_, _, action) = published(plan_generic_control(&msg, &vec![]));
    assert_eq!(action, ControlAction::LoadbankOnMagnitude((-3.5f64).to_bits()));
    msg.message = ControlType::SetVarNetMag;
    assert!(matches!(plan_generic_control(&msg, &vec![]), ControlOutcome::UnsupportedControl(ControlProfile::Load)));
}

#[test]
fn regulator_tap_changes() {
    let mut msg = control("x", ControlType::TapChangeRaisePhsB, "g1");
    msg.profile_name = Some("RegulatorDiscreteControlProfile".to_string());
    let (_, subject, action) = published(plan_generic_control(&msg, &vec![]));
    assert_eq!(subject, "openfmb.regulatormodule.RegulatorDiscreteControlProfile.g1");
    assert_eq!(action, ControlAction::TapChange { phase: Phase::PhsB, raise: true });
}

#[test]
fn generation_controls() {
    let mut msg = control("x", ControlType::VoltageSetPointDisable, "gen");
    msg.profile_name = Some("GenerationControlProfile".to_string());
    let (_, subject, action) = published(plan_generic_control(&msg, &vec![]));
    assert_eq!(subject, "openfmb.generationmodule.GenerationControlProfile.gen");
    assert_eq!(
        action,
        ControlAction::GenerationSetpoint(GenerationSetting {
            frequency_set_point_enabled: None,
            reactive_pwr_set_point_enabled: None,
            real_pwr_set_point_enabled: None,
            voltage_set_point_enabled: Some(false),
            state: None,
        })
    );
    msg.message = ControlType::ResetSolar;
    let (_, _, action) = published(plan_generic_control(&msg, &vec![]));
    assert_eq!(action, ControlAction::Reset);
}

#[test]
fn resource_controls_carry_second_argument() {
    let mut msg = control("x", ControlType::SetGgioValueBool, "res");
    msg.profile_name = Some("ResourceDiscreteControlProfile".to_string());
    msg.args2 = Some(3.0f64.to_bits());
    let (_, _, action) = published(plan_generic_control(&msg, &vec![]));
    assert_eq!(action, ControlAction::SetBool { value: None, index: Some(3.0f64.to_bits()) });
    msg.message = ControlType::StopTransaction;
    let (_, _, action) = published(plan_generic_control(&msg, &vec![]));
    assert_eq!(action, ControlAction::StopTransaction(Some(3.0f64.to_bits())));
}

#[test]
fn generator_devices_have_no_supported_profile() {
    let equipment = vec![device("gen1", "generator")];
    let msg = control("Open", ControlType::Open, "gen1");
    match plan_generic_control(&msg, &equipment) {
        ControlOutcome::UnsupportedProfile(name) => assert_eq!(name, "GenerationDiscreteControlProfile"),
        _ => panic!("expected an unsupported profile"),
    }
}

#[test]
fn unknown_device_gives_empty_profile() {
    let msg = control("Open", ControlType::Open, "nobody");
    match plan_generic_control(&msg, &vec![device("b1", "breaker")]) {
        ControlOutcome::UnsupportedProfile(name) => assert_eq!(name, ""),
        _ => panic!("expected an unsupported profile"),
    }
}

#[test]
fn commands_that_use_the_argument_need_one() {
    let msg = control("x", ControlType::SetValue, "e1");
    assert!(!has_needed_argument("EssControlProfile", &msg));
    assert!(has_needed_argument("BreakerDiscreteControlProfile", &msg));
    assert!(has_needed_argument("NoSuchProfile", &msg));
    let msg = control("x", ControlType::StateOn, "l1");
    assert!(has_needed_argument("LoadControlProfile", &msg));
}

#[test]
fn capbank_schedules_with_aliases() {
    let mut msg = control("x", ControlType::SetVarNetMag, "c1");
    msg.args = Some(1.0f64.to_bits());
    let outcome = plan_for_profile("CapBankControlProfile", &msg);
    let (_, subject, action) = published(outcome);
    assert_eq!(subject, "openfmb.capbankmodule.CapBankControlProfile.c1");
    assert_eq!(action, ControlAction::Schedule(ScheduleParameterKind::VArNetMag, 1.0f64.to_bits()));
}
