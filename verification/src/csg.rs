//! Curve-shape (schedule) controls: the single-point schedules that an ESS,
//! a solar inverter, a generator or a regulator is sent for the generic
//! controls that switch one of their settings.
//!
//! A schedule point starts at the time it was made; that time is handed in
//! as seconds and nanoseconds since the Unix epoch.

use vstd::prelude::*;

use crate::control_type::ControlType;

verus! {

/// A point in time, as seconds and nanoseconds since the Unix epoch.
#[derive(Clone, Copy, Debug, PartialEq, Eq, Structural)]
pub struct ControlTimestamp {
    pub seconds: u64,
    pub nanoseconds: u32,
}

/// The operating state that a schedule point can ask for.
#[derive(Clone, Copy, Debug, PartialEq, Eq, Structural)]
pub enum StateKind {
    Undefined,
    Off,
    On,
    Standby,
}

/// The control part of an ESS schedule point; a field left `None` is not
/// changed by the point.
#[derive(Clone, Copy, Debug, PartialEq, Eq, Structural)]
pub struct EssPoint {
    pub black_start_enabled: Option<bool>,
    pub trans_to_islnd_on_grid_loss_enabled: Option<bool>,
    pub state: Option<StateKind>,
}

/// One point of an ESS schedule.
#[derive(Clone, Copy, Debug, PartialEq, Eq, Structural)]
pub struct EssCurvePoint {
    pub start_time: Option<ControlTimestamp>,
    pub control: Option<EssPoint>,
}

/// The control part of a solar inverter schedule point.
#[derive(Clone, Copy, Debug, PartialEq, Eq, Structural)]
pub struct SolarPoint {
    pub state: Option<StateKind>,
}

/// One point of a solar inverter schedule.
#[derive(Clone, Copy, Debug, PartialEq, Eq, Structural)]
pub struct SolarCurvePoint {
    pub start_time: Option<ControlTimestamp>,
    pub control: Option<SolarPoint>,
}

/// The settings that a generator schedule point switches; a field left
/// `None` is not changed by the point.
#[derive(Clone, Copy, Debug, PartialEq, Eq, Structural)]
pub struct GenerationSetting {
    pub frequency_set_point_enabled: Option<bool>,
    pub reactive_pwr_set_point_enabled: Option<bool>,
    pub real_pwr_set_point_enabled: Option<bool>,
    pub voltage_set_point_enabled: Option<bool>,
    pub state: Option<StateKind>,
}

/// One point of a generator schedule.
#[derive(Clone, Copy, Debug, PartialEq, Eq, Structural)]
pub struct GenerationPoint {
    pub start_time: Option<ControlTimestamp>,
    pub setting: GenerationSetting,
}

/// The (default) voltage regulator control of a regulator schedule point.
#[derive(Clone, Copy, Debug, PartialEq, Eq, Structural)]
pub struct RegulatorControlAtcc {
    pub ctl_val: Option<bool>,
}

/// One point of a regulator schedule; its start time carries no time quality.
#[derive(Clone, Copy, Debug, PartialEq, Eq, Structural)]
pub struct RegulatorPoint {
    pub start_time: Option<ControlTimestamp>,
    pub control: Option<RegulatorControlAtcc>,
}

/// The identity and creation time of a control message.
#[derive(Clone, Debug)]
pub struct ControlMessageInfo {
    pub message_id: String,
    pub message_time: ControlTimestamp,
}

/// An ESS control that carries a schedule.
pub struct EssControlProfile {
    pub control_message_info: ControlMessageInfo,
    pub m_rid: String,
    pub crv_pts: Vec<EssCurvePoint>,
}

/// A solar inverter control that carries a schedule.
pub struct SolarControlProfile {
    pub control_message_info: ControlMessageInfo,
    pub m_rid: String,
    pub crv_pts: Vec<SolarCurvePoint>,
}

/// A generator control that carries a schedule.
pub struct GenerationControlProfile {
    pub control_message_info: ControlMessageInfo,
    pub m_rid: String,
    pub crv_pts: Vec<GenerationPoint>,
}

/// A regulator control that carries a schedule.
pub struct RegulatorControlProfile {
    pub control_message_info: ControlMessageInfo,
    pub m_rid: String,
    pub crv_pts: Vec<RegulatorPoint>,
}

/// The state that one of the `SetStateKind…` controls asks for.
pub open spec fn state_of_control(c: ControlType) -> Option<StateKind> {
    match c {
        ControlType::SetStateKindUndefined => Some(StateKind::Undefined),
        ControlType::SetStateKindOff => Some(StateKind::Off),
        ControlType::SetStateKindOn => Some(StateKind::On),
        ControlType::SetStateKindStandBy => Some(StateKind::Standby),
        _ => None,
    }
}

/// The ESS setting that a generic control switches, if it switches one.
pub open spec fn ess_point_control(c: ControlType) -> Option<EssPoint> {
    let none = EssPoint {
        black_start_enabled: None,
        trans_to_islnd_on_grid_loss_enabled: None,
        state: None,
    };
    match c {
        ControlType::BlackStartEnable => Some(EssPoint { black_start_enabled: Some(true), ..none }),
        ControlType::BlackStartDisable => Some(
            EssPoint { black_start_enabled: Some(false), ..none },
        ),
        ControlType::TransToIslandOnGridLossEnable => Some(
            EssPoint { trans_to_islnd_on_grid_loss_enabled: Some(true), ..none },
        ),
        ControlType::TransToIslandOnGridLossDisable => Some(
            EssPoint { trans_to_islnd_on_grid_loss_enabled: Some(false), ..none },
        ),
        _ => match state_of_control(c) {
            Some(st) => Some(EssPoint { state: Some(st), ..none }),
            None => None,
        },
    }
}

/// The solar inverter setting that a generic control switches, if any.
pub open spec fn solar_point_control(c: ControlType) -> Option<SolarPoint> {
    match state_of_control(c) {
        Some(st) => Some(SolarPoint { state: Some(st) }),
        None => None,
    }
}

/// The generator setting that a generic control switches, if any.
pub open spec fn generation_setting(c: ControlType) -> Option<GenerationSetting> {
    let none = GenerationSetting {
        frequency_set_point_enabled: None,
        reactive_pwr_set_point_enabled: None,
        real_pwr_set_point_enabled: None,
        voltage_set_point_enabled: None,
        state: None,
    };
    match c {
        ControlType::FrequencySetPointEnable => Some(
            GenerationSetting { frequency_set_point_enabled: Some(true), ..none },
        ),
        ControlType::FrequencySetPointDisable => Some(
            GenerationSetting { frequency_set_point_enabled: Some(false), ..none },
        ),
        ControlType::ReactivePowerSetPointEnable => Some(
            GenerationSetting { reactive_pwr_set_point_enabled: Some(true), ..none },
        ),
        ControlType::ReactivePowerSetPointDisable => Some(
            GenerationSetting { reactive_pwr_set_point_enabled: Some(false), ..none },
        ),
        ControlType::RealPowerSetPointEnable => Some(
            GenerationSetting { real_pwr_set_point_enabled: Some(true), ..none },
        ),
        ControlType::RealPowerSetPointDisable => Some(
            GenerationSetting { real_pwr_set_point_enabled: Some(false), ..none },
        ),
        ControlType::VoltageSetPointEnable => Some(
            GenerationSetting { voltage_set_point_enabled: Some(true), ..none },
        ),
        ControlType::VoltageSetPointDisable => Some(
            GenerationSetting { voltage_set_point_enabled: Some(false), ..none },
        ),
        _ => match state_of_control(c) {
            Some(st) => Some(GenerationSetting { state: Some(st), ..none }),
            None => None,
        },
    }
}

fn state_control(c: ControlType) -> (r: Option<StateKind>)
    ensures
        r == state_of_control(c),
{
    match c {
        ControlType::SetStateKindUndefined => Some(StateKind::Undefined),
        ControlType::SetStateKindOff => Some(StateKind::Off),
        ControlType::SetStateKindOn => Some(StateKind::On),
        ControlType::SetStateKindStandBy => Some(StateKind::Standby),
        _ => None,
    }
}

/// The ESS setting that a generic control switches, if it switches one.
pub fn ess_point_setting(c: ControlType) -> (r: Option<EssPoint>)
    ensures
        r == ess_point_control(c),
{
    let none = EssPoint {
        black_start_enabled: None,
        trans_to_islnd_on_grid_loss_enabled: None,
        state: None,
    };
    match c {
        ControlType::BlackStartEnable => Some(EssPoint { black_start_enabled: Some(true), ..none }),
        ControlType::BlackStartDisable => Some(EssPoint { black_start_enabled: Some(false), ..none }),
        ControlType::TransToIslandOnGridLossEnable => Some(
            EssPoint { trans_to_islnd_on_grid_loss_enabled: Some(true), ..none },
        ),
        ControlType::TransToIslandOnGridLossDisable => Some(
            EssPoint { trans_to_islnd_on_grid_loss_enabled: Some(false), ..none },
        ),
        _ => match state_control(c) {
            Some(st) => Some(EssPoint { state: Some(st), ..none }),
            None => None,
        },
    }
}

/// The solar inverter setting that a generic control switches, if any.
pub fn solar_point_setting(c: ControlType) -> (r: Option<SolarPoint>)
    ensures
        r == solar_point_control(c),
{
    match state_control(c) {
        Some(st) => Some(SolarPoint { state: Some(st) }),
        None => None,
    }
}

/// The generator setting that a generic control switches, if any.
pub fn generation_point_setting(c: ControlType) -> (r: Option<GenerationSetting>)
    ensures
        r == generation_setting(c),
{
    match generation_point(c, ControlTimestamp { seconds: 0, nanoseconds: 0 }) {
        Some(pt) => Some(pt.setting),
        None => None,
    }
}

/// An ESS schedule point starting at `schedule_time` that changes nothing yet.
pub fn create_ess_point(schedule_time: ControlTimestamp) -> (r: EssCurvePoint)
    ensures
        r == (EssCurvePoint { start_time: Some(schedule_time), control: None }),
{
    EssCurvePoint { start_time: Some(schedule_time), control: None }
}

/// A solar schedule point starting at `schedule_time` that changes nothing yet.
pub fn create_solar_point(schedule_time: ControlTimestamp) -> (r: SolarCurvePoint)
    ensures
        r == (SolarCurvePoint { start_time: Some(schedule_time), control: None }),
{
    SolarCurvePoint { start_time: Some(schedule_time), control: None }
}

/// A generator schedule point starting at `schedule_time` with every setting
/// left unchanged.
pub fn create_generation_point(schedule_time: ControlTimestamp) -> (r: GenerationPoint)
    ensures
        r.start_time == Some(schedule_time),
        r.setting == (GenerationSetting {
            frequency_set_point_enabled: None,
            reactive_pwr_set_point_enabled: None,
            real_pwr_set_point_enabled: None,
            voltage_set_point_enabled: None,
            state: None,
        }),
{
    GenerationPoint {
        start_time: Some(schedule_time),
        setting: GenerationSetting {
            frequency_set_point_enabled: None,
            reactive_pwr_set_point_enabled: None,
            real_pwr_set_point_enabled: None,
            voltage_set_point_enabled: None,
            state: None,
        },
    }
}

/// A regulator schedule point starting at `schedule_time` with the default
/// regulator control.
pub fn create_regulator_point(schedule_time: ControlTimestamp) -> (r: RegulatorPoint)
    ensures
        r == (RegulatorPoint {
            start_time: Some(schedule_time),
            control: Some(RegulatorControlAtcc { ctl_val: None }),
        }),
{
    RegulatorPoint {
        start_time: Some(schedule_time),
        control: Some(RegulatorControlAtcc { ctl_val: None }),
    }
}

/// The ESS schedule point for a generic control: one that starts at
/// `schedule_time` and switches the setting that the control names, or
/// `None` when the control switches no ESS setting.
pub fn ess_point(generic_control: ControlType, schedule_time: ControlTimestamp) -> (r: Option<
    EssCurvePoint,
>)
    ensures
        r == (match ess_point_control(generic_control) {
            Some(p) => Some(EssCurvePoint { start_time: Some(schedule_time), control: Some(p) }),
            None => None,
        }),
{
    match ess_point_setting(generic_control) {
        Some(control) => {
            let mut pt = create_ess_point(schedule_time);
            pt.control = Some(control);
            Some(pt)
        },
        None => None,
    }
}

/// The solar schedule point for a generic control, or `None` when the control
/// switches no solar inverter setting.
pub fn solar_point(generic_control: ControlType, schedule_time: ControlTimestamp) -> (r: Option<
    SolarCurvePoint,
>)
    ensures
        r == (match solar_point_control(generic_control) {
            Some(p) => Some(SolarCurvePoint { start_time: Some(schedule_time), control: Some(p) }),
            None => None,
        }),
{
    match solar_point_setting(generic_control) {
        Some(control) => {
            let mut pt = create_solar_point(schedule_time);
            pt.control = Some(control);
            Some(pt)
        },
        None => None,
    }
}

/// The generator schedule point for a generic control, or `None` when the
/// control switches no generator setting.
pub fn generation_point(generic_control: ControlType, schedule_time: ControlTimestamp) -> (r:
    Option<GenerationPoint>)
    ensures
        r == (match generation_setting(generic_control) {
            Some(s) => Some(GenerationPoint { start_time: Some(schedule_time), setting: s }),
            None => None,
        }),
{
    let mut pt = create_generation_point(schedule_time);
    match generic_control {
        ControlType::FrequencySetPointEnable => {
            pt.setting.frequency_set_point_enabled = Some(true);
        },
        ControlType::FrequencySetPointDisable => {
            pt.setting.frequency_set_point_enabled = Some(false);
        },
        ControlType::ReactivePowerSetPointEnable => {
            pt.setting.reactive_pwr_set_point_enabled = Some(true);
        },
        ControlType::ReactivePowerSetPointDisable => {
            pt.setting.reactive_pwr_set_point_enabled = Some(false);
        },
        ControlType::RealPowerSetPointEnable => {
            pt.setting.real_pwr_set_point_enabled = Some(true);
        },
        ControlType::RealPowerSetPointDisable => {
            pt.setting.real_pwr_set_point_enabled = Some(false);
        },
        ControlType::VoltageSetPointEnable => {
            pt.setting.voltage_set_point_enabled = Some(true);
        },
        ControlType::VoltageSetPointDisable => {
            pt.setting.voltage_set_point_enabled = Some(false);
        },
        _ => match state_control(generic_control) {
            Some(st) => {
                pt.setting.state = Some(st);
            },
            None => {
                return None;
            },
        },
    }
    Some(pt)
}

/// The regulator schedule point for a generic control. No generic control
/// switches a regulator setting, so there is none.
pub fn regulator_point(generic_control: ControlType, schedule_time: ControlTimestamp) -> (r:
    Option<RegulatorPoint>)
    ensures
        r is None,
{
    let _pt = create_regulator_point(schedule_time);
    None
}

/// The ESS schedule control for device `m_rid` that a generic control asks
/// for: one point starting at `schedule_time`, or `None` when the control
/// switches no ESS setting.
pub fn set_ess_csg(
    m_rid: &str,
    generic_control: ControlType,
    schedule_time: ControlTimestamp,
    info: ControlMessageInfo,
) -> (r: Option<EssControlProfile>)
    ensures
        r is None <==> ess_point_control(generic_control) is None,
        r matches Some(p) ==> {
            &&& p.m_rid@ == m_rid@
            &&& p.control_message_info.message_id@ == info.message_id@
            &&& p.control_message_info.message_time == info.message_time
            &&& p.crv_pts@ == seq![
                EssCurvePoint {
                    start_time: Some(schedule_time),
                    control: ess_point_control(generic_control),
                },
            ]
        },
{
    match ess_point(generic_control, schedule_time) {
        Some(point) => Some(
            EssControlProfile {
                control_message_info: info,
                m_rid: String::from_str(m_rid),
                crv_pts: vec![point],
            },
        ),
        None => None,
    }
}

/// The solar schedule control for device `m_rid` that a generic control asks
/// for, or `None` when the control switches no solar inverter setting.
pub fn set_solar_csg(
    m_rid: &str,
    generic_control: ControlType,
    schedule_time: ControlTimestamp,
    info: ControlMessageInfo,
) -> (r: Option<SolarControlProfile>)
    ensures
        r is None <==> solar_point_control(generic_control) is None,
        r matches Some(p) ==> {
            &&& p.m_rid@ == m_rid@
            &&& p.control_message_info.message_id@ == info.message_id@
            &&& p.control_message_info.message_time == info.message_time
            &&& p.crv_pts@ == seq![
                SolarCurvePoint {
                    start_time: Some(schedule_time),
                    control: solar_point_control(generic_control),
                },
            ]
        },
{
    match solar_point(generic_control, schedule_time) {
        Some(point) => Some(
            SolarControlProfile {
                control_message_info: info,
                m_rid: String::from_str(m_rid),
                crv_pts: vec![point],
            },
        ),
        None => None,
    }
}

/// The generator schedule control for device `m_rid` that a generic control
/// asks for, or `None` when the control switches no generator setting.
pub fn set_generation_csg(
    m_rid: &str,
    generic_control: ControlType,
    schedule_time: ControlTimestamp,
    info: ControlMessageInfo,
) -> (r: Option<GenerationControlProfile>)
    ensures
        r is None <==> generation_setting(generic_control) is None,
        r matches Some(p) ==> {
            &&& p.m_rid@ == m_rid@
            &&& p.control_message_info.message_id@ == info.message_id@
            &&& p.control_message_info.message_time == info.message_time
            &&& p.crv_pts@ == seq![
                GenerationPoint {
                    start_time: Some(schedule_time),
                    setting: generation_setting(generic_control)->0,
                },
            ]
        },
{
    match generation_point(generic_control, schedule_time) {
        Some(point) => Some(
            GenerationControlProfile {
                control_message_info: info,
                m_rid: String::from_str(m_rid),
                crv_pts: vec![point],
            },
        ),
        None => None,
    }
}

/// The regulator schedule control that a generic control asks for. No
/// generic control switches a regulator setting, so there is none.
pub fn set_regulator_csg(
    m_rid: &str,
    generic_control: ControlType,
    schedule_time: ControlTimestamp,
    info: ControlMessageInfo,
) -> (r: Option<RegulatorControlProfile>)
    ensures
        r is None,
{
    match regulator_point(generic_control, schedule_time) {
        Some(point) => Some(
            RegulatorControlProfile {
                control_message_info: info,
                m_rid: String::from_str(m_rid),
                crv_pts: vec![point],
            },
        ),
        None => None,
    }
}

} // verus!
