//! Generic controls: which control profile a generic command from an HMI
//! client goes out on, on which subject, and what the control asks of the
//! device.
//!
//! Numeric arguments travel as the bit patterns of the `f64` values that
//! clients send (`f64::to_bits`); the library only routes them. Where a
//! control uses the magnitude of an argument, the action says so.

use vstd::prelude::*;

use crate::control_type::{
    direct_schedule_kind, schedule_kind, ControlType, ScheduleParameterKind,
};
use crate::csg::{
    ess_point_control, ess_point_setting, generation_point_setting, generation_setting,
    solar_point_control, solar_point_setting, EssPoint, GenerationSetting, SolarPoint,
};
use crate::equipment::{common_control_profile_of, entries, get_common_control_profile, Equipment};
use crate::text::{
    concat2, contains_char, ends_with, first_token, first_token_of, has_char, has_suffix, owned,
    str_eq, view_opt,
};

verus! {

/// A generic control command from an HMI client.
pub struct GenericControl {
    /// The topic name the command came under.
    pub text: String,
    pub message: ControlType,
    /// The device the command is for.
    pub mrid: String,
    /// The control profile to use, where the client names one.
    pub profile_name: Option<String>,
    /// The command's argument (bits of an `f64`).
    pub args: Option<u64>,
    /// The command's second argument (bits of an `f64`).
    pub args2: Option<u64>,
}

/// A control profile that generic controls go out on.
#[derive(Clone, Copy, Debug, PartialEq, Eq, Structural)]
pub enum ControlProfile {
    Breaker,
    Recloser,
    Switch,
    Ess,
    Solar,
    Load,
    Resource,
    Regulator,
    Generation,
    CapBank,
}

/// The phase of a regulator tap change.
#[derive(Clone, Copy, Debug, PartialEq, Eq, Structural)]
pub enum Phase {
    Phs3,
    PhsA,
    PhsB,
    PhsC,
}

/// What a generic control asks of a device.
#[derive(Clone, Copy, Debug, PartialEq, Eq, Structural)]
pub enum ControlAction {
    Open,
    Close,
    /// Reset the device (breaker, ESS, solar inverter, load or generator).
    Reset,
    /// Block or unblock operation.
    ModBlk(bool),
    /// Discharge the ESS now at the argument.
    DischargeNow(u64),
    /// Schedule the parameter to the argument, starting now.
    Schedule(ScheduleParameterKind, u64),
    EssSetpoint(EssPoint),
    SolarSetpoint(SolarPoint),
    GenerationSetpoint(GenerationSetting),
    /// Switch the load bank on at its default power.
    LoadbankOnDefault,
    /// Switch the load bank on at the magnitude of the argument.
    LoadbankOnMagnitude(u64),
    LoadbankOff,
    /// Switch the generator on at the magnitude of the argument.
    GeneratorOnMagnitude(u64),
    /// Set an analog value; `index` is the second argument, zero when absent.
    SetDouble { value: u64, index: Option<u64> },
    /// Set an integer value from the argument.
    SetInt { value: u64, index: Option<u64> },
    /// Set a boolean value: whether the argument (zero when absent) is positive.
    SetBool { value: Option<u64>, index: Option<u64> },
    StartTransaction(Option<u64>),
    StopTransaction(Option<u64>),
    TapChange { phase: Phase, raise: bool },
}

/// A control ready to be built and published.
pub struct ControlPlan {
    pub profile: ControlProfile,
    pub subject: String,
    pub action: ControlAction,
}

/// What becomes of a generic control.
pub enum ControlOutcome {
    Publish(ControlPlan),
    /// The profile does not support the command.
    UnsupportedControl(ControlProfile),
    /// No control profile goes by this name.
    UnsupportedProfile(String),
}

/// The control profile a name stands for.
pub open spec fn control_profile_named(name: Seq<char>) -> Option<ControlProfile> {
    if name == "BreakerDiscreteControlProfile"@ {
        Some(ControlProfile::Breaker)
    } else if name == "RecloserDiscreteControlProfile"@ {
        Some(ControlProfile::Recloser)
    } else if name == "SwitchDiscreteControlProfile"@ {
        Some(ControlProfile::Switch)
    } else if name == "ESSControlProfile"@ || name == "EssControlProfile"@ {
        Some(ControlProfile::Ess)
    } else if name == "SolarControlProfile"@ {
        Some(ControlProfile::Solar)
    } else if name == "LoadControlProfile"@ {
        Some(ControlProfile::Load)
    } else if name == "ResourceDiscreteControlProfile"@ {
        Some(ControlProfile::Resource)
    } else if name == "RegulatorDiscreteControlProfile"@ {
        Some(ControlProfile::Regulator)
    } else if name == "GenerationControlProfile"@ {
        Some(ControlProfile::Generation)
    } else if name == "CapBankControlProfile"@ {
        Some(ControlProfile::CapBank)
    } else {
        None
    }
}

/// The subject prefix of a control profile; the device's MRID follows it.
pub open spec fn subject_prefix(p: ControlProfile) -> Seq<char> {
    match p {
        ControlProfile::Breaker => "openfmb.breakermodule.BreakerDiscreteControlProfile."@,
        ControlProfile::Recloser => "openfmb.reclosermodule.RecloserDiscreteControlProfile."@,
        ControlProfile::Switch => "openfmb.switchmodule.SwitchDiscreteControlProfile."@,
        ControlProfile::Ess => "openfmb.essmodule.ESSControlProfile."@,
        ControlProfile::Solar => "openfmb.solarmodule.SolarControlProfile."@,
        ControlProfile::Load => "openfmb.loadmodule.LoadControlProfile."@,
        ControlProfile::Resource => "openfmb.resourcemodule.ResourceDiscreteControlProfile."@,
        ControlProfile::Regulator => "openfmb.regulatormodule.RegulatorDiscreteControlProfile."@,
        ControlProfile::Generation => "openfmb.generationmodule.GenerationControlProfile."@,
        ControlProfile::CapBank => "openfmb.capbankmodule.CapBankControlProfile."@,
    }
}

/// Whether a command on a profile uses the command's argument.
pub open spec fn needs_argument(p: ControlProfile, c: ControlType) -> bool {
    match p {
        ControlProfile::Breaker | ControlProfile::Recloser | ControlProfile::Switch => false,
        ControlProfile::Ess | ControlProfile::Generation => c == ControlType::SetValue
            || schedule_kind(c) is Some,
        ControlProfile::Solar | ControlProfile::Regulator | ControlProfile::CapBank => schedule_kind(
            c,
        ) is Some,
        ControlProfile::Load => c == ControlType::SetWNetMag || c == ControlType::SetValue
            || direct_schedule_kind(c) is Some,
        ControlProfile::Resource => c == ControlType::SetValue || c
            == ControlType::SetGgioValueAnalog || c == ControlType::SetGgioValueInteger,
    }
}

/// A scheduled control of the parameter that a command names, if it names one.
pub open spec fn schedule_action(k: Option<ScheduleParameterKind>, a: u64) -> Option<
    ControlAction,
> {
    match k {
        Some(k) => Some(ControlAction::Schedule(k, a)),
        None => None,
    }
}

/// What a command on a profile asks of the device, or `None` when the
/// profile does not support the command. `args` is the command's argument
/// (read only where the command uses it), `args2` its second argument.
pub open spec fn planned_action(
    p: ControlProfile,
    c: ControlType,
    args: Option<u64>,
    args2: Option<u64>,
) -> Option<ControlAction> {
    let a = args->0;
    match p {
        ControlProfile::Breaker => match c {
            ControlType::Open => Some(ControlAction::Open),
            ControlType::Close => Some(ControlAction::Close),
            ControlType::ResetBreaker => Some(ControlAction::Reset),
            _ => None,
        },
        ControlProfile::Recloser => match c {
            ControlType::Open => Some(ControlAction::Open),
            ControlType::Close => Some(ControlAction::Close),
            _ => None,
        },
        ControlProfile::Switch => match c {
            ControlType::Open => Some(ControlAction::Open),
            ControlType::Close => Some(ControlAction::Close),
            ControlType::SetModBlkOn => Some(ControlAction::ModBlk(true)),
            ControlType::SetModBlkOff => Some(ControlAction::ModBlk(false)),
            _ => None,
        },
        ControlProfile::Ess => match c {
            ControlType::SetModBlkOn => Some(ControlAction::ModBlk(true)),
            ControlType::SetModBlkOff => Some(ControlAction::ModBlk(false)),
            ControlType::SetValue => Some(ControlAction::DischargeNow(a)),
            ControlType::ResetEss => Some(ControlAction::Reset),
            _ => match schedule_kind(c) {
                Some(k) => Some(ControlAction::Schedule(k, a)),
                None => match ess_point_control(c) {
                    Some(e) => Some(ControlAction::EssSetpoint(e)),
                    None => None,
                },
            },
        },
        ControlProfile::Solar => match c {
            ControlType::SetModBlkOn => Some(ControlAction::ModBlk(true)),
            ControlType::SetModBlkOff => Some(ControlAction::ModBlk(false)),
            ControlType::ResetSolar => Some(ControlAction::Reset),
            _ => match schedule_kind(c) {
                Some(k) => Some(ControlAction::Schedule(k, a)),
                None => match solar_point_control(c) {
                    Some(s) => Some(ControlAction::SolarSetpoint(s)),
                    None => None,
                },
            },
        },
        ControlProfile::Load => match c {
            ControlType::StateOn => Some(ControlAction::LoadbankOnDefault),
            ControlType::StateOff => Some(ControlAction::LoadbankOff),
            ControlType::SetWNetMag | ControlType::SetValue => Some(
                ControlAction::LoadbankOnMagnitude(a),
            ),
            ControlType::ResetLoad => Some(ControlAction::Reset),
            _ => schedule_action(direct_schedule_kind(c), a),
        },
        ControlProfile::Resource => match c {
            ControlType::SetValue | ControlType::SetGgioValueAnalog => Some(
                ControlAction::SetDouble { value: a, index: args2 },
            ),
            ControlType::SetGgioValueInteger => Some(
                ControlAction::SetInt { value: a, index: args2 },
            ),
            ControlType::SetGgioValueBool => Some(
                ControlAction::SetBool { value: args, index: args2 },
            ),
            ControlType::StartTransaction => Some(ControlAction::StartTransaction(args2)),
            ControlType::StopTransaction => Some(ControlAction::StopTransaction(args2)),
            _ => None,
        },
        ControlProfile::Regulator => match c {
            ControlType::TapChangeLowerPhs3 => Some(
                ControlAction::TapChange { phase: Phase::Phs3, raise: false },
            ),
            ControlType::TapChangeRaisePhs3 => Some(
                ControlAction::TapChange { phase: Phase::Phs3, raise: true },
            ),
            ControlType::TapChangeLowerPhsA => Some(
                ControlAction::TapChange { phase: Phase::PhsA, raise: false },
            ),
            ControlType::TapChangeRaisePhsA => Some(
                ControlAction::TapChange { phase: Phase::PhsA, raise: true },
            ),
            ControlType::TapChangeLowerPhsB => Some(
                ControlAction::TapChange { phase: Phase::PhsB, raise: false },
            ),
            ControlType::TapChangeRaisePhsB => Some(
                ControlAction::TapChange { phase: Phase::PhsB, raise: true },
            ),
            ControlType::TapChangeLowerPhsC => Some(
                ControlAction::TapChange { phase: Phase::PhsC, raise: false },
            ),
            ControlType::TapChangeRaisePhsC => Some(
                ControlAction::TapChange { phase: Phase::PhsC, raise: true },
            ),
            _ => schedule_action(schedule_kind(c), a),
        },
        ControlProfile::Generation => match c {
            ControlType::SetValue => Some(ControlAction::GeneratorOnMagnitude(a)),
            ControlType::ResetSolar => Some(ControlAction::Reset),
            _ => match schedule_kind(c) {
                Some(k) => Some(ControlAction::Schedule(k, a)),
                None => match generation_setting(c) {
                    Some(g) => Some(ControlAction::GenerationSetpoint(g)),
                    None => None,
                },
            },
        },
        ControlProfile::CapBank => schedule_action(schedule_kind(c), a),
    }
}

/// The profile name a generic control goes by: the one the client names;
/// else the first part of a dotted topic name when that part ends in
/// `Profile`; else the control profile of the device, from the equipment
/// list; else the empty name.
pub open spec fn resolved_profile_name(
    text: Seq<char>,
    profile_name: Option<Seq<char>>,
    device_profile: Option<Seq<char>>,
) -> Seq<char> {
    match profile_name {
        Some(p) => p,
        None => if contains_char(text, '.') && has_suffix(first_token(text, '.'), "Profile"@) {
            first_token(text, '.')
        } else {
            match device_profile {
                Some(d) => d,
                None => Seq::empty(),
            }
        },
    }
}

/// The profile name of a generic control, with the equipment list to look
/// the device up in.
pub open spec fn control_profile_name(msg: GenericControl, equipment: Seq<Equipment>) -> Seq<
    char,
> {
    resolved_profile_name(
        msg.text@,
        view_opt(msg.profile_name),
        common_control_profile_of(entries(equipment), msg.mrid@),
    )
}

/// Whether a control can be planned: a command that uses its argument has one.
pub open spec fn argument_present(name: Seq<char>, c: ControlType, args: Option<u64>) -> bool {
    match control_profile_named(name) {
        Some(p) => needs_argument(p, c) ==> args is Some,
        None => true,
    }
}

impl ControlProfile {
    /// The control profile a name stands for, if any.
    pub fn from_name(name: &str) -> (r: Option<ControlProfile>)
        ensures
            r == control_profile_named(name@),
    {
        if str_eq(name, "BreakerDiscreteControlProfile") {
            Some(ControlProfile::Breaker)
        } else if str_eq(name, "RecloserDiscreteControlProfile") {
            Some(ControlProfile::Recloser)
        } else if str_eq(name, "SwitchDiscreteControlProfile") {
            Some(ControlProfile::Switch)
        } else if str_eq(name, "ESSControlProfile") || str_eq(name, "EssControlProfile") {
            Some(ControlProfile::Ess)
        } else if str_eq(name, "SolarControlProfile") {
            Some(ControlProfile::Solar)
        } else if str_eq(name, "LoadControlProfile") {
            Some(ControlProfile::Load)
        } else if str_eq(name, "ResourceDiscreteControlProfile") {
            Some(ControlProfile::Resource)
        } else if str_eq(name, "RegulatorDiscreteControlProfile") {
            Some(ControlProfile::Regulator)
        } else if str_eq(name, "GenerationControlProfile") {
            Some(ControlProfile::Generation)
        } else if str_eq(name, "CapBankControlProfile") {
            Some(ControlProfile::CapBank)
        } else {
            None
        }
    }

    /// The subject prefix of this profile; the device's MRID follows it.
    pub fn subject_prefix(&self) -> (r: &'static str)
        ensures
            r@ == subject_prefix(*self),
    {
        match self {
            ControlProfile::Breaker => "openfmb.breakermodule.BreakerDiscreteControlProfile.",
            ControlProfile::Recloser => "openfmb.reclosermodule.RecloserDiscreteControlProfile.",
            ControlProfile::Switch => "openfmb.switchmodule.SwitchDiscreteControlProfile.",
            ControlProfile::Ess => "openfmb.essmodule.ESSControlProfile.",
            ControlProfile::Solar => "openfmb.solarmodule.SolarControlProfile.",
            ControlProfile::Load => "openfmb.loadmodule.LoadControlProfile.",
            ControlProfile::Resource => "openfmb.resourcemodule.ResourceDiscreteControlProfile.",
            ControlProfile::Regulator => "openfmb.regulatormodule.RegulatorDiscreteControlProfile.",
            ControlProfile::Generation => "openfmb.generationmodule.GenerationControlProfile.",
            ControlProfile::CapBank => "openfmb.capbankmodule.CapBankControlProfile.",
        }
    }

    /// Whether a command on this profile uses the command's argument.
    pub fn needs_argument(&self, c: ControlType) -> (r: bool)
        ensures
            r == needs_argument(*self, c),
    {
        match self {
            ControlProfile::Breaker | ControlProfile::Recloser | ControlProfile::Switch => false,
            ControlProfile::Ess | ControlProfile::Generation => c == ControlType::SetValue
                || c.schedule_kind().is_some(),
            ControlProfile::Solar | ControlProfile::Regulator | ControlProfile::CapBank => c.schedule_kind().is_some(),
            ControlProfile::Load => c == ControlType::SetWNetMag || c == ControlType::SetValue
                || c.direct_schedule_kind().is_some(),
            ControlProfile::Resource => c == ControlType::SetValue || c
                == ControlType::SetGgioValueAnalog || c == ControlType::SetGgioValueInteger,
        }
    }
}

fn schedule_or(k: Option<ScheduleParameterKind>, a: u64) -> (r: Option<ControlAction>)
    ensures
        r == schedule_action(k, a),
{
    match k {
        Some(k) => Some(ControlAction::Schedule(k, a)),
        None => None,
    }
}

/// What a command on a profile asks of the device, or `None` when the
/// profile does not support it.
pub fn plan_action(p: ControlProfile, c: ControlType, args: Option<u64>, args2: Option<u64>) -> (r:
    Option<ControlAction>)
    requires
        needs_argument(p, c) ==> args is Some,
    ensures
        r == planned_action(p, c, args, args2),
{
    let a: u64 = match args {
        Some(v) => v,
        None => 0,
    };
    match p {
        ControlProfile::Breaker => match c {
            ControlType::Open => Some(ControlAction::Open),
            ControlType::Close => Some(ControlAction::Close),
            ControlType::ResetBreaker => Some(ControlAction::Reset),
            _ => None,
        },
        ControlProfile::Recloser => match c {
            ControlType::Open => Some(ControlAction::Open),
            ControlType::Close => Some(ControlAction::Close),
            _ => None,
        },
        ControlProfile::Switch => match c {
            ControlType::Open => Some(ControlAction::Open),
            ControlType::Close => Some(ControlAction::Close),
            ControlType::SetModBlkOn => Some(ControlAction::ModBlk(true)),
            ControlType::SetModBlkOff => Some(ControlAction::ModBlk(false)),
            _ => None,
        },
        ControlProfile::Ess => match c {
            ControlType::SetModBlkOn => Some(ControlAction::ModBlk(true)),
            ControlType::SetModBlkOff => Some(ControlAction::ModBlk(false)),
            ControlType::SetValue => Some(ControlAction::DischargeNow(a)),
            ControlType::ResetEss => Some(ControlAction::Reset),
            _ => match c.schedule_kind() {
                Some(k) => Some(ControlAction::Schedule(k, a)),
                None => match ess_point_setting(c) {
                    Some(e) => Some(ControlAction::EssSetpoint(e)),
                    None => None,
                },
            },
        },
        ControlProfile::Solar => match c {
            ControlType::SetModBlkOn => Some(ControlAction::ModBlk(true)),
            ControlType::SetModBlkOff => Some(ControlAction::ModBlk(false)),
            ControlType::ResetSolar => Some(ControlAction::Reset),
            _ => match c.schedule_kind() {
                Some(k) => Some(ControlAction::Schedule(k, a)),
                None => match solar_point_setting(c) {
                    Some(s) => Some(ControlAction::SolarSetpoint(s)),
                    None => None,
                },
            },
        },
        ControlProfile::Load => match c {
            ControlType::StateOn => Some(ControlAction::LoadbankOnDefault),
            ControlType::StateOff => Some(ControlAction::LoadbankOff),
            ControlType::SetWNetMag | ControlType::SetValue => Some(
                ControlAction::LoadbankOnMagnitude(a),
            ),
            ControlType::ResetLoad => Some(ControlAction::Reset),
            _ => schedule_or(c.direct_schedule_kind(), a),
        },
        ControlProfile::Resource => match c {
            ControlType::SetValue | ControlType::SetGgioValueAnalog => Some(
                ControlAction::SetDouble { value: a, index: args2 },
            ),
            ControlType::SetGgioValueInteger => Some(
                ControlAction::SetInt { value: a, index: args2 },
            ),
            ControlType::SetGgioValueBool => Some(
                ControlAction::SetBool { value: args, index: args2 },
            ),
            ControlType::StartTransaction => Some(ControlAction::StartTransaction(args2)),
            ControlType::StopTransaction => Some(ControlAction::StopTransaction(args2)),
            _ => None,
        },
        ControlProfile::Regulator => match c {
            ControlType::TapChangeLowerPhs3 => Some(
                ControlAction::TapChange { phase: Phase::Phs3, raise: false },
            ),
            ControlType::TapChangeRaisePhs3 => Some(
                ControlAction::TapChange { phase: Phase::Phs3, raise: true },
            ),
            ControlType::TapChangeLowerPhsA => Some(
                ControlAction::TapChange { phase: Phase::PhsA, raise: false },
            ),
            ControlType::TapChangeRaisePhsA => Some(
                ControlAction::TapChange { phase: Phase::PhsA, raise: true },
            ),
            ControlType::TapChangeLowerPhsB => Some(
                ControlAction::TapChange { phase: Phase::PhsB, raise: false },
            ),
            ControlType::TapChangeRaisePhsB => Some(
                ControlAction::TapChange { phase: Phase::PhsB, raise: true },
            ),
            ControlType::TapChangeLowerPhsC => Some(
                ControlAction::TapChange { phase: Phase::PhsC, raise: false },
            ),
            ControlType::TapChangeRaisePhsC => Some(
                ControlAction::TapChange { phase: Phase::PhsC, raise: true },
            ),
            _ => schedule_or(c.schedule_kind(), a),
        },
        ControlProfile::Generation => match c {
            ControlType::SetValue => Some(ControlAction::GeneratorOnMagnitude(a)),
            ControlType::ResetSolar => Some(ControlAction::Reset),
            _ => match c.schedule_kind() {
                Some(k) => Some(ControlAction::Schedule(k, a)),
                None => match generation_point_setting(c) {
                    Some(g) => Some(ControlAction::GenerationSetpoint(g)),
                    None => None,
                },
            },
        },
        ControlProfile::CapBank => schedule_or(c.schedule_kind(), a),
    }
}

/// The profile name a generic control goes by, given the control profile of
/// its device where the equipment list has one.
pub fn resolve_profile_name(msg: &GenericControl, device_profile: Option<String>) -> (r: String)
    ensures
        r@ == resolved_profile_name(msg.text@, view_opt(msg.profile_name), view_opt(device_profile)),
{
    match &msg.profile_name {
        Some(p) => p.clone(),
        None => {
            let text = msg.text.as_str();
            if has_char(text, '.') {
                let first = first_token_of(text, '.');
                if ends_with(first.as_str(), "Profile") {
                    return first;
                }
            }
            match device_profile {
                Some(d) => d,
                None => String::new(),
            }
        },
    }
}

/// The profile name of a generic control, looking the device up in the
/// equipment list only where the command does not settle it.
pub fn control_profile(msg: &GenericControl, equipment: &Vec<Equipment>) -> (r: String)
    ensures
        r@ == control_profile_name(*msg, equipment@),
{
    let device_profile = get_common_control_profile(equipment, msg.mrid.as_str());
    resolve_profile_name(msg, device_profile)
}

/// What becomes of a generic control for a profile name: it is published on
/// the profile's subject for the device, or refused as a command the profile
/// does not support, or refused for a name that is no control profile.
pub fn plan_for_profile(name: &str, msg: &GenericControl) -> (r: ControlOutcome)
    requires
        argument_present(name@, msg.message, msg.args),
    ensures
        match control_profile_named(name@) {
            None => r matches ControlOutcome::UnsupportedProfile(n) && n@ == name@,
            Some(p) => match planned_action(p, msg.message, msg.args, msg.args2) {
                Some(a) => r matches ControlOutcome::Publish(plan) && plan.profile == p
                    && plan.action == a && plan.subject@ == subject_prefix(p) + msg.mrid@,
                None => r == ControlOutcome::UnsupportedControl(p),
            },
        },
{
    match ControlProfile::from_name(name) {
        None => ControlOutcome::UnsupportedProfile(owned(name)),
        Some(p) => match plan_action(p, msg.message, msg.args, msg.args2) {
            Some(action) => {
                let subject = concat2(p.subject_prefix(), msg.mrid.as_str());
                ControlOutcome::Publish(ControlPlan { profile: p, subject, action })
            },
            None => ControlOutcome::UnsupportedControl(p),
        },
    }
}

/// Whether a generic control with this profile name can be planned: `false`
/// exactly when the command uses its argument and has none.
pub fn has_needed_argument(name: &str, msg: &GenericControl) -> (r: bool)
    ensures
        r == argument_present(name@, msg.message, msg.args),
{
    match ControlProfile::from_name(name) {
        Some(p) => !p.needs_argument(msg.message) || msg.args.is_some(),
        None => true,
    }
}

/// What becomes of a generic control from an HMI client, with the equipment
/// list to find the device's profile in.
pub fn plan_generic_control(msg: &GenericControl, equipment: &Vec<Equipment>) -> (r:
    ControlOutcome)
    requires
        argument_present(control_profile_name(*msg, equipment@), msg.message, msg.args),
    ensures
        ({
            let name = control_profile_name(*msg, equipment@);
            match control_profile_named(name) {
                None => r matches ControlOutcome::UnsupportedProfile(n) && n@ == name,
                Some(p) => match planned_action(p, msg.message, msg.args, msg.args2) {
                    Some(a) => r matches ControlOutcome::Publish(plan) && plan.profile == p
                        && plan.action == a && plan.subject@ == subject_prefix(p) + msg.mrid@,
                    None => r == ControlOutcome::UnsupportedControl(p),
                },
            }
        }),
{
    let name = control_profile(msg, equipment);
    plan_for_profile(name.as_str(), msg)
}

/// `ESSControlProfile` and `EssControlProfile` name the same profile, so a
/// command planned under either name is planned alike.
pub proof fn law_ess_profile_names_agree()
    ensures
        control_profile_named("ESSControlProfile"@) == control_profile_named("EssControlProfile"@),
        control_profile_named("EssControlProfile"@) == Some(ControlProfile::Ess),
{
    reveal_strlit("ESSControlProfile");
    reveal_strlit("EssControlProfile");
    reveal_strlit("BreakerDiscreteControlProfile");
    reveal_strlit("RecloserDiscreteControlProfile");
    reveal_strlit("SwitchDiscreteControlProfile");
    assert("EssControlProfile"@.len() != "BreakerDiscreteControlProfile"@.len());
    assert("EssControlProfile"@.len() != "RecloserDiscreteControlProfile"@.len());
    assert("EssControlProfile"@.len() != "SwitchDiscreteControlProfile"@.len());
}

/// `SetVarNetMag` and `SetWNetMag` schedule the same parameters as
/// `VArNetMag` and `WNetMag` on every profile that schedules, except that on
/// a load `SetWNetMag` switches the load bank on instead.
pub proof fn law_set_aliases_schedule_alike(p: ControlProfile, args: Option<u64>, args2: Option<u64>)
    requires
        p != ControlProfile::Load,
    ensures
        planned_action(p, ControlType::SetVarNetMag, args, args2) == planned_action(
            p,
            ControlType::VArNetMag,
            args,
            args2,
        ),
        planned_action(p, ControlType::SetWNetMag, args, args2) == planned_action(
            p,
            ControlType::WNetMag,
            args,
            args2,
        ),
{
}

/// A profile the client names is the one used, whatever the topic and the
/// equipment list say.
pub proof fn law_named_profile_wins(text: Seq<char>, name: Seq<char>, device: Option<Seq<char>>)
    ensures
        resolved_profile_name(text, Some(name), device) == name,
{
}

/// On every profile that switches (breaker, recloser, switch), an open
/// command plans an opening and a close command plans a closing, whatever
/// the arguments; so the two commands never plan the same action.
pub proof fn law_open_and_close_switch_alike(p: ControlProfile, args: Option<u64>, args2: Option<u64>)
    requires
        p == ControlProfile::Breaker || p == ControlProfile::Recloser || p == ControlProfile::Switch,
    ensures
        planned_action(p, ControlType::Open, args, args2) == Some(ControlAction::Open),
        planned_action(p, ControlType::Close, args, args2) == Some(ControlAction::Close),
        planned_action(p, ControlType::Open, args, args2) != planned_action(p, ControlType::Close, args, args2),
{
}

} // verus!
