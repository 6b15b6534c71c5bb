//! The generic control commands that HMI clients send, and the schedule
//! parameters that a scheduled control sets.

use vstd::prelude::*;

use crate::text::str_eq;

verus! {

/// A generic control command, named as HMI clients name it.
#[derive(Clone, Copy, Debug, PartialEq, Eq, Structural)]
pub enum ControlType {
    Open,
    Close,
    ResetBreaker,
    SetModBlkOn,
    SetModBlkOff,
    SetValue,
    SetVarNetMag,
    SetWNetMag,
    ResetEss,
    ResetSolar,
    ResetLoad,
    StateOn,
    StateOff,
    SetGgioValueAnalog,
    SetGgioValueInteger,
    SetGgioValueBool,
    StartTransaction,
    StopTransaction,
    TapChangeLowerPhs3,
    TapChangeRaisePhs3,
    TapChangeLowerPhsA,
    TapChangeRaisePhsA,
    TapChangeLowerPhsB,
    TapChangeRaisePhsB,
    TapChangeLowerPhsC,
    TapChangeRaisePhsC,
    BlackStartEnable,
    BlackStartDisable,
    TransToIslandOnGridLossEnable,
    TransToIslandOnGridLossDisable,
    SetStateKindUndefined,
    SetStateKindOff,
    SetStateKindOn,
    SetStateKindStandBy,
    FrequencySetPointEnable,
    FrequencySetPointDisable,
    ReactivePowerSetPointEnable,
    ReactivePowerSetPointDisable,
    RealPowerSetPointEnable,
    RealPowerSetPointDisable,
    VoltageSetPointEnable,
    VoltageSetPointDisable,
    ANetMag,
    ANeutMag,
    APhsAMag,
    APhsBMag,
    APhsCMag,
    HzMag,
    PfNetMag,
    PfNeutMag,
    PfPhsAMag,
    PfPhsBMag,
    PfPhsCMag,
    PhVNetAng,
    PhVNetMag,
    PhVNeutAng,
    PhVNeutMag,
    PhVPhsAAng,
    PhVPhsAMag,
    PhVPhsBAng,
    PhVPhsBMag,
    PhVPhsCAng,
    PhVPhsCMag,
    PpvPhsAbAng,
    PpvPhsAbMag,
    PpvPhsBcAng,
    PpvPhsBcMag,
    PpvPhsCaAng,
    PpvPhsCaMag,
    VaNetMag,
    VaNeutMag,
    VaPhsAMag,
    VaPhsBMag,
    VaPhsCMag,
    VArNetMag,
    VArNeutMag,
    VArPhsAMag,
    VArPhsBMag,
    VArPhsCMag,
    WNetMag,
    WNeutMag,
    WPhsAMag,
    WPhsBMag,
    WPhsCMag,
}

/// A parameter that a scheduled control sets.
#[derive(Clone, Copy, Debug, PartialEq, Eq, Structural)]
pub enum ScheduleParameterKind {
    ANetMag,
    ANeutMag,
    APhsAMag,
    APhsBMag,
    APhsCMag,
    HzMag,
    PfNetMag,
    PfNeutMag,
    PfPhsAMag,
    PfPhsBMag,
    PfPhsCMag,
    PhVNetAng,
    PhVNetMag,
    PhVNeutAng,
    PhVNeutMag,
    PhVPhsAAng,
    PhVPhsAMag,
    PhVPhsBAng,
    PhVPhsBMag,
    PhVPhsCAng,
    PhVPhsCMag,
    PpvPhsAbAng,
    PpvPhsAbMag,
    PpvPhsBcAng,
    PpvPhsBcMag,
    PpvPhsCaAng,
    PpvPhsCaMag,
    VaNetMag,
    VaNeutMag,
    VaPhsAMag,
    VaPhsBMag,
    VaPhsCMag,
    VArNetMag,
    VArNeutMag,
    VArPhsAMag,
    VArPhsBMag,
    VArPhsCMag,
    WNetMag,
    WNeutMag,
    WPhsAMag,
    WPhsBMag,
    WPhsCMag,
}

/// The name by which clients send a control command.
pub open spec fn control_type_name(c: ControlType) -> Seq<char> {
    match c {
        ControlType::Open => "Open"@,
        ControlType::Close => "Close"@,
        ControlType::ResetBreaker => "ResetBreaker"@,
        ControlType::SetModBlkOn => "SetModBlkOn"@,
        ControlType::SetModBlkOff => "SetModBlkOff"@,
        ControlType::SetValue => "SetValue"@,
        ControlType::SetVarNetMag => "SetVarNetMag"@,
        ControlType::SetWNetMag => "SetWNetMag"@,
        ControlType::ResetEss => "ResetEss"@,
        ControlType::ResetSolar => "ResetSolar"@,
        ControlType::ResetLoad => "ResetLoad"@,
        ControlType::StateOn => "StateOn"@,
        ControlType::StateOff => "StateOff"@,
        ControlType::SetGgioValueAnalog => "SetGgioValueAnalog"@,
        ControlType::SetGgioValueInteger => "SetGgioValueInteger"@,
        ControlType::SetGgioValueBool => "SetGgioValueBool"@,
        ControlType::StartTransaction => "StartTransaction"@,
        ControlType::StopTransaction => "StopTransaction"@,
        ControlType::TapChangeLowerPhs3 => "TapChangeLowerPhs3"@,
        ControlType::TapChangeRaisePhs3 => "TapChangeRaisePhs3"@,
        ControlType::TapChangeLowerPhsA => "TapChangeLowerPhsA"@,
        ControlType::TapChangeRaisePhsA => "TapChangeRaisePhsA"@,
        ControlType::TapChangeLowerPhsB => "TapChangeLowerPhsB"@,
        ControlType::TapChangeRaisePhsB => "TapChangeRaisePhsB"@,
        ControlType::TapChangeLowerPhsC => "TapChangeLowerPhsC"@,
        ControlType::TapChangeRaisePhsC => "TapChangeRaisePhsC"@,
        ControlType::BlackStartEnable => "BlackStartEnable"@,
        ControlType::BlackStartDisable => "BlackStartDisable"@,
        ControlType::TransToIslandOnGridLossEnable => "TransToIslandOnGridLossEnable"@,
        ControlType::TransToIslandOnGridLossDisable => "TransToIslandOnGridLossDisable"@,
        ControlType::SetStateKindUndefined => "SetStateKindUndefined"@,
        ControlType::SetStateKindOff => "SetStateKindOff"@,
        ControlType::SetStateKindOn => "SetStateKindOn"@,
        ControlType::SetStateKindStandBy => "SetStateKindStandBy"@,
        ControlType::FrequencySetPointEnable => "FrequencySetPointEnable"@,
        ControlType::FrequencySetPointDisable => "FrequencySetPointDisable"@,
        ControlType::ReactivePowerSetPointEnable => "ReactivePowerSetPointEnable"@,
        ControlType::ReactivePowerSetPointDisable => "ReactivePowerSetPointDisable"@,
        ControlType::RealPowerSetPointEnable => "RealPowerSetPointEnable"@,
        ControlType::RealPowerSetPointDisable => "RealPowerSetPointDisable"@,
        ControlType::VoltageSetPointEnable => "VoltageSetPointEnable"@,
        ControlType::VoltageSetPointDisable => "VoltageSetPointDisable"@,
        ControlType::ANetMag => "ANetMag"@,
        ControlType::ANeutMag => "ANeutMag"@,
        ControlType::APhsAMag => "APhsAMag"@,
        ControlType::APhsBMag => "APhsBMag"@,
        ControlType::APhsCMag => "APhsCMag"@,
        ControlType::HzMag => "HzMag"@,
        ControlType::PfNetMag => "PfNetMag"@,
        ControlType::PfNeutMag => "PfNeutMag"@,
        ControlType::PfPhsAMag => "PfPhsAMag"@,
        ControlType::PfPhsBMag => "PfPhsBMag"@,
        ControlType::PfPhsCMag => "PfPhsCMag"@,
        ControlType::PhVNetAng => "PhVNetAng"@,
        ControlType::PhVNetMag => "PhVNetMag"@,
        ControlType::PhVNeutAng => "PhVNeutAng"@,
        ControlType::PhVNeutMag => "PhVNeutMag"@,
        ControlType::PhVPhsAAng => "PhVPhsAAng"@,
        ControlType::PhVPhsAMag => "PhVPhsAMag"@,
        ControlType::PhVPhsBAng => "PhVPhsBAng"@,
        ControlType::PhVPhsBMag => "PhVPhsBMag"@,
        ControlType::PhVPhsCAng => "PhVPhsCAng"@,
        ControlType::PhVPhsCMag => "PhVPhsCMag"@,
        ControlType::PpvPhsAbAng => "PpvPhsAbAng"@,
        ControlType::PpvPhsAbMag => "PpvPhsAbMag"@,
        ControlType::PpvPhsBcAng => "PpvPhsBcAng"@,
        ControlType::PpvPhsBcMag => "PpvPhsBcMag"@,
        ControlType::PpvPhsCaAng => "PpvPhsCaAng"@,
        ControlType::PpvPhsCaMag => "PpvPhsCaMag"@,
        ControlType::VaNetMag => "VaNetMag"@,
        ControlType::VaNeutMag => "VaNeutMag"@,
        ControlType::VaPhsAMag => "VaPhsAMag"@,
        ControlType::VaPhsBMag => "VaPhsBMag"@,
        ControlType::VaPhsCMag => "VaPhsCMag"@,
        ControlType::VArNetMag => "VArNetMag"@,
        ControlType::VArNeutMag => "VArNeutMag"@,
        ControlType::VArPhsAMag => "VArPhsAMag"@,
        ControlType::VArPhsBMag => "VArPhsBMag"@,
        ControlType::VArPhsCMag => "VArPhsCMag"@,
        ControlType::WNetMag => "WNetMag"@,
        ControlType::WNeutMag => "WNeutMag"@,
        ControlType::WPhsAMag => "WPhsAMag"@,
        ControlType::WPhsBMag => "WPhsBMag"@,
        ControlType::WPhsCMag => "WPhsCMag"@,
    }
}

/// The schedule parameter of the same name as a control command, if any.
pub open spec fn direct_schedule_kind(c: ControlType) -> Option<ScheduleParameterKind> {
    match c {
        ControlType::ANetMag => Some(ScheduleParameterKind::ANetMag),
        ControlType::ANeutMag => Some(ScheduleParameterKind::ANeutMag),
        ControlType::APhsAMag => Some(ScheduleParameterKind::APhsAMag),
        ControlType::APhsBMag => Some(ScheduleParameterKind::APhsBMag),
        ControlType::APhsCMag => Some(ScheduleParameterKind::APhsCMag),
        ControlType::HzMag => Some(ScheduleParameterKind::HzMag),
        ControlType::PfNetMag => Some(ScheduleParameterKind::PfNetMag),
        ControlType::PfNeutMag => Some(ScheduleParameterKind::PfNeutMag),
        ControlType::PfPhsAMag => Some(ScheduleParameterKind::PfPhsAMag),
        ControlType::PfPhsBMag => Some(ScheduleParameterKind::PfPhsBMag),
        ControlType::PfPhsCMag => Some(ScheduleParameterKind::PfPhsCMag),
        ControlType::PhVNetAng => Some(ScheduleParameterKind::PhVNetAng),
        ControlType::PhVNetMag => Some(ScheduleParameterKind::PhVNetMag),
        ControlType::PhVNeutAng => Some(ScheduleParameterKind::PhVNeutAng),
        ControlType::PhVNeutMag => Some(ScheduleParameterKind::PhVNeutMag),
        ControlType::PhVPhsAAng => Some(ScheduleParameterKind::PhVPhsAAng),
        ControlType::PhVPhsAMag => Some(ScheduleParameterKind::PhVPhsAMag),
        ControlType::PhVPhsBAng => Some(ScheduleParameterKind::PhVPhsBAng),
        ControlType::PhVPhsBMag => Some(ScheduleParameterKind::PhVPhsBMag),
        ControlType::PhVPhsCAng => Some(ScheduleParameterKind::PhVPhsCAng),
        ControlType::PhVPhsCMag => Some(ScheduleParameterKind::PhVPhsCMag),
        ControlType::PpvPhsAbAng => Some(ScheduleParameterKind::PpvPhsAbAng),
        ControlType::PpvPhsAbMag => Some(ScheduleParameterKind::PpvPhsAbMag),
        ControlType::PpvPhsBcAng => Some(ScheduleParameterKind::PpvPhsBcAng),
        ControlType::PpvPhsBcMag => Some(ScheduleParameterKind::PpvPhsBcMag),
        ControlType::PpvPhsCaAng => Some(ScheduleParameterKind::PpvPhsCaAng),
        ControlType::PpvPhsCaMag => Some(ScheduleParameterKind::PpvPhsCaMag),
        ControlType::VaNetMag => Some(ScheduleParameterKind::VaNetMag),
        ControlType::VaNeutMag => Some(ScheduleParameterKind::VaNeutMag),
        ControlType::VaPhsAMag => Some(ScheduleParameterKind::VaPhsAMag),
        ControlType::VaPhsBMag => Some(ScheduleParameterKind::VaPhsBMag),
        ControlType::VaPhsCMag => Some(ScheduleParameterKind::VaPhsCMag),
        ControlType::VArNetMag => Some(ScheduleParameterKind::VArNetMag),
        ControlType::VArNeutMag => Some(ScheduleParameterKind::VArNeutMag),
        ControlType::VArPhsAMag => Some(ScheduleParameterKind::VArPhsAMag),
        ControlType::VArPhsBMag => Some(ScheduleParameterKind::VArPhsBMag),
        ControlType::VArPhsCMag => Some(ScheduleParameterKind::VArPhsCMag),
        ControlType::WNetMag => Some(ScheduleParameterKind::WNetMag),
        ControlType::WNeutMag => Some(ScheduleParameterKind::WNeutMag),
        ControlType::WPhsAMag => Some(ScheduleParameterKind::WPhsAMag),
        ControlType::WPhsBMag => Some(ScheduleParameterKind::WPhsBMag),
        ControlType::WPhsCMag => Some(ScheduleParameterKind::WPhsCMag),
        _ => None,
    }
}

/// The schedule parameter a control command sets, where `SetVarNetMag` and
/// `SetWNetMag` stand for `VArNetMag` and `WNetMag`.
pub open spec fn schedule_kind(c: ControlType) -> Option<ScheduleParameterKind> {
    match c {
        ControlType::SetVarNetMag => Some(ScheduleParameterKind::VArNetMag),
        ControlType::SetWNetMag => Some(ScheduleParameterKind::WNetMag),
        _ => direct_schedule_kind(c),
    }
}

/// The command sent under a name, if any.
pub open spec fn control_named(name: Seq<char>) -> Option<ControlType> {
    if name == "Open"@ {
        Some(ControlType::Open)
    } else if name == "Close"@ {
        Some(ControlType::Close)
    } else if name == "ResetBreaker"@ {
        Some(ControlType::ResetBreaker)
    } else if name == "SetModBlkOn"@ {
        Some(ControlType::SetModBlkOn)
    } else if name == "SetModBlkOff"@ {
        Some(ControlType::SetModBlkOff)
    } else if name == "SetValue"@ {
        Some(ControlType::SetValue)
    } else if name == "SetVarNetMag"@ {
        Some(ControlType::SetVarNetMag)
    } else if name == "SetWNetMag"@ {
        Some(ControlType::SetWNetMag)
    } else if name == "ResetEss"@ {
        Some(ControlType::ResetEss)
    } else if name == "ResetSolar"@ {
        Some(ControlType::ResetSolar)
    } else if name == "ResetLoad"@ {
        Some(ControlType::ResetLoad)
    } else if name == "StateOn"@ {
        Some(ControlType::StateOn)
    } else if name == "StateOff"@ {
        Some(ControlType::StateOff)
    } else if name == "SetGgioValueAnalog"@ {
        Some(ControlType::SetGgioValueAnalog)
    } else if name == "SetGgioValueInteger"@ {
        Some(ControlType::SetGgioValueInteger)
    } else if name == "SetGgioValueBool"@ {
        Some(ControlType::SetGgioValueBool)
    } else if name == "StartTransaction"@ {
        Some(ControlType::StartTransaction)
    } else if name == "StopTransaction"@ {
        Some(ControlType::StopTransaction)
    } else if name == "TapChangeLowerPhs3"@ {
        Some(ControlType::TapChangeLowerPhs3)
    } else if name == "TapChangeRaisePhs3"@ {
        Some(ControlType::TapChangeRaisePhs3)
    } else if name == "TapChangeLowerPhsA"@ {
        Some(ControlType::TapChangeLowerPhsA)
    } else if name == "TapChangeRaisePhsA"@ {
        Some(ControlType::TapChangeRaisePhsA)
    } else if name == "TapChangeLowerPhsB"@ {
        Some(ControlType::TapChangeLowerPhsB)
    } else if name == "TapChangeRaisePhsB"@ {
        Some(ControlType::TapChangeRaisePhsB)
    } else if name == "TapChangeLowerPhsC"@ {
        Some(ControlType::TapChangeLowerPhsC)
    } else if name == "TapChangeRaisePhsC"@ {
        Some(ControlType::TapChangeRaisePhsC)
    } else if name == "BlackStartEnable"@ {
        Some(ControlType::BlackStartEnable)
    } else if name == "BlackStartDisable"@ {
        Some(ControlType::BlackStartDisable)
    } else if name == "TransToIslandOnGridLossEnable"@ {
        Some(ControlType::TransToIslandOnGridLossEnable)
    } else if name == "TransToIslandOnGridLossDisable"@ {
        Some(ControlType::TransToIslandOnGridLossDisable)
    } else if name == "SetStateKindUndefined"@ {
        Some(ControlType::SetStateKindUndefined)
    } else if name == "SetStateKindOff"@ {
        Some(ControlType::SetStateKindOff)
    } else if name == "SetStateKindOn"@ {
        Some(ControlType::SetStateKindOn)
    } else if name == "SetStateKindStandBy"@ {
        Some(ControlType::SetStateKindStandBy)
    } else if name == "FrequencySetPointEnable"@ {
        Some(ControlType::FrequencySetPointEnable)
    } else if name == "FrequencySetPointDisable"@ {
        Some(ControlType::FrequencySetPointDisable)
    } else if name == "ReactivePowerSetPointEnable"@ {
        Some(ControlType::ReactivePowerSetPointEnable)
    } else if name == "ReactivePowerSetPointDisable"@ {
        Some(ControlType::ReactivePowerSetPointDisable)
    } else if name == "RealPowerSetPointEnable"@ {
        Some(ControlType::RealPowerSetPointEnable)
    } else if name == "RealPowerSetPointDisable"@ {
        Some(ControlType::RealPowerSetPointDisable)
    } else if name == "VoltageSetPointEnable"@ {
        Some(ControlType::VoltageSetPointEnable)
    } else if name == "VoltageSetPointDisable"@ {
        Some(ControlType::VoltageSetPointDisable)
    } else if name == "ANetMag"@ {
        Some(ControlType::ANetMag)
    } else if name == "ANeutMag"@ {
        Some(ControlType::ANeutMag)
    } else if name == "APhsAMag"@ {
        Some(ControlType::APhsAMag)
    } else if name == "APhsBMag"@ {
        Some(ControlType::APhsBMag)
    } else if name == "APhsCMag"@ {
        Some(ControlType::APhsCMag)
    } else if name == "HzMag"@ {
        Some(ControlType::HzMag)
    } else if name == "PfNetMag"@ {
        Some(ControlType::PfNetMag)
    } else if name == "PfNeutMag"@ {
        Some(ControlType::PfNeutMag)
    } else if name == "PfPhsAMag"@ {
        Some(ControlType::PfPhsAMag)
    } else if name == "PfPhsBMag"@ {
        Some(ControlType::PfPhsBMag)
    } else if name == "PfPhsCMag"@ {
        Some(ControlType::PfPhsCMag)
    } else if name == "PhVNetAng"@ {
        Some(ControlType::PhVNetAng)
    } else if name == "PhVNetMag"@ {
        Some(ControlType::PhVNetMag)
    } else if name == "PhVNeutAng"@ {
        Some(ControlType::PhVNeutAng)
    } else if name == "PhVNeutMag"@ {
        Some(ControlType::PhVNeutMag)
    } else if name == "PhVPhsAAng"@ {
        Some(ControlType::PhVPhsAAng)
    } else if name == "PhVPhsAMag"@ {
        Some(ControlType::PhVPhsAMag)
    } else if name == "PhVPhsBAng"@ {
        Some(ControlType::PhVPhsBAng)
    } else if name == "PhVPhsBMag"@ {
        Some(ControlType::PhVPhsBMag)
    } else if name == "PhVPhsCAng"@ {
        Some(ControlType::PhVPhsCAng)
    } else if name == "PhVPhsCMag"@ {
        Some(ControlType::PhVPhsCMag)
    } else if name == "PpvPhsAbAng"@ {
        Some(ControlType::PpvPhsAbAng)
    } else if name == "PpvPhsAbMag"@ {
        Some(ControlType::PpvPhsAbMag)
    } else if name == "PpvPhsBcAng"@ {
        Some(ControlType::PpvPhsBcAng)
    } else if name == "PpvPhsBcMag"@ {
        Some(ControlType::PpvPhsBcMag)
    } else if name == "PpvPhsCaAng"@ {
        Some(ControlType::PpvPhsCaAng)
    } else if name == "PpvPhsCaMag"@ {
        Some(ControlType::PpvPhsCaMag)
    } else if name == "VaNetMag"@ {
        Some(ControlType::VaNetMag)
    } else if name == "VaNeutMag"@ {
        Some(ControlType::VaNeutMag)
    } else if name == "VaPhsAMag"@ {
        Some(ControlType::VaPhsAMag)
    } else if name == "VaPhsBMag"@ {
        Some(ControlType::VaPhsBMag)
    } else if name == "VaPhsCMag"@ {
        Some(ControlType::VaPhsCMag)
    } else if name == "VArNetMag"@ {
        Some(ControlType::VArNetMag)
    } else if name == "VArNeutMag"@ {
        Some(ControlType::VArNeutMag)
    } else if name == "VArPhsAMag"@ {
        Some(ControlType::VArPhsAMag)
    } else if name == "VArPhsBMag"@ {
        Some(ControlType::VArPhsBMag)
    } else if name == "VArPhsCMag"@ {
        Some(ControlType::VArPhsCMag)
    } else if name == "WNetMag"@ {
        Some(ControlType::WNetMag)
    } else if name == "WNeutMag"@ {
        Some(ControlType::WNeutMag)
    } else if name == "WPhsAMag"@ {
        Some(ControlType::WPhsAMag)
    } else if name == "WPhsBMag"@ {
        Some(ControlType::WPhsBMag)
    } else if name == "WPhsCMag"@ {
        Some(ControlType::WPhsCMag)
    } else {
        None
    }
}

impl ControlType {
    /// The command sent under `name`, if any.
    pub fn from_name(name: &str) -> (r: Option<ControlType>)
        ensures
            r == control_named(name@),
            r matches Some(c) ==> control_type_name(c) == name@,
    {
        if str_eq(name, "Open") {
            return Some(ControlType::Open);
        }
        if str_eq(name, "Close") {
            return Some(ControlType::Close);
        }
        if str_eq(name, "ResetBreaker") {
            return Some(ControlType::ResetBreaker);
        }
        if str_eq(name, "SetModBlkOn") {
            return Some(ControlType::SetModBlkOn);
        }
        if str_eq(name, "SetModBlkOff") {
            return Some(ControlType::SetModBlkOff);
        }
        if str_eq(name, "SetValue") {
            return Some(ControlType::SetValue);
        }
        if str_eq(name, "SetVarNetMag") {
            return Some(ControlType::SetVarNetMag);
        }
        if str_eq(name, "SetWNetMag") {
            return Some(ControlType::SetWNetMag);
        }
        if str_eq(name, "ResetEss") {
            return Some(ControlType::ResetEss);
        }
        if str_eq(name, "ResetSolar") {
            return Some(ControlType::ResetSolar);
        }
        if str_eq(name, "ResetLoad") {
            return Some(ControlType::ResetLoad);
        }
        if str_eq(name, "StateOn") {
            return Some(ControlType::StateOn);
        }
        if str_eq(name, "StateOff") {
            return Some(ControlType::StateOff);
        }
        if str_eq(name, "SetGgioValueAnalog") {
            return Some(ControlType::SetGgioValueAnalog);
        }
        if str_eq(name, "SetGgioValueInteger") {
            return Some(ControlType::SetGgioValueInteger);
        }
        if str_eq(name, "SetGgioValueBool") {
            return Some(ControlType::SetGgioValueBool);
        }
        if str_eq(name, "StartTransaction") {
            return Some(ControlType::StartTransaction);
        }
        if str_eq(name, "StopTransaction") {
            return Some(ControlType::StopTransaction);
        }
        if str_eq(name, "TapChangeLowerPhs3") {
            return Some(ControlType::TapChangeLowerPhs3);
        }
        if str_eq(name, "TapChangeRaisePhs3") {
            return Some(ControlType::TapChangeRaisePhs3);
        }
        if str_eq(name, "TapChangeLowerPhsA") {
            return Some(ControlType::TapChangeLowerPhsA);
        }
        if str_eq(name, "TapChangeRaisePhsA") {
            return Some(ControlType::TapChangeRaisePhsA);
        }
        if str_eq(name, "TapChangeLowerPhsB") {
            return Some(ControlType::TapChangeLowerPhsB);
        }
        if str_eq(name, "TapChangeRaisePhsB") {
            return Some(ControlType::TapChangeRaisePhsB);
        }
        if str_eq(name, "TapChangeLowerPhsC") {
            return Some(ControlType::TapChangeLowerPhsC);
        }
        if str_eq(name, "TapChangeRaisePhsC") {
            return Some(ControlType::TapChangeRaisePhsC);
        }
        if str_eq(name, "BlackStartEnable") {
            return Some(ControlType::BlackStartEnable);
        }
        if str_eq(name, "BlackStartDisable") {
            return Some(ControlType::BlackStartDisable);
        }
        if str_eq(name, "TransToIslandOnGridLossEnable") {
            return Some(ControlType::TransToIslandOnGridLossEnable);
        }
        if str_eq(name, "TransToIslandOnGridLossDisable") {
            return Some(ControlType::TransToIslandOnGridLossDisable);
        }
        if str_eq(name, "SetStateKindUndefined") {
            return Some(ControlType::SetStateKindUndefined);
        }
        if str_eq(name, "SetStateKindOff") {
            return Some(ControlType::SetStateKindOff);
        }
        if str_eq(name, "SetStateKindOn") {
            return Some(ControlType::SetStateKindOn);
        }
        if str_eq(name, "SetStateKindStandBy") {
            return Some(ControlType::SetStateKindStandBy);
        }
        if str_eq(name, "FrequencySetPointEnable") {
            return Some(ControlType::FrequencySetPointEnable);
        }
        if str_eq(name, "FrequencySetPointDisable") {
            return Some(ControlType::FrequencySetPointDisable);
        }
        if str_eq(name, "ReactivePowerSetPointEnable") {
            return Some(ControlType::ReactivePowerSetPointEnable);
        }
        if str_eq(name, "ReactivePowerSetPointDisable") {
            return Some(ControlType::ReactivePowerSetPointDisable);
        }
        if str_eq(name, "RealPowerSetPointEnable") {
            return Some(ControlType::RealPowerSetPointEnable);
        }
        if str_eq(name, "RealPowerSetPointDisable") {
            return Some(ControlType::RealPowerSetPointDisable);
        }
        if str_eq(name, "VoltageSetPointEnable") {
            return Some(ControlType::VoltageSetPointEnable);
        }
        if str_eq(name, "VoltageSetPointDisable") {
            return Some(ControlType::VoltageSetPointDisable);
        }
        if str_eq(name, "ANetMag") {
            return Some(ControlType::ANetMag);
        }
        if str_eq(name, "ANeutMag") {
            return Some(ControlType::ANeutMag);
        }
        if str_eq(name, "APhsAMag") {
            return Some(ControlType::APhsAMag);
        }
        if str_eq(name, "APhsBMag") {
            return Some(ControlType::APhsBMag);
        }
        if str_eq(name, "APhsCMag") {
            return Some(ControlType::APhsCMag);
        }
        if str_eq(name, "HzMag") {
            return Some(ControlType::HzMag);
        }
        if str_eq(name, "PfNetMag") {
            return Some(ControlType::PfNetMag);
        }
        if str_eq(name, "PfNeutMag") {
            return Some(ControlType::PfNeutMag);
        }
        if str_eq(name, "PfPhsAMag") {
            return Some(ControlType::PfPhsAMag);
        }
        if str_eq(name, "PfPhsBMag") {
            return Some(ControlType::PfPhsBMag);
        }
        if str_eq(name, "PfPhsCMag") {
            return Some(ControlType::PfPhsCMag);
        }
        if str_eq(name, "PhVNetAng") {
            return Some(ControlType::PhVNetAng);
        }
        if str_eq(name, "PhVNetMag") {
            return Some(ControlType::PhVNetMag);
        }
        if str_eq(name, "PhVNeutAng") {
            return Some(ControlType::PhVNeutAng);
        }
        if str_eq(name, "PhVNeutMag") {
            return Some(ControlType::PhVNeutMag);
        }
        if str_eq(name, "PhVPhsAAng") {
            return Some(ControlType::PhVPhsAAng);
        }
        if str_eq(name, "PhVPhsAMag") {
            return Some(ControlType::PhVPhsAMag);
        }
        if str_eq(name, "PhVPhsBAng") {
            return Some(ControlType::PhVPhsBAng);
        }
        if str_eq(name, "PhVPhsBMag") {
            return Some(ControlType::PhVPhsBMag);
        }
        if str_eq(name, "PhVPhsCAng") {
            return Some(ControlType::PhVPhsCAng);
        }
        if str_eq(name, "PhVPhsCMag") {
            return Some(ControlType::PhVPhsCMag);
        }
        if str_eq(name, "PpvPhsAbAng") {
            return Some(ControlType::PpvPhsAbAng);
        }
        if str_eq(name, "PpvPhsAbMag") {
            return Some(ControlType::PpvPhsAbMag);
        }
        if str_eq(name, "PpvPhsBcAng") {
            return Some(ControlType::PpvPhsBcAng);
        }
        if str_eq(name, "PpvPhsBcMag") {
            return Some(ControlType::PpvPhsBcMag);
        }
        if str_eq(name, "PpvPhsCaAng") {
            return Some(ControlType::PpvPhsCaAng);
        }
        if str_eq(name, "PpvPhsCaMag") {
            return Some(ControlType::PpvPhsCaMag);
        }
        if str_eq(name, "VaNetMag") {
            return Some(ControlType::VaNetMag);
        }
        if str_eq(name, "VaNeutMag") {
            return Some(ControlType::VaNeutMag);
        }
        if str_eq(name, "VaPhsAMag") {
            return Some(ControlType::VaPhsAMag);
        }
        if str_eq(name, "VaPhsBMag") {
            return Some(ControlType::VaPhsBMag);
        }
        if str_eq(name, "VaPhsCMag") {
            return Some(ControlType::VaPhsCMag);
        }
        if str_eq(name, "VArNetMag") {
            return Some(ControlType::VArNetMag);
        }
        if str_eq(name, "VArNeutMag") {
            return Some(ControlType::VArNeutMag);
        }
        if str_eq(name, "VArPhsAMag") {
            return Some(ControlType::VArPhsAMag);
        }
        if str_eq(name, "VArPhsBMag") {
            return Some(ControlType::VArPhsBMag);
        }
        if str_eq(name, "VArPhsCMag") {
            return Some(ControlType::VArPhsCMag);
        }
        if str_eq(name, "WNetMag") {
            return Some(ControlType::WNetMag);
        }
        if str_eq(name, "WNeutMag") {
            return Some(ControlType::WNeutMag);
        }
        if str_eq(name, "WPhsAMag") {
            return Some(ControlType::WPhsAMag);
        }
        if str_eq(name, "WPhsBMag") {
            return Some(ControlType::WPhsBMag);
        }
        if str_eq(name, "WPhsCMag") {
            return Some(ControlType::WPhsCMag);
        }
        None
    }

    /// The schedule parameter of the same name, if any.
    pub fn direct_schedule_kind(&self) -> (r: Option<ScheduleParameterKind>)
        ensures
            r == direct_schedule_kind(*self),
    {
        match self {
            ControlType::ANetMag => Some(ScheduleParameterKind::ANetMag),
            ControlType::ANeutMag => Some(ScheduleParameterKind::ANeutMag),
            ControlType::APhsAMag => Some(ScheduleParameterKind::APhsAMag),
            ControlType::APhsBMag => Some(ScheduleParameterKind::APhsBMag),
            ControlType::APhsCMag => Some(ScheduleParameterKind::APhsCMag),
            ControlType::HzMag => Some(ScheduleParameterKind::HzMag),
            ControlType::PfNetMag => Some(ScheduleParameterKind::PfNetMag),
            ControlType::PfNeutMag => Some(ScheduleParameterKind::PfNeutMag),
            ControlType::PfPhsAMag => Some(ScheduleParameterKind::PfPhsAMag),
            ControlType::PfPhsBMag => Some(ScheduleParameterKind::PfPhsBMag),
            ControlType::PfPhsCMag => Some(ScheduleParameterKind::PfPhsCMag),
            ControlType::PhVNetAng => Some(ScheduleParameterKind::PhVNetAng),
            ControlType::PhVNetMag => Some(ScheduleParameterKind::PhVNetMag),
            ControlType::PhVNeutAng => Some(ScheduleParameterKind::PhVNeutAng),
            ControlType::PhVNeutMag => Some(ScheduleParameterKind::PhVNeutMag),
            ControlType::PhVPhsAAng => Some(ScheduleParameterKind::PhVPhsAAng),
            ControlType::PhVPhsAMag => Some(ScheduleParameterKind::PhVPhsAMag),
            ControlType::PhVPhsBAng => Some(ScheduleParameterKind::PhVPhsBAng),
            ControlType::PhVPhsBMag => Some(ScheduleParameterKind::PhVPhsBMag),
            ControlType::PhVPhsCAng => Some(ScheduleParameterKind::PhVPhsCAng),
            ControlType::PhVPhsCMag => Some(ScheduleParameterKind::PhVPhsCMag),
            ControlType::PpvPhsAbAng => Some(ScheduleParameterKind::PpvPhsAbAng),
            ControlType::PpvPhsAbMag => Some(ScheduleParameterKind::PpvPhsAbMag),
            ControlType::PpvPhsBcAng => Some(ScheduleParameterKind::PpvPhsBcAng),
            ControlType::PpvPhsBcMag => Some(ScheduleParameterKind::PpvPhsBcMag),
            ControlType::PpvPhsCaAng => Some(ScheduleParameterKind::PpvPhsCaAng),
            ControlType::PpvPhsCaMag => Some(ScheduleParameterKind::PpvPhsCaMag),
            ControlType::VaNetMag => Some(ScheduleParameterKind::VaNetMag),
            ControlType::VaNeutMag => Some(ScheduleParameterKind::VaNeutMag),
            ControlType::VaPhsAMag => Some(ScheduleParameterKind::VaPhsAMag),
            ControlType::VaPhsBMag => Some(ScheduleParameterKind::VaPhsBMag),
            ControlType::VaPhsCMag => Some(ScheduleParameterKind::VaPhsCMag),
            ControlType::VArNetMag => Some(ScheduleParameterKind::VArNetMag),
            ControlType::VArNeutMag => Some(ScheduleParameterKind::VArNeutMag),
            ControlType::VArPhsAMag => Some(ScheduleParameterKind::VArPhsAMag),
            ControlType::VArPhsBMag => Some(ScheduleParameterKind::VArPhsBMag),
            ControlType::VArPhsCMag => Some(ScheduleParameterKind::VArPhsCMag),
            ControlType::WNetMag => Some(ScheduleParameterKind::WNetMag),
            ControlType::WNeutMag => Some(ScheduleParameterKind::WNeutMag),
            ControlType::WPhsAMag => Some(ScheduleParameterKind::WPhsAMag),
            ControlType::WPhsBMag => Some(ScheduleParameterKind::WPhsBMag),
            ControlType::WPhsCMag => Some(ScheduleParameterKind::WPhsCMag),
            _ => None,
        }
    }

    /// The schedule parameter this command sets, counting the
    /// `SetVarNetMag` and `SetWNetMag` aliases.
    pub fn schedule_kind(&self) -> (r: Option<ScheduleParameterKind>)
        ensures
            r == schedule_kind(*self),
    {
        match self {
            ControlType::SetVarNetMag => Some(ScheduleParameterKind::VArNetMag),
            ControlType::SetWNetMag => Some(ScheduleParameterKind::WNetMag),
            _ => self.direct_schedule_kind(),
        }
    }
}

} // verus!
