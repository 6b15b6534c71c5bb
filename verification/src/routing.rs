//! Routing of OpenFMB messages: the profile group a message belongs to,
//! which messages the HMI republishes and on which subject, and which carry
//! the device data that clients watch.

use vstd::prelude::*;

use crate::text::{concat3, first_token, first_token_of, str_eq};

verus! {

/// The kind of an OpenFMB message.
#[derive(Clone, Copy, Debug, PartialEq, Eq, Structural)]
pub enum MessageKind {
    BreakerDiscreteControl,
    BreakerEvent,
    BreakerReading,
    BreakerStatus,
    CapBankControl,
    CapBankDiscreteControl,
    CapBankEvent,
    CapBankReading,
    CapBankStatus,
    CircuitSegmentControl,
    CircuitSegmentEvent,
    CircuitSegmentStatus,
    ESSEvent,
    ESSReading,
    ESSStatus,
    ESSControl,
    ESSDiscreteControl,
    ESSCapability,
    ESSCapabilityOverride,
    GenerationControl,
    GenerationDiscreteControl,
    GenerationReading,
    GenerationEvent,
    GenerationStatus,
    GenerationCapability,
    GenerationCapabilityOverride,
    LoadControl,
    LoadEvent,
    LoadReading,
    LoadStatus,
    MeterReading,
    RecloserDiscreteControl,
    RecloserEvent,
    RecloserReading,
    RecloserStatus,
    RegulatorControl,
    RegulatorDiscreteControl,
    RegulatorEvent,
    RegulatorReading,
    RegulatorStatus,
    ResourceDiscreteControl,
    ResourceReading,
    ResourceEvent,
    ResourceStatus,
    SolarControl,
    SolarDiscreteControl,
    SolarCapability,
    SolarCapabilityOverride,
    SolarEvent,
    SolarReading,
    SolarStatus,
    SwitchDiscreteControl,
    SwitchEvent,
    SwitchReading,
    SwitchStatus,
    CoordinationEvent,
    CoordinationStatus,
}

/// The group of OpenFMB profiles that a message belongs to; each group has
/// one subscriber.
#[derive(Clone, Copy, Debug, PartialEq, Eq, Structural)]
pub enum ProfileGroup {
    Breaker,
    CapBank,
    CircuitSegmentService,
    CoordinationService,
    ESS,
    Generation,
    Load,
    Meter,
    Recloser,
    Regulator,
    Resource,
    Solar,
    Switch,
}

/// The profile group of a message kind.
pub open spec fn profile_group(k: MessageKind) -> ProfileGroup {
    match k {
        MessageKind::BreakerDiscreteControl => ProfileGroup::Breaker,
        MessageKind::BreakerEvent => ProfileGroup::Breaker,
        MessageKind::BreakerReading => ProfileGroup::Breaker,
        MessageKind::BreakerStatus => ProfileGroup::Breaker,
        MessageKind::CapBankControl => ProfileGroup::CapBank,
        MessageKind::CapBankDiscreteControl => ProfileGroup::CapBank,
        MessageKind::CapBankEvent => ProfileGroup::CapBank,
        MessageKind::CapBankReading => ProfileGroup::CapBank,
        MessageKind::CapBankStatus => ProfileGroup::CapBank,
        MessageKind::CircuitSegmentControl => ProfileGroup::CircuitSegmentService,
        MessageKind::CircuitSegmentEvent => ProfileGroup::CircuitSegmentService,
        MessageKind::CircuitSegmentStatus => ProfileGroup::CircuitSegmentService,
        MessageKind::ESSEvent => ProfileGroup::ESS,
        MessageKind::ESSReading => ProfileGroup::ESS,
        MessageKind::ESSStatus => ProfileGroup::ESS,
        MessageKind::ESSControl => ProfileGroup::ESS,
        MessageKind::ESSDiscreteControl => ProfileGroup::ESS,
        MessageKind::ESSCapability => ProfileGroup::ESS,
        MessageKind::ESSCapabilityOverride => ProfileGroup::ESS,
        MessageKind::GenerationControl => ProfileGroup::Generation,
        MessageKind::GenerationDiscreteControl => ProfileGroup::Generation,
        MessageKind::GenerationReading => ProfileGroup::Generation,
        MessageKind::GenerationEvent => ProfileGroup::Generation,
        MessageKind::GenerationStatus => ProfileGroup::Generation,
        MessageKind::GenerationCapability => ProfileGroup::Generation,
        MessageKind::GenerationCapabilityOverride => ProfileGroup::Generation,
        MessageKind::LoadControl => ProfileGroup::Load,
        MessageKind::LoadEvent => ProfileGroup::Load,
        MessageKind::LoadReading => ProfileGroup::Load,
        MessageKind::LoadStatus => ProfileGroup::Load,
        MessageKind::MeterReading => ProfileGroup::Meter,
        MessageKind::RecloserDiscreteControl => ProfileGroup::Recloser,
        MessageKind::RecloserEvent => ProfileGroup::Recloser,
        MessageKind::RecloserReading => ProfileGroup::Recloser,
        MessageKind::RecloserStatus => ProfileGroup::Recloser,
        MessageKind::RegulatorControl => ProfileGroup::Regulator,
        MessageKind::RegulatorDiscreteControl => ProfileGroup::Regulator,
        MessageKind::RegulatorEvent => ProfileGroup::Regulator,
        MessageKind::RegulatorReading => ProfileGroup::Regulator,
        MessageKind::RegulatorStatus => ProfileGroup::Regulator,
        MessageKind::ResourceDiscreteControl => ProfileGroup::Resource,
        MessageKind::ResourceReading => ProfileGroup::Resource,
        MessageKind::ResourceEvent => ProfileGroup::Resource,
        MessageKind::ResourceStatus => ProfileGroup::Resource,
        MessageKind::SolarControl => ProfileGroup::Solar,
        MessageKind::SolarDiscreteControl => ProfileGroup::Solar,
        MessageKind::SolarCapability => ProfileGroup::Solar,
        MessageKind::SolarCapabilityOverride => ProfileGroup::Solar,
        MessageKind::SolarEvent => ProfileGroup::Solar,
        MessageKind::SolarReading => ProfileGroup::Solar,
        MessageKind::SolarStatus => ProfileGroup::Solar,
        MessageKind::SwitchDiscreteControl => ProfileGroup::Switch,
        MessageKind::SwitchEvent => ProfileGroup::Switch,
        MessageKind::SwitchReading => ProfileGroup::Switch,
        MessageKind::SwitchStatus => ProfileGroup::Switch,
        MessageKind::CoordinationEvent => ProfileGroup::CoordinationService,
        MessageKind::CoordinationStatus => ProfileGroup::CoordinationService,
    }
}

/// Whether the HMI republishes messages of this kind.
pub open spec fn is_published(k: MessageKind) -> bool {
    match k {
        MessageKind::BreakerDiscreteControl
        | MessageKind::BreakerEvent
        | MessageKind::BreakerReading
        | MessageKind::BreakerStatus
        | MessageKind::CapBankControl
        | MessageKind::CapBankDiscreteControl
        | MessageKind::CapBankEvent
        | MessageKind::CapBankReading
        | MessageKind::CapBankStatus
        | MessageKind::CircuitSegmentControl
        | MessageKind::CircuitSegmentEvent
        | MessageKind::CircuitSegmentStatus
        | MessageKind::ESSEvent
        | MessageKind::ESSReading
        | MessageKind::ESSStatus
        | MessageKind::ESSControl
        | MessageKind::GenerationControl
        | MessageKind::GenerationDiscreteControl
        | MessageKind::GenerationReading
        | MessageKind::GenerationEvent
        | MessageKind::GenerationStatus
        | MessageKind::LoadControl
        | MessageKind::LoadEvent
        | MessageKind::LoadReading
        | MessageKind::LoadStatus
        | MessageKind::MeterReading
        | MessageKind::RecloserDiscreteControl
        | MessageKind::RecloserEvent
        | MessageKind::RecloserReading
        | MessageKind::RecloserStatus
        | MessageKind::RegulatorControl
        | MessageKind::RegulatorDiscreteControl
        | MessageKind::RegulatorEvent
        | MessageKind::RegulatorReading
        | MessageKind::RegulatorStatus
        | MessageKind::ResourceDiscreteControl
        | MessageKind::ResourceReading
        | MessageKind::ResourceEvent
        | MessageKind::ResourceStatus
        | MessageKind::SolarControl
        | MessageKind::SolarEvent
        | MessageKind::SolarReading
        | MessageKind::SolarStatus
        | MessageKind::SwitchDiscreteControl
        | MessageKind::SwitchEvent
        | MessageKind::SwitchReading
        | MessageKind::SwitchStatus => true,
        _ => false,
    }
}

/// Whether messages of this kind carry device data that clients watch
/// point by point.
pub open spec fn carries_device_data(k: MessageKind) -> bool {
    match k {
        MessageKind::BreakerEvent
        | MessageKind::BreakerReading
        | MessageKind::BreakerStatus
        | MessageKind::CapBankEvent
        | MessageKind::CapBankReading
        | MessageKind::CapBankStatus
        | MessageKind::CoordinationEvent
        | MessageKind::CoordinationStatus
        | MessageKind::ESSEvent
        | MessageKind::ESSReading
        | MessageKind::ESSStatus
        | MessageKind::GenerationReading
        | MessageKind::GenerationEvent
        | MessageKind::GenerationStatus
        | MessageKind::LoadEvent
        | MessageKind::LoadReading
        | MessageKind::LoadStatus
        | MessageKind::MeterReading
        | MessageKind::RecloserEvent
        | MessageKind::RecloserReading
        | MessageKind::RecloserStatus
        | MessageKind::RegulatorEvent
        | MessageKind::RegulatorReading
        | MessageKind::RegulatorStatus
        | MessageKind::ResourceReading
        | MessageKind::ResourceEvent
        | MessageKind::ResourceStatus
        | MessageKind::SolarEvent
        | MessageKind::SolarReading
        | MessageKind::SolarStatus
        | MessageKind::SwitchEvent
        | MessageKind::SwitchReading
        | MessageKind::SwitchStatus => true,
        _ => false,
    }
}

/// The subject an OpenFMB message is published on, from its module name,
/// its message type and the device's MRID.
pub open spec fn openfmb_subject(module: Seq<char>, message_type: Seq<char>, mrid: Seq<char>) -> Seq<
    char,
> {
    "openfmb."@ + module + "."@ + message_type + "Profile."@ + mrid
}

impl MessageKind {
    /// The profile group of this message kind.
    pub fn profile_group(&self) -> (r: ProfileGroup)
        ensures
            r == profile_group(*self),
    {
        match self {
            MessageKind::BreakerDiscreteControl => ProfileGroup::Breaker,
            MessageKind::BreakerEvent => ProfileGroup::Breaker,
            MessageKind::BreakerReading => ProfileGroup::Breaker,
            MessageKind::BreakerStatus => ProfileGroup::Breaker,
            MessageKind::CapBankControl => ProfileGroup::CapBank,
            MessageKind::CapBankDiscreteControl => ProfileGroup::CapBank,
            MessageKind::CapBankEvent => ProfileGroup::CapBank,
            MessageKind::CapBankReading => ProfileGroup::CapBank,
            MessageKind::CapBankStatus => ProfileGroup::CapBank,
            MessageKind::CircuitSegmentControl => ProfileGroup::CircuitSegmentService,
            MessageKind::CircuitSegmentEvent => ProfileGroup::CircuitSegmentService,
            MessageKind::CircuitSegmentStatus => ProfileGroup::CircuitSegmentService,
            MessageKind::ESSEvent => ProfileGroup::ESS,
            MessageKind::ESSReading => ProfileGroup::ESS,
            MessageKind::ESSStatus => ProfileGroup::ESS,
            MessageKind::ESSControl => ProfileGroup::ESS,
            MessageKind::ESSDiscreteControl => ProfileGroup::ESS,
            MessageKind::ESSCapability => ProfileGroup::ESS,
            MessageKind::ESSCapabilityOverride => ProfileGroup::ESS,
            MessageKind::GenerationControl => ProfileGroup::Generation,
            MessageKind::GenerationDiscreteControl => ProfileGroup::Generation,
            MessageKind::GenerationReading => ProfileGroup::Generation,
            MessageKind::GenerationEvent => ProfileGroup::Generation,
            MessageKind::GenerationStatus => ProfileGroup::Generation,
            MessageKind::GenerationCapability => ProfileGroup::Generation,
            MessageKind::GenerationCapabilityOverride => ProfileGroup::Generation,
            MessageKind::LoadControl => ProfileGroup::Load,
            MessageKind::LoadEvent => ProfileGroup::Load,
            MessageKind::LoadReading => ProfileGroup::Load,
            MessageKind::LoadStatus => ProfileGroup::Load,
            MessageKind::MeterReading => ProfileGroup::Meter,
            MessageKind::RecloserDiscreteControl => ProfileGroup::Recloser,
            MessageKind::RecloserEvent => ProfileGroup::Recloser,
            MessageKind::RecloserReading => ProfileGroup::Recloser,
            MessageKind::RecloserStatus => ProfileGroup::Recloser,
            MessageKind::RegulatorControl => ProfileGroup::Regulator,
            MessageKind::RegulatorDiscreteControl => ProfileGroup::Regulator,
            MessageKind::RegulatorEvent => ProfileGroup::Regulator,
            MessageKind::RegulatorReading => ProfileGroup::Regulator,
            MessageKind::RegulatorStatus => ProfileGroup::Regulator,
            MessageKind::ResourceDiscreteControl => ProfileGroup::Resource,
            MessageKind::ResourceReading => ProfileGroup::Resource,
            MessageKind::ResourceEvent => ProfileGroup::Resource,
            MessageKind::ResourceStatus => ProfileGroup::Resource,
            MessageKind::SolarControl => ProfileGroup::Solar,
            MessageKind::SolarDiscreteControl => ProfileGroup::Solar,
            MessageKind::SolarCapability => ProfileGroup::Solar,
            MessageKind::SolarCapabilityOverride => ProfileGroup::Solar,
            MessageKind::SolarEvent => ProfileGroup::Solar,
            MessageKind::SolarReading => ProfileGroup::Solar,
            MessageKind::SolarStatus => ProfileGroup::Solar,
            MessageKind::SwitchDiscreteControl => ProfileGroup::Switch,
            MessageKind::SwitchEvent => ProfileGroup::Switch,
            MessageKind::SwitchReading => ProfileGroup::Switch,
            MessageKind::SwitchStatus => ProfileGroup::Switch,
            MessageKind::CoordinationEvent => ProfileGroup::CoordinationService,
            MessageKind::CoordinationStatus => ProfileGroup::CoordinationService,
        }
    }

    /// Whether the HMI republishes messages of this kind.
    pub fn is_published(&self) -> (r: bool)
        ensures
            r == is_published(*self),
    {
        match self {
            MessageKind::BreakerDiscreteControl
            | MessageKind::BreakerEvent
            | MessageKind::BreakerReading
            | MessageKind::BreakerStatus
            | MessageKind::CapBankControl
            | MessageKind::CapBankDiscreteControl
            | MessageKind::CapBankEvent
            | MessageKind::CapBankReading
            | MessageKind::CapBankStatus
            | MessageKind::CircuitSegmentControl
            | MessageKind::CircuitSegmentEvent
            | MessageKind::CircuitSegmentStatus
            | MessageKind::ESSEvent
            | MessageKind::ESSReading
            | MessageKind::ESSStatus
            | MessageKind::ESSControl
            | MessageKind::GenerationControl
            | MessageKind::GenerationDiscreteControl
            | MessageKind::GenerationReading
            | MessageKind::GenerationEvent
            | MessageKind::GenerationStatus
            | MessageKind::LoadControl
            | MessageKind::LoadEvent
            | MessageKind::LoadReading
            | MessageKind::LoadStatus
            | MessageKind::MeterReading
            | MessageKind::RecloserDiscreteControl
            | MessageKind::RecloserEvent
            | MessageKind::RecloserReading
            | MessageKind::RecloserStatus
            | MessageKind::RegulatorControl
            | MessageKind::RegulatorDiscreteControl
            | MessageKind::RegulatorEvent
            | MessageKind::RegulatorReading
            | MessageKind::RegulatorStatus
            | MessageKind::ResourceDiscreteControl
            | MessageKind::ResourceReading
            | MessageKind::ResourceEvent
            | MessageKind::ResourceStatus
            | MessageKind::SolarControl
            | MessageKind::SolarEvent
            | MessageKind::SolarReading
            | MessageKind::SolarStatus
            | MessageKind::SwitchDiscreteControl
            | MessageKind::SwitchEvent
            | MessageKind::SwitchReading
            | MessageKind::SwitchStatus => true,
            _ => false,
        }
    }

    /// Whether messages of this kind carry device data that clients watch.
    pub fn carries_device_data(&self) -> (r: bool)
        ensures
            r == carries_device_data(*self),
    {
        match self {
            MessageKind::BreakerEvent
            | MessageKind::BreakerReading
            | MessageKind::BreakerStatus
            | MessageKind::CapBankEvent
            | MessageKind::CapBankReading
            | MessageKind::CapBankStatus
            | MessageKind::CoordinationEvent
            | MessageKind::CoordinationStatus
            | MessageKind::ESSEvent
            | MessageKind::ESSReading
            | MessageKind::ESSStatus
            | MessageKind::GenerationReading
            | MessageKind::GenerationEvent
            | MessageKind::GenerationStatus
            | MessageKind::LoadEvent
            | MessageKind::LoadReading
            | MessageKind::LoadStatus
            | MessageKind::MeterReading
            | MessageKind::RecloserEvent
            | MessageKind::RecloserReading
            | MessageKind::RecloserStatus
            | MessageKind::RegulatorEvent
            | MessageKind::RegulatorReading
            | MessageKind::RegulatorStatus
            | MessageKind::ResourceReading
            | MessageKind::ResourceEvent
            | MessageKind::ResourceStatus
            | MessageKind::SolarEvent
            | MessageKind::SolarReading
            | MessageKind::SolarStatus
            | MessageKind::SwitchEvent
            | MessageKind::SwitchReading
            | MessageKind::SwitchStatus => true,
            _ => false,
        }
    }
}

/// The subject on which an OpenFMB message of kind `kind` is republished,
/// or `None` for a kind that is not republished.
pub fn publication_subject(kind: MessageKind, module: &str, message_type: &str, mrid: &str) -> (r:
    Option<String>)
    ensures
        is_published(kind) ==> (r matches Some(s) && s@ == openfmb_subject(module@, message_type@, mrid@)),
        !is_published(kind) ==> r is None,
{
    if kind.is_published() {
        let profile = concat3(message_type, "Profile.", mrid);
        let subject = concat3("openfmb.", module, ".").concat(profile.as_str());
        proof {
            assert(subject@ =~= openfmb_subject(module@, message_type@, mrid@));
        }
        Some(subject)
    } else {
        None
    }
}

/// Whether a subject is in the OpenFMB namespace: its first part, up to
/// the first dot, is `openfmb`.
pub fn is_openfmb_subject(subject: &str) -> (r: bool)
    ensures
        r == (first_token(subject@, '.') == "openfmb"@),
{
    let first = first_token_of(subject, '.');
    str_eq(first.as_str(), "openfmb")
}

/// The profile a topic name belongs to: its first part, up to the first dot.
pub fn get_profile_name(topic_name: &str) -> (r: String)
    ensures
        r@ == first_token(topic_name@, '.'),
{
    first_token_of(topic_name, '.')
}

/// What a message of some kind is about: a control sent to a device, a
/// device's capabilities, or a report from the device (an event, a reading
/// or a status).
#[derive(Clone, Copy, Debug, PartialEq, Eq, Structural)]
pub enum MessageRole {
    Control,
    Capability,
    Event,
    Reading,
    Status,
}

/// The role of a message kind, as its name ends.
pub open spec fn message_role(k: MessageKind) -> MessageRole {
    match k {
        MessageKind::BreakerDiscreteControl => MessageRole::Control,
        MessageKind::BreakerEvent => MessageRole::Event,
        MessageKind::BreakerReading => MessageRole::Reading,
        MessageKind::BreakerStatus => MessageRole::Status,
        MessageKind::CapBankControl => MessageRole::Control,
        MessageKind::CapBankDiscreteControl => MessageRole::Control,
        MessageKind::CapBankEvent => MessageRole::Event,
        MessageKind::CapBankReading => MessageRole::Reading,
        MessageKind::CapBankStatus => MessageRole::Status,
        MessageKind::CircuitSegmentControl => MessageRole::Control,
        MessageKind::CircuitSegmentEvent => MessageRole::Event,
        MessageKind::CircuitSegmentStatus => MessageRole::Status,
        MessageKind::ESSEvent => MessageRole::Event,
        MessageKind::ESSReading => MessageRole::Reading,
        MessageKind::ESSStatus => MessageRole::Status,
        MessageKind::ESSControl => MessageRole::Control,
        MessageKind::ESSDiscreteControl => MessageRole::Control,
        MessageKind::ESSCapability => MessageRole::Capability,
        MessageKind::ESSCapabilityOverride => MessageRole::Capability,
        MessageKind::GenerationControl => MessageRole::Control,
        MessageKind::GenerationDiscreteControl => MessageRole::Control,
        MessageKind::GenerationReading => MessageRole::Reading,
        MessageKind::GenerationEvent => MessageRole::Event,
        MessageKind::GenerationStatus => MessageRole::Status,
        MessageKind::GenerationCapability => MessageRole::Capability,
        MessageKind::GenerationCapabilityOverride => MessageRole::Capability,
        MessageKind::LoadControl => MessageRole::Control,
        MessageKind::LoadEvent => MessageRole::Event,
        MessageKind::LoadReading => MessageRole::Reading,
        MessageKind::LoadStatus => MessageRole::Status,
        MessageKind::MeterReading => MessageRole::Reading,
        MessageKind::RecloserDiscreteControl => MessageRole::Control,
        MessageKind::RecloserEvent => MessageRole::Event,
        MessageKind::RecloserReading => MessageRole::Reading,
        MessageKind::RecloserStatus => MessageRole::Status,
        MessageKind::RegulatorControl => MessageRole::Control,
        MessageKind::RegulatorDiscreteControl => MessageRole::Control,
        MessageKind::RegulatorEvent => MessageRole::Event,
        MessageKind::RegulatorReading => MessageRole::Reading,
        MessageKind::RegulatorStatus => MessageRole::Status,
        MessageKind::ResourceDiscreteControl => MessageRole::Control,
        MessageKind::ResourceReading => MessageRole::Reading,
        MessageKind::ResourceEvent => MessageRole::Event,
        MessageKind::ResourceStatus => MessageRole::Status,
        MessageKind::SolarControl => MessageRole::Control,
        MessageKind::SolarDiscreteControl => MessageRole::Control,
        MessageKind::SolarCapability => MessageRole::Capability,
        MessageKind::SolarCapabilityOverride => MessageRole::Capability,
        MessageKind::SolarEvent => MessageRole::Event,
        MessageKind::SolarReading => MessageRole::Reading,
        MessageKind::SolarStatus => MessageRole::Status,
        MessageKind::SwitchDiscreteControl => MessageRole::Control,
        MessageKind::SwitchEvent => MessageRole::Event,
        MessageKind::SwitchReading => MessageRole::Reading,
        MessageKind::SwitchStatus => MessageRole::Status,
        MessageKind::CoordinationEvent => MessageRole::Event,
        MessageKind::CoordinationStatus => MessageRole::Status,
    }
}

/// Clients are sent the points of every report a device makes (events,
/// readings and statuses) and of nothing else: no control or capability
/// message carries device data, and every report does, except those of
/// circuit segments, which the HMI does not show point by point.
pub proof fn law_reports_carry_device_data(k: MessageKind)
    ensures
        carries_device_data(k) <==> (match message_role(k) {
            MessageRole::Event | MessageRole::Reading | MessageRole::Status => true,
            _ => false,
        } && profile_group(k) != ProfileGroup::CircuitSegmentService),
{
}

} // verus!
