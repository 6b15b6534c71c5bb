//! Messages passed between the HMI's parts.

use vstd::prelude::*;

verus! {

/// The loaded configuration, as the outside `config` crate holds it.
#[verifier::external_type_specification]
#[verifier::external_body]
pub struct ExConfig(config::Config);

/// The configuration an actor is started with.
pub struct ActorConfig(Box<config::Config>);

/// The kinds of OpenFMB profile the HMI handles.
#[derive(Clone, Copy, Debug, PartialEq, Eq, Hash, Structural)]
pub enum OpenFMBProfileType {
    Breaker,
    CapBank,
    CoordinationService,
    ESS,
    Generation,
    Load,
    Meter,
    Recloser,
    Regulator,
    Resource,
    Solar,
    Switch,
}

} // verus!
