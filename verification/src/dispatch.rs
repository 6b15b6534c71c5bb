//! What the HMI does with the data updates its clients send, and the status
//! updates it sends them.

use vstd::prelude::*;

use crate::control::GenericControl;
use crate::control_type::{control_named, ControlType};
use crate::coordinator::CoordinatorStatus;
use crate::flatten::{DataValue, DataValueView};
use crate::text::{owned, str_eq, view_opt};
use crate::updates::{Topic, TopicView, UpdateMessage, UpdateMessages, UpdateView, update_views};

verus! {

/// What a data update from a client asks for.
pub enum UpdateRoute {
    /// Switch the coordinator between its environments, for all sessions.
    ToggleEnvironment,
    /// A microgrid control, named by the topic.
    MicrogridControl(String),
    /// A device control, named by the topic.
    DeviceControl(String),
    /// A generic control of a device.
    Generic(GenericControl),
    /// The topic's action names no control.
    UnknownAction(String),
    /// Neither the topic nor its action names a control.
    UnknownCommand,
}

/// Whether a route is a generic control of `text`'s command `c` for device
/// `mrid` with argument `args`, naming no profile.
pub open spec fn is_generic(
    r: UpdateRoute,
    text: Seq<char>,
    c: ControlType,
    mrid: Seq<char>,
    args: Option<u64>,
) -> bool {
    r matches UpdateRoute::Generic(g) && g.text@ == text && g.message == c && g.mrid@ == mrid
        && g.profile_name is None && g.args == args && g.args2 is None
}

/// How a data update is routed: the `ToggleEnvironment` topic toggles the
/// environment; else a topic that names a microgrid control, a device
/// control or a generic control (in that order) is that control; else the
/// topic's action, if it names a generic control, is that control.
/// `is_microgrid_control` and `is_device_control` say whether the topic's
/// name parses as a microgrid or a device control.
pub fn route_update(update: &UpdateMessage, is_microgrid_control: bool, is_device_control: bool) -> (r:
    UpdateRoute)
    ensures
        ({
            let t = update.topic@;
            if t.name == "ToggleEnvironment"@ {
                r is ToggleEnvironment
            } else if is_microgrid_control {
                r matches UpdateRoute::MicrogridControl(n) && n@ == t.name
            } else if is_device_control {
                r matches UpdateRoute::DeviceControl(n) && n@ == t.name
            } else if control_named(t.name) is Some {
                is_generic(r, t.name, control_named(t.name)->0, t.mrid, t.args)
            } else {
                match t.action {
                    Some(a) => if control_named(a) is Some {
                        is_generic(r, t.name, control_named(a)->0, t.mrid, t.args)
                    } else {
                        r matches UpdateRoute::UnknownAction(s) && s@ == a
                    },
                    None => r is UnknownCommand,
                }
            }
        }),
{
    let topic = &update.topic;
    if str_eq(topic.name.as_str(), "ToggleEnvironment") {
        return UpdateRoute::ToggleEnvironment;
    }
    if is_microgrid_control {
        return UpdateRoute::MicrogridControl(topic.name.clone());
    }
    if is_device_control {
        return UpdateRoute::DeviceControl(topic.name.clone());
    }
    match ControlType::from_name(topic.name.as_str()) {
        Some(c) => {
            return UpdateRoute::Generic(
                GenericControl {
                    text: topic.name.clone(),
                    message: c,
                    mrid: topic.mrid.clone(),
                    profile_name: None,
                    args: topic.args,
                    args2: None,
                },
            );
        },
        None => {},
    }
    match &topic.action {
        Some(action) => match ControlType::from_name(action.as_str()) {
            Some(c) => {
                UpdateRoute::Generic(
                    GenericControl {
                        text: topic.name.clone(),
                        message: c,
                        mrid: topic.mrid.clone(),
                        profile_name: None,
                        args: topic.args,
                        args2: None,
                    },
                )
            },
            None => UpdateRoute::UnknownAction(action.clone()),
        },
        None => UpdateRoute::UnknownCommand,
    }
}

/// The bits of the `f64` that holds the numeric code of an environment.
pub open spec fn environment_code_bits(code: i32) -> u64 {
    if code == 0 {
        0u64
    } else {
        0x3FF0_0000_0000_0000u64
    }
}

/// A status point for every session.
pub open spec fn status_point(name: Seq<char>, mrid: Seq<char>, value: DataValueView) -> UpdateView {
    UpdateView {
        profile: None,
        session_id: None,
        topic: TopicView { name, mrid, value: Some(value), action: None, args: None },
    }
}

/// The status updates sent to every session: whether the broker is
/// connected, the environment's code (as a number), and whether the
/// coordinator is active, each for the server's id.
pub open spec fn status_points(s: crate::coordinator::CoordinatorStatusView) -> Seq<UpdateView> {
    seq![
        status_point("hmi.pubsub.status.connected"@, s.server_id, DataValueView::Bool(s.connected)),
        status_point(
            "hmi.pubsub.status.environment"@,
            s.server_id,
            DataValueView::Double(environment_code_bits(s.env.spec_code())),
        ),
        status_point(
            "hmi.coordinator.active"@,
            s.server_id,
            DataValueView::Bool(s.coordinator_active),
        ),
    ]
}

fn status_update(name: &str, mrid: &String, value: DataValue) -> (r: UpdateMessage)
    ensures
        r@ == status_point(name@, mrid@, value@),
{
    UpdateMessage {
        profile: None,
        session_id: None,
        topic: Topic { name: owned(name), mrid: mrid.clone(), value: Some(value), action: None, args: None },
    }
}

/// The status updates to send to every session.
pub fn status_updates(status: &CoordinatorStatus) -> (r: UpdateMessages)
    ensures
        update_views(r.updates@) == status_points(status@),
        r.session_id is None,
{
    let code = status.env.code();
    let bits: u64 = if code == 0 {
        0
    } else {
        0x3FF0_0000_0000_0000
    };
    let updates = vec![
        status_update("hmi.pubsub.status.connected", &status.server_id, DataValue::Bool(status.connected)),
        status_update("hmi.pubsub.status.environment", &status.server_id, DataValue::Double(bits)),
        status_update("hmi.coordinator.active", &status.server_id, DataValue::Bool(status.coordinator_active)),
    ];
    proof {
        assert(update_views(updates@) =~= status_points(status@));
    }
    UpdateMessages { updates, session_id: None }
}

} // verus!
