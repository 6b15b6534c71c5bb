//! The keyboard controls of the circuit segment manager's console: each key
//! sends one microgrid or device command.

use vstd::prelude::*;

verus! {

/// A command to the microgrid as a whole.
#[derive(Clone, Copy, Debug, PartialEq, Eq, Structural)]
pub enum MicrogridCommand {
    InitiateGridConnect,
    InitiateIsland,
    ResetDevices,
    EnableNetZero,
    DisableNetZero,
    ReconnectPretestOne,
    ReconnectPretestTwo,
    ReconnectTest,
}

/// A command to one device of the microgrid.
#[derive(Clone, Copy, Debug, PartialEq, Eq, Structural)]
pub enum DeviceCommand {
    EnableSolarInverter,
    DisableSolarInverter,
    EnableLoadbank,
    DisableLoadbank,
    GeneratorOn,
    GeneratorOff,
    EssStart,
    EssDischarge,
    EssSocManage,
    EssSocLimits,
    EssStop,
    SwitchOneClosed,
    SwitchOneOpen,
    SwitchTwoClosed,
    SwitchTwoOpen,
    BreakerThreeClosed,
    BreakerThreeOpen,
    SwitchFourClosed,
    SwitchFourOpen,
}

/// What a key sends.
#[derive(Clone, Copy, Debug, PartialEq, Eq, Structural)]
pub enum KeyCommand {
    Microgrid(MicrogridCommand),
    Device(DeviceCommand),
}

/// The command a key sends, if it is bound.
pub open spec fn key_command(key: char) -> Option<KeyCommand> {
    if key == 'c' {
        Some(KeyCommand::Microgrid(MicrogridCommand::InitiateGridConnect))
    } else if key == 'i' {
        Some(KeyCommand::Microgrid(MicrogridCommand::InitiateIsland))
    } else if key == 'r' {
        Some(KeyCommand::Microgrid(MicrogridCommand::ResetDevices))
    } else if key == '-' {
        Some(KeyCommand::Microgrid(MicrogridCommand::EnableNetZero))
    } else if key == '=' {
        Some(KeyCommand::Microgrid(MicrogridCommand::DisableNetZero))
    } else if key == '1' {
        Some(KeyCommand::Device(DeviceCommand::EnableSolarInverter))
    } else if key == '2' {
        Some(KeyCommand::Device(DeviceCommand::DisableSolarInverter))
    } else if key == '5' {
        Some(KeyCommand::Device(DeviceCommand::EnableLoadbank))
    } else if key == '6' {
        Some(KeyCommand::Device(DeviceCommand::DisableLoadbank))
    } else if key == '3' {
        Some(KeyCommand::Device(DeviceCommand::GeneratorOn))
    } else if key == '4' {
        Some(KeyCommand::Device(DeviceCommand::GeneratorOff))
    } else if key == '7' {
        Some(KeyCommand::Device(DeviceCommand::EssStart))
    } else if key == '8' {
        Some(KeyCommand::Device(DeviceCommand::EssDischarge))
    } else if key == '9' {
        Some(KeyCommand::Device(DeviceCommand::EssSocManage))
    } else if key == '0' {
        Some(KeyCommand::Device(DeviceCommand::EssSocLimits))
    } else if key == '`' {
        Some(KeyCommand::Device(DeviceCommand::EssStop))
    } else if key == 'a' {
        Some(KeyCommand::Device(DeviceCommand::SwitchOneClosed))
    } else if key == 's' {
        Some(KeyCommand::Device(DeviceCommand::SwitchOneOpen))
    } else if key == 'd' {
        Some(KeyCommand::Device(DeviceCommand::SwitchTwoClosed))
    } else if key == 'f' {
        Some(KeyCommand::Device(DeviceCommand::SwitchTwoOpen))
    } else if key == 'g' {
        Some(KeyCommand::Device(DeviceCommand::BreakerThreeClosed))
    } else if key == 'h' {
        Some(KeyCommand::Device(DeviceCommand::BreakerThreeOpen))
    } else if key == 'j' {
        Some(KeyCommand::Device(DeviceCommand::SwitchFourClosed))
    } else if key == 'k' {
        Some(KeyCommand::Device(DeviceCommand::SwitchFourOpen))
    } else if key == 'y' {
        Some(KeyCommand::Microgrid(MicrogridCommand::ReconnectPretestOne))
    } else if key == 'u' {
        Some(KeyCommand::Microgrid(MicrogridCommand::ReconnectPretestTwo))
    } else if key == 'p' {
        Some(KeyCommand::Microgrid(MicrogridCommand::ReconnectTest))
    } else {
        None
    }
}

/// The keys that are bound, in the order they are registered.
pub open spec fn bound_keys() -> Seq<char> {
    seq!['c', 'i', 'r', '-', '=', '1', '2', '5', '6', '3', '4', '7', '8', '9', '0', '`', 'a', 's', 'd', 'f', 'g', 'h', 'j', 'k', 'y', 'u', 'p']
}

/// The command that `key` sends, or `None` for a key that is not bound.
pub fn command_for_key(key: char) -> (r: Option<KeyCommand>)
    ensures
        r == key_command(key),
{
    let c = match key {
        'c' => KeyCommand::Microgrid(MicrogridCommand::InitiateGridConnect),
        'i' => KeyCommand::Microgrid(MicrogridCommand::InitiateIsland),
        'r' => KeyCommand::Microgrid(MicrogridCommand::ResetDevices),
        '-' => KeyCommand::Microgrid(MicrogridCommand::EnableNetZero),
        '=' => KeyCommand::Microgrid(MicrogridCommand::DisableNetZero),
        '1' => KeyCommand::Device(DeviceCommand::EnableSolarInverter),
        '2' => KeyCommand::Device(DeviceCommand::DisableSolarInverter),
        '5' => KeyCommand::Device(DeviceCommand::EnableLoadbank),
        '6' => KeyCommand::Device(DeviceCommand::DisableLoadbank),
        '3' => KeyCommand::Device(DeviceCommand::GeneratorOn),
        '4' => KeyCommand::Device(DeviceCommand::GeneratorOff),
        '7' => KeyCommand::Device(DeviceCommand::EssStart),
        '8' => KeyCommand::Device(DeviceCommand::EssDischarge),
        '9' => KeyCommand::Device(DeviceCommand::EssSocManage),
        '0' => KeyCommand::Device(DeviceCommand::EssSocLimits),
        '`' => KeyCommand::Device(DeviceCommand::EssStop),
        'a' => KeyCommand::Device(DeviceCommand::SwitchOneClosed),
        's' => KeyCommand::Device(DeviceCommand::SwitchOneOpen),
        'd' => KeyCommand::Device(DeviceCommand::SwitchTwoClosed),
        'f' => KeyCommand::Device(DeviceCommand::SwitchTwoOpen),
        'g' => KeyCommand::Device(DeviceCommand::BreakerThreeClosed),
        'h' => KeyCommand::Device(DeviceCommand::BreakerThreeOpen),
        'j' => KeyCommand::Device(DeviceCommand::SwitchFourClosed),
        'k' => KeyCommand::Device(DeviceCommand::SwitchFourOpen),
        'y' => KeyCommand::Microgrid(MicrogridCommand::ReconnectPretestOne),
        'u' => KeyCommand::Microgrid(MicrogridCommand::ReconnectPretestTwo),
        'p' => KeyCommand::Microgrid(MicrogridCommand::ReconnectTest),
        _ => {
            return None;
        },
    };
    Some(c)
}

/// The key bindings, in the order they are registered: each bound key with
/// the command it sends.
pub fn key_bindings() -> (r: Vec<(char, KeyCommand)>)
    ensures
        r@.len() == bound_keys().len(),
        forall|i: int| 0 <= i < r@.len() ==> r@[i].0 == #[trigger] bound_keys()[i] && key_command(r@[i].0) == Some(r@[i].1),
{
    let keys: Vec<char> = vec!['c', 'i', 'r', '-', '=', '1', '2', '5', '6', '3', '4', '7', '8', '9', '0', '`', 'a', 's', 'd', 'f', 'g', 'h', 'j', 'k', 'y', 'u', 'p'];
    let mut out: Vec<(char, KeyCommand)> = Vec::new();
    let n = keys.len();
    assert(keys@ == bound_keys());
    let mut i: usize = 0;
    while i < n
        invariant
            n == keys@.len(),
            keys@ == bound_keys(),
            i <= n,
            out@.len() == i,
            forall|j: int| 0 <= j < i ==> out@[j].0 == #[trigger] bound_keys()[j] && key_command(out@[j].0) == Some(out@[j].1),
        decreases n - i,
    {
        let k = keys[i];
        match command_for_key(k) {
            Some(c) => {
                out.push((k, c));
            },
            None => {
                assert(false);
            },
        }
        i = i + 1;
    }
    out
}

/// Every key is bound at most once, and a key is bound exactly when it is
/// among the registered keys.
pub proof fn law_keys_are_bound_once()
    ensures
        forall|i: int, j: int| 0 <= i < j < bound_keys().len() ==> bound_keys()[i] != bound_keys()[j],
        forall|k: char| key_command(k) is Some <==> bound_keys().contains(k),
{
    let s = bound_keys();
    assert forall|k: char| key_command(k) is Some implies s.contains(k) by {
        if k == 'c' { assert(s[0] == k); }
        if k == 'i' { assert(s[1] == k); }
        if k == 'r' { assert(s[2] == k); }
        if k == '-' { assert(s[3] == k); }
        if k == '=' { assert(s[4] == k); }
        if k == '1' { assert(s[5] == k); }
        if k == '2' { assert(s[6] == k); }
        if k == '5' { assert(s[7] == k); }
        if k == '6' { assert(s[8] == k); }
        if k == '3' { assert(s[9] == k); }
        if k == '4' { assert(s[10] == k); }
        if k == '7' { assert(s[11] == k); }
        if k == '8' { assert(s[12] == k); }
        if k == '9' { assert(s[13] == k); }
        if k == '0' { assert(s[14] == k); }
        if k == '`' { assert(s[15] == k); }
        if k == 'a' { assert(s[16] == k); }
        if k == 's' { assert(s[17] == k); }
        if k == 'd' { assert(s[18] == k); }
        if k == 'f' { assert(s[19] == k); }
        if k == 'g' { assert(s[20] == k); }
        if k == 'h' { assert(s[21] == k); }
        if k == 'j' { assert(s[22] == k); }
        if k == 'k' { assert(s[23] == k); }
        if k == 'y' { assert(s[24] == k); }
        if k == 'u' { assert(s[25] == k); }
        if k == 'p' { assert(s[26] == k); }
    }
}

} // verus!
