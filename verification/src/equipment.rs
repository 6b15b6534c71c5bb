//! The equipment list: the devices that the HMI knows, each under its MRID,
//! and the control profile that commands for a device go out on.

use vstd::prelude::*;

use crate::error::Error;
use crate::text::{concat3, owned, str_eq};

verus! {

/// A device that the HMI knows.
#[derive(Clone, Debug)]
pub struct Equipment {
    pub mrid: String,
    pub name: String,
    pub device_type: Option<String>,
}

/// What an equipment entry holds.
pub struct EquipmentView {
    pub mrid: Seq<char>,
    pub name: Seq<char>,
    pub device_type: Option<Seq<char>>,
}

impl View for Equipment {
    type V = EquipmentView;

    open spec fn view(&self) -> EquipmentView {
        EquipmentView {
            mrid: self.mrid@,
            name: self.name@,
            device_type: match self.device_type {
                Some(t) => Some(t@),
                None => None,
            },
        }
    }
}

/// The entries of an equipment list.
pub open spec fn entries(list: Seq<Equipment>) -> Seq<EquipmentView> {
    list.map_values(|e: Equipment| e@)
}

/// Whether some entry has MRID `mrid`.
pub open spec fn has_mrid(s: Seq<EquipmentView>, mrid: Seq<char>) -> bool {
    exists|i: int| 0 <= i < s.len() && s[i].mrid == mrid
}

/// Whether entry `i` is the first with MRID `mrid`.
pub open spec fn is_first_mrid(s: Seq<EquipmentView>, mrid: Seq<char>, i: int) -> bool {
    &&& 0 <= i < s.len()
    &&& s[i].mrid == mrid
    &&& forall|j: int| 0 <= j < i ==> s[j].mrid != mrid
}

/// No two entries share an MRID.
pub open spec fn unique_mrids(s: Seq<EquipmentView>) -> bool {
    forall|i: int, j: int| 0 <= i < s.len() && 0 <= j < s.len() && i != j ==> s[i].mrid != s[j].mrid
}

/// The device type of the first entry with MRID `mrid`, if there is one
/// and it has a type.
pub open spec fn device_type_of(s: Seq<EquipmentView>, mrid: Seq<char>) -> Option<Seq<char>>
    decreases s.len(),
{
    if s.len() == 0 {
        None
    } else if s[0].mrid == mrid {
        s[0].device_type
    } else {
        device_type_of(s.drop_first(), mrid)
    }
}

/// The control profile that commands for a device of the given type go out on.
pub open spec fn control_profile_for(device_type: Seq<char>) -> Option<Seq<char>> {
    if device_type == "switch"@ {
        Some("SwitchDiscreteControlProfile"@)
    } else if device_type == "breaker"@ {
        Some("BreakerDiscreteControlProfile"@)
    } else if device_type == "recloser"@ {
        Some("RecloserDiscreteControlProfile"@)
    } else if device_type == "ess"@ {
        Some("EssControlProfile"@)
    } else if device_type == "solar"@ {
        Some("SolarControlProfile"@)
    } else if device_type == "generator"@ {
        Some("GenerationDiscreteControlProfile"@)
    } else if device_type == "regulator"@ {
        Some("RegulatorDiscreteControlProfile"@)
    } else if device_type == "load"@ {
        Some("LoadControlProfile"@)
    } else if device_type == "resource"@ {
        Some("ResourceDiscreteControlProfile"@)
    } else {
        None
    }
}

/// The control profile of the device with MRID `mrid`, if the list has it
/// and its type has one.
pub open spec fn common_control_profile_of(s: Seq<EquipmentView>, mrid: Seq<char>) -> Option<
    Seq<char>,
> {
    match device_type_of(s, mrid) {
        Some(t) => control_profile_for(t),
        None => None,
    }
}

/// The device type of the first entry at index `i` or after, read from index `i`.
proof fn lemma_device_type_from(s: Seq<EquipmentView>, mrid: Seq<char>, i: int)
    requires
        0 <= i <= s.len(),
        forall|j: int| 0 <= j < i ==> s[j].mrid != mrid,
    ensures
        device_type_of(s, mrid) == device_type_of(s.subrange(i, s.len() as int), mrid),
    decreases i,
{
    if i > 0 {
        lemma_device_type_from(s.drop_first(), mrid, i - 1);
        assert(s.drop_first().subrange(i - 1, s.drop_first().len() as int) =~= s.subrange(
            i,
            s.len() as int,
        ));
    } else {
        assert(s.subrange(0, s.len() as int) =~= s);
    }
}

/// With no entry of MRID `mrid`, the lookup finds nothing.
proof fn lemma_device_type_absent(s: Seq<EquipmentView>, mrid: Seq<char>)
    requires
        !has_mrid(s, mrid),
    ensures
        device_type_of(s, mrid) is None,
    decreases s.len(),
{
    if s.len() > 0 {
        assert(!has_mrid(s.drop_first(), mrid)) by {
            if has_mrid(s.drop_first(), mrid) {
                let i = choose|i: int| 0 <= i < s.drop_first().len() && s.drop_first()[i].mrid == mrid;
                assert(s[i + 1].mrid == mrid);
            }
        }
        lemma_device_type_absent(s.drop_first(), mrid);
    }
}

/// The lookup reads the first entry of MRID `mrid`.
proof fn lemma_device_type_first(s: Seq<EquipmentView>, mrid: Seq<char>, i: int)
    requires
        is_first_mrid(s, mrid, i),
    ensures
        device_type_of(s, mrid) == s[i].device_type,
{
    lemma_device_type_from(s, mrid, i);
    let t = s.subrange(i, s.len() as int);
    assert(t[0] == s[i]);
}

/// The position of the first entry with MRID `mrid`.
pub fn position_of_mrid(list: &Vec<Equipment>, mrid: &str) -> (r: Option<usize>)
    ensures
        r matches Some(i) ==> is_first_mrid(entries(list@), mrid@, i as int),
        r is None <==> !has_mrid(entries(list@), mrid@),
{
    let n = list.len();
    let mut i: usize = 0;
    while i < n
        invariant
            n == list@.len(),
            i <= n,
            forall|j: int| 0 <= j < i ==> entries(list@)[j].mrid != mrid@,
        decreases n - i,
    {
        if str_eq(list[i].mrid.as_str(), mrid) {
            return Some(i);
        }
        i = i + 1;
    }
    None
}

/// The device type of the first entry with MRID `mrid`, if there is one and
/// it has a type.
pub fn device_type_by_mrid(list: &Vec<Equipment>, mrid: &str) -> (r: Option<String>)
    ensures
        match r {
            Some(t) => device_type_of(entries(list@), mrid@) == Some(t@),
            None => device_type_of(entries(list@), mrid@) is None,
        },
{
    proof {
        if !has_mrid(entries(list@), mrid@) {
            lemma_device_type_absent(entries(list@), mrid@);
        }
    }
    match position_of_mrid(list, mrid) {
        Some(i) => {
            proof {
                lemma_device_type_first(entries(list@), mrid@, i as int);
            }
            match &list[i].device_type {
                Some(t) => Some(t.clone()),
                None => None,
            }
        },
        None => None,
    }
}

/// The control profile that commands for a device of type `device_type` go
/// out on, or `None` for a type that has none.
pub fn control_profile_for_type(device_type: &str) -> (r: Option<String>)
    ensures
        match r {
            Some(p) => control_profile_for(device_type@) == Some(p@),
            None => control_profile_for(device_type@) is None,
        },
{
    let p = if str_eq(device_type, "switch") {
        "SwitchDiscreteControlProfile"
    } else if str_eq(device_type, "breaker") {
        "BreakerDiscreteControlProfile"
    } else if str_eq(device_type, "recloser") {
        "RecloserDiscreteControlProfile"
    } else if str_eq(device_type, "ess") {
        "EssControlProfile"
    } else if str_eq(device_type, "solar") {
        "SolarControlProfile"
    } else if str_eq(device_type, "generator") {
        "GenerationDiscreteControlProfile"
    } else if str_eq(device_type, "regulator") {
        "RegulatorDiscreteControlProfile"
    } else if str_eq(device_type, "load") {
        "LoadControlProfile"
    } else if str_eq(device_type, "resource") {
        "ResourceDiscreteControlProfile"
    } else {
        return None;
    };
    Some(owned(p))
}

/// The control profile of the device with MRID `mrid`, or `None` when the
/// list does not have it or its type has no control profile.
pub fn get_common_control_profile(list: &Vec<Equipment>, mrid: &str) -> (r: Option<String>)
    ensures
        match r {
            Some(p) => common_control_profile_of(entries(list@), mrid@) == Some(p@),
            None => common_control_profile_of(entries(list@), mrid@) is None,
        },
{
    match device_type_by_mrid(list, mrid) {
        Some(t) => control_profile_for_type(t.as_str()),
        None => None,
    }
}

/// Adds a device to the list, unless a device with its MRID is there
/// already; then the list is unchanged and the answer is `AddDeviceError`.
pub fn create_equipment(list: &mut Vec<Equipment>, eq: Equipment) -> (r: Result<(), Error>)
    ensures
        has_mrid(entries(old(list)@), eq.mrid@) ==> r == Err::<(), Error>(Error::AddDeviceError)
            && final(list)@ == old(list)@,
        !has_mrid(entries(old(list)@), eq.mrid@) ==> r is Ok && final(list)@ == old(list)@.push(
            eq,
        ),
{
    match position_of_mrid(list, eq.mrid.as_str()) {
        Some(_) => Err(Error::AddDeviceError),
        None => {
            list.push(eq);
            Ok(())
        },
    }
}

/// Removes the first device with MRID `mrid`; the list is unchanged when
/// there is none.
pub fn delete_equipment(list: &mut Vec<Equipment>, mrid: &str)
    ensures
        !has_mrid(entries(old(list)@), mrid@) ==> final(list)@ == old(list)@,
        forall|i: int|
            is_first_mrid(entries(old(list)@), mrid@, i) ==> final(list)@ == old(list)@.remove(i),
{
    match position_of_mrid(list, mrid) {
        Some(pos) => {
            list.remove(pos);
        },
        None => {},
    }
}

/// Gives the first device with the MRID of `eq` the name and type of `eq`;
/// the list is unchanged when there is none.
pub fn update_equipment(list: &mut Vec<Equipment>, eq: Equipment)
    ensures
        !has_mrid(entries(old(list)@), eq.mrid@) ==> final(list)@ == old(list)@,
        forall|i: int|
            is_first_mrid(entries(old(list)@), eq.mrid@, i) ==> final(list)@ == old(list)@.update(
                i,
                eq,
            ),
{
    match position_of_mrid(list, eq.mrid.as_str()) {
        Some(pos) => {
            list.set(pos, eq);
        },
        None => {},
    }
}

/// Where the equipment list is kept: under `/<app_dir>/` when the
/// application directory is named, else in the working directory.
pub fn get_equipment_file(app_dir: &str) -> (r: String)
    ensures
        r@ == (if app_dir@.len() > 0 {
            "/"@ + app_dir@ + "/equipment.json"@
        } else {
            "equipment.json"@
        }),
{
    if !app_dir.is_empty() {
        return concat3("/", app_dir, "/equipment.json");
    }
    owned("equipment.json")
}

/// A device that was added can be found again: after `create_equipment`
/// succeeds, looking up the new device's MRID gives its type.
pub proof fn law_created_device_is_found(before: Seq<Equipment>, eq: Equipment)
    requires
        !has_mrid(entries(before), eq.mrid@),
    ensures
        device_type_of(entries(before.push(eq)), eq.mrid@) == eq@.device_type,
{
    let s = entries(before.push(eq));
    let n = before.len() as int;
    assert(s[n] == eq@);
    assert forall|j: int| 0 <= j < n implies s[j].mrid != eq.mrid@ by {
        assert(s[j] == entries(before)[j]);
    }
    lemma_device_type_first(s, eq.mrid@, n);
}

/// Adding devices keeps MRIDs unique: a list without duplicates stays
/// without them after `create_equipment`, whatever it answers.
pub proof fn law_create_keeps_mrids_unique(before: Seq<Equipment>, eq: Equipment)
    requires
        unique_mrids(entries(before)),
        !has_mrid(entries(before), eq.mrid@),
    ensures
        unique_mrids(entries(before.push(eq))),
{
    let s = entries(before.push(eq));
    let n = before.len() as int;
    assert forall|i: int, j: int| 0 <= i < s.len() && 0 <= j < s.len() && i != j implies s[i].mrid
        != s[j].mrid by {
        if i < n {
            assert(s[i] == entries(before)[i]);
        }
        if j < n {
            assert(s[j] == entries(before)[j]);
        }
    }
}

/// In a list without duplicate MRIDs, a deleted device is gone: no entry
/// has its MRID afterwards.
pub proof fn law_deleted_device_is_gone(before: Seq<Equipment>, mrid: Seq<char>, i: int)
    requires
        unique_mrids(entries(before)),
        is_first_mrid(entries(before), mrid, i),
    ensures
        !has_mrid(entries(before.remove(i)), mrid),
{
    let s = entries(before.remove(i));
    if has_mrid(s, mrid) {
        let k = choose|k: int| 0 <= k < s.len() && s[k].mrid == mrid;
        if k < i {
            assert(s[k] == entries(before)[k]);
        } else {
            assert(s[k] == entries(before)[k + 1]);
        }
    }
}

/// Updating a device changes what a lookup of its MRID gives to the new
/// type, and keeps MRIDs unique.
pub proof fn law_update_then_lookup(before: Seq<Equipment>, eq: Equipment, i: int)
    requires
        unique_mrids(entries(before)),
        is_first_mrid(entries(before), eq.mrid@, i),
    ensures
        device_type_of(entries(before.update(i, eq)), eq.mrid@) == eq@.device_type,
        unique_mrids(entries(before.update(i, eq))),
{
    let s = entries(before.update(i, eq));
    assert(s[i] == eq@);
    assert forall|j: int| 0 <= j < i implies s[j].mrid != eq.mrid@ by {
        assert(s[j] == entries(before)[j]);
    }
    lemma_device_type_first(s, eq.mrid@, i);
    assert forall|a: int, b: int| 0 <= a < s.len() && 0 <= b < s.len() && a != b implies s[a].mrid
        != s[b].mrid by {
        if a != i {
            assert(s[a] == entries(before)[a]);
        }
        if b != i {
            assert(s[b] == entries(before)[b]);
        }
    }
}

proof fn lemma_switch_profile()
    ensures
        control_profile_for("switch"@) == Some("SwitchDiscreteControlProfile"@),
        crate::control::control_profile_named("SwitchDiscreteControlProfile"@) == Some(crate::control::ControlProfile::Switch),
{
    reveal_strlit("switch");
    reveal_strlit("SwitchDiscreteControlProfile");
    reveal_strlit("BreakerDiscreteControlProfile");
    assert("SwitchDiscreteControlProfile"@ != "BreakerDiscreteControlProfile"@) by {
        assert("SwitchDiscreteControlProfile"@.len() != "BreakerDiscreteControlProfile"@.len());
    }
    reveal_strlit("RecloserDiscreteControlProfile");
    assert("SwitchDiscreteControlProfile"@ != "RecloserDiscreteControlProfile"@) by {
        assert("SwitchDiscreteControlProfile"@.len() != "RecloserDiscreteControlProfile"@.len());
    }
}

proof fn lemma_breaker_profile()
    ensures
        control_profile_for("breaker"@) == Some("BreakerDiscreteControlProfile"@),
        crate::control::control_profile_named("BreakerDiscreteControlProfile"@) == Some(crate::control::ControlProfile::Breaker),
{
    reveal_strlit("breaker");
    reveal_strlit("BreakerDiscreteControlProfile");
    reveal_strlit("switch");
    assert("breaker"@ != "switch"@) by {
        assert("breaker"@.len() != "switch"@.len());
    }
}

proof fn lemma_recloser_profile()
    ensures
        control_profile_for("recloser"@) == Some("RecloserDiscreteControlProfile"@),
        crate::control::control_profile_named("RecloserDiscreteControlProfile"@) == Some(crate::control::ControlProfile::Recloser),
{
    reveal_strlit("recloser");
    reveal_strlit("RecloserDiscreteControlProfile");
    reveal_strlit("switch");
    assert("recloser"@ != "switch"@) by {
        assert("recloser"@.len() != "switch"@.len());
    }
    reveal_strlit("breaker");
    assert("recloser"@ != "breaker"@) by {
        assert("recloser"@.len() != "breaker"@.len());
    }
    reveal_strlit("BreakerDiscreteControlProfile");
    assert("RecloserDiscreteControlProfile"@ != "BreakerDiscreteControlProfile"@) by {
        assert("RecloserDiscreteControlProfile"@.len() != "BreakerDiscreteControlProfile"@.len());
    }
}

proof fn lemma_ess_profile()
    ensures
        control_profile_for("ess"@) == Some("EssControlProfile"@),
        crate::control::control_profile_named("EssControlProfile"@) == Some(crate::control::ControlProfile::Ess),
{
    reveal_strlit("ess");
    reveal_strlit("EssControlProfile");
    reveal_strlit("switch");
    assert("ess"@ != "switch"@) by {
        assert("ess"@.len() != "switch"@.len());
    }
    reveal_strlit("breaker");
    assert("ess"@ != "breaker"@) by {
        assert("ess"@.len() != "breaker"@.len());
    }
    reveal_strlit("recloser");
    assert("ess"@ != "recloser"@) by {
        assert("ess"@.len() != "recloser"@.len());
    }
    reveal_strlit("BreakerDiscreteControlProfile");
    assert("EssControlProfile"@ != "BreakerDiscreteControlProfile"@) by {
        assert("EssControlProfile"@.len() != "BreakerDiscreteControlProfile"@.len());
    }
    reveal_strlit("RecloserDiscreteControlProfile");
    assert("EssControlProfile"@ != "RecloserDiscreteControlProfile"@) by {
        assert("EssControlProfile"@.len() != "RecloserDiscreteControlProfile"@.len());
    }
    reveal_strlit("SwitchDiscreteControlProfile");
    assert("EssControlProfile"@ != "SwitchDiscreteControlProfile"@) by {
        assert("EssControlProfile"@.len() != "SwitchDiscreteControlProfile"@.len());
    }
    reveal_strlit("ESSControlProfile");
    assert("EssControlProfile"@ != "ESSControlProfile"@) by {
        assert("EssControlProfile"@[1] != "ESSControlProfile"@[1]);
    }
}

proof fn lemma_solar_profile()
    ensures
        control_profile_for("solar"@) == Some("SolarControlProfile"@),
        crate::control::control_profile_named("SolarControlProfile"@) == Some(crate::control::ControlProfile::Solar),
{
    reveal_strlit("solar");
    reveal_strlit("SolarControlProfile");
    reveal_strlit("switch");
    assert("solar"@ != "switch"@) by {
        assert("solar"@.len() != "switch"@.len());
    }
    reveal_strlit("breaker");
    assert("solar"@ != "breaker"@) by {
        assert("solar"@.len() != "breaker"@.len());
    }
    reveal_strlit("recloser");
    assert("solar"@ != "recloser"@) by {
        assert("solar"@.len() != "recloser"@.len());
    }
    reveal_strlit("ess");
    assert("solar"@ != "ess"@) by {
        assert("solar"@.len() != "ess"@.len());
    }
    reveal_strlit("BreakerDiscreteControlProfile");
    assert("SolarControlProfile"@ != "BreakerDiscreteControlProfile"@) by {
        assert("SolarControlProfile"@.len() != "BreakerDiscreteControlProfile"@.len());
    }
    reveal_strlit("RecloserDiscreteControlProfile");
    assert("SolarControlProfile"@ != "RecloserDiscreteControlProfile"@) by {
        assert("SolarControlProfile"@.len() != "RecloserDiscreteControlProfile"@.len());
    }
    reveal_strlit("SwitchDiscreteControlProfile");
    assert("SolarControlProfile"@ != "SwitchDiscreteControlProfile"@) by {
        assert("SolarControlProfile"@.len() != "SwitchDiscreteControlProfile"@.len());
    }
    reveal_strlit("ESSControlProfile");
    assert("SolarControlProfile"@ != "ESSControlProfile"@) by {
        assert("SolarControlProfile"@.len() != "ESSControlProfile"@.len());
    }
    reveal_strlit("EssControlProfile");
    assert("SolarControlProfile"@ != "EssControlProfile"@) by {
        assert("SolarControlProfile"@.len() != "EssControlProfile"@.len());
    }
}

proof fn lemma_generator_profile()
    ensures
        control_profile_for("generator"@) == Some("GenerationDiscreteControlProfile"@),
        crate::control::control_profile_named("GenerationDiscreteControlProfile"@) is None,
{
    reveal_strlit("generator");
    reveal_strlit("GenerationDiscreteControlProfile");
    reveal_strlit("switch");
    assert("generator"@ != "switch"@) by {
        assert("generator"@.len() != "switch"@.len());
    }
    reveal_strlit("breaker");
    assert("generator"@ != "breaker"@) by {
        assert("generator"@.len() != "breaker"@.len());
    }
    reveal_strlit("recloser");
    assert("generator"@ != "recloser"@) by {
        assert("generator"@.len() != "recloser"@.len());
    }
    reveal_strlit("ess");
    assert("generator"@ != "ess"@) by {
        assert("generator"@.len() != "ess"@.len());
    }
    reveal_strlit("solar");
    assert("generator"@ != "solar"@) by {
        assert("generator"@.len() != "solar"@.len());
    }
    reveal_strlit("BreakerDiscreteControlProfile");
    assert("GenerationDiscreteControlProfile"@ != "BreakerDiscreteControlProfile"@) by {
        assert("GenerationDiscreteControlProfile"@.len() != "BreakerDiscreteControlProfile"@.len());
    }
    reveal_strlit("RecloserDiscreteControlProfile");
    assert("GenerationDiscreteControlProfile"@ != "RecloserDiscreteControlProfile"@) by {
        assert("GenerationDiscreteControlProfile"@.len() != "RecloserDiscreteControlProfile"@.len());
    }
    reveal_strlit("SwitchDiscreteControlProfile");
    assert("GenerationDiscreteControlProfile"@ != "SwitchDiscreteControlProfile"@) by {
        assert("GenerationDiscreteControlProfile"@.len() != "SwitchDiscreteControlProfile"@.len());
    }
    reveal_strlit("ESSControlProfile");
    assert("GenerationDiscreteControlProfile"@ != "ESSControlProfile"@) by {
        assert("GenerationDiscreteControlProfile"@.len() != "ESSControlProfile"@.len());
    }
    reveal_strlit("EssControlProfile");
    assert("GenerationDiscreteControlProfile"@ != "EssControlProfile"@) by {
        assert("GenerationDiscreteControlProfile"@.len() != "EssControlProfile"@.len());
    }
    reveal_strlit("SolarControlProfile");
    assert("GenerationDiscreteControlProfile"@ != "SolarControlProfile"@) by {
        assert("GenerationDiscreteControlProfile"@.len() != "SolarControlProfile"@.len());
    }
    reveal_strlit("LoadControlProfile");
    assert("GenerationDiscreteControlProfile"@ != "LoadControlProfile"@) by {
        assert("GenerationDiscreteControlProfile"@.len() != "LoadControlProfile"@.len());
    }
    reveal_strlit("ResourceDiscreteControlProfile");
    assert("GenerationDiscreteControlProfile"@ != "ResourceDiscreteControlProfile"@) by {
        assert("GenerationDiscreteControlProfile"@.len() != "ResourceDiscreteControlProfile"@.len());
    }
    reveal_strlit("RegulatorDiscreteControlProfile");
    assert("GenerationDiscreteControlProfile"@ != "RegulatorDiscreteControlProfile"@) by {
        assert("GenerationDiscreteControlProfile"@.len() != "RegulatorDiscreteControlProfile"@.len());
    }
    reveal_strlit("GenerationControlProfile");
    assert("GenerationDiscreteControlProfile"@ != "GenerationControlProfile"@) by {
        assert("GenerationDiscreteControlProfile"@.len() != "GenerationControlProfile"@.len());
    }
    reveal_strlit("CapBankControlProfile");
    assert("GenerationDiscreteControlProfile"@ != "CapBankControlProfile"@) by {
        assert("GenerationDiscreteControlProfile"@.len() != "CapBankControlProfile"@.len());
    }
}

proof fn lemma_regulator_profile()
    ensures
        control_profile_for("regulator"@) == Some("RegulatorDiscreteControlProfile"@),
        crate::control::control_profile_named("RegulatorDiscreteControlProfile"@) == Some(crate::control::ControlProfile::Regulator),
{
    reveal_strlit("regulator");
    reveal_strlit("RegulatorDiscreteControlProfile");
    reveal_strlit("switch");
    assert("regulator"@ != "switch"@) by {
        assert("regulator"@.len() != "switch"@.len());
    }
    reveal_strlit("breaker");
    assert("regulator"@ != "breaker"@) by {
        assert("regulator"@.len() != "breaker"@.len());
    }
    reveal_strlit("recloser");
    assert("regulator"@ != "recloser"@) by {
        assert("regulator"@.len() != "recloser"@.len());
    }
    reveal_strlit("ess");
    assert("regulator"@ != "ess"@) by {
        assert("regulator"@.len() != "ess"@.len());
    }
    reveal_strlit("solar");
    assert("regulator"@ != "solar"@) by {
        assert("regulator"@.len() != "solar"@.len());
    }
    reveal_strlit("generator");
    assert("regulator"@ != "generator"@) by {
        assert("regulator"@[0] != "generator"@[0]);
    }
    reveal_strlit("BreakerDiscreteControlProfile");
    assert("RegulatorDiscreteControlProfile"@ != "BreakerDiscreteControlProfile"@) by {
        assert("RegulatorDiscreteControlProfile"@.len() != "BreakerDiscreteControlProfile"@.len());
    }
    reveal_strlit("RecloserDiscreteControlProfile");
    assert("RegulatorDiscreteControlProfile"@ != "RecloserDiscreteControlProfile"@) by {
        assert("RegulatorDiscreteControlProfile"@.len() != "RecloserDiscreteControlProfile"@.len());
    }
    reveal_strlit("SwitchDiscreteControlProfile");
    assert("RegulatorDiscreteControlProfile"@ != "SwitchDiscreteControlProfile"@) by {
        assert("RegulatorDiscreteControlProfile"@.len() != "SwitchDiscreteControlProfile"@.len());
    }
    reveal_strlit("ESSControlProfile");
    assert("RegulatorDiscreteControlProfile"@ != "ESSControlProfile"@) by {
        assert("RegulatorDiscreteControlProfile"@.len() != "ESSControlProfile"@.len());
    }
    reveal_strlit("EssControlProfile");
    assert("RegulatorDiscreteControlProfile"@ != "EssControlProfile"@) by {
        assert("RegulatorDiscreteControlProfile"@.len() != "EssControlProfile"@.len());
    }
    reveal_strlit("SolarControlProfile");
    assert("RegulatorDiscreteControlProfile"@ != "SolarControlProfile"@) by {
        assert("RegulatorDiscreteControlProfile"@.len() != "SolarControlProfile"@.len());
    }
    reveal_strlit("LoadControlProfile");
    assert("RegulatorDiscreteControlProfile"@ != "LoadControlProfile"@) by {
        assert("RegulatorDiscreteControlProfile"@.len() != "LoadControlProfile"@.len());
    }
    reveal_strlit("ResourceDiscreteControlProfile");
    assert("RegulatorDiscreteControlProfile"@ != "ResourceDiscreteControlProfile"@) by {
        assert("RegulatorDiscreteControlProfile"@.len() != "ResourceDiscreteControlProfile"@.len());
    }
}

proof fn lemma_load_profile()
    ensures
        control_profile_for("load"@) == Some("LoadControlProfile"@),
        crate::control::control_profile_named("LoadControlProfile"@) == Some(crate::control::ControlProfile::Load),
{
    reveal_strlit("load");
    reveal_strlit("LoadControlProfile");
    reveal_strlit("switch");
    assert("load"@ != "switch"@) by {
        assert("load"@.len() != "switch"@.len());
    }
    reveal_strlit("breaker");
    assert("load"@ != "breaker"@) by {
        assert("load"@.len() != "breaker"@.len());
    }
    reveal_strlit("recloser");
    assert("load"@ != "recloser"@) by {
        assert("load"@.len() != "recloser"@.len());
    }
    reveal_strlit("ess");
    assert("load"@ != "ess"@) by {
        assert("load"@.len() != "ess"@.len());
    }
    reveal_strlit("solar");
    assert("load"@ != "solar"@) by {
        assert("load"@.len() != "solar"@.len());
    }
    reveal_strlit("generator");
    assert("load"@ != "generator"@) by {
        assert("load"@.len() != "generator"@.len());
    }
    reveal_strlit("regulator");
    assert("load"@ != "regulator"@) by {
        assert("load"@.len() != "regulator"@.len());
    }
    reveal_strlit("BreakerDiscreteControlProfile");
    assert("LoadControlProfile"@ != "BreakerDiscreteControlProfile"@) by {
        assert("LoadControlProfile"@.len() != "BreakerDiscreteControlProfile"@.len());
    }
    reveal_strlit("RecloserDiscreteControlProfile");
    assert("LoadControlProfile"@ != "RecloserDiscreteControlProfile"@) by {
        assert("LoadControlProfile"@.len() != "RecloserDiscreteControlProfile"@.len());
    }
    reveal_strlit("SwitchDiscreteControlProfile");
    assert("LoadControlProfile"@ != "SwitchDiscreteControlProfile"@) by {
        assert("LoadControlProfile"@.len() != "SwitchDiscreteControlProfile"@.len());
    }
    reveal_strlit("ESSControlProfile");
    assert("LoadControlProfile"@ != "ESSControlProfile"@) by {
        assert("LoadControlProfile"@.len() != "ESSControlProfile"@.len());
    }
    reveal_strlit("EssControlProfile");
    assert("LoadControlProfile"@ != "EssControlProfile"@) by {
        assert("LoadControlProfile"@.len() != "EssControlProfile"@.len());
    }
    reveal_strlit("SolarControlProfile");
    assert("LoadControlProfile"@ != "SolarControlProfile"@) by {
        assert("LoadControlProfile"@.len() != "SolarControlProfile"@.len());
    }
}

proof fn lemma_resource_profile()
    ensures
        control_profile_for("resource"@) == Some("ResourceDiscreteControlProfile"@),
        crate::control::control_profile_named("ResourceDiscreteControlProfile"@) == Some(crate::control::ControlProfile::Resource),
{
    reveal_strlit("resource");
    reveal_strlit("ResourceDiscreteControlProfile");
    reveal_strlit("switch");
    assert("resource"@ != "switch"@) by {
        assert("resource"@.len() != "switch"@.len());
    }
    reveal_strlit("breaker");
    assert("resource"@ != "breaker"@) by {
        assert("resource"@.len() != "breaker"@.len());
    }
    reveal_strlit("recloser");
    assert("resource"@ != "recloser"@) by {
        assert("resource"@[2] != "recloser"@[2]);
    }
    reveal_strlit("ess");
    assert("resource"@ != "ess"@) by {
        assert("resource"@.len() != "ess"@.len());
    }
    reveal_strlit("solar");
    assert("resource"@ != "solar"@) by {
        assert("resource"@.len() != "solar"@.len());
    }
    reveal_strlit("generator");
    assert("resource"@ != "generator"@) by {
        assert("resource"@.len() != "generator"@.len());
    }
    reveal_strlit("regulator");
    assert("resource"@ != "regulator"@) by {
        assert("resource"@.len() != "regulator"@.len());
    }
    reveal_strlit("load");
    assert("resource"@ != "load"@) by {
        assert("resource"@.len() != "load"@.len());
    }
    reveal_strlit("BreakerDiscreteControlProfile");
    assert("ResourceDiscreteControlProfile"@ != "BreakerDiscreteControlProfile"@) by {
        assert("ResourceDiscreteControlProfile"@.len() != "BreakerDiscreteControlProfile"@.len());
    }
    reveal_strlit("RecloserDiscreteControlProfile");
    assert("ResourceDiscreteControlProfile"@ != "RecloserDiscreteControlProfile"@) by {
        assert("ResourceDiscreteControlProfile"@[2] != "RecloserDiscreteControlProfile"@[2]);
    }
    reveal_strlit("SwitchDiscreteControlProfile");
    assert("ResourceDiscreteControlProfile"@ != "SwitchDiscreteControlProfile"@) by {
        assert("ResourceDiscreteControlProfile"@.len() != "SwitchDiscreteControlProfile"@.len());
    }
    reveal_strlit("ESSControlProfile");
    assert("ResourceDiscreteControlProfile"@ != "ESSControlProfile"@) by {
        assert("ResourceDiscreteControlProfile"@.len() != "ESSControlProfile"@.len());
    }
    reveal_strlit("EssControlProfile");
    assert("ResourceDiscreteControlProfile"@ != "EssControlProfile"@) by {
        assert("ResourceDiscreteControlProfile"@.len() != "EssControlProfile"@.len());
    }
    reveal_strlit("SolarControlProfile");
    assert("ResourceDiscreteControlProfile"@ != "SolarControlProfile"@) by {
        assert("ResourceDiscreteControlProfile"@.len() != "SolarControlProfile"@.len());
    }
    reveal_strlit("LoadControlProfile");
    assert("ResourceDiscreteControlProfile"@ != "LoadControlProfile"@) by {
        assert("ResourceDiscreteControlProfile"@.len() != "LoadControlProfile"@.len());
    }
}

/// The control profile of each device type names the control profile of
/// that same kind of device: a switch's is the switch profile, an ESS's the
/// ESS profile, and so on for breakers, reclosers, solar inverters,
/// regulators, loads and resources. (A generator's, the discrete generation
/// profile, names none of the profiles that controls are planned for.)
pub proof fn law_device_types_name_their_profile()
    ensures
        control_profile_for("switch"@) matches Some(n) && crate::control::control_profile_named(n) == Some(crate::control::ControlProfile::Switch),
        control_profile_for("breaker"@) matches Some(n) && crate::control::control_profile_named(n) == Some(crate::control::ControlProfile::Breaker),
        control_profile_for("recloser"@) matches Some(n) && crate::control::control_profile_named(n) == Some(crate::control::ControlProfile::Recloser),
        control_profile_for("ess"@) matches Some(n) && crate::control::control_profile_named(n) == Some(crate::control::ControlProfile::Ess),
        control_profile_for("solar"@) matches Some(n) && crate::control::control_profile_named(n) == Some(crate::control::ControlProfile::Solar),
        control_profile_for("generator"@) matches Some(n) && crate::control::control_profile_named(n) is None,
        control_profile_for("regulator"@) matches Some(n) && crate::control::control_profile_named(n) == Some(crate::control::ControlProfile::Regulator),
        control_profile_for("load"@) matches Some(n) && crate::control::control_profile_named(n) == Some(crate::control::ControlProfile::Load),
        control_profile_for("resource"@) matches Some(n) && crate::control::control_profile_named(n) == Some(crate::control::ControlProfile::Resource),
{
    lemma_switch_profile();
    lemma_breaker_profile();
    lemma_recloser_profile();
    lemma_ess_profile();
    lemma_solar_profile();
    lemma_generator_profile();
    lemma_regulator_profile();
    lemma_load_profile();
    lemma_resource_profile();
}

} // verus!
