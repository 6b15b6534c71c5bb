//! The subscribers of the HMI, one per profile group, made the first time a
//! message of the group arrives and found again afterwards.

use vstd::prelude::*;

use crate::routing::{profile_group, MessageKind, ProfileGroup};

verus! {

/// The subscriber of each profile group that has one.
pub struct ProfileActors<A> {
    entries: Vec<(ProfileGroup, A)>,
}

/// The map that a list of entries stands for.
pub open spec fn entries_map<A>(s: Seq<(ProfileGroup, A)>) -> Map<ProfileGroup, A>
    decreases s.len(),
{
    if s.len() == 0 {
        Map::empty()
    } else {
        entries_map(s.drop_last()).insert(s.last().0, s.last().1)
    }
}

/// No two entries have the same group.
pub open spec fn unique_groups<A>(s: Seq<(ProfileGroup, A)>) -> bool {
    forall|i: int, j: int| 0 <= i < s.len() && 0 <= j < s.len() && i != j ==> s[i].0 != s[j].0
}

proof fn lemma_entries_map_domain<A>(s: Seq<(ProfileGroup, A)>, g: ProfileGroup)
    ensures
        entries_map(s).contains_key(g) <==> exists|i: int| 0 <= i < s.len() && s[i].0 == g,
    decreases s.len(),
{
    if s.len() > 0 {
        lemma_entries_map_domain(s.drop_last(), g);
        if exists|i: int| 0 <= i < s.len() && s[i].0 == g {
            let i = choose|i: int| 0 <= i < s.len() && s[i].0 == g;
            if i < s.len() - 1 {
                assert(s.drop_last()[i].0 == g);
            }
        }
        if exists|i: int| 0 <= i < s.drop_last().len() && s.drop_last()[i].0 == g {
            let i = choose|i: int| 0 <= i < s.drop_last().len() && s.drop_last()[i].0 == g;
            assert(s[i].0 == g);
        }
    }
}

proof fn lemma_entries_map_at<A>(s: Seq<(ProfileGroup, A)>, i: int)
    requires
        unique_groups(s),
        0 <= i < s.len(),
    ensures
        entries_map(s).contains_key(s[i].0),
        entries_map(s)[s[i].0] == s[i].1,
    decreases s.len(),
{
    if i < s.len() - 1 {
        let t = s.drop_last();
        assert(t[i] == s[i]);
        assert(unique_groups(t)) by {
            assert forall|a: int, b: int| 0 <= a < t.len() && 0 <= b < t.len() && a != b implies t[a].0
                != t[b].0 by {
                assert(t[a] == s[a]);
                assert(t[b] == s[b]);
            }
        }
        lemma_entries_map_at(t, i);
        assert(s.last().0 != s[i].0);
    }
}

impl<A> ProfileActors<A> {
    #[verifier::type_invariant]
    spec fn well_formed(self) -> bool {
        unique_groups(self.entries@)
    }

    /// The subscriber of each group that has one.
    pub closed spec fn view(&self) -> Map<ProfileGroup, A> {
        entries_map(self.entries@)
    }

    /// No group has a subscriber yet.
    pub fn new() -> (r: ProfileActors<A>)
        ensures
            r.view() == Map::<ProfileGroup, A>::empty(),
    {
        ProfileActors { entries: Vec::new() }
    }

    /// The subscriber of group `g`, if it has one.
    pub fn get(&self, g: ProfileGroup) -> (r: Option<&A>)
        ensures
            match r {
                Some(a) => self.view().contains_key(g) && *a == self.view()[g],
                None => !self.view().contains_key(g),
            },
    {
        proof {
            use_type_invariant(self);
            lemma_entries_map_domain(self.entries@, g);
        }
        let n = self.entries.len();
        let mut i: usize = 0;
        while i < n
            invariant
                n == self.entries@.len(),
                unique_groups(self.entries@),
                i <= n,
                forall|j: int| 0 <= j < i ==> self.entries@[j].0 != g,
            decreases n - i,
        {
            if self.entries[i].0 == g {
                proof {
                    lemma_entries_map_at(self.entries@, i as int);
                }
                return Some(&self.entries[i].1);
            }
            i = i + 1;
        }
        None
    }

    /// Records `a` as the subscriber of group `g`, which has none yet.
    pub fn insert(&mut self, g: ProfileGroup, a: A)
        requires
            !old(self).view().contains_key(g),
        ensures
            final(self).view() == old(self).view().insert(g, a),
    {
        proof {
            use_type_invariant(&*self);
            lemma_entries_map_domain(self.entries@, g);
        }
        let ghost before = self.entries@;
        let mut entries = Vec::new();
        std::mem::swap(&mut entries, &mut self.entries);
        entries.push((g, a));
        proof {
            assert(entries@.drop_last() =~= before);
            assert forall|i: int, j: int|
                0 <= i < entries@.len() && 0 <= j < entries@.len() && i != j implies entries@[i].0
                != entries@[j].0 by {
                if i < before.len() {
                    assert(entries@[i] == before[i]);
                }
                if j < before.len() {
                    assert(entries@[j] == before[j]);
                }
            }
        }
        self.entries = entries;
    }
}

/// The store `after` and the subscriber `r` that asking `before` for the
/// subscriber of group `g` gives: the one recorded, the store unchanged; or,
/// where the group had none, `r` newly recorded for it alone.
pub open spec fn ensured<A>(before: Map<ProfileGroup, A>, g: ProfileGroup, after: Map<ProfileGroup, A>, r: A) -> bool {
    &&& after.contains_key(g)
    &&& r == after[g]
    &&& before.contains_key(g) ==> after == before
    &&& !before.contains_key(g) ==> after == before.insert(g, r)
}

impl<A> ProfileActors<A> {
    /// The subscriber of group `g`: the one recorded for it, or else a new
    /// one made by `make`, which is then recorded. `make` is called only when
    /// the group has none yet.
    pub fn ensure_actor_type<F: FnOnce(ProfileGroup) -> A>(&mut self, g: ProfileGroup, make: F) -> (r: &A)
        requires
            !old(self).view().contains_key(g) ==> call_requires(make, (g,)),
        ensures
            ensured(old(self).view(), g, final(self).view(), *r),
            !old(self).view().contains_key(g) ==> call_ensures(make, (g,), *r),
    {
        if self.get(g).is_none() {
            let a = make(g);
            self.insert(g, a);
        }
        self.get(g).unwrap()
    }

    /// The subscriber for a message of kind `k`: the one of its profile
    /// group, made by `make` the first time the group is asked for.
    pub fn ensure_actor<F: FnOnce(ProfileGroup) -> A>(&mut self, k: MessageKind, make: F) -> (r: &A)
        requires
            !old(self).view().contains_key(profile_group(k)) ==> call_requires(make, (profile_group(k),)),
        ensures
            ensured(old(self).view(), profile_group(k), final(self).view(), *r),
            !old(self).view().contains_key(profile_group(k)) ==> call_ensures(make, (profile_group(k),), *r),
    {
        self.ensure_actor_type(k.profile_group(), make)
    }
}

/// The name a new subscriber of a group gets: the group's name.
pub open spec fn subscriber_name(g: ProfileGroup) -> Seq<char> {
    match g {
        ProfileGroup::Breaker => "Breaker"@,
        ProfileGroup::CapBank => "CapBank"@,
        ProfileGroup::CircuitSegmentService => "CircuitSegmentService"@,
        ProfileGroup::CoordinationService => "CoordinationService"@,
        ProfileGroup::ESS => "ESS"@,
        ProfileGroup::Generation => "Generation"@,
        ProfileGroup::Load => "Load"@,
        ProfileGroup::Meter => "Meter"@,
        ProfileGroup::Recloser => "Recloser"@,
        ProfileGroup::Regulator => "Regulator"@,
        ProfileGroup::Resource => "Resource"@,
        ProfileGroup::Solar => "Solar"@,
        ProfileGroup::Switch => "Switch"@,
    }
}

/// The name a new subscriber of group `g` gets.
pub fn subscriber_name_of(g: ProfileGroup) -> (r: String)
    ensures
        r@ == subscriber_name(g),
{
    let s = match g {
        ProfileGroup::Breaker => "Breaker",
        ProfileGroup::CapBank => "CapBank",
        ProfileGroup::CircuitSegmentService => "CircuitSegmentService",
        ProfileGroup::CoordinationService => "CoordinationService",
        ProfileGroup::ESS => "ESS",
        ProfileGroup::Generation => "Generation",
        ProfileGroup::Load => "Load",
        ProfileGroup::Meter => "Meter",
        ProfileGroup::Recloser => "Recloser",
        ProfileGroup::Regulator => "Regulator",
        ProfileGroup::Resource => "Resource",
        ProfileGroup::Solar => "Solar",
        ProfileGroup::Switch => "Switch",
    };
    String::from_str(s)
}

/// A subscriber is made once per group: after it is recorded, looking the
/// group up finds it, and the other groups keep theirs.
pub proof fn law_recorded_subscriber_is_found<A>(
    before: Map<ProfileGroup, A>,
    g: ProfileGroup,
    a: A,
    other: ProfileGroup,
)
    requires
        !before.contains_key(g),
        other != g,
    ensures
        before.insert(g, a).contains_key(g),
        before.insert(g, a)[g] == a,
        before.insert(g, a).contains_key(other) == before.contains_key(other),
        before.contains_key(other) ==> before.insert(g, a)[other] == before[other],
{
}

/// Asking for the subscriber of messages of one profile group twice gives
/// the same subscriber, and the second request makes none: a group gets at
/// most one subscriber, and the other groups keep theirs.
pub proof fn law_one_subscriber_per_group<A>(
    m0: Map<ProfileGroup, A>,
    m1: Map<ProfileGroup, A>,
    m2: Map<ProfileGroup, A>,
    k1: MessageKind,
    k2: MessageKind,
    r1: A,
    r2: A,
    other: ProfileGroup,
)
    requires
        ensured(m0, profile_group(k1), m1, r1),
        ensured(m1, profile_group(k2), m2, r2),
        profile_group(k1) == profile_group(k2),
        other != profile_group(k1),
    ensures
        r2 == r1,
        m2 == m1,
        m1.contains_key(other) == m0.contains_key(other),
        m0.contains_key(other) ==> m1[other] == m0[other],
{
}

} // verus!
