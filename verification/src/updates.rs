//! The updates that an OpenFMB message gives the HMI's clients: each client
//! watches topics, points of a device's data or (`*`) all of a device's data,
//! and gets the values the message carries for them, grouped by session.

use vstd::prelude::*;

use crate::flatten::{
    flatten, flatten_document, point_pairs, sort_all, DataValue, DataValueView, JsonValue,
};
use crate::ordered::{lemma_lookup_member, lemma_sorted_insert_members, listing_lookup, sorted_insert, OrderedMap};
use crate::routing::{carries_device_data, MessageKind};
use crate::text::{concat2, lowercase, str_eq, to_lowercase};

verus! {

/// A data point that a client watches or is sent.
#[derive(Clone, Debug)]
pub struct Topic {
    pub name: String,
    pub mrid: String,
    pub value: Option<DataValue>,
    pub action: Option<String>,
    /// The bits of an `f64` argument.
    pub args: Option<u64>,
}

/// What a topic holds.
pub struct TopicView {
    pub name: Seq<char>,
    pub mrid: Seq<char>,
    pub value: Option<DataValueView>,
    pub action: Option<Seq<char>>,
    pub args: Option<u64>,
}

impl View for Topic {
    type V = TopicView;

    open spec fn view(&self) -> TopicView {
        TopicView {
            name: self.name@,
            mrid: self.mrid@,
            value: match self.value {
                Some(v) => Some(v@),
                None => None,
            },
            action: match self.action {
                Some(a) => Some(a@),
                None => None,
            },
            args: self.args,
        }
    }
}

/// An update of one data point for a client session.
#[derive(Clone, Debug)]
pub struct UpdateMessage {
    pub profile: Option<String>,
    pub topic: Topic,
    pub session_id: Option<String>,
}

/// What an update holds.
pub struct UpdateView {
    pub profile: Option<Seq<char>>,
    pub topic: TopicView,
    pub session_id: Option<Seq<char>>,
}

impl View for UpdateMessage {
    type V = UpdateView;

    open spec fn view(&self) -> UpdateView {
        UpdateView {
            profile: match self.profile {
                Some(p) => Some(p@),
                None => None,
            },
            topic: self.topic@,
            session_id: match self.session_id {
                Some(s) => Some(s@),
                None => None,
            },
        }
    }
}

/// The updates sent to one session together.
#[derive(Clone, Debug)]
pub struct UpdateMessages {
    pub updates: Vec<UpdateMessage>,
    pub session_id: Option<String>,
}

/// A client session and the topics it watches.
#[derive(Clone, Debug)]
pub struct ClientTopics {
    pub session_id: String,
    pub topics: Vec<Topic>,
}

/// The views of a list of updates.
pub open spec fn update_views(v: Seq<UpdateMessage>) -> Seq<UpdateView> {
    v.map_values(|u: UpdateMessage| u@)
}

/// The views of a list of topics.
pub open spec fn topic_views(v: Seq<Topic>) -> Seq<TopicView> {
    v.map_values(|t: Topic| t@)
}

/// The data points of a JSON document read in at `root`, in key order.
pub open spec fn ordered_points(json: Option<JsonValue>, root: Seq<char>) -> Seq<
    (Seq<char>, DataValueView),
> {
    match json {
        Some(j) => sort_all(Seq::empty(), flatten(j, root)),
        None => Seq::empty(),
    }
}

/// The updates that send every data point of a device to a session.
pub open spec fn all_point_updates(
    points: Seq<(Seq<char>, DataValueView)>,
    message_type: Seq<char>,
    session: Seq<char>,
    mrid: Seq<char>,
) -> Seq<UpdateView> {
    points.map_values(
        |p: (Seq<char>, DataValueView)|
            UpdateView {
                profile: Some(message_type),
                session_id: Some(session),
                topic: TopicView { name: p.0, mrid, value: Some(p.1), action: None, args: None },
            },
    )
}

/// The updates that one watched topic gets: every data point for a `*`
/// topic of the device, the point of the topic's name (in lowercase) for
/// another topic of the device, nothing for a topic of another device.
pub open spec fn topic_updates(
    t: TopicView,
    session: Seq<char>,
    message_type: Seq<char>,
    mrid: Seq<char>,
    all_points: Seq<(Seq<char>, DataValueView)>,
    data: Seq<(Seq<char>, DataValueView)>,
) -> Seq<UpdateView> {
    if t.name == "*"@ {
        if t.mrid == mrid {
            all_point_updates(all_points, message_type, session, mrid)
        } else {
            Seq::empty()
        }
    } else if t.mrid == mrid {
        match listing_lookup(data, lowercase(t.name)) {
            Some(v) => seq![
                UpdateView {
                    profile: None,
                    session_id: Some(session),
                    topic: TopicView { value: Some(v), ..t },
                },
            ],
            None => Seq::empty(),
        }
    } else {
        Seq::empty()
    }
}

/// The updates that a list of watched topics gets, in order.
pub open spec fn topics_updates(
    ts: Seq<TopicView>,
    session: Seq<char>,
    message_type: Seq<char>,
    mrid: Seq<char>,
    all_points: Seq<(Seq<char>, DataValueView)>,
    data: Seq<(Seq<char>, DataValueView)>,
) -> Seq<UpdateView>
    decreases ts.len(),
{
    if ts.len() == 0 {
        Seq::empty()
    } else {
        topics_updates(ts.drop_last(), session, message_type, mrid, all_points, data) + topic_updates(
            ts.last(),
            session,
            message_type,
            mrid,
            all_points,
            data,
        )
    }
}

/// The updates grouped by session after adding a client's updates: a
/// session gets an entry only once it has an update.
pub open spec fn add_session_updates(
    groups: Seq<(Seq<char>, Seq<UpdateView>)>,
    session: Seq<char>,
    ups: Seq<UpdateView>,
) -> Seq<(Seq<char>, Seq<UpdateView>)> {
    if ups.len() == 0 {
        groups
    } else {
        let before = match listing_lookup(groups, session) {
            Some(u) => u,
            None => Seq::empty(),
        };
        sorted_insert(groups, session, before + ups)
    }
}

/// The views of grouped updates.
pub open spec fn group_views(s: Seq<(Seq<char>, Vec<UpdateMessage>)>) -> Seq<
    (Seq<char>, Seq<UpdateView>),
> {
    s.map_values(|e: (Seq<char>, Vec<UpdateMessage>)| (e.0, update_views(e.1@)))
}

/// The updates of all clients, in client order, grouped by session in
/// session order.
pub open spec fn clients_updates(
    clients: Seq<ClientTopics>,
    message_type: Seq<char>,
    mrid: Seq<char>,
    all_points: Seq<(Seq<char>, DataValueView)>,
    data: Seq<(Seq<char>, DataValueView)>,
) -> Seq<(Seq<char>, Seq<UpdateView>)>
    decreases clients.len(),
{
    if clients.len() == 0 {
        Seq::empty()
    } else {
        let c = clients.last();
        add_session_updates(
            clients_updates(clients.drop_last(), message_type, mrid, all_points, data),
            c.session_id@,
            topics_updates(topic_views(c.topics@), c.session_id@, message_type, mrid, all_points, data),
        )
    }
}

/// The root path under which a message's data points are read.
pub open spec fn mapping_root(message_type: Seq<char>) -> Seq<char> {
    message_type + "Profile.mapping"@
}

/// The updates an OpenFMB message gives: none for a message without a
/// device; else the updates of every client, grouped by session. `*`
/// topics read the whole message (`message_json`); other topics read the
/// device data (`profile_json`), which only some kinds of message carry.
/// A document that could not be produced is `None` and yields no points.
pub open spec fn message_updates(
    clients: Seq<ClientTopics>,
    kind: MessageKind,
    message_type: Seq<char>,
    mrid: Seq<char>,
    message_json: Option<JsonValue>,
    profile_json: Option<JsonValue>,
) -> Seq<(Seq<char>, Seq<UpdateView>)> {
    if mrid.len() == 0 {
        Seq::empty()
    } else {
        clients_updates(
            clients,
            message_type,
            mrid,
            ordered_points(message_json, mapping_root(message_type)),
            if carries_device_data(kind) {
                ordered_points(profile_json, mapping_root(message_type))
            } else {
                Seq::empty()
            },
        )
    }
}

/// A copy of a data value.
pub fn copy_value(v: &DataValue) -> (r: DataValue)
    ensures
        r@ == v@,
{
    match v {
        DataValue::Bool(b) => DataValue::Bool(*b),
        DataValue::Double(d) => DataValue::Double(*d),
        DataValue::String(s) => DataValue::String(s.clone()),
    }
}

fn copy_opt_string(o: &Option<String>) -> (r: Option<String>)
    ensures
        r == *o,
{
    match o {
        Some(s) => Some(s.clone()),
        None => None,
    }
}

/// A copy of a topic.
pub fn copy_topic(t: &Topic) -> (r: Topic)
    ensures
        r@ == t@,
{
    Topic {
        name: t.name.clone(),
        mrid: t.mrid.clone(),
        value: match &t.value {
            Some(v) => Some(copy_value(v)),
            None => None,
        },
        action: copy_opt_string(&t.action),
        args: t.args,
    }
}

/// A copy of an update.
pub fn copy_update(u: &UpdateMessage) -> (r: UpdateMessage)
    ensures
        r@ == u@,
{
    UpdateMessage {
        profile: copy_opt_string(&u.profile),
        topic: copy_topic(&u.topic),
        session_id: copy_opt_string(&u.session_id),
    }
}

impl UpdateMessage {
    /// An update of `topic` for session `session_id`.
    pub fn create(topic: Topic, session_id: String, profile: Option<String>) -> (r: UpdateMessage)
        ensures
            r.topic == topic,
            r.session_id == Some(session_id),
            r.profile == profile,
    {
        UpdateMessage { profile, topic, session_id: Some(session_id) }
    }
}

impl UpdateMessages {
    /// The updates for session `session_id`.
    pub fn new(messages: Vec<UpdateMessage>, session_id: String) -> (r: UpdateMessages)
        ensures
            r.updates == messages,
            r.session_id == Some(session_id),
    {
        UpdateMessages { updates: messages, session_id: Some(session_id) }
    }
}

/// The updates of each data point, for a `*` topic.
fn push_all_points(
    out: &mut Vec<UpdateMessage>,
    points: &Vec<(String, DataValue)>,
    message_type: &str,
    session: &str,
    mrid: &str,
)
    ensures
        update_views(final(out)@) == update_views(old(out)@) + all_point_updates(
            point_pairs(crate::ordered::key_listing(points@)),
            message_type@,
            session@,
            mrid@,
        ),
{
    let ghost start = update_views(out@);
    let ghost ps = point_pairs(crate::ordered::key_listing(points@));
    let n = points.len();
    let mut i: usize = 0;
    while i < n
        invariant
            n == points@.len(),
            ps == point_pairs(crate::ordered::key_listing(points@)),
            i <= n,
            update_views(out@) == start + all_point_updates(
                ps.subrange(0, i as int),
                message_type@,
                session@,
                mrid@,
            ),
        decreases n - i,
    {
        let (k, v) = (&points[i].0, &points[i].1);
        let u = UpdateMessage {
            profile: Some(String::from_str(message_type)),
            session_id: Some(String::from_str(session)),
            topic: Topic {
                name: k.clone(),
                mrid: String::from_str(mrid),
                value: Some(copy_value(v)),
                action: None,
                args: None,
            },
        };
        let ghost before = out@;
        out.push(u);
        proof {
            assert(ps[i as int] == (k@, v@));
            assert(ps.subrange(0, i + 1) =~= ps.subrange(0, i as int).push(ps[i as int]));
            assert(update_views(out@) =~= update_views(before).push(u@));
            assert(all_point_updates(ps.subrange(0, i + 1), message_type@, session@, mrid@)
                =~= all_point_updates(ps.subrange(0, i as int), message_type@, session@, mrid@).push(
                u@,
            ));
        }
        i = i + 1;
    }
    proof {
        assert(ps.subrange(0, n as int) =~= ps);
    }
}

/// The updates that one client's topics get.
fn client_updates(
    client: &ClientTopics,
    message_type: &str,
    mrid: &str,
    all_points: &Vec<(String, DataValue)>,
    data: &OrderedMap<DataValue>,
) -> (r: Vec<UpdateMessage>)
    ensures
        update_views(r@) == topics_updates(
            topic_views(client.topics@),
            client.session_id@,
            message_type@,
            mrid@,
            point_pairs(crate::ordered::key_listing(all_points@)),
            point_pairs(data.pairs()),
        ),
{
    let ghost aps = point_pairs(crate::ordered::key_listing(all_points@));
    let ghost dps = point_pairs(data.pairs());
    let ghost tvs = topic_views(client.topics@);
    let ghost session = client.session_id@;
    let mut out: Vec<UpdateMessage> = Vec::new();
    let n = client.topics.len();
    let mut i: usize = 0;
    proof {
        assert(update_views(out@) =~= Seq::<UpdateView>::empty());
    }
    while i < n
        invariant
            n == client.topics@.len(),
            tvs == topic_views(client.topics@),
            aps == point_pairs(crate::ordered::key_listing(all_points@)),
            dps == point_pairs(data.pairs()),
            session == client.session_id@,
            i <= n,
            update_views(out@) == topics_updates(
                tvs.subrange(0, i as int),
                session,
                message_type@,
                mrid@,
                aps,
                dps,
            ),
        decreases n - i,
    {
        let t = &client.topics[i];
        let ghost before = update_views(out@);
        proof {
            assert(tvs.subrange(0, i + 1).drop_last() =~= tvs.subrange(0, i as int));
            assert(tvs.subrange(0, i + 1).last() == t@);
        }
        if str_eq(t.name.as_str(), "*") {
            if str_eq(t.mrid.as_str(), mrid) {
                push_all_points(&mut out, all_points, message_type, client.session_id.as_str(), mrid);
            }
        } else if str_eq(t.mrid.as_str(), mrid) {
            let key = to_lowercase(t.name.as_str());
            let found = data.get(key.as_str());
            match found {
                Some(v) => {
                    let mut topic = copy_topic(t);
                    topic.value = Some(copy_value(v));
                    let u = UpdateMessage::create(topic, client.session_id.clone(), None);
                    let ghost before_out = out@;
                    out.push(u);
                    proof {
                        assert(update_views(out@) =~= update_views(before_out).push(u@));
                        assert(point_pairs(data.pairs()) == dps);
                        lemma_lookup_point_pairs(data.pairs(), key@);
                    }
                },
                None => {
                    proof {
                        lemma_lookup_point_pairs(data.pairs(), key@);
                    }
                },
            }
        }
        proof {
            reveal_strlit("*");
            assert(update_views(out@) =~= before + topic_updates(
                t@,
                session,
                message_type@,
                mrid@,
                aps,
                dps,
            ));
        }
        i = i + 1;
    }
    proof {
        assert(tvs.subrange(0, n as int) =~= tvs);
    }
    out
}

/// Looking a key up commutes with taking the data points of entries.
proof fn lemma_lookup_point_pairs(s: Seq<(Seq<char>, DataValue)>, k: Seq<char>)
    ensures
        listing_lookup(point_pairs(s), k) == (match listing_lookup(s, k) {
            Some(v) => Some(v@),
            None => None::<DataValueView>,
        }),
    decreases s.len(),
{
    if s.len() > 0 {
        assert(point_pairs(s).drop_first() =~= point_pairs(s.drop_first()));
        lemma_lookup_point_pairs(s.drop_first(), k);
    }
}

/// Looking a key up commutes with taking the views of grouped updates.
proof fn lemma_lookup_group_views(s: Seq<(Seq<char>, Vec<UpdateMessage>)>, k: Seq<char>)
    ensures
        listing_lookup(group_views(s), k) == (match listing_lookup(s, k) {
            Some(v) => Some(update_views(v@)),
            None => None::<Seq<UpdateView>>,
        }),
    decreases s.len(),
{
    if s.len() > 0 {
        assert(group_views(s).drop_first() =~= group_views(s.drop_first()));
        lemma_lookup_group_views(s.drop_first(), k);
    }
}

/// Inserting commutes with taking the views of grouped updates.
proof fn lemma_insert_group_views(
    s: Seq<(Seq<char>, Vec<UpdateMessage>)>,
    k: Seq<char>,
    v: Vec<UpdateMessage>,
)
    ensures
        group_views(sorted_insert(s, k, v)) == sorted_insert(group_views(s), k, update_views(v@)),
    decreases s.len(),
{
    let gs = group_views(s);
    if s.len() == 0 {
        assert(group_views(seq![(k, v)]) =~= seq![(k, update_views(v@))]);
    } else {
        assert(gs[0].0 == s[0].0);
        assert(group_views(s.drop_first()) =~= gs.drop_first());
        if s[0].0 == k {
            assert(group_views(seq![(k, v)] + s.drop_first()) =~= seq![(k, update_views(v@))]
                + gs.drop_first());
        } else if crate::ordered::key_lt(k, s[0].0) {
            assert(group_views(seq![(k, v)] + s) =~= seq![(k, update_views(v@))] + gs);
        } else {
            lemma_insert_group_views(s.drop_first(), k, v);
            assert(group_views(seq![s[0]] + sorted_insert(s.drop_first(), k, v)) =~= seq![gs[0]]
                + group_views(sorted_insert(s.drop_first(), k, v)));
        }
    }
}

/// The updates an OpenFMB message gives the clients, grouped by session in
/// session order. `message_json` is the whole message as JSON, and
/// `profile_json` the device data it carries, each `None` where it could not
/// be produced.
pub fn openfmb_updates(
    clients: &Vec<ClientTopics>,
    kind: MessageKind,
    message_type: &str,
    device_mrid: &str,
    message_json: Option<&JsonValue>,
    profile_json: Option<&JsonValue>,
) -> (r: OrderedMap<Vec<UpdateMessage>>)
    ensures
        group_views(r.pairs()) == message_updates(
            clients@,
            kind,
            message_type@,
            device_mrid@,
            match message_json {
                Some(j) => Some(*j),
                None => None,
            },
            match profile_json {
                Some(j) => Some(*j),
                None => None,
            },
        ),
{
    let mut groups: OrderedMap<Vec<UpdateMessage>> = OrderedMap::new();
    if device_mrid.is_empty() {
        proof {
            assert(group_views(groups.pairs()) =~= Seq::<(Seq<char>, Seq<UpdateView>)>::empty());
        }
        return groups;
    }
    let root = concat2(message_type, "Profile.mapping");
    let all_points: Vec<(String, DataValue)> = match message_json {
        Some(j) => flatten_document(j, root.clone()).into_entries(),
        None => Vec::new(),
    };
    let data: OrderedMap<DataValue> = match profile_json {
        Some(j) => if kind.carries_device_data() {
            flatten_document(j, root)
        } else {
            OrderedMap::new()
        },
        None => OrderedMap::new(),
    };
    let ghost aps = point_pairs(crate::ordered::key_listing(all_points@));
    let ghost dps = point_pairs(data.pairs());
    proof {
        assert(root@ =~= mapping_root(message_type@));
        assert(aps =~= ordered_points(
            match message_json {
                Some(j) => Some(*j),
                None => None,
            },
            mapping_root(message_type@),
        ));
        assert(dps =~= (if carries_device_data(kind) {
            ordered_points(
                match profile_json {
                    Some(j) => Some(*j),
                    None => None,
                },
                mapping_root(message_type@),
            )
        } else {
            Seq::empty()
        }));
        assert(group_views(groups.pairs()) =~= Seq::<(Seq<char>, Seq<UpdateView>)>::empty());
    }
    let n = clients.len();
    let mut i: usize = 0;
    while i < n
        invariant
            n == clients@.len(),
            i <= n,
            aps == point_pairs(crate::ordered::key_listing(all_points@)),
            dps == point_pairs(data.pairs()),
            group_views(groups.pairs()) == clients_updates(
                clients@.subrange(0, i as int),
                message_type@,
                device_mrid@,
                aps,
                dps,
            ),
        decreases n - i,
    {
        let c = &clients[i];
        let ups = client_updates(c, message_type, device_mrid, &all_points, &data);
        proof {
            assert(clients@.subrange(0, i + 1).drop_last() =~= clients@.subrange(0, i as int));
            assert(clients@.subrange(0, i + 1).last() == *c);
        }
        if ups.len() > 0 {
            let ghost gp = groups.pairs();
            let mut merged: Vec<UpdateMessage> = match groups.get(c.session_id.as_str()) {
                Some(existing) => {
                    let mut copy: Vec<UpdateMessage> = Vec::new();
                    let m = existing.len();
                    let mut j: usize = 0;
                    while j < m
                        invariant
                            m == existing@.len(),
                            j <= m,
                            update_views(copy@) == update_views(existing@).subrange(0, j as int),
                        decreases m - j,
                    {
                        let ghost before = copy@;
                        copy.push(copy_update(&existing[j]));
                        proof {
                            assert(update_views(copy@) =~= update_views(before).push(existing@[j as int]@));
                            assert(update_views(existing@).subrange(0, j + 1) =~= update_views(existing@).subrange(0, j as int).push(existing@[j as int]@));
                        }
                        j = j + 1;
                    }
                    proof {
                        assert(update_views(existing@).subrange(0, m as int) =~= update_views(existing@));
                    }
                    copy
                },
                None => Vec::new(),
            };
            proof {
                lemma_lookup_group_views(gp, c.session_id@);
            }
            let ghost merged_before = merged@;
            let mut ups_mut = ups;
            let ghost ups_v = update_views(ups_mut@);
            merged.append(&mut ups_mut);
            proof {
                assert(update_views(merged@) =~= update_views(merged_before) + ups_v);
                lemma_insert_group_views(gp, c.session_id@, merged);
            }
            groups.insert(c.session_id.clone(), merged);
        }
        i = i + 1;
    }
    proof {
        assert(clients@.subrange(0, n as int) =~= clients@);
    }
    groups
}

/// The positions of the clients that updates for session `session_id` go
/// to: those of that session; none when the updates name no session.
pub fn recipients(clients: &Vec<ClientTopics>, session_id: &Option<String>) -> (r: Vec<usize>)
    ensures
        forall|k: int| 0 <= k < r@.len() ==> r@[k] < clients@.len(),
        forall|k: int, l: int| 0 <= k < l < r@.len() ==> r@[k] < r@[l],
        forall|i: int|
            0 <= i < clients@.len() ==> (r@.contains(i as usize) <==> (session_id matches Some(s)
                && #[trigger] clients@[i].session_id@ == s@)),
{
    let mut out: Vec<usize> = Vec::new();
    let s = match session_id {
        Some(s) => s,
        None => {
            return out;
        },
    };
    let n = clients.len();
    let mut i: usize = 0;
    while i < n
        invariant
            n == clients@.len(),
            i <= n,
            forall|k: int| 0 <= k < out@.len() ==> out@[k] < i,
            forall|k: int, l: int| 0 <= k < l < out@.len() ==> out@[k] < out@[l],
            forall|j: int|
                0 <= j < i ==> (out@.contains(j as usize) <==> #[trigger] clients@[j].session_id@ == s@),
        decreases n - i,
    {
        let ghost before = out@;
        if str_eq(clients[i].session_id.as_str(), s.as_str()) {
            out.push(i);
            proof {
                assert(out@[out@.len() - 1] == i);
            }
        }
        proof {
            assert forall|j: int| 0 <= j < i + 1 implies (out@.contains(j as usize)
                <==> clients@[j].session_id@ == s@) by {
                if j < i {
                    if before.contains(j as usize) {
                        let k = choose|k: int| 0 <= k < before.len() && before[k] == j as usize;
                        assert(out@[k] == j as usize);
                    }
                    if out@.contains(j as usize) {
                        let k = choose|k: int| 0 <= k < out@.len() && out@[k] == j as usize;
                        if k < before.len() {
                            assert(before[k] == j as usize);
                        }
                    }
                } else {
                    if clients@[j].session_id@ == s@ {
                        assert(out@[out@.len() - 1] == j as usize);
                    }
                    if out@.contains(j as usize) {
                        let k = choose|k: int| 0 <= k < out@.len() && out@[k] == j as usize;
                        if k < before.len() {
                            assert(before[k] < i);
                        }
                    }
                }
            }
        }
        i = i + 1;
    }
    out
}

/// Replaces the topics a client watches by copies of `topics`.
pub fn register_topics(client: &mut ClientTopics, topics: &Vec<Topic>)
    ensures
        topic_views(final(client).topics@) == topic_views(topics@),
        final(client).session_id == old(client).session_id,
{
    let mut copies: Vec<Topic> = Vec::new();
    let n = topics.len();
    let mut i: usize = 0;
    while i < n
        invariant
            n == topics@.len(),
            i <= n,
            topic_views(copies@) == topic_views(topics@).subrange(0, i as int),
        decreases n - i,
    {
        let ghost before = copies@;
        copies.push(copy_topic(&topics[i]));
        proof {
            assert(topic_views(copies@) =~= topic_views(before).push(topics@[i as int]@));
            assert(topic_views(topics@).subrange(0, i + 1) =~= topic_views(topics@).subrange(
                0,
                i as int,
            ).push(topics@[i as int]@));
        }
        i = i + 1;
    }
    proof {
        assert(topic_views(topics@).subrange(0, n as int) =~= topic_views(topics@));
    }
    client.topics = copies;
}

/// Whether every update is about device `mrid` and for session `session`.
pub open spec fn updates_for(ups: Seq<UpdateView>, mrid: Seq<char>, session: Seq<char>) -> bool {
    forall|j: int|
        0 <= j < ups.len() ==> (#[trigger] ups[j]).topic.mrid == mrid && ups[j].session_id == Some(
            session,
        )
}

/// Whether every group of updates is about device `mrid` and for the
/// group's session.
pub open spec fn groups_for(groups: Seq<(Seq<char>, Seq<UpdateView>)>, mrid: Seq<char>) -> bool {
    forall|i: int| 0 <= i < groups.len() ==> updates_for((#[trigger] groups[i]).1, mrid, groups[i].0)
}

proof fn lemma_topics_updates_for(
    ts: Seq<TopicView>,
    session: Seq<char>,
    message_type: Seq<char>,
    mrid: Seq<char>,
    all_points: Seq<(Seq<char>, DataValueView)>,
    data: Seq<(Seq<char>, DataValueView)>,
)
    ensures
        updates_for(topics_updates(ts, session, message_type, mrid, all_points, data), mrid, session),
    decreases ts.len(),
{
    if ts.len() > 0 {
        lemma_topics_updates_for(ts.drop_last(), session, message_type, mrid, all_points, data);
        let a = topics_updates(ts.drop_last(), session, message_type, mrid, all_points, data);
        let b = topic_updates(ts.last(), session, message_type, mrid, all_points, data);
        assert forall|j: int| 0 <= j < (a + b).len() implies (#[trigger] (a + b)[j]).topic.mrid == mrid
            && (a + b)[j].session_id == Some(session) by {
            if j >= a.len() {
                assert((a + b)[j] == b[j - a.len()]);
            } else {
                assert((a + b)[j] == a[j]);
            }
        }
    }
}

proof fn lemma_clients_updates_for(
    clients: Seq<ClientTopics>,
    message_type: Seq<char>,
    mrid: Seq<char>,
    all_points: Seq<(Seq<char>, DataValueView)>,
    data: Seq<(Seq<char>, DataValueView)>,
)
    ensures
        groups_for(clients_updates(clients, message_type, mrid, all_points, data), mrid),
    decreases clients.len(),
{
    if clients.len() > 0 {
        let c = clients.last();
        let g = clients_updates(clients.drop_last(), message_type, mrid, all_points, data);
        lemma_clients_updates_for(clients.drop_last(), message_type, mrid, all_points, data);
        let session = c.session_id@;
        let ups = topics_updates(topic_views(c.topics@), session, message_type, mrid, all_points, data);
        lemma_topics_updates_for(topic_views(c.topics@), session, message_type, mrid, all_points, data);
        if ups.len() > 0 {
            let before = match listing_lookup(g, session) {
                Some(u) => u,
                None => Seq::empty(),
            };
            lemma_lookup_member(g, session);
            match listing_lookup(g, session) {
                Some(u) => {
                    let j = choose|j: int| 0 <= j < g.len() && g[j] == (session, u);
                    assert(updates_for(g[j].1, mrid, g[j].0));
                },
                None => {},
            }
            let merged = before + ups;
            assert forall|j: int| 0 <= j < merged.len() implies (#[trigger] merged[j]).topic.mrid == mrid
                && merged[j].session_id == Some(session) by {
                if j >= before.len() {
                    assert(merged[j] == ups[j - before.len()]);
                } else {
                    assert(merged[j] == before[j]);
                }
            }
            lemma_sorted_insert_members(g, session, merged);
            let r = sorted_insert(g, session, merged);
            assert forall|i: int| 0 <= i < r.len() implies updates_for((#[trigger] r[i]).1, mrid, r[i].0) by {
                if r[i] != (session, merged) {
                    let m = choose|m: int| 0 <= m < g.len() && g[m] == r[i];
                    assert(updates_for(g[m].1, mrid, g[m].0));
                }
            }
        }
    }
}

/// Clients only get updates about the message's device, each marked with the
/// session of the group it is sent in.
pub proof fn law_updates_concern_the_device(
    clients: Seq<ClientTopics>,
    kind: MessageKind,
    message_type: Seq<char>,
    mrid: Seq<char>,
    message_json: Option<JsonValue>,
    profile_json: Option<JsonValue>,
)
    ensures
        groups_for(message_updates(clients, kind, message_type, mrid, message_json, profile_json), mrid),
{
    if mrid.len() > 0 {
        lemma_clients_updates_for(
            clients,
            message_type,
            mrid,
            ordered_points(message_json, mapping_root(message_type)),
            if carries_device_data(kind) {
                ordered_points(profile_json, mapping_root(message_type))
            } else {
                Seq::empty()
            },
        );
    }
}

} // verus!
