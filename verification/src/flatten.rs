//! Flattening of JSON documents into the data points that HMI clients
//! watch: each leaf value is recorded under its dotted path (array elements
//! as `[i]`), with underscores left out and letters in lowercase.

use vstd::prelude::*;

use crate::ordered::{sorted_insert, OrderedMap};
use crate::text::{concat2, concat3, lowercase, remove_char, to_lowercase, without_char};

verus! {

/// A JSON number: its text, and the bits of its `f64` value.
#[derive(Clone, Debug)]
pub struct JsonNumber {
    pub text: String,
    pub bits: u64,
}

/// A JSON document, with the members of each object in document order.
#[derive(Debug)]
pub enum JsonValue {
    Null,
    Bool(bool),
    Number(JsonNumber),
    Str(String),
    Array(Vec<JsonValue>),
    Object(Vec<(String, JsonValue)>),
}

/// The value of a data point; a number is held as the bits of its `f64`.
#[derive(Clone, Debug)]
pub enum DataValue {
    Bool(bool),
    Double(u64),
    String(String),
}

/// What a data point holds.
pub enum DataValueView {
    Bool(bool),
    Double(u64),
    String(Seq<char>),
}

impl View for DataValue {
    type V = DataValueView;

    open spec fn view(&self) -> DataValueView {
        match self {
            DataValue::Bool(b) => DataValueView::Bool(*b),
            DataValue::Double(d) => DataValueView::Double(*d),
            DataValue::String(s) => DataValueView::String(s@),
        }
    }
}

/// The data points that a data map holds.
pub open spec fn data_points(d: Map<Seq<char>, DataValue>) -> Map<Seq<char>, DataValueView> {
    d.map_values(|v: DataValue| v@)
}

/// The key under which the value at a path is recorded.
pub open spec fn data_key(path: Seq<char>) -> Seq<char> {
    lowercase(without_char(path, '_'))
}

/// The decimal digit for `d` (below ten).
pub open spec fn digit_char(d: int) -> char {
    if d == 0 {
        '0'
    } else if d == 1 {
        '1'
    } else if d == 2 {
        '2'
    } else if d == 3 {
        '3'
    } else if d == 4 {
        '4'
    } else if d == 5 {
        '5'
    } else if d == 6 {
        '6'
    } else if d == 7 {
        '7'
    } else if d == 8 {
        '8'
    } else {
        '9'
    }
}

/// The decimal numeral of `n`.
pub open spec fn decimal(n: nat) -> Seq<char>
    decreases n,
{
    if n < 10 {
        seq![digit_char(n as int)]
    } else {
        decimal(n / 10).push(digit_char((n % 10) as int))
    }
}

/// The path of element `i` of an array at `path`.
pub open spec fn element_path(path: Seq<char>, i: nat) -> Seq<char> {
    path + "["@ + decimal(i) + "]"@
}

/// The path of member `k` of an object at `path`.
pub open spec fn member_path(path: Seq<char>, k: Seq<char>) -> Seq<char> {
    path + "."@ + k
}

/// The data points of a JSON value at `path`, in document order.
pub open spec fn flatten(v: JsonValue, path: Seq<char>) -> Seq<(Seq<char>, DataValueView)>
    decreases v,
{
    match v {
        JsonValue::Null => Seq::empty(),
        JsonValue::Bool(b) => seq![(data_key(path), DataValueView::Bool(b))],
        JsonValue::Number(n) => seq![(data_key(path), DataValueView::Double(n.bits))],
        JsonValue::Str(s) => seq![(data_key(path), DataValueView::String(s@))],
        JsonValue::Array(a) => flatten_elements(a@, path, 0),
        JsonValue::Object(m) => flatten_members(m@, path),
    }
}

/// The data points of array elements, the first of them element `start`.
pub open spec fn flatten_elements(items: Seq<JsonValue>, path: Seq<char>, start: nat) -> Seq<
    (Seq<char>, DataValueView),
>
    decreases items,
{
    if items.len() == 0 {
        Seq::empty()
    } else {
        flatten(items[0], element_path(path, start)) + flatten_elements(
            items.drop_first(),
            path,
            start + 1,
        )
    }
}

/// The data points of object members.
pub open spec fn flatten_members(members: Seq<(String, JsonValue)>, path: Seq<char>) -> Seq<
    (Seq<char>, DataValueView),
>
    decreases members,
{
    if members.len() == 0 {
        Seq::empty()
    } else {
        flatten(members[0].1, member_path(path, members[0].0@)) + flatten_members(
            members.drop_first(),
            path,
        )
    }
}

/// The path and value of a node at `path` holding `value` after it reads
/// `v`: a leaf sets the value, an array moves the node to the path of each
/// element in turn as it reads it, and an object or a null changes neither.
pub open spec fn node_state(v: JsonValue, path: Seq<char>, value: Seq<char>) -> (Seq<char>, Seq<char>)
    decreases v,
{
    match v {
        JsonValue::Null => (path, value),
        JsonValue::Bool(b) => (path, if b { "true"@ } else { "false"@ }),
        JsonValue::Number(n) => (path, n.text@),
        JsonValue::Str(s) => (path, s@),
        JsonValue::Array(a) => elements_state(a@, path, 0, path, value),
        JsonValue::Object(m) => (path, value),
    }
}

/// The path and value of a node at `path` holding `value` after it reads
/// the array elements `items` of the array at `base`, the first of them
/// element `start`.
pub open spec fn elements_state(
    items: Seq<JsonValue>,
    base: Seq<char>,
    start: nat,
    path: Seq<char>,
    value: Seq<char>,
) -> (Seq<char>, Seq<char>)
    decreases items,
{
    if items.len() == 0 {
        (path, value)
    } else {
        let next = node_state(items[0], element_path(base, start), value);
        elements_state(items.drop_first(), base, start + 1, next.0, next.1)
    }
}

/// A map after recording the data points in order, a later one replacing
/// an earlier one under the same key.
pub open spec fn record_all(
    m: Map<Seq<char>, DataValueView>,
    points: Seq<(Seq<char>, DataValueView)>,
) -> Map<Seq<char>, DataValueView>
    decreases points.len(),
{
    if points.len() == 0 {
        m
    } else {
        record_all(m.insert(points[0].0, points[0].1), points.drop_first())
    }
}

/// Recording two runs of points is recording their concatenation.
pub proof fn lemma_record_all_concat(
    m: Map<Seq<char>, DataValueView>,
    a: Seq<(Seq<char>, DataValueView)>,
    b: Seq<(Seq<char>, DataValueView)>,
)
    ensures
        record_all(m, a + b) == record_all(record_all(m, a), b),
    decreases a.len(),
{
    if a.len() > 0 {
        assert((a + b).drop_first() =~= a.drop_first() + b);
        lemma_record_all_concat(m.insert(a[0].0, a[0].1), a.drop_first(), b);
    } else {
        assert(a + b =~= b);
    }
}

/// The data points of an ordered list of entries.
pub open spec fn point_pairs(s: Seq<(Seq<char>, DataValue)>) -> Seq<(Seq<char>, DataValueView)> {
    s.map_values(|e: (Seq<char>, DataValue)| (e.0, e.1@))
}

/// An ordered list after recording the data points in order.
pub open spec fn sort_all(
    s: Seq<(Seq<char>, DataValueView)>,
    points: Seq<(Seq<char>, DataValueView)>,
) -> Seq<(Seq<char>, DataValueView)>
    decreases points.len(),
{
    if points.len() == 0 {
        s
    } else {
        sort_all(sorted_insert(s, points[0].0, points[0].1), points.drop_first())
    }
}

/// Recording two runs of points in order is recording their concatenation.
pub proof fn lemma_sort_all_concat(
    s: Seq<(Seq<char>, DataValueView)>,
    a: Seq<(Seq<char>, DataValueView)>,
    b: Seq<(Seq<char>, DataValueView)>,
)
    ensures
        sort_all(s, a + b) == sort_all(sort_all(s, a), b),
    decreases a.len(),
{
    if a.len() > 0 {
        assert((a + b).drop_first() =~= a.drop_first() + b);
        lemma_sort_all_concat(sorted_insert(s, a[0].0, a[0].1), a.drop_first(), b);
    } else {
        assert(a + b =~= b);
    }
}

/// Taking the data points of entries commutes with an ordered insertion.
pub proof fn lemma_point_pairs_insert(s: Seq<(Seq<char>, DataValue)>, k: Seq<char>, v: DataValue)
    ensures
        point_pairs(sorted_insert(s, k, v)) == sorted_insert(point_pairs(s), k, v@),
    decreases s.len(),
{
    let ps = point_pairs(s);
    if s.len() == 0 {
        assert(point_pairs(seq![(k, v)]) =~= seq![(k, v@)]);
    } else {
        assert(ps[0].0 == s[0].0);
        assert(point_pairs(s.drop_first()) =~= ps.drop_first());
        if s[0].0 == k {
            assert(point_pairs(seq![(k, v)] + s.drop_first()) =~= seq![(k, v@)] + ps.drop_first());
        } else if crate::ordered::key_lt(k, s[0].0) {
            assert(point_pairs(seq![(k, v)] + s) =~= seq![(k, v@)] + ps);
        } else {
            lemma_point_pairs_insert(s.drop_first(), k, v);
            assert(point_pairs(seq![s[0]] + sorted_insert(s.drop_first(), k, v)) =~= seq![ps[0]]
                + point_pairs(sorted_insert(s.drop_first(), k, v)));
        }
    }
}

/// The flattening of the elements after the first `i` of an array.
proof fn lemma_flatten_elements_split(items: Seq<JsonValue>, path: Seq<char>, i: int)
    requires
        0 <= i < items.len(),
    ensures
        flatten_elements(items.subrange(i, items.len() as int), path, i as nat) == flatten(
            items[i],
            element_path(path, i as nat),
        ) + flatten_elements(items.subrange(i + 1, items.len() as int), path, (i + 1) as nat),
{
    let t = items.subrange(i, items.len() as int);
    assert(t[0] == items[i]);
    assert(t.drop_first() =~= items.subrange(i + 1, items.len() as int));
}

/// Reading the elements after the first `i` of an array is reading
/// element `i` and then the rest.
proof fn lemma_elements_state_split(
    items: Seq<JsonValue>,
    base: Seq<char>,
    i: int,
    path: Seq<char>,
    value: Seq<char>,
)
    requires
        0 <= i < items.len(),
    ensures
        ({
            let next = node_state(items[i], element_path(base, i as nat), value);
            elements_state(items.subrange(i, items.len() as int), base, i as nat, path, value)
                == elements_state(
                items.subrange(i + 1, items.len() as int),
                base,
                (i + 1) as nat,
                next.0,
                next.1,
            )
        }),
{
    let t = items.subrange(i, items.len() as int);
    assert(t[0] == items[i]);
    assert(t.drop_first() =~= items.subrange(i + 1, items.len() as int));
}

/// The flattening of the members after the first `i` of an object.
proof fn lemma_flatten_members_split(members: Seq<(String, JsonValue)>, path: Seq<char>, i: int)
    requires
        0 <= i < members.len(),
    ensures
        flatten_members(members.subrange(i, members.len() as int), path) == flatten(
            members[i].1,
            member_path(path, members[i].0@),
        ) + flatten_members(members.subrange(i + 1, members.len() as int), path),
{
    let t = members.subrange(i, members.len() as int);
    assert(t[0] == members[i]);
    assert(t.drop_first() =~= members.subrange(i + 1, members.len() as int));
}

/// The decimal numeral of `n`.
pub fn decimal_string(n: u64) -> (r: String)
    ensures
        r@ == decimal(n as nat),
    decreases n,
{
    let d = n % 10;
    let digit = if d == 0 {
        "0"
    } else if d == 1 {
        "1"
    } else if d == 2 {
        "2"
    } else if d == 3 {
        "3"
    } else if d == 4 {
        "4"
    } else if d == 5 {
        "5"
    } else if d == 6 {
        "6"
    } else if d == 7 {
        "7"
    } else if d == 8 {
        "8"
    } else {
        "9"
    };
    proof {
        reveal_strlit("0");
        reveal_strlit("1");
        reveal_strlit("2");
        reveal_strlit("3");
        reveal_strlit("4");
        reveal_strlit("5");
        reveal_strlit("6");
        reveal_strlit("7");
        reveal_strlit("8");
        reveal_strlit("9");
        assert(digit@ =~= seq![digit_char(d as int)]);
    }
    if n < 10 {
        String::from_str(digit)
    } else {
        let head = decimal_string(n / 10);
        concat2(head.as_str(), digit)
    }
}

/// The key under which the value at `path` is recorded.
pub fn data_key_of(path: &str) -> (r: String)
    ensures
        r@ == data_key(path@),
{
    let plain = remove_char(path, '_');
    to_lowercase(plain.as_str())
}

/// A node of the tree that a JSON document is read into.
pub struct Node {
    name: String,
    path: String,
    value: String,
    nodes: Vec<Node>,
}

impl Node {
    /// The name of the node.
    pub closed spec fn name_view(&self) -> Seq<char> {
        self.name@
    }

    /// The path of the node.
    pub closed spec fn path_view(&self) -> Seq<char> {
        self.path@
    }

    /// The value of the node.
    pub closed spec fn value_view(&self) -> Seq<char> {
        self.value@
    }

    /// The children of the node, in the order they were added.
    pub closed spec fn children(&self) -> Seq<Node> {
        self.nodes@
    }

    /// A node without children, path or value.
    pub fn new(name: &str) -> (r: Node)
        ensures
            r.name_view() == name@,
            r.path_view() == Seq::<char>::empty(),
            r.value_view() == Seq::<char>::empty(),
    {
        Node { nodes: Vec::new(), name: String::from_str(name), path: String::new(), value: String::new() }
    }

    /// A node without children or value at path `path`.
    pub fn with_path(name: &str, path: String) -> (r: Node)
        ensures
            r.name_view() == name@,
            r.path_view() == path@,
            r.value_view() == Seq::<char>::empty(),
    {
        Node { nodes: Vec::new(), name: String::from_str(name), path, value: String::new() }
    }

    /// The path of the node.
    pub fn path(&self) -> (r: String)
        ensures
            r@ == self.path_view(),
    {
        self.path.clone()
    }

    /// The value of the node.
    pub fn get_value(&self) -> (r: String)
        ensures
            r@ == self.value_view(),
    {
        self.value.clone()
    }

    /// Sets the value of the node.
    pub fn set_value(&mut self, value: &str)
        ensures
            final(self).value_view() == value@,
            final(self).name_view() == old(self).name_view(),
            final(self).path_view() == old(self).path_view(),
    {
        self.value = String::from_str(value);
    }

    fn add_node(&mut self, node: Node)
        ensures
            final(self).name_view() == old(self).name_view(),
            final(self).path_view() == old(self).path_view(),
            final(self).value_view() == old(self).value_view(),
            final(self).children().len() == old(self).children().len() + 1,
            final(self).children().subrange(0, old(self).children().len() as int)
                == old(self).children(),
            ({
                let added = final(self).children().last();
                &&& added.name_view() == node.name_view()
                &&& added.value_view() == node.value_view()
                &&& added.children() == node.children()
                &&& added.path_view() == if node.path_view().len() == 0 {
                    old(self).path_view() + "."@ + node.name_view()
                } else {
                    node.path_view()
                }
            }),
    {
        let mut n = node;
        if n.path.as_str().is_empty() {
            n.path = concat3(self.path.as_str(), ".", n.name.as_str());
        }
        self.nodes.push(n);
    }

    /// Reads a JSON value into the tree under this node and records every
    /// leaf value in `data` under the key of its path.
    pub fn from_json(&mut self, json_value: &JsonValue, data: &mut OrderedMap<DataValue>)
        ensures
            data_points(final(data).view()) == record_all(
                data_points(old(data).view()),
                flatten(*json_value, old(self).path_view()),
            ),
            point_pairs(final(data).pairs()) == sort_all(
                point_pairs(old(data).pairs()),
                flatten(*json_value, old(self).path_view()),
            ),
            final(self).name_view() == old(self).name_view(),
            (final(self).path_view(), final(self).value_view()) == node_state(
                *json_value,
                old(self).path_view(),
                old(self).value_view(),
            ),
        decreases json_value,
    {
        let ghost path0 = self.path@;
        let ghost value0 = self.value@;
        match json_value {
            JsonValue::Object(m) => {
                let n = m.len();
                let mut i: usize = 0;
                proof {
                    assert(m@.subrange(0, n as int) =~= m@);
                }
                while i < n
                    invariant
                        n == m@.len(),
                        i <= n,
                        self.path@ == path0,
                        self.value@ == value0,
                        self.name@ == old(self).name@,
                        *json_value == JsonValue::Object(*m),
                        record_all(data_points(old(data).view()), flatten_members(m@, path0))
                            == record_all(
                            data_points(data.view()),
                            flatten_members(m@.subrange(i as int, n as int), path0),
                        ),
                        sort_all(point_pairs(old(data).pairs()), flatten_members(m@, path0))
                            == sort_all(
                            point_pairs(data.pairs()),
                            flatten_members(m@.subrange(i as int, n as int), path0),
                        ),
                    decreases n - i,
                {
                    let k = &m[i].0;
                    let v = &m[i].1;
                    let mut child = Node::with_path(k.as_str(), concat3(self.path.as_str(), ".", k.as_str()));
                    proof {
                        lemma_flatten_members_split(m@, path0, i as int);
                        lemma_record_all_concat(
                            data_points(data.view()),
                            flatten(m@[i as int].1, member_path(path0, m@[i as int].0@)),
                            flatten_members(m@.subrange(i + 1, n as int), path0),
                        );
                        lemma_sort_all_concat(
                            point_pairs(data.pairs()),
                            flatten(m@[i as int].1, member_path(path0, m@[i as int].0@)),
                            flatten_members(m@.subrange(i + 1, n as int), path0),
                        );
                    }
                    proof {
                        assert(decreases_to!(*json_value => json_value->Object_0));
                        assert(decreases_to!(*m => m@));
                        assert(decreases_to!(m@ => m@[i as int]));
                        assert(decreases_to!(m@[i as int] => m@[i as int].1));
                    }
                    child.from_json(v, data);
                    self.add_node(child);
                    i = i + 1;
                }
                proof {
                    assert(flatten(*json_value, path0) == flatten_members(m@, path0));
                    assert(flatten_members(m@.subrange(n as int, n as int), path0) =~= Seq::empty());
                    assert(sort_all(point_pairs(data.pairs()), Seq::empty()) == point_pairs(data.pairs()));
                }
            },
            JsonValue::Array(a) => {
                let base_path = self.path();
                let n = a.len();
                let mut i: usize = 0;
                proof {
                    assert(a@.subrange(0, n as int) =~= a@);
                    assert(a@.subrange(n as int, n as int) =~= Seq::<JsonValue>::empty());
                }
                while i < n
                    invariant
                        n == a@.len(),
                        i <= n,
                        base_path@ == path0,
                        self.name@ == old(self).name@,
                        *json_value == JsonValue::Array(*a),
                        elements_state(a@, path0, 0, path0, value0) == elements_state(
                            a@.subrange(i as int, n as int),
                            path0,
                            i as nat,
                            self.path@,
                            self.value@,
                        ),
                        record_all(data_points(old(data).view()), flatten_elements(a@, path0, 0))
                            == record_all(
                            data_points(data.view()),
                            flatten_elements(a@.subrange(i as int, n as int), path0, i as nat),
                        ),
                        sort_all(point_pairs(old(data).pairs()), flatten_elements(a@, path0, 0))
                            == sort_all(
                            point_pairs(data.pairs()),
                            flatten_elements(a@.subrange(i as int, n as int), path0, i as nat),
                        ),
                    decreases n - i,
                {
                    let ghost old_path = self.path@;
                    let index = decimal_string(i as u64);
                    self.path = concat3(base_path.as_str(), "[", index.as_str()).concat("]");
                    proof {
                        assert(self.path@ =~= element_path(path0, i as nat));
                        lemma_elements_state_split(a@, path0, i as int, old_path, self.value@);
                        lemma_flatten_elements_split(a@, path0, i as int);
                        lemma_record_all_concat(
                            data_points(data.view()),
                            flatten(a@[i as int], element_path(path0, i as nat)),
                            flatten_elements(a@.subrange(i + 1, n as int), path0, (i + 1) as nat),
                        );
                        lemma_sort_all_concat(
                            point_pairs(data.pairs()),
                            flatten(a@[i as int], element_path(path0, i as nat)),
                            flatten_elements(a@.subrange(i + 1, n as int), path0, (i + 1) as nat),
                        );
                    }
                    proof {
                        assert(decreases_to!(*json_value => json_value->Array_0));
                        assert(decreases_to!(*a => a@));
                        assert(decreases_to!(a@ => a@[i as int]));
                    }
                    self.from_json(&a[i], data);
                    i = i + 1;
                }
                proof {
                    assert(flatten(*json_value, path0) == flatten_elements(a@, path0, 0));
                    assert(a@.subrange(n as int, n as int) =~= Seq::<JsonValue>::empty());
                    assert(flatten_elements(a@.subrange(n as int, n as int), path0, n as nat) =~= Seq::empty());
                    assert(node_state(*json_value, path0, value0) == elements_state(a@, path0, 0, path0, value0));
                    assert(sort_all(point_pairs(data.pairs()), Seq::empty()) == point_pairs(data.pairs()));
                }
            },
            JsonValue::Bool(b) => {
                let text = if *b {
                    "true"
                } else {
                    "false"
                };
                self.set_value(text);
                let key = data_key_of(self.path.as_str());
                let ghost before = data.pairs();
                let dv = DataValue::Bool(*b);
                proof {
                    lemma_point_pairs_insert(before, key@, dv);
                }
                data.insert(key, dv);
                proof {
                    assert(data_points(data.view()) =~= data_points(old(data).view()).insert(
                        data_key(path0),
                        DataValueView::Bool(*b),
                    ));
                    let pts = seq![(data_key(path0), DataValueView::Bool(*b))];
                    assert(pts.drop_first() =~= Seq::<(Seq<char>, DataValueView)>::empty());
                    reveal_with_fuel(record_all, 2);
                    reveal_with_fuel(sort_all, 2);
                    assert(flatten(*json_value, path0) == pts);
                }
            },
            JsonValue::Number(num) => {
                self.set_value(num.text.as_str());
                let key = data_key_of(self.path.as_str());
                let ghost before = data.pairs();
                let dv = DataValue::Double(num.bits);
                proof {
                    lemma_point_pairs_insert(before, key@, dv);
                }
                data.insert(key, dv);
                proof {
                    assert(data_points(data.view()) =~= data_points(old(data).view()).insert(
                        data_key(path0),
                        DataValueView::Double(num.bits),
                    ));
                    let pts = seq![(data_key(path0), DataValueView::Double(num.bits))];
                    assert(pts.drop_first() =~= Seq::<(Seq<char>, DataValueView)>::empty());
                    reveal_with_fuel(record_all, 2);
                    reveal_with_fuel(sort_all, 2);
                    assert(flatten(*json_value, path0) == pts);
                }
            },
            JsonValue::Str(s) => {
                self.set_value(s.as_str());
                let key = data_key_of(self.path.as_str());
                let ghost before = data.pairs();
                let dv = DataValue::String(s.clone());
                proof {
                    lemma_point_pairs_insert(before, key@, dv);
                }
                data.insert(key, dv);
                proof {
                    assert(data_points(data.view()) =~= data_points(old(data).view()).insert(
                        data_key(path0),
                        DataValueView::String(s@),
                    ));
                    let pts = seq![(data_key(path0), DataValueView::String(s@))];
                    assert(pts.drop_first() =~= Seq::<(Seq<char>, DataValueView)>::empty());
                    reveal_with_fuel(record_all, 2);
                    reveal_with_fuel(sort_all, 2);
                    assert(flatten(*json_value, path0) == pts);
                }
            },
            JsonValue::Null => {},
        }
    }
}

/// The data points of a JSON document read in at `root_path`.
pub fn flatten_document(json: &JsonValue, root_path: String) -> (r: OrderedMap<DataValue>)
    ensures
        data_points(r.view()) == record_all(Map::empty(), flatten(*json, root_path@)),
        point_pairs(r.pairs()) == sort_all(Seq::empty(), flatten(*json, root_path@)),
{
    let mut data = OrderedMap::new();
    let mut root = Node::with_path("mapping", root_path);
    proof {
        assert(data_points(data.view()) =~= Map::<Seq<char>, DataValueView>::empty());
        assert(point_pairs(data.pairs()) =~= Seq::<(Seq<char>, DataValueView)>::empty());
    }
    root.from_json(json, &mut data);
    data
}

} // verus!
