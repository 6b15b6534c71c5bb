//! Export of a diagram drawn in the designer: the breakers, switches,
//! reclosers and regulators placed on it, each with its name, MRID and
//! position.

use vstd::prelude::*;

use crate::text::{owned, str_eq};

verus! {

/// A node of an XML document, as the parser lists it in document order.
pub struct XmlNode {
    pub id: usize,
    /// The node's parent, for every node but the document itself.
    pub parent: Option<usize>,
    pub is_element: bool,
    /// The tag's local name; empty for a node that is not an element.
    pub name: String,
    /// The attributes, by local name, in document order.
    pub attributes: Vec<(String, String)>,
}

/// What a node of an XML document holds.
pub struct XmlNodeView {
    pub id: usize,
    pub parent: Option<usize>,
    pub is_element: bool,
    pub name: Seq<char>,
    pub attributes: Seq<(Seq<char>, Seq<char>)>,
}

impl View for XmlNode {
    type V = XmlNodeView;

    open spec fn view(&self) -> XmlNodeView {
        XmlNodeView {
            id: self.id,
            parent: self.parent,
            is_element: self.is_element,
            name: self.name@,
            attributes: self.attributes@.map_values(|a: (String, String)| (a.0@, a.1@)),
        }
    }
}

/// The nodes of a list of XML nodes.
pub open spec fn node_views(ns: Seq<XmlNode>) -> Seq<XmlNodeView> {
    ns.map_values(|n: XmlNode| n@)
}

/// The nodes, in document order, of the XML document `text` as the parser
/// reads it, or `None` when it is no well-formed document.
pub uninterp spec fn xml_document_nodes(text: Seq<char>) -> Option<Seq<XmlNodeView>>;

/// Parses an XML document with `roxmltree::Document::parse` and lists its
/// nodes in document order (`Document::descendants`), each with its id, its
/// parent's id, whether it is an element, its tag's local name and its
/// attributes. The contract only names the result: it is a function of the
/// text alone.
#[verifier::external_body]
fn parse_xml_nodes(text: &str) -> (r: Option<Vec<XmlNode>>)
    ensures
        match r {
            Some(ns) => xml_document_nodes(text@) == Some(node_views(ns@)),
            None => xml_document_nodes(text@) is None,
        },
{
    let doc = roxmltree::Document::parse(text).ok()?;
    let nodes = doc.descendants().map(|n| XmlNode {
        id: n.id().get_usize(),
        parent: n.parent().map(|p| p.id().get_usize()),
        is_element: n.is_element(),
        name: n.tag_name().name().to_string(),
        attributes: n.attributes().map(|a| (a.name().to_string(), a.value().to_string())).collect(),
    });
    Some(nodes.collect())
}

/// The kind of device a diagram shape stands for.
#[derive(Clone, Copy, Debug, PartialEq, Eq, Structural)]
pub enum AssetKind {
    Breaker,
    Switch,
    Recloser,
    Regulator,
}

/// A device placed on a diagram; its position is the text of the shape's
/// coordinates.
pub struct ExportedAsset {
    pub kind: AssetKind,
    pub name: String,
    pub mrid: String,
    pub x: String,
    pub y: String,
}

/// What an exported device holds.
pub struct AssetView {
    pub kind: AssetKind,
    pub name: Seq<char>,
    pub mrid: Seq<char>,
    pub x: Seq<char>,
    pub y: Seq<char>,
}

impl View for ExportedAsset {
    type V = AssetView;

    open spec fn view(&self) -> AssetView {
        AssetView { kind: self.kind, name: self.name@, mrid: self.mrid@, x: self.x@, y: self.y@ }
    }
}

/// Why a diagram could not be exported.
#[derive(Clone, Copy, Debug, PartialEq, Eq, Structural)]
pub enum ExportError {
    /// The document is not well-formed XML.
    ParseFailed,
    /// The document has no `root` element.
    NoRoot,
}

/// The value of the first attribute named `name`, if any.
pub open spec fn attribute(attrs: Seq<(Seq<char>, Seq<char>)>, name: Seq<char>) -> Option<Seq<char>>
    decreases attrs.len(),
{
    if attrs.len() == 0 {
        None
    } else if attrs[0].0 == name {
        Some(attrs[0].1)
    } else {
        attribute(attrs.drop_first(), name)
    }
}

/// Whether a node is an element with tag `tag`.
pub open spec fn has_tag(n: XmlNodeView, tag: Seq<char>) -> bool {
    n.is_element && n.name == tag
}

/// The first node, in document order, that is an element with tag `tag`.
pub open spec fn first_with_tag(ns: Seq<XmlNodeView>, tag: Seq<char>) -> Option<XmlNodeView>
    decreases ns.len(),
{
    if ns.len() == 0 {
        None
    } else if has_tag(ns[0], tag) {
        Some(ns[0])
    } else {
        first_with_tag(ns.drop_first(), tag)
    }
}

/// The first child of node `id` that is an element with tag `tag`.
pub open spec fn first_child_with_tag(ns: Seq<XmlNodeView>, id: usize, tag: Seq<char>) -> Option<
    XmlNodeView,
>
    decreases ns.len(),
{
    if ns.len() == 0 {
        None
    } else if ns[0].parent == Some(id) && has_tag(ns[0], tag) {
        Some(ns[0])
    } else {
        first_child_with_tag(ns.drop_first(), id, tag)
    }
}

/// The kind of device an asset type names, if it names one.
pub open spec fn asset_kind(asset_type: Seq<char>) -> Option<AssetKind> {
    if asset_type == "breaker"@ {
        Some(AssetKind::Breaker)
    } else if asset_type == "switch"@ || asset_type == "switch-horizontal"@ || asset_type
        == "switch-vertical"@ {
        Some(AssetKind::Switch)
    } else if asset_type == "recloser"@ {
        Some(AssetKind::Recloser)
    } else if asset_type == "regulator"@ {
        Some(AssetKind::Regulator)
    } else {
        None
    }
}

/// An attribute of the inner `Object` of a shape, or empty when missing.
pub open spec fn object_attribute(inner: Option<XmlNodeView>, name: Seq<char>) -> Seq<char> {
    match inner {
        Some(o) => match attribute(o.attributes, name) {
            Some(v) => v,
            None => Seq::empty(),
        },
        None => Seq::empty(),
    }
}

/// The device a shape on the diagram stands for: a shape whose parent is the
/// top layer (`parent="1"`) and whose geometry is not relative (relative
/// geometry is a line); its type, MRID and label come from the `Object`
/// within its `Object`, its position from the geometry (`0.0` where missing).
pub open spec fn asset_of(ns: Seq<XmlNodeView>, e: XmlNodeView) -> Option<AssetView> {
    if e.is_element && attribute(e.attributes, "parent"@) == Some("1"@) {
        match first_child_with_tag(ns, e.id, "mxGeometry"@) {
            Some(g) => if attribute(g.attributes, "relative"@) is Some {
                None
            } else {
                let inner = match first_child_with_tag(ns, e.id, "Object"@) {
                    Some(o) => first_child_with_tag(ns, o.id, "Object"@),
                    None => None,
                };
                match asset_kind(object_attribute(inner, "type"@)) {
                    Some(k) => Some(
                        AssetView {
                            kind: k,
                            name: object_attribute(inner, "label"@),
                            mrid: object_attribute(inner, "mRID"@),
                            x: match attribute(g.attributes, "x"@) {
                                Some(x) => x,
                                None => "0.0"@,
                            },
                            y: match attribute(g.attributes, "y"@) {
                                Some(y) => y,
                                None => "0.0"@,
                            },
                        },
                    ),
                    None => None,
                }
            },
            None => None,
        }
    } else {
        None
    }
}

/// The devices of the children of node `root` among `ns`, in document order.
pub open spec fn assets_among(ns: Seq<XmlNodeView>, all: Seq<XmlNodeView>, root: usize) -> Seq<
    AssetView,
>
    decreases ns.len(),
{
    if ns.len() == 0 {
        Seq::empty()
    } else {
        let e = ns.last();
        assets_among(ns.drop_last(), all, root) + if e.parent == Some(root) {
            match asset_of(all, e) {
                Some(a) => seq![a],
                None => Seq::empty(),
            }
        } else {
            Seq::empty()
        }
    }
}

/// The devices on a diagram: those of the children of its first `root`
/// element, in document order.
pub open spec fn diagram_assets(ns: Seq<XmlNodeView>) -> Result<Seq<AssetView>, ExportError> {
    match first_with_tag(ns, "root"@) {
        Some(r) => Ok(assets_among(ns, ns, r.id)),
        None => Err(ExportError::NoRoot),
    }
}

/// The views of exported devices.
pub open spec fn asset_views(v: Seq<ExportedAsset>) -> Seq<AssetView> {
    v.map_values(|a: ExportedAsset| a@)
}

/// The value of the first attribute named `name`, if any.
pub fn get_attribute<'a>(attrs: &'a Vec<(String, String)>, name: &str) -> (r: Option<&'a String>)
    ensures
        match r {
            Some(v) => attribute(attrs@.map_values(|a: (String, String)| (a.0@, a.1@)), name@)
                == Some(v@),
            None => attribute(attrs@.map_values(|a: (String, String)| (a.0@, a.1@)), name@) is None,
        },
{
    let ghost s = attrs@.map_values(|a: (String, String)| (a.0@, a.1@));
    let n = attrs.len();
    let mut i: usize = 0;
    proof {
        assert(s.subrange(0, n as int) =~= s);
    }
    while i < n
        invariant
            n == attrs@.len(),
            s == attrs@.map_values(|a: (String, String)| (a.0@, a.1@)),
            i <= n,
            attribute(s, name@) == attribute(s.subrange(i as int, n as int), name@),
        decreases n - i,
    {
        let ghost t = s.subrange(i as int, n as int);
        proof {
            assert(t[0] == s[i as int]);
            assert(t.drop_first() =~= s.subrange(i + 1, n as int));
        }
        if str_eq(attrs[i].0.as_str(), name) {
            return Some(&attrs[i].1);
        }
        i = i + 1;
    }
    None
}

/// The position of the first node that is an element with tag `tag`.
fn position_with_tag(ns: &Vec<XmlNode>, tag: &str) -> (r: Option<usize>)
    ensures
        match r {
            Some(i) => i < ns@.len() && first_with_tag(node_views(ns@), tag@) == Some(ns@[i as int]@),
            None => first_with_tag(node_views(ns@), tag@) is None,
        },
{
    let ghost s = node_views(ns@);
    let n = ns.len();
    let mut i: usize = 0;
    proof {
        assert(s.subrange(0, n as int) =~= s);
    }
    while i < n
        invariant
            n == ns@.len(),
            s == node_views(ns@),
            i <= n,
            first_with_tag(s, tag@) == first_with_tag(s.subrange(i as int, n as int), tag@),
        decreases n - i,
    {
        let ghost t = s.subrange(i as int, n as int);
        proof {
            assert(t[0] == ns@[i as int]@);
            assert(t.drop_first() =~= s.subrange(i + 1, n as int));
        }
        if ns[i].is_element && str_eq(ns[i].name.as_str(), tag) {
            return Some(i);
        }
        i = i + 1;
    }
    None
}

/// The position of the first child of node `id` that is an element with tag
/// `tag`.
fn position_of_child(ns: &Vec<XmlNode>, id: usize, tag: &str) -> (r: Option<usize>)
    ensures
        match r {
            Some(i) => i < ns@.len() && first_child_with_tag(node_views(ns@), id, tag@) == Some(
                ns@[i as int]@,
            ),
            None => first_child_with_tag(node_views(ns@), id, tag@) is None,
        },
{
    let ghost s = node_views(ns@);
    let n = ns.len();
    let mut i: usize = 0;
    proof {
        assert(s.subrange(0, n as int) =~= s);
    }
    while i < n
        invariant
            n == ns@.len(),
            s == node_views(ns@),
            i <= n,
            first_child_with_tag(s, id, tag@) == first_child_with_tag(
                s.subrange(i as int, n as int),
                id,
                tag@,
            ),
        decreases n - i,
    {
        let ghost t = s.subrange(i as int, n as int);
        proof {
            assert(t[0] == ns@[i as int]@);
            assert(t.drop_first() =~= s.subrange(i + 1, n as int));
        }
        if ns[i].parent == Some(id) && ns[i].is_element && str_eq(ns[i].name.as_str(), tag) {
            return Some(i);
        }
        i = i + 1;
    }
    None
}

/// The kind of device an asset type names, if it names one.
pub fn asset_kind_of(asset_type: &str) -> (r: Option<AssetKind>)
    ensures
        r == asset_kind(asset_type@),
{
    if str_eq(asset_type, "breaker") {
        Some(AssetKind::Breaker)
    } else if str_eq(asset_type, "switch") || str_eq(asset_type, "switch-horizontal") || str_eq(
        asset_type,
        "switch-vertical",
    ) {
        Some(AssetKind::Switch)
    } else if str_eq(asset_type, "recloser") {
        Some(AssetKind::Recloser)
    } else if str_eq(asset_type, "regulator") {
        Some(AssetKind::Regulator)
    } else {
        None
    }
}

fn object_attribute_of(ns: &Vec<XmlNode>, inner: Option<usize>, name: &str) -> (r: String)
    requires
        inner matches Some(i) ==> i < ns@.len(),
    ensures
        r@ == object_attribute(
            match inner {
                Some(i) => Some(ns@[i as int]@),
                None => None,
            },
            name@,
        ),
{
    match inner {
        Some(i) => match get_attribute(&ns[i].attributes, name) {
            Some(v) => v.clone(),
            None => String::new(),
        },
        None => String::new(),
    }
}

/// The device that node `e` of the diagram stands for, if any.
pub fn asset_of_node(ns: &Vec<XmlNode>, e: usize) -> (r: Option<ExportedAsset>)
    requires
        e < ns@.len(),
    ensures
        match r {
            Some(a) => asset_of(node_views(ns@), ns@[e as int]@) == Some(a@),
            None => asset_of(node_views(ns@), ns@[e as int]@) is None,
        },
{
    let elem = &ns[e];
    if !elem.is_element {
        return None;
    }
    match get_attribute(&elem.attributes, "parent") {
        Some(p) => {
            if !str_eq(p.as_str(), "1") {
                proof {
                    reveal_strlit("1");
                }
                return None;
            }
        },
        None => {
            return None;
        },
    }
    proof {
        reveal_strlit("1");
    }
    let g = match position_of_child(ns, elem.id, "mxGeometry") {
        Some(g) => g,
        None => {
            return None;
        },
    };
    if get_attribute(&ns[g].attributes, "relative").is_some() {
        return None;
    }
    let inner = match position_of_child(ns, elem.id, "Object") {
        Some(o) => position_of_child(ns, ns[o].id, "Object"),
        None => None,
    };
    let asset_type = object_attribute_of(ns, inner, "type");
    let kind = match asset_kind_of(asset_type.as_str()) {
        Some(k) => k,
        None => {
            return None;
        },
    };
    let x = match get_attribute(&ns[g].attributes, "x") {
        Some(x) => x.clone(),
        None => owned("0.0"),
    };
    let y = match get_attribute(&ns[g].attributes, "y") {
        Some(y) => y.clone(),
        None => owned("0.0"),
    };
    let name = object_attribute_of(ns, inner, "label");
    let mrid = object_attribute_of(ns, inner, "mRID");
    Some(ExportedAsset { kind, name, mrid, x, y })
}

/// The devices on a diagram given as its XML nodes in document order, or
/// `NoRoot` when it has no `root` element.
pub fn diagram_assets_of(ns: &Vec<XmlNode>) -> (r: Result<Vec<ExportedAsset>, ExportError>)
    ensures
        match r {
            Ok(v) => diagram_assets(node_views(ns@)) == Ok::<Seq<AssetView>, ExportError>(
                asset_views(v@),
            ),
            Err(e) => diagram_assets(node_views(ns@)) == Err::<Seq<AssetView>, ExportError>(e),
        },
{
    let ghost s = node_views(ns@);
    let root = match position_with_tag(ns, "root") {
        Some(r) => ns[r].id,
        None => {
            return Err(ExportError::NoRoot);
        },
    };
    let mut out: Vec<ExportedAsset> = Vec::new();
    let n = ns.len();
    let mut i: usize = 0;
    proof {
        assert(asset_views(out@) =~= Seq::<AssetView>::empty());
    }
    while i < n
        invariant
            n == ns@.len(),
            s == node_views(ns@),
            i <= n,
            asset_views(out@) == assets_among(s.subrange(0, i as int), s, root),
        decreases n - i,
    {
        proof {
            assert(s.subrange(0, i + 1).drop_last() =~= s.subrange(0, i as int));
            assert(s.subrange(0, i + 1).last() == ns@[i as int]@);
        }
        let ghost before = out@;
        if ns[i].parent == Some(root) {
            match asset_of_node(ns, i) {
                Some(a) => {
                    out.push(a);
                    proof {
                        assert(asset_views(out@) =~= asset_views(before).push(a@));
                    }
                },
                None => {},
            }
        }
        proof {
            assert(asset_views(out@) =~= assets_among(s.subrange(0, i + 1), s, root));
        }
        i = i + 1;
    }
    proof {
        assert(s.subrange(0, n as int) =~= s);
    }
    Ok(out)
}

/// The devices on the diagram in the XML document `text`: `ParseFailed`
/// when it is not well-formed, `NoRoot` when it has no `root` element.
pub fn export_assets(text: &str) -> (r: Result<Vec<ExportedAsset>, ExportError>)
    ensures
        match xml_document_nodes(text@) {
            None => r == Err::<Vec<ExportedAsset>, ExportError>(ExportError::ParseFailed),
            Some(ns) => match r {
                Ok(v) => diagram_assets(ns) == Ok::<Seq<AssetView>, ExportError>(asset_views(v@)),
                Err(e) => diagram_assets(ns) == Err::<Seq<AssetView>, ExportError>(e),
            },
        },
{
    match parse_xml_nodes(text) {
        Some(nodes) => diagram_assets_of(&nodes),
        None => Err(ExportError::ParseFailed),
    }
}

/// Each device type of a diagram is exported as its own kind of asset: a
/// breaker as a breaker, a recloser as a recloser, a regulator as a
/// regulator, and the three switch shapes as switches; and a kind is given
/// to those types alone, so two types share a kind only where both are
/// switch shapes.
pub proof fn law_asset_types_name_their_kind(t: Seq<char>)
    ensures
        asset_kind(t) == Some(AssetKind::Breaker) <==> t == "breaker"@,
        asset_kind(t) == Some(AssetKind::Recloser) <==> t == "recloser"@,
        asset_kind(t) == Some(AssetKind::Regulator) <==> t == "regulator"@,
        asset_kind(t) == Some(AssetKind::Switch) <==> (t == "switch"@ || t == "switch-horizontal"@
            || t == "switch-vertical"@),
{
    reveal_strlit("breaker");
    reveal_strlit("switch");
    reveal_strlit("switch-horizontal");
    reveal_strlit("switch-vertical");
    reveal_strlit("recloser");
    reveal_strlit("regulator");
    assert("switch"@ != "breaker"@) by {
        assert("switch"@.len() != "breaker"@.len());
    }
    assert("switch-horizontal"@ != "breaker"@) by {
        assert("switch-horizontal"@.len() != "breaker"@.len());
    }
    assert("switch-horizontal"@ != "switch"@) by {
        assert("switch-horizontal"@.len() != "switch"@.len());
    }
    assert("switch-vertical"@ != "breaker"@) by {
        assert("switch-vertical"@.len() != "breaker"@.len());
    }
    assert("switch-vertical"@ != "switch"@) by {
        assert("switch-vertical"@.len() != "switch"@.len());
    }
    assert("switch-vertical"@ != "switch-horizontal"@) by {
        assert("switch-vertical"@.len() != "switch-horizontal"@.len());
    }
    assert("recloser"@ != "breaker"@) by {
        assert("recloser"@.len() != "breaker"@.len());
    }
    assert("recloser"@ != "switch"@) by {
        assert("recloser"@.len() != "switch"@.len());
    }
    assert("recloser"@ != "switch-horizontal"@) by {
        assert("recloser"@.len() != "switch-horizontal"@.len());
    }
    assert("recloser"@ != "switch-vertical"@) by {
        assert("recloser"@.len() != "switch-vertical"@.len());
    }
    assert("regulator"@ != "breaker"@) by {
        assert("regulator"@.len() != "breaker"@.len());
    }
    assert("regulator"@ != "switch"@) by {
        assert("regulator"@.len() != "switch"@.len());
    }
    assert("regulator"@ != "switch-horizontal"@) by {
        assert("regulator"@.len() != "switch-horizontal"@.len());
    }
    assert("regulator"@ != "switch-vertical"@) by {
        assert("regulator"@.len() != "switch-vertical"@.len());
    }
    assert("regulator"@ != "recloser"@) by {
        assert("regulator"@.len() != "recloser"@.len());
    }
}

} // verus!
