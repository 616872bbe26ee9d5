use vstd::prelude::*;

use crate::decimal::{dec_digits, push_decimal};
use crate::model::{Enumeration, GEnumeration, MusicXSD, SimpleType, TypeDefinition};
use crate::xml::{get_attr, lookup_attr, str_eq, XmlElement};

verus! {

/// One failure condition of the parse; the whole parse stops at the first.
#[derive(Debug, Clone, PartialEq, Eq)]
pub enum Error {
    /// The document root is not the schema marker tag.
    SchemaNotFound,
    /// A top-level child's tag is outside the closed set of known kinds.
    UnknownSchemaNode(String),
    /// An import node has no namespace attribute.
    NameAttributeNotFound(String),
    /// A named node kind has no name attribute.
    MissingNameAttribute(String),
    /// Two top-level nodes resolved to the same identifier.
    DuplicateIdentifier(String),
    /// A restriction has no base attribute.
    MissingBaseType,
    /// A restriction child whose tag is not an enumeration.
    UnexpectedRestrictionChild(String),
    /// An annotation without exactly one child.
    MalformedAnnotation,
    /// An annotation child that is not a documentation node.
    ExpectedDocumentationTag,
    /// A documentation node without text content.
    EmptyDocumentationText,
}

/// Mathematical image of an `Error`.
pub ghost enum GError {
    SchemaNotFound,
    UnknownSchemaNode(Seq<char>),
    NameAttributeNotFound(Seq<char>),
    MissingNameAttribute(Seq<char>),
    DuplicateIdentifier(Seq<char>),
    MissingBaseType,
    UnexpectedRestrictionChild(Seq<char>),
    MalformedAnnotation,
    ExpectedDocumentationTag,
    EmptyDocumentationText,
}

impl View for Error {
    type V = GError;

    open spec fn view(&self) -> GError {
        match self {
            Error::SchemaNotFound => GError::SchemaNotFound,
            Error::UnknownSchemaNode(t) => GError::UnknownSchemaNode(t@),
            Error::NameAttributeNotFound(t) => GError::NameAttributeNotFound(t@),
            Error::MissingNameAttribute(t) => GError::MissingNameAttribute(t@),
            Error::DuplicateIdentifier(i) => GError::DuplicateIdentifier(i@),
            Error::MissingBaseType => GError::MissingBaseType,
            Error::UnexpectedRestrictionChild(t) => GError::UnexpectedRestrictionChild(t@),
            Error::MalformedAnnotation => GError::MalformedAnnotation,
            Error::ExpectedDocumentationTag => GError::ExpectedDocumentationTag,
            Error::EmptyDocumentationText => GError::EmptyDocumentationText,
        }
    }
}

/// The closed set of top-level schema node kinds.
#[derive(Debug, Clone, Copy, PartialEq, Eq, Structural)]
pub enum XsType {
    XsAnnotation,
    XsAttributeGroup,
    XsComplexType,
    XsElement,
    XsGroup,
    XsImport,
    XsSimpleType,
}

/// The kind a qualified tag name classifies to, if any.
pub open spec fn kind_of(tag: Seq<char>) -> Option<XsType> {
    if tag == "xs:annotation"@ { Some(XsType::XsAnnotation) }
    else if tag == "xs:attributeGroup"@ { Some(XsType::XsAttributeGroup) }
    else if tag == "xs:complexType"@ { Some(XsType::XsComplexType) }
    else if tag == "xs:element"@ { Some(XsType::XsElement) }
    else if tag == "xs:group"@ { Some(XsType::XsGroup) }
    else if tag == "xs:import"@ { Some(XsType::XsImport) }
    else if tag == "xs:simpleType"@ { Some(XsType::XsSimpleType) }
    else { None }
}

impl XsType {
    /// Classifies one top-level node by its qualified tag name.
    pub fn parse(node: &XmlElement) -> (r: Result<XsType, Error>)
        ensures
            match r {
                Ok(k) => kind_of(node.name@) == Some(k),
                Err(e) => kind_of(node.name@) is None
                    && e@ == GError::UnknownSchemaNode(node.name@),
            },
    {
        let tag = node.name.as_str();
        if str_eq(tag, "xs:annotation") { Ok(XsType::XsAnnotation) }
        else if str_eq(tag, "xs:attributeGroup") { Ok(XsType::XsAttributeGroup) }
        else if str_eq(tag, "xs:complexType") { Ok(XsType::XsComplexType) }
        else if str_eq(tag, "xs:element") { Ok(XsType::XsElement) }
        else if str_eq(tag, "xs:group") { Ok(XsType::XsGroup) }
        else if str_eq(tag, "xs:import") { Ok(XsType::XsImport) }
        else if str_eq(tag, "xs:simpleType") { Ok(XsType::XsSimpleType) }
        else { Err(Error::UnknownSchemaNode(node.name.clone())) }
    }
}

/// Mathematical image of a classified node.
pub ghost struct GNode {
    pub kind: XsType,
    pub index: nat,
    pub id: Seq<char>,
    pub name: Seq<char>,
    pub child: int,
}

/// One classified top-level node: its kind, the sequence index drawn at
/// classification time, the derived identifier and display name, and the
/// position of its element among the root's children.
#[derive(Debug, Clone, PartialEq, Eq)]
pub struct XsTypeNode {
    pub xsd_type: XsType,
    pub index: usize,
    pub id: String,
    pub name: String,
    pub child: usize,
}

impl View for XsTypeNode {
    type V = GNode;

    open spec fn view(&self) -> GNode {
        GNode {
            kind: self.xsd_type,
            index: self.index as nat,
            id: self.id@,
            name: self.name@,
            child: self.child as int,
        }
    }
}

impl XsTypeNode {
    /// The rendering `index-id-name`.
    pub fn display(&self) -> (r: String)
        ensures
            r@ == dec_digits(self.index as nat) + "-"@ + self.id@ + "-"@ + self.name@,
    {
        let mut out = String::new();
        push_decimal(&mut out, self.index);
        out.append("-");
        out.append(self.id.as_str());
        out.append("-");
        out.append(self.name.as_str());
        out
    }
}

/// Hands out strictly increasing sequence indices. One instance per
/// process is the intent; passing it explicitly lets repeated parses
/// share it and lets tests isolate it.
pub struct SequenceCounter {
    pub value: usize,
}

impl SequenceCounter {
    pub fn new() -> (r: SequenceCounter)
        ensures
            r.value == 0,
    {
        SequenceCounter { value: 0 }
    }

    /// Draws the next index.
    pub fn advance(&mut self) -> (i: usize)
        requires
            old(self).value < usize::MAX,
        ensures
            i == old(self).value,
            final(self).value == old(self).value + 1,
    {
        let i = self.value;
        self.value = self.value + 1;
        i
    }
}

/// What classifying the element at position `pos` with sequence index
/// `idx` yields: the node's kind, identifier and display name, or the
/// first error. Annotations are anonymous, so their identifier is built
/// from the index; imports are identified by their namespace attribute;
/// every other kind needs a name attribute.
pub open spec fn classify_spec(e: XmlElement, idx: nat, pos: int) -> Result<GNode, GError> {
    match kind_of(e.name@) {
        None => Err(GError::UnknownSchemaNode(e.name@)),
        Some(k) => match k {
            XsType::XsAnnotation => Ok(GNode {
                kind: k,
                index: idx,
                id: "annotation:"@ + dec_digits(idx),
                name: "annotation:"@ + dec_digits(idx),
                child: pos,
            }),
            XsType::XsImport => match lookup_attr(e.attributes@, "namespace"@) {
                None => Err(GError::NameAttributeNotFound(e.name@)),
                Some(ns) => Ok(GNode {
                    kind: k,
                    index: idx,
                    id: "import:"@ + ns,
                    name: "import:"@ + ns,
                    child: pos,
                }),
            },
            _ => match lookup_attr(e.attributes@, "name"@) {
                None => Err(GError::MissingNameAttribute(e.name@)),
                Some(nm) => Ok(GNode {
                    kind: k,
                    index: idx,
                    id: e.name@ + ":"@ + nm,
                    name: nm,
                    child: pos,
                }),
            },
        },
    }
}

/// Classifies one top-level node, drawing its sequence index from the
/// counter. `child` is the node's position among the root's children.
pub fn parse_xs_info(node: &XmlElement, counter: &mut SequenceCounter, child: usize) -> (r: Result<
    XsTypeNode,
    Error,
>)
    requires
        old(counter).value < usize::MAX,
    ensures
        final(counter).value == old(counter).value + 1,
        match r {
            Ok(n) => classify_spec(*node, old(counter).value as nat, child as int) == Ok::<
                GNode,
                GError,
            >(n@),
            Err(e) => classify_spec(*node, old(counter).value as nat, child as int) == Err::<
                GNode,
                GError,
            >(e@),
        },
{
    let index = counter.advance();
    let xsd_type = match XsType::parse(node) {
        Ok(k) => k,
        Err(e) => {
            return Err(e);
        },
    };
    match xsd_type {
        XsType::XsAnnotation => {
            let mut id = String::new();
            id.append("annotation:");
            push_decimal(&mut id, index);
            proof {
                assert(id@ =~= "annotation:"@ + dec_digits(index as nat));
            }
            let name = id.clone();
            Ok(XsTypeNode { xsd_type, index, id, name, child })
        },
        XsType::XsImport => {
            match get_attr(&node.attributes, "namespace") {
                None => Err(Error::NameAttributeNotFound(node.name.clone())),
                Some(ns) => {
                    let mut id = String::new();
                    id.append("import:");
                    id.append(ns.as_str());
                    proof {
                        assert(id@ =~= "import:"@ + ns@);
                    }
                    let name = id.clone();
                    Ok(XsTypeNode { xsd_type, index, id, name, child })
                },
            }
        },
        _ => {
            match get_attr(&node.attributes, "name") {
                None => Err(Error::MissingNameAttribute(node.name.clone())),
                Some(nm) => {
                    let name = nm.clone();
                    let mut id = node.name.clone();
                    id.append(":");
                    id.append(name.as_str());
                    proof {
                        assert(id@ =~= node.name@ + ":"@ + name@);
                    }
                    Ok(XsTypeNode { xsd_type, index, id, name, child })
                },
            }
        },
    }
}

} // verus!

verus! {

/// Whether some already-registered node carries `id`.
pub open spec fn has_id(acc: Seq<GNode>, id: Seq<char>) -> bool {
    exists|j: int| 0 <= j < acc.len() && acc[j].id == id
}

/// Classifies the children of the root from position `pos` on, drawing
/// indices from `start`, on top of the nodes already in `acc`; stops at
/// the first classification error or duplicate identifier.
pub open spec fn build_nodes(
    cs: Seq<XmlElement>,
    pos: int,
    start: nat,
    acc: Seq<GNode>,
) -> Result<Seq<GNode>, GError>
    decreases cs.len() - pos,
{
    if pos < 0 || pos >= cs.len() {
        Ok(acc)
    } else {
        match classify_spec(cs[pos], start, pos) {
            Err(e) => Err(e),
            Ok(n) => if has_id(acc, n.id) {
                Err(GError::DuplicateIdentifier(n.id))
            } else {
                build_nodes(cs, pos + 1, start + 1, acc.push(n))
            },
        }
    }
}

/// The registry of one document: every top-level child classified, in
/// document order, with pairwise-distinct identifiers.
pub open spec fn nodes_spec(root: XmlElement, start: nat) -> Result<Seq<GNode>, GError> {
    build_nodes(root.children@, 0, start, Seq::empty())
}

fn find_id(nodes: &Vec<XsTypeNode>, id: &str) -> (r: bool)
    ensures
        r == has_id(nodes@.map_values(|n: XsTypeNode| n@), id@),
{
    let ghost gns = nodes@.map_values(|n: XsTypeNode| n@);
    for j in 0..nodes.len()
        invariant
            gns == nodes@.map_values(|n: XsTypeNode| n@),
            forall|k: int| 0 <= k < j ==> (#[trigger] gns[k]).id != id@,
    {
        if str_eq(nodes[j].id.as_str(), id) {
            proof {
                assert(gns[j as int].id == id@);
            }
            return true;
        }
    }
    false
}

/// Classifies every top-level child of the root and registers it under
/// its identifier, failing on the first duplicate. The result keeps
/// document order; every node records the position of its element.
pub fn parse_type_nodes(root: &XmlElement, counter: &mut SequenceCounter) -> (r: Result<
    Vec<XsTypeNode>,
    Error,
>)
    requires
        old(counter).value + root.children@.len() <= usize::MAX,
    ensures
        match r {
            Ok(ns) => nodes_spec(*root, old(counter).value as nat) == Ok::<Seq<GNode>, GError>(
                ns@.map_values(|n: XsTypeNode| n@),
            ) && final(counter).value == old(counter).value + root.children@.len() && forall|k: int|
                0 <= k < ns@.len() ==> (#[trigger] ns@[k]).child < root.children@.len(),
            Err(e) => nodes_spec(*root, old(counter).value as nat) == Err::<Seq<GNode>, GError>(e@)
                && old(counter).value <= final(counter).value <= old(counter).value
                + root.children@.len(),
        },
{
    let ghost start = counter.value as nat;
    let ghost cs = root.children@;
    let mut nodes: Vec<XsTypeNode> = Vec::new();
    let n = root.children.len();
    proof {
        assert(nodes@.map_values(|x: XsTypeNode| x@) =~= Seq::<GNode>::empty());
    }
    for i in 0..n
        invariant
            n == cs.len(),
            cs == root.children@,
            start == old(counter).value as nat,
            counter.value == start + i,
            start + n <= usize::MAX,
            nodes@.len() == i,
            forall|k: int| 0 <= k < i ==> (#[trigger] nodes@[k]).child < n,
            build_nodes(cs, 0, start, Seq::empty()) == build_nodes(
                cs,
                i as int,
                start + i as nat,
                nodes@.map_values(|x: XsTypeNode| x@),
            ),
    {
        let ghost acc = nodes@.map_values(|x: XsTypeNode| x@);
        let x = match parse_xs_info(&root.children[i], counter, i) {
            Ok(x) => x,
            Err(e) => {
                return Err(e);
            },
        };
        if find_id(&nodes, x.id.as_str()) {
            proof {
                assert(build_nodes(cs, 0, start, Seq::empty()) == Err::<Seq<GNode>, GError>(
                    GError::DuplicateIdentifier(x.id@),
                ));
            }
            return Err(Error::DuplicateIdentifier(x.id));
        }
        nodes.push(x);
        proof {
            assert(nodes@.map_values(|y: XsTypeNode| y@) =~= acc.push(x@));
        }
    }
    proof {
        assert(build_nodes(cs, n as int, start + n as nat, nodes@.map_values(|x: XsTypeNode| x@))
            == Ok::<Seq<GNode>, GError>(nodes@.map_values(|x: XsTypeNode| x@)));
    }
    Ok(nodes)
}

} // verus!

verus! {

/// Whether a restriction element has at least one enumeration child.
pub open spec fn restriction_has_enum(c: XmlElement) -> bool {
    exists|j: int| 0 <= j < c.children@.len() && c.children@[j].name@ == "xs:enumeration"@
}

/// Whether a simple-type element is an enumeration restriction: some
/// direct restriction child of it has an enumeration child. A simple
/// type of any other restriction style is skipped, not an error.
pub open spec fn is_enum_spec(e: XmlElement) -> bool {
    exists|i: int| 0 <= i < e.children@.len() && (#[trigger] e.children@[i]).name@
        == "xs:restriction"@ && restriction_has_enum(e.children@[i])
}

fn has_enum_child(c: &XmlElement) -> (r: bool)
    ensures
        r == restriction_has_enum(*c),
{
    for j in 0..c.children.len()
        invariant
            forall|k: int| 0 <= k < j ==> (#[trigger] c.children@[k]).name@ != "xs:enumeration"@,
    {
        if str_eq(c.children[j].name.as_str(), "xs:enumeration") {
            return true;
        }
    }
    false
}

/// Decides whether a simple-type node is an enumeration restriction.
pub fn is_enumeration_simple_type(e: &XmlElement) -> (r: bool)
    ensures
        r == is_enum_spec(*e),
{
    for i in 0..e.children.len()
        invariant
            forall|k: int| 0 <= k < i ==> !((#[trigger] e.children@[k]).name@
                == "xs:restriction"@ && restriction_has_enum(e.children@[k])),
    {
        if str_eq(e.children[i].name.as_str(), "xs:restriction") {
            if has_enum_child(&e.children[i]) {
                return true;
            }
        }
    }
    false
}

/// The member values of a restriction's children from position `j` on:
/// the value attribute of every enumeration child, in document order, a
/// child without one contributing nothing; any child with another tag is
/// the first error.
pub open spec fn restriction_members(rs: Seq<XmlElement>, j: int) -> Result<
    Seq<Seq<char>>,
    GError,
>
    decreases rs.len() - j,
{
    if j < 0 || j >= rs.len() {
        Ok(Seq::empty())
    } else if rs[j].name@ == "xs:enumeration"@ {
        match restriction_members(rs, j + 1) {
            Err(e) => Err(e),
            Ok(ms) => match lookup_attr(rs[j].attributes@, "value"@) {
                Some(v) => Ok(seq![v] + ms),
                None => Ok(ms),
            },
        }
    } else {
        Err(GError::UnexpectedRestrictionChild(rs[j].name@))
    }
}

/// The documentation text of an annotation element: it must have exactly
/// one child, tagged as documentation, with text content.
pub open spec fn annotation_doc(a: XmlElement) -> Result<Seq<char>, GError> {
    if a.children@.len() != 1 {
        Err(GError::MalformedAnnotation)
    } else if a.children@[0].name@ != "xs:documentation"@ {
        Err(GError::ExpectedDocumentationTag)
    } else {
        match a.children@[0].text {
            Some(t) => Ok(t@),
            None => Err(GError::EmptyDocumentationText),
        }
    }
}

/// Running state of one enumeration extraction.
pub ghost struct GExtract {
    pub base: Seq<char>,
    pub members: Seq<Seq<char>>,
    pub documentation: Seq<char>,
}

/// Folds the children of a simple-type element from position `i` on into
/// the extraction state: each restriction child must carry a base
/// attribute and contributes its members; each annotation child sets the
/// documentation; any other child is ignored.
pub open spec fn extract_from(cs: Seq<XmlElement>, i: int, st: GExtract) -> Result<
    GExtract,
    GError,
>
    decreases cs.len() - i,
{
    if i < 0 || i >= cs.len() {
        Ok(st)
    } else if cs[i].name@ == "xs:restriction"@ {
        match lookup_attr(cs[i].attributes@, "base"@) {
            None => Err(GError::MissingBaseType),
            Some(b) => match restriction_members(cs[i].children@, 0) {
                Err(e) => Err(e),
                Ok(ms) => extract_from(
                    cs,
                    i + 1,
                    GExtract { base: b, members: st.members + ms, documentation: st.documentation },
                ),
            },
        }
    } else if cs[i].name@ == "xs:annotation"@ {
        match annotation_doc(cs[i]) {
            Err(e) => Err(e),
            Ok(d) => extract_from(
                cs,
                i + 1,
                GExtract { base: st.base, members: st.members, documentation: d },
            ),
        }
    } else {
        extract_from(cs, i + 1, st)
    }
}

/// What extracting the enumeration of node `n` at element `e` yields:
/// identifier, display name and sequence index from the node, base,
/// ordered members and documentation from the element's children.
pub open spec fn enum_spec(n: GNode, e: XmlElement) -> Result<GEnumeration, GError> {
    match extract_from(
        e.children@,
        0,
        GExtract {
            base: Seq::empty(),
            members: Seq::empty(),
            documentation: Seq::empty(),
        },
    ) {
        Err(err) => Err(err),
        Ok(st) => Ok(
            GEnumeration {
                id: n.id,
                name: n.name,
                index: n.index,
                base: st.base,
                members: st.members,
                documentation: st.documentation,
            },
        ),
    }
}

fn parse_restriction_members(c: &XmlElement, members: &mut Vec<String>) -> (r: Result<(), Error>)
    ensures
        match r {
            Ok(()) => restriction_members(c.children@, 0) matches Ok(ms) && final(members)@.map_values(
                |m: String| m@,
            ) == old(members)@.map_values(|m: String| m@) + ms,
            Err(e) => restriction_members(c.children@, 0) == Err::<Seq<Seq<char>>, GError>(e@),
        },
{
    let ghost rs = c.children@;
    let ghost base_ms = old(members)@.map_values(|m: String| m@);
    let n = c.children.len();
    for j in 0..n
        invariant
            n == rs.len(),
            rs == c.children@,
            base_ms == old(members)@.map_values(|m: String| m@),
            members@.map_values(|m: String| m@).len() >= base_ms.len(),
            members@.map_values(|m: String| m@).take(base_ms.len() as int) == base_ms,
            restriction_members(rs, 0) == (match restriction_members(rs, j as int) {
                Err(e2) => Err::<Seq<Seq<char>>, GError>(e2),
                Ok(rest) => Ok::<Seq<Seq<char>>, GError>(
                    members@.map_values(|m: String| m@).skip(base_ms.len() as int) + rest,
                ),
            }),
    {
        let child = &c.children[j];
        if str_eq(child.name.as_str(), "xs:enumeration") {
            match get_attr(&child.attributes, "value") {
                Some(v) => {
                    let ghost before = members@.map_values(|m: String| m@);
                    members.push(v.clone());
                    proof {
                        let cur = before.skip(base_ms.len() as int);
                        assert(members@.map_values(|m: String| m@) =~= before.push(v@));
                        assert(before.push(v@).take(base_ms.len() as int) =~= base_ms);
                        assert(before.push(v@).skip(base_ms.len() as int) =~= cur.push(v@));
                        if restriction_members(rs, j + 1) is Ok {
                            let rest = restriction_members(rs, j + 1)->Ok_0;
                            assert(cur + (seq![v@] + rest) =~= cur.push(v@) + rest);
                        }
                    }
                },
                None => {
                },
            }
        } else {
            return Err(Error::UnexpectedRestrictionChild(child.name.clone()));
        }
    }
    proof {
        let whole = members@.map_values(|m: String| m@);
        let ms = whole.skip(base_ms.len() as int);
        assert(ms + Seq::<Seq<char>>::empty() =~= ms);
        assert(base_ms + ms =~= whole);
    }
    Ok(())
}

/// Extracts the enumeration of a confirmed simple-type node: base type,
/// member values in document order, and optional documentation.
pub fn parse_enumeration(x: &XsTypeNode, e: &XmlElement) -> (r: Result<Enumeration, Error>)
    ensures
        match r {
            Ok(en) => enum_spec(x@, *e) == Ok::<GEnumeration, GError>(en@),
            Err(err) => enum_spec(x@, *e) == Err::<GEnumeration, GError>(err@),
        },
{
    let ghost cs = e.children@;
    let mut base = String::new();
    let mut members: Vec<String> = Vec::new();
    let mut documentation = String::new();
    proof {
        assert(members@.map_values(|m: String| m@) =~= Seq::<Seq<char>>::empty());
    }
    let n = e.children.len();
    for i in 0..n
        invariant
            n == cs.len(),
            cs == e.children@,
            extract_from(
                cs,
                0,
                GExtract { base: Seq::empty(), members: Seq::empty(), documentation: Seq::empty() },
            ) == extract_from(
                cs,
                i as int,
                GExtract {
                    base: base@,
                    members: members@.map_values(|m: String| m@),
                    documentation: documentation@,
                },
            ),
    {
        let child = &e.children[i];
        if str_eq(child.name.as_str(), "xs:restriction") {
            match get_attr(&child.attributes, "base") {
                Some(b) => {
                    base = b.clone();
                },
                None => {
                    return Err(Error::MissingBaseType);
                },
            }
            match parse_restriction_members(child, &mut members) {
                Ok(()) => {
                },
                Err(err) => {
                    return Err(err);
                },
            }
        } else if str_eq(child.name.as_str(), "xs:annotation") {
            if child.children.len() != 1 {
                return Err(Error::MalformedAnnotation);
            }
            let doc_node = &child.children[0];
            if !str_eq(doc_node.name.as_str(), "xs:documentation") {
                return Err(Error::ExpectedDocumentationTag);
            }
            match &doc_node.text {
                Some(t) => {
                    documentation = t.clone();
                },
                None => {
                    return Err(Error::EmptyDocumentationText);
                },
            }
        }
    }
    let en = Enumeration {
        id: x.id.clone(),
        name: x.name.clone(),
        index: x.index,
        base,
        members,
        documentation,
    };
    Ok(en)
}

} // verus!

verus! {

/// The enumerations extracted from the registered nodes from position
/// `i` on: every simple-type node that is an enumeration restriction
/// contributes one, every other node none; the first extraction error
/// stops the walk.
pub open spec fn defs_spec(cs: Seq<XmlElement>, ns: Seq<GNode>, i: int) -> Result<
    Seq<GEnumeration>,
    GError,
>
    decreases ns.len() - i,
{
    if i < 0 || i >= ns.len() {
        Ok(Seq::empty())
    } else if ns[i].kind != XsType::XsSimpleType || !is_enum_spec(cs[ns[i].child]) {
        defs_spec(cs, ns, i + 1)
    } else {
        match enum_spec(ns[i], cs[ns[i].child]) {
            Err(e) => Err(e),
            Ok(g) => match defs_spec(cs, ns, i + 1) {
                Err(e) => Err(e),
                Ok(rest) => Ok(seq![g] + rest),
            },
        }
    }
}

/// Walks the registered nodes and assembles one tagged type definition
/// per enumeration simple type, keeping the registry's order.
pub fn parse_type_definitions(nodes: &Vec<XsTypeNode>, root: &XmlElement) -> (r: Result<
    Vec<TypeDefinition>,
    Error,
>)
    requires
        forall|k: int| 0 <= k < nodes@.len() ==> (#[trigger] nodes@[k]).child
            < root.children@.len(),
    ensures
        match r {
            Ok(ds) => defs_spec(root.children@, nodes@.map_values(|n: XsTypeNode| n@), 0) == Ok::<
                Seq<GEnumeration>,
                GError,
            >(ds@.map_values(|d: TypeDefinition| d@)),
            Err(e) => defs_spec(root.children@, nodes@.map_values(|n: XsTypeNode| n@), 0) == Err::<
                Seq<GEnumeration>,
                GError,
            >(e@),
        },
{
    let ghost cs = root.children@;
    let ghost gns = nodes@.map_values(|n: XsTypeNode| n@);
    let mut defs: Vec<TypeDefinition> = Vec::new();
    let n = nodes.len();
    for i in 0..n
        invariant
            n == gns.len(),
            cs == root.children@,
            gns == nodes@.map_values(|x: XsTypeNode| x@),
            forall|k: int| 0 <= k < gns.len() ==> (#[trigger] gns[k]).child < cs.len(),
            defs_spec(cs, gns, 0) == (match defs_spec(cs, gns, i as int) {
                Err(e2) => Err::<Seq<GEnumeration>, GError>(e2),
                Ok(rest) => Ok::<Seq<GEnumeration>, GError>(
                    defs@.map_values(|d: TypeDefinition| d@) + rest,
                ),
            }),
    {
        let x = &nodes[i];
        proof {
            assert(gns[i as int] == x@);
        }
        let is_simple = match x.xsd_type {
            XsType::XsSimpleType => true,
            _ => false,
        };
        if is_simple {
            let e = &root.children[x.child];
            if is_enumeration_simple_type(e) {
                match parse_enumeration(x, e) {
                    Err(err) => {
                        return Err(err);
                    },
                    Ok(en) => {
                        let ghost before = defs@.map_values(|d: TypeDefinition| d@);
                        defs.push(TypeDefinition::Simple(SimpleType::Enum(en)));
                        proof {
                            assert(defs@.map_values(|d: TypeDefinition| d@) =~= before.push(en@));
                            if defs_spec(cs, gns, i + 1) is Ok {
                                let rest = defs_spec(cs, gns, i + 1)->Ok_0;
                                assert(before + (seq![en@] + rest) =~= before.push(en@) + rest);
                            }
                        }
                    },
                }
            }
        }
    }
    proof {
        let whole = defs@.map_values(|d: TypeDefinition| d@);
        assert(whole + Seq::<GEnumeration>::empty() =~= whole);
    }
    Ok(defs)
}

/// What the whole parse of one document yields, starting the sequence
/// counter at `start`: the enumerations of a document whose root is the
/// schema marker, or the first error of the walk.
pub open spec fn parse_spec(root: XmlElement, start: nat) -> Result<Seq<GEnumeration>, GError> {
    if root.name@ != "xs:schema"@ {
        Err(GError::SchemaNotFound)
    } else {
        match nodes_spec(root, start) {
            Err(e) => Err(e),
            Ok(ns) => defs_spec(root.children@, ns, 0),
        }
    }
}

/// Parses one schema document, already loaded as an element tree:
/// classifies and registers every top-level node, extracts every
/// enumeration simple type, and returns the assembled model. The first
/// malformed construct aborts the parse with its error and no partial
/// result. A root that is not the schema marker is rejected before the
/// counter is touched.
pub fn parse_musicxml_xsd(root: &XmlElement, counter: &mut SequenceCounter) -> (r: Result<
    MusicXSD,
    Error,
>)
    requires
        old(counter).value + root.children@.len() <= usize::MAX,
    ensures
        match r {
            Ok(m) => parse_spec(*root, old(counter).value as nat) == Ok::<
                Seq<GEnumeration>,
                GError,
            >(m@) && final(counter).value == old(counter).value + root.children@.len(),
            Err(e) => parse_spec(*root, old(counter).value as nat) == Err::<
                Seq<GEnumeration>,
                GError,
            >(e@) && old(counter).value <= final(counter).value <= old(counter).value
                + root.children@.len(),
        },
        root.name@ != "xs:schema"@ ==> r == Err::<MusicXSD, Error>(Error::SchemaNotFound)
            && final(counter).value == old(counter).value,
{
    if !str_eq(root.name.as_str(), "xs:schema") {
        return Err(Error::SchemaNotFound);
    }
    let type_nodes = match parse_type_nodes(root, counter) {
        Ok(ns) => ns,
        Err(e) => {
            return Err(e);
        },
    };
    let type_definitions = match parse_type_definitions(&type_nodes, root) {
        Ok(ds) => ds,
        Err(e) => {
            return Err(e);
        },
    };
    Ok(MusicXSD::new(type_definitions))
}

} // verus!
