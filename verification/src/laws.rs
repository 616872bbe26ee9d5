use vstd::prelude::*;

use crate::model::GEnumeration;
use crate::xml::{lookup_attr, XmlElement};
use crate::xsd_parser::{
    build_nodes, classify_spec, defs_spec, enum_spec, has_id, is_enum_spec, nodes_spec,
    parse_spec, restriction_members, GError, GNode, XsType,
};

verus! {

proof fn lemma_build_nodes_unique(
    cs: Seq<XmlElement>,
    pos: int,
    start: nat,
    acc: Seq<GNode>,
    ns: Seq<GNode>,
)
    requires
        build_nodes(cs, pos, start, acc) == Ok::<Seq<GNode>, GError>(ns),
        forall|i: int, j: int| 0 <= i < j < acc.len() ==> (#[trigger] acc[i]).id != (#[trigger] acc[j]).id,
    ensures
        forall|i: int, j: int| 0 <= i < j < ns.len() ==> (#[trigger] ns[i]).id != (#[trigger] ns[j]).id,
    decreases cs.len() - pos,
{
    if pos < 0 || pos >= cs.len() {
    } else {
        match classify_spec(cs[pos], start, pos) {
            Err(_) => {
            },
            Ok(n) => {
                if !has_id(acc, n.id) {
                    let acc2 = acc.push(n);
                    assert forall|i: int, j: int| 0 <= i < j < acc2.len() implies (
                    #[trigger] acc2[i]).id != (#[trigger] acc2[j]).id by {
                        if j == acc.len() {
                            assert(acc2[j] == n);
                            assert(!(exists|k: int| 0 <= k < acc.len() && acc[k].id == n.id));
                            assert(acc2[i] == acc[i]);
                        }
                    }
                    lemma_build_nodes_unique(cs, pos + 1, start + 1, acc2, ns);
                }
            },
        }
    }
}

/// Two sibling nodes that resolve to the same identifier never both
/// register, whatever their kinds: a registry that builds successfully
/// has pairwise-distinct identifiers.
pub proof fn lemma_no_duplicate_identifiers(root: XmlElement, start: nat, ns: Seq<GNode>)
    requires
        nodes_spec(root, start) == Ok::<Seq<GNode>, GError>(ns),
    ensures
        forall|i: int, j: int| 0 <= i < j < ns.len() ==> (#[trigger] ns[i]).id != (#[trigger] ns[j]).id,
{
    lemma_build_nodes_unique(root.children@, 0, start, Seq::empty(), ns);
}

/// Agreement of two classified nodes up to the sequence index: same kind
/// and element; same identifier and display name except for anonymous
/// annotations, whose identifier carries the index.
pub open spec fn nodes_agree(a: GNode, b: GNode) -> bool {
    a.kind == b.kind && a.child == b.child && (a.kind != XsType::XsAnnotation ==> a.id == b.id
        && a.name == b.name)
}

/// Agreement of two extracted enumerations up to the sequence index.
pub open spec fn enums_agree(a: GEnumeration, b: GEnumeration) -> bool {
    a.id == b.id && a.name == b.name && a.base == b.base && a.members == b.members
        && a.documentation == b.documentation
}

proof fn lemma_build_nodes_agree(
    cs: Seq<XmlElement>,
    pos: int,
    s1: nat,
    s2: nat,
    acc1: Seq<GNode>,
    acc2: Seq<GNode>,
    ns1: Seq<GNode>,
    ns2: Seq<GNode>,
)
    requires
        build_nodes(cs, pos, s1, acc1) == Ok::<Seq<GNode>, GError>(ns1),
        build_nodes(cs, pos, s2, acc2) == Ok::<Seq<GNode>, GError>(ns2),
        acc1.len() == acc2.len(),
        forall|k: int| 0 <= k < acc1.len() ==> nodes_agree(#[trigger] acc1[k], acc2[k]),
    ensures
        ns1.len() == ns2.len(),
        forall|k: int| 0 <= k < ns1.len() ==> nodes_agree(#[trigger] ns1[k], ns2[k]),
    decreases cs.len() - pos,
{
    if pos < 0 || pos >= cs.len() {
    } else {
        let n1 = classify_spec(cs[pos], s1, pos)->Ok_0;
        let n2 = classify_spec(cs[pos], s2, pos)->Ok_0;
        assert(nodes_agree(n1, n2));
        let b1 = acc1.push(n1);
        let b2 = acc2.push(n2);
        assert forall|k: int| 0 <= k < b1.len() implies nodes_agree(#[trigger] b1[k], b2[k]) by {
            if k < acc1.len() {
                assert(b1[k] == acc1[k]);
                assert(b2[k] == acc2[k]);
            }
        }
        lemma_build_nodes_agree(cs, pos + 1, s1 + 1, s2 + 1, b1, b2, ns1, ns2);
    }
}

proof fn lemma_defs_agree(
    cs: Seq<XmlElement>,
    ns1: Seq<GNode>,
    ns2: Seq<GNode>,
    i: int,
    d1: Seq<GEnumeration>,
    d2: Seq<GEnumeration>,
)
    requires
        defs_spec(cs, ns1, i) == Ok::<Seq<GEnumeration>, GError>(d1),
        defs_spec(cs, ns2, i) == Ok::<Seq<GEnumeration>, GError>(d2),
        ns1.len() == ns2.len(),
        forall|k: int| 0 <= k < ns1.len() ==> nodes_agree(#[trigger] ns1[k], ns2[k]),
    ensures
        d1.len() == d2.len(),
        forall|k: int| 0 <= k < d1.len() ==> enums_agree(#[trigger] d1[k], d2[k]),
    decreases ns1.len() - i,
{
    if i < 0 || i >= ns1.len() {
    } else {
        assert(nodes_agree(ns1[i], ns2[i]));
        if ns1[i].kind != XsType::XsSimpleType || !crate::xsd_parser::is_enum_spec(
            cs[ns1[i].child],
        ) {
            lemma_defs_agree(cs, ns1, ns2, i + 1, d1, d2);
        } else {
            let g1 = enum_spec(ns1[i], cs[ns1[i].child])->Ok_0;
            let g2 = enum_spec(ns2[i], cs[ns2[i].child])->Ok_0;
            assert(enums_agree(g1, g2));
            let r1 = defs_spec(cs, ns1, i + 1)->Ok_0;
            let r2 = defs_spec(cs, ns2, i + 1)->Ok_0;
            lemma_defs_agree(cs, ns1, ns2, i + 1, r1, r2);
            assert forall|k: int| 0 <= k < d1.len() implies enums_agree(#[trigger] d1[k], d2[k]) by {
                if k == 0 {
                    assert(d1[0] == g1);
                    assert(d2[0] == g2);
                } else {
                    assert(d1[k] == r1[k - 1]);
                    assert(d2[k] == r2[k - 1]);
                }
            }
        }
    }
}

/// Parsing the same document twice in one process yields enumerations
/// that agree pairwise in identifier, display name, base, members and
/// documentation; only the sequence indices may differ, since the
/// counter is never reset between the runs.
pub proof fn lemma_parse_deterministic(
    root: XmlElement,
    s1: nat,
    s2: nat,
    r1: Seq<GEnumeration>,
    r2: Seq<GEnumeration>,
)
    requires
        parse_spec(root, s1) == Ok::<Seq<GEnumeration>, GError>(r1),
        parse_spec(root, s2) == Ok::<Seq<GEnumeration>, GError>(r2),
    ensures
        r1.len() == r2.len(),
        forall|k: int| 0 <= k < r1.len() ==> enums_agree(#[trigger] r1[k], r2[k]),
{
    let ns1 = nodes_spec(root, s1)->Ok_0;
    let ns2 = nodes_spec(root, s2)->Ok_0;
    lemma_build_nodes_agree(root.children@, 0, s1, s2, Seq::empty(), Seq::empty(), ns1, ns2);
    lemma_defs_agree(root.children@, ns1, ns2, 0, r1, r2);
}


/// A simple type whose restriction has no enumeration child contributes
/// no type definition: the walk past such a node is the walk without it,
/// and the rest of the parse is unaffected.
pub proof fn lemma_non_enumeration_skipped(cs: Seq<XmlElement>, ns: Seq<GNode>, i: int)
    requires
        0 <= i < ns.len(),
        ns[i].kind == XsType::XsSimpleType,
        !is_enum_spec(cs[ns[i].child]),
    ensures
        defs_spec(cs, ns, i) == defs_spec(cs, ns, i + 1),
{
}

/// Member values keep document order: when every restriction child from
/// position `j` on is an enumeration with a value attribute, the
/// extracted members are exactly those values, child by child, never
/// re-sorted.
pub proof fn lemma_members_in_document_order(rs: Seq<XmlElement>, j: int)
    requires
        0 <= j <= rs.len(),
        forall|k: int| j <= k < rs.len() ==> (#[trigger] rs[k]).name@ == "xs:enumeration"@
            && lookup_attr(rs[k].attributes@, "value"@) is Some,
    ensures
        restriction_members(rs, j) matches Ok(ms) && ms.len() == rs.len() - j && forall|k: int|
            0 <= k < ms.len() ==> ms[k] == lookup_attr(rs[j + k].attributes@, "value"@)->Some_0,
    decreases rs.len() - j,
{
    if j == rs.len() {
    } else {
        lemma_members_in_document_order(rs, j + 1);
        let ms = restriction_members(rs, j)->Ok_0;
        let rest = restriction_members(rs, j + 1)->Ok_0;
        assert forall|k: int| 0 <= k < ms.len() implies ms[k] == lookup_attr(
            rs[j + k].attributes@,
            "value"@,
        )->Some_0 by {
            if k > 0 {
                assert(ms[k] == rest[k - 1]);
            }
        }
    }
}

} // verus!
