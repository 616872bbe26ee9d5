use musicxml_xsd::model::TypeDefinition;
use musicxml_xsd::xml::XmlElement;
use musicxml_xsd::xsd_parser::{
    is_enumeration_simple_type, parse_enumeration, parse_musicxml_xsd, parse_type_nodes, Error,
    SequenceCounter, XsType,
};

fn elem(name: &str, attrs: &[(&str, &str)], text: Option<&str>, children: Vec<XmlElement>) -> XmlElement {
    XmlElement {
        name: name.to_string(),
        attributes: attrs.iter().map(|(k, v)| (k.to_string(), v.to_string())).collect(),
        text: text.map(|t| t.to_string()),
        children,
    }
}

fn enum_value(name: &str) -> XmlElement {
    elem("xs:enumeration", &[("value", name)], None, vec![])
}

fn simple_enum(name: &str, base: &str, values: &[&str]) -> XmlElement {
    let children = values.iter().map(|v| enum_value(v)).collect();
    elem(
        "xs:simpleType",
        &[("name", name)],
        None,
        vec![elem("xs:restriction", &[("base", base)], None, children)],
    )
}

fn schema(children: Vec<XmlElement>) -> XmlElement {
    elem("xs:schema", &[], None, children)
}

#[test]
fn root_mismatch_fails() {
    let root = elem("xs:wrong", &[], None, vec![]);
    let mut c = SequenceCounter::new();
    assert_eq!(parse_musicxml_xsd(&root, &mut c), Err(Error::SchemaNotFound));
    assert_eq!(c.value, 0);
}

#[test]
fn plain_element_root_fails() {
    let root = elem("score-partwise", &[], None, vec![simple_enum("t", "xs:string", &["A"])]);
    let mut c = SequenceCounter::new();
    assert_eq!(parse_musicxml_xsd(&root, &mut c), Err(Error::SchemaNotFound));
}

#[test]
fn duplicate_identifier_fails() {
    let root = schema(vec![
        elem("xs:element", &[("name", "note")], None, vec![]),
        elem("xs:element", &[("name", "note")], None, vec![]),
    ]);
    let mut c = SequenceCounter::new();
    assert_eq!(
        parse_musicxml_xsd(&root, &mut c),
        Err(Error::DuplicateIdentifier("xs:element:note".to_string()))
    );
}

#[test]
fn unknown_top_level_node_fails() {
    let root = schema(vec![elem("xs:notAThing", &[("name", "x")], None, vec![])]);
    let mut c = SequenceCounter::new();
    assert_eq!(
        parse_musicxml_xsd(&root, &mut c),
        Err(Error::UnknownSchemaNode("xs:notAThing".to_string()))
    );
}

#[test]
fn missing_name_attribute_fails() {
    let root = schema(vec![elem("xs:element", &[], None, vec![])]);
    let mut c = SequenceCounter::new();
    assert_eq!(
        parse_musicxml_xsd(&root, &mut c),
        Err(Error::MissingNameAttribute("xs:element".to_string()))
    );
}

#[test]
fn import_without_namespace_fails() {
    let root = schema(vec![elem("xs:import", &[("schemaLocation", "xlink.xsd")], None, vec![])]);
    let mut c = SequenceCounter::new();
    assert_eq!(
        parse_musicxml_xsd(&root, &mut c),
        Err(Error::NameAttributeNotFound("xs:import".to_string()))
    );
}

#[test]
fn import_identifier_from_namespace() {
    let root = schema(vec![elem(
        "xs:import",
        &[("namespace", "http://www.w3.org/1999/xlink")],
        None,
        vec![],
    )]);
    let mut c = SequenceCounter::new();
    let nodes = parse_type_nodes(&root, &mut c).unwrap();
    assert_eq!(nodes.len(), 1);
    assert_eq!(nodes[0].id, "import:http://www.w3.org/1999/xlink");
    assert_eq!(nodes[0].xsd_type, XsType::XsImport);
}

#[test]
fn annotation_identifier_from_index() {
    let root = schema(vec![
        elem("xs:annotation", &[], None, vec![]),
        elem("xs:annotation", &[], None, vec![]),
    ]);
    let mut c = SequenceCounter::new();
    let nodes = parse_type_nodes(&root, &mut c).unwrap();
    assert_eq!(nodes[0].id, "annotation:0");
    assert_eq!(nodes[1].id, "annotation:1");
    assert_eq!(nodes[0].display(), "0-annotation:0-annotation:0");
}

#[test]
fn members_keep_document_order() {
    let root = schema(vec![simple_enum("mode", "xs:string", &["A", "B", "C"])]);
    let mut c = SequenceCounter::new();
    let xsd = parse_musicxml_xsd(&root, &mut c).unwrap();
    assert_eq!(xsd.type_definitions.len(), 1);
    let TypeDefinition::Simple(musicxml_xsd::model::SimpleType::Enum(en)) =
        &xsd.type_definitions[0];
    assert_eq!(en.base, "xs:string");
    assert_eq!(en.members, vec!["A".to_string(), "B".to_string(), "C".to_string()]);
    assert_eq!(en.id, "xs:simpleType:mode");
    assert_eq!(en.name, "mode");
    assert_eq!(en.documentation, "");
}

#[test]
fn non_enumeration_simple_type_skipped() {
    let pattern_type = elem(
        "xs:simpleType",
        &[("name", "measure-text")],
        None,
        vec![elem(
            "xs:restriction",
            &[("base", "xs:token")],
            None,
            vec![elem("xs:minLength", &[("value", "1")], None, vec![])],
        )],
    );
    assert!(!is_enumeration_simple_type(&pattern_type));
    let root = schema(vec![pattern_type, simple_enum("mode", "xs:string", &["major", "minor"])]);
    let mut c = SequenceCounter::new();
    let xsd = parse_musicxml_xsd(&root, &mut c).unwrap();
    assert_eq!(xsd.type_definitions.len(), 1);
    let TypeDefinition::Simple(musicxml_xsd::model::SimpleType::Enum(en)) =
        &xsd.type_definitions[0];
    assert_eq!(en.name, "mode");
}

#[test]
fn missing_base_fails() {
    let root = schema(vec![elem(
        "xs:simpleType",
        &[("name", "mode")],
        None,
        vec![elem("xs:restriction", &[], None, vec![enum_value("major")])],
    )]);
    let mut c = SequenceCounter::new();
    assert_eq!(parse_musicxml_xsd(&root, &mut c), Err(Error::MissingBaseType));
}

#[test]
fn unexpected_restriction_child_fails() {
    let root = schema(vec![elem(
        "xs:simpleType",
        &[("name", "mode")],
        None,
        vec![elem(
            "xs:restriction",
            &[("base", "xs:string")],
            None,
            vec![enum_value("major"), elem("xs:pattern", &[("value", ".*")], None, vec![])],
        )],
    )]);
    let mut c = SequenceCounter::new();
    assert_eq!(
        parse_musicxml_xsd(&root, &mut c),
        Err(Error::UnexpectedRestrictionChild("xs:pattern".to_string()))
    );
}

fn annotated_enum(annotation_children: Vec<XmlElement>) -> XmlElement {
    schema(vec![elem(
        "xs:simpleType",
        &[("name", "mode")],
        None,
        vec![
            elem("xs:annotation", &[], None, annotation_children),
            elem("xs:restriction", &[("base", "xs:string")], None, vec![enum_value("major")]),
        ],
    )])
}

#[test]
fn documentation_extracted() {
    let root = annotated_enum(vec![elem("xs:documentation", &[], Some("The mode."), vec![])]);
    let mut c = SequenceCounter::new();
    let xsd = parse_musicxml_xsd(&root, &mut c).unwrap();
    let TypeDefinition::Simple(musicxml_xsd::model::SimpleType::Enum(en)) =
        &xsd.type_definitions[0];
    assert_eq!(en.documentation, "The mode.");
}

#[test]
fn two_documentation_children_fail() {
    let root = annotated_enum(vec![
        elem("xs:documentation", &[], Some("one"), vec![]),
        elem("xs:documentation", &[], Some("two"), vec![]),
    ]);
    let mut c = SequenceCounter::new();
    assert_eq!(parse_musicxml_xsd(&root, &mut c), Err(Error::MalformedAnnotation));
}

#[test]
fn empty_annotation_fails() {
    let root = annotated_enum(vec![]);
    let mut c = SequenceCounter::new();
    assert_eq!(parse_musicxml_xsd(&root, &mut c), Err(Error::MalformedAnnotation));
}

#[test]
fn wrong_documentation_tag_fails() {
    let root = annotated_enum(vec![elem("xs:appinfo", &[], Some("x"), vec![])]);
    let mut c = SequenceCounter::new();
    assert_eq!(parse_musicxml_xsd(&root, &mut c), Err(Error::ExpectedDocumentationTag));
}

#[test]
fn documentation_without_text_fails() {
    let root = annotated_enum(vec![elem("xs:documentation", &[], None, vec![])]);
    let mut c = SequenceCounter::new();
    assert_eq!(parse_musicxml_xsd(&root, &mut c), Err(Error::EmptyDocumentationText));
}

fn build_doc() -> XmlElement {
    schema(vec![
        elem("xs:import", &[("namespace", "http://www.w3.org/1999/xlink")], None, vec![]),
        elem("xs:annotation", &[], None, vec![]),
        simple_enum("mode", "xs:string", &["major", "minor"]),
        simple_enum("stem-value", "xs:string", &["down", "up", "double", "none"]),
    ])
}

#[test]
fn repeat_parse_same_model() {
    let mut c = SequenceCounter::new();
    let first = parse_musicxml_xsd(&build_doc(), &mut c).unwrap();
    let second = parse_musicxml_xsd(&build_doc(), &mut c).unwrap();
    assert_eq!(first.type_definitions.len(), second.type_definitions.len());
    for (a, b) in first.type_definitions.iter().zip(second.type_definitions.iter()) {
        let TypeDefinition::Simple(musicxml_xsd::model::SimpleType::Enum(ea)) = a;
        let TypeDefinition::Simple(musicxml_xsd::model::SimpleType::Enum(eb)) = b;
        assert_eq!(ea.id, eb.id);
        assert_eq!(ea.name, eb.name);
        assert_eq!(ea.base, eb.base);
        assert_eq!(ea.members, eb.members);
        assert_eq!(ea.documentation, eb.documentation);
        assert!(eb.index > ea.index);
    }
    assert_eq!(c.value, 8);
}

#[test]
fn counter_is_shared_across_parses() {
    let mut c = SequenceCounter::new();
    assert_eq!(c.advance(), 0);
    assert_eq!(c.advance(), 1);
    let root = schema(vec![simple_enum("mode", "xs:string", &["major"])]);
    let xsd = parse_musicxml_xsd(&root, &mut c).unwrap();
    let TypeDefinition::Simple(musicxml_xsd::model::SimpleType::Enum(en)) =
        &xsd.type_definitions[0];
    assert_eq!(en.index, 2);
    assert_eq!(c.value, 3);
}

#[test]
fn parse_enumeration_directly() {
    let mut c = SequenceCounter::new();
    let root = schema(vec![simple_enum("accidental-value", "xs:string", &["sharp", "flat"])]);
    let nodes = parse_type_nodes(&root, &mut c).unwrap();
    let en = parse_enumeration(&nodes[0], &root.children[0]).unwrap();
    assert_eq!(en.id, "xs:simpleType:accidental-value");
    assert_eq!(en.members, vec!["sharp".to_string(), "flat".to_string()]);
}

#[test]
fn enumeration_value_without_attribute_is_skipped() {
    let root = schema(vec![elem(
        "xs:simpleType",
        &[("name", "mode")],
        None,
        vec![elem(
            "xs:restriction",
            &[("base", "xs:string")],
            None,
            vec![enum_value("major"), elem("xs:enumeration", &[], None, vec![]), enum_value("minor")],
        )],
    )]);
    let mut c = SequenceCounter::new();
    let xsd = parse_musicxml_xsd(&root, &mut c).unwrap();
    let TypeDefinition::Simple(musicxml_xsd::model::SimpleType::Enum(en)) =
        &xsd.type_definitions[0];
    assert_eq!(en.members, vec!["major".to_string(), "minor".to_string()]);
}
