use abstract_pipeline_parsers::node::{Node, NodeType};
use abstract_pipeline_parsers::parsers::yaml::{Property, YamlNode};
use abstract_pipeline_parsers::{Parser, ParserNodeTypeKnown, ParserNodeTypeSeries};
use yaml_rust::{Yaml, YamlLoader};

fn from_yaml(yaml: &Yaml) -> YamlNode {
    match yaml {
        Yaml::Real(text) => YamlNode::Real(text.clone()),
        Yaml::Integer(i) => YamlNode::Integer(*i),
        Yaml::String(text) => YamlNode::String(text.clone()),
        Yaml::Boolean(b) => YamlNode::Boolean(*b),
        Yaml::Array(items) => YamlNode::Array(items.iter().map(from_yaml).collect()),
        Yaml::Hash(pairs) => YamlNode::Hash(
            pairs.iter().map(|(key, value)| (from_yaml(key), from_yaml(value))).collect(),
        ),
        Yaml::Alias(anchor) => YamlNode::Alias(*anchor),
        Yaml::Null => YamlNode::Null,
        Yaml::BadValue => YamlNode::BadValue,
    }
}

fn load(source: &str) -> YamlNode {
    let documents = YamlLoader::load_from_str(source).unwrap();
    assert_eq!(documents.len(), 1);
    from_yaml(&documents[0])
}

fn text_of(property: Option<&Property>) -> Option<&str> {
    match property {
        Some(Property::Simple(text)) => Some(text.as_str()),
        _ => None,
    }
}

fn members<'n, 'a>(node: &'n Node<'a, Property, u32>) -> &'n Vec<Node<'a, Property, u32>> {
    match &node.ntype {
        NodeType::Series(members) => members,
        NodeType::Parallel(members) => members,
        NodeType::Task => panic!("a task has no members"),
    }
}

#[test]
fn a_parsed_task_keeps_its_properties() {
    let doc = load("name: x\nfoo: bar\n");
    let task = 1u32;
    let node = doc.create_task_node(&task).unwrap();
    assert_eq!(node.name, Some("x"));
    assert_eq!(text_of(node.properties.get("foo")), Some("bar"));
    assert_eq!(text_of(node.properties.get("name")), Some("x"));
    assert_eq!(node.properties.len(), 2);
}

#[test]
fn a_parsed_lone_string_is_a_task() {
    let doc = load("build");
    let task = 1u32;
    let node = doc.make_node(&task).unwrap();
    assert!(matches!(node.ntype, NodeType::Task));
    assert_eq!(text_of(node.properties.get("run")), Some("build"));
    assert_eq!(node.name, None);
}

#[test]
fn parsed_nested_mappings_become_nested_properties() {
    let doc = load("task:\n  env:\n    DEBUG: \"1\"\n");
    let task = 1u32;
    let node = doc.create_task_node(&task).unwrap();
    match node.properties.get("task") {
        Some(Property::Mapping(outer)) => match outer.get("env") {
            Some(Property::Mapping(env)) => {
                assert_eq!(text_of(env.get("DEBUG")), Some("1"));
                assert_eq!(env.len(), 1);
            },
            _ => panic!("env is a mapping"),
        },
        _ => panic!("task is a mapping"),
    }
}

#[test]
fn a_parsed_empty_series_is_a_series() {
    let doc = load("series: []\n");
    assert_eq!(doc.get_node_type(), ParserNodeTypeSeries);
    let task = 1u32;
    let node = doc.make_node(&task).unwrap();
    assert!(matches!(node.ntype, NodeType::Series(_)));
    assert!(members(&node).is_empty());
}

#[test]
fn parsed_scalars_are_written_as_text() {
    let doc = load(
        "run: make\ncount: 3\nbelow: -12\nratio: 1.50\nloud: true\nquiet: false\nnothing: ~\nwords: [a, b]\n",
    );
    let task = 1u32;
    let node = doc.make_node(&task).unwrap();
    assert_eq!(text_of(node.properties.get("run")), Some("make"));
    assert_eq!(text_of(node.properties.get("count")), Some("3"));
    assert_eq!(text_of(node.properties.get("below")), Some("-12"));
    assert_eq!(text_of(node.properties.get("ratio")), Some("1.50"));
    assert_eq!(text_of(node.properties.get("loud")), Some("true"));
    assert_eq!(text_of(node.properties.get("quiet")), Some("false"));
    assert_eq!(text_of(node.properties.get("nothing")), Some("null"));
    assert_eq!(text_of(node.properties.get("words")), Some(""));
    assert_eq!(node.properties.len(), 8);
}

#[test]
fn parsed_keys_that_are_no_strings_are_dropped() {
    let doc = load("1: one\ntrue: yes\nrun: go\n");
    let task = 1u32;
    let node = doc.make_node(&task).unwrap();
    assert_eq!(node.properties.len(), 1);
    assert_eq!(text_of(node.properties.get("run")), Some("go"));
}

#[test]
fn a_parsed_pipeline_is_built_in_document_order() {
    let doc = load(
        "name: release\n\
         series:\n\
         \x20 - fetch\n\
         \x20 - constants:\n\
         \x20     region: north\n\
         \x20 - name: checks\n\
         \x20   parallel:\n\
         \x20     - lint\n\
         \x20     - run: test\n\
         \x20       env:\n\
         \x20         DEBUG: 1\n\
         \x20 - 42\n\
         \x20 - publish\n",
    );
    let task = 8u32;
    let node = doc.make_node(&task).unwrap();
    assert_eq!(node.name, Some("release"));
    let top = members(&node);
    assert_eq!(top.len(), 3);
    assert_eq!(text_of(top[0].properties.get("run")), Some("fetch"));
    assert_eq!(top[1].name, Some("checks"));
    assert!(matches!(top[1].ntype, NodeType::Parallel(_)));
    let checks = members(&top[1]);
    assert_eq!(checks.len(), 2);
    assert_eq!(text_of(checks[0].properties.get("run")), Some("lint"));
    assert_eq!(text_of(checks[1].properties.get("run")), Some("test"));
    match checks[1].properties.get("env") {
        Some(Property::Mapping(env)) => assert_eq!(text_of(env.get("DEBUG")), Some("1")),
        _ => panic!("env is a mapping"),
    }
    assert_eq!(checks[1].task, Some(&8u32));
    assert_eq!(text_of(top[2].properties.get("run")), Some("publish"));
}

#[test]
fn a_parsed_mapping_without_keywords_is_known() {
    let doc = load("constants:\n  region: north\n");
    assert_eq!(doc.get_node_type(), ParserNodeTypeKnown);
    let task = 1u32;
    assert!(doc.make_node(&task).is_none());
}
