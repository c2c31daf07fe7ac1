//! YAML documents as pipeline definitions.
//!
//! A YAML value is read under a set of keywords. The functions of this module
//! take the keywords as an argument; the `Parser` implementation for
//! `YamlNode` reads a value under the keywords of YAML pipelines.

use vstd::prelude::*;
use crate::keywords::{Keywords, KeywordsView};
use crate::node::{lemma_node_views_push, node_views, option_node_view, option_text, Node, NodeType, NodeView};
use crate::parsers::yaml_model::{
    first_name, first_value, has_key, last_name, lookup, members_of, name_of, node_of,
    node_type_of, nodes_of, properties_of, property_of, scalar_text, task_node_of, yaml_keywords,
};
use crate::string_map::{pairs_map, StringMap};
use crate::text::{boolean_to_string, integer_to_string, text_eq};
use crate::{Parser, ParserNodeType};

verus! {

/// A YAML value: a scalar, a sequence, or a mapping whose pairs are kept in
/// document order.
#[derive(Debug)]
pub enum YamlNode {
    /// A floating-point number, kept as it was written.
    Real(String),
    Integer(i64),
    String(String),
    Boolean(bool),
    Array(Vec<YamlNode>),
    Hash(Vec<(YamlNode, YamlNode)>),
    /// A reference to an anchor, by its number.
    Alias(usize),
    Null,
    /// What stands where a document has no proper value.
    BadValue,
}

/// The model of a `YamlNode`.
pub enum YamlView {
    Real(Seq<char>),
    Integer(int),
    String(Seq<char>),
    Boolean(bool),
    Array(Seq<YamlView>),
    Hash(Seq<(YamlView, YamlView)>),
    Alias(nat),
    Null,
    BadValue,
}

/// The models of the first `n` of `items`, in order.
pub open spec fn item_views(items: Seq<YamlNode>, n: nat) -> Seq<YamlView>
    decreases items, n,
{
    if n == 0 || n > items.len() {
        Seq::empty()
    } else {
        item_views(items, (n - 1) as nat).push(items[n - 1]@)
    }
}

/// The models of the first `n` of `pairs`, in order.
pub open spec fn pair_views(pairs: Seq<(YamlNode, YamlNode)>, n: nat) -> Seq<(YamlView, YamlView)>
    decreases pairs, n,
{
    if n == 0 || n > pairs.len() {
        Seq::empty()
    } else {
        pair_views(pairs, (n - 1) as nat).push((pairs[n - 1].0@, pairs[n - 1].1@))
    }
}

impl View for YamlNode {
    type V = YamlView;

    open spec fn view(&self) -> YamlView
        decreases self,
    {
        match self {
            YamlNode::Real(s) => YamlView::Real(s@),
            YamlNode::Integer(i) => YamlView::Integer(*i as int),
            YamlNode::String(s) => YamlView::String(s@),
            YamlNode::Boolean(b) => YamlView::Boolean(*b),
            YamlNode::Array(items) => YamlView::Array(item_views(items@, items@.len())),
            YamlNode::Hash(pairs) => YamlView::Hash(pair_views(pairs@, pairs@.len())),
            YamlNode::Alias(n) => YamlView::Alias(*n as nat),
            YamlNode::Null => YamlView::Null,
            YamlNode::BadValue => YamlView::BadValue,
        }
    }
}

/// `item_views` lists one model for each item.
pub proof fn lemma_item_views(items: Seq<YamlNode>, n: nat)
    requires
        n <= items.len(),
    ensures
        item_views(items, n).len() == n,
        forall|i: int| 0 <= i < n ==> #[trigger] item_views(items, n)[i] == items[i]@,
    decreases n,
{
    if n > 0 {
        lemma_item_views(items, (n - 1) as nat);
        assert(item_views(items, n) == item_views(items, (n - 1) as nat).push(items[n - 1]@));
    }
}

/// `pair_views` lists one pair of models for each pair.
pub proof fn lemma_pair_views(pairs: Seq<(YamlNode, YamlNode)>, n: nat)
    requires
        n <= pairs.len(),
    ensures
        pair_views(pairs, n).len() == n,
        forall|i: int|
            0 <= i < n ==> #[trigger] pair_views(pairs, n)[i] == (pairs[i].0@, pairs[i].1@),
    decreases n,
{
    if n > 0 {
        lemma_pair_views(pairs, (n - 1) as nat);
        assert(pair_views(pairs, n) == pair_views(pairs, (n - 1) as nat).push(
            (pairs[n - 1].0@, pairs[n - 1].1@),
        ));
    }
}

impl YamlNode {
    /// The text of a string scalar.
    pub fn as_str(&self) -> (text: Option<&str>)
        ensures
            match text {
                Some(s) => self@ == YamlView::String(s@),
                None => !(self@ is String),
            },
    {
        match self {
            YamlNode::String(s) => Some(s.as_str()),
            _ => None,
        }
    }

    /// The items of a sequence.
    pub fn as_vec(&self) -> (items: Option<&Vec<YamlNode>>)
        ensures
            match items {
                Some(v) => {
                    &&& *self == YamlNode::Array(*v)
                    &&& self@ is Array
                    &&& self@->Array_0.len() == v.len()
                    &&& forall|i: int| 0 <= i < v.len() ==> #[trigger] self@->Array_0[i] == v[i]@
                },
                None => !(self@ is Array),
            },
    {
        match self {
            YamlNode::Array(v) => {
                proof {
                    lemma_item_views(v@, v@.len());
                }
                Some(v)
            },
            _ => None,
        }
    }

    /// The pairs of a mapping.
    pub fn as_hash(&self) -> (pairs: Option<&Vec<(YamlNode, YamlNode)>>)
        ensures
            match pairs {
                Some(h) => {
                    &&& *self == YamlNode::Hash(*h)
                    &&& self@ is Hash
                    &&& self@->Hash_0.len() == h.len()
                    &&& forall|i: int|
                        0 <= i < h.len() ==> #[trigger] self@->Hash_0[i] == (h[i].0@, h[i].1@)
                },
                None => !(self@ is Hash),
            },
    {
        match self {
            YamlNode::Hash(h) => {
                proof {
                    lemma_pair_views(h@, h@.len());
                }
                Some(h)
            },
            _ => None,
        }
    }

    /// The value that a mapping holds under the string `key`: that of the
    /// first pair with this key, which is a part of the mapping.
    pub fn get(&self, key: &str) -> (value: Option<&YamlNode>)
        ensures
            match value {
                Some(v) => lookup(self@, key@) == Some(v@) && decreases_to!(self => v),
                None => lookup(self@, key@) is None,
            },
    {
        match self.as_hash() {
            Some(h) => {
                let mut i: usize = 0;
                while i < h.len()
                    invariant
                        i <= h.len(),
                        *self == YamlNode::Hash(*h),
                        self@ is Hash,
                        self@->Hash_0.len() == h.len(),
                        forall|j: int|
                            0 <= j < h.len() ==> #[trigger] self@->Hash_0[j] == (h[j].0@, h[j].1@),
                        lookup(self@, key@) == first_value(self@->Hash_0, key@, i as nat),
                    decreases h.len() - i,
                {
                    if let Some(s) = h[i].0.as_str() {
                        if text_eq(s, key) {
                            return Some(&h[i].1);
                        }
                    }
                    i += 1;
                }
                None
            },
            None => None,
        }
    }

    /// The keywords under which this value is read as a pipeline.
    pub fn keywords(&self) -> (kw: Keywords<'_>)
        ensures
            kw@ == yaml_keywords(),
    {
        Keywords {
            name: self.kwd_name(),
            series: self.kwd_series(),
            parallel: self.kwd_parallel(),
            task: self.kwd_task(),
        }
    }
}

/// A configuration value of a task: a text, or a mapping from keys to
/// configuration values.
#[derive(Debug)]
pub enum Property {
    Simple(String),
    Mapping(StringMap<Property>),
}

/// The model of a `Property`.
pub enum PropertyView {
    Simple(Seq<char>),
    Mapping(Map<Seq<char>, PropertyView>),
}

/// The map that the first `n` pairs spell out; the last occurrence of a key
/// counts.
pub open spec fn mapping_view(pairs: Seq<(String, Property)>, n: nat) -> Map<
    Seq<char>,
    PropertyView,
>
    decreases pairs, n,
{
    if n == 0 || n > pairs.len() {
        Map::empty()
    } else {
        mapping_view(pairs, (n - 1) as nat).insert(pairs[n - 1].0@, pairs[n - 1].1@)
    }
}

impl View for Property {
    type V = PropertyView;

    open spec fn view(&self) -> PropertyView
        decreases self,
    {
        match self {
            Property::Simple(text) => PropertyView::Simple(text@),
            Property::Mapping(map) => PropertyView::Mapping(
                mapping_view(map.pairs(), map.pairs().len()),
            ),
        }
    }
}

/// The model of a property: a text has the model of its characters, a
/// mapping the model of its map.
pub proof fn lemma_property_view(property: Property)
    ensures
        match property {
            Property::Simple(text) => property@ == PropertyView::Simple(text@),
            Property::Mapping(map) => property@ == PropertyView::Mapping(map@),
        },
{
    if let Property::Mapping(map) = property {
        lemma_mapping_is_pairs_map(map.pairs(), map.pairs().len());
    }
}

/// `mapping_view` and `pairs_map` spell out the same map.
proof fn lemma_mapping_is_pairs_map(pairs: Seq<(String, Property)>, n: nat)
    ensures
        mapping_view(pairs, n) == pairs_map(pairs, n),
    decreases n,
{
    if n == 0 || n > pairs.len() {
    } else {
        lemma_mapping_is_pairs_map(pairs, (n - 1) as nat);
    }
}

impl Clone for Property {
    fn clone(&self) -> (copy: Self)
        ensures
            copy@ == self@,
        decreases self,
    {
        match self {
            Property::Simple(text) => Property::Simple(text.clone()),
            Property::Mapping(map) => {
                let pairs = map.as_pairs();
                let mut copy: StringMap<Property> = StringMap::new();
                let mut i: usize = 0;
                while i < pairs.len()
                    invariant
                        i <= pairs.len(),
                        *self == Property::Mapping(*map),
                        pairs@ == map.pairs(),
                        copy@ == pairs_map(pairs@, i as nat),
                    decreases pairs.len() - i,
                {
                    proof {
                        assert(decreases_to!(self->Mapping_0 => self->Mapping_0.entries));
                    }
                    let key = pairs[i].0.clone();
                    let value = pairs[i].1.clone();
                    copy.insert(key, value);
                    i += 1;
                }
                let copy = Property::Mapping(copy);
                proof {
                    lemma_property_view(copy);
                    lemma_property_view(*self);
                }
                copy
            },
        }
    }
}

/// The key that marks a task in a YAML pipeline.
pub const KWD_TASK: &'static str = "run";

/// Writes a scalar as text.
pub fn get_yaml_key_as_string(yaml: &YamlNode) -> (text: String)
    ensures
        text@ == scalar_text(yaml@),
{
    match yaml {
        YamlNode::Real(s) => s.clone(),
        YamlNode::Integer(i) => integer_to_string(*i),
        YamlNode::String(s) => s.clone(),
        YamlNode::Boolean(b) => boolean_to_string(*b),
        YamlNode::Null => "null".to_owned(),
        _ => String::new(),
    }
}

/// Turns a value into a property.
pub fn create_property_from_yaml_hash(yaml: &YamlNode) -> (property: Property)
    ensures
        property@ == property_of(yaml@),
    decreases yaml,
{
    match yaml.as_hash() {
        Some(h) => {
            let mut hashmap: StringMap<Property> = StringMap::new();
            let mut i: usize = 0;
            while i < h.len()
                invariant
                    i <= h.len(),
                    *yaml == YamlNode::Hash(*h),
                    yaml@ is Hash,
                    yaml@->Hash_0.len() == h.len(),
                    forall|j: int|
                        0 <= j < h.len() ==> #[trigger] yaml@->Hash_0[j] == (h[j].0@, h[j].1@),
                    hashmap@ == properties_of(yaml@->Hash_0, i as nat),
                decreases h.len() - i,
            {
                if let Some(s) = h[i].0.as_str() {
                    let property = create_property_from_yaml_hash(&h[i].1);
                    hashmap.insert(s.to_owned(), property);
                }
                i += 1;
            }
            let property = Property::Mapping(hashmap);
            proof {
                lemma_property_view(property);
            }
            property
        },
        None => Property::Simple(get_yaml_key_as_string(yaml)),
    }
}

/// Whether a value is a mapping that has the string `key` among its keys.
pub fn yaml_hash_has_key(yaml: &YamlNode, key: &str) -> (found: bool)
    ensures
        found == has_key(yaml@, key@),
{
    match yaml.as_hash() {
        Some(h) => {
            let mut i: usize = 0;
            while i < h.len()
                invariant
                    i <= h.len(),
                    yaml@ is Hash,
                    yaml@->Hash_0.len() == h.len(),
                    forall|j: int|
                        0 <= j < h.len() ==> #[trigger] yaml@->Hash_0[j] == (h[j].0@, h[j].1@),
                    forall|j: int|
                        0 <= j < i ==> (#[trigger] yaml@->Hash_0[j]).0 != YamlView::String(key@),
                decreases h.len() - i,
            {
                proof {
                    assert(yaml@->Hash_0[i as int] == (h[i as int].0@, h[i as int].1@));
                }
                if let Some(s) = h[i].0.as_str() {
                    if text_eq(s, key) {
                        return true;
                    }
                }
                i += 1;
            }
            false
        },
        None => false,
    }
}

/// Tells what kind of node a value is under the keywords `kw`.
pub fn get_node_type(yaml: &YamlNode, kw: &Keywords) -> (node_type: ParserNodeType)
    ensures
        node_type == node_type_of(yaml@, kw@),
{
    if yaml_hash_has_key(yaml, kw.series) {
        ParserNodeType::ParserNodeTypeSeries
    } else if yaml_hash_has_key(yaml, kw.parallel) {
        ParserNodeType::ParserNodeTypeParallel
    } else if yaml_hash_has_key(yaml, kw.task) {
        ParserNodeType::ParserNodeTypeTask
    } else if yaml.as_str().is_some() {
        // A lone string stands for a task.
        ParserNodeType::ParserNodeTypeTask
    } else {
        ParserNodeType::ParserNodeTypeKnown
    }
}

/// Finds the label of a node under the keywords `kw`.
pub fn get_node_name<'a>(yaml: &'a YamlNode, kw: &Keywords) -> (name: Option<&'a str>)
    ensures
        option_text(name) == name_of(yaml@, kw@),
{
    match yaml.as_hash() {
        Some(h) => {
            let mut i: usize = 0;
            while i < h.len()
                invariant
                    i <= h.len(),
                    yaml@ is Hash,
                    yaml@->Hash_0.len() == h.len(),
                    forall|j: int|
                        0 <= j < h.len() ==> #[trigger] yaml@->Hash_0[j] == (h[j].0@, h[j].1@),
                    name_of(yaml@, kw@) == first_name(yaml@->Hash_0, kw@.name, i as nat),
                decreases h.len() - i,
            {
                match (h[i].0.as_str(), h[i].1.as_str()) {
                    (Some(key), Some(value)) => {
                        if text_eq(key, kw.name) {
                            return Some(value);
                        }
                    },
                    _ => (),
                }
                i += 1;
            }
            None
        },
        None => None,
    }
}

/// Makes the task leaf of a node under the keywords `kw`; the leaf holds
/// `task`.
pub fn create_task_node<'a, U>(yaml: &'a YamlNode, kw: &Keywords, task: &'a U) -> (node: Option<
    Node<'a, Property, U>,
>)
    ensures
        option_node_view(node) == task_node_of(yaml@, kw@),
        node matches Some(n) ==> n.carries(task),
{
    if let Some(h) = yaml.as_hash() {
        let mut name: Option<&'a str> = None;
        let mut properties: StringMap<Property> = StringMap::new();
        let mut i: usize = 0;
        while i < h.len()
            invariant
                i <= h.len(),
                yaml@ is Hash,
                yaml@->Hash_0.len() == h.len(),
                forall|j: int|
                    0 <= j < h.len() ==> #[trigger] yaml@->Hash_0[j] == (h[j].0@, h[j].1@),
                option_text(name) == last_name(yaml@->Hash_0, kw@.name, i as nat),
                properties@ == properties_of(yaml@->Hash_0, i as nat),
            decreases h.len() - i,
        {
            if let Some(s) = h[i].0.as_str() {
                if text_eq(s, kw.name) {
                    if let Some(value) = h[i].1.as_str() {
                        name = Some(value);
                    }
                }
                let property = create_property_from_yaml_hash(&h[i].1);
                properties.insert(s.to_owned(), property);
            }
            i += 1;
        }
        Some(
            Node {
                name,
                is_root_node: false,
                ntype: NodeType::Task,
                task: Some(task),
                properties,
                continue_on_fail: false,
            },
        )
    } else if let YamlNode::String(s) = yaml {
        let mut properties: StringMap<Property> = StringMap::new();
        properties.insert(kw.task.to_owned(), Property::Simple(s.clone()));
        Some(
            Node {
                name: None,
                is_root_node: false,
                ntype: NodeType::Task,
                task: Some(task),
                properties,
                continue_on_fail: false,
            },
        )
    } else {
        None
    }
}

/// Makes the pipeline nodes of the members of a group of kind `node_type`,
/// in document order. A member that is a known node is passed over.
pub fn collect_node_vec<'a, U>(
    yaml: &'a YamlNode,
    kw: &Keywords,
    task: &'a U,
    node_type: ParserNodeType,
) -> (nodes: Vec<Node<'a, Property, U>>)
    requires
        node_type == ParserNodeType::ParserNodeTypeSeries || node_type
            == ParserNodeType::ParserNodeTypeParallel,
    ensures
        node_views(nodes@, nodes@.len()) == members_of(yaml@, kw@, node_type),
        forall|i: int| 0 <= i < nodes.len() ==> (#[trigger] nodes[i]).carries(task),
    decreases yaml, 0nat,
{
    let kwd = match node_type {
        ParserNodeType::ParserNodeTypeParallel => kw.parallel,
        _ => kw.series,
    };
    let mut node_vec: Vec<Node<'a, Property, U>> = Vec::new();
    if let Some(members) = yaml.get(kwd) {
        if let Some(yaml_array) = members.as_vec() {
            let mut i: usize = 0;
            while i < yaml_array.len()
                invariant
                    i <= yaml_array.len(),
                    decreases_to!(yaml => members),
                    *members == YamlNode::Array(*yaml_array),
                    members@ is Array,
                    members@->Array_0.len() == yaml_array.len(),
                    forall|j: int|
                        0 <= j < yaml_array.len() ==> #[trigger] members@->Array_0[j]
                            == yaml_array[j]@,
                    node_views(node_vec@, node_vec@.len()) == nodes_of(
                        members@->Array_0,
                        i as nat,
                        kw@,
                    ),
                    forall|j: int| 0 <= j < node_vec.len() ==> (#[trigger] node_vec[j]).carries(task),
                decreases yaml_array.len() - i,
            {
                let node_obj = make_node(&yaml_array[i], kw, task);
                if let Some(node) = node_obj {
                    proof {
                        lemma_node_views_push(node_vec@, node);
                    }
                    node_vec.push(node);
                }
                i += 1;
            }
        }
    }
    node_vec
}

/// Makes the pipeline node of a document node under the keywords `kw`: a
/// group with its members for a series or a parallel node, the task leaf for
/// a task node, nothing for a known node. Every task in it is `task`.
pub fn make_node<'a, U>(yaml: &'a YamlNode, kw: &Keywords, task: &'a U) -> (node: Option<
    Node<'a, Property, U>,
>)
    ensures
        option_node_view(node) == node_of(yaml@, kw@),
        node matches Some(n) ==> n.carries(task),
    decreases yaml, 1nat,
{
    let node_type = get_node_type(yaml, kw);
    match node_type {
        ParserNodeType::ParserNodeTypeSeries => {
            let name = get_node_name(yaml, kw);
            let node_vec = collect_node_vec(yaml, kw, task, node_type);
            Some(
                Node {
                    name,
                    is_root_node: false,
                    ntype: NodeType::Series(node_vec),
                    task: None,
                    properties: StringMap::new(),
                    continue_on_fail: false,
                },
            )
        },
        ParserNodeType::ParserNodeTypeParallel => {
            let name = get_node_name(yaml, kw);
            let node_vec = collect_node_vec(yaml, kw, task, node_type);
            Some(
                Node {
                    name,
                    is_root_node: false,
                    ntype: NodeType::Parallel(node_vec),
                    task: None,
                    properties: StringMap::new(),
                    continue_on_fail: false,
                },
            )
        },
        ParserNodeType::ParserNodeTypeTask => create_task_node(yaml, kw, task),
        ParserNodeType::ParserNodeTypeKnown => None,
    }
}

impl Parser<Property> for YamlNode {
    open spec fn vocabulary(&self) -> KeywordsView {
        yaml_keywords()
    }

    open spec fn node_type(&self) -> ParserNodeType {
        node_type_of(self@, yaml_keywords())
    }

    open spec fn node_name(&self) -> Option<Seq<char>> {
        name_of(self@, yaml_keywords())
    }

    open spec fn task_node(&self) -> Option<NodeView<PropertyView>> {
        task_node_of(self@, yaml_keywords())
    }

    open spec fn node_vec(&self, node_type: ParserNodeType) -> Seq<NodeView<PropertyView>> {
        members_of(self@, yaml_keywords(), node_type)
    }

    fn kwd_task(&self) -> (word: &str)
        ensures
            word@ == "run"@,
    {
        KWD_TASK
    }

    fn get_node_type(&self) -> (node_type: ParserNodeType) {
        get_node_type(self, &self.keywords())
    }

    fn get_node_name<'a>(&'a self) -> (name: Option<&'a str>) {
        get_node_name(self, &self.keywords())
    }

    fn collect_node_vec<'a, U>(&'a self, task: &'a U, node_type: ParserNodeType) -> (nodes: Vec<
        Node<'a, Property, U>,
    >) {
        collect_node_vec(self, &self.keywords(), task, node_type)
    }

    fn create_task_node<'a, U>(&'a self, task: &'a U) -> (node: Option<Node<'a, Property, U>>) {
        create_task_node(self, &self.keywords(), task)
    }
}

} // verus!
