//! What a YAML value means as a pipeline definition, stated over the models
//! of values, keywords and nodes.

use vstd::prelude::*;
use crate::keywords::KeywordsView;
use crate::node::{NodeTypeView, NodeView};
use crate::parsers::yaml::{PropertyView, YamlView};
use crate::text::{boolean_text, decimal_text};
use crate::{assemble, ParserNodeType};

verus! {

/// The text that a scalar is written as: a number in decimal, a truth value
/// as `true` or `false`, the null value as `null`, a string as itself. What
/// is no scalar has the empty text.
pub open spec fn scalar_text(yaml: YamlView) -> Seq<char> {
    match yaml {
        YamlView::Real(text) => text,
        YamlView::Integer(i) => decimal_text(i),
        YamlView::String(text) => text,
        YamlView::Boolean(b) => boolean_text(b),
        YamlView::Null => "null"@,
        _ => Seq::empty(),
    }
}

/// The property that a value stands for: a mapping becomes a mapping of the
/// properties of its values, anything else the text of the scalar.
pub open spec fn property_of(yaml: YamlView) -> PropertyView
    decreases yaml,
{
    match yaml {
        YamlView::Hash(pairs) => PropertyView::Mapping(properties_of(pairs, pairs.len())),
        _ => PropertyView::Simple(scalar_text(yaml)),
    }
}

/// The properties that the first `n` pairs of a mapping give: each string key
/// bound to the property of its value. A pair whose key is no string is left
/// out; of two pairs with the same key the later one counts.
pub open spec fn properties_of(pairs: Seq<(YamlView, YamlView)>, n: nat) -> Map<
    Seq<char>,
    PropertyView,
>
    decreases pairs, n,
{
    if n == 0 || n > pairs.len() {
        Map::empty()
    } else {
        let before = properties_of(pairs, (n - 1) as nat);
        match pairs[n - 1].0 {
            YamlView::String(key) => before.insert(key, property_of(pairs[n - 1].1)),
            _ => before,
        }
    }
}

/// Whether `yaml` is a mapping with the string `key` among its keys.
pub open spec fn has_key(yaml: YamlView, key: Seq<char>) -> bool {
    yaml matches YamlView::Hash(pairs) && exists|i: int|
        0 <= i < pairs.len() && (#[trigger] pairs[i]).0 == YamlView::String(key)
}

/// The value of the first of the pairs from index `from` on whose key is the
/// string `key`.
pub open spec fn first_value(pairs: Seq<(YamlView, YamlView)>, key: Seq<char>, from: nat) -> Option<
    YamlView,
>
    decreases pairs.len() - from,
{
    if from >= pairs.len() {
        None
    } else if pairs[from as int].0 == YamlView::String(key) {
        Some(pairs[from as int].1)
    } else {
        first_value(pairs, key, from + 1)
    }
}

/// The value that a mapping holds under the string `key`: that of the first
/// pair with this key. What is no mapping holds nothing.
pub open spec fn lookup(yaml: YamlView, key: Seq<char>) -> Option<YamlView> {
    match yaml {
        YamlView::Hash(pairs) => first_value(pairs, key, 0),
        _ => None,
    }
}

/// What `first_value` finds is the value of a pair at or after `from` whose
/// key is `key`, and no pair between has that key. It finds nothing only
/// where no pair from `from` on has the key.
pub proof fn lemma_first_value(pairs: Seq<(YamlView, YamlView)>, key: Seq<char>, from: nat)
    ensures
        match first_value(pairs, key, from) {
            Some(value) => exists|i: int|
                from <= i < pairs.len() && (#[trigger] pairs[i]) == (YamlView::String(key), value)
                    && forall|j: int|
                    from <= j < i ==> (#[trigger] pairs[j]).0 != YamlView::String(key),
            None => forall|j: int|
                from <= j < pairs.len() ==> (#[trigger] pairs[j]).0 != YamlView::String(key),
        },
    decreases pairs.len() - from,
{
    if from < pairs.len() && pairs[from as int].0 != YamlView::String(key) {
        lemma_first_value(pairs, key, from + 1);
    }
}

/// What a mapping holds under a key is a part of the mapping.
pub proof fn lemma_lookup_decreases(yaml: YamlView, key: Seq<char>)
    ensures
        lookup(yaml, key) matches Some(value) ==> decreases_to!(yaml => value),
{
    if let YamlView::Hash(pairs) = yaml {
        lemma_first_value(pairs, key, 0);
        if first_value(pairs, key, 0) is Some {
            let value = first_value(pairs, key, 0)->0;
            let i = choose|i: int|
                0 <= i < pairs.len() && (#[trigger] pairs[i]) == (YamlView::String(key), value);
            assert(decreases_to!(pairs[i] => pairs[i].1));
        }
    }
}

/// The keywords of YAML pipelines: `name`, `series`, `parallel`, and `run`
/// for a task.
pub open spec fn yaml_keywords() -> KeywordsView {
    KeywordsView { name: "name"@, series: "series"@, parallel: "parallel"@, task: "run"@ }
}

/// The kind of a node under the keywords `kw`. The first of these decides:
/// a mapping with the series key is a series; one with the parallel key is a
/// parallel group; one with the task key is a task; a lone string is a task;
/// anything else is a known node.
pub open spec fn node_type_of(yaml: YamlView, kw: KeywordsView) -> ParserNodeType {
    if has_key(yaml, kw.series) {
        ParserNodeType::ParserNodeTypeSeries
    } else if has_key(yaml, kw.parallel) {
        ParserNodeType::ParserNodeTypeParallel
    } else if has_key(yaml, kw.task) {
        ParserNodeType::ParserNodeTypeTask
    } else if yaml is String {
        ParserNodeType::ParserNodeTypeTask
    } else {
        ParserNodeType::ParserNodeTypeKnown
    }
}

/// Whether a pair labels its node: its key is the name key and its value is
/// a string.
pub open spec fn names(pair: (YamlView, YamlView), name_key: Seq<char>) -> bool {
    pair.0 == YamlView::String(name_key) && pair.1 is String
}

/// The label that the first naming pair from index `from` on gives.
pub open spec fn first_name(pairs: Seq<(YamlView, YamlView)>, name_key: Seq<char>, from: nat) -> Option<
    Seq<char>,
>
    decreases pairs.len() - from,
{
    if from >= pairs.len() {
        None
    } else if names(pairs[from as int], name_key) {
        Some(pairs[from as int].1->String_0)
    } else {
        first_name(pairs, name_key, from + 1)
    }
}

/// The label that the last naming pair among the first `n` gives.
pub open spec fn last_name(pairs: Seq<(YamlView, YamlView)>, name_key: Seq<char>, n: nat) -> Option<
    Seq<char>,
>
    decreases n,
{
    if n == 0 || n > pairs.len() {
        None
    } else if names(pairs[n - 1], name_key) {
        Some(pairs[n - 1].1->String_0)
    } else {
        last_name(pairs, name_key, (n - 1) as nat)
    }
}

/// The label of a node: the string under the name key of a mapping, taken
/// from the first pair that has one. Only a mapping has a label.
pub open spec fn name_of(yaml: YamlView, kw: KeywordsView) -> Option<Seq<char>> {
    match yaml {
        YamlView::Hash(pairs) => first_name(pairs, kw.name, 0),
        _ => None,
    }
}

/// The model of a task leaf with the given label and properties.
pub open spec fn leaf_view(name: Option<Seq<char>>, properties: Map<Seq<char>, PropertyView>) -> NodeView<
    PropertyView,
> {
    NodeView {
        name,
        is_root_node: false,
        ntype: NodeTypeView::Task,
        has_task: true,
        properties,
        continue_on_fail: false,
    }
}

/// The task leaf that a node makes. A mapping gives a leaf with all its
/// string-keyed pairs as properties, the name pair among them, and the label
/// that its name pair gives (the last one, should there be several). A lone
/// string gives a leaf without label whose only property binds the task key
/// to the string. Anything else gives no leaf.
pub open spec fn task_node_of(yaml: YamlView, kw: KeywordsView) -> Option<NodeView<PropertyView>> {
    match yaml {
        YamlView::Hash(pairs) => Some(
            leaf_view(last_name(pairs, kw.name, pairs.len()), properties_of(pairs, pairs.len())),
        ),
        YamlView::String(text) => Some(
            leaf_view(None, Map::empty().insert(kw.task, PropertyView::Simple(text))),
        ),
        _ => None,
    }
}

/// The key under which a group of kind `node_type` keeps its members.
pub open spec fn group_key(kw: KeywordsView, node_type: ParserNodeType) -> Seq<char> {
    if node_type == ParserNodeType::ParserNodeTypeParallel {
        kw.parallel
    } else {
        kw.series
    }
}

/// The pipeline node that a document node makes: for a series or a parallel
/// node a group of its members, for a task node its leaf, for a known node
/// nothing.
pub open spec fn node_of(yaml: YamlView, kw: KeywordsView) -> Option<NodeView<PropertyView>>
    decreases yaml, 1nat,
{
    assemble(
        node_type_of(yaml, kw),
        name_of(yaml, kw),
        members_of(yaml, kw, node_type_of(yaml, kw)),
        task_node_of(yaml, kw),
    )
}

/// The members of a node as a group of kind `node_type`: the pipeline nodes
/// of the items of the sequence that the node holds under the group's key.
/// Where it holds no sequence there, the group has no members.
pub open spec fn members_of(yaml: YamlView, kw: KeywordsView, node_type: ParserNodeType) -> Seq<
    NodeView<PropertyView>,
>
    decreases yaml, 0nat,
{
    match lookup(yaml, group_key(kw, node_type)) {
        Some(YamlView::Array(items)) => {
            proof {
                lemma_lookup_decreases(yaml, group_key(kw, node_type));
            }
            nodes_of(items, items.len(), kw)
        },
        _ => Seq::empty(),
    }
}

/// The pipeline nodes that the first `n` of `items` make, in the order of
/// the items; an item that makes no node is passed over.
pub open spec fn nodes_of(items: Seq<YamlView>, n: nat, kw: KeywordsView) -> Seq<
    NodeView<PropertyView>,
>
    decreases items, n,
{
    if n == 0 || n > items.len() {
        Seq::empty()
    } else {
        let before = nodes_of(items, (n - 1) as nat, kw);
        match node_of(items[n - 1], kw) {
            Some(node) => before.push(node),
            None => before,
        }
    }
}

} // verus!
