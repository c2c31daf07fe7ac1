//! Laws of the YAML reading: what holds of every value and every set of
//! keywords.

use vstd::prelude::*;
use crate::keywords::KeywordsView;
use crate::node::{NodeTypeView, NodeView};
use crate::parsers::yaml::{PropertyView, YamlNode, YamlView};
use crate::parsers::yaml_model::{
    first_name, group_key, has_key, last_name, leaf_view, lemma_lookup_decreases, lookup,
    members_of, name_of, names, node_of, node_type_of, nodes_of, task_node_of, yaml_keywords,
};
use crate::{assemble, group_view, Parser, ParserNodeType};

verus! {

/// Every value is of exactly one kind, and the keys it holds decide which:
/// a series if it holds the series key; else a parallel group if it holds
/// the parallel key; else a task if it holds the task key or is a lone
/// string; else a known node.
pub proof fn law_one_kind(yaml: YamlView, kw: KeywordsView)
    ensures
        node_type_of(yaml, kw) == ParserNodeType::ParserNodeTypeSeries <==> has_key(
            yaml,
            kw.series,
        ),
        node_type_of(yaml, kw) == ParserNodeType::ParserNodeTypeParallel <==> !has_key(
            yaml,
            kw.series,
        ) && has_key(yaml, kw.parallel),
        node_type_of(yaml, kw) == ParserNodeType::ParserNodeTypeTask <==> !has_key(yaml, kw.series)
            && !has_key(yaml, kw.parallel) && (has_key(yaml, kw.task) || yaml is String),
        node_type_of(yaml, kw) == ParserNodeType::ParserNodeTypeKnown <==> !has_key(
            yaml,
            kw.series,
        ) && !has_key(yaml, kw.parallel) && !has_key(yaml, kw.task) && !(yaml is String),
{
}

/// A mapping that holds both the series key and the parallel key is a
/// series.
pub proof fn law_series_wins(yaml: YamlView, kw: KeywordsView)
    requires
        has_key(yaml, kw.series),
        has_key(yaml, kw.parallel),
    ensures
        node_type_of(yaml, kw) == ParserNodeType::ParserNodeTypeSeries,
{
}

/// A value makes no pipeline node exactly when it is a known node. A series
/// makes a series group and a parallel node a parallel group, whatever
/// their members are; a task makes its task leaf, and it has one.
pub proof fn law_known_makes_nothing(yaml: YamlView, kw: KeywordsView)
    ensures
        node_of(yaml, kw) is None <==> node_type_of(yaml, kw)
            == ParserNodeType::ParserNodeTypeKnown,
        node_type_of(yaml, kw) == ParserNodeType::ParserNodeTypeSeries ==> node_of(yaml, kw)
            == Some(
            group_view(
                name_of(yaml, kw),
                NodeTypeView::Series(members_of(yaml, kw, ParserNodeType::ParserNodeTypeSeries)),
            ),
        ),
        node_type_of(yaml, kw) == ParserNodeType::ParserNodeTypeParallel ==> node_of(yaml, kw)
            == Some(
            group_view(
                name_of(yaml, kw),
                NodeTypeView::Parallel(
                    members_of(yaml, kw, ParserNodeType::ParserNodeTypeParallel),
                ),
            ),
        ),
        node_type_of(yaml, kw) == ParserNodeType::ParserNodeTypeTask ==> node_of(yaml, kw)
            == task_node_of(yaml, kw) && task_node_of(yaml, kw) is Some,
{
}

/// The test that a member of a group passes when it is no known node.
pub open spec fn is_not_known(kw: KeywordsView) -> spec_fn(YamlView) -> bool {
    |item: YamlView| node_type_of(item, kw) != ParserNodeType::ParserNodeTypeKnown
}

/// The pipeline node that a member of a group makes.
pub open spec fn node_made(kw: KeywordsView) -> spec_fn(YamlView) -> NodeView<PropertyView> {
    |item: YamlView| node_of(item, kw)->0
}

proof fn lemma_nodes_of(items: Seq<YamlView>, n: nat, kw: KeywordsView)
    requires
        n <= items.len(),
    ensures
        nodes_of(items, n, kw) == items.take(n as int).filter(is_not_known(kw)).map_values(
            node_made(kw),
        ),
    decreases n,
{
    reveal(Seq::filter);
    if n > 0 {
        lemma_nodes_of(items, (n - 1) as nat, kw);
        law_known_makes_nothing(items[n - 1], kw);
        assert(items.take(n as int).drop_last() =~= items.take(n - 1));
    }
}

/// The members of a group are the pipeline nodes of the items that the
/// value holds under the group's key, without the known nodes among them and
/// in the order of the rest.
pub proof fn law_known_members_dropped(
    yaml: YamlView,
    kw: KeywordsView,
    node_type: ParserNodeType,
)
    ensures
        match lookup(yaml, group_key(kw, node_type)) {
            Some(YamlView::Array(items)) => members_of(yaml, kw, node_type) == items.filter(
                is_not_known(kw),
            ).map_values(node_made(kw)),
            _ => members_of(yaml, kw, node_type) == Seq::<NodeView<PropertyView>>::empty(),
        },
{
    match lookup(yaml, group_key(kw, node_type)) {
        Some(YamlView::Array(items)) => {
            lemma_nodes_of(items, items.len(), kw);
            assert(items.take(items.len() as int) =~= items);
        },
        _ => {},
    }
}

/// Another task key changes only what the task key decides. Which values
/// are series and parallel groups stays, and so do the labels; a value that
/// is neither is a task exactly when it holds the new key or is a lone
/// string. The leaf of a mapping stays; the leaf of a lone string binds the
/// new key to the string.
pub proof fn law_task_keyword(yaml: YamlView, kw: KeywordsView, marker: Seq<char>)
    ensures
        ({
            let other = KeywordsView { task: marker, ..kw };
            &&& node_type_of(yaml, other) == ParserNodeType::ParserNodeTypeSeries <==> node_type_of(
                yaml,
                kw,
            ) == ParserNodeType::ParserNodeTypeSeries
            &&& node_type_of(yaml, other) == ParserNodeType::ParserNodeTypeParallel
                <==> node_type_of(yaml, kw) == ParserNodeType::ParserNodeTypeParallel
            &&& !has_key(yaml, kw.series) && !has_key(yaml, kw.parallel) ==> (node_type_of(
                yaml,
                other,
            ) == ParserNodeType::ParserNodeTypeTask <==> has_key(yaml, marker) || yaml is String)
            &&& name_of(yaml, other) == name_of(yaml, kw)
            &&& yaml is Hash ==> task_node_of(yaml, other) == task_node_of(yaml, kw)
            &&& yaml is String ==> task_node_of(yaml, other) == Some(
                leaf_view(None, Map::empty().insert(marker, PropertyView::Simple(yaml->String_0))),
            )
        }),
{
}

proof fn lemma_first_name(pairs: Seq<(YamlView, YamlView)>, name_key: Seq<char>, from: nat)
    ensures
        match first_name(pairs, name_key, from) {
            Some(label) => exists|i: int|
                from <= i < pairs.len() && names(#[trigger] pairs[i], name_key) && pairs[i].1
                    == YamlView::String(label),
            None => forall|i: int| from <= i < pairs.len() ==> !names(#[trigger] pairs[i], name_key),
        },
    decreases pairs.len() - from,
{
    if from < pairs.len() && !names(pairs[from as int], name_key) {
        lemma_first_name(pairs, name_key, from + 1);
    }
}

proof fn lemma_last_name(pairs: Seq<(YamlView, YamlView)>, name_key: Seq<char>, n: nat)
    requires
        n <= pairs.len(),
    ensures
        match last_name(pairs, name_key, n) {
            Some(label) => exists|i: int|
                0 <= i < n && names(#[trigger] pairs[i], name_key) && pairs[i].1
                    == YamlView::String(label),
            None => forall|i: int| 0 <= i < n ==> !names(#[trigger] pairs[i], name_key),
        },
    decreases n,
{
    if n > 0 && !names(pairs[n - 1], name_key) {
        lemma_last_name(pairs, name_key, (n - 1) as nat);
    }
}

/// In a mapping without repeated keys, the label of the node and the label
/// of its task leaf are the same.
pub proof fn law_one_label(pairs: Seq<(YamlView, YamlView)>, kw: KeywordsView)
    requires
        forall|i: int, j: int|
            0 <= i < j < pairs.len() ==> (#[trigger] pairs[i]).0 != (#[trigger] pairs[j]).0,
    ensures
        task_node_of(YamlView::Hash(pairs), kw)->0.name == name_of(YamlView::Hash(pairs), kw),
{
    lemma_first_name(pairs, kw.name, 0);
    lemma_last_name(pairs, kw.name, pairs.len());
}

/// Every pipeline node that a value makes is laid out as built: tasks sit on
/// the leaves and only there, groups hold no properties, and no flag is set.
pub proof fn law_built_nodes(yaml: YamlView, kw: KeywordsView)
    ensures
        node_of(yaml, kw) matches Some(node) ==> node.as_built(),
    decreases yaml, 1nat,
{
    let node_type = node_type_of(yaml, kw);
    law_known_makes_nothing(yaml, kw);
    if node_type == ParserNodeType::ParserNodeTypeSeries || node_type
        == ParserNodeType::ParserNodeTypeParallel {
        let members = members_of(yaml, kw, node_type);
        if let Some(YamlView::Array(items)) = lookup(yaml, group_key(kw, node_type)) {
            lemma_lookup_decreases(yaml, group_key(kw, node_type));
            lemma_built_members(items, items.len(), kw);
            assert(members == nodes_of(items, items.len(), kw));
        } else {
            assert(members.len() == 0);
        }
        assert(forall|i: int| 0 <= i < members.len() ==> (#[trigger] members[i]).as_built());
    }
}

proof fn lemma_built_members(items: Seq<YamlView>, n: nat, kw: KeywordsView)
    requires
        n <= items.len(),
    ensures
        forall|i: int|
            0 <= i < nodes_of(items, n, kw).len() ==> (#[trigger] nodes_of(items, n, kw)[i]).as_built(),
    decreases items, n,
{
    if n > 0 {
        let before = nodes_of(items, (n - 1) as nat, kw);
        lemma_built_members(items, (n - 1) as nat, kw);
        law_built_nodes(items[n - 1], kw);
        assert(nodes_of(items, n, kw) == match node_of(items[n - 1], kw) {
            Some(node) => before.push(node),
            None => before,
        });
    } else {
        assert(nodes_of(items, n, kw).len() == 0);
    }
}

/// What `Parser::make_node` makes of a YAML value is the pipeline node of
/// the value under the keywords of YAML pipelines.
pub proof fn law_make_node(yaml: YamlNode)
    ensures
        assemble(
            yaml.node_type(),
            yaml.node_name(),
            yaml.node_vec(yaml.node_type()),
            yaml.task_node(),
        ) == node_of(yaml@, yaml_keywords()),
{
}

} // verus!
