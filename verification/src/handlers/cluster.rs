//! The answers about a cluster.

use crate::cluster_helpers;
use crate::cluster_helpers::ClusterNodeView;
use crate::handlers;
use vstd::prelude::*;

verus! {

/// The most items that a list shows.
pub const MAX_LISTED: usize = 500;

/// The number of items that a list of the given length shows.
pub open spec fn listed_len(limit: Option<usize>, len: nat) -> nat {
    let most = handlers::limit_within(limit, if len == 0 {
        1
    } else {
        len as usize
    }, MAX_LISTED) as nat;
    if len < most {
        len
    } else {
        most
    }
}

/// The items that a list shows: the first ones, as many as are asked for, or all,
/// and never more than the list may show.
pub fn listed<T>(items: Vec<T>, limit: Option<usize>) -> (r: Vec<T>)
    ensures
        r@ == items@.take(listed_len(limit, items@.len()) as int),
{
    let len: usize = items.len();
    let default: usize = if len == 0 { 1 } else { len };
    let most: usize = handlers::bounded_limit(limit, default, MAX_LISTED);
    let mut items = items;
    if most < len {
        items.truncate(most);
    }
    items
}

/// The nodes that are shown, and where they come from.
pub fn cluster_nodes(nodes: Vec<ClusterNodeView>, has_registry: bool, limit: Option<usize>) -> (r: (
    &'static str,
    Vec<ClusterNodeView>,
))
    ensures
        r.0@ == cluster_helpers::source_name(has_registry),
        r.1@ == nodes@.take(listed_len(limit, nodes@.len()) as int),
{
    (cluster_helpers::cluster_source(has_registry), listed(nodes, limit))
}

/// A list shows all there is, or as many as are asked for, but no more than five hundred
/// and, where there is something, at least one.
pub proof fn law_lists_show_what_is_asked_for(n: usize, len: nat)
    requires
        len <= usize::MAX,
    ensures
        len <= 500 ==> listed_len(None, len) == len,
        len > 500 ==> listed_len(None, len) == 500,
        1 <= n <= 500 && n <= len ==> listed_len(Some(n), len) == n,
        1 <= n <= 500 && n > len ==> listed_len(Some(n), len) == len,
        n > 500 && len > 500 ==> listed_len(Some(n), len) == 500,
        len > 0 ==> listed_len(Some(0), len) == 1,
{
}

} // verus!
