//! What holds of every source listing the PipeWire graph gives.

use vstd::prelude::*;

use crate::graph::{
    application_sources_of, device_order, node_identity, playback_devices_of, same_device,
    source_order, DeviceView, Graph, SourceView,
};
use crate::ordered::{
    sorted_by, stable_sorted, stable_sorted_is_sorted, text_order, text_order_is_total,
    total_preorder, without_adjacent_repeats,
};

verus! {

/// The device order compares every two devices and is transitive.
pub proof fn device_order_is_total()
    ensures
        total_preorder(device_order()),
{
    let le = device_order();
    assert forall|a: DeviceView, b: DeviceView| #[trigger] le(a, b) || #[trigger] le(b, a) by {
        text_order_is_total(a.name, b.name, b.name);
    }
    assert forall|a: DeviceView, b: DeviceView, c: DeviceView|
        #[trigger] le(a, b) && #[trigger] le(b, c) implies le(a, c) by {
        text_order_is_total(a.name, b.name, c.name);
    }
}

/// The application order compares every two sources and is transitive.
pub proof fn source_order_is_total()
    ensures
        total_preorder(source_order()),
{
    let le = source_order();
    assert forall|a: SourceView, b: SourceView| #[trigger] le(a, b) || #[trigger] le(b, a) by {
        text_order_is_total(a.name, b.name, b.name);
        text_order_is_total(a.id, b.id, b.id);
    }
    assert forall|a: SourceView, b: SourceView, c: SourceView|
        #[trigger] le(a, b) && #[trigger] le(b, c) implies le(a, c) by {
        text_order_is_total(a.name, b.name, c.name);
        text_order_is_total(c.name, b.name, a.name);
        text_order_is_total(a.id, b.id, c.id);
    }
}

proof fn repeats_removed_keep_order<T>(items: Seq<T>, le: spec_fn(T, T) -> bool, same: spec_fn(T, T) -> bool)
    requires
        total_preorder(le),
        sorted_by(items, le),
    ensures
        sorted_by(without_adjacent_repeats(items, same), le),
        forall|i: int|
            0 <= i < without_adjacent_repeats(items, same).len() ==> exists|j: int|
                0 <= j < items.len() && items[j] == #[trigger] without_adjacent_repeats(items, same)[i],
        forall|i: int|
            0 <= i < without_adjacent_repeats(items, same).len() - 1 ==> !same(
                #[trigger] without_adjacent_repeats(items, same)[i + 1],
                without_adjacent_repeats(items, same)[i],
            ),
    decreases items.len(),
{
    if items.len() > 0 {
        let shorter = items.drop_last();
        assert(sorted_by(shorter, le));
        repeats_removed_keep_order(shorter, le, same);
        let kept = without_adjacent_repeats(shorter, same);
        let result = without_adjacent_repeats(items, same);
        if kept.len() > 0 && same(items.last(), kept.last()) {
        } else {
            assert forall|i: int, j: int| 0 <= i < j < result.len() implies le(
                #[trigger] result[i],
                #[trigger] result[j],
            ) by {
                if j == kept.len() {
                    let p = choose|p: int| 0 <= p < shorter.len() && shorter[p] == kept[i];
                    assert(le(items[p], items[items.len() - 1]));
                }
            }
            assert forall|i: int| 0 <= i < result.len() implies exists|j: int|
                0 <= j < items.len() && items[j] == #[trigger] result[i] by {
                if i == kept.len() {
                    assert(items[items.len() - 1] == result[i]);
                } else {
                    let p = choose|p: int| 0 <= p < shorter.len() && shorter[p] == kept[i];
                    assert(items[p] == result[i]);
                }
            }
        }
    }
}

/// The playback devices are listed default first and then by name, and no
/// two neighbours share an identifier.
pub proof fn playback_devices_are_listed_in_order(graph: Graph)
    ensures
        sorted_by(playback_devices_of(graph), device_order()),
        forall|i: int|
            0 <= i < playback_devices_of(graph).len() - 1 ==> (#[trigger] playback_devices_of(
                graph,
            )[i + 1]).id != playback_devices_of(graph)[i].id,
{
    device_order_is_total();
    let devices = crate::ordered::key_order(graph.sinks@).map_values(
        |key: u32| crate::graph::sink_device(graph, key),
    );
    stable_sorted_is_sorted(devices, device_order());
    repeats_removed_keep_order(stable_sorted(devices, device_order()), device_order(), same_device());
}

/// The application sources are listed by name, then by identifier.
pub proof fn application_sources_are_listed_in_order(graph: Graph)
    ensures
        sorted_by(application_sources_of(graph), source_order()),
{
    source_order_is_total();
    let sources = crate::graph::application_groups_of(graph).map_values(
        |group: crate::graph::GroupView| crate::graph::group_source(group),
    );
    stable_sorted_is_sorted(sources, source_order());
}

/// Two applications known only by their clients are never merged because
/// their names match: clients with different serials have different
/// identities.
pub proof fn unknown_clients_never_merge(
    graph: Graph,
    first: crate::graph::ApplicationNode,
    first_client: crate::graph::Client,
    second: crate::graph::ApplicationNode,
    second_client: crate::graph::Client,
)
    requires
        crate::graph::node_application_id(first, first_client) is None,
        crate::graph::node_application_id(second, second_client) is None,
        first_client.process is None,
        second_client.process is None,
        graph.server_cookie is Some,
        first_client.serial@ != second_client.serial@,
    ensures
        node_identity(graph, first, first_client) != node_identity(graph, second, second_client),
{
    let cookie = graph.server_cookie->0;
    let prefix = "server:"@ + crate::text::decimal(cookie as nat) + "\nclient:"@;
    let a = prefix + first_client.serial@;
    let b = prefix + second_client.serial@;
    assert(node_identity(graph, first, first_client) == Some(a));
    assert(node_identity(graph, second, second_client) == Some(b));
    if a == b {
        assert(a.skip(prefix.len() as int) =~= first_client.serial@);
        assert(b.skip(prefix.len() as int) =~= second_client.serial@);
    }
}

} // verus!
