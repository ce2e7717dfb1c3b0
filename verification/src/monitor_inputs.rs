//! Keeping an application capture's filter inputs in step with the output
//! ports it must monitor: which inputs to drop, which targets need a new
//! input, and which port of the filter's own node a new input became.

use vstd::prelude::*;
use vstd::string::*;

use crate::graph::{Graph, MonitorPort};
use crate::ordered::{key_order, keys_in_order};
use crate::speech::str_eq;

verus! {

/// Whether `targets` still holds the output port `id` with serial `serial`.
pub open spec fn still_targeted(targets: Seq<MonitorPort>, id: u32, serial: Seq<char>) -> bool {
    exists|k: int| 0 <= k < targets.len() && (#[trigger] targets[k]).id == id && targets[k].serial@ == serial
}

/// The ports of the inputs in `inputs` that no target keeps, in order: a
/// port that went away, or came back under another serial, loses its input.
pub open spec fn stale_inputs_spec(inputs: Seq<MonitorPort>, targets: Seq<MonitorPort>) -> Seq<u32>
    decreases inputs.len(),
{
    if inputs.len() == 0 {
        Seq::empty()
    } else {
        let before = stale_inputs_spec(inputs.drop_last(), targets);
        if still_targeted(targets, inputs.last().id, inputs.last().serial@) {
            before
        } else {
            before.push(inputs.last().id)
        }
    }
}

fn targets_port(targets: &Vec<MonitorPort>, id: u32, serial: &str) -> (kept: bool)
    ensures
        kept == still_targeted(targets@, id, serial@),
{
    let mut index: usize = 0;
    while index < targets.len()
        invariant
            index <= targets@.len(),
            forall|k: int|
                0 <= k < index ==> !((#[trigger] targets@[k]).id == id && targets@[k].serial@ == serial@),
        decreases targets@.len() - index,
    {
        if targets[index].id == id && str_eq(targets[index].serial.as_str(), serial) {
            return true;
        }
        index = index + 1;
    }
    false
}

/// The ports whose inputs must be dropped, given the current inputs in the
/// order of their ports and the new targets.
pub fn stale_inputs(inputs: &Vec<MonitorPort>, targets: &Vec<MonitorPort>) -> (stale: Vec<u32>)
    ensures
        stale@ == stale_inputs_spec(inputs@, targets@),
{
    let mut stale: Vec<u32> = Vec::new();
    let mut index: usize = 0;
    while index < inputs.len()
        invariant
            index <= inputs@.len(),
            stale@ == stale_inputs_spec(inputs@.take(index as int), targets@),
        decreases inputs@.len() - index,
    {
        assert(inputs@.take(index + 1).drop_last() =~= inputs@.take(index as int));
        assert(inputs@.take(index + 1).last() == inputs@[index as int]);
        if !targets_port(targets, inputs[index].id, inputs[index].serial.as_str()) {
            stale.push(inputs[index].id);
        }
        index = index + 1;
    }
    assert(inputs@.take(inputs@.len() as int) =~= inputs@);
    stale
}

/// Whether target `i` needs a new input: no kept input follows its port,
/// and no earlier target already asked for one.
pub open spec fn needs_input(kept: Seq<u32>, targets: Seq<MonitorPort>, i: int) -> bool {
    &&& !kept.contains(targets[i].id)
    &&& forall|j: int| 0 <= j < i ==> (#[trigger] targets[j]).id != targets[i].id
}

/// The indices of the targets, among the first `count`, that need a new
/// input, in order.
pub open spec fn added_targets_spec(kept: Seq<u32>, targets: Seq<MonitorPort>, count: int) -> Seq<usize>
    decreases count,
{
    if count <= 0 {
        Seq::empty()
    } else {
        let before = added_targets_spec(kept, targets, count - 1);
        if needs_input(kept, targets, count - 1) {
            before.push((count - 1) as usize)
        } else {
            before
        }
    }
}

/// The targets that need a new input, given the ports whose inputs are kept.
/// A target whose port already has an input only has its level updated.
pub fn added_targets(kept: &Vec<u32>, targets: &Vec<MonitorPort>) -> (added: Vec<usize>)
    ensures
        added@ == added_targets_spec(kept@, targets@, targets@.len() as int),
{
    let mut added: Vec<usize> = Vec::new();
    let mut index: usize = 0;
    while index < targets.len()
        invariant
            index <= targets@.len(),
            added@ == added_targets_spec(kept@, targets@, index as int),
        decreases targets@.len() - index,
    {
        let id = targets[index].id;
        let mut fresh = true;
        let mut k: usize = 0;
        while k < kept.len()
            invariant
                k <= kept@.len(),
                fresh <==> forall|q: int| 0 <= q < k ==> kept@[q] != id,
            decreases kept@.len() - k,
        {
            if kept[k] == id {
                fresh = false;
            }
            k = k + 1;
        }
        let mut j: usize = 0;
        let mut first = true;
        while j < index
            invariant
                j <= index < targets@.len(),
                id == targets@[index as int].id,
                first <==> forall|q: int| 0 <= q < j ==> (#[trigger] targets@[q]).id != id,
            decreases index - j,
        {
            if targets[j].id == id {
                first = false;
            }
            j = j + 1;
        }
        if fresh && first {
            added.push(index);
        }
        proof {
            if !fresh {
                let q = choose|q: int| 0 <= q < kept@.len() && kept@[q] == id;
                assert(kept@.contains(id));
            }
            if fresh {
                assert(!kept@.contains(id));
            }
        }
        index = index + 1;
    }
    added
}

/// The name of the filter input that follows the output port with serial
/// `serial`.
pub fn capture_port_name(serial: &str) -> (name: String)
    ensures
        name@ == "capture_"@ + serial@,
{
    let mut name = String::from_str("capture_");
    name.append(serial);
    name
}

/// The first of the ports `keys` that is an input of node `node` named
/// `name`: only ports of the capture's own node are ever linked, never a
/// port of the same name on another client.
pub open spec fn first_own_input(graph: Graph, keys: Seq<u32>, node: u32, name: Seq<char>) -> Option<u32>
    decreases keys.len(),
{
    if keys.len() == 0 {
        None
    } else {
        let port = graph.ports@[keys[0]];
        if port.node == node && !port.output && port.name@ == name {
            Some(keys[0])
        } else {
            first_own_input(graph, keys.drop_first(), node, name)
        }
    }
}

impl Graph {
    /// The port of node `node` that is the input named `name`, the first by
    /// port number.
    pub fn own_input_port(&self, node: u32, name: &str) -> (port: Option<u32>)
        ensures
            port == first_own_input(*self, key_order(self.ports@), node, name@),
    {
        broadcast use vstd::std_specs::btree::group_btree_axioms;

        let keys = keys_in_order(&self.ports);
        assert(keys@.skip(0) =~= keys@);
        let mut index: usize = 0;
        while index < keys.len()
            invariant
                keys@ == key_order(self.ports@),
                keys@.to_set() == self.ports@.dom(),
                index <= keys@.len(),
                first_own_input(*self, keys@, node, name@) == first_own_input(
                    *self,
                    keys@.skip(index as int),
                    node,
                    name@,
                ),
            decreases keys@.len() - index,
        {
            let key = keys[index];
            assert(keys@.to_set().contains(key));
            let ghost rest = keys@.skip(index as int);
            assert(rest[0] == key);
            assert(rest.drop_first() =~= keys@.skip(index + 1));
            let port = self.ports.get(&key).unwrap();
            if port.node == node && !port.output && str_eq(port.name.as_str(), name) {
                return Some(key);
            }
            index = index + 1;
        }
        None
    }
}

/// The ports of the inputs in `inputs` that some target keeps, in order.
pub open spec fn kept_inputs_spec(inputs: Seq<MonitorPort>, targets: Seq<MonitorPort>) -> Seq<u32>
    decreases inputs.len(),
{
    if inputs.len() == 0 {
        Seq::empty()
    } else {
        let before = kept_inputs_spec(inputs.drop_last(), targets);
        if still_targeted(targets, inputs.last().id, inputs.last().serial@) {
            before.push(inputs.last().id)
        } else {
            before
        }
    }
}

/// The ports whose inputs are kept, given the current inputs in the order
/// of their ports and the new targets.
pub fn kept_inputs(inputs: &Vec<MonitorPort>, targets: &Vec<MonitorPort>) -> (kept: Vec<u32>)
    ensures
        kept@ == kept_inputs_spec(inputs@, targets@),
{
    let mut kept: Vec<u32> = Vec::new();
    let mut index: usize = 0;
    while index < inputs.len()
        invariant
            index <= inputs@.len(),
            kept@ == kept_inputs_spec(inputs@.take(index as int), targets@),
        decreases inputs@.len() - index,
    {
        assert(inputs@.take(index + 1).drop_last() =~= inputs@.take(index as int));
        assert(inputs@.take(index + 1).last() == inputs@[index as int]);
        if targets_port(targets, inputs[index].id, inputs[index].serial.as_str()) {
            kept.push(inputs[index].id);
        }
        index = index + 1;
    }
    assert(inputs@.take(inputs@.len() as int) =~= inputs@);
    kept
}

/// Whether some target is the output port `id`.
pub open spec fn has_target(targets: Seq<MonitorPort>, id: u32) -> bool {
    exists|t: int| 0 <= t < targets.len() && (#[trigger] targets[t]).id == id
}

/// The ports that the new inputs follow.
pub open spec fn added_ports(kept: Seq<u32>, targets: Seq<MonitorPort>) -> Seq<u32> {
    added_targets_spec(kept, targets, targets.len() as int).map_values(|i: usize| targets[i as int].id)
}

proof fn kept_are_targeted(inputs: Seq<MonitorPort>, targets: Seq<MonitorPort>)
    ensures
        forall|k: int|
            0 <= k < kept_inputs_spec(inputs, targets).len() ==> has_target(
                targets,
                #[trigger] kept_inputs_spec(inputs, targets)[k],
            ),
    decreases inputs.len(),
{
    if inputs.len() > 0 {
        kept_are_targeted(inputs.drop_last(), targets);
        let before = kept_inputs_spec(inputs.drop_last(), targets);
        let all = kept_inputs_spec(inputs, targets);
        assert forall|k: int| 0 <= k < all.len() implies has_target(targets, #[trigger] all[k]) by {
            if k < before.len() {
                assert(all[k] == before[k]);
            } else {
                let last = inputs.last();
                let t = choose|t: int|
                    0 <= t < targets.len() && (#[trigger] targets[t]).id == last.id && targets[t].serial@
                        == last.serial@;
                assert(targets[t].id == all[k]);
            }
        }
    }
}

proof fn added_targets_facts(kept: Seq<u32>, targets: Seq<MonitorPort>, count: int)
    requires
        0 <= count <= targets.len(),
        targets.len() <= usize::MAX,
    ensures
        forall|k: int|
            0 <= k < added_targets_spec(kept, targets, count).len() ==> 0 <= (
            #[trigger] added_targets_spec(kept, targets, count)[k]) < count && needs_input(
                kept,
                targets,
                added_targets_spec(kept, targets, count)[k] as int,
            ),
        forall|a: int, b: int|
            0 <= a < b < added_targets_spec(kept, targets, count).len() ==> added_targets_spec(
                kept,
                targets,
                count,
            )[a] < added_targets_spec(kept, targets, count)[b],
        forall|i: int|
            0 <= i < count ==> kept.contains(#[trigger] targets[i].id) || exists|k: int|
                0 <= k < added_targets_spec(kept, targets, count).len() && targets[added_targets_spec(
                    kept,
                    targets,
                    count,
                )[k] as int].id == targets[i].id,
    decreases count,
{
    if count > 0 {
        added_targets_facts(kept, targets, count - 1);
        let before = added_targets_spec(kept, targets, count - 1);
        let all = added_targets_spec(kept, targets, count);
        assert forall|i: int| 0 <= i < count implies kept.contains(#[trigger] targets[i].id)
            || exists|k: int| 0 <= k < all.len() && targets[all[k] as int].id == targets[i].id by {
            if i < count - 1 {
                if !kept.contains(targets[i].id) {
                    let k = choose|k: int|
                        0 <= k < before.len() && targets[before[k] as int].id == targets[i].id;
                    assert(all[k] == before[k]);
                }
            } else if !kept.contains(targets[i].id) {
                if needs_input(kept, targets, i) {
                    assert(all[before.len() as int] == i as usize);
                    assert(targets[all[before.len() as int] as int].id == targets[i].id);
                } else {
                    let j = choose|j: int| 0 <= j < i && (#[trigger] targets[j]).id == targets[i].id;
                    assert(kept.contains(targets[j].id) || exists|k: int|
                        0 <= k < before.len() && targets[before[k] as int].id == targets[j].id);
                    let k = choose|k: int|
                        0 <= k < before.len() && targets[before[k] as int].id == targets[j].id;
                    assert(all[k] == before[k]);
                }
            }
        }
    }
}

/// After an update, the filter's inputs follow exactly the target ports,
/// each once: every kept input and every new one follows a target, every
/// target is followed, and no port gets a second input.
pub proof fn inputs_follow_every_target_once(inputs: Seq<MonitorPort>, targets: Seq<MonitorPort>)
    requires
        targets.len() <= usize::MAX,
    ensures
        ({
            let kept = kept_inputs_spec(inputs, targets);
            let added = added_ports(kept, targets);
            &&& forall|t: int| 0 <= t < targets.len() ==> kept.contains(#[trigger] targets[t].id)
                || added.contains(targets[t].id)
            &&& forall|k: int| 0 <= k < kept.len() ==> has_target(targets, #[trigger] kept[k])
            &&& forall|k: int| 0 <= k < added.len() ==> has_target(targets, #[trigger] added[k])
            &&& forall|k: int| 0 <= k < added.len() ==> !kept.contains(#[trigger] added[k])
            &&& forall|a: int, b: int| 0 <= a < b < added.len() ==> added[a] != added[b]
        }),
{
    let kept = kept_inputs_spec(inputs, targets);
    let indices = added_targets_spec(kept, targets, targets.len() as int);
    let added = added_ports(kept, targets);
    kept_are_targeted(inputs, targets);
    added_targets_facts(kept, targets, targets.len() as int);
    assert forall|t: int| 0 <= t < targets.len() implies kept.contains(#[trigger] targets[t].id)
        || added.contains(targets[t].id) by {
        if !kept.contains(targets[t].id) {
            let k = choose|k: int| 0 <= k < indices.len() && targets[indices[k] as int].id == targets[t].id;
            assert(added[k] == targets[t].id);
        }
    }
    assert forall|k: int| 0 <= k < added.len() implies has_target(targets, #[trigger] added[k]) by {
        let i = indices[k] as int;
        assert(targets[i].id == added[k]);
    }
    assert forall|k: int| 0 <= k < added.len() implies !kept.contains(#[trigger] added[k]) by {
        let i = indices[k] as int;
        assert(needs_input(kept, targets, i));
    }
    assert forall|a: int, b: int| 0 <= a < b < added.len() implies added[a] != added[b] by {
        let i = indices[a] as int;
        let j = indices[b] as int;
        assert(i < j);
        assert(needs_input(kept, targets, j));
        assert(targets[i].id != targets[j].id);
    }
}

} // verus!
