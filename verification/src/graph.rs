//! The PipeWire graph as the capture backend sees it: playback sinks,
//! clients and their application streams, and the rules that turn it into
//! the sources a user can pick and the ports a capture must monitor.

use std::collections::BTreeMap;
use vstd::prelude::*;
use vstd::string::*;

use crate::contracts::{ApplicationSource, CaptureSelection, PlaybackDevice, SourceSnapshot};
use crate::identity::ProcessIdentity;
use crate::models::first_with;
use crate::ordered::{
    compare_text, insert_stably, key_order, keys_in_order, stable_sorted, text_order,
    without_adjacent_repeats,
};
use crate::speech::{lists_language, str_eq};
use crate::text::{decimal, decimal_string};

verus! {

/// The SHA-256 digest of `bytes`, as `sha2::Sha256::digest` computes it.
pub uninterp spec fn sha256(bytes: Seq<u8>) -> Seq<u8>;

/// `sha2::Sha256::digest`: the digest named `sha256` of the bytes, which is
/// 32 bytes long.
#[verifier::external_body]
fn sha256_digest(bytes: &[u8]) -> (digest: Vec<u8>)
    ensures
        digest@ == sha256(bytes@),
        digest@.len() == 32,
{
    <sha2::Sha256 as sha2::Digest>::digest(bytes).to_vec()
}

/// The lowercase hexadecimal digit for `n`, for `n` below sixteen.
pub open spec fn hex_digit(n: nat) -> char {
    if n < 10 {
        ('0' as u32 + n) as char
    } else {
        ('a' as u32 + (n - 10)) as char
    }
}

/// `bytes` as two lowercase hexadecimal digits each, as `{:02x}` writes them.
pub open spec fn hex_text(bytes: Seq<u8>) -> Seq<char>
    decreases bytes.len(),
{
    if bytes.len() == 0 {
        Seq::empty()
    } else {
        hex_text(bytes.drop_last()) + seq![
            hex_digit((bytes.last() / 16) as nat),
            hex_digit((bytes.last() % 16) as nat),
        ]
    }
}

/// The identifier shown for an object of `kind` with the private `identity`:
/// a digest, so that device names and process paths stay private.
pub open spec fn opaque_id_of(kind: Seq<char>, identity: Seq<char>) -> Seq<char> {
    "pipewire-"@ + kind + ":"@ + hex_text(sha256(vstd::utf8::encode_utf8(identity)))
}

fn hex_char(n: u8) -> (c: char)
    requires
        n < 16,
    ensures
        c == hex_digit(n as nat),
{
    if n < 10 {
        (('0' as u8) + n) as char
    } else {
        (('a' as u8) + (n - 10)) as char
    }
}

fn opaque_id(kind: &str, identity: &str) -> (id: String)
    ensures
        id@ == opaque_id_of(kind@, identity@),
{
    proof {
        reveal_strlit("pipewire-");
        reveal_strlit(":");
    }
    let digest = sha256_digest(identity.as_bytes());
    let mut id = String::from_str("pipewire-");
    id.append(kind);
    id.append(":");
    let ghost prefix = id@;
    let mut index: usize = 0;
    while index < digest.len()
        invariant
            index <= digest@.len(),
            id@ == prefix + hex_text(digest@.take(index as int)),
        decreases digest@.len() - index,
    {
        let byte = digest[index];
        id.push(hex_char(byte / 16));
        id.push(hex_char(byte % 16));
        proof {
            assert(digest@.take(index + 1).drop_last() =~= digest@.take(index as int));
            assert(id@ =~= prefix + hex_text(digest@.take(index + 1)));
        }
        index = index + 1;
    }
    assert(digest@.take(digest@.len() as int) =~= digest@);
    id
}

/// Why a capture source cannot be used.
#[derive(Clone, Debug, PartialEq, Eq)]
pub enum CaptureError {
    SourceUnavailable(String),
    AmbiguousSource(String),
    InvalidFormat(String),
}

/// A capture error, by kind and message.
pub open spec fn capture_error_view(error: CaptureError) -> (u8, Seq<char>) {
    match error {
        CaptureError::SourceUnavailable(message) => (0, message@),
        CaptureError::AmbiguousSource(message) => (1, message@),
        CaptureError::InvalidFormat(message) => (2, message@),
    }
}

pub open spec fn unavailable(message: Seq<char>) -> (u8, Seq<char>) {
    (0, message)
}

pub open spec fn ambiguous(message: Seq<char>) -> (u8, Seq<char>) {
    (1, message)
}

#[derive(Debug, PartialEq, Eq)]
pub struct Sink {
    pub serial: String,
    pub name: String,
    pub description: String,
}

impl Clone for Sink {
    fn clone(&self) -> (copy: Self)
        ensures
            copy == *self,
    {
        Sink {
            serial: self.serial.clone(),
            name: self.name.clone(),
            description: self.description.clone(),
        }
    }
}

/// The identifier a sink is shown and pinned by. Names survive ordinary node
/// recreation; registry identifiers and serials do not.
pub open spec fn sink_id(sink: Sink) -> Seq<char> {
    opaque_id_of("output"@, sink.name@)
}

impl Sink {
    pub fn id(&self) -> (id: String)
        ensures
            id@ == sink_id(*self),
    {
        proof {
            reveal_strlit("output");
        }
        opaque_id("output", self.name.as_str())
    }
}

#[derive(Clone, Debug)]
pub struct Client {
    pub serial: String,
    pub application_id: Option<String>,
    pub name: Option<String>,
    pub process: Option<ProcessIdentity>,
}

#[derive(Clone, Debug)]
pub struct ApplicationNode {
    pub client: u32,
    pub application_id: Option<String>,
    pub name: Option<String>,
}

#[derive(Clone, Debug, PartialEq, Eq)]
pub struct Port {
    pub node: u32,
    pub serial: String,
    pub name: String,
    pub output: bool,
    pub audio: bool,
}

/// An output port to monitor, with the number of channels of its stream;
/// the capture mixes each channel at `1 / channels`.
#[derive(Clone, Debug, PartialEq, Eq)]
pub struct MonitorPort {
    pub id: u32,
    pub node: u32,
    pub serial: String,
    pub channels: usize,
}

pub struct Graph {
    pub server_cookie: Option<u32>,
    pub sinks: BTreeMap<u32, Sink>,
    pub default_sink: Option<String>,
    pub clients: BTreeMap<u32, Client>,
    pub applications: BTreeMap<u32, ApplicationNode>,
    pub ports: BTreeMap<u32, Port>,
}

impl Default for Graph {
    fn default() -> (graph: Self)
        ensures
            graph.server_cookie is None,
            graph.default_sink is None,
            graph.sinks@ == Map::<u32, Sink>::empty(),
            graph.clients@ == Map::<u32, Client>::empty(),
            graph.applications@ == Map::<u32, ApplicationNode>::empty(),
            graph.ports@ == Map::<u32, Port>::empty(),
    {
        Graph {
            server_cookie: None,
            sinks: BTreeMap::new(),
            default_sink: None,
            clients: BTreeMap::new(),
            applications: BTreeMap::new(),
            ports: BTreeMap::new(),
        }
    }
}

/// Whether `selection` picks `sink` of `graph`.
pub open spec fn picks(graph: Graph, selection: CaptureSelection, sink: Sink) -> bool {
    match selection {
        CaptureSelection::SystemDefault => graph.default_sink matches Some(name) && name@
            == sink.name@,
        CaptureSelection::SystemOutput { device_id } => sink_id(sink) == device_id@,
        CaptureSelection::Application { .. } => false,
    }
}

pub open spec fn picked_sinks(graph: Graph, selection: CaptureSelection) -> Set<u32> {
    Set::new(|key: u32| graph.sinks@.contains_key(key) && picks(graph, selection, graph.sinks@[key]))
}

impl Graph {
    fn picks_sink(&self, selection: &CaptureSelection, sink: &Sink) -> (picked: bool)
        ensures
            picked == picks(*self, *selection, *sink),
    {
        match selection {
            CaptureSelection::SystemDefault => match &self.default_sink {
                Some(name) => str_eq(name.as_str(), sink.name.as_str()),
                None => false,
            },
            CaptureSelection::SystemOutput { device_id } => {
                let id = sink.id();
                str_eq(id.as_str(), device_id.as_str())
            },
            CaptureSelection::Application { .. } => false,
        }
    }

    /// The one sink that `selection` picks. A pinned output never falls
    /// back to another one, and two outputs with one identity are refused.
    pub fn select(&self, selection: &CaptureSelection) -> (result: Result<Sink, CaptureError>)
        ensures
            picked_sinks(*self, *selection).is_empty() ==> (result matches Err(error)
                && capture_error_view(error) == unavailable(
                "The selected PipeWire playback device is unavailable. Check the output device and PipeWire/WirePlumber services."@,
            )),
            (exists|a: u32, b: u32|
                a != b && picked_sinks(*self, *selection).contains(a) && picked_sinks(
                    *self,
                    *selection,
                ).contains(b)) ==> (result matches Err(error) && capture_error_view(error)
                == ambiguous("Duplicate PipeWire output identities; choose another output."@)),
            result matches Ok(sink) ==> exists|key: u32|
                picked_sinks(*self, *selection) == set![key] && sink == self.sinks@[key],
    {
        broadcast use vstd::std_specs::btree::group_btree_axioms;

        let keys = keys_in_order(&self.sinks);
        let mut found: Option<usize> = None;
        let mut index: usize = 0;
        while index < keys.len()
            invariant
                keys@.to_set() == self.sinks@.dom(),
                crate::ordered::strictly_increasing(keys@),
                index <= keys@.len(),
                found matches Some(f) ==> f < index && picked_sinks(*self, *selection).contains(
                    keys@[f as int],
                ),
                forall|j: int|
                    0 <= j < index && picked_sinks(*self, *selection).contains(#[trigger] keys@[j])
                        ==> found == Some(j as usize),
            decreases keys@.len() - index,
        {
            let key = keys[index];
            assert(keys@.to_set().contains(key));
            let sink = self.sinks.get(&key).unwrap();
            if self.picks_sink(selection, sink) {
                match found {
                    Some(first) => {
                        proof {
                            assert(keys@[first as int] != key);
                        }
                        return Err(
                            CaptureError::AmbiguousSource(
                                String::from_str(
                                    "Duplicate PipeWire output identities; choose another output.",
                                ),
                            ),
                        );
                    },
                    None => {
                        found = Some(index);
                    },
                }
            }
            index = index + 1;
        }
        proof {
            assert forall|key: u32| picked_sinks(*self, *selection).contains(key) implies found
                == Some(keys@.index_of(key) as usize) by {
                assert(keys@.to_set().contains(key));
                let j = choose|j: int| 0 <= j < keys@.len() && keys@[j] == key;
                assert(picked_sinks(*self, *selection).contains(keys@[j]));
            }
        }
        match found {
            None => Err(
                CaptureError::SourceUnavailable(
                    String::from_str(
                        "The selected PipeWire playback device is unavailable. Check the output device and PipeWire/WirePlumber services.",
                    ),
                ),
            ),
            Some(first) => {
                let key = keys[first];
                assert(keys@.to_set().contains(key));
                proof {
                    assert(picked_sinks(*self, *selection) =~= set![key]);
                }
                Ok(self.sinks.get(&key).unwrap().clone())
            },
        }
    }
}

/// An application source as the graph defines it: its identifier and name,
/// the distinct instances that play through it, and its stream nodes.
pub struct GroupView {
    pub id: Seq<char>,
    pub name: Seq<char>,
    pub instances: Seq<Seq<char>>,
    pub nodes: Seq<u32>,
}

/// The name an application node is shown by: its own, its client's, or a
/// generic one.
pub open spec fn node_name(node: ApplicationNode, client: Client) -> Seq<char> {
    match node.name {
        Some(name) => name@,
        None => match client.name {
            Some(name) => name@,
            None => "Audio application"@,
        },
    }
}

pub open spec fn node_application_id(node: ApplicationNode, client: Client) -> Option<Seq<char>> {
    match node.application_id {
        Some(id) => Some(id@),
        None => match client.application_id {
            Some(id) => Some(id@),
            None => None,
        },
    }
}

/// What identifies the application behind a node: its application id; else
/// its executable together with its name, since common runtimes share an
/// executable; else, for this server run only, its client. A title alone
/// never establishes identity.
pub open spec fn node_identity(graph: Graph, node: ApplicationNode, client: Client) -> Option<Seq<char>> {
    match node_application_id(node, client) {
        Some(id) => Some("application:"@ + id),
        None => match client.process {
            Some(process) => Some(
                "executable:"@ + process.executable@ + "\nname:"@ + node_name(node, client),
            ),
            None => match graph.server_cookie {
                Some(cookie) => Some(
                    "server:"@ + decimal(cookie as nat) + "\nclient:"@ + client.serial@,
                ),
                None => None,
            },
        },
    }
}

/// The running instance a client belongs to.
pub open spec fn instance_of(client: Client) -> Seq<char> {
    match client.process {
        Some(process) => process.instance@,
        None => "client:"@ + client.serial@,
    }
}

/// The source identifier, name and instance of the application node `key`,
/// when its client is known and it has an identity.
pub open spec fn membership(graph: Graph, key: u32) -> Option<(Seq<char>, Seq<char>, Seq<char>)> {
    let node = graph.applications@[key];
    if !graph.clients@.contains_key(node.client) {
        None
    } else {
        let client = graph.clients@[node.client];
        match node_identity(graph, node, client) {
            None => None,
            Some(identity) => Some(
                (opaque_id_of("application"@, identity), node_name(node, client), instance_of(client)),
            ),
        }
    }
}

pub open spec fn group_index(groups: Seq<GroupView>, id: Seq<char>) -> Option<int> {
    first_with(groups, |group: GroupView| group.id, id)
}

/// `groups` after node `key` joins the source `id`: a new source takes the
/// node's name; an existing one keeps its name unless it has none.
pub open spec fn joined(
    groups: Seq<GroupView>,
    key: u32,
    id: Seq<char>,
    name: Seq<char>,
    instance: Seq<char>,
) -> Seq<GroupView> {
    match group_index(groups, id) {
        None => groups.push(GroupView { id, name, instances: seq![instance], nodes: seq![key] }),
        Some(i) => {
            let group = groups[i];
            groups.update(
                i,
                GroupView {
                    id,
                    name: if group.name.len() == 0 {
                        name
                    } else {
                        group.name
                    },
                    instances: if group.instances.contains(instance) {
                        group.instances
                    } else {
                        group.instances.push(instance)
                    },
                    nodes: group.nodes.push(key),
                },
            )
        },
    }
}

/// The application sources formed by the nodes `keys`, taken in order.
pub open spec fn groups_over(graph: Graph, keys: Seq<u32>) -> Seq<GroupView>
    decreases keys.len(),
{
    if keys.len() == 0 {
        Seq::empty()
    } else {
        let before = groups_over(graph, keys.drop_last());
        match membership(graph, keys.last()) {
            None => before,
            Some((id, name, instance)) => joined(before, keys.last(), id, name, instance),
        }
    }
}

/// The application sources of `graph`, its nodes taken in key order.
pub open spec fn application_groups_of(graph: Graph) -> Seq<GroupView> {
    groups_over(graph, key_order(graph.applications@))
}

pub struct ApplicationGroup {
    pub id: String,
    pub name: String,
    pub instances: Vec<String>,
    pub nodes: Vec<u32>,
}

pub open spec fn group_view(group: ApplicationGroup) -> GroupView {
    GroupView {
        id: group.id@,
        name: group.name@,
        instances: group.instances@.map_values(|instance: String| instance@),
        nodes: group.nodes@,
    }
}

pub open spec fn groups_view(groups: Seq<ApplicationGroup>) -> Seq<GroupView> {
    groups.map_values(|group: ApplicationGroup| group_view(group))
}

fn find_group(groups: &Vec<ApplicationGroup>, id: &str) -> (found: Option<usize>)
    ensures
        group_index(groups_view(groups@), id@) == match found {
            Some(i) => Some(i as int),
            None => None,
        },
        found matches Some(i) ==> i < groups@.len() && groups@[i as int].id@ == id@,
{
    let ghost views = groups_view(groups@);
    let mut index: usize = 0;
    while index < groups.len()
        invariant
            views == groups_view(groups@),
            index <= groups@.len(),
            forall|j: int| 0 <= j < index ==> (#[trigger] views[j]).id != id@,
        decreases groups@.len() - index,
    {
        if str_eq(groups[index].id.as_str(), id) {
            proof {
                crate::models::first_with_scan(views, |group: GroupView| group.id, id@, index as int);
            }
            return Some(index);
        }
        index = index + 1;
    }
    proof {
        crate::models::first_with_scan(views, |group: GroupView| group.id, id@, index as int);
    }
    None
}

fn prefixed(prefix: &str, text: &str) -> (result: String)
    ensures
        result@ == prefix@ + text@,
{
    let mut result = String::from_str(prefix);
    result.append(text);
    result
}

fn join_group(
    groups: &mut Vec<ApplicationGroup>,
    key: u32,
    id: String,
    name: String,
    instance: String,
)
    ensures
        groups_view(final(groups)@) == joined(groups_view(old(groups)@), key, id@, name@, instance@),
{
    let ghost before = groups_view(groups@);
    let ghost id_view = id@;
    let ghost name_view = name@;
    let ghost instance_view = instance@;
    match find_group(groups, id.as_str()) {
        None => {
            let mut instances: Vec<String> = Vec::new();
            instances.push(instance);
            let mut nodes: Vec<u32> = Vec::new();
            nodes.push(key);
            let group = ApplicationGroup { id, name, instances, nodes };
            groups.push(group);
            proof {
                assert(group_view(group).instances =~= seq![instance_view]);
                assert(group_view(group).nodes =~= seq![key]);
                assert(groups_view(groups@) =~= before.push(
                    GroupView {
                        id: id_view,
                        name: name_view,
                        instances: seq![instance_view],
                        nodes: seq![key],
                    },
                ));
            }
        },
        Some(index) => {
            let mut group = groups.remove(index);
            let ghost old_group = group_view(group);
            assert(old_group == before[index as int]);
            if group.name.as_str().is_empty() {
                group.name = name;
            }
            let listed = lists_language(&group.instances, &instance);
            proof {
                if old_group.instances.contains(instance_view) {
                    let j = choose|j: int| 0 <= j < old_group.instances.len() && old_group.instances[j] == instance_view;
                    assert(group.instances@[j]@ == instance_view);
                }
                if listed {
                    let j = choose|j: int| 0 <= j < group.instances@.len() && #[trigger] group.instances@[j]@ == instance_view;
                    assert(old_group.instances[j] == instance_view);
                }
                assert(listed == old_group.instances.contains(instance_view));
            }
            if !listed {
                group.instances.push(instance);
            }
            group.nodes.push(key);
            let ghost new_group = group_view(group);
            assert(new_group.instances =~= if old_group.instances.contains(instance_view) {
                old_group.instances
            } else {
                old_group.instances.push(instance_view)
            });
            groups.insert(index, group);
            proof {
                assert(new_group.id == id_view);
                assert(new_group.nodes =~= old_group.nodes.push(key));
                assert(groups_view(groups@) =~= before.update(index as int, new_group));
            }
        },
    }
}

impl Graph {
    fn member_of(&self, key: u32) -> (found: Option<(String, String, String)>)
        requires
            self.applications@.contains_key(key),
        ensures
            match membership(*self, key) {
                None => found is None,
                Some((id, name, instance)) => found matches Some((i, n, s)) && i@ == id && n@
                    == name && s@ == instance,
            },
    {
        broadcast use vstd::std_specs::btree::group_btree_axioms;

        proof {
            reveal_strlit("Audio application");
            reveal_strlit("application");
        }
        let node = self.applications.get(&key).unwrap();
        let client = match self.clients.get(&node.client) {
            Some(client) => client,
            None => return None,
        };
        let name = match &node.name {
            Some(name) => name.clone(),
            None => match &client.name {
                Some(name) => name.clone(),
                None => String::from_str("Audio application"),
            },
        };
        let application_id = match &node.application_id {
            Some(id) => Some(id),
            None => match &client.application_id {
                Some(id) => Some(id),
                None => None,
            },
        };
        let identity = match application_id {
            Some(id) => prefixed("application:", id.as_str()),
            None => match &client.process {
                Some(process) => {
                    let mut identity = prefixed("executable:", process.executable.as_str());
                    identity.append("\nname:");
                    identity.append(name.as_str());
                    identity
                },
                None => match self.server_cookie {
                    Some(cookie) => {
                        let mut identity = prefixed("server:", decimal_string(cookie as u64).as_str());
                        identity.append("\nclient:");
                        identity.append(client.serial.as_str());
                        identity
                    },
                    None => return None,
                },
            },
        };
        let id = opaque_id("application", identity.as_str());
        let instance = match &client.process {
            Some(process) => process.instance.clone(),
            None => prefixed("client:", client.serial.as_str()),
        };
        Some((id, name, instance))
    }

    /// The application sources of the graph, each with its name, its
    /// distinct instances and its stream nodes in key order.
    pub fn application_groups(&self) -> (groups: Vec<ApplicationGroup>)
        ensures
            groups_view(groups@) == application_groups_of(*self),
    {
        let keys = keys_in_order(&self.applications);
        let mut groups: Vec<ApplicationGroup> = Vec::new();
        let mut index: usize = 0;
        while index < keys.len()
            invariant
                keys@ == key_order(self.applications@),
                keys@.to_set() == self.applications@.dom(),
                index <= keys@.len(),
                groups_view(groups@) == groups_over(*self, keys@.take(index as int)),
            decreases keys@.len() - index,
        {
            let key = keys[index];
            assert(keys@.to_set().contains(key));
            assert(keys@.take(index + 1).drop_last() =~= keys@.take(index as int));
            match self.member_of(key) {
                None => {},
                Some((id, name, instance)) => {
                    join_group(&mut groups, key, id, name, instance);
                },
            }
            index = index + 1;
        }
        assert(keys@.take(keys@.len() as int) =~= keys@);
        groups
    }
}

/// The audio output ports of stream node `node` among the ports `keys`, in
/// their order.
pub open spec fn node_outputs(graph: Graph, keys: Seq<u32>, node: u32) -> Seq<u32>
    decreases keys.len(),
{
    if keys.len() == 0 {
        Seq::empty()
    } else {
        let before = node_outputs(graph, keys.drop_last(), node);
        let port = graph.ports@[keys.last()];
        if port.node == node && port.output && port.audio {
            before.push(keys.last())
        } else {
            before
        }
    }
}

/// The audio output ports of stream node `node`, in key order.
pub open spec fn outputs_of(graph: Graph, node: u32) -> Seq<u32> {
    node_outputs(graph, key_order(graph.ports@), node)
}

/// The ports to monitor for the stream nodes `nodes`, as pairs of port and
/// node: every output of every node, node by node.
pub open spec fn monitored(graph: Graph, nodes: Seq<u32>) -> Seq<(u32, u32)>
    decreases nodes.len(),
{
    if nodes.len() == 0 {
        Seq::empty()
    } else {
        monitored(graph, nodes.drop_last()) + outputs_of(graph, nodes.last()).map_values(
            |port: u32| (port, nodes.last()),
        )
    }
}

/// Whether `port` is the monitor target for `target`: the port, its node,
/// its serial and the number of channels of that node.
pub open spec fn monitors(graph: Graph, port: MonitorPort, target: (u32, u32)) -> bool {
    &&& port.id == target.0
    &&& port.node == target.1
    &&& port.serial@ == graph.ports@[target.0].serial@
    &&& port.channels == outputs_of(graph, target.1).len()
}

/// The most output ports one application capture monitors.
pub const MAX_MONITORED_PORTS: usize = 128;

/// What capturing the application source `source_id` monitors: its name and
/// its ports, or why it cannot be captured.
pub open spec fn application_capture(graph: Graph, source_id: Seq<char>, name: Seq<char>, ports: Seq<MonitorPort>) -> bool {
    let groups = application_groups_of(graph);
    match group_index(groups, source_id) {
        None => false,
        Some(i) => {
            let targets = monitored(graph, groups[i].nodes);
            &&& groups[i].instances.len() == 1
            &&& targets.len() <= MAX_MONITORED_PORTS
            &&& name == groups[i].name
            &&& ports.len() == targets.len()
            &&& forall|k: int| 0 <= k < ports.len() ==> monitors(graph, #[trigger] ports[k], targets[k])
        },
    }
}

/// Why capturing the application source `source_id` is refused, if it is.
pub open spec fn application_refusal(graph: Graph, source_id: Seq<char>) -> Option<(u8, Seq<char>)> {
    let groups = application_groups_of(graph);
    match group_index(groups, source_id) {
        None => Some(unavailable("The selected application has no available playback streams."@)),
        Some(i) => if groups[i].instances.len() != 1 {
            Some(
                ambiguous(
                    "More than one running instance matches the selected application. Close the extra instance or choose another source."@,
                ),
            )
        } else if monitored(graph, groups[i].nodes).len() > MAX_MONITORED_PORTS {
            Some(
                unavailable(
                    "This application has too many simultaneous audio channels. Choose Everything I hear for this source."@,
                ),
            )
        } else {
            None
        },
    }
}

impl Graph {
    fn outputs(&self, keys: &Vec<u32>, node: u32) -> (outputs: Vec<u32>)
        requires
            keys@ == key_order(self.ports@),
            keys@.to_set() == self.ports@.dom(),
        ensures
            outputs@ == outputs_of(*self, node),
            forall|k: int| 0 <= k < outputs@.len() ==> self.ports@.contains_key(#[trigger] outputs@[k]),
    {
        broadcast use vstd::std_specs::btree::group_btree_axioms;

        let mut outputs: Vec<u32> = Vec::new();
        let mut index: usize = 0;
        while index < keys.len()
            invariant
                keys@.to_set() == self.ports@.dom(),
                index <= keys@.len(),
                outputs@ == node_outputs(*self, keys@.take(index as int), node),
                forall|k: int| 0 <= k < outputs@.len() ==> self.ports@.contains_key(#[trigger] outputs@[k]),
            decreases keys@.len() - index,
        {
            let key = keys[index];
            assert(keys@.to_set().contains(key));
            assert(keys@.take(index + 1).drop_last() =~= keys@.take(index as int));
            let port = self.ports.get(&key).unwrap();
            if port.node == node && port.output && port.audio {
                outputs.push(key);
            }
            index = index + 1;
        }
        assert(keys@.take(keys@.len() as int) =~= keys@);
        outputs
    }

    /// The name of the application source `source_id` and the output ports
    /// to monitor for it. A source with more than one running instance is
    /// refused, and so is one with more channels than a capture mixes.
    pub fn application(&self, source_id: &str) -> (result: Result<(String, Vec<MonitorPort>), CaptureError>)
        ensures
            match application_refusal(*self, source_id@) {
                Some(refusal) => result matches Err(error) && capture_error_view(error) == refusal,
                None => result matches Ok((name, ports)) && application_capture(
                    *self,
                    source_id@,
                    name@,
                    ports@,
                ),
            },
    {
        broadcast use vstd::std_specs::btree::group_btree_axioms;

        let groups = self.application_groups();
        let ghost views = groups_view(groups@);
        let index = match find_group(&groups, source_id) {
            Some(index) => index,
            None => {
                return Err(
                    CaptureError::SourceUnavailable(
                        String::from_str(
                            "The selected application has no available playback streams.",
                        ),
                    ),
                );
            },
        };
        let group = &groups[index];
        assert(views[index as int] == group_view(*group));
        assert(group_view(*group).instances.len() == group.instances@.len());
        if group.instances.len() != 1 {
            return Err(
                CaptureError::AmbiguousSource(
                    String::from_str(
                        "More than one running instance matches the selected application. Close the extra instance or choose another source.",
                    ),
                ),
            );
        }
        let port_keys = keys_in_order(&self.ports);
        let mut targets: Vec<MonitorPort> = Vec::new();
        let mut node_index: usize = 0;
        while node_index < group.nodes.len()
            invariant
                port_keys@ == key_order(self.ports@),
                port_keys@.to_set() == self.ports@.dom(),
                node_index <= group.nodes@.len(),
                targets@.len() == monitored(*self, group.nodes@.take(node_index as int)).len(),
                forall|k: int|
                    0 <= k < targets@.len() ==> monitors(
                        *self,
                        #[trigger] targets@[k],
                        monitored(*self, group.nodes@.take(node_index as int))[k],
                    ),
            decreases group.nodes@.len() - node_index,
        {
            let node = group.nodes[node_index];
            let outputs = self.outputs(&port_keys, node);
            let channels = outputs.len();
            let ghost before = monitored(*self, group.nodes@.take(node_index as int));
            let ghost added = outputs@.map_values(|port: u32| (port, node));
            assert(group.nodes@.take(node_index + 1).drop_last() =~= group.nodes@.take(
                node_index as int,
            ));
            assert(group.nodes@.take(node_index + 1).last() == node);
            let mut k: usize = 0;
            while k < outputs.len()
                invariant
                    outputs@ == outputs_of(*self, node),
                    forall|j: int| 0 <= j < outputs@.len() ==> self.ports@.contains_key(#[trigger] outputs@[j]),
                    channels == outputs@.len(),
                    k <= outputs@.len(),
                    added == outputs@.map_values(|port: u32| (port, node)),
                    targets@.len() == before.len() + k,
                    forall|j: int|
                        0 <= j < targets@.len() ==> monitors(
                            *self,
                            #[trigger] targets@[j],
                            (before + added)[j],
                        ),
                decreases outputs@.len() - k,
            {
                let port_key = outputs[k];
                assert(self.ports@.contains_key(port_key));
                let port = self.ports.get(&port_key).unwrap();
                targets.push(
                    MonitorPort { id: port_key, node, serial: port.serial.clone(), channels },
                );
                k = k + 1;
            }
            node_index = node_index + 1;
            assert(monitored(*self, group.nodes@.take(node_index as int)) =~= before + added);
        }
        assert(group.nodes@.take(group.nodes@.len() as int) =~= group.nodes@);
        if targets.len() > MAX_MONITORED_PORTS {
            return Err(
                CaptureError::SourceUnavailable(
                    String::from_str(
                        "This application has too many simultaneous audio channels. Choose Everything I hear for this source.",
                    ),
                ),
            );
        }
        Ok((group.name.clone(), targets))
    }
}

/// A playback device, by identifier, name and whether it is the default.
pub struct DeviceView {
    pub id: Seq<char>,
    pub name: Seq<char>,
    pub is_default: bool,
}

pub open spec fn device_view(device: PlaybackDevice) -> DeviceView {
    DeviceView { id: device.id@, name: device.name@, is_default: device.is_default }
}

/// The order of the device list: the default device first, then by name.
pub open spec fn device_order() -> spec_fn(DeviceView, DeviceView) -> bool {
    |a: DeviceView, b: DeviceView|
        (a.is_default && !b.is_default) || (a.is_default == b.is_default && text_order(a.name, b.name)
            <= 0)
}

/// Two devices are one when their identifiers are.
pub open spec fn same_device() -> spec_fn(DeviceView, DeviceView) -> bool {
    |a: DeviceView, b: DeviceView| a.id == b.id
}

/// The device that sink `key` of `graph` is offered as.
pub open spec fn sink_device(graph: Graph, key: u32) -> DeviceView {
    let sink = graph.sinks@[key];
    DeviceView {
        id: sink_id(sink),
        name: sink.description@,
        is_default: graph.default_sink matches Some(name) && name@ == sink.name@,
    }
}

/// The playback devices offered for capture: one per identifier, the
/// default first and the rest by name.
pub open spec fn playback_devices_of(graph: Graph) -> Seq<DeviceView> {
    let devices = key_order(graph.sinks@).map_values(|key: u32| sink_device(graph, key));
    without_adjacent_repeats(stable_sorted(devices, device_order()), same_device())
}

/// An application source, by identifier, name and instance count.
pub struct SourceView {
    pub id: Seq<char>,
    pub name: Seq<char>,
    pub instance_count: u32,
}

pub open spec fn source_view(source: ApplicationSource) -> SourceView {
    SourceView { id: source.id@, name: source.name@, instance_count: source.instance_count }
}

/// The order of the application list: by name, then by identifier.
pub open spec fn source_order() -> spec_fn(SourceView, SourceView) -> bool {
    |a: SourceView, b: SourceView|
        text_order(a.name, b.name) < 0 || (text_order(a.name, b.name) == 0 && text_order(a.id, b.id)
            <= 0)
}

pub open spec fn group_source(group: GroupView) -> SourceView {
    SourceView { id: group.id, name: group.name, instance_count: group.instances.len() as u32 }
}

/// The application sources offered for capture, by name.
pub open spec fn application_sources_of(graph: Graph) -> Seq<SourceView> {
    stable_sorted(
        application_groups_of(graph).map_values(|group: GroupView| group_source(group)),
        source_order(),
    )
}

fn device_before(a: &PlaybackDevice, b: &PlaybackDevice) -> (before: bool)
    ensures
        before == (device_order())(device_view(*a), device_view(*b)),
{
    if a.is_default != b.is_default {
        return a.is_default;
    }
    compare_text(a.name.as_str(), b.name.as_str()) <= 0
}

fn source_before(a: &ApplicationSource, b: &ApplicationSource) -> (before: bool)
    ensures
        before == (source_order())(source_view(*a), source_view(*b)),
{
    let names = compare_text(a.name.as_str(), b.name.as_str());
    if names != 0 {
        return names < 0;
    }
    compare_text(a.id.as_str(), b.id.as_str()) <= 0
}

fn insert_device(sorted: &mut Vec<PlaybackDevice>, item: PlaybackDevice)
    ensures
        final(sorted)@.map_values(|d: PlaybackDevice| device_view(d)) == insert_stably(
            old(sorted)@.map_values(|d: PlaybackDevice| device_view(d)),
            device_view(item),
            device_order(),
        ),
{
    let ghost views = sorted@.map_values(|d: PlaybackDevice| device_view(d));
    let ghost target = insert_stably(views, device_view(item), device_order());
    let mut position = sorted.len();
    proof {
        assert(views.take(position as int) =~= views);
        assert(target + views.skip(position as int) =~= target);
    }
    while position > 0 && !device_before(&sorted[position - 1], &item)
        invariant
            position <= sorted@.len(),
            views == sorted@.map_values(|d: PlaybackDevice| device_view(d)),
            target == insert_stably(views.take(position as int), device_view(item), device_order())
                + views.skip(position as int),
        decreases position,
    {
        proof {
            let shorter = views.take(position as int);
            assert(shorter.drop_last() =~= views.take(position - 1));
            assert(shorter.last() == views[position - 1]);
            assert(views.skip(position - 1) =~= seq![views[position - 1]] + views.skip(
                position as int,
            ));
            assert(insert_stably(shorter, device_view(item), device_order()) + views.skip(
                position as int,
            ) =~= insert_stably(views.take(position - 1), device_view(item), device_order())
                + views.skip(position - 1));
        }
        position = position - 1;
    }
    proof {
        if position > 0 {
            assert(views.take(position as int).last() == views[position - 1]);
        } else {
            assert(views.take(0) =~= Seq::<DeviceView>::empty());
        }
    }
    sorted.insert(position, item);
    proof {
        assert(sorted@.map_values(|d: PlaybackDevice| device_view(d)) =~= target);
    }
}

fn insert_source(sorted: &mut Vec<ApplicationSource>, item: ApplicationSource)
    ensures
        final(sorted)@.map_values(|s: ApplicationSource| source_view(s)) == insert_stably(
            old(sorted)@.map_values(|s: ApplicationSource| source_view(s)),
            source_view(item),
            source_order(),
        ),
        exists|position: int|
            0 <= position <= old(sorted)@.len() && final(sorted)@ == old(sorted)@.insert(
                position,
                item,
            ),
{
    let ghost views = sorted@.map_values(|s: ApplicationSource| source_view(s));
    let ghost target = insert_stably(views, source_view(item), source_order());
    let mut position = sorted.len();
    proof {
        assert(views.take(position as int) =~= views);
        assert(target + views.skip(position as int) =~= target);
    }
    while position > 0 && !source_before(&sorted[position - 1], &item)
        invariant
            position <= sorted@.len(),
            views == sorted@.map_values(|s: ApplicationSource| source_view(s)),
            target == insert_stably(views.take(position as int), source_view(item), source_order())
                + views.skip(position as int),
        decreases position,
    {
        proof {
            let shorter = views.take(position as int);
            assert(shorter.drop_last() =~= views.take(position - 1));
            assert(shorter.last() == views[position - 1]);
            assert(views.skip(position - 1) =~= seq![views[position - 1]] + views.skip(
                position as int,
            ));
            assert(insert_stably(shorter, source_view(item), source_order()) + views.skip(
                position as int,
            ) =~= insert_stably(views.take(position - 1), source_view(item), source_order())
                + views.skip(position - 1));
        }
        position = position - 1;
    }
    proof {
        if position > 0 {
            assert(views.take(position as int).last() == views[position - 1]);
        } else {
            assert(views.take(0) =~= Seq::<SourceView>::empty());
        }
    }
    sorted.insert(position, item);
    proof {
        assert(sorted@.map_values(|s: ApplicationSource| source_view(s)) =~= target);
    }
}

impl Graph {
    fn sink_device_of(&self, key: u32) -> (device: PlaybackDevice)
        requires
            self.sinks@.contains_key(key),
        ensures
            device_view(device) == sink_device(*self, key),
    {
        broadcast use vstd::std_specs::btree::group_btree_axioms;

        let sink = self.sinks.get(&key).unwrap();
        let is_default = match &self.default_sink {
            Some(name) => str_eq(name.as_str(), sink.name.as_str()),
            None => false,
        };
        PlaybackDevice { id: sink.id(), name: sink.description.clone(), is_default }
    }

    fn playback_devices(&self) -> (devices: Vec<PlaybackDevice>)
        ensures
            devices@.map_values(|d: PlaybackDevice| device_view(d)) == playback_devices_of(*self),
    {
        let keys = keys_in_order(&self.sinks);
        let ghost all = keys@.map_values(|key: u32| sink_device(*self, key));
        let mut sorted: Vec<PlaybackDevice> = Vec::new();
        let mut index: usize = 0;
        while index < keys.len()
            invariant
                keys@ == key_order(self.sinks@),
                keys@.to_set() == self.sinks@.dom(),
                all == keys@.map_values(|key: u32| sink_device(*self, key)),
                index <= keys@.len(),
                sorted@.map_values(|d: PlaybackDevice| device_view(d)) == stable_sorted(
                    all.take(index as int),
                    device_order(),
                ),
            decreases keys@.len() - index,
        {
            let key = keys[index];
            assert(keys@.to_set().contains(key));
            let device = self.sink_device_of(key);
            insert_device(&mut sorted, device);
            proof {
                assert(all.take(index + 1).drop_last() =~= all.take(index as int));
                assert(all.take(index + 1).last() == sink_device(*self, key));
            }
            index = index + 1;
        }
        assert(all.take(keys@.len() as int) =~= all);
        let ghost sorted_views = sorted@.map_values(|d: PlaybackDevice| device_view(d));
        let mut devices: Vec<PlaybackDevice> = Vec::new();
        let mut index: usize = 0;
        while index < sorted.len()
            invariant
                sorted_views == sorted@.map_values(|d: PlaybackDevice| device_view(d)),
                index <= sorted@.len(),
                devices@.map_values(|d: PlaybackDevice| device_view(d)) == without_adjacent_repeats(
                    sorted_views.take(index as int),
                    same_device(),
                ),
            decreases sorted@.len() - index,
        {
            let device = &sorted[index];
            let ghost kept = devices@.map_values(|d: PlaybackDevice| device_view(d));
            proof {
                assert(sorted_views.take(index + 1).drop_last() =~= sorted_views.take(index as int));
                assert(sorted_views.take(index + 1).last() == device_view(*device));
            }
            let repeats = devices.len() > 0 && str_eq(
                device.id.as_str(),
                devices[devices.len() - 1].id.as_str(),
            );
            if !repeats {
                devices.push(
                    PlaybackDevice {
                        id: device.id.clone(),
                        name: device.name.clone(),
                        is_default: device.is_default,
                    },
                );
                proof {
                    assert(devices@.map_values(|d: PlaybackDevice| device_view(d)) =~= kept.push(
                        device_view(*device),
                    ));
                }
            }
            index = index + 1;
        }
        assert(sorted_views.take(sorted@.len() as int) =~= sorted_views);
        devices
    }

    fn application_sources(&self) -> (sources: Vec<ApplicationSource>)
        ensures
            sources@.map_values(|s: ApplicationSource| source_view(s)) == application_sources_of(
                *self,
            ),
            forall|i: int| 0 <= i < sources@.len() ==> (#[trigger] sources@[i]).device_ids@.len() == 0,
    {
        let groups = self.application_groups();
        let ghost all = groups_view(groups@).map_values(|group: GroupView| group_source(group));
        let mut sorted: Vec<ApplicationSource> = Vec::new();
        let mut index: usize = 0;
        while index < groups.len()
            invariant
                all == groups_view(groups@).map_values(|group: GroupView| group_source(group)),
                index <= groups@.len(),
                sorted@.map_values(|s: ApplicationSource| source_view(s)) == stable_sorted(
                    all.take(index as int),
                    source_order(),
                ),
                forall|i: int| 0 <= i < sorted@.len() ==> (#[trigger] sorted@[i]).device_ids@.len() == 0,
            decreases groups@.len() - index,
        {
            let group = &groups[index];
            let source = ApplicationSource {
                id: group.id.clone(),
                name: group.name.clone(),
                instance_count: group.instances.len() as u32,
                device_ids: Vec::new(),
            };
            proof {
                assert(source_view(source) == group_source(group_view(*group)));
                assert(all.take(index + 1).drop_last() =~= all.take(index as int));
                assert(all.take(index + 1).last() == source_view(source));
            }
            insert_source(&mut sorted, source);
            index = index + 1;
        }
        assert(all.take(groups@.len() as int) =~= all);
        sorted
    }

    /// The playback devices and application sources that can be picked.
    pub fn snapshot(&self) -> (snapshot: SourceSnapshot)
        ensures
            snapshot.playback_devices@.map_values(|d: PlaybackDevice| device_view(d))
                == playback_devices_of(*self),
            snapshot.applications@.map_values(|s: ApplicationSource| source_view(s))
                == application_sources_of(*self),
            forall|i: int|
                0 <= i < snapshot.applications@.len() ==> (
                #[trigger] snapshot.applications@[i]).device_ids@.len() == 0,
    {
        SourceSnapshot {
            playback_devices: self.playback_devices(),
            applications: self.application_sources(),
        }
    }
}

/// The PipeWire capture backend for output devices and applications. It
/// holds no state: each call reads the graph anew.
#[derive(Clone, Copy, Debug, Default)]
pub struct PipeWireAudioCaptureBackend;

impl PipeWireAudioCaptureBackend {
    pub fn new() -> (backend: Self) {
        PipeWireAudioCaptureBackend
    }
}

/// Whether a PipeWire chunk of `size` bytes from a buffer of `length`
/// bytes, with `stride` bytes per frame of `frame_size` bytes, is refused.
pub open spec fn chunk_refused(length: nat, size: usize, stride: i32, frame_size: usize) -> bool {
    ||| length == 0
    ||| size > length
    ||| (frame_size == 0 || size % frame_size != 0)
    ||| (stride != 0 && stride != frame_size as i32)
}

/// Reads the valid bytes of a PipeWire chunk, which may wrap around the end
/// of the mapped buffer `data`. Bounds come from the buffer, never from
/// unchecked arithmetic.
pub fn read_chunk(data: &[u8], offset: usize, size: usize, stride: i32, frame_size: usize) -> (result: Result<Vec<u8>, CaptureError>)
    ensures
        size == 0 ==> (result matches Ok(bytes) && bytes@.len() == 0),
        size > 0 && chunk_refused(data@.len(), size, stride, frame_size) ==> (result matches Err(
            error,
        ) && capture_error_view(error) == (2u8, "PipeWire returned an invalid PCM chunk."@)),
        size > 0 && !chunk_refused(data@.len(), size, stride, frame_size) ==> (result matches Ok(
            bytes,
        ) && bytes@.len() == size && forall|i: int|
            0 <= i < size ==> #[trigger] bytes@[i] == data@[((offset as int % data@.len() as int) + i)
                % data@.len() as int]),
{
    if size == 0 {
        return Ok(Vec::new());
    }
    if data.len() == 0 || size > data.len() || frame_size == 0 || size % frame_size != 0 || (stride
        != 0 && stride != frame_size as i32) {
        return Err(
            CaptureError::InvalidFormat(String::from_str("PipeWire returned an invalid PCM chunk.")),
        );
    }
    let length = data.len();
    let start = offset % length;
    let first = if size < length - start {
        size
    } else {
        length - start
    };
    let mut bytes: Vec<u8> = Vec::new();
    let mut index: usize = 0;
    while index < size
        invariant
            length == data@.len(),
            0 < size <= length,
            start < length,
            first == if size < length - start { size } else { (length - start) as usize },
            index <= size,
            bytes@.len() == index,
            forall|i: int| 0 <= i < index ==> #[trigger] bytes@[i] == data@[(start + i) % length as int],
        decreases size - index,
    {
        let position = if index < first {
            start + index
        } else {
            index - first
        };
        assert(position == (start + index) % (length as int)) by {
            let sum = start + index;
            if index < first {
                vstd::arithmetic::div_mod::lemma_small_mod(sum as nat, length as nat);
            } else {
                vstd::arithmetic::div_mod::lemma_small_mod((sum - length) as nat, length as nat);
                vstd::arithmetic::div_mod::lemma_mod_sub_multiples_vanish(sum, length as int);
            }
        }
        bytes.push(data[position]);
        index = index + 1;
    }
    Ok(bytes)
}

/// What the metadata of a dequeued application-monitor buffer shows, read
/// field by field; a field behind a missing one is not looked at.
#[derive(Clone, Copy, Debug, PartialEq, Eq)]
pub struct ChunkMetadata {
    pub buffer_present: bool,
    pub planes: u32,
    pub plane_present: bool,
    pub chunk_present: bool,
    pub corrupted: bool,
    pub empty: bool,
    pub size: u32,
    pub mapped: bool,
}

/// The largest application-monitor chunk read, in bytes: a period of 65536
/// stereo 16-bit frames.
pub const MAX_APPLICATION_CHUNK_BYTES: u32 = 262144;

/// How the samples of an application-monitor buffer are obtained.
#[derive(Clone, Debug, PartialEq, Eq)]
pub enum ChunkAccess {
    /// The buffer carries no audio this period.
    Silent,
    /// The valid bytes are read from the mapped plane.
    Read,
    /// The buffer cannot be read, for the reason given.
    Refused(String),
}

/// The access that `meta` allows, or the reason that refuses it.
pub open spec fn chunk_access_spec(meta: ChunkMetadata) -> Result<bool, Seq<char>> {
    if !meta.buffer_present {
        Err("Missing application audio buffer."@)
    } else if meta.planes != 1 {
        Err("Invalid application audio buffer planes."@)
    } else if !meta.plane_present {
        Err("Missing application audio plane."@)
    } else if !meta.chunk_present {
        Err("Missing application audio chunk."@)
    } else if meta.corrupted {
        Err("PipeWire reported a corrupted application audio chunk."@)
    } else if meta.size == 0 || meta.empty {
        Ok(false)
    } else if !meta.mapped || meta.size > MAX_APPLICATION_CHUNK_BYTES {
        Err("Application audio is unavailable in a mapped PCM buffer."@)
    } else {
        Ok(true)
    }
}

/// Decides from a buffer's metadata whether its audio is read, is silent,
/// or is refused.
pub fn application_chunk_access(meta: &ChunkMetadata) -> (access: ChunkAccess)
    ensures
        match chunk_access_spec(*meta) {
            Ok(true) => access == ChunkAccess::Read,
            Ok(false) => access == ChunkAccess::Silent,
            Err(reason) => access matches ChunkAccess::Refused(message) && message@ == reason,
        },
{
    if !meta.buffer_present {
        return ChunkAccess::Refused(String::from_str("Missing application audio buffer."));
    }
    if meta.planes != 1 {
        return ChunkAccess::Refused(String::from_str("Invalid application audio buffer planes."));
    }
    if !meta.plane_present {
        return ChunkAccess::Refused(String::from_str("Missing application audio plane."));
    }
    if !meta.chunk_present {
        return ChunkAccess::Refused(String::from_str("Missing application audio chunk."));
    }
    if meta.corrupted {
        return ChunkAccess::Refused(
            String::from_str("PipeWire reported a corrupted application audio chunk."),
        );
    }
    if meta.size == 0 || meta.empty {
        return ChunkAccess::Silent;
    }
    if !meta.mapped || meta.size > MAX_APPLICATION_CHUNK_BYTES {
        return ChunkAccess::Refused(
            String::from_str("Application audio is unavailable in a mapped PCM buffer."),
        );
    }
    ChunkAccess::Read
}

} // verus!
