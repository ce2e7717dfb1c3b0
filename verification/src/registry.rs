//! Reading the PipeWire registry into the graph: which announced objects
//! are playback sinks, application streams, clients, ports or the default
//! metadata, and what their properties say about them. The connection
//! hands each object's properties over as plain text pairs.

use vstd::prelude::*;
use vstd::string::*;

use crate::graph::{ApplicationNode, Graph, Port, Sink};
use crate::speech::str_eq;
use crate::text::{blank, chars_of, is_blank, parse_unsigned, parsed_unsigned};

verus! {

/// The properties of a registry object, in the order they were announced.
#[derive(Clone, Debug)]
pub struct Properties {
    pub entries: Vec<(String, String)>,
}

/// The value of the first property named `key`.
pub open spec fn lookup(entries: Seq<(String, String)>, key: Seq<char>) -> Option<Seq<char>>
    decreases entries.len(),
{
    if entries.len() == 0 {
        None
    } else if entries[0].0@ == key {
        Some(entries[0].1@)
    } else {
        lookup(entries.drop_first(), key)
    }
}

/// The value of the property `key` when it holds more than white space.
pub open spec fn meaningful(entries: Seq<(String, String)>, key: Seq<char>) -> Option<Seq<char>> {
    match lookup(entries, key) {
        Some(value) => if blank(value) {
            None
        } else {
            Some(value)
        },
        None => None,
    }
}

/// The property `key` read as a `u32`, as `str::parse` reads it.
pub open spec fn number_property(entries: Seq<(String, String)>, key: Seq<char>) -> Option<u32> {
    match lookup(entries, key) {
        Some(value) => match parsed_unsigned(value, u32::MAX as nat) {
            Some(number) => Some(number as u32),
            None => None,
        },
        None => None,
    }
}

pub open spec fn text_of(value: Option<String>) -> Option<Seq<char>> {
    match value {
        Some(text) => Some(text@),
        None => None,
    }
}

impl Properties {
    /// The value of the first property named `key`.
    pub fn get(&self, key: &str) -> (value: Option<String>)
        ensures
            text_of(value) == lookup(self.entries@, key@),
    {
        let mut index: usize = 0;
        assert(self.entries@.skip(0) =~= self.entries@);
        while index < self.entries.len()
            invariant
                index <= self.entries@.len(),
                lookup(self.entries@, key@) == lookup(self.entries@.skip(index as int), key@),
            decreases self.entries@.len() - index,
        {
            let ghost rest = self.entries@.skip(index as int);
            assert(rest[0] == self.entries@[index as int]);
            assert(rest.drop_first() =~= self.entries@.skip(index + 1));
            if str_eq(self.entries[index].0.as_str(), key) {
                return Some(self.entries[index].1.clone());
            }
            index = index + 1;
        }
        None
    }

    /// The value of the property `key` when it holds more than white space.
    pub fn property(&self, key: &str) -> (value: Option<String>)
        ensures
            text_of(value) == meaningful(self.entries@, key@),
    {
        match self.get(key) {
            Some(value) => if is_blank(value.as_str()) {
                None
            } else {
                Some(value)
            },
            None => None,
        }
    }

    /// The property `key` read as a `u32`.
    pub fn number(&self, key: &str) -> (value: Option<u32>)
        ensures
            value == number_property(self.entries@, key@),
    {
        let text = self.get(key)?;
        let chars = chars_of(text.as_str());
        assert(chars@.subrange(0, chars@.len() as int) =~= chars@);
        match parse_unsigned(&chars, 0, chars.len(), u32::MAX as u64) {
            Some(number) => Some(number as u32),
            None => None,
        }
    }

    fn has(&self, key: &str, expected: &str) -> (matches: bool)
        ensures
            matches == (lookup(self.entries@, key@) == Some(expected@)),
    {
        match self.get(key) {
            Some(value) => str_eq(value.as_str(), expected),
            None => false,
        }
    }
}

/// The type of an announced registry object.
#[derive(Clone, Copy, Debug, PartialEq, Eq, Structural)]
pub enum GlobalKind {
    Node,
    Client,
    Port,
    Metadata,
    Other,
}

/// What an announced object is to the capture backend.
#[derive(Clone, Debug)]
pub enum RegistryObject {
    /// A playback device.
    Sink(Sink),
    /// An application's playback stream, whose details arrive later.
    OutputStream,
    /// A client with this serial, whose details arrive later.
    Client { serial: String },
    Port(Port),
    /// The metadata that names the default playback device.
    DefaultMetadata,
    Ignored,
}

/// Whether `object` is what an object of `kind` with properties `entries`
/// is to the capture backend.
pub open spec fn classified(kind: GlobalKind, entries: Seq<(String, String)>, object: RegistryObject) -> bool {
    let class = lookup(entries, "media.class"@);
    if kind == GlobalKind::Node && class == Some("Audio/Sink"@) {
        match (lookup(entries, "node.name"@), lookup(entries, "object.serial"@)) {
            (Some(name), Some(serial)) => object matches RegistryObject::Sink(sink) && sink.name@
                == name && sink.serial@ == serial && sink.description@ == match lookup(
                entries,
                "node.description"@,
            ) {
                Some(description) => description,
                None => match lookup(entries, "node.nick"@) {
                    Some(nick) => nick,
                    None => name,
                },
            },
            _ => object is Ignored,
        }
    } else if kind == GlobalKind::Node && class == Some("Stream/Output/Audio"@) {
        object is OutputStream
    } else if kind == GlobalKind::Client {
        match meaningful(entries, "object.serial"@) {
            Some(serial) => object matches RegistryObject::Client { serial: s } && s@ == serial,
            None => object is Ignored,
        }
    } else if kind == GlobalKind::Port {
        match (
            number_property(entries, "node.id"@),
            lookup(entries, "object.serial"@),
            lookup(entries, "port.name"@),
        ) {
            (Some(node), Some(serial), Some(name)) => object matches RegistryObject::Port(port)
                && port.node == node && port.serial@ == serial && port.name@ == name && port.output
                == (lookup(entries, "port.direction"@) == Some("out"@)) && port.audio == (lookup(
                entries,
                "format.dsp"@,
            ) == Some("32 bit float mono audio"@)),
            _ => object is Ignored,
        }
    } else if kind == GlobalKind::Metadata && lookup(entries, "metadata.name"@) == Some("default"@) {
        object is DefaultMetadata
    } else {
        object is Ignored
    }
}

/// What an announced object is to the capture backend.
pub fn classify(kind: GlobalKind, props: &Properties) -> (object: RegistryObject)
    ensures
        classified(kind, props.entries@, object),
{
    let is_node = match kind {
        GlobalKind::Node => true,
        _ => false,
    };
    if is_node && props.has("media.class", "Audio/Sink") {
        let name = match props.get("node.name") {
            Some(name) => name,
            None => return RegistryObject::Ignored,
        };
        let serial = match props.get("object.serial") {
            Some(serial) => serial,
            None => return RegistryObject::Ignored,
        };
        let description = match props.get("node.description") {
            Some(description) => description,
            None => match props.get("node.nick") {
                Some(nick) => nick,
                None => name.clone(),
            },
        };
        return RegistryObject::Sink(Sink { serial, name, description });
    }
    if is_node && props.has("media.class", "Stream/Output/Audio") {
        return RegistryObject::OutputStream;
    }
    match kind {
        GlobalKind::Client => {
            return match props.property("object.serial") {
                Some(serial) => RegistryObject::Client { serial },
                None => RegistryObject::Ignored,
            };
        },
        GlobalKind::Port => {
            let node = match props.number("node.id") {
                Some(node) => node,
                None => return RegistryObject::Ignored,
            };
            let serial = match props.get("object.serial") {
                Some(serial) => serial,
                None => return RegistryObject::Ignored,
            };
            let name = match props.get("port.name") {
                Some(name) => name,
                None => return RegistryObject::Ignored,
            };
            let output = props.has("port.direction", "out");
            let audio = props.has("format.dsp", "32 bit float mono audio");
            return RegistryObject::Port(Port { node, serial, name, output, audio });
        },
        GlobalKind::Metadata => {
            if props.has("metadata.name", "default") {
                return RegistryObject::DefaultMetadata;
            }
        },
        _ => {},
    }
    RegistryObject::Ignored
}

/// The application stream that a node's details describe, once they name
/// the client it belongs to.
pub fn application_node_of(props: &Properties) -> (node: Option<ApplicationNode>)
    ensures
        match number_property(props.entries@, "client.id"@) {
            Some(client) => node matches Some(found) && found.client == client && text_of(
                found.application_id,
            ) == meaningful(props.entries@, "application.id"@) && text_of(found.name) == meaningful(
                props.entries@,
                "application.name"@,
            ),
            None => node is None,
        },
{
    let client = props.number("client.id")?;
    Some(
        ApplicationNode {
            client,
            application_id: props.property("application.id"),
            name: props.property("application.name"),
        },
    )
}

/// What a client's details say about the application behind it: its
/// identifiers, and the process and user to look it up by.
#[derive(Clone, Debug)]
pub struct ClientEvidence {
    pub application_id: Option<String>,
    pub name: Option<String>,
    pub pid: Option<u32>,
    pub uid: Option<u32>,
}

/// The process a client names: the application's own process identifier
/// when given, else the authenticated peer's. A proxy client's peer may be
/// another process than the application.
pub open spec fn client_pid(entries: Seq<(String, String)>) -> Option<u32> {
    let text = match lookup(entries, "application.process.id"@) {
        Some(value) => Some(value),
        None => lookup(entries, "pipewire.sec.pid"@),
    };
    match text {
        Some(value) => match parsed_unsigned(value, u32::MAX as nat) {
            Some(number) => Some(number as u32),
            None => None,
        },
        None => None,
    }
}

/// The evidence in a client's details; `own_uid` is this process's user,
/// taken when the server does not name the client's.
pub fn client_evidence(props: &Properties, own_uid: Option<u32>) -> (evidence: ClientEvidence)
    ensures
        text_of(evidence.application_id) == match meaningful(props.entries@, "pipewire.sec.app-id"@) {
            Some(id) => Some(id),
            None => meaningful(props.entries@, "application.id"@),
        },
        text_of(evidence.name) == meaningful(props.entries@, "application.name"@),
        evidence.pid == client_pid(props.entries@),
        evidence.uid == match number_property(props.entries@, "pipewire.sec.uid"@) {
            Some(uid) => Some(uid),
            None => own_uid,
        },
{
    let uid = match props.number("pipewire.sec.uid") {
        Some(uid) => Some(uid),
        None => own_uid,
    };
    let pid_text = match props.get("application.process.id") {
        Some(value) => Some(value),
        None => props.get("pipewire.sec.pid"),
    };
    let pid = match pid_text {
        Some(text) => {
            let chars = chars_of(text.as_str());
            assert(chars@.subrange(0, chars@.len() as int) =~= chars@);
            match parse_unsigned(&chars, 0, chars.len(), u32::MAX as u64) {
                Some(number) => Some(number as u32),
                None => None,
            }
        },
        None => None,
    };
    let application_id = match props.property("pipewire.sec.app-id") {
        Some(id) => Some(id),
        None => props.property("application.id"),
    };
    ClientEvidence { application_id, name: props.property("application.name"), pid, uid }
}

/// What `serde_json` reads as the `name` field of the JSON object in
/// `text`, when it is a string.
pub uninterp spec fn json_name_field(text: Seq<char>) -> Option<Seq<char>>;

/// `serde_json::from_str` into a `serde_json::Value`, then its `name` field
/// as a string: the result is named by `json_name_field` of the text.
#[verifier::external_body]
fn name_in_json(text: &str) -> (name: Option<String>)
    ensures
        text_of(name) == json_name_field(text@),
{
    serde_json::from_str::<serde_json::Value>(text).ok().and_then(
        |value| value.get("name")?.as_str().map(str::to_owned),
    )
}

/// How a change of the default metadata changes the default playback
/// device: `None` leaves it, `Some(name)` sets it. Only the whole object's
/// default sink, or a clearing of all its keys, counts.
pub open spec fn default_sink_change(subject: u32, key: Option<Seq<char>>, value: Option<Seq<char>>) -> Option<Option<Seq<char>>> {
    if subject == 0 && (key == Some("default.audio.sink"@) || key is None) {
        Some(
            match value {
                Some(text) => json_name_field(text),
                None => None,
            },
        )
    } else {
        None
    }
}

pub open spec fn str_option(text: Option<&str>) -> Option<Seq<char>> {
    match text {
        Some(text) => Some(text@),
        None => None,
    }
}

impl Graph {
    /// Takes in a change of the default metadata.
    pub fn apply_default_metadata(&mut self, subject: u32, key: Option<&str>, value: Option<&str>)
        ensures
            final(self).sinks == old(self).sinks,
            final(self).clients == old(self).clients,
            final(self).applications == old(self).applications,
            final(self).ports == old(self).ports,
            final(self).server_cookie == old(self).server_cookie,
            match default_sink_change(subject, str_option(key), str_option(value)) {
                None => final(self).default_sink == old(self).default_sink,
                Some(name) => text_of(final(self).default_sink) == name,
            },
    {
        let counts = subject == 0 && match key {
            Some(key) => str_eq(key, "default.audio.sink"),
            None => true,
        };
        if counts {
            self.default_sink = match value {
                Some(text) => name_in_json(text),
                None => None,
            };
        }
    }

    /// Forgets the object `id` when the server removes it; the default
    /// playback device is forgotten too when `id` was the default metadata.
    pub fn remove_global(&mut self, id: u32, was_default_metadata: bool)
        ensures
            final(self).sinks@ == old(self).sinks@.remove(id),
            final(self).clients@ == old(self).clients@.remove(id),
            final(self).applications@ == old(self).applications@.remove(id),
            final(self).ports@ == old(self).ports@.remove(id),
            final(self).server_cookie == old(self).server_cookie,
            was_default_metadata ==> final(self).default_sink is None,
            !was_default_metadata ==> final(self).default_sink == old(self).default_sink,
    {
        broadcast use vstd::std_specs::btree::group_btree_axioms;

        self.sinks.remove(&id);
        self.clients.remove(&id);
        self.applications.remove(&id);
        self.ports.remove(&id);
        if was_default_metadata {
            self.default_sink = None;
        }
    }
}

} // verus!
