//! Audio outputs and inputs.

use vstd::prelude::*;

use crate::activity::model::Measure;
use crate::model::{AudioState, AudioStateModel};
use crate::record::Record;
use crate::text::{is_empty, same_text};

verus! {

/// The text that `serde_json` finds under a key of the object that a JSON text holds.
pub uninterp spec fn json_text_field(text: Seq<char>, key: Seq<char>) -> Option<Seq<char>>;

/// Calls `serde_json::from_str` and takes the string under a key of the value
/// with `serde_json::Value::as_str`. There is none in a text that is no JSON,
/// in a value that is no object, and under a key that holds something else.
#[verifier::external_body]
fn json_text(text: &str, key: &str) -> (value: Option<String>)
    ensures
        value.deep_view() == json_text_field(text@, key@),
{
    let value = serde_json::from_str::<serde_json::Value>(text).ok()?;
    value[key].as_str().map(|value| value.to_string())
}

/// An output or an input.
#[derive(Debug, PartialEq, Eq)]
pub struct SinkProbe {
    pub id: u32,
    pub name: String,
    pub description: String,
    pub channels: u64,
    pub volume: Measure,
    pub muted: bool,
}

/// What a [`SinkProbe`] holds.
#[verifier::ext_equal]
pub struct SinkProbeModel {
    pub id: u32,
    pub name: Seq<char>,
    pub description: Seq<char>,
    pub channels: u64,
    pub volume: Measure,
    pub muted: bool,
}

impl DeepView for SinkProbe {
    type V = SinkProbeModel;

    open spec fn deep_view(&self) -> SinkProbeModel {
        SinkProbeModel {
            id: self.id.deep_view(),
            name: self.name.deep_view(),
            description: self.description.deep_view(),
            channels: self.channels.deep_view(),
            volume: self.volume.deep_view(),
            muted: self.muted.deep_view(),
        }
    }
}

impl Record for SinkProbe {
    fn same(&self, other: &Self) -> (same: bool) {
        self.id.same(&other.id)
            && self.name.same(&other.name)
            && self.description.same(&other.description)
            && self.channels.same(&other.channels)
            && self.volume.same(&other.volume)
            && self.muted.same(&other.muted)
    }

    fn copy(&self) -> (copy: Self) {
        SinkProbe {
            id: self.id.copy(),
            name: self.name.copy(),
            description: self.description.copy(),
            channels: self.channels.copy(),
            volume: self.volume.copy(),
            muted: self.muted.copy(),
        }
    }
}

impl Clone for SinkProbe {
    fn clone(&self) -> (copy: Self)
        ensures
            copy.deep_view() == self.deep_view(),
    {
        self.copy()
    }
}

impl SinkProbeModel {
    /// What a default [`SinkProbe`] holds.
    pub open spec fn initial() -> SinkProbeModel {
        SinkProbeModel {
            id: 0,
            name: Seq::empty(),
            description: Seq::empty(),
            channels: 0,
            volume: Measure::initial(),
            muted: false,
        }
    }
}

impl Default for SinkProbe {
    fn default() -> (value: SinkProbe)
        ensures
            value.deep_view() == SinkProbeModel::initial(),
    {
        let value = SinkProbe {
            id: 0,
            name: String::new(),
            description: String::new(),
            channels: 0,
            volume: Measure::default(),
            muted: false,
        };
        assert(value.deep_view() =~= SinkProbeModel::initial());
        value
    }
}

/// What changed of an output or an input.
#[derive(Debug, PartialEq, Eq)]
pub struct PropsValues {
    pub volume: Option<Measure>,
    pub channels: Option<u64>,
    pub muted: Option<bool>,
}

/// What a [`PropsValues`] holds.
#[verifier::ext_equal]
pub struct PropsValuesModel {
    pub volume: Option<Measure>,
    pub channels: Option<u64>,
    pub muted: Option<bool>,
}

impl DeepView for PropsValues {
    type V = PropsValuesModel;

    open spec fn deep_view(&self) -> PropsValuesModel {
        PropsValuesModel {
            volume: self.volume.deep_view(),
            channels: self.channels.deep_view(),
            muted: self.muted.deep_view(),
        }
    }
}

impl Record for PropsValues {
    fn same(&self, other: &Self) -> (same: bool) {
        self.volume.same(&other.volume)
            && self.channels.same(&other.channels)
            && self.muted.same(&other.muted)
    }

    fn copy(&self) -> (copy: Self) {
        PropsValues {
            volume: self.volume.copy(),
            channels: self.channels.copy(),
            muted: self.muted.copy(),
        }
    }
}

impl Clone for PropsValues {
    fn clone(&self) -> (copy: Self)
        ensures
            copy.deep_view() == self.deep_view(),
    {
        self.copy()
    }
}

impl PropsValuesModel {
    /// What a default [`PropsValues`] holds.
    pub open spec fn initial() -> PropsValuesModel {
        PropsValuesModel {
            volume: None,
            channels: None,
            muted: None,
        }
    }
}

impl Default for PropsValues {
    fn default() -> (value: PropsValues)
        ensures
            value.deep_view() == PropsValuesModel::initial(),
    {
        let value = PropsValues {
            volume: None,
            channels: None,
            muted: None,
        };
        assert(value.deep_view() =~= PropsValuesModel::initial());
        value
    }
}

/// The names of the default output and the default input.
#[derive(Debug, PartialEq, Eq)]
pub struct DefaultNodes {
    pub sink_name: String,
    pub source_name: String,
}

/// What a [`DefaultNodes`] holds.
#[verifier::ext_equal]
pub struct DefaultNodesModel {
    pub sink_name: Seq<char>,
    pub source_name: Seq<char>,
}

impl DeepView for DefaultNodes {
    type V = DefaultNodesModel;

    open spec fn deep_view(&self) -> DefaultNodesModel {
        DefaultNodesModel {
            sink_name: self.sink_name.deep_view(),
            source_name: self.source_name.deep_view(),
        }
    }
}

impl Record for DefaultNodes {
    fn same(&self, other: &Self) -> (same: bool) {
        self.sink_name.same(&other.sink_name)
            && self.source_name.same(&other.source_name)
    }

    fn copy(&self) -> (copy: Self) {
        DefaultNodes {
            sink_name: self.sink_name.copy(),
            source_name: self.source_name.copy(),
        }
    }
}

impl Clone for DefaultNodes {
    fn clone(&self) -> (copy: Self)
        ensures
            copy.deep_view() == self.deep_view(),
    {
        self.copy()
    }
}

impl DefaultNodesModel {
    /// What a default [`DefaultNodes`] holds.
    pub open spec fn initial() -> DefaultNodesModel {
        DefaultNodesModel {
            sink_name: Seq::empty(),
            source_name: Seq::empty(),
        }
    }
}

impl Default for DefaultNodes {
    fn default() -> (value: DefaultNodes)
        ensures
            value.deep_view() == DefaultNodesModel::initial(),
    {
        let value = DefaultNodes {
            sink_name: String::new(),
            source_name: String::new(),
        };
        assert(value.deep_view() =~= DefaultNodesModel::initial());
        value
    }
}

/// What a node is.
#[derive(Clone, Copy, Debug, PartialEq, Eq, Structural)]
pub enum NodeKind {
    Sink,
    Source,
}

impl DeepView for NodeKind {
    type V = NodeKind;

    open spec fn deep_view(&self) -> NodeKind {
        *self
    }
}

impl Record for NodeKind {
    fn same(&self, other: &Self) -> (same: bool) {
        *self == *other
    }

    fn copy(&self) -> (copy: Self) {
        *self
    }
}

/// What a node of a media class is.
pub open spec fn kind_of(media_class: Option<Seq<char>>) -> Option<NodeKind> {
    match media_class {
        Some(class) => if class == "Audio/Sink"@ {
            Some(NodeKind::Sink)
        } else if class == "Audio/Source"@ {
            Some(NodeKind::Source)
        } else {
            None
        },
        None => None,
    }
}

/// Finds out what a node of a media class is. All others are of no interest.
pub fn node_kind(media_class: Option<&str>) -> (kind: Option<NodeKind>)
    ensures
        kind == kind_of(
            match media_class {
                Some(class) => Some(class@),
                None => None,
            },
        ),
{
    match media_class {
        Some(class) => if same_text(class, "Audio/Sink") {
            Some(NodeKind::Sink)
        } else if same_text(class, "Audio/Source") {
            Some(NodeKind::Source)
        } else {
            None
        },
        None => None,
    }
}

/// Whether metadata of a name says what the defaults are.
pub fn is_default_metadata(name: Option<&str>) -> (is_default: bool)
    ensures
        is_default == (name matches Some(name) && name@ == "default"@),
{
    match name {
        Some(name) => same_text(name, "default"),
        None => false,
    }
}

/// What an object of the sound server is.
#[derive(Clone, Copy, Debug, PartialEq, Eq, Structural)]
pub enum ObjectKind {
    Node,
    Metadata,
    Other,
}

impl DeepView for ObjectKind {
    type V = ObjectKind;

    open spec fn deep_view(&self) -> ObjectKind {
        *self
    }
}

impl Record for ObjectKind {
    fn same(&self, other: &Self) -> (same: bool) {
        *self == *other
    }

    fn copy(&self) -> (copy: Self) {
        *self
    }
}

/// Whether an object matters to what is shown: an output, an input, or what
/// says which of them are the defaults.
pub fn is_relevant(kind: ObjectKind, media_class: Option<&str>, metadata_name: Option<&str>) -> (relevant:
    bool)
    ensures
        relevant == match kind {
            ObjectKind::Node => kind_of(media_class.deep_view()) is Some,
            ObjectKind::Metadata => metadata_name matches Some(name) && name@ == "default"@,
            ObjectKind::Other => false,
        },
{
    match kind {
        ObjectKind::Node => node_kind(media_class).is_some(),
        ObjectKind::Metadata => is_default_metadata(metadata_name),
        ObjectKind::Other => false,
    }
}

/// The words for a node: its description, else its nickname, else what it is.
pub open spec fn description_of(
    kind: NodeKind,
    description: Option<Seq<char>>,
    nick: Option<Seq<char>>,
) -> Seq<char> {
    match (description, nick) {
        (Some(description), _) => description,
        (None, Some(nick)) => nick,
        (None, None) => match kind {
            NodeKind::Sink => "Audio output"@,
            NodeKind::Source => "Audio input"@,
        },
    }
}

/// A node that has just appeared.
pub fn new_node(
    id: u32,
    kind: NodeKind,
    name: Option<String>,
    description: Option<String>,
    nick: Option<String>,
) -> (node: SinkProbe)
    ensures
        node.deep_view() == (SinkProbeModel {
            id,
            name: match name {
                Some(name) => name@,
                None => Seq::empty(),
            },
            description: description_of(kind, description.deep_view(), nick.deep_view()),
            channels: 2,
            volume: Measure::initial(),
            muted: false,
        }),
{
    let description = match (description, nick) {
        (Some(description), _) => description,
        (None, Some(nick)) => nick,
        (None, None) => match kind {
            NodeKind::Sink => "Audio output".to_string(),
            NodeKind::Source => "Audio input".to_string(),
        },
    };
    SinkProbe {
        id,
        name: match name {
            Some(name) => name,
            None => String::new(),
        },
        description,
        channels: 2,
        volume: Measure::default(),
        muted: false,
    }
}

/// A property of a node that the sound server tells. A volume is as loud as
/// it is shown; that of several channels is their mean.
#[derive(Debug, Clone, Copy, PartialEq, Eq)]
pub enum NodeProperty {
    Muted(bool),
    Volume(Measure),
    ChannelVolumes { channels: u64, mean: Option<Measure> },
}

/// What changed of a node, one property after the other.
pub open spec fn props_of(properties: Seq<NodeProperty>) -> PropsValuesModel
    decreases properties.len(),
{
    if properties.len() == 0 {
        PropsValuesModel::initial()
    } else {
        let before = props_of(properties.drop_last());
        match properties.last() {
            NodeProperty::Muted(muted) => PropsValuesModel { muted: Some(muted), ..before },
            NodeProperty::Volume(volume) => PropsValuesModel { volume: Some(volume), ..before },
            NodeProperty::ChannelVolumes { channels, mean } => PropsValuesModel {
                channels: Some(
                    if channels == 0 {
                        1
                    } else {
                        channels
                    },
                ),
                volume: match mean {
                    Some(mean) if channels > 0 => Some(mean),
                    _ => before.volume,
                },
                ..before
            },
        }
    }
}

/// Gathers what changed of a node. What comes later counts.
pub fn read_props(properties: &Vec<NodeProperty>) -> (values: PropsValues)
    ensures
        values.deep_view() == props_of(properties@),
{
    let mut values = PropsValues::default();
    let mut i: usize = 0;
    assert(properties@.take(0) =~= Seq::<NodeProperty>::empty());
    while i < properties.len()
        invariant
            i <= properties@.len(),
            values.deep_view() == props_of(properties@.take(i as int)),
        decreases properties@.len() - i,
    {
        assert(properties@.take(i + 1).drop_last() =~= properties@.take(i as int));
        match &properties[i] {
            NodeProperty::Muted(muted) => {
                values.muted = Some(*muted);
            },
            NodeProperty::Volume(volume) => {
                values.volume = Some(*volume);
            },
            NodeProperty::ChannelVolumes { channels, mean } => {
                if *channels == 0 {
                    values.channels = Some(1);
                } else {
                    values.channels = Some(*channels);
                    if let Some(mean) = mean {
                        values.volume = Some(*mean);
                    }
                }
            },
        }
        i = i + 1;
    }
    assert(properties@.take(i as int) =~= properties@);
    values
}

/// A node with what changed of it.
pub open spec fn with_props(node: SinkProbeModel, values: PropsValuesModel) -> SinkProbeModel {
    SinkProbeModel {
        volume: match values.volume {
            Some(volume) => volume,
            None => node.volume,
        },
        channels: match values.channels {
            Some(channels) => channels,
            None => node.channels,
        },
        muted: match values.muted {
            Some(muted) => muted,
            None => node.muted,
        },
        ..node
    }
}

/// Takes in what changed of a node.
pub fn apply_props(node: &mut SinkProbe, values: PropsValues)
    ensures
        final(node).deep_view() == with_props(old(node).deep_view(), values.deep_view()),
{
    if let Some(volume) = values.volume {
        node.volume = volume;
    }
    if let Some(channels) = values.channels {
        node.channels = channels;
    }
    if let Some(muted) = values.muted {
        node.muted = muted;
    }
}

/// The place of the first node with a name, or the number of nodes.
pub open spec fn node_position(nodes: Seq<SinkProbeModel>, name: Seq<char>) -> nat
    decreases nodes.len(),
{
    if nodes.len() == 0 || nodes[0].name == name {
        0
    } else {
        1 + node_position(nodes.skip(1), name)
    }
}

/// The node that is the default, else the first.
pub open spec fn preferred(nodes: Seq<SinkProbeModel>, default_name: Seq<char>) -> Option<
    SinkProbeModel,
> {
    if nodes.len() == 0 {
        None
    } else if default_name.len() > 0 && node_position(nodes, default_name) < nodes.len() {
        Some(nodes[node_position(nodes, default_name) as int])
    } else {
        Some(nodes[0])
    }
}

/// Picks the node that is the default, else the first.
pub fn preferred_node(nodes: &Vec<SinkProbe>, default_name: &str) -> (node: Option<SinkProbe>)
    ensures
        node.deep_view() == preferred(nodes.deep_view(), default_name@),
{
    if nodes.len() == 0 {
        return None;
    }
    let ghost all = nodes.deep_view();
    assert(all[0] == nodes@[0].deep_view());
    if is_empty(default_name) {
        return Some(nodes[0].copy());
    }
    let mut i: usize = 0;
    assert(all.skip(0) =~= all);
    while i < nodes.len()
        invariant
            i <= nodes@.len(),
            nodes@.len() > 0,
            default_name@.len() > 0,
            all == nodes.deep_view(),
            node_position(all, default_name@) == i + node_position(
                all.skip(i as int),
                default_name@,
            ),
        decreases nodes@.len() - i,
    {
        assert(all.skip(i as int)[0] == nodes@[i as int].deep_view());
        if same_text(nodes[i].name.as_str(), default_name) {
            return Some(nodes[i].copy());
        }
        assert(all.skip(i as int).skip(1) =~= all.skip(i + 1));
        i = i + 1;
    }
    Some(nodes[0].copy())
}

/// The name of a default node, out of what its metadata holds.
pub fn default_node_name(value: &str) -> (name: Option<String>)
    ensures
        name.deep_view() == json_text_field(value@, "name"@),
{
    json_text(value, "name")
}

/// The default nodes once metadata changed, given the name that it holds.
pub open spec fn with_default(
    nodes: DefaultNodesModel,
    key: Option<Seq<char>>,
    name: Option<Seq<char>>,
) -> DefaultNodesModel {
    let name = match name {
        Some(name) => name,
        None => Seq::empty(),
    };
    match key {
        Some(key) => if key == "default.audio.sink"@ {
            DefaultNodesModel { sink_name: name, ..nodes }
        } else if key == "default.audio.source"@ {
            DefaultNodesModel { source_name: name, ..nodes }
        } else {
            nodes
        },
        None => nodes,
    }
}

impl DefaultNodes {
    /// Takes in the name that metadata holds under a key.
    pub fn set_name(&mut self, key: Option<&str>, name: Option<String>)
        ensures
            final(self).deep_view() == with_default(
                old(self).deep_view(),
                match key {
                    Some(key) => Some(key@),
                    None => None,
                },
                name.deep_view(),
            ),
    {
        let name = match name {
            Some(name) => name,
            None => String::new(),
        };
        if let Some(key) = key {
            if same_text(key, "default.audio.sink") {
                self.sink_name = name;
            } else if same_text(key, "default.audio.source") {
                self.source_name = name;
            }
        }
    }

    /// Takes in what metadata holds under a key.
    pub fn set(&mut self, key: Option<&str>, value: Option<&str>)
        ensures
            final(self).deep_view() == with_default(
                old(self).deep_view(),
                match key {
                    Some(key) => Some(key@),
                    None => None,
                },
                match value {
                    Some(value) => json_text_field(value@, "name"@),
                    None => None,
                },
            ),
    {
        let name = match value {
            Some(value) => default_node_name(value),
            None => None,
        };
        self.set_name(key, name);
    }
}

/// The state to show of the default output and input, given the volume in percent.
pub open spec fn state_of(
    sink: SinkProbeModel,
    source: Option<SinkProbeModel>,
    volume_percent: u8,
) -> AudioStateModel {
    AudioStateModel {
        available: true,
        sink_name: sink.name,
        sink_description: sink.description,
        volume_percent,
        muted: sink.muted,
        input_available: source is Some,
        source_name: match source {
            Some(source) => source.name,
            None => Seq::empty(),
        },
        source_description: match source {
            Some(source) => source.description,
            None => Seq::empty(),
        },
        input_muted: source matches Some(source) && source.muted,
        error: None,
    }
}

/// The state to show of the default output and input.
pub fn audio_state(sink: SinkProbe, source: Option<SinkProbe>, volume_percent: u8) -> (state: AudioState)
    ensures
        state.deep_view() == state_of(sink.deep_view(), source.deep_view(), volume_percent),
{
    let input_available = source.is_some();
    let (source_name, source_description, input_muted) = match source {
        Some(source) => (source.name, source.description, source.muted),
        None => (String::new(), String::new(), false),
    };
    AudioState {
        available: true,
        sink_name: sink.name,
        sink_description: sink.description,
        volume_percent,
        muted: sink.muted,
        input_available,
        source_name,
        source_description,
        input_muted,
        error: None,
    }
}

/// Whether a node is to be silent: as asked for, else as it is not.
pub open spec fn wanted_mute(requested: Option<bool>, muted: bool) -> bool {
    match requested {
        Some(mute) => mute,
        None => !muted,
    }
}

/// Whether a node is to be silent.
pub fn requested_mute(requested: Option<bool>, muted: bool) -> (mute: bool)
    ensures
        mute == wanted_mute(requested, muted),
{
    match requested {
        Some(mute) => mute,
        None => !muted,
    }
}

/// The sentence that says that there is no output.
pub const NO_SINK: &'static str = "no PipeWire audio sink is available";

/// The sentence that says that there is no input.
pub const NO_SOURCE: &'static str = "no PipeWire audio source is available";

/// What is written to a node. A volume goes to each of its channels.
#[derive(Debug, Clone, Copy, PartialEq, Eq)]
pub struct NodeWrite {
    pub id: u32,
    pub channels: u64,
    pub volume: Option<Measure>,
    pub muted: Option<bool>,
}

/// What is written to a node. It has a channel at least.
pub open spec fn write_of(node: SinkProbeModel, volume: Option<Measure>, muted: bool) -> NodeWrite {
    NodeWrite {
        id: node.id,
        channels: if node.channels == 0 {
            1
        } else {
            node.channels
        },
        volume,
        muted: Some(muted),
    }
}

fn write_to(node: &SinkProbe, volume: Option<Measure>, muted: bool) -> (write: NodeWrite)
    ensures
        write == write_of(node.deep_view(), volume, muted),
{
    let channels: u64 = if node.channels == 0 {
        1
    } else {
        node.channels
    };
    NodeWrite { id: node.id, channels, volume, muted: Some(muted) }
}

/// Sets the volume of the output, which can then be heard.
pub fn plan_volume(sink: Option<SinkProbe>, volume: Measure) -> (write: Result<
    NodeWrite,
    &'static str,
>)
    ensures
        match sink {
            Some(sink) => write == Ok::<NodeWrite, &'static str>(
                write_of(sink.deep_view(), Some(volume), false),
            ),
            None => write matches Err(message) && message@ == NO_SINK@,
        },
{
    match sink {
        Some(sink) => Ok(write_to(&sink, Some(volume), false)),
        None => Err(NO_SINK),
    }
}

/// Mutes a node or lets it be heard. Where a request does not say which, the
/// node does what it does not do now.
pub fn plan_mute(kind: NodeKind, node: Option<SinkProbe>, requested: Option<bool>) -> (write:
    Result<NodeWrite, &'static str>)
    ensures
        match node {
            Some(node) => write == Ok::<NodeWrite, &'static str>(
                write_of(
                    node.deep_view(),
                    None,
                    wanted_mute(requested, node.muted),
                ),
            ),
            None => write matches Err(message) && message@ == match kind {
                NodeKind::Sink => NO_SINK@,
                NodeKind::Source => NO_SOURCE@,
            },
        },
{
    match node {
        Some(node) => {
            let muted = requested_mute(requested, node.muted);
            Ok(write_to(&node, None, muted))
        },
        None => match kind {
            NodeKind::Sink => Err(NO_SINK),
            NodeKind::Source => Err(NO_SOURCE),
        },
    }
}

/// Reports that a node went away before it was written to.
pub fn disappeared(kind: NodeKind) -> (message: &'static str)
    ensures
        message@ == match kind {
            NodeKind::Sink => "default PipeWire sink disappeared"@,
            NodeKind::Source => "default PipeWire source disappeared"@,
        },
{
    match kind {
        NodeKind::Sink => "default PipeWire sink disappeared",
        NodeKind::Source => "default PipeWire source disappeared",
    }
}

/// To mute a node twice without saying which way brings back what was.
pub proof fn muting_twice_brings_back(node: SinkProbeModel)
    ensures
        ({
            let once = with_props(
                node,
                PropsValuesModel {
                    muted: write_of(node, None, !node.muted).muted,
                    ..PropsValuesModel::initial()
                },
            );
            with_props(
                once,
                PropsValuesModel {
                    muted: write_of(once, None, !once.muted).muted,
                    ..PropsValuesModel::initial()
                },
            ) == node
        }),
{
}

// Laws

/// Sinks and sources are told by their class, and nothing else is one.
pub proof fn nodes_are_told_by_class(class: Seq<char>)
    ensures
        kind_of(None) is None,
        kind_of(Some(class)) == Some(NodeKind::Sink) <==> class == "Audio/Sink"@,
        kind_of(Some(class)) == Some(NodeKind::Source) <==> class == "Audio/Source"@,
{
    reveal_strlit("Audio/Sink");
    reveal_strlit("Audio/Source");
    assert("Audio/Sink"@.len() == 10 && "Audio/Source"@.len() == 12);
}

/// A node is described by its description, else its nick, else what it is.
pub proof fn nodes_are_described(
    kind: NodeKind,
    description: Option<Seq<char>>,
    nick: Option<Seq<char>>,
)
    ensures
        description matches Some(text) ==> description_of(kind, description, nick) == text,
        description is None && nick is Some ==> description_of(kind, description, nick) == nick->0,
        description is None && nick is None && kind == NodeKind::Sink ==> description_of(
            kind,
            description,
            nick,
        ) == "Audio output"@,
        description is None && nick is None && kind == NodeKind::Source ==> description_of(
            kind,
            description,
            nick,
        ) == "Audio input"@,
{
}

/// Of what a node tells of itself the last word on each thing counts. The volumes
/// of channels tell how many there are, and give the volume where there are any.
pub proof fn last_word_counts(properties: Seq<NodeProperty>, property: NodeProperty)
    ensures
        ({
            let before = props_of(properties);
            let after = props_of(properties.push(property));
            &&& props_of(Seq::empty()) == (PropsValuesModel {
                volume: None,
                channels: None,
                muted: None,
            })
            &&& property matches NodeProperty::Muted(muted) ==> after.muted == Some(muted)
                && after.volume == before.volume && after.channels == before.channels
            &&& property matches NodeProperty::Volume(volume) ==> after.volume == Some(volume)
                && after.muted == before.muted && after.channels == before.channels
            &&& property matches NodeProperty::ChannelVolumes { channels, mean } ==> {
                &&& after.muted == before.muted
                &&& channels > 0 ==> after.channels == Some(channels)
                &&& channels == 0 ==> after.channels == Some(1u64)
                &&& channels > 0 && mean is Some ==> after.volume == mean
                &&& channels == 0 || mean is None ==> after.volume == before.volume
            }
        }),
{
    assert(properties.push(property).drop_last() =~= properties);
}

/// What a node tells changes that of it, and what it does not tell stays.
pub proof fn nodes_keep_what_is_not_told(node: SinkProbeModel, values: PropsValuesModel)
    ensures
        ({
            let after = with_props(node, values);
            &&& after.id == node.id && after.name == node.name && after.description
                == node.description
            &&& values.volume matches Some(volume) ==> after.volume == volume
            &&& values.volume is None ==> after.volume == node.volume
            &&& values.channels matches Some(channels) ==> after.channels == channels
            &&& values.channels is None ==> after.channels == node.channels
            &&& values.muted matches Some(muted) ==> after.muted == muted
            &&& values.muted is None ==> after.muted == node.muted
        }),
{
}

/// The node in use is the first with the name of the default, where there is one;
/// else the first of all. There is one wherever there are nodes.
pub proof fn default_node_is_used(nodes: Seq<SinkProbeModel>, default_name: Seq<char>, at: int)
    requires
        0 <= at < nodes.len(),
    ensures
        preferred(Seq::empty(), default_name) is None,
        preferred(nodes, default_name) is Some,
        default_name.len() > 0 && nodes[at].name == default_name && (forall|i: int|
            0 <= i < at ==> (#[trigger] nodes[i]).name != default_name) ==> preferred(
            nodes,
            default_name,
        ) == Some(nodes[at]),
        default_name.len() == 0 || (forall|i: int|
            0 <= i < nodes.len() ==> (#[trigger] nodes[i]).name != default_name) ==> preferred(
            nodes,
            default_name,
        ) == Some(nodes[0]),
{
    lemma_node(nodes, default_name);
}

proof fn lemma_node(nodes: Seq<SinkProbeModel>, name: Seq<char>)
    ensures
        node_position(nodes, name) <= nodes.len(),
        node_position(nodes, name) < nodes.len() ==> nodes[node_position(nodes, name) as int].name
            == name,
        forall|i: int| 0 <= i < node_position(nodes, name) ==> (#[trigger] nodes[i]).name != name,
    decreases nodes.len(),
{
    if nodes.len() > 0 && nodes[0].name != name {
        let rest = nodes.skip(1);
        lemma_node(rest, name);
        assert forall|i: int| 0 <= i < node_position(nodes, name) implies (#[trigger] nodes[i]).name
            != name by {
            if i > 0 {
                assert(rest[i - 1] == nodes[i]);
            }
        }
    }
}

/// The default sink and the default source are told each under its own key, and
/// neither touches the other; a default that is gone has no name.
pub proof fn defaults_are_told_by_key(
    nodes: DefaultNodesModel,
    key: Seq<char>,
    name: Option<Seq<char>>,
)
    ensures
        ({
            let after = with_default(nodes, Some(key), name);
            let told = match name {
                Some(name) => name,
                None => Seq::empty(),
            };
            &&& key == "default.audio.sink"@ ==> after.sink_name == told && after.source_name
                == nodes.source_name
            &&& key == "default.audio.source"@ ==> after.source_name == told && after.sink_name
                == nodes.sink_name
            &&& key != "default.audio.sink"@ && key != "default.audio.source"@ ==> after == nodes
            &&& with_default(nodes, None, name) == nodes
        }),
{
    reveal_strlit("default.audio.sink");
    reveal_strlit("default.audio.source");
    assert("default.audio.sink"@.len() == 18 && "default.audio.source"@.len() == 20);
}

/// What is shown of sound is that of the sink in use, and of the source where there
/// is one.
pub proof fn sound_shows_sink_and_source(
    sink: SinkProbeModel,
    source: Option<SinkProbeModel>,
    volume_percent: u8,
)
    ensures
        ({
            let state = state_of(sink, source, volume_percent);
            &&& state.available && state.error is None
            &&& state.sink_name == sink.name
            &&& state.sink_description == sink.description
            &&& state.volume_percent == volume_percent
            &&& state.muted == sink.muted
            &&& state.input_available <==> source is Some
            &&& source is None ==> !state.input_muted
            &&& source matches Some(input) ==> state.source_name == input.name
                && state.source_description == input.description && state.input_muted
                == input.muted
        }),
{
}

/// A write goes to the node it is for, to all its channels and to one at least, and
/// says what was asked for.
pub proof fn writes_say_what_was_asked(node: SinkProbeModel, volume: Option<Measure>, muted: bool)
    ensures
        ({
            let write = write_of(node, volume, muted);
            &&& write.id == node.id
            &&& node.channels > 0 ==> write.channels == node.channels
            &&& node.channels == 0 ==> write.channels == 1
            &&& write.volume == volume
            &&& write.muted == Some(muted)
            &&& with_props(
                node,
                PropsValuesModel { volume: write.volume, channels: None, muted: write.muted },
            ).muted == muted
        }),
{
}

/// Sound is muted as it is asked for, and where nothing in particular is asked for
/// it is muted if it was not; asked so twice it is as it was.
pub proof fn muting_is_as_asked(requested: Option<bool>, muted: bool)
    ensures
        requested matches Some(wanted) ==> wanted_mute(requested, muted) == wanted,
        requested is None ==> wanted_mute(requested, muted) != muted,
        wanted_mute(None, wanted_mute(None, muted)) == muted,
{
}

} // verus!
