use std::collections::HashMap;
use vstd::prelude::*;

verus! {

/// The kinds of event that travel on the bus.
#[derive(Debug, Clone, Copy, PartialEq, Eq, Structural, Hash)]
pub enum ForgeMsgType {
    PipelineStarted,
    StageCompleted,
    PipelineCompleted,
    PipelineFailed,
    TileProduced,
    TransformRequest,
    TransformResult,
    Subscribe,
    Unsubscribe,
}

/// What a message carries.
///
/// The compression ratio of a `Status` payload is kept as the bit pattern of
/// its IEEE-754 binary64 value (`cr_bits`): the library never computes with it,
/// it only carries it from the sender to the receivers.
#[derive(Debug)]
pub enum ForgePayload {
    Status { stage: String, tiles_in: usize, tiles_out: usize, cr_bits: u64 },
    Tile { index: u64, kind: String, size: usize },
    Error { stage: String, message: String },
    Transform { name: String, params: HashMap<String, String> },
    Subscription { event_types: Vec<ForgeMsgType> },
}

/// The mathematical value of a [`ForgePayload`]: strings as character
/// sequences, the transform parameters as a map.
pub enum PayloadView {
    Status { stage: Seq<char>, tiles_in: usize, tiles_out: usize, cr_bits: u64 },
    Tile { index: u64, kind: Seq<char>, size: usize },
    Error { stage: Seq<char>, message: Seq<char> },
    Transform { name: Seq<char>, params: Map<String, String> },
    Subscription { event_types: Seq<ForgeMsgType> },
}

impl View for ForgePayload {
    type V = PayloadView;

    open spec fn view(&self) -> PayloadView {
        match self {
            ForgePayload::Status { stage, tiles_in, tiles_out, cr_bits } => PayloadView::Status {
                stage: stage@,
                tiles_in: *tiles_in,
                tiles_out: *tiles_out,
                cr_bits: *cr_bits,
            },
            ForgePayload::Tile { index, kind, size } => PayloadView::Tile {
                index: *index,
                kind: kind@,
                size: *size,
            },
            ForgePayload::Error { stage, message } => PayloadView::Error {
                stage: stage@,
                message: message@,
            },
            ForgePayload::Transform { name, params } => PayloadView::Transform {
                name: name@,
                params: params@,
            },
            ForgePayload::Subscription { event_types } => PayloadView::Subscription {
                event_types: event_types@,
            },
        }
    }
}

/// A copy of a list of event types, element by element.
pub(crate) fn copy_types(types: &Vec<ForgeMsgType>) -> (r: Vec<ForgeMsgType>)
    ensures
        r@ == types@,
{
    let mut r: Vec<ForgeMsgType> = Vec::new();
    let n = types.len();
    for i in 0..n
        invariant
            n == types.len(),
            r@ == types@.take(i as int),
    {
        r.push(types[i]);
        assert(types@.take(i + 1) == types@.take(i as int).push(types@[i as int]));
    }
    assert(types@.take(n as int) == types@);
    r
}

impl Clone for ForgePayload {
    fn clone(&self) -> (r: Self)
        ensures
            r@ == self@,
    {
        match self {
            ForgePayload::Status { stage, tiles_in, tiles_out, cr_bits } => ForgePayload::Status {
                stage: stage.clone(),
                tiles_in: *tiles_in,
                tiles_out: *tiles_out,
                cr_bits: *cr_bits,
            },
            ForgePayload::Tile { index, kind, size } => ForgePayload::Tile {
                index: *index,
                kind: kind.clone(),
                size: *size,
            },
            ForgePayload::Error { stage, message } => ForgePayload::Error {
                stage: stage.clone(),
                message: message.clone(),
            },
            ForgePayload::Transform { name, params } => ForgePayload::Transform {
                name: name.clone(),
                params: params.clone(),
            },
            ForgePayload::Subscription { event_types } => ForgePayload::Subscription {
                event_types: copy_types(event_types),
            },
        }
    }
}

impl ForgePayload {
    /// The fields of a `Status` payload, `None` for any other payload.
    pub fn as_status(&self) -> (r: Option<(&str, usize, usize, u64)>)
        ensures
            match self@ {
                PayloadView::Status { stage, tiles_in, tiles_out, cr_bits } => {
                    &&& r matches Some((s, i, o, c))
                    &&& s@ == stage
                    &&& i == tiles_in
                    &&& o == tiles_out
                    &&& c == cr_bits
                },
                _ => r is None,
            },
    {
        match self {
            ForgePayload::Status { stage, tiles_in, tiles_out, cr_bits } => Some(
                (stage.as_str(), *tiles_in, *tiles_out, *cr_bits),
            ),
            _ => None,
        }
    }
}

/// A single message on the bus.
///
/// Identifiers are the 128-bit values of UUIDs; the timestamp counts
/// milliseconds since the Unix epoch.
#[derive(Debug)]
pub struct ForgeMessage {
    pub id: u128,
    pub pipeline_id: u128,
    pub msg_type: ForgeMsgType,
    pub payload: ForgePayload,
    pub sender: String,
    pub timestamp_ms: u64,
}

/// The mathematical value of a [`ForgeMessage`].
pub struct MessageView {
    pub id: u128,
    pub pipeline_id: u128,
    pub msg_type: ForgeMsgType,
    pub payload: PayloadView,
    pub sender: Seq<char>,
    pub timestamp_ms: u64,
}

impl View for ForgeMessage {
    type V = MessageView;

    open spec fn view(&self) -> MessageView {
        MessageView {
            id: self.id,
            pipeline_id: self.pipeline_id,
            msg_type: self.msg_type,
            payload: self.payload@,
            sender: self.sender@,
            timestamp_ms: self.timestamp_ms,
        }
    }
}

impl Clone for ForgeMessage {
    fn clone(&self) -> (r: Self)
        ensures
            r@ == self@,
    {
        ForgeMessage {
            id: self.id,
            pipeline_id: self.pipeline_id,
            msg_type: self.msg_type,
            payload: self.payload.clone(),
            sender: self.sender.clone(),
            timestamp_ms: self.timestamp_ms,
        }
    }
}

} // verus!
