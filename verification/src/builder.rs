use std::collections::HashMap;
use std::time::{Duration, SystemTimeError};

use crate::clock::{clock_timestamp, now_ms};
use crate::ids::{fresh_id, is_random_uuid};
use crate::message::{ForgeMessage, ForgeMsgType, ForgePayload, PayloadView};
use vstd::prelude::*;
use vstd::string::*;

verus! {

/// The character of a decimal digit `d` (`0 <= d < 10`).
pub open spec fn digit_char(d: nat) -> char {
    (48 + d) as char
}

/// The decimal representation of `n`, most significant digit first, without
/// leading zeros.
pub open spec fn decimal(n: nat) -> Seq<char>
    decreases n,
{
    if n < 10 {
        seq![digit_char(n)]
    } else {
        decimal(n / 10).push(digit_char(n % 10))
    }
}

/// `String::push`: appends one character.
#[verifier::external_body]
fn push_char(s: &mut String, c: char)
    ensures
        final(s)@ == old(s)@.push(c),
{
    s.push(c)
}

/// Appends the decimal representation of `n` to `s`.
fn push_decimal(s: &mut String, n: usize)
    ensures
        final(s)@ == old(s)@ + decimal(n as nat),
    decreases n,
{
    if n >= 10 {
        push_decimal(s, n / 10);
    }
    let d: u8 = (n % 10) as u8;
    let c: char = (48u8 + d) as char;
    assert(c == digit_char((n % 10) as nat));
    push_char(s, c);
    assert(s@ =~= old(s)@ + decimal(n as nat));
}

/// The stage text of a pipeline-completed message.
pub open spec fn completed_stage(stages: nat) -> Seq<char> {
    "completed ("@ + decimal(stages) + " stages)"@
}

/// Builds the messages of one pipeline; every message it builds carries the
/// pipeline's identifier, a fresh random identifier and the current time.
pub struct ForgeMessageBuilder {
    pipeline_id: u128,
}

impl View for ForgeMessageBuilder {
    type V = u128;

    closed spec fn view(&self) -> u128 {
        self.pipeline_id
    }
}

impl ForgeMessageBuilder {
    /// A builder for the pipeline `pipeline_id`.
    pub fn new(pipeline_id: u128) -> (r: Self)
        ensures
            r@ == pipeline_id,
    {
        ForgeMessageBuilder { pipeline_id }
    }

    /// The message of this pipeline with identifier `id`, timestamp
    /// `timestamp_ms`, and the given type, payload and sender.
    pub fn make_at(
        &self,
        id: u128,
        timestamp_ms: u64,
        msg_type: ForgeMsgType,
        payload: ForgePayload,
        sender: &str,
    ) -> (r: ForgeMessage)
        ensures
            r.id == id,
            r.timestamp_ms == timestamp_ms,
            r.pipeline_id == self@,
            r.msg_type == msg_type,
            r.payload == payload,
            r.sender@ == sender@,
    {
        ForgeMessage {
            id,
            pipeline_id: self.pipeline_id,
            msg_type,
            payload,
            sender: String::from_str(sender),
            timestamp_ms,
        }
    }

    /// The pipeline `name` has started; the sender is `name`.
    /// The message gets identifier `id` and timestamp `timestamp_ms`.
    pub fn pipeline_started_at(&self, id: u128, timestamp_ms: u64, name: &str) -> (r: ForgeMessage)
        ensures
            r.id == id,
            r.timestamp_ms == timestamp_ms,
            r.pipeline_id == self@,
            r.msg_type == ForgeMsgType::PipelineStarted,
            r.payload@ == (PayloadView::Status { stage: name@, tiles_in: 0, tiles_out: 0, cr_bits: 0 }),
            r.sender@ == name@,
    {
        self.make_at(
            id,
            timestamp_ms,
            ForgeMsgType::PipelineStarted,
            ForgePayload::Status { stage: String::from_str(name), tiles_in: 0, tiles_out: 0, cr_bits: 0 },
            name,
        )
    }

    /// The pipeline `name` has started; the sender is `name`.
    /// The message gets a freshly drawn random identifier and the timestamp of
    /// a reading of the system clock (see [`Self::pipeline_started_at`]).
    pub fn pipeline_started(&self, name: &str) -> (r: ForgeMessage)
        ensures
            r.pipeline_id == self@,
            r.msg_type == ForgeMsgType::PipelineStarted,
            r.payload@ == (PayloadView::Status { stage: name@, tiles_in: 0, tiles_out: 0, cr_bits: 0 }),
            r.sender@ == name@,
            is_random_uuid(r.id),
            exists|since: Result<Duration, SystemTimeError>| r.timestamp_ms == #[trigger] clock_timestamp(
                since,
            ),
    {
        let id = fresh_id();
        let timestamp_ms = now_ms();
        self.pipeline_started_at(id, timestamp_ms, name)
    }

    /// A stage has completed, with its tile counts and compression ratio
    /// (`cr_bits`, the bit pattern of the ratio); the sender is "pipeline".
    /// The message gets identifier `id` and timestamp `timestamp_ms`.
    pub fn stage_completed_at(&self, id: u128, timestamp_ms: u64, stage: &str, tiles_in: usize, tiles_out: usize, cr_bits: u64) -> (r: ForgeMessage)
        ensures
            r.id == id,
            r.timestamp_ms == timestamp_ms,
            r.pipeline_id == self@,
            r.msg_type == ForgeMsgType::StageCompleted,
            r.payload@ == (PayloadView::Status { stage: stage@, tiles_in, tiles_out, cr_bits }),
            r.sender@ == "pipeline"@,
    {
        self.make_at(
            id,
            timestamp_ms,
            ForgeMsgType::StageCompleted,
            ForgePayload::Status { stage: String::from_str(stage), tiles_in, tiles_out, cr_bits },
            "pipeline",
        )
    }

    /// A stage has completed, with its tile counts and compression ratio
    /// (`cr_bits`, the bit pattern of the ratio); the sender is "pipeline".
    /// The message gets a freshly drawn random identifier and the timestamp of
    /// a reading of the system clock (see [`Self::stage_completed_at`]).
    pub fn stage_completed(&self, stage: &str, tiles_in: usize, tiles_out: usize, cr_bits: u64) -> (r: ForgeMessage)
        ensures
            r.pipeline_id == self@,
            r.msg_type == ForgeMsgType::StageCompleted,
            r.payload@ == (PayloadView::Status { stage: stage@, tiles_in, tiles_out, cr_bits }),
            r.sender@ == "pipeline"@,
            is_random_uuid(r.id),
            exists|since: Result<Duration, SystemTimeError>| r.timestamp_ms == #[trigger] clock_timestamp(
                since,
            ),
    {
        let id = fresh_id();
        let timestamp_ms = now_ms();
        self.stage_completed_at(id, timestamp_ms, stage, tiles_in, tiles_out, cr_bits)
    }

    /// The pipeline has completed `stages` stages with the overall compression
    /// ratio `overall_cr_bits` (its bit pattern); the stage text reads
    /// "completed (N stages)" and the sender is "pipeline".
    /// The message gets identifier `id` and timestamp `timestamp_ms`.
    pub fn pipeline_completed_at(&self, id: u128, timestamp_ms: u64, stages: usize, overall_cr_bits: u64) -> (r: ForgeMessage)
        ensures
            r.id == id,
            r.timestamp_ms == timestamp_ms,
            r.pipeline_id == self@,
            r.msg_type == ForgeMsgType::PipelineCompleted,
            r.payload@ == (PayloadView::Status {
                stage: completed_stage(stages as nat),
                tiles_in: 0,
                tiles_out: 0,
                cr_bits: overall_cr_bits,
            }),
            r.sender@ == "pipeline"@,
    {
        let mut stage = String::from_str("completed (");
        push_decimal(&mut stage, stages);
        stage.append(" stages)");
        self.make_at(
            id,
            timestamp_ms,
            ForgeMsgType::PipelineCompleted,
            ForgePayload::Status { stage, tiles_in: 0, tiles_out: 0, cr_bits: overall_cr_bits },
            "pipeline",
        )
    }

    /// The pipeline has completed `stages` stages with the overall compression
    /// ratio `overall_cr_bits` (its bit pattern); the stage text reads
    /// "completed (N stages)" and the sender is "pipeline".
    /// The message gets a freshly drawn random identifier and the timestamp of
    /// a reading of the system clock (see [`Self::pipeline_completed_at`]).
    pub fn pipeline_completed(&self, stages: usize, overall_cr_bits: u64) -> (r: ForgeMessage)
        ensures
            r.pipeline_id == self@,
            r.msg_type == ForgeMsgType::PipelineCompleted,
            r.payload@ == (PayloadView::Status {
                stage: completed_stage(stages as nat),
                tiles_in: 0,
                tiles_out: 0,
                cr_bits: overall_cr_bits,
            }),
            r.sender@ == "pipeline"@,
            is_random_uuid(r.id),
            exists|since: Result<Duration, SystemTimeError>| r.timestamp_ms == #[trigger] clock_timestamp(
                since,
            ),
    {
        let id = fresh_id();
        let timestamp_ms = now_ms();
        self.pipeline_completed_at(id, timestamp_ms, stages, overall_cr_bits)
    }

    /// The pipeline has failed at `stage` with `error`; the sender is
    /// "pipeline".
    /// The message gets identifier `id` and timestamp `timestamp_ms`.
    pub fn pipeline_failed_at(&self, id: u128, timestamp_ms: u64, stage: &str, error: &str) -> (r: ForgeMessage)
        ensures
            r.id == id,
            r.timestamp_ms == timestamp_ms,
            r.pipeline_id == self@,
            r.msg_type == ForgeMsgType::PipelineFailed,
            r.payload@ == (PayloadView::Error { stage: stage@, message: error@ }),
            r.sender@ == "pipeline"@,
    {
        self.make_at(
            id,
            timestamp_ms,
            ForgeMsgType::PipelineFailed,
            ForgePayload::Error { stage: String::from_str(stage), message: String::from_str(error) },
            "pipeline",
        )
    }

    /// The pipeline has failed at `stage` with `error`; the sender is
    /// "pipeline".
    /// The message gets a freshly drawn random identifier and the timestamp of
    /// a reading of the system clock (see [`Self::pipeline_failed_at`]).
    pub fn pipeline_failed(&self, stage: &str, error: &str) -> (r: ForgeMessage)
        ensures
            r.pipeline_id == self@,
            r.msg_type == ForgeMsgType::PipelineFailed,
            r.payload@ == (PayloadView::Error { stage: stage@, message: error@ }),
            r.sender@ == "pipeline"@,
            is_random_uuid(r.id),
            exists|since: Result<Duration, SystemTimeError>| r.timestamp_ms == #[trigger] clock_timestamp(
                since,
            ),
    {
        let id = fresh_id();
        let timestamp_ms = now_ms();
        self.pipeline_failed_at(id, timestamp_ms, stage, error)
    }

    /// Tile `index` of kind `kind` and `size` has been produced; the sender
    /// is "pipeline".
    /// The message gets identifier `id` and timestamp `timestamp_ms`.
    pub fn tile_produced_at(&self, id: u128, timestamp_ms: u64, index: u64, kind: &str, size: usize) -> (r: ForgeMessage)
        ensures
            r.id == id,
            r.timestamp_ms == timestamp_ms,
            r.pipeline_id == self@,
            r.msg_type == ForgeMsgType::TileProduced,
            r.payload@ == (PayloadView::Tile { index, kind: kind@, size }),
            r.sender@ == "pipeline"@,
    {
        self.make_at(
            id,
            timestamp_ms,
            ForgeMsgType::TileProduced,
            ForgePayload::Tile { index, kind: String::from_str(kind), size },
            "pipeline",
        )
    }

    /// Tile `index` of kind `kind` and `size` has been produced; the sender
    /// is "pipeline".
    /// The message gets a freshly drawn random identifier and the timestamp of
    /// a reading of the system clock (see [`Self::tile_produced_at`]).
    pub fn tile_produced(&self, index: u64, kind: &str, size: usize) -> (r: ForgeMessage)
        ensures
            r.pipeline_id == self@,
            r.msg_type == ForgeMsgType::TileProduced,
            r.payload@ == (PayloadView::Tile { index, kind: kind@, size }),
            r.sender@ == "pipeline"@,
            is_random_uuid(r.id),
            exists|since: Result<Duration, SystemTimeError>| r.timestamp_ms == #[trigger] clock_timestamp(
                since,
            ),
    {
        let id = fresh_id();
        let timestamp_ms = now_ms();
        self.tile_produced_at(id, timestamp_ms, index, kind, size)
    }

    /// An agent asks for the transform `name` with `params`; the sender is
    /// "agent".
    /// The message gets identifier `id` and timestamp `timestamp_ms`.
    pub fn transform_request_at(&self, id: u128, timestamp_ms: u64, name: &str, params: HashMap<String, String>) -> (r: ForgeMessage)
        ensures
            r.id == id,
            r.timestamp_ms == timestamp_ms,
            r.pipeline_id == self@,
            r.msg_type == ForgeMsgType::TransformRequest,
            r.payload@ == (PayloadView::Transform { name: name@, params: params@ }),
            r.sender@ == "agent"@,
    {
        self.make_at(
            id,
            timestamp_ms,
            ForgeMsgType::TransformRequest,
            ForgePayload::Transform { name: String::from_str(name), params },
            "agent",
        )
    }

    /// An agent asks for the transform `name` with `params`; the sender is
    /// "agent".
    /// The message gets a freshly drawn random identifier and the timestamp of
    /// a reading of the system clock (see [`Self::transform_request_at`]).
    pub fn transform_request(&self, name: &str, params: HashMap<String, String>) -> (r: ForgeMessage)
        ensures
            r.pipeline_id == self@,
            r.msg_type == ForgeMsgType::TransformRequest,
            r.payload@ == (PayloadView::Transform { name: name@, params: params@ }),
            r.sender@ == "agent"@,
            is_random_uuid(r.id),
            exists|since: Result<Duration, SystemTimeError>| r.timestamp_ms == #[trigger] clock_timestamp(
                since,
            ),
    {
        let id = fresh_id();
        let timestamp_ms = now_ms();
        self.transform_request_at(id, timestamp_ms, name, params)
    }
}

} // verus!
