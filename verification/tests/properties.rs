use std::collections::HashMap;
use std::time::{Duration, SystemTime, UNIX_EPOCH};

use forge_a2a::{
    millis_to_timestamp, ForgeBus, ForgeMessageBuilder, ForgeMsgType, ForgePayload,
    UUID_LAYOUT_MASK, UUID_RANDOM_LAYOUT,
};

#[test]
fn pipeline_completed_stage_text() {
    let b = ForgeMessageBuilder::new(1);
    for (stages, text) in [
        (0usize, "completed (0 stages)"),
        (5, "completed (5 stages)"),
        (10, "completed (10 stages)"),
        (1234, "completed (1234 stages)"),
    ] {
        let msg = b.pipeline_completed(stages, 0.88f64.to_bits());
        let (stage, tin, tout, cr_bits) = msg.payload.as_status().unwrap();
        assert_eq!(stage, text);
        assert_eq!(tin, 0);
        assert_eq!(tout, 0);
        assert_eq!(f64::from_bits(cr_bits), 0.88);
        assert_eq!(msg.sender, "pipeline");
    }
}

#[test]
fn pipeline_completed_largest_count() {
    let msg = ForgeMessageBuilder::new(1).pipeline_completed(usize::MAX, 0);
    let (stage, _, _, _) = msg.payload.as_status().unwrap();
    assert_eq!(stage, format!("completed ({} stages)", usize::MAX));
}

#[test]
fn pipeline_started_payload() {
    let msg = ForgeMessageBuilder::new(9).pipeline_started("ingest");
    assert_eq!(msg.payload.as_status().unwrap(), ("ingest", 0, 0, 0.0f64.to_bits()));
    assert_eq!(msg.pipeline_id, 9);
}

#[test]
fn senders_of_builders() {
    let b = ForgeMessageBuilder::new(3);
    assert_eq!(b.stage_completed("s", 1, 1, 0).sender, "pipeline");
    assert_eq!(b.pipeline_failed("s", "e").sender, "pipeline");
    assert_eq!(b.tile_produced(0, "k", 1).sender, "pipeline");
    assert_eq!(b.transform_request("t", HashMap::new()).sender, "agent");
}

#[test]
fn as_status_of_other_payloads() {
    let b = ForgeMessageBuilder::new(3);
    assert!(b.pipeline_failed("s", "e").payload.as_status().is_none());
    assert!(b.tile_produced(0, "k", 1).payload.as_status().is_none());
    assert!(b.transform_request("t", HashMap::new()).payload.as_status().is_none());
}

#[test]
fn ids_have_random_uuid_layout() {
    let mut bus = ForgeBus::new();
    for _ in 0..20 {
        let id = bus.subscribe("a", vec![]);
        assert_eq!(id & UUID_LAYOUT_MASK, UUID_RANDOM_LAYOUT);
        assert_ne!(id, 0);
    }
    let msg = ForgeMessageBuilder::new(4).tile_produced(1, "k", 2);
    assert_eq!(msg.id & UUID_LAYOUT_MASK, UUID_RANDOM_LAYOUT);
}

#[test]
fn timestamp_truncates_and_defaults() {
    assert_eq!(millis_to_timestamp(None), 0);
    assert_eq!(millis_to_timestamp(Some(1_725_029_869_000)), 1_725_029_869_000);
    assert_eq!(millis_to_timestamp(Some((1u128 << 64) + 5)), 5);
    assert_eq!(millis_to_timestamp(Some(u64::MAX as u128)), u64::MAX);
}

#[test]
fn unsubscribe_undoes_subscribe() {
    let mut bus = ForgeBus::new();
    let a = bus.subscribe("a", vec![ForgeMsgType::TileProduced]);
    let b = bus.subscribe("b", vec![]);
    assert_eq!(bus.subscriber_count(), 2);
    assert!(bus.unsubscribe(b));
    assert_eq!(bus.subscriber_count(), 1);
    // the remaining subscriber still receives what it asked for
    let delivered = bus.publish(ForgeMessageBuilder::new(1).tile_produced(0, "k", 1));
    assert_eq!(delivered.len(), 1);
    assert!(bus.unsubscribe(a));
    assert!(!bus.unsubscribe(a));
    assert_eq!(bus.subscriber_count(), 0);
}

#[test]
fn unsubscribe_unknown_id_changes_nothing() {
    let mut bus = ForgeBus::new();
    let a = bus.subscribe("a", vec![]);
    assert!(!bus.unsubscribe(a ^ 1));
    assert_eq!(bus.subscriber_count(), 1);
}

#[test]
fn publish_copies_are_equal_to_the_message() {
    let mut bus = ForgeBus::new();
    bus.subscribe("a", vec![]);
    bus.subscribe("b", vec![ForgeMsgType::PipelineFailed]);
    bus.subscribe("c", vec![ForgeMsgType::TileProduced, ForgeMsgType::PipelineFailed]);
    let msg = ForgeMessageBuilder::new(8).pipeline_failed("crunch", "divide by zero");
    let (id, ts) = (msg.id, msg.timestamp_ms);
    let delivered = bus.publish(msg);
    assert_eq!(delivered.len(), 3);
    for m in &delivered {
        assert_eq!(m.id, id);
        assert_eq!(m.pipeline_id, 8);
        assert_eq!(m.timestamp_ms, ts);
        assert_eq!(m.msg_type, ForgeMsgType::PipelineFailed);
        assert_eq!(m.sender, "pipeline");
        match &m.payload {
            ForgePayload::Error { stage, message } => {
                assert_eq!(stage, "crunch");
                assert_eq!(message, "divide by zero");
            }
            _ => panic!("expected Error payload"),
        }
    }
    assert_eq!(bus.message_count(), 1);
    assert_eq!(bus.subscriber_count(), 3);
}

#[test]
fn publish_without_subscribers_still_records() {
    let mut bus = ForgeBus::default();
    let delivered = bus.publish(ForgeMessageBuilder::new(1).pipeline_started("x"));
    assert!(delivered.is_empty());
    assert_eq!(bus.message_count(), 1);
}

#[test]
fn transform_payload_survives_publish() {
    let mut bus = ForgeBus::new();
    bus.subscribe("agent", vec![ForgeMsgType::TransformRequest]);
    let mut params = HashMap::new();
    params.insert("scale".to_string(), "2.0".to_string());
    params.insert("mode".to_string(), "bicubic".to_string());
    let delivered = bus.publish(ForgeMessageBuilder::new(2).transform_request("upscale", params.clone()));
    assert_eq!(delivered.len(), 1);
    match &delivered[0].payload {
        ForgePayload::Transform { name, params: p } => {
            assert_eq!(name, "upscale");
            assert_eq!(p, &params);
        }
        _ => panic!("expected Transform payload"),
    }
}

#[test]
fn history_keeps_most_recent_in_order() {
    let mut bus = ForgeBus::new();
    let b = ForgeMessageBuilder::new(5);
    for i in 0..6u64 {
        bus.publish(b.tile_produced(i, "k", 1));
    }
    let h = bus.history(None, 3);
    let idx: Vec<u64> = h
        .iter()
        .map(|m| match &m.payload {
            ForgePayload::Tile { index, .. } => *index,
            _ => panic!("expected Tile payload"),
        })
        .collect();
    assert_eq!(idx, vec![3, 4, 5]);
    assert_eq!(bus.history(None, 100).len(), 6);
    assert!(bus.history(None, 0).is_empty());
}

#[test]
fn history_newest_is_last_published() {
    let mut bus = ForgeBus::new();
    let (p1, p2) = (11u128, 22u128);
    bus.publish(ForgeMessageBuilder::new(p1).pipeline_started("a"));
    let before: Vec<u128> = bus.history(Some(p1), 10).iter().map(|m| m.id).collect();
    let msg = ForgeMessageBuilder::new(p2).pipeline_started("b");
    let id = msg.id;
    bus.publish(msg);
    assert_eq!(bus.history(Some(p2), 1)[0].id, id);
    assert_eq!(bus.history(None, 1)[0].id, id);
    let after: Vec<u128> = bus.history(Some(p1), 10).iter().map(|m| m.id).collect();
    assert_eq!(before, after);
    assert!(bus.history(Some(33), 10).is_empty());
}

#[test]
fn history_of_interleaved_pipelines() {
    let mut bus = ForgeBus::new();
    let a = ForgeMessageBuilder::new(1);
    let b = ForgeMessageBuilder::new(2);
    for i in 0..5u64 {
        bus.publish(a.tile_produced(i, "a", 1));
        bus.publish(b.tile_produced(10 + i, "b", 1));
    }
    let h = bus.history(Some(2), 2);
    assert_eq!(h.len(), 2);
    assert!(h.iter().all(|m| m.pipeline_id == 2));
    match (&h[0].payload, &h[1].payload) {
        (ForgePayload::Tile { index: x, .. }, ForgePayload::Tile { index: y, .. }) => {
            assert_eq!((*x, *y), (13, 14));
        }
        _ => panic!("expected Tile payloads"),
    }
}

#[test]
fn message_clone_keeps_fields() {
    let msg = ForgeMessageBuilder::new(6).stage_completed("enc", 3, 2, 7);
    let c = msg.clone();
    assert_eq!(c.id, msg.id);
    assert_eq!(c.pipeline_id, msg.pipeline_id);
    assert_eq!(c.timestamp_ms, msg.timestamp_ms);
    assert_eq!(c.sender, msg.sender);
    assert_eq!(c.payload.as_status(), msg.payload.as_status());
}

#[test]
fn make_at_uses_given_id_and_time() {
    let b = ForgeMessageBuilder::new(77);
    let msg = b.make_at(
        12345,
        1_725_029_869_000,
        ForgeMsgType::TileProduced,
        ForgePayload::Tile { index: 3, kind: "dem".to_string(), size: 64 },
        "pipeline",
    );
    assert_eq!(msg.id, 12345);
    assert_eq!(msg.timestamp_ms, 1_725_029_869_000);
    assert_eq!(msg.pipeline_id, 77);
    assert_eq!(msg.msg_type, ForgeMsgType::TileProduced);
    assert_eq!(msg.sender, "pipeline");
    match &msg.payload {
        ForgePayload::Tile { index, kind, size } => {
            assert_eq!((*index, kind.as_str(), *size), (3, "dem", 64));
        }
        _ => panic!("expected Tile payload"),
    }
}

#[test]
fn subscribe_with_id_uses_given_id() {
    let mut bus = ForgeBus::new();
    assert_eq!(bus.subscribe_with_id("a", vec![], 5), 5);
    assert_eq!(bus.subscribe_with_id("b", vec![ForgeMsgType::PipelineFailed], 6), 6);
    assert_eq!(bus.subscriber_count(), 2);
    assert!(bus.unsubscribe(5));
    assert_eq!(bus.subscriber_count(), 1);
    let delivered = bus.publish(ForgeMessageBuilder::new(1).pipeline_failed("s", "e"));
    assert_eq!(delivered.len(), 1);
    assert!(bus.unsubscribe(6));
    assert_eq!(bus.subscriber_count(), 0);
}

#[test]
fn unsubscribe_removes_every_holder_of_the_id() {
    let mut bus = ForgeBus::new();
    bus.subscribe_with_id("a", vec![], 9);
    bus.subscribe_with_id("b", vec![], 9);
    bus.subscribe_with_id("c", vec![], 10);
    assert!(bus.unsubscribe(9));
    assert_eq!(bus.subscriber_count(), 1);
}

#[test]
fn timestamp_of_clock_readings() {
    assert_eq!(forge_a2a::timestamp_of(Ok(Duration::from_millis(1500))), 1500);
    assert_eq!(forge_a2a::timestamp_of(Ok(Duration::from_micros(2999))), 2);
    let before_epoch = UNIX_EPOCH.duration_since(SystemTime::now() + Duration::from_secs(1));
    assert!(before_epoch.is_err());
    assert_eq!(forge_a2a::timestamp_of(before_epoch), 0);
}

#[test]
fn bus_clone_is_independent_copy() {
    let mut bus = ForgeBus::new();
    let id = bus.subscribe("a", vec![]);
    bus.publish(ForgeMessageBuilder::new(1).pipeline_started("x"));
    let mut copy = bus.clone();
    assert_eq!(copy.subscriber_count(), 1);
    assert_eq!(copy.message_count(), 1);
    assert_eq!(copy.history(None, 1)[0].id, bus.history(None, 1)[0].id);
    assert!(copy.unsubscribe(id));
    copy.publish(ForgeMessageBuilder::new(1).pipeline_started("y"));
    assert_eq!(bus.subscriber_count(), 1);
    assert_eq!(bus.message_count(), 1);
    assert_eq!(copy.message_count(), 2);
}

#[test]
fn builders_at_use_given_id_and_time() {
    let b = ForgeMessageBuilder::new(31);
    let m = b.pipeline_started_at(1, 10, "ingest");
    assert_eq!((m.id, m.timestamp_ms, m.pipeline_id), (1, 10, 31));
    assert_eq!(m.msg_type, ForgeMsgType::PipelineStarted);
    assert_eq!(m.sender, "ingest");
    assert_eq!(m.payload.as_status().unwrap(), ("ingest", 0, 0, 0));

    let m = b.stage_completed_at(2, 20, "encode", 100, 95, 0.95f64.to_bits());
    assert_eq!((m.id, m.timestamp_ms), (2, 20));
    assert_eq!(m.msg_type, ForgeMsgType::StageCompleted);
    assert_eq!(m.payload.as_status().unwrap(), ("encode", 100, 95, 0.95f64.to_bits()));

    let m = b.pipeline_completed_at(3, 30, 7, 0.5f64.to_bits());
    assert_eq!((m.id, m.timestamp_ms), (3, 30));
    assert_eq!(m.payload.as_status().unwrap(), ("completed (7 stages)", 0, 0, 0.5f64.to_bits()));

    let m = b.pipeline_failed_at(4, 40, "render", "OOM");
    assert_eq!((m.id, m.timestamp_ms, m.msg_type), (4, 40, ForgeMsgType::PipelineFailed));
    match &m.payload {
        ForgePayload::Error { stage, message } => assert_eq!((stage.as_str(), message.as_str()), ("render", "OOM")),
        _ => panic!("expected Error payload"),
    }

    let m = b.tile_produced_at(5, 50, 42, "heightmap", 2048);
    assert_eq!((m.id, m.timestamp_ms, m.msg_type), (5, 50, ForgeMsgType::TileProduced));

    let mut params = HashMap::new();
    params.insert("scale".to_string(), "2.0".to_string());
    let m = b.transform_request_at(6, 60, "upscale", params.clone());
    assert_eq!((m.id, m.timestamp_ms, m.msg_type), (6, 60, ForgeMsgType::TransformRequest));
    assert_eq!(m.sender, "agent");
    match &m.payload {
        ForgePayload::Transform { name, params: p } => {
            assert_eq!(name, "upscale");
            assert_eq!(p, &params);
        }
        _ => panic!("expected Transform payload"),
    }
}

#[test]
fn timestamp_rounds_down_to_milliseconds() {
    assert_eq!(forge_a2a::timestamp_of(Ok(Duration::from_micros(5_000_999))), 5000);
    let early = forge_a2a::timestamp_of(Ok(Duration::from_millis(100)));
    let late = forge_a2a::timestamp_of(Ok(Duration::from_millis(101)));
    assert!(early <= late);
}

#[test]
fn subscriber_count_over_a_sequence() {
    let mut bus = ForgeBus::new();
    let a = bus.subscribe_with_id("a", vec![], 1);
    let b = bus.subscribe_with_id("b", vec![], 2);
    assert!(bus.unsubscribe(a));
    let c = bus.subscribe_with_id("c", vec![], 3);
    assert!(!bus.unsubscribe(a));
    assert!(bus.unsubscribe(c));
    bus.subscribe_with_id("d", vec![], 4);
    // 4 subscribes, 2 removals
    assert_eq!(bus.subscriber_count(), 2);
    assert!(bus.unsubscribe(b));
    assert_eq!(bus.subscriber_count(), 1);
}
