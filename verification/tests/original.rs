use std::collections::HashMap;

use forge_a2a::{now_ms, ForgeBus, ForgeMessageBuilder, ForgeMsgType, ForgePayload};
use uuid::Uuid;

fn pid() -> u128 {
    Uuid::new_v4().as_u128()
}

#[test]
fn message_builder_pipeline_started() {
    let p = pid();
    let msg = ForgeMessageBuilder::new(p).pipeline_started("ingest");
    assert_eq!(msg.pipeline_id, p);
    assert_eq!(msg.msg_type, ForgeMsgType::PipelineStarted);
    assert_eq!(msg.sender, "ingest");
}

#[test]
fn message_builder_stage_completed() {
    let msg = ForgeMessageBuilder::new(pid()).stage_completed("encode", 100, 95, 0.95f64.to_bits());
    assert_eq!(msg.msg_type, ForgeMsgType::StageCompleted);
    let (stage, tin, tout, cr_bits) = msg.payload.as_status().unwrap();
    let cr = f64::from_bits(cr_bits);
    assert_eq!(stage, "encode");
    assert_eq!(tin, 100);
    assert_eq!(tout, 95);
    assert!((cr - 0.95).abs() < f64::EPSILON);
}

#[test]
fn message_builder_pipeline_completed() {
    let msg = ForgeMessageBuilder::new(pid()).pipeline_completed(5, 0.88f64.to_bits());
    assert_eq!(msg.msg_type, ForgeMsgType::PipelineCompleted);
}

#[test]
fn message_builder_pipeline_failed() {
    let msg = ForgeMessageBuilder::new(pid()).pipeline_failed("render", "OOM");
    assert_eq!(msg.msg_type, ForgeMsgType::PipelineFailed);
    if let ForgePayload::Error { stage, message } = &msg.payload {
        assert_eq!(stage, "render");
        assert_eq!(message, "OOM");
    } else {
        panic!("expected Error payload");
    }
}

#[test]
fn message_builder_tile_produced() {
    let msg = ForgeMessageBuilder::new(pid()).tile_produced(42, "heightmap", 2048);
    assert_eq!(msg.msg_type, ForgeMsgType::TileProduced);
    if let ForgePayload::Tile { index, kind, size } = &msg.payload {
        assert_eq!(*index, 42);
        assert_eq!(kind, "heightmap");
        assert_eq!(*size, 2048);
    } else {
        panic!("expected Tile payload");
    }
}

#[test]
fn message_builder_transform_request() {
    let mut params = HashMap::new();
    params.insert("scale".to_string(), "2.0".to_string());
    let msg = ForgeMessageBuilder::new(pid()).transform_request("upscale", params.clone());
    assert_eq!(msg.msg_type, ForgeMsgType::TransformRequest);
    if let ForgePayload::Transform { name, params: p } = &msg.payload {
        assert_eq!(name, "upscale");
        assert_eq!(p.get("scale").unwrap(), "2.0");
    } else {
        panic!("expected Transform payload");
    }
}

#[test]
fn bus_subscribe_unsubscribe() {
    let mut bus = ForgeBus::new();
    let id = bus.subscribe("agent-1", vec![ForgeMsgType::TileProduced]);
    assert_eq!(bus.subscriber_count(), 1);
    assert!(bus.unsubscribe(id));
    assert_eq!(bus.subscriber_count(), 0);
    assert!(!bus.unsubscribe(id)); // already gone
}

#[test]
fn publish_with_filter() {
    let mut bus = ForgeBus::new();
    bus.subscribe(
        "watcher",
        vec![ForgeMsgType::TileProduced, ForgeMsgType::PipelineFailed],
    );
    let msg = ForgeMessageBuilder::new(pid()).tile_produced(0, "dem", 1024);
    let delivered = bus.publish(msg);
    assert_eq!(delivered.len(), 1);
}

#[test]
fn publish_no_match() {
    let mut bus = ForgeBus::new();
    bus.subscribe("watcher", vec![ForgeMsgType::PipelineFailed]);
    let msg = ForgeMessageBuilder::new(pid()).tile_produced(0, "dem", 1024);
    let delivered = bus.publish(msg);
    assert!(delivered.is_empty());
}

#[test]
fn empty_filter_matches_all() {
    let mut bus = ForgeBus::new();
    bus.subscribe("omni", vec![]);
    let msg = ForgeMessageBuilder::new(pid()).pipeline_started("test");
    let delivered = bus.publish(msg);
    assert_eq!(delivered.len(), 1);
}

#[test]
fn history_by_pipeline() {
    let mut bus = ForgeBus::new();
    let p1 = pid();
    let p2 = pid();
    bus.publish(ForgeMessageBuilder::new(p1).pipeline_started("a"));
    bus.publish(ForgeMessageBuilder::new(p2).pipeline_started("b"));
    bus.publish(ForgeMessageBuilder::new(p1).pipeline_started("c"));
    let h = bus.history(Some(p1), 10);
    assert_eq!(h.len(), 2);
    assert!(h.iter().all(|m| m.pipeline_id == p1));
}

#[test]
fn history_limit() {
    let mut bus = ForgeBus::new();
    let p = pid();
    for i in 0..10 {
        bus.publish(ForgeMessageBuilder::new(p).stage_completed(
            &format!("stage-{}", i),
            100,
            90,
            0.9f64.to_bits(),
        ));
    }
    let h = bus.history(None, 3);
    assert_eq!(h.len(), 3);
}

#[test]
fn multiple_subscribers() {
    let mut bus = ForgeBus::new();
    bus.subscribe("a", vec![ForgeMsgType::TileProduced]);
    bus.subscribe("b", vec![ForgeMsgType::TileProduced]);
    bus.subscribe("c", vec![ForgeMsgType::PipelineFailed]);
    let msg = ForgeMessageBuilder::new(pid()).tile_produced(1, "tex", 512);
    let delivered = bus.publish(msg);
    assert_eq!(delivered.len(), 2);
}

#[test]
fn message_count() {
    let mut bus = ForgeBus::new();
    let p = pid();
    assert_eq!(bus.message_count(), 0);
    bus.publish(ForgeMessageBuilder::new(p).pipeline_started("x"));
    bus.publish(ForgeMessageBuilder::new(p).pipeline_completed(1, 1.0f64.to_bits()));
    assert_eq!(bus.message_count(), 2);
}

#[test]
fn unique_ids() {
    let b = ForgeMessageBuilder::new(pid());
    let m1 = b.pipeline_started("a");
    let m2 = b.pipeline_started("a");
    assert_ne!(m1.id, m2.id);
}

#[test]
fn timestamp_reasonable() {
    let msg = ForgeMessageBuilder::new(pid()).pipeline_started("test");
    let now = now_ms();
    assert!(msg.timestamp_ms > 0);
    assert!(now - msg.timestamp_ms < 5000);
}
