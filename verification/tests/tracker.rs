//! Drives the tracking actor's state machine through whole scenarios.

use first_block_tracker::block::{BlockHeader, BlockId};
use first_block_tracker::finder::LookupError;
use first_block_tracker::tracker::{
    TrackerAction, TrackerEvent, TrackerLog, TrackerPhase, TrackerState, HINT_WINDOW,
};

fn head(seqno: u32) -> BlockId {
    BlockId::new(-1, 0x8000000000000000, seqno)
}

fn header(seqno: u32) -> BlockHeader {
    BlockHeader::new(BlockId::new(-1, 0x8000000000000000, seqno), 1)
}

#[test]
fn first_discovery_has_no_hint() {
    let mut actor = TrackerState::new();
    assert_eq!(actor.phase, TrackerPhase::AwaitingChainHead);
    let out = actor.on_event(TrackerEvent::ChainHeadOk(head(1000)));
    assert!(out.publish.is_none());
    match out.next {
        TrackerAction::StartRound { anchor, bounds } => {
            assert_eq!(anchor.seqno, 1000);
            assert!(bounds.is_none());
        }
        _ => panic!("expected a round to start"),
    }
    assert_eq!(actor.phase, TrackerPhase::Discovering);
}

#[test]
fn successful_round_publishes_then_cools_down() {
    let mut actor = TrackerState::new();
    actor.on_event(TrackerEvent::ChainHeadOk(head(1000)));
    let out = actor.on_event(TrackerEvent::RoundOk(header(640)));
    assert_eq!(out.publish, Some(header(640)));
    assert!(matches!(out.next, TrackerAction::Cooldown));
    assert_eq!(actor.phase, TrackerPhase::Idle);
    assert_eq!(actor.published, Some(640));
}

#[test]
fn next_round_uses_hint_window_above_previous_result() {
    let mut actor = TrackerState::new();
    actor.on_event(TrackerEvent::ChainHeadOk(head(1000)));
    actor.on_event(TrackerEvent::RoundOk(header(640)));
    let out = actor.on_event(TrackerEvent::CooldownOver);
    match out.next {
        TrackerAction::StartRound { anchor, bounds } => {
            assert_eq!(anchor.seqno, 1000);
            let bounds = bounds.expect("a previous result gives a hint");
            assert_eq!(bounds.low, 640);
            assert_eq!(bounds.high, 640 + HINT_WINDOW);
        }
        _ => panic!("expected a round to start"),
    }
}

#[test]
fn hint_window_is_clamped_near_the_top() {
    let mut actor = TrackerState::new();
    actor.on_event(TrackerEvent::ChainHeadOk(head(u32::MAX)));
    actor.on_event(TrackerEvent::RoundOk(header(u32::MAX - 10)));
    let out = actor.on_event(TrackerEvent::CooldownOver);
    match out.next {
        TrackerAction::StartRound { bounds, .. } => {
            let bounds = bounds.expect("a previous result gives a hint");
            assert_eq!(bounds.low, u32::MAX - 10);
            assert_eq!(bounds.high, u32::MAX);
        }
        _ => panic!("expected a round to start"),
    }
}

#[test]
fn chain_head_failures_are_logged_and_retried() {
    // the source fails twice, then succeeds: two log entries, no phase
    // change, and the third attempt starts the first round
    let mut actor = TrackerState::new();
    let mut logged: u32 = 0;
    for _ in 0..2 {
        let out = actor.on_event(TrackerEvent::ChainHeadFailed);
        assert!(matches!(out.log, Some(TrackerLog::ChainHeadUnavailable)));
        assert!(matches!(out.next, TrackerAction::WaitChainHead));
        assert!(out.publish.is_none());
        assert_eq!(actor.phase, TrackerPhase::AwaitingChainHead);
        logged += 1;
    }
    assert_eq!(logged, 2);
    let out = actor.on_event(TrackerEvent::ChainHeadOk(head(500)));
    assert!(matches!(out.next, TrackerAction::StartRound { .. }));
    assert_eq!(actor.phase, TrackerPhase::Discovering);
}

#[test]
fn failed_round_retries_immediately() {
    let mut actor = TrackerState::new();
    actor.on_event(TrackerEvent::ChainHeadOk(head(1000)));
    let out = actor.on_event(TrackerEvent::RoundFailed(LookupError::Transient));
    assert!(out.publish.is_none());
    assert!(matches!(out.log, Some(TrackerLog::DiscoveryFailed(LookupError::Transient))));
    // no cooldown: the round is started again at once
    match out.next {
        TrackerAction::StartRound { anchor, bounds } => {
            assert_eq!(anchor.seqno, 1000);
            assert!(bounds.is_none());
        }
        _ => panic!("expected an immediate retry"),
    }
    assert_eq!(actor.phase, TrackerPhase::Discovering);
}

#[test]
fn stale_round_result_is_discarded() {
    let mut actor = TrackerState::new();
    actor.on_event(TrackerEvent::ChainHeadOk(head(1000)));
    actor.on_event(TrackerEvent::RoundOk(header(700)));
    actor.on_event(TrackerEvent::CooldownOver);
    // the round claims the boundary moved backwards: discard, keep 700
    let out = actor.on_event(TrackerEvent::RoundOk(header(650)));
    assert!(out.publish.is_none());
    assert!(matches!(out.log, Some(TrackerLog::StaleResultDiscarded)));
    assert!(matches!(out.next, TrackerAction::Cooldown));
    assert_eq!(actor.published, Some(700));
    // a later, plausible result is published again
    actor.on_event(TrackerEvent::CooldownOver);
    let out = actor.on_event(TrackerEvent::RoundOk(header(710)));
    assert_eq!(out.publish, Some(header(710)));
}

#[test]
fn published_seqnos_never_decrease() {
    let mut actor = TrackerState::new();
    actor.on_event(TrackerEvent::ChainHeadOk(head(1000)));
    let rounds = [640, 640, 655, 123, 660, 1, 660, 702];
    let mut published: Vec<u32> = Vec::new();
    for seqno in rounds {
        let out = actor.on_event(TrackerEvent::RoundOk(header(seqno)));
        if let Some(h) = out.publish {
            published.push(h.id.seqno);
        }
        actor.on_event(TrackerEvent::CooldownOver);
    }
    assert_eq!(published, vec![640, 640, 655, 660, 660, 702]);
    for pair in published.windows(2) {
        assert!(pair[0] <= pair[1]);
    }
}

#[test]
fn cancellation_wins_mid_round() {
    let mut actor = TrackerState::new();
    actor.on_event(TrackerEvent::ChainHeadOk(head(1000)));
    assert_eq!(actor.phase, TrackerPhase::Discovering);
    let out = actor.on_event(TrackerEvent::Cancel);
    assert!(out.publish.is_none());
    assert!(matches!(out.next, TrackerAction::Stop));
    assert!(matches!(out.log, Some(TrackerLog::Stopping)));
    assert_eq!(actor.phase, TrackerPhase::Cancelled);
    assert_eq!(actor.published, None);
}

#[test]
fn cancellation_wins_while_awaiting_chain_head() {
    let mut actor = TrackerState::new();
    let out = actor.on_event(TrackerEvent::Cancel);
    assert!(matches!(out.next, TrackerAction::Stop));
    assert_eq!(actor.phase, TrackerPhase::Cancelled);
}

#[test]
fn head_update_does_not_preempt_cooldown() {
    let mut actor = TrackerState::new();
    actor.on_event(TrackerEvent::ChainHeadOk(head(1000)));
    actor.on_event(TrackerEvent::RoundOk(header(640)));
    // a fresh chain head arrives while idle: the sleep goes on, but the
    // next round anchors on the newer head
    let out = actor.on_event(TrackerEvent::ChainHeadOk(head(1100)));
    assert!(matches!(out.next, TrackerAction::Continue));
    assert!(out.publish.is_none());
    assert_eq!(actor.phase, TrackerPhase::Idle);
    let out = actor.on_event(TrackerEvent::CooldownOver);
    match out.next {
        TrackerAction::StartRound { anchor, .. } => assert_eq!(anchor.seqno, 1100),
        _ => panic!("expected a round to start"),
    }
}
