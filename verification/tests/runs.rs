use tttb_backend::refresh_runs::{
    claim_decision, is_stale, lease_state, live_claim, ClaimDecision, LeaseState,
    RefreshRunRow, REFRESH_CLAIM_STALE_AFTER_NANOS,
};

const NOW: i64 = 1_781_596_800; // 2026-06-16T08:00:00Z

fn run(id: i64, owner: Option<&str>, heartbeat: Option<&str>) -> RefreshRunRow {
    RefreshRunRow {
        id,
        trigger: "LAUNCH".into(),
        started_at: "2026-06-16T07:00:00+00:00".into(),
        finished_at: None,
        status: "RUNNING".into(),
        message: None,
        prices_written: 0,
        fx_rates_written: 0,
        unmapped_instruments: 0,
        failed_items: 0,
        claim_owner: owner.map(str::to_owned),
        heartbeat_at: heartbeat.map(str::to_owned),
    }
}

#[test]
fn heartbeats_go_stale_after_the_lease_window() {
    let stale = REFRESH_CLAIM_STALE_AFTER_NANOS;
    assert!(!is_stale(Some("2026-06-16T07:59:00+00:00"), NOW, 0, stale));
    assert!(!is_stale(Some("2026-06-16T07:58:00Z"), NOW, 0, stale));
    assert!(is_stale(Some("2026-06-16T07:57:59Z"), NOW, 0, stale));
    assert!(is_stale(Some("2026-06-16T09:57:59+02:00"), NOW, 0, stale));
    assert!(!is_stale(Some("2026-06-16T09:00:00Z"), NOW, 0, stale));
    assert!(is_stale(Some("not a time"), NOW, 0, stale));
    assert!(is_stale(None, NOW, 0, stale));
}

#[test]
fn a_live_claim_holds_the_lease() {
    let rows = vec![
        run(5, Some("owner-b"), Some("2026-06-16T07:00:00Z")),
        run(4, Some("owner-a"), Some("2026-06-16T07:59:30Z")),
    ];
    let live = live_claim(&rows, NOW, 0, REFRESH_CLAIM_STALE_AFTER_NANOS).expect("live");
    assert_eq!(live.id, 4);
    match claim_decision(&rows, NOW, 0, REFRESH_CLAIM_STALE_AFTER_NANOS) {
        ClaimDecision::Hold(held) => assert_eq!(held.id, 4),
        ClaimDecision::Claim(_) => panic!("a live run must hold the lease"),
    }
}

#[test]
fn stale_claims_are_all_taken_over() {
    let rows = vec![
        run(5, Some("owner-b"), Some("2026-06-16T07:00:00Z")),
        run(4, None, None),
    ];
    match claim_decision(&rows, NOW, 0, REFRESH_CLAIM_STALE_AFTER_NANOS) {
        ClaimDecision::Claim(reclaimed) => {
            assert_eq!(reclaimed.len(), 2);
            assert_eq!((reclaimed[0].id, reclaimed[0].owner.as_str()), (5, "owner-b"));
            assert_eq!((reclaimed[1].id, reclaimed[1].owner.as_str()), (4, "unknown owner"));
        }
        ClaimDecision::Hold(_) => panic!("stale runs must not hold the lease"),
    }
    match claim_decision(&Vec::new(), NOW, 0, REFRESH_CLAIM_STALE_AFTER_NANOS) {
        ClaimDecision::Claim(reclaimed) => assert!(reclaimed.is_empty()),
        ClaimDecision::Hold(_) => panic!("nothing to hold"),
    }
}

#[test]
fn owner_conditional_updates_report_the_lease() {
    assert_eq!(lease_state(1), LeaseState::Held);
    assert_eq!(lease_state(0), LeaseState::Lost);
    assert_eq!(lease_state(2), LeaseState::Lost);
}
