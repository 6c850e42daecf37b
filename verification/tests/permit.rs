use ha_coordinator::clock::{Timestamp, CREATION_LOCK_TIMEOUT, NANOS_PER_SEC};
use ha_coordinator::models::LobbyInfo;
use ha_coordinator::permit::{CreationPermit, Decision, PermitError, PermitState};
use ha_coordinator::registry::LobbyRegistry;

fn at(secs: u64, nanos: u32) -> Timestamp {
    Timestamp::new(secs, nanos).unwrap()
}

fn lobby(id: &str, code: &str, max_players: i32) -> LobbyInfo {
    LobbyInfo {
        lobby_id: id.to_string(),
        join_code: code.to_string(),
        player_count: 1,
        max_players,
        scene_name: None,
        build_id: None,
    }
}

#[test]
fn timeout_is_five_seconds() {
    assert_eq!(CREATION_LOCK_TIMEOUT, 5);
    assert_eq!(NANOS_PER_SEC, 1_000_000_000);
}

#[test]
fn timestamp_new_accepts_fraction_below_one_second() {
    let t = Timestamp::new(12, 999_999_999).unwrap();
    assert_eq!(t.secs, 12);
    assert_eq!(t.nanos, 999_999_999);
}

#[test]
fn timestamp_new_refuses_whole_second_in_fraction() {
    assert_eq!(Timestamp::new(12, 1_000_000_000), None);
    assert_eq!(Timestamp::new(0, u32::MAX), None);
}

#[test]
fn timestamp_from_secs_has_no_fraction() {
    assert_eq!(Timestamp::from_secs(77), Timestamp { secs: 77, nanos: 0 });
}

#[test]
fn span_is_measured_in_nanoseconds() {
    let earlier = at(10, 900_000_000);
    assert!(!at(15, 899_999_999).is_at_least_secs_after(&earlier, 5));
    assert!(at(15, 900_000_000).is_at_least_secs_after(&earlier, 5));
    assert!(at(15, 900_000_001).is_at_least_secs_after(&earlier, 5));
    assert!(at(10, 900_000_000).is_at_least_secs_after(&earlier, 0));
}

#[test]
fn span_before_the_earlier_reading_is_no_span() {
    let earlier = at(10, 0);
    assert!(!at(9, 999_999_999).is_at_least_secs_after(&earlier, 0));
    assert!(!at(0, 0).is_at_least_secs_after(&earlier, 5));
}

#[test]
fn span_at_the_far_end_of_the_clock() {
    let first = at(0, 0);
    let last = at(u64::MAX, 999_999_999);
    assert!(last.is_at_least_secs_after(&first, u64::MAX));
    assert!(!first.is_at_least_secs_after(&last, 0));
    assert!(!last.is_at_least_secs_after(&at(1, 0), u64::MAX));
}

#[test]
fn new_permit_is_idle() {
    let permit = CreationPermit::new();
    assert_eq!(permit.state, PermitState::Idle);
    assert!(permit.free_at(at(0, 0)));
    assert!(permit.grants_at(at(0, 0)));
}

#[test]
fn idle_permit_grants_with_token_of_the_instant() {
    let mut permit = CreationPermit::new();
    let decision = permit.request_permit(at(1_700_000_000, 123_456_789));
    assert_eq!(decision, Decision::Create(1_700_000_000));
    assert_eq!(
        permit.state,
        PermitState::Granted { token: 1_700_000_000, issued_at: at(1_700_000_000, 123_456_789) }
    );
}

#[test]
fn at_most_one_grant_among_many_requests() {
    let mut permit = CreationPermit::new();
    let times = [at(100, 0), at(100, 0), at(100, 500), at(101, 0), at(104, 999_999_999), at(99, 0)];
    let mut creates = 0;
    let mut waits = 0;
    for (i, now) in times.iter().enumerate() {
        match permit.request_permit(*now) {
            Decision::Create(token) => {
                assert_eq!(i, 0);
                assert_eq!(token, 100);
                creates += 1;
            }
            Decision::Wait => waits += 1,
        }
    }
    assert_eq!(creates, 1);
    assert_eq!(waits, 5);
    assert_eq!(permit.state, PermitState::Granted { token: 100, issued_at: at(100, 0) });
}

#[test]
fn permit_in_force_tells_others_to_wait_and_stays() {
    let mut permit = CreationPermit::new();
    assert_eq!(permit.request_permit(at(50, 250_000_000)), Decision::Create(50));
    assert_eq!(permit.request_permit(at(55, 249_999_999)), Decision::Wait);
    assert_eq!(permit.state, PermitState::Granted { token: 50, issued_at: at(50, 250_000_000) });
}

#[test]
fn permit_runs_out_exactly_at_the_timeout() {
    let mut permit = CreationPermit::new();
    assert_eq!(permit.request_permit(at(50, 250_000_000)), Decision::Create(50));
    assert!(!permit.free_at(at(55, 249_999_999)));
    assert!(!permit.grants_at(at(55, 249_999_999)));
    assert!(permit.free_at(at(55, 250_000_000)));
    assert!(permit.grants_at(at(55, 250_000_000)));
    assert_eq!(permit.request_permit(at(55, 250_000_000)), Decision::Create(55));
    assert_eq!(permit.state, PermitState::Granted { token: 55, issued_at: at(55, 250_000_000) });
}

#[test]
fn request_before_the_grant_instant_waits() {
    let mut permit = CreationPermit::new();
    assert_eq!(permit.request_permit(at(1_000, 0)), Decision::Create(1_000));
    assert_eq!(permit.request_permit(at(10, 0)), Decision::Wait);
    assert_eq!(permit.state, PermitState::Granted { token: 1_000, issued_at: at(1_000, 0) });
}

#[test]
fn confirm_on_idle_permit_is_no_active_permission() {
    let mut permit = CreationPermit::new();
    let mut registry = LobbyRegistry::new();
    let verdict = permit.confirm_permit(0, lobby("L1", "J1", 4), &mut registry);
    assert_eq!(verdict, Err(PermitError::NoActivePermission));
    assert_eq!(permit.state, PermitState::Idle);
    assert_eq!(registry.count(), 0);
}

#[test]
fn confirm_with_wrong_token_is_invalid_token() {
    let mut permit = CreationPermit::new();
    let mut registry = LobbyRegistry::new();
    assert_eq!(permit.request_permit(at(200, 0)), Decision::Create(200));
    let verdict = permit.confirm_permit(201, lobby("L1", "J1", 4), &mut registry);
    assert_eq!(verdict, Err(PermitError::InvalidToken));
    assert_eq!(permit.state, PermitState::Granted { token: 200, issued_at: at(200, 0) });
    assert_eq!(registry.count(), 0);
    assert_eq!(permit.check_token(200), Ok(()));
}

#[test]
fn confirm_with_the_token_registers_and_clears() {
    let mut permit = CreationPermit::new();
    let mut registry = LobbyRegistry::new();
    assert_eq!(permit.request_permit(at(200, 0)), Decision::Create(200));
    let verdict = permit.confirm_permit(200, lobby("L1", "J1", 4), &mut registry);
    assert_eq!(verdict, Ok(()));
    assert_eq!(permit.state, PermitState::Idle);
    assert_eq!(registry.count(), 1);
    let kept = registry.get(&"L1".to_string()).unwrap();
    assert_eq!(kept.join_code, "J1");
    assert_eq!(kept.player_count, 1);
    assert_eq!(kept.max_players, 4);
}

#[test]
fn token_is_accepted_once() {
    let mut permit = CreationPermit::new();
    let mut registry = LobbyRegistry::new();
    assert_eq!(permit.request_permit(at(200, 0)), Decision::Create(200));
    assert_eq!(permit.confirm_permit(200, lobby("L1", "J1", 4), &mut registry), Ok(()));
    assert_eq!(
        permit.confirm_permit(200, lobby("L2", "J2", 4), &mut registry),
        Err(PermitError::NoActivePermission)
    );
    assert_eq!(registry.count(), 1);
    assert!(registry.get(&"L2".to_string()).is_none());
}

#[test]
fn confirm_after_the_timeout_is_accepted_while_nobody_took_over() {
    let mut permit = CreationPermit::new();
    let mut registry = LobbyRegistry::new();
    assert_eq!(permit.request_permit(at(200, 0)), Decision::Create(200));
    assert!(permit.grants_at(at(1_000, 0)));
    assert_eq!(permit.confirm_permit(200, lobby("L1", "J1", 4), &mut registry), Ok(()));
    assert_eq!(permit.state, PermitState::Idle);
    assert_eq!(registry.count(), 1);
}

#[test]
fn expiry_reclaims_the_permit_and_turns_the_old_token_down() {
    let mut permit = CreationPermit::new();
    let mut registry = LobbyRegistry::new();
    assert_eq!(permit.request_permit(at(200, 700_000_000)), Decision::Create(200));
    assert_eq!(permit.request_permit(at(205, 700_000_000)), Decision::Create(205));
    assert_eq!(
        permit.confirm_permit(200, lobby("L1", "J1", 4), &mut registry),
        Err(PermitError::InvalidToken)
    );
    assert_eq!(registry.count(), 0);
    assert_eq!(permit.confirm_permit(205, lobby("L2", "J2", 4), &mut registry), Ok(()));
    assert_eq!(registry.count(), 1);
}

#[test]
fn grants_within_one_second_get_different_tokens() {
    let mut permit = CreationPermit::new();
    let mut registry = LobbyRegistry::new();
    assert_eq!(permit.request_permit(at(300, 100)), Decision::Create(300));
    assert_eq!(permit.confirm_permit(300, lobby("L1", "J1", 4), &mut registry), Ok(()));
    assert_eq!(permit.last_token, Some(300));

    assert_eq!(permit.request_permit(at(300, 200)), Decision::Create(301));
    assert_eq!(permit.state, PermitState::Granted { token: 301, issued_at: at(300, 200) });
    assert_eq!(permit.last_token, Some(301));

    assert_eq!(
        permit.confirm_permit(300, lobby("L2", "J2", 4), &mut registry),
        Err(PermitError::InvalidToken)
    );
    assert_eq!(registry.count(), 1);
    assert_eq!(permit.state, PermitState::Granted { token: 301, issued_at: at(300, 200) });
    assert_eq!(permit.confirm_permit(301, lobby("L2", "J2", 4), &mut registry), Ok(()));
    assert_eq!(registry.count(), 2);
}

#[test]
fn new_permit_has_issued_no_token() {
    let permit = CreationPermit::new();
    assert_eq!(permit.last_token, None);
    assert_eq!(permit.next_token(at(0, 0)), Some(0));
    assert_eq!(permit.next_token(at(77, 5)), Some(77));
    assert_eq!(permit.next_token(at(u64::MAX, 0)), Some(u64::MAX));
}

#[test]
fn token_is_the_second_of_the_grant_or_the_one_after_the_last() {
    let mut permit = CreationPermit::new();
    let mut registry = LobbyRegistry::new();
    assert_eq!(permit.request_permit(at(500, 0)), Decision::Create(500));
    assert_eq!(permit.next_token(at(499, 0)), Some(501));
    assert_eq!(permit.next_token(at(500, 999_999_999)), Some(501));
    assert_eq!(permit.next_token(at(501, 0)), Some(501));
    assert_eq!(permit.next_token(at(502, 0)), Some(502));
    assert_eq!(permit.confirm_permit(500, lobby("L1", "J1", 4), &mut registry), Ok(()));
    assert_eq!(permit.state, PermitState::Idle);
    assert_eq!(permit.last_token, Some(500));
    assert_eq!(permit.request_permit(at(900, 1)), Decision::Create(900));
    assert_eq!(permit.last_token, Some(900));
}

#[test]
fn tokens_grow_while_the_clock_steps_back() {
    let mut permit = CreationPermit::new();
    let mut registry = LobbyRegistry::new();
    assert_eq!(permit.request_permit(at(1_000, 0)), Decision::Create(1_000));
    assert_eq!(permit.confirm_permit(1_000, lobby("L1", "J1", 4), &mut registry), Ok(()));
    assert_eq!(permit.request_permit(at(10, 0)), Decision::Create(1_001));
    assert_eq!(permit.state, PermitState::Granted { token: 1_001, issued_at: at(10, 0) });
    assert_eq!(permit.request_permit(at(14, 999_999_999)), Decision::Wait);
    assert_eq!(permit.request_permit(at(15, 0)), Decision::Create(1_002));
    assert_eq!(permit.state, PermitState::Granted { token: 1_002, issued_at: at(15, 0) });
    assert_eq!(
        permit.confirm_permit(1_000, lobby("L2", "J2", 4), &mut registry),
        Err(PermitError::InvalidToken)
    );
    assert_eq!(
        permit.confirm_permit(1_001, lobby("L2", "J2", 4), &mut registry),
        Err(PermitError::InvalidToken)
    );
    assert_eq!(registry.count(), 1);
}

#[test]
fn no_grant_once_the_last_token_is_the_greatest() {
    let mut permit = CreationPermit::new();
    let mut registry = LobbyRegistry::new();
    assert_eq!(permit.request_permit(at(u64::MAX - 1, 0)), Decision::Create(u64::MAX - 1));
    assert_eq!(
        permit.confirm_permit(u64::MAX - 1, lobby("L1", "J1", 4), &mut registry),
        Ok(())
    );
    assert_eq!(permit.request_permit(at(7, 0)), Decision::Create(u64::MAX));
    assert_eq!(permit.confirm_permit(u64::MAX, lobby("L2", "J2", 4), &mut registry), Ok(()));
    assert_eq!(permit.state, PermitState::Idle);
    assert_eq!(permit.last_token, Some(u64::MAX));

    assert_eq!(permit.next_token(at(u64::MAX, 0)), None);
    assert!(permit.free_at(at(u64::MAX, 0)));
    assert!(!permit.grants_at(at(u64::MAX, 0)));
    assert_eq!(permit.request_permit(at(u64::MAX, 0)), Decision::Wait);
    assert_eq!(permit.state, PermitState::Idle);
    assert_eq!(permit.last_token, Some(u64::MAX));
    assert_eq!(
        permit.confirm_permit(u64::MAX, lobby("L3", "J3", 4), &mut registry),
        Err(PermitError::NoActivePermission)
    );
    assert_eq!(registry.count(), 2);
}

#[test]
fn error_messages() {
    assert_eq!(PermitError::InvalidToken.message(), "Invalid creation token");
    assert_eq!(PermitError::NoActivePermission.message(), "No active creation permission");
}
