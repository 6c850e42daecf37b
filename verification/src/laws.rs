//! What holds of the coordinator whatever its clients do. Each law is
//! stated over the models that the operations' contracts speak of, so that
//! it holds of every run of the operations themselves.

use vstd::prelude::*;
use crate::clock::Timestamp;
use crate::coordinator::{CoordinatorState, Request};
use crate::models::{Criteria, LobbyRecord, QuickJoinReply, RegisterRequest};
use crate::permit::{
    after_requests, expired, nth_decision, Decision, PermitError, PermitSlot, PermitState,
};
use crate::registry::{
    after_claim, after_insert, claim_of, distinct_ids, first_admitted, has_lobby,
    lemma_first_admitted_from, lemma_position_of_id_from, position_of_id,
};

verus! {

/// While somebody holds the permit, asking for it changes nothing: the
/// slot stays as it is through any run of requests none of which comes
/// after the permit has run out.
pub proof fn lemma_requests_in_force_change_nothing(slot: PermitSlot, times: Seq<Timestamp>)
    requires
        forall|i: int| 0 <= i < times.len() ==> !slot.free_at(#[trigger] times[i]),
    ensures
        after_requests(slot, times) == slot,
    decreases times.len(),
{
    if times.len() > 0 {
        lemma_requests_in_force_change_nothing(slot, times.drop_last());
    }
}

/// At most one grant. Of the clients that ask for a permit that nobody
/// holds, one after the other and none of them after the new permit has
/// run out, the first is told to create a lobby and every other is told to
/// wait. The permit stays with the first.
pub proof fn lemma_at_most_one_grant(slot: PermitSlot, times: Seq<Timestamp>)
    requires
        times.len() > 0,
        slot.grants_at(times[0]),
        forall|i: int| 0 < i < times.len() ==> !expired(times[0], #[trigger] times[i]),
    ensures
        nth_decision(slot, times, 0) == Decision::Create(slot.next_token(times[0])->0),
        forall|i: int| 0 < i < times.len() ==> nth_decision(slot, times, i) == Decision::Wait,
        after_requests(slot, times) == slot.after_request(times[0]),
{
    assert forall|k: int| 0 < k <= times.len() implies after_requests(slot, times.take(k))
        == slot.after_request(times[0]) by {
        lemma_after_first_grant(slot, times, k);
    }
}

/// The slot after the first `k` of the requests of `lemma_at_most_one_grant`.
proof fn lemma_after_first_grant(slot: PermitSlot, times: Seq<Timestamp>, k: int)
    requires
        0 < k <= times.len(),
        slot.grants_at(times[0]),
        forall|i: int| 0 < i < times.len() ==> !expired(times[0], #[trigger] times[i]),
    ensures
        after_requests(slot, times.take(k)) == slot.after_request(times[0]),
    decreases k,
{
    assert(times.take(k).drop_last() =~= times.take(k - 1));
    if k > 1 {
        lemma_after_first_grant(slot, times, k - 1);
    }
}

/// A token is fresh. The token of a grant is beyond every token that the
/// slot issued before, and is on record from the grant on. It is the
/// whole second of the grant for a permit that was never granted, and not
/// less than that second for any.
pub proof fn lemma_token_is_fresh(slot: PermitSlot, now: Timestamp)
    requires
        slot.grants_at(now),
    ensures
        slot.decision_at(now) == Decision::Create(slot.next_token(now)->0),
        forall|earlier: u64|
            #[trigger] slot.issued_up_to(earlier) ==> slot.next_token(now)->0 > earlier,
        slot.after_request(now).issued_up_to(slot.next_token(now)->0),
        slot.next_token(now)->0 >= now.secs,
        slot.last_token is None ==> slot.next_token(now)->0 == now.secs,
        slot.after_request(now).wf(),
{
}

/// A token is left for the next grant for as long as the last token is
/// not the greatest that a token can be.
pub proof fn lemma_token_is_left(slot: PermitSlot, now: Timestamp)
    ensures
        slot.next_token(now) is Some <==> slot.last_token != Some(u64::MAX),
        slot.grants_at(now) <==> slot.free_at(now) && slot.last_token != Some(u64::MAX),
{
}

/// Token binding. A registration is accepted with the token of the
/// permit in force and with no other; the permit that was just granted is
/// confirmed by the token that came with it; and a token that was
/// accepted once is turned down the next time, for want of a permit.
pub proof fn lemma_token_binding(slot: PermitSlot, supplied_token: u64, now: Timestamp)
    ensures
        slot.verdict_on(supplied_token) is Ok <==> (slot.state matches PermitState::Granted {
            token,
            ..
        } && token == supplied_token),
        slot.grants_at(now) ==> slot.after_request(now).verdict_on(slot.next_token(now)->0) is Ok,
        slot.verdict_on(supplied_token) is Ok ==> {
            &&& slot.after_confirm(supplied_token).state == PermitState::Idle
            &&& slot.after_confirm(supplied_token).last_token == slot.last_token
            &&& slot.after_confirm(supplied_token).verdict_on(supplied_token) == Err::<
                (),
                PermitError,
            >(PermitError::NoActivePermission)
        },
        slot.verdict_on(supplied_token) is Err ==> slot.after_confirm(supplied_token) == slot,
{
}

/// Expiry reclamation. A permit that was granted at `granted_at` and not
/// confirmed stays with its holder through the requests at `between`,
/// none of which comes after it has run out. The client that asks at
/// `later`, once the timeout lies between the two, takes it over: that
/// client gets a later token, and a registration under the old token is
/// turned down from there on as one with an invalid token. This asks that
/// the old token is not the greatest that a token can be: after that one
/// no token is left, and the client at `later` is told to wait.
pub proof fn lemma_expiry_reclaims(
    slot: PermitSlot,
    granted_at: Timestamp,
    between: Seq<Timestamp>,
    later: Timestamp,
)
    requires
        slot.grants_at(granted_at),
        slot.next_token(granted_at) != Some(u64::MAX),
        forall|i: int| 0 <= i < between.len() ==> !expired(granted_at, #[trigger] between[i]),
        expired(granted_at, later),
    ensures
        after_requests(slot.after_request(granted_at), between) == slot.after_request(granted_at),
        slot.after_request(granted_at).grants_at(later),
        slot.after_request(granted_at).decision_at(later) == Decision::Create(
            slot.after_request(granted_at).next_token(later)->0,
        ),
        slot.after_request(granted_at).next_token(later)->0 > slot.next_token(granted_at)->0,
        slot.after_request(granted_at).after_request(later).verdict_on(
            slot.next_token(granted_at)->0,
        ) == Err::<(), PermitError>(PermitError::InvalidToken),
        slot.after_request(granted_at).after_request(later).verdict_on(
            slot.after_request(granted_at).next_token(later)->0,
        ) is Ok,
{
    lemma_requests_in_force_change_nothing(slot.after_request(granted_at), between);
}

/// Match, and count. Where `i` is the first lobby that the criteria
/// admit (the only one, for instance), the client gets that lobby's
/// identifier and join code, the lobby counts one player more, and
/// nothing else in the registry changes. The next caller finds the lobby
/// under its identifier with the new count.
pub proof fn lemma_match_counts_one_player(s: Seq<LobbyRecord>, c: Criteria, i: int)
    requires
        0 <= i < s.len(),
        c.admits(s[i]),
        forall|j: int| 0 <= j < i ==> !c.admits(#[trigger] s[j]),
    ensures
        first_admitted(s, c) == i,
        claim_of(s, c) == Some((s[i].lobby_id, s[i].join_code)),
        after_claim(s, c).len() == s.len(),
        after_claim(s, c)[i] == s[i].joined(),
        after_claim(s, c)[i].player_count == s[i].player_count + 1,
        forall|j: int| 0 <= j < s.len() && j != i ==> #[trigger] after_claim(s, c)[j] == s[j],
        distinct_ids(s) ==> position_of_id(after_claim(s, c), s[i].lobby_id) == i,
{
    lemma_first_admitted_from(s, c, 0);
    lemma_position_of_id_from(after_claim(s, c), s[i].lobby_id, 0);
}

/// Where the criteria admit no lobby, the client gets none and the
/// registry stays as it is.
pub proof fn lemma_no_match_changes_nothing(s: Seq<LobbyRecord>, c: Criteria)
    requires
        forall|j: int| 0 <= j < s.len() ==> !c.admits(#[trigger] s[j]),
    ensures
        claim_of(s, c) is None,
        after_claim(s, c) == s,
{
    lemma_first_admitted_from(s, c, 0);
}

/// The permit clears on success. After a registration that was accepted
/// nobody holds the permit, its token stays on record, and the lobby is in
/// the registry under its identifier. The next client that no lobby
/// admits is given a permit of its own, whenever it asks, and is not told
/// to wait. This asks that the last token is not the greatest that a token
/// can be: after that one no token is left.
pub proof fn lemma_permit_clears_on_success(
    st: CoordinatorState,
    req: RegisterRequest,
    c: Criteria,
    now: Timestamp,
)
    requires
        st.register_verdict(req) is Ok,
    ensures
        st.after_register(req).permit.state == PermitState::Idle,
        st.after_register(req).permit.last_token == st.permit.last_token,
        st.wf() ==> st.after_register(req).permit.last_token == Some(req.creation_token),
        has_lobby(st.after_register(req).lobbies, req.lobby_id),
        st.after_register(req).lobbies[position_of_id(
            st.after_register(req).lobbies,
            req.lobby_id,
        )] == req.lobby(),
        claim_of(st.after_register(req).lobbies, c) is None && st.permit.last_token != Some(
            u64::MAX,
        ) ==> {
            &&& st.after_register(req).permit.next_token(now) is Some
            &&& st.after_register(req).quick_join_reply(c, now) == QuickJoinReply::create(
                st.after_register(req).permit.next_token(now)->0,
            )
            &&& st.after_register(req).after_quick_join(c, now).permit
                == st.after_register(req).permit.after_request(now)
            &&& st.after_register(req).after_quick_join(c, now).permit.state
                == (PermitState::Granted {
                token: st.after_register(req).permit.next_token(now)->0,
                issued_at: now,
            })
            &&& st.after_register(req).after_quick_join(c, now).lobbies == st.after_register(
                req,
            ).lobbies
        },
{
    let before = st.lobbies;
    let after = after_insert(before, req.lobby());
    lemma_position_of_id_from(before, req.lobby_id, 0);
    lemma_position_of_id_from(after, req.lobby_id, 0);
    assert(after[position_of_id(before, req.lobby_id)] == req.lobby());
}

/// A registration that is turned down changes nothing, and a client
/// that is told to wait changes nothing.
pub proof fn lemma_refusals_change_nothing(
    st: CoordinatorState,
    req: RegisterRequest,
    c: Criteria,
    now: Timestamp,
)
    ensures
        st.register_verdict(req) is Err ==> st.after_register(req) == st,
        st.quick_join_reply(c, now) == QuickJoinReply::wait() ==> st.after_quick_join(c, now)
            == st,
{
}

/// A quick-join request keeps every lobby where it is and under its
/// identifier, and keeps the invariants.
pub proof fn lemma_quick_join_keeps_lobbies(st: CoordinatorState, c: Criteria, now: Timestamp)
    ensures
        st.after_quick_join(c, now).lobbies.len() == st.lobbies.len(),
        forall|i: int|
            0 <= i < st.lobbies.len() ==> (#[trigger] st.after_quick_join(
                c,
                now,
            ).lobbies[i]).lobby_id == st.lobbies[i].lobby_id,
        forall|id: Seq<char>|
            has_lobby(st.lobbies, id) ==> #[trigger] has_lobby(
                st.after_quick_join(c, now).lobbies,
                id,
            ),
        st.wf() ==> st.after_quick_join(c, now).wf(),
{
    lemma_first_admitted_from(st.lobbies, c, 0);
    let after = st.after_quick_join(c, now).lobbies;
    assert forall|id: Seq<char>| has_lobby(st.lobbies, id) implies #[trigger] has_lobby(
        after,
        id,
    ) by {
        lemma_position_of_id_from(st.lobbies, id, 0);
        lemma_position_of_id_from(after, id, 0);
        let i = position_of_id(st.lobbies, id);
        if !has_lobby(after, id) {
            assert(after[i].lobby_id == st.lobbies[i].lobby_id);
        }
    }
}

/// A registration takes no lobby out of the registry, and keeps the
/// invariants.
pub proof fn lemma_register_keeps_lobbies(st: CoordinatorState, req: RegisterRequest)
    ensures
        st.after_register(req).lobbies.len() >= st.lobbies.len(),
        forall|id: Seq<char>|
            has_lobby(st.lobbies, id) ==> #[trigger] has_lobby(st.after_register(req).lobbies, id),
        st.wf() ==> st.after_register(req).wf(),
{
    lemma_position_of_id_from(st.lobbies, req.lobby_id, 0);
    let after = st.after_register(req).lobbies;
    assert forall|id: Seq<char>| has_lobby(st.lobbies, id) implies #[trigger] has_lobby(
        after,
        id,
    ) by {
        lemma_position_of_id_from(st.lobbies, id, 0);
        lemma_position_of_id_from(after, id, 0);
        let i = position_of_id(st.lobbies, id);
        if !has_lobby(after, id) {
            assert(after[i].lobby_id == id);
        }
    }
}

/// What was issued stays issued. Whatever requests the coordinator
/// serves, the last token on record never falls back behind `token`.
pub proof fn lemma_issued_tokens_stay_issued(
    st: CoordinatorState,
    requests: Seq<Request>,
    token: u64,
)
    requires
        st.permit.issued_up_to(token),
    ensures
        st.after_all(requests).permit.issued_up_to(token),
    decreases requests.len(),
{
    if requests.len() > 0 {
        lemma_issued_tokens_stay_issued(st, requests.drop_last(), token);
    }
}

/// What was used up stays used up. Whatever requests the coordinator
/// serves, a permit in force carries a token beyond `token`.
pub proof fn lemma_spent_tokens_stay_spent(
    st: CoordinatorState,
    requests: Seq<Request>,
    token: u64,
)
    requires
        st.permit.has_spent(token),
    ensures
        st.after_all(requests).permit.has_spent(token),
        st.after_all(requests).permit.verdict_on(token) is Err,
    decreases requests.len(),
{
    if requests.len() > 0 {
        lemma_spent_tokens_stay_spent(st, requests.drop_last(), token);
    }
}

/// No token is issued twice. A client that is given a token after
/// another client was given one, with whatever requests served in between
/// and whatever the clock showed, is given a later token.
pub proof fn lemma_no_token_is_issued_twice(
    st: CoordinatorState,
    first_criteria: Criteria,
    first_at: Timestamp,
    between: Seq<Request>,
    second_criteria: Criteria,
    second_at: Timestamp,
)
    requires
        st.quick_join_reply(first_criteria, first_at).creation_token is Some,
    ensures
        st.after_quick_join(first_criteria, first_at).after_all(between).quick_join_reply(
            second_criteria,
            second_at,
        ).creation_token matches Some(second) ==> second > st.quick_join_reply(
            first_criteria,
            first_at,
        ).creation_token->0,
{
    let first = st.quick_join_reply(first_criteria, first_at).creation_token->0;
    let granted = st.after_quick_join(first_criteria, first_at);
    lemma_issued_tokens_stay_issued(granted, between, first);
}

/// One grant lets one lobby in. A token that was accepted once is turned
/// down ever after, whatever requests the coordinator serves in between
/// and whatever the clock shows: for want of a permit while nobody holds
/// one, as an invalid token while somebody does. The registration that is
/// turned down changes nothing.
pub proof fn lemma_used_token_stays_used(
    st: CoordinatorState,
    req: RegisterRequest,
    later: Seq<Request>,
    again: RegisterRequest,
)
    requires
        st.wf(),
        st.register_verdict(req) is Ok,
        again.creation_token == req.creation_token,
    ensures
        st.after_register(req).after_all(later).register_verdict(again) == Err::<(), PermitError>(
            if st.after_register(req).after_all(later).permit.state is Idle {
                PermitError::NoActivePermission
            } else {
                PermitError::InvalidToken
            },
        ),
        st.after_register(req).after_all(later).after_register(again) == st.after_register(
            req,
        ).after_all(later),
{
    lemma_spent_tokens_stay_spent(st.after_register(req), later, req.creation_token);
}

/// The invariants hold for as long as the coordinator runs. Whatever
/// requests it serves, in whatever order: each identifier goes on
/// standing for one lobby, the token of a permit in force is the last
/// that was issued, and no lobby leaves the registry.
pub proof fn lemma_invariants_hold_throughout(st: CoordinatorState, requests: Seq<Request>)
    requires
        st.wf(),
    ensures
        st.after_all(requests).wf(),
        st.after_all(requests).lobbies.len() >= st.lobbies.len(),
        forall|id: Seq<char>|
            has_lobby(st.lobbies, id) ==> #[trigger] has_lobby(st.after_all(requests).lobbies, id),
    decreases requests.len(),
{
    if requests.len() > 0 {
        let before = st.after_all(requests.drop_last());
        lemma_invariants_hold_throughout(st, requests.drop_last());
        match requests.last() {
            Request::QuickJoin { criteria, now } => {
                lemma_quick_join_keeps_lobbies(before, criteria, now);
            },
            Request::RegisterLobby { request } => {
                lemma_register_keeps_lobbies(before, request);
            },
        }
    }
}

} // verus!
