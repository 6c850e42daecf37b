//! The coordinator: the registry and the permit under one owner, and the
//! two operations that clients see.
//!
//! Every operation takes the coordinator by exclusive reference. A caller
//! that shares one coordinator between threads guards it with one lock, so
//! that registry and permit are always taken together and never one after
//! the other: no two operations interleave, and there is no lock order to
//! get wrong.

use vstd::prelude::*;
use crate::clock::Timestamp;
use crate::models::{
    Criteria, LobbyRecord, MatchCriteria, QuickJoinReply, QuickJoinResponse, RegisterLobbyRequest,
    RegisterRequest,
};
use crate::permit::{CreationPermit, Decision, PermitError, PermitSlot};
use crate::registry::{after_claim, after_insert, claim_of, distinct_ids, LobbyRegistry};
use crate::wall_clock::ClockError;

verus! {

/// What a coordinator holds, as the contracts model it.
pub struct CoordinatorState {
    pub lobbies: Seq<LobbyRecord>,
    pub permit: PermitSlot,
}

impl CoordinatorState {
    /// No lobby, and a permit that was never granted.
    pub open spec fn initial() -> CoordinatorState {
        CoordinatorState { lobbies: Seq::empty(), permit: PermitSlot::fresh() }
    }

    /// Each identifier stands for one lobby, and the token of a permit in
    /// force is the last that was issued.
    pub open spec fn wf(self) -> bool {
        distinct_ids(self.lobbies) && self.permit.wf()
    }

    /// The answer to a quick-join request with criteria `c` at `now`. The
    /// registry is asked first: a client that a lobby admits is sent
    /// there. Only a client that no lobby admits asks for the permit.
    pub open spec fn quick_join_reply(self, c: Criteria, now: Timestamp) -> QuickJoinReply {
        match claim_of(self.lobbies, c) {
            Some((lobby_id, join_code)) => QuickJoinReply::matched(lobby_id, join_code),
            None => match self.permit.decision_at(now) {
                Decision::Create(token) => QuickJoinReply::create(token),
                Decision::Wait => QuickJoinReply::wait(),
            },
        }
    }

    /// What the coordinator holds after a quick-join request with
    /// criteria `c` at `now`.
    pub open spec fn after_quick_join(self, c: Criteria, now: Timestamp) -> CoordinatorState {
        if claim_of(self.lobbies, c) is Some {
            CoordinatorState { lobbies: after_claim(self.lobbies, c), permit: self.permit }
        } else {
            CoordinatorState { lobbies: self.lobbies, permit: self.permit.after_request(now) }
        }
    }

    /// A quick-join request with criteria `c` that is served at `now` is
    /// answered with `reply` and leaves the coordinator holding `after`.
    pub open spec fn quick_join_served_at(
        self,
        c: Criteria,
        now: Timestamp,
        reply: QuickJoinReply,
        after: CoordinatorState,
    ) -> bool {
        reply == self.quick_join_reply(c, now) && after == self.after_quick_join(c, now)
    }

    /// Whether the registration `req` is accepted.
    pub open spec fn register_verdict(self, req: RegisterRequest) -> Result<(), PermitError> {
        self.permit.verdict_on(req.creation_token)
    }

    /// What the coordinator holds after the registration `req`.
    pub open spec fn after_register(self, req: RegisterRequest) -> CoordinatorState {
        if self.register_verdict(req) is Ok {
            CoordinatorState {
                lobbies: after_insert(self.lobbies, req.lobby()),
                permit: self.permit.after_confirm(req.creation_token),
            }
        } else {
            self
        }
    }
}

/// One request of a client, as the contracts model it.
pub enum Request {
    QuickJoin { criteria: Criteria, now: Timestamp },
    RegisterLobby { request: RegisterRequest },
}

impl CoordinatorState {
    /// What the coordinator holds after it served `request`.
    pub open spec fn after(self, request: Request) -> CoordinatorState {
        match request {
            Request::QuickJoin { criteria, now } => self.after_quick_join(criteria, now),
            Request::RegisterLobby { request } => self.after_register(request),
        }
    }

    /// What the coordinator holds after it served `requests`, one after
    /// the other.
    pub open spec fn after_all(self, requests: Seq<Request>) -> CoordinatorState
        decreases requests.len(),
    {
        if requests.len() == 0 {
            self
        } else {
            self.after_all(requests.drop_last()).after(requests.last())
        }
    }
}

/// Status of the answer to a registration that was accepted.
pub const STATUS_OK: u16 = 200;

/// Status of the answer to a registration that was turned down.
pub const STATUS_BAD_REQUEST: u16 = 400;

/// What the client that sent a registration is told: a status, and a
/// sentence for the body of the answer.
#[derive(Debug)]
pub struct RegisterLobbyResponse {
    pub status: u16,
    pub message: String,
}

impl RegisterLobbyResponse {
    /// The answer that goes with `verdict`.
    pub fn from_verdict(verdict: Result<(), PermitError>) -> (response: RegisterLobbyResponse)
        ensures
            response.status == match verdict {
                Ok(_) => STATUS_OK,
                Err(_) => STATUS_BAD_REQUEST,
            },
            response.message@ == match verdict {
                Ok(_) => "Lobby registered successfully"@,
                Err(PermitError::InvalidToken) => "Invalid creation token"@,
                Err(PermitError::NoActivePermission) => "No active creation permission"@,
            },
    {
        match verdict {
            Ok(_) => RegisterLobbyResponse {
                status: STATUS_OK,
                message: "Lobby registered successfully".to_owned(),
            },
            Err(e) => RegisterLobbyResponse { status: STATUS_BAD_REQUEST, message: e.message() },
        }
    }
}

/// A matchmaking coordinator: the lobbies that exist, and the permit that
/// says who may create the next one.
#[derive(Debug)]
pub struct Coordinator {
    registry: LobbyRegistry,
    permit: CreationPermit,
}

impl View for Coordinator {
    type V = CoordinatorState;

    closed spec fn view(&self) -> CoordinatorState {
        CoordinatorState { lobbies: self.registry@, permit: self.permit@ }
    }
}

impl Coordinator {
    /// A coordinator without lobbies, whose permit nobody holds.
    pub fn new() -> (c: Coordinator)
        ensures
            c@ == CoordinatorState::initial(),
            c@.wf(),
    {
        Coordinator { registry: LobbyRegistry::new(), permit: CreationPermit::new() }
    }

    /// Places a client at `now`. A client that a lobby admits is counted
    /// among that lobby's players and gets its identifier and join code.
    /// A client that no lobby admits asks for the creation permit: it is
    /// told to create a lobby, with the token to register it under, or,
    /// while another client holds the permit, to come back later.
    pub fn quick_join(
        &mut self,
        criteria: &MatchCriteria,
        now: Timestamp,
    ) -> (response: QuickJoinResponse)
        ensures
            response@ == old(self)@.quick_join_reply(criteria@, now),
            final(self)@ == old(self)@.after_quick_join(criteria@, now),
            old(self)@.wf() ==> final(self)@.wf(),
    {
        match self.registry.find_and_claim(criteria) {
            Some((lobby_id, join_code)) => QuickJoinResponse::matched(lobby_id, join_code),
            None => match self.permit.request_permit(now) {
                Decision::Create(token) => QuickJoinResponse::create(token),
                Decision::Wait => QuickJoinResponse::wait(),
            },
        }
    }

    /// Places a client at the instant that the system clock shows when
    /// the permit is asked for. A client that a lobby admits is placed
    /// without a look at the clock. For a client that no lobby admits the
    /// clock is read, and the request is served as `quick_join` serves it
    /// at that reading, whatever the reading is. Where the clock gives no
    /// reading, the request fails and changes nothing.
    pub fn quick_join_now(
        &mut self,
        criteria: &MatchCriteria,
    ) -> (response: Result<QuickJoinResponse, ClockError>)
        ensures
            match response {
                Ok(r) => exists|now: Timestamp|
                    now.wf() && #[trigger] old(self)@.quick_join_served_at(
                        criteria@,
                        now,
                        r@,
                        final(self)@,
                    ),
                Err(_) => final(self)@ == old(self)@,
            },
            claim_of(old(self)@.lobbies, criteria@) is Some ==> response is Ok,
            old(self)@.wf() ==> final(self)@.wf(),
    {
        match self.registry.find_and_claim(criteria) {
            Some((lobby_id, join_code)) => {
                let response = QuickJoinResponse::matched(lobby_id, join_code);
                proof {
                    let epoch = Timestamp { secs: 0, nanos: 0 };
                    assert(old(self)@.quick_join_served_at(criteria@, epoch, response@, self@));
                }
                Ok(response)
            },
            None => match self.permit.request_permit_now() {
                Ok(decision) => {
                    let response = match decision {
                        Decision::Create(token) => QuickJoinResponse::create(token),
                        Decision::Wait => QuickJoinResponse::wait(),
                    };
                    proof {
                        let now = choose|now: Timestamp|
                            now.wf() && #[trigger] old(self)@.permit.request_served_at(
                                now,
                                decision,
                                self@.permit,
                            );
                        assert(old(self)@.quick_join_served_at(criteria@, now, response@, self@));
                    }
                    Ok(response)
                },
                Err(e) => Err(e),
            },
        }
    }

    /// Registers the lobby that a client created. The request must carry
    /// the token of the permit in force. The lobby is put into the
    /// registry with its creator as first player, and the permit is free
    /// again. A request with another token, or without a permit in force,
    /// fails and changes nothing.
    pub fn register_lobby(
        &mut self,
        req: RegisterLobbyRequest,
    ) -> (verdict: Result<(), PermitError>)
        ensures
            verdict == old(self)@.register_verdict(req@),
            final(self)@ == old(self)@.after_register(req@),
            old(self)@.wf() ==> final(self)@.wf(),
    {
        let token: u64 = req.creation_token;
        self.permit.confirm_permit(token, req.into_lobby(), &mut self.registry)
    }

    /// The number of lobbies.
    pub fn lobby_count(&self) -> (n: usize)
        ensures
            n == self@.lobbies.len(),
    {
        self.registry.count()
    }

    /// The lobbies.
    pub fn registry(&self) -> (registry: &LobbyRegistry)
        ensures
            registry@ == self@.lobbies,
    {
        &self.registry
    }

    /// The permit.
    pub fn permit(&self) -> (permit: &CreationPermit)
        ensures
            permit@ == self@.permit,
    {
        &self.permit
    }
}

} // verus!
