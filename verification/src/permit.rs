//! The creation permit: one slot that says which client may create the
//! next lobby, and for how long.
//!
//! A permit is granted at an instant and carries a token. While it is in
//! force every other client is told to wait. It ends when its holder
//! registers a lobby with the token, or is taken over by the next client
//! to ask once `CREATION_LOCK_TIMEOUT` seconds have gone by, so that a
//! holder who never follows through locks nobody out.
//!
//! A token is the whole second of its grant wherever that number was not
//! issued yet, and the number after the last token wherever it was: the
//! slot remembers the last token it issued, also while it is free. So no
//! token is issued twice, whatever the clock does, and one grant lets one
//! lobby in.

use vstd::prelude::*;
use crate::clock::{Timestamp, CREATION_LOCK_TIMEOUT, NANOS_PER_SEC};
use crate::models::LobbyInfo;
use crate::registry::{after_insert, LobbyRegistry};
use crate::wall_clock::{read_clock, ClockError};

verus! {

/// What a client that found no lobby is told.
#[derive(Clone, Copy, Debug, PartialEq, Eq, Structural)]
pub enum Decision {
    /// Create a lobby, and register it with this token.
    Create(u64),
    /// Somebody else is creating one: ask again later.
    Wait,
}

/// Why a registration was turned down.
#[derive(Clone, Copy, Debug, PartialEq, Eq, Structural)]
pub enum PermitError {
    /// The token is not that of the permit in force: it is stale, made
    /// up, or a later grant has taken the permit over.
    InvalidToken,
    /// No permit is in force: none was granted, or it was used up.
    NoActivePermission,
}

/// Whether a permit is in force: none is, or one granted at `issued_at`
/// under `token`.
#[derive(Clone, Copy, Debug, PartialEq, Eq, Structural)]
pub enum PermitState {
    Idle,
    Granted { token: u64, issued_at: Timestamp },
}

/// A permit granted at `issued_at` has run out at `now`: the timeout, or
/// more, lies between the two.
pub open spec fn expired(issued_at: Timestamp, now: Timestamp) -> bool {
    now.total_nanos() - issued_at.total_nanos() >= CREATION_LOCK_TIMEOUT * NANOS_PER_SEC
}

/// The slot as the contracts model it: whether a permit is in force, and
/// the last token that was issued, if any was.
pub struct PermitSlot {
    pub state: PermitState,
    pub last_token: Option<u64>,
}

impl PermitSlot {
    /// The slot of a permit that was never granted.
    pub open spec fn fresh() -> PermitSlot {
        PermitSlot { state: PermitState::Idle, last_token: None }
    }

    /// Nobody holds the permit at `now`: none is in force, or the one in
    /// force has run out.
    pub open spec fn free_at(self, now: Timestamp) -> bool {
        match self.state {
            PermitState::Idle => true,
            PermitState::Granted { token, issued_at } => expired(issued_at, now),
        }
    }

    /// The token of a permit granted at `now`. It is the whole second of
    /// the reading where that is beyond the last token, and the number
    /// after the last token where it is not. No token is left once the
    /// last one is the greatest that a token can be.
    pub open spec fn next_token(self, now: Timestamp) -> Option<u64> {
        match self.last_token {
            None => Some(now.secs),
            Some(last) => if now.secs > last {
                Some(now.secs)
            } else if last < u64::MAX {
                Some((last + 1) as u64)
            } else {
                None
            },
        }
    }

    /// A client that asks at `now` gets the permit: nobody holds it, and
    /// a token is left.
    pub open spec fn grants_at(self, now: Timestamp) -> bool {
        self.free_at(now) && self.next_token(now) is Some
    }

    /// What a client that asks at `now` is told.
    pub open spec fn decision_at(self, now: Timestamp) -> Decision {
        if self.grants_at(now) {
            Decision::Create(self.next_token(now)->0)
        } else {
            Decision::Wait
        }
    }

    /// The slot after a client asked at `now`.
    pub open spec fn after_request(self, now: Timestamp) -> PermitSlot {
        if self.grants_at(now) {
            PermitSlot {
                state: PermitState::Granted { token: self.next_token(now)->0, issued_at: now },
                last_token: self.next_token(now),
            }
        } else {
            self
        }
    }

    /// A client that asked at `now` was told `decision` and left the
    /// slot as `after`.
    pub open spec fn request_served_at(
        self,
        now: Timestamp,
        decision: Decision,
        after: PermitSlot,
    ) -> bool {
        decision == self.decision_at(now) && after == self.after_request(now)
    }

    /// Whether `supplied_token` confirms the permit in the slot. How long
    /// ago the permit was granted plays no part.
    pub open spec fn verdict_on(self, supplied_token: u64) -> Result<(), PermitError> {
        match self.state {
            PermitState::Idle => Err(PermitError::NoActivePermission),
            PermitState::Granted { token, issued_at } => if supplied_token == token {
                Ok(())
            } else {
                Err(PermitError::InvalidToken)
            },
        }
    }

    /// The slot after a client tried to confirm with `supplied_token`.
    /// The last token stays on record.
    pub open spec fn after_confirm(self, supplied_token: u64) -> PermitSlot {
        if self.verdict_on(supplied_token) is Ok {
            PermitSlot { state: PermitState::Idle, last_token: self.last_token }
        } else {
            self
        }
    }

    /// The token of a permit in force is the last that was issued, and
    /// not less than the whole second of its grant.
    pub open spec fn wf(self) -> bool {
        match self.state {
            PermitState::Idle => true,
            PermitState::Granted { token, issued_at } => self.last_token == Some(token) && token
                >= issued_at.secs,
        }
    }

    /// Every token up to `token` is spoken for: the last token issued is
    /// `token` or a later one.
    pub open spec fn issued_up_to(self, token: u64) -> bool {
        self.last_token matches Some(last) && last >= token
    }

    /// `token` is used up: it was issued, and the permit in force, if one
    /// is, carries a later token.
    pub open spec fn has_spent(self, token: u64) -> bool {
        &&& self.issued_up_to(token)
        &&& self.state matches PermitState::Granted { token: held, .. } ==> held > token
    }
}

/// The slot after clients asked one after the other, at the instants
/// `times`, each in its turn.
pub open spec fn after_requests(slot: PermitSlot, times: Seq<Timestamp>) -> PermitSlot
    decreases times.len(),
{
    if times.len() == 0 {
        slot
    } else {
        after_requests(slot, times.drop_last()).after_request(times.last())
    }
}

/// What the client at position `i` is told, where clients ask one after
/// the other at the instants `times`.
pub open spec fn nth_decision(slot: PermitSlot, times: Seq<Timestamp>, i: int) -> Decision {
    after_requests(slot, times.take(i)).decision_at(times[i])
}

impl PermitError {
    /// The sentence that tells a client why its registration was turned
    /// down.
    pub fn message(&self) -> (text: String)
        ensures
            text@ == match *self {
                PermitError::InvalidToken => "Invalid creation token"@,
                PermitError::NoActivePermission => "No active creation permission"@,
            },
    {
        match self {
            PermitError::InvalidToken => "Invalid creation token".to_owned(),
            PermitError::NoActivePermission => "No active creation permission".to_owned(),
        }
    }
}

/// The single creation permit of a coordinator.
#[derive(Debug)]
pub struct CreationPermit {
    pub state: PermitState,
    pub last_token: Option<u64>,
}

impl View for CreationPermit {
    type V = PermitSlot;

    open spec fn view(&self) -> PermitSlot {
        PermitSlot { state: self.state, last_token: self.last_token }
    }
}

impl CreationPermit {
    /// A permit that nobody holds and that was never granted.
    pub fn new() -> (permit: CreationPermit)
        ensures
            permit@ == PermitSlot::fresh(),
            permit@.wf(),
    {
        CreationPermit { state: PermitState::Idle, last_token: None }
    }

    /// Whether nobody holds the permit at `now`.
    pub fn free_at(&self, now: Timestamp) -> (free: bool)
        ensures
            free == self@.free_at(now),
    {
        match self.state {
            PermitState::Idle => true,
            PermitState::Granted { token, issued_at } => now.is_at_least_secs_after(
                &issued_at,
                CREATION_LOCK_TIMEOUT,
            ),
        }
    }

    /// The token of a permit granted at `now`, or nothing where no token
    /// is left.
    pub fn next_token(&self, now: Timestamp) -> (token: Option<u64>)
        ensures
            token == self@.next_token(now),
    {
        match self.last_token {
            None => Some(now.secs),
            Some(last) => if now.secs > last {
                Some(now.secs)
            } else if last < u64::MAX {
                Some(last + 1)
            } else {
                None
            },
        }
    }

    /// Whether a client that asks at `now` gets the permit.
    pub fn grants_at(&self, now: Timestamp) -> (granted: bool)
        ensures
            granted == self@.grants_at(now),
    {
        self.free_at(now) && self.next_token(now).is_some()
    }

    /// Asks for the permit at `now`. Where nobody holds the permit, the
    /// caller gets it under a token that was never issued before and is
    /// told to create a lobby. Where a permit is in force, or no token is
    /// left, the slot stays as it is and the caller is told to wait.
    pub fn request_permit(&mut self, now: Timestamp) -> (decision: Decision)
        ensures
            decision == old(self)@.decision_at(now),
            final(self)@ == old(self)@.after_request(now),
            decision matches Decision::Create(token) ==> {
                &&& final(self)@.state == (PermitState::Granted { token, issued_at: now })
                &&& final(self)@.last_token == Some(token)
                &&& forall|earlier: u64| #[trigger]
                    old(self)@.issued_up_to(earlier) ==> token > earlier
            },
            old(self)@.wf() ==> final(self)@.wf(),
    {
        if !self.free_at(now) {
            return Decision::Wait;
        }
        match self.next_token(now) {
            Some(token) => {
                self.state = PermitState::Granted { token, issued_at: now };
                self.last_token = Some(token);
                Decision::Create(token)
            },
            None => Decision::Wait,
        }
    }

    /// Asks for the permit at the instant that the system clock shows:
    /// the clock is read, and the request is served as `request_permit`
    /// serves it at that reading, whatever the reading is. Where the clock
    /// gives no reading, the request fails and the slot stays as it is.
    pub fn request_permit_now(&mut self) -> (decision: Result<Decision, ClockError>)
        ensures
            match decision {
                Ok(d) => exists|now: Timestamp|
                    now.wf() && #[trigger] old(self)@.request_served_at(now, d, final(self)@),
                Err(_) => final(self)@ == old(self)@,
            },
            old(self)@.wf() ==> final(self)@.wf(),
    {
        match read_clock() {
            Ok(now) => {
                let decision = self.request_permit(now);
                assert(old(self)@.request_served_at(now, decision, self@));
                Ok(decision)
            },
            Err(e) => Err(e),
        }
    }

    /// Whether `supplied_token` confirms the permit in force.
    pub fn check_token(&self, supplied_token: u64) -> (verdict: Result<(), PermitError>)
        ensures
            verdict == self@.verdict_on(supplied_token),
    {
        match self.state {
            PermitState::Idle => Err(PermitError::NoActivePermission),
            PermitState::Granted { token, issued_at } => if supplied_token == token {
                Ok(())
            } else {
                Err(PermitError::InvalidToken)
            },
        }
    }

    /// Uses the permit up for `record`. With the token of the permit in
    /// force, `record` goes into `registry` and nobody holds the permit
    /// any more; the token stays on record as the last one issued. With
    /// any other token, or with no permit in force, the call fails and
    /// leaves the slot and the registry as they were.
    pub fn confirm_permit(
        &mut self,
        supplied_token: u64,
        record: LobbyInfo,
        registry: &mut LobbyRegistry,
    ) -> (verdict: Result<(), PermitError>)
        ensures
            verdict == old(self)@.verdict_on(supplied_token),
            final(self)@ == old(self)@.after_confirm(supplied_token),
            final(registry)@ == if verdict is Ok {
                after_insert(old(registry)@, record@)
            } else {
                old(registry)@
            },
            old(self)@.wf() ==> final(self)@.wf(),
            old(registry).wf() ==> final(registry).wf(),
    {
        let verdict = self.check_token(supplied_token);
        if verdict.is_ok() {
            registry.insert(record);
            self.state = PermitState::Idle;
        }
        verdict
    }
}

} // verus!
