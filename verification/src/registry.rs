//! The lobby registry: the records of every lobby that was registered,
//! kept in the order in which their identifiers first came in.

use vstd::prelude::*;
use crate::models::{Criteria, LobbyInfo, LobbyRecord, MatchCriteria};

verus! {

/// No two records share a lobby identifier.
pub open spec fn distinct_ids(s: Seq<LobbyRecord>) -> bool {
    forall|i: int, j: int| 0 <= i < j < s.len() ==> s[i].lobby_id != s[j].lobby_id
}

/// The position of the first record at or after `from` that `c` admits;
/// the length of `s` where there is none.
pub open spec fn first_admitted_from(s: Seq<LobbyRecord>, c: Criteria, from: int) -> int
    decreases s.len() - from,
{
    if from < 0 || from >= s.len() {
        s.len() as int
    } else if c.admits(s[from]) {
        from
    } else {
        first_admitted_from(s, c, from + 1)
    }
}

/// The position of the record that a client with criteria `c` is matched
/// to: the first that `c` admits. The length of `s` where `c` admits none.
pub open spec fn first_admitted(s: Seq<LobbyRecord>, c: Criteria) -> int {
    first_admitted_from(s, c, 0)
}

/// The records after a client with criteria `c` asked for a match: the
/// record it was matched to counts one player more, the others stand.
pub open spec fn after_claim(s: Seq<LobbyRecord>, c: Criteria) -> Seq<LobbyRecord> {
    let i = first_admitted(s, c);
    if i < s.len() {
        s.update(i, s[i].joined())
    } else {
        s
    }
}

/// Identifier and join code of the lobby that a client with criteria `c`
/// is matched to, or nothing where `c` admits no record.
pub open spec fn claim_of(s: Seq<LobbyRecord>, c: Criteria) -> Option<(Seq<char>, Seq<char>)> {
    let i = first_admitted(s, c);
    if i < s.len() {
        Some((s[i].lobby_id, s[i].join_code))
    } else {
        None
    }
}

/// The position of the first record at or after `from` whose identifier
/// is `id`; the length of `s` where there is none.
pub open spec fn position_of_id_from(s: Seq<LobbyRecord>, id: Seq<char>, from: int) -> int
    decreases s.len() - from,
{
    if from < 0 || from >= s.len() {
        s.len() as int
    } else if s[from].lobby_id == id {
        from
    } else {
        position_of_id_from(s, id, from + 1)
    }
}

/// The position of the record kept under `id`; the length of `s` where
/// there is none.
pub open spec fn position_of_id(s: Seq<LobbyRecord>, id: Seq<char>) -> int {
    position_of_id_from(s, id, 0)
}

/// The registry keeps a record under `id`.
pub open spec fn has_lobby(s: Seq<LobbyRecord>, id: Seq<char>) -> bool {
    position_of_id(s, id) < s.len()
}

/// The records after `r` was inserted: `r` takes the place of the record
/// kept under its identifier, or stands last where the identifier is new.
pub open spec fn after_insert(s: Seq<LobbyRecord>, r: LobbyRecord) -> Seq<LobbyRecord> {
    let i = position_of_id(s, r.lobby_id);
    if i < s.len() {
        s.update(i, r)
    } else {
        s.push(r)
    }
}

/// What a claim hands to the client, as characters.
pub open spec fn claim_text(claim: Option<(String, String)>) -> Option<(Seq<char>, Seq<char>)> {
    match claim {
        Some((id, code)) => Some((id@, code@)),
        None => None,
    }
}

/// `first_admitted_from` names the least position from `from` on that `c`
/// admits.
pub proof fn lemma_first_admitted_from(s: Seq<LobbyRecord>, c: Criteria, from: int)
    requires
        0 <= from <= s.len(),
    ensures
        from <= first_admitted_from(s, c, from) <= s.len(),
        first_admitted_from(s, c, from) < s.len() ==> c.admits(s[first_admitted_from(s, c, from)]),
        forall|j: int| from <= j < first_admitted_from(s, c, from) ==> !c.admits(#[trigger] s[j]),
    decreases s.len() - from,
{
    if from < s.len() && !c.admits(s[from]) {
        lemma_first_admitted_from(s, c, from + 1);
    }
}

/// `position_of_id_from` names the least position from `from` on whose
/// record is kept under `id`.
pub proof fn lemma_position_of_id_from(s: Seq<LobbyRecord>, id: Seq<char>, from: int)
    requires
        0 <= from <= s.len(),
    ensures
        from <= position_of_id_from(s, id, from) <= s.len(),
        position_of_id_from(s, id, from) < s.len() ==> s[position_of_id_from(s, id, from)].lobby_id
            == id,
        forall|j: int|
            from <= j < position_of_id_from(s, id, from) ==> (#[trigger] s[j]).lobby_id != id,
    decreases s.len() - from,
{
    if from < s.len() && s[from].lobby_id != id {
        lemma_position_of_id_from(s, id, from + 1);
    }
}

/// The lobbies that were registered.
#[derive(Debug)]
pub struct LobbyRegistry {
    lobbies: Vec<LobbyInfo>,
}

impl View for LobbyRegistry {
    type V = Seq<LobbyRecord>;

    closed spec fn view(&self) -> Seq<LobbyRecord> {
        Seq::new(self.lobbies@.len(), |i: int| self.lobbies@[i]@)
    }
}

impl LobbyRegistry {
    /// Each identifier stands for one lobby.
    pub open spec fn wf(&self) -> bool {
        distinct_ids(self@)
    }

    /// A registry without lobbies.
    pub fn new() -> (r: LobbyRegistry)
        ensures
            r@ == Seq::<LobbyRecord>::empty(),
            r.wf(),
    {
        LobbyRegistry { lobbies: Vec::new() }
    }

    /// The number of lobbies.
    pub fn count(&self) -> (n: usize)
        ensures
            n == self@.len(),
    {
        self.lobbies.len()
    }

    /// Matches a client to the first lobby that its criteria admit, counts
    /// the client among that lobby's players and returns the lobby's
    /// identifier and join code. Where the criteria admit no lobby the
    /// registry stays as it is and the client gets nothing.
    pub fn find_and_claim(&mut self, criteria: &MatchCriteria) -> (claim: Option<(String, String)>)
        ensures
            final(self)@ == after_claim(old(self)@, criteria@),
            claim_text(claim) == claim_of(old(self)@, criteria@),
            old(self).wf() ==> final(self).wf(),
    {
        let mut i: usize = 0;
        while i < self.lobbies.len()
            invariant
                i <= self.lobbies.len(),
                self@ == old(self)@,
                first_admitted(self@, criteria@) == first_admitted_from(self@, criteria@, i as int),
            decreases self.lobbies.len() - i,
        {
            if criteria.admits(&self.lobbies[i]) {
                let id = self.lobbies[i].lobby_id.clone();
                let code = self.lobbies[i].join_code.clone();
                self.lobbies[i].player_count = self.lobbies[i].player_count + 1;
                return Some((id, code));
            }
            i += 1;
        }
        None
    }

    /// Puts `record` under its identifier: in place of the record that was
    /// kept under it, or as a further lobby where the identifier is new.
    pub fn insert(&mut self, record: LobbyInfo)
        ensures
            final(self)@ == after_insert(old(self)@, record@),
            old(self).wf() ==> final(self).wf(),
    {
        let i: usize = self.position_of(&record.lobby_id);
        proof {
            lemma_position_of_id_from(self@, record@.lobby_id, 0);
        }
        if i < self.lobbies.len() {
            self.lobbies[i] = record;
        } else {
            self.lobbies.push(record);
        }
    }

    /// The record kept under `lobby_id`, if there is one.
    pub fn get(&self, lobby_id: &String) -> (found: Option<&LobbyInfo>)
        ensures
            found is Some <==> has_lobby(self@, lobby_id@),
            found matches Some(lobby) ==> lobby@ == self@[position_of_id(self@, lobby_id@)],
    {
        let i: usize = self.position_of(lobby_id);
        if i < self.lobbies.len() {
            Some(&self.lobbies[i])
        } else {
            None
        }
    }

    /// The position of the record kept under `lobby_id`, or the number of
    /// lobbies where there is none.
    fn position_of(&self, lobby_id: &String) -> (i: usize)
        ensures
            i == position_of_id(self@, lobby_id@),
            i <= self.lobbies.len(),
    {
        let mut i: usize = 0;
        while i < self.lobbies.len()
            invariant
                i <= self.lobbies.len(),
                position_of_id(self@, lobby_id@) == position_of_id_from(self@, lobby_id@, i as int),
            decreases self.lobbies.len() - i,
        {
            if self.lobbies[i].lobby_id == *lobby_id {
                return i;
            }
            i += 1;
        }
        i
    }
}

} // verus!
