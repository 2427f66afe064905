//! Known users of the bot, and the manager that materializes the user
//! behind every inbound command.
//!
//! The manager holds the directory's logical state; reading rows from
//! and flushing rows to the persistent store is the surrounding
//! program's part, which hands loaded rows in as plain values.

use vstd::prelude::*;

verus! {

/// A 64-bit client identifier.
#[derive(PartialEq, Eq, Structural, Clone, Copy, Debug)]
pub struct ClientID(pub i64);

impl ClientID {
    pub fn id(&self) -> (r: i64)
        ensures
            r == self.0,
    {
        self.0
    }

    pub fn from(value: i64) -> (r: ClientID)
        ensures
            r.0 == value,
    {
        ClientID(value)
    }
}

/// A registered user: identifier, optional username, and whether the
/// account is a human user rather than a bot.
pub struct BotClient {
    pub id: ClientID,
    pub username: Option<String>,
    pub is_user: bool,
}

impl BotClient {
    pub fn id(&self) -> (r: i64)
        ensures
            r == self.id.0,
    {
        self.id.0
    }
}

impl Clone for BotClient {
    fn clone(&self) -> (r: Self)
        ensures
            r.id == self.id,
            r.username == self.username,
            r.is_user == self.is_user,
    {
        let username = match &self.username {
            Option::Some(u) => Option::Some(u.clone()),
            Option::None => Option::None,
        };
        BotClient { id: self.id, username, is_user: self.is_user }
    }
}

impl PartialEq for BotClient {
    /// Clients compare by identifier alone.
    fn eq(&self, other: &Self) -> (r: bool) {
        self.id.0 == other.id.0
    }
}

impl vstd::std_specs::cmp::PartialEqSpecImpl for BotClient {
    open spec fn obeys_eq_spec() -> bool {
        true
    }

    open spec fn eq_spec(&self, other: &Self) -> bool {
        self.id == other.id
    }
}

/// No identifier twice.
pub open spec fn distinct_clients(s: Seq<BotClient>) -> bool {
    forall|i: int, j: int| 0 <= i < j < s.len() ==> (#[trigger] s[i].id) != (#[trigger] s[j].id)
}

/// Whether some client with this identifier is present.
pub open spec fn has_client(s: Seq<BotClient>, id: ClientID) -> bool {
    exists|i: int| 0 <= i < s.len() && (#[trigger] s[i].id) == id
}

/// Directory of registered users.
pub struct ClientManager {
    pub existing: Vec<BotClient>,
}

impl ClientManager {
    pub open spec fn wf(self) -> bool {
        distinct_clients(self.existing@)
    }

    /// A manager over the rows loaded from the persistent directory.
    pub fn instance(loaded: Vec<BotClient>) -> (r: ClientManager)
        requires
            distinct_clients(loaded@),
        ensures
            r.wf(),
            r.existing@ == loaded@,
    {
        ClientManager { existing: loaded }
    }

    fn position_of(&self, user: ClientID) -> (r: Option<usize>)
        ensures
            match r {
                Option::Some(i) => i < self.existing@.len() && self.existing@[i as int].id == user,
                Option::None => !has_client(self.existing@, user),
            },
    {
        let mut i: usize = 0;
        while i < self.existing.len()
            invariant
                i <= self.existing@.len(),
                forall|j: int| 0 <= j < i ==> (#[trigger] self.existing@[j].id) != user,
            decreases self.existing@.len() - i,
        {
            if self.existing[i].id.0 == user.0 {
                return Option::Some(i);
            }
            i += 1;
        }
        Option::None
    }

    /// Return the cached record for this user, or cache the row the
    /// persistent directory yielded, or nothing when the user is
    /// unknown there too.
    pub fn get(&mut self, user: ClientID, fetched: Option<BotClient>) -> (r: Option<BotClient>)
        requires
            old(self).wf(),
            fetched is Some ==> fetched.unwrap().id == user,
        ensures
            final(self).wf(),
            has_client(old(self).existing@, user) ==> final(self).existing@ == old(self).existing@
                && (exists|i: int|
                0 <= i < old(self).existing@.len() && (#[trigger] old(self).existing@[i]).id
                    == user && r == Option::Some(old(self).existing@[i])),
            !has_client(old(self).existing@, user) ==> match fetched {
                Option::Some(c) => final(self).existing@ == old(self).existing@.push(c) && r
                    == Option::Some(c),
                Option::None => final(self).existing@ == old(self).existing@ && r is None,
            },
            r is Some <==> has_client(old(self).existing@, user) || fetched is Some,
    {
        match self.position_of(user) {
            Option::Some(i) => {
                let found = self.existing[i].clone();
                proof {
                    assert(found == self.existing@[i as int]);
                }
                Option::Some(found)
            },
            Option::None => match fetched {
                Option::Some(c) => {
                    let cached = c.clone();
                    proof {
                        assert(cached == c);
                    }
                    self.existing.push(c);
                    proof {
                        assert(self.existing@[self.existing@.len() - 1].id == user);
                    }
                    Option::Some(cached)
                },
                Option::None => Option::None,
            },
        }
    }

    /// Register a user. Registering an identifier that is already known
    /// is absorbed — the unique violation is a warning — and hands back
    /// the existing record. The flag says whether a fresh row must be
    /// flushed to the persistent directory.
    pub fn add_new_user(&mut self, id: ClientID, username: Option<String>, is_user: bool) -> (r: (
        BotClient,
        bool,
    ))
        requires
            old(self).wf(),
        ensures
            final(self).wf(),
            r.0.id == id,
            r.1 == !has_client(old(self).existing@, id),
            has_client(old(self).existing@, id) ==> final(self).existing@ == old(self).existing@
                && (exists|i: int|
                0 <= i < old(self).existing@.len() && (#[trigger] old(self).existing@[i]).id == id
                    && r.0 == old(self).existing@[i]),
            !has_client(old(self).existing@, id) ==> final(self).existing@ == old(
                self,
            ).existing@.push(BotClient { id, username, is_user }) && r.0.username == username
                && r.0.is_user == is_user,
    {
        match self.position_of(id) {
            Option::Some(i) => {
                let found = self.existing[i].clone();
                proof {
                    assert(found == self.existing@[i as int]);
                }
                (found, false)
            },
            Option::None => {
                let cli = BotClient { id, username, is_user };
                let cached = cli.clone();
                self.existing.push(cli);
                proof {
                    assert(self.existing@[self.existing@.len() - 1].id == id);
                }
                (cached, true)
            },
        }
    }

    /// Register a user, dropping the handle. Same absorption of the
    /// unique violation as `add_new_user`.
    pub fn add(&mut self, new_user: BotClient) -> (r: bool)
        requires
            old(self).wf(),
        ensures
            final(self).wf(),
            r == !has_client(old(self).existing@, new_user.id),
            has_client(old(self).existing@, new_user.id) ==> final(self).existing@ == old(
                self,
            ).existing@,
            !has_client(old(self).existing@, new_user.id) ==> final(self).existing@ == old(
                self,
            ).existing@.push(new_user),
    {
        match self.position_of(new_user.id) {
            Option::Some(_) => false,
            Option::None => {
                self.existing.push(new_user);
                true
            },
        }
    }
}

} // verus!
