//! The revocation store: one live marker per subject, each with a
//! time-to-live. A subject has an active session exactly while its marker is
//! live; login writes the marker, logout deletes it, renewal refreshes its
//! time-to-live, and markers lapse on their own when it runs out.
use vstd::prelude::*;

use std::collections::HashMap;

use crate::error::AppError;

verus! {

broadcast use vstd::std_specs::hash::group_hash_axioms;

/// A live session as the revocation store holds it: the marker stored for
/// the subject and the seconds it has left.
pub struct Session {
    pub marker: Seq<char>,
    pub ttl: nat,
}

/// The capability that the session core needs of a revocation store: keyed
/// set with expiry, get, delete, and expiry refresh. Every call either
/// answers, exactly when the store is reachable, or fails with
/// `BackendError` and changes nothing.
pub trait AuthRepository {
    /// The subjects that have a live session, each with its session. Each
    /// store verified here gives its own definition; for any other it is left
    /// unspecified.
    open spec fn sessions(&self) -> Map<u128, Session> {
        arbitrary()
    }

    /// Whether the store answers (left unspecified as above).
    open spec fn online(&self) -> bool {
        arbitrary()
    }

    /// Stores `token` as the subject's live marker for `seconds` seconds,
    /// replacing any earlier marker, and hands the token back.
    fn create(&mut self, id: u128, token: &str, seconds: usize) -> (r: Result<String, AppError>)
        requires
            seconds > 0,
        ensures
            final(self).online() == old(self).online(),
            r is Ok <==> old(self).online(),
            r is Ok ==> r->Ok_0@ == token@ && final(self).sessions() == old(self).sessions().insert(
                id,
                Session { marker: token@, ttl: seconds as nat },
            ),
            r is Err ==> r->Err_0 == AppError::BackendError && final(self).sessions() == old(
                self,
            ).sessions(),
    ;

    /// Deletes the subject's marker; deleting one that is not there succeeds.
    fn expire(&mut self, id: u128) -> (r: Result<(), AppError>)
        ensures
            final(self).online() == old(self).online(),
            r is Ok <==> old(self).online(),
            r is Ok ==> final(self).sessions() == old(self).sessions().remove(id),
            r is Err ==> r->Err_0 == AppError::BackendError && final(self).sessions() == old(
                self,
            ).sessions(),
    ;

    /// Gives the subject's live marker `seconds` seconds from now, keeping its
    /// value; where the subject has no live marker nothing changes.
    fn renew(&mut self, id: u128, seconds: usize) -> (r: Result<(), AppError>)
        requires
            seconds > 0,
        ensures
            final(self).online() == old(self).online(),
            r is Ok <==> old(self).online(),
            r is Ok ==> final(self).sessions() == refreshed(old(self).sessions(), id, seconds as nat),
            r is Err ==> r->Err_0 == AppError::BackendError && final(self).sessions() == old(
                self,
            ).sessions(),
    ;

    /// The subject's live marker, if it has one.
    fn get(&self, id: u128) -> (r: Result<Option<String>, AppError>)
        ensures
            r is Ok <==> self.online(),
            r is Ok ==> (r->Ok_0 is Some <==> self.sessions().contains_key(id)),
            r is Ok && r->Ok_0 is Some ==> r->Ok_0->0@ == self.sessions()[id].marker,
            r is Err ==> r->Err_0 == AppError::BackendError,
    ;
}

/// The sessions after the subject's marker, if live, is given `seconds`
/// seconds more from now.
pub open spec fn refreshed(sessions: Map<u128, Session>, id: u128, seconds: nat) -> Map<
    u128,
    Session,
> {
    if sessions.contains_key(id) {
        sessions.insert(id, Session { marker: sessions[id].marker, ttl: seconds })
    } else {
        sessions
    }
}

/// A revocation store held in memory, with its own clock, for tests and
/// single-process deployments. It can be switched off line to stand for an
/// unreachable store.
pub struct MemoryAuthRepository {
    /// Marker and expiry instant of each subject; entries whose instant has
    /// passed are dead.
    entries: HashMap<u128, (String, u128)>,
    now: u64,
    online: bool,
}

impl MemoryAuthRepository {
    /// The store's clock, in seconds.
    pub closed spec fn clock(&self) -> nat {
        self.now as nat
    }

    /// An empty store, reachable, with its clock at zero.
    pub fn new() -> (r: Self)
        ensures
            r.sessions() == Map::<u128, Session>::empty(),
            r.online(),
            r.clock() == 0,
    {
        let r = MemoryAuthRepository { entries: HashMap::new(), now: 0, online: true };
        assert(r.sessions() =~= Map::<u128, Session>::empty());
        r
    }

    /// Makes the store reachable or unreachable.
    pub fn set_online(&mut self, online: bool)
        ensures
            final(self).online() == online,
            final(self).sessions() == old(self).sessions(),
            final(self).clock() == old(self).clock(),
    {
        self.online = online;
    }

    /// Lets `seconds` seconds pass (the clock stops at its largest value):
    /// each marker loses that much of its time-to-live, and those that run
    /// out lapse.
    pub fn advance(&mut self, seconds: u64)
        ensures
            final(self).online() == old(self).online(),
            final(self).clock() == if old(self).clock() + seconds <= u64::MAX {
                old(self).clock() + seconds
            } else {
                u64::MAX as int
            },
            forall|id: u128| #[trigger]
                final(self).sessions().contains_key(id) <==> old(self).sessions().contains_key(id)
                    && old(self).sessions()[id].ttl > final(self).clock() - old(self).clock(),
            forall|id: u128| #[trigger]
                final(self).sessions().contains_key(id) ==> final(self).sessions()[id] == (Session {
                    marker: old(self).sessions()[id].marker,
                    ttl: (old(self).sessions()[id].ttl - (final(self).clock() - old(self).clock())) as nat,
                }),
    {
        if seconds > u64::MAX - self.now {
            self.now = u64::MAX;
        } else {
            self.now = self.now + seconds;
        }
    }

    /// The seconds that the subject's live marker has left, if it has one.
    pub fn ttl(&self, id: u128) -> (r: Option<u128>)
        ensures
            match r {
                Some(t) => self.sessions().contains_key(id) && self.sessions()[id].ttl == t,
                None => !self.sessions().contains_key(id),
            },
    {
        match self.entries.get(&id) {
            Some(entry) => {
                if entry.1 > self.now as u128 {
                    Some(entry.1 - self.now as u128)
                } else {
                    None
                }
            },
            None => None,
        }
    }
}

impl AuthRepository for MemoryAuthRepository {
    closed spec fn sessions(&self) -> Map<u128, Session> {
        Map::new(
            |id: u128| self.entries@.contains_key(id) && self.entries@[id].1 > self.now as u128,
            |id: u128|
                Session {
                    marker: self.entries@[id].0@,
                    ttl: (self.entries@[id].1 - self.now) as nat,
                },
        )
    }

    closed spec fn online(&self) -> bool {
        self.online
    }

    fn create(&mut self, id: u128, token: &str, seconds: usize) -> (r: Result<String, AppError>) {
        if !self.online {
            return Err(AppError::BackendError);
        }
        let expires = self.now as u128 + seconds as u128;
        self.entries.insert(id, (token.to_owned(), expires));
        assert(self.sessions() =~= old(self).sessions().insert(
            id,
            Session { marker: token@, ttl: seconds as nat },
        ));
        Ok(token.to_owned())
    }

    fn expire(&mut self, id: u128) -> (r: Result<(), AppError>) {
        if !self.online {
            return Err(AppError::BackendError);
        }
        self.entries.remove(&id);
        assert(self.sessions() =~= old(self).sessions().remove(id));
        Ok(())
    }

    fn renew(&mut self, id: u128, seconds: usize) -> (r: Result<(), AppError>) {
        if !self.online {
            return Err(AppError::BackendError);
        }
        let marker = match self.entries.get(&id) {
            Some(entry) => {
                if entry.1 > self.now as u128 {
                    Some(entry.0.clone())
                } else {
                    None
                }
            },
            None => None,
        };
        match marker {
            Some(m) => {
                let expires = self.now as u128 + seconds as u128;
                self.entries.insert(id, (m, expires));
            },
            None => {},
        }
        assert(self.sessions() =~= refreshed(old(self).sessions(), id, seconds as nat));
        Ok(())
    }

    fn get(&self, id: u128) -> (r: Result<Option<String>, AppError>) {
        if !self.online {
            return Err(AppError::BackendError);
        }
        match self.entries.get(&id) {
            Some(entry) => {
                if entry.1 > self.now as u128 {
                    Ok(Some(entry.0.clone()))
                } else {
                    Ok(None)
                }
            },
            None => Ok(None),
        }
    }
}

} // verus!
