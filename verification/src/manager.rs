use vstd::prelude::*;

use crate::players::{PlayerMap, added, has_id, lemma_position_of, lookup, removed};
use crate::text::str_eq;
use vstd::string::StringExecFns;

verus! {

/// Why a lobby manager refused a request. A failure of whatever stores the
/// lobbies is carried as its message.
#[derive(Debug)]
pub enum ManagerError {
    EntryNotFound(String),
    Dependency(String),
    EntryIDConflict(String),
}

/// The text shown for a manager error.
pub open spec fn manager_error_message(e: ManagerError) -> Seq<char> {
    match e {
        ManagerError::EntryNotFound(id) => "Requested entry '"@ + id@ + "' not found "@,
        ManagerError::Dependency(msg) => msg@,
        ManagerError::EntryIDConflict(id) => "Entry ID: '"@ + id@ + "' already exists"@,
    }
}

impl ManagerError {
    /// The text shown for this error.
    pub fn message(&self) -> (r: String)
        ensures
            r@ == manager_error_message(*self),
    {
        match self {
            ManagerError::EntryNotFound(id) => {
                let mut s = String::from_str("Requested entry '");
                s.append(id.as_str());
                s.append("' not found ");
                s
            },
            ManagerError::Dependency(msg) => msg.clone(),
            ManagerError::EntryIDConflict(id) => {
                let mut s = String::from_str("Entry ID: '");
                s.append(id.as_str());
                s.append("' already exists");
                s
            },
        }
    }
}

/// Something a manager holds: a lobby under an id.
pub trait ManagerEntry {
    type Lobby;

    spec fn id_view(&self) -> Seq<char>;

    fn id(&self) -> (r: &str)
        ensures
            r@ == self.id_view(),
    ;

    fn lobby(&self) -> &Self::Lobby;
}

/// A lobby guarded by a password, under an id. Both are fixed at creation.
#[derive(Debug)]
pub struct PasswordProtectedLobby<L> {
    id: String,
    password: String,
    lobby: L,
}

impl<L> PasswordProtectedLobby<L> {
    pub closed spec fn password_view(&self) -> Seq<char> {
        self.password@
    }

    pub closed spec fn lobby_view(&self) -> L {
        self.lobby
    }

    pub fn new(id: String, password: String, lobby: L) -> (r: Self)
        ensures
            r.id_view() == id@,
            r.password_view() == password@,
            r.lobby_view() == lobby,
    {
        Self { id, password, lobby }
    }

    /// Whether `password` is this lobby's password.
    pub fn is_correct_password(&self, password: &str) -> (r: bool)
        ensures
            r == (self.password_view() == password@),
    {
        str_eq(self.password.as_str(), password)
    }
}

impl<L> ManagerEntry for PasswordProtectedLobby<L> {
    type Lobby = L;

    closed spec fn id_view(&self) -> Seq<char> {
        self.id@
    }

    fn id(&self) -> (r: &str) {
        self.id.as_str()
    }

    fn lobby(&self) -> (r: &L)
        ensures
            *r == self.lobby_view(),
    {
        &self.lobby
    }
}

/// A store of lobbies keyed by id.
pub trait Manager {
    type Entry;

    /// The entries, by id.
    spec fn entries(&self) -> Seq<(Seq<char>, Self::Entry)>;

    /// Whether the store is in a usable state (ids unique).
    spec fn inv(&self) -> bool;

    fn has(&self, id: &str) -> (r: Result<bool, ManagerError>)
        requires
            self.inv(),
        ensures
            r matches Ok(b) ==> b == has_id(self.entries(), id@),
    ;

    fn get(&self, id: &str) -> (r: Result<&Self::Entry, ManagerError>)
        requires
            self.inv(),
        ensures
            r matches Ok(e) ==> lookup(self.entries(), id@) == Some(*e),
            r matches Err(ManagerError::EntryNotFound(_)) ==> !has_id(self.entries(), id@),
    ;

    fn add(&mut self, id: &str, entry: Self::Entry) -> (r: Result<(), ManagerError>)
        requires
            old(self).inv(),
        ensures
            final(self).inv(),
            r is Ok ==> !has_id(old(self).entries(), id@) && final(self).entries() == old(
                self,
            ).entries().push((id@, entry)),
            r is Err ==> final(self).entries() == old(self).entries(),
            r matches Err(ManagerError::EntryIDConflict(_)) ==> has_id(old(self).entries(), id@),
    ;

    fn remove(&mut self, id: &str) -> (r: Result<Self::Entry, ManagerError>)
        requires
            old(self).inv(),
        ensures
            final(self).inv(),
            r matches Ok(e) ==> lookup(old(self).entries(), id@) == Some(e) && final(self).entries()
                == removed(old(self).entries(), id@),
            r is Err ==> final(self).entries() == old(self).entries(),
            r matches Err(ManagerError::EntryNotFound(_)) ==> !has_id(old(self).entries(), id@),
    ;

    fn len(&self) -> (r: Result<usize, ManagerError>)
        ensures
            r matches Ok(n) ==> n == self.entries().len(),
    ;
}

/// A manager of password-protected lobbies that a server can share between
/// its tasks.
pub trait ManagerGeneric<L>: Manager<Entry = PasswordProtectedLobby<L>> + Send + Sync + 'static {

}

impl<L, T: Manager<Entry = PasswordProtectedLobby<L>> + Send + Sync + 'static> ManagerGeneric<L> for T {

}

/// Lobbies kept in memory, keyed by id, in the order they were added.
#[derive(Debug)]
pub struct MapManager<E> {
    lobbies: PlayerMap<E>,
}

impl<E> View for MapManager<E> {
    type V = Seq<(Seq<char>, E)>;

    closed spec fn view(&self) -> Seq<(Seq<char>, E)> {
        self.lobbies@
    }
}

impl<E> MapManager<E> {
    /// Ids are unique.
    pub closed spec fn wf(&self) -> bool {
        self.lobbies.wf()
    }

    pub fn new() -> (r: Self)
        ensures
            r.wf(),
            r@ == Seq::<(Seq<char>, E)>::empty(),
    {
        Self { lobbies: PlayerMap::new() }
    }

    /// Whether a lobby is kept under `id`; never fails.
    pub fn has(&self, id: &str) -> (r: Result<bool, ManagerError>)
        requires
            self.wf(),
        ensures
            r == Ok::<bool, ManagerError>(has_id(self@, id@)),
    {
        Ok(self.lobbies.contains(id))
    }

    /// The lobby kept under `id`; an unknown id is refused.
    pub fn get(&self, id: &str) -> (r: Result<&E, ManagerError>)
        requires
            self.wf(),
        ensures
            lookup(self@, id@) matches Some(e) ==> r == Ok::<&E, ManagerError>(&e),
            lookup(self@, id@) is None ==> (r matches Err(ManagerError::EntryNotFound(s)) && s@
                == id@),
    {
        proof {
            lemma_position_of(self@, id@);
        }
        match self.lobbies.get(id) {
            Some(e) => Ok(e),
            None => Err(ManagerError::EntryNotFound(id.to_owned())),
        }
    }

    /// Adds `entry` under `id`; an id already in use is refused and nothing
    /// changes.
    pub fn add(&mut self, id: &str, entry: E) -> (r: Result<(), ManagerError>)
        requires
            old(self).wf(),
        ensures
            final(self).wf(),
            has_id(old(self)@, id@) ==> (r matches Err(ManagerError::EntryIDConflict(s)) && s@
                == id@) && final(self)@ == old(self)@,
            !has_id(old(self)@, id@) ==> r is Ok && final(self)@ == old(self)@.push((id@, entry)),
    {
        if self.lobbies.contains(id) {
            return Err(ManagerError::EntryIDConflict(id.to_owned()));
        }
        self.lobbies.add(id.to_owned(), entry);
        Ok(())
    }

    /// Takes the lobby kept under `id` out; an unknown id is refused.
    pub fn remove(&mut self, id: &str) -> (r: Result<E, ManagerError>)
        requires
            old(self).wf(),
        ensures
            final(self).wf(),
            final(self)@ == removed(old(self)@, id@),
            lookup(old(self)@, id@) matches Some(e) ==> r == Ok::<E, ManagerError>(e),
            lookup(old(self)@, id@) is None ==> (r matches Err(ManagerError::EntryNotFound(s)) && s@
                == id@),
    {
        match self.lobbies.remove(id) {
            Some(e) => Ok(e),
            None => Err(ManagerError::EntryNotFound(id.to_owned())),
        }
    }

    /// How many lobbies are kept; never fails.
    pub fn len(&self) -> (r: Result<usize, ManagerError>)
        ensures
            (r matches Ok(n) && n == self@.len()),
    {
        Ok(self.lobbies.len())
    }

    /// Whether no lobby is kept; never fails.
    pub fn is_empty(&self) -> (r: Result<bool, ManagerError>)
        ensures
            r == Ok::<bool, ManagerError>(self@.len() == 0),
    {
        Ok(self.lobbies.is_empty())
    }
}

impl<E> Manager for MapManager<E> {
    type Entry = E;

    closed spec fn entries(&self) -> Seq<(Seq<char>, E)> {
        self@
    }

    closed spec fn inv(&self) -> bool {
        self.wf()
    }

    fn has(&self, id: &str) -> (r: Result<bool, ManagerError>)
        ensures
            r == Ok::<bool, ManagerError>(has_id(self@, id@)),
    {
        MapManager::has(self, id)
    }

    fn get(&self, id: &str) -> (r: Result<&E, ManagerError>) {
        proof {
            lemma_position_of(self@, id@);
        }
        MapManager::get(self, id)
    }

    fn add(&mut self, id: &str, entry: E) -> (r: Result<(), ManagerError>) {
        MapManager::add(self, id, entry)
    }

    fn remove(&mut self, id: &str) -> (r: Result<E, ManagerError>) {
        proof {
            lemma_position_of(self@, id@);
        }
        MapManager::remove(self, id)
    }

    fn len(&self) -> (r: Result<usize, ManagerError>)
        ensures
            r matches Ok(n) && n == self@.len(),
    {
        MapManager::len(self)
    }
}

/// The failure a `TestManager` produces on purpose.
#[derive(Debug)]
pub enum TestManagerError {
    TestInducedError,
}

impl TestManagerError {
    /// The text shown for this error.
    pub fn message(&self) -> (r: String)
        ensures
            r@ == "test induced failure"@,
    {
        "test induced failure".to_owned()
    }
}

/// The error a `TestManager` gives back when it fails on purpose.
pub open spec fn induced_failure(e: ManagerError) -> bool {
    e matches ManagerError::Dependency(msg) && msg@ == "test induced failure"@
}

fn induced() -> (r: ManagerError)
    ensures
        induced_failure(r),
{
    ManagerError::Dependency(TestManagerError::TestInducedError.message())
}

/// A `MapManager` that fails on purpose: once it has served
/// `fail_after_n` operations, every further operation fails until it is
/// reset. A new one fails at once (both counts start at zero).
#[derive(Debug)]
pub struct TestManager<E> {
    manager: MapManager<E>,
    valid_operation_count: usize,
    fail_after_n: usize,
}

impl<E> TestManager<E> {
    pub closed spec fn entries(&self) -> Seq<(Seq<char>, E)> {
        self.manager@
    }

    /// How many operations it has served since the last reset.
    pub closed spec fn served(&self) -> usize {
        self.valid_operation_count
    }

    /// After how many operations it starts to fail.
    pub closed spec fn limit(&self) -> usize {
        self.fail_after_n
    }

    pub closed spec fn wf(&self) -> bool {
        self.manager.wf()
    }

    /// Whether the next operation fails.
    pub open spec fn failing(&self) -> bool {
        self.served() >= self.limit()
    }

    pub fn new() -> (r: Self)
        ensures
            r.wf(),
            r.entries() == Seq::<(Seq<char>, E)>::empty(),
            r.served() == 0,
            r.limit() == 0,
    {
        Self { manager: MapManager::new(), valid_operation_count: 0, fail_after_n: 0 }
    }

    /// Whether the next operation fails.
    pub fn fail(&self) -> (r: bool)
        ensures
            r == self.failing(),
    {
        self.valid_operation_count >= self.fail_after_n
    }

    pub fn set_fail_after_n(&mut self, n: usize)
        ensures
            final(self).limit() == n,
            final(self).served() == old(self).served(),
            final(self).entries() == old(self).entries(),
            final(self).wf() == old(self).wf(),
    {
        self.fail_after_n = n;
    }

    /// Makes every operation fail from now on.
    pub fn set_always_fail(&mut self)
        ensures
            final(self).served() == old(self).limit(),
            final(self).limit() == old(self).limit(),
            final(self).entries() == old(self).entries(),
            final(self).wf() == old(self).wf(),
    {
        self.valid_operation_count = self.fail_after_n;
    }

    /// Forgets the operations served so far.
    pub fn reset(&mut self)
        ensures
            final(self).served() == 0,
            final(self).limit() == old(self).limit(),
            final(self).entries() == old(self).entries(),
            final(self).wf() == old(self).wf(),
    {
        self.valid_operation_count = 0;
    }

    /// Makes operations succeed (for `usize::MAX` of them).
    pub fn set_never_fail(&mut self)
        ensures
            final(self).served() == 0,
            final(self).limit() == usize::MAX,
            final(self).entries() == old(self).entries(),
            final(self).wf() == old(self).wf(),
    {
        self.reset();
        self.set_fail_after_n(usize::MAX);
    }

    pub fn has(&mut self, id: &str) -> (r: Result<bool, ManagerError>)
        requires
            old(self).wf(),
        ensures
            final(self).wf(),
            final(self).entries() == old(self).entries(),
            final(self).limit() == old(self).limit(),
            old(self).failing() ==> (r matches Err(e) && induced_failure(e)) && final(self).served()
                == old(self).served(),
            !old(self).failing() ==> r == Ok::<bool, ManagerError>(
                has_id(old(self).entries(), id@),
            ) && final(self).served() == old(self).served() + 1,
    {
        if self.fail() {
            return Err(induced());
        }
        let result = self.manager.has(id);
        self.valid_operation_count = self.valid_operation_count + 1;
        result
    }

    pub fn get(&mut self, id: &str) -> (r: Result<&E, ManagerError>)
        requires
            old(self).wf(),
        ensures
            final(self).wf(),
            final(self).entries() == old(self).entries(),
            final(self).limit() == old(self).limit(),
            old(self).failing() ==> (r matches Err(e) && induced_failure(e)) && final(self).served()
                == old(self).served(),
            !old(self).failing() ==> final(self).served() == old(self).served() + 1 && (lookup(
                old(self).entries(),
                id@,
            ) matches Some(e) ==> r == Ok::<&E, ManagerError>(&e)) && (lookup(
                old(self).entries(),
                id@,
            ) is None ==> (r matches Err(ManagerError::EntryNotFound(s)) && s@ == id@)),
    {
        if self.fail() {
            return Err(induced());
        }
        self.valid_operation_count = self.valid_operation_count + 1;
        self.manager.get(id)
    }

    pub fn add(&mut self, id: &str, entry: E) -> (r: Result<(), ManagerError>)
        requires
            old(self).wf(),
        ensures
            final(self).wf(),
            final(self).limit() == old(self).limit(),
            old(self).failing() ==> (r matches Err(e) && induced_failure(e)) && final(self).served()
                == old(self).served() && final(self).entries() == old(self).entries(),
            !old(self).failing() ==> final(self).served() == old(self).served() + 1 && (has_id(
                old(self).entries(),
                id@,
            ) ==> (r matches Err(ManagerError::EntryIDConflict(s)) && s@ == id@) && final(self).entries() == old(self).entries()) && (!has_id(old(self).entries(), id@) ==> r is Ok
                && final(self).entries() == old(self).entries().push((id@, entry))),
    {
        if self.fail() {
            return Err(induced());
        }
        let result = self.manager.add(id, entry);
        self.valid_operation_count = self.valid_operation_count + 1;
        result
    }

    pub fn remove(&mut self, id: &str) -> (r: Result<E, ManagerError>)
        requires
            old(self).wf(),
        ensures
            final(self).wf(),
            final(self).limit() == old(self).limit(),
            old(self).failing() ==> (r matches Err(e) && induced_failure(e)) && final(self).served()
                == old(self).served() && final(self).entries() == old(self).entries(),
            !old(self).failing() ==> final(self).served() == old(self).served() + 1 && final(self).entries() == removed(old(self).entries(), id@) && (lookup(
                old(self).entries(),
                id@,
            ) matches Some(e) ==> r == Ok::<E, ManagerError>(e)) && (lookup(
                old(self).entries(),
                id@,
            ) is None ==> (r matches Err(ManagerError::EntryNotFound(s)) && s@ == id@)),
    {
        if self.fail() {
            return Err(induced());
        }
        let result = self.manager.remove(id);
        self.valid_operation_count = self.valid_operation_count + 1;
        result
    }

    pub fn len(&mut self) -> (r: Result<usize, ManagerError>)
        ensures
            final(self).entries() == old(self).entries(),
            final(self).wf() == old(self).wf(),
            final(self).limit() == old(self).limit(),
            old(self).failing() ==> (r matches Err(e) && induced_failure(e)) && final(self).served()
                == old(self).served(),
            !old(self).failing() ==> (r matches Ok(n) && n == old(self).entries().len())
                && final(self).served() == old(self).served() + 1,
    {
        if self.fail() {
            return Err(induced());
        }
        let result = self.manager.len();
        self.valid_operation_count = self.valid_operation_count + 1;
        result
    }

    pub fn is_empty(&mut self) -> (r: Result<bool, ManagerError>)
        ensures
            final(self).entries() == old(self).entries(),
            final(self).wf() == old(self).wf(),
            final(self).limit() == old(self).limit(),
            old(self).failing() ==> (r matches Err(e) && induced_failure(e)) && final(self).served()
                == old(self).served(),
            !old(self).failing() ==> r == Ok::<bool, ManagerError>(old(self).entries().len() == 0)
                && final(self).served() == old(self).served() + 1,
    {
        if self.fail() {
            return Err(induced());
        }
        let result = self.manager.is_empty();
        self.valid_operation_count = self.valid_operation_count + 1;
        result
    }
}

} // verus!
