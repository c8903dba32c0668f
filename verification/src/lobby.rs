use vstd::prelude::*;

use crate::players::{Player, PlayerMap, added, has_id, ids_distinct, law_add_then_remove, lemma_position_of, lookup, removed};
use vstd::string::StringExecFns;

verus! {

/// The ids of the entries of `s`, in order.
pub open spec fn ids_of<P>(s: Seq<(Seq<char>, P)>) -> Seq<Seq<char>> {
    s.map_values(|e: (Seq<char>, P)| e.0)
}

/// A game that a lobby runs. The lobby owns the players; the game may read
/// and change them, but not add or remove any.
pub trait Game: Sized {
    type Player: Player;
    type Event;
    type EventResponse;

    /// What an event does: the game and its players before and after, and
    /// the response.
    spec fn event_effect(
        old_game: Self,
        old_players: Seq<(Seq<char>, Self::Player)>,
        event: Self::Event,
        new_game: Self,
        new_players: Seq<(Seq<char>, Self::Player)>,
        response: Self::EventResponse,
    ) -> bool;

    /// Runs one event against the game and its players.
    fn handle_event(
        &mut self,
        players: &mut PlayerMap<Self::Player>,
        event: Self::Event,
    ) -> (r: Self::EventResponse)
        requires
            old(players).wf(),
        ensures
            final(players).wf(),
            ids_of(final(players)@) == ids_of(old(players)@),
            Self::event_effect(*old(self), old(players)@, event, *final(self), final(players)@, r),
    ;
}

/// Why a lobby refused a request.
#[derive(Debug)]
pub enum LobbyError {
    PlayerIDConflict(String),
    PlayerIDNotFound(String),
    ActorShutdown,
}

/// The text shown for a lobby error.
pub open spec fn lobby_error_message(e: LobbyError) -> Seq<char> {
    match e {
        LobbyError::PlayerIDConflict(id) => "Player ID: '"@ + id@
            + "' conflicts with another in the lobby"@,
        LobbyError::PlayerIDNotFound(id) => "Player ID: '"@ + id@ + "' was not found in the lobby"@,
        LobbyError::ActorShutdown => "Lobby closed due to actor thread shutdown"@,
    }
}

impl LobbyError {
    /// The text shown for this error.
    pub fn message(&self) -> (r: String)
        ensures
            r@ == lobby_error_message(*self),
    {
        match self {
            LobbyError::PlayerIDConflict(id) => {
                let mut s = String::from_str("Player ID: '");
                s.append(id.as_str());
                s.append("' conflicts with another in the lobby");
                s
            },
            LobbyError::PlayerIDNotFound(id) => {
                let mut s = String::from_str("Player ID: '");
                s.append(id.as_str());
                s.append("' was not found in the lobby");
                s
            },
            LobbyError::ActorShutdown => "Lobby closed due to actor thread shutdown".to_owned(),
        }
    }
}

/// A request to a lobby.
#[derive(Debug)]
pub enum LobbyCommand<G: Game> {
    HasPlayer(String),
    AddPlayer(String, G::Player),
    RemovePlayer(String),
    PlayerCount,
    GameEvent(G::Event),
    Shutdown,
}

/// A lobby's answer to a request. `Shutdown(true)` answers the first
/// request to shut down, which is acknowledged once the queue is drained;
/// every later one gets `Shutdown(false)` and no acknowledgement.
#[derive(Debug)]
pub enum LobbyReply<G: Game> {
    HasPlayer(bool),
    AddPlayer(Result<(), LobbyError>),
    RemovePlayer(Result<G::Player, LobbyError>),
    PlayerCount(usize),
    GameEvent(G::EventResponse),
    Shutdown(bool),
}

/// The state a lobby keeps: its players, its game, and whether it has been
/// asked to shut down. Requests reach it one at a time.
#[derive(Debug)]
pub struct ActorLobby<G: Game> {
    players: PlayerMap<G::Player>,
    game: G,
    closed: bool,
}

impl<G: Game> ActorLobby<G> {
    /// The players, by id, in the order they joined.
    pub closed spec fn roster(&self) -> Seq<(Seq<char>, G::Player)> {
        self.players@
    }

    /// The game the lobby runs.
    pub closed spec fn game_view(&self) -> G {
        self.game
    }

    /// Whether the lobby was asked to shut down.
    pub closed spec fn is_closed_spec(&self) -> bool {
        self.closed
    }

    /// No two players share an id.
    pub closed spec fn wf(&self) -> bool {
        self.players.wf()
    }

    /// A well-formed lobby's roster holds every id at most once.
    pub proof fn lemma_wf_ids_distinct(&self)
        requires
            self.wf(),
        ensures
            ids_distinct(self.roster()),
    {
    }

    pub fn new(game: G, players: PlayerMap<G::Player>) -> (r: Self)
        requires
            players.wf(),
        ensures
            r.wf(),
            r.roster() == players@,
            r.game_view() == game,
            !r.is_closed_spec(),
    {
        Self { players, game, closed: false }
    }

    pub fn players(&self) -> (r: &PlayerMap<G::Player>)
        ensures
            r@ == self.roster(),
            self.wf() ==> r.wf(),
    {
        &self.players
    }

    pub fn game(&self) -> (r: &G)
        ensures
            *r == self.game_view(),
    {
        &self.game
    }

    pub fn is_closed(&self) -> (r: bool)
        ensures
            r == self.is_closed_spec(),
    {
        self.closed
    }

    /// Whether a player with id `id` is in the lobby.
    pub fn has_player(&self, id: &str) -> (r: bool)
        requires
            self.wf(),
        ensures
            r == has_id(self.roster(), id@),
    {
        self.players.contains(id)
    }

    /// Adds `player` under `id`; an id already in the lobby is refused and
    /// nothing changes.
    pub fn add_player(&mut self, id: String, player: G::Player) -> (r: Result<(), LobbyError>)
        requires
            old(self).wf(),
        ensures
            final(self).wf(),
            final(self).is_closed_spec() == old(self).is_closed_spec(),
            has_id(old(self).roster(), id@) ==> r == Err::<(), _>(LobbyError::PlayerIDConflict(id))
                && final(self).roster() == old(self).roster(),
            !has_id(old(self).roster(), id@) ==> r is Ok && final(self).roster() == old(
                self,
            ).roster().push((id@, player)),
    {
        if self.players.contains(id.as_str()) {
            return Err(LobbyError::PlayerIDConflict(id));
        }
        self.players.add(id, player);
        Ok(())
    }

    /// Takes the player with id `id` out of the lobby; an id not in the lobby
    /// is refused.
    pub fn remove_player(&mut self, id: String) -> (r: Result<G::Player, LobbyError>)
        requires
            old(self).wf(),
        ensures
            final(self).wf(),
            final(self).is_closed_spec() == old(self).is_closed_spec(),
            final(self).roster() == removed(old(self).roster(), id@),
            lookup(old(self).roster(), id@) matches Some(p) ==> r == Ok::<G::Player, LobbyError>(p),
            lookup(old(self).roster(), id@) is None ==> r == Err::<G::Player, _>(
                LobbyError::PlayerIDNotFound(id),
            ),
    {
        match self.players.remove(id.as_str()) {
            Some(p) => Ok(p),
            None => Err(LobbyError::PlayerIDNotFound(id)),
        }
    }

    pub fn player_count(&self) -> (r: usize)
        ensures
            r == self.roster().len(),
    {
        self.players.len()
    }

    /// Answers one request. Shutting down only marks the lobby closed; the
    /// requests already queued are still answered.
    pub fn handle(&mut self, command: LobbyCommand<G>) -> (r: LobbyReply<G>)
        requires
            old(self).wf(),
        ensures
            final(self).wf(),
            match command {
                LobbyCommand::HasPlayer(id) => r == LobbyReply::<G>::HasPlayer(
                    has_id(old(self).roster(), id@),
                ) && *final(self) == *old(self),
                LobbyCommand::AddPlayer(id, player) => {
                    &&& r matches LobbyReply::AddPlayer(res)
                    &&& final(self).is_closed_spec() == old(self).is_closed_spec()
                    &&& has_id(old(self).roster(), id@) ==> res == Err::<(), _>(
                        LobbyError::PlayerIDConflict(id),
                    ) && final(self).roster() == old(self).roster()
                    &&& !has_id(old(self).roster(), id@) ==> res is Ok && final(self).roster()
                        == old(self).roster().push((id@, player))
                },
                LobbyCommand::RemovePlayer(id) => {
                    &&& r matches LobbyReply::RemovePlayer(res)
                    &&& final(self).is_closed_spec() == old(self).is_closed_spec()
                    &&& final(self).roster() == removed(old(self).roster(), id@)
                    &&& lookup(old(self).roster(), id@) matches Some(p) ==> res == Ok::<
                        G::Player,
                        LobbyError,
                    >(p)
                    &&& lookup(old(self).roster(), id@) is None ==> res == Err::<G::Player, _>(
                        LobbyError::PlayerIDNotFound(id),
                    )
                },
                LobbyCommand::PlayerCount => r == LobbyReply::<G>::PlayerCount(
                    old(self).roster().len() as usize,
                ) && *final(self) == *old(self),
                LobbyCommand::GameEvent(event) => {
                    &&& r matches LobbyReply::GameEvent(resp)
                    &&& G::event_effect(
                        old(self).game_view(),
                        old(self).roster(),
                        event,
                        final(self).game_view(),
                        final(self).roster(),
                        resp,
                    )
                    &&& final(self).is_closed_spec() == old(self).is_closed_spec()
                    &&& ids_of(final(self).roster()) == ids_of(old(self).roster())
                },
                LobbyCommand::Shutdown => {
                    &&& r == LobbyReply::<G>::Shutdown(!old(self).is_closed_spec())
                    &&& final(self).is_closed_spec()
                    &&& final(self).roster() == old(self).roster()
                },
            },
    {
        match command {
            LobbyCommand::HasPlayer(id) => LobbyReply::HasPlayer(self.has_player(id.as_str())),
            LobbyCommand::AddPlayer(id, player) => LobbyReply::AddPlayer(self.add_player(id, player)),
            LobbyCommand::RemovePlayer(id) => LobbyReply::RemovePlayer(self.remove_player(id)),
            LobbyCommand::PlayerCount => LobbyReply::PlayerCount(self.player_count()),
            LobbyCommand::GameEvent(event) => LobbyReply::GameEvent(
                self.game.handle_event(&mut self.players, event),
            ),
            LobbyCommand::Shutdown => {
                let first = !self.closed;
                self.closed = true;
                LobbyReply::Shutdown(first)
            },
        }
    }
}

/// A player who joins a lobby under a new id and leaves again leaves the
/// roster as it was; while in, the id finds that player.
pub proof fn law_join_then_leave<P>(roster: Seq<(Seq<char>, P)>, id: Seq<char>, player: P)
    requires
        ids_distinct(roster),
        !has_id(roster, id),
    ensures
        lookup(roster.push((id, player)), id) == Some(player),
        removed(roster.push((id, player)), id) == roster,
{
    assert(added(roster, id, player) == roster.push((id, player)));
    law_add_then_remove(roster, id, player);
    lemma_position_of(roster.push((id, player)), id);
}

} // verus!
