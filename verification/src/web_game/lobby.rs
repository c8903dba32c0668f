use vstd::prelude::*;

use crate::players::{PlayerMap, has_id, lemma_position_of, lookup, position_of, removed};
use crate::text::{push_decimal_digits, decimal_digits, str_eq};
use crate::web_game::player::Player;
use vstd::string::StringExecFns;

verus! {

/// Why a lobby refused a request.
#[derive(Debug)]
pub enum LobbyError {
    User(UserError),
}

/// A request a lobby refuses because of what was asked.
#[derive(Debug)]
pub enum UserError {
    UsernameTaken(String),
    UserNotFound(String),
    /// The name, and the longest name allowed.
    InvalidUsername(String, usize),
}

/// The text shown for a lobby's refusal.
pub open spec fn lobby_user_error_message(e: UserError) -> Seq<char> {
    match e {
        UserError::UsernameTaken(n) => "A user by the name '"@ + n@ + "' already exists in this lobby."@,
        UserError::UserNotFound(n) => "Username '"@ + n@ + "' not found in the lobby."@,
        UserError::InvalidUsername(n, max) => "Invalid username: "@ + n@
            + ". Must be valid ASCII and of length 0-"@ + decimal_digits(max as nat),
    }
}

impl UserError {
    pub fn message(&self) -> (r: String)
        ensures
            r@ == lobby_user_error_message(*self),
    {
        match self {
            UserError::UsernameTaken(n) => {
                let mut s = String::from_str("A user by the name '");
                s.append(n.as_str());
                s.append("' already exists in this lobby.");
                s
            },
            UserError::UserNotFound(n) => {
                let mut s = String::from_str("Username '");
                s.append(n.as_str());
                s.append("' not found in the lobby.");
                s
            },
            UserError::InvalidUsername(n, max) => {
                let mut s = String::from_str("Invalid username: ");
                s.append(n.as_str());
                s.append(". Must be valid ASCII and of length 0-");
                push_decimal_digits(&mut s, *max as u64);
                s
            },
        }
    }
}

/// A lobby as its parts.
pub struct LobbyView {
    pub name: Seq<char>,
    pub password: Seq<char>,
    pub players: Seq<(Seq<char>, Player)>,
}

/// A named, password-protected lobby of players keyed by name.
#[derive(Debug)]
pub struct Lobby {
    name: String,
    password: String,
    players: PlayerMap<Player>,
}

impl View for Lobby {
    type V = LobbyView;

    closed spec fn view(&self) -> LobbyView {
        LobbyView { name: self.name@, password: self.password@, players: self.players@ }
    }
}

impl Lobby {
    /// Player names are unique.
    pub closed spec fn wf(&self) -> bool {
        self.players.wf()
    }

    pub fn new(name: String, password: String) -> (r: Self)
        ensures
            r.wf(),
            r@ == (LobbyView { name: name@, password: password@, players: Seq::empty() }),
    {
        Self { name, password, players: PlayerMap::new() }
    }

    pub fn get_name(&self) -> (r: &str)
        ensures
            r@ == self@.name,
    {
        self.name.as_str()
    }

    /// Whether `password` is this lobby's password.
    pub fn is_correct_password(&self, password: &str) -> (r: bool)
        ensures
            r == (self@.password == password@),
    {
        str_eq(self.password.as_str(), password)
    }

    pub fn get_player(&self, name: &str) -> (r: Result<&Player, LobbyError>)
        requires
            self.wf(),
        ensures
            lookup(self@.players, name@) matches Some(p) ==> r == Ok::<&Player, LobbyError>(&p),
            lookup(self@.players, name@) is None ==> (r matches Err(
                LobbyError::User(UserError::UserNotFound(n)),
            ) && n@ == name@),
    {
        match self.players.get(name) {
            Some(p) => Ok(p),
            None => Err(LobbyError::User(UserError::UserNotFound(name.to_owned()))),
        }
    }

    pub fn get_mut_player(&mut self, name: &str) -> (r: Result<&mut Player, LobbyError>)
        requires
            old(self).wf(),
        ensures
            !has_id(old(self)@.players, name@) ==> (r matches Err(
                LobbyError::User(UserError::UserNotFound(n)),
            ) && n@ == name@) && final(self)@ == old(self)@ && final(self).wf(),
            has_id(old(self)@.players, name@) ==> (r matches Ok(p) && {
                let i = position_of(old(self)@.players, name@);
                &&& *p == old(self)@.players[i].1
                &&& final(self)@ == (LobbyView {
                    players: old(self)@.players.update(i, (name@, *final(p))),
                    ..old(self)@
                })
            }),
    {
        proof {
            lemma_position_of(self.players@, name@);
        }
        match self.players.get_mut(name) {
            Some(p) => Ok(p),
            None => Err(LobbyError::User(UserError::UserNotFound(name.to_owned()))),
        }
    }

    /// Adds `p` under its name; a name already in the lobby is refused.
    pub fn add_player(&mut self, p: Player) -> (r: Result<(), LobbyError>)
        requires
            old(self).wf(),
        ensures
            final(self).wf(),
            has_id(old(self)@.players, p@.name) ==> (r matches Err(
                LobbyError::User(UserError::UsernameTaken(n)),
            ) && n@ == p@.name) && final(self)@ == old(self)@,
            !has_id(old(self)@.players, p@.name) ==> r is Ok && final(self)@ == (LobbyView {
                players: old(self)@.players.push((p@.name, p)),
                ..old(self)@
            }),
    {
        let name = p.get_name().to_owned();
        if self.players.contains(name.as_str()) {
            return Err(LobbyError::User(UserError::UsernameTaken(name)));
        }
        self.players.add(name, p);
        Ok(())
    }

    /// Takes the player named `name` out; an unknown name is refused.
    pub fn remove_player(&mut self, name: &str) -> (r: Result<Player, LobbyError>)
        requires
            old(self).wf(),
        ensures
            final(self).wf(),
            final(self)@ == (LobbyView { players: removed(old(self)@.players, name@), ..old(self)@ }),
            lookup(old(self)@.players, name@) matches Some(p) ==> r == Ok::<Player, LobbyError>(p),
            lookup(old(self)@.players, name@) is None ==> (r matches Err(
                LobbyError::User(UserError::UserNotFound(n)),
            ) && n@ == name@),
    {
        match self.players.remove(name) {
            Some(p) => Ok(p),
            None => Err(LobbyError::User(UserError::UserNotFound(name.to_owned()))),
        }
    }
}

/// What a connection keeps of a successful login: who joined which lobby.
#[derive(Debug)]
pub struct LoginResponse {
    pub username: String,
    pub lobby_name: String,
}

} // verus!
