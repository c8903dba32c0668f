use vstd::prelude::*;

use crate::players::{has_id, lemma_position_of, lookup, position_of, removed};
use crate::validators::{is_lobby_name, is_valid_lobby_name};
use crate::web_game::json_websocket::{
    self, JsonWebsocketError, websocket_internal_error_message, websocket_user_error_message,
};
use crate::web_game::lobby::{self, Lobby, LobbyError, LobbyView, LoginResponse, lobby_user_error_message};
use crate::web_game::lobby_manager::{
    self, LobbyManager, LobbyManagerError, LobbyMap, MAX_NAME_LENGTH,
    lobby_manager_user_error_message,
};
use crate::web_game::player::{Player, PlayerView};
use vstd::string::StringExecFns;
use vstd::std_specs::convert::FromSpecImpl;
use vstd::utf8::encode_utf8;

verus! {

/// What a client of the lobby server sends.
#[derive(Debug)]
pub enum PlayerRequest {
    Login { username: String, lobby_name: String, password: String },
    Buzzer,
    CreateLobby { lobby_name: String, password: String },
}

/// A failure while serving a player's connection.
#[derive(Debug)]
pub enum PlayerHandlerError {
    User(UserError),
    Internal(InternalError),
}

/// A failure caused by what the player sent or did.
#[derive(Debug)]
pub enum UserError {
    RequestTimeout,
    ExceededAttemptLimit,
    IncorrectLobbyPassword(String),
    ExpectedLoginRequest,
    WebSocket(json_websocket::UserError),
    LobbyManager(lobby_manager::UserError),
    LobbyError(lobby::UserError),
}

/// A failure of the server.
#[derive(Debug)]
pub enum InternalError {
    EndOfChannel,
    UserNotLoggedIn,
    WebSocket(json_websocket::InternalError),
}

/// The text shown for a failure of the player's.
pub open spec fn user_error_message(e: UserError) -> Seq<char> {
    match e {
        UserError::RequestTimeout => "User connection timed out, elapsed: deadline has elapsed"@,
        UserError::ExceededAttemptLimit => "User exceeded max read request attempt limit"@,
        UserError::IncorrectLobbyPassword(n) => "Incorrect password for the desired lobby: "@ + n@,
        UserError::ExpectedLoginRequest =>
            "Expected a login request from the client that was not received."@,
        UserError::WebSocket(w) => websocket_user_error_message(w),
        UserError::LobbyManager(m) => lobby_manager_user_error_message(m),
        UserError::LobbyError(l) => lobby_user_error_message(l),
    }
}

/// The text shown for a failure of the server's.
pub open spec fn internal_error_message(e: InternalError) -> Seq<char> {
    match e {
        InternalError::EndOfChannel => "End of channel"@,
        InternalError::UserNotLoggedIn => "Expected player connection to be logged in."@,
        InternalError::WebSocket(w) => websocket_internal_error_message(w),
    }
}

impl UserError {
    pub fn message(&self) -> (r: String)
        ensures
            r@ == user_error_message(*self),
    {
        match self {
            UserError::RequestTimeout => "User connection timed out, elapsed: deadline has elapsed".to_owned(),
            UserError::ExceededAttemptLimit => "User exceeded max read request attempt limit".to_owned(),
            UserError::IncorrectLobbyPassword(n) => {
                let mut s = String::from_str("Incorrect password for the desired lobby: ");
                s.append(n.as_str());
                s
            },
            UserError::ExpectedLoginRequest =>
                "Expected a login request from the client that was not received.".to_owned(),
            UserError::WebSocket(w) => w.message(),
            UserError::LobbyManager(m) => m.message(),
            UserError::LobbyError(l) => l.message(),
        }
    }
}

impl InternalError {
    pub fn message(&self) -> (r: String)
        ensures
            r@ == internal_error_message(*self),
    {
        match self {
            InternalError::EndOfChannel => "End of channel".to_owned(),
            InternalError::UserNotLoggedIn => "Expected player connection to be logged in.".to_owned(),
            InternalError::WebSocket(w) => w.message(),
        }
    }
}

impl PlayerHandlerError {
    /// The text shown for this error: "User error: " or "Internal Server
    /// Error: " before the cause's message.
    pub fn message(&self) -> (r: String)
        ensures
            r@ == match *self {
                PlayerHandlerError::User(u) => "User error: "@ + user_error_message(u),
                PlayerHandlerError::Internal(i) => "Internal Server Error: "@ + internal_error_message(i),
            },
    {
        match self {
            PlayerHandlerError::User(u) => {
                let mut s = String::from_str("User error: ");
                s.append(u.message().as_str());
                s
            },
            PlayerHandlerError::Internal(i) => {
                let mut s = String::from_str("Internal Server Error: ");
                s.append(i.message().as_str());
                s
            },
        }
    }
}

impl From<LobbyManagerError> for PlayerHandlerError {
    fn from(e: LobbyManagerError) -> (r: Self) {
        match e {
            LobbyManagerError::User(u) => PlayerHandlerError::User(UserError::LobbyManager(u)),
        }
    }
}

impl FromSpecImpl<LobbyManagerError> for PlayerHandlerError {
    open spec fn obeys_from_spec() -> bool {
        true
    }

    open spec fn from_spec(e: LobbyManagerError) -> Self {
        match e {
            LobbyManagerError::User(u) => PlayerHandlerError::User(UserError::LobbyManager(u)),
        }
    }
}

impl From<LobbyError> for PlayerHandlerError {
    fn from(e: LobbyError) -> (r: Self) {
        match e {
            LobbyError::User(u) => PlayerHandlerError::User(UserError::LobbyError(u)),
        }
    }
}

impl FromSpecImpl<LobbyError> for PlayerHandlerError {
    open spec fn obeys_from_spec() -> bool {
        true
    }

    open spec fn from_spec(e: LobbyError) -> Self {
        match e {
            LobbyError::User(u) => PlayerHandlerError::User(UserError::LobbyError(u)),
        }
    }
}

impl From<JsonWebsocketError> for PlayerHandlerError {
    fn from(e: JsonWebsocketError) -> (r: Self) {
        match e {
            JsonWebsocketError::User(u) => PlayerHandlerError::User(UserError::WebSocket(u)),
            JsonWebsocketError::Internal(i) => PlayerHandlerError::Internal(InternalError::WebSocket(i)),
        }
    }
}

impl FromSpecImpl<JsonWebsocketError> for PlayerHandlerError {
    open spec fn obeys_from_spec() -> bool {
        true
    }

    open spec fn from_spec(e: JsonWebsocketError) -> Self {
        match e {
            JsonWebsocketError::User(u) => PlayerHandlerError::User(UserError::WebSocket(u)),
            JsonWebsocketError::Internal(i) => PlayerHandlerError::Internal(InternalError::WebSocket(i)),
        }
    }
}

/// The lobbies of a map as their views, by name.
pub open spec fn lobby_views(s: Seq<(Seq<char>, Lobby)>) -> Seq<(Seq<char>, LobbyView)> {
    s.map_values(|e: (Seq<char>, Lobby)| (e.0, e.1@))
}

/// Whether `name` is accepted as a username (the lobby-name rules).
pub open spec fn username_ok(name: Seq<char>) -> bool {
    is_lobby_name(name, encode_utf8(name).len(), MAX_NAME_LENGTH as nat)
}

/// Logs a player into the lobby a login request names: the request must be
/// a login, the username valid, the lobby known and its password right, and
/// the name free in that lobby; the player then joins it.
pub fn join_lobby(map: &mut LobbyMap, login: PlayerRequest) -> (r: Result<
    LoginResponse,
    PlayerHandlerError,
>)
    requires
        old(map).inv(),
    ensures
        final(map).inv(),
        r is Err ==> lobby_views(final(map).lobbies()) == lobby_views(old(map).lobbies()),
        !(login is Login) ==> (r matches Err(PlayerHandlerError::User(UserError::ExpectedLoginRequest))),
        login matches PlayerRequest::Login { username, lobby_name, password } ==> {
            &&& !username_ok(username@) ==> (r matches Err(
                PlayerHandlerError::User(
                    UserError::LobbyError(lobby::UserError::InvalidUsername(n, max)),
                ),
            ) && n@ == username@ && max == MAX_NAME_LENGTH)
            &&& username_ok(username@) && !has_id(old(map).lobbies(), lobby_name@) ==> (r matches Err(
                PlayerHandlerError::User(
                    UserError::LobbyManager(lobby_manager::UserError::LobbyNotFound(n)),
                ),
            ) && n@ == lobby_name@)
            &&& username_ok(username@) && has_id(old(map).lobbies(), lobby_name@) ==> {
                let i = position_of(old(map).lobbies(), lobby_name@);
                let l = old(map).lobbies()[i].1@;
                &&& l.password != password@ ==> (r matches Err(
                    PlayerHandlerError::User(UserError::IncorrectLobbyPassword(n)),
                ) && n@ == lobby_name@)
                &&& l.password == password@ && has_id(l.players, username@) ==> (r matches Err(
                    PlayerHandlerError::User(
                        UserError::LobbyError(lobby::UserError::UsernameTaken(n)),
                    ),
                ) && n@ == username@)
                &&& l.password == password@ && !has_id(l.players, username@) ==> (r matches Ok(
                    resp,
                ) && resp.username@ == username@ && resp.lobby_name@ == lobby_name@ && {
                    let joined = final(map).lobbies()[i].1;
                    let newcomer = joined@.players.last().1;
                    &&& final(map).lobbies() == old(map).lobbies().update(i, (lobby_name@, joined))
                    &&& joined@ == (LobbyView {
                        players: l.players.push((username@, newcomer)),
                        ..l
                    })
                    &&& newcomer@ == (PlayerView {
                        name: username@,
                        points: 0,
                        wager: 0,
                        free_response: "No answer"@,
                    })
                })
            }
        },
{
    let (username, lobby_name, password) = match login {
        PlayerRequest::Login { username, lobby_name, password } => (username, lobby_name, password),
        _ => {
            return Err(PlayerHandlerError::User(UserError::ExpectedLoginRequest));
        },
    };
    if !is_valid_lobby_name(username.as_str(), MAX_NAME_LENGTH) {
        return Err(
            PlayerHandlerError::User(
                UserError::LobbyError(lobby::UserError::InvalidUsername(username, MAX_NAME_LENGTH)),
            ),
        );
    }
    let lobby = match map.get_mut(lobby_name.as_str()) {
        Ok(lobby) => lobby,
        Err(LobbyManagerError::User(e)) => {
            return Err(PlayerHandlerError::User(UserError::LobbyManager(e)));
        },
    };
    let result = if !lobby.is_correct_password(password.as_str()) {
        Err(PlayerHandlerError::User(UserError::IncorrectLobbyPassword(lobby_name)))
    } else {
        match lobby.add_player(Player::new(username.clone())) {
            Ok(()) => Ok(LoginResponse { username, lobby_name }),
            Err(LobbyError::User(e)) => Err(PlayerHandlerError::User(UserError::LobbyError(e))),
        }
    };
    proof {
        lemma_position_of(old(map).lobbies(), lobby_name@);
        if result is Err {
            assert(lobby_views(map.lobbies()) =~= lobby_views(old(map).lobbies()));
        }
    }
    result
}

/// Takes the logged-in player out of their lobby and forgets the login; a
/// connection that is not logged in is the server's failure.
pub fn leave_lobby(map: &mut LobbyMap, creds: &mut Option<LoginResponse>) -> (r: Result<
    Player,
    PlayerHandlerError,
>)
    requires
        old(map).inv(),
    ensures
        final(map).inv(),
        *final(creds) is None,
        *old(creds) is None ==> (r matches Err(PlayerHandlerError::Internal(InternalError::UserNotLoggedIn)))
            && final(map).lobbies() == old(map).lobbies(),
        *old(creds) matches Some(c) ==> {
            &&& !has_id(old(map).lobbies(), c.lobby_name@) ==> (r matches Err(
                PlayerHandlerError::User(
                    UserError::LobbyManager(lobby_manager::UserError::LobbyNotFound(n)),
                ),
            ) && n@ == c.lobby_name@) && final(map).lobbies() == old(map).lobbies()
            &&& has_id(old(map).lobbies(), c.lobby_name@) ==> {
                let i = position_of(old(map).lobbies(), c.lobby_name@);
                let l = old(map).lobbies()[i].1@;
                &&& lookup(l.players, c.username@) matches Some(p) ==> r == Ok::<
                    Player,
                    PlayerHandlerError,
                >(p)
                &&& lookup(l.players, c.username@) is None ==> (r matches Err(
                    PlayerHandlerError::User(
                        UserError::LobbyError(lobby::UserError::UserNotFound(n)),
                    ),
                ) && n@ == c.username@)
                &&& final(map).lobbies().len() == old(map).lobbies().len()
                &&& final(map).lobbies()[i].1@.players == removed(l.players, c.username@)
            }
        },
{
    let LoginResponse { username, lobby_name } = match creds.take() {
        Some(c) => c,
        None => {
            return Err(PlayerHandlerError::Internal(InternalError::UserNotLoggedIn));
        },
    };
    let lobby = match map.get_mut(lobby_name.as_str()) {
        Ok(lobby) => lobby,
        Err(LobbyManagerError::User(e)) => {
            return Err(PlayerHandlerError::User(UserError::LobbyManager(e)));
        },
    };
    let result = match lobby.remove_player(username.as_str()) {
        Ok(p) => Ok(p),
        Err(LobbyError::User(e)) => Err(PlayerHandlerError::User(UserError::LobbyError(e))),
    };
    proof {
        lemma_position_of(old(map).lobbies(), lobby_name@);
    }
    result
}

/// What to do with a connection after a failure.
#[derive(Debug)]
pub enum Disposition {
    /// Tell the player and keep the connection.
    Report(String),
    /// Close the connection as the player's fault, with this reason.
    CloseForUser(String),
    /// Close the connection as the server's fault, with this reason.
    CloseForServer(String),
}

/// How a failure is handled: running out of login attempts closes the
/// connection as the player's fault, any other failure of the player's is
/// reported, and a failure of the server's closes the connection.
pub fn disposition(e: &PlayerHandlerError) -> (r: Disposition)
    ensures
        *e matches PlayerHandlerError::User(UserError::ExceededAttemptLimit) ==> (r matches Disposition::CloseForUser(
            m,
        ) && m@ == user_error_message(UserError::ExceededAttemptLimit)),
        *e matches PlayerHandlerError::User(u) ==> !(u is ExceededAttemptLimit) ==> (r matches Disposition::Report(
            m,
        ) && m@ == user_error_message(u)),
        *e matches PlayerHandlerError::Internal(i) ==> (r matches Disposition::CloseForServer(m) && m@
            == internal_error_message(i)),
{
    match e {
        PlayerHandlerError::User(UserError::ExceededAttemptLimit) => Disposition::CloseForUser(
            UserError::ExceededAttemptLimit.message(),
        ),
        PlayerHandlerError::User(u) => Disposition::Report(u.message()),
        PlayerHandlerError::Internal(i) => Disposition::CloseForServer(i.message()),
    }
}

} // verus!
