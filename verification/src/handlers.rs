use vstd::prelude::*;

use crate::board::{JeopardyConfig, redacted_board};
use crate::conn::ErrorReason;
use crate::game::{
    DisplayView, HostCommand, HostCommandResponse, Jeopardy, JeopardyCommand, JeopardyView, JeopardyCommandResponse, JeopardyError,
    PlayerCommand, PlayerCommandResponse, jeopardy_error_message,
};
use crate::player::JeopardyPlayerEvent;
use crate::text::{debug_str, decimal, push_decimal, str_debug};
use crate::lobby::{LobbyError, lobby_error_message};
use crate::manager::{ManagerError, PasswordProtectedLobby, manager_error_message};
use crate::validators::CredsValidator;
use vstd::string::StringExecFns;

verus! {

/// HTTP status codes the handlers answer with.
pub const STATUS_OK: u16 = 200;

pub const STATUS_CREATED: u16 = 201;

pub const STATUS_NO_CONTENT: u16 = 204;

pub const STATUS_BAD_REQUEST: u16 = 400;

pub const STATUS_UNAUTHORIZED: u16 = 401;

pub const STATUS_NOT_FOUND: u16 = 404;

pub const STATUS_CONFLICT: u16 = 409;

pub const STATUS_INTERNAL_SERVER_ERROR: u16 = 500;

/// A status code and, for a failure, the message shown to the client.
#[derive(Debug)]
pub struct Reply {
    pub status: u16,
    pub error: Option<String>,
}

/// The view of a reply: its status and message.
pub open spec fn reply_is(r: Reply, status: u16, error: Option<Seq<char>>) -> bool {
    &&& r.status == status
    &&& match (r.error, error) {
        (Some(a), Some(b)) => a@ == b,
        (None, None) => true,
        _ => false,
    }
}

fn failure(status: u16, msg: &str) -> (r: Reply)
    ensures
        reply_is(r, status, Some(msg@)),
{
    Reply { status, error: Some(msg.to_owned()) }
}

pub open spec fn internal_error_text() -> Seq<char> {
    "Internal Server Error. Please try again later."@
}

// ---------------------------------------------------------------- creating a lobby

/// A request to create a lobby running a game with `config`.
#[derive(Debug)]
pub struct CreateLobbyRequest {
    pub lobby_name: String,
    pub lobby_password: String,
    pub host_password: String,
    pub config: JeopardyConfig,
}

/// What the client gets back for a request to create a lobby.
#[derive(Debug)]
pub struct CreateLobbyResponse {
    pub request_id: String,
    pub error: Option<String>,
}

/// Whether the validator accepts the lobby name and both passwords.
pub fn is_valid_create_lobby_request<V: CredsValidator>(
    validator: &V,
    request: &CreateLobbyRequest,
) -> (r: bool)
    ensures
        r == (validator.lobby_id_ok(request.lobby_name@) && validator.lobby_password_ok(
            request.lobby_password@,
        ) && validator.host_password_ok(request.host_password@)),
{
    let lobby_id_ok = validator.is_valid_lobby_id(request.lobby_name.as_str());
    let lobby_pw_ok = validator.is_valid_lobby_password(request.lobby_password.as_str());
    let host_pw_ok = validator.is_valid_host_password(request.host_password.as_str());
    lobby_id_ok && lobby_pw_ok && host_pw_ok
}

pub open spec fn create_invalid_text() -> Seq<char> {
    "Invalid format given for one or more parameters of create lobby request"@
}

pub open spec fn create_conflict_text() -> Seq<char> {
    "Failed to create lobby. A lobby with the given name already exists."@
}

/// A lobby about to be added to the manager: its name, its password and
/// its new game.
#[derive(Debug)]
pub struct NewLobby {
    pub lobby_name: String,
    pub lobby_password: String,
    pub game: Jeopardy,
}

/// A request to create a lobby that passed validation; the caller then asks
/// the manager whether the name is taken.
#[derive(Debug)]
pub struct CreateLobbyFlow {
    request: CreateLobbyRequest,
}

impl CreateLobbyFlow {
    pub closed spec fn request_view(&self) -> CreateLobbyRequest {
        self.request
    }

    /// Checks the request; one the validator refuses is answered 400.
    pub fn start<V: CredsValidator>(validator: &V, request: CreateLobbyRequest) -> (r: Result<
        Self,
        Reply,
    >)
        ensures
            (validator.lobby_id_ok(request.lobby_name@) && validator.lobby_password_ok(
                request.lobby_password@,
            ) && validator.host_password_ok(request.host_password@)) ==> (r matches Ok(
                f,
            ) && f.request_view() == request),
            !(validator.lobby_id_ok(request.lobby_name@) && validator.lobby_password_ok(
                request.lobby_password@,
            ) && validator.host_password_ok(request.host_password@)) ==> (r matches Err(
                rep,
            ) && reply_is(rep, STATUS_BAD_REQUEST, Some(create_invalid_text()))),
    {
        if !is_valid_create_lobby_request(validator, &request) {
            return Err(
                failure(
                    STATUS_BAD_REQUEST,
                    "Invalid format given for one or more parameters of create lobby request",
                ),
            );
        }
        Ok(Self { request })
    }

    /// The name the manager is asked about.
    pub fn lobby_name(&self) -> (r: &str)
        ensures
            r@ == self.request_view().lobby_name@,
    {
        self.request.lobby_name.as_str()
    }

    /// Goes on from the manager's answer whether the name is taken: a taken
    /// name is answered 409, a failing manager 500, and a configuration
    /// that cannot start a game 400 with the game's message. Otherwise the
    /// new lobby comes back, to be added.
    pub fn after_lookup(self, exists: Result<bool, ManagerError>) -> (r: Result<NewLobby, Reply>)
        ensures
            exists matches Ok(true) ==> (r matches Err(rep) && reply_is(
                rep,
                STATUS_CONFLICT,
                Some(create_conflict_text()),
            )),
            exists is Err ==> (r matches Err(rep) && reply_is(
                rep,
                STATUS_INTERNAL_SERVER_ERROR,
                Some(internal_error_text()),
            )),
            exists matches Ok(false) && self.request_view().config@.boards.len() == 0 ==> (r matches Err(
                rep,
            ) && reply_is(
                rep,
                STATUS_BAD_REQUEST,
                Some(jeopardy_error_message(JeopardyError::GameBoardsNotFound)),
            )),
            exists matches Ok(false) && self.request_view().config@.boards.len() != 0 ==> (r matches Ok(
                n,
            ) && n.lobby_name@ == self.request_view().lobby_name@ && n.lobby_password@
                == self.request_view().lobby_password@ && n.game@ == (JeopardyView {
                host_password: self.request_view().host_password@,
                display: DisplayView::Board(
                    redacted_board(self.request_view().config@.boards[0]),
                ),
                config: self.request_view().config@,
                current_question: (0, 0, 0),
                buzzer_queue: Seq::empty(),
            })),
    {
        match exists {
            Ok(true) => Err(
                failure(
                    STATUS_CONFLICT,
                    "Failed to create lobby. A lobby with the given name already exists.",
                ),
            ),
            Err(_) => Err(
                failure(STATUS_INTERNAL_SERVER_ERROR, "Internal Server Error. Please try again later."),
            ),
            Ok(false) => {
                let CreateLobbyRequest { lobby_name, lobby_password, host_password, config } =
                    self.request;
                match Jeopardy::new(host_password.as_str(), config) {
                    Ok(game) => Ok(NewLobby { lobby_name, lobby_password, game }),
                    Err(e) => Err(Reply { status: STATUS_BAD_REQUEST, error: Some(e.message()) }),
                }
            },
        }
    }
}

/// Answers a request to create a lobby once the manager has tried to add
/// it: 201 if it did, 500 otherwise.
pub fn create_lobby_after_insert(added: Result<(), ManagerError>) -> (r: Reply)
    ensures
        added is Ok ==> reply_is(r, STATUS_CREATED, None),
        added is Err ==> reply_is(r, STATUS_INTERNAL_SERVER_ERROR, Some(internal_error_text())),
{
    match added {
        Ok(()) => Reply { status: STATUS_CREATED, error: None },
        Err(_) => failure(STATUS_INTERNAL_SERVER_ERROR, "Internal Server Error. Please try again later."),
    }
}

/// What to do next when the grace period after a lobby's creation is over.
#[derive(Debug)]
pub enum CleanupStep {
    /// Ask the lobby how many players it has.
    CountPlayers,
    /// Shut the lobby down if it still runs, and take it out of the manager.
    Remove,
    /// Leave everything as it is.
    Done,
}

/// Starts the check when a new lobby's grace period is over: only the lobby
/// that was created, still kept under its name, is looked at; if it was
/// deleted, or its name now holds another lobby, there is nothing to do.
pub fn cleanup_after_lookup(still_listed: bool) -> (r: CleanupStep)
    ensures
        still_listed ==> r is CountPlayers,
        !still_listed ==> r is Done,
{
    if still_listed {
        CleanupStep::CountPlayers
    } else {
        CleanupStep::Done
    }
}

/// Goes on from the lobby's player count at the end of its grace period: a
/// lobby still empty is removed, one with players stays. A lobby that cannot
/// answer has stopped and is removed as well, as deleting does.
pub fn cleanup_after_count(count: Result<usize, LobbyError>) -> (r: CleanupStep)
    ensures
        count matches Ok(n) && n == 0 ==> r is Remove,
        count matches Ok(n) && n > 0 ==> r is Done,
        count is Err ==> r is Remove,
{
    match count {
        Ok(n) => {
            if n == 0 {
                CleanupStep::Remove
            } else {
                CleanupStep::Done
            }
        },
        Err(_) => CleanupStep::Remove,
    }
}

// ---------------------------------------------------------------- deleting a lobby

/// A request to delete a lobby; with `force` it goes even while players
/// remain.
#[derive(Debug)]
pub struct DeleteLobbyRequest {
    pub force: bool,
    pub lobby_password: String,
    pub host_password: String,
}

/// What the client gets back for a request to delete a lobby.
#[derive(Debug)]
pub struct DeleteLobbyResponse {
    pub request_id: String,
    pub error: Option<String>,
}

/// Whether the validator accepts the lobby id and both passwords.
pub fn is_valid_delete_lobby_request<V: CredsValidator>(
    validator: &V,
    lobby_id: &str,
    request: &DeleteLobbyRequest,
) -> (r: bool)
    ensures
        r == (validator.lobby_id_ok(lobby_id@) && validator.lobby_password_ok(
            request.lobby_password@,
        ) && validator.host_password_ok(request.host_password@)),
{
    let lobby_id_ok = validator.is_valid_lobby_id(lobby_id);
    let lobby_pw_ok = validator.is_valid_lobby_password(request.lobby_password.as_str());
    let host_pw_ok = validator.is_valid_host_password(request.host_password.as_str());
    lobby_id_ok && lobby_pw_ok && host_pw_ok
}

pub open spec fn delete_invalid_text() -> Seq<char> {
    "Invalid format given for one or more parameters of delete lobby request"@
}

pub open spec fn delete_not_found_text(lobby_id: Seq<char>) -> Seq<char> {
    "'"@ + lobby_id + "' not found. Possibly already deleted."@
}

pub open spec fn delete_unauthorized_text() -> Seq<char> {
    "Delete unauthorized."@
}

pub open spec fn delete_not_empty_text() -> Seq<char> {
    "Attempted to delete a non-empty lobby without the force flag."@
}

/// What to do next while deleting a lobby.
#[derive(Debug)]
pub enum DeleteStep {
    /// Ask the lobby how many players it has.
    CountPlayers,
    /// Send this command to the lobby's game; it fails on a wrong host
    /// password and changes nothing.
    CheckHostPassword(JeopardyCommand),
    /// Shut the lobby down and wait until it has stopped.
    ShutDown,
    /// Take the lobby out of the manager.
    Remove,
    /// Answer the client.
    Reply(Reply),
}

/// Whether `step` sends the harmless command that checks `host_password`.
pub open spec fn checks_host_password(step: DeleteStep, host_password: Seq<char>) -> bool {
    step matches DeleteStep::CheckHostPassword(
        JeopardyCommand::Host { host_password: pw, command: HostCommand::GetBuzzerQueue },
    ) && pw@ == host_password
}

/// Whether `step` answers with `status` and the message `error`.
pub open spec fn replies(step: DeleteStep, status: u16, error: Option<Seq<char>>) -> bool {
    step matches DeleteStep::Reply(rep) && reply_is(rep, status, error)
}

/// A request to delete a lobby that passed validation.
#[derive(Debug)]
pub struct DeleteLobbyFlow {
    lobby_id: String,
    force: bool,
    lobby_password: String,
    host_password: String,
}

impl DeleteLobbyFlow {
    pub closed spec fn lobby_id_view(&self) -> Seq<char> {
        self.lobby_id@
    }

    pub closed spec fn force_view(&self) -> bool {
        self.force
    }

    pub closed spec fn lobby_password_view(&self) -> Seq<char> {
        self.lobby_password@
    }

    pub closed spec fn host_password_view(&self) -> Seq<char> {
        self.host_password@
    }

    /// Checks the request; one the validator refuses is answered 400.
    pub fn start<V: CredsValidator>(
        validator: &V,
        lobby_id: String,
        request: DeleteLobbyRequest,
    ) -> (r: Result<Self, Reply>)
        ensures
            (validator.lobby_id_ok(lobby_id@) && validator.lobby_password_ok(
                request.lobby_password@,
            ) && validator.host_password_ok(request.host_password@)) ==> (r matches Ok(f)
                && f.lobby_id_view() == lobby_id@ && f.force_view() == request.force
                && f.lobby_password_view() == request.lobby_password@ && f.host_password_view()
                == request.host_password@),
            !(validator.lobby_id_ok(lobby_id@) && validator.lobby_password_ok(
                request.lobby_password@,
            ) && validator.host_password_ok(request.host_password@)) ==> (r matches Err(rep)
                && reply_is(rep, STATUS_BAD_REQUEST, Some(delete_invalid_text()))),
    {
        if !is_valid_delete_lobby_request(validator, lobby_id.as_str(), &request) {
            return Err(
                failure(
                    STATUS_BAD_REQUEST,
                    "Invalid format given for one or more parameters of delete lobby request",
                ),
            );
        }
        let DeleteLobbyRequest { force, lobby_password, host_password } = request;
        Ok(Self { lobby_id, force, lobby_password, host_password })
    }

    /// The id of the lobby to delete.
    pub fn lobby_id(&self) -> (r: &str)
        ensures
            r@ == self.lobby_id_view(),
    {
        self.lobby_id.as_str()
    }

    fn check_host_password(&self) -> (r: DeleteStep)
        ensures
            checks_host_password(r, self.host_password_view()),
    {
        DeleteStep::CheckHostPassword(
            JeopardyCommand::Host {
                host_password: self.host_password.clone(),
                command: HostCommand::GetBuzzerQueue,
            },
        )
    }

    /// Goes on from the manager's lookup of the lobby: an unknown lobby is
    /// answered 404, a failing manager 500, a wrong lobby password 401.
    /// Without `force` the players are counted first; with it the host
    /// password is checked at once.
    pub fn after_lookup<L>(&self, entry: Result<&PasswordProtectedLobby<L>, ManagerError>) -> (r:
        DeleteStep)
        ensures
            entry matches Err(ManagerError::EntryNotFound(_)) ==> replies(
                r,
                STATUS_NOT_FOUND,
                Some(delete_not_found_text(self.lobby_id_view())),
            ),
            (entry is Err && !(entry matches Err(ManagerError::EntryNotFound(_)))) ==> replies(
                r,
                STATUS_INTERNAL_SERVER_ERROR,
                Some(internal_error_text()),
            ),
            (entry matches Ok(e) && e.password_view() != self.lobby_password_view()) ==> replies(
                r,
                STATUS_UNAUTHORIZED,
                Some(delete_unauthorized_text()),
            ),
            (entry matches Ok(e) && e.password_view() == self.lobby_password_view()) ==> (if self.force_view() {
                checks_host_password(r, self.host_password_view())
            } else {
                r is CountPlayers
            }),
    {
        match entry {
            Err(ManagerError::EntryNotFound(_)) => {
                let mut msg = String::from_str("'");
                msg.append(self.lobby_id.as_str());
                msg.append("' not found. Possibly already deleted.");
                DeleteStep::Reply(Reply { status: STATUS_NOT_FOUND, error: Some(msg) })
            },
            Err(_) => DeleteStep::Reply(
                failure(STATUS_INTERNAL_SERVER_ERROR, "Internal Server Error. Please try again later."),
            ),
            Ok(e) => {
                if !e.is_correct_password(self.lobby_password.as_str()) {
                    DeleteStep::Reply(failure(STATUS_UNAUTHORIZED, "Delete unauthorized."))
                } else if self.force {
                    self.check_host_password()
                } else {
                    DeleteStep::CountPlayers
                }
            },
        }
    }

    /// Goes on from the lobby's player count: players left mean 409. A lobby
    /// that cannot answer is dropped from the manager all the same.
    pub fn after_count(&self, count: Result<usize, LobbyError>) -> (r: DeleteStep)
        ensures
            count is Err ==> r is Remove,
            count matches Ok(n) && n > 0 ==> replies(
                r,
                STATUS_CONFLICT,
                Some(delete_not_empty_text()),
            ),
            count matches Ok(n) && n == 0 ==> checks_host_password(r, self.host_password_view()),
    {
        match count {
            Err(_) => DeleteStep::Remove,
            Ok(n) => {
                if n > 0 {
                    DeleteStep::Reply(
                        failure(
                            STATUS_CONFLICT,
                            "Attempted to delete a non-empty lobby without the force flag.",
                        ),
                    )
                } else {
                    self.check_host_password()
                }
            },
        }
    }

    /// Goes on from the game's answer to the password check: any game error
    /// means a wrong host password (401). A lobby that cannot answer is
    /// dropped from the manager all the same.
    pub fn after_password_check(
        &self,
        answer: Result<Result<JeopardyCommandResponse, JeopardyError>, LobbyError>,
    ) -> (r: DeleteStep)
        ensures
            answer is Err ==> r is Remove,
            answer matches Ok(Err(_)) ==> replies(
                r,
                STATUS_UNAUTHORIZED,
                Some(delete_unauthorized_text()),
            ),
            answer matches Ok(Ok(_)) ==> r is ShutDown,
    {
        match answer {
            Err(_) => DeleteStep::Remove,
            Ok(Err(_)) => DeleteStep::Reply(failure(STATUS_UNAUTHORIZED, "Delete unauthorized.")),
            Ok(Ok(_)) => DeleteStep::ShutDown,
        }
    }

    /// After the shutdown, whatever its outcome, the lobby is removed.
    pub fn after_shutdown(&self, shutdown: Result<(), LobbyError>) -> (r: DeleteStep)
        ensures
            r is Remove,
    {
        DeleteStep::Remove
    }

    /// Answers once the manager has tried to remove the lobby: 204 if it
    /// did, 500 otherwise.
    pub fn after_remove<E>(&self, removed: Result<E, ManagerError>) -> (r: Reply)
        ensures
            removed is Ok ==> reply_is(r, STATUS_NO_CONTENT, None),
            removed is Err ==> reply_is(r, STATUS_INTERNAL_SERVER_ERROR, Some(internal_error_text())),
    {
        match removed {
            Ok(_) => Reply { status: STATUS_NO_CONTENT, error: None },
            Err(_) => failure(
                STATUS_INTERNAL_SERVER_ERROR,
                "Internal Server Error. Please try again later.",
            ),
        }
    }
}

// ---------------------------------------------------------------- host commands

/// A host's request to a lobby: the lobby password and a game command.
#[derive(Debug)]
pub struct HostRequest {
    pub lobby_password: String,
    pub command: JeopardyCommand,
}

/// What the host gets back: the game's answer, or a message.
#[derive(Debug)]
pub struct HostResponse {
    pub request_id: String,
    pub result: Result<JeopardyCommandResponse, String>,
}

/// A status code and the game's answer or a message.
#[derive(Debug)]
pub struct HostReply {
    pub status: u16,
    pub result: Result<JeopardyCommandResponse, String>,
}

/// Whether `r` has `status` and fails with the message `msg`.
pub open spec fn host_fails(r: HostReply, status: u16, msg: Seq<char>) -> bool {
    r.status == status && (r.result matches Err(m) && m@ == msg)
}

fn host_failure(status: u16, msg: &str) -> (r: HostReply)
    ensures
        host_fails(r, status, msg@),
{
    HostReply { status, result: Err(msg.to_owned()) }
}

/// Whether the validator accepts the lobby id, the lobby password, and the
/// host password (a host command) or the target player's id (a player
/// command).
pub fn is_valid_host_request<V: CredsValidator>(
    validator: &V,
    lobby_id: &str,
    request: &HostRequest,
) -> (r: bool)
    ensures
        r == (validator.lobby_id_ok(lobby_id@) && validator.lobby_password_ok(
            request.lobby_password@,
        ) && match request.command {
            JeopardyCommand::Host { host_password, .. } => validator.host_password_ok(
                host_password@,
            ),
            JeopardyCommand::Player { player_id, .. } => validator.username_ok(player_id@),
        }),
{
    let lobby_id_ok = validator.is_valid_lobby_id(lobby_id);
    let lobby_pw_ok = validator.is_valid_lobby_password(request.lobby_password.as_str());
    let special = match &request.command {
        JeopardyCommand::Host { host_password, .. } => validator.is_valid_host_password(
            host_password.as_str(),
        ),
        JeopardyCommand::Player { player_id, .. } => validator.is_valid_username(
            player_id.as_str(),
        ),
    };
    lobby_id_ok && lobby_pw_ok && special
}

pub open spec fn host_invalid_text() -> Seq<char> {
    "Invalid format given for one or more parameters of host command request"@
}

pub open spec fn host_not_found_text() -> Seq<char> {
    "Lobby not found. Possibly deleted due to inactivity."@
}

pub open spec fn host_lookup_failed_text() -> Seq<char> {
    "Internal Server Error. Please try again."@
}

pub open spec fn host_wrong_lobby_password_text() -> Seq<char> {
    "Invalid lobby password"@
}

/// A host request that passed validation.
#[derive(Debug)]
pub struct HostCommandFlow {
    lobby_password: String,
    command: JeopardyCommand,
}

impl HostCommandFlow {
    pub closed spec fn lobby_password_view(&self) -> Seq<char> {
        self.lobby_password@
    }

    pub closed spec fn command_view(&self) -> JeopardyCommand {
        self.command
    }

    /// Checks the request; one the validator refuses is answered 400.
    pub fn start<V: CredsValidator>(validator: &V, lobby_id: &str, request: HostRequest) -> (r:
        Result<Self, HostReply>)
        ensures
            is_valid_host_request_spec(validator, lobby_id@, request) ==> (r matches Ok(f)
                && f.lobby_password_view() == request.lobby_password@ && f.command_view()
                == request.command),
            !is_valid_host_request_spec(validator, lobby_id@, request) ==> (r matches Err(rep)
                && host_fails(rep, STATUS_BAD_REQUEST, host_invalid_text())),
    {
        if !is_valid_host_request(validator, lobby_id, &request) {
            return Err(
                host_failure(
                    STATUS_BAD_REQUEST,
                    "Invalid format given for one or more parameters of host command request",
                ),
            );
        }
        let HostRequest { lobby_password, command } = request;
        Ok(Self { lobby_password, command })
    }

    /// Goes on from the manager's lookup of the lobby: an unknown lobby is
    /// answered 404, a failing manager 500, a wrong lobby password 401;
    /// otherwise the command comes back, to be sent to the lobby.
    pub fn after_lookup<L>(self, entry: Result<&PasswordProtectedLobby<L>, ManagerError>) -> (r:
        Result<JeopardyCommand, HostReply>)
        ensures
            entry matches Err(ManagerError::EntryNotFound(_)) ==> (r matches Err(rep) && host_fails(
                rep,
                STATUS_NOT_FOUND,
                host_not_found_text(),
            )),
            (entry is Err && !(entry matches Err(ManagerError::EntryNotFound(_)))) ==> (r matches Err(
                rep,
            ) && host_fails(rep, STATUS_INTERNAL_SERVER_ERROR, host_lookup_failed_text())),
            (entry matches Ok(e) && e.password_view() != self.lobby_password_view()) ==> (r matches Err(
                rep,
            ) && host_fails(rep, STATUS_UNAUTHORIZED, host_wrong_lobby_password_text())),
            (entry matches Ok(e) && e.password_view() == self.lobby_password_view()) ==> r
                == Ok::<JeopardyCommand, HostReply>(self.command_view()),
    {
        match entry {
            Err(ManagerError::EntryNotFound(_)) => Err(
                host_failure(STATUS_NOT_FOUND, "Lobby not found. Possibly deleted due to inactivity."),
            ),
            Err(_) => Err(
                host_failure(STATUS_INTERNAL_SERVER_ERROR, "Internal Server Error. Please try again."),
            ),
            Ok(e) => {
                if !e.is_correct_password(self.lobby_password.as_str()) {
                    Err(host_failure(STATUS_UNAUTHORIZED, "Invalid lobby password"))
                } else {
                    Ok(self.command)
                }
            },
        }
    }
}

/// The spec form of `is_valid_host_request`.
pub open spec fn is_valid_host_request_spec<V: CredsValidator>(
    validator: &V,
    lobby_id: Seq<char>,
    request: HostRequest,
) -> bool {
    validator.lobby_id_ok(lobby_id) && validator.lobby_password_ok(request.lobby_password@)
        && match request.command {
        JeopardyCommand::Host { host_password, .. } => validator.host_password_ok(host_password@),
        JeopardyCommand::Player { player_id, .. } => validator.username_ok(player_id@),
    }
}

/// Answers a host command from the lobby's reply: a lobby that cannot
/// answer is a 500; a wrong host password 401 and any other game error 400,
/// each with the game's message; a game answer 200.
pub fn host_command_reply(
    answer: Result<Result<JeopardyCommandResponse, JeopardyError>, LobbyError>,
) -> (r: HostReply)
    ensures
        answer is Err ==> host_fails(r, STATUS_INTERNAL_SERVER_ERROR, internal_error_text()),
        answer matches Ok(Ok(resp)) ==> r.status == STATUS_OK && r.result == Ok::<
            JeopardyCommandResponse,
            String,
        >(resp),
        answer matches Ok(Err(e)) ==> host_fails(
            r,
            if e is IncorrectHostPassword {
                STATUS_UNAUTHORIZED
            } else {
                STATUS_BAD_REQUEST
            },
            jeopardy_error_message(e),
        ),
{
    match answer {
        Err(_) => host_failure(
            STATUS_INTERNAL_SERVER_ERROR,
            "Internal Server Error. Please try again later.",
        ),
        Ok(Ok(resp)) => HostReply { status: STATUS_OK, result: Ok(resp) },
        Ok(Err(e)) => {
            let status = match e {
                JeopardyError::IncorrectHostPassword => STATUS_UNAUTHORIZED,
                _ => STATUS_BAD_REQUEST,
            };
            HostReply { status, result: Err(e.message()) }
        },
    }
}

// ---------------------------------------------------------------- players over a connection

/// What a player logs in with.
#[derive(Debug)]
pub struct LoginCredentials {
    pub lobby_id: String,
    pub lobby_password: String,
    pub username: String,
}

/// What a player's client sends.
#[derive(Debug)]
pub enum PlayerRequest {
    Login(LoginCredentials),
    Command(PlayerCommand),
}

/// What a player's client is sent: the game's answer, or a message.
#[derive(Debug)]
pub struct PlayerResponse {
    pub result: Result<PlayerCommandResponse, String>,
}

/// Why logging in failed.
#[derive(Debug)]
pub enum LoginError {
    InvalidLoginCredentialsFormat,
    ExceededAttemptLimit,
    IncorrectLobbyPassword,
    LobbyNotFound,
    UsernameAlreadyTaken,
}

/// A failure caused by what the player sent or did.
#[derive(Debug)]
pub enum UserError {
    ActivityTimeout,
    Disconnected,
    Login(LoginError),
    Game(JeopardyError),
    UnexpectedRequestType(PlayerRequest),
}

/// A failure of the server; outside failures are carried as their message.
#[derive(Debug)]
pub enum InternalError {
    InactiveLobby(String),
    NotLoggedIn,
    UnexpectedResponse(String),
    Dependency(String),
}

/// A failure while serving a player.
#[derive(Debug)]
pub enum PlayerHandlerError {
    User(UserError),
    Internal(InternalError),
}

/// The text shown for a login error.
pub open spec fn login_error_message(e: LoginError) -> Seq<char> {
    match e {
        LoginError::InvalidLoginCredentialsFormat => "Invalid format for login credentials"@,
        LoginError::ExceededAttemptLimit => "User exceeded login attempt limit"@,
        LoginError::IncorrectLobbyPassword => "Incorrect password for the desired lobby"@,
        LoginError::LobbyNotFound => "Requested lobby not found."@,
        LoginError::UsernameAlreadyTaken => "Username is already taken"@,
    }
}

impl LoginError {
    /// The text shown for this error.
    pub fn message(&self) -> (r: String)
        ensures
            r@ == login_error_message(*self),
    {
        match self {
            LoginError::InvalidLoginCredentialsFormat => "Invalid format for login credentials".to_owned(),
            LoginError::ExceededAttemptLimit => "User exceeded login attempt limit".to_owned(),
            LoginError::IncorrectLobbyPassword => "Incorrect password for the desired lobby".to_owned(),
            LoginError::LobbyNotFound => "Requested lobby not found.".to_owned(),
            LoginError::UsernameAlreadyTaken => "Username is already taken".to_owned(),
        }
    }
}

/// How `Debug` writes a player command.
pub open spec fn player_command_debug(c: PlayerCommand) -> Seq<char> {
    match c {
        PlayerCommand::Buzz => "Buzz"@,
        PlayerCommand::Refresh => "Refresh"@,
        PlayerCommand::GetPoints => "GetPoints"@,
        PlayerCommand::GetWager => "GetWager"@,
        PlayerCommand::SetWager(w) => "SetWager("@ + decimal(w as int) + ")"@,
        PlayerCommand::GetFreeResponse => "GetFreeResponse"@,
        PlayerCommand::SetFreeResponse(f) => "SetFreeResponse("@ + str_debug(f@) + ")"@,
        PlayerCommand::GetScoreboard => "GetScoreboard"@,
    }
}

/// How `Debug` writes a player request.
pub open spec fn player_request_debug(r: PlayerRequest) -> Seq<char> {
    match r {
        PlayerRequest::Login(c) => "Login(LoginCredentials { lobby_id: "@ + str_debug(c.lobby_id@)
            + ", lobby_password: "@ + str_debug(c.lobby_password@) + ", username: "@ + str_debug(
            c.username@,
        ) + " })"@,
        PlayerRequest::Command(c) => "Command("@ + player_command_debug(c) + ")"@,
    }
}

fn write_player_command(s: &mut String, c: &PlayerCommand)
    ensures
        final(s)@ == old(s)@ + player_command_debug(*c),
{
    match c {
        PlayerCommand::Buzz => s.append("Buzz"),
        PlayerCommand::Refresh => s.append("Refresh"),
        PlayerCommand::GetPoints => s.append("GetPoints"),
        PlayerCommand::GetWager => s.append("GetWager"),
        PlayerCommand::SetWager(w) => {
            s.append("SetWager(");
            push_decimal(s, *w as i64);
            s.append(")");
            assert(s@ =~= old(s)@ + player_command_debug(*c));
        },
        PlayerCommand::GetFreeResponse => s.append("GetFreeResponse"),
        PlayerCommand::SetFreeResponse(f) => {
            s.append("SetFreeResponse(");
            let d = debug_str(f.as_str());
            s.append(d.as_str());
            s.append(")");
            assert(s@ =~= old(s)@ + player_command_debug(*c));
        },
        PlayerCommand::GetScoreboard => s.append("GetScoreboard"),
    }
}

impl PlayerRequest {
    /// This request as `Debug` writes it.
    pub fn debug_text(&self) -> (r: String)
        ensures
            r@ == player_request_debug(*self),
    {
        match self {
            PlayerRequest::Login(c) => {
                let mut s = String::from_str("Login(LoginCredentials { lobby_id: ");
                s.append(debug_str(c.lobby_id.as_str()).as_str());
                s.append(", lobby_password: ");
                s.append(debug_str(c.lobby_password.as_str()).as_str());
                s.append(", username: ");
                s.append(debug_str(c.username.as_str()).as_str());
                s.append(" })");
                assert(s@ =~= player_request_debug(*self));
                s
            },
            PlayerRequest::Command(c) => {
                let mut s = String::from_str("Command(");
                write_player_command(&mut s, c);
                s.append(")");
                assert(s@ =~= player_request_debug(*self));
                s
            },
        }
    }
}

/// The text shown for a failure caused by the player.
pub open spec fn user_error_message(e: UserError) -> Seq<char> {
    match e {
        UserError::ActivityTimeout => "User connection timed out waiting for input"@,
        UserError::Disconnected => "Unexpected user disconnect"@,
        UserError::Login(l) => login_error_message(l),
        UserError::Game(g) => jeopardy_error_message(g),
        UserError::UnexpectedRequestType(r) => "Unexpected Request Type: "@ + player_request_debug(
            r,
        ),
    }
}

impl UserError {
    /// The text shown for this error.
    pub fn message(&self) -> (r: String)
        ensures
            r@ == user_error_message(*self),
    {
        match self {
            UserError::ActivityTimeout => "User connection timed out waiting for input".to_owned(),
            UserError::Disconnected => "Unexpected user disconnect".to_owned(),
            UserError::Login(l) => l.message(),
            UserError::Game(g) => g.message(),
            UserError::UnexpectedRequestType(r) => {
                let mut s = String::from_str("Unexpected Request Type: ");
                s.append(r.debug_text().as_str());
                s
            },
        }
    }
}

/// The text shown for a failure of the server.
pub open spec fn internal_error_message(e: InternalError) -> Seq<char> {
    match e {
        InternalError::InactiveLobby(id) => "Inactive lobby ID: '"@ + id@
            + "' still present in manager"@,
        InternalError::NotLoggedIn =>
            "Attempted to perform an operation that requires the player to be logged in."@,
        InternalError::UnexpectedResponse(m) => "Unexpected response type: "@ + m@,
        InternalError::Dependency(m) => m@,
    }
}

impl InternalError {
    /// The text shown for this error.
    pub fn message(&self) -> (r: String)
        ensures
            r@ == internal_error_message(*self),
    {
        match self {
            InternalError::InactiveLobby(id) => {
                let mut s = String::from_str("Inactive lobby ID: '");
                s.append(id.as_str());
                s.append("' still present in manager");
                s
            },
            InternalError::NotLoggedIn =>
                "Attempted to perform an operation that requires the player to be logged in.".to_owned(),
            InternalError::UnexpectedResponse(m) => {
                let mut s = String::from_str("Unexpected response type: ");
                s.append(m.as_str());
                s
            },
            InternalError::Dependency(m) => m.clone(),
        }
    }
}

/// The text shown for a failure while serving a player.
pub open spec fn player_handler_error_message(e: PlayerHandlerError) -> Seq<char> {
    match e {
        PlayerHandlerError::User(u) => user_error_message(u),
        PlayerHandlerError::Internal(i) => internal_error_message(i),
    }
}

impl PlayerHandlerError {
    /// The text shown for this error.
    pub fn message(&self) -> (r: String)
        ensures
            r@ == player_handler_error_message(*self),
    {
        match self {
            PlayerHandlerError::User(u) => u.message(),
            PlayerHandlerError::Internal(i) => i.message(),
        }
    }
}

/// Whether the validator accepts the lobby id, the lobby password and the
/// username.
pub fn is_valid_login_request<V: CredsValidator>(validator: &V, creds: &LoginCredentials) -> (r:
    bool)
    ensures
        r == (validator.lobby_id_ok(creds.lobby_id@) && validator.lobby_password_ok(
            creds.lobby_password@,
        ) && validator.username_ok(creds.username@)),
{
    let lobby_id_ok = validator.is_valid_lobby_id(creds.lobby_id.as_str());
    let lobby_pw_ok = validator.is_valid_lobby_password(creds.lobby_password.as_str());
    let username_ok = validator.is_valid_username(creds.username.as_str());
    lobby_id_ok && lobby_pw_ok && username_ok
}

/// What came of waiting for one message from a player's client.
#[derive(Debug)]
pub enum ReadOutcome {
    /// Nothing came in time.
    TimedOut,
    /// The client went away.
    Closed,
    /// The connection failed, with this message.
    Failed(String),
    /// A request came.
    Received(PlayerRequest),
}

/// What to do next while a player logs in.
#[derive(Debug)]
pub enum LoginStep {
    /// Wait for the next message.
    ReadRequest,
    /// Try to join the lobby with these credentials.
    Join(LoginCredentials),
    /// Send this to the client, then ask for the next step.
    Retry(PlayerResponse),
    /// The player is in.
    Done,
    /// Give up with this failure.
    Fail(PlayerHandlerError),
}

pub open spec fn exceeded_attempts() -> PlayerHandlerError {
    PlayerHandlerError::User(UserError::Login(LoginError::ExceededAttemptLimit))
}

/// A login in progress: a player may try `max_attempts` times; a failure of
/// their own (wrong password, name taken, no such lobby) is reported and
/// costs one try, anything else ends the login.
#[derive(Debug)]
pub struct LoginFlow {
    attempts: usize,
    max_attempts: usize,
}

impl LoginFlow {
    pub closed spec fn attempts_view(&self) -> usize {
        self.attempts
    }

    pub closed spec fn max_attempts_view(&self) -> usize {
        self.max_attempts
    }

    pub fn new(max_attempts: usize) -> (r: Self)
        ensures
            r.attempts_view() == 0,
            r.max_attempts_view() == max_attempts,
    {
        Self { attempts: 0, max_attempts }
    }

    /// Read another request while tries remain; otherwise give up.
    pub fn next(&self) -> (r: LoginStep)
        ensures
            self.attempts_view() < self.max_attempts_view() ==> r is ReadRequest,
            self.attempts_view() >= self.max_attempts_view() ==> r == LoginStep::Fail(
                exceeded_attempts(),
            ),
    {
        if self.attempts < self.max_attempts {
            LoginStep::ReadRequest
        } else {
            LoginStep::Fail(
                PlayerHandlerError::User(UserError::Login(LoginError::ExceededAttemptLimit)),
            )
        }
    }

    /// Goes on from one read, which uses up a try: only well-formed login
    /// credentials lead to a join; a timeout, a closed or failed connection,
    /// a request of another kind, or credentials the validator refuses end
    /// the login.
    pub fn on_read<V: CredsValidator>(&mut self, validator: &V, read: ReadOutcome) -> (r:
        LoginStep)
        requires
            old(self).attempts_view() < old(self).max_attempts_view(),
        ensures
            final(self).attempts_view() == old(self).attempts_view() + 1,
            final(self).max_attempts_view() == old(self).max_attempts_view(),
            read is TimedOut ==> r == LoginStep::Fail(
                PlayerHandlerError::User(UserError::ActivityTimeout),
            ),
            read is Closed ==> r == LoginStep::Fail(PlayerHandlerError::User(UserError::Disconnected)),
            read matches ReadOutcome::Failed(m) ==> (r matches LoginStep::Fail(
                PlayerHandlerError::Internal(InternalError::Dependency(d)),
            ) && d@ == "Failed to read request: "@ + m@),
            read matches ReadOutcome::Received(PlayerRequest::Command(c)) ==> r == LoginStep::Fail(
                PlayerHandlerError::User(
                    UserError::UnexpectedRequestType(PlayerRequest::Command(c)),
                ),
            ),
            read matches ReadOutcome::Received(PlayerRequest::Login(creds)) ==> if validator.lobby_id_ok(
                creds.lobby_id@,
            ) && validator.lobby_password_ok(creds.lobby_password@) && validator.username_ok(
                creds.username@,
            ) {
                r == LoginStep::Join(creds)
            } else {
                r == LoginStep::Fail(
                    PlayerHandlerError::User(
                        UserError::Login(LoginError::InvalidLoginCredentialsFormat),
                    ),
                )
            },
    {
        self.attempts = self.attempts + 1;
        match read {
            ReadOutcome::TimedOut => LoginStep::Fail(PlayerHandlerError::User(UserError::ActivityTimeout)),
            ReadOutcome::Closed => LoginStep::Fail(PlayerHandlerError::User(UserError::Disconnected)),
            ReadOutcome::Failed(m) => {
                let mut d = String::from_str("Failed to read request: ");
                d.append(m.as_str());
                LoginStep::Fail(PlayerHandlerError::Internal(InternalError::Dependency(d)))
            },
            ReadOutcome::Received(PlayerRequest::Command(c)) => LoginStep::Fail(
                PlayerHandlerError::User(
                    UserError::UnexpectedRequestType(PlayerRequest::Command(c)),
                ),
            ),
            ReadOutcome::Received(PlayerRequest::Login(creds)) => {
                if is_valid_login_request(validator, &creds) {
                    LoginStep::Join(creds)
                } else {
                    LoginStep::Fail(
                        PlayerHandlerError::User(
                            UserError::Login(LoginError::InvalidLoginCredentialsFormat),
                        ),
                    )
                }
            },
        }
    }

    /// Goes on from an attempt to join: success ends the login; a failure
    /// of the player's own is sent back to them before the next try; any
    /// other failure ends the login.
    pub fn on_join(&self, joined: Result<(), PlayerHandlerError>) -> (r: LoginStep)
        ensures
            joined is Ok ==> r is Done,
            joined matches Err(PlayerHandlerError::User(u)) ==> (r matches LoginStep::Retry(resp)
                && (resp.result matches Err(m) && m@ == user_error_message(u))),
            joined matches Err(PlayerHandlerError::Internal(i)) ==> r == LoginStep::Fail(
                PlayerHandlerError::Internal(i),
            ),
    {
        match joined {
            Ok(()) => LoginStep::Done,
            Err(PlayerHandlerError::User(u)) => LoginStep::Retry(
                PlayerResponse { result: Err(u.message()) },
            ),
            Err(PlayerHandlerError::Internal(i)) => LoginStep::Fail(PlayerHandlerError::Internal(i)),
        }
    }
}

/// Goes on from the manager's lookup of the lobby a player wants to join:
/// an unknown lobby and a wrong lobby password are the player's failures,
/// a failing manager the server's.
pub fn join_after_lookup<L>(
    creds: &LoginCredentials,
    entry: Result<&PasswordProtectedLobby<L>, ManagerError>,
) -> (r: Result<(), PlayerHandlerError>)
    ensures
        entry matches Err(ManagerError::EntryNotFound(_)) ==> r == Err::<(), _>(
            PlayerHandlerError::User(UserError::Login(LoginError::LobbyNotFound)),
        ),
        entry matches Err(e) ==> !(e is EntryNotFound) ==> (r matches Err(
            PlayerHandlerError::Internal(InternalError::Dependency(m)),
        ) && m@ == manager_error_message(e)),
        (entry matches Ok(e) && e.password_view() != creds.lobby_password@) ==> r == Err::<(), _>(
            PlayerHandlerError::User(UserError::Login(LoginError::IncorrectLobbyPassword)),
        ),
        (entry matches Ok(e) && e.password_view() == creds.lobby_password@) ==> r is Ok,
{
    match entry {
        Err(ManagerError::EntryNotFound(_)) => Err(
            PlayerHandlerError::User(UserError::Login(LoginError::LobbyNotFound)),
        ),
        Err(e) => Err(PlayerHandlerError::Internal(InternalError::Dependency(e.message()))),
        Ok(e) => {
            if !e.is_correct_password(creds.lobby_password.as_str()) {
                Err(PlayerHandlerError::User(UserError::Login(LoginError::IncorrectLobbyPassword)))
            } else {
                Ok(())
            }
        },
    }
}

/// Goes on from the lobby's answer to adding the player: a taken name is
/// the player's failure, a shut-down lobby or any other refusal the
/// server's. On success the credentials are kept without the password.
pub fn join_after_add(creds: LoginCredentials, added: Result<(), LobbyError>) -> (r: Result<
    LoginCredentials,
    PlayerHandlerError,
>)
    ensures
        added matches Err(LobbyError::PlayerIDConflict(_)) ==> r == Err::<LoginCredentials, _>(
            PlayerHandlerError::User(UserError::Login(LoginError::UsernameAlreadyTaken)),
        ),
        added matches Err(LobbyError::ActorShutdown) ==> r == Err::<LoginCredentials, _>(
            PlayerHandlerError::Internal(InternalError::InactiveLobby(creds.lobby_id)),
        ),
        added matches Err(LobbyError::PlayerIDNotFound(id)) ==> (r matches Err(
            PlayerHandlerError::Internal(InternalError::UnexpectedResponse(m)),
        ) && m@ == lobby_error_message(LobbyError::PlayerIDNotFound(id))),
        added is Ok ==> (r matches Ok(c) && c.lobby_id == creds.lobby_id && c.username
            == creds.username && c.lobby_password@.len() == 0),
{
    match added {
        Err(LobbyError::PlayerIDConflict(_)) => Err(
            PlayerHandlerError::User(UserError::Login(LoginError::UsernameAlreadyTaken)),
        ),
        Err(LobbyError::ActorShutdown) => Err(
            PlayerHandlerError::Internal(InternalError::InactiveLobby(creds.lobby_id)),
        ),
        Err(other) => Err(
            PlayerHandlerError::Internal(InternalError::UnexpectedResponse(other.message())),
        ),
        Ok(()) => {
            let LoginCredentials { lobby_id, lobby_password: _, username } = creds;
            Ok(LoginCredentials { lobby_id, lobby_password: String::new(), username })
        },
    }
}

/// Goes on from the lobby's answer to taking a leaving player out: a
/// shut-down lobby or any other refusal is the server's failure.
pub fn leave_after_remove<P>(creds: &LoginCredentials, removed: Result<P, LobbyError>) -> (r:
    Result<P, InternalError>)
    ensures
        removed matches Ok(p) ==> r == Ok::<P, InternalError>(p),
        removed matches Err(LobbyError::ActorShutdown) ==> (r matches Err(
            InternalError::InactiveLobby(id),
        ) && id@ == creds.lobby_id@),
        removed matches Err(e) ==> !(e is ActorShutdown) ==> (r matches Err(
            InternalError::UnexpectedResponse(m),
        ) && m@ == lobby_error_message(e)),
{
    match removed {
        Ok(p) => Ok(p),
        Err(LobbyError::ActorShutdown) => Err(InternalError::InactiveLobby(creds.lobby_id.clone())),
        Err(e) => Err(InternalError::UnexpectedResponse(e.message())),
    }
}

/// The player command in a request during play; a login request then is
/// the player's failure.
pub fn command_of(request: PlayerRequest) -> (r: Result<PlayerCommand, PlayerHandlerError>)
    ensures
        request matches PlayerRequest::Command(c) ==> r == Ok::<PlayerCommand, PlayerHandlerError>(c),
        request is Login ==> r == Err::<PlayerCommand, _>(
            PlayerHandlerError::User(UserError::UnexpectedRequestType(request)),
        ),
{
    match request {
        PlayerRequest::Command(c) => Ok(c),
        PlayerRequest::Login(creds) => Err(
            PlayerHandlerError::User(UserError::UnexpectedRequestType(PlayerRequest::Login(creds))),
        ),
    }
}

/// What a player is sent for an event from the game: a new display comes
/// as a refresh, new points as their points.
pub fn event_response(event: JeopardyPlayerEvent) -> (r: PlayerCommandResponse)
    ensures
        event matches JeopardyPlayerEvent::Display(d) ==> r == PlayerCommandResponse::Refresh(d),
        event matches JeopardyPlayerEvent::PointsUpdate(p) ==> r == PlayerCommandResponse::GetPoints(
            p,
        ),
{
    match event {
        JeopardyPlayerEvent::Display(d) => PlayerCommandResponse::Refresh(d),
        JeopardyPlayerEvent::PointsUpdate(p) => PlayerCommandResponse::GetPoints(p),
    }
}

/// How `Debug` writes the strings of a queue: `["a", "b"]`.
pub open spec fn queue_debug(q: Seq<Seq<char>>) -> Seq<char>
    decreases q.len(),
{
    if q.len() == 0 {
        "[]"@
    } else {
        "["@ + queue_items_debug(q) + "]"@
    }
}

/// The items of a queue as `Debug` writes them, separated by ", ".
pub open spec fn queue_items_debug(q: Seq<Seq<char>>) -> Seq<char>
    decreases q.len(),
{
    if q.len() == 0 {
        Seq::empty()
    } else if q.len() == 1 {
        str_debug(q[0])
    } else {
        queue_items_debug(q.drop_last()) + ", "@ + str_debug(q.last())
    }
}

/// How `Debug` writes a host's answer.
pub open spec fn host_response_debug(r: HostCommandResponse) -> Seq<char> {
    match r {
        HostCommandResponse::Success => "Success"@,
        HostCommandResponse::GetAnswer(a) => "GetAnswer("@ + str_debug(a@) + ")"@,
        HostCommandResponse::UpdatePoints(p) => "UpdatePoints("@ + decimal(p as int) + ")"@,
        HostCommandResponse::GetBuzzerQueue(q) => "GetBuzzerQueue("@ + queue_debug(
            q@.map_values(|s: String| s@),
        ) + ")"@,
    }
}

fn write_host_response(s: &mut String, r: &HostCommandResponse)
    ensures
        final(s)@ == old(s)@ + host_response_debug(*r),
{
    match r {
        HostCommandResponse::Success => s.append("Success"),
        HostCommandResponse::GetAnswer(a) => {
            s.append("GetAnswer(");
            s.append(debug_str(a.as_str()).as_str());
            s.append(")");
            assert(s@ =~= old(s)@ + host_response_debug(*r));
        },
        HostCommandResponse::UpdatePoints(p) => {
            s.append("UpdatePoints(");
            push_decimal(s, *p as i64);
            s.append(")");
            assert(s@ =~= old(s)@ + host_response_debug(*r));
        },
        HostCommandResponse::GetBuzzerQueue(q) => {
            let ghost items = q@.map_values(|x: String| x@);
            s.append("GetBuzzerQueue(");
            if q.len() == 0 {
                s.append("[]");
            } else {
                s.append("[");
                let ghost start = s@;
                let mut i: usize = 0;
                while i < q.len()
                    invariant
                        i <= q@.len(),
                        items == q@.map_values(|x: String| x@),
                        s@ == start + queue_items_debug(items.subrange(0, i as int)),
                    decreases q@.len() - i,
                {
                    proof {
                        let next = items.subrange(0, i as int + 1);
                        assert(next.drop_last() =~= items.subrange(0, i as int));
                        assert(next.last() == q@[i as int]@);
                        if i == 0 {
                            assert(items.subrange(0, 0) =~= Seq::<Seq<char>>::empty());
                        }
                    }
                    if i > 0 {
                        s.append(", ");
                    }
                    s.append(debug_str(q[i].as_str()).as_str());
                    i += 1;
                }
                s.append("]");
                assert(items.subrange(0, q@.len() as int) =~= items);
            }
            s.append(")");
            assert(s@ =~= old(s)@ + host_response_debug(*r));
        },
    }
}

pub open spec fn non_player_response_text(r: HostCommandResponse) -> Seq<char> {
    "Received non-player response for during player command handling: Host("@
        + host_response_debug(r) + ")"@
}

/// Goes on from the lobby's reply to a player's command: the player is
/// sent the game's answer, or the game's message for a failure of theirs; a
/// lobby that is shut down or answers otherwise is the server's failure.
pub fn after_player_command(
    lobby_id: &str,
    answer: Result<Result<JeopardyCommandResponse, JeopardyError>, LobbyError>,
) -> (r: Result<PlayerResponse, PlayerHandlerError>)
    ensures
        answer matches Err(LobbyError::ActorShutdown) ==> (r matches Err(
            PlayerHandlerError::Internal(InternalError::InactiveLobby(id)),
        ) && id@ == lobby_id@),
        answer matches Err(e) ==> !(e is ActorShutdown) ==> (r matches Err(
            PlayerHandlerError::Internal(InternalError::UnexpectedResponse(m)),
        ) && m@ == "Unexpected error during send game event to lobby: "@ + lobby_error_message(e)),
        answer matches Ok(Ok(JeopardyCommandResponse::Player(p))) ==> r == Ok::<
            PlayerResponse,
            PlayerHandlerError,
        >(PlayerResponse { result: Ok(p) }),
        answer matches Ok(Ok(JeopardyCommandResponse::Host(h))) ==> (r matches Err(
            PlayerHandlerError::Internal(InternalError::UnexpectedResponse(m)),
        ) && m@ == non_player_response_text(h)),
        answer matches Ok(Err(e)) ==> (r matches Ok(resp) && (resp.result matches Err(m) && m@
            == jeopardy_error_message(e))),
{
    match answer {
        Err(LobbyError::ActorShutdown) => Err(
            PlayerHandlerError::Internal(InternalError::InactiveLobby(lobby_id.to_owned())),
        ),
        Err(e) => {
            let mut m = String::from_str("Unexpected error during send game event to lobby: ");
            m.append(e.message().as_str());
            Err(PlayerHandlerError::Internal(InternalError::UnexpectedResponse(m)))
        },
        Ok(Ok(JeopardyCommandResponse::Player(p))) => Ok(PlayerResponse { result: Ok(p) }),
        Ok(Ok(JeopardyCommandResponse::Host(h))) => {
            let mut m = String::from_str(
                "Received non-player response for during player command handling: Host(",
            );
            write_host_response(&mut m, &h);
            m.append(")");
            Err(PlayerHandlerError::Internal(InternalError::UnexpectedResponse(m)))
        },
        Ok(Err(e)) => Ok(PlayerResponse { result: Err(e.message()) }),
    }
}

/// The failure reported when a player's connection breaks during play.
pub fn connection_failure(msg: &str) -> (r: PlayerHandlerError)
    ensures
        r matches PlayerHandlerError::Internal(InternalError::Dependency(m)) && m@
            == "Unexpected connection failure: "@ + msg@,
{
    let mut m = String::from_str("Unexpected connection failure: ");
    m.append(msg);
    PlayerHandlerError::Internal(InternalError::Dependency(m))
}

/// What to do next while a logged-in player plays.
#[derive(Debug)]
pub enum PlayStep {
    /// Send this command of the player's to the game.
    SendCommand(PlayerCommand),
    /// Send this to the client, then wait for more.
    Forward(PlayerResponse),
    /// The session is over; the player leaves without a failure.
    Finish,
    /// The session ends with this failure.
    Fail(PlayerHandlerError),
}

/// Goes on from what the client sent during play: a command goes to the
/// game; a closed connection ends the session cleanly; a login request, a
/// broken connection or silence past the time limit ends it with a failure.
pub fn play_after_read(read: ReadOutcome) -> (r: PlayStep)
    ensures
        read matches ReadOutcome::Received(PlayerRequest::Command(c)) ==> r == PlayStep::SendCommand(
            c,
        ),
        read matches ReadOutcome::Received(PlayerRequest::Login(creds)) ==> r == PlayStep::Fail(
            PlayerHandlerError::User(UserError::UnexpectedRequestType(PlayerRequest::Login(creds))),
        ),
        read is Closed ==> r is Finish,
        read matches ReadOutcome::Failed(m) ==> (r matches PlayStep::Fail(
            PlayerHandlerError::Internal(InternalError::Dependency(d)),
        ) && d@ == "Unexpected connection failure: "@ + m@),
        read is TimedOut ==> r == PlayStep::Fail(PlayerHandlerError::User(UserError::ActivityTimeout)),
{
    match read {
        ReadOutcome::Received(request) => match command_of(request) {
            Ok(command) => PlayStep::SendCommand(command),
            Err(e) => PlayStep::Fail(e),
        },
        ReadOutcome::Closed => PlayStep::Finish,
        ReadOutcome::Failed(m) => PlayStep::Fail(connection_failure(m.as_str())),
        ReadOutcome::TimedOut => PlayStep::Fail(PlayerHandlerError::User(UserError::ActivityTimeout)),
    }
}

/// Goes on from what the game sent the player during play: an event is
/// forwarded to the client; the end of the game's channel ends the session
/// cleanly.
pub fn play_after_event(event: Option<JeopardyPlayerEvent>) -> (r: PlayStep)
    ensures
        event matches Some(JeopardyPlayerEvent::Display(d)) ==> r == PlayStep::Forward(
            PlayerResponse { result: Ok(PlayerCommandResponse::Refresh(d)) },
        ),
        event matches Some(JeopardyPlayerEvent::PointsUpdate(p)) ==> r == PlayStep::Forward(
            PlayerResponse { result: Ok(PlayerCommandResponse::GetPoints(p)) },
        ),
        event is None ==> r is Finish,
{
    match event {
        Some(e) => PlayStep::Forward(PlayerResponse { result: Ok(event_response(e)) }),
        None => PlayStep::Finish,
    }
}

/// Why a connection is closed after a failure of the player's that ends
/// the session: the failure's message.
pub fn irrecoverable_user_reason(e: &UserError) -> (r: ErrorReason)
    ensures
        !r.internal_error,
        r.reason@ == user_error_message(*e),
{
    ErrorReason { internal_error: false, reason: e.message() }
}

/// Why a connection is closed after a failure of the server's; the details
/// stay on the server.
pub fn internal_error_reason() -> (r: ErrorReason)
    ensures
        r.internal_error,
        r.reason@ == "Internal Server Error"@,
{
    ErrorReason { internal_error: true, reason: "Internal Server Error".to_owned() }
}

} // verus!
