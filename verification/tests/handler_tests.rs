#![allow(non_snake_case)]

use jeopardy::board::{Board, FinalJeopardy, JeopardyConfig, Question};
use jeopardy::game::{
    HostCommand, HostCommandResponse, JeopardyCommand, JeopardyCommandResponse, JeopardyError,
    PlayerCommand, PlayerCommandResponse,
};
use jeopardy::handlers::{
    after_player_command, command_of, connection_failure, create_lobby_after_insert,
    event_response, host_command_reply, internal_error_reason, irrecoverable_user_reason,
    join_after_add, join_after_lookup, leave_after_remove, CreateLobbyFlow, CreateLobbyRequest,
    DeleteLobbyFlow, DeleteLobbyRequest, DeleteStep, HostCommandFlow, HostRequest, InternalError,
    LoginCredentials, LoginError, LoginFlow, LoginStep, PlayStep, PlayerHandlerError, PlayerRequest,
    ReadOutcome, UserError, play_after_event, play_after_read, cleanup_after_count,
    cleanup_after_lookup, CleanupStep,
};
use jeopardy::lobby::LobbyError;
use jeopardy::manager::{ManagerError, PasswordProtectedLobby};
use jeopardy::player::JeopardyPlayerEvent;
use jeopardy::validators::NonZeroAsciiValidator;

fn validator() -> NonZeroAsciiValidator {
    NonZeroAsciiValidator::new(32)
}

fn config() -> JeopardyConfig {
    let final_jeopardy =
        FinalJeopardy::new("hint".to_string(), Question::new("q".to_string(), "a".to_string()).unwrap())
            .unwrap();
    JeopardyConfig::new(vec![Board::test_default_from_counts(1, 1)], final_jeopardy).unwrap()
}

fn create_request(name: &str) -> CreateLobbyRequest {
    CreateLobbyRequest {
        lobby_name: name.to_string(),
        lobby_password: "lobby_pw".to_string(),
        host_password: "host_pw".to_string(),
        config: config(),
    }
}

fn creds() -> LoginCredentials {
    LoginCredentials {
        lobby_id: "lobby".to_string(),
        lobby_password: "lobby_pw".to_string(),
        username: "alice".to_string(),
    }
}

// ---- creating a lobby

#[test]
fn create_lobby_refuses_invalid_names() {
    let r = CreateLobbyFlow::start(&validator(), create_request("has space"));
    match r {
        Err(reply) => {
            assert_eq!(reply.status, 400);
            assert_eq!(
                reply.error.unwrap(),
                "Invalid format given for one or more parameters of create lobby request"
            );
        }
        Ok(_) => panic!("an invalid name was accepted"),
    }
}

#[test]
fn create_lobby_conflict_and_failures() {
    let flow = CreateLobbyFlow::start(&validator(), create_request("lobby")).unwrap();
    assert_eq!(flow.lobby_name(), "lobby");
    let reply = flow.after_lookup(Ok(true)).err().unwrap();
    assert_eq!(reply.status, 409);
    assert_eq!(
        reply.error.unwrap(),
        "Failed to create lobby. A lobby with the given name already exists."
    );

    let flow = CreateLobbyFlow::start(&validator(), create_request("lobby")).unwrap();
    let reply = flow.after_lookup(Err(ManagerError::Dependency("down".to_string()))).err().unwrap();
    assert_eq!(reply.status, 500);
    assert_eq!(reply.error.unwrap(), "Internal Server Error. Please try again later.");
}

#[test]
fn create_lobby_builds_the_game() {
    let flow = CreateLobbyFlow::start(&validator(), create_request("lobby")).unwrap();
    let new_lobby = flow.after_lookup(Ok(false)).ok().unwrap();
    assert_eq!(new_lobby.lobby_name, "lobby");
    assert_eq!(new_lobby.lobby_password, "lobby_pw");
    assert!(new_lobby.game.check_password("host_pw"));
    let reply = create_lobby_after_insert(Ok(()));
    assert_eq!(reply.status, 201);
    assert!(reply.error.is_none());
    let reply = create_lobby_after_insert(Err(ManagerError::EntryIDConflict("lobby".to_string())));
    assert_eq!(reply.status, 500);
}

#[test]
fn create_lobby_without_boards_is_refused() {
    let mut request = create_request("lobby");
    request.config = JeopardyConfig::without_boards(request.config.final_jeopardy().clone());
    let flow = CreateLobbyFlow::start(&validator(), request).unwrap();
    let reply = flow.after_lookup(Ok(false)).err().unwrap();
    assert_eq!(reply.status, 400);
    assert_eq!(reply.error.unwrap(), "Failed to create Jeopardy game instance. No boards found");
}

// ---- deleting a lobby

fn delete_request(force: bool) -> DeleteLobbyRequest {
    DeleteLobbyRequest { force, lobby_password: "lobby_pw".to_string(), host_password: "host_pw".to_string() }
}

#[test]
fn delete_lobby_lookup_outcomes() {
    let flow = DeleteLobbyFlow::start(&validator(), "lobby".to_string(), delete_request(false)).unwrap();
    let missing: Result<&PasswordProtectedLobby<()>, _> = Err(ManagerError::EntryNotFound("lobby".to_string()));
    match flow.after_lookup(missing) {
        DeleteStep::Reply(r) => {
            assert_eq!(r.status, 404);
            assert_eq!(r.error.unwrap(), "'lobby' not found. Possibly already deleted.");
        }
        _ => panic!("expected a reply"),
    }
    let entry = PasswordProtectedLobby::new("lobby".to_string(), "other".to_string(), ());
    match flow.after_lookup(Ok(&entry)) {
        DeleteStep::Reply(r) => {
            assert_eq!(r.status, 401);
            assert_eq!(r.error.unwrap(), "Delete unauthorized.");
        }
        _ => panic!("expected a reply"),
    }
    let entry = PasswordProtectedLobby::new("lobby".to_string(), "lobby_pw".to_string(), ());
    assert!(matches!(flow.after_lookup(Ok(&entry)), DeleteStep::CountPlayers));
    let forced = DeleteLobbyFlow::start(&validator(), "lobby".to_string(), delete_request(true)).unwrap();
    match forced.after_lookup(Ok(&entry)) {
        DeleteStep::CheckHostPassword(JeopardyCommand::Host { host_password, command: HostCommand::GetBuzzerQueue }) => {
            assert_eq!(host_password, "host_pw");
        }
        _ => panic!("expected the password check"),
    }
}

#[test]
fn delete_lobby_later_steps() {
    let flow = DeleteLobbyFlow::start(&validator(), "lobby".to_string(), delete_request(false)).unwrap();
    match flow.after_count(Ok(2)) {
        DeleteStep::Reply(r) => {
            assert_eq!(r.status, 409);
            assert_eq!(r.error.unwrap(), "Attempted to delete a non-empty lobby without the force flag.");
        }
        _ => panic!("expected a reply"),
    }
    assert!(matches!(flow.after_count(Ok(0)), DeleteStep::CheckHostPassword(_)));
    assert!(matches!(flow.after_count(Err(LobbyError::ActorShutdown)), DeleteStep::Remove));
    assert!(matches!(
        flow.after_password_check(Err(LobbyError::ActorShutdown)),
        DeleteStep::Remove
    ));
    match flow.after_password_check(Ok(Err(JeopardyError::IncorrectHostPassword))) {
        DeleteStep::Reply(r) => assert_eq!(r.status, 401),
        _ => panic!("expected a reply"),
    }
    assert!(matches!(
        flow.after_password_check(Ok(Ok(JeopardyCommandResponse::Host(HostCommandResponse::Success)))),
        DeleteStep::ShutDown
    ));
    assert!(matches!(flow.after_shutdown(Ok(())), DeleteStep::Remove));
    assert_eq!(flow.after_remove::<()>(Ok(())).status, 204);
    assert_eq!(flow.after_remove::<()>(Err(ManagerError::EntryNotFound("lobby".to_string()))).status, 500);
}

#[test]
fn delete_lobby_refuses_invalid_requests() {
    let r = DeleteLobbyFlow::start(&validator(), "".to_string(), delete_request(true));
    match r {
        Err(reply) => {
            assert_eq!(reply.status, 400);
            assert_eq!(
                reply.error.unwrap(),
                "Invalid format given for one or more parameters of delete lobby request"
            );
        }
        Ok(_) => panic!("an empty lobby id was accepted"),
    }
}

// ---- host commands

#[test]
fn host_command_flow() {
    let request = HostRequest {
        lobby_password: "lobby_pw".to_string(),
        command: JeopardyCommand::Host { host_password: "host_pw".to_string(), command: HostCommand::ClearBuzzerQueue },
    };
    let flow = HostCommandFlow::start(&validator(), "lobby", request).unwrap();
    let entry = PasswordProtectedLobby::new("lobby".to_string(), "wrong".to_string(), ());
    let reply = HostCommandFlow::start(
        &validator(),
        "lobby",
        HostRequest {
            lobby_password: "lobby_pw".to_string(),
            command: JeopardyCommand::Player { player_id: "bob".to_string(), command: PlayerCommand::Buzz },
        },
    )
    .unwrap()
    .after_lookup(Ok(&entry))
    .err()
    .unwrap();
    assert_eq!(reply.status, 401);
    assert!(matches!(reply.result, Err(m) if m == "Invalid lobby password"));
    let entry = PasswordProtectedLobby::new("lobby".to_string(), "lobby_pw".to_string(), ());
    let command = flow.after_lookup(Ok(&entry)).ok().unwrap();
    assert!(matches!(command, JeopardyCommand::Host { command: HostCommand::ClearBuzzerQueue, .. }));
}

#[test]
fn host_command_reply_statuses() {
    let r = host_command_reply(Ok(Ok(JeopardyCommandResponse::Host(HostCommandResponse::Success))));
    assert_eq!(r.status, 200);
    let r = host_command_reply(Ok(Err(JeopardyError::IncorrectHostPassword)));
    assert_eq!(r.status, 401);
    assert!(matches!(r.result, Err(m) if m == "Incorrect host password. Action unauthorized"));
    let r = host_command_reply(Ok(Err(JeopardyError::InvalidBoardIndex(3))));
    assert_eq!(r.status, 400);
    assert!(matches!(r.result, Err(m) if m == "Invalid board index 3 for the given Jeopardy instance"));
    let r = host_command_reply(Err(LobbyError::ActorShutdown));
    assert_eq!(r.status, 500);
}

#[test]
fn host_request_with_invalid_password_is_refused() {
    let request = HostRequest {
        lobby_password: "lobby pw".to_string(),
        command: JeopardyCommand::Host { host_password: "host_pw".to_string(), command: HostCommand::ClearBuzzerQueue },
    };
    let reply = HostCommandFlow::start(&validator(), "lobby", request).err().unwrap();
    assert_eq!(reply.status, 400);
}

// ---- players

#[test]
fn login_flow_joins_with_valid_credentials() {
    let mut flow = LoginFlow::new(2);
    assert!(matches!(flow.next(), LoginStep::ReadRequest));
    let step = flow.on_read(&validator(), ReadOutcome::Received(PlayerRequest::Login(creds())));
    assert!(matches!(step, LoginStep::Join(c) if c.username == "alice"));
    let step = flow.on_join(Err(PlayerHandlerError::User(UserError::Login(LoginError::IncorrectLobbyPassword))));
    match step {
        LoginStep::Retry(resp) => {
            assert!(matches!(resp.result, Err(m) if m == "Incorrect password for the desired lobby"))
        }
        _ => panic!("expected a retry"),
    }
    assert!(matches!(flow.next(), LoginStep::ReadRequest));
    flow.on_read(&validator(), ReadOutcome::Received(PlayerRequest::Login(creds())));
    assert!(matches!(
        flow.next(),
        LoginStep::Fail(PlayerHandlerError::User(UserError::Login(LoginError::ExceededAttemptLimit)))
    ));
    assert!(matches!(flow.on_join(Ok(())), LoginStep::Done));
}

#[test]
fn login_flow_ends_on_bad_reads() {
    let mut flow = LoginFlow::new(5);
    assert!(matches!(
        flow.on_read(&validator(), ReadOutcome::TimedOut),
        LoginStep::Fail(PlayerHandlerError::User(UserError::ActivityTimeout))
    ));
    assert!(matches!(
        flow.on_read(&validator(), ReadOutcome::Closed),
        LoginStep::Fail(PlayerHandlerError::User(UserError::Disconnected))
    ));
    match flow.on_read(&validator(), ReadOutcome::Failed("bad json".to_string())) {
        LoginStep::Fail(PlayerHandlerError::Internal(InternalError::Dependency(m))) => {
            assert_eq!(m, "Failed to read request: bad json")
        }
        _ => panic!("expected a failure"),
    }
    let mut bad = creds();
    bad.username = "has space".to_string();
    assert!(matches!(
        flow.on_read(&validator(), ReadOutcome::Received(PlayerRequest::Login(bad))),
        LoginStep::Fail(PlayerHandlerError::User(UserError::Login(LoginError::InvalidLoginCredentialsFormat)))
    ));
    assert!(matches!(
        flow.on_read(&validator(), ReadOutcome::Received(PlayerRequest::Command(PlayerCommand::Buzz))),
        LoginStep::Fail(PlayerHandlerError::User(UserError::UnexpectedRequestType(_)))
    ));
    assert!(matches!(LoginFlow::new(0).next(), LoginStep::Fail(_)));
}

#[test]
fn joining_a_lobby() {
    let c = creds();
    let missing: Result<&PasswordProtectedLobby<()>, _> = Err(ManagerError::EntryNotFound("lobby".to_string()));
    assert!(matches!(
        join_after_lookup(&c, missing),
        Err(PlayerHandlerError::User(UserError::Login(LoginError::LobbyNotFound)))
    ));
    let broken: Result<&PasswordProtectedLobby<()>, _> = Err(ManagerError::Dependency("disk".to_string()));
    assert!(matches!(
        join_after_lookup(&c, broken),
        Err(PlayerHandlerError::Internal(InternalError::Dependency(m))) if m == "disk"
    ));
    let entry = PasswordProtectedLobby::new("lobby".to_string(), "nope".to_string(), ());
    assert!(matches!(
        join_after_lookup(&c, Ok(&entry)),
        Err(PlayerHandlerError::User(UserError::Login(LoginError::IncorrectLobbyPassword)))
    ));
    let entry = PasswordProtectedLobby::new("lobby".to_string(), "lobby_pw".to_string(), ());
    assert!(join_after_lookup(&c, Ok(&entry)).is_ok());

    let kept = join_after_add(creds(), Ok(())).unwrap();
    assert_eq!(kept.lobby_password, "");
    assert_eq!(kept.username, "alice");
    assert!(matches!(
        join_after_add(creds(), Err(LobbyError::PlayerIDConflict("alice".to_string()))),
        Err(PlayerHandlerError::User(UserError::Login(LoginError::UsernameAlreadyTaken)))
    ));
    assert!(matches!(
        join_after_add(creds(), Err(LobbyError::ActorShutdown)),
        Err(PlayerHandlerError::Internal(InternalError::InactiveLobby(id))) if id == "lobby"
    ));
}

#[test]
fn leaving_a_lobby() {
    let c = creds();
    assert_eq!(leave_after_remove(&c, Ok(5u8)).unwrap(), 5);
    assert!(matches!(
        leave_after_remove::<u8>(&c, Err(LobbyError::ActorShutdown)),
        Err(InternalError::InactiveLobby(id)) if id == "lobby"
    ));
    assert!(matches!(
        leave_after_remove::<u8>(&c, Err(LobbyError::PlayerIDNotFound("alice".to_string()))),
        Err(InternalError::UnexpectedResponse(m)) if m == "Player ID: 'alice' was not found in the lobby"
    ));
}

#[test]
fn playing() {
    assert!(matches!(command_of(PlayerRequest::Command(PlayerCommand::Refresh)), Ok(PlayerCommand::Refresh)));
    let err = command_of(PlayerRequest::Login(creds())).err().unwrap();
    assert_eq!(
        err.message(),
        "Unexpected Request Type: Login(LoginCredentials { lobby_id: \"lobby\", lobby_password: \"lobby_pw\", username: \"alice\" })"
    );
    assert!(matches!(event_response(JeopardyPlayerEvent::PointsUpdate(3)), PlayerCommandResponse::GetPoints(3)));
    let r = after_player_command(
        "lobby",
        Ok(Ok(JeopardyCommandResponse::Player(PlayerCommandResponse::GetWager(4)))),
    )
    .unwrap();
    assert!(matches!(r.result, Ok(PlayerCommandResponse::GetWager(4))));
    let r = after_player_command("lobby", Ok(Err(JeopardyError::PlayerForGivenIDNotFound("x".to_string())))).unwrap();
    assert!(matches!(r.result, Err(m) if m == "The corresponding player for ID: x was not found"));
    assert!(matches!(
        after_player_command("lobby", Err(LobbyError::ActorShutdown)),
        Err(PlayerHandlerError::Internal(InternalError::InactiveLobby(id))) if id == "lobby"
    ));
    assert!(matches!(
        after_player_command("lobby", Ok(Ok(JeopardyCommandResponse::Host(HostCommandResponse::Success)))),
        Err(PlayerHandlerError::Internal(InternalError::UnexpectedResponse(_)))
    ));
    assert_eq!(connection_failure("eof").message(), "Unexpected connection failure: eof");
}

#[test]
fn disconnect_reasons() {
    let r = irrecoverable_user_reason(&UserError::Login(LoginError::ExceededAttemptLimit));
    assert!(!r.internal_error);
    assert_eq!(r.reason, "User exceeded login attempt limit");
    let r = internal_error_reason();
    assert!(r.internal_error);
    assert_eq!(r.reason, "Internal Server Error");
    assert_eq!(
        PlayerRequest::Command(PlayerCommand::SetFreeResponse("a \"b\"".to_string())).debug_text(),
        "Command(SetFreeResponse(\"a \\\"b\\\"\"))"
    );
    assert_eq!(PlayerRequest::Command(PlayerCommand::SetWager(-7)).debug_text(), "Command(SetWager(-7))");
    assert_eq!(
        InternalError::InactiveLobby("l".to_string()).message(),
        "Inactive lobby ID: 'l' still present in manager"
    );
}

#[test]
fn debug_texts_match_debug_formatting() {
    let requests = vec![
        PlayerRequest::Login(LoginCredentials {
            lobby_id: "l\"x".to_string(),
            lobby_password: "p\\w".to_string(),
            username: "ü\n".to_string(),
        }),
        PlayerRequest::Command(PlayerCommand::SetWager(i32::MIN)),
        PlayerRequest::Command(PlayerCommand::SetFreeResponse("\t\"hi\"".to_string())),
        PlayerRequest::Command(PlayerCommand::GetScoreboard),
    ];
    for request in requests {
        assert_eq!(request.debug_text(), format!("{request:?}"));
    }
    let queue: std::collections::VecDeque<String> = vec!["a".to_string(), "b\"c".to_string()].into();
    for host in [
        HostCommandResponse::GetBuzzerQueue(queue),
        HostCommandResponse::GetBuzzerQueue(Default::default()),
        HostCommandResponse::UpdatePoints(-3),
        HostCommandResponse::GetAnswer("x".to_string()),
    ] {
        let expected = format!(
            "Received non-player response for during player command handling: {:?}",
            JeopardyCommandResponse::Host(host.clone_for_test())
        );
        match after_player_command("lobby", Ok(Ok(JeopardyCommandResponse::Host(host)))) {
            Err(PlayerHandlerError::Internal(InternalError::UnexpectedResponse(m))) => assert_eq!(m, expected),
            _ => panic!("expected a failure"),
        }
    }
}

trait CloneForTest {
    fn clone_for_test(&self) -> Self;
}

impl CloneForTest for HostCommandResponse {
    fn clone_for_test(&self) -> Self {
        match self {
            HostCommandResponse::Success => HostCommandResponse::Success,
            HostCommandResponse::GetAnswer(a) => HostCommandResponse::GetAnswer(a.clone()),
            HostCommandResponse::UpdatePoints(p) => HostCommandResponse::UpdatePoints(*p),
            HostCommandResponse::GetBuzzerQueue(q) => HostCommandResponse::GetBuzzerQueue(q.clone()),
        }
    }
}

#[test]
fn play_step_after_each_kind_of_read() {
    assert!(matches!(
        play_after_read(ReadOutcome::Received(PlayerRequest::Command(PlayerCommand::Buzz))),
        PlayStep::SendCommand(PlayerCommand::Buzz)
    ));
    let login = LoginCredentials {
        lobby_id: "lobby".to_string(),
        lobby_password: "pw".to_string(),
        username: "p1".to_string(),
    };
    assert!(matches!(
        play_after_read(ReadOutcome::Received(PlayerRequest::Login(login))),
        PlayStep::Fail(PlayerHandlerError::User(UserError::UnexpectedRequestType(PlayerRequest::Login(_))))
    ));
    assert!(matches!(play_after_read(ReadOutcome::Closed), PlayStep::Finish));
    assert!(matches!(
        play_after_read(ReadOutcome::TimedOut),
        PlayStep::Fail(PlayerHandlerError::User(UserError::ActivityTimeout))
    ));
    assert!(matches!(
        play_after_read(ReadOutcome::Failed("reset".to_string())),
        PlayStep::Fail(PlayerHandlerError::Internal(InternalError::Dependency(m)))
            if m == "Unexpected connection failure: reset"
    ));
}

#[test]
fn play_step_after_each_kind_of_event() {
    assert!(matches!(
        play_after_event(Some(JeopardyPlayerEvent::PointsUpdate(40))),
        PlayStep::Forward(r) if matches!(r.result, Ok(PlayerCommandResponse::GetPoints(40)))
    ));
    assert!(matches!(play_after_event(None), PlayStep::Finish));
}

#[test]
fn empty_lobby_is_removed_after_grace_period() {
    assert!(matches!(cleanup_after_lookup(true), CleanupStep::CountPlayers));
    assert!(matches!(cleanup_after_lookup(false), CleanupStep::Done));
    assert!(matches!(cleanup_after_count(Ok(0)), CleanupStep::Remove));
    assert!(matches!(cleanup_after_count(Ok(3)), CleanupStep::Done));
    assert!(matches!(cleanup_after_count(Err(LobbyError::ActorShutdown)), CleanupStep::Remove));
}
