#![allow(non_snake_case)]

use jeopardy::conn::ErrorReason;
use jeopardy::game::{
    HostCommand, HostCommandResponse, Jeopardy, JeopardyCommand, JeopardyCommandResponse,
    PlayerCommand, PlayerCommandResponse,
};
use jeopardy::board::{Board, FinalJeopardy, JeopardyConfig, Question};
use jeopardy::lobby::{ActorLobby, LobbyCommand, LobbyError, LobbyReply};
use jeopardy::manager::{
    Manager, ManagerEntry, ManagerError, MapManager, PasswordProtectedLobby, TestManager,
    TestManagerError,
};
use jeopardy::player::JeopardyPlayer;
use jeopardy::players::PlayerMap;
use jeopardy::web_game::lobby::{Lobby, LobbyError as RoomError, UserError as RoomUserError};
use jeopardy::web_game::lobby_manager::{
    LobbyManager, LobbyManagerError, LobbyMap, UserError as MapUserError,
};
use jeopardy::web_game::player::{Player, PlayerError, UserError as PlayerUserError};

fn test_game() -> Jeopardy {
    let final_jeopardy =
        FinalJeopardy::new("hint".to_string(), Question::new("q".to_string(), "a".to_string()).unwrap())
            .unwrap();
    let config = JeopardyConfig::new(vec![Board::test_default_from_counts(2, 2)], final_jeopardy).unwrap();
    Jeopardy::new("host", config).unwrap()
}

fn test_lobby() -> ActorLobby<Jeopardy> {
    ActorLobby::new(test_game(), PlayerMap::new())
}

// ---- the lobby's own state

#[test]
fn lobby_adds_and_refuses_duplicate_players() {
    let mut lobby = test_lobby();
    assert!(lobby.add_player("a".to_string(), JeopardyPlayer::new("a".to_string())).is_ok());
    assert!(lobby.has_player("a"));
    let r = lobby.add_player("a".to_string(), JeopardyPlayer::new("a".to_string()));
    assert!(matches!(r, Err(LobbyError::PlayerIDConflict(id)) if id == "a"));
    assert_eq!(lobby.player_count(), 1);
}

#[test]
fn lobby_removes_players() {
    let mut lobby = test_lobby();
    lobby.add_player("a".to_string(), JeopardyPlayer::new("a".to_string())).unwrap();
    let p = lobby.remove_player("a".to_string()).unwrap();
    assert_eq!(p.wager(), 0);
    assert!(!lobby.has_player("a"));
    let r = lobby.remove_player("a".to_string());
    assert!(matches!(r, Err(LobbyError::PlayerIDNotFound(id)) if id == "a"));
}

#[test]
fn lobby_answers_commands() {
    let mut lobby = test_lobby();
    let r = lobby.handle(LobbyCommand::AddPlayer("p".to_string(), JeopardyPlayer::new("p".to_string())));
    assert!(matches!(r, LobbyReply::AddPlayer(Ok(()))));
    let r = lobby.handle(LobbyCommand::HasPlayer("p".to_string()));
    assert!(matches!(r, LobbyReply::HasPlayer(true)));
    let r = lobby.handle(LobbyCommand::PlayerCount);
    assert!(matches!(r, LobbyReply::PlayerCount(1)));
    let r = lobby.handle(LobbyCommand::GameEvent(JeopardyCommand::Player {
        player_id: "p".to_string(),
        command: PlayerCommand::GetPoints,
    }));
    assert!(matches!(
        r,
        LobbyReply::GameEvent((Ok(JeopardyCommandResponse::Player(PlayerCommandResponse::GetPoints(0))), _))
    ));
    let r = lobby.handle(LobbyCommand::GameEvent(JeopardyCommand::Host {
        host_password: "host".to_string(),
        command: HostCommand::GetBuzzerQueue,
    }));
    assert!(matches!(
        r,
        LobbyReply::GameEvent((Ok(JeopardyCommandResponse::Host(HostCommandResponse::GetBuzzerQueue(_))), _))
    ));
}

#[test]
fn only_the_first_shutdown_is_acknowledged() {
    let mut lobby = test_lobby();
    assert!(!lobby.is_closed());
    assert!(matches!(lobby.handle(LobbyCommand::Shutdown), LobbyReply::Shutdown(true)));
    assert!(lobby.is_closed());
    assert!(matches!(lobby.handle(LobbyCommand::Shutdown), LobbyReply::Shutdown(false)));
    // queued requests are still answered
    assert!(matches!(lobby.handle(LobbyCommand::PlayerCount), LobbyReply::PlayerCount(0)));
}

#[test]
fn lobby_error_messages() {
    assert_eq!(
        LobbyError::PlayerIDConflict("x".to_string()).message(),
        "Player ID: 'x' conflicts with another in the lobby"
    );
    assert_eq!(LobbyError::ActorShutdown.message(), "Lobby closed due to actor thread shutdown");
}

// ---- managers

#[test]
fn GIVEN_pw_lobby_WHEN_check_password_THEN_ok() {
    let password = "12345".to_string();
    let lobby = PasswordProtectedLobby::new("1".to_string(), password.clone(), ());
    assert!(lobby.is_correct_password(&password));
    assert_eq!(lobby.id(), "1");
}

#[test]
fn GIVEN_incorrect_pw_for_pw_lobby_WHEN_check_password_THEN_ok() {
    let lobby = PasswordProtectedLobby::new("1".to_string(), "12345".to_string(), ());
    assert_eq!(lobby.is_correct_password("please"), false);
}

#[test]
fn GIVEN_entry_WHEN_add_THEN_ok() {
    let mut manager = MapManager::new();
    let id = "1";
    let entry = PasswordProtectedLobby::new(id.to_string(), "password".to_string(), 7u8);
    let len_before = manager.len().unwrap();
    assert_eq!(false, manager.has(id).unwrap());
    manager.add(id, entry).unwrap();
    assert_eq!(len_before + 1, manager.len().unwrap());
    assert!(manager.has(id).unwrap());
    assert_eq!(*manager.get(id).unwrap().lobby(), 7u8);
}

#[test]
fn GIVEN_duplicate_entry_id_WHEN_add_THEN_error() {
    let mut manager = MapManager::new();
    let id = "1";
    manager.add(id, PasswordProtectedLobby::new(id.to_string(), "password".to_string(), ())).unwrap();
    let len_before = manager.len().unwrap();
    let duplicate = PasswordProtectedLobby::new(id.to_string(), "password2".to_string(), ());
    let result = manager.add(id, duplicate);
    assert!(matches!(result, Err(ManagerError::EntryIDConflict(conflict_id)) if conflict_id == id));
    assert_eq!(len_before, manager.len().unwrap());
    assert!(manager.get(id).unwrap().is_correct_password("password"));
}

#[test]
fn map_manager_remove_and_missing_entries() {
    let mut manager: MapManager<PasswordProtectedLobby<()>> = MapManager::new();
    assert!(matches!(manager.get("x"), Err(ManagerError::EntryNotFound(id)) if id == "x"));
    manager.add("x", PasswordProtectedLobby::new("x".to_string(), "p".to_string(), ())).unwrap();
    assert!(manager.remove("x").is_ok());
    assert!(manager.is_empty().unwrap());
    assert!(matches!(manager.remove("x"), Err(ManagerError::EntryNotFound(id)) if id == "x"));
    assert_eq!(
        ManagerError::EntryNotFound("x".to_string()).message(),
        "Requested entry 'x' not found "
    );
}

#[test]
fn manager_trait_over_map_manager() {
    fn add_twice<M: Manager<Entry = u8>>(m: &mut M) -> bool {
        m.add("a", 1).is_ok() && m.add("a", 2).is_err()
    }
    let mut manager: MapManager<u8> = MapManager::new();
    assert!(add_twice(&mut manager));
    assert_eq!(Manager::len(&manager).unwrap(), 1);
}

#[test]
fn GIVEN_always_fail_WHEN_manager_THEN_ok() {
    let mut manager: TestManager<u8> = TestManager::new();
    manager.set_fail_after_n(3);
    manager.set_always_fail();
    assert!(manager.fail());
    let r = manager.has("a");
    assert!(matches!(r, Err(ManagerError::Dependency(m)) if m == "test induced failure"));
    assert!(manager.add("a", 1).is_err());
    assert!(manager.len().is_err());
}

#[test]
fn GIVEN_never_fail_WHEN_manager_THEN_ok() {
    let mut manager: TestManager<u8> = TestManager::new();
    assert!(manager.fail());
    manager.set_never_fail();
    assert!(!manager.fail());
    manager.add("a", 1).unwrap();
    assert!(manager.has("a").unwrap());
    assert_eq!(*manager.get("a").unwrap(), 1);
    assert_eq!(manager.remove("a").unwrap(), 1);
    assert!(manager.is_empty().unwrap());
}

#[test]
fn GIVEN_n_operations_WHEN_manager_THEN_ok() {
    let mut manager: TestManager<u8> = TestManager::new();
    manager.set_fail_after_n(2);
    assert!(manager.has("a").is_ok());
    assert!(manager.len().is_ok());
    assert!(manager.has("a").is_err());
    manager.reset();
    assert!(manager.has("a").is_ok());
    assert_eq!(TestManagerError::TestInducedError.message(), "test induced failure");
}

#[test]
fn close_codes() {
    let fault = ErrorReason { internal_error: true, reason: "x".to_string() };
    let user = ErrorReason { internal_error: false, reason: "y".to_string() };
    assert_eq!(fault.close_code(), 1011);
    assert_eq!(user.close_code(), 1007);
}

// ---- the first lobby bookkeeping

const TEST_LOBBY_NAME: &str = "test_lobby";
const TEST_LOBBY_PASSWORD: &str = "test_password";
const TEST_PLAYER_NAME: &str = "test_player";
const TEST_PLAYER_INPUT: &str = "test input";
const TEST_PLAYER_POINTS: i32 = 100;
const TEST_PLAYER_WAGER: i32 = 100;

fn create_test_player(name: &str) -> Player {
    let mut player = Player::new(name.to_string());
    player.set_free_response(TEST_PLAYER_INPUT.to_string()).unwrap();
    player.set_points(TEST_PLAYER_POINTS);
    player.set_wager(TEST_PLAYER_WAGER).unwrap();
    player
}

#[test]
fn GIVEN_empty_lobby_WHEN_add_player_THEN_ok() {
    let mut lobby = Lobby::new(TEST_LOBBY_NAME.to_string(), TEST_LOBBY_PASSWORD.to_string());
    lobby.add_player(create_test_player(TEST_PLAYER_NAME)).unwrap();
    let player = lobby.get_player(TEST_PLAYER_NAME).unwrap();
    assert_eq!(player.get_name(), TEST_PLAYER_NAME);
    assert_eq!(player.get_free_response(), TEST_PLAYER_INPUT);
    assert_eq!(player.get_points(), TEST_PLAYER_POINTS);
    assert_eq!(player.get_wager(), TEST_PLAYER_WAGER);
}

#[test]
fn GIVEN_lobby_with_conflicting_player_name_WHEN_add_player_THEN_err() {
    let mut lobby = Lobby::new(TEST_LOBBY_NAME.to_string(), TEST_LOBBY_PASSWORD.to_string());
    lobby.add_player(create_test_player(TEST_PLAYER_NAME)).unwrap();
    let result = lobby.add_player(create_test_player(TEST_PLAYER_NAME));
    assert!(matches!(
        result,
        Err(RoomError::User(RoomUserError::UsernameTaken(name))) if name == TEST_PLAYER_NAME
    ));
}

#[test]
fn GIVEN_empty_lobby_WHEN_get_player_THEN_err() {
    let lobby = Lobby::new(TEST_LOBBY_NAME.to_string(), TEST_LOBBY_PASSWORD.to_string());
    let result = lobby.get_player(TEST_PLAYER_NAME);
    assert!(matches!(
        result,
        Err(RoomError::User(RoomUserError::UserNotFound(name))) if name == TEST_PLAYER_NAME
    ));
}

#[test]
fn GIVEN_empty_lobby_WHEN_get_mut_player_THEN_err() {
    let mut lobby = Lobby::new(TEST_LOBBY_NAME.to_string(), TEST_LOBBY_PASSWORD.to_string());
    let result = lobby.get_mut_player(TEST_PLAYER_NAME);
    assert!(matches!(
        result,
        Err(RoomError::User(RoomUserError::UserNotFound(name))) if name == TEST_PLAYER_NAME
    ));
}

#[test]
fn GIVEN_lobby_WHEN_get_mut_player_THEN_ok() {
    let mut lobby = Lobby::new(TEST_LOBBY_NAME.to_string(), TEST_LOBBY_PASSWORD.to_string());
    lobby.add_player(create_test_player(TEST_PLAYER_NAME)).unwrap();
    let player = lobby.get_mut_player(TEST_PLAYER_NAME).unwrap();
    assert_eq!(player.get_name(), TEST_PLAYER_NAME);
    player.set_free_response(String::new()).unwrap();
}

#[test]
fn GIVEN_empty_lobby_WHEN_remove_player_THEN_err() {
    let mut lobby = Lobby::new(TEST_LOBBY_NAME.to_string(), TEST_LOBBY_PASSWORD.to_string());
    let result = lobby.remove_player(TEST_PLAYER_NAME);
    assert!(matches!(
        result,
        Err(RoomError::User(RoomUserError::UserNotFound(name))) if name == TEST_PLAYER_NAME
    ));
}

#[test]
fn GIVEN_lobby_WHEN_remove_player_THEN_ok() {
    let mut lobby = Lobby::new(TEST_LOBBY_NAME.to_string(), TEST_LOBBY_PASSWORD.to_string());
    lobby.add_player(create_test_player(TEST_PLAYER_NAME)).unwrap();
    let player = lobby.remove_player(TEST_PLAYER_NAME).unwrap();
    assert_eq!(player.get_name(), TEST_PLAYER_NAME);
    assert_eq!(player.get_free_response(), TEST_PLAYER_INPUT);
    assert_eq!(player.get_points(), TEST_PLAYER_POINTS);
    assert_eq!(player.get_wager(), TEST_PLAYER_WAGER);
}

#[test]
fn GIVEN_empty_lobby_map_WHEN_add_THEN_ok() {
    let mut lobby_map = LobbyMap::new();
    let new_lobby = Lobby::new(TEST_LOBBY_NAME.to_string(), TEST_LOBBY_PASSWORD.to_string());
    lobby_map.add(new_lobby).unwrap();
    let lobby = lobby_map.get(TEST_LOBBY_NAME).unwrap();
    assert_eq!(lobby.get_name(), TEST_LOBBY_NAME);
    assert!(lobby.is_correct_password(TEST_LOBBY_PASSWORD));
}

#[test]
fn GIVEN_lobby_map_with_conflicting_lobby_name_WHEN_add_THEN_err() {
    let mut lobby_map = LobbyMap::new();
    lobby_map.add(Lobby::new(TEST_LOBBY_NAME.to_string(), TEST_LOBBY_NAME.to_string())).unwrap();
    let result = lobby_map.add(Lobby::new(TEST_LOBBY_NAME.to_string(), TEST_LOBBY_NAME.to_string()));
    assert!(matches!(
        result,
        Err(LobbyManagerError::User(MapUserError::LobbyAlreadyExists(name))) if name == TEST_LOBBY_NAME
    ));
}

#[test]
fn GIVEN_empty_lobby_map_WHEN_get_THEN_err() {
    let lobby_map = LobbyMap::new();
    let result = lobby_map.get(TEST_LOBBY_NAME);
    assert!(matches!(
        result,
        Err(LobbyManagerError::User(MapUserError::LobbyNotFound(name))) if name == TEST_LOBBY_NAME
    ));
}

#[test]
fn GIVEN_lobby_map_WHEN_get_THEN_ok() {
    let mut lobby_map = LobbyMap::new();
    lobby_map.add(Lobby::new(TEST_LOBBY_NAME.to_string(), TEST_LOBBY_PASSWORD.to_string())).unwrap();
    let lobby = lobby_map.get(TEST_LOBBY_NAME).unwrap();
    assert_eq!(lobby.get_name(), TEST_LOBBY_NAME);
    assert!(lobby.is_correct_password(TEST_LOBBY_PASSWORD));
}

#[test]
fn GIVEN_empty_lobby_map_WHEN_get_mut_THEN_err() {
    let mut lobby_map = LobbyMap::new();
    let result = lobby_map.get_mut(TEST_LOBBY_NAME);
    assert!(matches!(
        result,
        Err(LobbyManagerError::User(MapUserError::LobbyNotFound(name))) if name == TEST_LOBBY_NAME
    ));
}

#[test]
fn GIVEN_lobby_map_WHEN_get_mut_THEN_ok() {
    let mut lobby_map = LobbyMap::new();
    lobby_map.add(Lobby::new(TEST_LOBBY_NAME.to_string(), TEST_LOBBY_PASSWORD.to_string())).unwrap();
    let lobby = lobby_map.get_mut(TEST_LOBBY_NAME).unwrap();
    assert_eq!(lobby.get_name(), TEST_LOBBY_NAME);
    assert!(lobby.is_correct_password(TEST_LOBBY_PASSWORD));
    let _ = lobby.add_player(Player::new("test".to_string()));
}

#[test]
fn GIVEN_empty_lobby_map_WHEN_remove_THEN_err() {
    let mut lobby_map = LobbyMap::new();
    let result = lobby_map.remove(TEST_LOBBY_NAME);
    assert!(matches!(
        result,
        Err(LobbyManagerError::User(MapUserError::LobbyNotFound(name))) if name == TEST_LOBBY_NAME
    ));
}

#[test]
fn GIVEN_lobby_map_WHEN_remove_THEN_ok() {
    let mut lobby_map = LobbyMap::new();
    lobby_map.add(Lobby::new(TEST_LOBBY_NAME.to_string(), TEST_LOBBY_PASSWORD.to_string())).unwrap();
    let lobby = lobby_map.remove(TEST_LOBBY_NAME).unwrap();
    assert_eq!(lobby.get_name(), TEST_LOBBY_NAME);
    assert!(lobby.is_correct_password(TEST_LOBBY_PASSWORD));
}

#[test]
fn GIVEN_invalid_wager_WHEN_set_wager_THEN_err() {
    let mut player = Player::new("player".to_string());
    player.set_points(100);
    let negative_wager = -1;
    let negative_wager_result = player.set_wager(negative_wager);
    assert!(matches!(
        negative_wager_result,
        Err(PlayerError::User(PlayerUserError::InvalidWager(wager, points)))
            if wager == negative_wager && points == player.get_points()
    ));
    let wager_more_than_owned = player.get_points() + 1;
    let wager_more_than_owned_result = player.set_wager(wager_more_than_owned);
    assert!(matches!(
        wager_more_than_owned_result,
        Err(PlayerError::User(PlayerUserError::InvalidWager(wager, points)))
            if wager == wager_more_than_owned && points == player.get_points()
    ));
}

#[test]
fn GIVEN_invalid_free_response_WHEN_set_free_response_THEN_err() {
    let mut player = Player::new("player".to_string());
    let result = player.set_free_response("the answer.".to_string());
    assert!(matches!(result, Err(PlayerError::User(PlayerUserError::InvalidFreeResponse))));
}

#[test]
fn GIVEN_valid_free_response_WHEN_set_free_response_THEN_ok() {
    let mut player = Player::new("player".to_string());
    player.set_free_response("the answer".to_string()).unwrap();
    assert_eq!(player.get_free_response(), "the answer");
}

#[test]
fn free_response_is_trimmed_and_points_update() {
    let mut player = Player::new("player".to_string());
    assert_eq!(player.get_free_response(), "No answer");
    player.set_free_response("  Über 42 \n".to_string()).unwrap();
    assert_eq!(player.get_free_response(), "Über 42");
    assert_eq!(player.update_points(-30), -30);
    assert_eq!(player.update_points(50), 20);
    assert_eq!(
        PlayerUserError::InvalidWager(5, 3).message(),
        "Wager value of 5 is invalid. It must be between 0 and 3"
    );
    assert_eq!(
        RoomUserError::InvalidUsername("x".to_string(), 32).message(),
        "Invalid username: x. Must be valid ASCII and of length 0-32"
    );
}
