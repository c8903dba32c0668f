#![allow(non_snake_case)]

use jeopardy::board::{Board, BoardQuestion, Category, FinalJeopardy, JeopardyConfig, Question};
use jeopardy::game::{
    route_notices, HostCommand, HostCommandResponse, Jeopardy, JeopardyCommand,
    JeopardyCommandResponse, JeopardyDisplayState, JeopardyError, JeopardyNotice, PlayerCommand,
    PlayerCommandResponse,
};
use jeopardy::lobby::Game;
use jeopardy::player::{JeopardyPlayer, JeopardyPlayerError, JeopardyPlayerEvent};
use jeopardy::players::{Player, PlayerMap};

const HOST_PASSWORD: &str = "test_host_password";

fn default_question() -> Question {
    Question::new("test_question".to_string(), "test_answer".to_string()).unwrap()
}

fn default_final_jeopardy() -> FinalJeopardy {
    FinalJeopardy::new("hint".to_string(), default_question()).unwrap()
}

fn default_config() -> JeopardyConfig {
    let question = BoardQuestion::new(100, false, default_question());
    let mut category = Category::new("test".to_string(), vec![question]).unwrap();
    category.assign_points();
    let board = Board::new(vec![category]).unwrap();
    let mut config = JeopardyConfig::new(vec![board], default_final_jeopardy()).unwrap();
    config.boards_mut()[0].assign_daily_double(1).unwrap();
    config
}

fn default_jeopardy() -> Jeopardy {
    let config = default_config();
    let jeopardy = Jeopardy::new(HOST_PASSWORD, config).unwrap();
    assert!(jeopardy.check_password(HOST_PASSWORD));
    assert_eq!(jeopardy.config().boards().len(), 1);
    let JeopardyDisplayState::Board(board) = jeopardy.display() else {
        panic!("a new game shows a board");
    };
    assert!(board.is_redacted());
    jeopardy
}

fn two_board_jeopardy() -> Jeopardy {
    let boards = vec![Board::test_default_from_counts(1, 1), Board::test_default_from_counts(10, 10)];
    let config = JeopardyConfig::new(boards, default_final_jeopardy()).unwrap();
    Jeopardy::new("", config).unwrap()
}

fn new_test_jeopardy_player_map(n: usize) -> PlayerMap<JeopardyPlayer> {
    let mut players = PlayerMap::new();
    for i in 1..=n {
        let id = i.to_string();
        players.add(id.clone(), JeopardyPlayer::new(id));
    }
    players
}

fn player_map_with(player_id: &str, points: i32) -> PlayerMap<JeopardyPlayer> {
    let mut players = PlayerMap::new();
    let mut player = JeopardyPlayer::new(player_id.to_string());
    player.points = points;
    players.add(player_id.to_string(), player);
    players
}

/// Puts a card of text on display, so that buzzing counts.
fn show_text_card(jeopardy: &mut Jeopardy, players: &mut PlayerMap<JeopardyPlayer>) {
    let (result, _) = jeopardy.handle_host_command(
        players,
        HOST_PASSWORD,
        HostCommand::ShowQuestion { board_index: 0, category_index: 0, question_index: 0 },
    );
    assert!(matches!(result, Ok(HostCommandResponse::Success)));
}

#[test]
fn GIVEN_jeopardy_handler_WHEN_new_THEN_ok() {
    default_jeopardy();
}

#[test]
fn GIVEN_empty_jeopardy_handler_WHEN_new_THEN_ok() {
    let invalid_config = JeopardyConfig::without_boards(default_final_jeopardy());
    let host_password = "";
    let result = Jeopardy::new(host_password, invalid_config);
    assert!(matches!(result, Err(JeopardyError::GameBoardsNotFound)));
}

#[test]
fn GIVEN_player_collection_WHEN_scoreboard_THEN_ok() {
    let n = 10usize;
    let mut players = PlayerMap::new();
    for i in 0..n {
        let id = i.to_string();
        let mut player = JeopardyPlayer::new(id.clone());
        player.points = i as i32;
        players.add(id, player);
    }

    let scoreboard = players.scoreboard();

    assert_eq!(scoreboard.len(), n);
    for i in 0..scoreboard.len() - 1 {
        let (a_points, _) = scoreboard[i];
        let (b_points, _) = scoreboard[i + 1];
        assert!(a_points > b_points);
    }
}

#[test]
fn scoreboard_keeps_every_player() {
    let mut players = PlayerMap::new();
    for (id, points) in [("a", 5), ("b", -3), ("c", 12), ("d", 5)] {
        let mut p = JeopardyPlayer::new(id.to_string());
        p.points = points;
        players.add(id.to_string(), p);
    }
    let scoreboard = players.scoreboard();
    let points: Vec<i32> = scoreboard.iter().map(|(p, _)| *p).collect();
    assert_eq!(points, vec![12, 5, 5, -3]);
    let mut names: Vec<String> = scoreboard.iter().map(|(_, n)| n.clone()).collect();
    names.sort();
    assert_eq!(names, vec!["a", "b", "c", "d"]);
    assert_eq!(scoreboard[0].1, "c");
    assert_eq!(scoreboard[3].1, "b");
}

#[test]
fn GIVEN_player_id_WHEN_add_player_to_buzzer_queue_THEN_ok() {
    let mut jeopardy = default_jeopardy();
    let n = 10;
    let mut players = new_test_jeopardy_player_map(n);
    show_text_card(&mut jeopardy, &mut players);
    assert!(jeopardy.buzzer_queue().is_empty());
    let id_order: Vec<String> = players.ids();

    for id in id_order.iter() {
        jeopardy.add_player_to_buzzer_queue(&players, id.to_string()).unwrap();
    }

    assert_eq!(jeopardy.buzzer_queue().len(), id_order.len());
    for (queued, expected_id) in jeopardy.buzzer_queue().iter().zip(id_order.iter()) {
        assert_eq!(queued, expected_id);
    }
}

#[test]
fn GIVEN_non_text_display_WHEN_add_player_to_buzzer_queue_THEN_ok() {
    let mut jeopardy = default_jeopardy();
    let players = new_test_jeopardy_player_map(10);
    assert!(jeopardy.buzzer_queue().is_empty());

    for id in players.ids() {
        jeopardy.add_player_to_buzzer_queue(&players, id).unwrap();
    }

    assert!(jeopardy.buzzer_queue().is_empty());
}

#[test]
fn GIVEN_non_empty_buzzer_queue_WHEN_clear_buzzer_queue_THEN_ok() {
    let mut jeopardy = default_jeopardy();
    let n = 10;
    let mut players = new_test_jeopardy_player_map(n);
    show_text_card(&mut jeopardy, &mut players);
    for id in players.ids() {
        jeopardy.add_player_to_buzzer_queue(&players, id).unwrap();
    }
    assert_eq!(n, jeopardy.buzzer_queue().len());

    jeopardy.clear_buzzer_queue();

    assert!(jeopardy.buzzer_queue().is_empty());
}

#[test]
fn GIVEN_invalid_player_id_WHEN_add_player_to_buzzer_queue_THEN_error() {
    let mut jeopardy = default_jeopardy();
    let mut players = new_test_jeopardy_player_map(10);
    show_text_card(&mut jeopardy, &mut players);
    assert!(jeopardy.buzzer_queue().is_empty());
    let invalid_id = "11".to_string();

    let result = jeopardy.add_player_to_buzzer_queue(&players, invalid_id.clone());

    assert!(jeopardy.buzzer_queue().is_empty());
    assert!(matches!(
        result,
        Err(JeopardyError::PlayerForGivenIDNotFound(id)) if id == invalid_id
    ));
}

#[test]
fn GIVEN_valid_indices_WHEN_get_question_and_answer_THEN_ok() {
    let mut jeopardy = two_board_jeopardy();
    let board_count = jeopardy.config().boards().len();
    for board_index in 0..board_count {
        let category_len = jeopardy.config().boards()[board_index].categories().len();
        for category_index in 0..category_len {
            let question_len = jeopardy.config().boards()[board_index].categories()[category_index]
                .questions()
                .len();
            for question_index in 0..question_len {
                let (board, category, question) =
                    jeopardy.get_question(board_index, category_index, question_index).unwrap();
                let expected_board = &jeopardy.config().boards()[board_index];
                let expected_category = &expected_board.categories()[category_index];
                let expected_question = &expected_category.questions()[question_index];
                assert_eq!(board.categories().len(), expected_board.categories().len());
                assert_eq!(category.name(), expected_category.name());
                assert_eq!(question.underlying().content(), expected_question.underlying().content());
                assert_eq!(question.point_value(), expected_question.point_value());

                let answer = jeopardy.get_answer(board_index, category_index, question_index).unwrap();
                assert_eq!(question.underlying().answer(), answer);

                let expected = question.clone();
                let mut_question =
                    jeopardy.get_mut_question(board_index, category_index, question_index).unwrap();
                assert_eq!(expected.underlying().answer(), mut_question.underlying().answer());
                assert_eq!(expected.is_daily_double(), mut_question.is_daily_double());
            }
        }
    }
}

#[test]
fn GIVEN_invalid_indices_WHEN_get_question_THEN_error() {
    let jeopardy = default_jeopardy();
    let invalid_index = 10;

    let invalid_board_index_result = jeopardy.get_question(invalid_index, 0, 0);
    let invalid_category_index_result = jeopardy.get_question(0, invalid_index, 0);
    let invalid_question_index_result = jeopardy.get_question(0, 0, invalid_index);

    assert!(matches!(
        invalid_board_index_result,
        Err(JeopardyError::InvalidBoardIndex(index)) if index == invalid_index
    ));
    assert!(matches!(
        invalid_category_index_result,
        Err(JeopardyError::InvalidCategoryIndex(index)) if index == invalid_index
    ));
    assert!(matches!(
        invalid_question_index_result,
        Err(JeopardyError::InvalidQuestionIndex(index)) if index == invalid_index
    ));
}

#[test]
fn GIVEN_invalid_indices_WHEN_get_mut_question_THEN_error() {
    let mut jeopardy = default_jeopardy();
    let invalid_index = 10;
    assert!(matches!(
        jeopardy.get_mut_question(invalid_index, 0, 0),
        Err(JeopardyError::InvalidBoardIndex(index)) if index == invalid_index
    ));
    assert!(matches!(
        jeopardy.get_mut_question(0, invalid_index, 0),
        Err(JeopardyError::InvalidCategoryIndex(index)) if index == invalid_index
    ));
    assert!(matches!(
        jeopardy.get_mut_question(0, 0, invalid_index),
        Err(JeopardyError::InvalidQuestionIndex(index)) if index == invalid_index
    ));
}

#[test]
fn GIVEN_invalid_indices_WHEN_get_answer_THEN_error() {
    let jeopardy = default_jeopardy();
    let invalid_index = 10;
    let invalid_board_index_result = jeopardy.get_answer(invalid_index, 0, 0);
    let invalid_category_index_result = jeopardy.get_answer(0, invalid_index, 0);
    let invalid_question_index_result = jeopardy.get_answer(0, 0, invalid_index);
    assert!(matches!(
        invalid_board_index_result,
        Err(JeopardyError::InvalidBoardIndex(index)) if index == invalid_index
    ));
    assert!(matches!(
        invalid_category_index_result,
        Err(JeopardyError::InvalidCategoryIndex(index)) if index == invalid_index
    ));
    assert!(matches!(
        invalid_question_index_result,
        Err(JeopardyError::InvalidQuestionIndex(index)) if index == invalid_index
    ));
}

#[test]
fn GIVEN_points_WHEN_set_points_for_player_THEN_ok() {
    let player_id = "test".to_string();
    let mut players = player_map_with(&player_id, 100);
    let expected_points = 10;

    players.set_points_for_player(player_id.clone(), expected_points).unwrap();

    let player = players.get(&player_id).unwrap();
    assert_eq!(expected_points, player.points);
}

#[test]
fn GIVEN_invalid_player_id_WHEN_set_points_for_player_THEN_error() {
    let expected_points = 100;
    let player_id = "test".to_string();
    let mut players = player_map_with(&player_id, expected_points);
    let invalid_id = "invalid".to_string();
    let points = 10;

    let result = players.set_points_for_player(invalid_id.clone(), points);

    let player = players.get(&player_id).unwrap();
    assert_eq!(expected_points, player.points);
    assert!(matches!(
        result,
        Err(JeopardyError::PlayerForGivenIDNotFound(id)) if id == invalid_id
    ));
}

#[test]
fn GIVEN_delta_WHEN_update_points_for_player_THEN_ok() {
    let player_id = "test".to_string();
    let init_points = 100;
    let delta = -10;
    let expected_points = init_points + delta;
    let mut players = player_map_with(&player_id, init_points);

    let (total, _notice) = players.update_points_for_player(player_id.clone(), delta).unwrap();

    let player = players.get(&player_id).unwrap();
    assert_eq!(expected_points, player.points);
    assert_eq!(expected_points, total);
}

#[test]
fn GIVEN_invalid_player_id_WHEN_update_points_for_player_THEN_error() {
    let player_id = "test".to_string();
    let expected_points = 100;
    let mut players = player_map_with(&player_id, expected_points);
    let invalid_id = "invalid".to_string();
    let delta = -10;

    let result = players.update_points_for_player(invalid_id.clone(), delta);

    let player = players.get(&player_id).unwrap();
    assert_eq!(expected_points, player.points);
    assert!(matches!(
        result,
        Err(JeopardyError::PlayerForGivenIDNotFound(id)) if id == invalid_id
    ));
}

#[test]
fn GIVEN_valid_indices_WHEN_set_question_THEN_ok() {
    let mut jeopardy = two_board_jeopardy();
    let board_count = jeopardy.config().boards().len();
    for expected_board_index in 0..board_count {
        let category_len = jeopardy.config().boards()[expected_board_index].categories().len();
        for expected_category_index in 0..category_len {
            let question_len = jeopardy.config().boards()[expected_board_index].categories()
                [expected_category_index]
                .questions()
                .len();
            for expected_question_index in 0..question_len {
                jeopardy
                    .set_question(expected_board_index, expected_category_index, expected_question_index)
                    .unwrap();
                let (b, c, q) = jeopardy.current_question();
                assert_eq!(expected_board_index, b);
                assert_eq!(expected_category_index, c);
                assert_eq!(expected_question_index, q);
            }
        }
    }
}

#[test]
fn GIVEN_invalid_indices_WHEN_set_question_THEN_error() {
    let mut jeopardy = default_jeopardy();
    let invalid_index = 10;
    let invalid_board_index_result = jeopardy.set_question(invalid_index, 0, 0);
    let invalid_category_index_result = jeopardy.set_question(0, invalid_index, 0);
    let invalid_question_index_result = jeopardy.set_question(0, 0, invalid_index);
    assert!(matches!(
        invalid_board_index_result,
        Err(JeopardyError::InvalidBoardIndex(index)) if index == invalid_index
    ));
    assert!(matches!(
        invalid_category_index_result,
        Err(JeopardyError::InvalidCategoryIndex(index)) if index == invalid_index
    ));
    assert!(matches!(
        invalid_question_index_result,
        Err(JeopardyError::InvalidQuestionIndex(index)) if index == invalid_index
    ));
}

#[test]
fn GIVEN_valid_indices_WHEN_set_board_THEN_ok() {
    let mut jeopardy = two_board_jeopardy();
    for board_index in 0..jeopardy.config().boards().len() {
        jeopardy.set_board(board_index).unwrap();
        let (b, c, q) = jeopardy.current_question();
        assert_eq!(board_index, b);
        assert_eq!(0, c);
        assert_eq!(0, q);
    }
}

#[test]
fn GIVEN_invalid_index_WHEN_set_board_THEN_error() {
    let mut jeopardy = default_jeopardy();
    let invalid_board_index = 100;
    let result = jeopardy.set_board(invalid_board_index);
    assert!(matches!(
        result,
        Err(JeopardyError::InvalidBoardIndex(index)) if index == invalid_board_index
    ))
}

#[test]
fn GIVEN_valid_indices_WHEN_show_board_THEN_ok() {
    let mut jeopardy = two_board_jeopardy();
    for board_index in 0..jeopardy.config().boards().len() {
        jeopardy.show_board(board_index).unwrap();
        let expected_board = jeopardy.config().boards()[board_index].clone();
        let (b, c, q) = jeopardy.current_question();
        assert_eq!(board_index, b);
        assert_eq!(0, c);
        assert_eq!(0, q);
        let JeopardyDisplayState::Board(board) = jeopardy.display() else {
            panic!("show_board() did not put a board on display");
        };
        let matches_expected = board.categories().iter().zip(expected_board.categories().iter()).all(
            |(c1, c2)| {
                c1.questions().iter().zip(c2.questions().iter()).all(|(q1, q2)| {
                    q1.underlying().content() == q2.underlying().content()
                        && q1.is_answered() == q2.is_answered()
                        && q1.point_value() == q2.point_value()
                })
            },
        );
        assert!(board.is_redacted() && matches_expected);
    }
}

#[test]
fn GIVEN_invalid_index_WHEN_show_board_THEN_error() {
    let mut jeopardy = default_jeopardy();
    let invalid_board_index = 100;
    let result = jeopardy.set_board(invalid_board_index);
    assert!(matches!(
        result,
        Err(JeopardyError::InvalidBoardIndex(index)) if index == invalid_board_index
    ))
}

// ---- player

fn new_jeopardy_player() -> JeopardyPlayer {
    let name = "test".to_string();
    let player = JeopardyPlayer::new(name.clone());
    assert_eq!(name, player.id());
    player
}

#[test]
fn GIVEN_wager_WHEN_set_wager_THEN_ok() {
    let mut player = new_jeopardy_player();
    player.points = 1000;
    for points in 0..=player.points {
        player.set_wager(points).unwrap();
        assert_eq!(points, player.wager());
    }
}

#[test]
fn GIVEN_wager_for_negatives_WHEN_set_wager_THEN_ok() {
    let mut player = new_jeopardy_player();
    player.points = -1000;
    let wager = player.points.abs();
    player.set_wager(wager).unwrap();
    assert_eq!(wager, player.wager());
}

#[test]
fn GIVEN_negative_wager_WHEN_set_wager_THEN_error() {
    let mut player = new_jeopardy_player();
    let test_wager = -1;
    let result = player.set_wager(test_wager);
    assert!(matches!(
        result,
        Err(JeopardyPlayerError::InvalidWager { wager, .. }) if wager == test_wager
    ));
}

#[test]
fn GIVEN_wager_more_than_have_WHEN_set_wager_THEN_error() {
    let mut player = new_jeopardy_player();
    let test_points = 0;
    player.points = test_points;
    let test_wager = 1;
    let result = player.set_wager(test_wager);
    assert!(matches!(
        result,
        Err(JeopardyPlayerError::InvalidWager { wager, current_points })
            if wager == test_wager && current_points == test_points
    ));
}

#[test]
fn negative_points_allow_only_the_wager_back_to_zero() {
    let mut player = new_jeopardy_player();
    player.points = -50;
    assert!(player.set_wager(49).is_err());
    assert!(player.set_wager(0).is_err());
    assert!(player.set_wager(50).is_ok());
    assert_eq!(player.wager(), 50);
}

// ---- commands through the game

#[test]
fn wrong_host_password_changes_nothing() {
    let mut jeopardy = default_jeopardy();
    let mut players = new_test_jeopardy_player_map(2);
    let (result, notices) = jeopardy.handle_host_command(
        &mut players,
        "not the password",
        HostCommand::ShowBoard { board_index: 0 },
    );
    assert!(matches!(result, Err(JeopardyError::IncorrectHostPassword)));
    assert!(notices.is_empty());
    assert!(matches!(jeopardy.display(), JeopardyDisplayState::Board(_)));
}

#[test]
fn show_question_then_current_answer_shows_its_answer() {
    let mut jeopardy = default_jeopardy();
    let mut players = new_test_jeopardy_player_map(2);
    let (result, notices) = jeopardy.handle_host_command(
        &mut players,
        HOST_PASSWORD,
        HostCommand::ShowQuestion { board_index: 0, category_index: 0, question_index: 0 },
    );
    assert!(matches!(result, Ok(HostCommandResponse::Success)));
    assert_eq!(notices.len(), 1);
    match jeopardy.display() {
        JeopardyDisplayState::Question(card) => {
            assert_eq!(card.title, "test");
            assert_eq!(card.content, "test_question");
        }
        other => panic!("unexpected display {other:?}"),
    }
    let (result, _) =
        jeopardy.handle_host_command(&mut players, HOST_PASSWORD, HostCommand::ShowCurrentAnswer);
    assert!(matches!(result, Ok(HostCommandResponse::Success)));
    match jeopardy.display() {
        JeopardyDisplayState::Answer(card) => {
            assert_eq!(card.title, "test");
            assert_eq!(card.content, "test_answer");
        }
        other => panic!("unexpected display {other:?}"),
    }
}

#[test]
fn final_jeopardy_cards() {
    let mut jeopardy = default_jeopardy();
    let mut players = new_test_jeopardy_player_map(1);
    jeopardy.handle_host_command(&mut players, HOST_PASSWORD, HostCommand::ShowFinalJeopardyHint);
    match jeopardy.display() {
        JeopardyDisplayState::FinalJeopardyHint(card) => {
            assert_eq!(card.title, "Final Jeopardy");
            assert_eq!(card.content, "hint");
        }
        other => panic!("unexpected display {other:?}"),
    }
    jeopardy.handle_host_command(&mut players, HOST_PASSWORD, HostCommand::ShowFinalJeopardyAnswer);
    match jeopardy.display() {
        JeopardyDisplayState::FinalJeopardyAnswer(card) => {
            assert_eq!(card.title, "hint");
            assert_eq!(card.content, "test_answer");
        }
        other => panic!("unexpected display {other:?}"),
    }
}

#[test]
fn update_points_saturates_and_notifies() {
    let mut jeopardy = default_jeopardy();
    let mut players = player_map_with("p", i32::MAX - 5);
    let (result, notices) = jeopardy.handle_host_command(
        &mut players,
        HOST_PASSWORD,
        HostCommand::UpdatePoints { player_id: "p".to_string(), delta: 10 },
    );
    assert!(matches!(result, Ok(HostCommandResponse::UpdatePoints(p)) if p == i32::MAX));
    assert!(matches!(
        notices.as_slice(),
        [JeopardyNotice::PointsUpdate { player_id, points }] if player_id == "p" && *points == i32::MAX
    ));
    assert_eq!(players.get("p").unwrap().points, i32::MAX);
}

#[test]
fn two_point_updates_add_up() {
    let mut jeopardy = default_jeopardy();
    let mut players = player_map_with("p", 100);
    for delta in [250, -75] {
        jeopardy.handle_host_command(
            &mut players,
            HOST_PASSWORD,
            HostCommand::UpdatePoints { player_id: "p".to_string(), delta },
        );
    }
    assert_eq!(players.get("p").unwrap().points, 275);
}

#[test]
fn get_buzzer_queue_lists_buzzes_in_order() {
    let mut jeopardy = default_jeopardy();
    let mut players = new_test_jeopardy_player_map(3);
    show_text_card(&mut jeopardy, &mut players);
    for id in ["3", "1", "2"] {
        let r = jeopardy.handle_player_command(&mut players, id.to_string(), PlayerCommand::Buzz);
        assert!(matches!(r, Ok(PlayerCommandResponse::Success)));
    }
    let (result, _) =
        jeopardy.handle_host_command(&mut players, HOST_PASSWORD, HostCommand::GetBuzzerQueue);
    match result {
        Ok(HostCommandResponse::GetBuzzerQueue(q)) => {
            assert_eq!(q.into_iter().collect::<Vec<_>>(), vec!["3", "1", "2"]);
        }
        other => panic!("unexpected {other:?}"),
    }
}

#[test]
fn player_commands_read_and_change_the_player() {
    let mut jeopardy = default_jeopardy();
    let mut players = player_map_with("p", 300);
    let r = jeopardy.handle_player_command(&mut players, "p".to_string(), PlayerCommand::SetWager(200));
    assert!(matches!(r, Ok(PlayerCommandResponse::Success)));
    let r = jeopardy.handle_player_command(&mut players, "p".to_string(), PlayerCommand::GetWager);
    assert!(matches!(r, Ok(PlayerCommandResponse::GetWager(200))));
    let r = jeopardy.handle_player_command(&mut players, "p".to_string(), PlayerCommand::SetWager(301));
    assert!(matches!(
        r,
        Err(JeopardyError::PlayerMisconfig(JeopardyPlayerError::InvalidWager { wager: 301, current_points: 300 }))
    ));
    let r = jeopardy.handle_player_command(
        &mut players,
        "p".to_string(),
        PlayerCommand::SetFreeResponse("what is rust".to_string()),
    );
    assert!(matches!(r, Ok(PlayerCommandResponse::Success)));
    let r = jeopardy.handle_player_command(&mut players, "p".to_string(), PlayerCommand::GetFreeResponse);
    assert!(matches!(r, Ok(PlayerCommandResponse::GetFreeResponse(f)) if f == "what is rust"));
    let r = jeopardy.handle_player_command(&mut players, "q".to_string(), PlayerCommand::GetPoints);
    assert!(matches!(r, Err(JeopardyError::PlayerForGivenIDNotFound(id)) if id == "q"));
}

#[test]
fn handle_event_dispatches_by_sender() {
    let mut jeopardy = default_jeopardy();
    let mut players = player_map_with("p", 7);
    let (r, notices) = jeopardy.handle_event(
        &mut players,
        JeopardyCommand::Player { player_id: "p".to_string(), command: PlayerCommand::GetPoints },
    );
    assert!(matches!(r, Ok(JeopardyCommandResponse::Player(PlayerCommandResponse::GetPoints(7)))));
    assert!(notices.is_empty());
    let (r, notices) = jeopardy.handle_event(
        &mut players,
        JeopardyCommand::Host {
            host_password: HOST_PASSWORD.to_string(),
            command: HostCommand::SetPoints { player_id: "p".to_string(), points: 42 },
        },
    );
    assert!(matches!(r, Ok(JeopardyCommandResponse::Host(HostCommandResponse::Success))));
    assert_eq!(notices.len(), 1);
    assert_eq!(players.get("p").unwrap().points, 42);
}

#[test]
fn GIVEN_display_event_WHEN_broadcast_THEN_ok() {
    let mut jeopardy = default_jeopardy();
    let mut players = new_test_jeopardy_player_map(10);
    let (_, notices) = jeopardy.handle_host_command(
        &mut players,
        HOST_PASSWORD,
        HostCommand::ShowQuestion { board_index: 0, category_index: 0, question_index: 0 },
    );
    let deliveries = route_notices(&players, &notices);
    assert_eq!(deliveries.len(), 10);
    for (i, (id, event)) in deliveries.iter().enumerate() {
        assert_eq!(*id, (i + 1).to_string());
        assert!(matches!(
            event,
            JeopardyPlayerEvent::Display(JeopardyDisplayState::Question(card))
                if card.title == "test" && card.content == "test_question"
        ));
    }
}

#[test]
fn points_notice_goes_to_one_player() {
    let players = new_test_jeopardy_player_map(3);
    let notices = vec![JeopardyNotice::PointsUpdate { player_id: "2".to_string(), points: 9 }];
    let deliveries = route_notices(&players, &notices);
    assert_eq!(deliveries.len(), 1);
    assert_eq!(deliveries[0].0, "2");
    assert!(matches!(deliveries[0].1, JeopardyPlayerEvent::PointsUpdate(9)));
}

#[test]
fn jeopardy_error_messages() {
    assert_eq!(
        JeopardyError::InvalidBoardIndex(12).message(),
        "Invalid board index 12 for the given Jeopardy instance"
    );
    assert_eq!(
        JeopardyError::InvalidQuestionIndex(0).message(),
        "Invalid question index 0 for the given Jeopardy category"
    );
    assert_eq!(
        JeopardyError::PlayerForGivenIDNotFound("bob".to_string()).message(),
        "The corresponding player for ID: bob was not found"
    );
    assert_eq!(
        JeopardyError::PlayerMisconfig(JeopardyPlayerError::InvalidWager { wager: -5, current_points: 20 })
            .message(),
        "Invalid wager: -5. Must be within range [0-20] (inclusive). If your points are negative, you can wager enough to get to 0"
    );
}

#[test]
fn point_changes_tell_the_player() {
    let player_id = "test".to_string();
    let mut players = player_map_with(&player_id, 100);
    let notice = players.set_points_for_player(player_id.clone(), 7).unwrap();
    assert!(matches!(notice, JeopardyNotice::PointsUpdate { ref player_id, points: 7 } if player_id == "test"));
    let (total, notice) = players.update_points_for_player(player_id.clone(), 5).unwrap();
    assert_eq!(total, 12);
    assert!(matches!(notice, JeopardyNotice::PointsUpdate { ref player_id, points: 12 } if player_id == "test"));
    let routed = route_notices(&players, &vec![notice]);
    assert_eq!(routed.len(), 1);
    assert_eq!(routed[0].0, "test");
    assert!(matches!(routed[0].1, JeopardyPlayerEvent::PointsUpdate(12)));
}

#[test]
fn show_board_broadcasts_the_redacted_board() {
    let mut jeopardy = two_board_jeopardy();
    let notice = jeopardy.show_board(1).unwrap();
    let JeopardyNotice::Broadcast(JeopardyDisplayState::Board(board)) = notice else {
        panic!("show_board() did not return a board broadcast");
    };
    assert!(board.is_redacted());
    assert_eq!(board.categories().len(), jeopardy.config().boards()[1].categories().len());
    assert!(jeopardy.show_board(100).is_err());
}

#[test]
fn wager_at_lowest_points_is_refused() {
    let mut player = new_jeopardy_player();
    player.points = i32::MIN;
    for test_wager in [0, 1, i32::MAX] {
        let result = player.set_wager(test_wager);
        assert!(matches!(
            result,
            Err(JeopardyPlayerError::InvalidWager { wager, current_points })
                if wager == test_wager && current_points == i32::MIN
        ));
        assert_eq!(0, player.wager());
    }
    player.points = i32::MIN + 1;
    player.set_wager(i32::MAX).unwrap();
    assert_eq!(i32::MAX, player.wager());
}
