use std::collections::VecDeque;
use vstd::prelude::*;
use vstd::string::StringExecFns;

use crate::board::{
    Board, BoardQuestion, BoardView, Category, FinalJeopardyView, JeopardyConfig,
    JeopardyConfigView, config_question, config_with_question, default_config_view, is_playable_config,
    redacted_board,
};
use crate::lobby::{Game, ids_of};
use crate::player::{
    JeopardyPlayer, JeopardyPlayerError, JeopardyPlayerEvent, JeopardyPlayerView,
    player_error_message, wager_allowed,
};
use crate::players::{
    Player, PlayerMap, has_id, ids_distinct, lemma_position_of, lookup, position_of,
};
use crate::server::TestDefault;
use crate::text::{decimal_digits, push_decimal_digits};

verus! {

/// A card of text shown to every player: a title and its content.
#[derive(Debug)]
pub struct TextCard {
    pub title: String,
    pub content: String,
}

pub struct TextCardView {
    pub title: Seq<char>,
    pub content: Seq<char>,
}

impl View for TextCard {
    type V = TextCardView;

    open spec fn view(&self) -> TextCardView {
        TextCardView { title: self.title@, content: self.content@ }
    }
}

impl Clone for TextCard {
    fn clone(&self) -> (r: Self)
        ensures
            r@ == self@,
    {
        TextCard { title: self.title.clone(), content: self.content.clone() }
    }
}

/// What every player's screen shows.
#[derive(Debug)]
pub enum JeopardyDisplayState {
    Question(TextCard),
    Answer(TextCard),
    FinalJeopardyHint(TextCard),
    FinalJeopardyQuestion(TextCard),
    FinalJeopardyAnswer(TextCard),
    /// A redacted copy of the current board.
    Board(Board),
}

pub enum DisplayView {
    Question(TextCardView),
    Answer(TextCardView),
    FinalJeopardyHint(TextCardView),
    FinalJeopardyQuestion(TextCardView),
    FinalJeopardyAnswer(TextCardView),
    Board(BoardView),
}

impl View for JeopardyDisplayState {
    type V = DisplayView;

    open spec fn view(&self) -> DisplayView {
        match self {
            JeopardyDisplayState::Question(t) => DisplayView::Question(t@),
            JeopardyDisplayState::Answer(t) => DisplayView::Answer(t@),
            JeopardyDisplayState::FinalJeopardyHint(t) => DisplayView::FinalJeopardyHint(t@),
            JeopardyDisplayState::FinalJeopardyQuestion(t) => DisplayView::FinalJeopardyQuestion(t@),
            JeopardyDisplayState::FinalJeopardyAnswer(t) => DisplayView::FinalJeopardyAnswer(t@),
            JeopardyDisplayState::Board(b) => DisplayView::Board(b@),
        }
    }
}

impl Clone for JeopardyDisplayState {
    fn clone(&self) -> (r: Self)
        ensures
            r@ == self@,
    {
        match self {
            JeopardyDisplayState::Question(t) => JeopardyDisplayState::Question(t.clone()),
            JeopardyDisplayState::Answer(t) => JeopardyDisplayState::Answer(t.clone()),
            JeopardyDisplayState::FinalJeopardyHint(t) => JeopardyDisplayState::FinalJeopardyHint(
                t.clone(),
            ),
            JeopardyDisplayState::FinalJeopardyQuestion(t) => {
                JeopardyDisplayState::FinalJeopardyQuestion(t.clone())
            },
            JeopardyDisplayState::FinalJeopardyAnswer(t) => JeopardyDisplayState::FinalJeopardyAnswer(
                t.clone(),
            ),
            JeopardyDisplayState::Board(b) => JeopardyDisplayState::Board(b.clone()),
        }
    }
}

/// Whether `d` shows a card of text rather than a board: only then do
/// buzzes count.
pub open spec fn shows_text_card(d: DisplayView) -> bool {
    !(d is Board)
}

/// Errors that a host or a player can cause with bad input.
#[derive(Debug)]
pub enum JeopardyError {
    InvalidBoardIndex(usize),
    InvalidCategoryIndex(usize),
    InvalidQuestionIndex(usize),
    PlayerForGivenIDNotFound(String),
    IncorrectHostPassword,
    GameBoardsNotFound,
    PlayerMisconfig(JeopardyPlayerError),
}

/// The text shown for a game error.
pub open spec fn jeopardy_error_message(e: JeopardyError) -> Seq<char> {
    match e {
        JeopardyError::InvalidBoardIndex(i) => "Invalid board index "@ + decimal_digits(i as nat)
            + " for the given Jeopardy instance"@,
        JeopardyError::InvalidCategoryIndex(i) => "Invalid category index "@ + decimal_digits(
            i as nat,
        ) + " for the given Jeopardy board"@,
        JeopardyError::InvalidQuestionIndex(i) => "Invalid question index "@ + decimal_digits(
            i as nat,
        ) + " for the given Jeopardy category"@,
        JeopardyError::PlayerForGivenIDNotFound(id) => "The corresponding player for ID: "@ + id@
            + " was not found"@,
        JeopardyError::IncorrectHostPassword => "Incorrect host password. Action unauthorized"@,
        JeopardyError::GameBoardsNotFound =>
            "Failed to create Jeopardy game instance. No boards found"@,
        JeopardyError::PlayerMisconfig(e) => player_error_message(e),
    }
}

impl JeopardyError {
    /// The text shown for this error.
    pub fn message(&self) -> (r: String)
        ensures
            r@ == jeopardy_error_message(*self),
    {
        match self {
            JeopardyError::InvalidBoardIndex(i) => {
                let mut s = String::from_str("Invalid board index ");
                push_decimal_digits(&mut s, *i as u64);
                s.append(" for the given Jeopardy instance");
                s
            },
            JeopardyError::InvalidCategoryIndex(i) => {
                let mut s = String::from_str("Invalid category index ");
                push_decimal_digits(&mut s, *i as u64);
                s.append(" for the given Jeopardy board");
                s
            },
            JeopardyError::InvalidQuestionIndex(i) => {
                let mut s = String::from_str("Invalid question index ");
                push_decimal_digits(&mut s, *i as u64);
                s.append(" for the given Jeopardy category");
                s
            },
            JeopardyError::PlayerForGivenIDNotFound(id) => {
                let mut s = String::from_str("The corresponding player for ID: ");
                s.append(id.as_str());
                s.append(" was not found");
                s
            },
            JeopardyError::IncorrectHostPassword => "Incorrect host password. Action unauthorized".to_owned(),
            JeopardyError::GameBoardsNotFound => "Failed to create Jeopardy game instance. No boards found".to_owned(),
            JeopardyError::PlayerMisconfig(e) => e.message(),
        }
    }
}

/// Which index of `(b, c, q)` does not name a question of `cfg`, the board
/// index checked first, then the category, then the question.
pub open spec fn index_error(cfg: JeopardyConfigView, b: usize, c: usize, q: usize) -> Option<
    JeopardyError,
> {
    if b >= cfg.boards.len() {
        Some(JeopardyError::InvalidBoardIndex(b))
    } else if c >= cfg.boards[b as int].categories.len() {
        Some(JeopardyError::InvalidCategoryIndex(c))
    } else if q >= cfg.boards[b as int].categories[c as int].questions.len() {
        Some(JeopardyError::InvalidQuestionIndex(q))
    } else {
        None
    }
}

/// The state of a game, as its parts.
pub struct JeopardyView {
    pub host_password: Seq<char>,
    pub display: DisplayView,
    pub config: JeopardyConfigView,
    pub current_question: (usize, usize, usize),
    pub buzzer_queue: Seq<Seq<char>>,
}

/// One Jeopardy game: its configuration, what players see, the current
/// question and the queue of players who buzzed in.
#[derive(Debug)]
pub struct Jeopardy {
    host_password: String,
    display: JeopardyDisplayState,
    config: JeopardyConfig,
    current_question: (usize, usize, usize),
    buzzer_queue: VecDeque<String>,
}

impl View for Jeopardy {
    type V = JeopardyView;

    closed spec fn view(&self) -> JeopardyView {
        JeopardyView {
            host_password: self.host_password@,
            display: self.display@,
            config: self.config@,
            current_question: self.current_question,
            buzzer_queue: self.buzzer_queue@.map_values(|s: String| s@),
        }
    }
}

impl Jeopardy {
    /// A new game that shows the first board, redacted, with the first
    /// question current and nobody buzzed in. A configuration without boards
    /// is refused.
    pub fn new(host_password: &str, config: JeopardyConfig) -> (r: Result<Self, JeopardyError>)
        ensures
            config@.boards.len() == 0 ==> r matches Err(JeopardyError::GameBoardsNotFound),
            config@.boards.len() != 0 ==> (r matches Ok(g) && g@ == (JeopardyView {
                host_password: host_password@,
                display: DisplayView::Board(redacted_board(config@.boards[0])),
                config: config@,
                current_question: (0, 0, 0),
                buzzer_queue: Seq::empty(),
            })),
    {
        let boards = config.boards();
        if boards.len() == 0 {
            return Err(JeopardyError::GameBoardsNotFound);
        }
        let display = boards[0].redacted();
        let game = Self {
            host_password: host_password.to_owned(),
            display: JeopardyDisplayState::Board(display),
            config,
            current_question: (0, 0, 0),
            buzzer_queue: VecDeque::new(),
        };
        assert(game@.buzzer_queue =~= Seq::<Seq<char>>::empty());
        Ok(game)
    }

    pub fn config(&self) -> (r: &JeopardyConfig)
        ensures
            r@ == self@.config,
    {
        &self.config
    }

    pub fn display(&self) -> (r: &JeopardyDisplayState)
        ensures
            r@ == self@.display,
    {
        &self.display
    }

    pub fn current_question(&self) -> (r: (usize, usize, usize))
        ensures
            r == self@.current_question,
    {
        self.current_question
    }

    pub fn buzzer_queue(&self) -> (r: &VecDeque<String>)
        ensures
            r@.map_values(|s: String| s@) == self@.buzzer_queue,
    {
        &self.buzzer_queue
    }

    /// Whether `host_password` is this game's host password.
    pub fn check_password(&self, host_password: &str) -> (r: bool)
        ensures
            r == (self@.host_password == host_password@),
    {
        crate::text::str_eq(self.host_password.as_str(), host_password)
    }
}

impl Jeopardy {
    /// The board, category and question at `(b, c, q)`; an index that names
    /// nothing is refused, the board index checked first.
    pub fn get_question(&self, board_index: usize, category_index: usize, question_index: usize) -> (r:
        Result<(&Board, &Category, &BoardQuestion), JeopardyError>)
        ensures
            index_error(self@.config, board_index, category_index, question_index) matches Some(e)
                ==> r == Err::<(&Board, &Category, &BoardQuestion), _>(e),
            index_error(self@.config, board_index, category_index, question_index) is None ==> (
            r matches Ok((b, c, q)) && b@ == self@.config.boards[board_index as int] && c@
                == self@.config.boards[board_index as int].categories[category_index as int] && q@
                == config_question(self@.config, board_index, category_index, question_index)),
    {
        let boards = self.config.boards();
        if board_index >= boards.len() {
            return Err(JeopardyError::InvalidBoardIndex(board_index));
        }
        let board = &boards[board_index];
        let categories = board.categories();
        if category_index >= categories.len() {
            return Err(JeopardyError::InvalidCategoryIndex(category_index));
        }
        let category = &categories[category_index];
        let questions = category.questions();
        if question_index >= questions.len() {
            return Err(JeopardyError::InvalidQuestionIndex(question_index));
        }
        let question = &questions[question_index];
        Ok((board, category, question))
    }

    /// The question at `(b, c, q)`, to change in place; an index that names
    /// nothing is refused as by `get_question`.
    pub fn get_mut_question(
        &mut self,
        board_index: usize,
        category_index: usize,
        question_index: usize,
    ) -> (r: Result<&mut BoardQuestion, JeopardyError>)
        ensures
            index_error(old(self)@.config, board_index, category_index, question_index) matches Some(
                e,
            ) ==> r == Err::<&mut BoardQuestion, _>(e) && final(self)@ == old(self)@,
            index_error(old(self)@.config, board_index, category_index, question_index) is None ==> (
            r matches Ok(q) && q@ == config_question(
                old(self)@.config,
                board_index,
                category_index,
                question_index,
            ) && final(self)@ == (JeopardyView {
                config: config_with_question(
                    old(self)@.config,
                    board_index,
                    category_index,
                    question_index,
                    final(q)@,
                ),
                ..old(self)@
            })),
    {
        if let Err(e) = self.get_question(board_index, category_index, question_index) {
            return Err(e);
        }
        Ok(self.config.question_mut(board_index, category_index, question_index))
    }

    /// Makes `(b, c, q)` the current question; an index that names nothing is
    /// refused as by `get_question` and nothing changes.
    pub fn set_question(&mut self, board_index: usize, category_index: usize, question_index: usize) -> (r:
        Result<(), JeopardyError>)
        ensures
            index_error(old(self)@.config, board_index, category_index, question_index) matches Some(
                e,
            ) ==> r == Err::<(), _>(e) && final(self)@ == old(self)@,
            index_error(old(self)@.config, board_index, category_index, question_index) is None
                ==> r is Ok && final(self)@ == (JeopardyView {
                current_question: (board_index, category_index, question_index),
                ..old(self)@
            }),
    {
        if let Err(e) = self.get_question(board_index, category_index, question_index) {
            return Err(e);
        }
        self.current_question = (board_index, category_index, question_index);
        Ok(())
    }

    /// Moves to the first question of board `b`; on a playable
    /// configuration every board index in range succeeds.
    pub fn set_board(&mut self, board_index: usize) -> (r: Result<(), JeopardyError>)
        ensures
            is_playable_config(old(self)@.config) && board_index < old(self)@.config.boards.len()
                ==> r is Ok,
            index_error(old(self)@.config, board_index, 0, 0) matches Some(e) ==> r == Err::<(), _>(e)
                && final(self)@ == old(self)@,
            index_error(old(self)@.config, board_index, 0, 0) is None ==> r is Ok && final(self)@ == (
            JeopardyView { current_question: (board_index, 0, 0), ..old(self)@ }),
    {
        self.set_question(board_index, 0, 0)?;
        Ok(())
    }

    /// The answer to the question at `(b, c, q)`, for the host.
    pub fn get_answer(&self, board_index: usize, category_index: usize, question_index: usize) -> (r:
        Result<String, JeopardyError>)
        ensures
            index_error(self@.config, board_index, category_index, question_index) matches Some(e)
                ==> r == Err::<String, _>(e),
            index_error(self@.config, board_index, category_index, question_index) is None ==> (
            r matches Ok(a) && a@ == config_question(
                self@.config,
                board_index,
                category_index,
                question_index,
            ).question.answer),
    {
        let (_board, _category, question) = self.get_question(
            board_index,
            category_index,
            question_index,
        )?;
        Ok(question.underlying().answer().to_owned())
    }

    /// Moves to the first question of board `b` and shows that board,
    /// redacted. Returns the broadcast every player is to be sent: the new
    /// display. On a playable configuration every board index in range
    /// succeeds.
    pub fn show_board(&mut self, board_index: usize) -> (r: Result<JeopardyNotice, JeopardyError>)
        ensures
            is_playable_config(old(self)@.config) && board_index < old(self)@.config.boards.len()
                ==> r is Ok,
            index_error(old(self)@.config, board_index, 0, 0) matches Some(e) ==> r == Err::<
                JeopardyNotice,
                _,
            >(e) && final(self)@ == old(self)@,
            index_error(old(self)@.config, board_index, 0, 0) is None ==> (r matches Ok(n) && n@
                == NoticeView::Broadcast(
                DisplayView::Board(redacted_board(old(self)@.config.boards[board_index as int])),
            )) && final(self)@ == (JeopardyView {
                current_question: (board_index, 0, 0),
                display: DisplayView::Board(
                    redacted_board(old(self)@.config.boards[board_index as int]),
                ),
                ..old(self)@
            }),
    {
        self.set_board(board_index)?;
        let board = self.config.boards()[board_index].redacted();
        self.display = JeopardyDisplayState::Board(board);
        Ok(JeopardyNotice::Broadcast(self.display.clone()))
    }

    /// Queues `player_id` to answer when a card of text is shown; while a
    /// board is shown a buzz does nothing. An id of no player is refused.
    pub fn add_player_to_buzzer_queue(
        &mut self,
        players: &PlayerMap<JeopardyPlayer>,
        player_id: String,
    ) -> (r: Result<(), JeopardyError>)
        requires
            players.wf(),
        ensures
            !shows_text_card(old(self)@.display) ==> r is Ok && final(self)@ == old(self)@,
            shows_text_card(old(self)@.display) && !has_id(players@, player_id@) ==> r == Err::<(), _>(
                JeopardyError::PlayerForGivenIDNotFound(player_id),
            ) && final(self)@ == old(self)@,
            shows_text_card(old(self)@.display) && has_id(players@, player_id@) ==> r is Ok
                && final(self)@ == (JeopardyView {
                buzzer_queue: old(self)@.buzzer_queue.push(player_id@),
                ..old(self)@
            }),
    {
        if let JeopardyDisplayState::Board(_) = &self.display {
            return Ok(());
        }
        if !players.contains(player_id.as_str()) {
            return Err(JeopardyError::PlayerForGivenIDNotFound(player_id));
        }
        let ghost before = self.buzzer_queue@;
        self.buzzer_queue.push_back(player_id);
        assert(self@.buzzer_queue =~= old(self)@.buzzer_queue.push(player_id@));
        Ok(())
    }

    /// Empties the buzzer queue.
    pub fn clear_buzzer_queue(&mut self)
        ensures
            final(self)@ == (JeopardyView { buzzer_queue: Seq::empty(), ..old(self)@ }),
    {
        self.buzzer_queue.clear();
        assert(self@.buzzer_queue =~= Seq::<Seq<char>>::empty());
    }
}

/// The (points, name) pairs of the players of `players`, in map order.
pub open spec fn score_entries(players: Seq<(Seq<char>, JeopardyPlayer)>) -> Seq<(i32, Seq<char>)> {
    players.map_values(|e: (Seq<char>, JeopardyPlayer)| (e.1@.points, e.1@.name))
}

/// The views of scoreboard rows.
pub open spec fn score_rows(rows: Seq<(i32, String)>) -> Seq<(i32, Seq<char>)> {
    rows.map_values(|e: (i32, String)| (e.0, e.1@))
}

/// Whether `rows` runs from the most points to the fewest.
pub open spec fn is_descending(rows: Seq<(i32, Seq<char>)>) -> bool {
    forall|i: int, j: int| 0 <= i < j < rows.len() ==> #[trigger] rows[i].0 >= #[trigger] rows[j].0
}

/// `new` is `old` with the player registered under `id` now in the state
/// `player`: every other entry unchanged.
pub open spec fn player_updated(
    old: Seq<(Seq<char>, JeopardyPlayer)>,
    new: Seq<(Seq<char>, JeopardyPlayer)>,
    id: Seq<char>,
    player: JeopardyPlayerView,
) -> bool {
    let i = position_of(old, id);
    &&& 0 <= i < old.len()
    &&& new.len() == old.len()
    &&& new[i].0 == old[i].0
    &&& new[i].1@ == player
    &&& forall|k: int| 0 <= k < old.len() && k != i ==> #[trigger] new[k] == old[k]
}

/// `new` is `old` with the player registered under `id` holding `points`
/// points: every other player, and every other field, unchanged.
pub open spec fn points_changed(
    old: Seq<(Seq<char>, JeopardyPlayer)>,
    new: Seq<(Seq<char>, JeopardyPlayer)>,
    id: Seq<char>,
    points: i32,
) -> bool {
    player_updated(old, new, id, JeopardyPlayerView { points, ..old[position_of(old, id)].1@ })
}

impl PlayerMap<JeopardyPlayer> {
    /// Every player's points and name, from the most points to the fewest.
    pub fn scoreboard(&self) -> (r: Vec<(i32, String)>)
        ensures
            score_rows(r@).to_multiset() == score_entries(self@).to_multiset(),
            is_descending(score_rows(r@)),
    {
        broadcast use vstd::seq_lib::to_multiset_build, vstd::seq_lib::to_multiset_insert;

        let players = self.values();
        let mut rows: Vec<(i32, String)> = Vec::new();
        let mut i: usize = 0;
        assert(score_rows(rows@) =~= score_entries(self@).take(0));
        while i < players.len()
            invariant
                i <= players@.len(),
                players@.len() == self@.len(),
                forall|k: int| 0 <= k < self@.len() ==> *#[trigger] players@[k] == self@[k].1,
                score_rows(rows@).to_multiset() == score_entries(self@).take(i as int).to_multiset(),
                is_descending(score_rows(rows@)),
            decreases players@.len() - i,
        {
            let player = players[i];
            let points = player.points();
            let name = player.id().to_owned();
            // the first row with fewer points; every row before it has at least as many
            let mut pos: usize = 0;
            while pos < rows.len() && rows[pos].0 >= points
                invariant
                    pos <= rows@.len(),
                    forall|k: int| 0 <= k < pos ==> #[trigger] rows@[k].0 >= points,
                decreases rows@.len() - pos,
            {
                pos += 1;
            }
            let ghost before = score_rows(rows@);
            rows.insert(pos, (points, name));
            proof {
                let e = (points, name@);
                assert(score_rows(rows@) =~= before.insert(pos as int, e));
                assert(score_entries(self@).take(i + 1) =~= score_entries(self@).take(i as int).push(
                    e,
                ));
                vstd::seq_lib::to_multiset_insert(before, pos as int, e);
                vstd::seq_lib::to_multiset_build(score_entries(self@).take(i as int), e);
                assert forall|x: int, y: int| 0 <= x < y < score_rows(rows@).len() implies #[trigger] score_rows(
                    rows@,
                )[x].0 >= #[trigger] score_rows(rows@)[y].0 by {
                    if y < pos {
                    } else if y == pos {
                    } else if x < pos {
                        if pos < before.len() {
                            assert(before[x].0 >= before[pos as int].0);
                        }
                    } else if x == pos {
                        assert(before[pos as int].0 < points);
                        assert(before[pos as int].0 >= before[y - 1].0);
                    } else {
                    }
                }
            }
            i += 1;
        }
        assert(score_entries(self@).take(i as int) =~= score_entries(self@));
        rows
    }

    /// Gives the player registered under `player_id` exactly `points` points
    /// and returns the notice that tells that player of them; an id of no
    /// player is refused, nothing changes and no one is told.
    pub fn set_points_for_player(&mut self, player_id: String, points: i32) -> (r: Result<
        JeopardyNotice,
        JeopardyError,
    >)
        requires
            old(self).wf(),
        ensures
            final(self).wf(),
            !has_id(old(self)@, player_id@) ==> r == Err::<JeopardyNotice, _>(
                JeopardyError::PlayerForGivenIDNotFound(player_id),
            ) && final(self)@ == old(self)@,
            has_id(old(self)@, player_id@) ==> (r matches Ok(n) && n@ == NoticeView::PointsUpdate(
                player_id@,
                points,
            )) && points_changed(old(self)@, final(self)@, player_id@, points),
    {
        proof {
            lemma_position_of(self@, player_id@);
        }
        let id = player_id.clone();
        match self.get_mut(player_id.as_str()) {
            Some(player) => {
                player.set_points(points);
                Ok(JeopardyNotice::PointsUpdate { player_id: id, points })
            },
            None => Err(JeopardyError::PlayerForGivenIDNotFound(player_id)),
        }
    }

    /// Adds `delta` to the points of the player registered under `player_id`
    /// and returns the new total with the notice that tells that player of it;
    /// an id of no player is refused, nothing changes and no one is told.
    pub fn update_points_for_player(&mut self, player_id: String, delta: i32) -> (r: Result<
        (i32, JeopardyNotice),
        JeopardyError,
    >)
        requires
            old(self).wf(),
            lookup(old(self)@, player_id@) matches Some(p) ==> i32::MIN <= p@.points + delta
                <= i32::MAX,
        ensures
            final(self).wf(),
            !has_id(old(self)@, player_id@) ==> r == Err::<(i32, JeopardyNotice), _>(
                JeopardyError::PlayerForGivenIDNotFound(player_id),
            ) && final(self)@ == old(self)@,
            has_id(old(self)@, player_id@) ==> {
                let total = old(self)@[position_of(old(self)@, player_id@)].1@.points + delta;
                &&& r matches Ok((t, n)) && t == total && n@ == NoticeView::PointsUpdate(
                    player_id@,
                    total as i32,
                )
                &&& points_changed(old(self)@, final(self)@, player_id@, total as i32)
            },
    {
        proof {
            lemma_position_of(self@, player_id@);
        }
        let id = player_id.clone();
        match self.get_mut(player_id.as_str()) {
            Some(player) => {
                let total = player.points() + delta;
                player.set_points(total);
                Ok((total, JeopardyNotice::PointsUpdate { player_id: id, points: total }))
            },
            None => Err(JeopardyError::PlayerForGivenIDNotFound(player_id)),
        }
    }
}

/// Commands the host of a game sends.
#[derive(Debug)]
pub enum HostCommand {
    ShowBoard { board_index: usize },
    ShowQuestion { board_index: usize, category_index: usize, question_index: usize },
    ShowCurrentAnswer,
    GetAnswer { board_index: usize, category_index: usize, question_index: usize },
    ShowFinalJeopardyHint,
    ShowFinalJeopardyQuestion,
    ShowFinalJeopardyAnswer,
    SetPoints { player_id: String, points: i32 },
    UpdatePoints { player_id: String, delta: i32 },
    ClearBuzzerQueue,
    GetBuzzerQueue,
}

/// What a host command gives back: mostly `Success`; otherwise the variant
/// mirrors the command.
#[derive(Debug)]
pub enum HostCommandResponse {
    Success,
    GetAnswer(String),
    UpdatePoints(i32),
    GetBuzzerQueue(VecDeque<String>),
}

/// Commands a player, or the host on a player's behalf, sends.
#[derive(Debug)]
pub enum PlayerCommand {
    Buzz,
    Refresh,
    GetPoints,
    GetWager,
    SetWager(i32),
    GetFreeResponse,
    SetFreeResponse(String),
    GetScoreboard,
}

/// What a player command gives back: mostly `Success`; otherwise the variant
/// mirrors the command.
#[derive(Debug)]
pub enum PlayerCommandResponse {
    Success,
    Refresh(JeopardyDisplayState),
    GetPoints(i32),
    GetWager(i32),
    GetFreeResponse(String),
    GetScoreboard(Vec<(i32, String)>),
}

/// A command for a game, from the host or for a player.
#[allow(inconsistent_fields)]
#[derive(Debug)]
pub enum JeopardyCommand {
    Host { host_password: String, command: HostCommand },
    Player { player_id: String, command: PlayerCommand },
}

/// What a command for a game gives back.
#[derive(Debug)]
pub enum JeopardyCommandResponse {
    Host(HostCommandResponse),
    Player(PlayerCommandResponse),
}

/// Something the game asks its lobby to send out after a command.
#[derive(Debug)]
pub enum JeopardyNotice {
    /// Show this to every player.
    Broadcast(JeopardyDisplayState),
    /// Tell this player of their new points.
    PointsUpdate { player_id: String, points: i32 },
}

pub enum NoticeView {
    Broadcast(DisplayView),
    PointsUpdate(Seq<char>, i32),
}

impl View for JeopardyNotice {
    type V = NoticeView;

    open spec fn view(&self) -> NoticeView {
        match self {
            JeopardyNotice::Broadcast(d) => NoticeView::Broadcast(d@),
            JeopardyNotice::PointsUpdate { player_id, points } => NoticeView::PointsUpdate(
                player_id@,
                *points,
            ),
        }
    }
}

/// The views of a list of notices.
pub open spec fn notice_views(ns: Seq<JeopardyNotice>) -> Seq<NoticeView> {
    ns.map_values(|n: JeopardyNotice| n@)
}

/// The card shown for the question at `(b, c, q)`: its category's name and
/// its content.
pub open spec fn question_card(cfg: JeopardyConfigView, b: usize, c: usize, q: usize) -> TextCardView {
    TextCardView {
        title: cfg.boards[b as int].categories[c as int].name,
        content: config_question(cfg, b, c, q).question.content,
    }
}

/// The card shown for the answer at `(b, c, q)`: its category's name and
/// the answer.
pub open spec fn answer_card(cfg: JeopardyConfigView, b: usize, c: usize, q: usize) -> TextCardView {
    TextCardView {
        title: cfg.boards[b as int].categories[c as int].name,
        content: config_question(cfg, b, c, q).question.answer,
    }
}

/// The card of the final round's hint.
pub open spec fn final_hint_card(f: FinalJeopardyView) -> TextCardView {
    TextCardView { title: "Final Jeopardy"@, content: f.hint }
}

/// The card of the final round's question, titled with its hint.
pub open spec fn final_question_card(f: FinalJeopardyView) -> TextCardView {
    TextCardView { title: f.hint, content: f.question.content }
}

/// The card of the final round's answer, titled with its hint.
pub open spec fn final_answer_card(f: FinalJeopardyView) -> TextCardView {
    TextCardView { title: f.hint, content: f.question.answer }
}

/// `g` now showing `d`.
pub open spec fn showing(g: JeopardyView, d: DisplayView) -> JeopardyView {
    JeopardyView { display: d, ..g }
}

/// `points + delta`, held to the range of `i32`.
pub open spec fn clamped_total(points: i32, delta: i32) -> i32 {
    let t = points + delta;
    if t > i32::MAX {
        i32::MAX
    } else if t < i32::MIN {
        i32::MIN
    } else {
        t as i32
    }
}

/// What a host command does: the game and players before (`old_game`,
/// `old_players`) and after (`new_game`, `new_players`), the response and the
/// notices sent out.
pub open spec fn host_command_effect(
    old_game: JeopardyView,
    old_players: Seq<(Seq<char>, JeopardyPlayer)>,
    host_password: Seq<char>,
    command: HostCommand,
    new_game: JeopardyView,
    new_players: Seq<(Seq<char>, JeopardyPlayer)>,
    resp: Result<HostCommandResponse, JeopardyError>,
    notices: Seq<NoticeView>,
) -> bool {
    &&& old_game.host_password != host_password ==> {
        &&& resp matches Err(JeopardyError::IncorrectHostPassword)
        &&& new_game == old_game
        &&& new_players == old_players
        &&& notices.len() == 0
    }
    &&& old_game.host_password == host_password ==> {
        let g = old_game;
        let cfg = g.config;
        match command {
            HostCommand::ShowBoard { board_index } => match index_error(
                cfg,
                board_index,
                0,
                0,
            ) {
                Some(e) => resp == Err::<HostCommandResponse, _>(e) && new_game == g
                    && notices.len() == 0 && new_players == old_players,
                None => {
                    let d = DisplayView::Board(redacted_board(cfg.boards[board_index as int]));
                    &&& resp matches Ok(HostCommandResponse::Success)
                    &&& new_game == showing(
                        JeopardyView { current_question: (board_index, 0, 0), ..g },
                        d,
                    )
                    &&& notices == seq![NoticeView::Broadcast(d)]
                    &&& new_players == old_players
                },
            },
            HostCommand::ShowQuestion { board_index, category_index, question_index } =>
            match index_error(cfg, board_index, category_index, question_index) {
                Some(e) => resp == Err::<HostCommandResponse, _>(e) && new_game == g
                    && notices.len() == 0 && new_players == old_players,
                None => {
                    let d = DisplayView::Question(
                        question_card(cfg, board_index, category_index, question_index),
                    );
                    &&& resp matches Ok(HostCommandResponse::Success)
                    &&& new_game == showing(
                        JeopardyView {
                            current_question: (board_index, category_index, question_index),
                            ..g
                        },
                        d,
                    )
                    &&& notices == seq![NoticeView::Broadcast(d)]
                    &&& new_players == old_players
                },
            },
            HostCommand::ShowCurrentAnswer => {
                let (b, c, q) = g.current_question;
                match index_error(cfg, b, c, q) {
                    Some(e) => resp == Err::<HostCommandResponse, _>(e) && new_game == g
                        && notices.len() == 0 && new_players == old_players,
                    None => {
                        let d = DisplayView::Answer(answer_card(cfg, b, c, q));
                        &&& resp matches Ok(HostCommandResponse::Success)
                        &&& new_game == showing(g, d)
                        &&& notices == seq![NoticeView::Broadcast(d)]
                        &&& new_players == old_players
                    },
                }
            },
            HostCommand::GetAnswer { board_index, category_index, question_index } =>
            match index_error(cfg, board_index, category_index, question_index) {
                Some(e) => resp == Err::<HostCommandResponse, _>(e) && new_game == g
                    && notices.len() == 0 && new_players == old_players,
                None => {
                    &&& (resp matches Ok(HostCommandResponse::GetAnswer(a)) && a@
                        == config_question(
                        cfg,
                        board_index,
                        category_index,
                        question_index,
                    ).question.answer)
                    &&& new_game == g
                    &&& notices.len() == 0
                    &&& new_players == old_players
                },
            },
            HostCommand::ShowFinalJeopardyHint => {
                let d = DisplayView::FinalJeopardyHint(final_hint_card(cfg.final_jeopardy));
                &&& resp matches Ok(HostCommandResponse::Success)
                &&& new_game == showing(g, d)
                &&& notices == seq![NoticeView::Broadcast(d)]
                &&& new_players == old_players
            },
            HostCommand::ShowFinalJeopardyQuestion => {
                let d = DisplayView::FinalJeopardyQuestion(
                    final_question_card(cfg.final_jeopardy),
                );
                &&& resp matches Ok(HostCommandResponse::Success)
                &&& new_game == showing(g, d)
                &&& notices == seq![NoticeView::Broadcast(d)]
                &&& new_players == old_players
            },
            HostCommand::ShowFinalJeopardyAnswer => {
                let d = DisplayView::FinalJeopardyAnswer(
                    final_answer_card(cfg.final_jeopardy),
                );
                &&& resp matches Ok(HostCommandResponse::Success)
                &&& new_game == showing(g, d)
                &&& notices == seq![NoticeView::Broadcast(d)]
                &&& new_players == old_players
            },
            HostCommand::SetPoints { player_id, points } => {
                &&& new_game == g
                &&& !has_id(old_players, player_id@) ==> resp == Err::<
                    HostCommandResponse,
                    _,
                >(JeopardyError::PlayerForGivenIDNotFound(player_id)) && new_players
                    == old_players && notices.len() == 0
                &&& has_id(old_players, player_id@) ==> (resp matches Ok(
                    HostCommandResponse::Success,
                ) && points_changed(old_players, new_players, player_id@, points)
                    && notices == seq![
                    NoticeView::PointsUpdate(player_id@, points),
                ])
            },
            HostCommand::UpdatePoints { player_id, delta } => {
                &&& new_game == g
                &&& !has_id(old_players, player_id@) ==> resp == Err::<
                    HostCommandResponse,
                    _,
                >(JeopardyError::PlayerForGivenIDNotFound(player_id)) && new_players
                    == old_players && notices.len() == 0
                &&& has_id(old_players, player_id@) ==> {
                    let total = clamped_total(
                        old_players[position_of(old_players, player_id@)].1@.points,
                        delta,
                    );
                    &&& resp == Ok::<HostCommandResponse, JeopardyError>(
                        HostCommandResponse::UpdatePoints(total),
                    )
                    &&& points_changed(old_players, new_players, player_id@, total)
                    &&& notices == seq![NoticeView::PointsUpdate(player_id@, total)]
                }
            },
            HostCommand::ClearBuzzerQueue => {
                &&& resp matches Ok(HostCommandResponse::Success)
                &&& new_game == JeopardyView { buzzer_queue: Seq::empty(), ..g }
                &&& notices.len() == 0
                &&& new_players == old_players
            },
            HostCommand::GetBuzzerQueue => {
                &&& (resp matches Ok(HostCommandResponse::GetBuzzerQueue(q)) && q@.map_values(
                    |s: String| s@,
                ) == g.buzzer_queue)
                &&& new_game == g
                &&& notices.len() == 0
                &&& new_players == old_players
            },
        }
    }
}

impl Jeopardy {
    /// Shows `display` and asks for it to be broadcast.
    fn show(&mut self, display: JeopardyDisplayState) -> (r: Vec<JeopardyNotice>)
        ensures
            final(self)@ == showing(old(self)@, display@),
            notice_views(r@) == seq![NoticeView::Broadcast(display@)],
    {
        let shown = display.clone();
        self.display = display;
        let mut notices: Vec<JeopardyNotice> = Vec::new();
        notices.push(JeopardyNotice::Broadcast(shown));
        assert(notice_views(notices@) =~= seq![NoticeView::Broadcast(display@)]);
        notices
    }

    /// Runs a host command. A wrong host password is refused before anything
    /// else. Every change of what players see comes back as a broadcast
    /// notice, every change of a player's points as a points notice.
    pub fn handle_host_command(
        &mut self,
        players: &mut PlayerMap<JeopardyPlayer>,
        host_password: &str,
        command: HostCommand,
    ) -> (r: (Result<HostCommandResponse, JeopardyError>, Vec<JeopardyNotice>))
        requires
            old(players).wf(),
        ensures
            final(players).wf(),
            host_command_effect(
                old(self)@,
                old(players)@,
                host_password@,
                command,
                final(self)@,
                final(players)@,
                r.0,
                notice_views(r.1@),
            ),
    {
        let no_notices: Vec<JeopardyNotice> = Vec::new();
        assert(no_notices@.len() == 0);
        if !self.check_password(host_password) {
            return (Err(JeopardyError::IncorrectHostPassword), no_notices);
        }
        match command {
            HostCommand::ShowBoard { board_index } => match self.show_board(board_index) {
                Ok(n) => {
                    let mut notices: Vec<JeopardyNotice> = Vec::new();
                    notices.push(n);
                    assert(notice_views(notices@) =~= seq![n@]);
                    (Ok(HostCommandResponse::Success), notices)
                },
                Err(e) => (Err(e), no_notices),
            },
            HostCommand::ShowQuestion { board_index, category_index, question_index } => {
                let card = match self.get_question(board_index, category_index, question_index) {
                    Ok((_board, category, question)) => TextCard {
                        title: category.name().to_owned(),
                        content: question.underlying().content().to_owned(),
                    },
                    Err(e) => {
                        return (Err(e), no_notices);
                    },
                };
                self.current_question = (board_index, category_index, question_index);
                let notices = self.show(JeopardyDisplayState::Question(card));
                (Ok(HostCommandResponse::Success), notices)
            },
            HostCommand::ShowCurrentAnswer => {
                let (b, c, q) = self.current_question;
                let card = match self.get_question(b, c, q) {
                    Ok((_board, category, question)) => TextCard {
                        title: category.name().to_owned(),
                        content: question.underlying().answer().to_owned(),
                    },
                    Err(e) => {
                        return (Err(e), no_notices);
                    },
                };
                let notices = self.show(JeopardyDisplayState::Answer(card));
                (Ok(HostCommandResponse::Success), notices)
            },
            HostCommand::GetAnswer { board_index, category_index, question_index } => {
                match self.get_answer(board_index, category_index, question_index) {
                    Ok(answer) => (Ok(HostCommandResponse::GetAnswer(answer)), no_notices),
                    Err(e) => (Err(e), no_notices),
                }
            },
            HostCommand::ShowFinalJeopardyHint => {
                let card = TextCard {
                    title: "Final Jeopardy".to_owned(),
                    content: self.config.final_jeopardy().hint().to_owned(),
                };
                let notices = self.show(JeopardyDisplayState::FinalJeopardyHint(card));
                (Ok(HostCommandResponse::Success), notices)
            },
            HostCommand::ShowFinalJeopardyQuestion => {
                let final_jeopardy = self.config.final_jeopardy();
                let card = TextCard {
                    title: final_jeopardy.hint().to_owned(),
                    content: final_jeopardy.question().content().to_owned(),
                };
                let notices = self.show(JeopardyDisplayState::FinalJeopardyQuestion(card));
                (Ok(HostCommandResponse::Success), notices)
            },
            HostCommand::ShowFinalJeopardyAnswer => {
                let final_jeopardy = self.config.final_jeopardy();
                let card = TextCard {
                    title: final_jeopardy.hint().to_owned(),
                    content: final_jeopardy.question().answer().to_owned(),
                };
                let notices = self.show(JeopardyDisplayState::FinalJeopardyAnswer(card));
                (Ok(HostCommandResponse::Success), notices)
            },
            HostCommand::SetPoints { player_id, points } => {
                match players.set_points_for_player(player_id, points) {
                    Ok(n) => {
                        let mut notices: Vec<JeopardyNotice> = Vec::new();
                        notices.push(n);
                        assert(notice_views(notices@) =~= seq![n@]);
                        (Ok(HostCommandResponse::Success), notices)
                    },
                    Err(e) => (Err(e), no_notices),
                }
            },
            HostCommand::UpdatePoints { player_id, delta } => {
                proof {
                    lemma_position_of(players@, player_id@);
                }
                let current = match players.get(player_id.as_str()) {
                    Some(player) => player.points(),
                    None => {
                        return (Err(JeopardyError::PlayerForGivenIDNotFound(player_id)), no_notices);
                    },
                };
                let (total, n) = if delta > 0 && current > i32::MAX - delta {
                    match players.set_points_for_player(player_id, i32::MAX) {
                        Ok(n) => (i32::MAX, n),
                        Err(e) => {
                            return (Err(e), no_notices);
                        },
                    }
                } else if delta < 0 && current < i32::MIN - delta {
                    match players.set_points_for_player(player_id, i32::MIN) {
                        Ok(n) => (i32::MIN, n),
                        Err(e) => {
                            return (Err(e), no_notices);
                        },
                    }
                } else {
                    match players.update_points_for_player(player_id, delta) {
                        Ok(done) => done,
                        Err(e) => {
                            return (Err(e), no_notices);
                        },
                    }
                };
                let mut notices: Vec<JeopardyNotice> = Vec::new();
                notices.push(n);
                assert(notice_views(notices@) =~= seq![n@]);
                (Ok(HostCommandResponse::UpdatePoints(total)), notices)
            },
            HostCommand::ClearBuzzerQueue => {
                self.clear_buzzer_queue();
                (Ok(HostCommandResponse::Success), no_notices)
            },
            HostCommand::GetBuzzerQueue => {
                let queue = self.buzzer_queue.clone();
                (Ok(HostCommandResponse::GetBuzzerQueue(queue)), no_notices)
            },
        }
    }
}

/// What a player command does for the player registered under `player_id`:
/// the game and players before and after, and the response.
pub open spec fn player_command_effect(
    old_game: JeopardyView,
    old_players: Seq<(Seq<char>, JeopardyPlayer)>,
    player_id: String,
    command: PlayerCommand,
    new_game: JeopardyView,
    new_players: Seq<(Seq<char>, JeopardyPlayer)>,
    resp: Result<PlayerCommandResponse, JeopardyError>,
) -> bool {
    let id = player_id@;
    &&& !has_id(old_players, id) ==> {
        &&& resp == Err::<PlayerCommandResponse, _>(
            JeopardyError::PlayerForGivenIDNotFound(player_id),
        )
        &&& new_game == old_game
        &&& new_players == old_players
    }
    &&& has_id(old_players, id) ==> {
        let p = old_players[position_of(old_players, id)].1@;
        match command {
            PlayerCommand::Buzz => {
                &&& resp matches Ok(PlayerCommandResponse::Success)
                &&& new_players == old_players
                &&& shows_text_card(old_game.display) ==> new_game == JeopardyView {
                    buzzer_queue: old_game.buzzer_queue.push(id),
                    ..old_game
                }
                &&& !shows_text_card(old_game.display) ==> new_game == old_game
            },
            PlayerCommand::Refresh => {
                &&& (resp matches Ok(PlayerCommandResponse::Refresh(d)) && d@ == old_game.display)
                &&& new_game == old_game
                &&& new_players == old_players
            },
            PlayerCommand::GetPoints => {
                &&& resp == Ok::<PlayerCommandResponse, JeopardyError>(
                    PlayerCommandResponse::GetPoints(p.points),
                )
                &&& new_game == old_game
                &&& new_players == old_players
            },
            PlayerCommand::GetWager => {
                &&& resp == Ok::<PlayerCommandResponse, JeopardyError>(
                    PlayerCommandResponse::GetWager(p.wager),
                )
                &&& new_game == old_game
                &&& new_players == old_players
            },
            PlayerCommand::SetWager(wager) => {
                &&& new_game == old_game
                &&& wager_allowed(wager as int, p.points as int) ==> (resp
                    matches Ok(PlayerCommandResponse::Success) && player_updated(
                    old_players,
                    new_players,
                    id,
                    JeopardyPlayerView { wager, ..p },
                ))
                &&& !wager_allowed(wager as int, p.points as int) ==> resp
                    == Err::<PlayerCommandResponse, _>(
                    JeopardyError::PlayerMisconfig(
                        JeopardyPlayerError::InvalidWager { wager, current_points: p.points },
                    ),
                ) && player_updated(old_players, new_players, id, p)
            },
            PlayerCommand::GetFreeResponse => {
                &&& (resp matches Ok(PlayerCommandResponse::GetFreeResponse(f)) && f@
                    == p.free_response)
                &&& new_game == old_game
                &&& new_players == old_players
            },
            PlayerCommand::SetFreeResponse(free_response) => {
                &&& resp matches Ok(PlayerCommandResponse::Success)
                &&& new_game == old_game
                &&& player_updated(
                    old_players,
                    new_players,
                    id,
                    JeopardyPlayerView { free_response: free_response@, ..p },
                )
            },
            PlayerCommand::GetScoreboard => {
                &&& (resp matches Ok(PlayerCommandResponse::GetScoreboard(rows)) && score_rows(
                    rows@,
                ).to_multiset() == score_entries(old_players).to_multiset() && is_descending(
                    score_rows(rows@),
                ))
                &&& new_game == old_game
                &&& new_players == old_players
            },
        }
    }
}

impl Jeopardy {
    /// Runs a command for the player registered under `player_id`; an id of
    /// no player is refused before anything else.
    pub fn handle_player_command(
        &mut self,
        players: &mut PlayerMap<JeopardyPlayer>,
        player_id: String,
        command: PlayerCommand,
    ) -> (r: Result<PlayerCommandResponse, JeopardyError>)
        requires
            old(players).wf(),
        ensures
            final(players).wf(),
            player_command_effect(
                old(self)@,
                old(players)@,
                player_id,
                command,
                final(self)@,
                final(players)@,
                r,
            ),
    {
        proof {
            lemma_position_of(players@, player_id@);
        }
        let ghost id = player_id@;
        let (points, wager) = match players.get(player_id.as_str()) {
            Some(player) => (player.points(), player.wager()),
            None => {
                return Err(JeopardyError::PlayerForGivenIDNotFound(player_id));
            },
        };
        match command {
            PlayerCommand::Buzz => {
                match self.add_player_to_buzzer_queue(players, player_id) {
                    Ok(()) => Ok(PlayerCommandResponse::Success),
                    Err(e) => Err(e),
                }
            },
            PlayerCommand::Refresh => Ok(PlayerCommandResponse::Refresh(self.display.clone())),
            PlayerCommand::GetPoints => Ok(PlayerCommandResponse::GetPoints(points)),
            PlayerCommand::GetWager => Ok(PlayerCommandResponse::GetWager(wager)),
            PlayerCommand::SetWager(new_wager) => {
                match players.get_mut(player_id.as_str()) {
                    Some(player) => match player.set_wager(new_wager) {
                        Ok(()) => Ok(PlayerCommandResponse::Success),
                        Err(e) => Err(JeopardyError::PlayerMisconfig(e)),
                    },
                    None => Err(JeopardyError::PlayerForGivenIDNotFound(player_id)),
                }
            },
            PlayerCommand::GetFreeResponse => {
                match players.get(player_id.as_str()) {
                    Some(player) => Ok(
                        PlayerCommandResponse::GetFreeResponse(player.free_response().to_owned()),
                    ),
                    None => Err(JeopardyError::PlayerForGivenIDNotFound(player_id)),
                }
            },
            PlayerCommand::SetFreeResponse(free_response) => {
                match players.get_mut(player_id.as_str()) {
                    Some(player) => {
                        player.set_free_response(free_response);
                        Ok(PlayerCommandResponse::Success)
                    },
                    None => Err(JeopardyError::PlayerForGivenIDNotFound(player_id)),
                }
            },
            PlayerCommand::GetScoreboard => Ok(
                PlayerCommandResponse::GetScoreboard(players.scoreboard()),
            ),
        }
    }
}


/// The host's part of a command's result, if it is one.
pub open spec fn host_part(r: Result<JeopardyCommandResponse, JeopardyError>) -> Option<
    Result<HostCommandResponse, JeopardyError>,
> {
    match r {
        Ok(JeopardyCommandResponse::Host(h)) => Some(Ok(h)),
        Ok(JeopardyCommandResponse::Player(_)) => None,
        Err(e) => Some(Err(e)),
    }
}

/// The player's part of a command's result, if it is one.
pub open spec fn player_part(r: Result<JeopardyCommandResponse, JeopardyError>) -> Option<
    Result<PlayerCommandResponse, JeopardyError>,
> {
    match r {
        Ok(JeopardyCommandResponse::Player(p)) => Some(Ok(p)),
        Ok(JeopardyCommandResponse::Host(_)) => None,
        Err(e) => Some(Err(e)),
    }
}

/// Updating one player's state keeps every id in its place.
pub proof fn lemma_player_updated_keeps_ids(
    old_players: Seq<(Seq<char>, JeopardyPlayer)>,
    new_players: Seq<(Seq<char>, JeopardyPlayer)>,
    id: Seq<char>,
    player: JeopardyPlayerView,
)
    requires
        player_updated(old_players, new_players, id, player),
    ensures
        ids_of(new_players) == ids_of(old_players),
{
    let i = position_of(old_players, id);
    assert forall|k: int| 0 <= k < old_players.len() implies #[trigger] ids_of(new_players)[k]
        == ids_of(old_players)[k] by {
        if k != i {
            assert(new_players[k] == old_players[k]);
        }
    }
    assert(ids_of(new_players) =~= ids_of(old_players));
}

/// No host command adds, removes or renames a player.
pub proof fn law_host_commands_keep_roster(
    old_game: JeopardyView,
    old_players: Seq<(Seq<char>, JeopardyPlayer)>,
    host_password: Seq<char>,
    command: HostCommand,
    new_game: JeopardyView,
    new_players: Seq<(Seq<char>, JeopardyPlayer)>,
    resp: Result<HostCommandResponse, JeopardyError>,
    notices: Seq<NoticeView>,
)
    requires
        host_command_effect(
            old_game,
            old_players,
            host_password,
            command,
            new_game,
            new_players,
            resp,
            notices,
        ),
    ensures
        ids_of(new_players) == ids_of(old_players),
{
    if old_game.host_password == host_password {
        match command {
            HostCommand::SetPoints { player_id, points } => {
                if has_id(old_players, player_id@) {
                    lemma_player_updated_keeps_ids(
                        old_players,
                        new_players,
                        player_id@,
                        JeopardyPlayerView {
                            points,
                            ..old_players[position_of(old_players, player_id@)].1@
                        },
                    );
                }
            },
            HostCommand::UpdatePoints { player_id, delta } => {
                if has_id(old_players, player_id@) {
                    let p = old_players[position_of(old_players, player_id@)].1@;
                    lemma_player_updated_keeps_ids(
                        old_players,
                        new_players,
                        player_id@,
                        JeopardyPlayerView { points: clamped_total(p.points, delta), ..p },
                    );
                }
            },
            _ => {},
        }
    }
}

/// No player command adds, removes or renames a player.
pub proof fn law_player_commands_keep_roster(
    old_game: JeopardyView,
    old_players: Seq<(Seq<char>, JeopardyPlayer)>,
    player_id: String,
    command: PlayerCommand,
    new_game: JeopardyView,
    new_players: Seq<(Seq<char>, JeopardyPlayer)>,
    resp: Result<PlayerCommandResponse, JeopardyError>,
)
    requires
        player_command_effect(
            old_game,
            old_players,
            player_id,
            command,
            new_game,
            new_players,
            resp,
        ),
    ensures
        ids_of(new_players) == ids_of(old_players),
{
    let id = player_id@;
    if has_id(old_players, id) {
        let p = old_players[position_of(old_players, id)].1@;
        match command {
            PlayerCommand::SetWager(wager) => {
                if wager_allowed(wager as int, p.points as int) {
                    lemma_player_updated_keeps_ids(
                        old_players,
                        new_players,
                        id,
                        JeopardyPlayerView { wager, ..p },
                    );
                } else {
                    lemma_player_updated_keeps_ids(old_players, new_players, id, p);
                }
            },
            PlayerCommand::SetFreeResponse(free_response) => {
                lemma_player_updated_keeps_ids(
                    old_players,
                    new_players,
                    id,
                    JeopardyPlayerView { free_response: free_response@, ..p },
                );
            },
            _ => {},
        }
    }
}

/// What a command from the lobby does to a game and its players: a host
/// command with its password, or a command for a player, which sends no
/// notices.
pub open spec fn command_effect(
    old_game: JeopardyView,
    old_players: Seq<(Seq<char>, JeopardyPlayer)>,
    event: JeopardyCommand,
    new_game: JeopardyView,
    new_players: Seq<(Seq<char>, JeopardyPlayer)>,
    r: (Result<JeopardyCommandResponse, JeopardyError>, Vec<JeopardyNotice>),
) -> bool {
    match event {
        JeopardyCommand::Host { host_password, command } => {
            &&& host_part(r.0) matches Some(h)
            &&& host_command_effect(
                old_game,
                old_players,
                host_password@,
                command,
                new_game,
                new_players,
                h,
                notice_views(r.1@),
            )
        },
        JeopardyCommand::Player { player_id, command } => {
            &&& player_part(r.0) matches Some(p)
            &&& player_command_effect(
                old_game,
                old_players,
                player_id,
                command,
                new_game,
                new_players,
                p,
            )
            &&& r.1@.len() == 0
        },
    }
}

impl Game for Jeopardy {
    type Player = JeopardyPlayer;
    type Event = JeopardyCommand;
    type EventResponse = (Result<JeopardyCommandResponse, JeopardyError>, Vec<JeopardyNotice>);

    open spec fn event_effect(
        old_game: Jeopardy,
        old_players: Seq<(Seq<char>, JeopardyPlayer)>,
        event: JeopardyCommand,
        new_game: Jeopardy,
        new_players: Seq<(Seq<char>, JeopardyPlayer)>,
        response: (Result<JeopardyCommandResponse, JeopardyError>, Vec<JeopardyNotice>),
    ) -> bool {
        command_effect(old_game@, old_players, event, new_game@, new_players, response)
    }

    /// Runs a command from the lobby: a host command with its password, or a
    /// command for a player. Player commands send no notices.
    fn handle_event(
        &mut self,
        players: &mut PlayerMap<JeopardyPlayer>,
        event: JeopardyCommand,
    ) -> (r: (Result<JeopardyCommandResponse, JeopardyError>, Vec<JeopardyNotice>))
        ensures
            command_effect(old(self)@, old(players)@, event, final(self)@, final(players)@, r),
    {
        match event {
            JeopardyCommand::Host { host_password, command } => {
                let ghost old_game = self@;
                let ghost old_players = players@;
                let (resp, notices) = self.handle_host_command(
                    players,
                    host_password.as_str(),
                    command,
                );
                proof {
                    law_host_commands_keep_roster(
                        old_game,
                        old_players,
                        host_password@,
                        command,
                        self@,
                        players@,
                        resp,
                        notice_views(notices@),
                    );
                }
                let out = match resp {
                    Ok(h) => Ok(JeopardyCommandResponse::Host(h)),
                    Err(e) => Err(e),
                };
                (out, notices)
            },
            JeopardyCommand::Player { player_id, command } => {
                let ghost old_game = self@;
                let ghost old_players = players@;
                let ghost pid = player_id;
                let resp = self.handle_player_command(players, player_id, command);
                proof {
                    law_player_commands_keep_roster(
                        old_game,
                        old_players,
                        pid,
                        command,
                        self@,
                        players@,
                        resp,
                    );
                }
                let out = match resp {
                    Ok(p) => Ok(JeopardyCommandResponse::Player(p)),
                    Err(e) => Err(e),
                };
                (out, Vec::new())
            },
        }
    }
}

/// No host command changes the configuration or the host password.
pub proof fn law_host_commands_keep_config(
    old_game: JeopardyView,
    old_players: Seq<(Seq<char>, JeopardyPlayer)>,
    host_password: Seq<char>,
    command: HostCommand,
    new_game: JeopardyView,
    new_players: Seq<(Seq<char>, JeopardyPlayer)>,
    resp: Result<HostCommandResponse, JeopardyError>,
    notices: Seq<NoticeView>,
)
    requires
        host_command_effect(
            old_game,
            old_players,
            host_password,
            command,
            new_game,
            new_players,
            resp,
            notices,
        ),
    ensures
        new_game.config == old_game.config,
        new_game.host_password == old_game.host_password,
{
}

/// No player command changes the configuration, the host password, what is
/// shown or the current question.
pub proof fn law_player_commands_keep_game(
    old_game: JeopardyView,
    old_players: Seq<(Seq<char>, JeopardyPlayer)>,
    player_id: String,
    command: PlayerCommand,
    new_game: JeopardyView,
    new_players: Seq<(Seq<char>, JeopardyPlayer)>,
    resp: Result<PlayerCommandResponse, JeopardyError>,
)
    requires
        player_command_effect(
            old_game,
            old_players,
            player_id,
            command,
            new_game,
            new_players,
            resp,
        ),
    ensures
        new_game.config == old_game.config,
        new_game.host_password == old_game.host_password,
        new_game.display == old_game.display,
        new_game.current_question == old_game.current_question,
{
}

/// Once a question is shown, showing the current answer shows that
/// question's answer, the one the host would get for the same indices.
pub proof fn law_show_question_then_answer(
    g0: JeopardyView,
    p0: Seq<(Seq<char>, JeopardyPlayer)>,
    board_index: usize,
    category_index: usize,
    question_index: usize,
    g1: JeopardyView,
    p1: Seq<(Seq<char>, JeopardyPlayer)>,
    r1: Result<HostCommandResponse, JeopardyError>,
    n1: Seq<NoticeView>,
    g2: JeopardyView,
    p2: Seq<(Seq<char>, JeopardyPlayer)>,
    r2: Result<HostCommandResponse, JeopardyError>,
    n2: Seq<NoticeView>,
)
    requires
        host_command_effect(
            g0,
            p0,
            g0.host_password,
            HostCommand::ShowQuestion { board_index, category_index, question_index },
            g1,
            p1,
            r1,
            n1,
        ),
        r1 is Ok,
        host_command_effect(
            g1,
            p1,
            g0.host_password,
            HostCommand::ShowCurrentAnswer,
            g2,
            p2,
            r2,
            n2,
        ),
    ensures
        r2 is Ok,
        g2.display == DisplayView::Answer(
            answer_card(g0.config, board_index, category_index, question_index),
        ),
        n2 == seq![NoticeView::Broadcast(g2.display)],
        answer_card(g0.config, board_index, category_index, question_index).content
            == config_question(
            g0.config,
            board_index,
            category_index,
            question_index,
        ).question.answer,
{
}

/// While a card of text is shown, players who buzz in are queued in the order
/// they buzzed.
pub proof fn law_buzzes_queue_in_order(
    g0: JeopardyView,
    p0: Seq<(Seq<char>, JeopardyPlayer)>,
    first: String,
    second: String,
    g1: JeopardyView,
    p1: Seq<(Seq<char>, JeopardyPlayer)>,
    r1: Result<PlayerCommandResponse, JeopardyError>,
    g2: JeopardyView,
    p2: Seq<(Seq<char>, JeopardyPlayer)>,
    r2: Result<PlayerCommandResponse, JeopardyError>,
)
    requires
        shows_text_card(g0.display),
        has_id(p0, first@),
        has_id(p0, second@),
        player_command_effect(g0, p0, first, PlayerCommand::Buzz, g1, p1, r1),
        player_command_effect(g1, p1, second, PlayerCommand::Buzz, g2, p2, r2),
    ensures
        r1 is Ok,
        r2 is Ok,
        g2.buzzer_queue == g0.buzzer_queue.push(first@).push(second@),
{
}

/// Adding `d1` and then `d2` to a player's points, where no sum leaves the
/// range of `i32`, leaves the player with their points plus `d1 + d2`.
pub proof fn law_point_updates_add_up(
    g0: JeopardyView,
    p0: Seq<(Seq<char>, JeopardyPlayer)>,
    player_id: String,
    d1: i32,
    d2: i32,
    g1: JeopardyView,
    p1: Seq<(Seq<char>, JeopardyPlayer)>,
    r1: Result<HostCommandResponse, JeopardyError>,
    n1: Seq<NoticeView>,
    g2: JeopardyView,
    p2: Seq<(Seq<char>, JeopardyPlayer)>,
    r2: Result<HostCommandResponse, JeopardyError>,
    n2: Seq<NoticeView>,
)
    requires
        ids_distinct(p0),
        has_id(p0, player_id@),
        i32::MIN <= p0[position_of(p0, player_id@)].1@.points + d1 <= i32::MAX,
        i32::MIN <= p0[position_of(p0, player_id@)].1@.points + d1 + d2 <= i32::MAX,
        host_command_effect(
            g0,
            p0,
            g0.host_password,
            HostCommand::UpdatePoints { player_id, delta: d1 },
            g1,
            p1,
            r1,
            n1,
        ),
        host_command_effect(
            g1,
            p1,
            g0.host_password,
            HostCommand::UpdatePoints { player_id, delta: d2 },
            g2,
            p2,
            r2,
            n2,
        ),
    ensures
        ({
            let total = p0[position_of(p0, player_id@)].1@.points + d1 + d2;
            &&& r2 == Ok::<HostCommandResponse, JeopardyError>(
                HostCommandResponse::UpdatePoints(total as i32),
            )
            &&& lookup(p2, player_id@) matches Some(p) && p@.points == total
        }),
{
    let id = player_id@;
    let i = position_of(p0, id);
    lemma_position_of(p0, id);
    assert(p0[i].0 == id);
    assert(p1[i].0 == id);
    assert(ids_distinct(p1)) by {
        assert forall|a: int, b: int| 0 <= a < b < p1.len() implies #[trigger] p1[a].0
            != #[trigger] p1[b].0 by {
            assert(p1[a].0 == p0[a].0);
            assert(p1[b].0 == p0[b].0);
        }
    }
    lemma_position_of(p1, id);
    assert(position_of(p1, id) == i);
    assert(p2[i].0 == id);
    assert(ids_distinct(p2)) by {
        assert forall|a: int, b: int| 0 <= a < b < p2.len() implies #[trigger] p2[a].0
            != #[trigger] p2[b].0 by {
            assert(p2[a].0 == p1[a].0);
            assert(p2[b].0 == p1[b].0);
        }
    }
    lemma_position_of(p2, id);
    assert(position_of(p2, id) == i);
}

/// An event for one player, as its parts.
pub enum EventView {
    Display(DisplayView),
    PointsUpdate(i32),
}

impl View for JeopardyPlayerEvent {
    type V = EventView;

    open spec fn view(&self) -> EventView {
        match self {
            JeopardyPlayerEvent::Display(d) => EventView::Display(d@),
            JeopardyPlayerEvent::PointsUpdate(p) => EventView::PointsUpdate(*p),
        }
    }
}

/// Who is sent what for one notice: a broadcast goes to every player of
/// `ids`, in order; a points update to its player only.
pub open spec fn notice_deliveries(ids: Seq<Seq<char>>, n: NoticeView) -> Seq<(Seq<char>, EventView)> {
    match n {
        NoticeView::Broadcast(d) => ids.map_values(|id: Seq<char>| (id, EventView::Display(d))),
        NoticeView::PointsUpdate(id, p) => seq![(id, EventView::PointsUpdate(p))],
    }
}

/// Who is sent what for a list of notices, notice by notice.
pub open spec fn deliveries(ids: Seq<Seq<char>>, ns: Seq<NoticeView>) -> Seq<(Seq<char>, EventView)>
    decreases ns.len(),
{
    if ns.len() == 0 {
        Seq::empty()
    } else {
        deliveries(ids, ns.drop_last()) + notice_deliveries(ids, ns.last())
    }
}

/// A single broadcast, such as the board `show_board` returns, reaches every
/// player once, in roster order, and no one else.
pub proof fn law_broadcast_reaches_every_player(ids: Seq<Seq<char>>, d: DisplayView)
    ensures
        deliveries(ids, seq![NoticeView::Broadcast(d)]).len() == ids.len(),
        forall|k: int|
            0 <= k < ids.len() ==> #[trigger] deliveries(ids, seq![NoticeView::Broadcast(d)])[k]
                == (ids[k], EventView::Display(d)),
{
    let ns = seq![NoticeView::Broadcast(d)];
    assert(ns.drop_last() =~= Seq::<NoticeView>::empty());
    assert(deliveries(ids, ns.drop_last()) == Seq::<(Seq<char>, EventView)>::empty());
    assert(ns.last() == NoticeView::Broadcast(d));
    assert(deliveries(ids, ns) =~= notice_deliveries(ids, NoticeView::Broadcast(d)));
}

/// The views of a list of addressed events.
pub open spec fn delivery_views(v: Seq<(String, JeopardyPlayerEvent)>) -> Seq<(Seq<char>, EventView)> {
    v.map_values(|e: (String, JeopardyPlayerEvent)| (e.0@, e.1@))
}

/// Turns the notices of a command into events addressed to players by id.
pub fn route_notices(players: &PlayerMap<JeopardyPlayer>, notices: &Vec<JeopardyNotice>) -> (r: Vec<
    (String, JeopardyPlayerEvent),
>)
    ensures
        delivery_views(r@) == deliveries(ids_of(players@), notice_views(notices@)),
{
    let ids = players.ids();
    let ghost idv = ids_of(players@);
    assert(ids@.map_values(|s: String| s@) =~= idv);
    let mut out: Vec<(String, JeopardyPlayerEvent)> = Vec::new();
    let mut i: usize = 0;
    while i < notices.len()
        invariant
            i <= notices@.len(),
            ids@.len() == idv.len(),
            forall|k: int| 0 <= k < idv.len() ==> #[trigger] ids@[k]@ == idv[k],
            idv == ids_of(players@),
            delivery_views(out@) == deliveries(idv, notice_views(notices@.subrange(0, i as int))),
        decreases notices@.len() - i,
    {
        let ghost before = out@;
        proof {
            let ns = notice_views(notices@.subrange(0, i as int + 1));
            assert(ns.drop_last() =~= notice_views(notices@.subrange(0, i as int)));
            assert(ns.last() == notices@[i as int]@);
        }
        match &notices[i] {
            JeopardyNotice::Broadcast(d) => {
                let mut j: usize = 0;
                while j < ids.len()
                    invariant
                        j <= ids@.len(),
                        ids@.len() == idv.len(),
                        forall|k: int| 0 <= k < idv.len() ==> #[trigger] ids@[k]@ == idv[k],
                        out@.len() == before.len() + j,
                        forall|k: int| 0 <= k < before.len() ==> #[trigger] out@[k] == before[k],
                        forall|k: int|
                            before.len() <= k < out@.len() ==> #[trigger] out@[k].0@ == idv[k
                                - before.len()] && out@[k].1@ == EventView::Display(d@),
                    decreases ids@.len() - j,
                {
                    out.push((ids[j].clone(), JeopardyPlayerEvent::Display(d.clone())));
                    j += 1;
                }
                let ghost added = notice_deliveries(idv, notices@[i as int]@);
                assert(added =~= idv.map_values(|id: Seq<char>| (id, EventView::Display(d@))));
                assert forall|k: int| 0 <= k < out@.len() implies #[trigger] delivery_views(out@)[k]
                    == (delivery_views(before) + added)[k] by {
                    if k >= before.len() {
                        assert(added[k - before.len()] == (idv[k - before.len()], EventView::Display(d@)));
                    }
                }
                assert(delivery_views(out@) =~= delivery_views(before) + added);
            },
            JeopardyNotice::PointsUpdate { player_id, points } => {
                out.push((player_id.clone(), JeopardyPlayerEvent::PointsUpdate(*points)));
                assert(delivery_views(out@) =~= delivery_views(before) + notice_deliveries(
                    idv,
                    notices@[i as int]@,
                ));
            },
        }
        i += 1;
    }
    assert(notices@.subrange(0, notices@.len() as int) =~= notices@);
    out
}

impl TestDefault for Jeopardy {
    /// A game of the default configuration with host password
    /// "test_host_password".
    fn test_default() -> (r: Self)
        ensures
            r@.host_password == "test_host_password"@,
            r@.config == default_config_view(),
            r@.display == DisplayView::Board(redacted_board(r@.config.boards[0])),
            r@.current_question == (0usize, 0usize, 0usize),
            r@.buzzer_queue.len() == 0,
    {
        let config = JeopardyConfig::test_default();
        match Jeopardy::new("test_host_password", config) {
            Ok(game) => game,
            Err(_) => vstd::pervasive::unreached(),
        }
    }
}

} // verus!
