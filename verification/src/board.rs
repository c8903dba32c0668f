use vstd::prelude::*;

use crate::server::TestDefault;
use crate::text::{law_trim_idempotent, trim, trimmed};

verus! {

/// Why a piece of a Jeopardy configuration was refused.
#[derive(Debug, Clone, Copy, PartialEq, Eq)]
pub enum JeopardyBoardError {
    EmptyBoardList,
    EmptyCategoryList,
    EmptyCategoryName,
    EmptyQuestionList,
    EmptyHint,
    EmptyAnswer,
    EmptyQuestion,
    InvalidDailyDoubleCount,
}

/// The text shown for a configuration error.
pub open spec fn board_error_message(e: JeopardyBoardError) -> Seq<char> {
    match e {
        JeopardyBoardError::EmptyBoardList => "Board list must never be empty"@,
        JeopardyBoardError::EmptyCategoryList => "Category list for a board must never be empty"@,
        JeopardyBoardError::EmptyCategoryName => "Category name must never be empty"@,
        JeopardyBoardError::EmptyQuestionList => "Question list for a category must never be empty"@,
        JeopardyBoardError::EmptyHint => "Missing value for hint"@,
        JeopardyBoardError::EmptyAnswer => "Missing value for answer"@,
        JeopardyBoardError::EmptyQuestion => "Missing value for question"@,
        JeopardyBoardError::InvalidDailyDoubleCount =>
            "Requested daily double count is larger than the question count"@,
    }
}

impl JeopardyBoardError {
    /// The text shown for this error.
    pub fn message(&self) -> (r: String)
        ensures
            r@ == board_error_message(*self),
    {
        match self {
            JeopardyBoardError::EmptyBoardList => "Board list must never be empty".to_owned(),
            JeopardyBoardError::EmptyCategoryList =>
                "Category list for a board must never be empty".to_owned(),
            JeopardyBoardError::EmptyCategoryName => "Category name must never be empty".to_owned(),
            JeopardyBoardError::EmptyQuestionList =>
                "Question list for a category must never be empty".to_owned(),
            JeopardyBoardError::EmptyHint => "Missing value for hint".to_owned(),
            JeopardyBoardError::EmptyAnswer => "Missing value for answer".to_owned(),
            JeopardyBoardError::EmptyQuestion => "Missing value for question".to_owned(),
            JeopardyBoardError::InvalidDailyDoubleCount =>
                "Requested daily double count is larger than the question count".to_owned(),
        }
    }
}

/// A question as its text: what is shown, and the expected answer.
pub struct QuestionView {
    pub content: Seq<char>,
    pub answer: Seq<char>,
}

/// A question on a board: its value and state, and the question itself.
pub struct BoardQuestionView {
    pub point_value: i32,
    pub daily_double: bool,
    pub answered: bool,
    pub question: QuestionView,
}

/// A named column of board questions.
pub struct CategoryView {
    pub name: Seq<char>,
    pub questions: Seq<BoardQuestionView>,
}

/// A board: its categories, in order.
pub struct BoardView {
    pub categories: Seq<CategoryView>,
}

/// The final round: a hint shown first, then a question.
pub struct FinalJeopardyView {
    pub hint: Seq<char>,
    pub question: QuestionView,
}

/// A whole game configuration: the boards in play order and the final round.
pub struct JeopardyConfigView {
    pub boards: Seq<BoardView>,
    pub final_jeopardy: FinalJeopardyView,
}

/// A question and its answer. No question is ever built without an answer.
#[derive(Debug)]
pub struct Question {
    content: String,
    answer: String,
}

impl View for Question {
    type V = QuestionView;

    closed spec fn view(&self) -> QuestionView {
        QuestionView { content: self.content@, answer: self.answer@ }
    }
}

impl Clone for Question {
    fn clone(&self) -> (r: Self)
        ensures
            r == *self,
    {
        Question { content: self.content.clone(), answer: self.answer.clone() }
    }
}

/// A question built from its own parts is the same question: both parts of
/// a built question are already trimmed and non-empty, so building again from
/// them succeeds with the same content and answer.
pub proof fn law_question_rebuild(content: Seq<char>, answer: Seq<char>)
    requires
        trimmed(content).len() != 0,
        trimmed(answer).len() != 0,
    ensures
        trimmed(trimmed(content)) == trimmed(content),
        trimmed(trimmed(answer)) == trimmed(answer),
        trimmed(trimmed(content)).len() != 0,
        trimmed(trimmed(answer)).len() != 0,
{
    law_trim_idempotent(content);
    law_trim_idempotent(answer);
}

impl Question {
    /// Builds a question from its text, both parts trimmed; refuses a part
    /// that is empty once trimmed, the content checked first.
    pub fn new(content: String, answer: String) -> (r: Result<Self, JeopardyBoardError>)
        ensures
            trimmed(content@).len() == 0 ==> r == Err::<Self, _>(JeopardyBoardError::EmptyQuestion),
            trimmed(content@).len() != 0 && trimmed(answer@).len() == 0 ==> r == Err::<Self, _>(
                JeopardyBoardError::EmptyAnswer,
            ),
            trimmed(content@).len() != 0 && trimmed(answer@).len() != 0 ==> (r matches Ok(q)
                && q@ == (QuestionView { content: trimmed(content@), answer: trimmed(answer@) })),
    {
        let content = trim(content.as_str());
        if content.is_empty() {
            return Err(JeopardyBoardError::EmptyQuestion);
        }
        let answer = trim(answer.as_str());
        if answer.is_empty() {
            return Err(JeopardyBoardError::EmptyAnswer);
        }
        Ok(Self { content: content.to_owned(), answer: answer.to_owned() })
    }

    pub fn content(&self) -> (r: &str)
        ensures
            r@ == self@.content,
    {
        self.content.as_str()
    }

    pub fn answer(&self) -> (r: &str)
        ensures
            r@ == self@.answer,
    {
        self.answer.as_str()
    }

    /// Erases the answer; the content stays.
    pub fn redact(&mut self)
        ensures
            final(self)@ == (QuestionView { content: old(self)@.content, answer: Seq::empty() }),
    {
        self.answer = String::new();
    }
}

/// A question placed on a board, with its point value and state.
#[derive(Debug)]
pub struct BoardQuestion {
    point_value: i32,
    daily_double: bool,
    answered: bool,
    question: Question,
}

impl View for BoardQuestion {
    type V = BoardQuestionView;

    closed spec fn view(&self) -> BoardQuestionView {
        BoardQuestionView {
            point_value: self.point_value,
            daily_double: self.daily_double,
            answered: self.answered,
            question: self.question@,
        }
    }
}

impl Clone for BoardQuestion {
    fn clone(&self) -> (r: Self)
        ensures
            r == *self,
    {
        BoardQuestion {
            point_value: self.point_value,
            daily_double: self.daily_double,
            answered: self.answered,
            question: self.question.clone(),
        }
    }
}

/// `q` as it may be shown to players: no answer and no daily double mark.
pub open spec fn redacted_question(q: BoardQuestionView) -> BoardQuestionView {
    BoardQuestionView {
        daily_double: false,
        question: QuestionView { content: q.question.content, answer: Seq::empty() },
        ..q
    }
}

impl BoardQuestion {
    /// A new, unanswered board question.
    pub fn new(point_value: i32, daily_double: bool, question: Question) -> (r: Self)
        ensures
            r@ == (BoardQuestionView {
                point_value,
                daily_double,
                answered: false,
                question: question@,
            }),
    {
        Self { point_value, daily_double, answered: false, question }
    }

    pub fn underlying(&self) -> (r: &Question)
        ensures
            r@ == self@.question,
    {
        &self.question
    }

    pub fn point_value(&self) -> (r: i32)
        ensures
            r == self@.point_value,
    {
        self.point_value
    }

    pub fn set_point_value(&mut self, value: i32)
        ensures
            final(self)@ == (BoardQuestionView { point_value: value, ..old(self)@ }),
    {
        self.point_value = value;
    }

    pub fn is_daily_double(&self) -> (r: bool)
        ensures
            r == self@.daily_double,
    {
        self.daily_double
    }

    pub fn set_daily_double(&mut self, daily_double: bool)
        ensures
            final(self)@ == (BoardQuestionView { daily_double, ..old(self)@ }),
    {
        self.daily_double = daily_double;
    }

    pub fn is_answered(&self) -> (r: bool)
        ensures
            r == self@.answered,
    {
        self.answered
    }

    pub fn set_answered(&mut self, answered: bool)
        ensures
            final(self)@ == (BoardQuestionView { answered, ..old(self)@ }),
    {
        self.answered = answered;
    }

    /// Erases the underlying answer and clears the daily double mark; the
    /// point value and the answered flag stay.
    pub fn redact(&mut self)
        ensures
            final(self)@ == redacted_question(old(self)@),
    {
        self.question.redact();
        self.set_daily_double(false);
    }
}

/// A named column of questions. Its name is never empty and it always holds
/// at least one question.
#[derive(Debug)]
pub struct Category {
    name: String,
    questions: Vec<BoardQuestion>,
}

/// The views of a sequence of board questions.
pub open spec fn question_views(qs: Seq<BoardQuestion>) -> Seq<BoardQuestionView> {
    qs.map_values(|q: BoardQuestion| q@)
}

/// The views of a sequence of categories.
pub open spec fn category_views(cs: Seq<Category>) -> Seq<CategoryView> {
    cs.map_values(|c: Category| c@)
}

impl View for Category {
    type V = CategoryView;

    closed spec fn view(&self) -> CategoryView {
        CategoryView { name: self.name@, questions: question_views(self.questions@) }
    }
}

/// The point value of the question at position `i` of a category: `(i + 1) * 100`.
pub open spec fn points_for_position(i: int) -> int {
    (i + 1) * 100
}

impl Category {
    /// Builds a category with a trimmed name; refuses a name that is empty once
    /// trimmed, then an empty question list.
    pub fn new(name: String, questions: Vec<BoardQuestion>) -> (r: Result<
        Self,
        JeopardyBoardError,
    >)
        ensures
            trimmed(name@).len() == 0 ==> r == Err::<Self, _>(JeopardyBoardError::EmptyCategoryName),
            trimmed(name@).len() != 0 && questions@.len() == 0 ==> r == Err::<Self, _>(
                JeopardyBoardError::EmptyQuestionList,
            ),
            trimmed(name@).len() != 0 && questions@.len() != 0 ==> (r matches Ok(c) && c@ == (
            CategoryView { name: trimmed(name@), questions: question_views(questions@) })),
    {
        let name = trim(name.as_str());
        if name.is_empty() {
            return Err(JeopardyBoardError::EmptyCategoryName);
        }
        if questions.is_empty() {
            return Err(JeopardyBoardError::EmptyQuestionList);
        }
        Ok(Self { name: name.to_owned(), questions })
    }

    pub fn name(&self) -> (r: &str)
        ensures
            r@ == self@.name,
    {
        self.name.as_str()
    }

    /// Sets the point value of the question at position `i` to `(i + 1) * 100`;
    /// nothing else changes.
    pub fn assign_points(&mut self)
        requires
            old(self)@.questions.len() * 100 <= i32::MAX,
        ensures
            final(self)@.name == old(self)@.name,
            final(self)@.questions.len() == old(self)@.questions.len(),
            forall|i: int|
                0 <= i < old(self)@.questions.len() ==> #[trigger] final(self)@.questions[i] == (
                BoardQuestionView {
                    point_value: points_for_position(i) as i32,
                    ..old(self)@.questions[i]
                }),
    {
        let n = self.questions.len();
        let mut i: usize = 0;
        while i < n
            invariant
                i <= n,
                n == self.questions@.len(),
                n * 100 <= i32::MAX,
                self.name@ == old(self)@.name,
                forall|k: int|
                    0 <= k < n ==> #[trigger] self.questions@[k]@ == if k < i {
                        BoardQuestionView {
                            point_value: points_for_position(k) as i32,
                            ..old(self)@.questions[k]
                        }
                    } else {
                        old(self)@.questions[k]
                    },
            decreases n - i,
        {
            let value: i32 = ((i as i32) + 1) * 100;
            self.questions[i].set_point_value(value);
            i += 1;
        }
        assert(self@.questions =~= question_views(self.questions@));
    }

    pub fn questions(&self) -> (r: &[BoardQuestion])
        ensures
            question_views(r@) == self@.questions,
    {
        self.questions.as_slice()
    }

    pub fn questions_mut(&mut self) -> (r: &mut [BoardQuestion])
        ensures
            question_views(r@) == old(self)@.questions,
            final(self)@ == (CategoryView {
                name: old(self)@.name,
                questions: question_views(final(r)@),
            }),
    {
        self.questions.as_mut_slice()
    }
}

impl Clone for Category {
    fn clone(&self) -> (r: Self)
        ensures
            r@ == self@,
    {
        let questions = self.questions.clone();
        assert forall|i: int| 0 <= i < questions@.len() implies questions@[i] == self.questions@[i] by {
            assert(cloned::<BoardQuestion>(self.questions@[i], questions@[i]));
        }
        assert(questions@ =~= self.questions@);
        Category { name: self.name.clone(), questions }
    }
}

/// A board: a non-empty list of categories.
#[derive(Debug)]
pub struct Board {
    categories: Vec<Category>,
}

impl View for Board {
    type V = BoardView;

    closed spec fn view(&self) -> BoardView {
        BoardView { categories: category_views(self.categories@) }
    }
}

impl Clone for Board {
    fn clone(&self) -> (r: Self)
        ensures
            r@ == self@,
    {
        let categories = self.categories.clone();
        assert forall|i: int| 0 <= i < categories@.len() implies categories@[i]@
            == self.categories@[i]@ by {
            assert(cloned::<Category>(self.categories@[i], categories@[i]));
        }
        assert(category_views(categories@) =~= category_views(self.categories@));
        Board { categories }
    }
}

impl Board {
    /// Builds a board; refuses an empty category list.
    pub fn new(categories: Vec<Category>) -> (r: Result<Self, JeopardyBoardError>)
        ensures
            categories@.len() == 0 ==> r == Err::<Self, _>(JeopardyBoardError::EmptyCategoryList),
            categories@.len() != 0 ==> (r matches Ok(b) && b@ == (BoardView {
                categories: category_views(categories@),
            })),
    {
        if categories.is_empty() {
            return Err(JeopardyBoardError::EmptyCategoryList);
        }
        Ok(Self { categories })
    }

    pub fn categories(&self) -> (r: &[Category])
        ensures
            category_views(r@) == self@.categories,
    {
        self.categories.as_slice()
    }

    pub fn categories_mut(&mut self) -> (r: &mut [Category])
        ensures
            category_views(r@) == old(self)@.categories,
            final(self)@ == (BoardView { categories: category_views(final(r)@) }),
    {
        self.categories.as_mut_slice()
    }
}

/// `c` with every question redacted.
pub open spec fn redacted_category(c: CategoryView) -> CategoryView {
    CategoryView { name: c.name, questions: c.questions.map_values(|q| redacted_question(q)) }
}

/// `b` with every question redacted: what players may see of it.
pub open spec fn redacted_board(b: BoardView) -> BoardView {
    BoardView { categories: b.categories.map_values(|c| redacted_category(c)) }
}

/// Whether `q` shows no answer and no daily double mark.
pub open spec fn is_redacted_question(q: BoardQuestionView) -> bool {
    q.question.answer.len() == 0 && !q.daily_double
}

/// Whether no question of `b` shows an answer or a daily double mark.
pub open spec fn is_redacted_board(b: BoardView) -> bool {
    forall|i: int, j: int|
        0 <= i < b.categories.len() && 0 <= j < b.categories[i].questions.len()
            ==> is_redacted_question(#[trigger] b.categories[i].questions[j])
}

/// How many questions of `qs` are not yet daily doubles.
pub open spec fn free_in_questions(qs: Seq<BoardQuestionView>) -> nat
    decreases qs.len(),
{
    if qs.len() == 0 {
        0
    } else {
        free_in_questions(qs.drop_last()) + if qs.last().daily_double {
            0nat
        } else {
            1nat
        }
    }
}

/// How many questions in `cs` are not yet daily doubles.
pub open spec fn free_in_categories(cs: Seq<CategoryView>) -> nat
    decreases cs.len(),
{
    if cs.len() == 0 {
        0
    } else {
        free_in_categories(cs.drop_last()) + free_in_questions(cs.last().questions)
    }
}

/// How many questions of `b` could still be made daily doubles.
pub open spec fn free_daily_double_slots(b: BoardView) -> nat {
    free_in_categories(b.categories)
}

/// `new` is `old` with some questions marked as daily doubles: the same
/// categories and questions, every other field unchanged, and no mark removed.
pub open spec fn only_daily_doubles_added(old: BoardView, new: BoardView) -> bool {
    &&& new.categories.len() == old.categories.len()
    &&& forall|i: int|
        0 <= i < old.categories.len() ==> {
            &&& #[trigger] new.categories[i].name == old.categories[i].name
            &&& new.categories[i].questions.len() == old.categories[i].questions.len()
        }
    &&& forall|i: int, j: int|
        0 <= i < old.categories.len() && 0 <= j < old.categories[i].questions.len() ==> {
            let o = old.categories[i].questions[j];
            let n = #[trigger] new.categories[i].questions[j];
            &&& n == BoardQuestionView { daily_double: n.daily_double, ..o }
            &&& o.daily_double ==> n.daily_double
        }
}

proof fn lemma_free_in_questions_mark(qs: Seq<BoardQuestionView>, j: int, q: BoardQuestionView)
    requires
        0 <= j < qs.len(),
        !qs[j].daily_double,
        q.daily_double,
    ensures
        free_in_questions(qs.update(j, q)) + 1 == free_in_questions(qs),
    decreases qs.len(),
{
    let u = qs.update(j, q);
    if j == qs.len() - 1 {
        assert(u.drop_last() =~= qs.drop_last());
    } else {
        lemma_free_in_questions_mark(qs.drop_last(), j, q);
        assert(u.drop_last() =~= qs.drop_last().update(j, q));
    }
}

proof fn lemma_free_in_categories_mark(
    cs: Seq<CategoryView>,
    i: int,
    j: int,
    q: BoardQuestionView,
)
    requires
        0 <= i < cs.len(),
        0 <= j < cs[i].questions.len(),
        !cs[i].questions[j].daily_double,
        q.daily_double,
    ensures
        free_in_categories(
            cs.update(i, CategoryView { questions: cs[i].questions.update(j, q), ..cs[i] }),
        ) + 1 == free_in_categories(cs),
    decreases cs.len(),
{
    let c = CategoryView { questions: cs[i].questions.update(j, q), ..cs[i] };
    let u = cs.update(i, c);
    if i == cs.len() - 1 {
        assert(u.drop_last() =~= cs.drop_last());
        lemma_free_in_questions_mark(cs[i].questions, j, q);
    } else {
        lemma_free_in_categories_mark(cs.drop_last(), i, j, q);
        assert(u.drop_last() =~= cs.drop_last().update(i, c));
    }
}

/// Calls `rand::random_range` on `low..high` with the thread-local generator.
/// Its documentation promises a value of the half-open range; it panics on
/// an empty range, which `requires` rules out. Which value comes is chance.
#[verifier::external_body]
fn random_index(low: usize, high: usize) -> (r: usize)
    requires
        low < high,
    ensures
        low <= r < high,
{
    rand::random_range(low..high)
}

impl Board {
    /// A copy of the board as players may see it: every answer erased and
    /// every daily double mark cleared.
    pub fn redacted(&self) -> (r: Self)
        ensures
            r@ == redacted_board(self@),
    {
        let mut categories: Vec<Category> = Vec::new();
        let mut i: usize = 0;
        while i < self.categories.len()
            invariant
                i <= self.categories@.len(),
                categories@.len() == i,
                forall|k: int|
                    0 <= k < i ==> #[trigger] categories@[k]@ == redacted_category(
                        self.categories@[k]@,
                    ),
            decreases self.categories@.len() - i,
        {
            let category = &self.categories[i];
            let mut questions: Vec<BoardQuestion> = Vec::new();
            let mut j: usize = 0;
            while j < category.questions.len()
                invariant
                    j <= category.questions@.len(),
                    questions@.len() == j,
                    forall|k: int|
                        0 <= k < j ==> #[trigger] questions@[k]@ == redacted_question(
                            category.questions@[k]@,
                        ),
                decreases category.questions@.len() - j,
            {
                let mut q = category.questions[j].clone();
                q.redact();
                questions.push(q);
                j += 1;
            }
            let redacted = Category { name: category.name.clone(), questions };
            assert(redacted@.questions =~= redacted_category(category@).questions);
            categories.push(redacted);
            i += 1;
        }
        let r = Board { categories };
        assert(r@.categories =~= redacted_board(self@).categories);
        r
    }

    /// Whether no question shows an answer or a daily double mark.
    pub fn is_redacted(&self) -> (r: bool)
        ensures
            r == is_redacted_board(self@),
    {
        let mut i: usize = 0;
        while i < self.categories.len()
            invariant
                i <= self.categories@.len(),
                forall|a: int, b: int|
                    0 <= a < i && 0 <= b < self@.categories[a].questions.len()
                        ==> is_redacted_question(#[trigger] self@.categories[a].questions[b]),
            decreases self.categories@.len() - i,
        {
            let category = &self.categories[i];
            assert(category@ == self@.categories[i as int]);
            let mut j: usize = 0;
            while j < category.questions.len()
                invariant
                    j <= category.questions@.len(),
                    i < self.categories@.len(),
                    category == self.categories@[i as int],
                    category@ == self@.categories[i as int],
                    forall|b: int|
                        0 <= b < j ==> is_redacted_question(#[trigger] category@.questions[b]),
                decreases category.questions@.len() - j,
            {
                let q = &category.questions[j];
                assert(q@ == self@.categories[i as int].questions[j as int]);
                if !q.question.answer.as_str().is_empty() || q.daily_double {
                    assert(!is_redacted_question(self@.categories[i as int].questions[j as int]));
                    return false;
                }
                j += 1;
            }
            i += 1;
        }
        true
    }

    /// Marks `count` questions that are not yet daily doubles, picked at
    /// random, as daily doubles. Marks already present stay; when fewer than
    /// `count` questions are free, nothing changes and the count is refused.
    pub fn assign_daily_double(&mut self, count: usize) -> (r: Result<(), JeopardyBoardError>)
        ensures
            count > free_daily_double_slots(old(self)@) ==> r == Err::<(), _>(
                JeopardyBoardError::InvalidDailyDoubleCount,
            ) && final(self)@ == old(self)@,
            count <= free_daily_double_slots(old(self)@) ==> r == Ok::<(), JeopardyBoardError>(())
                && only_daily_doubles_added(old(self)@, final(self)@) && free_daily_double_slots(
                final(self)@,
            ) + count == free_daily_double_slots(old(self)@),
    {
        let ghost start = self@;
        // every position that is not yet a daily double, in board order
        let mut free: Vec<(usize, usize)> = Vec::new();
        let mut i: usize = 0;
        while i < self.categories.len()
            invariant
                self@ == start,
                i <= self.categories@.len(),
                free@.len() == free_in_categories(start.categories.take(i as int)),
                forall|k: int|
                    0 <= k < free@.len() ==> {
                        let (a, b) = #[trigger] free@[k];
                        &&& a < i
                        &&& b < start.categories[a as int].questions.len()
                        &&& !start.categories[a as int].questions[b as int].daily_double
                    },
                forall|x: int, y: int| 0 <= x < y < free@.len() ==> #[trigger] free@[x] != #[trigger] free@[y],
            decreases self.categories@.len() - i,
        {
            let ghost before = free@;
            let mut j: usize = 0;
            while j < self.categories[i].questions.len()
                invariant
                    self@ == start,
                    i < self.categories@.len(),
                    j <= self.categories@[i as int].questions@.len(),
                    free@.len() == free_in_categories(start.categories.take(i as int))
                        + free_in_questions(start.categories[i as int].questions.take(j as int)),
                    forall|k: int|
                        0 <= k < free@.len() ==> {
                            let (a, b) = #[trigger] free@[k];
                            &&& (a < i || (a == i && b < j))
                            &&& b < start.categories[a as int].questions.len()
                            &&& !start.categories[a as int].questions[b as int].daily_double
                        },
                    forall|x: int, y: int|
                        0 <= x < y < free@.len() ==> #[trigger] free@[x] != #[trigger] free@[y],
                decreases self.categories@[i as int].questions@.len() - j,
            {
                let ghost qs = start.categories[i as int].questions;
                assert(qs.take(j + 1).drop_last() =~= qs.take(j as int));
                if !self.categories[i].questions[j].daily_double {
                    free.push((i, j));
                }
                j += 1;
            }
            let ghost cs = start.categories;
            assert(cs.take(i + 1).drop_last() =~= cs.take(i as int));
            assert(start.categories[i as int].questions.take(j as int)
                =~= start.categories[i as int].questions);
            i += 1;
        }
        assert(start.categories.take(i as int) =~= start.categories);
        if count > free.len() {
            return Err(JeopardyBoardError::InvalidDailyDoubleCount);
        }
        let mut k: usize = 0;
        while k < count
            invariant
                k <= count <= free_daily_double_slots(start),
                free@.len() == free_daily_double_slots(self@),
                free_daily_double_slots(self@) + k == free_daily_double_slots(start),
                only_daily_doubles_added(start, self@),
                forall|m: int|
                    0 <= m < free@.len() ==> {
                        let (a, b) = #[trigger] free@[m];
                        &&& a < self@.categories.len()
                        &&& b < self@.categories[a as int].questions.len()
                        &&& !self@.categories[a as int].questions[b as int].daily_double
                    },
                forall|x: int, y: int| 0 <= x < y < free@.len() ==> #[trigger] free@[x] != #[trigger] free@[y],
            decreases count - k,
        {
            let ghost before = self@;
            let ghost before_categories = self.categories@;
            let ghost old_free = free@;
            let pick = random_index(0, free.len());
            let (a, b) = free.swap_remove(pick);
            proof {
                let q = before.categories[a as int].questions[b as int];
                lemma_free_in_categories_mark(
                    before.categories,
                    a as int,
                    b as int,
                    BoardQuestionView { daily_double: true, ..q },
                );
            }
            self.categories[a].questions[b].set_daily_double(true);
            proof {
                let q = before.categories[a as int].questions[b as int];
                let c = CategoryView {
                    questions: before.categories[a as int].questions.update(
                        b as int,
                        BoardQuestionView { daily_double: true, ..q },
                    ),
                    ..before.categories[a as int]
                };
                let ghost oc = before_categories[a as int];
                assert(self.categories@[a as int].questions@ == oc.questions@.update(
                    b as int,
                    self.categories@[a as int].questions@[b as int],
                ));
                assert(question_views(self.categories@[a as int].questions@) =~= c.questions);
                assert(self.categories@[a as int]@ == c);
                assert forall|m: int| 0 <= m < self@.categories.len() implies #[trigger] self@.categories[m]
                    == before.categories.update(a as int, c)[m] by {
                    if m != a {
                        assert(self.categories@[m] == before_categories[m]);
                    }
                }
                assert(self@.categories =~= before.categories.update(a as int, c));
                assert forall|m: int| 0 <= m < free@.len() implies #[trigger] free@[m] != (a, b) by {
                    if m == pick {
                        assert(free@[m] == old_free[old_free.len() - 1]);
                    } else {
                        assert(free@[m] == old_free[m]);
                    }
                }
                assert forall|x: int, y: int| 0 <= x < y < free@.len() implies #[trigger] free@[x]
                    != #[trigger] free@[y] by {
                    let ox = if x == pick { old_free.len() - 1 } else { x };
                    let oy = if y == pick { old_free.len() - 1 } else { y };
                    assert(free@[x] == old_free[ox]);
                    assert(free@[y] == old_free[oy]);
                }
                assert forall|m: int| 0 <= m < free@.len() implies {
                    let (a2, b2) = #[trigger] free@[m];
                    &&& a2 < self@.categories.len()
                    &&& b2 < self@.categories[a2 as int].questions.len()
                    &&& !self@.categories[a2 as int].questions[b2 as int].daily_double
                } by {
                    let om = if m == pick { old_free.len() - 1 } else { m };
                    assert(free@[m] == old_free[om]);
                }
            }
            k += 1;
        }
        Ok(())
    }
}

/// The placeholder question that `Board::test_default_from_counts` fills a board with.
pub open spec fn placeholder_question() -> BoardQuestionView {
    BoardQuestionView {
        point_value: 0,
        daily_double: false,
        answered: false,
        question: QuestionView { content: "test_question"@, answer: "test_answer"@ },
    }
}

/// The placeholder board `Board::test_default_from_counts` builds.
pub open spec fn placeholder_board(category_count: nat, question_count: nat) -> BoardView {
    BoardView {
        categories: Seq::new(
            category_count,
            |i: int|
                CategoryView {
                    name: "test_category"@,
                    questions: Seq::new(question_count, |j: int| placeholder_question()),
                },
        ),
    }
}

impl Board {
    /// A board of `category_count` categories named "test_category", each
    /// holding `question_count_per_category` unanswered copies of a placeholder
    /// question worth 0 points.
    pub fn test_default_from_counts(category_count: usize, question_count_per_category: usize) -> (r:
        Self)
        requires
            category_count > 0,
            question_count_per_category > 0,
        ensures
            r@ == placeholder_board(category_count as nat, question_count_per_category as nat),
    {
        let test_question = BoardQuestion {
            point_value: 0,
            daily_double: false,
            answered: false,
            question: Question {
                content: "test_question".to_owned(),
                answer: "test_answer".to_owned(),
            },
        };
        let mut questions: Vec<BoardQuestion> = Vec::new();
        let mut j: usize = 0;
        while j < question_count_per_category
            invariant
                j <= question_count_per_category,
                test_question@ == placeholder_question(),
                questions@.len() == j,
                forall|k: int| 0 <= k < j ==> #[trigger] questions@[k]@ == placeholder_question(),
            decreases question_count_per_category - j,
        {
            questions.push(test_question.clone());
            j += 1;
        }
        let test_category = Category { name: "test_category".to_owned(), questions };
        let ghost expected = placeholder_board(
            category_count as nat,
            question_count_per_category as nat,
        ).categories[0];
        assert(test_category@.questions =~= expected.questions);
        let mut categories: Vec<Category> = Vec::new();
        let mut i: usize = 0;
        while i < category_count
            invariant
                i <= category_count,
                test_category@ == expected,
                categories@.len() == i,
                forall|k: int| 0 <= k < i ==> #[trigger] categories@[k]@ == expected,
            decreases category_count - i,
        {
            categories.push(test_category.clone());
            i += 1;
        }
        let r = Board { categories };
        assert(r@.categories =~= placeholder_board(
            category_count as nat,
            question_count_per_category as nat,
        ).categories);
        r
    }
}

/// Redacting a board leaves nothing to redact.
pub proof fn law_redacted_board_is_redacted(b: BoardView)
    ensures
        is_redacted_board(redacted_board(b)),
{
}

/// Redacting keeps the shape of a board and, of each question, its content,
/// point value and answered flag.
pub proof fn law_redacted_board_keeps_questions(b: BoardView)
    ensures
        redacted_board(b).categories.len() == b.categories.len(),
        forall|i: int|
            0 <= i < b.categories.len() ==> {
                &&& #[trigger] redacted_board(b).categories[i].name == b.categories[i].name
                &&& redacted_board(b).categories[i].questions.len()
                    == b.categories[i].questions.len()
            },
        forall|i: int, j: int|
            0 <= i < b.categories.len() && 0 <= j < b.categories[i].questions.len() ==> {
                let r = #[trigger] redacted_board(b).categories[i].questions[j];
                let q = b.categories[i].questions[j];
                &&& r.question.content == q.question.content
                &&& r.point_value == q.point_value
                &&& r.answered == q.answered
            },
{
}

/// The final round: a hint that is never empty, and a question.
#[derive(Debug)]
pub struct FinalJeopardy {
    hint: String,
    question: Question,
}

impl View for FinalJeopardy {
    type V = FinalJeopardyView;

    closed spec fn view(&self) -> FinalJeopardyView {
        FinalJeopardyView { hint: self.hint@, question: self.question@ }
    }
}

impl Clone for FinalJeopardy {
    fn clone(&self) -> (r: Self)
        ensures
            r == *self,
    {
        FinalJeopardy { hint: self.hint.clone(), question: self.question.clone() }
    }
}

impl FinalJeopardy {
    /// Builds the final round with a trimmed hint; refuses a hint that is
    /// empty once trimmed.
    pub fn new(hint: String, question: Question) -> (r: Result<Self, JeopardyBoardError>)
        ensures
            trimmed(hint@).len() == 0 ==> r == Err::<Self, _>(JeopardyBoardError::EmptyHint),
            trimmed(hint@).len() != 0 ==> (r matches Ok(f) && f@ == (FinalJeopardyView {
                hint: trimmed(hint@),
                question: question@,
            })),
    {
        let hint = trim(hint.as_str());
        if hint.is_empty() {
            return Err(JeopardyBoardError::EmptyHint);
        }
        Ok(Self { hint: hint.to_owned(), question })
    }

    pub fn hint(&self) -> (r: &str)
        ensures
            r@ == self@.hint,
    {
        self.hint.as_str()
    }

    pub fn question(&self) -> (r: &Question)
        ensures
            r@ == self@.question,
    {
        &self.question
    }
}

pub broadcast proof fn lemma_question_views_update(s: Seq<BoardQuestion>, i: int, x: BoardQuestion)
    requires
        0 <= i < s.len(),
    ensures
        #[trigger] question_views(s.update(i, x)) == question_views(s).update(i, x@),
{
    assert(question_views(s.update(i, x)) =~= question_views(s).update(i, x@));
}

pub broadcast proof fn lemma_category_views_update(s: Seq<Category>, i: int, x: Category)
    requires
        0 <= i < s.len(),
    ensures
        #[trigger] category_views(s.update(i, x)) == category_views(s).update(i, x@),
{
    assert(category_views(s.update(i, x)) =~= category_views(s).update(i, x@));
}

pub broadcast proof fn lemma_board_views_update(s: Seq<Board>, i: int, x: Board)
    requires
        0 <= i < s.len(),
    ensures
        #[trigger] board_views(s.update(i, x)) == board_views(s).update(i, x@),
{
    assert(board_views(s.update(i, x)) =~= board_views(s).update(i, x@));
}

/// Whether `b` has a category and every category of `b` a question: the
/// shape that `Board::new` and `Category::new` insist on.
pub open spec fn is_playable_board(b: BoardView) -> bool {
    &&& b.categories.len() > 0
    &&& forall|i: int| 0 <= i < b.categories.len() ==> (#[trigger] b.categories[i]).questions.len() > 0
}

/// Whether every board of `cfg` is playable.
pub open spec fn is_playable_config(cfg: JeopardyConfigView) -> bool {
    forall|i: int| 0 <= i < cfg.boards.len() ==> is_playable_board(#[trigger] cfg.boards[i])
}

/// Whether `(b, c, q)` names a question of `cfg`.
pub open spec fn is_question_index(cfg: JeopardyConfigView, b: usize, c: usize, q: usize) -> bool {
    &&& b < cfg.boards.len()
    &&& c < cfg.boards[b as int].categories.len()
    &&& q < cfg.boards[b as int].categories[c as int].questions.len()
}

/// The question of `cfg` at `(b, c, q)`.
pub open spec fn config_question(cfg: JeopardyConfigView, b: usize, c: usize, q: usize) -> BoardQuestionView {
    cfg.boards[b as int].categories[c as int].questions[q as int]
}

/// `cfg` with the question at `(b, c, q)` replaced by `nq`.
pub open spec fn config_with_question(
    cfg: JeopardyConfigView,
    b: usize,
    c: usize,
    q: usize,
    nq: BoardQuestionView,
) -> JeopardyConfigView {
    let bd = cfg.boards[b as int];
    let cat = bd.categories[c as int];
    JeopardyConfigView {
        boards: cfg.boards.update(
            b as int,
            BoardView {
                categories: bd.categories.update(
                    c as int,
                    CategoryView { questions: cat.questions.update(q as int, nq), ..cat },
                ),
            },
        ),
        ..cfg
    }
}

/// The views of a sequence of boards.
pub open spec fn board_views(bs: Seq<Board>) -> Seq<BoardView> {
    bs.map_values(|b: Board| b@)
}

/// A whole game configuration: the boards, in play order, and the final round.
/// It is reusable across lobbies and carries no game state.
#[derive(Debug)]
pub struct JeopardyConfig {
    boards: Vec<Board>,
    final_jeopardy: FinalJeopardy,
}

impl View for JeopardyConfig {
    type V = JeopardyConfigView;

    closed spec fn view(&self) -> JeopardyConfigView {
        JeopardyConfigView { boards: board_views(self.boards@), final_jeopardy: self.final_jeopardy@ }
    }
}

impl Clone for JeopardyConfig {
    fn clone(&self) -> (r: Self)
        ensures
            r@ == self@,
    {
        let boards = self.boards.clone();
        assert forall|i: int| 0 <= i < boards@.len() implies boards@[i]@ == self.boards@[i]@ by {
            assert(cloned::<Board>(self.boards@[i], boards@[i]));
        }
        assert(board_views(boards@) =~= board_views(self.boards@));
        JeopardyConfig { boards, final_jeopardy: self.final_jeopardy.clone() }
    }
}

impl JeopardyConfig {
    /// Builds a configuration; refuses an empty board list.
    pub fn new(boards: Vec<Board>, final_jeopardy: FinalJeopardy) -> (r: Result<
        Self,
        JeopardyBoardError,
    >)
        ensures
            boards@.len() == 0 ==> r == Err::<Self, _>(JeopardyBoardError::EmptyBoardList),
            boards@.len() != 0 ==> (r matches Ok(c) && c@ == (JeopardyConfigView {
                boards: board_views(boards@),
                final_jeopardy: final_jeopardy@,
            })),
    {
        if boards.is_empty() {
            return Err(JeopardyBoardError::EmptyBoardList);
        }
        Ok(Self { boards, final_jeopardy })
    }

    /// A configuration with no boards, which `new` refuses to build; it lets
    /// callers exercise how a game meets a configuration that lacks boards.
    pub fn without_boards(final_jeopardy: FinalJeopardy) -> (r: Self)
        ensures
            r@ == (JeopardyConfigView { boards: Seq::empty(), final_jeopardy: final_jeopardy@ }),
    {
        let r = Self { boards: Vec::new(), final_jeopardy };
        assert(board_views(r.boards@) =~= Seq::empty());
        r
    }

    pub fn boards(&self) -> (r: &[Board])
        ensures
            board_views(r@) == self@.boards,
    {
        self.boards.as_slice()
    }

    pub fn boards_mut(&mut self) -> (r: &mut [Board])
        ensures
            board_views(r@) == old(self)@.boards,
            final(self)@ == (JeopardyConfigView {
                boards: board_views(final(r)@),
                final_jeopardy: old(self)@.final_jeopardy,
            }),
    {
        self.boards.as_mut_slice()
    }

    /// The question at `(b, c, q)`, to change in place.
    pub fn question_mut(&mut self, b: usize, c: usize, q: usize) -> (r: &mut BoardQuestion)
        requires
            is_question_index(old(self)@, b, c, q),
        ensures
            r@ == config_question(old(self)@, b, c, q),
            final(self)@ == config_with_question(old(self)@, b, c, q, final(r)@),
    {
        broadcast use lemma_question_views_update, lemma_category_views_update,
            lemma_board_views_update;

        &mut self.boards[b].categories[c].questions[q]
    }

    pub fn final_jeopardy(&self) -> (r: &FinalJeopardy)
        ensures
            r@ == self@.final_jeopardy,
    {
        &self.final_jeopardy
    }
}

/// The question every test default is built on.
pub open spec fn default_question_view() -> QuestionView {
    QuestionView { content: "test_question"@, answer: "test_answer"@ }
}

/// The board question every test default is built on: worth 100 points.
pub open spec fn default_board_question_view(daily_double: bool) -> BoardQuestionView {
    BoardQuestionView {
        point_value: 100,
        daily_double,
        answered: false,
        question: default_question_view(),
    }
}

/// The one-category, one-question board of the test defaults.
pub open spec fn default_board_view(daily_double: bool) -> BoardView {
    BoardView {
        categories: seq![
            CategoryView {
                name: "test"@,
                questions: seq![default_board_question_view(daily_double)],
            },
        ],
    }
}

/// The configuration of the test defaults: the default board, its only
/// question the daily double, and the default final round.
pub open spec fn default_config_view() -> JeopardyConfigView {
    JeopardyConfigView {
        boards: seq![default_board_view(true)],
        final_jeopardy: FinalJeopardyView { hint: "hint"@, question: default_question_view() },
    }
}

/// The test default configuration is playable.
pub proof fn law_default_config_playable()
    ensures
        is_playable_config(default_config_view()),
{
    assert(is_playable_board(default_board_view(true)));
}

/// A placeholder board with at least one category and one question per
/// category is playable.
pub proof fn law_placeholder_board_playable(category_count: nat, question_count: nat)
    requires
        category_count > 0,
        question_count > 0,
    ensures
        is_playable_board(placeholder_board(category_count, question_count)),
{
}

impl TestDefault for Question {
    fn test_default() -> (r: Self)
        ensures
            r@ == default_question_view(),
    {
        Question { content: "test_question".to_owned(), answer: "test_answer".to_owned() }
    }
}

impl TestDefault for BoardQuestion {
    fn test_default() -> (r: Self)
        ensures
            r@ == default_board_question_view(false),
    {
        BoardQuestion {
            point_value: 100,
            daily_double: false,
            answered: false,
            question: Question::test_default(),
        }
    }
}

impl TestDefault for Category {
    /// The category "test" holding the default question, its points
    /// assigned by position.
    fn test_default() -> (r: Self)
        ensures
            r@ == default_board_view(false).categories[0],
    {
        let questions = vec![BoardQuestion::test_default()];
        let r = Category { name: "test".to_owned(), questions };
        assert(r@.questions =~= seq![default_board_question_view(false)]);
        r
    }
}

impl TestDefault for Board {
    fn test_default() -> (r: Self)
        ensures
            r@ == default_board_view(false),
    {
        let r = Board { categories: vec![Category::test_default()] };
        assert(r@.categories =~= default_board_view(false).categories);
        r
    }
}

impl TestDefault for FinalJeopardy {
    fn test_default() -> (r: Self)
        ensures
            r@ == (FinalJeopardyView { hint: "hint"@, question: default_question_view() }),
    {
        FinalJeopardy { hint: "hint".to_owned(), question: Question::test_default() }
    }
}

impl TestDefault for JeopardyConfig {
    /// The default board, its only question made the daily double, and the
    /// default final round.
    fn test_default() -> (r: Self)
        ensures
            r@ == default_config_view(),
    {
        let mut question = BoardQuestion::test_default();
        question.daily_double = true;
        let category = Category { name: "test".to_owned(), questions: vec![question] };
        let board = Board { categories: vec![category] };
        let r = JeopardyConfig { boards: vec![board], final_jeopardy: FinalJeopardy::test_default() };
        assert(r@.boards[0].categories[0].questions =~= seq![default_board_question_view(true)]);
        assert(r@.boards[0].categories =~= default_board_view(true).categories);
        assert(r@.boards =~= seq![default_board_view(true)]);
        r
    }
}

} // verus!
