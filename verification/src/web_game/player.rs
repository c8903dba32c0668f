use vstd::prelude::*;

use crate::text::{
    decimal, is_alphanumeric_char, is_white_space, is_whitespace_char, push_decimal, trim,
    trimmed, unicode_alphanumeric, chars_of,
};
use vstd::string::StringExecFns;

verus! {

/// Why a player refused a change.
#[derive(Debug)]
pub enum PlayerError {
    User(UserError),
    Internal(InternalError),
}

/// A change a player refuses because of what was asked.
#[derive(Debug)]
pub enum UserError {
    /// The wager, and the points the player had.
    InvalidWager(i32, i32),
    InvalidFreeResponse,
}

/// A failure to reach the player's connection, as its message.
#[derive(Debug)]
pub enum InternalError {
    Send(String),
}

/// The text shown for a player's refusal.
pub open spec fn player_user_error_message(e: UserError) -> Seq<char> {
    match e {
        UserError::InvalidWager(w, p) => "Wager value of "@ + decimal(w as int)
            + " is invalid. It must be between 0 and "@ + decimal(p as int),
        UserError::InvalidFreeResponse => "Free response is invalid. Must be alphanumeric"@,
    }
}

/// The text shown for a player error.
pub open spec fn player_error_message(e: PlayerError) -> Seq<char> {
    match e {
        PlayerError::User(u) => player_user_error_message(u),
        PlayerError::Internal(InternalError::Send(m)) =>
            "Failed to send back to Player over tokio channel: "@ + m@,
    }
}

impl UserError {
    pub fn message(&self) -> (r: String)
        ensures
            r@ == player_user_error_message(*self),
    {
        match self {
            UserError::InvalidWager(w, p) => {
                let mut s = String::from_str("Wager value of ");
                push_decimal(&mut s, *w as i64);
                s.append(" is invalid. It must be between 0 and ");
                push_decimal(&mut s, *p as i64);
                s
            },
            UserError::InvalidFreeResponse => "Free response is invalid. Must be alphanumeric".to_owned(),
        }
    }
}

impl PlayerError {
    pub fn message(&self) -> (r: String)
        ensures
            r@ == player_error_message(*self),
    {
        match self {
            PlayerError::User(u) => u.message(),
            PlayerError::Internal(InternalError::Send(m)) => {
                let mut s = String::from_str("Failed to send back to Player over tokio channel: ");
                s.append(m.as_str());
                s
            },
        }
    }
}

/// A player as its parts.
pub struct PlayerView {
    pub name: Seq<char>,
    pub points: i32,
    pub wager: i32,
    pub free_response: Seq<char>,
}

/// Whether every character of `s` is alphanumeric or white space.
pub open spec fn is_valid_free_response(s: Seq<char>) -> bool {
    forall|i: int| 0 <= i < s.len() ==> #[trigger] unicode_alphanumeric(s[i]) || is_white_space(s[i])
}

/// A free response holding any character that is neither alphanumeric nor
/// white space, such as a '?', is not valid.
pub proof fn law_free_response_refuses_other_characters(s: Seq<char>, i: int)
    requires
        0 <= i < s.len(),
        !unicode_alphanumeric(s[i]),
        !is_white_space(s[i]),
    ensures
        !is_valid_free_response(s),
{
}

/// A free response made only of alphanumeric characters and white space is
/// valid, and so is every part of it.
pub proof fn law_free_response_accepts_alphanumerics(s: Seq<char>, start: int, end: int)
    requires
        forall|k: int| 0 <= k < s.len() ==> #[trigger] unicode_alphanumeric(s[k]) || is_white_space(s[k]),
        0 <= start <= end <= s.len(),
    ensures
        is_valid_free_response(s),
        is_valid_free_response(s.subrange(start, end)),
{
    assert forall|k: int| 0 <= k < end - start implies #[trigger] unicode_alphanumeric(
        s.subrange(start, end)[k],
    ) || is_white_space(s.subrange(start, end)[k]) by {
        assert(s.subrange(start, end)[k] == s[start + k]);
    }
}

/// A player in a lobby: name, points (possibly negative), wager and free
/// response. The name never changes.
#[derive(Debug)]
pub struct Player {
    name: String,
    points: i32,
    wager: i32,
    free_response: String,
}

impl View for Player {
    type V = PlayerView;

    closed spec fn view(&self) -> PlayerView {
        PlayerView {
            name: self.name@,
            points: self.points,
            wager: self.wager,
            free_response: self.free_response@,
        }
    }
}

impl Player {
    /// A new player with no points, no wager and the free response
    /// "No answer".
    pub fn new(name: String) -> (r: Self)
        ensures
            r@ == (PlayerView {
                name: name@,
                points: 0,
                wager: 0,
                free_response: "No answer"@,
            }),
    {
        Self { name, points: 0, wager: 0, free_response: "No answer".to_owned() }
    }

    pub fn get_name(&self) -> (r: &str)
        ensures
            r@ == self@.name,
    {
        self.name.as_str()
    }

    pub fn get_points(&self) -> (r: i32)
        ensures
            r == self@.points,
    {
        self.points
    }

    pub fn get_wager(&self) -> (r: i32)
        ensures
            r == self@.wager,
    {
        self.wager
    }

    /// Sets the wager; it must lie in `0..=points`, else nothing changes.
    pub fn set_wager(&mut self, wager: i32) -> (r: Result<(), PlayerError>)
        ensures
            0 <= wager <= old(self)@.points ==> r is Ok && final(self)@ == (PlayerView {
                wager,
                ..old(self)@
            }),
            !(0 <= wager <= old(self)@.points) ==> r == Err::<(), _>(
                PlayerError::User(UserError::InvalidWager(wager, old(self)@.points)),
            ) && final(self)@ == old(self)@,
    {
        if wager > self.points || wager < 0 {
            return Err(PlayerError::User(UserError::InvalidWager(wager, self.points)));
        }
        self.wager = wager;
        Ok(())
    }

    pub fn get_free_response(&self) -> (r: &str)
        ensures
            r@ == self@.free_response,
    {
        self.free_response.as_str()
    }

    fn validate_free_response(free_response: &str) -> (r: bool)
        ensures
            r == is_valid_free_response(free_response@),
    {
        let chars = chars_of(free_response);
        let mut i: usize = 0;
        while i < chars.len()
            invariant
                i <= chars@.len(),
                chars@ == free_response@,
                forall|k: int|
                    0 <= k < i ==> #[trigger] unicode_alphanumeric(chars@[k]) || is_white_space(
                        chars@[k],
                    ),
            decreases chars@.len() - i,
        {
            let c = chars[i];
            if !(is_alphanumeric_char(c) || is_whitespace_char(c)) {
                return false;
            }
            i += 1;
        }
        true
    }

    /// Stores the free response, trimmed; one holding anything but
    /// alphanumeric characters and white space is refused.
    pub fn set_free_response(&mut self, free_response: String) -> (r: Result<(), PlayerError>)
        ensures
            is_valid_free_response(free_response@) ==> r is Ok && final(self)@ == (PlayerView {
                free_response: trimmed(free_response@),
                ..old(self)@
            }),
            !is_valid_free_response(free_response@) ==> r == Err::<(), _>(
                PlayerError::User(UserError::InvalidFreeResponse),
            ) && final(self)@ == old(self)@,
            (exists|i: int|
                0 <= i < free_response@.len() && !unicode_alphanumeric(#[trigger] free_response@[i])
                    && !is_white_space(free_response@[i])) ==> r == Err::<(), _>(
                PlayerError::User(UserError::InvalidFreeResponse),
            ) && final(self)@ == old(self)@,
            r is Ok ==> forall|i: int|
                0 <= i < free_response@.len() ==> unicode_alphanumeric(#[trigger] free_response@[i])
                    || is_white_space(free_response@[i]),
    {
        if !Self::validate_free_response(free_response.as_str()) {
            return Err(PlayerError::User(UserError::InvalidFreeResponse));
        }
        self.free_response = trim(free_response.as_str()).to_owned();
        Ok(())
    }

    pub fn set_points(&mut self, points: i32)
        ensures
            final(self)@ == (PlayerView { points, ..old(self)@ }),
    {
        self.points = points;
    }

    /// Adds `delta` to the points and gives back the new total.
    pub fn update_points(&mut self, delta: i32) -> (r: i32)
        requires
            i32::MIN <= old(self)@.points + delta <= i32::MAX,
        ensures
            r == old(self)@.points + delta,
            final(self)@ == (PlayerView { points: r, ..old(self)@ }),
    {
        self.points = self.points + delta;
        self.points
    }
}

} // verus!
