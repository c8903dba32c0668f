use vstd::prelude::*;

use crate::game::JeopardyDisplayState;
use crate::players::Player;
use crate::text::{decimal, push_decimal};
use vstd::string::StringExecFns;

verus! {

/// What the game sends to one player's connection.
#[derive(Debug)]
pub enum JeopardyPlayerEvent {
    Display(JeopardyDisplayState),
    PointsUpdate(i32),
}

/// Why a player operation was refused.
#[derive(Debug, Clone, Copy, PartialEq, Eq)]
pub enum JeopardyPlayerError {
    /// The wager must lie in `0..=points`, or, with negative points, be
    /// exactly what brings the player back to zero.
    InvalidWager { wager: i32, current_points: i32 },
    ConnectionLost,
}

/// The text shown for a player error.
pub open spec fn player_error_message(e: JeopardyPlayerError) -> Seq<char> {
    match e {
        JeopardyPlayerError::InvalidWager { wager, current_points } => "Invalid wager: "@ + decimal(
            wager as int,
        ) + ". Must be within range [0-"@ + decimal(current_points as int)
            + "] (inclusive). If your points are negative, you can wager enough to get to 0"@,
        JeopardyPlayerError::ConnectionLost => Seq::empty(),
    }
}

impl JeopardyPlayerError {
    /// The text shown for this error.
    pub fn message(&self) -> (r: String)
        ensures
            r@ == player_error_message(*self),
    {
        match self {
            JeopardyPlayerError::InvalidWager { wager, current_points } => {
                let mut s = String::from_str("Invalid wager: ");
                push_decimal(&mut s, *wager as i64);
                s.append(". Must be within range [0-");
                push_decimal(&mut s, *current_points as i64);
                s.append(
                    "] (inclusive). If your points are negative, you can wager enough to get to 0",
                );
                s
            },
            JeopardyPlayerError::ConnectionLost => {
                let s = String::new();
                assert(s@ =~= Seq::<char>::empty());
                s
            },
        }
    }
}

/// The state of one player: name, wager, points and free response.
pub struct JeopardyPlayerView {
    pub name: Seq<char>,
    pub wager: i32,
    pub points: i32,
    pub free_response: Seq<char>,
}

/// Whether a player with `points` points may wager `wager`: a wager is never
/// negative and never more than the player has, and a player in the negative
/// may wager exactly enough to get back to zero.
pub open spec fn wager_allowed(wager: int, points: int) -> bool {
    &&& wager >= 0
    &&& if points < 0 {
        wager == -points
    } else {
        wager <= points
    }
}

/// A player in the negative may wager exactly what brings them back to zero,
/// and nothing else, larger or smaller.
pub proof fn law_negative_points_wager_exactly_to_zero(wager: int, points: int)
    requires
        points < 0,
    ensures
        wager_allowed(wager, points) <==> wager + points == 0,
        wager != -points ==> !wager_allowed(wager, points),
{
}

/// A player with no debt may wager anything from nothing up to all they have.
pub proof fn law_wager_within_points(wager: int, points: int)
    requires
        points >= 0,
    ensures
        wager_allowed(wager, points) <==> 0 <= wager && wager <= points,
{
}

/// A player of a Jeopardy game: name, wager, points and free response.
#[derive(Debug)]
pub struct JeopardyPlayer {
    name: String,
    wager: i32,
    pub points: i32,
    pub free_response: String,
}

impl View for JeopardyPlayer {
    type V = JeopardyPlayerView;

    closed spec fn view(&self) -> JeopardyPlayerView {
        JeopardyPlayerView {
            name: self.name@,
            wager: self.wager,
            points: self.points,
            free_response: self.free_response@,
        }
    }
}

impl Player for JeopardyPlayer {
    open spec fn id_view(&self) -> Seq<char> {
        self@.name
    }

    fn id(&self) -> (r: &str) {
        self.name.as_str()
    }
}

impl JeopardyPlayer {
    /// A new player with no points, no wager and no free response.
    pub fn new(name: String) -> (r: Self)
        ensures
            r@ == (JeopardyPlayerView {
                name: name@,
                wager: 0,
                points: 0,
                free_response: Seq::empty(),
            }),
    {
        Self { name, wager: 0, points: 0, free_response: String::new() }
    }

    pub fn points(&self) -> (r: i32)
        ensures
            r == self@.points,
    {
        self.points
    }

    pub fn set_points(&mut self, points: i32)
        ensures
            final(self)@ == (JeopardyPlayerView { points, ..old(self)@ }),
    {
        self.points = points;
    }

    pub fn free_response(&self) -> (r: &str)
        ensures
            r@ == self@.free_response,
    {
        self.free_response.as_str()
    }

    pub fn set_free_response(&mut self, free_response: String)
        ensures
            final(self)@ == (JeopardyPlayerView { free_response: free_response@, ..old(self)@ }),
    {
        self.free_response = free_response;
    }

    pub fn wager(&self) -> (r: i32)
        ensures
            r == self@.wager,
    {
        self.wager
    }

    /// Sets the wager when `wager_allowed`; otherwise refuses it, naming the
    /// wager and the points, and leaves the player unchanged.
    pub fn set_wager(&mut self, wager: i32) -> (r: Result<(), JeopardyPlayerError>)
        ensures
            wager_allowed(wager as int, old(self)@.points as int) ==> r == Ok::<
                (),
                JeopardyPlayerError,
            >(()) && final(self)@ == (JeopardyPlayerView { wager, ..old(self)@ }),
            !wager_allowed(wager as int, old(self)@.points as int) ==> r == Err::<(), _>(
                JeopardyPlayerError::InvalidWager { wager, current_points: old(self)@.points },
            ) && final(self)@ == old(self)@,
            old(self)@.points < 0 ==> (r is Ok <==> wager + old(self)@.points == 0),
            old(self)@.points >= 0 ==> (r is Ok <==> 0 <= wager <= old(self)@.points),
            r is Err ==> r == Err::<(), _>(
                JeopardyPlayerError::InvalidWager { wager, current_points: old(self)@.points },
            ) && final(self)@ == old(self)@,
            r is Ok ==> final(self)@ == (JeopardyPlayerView { wager, ..old(self)@ }),
    {
        if wager < 0 {
            return Err(JeopardyPlayerError::InvalidWager { wager, current_points: self.points });
        }
        // a player in the negative may wager exactly enough to get back to zero
        let wager_for_negatives = self.points < 0 && (wager as i64) != -(self.points as i64);
        // nobody may wager more than they have
        let wager_more_than_have = self.points >= 0 && wager > self.points;
        if wager_for_negatives || wager_more_than_have {
            return Err(JeopardyPlayerError::InvalidWager { wager, current_points: self.points });
        }
        self.wager = wager;
        Ok(())
    }
}

} // verus!
