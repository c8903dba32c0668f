use vstd::prelude::*;
use vstd::utf8::encode_utf8;

use crate::players::{PlayerMap, has_id, ids_distinct, lemma_position_of, lookup, position_of, removed};
use crate::text::{
    chars_of, is_ascii_alpha, is_ascii_alphabetic_char, push_char, to_ascii_lower,
    to_ascii_lowercase_char,
};
use crate::validators::{is_valid_lobby_name, is_lobby_name};
use crate::web_game::lobby::{Lobby, LobbyView};
use vstd::string::StringExecFns;

verus! {

/// Why the lobby map refused a request.
#[derive(Debug)]
pub enum LobbyManagerError {
    User(UserError),
}

/// A request the lobby map refuses because of what was asked.
#[derive(Debug)]
pub enum UserError {
    LobbyNotFound(String),
    LobbyAlreadyExists(String),
}

/// The text shown for a lobby map's refusal.
pub open spec fn lobby_manager_user_error_message(e: UserError) -> Seq<char> {
    match e {
        UserError::LobbyNotFound(n) => "Lobby by the name '"@ + n@ + "' was not found in the database"@,
        UserError::LobbyAlreadyExists(n) => "Lobby by the name '"@ + n@
            + "' already exists in the database"@,
    }
}

impl UserError {
    pub fn message(&self) -> (r: String)
        ensures
            r@ == lobby_manager_user_error_message(*self),
    {
        match self {
            UserError::LobbyNotFound(n) => {
                let mut s = String::from_str("Lobby by the name '");
                s.append(n.as_str());
                s.append("' was not found in the database");
                s
            },
            UserError::LobbyAlreadyExists(n) => {
                let mut s = String::from_str("Lobby by the name '");
                s.append(n.as_str());
                s.append("' already exists in the database");
                s
            },
        }
    }
}

/// Whether `r` is the refusal for an unknown lobby `name`.
pub open spec fn not_found(r: LobbyManagerError, name: Seq<char>) -> bool {
    r matches LobbyManagerError::User(UserError::LobbyNotFound(n)) && n@ == name
}

/// The collection of the server's lobbies, by name.
pub trait LobbyManager: Sized {
    /// The lobbies, by name.
    spec fn lobbies(&self) -> Seq<(Seq<char>, Lobby)>;

    spec fn inv(&self) -> bool;

    fn get_mut(&mut self, name: &str) -> (r: Result<&mut Lobby, LobbyManagerError>)
        requires
            old(self).inv(),
        ensures
            r is Err ==> final(self).lobbies() == old(self).lobbies() && final(self).inv(),
            r matches Err(e) ==> not_found(e, name@) && !has_id(old(self).lobbies(), name@),
            r matches Ok(l) ==> has_id(old(self).lobbies(), name@) && *l == old(self).lobbies()[position_of(
                old(self).lobbies(),
                name@,
            )].1 && final(self).lobbies() == old(self).lobbies().update(
                position_of(old(self).lobbies(), name@),
                (name@, *final(l)),
            ) && l.wf() && (final(l).wf() ==> final(self).inv()),
    ;

    fn get(&self, name: &str) -> (r: Result<&Lobby, LobbyManagerError>)
        requires
            self.inv(),
        ensures
            lookup(self.lobbies(), name@) matches Some(l) ==> r == Ok::<&Lobby, LobbyManagerError>(&l),
            lookup(self.lobbies(), name@) is None ==> (r matches Err(e) && not_found(e, name@)),
            r matches Ok(l) ==> l.wf(),
    ;

    fn add(&mut self, lobby: Lobby) -> (r: Result<(), LobbyManagerError>)
        requires
            old(self).inv(),
            lobby.wf(),
        ensures
            final(self).inv(),
            has_id(old(self).lobbies(), lobby@.name) ==> (r matches Err(
                LobbyManagerError::User(UserError::LobbyAlreadyExists(n)),
            ) && n@ == lobby@.name) && final(self).lobbies() == old(self).lobbies(),
            !has_id(old(self).lobbies(), lobby@.name) ==> r is Ok && final(self).lobbies() == old(
                self,
            ).lobbies().push((lobby@.name, lobby)),
    ;

    fn remove(&mut self, name: &str) -> (r: Result<Lobby, LobbyManagerError>)
        requires
            old(self).inv(),
        ensures
            final(self).inv(),
            final(self).lobbies() == removed(old(self).lobbies(), name@),
            lookup(old(self).lobbies(), name@) matches Some(l) ==> r == Ok::<Lobby, LobbyManagerError>(l),
            lookup(old(self).lobbies(), name@) is None ==> (r matches Err(e) && not_found(e, name@)),
            r matches Ok(l) ==> l.wf(),
    ;
}

/// Names are unique and every lobby is well formed.
pub open spec fn lobby_map_ok(s: Seq<(Seq<char>, Lobby)>) -> bool {
    &&& ids_distinct(s)
    &&& forall|i: int| 0 <= i < s.len() ==> (#[trigger] s[i]).1.wf()
}

/// Putting a well-formed lobby in place of the one under its own name keeps
/// the map well formed.
proof fn lemma_update_keeps_ok(s: Seq<(Seq<char>, Lobby)>, i: int, name: Seq<char>, l: Lobby)
    requires
        lobby_map_ok(s),
        0 <= i < s.len(),
        s[i].0 == name,
    ensures
        l.wf() ==> lobby_map_ok(s.update(i, (name, l))),
{
    let t = s.update(i, (name, l));
    assert forall|a: int, b: int| 0 <= a < b < t.len() implies #[trigger] t[a].0 != #[trigger] t[b].0 by {
        assert(t[a].0 == s[a].0);
        assert(t[b].0 == s[b].0);
    }
}

/// Lobbies kept in memory by name, in the order they were added.
#[derive(Debug)]
pub struct LobbyMap {
    lobbies: PlayerMap<Lobby>,
}

/// Whether `c` may stay in a sanitized lobby name: an ASCII letter, an
/// ASCII digit or '_'.
pub open spec fn is_lobby_name_part(c: char) -> bool {
    is_ascii_alpha(c) || ('0' <= c <= '9') || c == '_'
}

/// `s` keeping only ASCII letters, digits and '_', with letters lowered.
pub open spec fn lobby_name_sanitized(s: Seq<char>) -> Seq<char>
    decreases s.len(),
{
    if s.len() == 0 {
        Seq::empty()
    } else {
        let prefix = lobby_name_sanitized(s.drop_last());
        if is_lobby_name_part(s.last()) {
            prefix.push(to_ascii_lower(s.last()))
        } else {
            prefix
        }
    }
}

/// Whether `c` is a lowercase ASCII letter, an ASCII digit or '_'.
pub open spec fn is_clean_lobby_name_char(c: char) -> bool {
    ('a' <= c <= 'z') || ('0' <= c <= '9') || c == '_'
}

/// Every character of a sanitized lobby name is a lowercase ASCII letter,
/// an ASCII digit or '_': no '-', space or other punctuation survives.
pub proof fn law_sanitized_lobby_name_is_clean(s: Seq<char>)
    ensures
        forall|i: int|
            0 <= i < lobby_name_sanitized(s).len() ==> is_clean_lobby_name_char(
                #[trigger] lobby_name_sanitized(s)[i],
            ),
        lobby_name_sanitized(s).len() <= s.len(),
    decreases s.len(),
{
    if s.len() > 0 {
        law_sanitized_lobby_name_is_clean(s.drop_last());
        let prefix = lobby_name_sanitized(s.drop_last());
        let c = s.last();
        if is_lobby_name_part(c) {
            assert(is_clean_lobby_name_char(to_ascii_lower(c)));
            assert forall|i: int| 0 <= i < prefix.push(to_ascii_lower(c)).len() implies is_clean_lobby_name_char(
                #[trigger] prefix.push(to_ascii_lower(c))[i],
            ) by {
                if i < prefix.len() {
                    assert(prefix.push(to_ascii_lower(c))[i] == prefix[i]);
                }
            }
        }
    }
}

/// A name already made only of lowercase ASCII letters, digits and '_'
/// comes back from sanitizing unchanged: nothing that may stay is dropped
/// or altered.
pub proof fn law_clean_lobby_name_is_kept(s: Seq<char>)
    requires
        forall|i: int| 0 <= i < s.len() ==> is_clean_lobby_name_char(#[trigger] s[i]),
    ensures
        lobby_name_sanitized(s) == s,
    decreases s.len(),
{
    if s.len() > 0 {
        assert forall|i: int| 0 <= i < s.drop_last().len() implies is_clean_lobby_name_char(
            #[trigger] s.drop_last()[i],
        ) by {
            assert(s.drop_last()[i] == s[i]);
        }
        law_clean_lobby_name_is_kept(s.drop_last());
        assert(is_clean_lobby_name_char(s[s.len() - 1]));
        assert(s.drop_last().push(s.last()) =~= s);
    }
}

/// Sanitizing a lobby name twice gives what sanitizing it once gives.
pub proof fn law_sanitize_lobby_name_idempotent(s: Seq<char>)
    ensures
        lobby_name_sanitized(lobby_name_sanitized(s)) == lobby_name_sanitized(s),
{
    law_sanitized_lobby_name_is_clean(s);
    law_clean_lobby_name_is_kept(lobby_name_sanitized(s));
}

impl LobbyMap {
    /// Keeps only ASCII letters, digits and '_' of `name`, letters lowered.
    pub fn sanitize_lobby_name(name: String) -> (r: String)
        ensures
            r@ == lobby_name_sanitized(name@),
            forall|i: int| 0 <= i < r@.len() ==> is_clean_lobby_name_char(#[trigger] r@[i]),
            (forall|i: int| 0 <= i < name@.len() ==> is_clean_lobby_name_char(#[trigger] name@[i]))
                ==> r@ == name@,
    {
        proof {
            law_sanitized_lobby_name_is_clean(name@);
            if forall|i: int| 0 <= i < name@.len() ==> is_clean_lobby_name_char(#[trigger] name@[i]) {
                law_clean_lobby_name_is_kept(name@);
            }
        }
        let chars = chars_of(name.as_str());
        let mut out = String::new();
        let mut i: usize = 0;
        while i < chars.len()
            invariant
                i <= chars@.len(),
                chars@ == name@,
                out@ == lobby_name_sanitized(name@.take(i as int)),
            decreases chars@.len() - i,
        {
            let c = chars[i];
            assert(name@.take(i + 1).drop_last() =~= name@.take(i as int));
            if is_ascii_alphabetic_char(c) || ('0' <= c && c <= '9') || c == '_' {
                push_char(&mut out, to_ascii_lowercase_char(c));
            }
            i += 1;
        }
        assert(name@.take(chars@.len() as int) =~= name@);
        out
    }

    pub fn new() -> (r: Self)
        ensures
            r.inv(),
            r.lobbies() == Seq::<(Seq<char>, Lobby)>::empty(),
    {
        Self { lobbies: PlayerMap::new() }
    }
}

impl LobbyManager for LobbyMap {
    closed spec fn lobbies(&self) -> Seq<(Seq<char>, Lobby)> {
        self.lobbies@
    }

    closed spec fn inv(&self) -> bool {
        lobby_map_ok(self.lobbies@)
    }

    fn get_mut(&mut self, name: &str) -> (r: Result<&mut Lobby, LobbyManagerError>) {
        proof {
            lemma_position_of(self.lobbies@, name@);
        }
        let ghost before = self.lobbies@;
        match self.lobbies.get_mut(name) {
            Some(l) => {
                proof {
                    let i = position_of(before, name@);
                    assert(before[i].1.wf());
                    lemma_update_keeps_ok(before, i, name@, *final(l));
                }
                Ok(l)
            },
            None => Err(LobbyManagerError::User(UserError::LobbyNotFound(name.to_owned()))),
        }
    }

    fn get(&self, name: &str) -> (r: Result<&Lobby, LobbyManagerError>) {
        proof {
            lemma_position_of(self.lobbies@, name@);
        }
        match self.lobbies.get(name) {
            Some(l) => Ok(l),
            None => Err(LobbyManagerError::User(UserError::LobbyNotFound(name.to_owned()))),
        }
    }

    fn add(&mut self, lobby: Lobby) -> (r: Result<(), LobbyManagerError>) {
        let name = lobby.get_name().to_owned();
        if self.lobbies.contains(name.as_str()) {
            return Err(LobbyManagerError::User(UserError::LobbyAlreadyExists(name)));
        }
        let ghost before = self.lobbies@;
        self.lobbies.add(name, lobby);
        proof {
            assert forall|i: int| 0 <= i < self.lobbies@.len() implies (#[trigger] self.lobbies@[i]).1.wf() by {
                if i < before.len() {
                    assert(self.lobbies@[i] == before[i]);
                }
            }
        }
        Ok(())
    }

    fn remove(&mut self, name: &str) -> (r: Result<Lobby, LobbyManagerError>) {
        proof {
            lemma_position_of(self.lobbies@, name@);
        }
        let ghost before = self.lobbies@;
        let r = self.lobbies.remove(name);
        proof {
            if has_id(before, name@) {
                let k = position_of(before, name@);
                assert forall|i: int| 0 <= i < self.lobbies@.len() implies (#[trigger] self.lobbies@[i]).1.wf() by {
                    if i < k {
                        assert(self.lobbies@[i] == before[i]);
                    } else {
                        assert(self.lobbies@[i] == before[i + 1]);
                    }
                }
            }
        }
        match r {
            Some(l) => Ok(l),
            None => Err(LobbyManagerError::User(UserError::LobbyNotFound(name.to_owned()))),
        }
    }
}

/// The longest lobby name, password or username accepted, in bytes.
pub const MAX_NAME_LENGTH: usize = 32;

pub open spec fn invalid_lobby_name_text() -> Seq<char> {
    "Invalid lobby name. Must be lowercase and alphanumeric (special chars permitted) with length 0-32"@
}

pub open spec fn invalid_password_text() -> Seq<char> {
    "Invalid password. Must be lowercase and alphanumeric (special chars permitted) with length 0-32"@
}

/// Creates the lobby `lobby_name` guarded by `password` in `map` and says
/// how it went, as a status code and a message. The name and the password
/// must both be valid lobby names (400 otherwise, the name checked first);
/// a name already taken is refused with 400 and the map's message;
/// otherwise the lobby is added (200).
pub fn create_lobby(map: &mut LobbyMap, lobby_name: String, password: String) -> (r: (u16, String))
    requires
        old(map).inv(),
    ensures
        final(map).inv(),
        !is_lobby_name(lobby_name@, encode_utf8(lobby_name@).len(), MAX_NAME_LENGTH as nat) ==> r.0 == 400
            && r.1@ == invalid_lobby_name_text() && final(map).lobbies() == old(map).lobbies(),
        is_lobby_name(lobby_name@, encode_utf8(lobby_name@).len(), MAX_NAME_LENGTH as nat) && !is_lobby_name(
            password@,
            encode_utf8(password@).len(),
            MAX_NAME_LENGTH as nat,
        ) ==> r.0 == 400 && r.1@ == invalid_password_text() && final(map).lobbies() == old(
            map,
        ).lobbies(),
        is_lobby_name(lobby_name@, encode_utf8(lobby_name@).len(), MAX_NAME_LENGTH as nat) && is_lobby_name(
            password@,
            encode_utf8(password@).len(),
            MAX_NAME_LENGTH as nat,
        ) ==> if has_id(old(map).lobbies(), lobby_name@) {
            r.0 == 400 && r.1@ == lobby_manager_user_error_message(
                UserError::LobbyAlreadyExists(lobby_name),
            ) && final(map).lobbies() == old(map).lobbies()
        } else {
            r.0 == 200 && r.1@ == "Lobby '"@ + lobby_name@ + "' created successfully."@
                && final(map).lobbies().len() == old(map).lobbies().len() + 1
                && final(map).lobbies().last().0 == lobby_name@
                && final(map).lobbies().last().1@ == (LobbyView {
                name: lobby_name@,
                password: password@,
                players: Seq::empty(),
            })
        },
{
    if !is_valid_lobby_name(lobby_name.as_str(), MAX_NAME_LENGTH) {
        return (
            400,
            "Invalid lobby name. Must be lowercase and alphanumeric (special chars permitted) with length 0-32".to_owned(),
        );
    }
    if !is_valid_lobby_name(password.as_str(), MAX_NAME_LENGTH) {
        return (
            400,
            "Invalid password. Must be lowercase and alphanumeric (special chars permitted) with length 0-32".to_owned(),
        );
    }
    let mut done = String::from_str("Lobby '");
    done.append(lobby_name.as_str());
    done.append("' created successfully.");
    let lobby = Lobby::new(lobby_name, password);
    match map.add(lobby) {
        Ok(()) => (200, done),
        Err(LobbyManagerError::User(e)) => (400, e.message()),
    }
}

} // verus!
