use vstd::prelude::*;
use vstd::utf8::encode_utf8;

use crate::text::{
    chars_of, is_ascii_alpha, is_ascii_alphabetic_char, is_ascii_digit, is_ascii_digit_char,
    is_ascii_graphic, is_ascii_graphic_char, is_ascii_lower, is_ascii_lowercase_char,
    is_ascii_punct, is_ascii_punctuation_char, is_ascii_upper, push_char, to_ascii_lower,
    to_ascii_lowercase_char,
};

verus! {

/// A character that a credential (lobby id, username, password) may hold:
/// an ASCII letter, an ASCII digit or ASCII punctuation.
pub open spec fn is_credential_char(c: char) -> bool {
    is_ascii_alpha(c) || is_ascii_digit(c) || is_ascii_punct(c)
}

/// Whether `s`, of UTF-8 length `byte_len`, is a credential of at most
/// `max_length` bytes: non-empty, short enough, and made of credential characters.
pub open spec fn is_credential(s: Seq<char>, byte_len: nat, max_length: nat) -> bool {
    &&& 0 < byte_len
    &&& byte_len <= max_length
    &&& forall|i: int| 0 <= i < s.len() ==> #[trigger] is_credential_char(s[i])
}

/// Whether `target_string` is non-empty, at most `max_length` bytes long, and
/// made only of ASCII letters, ASCII digits and ASCII punctuation.
pub fn is_non_zero_ascii_chars(target_string: &str, max_length: usize) -> (r: bool)
    ensures
        r == is_credential(target_string@, encode_utf8(target_string@).len(), max_length as nat),
{
    let n = target_string.as_bytes().len();
    let non_zero_length = n > 0;
    let under_length_limit = n <= max_length;
    let chars = chars_of(target_string);
    let mut i: usize = 0;
    while i < chars.len()
        invariant
            i <= chars@.len(),
            chars@ == target_string@,
            forall|k: int| 0 <= k < i ==> #[trigger] is_credential_char(chars@[k]),
        decreases chars@.len() - i,
    {
        let c = chars[i];
        let ok = is_ascii_alphabetic_char(c) || is_ascii_digit_char(c) || is_ascii_punctuation_char(c);
        if !ok {
            assert(!is_credential_char(target_string@[i as int]));
            return false;
        }
        i += 1;
    }
    non_zero_length && under_length_limit
}

/// The rules a server applies to the strings that name lobbies and players
/// and guard them.
pub trait CredsValidator {
    /// Whether `id` is acceptable as a lobby id.
    spec fn lobby_id_ok(&self, id: Seq<char>) -> bool;

    /// Whether `username` is acceptable as a player name.
    spec fn username_ok(&self, username: Seq<char>) -> bool;

    /// Whether `password` is acceptable as a host password.
    spec fn host_password_ok(&self, password: Seq<char>) -> bool;

    /// Whether `password` is acceptable as a lobby password.
    spec fn lobby_password_ok(&self, password: Seq<char>) -> bool;

    fn is_valid_lobby_id(&self, id: &str) -> (r: bool)
        ensures
            r == self.lobby_id_ok(id@),
    ;

    fn is_valid_username(&self, username: &str) -> (r: bool)
        ensures
            r == self.username_ok(username@),
    ;

    fn is_valid_host_password(&self, password: &str) -> (r: bool)
        ensures
            r == self.host_password_ok(password@),
    ;

    fn is_valid_lobby_password(&self, password: &str) -> (r: bool)
        ensures
            r == self.lobby_password_ok(password@),
    ;
}

/// A validator a server can share between its tasks.
pub trait CredsValidatorGeneric: CredsValidator + Send + Sync + 'static {

}

impl<T: CredsValidator + Send + Sync + 'static> CredsValidatorGeneric for T {

}

/// A `CredsValidator` that accepts, for every kind of credential, exactly the
/// non-empty strings of at most `max_length` bytes made of ASCII letters,
/// ASCII digits and ASCII punctuation.
#[derive(Debug)]
pub struct NonZeroAsciiValidator {
    max_length: usize,
}

impl NonZeroAsciiValidator {
    pub closed spec fn max_length_spec(&self) -> usize {
        self.max_length
    }

    /// Whether this validator accepts `s`.
    pub open spec fn accepts(&self, s: Seq<char>) -> bool {
        is_credential(s, encode_utf8(s).len(), self.max_length_spec() as nat)
    }

    pub fn new(max_length: usize) -> (r: Self)
        ensures
            r.max_length_spec() == max_length,
    {
        Self { max_length }
    }

    pub fn max_length(&self) -> (r: usize)
        ensures
            r == self.max_length_spec(),
    {
        self.max_length
    }

    fn is_valid(&self, s: &str) -> (r: bool)
        ensures
            r == self.accepts(s@),
    {
        is_non_zero_ascii_chars(s, self.max_length)
    }
}

impl CredsValidator for NonZeroAsciiValidator {
    open spec fn lobby_id_ok(&self, id: Seq<char>) -> bool {
        self.accepts(id)
    }

    open spec fn username_ok(&self, username: Seq<char>) -> bool {
        self.accepts(username)
    }

    open spec fn host_password_ok(&self, password: Seq<char>) -> bool {
        self.accepts(password)
    }

    open spec fn lobby_password_ok(&self, password: Seq<char>) -> bool {
        self.accepts(password)
    }

    fn is_valid_lobby_id(&self, id: &str) -> (r: bool) {
        self.is_valid(id)
    }

    fn is_valid_username(&self, username: &str) -> (r: bool) {
        self.is_valid(username)
    }

    fn is_valid_host_password(&self, password: &str) -> (r: bool) {
        self.is_valid(password)
    }

    fn is_valid_lobby_password(&self, password: &str) -> (r: bool) {
        self.is_valid(password)
    }
}

/// `s` with every character that is not visible ASCII dropped and every
/// ASCII uppercase letter lowered.
pub open spec fn sanitized(s: Seq<char>) -> Seq<char>
    decreases s.len(),
{
    if s.len() == 0 {
        Seq::empty()
    } else {
        let prefix = sanitized(s.drop_last());
        if is_ascii_graphic_char(s.last()) {
            prefix.push(to_ascii_lower(s.last()))
        } else {
            prefix
        }
    }
}

/// Lobby names are visible ASCII and lowercase: drops every other character
/// and lowers ASCII uppercase letters.
pub fn sanitize_name(name: &str) -> (r: String)
    ensures
        r@ == sanitized(name@),
{
    let chars = chars_of(name);
    let mut out = String::new();
    let mut i: usize = 0;
    while i < chars.len()
        invariant
            i <= chars@.len(),
            chars@ == name@,
            out@ == sanitized(name@.take(i as int)),
        decreases chars@.len() - i,
    {
        let c = chars[i];
        assert(name@.take(i + 1).drop_last() =~= name@.take(i as int));
        if is_ascii_graphic(c) {
            push_char(&mut out, to_ascii_lowercase_char(c));
        }
        i += 1;
    }
    assert(name@.take(chars@.len() as int) =~= name@);
    out
}

/// Whether every character of `s` is visible ASCII and no ASCII uppercase letter.
pub open spec fn is_sanitized(s: Seq<char>) -> bool {
    forall|i: int|
        0 <= i < s.len() ==> is_ascii_graphic_char(#[trigger] s[i]) && !is_ascii_upper(s[i])
}

proof fn lemma_lower_char(c: char)
    requires
        is_ascii_graphic_char(c),
    ensures
        is_ascii_graphic_char(to_ascii_lower(c)),
        !is_ascii_upper(to_ascii_lower(c)),
        !is_ascii_upper(c) ==> to_ascii_lower(c) == c,
{
}

proof fn lemma_sanitized_is_sanitized(s: Seq<char>)
    ensures
        is_sanitized(sanitized(s)),
        sanitized(s).len() <= s.len(),
    decreases s.len(),
{
    if s.len() > 0 {
        lemma_sanitized_is_sanitized(s.drop_last());
        if is_ascii_graphic_char(s.last()) {
            lemma_lower_char(s.last());
        }
    }
}

proof fn lemma_sanitized_fixed_point(s: Seq<char>)
    requires
        is_sanitized(s),
    ensures
        sanitized(s) == s,
    decreases s.len(),
{
    if s.len() > 0 {
        assert(is_sanitized(s.drop_last())) by {
            assert forall|i: int| 0 <= i < s.drop_last().len() implies is_ascii_graphic_char(
                #[trigger] s.drop_last()[i],
            ) && !is_ascii_upper(s.drop_last()[i]) by {
                assert(s.drop_last()[i] == s[i]);
            }
        }
        lemma_sanitized_fixed_point(s.drop_last());
        let last = s[s.len() - 1];
        assert(is_ascii_graphic_char(last) && !is_ascii_upper(last));
        lemma_lower_char(last);
        assert(s.drop_last().push(s.last()) =~= s);
    }
}

/// Sanitizing a lobby name twice gives what sanitizing it once gives.
pub proof fn law_sanitize_idempotent(s: Seq<char>)
    ensures
        sanitized(sanitized(s)) == sanitized(s),
{
    lemma_sanitized_is_sanitized(s);
    lemma_sanitized_fixed_point(sanitized(s));
}

/// A valid lobby name passes through sanitizing unchanged.
pub proof fn law_valid_lobby_name_is_sanitized(name: Seq<char>, byte_len: nat, max_length: nat)
    requires
        is_lobby_name(name, byte_len, max_length),
    ensures
        sanitized(name) == name,
{
    assert forall|i: int| 0 <= i < name.len() implies is_ascii_graphic_char(#[trigger] name[i])
        && !is_ascii_upper(name[i]) by {
        assert(is_lobby_name_char(name[i]));
    }
    lemma_sanitized_fixed_point(name);
}

/// Every non-empty result of sanitizing that fits within `max_length` bytes
/// is a valid lobby name.
pub proof fn law_sanitized_name_is_valid(s: Seq<char>, max_length: nat)
    requires
        0 < encode_utf8(sanitized(s)).len() <= max_length,
    ensures
        is_lobby_name(sanitized(s), encode_utf8(sanitized(s)).len(), max_length),
{
    let t = sanitized(s);
    lemma_sanitized_is_sanitized(s);
    assert forall|i: int| 0 <= i < t.len() implies #[trigger] is_lobby_name_char(t[i]) by {
        assert(is_ascii_graphic_char(t[i]) && !is_ascii_upper(t[i]));
    }
}

/// A character a lobby name may hold: a lowercase ASCII letter, an ASCII
/// digit or ASCII punctuation.
pub open spec fn is_lobby_name_char(c: char) -> bool {
    (is_ascii_graphic_char(c) && is_ascii_lower(c)) || is_ascii_digit(c) || is_ascii_punct(c)
}

/// Whether `name`, of UTF-8 length `byte_len`, is a valid lobby name of at
/// most `max_length` bytes.
pub open spec fn is_lobby_name(name: Seq<char>, byte_len: nat, max_length: nat) -> bool {
    &&& 0 < byte_len
    &&& byte_len <= max_length
    &&& forall|i: int| 0 <= i < name.len() ==> #[trigger] is_lobby_name_char(name[i])
}

/// Whether `name` is non-empty, at most `max_length` bytes, and made only of
/// lowercase ASCII letters, ASCII digits and ASCII punctuation.
pub fn is_valid_lobby_name(name: &str, max_length: usize) -> (r: bool)
    ensures
        r == is_lobby_name(name@, encode_utf8(name@).len(), max_length as nat),
{
    let n = name.as_bytes().len();
    let non_zero_length = n > 0;
    let under_length_limit = n <= max_length;
    let chars = chars_of(name);
    let mut i: usize = 0;
    while i < chars.len()
        invariant
            i <= chars@.len(),
            chars@ == name@,
            forall|k: int| 0 <= k < i ==> #[trigger] is_lobby_name_char(chars@[k]),
        decreases chars@.len() - i,
    {
        let c = chars[i];
        let ok = (is_ascii_graphic(c) && is_ascii_lowercase_char(c)) || is_ascii_digit_char(c)
            || is_ascii_punctuation_char(c);
        if !ok {
            assert(!is_lobby_name_char(name@[i as int]));
            return false;
        }
        i += 1;
    }
    non_zero_length && under_length_limit
}

} // verus!
