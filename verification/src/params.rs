//! Connection parameters and the connection string built from them.

use vstd::prelude::*;
use vstd::string::*;

verus! {

/// The five values that name a database to probe. Immutable once decoded.
///
/// The type has no `Debug`: printing it would print the password.
#[derive(Clone, PartialEq, Eq)]
pub struct ConnectionParameters {
    pub host: String,
    pub port: String,
    pub user: String,
    pub password: String,
    pub database: String,
}

/// Mathematical model of [`ConnectionParameters`].
pub struct ParamsView {
    pub host: Seq<char>,
    pub port: Seq<char>,
    pub user: Seq<char>,
    pub password: Seq<char>,
    pub database: Seq<char>,
}

impl View for ConnectionParameters {
    type V = ParamsView;

    open spec fn view(&self) -> ParamsView {
        ParamsView {
            host: self.host@,
            port: self.port@,
            user: self.user@,
            password: self.password@,
            database: self.database@,
        }
    }
}

/// The connection string of a set of parameters:
/// `host=<h> port=<p> user=<u> password=<pw> dbname=<db>`, each value
/// copied as it is, with no quoting or escaping.
pub open spec fn connection_string_of(params: ParamsView) -> Seq<char> {
    "host="@ + params.host + " port="@ + params.port + " user="@ + params.user + " password="@
        + params.password + " dbname="@ + params.database
}

/// What stands in place of the password in a string meant for a log.
pub open spec fn password_mask() -> Seq<char> {
    "***"@
}

/// The parameters with the password masked.
pub open spec fn masked(params: ParamsView) -> ParamsView {
    ParamsView { password: password_mask(), ..params }
}

/// Whether a value holds no space.
pub open spec fn space_free(value: Seq<char>) -> bool {
    forall|i: int| 0 <= i < value.len() ==> value[i] != ' '
}

impl ParamsView {
    /// Whether none of the five values holds a space. In a connection
    /// string a space ends a value, so only such parameters can be read
    /// back from theirs.
    pub open spec fn space_free(self) -> bool {
        &&& space_free(self.host)
        &&& space_free(self.port)
        &&& space_free(self.user)
        &&& space_free(self.password)
        &&& space_free(self.database)
    }
}

/// Whether `word` stands in `text` at position `at`.
pub open spec fn stands_at(text: Seq<char>, at: int, word: Seq<char>) -> bool {
    &&& 0 <= at
    &&& at + word.len() <= text.len()
    &&& text.subrange(at, at + word.len()) == word
}

/// Where the value that starts at `from` ends: at the first space at or
/// after `from`, or where the text ends.
pub open spec fn value_end(text: Seq<char>, from: int) -> int
    decreases text.len() - from,
{
    if from < 0 || from >= text.len() || text[from] == ' ' {
        from
    } else {
        value_end(text, from + 1)
    }
}

/// Reads `key` and the value behind it at position `at`: the value and
/// the position where it ends, or `None` where `key` does not stand there.
pub open spec fn pair_at(text: Seq<char>, at: int, key: Seq<char>) -> Option<(Seq<char>, int)> {
    if stands_at(text, at, key) {
        let from = at + key.len();
        let end = value_end(text, from);
        Some((text.subrange(from, end), end))
    } else {
        None
    }
}

/// The parameters that a connection string holds: the five keys in their
/// order, one space before each but the first, each value running up to
/// the next space, and nothing after the last. `None` for any other text.
pub open spec fn parsed(text: Seq<char>) -> Option<ParamsView> {
    match pair_at(text, 0, "host="@) {
        Some((host, a)) => match pair_at(text, a, " port="@) {
            Some((port, b)) => match pair_at(text, b, " user="@) {
                Some((user, c)) => match pair_at(text, c, " password="@) {
                    Some((password, d)) => match pair_at(text, d, " dbname="@) {
                        Some((database, e)) => if e == text.len() {
                            Some(ParamsView { host, port, user, password, database })
                        } else {
                            None
                        },
                        None => None,
                    },
                    None => None,
                },
                None => None,
            },
            None => None,
        },
        None => None,
    }
}

impl ConnectionParameters {
    /// Builds the connection string handed to the database driver.
    pub fn connection_string(&self) -> (text: String)
        ensures
            text@ == connection_string_of(self@),
    {
        let mut text = String::from_str("host=");
        text.append(self.host.as_str());
        text.append(" port=");
        text.append(self.port.as_str());
        text.append(" user=");
        text.append(self.user.as_str());
        text.append(" password=");
        text.append(self.password.as_str());
        text.append(" dbname=");
        text.append(self.database.as_str());
        text
    }

    /// Builds the form of the connection string that may be written to a
    /// log: the same string with the password replaced by a fixed mask.
    pub fn redacted_connection_string(&self) -> (text: String)
        ensures
            text@ == connection_string_of(masked(self@)),
    {
        let mut text = String::from_str("host=");
        text.append(self.host.as_str());
        text.append(" port=");
        text.append(self.port.as_str());
        text.append(" user=");
        text.append(self.user.as_str());
        text.append(" password=");
        text.append("***");
        text.append(" dbname=");
        text.append(self.database.as_str());
        text
    }
}

/// The characters of a text, one by one.
fn chars_of(text: &str) -> (chars: Vec<char>)
    ensures
        chars@ == text@,
{
    let mut chars: Vec<char> = Vec::new();
    for c in it: text.chars()
        invariant
            it.seq() == text@,
            chars@ == text@.take(it.index() as int),
    {
        chars.push(c);
    }
    chars
}

/// Whether `word` stands in `text` at position `at`.
fn has_at(text: &Vec<char>, at: usize, word: &Vec<char>) -> (found: bool)
    requires
        at <= text.len(),
    ensures
        found == stands_at(text@, at as int, word@),
{
    if word.len() > text.len() - at {
        return false;
    }
    let mut i: usize = 0;
    while i < word.len()
        invariant
            at + word.len() <= text.len(),
            i <= word.len(),
            forall|j: int| 0 <= j < i ==> text@[at + j] == word@[j],
        decreases word.len() - i,
    {
        if text[at + i] != word[i] {
            assert(text@.subrange(at as int, at + word.len())[i as int] != word@[i as int]);
            return false;
        }
        i += 1;
    }
    assert(text@.subrange(at as int, at + word.len()) =~= word@);
    true
}

/// Reads `key` and the value behind it at position `at` of `text`, whose
/// characters are `chars`.
fn read_pair(text: &str, chars: &Vec<char>, at: usize, key: &str) -> (pair: Option<
    (String, usize),
>)
    requires
        chars@ == text@,
        at <= chars.len(),
    ensures
        match pair {
            Some((value, end)) => pair_at(text@, at as int, key@) == Some((value@, end as int))
                && end <= chars.len(),
            None => pair_at(text@, at as int, key@) is None,
        },
{
    let key = chars_of(key);
    if !has_at(chars, at, &key) {
        return None;
    }
    let from: usize = at + key.len();
    let mut end: usize = from;
    while end < chars.len() && chars[end] != ' '
        invariant
            chars@ == text@,
            from <= end <= chars.len(),
            value_end(text@, end as int) == value_end(text@, from as int),
        decreases chars.len() - end,
    {
        end += 1;
    }
    let value = text.substring_char(from, end).to_owned();
    Some((value, end))
}

impl ConnectionParameters {
    /// Reads the parameters back from a connection string. Gives `None`
    /// for a text that is not of the form that
    /// [`connection_string`](Self::connection_string) builds.
    ///
    /// This is the inverse of the builder and nothing more: values are
    /// taken as they stand, up to the next space. A database driver reads
    /// more forms than this one (quoted values, escapes, further keys).
    pub fn from_connection_string(text: &str) -> (params: Option<ConnectionParameters>)
        ensures
            match params {
                Some(params) => parsed(text@) == Some(params@),
                None => parsed(text@) is None,
            },
    {
        let chars = chars_of(text);
        let (host, at) = match read_pair(text, &chars, 0, "host=") {
            Some(pair) => pair,
            None => {
                return None;
            },
        };
        let (port, at) = match read_pair(text, &chars, at, " port=") {
            Some(pair) => pair,
            None => {
                return None;
            },
        };
        let (user, at) = match read_pair(text, &chars, at, " user=") {
            Some(pair) => pair,
            None => {
                return None;
            },
        };
        let (password, at) = match read_pair(text, &chars, at, " password=") {
            Some(pair) => pair,
            None => {
                return None;
            },
        };
        let (database, at) = match read_pair(text, &chars, at, " dbname=") {
            Some(pair) => pair,
            None => {
                return None;
            },
        };
        if at != chars.len() {
            return None;
        }
        Some(ConnectionParameters { host, port, user, password, database })
    }
}

/// A value ends where its first space stands, or where the text ends.
proof fn value_end_found(text: Seq<char>, from: int, end: int)
    requires
        0 <= from <= end <= text.len(),
        forall|i: int| from <= i < end ==> text[i] != ' ',
        end == text.len() || text[end] == ' ',
    ensures
        value_end(text, from) == end,
    decreases end - from,
{
    if from < end {
        value_end_found(text, from + 1, end);
    }
}

/// Where a value ends, what comes before is free of spaces.
proof fn value_end_bounds(text: Seq<char>, from: int)
    requires
        0 <= from <= text.len(),
    ensures
        from <= value_end(text, from) <= text.len(),
        space_free(text.subrange(from, value_end(text, from))),
        value_end(text, from) == text.len() || text[value_end(text, from)] == ' ',
    decreases text.len() - from,
{
    if from < text.len() && text[from] != ' ' {
        value_end_bounds(text, from + 1);
        let end = value_end(text, from);
        assert forall|i: int| 0 <= i < end - from implies text.subrange(from, end)[i] != ' ' by {
            if i > 0 {
                assert(text.subrange(from + 1, end)[i - 1] == text[from + i]);
            }
        }
    }
}

/// A key and a space-free value that stand in a text, the value followed
/// by a space or by nothing, are read as that value.
proof fn pair_in_context(before: Seq<char>, key: Seq<char>, value: Seq<char>, after: Seq<char>)
    requires
        space_free(value),
        after.len() == 0 || after[0] == ' ',
    ensures
        pair_at(before + key + value + after, before.len() as int, key) == Some(
            (value, (before.len() + key.len() + value.len()) as int),
        ),
{
    let text = before + key + value + after;
    let at = before.len() as int;
    let from = at + key.len();
    let end = from + value.len();
    assert(text.subrange(at, from) =~= key);
    assert forall|i: int| from <= i < end implies text[i] != ' ' by {
        assert(text[i] == value[i - from]);
    }
    if after.len() > 0 {
        assert(text[end] == after[0]);
    }
    value_end_found(text, from, end);
    assert(text.subrange(from, end) =~= value);
}

/// Round trip. The connection string of parameters that hold no space
/// reads back as exactly those parameters: nothing is quoted, escaped or
/// otherwise changed on the way.
pub proof fn round_trip(params: ParamsView)
    requires
        params.space_free(),
    ensures
        parsed(connection_string_of(params)) == Some(params),
{
    reveal_strlit(" port=");
    reveal_strlit(" user=");
    reveal_strlit(" password=");
    reveal_strlit(" dbname=");
    let text = connection_string_of(params);
    let k0 = "host="@;
    let k1 = " port="@;
    let k2 = " user="@;
    let k3 = " password="@;
    let k4 = " dbname="@;
    let r4 = Seq::<char>::empty();
    let r3 = k4 + params.database + r4;
    let r2 = k3 + params.password + r3;
    let r1 = k2 + params.user + r2;
    let r0 = k1 + params.port + r1;
    let b0 = Seq::<char>::empty();
    let b1 = k0 + params.host;
    let b2 = b1 + k1 + params.port;
    let b3 = b2 + k2 + params.user;
    let b4 = b3 + k3 + params.password;
    assert(text =~= b0 + k0 + params.host + r0);
    assert(text =~= b1 + k1 + params.port + r1);
    assert(text =~= b2 + k2 + params.user + r2);
    assert(text =~= b3 + k3 + params.password + r3);
    assert(text =~= b4 + k4 + params.database + r4);
    assert(r0[0] == ' ');
    assert(r1[0] == ' ');
    assert(r2[0] == ' ');
    assert(r3[0] == ' ');
    pair_in_context(b0, k0, params.host, r0);
    pair_in_context(b1, k1, params.port, r1);
    pair_in_context(b2, k2, params.user, r2);
    pair_in_context(b3, k3, params.password, r3);
    pair_in_context(b4, k4, params.database, r4);
}

/// Whatever reads as parameters is the connection string of those
/// parameters, and they hold no space.
pub proof fn parsed_is_exact(text: Seq<char>)
    requires
        parsed(text) is Some,
    ensures
        parsed(text)->0.space_free(),
        connection_string_of(parsed(text)->0) == text,
{
    let params = parsed(text)->0;
    let (host, a) = pair_at(text, 0, "host="@)->0;
    let (port, b) = pair_at(text, a, " port="@)->0;
    let (user, c) = pair_at(text, b, " user="@)->0;
    let (password, d) = pair_at(text, c, " password="@)->0;
    let (database, e) = pair_at(text, d, " dbname="@)->0;
    value_end_bounds(text, "host="@.len() as int);
    value_end_bounds(text, a + " port="@.len());
    value_end_bounds(text, b + " user="@.len());
    value_end_bounds(text, c + " password="@.len());
    value_end_bounds(text, d + " dbname="@.len());
    assert(connection_string_of(params) =~= text);
}

/// A text reads as a set of parameters exactly when they hold no space
/// and it is their connection string.
pub proof fn reads_what_is_built(text: Seq<char>, params: ParamsView)
    ensures
        parsed(text) == Some(params) <==> params.space_free() && connection_string_of(params)
            == text,
{
    if parsed(text) == Some(params) {
        parsed_is_exact(text);
    }
    if params.space_free() && connection_string_of(params) == text {
        round_trip(params);
    }
}

} // verus!
