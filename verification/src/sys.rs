//! The current user: reading the output of `id`, parsing numbers the way
//! `u32::from_str` does, and finding the home directory in `/etc/passwd`
//! lines.  Running `id` and reading files is the caller's part.
use vstd::prelude::*;

use crate::errors::{Error, debug_quoted, debug_text};
use crate::path_utils::{collapse_separators, remove_duplicate_separators};
use crate::text::{
    chars_of, decimal, has_prefix, owned, push_char, push_decimal, string_from, vec_eq,
    vec_starts_with,
};

verus! {

/// The expression that finds the user and group in the output of `id`.
pub const USER_PATTERN: &'static str = r"uid=(?<uid>\d+)([(](?<name>[^)]+)[)])\s*gid=(?<gid>\d+)[(](?<group>[^)]+)[)]";

/// The expression that finds each `<number>(<name>)` in the output of `id`.
pub const GROUP_PATTERN: &'static str = r"(\d+)([(]([^)]+)[)])";

/// The groups captured by the first match of `pattern` in `haystack`
/// (`Regex::captures`), each present where it took part in the match:
/// `Some(None)` where nothing matches, `None` where the pattern does not
/// compile.
pub uninterp spec fn regex_first_captures(pattern: Seq<char>, haystack: Seq<char>) -> Option<
    Option<Seq<Option<Seq<char>>>>,
>;

/// The groups captured by each successive match of `pattern` in `haystack`
/// (`Regex::captures_iter`); `None` where the pattern does not compile.
pub uninterp spec fn regex_all_captures(pattern: Seq<char>, haystack: Seq<char>) -> Option<
    Seq<Seq<Option<Seq<char>>>>,
>;

/// The captured groups as texts.
pub open spec fn captured_views(v: Seq<Option<String>>) -> Seq<Option<Seq<char>>> {
    v.map_values(|o: Option<String>| match o {
        Some(s) => Some(s@),
        None => None,
    })
}

/// Compiles `pattern` with `regex::Regex::new` and, when it compiles, returns
/// the groups of its first match in `haystack` (`Regex::captures`).  The
/// contract names the result and states that the two expressions of this
/// module compile.
#[verifier::external_body]
fn first_captures(pattern: &str, haystack: &str) -> (r: Option<Option<Vec<Option<String>>>>)
    ensures
        match r {
            Some(Some(v)) => regex_first_captures(pattern@, haystack@) == Some(Some(captured_views(v@))),
            Some(None) => regex_first_captures(pattern@, haystack@) == Some(None::<Seq<Option<Seq<char>>>>),
            None => regex_first_captures(pattern@, haystack@) is None,
        },
        pattern@ == USER_PATTERN@ ==> r is Some,
{
    let re = regex::Regex::new(pattern).ok()?;
    Some(re.captures(haystack).map(|c| c.iter().map(|m| m.map(|m| m.as_str().to_string())).collect()))
}

/// Compiles `pattern` with `regex::Regex::new` and, when it compiles, returns
/// the groups of each successive match in `haystack` (`Regex::captures_iter`).
/// The contract names the result and states that the expressions of this
/// module compile.
#[verifier::external_body]
fn all_captures(pattern: &str, haystack: &str) -> (r: Option<Vec<Vec<Option<String>>>>)
    ensures
        match r {
            Some(v) => regex_all_captures(pattern@, haystack@) == Some(
                v@.map_values(|c: Vec<Option<String>>| captured_views(c@)),
            ),
            None => regex_all_captures(pattern@, haystack@) is None,
        },
        pattern@ == GROUP_PATTERN@ ==> r is Some,
{
    let re = regex::Regex::new(pattern).ok()?;
    Some(
        re.captures_iter(haystack).map(|c| c.iter().map(|m| m.map(|m| m.as_str().to_string())).collect())
            .collect(),
    )
}

/// Why a text is not a `u32` (`ParseIntError`).
#[derive(Debug, Clone, Copy, PartialEq, Eq, Structural)]
pub enum NumberFailure {
    Empty,
    InvalidDigit,
    PosOverflow,
}

/// The message of each failure, as `ParseIntError` shows it.
pub open spec fn number_failure_text(f: NumberFailure) -> Seq<char> {
    match f {
        NumberFailure::Empty => "cannot parse integer from empty string"@,
        NumberFailure::InvalidDigit => "invalid digit found in string"@,
        NumberFailure::PosOverflow => "number too large to fit in target type"@,
    }
}

/// Whether `c` is a digit in base `radix` (at most ten).
pub open spec fn is_digit_in(c: char, radix: u32) -> bool {
    ('0' as u32) <= (c as u32) && (c as u32) < ('0' as u32) + radix
}

/// The value of a digit.
pub open spec fn digit_value(c: char) -> nat {
    (c as u32 - '0' as u32) as nat
}

/// Reads the digits `d` in base `radix` after the value `acc` already read,
/// left to right: a character that is not a digit fails, and so does a value
/// past `u32::MAX`.
pub open spec fn digits_value(d: Seq<char>, acc: nat, radix: u32) -> Result<u32, NumberFailure>
    decreases d.len(),
{
    if d.len() == 0 {
        Ok(acc as u32)
    } else if !is_digit_in(d[0], radix) {
        Err(NumberFailure::InvalidDigit)
    } else if acc * radix + digit_value(d[0]) > u32::MAX {
        Err(NumberFailure::PosOverflow)
    } else {
        digits_value(d.drop_first(), (acc * radix + digit_value(d[0])) as nat, radix)
    }
}

/// `u32::from_str_radix`: an optional leading `+`, then digits in base `radix`.
pub open spec fn u32_from_text_radix(s: Seq<char>, radix: u32) -> Result<u32, NumberFailure> {
    if s.len() == 0 {
        Err(NumberFailure::Empty)
    } else if (s[0] == '+' || s[0] == '-') && s.len() == 1 {
        Err(NumberFailure::InvalidDigit)
    } else if s[0] == '+' {
        digits_value(s.drop_first(), 0, radix)
    } else {
        digits_value(s, 0, radix)
    }
}

/// `u32::from_str`: an optional leading `+`, then decimal digits.
pub open spec fn u32_from_text(s: Seq<char>) -> Result<u32, NumberFailure> {
    u32_from_text_radix(s, 10)
}

/// What `parse_u32` gives: the number, or a safety error naming the failure,
/// the text and what it was meant to be.
pub open spec fn parse_u32_result(s: Seq<char>, what: Seq<char>) -> Result<u32, Seq<char>> {
    match u32_from_text(s) {
        Ok(n) => Ok(n),
        Err(f) => Err(number_failure_text(f) + " in converting "@ + debug_quoted(s) + " "@ + debug_quoted(what) + " to u32"@),
    }
}

/// Reads a `u32` from its digits in base `radix`.
fn read_digits(d: &Vec<char>, from: usize, radix: u32) -> (r: Result<u32, NumberFailure>)
    requires
        from <= d@.len(),
        2 <= radix <= 10,
    ensures
        r == digits_value(d@.skip(from as int), 0, radix),
{
    let mut acc: u32 = 0;
    let mut i = from;
    while i < d.len()
        invariant
            from <= i <= d@.len(),
            2 <= radix <= 10,
            digits_value(d@.skip(from as int), 0, radix) == digits_value(d@.skip(i as int), acc as nat, radix),
        decreases d.len() - i,
    {
        assert(d@.skip(i as int)[0] == d@[i as int]);
        assert(d@.skip(i as int).drop_first() =~= d@.skip(i + 1));
        let c = d[i] as u32;
        if !(('0' as u32) <= c && c < ('0' as u32) + radix) {
            return Err(NumberFailure::InvalidDigit);
        }
        let v = c - ('0' as u32);
        assert(acc as u64 * radix as u64 <= u32::MAX as u64 * 10) by (nonlinear_arith)
            requires acc <= u32::MAX, radix <= 10;
        if acc as u64 * radix as u64 + v as u64 > u32::MAX as u64 {
            return Err(NumberFailure::PosOverflow);
        }
        acc = acc * radix + v;
        i = i + 1;
    }
    assert(d@.skip(i as int).len() == 0);
    Ok(acc)
}

/// `u32::from_str_radix(s, radix)`.
pub fn u32_from_str_radix(s: &str, radix: u32) -> (r: Result<u32, NumberFailure>)
    requires
        2 <= radix <= 10,
    ensures
        r == u32_from_text_radix(s@, radix),
{
    let v = chars_of(s);
    if v.len() == 0 {
        return Err(NumberFailure::Empty);
    }
    if (v[0] == '+' || v[0] == '-') && v.len() == 1 {
        return Err(NumberFailure::InvalidDigit);
    }
    if v[0] == '+' {
        assert(v@.skip(1) =~= v@.drop_first());
        read_digits(&v, 1, radix)
    } else {
        assert(v@.skip(0) =~= v@);
        read_digits(&v, 0, radix)
    }
}

/// `u32::from_str` on `s`.
pub fn u32_from_str(s: &str) -> (r: Result<u32, NumberFailure>)
    ensures
        r == u32_from_text(s@),
{
    u32_from_str_radix(s, 10)
}

/// The message of a failure to read a number.
pub fn number_failure_message(f: NumberFailure) -> (r: &'static str)
    ensures
        r@ == number_failure_text(f),
{
    match f {
        NumberFailure::Empty => "cannot parse integer from empty string",
        NumberFailure::InvalidDigit => "invalid digit found in string",
        NumberFailure::PosOverflow => "number too large to fit in target type",
    }
}

/// Reads `s` as a `u32`; `short_description` says what it is, for the error.
pub fn parse_u32(s: &str, short_description: &str) -> (r: Result<u32, Error>)
    ensures
        match parse_u32_result(s@, short_description@) {
            Ok(n) => r == Ok::<u32, Error>(n),
            Err(m) => r matches Err(Error::SafetyError(e)) && e@ == m,
        },
{
    match u32_from_str(s) {
        Ok(n) => Ok(n),
        Err(f) => {
            let mut m = owned(number_failure_message(f));
            m.append(" in converting ");
            let q = debug_text(s);
            m.append(q.as_str());
            m.append(" ");
            let w = debug_text(short_description);
            m.append(w.as_str());
            m.append(" to u32");
            Err(Error::SafetyError(m))
        },
    }
}

/// A group the user belongs to.
#[derive(Debug, PartialEq, Eq)]
pub struct Group {
    pub gid: u32,
    pub name: String,
}

/// A user: ids, names and groups.
#[derive(Debug, PartialEq, Eq)]
pub struct User {
    pub gid: u32,
    pub uid: u32,
    pub name: String,
    pub group: String,
    pub groups: Vec<Group>,
}

/// A group from the captures of one `<number>(<name>)`: the number must read
/// as a `u32`.
pub open spec fn group_from(c: Seq<Option<Seq<char>>>) -> Option<(u32, Seq<char>)> {
    if c.len() > 3 && c[1] is Some && c[3] is Some {
        match u32_from_text(c[1]->0) {
            Ok(n) => Some((n, c[3]->0)),
            Err(_) => None,
        }
    } else {
        None
    }
}

/// Whether every `<number>(<name>)` gives a group.
pub open spec fn groups_readable(all: Seq<Seq<Option<Seq<char>>>>) -> bool {
    forall|i: int| 0 <= i < all.len() ==> (#[trigger] group_from(all[i])) is Some
}

/// The groups read from each `<number>(<name>)`.
pub open spec fn groups_from(all: Seq<Seq<Option<Seq<char>>>>) -> Seq<(u32, Seq<char>)> {
    all.map_values(|c: Seq<Option<Seq<char>>>| group_from(c)->0)
}

/// The ids, names and groups of a user as texts.
pub open spec fn user_view(u: User) -> (u32, u32, Seq<char>, Seq<char>, Seq<(u32, Seq<char>)>) {
    (u.uid, u.gid, u.name@, u.group@, u.groups@.map_values(|g: Group| (g.gid, g.name@)))
}

/// What reading the output of `id` gives: the user from the first match of
/// `USER_PATTERN` (its gid read first, then its uid) with the groups from
/// every match of `GROUP_PATTERN`; or the error, as whether it is a safety
/// error (a number that does not read) rather than a system error (no match),
/// and its message.
pub open spec fn user_from_id_output(
    stdout: Seq<char>,
) -> Result<(u32, u32, Seq<char>, Seq<char>, Seq<(u32, Seq<char>)>), (bool, Seq<char>)> {
    let found = regex_first_captures(USER_PATTERN@, stdout);
    if found matches Some(Some(c)) && c.len() > 5 && c[1] is Some && c[3] is Some && c[4] is Some && c[5] is Some {
        let c = found->0->0;
        match parse_u32_result(c[4]->0, "gid"@) {
            Err(m) => Err((true, m)),
            Ok(gid) => match parse_u32_result(c[1]->0, "uid"@) {
                Err(m) => Err((true, m)),
                Ok(uid) => Ok(
                    (uid, gid, c[3]->0, c[5]->0, groups_from(regex_all_captures(GROUP_PATTERN@, stdout)->0)),
                ),
            },
        }
    } else {
        Err((false, "could not secure user information from /usr/bin/id"@))
    }
}

/// Whether reading the output of `id` reaches its groups (the user matched
/// and both ids read) and finds a `<number>(<name>)` whose number does not
/// read (output that `from_id_cmd_string` does not take).
pub open spec fn id_groups_unreadable(stdout: Seq<char>) -> bool {
    user_from_id_output(stdout) is Ok && !groups_readable(regex_all_captures(GROUP_PATTERN@, stdout)->0)
}

/// The group of one `<number>(<name>)`, or `None` where the number does not read.
fn group_of(c: &Vec<Option<String>>) -> (r: Option<Group>)
    ensures
        match group_from(captured_views(c@)) {
            Some((gid, name)) => r matches Some(g) && g.gid == gid && g.name@ == name,
            None => r is None,
        },
{
    if c.len() > 3 {
        match (&c[1], &c[3]) {
            (Some(n), Some(name)) => match u32_from_str(n.as_str()) {
                Ok(gid) => Some(Group { gid, name: owned(name.as_str()) }),
                Err(_) => None,
            },
            _ => None,
        }
    } else {
        None
    }
}

/// Reads the output of `id`; `None` where a group number does not read.
fn read_user(id_stdout: &str) -> (r: Option<Result<User, Error>>)
    ensures
        id_groups_unreadable(id_stdout@) <==> r is None,
        match r {
            Some(res) => match user_from_id_output(id_stdout@) {
                Ok(t) => res matches Ok(u) && user_view(u) == t,
                Err((true, m)) => res matches Err(Error::SafetyError(e)) && e@ == m,
                Err((false, m)) => res matches Err(Error::SystemError(e)) && e@ == m,
            },
            None => true,
        },
{
    let found = first_captures(USER_PATTERN, id_stdout);
    let c = match found {
        Some(Some(c)) => c,
        _ => {
            return Some(Err(Error::SystemError(owned("could not secure user information from /usr/bin/id"))));
        },
    };
    if c.len() <= 5 {
        return Some(Err(Error::SystemError(owned("could not secure user information from /usr/bin/id"))));
    }
    let (uid_text, name, gid_text, group) = match (&c[1], &c[3], &c[4], &c[5]) {
        (Some(u), Some(n), Some(g), Some(gr)) => (u, n, g, gr),
        _ => {
            return Some(Err(Error::SystemError(owned("could not secure user information from /usr/bin/id"))));
        },
    };
    let gid = match parse_u32(gid_text.as_str(), "gid") {
        Ok(n) => n,
        Err(e) => return Some(Err(e)),
    };
    let uid = match parse_u32(uid_text.as_str(), "uid") {
        Ok(n) => n,
        Err(e) => return Some(Err(e)),
    };
    let all = match all_captures(GROUP_PATTERN, id_stdout) {
        Some(all) => all,
        None => Vec::new(),
    };
    let ghost all_views = all@.map_values(|c: Vec<Option<String>>| captured_views(c@));
    proof {
        let cv = captured_views(c@);
        assert(cv[1] == Some(uid_text@));
        assert(cv[3] == Some(name@));
        assert(cv[4] == Some(gid_text@));
        assert(cv[5] == Some(group@));
        assert(user_from_id_output(id_stdout@) is Ok);
    }
    let mut groups: Vec<Group> = Vec::new();
    let mut i: usize = 0;
    while i < all.len()
        invariant
            user_from_id_output(id_stdout@) is Ok,
            i <= all@.len(),
            all_views == all@.map_values(|c: Vec<Option<String>>| captured_views(c@)),
            all_views == regex_all_captures(GROUP_PATTERN@, id_stdout@)->0,
            forall|j: int| 0 <= j < i ==> (#[trigger] group_from(all_views[j])) is Some,
            groups@.map_values(|g: Group| (g.gid, g.name@)) == groups_from(all_views).take(i as int),
        decreases all.len() - i,
    {
        assert(all_views[i as int] == captured_views(all@[i as int]@));
        let g = group_of(&all[i]);
        match g {
            Some(g) => {
                let ghost before = groups@;
                let ghost item = (g.gid, g.name@);
                assert(groups_from(all_views)[i as int] == item);
                groups.push(g);
                assert(groups@ == before.push(groups@.last()));
                assert(groups@.map_values(|g: Group| (g.gid, g.name@)) =~= before.map_values(|g: Group| (g.gid, g.name@)).push(item));
                assert(groups_from(all_views).take(i + 1) =~= groups_from(all_views).take(i as int).push(item));
            },
            None => {
                proof {
                    assert(group_from(all_views[i as int]) is None);
                    assert(!groups_readable(all_views));
                }
                return None;
            },
        }
        i = i + 1;
    }
    assert(groups_from(all_views).take(all@.len() as int) =~= groups_from(all_views));
    Some(Ok(User { uid, gid, name: owned(name.as_str()), group: owned(group.as_str()), groups }))
}

impl User {
    /// Reads a user from the output of `id`: ids, names and every group.
    pub fn from_id_cmd_string(id_stdout: &str) -> (r: Result<User, Error>)
        requires
            !id_groups_unreadable(id_stdout@),
        ensures
            match user_from_id_output(id_stdout@) {
                Ok(t) => r matches Ok(u) && user_view(u) == t,
                Err((true, m)) => r matches Err(Error::SafetyError(e)) && e@ == m,
                Err((false, m)) => r matches Err(Error::SystemError(e)) && e@ == m,
            },
    {
        match read_user(id_stdout) {
            Some(r) => r,
            None => {
                assert(false);
                Err(Error::SystemError(String::new()))
            },
        }
    }

    /// Like `from_id_cmd_string`, but `None` where a group number does not
    /// read (output that `from_id_cmd_string` does not take).
    pub fn checked_from_id_cmd_string(id_stdout: &str) -> (r: Option<Result<User, Error>>)
        ensures
            id_groups_unreadable(id_stdout@) <==> r is None,
            match r {
                Some(res) => match user_from_id_output(id_stdout@) {
                    Ok(t) => res matches Ok(u) && user_view(u) == t,
                    Err((true, m)) => res matches Err(Error::SafetyError(e)) && e@ == m,
                    Err((false, m)) => res matches Err(Error::SystemError(e)) && e@ == m,
                },
                None => true,
            },
    {
        read_user(id_stdout)
    }

    /// The user id.
    pub fn uid(&self) -> (r: u32)
        ensures
            r == self.uid,
    {
        self.uid
    }

    /// The id of the user's group.
    pub fn gid(&self) -> (r: u32)
        ensures
            r == self.gid,
    {
        self.gid
    }

    /// The user name.
    pub fn name(&self) -> (r: String)
        ensures
            r@ == self.name@,
    {
        owned(self.name.as_str())
    }
}

/// What launchd's XPC variables say of the process environment.
#[derive(Debug, PartialEq, Eq, PartialOrd, Ord)]
pub struct XPC {
    pub null_bootstrap: Option<bool>,
    pub flags: Option<Vec<u8>>,
    pub service_name: Option<String>,
}

/// The bytes that `sanitation::from_hex` reads from a hexadecimal text, or
/// `None` where it refuses the text.
pub uninterp spec fn hex_decoded(hex: Seq<char>) -> Option<Seq<u8>>;

/// Calls `sanitation::from_hex`: the bytes spelled by the text, `None` where
/// it returns an error. Its source refuses the empty text first.
#[verifier::external_body]
fn from_hex(hex: &str) -> (r: Option<Vec<u8>>)
    ensures
        match r {
            Some(b) => hex_decoded(hex@) == Some(b@),
            None => hex_decoded(hex@) is None,
        },
        hex@.len() == 0 ==> r is None,
{
    match sanitation::from_hex(hex) {
        Ok(bytes) => Some(bytes),
        Err(_) => None,
    }
}

/// Calls `sanitation::SBoolean::new(value).value()`: `false` for zero and
/// `true` for any other byte.
#[verifier::external_body]
fn byte_truth(value: u8) -> (r: bool)
    ensures
        r == (value != 0),
{
    sanitation::SBoolean::new(value).value()
}

/// The flag that `XPC_NULL_BOOTSTRAP` gives: a decimal byte read as a
/// truth value, `None` where the variable is unset or is no byte.
pub open spec fn null_bootstrap_of(text: Option<Seq<char>>) -> Option<bool> {
    match text {
        Some(t) => match u32_from_text(t) {
            Ok(v) => if v < 256 { Some(v != 0) } else { None },
            Err(_) => None,
        },
        None => None,
    }
}

impl XPC {
    /// The XPC settings given the values of `XPC_NULL_BOOTSTRAP`, `XPC_FLAGS`
    /// and `XPC_SERVICE_NAME` (`None` for a variable that is not set).
    pub fn from_vars(
        null_bootstrap: Option<&str>,
        flags: Option<&str>,
        service_name: Option<String>,
    ) -> (r: XPC)
        ensures
            r.null_bootstrap == null_bootstrap_of(
                match null_bootstrap {
                    Some(t) => Some(t@),
                    None => None,
                },
            ),
            match flags {
                Some(f) => match r.flags {
                    Some(b) => hex_decoded(f@) == Some(b@),
                    None => hex_decoded(f@) is None,
                },
                None => r.flags is None,
            },
            r.service_name == service_name,
    {
        let nb = match null_bootstrap {
            Some(t) => match u32_from_str(t) {
                Ok(v) => if v < 256 {
                    Some(byte_truth(v as u8))
                } else {
                    None
                },
                Err(_) => None,
            },
            None => None,
        };
        let fl = match flags {
            Some(f) => from_hex(f),
            None => None,
        };
        XPC { null_bootstrap: nb, flags: fl, service_name }
    }
}

/// The fields of `s` between the characters `c` (`str::split`), empty ones
/// included.
pub open spec fn split_on(s: Seq<char>, c: char) -> Seq<Seq<char>>
    decreases s.len(),
{
    if s.len() == 0 {
        seq![Seq::empty()]
    } else {
        let rest = split_on(s.drop_last(), c);
        if s.last() == c {
            rest.push(Seq::empty())
        } else {
            rest.update(rest.len() - 1, rest.last().push(s.last()))
        }
    }
}

pub proof fn lemma_split_on_nonempty(s: Seq<char>, c: char)
    ensures
        split_on(s, c).len() >= 1,
    decreases s.len(),
{
    if s.len() > 0 {
        lemma_split_on_nonempty(s.drop_last(), c);
    }
}

/// Splits `s` at every `c`.
pub fn split_fields(s: &str, c: char) -> (r: Vec<String>)
    ensures
        r@.map_values(|f: String| f@) == split_on(s@, c),
{
    let v = chars_of(s);
    let mut done: Vec<String> = Vec::new();
    let mut cur: Vec<char> = Vec::new();
    let mut i: usize = 0;
    assert(v@.take(0) =~= Seq::<char>::empty());
    assert(done@.map_values(|f: String| f@).push(cur@) =~= split_on(v@.take(0), c));
    while i < v.len()
        invariant
            i <= v@.len(),
            done@.map_values(|f: String| f@).push(cur@) == split_on(v@.take(i as int), c),
        decreases v.len() - i,
    {
        assert(v@.take(i + 1).drop_last() =~= v@.take(i as int));
        assert(v@.take(i + 1).last() == v@[i as int]);
        let ghost before = done@.map_values(|f: String| f@);
        let ghost cur_old = cur@;
        if v[i] == c {
            let f = string_from(&cur);
            done.push(f);
            cur = Vec::new();
            assert(done@.map_values(|f: String| f@) =~= before.push(f@));
            assert(done@.map_values(|f: String| f@).push(cur@) =~= before.push(f@).push(Seq::empty()));
        } else {
            cur.push(v[i]);
            assert(done@.map_values(|f: String| f@) =~= before);
            let ghost rest = split_on(v@.take(i as int), c);
            assert(rest == before.push(cur_old));
            assert(before.push(cur@) =~= rest.update(rest.len() - 1, rest.last().push(v@[i as int])));
        }
        i = i + 1;
    }
    assert(v@.take(v@.len() as int) =~= v@);
    let last = string_from(&cur);
    let ghost before = done@.map_values(|f: String| f@);
    done.push(last);
    assert(done@.map_values(|f: String| f@) =~= before.push(cur@));
    done
}

/// Whether the first line from `n` on that starts with `name:` has at least
/// three fields (input that `unix_user_info_home` does not take otherwise).
pub open spec fn passwd_fields_ok(lines: Seq<Seq<char>>, name: Seq<char>, n: nat) -> bool
    decreases lines.len() - n,
{
    if n >= lines.len() {
        true
    } else if has_prefix(lines[n as int], name.push(':')) {
        split_on(lines[n as int], ':').len() >= 3
    } else {
        passwd_fields_ok(lines, name, n + 1)
    }
}

/// The home directory recorded for `name` in the lines of the file `path`
/// (`/etc/passwd`), looking from line `n` on: the seventh field of the first
/// line that starts with `name:` (the ninth where it has ten fields), once
/// its third field is `uid`; or the message of why not.
pub open spec fn passwd_home(lines: Seq<Seq<char>>, path: Seq<char>, name: Seq<char>, uid: u32, n: nat) -> Result<Seq<char>, Seq<char>>
    decreases lines.len() - n,
{
    if n >= lines.len() {
        Err("home not found in "@ + path + " for uid "@ + decimal(uid as nat) + " ("@ + name + ")"@)
    } else if !has_prefix(lines[n as int], name.push(':')) {
        passwd_home(lines, path, name, uid, n + 1)
    } else {
        let f = split_on(lines[n as int], ':');
        let location = path + ":"@ + decimal(n + 1);
        if f[2] != decimal(uid as nat) {
            Err("unexpected uid in "@ + debug_quoted(location) + ": "@ + f[2] + " != "@ + decimal(uid as nat))
        } else if f.len() == 7 {
            Ok(f[6])
        } else if f.len() == 10 {
            Ok(f[8])
        } else {
            Err("unexpected number of fields in "@ + debug_quoted(location) + " "@ + decimal(f.len()))
        }
    }
}

/// Finds the home directory of `name` (with id `uid`) in the `lines` of the
/// file `path`.  The caller then checks that it is a directory owned by the
/// user (`path_owned_expectedly`).
pub fn unix_user_info_home(lines: &Vec<String>, path: &str, name: &str, uid: u32) -> (r: Result<String, Error>)
    requires
        passwd_fields_ok(lines@.map_values(|l: String| l@), name@, 0),
    ensures
        match passwd_home(lines@.map_values(|l: String| l@), path@, name@, uid, 0) {
            Ok(h) => r matches Ok(s) && s@ == h,
            Err(m) => r matches Err(Error::SystemError(e)) && e@ == m,
        },
{
    let ghost ls = lines@.map_values(|l: String| l@);
    let mut prefix = owned(name);
    push_char(&mut prefix, ':');
    let pv = chars_of(prefix.as_str());
    let mut n: usize = 0;
    while n < lines.len()
        invariant
            ls == lines@.map_values(|l: String| l@),
            pv@ == name@.push(':'),
            n <= lines@.len(),
            passwd_fields_ok(ls, name@, n as nat),
            passwd_home(ls, path@, name@, uid, 0) == passwd_home(ls, path@, name@, uid, n as nat),
        decreases lines.len() - n,
    {
        let line = chars_of(lines[n].as_str());
        assert(ls[n as int] == lines@[n as int]@);
        if vec_starts_with(&line, &pv) {
            let fields = split_fields(lines[n].as_str(), ':');
            let ghost fs = fields@.map_values(|f: String| f@);
            assert(fs.len() >= 3);
            let mut location = owned(path);
            location.append(":");
            push_decimal(&mut location, n as u64 + 1);
            let uid_text = crate::text::to_decimal(uid as u64);
            let f2 = chars_of(fields[2].as_str());
            let ut = chars_of(uid_text.as_str());
            assert(fs[2] == fields@[2]@);
            if !vec_eq(&f2, &ut) {
                let mut m = owned("unexpected uid in ");
                let q = debug_text(location.as_str());
                m.append(q.as_str());
                m.append(": ");
                m.append(fields[2].as_str());
                m.append(" != ");
                push_decimal(&mut m, uid as u64);
                return Err(Error::SystemError(m));
            }
            if fields.len() == 7 {
                assert(fs[6] == fields@[6]@);
                return Ok(owned(fields[6].as_str()));
            }
            if fields.len() == 10 {
                assert(fs[8] == fields@[8]@);
                return Ok(owned(fields[8].as_str()));
            }
            let mut m = owned("unexpected number of fields in ");
            let q = debug_text(location.as_str());
            m.append(q.as_str());
            m.append(" ");
            push_decimal(&mut m, fields.len() as u64);
            return Err(Error::SystemError(m));
        }
        n = n + 1;
    }
    let mut m = owned("home not found in ");
    m.append(path);
    m.append(" for uid ");
    push_decimal(&mut m, uid as u64);
    m.append(" (");
    m.append(name);
    m.append(")");
    Err(Error::SystemError(m))
}

/// Accepts `path` as the home of `user` when its owner `owner_uid` (read by
/// the caller) is `uid`.
pub fn path_owned_expectedly(path: crate::path::Path, user: &str, uid: u32, owner_uid: u32) -> (r: Result<crate::path::Path, Error>)
    ensures
        owner_uid == uid ==> (r matches Ok(p) && p@ == path@),
        owner_uid != uid ==> (r matches Err(Error::SystemError(e)) && e@ == debug_quoted(path@)
            + " ain't owned by uid "@ + decimal(uid as nat) + " ("@ + debug_quoted(user@) + ")"@),
{
    if owner_uid == uid {
        Ok(path)
    } else {
        let mut m = debug_text(path.as_str());
        m.append(" ain't owned by uid ");
        push_decimal(&mut m, uid as u64);
        m.append(" (");
        let q = debug_text(user);
        m.append(q.as_str());
        m.append(")");
        Err(Error::SystemError(m))
    }
}

/// The directories where a Unix home of `user` may be: `/home/<user>` and
/// `/Users/<user>`, with runs of separators collapsed.
pub fn unix_home_candidates(user: &str) -> (r: (String, String))
    ensures
        r.0@ == collapse_separators("/home/"@ + user@),
        r.1@ == collapse_separators("/Users/"@ + user@),
{
    let mut a = owned("/home/");
    a.append(user);
    let mut b = owned("/Users/");
    b.append(user);
    (remove_duplicate_separators(a.as_str()), remove_duplicate_separators(b.as_str()))
}

/// Picks the home of `user` among `unix_home_candidates`: the first that the
/// caller found to be a directory.
pub fn guess_unix_home(user: &str, home_is_dir: bool, users_is_dir: bool) -> (r: Result<String, Error>)
    ensures
        home_is_dir ==> (r matches Ok(s) && s@ == collapse_separators("/home/"@ + user@)),
        !home_is_dir && users_is_dir ==> (r matches Ok(s) && s@ == collapse_separators("/Users/"@ + user@)),
        !home_is_dir && !users_is_dir ==> (r matches Err(Error::HomePathError(e)) && e@
            == "neither paths seem to be home of user "@ + debug_quoted(user@)),
{
    let (a, b) = unix_home_candidates(user);
    if home_is_dir {
        Ok(a)
    } else if users_is_dir {
        Ok(b)
    } else {
        let mut m = owned("neither paths seem to be home of user ");
        let q = debug_text(user);
        m.append(q.as_str());
        Err(Error::HomePathError(m))
    }
}

} // verus!

verus! {

/// One step of reading digits: the value `v` read so far followed by `c`.
pub open spec fn digit_step(v: nat, c: char, radix: u32) -> Result<u32, NumberFailure> {
    if !is_digit_in(c, radix) {
        Err(NumberFailure::InvalidDigit)
    } else if v * radix + digit_value(c) > u32::MAX {
        Err(NumberFailure::PosOverflow)
    } else {
        Ok((v * radix + digit_value(c)) as u32)
    }
}

proof fn lemma_digits_push(a: Seq<char>, c: char, acc: nat, radix: u32)
    requires
        acc <= u32::MAX,
    ensures
        digits_value(a.push(c), acc, radix) == match digits_value(a, acc, radix) {
            Ok(v) => digit_step(v as nat, c, radix),
            Err(e) => Err(e),
        },
    decreases a.len(),
{
    if a.len() == 0 {
        let s = a.push(c);
        assert(s.drop_first() =~= Seq::<char>::empty());
        assert(s[0] == c);
        assert(digits_value(a, acc, radix) == Ok::<u32, NumberFailure>(acc as u32));
        if is_digit_in(c, radix) && acc * radix + digit_value(c) <= u32::MAX {
            assert(digits_value(s.drop_first(), (acc * radix + digit_value(c)) as nat, radix)
                == Ok::<u32, NumberFailure>((acc * radix + digit_value(c)) as u32));
        }
    } else {
        assert(a.push(c).drop_first() =~= a.drop_first().push(c));
        assert(a.push(c)[0] == a[0]);
        if is_digit_in(a[0], radix) && acc * radix + digit_value(a[0]) <= u32::MAX {
            lemma_digits_push(a.drop_first(), c, (acc * radix + digit_value(a[0])) as nat, radix);
        }
    }
}

proof fn lemma_decimal_digits(m: nat)
    ensures
        decimal(m).len() > 0,
        is_digit_in(decimal(m)[0], 10),
        m <= u32::MAX ==> digits_value(decimal(m), 0, 10) == Ok::<u32, NumberFailure>(m as u32),
    decreases m,
{
    if m < 10 {
        let c = crate::text::digit_char(m);
        assert(decimal(m) =~= seq![c]);
        assert(is_digit_in(c, 10) && digit_value(c) == m);
        lemma_digits_push(Seq::<char>::empty(), c, 0, 10);
        assert(Seq::<char>::empty().push(c) =~= seq![c]);
        assert(digits_value(Seq::<char>::empty(), 0, 10) == Ok::<u32, NumberFailure>(0));
    } else {
        lemma_decimal_digits(m / 10);
        let c = crate::text::digit_char(m % 10);
        assert(is_digit_in(c, 10) && digit_value(c) == m % 10);
        assert(decimal(m) == decimal(m / 10).push(c));
        assert(decimal(m)[0] == decimal(m / 10)[0]);
        if m <= u32::MAX {
            lemma_digits_push(decimal(m / 10), c, 0, 10);
            assert((m / 10) * 10 + m % 10 == m);
        }
    }
}

/// Reading back the decimal text of a `u32` gives the number.
pub proof fn lemma_u32_decimal_roundtrip(n: u32)
    ensures
        u32_from_text(decimal(n as nat)) == Ok::<u32, NumberFailure>(n),
{
    lemma_decimal_digits(n as nat);
    let d = decimal(n as nat);
    assert(d[0] != '+' && d[0] != '-');
}

} // verus!
