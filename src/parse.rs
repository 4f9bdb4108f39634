//! Reading authentication log lines (file lines and syslog messages) into
//! `LogEvent`s: the source address, the principal after "for ", and the
//! kind of event.
use crate::event::{EventView, LogEvent};
use crate::text::{chars_of, contains_str, contains_text, first_index, index_of};
use vstd::prelude::*;
use vstd::string::StringExecFns;

verus! {

/// The text of the first match of the regular expression `pattern` in
/// `hay`; none when there is no match or the pattern does not compile.
pub uninterp spec fn regex_first_match(pattern: Seq<char>, hay: Seq<char>) -> Option<Seq<char>>;

/// Views of an optional string.
pub open spec fn opt_text(r: Option<String>) -> Option<Seq<char>> {
    match r {
        Some(s) => Some(s@),
        None => None,
    }
}

/// Relies on `regex::Regex::new`, `Regex::find` and `Match::as_str`: the
/// text of the leftmost-first match of `pattern` in `hay`.
#[verifier::external_body]
fn first_match(pattern: &str, hay: &str) -> (r: Option<String>)
    ensures
        opt_text(r) == regex_first_match(pattern@, hay@),
{
    match regex::Regex::new(pattern) {
        Ok(re) => match re.find(hay) {
            Some(m) => Some(m.as_str().to_string()),
            None => None,
        },
        Err(_) => None,
    }
}

/// The pattern that picks the candidate IPv4 address out of a line.
pub open spec fn ipv4_pattern() -> Seq<char> {
    r"\b(\d{1,3}\.\d{1,3}\.\d{1,3}\.\d{1,3})\b"@
}

pub open spec fn is_digit(c: char) -> bool {
    '0' <= c <= '9'
}

pub open spec fn digits_value(s: Seq<char>) -> nat
    decreases s.len(),
{
    if s.len() == 0 {
        0
    } else {
        digits_value(s.drop_last()) * 10 + ((s.last() as u32) - 48) as nat
    }
}

/// One decimal octet as the standard library reads it: one to three ASCII
/// digits, no leading zero, at most 255.
pub open spec fn octet_ok(s: Seq<char>) -> bool {
    &&& 1 <= s.len() <= 3
    &&& forall|i: int| 0 <= i < s.len() ==> is_digit(#[trigger] s[i])
    &&& (s.len() == 1 || s[0] != '0')
    &&& digits_value(s) <= 255
}

/// The pieces of `s` between dots, in order (one more than the dots).
pub open spec fn split_on_dot(s: Seq<char>) -> Seq<Seq<char>>
    decreases s.len(),
{
    if s.len() == 0 {
        seq![Seq::empty()]
    } else {
        let rest = split_on_dot(s.drop_last());
        if s.last() == '.' {
            rest.push(Seq::empty())
        } else {
            rest.update(rest.len() - 1, rest.last().push(s.last()))
        }
    }
}

/// Dotted-quad IPv4 text in canonical form.
pub open spec fn is_ipv4_text(s: Seq<char>) -> bool {
    let f = split_on_dot(s);
    f.len() == 4 && forall|i: int| 0 <= i < 4 ==> octet_ok(#[trigger] f[i])
}

/// The principal named after the first "for ", up to the next space;
/// "unknown" when either is missing.
pub open spec fn user_of_line(line: Seq<char>) -> Seq<char> {
    match first_index(line, "for "@) {
        None => "unknown"@,
        Some(pos) => {
            let after = line.subrange(pos + 4, line.len() as int);
            match first_index(after, " "@) {
                Some(end) => after.subrange(0, end),
                None => "unknown"@,
            }
        },
    }
}

/// The kind of event a line reports.
pub open spec fn kind_of_line(line: Seq<char>) -> Seq<char> {
    if contains_text(line, "Accepted"@) || contains_text(line, "Successful"@) {
        "SSH_LOGIN"@
    } else if contains_text(line, "Failed"@) || contains_text(line, "Invalid"@) {
        "SSH_FAILED"@
    } else {
        "UNKNOWN"@
    }
}

/// The event read from `line` stamped `timestamp`, given the candidate
/// address found in it: none when the candidate is not a valid IPv4
/// address; `0.0.0.0` when there is no candidate.
pub open spec fn parsed_line(line: Seq<char>, candidate: Option<Seq<char>>, timestamp: i64) -> Option<
    EventView,
> {
    let ip = match candidate {
        Some(t) => t,
        None => "0.0.0.0"@,
    };
    if candidate is Some && !is_ipv4_text(ip) {
        None
    } else {
        Some(
            EventView {
                timestamp,
                user: user_of_line(line),
                ip,
                kind: kind_of_line(line),
            },
        )
    }
}

/// Why a line could not be read.
#[derive(Debug, Clone, PartialEq, Eq)]
pub enum ParseError {
    /// The address-shaped text found in the line is not an IPv4 address.
    InvalidAddress(String),
}

fn split_exec(t: &Vec<char>) -> (r: Vec<Vec<char>>)
    ensures
        r@.map_values(|f: Vec<char>| f@) == split_on_dot(t@),
{
    let n = t.len();
    let mut done: Vec<Vec<char>> = Vec::new();
    let mut current: Vec<char> = Vec::new();
    let mut i: usize = 0;
    while i < n
        invariant
            n == t@.len(),
            i <= n,
            done@.map_values(|f: Vec<char>| f@).push(current@) == split_on_dot(t@.take(i as int)),
        decreases n - i,
    {
        let c = t[i];
        let ghost prev_done = done@.map_values(|f: Vec<char>| f@);
        let ghost prev_current = current@;
        assert(t@.take(i + 1).drop_last() =~= t@.take(i as int));
        if c == '.' {
            let finished = current;
            done.push(finished);
            current = Vec::new();
            assert(done@.map_values(|f: Vec<char>| f@) =~= prev_done.push(prev_current));
            assert(done@.map_values(|f: Vec<char>| f@).push(current@) =~= split_on_dot(
                t@.take(i + 1),
            ));
        } else {
            current.push(c);
            assert(done@.map_values(|f: Vec<char>| f@).push(current@) =~= prev_done.push(
                prev_current,
            ).update(prev_done.len() as int, prev_current.push(c)));
        }
        i += 1;
    }
    assert(t@.take(n as int) =~= t@);
    done.push(current);
    assert(done@.map_values(|f: Vec<char>| f@) =~= split_on_dot(t@));
    done
}

fn octet_ok_exec(s: &Vec<char>) -> (r: bool)
    ensures
        r == octet_ok(s@),
{
    let n = s.len();
    if n < 1 || n > 3 {
        return false;
    }
    let mut value: u32 = 0;
    let mut i: usize = 0;
    while i < n
        invariant
            n == s@.len(),
            1 <= n <= 3,
            i <= n,
            forall|k: int| 0 <= k < i ==> is_digit(#[trigger] s@[k]),
            value == digits_value(s@.take(i as int)),
            i == 0 ==> value == 0,
            i == 1 ==> value < 10,
            i == 2 ==> value < 100,
            i == 3 ==> value < 1000,
        decreases n - i,
    {
        let c = s[i];
        if !('0' <= c && c <= '9') {
            return false;
        }
        assert(s@.take(i + 1).drop_last() =~= s@.take(i as int));
        value = value * 10 + (c as u32 - 48);
        i += 1;
    }
    assert(s@.take(n as int) =~= s@);
    (n == 1 || s[0] != '0') && value <= 255
}

fn is_ipv4_exec(t: &Vec<char>) -> (r: bool)
    ensures
        r == is_ipv4_text(t@),
{
    let fields = split_exec(t);
    let ghost fv = fields@.map_values(|f: Vec<char>| f@);
    if fields.len() != 4 {
        return false;
    }
    let mut i: usize = 0;
    while i < 4
        invariant
            fields@.len() == 4,
            fv == split_on_dot(t@),
            fv == fields@.map_values(|f: Vec<char>| f@),
            i <= 4,
            forall|k: int| 0 <= k < i ==> octet_ok(#[trigger] fv[k]),
        decreases 4 - i,
    {
        assert(fv[i as int] == fields@[i as int]@);
        if !octet_ok_exec(&fields[i]) {
            return false;
        }
        i += 1;
    }
    true
}

fn user_exec(line: &str, chars: &Vec<char>) -> (r: String)
    requires
        chars@ == line@,
    ensures
        r@ == user_of_line(line@),
{
    let marker = chars_of("for ");
    match index_of(chars, &marker) {
        None => String::from_str("unknown"),
        Some(pos) => {
            proof {
                reveal_strlit("for ");
                crate::text::lemma_find_from_occurs(line@, "for "@, 0);
            }
            let n = chars.len();
            let after = line.substring_char(pos + 4, n);
            let after_chars = chars_of(after);
            let space = chars_of(" ");
            proof {
                crate::text::lemma_find_from_occurs(after@, " "@, 0);
            }
            match index_of(&after_chars, &space) {
                Some(end) => String::from_str(after.substring_char(0, end)),
                None => String::from_str("unknown"),
            }
        },
    }
}

fn kind_exec(chars: &Vec<char>) -> (r: String)
    ensures
        r@ == kind_of_line(chars@),
{
    if contains_str(chars, "Accepted") || contains_str(chars, "Successful") {
        String::from_str("SSH_LOGIN")
    } else if contains_str(chars, "Failed") || contains_str(chars, "Invalid") {
        String::from_str("SSH_FAILED")
    } else {
        String::from_str("UNKNOWN")
    }
}

/// Reads `line` into an event stamped `timestamp`, given the candidate
/// address text found in it (see `parse_log_line`).
pub fn parse_log_line_with(line: &str, candidate: Option<String>, timestamp: i64) -> (r: Result<
    LogEvent,
    ParseError,
>)
    ensures
        match r {
            Ok(ev) => parsed_line(line@, opt_text(candidate), timestamp) == Some(ev@),
            Err(ParseError::InvalidAddress(t)) => opt_text(candidate) == Some(t@) && parsed_line(
                line@,
                opt_text(candidate),
                timestamp,
            ) is None,
        },
{
    let ip = match candidate {
        Some(t) => {
            let tc = chars_of(t.as_str());
            if !is_ipv4_exec(&tc) {
                return Err(ParseError::InvalidAddress(t));
            }
            t
        },
        None => String::from_str("0.0.0.0"),
    };
    let chars = chars_of(line);
    let user = user_exec(line, &chars);
    let event_type = kind_exec(&chars);
    Ok(LogEvent { timestamp, user, ip_address: ip, event_type })
}

/// Reads an authentication log line into an event stamped `timestamp`
/// (the time it was read). The first dotted-quad text in the line is the
/// source address (`0.0.0.0` when there is none); the line is refused when
/// that text is not a valid IPv4 address.
pub fn parse_log_line(line: &str, timestamp: i64) -> (r: Result<LogEvent, ParseError>)
    ensures
        match r {
            Ok(ev) => parsed_line(line@, regex_first_match(ipv4_pattern(), line@), timestamp)
                == Some(ev@),
            Err(_) => parsed_line(line@, regex_first_match(ipv4_pattern(), line@), timestamp) is None,
        },
{
    let candidate = first_match(r"\b(\d{1,3}\.\d{1,3}\.\d{1,3}\.\d{1,3})\b", line);
    parse_log_line_with(line, candidate, timestamp)
}

/// Reads a syslog message received at `timestamp`; the same reading as a
/// log file line.
pub fn parse_syslog_message(message: &str, timestamp: i64) -> (r: Result<LogEvent, ParseError>)
    ensures
        match r {
            Ok(ev) => parsed_line(message@, regex_first_match(ipv4_pattern(), message@), timestamp)
                == Some(ev@),
            Err(_) => parsed_line(message@, regex_first_match(ipv4_pattern(), message@), timestamp)
                is None,
        },
{
    parse_log_line(message, timestamp)
}

} // verus!
