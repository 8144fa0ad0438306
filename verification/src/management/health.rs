//! The daemon's own web door, asked one question.
//!
//! The finish gate is `hello` *and* `/health/live` answering 200 on the origin
//! `hello` published. This module holds what that check decides: how the
//! published origin is read, what request is written to it, and what a status
//! line means. The connection itself is opened, written and read by the
//! application, which hands the status line back here.
//!
//! `/health/live` rather than `/health/ready`: readiness answers whether the
//! daemon has finished warming, which would keep the assistant waiting long
//! after the thing it is waiting for works.

use vstd::prelude::*;
use crate::text::{
    all_digits, chars_eq, chars_of, concat3, decimal, decimal_string, find_first, find_last,
    first_at, is_prefix, last_at, parse_u16, parsed_u16, slice_chars, string_of, push_str,
    trim_end, trimmed_end,
};

verus! {

/// The path the daemon publishes its liveness on.
pub const HEALTH_PATH: &'static str = "/health/live";

/// The most a status line may be. A peer that answers more than this before its
/// first newline is not answering the question that was asked.
pub const STATUS_LINE_CEILING: usize = 8192;

/// What one look at the web door found.
#[derive(Debug, Clone, PartialEq, Eq)]
pub enum Health {
    /// The door answered 200: the daemon's web surface is up.
    Live,
    /// Something is accepting on that origin and it did not answer 200. On the
    /// origin the daemon needs, that is something else holding the port.
    Occupied(String),
    /// Nothing is accepting there at all.
    Unreachable,
}

/// Where to ask. Read from the origin `hello` publishes.
#[derive(Debug, Clone, PartialEq, Eq)]
pub struct Origin {
    pub host: String,
    pub port: u16,
}

/// The one scheme this door speaks.
pub open spec fn http_scheme() -> Seq<char> {
    seq!['h', 't', 't', 'p', ':', '/', '/']
}

/// What stands before the first `/` of what follows the scheme.
pub open spec fn authority_part(rest: Seq<char>) -> Seq<char> {
    match first_at(rest, '/') {
        Some(i) => rest.take(i as int),
        None => rest,
    }
}

/// The host and port an origin names, or `None` where it is not of the shape
/// `http://host:port[/...]` with a non-empty host and a port that fits.
pub open spec fn origin_parts(s: Seq<char>) -> Option<(Seq<char>, u16)> {
    if !is_prefix(http_scheme(), s) {
        None
    } else {
        let auth = authority_part(s.skip(7));
        match last_at(auth, ':') {
            None => None,
            Some(i) => {
                let host = auth.take(i as int);
                if host.len() == 0 {
                    None
                } else {
                    match parsed_u16(auth.skip(i as int + 1)) {
                        None => None,
                        Some(port) => Some((host, port)),
                    }
                }
            },
        }
    }
}

/// The `host:port` an origin is reached at.
pub open spec fn authority_of(host: Seq<char>, port: u16) -> Seq<char> {
    host + seq![':'] + decimal(port as nat)
}

impl Origin {
    /// One `http://host:port` origin, read.
    ///
    /// Only the shape the daemon publishes is accepted: a scheme this door
    /// cannot speak, or a port it cannot read, is not guessed at.
    pub fn parse(origin: &str) -> (r: Option<Origin>)
        ensures
            match origin_parts(origin@) {
                None => r is None,
                Some((host, port)) => r matches Some(o) && o.host@ == host && o.port == port,
            },
    {
        let scheme = chars_of("http://");
        proof {
            reveal_strlit("http://");
            assert(scheme@ =~= http_scheme());
        }
        let all = chars_of(origin);
        if !crate::text::chars_start_with(all.as_slice(), scheme.as_slice()) {
            return None;
        }
        let rest = slice_chars(all.as_slice(), 7, all.len());
        proof {
            assert(rest@ =~= origin@.skip(7));
        }
        let end = match find_first(rest.as_slice(), '/') {
            Some(i) => i,
            None => rest.len(),
        };
        let auth = slice_chars(rest.as_slice(), 0, end);
        proof {
            match first_at(rest@, '/') {
                Some(i) => {
                    assert(end == i);
                },
                None => {
                    assert(auth@ =~= rest@);
                },
            }
            assert(auth@ =~= authority_part(origin@.skip(7)));
        }
        let colon = match find_last(auth.as_slice(), ':') {
            Some(i) => i,
            None => {
                return None;
            },
        };
        proof {
            assert(last_at(auth@, ':') == Some(colon as nat));
        }
        if colon == 0 {
            proof {
                assert(auth@.take(0).len() == 0);
            }
            return None;
        }
        let host = slice_chars(auth.as_slice(), 0, colon);
        let port_chars = slice_chars(auth.as_slice(), colon + 1, auth.len());
        proof {
            assert(host@ =~= auth@.take(colon as int));
            assert(port_chars@ =~= auth@.skip(colon + 1));
        }
        match parse_u16(port_chars.as_slice()) {
            None => None,
            Some(port) => Some(Origin { host: string_of(host.as_slice()), port }),
        }
    }

    /// The `Host` header this request carries.
    pub fn authority(&self) -> (r: String)
        ensures
            r@ == authority_of(self.host@, self.port),
    {
        let port = decimal_string(self.port as u64);
        let r = concat3(self.host.as_str(), ":", port.as_str());
        proof {
            reveal_strlit(":");
        }
        r
    }
}

/// The request written to the door: `GET /health/live` over HTTP/1.0, naming
/// the origin it is asked on and closing when the answer ends.
pub open spec fn request_text(authority: Seq<char>) -> Seq<char> {
    "GET "@ + HEALTH_PATH@ + " HTTP/1.0\r\nHost: "@ + authority + "\r\nConnection: close\r\n\r\n"@
}

/// The bytes, as text, of the one question asked of the door.
pub fn request_for(origin: &Origin) -> (r: String)
    ensures
        r@ == request_text(authority_of(origin.host@, origin.port)),
{
    let authority = origin.authority();
    let mut r = concat3("GET ", HEALTH_PATH, " HTTP/1.0\r\nHost: ");
    push_str(&mut r, authority.as_str());
    push_str(&mut r, "\r\nConnection: close\r\n\r\n");
    r
}

/// What stands before the first space, or the whole line if it has none.
pub open spec fn first_field(s: Seq<char>) -> Seq<char> {
    match first_at(s, ' ') {
        Some(i) => s.take(i as int),
        None => s,
    }
}

/// The second space-separated field, empty where the line has no space.
pub open spec fn second_field(s: Seq<char>) -> Seq<char> {
    match first_at(s, ' ') {
        Some(i) => first_field(s.skip(i as int + 1)),
        None => Seq::empty(),
    }
}

/// `HTTP/1.0`.
pub open spec fn http_10() -> Seq<char> {
    seq!['H', 'T', 'T', 'P', '/', '1', '.', '0']
}

/// `HTTP/1.1`.
pub open spec fn http_11() -> Seq<char> {
    seq!['H', 'T', 'T', 'P', '/', '1', '.', '1']
}

/// Whether a status line says 200 on a version this door speaks.
pub open spec fn status_is_ok(line: Seq<char>) -> bool {
    (first_field(line) == http_10() || first_field(line) == http_11()) && second_field(line)
        == seq!['2', '0', '0']
}

/// The first field of a line, as executable code.
fn field_of(v: &[char]) -> (r: Vec<char>)
    ensures
        r@ == first_field(v@),
{
    match find_first(v, ' ') {
        Some(i) => {
            let r = slice_chars(v, 0, i);
            proof {
                assert(first_at(v@, ' ') == Some(i as nat));
            }
            r
        },
        None => {
            let r = slice_chars(v, 0, v.len());
            proof {
                assert(r@ =~= v@);
            }
            r
        },
    }
}

/// `HTTP/1.x 200 …`, and nothing else. The engine's own health reader makes the
/// same comparison, so the two halves of this check agree about what 200 means.
pub fn is_ok(status_line: &str) -> (r: bool)
    ensures
        r == status_is_ok(status_line@),
{
    let line = chars_of(status_line);
    let version = field_of(line.as_slice());
    let code: Vec<char> = match find_first(line.as_slice(), ' ') {
        Some(i) => {
            let n = line.len();
            assert(i < n);
            let rest = slice_chars(line.as_slice(), i + 1, n);
            proof {
                assert(first_at(line@, ' ') == Some(i as nat));
                assert(rest@ =~= line@.skip(i + 1));
            }
            field_of(rest.as_slice())
        },
        None => Vec::new(),
    };
    proof {
        assert(line@.take(line@.len() as int) =~= line@);
        assert(code@ =~= second_field(line@));
    }
    let v10 = chars_of("HTTP/1.0");
    let v11 = chars_of("HTTP/1.1");
    let ok = chars_of("200");
    proof {
        reveal_strlit("HTTP/1.0");
        reveal_strlit("HTTP/1.1");
        reveal_strlit("200");
        assert(v10@ =~= http_10());
        assert(v11@ =~= http_11());
        assert(ok@ =~= seq!['2', '0', '0']);
    }
    (chars_eq(version.as_slice(), v10.as_slice()) || chars_eq(version.as_slice(), v11.as_slice()))
        && chars_eq(code.as_slice(), ok.as_slice())
}

/// What a status line read from the door means: a 200 is `Live`; any other
/// line, or none at all, is something holding the port without answering.
pub fn health_of(line: Option<String>) -> (h: Health)
    ensures
        match line {
            Some(l) => if status_is_ok(l@) {
                h is Live
            } else {
                h matches Health::Occupied(t) && t@ == l@
            },
            None => h matches Health::Occupied(t) && t@.len() == 0,
        },
{
    match line {
        Some(l) => {
            if is_ok(l.as_str()) {
                Health::Live
            } else {
                Health::Occupied(l)
            }
        },
        None => Health::Occupied(String::new()),
    }
}


/// What `String::from_utf8_lossy` makes of some bytes.
pub uninterp spec fn lossy_text(bytes: Seq<u8>) -> Seq<char>;

/// `String::from_utf8_lossy`: the bytes read as UTF-8, each sequence that is
/// not UTF-8 replaced by U+FFFD. Where every byte is ASCII, the text is those
/// bytes, one character each, which is what UTF-8 makes of ASCII.
#[verifier::external_body]
fn utf8_lossy(bytes: &[u8]) -> (r: String)
    ensures
        r@ == lossy_text(bytes@),
        (forall|i: int| 0 <= i < bytes@.len() ==> #[trigger] bytes@[i] < 128) ==> r@ == bytes@.map_values(
            |b: u8| b as char,
        ),
{
    String::from_utf8_lossy(bytes).into_owned()
}

/// The bytes before the first newline, or all of them where there is none.
pub open spec fn before_newline(bytes: Seq<u8>) -> Seq<u8>
    decreases bytes.len(),
{
    if bytes.len() == 0 {
        bytes
    } else if bytes[0] == 10u8 {
        Seq::empty()
    } else {
        seq![bytes[0]] + before_newline(bytes.drop_first())
    }
}

/// Whether a read has got far enough to stop: a newline has arrived, or the
/// ceiling on a status line has been reached.
pub fn line_is_in(collected: &[u8]) -> (r: bool)
    ensures
        r == (collected@.contains(10u8) || collected@.len() >= STATUS_LINE_CEILING),
{
    if collected.len() >= STATUS_LINE_CEILING {
        return true;
    }
    let mut i: usize = 0;
    while i < collected.len()
        invariant
            i <= collected@.len(),
            forall|k: int| 0 <= k < i ==> collected@[k] != 10u8,
        decreases collected@.len() - i,
    {
        if collected[i] == 10u8 {
            return true;
        }
        i = i + 1;
    }
    false
}

/// The status line the bytes read so far carry: the text before the first
/// newline, without trailing white space, and nothing where nothing came
/// before it.
pub fn status_line_of(collected: &[u8]) -> (r: Option<String>)
    ensures
        before_newline(collected@).len() == 0 ==> r is None,
        before_newline(collected@).len() > 0 ==> (r matches Some(line) && line@ == trimmed_end(
            lossy_text(before_newline(collected@)),
        )),
{
    let mut cut: Vec<u8> = Vec::new();
    let mut i: usize = 0;
    proof {
        assert(collected@.skip(0) =~= collected@);
    }
    while i < collected.len() && collected[i] != 10u8
        invariant
            i <= collected@.len(),
            before_newline(collected@) == cut@ + before_newline(collected@.skip(i as int)),
        decreases collected@.len() - i,
    {
        let ghost rest = collected@.skip(i as int);
        proof {
            assert(rest.drop_first() =~= collected@.skip(i + 1));
            assert(cut@.push(collected@[i as int]) + before_newline(rest.drop_first())
                =~= cut@ + (seq![rest[0]] + before_newline(rest.drop_first())));
        }
        cut.push(collected[i]);
        i = i + 1;
    }
    proof {
        let rest = collected@.skip(i as int);
        if i < collected@.len() {
            assert(rest[0] == 10u8);
        } else {
            assert(rest =~= Seq::<u8>::empty());
        }
        assert(before_newline(rest) =~= Seq::<u8>::empty());
        assert(cut@ + Seq::<u8>::empty() =~= cut@);
    }
    if cut.len() == 0 {
        return None;
    }
    let text = utf8_lossy(cut.as_slice());
    Some(trim_end(text.as_str()))
}

} // verus!
