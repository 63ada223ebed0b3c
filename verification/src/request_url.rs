//! The URLs of the request/response endpoint:
//! `{scheme}://localhost/ipc/spawn/{command}` starts a command and
//! `{scheme}://localhost/ipc/poll/{id}` asks for its result.

use vstd::prelude::*;
use vstd::string::StringSliceAdditionalSpecFns;
use vstd::utf8::is_char_boundary;
use crate::int_parse::parse_bounded;
use crate::secure_arena_id::SecureArenaId;
use crate::text::{lemma_ascii_literal, skip_bytes, split_once_byte, split_once_spec, str_eq};

verus! {

/// A parsed request URL; the command name borrows from the URL.
#[derive(Debug, PartialEq, Eq)]
pub enum RequestUrl<'a> {
    IpcSpawn(&'a str),
    IpcPoll(SecureArenaId),
}

/// What a [`RequestUrl`] stands for: the bytes of the command name, or the
/// raw value of the polled id.
pub enum RequestUrlView {
    IpcSpawn(Seq<u8>),
    IpcPoll(u64),
}

impl<'a> RequestUrl<'a> {
    pub open spec fn view(self) -> RequestUrlView {
        match self {
            RequestUrl::IpcSpawn(c) => RequestUrlView::IpcSpawn(c.spec_bytes()),
            RequestUrl::IpcPoll(id) => RequestUrlView::IpcPoll(id.raw()),
        }
    }
}

/// The part of a URL after its prefix: `ipc/spawn/{command}`, where the
/// command is everything after the second `/`, or `ipc/poll/{id}` with a
/// decimal `u64`.
pub open spec fn url_tail_spec(b: Seq<u8>) -> Option<RequestUrlView> {
    match split_once_spec(b, 0x2f) {
        None => None,
        Some((category, rest)) => if category == "ipc".spec_bytes() {
            match split_once_spec(rest, 0x2f) {
                None => None,
                Some((op, arg)) => if op == "spawn".spec_bytes() {
                    Some(RequestUrlView::IpcSpawn(arg))
                } else if op == "poll".spec_bytes() {
                    match parse_bounded(arg, 10, u64::MAX as nat) {
                        Some(v) => Some(RequestUrlView::IpcPoll(v as u64)),
                        None => None,
                    }
                } else {
                    None
                },
            }
        } else {
            None
        },
    }
}

/// A whole URL whose prefix is `prefix_len` bytes long: it must be longer
/// than the prefix, and what follows the prefix must be a valid tail.
pub open spec fn request_url_spec(prefix_len: nat, b: Seq<u8>) -> Option<RequestUrlView> {
    if b.len() <= prefix_len {
        None
    } else {
        url_tail_spec(b.skip(prefix_len as int))
    }
}

/// Parses the URLs of one scheme.
pub struct RequestUrlParser {
    url_prefix_len: usize,
}

impl RequestUrlParser {
    /// The byte length of `{scheme}://localhost/`: the scheme's bytes and 13.
    pub closed spec fn prefix_len(self) -> nat {
        self.url_prefix_len as nat
    }

    /// A parser for the scheme `name`.
    pub fn new(name: &str) -> (r: Self)
        requires
            name.spec_bytes().len() + 13 <= usize::MAX,
        ensures
            r.prefix_len() == name.spec_bytes().len() + 13,
    {
        proof {
            reveal_strlit("://localhost/");
            lemma_ascii_literal("://localhost/");
        }
        Self { url_prefix_len: name.len() + "://localhost/".len() }
    }

    /// The byte length of the prefix that [`RequestUrlParser::parse`] skips.
    pub fn url_prefix_len(&self) -> (r: usize)
        ensures
            r as nat == self.prefix_len(),
    {
        self.url_prefix_len
    }

    /// Parses `url`, skipping the scheme's prefix unread.
    pub fn parse<'a>(&self, url: &'a str) -> (r: Result<RequestUrl<'a>, ()>)
        requires
            url.spec_bytes().len() <= self.prefix_len() || is_char_boundary(
                url.spec_bytes(),
                self.prefix_len() as int,
            ),
        ensures
            match r {
                Ok(u) => request_url_spec(self.prefix_len(), url.spec_bytes()) == Some(u.view()),
                Err(_) => request_url_spec(self.prefix_len(), url.spec_bytes()) is None,
            },
    {
        let len = url.as_bytes().len();
        if len <= self.url_prefix_len {
            return Err(());
        }
        parse_tail(skip_bytes(url, self.url_prefix_len))
    }
}

/// Parses what follows the prefix of a URL.
fn parse_tail<'a>(url: &'a str) -> (r: Result<RequestUrl<'a>, ()>)
    ensures
        match r {
            Ok(u) => url_tail_spec(url.spec_bytes()) == Some(u.view()),
            Err(_) => url_tail_spec(url.spec_bytes()) is None,
        },
{
    let (category, rest) = match split_once_byte(url, 0x2f) {
        Some(v) => v,
        None => return Err(()),
    };
    if !str_eq(category, "ipc") {
        return Err(());
    }
    let (op, rest) = match split_once_byte(rest, 0x2f) {
        Some(v) => v,
        None => return Err(()),
    };
    if str_eq(op, "spawn") {
        Ok(RequestUrl::IpcSpawn(rest))
    } else if str_eq(op, "poll") {
        match SecureArenaId::from_str_radix(rest, 10) {
            Ok(id) => Ok(RequestUrl::IpcPoll(id)),
            Err(_) => Err(()),
        }
    } else {
        Err(())
    }
}

} // verus!
