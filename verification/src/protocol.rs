//! The request/response endpoint: a POST to `ipc/spawn/{command}` starts a
//! command and answers with the id of its session; a POST to
//! `ipc/poll/{id}` answers with the result once the command has finished
//! and removes the session, or with an empty "accepted" answer before.
//! The caller runs the command itself and reports its result with
//! [`BinIpcState::complete`].

use vstd::prelude::*;
use rand::rngs::SmallRng;
use vstd::string::StringSliceAdditionalSpecFns;
use vstd::utf8::is_char_boundary;
use crate::int_parse::decimal_bytes;
use crate::request_url::{request_url_spec, RequestUrl, RequestUrlParser, RequestUrlView};
use crate::secure_arena::{allocated, lookup, ArenaMap, SecureArena};
use crate::secure_arena_id::{id_modulus, SecureArenaId};

verus! {

/// HTTP status "OK".
pub const STATUS_OK: u16 = 200;

/// HTTP status "Accepted": the command has not finished yet.
pub const STATUS_ACCEPTED: u16 = 202;

/// Calls `serde_json::to_vec` on a `u64`. Claimed: the bytes are the
/// decimal digits of the number, which is how serde_json writes an unsigned
/// integer (through `itoa`). Writing into a `Vec` cannot fail, so the
/// `Result` is unwrapped.
#[verifier::external_body]
fn json_of_u64(v: u64) -> (r: Vec<u8>)
    ensures
        r@ == decimal_bytes(v as nat),
{
    serde_json::to_vec(&v).unwrap()
}

/// An answer of the endpoint.
pub struct HttpResponse {
    pub status: u16,
    pub headers: Vec<(&'static str, &'static str)>,
    pub body: Vec<u8>,
}

/// `r` answers with `status` and `body`, and allows every origin.
pub open spec fn is_response(r: HttpResponse, body: Seq<u8>, status: u16) -> bool {
    &&& r.status == status
    &&& r.body@ == body
    &&& r.headers@.len() == 1
    &&& r.headers@[0].0@ == "access-control-allow-origin"@
    &&& r.headers@[0].1@ == "*"@
}

/// `r` answers `OK` with `body` as JSON text, and allows every origin.
pub open spec fn is_json_response(r: HttpResponse, body: Seq<u8>) -> bool {
    &&& r.status == STATUS_OK
    &&& r.body@ == body
    &&& r.headers@.len() == 2
    &&& r.headers@[0].0@ == "access-control-allow-origin"@
    &&& r.headers@[0].1@ == "*"@
    &&& r.headers@[1].0@ == "content-type"@
    &&& r.headers@[1].1@ == "application/json; charset=utf-8"@
}

/// An answer with `status` and `buf`, open to every origin.
pub fn create_response(buf: Vec<u8>, status: u16) -> (r: HttpResponse)
    ensures
        is_response(r, buf@, status),
{
    let mut headers = Vec::new();
    headers.push(("access-control-allow-origin", "*"));
    HttpResponse { status, headers, body: buf }
}

/// An `OK` answer carrying `id` as a JSON number.
pub fn create_json_response(id: &SecureArenaId) -> (r: HttpResponse)
    ensures
        is_json_response(r, decimal_bytes(id.raw() as nat)),
{
    let mut res = create_response(json_of_u64(id.to_raw()), STATUS_OK);
    res.headers.push(("content-type", "application/json; charset=utf-8"));
    res
}

/// Why a request was refused.
#[derive(Debug, PartialEq, Eq)]
pub enum ProtocolError<E> {
    /// The request method was not POST.
    InvalidRequestMethod,
    /// The URL was malformed, or named a session that does not exist.
    InvalidRequestUrl,
    /// No slot was left for a new session.
    TooManyRequests,
    /// The command finished with this error.
    Handler(E),
}

impl<E> ProtocolError<E> {
    /// The text that describes the error; for a command's own error, the
    /// text of that error is the caller's to render.
    pub fn message(&self) -> (r: Option<&'static str>)
        ensures
            match self {
                ProtocolError::InvalidRequestMethod => r == Some("Request method must be POST."),
                ProtocolError::InvalidRequestUrl => r == Some("Request URL is invalid."),
                ProtocolError::TooManyRequests => r == Some("Too many requests."),
                ProtocolError::Handler(_) => r is None,
            },
    {
        match self {
            ProtocolError::InvalidRequestMethod => Some("Request method must be POST."),
            ProtocolError::InvalidRequestUrl => Some("Request URL is invalid."),
            ProtocolError::TooManyRequests => Some("Too many requests."),
            ProtocolError::Handler(_) => None,
        }
    }
}

/// What the caller does with an accepted request.
pub enum Action<'a> {
    /// Run `command` and report its result for `id`; answer now with
    /// `response`.
    Spawn { id: SecureArenaId, command: &'a str, response: HttpResponse },
    /// Answer with `response`.
    Respond(HttpResponse),
}

/// A started command: its result, once it has finished.
pub struct Session<E> {
    pub result: Option<Result<Vec<u8>, E>>,
}

/// The sessions of one endpoint.
pub struct BinIpcState<E> {
    sessions: SecureArena<Session<E>>,
}

/// The outcome of a request, stated over the sessions before (`before`)
/// and after (`after`) it.
pub open spec fn request_outcome<'a, E>(
    before: ArenaMap<Session<E>>,
    after: ArenaMap<Session<E>>,
    prefix_len: nat,
    is_post: bool,
    uri: &'a str,
    r: Result<Action<'a>, ProtocolError<E>>,
) -> bool {
    if !is_post {
        r == Err::<Action<'a>, ProtocolError<E>>(ProtocolError::InvalidRequestMethod) && after
            == before
    } else {
        match request_url_spec(prefix_len, uri.spec_bytes()) {
            None => r == Err::<Action<'a>, ProtocolError<E>>(ProtocolError::InvalidRequestUrl)
                && after == before,
            Some(RequestUrlView::IpcSpawn(command)) => match r {
                Ok(Action::Spawn { id, command: c, response }) => {
                    &&& c.spec_bytes() == command
                    &&& allocated(before, after, Session { result: None }, id)
                    &&& is_json_response(response, decimal_bytes(id.raw() as nat))
                },
                Err(ProtocolError::TooManyRequests) => {
                    &&& after == before
                    &&& forall|j: nat| j < id_modulus() ==> #[trigger] before.dom().contains(j)
                },
                _ => false,
            },
            Some(RequestUrlView::IpcPoll(raw)) => {
                let id = SecureArenaId::from_raw_spec(raw);
                match lookup(before, id) {
                    None => r == Err::<Action<'a>, ProtocolError<E>>(
                        ProtocolError::InvalidRequestUrl,
                    ) && after == before,
                    Some(session) => match session.result {
                        None => after == before && match r {
                            Ok(Action::Respond(response)) => is_response(
                                response,
                                Seq::empty(),
                                STATUS_ACCEPTED,
                            ),
                            _ => false,
                        },
                        Some(Ok(body)) => after == before.remove(id.spec_id()) && match r {
                            Ok(Action::Respond(response)) => is_response(
                                response,
                                body@,
                                STATUS_OK,
                            ),
                            _ => false,
                        },
                        Some(Err(e)) => after == before.remove(id.spec_id()) && r == Err::<
                            Action<'a>,
                            ProtocolError<E>,
                        >(ProtocolError::Handler(e)),
                    },
                }
            },
        }
    }
}

impl<E> BinIpcState<E> {
    /// The open sessions.
    pub closed spec fn view(&self) -> ArenaMap<Session<E>> {
        self.sessions@
    }

    /// No session is open; the keys of session ids are drawn from `rng`.
    pub fn new(rng: SmallRng) -> (r: Self)
        ensures
            r@ == Map::<nat, (u64, Session<E>)>::empty(),
    {
        BinIpcState { sessions: SecureArena::new(rng) }
    }

    /// Decides what to do with a request: refuse it, open a session for a
    /// command that the caller is to run, or answer a poll.
    pub fn handle_request<'a>(
        &mut self,
        parser: &RequestUrlParser,
        is_post: bool,
        uri: &'a str,
    ) -> (r: Result<Action<'a>, ProtocolError<E>>)
        requires
            is_post ==> (uri.spec_bytes().len() <= parser.prefix_len() || is_char_boundary(
                uri.spec_bytes(),
                parser.prefix_len() as int,
            )),
        ensures
            request_outcome(old(self)@, final(self)@, parser.prefix_len(), is_post, uri, r),
    {
        if !is_post {
            return Err(ProtocolError::InvalidRequestMethod);
        }
        let url = match parser.parse(uri) {
            Ok(u) => u,
            Err(_) => return Err(ProtocolError::InvalidRequestUrl),
        };
        match url {
            RequestUrl::IpcSpawn(command) => {
                match self.sessions.allocate(Session { result: None }) {
                    Ok(id) => Ok(
                        Action::Spawn { id, command, response: create_json_response(&id) },
                    ),
                    Err(_) => Err(ProtocolError::TooManyRequests),
                }
            },
            RequestUrl::IpcPoll(id) => {
                proof {
                    id.lemma_from_raw_raw();
                }
                let finished = match self.sessions.get(id) {
                    None => return Err(ProtocolError::InvalidRequestUrl),
                    Some(session) => session.result.is_some(),
                };
                if !finished {
                    return Ok(Action::Respond(create_response(Vec::new(), STATUS_ACCEPTED)));
                }
                match self.sessions.delete(id) {
                    Some(Session { result: Some(Ok(v)) }) => Ok(
                        Action::Respond(create_response(v, STATUS_OK)),
                    ),
                    Some(Session { result: Some(Err(e)) }) => Err(ProtocolError::Handler(e)),
                    _ => Err(ProtocolError::InvalidRequestUrl),
                }
            },
        }
    }

    /// Records the result of the command of session `id`. Returns whether
    /// the session still existed, in which case the caller announces that
    /// the result is ready; a session that is gone is left gone.
    pub fn complete(&mut self, id: SecureArenaId, response: Result<Vec<u8>, E>) -> (r: bool)
        ensures
            r == lookup(old(self)@, id) is Some,
            final(self)@ == (if r {
                old(self)@.insert(id.spec_id(), (old(self)@[id.spec_id()].0, Session { result: Some(response) }))
            } else {
                old(self)@
            }),
    {
        self.sessions.replace(id, Session { result: Some(response) }).is_some()
    }
}

} // verus!
