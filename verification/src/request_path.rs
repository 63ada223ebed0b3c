//! The paths of the streaming endpoint: `/{id}/{key}/{method}` for an open
//! connection, and `/connect` to open one.

use vstd::prelude::*;
use vstd::string::StringSliceAdditionalSpecFns;
use crate::int_parse::{parse_bounded, parse_u32, parse_usize};
use crate::text::{split_once_byte, split_once_spec, str_eq, strip_prefix_byte};

verus! {

/// The request path was not one of the recognised forms.
#[derive(Debug, Clone, Copy, PartialEq, Eq, Structural)]
pub struct RequestPathError;

impl RequestPathError {
    /// The text that describes the error.
    pub fn message(&self) -> (r: &'static str)
        ensures
            r@ == "the request URI is invalid."@,
    {
        "the request URI is invalid."
    }
}

/// The request method of the streaming endpoint was not POST.
#[derive(Debug, Clone, Copy, PartialEq, Eq, Structural)]
pub struct InvalidMethodError;

impl InvalidMethodError {
    /// The text that describes the error.
    pub fn message(&self) -> (r: &'static str)
        ensures
            r@ == "bin-ipc request method must be POST"@,
    {
        "bin-ipc request method must be POST"
    }
}

/// A parsed request path.
#[derive(Debug, Clone, Copy, PartialEq, Eq, Structural)]
pub enum RequestPath {
    Push { id: usize, key: u32 },
    Pop { id: usize, key: u32 },
    CloseDown { id: usize, key: u32 },
    CloseUp { id: usize, key: u32 },
    Connect,
    Disconnect { id: usize, key: u32 },
}

/// The path that the method text `m` names for connection `id` and `key`.
pub open spec fn method_path_spec(m: Seq<u8>, id: usize, key: u32) -> Option<RequestPath> {
    if m == "push".spec_bytes() {
        Some(RequestPath::Push { id, key })
    } else if m == "pop".spec_bytes() {
        Some(RequestPath::Pop { id, key })
    } else if m == "close/down".spec_bytes() {
        Some(RequestPath::CloseDown { id, key })
    } else if m == "close/up".spec_bytes() {
        Some(RequestPath::CloseUp { id, key })
    } else if m == "disconnect".spec_bytes() {
        Some(RequestPath::Disconnect { id, key })
    } else {
        None
    }
}

/// `{id}/{key}/{method}`: a decimal `usize`, a `/`, a decimal `u32`, a
/// `/`, and one of the method names; the method may itself hold a `/`.
pub open spec fn path_with_key_spec(b: Seq<u8>) -> Option<RequestPath> {
    match split_once_spec(b, 0x2f) {
        None => None,
        Some((id_text, rest)) => match parse_bounded(id_text, 10, usize::MAX as nat) {
            None => None,
            Some(id) => match split_once_spec(rest, 0x2f) {
                None => None,
                Some((key_text, method)) => match parse_bounded(key_text, 10, u32::MAX as nat) {
                    None => None,
                    Some(key) => method_path_spec(method, id as usize, key as u32),
                },
            },
        },
    }
}

/// `connect`, exactly.
pub open spec fn path_connect_spec(b: Seq<u8>) -> Option<RequestPath> {
    if b == "connect".spec_bytes() {
        Some(RequestPath::Connect)
    } else {
        None
    }
}

/// A whole request path: `/` followed by either form, the keyed form tried
/// first.
pub open spec fn request_path_spec(b: Seq<u8>) -> Option<RequestPath> {
    if b.len() > 0 && b[0] == 0x2f {
        match path_with_key_spec(b.skip(1)) {
            Some(p) => Some(p),
            None => path_connect_spec(b.skip(1)),
        }
    } else {
        None
    }
}

/// Reads `{id}/{key}/{method}`.
pub fn path_with_key(s: &str) -> (r: Result<RequestPath, RequestPathError>)
    ensures
        match r {
            Ok(p) => path_with_key_spec(s.spec_bytes()) == Some(p),
            Err(_) => path_with_key_spec(s.spec_bytes()) is None,
        },
{
    let (id, s) = match split_once_byte(s, 0x2f) {
        Some(v) => v,
        None => return Err(RequestPathError),
    };
    let id = match parse_usize(id) {
        Ok(v) => v,
        Err(_) => return Err(RequestPathError),
    };
    let (key, method) = match split_once_byte(s, 0x2f) {
        Some(v) => v,
        None => return Err(RequestPathError),
    };
    let key = match parse_u32(key) {
        Ok(v) => v,
        Err(_) => return Err(RequestPathError),
    };
    if str_eq(method, "push") {
        Ok(RequestPath::Push { id, key })
    } else if str_eq(method, "pop") {
        Ok(RequestPath::Pop { id, key })
    } else if str_eq(method, "close/down") {
        Ok(RequestPath::CloseDown { id, key })
    } else if str_eq(method, "close/up") {
        Ok(RequestPath::CloseUp { id, key })
    } else if str_eq(method, "disconnect") {
        Ok(RequestPath::Disconnect { id, key })
    } else {
        Err(RequestPathError)
    }
}

/// Reads `connect`.
pub fn path_connect(s: &str) -> (r: Result<RequestPath, RequestPathError>)
    ensures
        match r {
            Ok(p) => path_connect_spec(s.spec_bytes()) == Some(p),
            Err(_) => path_connect_spec(s.spec_bytes()) is None,
        },
{
    if str_eq(s, "connect") {
        Ok(RequestPath::Connect)
    } else {
        Err(RequestPathError)
    }
}

impl RequestPath {
    /// Reads a request path: a `/`, then `{id}/{key}/{method}` or `connect`.
    pub fn from_str(s: &str) -> (r: Result<RequestPath, RequestPathError>)
        ensures
            match r {
                Ok(p) => request_path_spec(s.spec_bytes()) == Some(p),
                Err(_) => request_path_spec(s.spec_bytes()) is None,
            },
    {
        let s = match strip_prefix_byte(s, 0x2f) {
            Some(t) => t,
            None => return Err(RequestPathError),
        };
        match path_with_key(s) {
            Ok(p) => Ok(p),
            Err(_) => path_connect(s),
        }
    }
}

impl std::str::FromStr for RequestPath {
    type Err = RequestPathError;

    fn from_str(s: &str) -> (r: Result<RequestPath, RequestPathError>)
        ensures
            match r {
                Ok(p) => request_path_spec(s.spec_bytes()) == Some(p),
                Err(_) => request_path_spec(s.spec_bytes()) is None,
            },
    {
        RequestPath::from_str(s)
    }
}

} // verus!
