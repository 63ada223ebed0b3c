//! Properties of the library that span several operations.

use vstd::prelude::*;
use vstd::string::StringSliceAdditionalSpecFns;
use vstd::utf8::*;
use crate::int_parse::{decimal_bytes, lemma_parse_decimal_bytes, parse_bounded};
use crate::int_parse::digit_value;
use crate::protocol::{is_json_response, is_response, request_outcome, Action, ProtocolError, Session, STATUS_OK};
use crate::request_path::{path_with_key_spec, request_path_spec, RequestPath};
use crate::request_url::{request_url_spec, url_tail_spec, RequestUrlView};
use crate::secure_arena::{allocated, arena_wf, lookup, ArenaMap};
use crate::secure_arena_id::{id_modulus, SecureArenaId};
use crate::slots::is_lowest_free;
use crate::text::{lemma_ascii_literal, lemma_first_index_of, split_once_spec};

verus! {

proof fn lemma_literals()
    ensures
        "ipc".spec_bytes() == seq![0x69u8, 0x70u8, 0x63u8],
        "poll".spec_bytes() == seq![0x70u8, 0x6fu8, 0x6cu8, 0x6cu8],
        "spawn".spec_bytes() == seq![0x73u8, 0x70u8, 0x61u8, 0x77u8, 0x6eu8],
{
    reveal_strlit("ipc");
    reveal_strlit("poll");
    reveal_strlit("spawn");
    lemma_ascii_literal("ipc");
    lemma_ascii_literal("poll");
    lemma_ascii_literal("spawn");
    assert("ipc".spec_bytes() =~= seq![0x69u8, 0x70u8, 0x63u8]);
    assert("poll".spec_bytes() =~= seq![0x70u8, 0x6fu8, 0x6cu8, 0x6cu8]);
    assert("spawn".spec_bytes() =~= seq![0x73u8, 0x70u8, 0x61u8, 0x77u8, 0x6eu8]);
}

/// The tail of the URL that polls for the session whose id the spawn
/// answer carried: `ipc/poll/` followed by the answer's body.
pub open spec fn poll_url_tail(body: Seq<u8>) -> Seq<u8> {
    seq![0x69u8, 0x70u8, 0x63u8, 0x2fu8, 0x70u8, 0x6fu8, 0x6cu8, 0x6cu8, 0x2fu8] + body
}

/// The text of an id on the wire reads back as the same id.
pub proof fn law_id_text_round_trip(id: SecureArenaId)
    ensures
        parse_bounded(decimal_bytes(id.raw() as nat), 10, u64::MAX as nat) == Some(id.raw() as nat),
        SecureArenaId::from_raw_spec(id.raw()) == id,
{
    lemma_parse_decimal_bytes(id.raw() as nat);
    id.lemma_from_raw_raw();
}

/// A spawned command can be polled: the URL built from the id in the spawn
/// answer parses as a poll of that very id, and the new session is found
/// under it, still without a result.
pub proof fn law_spawn_then_poll<E>(
    before: ArenaMap<Session<E>>,
    after: ArenaMap<Session<E>>,
    id: SecureArenaId,
)
    requires
        allocated(before, after, Session { result: None }, id),
    ensures
        url_tail_spec(poll_url_tail(decimal_bytes(id.raw() as nat))) == Some(
            RequestUrlView::IpcPoll(id.raw()),
        ),
        lookup(after, SecureArenaId::from_raw_spec(id.raw())) == Some(
            Session::<E> { result: None },
        ),
{
    let digits = decimal_bytes(id.raw() as nat);
    let b = poll_url_tail(digits);
    law_id_text_round_trip(id);
    lemma_parse_decimal_bytes(id.raw() as nat);
    lemma_literals();
    lemma_first_index_of(b, 0x2f, 3);
    let rest = b.skip(4);
    assert(rest =~= seq![0x70u8, 0x6fu8, 0x6cu8, 0x6cu8, 0x2fu8] + digits);
    assert forall|j: int| 0 <= j < digits.len() implies digits[j] != 0x2f by {
        assert(crate::int_parse::digit_value(digits[j]) < 10);
    }
    lemma_first_index_of(rest, 0x2f, 4);
    assert(b.take(3) =~= seq![0x69u8, 0x70u8, 0x63u8]);
    assert(rest.take(4) =~= seq![0x70u8, 0x6fu8, 0x6cu8, 0x6cu8]);
    assert(rest.skip(5) =~= digits);
    assert(split_once_spec(b, 0x2f) == Some((b.take(3), rest)));
    assert(rest.take(4) != "spawn".spec_bytes());
}

/// A URL of the scheme is read after its prefix: whatever the scheme's
/// bytes, a URL made of a prefix of the parser's length and a non-empty
/// tail is read as that tail.
pub proof fn law_prefix_is_skipped(prefix: Seq<u8>, tail: Seq<u8>)
    requires
        tail.len() > 0,
    ensures
        request_url_spec(prefix.len(), prefix + tail) == url_tail_spec(tail),
{
    assert((prefix + tail).skip(prefix.len() as int) =~= tail);
}

/// A finished command's result is delivered once: polling a session whose
/// command has succeeded answers `OK` with the command's bytes and removes
/// the session, so the next poll with the same id is refused.
pub proof fn law_result_delivered_once<'a, E>(
    completed: ArenaMap<Session<E>>,
    after: ArenaMap<Session<E>>,
    after_again: ArenaMap<Session<E>>,
    prefix_len: nat,
    uri: &'a str,
    id: SecureArenaId,
    body: Vec<u8>,
    first: Result<Action<'a>, ProtocolError<E>>,
    second: Result<Action<'a>, ProtocolError<E>>,
)
    requires
        request_url_spec(prefix_len, uri.spec_bytes()) == Some(RequestUrlView::IpcPoll(id.raw())),
        lookup(completed, id) == Some(Session::<E> { result: Some(Ok(body)) }),
        request_outcome(completed, after, prefix_len, true, uri, first),
        request_outcome(after, after_again, prefix_len, true, uri, second),
    ensures
        first matches Ok(Action::Respond(response)) && is_response(response, body@, STATUS_OK),
        lookup(after, id) is None,
        second == Err::<Action<'a>, ProtocolError<E>>(ProtocolError::InvalidRequestUrl),
        after_again == after,
{
    id.lemma_from_raw_raw();
}

/// A command's error is delivered once, as the refusal of the poll, and
/// the session is gone afterwards.
pub proof fn law_error_delivered_once<'a, E>(
    completed: ArenaMap<Session<E>>,
    after: ArenaMap<Session<E>>,
    prefix_len: nat,
    uri: &'a str,
    id: SecureArenaId,
    err: E,
    first: Result<Action<'a>, ProtocolError<E>>,
)
    requires
        request_url_spec(prefix_len, uri.spec_bytes()) == Some(RequestUrlView::IpcPoll(id.raw())),
        lookup(completed, id) == Some(Session::<E> { result: Some(Err(err)) }),
        request_outcome(completed, after, prefix_len, true, uri, first),
    ensures
        first == Err::<Action<'a>, ProtocolError<E>>(ProtocolError::Handler(err)),
        lookup(after, id) is None,
{
    id.lemma_from_raw_raw();
}

/// The value stored by an allocation is what its id then finds.
pub proof fn law_allocate_then_get<T>(before: ArenaMap<T>, after: ArenaMap<T>, item: T, id: SecureArenaId)
    requires
        allocated(before, after, item, id),
    ensures
        lookup(after, id) == Some(item),
{
}

/// An allocation leaves what every id of another slot finds unchanged.
pub proof fn law_allocate_keeps_others<T>(
    before: ArenaMap<T>,
    after: ArenaMap<T>,
    item: T,
    id: SecureArenaId,
    other: SecureArenaId,
)
    requires
        allocated(before, after, item, id),
        other.spec_id() != id.spec_id(),
    ensures
        lookup(after, other) == lookup(before, other),
{
}

/// An id finds nothing once its slot has been emptied, and an id whose key
/// differs from the one stored in its slot finds nothing either.
pub proof fn law_deleted_or_stale_finds_nothing<T>(m: ArenaMap<T>, id: SecureArenaId, other: SecureArenaId)
    ensures
        other.spec_id() == id.spec_id() ==> lookup(m.remove(id.spec_id()), other) is None,
        m.dom().contains(id.spec_id()) && m[id.spec_id()].0 as nat != id.spec_key() ==> lookup(
            m,
            id,
        ) is None,
{
}

/// Allocation keeps every taken slot reachable by some id: slot indices
/// stay below 2^32 and keys below the key bound.
pub proof fn law_allocate_keeps_wf<T>(before: ArenaMap<T>, after: ArenaMap<T>, item: T, id: SecureArenaId)
    requires
        arena_wf(before),
        allocated(before, after, item, id),
    ensures
        arena_wf(after),
{
    let i = id.spec_id();
    id.lemma_from_raw_raw();
    crate::secure_arena_id::lemma_id_key_determine_raw(id);
    assert forall|j: nat| #[trigger] after.dom().contains(j) implies j < id_modulus() && after[j].0
        < crate::secure_arena_id::KEY_UPPER_BOUND by {
        if j != i {
            assert(before.dom().contains(j));
        }
    }
}

/// Emptying a slot or replacing the value in a taken slot keeps every
/// taken slot reachable by some id.
pub proof fn law_delete_replace_keep_wf<T>(m: ArenaMap<T>, i: nat, v: T)
    requires
        arena_wf(m),
    ensures
        arena_wf(m.remove(i)),
        m.dom().contains(i) ==> arena_wf(m.insert(i, (m[i].0, v))),
{
}

/// A freed slot is reused: once slot `i` is emptied, the next value goes
/// into slot `i` or a lower one.
pub proof fn law_freed_slot_is_reused<T>(m: Map<nat, T>, i: nat, next: nat)
    requires
        is_lowest_free(m.remove(i), next),
    ensures
        next <= i,
{
    if next > i {
        assert(m.remove(i).dom().contains(i));
    }
}

/// No byte of `a` is `/`.
pub open spec fn no_slash(a: Seq<u8>) -> bool {
    forall|j: int| 0 <= j < a.len() ==> #[trigger] a[j] != 0x2f
}

/// The decimal text of a number holds no `/`, and reads back as the number
/// in any type whose largest value is at least the number.
proof fn lemma_decimal_segment(n: nat, max: nat)
    requires
        n <= max,
    ensures
        no_slash(decimal_bytes(n)),
        parse_bounded(decimal_bytes(n), 10, max) == Some(n),
{
    lemma_parse_decimal_bytes(n);
    assert forall|j: int| 0 <= j < decimal_bytes(n).len() implies #[trigger] decimal_bytes(n)[j] != 0x2f by {
        assert(digit_value(decimal_bytes(n)[j]) < 10);
    }
}

/// A text made of a run `a` without `/`, a `/`, and any rest `b` splits at
/// that `/` into `a` and `b`.
proof fn lemma_split_after_segment(a: Seq<u8>, b: Seq<u8>)
    requires
        no_slash(a),
    ensures
        split_once_spec(a + seq![0x2fu8] + b, 0x2f) == Some((a, b)),
{
    let t = a + seq![0x2fu8] + b;
    assert forall|j: int| 0 <= j < a.len() implies t[j] != 0x2f by {
        assert(t[j] == a[j]);
    }
    lemma_first_index_of(t, 0x2f, a.len() as int);
    assert(t.take(a.len() as int) =~= a);
    assert(t.skip(a.len() as int + 1) =~= b);
}

/// The path `/{id}/{key}/{method}` with the decimal texts of `id` and `key`.
pub open spec fn keyed_path(id: nat, key: nat, method: Seq<u8>) -> Seq<u8> {
    seq![0x2fu8] + (decimal_bytes(id) + seq![0x2fu8] + (decimal_bytes(key) + seq![0x2fu8] + method))
}

/// Reading `{a}/{b}/{method}`, where the first two runs read as the
/// numbers `id` and `key`, gives what the method names for them.
proof fn lemma_path_with_key_parts(a: Seq<u8>, b: Seq<u8>, method: Seq<u8>, id: usize, key: u32)
    requires
        split_once_spec(a + seq![0x2fu8] + (b + seq![0x2fu8] + method), 0x2f) == Some(
            (a, b + seq![0x2fu8] + method),
        ),
        split_once_spec(b + seq![0x2fu8] + method, 0x2f) == Some((b, method)),
        parse_bounded(a, 10, usize::MAX as nat) == Some(id as nat),
        parse_bounded(b, 10, u32::MAX as nat) == Some(key as nat),
    ensures
        path_with_key_spec(a + seq![0x2fu8] + (b + seq![0x2fu8] + method))
            == crate::request_path::method_path_spec(method, id, key),
{
}

/// The keyed form reads back the connection it was written for: after the
/// decimal texts of any `usize` id and `u32` key, the method text alone
/// decides the kind of the path, and the id and key come back unchanged.
#[verifier::spinoff_prover]
proof fn lemma_keyed_path_fields(id: usize, key: u32, method: Seq<u8>)
    ensures
        crate::request_path::method_path_spec(method, id, key) is Some ==> request_path_spec(
            keyed_path(id as nat, key as nat, method),
        ) == crate::request_path::method_path_spec(method, id, key),
{
    let di = decimal_bytes(id as nat);
    let dk = decimal_bytes(key as nat);
    let b = di + seq![0x2fu8] + (dk + seq![0x2fu8] + method);
    lemma_decimal_segment(id as nat, usize::MAX as nat);
    lemma_decimal_segment(key as nat, u32::MAX as nat);
    lemma_two_segments(di, dk, method);
    lemma_path_with_key_parts(di, dk, method, id, key);
    lemma_after_leading_slash(b);
}

/// A text that starts with `/` is read as the path after that `/`.
proof fn lemma_after_leading_slash(b: Seq<u8>)
    ensures
        (seq![0x2fu8] + b).skip(1) == b,
        (seq![0x2fu8] + b)[0] == 0x2f,
        (seq![0x2fu8] + b).len() > 0,
{
    assert((seq![0x2fu8] + b).skip(1) =~= b);
}

proof fn lemma_method_literals()
    ensures
        "push".spec_bytes().len() == 4,
        "pop".spec_bytes().len() == 3,
        "close/down".spec_bytes().len() == 10,
        "close/up".spec_bytes().len() == 8,
        "disconnect".spec_bytes().len() == 10,
        "close/down".spec_bytes()[6] == 0x64u8,
        "close/up".spec_bytes()[6] == 0x75u8,
        "push".spec_bytes()[0] == 0x70u8,
        "pop".spec_bytes()[0] == 0x70u8,
        "close/down".spec_bytes()[0] == 0x63u8,
        "close/up".spec_bytes()[0] == 0x63u8,
        "disconnect".spec_bytes()[0] == 0x64u8,
{
    reveal_strlit("push");
    lemma_ascii_literal("push");
    reveal_strlit("pop");
    lemma_ascii_literal("pop");
    reveal_strlit("close/down");
    lemma_ascii_literal("close/down");
    reveal_strlit("close/up");
    lemma_ascii_literal("close/up");
    reveal_strlit("disconnect");
    lemma_ascii_literal("disconnect");
}

/// A keyed path reads back what it was written from: for every `usize` id
/// and `u32` key, `/{id}/{key}/{method}` with their decimal texts parses to
/// the variant the method names, carrying that id and that key.
pub proof fn law_keyed_path_reads_back(id: usize, key: u32)
    ensures
        request_path_spec(keyed_path(id as nat, key as nat, "push".spec_bytes())) == Some(
            RequestPath::Push { id, key },
        ),
        request_path_spec(keyed_path(id as nat, key as nat, "pop".spec_bytes())) == Some(
            RequestPath::Pop { id, key },
        ),
        request_path_spec(keyed_path(id as nat, key as nat, "close/down".spec_bytes())) == Some(
            RequestPath::CloseDown { id, key },
        ),
        request_path_spec(keyed_path(id as nat, key as nat, "close/up".spec_bytes())) == Some(
            RequestPath::CloseUp { id, key },
        ),
        request_path_spec(keyed_path(id as nat, key as nat, "disconnect".spec_bytes())) == Some(
            RequestPath::Disconnect { id, key },
        ),
{
    lemma_method_literals();
    let (push, pop, down, up, disc) = (
        "push".spec_bytes(),
        "pop".spec_bytes(),
        "close/down".spec_bytes(),
        "close/up".spec_bytes(),
        "disconnect".spec_bytes(),
    );
    assert(push != pop && push != down && push != up && push != disc);
    assert(pop != down && pop != up && pop != disc);
    assert(down != up);
    assert(down[6] != disc[6] || down[0] != disc[0]);
    assert(down != disc);
    assert(up != disc);
    lemma_keyed_path_fields(id, key, push);
    lemma_keyed_path_fields(id, key, pop);
    lemma_keyed_path_fields(id, key, down);
    lemma_keyed_path_fields(id, key, up);
    lemma_keyed_path_fields(id, key, disc);
}

/// The tail of the URL that spawns command `c`: `ipc/spawn/` followed by
/// the command's bytes.
pub open spec fn spawn_url_tail(c: Seq<u8>) -> Seq<u8> {
    seq![0x69u8, 0x70u8, 0x63u8] + seq![0x2fu8] + (seq![0x73u8, 0x70u8, 0x61u8, 0x77u8, 0x6eu8]
        + seq![0x2fu8] + c)
}

/// A spawn URL names its command whole: for every prefix and every text
/// `c`, whatever bytes it holds, `{prefix}ipc/spawn/{c}` read with that
/// prefix's length asks to spawn exactly `c`.
pub proof fn law_spawn_url_reads_command(prefix: Seq<u8>, c: Seq<u8>)
    ensures
        request_url_spec(prefix.len(), prefix + spawn_url_tail(c)) == Some(
            RequestUrlView::IpcSpawn(c),
        ),
{
    lemma_spawn_tail(c);
    law_prefix_is_skipped(prefix, spawn_url_tail(c));
}

/// A text of two runs without `/`, each followed by a `/`, then any rest,
/// splits into the first run and the rest after it, and the rest splits
/// into the second run and the final part.
proof fn lemma_two_segments(a: Seq<u8>, b: Seq<u8>, c: Seq<u8>)
    requires
        no_slash(a),
        no_slash(b),
    ensures
        split_once_spec(a + seq![0x2fu8] + (b + seq![0x2fu8] + c), 0x2f) == Some(
            (a, b + seq![0x2fu8] + c),
        ),
        split_once_spec(b + seq![0x2fu8] + c, 0x2f) == Some((b, c)),
{
    lemma_split_after_segment(a, b + seq![0x2fu8] + c);
    lemma_split_after_segment(b, c);
}

/// The bytes of `ipc` and `spawn` hold no `/`.
proof fn lemma_spawn_words()
    ensures
        no_slash(seq![0x69u8, 0x70u8, 0x63u8]),
        no_slash(seq![0x73u8, 0x70u8, 0x61u8, 0x77u8, 0x6eu8]),
        "ipc".spec_bytes() == seq![0x69u8, 0x70u8, 0x63u8],
        "spawn".spec_bytes() == seq![0x73u8, 0x70u8, 0x61u8, 0x77u8, 0x6eu8],
{
    lemma_literals();
    let ipc = seq![0x69u8, 0x70u8, 0x63u8];
    let spawn = seq![0x73u8, 0x70u8, 0x61u8, 0x77u8, 0x6eu8];
    assert forall|j: int| 0 <= j < ipc.len() implies #[trigger] ipc[j] != 0x2f by {}
    assert forall|j: int| 0 <= j < spawn.len() implies #[trigger] spawn[j] != 0x2f by {}
}

/// The tail `ipc/spawn/{c}` asks to spawn exactly `c`.
proof fn lemma_spawn_tail(c: Seq<u8>)
    ensures
        url_tail_spec(spawn_url_tail(c)) == Some(RequestUrlView::IpcSpawn(c)),
{
    lemma_spawn_words();
    lemma_two_segments(
        seq![0x69u8, 0x70u8, 0x63u8],
        seq![0x73u8, 0x70u8, 0x61u8, 0x77u8, 0x6eu8],
        c,
    );
}

/// A stale id finds nothing in its reused slot unless the new occupant's id
/// carries the same key: after the slot of `stale` is emptied and a new
/// item is allocated under `fresh` in that same slot, `stale` finds the new
/// item only if it is `fresh` itself.
pub proof fn law_stale_id_after_reuse<T>(
    before: ArenaMap<T>,
    after: ArenaMap<T>,
    stale: SecureArenaId,
    fresh: SecureArenaId,
    item: T,
)
    requires
        allocated(before.remove(stale.spec_id()), after, item, fresh),
        fresh.spec_id() == stale.spec_id(),
    ensures
        lookup(after, stale) is Some ==> stale == fresh,
        stale.spec_key() != fresh.spec_key() ==> lookup(after, stale) is None,
{
    crate::secure_arena_id::lemma_id_key_determine_raw(stale);
    crate::secure_arena_id::lemma_id_key_determine_raw(fresh);
    stale.lemma_from_raw_raw();
    fresh.lemma_from_raw_raw();
    if lookup(after, stale) is Some {
        assert(stale.raw() == fresh.raw());
        assert(SecureArenaId::from_raw_spec(stale.raw()) == SecureArenaId::from_raw_spec(fresh.raw()));
    }
}

/// A spawn is refused only when the arena is full: whenever some slot
/// index below 2^32 is free, a spawn request opens a session without a
/// result in the lowest free slot, at or below that index, and answers with
/// the new session's id as JSON.
pub proof fn law_spawn_refused_only_when_full<'a, E>(
    before: ArenaMap<Session<E>>,
    after: ArenaMap<Session<E>>,
    prefix_len: nat,
    uri: &'a str,
    command: Seq<u8>,
    free: nat,
    r: Result<Action<'a>, ProtocolError<E>>,
)
    requires
        request_url_spec(prefix_len, uri.spec_bytes()) == Some(RequestUrlView::IpcSpawn(command)),
        request_outcome(before, after, prefix_len, true, uri, r),
        free < id_modulus(),
        !before.dom().contains(free),
    ensures
        match r {
            Ok(Action::Spawn { id, command: c, response }) => {
                &&& c.spec_bytes() == command
                &&& is_lowest_free(before, id.spec_id())
                &&& id.spec_id() <= free
                &&& lookup(after, id) == Some(Session::<E> { result: None })
                &&& is_json_response(response, decimal_bytes(id.raw() as nat))
            },
            _ => false,
        },
{
    match r {
        Ok(Action::Spawn { id, command: c, response }) => {
            if id.spec_id() > free {
                assert(before.dom().contains(free));
            }
            law_allocate_then_get(before, after, Session::<E> { result: None }, id);
        },
        _ => {
            assert(before.dom().contains(free));
        },
    }
}

} // verus!
