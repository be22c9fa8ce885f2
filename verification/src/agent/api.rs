//! The agent's HTTP surface: one authenticated endpoint that accepts typed
//! operations. What a request is answered, and whether its operation is run, is
//! decided here.

use vstd::prelude::*;
use vstd::utf8;
use crate::clock::Stopwatch;
use crate::common::error::{Error, ErrorView};
use crate::common::protocol::{
    Operation, OperationData, OperationEnvelope, OperationResult, PROTOCOL_VERSION,
};
use crate::digits;
use crate::expiring;
use crate::expiring::{Expiring, Kept};
use crate::text;

verus! {

// ---------------------------------------------------------------------------
// Authorisation
// ---------------------------------------------------------------------------

/// The header carries the expected bearer token.
pub open spec fn is_authorised(header: Option<Seq<char>>, expected: Seq<char>) -> bool {
    header == Some("Bearer "@ + expected)
}

/// Whether two texts are the same; looks at every byte whatever the first ones are.
pub fn same_secret(a: &str, b: &str) -> (r: bool)
    ensures
        r == (a@ == b@),
{
    let x = a.as_bytes();
    let y = b.as_bytes();
    if x.len() != y.len() {
        return false;
    }
    let mut diff: u8 = 0;
    let mut i: usize = 0;
    assert(x@.take(0) =~= y@.take(0));
    while i < x.len()
        invariant
            i <= x@.len(),
            x@.len() == y@.len(),
            (diff == 0) == (x@.take(i as int) == y@.take(i as int)),
        decreases x@.len() - i,
    {
        let p: u8 = x[i];
        let q: u8 = y[i];
        let next: u8 = diff | (p ^ q);
        assert((next == 0) == (diff == 0 && p == q)) by (bit_vector)
            requires
                next == diff | (p ^ q),
        ;
        proof {
            let s = x@.take(i + 1);
            let t = y@.take(i + 1);
            assert(s.drop_last() =~= x@.take(i as int));
            assert(t.drop_last() =~= y@.take(i as int));
            assert(s.last() == p && t.last() == q);
            if s.drop_last() == t.drop_last() && s.last() == t.last() {
                assert(s =~= s.drop_last().push(s.last()));
                assert(t =~= t.drop_last().push(t.last()));
            }
            assert((s == t) == (s.drop_last() == t.drop_last() && s.last() == t.last()));
        }
        diff = next;
        i += 1;
    }
    assert(x@.take(i as int) =~= x@);
    assert(y@.take(i as int) =~= y@);
    proof {
        utf8::encode_utf8_decode_utf8(a@);
        utf8::encode_utf8_decode_utf8(b@);
        assert(utf8::decode_utf8(x@) == a@);
        assert(utf8::decode_utf8(y@) == b@);
    }
    diff == 0
}

/// Constant-time-ish comparison of the bearer token.
pub fn authorised(header: &Option<String>, expected: &str) -> (r: bool)
    ensures
        r == is_authorised(text::text_opt(*header), expected@),
{
    match header {
        None => false,
        Some(value) => {
            let wanted = text::cat2("Bearer ", expected);
            same_secret(value.as_str(), wanted.as_str())
        },
    }
}

// ---------------------------------------------------------------------------
// Replays
// ---------------------------------------------------------------------------

/// How long a request id is remembered, in nanoseconds: ten minutes.
pub const IDEMPOTENCY_WINDOW: u64 = 600_000_000_000;

/// The request was handled already and is still remembered.
pub open spec fn handled(seen: Map<Seq<char>, Kept<()>>, id: Seq<char>, now: u64) -> bool {
    expiring::live(seen, now, IDEMPOTENCY_WINDOW).contains_key(id)
}

/// What is remembered once the request has come in.
pub open spec fn noted(seen: Map<Seq<char>, Kept<()>>, id: Seq<char>, now: u64) -> Map<
    Seq<char>,
    Kept<()>,
> {
    if handled(seen, id, now) {
        expiring::live(seen, now, IDEMPOTENCY_WINDOW)
    } else {
        expiring::live(seen, now, IDEMPOTENCY_WINDOW).insert(id, Kept { value: (), at: now })
    }
}

/// A request that was handled is not handled again within the window.
pub proof fn law_replay_is_recognised(
    seen: Map<Seq<char>, Kept<()>>,
    id: Seq<char>,
    first: u64,
    again: u64,
)
    requires
        !handled(seen, id, first),
        first <= again,
        again - first < IDEMPOTENCY_WINDOW,
    ensures
        handled(noted(seen, id, first), id, again),
{
}

/// A request does not make the agent forget another one within its window.
pub proof fn law_other_requests_are_not_forgotten(
    seen: Map<Seq<char>, Kept<()>>,
    id: Seq<char>,
    other: Seq<char>,
    now: u64,
)
    requires
        seen.contains_key(id),
        expiring::age(seen[id].at, now) < IDEMPOTENCY_WINDOW,
    ensures
        noted(seen, other, now).contains_key(id),
        noted(seen, other, now)[id] == seen[id],
{
}

/// Replayed request ids are answered from here instead of being executed twice.
pub struct ReplayGuard {
    seen: Expiring<()>,
    watch: Stopwatch,
}

impl View for ReplayGuard {
    type V = Map<Seq<char>, Kept<()>>;

    closed spec fn view(&self) -> Map<Seq<char>, Kept<()>> {
        self.seen@
    }
}

impl ReplayGuard {
    /// Nothing was handled yet.
    pub fn new() -> (g: Self)
        ensures
            g@ == Map::<Seq<char>, Kept<()>>::empty(),
    {
        ReplayGuard { seen: Expiring::new(), watch: Stopwatch::start() }
    }

    /// Whether the request was handled already; if not, it counts as handled from
    /// `now` on.
    pub fn already_handled_at(&mut self, request_id: &str, now: u64) -> (r: bool)
        ensures
            r == handled(old(self)@, request_id@, now),
            final(self)@ == noted(old(self)@, request_id@, now),
    {
        self.seen.sweep(now, IDEMPOTENCY_WINDOW);
        if self.seen.get(request_id).is_some() {
            true
        } else {
            self.seen.put(request_id.to_owned(), (), now);
            false
        }
    }
}

// ---------------------------------------------------------------------------
// Requests
// ---------------------------------------------------------------------------

/// What is to be done with a request.
pub enum Admission {
    /// It is answered without being run.
    Answer { status: u16, result: OperationResult },
    /// Its operation is run.
    Run { job_id: Option<i64>, operation: Operation },
}

/// What is said of a protocol version that the agent does not speak.
pub open spec fn version_error(version: u32) -> ErrorView {
    ErrorView::Invalid(
        "protocol version "@ + digits::dec(version as nat) + " is not supported (agent speaks "@
            + digits::dec(PROTOCOL_VERSION as nat) + ")"@,
    )
}

/// The request is answered with an error.
pub open spec fn answers_err(a: Admission, code: u16, e: ErrorView) -> bool {
    a matches Admission::Answer { status, result } && status == code && result.is_err(e)
}

/// What [`ReplayGuard::receive_at`] makes of a request: its `Authorization` header, and
/// its body or what is wrong with it.
pub open spec fn admits(
    before: Map<Seq<char>, Kept<()>>,
    after: Map<Seq<char>, Kept<()>>,
    header: Option<Seq<char>>,
    token: Seq<char>,
    body: Result<OperationEnvelope, String>,
    now: u64,
    a: Admission,
) -> bool {
    if !is_authorised(header, token) {
        answers_err(a, 401, ErrorView::Unauthorized) && after == before
    } else {
        match body {
            Err(reason) => answers_err(a, 422, ErrorView::Invalid(reason@)) && after == before,
            Ok(envelope) => if envelope.protocol_version != PROTOCOL_VERSION {
                answers_err(a, 409, version_error(envelope.protocol_version)) && after == before
            } else if handled(before, envelope.request_id@, now) {
                (a matches Admission::Answer { status, result } && status == 200 && result.is_ok(
                    Seq::empty(),
                ) && result.data is Empty) && after == noted(before, envelope.request_id@, now)
            } else {
                (a matches Admission::Run { job_id, operation } && job_id == envelope.job_id
                    && operation == envelope.operation) && after == noted(
                    before,
                    envelope.request_id@,
                    now,
                )
            },
        }
    }
}

/// An operation is run only for a request with the agent's own token, in the agent's own
/// version of the protocol; it is the operation that was sent. The same request is run
/// only once within ten minutes: sent again, it is answered as a success.
pub proof fn law_requests_are_run_once(
    first: Map<Seq<char>, Kept<()>>,
    then: Map<Seq<char>, Kept<()>>,
    last: Map<Seq<char>, Kept<()>>,
    header: Option<Seq<char>>,
    token: Seq<char>,
    envelope: OperationEnvelope,
    t: u64,
    again: u64,
    a: Admission,
    b: Admission,
)
    requires
        admits(first, then, header, token, Ok(envelope), t, a),
        a is Run,
        t <= again < t + 10 * 60 * 1_000_000_000int,
        admits(then, last, header, token, Ok(envelope), again, b),
    ensures
        header == Some("Bearer "@ + token),
        envelope.protocol_version == PROTOCOL_VERSION,
        a->operation == envelope.operation,
        a->job_id == envelope.job_id,
        b matches Admission::Answer { status, result } && status == 200 && result.success,
{
}

/// A request without the agent's token is refused as unauthorised, whatever it asks, and
/// leaves no trace.
pub proof fn law_strangers_are_refused(
    before: Map<Seq<char>, Kept<()>>,
    after: Map<Seq<char>, Kept<()>>,
    header: Option<Seq<char>>,
    token: Seq<char>,
    body: Result<OperationEnvelope, String>,
    now: u64,
    a: Admission,
)
    requires
        admits(before, after, header, token, body, now, a),
        header != Some("Bearer "@ + token),
    ensures
        a matches Admission::Answer { status, result } && status == 401 && !result.success,
        after == before,
{
}

impl ReplayGuard {
    /// Decides what is to be done with a request that comes in at `now`.
    pub fn receive_at(
        &mut self,
        header: &Option<String>,
        token: &str,
        body: Result<OperationEnvelope, String>,
        now: u64,
    ) -> (a: Admission)
        ensures
            admits(old(self)@, final(self)@, text::text_opt(*header), token@, body, now, a),
    {
        if !authorised(header, token) {
            return Admission::Answer {
                status: 401,
                result: OperationResult::err(Error::Unauthorized),
            };
        }
        let envelope = match body {
            Ok(envelope) => envelope,
            Err(reason) => {
                return Admission::Answer {
                    status: 422,
                    result: OperationResult::err(Error::Invalid(reason)),
                };
            },
        };
        if envelope.protocol_version != PROTOCOL_VERSION {
            let theirs = digits::dec_u64(envelope.protocol_version as u64);
            let ours = digits::dec_u64(PROTOCOL_VERSION as u64);
            let message = text::cat5(
                "protocol version ",
                theirs.as_str(),
                " is not supported (agent speaks ",
                ours.as_str(),
                ")",
            );
            return Admission::Answer {
                status: 409,
                result: OperationResult::err(Error::Invalid(message)),
            };
        }
        if self.already_handled_at(envelope.request_id.as_str(), now) {
            return Admission::Answer {
                status: 200,
                result: OperationResult::ok(OperationData::default()),
            };
        }
        Admission::Run { job_id: envelope.job_id, operation: envelope.operation }
    }

    /// Decides what is to be done with a request that comes in now.
    pub fn receive(
        &mut self,
        header: &Option<String>,
        token: &str,
        body: Result<OperationEnvelope, String>,
    ) -> (a: Admission)
        ensures
            exists|now: u64|
                #[trigger] admits(
                    old(self)@,
                    final(self)@,
                    text::text_opt(*header),
                    token@,
                    body,
                    now,
                    a,
                ),
    {
        let now = self.watch.nanos();
        self.receive_at(header, token, body, now)
    }
}

/// The HTTP status that an answer goes out with.
pub open spec fn status_of(result: OperationResult) -> u16 {
    if result.success {
        200
    } else {
        match result.error {
            Some(e) => e@.status(),
            None => 500,
        }
    }
}

/// Executable form of [`status_of`].
pub fn response_status(result: &OperationResult) -> (code: u16)
    ensures
        code == status_of(*result),
{
    if result.success {
        200
    } else {
        match &result.error {
            Some(e) => e.status_code(),
            None => 500,
        }
    }
}

} // verus!
