//! Transport to Race Control: the event queue, token lifetime, batching, and what
//! to do with each reply.
//!
//! The requests themselves are made outside: this module says which one comes
//! next and takes in its reply.
//!
//! # Wire format (POST `/api/publisher/v2/ingest`)
//!
//! ```json
//! {
//!   "subSessionId": 12345678,
//!   "sessionTime": 1234.5,
//!   "sessionTick": 9876,
//!   "events": [ /* envelopes */ ]
//! }
//! ```

use vstd::prelude::*;
use vstd::string::*;

use crate::fixed::Micro;
use crate::json::{Json, JsonView, Record};
use crate::publisher_event::PublisherEvent;
use crate::text::push_decimal;

verus! {

/// Maximum number of events in a single POST body.
pub const BATCH_LIMIT: usize = 20;

/// Attempts for a batch: the first one and three retries.
pub const MAX_ATTEMPTS: u32 = 4;

/// Refresh the cached token this many seconds before it actually expires.
pub const TOKEN_REFRESH_BUFFER_S: u64 = 60;

/// Errors emitted by the transport.
#[derive(Debug)]
pub struct TransportError(pub String);

impl TransportError {
    /// What went wrong, for a person to read.
    pub fn message(&self) -> (r: String)
        ensures
            r@ == self.0@,
    {
        self.0.clone()
    }
}

/// A bearer token and the second at which it expires.
#[derive(Debug)]
pub struct CachedToken {
    pub token: String,
    pub expires_at: u64,
}

/// What a [`CachedToken`] holds.
#[verifier::ext_equal]
pub struct TokenView {
    pub token: Seq<char>,
    pub expires_at: u64,
}

/// A cached token, where there is one.
pub open spec fn token_view(t: Option<CachedToken>) -> Option<TokenView> {
    match t {
        Some(c) => Some(TokenView { token: c.token@, expires_at: c.expires_at }),
        None => None,
    }
}

/// What a [`PublisherTransport`] holds.
#[verifier::ext_equal]
pub struct TransportView {
    pub client_id: Seq<char>,
    pub client_secret: Seq<char>,
    pub scope: Seq<char>,
    pub ingest_url: Seq<char>,
    pub token_url: Seq<char>,
    pub batch_interval_ms: u64,
    pub queue: Seq<PublisherEvent>,
    pub last_flush_ms: u64,
    pub cached_token: Option<TokenView>,
    pub dry_run: bool,
}

/// Whether a flush is due: the interval has passed, or a batch is full.
pub open spec fn flush_due(t: TransportView, now_ms: u64) -> bool {
    crate::lifecycle::elapsed(t.last_flush_ms, now_ms) >= t.batch_interval_ms || t.queue.len()
        >= BATCH_LIMIT
}

/// How many events the next batch has.
pub open spec fn batch_len(queue: Seq<PublisherEvent>) -> int {
    if queue.len() < BATCH_LIMIT {
        queue.len() as int
    } else {
        BATCH_LIMIT as int
    }
}

/// The events of the next batch.
pub open spec fn next_batch(queue: Seq<PublisherEvent>) -> Seq<PublisherEvent> {
    queue.take(batch_len(queue))
}

/// What is left behind the next batch.
pub open spec fn after_batch(queue: Seq<PublisherEvent>) -> Seq<PublisherEvent> {
    queue.skip(batch_len(queue))
}

/// Whether a token must be fetched before the next request.
pub open spec fn must_refresh(token: Option<TokenView>, force: bool, now_s: u64) -> bool {
    force || match token {
        Some(t) => t.expires_at <= now_s + TOKEN_REFRESH_BUFFER_S,
        None => true,
    }
}

/// The second at which a token that lives `expires_in` seconds expires.
pub open spec fn expiry(now_s: u64, expires_in: u64) -> u64 {
    if now_s + expires_in > u64::MAX {
        u64::MAX
    } else {
        (now_s + expires_in) as u64
    }
}

/// What the token endpoint replied.
#[derive(Debug)]
pub enum TokenReply {
    /// A token and its lifetime in seconds.
    Granted(String, u64),
    /// A status other than success, with the body.
    Status(u16, String),
    /// No reply at all, and why.
    Network(String),
    /// A reply that could not be read, and why.
    BadBody(String),
}

/// What is said of a token request that failed.
pub open spec fn token_failure(reply: TokenReply) -> Option<Seq<char>> {
    match reply {
        TokenReply::Granted(_, _) => None,
        TokenReply::Status(code, body) => Some(
            "token request failed: status "@ + crate::text::decimal(code as nat) + " — "@ + body@,
        ),
        TokenReply::Network(e) => Some("token request failed: "@ + e@),
        TokenReply::BadBody(e) => Some("token response parse error: "@ + e@),
    }
}

/// Whether an action hands out the next batch: to be printed in a dry run, to be
/// sent otherwise.
pub open spec fn is_next_batch(r: FlushAction, v: TransportView, w: TransportView) -> bool {
    &&& match r {
        FlushAction::Post(batch) => !v.dry_run && batch@ == next_batch(v.queue),
        FlushAction::Print(batch) => v.dry_run && batch@ == next_batch(v.queue),
        FlushAction::Done(_) => false,
    }
    &&& w == (TransportView { queue: after_batch(v.queue), ..v })
}

/// What a flush has to do next.
#[derive(Debug)]
pub enum FlushAction {
    /// Send this batch and report back.
    Post(Vec<PublisherEvent>),
    /// Print this batch in place of sending it, and report back.
    Print(Vec<PublisherEvent>),
    /// Nothing more; says whether a batch was sent.
    Done(bool),
}

/// Holds the in-memory event queue and the cached token, and decides when and
/// what to send.
pub struct PublisherTransport {
    client_id: String,
    client_secret: String,
    scope: String,
    ingest_url: String,
    token_url: String,
    batch_interval_ms: u64,
    queue: Vec<PublisherEvent>,
    last_flush_ms: u64,
    cached_token: Option<CachedToken>,
    dry_run: bool,
}

impl View for PublisherTransport {
    type V = TransportView;

    closed spec fn view(&self) -> TransportView {
        TransportView {
            client_id: self.client_id@,
            client_secret: self.client_secret@,
            scope: self.scope@,
            ingest_url: self.ingest_url@,
            token_url: self.token_url@,
            batch_interval_ms: self.batch_interval_ms,
            queue: self.queue@,
            last_flush_ms: self.last_flush_ms,
            cached_token: token_view(self.cached_token),
            dry_run: self.dry_run,
        }
    }
}

impl PublisherTransport {
    /// Create a new transport at `now_ms`.
    ///
    /// `rc_api_url` is the Race Control base URL (no trailing slash),
    /// e.g. `"https://simracecenter.com"`.
    pub fn new(
        tenant_id: &str,
        client_id: &str,
        client_secret: &str,
        scope: &str,
        rc_api_url: &str,
        batch_interval_ms: u64,
        now_ms: u64,
    ) -> (r: Self)
        ensures
            r@ == (TransportView {
                client_id: client_id@,
                client_secret: client_secret@,
                scope: scope@,
                ingest_url: rc_api_url@ + "/api/publisher/v2/ingest"@,
                token_url: "https://login.microsoftonline.com/"@ + tenant_id@
                    + "/oauth2/v2.0/token"@,
                batch_interval_ms,
                queue: Seq::empty(),
                last_flush_ms: now_ms,
                cached_token: None,
                dry_run: false,
            }),
    {
        let mut ingest_url: String = rc_api_url.to_owned();
        ingest_url.append("/api/publisher/v2/ingest");
        let mut token_url: String = "https://login.microsoftonline.com/".to_owned();
        token_url.append(tenant_id);
        token_url.append("/oauth2/v2.0/token");
        PublisherTransport {
            client_id: client_id.to_owned(),
            client_secret: client_secret.to_owned(),
            scope: scope.to_owned(),
            ingest_url,
            token_url,
            batch_interval_ms,
            queue: Vec::new(),
            last_flush_ms: now_ms,
            cached_token: None,
            dry_run: false,
        }
    }

    /// Enable dry-run mode: batches are printed, no HTTP calls are made.
    pub fn set_dry_run(&mut self, dry_run: bool)
        ensures
            final(self)@ == (TransportView { dry_run, ..old(self)@ }),
    {
        self.dry_run = dry_run;
    }

    /// Add one event to the in-memory queue.
    pub fn enqueue(&mut self, event: PublisherEvent)
        ensures
            final(self)@ == (TransportView { queue: old(self)@.queue.push(event), ..old(self)@ }),
    {
        self.queue.push(event);
    }

    /// Where batches go.
    pub fn ingest_url(&self) -> (r: &str)
        ensures
            r@ == self@.ingest_url,
    {
        self.ingest_url.as_str()
    }

    /// Where tokens come from.
    pub fn token_url(&self) -> (r: &str)
        ensures
            r@ == self@.token_url,
    {
        self.token_url.as_str()
    }

    /// The form that asks for a token.
    pub fn token_form(&self) -> (r: Vec<(&str, &str)>)
        ensures
            r@.len() == 4,
            r@[0].0@ == "grant_type"@ && r@[0].1@ == "client_credentials"@,
            r@[1].0@ == "client_id"@ && r@[1].1@ == self@.client_id,
            r@[2].0@ == "client_secret"@ && r@[2].1@ == self@.client_secret,
            r@[3].0@ == "scope"@ && r@[3].1@ == self@.scope,
    {
        let mut form: Vec<(&str, &str)> = Vec::new();
        form.push(("grant_type", "client_credentials"));
        form.push(("client_id", self.client_id.as_str()));
        form.push(("client_secret", self.client_secret.as_str()));
        form.push(("scope", self.scope.as_str()));
        form
    }

    /// Whether the interval has elapsed or the queue has reached [`BATCH_LIMIT`].
    pub fn is_due(&self, now_ms: u64) -> (r: bool)
        ensures
            r == flush_due(self@, now_ms),
    {
        now_ms.saturating_sub(self.last_flush_ms) >= self.batch_interval_ms || self.queue.len()
            >= BATCH_LIMIT
    }

    /// Begins a flush: the first batch, or nothing where the queue is empty. In a
    /// dry run a batch is printed and not sent.
    pub fn begin_flush(&mut self) -> (r: FlushAction)
        ensures
            old(self)@.queue.len() == 0 ==> r == FlushAction::Done(false) && final(self)@ == old(
                self,
            )@,
            old(self)@.queue.len() > 0 ==> is_next_batch(r, old(self)@, final(self)@),
    {
        if self.queue.len() == 0 {
            FlushAction::Done(false)
        } else {
            self.next_action()
        }
    }

    /// Goes on with a flush whose last batch was delivered or printed: the next
    /// batch, or the end of the flush, which restarts the interval.
    pub fn batch_posted(&mut self, now_ms: u64) -> (r: FlushAction)
        ensures
            old(self)@.queue.len() == 0 ==> r == FlushAction::Done(true) && final(self)@ == (
            TransportView { last_flush_ms: now_ms, ..old(self)@ }),
            old(self)@.queue.len() > 0 ==> is_next_batch(r, old(self)@, final(self)@),
    {
        if self.queue.len() == 0 {
            self.last_flush_ms = now_ms;
            FlushAction::Done(true)
        } else {
            self.next_action()
        }
    }

    fn next_action(&mut self) -> (r: FlushAction)
        ensures
            is_next_batch(r, old(self)@, final(self)@),
    {
        let batch: Vec<PublisherEvent> = self.take_batch();
        if self.dry_run {
            FlushAction::Print(batch)
        } else {
            FlushAction::Post(batch)
        }
    }

    fn take_batch(&mut self) -> (r: Vec<PublisherEvent>)
        ensures
            r@ == next_batch(old(self)@.queue),
            final(self)@ == (TransportView { queue: after_batch(old(self)@.queue), ..old(self)@ }),
    {
        let n: usize = if self.queue.len() < BATCH_LIMIT {
            self.queue.len()
        } else {
            BATCH_LIMIT
        };
        let ghost before = self.queue@;
        let mut batch: Vec<PublisherEvent> = self.queue.split_off(n);
        std::mem::swap(&mut batch, &mut self.queue);
        proof {
            assert(batch@ =~= next_batch(before));
            assert(self.queue@ =~= after_batch(before));
        }
        batch
    }

    /// Whether a token must be fetched before the next request.
    pub fn needs_token(&self, force: bool, now_s: u64) -> (r: bool)
        ensures
            r == must_refresh(self@.cached_token, force, now_s),
    {
        force || match &self.cached_token {
            Some(t) => t.expires_at <= now_s.saturating_add(TOKEN_REFRESH_BUFFER_S),
            None => true,
        }
    }

    /// Takes in what the token endpoint replied. A failure leaves the cached token
    /// as it is.
    pub fn on_token_reply(&mut self, reply: TokenReply, now_s: u64) -> (r: Result<
        (),
        TransportError,
    >)
        ensures
            match r {
                Ok(()) => reply matches TokenReply::Granted(token, expires_in) && final(self)@ == (
                TransportView {
                    cached_token: Some(
                        TokenView { token: token@, expires_at: expiry(now_s, expires_in) },
                    ),
                    ..old(self)@
                }),
                Err(e) => token_failure(reply) == Some(e.0@) && final(self)@ == old(self)@,
            },
    {
        match reply {
            TokenReply::Granted(token, expires_in) => {
                let expires_at: u64 = now_s.saturating_add(expires_in);
                self.cached_token = Some(CachedToken { token, expires_at });
                Ok(())
            },
            TokenReply::Status(code, body) => {
                let mut s: String = "token request failed: status ".to_owned();
                push_decimal(&mut s, code as u64);
                s.append(" — ");
                s.append(body.as_str());
                Err(TransportError(s))
            },
            TokenReply::Network(e) => {
                let mut s: String = "token request failed: ".to_owned();
                s.append(e.as_str());
                Err(TransportError(s))
            },
            TokenReply::BadBody(e) => {
                let mut s: String = "token response parse error: ".to_owned();
                s.append(e.as_str());
                Err(TransportError(s))
            },
        }
    }

    /// Forgets the cached token.
    pub fn forget_token(&mut self)
        ensures
            final(self)@ == (TransportView { cached_token: None, ..old(self)@ }),
    {
        self.cached_token = None;
    }

    /// The `Authorization` header of the next request.
    pub fn authorization(&self) -> (r: Option<String>)
        ensures
            match self@.cached_token {
                Some(t) => r matches Some(h) && h@ == "Bearer "@ + t.token,
                None => r is None,
            },
    {
        match &self.cached_token {
            Some(t) => {
                let mut s: String = "Bearer ".to_owned();
                s.append(t.token.as_str());
                Some(s)
            },
            None => None,
        }
    }

    /// Second at which the cached token expires, or `None` if no token has been
    /// acquired yet. Used by the UI status display.
    pub fn token_expires_at(&self) -> (r: Option<u64>)
        ensures
            r == (match self@.cached_token {
                Some(t) => Some(t.expires_at),
                None => None,
            }),
    {
        match &self.cached_token {
            Some(t) => Some(t.expires_at),
            None => None,
        }
    }
}

/// The body of an ingest request.
pub open spec fn ingest_view(
    batch: Seq<PublisherEvent>,
    session_time: Micro,
    session_tick: i64,
    sub_session_id: i64,
) -> JsonView {
    JsonView::Object(
        seq![
            ("subSessionId"@, JsonView::Int(sub_session_id as int)),
            ("sessionTime"@, JsonView::Decimal(session_time)),
            ("sessionTick"@, JsonView::Int(session_tick as int)),
            (
                "events"@,
                JsonView::List(
                    Seq::new(
                        batch.len(),
                        |i: int| crate::publisher_event::envelope_view(batch[i]@),
                    ),
                ),
            ),
        ],
    )
}

/// The body of an ingest request.
pub fn ingest_body(
    batch: &Vec<PublisherEvent>,
    session_time: Micro,
    session_tick: i64,
    sub_session_id: i64,
) -> (r: Json)
    ensures
        r@ == ingest_view(batch@, session_time, session_tick, sub_session_id),
{
    let mut events: Vec<Json> = Vec::new();
    let mut i: usize = 0;
    while i < batch.len()
        invariant
            i <= batch@.len(),
            events@.len() == i,
            forall|k: int|
                0 <= k < i ==> (#[trigger] events@[k])@ == crate::publisher_event::envelope_view(
                    batch@[k]@,
                ),
        decreases batch.len() - i,
    {
        events.push(batch[i].to_json());
        i = i + 1;
    }
    let mut f: Record = Record::new();
    f.push("subSessionId", Json::Int(sub_session_id as i128));
    f.push("sessionTime", Json::Decimal(session_time));
    f.push("sessionTick", Json::Int(session_tick as i128));
    proof {
        assert(crate::json::list_view(events@) =~= Seq::new(
            batch@.len(),
            |i: int| crate::publisher_event::envelope_view(batch@[i]@),
        ));
    }
    f.push("events", Json::List(events));
    assert(f@ =~= ingest_view(batch@, session_time, session_tick, sub_session_id)->Object_0);
    f.into_json()
}

/// What the ingest endpoint replied.
#[derive(Debug)]
pub enum PostReply {
    /// Accepted.
    Success,
    /// A status other than success.
    Status(u16),
    /// No reply at all, and why.
    Network(String),
}

/// What has to be done for a batch.
#[derive(Debug)]
pub enum PostAction {
    /// Wait this many milliseconds, make sure of a token, and send again.
    Retry(u64),
    /// Forget the token, fetch another, and send a last time.
    RefreshAndRetry,
    /// The batch is delivered.
    Delivered,
    /// The batch is lost.
    Fail(TransportError),
}

/// How far the delivery of a batch has come.
#[derive(Debug, Clone, Copy, PartialEq, Eq, Structural)]
pub struct BatchPost {
    /// Attempts that have failed.
    pub attempt: u32,
    /// The token was refreshed on account of a 401; the next reply is final.
    pub refreshed: bool,
}

/// Milliseconds to wait before the attempt that follows `failed` failures.
pub open spec fn retry_delay(failed: u32) -> u64 {
    if failed <= 1 {
        500
    } else if failed == 2 {
        1_000
    } else {
        2_000
    }
}

/// What is said of a reply.
pub open spec fn reply_text(reply: PostReply) -> Seq<char> {
    match reply {
        PostReply::Success => Seq::empty(),
        PostReply::Status(code) => "HTTP "@ + crate::text::decimal(code as nat),
        PostReply::Network(e) => "network error: "@ + e@,
    }
}

/// What is said of a reply after the forced refresh.
pub open spec fn final_text(reply: PostReply) -> Seq<char> {
    match reply {
        PostReply::Success => Seq::empty(),
        PostReply::Status(code) => "HTTP "@ + crate::text::decimal(code as nat)
            + " after forced token refresh — fatal"@,
        PostReply::Network(e) => "network error after token refresh: "@ + e@,
    }
}

/// Whether an action is the right one for a reply, and what is remembered.
///
/// A success ends the delivery. A 401 on the first attempt forces one refresh,
/// after which any failure is final; a later 401 is fatal. Any other failure is
/// tried again until the attempts are used up.
pub open spec fn replied(before: BatchPost, reply: PostReply, action: PostAction, after: BatchPost) -> bool {
    if reply is Success {
        action is Delivered && after == before
    } else if before.refreshed {
        action matches PostAction::Fail(e) && e.0@ == final_text(reply) && after == before
    } else if reply == PostReply::Status(401) {
        if before.attempt == 0 {
            action is RefreshAndRetry && after == (BatchPost { refreshed: true, ..before })
        } else {
            action matches PostAction::Fail(e) && e.0@
                == "401 after forced token refresh — fatal"@ && after == before
        }
    } else if before.attempt + 1 < MAX_ATTEMPTS {
        action == PostAction::Retry(retry_delay((before.attempt + 1) as u32)) && after == (
        BatchPost { attempt: (before.attempt + 1) as u32, ..before })
    } else {
        action matches PostAction::Fail(e) && e.0@ == "max retries exceeded: "@ + reply_text(reply)
            && after == before
    }
}

fn describe(reply: &PostReply) -> (r: String)
    ensures
        r@ == reply_text(*reply),
{
    match reply {
        PostReply::Success => String::new(),
        PostReply::Status(code) => {
            let mut s: String = "HTTP ".to_owned();
            push_decimal(&mut s, *code as u64);
            s
        },
        PostReply::Network(e) => {
            let mut s: String = "network error: ".to_owned();
            s.append(e.as_str());
            s
        },
    }
}

impl BatchPost {
    /// A batch that has not been sent.
    pub fn new() -> (r: Self)
        ensures
            r == (BatchPost { attempt: 0, refreshed: false }),
    {
        BatchPost { attempt: 0, refreshed: false }
    }

    /// Takes in the reply to an attempt and says what to do.
    pub fn on_reply(&mut self, reply: PostReply) -> (r: PostAction)
        ensures
            replied(*old(self), reply, r, *final(self)),
    {
        if self.refreshed {
            return match reply {
                PostReply::Success => PostAction::Delivered,
                PostReply::Status(code) => {
                    let mut s: String = "HTTP ".to_owned();
                    push_decimal(&mut s, code as u64);
                    s.append(" after forced token refresh — fatal");
                    PostAction::Fail(TransportError(s))
                },
                PostReply::Network(e) => {
                    let mut s: String = "network error after token refresh: ".to_owned();
                    s.append(e.as_str());
                    PostAction::Fail(TransportError(s))
                },
            };
        }
        let unauthorised: bool = match &reply {
            PostReply::Success => {
                return PostAction::Delivered;
            },
            PostReply::Status(code) => *code == 401,
            PostReply::Network(_) => false,
        };
        if unauthorised {
            if self.attempt == 0 {
                self.refreshed = true;
                return PostAction::RefreshAndRetry;
            }
            return PostAction::Fail(
                TransportError("401 after forced token refresh — fatal".to_owned()),
            );
        }
        if self.attempt < MAX_ATTEMPTS - 1 {
            self.attempt = self.attempt + 1;
            let delay: u64 = if self.attempt <= 1 {
                500
            } else if self.attempt == 2 {
                1_000
            } else {
                2_000
            };
            PostAction::Retry(delay)
        } else {
            let mut s: String = "max retries exceeded: ".to_owned();
            let last: String = describe(&reply);
            s.append(last.as_str());
            PostAction::Fail(TransportError(s))
        }
    }
}

/// The queue cut into batches.
pub open spec fn batches(queue: Seq<PublisherEvent>) -> Seq<Seq<PublisherEvent>>
    decreases queue.len(),
{
    if queue.len() == 0 {
        Seq::empty()
    } else {
        seq![next_batch(queue)] + batches(after_batch(queue))
    }
}

/// A flush delivers every event once and in order: the batches, one behind the
/// other, are the queue, and none is empty or over the limit.
pub proof fn batches_are_the_queue(queue: Seq<PublisherEvent>)
    ensures
        batches(queue).flatten() == queue,
        forall|i: int|
            0 <= i < batches(queue).len() ==> 0 < (#[trigger] batches(queue)[i]).len()
                <= BATCH_LIMIT,
    decreases queue.len(),
{
    if queue.len() == 0 {
        assert(batches(queue).flatten() =~= queue);
    } else {
        let rest = after_batch(queue);
        batches_are_the_queue(rest);
        let all = batches(queue);
        assert(all.drop_first() =~= batches(rest));
        assert(all.first() == next_batch(queue));
        assert(next_batch(queue) + rest =~= queue);
        assert forall|i: int| 0 <= i < all.len() implies 0 < (#[trigger] all[i]).len()
            <= BATCH_LIMIT by {
            if i > 0 {
                assert(all[i] == batches(rest)[i - 1]);
            }
        }
    }
}

/// A batch is given up after four attempts and one refresh at most: every reply
/// but a success brings its end closer.
pub open spec fn attempts_left(p: BatchPost) -> int {
    if p.refreshed {
        1
    } else {
        MAX_ATTEMPTS - p.attempt + 1
    }
}

/// Delivery does not go on for ever: where it goes on, fewer attempts are left.
pub proof fn delivery_ends(
    before: BatchPost,
    reply: PostReply,
    action: PostAction,
    after: BatchPost,
)
    requires
        before.attempt < MAX_ATTEMPTS,
        replied(before, reply, action, after),
        action is Retry || action is RefreshAndRetry,
    ensures
        0 < attempts_left(after) < attempts_left(before),
        after.attempt < MAX_ATTEMPTS,
{
}

/// A token is used until the refresh buffer before its end and not longer: as long
/// as more than the buffer is left of it none is fetched, and from then on one is.
pub proof fn a_fresh_token_is_reused(token: Seq<char>, now_s: u64, expires_in: u64, later_s: u64)
    requires
        now_s + expires_in <= u64::MAX,
    ensures
        must_refresh(
            Some(TokenView { token, expires_at: expiry(now_s, expires_in) }),
            false,
            later_s,
        ) <==> later_s + TOKEN_REFRESH_BUFFER_S >= now_s + expires_in,
{
}

/// Every batch but the last has twenty events, and the last one has what is left.
pub proof fn every_batch_but_the_last_is_full(queue: Seq<PublisherEvent>)
    ensures
        forall|i: int|
            0 <= i < batches(queue).len() - 1 ==> (#[trigger] batches(queue)[i]).len() == 20,
        20 * batches(queue).len() < queue.len() + 20,
        queue.len() <= 20 * batches(queue).len(),
    decreases queue.len(),
{
    if queue.len() > 0 {
        let rest = after_batch(queue);
        every_batch_but_the_last_is_full(rest);
        let all = batches(queue);
        assert(all.len() == 1 + batches(rest).len());
        assert forall|i: int| 0 <= i < all.len() - 1 implies (#[trigger] all[i]).len() == 20 by {
            if i > 0 {
                assert(all[i] == batches(rest)[i - 1]);
            } else {
                assert(all[0] == next_batch(queue));
                assert(rest.len() > 0) by {
                    if rest.len() == 0 {
                        assert(batches(rest).len() == 0);
                    }
                }
            }
        }
    }
}

/// A flush is due with the twentieth event, and as soon as the interval has passed since
/// the last one; not before.
pub proof fn a_flush_is_due_in_time(t: TransportView, now_ms: u64)
    requires
        t.last_flush_ms <= now_ms,
    ensures
        flush_due(t, now_ms) <==> t.queue.len() >= 20 || now_ms - t.last_flush_ms
            >= t.batch_interval_ms,
{
}

/// A batch that fails, other than for want of authority, is sent again after half a
/// second, after one second and after two seconds, and then given up.
pub proof fn a_batch_is_sent_again_three_times(
    failed: u32,
    reply: PostReply,
    action: PostAction,
    after: BatchPost,
)
    requires
        replied(BatchPost { attempt: failed, refreshed: false }, reply, action, after),
        reply is Network || (reply matches PostReply::Status(code) && code != 401),
    ensures
        failed == 0 ==> action == PostAction::Retry(500) && after.attempt == 1,
        failed == 1 ==> action == PostAction::Retry(1_000) && after.attempt == 2,
        failed == 2 ==> action == PostAction::Retry(2_000) && after.attempt == 3,
        failed >= 3 ==> action is Fail,
        !after.refreshed,
{
}

/// Want of authority has the token fetched anew once, on the first attempt only, and
/// whatever fails after that is final. A success is the end.
pub proof fn authority_is_asked_for_once(
    before: BatchPost,
    reply: PostReply,
    action: PostAction,
    after: BatchPost,
)
    requires
        replied(before, reply, action, after),
    ensures
        reply is Success <==> action is Delivered,
        action is RefreshAndRetry <==> reply == PostReply::Status(401) && before.attempt == 0
            && !before.refreshed,
        action is RefreshAndRetry ==> after.refreshed && after.attempt == 0,
        before.refreshed && !(reply is Success) ==> action is Fail,
        reply == PostReply::Status(401) && before.attempt > 0 ==> action is Fail,
{
}

/// A token is fetched where there is none, where it is forced, and from one minute before
/// the end of the one that there is.
pub proof fn a_token_is_fetched_a_minute_before_its_end(
    token: Seq<char>,
    now_s: u64,
    expires_in: u64,
    later_s: u64,
)
    requires
        now_s + expires_in <= u64::MAX,
    ensures
        ({
            let kept = Some(TokenView { token, expires_at: expiry(now_s, expires_in) });
            &&& must_refresh(kept, false, later_s) <==> later_s + 60 >= now_s + expires_in
            &&& must_refresh(kept, true, later_s)
            &&& must_refresh(None, false, later_s)
        }),
{
}

} // verus!
