//! What to do with each answer of the service: hand it on, wait and send the
//! request again, or fail.

use vstd::prelude::*;
use vstd::string::StringExecFns;
use crate::config::{DEFAULT_RETRY_DELAY_SECS, MAX_RETRIES};
use crate::error::Error;
use crate::output::{line2, spans_of, Span, Style};
use crate::text::{decimal_digits, opt_text, parse_u64, parsed_u64, push_decimal};

verus! {

/// The status with which the service asks the client to slow down.
pub const TOO_MANY_REQUESTS: u16 = 429;

/// One answer of the service, as far as the client reads it.
#[derive(Debug, PartialEq, Eq)]
pub struct HttpReply {
    pub status: u16,
    /// The value of the header `Retry-After`, where the answer has one.
    pub retry_after: Option<String>,
    pub body: String,
}

/// The mathematical value of an [`HttpReply`].
pub struct ReplyView {
    pub status: u16,
    pub retry_after: Option<Seq<char>>,
    pub body: Seq<char>,
}

impl View for HttpReply {
    type V = ReplyView;

    open spec fn view(&self) -> ReplyView {
        ReplyView { status: self.status, retry_after: opt_text(self.retry_after), body: self.body@ }
    }
}

/// What the client does after an answer.
#[derive(Debug, PartialEq, Eq)]
pub enum Step {
    /// The answer is a success; its body goes to the caller.
    Deliver(String),
    /// The service throttles: wait `seconds`, then send the request again.
    /// This is retry number `attempt`.
    Wait { seconds: u64, attempt: u32 },
    /// The request has failed.
    Fail(Error),
}

/// How a run of answers ends.
pub enum Outcome {
    /// A success with this body.
    Delivered(Seq<char>),
    /// The service throttled once more than the client retries.
    Exhausted,
    /// The service refused with this status and body.
    Rejected(u16, Seq<char>),
    /// The answers ran out while the client was waiting to try again.
    Pending,
}

/// The waits of a run of answers, and how it ends.
pub struct Run {
    pub waits: Seq<u64>,
    pub outcome: Outcome,
}

/// Whether a status reports success.
pub open spec fn is_success(status: u16) -> bool {
    200 <= status < 300
}

/// The seconds to wait before the next attempt: the number in the header,
/// or the default where the header is missing or holds no number.
pub open spec fn delay_of(retry_after: Option<Seq<char>>) -> u64 {
    match retry_after {
        Some(t) => match parsed_u64(t) {
            Some(n) => n,
            None => DEFAULT_RETRY_DELAY_SECS,
        },
        None => DEFAULT_RETRY_DELAY_SECS,
    }
}

/// What a client that has retried `retries` times makes of `replies`, which
/// it receives one for each attempt.
pub open spec fn run(retries: nat, replies: Seq<ReplyView>) -> Run
    decreases replies.len(),
{
    if replies.len() == 0 {
        Run { waits: Seq::empty(), outcome: Outcome::Pending }
    } else {
        let reply = replies[0];
        if reply.status == TOO_MANY_REQUESTS {
            if retries >= MAX_RETRIES {
                Run { waits: Seq::empty(), outcome: Outcome::Exhausted }
            } else {
                let rest = run(retries + 1, replies.drop_first());
                Run {
                    waits: seq![delay_of(reply.retry_after)] + rest.waits,
                    outcome: rest.outcome,
                }
            }
        } else if is_success(reply.status) {
            Run { waits: Seq::empty(), outcome: Outcome::Delivered(reply.body) }
        } else {
            Run { waits: Seq::empty(), outcome: Outcome::Rejected(reply.status, reply.body) }
        }
    }
}

/// The notice shown before a wait.
pub open spec fn notice_of(seconds: u64, attempt: u32) -> Seq<(Seq<char>, Style)> {
    seq![
        ("⚠"@, Style::Yellow),
        (
            " Rate limited. Waiting "@ + decimal_digits(seconds as nat)
                + " seconds before retry ("@ + decimal_digits(attempt as nat) + "/"@
                + decimal_digits(MAX_RETRIES as nat) + ")..."@,
            Style::Plain,
        ),
    ]
}

/// With `k` retries left, `k` throttling answers and then a success end in
/// that success, after `k` waits of the lengths that the answers named.
pub proof fn lemma_success_after_throttling(retries: nat, replies: Seq<ReplyView>, k: int)
    requires
        0 <= k,
        retries + k <= MAX_RETRIES,
        k < replies.len(),
        forall|i: int| 0 <= i < k ==> (#[trigger] replies[i]).status == TOO_MANY_REQUESTS,
        is_success(replies[k].status),
    ensures
        run(retries, replies).outcome == Outcome::Delivered(replies[k].body),
        run(retries, replies).waits.len() == k,
        forall|i: int|
            0 <= i < k ==> #[trigger] run(retries, replies).waits[i] == delay_of(
                replies[i].retry_after,
            ),
    decreases k,
{
    if k > 0 {
        let rest = replies.drop_first();
        assert forall|i: int| 0 <= i < k - 1 implies (#[trigger] rest[i]).status
            == TOO_MANY_REQUESTS by {
            assert(rest[i] == replies[i + 1]);
        }
        assert(rest[k - 1] == replies[k]);
        lemma_success_after_throttling(retries + 1, rest, k - 1);
        let r = run(retries, replies);
        let tail = run(retries + 1, rest);
        assert forall|i: int| 0 <= i < k implies #[trigger] r.waits[i] == delay_of(
            replies[i].retry_after,
        ) by {
            if i > 0 {
                assert(r.waits[i] == tail.waits[i - 1]);
                assert(rest[i - 1] == replies[i]);
            }
        }
    }
}

/// With `k` retries left, `k + 1` throttling answers in a row exhaust the
/// client, after `k` waits.
pub proof fn lemma_throttling_exhausts(retries: nat, replies: Seq<ReplyView>, k: int)
    requires
        0 <= k,
        retries + k == MAX_RETRIES,
        k < replies.len(),
        forall|i: int| 0 <= i <= k ==> (#[trigger] replies[i]).status == TOO_MANY_REQUESTS,
    ensures
        run(retries, replies).outcome == Outcome::Exhausted,
        run(retries, replies).waits.len() == k,
    decreases k,
{
    if k > 0 {
        let rest = replies.drop_first();
        assert forall|i: int| 0 <= i <= k - 1 implies (#[trigger] rest[i]).status
            == TOO_MANY_REQUESTS by {
            assert(rest[i] == replies[i + 1]);
        }
        lemma_throttling_exhausts(retries + 1, rest, k - 1);
    }
}

/// Three throttling answers and then a success end in that success after
/// three waits; a fourth throttling answer in a row ends in exhaustion.
pub proof fn lemma_retry_budget(replies: Seq<ReplyView>)
    requires
        replies.len() >= 4,
        replies[0].status == TOO_MANY_REQUESTS,
        replies[1].status == TOO_MANY_REQUESTS,
        replies[2].status == TOO_MANY_REQUESTS,
    ensures
        is_success(replies[3].status) ==> run(0, replies).outcome == Outcome::Delivered(
            replies[3].body,
        ) && run(0, replies).waits.len() == 3,
        replies[3].status == TOO_MANY_REQUESTS ==> run(0, replies).outcome == Outcome::Exhausted
            && run(0, replies).waits.len() == 3,
{
    if is_success(replies[3].status) {
        lemma_success_after_throttling(0, replies, 3);
    }
    if replies[3].status == TOO_MANY_REQUESTS {
        lemma_throttling_exhausts(0, replies, 3);
    }
}

/// How often the request at hand has been sent again.
#[derive(Debug, PartialEq, Eq)]
pub struct RetryState {
    retries: u32,
}

impl RetryState {
    /// The number of retries made so far.
    pub closed spec fn retries(&self) -> nat {
        self.retries as nat
    }

    /// The state before the first attempt of a request.
    pub fn new() -> (r: RetryState)
        ensures
            r.retries() == 0,
    {
        RetryState { retries: 0 }
    }

    /// The number of retries made so far.
    pub fn attempts(&self) -> (r: u32)
        ensures
            r == self.retries(),
    {
        self.retries
    }

    /// Decides what follows an answer.
    ///
    /// A throttling answer is followed by a wait and another attempt, up to
    /// the permitted number of retries; after that it is a failure. Any other
    /// status outside the range of successes is a failure that carries the
    /// status and the body. A success hands its body on.
    pub fn on_reply(&mut self, reply: HttpReply) -> (r: Step)
        ensures
            reply.status == TOO_MANY_REQUESTS && old(self).retries() >= MAX_RETRIES ==> r
                == Step::Fail(Error::RateLimitExhausted) && final(self).retries() == old(
                self,
            ).retries(),
            reply.status == TOO_MANY_REQUESTS && old(self).retries() < MAX_RETRIES ==> r
                == (Step::Wait {
                seconds: delay_of(reply@.retry_after),
                attempt: (old(self).retries() + 1) as u32,
            }) && final(self).retries() == old(self).retries() + 1,
            reply.status != TOO_MANY_REQUESTS ==> final(self).retries() == old(self).retries(),
            reply.status != TOO_MANY_REQUESTS && is_success(reply.status) ==> (r matches Step::Deliver(
                body,
            ) && body@ == reply.body@),
            reply.status != TOO_MANY_REQUESTS && !is_success(reply.status) ==> (r matches Step::Fail(
                Error::ApiError { status, body },
            ) && status == reply.status && body@ == reply.body@),
    {
        if reply.status == TOO_MANY_REQUESTS {
            if self.retries >= MAX_RETRIES {
                return Step::Fail(Error::RateLimitExhausted);
            }
            let seconds = retry_delay(&reply.retry_after);
            self.retries = self.retries + 1;
            Step::Wait { seconds, attempt: self.retries }
        } else if 200 <= reply.status && reply.status < 300 {
            Step::Deliver(reply.body)
        } else {
            Step::Fail(Error::ApiError { status: reply.status, body: reply.body })
        }
    }
}

/// The seconds to wait before the next attempt.
pub fn retry_delay(retry_after: &Option<String>) -> (r: u64)
    ensures
        r == delay_of(opt_text(*retry_after)),
{
    match retry_after {
        Some(t) => match parse_u64(t.as_str()) {
            Some(n) => n,
            None => DEFAULT_RETRY_DELAY_SECS,
        },
        None => DEFAULT_RETRY_DELAY_SECS,
    }
}

/// The notice for the operator that a wait is about to begin.
pub fn retry_notice(seconds: u64, attempt: u32) -> (r: Vec<Span>)
    ensures
        spans_of(r@) == notice_of(seconds, attempt),
{
    let mut text = String::from_str(" Rate limited. Waiting ");
    push_decimal(&mut text, seconds);
    text.append(" seconds before retry (");
    push_decimal(&mut text, attempt as u64);
    text.append("/");
    push_decimal(&mut text, MAX_RETRIES as u64);
    text.append(")...");
    line2(Span::styled("⚠", Style::Yellow), Span::new(text, Style::Plain))
}

/// How a run of answers ended.
#[derive(Debug, PartialEq, Eq)]
pub enum Ending {
    /// A success with this body.
    Delivered(String),
    /// A failure.
    Failed(Error),
    /// The answers ran out while the client was waiting to try again.
    Pending,
}

/// The values of a run of answers.
pub open spec fn replies_of(replies: Seq<HttpReply>) -> Seq<ReplyView> {
    replies.map_values(|r: HttpReply| r@)
}

/// Whether `ending` is the outcome `outcome`.
pub open spec fn is_outcome(ending: Ending, outcome: Outcome) -> bool {
    match outcome {
        Outcome::Delivered(b) => ending matches Ending::Delivered(body) && body@ == b,
        Outcome::Exhausted => ending == Ending::Failed(Error::RateLimitExhausted),
        Outcome::Rejected(s, b) => ending matches Ending::Failed(Error::ApiError { status, body })
            && status == s && body@ == b,
        Outcome::Pending => ending == Ending::Pending,
    }
}

/// Plays a request against the answers that a service gave, one for each
/// attempt, and reports the waits and the end.
pub fn replay(replies: Vec<HttpReply>) -> (r: (Vec<u64>, Ending))
    ensures
        r.0@ == run(0, replies_of(replies@)).waits,
        is_outcome(r.1, run(0, replies_of(replies@)).outcome),
{
    let mut state = RetryState::new();
    let mut waits: Vec<u64> = Vec::new();
    let ghost all = replies_of(replies@);
    proof {
        assert(all.skip(0) =~= all);
        assert(waits@ + run(0, all).waits =~= run(0, all).waits);
    }
    for reply in it: replies
        invariant
            it.seq() == replies@,
            all == replies_of(replies@),
            state.retries() <= MAX_RETRIES,
            run(0, all).waits == waits@ + run(state.retries(), all.skip(it.index() as int)).waits,
            run(0, all).outcome == run(state.retries(), all.skip(it.index() as int)).outcome,
    {
        let ghost k = it.index() as int;
        proof {
            assert(all.skip(k)[0] == reply@);
            assert(all.skip(k).drop_first() =~= all.skip(k + 1));
        }
        match state.on_reply(reply) {
            Step::Wait { seconds, attempt } => {
                proof {
                    let rest = run(state.retries(), all.skip(k + 1));
                    assert(waits@.push(seconds) + rest.waits =~= waits@ + (seq![seconds]
                        + rest.waits));
                }
                waits.push(seconds);
            },
            Step::Deliver(body) => {
                proof {
                    assert(waits@ + Seq::<u64>::empty() =~= waits@);
                }
                return (waits, Ending::Delivered(body));
            },
            Step::Fail(e) => {
                proof {
                    assert(waits@ + Seq::<u64>::empty() =~= waits@);
                }
                return (waits, Ending::Failed(e));
            },
        }
    }
    proof {
        assert(all.skip(all.len() as int) =~= Seq::empty());
        assert(waits@ + Seq::<u64>::empty() =~= waits@);
    }
    (waits, Ending::Pending)
}

} // verus!
