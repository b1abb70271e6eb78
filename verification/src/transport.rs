//! Relay URL validation and the reconnect backoff policy.

use vstd::prelude::*;
use vstd::arithmetic::power2::{pow2, lemma_pow2_unfold};

verus! {

/// The error type of `url::Url::parse`, carried through opaquely.
#[verifier::external_type_specification]
#[verifier::external_body]
pub struct ExUrlParseError(url::ParseError);

/// The serialization of the URL that `url::Url::parse` makes of `input`, or
/// `None` where it rejects the input.
pub uninterp spec fn url_serialization(input: Seq<char>) -> Option<Seq<char>>;

/// Calls `url::Url::parse` and hands back the serialization of the parsed URL
/// (`Url::into_string`). Claimed: it succeeds exactly where the named result
/// is `Some`, and then returns that serialization. What the parser accepts and
/// how it normalises (WHATWG URL standard) is not stated beyond the name.
#[verifier::external_body]
fn parse_url(input: &str) -> (res: Result<String, url::ParseError>)
    ensures
        match res {
            Ok(s) => url_serialization(input@) == Some(s@),
            Err(_) => url_serialization(input@) is None,
        },
{
    match url::Url::parse(input) {
        Ok(u) => Ok(u.into_string()),
        Err(e) => Err(e),
    }
}

/// Why a relay address cannot be used.
#[derive(Clone, Copy, Debug, PartialEq, Eq, Structural)]
pub enum TransportError {
    /// The relay URL does not parse ("Invalid WebSocket URL").
    InvalidUrl,
}

/// Validates a relay URL before connecting. On success the normalised URL is
/// what the WebSocket handshake is sent to.
pub fn parse_relay_url(url: &str) -> (res: Result<String, TransportError>)
    ensures
        match url_serialization(url@) {
            Some(s) => res matches Ok(t) && t@ == s,
            None => res == Err::<String, TransportError>(TransportError::InvalidUrl),
        },
{
    match parse_url(url) {
        Ok(s) => Ok(s),
        Err(_) => Err(TransportError::InvalidUrl),
    }
}

/// Controls how long to wait between reconnect attempts.
#[derive(Clone, Copy, Debug, PartialEq, Eq, Structural)]
pub struct BackoffConfig {
    /// How long to wait after the first failure (milliseconds).
    pub initial_ms: u64,
    /// Maximum wait time; delays are capped here (milliseconds).
    pub max_ms: u64,
}

impl Default for BackoffConfig {
    /// One second at first, at most one minute.
    fn default() -> (c: Self)
        ensures
            c.initial_ms == 1000,
            c.max_ms == 60000,
    {
        BackoffConfig { initial_ms: 1_000, max_ms: 60_000 }
    }
}

/// The delay that follows a delay of `delay` ms: twice as long, capped at `max_ms`.
pub open spec fn doubled_delay(config: BackoffConfig, delay: int) -> int {
    if 2 * delay <= config.max_ms {
        2 * delay
    } else {
        config.max_ms as int
    }
}

/// How long the agent sleeps after its `k`-th failed connection attempt
/// (counting from 0) before it tries again.
pub open spec fn delay_after_failure(config: BackoffConfig, k: nat) -> int
    decreases k,
{
    if k == 0 {
        config.initial_ms as int
    } else {
        doubled_delay(config, delay_after_failure(config, (k - 1) as nat))
    }
}

impl BackoffConfig {
    /// The delay to sleep after the first failure.
    pub fn first_delay(&self) -> (d: u64)
        ensures
            d == delay_after_failure(*self, 0),
    {
        self.initial_ms
    }

    /// The delay that follows `delay_ms`: doubled, capped at `max_ms`.
    pub fn next_delay(&self, delay_ms: u64) -> (d: u64)
        requires
            delay_ms <= u64::MAX / 2,
        ensures
            d == doubled_delay(*self, delay_ms as int),
    {
        let doubled = delay_ms * 2;
        if doubled <= self.max_ms {
            doubled
        } else {
            self.max_ms
        }
    }
}

/// The reconnect loop's state: how long to sleep after the next failed
/// attempt. Connection attempts are retried forever.
pub struct Reconnect {
    config: BackoffConfig,
    delay_ms: u64,
    failures: Ghost<nat>,
}

impl Reconnect {
    #[verifier::type_invariant]
    spec fn inv(self) -> bool {
        self.delay_ms == delay_after_failure(self.config, self.failures@)
    }

    /// The backoff settings in force.
    pub closed spec fn backoff(self) -> BackoffConfig {
        self.config
    }

    /// How many attempts have failed so far.
    pub closed spec fn failures(self) -> nat {
        self.failures@
    }

    /// The state before the first attempt.
    pub fn new(config: BackoffConfig) -> (r: Reconnect)
        ensures
            r.backoff() == config,
            r.failures() == 0,
    {
        Reconnect { config, delay_ms: config.initial_ms, failures: Ghost(0) }
    }

    /// How long the next failure will be followed by a sleep (milliseconds).
    pub fn pending_delay(&self) -> (d: u64)
        ensures
            d == delay_after_failure(self.backoff(), self.failures()),
    {
        proof {
            use_type_invariant(self);
        }
        self.delay_ms
    }

    /// An attempt failed: returns how long to sleep before the next attempt
    /// and doubles the delay for the time after, up to the cap.
    pub fn on_failure(&mut self) -> (sleep_ms: u64)
        requires
            delay_after_failure(old(self).backoff(), old(self).failures()) <= u64::MAX / 2,
        ensures
            sleep_ms == delay_after_failure(old(self).backoff(), old(self).failures()),
            final(self).backoff() == old(self).backoff(),
            final(self).failures() == old(self).failures() + 1,
    {
        proof {
            use_type_invariant(&*self);
        }
        let sleep_ms = self.delay_ms;
        let next = self.config.next_delay(sleep_ms);
        let ghost failures = self.failures@ + 1;
        *self = Reconnect { config: self.config, delay_ms: next, failures: Ghost(failures) };
        sleep_ms
    }
}

/// After the first failure, no delay exceeds the cap.
pub proof fn lemma_delay_capped(config: BackoffConfig, k: nat)
    requires
        k >= 1,
    ensures
        delay_after_failure(config, k) <= config.max_ms,
{
}

/// The delays never shrink when the first one is within the cap.
pub proof fn lemma_delay_monotone(config: BackoffConfig, j: nat, k: nat)
    requires
        config.initial_ms <= config.max_ms,
        j <= k,
    ensures
        delay_after_failure(config, j) <= delay_after_failure(config, k),
    decreases k - j,
{
    if j < k {
        lemma_delay_monotone(config, j, (k - 1) as nat);
        lemma_delay_bounded(config, (k - 1) as nat);
    }
}

/// Every delay lies between zero and the larger of the first delay and the cap.
proof fn lemma_delay_bounded(config: BackoffConfig, k: nat)
    ensures
        0 <= delay_after_failure(config, k),
        config.initial_ms <= config.max_ms ==> delay_after_failure(config, k) <= config.max_ms,
    decreases k,
{
    if k > 0 {
        lemma_delay_bounded(config, (k - 1) as nat);
    }
}

/// The delay after the `k`-th failure (k >= 1) is the first delay doubled `k`
/// times, capped at `max_ms`: exponential backoff.
pub proof fn lemma_delay_closed_form(config: BackoffConfig, k: nat)
    requires
        k >= 1,
    ensures
        delay_after_failure(config, k) == (if config.initial_ms * pow2(k) <= config.max_ms {
            config.initial_ms * pow2(k)
        } else {
            config.max_ms as int
        }),
    decreases k,
{
    let i = config.initial_ms as int;
    let m = config.max_ms as int;
    lemma_pow2_unfold(k);
    let p = pow2((k - 1) as nat) as int;
    assert(i * pow2(k) == 2 * (i * p)) by (nonlinear_arith)
        requires
            pow2(k) == 2 * p,
    ;
    let prev = delay_after_failure(config, (k - 1) as nat);
    if k > 1 {
        lemma_delay_closed_form(config, (k - 1) as nat);
        assert(prev == (if i * p <= m { i * p } else { m }));
    } else {
        assert(p == 1) by {
            vstd::arithmetic::power2::lemma2_to64();
        }
        assert(i * p == i) by (nonlinear_arith)
            requires
                p == 1,
        ;
    }
    assert(i * p >= 0) by (nonlinear_arith)
        requires
            i >= 0,
            p >= 0,
    ;
}

} // verus!
