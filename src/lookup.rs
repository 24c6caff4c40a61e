use vstd::prelude::*;
use vstd::utf8::*;

use crate::error::DbError;
use crate::text::decode_value;

verus! {

/// What the native `get` returns when the key is absent.
pub const NOT_FOUND: isize = 0;

/// What the native `get` returns when the destination buffer is too small.
pub const TOO_SMALL: isize = -2;

/// The bounds of the grow-and-retry protocol: the first buffer's size, and
/// how many native calls one lookup may make in all.
#[derive(Clone, Copy, Debug, PartialEq, Eq)]
pub struct RetryPolicy {
    pub initial_size: usize,
    pub max_attempts: usize,
}

impl RetryPolicy {
    pub open spec fn wf(&self) -> bool {
        self.initial_size > 0 && self.max_attempts > 0
    }

    /// A first buffer of 256 bytes, doubled up to 15 times.
    pub fn standard() -> (r: RetryPolicy)
        ensures
            r.wf(),
            r.initial_size == 256,
            r.max_attempts == 16,
    {
        RetryPolicy { initial_size: 256, max_attempts: 16 }
    }
}

/// What one native `get` result decides, before any byte is decoded.
#[derive(Clone, Copy, Debug, PartialEq, Eq)]
pub enum Decision {
    /// Call again with a buffer of this size.
    Retry { size: usize },
    /// The value is the first `len` bytes of the buffer.
    Found { len: usize },
    /// The key is absent.
    Missing,
    /// The buffer was too small and no further call is allowed.
    TooSmall,
    /// A failure, or a length that the buffer cannot hold.
    Failed,
}

/// The decision for native result `n`, made with a buffer of `size` bytes
/// after `attempts` earlier calls.
pub open spec fn decision_of(p: RetryPolicy, size: nat, attempts: nat, n: int) -> Decision {
    if n == NOT_FOUND {
        Decision::Missing
    } else if n == TOO_SMALL {
        if attempts + 1 < p.max_attempts && 2 * size <= usize::MAX {
            Decision::Retry { size: (2 * size) as usize }
        } else {
            Decision::TooSmall
        }
    } else if 0 < n <= size {
        Decision::Found { len: n as usize }
    } else {
        Decision::Failed
    }
}

/// The state of one lookup: the size of the buffer for the next native call
/// and the number of calls made so far.
pub struct GetRetry {
    policy: RetryPolicy,
    size: usize,
    attempts: usize,
}

/// What the caller does after a native `get`: call again with a larger
/// buffer, or return the lookup's result.
#[derive(Debug)]
pub enum GetStep {
    Grow(usize),
    Done(Result<Option<String>, DbError>),
}

impl GetRetry {
    pub closed spec fn spec_policy(&self) -> RetryPolicy {
        self.policy
    }

    pub closed spec fn spec_size(&self) -> nat {
        self.size as nat
    }

    pub closed spec fn spec_attempts(&self) -> nat {
        self.attempts as nat
    }

    pub open spec fn wf(&self) -> bool {
        &&& self.spec_policy().wf()
        &&& self.spec_size() > 0
        &&& self.spec_attempts() < self.spec_policy().max_attempts
    }

    /// A lookup that has made no call yet.
    pub fn new(policy: RetryPolicy) -> (r: GetRetry)
        requires
            policy.wf(),
        ensures
            r.wf(),
            r.spec_policy() == policy,
            r.spec_size() == policy.initial_size,
            r.spec_attempts() == 0,
    {
        GetRetry { policy, size: policy.initial_size, attempts: 0 }
    }

    /// The size of the buffer to hand to the next native call.
    pub fn buffer_size(&self) -> (r: usize)
        ensures
            r == self.spec_size(),
    {
        self.size
    }

    /// Decides on native result `n`. A retry doubles the buffer and counts
    /// the call.
    pub fn decide(&mut self, n: isize) -> (d: Decision)
        requires
            old(self).wf(),
        ensures
            d == decision_of(
                old(self).spec_policy(),
                old(self).spec_size(),
                old(self).spec_attempts(),
                n as int,
            ),
            final(self).spec_policy() == old(self).spec_policy(),
            d matches Decision::Retry { size } ==> {
                &&& final(self).wf()
                &&& final(self).spec_size() == size
                &&& final(self).spec_attempts() == old(self).spec_attempts() + 1
            },
    {
        if n == NOT_FOUND {
            Decision::Missing
        } else if n == TOO_SMALL {
            if self.attempts + 1 < self.policy.max_attempts && self.size <= usize::MAX / 2 {
                self.size = 2 * self.size;
                self.attempts = self.attempts + 1;
                Decision::Retry { size: self.size }
            } else {
                Decision::TooSmall
            }
        } else if 0 < n && n as usize <= self.size {
            Decision::Found { len: n as usize }
        } else {
            Decision::Failed
        }
    }

    /// Takes the result `n` of a native `get` made with `buf`, a buffer of
    /// the current size. Either asks for another call with a larger buffer,
    /// or gives the lookup's result: the value as UTF-8 text, absent, or the
    /// error.
    pub fn on_result(&mut self, n: isize, buf: &[u8]) -> (step: GetStep)
        requires
            old(self).wf(),
            buf@.len() == old(self).spec_size(),
        ensures
            final(self).spec_policy() == old(self).spec_policy(),
            ({
                let d = decision_of(
                    old(self).spec_policy(),
                    old(self).spec_size(),
                    old(self).spec_attempts(),
                    n as int,
                );
                match d {
                    Decision::Retry { size } => {
                        &&& step == GetStep::Grow(size)
                        &&& final(self).wf()
                        &&& final(self).spec_size() == size
                        &&& final(self).spec_attempts() == old(self).spec_attempts() + 1
                    },
                    Decision::Found { len } => {
                        let bytes = buf@.subrange(0, len as int);
                        if valid_utf8(bytes) {
                            step matches GetStep::Done(Ok(Some(v))) && v@ == decode_utf8(bytes)
                        } else {
                            step == GetStep::Done(Err(DbError::Utf8Error))
                        }
                    },
                    Decision::Missing => step == GetStep::Done(Ok(None)),
                    Decision::TooSmall => step == GetStep::Done(Err(DbError::BufferTooSmall)),
                    Decision::Failed => step == GetStep::Done(Err(DbError::OperationFailed)),
                }
            }),
    {
        match self.decide(n) {
            Decision::Retry { size } => GetStep::Grow(size),
            Decision::Found { len } => {
                let bytes = slice_prefix(buf, len);
                match decode_value(bytes) {
                    Some(v) => GetStep::Done(Ok(Some(v))),
                    None => GetStep::Done(Err(DbError::Utf8Error)),
                }
            },
            Decision::Missing => GetStep::Done(Ok(None)),
            Decision::TooSmall => GetStep::Done(Err(DbError::BufferTooSmall)),
            Decision::Failed => GetStep::Done(Err(DbError::OperationFailed)),
        }
    }
}

/// What a native `get` answers when a value of `len` bytes needs a buffer of
/// at least `t` bytes: "too small" below `t`, the length from `t` on.
pub open spec fn threshold_answer(size: nat, t: nat, len: nat) -> int {
    if size < t {
        TOO_SMALL as int
    } else {
        len as int
    }
}

/// A lookup run against such a native `get`, from a buffer of `size` bytes
/// after `attempts` calls: the number of calls it makes, and its last
/// decision.
pub open spec fn run_against(p: RetryPolicy, size: nat, attempts: nat, t: nat, len: nat) -> (
    nat,
    Decision,
)
    decreases p.max_attempts - attempts,
{
    let d = decision_of(p, size, attempts, threshold_answer(size, t, len));
    match d {
        Decision::Retry { size: next } => {
            if attempts + 1 < p.max_attempts {
                let r = run_against(p, next as nat, attempts + 1, t, len);
                (r.0 + 1, r.1)
            } else {
                (1, d)
            }
        },
        _ => (1, d),
    }
}

/// Two to the power `e`.
pub open spec fn pow2(e: nat) -> nat
    decreases e,
{
    if e == 0 {
        1
    } else {
        2 * pow2((e - 1) as nat)
    }
}

/// The buffer size that doubling from `size` first reaches at or above `t`.
pub open spec fn final_size(size: nat, t: nat) -> nat
    decreases (if size < t { t - size } else { 0int }),
{
    if size == 0 || size >= t {
        size
    } else {
        final_size(2 * size, t)
    }
}

/// The number of native calls made while doubling from `size` until the
/// buffer holds `t` bytes: one per size tried.
pub open spec fn calls_needed(size: nat, t: nat) -> nat
    decreases (if size < t { t - size } else { 0int }),
{
    if size == 0 || size >= t {
        1
    } else {
        1 + calls_needed(2 * size, t)
    }
}

proof fn lemma_doubling(size: nat, t: nat)
    requires
        size > 0,
    ensures
        final_size(size, t) >= size,
        final_size(size, t) >= t,
        final_size(size, t) == size * pow2((calls_needed(size, t) - 1) as nat),
        calls_needed(size, t) > 1 ==> final_size(size, t) < 2 * t,
    decreases (if size < t { t - size } else { 0int }),
{
    if size < t {
        lemma_doubling(2 * size, t);
        let e = (calls_needed(2 * size, t) - 1) as nat;
        assert(pow2(e + 1) == 2 * pow2(e));
        assert(size * (2 * pow2(e)) == (2 * size) * pow2(e)) by (nonlinear_arith);
        if 2 * size < t {
            assert(calls_needed(4 * size, t) >= 1);
        }
    } else {
        assert(pow2(0) == 1);
        assert(size * pow2(0) == size);
    }
}

proof fn lemma_run_from(p: RetryPolicy, size: nat, attempts: nat, t: nat, len: nat)
    requires
        p.wf(),
        size > 0,
        0 < len <= t,
        attempts + calls_needed(size, t) <= p.max_attempts,
        final_size(size, t) <= usize::MAX,
    ensures
        run_against(p, size, attempts, t, len) == (
            calls_needed(size, t),
            Decision::Found { len: len as usize },
        ),
    decreases (if size < t { t - size } else { 0int }),
{
    lemma_doubling(size, t);
    if size < t {
        lemma_doubling(2 * size, t);
        lemma_run_from(p, 2 * size, attempts + 1, t, len);
    }
}

/// Grow-and-retry: against a native `get` that reports "too small" for every
/// buffer under `t` bytes and writes the value (of `len <= t` bytes) from `t`
/// bytes on, a lookup starting from a fresh state finds the value with no
/// help from the caller. It makes `calls_needed(initial_size, t)` native
/// calls, which is ceil(log2(t / initial_size)) + 1: the buffer it ends with
/// is `initial_size` doubled one time fewer than that, reaches `t`, and is
/// under `2 * t` whenever a doubling took place.
pub proof fn lemma_grow_and_retry(p: RetryPolicy, t: nat, len: nat)
    requires
        p.wf(),
        0 < len <= t,
        calls_needed(p.initial_size as nat, t) <= p.max_attempts,
        final_size(p.initial_size as nat, t) <= usize::MAX,
    ensures
        run_against(p, p.initial_size as nat, 0, t, len) == (
            calls_needed(p.initial_size as nat, t),
            Decision::Found { len: len as usize },
        ),
        final_size(p.initial_size as nat, t) == p.initial_size * pow2(
            (calls_needed(p.initial_size as nat, t) - 1) as nat,
        ),
        final_size(p.initial_size as nat, t) >= t,
        calls_needed(p.initial_size as nat, t) > 1 ==> final_size(p.initial_size as nat, t) < 2
            * t,
{
    lemma_doubling(p.initial_size as nat, t);
    lemma_run_from(p, p.initial_size as nat, 0, t, len);
}

/// Read-your-writes, on the binding's side: when the native `get` writes
/// into a buffer of `size` bytes the bytes that `set` handed over for a
/// non-empty value `v` (its UTF-8 encoding) and reports their length, the
/// lookup finds those bytes and decodes them back to `v`.
pub proof fn lemma_read_back(p: RetryPolicy, size: nat, attempts: nat, v: Seq<char>, buf: Seq<u8>)
    requires
        v.len() > 0,
        size <= usize::MAX,
        buf.len() == size,
        encode_utf8(v).len() <= size,
        buf.subrange(0, encode_utf8(v).len() as int) == encode_utf8(v),
    ensures
        ({
            let n = encode_utf8(v).len();
            &&& decision_of(p, size, attempts, n as int) == (Decision::Found { len: n as usize })
            &&& valid_utf8(buf.subrange(0, n as int))
            &&& decode_utf8(buf.subrange(0, n as int)) == v
        }),
{
    encode_utf8_valid_utf8(v);
    encode_utf8_decode_utf8(v);
    assert(encode_utf8(v) == encode_scalar(v[0] as u32) + encode_utf8(v.drop_first()));
    assert(encode_scalar(v[0] as u32).len() > 0);
}

/// The first `len` bytes of `buf`.
fn slice_prefix(buf: &[u8], len: usize) -> (r: &[u8])
    requires
        len <= buf@.len(),
    ensures
        r@ == buf@.subrange(0, len as int),
{
    &buf[0..len]
}

} // verus!
