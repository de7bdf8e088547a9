use vstd::prelude::*;

use crate::error::ScanError;

verus! {

/// Number of halvings that bring `n` down to one, rounding up: the
/// ceiling of the base-two logarithm of `n`, and zero for `n <= 1`.
pub open spec fn ceil_log2(n: nat) -> nat
    decreases n,
{
    if n <= 1 {
        0
    } else {
        1 + ceil_log2(((n + 1) / 2) as nat)
    }
}

/// `length / 2^k` in integer arithmetic, written as `k` floor halvings.
pub open spec fn halved(length: nat, k: nat) -> nat
    decreases k,
{
    if k == 0 {
        length
    } else {
        halved(length, (k - 1) as nat) / 2
    }
}

/// Number of probes that a bisection over a span of `length` samples makes.
pub fn probe_count(length: u64) -> (r: u64)
    ensures
        r == ceil_log2(length as nat),
{
    let mut n: u64 = length;
    let mut count: u64 = 0;
    if n == 0 {
        return 0;
    }
    while n > 1
        invariant
            count + ceil_log2(n as nat) == ceil_log2(length as nat),
            n >= 1,
        decreases n,
    {
        proof {
            lemma_ceil_log2_bound(length as nat);
        }
        n = n / 2 + n % 2;
        count = count + 1;
    }
    count
}

/// A bisection in progress over the copy's samples from `offset` to
/// `offset + length`, looking for the first position at which the copy no
/// longer matches the original.
///
/// At stage `stage` the caller compares the streams at `candidate`; if they
/// still match, the candidate moves forward by `length / 2^stage`, else back
/// by as much. After `ceil_log2(length)` probes the candidate is the result.
#[derive(Debug, Clone, Copy, PartialEq, Eq, Structural)]
pub struct Locator {
    /// Start of the span still to be scanned, in the copy's frame.
    pub offset: u64,
    /// Samples of the copy from `offset` to its end.
    pub length: u64,
    /// Position to compare next, or the result once no probe remains.
    pub candidate: u64,
    /// One more than the number of probes made so far.
    pub stage: u64,
    /// Distance by which the candidate moves after the next probe.
    pub step: u64,
    /// Probes still to be made.
    pub remaining: u64,
}

impl Locator {
    pub open spec fn wf(&self) -> bool {
        &&& self.stage >= 1
        &&& self.stage - 1 + self.remaining == ceil_log2(self.length as nat)
        &&& self.step == halved(self.length as nat, self.stage as nat)
        &&& self.offset + self.length <= u64::MAX
        &&& self.candidate <= self.offset + self.length
    }

    /// The bisection as it stands before its first probe.
    pub open spec fn spec_start(offset: u64, copy_len: u64) -> Locator
        recommends
            offset <= copy_len,
    {
        let length = (copy_len - offset) as u64;
        Locator {
            offset,
            length,
            candidate: (offset + length / 2) as u64,
            stage: 1,
            step: (length / 2) as u64,
            remaining: ceil_log2(length as nat) as u64,
        }
    }

    /// Where the candidate goes after a probe at it; a position before the
    /// start of the copy or past its end cannot be sought.
    pub open spec fn spec_moved(&self, matched: bool) -> Result<u64, ScanError> {
        if matched {
            if self.candidate + self.step <= self.offset + self.length {
                Ok((self.candidate + self.step) as u64)
            } else {
                Err(ScanError::SeekOutOfRange)
            }
        } else if self.candidate >= self.step {
            Ok((self.candidate - self.step) as u64)
        } else {
            Err(ScanError::SeekOutOfRange)
        }
    }

    /// Starts a bisection over the copy from `offset` to `copy_len`.
    pub fn start(offset: u64, copy_len: u64) -> (r: Locator)
        requires
            offset <= copy_len,
        ensures
            r == Locator::spec_start(offset, copy_len),
            r.wf(),
    {
        let length = copy_len - offset;
        let r = Locator {
            offset,
            length,
            candidate: offset + length / 2,
            stage: 1,
            step: length / 2,
            remaining: probe_count(length),
        };
        assert(halved(length as nat, 1) == halved(length as nat, 0) / 2);
        r
    }

    /// Takes the outcome of the probe at the candidate: whether the streams
    /// still matched there.
    pub fn advance(&mut self, matched: bool) -> (r: Result<(), ScanError>)
        requires
            old(self).wf(),
            old(self).remaining >= 1,
        ensures
            r is Ok <==> old(self).spec_moved(matched) is Ok,
            r is Err ==> (r->Err_0 == ScanError::SeekOutOfRange && *final(self) == *old(self)),
            r is Ok ==> (*final(self) == (Locator {
                candidate: old(self).spec_moved(matched)->Ok_0,
                stage: (old(self).stage + 1) as u64,
                step: old(self).step / 2,
                remaining: (old(self).remaining - 1) as u64,
                ..*old(self)
            })),
            final(self).wf(),
    {
        let end = self.offset + self.length;
        let next = if matched {
            if self.step > end - self.candidate {
                return Err(ScanError::SeekOutOfRange);
            }
            self.candidate + self.step
        } else {
            if self.step > self.candidate {
                return Err(ScanError::SeekOutOfRange);
            }
            self.candidate - self.step
        };
        assert(ceil_log2(self.length as nat) <= 64) by {
            lemma_ceil_log2_bound(self.length as nat);
        }
        self.candidate = next;
        self.stage = self.stage + 1;
        self.step = self.step / 2;
        self.remaining = self.remaining - 1;
        Ok(())
    }
}

/// A span of at most `2^64` samples takes at most 64 probes.
proof fn lemma_ceil_log2_bound(n: nat)
    requires
        n <= u64::MAX,
    ensures
        ceil_log2(n) <= 64,
{
    vstd::arithmetic::power2::lemma2_to64();
    lemma_ceil_log2_monotone(n, vstd::arithmetic::power2::pow2(64));
    lemma_ceil_log2_pow(64);
}

proof fn lemma_ceil_log2_monotone(a: nat, b: nat)
    requires
        a <= b,
    ensures
        ceil_log2(a) <= ceil_log2(b),
    decreases b,
{
    if a > 1 {
        lemma_ceil_log2_monotone(((a + 1) / 2) as nat, ((b + 1) / 2) as nat);
    }
}

proof fn lemma_ceil_log2_pow(k: nat)
    ensures
        ceil_log2(vstd::arithmetic::power2::pow2(k)) == k,
    decreases k,
{
    vstd::arithmetic::power2::lemma_pow2_pos(k);
    vstd::arithmetic::power2::lemma2_to64();
    if k > 0 {
        vstd::arithmetic::power2::lemma_pow2_unfold(k);
        let m = vstd::arithmetic::power2::pow2((k - 1) as nat);
        vstd::arithmetic::power2::lemma_pow2_pos((k - 1) as nat);
        assert(vstd::arithmetic::power2::pow2(k) == 2 * m);
        assert((2 * m + 1) / 2 == m);
        assert(ceil_log2(2 * m) == 1 + ceil_log2(((2 * m + 1) / 2) as nat));
        lemma_ceil_log2_pow((k - 1) as nat);
    }
}

} // verus!
