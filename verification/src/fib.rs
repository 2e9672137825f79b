//! The Fibonacci demo handler's computation: a step-wise emitter that yields
//! one newline-terminated decimal Fibonacci number per call, so the shell that
//! owns the connection only writes bytes and sleeps between lines.

use vstd::prelude::*;
use crate::digits::{spec_decimal, decimal_bytes};

verus! {

/// The Fibonacci numbers, with `spec_fib(0) == 0` and `spec_fib(1) == 1`.
pub open spec fn spec_fib(n: nat) -> nat
    decreases n,
{
    if n == 0 {
        0
    } else if n == 1 {
        1
    } else {
        spec_fib((n - 1) as nat) + spec_fib((n - 2) as nat)
    }
}

/// The Fibonacci numbers never decrease.
pub proof fn lemma_fib_mono(m: nat, n: nat)
    requires
        m <= n,
    ensures
        spec_fib(m) <= spec_fib(n),
    decreases n,
{
    if m < n {
        lemma_fib_mono(m, (n - 1) as nat);
    }
}

/// The line emitted for the `i`-th number: its decimal writing and a newline.
pub open spec fn spec_fib_line(i: nat) -> Seq<u8> {
    spec_decimal(spec_fib(i)).push(0x0au8)
}

/// Whether a run of `count` Fibonacci numbers stays within machine range,
/// decided at run time so a caller can test it before building an emitter.
pub fn fib_fits(count: u32) -> (r: bool)
    ensures
        r <==> spec_fib(count as nat) <= u64::MAX,
{
    if count == 0 {
        return true;
    }
    let mut a: u64 = 0;
    let mut b: u64 = 1;
    let mut i: u32 = 1;
    while i < count
        invariant
            1 <= i <= count,
            a == spec_fib((i - 1) as nat),
            b == spec_fib(i as nat),
        decreases count - i,
    {
        if b > u64::MAX - a {
            proof {
                lemma_fib_mono((i + 1) as nat, count as nat);
            }
            return false;
        }
        let next: u64 = a + b;
        a = b;
        b = next;
        i = i + 1;
    }
    true
}

/// Emits the first `count` Fibonacci numbers, one newline-terminated decimal
/// line per call of `next_line`, then reports exhaustion with `None`.
pub struct FibEmitter {
    /// The next number to emit, `spec_fib(emitted)`.
    pub a: u64,
    /// The number after it, `spec_fib(emitted + 1)`.
    pub b: u64,
    /// How many lines have been handed out.
    pub emitted: u32,
    /// How many lines this emitter produces in all.
    pub count: u32,
}

impl FibEmitter {
    /// The emitter's invariant: the pair tracks the Fibonacci sequence while
    /// lines remain, and the whole run fits in machine integers.
    pub open spec fn wf(&self) -> bool {
        &&& self.emitted <= self.count
        &&& spec_fib(self.count as nat) <= u64::MAX
        &&& self.emitted < self.count ==> {
            &&& self.a == spec_fib(self.emitted as nat)
            &&& self.b == spec_fib((self.emitted + 1) as nat)
        }
    }

    pub fn new(count: u32) -> (e: FibEmitter)
        requires
            spec_fib(count as nat) <= u64::MAX,
        ensures
            e.wf(),
            e.count == count,
            e.emitted == 0,
    {
        FibEmitter { a: 0, b: 1, emitted: 0, count }
    }

    /// The next line, or `None` once `count` lines have been emitted.
    pub fn next_line(&mut self) -> (r: Option<Vec<u8>>)
        requires
            old(self).wf(),
        ensures
            final(self).wf(),
            final(self).count == old(self).count,
            old(self).emitted < old(self).count ==> {
                &&& final(self).emitted == old(self).emitted + 1
                &&& r matches Some(line) && line@ == spec_fib_line(old(self).emitted as nat)
            },
            old(self).emitted >= old(self).count ==> r is None && *final(self) == *old(self),
    {
        if self.emitted >= self.count {
            return None;
        }
        let mut line = decimal_bytes(self.a);
        line.push(0x0au8);
        proof {
            assert(line@ =~= spec_fib_line(self.emitted as nat));
        }
        if self.emitted + 1 < self.count {
            proof {
                lemma_fib_mono((self.emitted + 2) as nat, self.count as nat);
            }
            let next: u64 = self.a + self.b;
            self.a = self.b;
            self.b = next;
        }
        self.emitted = self.emitted + 1;
        Some(line)
    }
}

} // verus!
