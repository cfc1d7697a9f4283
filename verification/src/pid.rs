//! Macro process identifiers and their allocation.

use vstd::prelude::*;
use vstd::std_specs::convert::FromSpecImpl;

verus! {

/// Identifier of one macro execution, unique within a process lifetime.
#[derive(Copy, Clone, Debug, PartialEq, Eq, Hash, Structural)]
pub struct MacroPID(pub usize);

impl From<MacroPID> for usize {
    fn from(uid: MacroPID) -> (raw: usize) {
        uid.0
    }
}

impl FromSpecImpl<MacroPID> for usize {
    open spec fn obeys_from_spec() -> bool {
        true
    }

    open spec fn from_spec(uid: MacroPID) -> usize {
        uid.0
    }
}

impl From<&MacroPID> for usize {
    fn from(uid: &MacroPID) -> (raw: usize) {
        uid.0
    }
}

impl FromSpecImpl<&MacroPID> for usize {
    open spec fn obeys_from_spec() -> bool {
        true
    }

    open spec fn from_spec(uid: &MacroPID) -> usize {
        uid.0
    }
}

/// The text `MacroPID(` followed by the digits of `pid` and `)`.
pub open spec fn pid_text(pid: MacroPID) -> Seq<char> {
    "MacroPID("@ + crate::text::decimal(pid.0 as nat) + ")"@
}

impl MacroPID {
    /// A reference to the raw counter value behind the identifier.
    pub fn as_ref(&self) -> (raw: &usize)
        ensures
            *raw == self.0,
    {
        &self.0
    }

    /// Renders the identifier for messages, as `MacroPID(<n>)`.
    pub fn to_string(&self) -> (text: String)
        ensures
            text@ == pid_text(*self),
    {
        let digits: String = crate::text::decimal_string(self.0);
        String::from_str("MacroPID(").concat(digits.as_str()).concat(")")
    }
}

/// The counter value that follows `counter`; the successor of the largest value is zero.
pub open spec fn successor(counter: usize) -> usize {
    if counter == usize::MAX {
        0
    } else {
        (counter + 1) as usize
    }
}

/// The identifier handed out by the `k`-th allocation (counting from zero) of an allocator
/// whose counter stands at `first`.
pub open spec fn nth_pid(first: usize, k: nat) -> usize
    decreases k,
{
    if k == 0 {
        first
    } else {
        successor(nth_pid(first, (k - 1) as nat))
    }
}

/// Hands out process identifiers from a counter that only moves forward.
pub struct PidAllocator {
    next: usize,
    handed_out: Ghost<nat>,
}

impl PidAllocator {
    /// Until the counter wraps around it stands at the number of identifiers handed out.
    #[verifier::type_invariant]
    spec fn counts_what_it_handed_out(self) -> bool {
        self.handed_out@ <= usize::MAX ==> self.next == self.handed_out@
    }

    /// The identifier that the next allocation returns.
    pub closed spec fn next_pid(&self) -> usize {
        self.next
    }

    /// How many identifiers were handed out so far.
    pub closed spec fn handed_out(&self) -> nat {
        self.handed_out@
    }

    /// An allocator whose first identifier is zero.
    pub fn new() -> (allocator: PidAllocator)
        ensures
            allocator.next_pid() == 0,
            allocator.handed_out() == 0,
    {
        PidAllocator { next: 0, handed_out: Ghost(0) }
    }

    /// Returns the current counter value as a fresh identifier and advances the counter.
    /// Until the counter wraps around, the identifier is the number of identifiers that
    /// were handed out before: each is larger than all before it and none comes twice.
    pub fn allocate(&mut self) -> (pid: MacroPID)
        ensures
            pid.0 == old(self).next_pid(),
            final(self).next_pid() == successor(old(self).next_pid()),
            final(self).handed_out() == old(self).handed_out() + 1,
            old(self).handed_out() <= usize::MAX ==> pid.0 == old(self).handed_out(),
    {
        proof {
            use_type_invariant(&*self);
        }
        let current: usize = self.next;
        let following: usize = if current == usize::MAX {
            0
        } else {
            current + 1
        };
        let ghost count: nat = self.handed_out@ + 1;
        *self = PidAllocator { next: following, handed_out: Ghost(count) };
        MacroPID(current)
    }
}

/// Without wrap-around the `k`-th identifier lies `k` above the first.
pub proof fn lemma_nth_pid_offset(first: usize, k: nat)
    requires
        first + k <= usize::MAX,
    ensures
        nth_pid(first, k) == first + k,
    decreases k,
{
    if k > 0 {
        lemma_nth_pid_offset(first, (k - 1) as nat);
    }
}

/// Identifiers handed out by a run of allocations are pairwise distinct and exceed every
/// identifier that was handed out before the run began, as long as the counter does not
/// wrap around during the run.
pub proof fn lemma_pids_unique_and_increasing(first: usize, earlier: usize, i: nat, j: nat)
    requires
        earlier < first,
        first + i <= usize::MAX,
        first + j <= usize::MAX,
    ensures
        i != j ==> nth_pid(first, i) != nth_pid(first, j),
        i < j ==> nth_pid(first, i) < nth_pid(first, j),
        earlier < nth_pid(first, i),
{
    lemma_nth_pid_offset(first, i);
    lemma_nth_pid_offset(first, j);
}

} // verus!
