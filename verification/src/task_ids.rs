//! Numbers that tell tasks apart.

use vstd::prelude::*;

verus! {

/// The number after `id`; after the last there is the first again.
pub open spec fn successor(id: usize) -> usize {
    if id == usize::MAX {
        0
    } else {
        (id + 1) as usize
    }
}

/// The number that is issued after `count` others where `first` is the next one to be issued.
pub open spec fn issued_after(first: usize, count: nat) -> usize
    decreases count,
{
    if count == 0 {
        first
    } else {
        successor(issued_after(first, (count - 1) as nat))
    }
}

/// A counter that issues task numbers.
pub struct TaskIds {
    /// The number that is issued next.
    pub next: usize,
}

impl TaskIds {
    /// A counter that starts at zero.
    pub fn new() -> (ids: Self)
        ensures
            ids.next == 0,
    {
        TaskIds { next: 0 }
    }

    /// Issues a number.
    pub fn issue(&mut self) -> (id: usize)
        ensures
            id == old(self).next,
            final(self).next == successor(old(self).next),
    {
        let id = self.next;
        self.next = id.wrapping_add(1);
        id
    }
}

/// What `count` calls of [`TaskIds::issue`] lead to, as a sum.
proof fn lemma_issued_after(first: usize, count: nat)
    ensures
        issued_after(first, count) == (first + count) % (usize::MAX + 1),
    decreases count,
{
    if count > 0 {
        lemma_issued_after(first, (count - 1) as nat);
        let sum = first + count - 1;
        let size = usize::MAX + 1;
        assert((sum + 1) % size == if sum % size == usize::MAX {
            0
        } else {
            sum % size + 1
        }) by (nonlinear_arith)
            requires
                size == usize::MAX + 1,
                sum >= 0,
        ;
    } else {
        vstd::arithmetic::div_mod::lemma_small_mod(first as nat, (usize::MAX + 1) as nat);
    }
}

/// Two tasks get different numbers, unless the counter went all the way round between them.
pub proof fn law_task_ids_differ(first: usize, earlier: nat, later: nat)
    requires
        earlier < later <= earlier + usize::MAX,
    ensures
        issued_after(first, earlier) != issued_after(first, later),
{
    lemma_issued_after(first, earlier);
    lemma_issued_after(first, later);
    let a = first + earlier;
    let b = first + later;
    let size = usize::MAX + 1;
    assert(a % size != b % size) by (nonlinear_arith)
        requires
            0 <= a < b < a + size,
            size > 0,
    ;
}

/// A counter issues zero at first, and after each number the next one; after the last number there
/// is zero again.
pub proof fn law_task_ids_count_up(
    counter: TaskIds,
    start: &mut TaskIds,
    first: &mut TaskIds,
    second: &mut TaskIds,
    ids: (usize, usize, usize),
)
    requires
        call_ensures(TaskIds::new, (), counter),
        *old(start) == counter,
        call_ensures(TaskIds::issue, (start,), ids.0),
        call_ensures(TaskIds::issue, (first,), ids.1),
        call_ensures(TaskIds::issue, (second,), ids.2),
        *old(second) == *final(first),
    ensures
        ids.0 == 0,
        ids.1 < usize::MAX ==> ids.2 == ids.1 + 1,
        ids.1 == usize::MAX ==> ids.2 == 0,
{
}

} // verus!
