//! What tells the owners of locks apart: the process-and-thread tag, the
//! lock token built on it, and the counter that numbers the tasks.

use vstd::prelude::*;
use crate::text::{decimal, push_decimal, is_digit, lemma_decimal_digits, lemma_decimal_injective};

verus! {

/// The text `ptid`, which opens every process-and-thread tag.
pub open spec fn ptid_prefix() -> Seq<char> {
    seq!['p', 't', 'i', 'd']
}

/// The text `taskid:`, which separates the tag from the task number in a token.
pub open spec fn task_separator() -> Seq<char> {
    seq!['t', 'a', 's', 'k', 'i', 'd', ':']
}

/// The tag of a process and thread whose identifiers add up to `sum`.
pub open spec fn ptid_text(sum: nat) -> Seq<char> {
    ptid_prefix() + decimal(sum)
}

/// The token of the task numbered `task` in the process and thread whose
/// identifiers add up to `sum`.
pub open spec fn token_text(sum: nat, task: nat) -> Seq<char> {
    ptid_text(sum) + task_separator() + decimal(task)
}

/// The tag `ptid` followed by the decimal sum of the process and thread
/// identifiers.
#[allow(non_snake_case)]
pub fn GetProcessAndThreadIDStr(pid: u32, tid: u32) -> (s: String)
    requires
        pid + tid <= u32::MAX,
    ensures
        s@ == ptid_text((pid + tid) as nat),
{
    let mut s = String::from_str("ptid");
    proof {
        reveal_strlit("ptid");
    }
    push_decimal(&mut s, (pid + tid) as u64);
    s
}

/// The token that marks a lock as held by the task numbered `task_id` of this
/// process and thread.
pub fn lock_token(pid: u32, tid: u32, task_id: usize) -> (s: String)
    requires
        pid + tid <= u32::MAX,
    ensures
        s@ == token_text((pid + tid) as nat, task_id as nat),
{
    let mut s = GetProcessAndThreadIDStr(pid, tid);
    s.append("taskid:");
    proof {
        reveal_strlit("taskid:");
    }
    push_decimal(&mut s, task_id as u64);
    s
}

/// Two tokens are equal only when they were made from the same identifier sum
/// and the same task number: tasks numbered apart never share a token.
pub proof fn lemma_token_injective(sum1: nat, task1: nat, sum2: nat, task2: nat)
    requires
        token_text(sum1, task1) == token_text(sum2, task2),
    ensures
        sum1 == sum2,
        task1 == task2,
{
    let d1 = decimal(sum1);
    let d2 = decimal(sum2);
    let t = token_text(sum1, task1);
    lemma_decimal_digits(sum1);
    lemma_decimal_digits(sum2);
    assert(t == ptid_prefix() + d1 + task_separator() + decimal(task1));
    assert(t == ptid_prefix() + d2 + task_separator() + decimal(task2));
    if d1.len() < d2.len() {
        let i: int = 4 + d1.len() as int;
        assert(t[i] == task_separator()[0]);
        assert(t[i] == d2[d1.len() as int]);
        assert(is_digit(d2[d1.len() as int]));
        assert(false);
    } else if d2.len() < d1.len() {
        let i: int = 4 + d2.len() as int;
        assert(t[i] == task_separator()[0]);
        assert(t[i] == d1[d2.len() as int]);
        assert(is_digit(d1[d2.len() as int]));
        assert(false);
    }
    assert(d1 =~= t.subrange(4, 4 + d1.len() as int));
    assert(d2 =~= t.subrange(4, 4 + d2.len() as int));
    lemma_decimal_injective(sum1, sum2);
    let start: int = 4 + d1.len() as int + 7;
    assert(decimal(task1) =~= t.subrange(start, t.len() as int));
    assert(decimal(task2) =~= t.subrange(start, t.len() as int));
    lemma_decimal_injective(task1, task2);
}

/// Tokens made from two different task numbers differ, whatever process and
/// thread made them: two locks whose numbers come from one `TaskCounter`
/// never share a token.
pub proof fn lemma_tokens_of_distinct_tasks_differ(sum1: nat, task1: nat, sum2: nat, task2: nat)
    requires
        task1 != task2,
    ensures
        token_text(sum1, task1) != token_text(sum2, task2),
{
    if token_text(sum1, task1) == token_text(sum2, task2) {
        lemma_token_injective(sum1, task1, sum2, task2);
    }
}

/// The process-wide source of task numbers: each number is handed out once,
/// in increasing order.
pub struct TaskCounter {
    next: usize,
}

impl TaskCounter {
    /// The number the counter hands out next.
    pub closed spec fn spec_next(&self) -> nat {
        self.next as nat
    }

    /// A counter that starts at zero.
    pub fn new() -> (c: Self)
        ensures
            c.spec_next() == 0,
    {
        TaskCounter { next: 0 }
    }

    /// The number the counter hands out next.
    pub fn peek(&self) -> (n: usize)
        ensures
            n == self.spec_next(),
    {
        self.next
    }

    /// Hands out the next number and moves past it.
    pub fn next_task_id(&mut self) -> (n: usize)
        requires
            old(self).spec_next() < usize::MAX,
        ensures
            n == old(self).spec_next(),
            final(self).spec_next() == old(self).spec_next() + 1,
    {
        let n = self.next;
        self.next = self.next + 1;
        n
    }
}

} // verus!
