//! What the worker threads compute: an average, counter increments, and the
//! pacing and stop rules of a progress-reporting worker.

use vstd::prelude::*;

verus! {

/// The sum of a sequence of numbers.
pub open spec fn sum_of(s: Seq<usize>) -> nat
    decreases s.len(),
{
    if s.len() == 0 {
        0
    } else {
        sum_of(s.drop_last()) + (s.last() as nat)
    }
}

/// Sum law: the sum of no numbers is zero, and appending a number adds it
/// to the sum, whatever the numbers before it.
pub proof fn lemma_sum_of_push(s: Seq<usize>, x: usize)
    ensures
        sum_of(Seq::<usize>::empty()) == 0,
        sum_of(s.push(x)) == sum_of(s) + x,
{
    assert(s.push(x).drop_last() =~= s);
}

/// The sum does not depend on the order of appending: it is also the first
/// number plus the sum of the rest.
pub proof fn lemma_sum_of_first(s: Seq<usize>)
    requires
        s.len() > 0,
    ensures
        sum_of(s) == s[0] + sum_of(s.drop_first()),
    decreases s.len(),
{
    if s.len() > 1 {
        lemma_sum_of_first(s.drop_last());
        assert(s.drop_last().drop_first() =~= s.drop_first().drop_last());
    } else {
        assert(s.drop_first() =~= Seq::<usize>::empty());
        assert(s.drop_last() =~= Seq::<usize>::empty());
    }
}

proof fn lemma_prefix_sum_bounded(s: Seq<usize>, i: int)
    requires
        0 <= i <= s.len(),
    ensures
        sum_of(s.subrange(0, i)) <= sum_of(s),
    decreases s.len() - i,
{
    if i < s.len() {
        lemma_prefix_sum_bounded(s, i + 1);
        assert(s.subrange(0, i + 1).drop_last() =~= s.subrange(0, i));
    } else {
        assert(s.subrange(0, i) =~= s);
    }
}

/// The average of the numbers, rounded down: their sum divided by how many
/// there are. There must be at least one number, and the sum must fit.
pub fn average(numbers: &Vec<usize>) -> (r: usize)
    requires
        numbers.len() > 0,
        sum_of(numbers@) <= usize::MAX,
    ensures
        r == sum_of(numbers@) / (numbers.len() as nat),
{
    let len = numbers.len();
    let mut sum: usize = 0;
    let mut i: usize = 0;
    while i < len
        invariant
            len == numbers.len(),
            i <= len,
            sum == sum_of(numbers@.subrange(0, i as int)),
            sum_of(numbers@) <= usize::MAX,
        decreases len - i,
    {
        proof {
            lemma_prefix_sum_bounded(numbers@, i + 1);
            assert(numbers@.subrange(0, i + 1).drop_last() =~= numbers@.subrange(0, i as int));
        }
        sum = sum + numbers[i];
        i = i + 1;
    }
    proof {
        assert(numbers@.subrange(0, len as int) =~= numbers@);
    }
    sum / len
}

/// Whether the numbers add up to a value that fits in a `usize`, so that
/// their average can be taken.
pub fn sum_fits(numbers: &Vec<usize>) -> (r: bool)
    ensures
        r == (sum_of(numbers@) <= usize::MAX),
{
    let len = numbers.len();
    let mut sum: usize = 0;
    let mut i: usize = 0;
    while i < len
        invariant
            len == numbers.len(),
            i <= len,
            sum == sum_of(numbers@.subrange(0, i as int)),
        decreases len - i,
    {
        proof {
            lemma_prefix_sum_bounded(numbers@, i + 1);
            assert(numbers@.subrange(0, i + 1).drop_last() =~= numbers@.subrange(0, i as int));
        }
        match sum.checked_add(numbers[i]) {
            Some(next) => sum = next,
            None => return false,
        }
        i = i + 1;
    }
    proof {
        assert(numbers@.subrange(0, len as int) =~= numbers@);
    }
    true
}

/// Adds one to the value held in a shared cell. The value must be below
/// `i32::MAX`.
pub fn f2(a: &mut i32)
    requires
        *old(a) < i32::MAX,
    ensures
        *final(a) == *old(a) + 1,
{
    *a += 1;
}

/// Adds one to the value `times` times over, as a worker does while it holds
/// the lock. The result must fit in an `i32`.
pub fn add_repeatedly(value: &mut i32, times: u32)
    requires
        *old(value) + times <= i32::MAX,
    ensures
        *final(value) == *old(value) + times,
{
    let ghost start = *value;
    let mut k: u32 = 0;
    while k < times
        invariant
            k <= times,
            *value == start + k,
            start + times <= i32::MAX,
        decreases times - k,
    {
        *value += 1;
        k = k + 1;
    }
}

/// How many seconds the worker sleeps before finishing task number `task`:
/// two for even-numbered tasks, one for odd-numbered ones.
pub fn task_delay_secs(task: u64) -> (r: u64)
    ensures
        r == (if task % 2 == 0 { 2u64 } else { 1u64 }),
{
    if task % 2 == 0 {
        2
    } else {
        1
    }
}

/// Whether the watcher can stop waiting: `done` tasks of `total` are finished.
pub fn work_finished(done: usize, total: usize) -> (r: bool)
    ensures
        r == (done >= total),
{
    done >= total
}

/// The counter after `workers` workers have each run `add_repeatedly` with
/// `per_worker` on it, one after another, starting from `start`.
pub open spec fn after_workers(start: int, per_worker: int, workers: nat) -> int
    decreases workers,
{
    if workers == 0 {
        start
    } else {
        after_workers(start, per_worker, (workers - 1) as nat) + per_worker
    }
}

/// Counter law: workers that each add `per_worker` to a shared counter that
/// starts at `start`, one after another, leave `start + workers * per_worker`.
pub proof fn lemma_workers_add_up(start: int, per_worker: int, workers: nat)
    ensures
        after_workers(start, per_worker, workers) == start + workers * per_worker,
    decreases workers,
{
    if workers > 0 {
        let w = (workers - 1) as nat;
        lemma_workers_add_up(start, per_worker, w);
        assert(after_workers(start, per_worker, workers) == after_workers(start, per_worker, w)
            + per_worker);
        assert(w * per_worker + per_worker == (w + 1) * per_worker) by (nonlinear_arith);
    } else {
        assert(workers * per_worker == 0) by (nonlinear_arith)
            requires
                workers == 0,
        ;
    }
}

} // verus!
