//! Dealing items out to a number of workers in turn.

use vstd::pervasive::cloned;
use vstd::prelude::*;

verus! {

/// Whether `copy` is a copy of `item`: the same number with a clone of the
/// value.
pub open spec fn copied<T: Clone>(item: (usize, T), copy: (usize, T)) -> bool {
    item.0 == copy.0 && cloned(item.1, copy.1)
}

/// Whether `copy` is a copy of the item at the place `place` of `items`.
pub open spec fn copied_from<T: Clone>(
    items: Seq<(usize, T)>,
    place: int,
    copy: (usize, T),
) -> bool {
    0 <= place < items.len() && copied(items[place], copy)
}

/// Whether `chunk` is the share of worker `worker` of `workers` when `items`
/// are dealt out in turn: copies of the items at the places `worker`,
/// `worker + workers`, `worker + 2 * workers` and so on, as far as `items`
/// go, in that order.
pub open spec fn is_share<T: Clone>(
    items: Seq<(usize, T)>,
    workers: int,
    worker: int,
    chunk: Seq<(usize, T)>,
) -> bool {
    &&& worker + chunk.len() * workers >= items.len()
    &&& chunk.len() > 0 ==> worker + (chunk.len() - 1) * workers < items.len()
    &&& forall|j: int|
        0 <= j < chunk.len() ==> copied_from(items, worker + j * workers, #[trigger] chunk[j])
}

proof fn lemma_place_in_turn(place: int, workers: int, worker: int, taken: int)
    by (nonlinear_arith)
    requires
        workers > 0,
        0 <= place,
        worker == place % workers,
        0 <= taken,
        worker + taken * workers >= place,
        taken > 0 ==> worker + (taken - 1) * workers < place,
    ensures
        place == worker + taken * workers,
{
    assert(place == (place / workers) * workers + place % workers);
    let rounds = place / workers;
    assert(taken * workers >= rounds * workers);
    assert(taken >= rounds);
    if taken > rounds {
        assert((taken - 1) * workers >= rounds * workers);
    }
}

proof fn lemma_other_turn(place: int, workers: int, worker: int, taken: int)
    by (nonlinear_arith)
    requires
        workers > 0,
        0 <= place,
        0 <= worker < workers,
        worker != place % workers,
        0 <= taken,
        worker + taken * workers >= place,
    ensures
        worker + taken * workers >= place + 1,
{
    if worker + taken * workers == place {
        assert((taken * workers + worker) % workers == worker);
    }
}

/// Deals `input_vec` out to `num_threads` workers in turn: the first item to
/// the first worker, the second to the second, and after the last worker
/// the first again. Returns each worker's share; see [`is_share`]. There
/// must be a worker unless there is nothing to deal out.
pub fn create_chunks<T: Clone>(input_vec: Vec<(usize, T)>, num_threads: usize) -> (output: Vec<
    Vec<(usize, T)>,
>)
    requires
        num_threads > 0 || input_vec.len() == 0,
    ensures
        output.len() == num_threads,
        forall|k: int|
            0 <= k < num_threads ==> is_share(
                input_vec@,
                num_threads as int,
                k,
                (#[trigger] output[k])@,
            ),
{
    let mut output: Vec<Vec<(usize, T)>> = Vec::new();
    while output.len() < num_threads
        invariant
            output.len() <= num_threads,
            forall|k: int| 0 <= k < output.len() ==> (#[trigger] output[k])@.len() == 0,
        decreases num_threads - output.len(),
    {
        output.push(Vec::new());
    }
    let mut i: usize = 0;
    while i < input_vec.len()
        invariant
            i <= input_vec.len(),
            num_threads > 0 || input_vec.len() == 0,
            output.len() == num_threads,
            forall|k: int|
                0 <= k < num_threads ==> is_share(
                    input_vec@.take(i as int),
                    num_threads as int,
                    k,
                    (#[trigger] output[k])@,
                ),
        decreases input_vec.len() - i,
    {
        let index = i % num_threads;
        let item = (input_vec[i].0, input_vec[i].1.clone());
        let ghost before = output@;
        proof {
            assert(is_share(
                input_vec@.take(i as int),
                num_threads as int,
                index as int,
                before[index as int]@,
            ));
            lemma_place_in_turn(
                i as int,
                num_threads as int,
                index as int,
                before[index as int]@.len() as int,
            );
        }
        output[index].push(item);
        proof {
            let n = num_threads as int;
            let items = input_vec@.take(i as int);
            let more = input_vec@.take(i + 1);
            assert forall|k: int| 0 <= k < n implies is_share(
                more,
                n,
                k,
                (#[trigger] output[k])@,
            ) by {
                let old_chunk = before[k]@;
                let chunk = output[k]@;
                assert(is_share(items, n, k, old_chunk));
                if k == index {
                    assert(chunk == old_chunk.push(item));
                    assert(k + (chunk.len() - 1) * n == i);
                    assert(k + chunk.len() * n >= i + 1) by (nonlinear_arith)
                        requires
                            k + (chunk.len() - 1) * n == i,
                            n > 0,
                    ;
                    assert forall|j: int| 0 <= j < chunk.len() implies copied_from(
                        more,
                        k + j * n,
                        #[trigger] chunk[j],
                    ) by {
                        if j < chunk.len() - 1 {
                            assert(copied_from(items, k + j * n, old_chunk[j]));
                        }
                    }
                } else {
                    assert(chunk == old_chunk);
                    lemma_other_turn(i as int, n, k, old_chunk.len() as int);
                    assert forall|j: int| 0 <= j < chunk.len() implies copied_from(
                        more,
                        k + j * n,
                        #[trigger] chunk[j],
                    ) by {
                        assert(copied_from(items, k + j * n, old_chunk[j]));
                    }
                }
            }
        }
        i += 1;
    }
    assert(input_vec@.take(i as int) =~= input_vec@);
    output
}

} // verus!
