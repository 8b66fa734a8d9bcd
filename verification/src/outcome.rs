//! Putting together what the models of a pipeline answer.

use vstd::prelude::*;

verus! {

/// `r` is what all of `results` hold, in order, or else the first of their errors.
pub open spec fn is_collected<T, E>(results: Seq<Result<T, E>>, r: Result<Vec<T>, E>) -> bool {
    match r {
        Ok(values) => {
            &&& values@.len() == results.len()
            &&& forall|i: int|
                0 <= i < results.len() ==> #[trigger] results[i] == Ok::<T, E>(values@[i])
        },
        Err(e) => exists|i: int|
            0 <= i < results.len() && #[trigger] results[i] == Err::<T, E>(e) && forall|j: int|
                0 <= j < i ==> (#[trigger] results[j]) is Ok,
    }
}

/// Collects the answers of all models, or the first error.
pub fn collect_results<T, E>(results: Vec<Result<T, E>>) -> (r: Result<Vec<T>, E>)
    ensures
        is_collected(results@, r),
{
    let ghost all = results@;
    let mut rest = results;
    let mut backwards: Vec<Result<T, E>> = Vec::new();
    while rest.len() > 0
        invariant
            rest@.len() + backwards@.len() == all.len(),
            rest@ == all.take(rest@.len() as int),
            forall|i: int|
                0 <= i < backwards@.len() ==> #[trigger] backwards@[i] == all[all.len() - 1 - i],
        decreases rest.len(),
    {
        match rest.pop() {
            Some(x) => {
                backwards.push(x);
            },
            None => {},
        }
        proof {
            assert(rest@ =~= all.take(rest@.len() as int));
        }
    }
    let mut values: Vec<T> = Vec::new();
    while backwards.len() > 0
        invariant
            all == results@,
            values@.len() + backwards@.len() == all.len(),
            forall|i: int|
                0 <= i < backwards@.len() ==> #[trigger] backwards@[i] == all[all.len() - 1 - i],
            forall|i: int|
                0 <= i < values@.len() ==> #[trigger] all[i] == Ok::<T, E>(values@[i]),
        decreases backwards.len(),
    {
        let ghost at = values@.len() as int;
        proof {
            assert(backwards@[backwards@.len() - 1] == all[at]);
        }
        match backwards.pop() {
            Some(Ok(x)) => {
                values.push(x);
            },
            Some(Err(e)) => {
                proof {
                    assert(all[at] == Err::<T, E>(e));
                }
                return Err(e);
            },
            None => {},
        }
    }
    Ok(values)
}

/// All of `results` succeeded.
pub open spec fn all_ok<T, E>(results: Seq<Result<T, E>>) -> bool {
    forall|i: int| 0 <= i < results.len() ==> (#[trigger] results[i]) is Ok
}

/// `e` is the first error among `results`.
pub open spec fn is_first_error<T, E>(results: Seq<Result<T, E>>, e: E) -> bool {
    exists|i: int|
        0 <= i < results.len() && #[trigger] results[i] == Err::<T, E>(e) && forall|j: int|
            0 <= j < i ==> (#[trigger] results[j]) is Ok
}

/// Whether everything succeeded, or the first error.
pub fn all_done<T, E>(results: Vec<Result<T, E>>) -> (r: Result<(), E>)
    ensures
        match r {
            Ok(_) => all_ok(results@),
            Err(e) => is_first_error(results@, e),
        },
{
    match collect_results(results) {
        Ok(_) => Ok(()),
        Err(e) => Err(e),
    }
}

/// The rows of a table.
pub open spec fn rows_of<T>(rows: Seq<Vec<T>>) -> Seq<Seq<T>> {
    rows.map_values(|row: Vec<T>| row@)
}

/// Puts the lists that the models hand out one behind the other.
pub fn concatenate<T>(rows: Vec<Vec<T>>) -> (r: Vec<T>)
    ensures
        r@ == rows_of(rows@).flatten(),
{
    let ghost all = rows_of(rows@);
    let mut rest = rows;
    let mut r: Vec<T> = Vec::new();
    proof {
        assert(all.skip(all.len() as int) =~= Seq::<Seq<T>>::empty());
        assert(all.take(all.len() as int) =~= all);
        assert(Seq::<T>::empty() + r@ =~= r@);
    }
    while rest.len() > 0
        invariant
            rest@.len() <= all.len(),
            rows_of(rest@) == all.take(rest@.len() as int),
            r@ == all.skip(rest@.len() as int).flatten(),
        decreases rest.len(),
    {
        let ghost n = rest@.len() as int;
        match rest.pop() {
            Some(mut row) => {
                proof {
                    assert(row@ == rows_of(rest@.push(row))[n - 1]);
                    assert(all.take(n)[n - 1] == row@);
                    assert(all.skip(n - 1).drop_first() =~= all.skip(n));
                    assert(all.skip(n - 1).first() == row@);
                    assert(rows_of(rest@) =~= all.take(n - 1));
                }
                row.append(&mut r);
                r = row;
            },
            None => {},
        }
    }
    proof {
        assert(all.skip(0) =~= all);
    }
    r
}

/// Tests whether all of `answers` are yes.
pub fn all_agree(answers: &Vec<bool>) -> (r: bool)
    ensures
        r == forall|i: int| 0 <= i < answers@.len() ==> #[trigger] answers@[i],
{
    let mut i: usize = 0;
    while i < answers.len()
        invariant
            i <= answers.len(),
            forall|j: int| 0 <= j < i ==> #[trigger] answers@[j],
        decreases answers.len() - i,
    {
        if !answers[i] {
            return false;
        }
        i = i + 1;
    }
    true
}

/// The answers of all models are collected one for one, and a single failure keeps them all back:
/// the error is that of a model with none before it that failed.
pub proof fn law_one_failure_is_the_outcome<T, E>(results: Seq<Result<T, E>>, i: int, e: E)
    requires
        0 <= i < results.len(),
        results[i] == Err::<T, E>(e),
    ensures
        !all_ok(results),
        forall|values: Vec<T>| !is_collected(results, Ok(values)),
        (forall|j: int| 0 <= j < i ==> (#[trigger] results[j]) is Ok) ==> is_first_error(results, e)
            && is_collected(results, Err(e)),
        forall|other: E|
            is_first_error(results, other) ==> exists|k: int|
                0 <= k <= i && #[trigger] results[k] == Err::<T, E>(other),
{
    assert(!(results[i] is Ok));
    assert forall|values: Vec<T>| !is_collected(results, Ok(values)) by {
        if is_collected(results, Ok::<Vec<T>, E>(values)) {
            assert(results[i] == Ok::<T, E>(values@[i]));
        }
    }
    assert forall|other: E| is_first_error(results, other) implies exists|k: int|
        0 <= k <= i && #[trigger] results[k] == Err::<T, E>(other) by {
        let k = choose|k: int|
            0 <= k < results.len() && #[trigger] results[k] == Err::<T, E>(other) && forall|j: int|
                0 <= j < k ==> (#[trigger] results[j]) is Ok;
        if i < k {
            assert(results[i] is Ok);
        }
    }
}

/// Where no model failed, every answer is there at its own place, and there is no error.
pub proof fn law_all_answers_are_kept<T, E>(results: Seq<Result<T, E>>, values: Vec<T>, i: int)
    requires
        is_collected(results, Ok(values)),
        0 <= i < results.len(),
    ensures
        values@.len() == results.len(),
        results[i] == Ok::<T, E>(values@[i]),
        all_ok(results),
        forall|e: E| !is_first_error(results, e),
{
    assert(forall|k: int| 0 <= k < results.len() ==> results[k] == Ok::<T, E>(values@[k]));
}

/// Lists are put together in order: the list of the first rank comes first, and then the rest.
pub proof fn law_lists_keep_their_order<T>(rows: Seq<Vec<T>>)
    ensures
        rows_of(rows).len() == rows.len(),
        rows.len() == 0 ==> rows_of(rows).flatten() == Seq::<T>::empty(),
        rows.len() > 0 ==> rows_of(rows).flatten() == rows[0]@ + rows_of(rows.skip(1)).flatten(),
{
    if rows.len() > 0 {
        assert(rows_of(rows).drop_first() =~= rows_of(rows.skip(1)));
        assert(rows_of(rows).first() == rows[0]@);
    }
}

} // verus!
