use vstd::prelude::*;
use crate::queue::{front_of, rest_of};

verus! {

/// The contents of a queue holding `s` (front first) after `ps` is pushed,
/// element by element, from the first.
pub open spec fn pushed_onto<T>(s: Seq<T>, ps: Seq<T>) -> Seq<T>
    decreases ps.len(),
{
    if ps.len() == 0 {
        s
    } else {
        pushed_onto(s.push(ps[0]), ps.drop_first())
    }
}

/// What `n` pops in a row return, in order, from a queue holding `s`.
pub open spec fn pop_results<T>(s: Seq<T>, n: nat) -> Seq<Option<T>>
    decreases n,
{
    if n == 0 {
        Seq::empty()
    } else {
        seq![front_of(s)] + pop_results(rest_of(s), (n - 1) as nat)
    }
}

/// The contents of a queue holding `s` after `n` pops in a row.
pub open spec fn after_pops<T>(s: Seq<T>, n: nat) -> Seq<T>
    decreases n,
{
    if n == 0 {
        s
    } else {
        after_pops(rest_of(s), (n - 1) as nat)
    }
}

/// Pushing `ps` one by one appends it to the back of the contents.
pub proof fn lemma_pushed_onto_appends<T>(s: Seq<T>, ps: Seq<T>)
    ensures
        pushed_onto(s, ps) == s + ps,
    decreases ps.len(),
{
    if ps.len() > 0 {
        lemma_pushed_onto_appends(s.push(ps[0]), ps.drop_first());
        assert(s.push(ps[0]) + ps.drop_first() =~= s + ps);
    }
}

/// Popping as many times as a queue holds elements returns every element,
/// front first.
pub proof fn lemma_pop_results_all<T>(s: Seq<T>)
    ensures
        pop_results(s, s.len()) == s.map_values(|x: T| Some(x)),
    decreases s.len(),
{
    if s.len() > 0 {
        lemma_pop_results_all(s.drop_first());
        assert(pop_results(s, s.len()) =~= s.map_values(|x: T| Some(x)));
    }
}

/// First in, first out: after pushes of `ps` onto an empty queue, as many
/// pops return the elements of `ps` in the order in which they were pushed.
pub proof fn lemma_fifo_order<T>(ps: Seq<T>)
    ensures
        pop_results(pushed_onto(Seq::empty(), ps), ps.len()) == ps.map_values(|x: T| Some(x)),
{
    lemma_pushed_onto_appends(Seq::empty(), ps);
    assert(Seq::<T>::empty() + ps =~= ps);
    lemma_pop_results_all(ps);
}

/// Popping a queue as many times as it holds elements empties it, every one
/// of those pops returns an element, and the next pop returns `None`.
pub proof fn lemma_drain_empties<T>(s: Seq<T>)
    ensures
        after_pops(s, s.len()) == Seq::<T>::empty(),
        front_of(after_pops(s, s.len())) is None,
        forall|i: int| 0 <= i < s.len() ==> pop_results(s, s.len())[i] is Some,
    decreases s.len(),
{
    lemma_pop_results_all(s);
    if s.len() > 0 {
        lemma_drain_empties(s.drop_first());
    }
}

} // verus!
