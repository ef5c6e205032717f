//! What a driver that follows the repeat decisions plays back.

use vstd::prelude::*;

use crate::playback::{play, repeated, step, Step};
use crate::repeat::RepeatCount;

verus! {

/// Each sample that `play` yields, and each rewind, is the decision `step`
/// takes on what the live cursor gave.
pub proof fn lemma_play_follows_step<T>(left: nat, live: Seq<T>, template: Seq<T>)
    ensures
        play(left, live, template) == ({
            let pulled = if live.len() > 0 {
                Some(live[0])
            } else {
                None
            };
            match step(left, pulled) {
                (_, Step::Emit(v)) => seq![v] + play(left, live.drop_first(), template),
                (next_left, Step::Rewind) => play(next_left, template, template),
                (_, Step::Finish) => Seq::empty(),
            }
        }),
{
}

/// With passes left, the rest of the live cursor plays out, then the
/// pristine content once for each further pass.
pub proof fn lemma_play_rest_then_repeats<T>(left: nat, live: Seq<T>, template: Seq<T>)
    requires
        left >= 1,
    ensures
        play(left, live, template) == live + repeated(template, (left - 1) as nat),
    decreases left, live.len(),
{
    if live.len() > 0 {
        lemma_play_rest_then_repeats(left, live.drop_first(), template);
        assert(live =~= seq![live[0]] + live.drop_first());
        assert(seq![live[0]] + (live.drop_first() + repeated(template, (left - 1) as nat))
            =~= live + repeated(template, (left - 1) as nat));
    } else if left > 1 {
        lemma_play_rest_then_repeats((left - 1) as nat, template, template);
        assert(live + repeated(template, (left - 1) as nat) =~= repeated(
            template,
            (left - 1) as nat,
        ));
    } else {
        assert(live + repeated(template, 0) =~= Seq::<T>::empty());
    }
}

/// A source played from a fresh repeat state gives its samples `count`
/// times back to back, and nothing when `count` is zero.
pub proof fn lemma_play_is_repetition<T>(s: Seq<T>, count: nat)
    ensures
        play(count, s, s) == repeated(s, count),
{
    if count >= 1 {
        lemma_play_rest_then_repeats(count, s, s);
    }
}

/// `s` repeated `k` times is `k` times as long as `s`, and its sample at
/// position `i` is that of `s` at `i` modulo the length of `s`.
pub proof fn lemma_repeated_blocks<T>(s: Seq<T>, k: nat)
    ensures
        repeated(s, k).len() == s.len() * k,
        forall|i: int|
            0 <= i < repeated(s, k).len() ==> #[trigger] repeated(s, k)[i] == s[i % (s.len() as int)],
    decreases k,
{
    if k > 0 {
        let km = (k - 1) as nat;
        lemma_repeated_blocks(s, km);
        assert(s.len() * k == s.len() + s.len() * km) by (nonlinear_arith)
            requires
                km == k - 1,
        ;
        assert forall|i: int| 0 <= i < repeated(s, k).len() implies #[trigger] repeated(s, k)[i]
            == s[i % (s.len() as int)] by {
            let n = s.len() as int;
            if i >= n {
                assert(repeated(s, k)[i] == repeated(s, km)[i - n]);
                assert((i - n) % n == i % n) by {
                    vstd::arithmetic::div_mod::lemma_mod_sub_multiples_vanish(i, n);
                }
            } else {
                vstd::arithmetic::div_mod::lemma_small_mod(i as nat, n as nat);
            }
        }
    }
}

/// A non-empty source of `n` samples, played from a fresh repeat state of
/// `count` passes, gives exactly `n * count` samples, and each block of `n`
/// of them is the source's samples in order.
pub proof fn lemma_every_pass_is_the_source<T>(s: Seq<T>, count: nat)
    requires
        s.len() > 0,
        count >= 1,
    ensures
        play(count, s, s).len() == s.len() * count,
        forall|p: int, j: int|
            0 <= p < count && 0 <= j < s.len() ==> #[trigger] play(count, s, s)[p * s.len() + j]
                == s[j],
{
    lemma_play_is_repetition(s, count);
    lemma_repeated_blocks(s, count);
    let n = s.len() as int;
    assert forall|p: int, j: int| 0 <= p < count && 0 <= j < s.len() implies #[trigger] play(
        count,
        s,
        s,
    )[p * s.len() + j] == s[j] by {
        assert(0 <= p * n + j < n * count) by (nonlinear_arith)
            requires
                0 <= p < count,
                0 <= j < n,
        ;
        vstd::arithmetic::div_mod::lemma_fundamental_div_mod_converse(p * n + j, n, p, j);
    }
}

/// One pass plays the source exactly as it is.
pub proof fn lemma_single_pass_is_the_source<T>(s: Seq<T>)
    ensures
        play(1, s, s) == s,
{
    lemma_play_is_repetition(s, 1);
    assert(repeated(s, 0) == Seq::<T>::empty());
    assert(repeated(s, 1) =~= s);
}

/// An empty source plays nothing, however many passes are asked for.
pub proof fn lemma_empty_source_plays_nothing<T>(count: nat)
    ensures
        play(count, Seq::<T>::empty(), Seq::<T>::empty()) == Seq::<T>::empty(),
{
    lemma_play_is_repetition(Seq::<T>::empty(), count);
    lemma_repeated_blocks(Seq::<T>::empty(), count);
    assert(repeated(Seq::<T>::empty(), count) =~= Seq::<T>::empty());
}

/// A duplicate of a repeat state (`clone` keeps every field) plays, from
/// the same cursors, the same samples as the state it was made from; each
/// goes on by its own `advance`, which changes no other state.
pub proof fn lemma_duplicate_plays_alike<T>(
    original: RepeatCount,
    duplicate: RepeatCount,
    live: Seq<T>,
    template: Seq<T>,
)
    requires
        duplicate == original,
    ensures
        duplicate.left() == original.left(),
        duplicate.total() == original.total(),
        play(duplicate.left(), live, template) == play(original.left(), live, template),
{
}

} // verus!
