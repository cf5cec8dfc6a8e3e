use std::collections::VecDeque;

use vstd::prelude::*;

use crate::types::{FPos, Millis, CORPSE_FADE_OUT_DURATION};

verus! {

/// What remains on screen for a while where the player died.
#[derive(Clone, Copy, Debug, PartialEq, Eq, Structural)]
pub struct Corpse {
    pub f_pos: FPos,
    pub t0: Millis,
}

pub open spec fn expired(corpse: Corpse, t: Millis) -> bool {
    t >= corpse.t0 + CORPSE_FADE_OUT_DURATION
}

/// The queue once the expired corpses at its front are gone.
pub open spec fn expire(q: Seq<Corpse>, t: Millis) -> Seq<Corpse>
    decreases q.len(),
{
    if q.len() > 0 && expired(q[0], t) {
        expire(q.drop_first(), t)
    } else {
        q
    }
}

fn can_remove_corpse(corpse: &Corpse, t: Millis) -> (r: bool)
    ensures
        r == expired(*corpse, t),
{
    t >= corpse.t0 && t - corpse.t0 >= CORPSE_FADE_OUT_DURATION
}

/// Removes the expired corpses from the front of the queue. Corpses are queued in the order they
/// die, so only the front needs checking.
pub fn update_corpses(corpses: &mut VecDeque<Corpse>, t: Millis)
    ensures
        final(corpses)@ == expire(old(corpses)@, t),
{
    loop
        invariant
            expire(corpses@, t) == expire(old(corpses)@, t),
        ensures
            corpses@ == expire(old(corpses)@, t),
        decreases corpses@.len(),
    {
        let can_remove = if corpses.len() > 0 {
            can_remove_corpse(&corpses[0], t)
        } else {
            false
        };

        if can_remove {
            proof {
                assert(corpses@.drop_first() =~= corpses@.subrange(1, corpses@.len() as int));
            }
            let ghost before = corpses@;
            corpses.pop_front();
            assert(corpses@ =~= before.drop_first());
        } else {
            break;
        }
    }
}

proof fn lemma_expire_suffix(q: Seq<Corpse>, t: Millis)
    ensures
        exists|k: int|
            0 <= k <= q.len() && expire(q, t) == q.skip(k) && (forall|i: int|
                0 <= i < k ==> expired(#[trigger] q[i], t)),
        expire(q, t).len() > 0 ==> !expired(expire(q, t)[0], t),
    decreases q.len(),
{
    if q.len() > 0 && expired(q[0], t) {
        lemma_expire_suffix(q.drop_first(), t);
        let k = choose|k: int|
            0 <= k <= q.drop_first().len() && expire(q.drop_first(), t) == q.drop_first().skip(k)
                && (forall|i: int| 0 <= i < k ==> expired(#[trigger] q.drop_first()[i], t));
        assert(q.drop_first().skip(k) =~= q.skip(k + 1));
        assert forall|i: int| 0 <= i < k + 1 implies expired(#[trigger] q[i], t) by {
            if i > 0 {
                assert(q[i] == q.drop_first()[i - 1]);
            }
        }
    } else {
        assert(q.skip(0) =~= q);
    }
}

/// Corpses expire in the order they were queued: what remains is the queue without a front run
/// of expired corpses, and its new front has not expired. Expiring twice at the same time is the
/// same as expiring once.
pub proof fn lemma_expire_fifo(q: Seq<Corpse>, t: Millis)
    ensures
        exists|k: int|
            0 <= k <= q.len() && expire(q, t) == q.skip(k) && (forall|i: int|
                0 <= i < k ==> expired(#[trigger] q[i], t)),
        expire(q, t).len() > 0 ==> !expired(expire(q, t)[0], t),
        expire(expire(q, t), t) == expire(q, t),
{
    lemma_expire_suffix(q, t);
}

} // verus!
