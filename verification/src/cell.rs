//! The single-slot cell: a container for at most one value whose every
//! operation is one whole transaction on the slot.

use vstd::prelude::*;
use vstd::pervasive::cloned;
use vstd::std_specs::cmp::PartialEqSpec;

verus! {

/// A cell holding at most one value of type `T`.
///
/// Each `&mut self` method is a single transaction: it reads and rewrites the
/// slot in one step, and its contract states the effect exactly. A shell that
/// shares one cell between threads must wrap it in a mutual-exclusion
/// primitive and perform one method call per critical section; the contracts
/// below then describe each serialized transaction.
#[derive(Debug)]
pub struct PingPongCell<T> {
    value: Option<T>,
}

impl<T> View for PingPongCell<T> {
    type V = Option<T>;

    closed spec fn view(&self) -> Option<T> {
        self.value
    }
}

/// The slot left behind by `put_if_empty(value)` on a slot holding `slot`.
pub open spec fn put_if_empty_next<T>(slot: Option<T>, value: T) -> Option<T> {
    if slot is None {
        Some(value)
    } else {
        slot
    }
}

/// What `put_if_empty(value)` returns on a slot holding `slot`.
pub open spec fn put_if_empty_result<T>(slot: Option<T>, value: T) -> Result<(), T> {
    if slot is None {
        Ok(())
    } else {
        Err(value)
    }
}

impl<T> PingPongCell<T> {
    /// Creates a cell with an initial, possibly absent, value.
    pub fn new(value: Option<T>) -> (cell: Self)
        ensures
            cell@ == value,
    {
        PingPongCell { value }
    }

    /// If there is a value currently inside, takes it, leaving the slot empty.
    pub fn take(&mut self) -> (taken: Option<T>)
        ensures
            taken == old(self)@,
            final(self)@ is None,
    {
        self.value.take()
    }

    /// Replaces the value inside unconditionally, discarding any previous one.
    pub fn put(&mut self, value: T)
        ensures
            final(self)@ == Some(value),
    {
        self.value = Some(value);
    }

    /// Stores `value` only if the slot is empty; otherwise hands `value` back
    /// untouched and leaves the slot as it was.
    pub fn put_if_empty(&mut self, value: T) -> (r: Result<(), T>)
        ensures
            final(self)@ == put_if_empty_next(old(self)@, value),
            r == put_if_empty_result(old(self)@, value),
    {
        if self.value.is_some() {
            Err(value)
        } else {
            self.value = Some(value);
            Ok(())
        }
    }

    /// Runs one transaction `f` on the slot: `f` receives the current
    /// contents and decides both the new contents and the result.
    pub fn transact<F, R>(&mut self, f: F) -> (r: R) where F: FnOnce(Option<T>) -> (Option<T>, R)
        requires
            call_requires(f, (old(self)@,)),
        ensures
            call_ensures(f, (old(self)@,), (final(self)@, r)),
    {
        let current = self.value.take();
        let (next, r) = f(current);
        self.value = next;
        r
    }
}

impl<T: Clone> PingPongCell<T> {
    /// `put_if_empty`, but on failure also hands back a duplicate of what is
    /// currently stored, so the caller can retry with full information.
    pub fn put_empty_clone(&mut self, value: T) -> (r: Result<(), (T, T)>)
        ensures
            final(self)@ == put_if_empty_next(old(self)@, value),
            (r is Err) == (old(self)@ is Some),
            r matches Err((rejected, witness)) ==> {
                &&& rejected == value
                &&& old(self)@ matches Some(current) && cloned(current, witness)
            },
    {
        match &self.value {
            Some(current) => Err((value, current.clone())),
            None => {
                self.value = Some(value);
                Ok(())
            },
        }
    }

    /// Duplicates the contents, if any, without consuming them.
    pub fn clone_inner(&self) -> (r: Option<T>)
        ensures
            (r is Some) == (self@ is Some),
            r matches Some(witness) ==> self@ matches Some(current) && cloned(current, witness),
    {
        match &self.value {
            Some(current) => Some(current.clone()),
            None => None,
        }
    }
}

/// Whether a compare-and-swap against `expected` hits: the slot holds a
/// value that compares equal to `expected`.
pub open spec fn cas_hits<T: PartialEq>(slot: Option<T>, expected: T) -> bool {
    slot matches Some(current) && current.eq_spec(&expected)
}

/// The slot left behind by a compare-and-swap of `expected` for `new`.
pub open spec fn cas_next<T: PartialEq>(slot: Option<T>, expected: T, new: T) -> Option<T> {
    if cas_hits(slot, expected) {
        Some(new)
    } else {
        slot
    }
}

impl<T: Eq> PingPongCell<T> {
    /// A single compare-and-swap transaction: if the slot holds a value equal
    /// to `expected`, replaces it with `new`; otherwise, including when the
    /// slot is empty, leaves the slot unchanged and hands `new` back.
    ///
    /// The first two clauses say exactly when the swap hits, for any `T`
    /// whose `==` obeys its specification; the rest holds unconditionally.
    pub fn compare_and_swap(&mut self, expected: &T, new: T) -> (r: Result<(), T>)
        ensures
            T::obeys_eq_spec() ==> {
                &&& final(self)@ == cas_next(old(self)@, *expected, new)
                &&& (r is Ok) == cas_hits(old(self)@, *expected)
            },
            r is Ok ==> old(self)@ is Some && final(self)@ == Some(new),
            r matches Err(returned) ==> returned == new && final(self)@ == old(self)@,
            old(self)@ is None ==> r == Err::<(), T>(new),
    {
        let hit = match &self.value {
            Some(current) => *current == *expected,
            None => false,
        };
        if hit {
            self.value = Some(new);
            Ok(())
        } else {
            Err(new)
        }
    }
}

impl<T: Clone + Eq> PingPongCell<T> {
    /// `compare_and_swap`, but on failure also hands back a duplicate of
    /// whatever is actually stored (`None` for an empty slot), so the caller
    /// can retry with full information without a second transaction.
    pub fn compare_swap_clone(&mut self, expected: &T, new: T) -> (r: Result<(), (T, Option<T>)>)
        ensures
            T::obeys_eq_spec() ==> {
                &&& final(self)@ == cas_next(old(self)@, *expected, new)
                &&& (r is Ok) == cas_hits(old(self)@, *expected)
            },
            r is Ok ==> old(self)@ is Some && final(self)@ == Some(new),
            r matches Err((returned, observed)) ==> {
                &&& returned == new
                &&& final(self)@ == old(self)@
                &&& (observed is Some) == (old(self)@ is Some)
                &&& observed matches Some(witness) ==> old(self)@ matches Some(current)
                    && cloned(current, witness)
            },
    {
        let hit = match &self.value {
            Some(current) => *current == *expected,
            None => false,
        };
        if hit {
            self.value = Some(new);
            Ok(())
        } else {
            match &self.value {
                Some(current) => Err((new, Some(current.clone()))),
                None => Err((new, None)),
            }
        }
    }
}

/// The slot left behind when the `put_if_empty` transactions of `values`
/// run one after the other, in serialization order.
pub open spec fn race_final<T>(slot: Option<T>, values: Seq<T>) -> Option<T>
    decreases values.len(),
{
    if values.len() == 0 {
        slot
    } else {
        race_final(put_if_empty_next(slot, values[0]), values.drop_first())
    }
}

/// What each of the `put_if_empty` transactions of `values` returns when
/// they run one after the other, in serialization order.
pub open spec fn race_results<T>(slot: Option<T>, values: Seq<T>) -> Seq<Result<(), T>>
    decreases values.len(),
{
    if values.len() == 0 {
        Seq::empty()
    } else {
        seq![put_if_empty_result(slot, values[0])] + race_results(
            put_if_empty_next(slot, values[0]),
            values.drop_first(),
        )
    }
}

/// On an occupied slot, a run of `put_if_empty` transactions changes nothing
/// and every caller gets its own value back.
proof fn lemma_race_on_occupied<T>(slot: Option<T>, values: Seq<T>)
    requires
        slot is Some,
    ensures
        race_final(slot, values) == slot,
        race_results(slot, values).len() == values.len(),
        forall|i: int|
            0 <= i < values.len() ==> race_results(slot, values)[i] == Err::<(), T>(values[i]),
    decreases values.len(),
{
    if values.len() > 0 {
        lemma_race_on_occupied(slot, values.drop_first());
        assert forall|i: int|
            0 <= i < values.len() implies race_results(slot, values)[i] == Err::<(), T>(
            values[i],
        ) by {
            if i > 0 {
                assert(race_results(slot, values)[i] == race_results(
                    slot,
                    values.drop_first(),
                )[i - 1]);
                assert(values.drop_first()[i - 1] == values[i]);
            }
        }
    }
}

/// Law: when any number of `put_if_empty` calls race for an empty cell,
/// exactly one wins, the one their transactions serialize first. Its value
/// stays in the slot; every other caller gets its own value back unmodified.
pub proof fn lemma_put_if_empty_single_winner<T>(values: Seq<T>)
    requires
        values.len() > 0,
    ensures
        race_final(None::<T>, values) == Some(values[0]),
        race_results(None::<T>, values).len() == values.len(),
        race_results(None::<T>, values)[0] == Ok::<(), T>(()),
        forall|i: int|
            1 <= i < values.len() ==> race_results(None::<T>, values)[i] == Err::<(), T>(
                values[i],
            ),
{
    let occupied = put_if_empty_next(None::<T>, values[0]);
    lemma_race_on_occupied(occupied, values.drop_first());
    assert forall|i: int|
        1 <= i < values.len() implies race_results(None::<T>, values)[i] == Err::<(), T>(
        values[i],
    ) by {
        assert(race_results(None::<T>, values)[i] == race_results(
            occupied,
            values.drop_first(),
        )[i - 1]);
        assert(values.drop_first()[i - 1] == values[i]);
    }
}

} // verus!
