//! A value cell that is initialized at most once.

use vstd::prelude::*;
use crate::ready::IN_TRANSIT;
use crate::ready::NOT_READY;
use crate::ready::READY;
use crate::ready::Ready;

verus! {

/// A synchronization primitive that represents a value initialized at most
/// once. The slot is written only by the unique caller that wins the
/// `NOT_READY` edge of the owned progress flag, and is read only once the
/// flag reports `READY`; after that the value is immutable for the rest of
/// the cell's lifetime.
pub struct OnceCell<T> {
    /// The slot: empty until the one successful initialization.
    pub value: Option<T>,
    /// Progress of the initialization protocol.
    pub init: Ready,
}

impl<T> OnceCell<T> {
    /// Well-formed: between calls the flag rests in `NOT_READY` or `READY`,
    /// never mid-transit, and the slot is filled exactly when the flag
    /// reports `READY`.
    pub open spec fn wf(self) -> bool {
        &&& self.init.state == NOT_READY || self.init.state == READY
        &&& (self.value is Some <==> self.init.state == READY)
    }

    /// True once the cell holds its value.
    pub open spec fn is_init(self) -> bool {
        self.init.is_spec()
    }

    /// The slot's content.
    pub open spec fn stored(self) -> Option<T> {
        self.value
    }

    /// The cell after `set(v)`, paired with the value published by that
    /// call, if any.
    pub open spec fn set_spec(self, v: T) -> (OnceCell<T>, Option<T>) {
        if self.is_init() {
            (self, None)
        } else {
            (OnceCell { value: Some(v), init: Ready { state: READY } }, Some(v))
        }
    }

    /// The cell after `set_or_get(v)`, paired with the value it returns a
    /// reference to.
    pub open spec fn set_or_get_spec(self, v: T) -> (OnceCell<T>, T) {
        if self.is_init() {
            (self, self.value->0)
        } else {
            (self.set_spec(v).0, v)
        }
    }

    /// Creates a new, empty OnceCell.
    pub fn new() -> (r: OnceCell<T>)
        ensures
            r.wf(),
            !r.is_init(),
            r.stored() is None,
    {
        OnceCell { value: None, init: Ready::new() }
    }

    /// Returns a reference to the value if it is initialized; absence means
    /// "not yet initialized", not an error.
    pub fn get(&self) -> (r: Option<&T>)
        requires
            self.wf(),
        ensures
            self.is_init() ==> (r matches Some(p) && *p == self.stored()->0),
            !self.is_init() ==> r is None,
    {
        if self.init.is() {
            Some(self.get_unchecked())
        } else {
            None
        }
    }

    /// Sets the value if the cell is empty and returns a reference to it;
    /// when the cell is already initialized, discards `value` and returns
    /// absence, leaving the stored value untouched.
    pub fn set(&mut self, value: T) -> (r: Option<&T>)
        requires
            old(self).wf(),
        ensures
            final(self).wf(),
            *final(self) == old(self).set_spec(value).0,
            (match r {
                Some(p) => old(self).set_spec(value).1 == Some(*p),
                None => old(self).set_spec(value).1 is None,
            }),
    {
        if self.init.is() {
            return None;
        }

        if self.init.step(NOT_READY) {
            // Sole owner of the transit window: nobody else may touch the
            // slot until the flag is stepped onward.
            self.value = Some(value);

            if self.init.step(IN_TRANSIT) {
                return Some(self.get_unchecked());
            }

            // Only the winner of the first edge may finish the protocol, so
            // the publishing step cannot fail.
            return vstd::pervasive::unreached();
        }

        None
    }

    /// Sets the value if the cell is empty; either way, returns a reference
    /// to the value the cell holds afterwards.
    pub fn set_or_get(&mut self, value: T) -> (r: &T)
        requires
            old(self).wf(),
        ensures
            final(self).wf(),
            final(self).is_init(),
            *final(self) == old(self).set_or_get_spec(value).0,
            *r == old(self).set_or_get_spec(value).1,
    {
        self.set(value);
        self.get_unchecked()
    }

    /// Calls `f` and sets the result if the cell is empty; either way,
    /// returns a reference to the value the cell holds afterwards. Every
    /// caller computes its candidate eagerly: a caller that finds the cell
    /// already initialized still pays for `f`, and the result is discarded.
    pub fn do_or_get<F: FnOnce() -> T>(&mut self, f: F) -> (r: &T)
        requires
            old(self).wf(),
            call_requires(f, ()),
        ensures
            final(self).wf(),
            final(self).is_init(),
            exists|v: T| #[trigger] call_ensures(f, (), v),
            old(self).is_init() ==> *final(self) == *old(self) && *r == old(self).stored()->0,
            !old(self).is_init() ==> exists|v: T|
                #[trigger] call_ensures(f, (), v) && final(self).stored() == Some(v) && *r == v,
    {
        self.set_or_get(f())
    }

    /// Returns a reference to the stored value; the cell must be
    /// initialized.
    fn get_unchecked(&self) -> (r: &T)
        requires
            self.wf(),
            self.is_init(),
        ensures
            *r == self.stored()->0,
    {
        self.value.as_ref().unwrap()
    }
}

/// Law: at most one value is ever stored. On an empty cell, `set(v1)`
/// publishes `v1`; a later `set(v2)` publishes nothing and leaves `v1` in
/// place, so `v1` stays the one observable value.
pub proof fn lemma_set_at_most_once<T>(c: OnceCell<T>, v1: T, v2: T)
    requires
        c.wf(),
        !c.is_init(),
    ensures
        c.set_spec(v1).1 == Some(v1),
        c.set_spec(v1).0.stored() == Some(v1),
        c.set_spec(v1).0.set_spec(v2).1 is None,
        c.set_spec(v1).0.set_spec(v2).0.stored() == Some(v1),
{
}

/// Law: initialization is monotonic. Once the cell is initialized, `set`
/// and `set_or_get` leave it exactly as it is, so `is_init` never reverts
/// and the stored value never changes.
pub proof fn lemma_init_monotonic<T>(c: OnceCell<T>, v: T)
    requires
        c.wf(),
        c.is_init(),
    ensures
        c.set_spec(v).0 == c,
        c.set_spec(v).1 is None,
        c.set_or_get_spec(v).0 == c,
        c.set_or_get_spec(v).1 == c.stored()->0,
{
}

/// Law: racing initializers agree. Two `set_or_get` calls in either order
/// return the same value, and on an empty cell that value is the first
/// caller's candidate — one supplied value wins, the other is discarded.
pub proof fn lemma_set_or_get_agree<T>(c: OnceCell<T>, v1: T, v2: T)
    requires
        c.wf(),
    ensures
        c.set_or_get_spec(v1).0.set_or_get_spec(v2).1 == c.set_or_get_spec(v1).1,
        !c.is_init() ==> c.set_or_get_spec(v1).1 == v1,
{
}

} // verus!
