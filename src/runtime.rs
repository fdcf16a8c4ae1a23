use vstd::prelude::*;

use crate::decl::Trampoline;

verus! {

// This module is a model of the ownership rules that the emitted C surface follows; the
// emitted code itself moves raw pointers and is not tied to it. The laws proved over it
// (see `laws`) hold of the model.

/// The heap seen from the foreign side: values handed across the boundary by pointer, each
/// under a handle with exactly one owner. Handle `0` is the null pointer and never refers to
/// a value; handle `h > 0` refers to the slot `h - 1` while it is live.
pub struct HandleTable<T> {
    slots: Vec<Option<T>>,
}

/// The status of a call that succeeded.
pub const STATUS_OK: i32 = 0;

/// The status of a call that failed.
pub const STATUS_ERR: i32 = -1;

impl<T> HandleTable<T> {
    /// The live handles and the values they refer to.
    pub closed spec fn view(&self) -> Map<u64, T> {
        Map::new(
            |h: u64| 0 < h && h <= self.slots@.len() && self.slots@[h - 1] is Some,
            |h: u64| self.slots@[h - 1]->Some_0,
        )
    }

    pub closed spec fn capacity(&self) -> nat {
        self.slots@.len()
    }

    pub fn new() -> (r: HandleTable<T>)
        ensures
            r.view() == Map::<u64, T>::empty(),
            r.capacity() == 0,
    {
        let r = HandleTable { slots: Vec::new() };
        assert(r.view() =~= Map::<u64, T>::empty());
        r
    }

    /// Is `h` a live handle?
    pub fn is_live(&self, h: u64) -> (r: bool)
        ensures
            r == self.view().dom().contains(h),
    {
        h > 0 && h - 1 < self.slots.len() as u64 && self.slots[(h - 1) as usize].is_some()
    }

    /// Moves `v` to the heap and hands out its handle, which is never null and was not live.
    pub fn hand_out(&mut self, v: T) -> (h: u64)
        requires
            old(self).capacity() < u64::MAX,
        ensures
            h != 0,
            !old(self).view().dom().contains(h),
            final(self).view() == old(self).view().insert(h, v),
            final(self).capacity() == old(self).capacity() + 1,
    {
        self.slots.push(Some(v));
        let h = self.slots.len() as u64;
        proof {
            assert(self.view() =~= old(self).view().insert(h, v));
        }
        h
    }

    /// Borrows the value under a live handle; `None` for a null or released handle.
    pub fn get(&self, h: u64) -> (r: Option<&T>)
        ensures
            match r {
                Some(v) => self.view().dom().contains(h) && *v == self.view()[h],
                None => !self.view().dom().contains(h),
            },
    {
        if h > 0 && h - 1 < self.slots.len() as u64 {
            match &self.slots[(h - 1) as usize] {
                Some(v) => Some(v),
                None => None,
            }
        } else {
            None
        }
    }

    /// Replaces the value under a live handle; a null or released handle changes nothing.
    pub fn set(&mut self, h: u64, v: T) -> (r: bool)
        ensures
            r == old(self).view().dom().contains(h),
            r ==> final(self).view() == old(self).view().insert(h, v),
            !r ==> final(self).view() == old(self).view(),
            final(self).capacity() == old(self).capacity(),
    {
        if h > 0 && h - 1 < self.slots.len() as u64 && self.slots[(h - 1) as usize].is_some() {
            let i = (h - 1) as usize;
            self.slots.remove(i);
            self.slots.insert(i, Some(v));
            proof {
                assert(self.slots@ =~= old(self).slots@.update(i as int, Some(v)));
            }
            proof {
                assert(self.view() =~= old(self).view().insert(h, v));
            }
            true
        } else {
            false
        }
    }

    /// Takes the value back from the heap, releasing its handle: the value comes out once,
    /// and a released or null handle gives nothing.
    pub fn take(&mut self, h: u64) -> (r: Option<T>)
        ensures
            match r {
                Some(v) => old(self).view().dom().contains(h) && v == old(self).view()[h],
                None => !old(self).view().dom().contains(h),
            },
            final(self).view() == old(self).view().remove(h),
            final(self).capacity() == old(self).capacity(),
    {
        if h > 0 && h - 1 < self.slots.len() as u64 {
            let i = (h - 1) as usize;
            let taken = self.slots.remove(i);
            self.slots.insert(i, None);
            proof {
                assert(self.slots@ =~= old(self).slots@.update(i as int, None));
                assert(self.view() =~= old(self).view().remove(h));
            }
            taken
        } else {
            proof {
                assert(self.view() =~= old(self).view().remove(h));
            }
            None
        }
    }
}

/// Hands out an optional value: `None` as the null handle, `Some(v)` as a fresh live handle
/// to `v`.
pub fn option_to_wire<T>(table: &mut HandleTable<T>, v: Option<T>) -> (h: u64)
    requires
        old(table).capacity() < u64::MAX,
    ensures
        match v {
            None => h == 0 && final(table).view() == old(table).view(),
            Some(x) => h != 0 && !old(table).view().dom().contains(h)
                && final(table).view() == old(table).view().insert(h, x),
        },
{
    match v {
        None => 0,
        Some(x) => table.hand_out(x),
    }
}

/// Takes an optional value back from its handle: the null handle is `None`.
pub fn option_from_wire<T>(table: &mut HandleTable<T>, h: u64) -> (r: Option<T>)
    ensures
        h == 0 ==> r is None,
        h != 0 && old(table).view().dom().contains(h) ==> r == Some(old(table).view()[h]),
        final(table).view() == old(table).view().remove(h),
{
    if h == 0 {
        proof {
            assert(!old(table).view().dom().contains(0));
        }
        table.take(0)
    } else {
        table.take(h)
    }
}

/// Hands out a fallible value as the C backend does: on success the value goes to the heap,
/// its handle is written through `out` and the status is zero; on failure `out` is left as it
/// was and the status is not zero.
pub fn fallible_to_wire<T, E>(table: &mut HandleTable<T>, r: Result<T, E>, out: &mut u64) -> (status: i32)
    requires
        old(table).capacity() < u64::MAX,
    ensures
        match r {
            Ok(v) => status == STATUS_OK && *final(out) != 0 && !old(table).view().dom().contains(*final(out))
                && final(table).view() == old(table).view().insert(*final(out), v),
            Err(_) => status != STATUS_OK && *final(out) == *old(out) && final(table).view() == old(table).view(),
        },
{
    match r {
        Ok(v) => {
            let h = table.hand_out(v);
            *out = h;
            STATUS_OK
        },
        Err(_) => STATUS_ERR,
    }
}

/// An owned value handed in by pointer: the callee takes it over and releases it.
pub struct Destroy {
    pub handle: u64,
}

impl Destroy {
    pub fn map_from(handle: u64) -> (r: Destroy)
        ensures
            r.handle == handle,
    {
        Destroy { handle }
    }

    /// Releases the value: it leaves the heap, once.
    pub fn release<T>(self, table: &mut HandleTable<T>) -> (r: Option<T>)
        ensures
            match r {
                Some(v) => old(table).view().dom().contains(self.handle) && v == old(table).view()[self.handle],
                None => !old(table).view().dom().contains(self.handle),
            },
            final(table).view() == old(table).view().remove(self.handle),
    {
        table.take(self.handle)
    }
}

/// A list handed across the boundary as a pointer and a length.
#[derive(Debug, Clone, Copy, PartialEq, Eq, Structural)]
pub struct Arr {
    pub ptr: u64,
    pub len: usize,
}

/// Hands out a list: its buffer goes to the heap, and the receiver gets the pointer and the
/// length.
pub fn list_to_wire<T>(table: &mut HandleTable<Vec<T>>, v: Vec<T>) -> (a: Arr)
    requires
        old(table).capacity() < u64::MAX,
    ensures
        a.ptr != 0,
        a.len == v@.len(),
        !old(table).view().dom().contains(a.ptr),
        final(table).view() == old(table).view().insert(a.ptr, v),
{
    let len = v.len();
    let ptr = table.hand_out(v);
    Arr { ptr, len }
}

/// Takes a list back from its pointer and length; a null or released pointer, or a length
/// that is not the list's, gives nothing.
pub fn list_from_wire<T>(table: &mut HandleTable<Vec<T>>, a: Arr) -> (r: Option<Vec<T>>)
    ensures
        match r {
            Some(v) => old(table).view().dom().contains(a.ptr) && v == old(table).view()[a.ptr]
                && v@.len() == a.len && final(table).view() == old(table).view().remove(a.ptr),
            None => final(table).view() == old(table).view() && !(old(table).view().dom().contains(a.ptr)
                && old(table).view()[a.ptr]@.len() == a.len),
        },
{
    match table.get(a.ptr) {
        Some(v) => {
            if v.len() != a.len {
                return None;
            }
        },
        None => {
            return None;
        },
    }
    table.take(a.ptr)
}

/// A model of a dispatch object around a native implementer of an interface: the implementer
/// lives on the heap under `this`, each method is called through a trampoline that leaves it
/// there, and the destructor slot, when present, releases it. Emitted dispatch objects follow
/// these rules (see `Trampoline::keeps_receiver`); this type states them, it is not their code.
pub struct Dispatch {
    pub this: u64,
    pub methods: usize,
    pub has_destroy: bool,
    pub released: bool,
    /// How many times the implementer has been released.
    pub destroy_calls: u64,
}

/// The dispatch object after its release.
pub open spec fn released_state(d: Dispatch) -> Dispatch {
    Dispatch {
        released: true,
        destroy_calls: if !d.released && d.has_destroy { 1 } else { d.destroy_calls },
        ..d
    }
}

/// The dispatch object after a method call through the trampoline `t`: a trampoline that
/// keeps its receiver leaves everything as it was; one that did not would release the
/// implementer at the end of the call.
pub open spec fn invoked_state(d: Dispatch, t: Trampoline) -> Dispatch {
    if t.keeps_receiver {
        d
    } else {
        Dispatch { destroy_calls: (d.destroy_calls + 1) as u64, ..d }
    }
}

/// The dispatch object after the method calls `calls`, in order.
pub open spec fn after_calls(d: Dispatch, calls: Seq<Trampoline>) -> Dispatch
    decreases calls.len(),
{
    if calls.len() == 0 {
        d
    } else {
        invoked_state(after_calls(d, calls.drop_last()), calls.last())
    }
}

impl Dispatch {
    /// Is the dispatch object consistent with the heap: its receiver is live until it is
    /// released, and the destructor slot has run at most once?
    pub open spec fn wf<T>(&self, table: HandleTable<T>) -> bool {
        &&& self.destroy_calls <= 1
        &&& !self.released ==> self.destroy_calls == 0 && table.view().dom().contains(self.this)
    }

    /// Boxes a native implementer of an interface with `methods` methods and wraps it.
    pub fn from_native<T>(table: &mut HandleTable<T>, implementer: T, methods: usize) -> (d: Dispatch)
        requires
            old(table).capacity() < u64::MAX,
        ensures
            d.wf(*final(table)),
            !d.released && d.destroy_calls == 0 && d.has_destroy && d.methods == methods,
            final(table).view() == old(table).view().insert(d.this, implementer),
            !old(table).view().dom().contains(d.this),
    {
        let this = table.hand_out(implementer);
        Dispatch { this, methods, has_destroy: true, released: false, destroy_calls: 0 }
    }

    /// Calls method `m` on the receiver: the trampoline borrows the implementer and puts it
    /// back, so the heap and the object are unchanged. Returns the implementer it reached.
    pub fn invoke<'a, T>(&self, table: &'a HandleTable<T>, m: usize) -> (r: Option<&'a T>)
        requires
            self.wf(*table),
            m < self.methods,
        ensures
            !self.released ==> (r matches Some(v) && *v == table.view()[self.this]),
    {
        if self.released {
            None
        } else {
            table.get(self.this)
        }
    }

    /// Releases the dispatch object: the destructor slot runs once, if present, and takes the
    /// receiver off the heap; a released object, or one with a null destructor slot, does
    /// nothing more.
    pub fn release<T>(&mut self, table: &mut HandleTable<T>) -> (r: Option<T>)
        requires
            old(self).wf(*old(table)),
        ensures
            final(self).wf(*final(table)),
            *final(self) == released_state(*old(self)),
            !old(self).released && old(self).has_destroy ==> {
                &&& final(self).destroy_calls == 1
                &&& r == Some(old(table).view()[old(self).this])
                &&& final(table).view() == old(table).view().remove(old(self).this)
            },
            old(self).released || !old(self).has_destroy ==> {
                &&& final(self).destroy_calls == old(self).destroy_calls
                &&& r is None
                &&& final(table).view() == old(table).view()
            },
    {
        if self.released || !self.has_destroy {
            self.released = true;
            return None;
        }
        self.released = true;
        self.destroy_calls = 1;
        table.take(self.this)
    }
}

} // verus!
