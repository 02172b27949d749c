//! Registry of live objects handed across the C boundary as `isize` handles.
//!
//! A handle is a nonzero `isize`; `0` is what the C ABI returns on error, so
//! it never names an object. Handles come from a counter and are never
//! reused, so a reclaimed handle can no longer reach any object.
use std::collections::HashMap;
use vstd::prelude::*;

verus! {

broadcast use vstd::std_specs::hash::group_hash_axioms;

/// The live objects, keyed by their handles.
pub struct HandleTable<T> {
    entries: HashMap<isize, T>,
    next: isize,
}

/// Well-formedness of a table state: the next handle to hand out is
/// positive, and every live handle lies below it and above `0`.
pub open spec fn table_wf<T>(entries: Map<isize, T>, next: int) -> bool {
    &&& 1 <= next <= isize::MAX
    &&& forall|h: isize| #[trigger] entries.contains_key(h) ==> 1 <= h < next
}

/// Effect of registering `value`: the new entries, the new counter and the
/// handle handed out (`0` once the counter is exhausted, the table unchanged).
pub open spec fn registered<T>(entries: Map<isize, T>, next: int, value: T) -> (Map<isize, T>, int, isize) {
    if next < isize::MAX {
        (entries.insert(next as isize, value), next + 1, next as isize)
    } else {
        (entries, next, 0isize)
    }
}

/// The object that `handle` names, if any.
pub open spec fn resolved<T>(entries: Map<isize, T>, handle: isize) -> Option<T> {
    if entries.contains_key(handle) {
        Some(entries[handle])
    } else {
        None
    }
}

/// Entries after reclaiming `handle`; reclaiming `0` changes nothing.
pub open spec fn reclaimed<T>(entries: Map<isize, T>, handle: isize) -> Map<isize, T> {
    if handle == 0 {
        entries
    } else {
        entries.remove(handle)
    }
}

impl<T> View for HandleTable<T> {
    type V = Map<isize, T>;

    closed spec fn view(&self) -> Map<isize, T> {
        self.entries@
    }
}

impl<T> HandleTable<T> {
    /// The handle that the next registration hands out.
    pub closed spec fn next_handle(&self) -> int {
        self.next as int
    }

    /// Well-formedness of the table: its entries and counter satisfy
    /// `table_wf`, so the laws below apply to it.
    pub open spec fn wf(&self) -> bool {
        table_wf(self@, self.next_handle())
    }

    /// An empty table; the first handle it hands out is `1`.
    pub fn new() -> (table: Self)
        ensures
            table.wf(),
            table@ == Map::<isize, T>::empty(),
            table.next_handle() == 1,
    {
        HandleTable { entries: HashMap::new(), next: 1 }
    }

    /// Number of live handles.
    pub fn len(&self) -> (n: usize)
        requires
            self.wf(),
        ensures
            n == self@.len(),
    {
        self.entries.len()
    }
}

/// Registers `arc` and returns its handle (`0` when no handle is left).
pub fn arc_to_handle<T>(table: &mut HandleTable<T>, arc: T) -> (handle: isize)
    requires
        old(table).wf(),
    ensures
        final(table).wf(),
        (final(table)@, final(table).next_handle(), handle) == registered(
            old(table)@,
            old(table).next_handle(),
            arc,
        ),
        handle != 0 ==> !old(table)@.contains_key(handle),
        handle != 0 ==> resolved(final(table)@, handle) == Some(arc),
        handle == 0 <==> old(table).next_handle() == isize::MAX,
        handle != 0 ==> handle == old(table).next_handle() && final(table)@ == old(table)@.insert(
            handle,
            arc,
        ),
        handle != 0 ==> final(table).next_handle() == old(table).next_handle() + 1,
        handle == 0 ==> final(table)@ == old(table)@,
{
    if table.next == isize::MAX {
        return 0;
    }
    let handle = table.next;
    table.entries.insert(handle, arc);
    table.next = handle + 1;
    handle
}

/// The object that `handle` names, or `None` for `0` and for a handle that
/// is not live.
pub fn handle_to_ref<T>(table: &HandleTable<T>, handle: isize) -> (found: Option<&T>)
    requires
        table.wf(),
    ensures
        found == (if table@.contains_key(handle) { Some(&table@[handle]) } else { None::<&T> }),
        found is None <==> resolved(table@, handle) is None,
        found matches Some(object) ==> resolved(table@, handle) == Some(*object),
{
    table.entries.get(&handle)
}

/// Removes `handle` from the table and gives back its object; `0` is
/// ignored.
pub fn reclaim_handle<T>(table: &mut HandleTable<T>, handle: isize) -> (object: Option<T>)
    requires
        old(table).wf(),
    ensures
        final(table).wf(),
        final(table)@ == reclaimed(old(table)@, handle),
        final(table).next_handle() == old(table).next_handle(),
        object == resolved(old(table)@, handle),
        handle == 0 ==> object is None && final(table)@ == old(table)@,
        handle != 0 ==> final(table)@ == old(table)@.remove(handle),
        old(table)@.contains_key(handle) ==> object == Some(old(table)@[handle]),
        !old(table)@.contains_key(handle) ==> object is None,
        !final(table)@.contains_key(handle),
        resolved(final(table)@, handle) is None,
{
    if handle != 0 {
        table.entries.remove(&handle)
    } else {
        None
    }
}

} // verus!

verus! {

/// Law: a registration on a table with handles left hands out a nonzero
/// handle that was not live before, which then names the registered object,
/// while every other handle names what it named before.
pub proof fn law_registered_handle_names_object<T>(entries: Map<isize, T>, next: int, value: T)
    requires
        table_wf(entries, next),
        next < isize::MAX,
    ensures
        ({
            let (after, after_next, handle) = registered(entries, next, value);
            &&& handle != 0
            &&& !entries.contains_key(handle)
            &&& resolved(after, handle) == Some(value)
            &&& forall|other: isize| other != handle ==> #[trigger] resolved(after, other) == resolved(entries, other)
            &&& table_wf(after, after_next)
        }),
{
}

/// Law: once the counter is exhausted, registration hands out `0` and
/// leaves the table as it was.
pub proof fn law_exhausted_table_refuses<T>(entries: Map<isize, T>, next: int, value: T)
    requires
        table_wf(entries, next),
        next == isize::MAX,
    ensures
        registered(entries, next, value) == (entries, next, 0isize),
{
}

/// Law: `0` never names an object.
pub proof fn law_zero_names_nothing<T>(entries: Map<isize, T>, next: int)
    requires
        table_wf(entries, next),
    ensures
        resolved(entries, 0) is None,
{
}

/// Law: after a handle is reclaimed it names nothing, every other handle
/// names what it named before, and the table stays well formed.
pub proof fn law_reclaimed_handle_names_nothing<T>(entries: Map<isize, T>, next: int, handle: isize)
    requires
        table_wf(entries, next),
    ensures
        resolved(reclaimed(entries, handle), handle) is None,
        forall|other: isize| other != handle ==> #[trigger] resolved(reclaimed(entries, handle), other) == resolved(entries, other),
        table_wf(reclaimed(entries, handle), next),
{
}

/// Law: a handle that was ever handed out is never handed out again, however
/// far the counter has moved since.
pub proof fn law_handles_never_reused<T>(entries: Map<isize, T>, next: int, handle: isize, later_entries: Map<isize, T>, later_next: int, value: T)
    requires
        table_wf(entries, next),
        1 <= handle < next,
        table_wf(later_entries, later_next),
        next <= later_next,
    ensures
        registered(later_entries, later_next, value).2 != handle,
{
}

} // verus!
