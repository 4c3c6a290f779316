//! The table of device interrupt handlers.

use vstd::prelude::*;
use axplat::irq::HandlerTable;
use crate::cause::MAX_IRQ_COUNT;
use crate::handler::IrqHandler;

verus! {

/// A mapping from interrupt source numbers to their handlers.
pub type HandlerMap = Map<int, IrqHandler>;

/// Whether `irq` is the number of a device source: 0 stands for "no
/// interrupt", and the table ends at its capacity.
pub open spec fn is_device_source(irq: usize) -> bool {
    1 <= irq < MAX_IRQ_COUNT
}

/// The handler that `entries` holds for `irq`, if any.
pub open spec fn entry(entries: HandlerMap, irq: usize) -> Option<IrqHandler> {
    if is_device_source(irq) && entries.dom().contains(irq as int) {
        Some(entries[irq as int])
    } else {
        None
    }
}

/// What `register` does to a table: the entries afterwards, and whether the
/// handler went in.
pub open spec fn entries_register(entries: HandlerMap, irq: usize, handler: IrqHandler) -> (
    HandlerMap,
    bool,
) {
    if is_device_source(irq) && !entries.dom().contains(irq as int) {
        (entries.insert(irq as int, handler), true)
    } else {
        (entries, false)
    }
}

/// What `unregister` does to a table: the entries afterwards, and the handler
/// that was taken out.
pub open spec fn entries_unregister(entries: HandlerMap, irq: usize) -> (HandlerMap, Option<IrqHandler>) {
    if is_device_source(irq) {
        (entries.remove(irq as int), entry(entries, irq))
    } else {
        (entries, None)
    }
}

/// Whether every number in `entries` is that of a device source: none is 0,
/// none is at or beyond the table's capacity.
pub open spec fn within_capacity(entries: HandlerMap) -> bool {
    forall|irq: int| entries.dom().contains(irq) ==> 1 <= irq < MAX_IRQ_COUNT
}

/// `HandlerTable`, a fixed array of handler cells. Nothing is known of a
/// table but what the functions below state.
#[verifier::external_type_specification]
#[verifier::external_body]
pub struct ExHandlerTable<const N: usize>(HandlerTable<N>);

/// The handlers that a `HandlerTable` holds, by index.
pub uninterp spec fn table_entries(table: HandlerTable<1024>) -> HandlerMap;

/// `HandlerTable::new`: a table in which no index has a handler.
#[verifier::external_body]
fn table_new() -> (table: HandlerTable<1024>)
    ensures
        table_entries(table) == HandlerMap::empty(),
{
    HandlerTable::new()
}

/// `HandlerTable::register_handler`: stores the handler and returns `true`
/// where the index is below the table's size and had no handler; otherwise
/// returns `false` and leaves the table alone.
#[verifier::external_body]
fn table_register(table: &mut HandlerTable<1024>, idx: usize, handler: IrqHandler) -> (registered: bool)
    ensures
        registered == (idx < 1024 && !table_entries(*old(table)).dom().contains(idx as int)),
        registered ==> table_entries(*final(table)) == table_entries(*old(table)).insert(
            idx as int,
            handler,
        ),
        !registered ==> table_entries(*final(table)) == table_entries(*old(table)),
{
    table.register_handler(idx, handler.0)
}

/// `HandlerTable::unregister_handler`: empties the index and returns the
/// handler that it held; `None` where it held none or lies beyond the
/// table's size.
#[verifier::external_body]
fn table_unregister(table: &mut HandlerTable<1024>, idx: usize) -> (removed: Option<IrqHandler>)
    ensures
        idx < 1024 && table_entries(*old(table)).dom().contains(idx as int) ==> removed == Some(
            table_entries(*old(table))[idx as int],
        ),
        !(idx < 1024 && table_entries(*old(table)).dom().contains(idx as int)) ==> removed is None,
        idx < 1024 ==> table_entries(*final(table)) == table_entries(*old(table)).remove(idx as int),
        idx >= 1024 ==> table_entries(*final(table)) == table_entries(*old(table)),
{
    table.unregister_handler(idx).map(IrqHandler)
}

/// `HandlerTable::handle`: calls the handler of the index once and returns
/// `true`; returns `false`, calling nothing, where the index has no handler
/// or lies beyond the table's size.
#[verifier::external_body]
fn table_handle(table: &HandlerTable<1024>, idx: usize) -> (handled: bool)
    ensures
        handled == (idx < 1024 && table_entries(*table).dom().contains(idx as int)),
{
    table.handle(idx)
}

/// The handlers of the device interrupts, at most one per source number.
pub struct DeviceTable {
    table: HandlerTable<1024>,
}

impl DeviceTable {
    /// The registered handlers, by source number.
    pub closed spec fn view(&self) -> HandlerMap {
        table_entries(self.table).restrict(Set::new(|irq: int| 1 <= irq < MAX_IRQ_COUNT))
    }

    /// No table holds source 0, nor a source at or beyond its capacity.
    pub proof fn lemma_within_capacity(&self)
        ensures
            within_capacity(self@),
    {
    }

    /// A table with no handler in it.
    pub fn new() -> (table: Self)
        ensures
            table@ == HandlerMap::empty(),
    {
        DeviceTable { table: table_new() }
    }

    /// Registers `handler` for `irq` if `irq` is a device source and has no
    /// handler yet, and says whether it did. Otherwise nothing changes.
    pub fn register(&mut self, irq: usize, handler: IrqHandler) -> (registered: bool)
        ensures
            (final(self)@, registered) == entries_register(old(self)@, irq, handler),
    {
        if irq == 0 {
            false
        } else {
            table_register(&mut self.table, irq, handler)
        }
    }

    /// Takes the handler of `irq` out of the table and returns it.
    pub fn unregister(&mut self, irq: usize) -> (removed: Option<IrqHandler>)
        ensures
            (final(self)@, removed) == entries_unregister(old(self)@, irq),
    {
        if irq == 0 {
            None
        } else {
            table_unregister(&mut self.table, irq)
        }
    }

    /// Tells whether `irq` has a handler, and leaves the table as it is.
    ///
    /// The cells of the table can be swapped but not read, so the handler is
    /// taken out and put straight back; the exclusive borrow keeps anyone
    /// from seeing the cell empty.
    pub fn is_registered(&mut self, irq: usize) -> (registered: bool)
        ensures
            final(self)@ == old(self)@,
            registered == entry(old(self)@, irq).is_some(),
    {
        match self.unregister(irq) {
            Some(handler) => self.register(irq, handler),
            None => false,
        }
    }

    /// Calls the handler of `irq`, if it has one, and says whether it did.
    pub fn dispatch(&self, irq: usize) -> (handled: bool)
        ensures
            handled == entry(self@, irq).is_some(),
    {
        if irq == 0 {
            false
        } else {
            table_handle(&self.table, irq)
        }
    }
}

} // verus!
