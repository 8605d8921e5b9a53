//! The allocator bridge: every dynamic memory request is satisfied by the
//! device's own realloc primitive, since the embedded target has no host
//! allocator.
//!
//! Allocation failure is fatal by design — there is no recoverable way to
//! continue without memory — so `alloc_error` logs a fixed diagnostic to
//! the device console and hands back the halt action that writes through a
//! fixed invalid address.

use vstd::prelude::*;

use crate::cstr::is_c_form;
use crate::device::Device;
use crate::fault::abort_with_addr;
use crate::fault::Halt;
use crate::system::System;

verus! {

/// The address written through to force a halt when memory is exhausted.
pub const OOM_HALT_ADDRESS: usize = 0xdeadfa11;

/// The allocator bridge: stateless beyond the system view it delegates to.
pub struct PlaydateAllocator;

impl PlaydateAllocator {
    /// Requests `size` fresh bytes: device-realloc of the null address. A
    /// zero-size request returns the device's sentinel for it — the null
    /// address — without faulting; an exhausted heap also answers null,
    /// which the caller must treat as out of memory.
    pub fn allocate(&self, sys: &System, dev: &mut Device, size: u64) -> (r: u64)
        requires
            old(dev).wf(),
        ensures
            final(dev).wf(),
            size == 0 ==> r == 0 && *final(dev) == *old(dev),
            size > 0 && size <= old(dev).heap_free ==> {
                &&& r == old(dev).next_addr
                &&& r != 0
                &&& final(dev).heap_free == old(dev).heap_free - size
                &&& (*final(dev) == Device {
                    next_addr: final(dev).next_addr,
                    heap_free: final(dev).heap_free,
                    ..(*old(dev))
                })
            },
            size > old(dev).heap_free ==> r == 0 && *final(dev) == *old(dev),
    {
        sys.realloc(dev, 0, size)
    }

    /// Returns a block: device-realloc to size zero. The model reclaims
    /// nothing, so the device is left as it was.
    pub fn deallocate(&self, sys: &System, dev: &mut Device, addr: u64)
        requires
            old(dev).wf(),
        ensures
            final(dev).wf(),
            *final(dev) == *old(dev),
    {
        let _ = sys.realloc(dev, addr, 0);
    }

    /// Moves a block to `new_size` bytes: device-realloc of its address.
    /// The model answers with a fresh address, or null when the heap is
    /// exhausted or the size is zero.
    pub fn reallocate(&self, sys: &System, dev: &mut Device, addr: u64, new_size: u64) -> (r:
        u64)
        requires
            old(dev).wf(),
        ensures
            final(dev).wf(),
            new_size == 0 ==> r == 0 && *final(dev) == *old(dev),
            new_size > 0 && new_size <= old(dev).heap_free ==> {
                &&& r == old(dev).next_addr
                &&& r != 0
                &&& final(dev).heap_free == old(dev).heap_free - new_size
                &&& (*final(dev) == Device {
                    next_addr: final(dev).next_addr,
                    heap_free: final(dev).heap_free,
                    ..(*old(dev))
                })
            },
            new_size > old(dev).heap_free ==> r == 0 && *final(dev) == *old(dev),
    {
        sys.realloc(dev, addr, new_size)
    }
}

/// The out-of-memory path: logs the fixed diagnostic to the device console
/// and hands back the halt action for the fixed invalid address. Fatal by
/// design; nothing here can itself fail or allocate beyond the fixed
/// message.
pub fn alloc_error(dev: &mut Device) -> (halt: Halt)
    requires
        old(dev).wf(),
    ensures
        final(dev).wf(),
        final(dev).log@ == old(dev).log@.push(final(dev).log@.last()),
        final(dev).log@.last()@ == seq![79u8, 79u8, 77u8, 0u8],
        (*final(dev) == Device { log: final(dev).log, ..(*old(dev)) }),
        halt.address == OOM_HALT_ADDRESS,
{
    let mut msg: Vec<u8> = Vec::new();
    msg.push(79);
    msg.push(79);
    msg.push(77);
    msg.push(0);
    proof {
        assert(msg@ =~= seq![79u8, 79u8, 77u8, 0u8]);
        assert(is_c_form(msg@));
    }
    dev.log_line(msg);
    abort_with_addr(OOM_HALT_ADDRESS)
}

} // verus!
