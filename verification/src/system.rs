//! The system subsystem: a shared, non-owning view of the system entry
//! table. It carries the realloc primitive that the allocator bridge rides
//! on, the console log and error entry points, the frame callbacks, and the
//! clock and input samplers.
//!
//! Console output is best-effort: a text that cannot be converted to a C
//! string is dropped without reaching the device, and without failing the
//! caller.

use vstd::prelude::*;

use crate::cstr::has_nul;
use crate::cstr::is_c_string_of;
use crate::cstr::lemma_c_string_form;
use crate::cstr::to_c_string;
use crate::device::Device;

verus! {

/// A shared view of the system subsystem's entry table. Views are freely
/// copyable and own no releasable resource.
#[derive(Clone, Copy)]
pub struct System {
    entry: u64,
}

impl System {
    /// The entry address this view dispatches through.
    pub closed spec fn addr(self) -> u64 {
        self.entry
    }

    /// Wraps the system entry address handed over at initialization.
    pub fn new(entry: u64) -> (r: System)
        ensures
            r.addr() == entry,
    {
        System { entry }
    }

    /// Registers (or clears) the per-frame update callback slot.
    pub fn set_update_callback(&self, dev: &mut Device, enabled: bool)
        requires
            old(dev).wf(),
        ensures
            final(dev).wf(),
            (*final(dev) == Device { update_callback_set: enabled, ..(*old(dev)) }),
    {
        dev.update_callback_set = enabled;
    }

    /// Registers (or clears) the options-menu callback slot.
    pub fn set_options_callback(&self, dev: &mut Device, enabled: bool)
        requires
            old(dev).wf(),
        ensures
            final(dev).wf(),
            (*final(dev) == Device { options_callback_set: enabled, ..(*old(dev)) }),
    {
        dev.options_callback_set = enabled;
    }

    /// The device's realloc primitive: frees on a zero size and returns the
    /// null sentinel, otherwise carves a fresh address out of the remaining
    /// heap or reports exhaustion with the null sentinel.
    pub fn realloc(&self, dev: &mut Device, addr: u64, size: u64) -> (r: u64)
        requires
            old(dev).wf(),
        ensures
            final(dev).wf(),
            size == 0 ==> r == 0 && *final(dev) == *old(dev),
            size > 0 && size <= old(dev).heap_free ==> {
                &&& r == old(dev).next_addr
                &&& r != 0
                &&& final(dev).next_addr == old(dev).next_addr + size
                &&& final(dev).heap_free == old(dev).heap_free - size
                &&& (*final(dev) == Device {
                    next_addr: final(dev).next_addr,
                    heap_free: final(dev).heap_free,
                    ..(*old(dev))
                })
            },
            size > old(dev).heap_free ==> r == 0 && *final(dev) == *old(dev),
    {
        dev.realloc(addr, size)
    }

    /// Logs a line to the device console. The text is converted to a C
    /// string first; a text holding a null byte is dropped silently, and the
    /// device is not called.
    pub fn log_to_console(&self, dev: &mut Device, text: &Vec<u8>)
        requires
            old(dev).wf(),
        ensures
            final(dev).wf(),
            !has_nul(text@) ==> {
                &&& final(dev).log@ == old(dev).log@.push(final(dev).log@.last())
                &&& is_c_string_of(final(dev).log@.last()@, text@)
                &&& (*final(dev) == Device { log: final(dev).log, ..(*old(dev)) })
            },
            has_nul(text@) ==> *final(dev) == *old(dev),
    {
        let converted = to_c_string(text);
        match converted {
            Ok(c) => {
                proof {
                    lemma_c_string_form(c@, text@);
                }
                dev.log_line(c);
            },
            Err(_) => {},
        }
    }

    /// Reports an error line through the device's error entry point. The
    /// text is converted to a C string first; a text holding a null byte is
    /// dropped silently, and the device is not called.
    pub fn error(&self, dev: &mut Device, text: &Vec<u8>)
        requires
            old(dev).wf(),
        ensures
            final(dev).wf(),
            !has_nul(text@) ==> {
                &&& final(dev).error_log@
                    == old(dev).error_log@.push(final(dev).error_log@.last())
                &&& is_c_string_of(final(dev).error_log@.last()@, text@)
                &&& (*final(dev) == Device { error_log: final(dev).error_log, ..(*old(dev)) })
            },
            has_nul(text@) ==> *final(dev) == *old(dev),
    {
        let converted = to_c_string(text);
        match converted {
            Ok(c) => {
                proof {
                    lemma_c_string_form(c@, text@);
                }
                dev.error_line(c);
            },
            Err(_) => {},
        }
    }

    /// Draws the frame-rate meter: one more draw call reaches the device.
    pub fn draw_fps(&self, dev: &mut Device, x: i32, y: i32)
        requires
            old(dev).wf(),
            old(dev).draw_calls < u64::MAX,
        ensures
            final(dev).wf(),
            (*final(dev) == Device {
                draw_calls: (old(dev).draw_calls + 1) as u64,
                ..(*old(dev))
            }),
    {
        let _ = x;
        let _ = y;
        dev.draw_calls = dev.draw_calls + 1;
    }

    /// Enables the given peripherals.
    pub fn set_peripherals_enabled(&self, dev: &mut Device, mask: u32)
        requires
            old(dev).wf(),
        ensures
            final(dev).wf(),
            (*final(dev) == Device { peripherals_mask: mask, ..(*old(dev)) }),
    {
        dev.peripherals_mask = mask;
    }

    /// Samples whether the crank is docked.
    pub fn is_crank_docked(&self, dev: &Device) -> (r: bool)
        ensures
            r == dev.crank_docked,
    {
        dev.crank_docked
    }

    /// Samples the button registers: currently held, freshly pushed, and
    /// freshly released.
    pub fn get_button_state(&self, dev: &Device) -> (r: (u32, u32, u32))
        ensures
            r.0 == dev.buttons_current,
            r.1 == dev.buttons_pushed,
            r.2 == dev.buttons_released,
    {
        (dev.buttons_current, dev.buttons_pushed, dev.buttons_released)
    }

    /// Reads the millisecond clock.
    pub fn get_current_time_ms(&self, dev: &Device) -> (r: u32)
        ensures
            r == dev.time_ms,
    {
        dev.time_ms
    }

    /// Reads the wall clock: whole seconds since the epoch, and the
    /// millisecond remainder.
    pub fn get_seconds_since_epoch(&self, dev: &Device) -> (r: (u32, u32))
        ensures
            r.0 == dev.epoch_seconds,
            r.1 == dev.epoch_ms,
    {
        (dev.epoch_seconds, dev.epoch_ms)
    }

    /// Samples whether the unit is held flipped.
    pub fn get_flipped(&self, dev: &Device) -> (r: bool)
        ensures
            r == dev.system_flipped,
    {
        dev.system_flipped
    }
}

} // verus!
