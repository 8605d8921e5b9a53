//! The display subsystem: a shared view of the display entry table, over
//! the display's registers — size, scale, inversion, mosaic, flip, offset
//! and refresh rate.

use vstd::prelude::*;

use crate::device::Device;

verus! {

/// A shared view of the display subsystem's entry table. Views are freely
/// copyable and own no releasable resource.
#[derive(Clone, Copy)]
pub struct Display {
    entry: u64,
}

impl Display {
    /// The entry address this view dispatches through.
    pub closed spec fn addr(self) -> u64 {
        self.entry
    }

    /// Wraps the display entry address handed over at initialization.
    pub fn new(entry: u64) -> (r: Display)
        ensures
            r.addr() == entry,
    {
        Display { entry }
    }

    /// The width of the LCD in pixels.
    pub fn width(&self) -> (r: i32)
        ensures
            r == 400,
    {
        400
    }

    /// The height of the LCD in pixels.
    pub fn height(&self) -> (r: i32)
        ensures
            r == 240,
    {
        240
    }

    /// Sets the refresh rate register, in whole frames per second.
    pub fn set_refresh_rate(&self, dev: &mut Device, rate: u32)
        requires
            old(dev).wf(),
        ensures
            final(dev).wf(),
            (*final(dev) == Device { refresh_rate: rate, ..(*old(dev)) }),
    {
        dev.refresh_rate = rate;
    }

    /// Sets the inversion register; any nonzero flag inverts.
    pub fn set_inverted(&self, dev: &mut Device, flag: i32)
        requires
            old(dev).wf(),
        ensures
            final(dev).wf(),
            (*final(dev) == Device { display_inverted: flag != 0, ..(*old(dev)) }),
    {
        dev.display_inverted = flag != 0;
    }

    /// Sets the scale register.
    pub fn set_scale(&self, dev: &mut Device, s: u32)
        requires
            old(dev).wf(),
        ensures
            final(dev).wf(),
            (*final(dev) == Device { display_scale: s, ..(*old(dev)) }),
    {
        dev.display_scale = s;
    }

    /// Sets the mosaic registers.
    pub fn set_mosaic(&self, dev: &mut Device, x: u32, y: u32)
        requires
            old(dev).wf(),
        ensures
            final(dev).wf(),
            (*final(dev) == Device {
                display_mosaic_x: x,
                display_mosaic_y: y,
                ..(*old(dev))
            }),
    {
        dev.display_mosaic_x = x;
        dev.display_mosaic_y = y;
    }

    /// Sets the flip registers.
    pub fn set_flipped(&self, dev: &mut Device, x: i32, y: i32)
        requires
            old(dev).wf(),
        ensures
            final(dev).wf(),
            (*final(dev) == Device {
                display_flipped_x: x,
                display_flipped_y: y,
                ..(*old(dev))
            }),
    {
        dev.display_flipped_x = x;
        dev.display_flipped_y = y;
    }

    /// Sets the offset registers.
    pub fn set_offset(&self, dev: &mut Device, x: i32, y: i32)
        requires
            old(dev).wf(),
        ensures
            final(dev).wf(),
            (*final(dev) == Device {
                display_offset_x: x,
                display_offset_y: y,
                ..(*old(dev))
            }),
    {
        dev.display_offset_x = x;
        dev.display_offset_y = y;
    }
}

} // verus!
