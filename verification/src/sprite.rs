//! The sprite subsystem: a shared view of the sprite entry table, and the
//! owning wrapper for one sprite.
//!
//! A sprite's drawable properties — tag, depth, visibility, flip and the
//! rest — are carried by the wrapper, their single owner; installing an
//! image or a stencil records the bitmap's handle without taking the
//! bitmap over, so the bitmap's owner keeps its release obligation and no
//! handle is freed twice. Positions and sizes are whole pixels in the
//! model.

use vstd::prelude::*;

use crate::device::resource_created;
use crate::device::resource_released;
use crate::device::ClipRect;
use crate::device::Device;
use crate::error::PdError;
use crate::graphics::lemma_fresh_handle_not_open;
use crate::graphics::Bitmap;
use crate::graphics::BitmapDrawMode;
use crate::graphics::BitmapFlip;

verus! {

/// A pair of coordinates.
#[derive(Clone, Copy, Debug, PartialEq, Eq, Structural)]
pub struct Vec2<T> {
    pub x: T,
    pub y: T,
}

/// How a sprite responds when a movement collides.
#[derive(Clone, Copy, Debug, PartialEq, Eq, Structural)]
pub enum CollisionResponseType {
    Slide,
    Freeze,
    Overlap,
    Bounce,
}

/// The record of one collision during a sprite movement, in whole pixels.
#[derive(Clone, Copy, Debug, PartialEq, Eq, Structural)]
pub struct CollisionInfo {
    pub response_type: CollisionResponseType,
    pub overlap: u8,
    pub normal: Vec2<i32>,
    pub touch: Vec2<i32>,
}

/// The record of one sprite met along a cast query, in whole pixels.
#[derive(Clone, Copy, Debug, PartialEq, Eq, Structural)]
pub struct QueryInfo {
    pub entry_point: Vec2<i32>,
    pub exit_point: Vec2<i32>,
}

/// A sprite's bounds: position and size, in whole pixels in the model.
#[derive(Clone, Copy, Debug, PartialEq, Eq, Structural)]
pub struct PDRect {
    pub x: i32,
    pub y: i32,
    pub width: i32,
    pub height: i32,
}

/// A shared view of the sprite subsystem's entry table. Views are freely
/// copyable and own no releasable resource.
#[derive(Clone, Copy)]
pub struct PDSprite {
    entry: u64,
}

impl PDSprite {
    /// The entry address this view dispatches through.
    pub closed spec fn addr(self) -> u64 {
        self.entry
    }

    /// Wraps the sprite entry address handed over at initialization.
    pub fn new(entry: u64) -> (r: PDSprite)
        ensures
            r.addr() == entry,
    {
        PDSprite { entry }
    }
}

/// The owning wrapper of one sprite: exactly one wrapper per handle,
/// released exactly once by `release`. The sprite's drawable properties
/// live with their single owner.
pub struct Sprite {
    /// The native handle this wrapper owns. Written only by the
    /// constructors; treat as read-only.
    pub handle: u64,
    /// The sprite's position, in whole pixels.
    pub x: i32,
    /// The sprite's position, in whole pixels.
    pub y: i32,
    /// The sprite's size, in whole pixels.
    pub width: i32,
    /// The sprite's size, in whole pixels.
    pub height: i32,
    /// The caller's tag byte.
    pub tag: u8,
    /// The drawing depth.
    pub z_index: i16,
    /// Whether the sprite is drawn.
    pub visible: bool,
    /// Whether the sprite's update routine runs.
    pub updates_enabled: bool,
    /// Whether the sprite is drawn as fully opaque.
    pub opaque: bool,
    /// Whether the sprite must be redrawn this frame.
    pub dirty: bool,
    /// Whether the sprite ignores the global draw offset.
    pub ignores_draw_offset: bool,
    /// How the installed image is flipped.
    pub flip: BitmapFlip,
    /// How the sprite's pixels combine with what is under them.
    pub draw_mode: BitmapDrawMode,
    /// The handle of the installed image, or zero for none.
    pub image: u64,
    /// The handle of the installed stencil, or zero for none.
    pub stencil: u64,
    /// The sprite's own clip rectangle, if any.
    pub clip_rect: Option<ClipRect>,
    /// Whether a custom update routine is installed.
    pub update_function_set: bool,
}

impl Sprite {
    /// The native handle this wrapper owns.
    pub open spec fn id(self) -> u64 {
        self.handle
    }

    /// The wrapper is valid against a device while its handle is live there
    /// and is no open file's.
    pub open spec fn valid(self, dev: Device) -> bool {
        &&& dev.live@.contains(self.id())
        &&& !dev.has_open(self.id())
    }

    /// The default drawable properties of a fresh sprite.
    pub open spec fn default_properties(self) -> bool {
        &&& self.x == 0
        &&& self.y == 0
        &&& self.width == 0
        &&& self.height == 0
        &&& self.tag == 0
        &&& self.z_index == 0
        &&& self.visible
        &&& self.updates_enabled
        &&& !self.opaque
        &&& !self.dirty
        &&& !self.ignores_draw_offset
        &&& self.flip is Unflipped
        &&& self.draw_mode is Normal
        &&& self.image == 0
        &&& self.stencil == 0
        &&& self.clip_rect is None
        &&& !self.update_function_set
    }

    /// Creates a fresh sprite with default properties. The simulated device
    /// always has room for one more sprite, so creation succeeds.
    pub fn new(dev: &mut Device) -> (r: Result<Sprite, PdError>)
        requires
            old(dev).wf(),
            old(dev).can_create(),
        ensures
            final(dev).wf(),
            r is Ok,
            resource_created(*old(dev), *final(dev), r->Ok_0.id()),
            r->Ok_0.valid(*final(dev)),
            r->Ok_0.default_properties(),
            (*final(dev) == Device {
                next_handle: final(dev).next_handle,
                live: final(dev).live,
                create_calls: final(dev).create_calls,
                ..(*old(dev))
            }),
    {
        let h = dev.create_resource();
        proof {
            lemma_fresh_handle_not_open(*old(dev), *dev, h);
        }
        Ok(Sprite {
            handle: h,
            x: 0,
            y: 0,
            width: 0,
            height: 0,
            tag: 0,
            z_index: 0,
            visible: true,
            updates_enabled: true,
            opaque: false,
            dirty: false,
            ignores_draw_offset: false,
            flip: BitmapFlip::Unflipped,
            draw_mode: BitmapDrawMode::Normal,
            image: 0,
            stencil: 0,
            clip_rect: None,
            update_function_set: false,
        })
    }

    /// Copies a sprite: a fresh handle with the source's properties.
    pub fn copy(dev: &mut Device, source: &Sprite) -> (r: Result<Sprite, PdError>)
        requires
            old(dev).wf(),
            old(dev).can_create(),
            source.valid(*old(dev)),
        ensures
            final(dev).wf(),
            r is Ok,
            resource_created(*old(dev), *final(dev), r->Ok_0.id()),
            r->Ok_0.valid(*final(dev)),
            source.valid(*final(dev)),
            (r->Ok_0 == Sprite { handle: r->Ok_0.id(), ..*source }),
            (*final(dev) == Device {
                next_handle: final(dev).next_handle,
                live: final(dev).live,
                create_calls: final(dev).create_calls,
                ..(*old(dev))
            }),
    {
        let h = dev.create_resource();
        proof {
            lemma_fresh_handle_not_open(*old(dev), *dev, h);
        }
        Ok(Sprite {
            handle: h,
            x: source.x,
            y: source.y,
            width: source.width,
            height: source.height,
            tag: source.tag,
            z_index: source.z_index,
            visible: source.visible,
            updates_enabled: source.updates_enabled,
            opaque: source.opaque,
            dirty: source.dirty,
            ignores_draw_offset: source.ignores_draw_offset,
            flip: source.flip,
            draw_mode: source.draw_mode,
            image: source.image,
            stencil: source.stencil,
            clip_rect: source.clip_rect,
            update_function_set: source.update_function_set,
        })
    }

    /// Places the sprite's bounds: position and size at once.
    pub fn set_bounds(&mut self, bounds: PDRect)
        ensures
            (*final(self) == Sprite {
                x: bounds.x,
                y: bounds.y,
                width: bounds.width,
                height: bounds.height,
                ..*old(self)
            }),
    {
        self.x = bounds.x;
        self.y = bounds.y;
        self.width = bounds.width;
        self.height = bounds.height;
    }

    /// The sprite's bounds: position and size.
    pub fn bounds(&self) -> (r: PDRect)
        ensures
            r == (PDRect { x: self.x, y: self.y, width: self.width, height: self.height }),
    {
        PDRect { x: self.x, y: self.y, width: self.width, height: self.height }
    }

    /// Moves the sprite to a position.
    pub fn move_to(&mut self, x: i32, y: i32)
        ensures
            (*final(self) == Sprite { x, y, ..*old(self) }),
    {
        self.x = x;
        self.y = y;
    }

    /// Moves the sprite by an offset.
    pub fn move_by(&mut self, dx: i32, dy: i32)
        requires
            i32::MIN <= old(self).x + dx <= i32::MAX,
            i32::MIN <= old(self).y + dy <= i32::MAX,
        ensures
            (*final(self) == Sprite {
                x: (old(self).x + dx) as i32,
                y: (old(self).y + dy) as i32,
                ..*old(self)
            }),
    {
        self.x = self.x + dx;
        self.y = self.y + dy;
    }

    /// The sprite's position.
    pub fn get_position(&self) -> (r: (i32, i32))
        ensures
            r.0 == self.x,
            r.1 == self.y,
    {
        (self.x, self.y)
    }

    /// Sets the sprite's size.
    pub fn set_size(&mut self, width: i32, height: i32)
        ensures
            (*final(self) == Sprite { width, height, ..*old(self) }),
    {
        self.width = width;
        self.height = height;
    }

    /// Installs a bitmap as the sprite's image, recording its handle; the
    /// bitmap stays with its owner, who keeps the release obligation.
    pub fn set_image(&mut self, image: &Bitmap, flip: BitmapFlip)
        ensures
            (*final(self) == Sprite { image: image.id(), flip, ..*old(self) }),
    {
        self.image = image.handle_value();
        self.flip = flip;
    }

    /// The handle of the installed image, or `None` when none is installed.
    pub fn image(&self) -> (r: Option<u64>)
        ensures
            self.image == 0 ==> r is None,
            self.image != 0 ==> r == Some(self.image),
    {
        if self.image == 0 {
            None
        } else {
            Some(self.image)
        }
    }

    /// Sets the caller's tag byte.
    pub fn set_tag(&mut self, tag: u8)
        ensures
            (*final(self) == Sprite { tag, ..*old(self) }),
    {
        self.tag = tag;
    }

    /// The caller's tag byte.
    pub fn tag(&self) -> (r: u8)
        ensures
            r == self.tag,
    {
        self.tag
    }

    /// Sets the drawing depth.
    pub fn set_z_index(&mut self, z_index: i16)
        ensures
            (*final(self) == Sprite { z_index, ..*old(self) }),
    {
        self.z_index = z_index;
    }

    /// Sets how the sprite's pixels combine with what is under them.
    pub fn set_draw_mode(&mut self, mode: BitmapDrawMode)
        ensures
            (*final(self) == Sprite { draw_mode: mode, ..*old(self) }),
    {
        self.draw_mode = mode;
    }

    /// Sets how the installed image is flipped.
    pub fn set_image_flip(&mut self, flip: BitmapFlip)
        ensures
            (*final(self) == Sprite { flip, ..*old(self) }),
    {
        self.flip = flip;
    }

    /// How the installed image is flipped.
    pub fn image_flip(&self) -> (r: BitmapFlip)
        ensures
            r == self.flip,
    {
        self.flip
    }

    /// Installs a bitmap as the sprite's stencil, recording its handle; the
    /// bitmap stays with its owner, who keeps the release obligation.
    pub fn set_stencil(&mut self, stencil: &Bitmap)
        ensures
            (*final(self) == Sprite { stencil: stencil.id(), ..*old(self) }),
    {
        self.stencil = stencil.handle_value();
    }

    /// Sets the sprite's own clip rectangle.
    pub fn set_clip_rect(&mut self, clip_rect: ClipRect)
        ensures
            (*final(self) == Sprite { clip_rect: Some(clip_rect), ..*old(self) }),
    {
        self.clip_rect = Some(clip_rect);
    }

    /// Clears the sprite's own clip rectangle.
    pub fn clear_clip_rect(&mut self)
        ensures
            (*final(self) == Sprite { clip_rect: None, ..*old(self) }),
    {
        self.clip_rect = None;
    }

    /// Enables or disables the sprite's update routine.
    pub fn set_updates_enabled(&mut self, flag: bool)
        ensures
            (*final(self) == Sprite { updates_enabled: flag, ..*old(self) }),
    {
        self.updates_enabled = flag;
    }

    /// Whether the sprite's update routine runs.
    pub fn updates_enabled(&self) -> (r: bool)
        ensures
            r == self.updates_enabled,
    {
        self.updates_enabled
    }

    /// Shows or hides the sprite.
    pub fn set_visible(&mut self, flag: bool)
        ensures
            (*final(self) == Sprite { visible: flag, ..*old(self) }),
    {
        self.visible = flag;
    }

    /// Whether the sprite is drawn.
    pub fn is_visible(&self) -> (r: bool)
        ensures
            r == self.visible,
    {
        self.visible
    }

    /// Marks the sprite as fully opaque, or not.
    pub fn set_opaque(&mut self, flag: bool)
        ensures
            (*final(self) == Sprite { opaque: flag, ..*old(self) }),
    {
        self.opaque = flag;
    }

    /// Marks the sprite as needing a redraw this frame.
    pub fn mark_dirty(&mut self)
        ensures
            (*final(self) == Sprite { dirty: true, ..*old(self) }),
    {
        self.dirty = true;
    }

    /// Makes the sprite ignore the global draw offset, or not.
    pub fn set_ignores_draw_offset(&mut self, flag: bool)
        ensures
            (*final(self) == Sprite { ignores_draw_offset: flag, ..*old(self) }),
    {
        self.ignores_draw_offset = flag;
    }

    /// Installs or clears a custom update routine for the sprite.
    pub fn set_update_function(&mut self, installed: bool)
        ensures
            (*final(self) == Sprite { update_function_set: installed, ..*old(self) }),
    {
        self.update_function_set = installed;
    }

    /// Releases the sprite, consuming the wrapper: the device frees the
    /// handle — exactly once, since the wrapper is gone.
    pub fn release(self, dev: &mut Device)
        requires
            old(dev).wf(),
            self.valid(*old(dev)),
        ensures
            final(dev).wf(),
            resource_released(*old(dev), *final(dev), self.id()),
            (*final(dev) == Device {
                live: final(dev).live,
                free_calls: final(dev).free_calls,
                ..(*old(dev))
            }),
    {
        dev.free_resource(self.handle);
    }
}

} // verus!
