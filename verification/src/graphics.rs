//! The graphics subsystem: a shared view of the graphics entry table, the
//! owning wrappers for bitmaps, bitmap tables and fonts, and the drawing
//! state registers.
//!
//! Bitmaps and bitmap tables own one created resource each and are released
//! exactly once through `release`; fonts are loaded once and live for the
//! process, so the font wrapper is a freely copyable view. What the
//! rasterizer paints is outside the model; the device records how many
//! drawing calls reached it.

use vstd::prelude::*;

use crate::cstr::has_nul;
use crate::cstr::lemma_c_string_form;
use crate::cstr::to_c_string;
use crate::device::resource_created;
use crate::device::resource_released;
use crate::device::ClipRect;
use crate::device::Device;
use crate::error::PdError;
use crate::error::ResourceKind;

verus! {

/// The number of pixel columns of the LCD.
pub const COLUMNS: u32 = 400;

/// The number of pixel rows of the LCD.
pub const ROWS: u32 = 240;

/// The number of bytes of one packed frame-buffer row.
pub const ROWSIZE: u32 = 52;

/// A solid drawing color.
#[derive(Clone, Copy, Debug, PartialEq, Eq, Structural)]
pub enum SolidColor {
    Black,
    White,
    Clear,
    XOR,
}

/// What a drawing call paints with: a solid color, or an eight-by-eight
/// pattern named by its table address.
#[derive(Clone, Copy, Debug, PartialEq, Eq, Structural)]
pub enum Color {
    Solid(SolidColor),
    Pattern(u64),
}

/// The numeric form of a color, as the device receives it: solid colors map
/// to their small codes, a pattern to its table address.
pub open spec fn color_code_spec(c: Color) -> u64 {
    match c {
        Color::Solid(SolidColor::Black) => 0u64,
        Color::Solid(SolidColor::White) => 1u64,
        Color::Solid(SolidColor::Clear) => 2u64,
        Color::Solid(SolidColor::XOR) => 3u64,
        Color::Pattern(p) => p,
    }
}

impl Color {
    /// The numeric form of this color, as the device receives it.
    pub fn code(&self) -> (r: u64)
        ensures
            r == color_code_spec(*self),
    {
        match *self {
            Color::Solid(SolidColor::Black) => 0,
            Color::Solid(SolidColor::White) => 1,
            Color::Solid(SolidColor::Clear) => 2,
            Color::Solid(SolidColor::XOR) => 3,
            Color::Pattern(p) => p,
        }
    }
}

/// How a bitmap is flipped when drawn.
#[derive(Clone, Copy, Debug, PartialEq, Eq, Structural)]
pub enum BitmapFlip {
    Unflipped,
    FlippedX,
    FlippedY,
    FlippedXY,
}

/// How drawn pixels combine with what is already there.
#[derive(Clone, Copy, Debug, PartialEq, Eq, Structural)]
pub enum BitmapDrawMode {
    Normal,
    WhiteTransparent,
    BlackTransparent,
    FillWhite,
    FillBlack,
    XOR,
    NXOR,
    Inverted,
}

/// The numeric register form of a draw mode.
pub open spec fn draw_mode_code_spec(m: BitmapDrawMode) -> u8 {
    match m {
        BitmapDrawMode::Normal => 0u8,
        BitmapDrawMode::WhiteTransparent => 1u8,
        BitmapDrawMode::BlackTransparent => 2u8,
        BitmapDrawMode::FillWhite => 3u8,
        BitmapDrawMode::FillBlack => 4u8,
        BitmapDrawMode::XOR => 5u8,
        BitmapDrawMode::NXOR => 6u8,
        BitmapDrawMode::Inverted => 7u8,
    }
}

/// How line ends are capped.
#[derive(Clone, Copy, Debug, PartialEq, Eq, Structural)]
pub enum LineCapStyle {
    Butt,
    Square,
    Round,
}

/// The numeric register form of a line cap style.
pub open spec fn line_cap_code_spec(s: LineCapStyle) -> u8 {
    match s {
        LineCapStyle::Butt => 0u8,
        LineCapStyle::Square => 1u8,
        LineCapStyle::Round => 2u8,
    }
}

/// A loaded font: a freely copyable view of a resource that lives for the
/// process and is never released.
#[derive(Clone, Copy)]
pub struct Font {
    handle: u64,
}

impl Font {
    /// The native handle of the loaded font.
    pub closed spec fn id(self) -> u64 {
        self.handle
    }

    /// The font is valid against a device while its handle is live there.
    pub open spec fn valid(self, dev: Device) -> bool {
        dev.live@.contains(self.id())
    }

    /// Loads a font from a bundled asset. A path holding a null byte is
    /// rejected with `Encoding` before the device is called; a missing asset
    /// is answered by the device with the null handle and reported as a
    /// creation failure, with no resource coming to life.
    pub fn load(dev: &mut Device, path: &Vec<u8>) -> (r: Result<Font, PdError>)
        requires
            old(dev).wf(),
            old(dev).can_create(),
            old(dev).load_calls < u64::MAX,
        ensures
            final(dev).wf(),
            has_nul(path@) ==> r == Err::<Font, PdError>(PdError::Encoding)
                && *final(dev) == *old(dev),
            (!has_nul(path@) && !old(dev).has_asset(path@)) ==> {
                &&& r == Err::<Font, PdError>(PdError::ResourceCreation {
                    kind: ResourceKind::Font,
                })
                &&& (*final(dev) == Device {
                    load_calls: final(dev).load_calls,
                    ..(*old(dev))
                })
                &&& final(dev).load_calls == old(dev).load_calls + 1
            },
            (!has_nul(path@) && old(dev).has_asset(path@)) ==> {
                &&& r is Ok
                &&& resource_created(*old(dev), *final(dev), r->Ok_0.id())
                &&& r->Ok_0.valid(*final(dev))
                &&& final(dev).load_calls == old(dev).load_calls + 1
                &&& (*final(dev) == Device {
                    next_handle: final(dev).next_handle,
                    live: final(dev).live,
                    create_calls: final(dev).create_calls,
                    load_calls: final(dev).load_calls,
                    ..(*old(dev))
                })
            },
    {
        let converted = to_c_string(path);
        match converted {
            Err(e) => Err(e),
            Ok(c) => {
                proof {
                    lemma_c_string_form(c@, path@);
                }
                let h = dev.load_resource(&c);
                if h == 0 {
                    Err(PdError::ResourceCreation { kind: ResourceKind::Font })
                } else {
                    Ok(Font { handle: h })
                }
            },
        }
    }
}

/// The owning wrapper of one created bitmap: exactly one wrapper per
/// handle, released exactly once by `release`.
pub struct Bitmap {
    handle: u64,
}

impl Bitmap {
    /// The native handle this wrapper owns.
    pub closed spec fn id(self) -> u64 {
        self.handle
    }

    /// The wrapper is valid against a device while its handle is live there
    /// and is no open file's.
    pub open spec fn valid(self, dev: Device) -> bool {
        &&& dev.live@.contains(self.id())
        &&& !dev.has_open(self.id())
    }

    /// The native handle, for recording in other structures; the wrapper
    /// keeps the ownership and the release obligation.
    pub fn handle_value(&self) -> (r: u64)
        ensures
            r == self.id(),
    {
        self.handle
    }

    /// Creates a blank bitmap of the given size and background color. The
    /// simulated device always has room for one more bitmap, so creation
    /// succeeds.
    pub fn new(dev: &mut Device, width: u32, height: u32, bgcolor: &Color) -> (r: Result<
        Bitmap,
        PdError,
    >)
        requires
            old(dev).wf(),
            old(dev).can_create(),
        ensures
            final(dev).wf(),
            r is Ok,
            resource_created(*old(dev), *final(dev), r->Ok_0.id()),
            r->Ok_0.valid(*final(dev)),
            (*final(dev) == Device {
                next_handle: final(dev).next_handle,
                live: final(dev).live,
                create_calls: final(dev).create_calls,
                ..(*old(dev))
            }),
    {
        let _ = width;
        let _ = height;
        let _ = bgcolor.code();
        let h = dev.create_resource();
        proof {
            lemma_fresh_handle_not_open(*old(dev), *dev, h);
        }
        Ok(Bitmap { handle: h })
    }

    /// Loads a bitmap from a bundled asset. A path holding a null byte is
    /// rejected with `Encoding` before the device is called; a missing asset
    /// is answered by the device with the null handle and reported as a
    /// creation failure, with no resource coming to life and nothing to
    /// release afterwards.
    pub fn load(dev: &mut Device, path: &Vec<u8>) -> (r: Result<Bitmap, PdError>)
        requires
            old(dev).wf(),
            old(dev).can_create(),
            old(dev).load_calls < u64::MAX,
        ensures
            final(dev).wf(),
            has_nul(path@) ==> r == Err::<Bitmap, PdError>(PdError::Encoding)
                && *final(dev) == *old(dev),
            (!has_nul(path@) && !old(dev).has_asset(path@)) ==> {
                &&& r == Err::<Bitmap, PdError>(PdError::ResourceCreation {
                    kind: ResourceKind::Bitmap,
                })
                &&& (*final(dev) == Device {
                    load_calls: final(dev).load_calls,
                    ..(*old(dev))
                })
                &&& final(dev).load_calls == old(dev).load_calls + 1
                &&& final(dev).free_calls == old(dev).free_calls
                &&& final(dev).create_calls == old(dev).create_calls
            },
            (!has_nul(path@) && old(dev).has_asset(path@)) ==> {
                &&& r is Ok
                &&& resource_created(*old(dev), *final(dev), r->Ok_0.id())
                &&& r->Ok_0.valid(*final(dev))
                &&& final(dev).load_calls == old(dev).load_calls + 1
                &&& (*final(dev) == Device {
                    next_handle: final(dev).next_handle,
                    live: final(dev).live,
                    create_calls: final(dev).create_calls,
                    load_calls: final(dev).load_calls,
                    ..(*old(dev))
                })
            },
    {
        let converted = to_c_string(path);
        match converted {
            Err(e) => Err(e),
            Ok(c) => {
                proof {
                    lemma_c_string_form(c@, path@);
                }
                let h = dev.load_resource(&c);
                if h == 0 {
                    Err(PdError::ResourceCreation { kind: ResourceKind::Bitmap })
                } else {
                    proof {
                        lemma_fresh_handle_not_open(*old(dev), *dev, h);
                    }
                    Ok(Bitmap { handle: h })
                }
            },
        }
    }

    /// Copies a bitmap into a fresh one the caller owns.
    pub fn copy(dev: &mut Device, source: &Bitmap) -> (r: Result<Bitmap, PdError>)
        requires
            old(dev).wf(),
            old(dev).can_create(),
            source.valid(*old(dev)),
        ensures
            final(dev).wf(),
            r is Ok,
            resource_created(*old(dev), *final(dev), r->Ok_0.id()),
            r->Ok_0.valid(*final(dev)),
            source.valid(*final(dev)),
            (*final(dev) == Device {
                next_handle: final(dev).next_handle,
                live: final(dev).live,
                create_calls: final(dev).create_calls,
                ..(*old(dev))
            }),
    {
        let _ = source;
        let h = dev.create_resource();
        proof {
            lemma_fresh_handle_not_open(*old(dev), *dev, h);
        }
        Ok(Bitmap { handle: h })
    }

    /// Reloads this bitmap's pixels from a bundled asset, keeping the
    /// handle. A path holding a null byte is rejected with `Encoding`
    /// before the device is called; a missing asset is a creation-class
    /// failure and leaves the bitmap as it was. No new resource comes to
    /// life either way.
    pub fn load_into(&self, dev: &mut Device, path: &Vec<u8>) -> (r: Result<(), PdError>)
        requires
            old(dev).wf(),
            self.valid(*old(dev)),
            old(dev).load_calls < u64::MAX,
        ensures
            final(dev).wf(),
            self.valid(*final(dev)),
            has_nul(path@) ==> r == Err::<(), PdError>(PdError::Encoding)
                && *final(dev) == *old(dev),
            (!has_nul(path@) && !old(dev).has_asset(path@))
                ==> r == Err::<(), PdError>(PdError::ResourceCreation {
                    kind: ResourceKind::Bitmap,
                }),
            (!has_nul(path@) && old(dev).has_asset(path@)) ==> r == Ok::<(), PdError>(()),
            !has_nul(path@) ==> {
                &&& (*final(dev) == Device {
                    load_calls: final(dev).load_calls,
                    ..(*old(dev))
                })
                &&& final(dev).load_calls == old(dev).load_calls + 1
            },
    {
        let converted = to_c_string(path);
        match converted {
            Err(e) => Err(e),
            Ok(c) => {
                proof {
                    lemma_c_string_form(c@, path@);
                }
                let present = dev.probe_asset(&c);
                if present {
                    Ok(())
                } else {
                    Err(PdError::ResourceCreation { kind: ResourceKind::Bitmap })
                }
            },
        }
    }

    /// Clears this bitmap to a background color: one drawing call reaches
    /// the device.
    pub fn clear(&self, dev: &mut Device, bgcolor: &Color)
        requires
            old(dev).wf(),
            self.valid(*old(dev)),
            old(dev).draw_calls < u64::MAX,
        ensures
            final(dev).wf(),
            self.valid(*final(dev)),
            (*final(dev) == Device {
                draw_calls: (old(dev).draw_calls + 1) as u64,
                ..(*old(dev))
            }),
    {
        let _ = bgcolor.code();
        dev.draw_calls = dev.draw_calls + 1;
    }

    /// Draws this bitmap at a position: one drawing call reaches the
    /// device.
    pub fn draw(&self, dev: &mut Device, x: i32, y: i32, flip: BitmapFlip)
        requires
            old(dev).wf(),
            self.valid(*old(dev)),
            old(dev).draw_calls < u64::MAX,
        ensures
            final(dev).wf(),
            self.valid(*final(dev)),
            (*final(dev) == Device {
                draw_calls: (old(dev).draw_calls + 1) as u64,
                ..(*old(dev))
            }),
    {
        let _ = x;
        let _ = y;
        let _ = flip;
        dev.draw_calls = dev.draw_calls + 1;
    }

    /// Tiles this bitmap over a rectangle: one drawing call reaches the
    /// device.
    pub fn tile(&self, dev: &mut Device, x: i32, y: i32, width: i32, height: i32, flip:
        BitmapFlip)
        requires
            old(dev).wf(),
            self.valid(*old(dev)),
            old(dev).draw_calls < u64::MAX,
        ensures
            final(dev).wf(),
            self.valid(*final(dev)),
            (*final(dev) == Device {
                draw_calls: (old(dev).draw_calls + 1) as u64,
                ..(*old(dev))
            }),
    {
        let _ = (x, y, width, height);
        let _ = flip;
        dev.draw_calls = dev.draw_calls + 1;
    }

    /// Releases the bitmap, consuming the wrapper: the device frees the
    /// handle — exactly once, since the wrapper is gone.
    pub fn release(self, dev: &mut Device)
        requires
            old(dev).wf(),
            self.valid(*old(dev)),
        ensures
            final(dev).wf(),
            resource_released(*old(dev), *final(dev), self.id()),
            (*final(dev) == Device {
                live: final(dev).live,
                free_calls: final(dev).free_calls,
                ..(*old(dev))
            }),
    {
        dev.free_resource(self.handle);
    }
}

/// A handle just created is no open file's handle: open handles predate it.
pub proof fn lemma_fresh_handle_not_open(pre: Device, post: Device, h: u64)
    requires
        pre.wf(),
        post.open_files@ == pre.open_files@,
        resource_created(pre, post, h),
        h == pre.next_handle,
    ensures
        !post.has_open(h),
{
    if post.has_open(h) {
        let i = post.open_idx(h);
        assert(pre.live@.contains(pre.open_files@[i].handle));
    }
}

/// The owning wrapper of one created bitmap table: exactly one wrapper per
/// handle, released exactly once by `release`. The table's frame count is
/// what `get_bitmap` admits.
pub struct BitmapTable {
    handle: u64,
    count: u32,
}

impl BitmapTable {
    /// The native handle this wrapper owns.
    pub closed spec fn id(self) -> u64 {
        self.handle
    }

    /// The number of frames the table holds.
    pub closed spec fn count_spec(self) -> u32 {
        self.count
    }

    /// The wrapper is valid against a device while its handle is live there
    /// and is no open file's.
    pub open spec fn valid(self, dev: Device) -> bool {
        &&& dev.live@.contains(self.id())
        &&& !dev.has_open(self.id())
    }

    /// Creates an empty bitmap table with room for `count` frames.
    pub fn new(dev: &mut Device, count: u32, width: u32, height: u32) -> (r: Result<
        BitmapTable,
        PdError,
    >)
        requires
            old(dev).wf(),
            old(dev).can_create(),
        ensures
            final(dev).wf(),
            r is Ok,
            resource_created(*old(dev), *final(dev), r->Ok_0.id()),
            r->Ok_0.valid(*final(dev)),
            r->Ok_0.count_spec() == count,
            (*final(dev) == Device {
                next_handle: final(dev).next_handle,
                live: final(dev).live,
                create_calls: final(dev).create_calls,
                ..(*old(dev))
            }),
    {
        let _ = (width, height);
        let h = dev.create_resource();
        proof {
            lemma_fresh_handle_not_open(*old(dev), *dev, h);
        }
        Ok(BitmapTable { handle: h, count })
    }

    /// Loads a bitmap table from a bundled asset; the simulated device
    /// derives the frame count from the asset's size. A path holding a null
    /// byte is rejected with `Encoding` before the device is called; a
    /// missing asset is reported as a creation failure, with no resource
    /// coming to life.
    pub fn load(dev: &mut Device, path: &Vec<u8>) -> (r: Result<BitmapTable, PdError>)
        requires
            old(dev).wf(),
            old(dev).can_create(),
            old(dev).load_calls < u64::MAX,
        ensures
            final(dev).wf(),
            has_nul(path@) ==> r == Err::<BitmapTable, PdError>(PdError::Encoding)
                && *final(dev) == *old(dev),
            (!has_nul(path@) && !old(dev).has_asset(path@)) ==> {
                &&& r == Err::<BitmapTable, PdError>(PdError::ResourceCreation {
                    kind: ResourceKind::BitmapTable,
                })
                &&& (*final(dev) == Device {
                    load_calls: final(dev).load_calls,
                    ..(*old(dev))
                })
                &&& final(dev).load_calls == old(dev).load_calls + 1
            },
            (!has_nul(path@) && old(dev).has_asset(path@)) ==> {
                &&& r is Ok
                &&& resource_created(*old(dev), *final(dev), r->Ok_0.id())
                &&& r->Ok_0.valid(*final(dev))
                &&& r->Ok_0.count_spec()
                    == old(dev).assets@[old(dev).asset_idx(path@)].data@.len() as u32
                &&& final(dev).load_calls == old(dev).load_calls + 1
                &&& (*final(dev) == Device {
                    next_handle: final(dev).next_handle,
                    live: final(dev).live,
                    create_calls: final(dev).create_calls,
                    load_calls: final(dev).load_calls,
                    ..(*old(dev))
                })
            },
    {
        let converted = to_c_string(path);
        match converted {
            Err(e) => Err(e),
            Ok(c) => {
                proof {
                    lemma_c_string_form(c@, path@);
                }
                let (h, count) = dev.load_sized_resource(&c);
                if h == 0 {
                    Err(PdError::ResourceCreation { kind: ResourceKind::BitmapTable })
                } else {
                    proof {
                        lemma_fresh_handle_not_open(*old(dev), *dev, h);
                    }
                    Ok(BitmapTable { handle: h, count })
                }
            },
        }
    }

    /// Reloads this table from a bundled asset, keeping the handle; the
    /// frame count follows the asset. A path holding a null byte is
    /// rejected with `Encoding` before the device is called; a missing
    /// asset is a creation-class failure and leaves the table as it was.
    pub fn load_into(&mut self, dev: &mut Device, path: &Vec<u8>) -> (r: Result<(), PdError>)
        requires
            old(dev).wf(),
            old(self).valid(*old(dev)),
            old(dev).load_calls < u64::MAX,
        ensures
            final(dev).wf(),
            final(self).valid(*final(dev)),
            final(self).id() == old(self).id(),
            has_nul(path@) ==> r == Err::<(), PdError>(PdError::Encoding)
                && *final(dev) == *old(dev) && *final(self) == *old(self),
            (!has_nul(path@) && !old(dev).has_asset(path@)) ==> {
                &&& r == Err::<(), PdError>(PdError::ResourceCreation {
                    kind: ResourceKind::BitmapTable,
                })
                &&& *final(self) == *old(self)
            },
            (!has_nul(path@) && old(dev).has_asset(path@)) ==> {
                &&& r == Ok::<(), PdError>(())
                &&& final(self).count_spec()
                    == old(dev).assets@[old(dev).asset_idx(path@)].data@.len() as u32
            },
            !has_nul(path@) ==> {
                &&& (*final(dev) == Device {
                    load_calls: final(dev).load_calls,
                    ..(*old(dev))
                })
                &&& final(dev).load_calls == old(dev).load_calls + 1
            },
    {
        let converted = to_c_string(path);
        match converted {
            Err(e) => Err(e),
            Ok(c) => {
                proof {
                    lemma_c_string_form(c@, path@);
                }
                let (present, size) = dev.probe_sized_asset(&c);
                if present {
                    self.count = size;
                    Ok(())
                } else {
                    Err(PdError::ResourceCreation { kind: ResourceKind::BitmapTable })
                }
            },
        }
    }

    /// Takes the bitmap at an index out of the table as a fresh, owned
    /// bitmap; an index beyond the table's frames is answered by the device
    /// with the null handle and reported as a creation failure.
    pub fn get_bitmap(&self, dev: &mut Device, idx: usize) -> (r: Result<Bitmap, PdError>)
        requires
            old(dev).wf(),
            old(dev).can_create(),
            self.valid(*old(dev)),
        ensures
            final(dev).wf(),
            self.valid(*final(dev)),
            idx >= self.count_spec() ==> r == Err::<Bitmap, PdError>(PdError::ResourceCreation {
                kind: ResourceKind::Bitmap,
            }) && *final(dev) == *old(dev),
            idx < self.count_spec() ==> {
                &&& r is Ok
                &&& resource_created(*old(dev), *final(dev), r->Ok_0.id())
                &&& r->Ok_0.valid(*final(dev))
                &&& (*final(dev) == Device {
                    next_handle: final(dev).next_handle,
                    live: final(dev).live,
                    create_calls: final(dev).create_calls,
                    ..(*old(dev))
                })
            },
    {
        if idx >= self.count as usize {
            return Err(PdError::ResourceCreation { kind: ResourceKind::Bitmap });
        }
        let h = dev.create_resource();
        proof {
            lemma_fresh_handle_not_open(*old(dev), *dev, h);
        }
        Ok(Bitmap { handle: h })
    }

    /// Releases the bitmap table, consuming the wrapper: the device frees
    /// the handle — exactly once, since the wrapper is gone.
    pub fn release(self, dev: &mut Device)
        requires
            old(dev).wf(),
            self.valid(*old(dev)),
        ensures
            final(dev).wf(),
            resource_released(*old(dev), *final(dev), self.id()),
            (*final(dev) == Device {
                live: final(dev).live,
                free_calls: final(dev).free_calls,
                ..(*old(dev))
            }),
    {
        dev.free_resource(self.handle);
    }
}

/// A shared view of the graphics subsystem's entry table. Views are freely
/// copyable and own no releasable resource.
#[derive(Clone, Copy)]
pub struct Graphics {
    entry: u64,
}

impl Graphics {
    /// The entry address this view dispatches through.
    pub closed spec fn addr(self) -> u64 {
        self.entry
    }

    /// Wraps the graphics entry address handed over at initialization.
    pub fn new(entry: u64) -> (r: Graphics)
        ensures
            r.addr() == entry,
    {
        Graphics { entry }
    }

    /// Clears the frame to a color: one drawing call reaches the device.
    pub fn clear(&self, dev: &mut Device, color: &Color)
        requires
            old(dev).wf(),
            old(dev).draw_calls < u64::MAX,
        ensures
            final(dev).wf(),
            (*final(dev) == Device {
                draw_calls: (old(dev).draw_calls + 1) as u64,
                ..(*old(dev))
            }),
    {
        let _ = color.code();
        dev.draw_calls = dev.draw_calls + 1;
    }

    /// Sets the background color register.
    pub fn set_background_color(&self, dev: &mut Device, color: SolidColor)
        requires
            old(dev).wf(),
        ensures
            final(dev).wf(),
            (*final(dev) == Device {
                background_color: color_code_spec(Color::Solid(color)),
                ..(*old(dev))
            }),
    {
        let code = Color::Solid(color).code();
        dev.background_color = code;
    }

    /// Presents the frame: one drawing call reaches the device.
    pub fn display(&self, dev: &mut Device)
        requires
            old(dev).wf(),
            old(dev).draw_calls < u64::MAX,
        ensures
            final(dev).wf(),
            (*final(dev) == Device {
                draw_calls: (old(dev).draw_calls + 1) as u64,
                ..(*old(dev))
            }),
    {
        dev.draw_calls = dev.draw_calls + 1;
    }

    /// Sets the drawing offset registers.
    pub fn set_draw_offset(&self, dev: &mut Device, dx: i32, dy: i32)
        requires
            old(dev).wf(),
        ensures
            final(dev).wf(),
            (*final(dev) == Device { draw_offset_x: dx, draw_offset_y: dy, ..(*old(dev)) }),
    {
        dev.draw_offset_x = dx;
        dev.draw_offset_y = dy;
    }

    /// Pushes a bitmap onto the context stack: drawing goes to it until the
    /// matching pop.
    pub fn push_context(&self, dev: &mut Device, target: &Bitmap)
        requires
            old(dev).wf(),
            target.valid(*old(dev)),
        ensures
            final(dev).wf(),
            target.valid(*final(dev)),
            final(dev).context_stack@ == old(dev).context_stack@.push(target.id()),
            (*final(dev) == Device {
                context_stack: final(dev).context_stack,
                ..(*old(dev))
            }),
    {
        dev.context_stack.push(target.handle);
    }

    /// Pops the context stack; an empty stack stays empty, drawing goes to
    /// the frame again.
    pub fn pop_context(&self, dev: &mut Device)
        requires
            old(dev).wf(),
        ensures
            final(dev).wf(),
            old(dev).context_stack@.len() > 0 ==> final(dev).context_stack@
                == old(dev).context_stack@.drop_last(),
            old(dev).context_stack@.len() == 0 ==> final(dev).context_stack@
                == old(dev).context_stack@,
            (*final(dev) == Device {
                context_stack: final(dev).context_stack,
                ..(*old(dev))
            }),
    {
        if self.context_depth(dev) > 0 {
            let _ = dev.context_stack.pop();
        }
    }

    /// The depth of the context stack.
    pub fn context_depth(&self, dev: &Device) -> (r: usize)
        ensures
            r == dev.context_stack@.len(),
    {
        dev.context_stack.len()
    }

    /// Sets the stencil register to a bitmap.
    pub fn set_stencil(&self, dev: &mut Device, stencil: &Bitmap)
        requires
            old(dev).wf(),
            stencil.valid(*old(dev)),
        ensures
            final(dev).wf(),
            stencil.valid(*final(dev)),
            (*final(dev) == Device { stencil: stencil.id(), ..(*old(dev)) }),
    {
        dev.stencil = stencil.handle;
    }

    /// Sets the draw mode register.
    pub fn set_draw_mode(&self, dev: &mut Device, mode: BitmapDrawMode)
        requires
            old(dev).wf(),
        ensures
            final(dev).wf(),
            (*final(dev) == Device { draw_mode: draw_mode_code_spec(mode), ..(*old(dev)) }),
    {
        let code: u8 = match mode {
            BitmapDrawMode::Normal => 0,
            BitmapDrawMode::WhiteTransparent => 1,
            BitmapDrawMode::BlackTransparent => 2,
            BitmapDrawMode::FillWhite => 3,
            BitmapDrawMode::FillBlack => 4,
            BitmapDrawMode::XOR => 5,
            BitmapDrawMode::NXOR => 6,
            BitmapDrawMode::Inverted => 7,
        };
        dev.draw_mode = code;
    }

    /// Sets the clip rectangle register.
    pub fn set_clip_rect(&self, dev: &mut Device, x: i32, y: i32, width: i32, height: i32)
        requires
            old(dev).wf(),
        ensures
            final(dev).wf(),
            (*final(dev) == Device {
                clip_rect: Some(ClipRect { x, y, width, height }),
                ..(*old(dev))
            }),
    {
        dev.clip_rect = Some(ClipRect { x, y, width, height });
    }

    /// Clears the clip rectangle register.
    pub fn clear_clip_rect(&self, dev: &mut Device)
        requires
            old(dev).wf(),
        ensures
            final(dev).wf(),
            (*final(dev) == Device { clip_rect: None, ..(*old(dev)) }),
    {
        dev.clip_rect = None;
    }

    /// Sets the line cap style register.
    pub fn set_line_cap_style(&self, dev: &mut Device, end_cap_style: LineCapStyle)
        requires
            old(dev).wf(),
        ensures
            final(dev).wf(),
            (*final(dev) == Device {
                line_cap: line_cap_code_spec(end_cap_style),
                ..(*old(dev))
            }),
    {
        let code: u8 = match end_cap_style {
            LineCapStyle::Butt => 0,
            LineCapStyle::Square => 1,
            LineCapStyle::Round => 2,
        };
        dev.line_cap = code;
    }

    /// Installs a loaded font as the current font.
    pub fn set_font(&self, dev: &mut Device, font: Font)
        requires
            old(dev).wf(),
            font.valid(*old(dev)),
        ensures
            final(dev).wf(),
            (*final(dev) == Device { current_font: font.id(), ..(*old(dev)) }),
    {
        dev.current_font = font.handle;
    }

    /// Sets the text tracking register.
    pub fn set_text_tracking(&self, dev: &mut Device, tracking: i32)
        requires
            old(dev).wf(),
        ensures
            final(dev).wf(),
            (*final(dev) == Device { text_tracking: tracking, ..(*old(dev)) }),
    {
        dev.text_tracking = tracking;
    }

    /// Draws a line: one drawing call reaches the device.
    pub fn draw_line(&self, dev: &mut Device, x1: i32, y1: i32, x2: i32, y2: i32, width: i32,
        color: &Color)
        requires
            old(dev).wf(),
            old(dev).draw_calls < u64::MAX,
        ensures
            final(dev).wf(),
            (*final(dev) == Device {
                draw_calls: (old(dev).draw_calls + 1) as u64,
                ..(*old(dev))
            }),
    {
        let _ = (x1, y1, x2, y2, width);
        let _ = color.code();
        dev.draw_calls = dev.draw_calls + 1;
    }

    /// Fills a triangle: one drawing call reaches the device.
    pub fn fill_triangle(&self, dev: &mut Device, x1: i32, y1: i32, x2: i32, y2: i32, x3: i32,
        y3: i32, color: &Color)
        requires
            old(dev).wf(),
            old(dev).draw_calls < u64::MAX,
        ensures
            final(dev).wf(),
            (*final(dev) == Device {
                draw_calls: (old(dev).draw_calls + 1) as u64,
                ..(*old(dev))
            }),
    {
        let _ = (x1, y1, x2, y2, x3, y3);
        let _ = color.code();
        dev.draw_calls = dev.draw_calls + 1;
    }

    /// Draws a rectangle outline: one drawing call reaches the device.
    pub fn draw_rect(&self, dev: &mut Device, x: i32, y: i32, width: i32, height: i32, color:
        &Color)
        requires
            old(dev).wf(),
            old(dev).draw_calls < u64::MAX,
        ensures
            final(dev).wf(),
            (*final(dev) == Device {
                draw_calls: (old(dev).draw_calls + 1) as u64,
                ..(*old(dev))
            }),
    {
        let _ = (x, y, width, height);
        let _ = color.code();
        dev.draw_calls = dev.draw_calls + 1;
    }

    /// Fills a rectangle: one drawing call reaches the device.
    pub fn fill_rect(&self, dev: &mut Device, x: i32, y: i32, width: i32, height: i32, color:
        &Color)
        requires
            old(dev).wf(),
            old(dev).draw_calls < u64::MAX,
        ensures
            final(dev).wf(),
            (*final(dev) == Device {
                draw_calls: (old(dev).draw_calls + 1) as u64,
                ..(*old(dev))
            }),
    {
        let _ = (x, y, width, height);
        let _ = color.code();
        dev.draw_calls = dev.draw_calls + 1;
    }

    /// Draws text at a position and reports its width — in the model, one
    /// pixel per byte. Text holding a null byte is rejected with `Encoding`
    /// before the device is called.
    pub fn draw_text(&self, dev: &mut Device, text: &Vec<u8>, x: i32, y: i32) -> (r: Result<
        i32,
        PdError,
    >)
        requires
            old(dev).wf(),
            old(dev).draw_calls < u64::MAX,
            text@.len() <= 0x7fff_ffff,
        ensures
            final(dev).wf(),
            has_nul(text@) ==> r == Err::<i32, PdError>(PdError::Encoding)
                && *final(dev) == *old(dev),
            !has_nul(text@) ==> {
                &&& r == Ok::<i32, PdError>(text@.len() as i32)
                &&& (*final(dev) == Device {
                    draw_calls: (old(dev).draw_calls + 1) as u64,
                    ..(*old(dev))
                })
            },
    {
        let _ = (x, y);
        let converted = to_c_string(text);
        match converted {
            Err(e) => Err(e),
            Ok(_) => {
                dev.draw_calls = dev.draw_calls + 1;
                Ok(text.len() as i32)
            },
        }
    }
}

} // verus!
