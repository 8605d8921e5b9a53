//! The simulated device: a deterministic model of the console firmware that
//! the subsystem tables dispatch into.
//!
//! Every wrapper in this library marshals its arguments and calls one of the
//! primitives below. The model makes the firmware's observable behaviour
//! explicit state — a handle arena with creation and free counters, a heap
//! served by a single realloc primitive, a flat filesystem, the console log,
//! and the input/clock/display registers — so that the lifecycle and error
//! contracts of the wrappers can be stated and proved, and so that tests can
//! observe exactly how often the device was asked to create or free a
//! resource.

use vstd::prelude::*;

use crate::cstr::c_payload;
use crate::cstr::is_c_form;
use vstd::math::min;

verus! {

broadcast use vstd::set::group_set_axioms;

/// How a file is opened through the file subsystem: reading an existing
/// file, writing a fresh one, or appending to what is already there.
#[derive(Clone, Copy, Debug, PartialEq, Eq, Structural)]
pub enum FileOptions {
    Read,
    Write,
    Append,
}

/// The record a `stat` call fills: whether the path names a directory, and
/// the file's size in bytes.
#[derive(Clone, Copy, Debug, PartialEq, Eq, Structural)]
pub struct FileStat {
    pub is_directory: bool,
    pub size: u32,
}

/// One entry of the simulated flat filesystem or of the bundled, read-only
/// asset store: a named file and its contents.
pub struct NamedFile {
    pub path: Vec<u8>,
    pub data: Vec<u8>,
}

/// The device-side state of one file opened through the file subsystem.
pub struct OpenFile {
    pub handle: u64,
    pub path: Vec<u8>,
    pub pos: usize,
    pub readable: bool,
    pub writable: bool,
    pub content: Vec<u8>,
}

/// A clip rectangle installed in the graphics subsystem.
#[derive(Clone, Copy, Debug, PartialEq, Eq, Structural)]
pub struct ClipRect {
    pub x: i32,
    pub y: i32,
    pub width: i32,
    pub height: i32,
}

/// True when the named entries carry pairwise distinct paths.
pub open spec fn paths_distinct(v: Seq<NamedFile>) -> bool {
    forall|i: int, j: int| 0 <= i < j < v.len() ==> v[i].path@ != v[j].path@
}

/// True when the open files carry pairwise distinct handles.
pub open spec fn open_handles_distinct(v: Seq<OpenFile>) -> bool {
    forall|i: int, j: int| 0 <= i < j < v.len() ==> v[i].handle != v[j].handle
}

/// The largest content length the device reports through its `i32` statuses.
pub open spec fn max_file_len() -> int {
    0x7fff_ffff
}

/// The simulated device.
pub struct Device {
    // Handle arena.
    pub next_handle: u64,
    pub live: Ghost<Set<u64>>,
    pub create_calls: u64,
    pub free_calls: u64,
    pub load_calls: u64,
    // Bundled, read-only assets that graphics and sound loads resolve against.
    pub assets: Vec<NamedFile>,
    // Flat filesystem.
    pub fs: Vec<NamedFile>,
    pub dirs: Vec<Vec<u8>>,
    pub open_files: Vec<OpenFile>,
    // Heap served by the realloc primitive.
    pub next_addr: u64,
    pub heap_free: u64,
    // Console output.
    pub log: Vec<Vec<u8>>,
    pub error_log: Vec<Vec<u8>>,
    // Clock and input registers.
    pub time_ms: u32,
    pub epoch_seconds: u32,
    pub epoch_ms: u32,
    pub crank_docked: bool,
    pub system_flipped: bool,
    pub buttons_current: u32,
    pub buttons_pushed: u32,
    pub buttons_released: u32,
    pub peripherals_mask: u32,
    pub update_callback_set: bool,
    pub options_callback_set: bool,
    // Graphics subsystem registers.
    pub draw_calls: u64,
    pub context_stack: Vec<u64>,
    pub draw_offset_x: i32,
    pub draw_offset_y: i32,
    pub clip_rect: Option<ClipRect>,
    pub background_color: u64,
    pub draw_mode: u8,
    pub line_cap: u8,
    pub text_tracking: i32,
    pub current_font: u64,
    pub stencil: u64,
    // Display subsystem registers.
    pub display_scale: u32,
    pub display_inverted: bool,
    pub display_mosaic_x: u32,
    pub display_mosaic_y: u32,
    pub display_flipped_x: i32,
    pub display_flipped_y: i32,
    pub display_offset_x: i32,
    pub display_offset_y: i32,
    pub refresh_rate: u32,
}

impl Device {
    /// Well-formedness of the device state. Creation hands out strictly
    /// increasing nonzero handles, so every live handle lies below
    /// `next_handle`; the number of creations equals the number of frees plus
    /// the number of currently live handles; file contents stay within the
    /// range the `i32` statuses can report.
    pub open spec fn wf(self) -> bool {
        &&& 1 <= self.next_handle
        &&& self.live@.finite()
        &&& (forall|h: u64| self.live@.contains(h) ==> 0 < h < self.next_handle)
        &&& self.create_calls == self.free_calls + self.live@.len()
        &&& self.create_calls < self.next_handle
        &&& 1 <= self.next_addr
        &&& self.next_addr + self.heap_free <= u64::MAX
        &&& paths_distinct(self.assets@)
        &&& paths_distinct(self.fs@)
        &&& (forall|a: int, b: int| 0 <= a < b < self.dirs@.len()
            ==> self.dirs@[a]@ != self.dirs@[b]@)
        &&& open_handles_distinct(self.open_files@)
        &&& (forall|i: int| 0 <= i < self.open_files@.len()
            ==> self.live@.contains((#[trigger] self.open_files@[i]).handle))
        &&& (forall|i: int| 0 <= i < self.open_files@.len()
            ==> (#[trigger] self.open_files@[i]).pos <= self.open_files@[i].content@.len())
        &&& (forall|i: int| 0 <= i < self.open_files@.len()
            ==> (#[trigger] self.open_files@[i]).content@.len() <= max_file_len())
        &&& (forall|i: int| 0 <= i < self.fs@.len()
            ==> (#[trigger] self.fs@[i]).data@.len() <= max_file_len())
        &&& (forall|i: int| 0 <= i < self.assets@.len()
            ==> (#[trigger] self.assets@[i]).data@.len() <= max_file_len())
    }

    /// True while the arena can still hand out a fresh handle.
    pub open spec fn can_create(self) -> bool {
        self.next_handle < u64::MAX
    }

    /// True when the asset store holds an entry named `path`.
    pub open spec fn has_asset(self, path: Seq<u8>) -> bool {
        exists|i: int| 0 <= i < self.assets@.len() && self.assets@[i].path@ == path
    }

    /// True when the flat filesystem holds a file named `path`.
    pub open spec fn has_file(self, path: Seq<u8>) -> bool {
        exists|i: int| 0 <= i < self.fs@.len() && self.fs@[i].path@ == path
    }

    /// The index of the filesystem entry named `path`.
    pub open spec fn file_idx(self, path: Seq<u8>) -> int {
        choose|i: int| 0 <= i < self.fs@.len() && self.fs@[i].path@ == path
    }

    /// True when the device holds a directory named `path`.
    pub open spec fn has_dir(self, path: Seq<u8>) -> bool {
        exists|i: int| 0 <= i < self.dirs@.len() && self.dirs@[i]@ == path
    }

    /// True when a file opened under handle `h` exists.
    pub open spec fn has_open(self, h: u64) -> bool {
        exists|i: int| 0 <= i < self.open_files@.len() && self.open_files@[i].handle == h
    }

    /// The index of the open file under handle `h`.
    pub open spec fn open_idx(self, h: u64) -> int {
        choose|i: int| 0 <= i < self.open_files@.len() && self.open_files@[i].handle == h
    }

    /// The open file under handle `h`.
    pub open spec fn open_file(self, h: u64) -> OpenFile {
        self.open_files@[self.open_idx(h)]
    }
}

/// Compares two byte strings for equality.
pub fn bytes_eq(a: &Vec<u8>, b: &Vec<u8>) -> (r: bool)
    ensures
        r <==> a@ == b@,
{
    if a.len() != b.len() {
        return false;
    }
    let n = a.len();
    let mut i: usize = 0;
    while i < n
        invariant
            n == a@.len(),
            n == b@.len(),
            0 <= i <= n,
            forall|k: int| 0 <= k < i ==> a@[k] == b@[k],
        decreases n - i,
    {
        if a[i] != b[i] {
            return false;
        }
        i = i + 1;
    }
    proof {
        assert(a@ =~= b@);
    }
    true
}

/// Strips the terminator from a C string image, yielding its payload.
pub fn c_payload_vec(c: &Vec<u8>) -> (r: Vec<u8>)
    requires
        c@.len() >= 1,
    ensures
        r@ == c_payload(c@),
{
    let n = c.len() - 1;
    let mut out: Vec<u8> = Vec::new();
    let mut i: usize = 0;
    while i < n
        invariant
            n == c@.len() - 1,
            0 <= i <= n,
            out@ == c@.take(i as int),
        decreases n - i,
    {
        out.push(c[i]);
        proof {
            assert(out@ =~= c@.take(i + 1 as int));
        }
        i = i + 1;
    }
    out
}

/// Looks up the index of the entry named `path` among named files.
pub fn find_named(v: &Vec<NamedFile>, path: &Vec<u8>) -> (r: Option<usize>)
    ensures
        match r {
            Some(i) => 0 <= i < v@.len() && v@[i as int].path@ == path@,
            None => forall|j: int| 0 <= j < v@.len() ==> v@[j].path@ != path@,
        },
{
    let n = v.len();
    let mut i: usize = 0;
    while i < n
        invariant
            n == v@.len(),
            0 <= i <= n,
            forall|k: int| 0 <= k < i ==> v@[k].path@ != path@,
        decreases n - i,
    {
        if bytes_eq(&v[i].path, path) {
            return Some(i);
        }
        i = i + 1;
    }
    None
}

/// Copies a byte string.
pub fn copy_bytes(v: &Vec<u8>) -> (r: Vec<u8>)
    ensures
        r@ == v@,
{
    let n = v.len();
    let mut out: Vec<u8> = Vec::new();
    let mut i: usize = 0;
    while i < n
        invariant
            n == v@.len(),
            0 <= i <= n,
            out@ == v@.take(i as int),
        decreases n - i,
    {
        out.push(v[i]);
        proof {
            assert(out@ =~= v@.take(i + 1 as int));
        }
        i = i + 1;
    }
    proof {
        assert(v@.take(n as int) =~= v@);
    }
    out
}

/// Looks up the index of `path` in a list of paths.
pub fn find_path(v: &Vec<Vec<u8>>, path: &Vec<u8>) -> (r: Option<usize>)
    ensures
        match r {
            Some(i) => 0 <= i < v@.len() && v@[i as int]@ == path@,
            None => forall|j: int| 0 <= j < v@.len() ==> v@[j]@ != path@,
        },
{
    let n = v.len();
    let mut i: usize = 0;
    while i < n
        invariant
            n == v@.len(),
            0 <= i <= n,
            forall|k: int| 0 <= k < i ==> v@[k]@ != path@,
        decreases n - i,
    {
        if bytes_eq(&v[i], path) {
            return Some(i);
        }
        i = i + 1;
    }
    None
}

/// The result of writing `data` into `content` at offset `pos`: the bytes
/// before `pos`, then `data`, then whatever of the old content lies beyond
/// the written range.
pub open spec fn spliced(content: Seq<u8>, pos: int, data: Seq<u8>) -> Seq<u8> {
    content.take(pos) + data + content.skip(min(pos + data.len(), content.len() as int))
}

/// Splices `data` into `content` at offset `pos`.
fn splice_bytes(content: &Vec<u8>, pos: usize, data: &Vec<u8>) -> (r: Vec<u8>)
    requires
        pos <= content@.len(),
        pos + data@.len() <= usize::MAX,
    ensures
        r@ == spliced(content@, pos as int, data@),
{
    let clen = content.len();
    let dlen = data.len();
    let mut out: Vec<u8> = Vec::new();
    let mut i: usize = 0;
    while i < pos
        invariant
            pos <= clen == content@.len(),
            0 <= i <= pos,
            out@ == content@.take(i as int),
        decreases pos - i,
    {
        out.push(content[i]);
        proof {
            assert(out@ =~= content@.take(i + 1 as int));
        }
        i = i + 1;
    }
    let mut j: usize = 0;
    while j < dlen
        invariant
            pos <= clen == content@.len(),
            dlen == data@.len(),
            0 <= j <= dlen,
            out@ == content@.take(pos as int) + data@.take(j as int),
        decreases dlen - j,
    {
        out.push(data[j]);
        proof {
            assert(out@ =~= content@.take(pos as int) + data@.take(j + 1 as int));
        }
        j = j + 1;
    }
    let mut k: usize = if pos + dlen < clen {
        pos + dlen
    } else {
        clen
    };
    proof {
        assert(data@.take(dlen as int) =~= data@);
        assert(out@ =~= content@.take(pos as int) + data@
            + content@.skip(min(pos + dlen, clen as int)).take(0));
    }
    while k < clen
        invariant
            pos <= clen == content@.len(),
            dlen == data@.len(),
            min(pos + dlen, clen as int) <= k <= clen,
            out@ == content@.take(pos as int) + data@
                + content@.skip(min(pos + dlen, clen as int)).take(
                    k - min(pos + dlen, clen as int)),
        decreases clen - k,
    {
        out.push(content[k]);
        proof {
            assert(out@ =~= content@.take(pos as int) + data@
                + content@.skip(min(pos + dlen, clen as int)).take(
                    k + 1 - min(pos + dlen, clen as int)));
        }
        k = k + 1;
    }
    proof {
        let cut = min(pos + dlen, clen as int);
        assert(content@.skip(cut).take(clen - cut) =~= content@.skip(cut));
    }
    out
}

/// With pairwise distinct open handles, any index holding handle `h` is the
/// index that `open_idx` denotes.
pub proof fn lemma_distinct_open_idx(d: Device, h: u64, i: int)
    requires
        open_handles_distinct(d.open_files@),
        0 <= i < d.open_files@.len(),
        d.open_files@[i].handle == h,
    ensures
        d.has_open(h),
        d.open_idx(h) == i,
{
    assert(d.has_open(h));
    let j = d.open_idx(h);
    assert(0 <= j < d.open_files@.len() && d.open_files@[j].handle == h);
    if i != j {
        if i < j {
            assert(d.open_files@[i].handle != d.open_files@[j].handle);
        } else {
            assert(d.open_files@[j].handle != d.open_files@[i].handle);
        }
    }
}

/// One creation step of the handle arena: the device handed out the fresh
/// handle `h` and counted one creation call.
pub open spec fn resource_created(pre: Device, post: Device, h: u64) -> bool {
    &&& h != 0
    &&& !pre.live@.contains(h)
    &&& post.live@ == pre.live@.insert(h)
    &&& post.create_calls == pre.create_calls + 1
    &&& post.free_calls == pre.free_calls
}

/// One release step of the handle arena: the live handle `h` was freed and
/// the device counted one free call.
pub open spec fn resource_released(pre: Device, post: Device, h: u64) -> bool {
    &&& pre.live@.contains(h)
    &&& post.live@ == pre.live@.remove(h)
    &&& post.free_calls == pre.free_calls + 1
    &&& post.create_calls == pre.create_calls
}

/// Law: creating a resource and then releasing it invokes the device free
/// call exactly once — the free counter ends exactly one above where it
/// started, and the handle is no longer live, so no further release of it is
/// possible.
pub proof fn lemma_create_then_release_frees_once(d0: Device, d1: Device, d2: Device, h: u64)
    requires
        resource_created(d0, d1, h),
        resource_released(d1, d2, h),
    ensures
        d2.free_calls == d0.free_calls + 1,
        d2.create_calls == d0.create_calls + 1,
        !d2.live@.contains(h),
{
}

impl Device {
    /// A fresh device: empty arena, empty filesystem and asset store, empty
    /// console, zeroed registers, and an unallocated heap of `heap_bytes`
    /// bytes (capped so that the address space suffices).
    pub fn new(heap_bytes: u64) -> (r: Device)
        requires
            heap_bytes < u64::MAX,
        ensures
            r.wf(),
            r.next_handle == 1,
            r.next_addr == 1,
            r.live@ == Set::<u64>::empty(),
            r.create_calls == 0,
            r.free_calls == 0,
            r.load_calls == 0,
            r.assets@.len() == 0,
            r.fs@.len() == 0,
            r.dirs@.len() == 0,
            r.open_files@.len() == 0,
            r.heap_free == heap_bytes,
            r.log@.len() == 0,
            r.error_log@.len() == 0,
            r.context_stack@.len() == 0,
            r.time_ms == 0,
            r.epoch_seconds == 0,
            r.epoch_ms == 0,
            !r.crank_docked,
            !r.system_flipped,
            r.buttons_current == 0 && r.buttons_pushed == 0 && r.buttons_released == 0,
            r.peripherals_mask == 0,
            !r.update_callback_set,
            !r.options_callback_set,
            r.draw_calls == 0,
            r.draw_offset_x == 0 && r.draw_offset_y == 0,
            r.clip_rect is None,
            r.background_color == 0,
            r.draw_mode == 0,
            r.line_cap == 0,
            r.text_tracking == 0,
            r.current_font == 0,
            r.stencil == 0,
            r.display_scale == 1,
            !r.display_inverted,
            r.display_mosaic_x == 0 && r.display_mosaic_y == 0,
            r.display_flipped_x == 0 && r.display_flipped_y == 0,
            r.display_offset_x == 0 && r.display_offset_y == 0,
            r.refresh_rate == 30,
    {
        Device {
            next_handle: 1,
            live: Ghost(Set::empty()),
            create_calls: 0,
            free_calls: 0,
            load_calls: 0,
            assets: Vec::new(),
            fs: Vec::new(),
            dirs: Vec::new(),
            open_files: Vec::new(),
            next_addr: 1,
            heap_free: heap_bytes,
            log: Vec::new(),
            error_log: Vec::new(),
            time_ms: 0,
            epoch_seconds: 0,
            epoch_ms: 0,
            crank_docked: false,
            system_flipped: false,
            buttons_current: 0,
            buttons_pushed: 0,
            buttons_released: 0,
            peripherals_mask: 0,
            update_callback_set: false,
            options_callback_set: false,
            draw_calls: 0,
            context_stack: Vec::new(),
            draw_offset_x: 0,
            draw_offset_y: 0,
            clip_rect: None,
            background_color: 0,
            draw_mode: 0,
            line_cap: 0,
            text_tracking: 0,
            current_font: 0,
            stencil: 0,
            display_scale: 1,
            display_inverted: false,
            display_mosaic_x: 0,
            display_mosaic_y: 0,
            display_flipped_x: 0,
            display_flipped_y: 0,
            display_offset_x: 0,
            display_offset_y: 0,
            refresh_rate: 30,
        }
    }

    /// Hands out a fresh, nonzero handle and records the creation call.
    pub fn create_resource(&mut self) -> (h: u64)
        requires
            old(self).wf(),
            old(self).can_create(),
        ensures
            final(self).wf(),
            resource_created(*old(self), *final(self), h),
            h == old(self).next_handle,
            final(self).next_handle == old(self).next_handle + 1,
            (*final(self) == Device {
                next_handle: final(self).next_handle,
                live: final(self).live,
                create_calls: final(self).create_calls,
                ..(*old(self))
            }),
    {
        let h = self.next_handle;
        self.next_handle = self.next_handle + 1;
        self.live = Ghost(self.live@.insert(h));
        self.create_calls = self.create_calls + 1;
        h
    }

    /// The realloc primitive that serves every dynamic memory request.
    /// A zero-size request frees the block (if any) and returns the null
    /// sentinel; a nonzero request carves a fresh, nonzero address out of the
    /// remaining heap, or returns the null sentinel when the heap is
    /// exhausted. The model never reclaims freed bytes.
    pub fn realloc(&mut self, addr: u64, size: u64) -> (r: u64)
        requires
            old(self).wf(),
        ensures
            final(self).wf(),
            size == 0 ==> r == 0 && *final(self) == *old(self),
            size > 0 && size <= old(self).heap_free ==> {
                &&& r == old(self).next_addr
                &&& r != 0
                &&& final(self).next_addr == old(self).next_addr + size
                &&& final(self).heap_free == old(self).heap_free - size
                &&& (*final(self) == Device {
                    next_addr: final(self).next_addr,
                    heap_free: final(self).heap_free,
                    ..(*old(self))
                })
            },
            size > old(self).heap_free ==> r == 0 && *final(self) == *old(self),
    {
        let _ = addr;
        if size == 0 {
            0
        } else if size <= self.heap_free {
            let r = self.next_addr;
            self.next_addr = self.next_addr + size;
            self.heap_free = self.heap_free - size;
            r
        } else {
            0
        }
    }

    /// Appends one line to the console log. The device accepts only a
    /// well-formed C string image.
    pub fn log_line(&mut self, c_text: Vec<u8>)
        requires
            old(self).wf(),
            is_c_form(c_text@),
        ensures
            final(self).wf(),
            final(self).log@ == old(self).log@.push(c_text),
            (*final(self) == Device { log: final(self).log, ..(*old(self)) }),
    {
        self.log.push(c_text);
    }

    /// Appends one line to the error log. The device accepts only a
    /// well-formed C string image.
    pub fn error_line(&mut self, c_text: Vec<u8>)
        requires
            old(self).wf(),
            is_c_form(c_text@),
        ensures
            final(self).wf(),
            final(self).error_log@ == old(self).error_log@.push(c_text),
            (*final(self) == Device { error_log: final(self).error_log, ..(*old(self)) }),
    {
        self.error_log.push(c_text);
    }

    /// Resolves a creation call that loads a bundled asset: when an asset
    /// named by the path exists, a fresh handle is created for it; otherwise
    /// the device answers with the null handle and no resource comes to life.
    /// Either way the load call is counted.
    pub fn load_resource(&mut self, c_path: &Vec<u8>) -> (h: u64)
        requires
            old(self).wf(),
            old(self).can_create(),
            old(self).load_calls < u64::MAX,
            is_c_form(c_path@),
        ensures
            final(self).wf(),
            final(self).load_calls == old(self).load_calls + 1,
            old(self).has_asset(c_payload(c_path@)) ==> {
                &&& resource_created(*old(self), *final(self), h)
                &&& h == old(self).next_handle
                &&& (*final(self) == Device {
                    next_handle: final(self).next_handle,
                    live: final(self).live,
                    create_calls: final(self).create_calls,
                    load_calls: final(self).load_calls,
                    ..(*old(self))
                })
            },
            !old(self).has_asset(c_payload(c_path@)) ==> {
                &&& h == 0
                &&& (*final(self) == Device {
                    load_calls: final(self).load_calls,
                    ..(*old(self))
                })
            },
    {
        self.load_calls = self.load_calls + 1;
        let stripped = c_payload_vec(c_path);
        let found = find_named(&self.assets, &stripped);
        match found {
            Some(_) => self.create_resource(),
            None => 0,
        }
    }

    /// The index of the asset entry named `path`.
    pub open spec fn asset_idx(self, path: Seq<u8>) -> int {
        choose|i: int| 0 <= i < self.assets@.len() && self.assets@[i].path@ == path
    }

    /// With pairwise distinct asset paths, any index holding `path` is the
    /// index that `asset_idx` denotes.
    pub proof fn lemma_asset_idx(self, path: Seq<u8>, i: int)
        requires
            paths_distinct(self.assets@),
            0 <= i < self.assets@.len(),
            self.assets@[i].path@ == path,
        ensures
            self.has_asset(path),
            self.asset_idx(path) == i,
    {
        assert(self.has_asset(path));
        let j = self.asset_idx(path);
        if i < j {
            assert(self.assets@[i].path@ != self.assets@[j].path@);
        } else if j < i {
            assert(self.assets@[j].path@ != self.assets@[i].path@);
        }
    }

    /// Answers whether an asset named by the path exists; the load call is
    /// counted, nothing else changes.
    pub fn probe_asset(&mut self, c_path: &Vec<u8>) -> (r: bool)
        requires
            old(self).wf(),
            old(self).load_calls < u64::MAX,
            is_c_form(c_path@),
        ensures
            final(self).wf(),
            r <==> old(self).has_asset(c_payload(c_path@)),
            final(self).load_calls == old(self).load_calls + 1,
            (*final(self) == Device { load_calls: final(self).load_calls, ..(*old(self)) }),
    {
        self.load_calls = self.load_calls + 1;
        let stripped = c_payload_vec(c_path);
        let found = find_named(&self.assets, &stripped);
        match found {
            Some(i) => {
                proof {
                    self.lemma_asset_idx(stripped@, i as int);
                }
                true
            },
            None => false,
        }
    }

    /// Answers whether an asset named by the path exists, and its size; the
    /// load call is counted, nothing else changes.
    pub fn probe_sized_asset(&mut self, c_path: &Vec<u8>) -> (r: (bool, u32))
        requires
            old(self).wf(),
            old(self).load_calls < u64::MAX,
            is_c_form(c_path@),
        ensures
            final(self).wf(),
            r.0 <==> old(self).has_asset(c_payload(c_path@)),
            r.0 ==> r.1
                == old(self).assets@[old(self).asset_idx(c_payload(c_path@))].data@.len() as u32,
            final(self).load_calls == old(self).load_calls + 1,
            (*final(self) == Device { load_calls: final(self).load_calls, ..(*old(self)) }),
    {
        self.load_calls = self.load_calls + 1;
        let stripped = c_payload_vec(c_path);
        let found = find_named(&self.assets, &stripped);
        match found {
            Some(i) => {
                proof {
                    self.lemma_asset_idx(stripped@, i as int);
                }
                (true, self.assets[i].data.len() as u32)
            },
            None => (false, 0),
        }
    }

    /// Resolves a creation call that loads a bundled asset and reports its
    /// size: as `load_resource`, with the asset's size beside the handle.
    pub fn load_sized_resource(&mut self, c_path: &Vec<u8>) -> (r: (u64, u32))
        requires
            old(self).wf(),
            old(self).can_create(),
            old(self).load_calls < u64::MAX,
            is_c_form(c_path@),
        ensures
            final(self).wf(),
            final(self).load_calls == old(self).load_calls + 1,
            old(self).has_asset(c_payload(c_path@)) ==> {
                &&& resource_created(*old(self), *final(self), r.0)
                &&& r.0 == old(self).next_handle
                &&& r.1 == old(self).assets@[old(self).asset_idx(
                    c_payload(c_path@),
                )].data@.len() as u32
                &&& (*final(self) == Device {
                    next_handle: final(self).next_handle,
                    live: final(self).live,
                    create_calls: final(self).create_calls,
                    load_calls: final(self).load_calls,
                    ..(*old(self))
                })
            },
            !old(self).has_asset(c_payload(c_path@)) ==> {
                &&& r.0 == 0
                &&& (*final(self) == Device {
                    load_calls: final(self).load_calls,
                    ..(*old(self))
                })
            },
    {
        self.load_calls = self.load_calls + 1;
        let stripped = c_payload_vec(c_path);
        let found = find_named(&self.assets, &stripped);
        match found {
            Some(i) => {
                proof {
                    self.lemma_asset_idx(stripped@, i as int);
                }
                let size = self.assets[i].data.len() as u32;
                let h = self.create_resource();
                (h, size)
            },
            None => (0, 0),
        }
    }

    /// Resolves a creation call that loads a bundled asset and hands its
    /// bytes over: as `load_resource`, with a copy of the asset's data.
    pub fn load_data_resource(&mut self, c_path: &Vec<u8>) -> (r: (u64, Vec<u8>))
        requires
            old(self).wf(),
            old(self).can_create(),
            old(self).load_calls < u64::MAX,
            is_c_form(c_path@),
        ensures
            final(self).wf(),
            final(self).load_calls == old(self).load_calls + 1,
            old(self).has_asset(c_payload(c_path@)) ==> {
                &&& resource_created(*old(self), *final(self), r.0)
                &&& r.0 == old(self).next_handle
                &&& r.1@ == old(self).assets@[old(self).asset_idx(c_payload(c_path@))].data@
                &&& (*final(self) == Device {
                    next_handle: final(self).next_handle,
                    live: final(self).live,
                    create_calls: final(self).create_calls,
                    load_calls: final(self).load_calls,
                    ..(*old(self))
                })
            },
            !old(self).has_asset(c_payload(c_path@)) ==> {
                &&& r.0 == 0
                &&& r.1@.len() == 0
                &&& (*final(self) == Device {
                    load_calls: final(self).load_calls,
                    ..(*old(self))
                })
            },
    {
        self.load_calls = self.load_calls + 1;
        let stripped = c_payload_vec(c_path);
        let found = find_named(&self.assets, &stripped);
        match found {
            Some(i) => {
                proof {
                    self.lemma_asset_idx(stripped@, i as int);
                }
                let data = copy_bytes(&self.assets[i].data);
                let h = self.create_resource();
                (h, data)
            },
            None => (0, Vec::new()),
        }
    }

    /// Answers whether an asset named by the path exists, handing its bytes
    /// over when it does; the load call is counted, nothing else changes.
    pub fn probe_asset_data(&mut self, c_path: &Vec<u8>) -> (r: (bool, Vec<u8>))
        requires
            old(self).wf(),
            old(self).load_calls < u64::MAX,
            is_c_form(c_path@),
        ensures
            final(self).wf(),
            r.0 <==> old(self).has_asset(c_payload(c_path@)),
            r.0 ==> r.1@ == old(self).assets@[old(self).asset_idx(c_payload(c_path@))].data@,
            final(self).load_calls == old(self).load_calls + 1,
            (*final(self) == Device { load_calls: final(self).load_calls, ..(*old(self)) }),
    {
        self.load_calls = self.load_calls + 1;
        let stripped = c_payload_vec(c_path);
        let found = find_named(&self.assets, &stripped);
        match found {
            Some(i) => {
                proof {
                    self.lemma_asset_idx(stripped@, i as int);
                }
                (true, copy_bytes(&self.assets[i].data))
            },
            None => (false, Vec::new()),
        }
    }

    /// Looks up the index of the open file under handle `h`.
    fn find_open(&self, h: u64) -> (r: Option<usize>)
        requires
            self.wf(),
        ensures
            match r {
                Some(i) => self.has_open(h) && i as int == self.open_idx(h)
                    && 0 <= i < self.open_files@.len()
                    && self.open_files@[i as int].handle == h,
                None => !self.has_open(h),
            },
    {
        let n = self.open_files.len();
        let mut i: usize = 0;
        while i < n
            invariant
                self.wf(),
                n == self.open_files@.len(),
                0 <= i <= n,
                forall|k: int| 0 <= k < i ==> self.open_files@[k].handle != h,
            decreases n - i,
        {
            if self.open_files[i].handle == h {
                proof {
                    lemma_distinct_open_idx(*self, h, i as int);
                }
                return Some(i);
            }
            i = i + 1;
        }
        None
    }

    /// Frees the live handle `h` and records the free call.
    pub fn free_resource(&mut self, h: u64)
        requires
            old(self).wf(),
            old(self).live@.contains(h),
            !old(self).has_open(h),
        ensures
            final(self).wf(),
            resource_released(*old(self), *final(self), h),
            (*final(self) == Device {
                live: final(self).live,
                free_calls: final(self).free_calls,
                ..(*old(self))
            }),
    {
        self.live = Ghost(self.live@.remove(h));
        self.free_calls = self.free_calls + 1;
    }

    /// Stocks the read-only asset store with a named asset, as the build
    /// process would. Refused when the name is taken or the data is larger
    /// than the device reports through its statuses.
    pub fn add_asset(&mut self, path: Vec<u8>, data: Vec<u8>) -> (r: bool)
        requires
            old(self).wf(),
        ensures
            final(self).wf(),
            r <==> (!old(self).has_asset(path@) && data@.len() <= max_file_len()),
            r ==> {
                &&& final(self).assets@ == old(self).assets@.push(final(self).assets@.last())
                &&& final(self).assets@.last().path@ == path@
                &&& final(self).assets@.last().data@ == data@
                &&& (*final(self) == Device { assets: final(self).assets, ..(*old(self)) })
            },
            !r ==> *final(self) == *old(self),
    {
        if data.len() > 0x7fff_ffff {
            return false;
        }
        let found = find_named(&self.assets, &path);
        match found {
            Some(_) => false,
            None => {
                self.assets.push(NamedFile { path, data });
                true
            },
        }
    }

    /// Places a named file into the flat filesystem, as a previous run of
    /// the program would have. Refused when the name is taken or the data is
    /// larger than the device reports through its statuses.
    pub fn add_file(&mut self, path: Vec<u8>, data: Vec<u8>) -> (r: bool)
        requires
            old(self).wf(),
        ensures
            final(self).wf(),
            r <==> (!old(self).has_file(path@) && data@.len() <= max_file_len()),
            r ==> {
                &&& final(self).fs@ == old(self).fs@.push(final(self).fs@.last())
                &&& final(self).fs@.last().path@ == path@
                &&& final(self).fs@.last().data@ == data@
                &&& (*final(self) == Device { fs: final(self).fs, ..(*old(self)) })
            },
            !r ==> *final(self) == *old(self),
    {
        if data.len() > 0x7fff_ffff {
            return false;
        }
        let found = find_named(&self.fs, &path);
        match found {
            Some(_) => false,
            None => {
                self.fs.push(NamedFile { path, data });
                true
            },
        }
    }

    /// Sets the sampled button registers.
    pub fn set_buttons(&mut self, current: u32, pushed: u32, released: u32)
        requires
            old(self).wf(),
        ensures
            final(self).wf(),
            (*final(self) == Device {
                buttons_current: current,
                buttons_pushed: pushed,
                buttons_released: released,
                ..(*old(self))
            }),
    {
        self.buttons_current = current;
        self.buttons_pushed = pushed;
        self.buttons_released = released;
    }

    /// Sets the millisecond clock.
    pub fn set_time_ms(&mut self, ms: u32)
        requires
            old(self).wf(),
        ensures
            final(self).wf(),
            (*final(self) == Device { time_ms: ms, ..(*old(self)) }),
    {
        self.time_ms = ms;
    }

    /// Sets the wall clock.
    pub fn set_epoch(&mut self, seconds: u32, ms: u32)
        requires
            old(self).wf(),
        ensures
            final(self).wf(),
            (*final(self) == Device {
                epoch_seconds: seconds,
                epoch_ms: ms,
                ..(*old(self))
            }),
    {
        self.epoch_seconds = seconds;
        self.epoch_ms = ms;
    }

    /// Docks or undocks the crank.
    pub fn set_crank_docked(&mut self, docked: bool)
        requires
            old(self).wf(),
        ensures
            final(self).wf(),
            (*final(self) == Device { crank_docked: docked, ..(*old(self)) }),
    {
        self.crank_docked = docked;
    }

    /// Flips or unflips the unit.
    pub fn set_system_flipped(&mut self, flipped: bool)
        requires
            old(self).wf(),
        ensures
            final(self).wf(),
            (*final(self) == Device { system_flipped: flipped, ..(*old(self)) }),
    {
        self.system_flipped = flipped;
    }

    /// The index of the directory entry named `path`.
    pub open spec fn dir_idx(self, path: Seq<u8>) -> int {
        choose|i: int| 0 <= i < self.dirs@.len() && self.dirs@[i]@ == path
    }

    /// Opens a file. Reading requires the file to exist — otherwise the
    /// device answers with the null handle — while writing truncates or
    /// creates, and appending keeps the existing contents and places the
    /// position at their end. A successful open creates a live handle that
    /// `file_close` must release.
    pub fn file_open(&mut self, c_path: &Vec<u8>, mode: FileOptions) -> (h: u64)
        requires
            old(self).wf(),
            is_c_form(c_path@),
            old(self).can_create(),
        ensures
            final(self).wf(),
            (mode is Read && !old(self).has_file(c_payload(c_path@)))
                ==> h == 0 && *final(self) == *old(self),
            (!(mode is Read) || old(self).has_file(c_payload(c_path@))) ==> {
                let p = c_payload(c_path@);
                &&& resource_created(*old(self), *final(self), h)
                &&& h == old(self).next_handle
                &&& final(self).next_handle == old(self).next_handle + 1
                &&& final(self).open_files@
                    == old(self).open_files@.push(final(self).open_files@.last())
                &&& {
                    let f = final(self).open_files@.last();
                    &&& f.handle == h
                    &&& f.path@ == p
                    &&& f.readable == (mode is Read)
                    &&& f.writable == !(mode is Read)
                    &&& f.content@ == (if old(self).has_file(p) && !(mode is Write) {
                        old(self).fs@[old(self).file_idx(p)].data@
                    } else {
                        Seq::<u8>::empty()
                    })
                    &&& f.pos as int == (if mode is Append {
                        f.content@.len() as int
                    } else {
                        0int
                    })
                }
                &&& (*final(self) == Device {
                    next_handle: final(self).next_handle,
                    live: final(self).live,
                    create_calls: final(self).create_calls,
                    open_files: final(self).open_files,
                    ..(*old(self))
                })
            },
    {
        let stripped = c_payload_vec(c_path);
        let found = find_named(&self.fs, &stripped);
        let is_read = match mode {
            FileOptions::Read => true,
            _ => false,
        };
        let keep_content = match mode {
            FileOptions::Write => false,
            _ => true,
        };
        let content: Vec<u8> = match found {
            Some(i) => {
                proof {
                    self.lemma_file_idx(stripped@, i as int);
                }
                if keep_content {
                    copy_bytes(&self.fs[i].data)
                } else {
                    Vec::new()
                }
            },
            None => {
                if is_read {
                    return 0;
                }
                Vec::new()
            },
        };
        let pos = match mode {
            FileOptions::Append => content.len(),
            _ => 0,
        };
        proof {
            let pre = *self;
            assert forall|i: int| 0 <= i < pre.open_files@.len()
                implies (#[trigger] pre.open_files@[i]).handle < pre.next_handle by {
                assert(pre.live@.contains(pre.open_files@[i].handle));
            }
        }
        let h = self.create_resource();
        self.open_files.push(OpenFile {
            handle: h,
            path: stripped,
            pos,
            readable: is_read,
            writable: !is_read,
            content,
        });
        h
    }

    /// With pairwise distinct paths, any filesystem index holding `path` is
    /// the index that `file_idx` denotes.
    pub proof fn lemma_file_idx(self, path: Seq<u8>, i: int)
        requires
            paths_distinct(self.fs@),
            0 <= i < self.fs@.len(),
            self.fs@[i].path@ == path,
        ensures
            self.has_file(path),
            self.file_idx(path) == i,
    {
        assert(self.has_file(path));
        let j = self.file_idx(path);
        if i < j {
            assert(self.fs@[i].path@ != self.fs@[j].path@);
        } else if j < i {
            assert(self.fs@[j].path@ != self.fs@[i].path@);
        }
    }

    /// Reads up to `n` bytes from the open file `h` at its current position,
    /// advancing the position; the status is the byte count, or negative when
    /// the handle is not open for reading.
    pub fn file_read(&mut self, h: u64, n: usize) -> (r: (i32, Vec<u8>))
        requires
            old(self).wf(),
        ensures
            final(self).wf(),
            !(old(self).has_open(h) && old(self).open_file(h).readable)
                ==> r.0 == -1 && r.1@.len() == 0 && *final(self) == *old(self),
            (old(self).has_open(h) && old(self).open_file(h).readable) ==> {
                let f = old(self).open_file(h);
                let k = min(n as int, f.content@.len() - f.pos);
                &&& r.0 == k
                &&& r.1@ == f.content@.subrange(f.pos as int, f.pos + k)
                &&& final(self).open_files@ == old(self).open_files@.update(
                    old(self).open_idx(h),
                    (OpenFile { pos: (f.pos + k) as usize, ..f }),
                )
                &&& (*final(self) == Device {
                    open_files: final(self).open_files,
                    ..(*old(self))
                })
            },
    {
        let found = self.find_open(h);
        match found {
            None => (-1, Vec::new()),
            Some(i) => {
                if !self.open_files[i].readable {
                    return (-1, Vec::new());
                }
                let f = self.open_files.remove(i);
                let len = f.content.len();
                let avail = len - f.pos;
                let k = if n < avail {
                    n
                } else {
                    avail
                };
                let mut out: Vec<u8> = Vec::new();
                let mut j: usize = 0;
                while j < k
                    invariant
                        f.pos + k <= len == f.content@.len(),
                        0 <= j <= k,
                        out@ == f.content@.subrange(f.pos as int, f.pos + j),
                    decreases k - j,
                {
                    out.push(f.content[f.pos + j]);
                    proof {
                        assert(out@ =~= f.content@.subrange(f.pos as int, f.pos + j + 1));
                    }
                    j = j + 1;
                }
                let f2 = OpenFile { pos: f.pos + k, ..f };
                self.open_files.insert(i, f2);
                proof {
                    assert(self.open_files@ =~= old(self).open_files@.update(
                        i as int,
                        (OpenFile { pos: (old(self).open_file(h).pos
                            + min(n as int, old(self).open_file(h).content@.len()
                                - old(self).open_file(h).pos)) as usize,
                            ..old(self).open_file(h) }),
                    ));
                }
                (k as i32, out)
            },
        }
    }

    /// Writes `data` into the open file `h` at its current position,
    /// advancing the position; the status is the byte count written, or
    /// negative when the handle is not open for writing or the file would
    /// outgrow what the device can report.
    pub fn file_write(&mut self, h: u64, data: &Vec<u8>) -> (r: i32)
        requires
            old(self).wf(),
        ensures
            final(self).wf(),
            !(old(self).has_open(h) && old(self).open_file(h).writable
                && old(self).open_file(h).pos + data@.len() <= max_file_len())
                ==> r == -1 && *final(self) == *old(self),
            (old(self).has_open(h) && old(self).open_file(h).writable
                && old(self).open_file(h).pos + data@.len() <= max_file_len()) ==> {
                let f = old(self).open_file(h);
                &&& r == data@.len()
                &&& final(self).open_files@ == old(self).open_files@.update(
                    old(self).open_idx(h),
                    (OpenFile {
                        pos: (f.pos + data@.len()) as usize,
                        content: final(self).open_files@[old(self).open_idx(h)].content,
                        ..f
                    }),
                )
                &&& final(self).open_files@[old(self).open_idx(h)].content@
                    == spliced(f.content@, f.pos as int, data@)
                &&& (*final(self) == Device {
                    open_files: final(self).open_files,
                    ..(*old(self))
                })
            },
    {
        let found = self.find_open(h);
        match found {
            None => -1,
            Some(i) => {
                if !self.open_files[i].writable {
                    return -1;
                }
                if data.len() > 0x7fff_ffff - self.open_files[i].pos {
                    return -1;
                }
                let f = self.open_files.remove(i);
                let content = splice_bytes(&f.content, f.pos, data);
                let new_pos = f.pos + data.len();
                let f2 = OpenFile { pos: new_pos, content, ..f };
                self.open_files.insert(i, f2);
                proof {
                    assert(self.open_files@ =~= old(self).open_files@.update(
                        i as int,
                        self.open_files@[i as int],
                    ));
                }
                data.len() as i32
            },
        }
    }

    /// Moves the position of the open file `h`: `whence` 0 counts from the
    /// start, 1 from the current position, 2 from the end. A target outside
    /// the file yields a negative status and leaves the position alone.
    pub fn file_seek(&mut self, h: u64, offset: i32, whence: i32) -> (r: i32)
        requires
            old(self).wf(),
        ensures
            final(self).wf(),
            !(old(self).has_open(h) && (whence == 0 || whence == 1 || whence == 2))
                ==> r == -1 && *final(self) == *old(self),
            (old(self).has_open(h) && (whence == 0 || whence == 1 || whence == 2)) ==> {
                let f = old(self).open_file(h);
                let base = if whence == 0 {
                    0int
                } else if whence == 1 {
                    f.pos as int
                } else {
                    f.content@.len() as int
                };
                let target = base + offset;
                &&& (0 <= target <= f.content@.len()) ==> {
                    &&& r == 0
                    &&& final(self).open_files@ == old(self).open_files@.update(
                        old(self).open_idx(h),
                        (OpenFile { pos: target as usize, ..f }),
                    )
                    &&& (*final(self) == Device {
                        open_files: final(self).open_files,
                        ..(*old(self))
                    })
                }
                &&& !(0 <= target <= f.content@.len()) ==> r == -1 && *final(self) == *old(self)
            },
    {
        if whence < 0 || whence > 2 {
            return -1;
        }
        let found = self.find_open(h);
        match found {
            None => -1,
            Some(i) => {
                let f_pos = self.open_files[i].pos;
                let f_len = self.open_files[i].content.len();
                let base: i64 = if whence == 0 {
                    0
                } else if whence == 1 {
                    f_pos as i64
                } else {
                    f_len as i64
                };
                let target: i64 = base + offset as i64;
                if target < 0 || target > f_len as i64 {
                    return -1;
                }
                let f = self.open_files.remove(i);
                let f2 = OpenFile { pos: target as usize, ..f };
                self.open_files.insert(i, f2);
                proof {
                    assert(self.open_files@ =~= old(self).open_files@.update(
                        i as int,
                        self.open_files@[i as int],
                    ));
                }
                0
            },
        }
    }

    /// Reports the position of the open file `h`, or a negative status when
    /// the handle is not open.
    pub fn file_tell(&self, h: u64) -> (r: i32)
        requires
            self.wf(),
        ensures
            self.has_open(h) ==> r == self.open_file(h).pos,
            !self.has_open(h) ==> r == -1,
    {
        let found = self.find_open(h);
        match found {
            None => -1,
            Some(i) => self.open_files[i].pos as i32,
        }
    }

    /// Flushes the open file `h`; the model buffers nothing, so the call only
    /// validates the handle.
    pub fn file_flush(&self, h: u64) -> (r: i32)
        requires
            self.wf(),
        ensures
            self.has_open(h) ==> r == 0,
            !self.has_open(h) ==> r == -1,
    {
        let found = self.find_open(h);
        match found {
            None => -1,
            Some(_) => 0,
        }
    }

    /// Closes the open file `h`, writing its contents back to the filesystem
    /// when it was open for writing, and frees the handle — the release step
    /// of the file's lifecycle.
    pub fn file_close(&mut self, h: u64) -> (r: i32)
        requires
            old(self).wf(),
        ensures
            final(self).wf(),
            !old(self).has_open(h) ==> r == -1 && *final(self) == *old(self),
            old(self).has_open(h) ==> {
                let f = old(self).open_file(h);
                &&& r == 0
                &&& resource_released(*old(self), *final(self), h)
                &&& final(self).open_files@
                    == old(self).open_files@.remove(old(self).open_idx(h))
                &&& final(self).fs@ == (if !f.writable {
                    old(self).fs@
                } else if old(self).has_file(f.path@) {
                    old(self).fs@.update(
                        old(self).file_idx(f.path@),
                        (NamedFile { data: f.content, ..old(self).fs@[old(self).file_idx(f.path@)] }),
                    )
                } else {
                    old(self).fs@.push(NamedFile { path: f.path, data: f.content })
                })
                &&& (*final(self) == Device {
                    live: final(self).live,
                    free_calls: final(self).free_calls,
                    open_files: final(self).open_files,
                    fs: final(self).fs,
                    ..(*old(self))
                })
            },
    {
        let found = self.find_open(h);
        match found {
            None => -1,
            Some(i) => {
                let f = self.open_files.remove(i);
                if f.writable {
                    let found_fs = find_named(&self.fs, &f.path);
                    match found_fs {
                        Some(j) => {
                            proof {
                                old(self).lemma_file_idx(f.path@, j as int);
                            }
                            let e = self.fs.remove(j);
                            self.fs.insert(j, NamedFile { path: e.path, data: f.content });
                            proof {
                                assert(self.fs@ =~= old(self).fs@.update(
                                    j as int,
                                    self.fs@[j as int],
                                ));
                            }
                        },
                        None => {
                            self.fs.push(NamedFile { path: f.path, data: f.content });
                        },
                    }
                } else {
                    let _ = f;
                }
                self.free_resource(h);
                0
            },
        }
    }

    /// Answers a `stat` call: a file reports its size, a directory reports
    /// itself as one, and an unknown path yields a negative status.
    pub fn fs_stat(&self, c_path: &Vec<u8>) -> (r: (i32, FileStat))
        requires
            self.wf(),
            is_c_form(c_path@),
        ensures
            self.has_file(c_payload(c_path@)) ==> r.0 == 0
                && r.1 == (FileStat {
                    is_directory: false,
                    size: self.fs@[self.file_idx(c_payload(c_path@))].data@.len() as u32,
                }),
            !self.has_file(c_payload(c_path@)) && self.has_dir(c_payload(c_path@))
                ==> r.0 == 0 && r.1 == (FileStat { is_directory: true, size: 0u32 }),
            !self.has_file(c_payload(c_path@)) && !self.has_dir(c_payload(c_path@))
                ==> r.0 == -1,
    {
        let stripped = c_payload_vec(c_path);
        let found = find_named(&self.fs, &stripped);
        match found {
            Some(i) => {
                proof {
                    self.lemma_file_idx(stripped@, i as int);
                }
                (0, FileStat { is_directory: false, size: self.fs[i].data.len() as u32 })
            },
            None => {
                let found_dir = find_path(&self.dirs, &stripped);
                match found_dir {
                    Some(_) => (0, FileStat { is_directory: true, size: 0 }),
                    None => (-1, FileStat { is_directory: false, size: 0 }),
                }
            },
        }
    }

    /// Creates a directory; an existing one yields a negative status.
    pub fn fs_mkdir(&mut self, c_path: &Vec<u8>) -> (r: i32)
        requires
            old(self).wf(),
            is_c_form(c_path@),
        ensures
            final(self).wf(),
            old(self).has_dir(c_payload(c_path@)) ==> r == -1 && *final(self) == *old(self),
            !old(self).has_dir(c_payload(c_path@)) ==> {
                &&& r == 0
                &&& final(self).dirs@ == old(self).dirs@.push(final(self).dirs@.last())
                &&& final(self).dirs@.last()@ == c_payload(c_path@)
                &&& (*final(self) == Device { dirs: final(self).dirs, ..(*old(self)) })
            },
    {
        let stripped = c_payload_vec(c_path);
        let found = find_path(&self.dirs, &stripped);
        match found {
            Some(_) => -1,
            None => {
                self.dirs.push(stripped);
                0
            },
        }
    }

    /// Removes a file, or — when asked to recurse — a directory; an unknown
    /// path or a directory without recursion yields a negative status.
    pub fn fs_unlink(&mut self, c_path: &Vec<u8>, recursive: bool) -> (r: i32)
        requires
            old(self).wf(),
            is_c_form(c_path@),
        ensures
            final(self).wf(),
            old(self).has_file(c_payload(c_path@)) ==> {
                &&& r == 0
                &&& final(self).fs@
                    == old(self).fs@.remove(old(self).file_idx(c_payload(c_path@)))
                &&& (*final(self) == Device { fs: final(self).fs, ..(*old(self)) })
            },
            (!old(self).has_file(c_payload(c_path@)) && old(self).has_dir(c_payload(c_path@))
                && recursive) ==> {
                &&& r == 0
                &&& final(self).dirs@
                    == old(self).dirs@.remove(old(self).dir_idx(c_payload(c_path@)))
                &&& (*final(self) == Device { dirs: final(self).dirs, ..(*old(self)) })
            },
            (!old(self).has_file(c_payload(c_path@))
                && !(old(self).has_dir(c_payload(c_path@)) && recursive))
                ==> r == -1 && *final(self) == *old(self),
    {
        let stripped = c_payload_vec(c_path);
        let found = find_named(&self.fs, &stripped);
        match found {
            Some(i) => {
                proof {
                    self.lemma_file_idx(stripped@, i as int);
                }
                let _ = self.fs.remove(i);
                0
            },
            None => {
                let found_dir = find_path(&self.dirs, &stripped);
                match found_dir {
                    Some(j) => {
                        if recursive {
                            proof {
                                self.lemma_dir_idx(stripped@, j as int);
                            }
                            let _ = self.dirs.remove(j);
                            0
                        } else {
                            -1
                        }
                    },
                    None => -1,
                }
            },
        }
    }

    /// With pairwise distinct directory paths, any index holding `path` is
    /// the index that `dir_idx` denotes.
    pub proof fn lemma_dir_idx(self, path: Seq<u8>, i: int)
        requires
            0 <= i < self.dirs@.len(),
            self.dirs@[i]@ == path,
            forall|a: int, b: int| 0 <= a < b < self.dirs@.len()
                ==> self.dirs@[a]@ != self.dirs@[b]@,
        ensures
            self.has_dir(path),
            self.dir_idx(path) == i,
    {
        assert(self.has_dir(path));
        let j = self.dir_idx(path);
        if i < j {
            assert(self.dirs@[i]@ != self.dirs@[j]@);
        } else if j < i {
            assert(self.dirs@[j]@ != self.dirs@[i]@);
        }
    }

    /// Renames a file; the source must exist and the target must not.
    pub fn fs_rename(&mut self, from_c: &Vec<u8>, to_c: &Vec<u8>) -> (r: i32)
        requires
            old(self).wf(),
            is_c_form(from_c@),
            is_c_form(to_c@),
        ensures
            final(self).wf(),
            (old(self).has_file(c_payload(from_c@)) && !old(self).has_file(c_payload(to_c@)))
                ==> {
                let idx = old(self).file_idx(c_payload(from_c@));
                &&& r == 0
                &&& final(self).fs@ == old(self).fs@.update(idx, final(self).fs@[idx])
                &&& final(self).fs@[idx].path@ == c_payload(to_c@)
                &&& final(self).fs@[idx].data == old(self).fs@[idx].data
                &&& (*final(self) == Device { fs: final(self).fs, ..(*old(self)) })
            },
            !(old(self).has_file(c_payload(from_c@)) && !old(self).has_file(c_payload(to_c@)))
                ==> r == -1 && *final(self) == *old(self),
    {
        let from_p = c_payload_vec(from_c);
        let to_p = c_payload_vec(to_c);
        let found_to = find_named(&self.fs, &to_p);
        match found_to {
            Some(_) => -1,
            None => {
                let found = find_named(&self.fs, &from_p);
                match found {
                    None => -1,
                    Some(i) => {
                        proof {
                            self.lemma_file_idx(from_p@, i as int);
                        }
                        let e = self.fs.remove(i);
                        self.fs.insert(i, NamedFile { path: to_p, data: e.data });
                        proof {
                            assert(self.fs@ =~= old(self).fs@.update(
                                i as int,
                                self.fs@[i as int],
                            ));
                        }
                        0
                    },
                }
            },
        }
    }
}

} // verus!
