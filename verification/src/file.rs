//! The file subsystem: a shared view of the file entry table, and the
//! owning wrapper for one open file.
//!
//! Every path is converted to a C string before it reaches the device; a
//! path holding a null byte is rejected with `Encoding` and the device is
//! not called. Every device status is mapped through [`status_to_result`]:
//! a negative code becomes an `Io` error carrying that code and is never
//! handed back as a byte count.

use vstd::prelude::*;

use crate::cstr::has_nul;
use crate::cstr::lemma_c_string_form;
use crate::cstr::to_c_string;
use crate::device::lemma_distinct_open_idx;
use crate::device::resource_created;
use crate::device::resource_released;
use crate::device::spliced;
use crate::device::Device;
use crate::device::NamedFile;
use crate::device::OpenFile;
use crate::error::PdError;
use crate::error::ResourceKind;
use vstd::math::min;

pub use crate::device::FileOptions;
pub use crate::device::FileStat;

verus! {

/// Where a seek counts from.
#[derive(Clone, Copy, Debug, PartialEq, Eq, Structural)]
pub enum Whence {
    Start,
    Cur,
    End,
}

/// Maps a device status code: a negative code is an I/O error carrying that
/// code, never a byte count; a nonnegative code is handed back unchanged.
pub fn status_to_result(code: i32) -> (r: Result<i32, PdError>)
    ensures
        code < 0 ==> r == Err::<i32, PdError>(PdError::Io { code }),
        code >= 0 ==> r == Ok::<i32, PdError>(code),
{
    if code < 0 {
        Err(PdError::Io { code })
    } else {
        Ok(code)
    }
}

/// A shared view of the file subsystem's entry table. Views are freely
/// copyable and own no releasable resource.
#[derive(Clone, Copy)]
pub struct Filesystem {
    entry: u64,
}

/// The owning wrapper of one open file: exactly one wrapper per handle,
/// released exactly once by `close`.
pub struct File {
    handle: u64,
}

impl File {
    /// The native handle this wrapper owns.
    pub closed spec fn id(self) -> u64 {
        self.handle
    }

    /// The wrapper is valid against a device when its handle is open there.
    pub open spec fn valid(self, dev: Device) -> bool {
        dev.has_open(self.id())
    }
}

impl Filesystem {
    /// The entry address this view dispatches through.
    pub closed spec fn addr(self) -> u64 {
        self.entry
    }

    /// Wraps the file entry address handed over at initialization.
    pub fn new(entry: u64) -> (r: Filesystem)
        ensures
            r.addr() == entry,
    {
        Filesystem { entry }
    }

    /// Opens a file. A path holding a null byte is rejected with `Encoding`
    /// before the device is called. Opening a missing file for reading is
    /// answered by the device with the null handle and reported as a
    /// creation failure; otherwise the returned wrapper owns the fresh
    /// handle, whose open state starts as the mode demands.
    pub fn open(&self, dev: &mut Device, path: &Vec<u8>, mode: FileOptions) -> (r: Result<
        File,
        PdError,
    >)
        requires
            old(dev).wf(),
            old(dev).can_create(),
        ensures
            final(dev).wf(),
            has_nul(path@) ==> r == Err::<File, PdError>(PdError::Encoding)
                && *final(dev) == *old(dev),
            (!has_nul(path@) && mode is Read && !old(dev).has_file(path@))
                ==> r == Err::<File, PdError>(PdError::ResourceCreation {
                    kind: ResourceKind::File,
                }) && *final(dev) == *old(dev),
            (!has_nul(path@) && (!(mode is Read) || old(dev).has_file(path@))) ==> {
                &&& r is Ok
                &&& {
                    let f = r->Ok_0;
                    let of = final(dev).open_file(f.id());
                    &&& f.valid(*final(dev))
                    &&& resource_created(*old(dev), *final(dev), f.id())
                    &&& final(dev).open_files@ == old(dev).open_files@.push(of)
                    &&& of.handle == f.id()
                    &&& of.path@ == path@
                    &&& of.readable == (mode is Read)
                    &&& of.writable == !(mode is Read)
                    &&& of.content@ == (if old(dev).has_file(path@) && !(mode is Write) {
                        old(dev).fs@[old(dev).file_idx(path@)].data@
                    } else {
                        Seq::<u8>::empty()
                    })
                    &&& of.pos as int == (if mode is Append {
                        of.content@.len() as int
                    } else {
                        0int
                    })
                }
                &&& (*final(dev) == Device {
                    next_handle: final(dev).next_handle,
                    live: final(dev).live,
                    create_calls: final(dev).create_calls,
                    open_files: final(dev).open_files,
                    ..(*old(dev))
                })
            },
    {
        let converted = to_c_string(path);
        match converted {
            Err(e) => Err(e),
            Ok(c) => {
                proof {
                    lemma_c_string_form(c@, path@);
                }
                let h = dev.file_open(&c, mode);
                if h == 0 {
                    Err(PdError::ResourceCreation { kind: ResourceKind::File })
                } else {
                    proof {
                        lemma_distinct_open_idx(
                            *dev,
                            h,
                            dev.open_files@.len() - 1,
                        );
                    }
                    Ok(File { handle: h })
                }
            },
        }
    }

    /// Reports a file's size or a directory's nature; a path holding a null
    /// byte is rejected with `Encoding` before the device is called, and an
    /// unknown path is an I/O error.
    pub fn stat(&self, dev: &Device, path: &Vec<u8>) -> (r: Result<FileStat, PdError>)
        requires
            dev.wf(),
        ensures
            has_nul(path@) ==> r == Err::<FileStat, PdError>(PdError::Encoding),
            !has_nul(path@) && dev.has_file(path@) ==> r == Ok::<FileStat, PdError>(FileStat {
                is_directory: false,
                size: dev.fs@[dev.file_idx(path@)].data@.len() as u32,
            }),
            (!has_nul(path@) && !dev.has_file(path@) && dev.has_dir(path@))
                ==> r == Ok::<FileStat, PdError>(FileStat { is_directory: true, size: 0u32 }),
            (!has_nul(path@) && !dev.has_file(path@) && !dev.has_dir(path@))
                ==> r == Err::<FileStat, PdError>(PdError::Io { code: -1i32 }),
    {
        let converted = to_c_string(path);
        match converted {
            Err(e) => Err(e),
            Ok(c) => {
                proof {
                    lemma_c_string_form(c@, path@);
                }
                let (code, st) = dev.fs_stat(&c);
                if code < 0 {
                    Err(PdError::Io { code })
                } else {
                    Ok(st)
                }
            },
        }
    }

    /// Creates a directory; a path holding a null byte is rejected with
    /// `Encoding` before the device is called, and an already existing
    /// directory is an I/O error.
    pub fn mkdir(&self, dev: &mut Device, path: &Vec<u8>) -> (r: Result<(), PdError>)
        requires
            old(dev).wf(),
        ensures
            final(dev).wf(),
            has_nul(path@) ==> r == Err::<(), PdError>(PdError::Encoding)
                && *final(dev) == *old(dev),
            !has_nul(path@) && old(dev).has_dir(path@)
                ==> r == Err::<(), PdError>(PdError::Io { code: -1i32 })
                && *final(dev) == *old(dev),
            !has_nul(path@) && !old(dev).has_dir(path@) ==> {
                &&& r == Ok::<(), PdError>(())
                &&& final(dev).dirs@ == old(dev).dirs@.push(final(dev).dirs@.last())
                &&& final(dev).dirs@.last()@ == path@
                &&& (*final(dev) == Device { dirs: final(dev).dirs, ..(*old(dev)) })
            },
    {
        let converted = to_c_string(path);
        match converted {
            Err(e) => Err(e),
            Ok(c) => {
                proof {
                    lemma_c_string_form(c@, path@);
                }
                let code = dev.fs_mkdir(&c);
                match status_to_result(code) {
                    Err(e) => Err(e),
                    Ok(_) => Ok(()),
                }
            },
        }
    }

    /// Removes a file — or, recursively, a directory; a name holding a null
    /// byte is rejected with `Encoding` before the device is called, and an
    /// unknown name is an I/O error.
    pub fn unlink(&self, dev: &mut Device, name: &Vec<u8>, recursive: bool) -> (r: Result<
        (),
        PdError,
    >)
        requires
            old(dev).wf(),
        ensures
            final(dev).wf(),
            has_nul(name@) ==> r == Err::<(), PdError>(PdError::Encoding)
                && *final(dev) == *old(dev),
            !has_nul(name@) && old(dev).has_file(name@) ==> {
                &&& r == Ok::<(), PdError>(())
                &&& final(dev).fs@ == old(dev).fs@.remove(old(dev).file_idx(name@))
                &&& (*final(dev) == Device { fs: final(dev).fs, ..(*old(dev)) })
            },
            (!has_nul(name@) && !old(dev).has_file(name@) && old(dev).has_dir(name@)
                && recursive) ==> {
                &&& r == Ok::<(), PdError>(())
                &&& final(dev).dirs@ == old(dev).dirs@.remove(old(dev).dir_idx(name@))
                &&& (*final(dev) == Device { dirs: final(dev).dirs, ..(*old(dev)) })
            },
            (!has_nul(name@) && !old(dev).has_file(name@)
                && !(old(dev).has_dir(name@) && recursive))
                ==> r == Err::<(), PdError>(PdError::Io { code: -1i32 })
                && *final(dev) == *old(dev),
    {
        let converted = to_c_string(name);
        match converted {
            Err(e) => Err(e),
            Ok(c) => {
                proof {
                    lemma_c_string_form(c@, name@);
                }
                let code = dev.fs_unlink(&c, recursive);
                match status_to_result(code) {
                    Err(e) => Err(e),
                    Ok(_) => Ok(()),
                }
            },
        }
    }

    /// Renames a file; either name holding a null byte is rejected with
    /// `Encoding` before the device is called. The source must exist and the
    /// target must not, else the device answers with an I/O error.
    pub fn rename(&self, dev: &mut Device, from: &Vec<u8>, to: &Vec<u8>) -> (r: Result<
        (),
        PdError,
    >)
        requires
            old(dev).wf(),
        ensures
            final(dev).wf(),
            (has_nul(from@) || has_nul(to@)) ==> r == Err::<(), PdError>(PdError::Encoding)
                && *final(dev) == *old(dev),
            (!has_nul(from@) && !has_nul(to@) && old(dev).has_file(from@)
                && !old(dev).has_file(to@)) ==> {
                let idx = old(dev).file_idx(from@);
                &&& r == Ok::<(), PdError>(())
                &&& final(dev).fs@ == old(dev).fs@.update(idx, final(dev).fs@[idx])
                &&& final(dev).fs@[idx].path@ == to@
                &&& final(dev).fs@[idx].data == old(dev).fs@[idx].data
                &&& (*final(dev) == Device { fs: final(dev).fs, ..(*old(dev)) })
            },
            (!has_nul(from@) && !has_nul(to@)
                && !(old(dev).has_file(from@) && !old(dev).has_file(to@)))
                ==> r == Err::<(), PdError>(PdError::Io { code: -1i32 })
                && *final(dev) == *old(dev),
    {
        let from_converted = to_c_string(from);
        match from_converted {
            Err(e) => Err(e),
            Ok(from_c) => {
                let to_converted = to_c_string(to);
                match to_converted {
                    Err(e) => Err(e),
                    Ok(to_c) => {
                        proof {
                            lemma_c_string_form(from_c@, from@);
                            lemma_c_string_form(to_c@, to@);
                        }
                        let code = dev.fs_rename(&from_c, &to_c);
                        match status_to_result(code) {
                            Err(e) => Err(e),
                            Ok(_) => Ok(()),
                        }
                    },
                }
            },
        }
    }
}

impl File {
    /// Reads up to `n` bytes at the current position and hands back exactly
    /// what the device produced, advancing the position. A file not open for
    /// reading is answered with a negative status, which surfaces as an `Io`
    /// error — never as a byte count.
    pub fn read(&self, dev: &mut Device, n: usize) -> (r: Result<Vec<u8>, PdError>)
        requires
            old(dev).wf(),
            self.valid(*old(dev)),
        ensures
            final(dev).wf(),
            self.valid(*final(dev)),
            !old(dev).open_file(self.id()).readable
                ==> r == Err::<Vec<u8>, PdError>(PdError::Io { code: -1i32 })
                && *final(dev) == *old(dev),
            old(dev).open_file(self.id()).readable ==> {
                let f = old(dev).open_file(self.id());
                let k = min(n as int, f.content@.len() - f.pos);
                &&& r is Ok
                &&& r->Ok_0@ == f.content@.subrange(f.pos as int, f.pos + k)
                &&& final(dev).open_files@ == old(dev).open_files@.update(
                    old(dev).open_idx(self.id()),
                    (OpenFile { pos: (f.pos + k) as usize, ..f }),
                )
                &&& (*final(dev) == Device { open_files: final(dev).open_files, ..(*old(dev)) })
            },
    {
        let (code, data) = dev.file_read(self.handle, n);
        proof {
            if old(dev).open_file(self.id()).readable {
                let idx = old(dev).open_idx(self.id());
                assert(final(dev).open_files@[idx].handle == self.id());
            }
        }
        match status_to_result(code) {
            Err(e) => Err(e),
            Ok(_) => Ok(data),
        }
    }

    /// Writes `data` at the current position, splicing it into the file's
    /// contents and advancing the position; the count written comes back. A
    /// file not open for writing — or a write that would outgrow what the
    /// device can report — is answered with a negative status, which
    /// surfaces as an `Io` error.
    pub fn write(&self, dev: &mut Device, data: &Vec<u8>) -> (r: Result<i32, PdError>)
        requires
            old(dev).wf(),
            self.valid(*old(dev)),
        ensures
            final(dev).wf(),
            self.valid(*final(dev)),
            !(old(dev).open_file(self.id()).writable
                && old(dev).open_file(self.id()).pos + data@.len() <= 0x7fff_ffff)
                ==> r == Err::<i32, PdError>(PdError::Io { code: -1i32 })
                && *final(dev) == *old(dev),
            (old(dev).open_file(self.id()).writable
                && old(dev).open_file(self.id()).pos + data@.len() <= 0x7fff_ffff) ==> {
                let f = old(dev).open_file(self.id());
                &&& r == Ok::<i32, PdError>(data@.len() as i32)
                &&& final(dev).open_files@ == old(dev).open_files@.update(
                    old(dev).open_idx(self.id()),
                    (OpenFile {
                        pos: (f.pos + data@.len()) as usize,
                        content: final(dev).open_files@[old(dev).open_idx(self.id())].content,
                        ..f
                    }),
                )
                &&& final(dev).open_files@[old(dev).open_idx(self.id())].content@
                    == spliced(f.content@, f.pos as int, data@)
                &&& (*final(dev) == Device { open_files: final(dev).open_files, ..(*old(dev)) })
            },
    {
        let code = dev.file_write(self.handle, data);
        proof {
            if old(dev).open_file(self.id()).writable
                && old(dev).open_file(self.id()).pos + data@.len() <= 0x7fff_ffff {
                let idx = old(dev).open_idx(self.id());
                assert(final(dev).open_files@[idx].handle == self.id());
            }
        }
        match status_to_result(code) {
            Err(e) => Err(e),
            Ok(count) => Ok(count),
        }
    }

    /// Flushes the file; the model buffers nothing, so a valid wrapper
    /// always succeeds with a zero status.
    pub fn flush(&self, dev: &mut Device) -> (r: Result<i32, PdError>)
        requires
            old(dev).wf(),
            self.valid(*old(dev)),
        ensures
            final(dev).wf(),
            *final(dev) == *old(dev),
            r == Ok::<i32, PdError>(0),
    {
        let code = dev.file_flush(self.handle);
        match status_to_result(code) {
            Err(e) => Err(e),
            Ok(count) => Ok(count),
        }
    }

    /// Reports the current position; a valid wrapper always succeeds.
    pub fn tell(&self, dev: &mut Device) -> (r: Result<i32, PdError>)
        requires
            old(dev).wf(),
            self.valid(*old(dev)),
        ensures
            final(dev).wf(),
            *final(dev) == *old(dev),
            r == Ok::<i32, PdError>(old(dev).open_file(self.id()).pos as i32),
    {
        let code = dev.file_tell(self.handle);
        match status_to_result(code) {
            Err(e) => Err(e),
            Ok(count) => Ok(count),
        }
    }

    /// Moves the position: `Set` counts from the start, `Cur` from the
    /// current position, `End` from the end of the file. A target outside
    /// the file is answered with a negative status, which surfaces as an
    /// `Io` error, and the position stays put.
    pub fn seek(&self, dev: &mut Device, pos: i32, whence: Whence) -> (r: Result<(), PdError>)
        requires
            old(dev).wf(),
            self.valid(*old(dev)),
        ensures
            final(dev).wf(),
            self.valid(*final(dev)),
            ({
                let f = old(dev).open_file(self.id());
                let base = if whence is Start {
                    0int
                } else if whence is Cur {
                    f.pos as int
                } else {
                    f.content@.len() as int
                };
                let target = base + pos;
                &&& (0 <= target <= f.content@.len()) ==> {
                    &&& r == Ok::<(), PdError>(())
                    &&& final(dev).open_files@ == old(dev).open_files@.update(
                        old(dev).open_idx(self.id()),
                        (OpenFile { pos: target as usize, ..f }),
                    )
                    &&& (*final(dev) == Device {
                        open_files: final(dev).open_files,
                        ..(*old(dev))
                    })
                }
                &&& !(0 <= target <= f.content@.len())
                    ==> r == Err::<(), PdError>(PdError::Io { code: -1i32 })
                    && *final(dev) == *old(dev)
            }),
    {
        let whence_code: i32 = match whence {
            Whence::Start => 0,
            Whence::Cur => 1,
            Whence::End => 2,
        };
        let code = dev.file_seek(self.handle, pos, whence_code);
        proof {
            let f = old(dev).open_file(self.id());
            let base = if whence is Start {
                0int
            } else if whence is Cur {
                f.pos as int
            } else {
                f.content@.len() as int
            };
            if 0 <= base + pos <= f.content@.len() {
                let idx = old(dev).open_idx(self.id());
                assert(final(dev).open_files@[idx].handle == self.id());
            }
        }
        match status_to_result(code) {
            Err(e) => Err(e),
            Ok(_) => Ok(()),
        }
    }

    /// Closes the file, consuming the wrapper: the device writes the
    /// contents back to the filesystem when the file was open for writing,
    /// and the handle is freed — exactly once, since the wrapper is gone.
    pub fn close(self, dev: &mut Device)
        requires
            old(dev).wf(),
            self.valid(*old(dev)),
        ensures
            final(dev).wf(),
            resource_released(*old(dev), *final(dev), self.id()),
            !final(dev).has_open(self.id()),
            ({
                let f = old(dev).open_file(self.id());
                &&& final(dev).open_files@
                    == old(dev).open_files@.remove(old(dev).open_idx(self.id()))
                &&& final(dev).fs@ == (if !f.writable {
                    old(dev).fs@
                } else if old(dev).has_file(f.path@) {
                    old(dev).fs@.update(
                        old(dev).file_idx(f.path@),
                        (NamedFile {
                            data: f.content,
                            ..old(dev).fs@[old(dev).file_idx(f.path@)]
                        }),
                    )
                } else {
                    old(dev).fs@.push(NamedFile { path: f.path, data: f.content })
                })
                &&& (*final(dev) == Device {
                    live: final(dev).live,
                    free_calls: final(dev).free_calls,
                    open_files: final(dev).open_files,
                    fs: final(dev).fs,
                    ..(*old(dev))
                })
            }),
    {
        let _ = dev.file_close(self.handle);
        proof {
            if (*dev).has_open(self.id()) {
                let idx = (*dev).open_idx(self.id());
                let oidx = old(dev).open_idx(self.id());
                if idx < oidx {
                    assert(old(dev).open_files@[idx].handle
                        != old(dev).open_files@[oidx].handle);
                } else {
                    assert(old(dev).open_files@[idx + 1].handle
                        != old(dev).open_files@[oidx].handle);
                }
            }
        }
    }
}

} // verus!
