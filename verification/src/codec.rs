//! The file side of the stored-object codec: reading back the bytes an
//! object was stored as, and writing encoded bytes out, through one
//! open–transfer–close cycle each.
//!
//! Parsing and serializing the object itself is the caller's business;
//! what is proved here is the transfer: which bytes come back, what the
//! file holds afterwards, and that the file handle opened for the
//! transfer is released again — the device ends the call with exactly one
//! more creation and one more free than it started with.

use vstd::prelude::*;

use crate::cstr::has_nul;
use crate::device::Device;
use crate::error::PdError;
use crate::error::ResourceKind;
use crate::file::FileOptions;
use crate::file::Filesystem;
use vstd::math::min;

verus! {

broadcast use vstd::set::group_set_axioms;

/// The fixed size of the transfer buffer, in bytes.
pub const CODEC_BUFFER: usize = 1024;

/// Reads back the stored bytes under `path`: at most the buffer's worth of
/// the file's contents, less the trailing byte the storing convention
/// appends. A path holding a null byte is rejected with `Encoding`; a
/// missing file is a creation failure of the open; an empty file cannot
/// hold the trailing byte and is an I/O error. Whatever is returned, the
/// file handle opened for the transfer is freed again: one more creation
/// and one more free, and no file contents change.
pub fn read_encoded(fs: &Filesystem, dev: &mut Device, path: &Vec<u8>) -> (r: Result<
    Vec<u8>,
    PdError,
>)
    requires
        old(dev).wf(),
        old(dev).can_create(),
    ensures
        final(dev).wf(),
        has_nul(path@) ==> r == Err::<Vec<u8>, PdError>(PdError::Encoding)
            && *final(dev) == *old(dev),
        (!has_nul(path@) && !old(dev).has_file(path@))
            ==> r == Err::<Vec<u8>, PdError>(PdError::ResourceCreation {
                kind: ResourceKind::File,
            }) && *final(dev) == *old(dev),
        (!has_nul(path@) && old(dev).has_file(path@)) ==> {
            let content = old(dev).fs@[old(dev).file_idx(path@)].data@;
            let k = min(CODEC_BUFFER as int, content.len() as int);
            &&& (k == 0 ==> r == Err::<Vec<u8>, PdError>(PdError::Io { code: -1i32 }))
            &&& (k > 0 ==> r is Ok && r->Ok_0@ == content.subrange(0, k - 1))
            &&& final(dev).live@ == old(dev).live@
            &&& final(dev).create_calls == old(dev).create_calls + 1
            &&& final(dev).free_calls == old(dev).free_calls + 1
            &&& final(dev).open_files@ == old(dev).open_files@
            &&& final(dev).fs@ == old(dev).fs@
            &&& (*final(dev) == Device {
                next_handle: final(dev).next_handle,
                live: final(dev).live,
                create_calls: final(dev).create_calls,
                free_calls: final(dev).free_calls,
                open_files: final(dev).open_files,
                fs: final(dev).fs,
                ..(*old(dev))
            })
        },
{
    let opened = fs.open(dev, path, FileOptions::Read);
    match opened {
        Err(e) => {
            proof {
                if !has_nul(path@) && old(dev).has_file(path@) {
                    assert(false);
                }
            }
            Err(e)
        },
        Ok(file) => {
            let ghost h = file.id();
            let ghost dev1 = *dev;
            let got = file.read(dev, CODEC_BUFFER);
            let ghost dev2 = *dev;
            match got {
                Err(e) => {
                    file.close(dev);
                    proof {
                        assert(false);
                    }
                    Err(e)
                },
                Ok(mut bytes) => {
                    file.close(dev);
                    proof {
                        assert(dev1.open_idx(h) == old(dev).open_files@.len()) by {
                            crate::device::lemma_distinct_open_idx(
                                dev1,
                                h,
                                old(dev).open_files@.len() as int,
                            );
                        }
                        assert(dev2.open_idx(h) == old(dev).open_files@.len()) by {
                            crate::device::lemma_distinct_open_idx(
                                dev2,
                                h,
                                old(dev).open_files@.len() as int,
                            );
                        }
                        assert((*dev).live@ =~= old(dev).live@);
                        assert((*dev).open_files@ =~= old(dev).open_files@);
                    }
                    if bytes.len() == 0 {
                        Err(PdError::Io { code: -1 })
                    } else {
                        let _ = bytes.pop();
                        proof {
                            let content = old(dev).fs@[old(dev).file_idx(path@)].data@;
                            let k = min(CODEC_BUFFER as int, content.len() as int);
                            assert(bytes@ =~= content.subrange(0, k - 1));
                        }
                        Ok(bytes)
                    }
                },
            }
        },
    }
}

/// Stores `bytes` under `path`: the file afterwards holds exactly those
/// bytes, created fresh or overwritten whole. A path holding a null byte
/// is rejected with `Encoding` and nothing changes. The file handle opened
/// for the transfer is freed again: one more creation and one more free.
pub fn write_encoded(fs: &Filesystem, dev: &mut Device, path: &Vec<u8>, bytes: &Vec<u8>) -> (r:
    Result<i32, PdError>)
    requires
        old(dev).wf(),
        old(dev).can_create(),
        bytes@.len() <= 0x7fff_ffff,
    ensures
        final(dev).wf(),
        has_nul(path@) ==> r == Err::<i32, PdError>(PdError::Encoding)
            && *final(dev) == *old(dev),
        !has_nul(path@) ==> {
            &&& r == Ok::<i32, PdError>(bytes@.len() as i32)
            &&& final(dev).has_file(path@)
            &&& final(dev).fs@[final(dev).file_idx(path@)].data@ == bytes@
            &&& (old(dev).has_file(path@) ==> {
                &&& final(dev).fs@ == old(dev).fs@.update(
                    old(dev).file_idx(path@),
                    final(dev).fs@[old(dev).file_idx(path@)],
                )
                &&& final(dev).fs@[old(dev).file_idx(path@)].path@ == path@
            })
            &&& (!old(dev).has_file(path@) ==> {
                &&& final(dev).fs@ == old(dev).fs@.push(final(dev).fs@.last())
                &&& final(dev).fs@.last().path@ == path@
            })
            &&& final(dev).live@ == old(dev).live@
            &&& final(dev).create_calls == old(dev).create_calls + 1
            &&& final(dev).free_calls == old(dev).free_calls + 1
            &&& final(dev).open_files@ == old(dev).open_files@
            &&& (*final(dev) == Device {
                next_handle: final(dev).next_handle,
                live: final(dev).live,
                create_calls: final(dev).create_calls,
                free_calls: final(dev).free_calls,
                open_files: final(dev).open_files,
                fs: final(dev).fs,
                ..(*old(dev))
            })
        },
{
    let opened = fs.open(dev, path, FileOptions::Write);
    match opened {
        Err(e) => Err(e),
        Ok(file) => {
            let ghost h = file.id();
            let ghost dev1 = *dev;
            let wrote = file.write(dev, bytes);
            let ghost dev2 = *dev;
            match wrote {
                Err(e) => {
                    file.close(dev);
                    proof {
                        assert(false);
                    }
                    Err(e)
                },
                Ok(count) => {
                    file.close(dev);
                    proof {
                        assert(dev1.open_idx(h) == old(dev).open_files@.len()) by {
                            crate::device::lemma_distinct_open_idx(
                                dev1,
                                h,
                                old(dev).open_files@.len() as int,
                            );
                        }
                        assert(dev2.open_idx(h) == old(dev).open_files@.len()) by {
                            crate::device::lemma_distinct_open_idx(
                                dev2,
                                h,
                                old(dev).open_files@.len() as int,
                            );
                        }
                        assert((*dev).live@ =~= old(dev).live@);
                        assert((*dev).open_files@ =~= old(dev).open_files@);
                        let stored = dev2.open_file(h).content@;
                        assert(stored =~= bytes@);
                        if old(dev).has_file(path@) {
                            (*dev).lemma_file_idx(path@, old(dev).file_idx(path@));
                        } else {
                            (*dev).lemma_file_idx(path@, (*dev).fs@.len() - 1);
                        }
                    }
                    Ok(count)
                },
            }
        },
    }
}

} // verus!
