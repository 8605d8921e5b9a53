//! The sound subsystem: a shared view of the sound entry table, the owning
//! wrappers for the file player, the sample player and audio samples, and
//! their playback state.
//!
//! Playback state — playing, underrun, the installed sample — is carried
//! by each player wrapper, its single owner. Sample data is plain bytes;
//! what the mixer makes of them is outside the model. Rates, volumes and
//! lengths in seconds are fractional on the device and are not part of the
//! model.

use vstd::prelude::*;

use crate::cstr::has_nul;
use crate::cstr::lemma_c_string_form;
use crate::cstr::to_c_string;
use crate::device::resource_created;
use crate::device::resource_released;
use crate::device::Device;
use crate::error::PdError;
use crate::error::ResourceKind;
use crate::graphics::lemma_fresh_handle_not_open;

verus! {

/// The encoding of a sample's bytes.
#[derive(Clone, Copy, Debug, PartialEq, Eq, Structural)]
pub enum SoundFormat {
    Mono8,
    Stereo8,
    Mono16,
    Stereo16,
    MonoADPCM,
    StereoADPCM,
}

/// A shared view of the sound subsystem's entry table. Views are freely
/// copyable and own no releasable resource.
#[derive(Clone, Copy)]
pub struct Sound {
    entry: u64,
}

impl Sound {
    /// The entry address this view dispatches through.
    pub closed spec fn addr(self) -> u64 {
        self.entry
    }

    /// Wraps the sound entry address handed over at initialization.
    pub fn new(entry: u64) -> (r: Sound)
        ensures
            r.addr() == entry,
    {
        Sound { entry }
    }
}

/// The owning wrapper of one file player: exactly one wrapper per handle,
/// released exactly once by `release`. Playback state lives with its
/// single owner.
pub struct FilePlayer {
    /// The native handle this wrapper owns. Written only by the
    /// constructor; treat as read-only.
    pub handle: u64,
    /// Whether a source file has been loaded into the player.
    pub loaded: bool,
    /// Whether the player is playing.
    pub playing: bool,
    /// Whether the mixer reported a buffer underrun.
    pub underrun: bool,
    /// Whether an underrun stops playback.
    pub stop_on_underrun: bool,
    /// Whether a finish callback is installed.
    pub finish_callback_set: bool,
    /// Whether a loop callback is installed.
    pub loop_callback_set: bool,
}

impl FilePlayer {
    /// The native handle this wrapper owns.
    pub open spec fn id(self) -> u64 {
        self.handle
    }

    /// The wrapper is valid against a device while its handle is live there
    /// and is no open file's.
    pub open spec fn valid(self, dev: Device) -> bool {
        &&& dev.live@.contains(self.id())
        &&& !dev.has_open(self.id())
    }

    /// Creates a file player. The simulated device always has room for one
    /// more player, so creation succeeds.
    pub fn new(dev: &mut Device) -> (r: Result<FilePlayer, PdError>)
        requires
            old(dev).wf(),
            old(dev).can_create(),
        ensures
            final(dev).wf(),
            r is Ok,
            resource_created(*old(dev), *final(dev), r->Ok_0.id()),
            r->Ok_0.valid(*final(dev)),
            !r->Ok_0.loaded && !r->Ok_0.playing && !r->Ok_0.underrun
                && !r->Ok_0.stop_on_underrun && !r->Ok_0.finish_callback_set
                && !r->Ok_0.loop_callback_set,
            (*final(dev) == Device {
                next_handle: final(dev).next_handle,
                live: final(dev).live,
                create_calls: final(dev).create_calls,
                ..(*old(dev))
            }),
    {
        let h = dev.create_resource();
        proof {
            lemma_fresh_handle_not_open(*old(dev), *dev, h);
        }
        Ok(FilePlayer {
            handle: h,
            loaded: false,
            playing: false,
            underrun: false,
            stop_on_underrun: false,
            finish_callback_set: false,
            loop_callback_set: false,
        })
    }

    /// Loads a sound file into the player. A path holding a null byte is
    /// rejected with `Encoding` before the device is called; a missing
    /// asset is a creation-class failure and the player stays unloaded.
    pub fn load_into_player(&mut self, dev: &mut Device, path: &Vec<u8>) -> (r: Result<
        (),
        PdError,
    >)
        requires
            old(dev).wf(),
            old(self).valid(*old(dev)),
            old(dev).load_calls < u64::MAX,
        ensures
            final(dev).wf(),
            final(self).valid(*final(dev)),
            final(self).id() == old(self).id(),
            has_nul(path@) ==> r == Err::<(), PdError>(PdError::Encoding)
                && *final(dev) == *old(dev) && *final(self) == *old(self),
            (!has_nul(path@) && !old(dev).has_asset(path@)) ==> {
                &&& r == Err::<(), PdError>(PdError::ResourceCreation {
                    kind: ResourceKind::FilePlayer,
                })
                &&& *final(self) == *old(self)
            },
            (!has_nul(path@) && old(dev).has_asset(path@)) ==> {
                &&& r == Ok::<(), PdError>(())
                &&& (*final(self) == FilePlayer { loaded: true, ..*old(self) })
            },
            !has_nul(path@) ==> {
                &&& (*final(dev) == Device {
                    load_calls: final(dev).load_calls,
                    ..(*old(dev))
                })
                &&& final(dev).load_calls == old(dev).load_calls + 1
            },
    {
        let converted = to_c_string(path);
        match converted {
            Err(e) => Err(e),
            Ok(c) => {
                proof {
                    lemma_c_string_form(c@, path@);
                }
                let present = dev.probe_asset(&c);
                if present {
                    self.loaded = true;
                    Ok(())
                } else {
                    Err(PdError::ResourceCreation { kind: ResourceKind::FilePlayer })
                }
            },
        }
    }

    /// Starts playback; the device answers one when a file is loaded and
    /// zero otherwise, and only a loaded player starts playing.
    pub fn play(&mut self, repeat: u32) -> (r: i32)
        ensures
            old(self).loaded ==> r == 1 && (*final(self) == FilePlayer {
                playing: true,
                ..*old(self)
            }),
            !old(self).loaded ==> r == 0 && *final(self) == *old(self),
    {
        let _ = repeat;
        if self.loaded {
            self.playing = true;
            1
        } else {
            0
        }
    }

    /// Pauses playback.
    pub fn pause(&mut self)
        ensures
            (*final(self) == FilePlayer { playing: false, ..*old(self) }),
    {
        self.playing = false;
    }

    /// Stops playback.
    pub fn stop(&mut self)
        ensures
            (*final(self) == FilePlayer { playing: false, ..*old(self) }),
    {
        self.playing = false;
    }

    /// Whether the player is playing.
    pub fn is_playing(&self) -> (r: bool)
        ensures
            r == self.playing,
    {
        self.playing
    }

    /// Whether the mixer reported a buffer underrun.
    pub fn did_underrun(&self) -> (r: bool)
        ensures
            r == self.underrun,
    {
        self.underrun
    }

    /// Records an underrun report from the mixer; when the player is set to
    /// stop on underrun, playback stops.
    pub fn mark_underrun(&mut self)
        ensures
            (*final(self) == FilePlayer {
                underrun: true,
                playing: old(self).playing && !old(self).stop_on_underrun,
                ..*old(self)
            }),
    {
        self.underrun = true;
        if self.stop_on_underrun {
            self.playing = false;
        }
    }

    /// Sets whether an underrun stops playback.
    pub fn set_stop_on_underrun(&mut self, flag: bool)
        ensures
            (*final(self) == FilePlayer { stop_on_underrun: flag, ..*old(self) }),
    {
        self.stop_on_underrun = flag;
    }

    /// Installs or clears the finish callback.
    pub fn set_finish_callback(&mut self, installed: bool)
        ensures
            (*final(self) == FilePlayer { finish_callback_set: installed, ..*old(self) }),
    {
        self.finish_callback_set = installed;
    }

    /// Installs or clears the loop callback.
    pub fn set_loop_callback(&mut self, installed: bool)
        ensures
            (*final(self) == FilePlayer { loop_callback_set: installed, ..*old(self) }),
    {
        self.loop_callback_set = installed;
    }

    /// Releases the player, consuming the wrapper: the device frees the
    /// handle — exactly once, since the wrapper is gone.
    pub fn release(self, dev: &mut Device)
        requires
            old(dev).wf(),
            self.valid(*old(dev)),
        ensures
            final(dev).wf(),
            resource_released(*old(dev), *final(dev), self.id()),
            (*final(dev) == Device {
                live: final(dev).live,
                free_calls: final(dev).free_calls,
                ..(*old(dev))
            }),
    {
        dev.free_resource(self.handle);
    }
}

/// The owning wrapper of one sample player: exactly one wrapper per handle,
/// released exactly once by `release`. Playback state lives with its
/// single owner.
pub struct SamplePlayer {
    /// The native handle this wrapper owns. Written only by the
    /// constructor; treat as read-only.
    pub handle: u64,
    /// The handle of the installed sample, or zero for none.
    pub sample: u64,
    /// Whether the player is playing.
    pub playing: bool,
    /// Whether a finish callback is installed.
    pub finish_callback_set: bool,
    /// Whether a loop callback is installed.
    pub loop_callback_set: bool,
}

impl SamplePlayer {
    /// The native handle this wrapper owns.
    pub open spec fn id(self) -> u64 {
        self.handle
    }

    /// The wrapper is valid against a device while its handle is live there
    /// and is no open file's.
    pub open spec fn valid(self, dev: Device) -> bool {
        &&& dev.live@.contains(self.id())
        &&& !dev.has_open(self.id())
    }

    /// Creates a sample player. The simulated device always has room for
    /// one more player, so creation succeeds.
    pub fn new(dev: &mut Device) -> (r: Result<SamplePlayer, PdError>)
        requires
            old(dev).wf(),
            old(dev).can_create(),
        ensures
            final(dev).wf(),
            r is Ok,
            resource_created(*old(dev), *final(dev), r->Ok_0.id()),
            r->Ok_0.valid(*final(dev)),
            r->Ok_0.sample == 0 && !r->Ok_0.playing && !r->Ok_0.finish_callback_set
                && !r->Ok_0.loop_callback_set,
            (*final(dev) == Device {
                next_handle: final(dev).next_handle,
                live: final(dev).live,
                create_calls: final(dev).create_calls,
                ..(*old(dev))
            }),
    {
        let h = dev.create_resource();
        proof {
            lemma_fresh_handle_not_open(*old(dev), *dev, h);
        }
        Ok(SamplePlayer {
            handle: h,
            sample: 0,
            playing: false,
            finish_callback_set: false,
            loop_callback_set: false,
        })
    }

    /// Installs a sample, recording its handle; the sample stays with its
    /// owner, who keeps the release obligation.
    pub fn set_sample(&mut self, sample: &Sample)
        ensures
            (*final(self) == SamplePlayer { sample: sample.id(), ..*old(self) }),
    {
        self.sample = sample.handle_value();
    }

    /// Starts playback; the device answers one when a sample is installed
    /// and zero otherwise, and only then does the player start playing.
    pub fn play(&mut self, repeat: i32) -> (r: i32)
        ensures
            old(self).sample != 0 ==> r == 1 && (*final(self) == SamplePlayer {
                playing: true,
                ..*old(self)
            }),
            old(self).sample == 0 ==> r == 0 && *final(self) == *old(self),
    {
        let _ = repeat;
        if self.sample != 0 {
            self.playing = true;
            1
        } else {
            0
        }
    }

    /// Stops playback.
    pub fn stop(&mut self)
        ensures
            (*final(self) == SamplePlayer { playing: false, ..*old(self) }),
    {
        self.playing = false;
    }

    /// Whether the player is playing.
    pub fn is_playing(&self) -> (r: bool)
        ensures
            r == self.playing,
    {
        self.playing
    }

    /// Installs or clears the finish callback.
    pub fn set_finish_callback(&mut self, installed: bool)
        ensures
            (*final(self) == SamplePlayer { finish_callback_set: installed, ..*old(self) }),
    {
        self.finish_callback_set = installed;
    }

    /// Installs or clears the loop callback.
    pub fn set_loop_callback(&mut self, installed: bool)
        ensures
            (*final(self) == SamplePlayer { loop_callback_set: installed, ..*old(self) }),
    {
        self.loop_callback_set = installed;
    }

    /// Releases the player, consuming the wrapper: the device frees the
    /// handle — exactly once, since the wrapper is gone.
    pub fn release(self, dev: &mut Device)
        requires
            old(dev).wf(),
            self.valid(*old(dev)),
        ensures
            final(dev).wf(),
            resource_released(*old(dev), *final(dev), self.id()),
            (*final(dev) == Device {
                live: final(dev).live,
                free_calls: final(dev).free_calls,
                ..(*old(dev))
            }),
    {
        dev.free_resource(self.handle);
    }
}

/// The owning wrapper of one audio sample: exactly one wrapper per handle,
/// released exactly once by `release`. The sample's bytes live with their
/// single owner.
pub struct Sample {
    handle: u64,
    data: Vec<u8>,
    format: SoundFormat,
    rate: u32,
}

impl Sample {
    /// The native handle this wrapper owns.
    pub closed spec fn id(self) -> u64 {
        self.handle
    }

    /// The sample's bytes.
    pub closed spec fn data_spec(self) -> Seq<u8> {
        self.data@
    }

    /// The encoding of the sample's bytes.
    pub closed spec fn format_spec(self) -> SoundFormat {
        self.format
    }

    /// The sample rate in frames per second.
    pub closed spec fn rate_spec(self) -> u32 {
        self.rate
    }

    /// The wrapper is valid against a device while its handle is live there
    /// and is no open file's.
    pub open spec fn valid(self, dev: Device) -> bool {
        &&& dev.live@.contains(self.id())
        &&& !dev.has_open(self.id())
    }

    /// Creates a zero-filled sample buffer of `byte_count` bytes; a
    /// negative count is answered by the device with the null handle and
    /// reported as a creation failure.
    pub fn new(dev: &mut Device, byte_count: i32) -> (r: Result<Sample, PdError>)
        requires
            old(dev).wf(),
            old(dev).can_create(),
        ensures
            final(dev).wf(),
            byte_count < 0 ==> r == Err::<Sample, PdError>(PdError::ResourceCreation {
                kind: ResourceKind::Sample,
            }) && *final(dev) == *old(dev),
            byte_count >= 0 ==> {
                &&& r is Ok
                &&& resource_created(*old(dev), *final(dev), r->Ok_0.id())
                &&& r->Ok_0.valid(*final(dev))
                &&& r->Ok_0.data_spec().len() == byte_count
                &&& (forall|i: int| 0 <= i < byte_count ==> r->Ok_0.data_spec()[i] == 0u8)
                &&& r->Ok_0.format_spec() is Mono16
                &&& r->Ok_0.rate_spec() == 44100u32
                &&& (*final(dev) == Device {
                    next_handle: final(dev).next_handle,
                    live: final(dev).live,
                    create_calls: final(dev).create_calls,
                    ..(*old(dev))
                })
            },
    {
        if byte_count < 0 {
            return Err(PdError::ResourceCreation { kind: ResourceKind::Sample });
        }
        let n = byte_count as usize;
        let mut data: Vec<u8> = Vec::new();
        let mut i: usize = 0;
        while i < n
            invariant
                0 <= i <= n,
                data@.len() == i,
                forall|k: int| 0 <= k < i ==> data@[k] == 0u8,
            decreases n - i,
        {
            data.push(0);
            i = i + 1;
        }
        let h = dev.create_resource();
        proof {
            lemma_fresh_handle_not_open(*old(dev), *dev, h);
        }
        Ok(Sample { handle: h, data, format: SoundFormat::Mono16, rate: 44100 })
    }

    /// Loads a sample from a bundled asset. A path holding a null byte is
    /// rejected with `Encoding` before the device is called; a missing
    /// asset is answered with the null handle and reported as a creation
    /// failure, with no resource coming to life. The loaded sample carries
    /// the asset's bytes at the model's fixed decode format and rate.
    pub fn load(dev: &mut Device, path: &Vec<u8>) -> (r: Result<Sample, PdError>)
        requires
            old(dev).wf(),
            old(dev).can_create(),
            old(dev).load_calls < u64::MAX,
        ensures
            final(dev).wf(),
            has_nul(path@) ==> r == Err::<Sample, PdError>(PdError::Encoding)
                && *final(dev) == *old(dev),
            (!has_nul(path@) && !old(dev).has_asset(path@)) ==> {
                &&& r == Err::<Sample, PdError>(PdError::ResourceCreation {
                    kind: ResourceKind::Sample,
                })
                &&& (*final(dev) == Device {
                    load_calls: final(dev).load_calls,
                    ..(*old(dev))
                })
                &&& final(dev).load_calls == old(dev).load_calls + 1
            },
            (!has_nul(path@) && old(dev).has_asset(path@)) ==> {
                &&& r is Ok
                &&& resource_created(*old(dev), *final(dev), r->Ok_0.id())
                &&& r->Ok_0.valid(*final(dev))
                &&& r->Ok_0.data_spec()
                    == old(dev).assets@[old(dev).asset_idx(path@)].data@
                &&& r->Ok_0.format_spec() is Mono16
                &&& r->Ok_0.rate_spec() == 44100u32
                &&& final(dev).load_calls == old(dev).load_calls + 1
                &&& (*final(dev) == Device {
                    next_handle: final(dev).next_handle,
                    live: final(dev).live,
                    create_calls: final(dev).create_calls,
                    load_calls: final(dev).load_calls,
                    ..(*old(dev))
                })
            },
    {
        let converted = to_c_string(path);
        match converted {
            Err(e) => Err(e),
            Ok(c) => {
                proof {
                    lemma_c_string_form(c@, path@);
                }
                let (h, data) = dev.load_data_resource(&c);
                if h == 0 {
                    Err(PdError::ResourceCreation { kind: ResourceKind::Sample })
                } else {
                    proof {
                        lemma_fresh_handle_not_open(*old(dev), *dev, h);
                    }
                    Ok(Sample { handle: h, data, format: SoundFormat::Mono16, rate: 44100 })
                }
            },
        }
    }

    /// Creates a sample over the caller's bytes, with the given format and
    /// rate. The simulated device always has room, so creation succeeds.
    pub fn new_sample_from_data(dev: &mut Device, data: &Vec<u8>, format: SoundFormat,
        sample_rate: u32) -> (r: Result<Sample, PdError>)
        requires
            old(dev).wf(),
            old(dev).can_create(),
        ensures
            final(dev).wf(),
            r is Ok,
            resource_created(*old(dev), *final(dev), r->Ok_0.id()),
            r->Ok_0.valid(*final(dev)),
            r->Ok_0.data_spec() == data@,
            r->Ok_0.format_spec() == format,
            r->Ok_0.rate_spec() == sample_rate,
            (*final(dev) == Device {
                next_handle: final(dev).next_handle,
                live: final(dev).live,
                create_calls: final(dev).create_calls,
                ..(*old(dev))
            }),
    {
        let copied = crate::device::copy_bytes(data);
        let h = dev.create_resource();
        proof {
            lemma_fresh_handle_not_open(*old(dev), *dev, h);
        }
        Ok(Sample { handle: h, data: copied, format, rate: sample_rate })
    }

    /// Reloads this sample's bytes from a bundled asset, keeping the
    /// handle. A path holding a null byte is rejected with `Encoding`
    /// before the device is called; a missing asset is a creation-class
    /// failure and leaves the sample as it was.
    pub fn load_into_sample(&mut self, dev: &mut Device, path: &Vec<u8>) -> (r: Result<
        (),
        PdError,
    >)
        requires
            old(dev).wf(),
            old(self).valid(*old(dev)),
            old(dev).load_calls < u64::MAX,
        ensures
            final(dev).wf(),
            final(self).valid(*final(dev)),
            final(self).id() == old(self).id(),
            has_nul(path@) ==> r == Err::<(), PdError>(PdError::Encoding)
                && *final(dev) == *old(dev) && *final(self) == *old(self),
            (!has_nul(path@) && !old(dev).has_asset(path@)) ==> {
                &&& r == Err::<(), PdError>(PdError::ResourceCreation {
                    kind: ResourceKind::Sample,
                })
                &&& *final(self) == *old(self)
            },
            (!has_nul(path@) && old(dev).has_asset(path@)) ==> {
                &&& r == Ok::<(), PdError>(())
                &&& final(self).data_spec()
                    == old(dev).assets@[old(dev).asset_idx(path@)].data@
                &&& final(self).format_spec() == old(self).format_spec()
                &&& final(self).rate_spec() == old(self).rate_spec()
            },
            !has_nul(path@) ==> {
                &&& (*final(dev) == Device {
                    load_calls: final(dev).load_calls,
                    ..(*old(dev))
                })
                &&& final(dev).load_calls == old(dev).load_calls + 1
            },
    {
        let converted = to_c_string(path);
        match converted {
            Err(e) => Err(e),
            Ok(c) => {
                proof {
                    lemma_c_string_form(c@, path@);
                }
                let (present, data) = dev.probe_asset_data(&c);
                if present {
                    self.data = data;
                    Ok(())
                } else {
                    Err(PdError::ResourceCreation { kind: ResourceKind::Sample })
                }
            },
        }
    }

    /// The sample's bytes, format and rate.
    pub fn get_data(&self) -> (r: (&Vec<u8>, SoundFormat, u32))
        ensures
            r.0@ == self.data_spec(),
            r.1 == self.format_spec(),
            r.2 == self.rate_spec(),
    {
        (&self.data, self.format, self.rate)
    }

    /// The native handle, for recording in other structures; the wrapper
    /// keeps the ownership and the release obligation.
    pub fn handle_value(&self) -> (r: u64)
        ensures
            r == self.id(),
    {
        self.handle
    }

    /// Releases the sample, consuming the wrapper: the device frees the
    /// handle — exactly once, since the wrapper is gone.
    pub fn release(self, dev: &mut Device)
        requires
            old(dev).wf(),
            self.valid(*old(dev)),
        ensures
            final(dev).wf(),
            resource_released(*old(dev), *final(dev), self.id()),
            (*final(dev) == Device {
                live: final(dev).live,
                free_calls: final(dev).free_calls,
                ..(*old(dev))
            }),
    {
        dev.free_resource(self.handle);
    }
}

} // verus!
