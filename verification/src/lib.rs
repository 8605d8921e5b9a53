//! Safe, verified model of a handheld console's SDK surface: a device context
//! initialized exactly once from a capability table, typed owners of native
//! resource handles with release-exactly-once discipline, an allocator bridge
//! over the device's realloc primitive, a fault bridge that formats bounded
//! diagnostics, and a per-frame game driver.
//!
//! The device itself is represented by a deterministic state model
//! ([`device::Device`]) so that every wrapper's marshaling, error mapping and
//! lifecycle obligations are stated and proved against explicit state.

pub mod allocator;
pub mod codec;
pub mod cstr;
pub mod device;
pub mod display;
pub mod driver;
pub mod error;
pub mod fault;
pub mod file;
pub mod graphics;
pub mod memops;
pub mod sound;
pub mod sprite;
pub mod system;

use vstd::prelude::*;

use crate::device::Device;
use crate::error::PdError;

verus! {

/// One functional area of the console: a set of vendor entry points.
#[derive(Clone, Copy, Debug, PartialEq, Eq, Structural)]
pub enum Subsystem {
    System,
    File,
    Graphics,
    Sprite,
    Display,
    Sound,
}

/// The raw capability table the hardware hands to the init event: one entry
/// address per subsystem, the null address marking an absent subsystem.
#[derive(Clone, Copy, Debug, PartialEq, Eq, Structural)]
pub struct CapabilityTable {
    pub system: u64,
    pub file: u64,
    pub graphics: u64,
    pub sprite: u64,
    pub display: u64,
    pub sound: u64,
}

/// The device context: the one-time-initialized set of subsystem entry
/// points. Built once, at the init event, from the capability table; read
/// only afterwards, so reading a subsystem twice yields identical handles.
pub struct Playdate {
    system: Option<u64>,
    filesystem: Option<u64>,
    graphics: Option<u64>,
    sprite: Option<u64>,
    display: Option<u64>,
    sound: Option<u64>,
}

impl Playdate {
    /// The cached entry address of a subsystem, or `None` when the
    /// capability table lacked it.
    pub closed spec fn entry(self, s: Subsystem) -> Option<u64> {
        match s {
            Subsystem::System => self.system,
            Subsystem::File => self.filesystem,
            Subsystem::Graphics => self.graphics,
            Subsystem::Sprite => self.sprite,
            Subsystem::Display => self.display,
            Subsystem::Sound => self.sound,
        }
    }

    /// True when the context caches an entry for the subsystem.
    pub open spec fn has(self, s: Subsystem) -> bool {
        self.entry(s) is Some
    }

    /// The entry a capability table holds for a subsystem.
    pub open spec fn table_entry(table: CapabilityTable, s: Subsystem) -> u64 {
        match s {
            Subsystem::System => table.system,
            Subsystem::File => table.file,
            Subsystem::Graphics => table.graphics,
            Subsystem::Sprite => table.sprite,
            Subsystem::Display => table.display,
            Subsystem::Sound => table.sound,
        }
    }

    /// Builds the context from the capability table, once, at the init
    /// event: each present (nonnull) entry is cached; an absent entry is
    /// recorded as absent, never as a garbage address.
    pub fn new(table: &CapabilityTable) -> (r: Playdate)
        ensures
            forall|s: Subsystem| #[trigger] r.entry(s) == (if Self::table_entry(*table, s) != 0 {
                Some(Self::table_entry(*table, s))
            } else {
                None::<u64>
            }),
    {
        let r = Playdate {
            system: if table.system != 0 {
                Some(table.system)
            } else {
                None
            },
            filesystem: if table.file != 0 {
                Some(table.file)
            } else {
                None
            },
            graphics: if table.graphics != 0 {
                Some(table.graphics)
            } else {
                None
            },
            sprite: if table.sprite != 0 {
                Some(table.sprite)
            } else {
                None
            },
            display: if table.display != 0 {
                Some(table.display)
            } else {
                None
            },
            sound: if table.sound != 0 {
                Some(table.sound)
            } else {
                None
            },
        };
        proof {
            assert forall|s: Subsystem| #[trigger] r.entry(s) == (if Self::table_entry(
                *table,
                s,
            ) != 0 {
                Some(Self::table_entry(*table, s))
            } else {
                None::<u64>
            }) by {
                match s {
                    Subsystem::System => {},
                    Subsystem::File => {},
                    Subsystem::Graphics => {},
                    Subsystem::Sprite => {},
                    Subsystem::Display => {},
                    Subsystem::Sound => {},
                }
            }
        }
        r
    }

    /// Reads the cached handle for a subsystem: the entry cached at
    /// initialization, or `None` — an explicit fail-fast answer, never a
    /// garbage address — when the capability table lacked the subsystem.
    /// A pure read of immutable state: two calls yield identical values.
    pub fn get(&self, s: Subsystem) -> (r: Option<u64>)
        ensures
            r == self.entry(s),
    {
        match s {
            Subsystem::System => self.system,
            Subsystem::File => self.filesystem,
            Subsystem::Graphics => self.graphics,
            Subsystem::Sprite => self.sprite,
            Subsystem::Display => self.display,
            Subsystem::Sound => self.sound,
        }
    }

    /// The system subsystem view. Demands that the capability table held
    /// the subsystem; misuse outside verified code stops at the unwrap.
    pub fn system(&self) -> (r: system::System)
        requires
            self.has(Subsystem::System),
        ensures
            Some(r.addr()) == self.entry(Subsystem::System),
    {
        system::System::new(self.system.unwrap())
    }

    /// The file subsystem view. Demands that the capability table held the
    /// subsystem; misuse outside verified code stops at the unwrap.
    pub fn filesystem(&self) -> (r: file::Filesystem)
        requires
            self.has(Subsystem::File),
        ensures
            Some(r.addr()) == self.entry(Subsystem::File),
    {
        file::Filesystem::new(self.filesystem.unwrap())
    }

    /// The graphics subsystem view. Demands that the capability table held
    /// the subsystem; misuse outside verified code stops at the unwrap.
    pub fn graphics(&self) -> (r: graphics::Graphics)
        requires
            self.has(Subsystem::Graphics),
        ensures
            Some(r.addr()) == self.entry(Subsystem::Graphics),
    {
        graphics::Graphics::new(self.graphics.unwrap())
    }

    /// The sprite subsystem view. Demands that the capability table held
    /// the subsystem; misuse outside verified code stops at the unwrap.
    pub fn sprite(&self) -> (r: sprite::PDSprite)
        requires
            self.has(Subsystem::Sprite),
        ensures
            Some(r.addr()) == self.entry(Subsystem::Sprite),
    {
        sprite::PDSprite::new(self.sprite.unwrap())
    }

    /// The display subsystem view. Demands that the capability table held
    /// the subsystem; misuse outside verified code stops at the unwrap.
    pub fn display(&self) -> (r: display::Display)
        requires
            self.has(Subsystem::Display),
        ensures
            Some(r.addr()) == self.entry(Subsystem::Display),
    {
        display::Display::new(self.display.unwrap())
    }

    /// The sound subsystem view. Demands that the capability table held the
    /// subsystem; misuse outside verified code stops at the unwrap.
    pub fn sound(&self) -> (r: sound::Sound)
        requires
            self.has(Subsystem::Sound),
        ensures
            Some(r.addr()) == self.entry(Subsystem::Sound),
    {
        sound::Sound::new(self.sound.unwrap())
    }
}

/// Law: reading a subsystem from the context is idempotent. `get` is a pure
/// read of state that is never reassigned after initialization, so any two
/// reads of the same subsystem — each pinned by `get`'s contract to
/// `entry` — yield identical handle values.
pub proof fn lemma_get_idempotent(pd: Playdate, s: Subsystem, r1: Option<u64>, r2: Option<u64>)
    requires
        r1 == pd.entry(s),
        r2 == pd.entry(s),
    ensures
        r1 == r2,
{
}

/// A game: initial state built at the init event, then one update per
/// device tick. The library's driver owns the calls; implementors decide
/// whether an update error is ignored, retried, or escalated before it is
/// handed back. Either call may work the device as it pleases, but must
/// leave it well-formed.
pub trait Game: Sized {
    /// Builds the initial game state, once, at the init event.
    fn init(playdate: &Playdate, dev: &mut Device) -> (r: Self)
        requires
            old(dev).wf(),
        ensures
            final(dev).wf(),
    ;

    /// Advances the game by one frame.
    fn update(&mut self, playdate: &Playdate, dev: &mut Device) -> (r: Result<(), PdError>)
        requires
            old(dev).wf(),
        ensures
            final(dev).wf(),
    ;
}

} // verus!
