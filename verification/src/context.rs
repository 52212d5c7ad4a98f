//! The session context: settings, library metadata and transient session
//! flags, exclusively owned by the consumer loop.
//!
//! Settings and metadata are the two independently persisted documents.  The
//! on-disk encodings and the file I/O belong to the persistence collaborator;
//! this module states which values are persisted, which are session-only, and
//! how a fresh session is rebuilt from what was loaded.

use vstd::prelude::*;
use crate::event::SleepType;

verus! {

/// Frontlight output, as the two channels the hardware exposes.  Values are
/// in per-mille of full output; the capability driver converts to its own
/// scale.
#[derive(Clone, Copy, Debug, PartialEq, Eq, Structural)]
pub struct LightLevels {
    pub intensity: u16,
    pub warmth: u16,
}

/// Process configuration, persisted on suspend, mount and shutdown.
#[derive(Clone, Debug)]
pub struct Settings {
    pub wifi: bool,
    pub frontlight: bool,
    pub frontlight_levels: LightLevels,
    /// Idle seconds before the device is put to a light sleep.
    pub sleep_secs: u32,
    pub library_path: String,
}

/// The configuration a device falls back to when no settings document could
/// be read: no network, frontlight available but dark, a ten-minute idle
/// timeout, and the library rooted at the working directory.
pub open spec fn is_default_settings(s: Settings) -> bool {
    !s.wifi && s.frontlight
        && s.frontlight_levels == (LightLevels { intensity: 0, warmth: 0 })
        && s.sleep_secs == 600
        && s.library_path@.len() == 0
}

impl Default for Settings {
    fn default() -> (r: Settings)
        ensures
            is_default_settings(r),
    {
        Settings {
            wifi: false,
            frontlight: true,
            frontlight_levels: LightLevels { intensity: 0, warmth: 0 },
            sleep_secs: 600,
            library_path: String::new(),
        }
    }
}

/// The library catalogue, persisted beside the settings.  Each entry is the
/// plain identifier of one document; what an identifier resolves to is the
/// import collaborator's business.
#[derive(Clone, Debug)]
pub struct Metadata {
    pub entries: Vec<u64>,
}

impl Metadata {
    pub open spec fn view(self) -> Seq<u64> {
        self.entries@
    }

    pub fn new() -> (r: Metadata)
        ensures
            r@.len() == 0,
    {
        Metadata { entries: Vec::new() }
    }

    pub fn is_empty(&self) -> (r: bool)
        ensures
            r == (self@.len() == 0),
    {
        self.entries.len() == 0
    }

    /// Move every entry of `other` to the end of `self`, in order.
    pub fn append(&mut self, other: &mut Metadata)
        ensures
            final(self)@ == old(self)@ + old(other)@,
            final(other)@.len() == 0,
    {
        self.entries.append(&mut other.entries);
    }
}

/// The mutable shared state handed by exclusive reference into every
/// dispatch step.  Capability handles (battery, frontlight, light sensor)
/// and font state live with the hardware side; the context carries the plain
/// values the core's decisions read and write.
#[derive(Clone, Debug)]
pub struct Context {
    pub settings: Settings,
    pub metadata: Metadata,
    /// File name of the metadata document inside the library directory.
    pub filename: String,
    pub notification_index: u8,
    pub inverted: bool,
    pub monochrome: bool,
    pub suspended: bool,
    pub plugged: bool,
    pub mounted: bool,
    pub sleep_type: SleepType,
}

impl Context {
    /// The transient flags hold their startup values: what a fresh session
    /// looks like, whatever was loaded from disk.
    pub open spec fn session_flags_reset(self) -> bool {
        self.notification_index == 0
            && !self.inverted
            && !self.monochrome
            && !self.suspended
            && !self.plugged
            && !self.mounted
            && self.sleep_type is Light
    }

    /// Build a fresh session around loaded (or freshly imported) documents.
    /// Every session-only flag starts reset; settings and metadata are taken
    /// over unchanged.
    pub fn new(settings: Settings, metadata: Metadata, filename: String) -> (r: Context)
        ensures
            r == spec_fresh_session(settings, metadata, filename),
            r.settings == settings,
            r.metadata == metadata,
            r.filename == filename,
            r.session_flags_reset(),
    {
        Context {
            settings,
            metadata,
            filename,
            notification_index: 0,
            inverted: false,
            monochrome: false,
            suspended: false,
            plugged: false,
            mounted: false,
            sleep_type: SleepType::Light,
        }
    }
}

/// Build the startup context from whatever the persistence collaborator
/// could load.  A missing or unreadable settings document falls back to the
/// defaults; a missing metadata document falls back to a fresh import, and a
/// failed import to an empty catalogue.  Nothing here is fatal: this is the
/// recoverable-and-logged tier of the error policy.
pub fn build_context(
    loaded_settings: Option<Settings>,
    loaded_metadata: Option<Metadata>,
    imported_metadata: Option<Metadata>,
    filename: String,
) -> (r: Context)
    ensures
        r.session_flags_reset(),
        r.filename == filename,
        loaded_settings matches Some(s) ==> r.settings == s,
        loaded_settings is None ==> is_default_settings(r.settings),
        loaded_metadata matches Some(m) ==> r.metadata == m,
        loaded_metadata is None ==> (imported_metadata matches Some(m) ==> r.metadata == m),
        loaded_metadata is None && imported_metadata is None ==> r.metadata@.len() == 0,
        loaded_settings matches Some(s) ==> (loaded_metadata matches Some(m)
            ==> r == spec_fresh_session(s, m, filename)),
{
    let settings = match loaded_settings {
        Some(s) => s,
        None => Settings::default(),
    };
    let metadata = match loaded_metadata {
        Some(m) => m,
        None => match imported_metadata {
            Some(m) => m,
            None => Metadata::new(),
        },
    };
    Context::new(settings, metadata, filename)
}

/// First half of a library reload: a freshly loaded metadata document
/// replaces the catalogue, unless it is empty or could not be read, in which
/// case the catalogue is kept.
pub fn reload_replace(context: &mut Context, loaded: Option<Metadata>)
    ensures
        match loaded {
            Some(m) => if m@.len() > 0 {
                final(context).metadata == m
            } else {
                final(context).metadata == old(context).metadata
            },
            None => final(context).metadata == old(context).metadata,
        },
        final(context).settings == old(context).settings,
        final(context).filename == old(context).filename,
        final(context).notification_index == old(context).notification_index,
        final(context).inverted == old(context).inverted,
        final(context).monochrome == old(context).monochrome,
        final(context).suspended == old(context).suspended,
        final(context).plugged == old(context).plugged,
        final(context).mounted == old(context).mounted,
        final(context).sleep_type == old(context).sleep_type,
{
    if let Some(m) = loaded {
        if !m.is_empty() {
            context.metadata = m;
        }
    }
}

/// Second half of a library reload: entries the import collaborator found on
/// top of the current catalogue are appended, in order.  A failed import
/// appends nothing.
pub fn reload_append(context: &mut Context, imported: Option<Metadata>)
    ensures
        match imported {
            Some(m) => final(context).metadata@ == old(context).metadata@ + m@,
            None => final(context).metadata == old(context).metadata,
        },
        final(context).settings == old(context).settings,
        final(context).filename == old(context).filename,
        final(context).notification_index == old(context).notification_index,
        final(context).inverted == old(context).inverted,
        final(context).monochrome == old(context).monochrome,
        final(context).suspended == old(context).suspended,
        final(context).plugged == old(context).plugged,
        final(context).mounted == old(context).mounted,
        final(context).sleep_type == old(context).sleep_type,
{
    if let Some(mut m) = imported {
        context.metadata.append(&mut m);
    }
}

/// Persistence round trip: the settings and metadata of a session, saved at
/// shutdown and loaded back by a fresh instance, reproduce the same
/// in-memory values field for field; only the session-only flags are reset
/// at load.  Saving writes both documents out unchanged, and loading them
/// back hands them to `build_context`, which (see its contract) builds
/// exactly the fresh session this lemma speaks about.
pub proof fn lemma_persistence_round_trip(saved: Context)
    ensures
        spec_fresh_session(saved.settings, saved.metadata, saved.filename).settings
            == saved.settings,
        spec_fresh_session(saved.settings, saved.metadata, saved.filename).metadata
            == saved.metadata,
        spec_fresh_session(saved.settings, saved.metadata, saved.filename).filename
            == saved.filename,
        spec_fresh_session(saved.settings, saved.metadata, saved.filename)
            .session_flags_reset(),
{
}

/// The session `Context::new` builds: documents taken over unchanged, flags
/// reset.
pub open spec fn spec_fresh_session(settings: Settings, metadata: Metadata, filename: String)
    -> Context {
    Context {
        settings,
        metadata,
        filename,
        notification_index: 0,
        inverted: false,
        monochrome: false,
        suspended: false,
        plugged: false,
        mounted: false,
        sleep_type: SleepType::Light,
    }
}

} // verus!
