//! The instance record and the reading of one instance's metadata.
//!
//! An instance directory holds a primary configuration, a key/value file
//! with a `General` group, and may hold a component manifest. This module
//! takes both as already split into fields and decides what record, if any,
//! they give.

use vstd::prelude::*;
use crate::decimal::parse_decimal;
use crate::decimal::parse_u64;
use crate::format::duration_text;
use crate::format::format_duration;
use crate::format::format_timestamp_at;
use crate::format::relative_time_text;

verus! {

/// The text of an optional string.
pub open spec fn text_of(s: Option<String>) -> Option<Seq<char>> {
    match s {
        Some(t) => Some(t@),
        None => None,
    }
}

/// The `General` group of a primary configuration, each field as the text
/// that the file gives for it.
#[derive(Debug)]
pub struct GeneralConfig {
    /// The display name. The one required field.
    pub name: Option<String>,
    /// The last launch, in milliseconds since the Unix epoch.
    pub last_launch_time: Option<String>,
    /// The total play time, in seconds.
    pub total_time_played: Option<String>,
}

/// A primary configuration.
#[derive(Debug)]
pub struct InstanceConfig {
    pub general: Option<GeneralConfig>,
}

/// One entry of a component manifest.
#[derive(Debug)]
pub struct Component {
    pub uid: String,
    pub version: Option<String>,
}

/// A component manifest.
#[derive(Debug)]
pub struct MMCPack {
    pub components: Vec<Component>,
}

/// One installed game instance.
#[derive(Debug)]
pub struct Instance {
    /// The display name.
    pub name: String,
    /// The instance's data directory.
    pub path: String,
    /// The time since the last launch as text, as it was when the record
    /// was made.
    pub last_played: Option<String>,
    /// The last launch, in milliseconds since the Unix epoch.
    pub last_played_ts: Option<u64>,
    /// The total play time as text.
    pub time_played: Option<String>,
    /// The total play time in seconds.
    pub time_played_secs: Option<u64>,
    /// The version of the game component.
    pub mc_version: Option<String>,
}

/// What an instance record holds, as plain values.
pub struct InstanceView {
    pub name: Seq<char>,
    pub path: Seq<char>,
    pub last_played: Option<Seq<char>>,
    pub last_played_ts: Option<u64>,
    pub time_played: Option<Seq<char>>,
    pub time_played_secs: Option<u64>,
    pub mc_version: Option<Seq<char>>,
}

impl View for Instance {
    type V = InstanceView;

    open spec fn view(&self) -> InstanceView {
        InstanceView {
            name: self.name@,
            path: self.path@,
            last_played: text_of(self.last_played),
            last_played_ts: self.last_played_ts,
            time_played: text_of(self.time_played),
            time_played_secs: self.time_played_secs,
            mc_version: text_of(self.mc_version),
        }
    }
}

/// The identifier of the component whose version is the game's version.
pub open spec fn game_component_uid() -> Seq<char> {
    "net.minecraft"@
}

/// The version that a component list gives for the game: that of the first
/// component with the game's identifier. A list without such a component
/// gives none, and so does one whose first such component has no version,
/// whatever follows it.
pub open spec fn game_version(components: Seq<Component>) -> Option<Seq<char>>
    decreases components.len(),
{
    if components.len() == 0 {
        None
    } else if components[0].uid@ == game_component_uid() {
        text_of(components[0].version)
    } else {
        game_version(components.drop_first())
    }
}

/// The number that an optional numeric field gives. A field that is absent
/// or does not denote a number gives none.
pub open spec fn count_of(field: Option<String>) -> Option<u64> {
    match field {
        Some(text) => parse_decimal(text@),
        None => None,
    }
}

impl InstanceView {
    /// What holds of every record that `Instance::parse` makes: the name is
    /// not empty, and each text is there exactly when its number is. The
    /// play time text is that of the number of seconds, and the last launch
    /// text is that of the instant as seen at some time.
    pub open spec fn wf(self) -> bool {
        &&& self.name.len() > 0
        &&& match self.time_played_secs {
            Some(secs) => self.time_played == Some(duration_text(secs as nat)),
            None => self.time_played is None,
        }
        &&& match self.last_played_ts {
            Some(ts) => exists|now_ms: int|
                self.last_played == Some(#[trigger] relative_time_text(ts as int, now_ms)),
            None => self.last_played is None,
        }
    }
}

impl InstanceConfig {
    /// The name that the configuration gives, if it gives one.
    pub open spec fn name(self) -> Option<Seq<char>> {
        match self.general {
            Some(general) => text_of(general.name),
            None => None,
        }
    }

    /// Whether the configuration describes an instance: it has the
    /// `General` group, and the group has a name that is not empty.
    pub open spec fn valid(self) -> bool {
        self.name() matches Some(name) && name.len() > 0
    }

    /// The record that a valid configuration gives for the directory
    /// `path`, together with the component list `components` of its
    /// manifest (empty where there is no usable manifest), when read at the
    /// time `now_ms`.
    pub open spec fn record(
        self,
        path: Seq<char>,
        components: Seq<Component>,
        now_ms: int,
    ) -> InstanceView
        recommends
            self.valid(),
    {
        let general = self.general->0;
        let last_played_ts = count_of(general.last_launch_time);
        let time_played_secs = count_of(general.total_time_played);
        InstanceView {
            name: general.name->0@,
            path: path,
            last_played: match last_played_ts {
                Some(ts) => Some(relative_time_text(ts as int, now_ms)),
                None => None,
            },
            last_played_ts: last_played_ts,
            time_played: match time_played_secs {
                Some(secs) => Some(duration_text(secs as nat)),
                None => None,
            },
            time_played_secs: time_played_secs,
            mc_version: game_version(components),
        }
    }
}

/// The component list of an optional manifest; empty where there is none.
pub open spec fn components_of(pack: Option<MMCPack>) -> Seq<Component> {
    match pack {
        Some(p) => p.components@,
        None => Seq::empty(),
    }
}

/// The record that the directory `path` gives, if any, from what was found
/// in it: `config` is its primary configuration, or `None` where the file
/// is missing, unreadable or malformed; `pack` likewise for the manifest.
pub open spec fn parsed(
    path: Seq<char>,
    config: Option<InstanceConfig>,
    pack: Option<MMCPack>,
    now_ms: int,
) -> Option<InstanceView> {
    match config {
        Some(c) => if c.valid() {
            Some(c.record(path, components_of(pack), now_ms))
        } else {
            None
        },
        None => None,
    }
}

fn clone_text(s: &Option<String>) -> (r: Option<String>)
    ensures
        r == *s,
{
    match s {
        Some(t) => Some(t.clone()),
        None => None,
    }
}

fn parse_count(field: &Option<String>) -> (r: Option<u64>)
    ensures
        r == count_of(*field),
{
    match field {
        Some(text) => parse_u64(text.as_str()),
        None => None,
    }
}

impl Clone for Instance {
    fn clone(&self) -> (r: Self)
        ensures
            r == *self,
    {
        Instance {
            name: self.name.clone(),
            path: self.path.clone(),
            last_played: clone_text(&self.last_played),
            last_played_ts: self.last_played_ts,
            time_played: clone_text(&self.time_played),
            time_played_secs: self.time_played_secs,
            mc_version: clone_text(&self.mc_version),
        }
    }
}

impl MMCPack {
    /// The game's version according to the manifest.
    pub fn game_version(&self) -> (r: Option<String>)
        ensures
            text_of(r) == game_version(self.components@),
    {
        let uid = "net.minecraft".to_owned();
        let mut i: usize = 0;
        assert(self.components@.skip(0) =~= self.components@);
        while i < self.components.len()
            invariant
                i <= self.components.len(),
                uid@ == game_component_uid(),
                game_version(self.components@) == game_version(self.components@.skip(i as int)),
            decreases self.components.len() - i,
        {
            assert(self.components@.skip(i as int)[0] == self.components@[i as int]);
            if self.components[i].uid == uid {
                return clone_text(&self.components[i].version);
            }
            assert(self.components@.skip(i as int).drop_first() == self.components@.skip(
                i + 1,
            ));
            i += 1;
        }
        None
    }
}

impl Instance {
    /// Makes the record of the directory `path` from what was found in it.
    /// `config` is the primary configuration, or `None` where the directory
    /// has no such file or the file cannot be read as one; `pack` is the
    /// component manifest, or `None` likewise. `now_ms` is the time of
    /// reading, in milliseconds since the Unix epoch.
    ///
    /// There is a record exactly when the configuration is there and names
    /// the instance. The record's name is the configuration's name,
    /// character for character. A numeric field that is absent or
    /// malformed leaves its value absent, and nothing about the manifest
    /// keeps the record from being made.
    pub fn parse(
        path: String,
        config: Option<InstanceConfig>,
        pack: Option<MMCPack>,
        now_ms: u128,
    ) -> (r: Option<Instance>)
        ensures
            r is Some <==> (config matches Some(c) && c.valid()),
            config is None ==> r is None,
            r matches Some(inst) ==> inst.name@ == config->0.name()->0,
            r matches Some(inst) ==> inst@.wf(),
            match r {
                Some(inst) => Some(inst@),
                None => None,
            } == parsed(path@, config, pack, now_ms as int),
    {
        let general = match config {
            Some(InstanceConfig { general: Some(g) }) => g,
            _ => {
                return None;
            },
        };
        let name = match general.name {
            Some(n) => n,
            None => {
                return None;
            },
        };
        if name.as_str().is_empty() {
            return None;
        }
        let last_played_ts = parse_count(&general.last_launch_time);
        let last_played = match last_played_ts {
            Some(ts) => Some(format_timestamp_at(ts, now_ms)),
            None => None,
        };
        let time_played_secs = parse_count(&general.total_time_played);
        let time_played = match time_played_secs {
            Some(secs) => Some(format_duration(secs)),
            None => None,
        };
        let mc_version = match &pack {
            Some(p) => p.game_version(),
            None => None,
        };
        Some(
            Instance {
                name,
                path,
                last_played,
                last_played_ts,
                time_played,
                time_played_secs,
                mc_version,
            },
        )
    }
}

} // verus!
