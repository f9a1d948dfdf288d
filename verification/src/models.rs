//! Plain data records of the surrounding application: guild settings and
//! statistics, user progress, wiki query responses, and the banner schedule
//! schema.
//!
//! These types carry data between the store, the wire formats and the
//! command handlers; the handlers themselves do input and output and live
//! outside this library. Wire-format derives stay outside too: a boundary
//! crate keeps mirror types with those derives and converts through the
//! constructors and accessors here.

use vstd::prelude::*;

verus! {

/// Per-guild configuration.
#[derive(Clone, Debug)]
pub struct GuildSettings {
    pub prefix: String,
    pub owner_id: u64,
    pub mute_type: String,
    pub mute_role: u64,
    pub default_mute_duration: u64,
}

/// Per-guild usage counters.
#[derive(Clone, Debug)]
pub struct GuildStats {
    pub commands_ran: u64,
    pub songs_played: u64,
}

/// A user's currencies and pity counters.
#[derive(Clone, Debug)]
pub struct User {
    pub id: u64,
    pub acquaint_fate: u64,
    pub intertwined_fate: u64,
    pub primogems: u64,
    pub standard_pity: u64,
    pub weapon_pity: u64,
    pub character_pity: u64,
}

/// One image record of the random-image service.
#[derive(Clone, Debug)]
pub struct Item {
    pub image_url: String,
    pub id: u32,
}

/// A page of image records.
#[derive(Debug)]
pub struct Items {
    pub items: Vec<Item>,
}

/// A wiki open-search response: the query echoed back, then titles,
/// descriptions and links.
#[derive(Debug)]
pub struct WikiQuery(pub String, pub Vec<String>, pub Vec<String>, pub Vec<String>);

/// A wiki extract response.
#[derive(Debug)]
pub struct QueryContainer {
    pub query: Query,
}

#[derive(Debug)]
pub struct Query {
    pub pages: Pages,
}

/// One wiki page: its identifier, namespace, title and plain-text extract.
#[derive(Debug)]
pub struct Pages {
    pub pageid: i32,
    pub ns: i32,
    pub title: String,
    pub extract: String,
}

/// The kind of a moderation action, as recorded in the moderation log.
#[derive(Clone, Copy, Debug, PartialEq, Eq, Structural)]
pub enum ModType {
    Warn,
    Timeout,
    Untimeout,
    Kick,
    Ban,
    Unban,
}

impl ModType {
    /// The name under which this action kind is stored.
    pub open spec fn name_spec(self) -> Seq<char> {
        match self {
            ModType::Warn => "warn"@,
            ModType::Timeout => "timeout"@,
            ModType::Untimeout => "untimeout"@,
            ModType::Kick => "kick"@,
            ModType::Ban => "ban"@,
            ModType::Unban => "unban"@,
        }
    }

    pub fn as_str(&self) -> (r: &str)
        ensures
            r@ == self.name_spec(),
    {
        match self {
            ModType::Warn => "warn",
            ModType::Timeout => "timeout",
            ModType::Untimeout => "untimeout",
            ModType::Kick => "kick",
            ModType::Ban => "ban",
            ModType::Unban => "unban",
        }
    }
}

/// One phase of a version's banner schedule.
#[derive(Debug)]
pub struct Phase {
    pub phase: u8,
    pub banners: BannerContainer,
}

/// The banners of one phase: the standard-banner version and the event and
/// weapon banners.
#[allow(non_snake_case)]
#[derive(Debug)]
pub struct BannerContainer {
    pub standardVersion: u8,
    pub events: Banner,
    pub weapons: WeaponBanner,
}

/// An event banner: the featured character and the rate-up characters.
#[derive(Debug)]
pub struct Banner {
    pub featured: CharBanner,
    pub rateup: Vec<String>,
}

/// A character banner's display name and featured character.
#[allow(non_snake_case)]
#[derive(Debug)]
pub struct CharBanner {
    pub bannerName: String,
    pub name: String,
}

/// A weapon banner: its name, whether fate points apply, and its featured
/// and rate-up weapons.
#[allow(non_snake_case)]
#[derive(Debug)]
pub struct WeaponBanner {
    pub bannerName: String,
    pub fatepointsystem: bool,
    pub featured: Vec<Weapon>,
    pub rateup: Vec<String>,
}

#[derive(Debug)]
pub struct Weapon {
    pub name: String,
}

/// A version's banner schedule: the version label and its phases.
#[derive(Debug)]
pub struct BannerData {
    patch: String,
    data: Vec<Phase>,
}

impl BannerData {
    /// The version label.
    pub closed spec fn patch_spec(self) -> Seq<char> {
        self.patch@
    }

    /// The phases of the schedule.
    pub closed spec fn data_spec(self) -> Seq<Phase> {
        self.data@
    }

    pub fn new(patch: String, data: Vec<Phase>) -> (r: BannerData)
        ensures
            r.patch_spec() == patch@,
            r.data_spec() == data@,
    {
        BannerData { patch, data }
    }

    pub fn patch(&self) -> (r: &String)
        ensures
            r@ == self.patch_spec(),
    {
        &self.patch
    }

    pub fn data(&self) -> (r: &Vec<Phase>)
        ensures
            r@ == self.data_spec(),
    {
        &self.data
    }
}

} // verus!
