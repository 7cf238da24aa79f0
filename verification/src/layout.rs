//! Where an item is installed, and what its manifest says.

use crate::text::{decimal_digits, decimal_string};
use vstd::prelude::*;

verus! {

/// The game's data directory, below the user's home directory.
pub const GAME_DIR: &'static str = "/.local/share/Paradox Interactive/Stellaris";

/// The directory of installed items, below the game's data directory.
pub const MOD_DIR: &'static str = "/mod/";

/// What the name of an item's directory begins with; the item's
/// identifier follows.
pub const TARGET_PREFIX: &'static str = "steam_";

/// What a manifest's name ends in, after the name of the item's directory.
pub const MOD_FILE_SUFFIX: &'static str = ".mod";

/// The game's registry of installed items, below its data directory.
pub const REGISTRY_FILE: &'static str = "/mods_registry.json";

/// The places that installing or removing an item touches.
#[derive(Clone, Debug, PartialEq, Eq)]
pub struct InstallPaths {
    /// The directory that holds the item's files.
    pub target_dir: String,
    /// The item's manifest, beside its directory.
    pub mod_file: String,
    /// The game's registry of installed items.
    pub mods_registry: String,
}

/// The places as plain text.
pub struct PathsView {
    pub target_dir: Seq<char>,
    pub mod_file: Seq<char>,
    pub mods_registry: Seq<char>,
}

impl View for InstallPaths {
    type V = PathsView;

    open spec fn view(&self) -> PathsView {
        PathsView {
            target_dir: self.target_dir@,
            mod_file: self.mod_file@,
            mods_registry: self.mods_registry@,
        }
    }
}

/// The directory that holds the files of item `item_id`.
pub open spec fn target_dir_spec(home: Seq<char>, item_id: u32) -> Seq<char> {
    home + GAME_DIR@ + MOD_DIR@ + TARGET_PREFIX@ + decimal_digits(item_id as nat)
}

/// The places for item `item_id` of the user whose home directory is
/// `home`.
pub open spec fn paths_spec(home: Seq<char>, item_id: u32) -> PathsView {
    PathsView {
        target_dir: target_dir_spec(home, item_id),
        mod_file: target_dir_spec(home, item_id) + MOD_FILE_SUFFIX@,
        mods_registry: home + GAME_DIR@ + REGISTRY_FILE@,
    }
}

/// Works out the places for an item from the user's home directory and the
/// item's identifier, and from nothing else.
pub fn build_paths(home: &str, item_id: u32) -> (paths: InstallPaths)
    ensures
        paths@ == paths_spec(home@, item_id),
{
    let mut target_dir = String::from_str(home);
    target_dir.append(GAME_DIR);
    target_dir.append(MOD_DIR);
    target_dir.append(TARGET_PREFIX);
    let id = decimal_string(item_id);
    target_dir.append(id.as_str());
    let mut mod_file = target_dir.clone();
    mod_file.append(MOD_FILE_SUFFIX);
    let mut mods_registry = String::from_str(home);
    mods_registry.append(GAME_DIR);
    mods_registry.append(REGISTRY_FILE);
    InstallPaths { target_dir, mod_file, mods_registry }
}

/// What is kept of an installed item.
#[derive(Clone, Debug, PartialEq, Eq)]
pub struct InstallRecord {
    pub item_id: u32,
    pub title: String,
    pub target_dir: String,
}

/// A record as plain values.
pub struct RecordView {
    pub item_id: u32,
    pub title: Seq<char>,
    pub target_dir: Seq<char>,
}

impl View for InstallRecord {
    type V = RecordView;

    open spec fn view(&self) -> RecordView {
        RecordView { item_id: self.item_id, title: self.title@, target_dir: self.target_dir@ }
    }
}

/// The manifest of an item: its title and its directory, one `key="value"`
/// line each.
pub open spec fn mod_file_text_spec(title: Seq<char>, target_dir: Seq<char>) -> Seq<char> {
    "name=\""@ + title + "\"\npath=\""@ + target_dir + "\""@
}

/// Writes out the manifest of an item.
pub fn mod_file_text(title: &str, target_dir: &str) -> (text: String)
    ensures
        text@ == mod_file_text_spec(title@, target_dir@),
{
    let mut text = String::from_str("name=\"");
    text.append(title);
    text.append("\"\npath=\"");
    text.append(target_dir);
    text.append("\"");
    text
}

impl InstallRecord {
    /// The record's manifest.
    pub fn manifest(&self) -> (text: String)
        ensures
            text@ == mod_file_text_spec(self.title@, self.target_dir@),
    {
        mod_file_text(self.title.as_str(), self.target_dir.as_str())
    }
}

} // verus!
