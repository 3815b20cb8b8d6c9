//! Which decoder a file is for, judged by its name.

use crate::byte_utils::same_text;
use vstd::prelude::*;

verus! {

/// The formats that can be decoded.
#[derive(Debug, Clone, Copy, PartialEq, Eq)]
pub enum ViewTarget {
    Spell,
    SpellVisualKit,
    SpellVisualEffectName,
    SpellVisual,
    SpellIcon,
    GroundEffectDoodad,
    GroundEffectTexture,
    BattlemasterList,
    LightSkybox,
    Light,
    LightParams,
    AreaTable,
    WorldMap,
    LoadingScreens,
    PvpDifficulty,
    GameObjectDisplayInfo,
    Talent,
    TalentTab,
    Wmo,
    Adt,
}

/// Why a file has no decoder.
#[derive(Debug, Clone, Copy, PartialEq, Eq)]
pub enum Unsupported {
    /// The file is a table, and no schema is known for a table of its name.
    DbcFile,
    /// No format is known for files with this extension.
    Extension,
}

/// The schema for the table file of this name.
pub open spec fn table_target_of(file_name: Seq<char>) -> Result<ViewTarget, Unsupported> {
    if file_name == "Spell.dbc"@ {
        Ok(ViewTarget::Spell)
    } else if file_name == "SpellVisualKit.dbc"@ {
        Ok(ViewTarget::SpellVisualKit)
    } else if file_name == "SpellVisualEffectName.dbc"@ {
        Ok(ViewTarget::SpellVisualEffectName)
    } else if file_name == "SpellVisual.dbc"@ {
        Ok(ViewTarget::SpellVisual)
    } else if file_name == "SpellIcon.dbc"@ {
        Ok(ViewTarget::SpellIcon)
    } else if file_name == "GroundEffectDoodad.dbc"@ {
        Ok(ViewTarget::GroundEffectDoodad)
    } else if file_name == "GroundEffectTexture.dbc"@ {
        Ok(ViewTarget::GroundEffectTexture)
    } else if file_name == "BattlemasterList.dbc"@ {
        Ok(ViewTarget::BattlemasterList)
    } else if file_name == "LightSkybox.dbc"@ {
        Ok(ViewTarget::LightSkybox)
    } else if file_name == "Light.dbc"@ {
        Ok(ViewTarget::Light)
    } else if file_name == "LightParams.dbc"@ {
        Ok(ViewTarget::LightParams)
    } else if file_name == "AreaTable.dbc"@ {
        Ok(ViewTarget::AreaTable)
    } else if file_name == "Map.dbc"@ {
        Ok(ViewTarget::WorldMap)
    } else if file_name == "LoadingScreens.dbc"@ {
        Ok(ViewTarget::LoadingScreens)
    } else if file_name == "PvpDifficulty.dbc"@ {
        Ok(ViewTarget::PvpDifficulty)
    } else if file_name == "GameObjectDisplayInfo.dbc"@ {
        Ok(ViewTarget::GameObjectDisplayInfo)
    } else if file_name == "Talent.dbc"@ {
        Ok(ViewTarget::Talent)
    } else if file_name == "TalentTab.dbc"@ {
        Ok(ViewTarget::TalentTab)
    } else {
        Err(Unsupported::DbcFile)
    }
}

/// The decoder for a file with this name and this extension. The
/// extension decides the format; for a table, the whole name decides the
/// schema. Names and extensions are compared letter for letter.
pub open spec fn view_target_of(file_name: Seq<char>, extension: Seq<char>) -> Result<
    ViewTarget,
    Unsupported,
> {
    if extension == "dbc"@ {
        table_target_of(file_name)
    } else if extension == "wmo"@ {
        Ok(ViewTarget::Wmo)
    } else if extension == "adt"@ {
        Ok(ViewTarget::Adt)
    } else {
        Err(Unsupported::Extension)
    }
}

/// Picks the schema for a table file by its name.
pub fn table_target(file_name: &str) -> (r: Result<ViewTarget, Unsupported>)
    ensures
        r == table_target_of(file_name@),
{
    if same_text(file_name, "Spell.dbc") {
        Ok(ViewTarget::Spell)
    } else if same_text(file_name, "SpellVisualKit.dbc") {
        Ok(ViewTarget::SpellVisualKit)
    } else if same_text(file_name, "SpellVisualEffectName.dbc") {
        Ok(ViewTarget::SpellVisualEffectName)
    } else if same_text(file_name, "SpellVisual.dbc") {
        Ok(ViewTarget::SpellVisual)
    } else if same_text(file_name, "SpellIcon.dbc") {
        Ok(ViewTarget::SpellIcon)
    } else if same_text(file_name, "GroundEffectDoodad.dbc") {
        Ok(ViewTarget::GroundEffectDoodad)
    } else if same_text(file_name, "GroundEffectTexture.dbc") {
        Ok(ViewTarget::GroundEffectTexture)
    } else if same_text(file_name, "BattlemasterList.dbc") {
        Ok(ViewTarget::BattlemasterList)
    } else if same_text(file_name, "LightSkybox.dbc") {
        Ok(ViewTarget::LightSkybox)
    } else if same_text(file_name, "Light.dbc") {
        Ok(ViewTarget::Light)
    } else if same_text(file_name, "LightParams.dbc") {
        Ok(ViewTarget::LightParams)
    } else if same_text(file_name, "AreaTable.dbc") {
        Ok(ViewTarget::AreaTable)
    } else if same_text(file_name, "Map.dbc") {
        Ok(ViewTarget::WorldMap)
    } else if same_text(file_name, "LoadingScreens.dbc") {
        Ok(ViewTarget::LoadingScreens)
    } else if same_text(file_name, "PvpDifficulty.dbc") {
        Ok(ViewTarget::PvpDifficulty)
    } else if same_text(file_name, "GameObjectDisplayInfo.dbc") {
        Ok(ViewTarget::GameObjectDisplayInfo)
    } else if same_text(file_name, "Talent.dbc") {
        Ok(ViewTarget::Talent)
    } else if same_text(file_name, "TalentTab.dbc") {
        Ok(ViewTarget::TalentTab)
    } else {
        Err(Unsupported::DbcFile)
    }
}

/// Picks the decoder for a file by its name and its extension.
pub fn view_target(file_name: &str, extension: &str) -> (r: Result<ViewTarget, Unsupported>)
    ensures
        r == view_target_of(file_name@, extension@),
{
    if same_text(extension, "dbc") {
        table_target(file_name)
    } else if same_text(extension, "wmo") {
        Ok(ViewTarget::Wmo)
    } else if same_text(extension, "adt") {
        Ok(ViewTarget::Adt)
    } else {
        Err(Unsupported::Extension)
    }
}

} // verus!
