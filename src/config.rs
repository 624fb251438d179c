//! The configuration the scripted actions read: fixed name-mapping tables
//! and the parsing of configuration values that the library owns.
use crate::catalog::bytes_eq;
use vstd::prelude::*;
use vstd::string::StringSliceAdditionalSpecFns;
use vstd::utf8::encode_utf8_decode_utf8;

verus! {

/// A configuration value could not be read as what it stands for.
#[derive(Debug, Clone, Copy, PartialEq, Eq, Structural)]
pub struct ConfigParseFailure;

/// Character selector, and the name of the character's name-identifier
/// definition object.
pub open spec fn character_table() -> Seq<(&'static str, &'static str)> {
    seq![
        ("WaterMonk", "GD_WaterMonk.NameId_WaterMonk"),
        ("SunPriestess", "GD_SunPriestess.NameId_SunPriestess_Poplar"),
        ("SoulCollector", "GD_SoulCollector.NameId_SoulCollector"),
        ("PlagueBringer", "GD_PlagueBringer.NameId_PlagueBringer"),
        ("RocketHawk", "GD_RocketHawk.NameId_RocketHawk"),
        ("DwarvenWarrior", "GD_DwarvenWarrior.NameId_DwarvenWarrior"),
        ("AssaultJump", "GD_AssaultJump.NameId_AssaultJump_Poplar"),
        ("DarkAssassin", "GD_DarkAssassin.NameId_DarkAssassin"),
        ("LeapingLuchador", "GD_LeapingLuchador.NameId_LeapingLuchador"),
        ("Bombirdier", "GD_Bombirdier.NameId_Bombirdier"),
        ("Blackguard", "GD_Blackguard.NameId_Blackguard"),
        ("PapaShotgun", "GD_PapaShotgun.NameId_PapaShotgun"),
        ("SpiritMech", "GD_SpiritMech.NameId_SpiritMech"),
        ("IceGolem", "GD_IceGolem.NameId_IceGolem"),
        ("SideKick", "GD_Sidekick.NameId_SideKick"),
        ("TacticalBuilder", "GD_TacticalBuilder.NameId_TacticalBuilder"),
        ("GentSniper", "gd_gentsniper.NameId_GentSniper"),
        ("MutantFist", "GD_MutantFist.NameId_MutantFist"),
        ("TribalHealer", "gd_tribalhealer.NameId_TribalHealer"),
        ("MachineGunner", "gd_machinegunner.NameId_MachineGunner"),
        ("ChaosMage", "GD_ChaosMage.NameId_ChaosMage"),
        ("ModernSoldier", "gd_modernsoldier.NameId_ModernSoldier_Poplar"),
        ("CornerSneaker", "GD_CornerSneaker.NameId_CornerSneaker"),
        ("MageBlade", "GD_MageBlade.NameId_MageBlade_Poplar"),
        ("DeathBlade", "gd_deathblade.NameId_DeathBlade"),
        ("RogueCommander", "GD_RogueCommander.NameId_RogueCommander"),
        ("BoyAndDjinn", "GD_BoyAndDjinn.NameId_BoyAndDjinn"),
        ("DarkElf", "gd_darkelfranger.NameId_DarkElfRanger"),
        ("PenguinMech", "GD_PenguinMech.NameId_PenguinMech"),
        ("RogueSoldier", "GD_RogueSoldier.NameId_RogueSoldier")
    ]
}

/// The levels a map selector may name.
pub open spec fn map_table() -> Seq<&'static str> {
    seq![
        "PvE_Prologue_P",
        "Caverns_P",
        "Portal_P",
        "Captains_P",
        "Evacuation_P",
        "Ruins_P",
        "Observatory_p",
        "Refinery_P",
        "Cathedral_P",
        "Slums_P",
        "Toby_Raid_P",
        "CullingFacility_P",
        "TallTales_P",
        "Heart_Ekkunar_P"
    ]
}

fn character_pairs() -> (r: Vec<(&'static str, &'static str)>)
    ensures
        r@ == character_table(),
{
    let v = vec![
        ("WaterMonk", "GD_WaterMonk.NameId_WaterMonk"),
        ("SunPriestess", "GD_SunPriestess.NameId_SunPriestess_Poplar"),
        ("SoulCollector", "GD_SoulCollector.NameId_SoulCollector"),
        ("PlagueBringer", "GD_PlagueBringer.NameId_PlagueBringer"),
        ("RocketHawk", "GD_RocketHawk.NameId_RocketHawk"),
        ("DwarvenWarrior", "GD_DwarvenWarrior.NameId_DwarvenWarrior"),
        ("AssaultJump", "GD_AssaultJump.NameId_AssaultJump_Poplar"),
        ("DarkAssassin", "GD_DarkAssassin.NameId_DarkAssassin"),
        ("LeapingLuchador", "GD_LeapingLuchador.NameId_LeapingLuchador"),
        ("Bombirdier", "GD_Bombirdier.NameId_Bombirdier"),
        ("Blackguard", "GD_Blackguard.NameId_Blackguard"),
        ("PapaShotgun", "GD_PapaShotgun.NameId_PapaShotgun"),
        ("SpiritMech", "GD_SpiritMech.NameId_SpiritMech"),
        ("IceGolem", "GD_IceGolem.NameId_IceGolem"),
        ("SideKick", "GD_Sidekick.NameId_SideKick"),
        ("TacticalBuilder", "GD_TacticalBuilder.NameId_TacticalBuilder"),
        ("GentSniper", "gd_gentsniper.NameId_GentSniper"),
        ("MutantFist", "GD_MutantFist.NameId_MutantFist"),
        ("TribalHealer", "gd_tribalhealer.NameId_TribalHealer"),
        ("MachineGunner", "gd_machinegunner.NameId_MachineGunner"),
        ("ChaosMage", "GD_ChaosMage.NameId_ChaosMage"),
        ("ModernSoldier", "gd_modernsoldier.NameId_ModernSoldier_Poplar"),
        ("CornerSneaker", "GD_CornerSneaker.NameId_CornerSneaker"),
        ("MageBlade", "GD_MageBlade.NameId_MageBlade_Poplar"),
        ("DeathBlade", "gd_deathblade.NameId_DeathBlade"),
        ("RogueCommander", "GD_RogueCommander.NameId_RogueCommander"),
        ("BoyAndDjinn", "GD_BoyAndDjinn.NameId_BoyAndDjinn"),
        ("DarkElf", "gd_darkelfranger.NameId_DarkElfRanger"),
        ("PenguinMech", "GD_PenguinMech.NameId_PenguinMech"),
        ("RogueSoldier", "GD_RogueSoldier.NameId_RogueSoldier")
    ];
    assert(v@ =~= character_table());
    v
}

fn map_names() -> (r: Vec<&'static str>)
    ensures
        r@ == map_table(),
{
    let v = vec![
        "PvE_Prologue_P",
        "Caverns_P",
        "Portal_P",
        "Captains_P",
        "Evacuation_P",
        "Ruins_P",
        "Observatory_p",
        "Refinery_P",
        "Cathedral_P",
        "Slums_P",
        "Toby_Raid_P",
        "CullingFacility_P",
        "TallTales_P",
        "Heart_Ekkunar_P"
    ];
    assert(v@ =~= map_table());
    v
}

/// The value of the first pair of `t`, from `i` on, whose key is `key`.
pub open spec fn lookup_from(t: Seq<(&'static str, &'static str)>, key: Seq<u8>, i: int) -> Option<&'static str>
    decreases t.len() - i,
{
    if i < 0 || i >= t.len() {
        None
    } else if t[i].0.spec_bytes() == key {
        Some(t[i].1)
    } else {
        lookup_from(t, key, i + 1)
    }
}

/// The name-identifier object of the character that `key` selects.
pub open spec fn character_name_id_spec(key: Seq<u8>) -> Option<&'static str> {
    lookup_from(character_table(), key, 0)
}

/// `key` names one of the known levels.
pub open spec fn is_known_map(key: Seq<u8>) -> bool {
    exists|i: int| 0 <= i < map_table().len() && (#[trigger] map_table()[i]).spec_bytes() == key
}

/// Text as a NUL-terminated UTF-16 string, one unit per byte.
pub open spec fn wide_cstring(s: Seq<u8>) -> Seq<u16> {
    s.map_values(|b: u8| b as u16).push(0u16)
}

/// The console command that opens a level.
pub const OPEN_COMMAND_PREFIX: &'static str = "open ";

/// The name of the character's name-identifier definition object, for a
/// character selector; none for an unknown selector.
pub fn character_name_id(key: &[u8]) -> (r: Option<&'static str>)
    ensures
        r == character_name_id_spec(key@),
{
    let t = character_pairs();
    let mut i: usize = 0;
    while i < t.len()
        invariant
            t@ == character_table(),
            i <= t@.len(),
            character_name_id_spec(key@) == lookup_from(t@, key@, i as int),
        decreases t@.len() - i,
    {
        let (k, v) = t[i];
        if bytes_eq(k.as_bytes(), key) {
            return Some(v);
        }
        i = i + 1;
    }
    None
}

/// Whether `key` names one of the known levels.
pub fn known_map(key: &[u8]) -> (r: bool)
    ensures
        r == is_known_map(key@),
{
    let t = map_names();
    let mut i: usize = 0;
    while i < t.len()
        invariant
            t@ == map_table(),
            i <= t@.len(),
            forall|j: int| 0 <= j < i ==> (#[trigger] map_table()[j]).spec_bytes() != key@,
        decreases t@.len() - i,
    {
        if bytes_eq(t[i].as_bytes(), key) {
            return true;
        }
        i = i + 1;
    }
    false
}

/// The wide, NUL-terminated console command that opens the level `key`
/// names; none for an unknown level.
pub fn map_open_command(key: &[u8]) -> (r: Option<Vec<u16>>)
    ensures
        match r {
            Some(v) => is_known_map(key@) && v@ == wide_cstring(OPEN_COMMAND_PREFIX.spec_bytes() + key@),
            None => !is_known_map(key@),
        },
{
    if !known_map(key) {
        return None;
    }
    let prefix = OPEN_COMMAND_PREFIX.as_bytes();
    let ghost text = prefix@ + key@;
    let mut out: Vec<u16> = Vec::new();
    let mut i: usize = 0;
    while i < prefix.len()
        invariant
            text == prefix@ + key@,
            i <= prefix@.len(),
            out@ == text.subrange(0, i as int).map_values(|b: u8| b as u16),
        decreases prefix@.len() - i,
    {
        out.push(prefix[i] as u16);
        i = i + 1;
        assert(out@ =~= text.subrange(0, i as int).map_values(|b: u8| b as u16));
    }
    let mut j: usize = 0;
    while j < key.len()
        invariant
            text == prefix@ + key@,
            j <= key@.len(),
            out@ == text.subrange(0, prefix@.len() + j).map_values(|b: u8| b as u16),
        decreases key@.len() - j,
    {
        out.push(key[j] as u16);
        j = j + 1;
        assert(out@ =~= text.subrange(0, prefix@.len() + j).map_values(|b: u8| b as u16));
    }
    assert(text.subrange(0, text.len() as int) =~= text);
    out.push(0u16);
    Some(out)
}

/// Reads a flag written `true` or `false`.
pub fn parse_bool(s: &str) -> (r: Result<bool, ConfigParseFailure>)
    ensures
        r == (if s@ == "true"@ {
            Ok::<bool, ConfigParseFailure>(true)
        } else if s@ == "false"@ {
            Ok(false)
        } else {
            Err(ConfigParseFailure)
        }),
{
    if str_eq(s, "true") {
        Ok(true)
    } else if str_eq(s, "false") {
        Ok(false)
    } else {
        Err(ConfigParseFailure)
    }
}

/// Character-wise equality of two strings.
fn str_eq(a: &str, b: &str) -> (r: bool)
    ensures
        r == (a@ == b@),
{
    let n = a.unicode_len();
    if n != b.unicode_len() {
        return false;
    }
    let mut i: usize = 0;
    while i < n
        invariant
            n == a@.len(),
            n == b@.len(),
            i <= n,
            forall|j: int| 0 <= j < i ==> a@[j] == b@[j],
        decreases n - i,
    {
        if a.get_char(i) != b.get_char(i) {
            return false;
        }
        i = i + 1;
    }
    assert(a@ =~= b@);
    true
}

/// Different strings have different UTF-8 encodings.
proof fn lemma_distinct_bytes(a: &str, b: &str)
    requires
        a@ != b@,
    ensures
        a.spec_bytes() != b.spec_bytes(),
{
    encode_utf8_decode_utf8(a@);
    encode_utf8_decode_utf8(b@);
}

proof fn lemma_character_entries()
    ensures
        character_table().len() == 30,
        character_table()[0].0 == "WaterMonk",
        character_table()[1].0 == "SunPriestess",
        character_table()[2].0 == "SoulCollector",
        character_table()[3].0 == "PlagueBringer",
        character_table()[4].0 == "RocketHawk",
        character_table()[5].0 == "DwarvenWarrior",
        character_table()[6].0 == "AssaultJump",
        character_table()[7].0 == "DarkAssassin",
        character_table()[8].0 == "LeapingLuchador",
        character_table()[9].0 == "Bombirdier",
        character_table()[10].0 == "Blackguard",
        character_table()[11].0 == "PapaShotgun",
        character_table()[12].0 == "SpiritMech",
        character_table()[13].0 == "IceGolem",
        character_table()[14].0 == "SideKick",
        character_table()[15].0 == "TacticalBuilder",
        character_table()[16].0 == "GentSniper",
        character_table()[17].0 == "MutantFist",
        character_table()[18].0 == "TribalHealer",
        character_table()[19].0 == "MachineGunner",
        character_table()[20].0 == "ChaosMage",
        character_table()[21].0 == "ModernSoldier",
        character_table()[22].0 == "CornerSneaker",
        character_table()[23].0 == "MageBlade",
        character_table()[24].0 == "DeathBlade",
        character_table()[25].0 == "RogueCommander",
        character_table()[26].0 == "BoyAndDjinn",
        character_table()[27].0 == "DarkElf",
        character_table()[28].0 == "PenguinMech",
        character_table()[29].0 == "RogueSoldier",
{
    let t = character_table();
}

proof fn lemma_character_row_0()
    ensures
        forall|j: int| 0 < j < 30 ==> character_table()[0].0.spec_bytes() != #[trigger] character_table()[j].0.spec_bytes(),
{
    lemma_character_entries();
    reveal_strlit("WaterMonk");
    reveal_strlit("SunPriestess");
    reveal_strlit("SoulCollector");
    reveal_strlit("PlagueBringer");
    reveal_strlit("RocketHawk");
    reveal_strlit("DwarvenWarrior");
    reveal_strlit("AssaultJump");
    reveal_strlit("DarkAssassin");
    reveal_strlit("LeapingLuchador");
    reveal_strlit("Bombirdier");
    reveal_strlit("Blackguard");
    reveal_strlit("PapaShotgun");
    reveal_strlit("SpiritMech");
    reveal_strlit("IceGolem");
    reveal_strlit("SideKick");
    reveal_strlit("TacticalBuilder");
    reveal_strlit("GentSniper");
    reveal_strlit("MutantFist");
    reveal_strlit("TribalHealer");
    reveal_strlit("MachineGunner");
    reveal_strlit("ChaosMage");
    reveal_strlit("ModernSoldier");
    reveal_strlit("CornerSneaker");
    reveal_strlit("MageBlade");
    reveal_strlit("DeathBlade");
    reveal_strlit("RogueCommander");
    reveal_strlit("BoyAndDjinn");
    reveal_strlit("DarkElf");
    reveal_strlit("PenguinMech");
    reveal_strlit("RogueSoldier");
    assert("WaterMonk"@.len() != "SunPriestess"@.len());
    lemma_distinct_bytes("WaterMonk", "SunPriestess");
    assert("WaterMonk"@.len() != "SoulCollector"@.len());
    lemma_distinct_bytes("WaterMonk", "SoulCollector");
    assert("WaterMonk"@.len() != "PlagueBringer"@.len());
    lemma_distinct_bytes("WaterMonk", "PlagueBringer");
    assert("WaterMonk"@.len() != "RocketHawk"@.len());
    lemma_distinct_bytes("WaterMonk", "RocketHawk");
    assert("WaterMonk"@.len() != "DwarvenWarrior"@.len());
    lemma_distinct_bytes("WaterMonk", "DwarvenWarrior");
    assert("WaterMonk"@.len() != "AssaultJump"@.len());
    lemma_distinct_bytes("WaterMonk", "AssaultJump");
    assert("WaterMonk"@.len() != "DarkAssassin"@.len());
    lemma_distinct_bytes("WaterMonk", "DarkAssassin");
    assert("WaterMonk"@.len() != "LeapingLuchador"@.len());
    lemma_distinct_bytes("WaterMonk", "LeapingLuchador");
    assert("WaterMonk"@.len() != "Bombirdier"@.len());
    lemma_distinct_bytes("WaterMonk", "Bombirdier");
    assert("WaterMonk"@.len() != "Blackguard"@.len());
    lemma_distinct_bytes("WaterMonk", "Blackguard");
    assert("WaterMonk"@.len() != "PapaShotgun"@.len());
    lemma_distinct_bytes("WaterMonk", "PapaShotgun");
    assert("WaterMonk"@.len() != "SpiritMech"@.len());
    lemma_distinct_bytes("WaterMonk", "SpiritMech");
    assert("WaterMonk"@.len() != "IceGolem"@.len());
    lemma_distinct_bytes("WaterMonk", "IceGolem");
    assert("WaterMonk"@.len() != "SideKick"@.len());
    lemma_distinct_bytes("WaterMonk", "SideKick");
    assert("WaterMonk"@.len() != "TacticalBuilder"@.len());
    lemma_distinct_bytes("WaterMonk", "TacticalBuilder");
    assert("WaterMonk"@.len() != "GentSniper"@.len());
    lemma_distinct_bytes("WaterMonk", "GentSniper");
    assert("WaterMonk"@.len() != "MutantFist"@.len());
    lemma_distinct_bytes("WaterMonk", "MutantFist");
    assert("WaterMonk"@.len() != "TribalHealer"@.len());
    lemma_distinct_bytes("WaterMonk", "TribalHealer");
    assert("WaterMonk"@.len() != "MachineGunner"@.len());
    lemma_distinct_bytes("WaterMonk", "MachineGunner");
    assert("WaterMonk"@[0] != "ChaosMage"@[0]);
    lemma_distinct_bytes("WaterMonk", "ChaosMage");
    assert("WaterMonk"@.len() != "ModernSoldier"@.len());
    lemma_distinct_bytes("WaterMonk", "ModernSoldier");
    assert("WaterMonk"@.len() != "CornerSneaker"@.len());
    lemma_distinct_bytes("WaterMonk", "CornerSneaker");
    assert("WaterMonk"@[0] != "MageBlade"@[0]);
    lemma_distinct_bytes("WaterMonk", "MageBlade");
    assert("WaterMonk"@.len() != "DeathBlade"@.len());
    lemma_distinct_bytes("WaterMonk", "DeathBlade");
    assert("WaterMonk"@.len() != "RogueCommander"@.len());
    lemma_distinct_bytes("WaterMonk", "RogueCommander");
    assert("WaterMonk"@.len() != "BoyAndDjinn"@.len());
    lemma_distinct_bytes("WaterMonk", "BoyAndDjinn");
    assert("WaterMonk"@.len() != "DarkElf"@.len());
    lemma_distinct_bytes("WaterMonk", "DarkElf");
    assert("WaterMonk"@.len() != "PenguinMech"@.len());
    lemma_distinct_bytes("WaterMonk", "PenguinMech");
    assert("WaterMonk"@.len() != "RogueSoldier"@.len());
    lemma_distinct_bytes("WaterMonk", "RogueSoldier");
}

proof fn lemma_character_row_1()
    ensures
        forall|j: int| 1 < j < 30 ==> character_table()[1].0.spec_bytes() != #[trigger] character_table()[j].0.spec_bytes(),
{
    lemma_character_entries();
    reveal_strlit("SunPriestess");
    reveal_strlit("SoulCollector");
    reveal_strlit("PlagueBringer");
    reveal_strlit("RocketHawk");
    reveal_strlit("DwarvenWarrior");
    reveal_strlit("AssaultJump");
    reveal_strlit("DarkAssassin");
    reveal_strlit("LeapingLuchador");
    reveal_strlit("Bombirdier");
    reveal_strlit("Blackguard");
    reveal_strlit("PapaShotgun");
    reveal_strlit("SpiritMech");
    reveal_strlit("IceGolem");
    reveal_strlit("SideKick");
    reveal_strlit("TacticalBuilder");
    reveal_strlit("GentSniper");
    reveal_strlit("MutantFist");
    reveal_strlit("TribalHealer");
    reveal_strlit("MachineGunner");
    reveal_strlit("ChaosMage");
    reveal_strlit("ModernSoldier");
    reveal_strlit("CornerSneaker");
    reveal_strlit("MageBlade");
    reveal_strlit("DeathBlade");
    reveal_strlit("RogueCommander");
    reveal_strlit("BoyAndDjinn");
    reveal_strlit("DarkElf");
    reveal_strlit("PenguinMech");
    reveal_strlit("RogueSoldier");
    assert("SunPriestess"@.len() != "SoulCollector"@.len());
    lemma_distinct_bytes("SunPriestess", "SoulCollector");
    assert("SunPriestess"@.len() != "PlagueBringer"@.len());
    lemma_distinct_bytes("SunPriestess", "PlagueBringer");
    assert("SunPriestess"@.len() != "RocketHawk"@.len());
    lemma_distinct_bytes("SunPriestess", "RocketHawk");
    assert("SunPriestess"@.len() != "DwarvenWarrior"@.len());
    lemma_distinct_bytes("SunPriestess", "DwarvenWarrior");
    assert("SunPriestess"@.len() != "AssaultJump"@.len());
    lemma_distinct_bytes("SunPriestess", "AssaultJump");
    assert("SunPriestess"@[0] != "DarkAssassin"@[0]);
    lemma_distinct_bytes("SunPriestess", "DarkAssassin");
    assert("SunPriestess"@.len() != "LeapingLuchador"@.len());
    lemma_distinct_bytes("SunPriestess", "LeapingLuchador");
    assert("SunPriestess"@.len() != "Bombirdier"@.len());
    lemma_distinct_bytes("SunPriestess", "Bombirdier");
    assert("SunPriestess"@.len() != "Blackguard"@.len());
    lemma_distinct_bytes("SunPriestess", "Blackguard");
    assert("SunPriestess"@.len() != "PapaShotgun"@.len());
    lemma_distinct_bytes("SunPriestess", "PapaShotgun");
    assert("SunPriestess"@.len() != "SpiritMech"@.len());
    lemma_distinct_bytes("SunPriestess", "SpiritMech");
    assert("SunPriestess"@.len() != "IceGolem"@.len());
    lemma_distinct_bytes("SunPriestess", "IceGolem");
    assert("SunPriestess"@.len() != "SideKick"@.len());
    lemma_distinct_bytes("SunPriestess", "SideKick");
    assert("SunPriestess"@.len() != "TacticalBuilder"@.len());
    lemma_distinct_bytes("SunPriestess", "TacticalBuilder");
    assert("SunPriestess"@.len() != "GentSniper"@.len());
    lemma_distinct_bytes("SunPriestess", "GentSniper");
    assert("SunPriestess"@.len() != "MutantFist"@.len());
    lemma_distinct_bytes("SunPriestess", "MutantFist");
    assert("SunPriestess"@[0] != "TribalHealer"@[0]);
    lemma_distinct_bytes("SunPriestess", "TribalHealer");
    assert("SunPriestess"@.len() != "MachineGunner"@.len());
    lemma_distinct_bytes("SunPriestess", "MachineGunner");
    assert("SunPriestess"@.len() != "ChaosMage"@.len());
    lemma_distinct_bytes("SunPriestess", "ChaosMage");
    assert("SunPriestess"@.len() != "ModernSoldier"@.len());
    lemma_distinct_bytes("SunPriestess", "ModernSoldier");
    assert("SunPriestess"@.len() != "CornerSneaker"@.len());
    lemma_distinct_bytes("SunPriestess", "CornerSneaker");
    assert("SunPriestess"@.len() != "MageBlade"@.len());
    lemma_distinct_bytes("SunPriestess", "MageBlade");
    assert("SunPriestess"@.len() != "DeathBlade"@.len());
    lemma_distinct_bytes("SunPriestess", "DeathBlade");
    assert("SunPriestess"@.len() != "RogueCommander"@.len());
    lemma_distinct_bytes("SunPriestess", "RogueCommander");
    assert("SunPriestess"@.len() != "BoyAndDjinn"@.len());
    lemma_distinct_bytes("SunPriestess", "BoyAndDjinn");
    assert("SunPriestess"@.len() != "DarkElf"@.len());
    lemma_distinct_bytes("SunPriestess", "DarkElf");
    assert("SunPriestess"@.len() != "PenguinMech"@.len());
    lemma_distinct_bytes("SunPriestess", "PenguinMech");
    assert("SunPriestess"@[0] != "RogueSoldier"@[0]);
    lemma_distinct_bytes("SunPriestess", "RogueSoldier");
}

proof fn lemma_character_row_2()
    ensures
        forall|j: int| 2 < j < 30 ==> character_table()[2].0.spec_bytes() != #[trigger] character_table()[j].0.spec_bytes(),
{
    lemma_character_entries();
    reveal_strlit("SoulCollector");
    reveal_strlit("PlagueBringer");
    reveal_strlit("RocketHawk");
    reveal_strlit("DwarvenWarrior");
    reveal_strlit("AssaultJump");
    reveal_strlit("DarkAssassin");
    reveal_strlit("LeapingLuchador");
    reveal_strlit("Bombirdier");
    reveal_strlit("Blackguard");
    reveal_strlit("PapaShotgun");
    reveal_strlit("SpiritMech");
    reveal_strlit("IceGolem");
    reveal_strlit("SideKick");
    reveal_strlit("TacticalBuilder");
    reveal_strlit("GentSniper");
    reveal_strlit("MutantFist");
    reveal_strlit("TribalHealer");
    reveal_strlit("MachineGunner");
    reveal_strlit("ChaosMage");
    reveal_strlit("ModernSoldier");
    reveal_strlit("CornerSneaker");
    reveal_strlit("MageBlade");
    reveal_strlit("DeathBlade");
    reveal_strlit("RogueCommander");
    reveal_strlit("BoyAndDjinn");
    reveal_strlit("DarkElf");
    reveal_strlit("PenguinMech");
    reveal_strlit("RogueSoldier");
    assert("SoulCollector"@[0] != "PlagueBringer"@[0]);
    lemma_distinct_bytes("SoulCollector", "PlagueBringer");
    assert("SoulCollector"@.len() != "RocketHawk"@.len());
    lemma_distinct_bytes("SoulCollector", "RocketHawk");
    assert("SoulCollector"@.len() != "DwarvenWarrior"@.len());
    lemma_distinct_bytes("SoulCollector", "DwarvenWarrior");
    assert("SoulCollector"@.len() != "AssaultJump"@.len());
    lemma_distinct_bytes("SoulCollector", "AssaultJump");
    assert("SoulCollector"@.len() != "DarkAssassin"@.len());
    lemma_distinct_bytes("SoulCollector", "DarkAssassin");
    assert("SoulCollector"@.len() != "LeapingLuchador"@.len());
    lemma_distinct_bytes("SoulCollector", "LeapingLuchador");
    assert("SoulCollector"@.len() != "Bombirdier"@.len());
    lemma_distinct_bytes("SoulCollector", "Bombirdier");
    assert("SoulCollector"@.len() != "Blackguard"@.len());
    lemma_distinct_bytes("SoulCollector", "Blackguard");
    assert("SoulCollector"@.len() != "PapaShotgun"@.len());
    lemma_distinct_bytes("SoulCollector", "PapaShotgun");
    assert("SoulCollector"@.len() != "SpiritMech"@.len());
    lemma_distinct_bytes("SoulCollector", "SpiritMech");
    assert("SoulCollector"@.len() != "IceGolem"@.len());
    lemma_distinct_bytes("SoulCollector", "IceGolem");
    assert("SoulCollector"@.len() != "SideKick"@.len());
    lemma_distinct_bytes("SoulCollector", "SideKick");
    assert("SoulCollector"@.len() != "TacticalBuilder"@.len());
    lemma_distinct_bytes("SoulCollector", "TacticalBuilder");
    assert("SoulCollector"@.len() != "GentSniper"@.len());
    lemma_distinct_bytes("SoulCollector", "GentSniper");
    assert("SoulCollector"@.len() != "MutantFist"@.len());
    lemma_distinct_bytes("SoulCollector", "MutantFist");
    assert("SoulCollector"@.len() != "TribalHealer"@.len());
    lemma_distinct_bytes("SoulCollector", "TribalHealer");
    assert("SoulCollector"@[0] != "MachineGunner"@[0]);
    lemma_distinct_bytes("SoulCollector", "MachineGunner");
    assert("SoulCollector"@.len() != "ChaosMage"@.len());
    lemma_distinct_bytes("SoulCollector", "ChaosMage");
    assert("SoulCollector"@[0] != "ModernSoldier"@[0]);
    lemma_distinct_bytes("SoulCollector", "ModernSoldier");
    assert("SoulCollector"@[0] != "CornerSneaker"@[0]);
    lemma_distinct_bytes("SoulCollector", "CornerSneaker");
    assert("SoulCollector"@.len() != "MageBlade"@.len());
    lemma_distinct_bytes("SoulCollector", "MageBlade");
    assert("SoulCollector"@.len() != "DeathBlade"@.len());
    lemma_distinct_bytes("SoulCollector", "DeathBlade");
    assert("SoulCollector"@.len() != "RogueCommander"@.len());
    lemma_distinct_bytes("SoulCollector", "RogueCommander");
    assert("SoulCollector"@.len() != "BoyAndDjinn"@.len());
    lemma_distinct_bytes("SoulCollector", "BoyAndDjinn");
    assert("SoulCollector"@.len() != "DarkElf"@.len());
    lemma_distinct_bytes("SoulCollector", "DarkElf");
    assert("SoulCollector"@.len() != "PenguinMech"@.len());
    lemma_distinct_bytes("SoulCollector", "PenguinMech");
    assert("SoulCollector"@.len() != "RogueSoldier"@.len());
    lemma_distinct_bytes("SoulCollector", "RogueSoldier");
}

proof fn lemma_character_row_3()
    ensures
        forall|j: int| 3 < j < 30 ==> character_table()[3].0.spec_bytes() != #[trigger] character_table()[j].0.spec_bytes(),
{
    lemma_character_entries();
    reveal_strlit("PlagueBringer");
    reveal_strlit("RocketHawk");
    reveal_strlit("DwarvenWarrior");
    reveal_strlit("AssaultJump");
    reveal_strlit("DarkAssassin");
    reveal_strlit("LeapingLuchador");
    reveal_strlit("Bombirdier");
    reveal_strlit("Blackguard");
    reveal_strlit("PapaShotgun");
    reveal_strlit("SpiritMech");
    reveal_strlit("IceGolem");
    reveal_strlit("SideKick");
    reveal_strlit("TacticalBuilder");
    reveal_strlit("GentSniper");
    reveal_strlit("MutantFist");
    reveal_strlit("TribalHealer");
    reveal_strlit("MachineGunner");
    reveal_strlit("ChaosMage");
    reveal_strlit("ModernSoldier");
    reveal_strlit("CornerSneaker");
    reveal_strlit("MageBlade");
    reveal_strlit("DeathBlade");
    reveal_strlit("RogueCommander");
    reveal_strlit("BoyAndDjinn");
    reveal_strlit("DarkElf");
    reveal_strlit("PenguinMech");
    reveal_strlit("RogueSoldier");
    assert("PlagueBringer"@.len() != "RocketHawk"@.len());
    lemma_distinct_bytes("PlagueBringer", "RocketHawk");
    assert("PlagueBringer"@.len() != "DwarvenWarrior"@.len());
    lemma_distinct_bytes("PlagueBringer", "DwarvenWarrior");
    assert("PlagueBringer"@.len() != "AssaultJump"@.len());
    lemma_distinct_bytes("PlagueBringer", "AssaultJump");
    assert("PlagueBringer"@.len() != "DarkAssassin"@.len());
    lemma_distinct_bytes("PlagueBringer", "DarkAssassin");
    assert("PlagueBringer"@.len() != "LeapingLuchador"@.len());
    lemma_distinct_bytes("PlagueBringer", "LeapingLuchador");
    assert("PlagueBringer"@.len() != "Bombirdier"@.len());
    lemma_distinct_bytes("PlagueBringer", "Bombirdier");
    assert("PlagueBringer"@.len() != "Blackguard"@.len());
    lemma_distinct_bytes("PlagueBringer", "Blackguard");
    assert("PlagueBringer"@.len() != "PapaShotgun"@.len());
    lemma_distinct_bytes("PlagueBringer", "PapaShotgun");
    assert("PlagueBringer"@.len() != "SpiritMech"@.len());
    lemma_distinct_bytes("PlagueBringer", "SpiritMech");
    assert("PlagueBringer"@.len() != "IceGolem"@.len());
    lemma_distinct_bytes("PlagueBringer", "IceGolem");
    assert("PlagueBringer"@.len() != "SideKick"@.len());
    lemma_distinct_bytes("PlagueBringer", "SideKick");
    assert("PlagueBringer"@.len() != "TacticalBuilder"@.len());
    lemma_distinct_bytes("PlagueBringer", "TacticalBuilder");
    assert("PlagueBringer"@.len() != "GentSniper"@.len());
    lemma_distinct_bytes("PlagueBringer", "GentSniper");
    assert("PlagueBringer"@.len() != "MutantFist"@.len());
    lemma_distinct_bytes("PlagueBringer", "MutantFist");
    assert("PlagueBringer"@.len() != "TribalHealer"@.len());
    lemma_distinct_bytes("PlagueBringer", "TribalHealer");
    assert("PlagueBringer"@[0] != "MachineGunner"@[0]);
    lemma_distinct_bytes("PlagueBringer", "MachineGunner");
    assert("PlagueBringer"@.len() != "ChaosMage"@.len());
    lemma_distinct_bytes("PlagueBringer", "ChaosMage");
    assert("PlagueBringer"@[0] != "ModernSoldier"@[0]);
    lemma_distinct_bytes("PlagueBringer", "ModernSoldier");
    assert("PlagueBringer"@[0] != "CornerSneaker"@[0]);
    lemma_distinct_bytes("PlagueBringer", "CornerSneaker");
    assert("PlagueBringer"@.len() != "MageBlade"@.len());
    lemma_distinct_bytes("PlagueBringer", "MageBlade");
    assert("PlagueBringer"@.len() != "DeathBlade"@.len());
    lemma_distinct_bytes("PlagueBringer", "DeathBlade");
    assert("PlagueBringer"@.len() != "RogueCommander"@.len());
    lemma_distinct_bytes("PlagueBringer", "RogueCommander");
    assert("PlagueBringer"@.len() != "BoyAndDjinn"@.len());
    lemma_distinct_bytes("PlagueBringer", "BoyAndDjinn");
    assert("PlagueBringer"@.len() != "DarkElf"@.len());
    lemma_distinct_bytes("PlagueBringer", "DarkElf");
    assert("PlagueBringer"@.len() != "PenguinMech"@.len());
    lemma_distinct_bytes("PlagueBringer", "PenguinMech");
    assert("PlagueBringer"@.len() != "RogueSoldier"@.len());
    lemma_distinct_bytes("PlagueBringer", "RogueSoldier");
}

proof fn lemma_character_row_4()
    ensures
        forall|j: int| 4 < j < 30 ==> character_table()[4].0.spec_bytes() != #[trigger] character_table()[j].0.spec_bytes(),
{
    lemma_character_entries();
    reveal_strlit("RocketHawk");
    reveal_strlit("DwarvenWarrior");
    reveal_strlit("AssaultJump");
    reveal_strlit("DarkAssassin");
    reveal_strlit("LeapingLuchador");
    reveal_strlit("Bombirdier");
    reveal_strlit("Blackguard");
    reveal_strlit("PapaShotgun");
    reveal_strlit("SpiritMech");
    reveal_strlit("IceGolem");
    reveal_strlit("SideKick");
    reveal_strlit("TacticalBuilder");
    reveal_strlit("GentSniper");
    reveal_strlit("MutantFist");
    reveal_strlit("TribalHealer");
    reveal_strlit("MachineGunner");
    reveal_strlit("ChaosMage");
    reveal_strlit("ModernSoldier");
    reveal_strlit("CornerSneaker");
    reveal_strlit("MageBlade");
    reveal_strlit("DeathBlade");
    reveal_strlit("RogueCommander");
    reveal_strlit("BoyAndDjinn");
    reveal_strlit("DarkElf");
    reveal_strlit("PenguinMech");
    reveal_strlit("RogueSoldier");
    assert("RocketHawk"@.len() != "DwarvenWarrior"@.len());
    lemma_distinct_bytes("RocketHawk", "DwarvenWarrior");
    assert("RocketHawk"@.len() != "AssaultJump"@.len());
    lemma_distinct_bytes("RocketHawk", "AssaultJump");
    assert("RocketHawk"@.len() != "DarkAssassin"@.len());
    lemma_distinct_bytes("RocketHawk", "DarkAssassin");
    assert("RocketHawk"@.len() != "LeapingLuchador"@.len());
    lemma_distinct_bytes("RocketHawk", "LeapingLuchador");
    assert("RocketHawk"@[0] != "Bombirdier"@[0]);
    lemma_distinct_bytes("RocketHawk", "Bombirdier");
    assert("RocketHawk"@[0] != "Blackguard"@[0]);
    lemma_distinct_bytes("RocketHawk", "Blackguard");
    assert("RocketHawk"@.len() != "PapaShotgun"@.len());
    lemma_distinct_bytes("RocketHawk", "PapaShotgun");
    assert("RocketHawk"@[0] != "SpiritMech"@[0]);
    lemma_distinct_bytes("RocketHawk", "SpiritMech");
    assert("RocketHawk"@.len() != "IceGolem"@.len());
    lemma_distinct_bytes("RocketHawk", "IceGolem");
    assert("RocketHawk"@.len() != "SideKick"@.len());
    lemma_distinct_bytes("RocketHawk", "SideKick");
    assert("RocketHawk"@.len() != "TacticalBuilder"@.len());
    lemma_distinct_bytes("RocketHawk", "TacticalBuilder");
    assert("RocketHawk"@[0] != "GentSniper"@[0]);
    lemma_distinct_bytes("RocketHawk", "GentSniper");
    assert("RocketHawk"@[0] != "MutantFist"@[0]);
    lemma_distinct_bytes("RocketHawk", "MutantFist");
    assert("RocketHawk"@.len() != "TribalHealer"@.len());
    lemma_distinct_bytes("RocketHawk", "TribalHealer");
    assert("RocketHawk"@.len() != "MachineGunner"@.len());
    lemma_distinct_bytes("RocketHawk", "MachineGunner");
    assert("RocketHawk"@.len() != "ChaosMage"@.len());
    lemma_distinct_bytes("RocketHawk", "ChaosMage");
    assert("RocketHawk"@.len() != "ModernSoldier"@.len());
    lemma_distinct_bytes("RocketHawk", "ModernSoldier");
    assert("RocketHawk"@.len() != "CornerSneaker"@.len());
    lemma_distinct_bytes("RocketHawk", "CornerSneaker");
    assert("RocketHawk"@.len() != "MageBlade"@.len());
    lemma_distinct_bytes("RocketHawk", "MageBlade");
    assert("RocketHawk"@[0] != "DeathBlade"@[0]);
    lemma_distinct_bytes("RocketHawk", "DeathBlade");
    assert("RocketHawk"@.len() != "RogueCommander"@.len());
    lemma_distinct_bytes("RocketHawk", "RogueCommander");
    assert("RocketHawk"@.len() != "BoyAndDjinn"@.len());
    lemma_distinct_bytes("RocketHawk", "BoyAndDjinn");
    assert("RocketHawk"@.len() != "DarkElf"@.len());
    lemma_distinct_bytes("RocketHawk", "DarkElf");
    assert("RocketHawk"@.len() != "PenguinMech"@.len());
    lemma_distinct_bytes("RocketHawk", "PenguinMech");
    assert("RocketHawk"@.len() != "RogueSoldier"@.len());
    lemma_distinct_bytes("RocketHawk", "RogueSoldier");
}

proof fn lemma_character_row_5()
    ensures
        forall|j: int| 5 < j < 30 ==> character_table()[5].0.spec_bytes() != #[trigger] character_table()[j].0.spec_bytes(),
{
    lemma_character_entries();
    reveal_strlit("DwarvenWarrior");
    reveal_strlit("AssaultJump");
    reveal_strlit("DarkAssassin");
    reveal_strlit("LeapingLuchador");
    reveal_strlit("Bombirdier");
    reveal_strlit("Blackguard");
    reveal_strlit("PapaShotgun");
    reveal_strlit("SpiritMech");
    reveal_strlit("IceGolem");
    reveal_strlit("SideKick");
    reveal_strlit("TacticalBuilder");
    reveal_strlit("GentSniper");
    reveal_strlit("MutantFist");
    reveal_strlit("TribalHealer");
    reveal_strlit("MachineGunner");
    reveal_strlit("ChaosMage");
    reveal_strlit("ModernSoldier");
    reveal_strlit("CornerSneaker");
    reveal_strlit("MageBlade");
    reveal_strlit("DeathBlade");
    reveal_strlit("RogueCommander");
    reveal_strlit("BoyAndDjinn");
    reveal_strlit("DarkElf");
    reveal_strlit("PenguinMech");
    reveal_strlit("RogueSoldier");
    assert("DwarvenWarrior"@.len() != "AssaultJump"@.len());
    lemma_distinct_bytes("DwarvenWarrior", "AssaultJump");
    assert("DwarvenWarrior"@.len() != "DarkAssassin"@.len());
    lemma_distinct_bytes("DwarvenWarrior", "DarkAssassin");
    assert("DwarvenWarrior"@.len() != "LeapingLuchador"@.len());
    lemma_distinct_bytes("DwarvenWarrior", "LeapingLuchador");
    assert("DwarvenWarrior"@.len() != "Bombirdier"@.len());
    lemma_distinct_bytes("DwarvenWarrior", "Bombirdier");
    assert("DwarvenWarrior"@.len() != "Blackguard"@.len());
    lemma_distinct_bytes("DwarvenWarrior", "Blackguard");
    assert("DwarvenWarrior"@.len() != "PapaShotgun"@.len());
    lemma_distinct_bytes("DwarvenWarrior", "PapaShotgun");
    assert("DwarvenWarrior"@.len() != "SpiritMech"@.len());
    lemma_distinct_bytes("DwarvenWarrior", "SpiritMech");
    assert("DwarvenWarrior"@.len() != "IceGolem"@.len());
    lemma_distinct_bytes("DwarvenWarrior", "IceGolem");
    assert("DwarvenWarrior"@.len() != "SideKick"@.len());
    lemma_distinct_bytes("DwarvenWarrior", "SideKick");
    assert("DwarvenWarrior"@.len() != "TacticalBuilder"@.len());
    lemma_distinct_bytes("DwarvenWarrior", "TacticalBuilder");
    assert("DwarvenWarrior"@.len() != "GentSniper"@.len());
    lemma_distinct_bytes("DwarvenWarrior", "GentSniper");
    assert("DwarvenWarrior"@.len() != "MutantFist"@.len());
    lemma_distinct_bytes("DwarvenWarrior", "MutantFist");
    assert("DwarvenWarrior"@.len() != "TribalHealer"@.len());
    lemma_distinct_bytes("DwarvenWarrior", "TribalHealer");
    assert("DwarvenWarrior"@.len() != "MachineGunner"@.len());
    lemma_distinct_bytes("DwarvenWarrior", "MachineGunner");
    assert("DwarvenWarrior"@.len() != "ChaosMage"@.len());
    lemma_distinct_bytes("DwarvenWarrior", "ChaosMage");
    assert("DwarvenWarrior"@.len() != "ModernSoldier"@.len());
    lemma_distinct_bytes("DwarvenWarrior", "ModernSoldier");
    assert("DwarvenWarrior"@.len() != "CornerSneaker"@.len());
    lemma_distinct_bytes("DwarvenWarrior", "CornerSneaker");
    assert("DwarvenWarrior"@.len() != "MageBlade"@.len());
    lemma_distinct_bytes("DwarvenWarrior", "MageBlade");
    assert("DwarvenWarrior"@.len() != "DeathBlade"@.len());
    lemma_distinct_bytes("DwarvenWarrior", "DeathBlade");
    assert("DwarvenWarrior"@[0] != "RogueCommander"@[0]);
    lemma_distinct_bytes("DwarvenWarrior", "RogueCommander");
    assert("DwarvenWarrior"@.len() != "BoyAndDjinn"@.len());
    lemma_distinct_bytes("DwarvenWarrior", "BoyAndDjinn");
    assert("DwarvenWarrior"@.len() != "DarkElf"@.len());
    lemma_distinct_bytes("DwarvenWarrior", "DarkElf");
    assert("DwarvenWarrior"@.len() != "PenguinMech"@.len());
    lemma_distinct_bytes("DwarvenWarrior", "PenguinMech");
    assert("DwarvenWarrior"@.len() != "RogueSoldier"@.len());
    lemma_distinct_bytes("DwarvenWarrior", "RogueSoldier");
}

proof fn lemma_character_row_6()
    ensures
        forall|j: int| 6 < j < 30 ==> character_table()[6].0.spec_bytes() != #[trigger] character_table()[j].0.spec_bytes(),
{
    lemma_character_entries();
    reveal_strlit("AssaultJump");
    reveal_strlit("DarkAssassin");
    reveal_strlit("LeapingLuchador");
    reveal_strlit("Bombirdier");
    reveal_strlit("Blackguard");
    reveal_strlit("PapaShotgun");
    reveal_strlit("SpiritMech");
    reveal_strlit("IceGolem");
    reveal_strlit("SideKick");
    reveal_strlit("TacticalBuilder");
    reveal_strlit("GentSniper");
    reveal_strlit("MutantFist");
    reveal_strlit("TribalHealer");
    reveal_strlit("MachineGunner");
    reveal_strlit("ChaosMage");
    reveal_strlit("ModernSoldier");
    reveal_strlit("CornerSneaker");
    reveal_strlit("MageBlade");
    reveal_strlit("DeathBlade");
    reveal_strlit("RogueCommander");
    reveal_strlit("BoyAndDjinn");
    reveal_strlit("DarkElf");
    reveal_strlit("PenguinMech");
    reveal_strlit("RogueSoldier");
    assert("AssaultJump"@.len() != "DarkAssassin"@.len());
    lemma_distinct_bytes("AssaultJump", "DarkAssassin");
    assert("AssaultJump"@.len() != "LeapingLuchador"@.len());
    lemma_distinct_bytes("AssaultJump", "LeapingLuchador");
    assert("AssaultJump"@.len() != "Bombirdier"@.len());
    lemma_distinct_bytes("AssaultJump", "Bombirdier");
    assert("AssaultJump"@.len() != "Blackguard"@.len());
    lemma_distinct_bytes("AssaultJump", "Blackguard");
    assert("AssaultJump"@[0] != "PapaShotgun"@[0]);
    lemma_distinct_bytes("AssaultJump", "PapaShotgun");
    assert("AssaultJump"@.len() != "SpiritMech"@.len());
    lemma_distinct_bytes("AssaultJump", "SpiritMech");
    assert("AssaultJump"@.len() != "IceGolem"@.len());
    lemma_distinct_bytes("AssaultJump", "IceGolem");
    assert("AssaultJump"@.len() != "SideKick"@.len());
    lemma_distinct_bytes("AssaultJump", "SideKick");
    assert("AssaultJump"@.len() != "TacticalBuilder"@.len());
    lemma_distinct_bytes("AssaultJump", "TacticalBuilder");
    assert("AssaultJump"@.len() != "GentSniper"@.len());
    lemma_distinct_bytes("AssaultJump", "GentSniper");
    assert("AssaultJump"@.len() != "MutantFist"@.len());
    lemma_distinct_bytes("AssaultJump", "MutantFist");
    assert("AssaultJump"@.len() != "TribalHealer"@.len());
    lemma_distinct_bytes("AssaultJump", "TribalHealer");
    assert("AssaultJump"@.len() != "MachineGunner"@.len());
    lemma_distinct_bytes("AssaultJump", "MachineGunner");
    assert("AssaultJump"@.len() != "ChaosMage"@.len());
    lemma_distinct_bytes("AssaultJump", "ChaosMage");
    assert("AssaultJump"@.len() != "ModernSoldier"@.len());
    lemma_distinct_bytes("AssaultJump", "ModernSoldier");
    assert("AssaultJump"@.len() != "CornerSneaker"@.len());
    lemma_distinct_bytes("AssaultJump", "CornerSneaker");
    assert("AssaultJump"@.len() != "MageBlade"@.len());
    lemma_distinct_bytes("AssaultJump", "MageBlade");
    assert("AssaultJump"@.len() != "DeathBlade"@.len());
    lemma_distinct_bytes("AssaultJump", "DeathBlade");
    assert("AssaultJump"@.len() != "RogueCommander"@.len());
    lemma_distinct_bytes("AssaultJump", "RogueCommander");
    assert("AssaultJump"@[0] != "BoyAndDjinn"@[0]);
    lemma_distinct_bytes("AssaultJump", "BoyAndDjinn");
    assert("AssaultJump"@.len() != "DarkElf"@.len());
    lemma_distinct_bytes("AssaultJump", "DarkElf");
    assert("AssaultJump"@[0] != "PenguinMech"@[0]);
    lemma_distinct_bytes("AssaultJump", "PenguinMech");
    assert("AssaultJump"@.len() != "RogueSoldier"@.len());
    lemma_distinct_bytes("AssaultJump", "RogueSoldier");
}

proof fn lemma_character_row_7()
    ensures
        forall|j: int| 7 < j < 30 ==> character_table()[7].0.spec_bytes() != #[trigger] character_table()[j].0.spec_bytes(),
{
    lemma_character_entries();
    reveal_strlit("DarkAssassin");
    reveal_strlit("LeapingLuchador");
    reveal_strlit("Bombirdier");
    reveal_strlit("Blackguard");
    reveal_strlit("PapaShotgun");
    reveal_strlit("SpiritMech");
    reveal_strlit("IceGolem");
    reveal_strlit("SideKick");
    reveal_strlit("TacticalBuilder");
    reveal_strlit("GentSniper");
    reveal_strlit("MutantFist");
    reveal_strlit("TribalHealer");
    reveal_strlit("MachineGunner");
    reveal_strlit("ChaosMage");
    reveal_strlit("ModernSoldier");
    reveal_strlit("CornerSneaker");
    reveal_strlit("MageBlade");
    reveal_strlit("DeathBlade");
    reveal_strlit("RogueCommander");
    reveal_strlit("BoyAndDjinn");
    reveal_strlit("DarkElf");
    reveal_strlit("PenguinMech");
    reveal_strlit("RogueSoldier");
    assert("DarkAssassin"@.len() != "LeapingLuchador"@.len());
    lemma_distinct_bytes("DarkAssassin", "LeapingLuchador");
    assert("DarkAssassin"@.len() != "Bombirdier"@.len());
    lemma_distinct_bytes("DarkAssassin", "Bombirdier");
    assert("DarkAssassin"@.len() != "Blackguard"@.len());
    lemma_distinct_bytes("DarkAssassin", "Blackguard");
    assert("DarkAssassin"@.len() != "PapaShotgun"@.len());
    lemma_distinct_bytes("DarkAssassin", "PapaShotgun");
    assert("DarkAssassin"@.len() != "SpiritMech"@.len());
    lemma_distinct_bytes("DarkAssassin", "SpiritMech");
    assert("DarkAssassin"@.len() != "IceGolem"@.len());
    lemma_distinct_bytes("DarkAssassin", "IceGolem");
    assert("DarkAssassin"@.len() != "SideKick"@.len());
    lemma_distinct_bytes("DarkAssassin", "SideKick");
    assert("DarkAssassin"@.len() != "TacticalBuilder"@.len());
    lemma_distinct_bytes("DarkAssassin", "TacticalBuilder");
    assert("DarkAssassin"@.len() != "GentSniper"@.len());
    lemma_distinct_bytes("DarkAssassin", "GentSniper");
    assert("DarkAssassin"@.len() != "MutantFist"@.len());
    lemma_distinct_bytes("DarkAssassin", "MutantFist");
    assert("DarkAssassin"@[0] != "TribalHealer"@[0]);
    lemma_distinct_bytes("DarkAssassin", "TribalHealer");
    assert("DarkAssassin"@.len() != "MachineGunner"@.len());
    lemma_distinct_bytes("DarkAssassin", "MachineGunner");
    assert("DarkAssassin"@.len() != "ChaosMage"@.len());
    lemma_distinct_bytes("DarkAssassin", "ChaosMage");
    assert("DarkAssassin"@.len() != "ModernSoldier"@.len());
    lemma_distinct_bytes("DarkAssassin", "ModernSoldier");
    assert("DarkAssassin"@.len() != "CornerSneaker"@.len());
    lemma_distinct_bytes("DarkAssassin", "CornerSneaker");
    assert("DarkAssassin"@.len() != "MageBlade"@.len());
    lemma_distinct_bytes("DarkAssassin", "MageBlade");
    assert("DarkAssassin"@.len() != "DeathBlade"@.len());
    lemma_distinct_bytes("DarkAssassin", "DeathBlade");
    assert("DarkAssassin"@.len() != "RogueCommander"@.len());
    lemma_distinct_bytes("DarkAssassin", "RogueCommander");
    assert("DarkAssassin"@.len() != "BoyAndDjinn"@.len());
    lemma_distinct_bytes("DarkAssassin", "BoyAndDjinn");
    assert("DarkAssassin"@.len() != "DarkElf"@.len());
    lemma_distinct_bytes("DarkAssassin", "DarkElf");
    assert("DarkAssassin"@.len() != "PenguinMech"@.len());
    lemma_distinct_bytes("DarkAssassin", "PenguinMech");
    assert("DarkAssassin"@[0] != "RogueSoldier"@[0]);
    lemma_distinct_bytes("DarkAssassin", "RogueSoldier");
}

proof fn lemma_character_row_8()
    ensures
        forall|j: int| 8 < j < 30 ==> character_table()[8].0.spec_bytes() != #[trigger] character_table()[j].0.spec_bytes(),
{
    lemma_character_entries();
    reveal_strlit("LeapingLuchador");
    reveal_strlit("Bombirdier");
    reveal_strlit("Blackguard");
    reveal_strlit("PapaShotgun");
    reveal_strlit("SpiritMech");
    reveal_strlit("IceGolem");
    reveal_strlit("SideKick");
    reveal_strlit("TacticalBuilder");
    reveal_strlit("GentSniper");
    reveal_strlit("MutantFist");
    reveal_strlit("TribalHealer");
    reveal_strlit("MachineGunner");
    reveal_strlit("ChaosMage");
    reveal_strlit("ModernSoldier");
    reveal_strlit("CornerSneaker");
    reveal_strlit("MageBlade");
    reveal_strlit("DeathBlade");
    reveal_strlit("RogueCommander");
    reveal_strlit("BoyAndDjinn");
    reveal_strlit("DarkElf");
    reveal_strlit("PenguinMech");
    reveal_strlit("RogueSoldier");
    assert("LeapingLuchador"@.len() != "Bombirdier"@.len());
    lemma_distinct_bytes("LeapingLuchador", "Bombirdier");
    assert("LeapingLuchador"@.len() != "Blackguard"@.len());
    lemma_distinct_bytes("LeapingLuchador", "Blackguard");
    assert("LeapingLuchador"@.len() != "PapaShotgun"@.len());
    lemma_distinct_bytes("LeapingLuchador", "PapaShotgun");
    assert("LeapingLuchador"@.len() != "SpiritMech"@.len());
    lemma_distinct_bytes("LeapingLuchador", "SpiritMech");
    assert("LeapingLuchador"@.len() != "IceGolem"@.len());
    lemma_distinct_bytes("LeapingLuchador", "IceGolem");
    assert("LeapingLuchador"@.len() != "SideKick"@.len());
    lemma_distinct_bytes("LeapingLuchador", "SideKick");
    assert("LeapingLuchador"@[0] != "TacticalBuilder"@[0]);
    lemma_distinct_bytes("LeapingLuchador", "TacticalBuilder");
    assert("LeapingLuchador"@.len() != "GentSniper"@.len());
    lemma_distinct_bytes("LeapingLuchador", "GentSniper");
    assert("LeapingLuchador"@.len() != "MutantFist"@.len());
    lemma_distinct_bytes("LeapingLuchador", "MutantFist");
    assert("LeapingLuchador"@.len() != "TribalHealer"@.len());
    lemma_distinct_bytes("LeapingLuchador", "TribalHealer");
    assert("LeapingLuchador"@.len() != "MachineGunner"@.len());
    lemma_distinct_bytes("LeapingLuchador", "MachineGunner");
    assert("LeapingLuchador"@.len() != "ChaosMage"@.len());
    lemma_distinct_bytes("LeapingLuchador", "ChaosMage");
    assert("LeapingLuchador"@.len() != "ModernSoldier"@.len());
    lemma_distinct_bytes("LeapingLuchador", "ModernSoldier");
    assert("LeapingLuchador"@.len() != "CornerSneaker"@.len());
    lemma_distinct_bytes("LeapingLuchador", "CornerSneaker");
    assert("LeapingLuchador"@.len() != "MageBlade"@.len());
    lemma_distinct_bytes("LeapingLuchador", "MageBlade");
    assert("LeapingLuchador"@.len() != "DeathBlade"@.len());
    lemma_distinct_bytes("LeapingLuchador", "DeathBlade");
    assert("LeapingLuchador"@.len() != "RogueCommander"@.len());
    lemma_distinct_bytes("LeapingLuchador", "RogueCommander");
    assert("LeapingLuchador"@.len() != "BoyAndDjinn"@.len());
    lemma_distinct_bytes("LeapingLuchador", "BoyAndDjinn");
    assert("LeapingLuchador"@.len() != "DarkElf"@.len());
    lemma_distinct_bytes("LeapingLuchador", "DarkElf");
    assert("LeapingLuchador"@.len() != "PenguinMech"@.len());
    lemma_distinct_bytes("LeapingLuchador", "PenguinMech");
    assert("LeapingLuchador"@.len() != "RogueSoldier"@.len());
    lemma_distinct_bytes("LeapingLuchador", "RogueSoldier");
}

proof fn lemma_character_row_9()
    ensures
        forall|j: int| 9 < j < 30 ==> character_table()[9].0.spec_bytes() != #[trigger] character_table()[j].0.spec_bytes(),
{
    lemma_character_entries();
    reveal_strlit("Bombirdier");
    reveal_strlit("Blackguard");
    reveal_strlit("PapaShotgun");
    reveal_strlit("SpiritMech");
    reveal_strlit("IceGolem");
    reveal_strlit("SideKick");
    reveal_strlit("TacticalBuilder");
    reveal_strlit("GentSniper");
    reveal_strlit("MutantFist");
    reveal_strlit("TribalHealer");
    reveal_strlit("MachineGunner");
    reveal_strlit("ChaosMage");
    reveal_strlit("ModernSoldier");
    reveal_strlit("CornerSneaker");
    reveal_strlit("MageBlade");
    reveal_strlit("DeathBlade");
    reveal_strlit("RogueCommander");
    reveal_strlit("BoyAndDjinn");
    reveal_strlit("DarkElf");
    reveal_strlit("PenguinMech");
    reveal_strlit("RogueSoldier");
    assert("Bombirdier"@[1] != "Blackguard"@[1]);
    lemma_distinct_bytes("Bombirdier", "Blackguard");
    assert("Bombirdier"@.len() != "PapaShotgun"@.len());
    lemma_distinct_bytes("Bombirdier", "PapaShotgun");
    assert("Bombirdier"@[0] != "SpiritMech"@[0]);
    lemma_distinct_bytes("Bombirdier", "SpiritMech");
    assert("Bombirdier"@.len() != "IceGolem"@.len());
    lemma_distinct_bytes("Bombirdier", "IceGolem");
    assert("Bombirdier"@.len() != "SideKick"@.len());
    lemma_distinct_bytes("Bombirdier", "SideKick");
    assert("Bombirdier"@.len() != "TacticalBuilder"@.len());
    lemma_distinct_bytes("Bombirdier", "TacticalBuilder");
    assert("Bombirdier"@[0] != "GentSniper"@[0]);
    lemma_distinct_bytes("Bombirdier", "GentSniper");
    assert("Bombirdier"@[0] != "MutantFist"@[0]);
    lemma_distinct_bytes("Bombirdier", "MutantFist");
    assert("Bombirdier"@.len() != "TribalHealer"@.len());
    lemma_distinct_bytes("Bombirdier", "TribalHealer");
    assert("Bombirdier"@.len() != "MachineGunner"@.len());
    lemma_distinct_bytes("Bombirdier", "MachineGunner");
    assert("Bombirdier"@.len() != "ChaosMage"@.len());
    lemma_distinct_bytes("Bombirdier", "ChaosMage");
    assert("Bombirdier"@.len() != "ModernSoldier"@.len());
    lemma_distinct_bytes("Bombirdier", "ModernSoldier");
    assert("Bombirdier"@.len() != "CornerSneaker"@.len());
    lemma_distinct_bytes("Bombirdier", "CornerSneaker");
    assert("Bombirdier"@.len() != "MageBlade"@.len());
    lemma_distinct_bytes("Bombirdier", "MageBlade");
    assert("Bombirdier"@[0] != "DeathBlade"@[0]);
    lemma_distinct_bytes("Bombirdier", "DeathBlade");
    assert("Bombirdier"@.len() != "RogueCommander"@.len());
    lemma_distinct_bytes("Bombirdier", "RogueCommander");
    assert("Bombirdier"@.len() != "BoyAndDjinn"@.len());
    lemma_distinct_bytes("Bombirdier", "BoyAndDjinn");
    assert("Bombirdier"@.len() != "DarkElf"@.len());
    lemma_distinct_bytes("Bombirdier", "DarkElf");
    assert("Bombirdier"@.len() != "PenguinMech"@.len());
    lemma_distinct_bytes("Bombirdier", "PenguinMech");
    assert("Bombirdier"@.len() != "RogueSoldier"@.len());
    lemma_distinct_bytes("Bombirdier", "RogueSoldier");
}

proof fn lemma_character_row_10()
    ensures
        forall|j: int| 10 < j < 30 ==> character_table()[10].0.spec_bytes() != #[trigger] character_table()[j].0.spec_bytes(),
{
    lemma_character_entries();
    reveal_strlit("Blackguard");
    reveal_strlit("PapaShotgun");
    reveal_strlit("SpiritMech");
    reveal_strlit("IceGolem");
    reveal_strlit("SideKick");
    reveal_strlit("TacticalBuilder");
    reveal_strlit("GentSniper");
    reveal_strlit("MutantFist");
    reveal_strlit("TribalHealer");
    reveal_strlit("MachineGunner");
    reveal_strlit("ChaosMage");
    reveal_strlit("ModernSoldier");
    reveal_strlit("CornerSneaker");
    reveal_strlit("MageBlade");
    reveal_strlit("DeathBlade");
    reveal_strlit("RogueCommander");
    reveal_strlit("BoyAndDjinn");
    reveal_strlit("DarkElf");
    reveal_strlit("PenguinMech");
    reveal_strlit("RogueSoldier");
    assert("Blackguard"@.len() != "PapaShotgun"@.len());
    lemma_distinct_bytes("Blackguard", "PapaShotgun");
    assert("Blackguard"@[0] != "SpiritMech"@[0]);
    lemma_distinct_bytes("Blackguard", "SpiritMech");
    assert("Blackguard"@.len() != "IceGolem"@.len());
    lemma_distinct_bytes("Blackguard", "IceGolem");
    assert("Blackguard"@.len() != "SideKick"@.len());
    lemma_distinct_bytes("Blackguard", "SideKick");
    assert("Blackguard"@.len() != "TacticalBuilder"@.len());
    lemma_distinct_bytes("Blackguard", "TacticalBuilder");
    assert("Blackguard"@[0] != "GentSniper"@[0]);
    lemma_distinct_bytes("Blackguard", "GentSniper");
    assert("Blackguard"@[0] != "MutantFist"@[0]);
    lemma_distinct_bytes("Blackguard", "MutantFist");
    assert("Blackguard"@.len() != "TribalHealer"@.len());
    lemma_distinct_bytes("Blackguard", "TribalHealer");
    assert("Blackguard"@.len() != "MachineGunner"@.len());
    lemma_distinct_bytes("Blackguard", "MachineGunner");
    assert("Blackguard"@.len() != "ChaosMage"@.len());
    lemma_distinct_bytes("Blackguard", "ChaosMage");
    assert("Blackguard"@.len() != "ModernSoldier"@.len());
    lemma_distinct_bytes("Blackguard", "ModernSoldier");
    assert("Blackguard"@.len() != "CornerSneaker"@.len());
    lemma_distinct_bytes("Blackguard", "CornerSneaker");
    assert("Blackguard"@.len() != "MageBlade"@.len());
    lemma_distinct_bytes("Blackguard", "MageBlade");
    assert("Blackguard"@[0] != "DeathBlade"@[0]);
    lemma_distinct_bytes("Blackguard", "DeathBlade");
    assert("Blackguard"@.len() != "RogueCommander"@.len());
    lemma_distinct_bytes("Blackguard", "RogueCommander");
    assert("Blackguard"@.len() != "BoyAndDjinn"@.len());
    lemma_distinct_bytes("Blackguard", "BoyAndDjinn");
    assert("Blackguard"@.len() != "DarkElf"@.len());
    lemma_distinct_bytes("Blackguard", "DarkElf");
    assert("Blackguard"@.len() != "PenguinMech"@.len());
    lemma_distinct_bytes("Blackguard", "PenguinMech");
    assert("Blackguard"@.len() != "RogueSoldier"@.len());
    lemma_distinct_bytes("Blackguard", "RogueSoldier");
}

proof fn lemma_character_row_11()
    ensures
        forall|j: int| 11 < j < 30 ==> character_table()[11].0.spec_bytes() != #[trigger] character_table()[j].0.spec_bytes(),
{
    lemma_character_entries();
    reveal_strlit("PapaShotgun");
    reveal_strlit("SpiritMech");
    reveal_strlit("IceGolem");
    reveal_strlit("SideKick");
    reveal_strlit("TacticalBuilder");
    reveal_strlit("GentSniper");
    reveal_strlit("MutantFist");
    reveal_strlit("TribalHealer");
    reveal_strlit("MachineGunner");
    reveal_strlit("ChaosMage");
    reveal_strlit("ModernSoldier");
    reveal_strlit("CornerSneaker");
    reveal_strlit("MageBlade");
    reveal_strlit("DeathBlade");
    reveal_strlit("RogueCommander");
    reveal_strlit("BoyAndDjinn");
    reveal_strlit("DarkElf");
    reveal_strlit("PenguinMech");
    reveal_strlit("RogueSoldier");
    assert("PapaShotgun"@.len() != "SpiritMech"@.len());
    lemma_distinct_bytes("PapaShotgun", "SpiritMech");
    assert("PapaShotgun"@.len() != "IceGolem"@.len());
    lemma_distinct_bytes("PapaShotgun", "IceGolem");
    assert("PapaShotgun"@.len() != "SideKick"@.len());
    lemma_distinct_bytes("PapaShotgun", "SideKick");
    assert("PapaShotgun"@.len() != "TacticalBuilder"@.len());
    lemma_distinct_bytes("PapaShotgun", "TacticalBuilder");
    assert("PapaShotgun"@.len() != "GentSniper"@.len());
    lemma_distinct_bytes("PapaShotgun", "GentSniper");
    assert("PapaShotgun"@.len() != "MutantFist"@.len());
    lemma_distinct_bytes("PapaShotgun", "MutantFist");
    assert("PapaShotgun"@.len() != "TribalHealer"@.len());
    lemma_distinct_bytes("PapaShotgun", "TribalHealer");
    assert("PapaShotgun"@.len() != "MachineGunner"@.len());
    lemma_distinct_bytes("PapaShotgun", "MachineGunner");
    assert("PapaShotgun"@.len() != "ChaosMage"@.len());
    lemma_distinct_bytes("PapaShotgun", "ChaosMage");
    assert("PapaShotgun"@.len() != "ModernSoldier"@.len());
    lemma_distinct_bytes("PapaShotgun", "ModernSoldier");
    assert("PapaShotgun"@.len() != "CornerSneaker"@.len());
    lemma_distinct_bytes("PapaShotgun", "CornerSneaker");
    assert("PapaShotgun"@.len() != "MageBlade"@.len());
    lemma_distinct_bytes("PapaShotgun", "MageBlade");
    assert("PapaShotgun"@.len() != "DeathBlade"@.len());
    lemma_distinct_bytes("PapaShotgun", "DeathBlade");
    assert("PapaShotgun"@.len() != "RogueCommander"@.len());
    lemma_distinct_bytes("PapaShotgun", "RogueCommander");
    assert("PapaShotgun"@[0] != "BoyAndDjinn"@[0]);
    lemma_distinct_bytes("PapaShotgun", "BoyAndDjinn");
    assert("PapaShotgun"@.len() != "DarkElf"@.len());
    lemma_distinct_bytes("PapaShotgun", "DarkElf");
    assert("PapaShotgun"@[1] != "PenguinMech"@[1]);
    lemma_distinct_bytes("PapaShotgun", "PenguinMech");
    assert("PapaShotgun"@.len() != "RogueSoldier"@.len());
    lemma_distinct_bytes("PapaShotgun", "RogueSoldier");
}

proof fn lemma_character_row_12()
    ensures
        forall|j: int| 12 < j < 30 ==> character_table()[12].0.spec_bytes() != #[trigger] character_table()[j].0.spec_bytes(),
{
    lemma_character_entries();
    reveal_strlit("SpiritMech");
    reveal_strlit("IceGolem");
    reveal_strlit("SideKick");
    reveal_strlit("TacticalBuilder");
    reveal_strlit("GentSniper");
    reveal_strlit("MutantFist");
    reveal_strlit("TribalHealer");
    reveal_strlit("MachineGunner");
    reveal_strlit("ChaosMage");
    reveal_strlit("ModernSoldier");
    reveal_strlit("CornerSneaker");
    reveal_strlit("MageBlade");
    reveal_strlit("DeathBlade");
    reveal_strlit("RogueCommander");
    reveal_strlit("BoyAndDjinn");
    reveal_strlit("DarkElf");
    reveal_strlit("PenguinMech");
    reveal_strlit("RogueSoldier");
    assert("SpiritMech"@.len() != "IceGolem"@.len());
    lemma_distinct_bytes("SpiritMech", "IceGolem");
    assert("SpiritMech"@.len() != "SideKick"@.len());
    lemma_distinct_bytes("SpiritMech", "SideKick");
    assert("SpiritMech"@.len() != "TacticalBuilder"@.len());
    lemma_distinct_bytes("SpiritMech", "TacticalBuilder");
    assert("SpiritMech"@[0] != "GentSniper"@[0]);
    lemma_distinct_bytes("SpiritMech", "GentSniper");
    assert("SpiritMech"@[0] != "MutantFist"@[0]);
    lemma_distinct_bytes("SpiritMech", "MutantFist");
    assert("SpiritMech"@.len() != "TribalHealer"@.len());
    lemma_distinct_bytes("SpiritMech", "TribalHealer");
    assert("SpiritMech"@.len() != "MachineGunner"@.len());
    lemma_distinct_bytes("SpiritMech", "MachineGunner");
    assert("SpiritMech"@.len() != "ChaosMage"@.len());
    lemma_distinct_bytes("SpiritMech", "ChaosMage");
    assert("SpiritMech"@.len() != "ModernSoldier"@.len());
    lemma_distinct_bytes("SpiritMech", "ModernSoldier");
    assert("SpiritMech"@.len() != "CornerSneaker"@.len());
    lemma_distinct_bytes("SpiritMech", "CornerSneaker");
    assert("SpiritMech"@.len() != "MageBlade"@.len());
    lemma_distinct_bytes("SpiritMech", "MageBlade");
    assert("SpiritMech"@[0] != "DeathBlade"@[0]);
    lemma_distinct_bytes("SpiritMech", "DeathBlade");
    assert("SpiritMech"@.len() != "RogueCommander"@.len());
    lemma_distinct_bytes("SpiritMech", "RogueCommander");
    assert("SpiritMech"@.len() != "BoyAndDjinn"@.len());
    lemma_distinct_bytes("SpiritMech", "BoyAndDjinn");
    assert("SpiritMech"@.len() != "DarkElf"@.len());
    lemma_distinct_bytes("SpiritMech", "DarkElf");
    assert("SpiritMech"@.len() != "PenguinMech"@.len());
    lemma_distinct_bytes("SpiritMech", "PenguinMech");
    assert("SpiritMech"@.len() != "RogueSoldier"@.len());
    lemma_distinct_bytes("SpiritMech", "RogueSoldier");
}

proof fn lemma_character_row_13()
    ensures
        forall|j: int| 13 < j < 30 ==> character_table()[13].0.spec_bytes() != #[trigger] character_table()[j].0.spec_bytes(),
{
    lemma_character_entries();
    reveal_strlit("IceGolem");
    reveal_strlit("SideKick");
    reveal_strlit("TacticalBuilder");
    reveal_strlit("GentSniper");
    reveal_strlit("MutantFist");
    reveal_strlit("TribalHealer");
    reveal_strlit("MachineGunner");
    reveal_strlit("ChaosMage");
    reveal_strlit("ModernSoldier");
    reveal_strlit("CornerSneaker");
    reveal_strlit("MageBlade");
    reveal_strlit("DeathBlade");
    reveal_strlit("RogueCommander");
    reveal_strlit("BoyAndDjinn");
    reveal_strlit("DarkElf");
    reveal_strlit("PenguinMech");
    reveal_strlit("RogueSoldier");
    assert("IceGolem"@[0] != "SideKick"@[0]);
    lemma_distinct_bytes("IceGolem", "SideKick");
    assert("IceGolem"@.len() != "TacticalBuilder"@.len());
    lemma_distinct_bytes("IceGolem", "TacticalBuilder");
    assert("IceGolem"@.len() != "GentSniper"@.len());
    lemma_distinct_bytes("IceGolem", "GentSniper");
    assert("IceGolem"@.len() != "MutantFist"@.len());
    lemma_distinct_bytes("IceGolem", "MutantFist");
    assert("IceGolem"@.len() != "TribalHealer"@.len());
    lemma_distinct_bytes("IceGolem", "TribalHealer");
    assert("IceGolem"@.len() != "MachineGunner"@.len());
    lemma_distinct_bytes("IceGolem", "MachineGunner");
    assert("IceGolem"@.len() != "ChaosMage"@.len());
    lemma_distinct_bytes("IceGolem", "ChaosMage");
    assert("IceGolem"@.len() != "ModernSoldier"@.len());
    lemma_distinct_bytes("IceGolem", "ModernSoldier");
    assert("IceGolem"@.len() != "CornerSneaker"@.len());
    lemma_distinct_bytes("IceGolem", "CornerSneaker");
    assert("IceGolem"@.len() != "MageBlade"@.len());
    lemma_distinct_bytes("IceGolem", "MageBlade");
    assert("IceGolem"@.len() != "DeathBlade"@.len());
    lemma_distinct_bytes("IceGolem", "DeathBlade");
    assert("IceGolem"@.len() != "RogueCommander"@.len());
    lemma_distinct_bytes("IceGolem", "RogueCommander");
    assert("IceGolem"@.len() != "BoyAndDjinn"@.len());
    lemma_distinct_bytes("IceGolem", "BoyAndDjinn");
    assert("IceGolem"@.len() != "DarkElf"@.len());
    lemma_distinct_bytes("IceGolem", "DarkElf");
    assert("IceGolem"@.len() != "PenguinMech"@.len());
    lemma_distinct_bytes("IceGolem", "PenguinMech");
    assert("IceGolem"@.len() != "RogueSoldier"@.len());
    lemma_distinct_bytes("IceGolem", "RogueSoldier");
}

proof fn lemma_character_row_14()
    ensures
        forall|j: int| 14 < j < 30 ==> character_table()[14].0.spec_bytes() != #[trigger] character_table()[j].0.spec_bytes(),
{
    lemma_character_entries();
    reveal_strlit("SideKick");
    reveal_strlit("TacticalBuilder");
    reveal_strlit("GentSniper");
    reveal_strlit("MutantFist");
    reveal_strlit("TribalHealer");
    reveal_strlit("MachineGunner");
    reveal_strlit("ChaosMage");
    reveal_strlit("ModernSoldier");
    reveal_strlit("CornerSneaker");
    reveal_strlit("MageBlade");
    reveal_strlit("DeathBlade");
    reveal_strlit("RogueCommander");
    reveal_strlit("BoyAndDjinn");
    reveal_strlit("DarkElf");
    reveal_strlit("PenguinMech");
    reveal_strlit("RogueSoldier");
    assert("SideKick"@.len() != "TacticalBuilder"@.len());
    lemma_distinct_bytes("SideKick", "TacticalBuilder");
    assert("SideKick"@.len() != "GentSniper"@.len());
    lemma_distinct_bytes("SideKick", "GentSniper");
    assert("SideKick"@.len() != "MutantFist"@.len());
    lemma_distinct_bytes("SideKick", "MutantFist");
    assert("SideKick"@.len() != "TribalHealer"@.len());
    lemma_distinct_bytes("SideKick", "TribalHealer");
    assert("SideKick"@.len() != "MachineGunner"@.len());
    lemma_distinct_bytes("SideKick", "MachineGunner");
    assert("SideKick"@.len() != "ChaosMage"@.len());
    lemma_distinct_bytes("SideKick", "ChaosMage");
    assert("SideKick"@.len() != "ModernSoldier"@.len());
    lemma_distinct_bytes("SideKick", "ModernSoldier");
    assert("SideKick"@.len() != "CornerSneaker"@.len());
    lemma_distinct_bytes("SideKick", "CornerSneaker");
    assert("SideKick"@.len() != "MageBlade"@.len());
    lemma_distinct_bytes("SideKick", "MageBlade");
    assert("SideKick"@.len() != "DeathBlade"@.len());
    lemma_distinct_bytes("SideKick", "DeathBlade");
    assert("SideKick"@.len() != "RogueCommander"@.len());
    lemma_distinct_bytes("SideKick", "RogueCommander");
    assert("SideKick"@.len() != "BoyAndDjinn"@.len());
    lemma_distinct_bytes("SideKick", "BoyAndDjinn");
    assert("SideKick"@.len() != "DarkElf"@.len());
    lemma_distinct_bytes("SideKick", "DarkElf");
    assert("SideKick"@.len() != "PenguinMech"@.len());
    lemma_distinct_bytes("SideKick", "PenguinMech");
    assert("SideKick"@.len() != "RogueSoldier"@.len());
    lemma_distinct_bytes("SideKick", "RogueSoldier");
}

proof fn lemma_character_row_15()
    ensures
        forall|j: int| 15 < j < 30 ==> character_table()[15].0.spec_bytes() != #[trigger] character_table()[j].0.spec_bytes(),
{
    lemma_character_entries();
    reveal_strlit("TacticalBuilder");
    reveal_strlit("GentSniper");
    reveal_strlit("MutantFist");
    reveal_strlit("TribalHealer");
    reveal_strlit("MachineGunner");
    reveal_strlit("ChaosMage");
    reveal_strlit("ModernSoldier");
    reveal_strlit("CornerSneaker");
    reveal_strlit("MageBlade");
    reveal_strlit("DeathBlade");
    reveal_strlit("RogueCommander");
    reveal_strlit("BoyAndDjinn");
    reveal_strlit("DarkElf");
    reveal_strlit("PenguinMech");
    reveal_strlit("RogueSoldier");
    assert("TacticalBuilder"@.len() != "GentSniper"@.len());
    lemma_distinct_bytes("TacticalBuilder", "GentSniper");
    assert("TacticalBuilder"@.len() != "MutantFist"@.len());
    lemma_distinct_bytes("TacticalBuilder", "MutantFist");
    assert("TacticalBuilder"@.len() != "TribalHealer"@.len());
    lemma_distinct_bytes("TacticalBuilder", "TribalHealer");
    assert("TacticalBuilder"@.len() != "MachineGunner"@.len());
    lemma_distinct_bytes("TacticalBuilder", "MachineGunner");
    assert("TacticalBuilder"@.len() != "ChaosMage"@.len());
    lemma_distinct_bytes("TacticalBuilder", "ChaosMage");
    assert("TacticalBuilder"@.len() != "ModernSoldier"@.len());
    lemma_distinct_bytes("TacticalBuilder", "ModernSoldier");
    assert("TacticalBuilder"@.len() != "CornerSneaker"@.len());
    lemma_distinct_bytes("TacticalBuilder", "CornerSneaker");
    assert("TacticalBuilder"@.len() != "MageBlade"@.len());
    lemma_distinct_bytes("TacticalBuilder", "MageBlade");
    assert("TacticalBuilder"@.len() != "DeathBlade"@.len());
    lemma_distinct_bytes("TacticalBuilder", "DeathBlade");
    assert("TacticalBuilder"@.len() != "RogueCommander"@.len());
    lemma_distinct_bytes("TacticalBuilder", "RogueCommander");
    assert("TacticalBuilder"@.len() != "BoyAndDjinn"@.len());
    lemma_distinct_bytes("TacticalBuilder", "BoyAndDjinn");
    assert("TacticalBuilder"@.len() != "DarkElf"@.len());
    lemma_distinct_bytes("TacticalBuilder", "DarkElf");
    assert("TacticalBuilder"@.len() != "PenguinMech"@.len());
    lemma_distinct_bytes("TacticalBuilder", "PenguinMech");
    assert("TacticalBuilder"@.len() != "RogueSoldier"@.len());
    lemma_distinct_bytes("TacticalBuilder", "RogueSoldier");
}

proof fn lemma_character_row_16()
    ensures
        forall|j: int| 16 < j < 30 ==> character_table()[16].0.spec_bytes() != #[trigger] character_table()[j].0.spec_bytes(),
{
    lemma_character_entries();
    reveal_strlit("GentSniper");
    reveal_strlit("MutantFist");
    reveal_strlit("TribalHealer");
    reveal_strlit("MachineGunner");
    reveal_strlit("ChaosMage");
    reveal_strlit("ModernSoldier");
    reveal_strlit("CornerSneaker");
    reveal_strlit("MageBlade");
    reveal_strlit("DeathBlade");
    reveal_strlit("RogueCommander");
    reveal_strlit("BoyAndDjinn");
    reveal_strlit("DarkElf");
    reveal_strlit("PenguinMech");
    reveal_strlit("RogueSoldier");
    assert("GentSniper"@[0] != "MutantFist"@[0]);
    lemma_distinct_bytes("GentSniper", "MutantFist");
    assert("GentSniper"@.len() != "TribalHealer"@.len());
    lemma_distinct_bytes("GentSniper", "TribalHealer");
    assert("GentSniper"@.len() != "MachineGunner"@.len());
    lemma_distinct_bytes("GentSniper", "MachineGunner");
    assert("GentSniper"@.len() != "ChaosMage"@.len());
    lemma_distinct_bytes("GentSniper", "ChaosMage");
    assert("GentSniper"@.len() != "ModernSoldier"@.len());
    lemma_distinct_bytes("GentSniper", "ModernSoldier");
    assert("GentSniper"@.len() != "CornerSneaker"@.len());
    lemma_distinct_bytes("GentSniper", "CornerSneaker");
    assert("GentSniper"@.len() != "MageBlade"@.len());
    lemma_distinct_bytes("GentSniper", "MageBlade");
    assert("GentSniper"@[0] != "DeathBlade"@[0]);
    lemma_distinct_bytes("GentSniper", "DeathBlade");
    assert("GentSniper"@.len() != "RogueCommander"@.len());
    lemma_distinct_bytes("GentSniper", "RogueCommander");
    assert("GentSniper"@.len() != "BoyAndDjinn"@.len());
    lemma_distinct_bytes("GentSniper", "BoyAndDjinn");
    assert("GentSniper"@.len() != "DarkElf"@.len());
    lemma_distinct_bytes("GentSniper", "DarkElf");
    assert("GentSniper"@.len() != "PenguinMech"@.len());
    lemma_distinct_bytes("GentSniper", "PenguinMech");
    assert("GentSniper"@.len() != "RogueSoldier"@.len());
    lemma_distinct_bytes("GentSniper", "RogueSoldier");
}

proof fn lemma_character_row_17()
    ensures
        forall|j: int| 17 < j < 30 ==> character_table()[17].0.spec_bytes() != #[trigger] character_table()[j].0.spec_bytes(),
{
    lemma_character_entries();
    reveal_strlit("MutantFist");
    reveal_strlit("TribalHealer");
    reveal_strlit("MachineGunner");
    reveal_strlit("ChaosMage");
    reveal_strlit("ModernSoldier");
    reveal_strlit("CornerSneaker");
    reveal_strlit("MageBlade");
    reveal_strlit("DeathBlade");
    reveal_strlit("RogueCommander");
    reveal_strlit("BoyAndDjinn");
    reveal_strlit("DarkElf");
    reveal_strlit("PenguinMech");
    reveal_strlit("RogueSoldier");
    assert("MutantFist"@.len() != "TribalHealer"@.len());
    lemma_distinct_bytes("MutantFist", "TribalHealer");
    assert("MutantFist"@.len() != "MachineGunner"@.len());
    lemma_distinct_bytes("MutantFist", "MachineGunner");
    assert("MutantFist"@.len() != "ChaosMage"@.len());
    lemma_distinct_bytes("MutantFist", "ChaosMage");
    assert("MutantFist"@.len() != "ModernSoldier"@.len());
    lemma_distinct_bytes("MutantFist", "ModernSoldier");
    assert("MutantFist"@.len() != "CornerSneaker"@.len());
    lemma_distinct_bytes("MutantFist", "CornerSneaker");
    assert("MutantFist"@.len() != "MageBlade"@.len());
    lemma_distinct_bytes("MutantFist", "MageBlade");
    assert("MutantFist"@[0] != "DeathBlade"@[0]);
    lemma_distinct_bytes("MutantFist", "DeathBlade");
    assert("MutantFist"@.len() != "RogueCommander"@.len());
    lemma_distinct_bytes("MutantFist", "RogueCommander");
    assert("MutantFist"@.len() != "BoyAndDjinn"@.len());
    lemma_distinct_bytes("MutantFist", "BoyAndDjinn");
    assert("MutantFist"@.len() != "DarkElf"@.len());
    lemma_distinct_bytes("MutantFist", "DarkElf");
    assert("MutantFist"@.len() != "PenguinMech"@.len());
    lemma_distinct_bytes("MutantFist", "PenguinMech");
    assert("MutantFist"@.len() != "RogueSoldier"@.len());
    lemma_distinct_bytes("MutantFist", "RogueSoldier");
}

proof fn lemma_character_row_18()
    ensures
        forall|j: int| 18 < j < 30 ==> character_table()[18].0.spec_bytes() != #[trigger] character_table()[j].0.spec_bytes(),
{
    lemma_character_entries();
    reveal_strlit("TribalHealer");
    reveal_strlit("MachineGunner");
    reveal_strlit("ChaosMage");
    reveal_strlit("ModernSoldier");
    reveal_strlit("CornerSneaker");
    reveal_strlit("MageBlade");
    reveal_strlit("DeathBlade");
    reveal_strlit("RogueCommander");
    reveal_strlit("BoyAndDjinn");
    reveal_strlit("DarkElf");
    reveal_strlit("PenguinMech");
    reveal_strlit("RogueSoldier");
    assert("TribalHealer"@.len() != "MachineGunner"@.len());
    lemma_distinct_bytes("TribalHealer", "MachineGunner");
    assert("TribalHealer"@.len() != "ChaosMage"@.len());
    lemma_distinct_bytes("TribalHealer", "ChaosMage");
    assert("TribalHealer"@.len() != "ModernSoldier"@.len());
    lemma_distinct_bytes("TribalHealer", "ModernSoldier");
    assert("TribalHealer"@.len() != "CornerSneaker"@.len());
    lemma_distinct_bytes("TribalHealer", "CornerSneaker");
    assert("TribalHealer"@.len() != "MageBlade"@.len());
    lemma_distinct_bytes("TribalHealer", "MageBlade");
    assert("TribalHealer"@.len() != "DeathBlade"@.len());
    lemma_distinct_bytes("TribalHealer", "DeathBlade");
    assert("TribalHealer"@.len() != "RogueCommander"@.len());
    lemma_distinct_bytes("TribalHealer", "RogueCommander");
    assert("TribalHealer"@.len() != "BoyAndDjinn"@.len());
    lemma_distinct_bytes("TribalHealer", "BoyAndDjinn");
    assert("TribalHealer"@.len() != "DarkElf"@.len());
    lemma_distinct_bytes("TribalHealer", "DarkElf");
    assert("TribalHealer"@.len() != "PenguinMech"@.len());
    lemma_distinct_bytes("TribalHealer", "PenguinMech");
    assert("TribalHealer"@[0] != "RogueSoldier"@[0]);
    lemma_distinct_bytes("TribalHealer", "RogueSoldier");
}

proof fn lemma_character_row_19()
    ensures
        forall|j: int| 19 < j < 30 ==> character_table()[19].0.spec_bytes() != #[trigger] character_table()[j].0.spec_bytes(),
{
    lemma_character_entries();
    reveal_strlit("MachineGunner");
    reveal_strlit("ChaosMage");
    reveal_strlit("ModernSoldier");
    reveal_strlit("CornerSneaker");
    reveal_strlit("MageBlade");
    reveal_strlit("DeathBlade");
    reveal_strlit("RogueCommander");
    reveal_strlit("BoyAndDjinn");
    reveal_strlit("DarkElf");
    reveal_strlit("PenguinMech");
    reveal_strlit("RogueSoldier");
    assert("MachineGunner"@.len() != "ChaosMage"@.len());
    lemma_distinct_bytes("MachineGunner", "ChaosMage");
    assert("MachineGunner"@[1] != "ModernSoldier"@[1]);
    lemma_distinct_bytes("MachineGunner", "ModernSoldier");
    assert("MachineGunner"@[0] != "CornerSneaker"@[0]);
    lemma_distinct_bytes("MachineGunner", "CornerSneaker");
    assert("MachineGunner"@.len() != "MageBlade"@.len());
    lemma_distinct_bytes("MachineGunner", "MageBlade");
    assert("MachineGunner"@.len() != "DeathBlade"@.len());
    lemma_distinct_bytes("MachineGunner", "DeathBlade");
    assert("MachineGunner"@.len() != "RogueCommander"@.len());
    lemma_distinct_bytes("MachineGunner", "RogueCommander");
    assert("MachineGunner"@.len() != "BoyAndDjinn"@.len());
    lemma_distinct_bytes("MachineGunner", "BoyAndDjinn");
    assert("MachineGunner"@.len() != "DarkElf"@.len());
    lemma_distinct_bytes("MachineGunner", "DarkElf");
    assert("MachineGunner"@.len() != "PenguinMech"@.len());
    lemma_distinct_bytes("MachineGunner", "PenguinMech");
    assert("MachineGunner"@.len() != "RogueSoldier"@.len());
    lemma_distinct_bytes("MachineGunner", "RogueSoldier");
}

proof fn lemma_character_row_20()
    ensures
        forall|j: int| 20 < j < 30 ==> character_table()[20].0.spec_bytes() != #[trigger] character_table()[j].0.spec_bytes(),
{
    lemma_character_entries();
    reveal_strlit("ChaosMage");
    reveal_strlit("ModernSoldier");
    reveal_strlit("CornerSneaker");
    reveal_strlit("MageBlade");
    reveal_strlit("DeathBlade");
    reveal_strlit("RogueCommander");
    reveal_strlit("BoyAndDjinn");
    reveal_strlit("DarkElf");
    reveal_strlit("PenguinMech");
    reveal_strlit("RogueSoldier");
    assert("ChaosMage"@.len() != "ModernSoldier"@.len());
    lemma_distinct_bytes("ChaosMage", "ModernSoldier");
    assert("ChaosMage"@.len() != "CornerSneaker"@.len());
    lemma_distinct_bytes("ChaosMage", "CornerSneaker");
    assert("ChaosMage"@[0] != "MageBlade"@[0]);
    lemma_distinct_bytes("ChaosMage", "MageBlade");
    assert("ChaosMage"@.len() != "DeathBlade"@.len());
    lemma_distinct_bytes("ChaosMage", "DeathBlade");
    assert("ChaosMage"@.len() != "RogueCommander"@.len());
    lemma_distinct_bytes("ChaosMage", "RogueCommander");
    assert("ChaosMage"@.len() != "BoyAndDjinn"@.len());
    lemma_distinct_bytes("ChaosMage", "BoyAndDjinn");
    assert("ChaosMage"@.len() != "DarkElf"@.len());
    lemma_distinct_bytes("ChaosMage", "DarkElf");
    assert("ChaosMage"@.len() != "PenguinMech"@.len());
    lemma_distinct_bytes("ChaosMage", "PenguinMech");
    assert("ChaosMage"@.len() != "RogueSoldier"@.len());
    lemma_distinct_bytes("ChaosMage", "RogueSoldier");
}

proof fn lemma_character_row_21()
    ensures
        forall|j: int| 21 < j < 30 ==> character_table()[21].0.spec_bytes() != #[trigger] character_table()[j].0.spec_bytes(),
{
    lemma_character_entries();
    reveal_strlit("ModernSoldier");
    reveal_strlit("CornerSneaker");
    reveal_strlit("MageBlade");
    reveal_strlit("DeathBlade");
    reveal_strlit("RogueCommander");
    reveal_strlit("BoyAndDjinn");
    reveal_strlit("DarkElf");
    reveal_strlit("PenguinMech");
    reveal_strlit("RogueSoldier");
    assert("ModernSoldier"@[0] != "CornerSneaker"@[0]);
    lemma_distinct_bytes("ModernSoldier", "CornerSneaker");
    assert("ModernSoldier"@.len() != "MageBlade"@.len());
    lemma_distinct_bytes("ModernSoldier", "MageBlade");
    assert("ModernSoldier"@.len() != "DeathBlade"@.len());
    lemma_distinct_bytes("ModernSoldier", "DeathBlade");
    assert("ModernSoldier"@.len() != "RogueCommander"@.len());
    lemma_distinct_bytes("ModernSoldier", "RogueCommander");
    assert("ModernSoldier"@.len() != "BoyAndDjinn"@.len());
    lemma_distinct_bytes("ModernSoldier", "BoyAndDjinn");
    assert("ModernSoldier"@.len() != "DarkElf"@.len());
    lemma_distinct_bytes("ModernSoldier", "DarkElf");
    assert("ModernSoldier"@.len() != "PenguinMech"@.len());
    lemma_distinct_bytes("ModernSoldier", "PenguinMech");
    assert("ModernSoldier"@.len() != "RogueSoldier"@.len());
    lemma_distinct_bytes("ModernSoldier", "RogueSoldier");
}

proof fn lemma_character_row_22()
    ensures
        forall|j: int| 22 < j < 30 ==> character_table()[22].0.spec_bytes() != #[trigger] character_table()[j].0.spec_bytes(),
{
    lemma_character_entries();
    reveal_strlit("CornerSneaker");
    reveal_strlit("MageBlade");
    reveal_strlit("DeathBlade");
    reveal_strlit("RogueCommander");
    reveal_strlit("BoyAndDjinn");
    reveal_strlit("DarkElf");
    reveal_strlit("PenguinMech");
    reveal_strlit("RogueSoldier");
    assert("CornerSneaker"@.len() != "MageBlade"@.len());
    lemma_distinct_bytes("CornerSneaker", "MageBlade");
    assert("CornerSneaker"@.len() != "DeathBlade"@.len());
    lemma_distinct_bytes("CornerSneaker", "DeathBlade");
    assert("CornerSneaker"@.len() != "RogueCommander"@.len());
    lemma_distinct_bytes("CornerSneaker", "RogueCommander");
    assert("CornerSneaker"@.len() != "BoyAndDjinn"@.len());
    lemma_distinct_bytes("CornerSneaker", "BoyAndDjinn");
    assert("CornerSneaker"@.len() != "DarkElf"@.len());
    lemma_distinct_bytes("CornerSneaker", "DarkElf");
    assert("CornerSneaker"@.len() != "PenguinMech"@.len());
    lemma_distinct_bytes("CornerSneaker", "PenguinMech");
    assert("CornerSneaker"@.len() != "RogueSoldier"@.len());
    lemma_distinct_bytes("CornerSneaker", "RogueSoldier");
}

proof fn lemma_character_row_23()
    ensures
        forall|j: int| 23 < j < 30 ==> character_table()[23].0.spec_bytes() != #[trigger] character_table()[j].0.spec_bytes(),
{
    lemma_character_entries();
    reveal_strlit("MageBlade");
    reveal_strlit("DeathBlade");
    reveal_strlit("RogueCommander");
    reveal_strlit("BoyAndDjinn");
    reveal_strlit("DarkElf");
    reveal_strlit("PenguinMech");
    reveal_strlit("RogueSoldier");
    assert("MageBlade"@.len() != "DeathBlade"@.len());
    lemma_distinct_bytes("MageBlade", "DeathBlade");
    assert("MageBlade"@.len() != "RogueCommander"@.len());
    lemma_distinct_bytes("MageBlade", "RogueCommander");
    assert("MageBlade"@.len() != "BoyAndDjinn"@.len());
    lemma_distinct_bytes("MageBlade", "BoyAndDjinn");
    assert("MageBlade"@.len() != "DarkElf"@.len());
    lemma_distinct_bytes("MageBlade", "DarkElf");
    assert("MageBlade"@.len() != "PenguinMech"@.len());
    lemma_distinct_bytes("MageBlade", "PenguinMech");
    assert("MageBlade"@.len() != "RogueSoldier"@.len());
    lemma_distinct_bytes("MageBlade", "RogueSoldier");
}

proof fn lemma_character_row_24()
    ensures
        forall|j: int| 24 < j < 30 ==> character_table()[24].0.spec_bytes() != #[trigger] character_table()[j].0.spec_bytes(),
{
    lemma_character_entries();
    reveal_strlit("DeathBlade");
    reveal_strlit("RogueCommander");
    reveal_strlit("BoyAndDjinn");
    reveal_strlit("DarkElf");
    reveal_strlit("PenguinMech");
    reveal_strlit("RogueSoldier");
    assert("DeathBlade"@.len() != "RogueCommander"@.len());
    lemma_distinct_bytes("DeathBlade", "RogueCommander");
    assert("DeathBlade"@.len() != "BoyAndDjinn"@.len());
    lemma_distinct_bytes("DeathBlade", "BoyAndDjinn");
    assert("DeathBlade"@.len() != "DarkElf"@.len());
    lemma_distinct_bytes("DeathBlade", "DarkElf");
    assert("DeathBlade"@.len() != "PenguinMech"@.len());
    lemma_distinct_bytes("DeathBlade", "PenguinMech");
    assert("DeathBlade"@.len() != "RogueSoldier"@.len());
    lemma_distinct_bytes("DeathBlade", "RogueSoldier");
}

proof fn lemma_character_row_25()
    ensures
        forall|j: int| 25 < j < 30 ==> character_table()[25].0.spec_bytes() != #[trigger] character_table()[j].0.spec_bytes(),
{
    lemma_character_entries();
    reveal_strlit("RogueCommander");
    reveal_strlit("BoyAndDjinn");
    reveal_strlit("DarkElf");
    reveal_strlit("PenguinMech");
    reveal_strlit("RogueSoldier");
    assert("RogueCommander"@.len() != "BoyAndDjinn"@.len());
    lemma_distinct_bytes("RogueCommander", "BoyAndDjinn");
    assert("RogueCommander"@.len() != "DarkElf"@.len());
    lemma_distinct_bytes("RogueCommander", "DarkElf");
    assert("RogueCommander"@.len() != "PenguinMech"@.len());
    lemma_distinct_bytes("RogueCommander", "PenguinMech");
    assert("RogueCommander"@.len() != "RogueSoldier"@.len());
    lemma_distinct_bytes("RogueCommander", "RogueSoldier");
}

proof fn lemma_character_row_26()
    ensures
        forall|j: int| 26 < j < 30 ==> character_table()[26].0.spec_bytes() != #[trigger] character_table()[j].0.spec_bytes(),
{
    lemma_character_entries();
    reveal_strlit("BoyAndDjinn");
    reveal_strlit("DarkElf");
    reveal_strlit("PenguinMech");
    reveal_strlit("RogueSoldier");
    assert("BoyAndDjinn"@.len() != "DarkElf"@.len());
    lemma_distinct_bytes("BoyAndDjinn", "DarkElf");
    assert("BoyAndDjinn"@[0] != "PenguinMech"@[0]);
    lemma_distinct_bytes("BoyAndDjinn", "PenguinMech");
    assert("BoyAndDjinn"@.len() != "RogueSoldier"@.len());
    lemma_distinct_bytes("BoyAndDjinn", "RogueSoldier");
}

proof fn lemma_character_row_27()
    ensures
        forall|j: int| 27 < j < 30 ==> character_table()[27].0.spec_bytes() != #[trigger] character_table()[j].0.spec_bytes(),
{
    lemma_character_entries();
    reveal_strlit("DarkElf");
    reveal_strlit("PenguinMech");
    reveal_strlit("RogueSoldier");
    assert("DarkElf"@.len() != "PenguinMech"@.len());
    lemma_distinct_bytes("DarkElf", "PenguinMech");
    assert("DarkElf"@.len() != "RogueSoldier"@.len());
    lemma_distinct_bytes("DarkElf", "RogueSoldier");
}

proof fn lemma_character_row_28()
    ensures
        forall|j: int| 28 < j < 30 ==> character_table()[28].0.spec_bytes() != #[trigger] character_table()[j].0.spec_bytes(),
{
    lemma_character_entries();
    reveal_strlit("PenguinMech");
    reveal_strlit("RogueSoldier");
    assert("PenguinMech"@.len() != "RogueSoldier"@.len());
    lemma_distinct_bytes("PenguinMech", "RogueSoldier");
}

proof fn lemma_map_entries()
    ensures
        map_table().len() == 14,
        map_table()[0] == "PvE_Prologue_P",
        map_table()[1] == "Caverns_P",
        map_table()[2] == "Portal_P",
        map_table()[3] == "Captains_P",
        map_table()[4] == "Evacuation_P",
        map_table()[5] == "Ruins_P",
        map_table()[6] == "Observatory_p",
        map_table()[7] == "Refinery_P",
        map_table()[8] == "Cathedral_P",
        map_table()[9] == "Slums_P",
        map_table()[10] == "Toby_Raid_P",
        map_table()[11] == "CullingFacility_P",
        map_table()[12] == "TallTales_P",
        map_table()[13] == "Heart_Ekkunar_P",
{
    let t = map_table();
}

proof fn lemma_map_row_0()
    ensures
        forall|j: int| 0 < j < 14 ==> map_table()[0].spec_bytes() != #[trigger] map_table()[j].spec_bytes(),
{
    lemma_map_entries();
    reveal_strlit("PvE_Prologue_P");
    reveal_strlit("Caverns_P");
    reveal_strlit("Portal_P");
    reveal_strlit("Captains_P");
    reveal_strlit("Evacuation_P");
    reveal_strlit("Ruins_P");
    reveal_strlit("Observatory_p");
    reveal_strlit("Refinery_P");
    reveal_strlit("Cathedral_P");
    reveal_strlit("Slums_P");
    reveal_strlit("Toby_Raid_P");
    reveal_strlit("CullingFacility_P");
    reveal_strlit("TallTales_P");
    reveal_strlit("Heart_Ekkunar_P");
    assert("PvE_Prologue_P"@.len() != "Caverns_P"@.len());
    lemma_distinct_bytes("PvE_Prologue_P", "Caverns_P");
    assert("PvE_Prologue_P"@.len() != "Portal_P"@.len());
    lemma_distinct_bytes("PvE_Prologue_P", "Portal_P");
    assert("PvE_Prologue_P"@.len() != "Captains_P"@.len());
    lemma_distinct_bytes("PvE_Prologue_P", "Captains_P");
    assert("PvE_Prologue_P"@.len() != "Evacuation_P"@.len());
    lemma_distinct_bytes("PvE_Prologue_P", "Evacuation_P");
    assert("PvE_Prologue_P"@.len() != "Ruins_P"@.len());
    lemma_distinct_bytes("PvE_Prologue_P", "Ruins_P");
    assert("PvE_Prologue_P"@.len() != "Observatory_p"@.len());
    lemma_distinct_bytes("PvE_Prologue_P", "Observatory_p");
    assert("PvE_Prologue_P"@.len() != "Refinery_P"@.len());
    lemma_distinct_bytes("PvE_Prologue_P", "Refinery_P");
    assert("PvE_Prologue_P"@.len() != "Cathedral_P"@.len());
    lemma_distinct_bytes("PvE_Prologue_P", "Cathedral_P");
    assert("PvE_Prologue_P"@.len() != "Slums_P"@.len());
    lemma_distinct_bytes("PvE_Prologue_P", "Slums_P");
    assert("PvE_Prologue_P"@.len() != "Toby_Raid_P"@.len());
    lemma_distinct_bytes("PvE_Prologue_P", "Toby_Raid_P");
    assert("PvE_Prologue_P"@.len() != "CullingFacility_P"@.len());
    lemma_distinct_bytes("PvE_Prologue_P", "CullingFacility_P");
    assert("PvE_Prologue_P"@.len() != "TallTales_P"@.len());
    lemma_distinct_bytes("PvE_Prologue_P", "TallTales_P");
    assert("PvE_Prologue_P"@.len() != "Heart_Ekkunar_P"@.len());
    lemma_distinct_bytes("PvE_Prologue_P", "Heart_Ekkunar_P");
}

proof fn lemma_map_row_1()
    ensures
        forall|j: int| 1 < j < 14 ==> map_table()[1].spec_bytes() != #[trigger] map_table()[j].spec_bytes(),
{
    lemma_map_entries();
    reveal_strlit("Caverns_P");
    reveal_strlit("Portal_P");
    reveal_strlit("Captains_P");
    reveal_strlit("Evacuation_P");
    reveal_strlit("Ruins_P");
    reveal_strlit("Observatory_p");
    reveal_strlit("Refinery_P");
    reveal_strlit("Cathedral_P");
    reveal_strlit("Slums_P");
    reveal_strlit("Toby_Raid_P");
    reveal_strlit("CullingFacility_P");
    reveal_strlit("TallTales_P");
    reveal_strlit("Heart_Ekkunar_P");
    assert("Caverns_P"@.len() != "Portal_P"@.len());
    lemma_distinct_bytes("Caverns_P", "Portal_P");
    assert("Caverns_P"@.len() != "Captains_P"@.len());
    lemma_distinct_bytes("Caverns_P", "Captains_P");
    assert("Caverns_P"@.len() != "Evacuation_P"@.len());
    lemma_distinct_bytes("Caverns_P", "Evacuation_P");
    assert("Caverns_P"@.len() != "Ruins_P"@.len());
    lemma_distinct_bytes("Caverns_P", "Ruins_P");
    assert("Caverns_P"@.len() != "Observatory_p"@.len());
    lemma_distinct_bytes("Caverns_P", "Observatory_p");
    assert("Caverns_P"@.len() != "Refinery_P"@.len());
    lemma_distinct_bytes("Caverns_P", "Refinery_P");
    assert("Caverns_P"@.len() != "Cathedral_P"@.len());
    lemma_distinct_bytes("Caverns_P", "Cathedral_P");
    assert("Caverns_P"@.len() != "Slums_P"@.len());
    lemma_distinct_bytes("Caverns_P", "Slums_P");
    assert("Caverns_P"@.len() != "Toby_Raid_P"@.len());
    lemma_distinct_bytes("Caverns_P", "Toby_Raid_P");
    assert("Caverns_P"@.len() != "CullingFacility_P"@.len());
    lemma_distinct_bytes("Caverns_P", "CullingFacility_P");
    assert("Caverns_P"@.len() != "TallTales_P"@.len());
    lemma_distinct_bytes("Caverns_P", "TallTales_P");
    assert("Caverns_P"@.len() != "Heart_Ekkunar_P"@.len());
    lemma_distinct_bytes("Caverns_P", "Heart_Ekkunar_P");
}

proof fn lemma_map_row_2()
    ensures
        forall|j: int| 2 < j < 14 ==> map_table()[2].spec_bytes() != #[trigger] map_table()[j].spec_bytes(),
{
    lemma_map_entries();
    reveal_strlit("Portal_P");
    reveal_strlit("Captains_P");
    reveal_strlit("Evacuation_P");
    reveal_strlit("Ruins_P");
    reveal_strlit("Observatory_p");
    reveal_strlit("Refinery_P");
    reveal_strlit("Cathedral_P");
    reveal_strlit("Slums_P");
    reveal_strlit("Toby_Raid_P");
    reveal_strlit("CullingFacility_P");
    reveal_strlit("TallTales_P");
    reveal_strlit("Heart_Ekkunar_P");
    assert("Portal_P"@.len() != "Captains_P"@.len());
    lemma_distinct_bytes("Portal_P", "Captains_P");
    assert("Portal_P"@.len() != "Evacuation_P"@.len());
    lemma_distinct_bytes("Portal_P", "Evacuation_P");
    assert("Portal_P"@.len() != "Ruins_P"@.len());
    lemma_distinct_bytes("Portal_P", "Ruins_P");
    assert("Portal_P"@.len() != "Observatory_p"@.len());
    lemma_distinct_bytes("Portal_P", "Observatory_p");
    assert("Portal_P"@.len() != "Refinery_P"@.len());
    lemma_distinct_bytes("Portal_P", "Refinery_P");
    assert("Portal_P"@.len() != "Cathedral_P"@.len());
    lemma_distinct_bytes("Portal_P", "Cathedral_P");
    assert("Portal_P"@.len() != "Slums_P"@.len());
    lemma_distinct_bytes("Portal_P", "Slums_P");
    assert("Portal_P"@.len() != "Toby_Raid_P"@.len());
    lemma_distinct_bytes("Portal_P", "Toby_Raid_P");
    assert("Portal_P"@.len() != "CullingFacility_P"@.len());
    lemma_distinct_bytes("Portal_P", "CullingFacility_P");
    assert("Portal_P"@.len() != "TallTales_P"@.len());
    lemma_distinct_bytes("Portal_P", "TallTales_P");
    assert("Portal_P"@.len() != "Heart_Ekkunar_P"@.len());
    lemma_distinct_bytes("Portal_P", "Heart_Ekkunar_P");
}

proof fn lemma_map_row_3()
    ensures
        forall|j: int| 3 < j < 14 ==> map_table()[3].spec_bytes() != #[trigger] map_table()[j].spec_bytes(),
{
    lemma_map_entries();
    reveal_strlit("Captains_P");
    reveal_strlit("Evacuation_P");
    reveal_strlit("Ruins_P");
    reveal_strlit("Observatory_p");
    reveal_strlit("Refinery_P");
    reveal_strlit("Cathedral_P");
    reveal_strlit("Slums_P");
    reveal_strlit("Toby_Raid_P");
    reveal_strlit("CullingFacility_P");
    reveal_strlit("TallTales_P");
    reveal_strlit("Heart_Ekkunar_P");
    assert("Captains_P"@.len() != "Evacuation_P"@.len());
    lemma_distinct_bytes("Captains_P", "Evacuation_P");
    assert("Captains_P"@.len() != "Ruins_P"@.len());
    lemma_distinct_bytes("Captains_P", "Ruins_P");
    assert("Captains_P"@.len() != "Observatory_p"@.len());
    lemma_distinct_bytes("Captains_P", "Observatory_p");
    assert("Captains_P"@[0] != "Refinery_P"@[0]);
    lemma_distinct_bytes("Captains_P", "Refinery_P");
    assert("Captains_P"@.len() != "Cathedral_P"@.len());
    lemma_distinct_bytes("Captains_P", "Cathedral_P");
    assert("Captains_P"@.len() != "Slums_P"@.len());
    lemma_distinct_bytes("Captains_P", "Slums_P");
    assert("Captains_P"@.len() != "Toby_Raid_P"@.len());
    lemma_distinct_bytes("Captains_P", "Toby_Raid_P");
    assert("Captains_P"@.len() != "CullingFacility_P"@.len());
    lemma_distinct_bytes("Captains_P", "CullingFacility_P");
    assert("Captains_P"@.len() != "TallTales_P"@.len());
    lemma_distinct_bytes("Captains_P", "TallTales_P");
    assert("Captains_P"@.len() != "Heart_Ekkunar_P"@.len());
    lemma_distinct_bytes("Captains_P", "Heart_Ekkunar_P");
}

proof fn lemma_map_row_4()
    ensures
        forall|j: int| 4 < j < 14 ==> map_table()[4].spec_bytes() != #[trigger] map_table()[j].spec_bytes(),
{
    lemma_map_entries();
    reveal_strlit("Evacuation_P");
    reveal_strlit("Ruins_P");
    reveal_strlit("Observatory_p");
    reveal_strlit("Refinery_P");
    reveal_strlit("Cathedral_P");
    reveal_strlit("Slums_P");
    reveal_strlit("Toby_Raid_P");
    reveal_strlit("CullingFacility_P");
    reveal_strlit("TallTales_P");
    reveal_strlit("Heart_Ekkunar_P");
    assert("Evacuation_P"@.len() != "Ruins_P"@.len());
    lemma_distinct_bytes("Evacuation_P", "Ruins_P");
    assert("Evacuation_P"@.len() != "Observatory_p"@.len());
    lemma_distinct_bytes("Evacuation_P", "Observatory_p");
    assert("Evacuation_P"@.len() != "Refinery_P"@.len());
    lemma_distinct_bytes("Evacuation_P", "Refinery_P");
    assert("Evacuation_P"@.len() != "Cathedral_P"@.len());
    lemma_distinct_bytes("Evacuation_P", "Cathedral_P");
    assert("Evacuation_P"@.len() != "Slums_P"@.len());
    lemma_distinct_bytes("Evacuation_P", "Slums_P");
    assert("Evacuation_P"@.len() != "Toby_Raid_P"@.len());
    lemma_distinct_bytes("Evacuation_P", "Toby_Raid_P");
    assert("Evacuation_P"@.len() != "CullingFacility_P"@.len());
    lemma_distinct_bytes("Evacuation_P", "CullingFacility_P");
    assert("Evacuation_P"@.len() != "TallTales_P"@.len());
    lemma_distinct_bytes("Evacuation_P", "TallTales_P");
    assert("Evacuation_P"@.len() != "Heart_Ekkunar_P"@.len());
    lemma_distinct_bytes("Evacuation_P", "Heart_Ekkunar_P");
}

proof fn lemma_map_row_5()
    ensures
        forall|j: int| 5 < j < 14 ==> map_table()[5].spec_bytes() != #[trigger] map_table()[j].spec_bytes(),
{
    lemma_map_entries();
    reveal_strlit("Ruins_P");
    reveal_strlit("Observatory_p");
    reveal_strlit("Refinery_P");
    reveal_strlit("Cathedral_P");
    reveal_strlit("Slums_P");
    reveal_strlit("Toby_Raid_P");
    reveal_strlit("CullingFacility_P");
    reveal_strlit("TallTales_P");
    reveal_strlit("Heart_Ekkunar_P");
    assert("Ruins_P"@.len() != "Observatory_p"@.len());
    lemma_distinct_bytes("Ruins_P", "Observatory_p");
    assert("Ruins_P"@.len() != "Refinery_P"@.len());
    lemma_distinct_bytes("Ruins_P", "Refinery_P");
    assert("Ruins_P"@.len() != "Cathedral_P"@.len());
    lemma_distinct_bytes("Ruins_P", "Cathedral_P");
    assert("Ruins_P"@[0] != "Slums_P"@[0]);
    lemma_distinct_bytes("Ruins_P", "Slums_P");
    assert("Ruins_P"@.len() != "Toby_Raid_P"@.len());
    lemma_distinct_bytes("Ruins_P", "Toby_Raid_P");
    assert("Ruins_P"@.len() != "CullingFacility_P"@.len());
    lemma_distinct_bytes("Ruins_P", "CullingFacility_P");
    assert("Ruins_P"@.len() != "TallTales_P"@.len());
    lemma_distinct_bytes("Ruins_P", "TallTales_P");
    assert("Ruins_P"@.len() != "Heart_Ekkunar_P"@.len());
    lemma_distinct_bytes("Ruins_P", "Heart_Ekkunar_P");
}

proof fn lemma_map_row_6()
    ensures
        forall|j: int| 6 < j < 14 ==> map_table()[6].spec_bytes() != #[trigger] map_table()[j].spec_bytes(),
{
    lemma_map_entries();
    reveal_strlit("Observatory_p");
    reveal_strlit("Refinery_P");
    reveal_strlit("Cathedral_P");
    reveal_strlit("Slums_P");
    reveal_strlit("Toby_Raid_P");
    reveal_strlit("CullingFacility_P");
    reveal_strlit("TallTales_P");
    reveal_strlit("Heart_Ekkunar_P");
    assert("Observatory_p"@.len() != "Refinery_P"@.len());
    lemma_distinct_bytes("Observatory_p", "Refinery_P");
    assert("Observatory_p"@.len() != "Cathedral_P"@.len());
    lemma_distinct_bytes("Observatory_p", "Cathedral_P");
    assert("Observatory_p"@.len() != "Slums_P"@.len());
    lemma_distinct_bytes("Observatory_p", "Slums_P");
    assert("Observatory_p"@.len() != "Toby_Raid_P"@.len());
    lemma_distinct_bytes("Observatory_p", "Toby_Raid_P");
    assert("Observatory_p"@.len() != "CullingFacility_P"@.len());
    lemma_distinct_bytes("Observatory_p", "CullingFacility_P");
    assert("Observatory_p"@.len() != "TallTales_P"@.len());
    lemma_distinct_bytes("Observatory_p", "TallTales_P");
    assert("Observatory_p"@.len() != "Heart_Ekkunar_P"@.len());
    lemma_distinct_bytes("Observatory_p", "Heart_Ekkunar_P");
}

proof fn lemma_map_row_7()
    ensures
        forall|j: int| 7 < j < 14 ==> map_table()[7].spec_bytes() != #[trigger] map_table()[j].spec_bytes(),
{
    lemma_map_entries();
    reveal_strlit("Refinery_P");
    reveal_strlit("Cathedral_P");
    reveal_strlit("Slums_P");
    reveal_strlit("Toby_Raid_P");
    reveal_strlit("CullingFacility_P");
    reveal_strlit("TallTales_P");
    reveal_strlit("Heart_Ekkunar_P");
    assert("Refinery_P"@.len() != "Cathedral_P"@.len());
    lemma_distinct_bytes("Refinery_P", "Cathedral_P");
    assert("Refinery_P"@.len() != "Slums_P"@.len());
    lemma_distinct_bytes("Refinery_P", "Slums_P");
    assert("Refinery_P"@.len() != "Toby_Raid_P"@.len());
    lemma_distinct_bytes("Refinery_P", "Toby_Raid_P");
    assert("Refinery_P"@.len() != "CullingFacility_P"@.len());
    lemma_distinct_bytes("Refinery_P", "CullingFacility_P");
    assert("Refinery_P"@.len() != "TallTales_P"@.len());
    lemma_distinct_bytes("Refinery_P", "TallTales_P");
    assert("Refinery_P"@.len() != "Heart_Ekkunar_P"@.len());
    lemma_distinct_bytes("Refinery_P", "Heart_Ekkunar_P");
}

proof fn lemma_map_row_8()
    ensures
        forall|j: int| 8 < j < 14 ==> map_table()[8].spec_bytes() != #[trigger] map_table()[j].spec_bytes(),
{
    lemma_map_entries();
    reveal_strlit("Cathedral_P");
    reveal_strlit("Slums_P");
    reveal_strlit("Toby_Raid_P");
    reveal_strlit("CullingFacility_P");
    reveal_strlit("TallTales_P");
    reveal_strlit("Heart_Ekkunar_P");
    assert("Cathedral_P"@.len() != "Slums_P"@.len());
    lemma_distinct_bytes("Cathedral_P", "Slums_P");
    assert("Cathedral_P"@[0] != "Toby_Raid_P"@[0]);
    lemma_distinct_bytes("Cathedral_P", "Toby_Raid_P");
    assert("Cathedral_P"@.len() != "CullingFacility_P"@.len());
    lemma_distinct_bytes("Cathedral_P", "CullingFacility_P");
    assert("Cathedral_P"@[0] != "TallTales_P"@[0]);
    lemma_distinct_bytes("Cathedral_P", "TallTales_P");
    assert("Cathedral_P"@.len() != "Heart_Ekkunar_P"@.len());
    lemma_distinct_bytes("Cathedral_P", "Heart_Ekkunar_P");
}

proof fn lemma_map_row_9()
    ensures
        forall|j: int| 9 < j < 14 ==> map_table()[9].spec_bytes() != #[trigger] map_table()[j].spec_bytes(),
{
    lemma_map_entries();
    reveal_strlit("Slums_P");
    reveal_strlit("Toby_Raid_P");
    reveal_strlit("CullingFacility_P");
    reveal_strlit("TallTales_P");
    reveal_strlit("Heart_Ekkunar_P");
    assert("Slums_P"@.len() != "Toby_Raid_P"@.len());
    lemma_distinct_bytes("Slums_P", "Toby_Raid_P");
    assert("Slums_P"@.len() != "CullingFacility_P"@.len());
    lemma_distinct_bytes("Slums_P", "CullingFacility_P");
    assert("Slums_P"@.len() != "TallTales_P"@.len());
    lemma_distinct_bytes("Slums_P", "TallTales_P");
    assert("Slums_P"@.len() != "Heart_Ekkunar_P"@.len());
    lemma_distinct_bytes("Slums_P", "Heart_Ekkunar_P");
}

proof fn lemma_map_row_10()
    ensures
        forall|j: int| 10 < j < 14 ==> map_table()[10].spec_bytes() != #[trigger] map_table()[j].spec_bytes(),
{
    lemma_map_entries();
    reveal_strlit("Toby_Raid_P");
    reveal_strlit("CullingFacility_P");
    reveal_strlit("TallTales_P");
    reveal_strlit("Heart_Ekkunar_P");
    assert("Toby_Raid_P"@.len() != "CullingFacility_P"@.len());
    lemma_distinct_bytes("Toby_Raid_P", "CullingFacility_P");
    assert("Toby_Raid_P"@[1] != "TallTales_P"@[1]);
    lemma_distinct_bytes("Toby_Raid_P", "TallTales_P");
    assert("Toby_Raid_P"@.len() != "Heart_Ekkunar_P"@.len());
    lemma_distinct_bytes("Toby_Raid_P", "Heart_Ekkunar_P");
}

proof fn lemma_map_row_11()
    ensures
        forall|j: int| 11 < j < 14 ==> map_table()[11].spec_bytes() != #[trigger] map_table()[j].spec_bytes(),
{
    lemma_map_entries();
    reveal_strlit("CullingFacility_P");
    reveal_strlit("TallTales_P");
    reveal_strlit("Heart_Ekkunar_P");
    assert("CullingFacility_P"@.len() != "TallTales_P"@.len());
    lemma_distinct_bytes("CullingFacility_P", "TallTales_P");
    assert("CullingFacility_P"@.len() != "Heart_Ekkunar_P"@.len());
    lemma_distinct_bytes("CullingFacility_P", "Heart_Ekkunar_P");
}

proof fn lemma_map_row_12()
    ensures
        forall|j: int| 12 < j < 14 ==> map_table()[12].spec_bytes() != #[trigger] map_table()[j].spec_bytes(),
{
    lemma_map_entries();
    reveal_strlit("TallTales_P");
    reveal_strlit("Heart_Ekkunar_P");
    assert("TallTales_P"@.len() != "Heart_Ekkunar_P"@.len());
    lemma_distinct_bytes("TallTales_P", "Heart_Ekkunar_P");
}

/// No two entries of the character table share a selector.
pub proof fn lemma_character_keys_distinct()
    ensures
        forall|i: int, j: int|
            0 <= i < j < character_table().len() ==> (#[trigger] character_table()[i]).0.spec_bytes()
                != (#[trigger] character_table()[j]).0.spec_bytes(),
{
    lemma_character_entries();
    assert forall|i: int, j: int| 0 <= i < j < character_table().len() implies (#[trigger] character_table()[i]).0.spec_bytes()
        != (#[trigger] character_table()[j]).0.spec_bytes() by {
        if i == 0 { lemma_character_row_0(); }
        if i == 1 { lemma_character_row_1(); }
        if i == 2 { lemma_character_row_2(); }
        if i == 3 { lemma_character_row_3(); }
        if i == 4 { lemma_character_row_4(); }
        if i == 5 { lemma_character_row_5(); }
        if i == 6 { lemma_character_row_6(); }
        if i == 7 { lemma_character_row_7(); }
        if i == 8 { lemma_character_row_8(); }
        if i == 9 { lemma_character_row_9(); }
        if i == 10 { lemma_character_row_10(); }
        if i == 11 { lemma_character_row_11(); }
        if i == 12 { lemma_character_row_12(); }
        if i == 13 { lemma_character_row_13(); }
        if i == 14 { lemma_character_row_14(); }
        if i == 15 { lemma_character_row_15(); }
        if i == 16 { lemma_character_row_16(); }
        if i == 17 { lemma_character_row_17(); }
        if i == 18 { lemma_character_row_18(); }
        if i == 19 { lemma_character_row_19(); }
        if i == 20 { lemma_character_row_20(); }
        if i == 21 { lemma_character_row_21(); }
        if i == 22 { lemma_character_row_22(); }
        if i == 23 { lemma_character_row_23(); }
        if i == 24 { lemma_character_row_24(); }
        if i == 25 { lemma_character_row_25(); }
        if i == 26 { lemma_character_row_26(); }
        if i == 27 { lemma_character_row_27(); }
        if i == 28 { lemma_character_row_28(); }
    }
}

/// No level appears twice in the map table.
pub proof fn lemma_map_keys_distinct()
    ensures
        forall|i: int, j: int|
            0 <= i < j < map_table().len() ==> (#[trigger] map_table()[i]).spec_bytes() != (#[trigger] map_table()[j]).spec_bytes(),
{
    lemma_map_entries();
    assert forall|i: int, j: int| 0 <= i < j < map_table().len() implies (#[trigger] map_table()[i]).spec_bytes()
        != (#[trigger] map_table()[j]).spec_bytes() by {
        if i == 0 { lemma_map_row_0(); }
        if i == 1 { lemma_map_row_1(); }
        if i == 2 { lemma_map_row_2(); }
        if i == 3 { lemma_map_row_3(); }
        if i == 4 { lemma_map_row_4(); }
        if i == 5 { lemma_map_row_5(); }
        if i == 6 { lemma_map_row_6(); }
        if i == 7 { lemma_map_row_7(); }
        if i == 8 { lemma_map_row_8(); }
        if i == 9 { lemma_map_row_9(); }
        if i == 10 { lemma_map_row_10(); }
        if i == 11 { lemma_map_row_11(); }
        if i == 12 { lemma_map_row_12(); }
    }
}

} // verus!
