//! The records that the API returns, each with its mathematical value and
//! its decoder.
//!
//! A record is decoded from a JSON object. Its members are read in the order
//! of the record's fields, and the first that is missing or ill-typed decides
//! the error; members that the record does not name are ignored. A member
//! that holds a fraction is kept as the [`Number`] that the document gave.

use vstd::prelude::*;
use crate::live::decode::{
    decode_entries, decoded_entries, field, members_of, read_field, Decode, DecodeError,
};
use crate::live::json::{Json, JsonView, Number, NumberView};

pub use crate::live::events::{GameEvent, GameEventAll, GameEventType};

verus! {

/// An item in a player's inventory.
#[derive(Debug)]
pub struct PlayerItem {
    pub item_id: i32,
    pub can_use: bool,
    pub consumable: bool,
    pub count: i32,
    pub display_name: String,
    pub price: i32,
    pub raw_description: String,
    pub raw_display_name: String,
    pub slot: i32,
}

/// The mathematical value of a [`PlayerItem`].
pub ghost struct PlayerItemView {
    pub item_id: i32,
    pub can_use: bool,
    pub consumable: bool,
    pub count: i32,
    pub display_name: Seq<char>,
    pub price: i32,
    pub raw_description: Seq<char>,
    pub raw_display_name: Seq<char>,
    pub slot: i32,
}

impl DeepView for PlayerItem {
    type V = PlayerItemView;

    open spec fn deep_view(&self) -> PlayerItemView {
        PlayerItemView {
            item_id: self.item_id,
            can_use: self.can_use,
            consumable: self.consumable,
            count: self.count,
            display_name: self.display_name@,
            price: self.price,
            raw_description: self.raw_description@,
            raw_display_name: self.raw_display_name@,
            slot: self.slot,
        }
    }
}

impl Decode for PlayerItem {
    open spec fn decoded(j: JsonView) -> Result<PlayerItemView, DecodeError> {
        match j {
            JsonView::Object(m) => {
                let item_id = field::<i32>(m, "itemID"@);
                let can_use = field::<bool>(m, "canUse"@);
                let consumable = field::<bool>(m, "consumable"@);
                let count = field::<i32>(m, "count"@);
                let display_name = field::<String>(m, "displayName"@);
                let price = field::<i32>(m, "price"@);
                let raw_description = field::<String>(m, "rawDescription"@);
                let raw_display_name = field::<String>(m, "rawDisplayName"@);
                let slot = field::<i32>(m, "slot"@);
                if item_id is Err {
                    Err(item_id->Err_0)
                } else if can_use is Err {
                    Err(can_use->Err_0)
                } else if consumable is Err {
                    Err(consumable->Err_0)
                } else if count is Err {
                    Err(count->Err_0)
                } else if display_name is Err {
                    Err(display_name->Err_0)
                } else if price is Err {
                    Err(price->Err_0)
                } else if raw_description is Err {
                    Err(raw_description->Err_0)
                } else if raw_display_name is Err {
                    Err(raw_display_name->Err_0)
                } else if slot is Err {
                    Err(slot->Err_0)
                } else {
                    Ok(
                        PlayerItemView {
                            item_id: item_id->Ok_0,
                            can_use: can_use->Ok_0,
                            consumable: consumable->Ok_0,
                            count: count->Ok_0,
                            display_name: display_name->Ok_0,
                            price: price->Ok_0,
                            raw_description: raw_description->Ok_0,
                            raw_display_name: raw_display_name->Ok_0,
                            slot: slot->Ok_0,
                        },
                    )
                }
            },
            _ => Err(DecodeError::WrongType),
        }
    }

    open spec fn absent() -> Result<PlayerItemView, DecodeError> {
        Err(DecodeError::MissingField)
    }

    fn decode(j: &Json) -> (r: Result<PlayerItem, DecodeError>) {
        let m = members_of(j)?;
        let item_id = read_field::<i32>(m, "itemID")?;
        let can_use = read_field::<bool>(m, "canUse")?;
        let consumable = read_field::<bool>(m, "consumable")?;
        let count = read_field::<i32>(m, "count")?;
        let display_name = read_field::<String>(m, "displayName")?;
        let price = read_field::<i32>(m, "price")?;
        let raw_description = read_field::<String>(m, "rawDescription")?;
        let raw_display_name = read_field::<String>(m, "rawDisplayName")?;
        let slot = read_field::<i32>(m, "slot")?;
        Ok(
            PlayerItem {
                item_id,
                can_use,
                consumable,
                count,
                display_name,
                price,
                raw_description,
                raw_display_name,
                slot,
            },
        )
    }

    fn when_absent() -> (r: Result<PlayerItem, DecodeError>) {
        Err(DecodeError::MissingField)
    }
}

/// A player's score line.
#[derive(Debug)]
pub struct PlayerScore {
    pub assists: i32,
    pub creep_score: i32,
    pub deaths: i32,
    pub kills: i32,
    pub ward_score: i32,
}

/// The mathematical value of a [`PlayerScore`].
pub ghost struct PlayerScoreView {
    pub assists: i32,
    pub creep_score: i32,
    pub deaths: i32,
    pub kills: i32,
    pub ward_score: i32,
}

impl DeepView for PlayerScore {
    type V = PlayerScoreView;

    open spec fn deep_view(&self) -> PlayerScoreView {
        PlayerScoreView {
            assists: self.assists,
            creep_score: self.creep_score,
            deaths: self.deaths,
            kills: self.kills,
            ward_score: self.ward_score,
        }
    }
}

impl Decode for PlayerScore {
    open spec fn decoded(j: JsonView) -> Result<PlayerScoreView, DecodeError> {
        match j {
            JsonView::Object(m) => {
                let assists = field::<i32>(m, "assists"@);
                let creep_score = field::<i32>(m, "creepScore"@);
                let deaths = field::<i32>(m, "deaths"@);
                let kills = field::<i32>(m, "kills"@);
                let ward_score = field::<i32>(m, "wardScore"@);
                if assists is Err {
                    Err(assists->Err_0)
                } else if creep_score is Err {
                    Err(creep_score->Err_0)
                } else if deaths is Err {
                    Err(deaths->Err_0)
                } else if kills is Err {
                    Err(kills->Err_0)
                } else if ward_score is Err {
                    Err(ward_score->Err_0)
                } else {
                    Ok(
                        PlayerScoreView {
                            assists: assists->Ok_0,
                            creep_score: creep_score->Ok_0,
                            deaths: deaths->Ok_0,
                            kills: kills->Ok_0,
                            ward_score: ward_score->Ok_0,
                        },
                    )
                }
            },
            _ => Err(DecodeError::WrongType),
        }
    }

    open spec fn absent() -> Result<PlayerScoreView, DecodeError> {
        Err(DecodeError::MissingField)
    }

    fn decode(j: &Json) -> (r: Result<PlayerScore, DecodeError>) {
        let m = members_of(j)?;
        let assists = read_field::<i32>(m, "assists")?;
        let creep_score = read_field::<i32>(m, "creepScore")?;
        let deaths = read_field::<i32>(m, "deaths")?;
        let kills = read_field::<i32>(m, "kills")?;
        let ward_score = read_field::<i32>(m, "wardScore")?;
        Ok(PlayerScore { assists, creep_score, deaths, kills, ward_score })
    }

    fn when_absent() -> (r: Result<PlayerScore, DecodeError>) {
        Err(DecodeError::MissingField)
    }
}

/// A rune or a rune tree.
#[derive(Debug)]
pub struct Rune {
    pub display_name: String,
    pub id: i32,
    pub raw_description: String,
    pub raw_display_name: String,
}

/// The mathematical value of a [`Rune`].
pub ghost struct RuneView {
    pub display_name: Seq<char>,
    pub id: i32,
    pub raw_description: Seq<char>,
    pub raw_display_name: Seq<char>,
}

impl DeepView for Rune {
    type V = RuneView;

    open spec fn deep_view(&self) -> RuneView {
        RuneView {
            display_name: self.display_name@,
            id: self.id,
            raw_description: self.raw_description@,
            raw_display_name: self.raw_display_name@,
        }
    }
}

impl Decode for Rune {
    open spec fn decoded(j: JsonView) -> Result<RuneView, DecodeError> {
        match j {
            JsonView::Object(m) => {
                let display_name = field::<String>(m, "displayName"@);
                let id = field::<i32>(m, "id"@);
                let raw_description = field::<String>(m, "rawDescription"@);
                let raw_display_name = field::<String>(m, "rawDisplayName"@);
                if display_name is Err {
                    Err(display_name->Err_0)
                } else if id is Err {
                    Err(id->Err_0)
                } else if raw_description is Err {
                    Err(raw_description->Err_0)
                } else if raw_display_name is Err {
                    Err(raw_display_name->Err_0)
                } else {
                    Ok(
                        RuneView {
                            display_name: display_name->Ok_0,
                            id: id->Ok_0,
                            raw_description: raw_description->Ok_0,
                            raw_display_name: raw_display_name->Ok_0,
                        },
                    )
                }
            },
            _ => Err(DecodeError::WrongType),
        }
    }

    open spec fn absent() -> Result<RuneView, DecodeError> {
        Err(DecodeError::MissingField)
    }

    fn decode(j: &Json) -> (r: Result<Rune, DecodeError>) {
        let m = members_of(j)?;
        let display_name = read_field::<String>(m, "displayName")?;
        let id = read_field::<i32>(m, "id")?;
        let raw_description = read_field::<String>(m, "rawDescription")?;
        let raw_display_name = read_field::<String>(m, "rawDisplayName")?;
        Ok(Rune { display_name, id, raw_description, raw_display_name })
    }

    fn when_absent() -> (r: Result<Rune, DecodeError>) {
        Err(DecodeError::MissingField)
    }
}

/// A stat rune.
#[derive(Debug)]
pub struct StatRune {
    pub id: i32,
    pub raw_description: String,
}

/// The mathematical value of a [`StatRune`].
pub ghost struct StatRuneView {
    pub id: i32,
    pub raw_description: Seq<char>,
}

impl DeepView for StatRune {
    type V = StatRuneView;

    open spec fn deep_view(&self) -> StatRuneView {
        StatRuneView {
            id: self.id,
            raw_description: self.raw_description@,
        }
    }
}

impl Decode for StatRune {
    open spec fn decoded(j: JsonView) -> Result<StatRuneView, DecodeError> {
        match j {
            JsonView::Object(m) => {
                let id = field::<i32>(m, "id"@);
                let raw_description = field::<String>(m, "rawDescription"@);
                if id is Err {
                    Err(id->Err_0)
                } else if raw_description is Err {
                    Err(raw_description->Err_0)
                } else {
                    Ok(
                        StatRuneView {
                            id: id->Ok_0,
                            raw_description: raw_description->Ok_0,
                        },
                    )
                }
            },
            _ => Err(DecodeError::WrongType),
        }
    }

    open spec fn absent() -> Result<StatRuneView, DecodeError> {
        Err(DecodeError::MissingField)
    }

    fn decode(j: &Json) -> (r: Result<StatRune, DecodeError>) {
        let m = members_of(j)?;
        let id = read_field::<i32>(m, "id")?;
        let raw_description = read_field::<String>(m, "rawDescription")?;
        Ok(StatRune { id, raw_description })
    }

    fn when_absent() -> (r: Result<StatRune, DecodeError>) {
        Err(DecodeError::MissingField)
    }
}

/// The keystone and the two rune trees of a player.
#[derive(Debug)]
pub struct MainRunes {
    pub keystone: Rune,
    pub primary_rune_tree: Rune,
    pub secondary_rune_tree: Rune,
}

/// The mathematical value of a [`MainRunes`].
pub ghost struct MainRunesView {
    pub keystone: RuneView,
    pub primary_rune_tree: RuneView,
    pub secondary_rune_tree: RuneView,
}

impl DeepView for MainRunes {
    type V = MainRunesView;

    open spec fn deep_view(&self) -> MainRunesView {
        MainRunesView {
            keystone: self.keystone.deep_view(),
            primary_rune_tree: self.primary_rune_tree.deep_view(),
            secondary_rune_tree: self.secondary_rune_tree.deep_view(),
        }
    }
}

impl Decode for MainRunes {
    open spec fn decoded(j: JsonView) -> Result<MainRunesView, DecodeError> {
        match j {
            JsonView::Object(m) => {
                let keystone = field::<Rune>(m, "keystone"@);
                let primary_rune_tree = field::<Rune>(m, "primaryRuneTree"@);
                let secondary_rune_tree = field::<Rune>(m, "secondaryRuneTree"@);
                if keystone is Err {
                    Err(keystone->Err_0)
                } else if primary_rune_tree is Err {
                    Err(primary_rune_tree->Err_0)
                } else if secondary_rune_tree is Err {
                    Err(secondary_rune_tree->Err_0)
                } else {
                    Ok(
                        MainRunesView {
                            keystone: keystone->Ok_0,
                            primary_rune_tree: primary_rune_tree->Ok_0,
                            secondary_rune_tree: secondary_rune_tree->Ok_0,
                        },
                    )
                }
            },
            _ => Err(DecodeError::WrongType),
        }
    }

    open spec fn absent() -> Result<MainRunesView, DecodeError> {
        Err(DecodeError::MissingField)
    }

    fn decode(j: &Json) -> (r: Result<MainRunes, DecodeError>) {
        let m = members_of(j)?;
        let keystone = read_field::<Rune>(m, "keystone")?;
        let primary_rune_tree = read_field::<Rune>(m, "primaryRuneTree")?;
        let secondary_rune_tree = read_field::<Rune>(m, "secondaryRuneTree")?;
        Ok(MainRunes { keystone, primary_rune_tree, secondary_rune_tree })
    }

    fn when_absent() -> (r: Result<MainRunes, DecodeError>) {
        Err(DecodeError::MissingField)
    }
}

/// All runes of the active player: the main runes, which stand beside the
/// two lists in one object, the general runes and the stat runes.
#[derive(Debug)]
pub struct ActivePlayerRunes {
    pub main_runes: MainRunes,
    pub general_runes: Vec<Rune>,
    pub stat_runes: Vec<StatRune>,
}

/// The mathematical value of a [`ActivePlayerRunes`].
pub ghost struct ActivePlayerRunesView {
    pub main_runes: MainRunesView,
    pub general_runes: Seq<RuneView>,
    pub stat_runes: Seq<StatRuneView>,
}

impl DeepView for ActivePlayerRunes {
    type V = ActivePlayerRunesView;

    open spec fn deep_view(&self) -> ActivePlayerRunesView {
        ActivePlayerRunesView {
            main_runes: self.main_runes.deep_view(),
            general_runes: self.general_runes.deep_view(),
            stat_runes: self.stat_runes.deep_view(),
        }
    }
}

impl Decode for ActivePlayerRunes {
    open spec fn decoded(j: JsonView) -> Result<ActivePlayerRunesView, DecodeError> {
        match j {
            JsonView::Object(m) => {
                let main_runes = MainRunes::decoded(j);
                let general_runes = field::<Vec<Rune>>(m, "generalRunes"@);
                let stat_runes = field::<Vec<StatRune>>(m, "statRunes"@);
                if main_runes is Err {
                    Err(main_runes->Err_0)
                } else if general_runes is Err {
                    Err(general_runes->Err_0)
                } else if stat_runes is Err {
                    Err(stat_runes->Err_0)
                } else {
                    Ok(
                        ActivePlayerRunesView {
                            main_runes: main_runes->Ok_0,
                            general_runes: general_runes->Ok_0,
                            stat_runes: stat_runes->Ok_0,
                        },
                    )
                }
            },
            _ => Err(DecodeError::WrongType),
        }
    }

    open spec fn absent() -> Result<ActivePlayerRunesView, DecodeError> {
        Err(DecodeError::MissingField)
    }

    fn decode(j: &Json) -> (r: Result<ActivePlayerRunes, DecodeError>) {
        let m = members_of(j)?;
        let main_runes = MainRunes::decode(j)?;
        let general_runes = read_field::<Vec<Rune>>(m, "generalRunes")?;
        let stat_runes = read_field::<Vec<StatRune>>(m, "statRunes")?;
        Ok(ActivePlayerRunes { main_runes, general_runes, stat_runes })
    }

    fn when_absent() -> (r: Result<ActivePlayerRunes, DecodeError>) {
        Err(DecodeError::MissingField)
    }
}

/// A summoner spell.
#[derive(Debug)]
pub struct SummonerSpell {
    pub display_name: String,
    pub raw_description: String,
    pub raw_display_name: String,
}

/// The mathematical value of a [`SummonerSpell`].
pub ghost struct SummonerSpellView {
    pub display_name: Seq<char>,
    pub raw_description: Seq<char>,
    pub raw_display_name: Seq<char>,
}

impl DeepView for SummonerSpell {
    type V = SummonerSpellView;

    open spec fn deep_view(&self) -> SummonerSpellView {
        SummonerSpellView {
            display_name: self.display_name@,
            raw_description: self.raw_description@,
            raw_display_name: self.raw_display_name@,
        }
    }
}

impl Decode for SummonerSpell {
    open spec fn decoded(j: JsonView) -> Result<SummonerSpellView, DecodeError> {
        match j {
            JsonView::Object(m) => {
                let display_name = field::<String>(m, "displayName"@);
                let raw_description = field::<String>(m, "rawDescription"@);
                let raw_display_name = field::<String>(m, "rawDisplayName"@);
                if display_name is Err {
                    Err(display_name->Err_0)
                } else if raw_description is Err {
                    Err(raw_description->Err_0)
                } else if raw_display_name is Err {
                    Err(raw_display_name->Err_0)
                } else {
                    Ok(
                        SummonerSpellView {
                            display_name: display_name->Ok_0,
                            raw_description: raw_description->Ok_0,
                            raw_display_name: raw_display_name->Ok_0,
                        },
                    )
                }
            },
            _ => Err(DecodeError::WrongType),
        }
    }

    open spec fn absent() -> Result<SummonerSpellView, DecodeError> {
        Err(DecodeError::MissingField)
    }

    fn decode(j: &Json) -> (r: Result<SummonerSpell, DecodeError>) {
        let m = members_of(j)?;
        let display_name = read_field::<String>(m, "displayName")?;
        let raw_description = read_field::<String>(m, "rawDescription")?;
        let raw_display_name = read_field::<String>(m, "rawDisplayName")?;
        Ok(SummonerSpell { display_name, raw_description, raw_display_name })
    }

    fn when_absent() -> (r: Result<SummonerSpell, DecodeError>) {
        Err(DecodeError::MissingField)
    }
}

/// The two summoner spells of a player.
#[derive(Debug)]
pub struct SummonerSpells {
    pub summoner_spell_one: SummonerSpell,
    pub summoner_spell_two: SummonerSpell,
}

/// The mathematical value of a [`SummonerSpells`].
pub ghost struct SummonerSpellsView {
    pub summoner_spell_one: SummonerSpellView,
    pub summoner_spell_two: SummonerSpellView,
}

impl DeepView for SummonerSpells {
    type V = SummonerSpellsView;

    open spec fn deep_view(&self) -> SummonerSpellsView {
        SummonerSpellsView {
            summoner_spell_one: self.summoner_spell_one.deep_view(),
            summoner_spell_two: self.summoner_spell_two.deep_view(),
        }
    }
}

impl Decode for SummonerSpells {
    open spec fn decoded(j: JsonView) -> Result<SummonerSpellsView, DecodeError> {
        match j {
            JsonView::Object(m) => {
                let summoner_spell_one = field::<SummonerSpell>(m, "summonerSpellOne"@);
                let summoner_spell_two = field::<SummonerSpell>(m, "summonerSpellTwo"@);
                if summoner_spell_one is Err {
                    Err(summoner_spell_one->Err_0)
                } else if summoner_spell_two is Err {
                    Err(summoner_spell_two->Err_0)
                } else {
                    Ok(
                        SummonerSpellsView {
                            summoner_spell_one: summoner_spell_one->Ok_0,
                            summoner_spell_two: summoner_spell_two->Ok_0,
                        },
                    )
                }
            },
            _ => Err(DecodeError::WrongType),
        }
    }

    open spec fn absent() -> Result<SummonerSpellsView, DecodeError> {
        Err(DecodeError::MissingField)
    }

    fn decode(j: &Json) -> (r: Result<SummonerSpells, DecodeError>) {
        let m = members_of(j)?;
        let summoner_spell_one = read_field::<SummonerSpell>(m, "summonerSpellOne")?;
        let summoner_spell_two = read_field::<SummonerSpell>(m, "summonerSpellTwo")?;
        Ok(SummonerSpells { summoner_spell_one, summoner_spell_two })
    }

    fn when_absent() -> (r: Result<SummonerSpells, DecodeError>) {
        Err(DecodeError::MissingField)
    }
}

/// An ability of the active player. The passive has no level.
#[derive(Debug)]
pub struct Ability {
    pub ability_level: Option<i32>,
    pub display_name: String,
    pub id: String,
    pub raw_description: String,
    pub raw_display_name: String,
}

/// The mathematical value of a [`Ability`].
pub ghost struct AbilityView {
    pub ability_level: Option<i32>,
    pub display_name: Seq<char>,
    pub id: Seq<char>,
    pub raw_description: Seq<char>,
    pub raw_display_name: Seq<char>,
}

impl DeepView for Ability {
    type V = AbilityView;

    open spec fn deep_view(&self) -> AbilityView {
        AbilityView {
            ability_level: self.ability_level,
            display_name: self.display_name@,
            id: self.id@,
            raw_description: self.raw_description@,
            raw_display_name: self.raw_display_name@,
        }
    }
}

impl Decode for Ability {
    open spec fn decoded(j: JsonView) -> Result<AbilityView, DecodeError> {
        match j {
            JsonView::Object(m) => {
                let ability_level = field::<Option<i32>>(m, "abilityLevel"@);
                let display_name = field::<String>(m, "displayName"@);
                let id = field::<String>(m, "id"@);
                let raw_description = field::<String>(m, "rawDescription"@);
                let raw_display_name = field::<String>(m, "rawDisplayName"@);
                if ability_level is Err {
                    Err(ability_level->Err_0)
                } else if display_name is Err {
                    Err(display_name->Err_0)
                } else if id is Err {
                    Err(id->Err_0)
                } else if raw_description is Err {
                    Err(raw_description->Err_0)
                } else if raw_display_name is Err {
                    Err(raw_display_name->Err_0)
                } else {
                    Ok(
                        AbilityView {
                            ability_level: ability_level->Ok_0,
                            display_name: display_name->Ok_0,
                            id: id->Ok_0,
                            raw_description: raw_description->Ok_0,
                            raw_display_name: raw_display_name->Ok_0,
                        },
                    )
                }
            },
            _ => Err(DecodeError::WrongType),
        }
    }

    open spec fn absent() -> Result<AbilityView, DecodeError> {
        Err(DecodeError::MissingField)
    }

    fn decode(j: &Json) -> (r: Result<Ability, DecodeError>) {
        let m = members_of(j)?;
        let ability_level = read_field::<Option<i32>>(m, "abilityLevel")?;
        let display_name = read_field::<String>(m, "displayName")?;
        let id = read_field::<String>(m, "id")?;
        let raw_description = read_field::<String>(m, "rawDescription")?;
        let raw_display_name = read_field::<String>(m, "rawDisplayName")?;
        Ok(Ability { ability_level, display_name, id, raw_description, raw_display_name })
    }

    fn when_absent() -> (r: Result<Ability, DecodeError>) {
        Err(DecodeError::MissingField)
    }
}

/// The abilities of the active player, each under the name of its slot
/// (`Q`, `W`, `E`, `R`, `Passive`), in the order of the document.
#[derive(Debug)]
pub struct ActivePlayerAbilities {
    pub abilities: Vec<(String, Ability)>,
}

/// The mathematical value of an [`ActivePlayerAbilities`].
pub ghost struct ActivePlayerAbilitiesView {
    pub abilities: Seq<(Seq<char>, AbilityView)>,
}

impl DeepView for ActivePlayerAbilities {
    type V = ActivePlayerAbilitiesView;

    open spec fn deep_view(&self) -> ActivePlayerAbilitiesView {
        ActivePlayerAbilitiesView { abilities: self.abilities.deep_view() }
    }
}

impl Decode for ActivePlayerAbilities {
    open spec fn decoded(j: JsonView) -> Result<ActivePlayerAbilitiesView, DecodeError> {
        match j {
            JsonView::Object(m) => match decoded_entries::<Ability>(m, m.len() as int) {
                Ok(abilities) => Ok(ActivePlayerAbilitiesView { abilities }),
                Err(e) => Err(e),
            },
            _ => Err(DecodeError::WrongType),
        }
    }

    open spec fn absent() -> Result<ActivePlayerAbilitiesView, DecodeError> {
        Err(DecodeError::MissingField)
    }

    fn decode(j: &Json) -> (r: Result<ActivePlayerAbilities, DecodeError>) {
        let m = members_of(j)?;
        let abilities = decode_entries::<Ability>(m)?;
        Ok(ActivePlayerAbilities { abilities })
    }

    fn when_absent() -> (r: Result<ActivePlayerAbilities, DecodeError>) {
        Err(DecodeError::MissingField)
    }
}

/// The state of the match as a whole.
#[derive(Debug)]
pub struct GameStats {
    pub game_mode: String,
    pub game_time: Number,
    pub map_name: String,
    pub map_number: i32,
    pub map_terrain: String,
}

/// The mathematical value of a [`GameStats`].
pub ghost struct GameStatsView {
    pub game_mode: Seq<char>,
    pub game_time: NumberView,
    pub map_name: Seq<char>,
    pub map_number: i32,
    pub map_terrain: Seq<char>,
}

impl DeepView for GameStats {
    type V = GameStatsView;

    open spec fn deep_view(&self) -> GameStatsView {
        GameStatsView {
            game_mode: self.game_mode@,
            game_time: self.game_time.deep_view(),
            map_name: self.map_name@,
            map_number: self.map_number,
            map_terrain: self.map_terrain@,
        }
    }
}

impl Decode for GameStats {
    open spec fn decoded(j: JsonView) -> Result<GameStatsView, DecodeError> {
        match j {
            JsonView::Object(m) => {
                let game_mode = field::<String>(m, "gameMode"@);
                let game_time = field::<Number>(m, "gameTime"@);
                let map_name = field::<String>(m, "mapName"@);
                let map_number = field::<i32>(m, "mapNumber"@);
                let map_terrain = field::<String>(m, "mapTerrain"@);
                if game_mode is Err {
                    Err(game_mode->Err_0)
                } else if game_time is Err {
                    Err(game_time->Err_0)
                } else if map_name is Err {
                    Err(map_name->Err_0)
                } else if map_number is Err {
                    Err(map_number->Err_0)
                } else if map_terrain is Err {
                    Err(map_terrain->Err_0)
                } else {
                    Ok(
                        GameStatsView {
                            game_mode: game_mode->Ok_0,
                            game_time: game_time->Ok_0,
                            map_name: map_name->Ok_0,
                            map_number: map_number->Ok_0,
                            map_terrain: map_terrain->Ok_0,
                        },
                    )
                }
            },
            _ => Err(DecodeError::WrongType),
        }
    }

    open spec fn absent() -> Result<GameStatsView, DecodeError> {
        Err(DecodeError::MissingField)
    }

    fn decode(j: &Json) -> (r: Result<GameStats, DecodeError>) {
        let m = members_of(j)?;
        let game_mode = read_field::<String>(m, "gameMode")?;
        let game_time = read_field::<Number>(m, "gameTime")?;
        let map_name = read_field::<String>(m, "mapName")?;
        let map_number = read_field::<i32>(m, "mapNumber")?;
        let map_terrain = read_field::<String>(m, "mapTerrain")?;
        Ok(GameStats { game_mode, game_time, map_name, map_number, map_terrain })
    }

    fn when_absent() -> (r: Result<GameStats, DecodeError>) {
        Err(DecodeError::MissingField)
    }
}

/// The statistics of the active player's champion. Those that the server
/// may leave out are optional.
#[derive(Debug)]
pub struct ChampionStats {
    pub ability_haste: Option<Number>,
    pub ability_power: Option<Number>,
    pub armor: Number,
    pub armor_penetration_flat: Number,
    pub armor_penetration_percent: Number,
    pub attack_damage: Number,
    pub attack_range: Number,
    pub attack_speed: Number,
    pub bonus_armor_penetration_percent: Number,
    pub bonus_magic_penetration_percent: Number,
    pub cooldown_reduction: Option<Number>,
    pub crit_chance: Option<Number>,
    pub crit_damage: Option<Number>,
    pub current_health: Number,
    pub health_regen_rate: Number,
    pub life_steal: Option<Number>,
    pub magic_lethality: Option<Number>,
    pub magic_penetration_flat: Option<Number>,
    pub magic_penetration_percent: Option<Number>,
    pub magic_resist: Option<Number>,
    pub max_health: Number,
    pub move_speed: Number,
    pub physical_lethality: Option<Number>,
    pub resource_max: Number,
    pub resource_regen_rate: Number,
    pub resource_type: String,
    pub resource_value: Number,
    pub spell_vamp: Option<Number>,
    pub tenacity: Option<Number>,
}

/// The mathematical value of a [`ChampionStats`].
pub ghost struct ChampionStatsView {
    pub ability_haste: Option<NumberView>,
    pub ability_power: Option<NumberView>,
    pub armor: NumberView,
    pub armor_penetration_flat: NumberView,
    pub armor_penetration_percent: NumberView,
    pub attack_damage: NumberView,
    pub attack_range: NumberView,
    pub attack_speed: NumberView,
    pub bonus_armor_penetration_percent: NumberView,
    pub bonus_magic_penetration_percent: NumberView,
    pub cooldown_reduction: Option<NumberView>,
    pub crit_chance: Option<NumberView>,
    pub crit_damage: Option<NumberView>,
    pub current_health: NumberView,
    pub health_regen_rate: NumberView,
    pub life_steal: Option<NumberView>,
    pub magic_lethality: Option<NumberView>,
    pub magic_penetration_flat: Option<NumberView>,
    pub magic_penetration_percent: Option<NumberView>,
    pub magic_resist: Option<NumberView>,
    pub max_health: NumberView,
    pub move_speed: NumberView,
    pub physical_lethality: Option<NumberView>,
    pub resource_max: NumberView,
    pub resource_regen_rate: NumberView,
    pub resource_type: Seq<char>,
    pub resource_value: NumberView,
    pub spell_vamp: Option<NumberView>,
    pub tenacity: Option<NumberView>,
}

impl DeepView for ChampionStats {
    type V = ChampionStatsView;

    open spec fn deep_view(&self) -> ChampionStatsView {
        ChampionStatsView {
            ability_haste: self.ability_haste.deep_view(),
            ability_power: self.ability_power.deep_view(),
            armor: self.armor.deep_view(),
            armor_penetration_flat: self.armor_penetration_flat.deep_view(),
            armor_penetration_percent: self.armor_penetration_percent.deep_view(),
            attack_damage: self.attack_damage.deep_view(),
            attack_range: self.attack_range.deep_view(),
            attack_speed: self.attack_speed.deep_view(),
            bonus_armor_penetration_percent: self.bonus_armor_penetration_percent.deep_view(),
            bonus_magic_penetration_percent: self.bonus_magic_penetration_percent.deep_view(),
            cooldown_reduction: self.cooldown_reduction.deep_view(),
            crit_chance: self.crit_chance.deep_view(),
            crit_damage: self.crit_damage.deep_view(),
            current_health: self.current_health.deep_view(),
            health_regen_rate: self.health_regen_rate.deep_view(),
            life_steal: self.life_steal.deep_view(),
            magic_lethality: self.magic_lethality.deep_view(),
            magic_penetration_flat: self.magic_penetration_flat.deep_view(),
            magic_penetration_percent: self.magic_penetration_percent.deep_view(),
            magic_resist: self.magic_resist.deep_view(),
            max_health: self.max_health.deep_view(),
            move_speed: self.move_speed.deep_view(),
            physical_lethality: self.physical_lethality.deep_view(),
            resource_max: self.resource_max.deep_view(),
            resource_regen_rate: self.resource_regen_rate.deep_view(),
            resource_type: self.resource_type@,
            resource_value: self.resource_value.deep_view(),
            spell_vamp: self.spell_vamp.deep_view(),
            tenacity: self.tenacity.deep_view(),
        }
    }
}

impl Decode for ChampionStats {
    open spec fn decoded(j: JsonView) -> Result<ChampionStatsView, DecodeError> {
        match j {
            JsonView::Object(m) => {
                let ability_haste = field::<Option<Number>>(m, "abilityHaste"@);
                let ability_power = field::<Option<Number>>(m, "abilityPower"@);
                let armor = field::<Number>(m, "armor"@);
                let armor_penetration_flat = field::<Number>(m, "armorPenetrationFlat"@);
                let armor_penetration_percent = field::<Number>(m, "armorPenetrationPercent"@);
                let attack_damage = field::<Number>(m, "attackDamage"@);
                let attack_range = field::<Number>(m, "attackRange"@);
                let attack_speed = field::<Number>(m, "attackSpeed"@);
                let bonus_armor_penetration_percent = field::<Number>(
                    m,
                    "bonusArmorPenetrationPercent"@,
                );
                let bonus_magic_penetration_percent = field::<Number>(
                    m,
                    "bonusMagicPenetrationPercent"@,
                );
                let cooldown_reduction = field::<Option<Number>>(m, "cooldownReduction"@);
                let crit_chance = field::<Option<Number>>(m, "critChance"@);
                let crit_damage = field::<Option<Number>>(m, "critDamage"@);
                let current_health = field::<Number>(m, "currentHealth"@);
                let health_regen_rate = field::<Number>(m, "healthRegenRate"@);
                let life_steal = field::<Option<Number>>(m, "lifeSteal"@);
                let magic_lethality = field::<Option<Number>>(m, "magicLethality"@);
                let magic_penetration_flat = field::<Option<Number>>(m, "magicPenetrationFlat"@);
                let magic_penetration_percent = field::<Option<Number>>(
                    m,
                    "magicPenetrationPercent"@,
                );
                let magic_resist = field::<Option<Number>>(m, "magicResist"@);
                let max_health = field::<Number>(m, "maxHealth"@);
                let move_speed = field::<Number>(m, "moveSpeed"@);
                let physical_lethality = field::<Option<Number>>(m, "physicalLethality"@);
                let resource_max = field::<Number>(m, "resourceMax"@);
                let resource_regen_rate = field::<Number>(m, "resourceRegenRate"@);
                let resource_type = field::<String>(m, "resourceType"@);
                let resource_value = field::<Number>(m, "resourceValue"@);
                let spell_vamp = field::<Option<Number>>(m, "spellVamp"@);
                let tenacity = field::<Option<Number>>(m, "tenacity"@);
                if ability_haste is Err {
                    Err(ability_haste->Err_0)
                } else if ability_power is Err {
                    Err(ability_power->Err_0)
                } else if armor is Err {
                    Err(armor->Err_0)
                } else if armor_penetration_flat is Err {
                    Err(armor_penetration_flat->Err_0)
                } else if armor_penetration_percent is Err {
                    Err(armor_penetration_percent->Err_0)
                } else if attack_damage is Err {
                    Err(attack_damage->Err_0)
                } else if attack_range is Err {
                    Err(attack_range->Err_0)
                } else if attack_speed is Err {
                    Err(attack_speed->Err_0)
                } else if bonus_armor_penetration_percent is Err {
                    Err(bonus_armor_penetration_percent->Err_0)
                } else if bonus_magic_penetration_percent is Err {
                    Err(bonus_magic_penetration_percent->Err_0)
                } else if cooldown_reduction is Err {
                    Err(cooldown_reduction->Err_0)
                } else if crit_chance is Err {
                    Err(crit_chance->Err_0)
                } else if crit_damage is Err {
                    Err(crit_damage->Err_0)
                } else if current_health is Err {
                    Err(current_health->Err_0)
                } else if health_regen_rate is Err {
                    Err(health_regen_rate->Err_0)
                } else if life_steal is Err {
                    Err(life_steal->Err_0)
                } else if magic_lethality is Err {
                    Err(magic_lethality->Err_0)
                } else if magic_penetration_flat is Err {
                    Err(magic_penetration_flat->Err_0)
                } else if magic_penetration_percent is Err {
                    Err(magic_penetration_percent->Err_0)
                } else if magic_resist is Err {
                    Err(magic_resist->Err_0)
                } else if max_health is Err {
                    Err(max_health->Err_0)
                } else if move_speed is Err {
                    Err(move_speed->Err_0)
                } else if physical_lethality is Err {
                    Err(physical_lethality->Err_0)
                } else if resource_max is Err {
                    Err(resource_max->Err_0)
                } else if resource_regen_rate is Err {
                    Err(resource_regen_rate->Err_0)
                } else if resource_type is Err {
                    Err(resource_type->Err_0)
                } else if resource_value is Err {
                    Err(resource_value->Err_0)
                } else if spell_vamp is Err {
                    Err(spell_vamp->Err_0)
                } else if tenacity is Err {
                    Err(tenacity->Err_0)
                } else {
                    Ok(
                        ChampionStatsView {
                            ability_haste: ability_haste->Ok_0,
                            ability_power: ability_power->Ok_0,
                            armor: armor->Ok_0,
                            armor_penetration_flat: armor_penetration_flat->Ok_0,
                            armor_penetration_percent: armor_penetration_percent->Ok_0,
                            attack_damage: attack_damage->Ok_0,
                            attack_range: attack_range->Ok_0,
                            attack_speed: attack_speed->Ok_0,
                            bonus_armor_penetration_percent: bonus_armor_penetration_percent->Ok_0,
                            bonus_magic_penetration_percent: bonus_magic_penetration_percent->Ok_0,
                            cooldown_reduction: cooldown_reduction->Ok_0,
                            crit_chance: crit_chance->Ok_0,
                            crit_damage: crit_damage->Ok_0,
                            current_health: current_health->Ok_0,
                            health_regen_rate: health_regen_rate->Ok_0,
                            life_steal: life_steal->Ok_0,
                            magic_lethality: magic_lethality->Ok_0,
                            magic_penetration_flat: magic_penetration_flat->Ok_0,
                            magic_penetration_percent: magic_penetration_percent->Ok_0,
                            magic_resist: magic_resist->Ok_0,
                            max_health: max_health->Ok_0,
                            move_speed: move_speed->Ok_0,
                            physical_lethality: physical_lethality->Ok_0,
                            resource_max: resource_max->Ok_0,
                            resource_regen_rate: resource_regen_rate->Ok_0,
                            resource_type: resource_type->Ok_0,
                            resource_value: resource_value->Ok_0,
                            spell_vamp: spell_vamp->Ok_0,
                            tenacity: tenacity->Ok_0,
                        },
                    )
                }
            },
            _ => Err(DecodeError::WrongType),
        }
    }

    open spec fn absent() -> Result<ChampionStatsView, DecodeError> {
        Err(DecodeError::MissingField)
    }

    fn decode(j: &Json) -> (r: Result<ChampionStats, DecodeError>) {
        let m = members_of(j)?;
        let ability_haste = read_field::<Option<Number>>(m, "abilityHaste")?;
        let ability_power = read_field::<Option<Number>>(m, "abilityPower")?;
        let armor = read_field::<Number>(m, "armor")?;
        let armor_penetration_flat = read_field::<Number>(m, "armorPenetrationFlat")?;
        let armor_penetration_percent = read_field::<Number>(m, "armorPenetrationPercent")?;
        let attack_damage = read_field::<Number>(m, "attackDamage")?;
        let attack_range = read_field::<Number>(m, "attackRange")?;
        let attack_speed = read_field::<Number>(m, "attackSpeed")?;
        let bonus_armor_penetration_percent = read_field::<Number>(
            m,
            "bonusArmorPenetrationPercent",
        )?;
        let bonus_magic_penetration_percent = read_field::<Number>(
            m,
            "bonusMagicPenetrationPercent",
        )?;
        let cooldown_reduction = read_field::<Option<Number>>(m, "cooldownReduction")?;
        let crit_chance = read_field::<Option<Number>>(m, "critChance")?;
        let crit_damage = read_field::<Option<Number>>(m, "critDamage")?;
        let current_health = read_field::<Number>(m, "currentHealth")?;
        let health_regen_rate = read_field::<Number>(m, "healthRegenRate")?;
        let life_steal = read_field::<Option<Number>>(m, "lifeSteal")?;
        let magic_lethality = read_field::<Option<Number>>(m, "magicLethality")?;
        let magic_penetration_flat = read_field::<Option<Number>>(m, "magicPenetrationFlat")?;
        let magic_penetration_percent = read_field::<Option<Number>>(m, "magicPenetrationPercent")?;
        let magic_resist = read_field::<Option<Number>>(m, "magicResist")?;
        let max_health = read_field::<Number>(m, "maxHealth")?;
        let move_speed = read_field::<Number>(m, "moveSpeed")?;
        let physical_lethality = read_field::<Option<Number>>(m, "physicalLethality")?;
        let resource_max = read_field::<Number>(m, "resourceMax")?;
        let resource_regen_rate = read_field::<Number>(m, "resourceRegenRate")?;
        let resource_type = read_field::<String>(m, "resourceType")?;
        let resource_value = read_field::<Number>(m, "resourceValue")?;
        let spell_vamp = read_field::<Option<Number>>(m, "spellVamp")?;
        let tenacity = read_field::<Option<Number>>(m, "tenacity")?;
        Ok(
            ChampionStats {
                ability_haste,
                ability_power,
                armor,
                armor_penetration_flat,
                armor_penetration_percent,
                attack_damage,
                attack_range,
                attack_speed,
                bonus_armor_penetration_percent,
                bonus_magic_penetration_percent,
                cooldown_reduction,
                crit_chance,
                crit_damage,
                current_health,
                health_regen_rate,
                life_steal,
                magic_lethality,
                magic_penetration_flat,
                magic_penetration_percent,
                magic_resist,
                max_health,
                move_speed,
                physical_lethality,
                resource_max,
                resource_regen_rate,
                resource_type,
                resource_value,
                spell_vamp,
                tenacity,
            },
        )
    }

    fn when_absent() -> (r: Result<ChampionStats, DecodeError>) {
        Err(DecodeError::MissingField)
    }
}

/// A player in the match.
#[derive(Debug)]
pub struct Player {
    pub champion_name: String,
    pub is_bot: bool,
    pub is_dead: bool,
    pub items: Vec<PlayerItem>,
    pub level: i32,
    pub position: String,
    pub raw_champion_name: String,
    pub respawn_timer: Number,
    pub runes: MainRunes,
    pub scores: PlayerScore,
    pub skin_id: i64,
    pub summoner_name: String,
    pub summoner_spells: SummonerSpells,
    pub team: String,
}

/// The mathematical value of a [`Player`].
pub ghost struct PlayerView {
    pub champion_name: Seq<char>,
    pub is_bot: bool,
    pub is_dead: bool,
    pub items: Seq<PlayerItemView>,
    pub level: i32,
    pub position: Seq<char>,
    pub raw_champion_name: Seq<char>,
    pub respawn_timer: NumberView,
    pub runes: MainRunesView,
    pub scores: PlayerScoreView,
    pub skin_id: i64,
    pub summoner_name: Seq<char>,
    pub summoner_spells: SummonerSpellsView,
    pub team: Seq<char>,
}

impl DeepView for Player {
    type V = PlayerView;

    open spec fn deep_view(&self) -> PlayerView {
        PlayerView {
            champion_name: self.champion_name@,
            is_bot: self.is_bot,
            is_dead: self.is_dead,
            items: self.items.deep_view(),
            level: self.level,
            position: self.position@,
            raw_champion_name: self.raw_champion_name@,
            respawn_timer: self.respawn_timer.deep_view(),
            runes: self.runes.deep_view(),
            scores: self.scores.deep_view(),
            skin_id: self.skin_id,
            summoner_name: self.summoner_name@,
            summoner_spells: self.summoner_spells.deep_view(),
            team: self.team@,
        }
    }
}

impl Decode for Player {
    open spec fn decoded(j: JsonView) -> Result<PlayerView, DecodeError> {
        match j {
            JsonView::Object(m) => {
                let champion_name = field::<String>(m, "championName"@);
                let is_bot = field::<bool>(m, "isBot"@);
                let is_dead = field::<bool>(m, "isDead"@);
                let items = field::<Vec<PlayerItem>>(m, "items"@);
                let level = field::<i32>(m, "level"@);
                let position = field::<String>(m, "position"@);
                let raw_champion_name = field::<String>(m, "rawChampionName"@);
                let respawn_timer = field::<Number>(m, "respawnTimer"@);
                let runes = field::<MainRunes>(m, "runes"@);
                let scores = field::<PlayerScore>(m, "scores"@);
                let skin_id = field::<i64>(m, "skinID"@);
                let summoner_name = field::<String>(m, "summonerName"@);
                let summoner_spells = field::<SummonerSpells>(m, "summonerSpells"@);
                let team = field::<String>(m, "team"@);
                if champion_name is Err {
                    Err(champion_name->Err_0)
                } else if is_bot is Err {
                    Err(is_bot->Err_0)
                } else if is_dead is Err {
                    Err(is_dead->Err_0)
                } else if items is Err {
                    Err(items->Err_0)
                } else if level is Err {
                    Err(level->Err_0)
                } else if position is Err {
                    Err(position->Err_0)
                } else if raw_champion_name is Err {
                    Err(raw_champion_name->Err_0)
                } else if respawn_timer is Err {
                    Err(respawn_timer->Err_0)
                } else if runes is Err {
                    Err(runes->Err_0)
                } else if scores is Err {
                    Err(scores->Err_0)
                } else if skin_id is Err {
                    Err(skin_id->Err_0)
                } else if summoner_name is Err {
                    Err(summoner_name->Err_0)
                } else if summoner_spells is Err {
                    Err(summoner_spells->Err_0)
                } else if team is Err {
                    Err(team->Err_0)
                } else {
                    Ok(
                        PlayerView {
                            champion_name: champion_name->Ok_0,
                            is_bot: is_bot->Ok_0,
                            is_dead: is_dead->Ok_0,
                            items: items->Ok_0,
                            level: level->Ok_0,
                            position: position->Ok_0,
                            raw_champion_name: raw_champion_name->Ok_0,
                            respawn_timer: respawn_timer->Ok_0,
                            runes: runes->Ok_0,
                            scores: scores->Ok_0,
                            skin_id: skin_id->Ok_0,
                            summoner_name: summoner_name->Ok_0,
                            summoner_spells: summoner_spells->Ok_0,
                            team: team->Ok_0,
                        },
                    )
                }
            },
            _ => Err(DecodeError::WrongType),
        }
    }

    open spec fn absent() -> Result<PlayerView, DecodeError> {
        Err(DecodeError::MissingField)
    }

    fn decode(j: &Json) -> (r: Result<Player, DecodeError>) {
        let m = members_of(j)?;
        let champion_name = read_field::<String>(m, "championName")?;
        let is_bot = read_field::<bool>(m, "isBot")?;
        let is_dead = read_field::<bool>(m, "isDead")?;
        let items = read_field::<Vec<PlayerItem>>(m, "items")?;
        let level = read_field::<i32>(m, "level")?;
        let position = read_field::<String>(m, "position")?;
        let raw_champion_name = read_field::<String>(m, "rawChampionName")?;
        let respawn_timer = read_field::<Number>(m, "respawnTimer")?;
        let runes = read_field::<MainRunes>(m, "runes")?;
        let scores = read_field::<PlayerScore>(m, "scores")?;
        let skin_id = read_field::<i64>(m, "skinID")?;
        let summoner_name = read_field::<String>(m, "summonerName")?;
        let summoner_spells = read_field::<SummonerSpells>(m, "summonerSpells")?;
        let team = read_field::<String>(m, "team")?;
        Ok(
            Player {
                champion_name,
                is_bot,
                is_dead,
                items,
                level,
                position,
                raw_champion_name,
                respawn_timer,
                runes,
                scores,
                skin_id,
                summoner_name,
                summoner_spells,
                team,
            },
        )
    }

    fn when_absent() -> (r: Result<Player, DecodeError>) {
        Err(DecodeError::MissingField)
    }
}

/// The player on whose machine the game runs.
#[derive(Debug)]
pub struct ActivePlayer {
    pub abilities: ActivePlayerAbilities,
    pub champion_stats: ChampionStats,
    pub current_gold: Number,
    pub full_runes: ActivePlayerRunes,
    pub level: i32,
    pub summoner_name: String,
}

/// The mathematical value of a [`ActivePlayer`].
pub ghost struct ActivePlayerView {
    pub abilities: ActivePlayerAbilitiesView,
    pub champion_stats: ChampionStatsView,
    pub current_gold: NumberView,
    pub full_runes: ActivePlayerRunesView,
    pub level: i32,
    pub summoner_name: Seq<char>,
}

impl DeepView for ActivePlayer {
    type V = ActivePlayerView;

    open spec fn deep_view(&self) -> ActivePlayerView {
        ActivePlayerView {
            abilities: self.abilities.deep_view(),
            champion_stats: self.champion_stats.deep_view(),
            current_gold: self.current_gold.deep_view(),
            full_runes: self.full_runes.deep_view(),
            level: self.level,
            summoner_name: self.summoner_name@,
        }
    }
}

impl Decode for ActivePlayer {
    open spec fn decoded(j: JsonView) -> Result<ActivePlayerView, DecodeError> {
        match j {
            JsonView::Object(m) => {
                let abilities = field::<ActivePlayerAbilities>(m, "abilities"@);
                let champion_stats = field::<ChampionStats>(m, "championStats"@);
                let current_gold = field::<Number>(m, "currentGold"@);
                let full_runes = field::<ActivePlayerRunes>(m, "fullRunes"@);
                let level = field::<i32>(m, "level"@);
                let summoner_name = field::<String>(m, "summonerName"@);
                if abilities is Err {
                    Err(abilities->Err_0)
                } else if champion_stats is Err {
                    Err(champion_stats->Err_0)
                } else if current_gold is Err {
                    Err(current_gold->Err_0)
                } else if full_runes is Err {
                    Err(full_runes->Err_0)
                } else if level is Err {
                    Err(level->Err_0)
                } else if summoner_name is Err {
                    Err(summoner_name->Err_0)
                } else {
                    Ok(
                        ActivePlayerView {
                            abilities: abilities->Ok_0,
                            champion_stats: champion_stats->Ok_0,
                            current_gold: current_gold->Ok_0,
                            full_runes: full_runes->Ok_0,
                            level: level->Ok_0,
                            summoner_name: summoner_name->Ok_0,
                        },
                    )
                }
            },
            _ => Err(DecodeError::WrongType),
        }
    }

    open spec fn absent() -> Result<ActivePlayerView, DecodeError> {
        Err(DecodeError::MissingField)
    }

    fn decode(j: &Json) -> (r: Result<ActivePlayer, DecodeError>) {
        let m = members_of(j)?;
        let abilities = read_field::<ActivePlayerAbilities>(m, "abilities")?;
        let champion_stats = read_field::<ChampionStats>(m, "championStats")?;
        let current_gold = read_field::<Number>(m, "currentGold")?;
        let full_runes = read_field::<ActivePlayerRunes>(m, "fullRunes")?;
        let level = read_field::<i32>(m, "level")?;
        let summoner_name = read_field::<String>(m, "summonerName")?;
        Ok(
            ActivePlayer {
                abilities,
                champion_stats,
                current_gold,
                full_runes,
                level,
                summoner_name,
            },
        )
    }

    fn when_absent() -> (r: Result<ActivePlayer, DecodeError>) {
        Err(DecodeError::MissingField)
    }
}

} // verus!
