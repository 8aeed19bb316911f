//! Parts of the League of Legends Live Client data that hold no numbers
//! with fractions: abilities, runes, items and summoner spells, and the
//! players of the running game as the front end lists them.
use vstd::prelude::*;

verus! {

/// The active player's abilities.
#[derive(Debug, Clone)]
pub struct Abilities {
    pub q: Option<Ability>,
    pub w: Option<Ability>,
    pub e: Option<Ability>,
    pub r: Option<Ability>,
    pub passive: Option<Ability>,
}

/// One ability.
#[derive(Debug, Clone)]
pub struct Ability {
    pub abilityLevel: Option<u32>,
    pub displayName: String,
    pub id: String,
    pub rawDescription: String,
    pub rawDisplayName: String,
}

/// The active player's complete runes.
#[derive(Debug, Clone)]
pub struct FullRunes {
    pub generalRunes: Vec<Rune>,
    pub keystone: Rune,
    pub primaryRuneTree: RuneTree,
    pub secondaryRuneTree: RuneTree,
    pub statRunes: Vec<StatRune>,
}

/// One rune.
#[derive(Debug, Clone)]
pub struct Rune {
    pub displayName: String,
    pub id: u32,
    pub rawDescription: String,
    pub rawDisplayName: String,
}

/// A rune tree.
#[derive(Debug, Clone)]
pub struct RuneTree {
    pub displayName: String,
    pub id: u32,
    pub rawDescription: String,
    pub rawDisplayName: String,
}

/// A stat rune.
#[derive(Debug, Clone)]
pub struct StatRune {
    pub id: u32,
    pub rawDescription: String,
}

/// An item in a player's inventory.
#[derive(Debug, Clone)]
pub struct Item {
    pub canUse: bool,
    pub consumable: bool,
    pub count: u32,
    pub displayName: String,
    pub itemID: i32,
    pub price: u32,
    pub rawDescription: String,
    pub rawDisplayName: String,
    pub slot: u32,
}

/// The runes shown for every player.
#[derive(Debug, Clone)]
pub struct PlayerRunes {
    pub keystone: Rune,
    pub primaryRuneTree: RuneTree,
    pub secondaryRuneTree: RuneTree,
}

/// A player's two summoner spells.
#[derive(Debug, Clone)]
pub struct SummonerSpells {
    pub summonerSpellOne: SummonerSpell,
    pub summonerSpellTwo: SummonerSpell,
}

/// One summoner spell.
#[derive(Debug, Clone)]
pub struct SummonerSpell {
    pub displayName: String,
    pub rawDescription: String,
    pub rawDisplayName: String,
}

/// A player of the running game: summoner name and champion.
pub struct GamePlayer {
    pub name: String,
    pub champion: String,
}

/// The players of the running game from the summoner name and champion of
/// each player in the game data, in the game's order; none while no game
/// data has been read.
pub fn current_players(roster: Option<&Vec<(String, String)>>) -> (ps: Vec<GamePlayer>)
    ensures
        match roster {
            None => ps@.len() == 0,
            Some(r) => {
                &&& ps@.len() == r@.len()
                &&& forall|i: int|
                    0 <= i < r@.len() ==> (#[trigger] ps@[i]).name@ == r@[i].0@ && ps@[i].champion@
                        == r@[i].1@
            },
        },
{
    let mut ps: Vec<GamePlayer> = Vec::new();
    match roster {
        None => ps,
        Some(r) => {
            let mut i: usize = 0;
            while i < r.len()
                invariant
                    i <= r@.len(),
                    ps@.len() == i,
                    forall|j: int|
                        0 <= j < i ==> (#[trigger] ps@[j]).name@ == r@[j].0@ && ps@[j].champion@
                            == r@[j].1@,
                decreases r@.len() - i,
            {
                let (name, champion) = &r[i];
                ps.push(GamePlayer { name: name.clone(), champion: champion.clone() });
                i = i + 1;
            }
            ps
        },
    }
}

} // verus!
