//! Game events: the tagged records of the event feed.
//!
//! An event is a JSON object whose member `EventName` says which kind of
//! event it is and thereby which other members it must have. A name outside
//! the known set is an error, never an event that is passed over.

use vstd::prelude::*;
use crate::live::decode::{
    agrees, field, lemma_bad_item_fails_list, members_of, read_field, Decode, DecodeError,
};
use crate::live::json::{member, Json, JsonView, Number, NumberView};

verus! {

/// The kinds of event, one for each known `EventName`.
#[derive(Clone, Copy, Debug, PartialEq, Eq, Structural)]
pub enum EventKind {
    GameStart,
    MinionsSpawning,
    ChampionKill,
    FirstBrick,
    TurretKilled,
    InhibKilled,
    DragonKill,
    HeraldKill,
    BaronKill,
    Multikill,
    Ace,
}

/// The kind that the event name `name` stands for, if it is a known one.
pub open spec fn event_kind(name: Seq<char>) -> Option<EventKind> {
    if name == "GameStart"@ {
        Some(EventKind::GameStart)
    } else if name == "MinionsSpawning"@ {
        Some(EventKind::MinionsSpawning)
    } else if name == "ChampionKill"@ {
        Some(EventKind::ChampionKill)
    } else if name == "FirstBrick"@ {
        Some(EventKind::FirstBrick)
    } else if name == "TurretKilled"@ {
        Some(EventKind::TurretKilled)
    } else if name == "InhibKilled"@ {
        Some(EventKind::InhibKilled)
    } else if name == "DragonKill"@ {
        Some(EventKind::DragonKill)
    } else if name == "HeraldKill"@ {
        Some(EventKind::HeraldKill)
    } else if name == "BaronKill"@ {
        Some(EventKind::BaronKill)
    } else if name == "Multikill"@ {
        Some(EventKind::Multikill)
    } else if name == "Ace"@ {
        Some(EventKind::Ace)
    } else {
        None
    }
}

/// Whether `text` is the string `literal`. Both are copied first: equality
/// is specified for `String`, not for `str`.
fn same_text(text: &str, literal: &str) -> (same: bool)
    ensures
        same == (text@ == literal@),
{
    text.to_owned() == literal.to_owned()
}

impl EventKind {
    /// The kind named `name`; `None` for a name outside the known set.
    pub fn from_name(name: &str) -> (kind: Option<EventKind>)
        ensures
            kind == event_kind(name@),
    {
        if same_text(name, "GameStart") {
            Some(EventKind::GameStart)
        } else if same_text(name, "MinionsSpawning") {
            Some(EventKind::MinionsSpawning)
        } else if same_text(name, "ChampionKill") {
            Some(EventKind::ChampionKill)
        } else if same_text(name, "FirstBrick") {
            Some(EventKind::FirstBrick)
        } else if same_text(name, "TurretKilled") {
            Some(EventKind::TurretKilled)
        } else if same_text(name, "InhibKilled") {
            Some(EventKind::InhibKilled)
        } else if same_text(name, "DragonKill") {
            Some(EventKind::DragonKill)
        } else if same_text(name, "HeraldKill") {
            Some(EventKind::HeraldKill)
        } else if same_text(name, "BaronKill") {
            Some(EventKind::BaronKill)
        } else if same_text(name, "Multikill") {
            Some(EventKind::Multikill)
        } else if same_text(name, "Ace") {
            Some(EventKind::Ace)
        } else {
            None
        }
    }
}

/// What the text of a `Stolen` member says: the server writes the flag as
/// the string `"True"` or `"False"`, and any other string is an error.
pub open spec fn stolen_flag(text: Seq<char>) -> Result<bool, DecodeError> {
    if text == "True"@ {
        Ok(true)
    } else if text == "False"@ {
        Ok(false)
    } else {
        Err(DecodeError::InvalidStolen)
    }
}

/// Reads the text of a `Stolen` member.
pub fn bool_from_string(text: &str) -> (r: Result<bool, DecodeError>)
    ensures
        r == stolen_flag(text@),
{
    if same_text(text, "True") {
        Ok(true)
    } else if same_text(text, "False") {
        Ok(false)
    } else {
        Err(DecodeError::InvalidStolen)
    }
}

/// What the member `Stolen` of an object with these `members` decodes to.
pub open spec fn stolen_field(members: Seq<(Seq<char>, JsonView)>) -> Result<bool, DecodeError> {
    match field::<String>(members, "Stolen"@) {
        Ok(text) => stolen_flag(text),
        Err(e) => Err(e),
    }
}

/// Decodes the member `Stolen` of an object with these `members`.
fn read_stolen(members: &Vec<(String, Json)>) -> (r: Result<bool, DecodeError>)
    ensures
        r == stolen_field(members.deep_view()),
{
    let text = read_field::<String>(members, "Stolen")?;
    bool_from_string(text.as_str())
}

/// What happened, with the members that belong to that kind of event.
#[derive(Debug)]
pub enum GameEventType {
    /// The match has started.
    GameStart,
    /// The first minions leave the bases.
    MinionsSpawning,
    /// A champion was killed.
    ChampionKill {
        killer_name: String,
        victim_name: String,
        assisters: Vec<String>,
    },
    /// The first turret of the match fell.
    FirstBrick {
        killer_name: String,
    },
    /// A turret was destroyed.
    TurretKilled {
        killer_name: String,
        turret_killed: String,
        assisters: Vec<String>,
    },
    /// An inhibitor was destroyed.
    InhibKilled {
        killer_name: String,
        inhib_killed: String,
        assisters: Vec<String>,
    },
    /// A dragon was killed.
    DragonKill {
        killer_name: String,
        dragon_type: String,
        stolen: bool,
        assisters: Vec<String>,
    },
    /// The herald was killed.
    HeraldKill {
        killer_name: String,
        stolen: bool,
        assisters: Vec<String>,
    },
    /// The baron was killed.
    BaronKill {
        killer_name: String,
        stolen: bool,
        assisters: Vec<String>,
    },
    /// One player made several kills in a row.
    Multikill {
        killer_name: String,
        killstreak: i32,
    },
    /// A whole team is dead.
    Ace {
        acer: String,
        acing_team: String,
    },
}

/// The mathematical value of a [`GameEventType`].
pub ghost enum GameEventTypeView {
    GameStart,
    MinionsSpawning,
    ChampionKill {
        killer_name: Seq<char>,
        victim_name: Seq<char>,
        assisters: Seq<Seq<char>>,
    },
    FirstBrick {
        killer_name: Seq<char>,
    },
    TurretKilled {
        killer_name: Seq<char>,
        turret_killed: Seq<char>,
        assisters: Seq<Seq<char>>,
    },
    InhibKilled {
        killer_name: Seq<char>,
        inhib_killed: Seq<char>,
        assisters: Seq<Seq<char>>,
    },
    DragonKill {
        killer_name: Seq<char>,
        dragon_type: Seq<char>,
        stolen: bool,
        assisters: Seq<Seq<char>>,
    },
    HeraldKill {
        killer_name: Seq<char>,
        stolen: bool,
        assisters: Seq<Seq<char>>,
    },
    BaronKill {
        killer_name: Seq<char>,
        stolen: bool,
        assisters: Seq<Seq<char>>,
    },
    Multikill {
        killer_name: Seq<char>,
        killstreak: i32,
    },
    Ace {
        acer: Seq<char>,
        acing_team: Seq<char>,
    },
}

impl DeepView for GameEventType {
    type V = GameEventTypeView;

    open spec fn deep_view(&self) -> GameEventTypeView {
        match self {
            GameEventType::GameStart => GameEventTypeView::GameStart,
            GameEventType::MinionsSpawning => GameEventTypeView::MinionsSpawning,
            GameEventType::ChampionKill { killer_name, victim_name, assisters } => GameEventTypeView::ChampionKill {
                killer_name: killer_name@,
                victim_name: victim_name@,
                assisters: assisters.deep_view(),
            },
            GameEventType::FirstBrick { killer_name } => GameEventTypeView::FirstBrick {
                killer_name: killer_name@,
            },
            GameEventType::TurretKilled { killer_name, turret_killed, assisters } => GameEventTypeView::TurretKilled {
                killer_name: killer_name@,
                turret_killed: turret_killed@,
                assisters: assisters.deep_view(),
            },
            GameEventType::InhibKilled { killer_name, inhib_killed, assisters } => GameEventTypeView::InhibKilled {
                killer_name: killer_name@,
                inhib_killed: inhib_killed@,
                assisters: assisters.deep_view(),
            },
            GameEventType::DragonKill { killer_name, dragon_type, stolen, assisters } => GameEventTypeView::DragonKill {
                killer_name: killer_name@,
                dragon_type: dragon_type@,
                stolen: *stolen,
                assisters: assisters.deep_view(),
            },
            GameEventType::HeraldKill { killer_name, stolen, assisters } => GameEventTypeView::HeraldKill {
                killer_name: killer_name@,
                stolen: *stolen,
                assisters: assisters.deep_view(),
            },
            GameEventType::BaronKill { killer_name, stolen, assisters } => GameEventTypeView::BaronKill {
                killer_name: killer_name@,
                stolen: *stolen,
                assisters: assisters.deep_view(),
            },
            GameEventType::Multikill { killer_name, killstreak } => GameEventTypeView::Multikill {
                killer_name: killer_name@,
                killstreak: *killstreak,
            },
            GameEventType::Ace { acer, acing_team } => GameEventTypeView::Ace {
                acer: acer@,
                acing_team: acing_team@,
            },
        }
    }
}

/// What an object with these `members` decodes to as a `ChampionKill` event.
pub open spec fn champion_kill(members: Seq<(Seq<char>, JsonView)>) -> Result<
    GameEventTypeView,
    DecodeError,
> {
    let killer_name = field::<String>(members, "KillerName"@);
    let victim_name = field::<String>(members, "VictimName"@);
    let assisters = field::<Vec<String>>(members, "Assisters"@);
    if killer_name is Err {
        Err(killer_name->Err_0)
    } else if victim_name is Err {
        Err(victim_name->Err_0)
    } else if assisters is Err {
        Err(assisters->Err_0)
    } else {
        Ok(
            GameEventTypeView::ChampionKill {
                killer_name: killer_name->Ok_0,
                victim_name: victim_name->Ok_0,
                assisters: assisters->Ok_0,
            },
        )
    }
}

fn read_champion_kill(members: &Vec<(String, Json)>) -> (r: Result<GameEventType, DecodeError>)
    ensures
        agrees(r, champion_kill(members.deep_view())),
{
    let killer_name = read_field::<String>(members, "KillerName")?;
    let victim_name = read_field::<String>(members, "VictimName")?;
    let assisters = read_field::<Vec<String>>(members, "Assisters")?;
    Ok(GameEventType::ChampionKill { killer_name, victim_name, assisters })
}

/// What an object with these `members` decodes to as a `FirstBrick` event.
pub open spec fn first_brick(members: Seq<(Seq<char>, JsonView)>) -> Result<
    GameEventTypeView,
    DecodeError,
> {
    let killer_name = field::<String>(members, "KillerName"@);
    if killer_name is Err {
        Err(killer_name->Err_0)
    } else {
        Ok(
            GameEventTypeView::FirstBrick {
                killer_name: killer_name->Ok_0,
            },
        )
    }
}

fn read_first_brick(members: &Vec<(String, Json)>) -> (r: Result<GameEventType, DecodeError>)
    ensures
        agrees(r, first_brick(members.deep_view())),
{
    let killer_name = read_field::<String>(members, "KillerName")?;
    Ok(GameEventType::FirstBrick { killer_name })
}

/// What an object with these `members` decodes to as a `TurretKilled` event.
pub open spec fn turret_killed(members: Seq<(Seq<char>, JsonView)>) -> Result<
    GameEventTypeView,
    DecodeError,
> {
    let killer_name = field::<String>(members, "KillerName"@);
    let turret_killed = field::<String>(members, "TurretKilled"@);
    let assisters = field::<Vec<String>>(members, "Assisters"@);
    if killer_name is Err {
        Err(killer_name->Err_0)
    } else if turret_killed is Err {
        Err(turret_killed->Err_0)
    } else if assisters is Err {
        Err(assisters->Err_0)
    } else {
        Ok(
            GameEventTypeView::TurretKilled {
                killer_name: killer_name->Ok_0,
                turret_killed: turret_killed->Ok_0,
                assisters: assisters->Ok_0,
            },
        )
    }
}

fn read_turret_killed(members: &Vec<(String, Json)>) -> (r: Result<GameEventType, DecodeError>)
    ensures
        agrees(r, turret_killed(members.deep_view())),
{
    let killer_name = read_field::<String>(members, "KillerName")?;
    let turret_killed = read_field::<String>(members, "TurretKilled")?;
    let assisters = read_field::<Vec<String>>(members, "Assisters")?;
    Ok(GameEventType::TurretKilled { killer_name, turret_killed, assisters })
}

/// What an object with these `members` decodes to as a `InhibKilled` event.
pub open spec fn inhib_killed(members: Seq<(Seq<char>, JsonView)>) -> Result<
    GameEventTypeView,
    DecodeError,
> {
    let killer_name = field::<String>(members, "KillerName"@);
    let inhib_killed = field::<String>(members, "InhibKilled"@);
    let assisters = field::<Vec<String>>(members, "Assisters"@);
    if killer_name is Err {
        Err(killer_name->Err_0)
    } else if inhib_killed is Err {
        Err(inhib_killed->Err_0)
    } else if assisters is Err {
        Err(assisters->Err_0)
    } else {
        Ok(
            GameEventTypeView::InhibKilled {
                killer_name: killer_name->Ok_0,
                inhib_killed: inhib_killed->Ok_0,
                assisters: assisters->Ok_0,
            },
        )
    }
}

fn read_inhib_killed(members: &Vec<(String, Json)>) -> (r: Result<GameEventType, DecodeError>)
    ensures
        agrees(r, inhib_killed(members.deep_view())),
{
    let killer_name = read_field::<String>(members, "KillerName")?;
    let inhib_killed = read_field::<String>(members, "InhibKilled")?;
    let assisters = read_field::<Vec<String>>(members, "Assisters")?;
    Ok(GameEventType::InhibKilled { killer_name, inhib_killed, assisters })
}

/// What an object with these `members` decodes to as a `DragonKill` event.
pub open spec fn dragon_kill(members: Seq<(Seq<char>, JsonView)>) -> Result<
    GameEventTypeView,
    DecodeError,
> {
    let killer_name = field::<String>(members, "KillerName"@);
    let dragon_type = field::<String>(members, "DragonType"@);
    let stolen = stolen_field(members);
    let assisters = field::<Vec<String>>(members, "Assisters"@);
    if killer_name is Err {
        Err(killer_name->Err_0)
    } else if dragon_type is Err {
        Err(dragon_type->Err_0)
    } else if stolen is Err {
        Err(stolen->Err_0)
    } else if assisters is Err {
        Err(assisters->Err_0)
    } else {
        Ok(
            GameEventTypeView::DragonKill {
                killer_name: killer_name->Ok_0,
                dragon_type: dragon_type->Ok_0,
                stolen: stolen->Ok_0,
                assisters: assisters->Ok_0,
            },
        )
    }
}

fn read_dragon_kill(members: &Vec<(String, Json)>) -> (r: Result<GameEventType, DecodeError>)
    ensures
        agrees(r, dragon_kill(members.deep_view())),
{
    let killer_name = read_field::<String>(members, "KillerName")?;
    let dragon_type = read_field::<String>(members, "DragonType")?;
    let stolen = read_stolen(members)?;
    let assisters = read_field::<Vec<String>>(members, "Assisters")?;
    Ok(GameEventType::DragonKill { killer_name, dragon_type, stolen, assisters })
}

/// What an object with these `members` decodes to as a `HeraldKill` event.
pub open spec fn herald_kill(members: Seq<(Seq<char>, JsonView)>) -> Result<
    GameEventTypeView,
    DecodeError,
> {
    let killer_name = field::<String>(members, "KillerName"@);
    let stolen = stolen_field(members);
    let assisters = field::<Vec<String>>(members, "Assisters"@);
    if killer_name is Err {
        Err(killer_name->Err_0)
    } else if stolen is Err {
        Err(stolen->Err_0)
    } else if assisters is Err {
        Err(assisters->Err_0)
    } else {
        Ok(
            GameEventTypeView::HeraldKill {
                killer_name: killer_name->Ok_0,
                stolen: stolen->Ok_0,
                assisters: assisters->Ok_0,
            },
        )
    }
}

fn read_herald_kill(members: &Vec<(String, Json)>) -> (r: Result<GameEventType, DecodeError>)
    ensures
        agrees(r, herald_kill(members.deep_view())),
{
    let killer_name = read_field::<String>(members, "KillerName")?;
    let stolen = read_stolen(members)?;
    let assisters = read_field::<Vec<String>>(members, "Assisters")?;
    Ok(GameEventType::HeraldKill { killer_name, stolen, assisters })
}

/// What an object with these `members` decodes to as a `BaronKill` event.
pub open spec fn baron_kill(members: Seq<(Seq<char>, JsonView)>) -> Result<
    GameEventTypeView,
    DecodeError,
> {
    let killer_name = field::<String>(members, "KillerName"@);
    let stolen = stolen_field(members);
    let assisters = field::<Vec<String>>(members, "Assisters"@);
    if killer_name is Err {
        Err(killer_name->Err_0)
    } else if stolen is Err {
        Err(stolen->Err_0)
    } else if assisters is Err {
        Err(assisters->Err_0)
    } else {
        Ok(
            GameEventTypeView::BaronKill {
                killer_name: killer_name->Ok_0,
                stolen: stolen->Ok_0,
                assisters: assisters->Ok_0,
            },
        )
    }
}

fn read_baron_kill(members: &Vec<(String, Json)>) -> (r: Result<GameEventType, DecodeError>)
    ensures
        agrees(r, baron_kill(members.deep_view())),
{
    let killer_name = read_field::<String>(members, "KillerName")?;
    let stolen = read_stolen(members)?;
    let assisters = read_field::<Vec<String>>(members, "Assisters")?;
    Ok(GameEventType::BaronKill { killer_name, stolen, assisters })
}

/// What an object with these `members` decodes to as a `Multikill` event.
pub open spec fn multikill(members: Seq<(Seq<char>, JsonView)>) -> Result<
    GameEventTypeView,
    DecodeError,
> {
    let killer_name = field::<String>(members, "KillerName"@);
    let killstreak = field::<i32>(members, "KillStreak"@);
    if killer_name is Err {
        Err(killer_name->Err_0)
    } else if killstreak is Err {
        Err(killstreak->Err_0)
    } else {
        Ok(
            GameEventTypeView::Multikill {
                killer_name: killer_name->Ok_0,
                killstreak: killstreak->Ok_0,
            },
        )
    }
}

fn read_multikill(members: &Vec<(String, Json)>) -> (r: Result<GameEventType, DecodeError>)
    ensures
        agrees(r, multikill(members.deep_view())),
{
    let killer_name = read_field::<String>(members, "KillerName")?;
    let killstreak = read_field::<i32>(members, "KillStreak")?;
    Ok(GameEventType::Multikill { killer_name, killstreak })
}

/// What an object with these `members` decodes to as a `Ace` event.
pub open spec fn ace(members: Seq<(Seq<char>, JsonView)>) -> Result<
    GameEventTypeView,
    DecodeError,
> {
    let acer = field::<String>(members, "Acer"@);
    let acing_team = field::<String>(members, "AcingTeam"@);
    if acer is Err {
        Err(acer->Err_0)
    } else if acing_team is Err {
        Err(acing_team->Err_0)
    } else {
        Ok(
            GameEventTypeView::Ace {
                acer: acer->Ok_0,
                acing_team: acing_team->Ok_0,
            },
        )
    }
}

fn read_ace(members: &Vec<(String, Json)>) -> (r: Result<GameEventType, DecodeError>)
    ensures
        agrees(r, ace(members.deep_view())),
{
    let acer = read_field::<String>(members, "Acer")?;
    let acing_team = read_field::<String>(members, "AcingTeam")?;
    Ok(GameEventType::Ace { acer, acing_team })
}

/// What an object with these `members` decodes to as an event of `kind`.
pub open spec fn decoded_as(kind: EventKind, members: Seq<(Seq<char>, JsonView)>) -> Result<
    GameEventTypeView,
    DecodeError,
> {
    match kind {
        EventKind::GameStart => Ok(GameEventTypeView::GameStart),
        EventKind::MinionsSpawning => Ok(GameEventTypeView::MinionsSpawning),
        EventKind::ChampionKill => champion_kill(members),
        EventKind::FirstBrick => first_brick(members),
        EventKind::TurretKilled => turret_killed(members),
        EventKind::InhibKilled => inhib_killed(members),
        EventKind::DragonKill => dragon_kill(members),
        EventKind::HeraldKill => herald_kill(members),
        EventKind::BaronKill => baron_kill(members),
        EventKind::Multikill => multikill(members),
        EventKind::Ace => ace(members),
    }
}

impl Decode for GameEventType {
    open spec fn decoded(j: JsonView) -> Result<GameEventTypeView, DecodeError> {
        match j {
            JsonView::Object(m) => match field::<String>(m, "EventName"@) {
                Err(e) => Err(e),
                Ok(name) => match event_kind(name) {
                    None => Err(DecodeError::UnknownEvent),
                    Some(kind) => decoded_as(kind, m),
                },
            },
            _ => Err(DecodeError::WrongType),
        }
    }

    open spec fn absent() -> Result<GameEventTypeView, DecodeError> {
        Err(DecodeError::MissingField)
    }

    fn decode(j: &Json) -> (r: Result<GameEventType, DecodeError>) {
        let m = members_of(j)?;
        let name = read_field::<String>(m, "EventName")?;
        match EventKind::from_name(name.as_str()) {
            None => Err(DecodeError::UnknownEvent),
            Some(EventKind::GameStart) => Ok(GameEventType::GameStart),
            Some(EventKind::MinionsSpawning) => Ok(GameEventType::MinionsSpawning),
            Some(EventKind::ChampionKill) => read_champion_kill(m),
            Some(EventKind::FirstBrick) => read_first_brick(m),
            Some(EventKind::TurretKilled) => read_turret_killed(m),
            Some(EventKind::InhibKilled) => read_inhib_killed(m),
            Some(EventKind::DragonKill) => read_dragon_kill(m),
            Some(EventKind::HeraldKill) => read_herald_kill(m),
            Some(EventKind::BaronKill) => read_baron_kill(m),
            Some(EventKind::Multikill) => read_multikill(m),
            Some(EventKind::Ace) => read_ace(m),
        }
    }

    fn when_absent() -> (r: Result<GameEventType, DecodeError>) {
        Err(DecodeError::MissingField)
    }
}

/// One entry of the event feed. What happened stands beside the
/// identifier and the time in one object.
#[derive(Debug)]
pub struct GameEvent {
    pub event_id: i32,
    pub event_time: Number,
    pub event_type: GameEventType,
}

/// The mathematical value of a [`GameEvent`].
pub ghost struct GameEventView {
    pub event_id: i32,
    pub event_time: NumberView,
    pub event_type: GameEventTypeView,
}

impl DeepView for GameEvent {
    type V = GameEventView;

    open spec fn deep_view(&self) -> GameEventView {
        GameEventView {
            event_id: self.event_id,
            event_time: self.event_time.deep_view(),
            event_type: self.event_type.deep_view(),
        }
    }
}

impl Decode for GameEvent {
    open spec fn decoded(j: JsonView) -> Result<GameEventView, DecodeError> {
        match j {
            JsonView::Object(m) => {
                let event_id = field::<i32>(m, "EventID"@);
                let event_time = field::<Number>(m, "EventTime"@);
                let event_type = GameEventType::decoded(j);
                if event_id is Err {
                    Err(event_id->Err_0)
                } else if event_time is Err {
                    Err(event_time->Err_0)
                } else if event_type is Err {
                    Err(event_type->Err_0)
                } else {
                    Ok(
                        GameEventView {
                            event_id: event_id->Ok_0,
                            event_time: event_time->Ok_0,
                            event_type: event_type->Ok_0,
                        },
                    )
                }
            },
            _ => Err(DecodeError::WrongType),
        }
    }

    open spec fn absent() -> Result<GameEventView, DecodeError> {
        Err(DecodeError::MissingField)
    }

    fn decode(j: &Json) -> (r: Result<GameEvent, DecodeError>) {
        let m = members_of(j)?;
        let event_id = read_field::<i32>(m, "EventID")?;
        let event_time = read_field::<Number>(m, "EventTime")?;
        let event_type = GameEventType::decode(j)?;
        Ok(GameEvent { event_id, event_time, event_type })
    }

    fn when_absent() -> (r: Result<GameEvent, DecodeError>) {
        Err(DecodeError::MissingField)
    }
}

/// The event feed: every event of the match so far.
#[derive(Debug)]
pub struct GameEventAll {
    pub events: Vec<GameEvent>,
}

/// The mathematical value of a [`GameEventAll`].
pub ghost struct GameEventAllView {
    pub events: Seq<GameEventView>,
}

impl DeepView for GameEventAll {
    type V = GameEventAllView;

    open spec fn deep_view(&self) -> GameEventAllView {
        GameEventAllView {
            events: self.events.deep_view(),
        }
    }
}

impl Decode for GameEventAll {
    open spec fn decoded(j: JsonView) -> Result<GameEventAllView, DecodeError> {
        match j {
            JsonView::Object(m) => {
                let events = field::<Vec<GameEvent>>(m, "Events"@);
                if events is Err {
                    Err(events->Err_0)
                } else {
                    Ok(
                        GameEventAllView {
                            events: events->Ok_0,
                        },
                    )
                }
            },
            _ => Err(DecodeError::WrongType),
        }
    }

    open spec fn absent() -> Result<GameEventAllView, DecodeError> {
        Err(DecodeError::MissingField)
    }

    fn decode(j: &Json) -> (r: Result<GameEventAll, DecodeError>) {
        let m = members_of(j)?;
        let events = read_field::<Vec<GameEvent>>(m, "Events")?;
        Ok(GameEventAll { events })
    }

    fn when_absent() -> (r: Result<GameEventAll, DecodeError>) {
        Err(DecodeError::MissingField)
    }
}

/// The text of a `Stolen` member decides the flag: `"True"` is true,
/// `"False"` is false, and every other string is an error.
pub proof fn law_stolen_text(text: Seq<char>)
    ensures
        text == "True"@ ==> stolen_flag(text) == Ok::<bool, DecodeError>(true),
        text == "False"@ ==> stolen_flag(text) == Ok::<bool, DecodeError>(false),
        text != "True"@ && text != "False"@ ==> stolen_flag(text) == Err::<bool, DecodeError>(
            DecodeError::InvalidStolen,
        ),
{
    reveal_strlit("True");
    reveal_strlit("False");
    assert("True"@.len() == 4 && "False"@.len() == 5);
}

/// The flag of an event that says whether the kill was stolen.
pub open spec fn stolen_of(event: GameEventTypeView) -> Option<bool> {
    match event {
        GameEventTypeView::DragonKill { stolen, .. } => Some(stolen),
        GameEventTypeView::HeraldKill { stolen, .. } => Some(stolen),
        GameEventTypeView::BaronKill { stolen, .. } => Some(stolen),
        _ => None,
    }
}

/// A dragon, herald or baron kill decodes only if its `Stolen` member is the
/// string `"True"` or the string `"False"`, and its flag is then what the
/// string says: no other value is taken for either.
pub proof fn law_stolen_decides(members: Seq<(Seq<char>, JsonView)>, name: Seq<char>)
    requires
        field::<String>(members, "EventName"@) == Ok::<Seq<char>, DecodeError>(name),
        event_kind(name) == Some(EventKind::DragonKill) || event_kind(name) == Some(
            EventKind::HeraldKill,
        ) || event_kind(name) == Some(EventKind::BaronKill),
    ensures
        GameEventType::decoded(JsonView::Object(members)) matches Ok(event) ==> {
            &&& field::<String>(members, "Stolen"@) matches Ok(text) && (text == "True"@ || text
                == "False"@)
            &&& stolen_of(event) == Some(field::<String>(members, "Stolen"@)->Ok_0 == "True"@)
        },
{
    reveal_strlit("True");
    reveal_strlit("False");
}

/// An event whose name is outside the known set does not decode, neither
/// alone nor as an entry of the feed.
pub proof fn law_unknown_event_fails(members: Seq<(Seq<char>, JsonView)>, name: Seq<char>)
    requires
        field::<String>(members, "EventName"@) == Ok::<Seq<char>, DecodeError>(name),
        event_kind(name) is None,
    ensures
        GameEventType::decoded(JsonView::Object(members)) == Err::<GameEventTypeView, DecodeError>(
            DecodeError::UnknownEvent,
        ),
        GameEvent::decoded(JsonView::Object(members)) is Err,
{
}

/// A feed with an entry that does not decode does not decode: the entry is
/// not dropped from the list.
pub proof fn law_bad_event_fails_feed(feed: Seq<(Seq<char>, JsonView)>, events: Seq<JsonView>, i: int)
    requires
        member(feed, "Events"@) == Some(JsonView::Array(events)),
        0 <= i < events.len(),
        GameEvent::decoded(events[i]) is Err,
    ensures
        GameEventAll::decoded(JsonView::Object(feed)) is Err,
{
    lemma_bad_item_fails_list::<GameEvent>(events, i);
}

} // verus!
