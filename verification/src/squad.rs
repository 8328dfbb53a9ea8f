//! Squads: the ships a player brings.

use vstd::prelude::*;
use vstd::string::*;

use crate::data::Content;
use crate::pilot::PilotId;
use crate::ship::Faction;
use crate::upgrade::UpgradeId;

verus! {

#[derive(Debug, Clone, PartialEq, Eq)]
pub struct SquadShip {
    pub pilot: PilotId,
    pub upgrades: Vec<UpgradeId>,
    /// Empty for the default callsign.
    pub callsign: String,
}

#[derive(Debug, Clone, PartialEq, Eq)]
pub struct Squad {
    pub name: String,
    pub faction: Faction,
    pub ships: Vec<SquadShip>,
}

/// A number's decimal digits.
pub open spec fn digits(n: nat) -> Seq<char>
    decreases n,
{
    if n < 10 {
        seq![('0' as u8 + n as u8) as char]
    } else {
        digits(n / 10).push(('0' as u8 + (n % 10) as u8) as char)
    }
}

/// A digit's character.
fn digit(n: usize) -> (s: &'static str)
    requires
        n < 10,
    ensures
        s@ == digits(n as nat),
{
    proof {
        reveal_strlit("0");
        reveal_strlit("1");
        reveal_strlit("2");
        reveal_strlit("3");
        reveal_strlit("4");
        reveal_strlit("5");
        reveal_strlit("6");
        reveal_strlit("7");
        reveal_strlit("8");
        reveal_strlit("9");
    }
    let s = match n {
        0 => "0",
        1 => "1",
        2 => "2",
        3 => "3",
        4 => "4",
        5 => "5",
        6 => "6",
        7 => "7",
        8 => "8",
        _ => "9",
    };
    assert(s@ =~= digits(n as nat));
    s
}

/// A number in decimal.
pub fn decimal(n: usize) -> (s: String)
    ensures
        s@ == digits(n as nat),
    decreases n,
{
    if n < 10 {
        String::from_str(digit(n))
    } else {
        let mut s = decimal(n / 10);
        s.append(digit(n % 10));
        assert(s@ =~= digits(n as nat));
        s
    }
}

/// What the `k`-th ship of a squad is called by default: the leader, then
/// numbers from 2 on.
pub open spec fn default_callsign(squad: Seq<char>, k: int) -> Seq<char> {
    if k == 0 {
        squad + "-leader"@
    } else {
        squad + "-"@ + digits((k + 1) as nat)
    }
}

/// What the `k`-th ship is called: its own callsign, or the default one.
pub open spec fn callsign_of(own: Seq<char>, squad: Seq<char>, k: int) -> Seq<char> {
    if own.len() > 0 {
        own
    } else {
        default_callsign(squad, k)
    }
}

/// The points of the cards in the list.
pub open spec fn cards_cost(content: Content, cards: Seq<UpgradeId>) -> nat
    decreases cards.len(),
{
    if cards.len() == 0 {
        0
    } else {
        cards_cost(content, cards.drop_last()) + match content.card(cards.last()) {
            Some(u) => u.cost as nat,
            None => 0,
        }
    }
}

/// The points of one ship: its pilot and its cards.
pub open spec fn ship_cost(content: Content, ship: SquadShip) -> nat {
    (match content.flyer(ship.pilot) {
        Some(p) => p.cost as nat,
        None => 0nat,
    }) + cards_cost(content, ship.upgrades@)
}

/// The points of the ships in the list.
pub open spec fn ships_cost(content: Content, ships: Seq<SquadShip>) -> nat
    decreases ships.len(),
{
    if ships.len() == 0 {
        0
    } else {
        ships_cost(content, ships.drop_last()) + ship_cost(content, ships.last())
    }
}

proof fn cards_cost_grows(content: Content, cards: Seq<UpgradeId>, n: int)
    requires
        0 <= n <= cards.len(),
    ensures
        cards_cost(content, cards.take(n)) <= cards_cost(content, cards),
    decreases cards.len(),
{
    if n == cards.len() {
        assert(cards.take(n) =~= cards);
    } else {
        assert(cards.drop_last().take(n) =~= cards.take(n));
        cards_cost_grows(content, cards.drop_last(), n);
    }
}

proof fn ships_cost_grows(content: Content, ships: Seq<SquadShip>, n: int)
    requires
        0 <= n <= ships.len(),
    ensures
        ships_cost(content, ships.take(n)) <= ships_cost(content, ships),
    decreases ships.len(),
{
    if n == ships.len() {
        assert(ships.take(n) =~= ships);
    } else {
        assert(ships.drop_last().take(n) =~= ships.take(n));
        ships_cost_grows(content, ships.drop_last(), n);
    }
}

impl Squad {
    /// A squad of the given pilots without upgrades; its faction is that of
    /// the first pilot's ship.
    pub fn basic(content: &Content, name: &str, pilots: &[PilotId]) -> (squad: Squad)
        ensures
            squad.name@ == name@,
            squad.ships@.len() == pilots@.len(),
            forall|k: int|
                0 <= k < pilots@.len() ==> (#[trigger] squad.ships@[k]).pilot == pilots@[k]
                    && squad.ships@[k].upgrades@.len() == 0 && squad.ships@[k].callsign@.len() == 0,
            squad.faction == squad_faction(*content, pilots@),
    {
        let mut ships: Vec<SquadShip> = Vec::new();
        let mut i: usize = 0;
        while i < pilots.len()
            invariant
                i <= pilots.len(),
                ships@.len() == i,
                forall|k: int|
                    0 <= k < i ==> (#[trigger] ships@[k]).pilot == pilots@[k]
                        && ships@[k].upgrades@.len() == 0 && ships@[k].callsign@.len() == 0,
            decreases pilots.len() - i,
        {
            ships.push(
                SquadShip { pilot: pilots[i], upgrades: Vec::new(), callsign: String::new() },
            );
            i = i + 1;
        }
        let mut faction = Faction::RebelAlliance;
        if pilots.len() > 0 {
            if let Some(p) = content.pilots.pilot(pilots[0]) {
                if let Some(c) = content.ships.class(p.class) {
                    faction = c.faction;
                }
            }
        }
        Squad { name: String::from_str(name), faction, ships }
    }

    /// The callsigns of the squad's ships, in order, for a squad known as
    /// `name` in play.
    pub fn callsigns(&self, name: &str) -> (names: Vec<String>)
        ensures
            names@.len() == self.ships@.len(),
            forall|k: int|
                0 <= k < self.ships@.len() ==> (#[trigger] names@[k])@ == callsign_of(
                    self.ships@[k].callsign@,
                    name@,
                    k,
                ),
    {
        let mut names: Vec<String> = Vec::new();
        let mut i: usize = 0;
        while i < self.ships.len()
            invariant
                i <= self.ships.len(),
                names@.len() == i,
                forall|k: int|
                    0 <= k < i ==> (#[trigger] names@[k])@ == callsign_of(
                        self.ships@[k].callsign@,
                        name@,
                        k,
                    ),
            decreases self.ships.len() - i,
        {
            let own = self.ships[i].callsign.as_str();
            if own.unicode_len() > 0 {
                names.push(String::from_str(own));
            } else if i == 0 {
                names.push(String::from_str(name).concat("-leader"));
            } else {
                let mut s = String::from_str(name).concat("-");
                let number = decimal(i + 1);
                s.append(number.as_str());
                names.push(s);
            }
            i = i + 1;
        }
        names
    }

    /// The squad's points: pilots and upgrade cards.
    pub fn cost(&self, content: &Content) -> (cost: u32)
        requires
            ships_cost(*content, self.ships@) <= u32::MAX,
        ensures
            cost == ships_cost(*content, self.ships@),
    {
        let mut total: u32 = 0;
        let mut i: usize = 0;
        while i < self.ships.len()
            invariant
                i <= self.ships.len(),
                total == ships_cost(*content, self.ships@.take(i as int)),
                ships_cost(*content, self.ships@) <= u32::MAX,
            decreases self.ships.len() - i,
        {
            proof {
                assert(self.ships@.take(i + 1).drop_last() =~= self.ships@.take(i as int));
                ships_cost_grows(*content, self.ships@, i + 1);
            }
            let ghost before = total;
            if let Some(p) = content.pilots.pilot(self.ships[i].pilot) {
                total = total + p.cost as u32;
            }
            let ghost pilot = total;
            let mut j: usize = 0;
            while j < self.ships[i].upgrades.len()
                invariant
                    i < self.ships.len(),
                    j <= self.ships@[i as int].upgrades@.len(),
                    total == pilot + cards_cost(
                        *content,
                        self.ships@[i as int].upgrades@.take(j as int),
                    ),
                    pilot + cards_cost(*content, self.ships@[i as int].upgrades@) <= u32::MAX,
                decreases self.ships@[i as int].upgrades@.len() - j,
            {
                proof {
                    let cards = self.ships@[i as int].upgrades@;
                    assert(cards.take(j + 1).drop_last() =~= cards.take(j as int));
                    cards_cost_grows(*content, cards, j + 1);
                }
                if let Some(u) = content.upgrades.upgrade(self.ships[i].upgrades[j]) {
                    total = total + u.cost as u32;
                }
                j = j + 1;
            }
            proof {
                let cards = self.ships@[i as int].upgrades@;
                assert(cards.take(j as int) =~= cards);
            }
            i = i + 1;
        }
        assert(self.ships@.take(i as int) =~= self.ships@);
        total
    }
}

/// The faction that a squad of these pilots flies for.
pub open spec fn squad_faction(content: Content, pilots: Seq<PilotId>) -> Faction {
    if pilots.len() == 0 {
        Faction::RebelAlliance
    } else {
        match content.flyer(pilots[0]) {
            Some(p) => match content.chassis(p.class) {
                Some(c) => c.faction,
                None => Faction::RebelAlliance,
            },
            None => Faction::RebelAlliance,
        }
    }
}

} // verus!
