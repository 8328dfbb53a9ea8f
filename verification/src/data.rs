//! The printed content: chassis, dials, pilots and upgrade cards.

use vstd::prelude::*;
use vstd::string::*;

use crate::maneuver::{ManeuverSet, ManeuverSetId};
use crate::pilot::{Pilot, PilotId, Source};
use crate::ship::{Faction, ShipClass, ShipClassId};
use crate::upgrade::{Slot, Upgrade, UpgradeEffect, UpgradeId};

verus! {

/// Every chassis.
#[derive(Debug, Clone)]
pub struct ShipDb {
    pub classes: Vec<ShipClass>,
}

/// The first chassis with the id.
pub open spec fn find_class(s: Seq<ShipClass>, id: ShipClassId) -> Option<ShipClass>
    decreases s.len(),
{
    if s.len() == 0 {
        None
    } else if s[0].id == id {
        Some(s[0])
    } else {
        find_class(s.skip(1), id)
    }
}

/// The first dial with the id.
pub open spec fn find_set(s: Seq<ManeuverSet>, id: ManeuverSetId) -> Option<ManeuverSet>
    decreases s.len(),
{
    if s.len() == 0 {
        None
    } else if s[0].id == id {
        Some(s[0])
    } else {
        find_set(s.skip(1), id)
    }
}

/// The first pilot with the id.
pub open spec fn find_pilot(s: Seq<Pilot>, id: PilotId) -> Option<Pilot>
    decreases s.len(),
{
    if s.len() == 0 {
        None
    } else if s[0].id == id {
        Some(s[0])
    } else {
        find_pilot(s.skip(1), id)
    }
}

/// The first card with the id.
pub open spec fn find_upgrade(s: Seq<Upgrade>, id: UpgradeId) -> Option<Upgrade>
    decreases s.len(),
{
    if s.len() == 0 {
        None
    } else if s[0].id == id {
        Some(s[0])
    } else {
        find_upgrade(s.skip(1), id)
    }
}

impl ShipDb {
    pub fn class(&self, id: ShipClassId) -> (class: Option<&ShipClass>)
        ensures
            class is Some <==> find_class(self.classes@, id) is Some,
            class is Some ==> *class->0 == find_class(self.classes@, id)->0,
    {
        let mut i: usize = 0;
        assert(self.classes@.skip(0) =~= self.classes@);
        while i < self.classes.len()
            invariant
                i <= self.classes.len(),
                find_class(self.classes@, id) == find_class(self.classes@.skip(i as int), id),
            decreases self.classes.len() - i,
        {
            assert(self.classes@.skip(i as int).skip(1) =~= self.classes@.skip(i + 1));
            if self.classes[i].id == id {
                return Some(&self.classes[i]);
            }
            i = i + 1;
        }
        None
    }
}

/// Every dial.
#[derive(Debug, Clone)]
pub struct ManeuverDb {
    pub sets: Vec<ManeuverSet>,
}

impl ManeuverDb {
    pub fn set(&self, id: ManeuverSetId) -> (set: Option<&ManeuverSet>)
        ensures
            set is Some <==> find_set(self.sets@, id) is Some,
            set is Some ==> *set->0 == find_set(self.sets@, id)->0,
    {
        let mut i: usize = 0;
        assert(self.sets@.skip(0) =~= self.sets@);
        while i < self.sets.len()
            invariant
                i <= self.sets.len(),
                find_set(self.sets@, id) == find_set(self.sets@.skip(i as int), id),
            decreases self.sets.len() - i,
        {
            assert(self.sets@.skip(i as int).skip(1) =~= self.sets@.skip(i + 1));
            if self.sets[i].id == id {
                return Some(&self.sets[i]);
            }
            i = i + 1;
        }
        None
    }
}

/// The names that card images are filed under, by faction and by slot.
#[derive(Debug, Clone)]
pub struct XwsNames {
    pub factions: Vec<(Faction, String)>,
    pub slots: Vec<(Slot, String)>,
}

/// The name of a faction: that of its first entry.
pub open spec fn faction_name(s: Seq<(Faction, String)>, faction: Faction) -> Seq<char>
    decreases s.len(),
{
    if s.len() == 0 {
        Seq::empty()
    } else if s[0].0 == faction {
        s[0].1@
    } else {
        faction_name(s.skip(1), faction)
    }
}

/// The name of a slot: that of its first entry.
pub open spec fn slot_name(s: Seq<(Slot, String)>, slot: Slot) -> Seq<char>
    decreases s.len(),
{
    if s.len() == 0 {
        Seq::empty()
    } else if s[0].0 == slot {
        s[0].1@
    } else {
        slot_name(s.skip(1), slot)
    }
}

impl XwsNames {
    pub fn faction(&self, faction: Faction) -> (name: String)
        ensures
            name@ == faction_name(self.factions@, faction),
    {
        let mut i: usize = 0;
        assert(self.factions@.skip(0) =~= self.factions@);
        while i < self.factions.len()
            invariant
                i <= self.factions.len(),
                faction_name(self.factions@, faction) == faction_name(
                    self.factions@.skip(i as int),
                    faction,
                ),
            decreases self.factions.len() - i,
        {
            assert(self.factions@.skip(i as int).skip(1) =~= self.factions@.skip(i + 1));
            if self.factions[i].0 == faction {
                return self.factions[i].1.clone();
            }
            i = i + 1;
        }
        let name = String::new();
        assert(name@ =~= Seq::empty());
        name
    }

    pub fn slot(&self, slot: Slot) -> (name: String)
        ensures
            name@ == slot_name(self.slots@, slot),
    {
        let mut i: usize = 0;
        assert(self.slots@.skip(0) =~= self.slots@);
        while i < self.slots.len()
            invariant
                i <= self.slots.len(),
                slot_name(self.slots@, slot) == slot_name(self.slots@.skip(i as int), slot),
            decreases self.slots.len() - i,
        {
            assert(self.slots@.skip(i as int).skip(1) =~= self.slots@.skip(i + 1));
            if self.slots[i].0 == slot {
                return self.slots[i].1.clone();
            }
            i = i + 1;
        }
        let name = String::new();
        assert(name@ =~= Seq::empty());
        name
    }
}

/// Every upgrade card.
#[derive(Debug, Clone)]
pub struct UpgradeDb {
    pub upgrades: Vec<Upgrade>,
}

/// The cards of a slot, in order.
pub open spec fn of_slot(s: Seq<Upgrade>, slot: Slot) -> Seq<Upgrade>
    decreases s.len(),
{
    if s.len() == 0 {
        s
    } else if s.last().slot == slot {
        of_slot(s.drop_last(), slot).push(s.last())
    } else {
        of_slot(s.drop_last(), slot)
    }
}

/// What a list of borrowed values holds.
pub open spec fn values<T>(s: Seq<&T>) -> Seq<T> {
    s.map_values(|x: &T| *x)
}

impl UpgradeDb {
    pub fn upgrade(&self, id: UpgradeId) -> (card: Option<&Upgrade>)
        ensures
            card is Some <==> find_upgrade(self.upgrades@, id) is Some,
            card is Some ==> *card->0 == find_upgrade(self.upgrades@, id)->0,
    {
        let mut i: usize = 0;
        assert(self.upgrades@.skip(0) =~= self.upgrades@);
        while i < self.upgrades.len()
            invariant
                i <= self.upgrades.len(),
                find_upgrade(self.upgrades@, id) == find_upgrade(
                    self.upgrades@.skip(i as int),
                    id,
                ),
            decreases self.upgrades.len() - i,
        {
            assert(self.upgrades@.skip(i as int).skip(1) =~= self.upgrades@.skip(i + 1));
            if self.upgrades[i].id == id {
                return Some(&self.upgrades[i]);
            }
            i = i + 1;
        }
        None
    }

    pub fn by_slot(&self, slot: Slot) -> (cards: Vec<&Upgrade>)
        ensures
            values(cards@) == of_slot(self.upgrades@, slot),
    {
        let mut cards: Vec<&Upgrade> = Vec::new();
        let mut i: usize = 0;
        assert(values(cards@) =~= of_slot(self.upgrades@.take(0), slot));
        while i < self.upgrades.len()
            invariant
                i <= self.upgrades.len(),
                values(cards@) == of_slot(self.upgrades@.take(i as int), slot),
            decreases self.upgrades.len() - i,
        {
            assert(self.upgrades@.take(i + 1).drop_last() =~= self.upgrades@.take(i as int));
            if self.upgrades[i].slot == slot {
                let ghost before = cards@;
                cards.push(&self.upgrades[i]);
                assert(values(cards@) =~= values(before).push(self.upgrades@[i as int]));
            }
            i = i + 1;
        }
        assert(self.upgrades@.take(i as int) =~= self.upgrades@);
        cards
    }

    /// Card image path in an XWS-layout card directory:
    /// `upgrades/<slot>/<xws>.png`.
    pub fn card_image(&self, names: &XwsNames, id: UpgradeId) -> (path: Option<String>)
        ensures
            path is Some <==> find_upgrade(self.upgrades@, id) is Some,
            path is Some ==> path->0@ == "upgrades/"@ + slot_name(
                names.slots@,
                find_upgrade(self.upgrades@, id)->0.slot,
            ) + "/"@ + find_upgrade(self.upgrades@, id)->0.xws@ + ".png"@,
    {
        match self.upgrade(id) {
            None => None,
            Some(u) => {
                let slot = names.slot(u.slot);
                let mut path = String::from_str("upgrades/");
                path.append(slot.as_str());
                path.append("/");
                path.append(u.xws.as_str());
                path.append(".png");
                Some(path)
            },
        }
    }
}

/// Every pilot card.
#[derive(Debug, Clone)]
pub struct PilotDb {
    pub pilots: Vec<Pilot>,
}

/// The pilots of a class, out of the named packs or all, in order.
pub open spec fn flying(
    s: Seq<Pilot>,
    class: ShipClassId,
    sources: Option<Seq<Source>>,
) -> Seq<Pilot>
    decreases s.len(),
{
    if s.len() == 0 {
        s
    } else {
        let rest = flying(s.drop_last(), class, sources);
        let p = s.last();
        if p.class == class && (sources is None || sources->0.contains(p.source)) {
            rest.push(p)
        } else {
            rest
        }
    }
}

/// May fly in a basic squad: of the class, and not unique.
pub open spec fn generic(p: Pilot, class: ShipClassId) -> bool {
    p.class == class && !p.unique
}

impl PilotDb {
    pub fn pilot(&self, id: PilotId) -> (pilot: Option<&Pilot>)
        ensures
            pilot is Some <==> find_pilot(self.pilots@, id) is Some,
            pilot is Some ==> *pilot->0 == find_pilot(self.pilots@, id)->0,
    {
        let mut i: usize = 0;
        assert(self.pilots@.skip(0) =~= self.pilots@);
        while i < self.pilots.len()
            invariant
                i <= self.pilots.len(),
                find_pilot(self.pilots@, id) == find_pilot(self.pilots@.skip(i as int), id),
            decreases self.pilots.len() - i,
        {
            assert(self.pilots@.skip(i as int).skip(1) =~= self.pilots@.skip(i + 1));
            if self.pilots[i].id == id {
                return Some(&self.pilots[i]);
            }
            i = i + 1;
        }
        None
    }

    /// The cheapest (basic, non-unique) pilot of a class; the first of those
    /// that cost the same.
    pub fn basic_for(&self, class: ShipClassId) -> (pilot: Option<&Pilot>)
        ensures
            pilot is None <==> forall|k: int|
                0 <= k < self.pilots@.len() ==> !generic(#[trigger] self.pilots@[k], class),
            pilot is Some ==> exists|k: int|
                0 <= k < self.pilots@.len() && generic(#[trigger] self.pilots@[k], class)
                    && *pilot->0 == self.pilots@[k] && (forall|j: int|
                    0 <= j < self.pilots@.len() && generic(#[trigger] self.pilots@[j], class)
                        ==> self.pilots@[k].cost < self.pilots@[j].cost || (
                    self.pilots@[k].cost == self.pilots@[j].cost && k <= j)),
    {
        let mut best: Option<usize> = None;
        let mut i: usize = 0;
        while i < self.pilots.len()
            invariant
                i <= self.pilots.len(),
                best is None <==> forall|k: int|
                    0 <= k < i ==> !generic(#[trigger] self.pilots@[k], class),
                best is Some ==> best->0 < i && generic(self.pilots@[best->0 as int], class) && (
                forall|j: int|
                    0 <= j < i && generic(#[trigger] self.pilots@[j], class)
                        ==> self.pilots@[best->0 as int].cost < self.pilots@[j].cost || (
                    self.pilots@[best->0 as int].cost == self.pilots@[j].cost && best->0 <= j)),
            decreases self.pilots.len() - i,
        {
            if self.pilots[i].class == class && !self.pilots[i].unique {
                assert(generic(self.pilots@[i as int], class));
                match best {
                    None => {
                        best = Some(i);
                    },
                    Some(b) => {
                        if self.pilots[i].cost < self.pilots[b].cost {
                            best = Some(i);
                        }
                    },
                }
            }
            i = i + 1;
        }
        match best {
            None => None,
            Some(b) => {
                assert(generic(self.pilots@[b as int], class));
                Some(&self.pilots[b])
            },
        }
    }

    /// Relative path of a pilot's card image in an XWS-layout card
    /// directory: `pilots/<faction>/<ship>/<pilot>.png`.
    pub fn card_image(&self, ships: &ShipDb, names: &XwsNames, id: PilotId) -> (path: Option<
        String,
    >)
        ensures
            path is Some <==> find_pilot(self.pilots@, id) is Some && find_class(
                ships.classes@,
                find_pilot(self.pilots@, id)->0.class,
            ) is Some,
            path is Some ==> ({
                let p = find_pilot(self.pilots@, id)->0;
                let c = find_class(ships.classes@, p.class)->0;
                path->0@ == "pilots/"@ + faction_name(names.factions@, c.faction) + "/"@ + c.xws@
                    + "/"@ + p.xws@ + ".png"@
            }),
    {
        let p = match self.pilot(id) {
            None => return None,
            Some(p) => p,
        };
        let c = match ships.class(p.class) {
            None => return None,
            Some(c) => c,
        };
        let faction = names.faction(c.faction);
        let mut path = String::from_str("pilots/");
        path.append(faction.as_str());
        path.append("/");
        path.append(c.xws.as_str());
        path.append("/");
        path.append(p.xws.as_str());
        path.append(".png");
        Some(path)
    }

    /// Pilots of a class, optionally restricted to some source packs.
    pub fn roster(&self, class: ShipClassId, sources: Option<&[Source]>) -> (pilots: Vec<&Pilot>)
        ensures
            values(pilots@) == flying(
                self.pilots@,
                class,
                match sources {
                    Some(s) => Some(s@),
                    None => None,
                },
            ),
    {
        let ghost packs: Option<Seq<Source>> = match sources {
            Some(s) => Some(s@),
            None => None,
        };
        let mut pilots: Vec<&Pilot> = Vec::new();
        let mut i: usize = 0;
        assert(values(pilots@) =~= flying(self.pilots@.take(0), class, packs));
        while i < self.pilots.len()
            invariant
                i <= self.pilots.len(),
                packs == (match sources {
                    Some(s) => Some(s@),
                    None => None,
                }),
                values(pilots@) == flying(self.pilots@.take(i as int), class, packs),
            decreases self.pilots.len() - i,
        {
            assert(self.pilots@.take(i + 1).drop_last() =~= self.pilots@.take(i as int));
            let wanted = match sources {
                None => true,
                Some(s) => has_source(s, self.pilots[i].source),
            };
            if self.pilots[i].class == class && wanted {
                let ghost before = pilots@;
                pilots.push(&self.pilots[i]);
                assert(values(pilots@) =~= values(before).push(self.pilots@[i as int]));
            }
            i = i + 1;
        }
        assert(self.pilots@.take(i as int) =~= self.pilots@);
        pilots
    }
}

fn has_source(sources: &[Source], source: Source) -> (found: bool)
    ensures
        found == sources@.contains(source),
{
    let mut i: usize = 0;
    while i < sources.len()
        invariant
            i <= sources.len(),
            forall|k: int| 0 <= k < i ==> sources@[k] != source,
        decreases sources.len() - i,
    {
        if sources[i] == source {
            assert(sources@[i as int] == source);
            return true;
        }
        i = i + 1;
    }
    false
}

/// Everything printed — the static content that a game consults while it
/// runs.
#[derive(Debug, Clone)]
pub struct Content {
    pub ships: ShipDb,
    pub dials: ManeuverDb,
    pub pilots: PilotDb,
    pub upgrades: UpgradeDb,
}

impl Content {
    pub open spec fn chassis(self, id: ShipClassId) -> Option<ShipClass> {
        find_class(self.ships.classes@, id)
    }

    pub open spec fn flyer(self, id: PilotId) -> Option<Pilot> {
        find_pilot(self.pilots.pilots@, id)
    }

    pub open spec fn card(self, id: UpgradeId) -> Option<Upgrade> {
        find_upgrade(self.upgrades.upgrades@, id)
    }

    /// The class is known and its dial exists.
    pub open spec fn has_dial(self, id: ShipClassId) -> bool {
        self.chassis(id) is Some && find_set(
            self.dials.sets@,
            self.chassis(id)->0.maneuver_set,
        ) is Some
    }

    /// The dial of a class, maneuver by maneuver.
    pub open spec fn dial(self, id: ShipClassId) -> Seq<crate::maneuver::Maneuver> {
        find_set(self.dials.sets@, self.chassis(id)->0.maneuver_set)->0.maneuvers@
    }

    /// What a card does, if it is known and does anything.
    pub open spec fn does(self, id: UpgradeId) -> Option<UpgradeEffect> {
        match self.card(id) {
            Some(u) => u.effect,
            None => None,
        }
    }

    /// The slot of a card, if it is known.
    pub open spec fn fits(self, id: UpgradeId) -> Option<Slot> {
        match self.card(id) {
            Some(u) => Some(u.slot),
            None => None,
        }
    }

    /// What a card does, if it is known and does anything.
    pub fn effect(&self, id: UpgradeId) -> (effect: Option<UpgradeEffect>)
        ensures
            effect == self.does(id),
    {
        match self.upgrades.upgrade(id) {
            Some(u) => u.effect,
            None => None,
        }
    }

    /// The slot of a card, if it is known.
    pub fn slot(&self, id: UpgradeId) -> (slot: Option<Slot>)
        ensures
            slot == self.fits(id),
    {
        match self.upgrades.upgrade(id) {
            Some(u) => Some(u.slot),
            None => None,
        }
    }
}

} // verus!
