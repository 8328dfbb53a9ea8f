//! Whom a ship may shoot at, and with what.

#![verifier::loop_isolation(false)]

use vstd::prelude::*;

use crate::crit::CritEffect;
use crate::data::Content;
use crate::game::state::{AttackOption, Game, GameState, PendingAttack};
use crate::pick::{find, first, obeys};
use crate::pilot::PilotAbility;
use crate::ship::ShipId;
use crate::sight::Sight;
use crate::upgrade::{AttackRequirement, Slot, UpgradeEffect, UpgradeId};

verus! {

/// One weapon of a ship, with what it takes to fire it.
#[derive(Debug, Clone, Copy, PartialEq, Eq, Structural)]
pub struct Gun {
    /// None = primary weapon.
    pub card: Option<UpgradeId>,
    pub min: u8,
    pub max: u8,
    pub needs_arc: bool,
    pub requires: AttackRequirement,
}

/// A Weapons Failure crit, whatever rounds it has left.
pub open spec fn failed(c: CritEffect) -> bool {
    c is WeaponsFailure
}

/// Cards in these slots are weapons.
pub open spec fn fires(slot: Option<Slot>) -> bool {
    slot == Some(Slot::Torpedo) || slot == Some(Slot::Missile) || slot == Some(Slot::Cannon)
        || slot == Some(Slot::Turret)
}

impl Game {
    /// Ship `a` cannot attack: on an asteroid, with a Weapons Failure, or off
    /// the board.
    pub open spec fn disarmed(self, a: int) -> bool {
        self.ships[a].on_asteroid || self.ships[a].pose is None || exists|k: int|
            0 <= k < self.ships[a].crits.len() && failed(#[trigger] self.ships[a].crits[k])
    }

    /// The weapon on a card of ship `a`, if it is one. Major Rhymer:
    /// secondary weapon ranges stretch by one band each way (within Range
    /// 1-3). Turret cards fire all around, except with BTL-A4 Y-Wing.
    pub open spec fn gun(self, content: Content, a: int, card: UpgradeId) -> Option<Gun> {
        match content.card(card) {
            Some(u) => match u.attack {
                Some(sw) => if fires(Some(u.slot)) {
                    let rhymer = self.can(content, a, PilotAbility::SecondaryRangePlusMinus1);
                    let arc_only = self.has(
                        content,
                        a,
                        UpgradeEffect::TitleArcOnlyThenTurretAttack,
                    );
                    Some(
                        Gun {
                            card: Some(card),
                            min: if !rhymer {
                                sw.range_min
                            } else if sw.range_min <= 2 {
                                1
                            } else {
                                (sw.range_min - 1) as u8
                            },
                            max: if !rhymer {
                                sw.range_max
                            } else if sw.range_max >= 2 {
                                3
                            } else {
                                (sw.range_max + 1) as u8
                            },
                            needs_arc: u.slot != Slot::Turret || arc_only,
                            requires: sw.requires,
                        },
                    )
                } else {
                    None
                },
                None => None,
            },
            None => None,
        }
    }

    /// The weapons on the cards, in order, behind those in `guns`.
    pub open spec fn guns_on(
        self,
        content: Content,
        a: int,
        cards: Seq<UpgradeId>,
        guns: Seq<Gun>,
    ) -> Seq<Gun>
        decreases cards.len(),
    {
        if cards.len() == 0 {
            guns
        } else {
            let rest = self.guns_on(content, a, cards.drop_last(), guns);
            match self.gun(content, a, cards.last()) {
                Some(gun) => rest.push(gun),
                None => rest,
            }
        }
    }

    /// The weapons of ship `a`: the primary one, if it has dice, and its
    /// cards.
    #[verifier::opaque]
    pub open spec fn guns(self, content: Content, a: int) -> Seq<Gun> {
        let class = content.chassis(self.ships[a].class)->0;
        let primary = if class.attack_dice > 0 {
            seq![
                Gun {
                    card: None,
                    min: 1,
                    max: 3,
                    needs_arc: !class.turret_primary,
                    requires: AttackRequirement::Free,
                },
            ]
        } else {
            Seq::empty()
        };
        self.guns_on(content, a, self.ships[a].active(content), primary)
    }

    /// Ship `a` holds what a weapon asks for against ship `t`. Deadeye: a
    /// focus token stands for the lock.
    pub open spec fn holds(
        self,
        content: Content,
        sight: Sight,
        a: int,
        t: int,
        what: AttackRequirement,
    ) -> bool {
        match what {
            AttackRequirement::Free => true,
            AttackRequirement::TargetLock => self.ships[a].locks(self.ships[t].id) || (
            self.ships[a].focus > 0 && self.has(content, a, UpgradeEffect::LockBecomesFocus))
                || self.synced(content, sight, a, self.ships[t].id),
            AttackRequirement::Focus => self.ships[a].focus > 0,
        }
    }

    /// Ship `t` is an enemy on the board that ship `a` can see within Range
    /// 1-3. Touching bases cannot be targeted — except by Arvel Crynyd, who
    /// may shoot a touching ship inside his arc.
    pub open spec fn visible(self, content: Content, sight: Sight, a: int, t: int) -> bool {
        let line = sight.at(a, t);
        !self.same_side(t, a) && !self.ships[t].destroyed && self.ships[t].pose is Some && (
        line.dist > 0 || (self.can(content, a, PilotAbility::TargetTouchingShipInArc)
            && line.in_arc)) && line.band is Some
    }

    /// Ship `a` may fire the weapon at ship `t`.
    pub open spec fn eligible(self, content: Content, sight: Sight, a: int, t: int, gun: Gun) -> bool {
        let line = sight.at(a, t);
        gun.min <= line.band->0 <= gun.max && (!gun.needs_arc || line.in_arc) && self.holds(
            content,
            sight,
            a,
            t,
            gun.requires,
        )
    }

    /// The option to fire the weapon at ship `t`.
    pub open spec fn option(self, sight: Sight, a: int, t: int, gun: Gun) -> AttackOption {
        let line = sight.at(a, t);
        AttackOption {
            weapon: gun.card,
            target: self.ships[t].id,
            range: line.band->0,
            dist: line.dist,
            obstructed: line.obstructed,
        }
    }

    /// The options against ship `t` with the weapons from `w` on.
    pub open spec fn options_at(
        self,
        content: Content,
        sight: Sight,
        a: int,
        t: int,
        guns: Seq<Gun>,
        w: int,
    ) -> Seq<AttackOption>
        decreases guns.len() - w,
    {
        if w >= guns.len() {
            Seq::empty()
        } else if self.eligible(content, sight, a, t, guns[w]) {
            seq![self.option(sight, a, t, guns[w])] + self.options_at(
                content,
                sight,
                a,
                t,
                guns,
                w + 1,
            )
        } else {
            self.options_at(content, sight, a, t, guns, w + 1)
        }
    }

    /// The options against the ships from `t` on.
    pub open spec fn options_from(
        self,
        content: Content,
        sight: Sight,
        a: int,
        guns: Seq<Gun>,
        t: int,
    ) -> Seq<AttackOption>
        decreases self.ships.len() - t,
    {
        if t >= self.ships.len() {
            Seq::empty()
        } else if self.visible(content, sight, a, t) {
            self.options_at(content, sight, a, t, guns, 0) + self.options_from(
                content,
                sight,
                a,
                guns,
                t + 1,
            )
        } else {
            self.options_from(content, sight, a, guns, t + 1)
        }
    }

    /// Which options are against a Biggs Darklighter that stands in for the
    /// target of option `o`: same weapon, a friend of the target at Range 1.
    pub open spec fn biggs_rule(
        self,
        content: Content,
        sight: Sight,
        all: Seq<AttackOption>,
        o: AttackOption,
    ) -> spec_fn(int) -> bool {
        |k: int|
            match (self.index(all[k].target), self.index(o.target)) {
                (Some(b), Some(t)) => self.can(
                    content,
                    b as int,
                    PilotAbility::ProtectFriendsAtRange1,
                ) && all[k].weapon == o.weapon && b != t && self.same_side(b as int, t as int)
                    && self.range(sight, b as int, t as int) == Some(1u8),
                _ => false,
            }
    }

    /// Biggs Darklighter: while he could be targeted (same weapon), his
    /// friends at Range 1 of him cannot be.
    pub open spec fn shielded(
        self,
        content: Content,
        sight: Sight,
        all: Seq<AttackOption>,
        o: AttackOption,
    ) -> bool {
        first(self.biggs_rule(content, sight, all, o), 0, all.len() as int) is Some
    }

    /// The options that no Biggs Darklighter takes away, in order.
    pub open spec fn unshielded(
        self,
        content: Content,
        sight: Sight,
        all: Seq<AttackOption>,
        some: Seq<AttackOption>,
    ) -> Seq<AttackOption>
        decreases some.len(),
    {
        if some.len() == 0 {
            some
        } else {
            let rest = self.unshielded(content, sight, all, some.drop_last());
            if self.shielded(content, sight, all, some.last()) {
                rest
            } else {
                rest.push(some.last())
            }
        }
    }

    /// Every (weapon, enemy) combination that ship `a` may fire.
    #[verifier::opaque]
    pub open spec fn options(self, content: Content, sight: Sight, a: int) -> Seq<AttackOption> {
        if self.disarmed(a) {
            Seq::empty()
        } else {
            let all = self.options_from(content, sight, a, self.guns(content, a), 0);
            self.unshielded(content, sight, all, all)
        }
    }

    /// What the attacker holds its locks on.
    pub open spec fn locked_by(self, attacker: ShipId) -> (Option<ShipId>, Option<ShipId>) {
        match self.index(attacker) {
            Some(k) => (self.ships[k as int].lock, self.ships[k as int].lock2),
            None => (None, None),
        }
    }
}

/// The options with the primary weapon, in order.
pub open spec fn primaries(options: Seq<AttackOption>) -> Seq<AttackOption>
    decreases options.len(),
{
    if options.len() == 0 {
        options
    } else if options.last().weapon is None {
        primaries(options.drop_last()).push(options.last())
    } else {
        primaries(options.drop_last())
    }
}

/// The options with a turret card, in order.
pub open spec fn turrets(content: Content, options: Seq<AttackOption>) -> Seq<AttackOption>
    decreases options.len(),
{
    if options.len() == 0 {
        options
    } else if options.last().weapon is Some && content.fits(options.last().weapon->0) == Some(
        Slot::Turret,
    ) {
        turrets(content, options.drop_last()).push(options.last())
    } else {
        turrets(content, options.drop_last())
    }
}

/// The nearest of the options, the first of those as near.
pub open spec fn nearest_option(options: Seq<AttackOption>) -> Option<AttackOption>
    decreases options.len(),
{
    if options.len() == 0 {
        None
    } else {
        match nearest_option(options.drop_last()) {
            None => Some(options.last()),
            Some(best) => if options.last().dist < best.dist {
                Some(options.last())
            } else {
                Some(best)
            },
        }
    }
}

/// The first of the options against the target.
pub open spec fn option_on(options: Seq<AttackOption>, target: Option<ShipId>) -> Option<
    AttackOption,
>
    decreases options.len(),
{
    if options.len() == 0 {
        None
    } else if Some(options[0].target) == target {
        Some(options[0])
    } else {
        option_on(options.skip(1), target)
    }
}

/// The option against the target, else the nearest.
pub open spec fn preferred(options: Seq<AttackOption>, target: Option<ShipId>) -> Option<
    AttackOption,
> {
    match option_on(options, target) {
        Some(o) => Some(o),
        None => nearest_option(options),
    }
}

/// Automatic choice: the primary weapon when it has any target, at the locked
/// ship if eligible (the first lock before a second), else the nearest.
pub open spec fn automatic(
    options: Seq<AttackOption>,
    locks: (Option<ShipId>, Option<ShipId>),
) -> Option<AttackOption> {
    let primary = primaries(options);
    if primary.len() == 0 {
        nearest_option(options)
    } else {
        match option_on(primary, locks.0) {
            Some(o) => Some(o),
            None => preferred(primary, locks.1),
        }
    }
}

fn slot_fires(slot: Slot) -> (yes: bool)
    ensures
        yes == fires(Some(slot)),
{
    match slot {
        Slot::Torpedo | Slot::Missile | Slot::Cannon | Slot::Turret => true,
        _ => false,
    }
}

/// The options with the primary weapon, in order.
pub fn keep_primaries(options: &Vec<AttackOption>) -> (kept: Vec<AttackOption>)
    ensures
        kept@ == primaries(options@),
{
    let mut kept: Vec<AttackOption> = Vec::new();
    let mut i: usize = 0;
    assert(kept@ =~= primaries(options@.take(0)));
    while i < options.len()
        invariant
            i <= options.len(),
            kept@ == primaries(options@.take(i as int)),
        decreases options.len() - i,
    {
        assert(options@.take(i + 1).drop_last() =~= options@.take(i as int));
        if options[i].weapon.is_none() {
            kept.push(options[i]);
        }
        i = i + 1;
    }
    assert(options@.take(i as int) =~= options@);
    kept
}

/// The options with a turret card, in order.
pub fn keep_turrets(content: &Content, options: &Vec<AttackOption>) -> (kept: Vec<AttackOption>)
    ensures
        kept@ == turrets(*content, options@),
{
    let mut kept: Vec<AttackOption> = Vec::new();
    let mut i: usize = 0;
    assert(kept@ =~= turrets(*content, options@.take(0)));
    while i < options.len()
        invariant
            i <= options.len(),
            kept@ == turrets(*content, options@.take(i as int)),
        decreases options.len() - i,
    {
        assert(options@.take(i + 1).drop_last() =~= options@.take(i as int));
        let turret = match options[i].weapon {
            Some(w) => content.slot(w) == Some(Slot::Turret),
            None => false,
        };
        if turret {
            kept.push(options[i]);
        }
        i = i + 1;
    }
    assert(options@.take(i as int) =~= options@);
    kept
}

/// The nearest of the options.
pub fn find_nearest_option(options: &Vec<AttackOption>) -> (best: Option<AttackOption>)
    ensures
        best == nearest_option(options@),
{
    let mut best: Option<AttackOption> = None;
    let mut i: usize = 0;
    while i < options.len()
        invariant
            i <= options.len(),
            best == nearest_option(options@.take(i as int)),
        decreases options.len() - i,
    {
        assert(options@.take(i + 1).drop_last() =~= options@.take(i as int));
        match best {
            None => {
                best = Some(options[i]);
            },
            Some(b) => {
                if options[i].dist < b.dist {
                    best = Some(options[i]);
                }
            },
        }
        i = i + 1;
    }
    assert(options@.take(i as int) =~= options@);
    best
}

/// The option against the target, else the nearest.
pub fn prefer(options: &Vec<AttackOption>, target: Option<ShipId>) -> (best: Option<AttackOption>)
    ensures
        best == preferred(options@, target),
{
    match find_on(options, target) {
        Some(o) => Some(o),
        None => find_nearest_option(options),
    }
}

/// The first of the options against the target.
fn find_on(options: &Vec<AttackOption>, target: Option<ShipId>) -> (found: Option<AttackOption>)
    ensures
        found == option_on(options@, target),
{
    let mut i: usize = 0;
    assert(options@.skip(0) =~= options@);
    while i < options.len()
        invariant
            i <= options.len(),
            option_on(options@, target) == option_on(options@.skip(i as int), target),
        decreases options.len() - i,
    {
        assert(options@.skip(i as int).skip(1) =~= options@.skip(i + 1));
        if Some(options[i].target) == target {
            return Some(options[i]);
        }
        i = i + 1;
    }
    None
}

impl GameState {
    fn is_disarmed(&self, a: usize) -> (yes: bool)
        requires
            a < self@.ships.len(),
        ensures
            yes == self@.disarmed(a as int),
    {
        if self.ships[a].on_asteroid || self.ships[a].pose.is_none() {
            return true;
        }
        let crits = &self.ships[a].crits;
        let mut k: usize = 0;
        while k < crits.len()
            invariant
                k <= crits.len(),
                forall|j: int| 0 <= j < k ==> !failed(#[trigger] crits@[j]),
            decreases crits.len() - k,
        {
            if let CritEffect::WeaponsFailure { rounds: _ } = crits[k] {
                assert(failed(self@.ships[a as int].crits[k as int]));
                return true;
            }
            k = k + 1;
        }
        assert forall|j: int| 0 <= j < self@.ships[a as int].crits.len() implies !failed(
            #[trigger] self@.ships[a as int].crits[j],
        ) by {
            assert(!failed(crits@[j]));
        }
        false
    }

    fn gun_of(&self, content: &Content, a: usize, card: UpgradeId) -> (gun: Option<Gun>)
        requires
            a < self@.ships.len(),
        ensures
            gun == self@.gun(*content, a as int, card),
    {
        let u = match content.upgrades.upgrade(card) {
            None => return None,
            Some(u) => u,
        };
        let sw = match u.attack {
            None => return None,
            Some(sw) => sw,
        };
        if !slot_fires(u.slot) {
            return None;
        }
        let rhymer = self.has_ability(content, a, PilotAbility::SecondaryRangePlusMinus1);
        // BTL-A4 Y-Wing: turret cards need the arc too.
        let arc_only = self.has_effect(content, a, UpgradeEffect::TitleArcOnlyThenTurretAttack);
        Some(
            Gun {
                card: Some(card),
                min: if !rhymer {
                    sw.range_min
                } else if sw.range_min <= 2 {
                    1
                } else {
                    sw.range_min - 1
                },
                max: if !rhymer {
                    sw.range_max
                } else if sw.range_max >= 2 {
                    3
                } else {
                    sw.range_max + 1
                },
                needs_arc: u.slot != Slot::Turret || arc_only,
                requires: sw.requires,
            },
        )
    }

    fn list_guns(&self, content: &Content, a: usize) -> (guns: Vec<Gun>)
        requires
            a < self@.ships.len(),
            self@.known(*content),
        ensures
            guns@ == self@.guns(*content, a as int),
    {
        reveal(Game::guns);
        assert(self@.frame().ships[a as int] == self@.ships[a as int].identity());
        let class = self.class_of(content, &self.ships[a]);
        let mut guns: Vec<Gun> = Vec::new();
        // A token "ship" without a primary weapon (the senator's shuttle).
        if class.attack_dice > 0 {
            guns.push(
                Gun {
                    card: None,
                    min: 1,
                    max: 3,
                    needs_arc: !class.turret_primary,
                    requires: AttackRequirement::Free,
                },
            );
        }
        let ghost primary = guns@;
        let cards = self.heed(content, &self.ships[a], &self.ships[a].upgrades);
        let mut i: usize = 0;
        while i < cards.len()
            invariant
                i <= cards.len(),
                guns@ == self@.guns_on(*content, a as int, cards@.take(i as int), primary),
            decreases cards.len() - i,
        {
            assert(cards@.take(i + 1).drop_last() =~= cards@.take(i as int));
            if let Some(gun) = self.gun_of(content, a, cards[i]) {
                guns.push(gun);
            }
            i = i + 1;
        }
        assert(cards@.take(i as int) =~= cards@);
        guns
    }

    fn is_held(
        &self,
        content: &Content,
        sight: &Sight,
        a: usize,
        t: usize,
        what: AttackRequirement,
    ) -> (yes: bool)
        requires
            a < self@.ships.len(),
            t < self@.ships.len(),
        ensures
            yes == self@.holds(*content, *sight, a as int, t as int, what),
    {
        match what {
            AttackRequirement::Free => true,
            AttackRequirement::TargetLock => {
                self.ships[a].locks_on(self.ships[t].id) || (self.ships[a].focus > 0
                    && self.has_effect(content, a, UpgradeEffect::LockBecomesFocus))
                    || self.synced_lock(content, sight, a, self.ships[t].id)
            },
            AttackRequirement::Focus => self.ships[a].focus > 0,
        }
    }

    fn is_visible(&self, content: &Content, sight: &Sight, a: usize, t: usize) -> (yes: bool)
        requires
            a < self@.ships.len(),
            t < self@.ships.len(),
        ensures
            yes == self@.visible(*content, *sight, a as int, t as int),
    {
        let line = sight.line(a, t);
        !self.allied(self.ships[t].owner, self.ships[a].owner) && !self.ships[t].destroyed
            && self.ships[t].pose.is_some() && (line.dist > 0 || (self.has_ability(
            content,
            a,
            PilotAbility::TargetTouchingShipInArc,
        ) && line.in_arc)) && line.band.is_some()
    }

    fn is_shielded(
        &self,
        content: &Content,
        sight: &Sight,
        all: &Vec<AttackOption>,
        o: AttackOption,
    ) -> (yes: bool)
        ensures
            yes == self@.shielded(*content, *sight, all@, o),
    {
        let test = |k: usize| -> (yes: bool)
            requires
                k < all@.len(),
            ensures
                yes == obeys(self@.biggs_rule(*content, *sight, all@, o), k),
        {
            match (self.find_ship(all[k].target), self.find_ship(o.target)) {
                (Some(b), Some(t)) => self.has_ability(
                    content,
                    b,
                    PilotAbility::ProtectFriendsAtRange1,
                ) && all[k].weapon == o.weapon && b != t && self.allied(
                    self.ships[b].owner,
                    self.ships[t].owner,
                ) && self.range_between(sight, b, t) == Some(1),
                _ => false,
            }
        };
        find(all.len(), test, Ghost(self@.biggs_rule(*content, *sight, all@, o))).is_some()
    }

    /// Every (weapon, enemy) combination that ship `a` may fire.
    pub fn attack_options(&self, content: &Content, sight: &Sight, a: usize) -> (options: Vec<
        AttackOption,
    >)
        requires
            a < self@.ships.len(),
            self@.known(*content),
        ensures
            options@ == self@.options(*content, *sight, a as int),
    {
        reveal(Game::options);
        let mut options: Vec<AttackOption> = Vec::new();
        if self.is_disarmed(a) {
            assert(options@ =~= Seq::empty());
            return options;
        }
        let guns = self.list_guns(content, a);
        let ghost goal = self@.options_from(*content, *sight, a as int, guns@, 0);
        let mut t: usize = 0;
        assert(options@ + goal =~= goal);
        while t < self.ships.len()
            invariant
                t <= self.ships.len(),
                options@ + self@.options_from(*content, *sight, a as int, guns@, t as int) == goal,
            decreases self.ships.len() - t,
        {
            if self.is_visible(content, sight, a, t) {
                let line = sight.line(a, t);
                let ghost before = options@;
                let ghost here = self@.options_at(*content, *sight, a as int, t as int, guns@, 0);
                let mut w: usize = 0;
                assert(options@ + here =~= before + here);
                while w < guns.len()
                    invariant
                        w <= guns.len(),
                        options@ + self@.options_at(
                            *content,
                            *sight,
                            a as int,
                            t as int,
                            guns@,
                            w as int,
                        ) == before + here,
                    decreases guns.len() - w,
                {
                    let gun = guns[w];
                    let ghost now = options@;
                    if let Some(band) = line.band {
                        if gun.min <= band && band <= gun.max && (!gun.needs_arc || line.in_arc)
                            && self.is_held(content, sight, a, t, gun.requires) {
                            options.push(
                                AttackOption {
                                    weapon: gun.card,
                                    target: self.ships[t].id,
                                    range: band,
                                    dist: line.dist,
                                    obstructed: line.obstructed,
                                },
                            );
                        }
                    }
                    w = w + 1;
                    assert(options@ + self@.options_at(
                        *content,
                        *sight,
                        a as int,
                        t as int,
                        guns@,
                        w as int,
                    ) =~= now + self@.options_at(
                        *content,
                        *sight,
                        a as int,
                        t as int,
                        guns@,
                        w - 1,
                    ));
                }
                assert(options@ =~= before + here);
                assert(options@ + self@.options_from(*content, *sight, a as int, guns@, t + 1)
                    =~= before + self@.options_from(
                    *content,
                    *sight,
                    a as int,
                    guns@,
                    t as int,
                ));
            }
            t = t + 1;
        }
        assert(options@ =~= goal);
        let mut kept: Vec<AttackOption> = Vec::new();
        let mut i: usize = 0;
        assert(kept@ =~= self@.unshielded(*content, *sight, goal, goal.take(0)));
        while i < options.len()
            invariant
                i <= options.len(),
                kept@ == self@.unshielded(*content, *sight, goal, goal.take(i as int)),
            decreases options.len() - i,
        {
            assert(goal.take(i + 1).drop_last() =~= goal.take(i as int));
            let o = options[i];
            if !self.is_shielded(content, sight, &options, o) {
                kept.push(o);
            }
            i = i + 1;
        }
        assert(goal.take(i as int) =~= goal);
        kept
    }

    /// Automatic choice: the primary weapon when it has any target
    /// (never spends ordnance unasked), at the locked ship if eligible,
    /// else the nearest. Returns (target, weapon).
    pub fn auto_target(&self, p: &PendingAttack) -> (choice: Option<(ShipId, Option<UpgradeId>)>)
        ensures
            choice == (match automatic(p@.options, self@.locked_by(p@.attacker)) {
                Some(o) => Some((o.target, o.weapon)),
                None => None,
            }),
    {
        let locks = match self.find_ship(p.attacker) {
            Some(k) => (self.ships[k].lock, self.ships[k].lock2),
            None => (None, None),
        };
        let primary = keep_primaries(&p.options);
        let pick = if primary.len() == 0 {
            find_nearest_option(&p.options)
        } else {
            match find_on(&primary, locks.0) {
                Some(o) => Some(o),
                None => prefer(&primary, locks.1),
            }
        };
        match pick {
            Some(o) => Some((o.target, o.weapon)),
            None => None,
        }
    }
}

} // verus!
