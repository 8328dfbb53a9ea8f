//! What lasts through the Activation phase and the End phase.

use vstd::prelude::*;

use crate::action::{ActionResult, PlannedAction, SecondActionKind};
use crate::bombs::{BombHit, BombKind, BombToken, DetonationModel, DropSpots};
use crate::crit::drawn;
use crate::data::Content;
use crate::dice::{attack_face, AttackFace};
use crate::event::Event;
use crate::game::actions::Moves;
use crate::game::activation::{Facts, Progress};
use crate::game::blasts::{find_obstacle, without_obstacle, Salvo};
use crate::game::closing::Drag;
use crate::game::conduct::{Acted, Stance};
use crate::game::dial::{Course, Ends};
use crate::game::flight::{Crossing, Flight, Readied};
use crate::game::lasting::{an_attack_lasts, dropping_lasts, moving_lasts, performing_lasts};
use crate::game::missions::seat_from;
use crate::game::state::{Game, Play};
use crate::game::tokens::{point, DamagePoint};
use crate::geometry::Pose;
use crate::maneuver::Difficulty;
use crate::mission::{MissionModel, Satellite};
use crate::obstacle::{Obstacle, ObstacleKind};
use crate::pick::{first_is_first, picked};
use crate::pilot::{Pilot, PilotAbility};
use crate::ship::{sat, PlayerId, ShipClass, ShipId, ShipModel};
use crate::sight::Sight;
use crate::upgrade::{UpgradeEffect, UpgradeId};

verus! {

broadcast proof fn unstressing_lasts(g: Game, content: Content, i: int)
    requires
        g.fits(),
        0 <= i < g.ships.len(),
    ensures
        g.lasts(#[trigger] g.unstressed(content, i)),
{
    broadcast use crate::game::lasting::steady;
}

broadcast proof fn dares_hits_last(p: Play, i: int, n: int)
    requires
        p.game.fits(),
        0 <= i < p.game.ships.len(),
    ensures
        p.game.lasts((#[trigger] p.hits_suffered(i, n)).game),
    decreases n,
{
    broadcast use {crate::game::lasting::steady, crate::game::lasting::tokens_last};

    if n > 0 {
        let q = p.at(p.game.damaged(i));
        assert(p.game.lasts(q.game));
        dares_hits_last(q, i, n - 1);
        dares_hits_last(p, i, n - 1);
    }
}

broadcast proof fn dares_crits_last(p: Play, content: Content, i: int, n: int)
    requires
        p.game.fits(),
        0 <= i < p.game.ships.len(),
    ensures
        p.game.lasts((#[trigger] p.crits_suffered(content, i, n)).game),
    decreases n,
{
    broadcast use {crate::game::lasting::steady, crate::game::lasting::tokens_last};

    if n > 0 && !p.game.ships[i].destroyed {
        let q = p.at(p.game.damaged(i));
        let r = if point(p.game.ships[i]) == DamagePoint::Hull && !q.game.ships[i].destroyed {
            q.rolled().crit(content, i, drawn(q.shows())).0
        } else {
            q
        };
        assert(p.game.lasts(r.game));
        dares_crits_last(r, content, i, n - 1);
    }
}

broadcast proof fn daring_lasts(p: Play, content: Content, i: int)
    requires
        p.game.fits(),
        0 <= i < p.game.ships.len(),
    ensures
        p.game.lasts((#[trigger] p.daredevil(content, i)).game),
{
    broadcast use {
        crate::game::lasting::steady,
        crate::game::lasting::tokens_last,
        dares_hits_last,
        dares_crits_last,
    };
}

broadcast proof fn faceup_lasts(p: Play, content: Content, i: int)
    requires
        p.game.fits(),
        0 <= i < p.game.ships.len(),
    ensures
        p.game.lasts((#[trigger] p.faceup(content, i)).game),
{
    broadcast use {crate::game::lasting::steady, crate::game::lasting::tokens_last};
}

broadcast proof fn mine_dice_last(p: Play, content: Content, i: int, n: int, hit: BombHit)
    requires
        p.game.fits(),
        0 <= i < p.game.ships.len(),
    ensures
        p.game.lasts((#[trigger] p.mined(content, i, n, hit)).0.game),
    decreases n,
{
    broadcast use {crate::game::lasting::steady, crate::game::lasting::tokens_last};

    if n > 0 && !p.game.ships[i].destroyed {
        let q = p.rolled();
        let r = q.at(q.game.damaged(i));
        let hurt = BombHit { damage: sat(hit.damage + 1), ..hit };
        assert(p.game.lasts(r.game));
        match attack_face(p.shows()) {
            AttackFace::Hit => mine_dice_last(r, content, i, n - 1, hurt),
            AttackFace::Crit => {
                let s = r.critical(content, i);
                let crit = BombHit { crits: sat(hit.crits + 1), ..hurt };
                assert(p.game.lasts(s.game));
                mine_dice_last(s, content, i, n - 1, crit);
                mine_dice_last(r, content, i, n - 1, crit);
                mine_dice_last(r, content, i, n - 1, hurt);
            },
            _ => mine_dice_last(q, content, i, n - 1, hit),
        }
    }
}

broadcast proof fn striking_lasts(p: Play, content: Content, sight: Sight, i: int, kind: BombKind)
    requires
        p.game.fits(),
        0 <= i < p.game.ships.len(),
    ensures
        p.game.lasts((#[trigger] p.struck(content, sight, i, kind)).0.game),
{
    broadcast use {crate::game::lasting::steady, crate::game::lasting::tokens_last, faceup_lasts};
}

broadcast proof fn blast_lasts(p: Play, content: Content, sight: Sight, i: int, kind: BombKind)
    requires
        p.game.fits(),
        0 <= i < p.game.ships.len(),
    ensures
        p.game.lasts((#[trigger] p.blasted(content, sight, i, kind)).0.game),
{
    broadcast use {
        crate::game::lasting::steady,
        crate::game::lasting::tokens_last,
        mine_dice_last,
        striking_lasts,
    };
}

broadcast proof fn blasting_lasts(
    p: Play,
    content: Content,
    sight: Sight,
    kind: BombKind,
    victims: Seq<usize>,
    k: int,
    hits: Seq<BombHit>,
)
    requires
        p.game.fits(),
        p.game.holds_all(victims),
        0 <= k,
    ensures
        p.game.lasts((#[trigger] p.blasting(content, sight, kind, victims, k, hits)).0.game),
    decreases victims.len() - k,
{
    broadcast use {crate::game::lasting::steady, blast_lasts};

    if k < victims.len() {
        assert(victims[k] < p.game.ships.len());
        let (q, hit) = p.blasted(content, sight, victims[k] as int, kind);
        assert(p.game.lasts(q.game));
        blasting_lasts(q, content, sight, kind, victims, k + 1, hits.push(hit));
    }
}

broadcast proof fn detonation_lasts(
    p: Play,
    content: Content,
    sight: Sight,
    kind: BombKind,
    victims: Seq<usize>,
)
    requires
        p.game.fits(),
        p.game.holds_all(victims),
    ensures
        p.game.lasts((#[trigger] p.detonated(content, sight, kind, victims)).0.game),
{
    broadcast use {crate::game::lasting::steady, blasting_lasts};

    reveal(Play::detonated);
}

broadcast proof fn torpedo_lasts(p: Play, content: Content, i: int, card: UpgradeId, at: Obstacle)
    requires
        p.game.fits(),
        0 <= i < p.game.ships.len(),
    ensures
        p.game.lasts((#[trigger] p.torpedo_away(content, i, card, at)).game),
{
    broadcast use {crate::game::lasting::steady, crate::game::lasting::tokens_last};
}

broadcast proof fn seismic_lasts(
    p: Play,
    content: Content,
    sight: Sight,
    salvo: Salvo,
    i: int,
    card: UpgradeId,
    obstacle: u32,
)
    requires
        p.game.fits(),
        0 <= i < p.game.ships.len(),
    ensures
        p.game.lasts((#[trigger] p.seismic(content, sight, salvo, i, card, obstacle)).0.game),
{
    broadcast use {crate::game::lasting::steady, torpedo_lasts, detonation_lasts};

    if let Some(at) = find_obstacle(p.game.obstacles, obstacle) {
        let q = p.torpedo_away(content, i, card, at);
        let r = q.detonated(
            content,
            sight,
            BombKind::SeismicTorpedo,
            q.game.victims(salvo.within@),
        ).0.game;
        let g = Game { obstacles: without_obstacle(r.obstacles, obstacle), ..r };
        assert(p.game.lasts(q.game));
        assert(q.game.lasts(r));
        assert(r.lasts(g)) by {
            reveal(Game::lasts);
        }
    }
}

broadcast proof fn lando_lasts(p: Play, i: int)
    requires
        p.game.fits(),
        0 <= i < p.game.ships.len(),
    ensures
        p.game.lasts((#[trigger] p.lando(i)).game),
{
    broadcast use crate::game::lasting::steady;
}

broadcast proof fn sabotage_lasts(p: Play, content: Content, sight: Sight, i: int)
    requires
        p.game.fits(),
        0 <= i < p.game.ships.len(),
    ensures
        p.game.lasts((#[trigger] p.sabotage(content, sight, i)).0.game),
{
    broadcast use {crate::game::lasting::steady, crate::game::lasting::tokens_last};
}

broadcast proof fn repairing_lasts(p: Play, content: Content, i: int)
    requires
        p.game.fits(),
        0 <= i < p.game.ships.len(),
    ensures
        p.game.lasts((#[trigger] p.repair(content, i)).0.game),
{
    broadcast use crate::game::lasting::steady;
}

broadcast proof fn dice_action_lasts(
    p: Play,
    content: Content,
    sight: Sight,
    i: int,
    card: UpgradeId,
)
    requires
        p.game.fits(),
        0 <= i < p.game.ships.len(),
    ensures
        p.game.lasts((#[trigger] p.dice_action(content, sight, i, card)).0.game),
{
    broadcast use {crate::game::lasting::steady, lando_lasts, sabotage_lasts, repairing_lasts};
}

broadcast group blasts_last {
    unstressing_lasts,
    dares_hits_last,
    dares_crits_last,
    daring_lasts,
    faceup_lasts,
    mine_dice_last,
    striking_lasts,
    blast_lasts,
    blasting_lasts,
    detonation_lasts,
    torpedo_lasts,
    seismic_lasts,
    lando_lasts,
    sabotage_lasts,
    repairing_lasts,
    dice_action_lasts,
}

broadcast proof fn drifting_lasts(g: Game, content: Content, i: int)
    requires
        g.fits(),
        0 <= i < g.ships.len(),
    ensures
        g.lasts((#[trigger] g.drifting(content, i)).0),
{
    broadcast use crate::game::lasting::steady;
}

broadcast proof fn bombing_lasts(g: Game, content: Content, i: int, spots: DropSpots)
    requires
        g.fits(),
        0 <= i < g.ships.len(),
    ensures
        g.lasts((#[trigger] g.bombing(content, i, spots)).0),
{
    broadcast use {crate::game::lasting::steady, dropping_lasts};

    reveal(Game::bombing);
}

broadcast proof fn reveal_lasts(g: Game, content: Content, i: int, spots: DropSpots)
    requires
        g.fits(),
        0 <= i < g.ships.len(),
    ensures
        g.lasts((#[trigger] g.revealed(content, i, spots)).0),
{
    broadcast use {crate::game::lasting::steady, drifting_lasts, bombing_lasts};

    reveal(Game::revealed);
}

broadcast proof fn rotation_lasts(g: Game, content: Content, i: int, ends: Ends, c: Course)
    requires
        g.fits(),
    ensures
        g.lasts((#[trigger] g.rotated(content, i, ends, c)).0),
{
    broadcast use crate::game::lasting::steady;

    reveal(Game::rotated);
}

broadcast proof fn acting_first_lasts(
    g: Game,
    content: Content,
    sight: Sight,
    moves: Moves,
    i: int,
    second: Option<SecondActionKind>,
    planned2: Option<PlannedAction>,
    color: Difficulty,
)
    requires
        g.fits(),
        0 <= i < g.ships.len(),
    ensures
        g.lasts((#[trigger] g.acted_first(content, sight, moves, i, second, planned2, color)).0),
{
    broadcast use {crate::game::lasting::steady, performing_lasts};

    reveal(Game::acted_first);
}

broadcast proof fn readying_lasts(
    g: Game,
    content: Content,
    sight: Sight,
    moves: Moves,
    i: int,
    color: Difficulty,
)
    requires
        g.fits(),
        0 <= i < g.ships.len(),
    ensures
        g.lasts((#[trigger] g.readied(content, sight, moves, i, color)).0),
{
    broadcast use {crate::game::lasting::steady, acting_first_lasts};

    reveal(Game::readied);
}

broadcast proof fn flight_lasts(g: Game, i: int, flight: Flight)
    requires
        g.fits(),
        0 <= i < g.ships.len(),
    ensures
        g.lasts(#[trigger] g.flown(i, flight)),
{
    broadcast use crate::game::lasting::steady;

    reveal(Game::flown);
}

broadcast proof fn rocking_lasts(p: Play, content: Content, i: int, die: AttackFace, under: bool)
    requires
        p.game.fits(),
        0 <= i < p.game.ships.len(),
    ensures
        p.game.lasts((#[trigger] p.rocked(content, i, die, under)).game),
{
    broadcast use {crate::game::lasting::steady, crate::game::lasting::tokens_last, blasts_last};

    reveal(Play::rocked);
}

broadcast proof fn littering_lasts(p: Play, content: Content, sight: Sight, i: int, die: AttackFace)
    requires
        p.game.fits(),
        0 <= i < p.game.ships.len(),
    ensures
        p.game.lasts((#[trigger] p.littered(content, sight, i, die)).game),
{
    broadcast use {crate::game::lasting::steady, crate::game::lasting::tokens_last, blasts_last};

    reveal(Play::littered);
}

broadcast proof fn swallowing_lasts(p: Play, i: int)
    requires
        p.game.fits(),
        0 <= i < p.game.ships.len(),
    ensures
        p.game.lasts((#[trigger] p.swallowed(i)).game),
{
    broadcast use crate::game::lasting::steady;
}

broadcast proof fn collision_lasts(
    p: Play,
    content: Content,
    sight: Sight,
    i: int,
    hit: (Obstacle, bool),
    detector: bool,
)
    requires
        p.game.fits(),
        0 <= i < p.game.ships.len(),
    ensures
        p.game.lasts((#[trigger] p.collided(content, sight, i, hit, detector)).game),
{
    broadcast use {crate::game::lasting::steady, rocking_lasts, littering_lasts, swallowing_lasts};
}

broadcast proof fn colliding_lasts(
    p: Play,
    content: Content,
    sight: Sight,
    i: int,
    crossed: Seq<(Obstacle, bool)>,
    detector: bool,
    k: int,
    hit: Seq<u32>,
    rock: bool,
)
    requires
        p.game.fits(),
        0 <= i < p.game.ships.len(),
        0 <= k,
    ensures
        p.game.lasts(
            (#[trigger] p.colliding(content, sight, i, crossed, detector, k, hit, rock)).0.game,
        ),
    decreases crossed.len() - k,
{
    broadcast use {crate::game::lasting::steady, collision_lasts};

    if k < crossed.len() && !p.game.ships[i].destroyed {
        let q = p.collided(content, sight, i, crossed[k], detector);
        assert(p.game.lasts(q.game));
        colliding_lasts(
            q,
            content,
            sight,
            i,
            crossed,
            detector,
            k + 1,
            hit.push(crossed[k].0.id),
            rock || crossed[k].0.kind == ObstacleKind::Asteroid,
        );
    }
}

broadcast proof fn crossing_lasts(
    p: Play,
    content: Content,
    sight: Sight,
    i: int,
    crossing: Crossing,
)
    requires
        p.game.fits(),
        0 <= i < p.game.ships.len(),
    ensures
        p.game.lasts((#[trigger] p.crossing(content, sight, i, crossing)).0.game),
{
    broadcast use {
        crate::game::lasting::steady,
        crate::game::lasting::tokens_last,
        colliding_lasts,
    };

    reveal(Play::crossing);
}

broadcast group flying_lasts {
    drifting_lasts,
    bombing_lasts,
    reveal_lasts,
    rotation_lasts,
    acting_first_lasts,
    readying_lasts,
    flight_lasts,
    rocking_lasts,
    littering_lasts,
    swallowing_lasts,
    collision_lasts,
    colliding_lasts,
    crossing_lasts,
}

broadcast proof fn red_lasts(g: Game, content: Content, sight: Sight, i: int)
    requires
        g.fits(),
        0 <= i < g.ships.len(),
    ensures
        g.lasts(#[trigger] g.flown_red(content, sight, i)),
{
    broadcast use {crate::game::lasting::steady, crate::game::lasting::tokens_last};
}

broadcast proof fn systems_last(g: Game, content: Content, sight: Sight, i: int)
    requires
        g.fits(),
        0 <= i < g.ships.len(),
    ensures
        g.lasts(#[trigger] g.systems(content, sight, i)),
{
    broadcast use {crate::game::lasting::steady, crate::game::lasting::tokens_last};

    reveal(Game::systems);
    let friends = g.near(sight, i, 1);
    assert(g.holds_all(friends));
    first_is_first(g.locker_rule(content, sight, friends), 0, friends.len() as int);
}

broadcast proof fn lando_helping_lasts(g: Game, content: Content, sight: Sight, i: int)
    requires
        g.fits(),
        0 <= i < g.ships.len(),
    ensures
        g.lasts(#[trigger] g.landoed(content, sight, i)),
{
    broadcast use crate::game::lasting::steady;

    reveal(Game::landoed);
    let friends = g.near(sight, i, 1);
    assert(g.holds_all(friends));
    first_is_first(g.free_rule(content, friends), 0, friends.len() as int);
}

broadcast proof fn recharging_lasts(g: Game, content: Content, i: int)
    requires
        g.fits(),
        0 <= i < g.ships.len(),
    ensures
        g.lasts(#[trigger] g.recharged(content, i)),
{
    broadcast use crate::game::lasting::steady;

    reveal(Game::recharged);
}

broadcast proof fn night_beast_lasts(g: Game, content: Content, i: int)
    requires
        g.fits(),
        0 <= i < g.ships.len(),
    ensures
        g.lasts(#[trigger] g.night_beast(content, i)),
{
    broadcast use crate::game::lasting::steady;

    reveal(Game::night_beast);
}

broadcast proof fn green_lasts(g: Game, content: Content, sight: Sight, i: int)
    requires
        g.fits(),
        0 <= i < g.ships.len(),
    ensures
        g.lasts(#[trigger] g.flown_green(content, sight, i)),
{
    broadcast use {
        crate::game::lasting::steady,
        unstressing_lasts,
        systems_last,
        lando_helping_lasts,
        recharging_lasts,
        night_beast_lasts,
    };
}

broadcast proof fn rush_lasts(g: Game, content: Content, i: int, course: Course)
    requires
        g.fits(),
        0 <= i < g.ships.len(),
    ensures
        g.lasts(#[trigger] g.rushed(content, i, course)),
{
    broadcast use {crate::game::lasting::steady, crate::game::lasting::tokens_last};
}

broadcast proof fn settlement_lasts(g: Game, content: Content, sight: Sight, i: int, course: Course)
    requires
        g.fits(),
        0 <= i < g.ships.len(),
    ensures
        g.lasts(#[trigger] g.settled(content, sight, i, course)),
{
    broadcast use {crate::game::lasting::steady, red_lasts, green_lasts, rush_lasts};

    reveal(Game::settled);
}

broadcast proof fn clearing_token_lasts(g: Game, id: u32)
    requires
        g.fits(),
    ensures
        g.lasts(#[trigger] g.cleared_of(id)),
{
    reveal(Game::lasts);
}

broadcast proof fn stun_lasts(g: Game, content: Content, i: int, bumped: bool)
    requires
        g.fits(),
        0 <= i < g.ships.len(),
    ensures
        g.lasts(#[trigger] g.stunned(content, i, bumped)),
{
    broadcast use {crate::game::lasting::steady, crate::game::lasting::tokens_last};

    reveal(Game::stunned);
}

broadcast proof fn spin_lasts(
    g: Game,
    content: Content,
    sight: Sight,
    i: int,
    color: Difficulty,
    turned: Pose,
)
    requires
        g.fits(),
        0 <= i < g.ships.len(),
    ensures
        g.lasts(#[trigger] g.spun(content, sight, i, color, turned)),
{
    broadcast use {crate::game::lasting::steady, crate::game::lasting::tokens_last, moving_lasts};

    reveal(Game::spun);
}

broadcast proof fn mines_last(
    p: Play,
    content: Content,
    sight: Sight,
    i: usize,
    mines: Seq<BombToken>,
    k: int,
    done: Seq<DetonationModel>,
    netted: bool,
)
    requires
        p.game.fits(),
        0 <= k,
        i < p.game.ships.len(),
    ensures
        p.game.lasts(
            (#[trigger] p.mines_going_off(content, sight, i, mines, k, done, netted)).0.game,
        ),
    decreases mines.len() - k,
{
    broadcast use {crate::game::lasting::steady, blasts_last, clearing_token_lasts};

    if k < mines.len() {
        let q = p.at(p.game.cleared_of(mines[k].id));
        assert(p.game.lasts(q.game));
        if !q.game.ships[i as int].destroyed {
            assert(q.game.holds_all(seq![i]));
            let (r, hits) = q.detonated(content, sight, mines[k].kind, seq![i]);
            assert(q.game.lasts(r.game));
            mines_last(
                r,
                content,
                sight,
                i,
                mines,
                k + 1,
                done.push(DetonationModel { token: mines[k], hits }),
                netted || mines[k].kind == BombKind::ConnerNet,
            );
        }
    }
}

broadcast proof fn mining_lasts(
    p: Play,
    content: Content,
    sight: Sight,
    i: usize,
    touched: Seq<bool>,
)
    requires
        p.game.fits(),
        i < p.game.ships.len(),
    ensures
        p.game.lasts((#[trigger] p.mined_by(content, sight, i, touched)).0.game),
{
    broadcast use {crate::game::lasting::steady, mines_last};

    reveal(Play::mined_by);
}

broadcast proof fn snap_lasts(
    p: Play,
    content: Content,
    sight: Sight,
    moves: Moves,
    s: usize,
    i: usize,
)
    requires
        p.game.fits(),
        i < p.game.ships.len(),
        s < p.game.ships.len(),
    ensures
        p.game.lasts((#[trigger] p.snapped(content, sight, moves, s, i)).0.game),
{
    broadcast use {crate::game::lasting::steady, an_attack_lasts};

    reveal(Play::snapped);
}

broadcast group settling_lasts {
    red_lasts,
    systems_last,
    lando_helping_lasts,
    recharging_lasts,
    night_beast_lasts,
    green_lasts,
    rush_lasts,
    settlement_lasts,
    clearing_token_lasts,
    stun_lasts,
    spin_lasts,
    mines_last,
    mining_lasts,
    snap_lasts,
}

broadcast proof fn free_boost_lasts(
    g: Game,
    content: Content,
    sight: Sight,
    moves: Moves,
    i: int,
    readied: Readied,
    distance: u8,
    bumped: bool,
)
    requires
        g.fits(),
        0 <= i < g.ships.len(),
    ensures
        g.lasts((#[trigger] g.boosted_free(content, sight, moves, i, readied, distance, bumped)).0),
{
    broadcast use {crate::game::lasting::steady, performing_lasts};

    reveal(Game::boosted_free);
}

broadcast proof fn second_action_lasts(
    g: Game,
    content: Content,
    sight: Sight,
    moves: Moves,
    i: int,
    readied: Readied,
    acted: Acted,
)
    requires
        g.fits(),
        0 <= i < g.ships.len(),
    ensures
        g.lasts((#[trigger] g.seconded(content, sight, moves, i, readied, acted)).0),
{
    broadcast use {crate::game::lasting::steady, performing_lasts};

    reveal(Game::seconded);
}

broadcast proof fn tiring_lasts(
    g: Game,
    content: Content,
    sight: Sight,
    i: int,
    second: Option<SecondActionKind>,
)
    requires
        g.fits(),
        0 <= i < g.ships.len(),
    ensures
        g.lasts(#[trigger] g.tired(content, sight, i, second)),
{
    broadcast use {crate::game::lasting::steady, crate::game::lasting::tokens_last};

    reveal(Game::tired);
}

broadcast proof fn attempt_lasts(
    p: Play,
    content: Content,
    sight: Sight,
    moves: Moves,
    salvo: Salvo,
    i: int,
    planned: PlannedAction,
)
    requires
        p.game.fits(),
        0 <= i < p.game.ships.len(),
    ensures
        p.game.lasts((#[trigger] p.attempted(content, sight, moves, salvo, i, planned)).0.game),
{
    broadcast use {crate::game::lasting::steady, blasts_last, performing_lasts};

    reveal(Play::attempted);
}

broadcast proof fn dare_lasts(
    p: Play,
    content: Content,
    i: int,
    readied: Readied,
    planned: PlannedAction,
    r: ActionResult,
)
    requires
        p.game.fits(),
        0 <= i < p.game.ships.len(),
    ensures
        p.game.lasts((#[trigger] p.dared(content, i, readied, planned, r)).game),
{
    broadcast use {crate::game::lasting::steady, blasts_last};
}

broadcast proof fn action_lasts(
    p: Play,
    content: Content,
    sight: Sight,
    moves: Moves,
    salvo: Salvo,
    i: int,
    readied: Readied,
    stance: Stance,
)
    requires
        p.game.fits(),
        0 <= i < p.game.ships.len(),
    ensures
        p.game.lasts((#[trigger] p.acted(content, sight, moves, salvo, i, readied, stance)).0.game),
{
    broadcast use {crate::game::lasting::steady, attempt_lasts, dare_lasts};

    reveal(Play::acted);
}

broadcast proof fn pull_lasts(g: Game, i: int, hole: u32, steps: Seq<Drag>)
    requires
        g.fits(),
        0 <= i < g.ships.len(),
    ensures
        g.lasts((#[trigger] g.pulled(i, hole, steps)).0),
{
    broadcast use crate::game::lasting::steady;

    reveal(Game::pulled);
}

broadcast proof fn exploding_lasts(
    p: Play,
    content: Content,
    sight: Sight,
    armed: Seq<BombToken>,
    within: Seq<Vec<bool>>,
    k: int,
    done: Seq<DetonationModel>,
)
    requires
        p.game.fits(),
        0 <= k,
    ensures
        p.game.lasts((#[trigger] p.exploding(content, sight, armed, within, k, done)).0.game),
    decreases armed.len() - k,
{
    broadcast use {crate::game::lasting::steady, blasts_last, clearing_token_lasts};

    if k < armed.len() {
        let q = p.at(p.game.cleared_of(armed[k].id));
        let near = if k < within.len() {
            within[k]@
        } else {
            Seq::empty()
        };
        let (r, hits) = q.detonated(content, sight, armed[k].kind, q.game.victims(near));
        assert(p.game.lasts(q.game));
        assert(q.game.lasts(r.game));
        exploding_lasts(
            r,
            content,
            sight,
            armed,
            within,
            k + 1,
            done.push(DetonationModel { token: armed[k], hits }),
        );
    }
}

broadcast proof fn explosions_last(p: Play, content: Content, sight: Sight, within: Seq<Vec<bool>>)
    requires
        p.game.fits(),
    ensures
        p.game.lasts((#[trigger] p.exploded(content, sight, within)).0.game),
{
    broadcast use {crate::game::lasting::steady, exploding_lasts};

    reveal(Play::exploded);
}

broadcast proof fn singeing_lasts(p: Play, content: Content, i: int)
    requires
        p.game.fits(),
        0 <= i < p.game.ships.len(),
    ensures
        p.game.lasts((#[trigger] p.singed(content, i)).game),
{
    broadcast use {crate::game::lasting::steady, crate::game::lasting::tokens_last};
}

broadcast proof fn burning_lasts(p: Play, content: Content, n: int)
    requires
        p.game.fits(),
        n <= p.game.ships.len(),
    ensures
        p.game.lasts((#[trigger] p.burned_by(content, n)).game),
    decreases n,
{
    broadcast use {crate::game::lasting::steady, singeing_lasts};

    if n > 0 {
        burning_lasts(p, content, n - 1);
    }
}

broadcast group conduct_lasts {
    free_boost_lasts,
    second_action_lasts,
    tiring_lasts,
    attempt_lasts,
    dare_lasts,
    action_lasts,
    pull_lasts,
    exploding_lasts,
    explosions_last,
    singeing_lasts,
    burning_lasts,
}

/// Whatever a step of the Activation phase does, the game lasts through it:
/// destroyed ships stay destroyed, cards used this round stay used, and the
/// bookkeeping of the round stays as it is.
pub proof fn an_activation_step_lasts(p: Play, content: Content, facts: Facts, a: Progress)
    requires
        p.game.fits(),
        a.wf(p.game.ships.len()),
    ensures
        p.game.lasts(p.stepped_on(content, facts, a).0.game),
{
    broadcast use {crate::game::lasting::steady, flying_lasts, settling_lasts, conduct_lasts};

    reveal(Play::moving_step);
    reveal(Play::acting_step);
    reveal(Play::closing_step);
    if a.moving() {
        assert(a.mover() < p.game.ships.len());
    }
}

broadcast proof fn alozen_lasts(g: Game, content: Content, sight: Sight, i: int)
    requires
        g.fits(),
        0 <= i < g.ships.len(),
    ensures
        g.lasts(#[trigger] g.alozen(content, sight, i)),
{
    broadcast use {crate::game::lasting::steady, crate::game::lasting::tokens_last};

    reveal(Game::alozen);
}

broadcast proof fn jendon_lasts(g: Game, content: Content, sight: Sight, i: int)
    requires
        g.fits(),
        0 <= i < g.ships.len(),
    ensures
        g.lasts(#[trigger] g.jendon(content, sight, i)),
{
    broadcast use crate::game::lasting::steady;

    reveal(Game::jendon);
    let friends = g.near(sight, i, 1);
    assert(g.holds_all(friends));
    first_is_first(g.lockless_rule(content, friends), 0, friends.len() as int);
}

broadcast proof fn rey_lasts(g: Game, content: Content, i: int)
    requires
        g.fits(),
        0 <= i < g.ships.len(),
    ensures
        g.lasts(#[trigger] g.rey_returns(content, i)),
{
    broadcast use crate::game::lasting::steady;

    reveal(Game::rey_returns);
}

broadcast proof fn isard_lasts(g: Game, content: Content, i: int)
    requires
        g.fits(),
        0 <= i < g.ships.len(),
    ensures
        g.lasts(#[trigger] g.isard(content, i)),
{
    broadcast use crate::game::lasting::steady;

    reveal(Game::isard);
}

broadcast proof fn relieving_lasts(g: Game, content: Content, i: int, friends: Seq<usize>, k: int)
    requires
        g.fits(),
        g.holds_all(friends),
        0 <= k,
    ensures
        g.lasts(#[trigger] g.relieving(content, i, friends, k)),
    decreases friends.len() - k,
{
    broadcast use {crate::game::lasting::steady, unstressing_lasts};

    if k < friends.len() {
        let f = friends[k] as int;
        assert(f < g.ships.len());
        let h = g.unstressed(content, f);
        let h = if g.ships[f].stress > 0 {
            h.saying(Event::EpsilonLeader(i as usize, friends[k]))
        } else {
            h
        };
        assert(g.lasts(h));
        relieving_lasts(h, content, i, friends, k + 1);
    }
}

broadcast proof fn relief_lasts(g: Game, content: Content, sight: Sight, i: int)
    requires
        g.fits(),
        0 <= i < g.ships.len(),
    ensures
        g.lasts(#[trigger] g.relieved(content, sight, i)),
{
    broadcast use {crate::game::lasting::steady, unstressing_lasts, relieving_lasts};

    reveal(Game::relieved);
    let friends = g.near(sight, i, 1);
    assert(g.holds_all(friends));
    let h = if g.can(content, i, PilotAbility::RemoveStressFriendlyRange1AtCombatStart) {
        g.relieving(content, i, friends, 0)
    } else {
        g
    };
    assert(g.lasts(h));
    first_is_first(h.tense_rule(friends), 0, friends.len() as int);
}

broadcast group mustering_lasts {
    alozen_lasts,
    jendon_lasts,
    rey_lasts,
    isard_lasts,
    relieving_lasts,
    relief_lasts,
}

broadcast proof fn muster_lasts(g: Game, content: Content, sight: Sight, i: int)
    requires
        g.fits(),
        0 <= i < g.ships.len(),
    ensures
        g.lasts(#[trigger] g.mustered(content, sight, i)),
{
    broadcast use {crate::game::lasting::steady, mustering_lasts};

    reveal(Game::mustered);
}

broadcast proof fn musters_last(g: Game, content: Content, sight: Sight, n: int)
    requires
        g.fits(),
        n <= g.ships.len(),
    ensures
        g.lasts(#[trigger] g.mustered_by(content, sight, n)),
    decreases n,
{
    broadcast use {crate::game::lasting::steady, muster_lasts};

    if n > 0 {
        musters_last(g, content, sight, n - 1);
    }
}

broadcast proof fn swarm_tactics_last(
    g: Game,
    content: Content,
    sight: Sight,
    i: int,
    skills: Seq<u8>,
)
    requires
        g.fits(),
    ensures
        g.lasts((#[trigger] g.swarm_tactics(content, sight, i, skills)).0),
{
    broadcast use crate::game::lasting::steady;

    reveal(Game::swarm_tactics);
}

broadcast proof fn swarms_last(g: Game, content: Content, sight: Sight, skills: Seq<u8>, n: int)
    requires
        g.fits(),
    ensures
        g.lasts((#[trigger] g.swarm_by(content, sight, skills, n)).0),
    decreases n,
{
    broadcast use {crate::game::lasting::steady, swarm_tactics_last};

    if n > 0 {
        swarms_last(g, content, sight, skills, n - 1);
    }
}

broadcast proof fn decoy_lasts(g: Game, content: Content, sight: Sight, i: int, skills: Seq<u8>)
    requires
        g.fits(),
    ensures
        g.lasts((#[trigger] g.decoy(content, sight, i, skills)).0),
{
    broadcast use crate::game::lasting::steady;

    reveal(Game::decoy);
}

broadcast proof fn decoys_last(g: Game, content: Content, sight: Sight, skills: Seq<u8>, n: int)
    requires
        g.fits(),
    ensures
        g.lasts((#[trigger] g.decoy_by(content, sight, skills, n)).0),
    decreases n,
{
    broadcast use {crate::game::lasting::steady, decoy_lasts};

    if n > 0 {
        decoys_last(g, content, sight, skills, n - 1);
    }
}

broadcast group joining_lasts {
    muster_lasts,
    musters_last,
    swarm_tactics_last,
    swarms_last,
    decoy_lasts,
    decoys_last,
}

/// Combat is joined with every ship as it was: none that was destroyed comes
/// back, and no card used this round can be used again.
pub proof fn every_ship_endures_the_start_of_combat(g: Game, content: Content, sight: Sight)
    requires
        g.fits(),
    ensures
        g.ships_endure(g.joined(content, sight)),
{
    broadcast use {crate::game::lasting::steady, joining_lasts};

    reveal(Game::joined);
    let n = g.ships.len() as int;
    let h = g.mustered_by(content, sight, n);
    let (h, skills) = h.swarm_by(content, sight, h.skills(content), n);
    let (h, skills) = h.decoy_by(content, sight, skills, n);
    assert(g.lasts(h));
    reveal(Game::lasts);
}

broadcast proof fn shedding_ion_lasts(g: Game, i: int)
    requires
        g.fits(),
        0 <= i < g.ships.len(),
    ensures
        g.lasts(#[trigger] g.shedding_ion(i)),
    decreases g.ships[i].ion,
{
    broadcast use {crate::game::lasting::steady, crate::game::lasting::tokens_last};

    let s = g.ships[i];
    if s.ion > 0 && (s.shields > 0 || s.hull > 1) {
        let h = g.damaged(i);
        let h = h.with_ship(i, ShipModel { ion: (h.ships[i].ion - 1) as u8, ..h.ships[i] }).saying(
            Event::BaffleIon(i as usize),
        );
        assert(g.lasts(h));
        shedding_ion_lasts(h, i);
    }
}

broadcast proof fn baffling_lasts(g: Game, content: Content, i: int)
    requires
        g.fits(),
        0 <= i,
    ensures
        g.lasts(#[trigger] g.baffled(content, i)),
    decreases g.ships.len() - i,
{
    broadcast use {
        crate::game::lasting::steady,
        crate::game::lasting::tokens_last,
        shedding_ion_lasts,
    };

    if i < g.ships.len() {
        let h = g.shedding_ion(i).shields_watched(content, i, g.ships[i].shields);
        assert(g.lasts(h));
        baffling_lasts(h, content, i + 1);
        baffling_lasts(g, content, i + 1);
    }
}

broadcast proof fn felling_lasts(g: Game, i: int)
    requires
        g.fits(),
        0 <= i,
    ensures
        g.lasts(#[trigger] g.felled(i)),
    decreases g.ships.len() - i,
{
    broadcast use crate::game::lasting::steady;

    if i < g.ships.len() {
        let h = g.with_ship(i, ShipModel { destroyed: true, ..g.ships[i] }).saying(
            Event::FelsWrath(i as usize),
        );
        assert(g.lasts(h));
        felling_lasts(h, i + 1);
        felling_lasts(g, i + 1);
    }
}

broadcast proof fn mara_stressing_lasts(
    g: Game,
    content: Content,
    sight: Sight,
    i: int,
    places: Seq<usize>,
    k: int,
)
    requires
        g.fits(),
        g.holds_all(places),
        0 <= k,
    ensures
        g.lasts(#[trigger] g.mara_stressing(content, sight, i, places, k)),
    decreases places.len() - k,
{
    broadcast use {crate::game::lasting::steady, crate::game::lasting::tokens_last};

    if k < places.len() {
        assert(places[k] < g.ships.len());
        let h = g.saying(Event::MaraJade(i as usize, places[k])).stressed(
            content,
            sight,
            places[k] as int,
        );
        assert(g.lasts(h));
        mara_stressing_lasts(h, content, sight, i, places, k + 1);
    }
}

broadcast proof fn mara_lasts(g: Game, content: Content, sight: Sight, i: int)
    requires
        g.fits(),
    ensures
        g.lasts(#[trigger] g.mara(content, sight, i)),
{
    broadcast use {crate::game::lasting::steady, mara_stressing_lasts};

    reveal(Game::mara);
}

broadcast proof fn r5p9_lasts(g: Game, content: Content, sight: Sight, i: int)
    requires
        g.fits(),
        0 <= i < g.ships.len(),
    ensures
        g.lasts(#[trigger] g.r5p9(content, sight, i)),
{
    broadcast use {crate::game::lasting::steady, crate::game::lasting::tokens_last};

    reveal(Game::r5p9);
}

broadcast proof fn r5_lasts(g: Game, content: Content, i: int)
    requires
        g.fits(),
        0 <= i < g.ships.len(),
    ensures
        g.lasts(#[trigger] g.r5(content, i)),
{
    broadcast use crate::game::lasting::steady;

    reveal(Game::r5);
}

broadcast proof fn colzet_lasts(p: Play, content: Content, i: int)
    requires
        p.game.fits(),
        0 <= i < p.game.ships.len(),
    ensures
        p.game.lasts((#[trigger] p.colzet(content, i)).game),
{
    broadcast use {crate::game::lasting::steady, crate::game::lasting::tokens_last};

    reveal(Play::colzet);
}

broadcast proof fn r2d2_lasts(p: Play, content: Content, i: int)
    requires
        p.game.fits(),
        0 <= i < p.game.ships.len(),
    ensures
        p.game.lasts((#[trigger] p.r2d2(content, i)).game),
{
    broadcast use {crate::game::lasting::steady, crate::game::lasting::tokens_last};

    reveal(Play::r2d2);
}

broadcast proof fn maras_last(g: Game, content: Content, sight: Sight, n: int)
    requires
        g.fits(),
        n <= g.ships.len(),
    ensures
        g.lasts(#[trigger] g.mara_by(content, sight, n)),
    decreases n,
{
    broadcast use {crate::game::lasting::steady, mara_lasts};

    if n > 0 {
        maras_last(g, content, sight, n - 1);
    }
}

broadcast proof fn r5p9s_last(g: Game, content: Content, sight: Sight, n: int)
    requires
        g.fits(),
        n <= g.ships.len(),
    ensures
        g.lasts(#[trigger] g.r5p9_by(content, sight, n)),
    decreases n,
{
    broadcast use {crate::game::lasting::steady, r5p9_lasts};

    if n > 0 {
        r5p9s_last(g, content, sight, n - 1);
    }
}

broadcast proof fn r5s_last(g: Game, content: Content, n: int)
    requires
        g.fits(),
        n <= g.ships.len(),
    ensures
        g.lasts(#[trigger] g.r5_by(content, n)),
    decreases n,
{
    broadcast use {crate::game::lasting::steady, r5_lasts};

    if n > 0 {
        r5s_last(g, content, n - 1);
    }
}

broadcast proof fn colzets_last(p: Play, content: Content, n: int)
    requires
        p.game.fits(),
        n <= p.game.ships.len(),
    ensures
        p.game.lasts((#[trigger] p.colzet_by(content, n)).game),
    decreases n,
{
    broadcast use {crate::game::lasting::steady, colzet_lasts};

    if n > 0 {
        colzets_last(p, content, n - 1);
    }
}

broadcast proof fn r2d2s_last(p: Play, content: Content, n: int)
    requires
        p.game.fits(),
        n <= p.game.ships.len(),
    ensures
        p.game.lasts((#[trigger] p.r2d2_by(content, n)).game),
    decreases n,
{
    broadcast use {crate::game::lasting::steady, r2d2_lasts};

    if n > 0 {
        r2d2s_last(p, content, n - 1);
    }
}

broadcast group ending_lasts {
    shedding_ion_lasts,
    baffling_lasts,
    felling_lasts,
    mara_stressing_lasts,
    mara_lasts,
    r5p9_lasts,
    r5_lasts,
    colzet_lasts,
    r2d2_lasts,
    maras_last,
    r5p9s_last,
    r5s_last,
    colzets_last,
    r2d2s_last,
}

impl ShipModel {
    /// The same ship in a later round: destroyed once it was destroyed, and
    /// sound if it was sound.
    pub open spec fn remains(self, later: ShipModel) -> bool {
        &&& later.identity() == self.identity()
        &&& later.callsign == self.callsign
        &&& self.destroyed ==> later.destroyed
        &&& self.sound() ==> later.sound()
    }
}

impl Game {
    /// The same game in a later round: every ship remains, though others may
    /// have joined.
    pub open spec fn ships_remain(self, later: Game) -> bool {
        &&& self.ships.len() <= later.ships.len()
        &&& forall|k: int|
            0 <= k < self.ships.len() ==> (#[trigger] self.ships[k]).remains(later.ships[k])
    }
}

proof fn lasting_remains(a: Game, b: Game)
    requires
        a.lasts(b),
    ensures
        a.ships_remain(b),
{
    reveal(Game::lasts);
}

proof fn remaining_remains(a: Game, b: Game, c: Game)
    requires
        a.ships_remain(b),
        b.ships_remain(c),
    ensures
        a.ships_remain(c),
{
    assert forall|k: int| 0 <= k < a.ships.len() implies (#[trigger] a.ships[k]).remains(
        c.ships[k],
    ) by {
        assert(b.ships[k].remains(c.ships[k]));
    }
}

proof fn clearing_remains(g: Game, content: Content, dead: Seq<ShipId>, n: int)
    requires
        n <= g.ships.len(),
    ensures
        g.ships_remain(g.cleared_by(content, dead, n)),
        g.cleared_by(content, dead, n).ships.len() == g.ships.len(),
    decreases n,
{
    if n > 0 {
        clearing_remains(g, content, dead, n - 1);
        let h = g.cleared_by(content, dead, n - 1);
        let s = h.ships[n - 1];
        assert(s.remains(s.cleared(dead, h.has(content, n - 1, UpgradeEffect::KeepOneEvade))));
        reveal(Game::clearing);
        assert(h.ships_remain(h.clearing(content, dead, n - 1)));
        remaining_remains(g, h, h.clearing(content, dead, n - 1));
    }
}

proof fn returning_remains(g: Game, k: int)
    requires
        0 <= k,
    ensures
        g.returning(k).ships == g.ships,
    decreases g.mission->0.satellites.len() - k,
{
    let m = g.mission->0;
    if g.mission is Some && k < m.satellites.len() {
        if m.satellites[k].holder is Some && g.lost(m.satellites[k].holder->0) {
            returning_remains(
                Game {
                    mission: Some(
                        MissionModel {
                            satellites: m.satellites.update(
                                k,
                                Satellite { holder: None, supply: true, ..m.satellites[k] },
                            ),
                            ..m
                        },
                    ),
                    ..g
                }.saying(Event::SatelliteReturns(m.satellites[k].id)),
                k + 1,
            );
        } else {
            returning_remains(g, k + 1);
        }
    }
}

proof fn reinforcing_remains(
    g: Game,
    places: Seq<usize>,
    k: int,
    owner: PlayerId,
    class: ShipClass,
    pilot: Pilot,
)
    requires
        0 <= k,
    ensures
        g.ships_remain(g.reinforcing(places, k, owner, class, pilot)),
    decreases places.len() - k,
{
    if k < places.len() {
        let h = g.arriving(g.ships[places[k] as int].id, owner, class, pilot);
        assert(g.ships_remain(h));
        reinforcing_remains(h, places, k + 1, owner, class, pilot);
        remaining_remains(g, h, g.reinforcing(places, k, owner, class, pilot));
    }
}

/// The End phase brings no ship back: every ship is there in the next round,
/// destroyed if it was destroyed.
pub proof fn every_ship_remains(p: Play, content: Content, sight: Sight)
    requires
        p.game.fits(),
    ensures
        p.game.ships_remain(p.ended(content, sight).game),
{
    broadcast use {crate::game::lasting::steady, ending_lasts};

    reveal(Play::ended);
    reveal(Game::judged_over);
    let n = p.game.ships.len() as int;
    let q = p.at(p.game.baffled(content, 0).felled(0)).colzet_by(content, n);
    let g = q.game.mara_by(content, sight, n).r5p9_by(content, sight, n);
    assert(p.game.lasts(q.game));
    assert(p.game.lasts(g));
    let h = g.r5_by(content, n);
    assert(p.game.lasts(h));
    lasting_remains(p.game, h);
    let c = h.cleared_by(content, g.dead(n), n);
    clearing_remains(h, content, g.dead(n), n);
    remaining_remains(p.game, h, c);
    let r = q.at(c).r2d2_by(content, n).game;
    assert(c.lasts(r));
    lasting_remains(c, r);
    remaining_remains(p.game, c, r);
    let e = r.mission_ended(content);
    returning_remains(r, 0);
    assert(r.ships_remain(e)) by {
        reveal(Game::reserves_called);
        let s = r.returning(0);
        if let Some(m) = s.mission {
            if let Some(id) = m.reserve {
                if let Some(pilot) = content.flyer(id) {
                    if let Some(class) = content.chassis(pilot.class) {
                        reinforcing_remains(
                            s,
                            picked(s.unreplaced_rule(m), 0, s.ships.len() as int),
                            0,
                            seat_from(s.teams, m.flies(m.reinforcing), 0, 0),
                            class,
                            pilot,
                        );
                    }
                }
            }
        }
    }
    remaining_remains(p.game, r, e);
    assert(e.ships_remain(e.new_round()));
    remaining_remains(p.game, e, e.new_round());
    assert(p.ended(content, sight).game.ships == e.new_round().ships);
}

} // verus!
