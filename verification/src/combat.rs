//! Fights: gang against gang, a girl against the player's gang, and the
//! player against a girl. Every fight is a fixed rule applied to a stream of
//! percent draws (0..100), consumed in order; the functions that take a
//! random generator draw the stream up front and hand it to the rule.
use vstd::prelude::*;
use crate::enums::{Skill, Stat};
use crate::gangs::Gang;
use crate::girl::{string_views, Girl, GirlView};
use crate::girls::GirlManager;
use crate::rng::roll_i32;

verus! {

/// Result of a combat encounter.
#[derive(Debug)]
pub struct CombatResult {
    pub attacker_won: bool,
    pub attacker_casualties: i32,
    pub defender_casualties: i32,
    pub events: Vec<String>,
}

/// Every draw of a stream is a percent draw, in 0..100.
pub open spec fn percent_draws(d: Seq<i32>) -> bool {
    forall|i: int| 0 <= i < d.len() ==> 0 <= #[trigger] d[i] < 100
}

/// The larger of two integers.
pub open spec fn max_int(a: int, b: int) -> int {
    if a > b {
        a
    } else {
        b
    }
}

/// The smaller of two integers.
pub open spec fn min_int(a: int, b: int) -> int {
    if a < b {
        a
    } else {
        b
    }
}

/// The damage a gang's goon deals: 5 per weapon level (plus one), 10 more
/// when the gang fights with magic, less the target's constitution / 15, at least 1.
pub open spec fn goon_damage(g: Gang, weapon_level: i32, target_constitution: int) -> int {
    max_int(
        (weapon_level + 1) * 5 + (if g.magic_skill > g.combat_skill {
            10int
        } else {
            0
        }) - crate::inventory::trunc_div(target_constitution, 15),
        1,
    )
}

/// The fixed quantities of a gang brawl.
pub struct BrawlRule {
    pub atk_start: int,
    pub def_start: int,
    pub atk_skill: int,
    pub def_skill: int,
    pub atk_damage: int,
    pub def_damage: int,
}

/// The rule of a brawl between two gangs with the given weapon level.
pub open spec fn brawl_rule(a: Gang, d: Gang, weapon_level: i32) -> BrawlRule {
    BrawlRule {
        atk_start: a.num_members as int,
        def_start: d.num_members as int,
        atk_skill: a.attack_skill_spec() as int,
        def_skill: d.attack_skill_spec() as int,
        atk_damage: goon_damage(a, weapon_level, d.constitution as int),
        def_damage: goon_damage(d, weapon_level, a.constitution as int),
    }
}

/// The state of a duel between two goons: their health, the potions left,
/// and the position of the next draw.
pub struct Duel {
    pub atk_hp: int,
    pub def_hp: int,
    pub atk_potions: int,
    pub def_potions: int,
    pub pos: int,
}

/// Up to `k` exchanges of a duel. In each, the attacker strikes when its draw
/// is under its skill; a fallen defender ends the duel. Then the defender
/// strikes likewise; each side at 40 health or less drinks a potion (30
/// health) if it has one; a fallen attacker ends the duel.
pub open spec fn exchanges(u: Duel, k: int, r: BrawlRule, d: Seq<i32>) -> Duel
    decreases k,
{
    if k <= 0 {
        u
    } else {
        let dh1 = if d[u.pos] < r.atk_skill {
            u.def_hp - r.atk_damage
        } else {
            u.def_hp
        };
        if dh1 <= 0 {
            Duel { def_hp: dh1, pos: u.pos + 1, ..u }
        } else {
            let ah1 = if d[u.pos + 1] < r.def_skill {
                u.atk_hp - r.def_damage
            } else {
                u.atk_hp
            };
            let (dh2, dp2) = if dh1 <= 40 && u.def_potions > 0 {
                (dh1 + 30, u.def_potions - 1)
            } else {
                (dh1, u.def_potions)
            };
            let (ah2, ap2) = if ah1 <= 40 && u.atk_potions > 0 {
                (ah1 + 30, u.atk_potions - 1)
            } else {
                (ah1, u.atk_potions)
            };
            let u2 = Duel { atk_hp: ah2, def_hp: dh2, atk_potions: ap2, def_potions: dp2, pos: u.pos + 2 };
            if ah2 <= 0 {
                u2
            } else {
                exchanges(u2, k - 1, r, d)
            }
        }
    }
}

/// The state of a brawl: goons standing on each side, potions left, the
/// position of the next draw, and the events so far.
pub struct Brawl {
    pub atk_alive: int,
    pub def_alive: int,
    pub atk_potions: int,
    pub def_potions: int,
    pub pos: int,
    pub events: Seq<Seq<char>>,
}

/// Up to `k` rounds of a brawl. A round needs goons on both sides. A side
/// that has lost half its goons flees at a draw under 40 (attackers checked
/// first), which ends the brawl. Otherwise two goons duel for up to 20
/// exchanges from full health, and each side whose goon fell loses one.
pub open spec fn brawl_rounds(b: Brawl, k: int, r: BrawlRule, d: Seq<i32>) -> Brawl
    decreases k,
{
    if k <= 0 || b.atk_alive <= 0 || b.def_alive <= 0 {
        b
    } else {
        let atk_check = b.atk_alive <= r.atk_start / 2;
        if atk_check && d[b.pos] < 40 {
            Brawl { pos: b.pos + 1, events: b.events.push("Attackers fled!"@), ..b }
        } else {
            let p1 = if atk_check {
                b.pos + 1
            } else {
                b.pos
            };
            let def_check = b.def_alive <= r.def_start / 2;
            if def_check && d[p1] < 40 {
                Brawl { pos: p1 + 1, events: b.events.push("Defenders fled!"@), ..b }
            } else {
                let p2 = if def_check {
                    p1 + 1
                } else {
                    p1
                };
                let u = exchanges(
                    Duel { atk_hp: 100, def_hp: 100, atk_potions: b.atk_potions, def_potions: b.def_potions, pos: p2 },
                    20,
                    r,
                    d,
                );
                let b2 = Brawl {
                    atk_alive: b.atk_alive - if u.atk_hp <= 0 {
                        1int
                    } else {
                        0
                    },
                    def_alive: b.def_alive - if u.def_hp <= 0 {
                        1int
                    } else {
                        0
                    },
                    atk_potions: u.atk_potions,
                    def_potions: u.def_potions,
                    pos: u.pos,
                    events: b.events,
                };
                brawl_rounds(b2, k - 1, r, d)
            }
        }
    }
}

/// The whole brawl: three rounds per goon on both sides at most.
pub open spec fn brawl_of(a: Gang, df: Gang, ap: i32, dp: i32, weapon_level: i32, d: Seq<i32>) -> Brawl {
    brawl_rounds(
        Brawl {
            atk_alive: a.num_members as int,
            def_alive: df.num_members as int,
            atk_potions: ap as int,
            def_potions: dp as int,
            pos: 0,
            events: Seq::empty(),
        },
        (a.num_members + df.num_members) * 3,
        brawl_rule(a, df, weapon_level),
        d,
    )
}

/// Whether the attackers won a brawl that ended in `b`: no defenders left,
/// or attackers left and at least as many as the defenders.
pub open spec fn attackers_won(b: Brawl) -> bool {
    b.def_alive <= 0 || (b.atk_alive > 0 && b.atk_alive >= b.def_alive)
}

/// A gang after a brawl: the goons left (none below zero), 2 combat skill
/// more (up to 100) for the winner, and marked as having fought.
pub open spec fn gang_after(g: Gang, alive: int, won: bool) -> Gang {
    Gang {
        num_members: max_int(alive, 0) as i32,
        combat_skill: if won {
            min_int(g.combat_skill + 2, 100) as i32
        } else {
            g.combat_skill
        },
        saw_combat: true,
        ..g
    }
}

/// Computing a goon's damage stays within `i32`, and so do 20 strikes of it from 100 health.
pub open spec fn damage_fits(g: Gang, weapon_level: i32, target_constitution: int) -> bool {
    &&& i32::MIN <= weapon_level + 1
    &&& i32::MIN <= (weapon_level + 1) * 5 <= i32::MAX
    &&& i32::MIN <= (weapon_level + 1) * 5 + 10 <= i32::MAX
    &&& i32::MIN <= (weapon_level + 1) * 5 + (if g.magic_skill > g.combat_skill {
        10int
    } else {
        0
    }) - crate::inventory::trunc_div(target_constitution, 15) <= i32::MAX
    &&& goon_damage(g, weapon_level, target_constitution) <= 107374187
}

/// The brawl's arithmetic stays within `i32`: the round count, the damage
/// (over all the strikes of a duel), and the winner's skill gain.
pub open spec fn brawl_fits(a: Gang, df: Gang, weapon_level: i32) -> bool {
    &&& i32::MIN <= (a.num_members + df.num_members) * 3 <= i32::MAX
    &&& damage_fits(a, weapon_level, df.constitution as int)
    &&& damage_fits(df, weapon_level, a.constitution as int)
    &&& a.combat_skill <= i32::MAX - 2
    &&& df.combat_skill <= i32::MAX - 2
}

proof fn lemma_exchanges_pos(u: Duel, k: int, r: BrawlRule, d: Seq<i32>)
    requires
        k >= 0,
    ensures
        u.pos <= exchanges(u, k, r, d).pos <= u.pos + 2 * k,
        k > 0 ==> exchanges(u, k, r, d).pos >= u.pos + 1,
    decreases k,
{
    if k > 0 {
        let dh1 = if d[u.pos] < r.atk_skill {
            u.def_hp - r.atk_damage
        } else {
            u.def_hp
        };
        if dh1 > 0 {
            let ah1 = if d[u.pos + 1] < r.def_skill {
                u.atk_hp - r.def_damage
            } else {
                u.atk_hp
            };
            let (dh2, dp2) = if dh1 <= 40 && u.def_potions > 0 {
                (dh1 + 30, u.def_potions - 1)
            } else {
                (dh1, u.def_potions)
            };
            let (ah2, ap2) = if ah1 <= 40 && u.atk_potions > 0 {
                (ah1 + 30, u.atk_potions - 1)
            } else {
                (ah1, u.atk_potions)
            };
            let u2 = Duel { atk_hp: ah2, def_hp: dh2, atk_potions: ap2, def_potions: dp2, pos: u.pos + 2 };
            lemma_exchanges_pos(u2, k - 1, r, d);
        }
    }
}

proof fn lemma_brawl_pos(b: Brawl, k: int, r: BrawlRule, d: Seq<i32>)
    requires
        k >= 0,
    ensures
        b.pos <= brawl_rounds(b, k, r, d).pos <= b.pos + 42 * k,
    decreases k,
{
    if k > 0 && b.atk_alive > 0 && b.def_alive > 0 {
        let atk_check = b.atk_alive <= r.atk_start / 2;
        if !(atk_check && d[b.pos] < 40) {
            let p1 = if atk_check {
                b.pos + 1
            } else {
                b.pos
            };
            let def_check = b.def_alive <= r.def_start / 2;
            if !(def_check && d[p1] < 40) {
                let p2 = if def_check {
                    p1 + 1
                } else {
                    p1
                };
                let u0 = Duel { atk_hp: 100, def_hp: 100, atk_potions: b.atk_potions, def_potions: b.def_potions, pos: p2 };
                lemma_exchanges_pos(u0, 20, r, d);
                let u = exchanges(u0, 20, r, d);
                let b2 = Brawl {
                    atk_alive: b.atk_alive - if u.atk_hp <= 0 {
                        1int
                    } else {
                        0
                    },
                    def_alive: b.def_alive - if u.def_hp <= 0 {
                        1int
                    } else {
                        0
                    },
                    atk_potions: u.atk_potions,
                    def_potions: u.def_potions,
                    pos: u.pos,
                    events: b.events,
                };
                lemma_brawl_pos(b2, k - 1, r, d);
            }
        }
    }
}

proof fn lemma_brawl_reads(b: Brawl, k: int, r: BrawlRule, d: Seq<i32>)
    requires
        k > 0,
        b.atk_alive > 0,
        b.def_alive > 0,
    ensures
        b.atk_alive <= r.atk_start / 2 ==> brawl_rounds(b, k, r, d).pos >= b.pos + 1,
        ({
            let p1 = if b.atk_alive <= r.atk_start / 2 {
                b.pos + 1
            } else {
                b.pos
            };
            !(b.atk_alive <= r.atk_start / 2 && d[b.pos] < 40) && b.def_alive <= r.def_start / 2
                ==> brawl_rounds(b, k, r, d).pos >= p1 + 1
        }),
        ({
            let p1 = if b.atk_alive <= r.atk_start / 2 {
                b.pos + 1
            } else {
                b.pos
            };
            let p2 = if b.def_alive <= r.def_start / 2 {
                p1 + 1
            } else {
                p1
            };
            !(b.atk_alive <= r.atk_start / 2 && d[b.pos] < 40) && !(b.def_alive <= r.def_start / 2 && d[p1] < 40)
                ==> brawl_rounds(b, k, r, d).pos >= exchanges(
                Duel { atk_hp: 100, def_hp: 100, atk_potions: b.atk_potions, def_potions: b.def_potions, pos: p2 },
                20,
                r,
                d,
            ).pos
        }),
{
    let atk_check = b.atk_alive <= r.atk_start / 2;
    if !(atk_check && d[b.pos] < 40) {
        let p1 = if atk_check {
            b.pos + 1
        } else {
            b.pos
        };
        let def_check = b.def_alive <= r.def_start / 2;
        if !(def_check && d[p1] < 40) {
            let p2 = if def_check {
                p1 + 1
            } else {
                p1
            };
            let u0 = Duel { atk_hp: 100, def_hp: 100, atk_potions: b.atk_potions, def_potions: b.def_potions, pos: p2 };
            lemma_exchanges_pos(u0, 20, r, d);
            let u = exchanges(u0, 20, r, d);
            let b2 = Brawl {
                atk_alive: b.atk_alive - if u.atk_hp <= 0 {
                    1int
                } else {
                    0
                },
                def_alive: b.def_alive - if u.def_hp <= 0 {
                    1int
                } else {
                    0
                },
                atk_potions: u.atk_potions,
                def_potions: u.def_potions,
                pos: u.pos,
                events: b.events,
            };
            lemma_brawl_pos(b2, k - 1, r, d);
        }
    }
}

/// One duel of up to 20 exchanges from full health, consuming draws from `pos`.
fn duel(
    rule: &(i32, i32, i32, i32),
    atk_potions: &mut i32,
    def_potions: &mut i32,
    draws: &[i32],
    pos: &mut usize,
    Ghost(r): Ghost<BrawlRule>,
) -> (hp: (i32, i32))
    requires
        r.atk_skill == rule.0,
        r.def_skill == rule.1,
        r.atk_damage == rule.2,
        r.def_damage == rule.3,
        1 <= r.atk_damage <= 107374187,
        1 <= r.def_damage <= 107374187,
        exchanges(
            Duel { atk_hp: 100, def_hp: 100, atk_potions: *old(atk_potions) as int, def_potions: *old(def_potions) as int, pos: *old(pos) as int },
            20,
            r,
            draws@,
        ).pos <= draws@.len(),
    ensures
        ({
            let u = exchanges(
                Duel { atk_hp: 100, def_hp: 100, atk_potions: *old(atk_potions) as int, def_potions: *old(def_potions) as int, pos: *old(pos) as int },
                20,
                r,
                draws@,
            );
            &&& hp.0 == u.atk_hp
            &&& hp.1 == u.def_hp
            &&& *final(atk_potions) == u.atk_potions
            &&& *final(def_potions) == u.def_potions
            &&& *final(pos) == u.pos
        }),
{
    let ghost target = exchanges(
        Duel { atk_hp: 100, def_hp: 100, atk_potions: *atk_potions as int, def_potions: *def_potions as int, pos: *pos as int },
        20,
        r,
        draws@,
    );
    let mut atk_hp: i32 = 100;
    let mut def_hp: i32 = 100;
    let mut k: i32 = 0;
    let mut done = false;
    while k < 20 && !done
        invariant
            0 <= k <= 20,
            r.atk_skill == rule.0,
            r.def_skill == rule.1,
            r.atk_damage == rule.2,
            r.def_damage == rule.3,
            1 <= r.atk_damage <= 107374187,
            1 <= r.def_damage <= 107374187,
            target.pos <= draws@.len(),
            100 - r.def_damage * k <= atk_hp <= 100 + 30 * k,
            100 - r.atk_damage * k <= def_hp <= 100 + 30 * k,
            done ==> target == (Duel { atk_hp: atk_hp as int, def_hp: def_hp as int, atk_potions: *atk_potions as int, def_potions: *def_potions as int, pos: *pos as int }),
            !done ==> exchanges(
                Duel { atk_hp: atk_hp as int, def_hp: def_hp as int, atk_potions: *atk_potions as int, def_potions: *def_potions as int, pos: *pos as int },
                20 - k,
                r,
                draws@,
            ) == target,
        decreases 20 - k,
    {
        let ghost u = Duel { atk_hp: atk_hp as int, def_hp: def_hp as int, atk_potions: *atk_potions as int, def_potions: *def_potions as int, pos: *pos as int };
        proof {
            lemma_exchanges_pos(u, 20 - k, r, draws@);
            assert(r.atk_damage * k + r.atk_damage <= 107374187 * 20) by (nonlinear_arith)
                requires
                    1 <= r.atk_damage <= 107374187,
                    0 <= k < 20,
            ;
            assert(r.def_damage * k + r.def_damage <= 107374187 * 20) by (nonlinear_arith)
                requires
                    1 <= r.def_damage <= 107374187,
                    0 <= k < 20,
            ;
            assert(r.atk_damage * (k + 1) == r.atk_damage * k + r.atk_damage) by (nonlinear_arith);
            assert(r.def_damage * (k + 1) == r.def_damage * k + r.def_damage) by (nonlinear_arith);
        }
        if draws[*pos] < rule.0 {
            def_hp = def_hp - rule.2;
        }
        *pos = *pos + 1;
        if def_hp <= 0 {
            done = true;
        } else {
            proof {
                lemma_exchanges_pos(u, 20 - k, r, draws@);
                assert(target.pos >= u.pos + 2) by {
                    let dh1 = def_hp as int;
                    let ah1 = if draws@[u.pos + 1] < r.def_skill {
                        u.atk_hp - r.def_damage
                    } else {
                        u.atk_hp
                    };
                    let (dh2, dp2) = if dh1 <= 40 && u.def_potions > 0 {
                        (dh1 + 30, u.def_potions - 1)
                    } else {
                        (dh1, u.def_potions)
                    };
                    let (ah2, ap2) = if ah1 <= 40 && u.atk_potions > 0 {
                        (ah1 + 30, u.atk_potions - 1)
                    } else {
                        (ah1, u.atk_potions)
                    };
                    let u2 = Duel { atk_hp: ah2, def_hp: dh2, atk_potions: ap2, def_potions: dp2, pos: u.pos + 2 };
                    if ah2 > 0 {
                        lemma_exchanges_pos(u2, 20 - k - 1, r, draws@);
                    }
                }
            }
            if draws[*pos] < rule.1 {
                atk_hp = atk_hp - rule.3;
            }
            *pos = *pos + 1;
            if def_hp <= 40 && *def_potions > 0 {
                def_hp = def_hp + 30;
                *def_potions = *def_potions - 1;
            }
            if atk_hp <= 40 && *atk_potions > 0 {
                atk_hp = atk_hp + 30;
                *atk_potions = *atk_potions - 1;
            }
            if atk_hp <= 0 {
                done = true;
            }
        }
        k = k + 1;
    }
    (atk_hp, def_hp)
}


fn goon_damage_exec(g: &Gang, weapon_level: i32, target_constitution: i32) -> (dmg: i32)
    requires
        damage_fits(*g, weapon_level, target_constitution as int),
    ensures
        dmg == goon_damage(*g, weapon_level, target_constitution as int),
{
    let mut dmg = (weapon_level + 1) * 5;
    if g.magic_skill > g.combat_skill {
        dmg = dmg + 10;
    }
    dmg = dmg - target_constitution / 15;
    if dmg < 1 {
        dmg = 1;
    }
    dmg
}

/// Gang vs gang brawl on the given stream of draws (see `brawl_rounds`): the
/// attacker wins when the defenders are wiped out, or when attackers remain
/// and are at least as many; the winner's combat skill rises by 2 (up to
/// 100); both gangs keep the goons left and are marked as having fought.
pub fn gang_brawl_with(
    attacker: &mut Gang,
    defender: &mut Gang,
    attacker_potions: &mut i32,
    defender_potions: &mut i32,
    weapon_level: i32,
    draws: &[i32],
) -> (result: CombatResult)
    requires
        brawl_fits(*old(attacker), *old(defender), weapon_level),
        brawl_of(*old(attacker), *old(defender), *old(attacker_potions), *old(defender_potions), weapon_level, draws@).pos
            <= draws@.len(),
    ensures
        ({
            let b = brawl_of(*old(attacker), *old(defender), *old(attacker_potions), *old(defender_potions), weapon_level, draws@);
            &&& result.attacker_won == attackers_won(b)
            &&& result.attacker_casualties == old(attacker).num_members - b.atk_alive
            &&& result.defender_casualties == old(defender).num_members - b.def_alive
            &&& string_views(result.events@) == b.events
            &&& *final(attacker) == gang_after(*old(attacker), b.atk_alive, attackers_won(b))
            &&& *final(defender) == gang_after(*old(defender), b.def_alive, !attackers_won(b))
            &&& *final(attacker_potions) == b.atk_potions
            &&& *final(defender_potions) == b.def_potions
        }),
{
    let ghost r = brawl_rule(*attacker, *defender, weapon_level);
    let ghost d = draws@;
    let ghost target = brawl_of(*attacker, *defender, *attacker_potions, *defender_potions, weapon_level, d);
    let atk_start = attacker.num_members;
    let def_start = defender.num_members;
    let rule = (
        attacker.attack_skill(),
        defender.attack_skill(),
        goon_damage_exec(attacker, weapon_level, defender.constitution),
        goon_damage_exec(defender, weapon_level, attacker.constitution),
    );
    let mut atk_alive = atk_start;
    let mut def_alive = def_start;
    let max_rounds = (atk_alive + def_alive) * 3;
    let mut events: Vec<String> = Vec::new();
    let mut pos: usize = 0;
    let mut round: i32 = 0;
    let mut done = false;
    proof {
        assert(string_views(events@) =~= Seq::<Seq<char>>::empty());
    }
    while round < max_rounds && !done
        invariant
            r == brawl_rule(*old(attacker), *old(defender), weapon_level),
            d == draws@,
            target == brawl_of(*old(attacker), *old(defender), *old(attacker_potions), *old(defender_potions), weapon_level, d),
            target.pos <= d.len(),
            *attacker == *old(attacker),
            *defender == *old(defender),
            atk_start == r.atk_start,
            def_start == r.def_start,
            rule.0 == r.atk_skill,
            rule.1 == r.def_skill,
            rule.2 == r.atk_damage,
            rule.3 == r.def_damage,
            1 <= r.atk_damage <= 107374187,
            1 <= r.def_damage <= 107374187,
            max_rounds == (atk_start + def_start) * 3,
            0 <= round,
            round <= max_rounds || max_rounds < 0,
            atk_alive <= atk_start,
            atk_alive >= 0 || atk_alive == atk_start,
            def_alive <= def_start,
            def_alive >= 0 || def_alive == def_start,
            ({
                let cur = Brawl {
                    atk_alive: atk_alive as int,
                    def_alive: def_alive as int,
                    atk_potions: *attacker_potions as int,
                    def_potions: *defender_potions as int,
                    pos: pos as int,
                    events: string_views(events@),
                };
                &&& done ==> cur == target
                &&& !done ==> brawl_rounds(cur, max_rounds - round, r, d) == target
            }),
        decreases max_rounds - round,
    {
        let ghost cur = Brawl {
            atk_alive: atk_alive as int,
            def_alive: def_alive as int,
            atk_potions: *attacker_potions as int,
            def_potions: *defender_potions as int,
            pos: pos as int,
            events: string_views(events@),
        };
        let ghost k = max_rounds - round;
        proof {
            lemma_brawl_pos(cur, k, r, d);
        }
        if atk_alive <= 0 || def_alive <= 0 {
            done = true;
        } else {
            proof {
                lemma_brawl_reads(cur, k, r, d);
            }
            let atk_check = atk_alive <= atk_start / 2;
            if atk_check && draws[pos] < 40 {
                pos = pos + 1;
                let ghost pre = events@;
                events.push(String::from_str("Attackers fled!"));
                proof {
                    assert(string_views(events@) =~= string_views(pre).push("Attackers fled!"@));
                }
                done = true;
            } else {
                if atk_check {
                    pos = pos + 1;
                }
                let def_check = def_alive <= def_start / 2;
                if def_check && draws[pos] < 40 {
                    pos = pos + 1;
                    let ghost pre = events@;
                    events.push(String::from_str("Defenders fled!"));
                    proof {
                        assert(string_views(events@) =~= string_views(pre).push("Defenders fled!"@));
                    }
                    done = true;
                } else {
                    if def_check {
                        pos = pos + 1;
                    }
                    let ghost u0 = Duel {
                        atk_hp: 100,
                        def_hp: 100,
                        atk_potions: *attacker_potions as int,
                        def_potions: *defender_potions as int,
                        pos: pos as int,
                    };
                    proof {
                        lemma_exchanges_pos(u0, 20, r, d);
                        let u = exchanges(u0, 20, r, d);
                        let b2 = Brawl {
                            atk_alive: atk_alive - if u.atk_hp <= 0 {
                                1int
                            } else {
                                0
                            },
                            def_alive: def_alive - if u.def_hp <= 0 {
                                1int
                            } else {
                                0
                            },
                            atk_potions: u.atk_potions,
                            def_potions: u.def_potions,
                            pos: u.pos,
                            events: cur.events,
                        };
                        lemma_brawl_pos(b2, k - 1, r, d);
                    }
                    let (ah, dh) = duel(&rule, attacker_potions, defender_potions, draws, &mut pos, Ghost(r));
                    if dh <= 0 {
                        def_alive = def_alive - 1;
                    }
                    if ah <= 0 {
                        atk_alive = atk_alive - 1;
                    }
                }
            }
        }
        round = round + 1;
    }
    let attacker_casualties = atk_start - atk_alive;
    let defender_casualties = def_start - def_alive;
    let attacker_won = def_alive <= 0 || (atk_alive > 0 && atk_alive >= def_alive);
    attacker.num_members = if atk_alive > 0 {
        atk_alive
    } else {
        0
    };
    defender.num_members = if def_alive > 0 {
        def_alive
    } else {
        0
    };
    if attacker_won {
        attacker.combat_skill = if attacker.combat_skill + 2 < 100 {
            attacker.combat_skill + 2
        } else {
            100
        };
    } else {
        defender.combat_skill = if defender.combat_skill + 2 < 100 {
            defender.combat_skill + 2
        } else {
            100
        };
    }
    attacker.saw_combat = true;
    defender.saw_combat = true;
    CombatResult { attacker_won, attacker_casualties, defender_casualties, events }
}

/// A stream of `n` percent draws from `rng`.
fn percent_stream(rng: &mut rand::rngs::ThreadRng, n: usize) -> (d: Vec<i32>)
    ensures
        d@.len() == n,
        percent_draws(d@),
{
    let mut d: Vec<i32> = Vec::new();
    let mut i: usize = 0;
    while i < n
        invariant
            0 <= i <= n,
            d@.len() == i,
            percent_draws(d@),
        decreases n - i,
    {
        d.push(roll_i32(rng, 0, 100));
        i = i + 1;
    }
    d
}

/// Gang vs Gang brawl with draws from `rng`: the outcome of
/// `gang_brawl_with` for some stream of percent draws. Enough draws for the
/// longest brawl (42 per round) are taken up front.
pub fn gang_brawl(
    attacker: &mut Gang,
    defender: &mut Gang,
    attacker_potions: &mut i32,
    defender_potions: &mut i32,
    weapon_level: i32,
    rng: &mut rand::rngs::ThreadRng,
) -> (result: CombatResult)
    requires
        brawl_fits(*old(attacker), *old(defender), weapon_level),
        (old(attacker).num_members + old(defender).num_members) * 3 * 42 <= usize::MAX,
    ensures
        exists|d: Seq<i32>|
            percent_draws(d) && {
                let b = #[trigger] brawl_of(*old(attacker), *old(defender), *old(attacker_potions), *old(defender_potions), weapon_level, d);
                &&& result.attacker_won == attackers_won(b)
                &&& result.attacker_casualties == old(attacker).num_members - b.atk_alive
                &&& result.defender_casualties == old(defender).num_members - b.def_alive
                &&& string_views(result.events@) == b.events
                &&& *final(attacker) == gang_after(*old(attacker), b.atk_alive, attackers_won(b))
                &&& *final(defender) == gang_after(*old(defender), b.def_alive, !attackers_won(b))
                &&& *final(attacker_potions) == b.atk_potions
                &&& *final(defender_potions) == b.def_potions
            },
{
    let rounds = (attacker.num_members + defender.num_members) * 3;
    let n: usize = if rounds > 0 {
        rounds as usize * 42
    } else {
        0
    };
    let draws = percent_stream(rng, n);
    proof {
        let r = brawl_rule(*attacker, *defender, weapon_level);
        let b0 = Brawl {
            atk_alive: attacker.num_members as int,
            def_alive: defender.num_members as int,
            atk_potions: *attacker_potions as int,
            def_potions: *defender_potions as int,
            pos: 0,
            events: Seq::empty(),
        };
        if rounds > 0 {
            lemma_brawl_pos(b0, rounds as int, r, draws@);
        }
    }
    gang_brawl_with(attacker, defender, attacker_potions, defender_potions, weapon_level, draws.as_slice())
}

/// The fixed quantities of a girl's fight against a gang.
pub struct GangFightRule {
    pub max_goons: int,
    pub girl_attack: int,
    pub girl_damage: int,
    pub goon_attack: int,
    pub goon_damage: int,
}

/// The rule of a girl's fight against a gang: at most 5 goons face her; she
/// attacks with her better of magic and combat, dealing magic / 5 + 7 or
/// combat / 10 + 5; a goon's blow is the gang's damage less her
/// constitution / 10, at least 1.
pub open spec fn gang_fight_rule(g: GirlView, gang: Gang, weapon_level: i32) -> GangFightRule {
    let combat = g.skill(Skill::Combat);
    let magic = g.skill(Skill::Magic);
    GangFightRule {
        max_goons: min_int(5, gang.num_members as int),
        girl_attack: if magic > combat {
            magic
        } else {
            combat
        },
        girl_damage: if magic > combat {
            magic / 5 + 2 + 5
        } else {
            combat / 10 + 5
        },
        goon_attack: gang.attack_skill_spec() as int,
        goon_damage: max_int(
            (weapon_level + 1) * 5 + (if gang.magic_skill > gang.combat_skill {
                10int
            } else {
                0
            }) - g.stat(Stat::Constitution) / 10,
            1,
        ),
    }
}

/// The state of a girl's fight against a gang.
pub struct GangFight {
    pub girl: GirlView,
    pub girl_hp: int,
    pub goons_alive: int,
    pub agility: int,
    pub potions: int,
    pub fled: bool,
    pub pos: int,
    pub coin_pos: int,
    pub events: Seq<Seq<char>>,
}

/// Up to `k` rounds of a girl's fight against a gang, while she has more
/// than 20 health and goons remain. She hits at a draw under her attack
/// (a kill when her damage exceeds 30) and then gains a point of combat skill
/// at a coin of 0; a goon hits at a draw under the gang's attack, and unless
/// her dodge draw is under her agility (at most 90) she loses the goon's
/// damage, and her agility drops by 2 either way; a potion is used while
/// goons remain; when half the goons are down they flee at a draw under 40.
pub open spec fn gang_fight_rounds(f: GangFight, k: int, r: GangFightRule, d: Seq<i32>, c: Seq<i32>) -> GangFight
    decreases k,
{
    if k <= 0 || f.girl_hp <= 20 || f.goons_alive <= 0 {
        f
    } else {
        let hit = d[f.pos] < r.girl_attack;
        let goons1 = f.goons_alive - if hit && r.girl_damage > 30 {
            1int
        } else {
            0
        };
        let girl1 = if hit && c[f.coin_pos] == 0 {
            f.girl.add_skill(Skill::Combat, 1)
        } else {
            f.girl
        };
        let coin1 = if hit {
            f.coin_pos + 1
        } else {
            f.coin_pos
        };
        let p1 = f.pos + 1;
        let goon_hit = d[p1] < r.goon_attack;
        let hp2 = if goon_hit && d[p1 + 1] >= min_int(f.agility, 90) {
            f.girl_hp - r.goon_damage
        } else {
            f.girl_hp
        };
        let agi2 = if goon_hit {
            max_int(f.agility - 2, 0)
        } else {
            f.agility
        };
        let p3 = if goon_hit {
            p1 + 2
        } else {
            p1 + 1
        };
        let pot2 = if f.potions > 0 && goons1 > 0 {
            f.potions - 1
        } else {
            f.potions
        };
        let check = goons1 <= r.max_goons / 2;
        let f2 = GangFight {
            girl: girl1,
            girl_hp: hp2,
            goons_alive: goons1,
            agility: agi2,
            potions: pot2,
            fled: false,
            pos: if check {
                p3 + 1
            } else {
                p3
            },
            coin_pos: coin1,
            events: f.events,
        };
        if check && d[p3] < 40 {
            GangFight { fled: true, events: f.events.push("Gang fled from the girl!"@), ..f2 }
        } else {
            gang_fight_rounds(f2, k - 1, r, d, c)
        }
    }
}

/// The number of draws under 40 among the first `n` of the stream.
pub open spec fn kills_among(d: Seq<i32>, n: int) -> int
    decreases n,
{
    if n <= 0 {
        0
    } else {
        kills_among(d, n - 1) + if d[n - 1] < 40 {
            1int
        } else {
            0
        }
    }
}

/// The outcome of a girl's fight against a gang: the girl, the gang, the
/// potions left and the combat result. An incorporeal girl phases through:
/// she wins, the gang is halved and then loses a goon for each of its
/// remaining goons' draws under 40. Otherwise she fights up to 50 rounds
/// (see `gang_fight_rounds`): brought to 20 health or less she loses and
/// keeps the wounds (at least 1 health left of the fight's count); she wins
/// when no goon remains or when they fled. The gang loses its fallen goons
/// and is marked as having fought.
pub open spec fn gang_fight_of(g: GirlView, gang: Gang, potions: i32, weapon_level: i32, d: Seq<i32>, c: Seq<i32>) -> (
    GirlView,
    Gang,
    int,
    (bool, int, int, Seq<Seq<char>>),
) {
    if g.has_trait("Incorporial"@) {
        let half = crate::inventory::trunc_div(gang.num_members as int, 2);
        let left = max_int(half - kills_among(d, half), 0);
        (
            g,
            Gang { num_members: left as i32, ..gang },
            potions as int,
            (true, 0, 0, seq!["Girl is incorporeal - phased through attackers!"@]),
        )
    } else {
        let r = gang_fight_rule(g, gang, weapon_level);
        let f = gang_fight_rounds(
            GangFight {
                girl: g,
                girl_hp: g.stat(Stat::Health),
                goons_alive: r.max_goons,
                agility: g.stat(Stat::Agility),
                potions: potions as int,
                fled: false,
                pos: 0,
                coin_pos: 0,
                events: Seq::empty(),
            },
            50,
            r,
            d,
            c,
        );
        let lost = f.girl_hp <= 20;
        let girl = if lost {
            f.girl.add_stat(Stat::Health, -(g.stat(Stat::Health) - max_int(f.girl_hp, 1)))
        } else {
            f.girl
        };
        let won = if lost {
            false
        } else if f.goons_alive <= 0 {
            true
        } else {
            f.fled
        };
        let casualties = r.max_goons - f.goons_alive;
        (
            girl,
            Gang { num_members: max_int(gang.num_members - casualties, 0) as i32, saw_combat: true, ..gang },
            f.potions,
            (won, 0, casualties, f.events),
        )
    }
}

/// The girl-against-gang arithmetic stays within `i32`: the gang's damage,
/// even over 50 blows, and the halving of the gang.
pub open spec fn gang_fight_fits(g: GirlView, gang: Gang, weapon_level: i32) -> bool {
    let r = gang_fight_rule(g, gang, weapon_level);
    &&& i32::MIN <= weapon_level + 1
    &&& i32::MIN <= (weapon_level + 1) * 5 <= i32::MAX
    &&& i32::MIN <= (weapon_level + 1) * 5 + 10 <= i32::MAX
    &&& r.goon_damage <= 40000000
    &&& i32::MIN <= (weapon_level + 1) * 5 + (if gang.magic_skill > gang.combat_skill {
        10int
    } else {
        0
    }) - g.stat(Stat::Constitution) / 10 <= i32::MAX
}

proof fn lemma_gang_fight_pos(f: GangFight, k: int, r: GangFightRule, d: Seq<i32>, c: Seq<i32>)
    requires
        k >= 0,
    ensures
        f.pos <= gang_fight_rounds(f, k, r, d, c).pos <= f.pos + 4 * k,
        f.coin_pos <= gang_fight_rounds(f, k, r, d, c).coin_pos <= f.coin_pos + k,
        k > 0 && f.girl_hp > 20 && f.goons_alive > 0 ==> {
            let p1 = f.pos + 1;
            let goon_hit = d[p1] < r.goon_attack;
            let p3 = if goon_hit {
                p1 + 2
            } else {
                p1 + 1
            };
            let goons1 = f.goons_alive - if d[f.pos] < r.girl_attack && r.girl_damage > 30 {
                1int
            } else {
                0
            };
            &&& gang_fight_rounds(f, k, r, d, c).pos >= p3
            &&& goons1 <= r.max_goons / 2 ==> gang_fight_rounds(f, k, r, d, c).pos >= p3 + 1
            &&& d[f.pos] < r.girl_attack ==> gang_fight_rounds(f, k, r, d, c).coin_pos >= f.coin_pos + 1
        },
    decreases k,
{
    if k > 0 && f.girl_hp > 20 && f.goons_alive > 0 {
        let hit = d[f.pos] < r.girl_attack;
        let goons1 = f.goons_alive - if hit && r.girl_damage > 30 {
            1int
        } else {
            0
        };
        let girl1 = if hit && c[f.coin_pos] == 0 {
            f.girl.add_skill(Skill::Combat, 1)
        } else {
            f.girl
        };
        let coin1 = if hit {
            f.coin_pos + 1
        } else {
            f.coin_pos
        };
        let p1 = f.pos + 1;
        let goon_hit = d[p1] < r.goon_attack;
        let hp2 = if goon_hit && d[p1 + 1] >= min_int(f.agility, 90) {
            f.girl_hp - r.goon_damage
        } else {
            f.girl_hp
        };
        let agi2 = if goon_hit {
            max_int(f.agility - 2, 0)
        } else {
            f.agility
        };
        let p3 = if goon_hit {
            p1 + 2
        } else {
            p1 + 1
        };
        let pot2 = if f.potions > 0 && goons1 > 0 {
            f.potions - 1
        } else {
            f.potions
        };
        let check = goons1 <= r.max_goons / 2;
        let f2 = GangFight {
            girl: girl1,
            girl_hp: hp2,
            goons_alive: goons1,
            agility: agi2,
            potions: pot2,
            fled: false,
            pos: if check {
                p3 + 1
            } else {
                p3
            },
            coin_pos: coin1,
            events: f.events,
        };
        lemma_gang_fight_pos(f2, k - 1, r, d, c);
    }
}

proof fn lemma_kills_among(d: Seq<i32>, n: int)
    requires
        n >= 0,
    ensures
        0 <= kills_among(d, n) <= n,
    decreases n,
{
    if n > 0 {
        lemma_kills_among(d, n - 1);
    }
}

/// Whether the streams hold every draw the fight consumes.
pub open spec fn gang_fight_draws_enough(g: GirlView, gang: Gang, potions: i32, weapon_level: i32, d: Seq<i32>, c: Seq<i32>) -> bool {
    if g.has_trait("Incorporial"@) {
        crate::inventory::trunc_div(gang.num_members as int, 2) <= d.len()
    } else {
        let r = gang_fight_rule(g, gang, weapon_level);
        let f = gang_fight_rounds(
            GangFight {
                girl: g,
                girl_hp: g.stat(Stat::Health),
                goons_alive: r.max_goons,
                agility: g.stat(Stat::Agility),
                potions: potions as int,
                fled: false,
                pos: 0,
                coin_pos: 0,
                events: Seq::empty(),
            },
            50,
            r,
            d,
            c,
        );
        f.pos <= d.len() && f.coin_pos <= c.len()
    }
}

fn push_event(events: &mut Vec<String>, text: &str)
    ensures
        string_views(final(events)@) == string_views(old(events)@).push(text@),
{
    events.push(String::from_str(text));
    assert(string_views(events@) =~= string_views(old(events)@).push(text@));
}

/// A girl's fight against the player's gang on the given streams of percent
/// draws and coins (see `gang_fight_of`); the girl is the attacker, trying to escape.
pub fn girl_vs_gang_with(
    girl: &mut Girl,
    gang: &mut Gang,
    potions: &mut i32,
    weapon_level: i32,
    draws: &[i32],
    coins: &[i32],
) -> (result: CombatResult)
    requires
        gang_fight_fits(old(girl)@, *old(gang), weapon_level),
        gang_fight_draws_enough(old(girl)@, *old(gang), *old(potions), weapon_level, draws@, coins@),
    ensures
        ({
            let (g, gg, p, (won, ac, dc, ev)) = gang_fight_of(old(girl)@, *old(gang), *old(potions), weapon_level, draws@, coins@);
            &&& final(girl)@ == g
            &&& *final(gang) == gg
            &&& *final(potions) == p
            &&& result.attacker_won == won
            &&& result.attacker_casualties == ac
            &&& result.defender_casualties == dc
            &&& string_views(result.events@) == ev
        }),
{
    let ghost g0 = girl@;
    let ghost d = draws@;
    let ghost c = coins@;
    let mut events: Vec<String> = Vec::new();
    assert(string_views(events@) =~= Seq::<Seq<char>>::empty());
    proof {
        reveal_strlit("Incorporial");
    }
    if GirlManager::has_trait(girl, "Incorporial") {
        gang.num_members = gang.num_members / 2;
        let half = gang.num_members;
        let mut extra_kills: i32 = 0;
        let mut i: i32 = 0;
        while i < half
            invariant
                0 <= i,
                i <= half || half < 0,
                half <= d.len(),
                d == draws@,
                half < 0 ==> i == 0,
                extra_kills == kills_among(d, i as int),
                0 <= extra_kills <= i,
            decreases half - i,
        {
            if draws[i as usize] < 40 {
                extra_kills = extra_kills + 1;
            }
            i = i + 1;
        }
        proof {
            if half >= 0 {
                lemma_kills_among(d, half as int);
            }
        }
        gang.num_members = if half - extra_kills > 0 {
            half - extra_kills
        } else {
            0
        };
        push_event(&mut events, "Girl is incorporeal - phased through attackers!");
        return CombatResult { attacker_won: true, attacker_casualties: 0, defender_casualties: 0, events };
    }
    let ghost r = gang_fight_rule(g0, *gang, weapon_level);
    let max_goons = if 5 < gang.num_members {
        5
    } else {
        gang.num_members
    };
    let mut girl_hp = GirlManager::get_stat(girl, Stat::Health);
    let mut goons_alive = max_goons;
    let girl_combat = GirlManager::get_skill(girl, Skill::Combat);
    let girl_magic = GirlManager::get_skill(girl, Skill::Magic);
    let mut girl_agility = GirlManager::get_stat(girl, Stat::Agility);
    let girl_attack = if girl_magic > girl_combat {
        girl_magic
    } else {
        girl_combat
    };
    let girl_damage = if girl_magic > girl_combat {
        girl_magic / 5 + 2 + 5
    } else {
        girl_combat / 10 + 5
    };
    let goon_attack = gang.attack_skill();
    let mut goon_damage = (weapon_level + 1) * 5;
    if gang.magic_skill > gang.combat_skill {
        goon_damage = goon_damage + 10;
    }
    goon_damage = goon_damage - GirlManager::get_stat(girl, Stat::Constitution) / 10;
    if goon_damage < 1 {
        goon_damage = 1;
    }
    let ghost init = GangFight {
        girl: g0,
        girl_hp: g0.stat(Stat::Health),
        goons_alive: r.max_goons,
        agility: g0.stat(Stat::Agility),
        potions: *potions as int,
        fled: false,
        pos: 0,
        coin_pos: 0,
        events: Seq::empty(),
    };
    let ghost target = gang_fight_rounds(init, 50, r, d, c);
    let mut pos: usize = 0;
    let mut coin_pos: usize = 0;
    let mut fled = false;
    let mut done = false;
    let mut round: i32 = 0;
    while round < 50 && !done
        invariant
            0 <= round <= 50,
            d == draws@,
            c == coins@,
            r == gang_fight_rule(g0, *old(gang), weapon_level),
            *gang == *old(gang),
            g0 == old(girl)@,
            target == gang_fight_rounds(init, 50, r, d, c),
            target.pos <= d.len(),
            target.coin_pos <= c.len(),
            girl_attack == r.girl_attack,
            girl_damage == r.girl_damage,
            goon_attack == r.goon_attack,
            goon_damage == r.goon_damage,
            1 <= r.goon_damage <= 40000000,
            max_goons == r.max_goons,
            max_goons <= 5,
            goons_alive <= max_goons,
            goons_alive >= 0 || goons_alive == max_goons,
            girl_agility >= 0,
            !done ==> !fled,
            girl_hp <= 100,
            girl_hp >= -40000000 * round,
            girl@.stats == g0.stats,
            girl@.stat_mods == g0.stat_mods,
            girl@.temp_stats == g0.temp_stats,
            ({
                let cur = GangFight {
                    girl: girl@,
                    girl_hp: girl_hp as int,
                    goons_alive: goons_alive as int,
                    agility: girl_agility as int,
                    potions: *potions as int,
                    fled,
                    pos: pos as int,
                    coin_pos: coin_pos as int,
                    events: string_views(events@),
                };
                &&& done ==> cur == target
                &&& !done ==> gang_fight_rounds(cur, 50 - round, r, d, c) == target
            }),
        decreases 50 - round,
    {
        let ghost cur = GangFight {
            girl: girl@,
            girl_hp: girl_hp as int,
            goons_alive: goons_alive as int,
            agility: girl_agility as int,
            potions: *potions as int,
            fled,
            pos: pos as int,
            coin_pos: coin_pos as int,
            events: string_views(events@),
        };
        proof {
            lemma_gang_fight_pos(cur, 50 - round, r, d, c);
        }
        if girl_hp <= 20 || goons_alive <= 0 {
            done = true;
        } else {
            let hit = draws[pos] < girl_attack;
            if hit {
                if girl_damage > 30 {
                    goons_alive = goons_alive - 1;
                }
                if coins[coin_pos] == 0 {
                    GirlManager::update_skill(girl, Skill::Combat, 1);
                }
                coin_pos = coin_pos + 1;
            }
            pos = pos + 1;
            if draws[pos] < goon_attack {
                let dodge = if girl_agility < 90 {
                    girl_agility
                } else {
                    90
                };
                if draws[pos + 1] >= dodge {
                    girl_hp = girl_hp - goon_damage;
                }
                girl_agility = if girl_agility - 2 > 0 {
                    girl_agility - 2
                } else {
                    0
                };
                pos = pos + 2;
            } else {
                pos = pos + 1;
            }
            if *potions > 0 && goons_alive > 0 {
                *potions = *potions - 1;
            }
            let check = goons_alive <= max_goons / 2;
            if check && draws[pos] < 40 {
                pos = pos + 1;
                fled = true;
                push_event(&mut events, "Gang fled from the girl!");
                done = true;
            } else if check {
                pos = pos + 1;
            }
            proof {
                let hit_s = d[cur.pos] < r.girl_attack;
                let goons1 = cur.goons_alive - if hit_s && r.girl_damage > 30 {
                    1int
                } else {
                    0
                };
                let girl1 = if hit_s && c[cur.coin_pos] == 0 {
                    cur.girl.add_skill(Skill::Combat, 1)
                } else {
                    cur.girl
                };
                let p1 = cur.pos + 1;
                let goon_hit = d[p1] < r.goon_attack;
                let hp2 = if goon_hit && d[p1 + 1] >= min_int(cur.agility, 90) {
                    cur.girl_hp - r.goon_damage
                } else {
                    cur.girl_hp
                };
                assert(goons_alive == goons1);
                assert(girl@ == girl1);
                assert(girl_hp == hp2);
                assert(goons1 <= r.max_goons / 2 <==> check);
            }
        }
        round = round + 1;
    }
    let mut attacker_won = fled;
    if girl_hp <= 20 {
        attacker_won = false;
        let actual_hp = GirlManager::get_stat(girl, Stat::Health);
        let floor = if girl_hp > 1 {
            girl_hp
        } else {
            1
        };
        let damage = actual_hp - floor;
        GirlManager::update_stat(girl, Stat::Health, -damage);
    } else if goons_alive <= 0 {
        attacker_won = true;
    }
    let defender_casualties = max_goons - goons_alive;
    gang.num_members = if gang.num_members - defender_casualties > 0 {
        gang.num_members - defender_casualties
    } else {
        0
    };
    gang.saw_combat = true;
    CombatResult { attacker_won, attacker_casualties: 0, defender_casualties, events }
}

/// A stream of `n` coins (0 or 1) from `rng`.
fn coin_stream(rng: &mut rand::rngs::ThreadRng, n: usize) -> (c: Vec<i32>)
    ensures
        c@.len() == n,
        forall|i: int| 0 <= i < c@.len() ==> 0 <= #[trigger] c@[i] < 2,
{
    let mut c: Vec<i32> = Vec::new();
    let mut i: usize = 0;
    while i < n
        invariant
            0 <= i <= n,
            c@.len() == i,
            forall|j: int| 0 <= j < c@.len() ==> 0 <= #[trigger] c@[j] < 2,
        decreases n - i,
    {
        c.push(roll_i32(rng, 0, 2));
        i = i + 1;
    }
    c
}

/// Girl vs player gang combat with draws from `rng`: the outcome of
/// `girl_vs_gang_with` for some streams of percent draws and coins.
pub fn girl_vs_gang(
    girl: &mut Girl,
    gang: &mut Gang,
    potions: &mut i32,
    weapon_level: i32,
    rng: &mut rand::rngs::ThreadRng,
) -> (result: CombatResult)
    requires
        gang_fight_fits(old(girl)@, *old(gang), weapon_level),
    ensures
        exists|d: Seq<i32>, c: Seq<i32>|
            percent_draws(d) && {
                let (g, gg, p, (won, ac, dc, ev)) = #[trigger] gang_fight_of(old(girl)@, *old(gang), *old(potions), weapon_level, d, c);
                &&& final(girl)@ == g
                &&& *final(gang) == gg
                &&& *final(potions) == p
                &&& result.attacker_won == won
                &&& result.attacker_casualties == ac
                &&& result.defender_casualties == dc
                &&& string_views(result.events@) == ev
            },
{
    proof {
        reveal_strlit("Incorporial");
    }
    let incorporeal = GirlManager::has_trait(girl, "Incorporial");
    let half = gang.num_members / 2;
    let n: usize = if incorporeal {
        if half > 0 {
            half as usize
        } else {
            0
        }
    } else {
        200
    };
    let draws = percent_stream(rng, n);
    let coins = coin_stream(rng, 50);
    proof {
        if !incorporeal {
            let g0 = girl@;
            let r = gang_fight_rule(g0, *gang, weapon_level);
            let init = GangFight {
                girl: g0,
                girl_hp: g0.stat(Stat::Health),
                goons_alive: r.max_goons,
                agility: g0.stat(Stat::Agility),
                potions: *potions as int,
                fled: false,
                pos: 0,
                coin_pos: 0,
                events: Seq::empty(),
            };
            lemma_gang_fight_pos(init, 50, r, draws@, coins@);
        }
    }
    girl_vs_gang_with(girl, gang, potions, weapon_level, draws.as_slice(), coins.as_slice())
}

/// The state of a fight between the player and a girl.
pub struct Duel2 {
    pub player_hp: int,
    pub girl_hp: int,
    pub mana: int,
    pub player_agility: int,
    pub pos: int,
}

/// Up to `k` rounds of the player's fight with a girl, while both have more
/// than 20 health. She casts (7 mana) when her magic beats her combat and she
/// has the mana, else fights; at a draw under her attack she deals 2 +
/// magic / 5 (when her magic is the higher) or 5 + combat / 10, unless the
/// player's dodge draw is under his agility, which drops by 2 either way.
/// The player (combat 60) hits at a draw under 60 for 5 per weapon level (plus
/// one), unless her dodge draw is under her agility.
pub open spec fn player_fight_rounds(
    u: Duel2,
    k: int,
    combat: int,
    magic: int,
    agility: int,
    weapon_level: i32,
    d: Seq<i32>,
) -> Duel2
    decreases k,
{
    if k <= 0 || u.girl_hp <= 20 || u.player_hp <= 20 {
        u
    } else {
        let casts = magic > combat && u.mana >= 7;
        let mana1 = if casts {
            u.mana - 7
        } else {
            u.mana
        };
        let attack = if casts {
            magic
        } else {
            combat
        };
        let hits = d[u.pos] < attack;
        let dmg = if magic > combat {
            2 + magic / 5
        } else {
            5 + combat / 10
        };
        let php = if hits && d[u.pos + 1] >= u.player_agility {
            u.player_hp - dmg
        } else {
            u.player_hp
        };
        let pagi = if hits {
            max_int(u.player_agility - 2, 0)
        } else {
            u.player_agility
        };
        let p1 = if hits {
            u.pos + 2
        } else {
            u.pos + 1
        };
        let phits = d[p1] < 60;
        let ghp = if phits && d[p1 + 1] >= agility {
            u.girl_hp - (weapon_level + 1) * 5
        } else {
            u.girl_hp
        };
        let p2 = if phits {
            p1 + 2
        } else {
            p1 + 1
        };
        player_fight_rounds(
            Duel2 { player_hp: php, girl_hp: ghp, mana: mana1, player_agility: pagi, pos: p2 },
            k - 1,
            combat,
            magic,
            agility,
            weapon_level,
            d,
        )
    }
}

/// The end of the player's fight with a girl: whether the player won, and the
/// girl after it. An incorporeal girl loses at once, untouched. Otherwise
/// they fight up to 30 rounds from the player's 100 health; he wins when she
/// is at 20 health or less, and she keeps the wounds (her health minus what
/// the fight left her, at least 1).
pub open spec fn player_fight_of(g: GirlView, weapon_level: i32, d: Seq<i32>) -> (bool, GirlView) {
    if g.has_trait("Incorporial"@) {
        (true, g)
    } else {
        let start = g.stat(Stat::Health);
        let u = player_fight_rounds(
            Duel2 { player_hp: 100, girl_hp: start, mana: g.stat(Stat::Mana), player_agility: 50, pos: 0 },
            30,
            g.skill(Skill::Combat),
            g.skill(Skill::Magic),
            g.stat(Stat::Agility),
            weapon_level,
            d,
        );
        (u.girl_hp <= 20, g.add_stat(Stat::Health, -(start - max_int(u.girl_hp, 1))))
    }
}

proof fn lemma_player_fight_pos(u: Duel2, k: int, combat: int, magic: int, agility: int, weapon_level: i32, d: Seq<i32>)
    requires
        k >= 0,
    ensures
        u.pos <= player_fight_rounds(u, k, combat, magic, agility, weapon_level, d).pos <= u.pos + 4 * k,
        k > 0 && u.girl_hp > 20 && u.player_hp > 20 ==> {
            let casts = magic > combat && u.mana >= 7;
            let attack = if casts {
                magic
            } else {
                combat
            };
            let p1 = if d[u.pos] < attack {
                u.pos + 2
            } else {
                u.pos + 1
            };
            &&& player_fight_rounds(u, k, combat, magic, agility, weapon_level, d).pos >= p1 + 1
            &&& d[p1] < 60 ==> player_fight_rounds(u, k, combat, magic, agility, weapon_level, d).pos >= p1 + 2
        },
    decreases k,
{
    if k > 0 && u.girl_hp > 20 && u.player_hp > 20 {
        let casts = magic > combat && u.mana >= 7;
        let mana1 = if casts {
            u.mana - 7
        } else {
            u.mana
        };
        let attack = if casts {
            magic
        } else {
            combat
        };
        let hits = d[u.pos] < attack;
        let dmg = if magic > combat {
            2 + magic / 5
        } else {
            5 + combat / 10
        };
        let php = if hits && d[u.pos + 1] >= u.player_agility {
            u.player_hp - dmg
        } else {
            u.player_hp
        };
        let pagi = if hits {
            max_int(u.player_agility - 2, 0)
        } else {
            u.player_agility
        };
        let p1 = if hits {
            u.pos + 2
        } else {
            u.pos + 1
        };
        let phits = d[p1] < 60;
        let ghp = if phits && d[p1 + 1] >= agility {
            u.girl_hp - (weapon_level + 1) * 5
        } else {
            u.girl_hp
        };
        let p2 = if phits {
            p1 + 2
        } else {
            p1 + 1
        };
        lemma_player_fight_pos(
            Duel2 { player_hp: php, girl_hp: ghp, mana: mana1, player_agility: pagi, pos: p2 },
            k - 1,
            combat,
            magic,
            agility,
            weapon_level,
            d,
        );
    }
}

/// The player's blows stay within `i32`, even over 30 of them.
pub open spec fn player_fight_fits(weapon_level: i32) -> bool {
    -1 <= weapon_level <= 14316556
}

/// Player vs girl combat on the given stream of percent draws (see
/// `player_fight_of`). Returns true if the player wins.
pub fn player_combat_with(girl: &mut Girl, weapon_level: i32, draws: &[i32]) -> (player_won: bool)
    requires
        player_fight_fits(weapon_level),
        !old(girl)@.has_trait("Incorporial"@) ==> player_fight_rounds(
            Duel2 { player_hp: 100, girl_hp: old(girl)@.stat(Stat::Health), mana: old(girl)@.stat(Stat::Mana), player_agility: 50, pos: 0 },
            30,
            old(girl)@.skill(Skill::Combat),
            old(girl)@.skill(Skill::Magic),
            old(girl)@.stat(Stat::Agility),
            weapon_level,
            draws@,
        ).pos <= draws@.len(),
    ensures
        (player_won, final(girl)@) == player_fight_of(old(girl)@, weapon_level, draws@),
{
    proof {
        reveal_strlit("Incorporial");
    }
    if GirlManager::has_trait(girl, "Incorporial") {
        return true;
    }
    let ghost g0 = girl@;
    let ghost d = draws@;
    let mut player_hp: i32 = 100;
    let girl_hp_start = GirlManager::get_stat(girl, Stat::Health);
    let mut girl_hp = girl_hp_start;
    let girl_combat = GirlManager::get_skill(girl, Skill::Combat);
    let girl_magic = GirlManager::get_skill(girl, Skill::Magic);
    let girl_agility = GirlManager::get_stat(girl, Stat::Agility);
    let mut girl_mana = GirlManager::get_stat(girl, Stat::Mana);
    let player_combat: i32 = 60;
    let mut player_agility: i32 = 50;
    let ghost target = player_fight_rounds(
        Duel2 { player_hp: 100, girl_hp: girl_hp_start as int, mana: girl_mana as int, player_agility: 50, pos: 0 },
        30,
        girl_combat as int,
        girl_magic as int,
        girl_agility as int,
        weapon_level,
        d,
    );
    let mut pos: usize = 0;
    let mut round: i32 = 0;
    let mut done = false;
    while round < 30 && !done
        invariant
            0 <= round <= 30,
            d == draws@,
            girl@ == g0,
            target.pos <= d.len(),
            player_fight_fits(weapon_level),
            0 <= girl_combat <= 100,
            0 <= girl_magic <= 100,
            0 <= girl_mana,
            player_combat == 60,
            0 <= player_agility <= 50,
            -100 * round <= player_hp <= 100,
            -((weapon_level + 1) * 5 * round) <= girl_hp <= 100,
            girl_hp <= girl_hp_start,
            ({
                let cur = Duel2 {
                    player_hp: player_hp as int,
                    girl_hp: girl_hp as int,
                    mana: girl_mana as int,
                    player_agility: player_agility as int,
                    pos: pos as int,
                };
                &&& done ==> cur == target
                &&& !done ==> player_fight_rounds(
                    cur,
                    30 - round,
                    girl_combat as int,
                    girl_magic as int,
                    girl_agility as int,
                    weapon_level,
                    d,
                ) == target
            }),
        decreases 30 - round,
    {
        let ghost cur = Duel2 {
            player_hp: player_hp as int,
            girl_hp: girl_hp as int,
            mana: girl_mana as int,
            player_agility: player_agility as int,
            pos: pos as int,
        };
        proof {
            lemma_player_fight_pos(cur, 30 - round, girl_combat as int, girl_magic as int, girl_agility as int, weapon_level, d);
            assert((weapon_level + 1) * 5 * (round + 1) == (weapon_level + 1) * 5 * round + (weapon_level + 1) * 5) by (nonlinear_arith);
            assert((weapon_level + 1) * 5 * round <= 14316557 * 5 * 29) by (nonlinear_arith)
                requires
                    -1 <= weapon_level <= 14316556,
                    0 <= round < 30,
            ;
            assert((weapon_level + 1) * 5 * round >= 0) by (nonlinear_arith)
                requires
                    -1 <= weapon_level,
                    0 <= round,
            ;
        }
        if girl_hp <= 20 || player_hp <= 20 {
            done = true;
        } else {
            let girl_attack = if girl_magic > girl_combat && girl_mana >= 7 {
                girl_mana = girl_mana - 7;
                girl_magic
            } else {
                girl_combat
            };
            let ghost p1 = if d[cur.pos] < girl_attack {
                cur.pos + 2
            } else {
                cur.pos + 1
            };
            assert(target.pos >= p1 + 1);
            assert(d[p1] < 60 ==> target.pos >= p1 + 2);
            if draws[pos] < girl_attack {
                let dmg = if girl_magic > girl_combat {
                    2 + girl_magic / 5
                } else {
                    5 + girl_combat / 10
                };
                if draws[pos + 1] >= player_agility {
                    player_hp = player_hp - dmg;
                }
                player_agility = if player_agility - 2 > 0 {
                    player_agility - 2
                } else {
                    0
                };
                pos = pos + 2;
            } else {
                pos = pos + 1;
            }
            let player_attack: i32 = player_combat;
            assert(pos == p1);
            if draws[pos] < player_attack {
                let dmg = (weapon_level + 1) * 5;
                if draws[pos + 1] >= girl_agility {
                    girl_hp = girl_hp - dmg;
                }
                pos = pos + 2;
            } else {
                pos = pos + 1;
            }
        }
        round = round + 1;
    }
    let player_won = girl_hp <= 20;
    let floor = if girl_hp > 1 {
        girl_hp
    } else {
        1
    };
    let damage = girl_hp_start - floor;
    GirlManager::update_stat(girl, Stat::Health, -damage);
    player_won
}

/// Player vs girl combat with draws from `rng`: the outcome of
/// `player_combat_with` for some stream of percent draws. Returns true if the player wins.
pub fn player_combat(girl: &mut Girl, weapon_level: i32, rng: &mut rand::rngs::ThreadRng) -> (player_won: bool)
    requires
        player_fight_fits(weapon_level),
    ensures
        exists|d: Seq<i32>| percent_draws(d) && (player_won, final(girl)@) == #[trigger] player_fight_of(old(girl)@, weapon_level, d),
{
    let draws = percent_stream(rng, 120);
    proof {
        let g0 = girl@;
        lemma_player_fight_pos(
            Duel2 { player_hp: 100, girl_hp: g0.stat(Stat::Health), mana: g0.stat(Stat::Mana), player_agility: 50, pos: 0 },
            30,
            g0.skill(Skill::Combat),
            g0.skill(Skill::Magic),
            g0.stat(Stat::Agility),
            weapon_level,
            draws@,
        );
    }
    player_combat_with(girl, weapon_level, draws.as_slice())
}

/// A brawl never adds goons to either side, nor leaves a side that had goons
/// with fewer than none: casualties lie between 0 and the side's strength.
pub proof fn law_brawl_casualties_bounded(b: Brawl, k: int, r: BrawlRule, d: Seq<i32>)
    ensures
        brawl_rounds(b, k, r, d).atk_alive <= b.atk_alive,
        brawl_rounds(b, k, r, d).def_alive <= b.def_alive,
        b.atk_alive >= 0 ==> brawl_rounds(b, k, r, d).atk_alive >= 0,
        b.def_alive >= 0 ==> brawl_rounds(b, k, r, d).def_alive >= 0,
    decreases k,
{
    if k > 0 && b.atk_alive > 0 && b.def_alive > 0 {
        let atk_check = b.atk_alive <= r.atk_start / 2;
        if !(atk_check && d[b.pos] < 40) {
            let p1 = if atk_check {
                b.pos + 1
            } else {
                b.pos
            };
            let def_check = b.def_alive <= r.def_start / 2;
            if !(def_check && d[p1] < 40) {
                let p2 = if def_check {
                    p1 + 1
                } else {
                    p1
                };
                let u = exchanges(
                    Duel { atk_hp: 100, def_hp: 100, atk_potions: b.atk_potions, def_potions: b.def_potions, pos: p2 },
                    20,
                    r,
                    d,
                );
                let b2 = Brawl {
                    atk_alive: b.atk_alive - if u.atk_hp <= 0 {
                        1int
                    } else {
                        0
                    },
                    def_alive: b.def_alive - if u.def_hp <= 0 {
                        1int
                    } else {
                        0
                    },
                    atk_potions: u.atk_potions,
                    def_potions: u.def_potions,
                    pos: u.pos,
                    events: b.events,
                };
                law_brawl_casualties_bounded(b2, k - 1, r, d);
            }
        }
    }
}


proof fn lemma_exchanges_potions(u: Duel, k: int, r: BrawlRule, d: Seq<i32>)
    ensures
        u.atk_potions >= 0 ==> 0 <= exchanges(u, k, r, d).atk_potions <= u.atk_potions,
        u.def_potions >= 0 ==> 0 <= exchanges(u, k, r, d).def_potions <= u.def_potions,
    decreases k,
{
    if k > 0 {
        let dh1 = if d[u.pos] < r.atk_skill {
            u.def_hp - r.atk_damage
        } else {
            u.def_hp
        };
        if dh1 > 0 {
            let ah1 = if d[u.pos + 1] < r.def_skill {
                u.atk_hp - r.def_damage
            } else {
                u.atk_hp
            };
            let (dh2, dp2) = if dh1 <= 40 && u.def_potions > 0 {
                (dh1 + 30, u.def_potions - 1)
            } else {
                (dh1, u.def_potions)
            };
            let (ah2, ap2) = if ah1 <= 40 && u.atk_potions > 0 {
                (ah1 + 30, u.atk_potions - 1)
            } else {
                (ah1, u.atk_potions)
            };
            let u2 = Duel { atk_hp: ah2, def_hp: dh2, atk_potions: ap2, def_potions: dp2, pos: u.pos + 2 };
            lemma_exchanges_potions(u2, k - 1, r, d);
        }
    }
}

/// A brawl never hands out potions it does not have: each side ends with
/// between none and as many as it started with.
pub proof fn law_brawl_potions_bounded(b: Brawl, k: int, r: BrawlRule, d: Seq<i32>)
    ensures
        b.atk_potions >= 0 ==> 0 <= brawl_rounds(b, k, r, d).atk_potions <= b.atk_potions,
        b.def_potions >= 0 ==> 0 <= brawl_rounds(b, k, r, d).def_potions <= b.def_potions,
    decreases k,
{
    if k > 0 && b.atk_alive > 0 && b.def_alive > 0 {
        let atk_check = b.atk_alive <= r.atk_start / 2;
        if !(atk_check && d[b.pos] < 40) {
            let p1 = if atk_check {
                b.pos + 1
            } else {
                b.pos
            };
            let def_check = b.def_alive <= r.def_start / 2;
            if !(def_check && d[p1] < 40) {
                let p2 = if def_check {
                    p1 + 1
                } else {
                    p1
                };
                let u0 = Duel { atk_hp: 100, def_hp: 100, atk_potions: b.atk_potions, def_potions: b.def_potions, pos: p2 };
                lemma_exchanges_potions(u0, 20, r, d);
                let u = exchanges(u0, 20, r, d);
                let b2 = Brawl {
                    atk_alive: b.atk_alive - if u.atk_hp <= 0 {
                        1int
                    } else {
                        0
                    },
                    def_alive: b.def_alive - if u.def_hp <= 0 {
                        1int
                    } else {
                        0
                    },
                    atk_potions: u.atk_potions,
                    def_potions: u.def_potions,
                    pos: u.pos,
                    events: b.events,
                };
                law_brawl_potions_bounded(b2, k - 1, r, d);
            }
        }
    }
}

/// In a girl's fight against a gang the goons never use potions they do not
/// have: they end with between none and as many as they started with.
pub proof fn law_gang_fight_potions_bounded(f: GangFight, k: int, r: GangFightRule, d: Seq<i32>, c: Seq<i32>)
    ensures
        f.potions >= 0 ==> 0 <= gang_fight_rounds(f, k, r, d, c).potions <= f.potions,
    decreases k,
{
    if k > 0 && f.girl_hp > 20 && f.goons_alive > 0 {
        let hit = d[f.pos] < r.girl_attack;
        let goons1 = f.goons_alive - if hit && r.girl_damage > 30 {
            1int
        } else {
            0
        };
        let girl1 = if hit && c[f.coin_pos] == 0 {
            f.girl.add_skill(Skill::Combat, 1)
        } else {
            f.girl
        };
        let coin1 = if hit {
            f.coin_pos + 1
        } else {
            f.coin_pos
        };
        let p1 = f.pos + 1;
        let goon_hit = d[p1] < r.goon_attack;
        let hp2 = if goon_hit && d[p1 + 1] >= min_int(f.agility, 90) {
            f.girl_hp - r.goon_damage
        } else {
            f.girl_hp
        };
        let agi2 = if goon_hit {
            max_int(f.agility - 2, 0)
        } else {
            f.agility
        };
        let p3 = if goon_hit {
            p1 + 2
        } else {
            p1 + 1
        };
        let pot2 = if f.potions > 0 && goons1 > 0 {
            f.potions - 1
        } else {
            f.potions
        };
        let check = goons1 <= r.max_goons / 2;
        let f2 = GangFight {
            girl: girl1,
            girl_hp: hp2,
            goons_alive: goons1,
            agility: agi2,
            potions: pot2,
            fled: false,
            pos: if check {
                p3 + 1
            } else {
                p3
            },
            coin_pos: coin1,
            events: f.events,
        };
        if !(check && d[p3] < 40) {
            law_gang_fight_potions_bounded(f2, k - 1, r, d, c);
        }
    }
}

} // verus!
