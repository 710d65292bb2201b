//! The tick orchestrator and its passes.
//!
//! One step runs only when the external tick-ready signal is up, and
//! consumes it: the player controller first, then the player-bullet
//! pass, the enemy-bullet pass and the enemy pass, in that order. The
//! whole step is specified by [`spec_step`].

use vstd::prelude::*;
use crate::anime::{boss_die_anime, spec_die_anime, InvertColorCircle};
use crate::collide::{spec_collides_point, spec_collides_with, CollideType};
use crate::fixed::{clamp_i, sat_square, sat_sub_i64, spec_sat_square};
use crate::script::{
    spec_find_script, spec_get_or_load, wrap_inc, CommandV, CtxV, ManagerV, ScriptContext,
    ScriptGameCommand, ScriptV, FN_TICK,
};
use crate::transform::{spec_cadd, spec_clamped_vec, spec_move_up, Transform, Vec3};
use crate::trig::spec_norm_mdeg;
use crate::world::{
    cmd_wf, manager_wf, script_wf, spec_get_move, wf, CoreStorage, Enemy, EnemyBullet,
    EnemyBulletV, EnemyV, GameSystemData, InputData, Player, PlayerBullet, PlayerEntity, TexV, WorldV,
};
use crate::{FIELD_HEIGHT, FIELD_WIDTH};

verus! {

/// Where despawn happens: a larger margin than the player's movement
/// clamp, so bullets visibly leave the screen first.
pub open spec fn spec_out_of_game(p: Vec3) -> bool {
    p.x < -100_000 || p.x > 1_700_000 || p.y > 1_000_000 || p.y < -100_000
}

/// Whether a transform's translation has left the playfield margin.
pub fn is_out_of_game(tran: &Transform) -> (r: bool)
    ensures
        r == spec_out_of_game(tran.pos),
{
    let t = tran.translation();
    t.x < -100_000 || t.x > 1_700_000 || t.y > 1_000_000 || t.y < -100_000
}

/// The first live enemy with positive hit points whose shape covers the
/// point `p`, searching from `j` in store order.
pub open spec fn spec_find_hit(es: Seq<EnemyV>, p: Vec3, j: int) -> Option<int>
    decreases es.len() - j,
{
    if j < 0 || j >= es.len() {
        None
    } else if es[j].alive && es[j].hp > 0 && spec_collides_point(es[j].collide, es[j].tran.pos, p) {
        Some(j)
    } else {
        spec_find_hit(es, p, j + 1)
    }
}

/// A found hit lies inside the sequence and names a live, covering enemy.
pub proof fn lemma_find_hit_in_range(es: Seq<EnemyV>, p: Vec3, j: int)
    ensures
        spec_find_hit(es, p, j) matches Some(k) ==> j <= k < es.len(),
    decreases es.len() - j,
{
    if j < 0 || j >= es.len() {
    } else if es[j].alive && es[j].hp > 0 && spec_collides_point(es[j].collide, es[j].tran.pos, p) {
    } else {
        lemma_find_hit_in_range(es, p, j + 1);
    }
}

/// An enemy bullet kills the player when it is live and its shape,
/// centered at the bullet, overlaps the player's hitbox circle at the
/// player's position.
pub open spec fn spec_bullet_hits_player(b: EnemyBulletV, pc: CollideType, ppos: Vec3) -> bool {
    b.alive && spec_collides_with(b.collide, b.tran.pos, pc, ppos)
}

/// The player-death test: an order-independent scan over every live
/// enemy bullet.
pub open spec fn spec_player_dies(ebs: Seq<EnemyBulletV>, pc: CollideType, ppos: Vec3) -> bool {
    exists|i: int| 0 <= i < ebs.len() && spec_bullet_hits_player(#[trigger] ebs[i], pc, ppos)
}

/// What the player controller does in one step, when the tick runs.
///
/// With no player it does nothing. Otherwise: movement at walk speed
/// while focusing, clamped per axis to the playfield; the hitbox
/// indicator shown exactly while focusing; a shot when the trigger is
/// ready and held (cooldown back to 2, a bullet at the player slightly
/// toward the camera and half-scaled), else the cooldown ticking down to
/// 0; and the death test against every live enemy bullet, a hit spawning
/// the death choreography at the player and clearing the player slot.
pub open spec fn spec_process_player(w: WorldV) -> WorldV {
    match w.core.player {
        None => w,
        Some(p) => match w.core.cur_input {
            None => w,
            Some(inp) => {
                let speed = if inp.shift {
                    p.player.walk_speed as int
                } else {
                    p.player.move_speed as int
                };
                let mv = spec_get_move(inp, speed);
                let nx = clamp_i(p.tran.pos.x + mv.0, 0, FIELD_WIDTH as int) as i64;
                let ny = clamp_i(p.tran.pos.y + mv.1, 0, FIELD_HEIGHT as int) as i64;
                let t2 = Transform { pos: Vec3 { x: nx, y: ny, z: p.tran.pos.z }, ..p.tran };
                let ind2 = if inp.shift {
                    Some(InvertColorCircle { pos: t2, radius: p.player.radius })
                } else {
                    None
                };
                let firing = p.player.shoot_cooldown == 0 && inp.fire;
                let cd2: u8 = if firing {
                    2
                } else if p.player.shoot_cooldown == 0 {
                    0
                } else {
                    (p.player.shoot_cooldown - 1) as u8
                };
                let sprite = match w.textures.player_bullet {
                    Some(s) => s,
                    None => 0,
                };
                let pbs2 = if firing {
                    w.player_bullets.push(PlayerBullet {
                        damage: 10_000,
                        tran: Transform {
                            pos: Vec3 { z: spec_cadd(t2.pos.z as int, -1000) as i64, ..t2.pos },
                            scale: Vec3 { x: 500, y: 500, z: 1000 },
                            ..t2
                        },
                        sprite,
                        alive: true,
                    })
                } else {
                    w.player_bullets
                };
                let pc = CollideType::Circle(spec_sat_square(p.player.radius as int) as i64);
                if spec_player_dies(w.enemy_bullets, pc, t2.pos) {
                    WorldV {
                        core: CoreStorage { player: None, ..w.core },
                        player_bullets: pbs2,
                        animations: w.animations + spec_die_anime(t2.pos),
                        ..w
                    }
                } else {
                    WorldV {
                        core: CoreStorage {
                            player: Some(PlayerEntity {
                                player: Player { shoot_cooldown: cd2, ..p.player },
                                tran: t2,
                                indicator: ind2,
                            }),
                            ..w.core
                        },
                        player_bullets: pbs2,
                        ..w
                    }
                }
            },
        },
    }
}

/// The player-death scan, in store order.
fn player_hit_scan(ebs: &Vec<EnemyBullet>, pc: &CollideType, ppos: Vec3) -> (r: bool)
    requires
        forall|i: int| 0 <= i < ebs.deep_view().len()
            ==> (#[trigger] ebs.deep_view()[i]).tran.wf(),
        ppos.wf(),
    ensures
        r == spec_player_dies(ebs.deep_view(), *pc, ppos),
{
    let n = ebs.len();
    for i in 0..n
        invariant
            n == ebs@.len(),
            ppos.wf(),
            forall|k: int| 0 <= k < ebs.deep_view().len()
                ==> (#[trigger] ebs.deep_view()[k]).tran.wf(),
            forall|k: int| 0 <= k < i
                ==> !spec_bullet_hits_player(#[trigger] ebs.deep_view()[k], *pc, ppos),
    {
        let b = &ebs[i];
        proof {
            assert(ebs.deep_view()[i as int] == ebs@[i as int].deep_view());
        }
        if b.alive && b.collide.is_collide_with(&b.tran.pos, pc, &ppos) {
            proof {
                assert(spec_bullet_hits_player(ebs.deep_view()[i as int], *pc, ppos));
            }
            return true;
        }
    }
    false
}

/// Runs the player controller for this step.
pub fn process_player(data: &mut GameSystemData)
    requires
        wf(old(data)@),
    ensures
        final(data)@ == spec_process_player(old(data)@),
        wf(final(data)@),
{
    if data.core.player.is_some() {
        let mut p = data.core.player.unwrap();
        let inp = data.core.cur_input.unwrap();
        let is_walk = inp.shift;
        let speed = if is_walk {
            p.player.walk_speed
        } else {
            p.player.move_speed
        };
        let (mov_x, mov_y) = inp.get_move(speed);
        let raw_x = p.tran.pos.x;
        let raw_y = p.tran.pos.y;
        p.tran.pos.x = crate::fixed::clamp_range_wide((mov_x as i128) + (raw_x as i128), 0, FIELD_WIDTH);
        p.tran.pos.y = crate::fixed::clamp_range_wide((mov_y as i128) + (raw_y as i128), 0, FIELD_HEIGHT);
        if is_walk {
            p.indicator = Some(InvertColorCircle { pos: p.tran, radius: p.player.radius });
        } else {
            p.indicator = None;
        }
        if p.player.shoot_cooldown == 0 {
            if inp.fire {
                p.player.shoot_cooldown = 2;
                let mut bpos = p.tran;
                bpos.prepend_translation_z(-1000);
                bpos.set_scale(Vec3 { x: 500, y: 500, z: 1000 });
                let sprite = match data.texture_handles.player_bullet {
                    Some(s) => s,
                    None => {
                        proof {
                            assert(false);
                        }
                        0
                    },
                };
                data.player_bullets.push(PlayerBullet {
                    damage: 10_000,
                    tran: bpos,
                    sprite,
                    alive: true,
                });
            }
        } else {
            p.player.shoot_cooldown = p.player.shoot_cooldown - 1;
        }
        let collide = CollideType::Circle(sat_square(p.player.radius));
        let die = player_hit_scan(&data.enemy_bullets, &collide, p.tran.pos);
        if die {
            boss_die_anime(&mut data.animations, p.tran.pos);
            data.core.player = None;
        } else {
            data.core.player = Some(p);
        }
        proof {
            assert(data@ =~= spec_process_player(old(data)@));
            assert forall|i: int| 0 <= i < data@.player_bullets.len() implies
                (#[trigger] data@.player_bullets[i]).tran.wf() by {
                if i < old(data)@.player_bullets.len() {
                    assert(old(data)@.player_bullets[i].tran.wf());
                }
            }
        }
    }
}

/// What processing one player bullet does. A first hit in store order
/// damages that enemy (deleting it, with the death choreography, when
/// its hit points are exhausted) and spends the bullet; with no hit the
/// bullet moves 30 units up and despawns if that leaves the margin.
pub open spec fn spec_pb_step(w: WorldV, i: int) -> WorldV {
    let b = w.player_bullets[i];
    if !b.alive {
        w
    } else {
        match spec_find_hit(w.enemies, b.tran.pos, 0) {
            Some(j) => {
                let e = w.enemies[j];
                let hp2 = clamp_i(e.hp - b.damage, i64::MIN as int, i64::MAX as int) as i64;
                let w1 = if hp2 <= 0 {
                    WorldV {
                        enemies: w.enemies.update(j, EnemyV { hp: hp2, alive: false, ..e }),
                        animations: w.animations + spec_die_anime(e.tran.pos),
                        ..w
                    }
                } else {
                    WorldV { enemies: w.enemies.update(j, EnemyV { hp: hp2, ..e }), ..w }
                };
                WorldV {
                    player_bullets: w1.player_bullets.update(
                        i,
                        PlayerBullet { alive: false, ..b },
                    ),
                    ..w1
                }
            },
            None => {
                let t2 = spec_move_up(b.tran, 30_000);
                WorldV {
                    player_bullets: w.player_bullets.update(
                        i,
                        PlayerBullet { tran: t2, alive: !spec_out_of_game(t2.pos), ..b },
                    ),
                    ..w
                }
            },
        }
    }
}

/// The player-bullet pass from bullet `i` on, over the `n` bullets
/// present when the pass began.
pub open spec fn spec_pb_pass(w: WorldV, i: int, n: int) -> WorldV
    decreases n - i,
{
    if i < 0 || i >= n {
        w
    } else {
        spec_pb_pass(spec_pb_step(w, i), i + 1, n)
    }
}

/// The first-hit scan of one bullet against the enemies, in store order.
fn find_hit_enemy(enemies: &Vec<Enemy>, bpos: Vec3) -> (r: Option<usize>)
    requires
        forall|i: int| 0 <= i < enemies.deep_view().len()
            ==> (#[trigger] enemies.deep_view()[i]).tran.wf(),
        bpos.wf(),
    ensures
        match r {
            Some(j) => j < enemies@.len() && spec_find_hit(enemies.deep_view(), bpos, 0) == Some(
                j as int,
            ),
            None => spec_find_hit(enemies.deep_view(), bpos, 0) is None,
        },
{
    let n = enemies.len();
    for j in 0..n
        invariant
            n == enemies@.len(),
            bpos.wf(),
            forall|k: int| 0 <= k < enemies.deep_view().len()
                ==> (#[trigger] enemies.deep_view()[k]).tran.wf(),
            spec_find_hit(enemies.deep_view(), bpos, 0) == spec_find_hit(
                enemies.deep_view(),
                bpos,
                j as int,
            ),
    {
        let e = &enemies[j];
        proof {
            assert(enemies.deep_view()[j as int] == enemies@[j as int].deep_view());
        }
        if e.alive && e.hp > 0 && e.collide.is_collide_with_point(&e.tran.pos, &bpos) {
            return Some(j);
        }
    }
    None
}

/// Runs the player-bullet pass: every bullet present at entry, in store
/// order, including one fired by the player controller this step.
pub fn player_bullets_pass(data: &mut GameSystemData)
    requires
        wf(old(data)@),
    ensures
        final(data)@ == spec_pb_pass(old(data)@, 0, old(data)@.player_bullets.len() as int),
        wf(final(data)@),
{
    let n = data.player_bullets.len();
    for i in 0..n
        invariant
            wf(data@),
            n == data.player_bullets@.len(),
            spec_pb_pass(data@, i as int, n as int) == spec_pb_pass(old(data)@, 0, n as int),
    {
        let ghost wpre = data@;
        let b = data.player_bullets[i];
        if b.alive {
            match find_hit_enemy(&data.enemies, b.tran.pos) {
                Some(j) => {
                    proof {
                        lemma_find_hit_in_range(wpre.enemies, b.tran.pos, 0);
                        assert(data.enemies.deep_view()[j as int]
                            == data.enemies@[j as int].deep_view());
                    }
                    let epos = data.enemies[j].tran.pos;
                    let hp0 = data.enemies[j].hp;
                    let hp2 = sat_sub_i64(hp0, b.damage);
                    data.enemies[j].hp = hp2;
                    if hp2 <= 0 {
                        data.enemies[j].alive = false;
                        boss_die_anime(&mut data.animations, epos);
                    }
                    data.player_bullets[i].alive = false;
                    proof {
                        assert(data@ =~= spec_pb_step(wpre, i as int));
                    }
                },
                None => {
                    let mut t = b.tran;
                    proof {
                        assert(data.player_bullets@[i as int].tran.wf());
                    }
                    t.move_up(30_000);
                    let gone = is_out_of_game(&t);
                    data.player_bullets[i].tran = t;
                    if gone {
                        data.player_bullets[i].alive = false;
                    }
                    proof {
                        assert(data@ =~= spec_pb_step(wpre, i as int));
                    }
                },
            }
        }
        proof {
            assert(data@ == spec_pb_step(wpre, i as int));
            assert(spec_pb_pass(data@, i + 1, n as int) == spec_pb_pass(wpre, i as int, n as int));
        }
    }
}

/// The transform scripted movement leaves behind: the emitted queue is
/// drained from its end, `MoveUp` translating along the local up axis,
/// other command kinds ignored in this context.
pub open spec fn spec_apply_moves(t: Transform, cmds: Seq<CommandV>) -> Transform
    decreases cmds.len(),
{
    if cmds.len() == 0 {
        t
    } else {
        let t1 = match cmds.last() {
            CommandV::MoveUp(v) => spec_move_up(t, v as int),
            _ => t,
        };
        spec_apply_moves(t1, cmds.drop_last())
    }
}

/// What processing one enemy bullet does. One already outside the margin
/// before anything else is deleted first, its script not invoked this
/// step; otherwise its tick hook runs and the emitted movement is
/// applied.
pub open spec fn spec_eb_step(w: WorldV, i: int) -> WorldV {
    let b = w.enemy_bullets[i];
    if !b.alive {
        w
    } else if spec_out_of_game(b.tran.pos) {
        WorldV {
            enemy_bullets: w.enemy_bullets.update(i, EnemyBulletV { alive: false, ..b }),
            ..w
        }
    } else {
        let ctx2 = CtxV { ticks: wrap_inc(b.script.ticks), ..b.script };
        let cmds = w.manager.loaded[b.script.script as int].on_tick;
        let t2 = spec_apply_moves(b.tran, cmds);
        WorldV {
            enemy_bullets: w.enemy_bullets.update(
                i,
                EnemyBulletV { script: ctx2, tran: t2, ..b },
            ),
            ..w
        }
    }
}

/// The enemy-bullet pass from bullet `i` on, over the `n` bullets
/// present when the pass began.
pub open spec fn spec_eb_pass(w: WorldV, i: int, n: int) -> WorldV
    decreases n - i,
{
    if i < 0 || i >= n {
        w
    } else {
        spec_eb_pass(spec_eb_step(w, i), i + 1, n)
    }
}

/// Runs the enemy-bullet pass: bounds check on the pre-tick position
/// first, then the script tick and its movement.
pub fn enemy_bullets_pass(data: &mut GameSystemData)
    requires
        wf(old(data)@),
    ensures
        final(data)@ == spec_eb_pass(old(data)@, 0, old(data)@.enemy_bullets.len() as int),
        wf(final(data)@),
{
    let n = data.enemy_bullets.len();
    for i in 0..n
        invariant
            wf(data@),
            n == data.enemy_bullets@.len(),
            spec_eb_pass(data@, i as int, n as int) == spec_eb_pass(old(data)@, 0, n as int),
    {
        let ghost wpre = data@;
        proof {
            assert(data.enemy_bullets.deep_view()[i as int]
                == data.enemy_bullets@[i as int].deep_view());
        }
        let alive = data.enemy_bullets[i].alive;
        if alive {
            let t0 = data.enemy_bullets[i].tran;
            if is_out_of_game(&t0) {
                data.enemy_bullets[i].alive = false;
                proof {
                    assert(data@ =~= spec_eb_step(wpre, i as int));
                }
            } else {
                let mut cmds = data.enemy_bullets[i].script.execute_function(
                    FN_TICK,
                    &data.script_manager,
                );
                let ghost cmds0 = cmds.deep_view();
                let mut t = t0;
                proof {
                    assert(t.wf());
                }
                while cmds.len() > 0
                    invariant
                        t.wf(),
                        spec_apply_moves(t, cmds.deep_view()) == spec_apply_moves(t0, cmds0),
                    decreases cmds@.len(),
                {
                    let ghost cpre = cmds.deep_view();
                    let cmd = cmds.pop().unwrap();
                    proof {
                        assert(cmds.deep_view() =~= cpre.drop_last());
                        assert(cmd.deep_view() == cpre.last());
                    }
                    match cmd {
                        ScriptGameCommand::MoveUp(v) => {
                            t.move_up(v);
                        },
                        _ => {},
                    }
                }
                data.enemy_bullets[i].tran = t;
                proof {
                    assert(cmds0 == wpre.manager.loaded[wpre.enemy_bullets[i as int].script.script as int].on_tick);
                    assert(data@ =~= spec_eb_step(wpre, i as int));
                }
            }
        }
        proof {
            assert(data@ == spec_eb_step(wpre, i as int));
            assert(spec_eb_pass(data@, i + 1, n as int) == spec_eb_pass(wpre, i as int, n as int));
        }
    }
}

/// Appending to the cache moves no earlier find: a hit stays where it
/// was, and a miss now finds exactly the appended script's name.
pub proof fn lemma_find_script_push(s: Seq<ScriptV>, x: ScriptV, name: u64, from: int)
    requires
        0 <= from <= s.len(),
    ensures
        spec_find_script(s.push(x), name, from) == (
        if spec_find_script(s, name, from) is Some {
            spec_find_script(s, name, from)
        } else if x.name == name {
            Some(s.len() as int)
        } else {
            None::<int>
        }),
    decreases s.len() - from,
{
    if from == s.len() {
        assert(s.push(x)[from] == x);
    } else {
        assert(s.push(x)[from] == s[from]);
        if s[from].name == name {
        } else {
            lemma_find_script_push(s, x, name, from + 1);
        }
    }
}

/// A hit-or-load keeps the manager well formed, grows the cache only at
/// the end, and keeps every already-interpretable command interpretable.
pub proof fn lemma_get_or_load_preserves(m: ManagerV, tex: TexV, name: u64)
    requires
        manager_wf(m, tex),
    ensures
        match spec_get_or_load(m, name) {
            Some(pair) => {
                &&& manager_wf(pair.0, tex)
                &&& pair.0.available == m.available
                &&& m.loaded.len() <= pair.0.loaded.len()
                &&& forall|i: int| 0 <= i < m.loaded.len() ==> pair.0.loaded[i] == m.loaded[i]
                &&& 0 <= pair.1 < pair.0.loaded.len()
                &&& forall|c: CommandV| cmd_wf(c, m, tex) ==> #[trigger] cmd_wf(c, pair.0, tex)
            },
            None => true,
        },
{
    match spec_find_script(m.loaded, name, 0) {
        Some(j) => {
            crate::script::lemma_find_script_in_range(m.loaded, name, 0);
        },
        None => {
            match spec_find_script(m.available, name, 0) {
                Some(k) => {
                    crate::script::lemma_find_script_in_range(m.available, name, 0);
                    let x = m.available[k];
                    let m2 = ManagerV { loaded: m.loaded.push(x), ..m };
                    assert forall|c: CommandV| cmd_wf(c, m, tex) implies #[trigger] cmd_wf(
                        c,
                        m2,
                        tex,
                    ) by {
                        match c {
                            CommandV::MoveUp(_) => {},
                            CommandV::SummonBullet(_sp, _x, _y, _z, _a, _cl, sname, _args) => {
                                lemma_find_script_push(m.loaded, x, sname, 0);
                            },
                        }
                    }
                    assert forall|i: int| 0 <= i < m2.loaded.len() implies script_wf(
                        #[trigger] m2.loaded[i],
                        m2,
                        tex,
                    ) by {
                        if i < m.loaded.len() {
                            assert(script_wf(m.loaded[i], m, tex));
                            assert forall|kk: int| 0 <= kk < m2.loaded[i].on_tick.len() implies
                                cmd_wf(#[trigger] m2.loaded[i].on_tick[kk], m2, tex) by {
                                assert(cmd_wf(m.loaded[i].on_tick[kk], m, tex));
                            }
                        } else {
                            assert(m2.loaded[i] == x);
                            assert(script_wf(x, m, tex));
                            assert forall|kk: int| 0 <= kk < x.on_tick.len() implies cmd_wf(
                                #[trigger] x.on_tick[kk],
                                m2,
                                tex,
                            ) by {
                                assert(cmd_wf(x.on_tick[kk], m, tex));
                            }
                        }
                    }
                    assert forall|i: int| 0 <= i < m2.available.len() implies script_wf(
                        #[trigger] m2.available[i],
                        m2,
                        tex,
                    ) by {
                        assert(script_wf(m.available[i], m, tex));
                        assert forall|kk: int| 0 <= kk < m2.available[i].on_tick.len() implies
                            cmd_wf(#[trigger] m2.available[i].on_tick[kk], m2, tex) by {
                            assert(cmd_wf(m.available[i].on_tick[kk], m, tex));
                        }
                    }
                },
                None => {},
            }
        },
    }
}

/// What interpreting one enemy command does. `SummonBullet` resolves its
/// script (cache hit, else one load), binds a fresh context to the given
/// arguments, and spawns an enemy-bullet entity with the given sprite,
/// shape and transform (heading folded into one turn). Other command
/// kinds are ignored in this context.
pub open spec fn spec_do_summon(w: WorldV, c: CommandV) -> WorldV {
    match c {
        CommandV::MoveUp(_) => w,
        CommandV::SummonBullet(sprite, x, y, z, angle, collide, script_name, args) => {
            match spec_get_or_load(w.manager, script_name) {
                None => w,
                Some(pair) => WorldV {
                    manager: pair.0,
                    enemy_bullets: w.enemy_bullets.push(
                        EnemyBulletV {
                            collide,
                            script: CtxV { script: pair.1 as usize, args, ticks: 0 },
                            tran: Transform {
                                pos: spec_clamped_vec(x as int, y as int, z as int),
                                rot_mdeg: spec_norm_mdeg(angle as int) as i64,
                                scale: Vec3 { x: 1000, y: 1000, z: 1000 },
                            },
                            sprite,
                            alive: true,
                        },
                    ),
                    ..w
                },
            }
        },
    }
}

/// Interpreting a whole emitted queue, drained from its end.
pub open spec fn spec_apply_summons(w: WorldV, cmds: Seq<CommandV>) -> WorldV
    decreases cmds.len(),
{
    if cmds.len() == 0 {
        w
    } else {
        spec_apply_summons(spec_do_summon(w, cmds.last()), cmds.drop_last())
    }
}

/// What processing one enemy does: its tick hook runs on a snapshot and
/// the emitted commands are interpreted. The enemy itself does not move
/// in this pass.
pub open spec fn spec_enemy_step(w: WorldV, i: int) -> WorldV {
    let e = w.enemies[i];
    if !e.alive {
        w
    } else {
        let ctx2 = CtxV { ticks: wrap_inc(e.script.ticks), ..e.script };
        let cmds = w.manager.loaded[e.script.script as int].on_tick;
        let w1 = WorldV { enemies: w.enemies.update(i, EnemyV { script: ctx2, ..e }), ..w };
        spec_apply_summons(w1, cmds)
    }
}

/// The enemy pass from enemy `i` on, over the `n` enemies present when
/// the pass began.
pub open spec fn spec_enemy_pass(w: WorldV, i: int, n: int) -> WorldV
    decreases n - i,
{
    if i < 0 || i >= n {
        w
    } else {
        spec_enemy_pass(spec_enemy_step(w, i), i + 1, n)
    }
}

/// Runs the enemy pass: each live enemy's tick hook, then its command
/// queue, spawning the bullets it summons.
pub fn enemies_pass(data: &mut GameSystemData)
    requires
        wf(old(data)@),
    ensures
        final(data)@ == spec_enemy_pass(old(data)@, 0, old(data)@.enemies.len() as int),
        wf(final(data)@),
{
    let n = data.enemies.len();
    for i in 0..n
        invariant
            wf(data@),
            n == data.enemies@.len(),
            spec_enemy_pass(data@, i as int, n as int) == spec_enemy_pass(old(data)@, 0, n as int),
    {
        let ghost wpre = data@;
        proof {
            assert(data.enemies.deep_view()[i as int] == data.enemies@[i as int].deep_view());
        }
        let alive = data.enemies[i].alive;
        if alive {
            let mut cmds = data.enemies[i].script.execute_function(FN_TICK, &data.script_manager);
            let ghost w1 = data@;
            let ghost sidx = wpre.enemies[i as int].script.script as int;
            proof {
                assert(w1 =~= (WorldV {
                    enemies: wpre.enemies.update(
                        i as int,
                        EnemyV {
                            script: CtxV {
                                ticks: wrap_inc(wpre.enemies[i as int].script.ticks),
                                ..wpre.enemies[i as int].script
                            },
                            ..wpre.enemies[i as int]
                        },
                    ),
                    ..wpre
                }));
                assert(cmds.deep_view() == wpre.manager.loaded[sidx].on_tick);
                assert(script_wf(wpre.manager.loaded[sidx], wpre.manager, wpre.textures));
            }
            while cmds.len() > 0
                invariant
                    wf(data@),
                    n == data.enemies@.len(),
                    data@.textures == w1.textures,
                    spec_apply_summons(data@, cmds.deep_view()) == spec_apply_summons(
                        w1,
                        w1.manager.loaded[sidx].on_tick,
                    ),
                    forall|k: int| 0 <= k < cmds.deep_view().len() ==> cmd_wf(
                        #[trigger] cmds.deep_view()[k],
                        data@.manager,
                        data@.textures,
                    ),
                decreases cmds@.len(),
            {
                let ghost wloop = data@;
                let ghost cpre = cmds.deep_view();
                let cmd = cmds.pop().unwrap();
                proof {
                    assert(cmds.deep_view() =~= cpre.drop_last());
                    assert(cmd.deep_view() == cpre.last());
                    assert(cmd_wf(cpre.last(), wloop.manager, wloop.textures));
                    lemma_get_or_load_preserves(
                        wloop.manager,
                        wloop.textures,
                        match cmd.deep_view() {
                            CommandV::SummonBullet(_sp, _x, _y, _z, _a, _cl, sname, _args) => sname,
                            _ => 0,
                        },
                    );
                }
                match cmd {
                    ScriptGameCommand::SummonBullet(
                        sprite,
                        x,
                        y,
                        z,
                        angle,
                        collide,
                        script_name,
                        args,
                    ) => {
                        let res = data.script_manager.get_or_load_script(script_name);
                        match res {
                            Ok(idx) => {
                                let sc = ScriptContext::new(idx, args);
                                let mut pos = Transform::identity();
                                pos.set_translation_xyz(x, y, z);
                                pos.set_rotation_z_mdeg(angle);
                                let present = data.texture_handles.has_bullet(sprite);
                                if present {
                                    data.enemy_bullets.push(
                                        EnemyBullet {
                                            collide,
                                            script: sc,
                                            tran: pos,
                                            sprite,
                                            alive: true,
                                        },
                                    );
                                    proof {
                                        assert(data.enemy_bullets.deep_view()
                                            =~= wloop.enemy_bullets.push(
                                            data.enemy_bullets@.last().deep_view(),
                                        ));
                                        assert(data@ =~= spec_do_summon(wloop, cpre.last()));
                                    }
                                } else {
                                    proof {
                                        assert(false);
                                    }
                                }
                            },
                            Err(_) => {
                                proof {
                                    assert(false);
                                }
                            },
                        }
                    },
                    _ => {
                        proof {
                            assert(data@ == spec_do_summon(wloop, cpre.last()));
                        }
                    },
                }
                proof {
                    assert(data@ == spec_do_summon(wloop, cpre.last()));
                    assert(spec_apply_summons(data@, cmds.deep_view()) == spec_apply_summons(
                        wloop,
                        cpre,
                    ));
                    assert forall|k: int| 0 <= k < cmds.deep_view().len() implies cmd_wf(
                        #[trigger] cmds.deep_view()[k],
                        data@.manager,
                        data@.textures,
                    ) by {
                        assert(cmd_wf(cpre[k], wloop.manager, wloop.textures));
                    }
                }
            }
            proof {
                assert(data@ == spec_enemy_step(wpre, i as int));
            }
        }
        proof {
            assert(data@ == spec_enemy_step(wpre, i as int));
            assert(spec_enemy_pass(data@, i + 1, n as int) == spec_enemy_pass(
                wpre,
                i as int,
                n as int,
            ));
        }
    }
}

/// What one whole simulation step does: nothing at all while the
/// tick-ready signal is down; otherwise the player controller, the
/// consumed signal and advanced tick counter, then the player-bullet,
/// enemy-bullet and enemy passes in order.
pub open spec fn spec_step(w: WorldV) -> WorldV {
    if !w.core.tick_sign {
        w
    } else {
        let w1 = spec_process_player(w);
        let w2 = WorldV {
            core: CoreStorage { tick_sign: false, tick: wrap_inc(w1.core.tick), ..w1.core },
            ..w1
        };
        let w3 = spec_pb_pass(w2, 0, w2.player_bullets.len() as int);
        let w4 = spec_eb_pass(w3, 0, w3.enemy_bullets.len() as int);
        spec_enemy_pass(w4, 0, w4.enemies.len() as int)
    }
}

/// The tick orchestrator.
pub struct GameSystem;

impl GameSystem {
    /// Advances the world by one step when the tick-ready signal is up,
    /// consuming it; does nothing otherwise. The step leaves the world
    /// exactly as [`spec_step`] describes, and well formed.
    pub fn run(&mut self, data: &mut GameSystemData)
        requires
            wf(old(data)@),
        ensures
            final(data)@ == spec_step(old(data)@),
            wf(final(data)@),
    {
        if data.core.tick_sign {
            process_player(data);
            data.core.tick_sign = false;
            data.core.tick = if data.core.tick == u64::MAX {
                0
            } else {
                data.core.tick + 1
            };
            proof {
                let w1 = spec_process_player(old(data)@);
                assert(data@ =~= (WorldV {
                    core: CoreStorage {
                        tick_sign: false,
                        tick: wrap_inc(w1.core.tick),
                        ..w1.core
                    },
                    ..w1
                }));
            }
            player_bullets_pass(data);
            enemy_bullets_pass(data);
            enemies_pass(data);
        }
    }
}

/// Wherever the input sends the player, the position after the move lies
/// inside the playfield `[0, 1600] x [0, 900]`, whatever the input's
/// magnitude.
pub proof fn lemma_player_stays_in_field(w: WorldV)
    requires
        w.core.player is Some,
        w.core.cur_input is Some,
    ensures
        spec_process_player(w).core.player matches Some(p) ==> {
            &&& 0 <= p.tran.pos.x <= FIELD_WIDTH
            &&& 0 <= p.tran.pos.y <= FIELD_HEIGHT
        },
{
}

/// The fire cooldown never leaves `[0, 2]`: a shot happens exactly when
/// the trigger is ready (cooldown 0) and held, resets the cooldown to
/// exactly 2, and otherwise the cooldown only counts down, stopping at 0.
pub proof fn lemma_shoot_cooldown(w: WorldV, p: PlayerEntity, inp: InputData)
    requires
        w.core.player == Some(p),
        w.core.cur_input == Some(inp),
    ensures
        ({
            let w2 = spec_process_player(w);
            let fired = p.player.shoot_cooldown == 0 && inp.fire;
            &&& w2.player_bullets.len() == w.player_bullets.len() + (if fired {
                1int
            } else {
                0int
            })
            &&& (w2.core.player matches Some(p2) ==> p2.player.shoot_cooldown == (if fired {
                2u8
            } else if p.player.shoot_cooldown == 0 {
                0u8
            } else {
                (p.player.shoot_cooldown - 1) as u8
            }))
        }),
{
}

/// Processed bullets before `j` are not touched again by the rest of the
/// player-bullet pass.
pub proof fn lemma_pb_pass_frame(w: WorldV, i: int, n: int, j: int)
    requires
        0 <= j < i,
        n <= w.player_bullets.len(),
    ensures
        spec_pb_pass(w, i, n).player_bullets.len() == w.player_bullets.len(),
        spec_pb_pass(w, i, n).player_bullets[j] == w.player_bullets[j],
    decreases n - i,
{
    if i < 0 || i >= n {
    } else {
        lemma_find_hit_in_range(w.enemies, w.player_bullets[i].tran.pos, 0);
        lemma_pb_pass_frame(spec_pb_step(w, i), i + 1, n, j);
    }
}

/// A player bullet that leaves the margin is removed in the same step it
/// crosses it: after the player-bullet pass, every bullet still live
/// lies inside the margin.
pub proof fn lemma_pb_pass_bounds(w: WorldV, i: int, n: int)
    requires
        0 <= i,
        n == w.player_bullets.len(),
    ensures
        forall|j: int| i <= j < n ==> ((#[trigger] spec_pb_pass(w, i, n).player_bullets[j]).alive
            ==> !spec_out_of_game(spec_pb_pass(w, i, n).player_bullets[j].tran.pos)),
    decreases n - i,
{
    if i >= n {
    } else {
        let w2 = spec_pb_step(w, i);
        lemma_find_hit_in_range(w.enemies, w.player_bullets[i].tran.pos, 0);
        lemma_pb_pass_bounds(w2, i + 1, n);
        lemma_pb_pass_frame(w2, i + 1, n, i);
    }
}

/// Bullets before `j` are not touched again by the rest of the
/// enemy-bullet pass.
pub proof fn lemma_eb_pass_frame(w: WorldV, i: int, n: int, j: int)
    requires
        0 <= j < i,
        n <= w.enemy_bullets.len(),
    ensures
        spec_eb_pass(w, i, n).enemy_bullets.len() == w.enemy_bullets.len(),
        spec_eb_pass(w, i, n).enemy_bullets[j] == w.enemy_bullets[j],
    decreases n - i,
{
    if i < 0 || i >= n {
    } else {
        lemma_eb_pass_frame(spec_eb_step(w, i), i + 1, n, j);
    }
}

/// An enemy bullet already outside the margin before its tick is deleted
/// without its script running that step: after the enemy-bullet pass it
/// is dead and its tick counter unchanged.
pub proof fn lemma_expired_bullet_skips_script(w: WorldV, i: int, n: int, j: int)
    requires
        0 <= i <= j < n,
        n == w.enemy_bullets.len(),
        spec_out_of_game(w.enemy_bullets[j].tran.pos),
    ensures
        !spec_eb_pass(w, i, n).enemy_bullets[j].alive,
        spec_eb_pass(w, i, n).enemy_bullets[j].script.ticks == w.enemy_bullets[j].script.ticks,
    decreases n - i,
{
    let w2 = spec_eb_step(w, i);
    if i == j {
        lemma_eb_pass_frame(w2, i + 1, n, j);
    } else {
        assert(w2.enemy_bullets[j] == w.enemy_bullets[j]);
        lemma_expired_bullet_skips_script(w2, i + 1, n, j);
    }
}

/// The player-bullet pass reads enemy bullets and the world globals but
/// never writes them.
pub proof fn lemma_pb_pass_touches_only_its_own(w: WorldV, i: int, n: int)
    requires
        n <= w.player_bullets.len(),
    ensures
        spec_pb_pass(w, i, n).core == w.core,
        spec_pb_pass(w, i, n).enemy_bullets == w.enemy_bullets,
        spec_pb_pass(w, i, n).manager == w.manager,
        spec_pb_pass(w, i, n).textures == w.textures,
        spec_pb_pass(w, i, n).player_bullets.len() == w.player_bullets.len(),
        spec_pb_pass(w, i, n).enemies.len() == w.enemies.len(),
    decreases n - i,
{
    if i < 0 || i >= n {
    } else {
        lemma_find_hit_in_range(w.enemies, w.player_bullets[i].tran.pos, 0);
        lemma_pb_pass_touches_only_its_own(spec_pb_step(w, i), i + 1, n);
    }
}

/// The enemy-bullet pass writes nothing but the enemy bullets.
pub proof fn lemma_eb_pass_touches_only_its_own(w: WorldV, i: int, n: int)
    requires
        n <= w.enemy_bullets.len(),
    ensures
        spec_eb_pass(w, i, n).core == w.core,
        spec_eb_pass(w, i, n).player_bullets == w.player_bullets,
        spec_eb_pass(w, i, n).enemies == w.enemies,
        spec_eb_pass(w, i, n).animations == w.animations,
        spec_eb_pass(w, i, n).manager == w.manager,
        spec_eb_pass(w, i, n).textures == w.textures,
        spec_eb_pass(w, i, n).enemy_bullets.len() == w.enemy_bullets.len(),
    decreases n - i,
{
    if i < 0 || i >= n {
    } else {
        lemma_eb_pass_touches_only_its_own(spec_eb_step(w, i), i + 1, n);
    }
}

/// Interpreting a command queue only spawns enemy bullets and loads
/// scripts: the globals stay, and bullets present before stay where and
/// as they were.
pub proof fn lemma_apply_summons_frame(w: WorldV, cmds: Seq<CommandV>)
    ensures
        spec_apply_summons(w, cmds).core == w.core,
        spec_apply_summons(w, cmds).player_bullets == w.player_bullets,
        spec_apply_summons(w, cmds).enemies == w.enemies,
        spec_apply_summons(w, cmds).animations == w.animations,
        spec_apply_summons(w, cmds).textures == w.textures,
        spec_apply_summons(w, cmds).enemy_bullets.len() >= w.enemy_bullets.len(),
        forall|j: int| 0 <= j < w.enemy_bullets.len()
            ==> spec_apply_summons(w, cmds).enemy_bullets[j] == w.enemy_bullets[j],
    decreases cmds.len(),
{
    if cmds.len() == 0 {
    } else {
        let w2 = spec_do_summon(w, cmds.last());
        lemma_apply_summons_frame(w2, cmds.drop_last());
        assert forall|j: int| 0 <= j < w.enemy_bullets.len() implies spec_apply_summons(
            w,
            cmds,
        ).enemy_bullets[j] == w.enemy_bullets[j] by {
            assert(w2.enemy_bullets[j] == w.enemy_bullets[j]);
            assert(spec_apply_summons(w2, cmds.drop_last()).enemy_bullets[j]
                == w2.enemy_bullets[j]);
        }
    }
}

/// The enemy pass only ticks enemies, loads scripts and spawns enemy
/// bullets: bullets present before stay where and as they were.
pub proof fn lemma_enemy_pass_frame(w: WorldV, i: int, n: int)
    requires
        n <= w.enemies.len(),
    ensures
        spec_enemy_pass(w, i, n).core == w.core,
        spec_enemy_pass(w, i, n).player_bullets == w.player_bullets,
        spec_enemy_pass(w, i, n).animations == w.animations,
        spec_enemy_pass(w, i, n).textures == w.textures,
        spec_enemy_pass(w, i, n).enemy_bullets.len() >= w.enemy_bullets.len(),
        forall|j: int| 0 <= j < w.enemy_bullets.len()
            ==> spec_enemy_pass(w, i, n).enemy_bullets[j] == w.enemy_bullets[j],
    decreases n - i,
{
    if i < 0 || i >= n {
    } else {
        let e = w.enemies[i];
        if e.alive {
            let w1 = WorldV {
                enemies: w.enemies.update(
                    i,
                    EnemyV {
                        script: CtxV { ticks: wrap_inc(e.script.ticks), ..e.script },
                        ..e
                    },
                ),
                ..w
            };
            lemma_apply_summons_frame(w1, w.manager.loaded[e.script.script as int].on_tick);
        }
        let w2 = spec_enemy_step(w, i);
        lemma_enemy_pass_frame(w2, i + 1, n);
        assert forall|j: int| 0 <= j < w.enemy_bullets.len() implies spec_enemy_pass(
            w,
            i,
            n,
        ).enemy_bullets[j] == w.enemy_bullets[j] by {
            assert(w2.enemy_bullets[j] == w.enemy_bullets[j]);
            assert(spec_enemy_pass(w2, i + 1, n).enemy_bullets[j] == w2.enemy_bullets[j]);
        }
    }
}

/// Over a whole step, the player the step leaves alive stands inside the
/// playfield `[0, 1600] x [0, 900]`, whatever the input asked for.
pub proof fn lemma_step_player_in_field(w: WorldV)
    requires
        w.core.tick_sign,
        w.core.player is Some,
        w.core.cur_input is Some,
    ensures
        spec_step(w).core.player matches Some(p) ==> {
            &&& 0 <= p.tran.pos.x <= FIELD_WIDTH
            &&& 0 <= p.tran.pos.y <= FIELD_HEIGHT
        },
{
    lemma_player_stays_in_field(w);
    let w1 = spec_process_player(w);
    let w2 = WorldV {
        core: CoreStorage { tick_sign: false, tick: wrap_inc(w1.core.tick), ..w1.core },
        ..w1
    };
    let w3 = spec_pb_pass(w2, 0, w2.player_bullets.len() as int);
    lemma_pb_pass_touches_only_its_own(w2, 0, w2.player_bullets.len() as int);
    let w4 = spec_eb_pass(w3, 0, w3.enemy_bullets.len() as int);
    lemma_eb_pass_touches_only_its_own(w3, 0, w3.enemy_bullets.len() as int);
    lemma_enemy_pass_frame(w4, 0, w4.enemies.len() as int);
}

/// Over a whole step, every player bullet still live at the end stands
/// inside the despawn margin: one that crossed it was removed the same
/// step.
pub proof fn lemma_step_live_player_bullets_in_bounds(w: WorldV)
    requires
        w.core.tick_sign,
    ensures
        forall|j: int| 0 <= j < spec_step(w).player_bullets.len()
            ==> ((#[trigger] spec_step(w).player_bullets[j]).alive
                ==> !spec_out_of_game(spec_step(w).player_bullets[j].tran.pos)),
{
    let w1 = spec_process_player(w);
    let w2 = WorldV {
        core: CoreStorage { tick_sign: false, tick: wrap_inc(w1.core.tick), ..w1.core },
        ..w1
    };
    lemma_pb_pass_bounds(w2, 0, w2.player_bullets.len() as int);
    let w3 = spec_pb_pass(w2, 0, w2.player_bullets.len() as int);
    lemma_pb_pass_touches_only_its_own(w2, 0, w2.player_bullets.len() as int);
    let w4 = spec_eb_pass(w3, 0, w3.enemy_bullets.len() as int);
    lemma_eb_pass_touches_only_its_own(w3, 0, w3.enemy_bullets.len() as int);
    lemma_enemy_pass_frame(w4, 0, w4.enemies.len() as int);
}

/// Over a whole step, an enemy bullet already outside the margin when
/// the step began is removed that step, and its script's tick hook is
/// not invoked for it: its tick counter is exactly what it was.
pub proof fn lemma_step_expired_bullet_skips_script(w: WorldV, j: int)
    requires
        w.core.tick_sign,
        0 <= j < w.enemy_bullets.len(),
        spec_out_of_game(w.enemy_bullets[j].tran.pos),
    ensures
        !spec_step(w).enemy_bullets[j].alive,
        spec_step(w).enemy_bullets[j].script.ticks == w.enemy_bullets[j].script.ticks,
{
    let w1 = spec_process_player(w);
    assert(w1.enemy_bullets == w.enemy_bullets);
    let w2 = WorldV {
        core: CoreStorage { tick_sign: false, tick: wrap_inc(w1.core.tick), ..w1.core },
        ..w1
    };
    let w3 = spec_pb_pass(w2, 0, w2.player_bullets.len() as int);
    lemma_pb_pass_touches_only_its_own(w2, 0, w2.player_bullets.len() as int);
    let n = w3.enemy_bullets.len() as int;
    lemma_expired_bullet_skips_script(w3, 0, n, j);
    lemma_eb_pass_touches_only_its_own(w3, 0, n);
    let w4 = spec_eb_pass(w3, 0, n);
    lemma_enemy_pass_frame(w4, 0, w4.enemies.len() as int);
}

} // verus!
