use pooltouhou::collide::CollideType;
use pooltouhou::script::{
    Script, ScriptContext, ScriptGameCommand, ScriptLoadError, ScriptManager,
};
use pooltouhou::system::GameSystem;
use pooltouhou::transform::Transform;
use pooltouhou::world::{CoreStorage, Enemy, EnemyBullet, GameSystemData, TextureHandles};

const SPRITE_BASIC: u64 = 7;
const SCRIPT_S1: u64 = 42;

fn tran_at(x: i64, y: i64) -> Transform {
    let mut t = Transform::identity();
    t.set_translation_xyz(x, y, 0);
    t
}

fn world_with_scripts(loaded: Vec<Script>, available: Vec<Script>) -> GameSystemData {
    GameSystemData {
        core: CoreStorage { tick: 0, tick_sign: true, player: None, cur_input: None },
        texture_handles: TextureHandles { bullets: vec![SPRITE_BASIC], player_bullet: Some(3) },
        player_bullets: vec![],
        enemies: vec![],
        enemy_bullets: vec![],
        animations: vec![],
        script_manager: ScriptManager { available, loaded },
    }
}

fn step(data: &mut GameSystemData) {
    data.core.tick_sign = true;
    let mut gs = GameSystem;
    gs.run(data);
}

#[test]
fn expired_bullet_is_deleted_without_a_script_tick() {
    let mut data = world_with_scripts(
        vec![Script { name: 1, on_tick: vec![ScriptGameCommand::MoveUp(10_000)] }],
        vec![],
    );
    data.enemy_bullets.push(EnemyBullet {
        collide: CollideType::Circle(0),
        script: ScriptContext { script: 0, args: vec![], ticks: 0 },
        tran: tran_at(-200_000, 500_000),
        sprite: SPRITE_BASIC,
        alive: true,
    });
    step(&mut data);
    assert!(!data.enemy_bullets[0].alive);
    assert_eq!(data.enemy_bullets[0].script.ticks, 0);
    assert_eq!(data.enemy_bullets[0].tran.pos.x, -200_000);
}

#[test]
fn live_bullet_ticks_and_applies_its_movement() {
    let mut data = world_with_scripts(
        vec![Script { name: 1, on_tick: vec![ScriptGameCommand::MoveUp(10_000)] }],
        vec![],
    );
    data.enemy_bullets.push(EnemyBullet {
        collide: CollideType::Circle(0),
        script: ScriptContext { script: 0, args: vec![], ticks: 0 },
        tran: tran_at(800_000, 400_000),
        sprite: SPRITE_BASIC,
        alive: true,
    });
    step(&mut data);
    assert!(data.enemy_bullets[0].alive);
    assert_eq!(data.enemy_bullets[0].script.ticks, 1);
    assert_eq!(data.enemy_bullets[0].tran.pos.y, 410_000);
}

#[test]
fn summon_ignored_by_bullets_and_move_ignored_by_enemies() {
    let summon = ScriptGameCommand::SummonBullet(
        SPRITE_BASIC,
        100_000,
        200_000,
        0,
        0,
        CollideType::Circle(4_000_000),
        SCRIPT_S1,
        vec![],
    );
    let mut data = world_with_scripts(
        vec![
            Script { name: 2, on_tick: vec![summon] },
            Script { name: 3, on_tick: vec![ScriptGameCommand::MoveUp(10_000)] },
        ],
        vec![Script { name: SCRIPT_S1, on_tick: vec![] }],
    );
    data.enemy_bullets.push(EnemyBullet {
        collide: CollideType::Circle(0),
        script: ScriptContext { script: 0, args: vec![], ticks: 0 },
        tran: tran_at(800_000, 400_000),
        sprite: SPRITE_BASIC,
        alive: true,
    });
    data.enemies.push(Enemy {
        hp: 1000,
        collide: CollideType::Circle(1_000_000),
        script: ScriptContext { script: 1, args: vec![], ticks: 0 },
        tran: tran_at(400_000, 700_000),
        alive: true,
    });
    step(&mut data);
    assert_eq!(data.enemy_bullets.len(), 1);
    assert_eq!(data.enemy_bullets[0].tran.pos.y, 400_000);
    assert_eq!(data.enemies[0].tran.pos.y, 700_000);
    assert_eq!(data.enemies[0].script.ticks, 1);
}

#[test]
fn first_summon_loads_once_and_the_second_hits_the_cache() {
    let summon = ScriptGameCommand::SummonBullet(
        SPRITE_BASIC,
        100_000,
        200_000,
        0,
        90_000,
        CollideType::Circle(4_000_000),
        SCRIPT_S1,
        vec![],
    );
    let mut data = world_with_scripts(
        vec![Script { name: 2, on_tick: vec![summon] }],
        vec![Script { name: SCRIPT_S1, on_tick: vec![ScriptGameCommand::MoveUp(5_000)] }],
    );
    data.enemies.push(Enemy {
        hp: 1000,
        collide: CollideType::Circle(1_000_000),
        script: ScriptContext { script: 0, args: vec![], ticks: 0 },
        tran: tran_at(400_000, 700_000),
        alive: true,
    });

    step(&mut data);
    assert_eq!(data.enemy_bullets.len(), 1);
    assert_eq!(data.script_manager.loaded.len(), 2);
    assert_eq!(data.script_manager.loaded[1].name, SCRIPT_S1);
    let b = &data.enemy_bullets[0];
    assert_eq!(b.tran.pos.x, 100_000);
    assert_eq!(b.tran.pos.y, 200_000);
    assert_eq!(b.tran.rot_mdeg, 90_000);
    assert_eq!(b.collide, CollideType::Circle(4_000_000));
    assert_eq!(b.script.script, 1);
    assert_eq!(b.script.ticks, 0);
    assert!(b.alive);

    step(&mut data);
    assert_eq!(data.script_manager.loaded.len(), 2);
    assert_eq!(data.enemy_bullets.len(), 2);
}

#[test]
fn summoned_queue_is_drained_from_its_end() {
    let s_a = ScriptGameCommand::SummonBullet(
        SPRITE_BASIC,
        111_000,
        200_000,
        0,
        0,
        CollideType::Circle(0),
        SCRIPT_S1,
        vec![],
    );
    let s_b = ScriptGameCommand::SummonBullet(
        SPRITE_BASIC,
        222_000,
        200_000,
        0,
        0,
        CollideType::Circle(0),
        SCRIPT_S1,
        vec![],
    );
    let mut data = world_with_scripts(
        vec![Script { name: 2, on_tick: vec![s_a, s_b] }],
        vec![Script { name: SCRIPT_S1, on_tick: vec![] }],
    );
    data.enemies.push(Enemy {
        hp: 1000,
        collide: CollideType::Circle(1_000_000),
        script: ScriptContext { script: 0, args: vec![], ticks: 0 },
        tran: tran_at(400_000, 700_000),
        alive: true,
    });
    step(&mut data);
    assert_eq!(data.enemy_bullets.len(), 2);
    assert_eq!(data.enemy_bullets[0].tran.pos.x, 222_000);
    assert_eq!(data.enemy_bullets[1].tran.pos.x, 111_000);
    assert_eq!(data.script_manager.loaded.len(), 2);
}

#[test]
fn unknown_hook_is_a_no_op() {
    let mgr = ScriptManager {
        available: vec![],
        loaded: vec![Script { name: 1, on_tick: vec![ScriptGameCommand::MoveUp(5)] }],
    };
    let mut ctx = ScriptContext { script: 0, args: vec![], ticks: 0 };
    let cmds = ctx.execute_function(999, &mgr);
    assert!(cmds.is_empty());
    assert_eq!(ctx.ticks, 0);
    let cmds2 = ctx.execute_function(pooltouhou::script::FN_TICK, &mgr);
    assert_eq!(cmds2.len(), 1);
    assert_eq!(ctx.ticks, 1);
}

#[test]
fn summoned_bullet_keeps_its_arguments() {
    let summon = ScriptGameCommand::SummonBullet(
        SPRITE_BASIC,
        100_000,
        200_000,
        0,
        0,
        CollideType::Circle(0),
        SCRIPT_S1,
        vec![5, 6],
    );
    let mut data = world_with_scripts(
        vec![Script { name: 2, on_tick: vec![summon] }],
        vec![Script { name: SCRIPT_S1, on_tick: vec![] }],
    );
    data.enemies.push(Enemy {
        hp: 1000,
        collide: CollideType::Circle(1_000_000),
        script: ScriptContext { script: 0, args: vec![], ticks: 0 },
        tran: tran_at(400_000, 700_000),
        alive: true,
    });
    step(&mut data);
    assert_eq!(data.enemy_bullets[0].script.args, vec![5, 6]);
}

#[test]
fn loading_an_unknown_name_fails() {
    let mut m = ScriptManager { available: vec![], loaded: vec![] };
    assert_eq!(m.load_script(99), Err(ScriptLoadError::ScriptNotFound(99)));
    assert_eq!(m.get_script(99), None);
}

#[test]
fn manual_load_then_cache_hit() {
    let mut m = ScriptManager {
        available: vec![Script { name: SCRIPT_S1, on_tick: vec![] }],
        loaded: vec![],
    };
    let idx = m.load_script(SCRIPT_S1).unwrap();
    assert_eq!(idx, 0);
    assert_eq!(m.get_script(SCRIPT_S1), Some(0));
    assert_eq!(m.loaded.len(), 1);
}
