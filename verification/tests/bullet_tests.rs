use pooltouhou::collide::CollideType;
use pooltouhou::script::{Script, ScriptContext, ScriptManager};
use pooltouhou::system::GameSystem;
use pooltouhou::transform::{Transform, Vec3};
use pooltouhou::world::{CoreStorage, Enemy, GameSystemData, PlayerBullet, TextureHandles};

fn world() -> GameSystemData {
    GameSystemData {
        core: CoreStorage { tick: 0, tick_sign: true, player: None, cur_input: None },
        texture_handles: TextureHandles { bullets: vec![7], player_bullet: Some(3) },
        player_bullets: vec![],
        enemies: vec![],
        enemy_bullets: vec![],
        animations: vec![],
        script_manager: ScriptManager {
            available: vec![],
            loaded: vec![Script { name: 1, on_tick: vec![] }],
        },
    }
}

fn tran_at(x: i64, y: i64) -> Transform {
    let mut t = Transform::identity();
    t.set_translation_xyz(x, y, 0);
    t
}

fn bullet_at(x: i64, y: i64) -> PlayerBullet {
    PlayerBullet { damage: 10_000, tran: tran_at(x, y), sprite: 3, alive: true }
}

fn step(data: &mut GameSystemData) {
    data.core.tick_sign = true;
    let mut gs = GameSystem;
    gs.run(data);
}

#[test]
fn player_bullets_move_thirty_units_up() {
    let mut data = world();
    data.player_bullets.push(bullet_at(800_000, 100_000));
    step(&mut data);
    assert!(data.player_bullets[0].alive);
    assert_eq!(data.player_bullets[0].tran.pos.y, 130_000);
    assert_eq!(data.player_bullets[0].tran.pos.x, 800_000);
}

#[test]
fn bullet_crossing_the_margin_is_removed_the_same_step() {
    let mut data = world();
    data.player_bullets.push(bullet_at(800_000, 990_000));
    step(&mut data);
    assert!(!data.player_bullets[0].alive);
    assert_eq!(data.player_bullets[0].tran.pos.y, 1_020_000);
}

#[test]
fn lethal_hit_deletes_enemy_and_spawns_six_animations() {
    let mut data = world();
    data.enemies.push(Enemy {
        hp: 5_000,
        collide: CollideType::Circle(25_000_000),
        script: ScriptContext { script: 0, args: vec![], ticks: 0 },
        tran: tran_at(100_000, 200_000),
        alive: true,
    });
    data.player_bullets.push(bullet_at(100_000, 200_000));
    step(&mut data);

    assert!(!data.enemies[0].alive);
    assert_eq!(data.enemies[0].hp, -5_000);
    assert!(!data.player_bullets[0].alive);
    assert_eq!(data.animations.len(), 6);

    let a0 = &data.animations[0];
    let c0 = a0.circle.unwrap();
    assert_eq!(c0.pos.pos, Vec3 { x: 100_000, y: 200_000, z: 0 });
    assert_eq!(c0.radius, 0);
    assert_eq!(a0.anim.last_seconds, 5000);
    assert_eq!(a0.anim.spread_per_second, 300_000);
    assert_eq!(a0.anim.delay_second, 0);
    assert!(a0.anim.transform.is_none());

    let corners = [
        (50_000, 250_000),
        (150_000, 250_000),
        (150_000, 150_000),
        (50_000, 150_000),
    ];
    for (k, (cx, cy)) in corners.iter().enumerate() {
        let a = &data.animations[k + 1];
        assert!(a.circle.is_none());
        assert_eq!(a.anim.last_seconds, 4750);
        assert_eq!(a.anim.spread_per_second, 375_000);
        assert_eq!(a.anim.delay_second, 250);
        let t = a.anim.transform.unwrap();
        assert_eq!(t.pos, Vec3 { x: *cx, y: *cy, z: 0 });
    }

    let a5 = &data.animations[5];
    assert_eq!(a5.anim.last_seconds, 4000);
    assert_eq!(a5.anim.spread_per_second, 500_000);
    assert_eq!(a5.anim.delay_second, 1000);
    assert_eq!(a5.anim.transform.unwrap().pos, Vec3 { x: 100_000, y: 200_000, z: 0 });
}

#[test]
fn surviving_enemy_keeps_the_rest_of_its_hit_points() {
    let mut data = world();
    data.enemies.push(Enemy {
        hp: 25_000,
        collide: CollideType::Circle(25_000_000),
        script: ScriptContext { script: 0, args: vec![], ticks: 0 },
        tran: tran_at(100_000, 200_000),
        alive: true,
    });
    data.player_bullets.push(bullet_at(100_000, 200_000));
    step(&mut data);
    assert!(data.enemies[0].alive);
    assert_eq!(data.enemies[0].hp, 15_000);
    assert!(!data.player_bullets[0].alive);
    assert_eq!(data.animations.len(), 0);
}

#[test]
fn a_spent_bullet_does_not_move() {
    let mut data = world();
    data.enemies.push(Enemy {
        hp: 25_000,
        collide: CollideType::Circle(25_000_000),
        script: ScriptContext { script: 0, args: vec![], ticks: 0 },
        tran: tran_at(100_000, 200_000),
        alive: true,
    });
    data.player_bullets.push(bullet_at(100_000, 200_000));
    step(&mut data);
    assert_eq!(data.player_bullets[0].tran.pos.y, 200_000);
}

#[test]
fn a_killed_enemy_does_not_run_its_script_that_step() {
    let mut data = world();
    data.script_manager.loaded.push(Script {
        name: 2,
        on_tick: vec![pooltouhou::script::ScriptGameCommand::SummonBullet(
            7,
            100_000,
            100_000,
            0,
            0,
            CollideType::Circle(0),
            1,
            vec![],
        )],
    });
    data.enemies.push(Enemy {
        hp: 5_000,
        collide: CollideType::Circle(25_000_000),
        script: ScriptContext { script: 1, args: vec![], ticks: 0 },
        tran: tran_at(100_000, 200_000),
        alive: true,
    });
    data.player_bullets.push(bullet_at(100_000, 200_000));
    step(&mut data);
    assert!(!data.enemies[0].alive);
    assert_eq!(data.enemies[0].script.ticks, 0);
    assert_eq!(data.enemy_bullets.len(), 0);
}

#[test]
fn first_enemy_in_store_order_takes_the_hit() {
    let mut data = world();
    for _ in 0..2 {
        data.enemies.push(Enemy {
            hp: 25_000,
            collide: CollideType::Circle(25_000_000),
            script: ScriptContext { script: 0, args: vec![], ticks: 0 },
            tran: tran_at(100_000, 200_000),
            alive: true,
        });
    }
    data.player_bullets.push(bullet_at(100_000, 200_000));
    step(&mut data);
    assert_eq!(data.enemies[0].hp, 15_000);
    assert_eq!(data.enemies[1].hp, 25_000);
}
