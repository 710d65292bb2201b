use pooltouhou::script::{Script, ScriptManager};
use pooltouhou::system::GameSystem;
use pooltouhou::transform::Transform;
use pooltouhou::world::{
    CoreStorage, GameSystemData, InputData, Player, PlayerEntity, TextureHandles,
};

fn world() -> GameSystemData {
    let mut tran = Transform::identity();
    tran.set_translation_xyz(800_000, 100_000, 0);
    GameSystemData {
        core: CoreStorage {
            tick: 0,
            tick_sign: false,
            player: Some(PlayerEntity { player: Player::new(5000), tran, indicator: None }),
            cur_input: Some(InputData { move_x: 1000, move_y: 0, shift: false, fire: false }),
        },
        texture_handles: TextureHandles { bullets: vec![7], player_bullet: Some(3) },
        player_bullets: vec![],
        enemies: vec![],
        enemy_bullets: vec![],
        animations: vec![],
        script_manager: ScriptManager {
            available: vec![],
            loaded: vec![Script { name: 1, on_tick: vec![] }],
        },
    }
}

#[test]
fn nothing_happens_while_the_tick_signal_is_down() {
    let mut data = world();
    let mut gs = GameSystem;
    gs.run(&mut data);
    assert_eq!(data.core.tick, 0);
    assert!(!data.core.tick_sign);
    assert_eq!(data.core.player.as_ref().unwrap().tran.pos.x, 800_000);
    assert_eq!(data.player_bullets.len(), 0);
}

#[test]
fn a_raised_signal_runs_exactly_one_step_and_is_consumed() {
    let mut data = world();
    data.core.tick_sign = true;
    let mut gs = GameSystem;
    gs.run(&mut data);
    assert_eq!(data.core.tick, 1);
    assert!(!data.core.tick_sign);
    assert_eq!(data.core.player.as_ref().unwrap().tran.pos.x, 805_000);

    gs.run(&mut data);
    assert_eq!(data.core.tick, 1);
    assert_eq!(data.core.player.as_ref().unwrap().tran.pos.x, 805_000);
}

#[test]
fn input_scaling_matches_the_speed() {
    let inp = InputData { move_x: 1000, move_y: -2000, shift: false, fire: false };
    assert_eq!(inp.get_move(5000), (5000, -10_000));
    assert_eq!(inp.get_move(0), (0, 0));
}
