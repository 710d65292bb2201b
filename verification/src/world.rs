//! The world the simulation step runs over.
//!
//! The engine's generic component store is flattened into typed arenas:
//! one row per entity kind, carrying the entity's components, its
//! transform and sprite columns, and a live flag. Deletion marks the row
//! free, so passes iterating sibling rows are never invalidated.

use vstd::prelude::*;
use crate::anime::{AnimationEntity, InvertColorCircle};
use crate::collide::CollideType;
use crate::fixed::{clamp_i, spec_scaled, scaled_wide, clamp_pos_wide, POS_LIMIT};
use crate::script::{ScriptContext, ScriptManager, ManagerV, ScriptV, CtxV, CommandV, spec_find_script};
use crate::transform::{Transform, Vec3};

verus! {

/// The player's own component: speeds, hitbox radius and fire cooldown.
#[derive(Clone, Copy, PartialEq, Eq, Structural, Debug)]
pub struct Player {
    pub move_speed: i64,
    pub walk_speed: i64,
    pub radius: i64,
    /// Ticks until the next shot may fire; 0 means ready.
    pub shoot_cooldown: u8,
}

impl Player {
    /// A fresh player moving at `speed`: walking at six tenths of it
    /// (saturated like every world quantity), with a 5-unit hitbox
    /// radius and the trigger ready.
    pub fn new(speed: i64) -> (r: Player)
        ensures
            r == (Player {
                move_speed: speed,
                walk_speed: clamp_i(
                    spec_scaled(speed as int, 600),
                    -POS_LIMIT as int,
                    POS_LIMIT as int,
                ) as i64,
                radius: 5000,
                shoot_cooldown: 0,
            }),
    {
        let walk = scaled_wide(speed, 600);
        Player {
            move_speed: speed,
            walk_speed: clamp_pos_wide(walk),
            radius: 5000,
            shoot_cooldown: 0,
        }
    }
}

/// What the input source reports for a step: the movement the held keys
/// ask for (a fixed-point direction vector), and the walk and fire keys.
#[derive(Clone, Copy, PartialEq, Eq, Structural, Debug)]
pub struct InputData {
    pub move_x: i64,
    pub move_y: i64,
    /// The focus key: walk instead of move, and show the hitbox.
    pub shift: bool,
    /// The fire key.
    pub fire: bool,
}

/// The movement vector the held keys yield at a given speed.
pub open spec fn spec_get_move(inp: InputData, speed: int) -> (int, int) {
    (
        clamp_i(spec_scaled(inp.move_x as int, speed), -POS_LIMIT as int, POS_LIMIT as int),
        clamp_i(spec_scaled(inp.move_y as int, speed), -POS_LIMIT as int, POS_LIMIT as int),
    )
}

impl InputData {
    /// Converts the held keys into a movement vector scaled by `speed`,
    /// saturating at the coordinate range.
    pub fn get_move(&self, speed: i64) -> (r: (i64, i64))
        ensures
            r.0 as int == spec_get_move(*self, speed as int).0,
            r.1 as int == spec_get_move(*self, speed as int).1,
    {
        (
            clamp_pos_wide(scaled_wide(self.move_x, speed)),
            clamp_pos_wide(scaled_wide(self.move_y, speed)),
        )
    }
}

/// The live player entity: component, transform, and the hitbox
/// indicator decoration while focusing.
#[derive(Clone, Copy, PartialEq, Eq, Structural, Debug)]
pub struct PlayerEntity {
    pub player: Player,
    pub tran: Transform,
    pub indicator: Option<InvertColorCircle>,
}

/// World-global per-step state: the tick counter, the one-shot
/// tick-ready flag an external driver raises, the single optional player,
/// and the input snapshot for the step.
#[derive(Clone, Copy, PartialEq, Eq, Structural, Debug)]
pub struct CoreStorage {
    pub tick: u64,
    pub tick_sign: bool,
    pub player: Option<PlayerEntity>,
    pub cur_input: Option<InputData>,
}

/// A player bullet row: damage, transform, sprite and live flag.
#[derive(Clone, Copy, PartialEq, Eq, Structural, Debug)]
pub struct PlayerBullet {
    pub damage: i64,
    pub tran: Transform,
    pub sprite: u64,
    pub alive: bool,
}

/// An enemy row: hit points, shape, bound script, transform, live flag.
#[derive(Debug)]
pub struct Enemy {
    pub hp: i64,
    pub collide: CollideType,
    pub script: ScriptContext,
    pub tran: Transform,
    pub alive: bool,
}

/// Ghost image of an enemy row.
#[verifier::ext_equal]
pub ghost struct EnemyV {
    pub hp: i64,
    pub collide: CollideType,
    pub script: CtxV,
    pub tran: Transform,
    pub alive: bool,
}

impl DeepView for Enemy {
    type V = EnemyV;

    open spec fn deep_view(&self) -> EnemyV {
        EnemyV {
            hp: self.hp,
            collide: self.collide,
            script: self.script.deep_view(),
            tran: self.tran,
            alive: self.alive,
        }
    }
}

/// An enemy bullet row: shape, bound script context, transform, sprite,
/// live flag.
#[derive(Debug)]
pub struct EnemyBullet {
    pub collide: CollideType,
    pub script: ScriptContext,
    pub tran: Transform,
    pub sprite: u64,
    pub alive: bool,
}

/// Ghost image of an enemy bullet row.
#[verifier::ext_equal]
pub ghost struct EnemyBulletV {
    pub collide: CollideType,
    pub script: CtxV,
    pub tran: Transform,
    pub sprite: u64,
    pub alive: bool,
}

impl DeepView for EnemyBullet {
    type V = EnemyBulletV;

    open spec fn deep_view(&self) -> EnemyBulletV {
        EnemyBulletV {
            collide: self.collide,
            script: self.script.deep_view(),
            tran: self.tran,
            sprite: self.sprite,
            alive: self.alive,
        }
    }
}

/// The sprite ids the renderer can resolve: bullet sprites by id, and
/// the player-bullet sprite. A name outside these is a fatal
/// configuration error in the engine.
#[derive(Debug)]
pub struct TextureHandles {
    pub bullets: Vec<u64>,
    pub player_bullet: Option<u64>,
}

/// Ghost image of the sprite registry.
#[verifier::ext_equal]
pub ghost struct TexV {
    pub bullets: Seq<u64>,
    pub player_bullet: Option<u64>,
}

impl DeepView for TextureHandles {
    type V = TexV;

    open spec fn deep_view(&self) -> TexV {
        TexV { bullets: self.bullets@, player_bullet: self.player_bullet }
    }
}

impl TextureHandles {
    /// Whether a bullet sprite id resolves.
    pub fn has_bullet(&self, sprite: u64) -> (r: bool)
        ensures
            r == self.deep_view().bullets.contains(sprite),
    {
        let n = self.bullets.len();
        for i in 0..n
            invariant
                n == self.bullets@.len(),
                forall|k: int| 0 <= k < i ==> self.bullets@[k] != sprite,
        {
            if self.bullets[i] == sprite {
                return true;
            }
        }
        proof {
            assert(!self.deep_view().bullets.contains(sprite));
        }
        false
    }
}

/// Everything one simulation step reads and writes.
#[derive(Debug)]
pub struct GameSystemData {
    pub core: CoreStorage,
    pub texture_handles: TextureHandles,
    pub player_bullets: Vec<PlayerBullet>,
    pub enemies: Vec<Enemy>,
    pub enemy_bullets: Vec<EnemyBullet>,
    pub animations: Vec<AnimationEntity>,
    pub script_manager: ScriptManager,
}

/// Ghost image of the whole world.
#[verifier::ext_equal]
pub ghost struct WorldV {
    pub core: CoreStorage,
    pub textures: TexV,
    pub player_bullets: Seq<PlayerBullet>,
    pub enemies: Seq<EnemyV>,
    pub enemy_bullets: Seq<EnemyBulletV>,
    pub animations: Seq<AnimationEntity>,
    pub manager: ManagerV,
}

impl View for GameSystemData {
    type V = WorldV;

    open spec fn view(&self) -> WorldV {
        WorldV {
            core: self.core,
            textures: self.texture_handles.deep_view(),
            player_bullets: self.player_bullets@,
            enemies: self.enemies.deep_view(),
            enemy_bullets: self.enemy_bullets.deep_view(),
            animations: self.animations@,
            manager: self.script_manager.deep_view(),
        }
    }
}

/// A command a script may emit is interpretable: a summoned bullet's
/// script resolves in the cache or the catalog, and its sprite resolves.
pub open spec fn cmd_wf(c: CommandV, m: ManagerV, tex: TexV) -> bool {
    match c {
        CommandV::MoveUp(_) => true,
        CommandV::SummonBullet(sprite, _x, _y, _z, _angle, _collide, script, _args) => {
            &&& (spec_find_script(m.loaded, script, 0) is Some
                || spec_find_script(m.available, script, 0) is Some)
            &&& tex.bullets.contains(sprite)
        },
    }
}

/// Every command a script emits is interpretable.
pub open spec fn script_wf(s: ScriptV, m: ManagerV, tex: TexV) -> bool {
    forall|k: int| 0 <= k < s.on_tick.len() ==> cmd_wf(#[trigger] s.on_tick[k], m, tex)
}

/// Every cached and every loadable script is interpretable.
pub open spec fn manager_wf(m: ManagerV, tex: TexV) -> bool {
    &&& forall|i: int| 0 <= i < m.loaded.len() ==> script_wf(#[trigger] m.loaded[i], m, tex)
    &&& forall|i: int| 0 <= i < m.available.len() ==> script_wf(#[trigger] m.available[i], m, tex)
}

/// Well-formed world: coordinates inside the saturation range, script
/// bindings pointing into the cache, live enemies with positive hit
/// points, interpretable scripts, resolvable player-bullet sprite, and
/// an input snapshot whenever a player exists. The surrounding engine's
/// wiring guarantees these; the step preserves them.
pub open spec fn wf(w: WorldV) -> bool {
    &&& (w.core.player matches Some(p) ==> p.tran.wf())
    &&& (w.core.player is Some ==> w.core.cur_input is Some)
    &&& forall|i: int| 0 <= i < w.player_bullets.len()
        ==> (#[trigger] w.player_bullets[i]).tran.wf()
    &&& forall|i: int| 0 <= i < w.enemies.len() ==> {
        let e = #[trigger] w.enemies[i];
        &&& e.tran.wf()
        &&& e.script.script < w.manager.loaded.len()
        &&& (e.alive ==> e.hp > 0)
    }
    &&& forall|i: int| 0 <= i < w.enemy_bullets.len() ==> {
        let b = #[trigger] w.enemy_bullets[i];
        &&& b.tran.wf()
        &&& b.script.script < w.manager.loaded.len()
    }
    &&& manager_wf(w.manager, w.textures)
    &&& w.textures.player_bullet is Some
}

} // verus!
