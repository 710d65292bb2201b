//! The script invocation bridge.
//!
//! A [`Script`] is an immutable, cached behavior definition: here it is
//! modeled by the commands its `tick` hook emits, the one part of a
//! behavior this core consumes. A [`ScriptContext`] binds a cached script
//! to an argument vector and per-instance state. Scripts and their hook
//! names are interned to integer ids by the surrounding engine; the
//! [`ScriptManager`] is the process-wide cache, loading from its catalog
//! on a miss and sharing an entry across every user afterwards.

use vstd::prelude::*;
use crate::collide::CollideType;

verus! {

/// The id of the per-tick hook every gameplay script may define.
pub const FN_TICK: u64 = 1;

/// A world-mutation request a script emits; kinds a pass does not
/// recognize are deliberately ignored there.
#[derive(Debug)]
pub enum ScriptGameCommand {
    /// Move the emitting entity along its local up axis.
    MoveUp(i64),
    /// Spawn an enemy bullet: sprite id, x, y, z, heading in millidegrees,
    /// shape, script id, script arguments.
    SummonBullet(u64, i64, i64, i64, i64, CollideType, u64, Vec<i64>),
}

/// Ghost image of a command, with the argument vector as a sequence.
#[verifier::ext_equal]
pub ghost enum CommandV {
    MoveUp(i64),
    SummonBullet(u64, i64, i64, i64, i64, CollideType, u64, Seq<i64>),
}

impl DeepView for ScriptGameCommand {
    type V = CommandV;

    open spec fn deep_view(&self) -> CommandV {
        match *self {
            ScriptGameCommand::MoveUp(v) => CommandV::MoveUp(v),
            ScriptGameCommand::SummonBullet(sprite, x, y, z, angle, collide, script, ref args) =>
                CommandV::SummonBullet(sprite, x, y, z, angle, collide, script, args@),
        }
    }
}

impl ScriptGameCommand {
    /// An owned copy of this command.
    pub fn duplicate(&self) -> (r: ScriptGameCommand)
        ensures
            r.deep_view() == self.deep_view(),
    {
        match self {
            ScriptGameCommand::MoveUp(v) => ScriptGameCommand::MoveUp(*v),
            ScriptGameCommand::SummonBullet(sprite, x, y, z, angle, collide, script, args) =>
                ScriptGameCommand::SummonBullet(
                    *sprite, *x, *y, *z, *angle, *collide, *script, copy_args(args),
                ),
        }
    }
}

/// An owned copy of a script argument vector.
pub fn copy_args(v: &Vec<i64>) -> (r: Vec<i64>)
    ensures
        r@ == v@,
{
    let mut out: Vec<i64> = Vec::new();
    let n = v.len();
    for k in 0..n
        invariant
            n == v@.len(),
            out@ =~= v@.take(k as int),
    {
        out.push(v[k]);
    }
    proof {
        assert(out@ =~= v@);
    }
    out
}

/// A cached, named behavior definition: the commands its tick hook emits.
#[derive(Debug)]
pub struct Script {
    /// Interned script name.
    pub name: u64,
    /// What one invocation of the tick hook emits, in emission order.
    pub on_tick: Vec<ScriptGameCommand>,
}

/// Ghost image of a script.
#[verifier::ext_equal]
pub ghost struct ScriptV {
    pub name: u64,
    pub on_tick: Seq<CommandV>,
}

impl DeepView for Script {
    type V = ScriptV;

    open spec fn deep_view(&self) -> ScriptV {
        ScriptV { name: self.name, on_tick: self.on_tick.deep_view() }
    }
}

impl Script {
    /// An owned copy of this script.
    pub fn duplicate(&self) -> (r: Script)
        ensures
            r.deep_view() == self.deep_view(),
    {
        let mut cmds: Vec<ScriptGameCommand> = Vec::new();
        let n = self.on_tick.len();
        for k in 0..n
            invariant
                n == self.on_tick@.len(),
                cmds.deep_view() =~= self.on_tick.deep_view().take(k as int),
        {
            let c = self.on_tick[k].duplicate();
            let ghost prev = cmds.deep_view();
            cmds.push(c);
            proof {
                assert(cmds.deep_view() =~= prev.push(c.deep_view()));
                assert(prev.push(c.deep_view()) =~= self.on_tick.deep_view().take(k + 1));
            }
        }
        proof {
            assert(cmds.deep_view() =~= self.on_tick.deep_view());
        }
        Script { name: self.name, on_tick: cmds }
    }
}

/// A script bound to one entity: the cache slot of its definition, its
/// own argument values, and per-instance execution state (how many times
/// its tick hook has run).
#[derive(Debug)]
pub struct ScriptContext {
    /// Index of the bound script in the manager's cache.
    pub script: usize,
    /// Arguments this instance was bound with.
    pub args: Vec<i64>,
    /// How many times a defined hook has run for this instance.
    pub ticks: u64,
}

/// Ghost image of a script context.
#[verifier::ext_equal]
pub ghost struct CtxV {
    pub script: usize,
    pub args: Seq<i64>,
    pub ticks: u64,
}

impl DeepView for ScriptContext {
    type V = CtxV;

    open spec fn deep_view(&self) -> CtxV {
        CtxV { script: self.script, args: self.args@, ticks: self.ticks }
    }
}

impl ScriptContext {
    /// Binds a cached script to an argument vector.
    pub fn new(script: usize, args: Vec<i64>) -> (r: ScriptContext)
        ensures
            r.deep_view() == (CtxV { script, args: args@, ticks: 0 }),
    {
        ScriptContext { script, args, ticks: 0 }
    }
}

/// Loading fails when the catalog resolves no script of the given name.
#[derive(Clone, Copy, PartialEq, Eq, Structural, Debug)]
pub enum ScriptLoadError {
    ScriptNotFound(u64),
}

/// The process-wide script cache over a fixed catalog of loadable
/// definitions.
#[derive(Debug)]
pub struct ScriptManager {
    /// What the surrounding engine could load: the content on disk.
    pub available: Vec<Script>,
    /// Cache of loaded scripts; entries are immutable once loaded and
    /// shared by index.
    pub loaded: Vec<Script>,
}

/// Ghost image of the manager.
#[verifier::ext_equal]
pub ghost struct ManagerV {
    pub available: Seq<ScriptV>,
    pub loaded: Seq<ScriptV>,
}

impl DeepView for ScriptManager {
    type V = ManagerV;

    open spec fn deep_view(&self) -> ManagerV {
        ManagerV { available: self.available.deep_view(), loaded: self.loaded.deep_view() }
    }
}

/// First position at or after `from` holding a script of this name.
pub open spec fn spec_find_script(s: Seq<ScriptV>, name: u64, from: int) -> Option<int>
    decreases s.len() - from,
{
    if from < 0 || from >= s.len() {
        None
    } else if s[from].name == name {
        Some(from)
    } else {
        spec_find_script(s, name, from + 1)
    }
}

/// What a cache hit-or-load leaves behind: the manager afterwards and the
/// cache slot of the requested script; `None` when the name resolves
/// nowhere. A hit touches nothing; a miss appends the catalog entry to
/// the cache, so earlier slots never move.
pub open spec fn spec_get_or_load(m: ManagerV, name: u64) -> Option<(ManagerV, int)> {
    match spec_find_script(m.loaded, name, 0) {
        Some(j) => Some((m, j)),
        None => match spec_find_script(m.available, name, 0) {
            Some(k) => Some((
                ManagerV { loaded: m.loaded.push(m.available[k]), ..m },
                m.loaded.len() as int,
            )),
            None => None,
        },
    }
}

impl ScriptManager {
    /// A manager over a catalog, with an empty cache.
    pub fn new(available: Vec<Script>) -> (r: ScriptManager)
        ensures
            r.deep_view() == (ManagerV { available: available.deep_view(), loaded: Seq::<ScriptV>::empty() }),
    {
        let r = ScriptManager { available, loaded: Vec::new() };
        proof {
            assert(r.loaded.deep_view() =~= Seq::<ScriptV>::empty());
        }
        r
    }

    /// Looks a name up in the cache alone.
    pub fn get_script(&self, name: u64) -> (r: Option<usize>)
        ensures
            match r {
                Some(i) => spec_find_script(self.deep_view().loaded, name, 0) == Some(i as int),
                None => spec_find_script(self.deep_view().loaded, name, 0) is None,
            },
    {
        let n = self.loaded.len();
        for i in 0..n
            invariant
                n == self.loaded@.len(),
                spec_find_script(self.deep_view().loaded, name, 0)
                    == spec_find_script(self.deep_view().loaded, name, i as int),
        {
            if self.loaded[i].name == name {
                return Some(i);
            }
        }
        None
    }

    /// Loads a name from the catalog into the cache, unconditionally: the
    /// caller is expected to have missed in the cache first. Fails exactly
    /// when the catalog resolves nothing.
    pub fn load_script(&mut self, name: u64) -> (r: Result<usize, ScriptLoadError>)
        ensures
            final(self).deep_view().available == old(self).deep_view().available,
            match spec_find_script(old(self).deep_view().available, name, 0) {
                Some(k) => {
                    &&& r == Ok::<usize, ScriptLoadError>(old(self).loaded@.len() as usize)
                    &&& final(self).deep_view().loaded
                        == old(self).deep_view().loaded.push(old(self).deep_view().available[k])
                },
                None => {
                    &&& r == Err::<usize, ScriptLoadError>(ScriptLoadError::ScriptNotFound(name))
                    &&& final(self).deep_view() == old(self).deep_view()
                },
            },
    {
        let n = self.available.len();
        for k in 0..n
            invariant
                n == self.available@.len(),
                *self == *old(self),
                spec_find_script(self.deep_view().available, name, 0)
                    == spec_find_script(self.deep_view().available, name, k as int),
        {
            if self.available[k].name == name {
                let s = self.available[k].duplicate();
                let idx = self.loaded.len();
                self.loaded.push(s);
                proof {
                    assert(self.deep_view().loaded
                        =~= old(self).deep_view().loaded.push(old(self).deep_view().available[k as int]));
                }
                return Ok(idx);
            }
        }
        Err(ScriptLoadError::ScriptNotFound(name))
    }

    /// The cache slot for a name: a hit reuses the cached entry and loads
    /// nothing; a miss loads from the catalog exactly once. Fails exactly
    /// when the name resolves nowhere at all.
    pub fn get_or_load_script(&mut self, name: u64) -> (r: Result<usize, ScriptLoadError>)
        ensures
            match spec_get_or_load(old(self).deep_view(), name) {
                Some(pair) => {
                    &&& final(self).deep_view() == pair.0
                    &&& r == Ok::<usize, ScriptLoadError>(pair.1 as usize)
                    &&& 0 <= pair.1 < final(self).deep_view().loaded.len()
                },
                None => {
                    &&& r == Err::<usize, ScriptLoadError>(ScriptLoadError::ScriptNotFound(name))
                    &&& final(self).deep_view() == old(self).deep_view()
                },
            },
    {
        if let Some(i) = self.get_script(name) {
            proof {
                lemma_find_script_in_range(self.deep_view().loaded, name, 0);
            }
            Ok(i)
        } else {
            let r = self.load_script(name);
            proof {
                if spec_find_script(old(self).deep_view().available, name, 0) is Some {
                    lemma_find_script_in_range(old(self).deep_view().available, name, 0);
                }
            }
            r
        }
    }
}

/// A found slot lies inside the sequence searched.
pub proof fn lemma_find_script_in_range(s: Seq<ScriptV>, name: u64, from: int)
    ensures
        spec_find_script(s, name, from) matches Some(j) ==> from <= j < s.len() && s[j].name == name,
    decreases s.len() - from,
{
    if from < 0 || from >= s.len() {
    } else if s[from].name == name {
    } else {
        lemma_find_script_in_range(s, name, from + 1);
    }
}

impl ScriptContext {
    /// Runs a named hook of the bound script: the engine's bridge invokes
    /// it synchronously and hands back the command queue it emitted, which
    /// the caller drains. A hook id the script does not define is a no-op,
    /// so optional lifecycle hooks need not all exist. Snapshots of world
    /// state that a full interpreter would read do not alter the emitted
    /// commands in this model.
    pub fn execute_function(&mut self, func: u64, manager: &ScriptManager) -> (r: Vec<ScriptGameCommand>)
        requires
            old(self).script < manager.loaded@.len(),
        ensures
            func == FN_TICK ==> {
                &&& final(self).deep_view() == (CtxV {
                    ticks: wrap_inc(old(self).ticks),
                    ..old(self).deep_view()
                })
                &&& r.deep_view() == manager.deep_view().loaded[old(self).script as int].on_tick
            },
            func != FN_TICK ==> final(self).deep_view() == old(self).deep_view() && r@.len() == 0,
    {
        if func == FN_TICK {
            self.ticks = if self.ticks == u64::MAX {
                0
            } else {
                self.ticks + 1
            };
            let s = &manager.loaded[self.script];
            let mut cmds: Vec<ScriptGameCommand> = Vec::new();
            let n = s.on_tick.len();
            for k in 0..n
                invariant
                    n == s.on_tick@.len(),
                    cmds.deep_view() =~= s.on_tick.deep_view().take(k as int),
            {
                let c = s.on_tick[k].duplicate();
                let ghost prev = cmds.deep_view();
                cmds.push(c);
                proof {
                    assert(cmds.deep_view() =~= prev.push(c.deep_view()));
                    assert(prev.push(c.deep_view()) =~= s.on_tick.deep_view().take(k + 1));
                }
            }
            proof {
                assert(cmds.deep_view() =~= s.on_tick.deep_view());
            }
            cmds
        } else {
            Vec::new()
        }
    }
}

/// A tick counter one step on, wrapping as the machine word does.
pub open spec fn wrap_inc(t: u64) -> u64 {
    if t == u64::MAX {
        0
    } else {
        (t + 1) as u64
    }
}

} // verus!
