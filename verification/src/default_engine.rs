//! The data-driven engine: a move is a list of actions, which is
//! interpreted against each target into outcomes.

use crate::ailment::{clears_ailment, grants_ailment, Ailment, AilmentLength};
use crate::engine::{DamageFormula, MoveEngine};
use crate::moves::{
    drain_amount, drain_healing, Accuracy, DamageKind, MoveCancel, MoveData, MoveId, MoveResult,
    Percent,
};
use crate::player::{active_at, get_active, players_wf, BattlePlayer};
use crate::pokemon::{BattlePokemon, Indexed, PokemonIdentifier};
use crate::random::{roll_chance, roll_percent};
use crate::stat::{stage_can_move, BattleStatType, Stage, StatStages};
use crate::target::{create_targets, targets_allowed};
use rand::rngs::StdRng;
use std::collections::HashMap;
use vstd::prelude::*;

verus! {

/// How deep conditional lists may nest. A list nested deeper is never
/// interpreted.
pub const MAX_NESTING: usize = 8;

/// One action of a move's effect.
#[derive(Debug)]
pub enum MoveUse {
    /// Damages the target.
    Damage(DamageKind),
    /// With the given chance, grants the target the ailment for the length,
    /// or clears the target's ailment where none is named.
    Ailment(Option<(Ailment, AilmentLength)>, Percent),
    /// Damages the target and heals the user by the given percentage of the
    /// damage; a negative percentage takes health from the user.
    Drain(DamageKind, i8),
    /// Moves the stage of a statistic of the target.
    Stat(BattleStatType, Stage),
    /// Makes the target flinch.
    Flinch,
    /// With the given chance, interprets the nested actions.
    Chance(Vec<MoveUse>, Percent),
}

/// How a move is resolved.
#[derive(Debug)]
pub enum MoveExecution {
    /// By interpreting the listed actions.
    Actions(Vec<MoveUse>),
    /// By a script, which this engine does not hold.
    Script,
    /// Not at all: the move has no effect defined yet.
    Undefined,
}

/// The effects of the moves an engine knows.
pub type Moves = HashMap<MoveId, MoveExecution>;

/// What the interpretation of an action reads: who uses the move, whom it is
/// aimed at, and the state of the target that decides what is emitted.
#[derive(Clone, Copy, Debug)]
pub struct Scene {
    pub user: PokemonIdentifier,
    pub target: PokemonIdentifier,
    /// Whether the target carries an ailment.
    pub afflicted: bool,
    /// The stat stages of the target.
    pub stages: StatStages,
}

/// The scene of a move of `user` against the creature `creature`, which
/// `target` addresses.
pub open spec fn scene_of(
    user: PokemonIdentifier,
    target: PokemonIdentifier,
    creature: BattlePokemon,
) -> Scene {
    Scene { user, target, afflicted: creature.is_afflicted(), stages: creature.stages }
}

/// Whether an action is well formed down to `depth` levels of nesting:
/// chances are at most 100 and the range of a temporary ailment is not
/// empty.
pub open spec fn use_wf(action: MoveUse, depth: nat) -> bool
    decreases depth, 0nat,
{
    match action {
        MoveUse::Ailment(Some((_, length)), chance) => length.wf() && chance <= 100,
        MoveUse::Ailment(None, chance) => chance <= 100,
        MoveUse::Chance(nested, _) => depth > 0 ==> uses_wf(nested@, (depth - 1) as nat),
        _ => true,
    }
}

/// Whether every action of a list is well formed down to `depth` levels.
pub open spec fn uses_wf(actions: Seq<MoveUse>, depth: nat) -> bool
    decreases depth, 1nat,
{
    forall|i: int| 0 <= i < actions.len() ==> use_wf(#[trigger] actions[i], depth)
}

/// The number of outcomes that an action can have at most, counting nested
/// lists down to `depth` levels: two for a drain, those of the nested list
/// for a conditional list, one for any other.
pub open spec fn use_size(action: MoveUse, depth: nat) -> nat
    decreases depth, 0nat,
{
    match action {
        MoveUse::Chance(nested, _) => if depth == 0 {
            0
        } else {
            uses_size(nested@, (depth - 1) as nat)
        },
        MoveUse::Drain(..) => 2,
        _ => 1,
    }
}

/// The number of outcomes that a list of actions can have at most.
pub open spec fn uses_size(actions: Seq<MoveUse>, depth: nat) -> nat
    decreases depth, actions.len() + 1,
{
    if actions.len() == 0 {
        0
    } else {
        uses_size(actions.drop_last(), depth) + use_size(actions.last(), depth)
    }
}

/// A count held to what a machine word can hold.
pub open spec fn saturated(count: nat) -> usize {
    if count > usize::MAX {
        usize::MAX
    } else {
        count as usize
    }
}

/// The two parts of `outs` before and from position `at`.
pub open spec fn split(outs: Seq<Indexed<MoveResult>>, at: int) -> (
    Seq<Indexed<MoveResult>>,
    Seq<Indexed<MoveResult>>,
) {
    (outs.take(at), outs.skip(at))
}

/// Whether `outs` is what interpreting one action in `scene` can emit.
///
/// - Damage: one damage outcome for the target.
/// - Ailment grant: one status outcome for the target, with the ailment
///   and a duration that the length allows, if the chance is above zero and
///   the target carries no ailment; nothing, unless the chance is 100 and the
///   target carries no ailment.
/// - Ailment clear: one clearing outcome for the target, if the chance is
///   above zero and the target carries an ailment; nothing, unless the
///   chance is 100 and the target carries one.
/// - Drain: a damage outcome for the target, then a healing outcome for the
///   user with the drained amount of that damage.
/// - Stat: one stat outcome for the target if the stage can move, else
///   nothing.
/// - Flinch: one flinch outcome for the target.
/// - Conditional list: what the nested list can emit, if the chance is
///   above zero; nothing, unless the chance is 100 or more. A list nested
///   deeper than `depth` emits nothing.
pub open spec fn admits_one(
    action: MoveUse,
    scene: Scene,
    outs: Seq<Indexed<MoveResult>>,
    depth: nat,
) -> bool
    decreases depth, 0nat,
{
    match action {
        MoveUse::Damage(_) => outs.len() == 1 && outs[0].0 == scene.target && outs[0].1 is Damage,
        MoveUse::Ailment(Some((ailment, length)), chance) => {
            ||| outs.len() == 0 && (chance < 100 || scene.afflicted)
            ||| chance > 0 && !scene.afflicted && outs.len() == 1 && outs[0].0 == scene.target && (
            outs[0].1 matches MoveResult::Ailment(Some(live)) && live.ailment == ailment
                && length.allows(live.turns))
        },
        MoveUse::Ailment(None, chance) => {
            ||| outs.len() == 0 && (chance < 100 || !scene.afflicted)
            ||| chance > 0 && scene.afflicted && outs == seq![
                Indexed(scene.target, MoveResult::Ailment(None)),
            ]
        },
        MoveUse::Drain(_, percent) => {
            &&& outs.len() == 2
            &&& outs[0].0 == scene.target
            &&& outs[0].1 matches MoveResult::Damage(damage) && outs[1] == Indexed(
                scene.user,
                MoveResult::Heal(drain_amount(damage.damage as int, percent as int) as i32),
            )
        },
        MoveUse::Stat(stat, delta) => if stage_can_move(
            scene.stages.stage(stat) as int,
            delta as int,
        ) {
            outs == seq![Indexed(scene.target, MoveResult::Stat(stat, delta))]
        } else {
            outs.len() == 0
        },
        MoveUse::Flinch => outs == seq![
            Indexed(scene.target, MoveResult::Cancel(MoveCancel::Flinch)),
        ],
        MoveUse::Chance(nested, chance) => {
            ||| outs.len() == 0 && (chance < 100 || depth == 0)
            ||| chance > 0 && depth > 0 && admits(nested@, scene, outs, (depth - 1) as nat)
        },
    }
}

/// Whether `outs` is what interpreting a list of actions in `scene` can
/// emit: what the actions can emit, one after the other.
pub open spec fn admits(
    actions: Seq<MoveUse>,
    scene: Scene,
    outs: Seq<Indexed<MoveResult>>,
    depth: nat,
) -> bool
    decreases depth, actions.len() + 1,
{
    if actions.len() == 0 {
        outs.len() == 0
    } else {
        exists|at: int|
            {
                &&& 0 <= at <= outs.len()
                &&& admits(actions.drop_last(), scene, (#[trigger] split(outs, at)).0, depth)
                &&& admits_one(actions.last(), scene, split(outs, at).1, depth)
            }
    }
}

/// What a list of actions can emit and what one more action can emit after
/// it is what the longer list can emit.
pub proof fn lemma_admits_extend(
    actions: Seq<MoveUse>,
    scene: Scene,
    outs: Seq<Indexed<MoveResult>>,
    at: int,
    depth: nat,
)
    requires
        actions.len() > 0,
        0 <= at <= outs.len(),
        admits(actions.drop_last(), scene, outs.take(at), depth),
        admits_one(actions.last(), scene, outs.skip(at), depth),
    ensures
        admits(actions, scene, outs, depth),
{
    assert(split(outs, at).0 == outs.take(at));
}

/// Whether a roll below 100 triggers a conditional list of the given
/// chance: the roll lies below the chance.
pub fn chance_triggers(roll: u8, chance: Percent) -> (triggers: bool)
    ensures
        triggers == (roll < chance),
{
    roll < chance
}

/// Whether a move of the given accuracy lands on a roll below 100: always
/// without an accuracy, else if the roll lies below the accuracy.
pub fn accuracy_hits(accuracy: Option<Accuracy>, roll: u8) -> (hits: bool)
    ensures
        hits == match accuracy {
            Some(accuracy) => roll < accuracy,
            None => true,
        },
{
    match accuracy {
        Some(accuracy) => roll < accuracy,
        None => true,
    }
}

/// Rolls whether a move of the given accuracy lands.
pub fn throw_move(random: &mut StdRng, accuracy: Option<Accuracy>) -> (hits: bool)
    ensures
        accuracy is None ==> hits,
        accuracy matches Some(a) && a >= 100 ==> hits,
        accuracy == Some(0u8) ==> !hits,
{
    match accuracy {
        Some(_) => {
            let roll: u8 = roll_percent(random);
            accuracy_hits(accuracy, roll)
        },
        None => true,
    }
}

/// Interprets an ailment action whose chance was rolled as `hit`, against
/// `target`. A grant that hit a target without an ailment emits one status
/// outcome with the ailment and a duration drawn for the length; a clear
/// that hit a target with an ailment emits one clearing outcome. In every
/// other case nothing is emitted.
pub fn ailment_usage(
    hit: bool,
    effect: Option<(Ailment, AilmentLength)>,
    random: &mut StdRng,
    results: &mut Vec<Indexed<MoveResult>>,
    target_id: PokemonIdentifier,
    target: &BattlePokemon,
)
    requires
        effect matches Some((_, length)) ==> length.wf(),
    ensures
        match effect {
            Some((ailment, length)) => if hit && !target.is_afflicted() {
                &&& final(results)@.len() == old(results)@.len() + 1
                &&& final(results)@.drop_last() == old(results)@
                &&& final(results)@.last().0 == target_id
                &&& final(results)@.last().1 matches MoveResult::Ailment(Some(live))
                    && live.ailment == ailment && length.allows(live.turns)
            } else {
                final(results)@ == old(results)@
            },
            None => final(results)@ == (if hit && target.is_afflicted() {
                old(results)@.push(Indexed(target_id, MoveResult::Ailment(None)))
            } else {
                old(results)@
            }),
        },
{
    match effect {
        Some((ailment, length)) => {
            if grants_ailment(hit, target.ailment.is_some()) {
                let live = length.init(ailment, random);
                results.push(Indexed(target_id, MoveResult::Ailment(Some(live))));
            }
        },
        None => {
            if clears_ailment(hit, target.ailment.is_some()) {
                results.push(Indexed(target_id, MoveResult::Ailment(None)));
            }
        },
    }
}

/// Interprets a conditional list whose roll came out as `triggers`: a list
/// that triggers is interpreted against `target`, one that does not emits
/// nothing. A list nested deeper than `depth` allows is never interpreted.
pub fn chance_usage<D: DamageFormula>(
    triggers: bool,
    formula: &D,
    user_id: PokemonIdentifier,
    user: &BattlePokemon,
    random: &mut StdRng,
    results: &mut Vec<Indexed<MoveResult>>,
    nested: &Vec<MoveUse>,
    m: &MoveData,
    target_id: PokemonIdentifier,
    target: &BattlePokemon,
    depth: usize,
)
    requires
        depth > 0 ==> uses_wf(nested@, (depth - 1) as nat),
    ensures
        final(results)@.len() >= old(results)@.len(),
        final(results)@.take(old(results)@.len() as int) == old(results)@,
        if triggers && depth > 0 {
            admits(
                nested@,
                scene_of(user_id, target_id, *target),
                final(results)@.skip(old(results)@.len() as int),
                (depth - 1) as nat,
            )
        } else {
            final(results)@ == old(results)@
        },
    decreases depth, 0nat,
{
    if triggers && depth > 0 {
        move_usage(
            formula,
            user_id,
            user,
            random,
            results,
            nested,
            m,
            target_id,
            target,
            depth - 1,
        );
    }
}

/// Resolves a move against one target whose accuracy roll came out as
/// `hits`: a move that does not land emits one miss for the user and
/// nothing else; one that lands emits what its actions emit against the
/// target.
pub fn resolve_target<D: DamageFormula>(
    hits: bool,
    formula: &D,
    user_id: PokemonIdentifier,
    user: &BattlePokemon,
    random: &mut StdRng,
    results: &mut Vec<Indexed<MoveResult>>,
    actions: &Vec<MoveUse>,
    m: &MoveData,
    target_id: PokemonIdentifier,
    target: &BattlePokemon,
)
    requires
        uses_wf(actions@, MAX_NESTING as nat),
    ensures
        final(results)@.len() >= old(results)@.len(),
        final(results)@.take(old(results)@.len() as int) == old(results)@,
        if hits {
            admits(
                actions@,
                scene_of(user_id, target_id, *target),
                final(results)@.skip(old(results)@.len() as int),
                MAX_NESTING as nat,
            )
        } else {
            final(results)@ == old(results)@.push(Indexed(user_id, MoveResult::Miss))
        },
{
    if hits {
        let estimate: usize = uses_size_within(actions, MAX_NESTING);
        let _ = results.try_reserve(estimate);
        move_usage(
            formula,
            user_id,
            user,
            random,
            results,
            actions,
            m,
            target_id,
            target,
            MAX_NESTING,
        );
    } else {
        results.push(Indexed(user_id, MoveResult::Miss));
    }
}

/// Interprets a list of actions of the move `m`, used by `user` against
/// `target`, and appends what they emit to `results`.
pub fn move_usage<D: DamageFormula>(
    formula: &D,
    user_id: PokemonIdentifier,
    user: &BattlePokemon,
    random: &mut StdRng,
    results: &mut Vec<Indexed<MoveResult>>,
    actions: &Vec<MoveUse>,
    m: &MoveData,
    target_id: PokemonIdentifier,
    target: &BattlePokemon,
    depth: usize,
)
    requires
        uses_wf(actions@, depth as nat),
    ensures
        final(results)@.len() >= old(results)@.len(),
        final(results)@.take(old(results)@.len() as int) == old(results)@,
        admits(
            actions@,
            scene_of(user_id, target_id, *target),
            final(results)@.skip(old(results)@.len() as int),
            depth as nat,
        ),
    decreases depth, 1nat,
{
    let ghost start = results@.len() as int;
    let ghost scene = scene_of(user_id, target_id, *target);
    let mut i: usize = 0;
    while i < actions.len()
        invariant
            i <= actions.len(),
            uses_wf(actions@, depth as nat),
            scene == scene_of(user_id, target_id, *target),
            start == old(results)@.len(),
            results@.len() >= start,
            results@.take(start) == old(results)@,
            admits(actions@.take(i as int), scene, results@.skip(start), depth as nat),
        decreases actions.len() - i,
    {
        let ghost before = results@;
        match &actions[i] {
            MoveUse::Damage(kind) => {
                let damage = formula.damage_kind(
                    random,
                    user,
                    target,
                    *kind,
                    m.category,
                    m.pokemon_type,
                    m.crit_rate,
                );
                results.push(Indexed(target_id, MoveResult::Damage(damage)));
            },
            MoveUse::Ailment(effect, chance) => {
                let hit: bool = roll_chance(random, *chance);
                ailment_usage(hit, *effect, random, results, target_id, target);
                assert(results@.len() > before.len() ==> results@.skip(before.len() as int) =~= seq![
                    results@.last(),
                ]);
            },
            MoveUse::Drain(kind, percent) => {
                let damage = formula.damage_kind(
                    random,
                    user,
                    target,
                    *kind,
                    m.category,
                    m.pokemon_type,
                    m.crit_rate,
                );
                let healing: i32 = drain_healing(damage.damage, *percent);
                results.push(Indexed(target_id, MoveResult::Damage(damage)));
                results.push(Indexed(user_id, MoveResult::Heal(healing)));
            },
            MoveUse::Stat(stat, stage) => {
                if target.stages.can_change(*stat, *stage) {
                    results.push(Indexed(target_id, MoveResult::Stat(*stat, *stage)));
                    assert(results@.skip(before.len() as int) =~= seq![
                        Indexed(target_id, MoveResult::Stat(*stat, *stage)),
                    ]);
                }
            },
            MoveUse::Flinch => {
                results.push(Indexed(target_id, MoveResult::Cancel(MoveCancel::Flinch)));
                assert(results@.skip(before.len() as int) =~= seq![
                    Indexed(target_id, MoveResult::Cancel(MoveCancel::Flinch)),
                ]);
            },
            MoveUse::Chance(nested, chance) => {
                let roll: u8 = roll_percent(random);
                let triggers: bool = chance_triggers(roll, *chance);
                chance_usage(
                    triggers,
                    formula,
                    user_id,
                    user,
                    random,
                    results,
                    nested,
                    m,
                    target_id,
                    target,
                    depth,
                );
            },
        }
        proof {
            let done = actions@.take(i + 1);
            let outs = results@.skip(start);
            let at = before.len() - start;
            assert(done.drop_last() =~= actions@.take(i as int));
            assert(outs.take(at) =~= before.skip(start));
            assert(outs.skip(at) =~= results@.skip(before.len() as int));
            lemma_admits_extend(done, scene, outs, at, depth as nat);
        }
        i += 1;
    }
    assert(actions@.take(actions.len() as int) =~= actions@);
}

/// The sum of two counts, held to what a machine word can hold.
fn add_saturating(a: usize, b: usize) -> (sum: usize)
    ensures
        sum == (if a + b > usize::MAX {
            usize::MAX
        } else {
            (a + b) as usize
        }),
{
    if a > usize::MAX - b {
        usize::MAX
    } else {
        a + b
    }
}

/// The number of outcomes that a list of actions can have at most, down to
/// `depth` levels of nesting.
fn uses_size_within(actions: &Vec<MoveUse>, depth: usize) -> (size: usize)
    ensures
        size == saturated(uses_size(actions@, depth as nat)),
    decreases depth, 1nat,
{
    let mut size: usize = 0;
    let mut i: usize = 0;
    while i < actions.len()
        invariant
            i <= actions.len(),
            size == saturated(uses_size(actions@.take(i as int), depth as nat)),
        decreases actions.len() - i,
    {
        assert(actions@.take(i + 1).drop_last() =~= actions@.take(i as int));
        let one: usize = actions[i].size_within(depth);
        size = add_saturating(size, one);
        i += 1;
    }
    assert(actions@.take(actions.len() as int) =~= actions@);
    size
}

impl MoveUse {
    /// The number of outcomes that the action can have at most, down to
    /// `depth` levels of nesting.
    fn size_within(&self, depth: usize) -> (size: usize)
        ensures
            size == saturated(use_size(*self, depth as nat)),
        decreases depth, 0nat,
    {
        match self {
            MoveUse::Chance(nested, _) => {
                if depth == 0 {
                    0
                } else {
                    uses_size_within(nested, depth - 1)
                }
            },
            MoveUse::Drain(..) => 2,
            _ => 1,
        }
    }

    /// An estimate of the number of outcomes of the action: the most it
    /// can have, held to what a machine word can hold.
    pub fn size(&self) -> (size: usize)
        ensures
            size == saturated(use_size(*self, MAX_NESTING as nat)),
    {
        self.size_within(MAX_NESTING)
    }

    /// Whether the action is well formed down to `depth` levels.
    fn is_valid_within(&self, depth: usize) -> (valid: bool)
        ensures
            valid == use_wf(*self, depth as nat),
        decreases depth, 0nat,
    {
        match self {
            MoveUse::Ailment(Some((_, length)), chance) => length.is_valid() && *chance <= 100,
            MoveUse::Ailment(None, chance) => *chance <= 100,
            MoveUse::Chance(nested, _) => {
                if depth > 0 {
                    actions_valid(nested, depth - 1)
                } else {
                    true
                }
            },
            _ => true,
        }
    }
}

/// Whether every action of a list is well formed down to `depth` levels.
pub fn actions_valid(actions: &Vec<MoveUse>, depth: usize) -> (valid: bool)
    ensures
        valid == uses_wf(actions@, depth as nat),
    decreases depth, 1nat,
{
    let mut i: usize = 0;
    while i < actions.len()
        invariant
            i <= actions.len(),
            forall|k: int| 0 <= k < i ==> use_wf(#[trigger] actions@[k], depth as nat),
        decreases actions.len() - i,
    {
        if !actions[i].is_valid_within(depth) {
            return false;
        }
        i += 1;
    }
    true
}

impl MoveExecution {
    /// Whether the effect can be interpreted: its actions are well formed.
    pub open spec fn wf(&self) -> bool {
        match self {
            MoveExecution::Actions(actions) => uses_wf(actions@, MAX_NESTING as nat),
            _ => true,
        }
    }

    /// The estimate of the number of outcomes that sizes the buffer for
    /// them: that of the actions, or one where there are none to count.
    pub open spec fn size_spec(&self) -> usize {
        match self {
            MoveExecution::Actions(actions) => saturated(uses_size(actions@, MAX_NESTING as nat)),
            _ => 1,
        }
    }

    /// The estimate of the number of outcomes.
    pub fn size(&self) -> (size: usize)
        ensures
            size == self.size_spec(),
    {
        match self {
            MoveExecution::Actions(actions) => uses_size_within(actions, MAX_NESTING),
            _ => 1,
        }
    }

    /// Whether the effect can be interpreted.
    pub fn is_valid(&self) -> (valid: bool)
        ensures
            valid == self.wf(),
    {
        match self {
            MoveExecution::Actions(actions) => actions_valid(actions, MAX_NESTING),
            _ => true,
        }
    }
}

/// Why the data-driven engine could not resolve a move.
#[derive(Clone, Copy, Debug, PartialEq, Eq, Structural)]
pub enum DefaultMoveError {
    /// The move is resolved by a script, and the engine holds none.
    NoScriptEngine,
    /// The engine knows no effect for the move.
    Missing,
    /// The creature that uses the move is not in its slot.
    NoTarget,
}

impl DefaultMoveError {
    /// The error in words.
    pub fn message(&self) -> (text: &'static str)
        ensures
            text@ == match self {
                DefaultMoveError::NoScriptEngine => "NoScriptEngine"@,
                DefaultMoveError::Missing => "Missing"@,
                DefaultMoveError::NoTarget => "NoTarget"@,
            },
    {
        match self {
            DefaultMoveError::NoScriptEngine => "NoScriptEngine",
            DefaultMoveError::Missing => "Missing",
            DefaultMoveError::NoTarget => "NoTarget",
        }
    }
}

/// Whether `outs` is what a move of accuracy `accuracy` with the actions
/// `actions` can emit against one target. A target that addresses no
/// creature gives nothing. Otherwise the move misses, which gives one miss
/// for the user, unless it has no accuracy or one of 100 or more; or it
/// lands, which gives what the actions can emit, unless its accuracy is
/// zero.
pub open spec fn target_admits(
    players: Seq<BattlePlayer>,
    user: PokemonIdentifier,
    accuracy: Option<Accuracy>,
    actions: Seq<MoveUse>,
    target: PokemonIdentifier,
    outs: Seq<Indexed<MoveResult>>,
) -> bool {
    match active_at(players, target) {
        None => outs.len() == 0,
        Some(creature) => {
            ||| (accuracy matches Some(a) && a < 100) && outs == seq![
                Indexed(user, MoveResult::Miss),
            ]
            ||| accuracy != Some(0u8) && admits(
                actions,
                scene_of(user, target, creature),
                outs,
                MAX_NESTING as nat,
            )
        },
    }
}

/// Whether `outs` is what a move can emit against the targets `targets`,
/// one after the other.
pub open spec fn targets_admit(
    players: Seq<BattlePlayer>,
    user: PokemonIdentifier,
    accuracy: Option<Accuracy>,
    actions: Seq<MoveUse>,
    targets: Seq<PokemonIdentifier>,
    outs: Seq<Indexed<MoveResult>>,
) -> bool
    decreases targets.len(),
{
    if targets.len() == 0 {
        outs.len() == 0
    } else {
        exists|at: int|
            {
                &&& 0 <= at <= outs.len()
                &&& targets_admit(
                    players,
                    user,
                    accuracy,
                    actions,
                    targets.drop_last(),
                    (#[trigger] split(outs, at)).0,
                )
                &&& target_admits(
                    players,
                    user,
                    accuracy,
                    actions,
                    targets.last(),
                    split(outs, at).1,
                )
            }
    }
}

/// What a move can emit against some targets and what it can emit against
/// one more target after them is what it can emit against all of them.
pub proof fn lemma_targets_extend(
    players: Seq<BattlePlayer>,
    user: PokemonIdentifier,
    accuracy: Option<Accuracy>,
    actions: Seq<MoveUse>,
    targets: Seq<PokemonIdentifier>,
    outs: Seq<Indexed<MoveResult>>,
    at: int,
)
    requires
        targets.len() > 0,
        0 <= at <= outs.len(),
        targets_admit(players, user, accuracy, actions, targets.drop_last(), outs.take(at)),
        target_admits(players, user, accuracy, actions, targets.last(), outs.skip(at)),
    ensures
        targets_admit(players, user, accuracy, actions, targets, outs),
{
    assert(split(outs, at).0 == outs.take(at));
}

/// An ailment grant against a target that carries an ailment emits
/// nothing, and so does an ailment clear against a target that carries
/// none: whatever the rolls, the target's ailment is left as it is.
pub proof fn lemma_ailment_is_exclusive(
    effect: Option<(Ailment, AilmentLength)>,
    chance: Percent,
    scene: Scene,
    outs: Seq<Indexed<MoveResult>>,
    depth: nat,
)
    requires
        admits_one(MoveUse::Ailment(effect, chance), scene, outs, depth),
        (effect is Some) == scene.afflicted,
    ensures
        outs.len() == 0,
{
}

/// A flinching action always emits its one outcome, and a damaging action
/// always emits one damage outcome for the target.
pub proof fn lemma_unconditional_actions(scene: Scene, outs: Seq<Indexed<MoveResult>>, depth: nat)
    ensures
        admits_one(MoveUse::Flinch, scene, outs, depth) ==> outs.len() == 1 && outs[0] == Indexed(
            scene.target,
            MoveResult::Cancel(MoveCancel::Flinch),
        ),
        forall|kind: DamageKind| #[trigger]
            admits_one(MoveUse::Damage(kind), scene, outs, depth) ==> outs.len() == 1
                && outs[0].0 == scene.target,
{
}

/// The estimate of the number of outcomes is never too low: what a list of
/// actions emits is at most as long as the size of the list.
pub proof fn lemma_size_bounds_outcomes(
    actions: Seq<MoveUse>,
    scene: Scene,
    outs: Seq<Indexed<MoveResult>>,
    depth: nat,
)
    requires
        admits(actions, scene, outs, depth),
    ensures
        outs.len() <= uses_size(actions, depth),
    decreases depth, actions.len() + 1,
{
    if actions.len() > 0 {
        let at = choose|at: int|
            {
                &&& 0 <= at <= outs.len()
                &&& admits(actions.drop_last(), scene, (#[trigger] split(outs, at)).0, depth)
                &&& admits_one(actions.last(), scene, split(outs, at).1, depth)
            };
        lemma_size_bounds_outcomes(actions.drop_last(), scene, outs.take(at), depth);
        lemma_size_bounds_outcome(actions.last(), scene, outs.skip(at), depth);
    }
}

/// What one action emits is at most as long as the size of the action.
pub proof fn lemma_size_bounds_outcome(
    action: MoveUse,
    scene: Scene,
    outs: Seq<Indexed<MoveResult>>,
    depth: nat,
)
    requires
        admits_one(action, scene, outs, depth),
    ensures
        outs.len() <= use_size(action, depth),
    decreases depth, 0nat,
{
    match action {
        MoveUse::Chance(nested, chance) => {
            if outs.len() > 0 {
                lemma_size_bounds_outcomes(nested@, scene, outs, (depth - 1) as nat);
            }
        },
        _ => {},
    }
}

/// The engine that resolves moves from a table of effects.
pub struct DefaultMoveEngine<D: DamageFormula> {
    /// The effect of each move the engine knows.
    pub moves: Moves,
    /// The formula that computes damage.
    pub formula: D,
}

impl<D: DamageFormula> DefaultMoveEngine<D> {
    /// An engine that knows no move yet.
    pub fn new(formula: D) -> (engine: Self)
        ensures
            engine.moves@ == Map::<MoveId, MoveExecution>::empty(),
            engine.formula == formula,
    {
        DefaultMoveEngine { moves: HashMap::new(), formula }
    }

    /// Interprets the actions of the move `m`, used by the creature `user`
    /// that `user_id` addresses, against each of `targets` in order: for
    /// each target that addresses a creature an accuracy check is rolled; a
    /// miss emits one miss for the user, a hit emits what the actions emit.
    pub fn execute_on(
        &self,
        random: &mut StdRng,
        m: &MoveData,
        actions: &Vec<MoveUse>,
        user_id: PokemonIdentifier,
        user: &BattlePokemon,
        targets: &Vec<PokemonIdentifier>,
        players: &Vec<BattlePlayer>,
    ) -> (results: Vec<Indexed<MoveResult>>)
        requires
            players_wf(players@),
            uses_wf(actions@, MAX_NESTING as nat),
        ensures
            targets_admit(players@, user_id, m.accuracy, actions@, targets@, results@),
    {
        let mut results: Vec<Indexed<MoveResult>> = Vec::new();
        let mut i: usize = 0;
        while i < targets.len()
            invariant
                i <= targets.len(),
                players_wf(players@),
                uses_wf(actions@, MAX_NESTING as nat),
                targets_admit(
                    players@,
                    user_id,
                    m.accuracy,
                    actions@,
                    targets@.take(i as int),
                    results@,
                ),
            decreases targets.len() - i,
        {
            let ghost before = results@;
            let target_id: PokemonIdentifier = targets[i];
            match get_active(players, target_id) {
                Some(target) => {
                    let hits: bool = throw_move(random, m.accuracy);
                    resolve_target(
                        hits,
                        &self.formula,
                        user_id,
                        user,
                        random,
                        &mut results,
                        actions,
                        m,
                        target_id,
                        target,
                    );
                    assert(!hits ==> results@.skip(before.len() as int) =~= seq![
                        Indexed(user_id, MoveResult::Miss),
                    ]);
                },
                None => {},
            }
            proof {
                let done = targets@.take(i + 1);
                assert(done.drop_last() =~= targets@.take(i as int));
                assert(results@.take(before.len() as int) =~= before);
                lemma_targets_extend(
                    players@,
                    user_id,
                    m.accuracy,
                    actions@,
                    done,
                    results@,
                    before.len() as int,
                );
            }
            i += 1;
        }
        assert(targets@.take(targets.len() as int) =~= targets@);
        results
    }
}

impl<D: DamageFormula> MoveEngine for DefaultMoveEngine<D> {
    type Error = DefaultMoveError;

    /// Resolves the move `m`: fails with `Missing` where the table holds no
    /// effect for it, an undefined one or one whose actions are not well
    /// formed, with `NoScriptEngine` where the effect is a script, and with
    /// `NoTarget` where `user` addresses no creature; else interprets the
    /// actions against the creatures the move is aimed at.
    fn execute(
        &self,
        random: &mut StdRng,
        m: &MoveData,
        user: PokemonIdentifier,
        targeting: Option<PokemonIdentifier>,
        players: &Vec<BattlePlayer>,
    ) -> (output: Result<Vec<Indexed<MoveResult>>, DefaultMoveError>)
        ensures
            (output == Err::<Vec<Indexed<MoveResult>>, DefaultMoveError>(DefaultMoveError::Missing))
                <==> (!self.moves@.contains_key(m.id) || self.moves@[m.id] is Undefined
                || !self.moves@[m.id].wf()),
            (output == Err::<Vec<Indexed<MoveResult>>, DefaultMoveError>(
                DefaultMoveError::NoScriptEngine,
            )) <==> (self.moves@.contains_key(m.id) && self.moves@[m.id] is Script),
            (output == Err::<Vec<Indexed<MoveResult>>, DefaultMoveError>(
                DefaultMoveError::NoTarget,
            )) <==> (self.moves@.contains_key(m.id) && self.moves@[m.id] is Actions
                && self.moves@[m.id].wf() && active_at(players@, user) is None),
            output matches Ok(results) ==> (self.moves@[m.id] matches MoveExecution::Actions(
                actions,
            ) && exists|targets: Seq<PokemonIdentifier>|
                #![trigger targets_allowed(players@, m.target, user, targeting, targets)]
                targets_allowed(players@, m.target, user, targeting, targets) && targets_admit(
                    players@,
                    user,
                    m.accuracy,
                    actions@,
                    targets,
                    results@,
                )),
    {
        match self.moves.get(&m.id) {
            Some(usage) => {
                let targets = create_targets(players, user, m.target, targeting, random);
                match usage {
                    MoveExecution::Actions(actions) => {
                        if !usage.is_valid() {
                            return Err(DefaultMoveError::Missing);
                        }
                        match get_active(players, user) {
                            Some(creature) => {
                                let results = self.execute_on(
                                    random,
                                    m,
                                    actions,
                                    user,
                                    creature,
                                    &targets,
                                    players,
                                );
                                Ok(results)
                            },
                            None => Err(DefaultMoveError::NoTarget),
                        }
                    },
                    MoveExecution::Script => Err(DefaultMoveError::NoScriptEngine),
                    MoveExecution::Undefined => Err(DefaultMoveError::Missing),
                }
            },
            None => Err(DefaultMoveError::Missing),
        }
    }
}

} // verus!
