use std::collections::HashMap;
use vstd::prelude::*;

use crate::environment::WorldTime;
use crate::pages::{PageGraph, PageId, page_lookup};

verus! {

/// Fatigue at or above which an actor always sleeps.
pub const FATIGUE_THRESHOLD: u8 = 20;

/// A behaviour tag of an actor.
#[derive(Clone, Copy, Debug, PartialEq, Eq, Hash, Structural)]
pub enum ActorFlag {
    Organic,
    CanAttack,
    CanSpeak,
    Nocturnal,
    Predatory,
}

/// Health, wakefulness, fatigue and target of an actor.
#[derive(Clone, Debug)]
pub struct ActorState {
    pub health: i32,
    pub awake: bool,
    pub fatigue: u8,
    pub target: Option<String>,
}

/// A simulated entity: identity, location, state and fixed behaviour flags.
#[derive(Clone, Debug)]
pub struct Actor {
    pub id: String,
    pub name: String,
    pub location: PageId,
    pub state: ActorState,
    pub flags: Vec<ActorFlag>,
}

/// What an actor does in one tick.
#[derive(Debug)]
pub enum ActorAction {
    Idle,
    MoveTo(PageId),
    Attack(String),
    Sleep,
    WakeUp,
}

#[derive(Clone, Debug)]
pub enum ActorKind {
    GenericNPC,
}

/// Long-term memory of an actor: when it last saw each page.
#[derive(Clone, Debug)]
pub struct ActorMemory {
    pub last_seen: HashMap<PageId, u64>,
}

pub open spec fn spec_has_flag(a: Actor, flag: ActorFlag) -> bool {
    a.flags@.contains(flag)
}

/// Whether a sleeping actor's chronotype calls for waking at time `t`.
pub open spec fn wakes(a: Actor, t: WorldTime) -> bool {
    !a.state.awake && if spec_has_flag(a, ActorFlag::Nocturnal) {
        !t.spec_is_daytime()
    } else {
        t.spec_is_daytime()
    }
}

/// Whether `other` is prey for `me`: at the same page, organic, and not `me`.
pub open spec fn is_prey(me: Actor, other: Actor) -> bool {
    &&& other.location@ == me.location@
    &&& spec_has_flag(other, ActorFlag::Organic)
    &&& other.id@ != me.id@
}

/// The first actor of `locals` that is prey for `me`.
pub open spec fn first_prey(me: Actor, locals: Seq<Actor>) -> Option<Actor>
    decreases locals.len(),
{
    if locals.len() == 0 {
        None
    } else if is_prey(me, locals[0]) {
        Some(locals[0])
    } else {
        first_prey(me, locals.drop_first())
    }
}

/// The actors behind a sequence of references.
pub open spec fn actors_of(locals: Seq<&Actor>) -> Seq<Actor> {
    locals.map_values(|a: &Actor| *a)
}

/// The action fixed by the rules that come before default movement:
/// fatigue, then waking, then predation; none when they leave it open.
pub open spec fn rule_choice(a: Actor, t: WorldTime, locals: Seq<Actor>) -> Option<ActorAction> {
    if a.state.fatigue >= FATIGUE_THRESHOLD {
        Some(ActorAction::Sleep)
    } else if wakes(a, t) {
        Some(ActorAction::WakeUp)
    } else if spec_has_flag(a, ActorFlag::Predatory) && a.state.awake && first_prey(
        a,
        locals,
    ) is Some {
        Some(ActorAction::Attack(first_prey(a, locals).unwrap().id))
    } else {
        None
    }
}

/// Default movement, given the move roll and the index of the chosen exit:
/// a roll divisible by 100 moves along that exit of the current page.
pub open spec fn wander(a: Actor, graph: PageGraph, roll: u8, pick: usize) -> ActorAction {
    if roll % 100 == 0 {
        match page_lookup(graph.pages@, a.location@) {
            Some(page) => if pick < page.connections@.len() {
                ActorAction::MoveTo(page.connections@[pick as int].target)
            } else {
                ActorAction::Idle
            },
            None => ActorAction::Idle,
        }
    } else {
        ActorAction::Idle
    }
}

/// The decision of `a`, given the draws of default movement.
pub open spec fn decision(
    a: Actor,
    t: WorldTime,
    locals: Seq<Actor>,
    graph: PageGraph,
    roll: u8,
    pick: usize,
) -> ActorAction {
    match rule_choice(a, t, locals) {
        Some(act) => act,
        None => if a.state.awake {
            wander(a, graph, roll, pick)
        } else {
            ActorAction::Idle
        },
    }
}

/// Whether `act` is a decision that `a` can reach for some draws.
pub open spec fn can_decide(
    a: Actor,
    t: WorldTime,
    locals: Seq<Actor>,
    graph: PageGraph,
    act: ActorAction,
) -> bool {
    exists|roll: u8, pick: usize| act == decision(a, t, locals, graph, roll, pick)
}

pub open spec fn sat_sub(x: u8, d: u8) -> u8 {
    if x >= d {
        (x - d) as u8
    } else {
        0
    }
}

pub open spec fn sat_add(x: u8, d: u8) -> u8 {
    if x + d > 255 {
        255
    } else {
        (x + d) as u8
    }
}

/// The actor after it has carried out `act`.
pub open spec fn applied(a: Actor, act: ActorAction) -> Actor {
    match act {
        ActorAction::Idle => Actor { state: ActorState { fatigue: sat_sub(a.state.fatigue, 1), ..a.state }, ..a },
        ActorAction::MoveTo(p) => Actor {
            location: p,
            state: ActorState { fatigue: sat_add(a.state.fatigue, 4), ..a.state },
            ..a
        },
        ActorAction::Attack(_) => Actor { state: ActorState { fatigue: sat_add(a.state.fatigue, 6), ..a.state }, ..a },
        ActorAction::Sleep => Actor {
            state: ActorState { awake: false, fatigue: sat_sub(a.state.fatigue, 1), ..a.state },
            ..a
        },
        ActorAction::WakeUp => Actor {
            state: ActorState {
                awake: true,
                fatigue: if a.state.fatigue > 2 { (a.state.fatigue - 2) as u8 } else { a.state.fatigue },
                ..a.state
            },
            ..a
        },
    }
}

/// Relies on rand::random::<u8>: any byte may come back.
#[verifier::external_body]
fn random_byte() -> (r: u8) {
    rand::random::<u8>()
}

/// Relies on rand::random_range: a value of the half-open range `0..len`,
/// which must not be empty.
#[verifier::external_body]
fn random_index(len: usize) -> (r: usize)
    requires
        len > 0,
    ensures
        r < len,
{
    rand::random_range(0..len)
}

impl Actor {
    /// Whether the actor carries `flag`.
    pub fn has_flag(&self, flag: ActorFlag) -> (r: bool)
        ensures
            r == spec_has_flag(*self, flag),
    {
        let mut i: usize = 0;
        while i < self.flags.len()
            invariant
                0 <= i <= self.flags@.len(),
                forall|k: int| 0 <= k < i ==> self.flags@[k] != flag,
            decreases self.flags@.len() - i,
        {
            if self.flags[i] == flag {
                return true;
            }
            i = i + 1;
        }
        false
    }

    /// The first actor of `local_actors` that is prey for this one.
    fn find_prey<'a>(&self, local_actors: &[&'a Actor]) -> (r: Option<&'a Actor>)
        ensures
            match r {
                Some(p) => first_prey(*self, actors_of(local_actors@)) == Some(*p),
                None => first_prey(*self, actors_of(local_actors@)) is None,
            },
    {
        let ghost all = actors_of(local_actors@);
        let mut i: usize = 0;
        assert(all.subrange(0, all.len() as int) =~= all);
        while i < local_actors.len()
            invariant
                0 <= i <= local_actors@.len(),
                all == actors_of(local_actors@),
                first_prey(*self, all) == first_prey(
                    *self,
                    all.subrange(i as int, all.len() as int),
                ),
            decreases local_actors@.len() - i,
        {
            assert(all.subrange(i as int, all.len() as int).drop_first() =~= all.subrange(
                i + 1,
                all.len() as int,
            ));
            assert(all.subrange(i as int, all.len() as int)[0] == *local_actors@[i as int]);
            let other: &Actor = local_actors[i];
            if other.location.same(&self.location) && other.has_flag(ActorFlag::Organic) && !(
            other.id == self.id) {
                return Some(other);
            }
            i = i + 1;
        }
        None
    }

    /// The action fixed by fatigue, waking or predation, if any.
    fn rule_action(&self, world_time: &WorldTime, local_actors: &[&Actor]) -> (r: Option<
        ActorAction,
    >)
        ensures
            r == rule_choice(*self, *world_time, actors_of(local_actors@)),
    {
        if self.state.fatigue >= FATIGUE_THRESHOLD {
            return Some(ActorAction::Sleep);
        }
        let is_nocturnal = self.has_flag(ActorFlag::Nocturnal);
        let is_awake = self.state.awake;
        if is_nocturnal && world_time.is_night() && !is_awake {
            return Some(ActorAction::WakeUp);
        }
        if !is_nocturnal && world_time.is_daytime() && !is_awake {
            return Some(ActorAction::WakeUp);
        }
        if is_awake && self.has_flag(ActorFlag::Predatory) {
            match self.find_prey(local_actors) {
                Some(target) => {
                    return Some(ActorAction::Attack(target.id.clone()));
                },
                None => {},
            }
        }
        None
    }

    /// Default movement from the given draws.
    fn wander_with(&self, page_graph: &PageGraph, roll: u8, pick: usize) -> (r: ActorAction)
        ensures
            r == wander(*self, *page_graph, roll, pick),
    {
        if roll % 100 == 0 {
            match page_graph.get(&self.location) {
                Some(page) => {
                    if pick < page.connections.len() {
                        ActorAction::MoveTo(PageId(page.connections[pick].target.0.clone()))
                    } else {
                        ActorAction::Idle
                    }
                },
                None => ActorAction::Idle,
            }
        } else {
            ActorAction::Idle
        }
    }

    /// Default movement: with chance 1/100, one exit of the current page
    /// chosen at random; otherwise, or where there is no exit, `Idle`.
    fn default_behavior(&self, page_graph: &PageGraph) -> (r: ActorAction)
        ensures
            exists|roll: u8, pick: usize| r == wander(*self, *page_graph, roll, pick),
    {
        let roll = random_byte();
        let mut pick: usize = 0;
        if roll % 100 == 0 {
            match page_graph.get(&self.location) {
                Some(page) => {
                    if page.connections.len() > 0 {
                        pick = random_index(page.connections.len());
                    }
                },
                None => {},
            }
        }
        self.wander_with(page_graph, roll, pick)
    }

    /// The decision of this actor for the given draws of default movement:
    /// the same rules as `decide`, with the chance made explicit.
    pub fn decide_with_draws(
        &self,
        world_time: &WorldTime,
        local_actors: &[&Actor],
        page_graph: &PageGraph,
        roll: u8,
        pick: usize,
    ) -> (r: ActorAction)
        ensures
            r == decision(*self, *world_time, actors_of(local_actors@), *page_graph, roll, pick),
    {
        match self.rule_action(world_time, local_actors) {
            Some(act) => act,
            None => if self.state.awake {
                self.wander_with(page_graph, roll, pick)
            } else {
                ActorAction::Idle
            },
        }
    }

    /// Chooses the action of this actor for this tick, without changing it.
    /// Rules in order: fatigue at the threshold sleeps; a sleeping actor
    /// wakes when its chronotype says so; an awake predator attacks the
    /// first organic peer of `local_actors`; an awake actor otherwise
    /// wanders; all else idles.
    pub fn decide(&self, world_time: &WorldTime, local_actors: &[&Actor], page_graph: &PageGraph) -> (r: ActorAction)
        ensures
            can_decide(*self, *world_time, actors_of(local_actors@), *page_graph, r),
            rule_choice(*self, *world_time, actors_of(local_actors@)) matches Some(act) ==> r == act,
            rule_choice(*self, *world_time, actors_of(local_actors@)) is None && !self.state.awake
                ==> r == ActorAction::Idle,
    {
        match self.rule_action(world_time, local_actors) {
            Some(act) => {
                assert(act == decision(*self, *world_time, actors_of(local_actors@), *page_graph, 0, 0));
                act
            },
            None => if self.state.awake {
                let r = self.default_behavior(page_graph);
                proof {
                    let (roll, pick) = choose|roll: u8, pick: usize|
                        r == wander(*self, *page_graph, roll, pick);
                    assert(r == decision(
                        *self,
                        *world_time,
                        actors_of(local_actors@),
                        *page_graph,
                        roll,
                        pick,
                    ));
                }
                r
            } else {
                assert(ActorAction::Idle == decision(*self, *world_time, actors_of(local_actors@), *page_graph, 0, 0));
                ActorAction::Idle
            },
        }
    }

    /// Carries out `action` on this actor alone.
    pub fn apply_action(&mut self, action: ActorAction)
        ensures
            *final(self) == applied(*old(self), action),
    {
        match action {
            ActorAction::Idle => {
                if self.state.fatigue > 0 {
                    self.state.fatigue = self.state.fatigue - 1;
                }
            },
            ActorAction::MoveTo(page_id) => {
                self.location = page_id;
                self.state.fatigue = self.state.fatigue.saturating_add(4);
            },
            ActorAction::Attack(_target_id) => {
                self.state.fatigue = self.state.fatigue.saturating_add(6);
            },
            ActorAction::Sleep => {
                self.state.awake = false;
                self.state.fatigue = self.state.fatigue.saturating_sub(1);
            },
            ActorAction::WakeUp => {
                self.state.awake = true;
                if self.state.fatigue > 2 {
                    self.state.fatigue = self.state.fatigue - 2;
                }
            },
        }
    }
}

/// Whether `other` shares the page of `me` and is not `me`.
pub open spec fn is_peer(me: Actor, other: Actor) -> bool {
    other.location@ == me.location@ && other.id@ != me.id@
}

/// The actors of `all` co-located with `me`, `me` left out, in roster order.
pub open spec fn peers_in(all: Seq<Actor>, me: Actor) -> Seq<Actor>
    decreases all.len(),
{
    if all.len() == 0 {
        Seq::empty()
    } else {
        let rest = peers_in(all.drop_last(), me);
        if is_peer(me, all.last()) {
            rest.push(all.last())
        } else {
            rest
        }
    }
}

/// The awake actors of `all` that stand on the page `page`, in roster order.
pub open spec fn awake_at(all: Seq<Actor>, page: Seq<char>) -> Seq<Actor>
    decreases all.len(),
{
    if all.len() == 0 {
        Seq::empty()
    } else {
        let rest = awake_at(all.drop_last(), page);
        if all.last().location@ == page && all.last().state.awake {
            rest.push(all.last())
        } else {
            rest
        }
    }
}

/// How many actors one tick updates out of a population of `n`:
/// `max(1, n / 10)`, and none of an empty population.
pub open spec fn tick_size(n: nat) -> nat {
    if n == 0 {
        0
    } else if n / 10 >= 1 {
        n / 10
    } else {
        1
    }
}

/// The roster after the actions of `plan` were applied in order.
pub open spec fn apply_plan_spec(actors: Seq<Actor>, plan: Seq<(usize, ActorAction)>) -> Seq<Actor>
    decreases plan.len(),
{
    if plan.len() == 0 {
        actors
    } else {
        let prev = apply_plan_spec(actors, plan.drop_last());
        let step = plan.last();
        if step.0 < prev.len() {
            prev.update(step.0 as int, applied(prev[step.0 as int], step.1))
        } else {
            prev
        }
    }
}

/// Whether `plan` pairs each chosen index with a decision of that actor,
/// taken against the roster `actors` as it stood before the tick.
pub open spec fn plan_fits(
    actors: Seq<Actor>,
    t: WorldTime,
    graph: PageGraph,
    chosen: Seq<usize>,
    plan: Seq<(usize, ActorAction)>,
) -> bool {
    &&& plan.len() == chosen.len()
    &&& forall|j: int|
        0 <= j < plan.len() ==> {
            &&& (#[trigger] plan[j]).0 == chosen[j]
            &&& chosen[j] < actors.len()
            &&& can_decide(
                actors[chosen[j] as int],
                t,
                peers_in(actors, actors[chosen[j] as int]),
                graph,
                plan[j].1,
            )
        }
}

/// Whether `after` is the roster `before` advanced by one tick in which the
/// actors at `chosen` acted: all decided on `before`, then all applied.
pub open spec fn tick_outcome(
    before: Seq<Actor>,
    t: WorldTime,
    graph: PageGraph,
    chosen: Seq<usize>,
    after: Seq<Actor>,
) -> bool {
    exists|plan: Seq<(usize, ActorAction)>|
        plan_fits(before, t, graph, chosen, plan) && after == apply_plan_spec(before, plan)
}

/// Whether the ids of `actors` are pairwise distinct.
pub open spec fn ids_unique(actors: Seq<Actor>) -> bool {
    forall|i: int, j: int|
        0 <= i < actors.len() && 0 <= j < actors.len() && i != j ==> actors[i].id@ != actors[j].id@
}

/// Applying a plan keeps the size of the roster and each actor's identity,
/// name and flags.
pub proof fn lemma_apply_plan_keeps_identity(actors: Seq<Actor>, plan: Seq<(usize, ActorAction)>)
    ensures
        apply_plan_spec(actors, plan).len() == actors.len(),
        forall|i: int|
            0 <= i < actors.len() ==> {
                &&& (#[trigger] apply_plan_spec(actors, plan)[i]).id == actors[i].id
                &&& apply_plan_spec(actors, plan)[i].name == actors[i].name
                &&& apply_plan_spec(actors, plan)[i].flags == actors[i].flags
            },
    decreases plan.len(),
{
    if plan.len() > 0 {
        lemma_apply_plan_keeps_identity(actors, plan.drop_last());
    }
}

/// An actor whose fatigue is at the threshold can only decide to sleep,
/// whatever its flags, wakefulness, peers or the clock.
pub proof fn lemma_tired_actor_sleeps(
    a: Actor,
    t: WorldTime,
    locals: Seq<Actor>,
    graph: PageGraph,
    act: ActorAction,
)
    requires
        a.state.fatigue >= FATIGUE_THRESHOLD,
        can_decide(a, t, locals, graph, act),
    ensures
        act == ActorAction::Sleep,
{
}

/// A sleeping actor below the fatigue threshold decides to wake when its
/// chronotype calls for it: a diurnal one by day, a nocturnal one by night.
pub proof fn lemma_sleeper_wakes(
    a: Actor,
    t: WorldTime,
    locals: Seq<Actor>,
    graph: PageGraph,
    act: ActorAction,
)
    requires
        a.state.fatigue < FATIGUE_THRESHOLD,
        !a.state.awake,
        spec_has_flag(a, ActorFlag::Nocturnal) ==> !t.spec_is_daytime(),
        !spec_has_flag(a, ActorFlag::Nocturnal) ==> t.spec_is_daytime(),
        can_decide(a, t, locals, graph, act),
    ensures
        act == ActorAction::WakeUp,
{
}

/// If any actor of `locals` is prey for `me`, the first prey is one of them
/// and is prey.
pub proof fn lemma_first_prey_found(me: Actor, locals: Seq<Actor>, j: int)
    requires
        0 <= j < locals.len(),
        is_prey(me, locals[j]),
    ensures
        first_prey(me, locals) matches Some(p) && is_prey(me, p) && locals.contains(p),
    decreases locals.len(),
{
    if !is_prey(me, locals[0]) {
        assert(j > 0);
        assert(locals.drop_first()[j - 1] == locals[j]);
        lemma_first_prey_found(me, locals.drop_first(), j - 1);
        let p = first_prey(me, locals.drop_first()).unwrap();
        let k = choose|k: int| 0 <= k < locals.drop_first().len() && locals.drop_first()[k] == p;
        assert(locals[k + 1] == p);
    } else {
        assert(locals[0] == locals[0]);
    }
}

/// An awake predator below the fatigue threshold with an organic peer other
/// than itself decides to attack, and its target is such a peer.
pub proof fn lemma_predator_attacks(
    a: Actor,
    t: WorldTime,
    locals: Seq<Actor>,
    graph: PageGraph,
    act: ActorAction,
    j: int,
)
    requires
        a.state.fatigue < FATIGUE_THRESHOLD,
        a.state.awake,
        spec_has_flag(a, ActorFlag::Predatory),
        0 <= j < locals.len(),
        is_prey(a, locals[j]),
        can_decide(a, t, locals, graph, act),
    ensures
        exists|k: int|
            0 <= k < locals.len() && is_prey(a, locals[k]) && act == ActorAction::Attack(
                #[trigger] locals[k].id,
            ),
{
    lemma_first_prey_found(a, locals, j);
    let p = first_prey(a, locals).unwrap();
    let k = choose|k: int| 0 <= k < locals.len() && locals[k] == p;
    assert(act == ActorAction::Attack(locals[k].id));
}

/// The actor after `n` idle ticks.
pub open spec fn idle_times(a: Actor, n: nat) -> Actor
    decreases n,
{
    if n == 0 {
        a
    } else {
        applied(idle_times(a, (n - 1) as nat), ActorAction::Idle)
    }
}

/// Idling never raises fatigue; after as many idle ticks as the fatigue
/// counts, or more, it is exactly zero and stays there.
pub proof fn lemma_idle_drains_fatigue(a: Actor, n: nat)
    ensures
        applied(a, ActorAction::Idle).state.fatigue <= a.state.fatigue,
        idle_times(a, n).state.fatigue == if n >= a.state.fatigue {
            0
        } else {
            a.state.fatigue - n
        },
    decreases n,
{
    if n > 0 {
        lemma_idle_drains_fatigue(a, (n - 1) as nat);
    }
}

/// Moving sets the location to the target and adds four to fatigue,
/// stopping at 255.
pub proof fn lemma_move_to(a: Actor, p: PageId)
    ensures
        applied(a, ActorAction::MoveTo(p)).location == p,
        applied(a, ActorAction::MoveTo(p)).state.fatigue == if a.state.fatigue + 4 > 255 {
            255
        } else {
            a.state.fatigue + 4
        },
{
}

/// Waking takes two from fatigue above two and leaves it unchanged at two
/// or below; the actor is then awake.
pub proof fn lemma_wake_up(a: Actor)
    ensures
        applied(a, ActorAction::WakeUp).state.awake,
        a.state.fatigue <= 2 ==> applied(a, ActorAction::WakeUp).state.fatigue
            == a.state.fatigue,
        a.state.fatigue > 2 ==> applied(a, ActorAction::WakeUp).state.fatigue == a.state.fatigue
            - 2,
{
}

/// An actor that moves at fatigue 19 reaches 23, and its next decision is
/// to sleep, whatever it was doing before.
pub proof fn lemma_move_at_nineteen_then_sleep(
    a: Actor,
    p: PageId,
    t: WorldTime,
    locals: Seq<Actor>,
    graph: PageGraph,
    act: ActorAction,
)
    requires
        a.state.fatigue == 19,
        can_decide(applied(a, ActorAction::MoveTo(p)), t, locals, graph, act),
    ensures
        applied(a, ActorAction::MoveTo(p)).state.fatigue == 23,
        act == ActorAction::Sleep,
{
}

/// Relies on rand::seq::index::sample: `amount` distinct indices below
/// `length`; it panics when `amount > length`.
#[verifier::external_body]
fn sample_indices(length: usize, amount: usize) -> (r: Vec<usize>)
    requires
        amount <= length,
    ensures
        r@.len() == amount,
        r@.no_duplicates(),
        forall|j: int| 0 <= j < r@.len() ==> r@[j] < length,
{
    rand::seq::index::sample(&mut rand::rng(), length, amount).into_vec()
}

/// The whole population, in roster order, and its tick scheduling.
pub struct ActorManager {
    pub actors: Vec<Actor>,
}

impl ActorManager {
    /// The seed roster of four actors, all awake.
    pub fn new() -> (r: ActorManager)
        ensures
            r.wf(),
            r.actors@.len() == 4,
            r.actors@[0].id@ == "prof"@,
            r.actors@[0].location@ == "small-town"@,
            r.actors@[0].state.fatigue == 0,
            r.actors@[0].flags@ == seq![ActorFlag::Organic, ActorFlag::CanSpeak],
            r.actors@[1].id@ == "joey"@,
            r.actors@[1].location@ == "route-1"@,
            r.actors@[1].state.fatigue == 0,
            r.actors@[1].flags@ == seq![ActorFlag::Organic, ActorFlag::CanSpeak],
            r.actors@[2].id@ == "sneezer"@,
            r.actors@[2].location@ == "route-1"@,
            r.actors@[2].state.fatigue == 0,
            r.actors@[2].flags@ == seq![ActorFlag::Organic],
            r.actors@[3].id@ == "susan"@,
            r.actors@[3].location@ == "green-city"@,
            r.actors@[3].state.fatigue == 1,
            r.actors@[3].flags@ == seq![ActorFlag::Organic, ActorFlag::CanSpeak],
            forall|i: int| 0 <= i < 4 ==> (#[trigger] r.actors@[i]).state.awake,
    {
        let prof = Actor {
            id: "prof".to_owned(),
            name: "Professor Tree".to_owned(),
            location: PageId::from_str("small-town"),
            state: ActorState { health: 10, awake: true, fatigue: 0, target: None },
            flags: vec![ActorFlag::Organic, ActorFlag::CanSpeak],
        };
        let joey = Actor {
            id: "joey".to_owned(),
            name: "Young Joey".to_owned(),
            location: PageId::from_str("route-1"),
            state: ActorState { health: 8, awake: true, fatigue: 0, target: None },
            flags: vec![ActorFlag::Organic, ActorFlag::CanSpeak],
        };
        let sneezer = Actor {
            id: "sneezer".to_owned(),
            name: "Sneezer".to_owned(),
            location: PageId::from_str("route-1"),
            state: ActorState { health: 2, awake: true, fatigue: 0, target: None },
            flags: vec![ActorFlag::Organic],
        };
        let susan = Actor {
            id: "susan".to_owned(),
            name: "Susan B. Anthony".to_owned(),
            location: PageId::from_str("green-city"),
            state: ActorState { health: 99, awake: true, fatigue: 1, target: None },
            flags: vec![ActorFlag::Organic, ActorFlag::CanSpeak],
        };
        proof {
            reveal_strlit("prof");
            reveal_strlit("joey");
            reveal_strlit("sneezer");
            reveal_strlit("susan");
            assert(prof.id@[0] != joey.id@[0]);
            assert(prof.id@[0] != susan.id@[0]);
            assert(joey.id@[0] != susan.id@[0]);
            assert(joey.id@[0] != sneezer.id@[0]);
            assert(prof.id@.len() != sneezer.id@.len());
            assert(sneezer.id@.len() != susan.id@.len());
        }
        let r = ActorManager { actors: vec![prof, joey, sneezer, susan] };
        assert(r.actors@[0].flags@ =~= seq![ActorFlag::Organic, ActorFlag::CanSpeak]);
        assert(r.actors@[1].flags@ =~= seq![ActorFlag::Organic, ActorFlag::CanSpeak]);
        assert(r.actors@[2].flags@ =~= seq![ActorFlag::Organic]);
        assert(r.actors@[3].flags@ =~= seq![ActorFlag::Organic, ActorFlag::CanSpeak]);
        r
    }

    /// Each actor has an id of its own.
    pub open spec fn wf(&self) -> bool {
        ids_unique(self.actors@)
    }

    /// The awake actors on the page `page`, as a visitor there sees them.
    pub fn awake_actors_at(&self, page: &PageId) -> (r: Vec<&Actor>)
        ensures
            actors_of(r@) == awake_at(self.actors@, page@),
    {
        let mut r: Vec<&Actor> = Vec::new();
        let mut j: usize = 0;
        while j < self.actors.len()
            invariant
                0 <= j <= self.actors@.len(),
                actors_of(r@) == awake_at(self.actors@.subrange(0, j as int), page@),
            decreases self.actors@.len() - j,
        {
            let other = &self.actors[j];
            let ghost prefix = self.actors@.subrange(0, j + 1);
            assert(prefix.drop_last() =~= self.actors@.subrange(0, j as int));
            assert(prefix.last() == *other);
            if other.location.same(page) && other.state.awake {
                r.push(other);
                assert(actors_of(r@) =~= awake_at(self.actors@.subrange(0, j as int), page@).push(
                    *other,
                ));
            }
            j = j + 1;
        }
        assert(self.actors@.subrange(0, self.actors@.len() as int) =~= self.actors@);
        r
    }

    /// The actors co-located with the one at `i`, itself left out.
    fn peers_of(&self, i: usize) -> (r: Vec<&Actor>)
        requires
            i < self.actors@.len(),
        ensures
            actors_of(r@) == peers_in(self.actors@, self.actors@[i as int]),
    {
        let me = &self.actors[i];
        let mut r: Vec<&Actor> = Vec::new();
        let mut j: usize = 0;
        while j < self.actors.len()
            invariant
                0 <= j <= self.actors@.len(),
                *me == self.actors@[i as int],
                actors_of(r@) == peers_in(self.actors@.subrange(0, j as int), *me),
            decreases self.actors@.len() - j,
        {
            let other = &self.actors[j];
            let ghost prefix = self.actors@.subrange(0, j + 1);
            assert(prefix.drop_last() =~= self.actors@.subrange(0, j as int));
            assert(prefix.last() == *other);
            if other.location.same(&me.location) && !(other.id == me.id) {
                r.push(other);
                assert(actors_of(r@) =~= peers_in(self.actors@.subrange(0, j as int), *me).push(
                    *other,
                ));
            }
            j = j + 1;
        }
        assert(self.actors@.subrange(0, self.actors@.len() as int) =~= self.actors@);
        r
    }

    /// The decide phase: the action of each chosen actor, all taken against
    /// the roster as it stands, which is left unchanged.
    fn plan(&self, world_time: &WorldTime, page_graph: &PageGraph, chosen: &Vec<usize>) -> (r: Vec<
        (usize, ActorAction),
    >)
        requires
            forall|j: int| 0 <= j < chosen@.len() ==> chosen@[j] < self.actors@.len(),
        ensures
            plan_fits(self.actors@, *world_time, *page_graph, chosen@, r@),
    {
        let mut r: Vec<(usize, ActorAction)> = Vec::new();
        let mut j: usize = 0;
        while j < chosen.len()
            invariant
                0 <= j <= chosen@.len(),
                forall|k: int| 0 <= k < chosen@.len() ==> chosen@[k] < self.actors@.len(),
                plan_fits(self.actors@, *world_time, *page_graph, chosen@.subrange(0, j as int), r@),
            decreases chosen@.len() - j,
        {
            let idx = chosen[j];
            let peers = self.peers_of(idx);
            let act = self.actors[idx].decide(world_time, peers.as_slice(), page_graph);
            r.push((idx, act));
            assert(chosen@.subrange(0, j + 1)[j as int] == idx);
            assert forall|k: int| 0 <= k < j implies chosen@.subrange(0, j + 1)[k] == chosen@.subrange(
                0,
                j as int,
            )[k] by {}
            j = j + 1;
        }
        assert(chosen@.subrange(0, chosen@.len() as int) =~= chosen@);
        r
    }

    /// The apply phase: the actions of `plan`, in order, each on its actor.
    fn apply_plan(&mut self, plan: Vec<(usize, ActorAction)>)
        ensures
            final(self).actors@ == apply_plan_spec(old(self).actors@, plan@),
    {
        let ghost start = self.actors@;
        let ghost all = plan@;
        let total = plan.len();
        let mut rest = plan;
        let mut j: usize = 0;
        assert(all.subrange(0, 0) =~= Seq::<(usize, ActorAction)>::empty());
        assert(all.subrange(0, all.len() as int) =~= all);
        while rest.len() > 0
            invariant
                0 <= j <= all.len(),
                all.len() == total,
                rest@ == all.subrange(j as int, all.len() as int),
                self.actors@ == apply_plan_spec(start, all.subrange(0, j as int)),
            decreases rest@.len(),
        {
            let step = rest.remove(0);
            let ghost done = all.subrange(0, j + 1);
            assert(done.drop_last() =~= all.subrange(0, j as int));
            assert(step == all[j as int]);
            assert(done.last() == all[j as int]);
            let (idx, act) = step;
            if idx < self.actors.len() {
                self.actors[idx].apply_action(act);
            }
            assert(rest@ =~= all.subrange(j + 1, all.len() as int));
            j = j + 1;
        }
        assert(all.subrange(0, j as int) =~= all);
    }

    /// One tick over the actors at `chosen`: first every chosen actor decides
    /// on the roster as it stood before the tick, then each decision is
    /// applied to its actor.
    pub fn tick_with(&mut self, world_time: &WorldTime, page_graph: &PageGraph, chosen: &Vec<usize>)
        requires
            forall|j: int| 0 <= j < chosen@.len() ==> chosen@[j] < old(self).actors@.len(),
        ensures
            tick_outcome(old(self).actors@, *world_time, *page_graph, chosen@, final(self).actors@),
    {
        let plan = self.plan(world_time, page_graph, chosen);
        let ghost p = plan@;
        self.apply_plan(plan);
        assert(plan_fits(old(self).actors@, *world_time, *page_graph, chosen@, p));
    }

    /// Advances the world by one partial tick: `max(1, n / 10)` distinct
    /// actors, drawn at random, decide on the same snapshot and then act.
    /// Returns how many actors were updated.
    pub fn tick_some(&mut self, world_time: &WorldTime, page_graph: &PageGraph) -> (r: usize)
        ensures
            r == tick_size(old(self).actors@.len()),
            r <= if old(self).actors@.len() / 10 >= 1 { old(self).actors@.len() / 10 } else { 1 },
            old(self).actors@.len() >= 1 ==> r >= 1,
            exists|chosen: Seq<usize>|
                {
                    &&& chosen.len() == r
                    &&& chosen.no_duplicates()
                    &&& tick_outcome(
                        old(self).actors@,
                        *world_time,
                        *page_graph,
                        chosen,
                        final(self).actors@,
                    )
                },
            old(self).wf() ==> final(self).wf(),
    {
        let n = self.actors.len();
        let mut k: usize = 0;
        if n > 0 {
            k = n / 10;
            if k < 1 {
                k = 1;
            }
        }
        let chosen = sample_indices(n, k);
        let ghost before = self.actors@;
        self.tick_with(world_time, page_graph, &chosen);
        proof {
            let plan = choose|plan: Seq<(usize, ActorAction)>|
                plan_fits(before, *world_time, *page_graph, chosen@, plan) && self.actors@
                    == apply_plan_spec(before, plan);
            lemma_apply_plan_keeps_identity(before, plan);
            assert(chosen@.len() == k);
        }
        k
    }
}

} // verus!
