use crate::bot::catalog::display_name;
use crate::bot::catalog::ItemCatalog;
use crate::bot::event::FisherEvent;
use crate::bot::potions::Potion;
use crate::bot::potions::PotionScheduler;
use crate::bot::potions::TimerModel;
use crate::bot::scanner::ScannerCommand;
use crate::utils::config::ConfigInner;
use crate::utils::config::FisherConfig;
use crate::utils::text::matches_any_fragment;
use crate::utils::text::name_matches;
use vstd::prelude::*;

verus! {

/// Milliseconds between selecting the rod and the click that casts it.
pub const ROD_SETTLE_MS: u64 = 150;

/// Milliseconds between selecting a potion and the click that drinks it.
pub const POTION_SETTLE_MS: u64 = 100;

/// The lifecycle of the macro.
#[derive(Debug, Clone, Copy, PartialEq, Eq, Structural)]
pub enum CoordinatorState {
    /// Off: every event but `Toggle` is ignored.
    Stopped,
    /// On and reacting.
    Active,
    /// On, but reacting to the hotkeys only.
    ActivePaused,
}

/// One thing for the caller to do. A reaction is a list of steps, done in
/// order; the first that fails ends the list.
#[derive(Debug, Clone, Copy, PartialEq, Eq)]
pub enum Step<K> {
    /// Send the command to the poller.
    Scanner(ScannerCommand),
    /// Call `schedule_all` on the scheduler and carry out its actions.
    ScheduleAll,
    /// Call `cancel_all` on the scheduler.
    CancelAll,
    /// Call `mark_drunk` on the scheduler and start the delay it answers with.
    MarkDrunk(Potion),
    /// Press and release the key.
    PressKey(K),
    /// Click the left mouse button.
    Click,
    /// Do nothing for so many milliseconds.
    Wait { millis: u64 },
}

/// What an event leads to: the next state and the steps to take.
pub struct Reaction<K> {
    pub next: CoordinatorState,
    pub steps: Seq<Step<K>>,
}

/// Casting: select the rod, let the game settle, click.
pub open spec fn cast_steps<K>(config: FisherConfig<K>) -> Seq<Step<K>> {
    seq![Step::PressKey(config.rod_slot), Step::Wait { millis: ROD_SETTLE_MS }, Step::Click]
}

/// Drinking: select the potion, let the game settle, click.
pub open spec fn drink_steps<K>(slot: K) -> Seq<Step<K>> {
    seq![Step::PressKey(slot), Step::Wait { millis: POTION_SETTLE_MS }, Step::Click]
}

/// Reeling in and casting again: click, wait out the recast interval, have
/// the poller zero the sampled value, cast.
pub open spec fn catch_steps<K>(config: FisherConfig<K>) -> Seq<Step<K>> {
    seq![
        Step::Click,
        Step::Wait { millis: config.recast_interval },
        Step::Scanner(ScannerCommand::ZeroMemory),
    ] + cast_steps(config)
}

/// Nothing happens: the state stays and no step is taken.
pub open spec fn ignored<K>(state: CoordinatorState) -> Reaction<K> {
    Reaction { next: state, steps: Seq::empty() }
}

/// The transition table of the coordinator.
///
/// `whitelisted` says whether the detected catch is one of the configured
/// ones; it is read for a `FishDetected` only. `timers` is the scheduler's
/// state, of which only the enabled potions and their keys are read.
pub open spec fn react<K>(
    state: CoordinatorState,
    event: FisherEvent,
    now: u64,
    whitelisted: bool,
    config: FisherConfig<K>,
    timers: TimerModel<K>,
) -> Reaction<K> {
    match state {
        CoordinatorState::Stopped => match event {
            FisherEvent::Toggle => Reaction {
                next: CoordinatorState::Active,
                steps: seq![Step::Scanner(ScannerCommand::TogglePause(true)), Step::ScheduleAll]
                    + if timers.potions.len() == 0 {
                    cast_steps(config)
                } else {
                    Seq::empty()
                },
            },
            _ => ignored(state),
        },
        _ => match event {
            FisherEvent::Toggle => Reaction {
                next: CoordinatorState::Stopped,
                steps: seq![Step::Scanner(ScannerCommand::TogglePause(false)), Step::CancelAll],
            },
            FisherEvent::Pause => if state == CoordinatorState::Active {
                Reaction {
                    next: CoordinatorState::ActivePaused,
                    steps: seq![Step::Scanner(ScannerCommand::TogglePause(false))],
                }
            } else {
                Reaction {
                    next: CoordinatorState::Active,
                    steps: seq![
                        Step::Scanner(ScannerCommand::TogglePause(true)),
                        Step::ScheduleAll,
                    ] + cast_steps(config),
                }
            },
            FisherEvent::FishDetected { fish_id, timestamp } => if state
                == CoordinatorState::Active && !event.stale_at(now) && whitelisted {
                Reaction {
                    next: CoordinatorState::Active,
                    steps: seq![Step::Wait { millis: config.catch_delay_ms }] + catch_steps(
                        config,
                    ),
                }
            } else {
                ignored(state)
            },
            FisherEvent::DrinkPotion(potion) => if state == CoordinatorState::Active
                && timers.slot_for(potion) is Some {
                Reaction {
                    next: CoordinatorState::Active,
                    steps: drink_steps(timers.slot_for(potion)->0) + seq![
                        Step::MarkDrunk(potion),
                        Step::Wait { millis: config.recast_interval },
                    ] + cast_steps(config),
                }
            } else {
                ignored(state)
            },
            FisherEvent::Cast { timestamp } => if state == CoordinatorState::Active
                && !event.stale_at(now) {
                Reaction { next: CoordinatorState::Active, steps: cast_steps(config) }
            } else {
                ignored(state)
            },
        },
    }
}

/// Whether the catalog's name of a detected catch holds one of the
/// configured fragments, case ignored. No other event is a catch.
pub open spec fn accepts<K>(
    catalog: Seq<(i32, String)>,
    config: FisherConfig<K>,
    event: FisherEvent,
) -> bool {
    event matches FisherEvent::FishDetected { fish_id, timestamp } && name_matches(
        display_name(catalog, fish_id),
        config.fishes@,
    )
}

/// An ephemeral event that is older than the time to live when it is
/// consumed leads to nothing, whatever the state: no step, and the state
/// stays.
pub proof fn law_stale_events_are_dropped<K>(
    state: CoordinatorState,
    event: FisherEvent,
    now: u64,
    whitelisted: bool,
    config: FisherConfig<K>,
    timers: TimerModel<K>,
)
    requires
        event.stale_at(now),
    ensures
        react(state, event, now, whitelisted, config, timers) == ignored::<K>(state),
{
}

/// `Toggle` switches on from `Stopped`, with a `ScheduleAll` among the
/// steps and no `CancelAll`; from either of the other states it switches
/// off, with a `CancelAll` among the steps and no `ScheduleAll`.
pub proof fn law_toggle<K>(
    state: CoordinatorState,
    now: u64,
    whitelisted: bool,
    config: FisherConfig<K>,
    timers: TimerModel<K>,
)
    ensures
        ({
            let r = react(state, FisherEvent::Toggle, now, whitelisted, config, timers);
            if state == CoordinatorState::Stopped {
                &&& r.next == CoordinatorState::Active
                &&& r.steps.contains(Step::ScheduleAll)
                &&& !r.steps.contains(Step::CancelAll)
            } else {
                &&& r.next == CoordinatorState::Stopped
                &&& r.steps.contains(Step::CancelAll)
                &&& !r.steps.contains(Step::ScheduleAll)
            }
        }),
{
    let r = react(state, FisherEvent::Toggle, now, whitelisted, config, timers);
    if state == CoordinatorState::Stopped {
        assert(r.steps[1] == Step::<K>::ScheduleAll);
    } else {
        assert(r.steps[1] == Step::<K>::CancelAll);
    }
}

/// `Pause` takes `Active` to `ActivePaused` and back, and leaves `Stopped`
/// alone: two in a row end where they began, and none reaches a state
/// outside the pair it started in.
pub proof fn law_pause_alternates<K>(
    state: CoordinatorState,
    now: u64,
    later: u64,
    whitelisted: bool,
    config: FisherConfig<K>,
    timers: TimerModel<K>,
)
    ensures
        ({
            let once = react(state, FisherEvent::Pause, now, whitelisted, config, timers).next;
            let twice = react(once, FisherEvent::Pause, later, whitelisted, config, timers).next;
            &&& state == CoordinatorState::Active ==> once == CoordinatorState::ActivePaused
            &&& state == CoordinatorState::ActivePaused ==> once == CoordinatorState::Active
            &&& state == CoordinatorState::Stopped ==> once == CoordinatorState::Stopped
            &&& twice == state
        }),
{
}

/// A detection that is not whitelisted leads to nothing, and so does any
/// detection, drink or cast outside `Active`.
pub proof fn law_only_active_acts<K>(
    state: CoordinatorState,
    event: FisherEvent,
    now: u64,
    whitelisted: bool,
    config: FisherConfig<K>,
    timers: TimerModel<K>,
)
    requires
        event != FisherEvent::Toggle,
        event != FisherEvent::Pause,
        state != CoordinatorState::Active || (event is FishDetected && !whitelisted),
    ensures
        react(state, event, now, whitelisted, config, timers) == ignored::<K>(state),
{
}

/// What a pressed key means to the macro: `Toggle` for the toggle key,
/// else `Pause` for the pause key, else nothing.
pub fn hotkey_event(is_toggle: bool, is_pause: bool) -> (r: Option<FisherEvent>)
    ensures
        r == if is_toggle {
            Some(FisherEvent::Toggle)
        } else if is_pause {
            Some(FisherEvent::Pause)
        } else {
            None
        },
{
    if is_toggle {
        Some(FisherEvent::Toggle)
    } else if is_pause {
        Some(FisherEvent::Pause)
    } else {
        None
    }
}

/// The coordinator: takes the events of the queue one by one and answers
/// each with the steps to carry out.
///
/// It starts `Stopped`. It performs nothing itself: the caller carries the
/// steps out, in order, and stops at the first that fails.
pub struct Fisher<K> {
    config: ConfigInner<K>,
    catalog: ItemCatalog,
    state: CoordinatorState,
}

impl<K> Fisher<K> {
    pub closed spec fn state_spec(&self) -> CoordinatorState {
        self.state
    }

    pub closed spec fn config_spec(&self) -> ConfigInner<K> {
        self.config
    }

    pub closed spec fn catalog_spec(&self) -> Seq<(i32, String)> {
        self.catalog@
    }

    /// What `event`, consumed at `now`, leads to from the present state.
    pub open spec fn reaction(
        &self,
        timers: TimerModel<K>,
        event: FisherEvent,
        now: u64,
    ) -> Reaction<K> {
        react(
            self.state_spec(),
            event,
            now,
            accepts(self.catalog_spec(), self.config_spec().fisher, event),
            self.config_spec().fisher,
            timers,
        )
    }
}

impl<K: Copy> Fisher<K> {
    /// A coordinator that is `Stopped`.
    pub fn new(config: ConfigInner<K>, catalog: ItemCatalog) -> (r: Self)
        ensures
            r.state_spec() == CoordinatorState::Stopped,
            r.config_spec() == config,
            r.catalog_spec() == catalog@,
    {
        Fisher { config, catalog, state: CoordinatorState::Stopped }
    }

    pub fn state(&self) -> (r: CoordinatorState)
        ensures
            r == self.state_spec(),
    {
        self.state
    }

    pub fn config(&self) -> (r: &ConfigInner<K>)
        ensures
            *r == self.config_spec(),
    {
        &self.config
    }

    /// The name to show for a catch.
    pub fn resolve_fish(&self, fish_id: i32) -> (r: &str)
        ensures
            r@ == display_name(self.catalog_spec(), fish_id),
    {
        self.catalog.resolve_fish(fish_id)
    }

    /// Whether a catch is one of the configured ones.
    pub fn is_whitelisted(&self, fish_id: i32) -> (r: bool)
        ensures
            r == name_matches(
                display_name(self.catalog_spec(), fish_id),
                self.config_spec().fisher.fishes@,
            ),
    {
        matches_any_fragment(self.catalog.resolve_fish(fish_id), &self.config.fisher.fishes)
    }

    fn select_slot(&self, slot: K, steps: &mut Vec<Step<K>>)
        ensures
            final(steps)@ == old(steps)@ + seq![Step::PressKey(slot)],
    {
        steps.push(Step::PressKey(slot));
    }

    fn cast_rod(&self, steps: &mut Vec<Step<K>>)
        ensures
            final(steps)@ == old(steps)@ + cast_steps(self.config_spec().fisher),
    {
        self.select_slot(self.config.fisher.rod_slot, steps);
        steps.push(Step::Wait { millis: ROD_SETTLE_MS });
        steps.push(Step::Click);
        assert(steps@ =~= old(steps)@ + cast_steps(self.config_spec().fisher));
    }

    fn drink_potion(&self, slot: K, steps: &mut Vec<Step<K>>)
        ensures
            final(steps)@ == old(steps)@ + drink_steps(slot),
    {
        self.select_slot(slot, steps);
        steps.push(Step::Wait { millis: POTION_SETTLE_MS });
        steps.push(Step::Click);
        assert(steps@ =~= old(steps)@ + drink_steps(slot));
    }

    fn catch_and_recast(&self, steps: &mut Vec<Step<K>>)
        ensures
            final(steps)@ == old(steps)@ + catch_steps(self.config_spec().fisher),
    {
        steps.push(Step::Click);
        steps.push(Step::Wait { millis: self.config.fisher.recast_interval });
        steps.push(Step::Scanner(ScannerCommand::ZeroMemory));
        self.cast_rod(steps);
        assert(steps@ =~= old(steps)@ + catch_steps(self.config_spec().fisher));
    }

    /// Takes one event, consumed at `now`, moves to the next state and
    /// answers with the steps to carry out. `whitelisted` says whether a
    /// detected catch is one of the configured ones.
    pub fn react(
        &mut self,
        scheduler: &PotionScheduler<K>,
        event: FisherEvent,
        now: u64,
        whitelisted: bool,
    ) -> (r: Vec<Step<K>>)
        ensures
            r@ == react(
                old(self).state_spec(),
                event,
                now,
                whitelisted,
                old(self).config_spec().fisher,
                scheduler@,
            ).steps,
            final(self).state_spec() == react(
                old(self).state_spec(),
                event,
                now,
                whitelisted,
                old(self).config_spec().fisher,
                scheduler@,
            ).next,
            final(self).config_spec() == old(self).config_spec(),
            final(self).catalog_spec() == old(self).catalog_spec(),
    {
        let mut steps: Vec<Step<K>> = Vec::new();
        match self.state {
            CoordinatorState::Stopped => {
                match event {
                    FisherEvent::Toggle => {
                        self.state = CoordinatorState::Active;
                        steps.push(Step::Scanner(ScannerCommand::TogglePause(true)));
                        steps.push(Step::ScheduleAll);
                        if scheduler.is_empty() {
                            self.cast_rod(&mut steps);
                        }
                    },
                    _ => {},
                }
            },
            _ => {
                match event {
                    FisherEvent::Toggle => {
                        self.state = CoordinatorState::Stopped;
                        steps.push(Step::Scanner(ScannerCommand::TogglePause(false)));
                        steps.push(Step::CancelAll);
                    },
                    FisherEvent::Pause => {
                        if self.state == CoordinatorState::Active {
                            self.state = CoordinatorState::ActivePaused;
                            steps.push(Step::Scanner(ScannerCommand::TogglePause(false)));
                        } else {
                            self.state = CoordinatorState::Active;
                            steps.push(Step::Scanner(ScannerCommand::TogglePause(true)));
                            steps.push(Step::ScheduleAll);
                            self.cast_rod(&mut steps);
                        }
                    },
                    FisherEvent::FishDetected { fish_id, timestamp } => {
                        if self.state == CoordinatorState::Active && !event.is_stale(now)
                            && whitelisted {
                            steps.push(Step::Wait { millis: self.config.fisher.catch_delay_ms });
                            self.catch_and_recast(&mut steps);
                        }
                    },
                    FisherEvent::DrinkPotion(potion) => {
                        if self.state == CoordinatorState::Active {
                            match scheduler.slot_for(potion) {
                                Some(slot) => {
                                    self.drink_potion(slot, &mut steps);
                                    steps.push(Step::MarkDrunk(potion));
                                    steps.push(
                                        Step::Wait { millis: self.config.fisher.recast_interval },
                                    );
                                    self.cast_rod(&mut steps);
                                },
                                None => {},
                            }
                        }
                    },
                    FisherEvent::Cast { timestamp } => {
                        if self.state == CoordinatorState::Active && !event.is_stale(now) {
                            self.cast_rod(&mut steps);
                        }
                    },
                }
            },
        }
        assert(steps@ =~= react(
            old(self).state_spec(),
            event,
            now,
            whitelisted,
            old(self).config_spec().fisher,
            scheduler@,
        ).steps);
        steps
    }

    /// Takes one event, consumed at `now`: looks a detected catch up in the
    /// catalog, holds its name against the configured fragments, and reacts.
    pub fn handle(&mut self, scheduler: &PotionScheduler<K>, event: FisherEvent, now: u64) -> (r:
        Vec<Step<K>>)
        ensures
            r@ == old(self).reaction(scheduler@, event, now).steps,
            final(self).state_spec() == old(self).reaction(scheduler@, event, now).next,
            final(self).config_spec() == old(self).config_spec(),
            final(self).catalog_spec() == old(self).catalog_spec(),
    {
        let whitelisted = match event {
            FisherEvent::FishDetected { fish_id, timestamp } => {
                if self.state == CoordinatorState::Active && !event.is_stale(now) {
                    self.is_whitelisted(fish_id)
                } else {
                    false
                }
            },
            _ => false,
        };
        self.react(scheduler, event, now, whitelisted)
    }
}

} // verus!
