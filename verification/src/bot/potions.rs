use crate::bot::event::FisherEvent;
use crate::utils::config::ConfigInner;
use crate::utils::config::PotionsConfig;
use vstd::prelude::*;

verus! {

pub const NANOS_PER_SEC: u64 = 1_000_000_000;

/// The timed buffs that the macro keeps up.
#[derive(Debug, Clone, Copy, PartialEq, Eq, Hash, Structural)]
pub enum Potion {
    Sonar,
    Fishing,
    Crate,
    Food,
}

impl Potion {
    pub open spec fn name_spec(self) -> Seq<char> {
        match self {
            Potion::Sonar => "Sonar"@,
            Potion::Fishing => "Fishing"@,
            Potion::Crate => "Crate"@,
            Potion::Food => "Food"@,
        }
    }

    /// The display name of the potion.
    pub fn name(&self) -> (r: &'static str)
        ensures
            r@ == self.name_spec(),
    {
        match self {
            Potion::Sonar => "Sonar",
            Potion::Fishing => "Fishing",
            Potion::Crate => "Crate",
            Potion::Food => "Food",
        }
    }

    /// The display name as an owned string.
    pub fn to_string(&self) -> (r: String)
        ensures
            r@ == self.name_spec(),
    {
        self.name().to_owned()
    }
}

/// Nanoseconds from `last` to `now`; none if `last` is the later one.
pub open spec fn elapsed_nanos(now: u64, last: u64) -> int {
    if now >= last {
        now - last
    } else {
        0
    }
}

/// Splits a count of nanoseconds into whole seconds and the nanoseconds
/// that are left over. More seconds than 64 bits hold count as the most
/// that they hold.
pub fn split_nanos(nanos: u128) -> (r: (u64, u32))
    ensures
        r.0 == if nanos / (NANOS_PER_SEC as u128) <= u64::MAX {
            nanos / (NANOS_PER_SEC as u128)
        } else {
            u64::MAX as u128
        },
        r.1 == nanos % (NANOS_PER_SEC as u128),
{
    let secs: u128 = nanos / 1_000_000_000u128;
    let rest: u32 = (nanos % 1_000_000_000u128) as u32;
    if secs > u64::MAX as u128 {
        (u64::MAX, rest)
    } else {
        (secs as u64, rest)
    }
}

/// What the scheduler asks its caller to do for one potion.
#[derive(Debug, Clone, Copy, PartialEq, Eq, Structural)]
pub enum TimerAction {
    /// The potion is due: queue its drink event at once.
    Fire(Potion),
    /// Start a delay of `nanos` nanoseconds. When it has run, hand `potion`
    /// and `epoch` to [`PotionScheduler::timer_elapsed`].
    Delay { potion: Potion, nanos: u128, epoch: u64 },
}

/// What the scheduler tracks of one enabled potion.
#[derive(Debug, Clone, Copy)]
pub struct PotionState<K> {
    pub potion: Potion,
    /// The hotbar key that selects the potion.
    pub slot: K,
    /// Seconds after which the potion is drunk again.
    pub duration_secs: u64,
    /// `None`: never drunk, or reset. `Some(t)`: last drunk at `t`.
    pub last_drunk: Option<u64>,
}

impl<K> PotionState<K> {
    pub open spec fn period_nanos(self) -> int {
        self.duration_secs * NANOS_PER_SEC
    }

    /// Whether the potion is due at `now`: never drunk, or drunk at least one
    /// full period ago.
    pub open spec fn expired_at(self, now: u64) -> bool {
        match self.last_drunk {
            None => true,
            Some(t) => elapsed_nanos(now, t) >= self.period_nanos(),
        }
    }

    /// Nanoseconds left of the running period at `now`.
    pub open spec fn remaining_at(self, now: u64) -> int
        recommends
            self.last_drunk is Some,
    {
        self.period_nanos() - elapsed_nanos(now, self.last_drunk->0)
    }

    /// What `schedule_all` asks for this potion at `now`.
    pub open spec fn action_at(self, now: u64, epoch: u64) -> TimerAction {
        if self.expired_at(now) {
            TimerAction::Fire(self.potion)
        } else {
            TimerAction::Delay {
                potion: self.potion,
                nanos: self.remaining_at(now) as u128,
                epoch,
            }
        }
    }

    /// The same potion, never drunk.
    pub open spec fn reset(self) -> Self {
        PotionState { last_drunk: None, ..self }
    }

    /// The same potion, last drunk at `now`.
    pub open spec fn drunk_at(self, now: u64) -> Self {
        PotionState { last_drunk: Some(now), ..self }
    }
}

/// The mathematical state of the scheduler: the enabled potions in their
/// fixed order, and the count of full cancellations so far.
pub struct TimerModel<K> {
    pub potions: Seq<PotionState<K>>,
    pub epoch: nat,
}

impl<K> TimerModel<K> {
    /// No potion is tracked twice.
    pub open spec fn wf(self) -> bool {
        forall|i: int, j: int|
            0 <= i < j < self.potions.len() ==> (#[trigger] self.potions[i]).potion != (
            #[trigger] self.potions[j]).potion
    }

    pub open spec fn tracks(self, potion: Potion, i: int) -> bool {
        0 <= i < self.potions.len() && self.potions[i].potion == potion
    }

    pub open spec fn configured(self, potion: Potion) -> bool {
        exists|i: int| self.tracks(potion, i)
    }

    pub open spec fn position(self, potion: Potion) -> int {
        choose|i: int| self.tracks(potion, i)
    }

    pub open spec fn slot_for(self, potion: Potion) -> Option<K> {
        if self.configured(potion) {
            Some(self.potions[self.position(potion)].slot)
        } else {
            None
        }
    }

    /// One action per potion, in order: fire what is due, delay the rest.
    pub open spec fn schedule_all(self, now: u64) -> Seq<TimerAction> {
        Seq::new(self.potions.len(), |i: int| self.potions[i].action_at(now, self.epoch as u64))
    }

    /// Every potion reset, and the epoch advanced by one.
    pub open spec fn cancel_all(self) -> Self {
        TimerModel {
            potions: Seq::new(self.potions.len(), |i: int| self.potions[i].reset()),
            epoch: self.epoch + 1,
        }
    }

    /// `potion` last drunk at `now`; the others, and the epoch, unchanged.
    pub open spec fn mark_drunk(self, potion: Potion, now: u64) -> Self {
        TimerModel {
            potions: Seq::new(
                self.potions.len(),
                |i: int|
                    if self.potions[i].potion == potion {
                        self.potions[i].drunk_at(now)
                    } else {
                        self.potions[i]
                    },
            ),
            epoch: self.epoch,
        }
    }

    /// The full-period delay that follows a drink of `potion`.
    pub open spec fn delay_after_drink(self, potion: Potion) -> Option<TimerAction> {
        if self.configured(potion) {
            Some(
                TimerAction::Delay {
                    potion,
                    nanos: self.potions[self.position(potion)].period_nanos() as u128,
                    epoch: self.epoch as u64,
                },
            )
        } else {
            None
        }
    }

    /// What a delay started in `epoch` produces when it has run: the drink
    /// event while `epoch` is still the current one, nothing afterwards.
    pub open spec fn timer_elapsed(self, potion: Potion, epoch: u64) -> Option<FisherEvent> {
        if epoch == self.epoch {
            Some(FisherEvent::DrinkPotion(potion))
        } else {
            None
        }
    }
}

/// One call on the scheduler, for statements about every later history.
pub enum TimerOp {
    ScheduleAll { now: u64 },
    MarkDrunk { potion: Potion, now: u64 },
    CancelAll,
}

impl<K> TimerModel<K> {
    /// The state after one call.
    pub open spec fn apply(self, op: TimerOp) -> Self {
        match op {
            TimerOp::ScheduleAll { now } => self,
            TimerOp::MarkDrunk { potion, now } => self.mark_drunk(potion, now),
            TimerOp::CancelAll => self.cancel_all(),
        }
    }

    /// The state after a run of calls, first to last.
    pub open spec fn apply_all(self, ops: Seq<TimerOp>) -> Self
        decreases ops.len(),
    {
        if ops.len() == 0 {
            self
        } else {
            self.apply(ops[0]).apply_all(ops.subrange(1, ops.len() as int))
        }
    }

    /// Whether `action` is a delay that this state hands out at `now`: one of
    /// `schedule_all`, or the one that follows a drink.
    pub open spec fn starts_delay(self, action: TimerAction, now: u64) -> bool {
        &&& action is Delay
        &&& {
            ||| self.schedule_all(now).contains(action)
            ||| exists|potion: Potion| self.delay_after_drink(potion) == Some(action)
        }
    }
}

/// No call on the scheduler adds, drops or reorders a potion, or changes its
/// key or its period; no potion comes to be tracked twice; and the epoch
/// never goes back.
pub proof fn law_potions_are_fixed<K>(m: TimerModel<K>, op: TimerOp)
    requires
        m.wf(),
    ensures
        m.apply(op).wf(),
        m.apply(op).potions.len() == m.potions.len(),
        m.apply(op).epoch >= m.epoch,
        forall|i: int|
            0 <= i < m.potions.len() ==> {
                &&& (#[trigger] m.apply(op).potions[i]).potion == m.potions[i].potion
                &&& m.apply(op).potions[i].slot == m.potions[i].slot
                &&& m.apply(op).potions[i].duration_secs == m.potions[i].duration_secs
            },
{
}

/// The epoch never goes back over a run of calls, and each `cancel_all`
/// moves it on by exactly one.
pub proof fn law_epoch_monotonic<K>(m: TimerModel<K>, ops: Seq<TimerOp>)
    ensures
        m.apply_all(ops).epoch >= m.epoch,
        m.cancel_all().epoch == m.epoch + 1,
    decreases ops.len(),
{
    if ops.len() > 0 {
        law_epoch_monotonic(m.apply(ops[0]), ops.subrange(1, ops.len() as int));
    }
}

/// After `cancel_all` no potion has a drink on record, and the next
/// `schedule_all` fires every enabled potion at once, each exactly once: one
/// `Fire` per tracked potion, in order, and no two of them alike.
pub proof fn law_cancel_then_schedule_fires_all<K>(m: TimerModel<K>, now: u64)
    requires
        m.wf(),
    ensures
        m.cancel_all().potions.len() == m.potions.len(),
        forall|i: int|
            0 <= i < m.potions.len() ==> (#[trigger] m.cancel_all().potions[i]).last_drunk is None,
        m.cancel_all().schedule_all(now) == Seq::new(
            m.potions.len(),
            |i: int| TimerAction::Fire(m.potions[i].potion),
        ),
        forall|i: int, j: int|
            0 <= i < j < m.potions.len() ==> (#[trigger] m.cancel_all().schedule_all(now)[i]) != (
            #[trigger] m.cancel_all().schedule_all(now)[j]),
        forall|potion: Potion| #[trigger]
            m.configured(potion) ==> m.cancel_all().schedule_all(now).contains(
                TimerAction::Fire(potion),
            ),
{
    let after = m.cancel_all();
    let fired = after.schedule_all(now);
    assert(fired =~= Seq::new(m.potions.len(), |i: int| TimerAction::Fire(m.potions[i].potion)));
    assert forall|i: int, j: int| 0 <= i < j < m.potions.len() implies (#[trigger] fired[i]) != (
    #[trigger] fired[j]) by {
        assert(m.potions[i].potion != m.potions[j].potion);
    }
    assert forall|potion: Potion| #[trigger] m.configured(potion) implies fired.contains(
        TimerAction::Fire(potion),
    ) by {
        let i = m.position(potion);
        assert(m.tracks(potion, i));
        assert(fired[i] == TimerAction::Fire(potion));
    }
}

/// Epoch isolation: a delay that the scheduler handed out before a
/// `cancel_all` produces no drink event when it has run, however many calls
/// of whatever kind have followed the cancellation.
pub proof fn law_epoch_isolation<K>(
    m: TimerModel<K>,
    action: TimerAction,
    now: u64,
    later: Seq<TimerOp>,
)
    requires
        m.epoch <= u64::MAX,
        m.starts_delay(action, now),
    ensures
        action matches TimerAction::Delay { potion, nanos, epoch } && m.cancel_all().apply_all(
            later,
        ).timer_elapsed(potion, epoch) is None,
{
    law_epoch_monotonic(m.cancel_all(), later);
    if m.schedule_all(now).contains(action) {
        let i = choose|i: int| 0 <= i < m.schedule_all(now).len() && m.schedule_all(now)[i] == action;
        assert(action == m.potions[i].action_at(now, m.epoch as u64));
    }
}

/// While no `cancel_all` intervenes, a delay that has run produces the drink
/// event of its potion, exactly one.
pub proof fn law_delay_fires_without_cancel<K>(m: TimerModel<K>, action: TimerAction, now: u64)
    requires
        m.epoch <= u64::MAX,
        m.starts_delay(action, now),
    ensures
        action matches TimerAction::Delay { potion, nanos, epoch } && m.timer_elapsed(potion, epoch)
            == Some(FisherEvent::DrinkPotion(potion)),
{
    if m.schedule_all(now).contains(action) {
        let i = choose|i: int| 0 <= i < m.schedule_all(now).len() && m.schedule_all(now)[i] == action;
        assert(action == m.potions[i].action_at(now, m.epoch as u64));
    }
}

/// The entry of one potion of the configuration: none without a slot.
pub open spec fn configured_entry<K>(potion: Potion, slot: Option<K>, duration_secs: u64) -> Seq<
    PotionState<K>,
> {
    match slot {
        Some(k) => seq![PotionState { potion, slot: k, duration_secs, last_drunk: None }],
        None => seq![],
    }
}

/// The potions that a configuration enables, never drunk, in the order
/// sonar, fishing, crate, food.
pub open spec fn configured_potions<K>(pc: PotionsConfig<K>) -> Seq<PotionState<K>> {
    configured_entry(Potion::Sonar, pc.sonar_potion, pc.sonar_potion_duration_secs)
        + configured_entry(Potion::Fishing, pc.fishing_potion, pc.fishing_potion_duration_secs)
        + configured_entry(Potion::Crate, pc.crate_potion, pc.crate_potion_duration_secs)
        + configured_entry(Potion::Food, pc.food, pc.food_duration_secs)
}

/// Tracks when each enabled potion is due again.
///
/// The scheduler itself neither sleeps nor sends: it answers with
/// [`TimerAction`]s. Every delay carries the epoch in which it was started,
/// and `cancel_all` advances the epoch, which voids all of them at once.
pub struct PotionScheduler<K> {
    potions: Vec<PotionState<K>>,
    epoch: u64,
}

impl<K> View for PotionScheduler<K> {
    type V = TimerModel<K>;

    closed spec fn view(&self) -> TimerModel<K> {
        TimerModel { potions: self.potions@, epoch: self.epoch as nat }
    }
}

impl<K> PotionScheduler<K> {
    #[verifier::type_invariant]
    pub closed spec fn inv(&self) -> bool {
        self@.wf()
    }
}

impl<K: Copy> PotionScheduler<K> {
    /// The scheduler of the potions that `config` enables, none of them drunk.
    pub fn new(config: &ConfigInner<K>) -> (r: Self)
        ensures
            r@.potions == configured_potions(config.fisher.potions),
            r@.epoch == 0,
            r@.wf(),
    {
        let pc = &config.fisher.potions;
        let mut potions: Vec<PotionState<K>> = Vec::new();
        if let Some(slot) = pc.sonar_potion {
            potions.push(
                PotionState {
                    potion: Potion::Sonar,
                    slot,
                    duration_secs: pc.sonar_potion_duration_secs,
                    last_drunk: None,
                },
            );
        }
        if let Some(slot) = pc.fishing_potion {
            potions.push(
                PotionState {
                    potion: Potion::Fishing,
                    slot,
                    duration_secs: pc.fishing_potion_duration_secs,
                    last_drunk: None,
                },
            );
        }
        if let Some(slot) = pc.crate_potion {
            potions.push(
                PotionState {
                    potion: Potion::Crate,
                    slot,
                    duration_secs: pc.crate_potion_duration_secs,
                    last_drunk: None,
                },
            );
        }
        if let Some(slot) = pc.food {
            potions.push(
                PotionState {
                    potion: Potion::Food,
                    slot,
                    duration_secs: pc.food_duration_secs,
                    last_drunk: None,
                },
            );
        }
        assert(potions@ =~= configured_potions(config.fisher.potions));
        Self { potions, epoch: 0 }
    }

    /// Voids every delay started so far and resets every potion to "never
    /// drunk", as if the scheduler had just been made.
    ///
    /// The epoch is a 64-bit counter: it cannot advance past its last value.
    pub fn cancel_all(&mut self)
        requires
            old(self)@.epoch < u64::MAX,
        ensures
            final(self)@ == old(self)@.cancel_all(),
    {
        proof {
            use_type_invariant(&*self);
        }
        let mut potions: Vec<PotionState<K>> = Vec::new();
        let mut i: usize = 0;
        while i < self.potions.len()
            invariant
                i <= self.potions.len(),
                potions.len() == i,
                forall|k: int| 0 <= k < i ==> potions@[k] == self.potions@[k].reset(),
            decreases self.potions.len() - i,
        {
            let state = self.potions[i];
            potions.push(
                PotionState {
                    potion: state.potion,
                    slot: state.slot,
                    duration_secs: state.duration_secs,
                    last_drunk: None,
                },
            );
            i += 1;
        }
        assert(potions@ =~= old(self)@.cancel_all().potions);
        self.potions = potions;
        self.epoch = self.epoch + 1;
    }

    /// Looks at every enabled potion at `now`: one that is due (or was never
    /// drunk) is to be fired at once, any other gets a delay for the rest of
    /// its period, tied to the current epoch.
    pub fn schedule_all(&self, now: u64) -> (r: Vec<TimerAction>)
        ensures
            r@ == self@.schedule_all(now),
    {
        let mut actions: Vec<TimerAction> = Vec::new();
        let mut i: usize = 0;
        while i < self.potions.len()
            invariant
                i <= self.potions.len(),
                actions.len() == i,
                forall|k: int|
                    0 <= k < i ==> actions@[k] == self.potions@[k].action_at(now, self.epoch),
            decreases self.potions.len() - i,
        {
            let state = &self.potions[i];
            let period: u128 = (state.duration_secs as u128) * 1_000_000_000u128;
            let action = match state.last_drunk {
                None => TimerAction::Fire(state.potion),
                Some(t) => {
                    let elapsed: u128 = if now >= t {
                        (now - t) as u128
                    } else {
                        0
                    };
                    if elapsed >= period {
                        TimerAction::Fire(state.potion)
                    } else {
                        TimerAction::Delay {
                            potion: state.potion,
                            nanos: period - elapsed,
                            epoch: self.epoch,
                        }
                    }
                },
            };
            actions.push(action);
            i += 1;
        }
        assert(actions@ =~= self@.schedule_all(now));
        actions
    }

    /// The index of `potion` among the tracked potions.
    fn find(&self, potion: Potion) -> (r: Option<usize>)
        ensures
            r is Some == self@.configured(potion),
            r matches Some(i) ==> i == self@.position(potion) && self@.tracks(potion, i as int),
    {
        proof {
            use_type_invariant(self);
        }
        let mut i: usize = 0;
        while i < self.potions.len()
            invariant
                i <= self.potions.len(),
                self@.wf(),
                forall|k: int| 0 <= k < i ==> !self@.tracks(potion, k),
            decreases self.potions.len() - i,
        {
            if self.potions[i].potion == potion {
                assert(self@.tracks(potion, i as int));
                let ghost c = self@.position(potion);
                assert(self@.tracks(potion, c));
                assert(c == i) by {
                    if c < i {
                        assert(self@.potions[c].potion == self@.potions[i as int].potion);
                    } else if i < c {
                        assert(self@.potions[i as int].potion == self@.potions[c].potion);
                    }
                }
                return Some(i);
            }
            i += 1;
        }
        None
    }

    /// Records that `potion` was drunk at `now` and answers with the delay
    /// that brings its next drink, a full period on, tied to the current
    /// epoch. A potion that is not enabled changes nothing and gets no delay.
    pub fn mark_drunk(&mut self, potion: Potion, now: u64) -> (r: Option<TimerAction>)
        ensures
            final(self)@ == old(self)@.mark_drunk(potion, now),
            r == old(self)@.delay_after_drink(potion),
    {
        proof {
            use_type_invariant(&*self);
        }
        match self.find(potion) {
            Some(found) => {
                let period: u128 = (self.potions[found].duration_secs as u128)
                    * 1_000_000_000u128;
                let mut potions: Vec<PotionState<K>> = Vec::new();
                let mut i: usize = 0;
                while i < self.potions.len()
                    invariant
                        i <= self.potions.len(),
                        potions.len() == i,
                        forall|k: int|
                            0 <= k < i ==> potions@[k] == if self.potions@[k].potion == potion {
                                self.potions@[k].drunk_at(now)
                            } else {
                                self.potions@[k]
                            },
                    decreases self.potions.len() - i,
                {
                    let state = self.potions[i];
                    if state.potion == potion {
                        potions.push(
                            PotionState {
                                potion: state.potion,
                                slot: state.slot,
                                duration_secs: state.duration_secs,
                                last_drunk: Some(now),
                            },
                        );
                    } else {
                        potions.push(state);
                    }
                    i += 1;
                }
                assert(potions@ =~= old(self)@.mark_drunk(potion, now).potions);
                self.potions = potions;
                Some(TimerAction::Delay { potion, nanos: period, epoch: self.epoch })
            },
            None => {
                assert(self.potions@ =~= old(self)@.mark_drunk(potion, now).potions) by {
                    assert forall|k: int| 0 <= k < self.potions@.len() implies self.potions@[k].potion
                        != potion by {
                        assert(!self@.tracks(potion, k));
                    }
                }
                None
            },
        }
    }

    /// A delay started in `epoch` has run. While `epoch` is still the current
    /// one this is the drink event of `potion`; after a `cancel_all` it is
    /// nothing.
    pub fn timer_elapsed(&self, potion: Potion, epoch: u64) -> (r: Option<FisherEvent>)
        ensures
            r == self@.timer_elapsed(potion, epoch),
    {
        if epoch == self.epoch {
            Some(FisherEvent::DrinkPotion(potion))
        } else {
            None
        }
    }

    /// The epoch that delays started now are tied to.
    pub fn epoch(&self) -> (r: u64)
        ensures
            r == self@.epoch,
    {
        self.epoch
    }

    /// The hotbar key of `potion`, if the potion is enabled.
    pub fn slot_for(&self, potion: Potion) -> (r: Option<K>)
        ensures
            r == self@.slot_for(potion),
    {
        match self.find(potion) {
            Some(i) => Some(self.potions[i].slot),
            None => None,
        }
    }

    /// Whether no potion is enabled at all.
    pub fn is_empty(&self) -> (r: bool)
        ensures
            r == (self@.potions.len() == 0),
    {
        self.potions.len() == 0
    }

    /// The enabled potions with their period in seconds and their key, in
    /// the scheduler's order.
    pub fn iter(&self) -> (r: Vec<(Potion, u64, K)>)
        ensures
            r@.len() == self@.potions.len(),
            forall|i: int|
                0 <= i < r@.len() ==> r@[i] == (
                    self@.potions[i].potion,
                    self@.potions[i].duration_secs,
                    self@.potions[i].slot,
                ),
    {
        let mut out: Vec<(Potion, u64, K)> = Vec::new();
        let mut i: usize = 0;
        while i < self.potions.len()
            invariant
                i <= self.potions.len(),
                out.len() == i,
                forall|k: int|
                    0 <= k < i ==> out@[k] == (
                        self.potions@[k].potion,
                        self.potions@[k].duration_secs,
                        self.potions@[k].slot,
                    ),
            decreases self.potions.len() - i,
        {
            let state = &self.potions[i];
            out.push((state.potion, state.duration_secs, state.slot));
            i += 1;
        }
        out
    }
}

} // verus!
