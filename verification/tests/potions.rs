use terraria_fisher::bot::event::FisherEvent;
use terraria_fisher::bot::potions::split_nanos;
use terraria_fisher::bot::potions::Potion;
use terraria_fisher::bot::potions::PotionScheduler;
use terraria_fisher::bot::potions::TimerAction;
use terraria_fisher::bot::potions::NANOS_PER_SEC;
use terraria_fisher::utils::config::ConfigInner;
use terraria_fisher::utils::config::FisherConfig;
use terraria_fisher::utils::config::HotkeyConfig;
use terraria_fisher::utils::config::PotionsConfig;
use terraria_fisher::utils::config::ScannerConfig;

const SEC: u64 = 1_000_000_000;

fn config_with(potions: PotionsConfig<char>) -> ConfigInner<char> {
    ConfigInner {
        scanner: ScannerConfig::default(),
        fisher: FisherConfig {
            rod_slot: '1',
            fishes: Vec::new(),
            recast_interval: 1000,
            catch_delay_ms: 250,
            potions,
            hotkeys: HotkeyConfig { toggle: '\\', pause: ']' },
        },
    }
}

fn sonar_only(secs: u64) -> PotionScheduler<char> {
    let mut potions: PotionsConfig<char> = PotionsConfig::default();
    potions.sonar_potion = Some('2');
    potions.sonar_potion_duration_secs = secs;
    PotionScheduler::new(&config_with(potions))
}

fn all_four() -> PotionScheduler<char> {
    PotionScheduler::new(&config_with(PotionsConfig {
        sonar_potion_duration_secs: 10,
        sonar_potion: Some('2'),
        fishing_potion_duration_secs: 20,
        fishing_potion: Some('3'),
        crate_potion_duration_secs: 30,
        crate_potion: Some('4'),
        food_duration_secs: 40,
        food: Some('5'),
    }))
}

#[test]
fn nanos_per_sec_is_a_billion() {
    assert_eq!(NANOS_PER_SEC, 1_000_000_000);
}

#[test]
fn potion_names() {
    assert_eq!(Potion::Sonar.name(), "Sonar");
    assert_eq!(Potion::Fishing.name(), "Fishing");
    assert_eq!(Potion::Crate.name(), "Crate");
    assert_eq!(Potion::Food.name(), "Food");
    assert_eq!(Potion::Food.to_string(), "Food".to_string());
    assert_eq!(Potion::Sonar.to_string(), "Sonar".to_string());
}

#[test]
fn no_potion_configured() {
    let scheduler: PotionScheduler<char> =
        PotionScheduler::new(&config_with(PotionsConfig::default()));
    assert!(scheduler.is_empty());
    assert_eq!(scheduler.schedule_all(5), Vec::new());
    assert_eq!(scheduler.slot_for(Potion::Sonar), None);
    assert!(scheduler.iter().is_empty());
    assert_eq!(scheduler.epoch(), 0);
}

#[test]
fn configured_potions_keep_their_order_slots_and_periods() {
    let scheduler = all_four();
    assert!(!scheduler.is_empty());
    assert_eq!(
        scheduler.iter(),
        vec![
            (Potion::Sonar, 10, '2'),
            (Potion::Fishing, 20, '3'),
            (Potion::Crate, 30, '4'),
            (Potion::Food, 40, '5'),
        ]
    );
    assert_eq!(scheduler.slot_for(Potion::Sonar), Some('2'));
    assert_eq!(scheduler.slot_for(Potion::Fishing), Some('3'));
    assert_eq!(scheduler.slot_for(Potion::Crate), Some('4'));
    assert_eq!(scheduler.slot_for(Potion::Food), Some('5'));
}

#[test]
fn a_potion_without_slot_is_disabled() {
    let mut potions: PotionsConfig<char> = PotionsConfig::default();
    potions.crate_potion = Some('7');
    potions.food = Some('8');
    let scheduler = PotionScheduler::new(&config_with(potions));
    assert_eq!(scheduler.iter(), vec![(Potion::Crate, 240, '7'), (Potion::Food, 1080, '8')]);
    assert_eq!(scheduler.slot_for(Potion::Sonar), None);
    assert_eq!(scheduler.slot_for(Potion::Fishing), None);
    assert_eq!(scheduler.slot_for(Potion::Crate), Some('7'));
}

#[test]
fn never_drunk_potions_fire_at_once() {
    let scheduler = all_four();
    assert_eq!(
        scheduler.schedule_all(123),
        vec![
            TimerAction::Fire(Potion::Sonar),
            TimerAction::Fire(Potion::Fishing),
            TimerAction::Fire(Potion::Crate),
            TimerAction::Fire(Potion::Food),
        ]
    );
}

#[test]
fn remaining_time_is_period_minus_elapsed() {
    let mut scheduler = sonar_only(5);
    scheduler.mark_drunk(Potion::Sonar, 1 * SEC);
    assert_eq!(
        scheduler.schedule_all(3 * SEC),
        vec![TimerAction::Delay { potion: Potion::Sonar, nanos: 3_000_000_000, epoch: 0 }]
    );
    assert_eq!(
        scheduler.schedule_all(6 * SEC - 1),
        vec![TimerAction::Delay { potion: Potion::Sonar, nanos: 1, epoch: 0 }]
    );
    assert_eq!(scheduler.schedule_all(6 * SEC), vec![TimerAction::Fire(Potion::Sonar)]);
    assert_eq!(scheduler.schedule_all(60 * SEC), vec![TimerAction::Fire(Potion::Sonar)]);
}

#[test]
fn a_drink_stamped_after_now_has_not_aged() {
    let mut scheduler = sonar_only(5);
    scheduler.mark_drunk(Potion::Sonar, 10 * SEC);
    assert_eq!(
        scheduler.schedule_all(2 * SEC),
        vec![TimerAction::Delay { potion: Potion::Sonar, nanos: 5_000_000_000, epoch: 0 }]
    );
}

#[test]
fn the_longest_period_does_not_overflow() {
    let mut scheduler = sonar_only(u64::MAX);
    let delay = scheduler.mark_drunk(Potion::Sonar, 0);
    let full: u128 = (u64::MAX as u128) * 1_000_000_000;
    assert_eq!(delay, Some(TimerAction::Delay { potion: Potion::Sonar, nanos: full, epoch: 0 }));
    assert_eq!(
        scheduler.schedule_all(u64::MAX),
        vec![TimerAction::Delay {
            potion: Potion::Sonar,
            nanos: full - (u64::MAX as u128),
            epoch: 0
        }]
    );
}

#[test]
fn a_period_of_zero_is_always_due() {
    let mut scheduler = sonar_only(0);
    scheduler.mark_drunk(Potion::Sonar, 7);
    assert_eq!(scheduler.schedule_all(7), vec![TimerAction::Fire(Potion::Sonar)]);
}

#[test]
fn mark_drunk_answers_with_a_full_period() {
    let mut scheduler = all_four();
    assert_eq!(
        scheduler.mark_drunk(Potion::Crate, 77),
        Some(TimerAction::Delay { potion: Potion::Crate, nanos: 30_000_000_000, epoch: 0 })
    );
    assert_eq!(
        scheduler.schedule_all(77 + SEC),
        vec![
            TimerAction::Fire(Potion::Sonar),
            TimerAction::Fire(Potion::Fishing),
            TimerAction::Delay { potion: Potion::Crate, nanos: 29_000_000_000, epoch: 0 },
            TimerAction::Fire(Potion::Food),
        ]
    );
}

#[test]
fn mark_drunk_of_a_disabled_potion_does_nothing() {
    let mut scheduler = sonar_only(5);
    assert_eq!(scheduler.mark_drunk(Potion::Food, 1), None);
    assert_eq!(scheduler.schedule_all(2), vec![TimerAction::Fire(Potion::Sonar)]);
    assert_eq!(scheduler.iter(), vec![(Potion::Sonar, 5, '2')]);
}

#[test]
fn cancel_all_resets_every_potion_and_the_next_schedule_fires_each_once() {
    let mut scheduler = all_four();
    scheduler.mark_drunk(Potion::Sonar, SEC);
    scheduler.mark_drunk(Potion::Fishing, SEC);
    scheduler.mark_drunk(Potion::Crate, SEC);
    scheduler.mark_drunk(Potion::Food, SEC);
    let before = scheduler.schedule_all(2 * SEC);
    assert!(before.iter().all(|a| matches!(a, TimerAction::Delay { .. })));
    scheduler.cancel_all();
    assert_eq!(scheduler.epoch(), 1);
    assert_eq!(
        scheduler.schedule_all(2 * SEC),
        vec![
            TimerAction::Fire(Potion::Sonar),
            TimerAction::Fire(Potion::Fishing),
            TimerAction::Fire(Potion::Crate),
            TimerAction::Fire(Potion::Food),
        ]
    );
    assert_eq!(scheduler.iter().len(), 4);
}

#[test]
fn delays_from_before_a_cancellation_produce_nothing() {
    let mut scheduler = all_four();
    let delay = scheduler.mark_drunk(Potion::Fishing, SEC).unwrap();
    let (potion, epoch) = match delay {
        TimerAction::Delay { potion, epoch, .. } => (potion, epoch),
        TimerAction::Fire(_) => panic!("a drink is followed by a delay"),
    };
    assert_eq!(
        scheduler.timer_elapsed(potion, epoch),
        Some(FisherEvent::DrinkPotion(Potion::Fishing))
    );
    scheduler.cancel_all();
    assert_eq!(scheduler.timer_elapsed(potion, epoch), None);
    scheduler.mark_drunk(Potion::Fishing, 2 * SEC);
    scheduler.schedule_all(3 * SEC);
    assert_eq!(scheduler.timer_elapsed(potion, epoch), None);
    scheduler.cancel_all();
    assert_eq!(scheduler.timer_elapsed(potion, epoch), None);
    assert_eq!(scheduler.epoch(), 2);
}

#[test]
fn delays_of_the_new_epoch_fire() {
    let mut scheduler = sonar_only(5);
    scheduler.cancel_all();
    let delay = scheduler.mark_drunk(Potion::Sonar, SEC);
    assert_eq!(
        delay,
        Some(TimerAction::Delay { potion: Potion::Sonar, nanos: 5_000_000_000, epoch: 1 })
    );
    assert_eq!(
        scheduler.timer_elapsed(Potion::Sonar, 1),
        Some(FisherEvent::DrinkPotion(Potion::Sonar))
    );
    assert_eq!(scheduler.timer_elapsed(Potion::Sonar, 0), None);
    assert_eq!(scheduler.timer_elapsed(Potion::Sonar, 2), None);
}

#[test]
fn sonar_of_five_seconds_from_first_schedule_to_next_drink() {
    let t0 = 40 * SEC;
    let mut scheduler = sonar_only(5);
    assert_eq!(scheduler.schedule_all(t0), vec![TimerAction::Fire(Potion::Sonar)]);
    let delay = scheduler.mark_drunk(Potion::Sonar, t0);
    assert_eq!(
        delay,
        Some(TimerAction::Delay { potion: Potion::Sonar, nanos: 5_000_000_000, epoch: 0 })
    );
    assert_eq!(
        scheduler.schedule_all(t0 + 5 * SEC - 1),
        vec![TimerAction::Delay { potion: Potion::Sonar, nanos: 1, epoch: 0 }]
    );
    assert_eq!(
        scheduler.timer_elapsed(Potion::Sonar, 0),
        Some(FisherEvent::DrinkPotion(Potion::Sonar))
    );
    assert_eq!(scheduler.schedule_all(t0 + 5 * SEC), vec![TimerAction::Fire(Potion::Sonar)]);
}

#[test]
fn sonar_of_five_seconds_cancelled_in_between() {
    let t0 = 40 * SEC;
    let mut scheduler = sonar_only(5);
    assert_eq!(scheduler.schedule_all(t0), vec![TimerAction::Fire(Potion::Sonar)]);
    let delay = scheduler.mark_drunk(Potion::Sonar, t0);
    assert!(matches!(delay, Some(TimerAction::Delay { epoch: 0, .. })));
    scheduler.cancel_all();
    assert_eq!(scheduler.timer_elapsed(Potion::Sonar, 0), None);
}

#[test]
fn split_nanos_gives_seconds_and_rest() {
    assert_eq!(split_nanos(0), (0, 0));
    assert_eq!(split_nanos(999_999_999), (0, 999_999_999));
    assert_eq!(split_nanos(1_000_000_000), (1, 0));
    assert_eq!(split_nanos(3_500_000_001), (3, 500_000_001));
    let most: u128 = (u64::MAX as u128) * 1_000_000_000 + 999_999_999;
    assert_eq!(split_nanos(most), (u64::MAX, 999_999_999));
    assert_eq!(split_nanos(most + 1), (u64::MAX, 0));
    assert_eq!(split_nanos(u128::MAX), (u64::MAX, (u128::MAX % 1_000_000_000) as u32));
}
