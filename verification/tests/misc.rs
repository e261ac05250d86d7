use terraria_fisher::bot::catalog::ItemCatalog;
use terraria_fisher::bot::event::FisherEvent;
use terraria_fisher::bot::event::FISH_EVENT_TTL;
use terraria_fisher::bot::potions::Potion;
use terraria_fisher::bot::reader::ReaderError;
use terraria_fisher::utils::config::default_catch_delay;
use terraria_fisher::utils::config::default_crate_potion_duration_secs;
use terraria_fisher::utils::config::default_fishing_potion_duration_secs;
use terraria_fisher::utils::config::default_food_duration_secs;
use terraria_fisher::utils::config::default_poll_interval;
use terraria_fisher::utils::config::default_recast_interval;
use terraria_fisher::utils::config::default_sonar_potion_duration_secs;
use terraria_fisher::utils::config::PotionsConfig;
use terraria_fisher::utils::config::ScannerConfig;
use terraria_fisher::utils::process::find_process_by_name;
use terraria_fisher::utils::process::first_equal;
use terraria_fisher::utils::process::ProcessEntry;
use terraria_fisher::utils::text::contains_any;
use terraria_fisher::utils::text::lowercase_all;
use terraria_fisher::utils::text::matches_any_fragment;

const SEC: u64 = 1_000_000_000;

#[test]
fn default_values() {
    assert_eq!(default_poll_interval(), 25);
    assert_eq!(default_recast_interval(), 1000);
    assert_eq!(default_catch_delay(), 250);
    assert_eq!(default_sonar_potion_duration_secs(), 480);
    assert_eq!(default_fishing_potion_duration_secs(), 480);
    assert_eq!(default_crate_potion_duration_secs(), 240);
    assert_eq!(default_food_duration_secs(), 1080);
}

#[test]
fn default_configs() {
    assert_eq!(ScannerConfig::default(), ScannerConfig { poll_interval_ms: 25 });
    let potions: PotionsConfig<u8> = PotionsConfig::default();
    assert_eq!(potions.sonar_potion_duration_secs, 480);
    assert_eq!(potions.fishing_potion_duration_secs, 480);
    assert_eq!(potions.crate_potion_duration_secs, 240);
    assert_eq!(potions.food_duration_secs, 1080);
    assert_eq!(potions.sonar_potion, None);
    assert_eq!(potions.fishing_potion, None);
    assert_eq!(potions.crate_potion, None);
    assert_eq!(potions.food, None);
}

#[test]
fn time_to_live_is_one_second() {
    assert_eq!(FISH_EVENT_TTL, 1_000_000_000);
}

#[test]
fn ephemeral_events_go_stale_after_more_than_a_second() {
    let now = 10 * SEC;
    let fresh = FisherEvent::FishDetected { fish_id: 1, timestamp: now - SEC };
    let stale = FisherEvent::FishDetected { fish_id: 1, timestamp: now - SEC - 1 };
    assert!(!fresh.is_stale(now));
    assert!(stale.is_stale(now));
    assert!(!FisherEvent::Cast { timestamp: now }.is_stale(now));
    assert!(FisherEvent::Cast { timestamp: 0 }.is_stale(now));
    assert!(!FisherEvent::Cast { timestamp: now + 5 * SEC }.is_stale(now));
    assert!(FisherEvent::Cast { timestamp: 0 }.is_stale(u64::MAX));
}

#[test]
fn persistent_events_never_go_stale() {
    for event in [FisherEvent::Toggle, FisherEvent::Pause, FisherEvent::DrinkPotion(Potion::Food)] {
        assert!(!event.is_stale(u64::MAX));
        assert_eq!(event.timestamp(), None);
    }
    assert_eq!(FisherEvent::Cast { timestamp: 5 }.timestamp(), Some(5));
    assert_eq!(FisherEvent::FishDetected { fish_id: 3, timestamp: 9 }.timestamp(), Some(9));
}

fn strings(items: &[&str]) -> Vec<String> {
    items.iter().map(|s| s.to_string()).collect()
}

#[test]
fn contains_any_compares_as_given() {
    let needles = strings(&["bass", "rout"]);
    assert!(contains_any("sea bass", &needles));
    assert!(contains_any("trout", &needles));
    assert!(!contains_any("Sea Bass", &needles));
    assert!(!contains_any("salmon", &needles));
    assert!(!contains_any("bass", &Vec::new()));
    assert!(contains_any("anything", &strings(&[""])));
    assert!(contains_any("", &strings(&[""])));
    assert!(!contains_any("bas", &needles));
}

#[test]
fn lowercase_all_lowers_each_item() {
    assert_eq!(lowercase_all(&strings(&["BaSS", "trout", "ÄB", ""])), strings(&["bass", "trout", "äb", ""]));
    assert_eq!(lowercase_all(&Vec::new()), Vec::<String>::new());
}

#[test]
fn fragments_match_without_case() {
    let fragments = strings(&["BASS", "Golden"]);
    assert!(matches_any_fragment("Bass", &fragments));
    assert!(matches_any_fragment("sea bass", &fragments));
    assert!(matches_any_fragment("GOLDEN CRATE", &fragments));
    assert!(!matches_any_fragment("Trout", &fragments));
    assert!(!matches_any_fragment("Bass", &Vec::new()));
}

#[test]
fn catalog_gives_the_first_name_of_an_id() {
    let catalog = ItemCatalog::new(vec![
        (1, "One".to_string()),
        (2, "Two".to_string()),
        (1, "Uno".to_string()),
        (-3, "Minus".to_string()),
    ]);
    assert_eq!(catalog.len(), 4);
    assert_eq!(catalog.name_of(1), Some("One"));
    assert_eq!(catalog.name_of(2), Some("Two"));
    assert_eq!(catalog.name_of(-3), Some("Minus"));
    assert_eq!(catalog.name_of(3), None);
    assert_eq!(catalog.resolve_fish(2), "Two");
    assert_eq!(catalog.resolve_fish(3), "Unknown Fish");
    let empty = ItemCatalog::new(Vec::new());
    assert_eq!(empty.name_of(1), None);
    assert_eq!(empty.resolve_fish(1), "Unknown Fish");
}

fn entry(pid: u32, exe_file: &str) -> ProcessEntry {
    ProcessEntry { pid, exe_file: exe_file.to_string() }
}

#[test]
fn first_equal_finds_the_first_position() {
    let names = strings(&["a", "b", "a", ""]);
    assert_eq!(first_equal(&names, &"a".to_string()), Some(0));
    assert_eq!(first_equal(&names, &"b".to_string()), Some(1));
    assert_eq!(first_equal(&names, &"".to_string()), Some(3));
    assert_eq!(first_equal(&names, &"A".to_string()), None);
    assert_eq!(first_equal(&Vec::new(), &"a".to_string()), None);
}

#[test]
fn process_is_found_by_name_without_case_and_padding() {
    let entries = vec![
        entry(4, "System\0\0\0"),
        entry(812, "explorer.exe\0\0"),
        entry(4711, "TERRARIA.EXE\0\0\0\0"),
        entry(4712, "terraria.exe"),
    ];
    assert_eq!(find_process_by_name(&entries, "Terraria.exe"), Ok(4711));
    assert_eq!(find_process_by_name(&entries, "terraria.exe"), Ok(4711));
    assert_eq!(find_process_by_name(&entries, "EXPLORER.EXE"), Ok(812));
    assert_eq!(find_process_by_name(&entries, "system"), Ok(4));
}

#[test]
fn process_that_is_not_listed_is_not_found() {
    let entries = vec![entry(4, "System\0"), entry(9, "terraria.exe.bak"), entry(10, "\0terraria.exe")];
    assert_eq!(find_process_by_name(&entries, "Terraria.exe"), Err(ReaderError::ProcessNotFound));
    assert_eq!(find_process_by_name(&Vec::new(), "Terraria.exe"), Err(ReaderError::ProcessNotFound));
    assert_eq!(find_process_by_name(&entries, "terraria"), Err(ReaderError::ProcessNotFound));
}

#[test]
fn padding_of_the_wanted_name_is_not_removed() {
    let entries = vec![entry(5, "game.exe\0\0")];
    assert_eq!(find_process_by_name(&entries, "game.exe"), Ok(5));
    assert_eq!(find_process_by_name(&entries, "game.exe\0"), Err(ReaderError::ProcessNotFound));
}
