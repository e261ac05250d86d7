use vstd::prelude::*;

verus! {

/// Milliseconds between two samples of the fishing state.
pub const DEFAULT_POLL_INTERVAL: u64 = 25;

/// Milliseconds between reeling in and casting again.
pub const DEFAULT_RECAST_INTERVAL: u64 = 1000;

/// Milliseconds between a detection and the click that reels in.
pub const DEFAULT_CATCH_DELAY: u64 = 250;

pub const DEFAULT_SONAR_POTION_DURATION_SECS: u64 = 480;

pub const DEFAULT_FISHING_POTION_DURATION_SECS: u64 = 480;

pub const DEFAULT_CRATE_POTION_DURATION_SECS: u64 = 240;

/// Food buffs are renewed every eighteen minutes.
pub const DEFAULT_FOOD_DURATION_SECS: u64 = 1080;

pub fn default_poll_interval() -> (r: u64)
    ensures
        r == 25,
{
    DEFAULT_POLL_INTERVAL
}

pub fn default_recast_interval() -> (r: u64)
    ensures
        r == 1000,
{
    DEFAULT_RECAST_INTERVAL
}

pub fn default_catch_delay() -> (r: u64)
    ensures
        r == 250,
{
    DEFAULT_CATCH_DELAY
}

pub fn default_sonar_potion_duration_secs() -> (r: u64)
    ensures
        r == 480,
{
    DEFAULT_SONAR_POTION_DURATION_SECS
}

pub fn default_fishing_potion_duration_secs() -> (r: u64)
    ensures
        r == 480,
{
    DEFAULT_FISHING_POTION_DURATION_SECS
}

pub fn default_crate_potion_duration_secs() -> (r: u64)
    ensures
        r == 240,
{
    DEFAULT_CRATE_POTION_DURATION_SECS
}

pub fn default_food_duration_secs() -> (r: u64)
    ensures
        r == 1080,
{
    DEFAULT_FOOD_DURATION_SECS
}

/// Settings of the memory poller.
#[derive(Debug, Clone, Copy, PartialEq, Eq, Structural)]
pub struct ScannerConfig {
    pub poll_interval_ms: u64,
}

impl Default for ScannerConfig {
    fn default() -> (r: Self)
        ensures
            r.poll_interval_ms == 25,
    {
        ScannerConfig { poll_interval_ms: default_poll_interval() }
    }
}

/// Hotbar slot and refresh period of each potion. A potion without a slot is
/// disabled. `K` is the caller's type of a key; the library only carries keys.
#[derive(Debug, Clone)]
pub struct PotionsConfig<K> {
    pub sonar_potion_duration_secs: u64,
    pub sonar_potion: Option<K>,
    pub fishing_potion_duration_secs: u64,
    pub fishing_potion: Option<K>,
    pub crate_potion_duration_secs: u64,
    pub crate_potion: Option<K>,
    pub food_duration_secs: u64,
    pub food: Option<K>,
}

impl<K> Default for PotionsConfig<K> {
    fn default() -> (r: Self)
        ensures
            r.sonar_potion_duration_secs == 480,
            r.sonar_potion is None,
            r.fishing_potion_duration_secs == 480,
            r.fishing_potion is None,
            r.crate_potion_duration_secs == 240,
            r.crate_potion is None,
            r.food_duration_secs == 1080,
            r.food is None,
    {
        PotionsConfig {
            sonar_potion_duration_secs: default_sonar_potion_duration_secs(),
            sonar_potion: None,
            fishing_potion_duration_secs: default_fishing_potion_duration_secs(),
            fishing_potion: None,
            crate_potion_duration_secs: default_crate_potion_duration_secs(),
            crate_potion: None,
            food_duration_secs: default_food_duration_secs(),
            food: None,
        }
    }
}

/// The keys that switch the macro on and off and that pause it.
#[derive(Debug, Clone)]
pub struct HotkeyConfig<K> {
    pub toggle: K,
    pub pause: K,
}

/// Settings of the coordinator.
#[derive(Debug, Clone)]
pub struct FisherConfig<K> {
    /// The hotbar key of the fishing rod.
    pub rod_slot: K,
    /// Name fragments of the catches worth reeling in, compared without case.
    pub fishes: Vec<String>,
    /// Milliseconds between reeling in and casting again.
    pub recast_interval: u64,
    /// Milliseconds between a detection and the click that reels in.
    pub catch_delay_ms: u64,
    pub potions: PotionsConfig<K>,
    pub hotkeys: HotkeyConfig<K>,
}

/// Everything the macro is configured with, fixed at startup.
#[derive(Debug, Clone)]
pub struct ConfigInner<K> {
    pub scanner: ScannerConfig,
    pub fisher: FisherConfig<K>,
}

} // verus!
