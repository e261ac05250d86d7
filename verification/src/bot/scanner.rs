use crate::utils::config::ScannerConfig;
use vstd::prelude::*;

verus! {

/// Where the search for the fishing signature starts.
pub const SCAN_START: usize = 0x10000000;

/// Where the search for the fishing signature ends.
pub const SCAN_END: usize = 0x40000000;

/// Bytes from the start of the signature to the operand that holds the
/// address of the static field.
pub const OPERAND_OFFSET: usize = 10;

/// Bytes from the fishing context to the value that the poller samples.
pub const CONTEXT_OFFSET: u32 = 0x68;

/// Milliseconds that a paused poller sleeps before it looks at its commands
/// again.
pub const PAUSED_SLEEP_MS: u64 = 100;

/// Milliseconds that the poller waits after a failed read.
pub const READ_BACKOFF_MS: u64 = 1000;

/// Commands that the coordinator sends to the poller.
#[derive(Debug, Clone, Copy, PartialEq, Eq, Structural)]
pub enum ScannerCommand {
    /// Write zero over the sampled value, once.
    ZeroMemory,
    /// `true` resumes sampling, `false` pauses it.
    TogglePause(bool),
}

/// The machine code that loads the fishing context: `push ebp`,
/// `mov ebp,esp`, `push edi`, `push esi`, `push eax`, `mov edi,ecx`,
/// `mov esi,ds:[..]` with its four address bytes left open, `mov ecx,edi`,
/// `mov edx,esi`.
pub open spec fn fish_signature() -> Seq<Option<u8>> {
    seq![
        Some(0x55u8),
        Some(0x8Bu8),
        Some(0xECu8),
        Some(0x57u8),
        Some(0x56u8),
        Some(0x50u8),
        Some(0x8Bu8),
        Some(0xF9u8),
        Some(0x8Bu8),
        Some(0x35u8),
        None,
        None,
        None,
        None,
        Some(0x8Bu8),
        Some(0xCFu8),
        Some(0x8Bu8),
        Some(0xD6u8),
    ]
}

/// The pattern that the startup scan looks for.
pub fn fish_pattern() -> (r: Vec<Option<u8>>)
    ensures
        r@ == fish_signature(),
{
    let mut pattern: Vec<Option<u8>> = Vec::new();
    pattern.push(Some(0x55));
    pattern.push(Some(0x8B));
    pattern.push(Some(0xEC));
    pattern.push(Some(0x57));
    pattern.push(Some(0x56));
    pattern.push(Some(0x50));
    pattern.push(Some(0x8B));
    pattern.push(Some(0xF9));
    pattern.push(Some(0x8B));
    pattern.push(Some(0x35));
    pattern.push(None);
    pattern.push(None);
    pattern.push(None);
    pattern.push(None);
    pattern.push(Some(0x8B));
    pattern.push(Some(0xCF));
    pattern.push(Some(0x8B));
    pattern.push(Some(0xD6));
    assert(pattern@ =~= fish_signature());
    pattern
}

/// Where the operand of the matched instruction stands: `OPERAND_OFFSET`
/// bytes behind the match. `None` where that is beyond the last address.
pub fn operand_address(instruction_addr: usize) -> (r: Option<usize>)
    ensures
        r == if instruction_addr + OPERAND_OFFSET <= usize::MAX {
            Some((instruction_addr + OPERAND_OFFSET) as usize)
        } else {
            None
        },
{
    instruction_addr.checked_add(OPERAND_OFFSET)
}

/// The address of the static field: the operand, widened.
pub fn static_field_address(operand: u32) -> (r: usize)
    ensures
        r == operand,
{
    operand as usize
}

/// The address that the poller samples: `CONTEXT_OFFSET` bytes into the
/// fishing context. `None` where that is beyond 32 bits.
pub fn resolved_pointer(context: u32) -> (r: Option<usize>)
    ensures
        r == if context + CONTEXT_OFFSET <= u32::MAX {
            Some((context + CONTEXT_OFFSET) as usize)
        } else {
            None
        },
{
    match context.checked_add(CONTEXT_OFFSET) {
        Some(p) => Some(p as usize),
        None => None,
    }
}

/// What the poller does after one sample.
#[derive(Debug, Clone, Copy, PartialEq, Eq, Structural)]
pub struct PollOutcome {
    /// The catch to report, if the sample is one.
    pub detection: Option<i32>,
    /// Milliseconds to wait first because the read failed; else zero.
    pub backoff_ms: u64,
    /// Milliseconds to sleep before the next tick.
    pub sleep_ms: u64,
}

/// The mathematical state of the poller.
pub struct PollerModel {
    /// The address that is sampled, fixed at startup.
    pub ptr: usize,
    pub poll_interval_ms: u64,
    /// The value last seen; zero while no catch is pending.
    pub last_fish_id: i32,
    /// Whether ticks sample at all.
    pub scanning: bool,
}

impl PollerModel {
    /// The state after a command: only `TogglePause` changes it.
    pub open spec fn command(self, cmd: ScannerCommand) -> Self {
        match cmd {
            ScannerCommand::ZeroMemory => self,
            ScannerCommand::TogglePause(on) => PollerModel { scanning: on, ..self },
        }
    }

    /// The address that a command wants zeroed.
    pub open spec fn zero_target(self, cmd: ScannerCommand) -> Option<usize> {
        match cmd {
            ScannerCommand::ZeroMemory => Some(self.ptr),
            ScannerCommand::TogglePause(on) => None,
        }
    }

    /// The address to sample in this tick; `None` while paused.
    pub open spec fn poll_target(self) -> Option<usize> {
        if self.scanning {
            Some(self.ptr)
        } else {
            None
        }
    }

    /// Whether `sample` is a catch to report: a value that was read, is not
    /// zero, and is not the value last seen.
    pub open spec fn detects(self, sample: Option<i32>) -> bool {
        sample matches Some(v) && v != 0 && v != self.last_fish_id
    }

    /// The state after a sample; `None` is a failed read, which changes
    /// nothing. Any value that was read becomes the value last seen.
    pub open spec fn observe(self, sample: Option<i32>) -> Self {
        match sample {
            Some(v) => PollerModel { last_fish_id: v, ..self },
            None => self,
        }
    }

    pub open spec fn outcome(self, sample: Option<i32>) -> PollOutcome {
        PollOutcome {
            detection: if self.detects(sample) {
                sample
            } else {
                None
            },
            backoff_ms: if sample is None {
                READ_BACKOFF_MS
            } else {
                0
            },
            sleep_ms: self.poll_interval_ms,
        }
    }

    /// The catches reported over a run of samples, first to last.
    pub open spec fn detections(self, samples: Seq<Option<i32>>) -> Seq<i32>
        decreases samples.len(),
    {
        if samples.len() == 0 {
            Seq::empty()
        } else {
            let rest = self.observe(samples[0]).detections(
                samples.subrange(1, samples.len() as int),
            );
            if self.detects(samples[0]) {
                seq![samples[0]->0] + rest
            } else {
                rest
            }
        }
    }
}

/// A value is reported once: while every later read either fails or gives
/// the same value again, nothing more is reported.
pub proof fn law_no_repeated_detection(p: PollerModel, v: i32, samples: Seq<Option<i32>>)
    requires
        forall|i: int| 0 <= i < samples.len() ==> samples[i] is None || samples[i] == Some(v),
    ensures
        p.observe(Some(v)).detections(samples) == Seq::<i32>::empty(),
    decreases samples.len(),
{
    let q = p.observe(Some(v));
    if samples.len() > 0 {
        let rest = samples.subrange(1, samples.len() as int);
        assert(!q.detects(samples[0]));
        if samples[0] is None {
            assert(q.observe(samples[0]) == q);
            law_no_repeated_detection(p, v, rest);
        } else {
            assert(q.observe(samples[0]) == q.observe(Some(v)));
            law_no_repeated_detection(q, v, rest);
        }
    }
}

/// A read of zero is never reported, and it clears the value last seen:
/// after it the value seen before counts as a new catch.
pub proof fn law_zero_rearms(p: PollerModel, v: i32)
    requires
        v != 0,
    ensures
        p.observe(Some(v)).observe(Some(0)).detects(Some(v)),
        !p.observe(Some(v)).detects(Some(0)),
{
}

/// The sampled address and the poll interval are fixed at startup: no
/// command and no sample changes them.
pub proof fn law_pointer_is_fixed(p: PollerModel, cmd: ScannerCommand, sample: Option<i32>)
    ensures
        p.command(cmd).ptr == p.ptr,
        p.command(cmd).poll_interval_ms == p.poll_interval_ms,
        p.observe(sample).ptr == p.ptr,
        p.observe(sample).poll_interval_ms == p.poll_interval_ms,
{
}

/// Samples one address of another process and turns changes of the value
/// into catches.
///
/// The poller itself neither reads nor sleeps: each tick the caller hands it
/// the pending commands, asks where to read, reads, and hands in the sample.
pub struct MemoryScanner {
    ptr: usize,
    poll_interval_ms: u64,
    last_fish_id: i32,
    scanning: bool,
}

impl View for MemoryScanner {
    type V = PollerModel;

    closed spec fn view(&self) -> PollerModel {
        PollerModel {
            ptr: self.ptr,
            poll_interval_ms: self.poll_interval_ms,
            last_fish_id: self.last_fish_id,
            scanning: self.scanning,
        }
    }
}

impl MemoryScanner {
    /// A poller of the address `ptr` that has seen `baseline` there and is
    /// sampling.
    pub fn new(config: &ScannerConfig, ptr: usize, baseline: i32) -> (r: Self)
        ensures
            r@ == (PollerModel {
                ptr,
                poll_interval_ms: config.poll_interval_ms,
                last_fish_id: baseline,
                scanning: true,
            }),
    {
        MemoryScanner {
            ptr,
            poll_interval_ms: config.poll_interval_ms,
            last_fish_id: baseline,
            scanning: true,
        }
    }

    /// Takes one command. Answers with the address to write a zero to, where
    /// the command asks for that.
    pub fn command(&mut self, cmd: ScannerCommand) -> (r: Option<usize>)
        ensures
            final(self)@ == old(self)@.command(cmd),
            r == old(self)@.zero_target(cmd),
    {
        match cmd {
            ScannerCommand::ZeroMemory => Some(self.ptr),
            ScannerCommand::TogglePause(on) => {
                self.scanning = on;
                None
            },
        }
    }

    /// The address to zero.
    pub fn zero_memory(&self) -> (r: usize)
        ensures
            r == self@.ptr,
    {
        self.ptr
    }

    /// The address to read in this tick. `None` while paused: the caller
    /// then sleeps `PAUSED_SLEEP_MS` and starts the next tick.
    pub fn poll_target(&self) -> (r: Option<usize>)
        ensures
            r == self@.poll_target(),
    {
        if self.scanning {
            Some(self.ptr)
        } else {
            None
        }
    }

    /// Takes the value that was read, or `None` where the read failed, and
    /// says what to report and how long to wait.
    pub fn poll_fish(&mut self, sample: Option<i32>) -> (r: PollOutcome)
        ensures
            final(self)@ == old(self)@.observe(sample),
            r == old(self)@.outcome(sample),
    {
        match sample {
            Some(fish_id) => {
                let detection = if fish_id != 0 && fish_id != self.last_fish_id {
                    Some(fish_id)
                } else {
                    None
                };
                self.last_fish_id = fish_id;
                PollOutcome { detection, backoff_ms: 0, sleep_ms: self.poll_interval_ms }
            },
            None => PollOutcome {
                detection: None,
                backoff_ms: READ_BACKOFF_MS,
                sleep_ms: self.poll_interval_ms,
            },
        }
    }

    pub fn last_fish_id(&self) -> (r: i32)
        ensures
            r == self@.last_fish_id,
    {
        self.last_fish_id
    }

    pub fn is_scanning(&self) -> (r: bool)
        ensures
            r == self@.scanning,
    {
        self.scanning
    }
}

} // verus!
