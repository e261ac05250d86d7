use crate::utils::mem::find_pattern_in_buffer;
use crate::utils::mem::first_match;
use rayon::iter::IntoParallelRefIterator;
use rayon::iter::ParallelIterator;
use vstd::prelude::*;

verus! {

/// The state word of a region whose pages are committed.
pub const MEM_COMMIT: u32 = 0x1000;

/// The protection bit of a region that may not be read.
pub const PAGE_NOACCESS: u32 = 0x01;

/// The protection bit of a guard page.
pub const PAGE_GUARD: u32 = 0x100;

/// Why the reader could not deliver.
#[derive(Debug, Clone, Copy, PartialEq, Eq, Structural)]
pub enum ReaderError {
    /// No running process has the wanted name.
    ProcessNotFound,
    /// No readable region holds the pattern.
    PatternNotFound,
}

impl ReaderError {
    pub open spec fn message_spec(self) -> Seq<char> {
        match self {
            ReaderError::ProcessNotFound => "process not found"@,
            ReaderError::PatternNotFound =>
                "could not find pattern across all readable memory regions"@,
        }
    }

    /// The diagnostic that goes with the error.
    pub fn message(&self) -> (r: &'static str)
        ensures
            r@ == self.message_spec(),
    {
        match self {
            ReaderError::ProcessNotFound => "process not found",
            ReaderError::PatternNotFound =>
                "could not find pattern across all readable memory regions",
        }
    }
}

/// A contiguous range of memory that is committed, readable and unguarded.
#[derive(Debug, Clone, Copy, PartialEq, Eq, Structural)]
pub struct MemoryRegion {
    pub base: usize,
    pub size: usize,
}

/// What one region query reports: where the region starts, how long it is,
/// its state word and its protection word.
#[derive(Debug, Clone, Copy, PartialEq, Eq, Structural)]
pub struct RegionInfo {
    pub base: usize,
    pub size: usize,
    pub state: u32,
    pub protect: u32,
}

impl RegionInfo {
    /// Committed, not closed to reading, and not a guard page.
    pub open spec fn readable(self) -> bool {
        &&& self.state == MEM_COMMIT
        &&& self.protect & PAGE_NOACCESS == 0
        &&& self.protect & PAGE_GUARD == 0
    }

    /// The address just behind the region.
    pub open spec fn end(self) -> int {
        self.base + self.size
    }

    /// The part of the region that lies in `start..end`, if any byte does.
    pub open spec fn clipped(self, start: usize, end: usize) -> Option<MemoryRegion> {
        let lo: int = if self.base >= start {
            self.base as int
        } else {
            start as int
        };
        let hi: int = if self.end() <= end {
            self.end()
        } else {
            end as int
        };
        if lo < hi {
            Some(MemoryRegion { base: lo as usize, size: (hi - lo) as usize })
        } else {
            None
        }
    }

    /// Where the walk goes on after this region: just behind it, or at the
    /// last address where that is beyond the address space.
    pub open spec fn next_address(self) -> usize {
        if self.end() <= usize::MAX {
            self.end() as usize
        } else {
            usize::MAX
        }
    }

    /// Whether the region is committed, open to reading and unguarded.
    pub fn is_readable(&self) -> (r: bool)
        ensures
            r == self.readable(),
    {
        self.state == MEM_COMMIT && (self.protect & PAGE_NOACCESS) == 0 && (self.protect
            & PAGE_GUARD) == 0
    }

    /// Cuts the region down to `start..end`.
    pub fn clip(&self, start: usize, end: usize) -> (r: Option<MemoryRegion>)
        ensures
            r == self.clipped(start, end),
    {
        let lo: usize = if self.base >= start {
            self.base
        } else {
            start
        };
        let hi: usize = match self.base.checked_add(self.size) {
            Some(e) => if e <= end {
                e
            } else {
                end
            },
            None => end,
        };
        if lo < hi {
            Some(MemoryRegion { base: lo, size: hi - lo })
        } else {
            None
        }
    }

    /// The address at which a walk goes on after this region.
    pub fn after(&self) -> (r: usize)
        ensures
            r == self.next_address(),
    {
        match self.base.checked_add(self.size) {
            Some(e) => e,
            None => usize::MAX,
        }
    }
}

/// The mathematical state of a walk over the regions of an address span.
pub struct WalkModel {
    pub start: usize,
    pub end: usize,
    /// The address that the next query asks about.
    pub current: usize,
    /// Set once a query has failed.
    pub stopped: bool,
    /// The readable regions found so far, in the order of the walk.
    pub regions: Seq<MemoryRegion>,
}

impl WalkModel {
    pub open spec fn begin(start: usize, end: usize) -> Self {
        WalkModel { start, end, current: start, stopped: false, regions: Seq::empty() }
    }

    /// The address to ask about next; `None` once the span is covered or a
    /// query has failed.
    pub open spec fn pending(self) -> Option<usize> {
        if !self.stopped && self.current < self.end {
            Some(self.current)
        } else {
            None
        }
    }

    /// The walk after the answer to the pending query. A failed query
    /// (`None`) ends the walk. A region is kept, cut down to the span, when it
    /// is readable and some byte of it lies in the span. Either way the walk
    /// goes on behind the region. A walk that has ended takes no answer.
    pub open spec fn record(self, reply: Option<RegionInfo>) -> Self {
        if self.pending() is None {
            self
        } else {
            match reply {
                None => WalkModel { stopped: true, ..self },
                Some(info) => WalkModel {
                    current: info.next_address(),
                    regions: if info.readable() && info.clipped(self.start, self.end) is Some {
                        self.regions.push(info.clipped(self.start, self.end)->0)
                    } else {
                        self.regions
                    },
                    ..self
                },
            }
        }
    }

    /// The walk after a run of answers, first to last.
    pub open spec fn record_all(self, replies: Seq<Option<RegionInfo>>) -> Self
        decreases replies.len(),
    {
        if replies.len() == 0 {
            self
        } else {
            self.record(replies[0]).record_all(replies.subrange(1, replies.len() as int))
        }
    }

    /// Every region found lies inside the span and is not empty.
    pub open spec fn within_span(self) -> bool {
        forall|i: int|
            0 <= i < self.regions.len() ==> {
                &&& self.start <= (#[trigger] self.regions[i]).base
                &&& self.regions[i].base + self.regions[i].size <= self.end
                &&& self.regions[i].size > 0
            }
    }
}

/// Whatever the queries answer, every region that a walk keeps lies inside
/// the span it was started on and holds at least one byte.
pub proof fn law_walk_stays_within_span(
    start: usize,
    end: usize,
    replies: Seq<Option<RegionInfo>>,
)
    ensures
        WalkModel::begin(start, end).record_all(replies).within_span(),
{
    lemma_record_all_within_span(WalkModel::begin(start, end), replies);
}

proof fn lemma_record_all_within_span(walk: WalkModel, replies: Seq<Option<RegionInfo>>)
    requires
        walk.within_span(),
    ensures
        walk.record_all(replies).within_span(),
        walk.record_all(replies).start == walk.start,
        walk.record_all(replies).end == walk.end,
    decreases replies.len(),
{
    if replies.len() > 0 {
        lemma_record_all_within_span(
            walk.record(replies[0]),
            replies.subrange(1, replies.len() as int),
        );
    }
}

/// A walk over the readable regions of an address span, one query at a time.
///
/// The walk does not query: `next_query` says which address to ask about and
/// `record` takes the answer.
pub struct RegionWalk {
    start: usize,
    end: usize,
    current: usize,
    stopped: bool,
    regions: Vec<MemoryRegion>,
}

impl View for RegionWalk {
    type V = WalkModel;

    closed spec fn view(&self) -> WalkModel {
        WalkModel {
            start: self.start,
            end: self.end,
            current: self.current,
            stopped: self.stopped,
            regions: self.regions@,
        }
    }
}

impl RegionWalk {
    /// A walk over `start..end` that has asked nothing yet.
    pub fn new(start: usize, end: usize) -> (r: Self)
        ensures
            r@ == WalkModel::begin(start, end),
    {
        RegionWalk { start, end, current: start, stopped: false, regions: Vec::new() }
    }

    /// The address to query next, or `None` when the walk is over.
    pub fn next_query(&self) -> (r: Option<usize>)
        ensures
            r == self@.pending(),
    {
        if !self.stopped && self.current < self.end {
            Some(self.current)
        } else {
            None
        }
    }

    /// Takes the answer to the pending query: `None` where the query failed.
    pub fn record(&mut self, reply: Option<RegionInfo>)
        ensures
            final(self)@ == old(self)@.record(reply),
    {
        if self.stopped || self.current >= self.end {
            return ;
        }
        match reply {
            None => {
                self.stopped = true;
            },
            Some(info) => {
                if info.is_readable() {
                    match info.clip(self.start, self.end) {
                        Some(region) => {
                            self.regions.push(region);
                        },
                        None => {},
                    }
                }
                self.current = info.after();
            },
        }
    }

    /// The readable regions found so far.
    pub fn regions(&self) -> (r: &Vec<MemoryRegion>)
        ensures
            r@ == self@.regions,
    {
        &self.regions
    }

    /// Ends the walk and hands out what it found.
    pub fn into_regions(self) -> (r: Vec<MemoryRegion>)
        ensures
            r@ == self@.regions,
    {
        self.regions
    }
}

/// The bytes that were read from one region, with the address of the first.
pub struct RegionBytes {
    base: usize,
    bytes: Vec<u8>,
}

impl RegionBytes {
    /// The region ends inside the address space.
    #[verifier::type_invariant]
    pub closed spec fn inv(&self) -> bool {
        self.base + self.bytes@.len() <= usize::MAX
    }

    pub closed spec fn base_spec(&self) -> usize {
        self.base
    }

    pub closed spec fn bytes_spec(&self) -> Seq<u8> {
        self.bytes@
    }

    /// `None` where `bytes` would reach beyond the last address.
    pub fn new(base: usize, bytes: Vec<u8>) -> (r: Option<Self>)
        ensures
            r is Some == (base + bytes@.len() <= usize::MAX),
            r matches Some(region) ==> region.base_spec() == base && region.bytes_spec() == bytes@,
    {
        if bytes.len() <= usize::MAX - base {
            Some(RegionBytes { base, bytes })
        } else {
            None
        }
    }

    pub fn base(&self) -> (r: usize)
        ensures
            r == self.base_spec(),
    {
        self.base
    }

    pub fn bytes(&self) -> (r: &Vec<u8>)
        ensures
            r@ == self.bytes_spec(),
    {
        &self.bytes
    }
}

/// The address of the first match of `pattern` in `region`, if it has one.
pub open spec fn region_match(region: RegionBytes, pattern: Seq<Option<u8>>) -> Option<int> {
    match first_match(region.bytes_spec(), pattern) {
        Some(offset) => Some(region.base_spec() + offset),
        None => None,
    }
}

/// Searches one region and turns the offset of the first match into its
/// address.
pub fn match_in_region(region: &RegionBytes, pattern: &[Option<u8>]) -> (r: Option<usize>)
    ensures
        region_match(*region, pattern@) == match r {
            Some(address) => Some(address as int),
            None => None,
        },
{
    proof {
        use_type_invariant(region);
    }
    match find_pattern_in_buffer(region.bytes.as_slice(), pattern) {
        Some(offset) => Some(region.base + offset),
        None => None,
    }
}

/// rayon's `find_map_any` over the regions, each searched by
/// `match_in_region`. rayon promises some result of the search that is not
/// `None`, not which: so the contract says that a returned address is the
/// match of one of the regions, and that `None` comes only where no region
/// has a match.
#[verifier::external_body]
fn find_in_any_region(regions: &[RegionBytes], pattern: &[Option<u8>]) -> (r: Option<usize>)
    ensures
        r matches Some(address) ==> exists|i: int|
            0 <= i < regions@.len() && region_match(#[trigger] regions@[i], pattern@) == Some(
                address as int,
            ),
        r is None ==> forall|i: int|
            0 <= i < regions@.len() ==> region_match(#[trigger] regions@[i], pattern@) is None,
{
    regions.par_iter().find_map_any(|region| match_in_region(region, pattern))
}

/// Turns what the search over the regions found into the scan's result.
pub fn scan_outcome(found: Option<usize>) -> (r: Result<usize, ReaderError>)
    ensures
        r == match found {
            Some(address) => Ok::<usize, ReaderError>(address),
            None => Err::<usize, ReaderError>(ReaderError::PatternNotFound),
        },
{
    match found {
        Some(address) => Ok(address),
        None => Err(ReaderError::PatternNotFound),
    }
}

/// Searches all regions at once for `pattern` and answers with the address
/// of a match.
///
/// Within a region the match is its first. Across regions it is that of
/// whichever search reports first, which need not be the lowest address; where
/// only one region holds the pattern the answer is fixed. Without a match in
/// any region the scan fails with `PatternNotFound`.
pub fn pattern_scan(regions: &[RegionBytes], pattern: &[Option<u8>]) -> (r: Result<
    usize,
    ReaderError,
>)
    ensures
        r matches Ok(address) ==> exists|i: int|
            0 <= i < regions@.len() && region_match(#[trigger] regions@[i], pattern@) == Some(
                address as int,
            ),
        r is Err ==> r == Err::<usize, ReaderError>(ReaderError::PatternNotFound),
        r is Err <==> forall|i: int|
            0 <= i < regions@.len() ==> region_match(#[trigger] regions@[i], pattern@) is None,
{
    scan_outcome(find_in_any_region(regions, pattern))
}

} // verus!
