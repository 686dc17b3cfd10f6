//! Pure state machines behind the guide's interactive demonstrations.
//!
//! Each demonstration keeps its rendering in the chapter and its decisions
//! here, so behavior such as a bounded log, a keyed reorder, a publish timer,
//! the layout breakpoints, and a release checklist is proved without a
//! terminal.
use vstd::prelude::*;
use vstd::string::*;

use crate::shell::Key;
use crate::text::{string_from_chars, trim_chars, trimmed};

verus! {

// ---------------------------------------------------------------------------
// Bounded log
// ---------------------------------------------------------------------------

/// The effective cap of a bounded log: a cap of zero still keeps one entry.
pub open spec fn effective_cap(cap: usize) -> int {
    if cap == 0 { 1 } else { cap as int }
}

/// The newest `effective_cap(cap)` items of `s`, in order.
pub open spec fn keep_newest<A>(s: Seq<A>, cap: usize) -> Seq<A> {
    if s.len() > effective_cap(cap) {
        s.skip(s.len() - effective_cap(cap))
    } else {
        s
    }
}

/// Appends `entry`, dropping the oldest items once `cap` is exceeded.
///
/// Bounded logs are the difference between an interactive ledger and unbounded
/// memory growth, so every accumulating demonstration uses this.
pub fn push_bounded(log: &mut Vec<String>, entry: String, cap: usize)
    requires
        old(log)@.len() < usize::MAX,
    ensures
        final(log)@ == keep_newest(old(log)@.push(entry), cap),
        final(log)@.len() <= effective_cap(cap),
{
    let ghost pushed = old(log)@.push(entry);
    log.push(entry);
    let cap = if cap == 0 { 1 } else { cap };
    let mut dropped: usize = 0;
    while log.len() > cap
        invariant
            cap >= 1,
            pushed.len() <= usize::MAX,
            0 <= dropped <= pushed.len(),
            log@ == pushed.skip(dropped as int),
            log@.len() > cap ==> dropped + cap < pushed.len(),
            log@.len() <= cap ==> dropped == (if pushed.len() > cap { pushed.len() - cap } else { 0 }),
        decreases log@.len(),
    {
        log.remove(0);
        proof {
            assert(log@ =~= pushed.skip(dropped + 1));
        }
        dropped = dropped + 1;
    }
    proof {
        if pushed.len() > cap {
            assert(log@ =~= pushed.skip(pushed.len() - cap));
        } else {
            assert(pushed.skip(0) =~= pushed);
        }
    }
}

// ---------------------------------------------------------------------------
// Keyed reorder
// ---------------------------------------------------------------------------

/// Returns `items` in reverse display order.
///
/// The keyed task list reverses its order to show that row identity follows the
/// key, not the position. Each output item is a clone of the mirrored input
/// item; where cloning is exact, the output is exactly the reversed sequence.
pub fn reversed<T: Clone>(items: &[T]) -> (next: Vec<T>)
    ensures
        next@.len() == items@.len(),
        forall|i: int|
            0 <= i < items@.len() ==> cloned::<T>(
                items@[items@.len() - 1 - i],
                #[trigger] next@[i],
            ),
        (forall|a: T, b: T| cloned::<T>(a, b) ==> a == b) ==> next@ == items@.reverse(),
{
    let mut next: Vec<T> = Vec::new();
    let len = items.len();
    let mut k: usize = 0;
    while k < len
        invariant
            len == items@.len(),
            k <= len,
            next@.len() == k,
            forall|i: int|
                0 <= i < k ==> cloned::<T>(items@[len - 1 - i], #[trigger] next@[i]),
        decreases len - k,
    {
        let item = items[len - 1 - k].clone();
        next.push(item);
        k = k + 1;
    }
    proof {
        if forall|a: T, b: T| cloned::<T>(a, b) ==> a == b {
            assert forall|i: int| 0 <= i < len implies #[trigger] next@[i] == items@.reverse()[i] by {
                assert(cloned::<T>(items@[len - 1 - i], next@[i]));
            }
            assert(next@ =~= items@.reverse());
        }
    }
    next
}

/// Reversing twice gives back the original order, item for item.
pub proof fn lemma_reverse_twice<T>(items: Seq<T>)
    ensures
        items.reverse().reverse() == items,
        items.reverse().len() == items.len(),
{
    assert(items.reverse().reverse() =~= items);
}

// ---------------------------------------------------------------------------
// Publish operation
// ---------------------------------------------------------------------------

/// Driver action a publish operation understands.
#[derive(Debug, Clone, Copy, PartialEq, Eq, Structural)]
pub enum PublishAction {
    /// Begin or resume.
    Start,
    /// Hold at the current progress.
    Pause,
    /// Return to the beginning.
    Reset,
}

/// Phase of the simulated publish operation.
#[derive(Debug, Clone, Copy, PartialEq, Eq, Structural)]
pub enum PublishPhase {
    /// Nothing has started.
    Idle,
    /// The operation is advancing.
    Running,
    /// The operation is held.
    Paused,
    /// The operation completed.
    Done,
}

impl Default for PublishPhase {
    fn default() -> (phase: Self)
        ensures
            phase == PublishPhase::Idle,
    {
        PublishPhase::Idle
    }
}

/// The phase one driver action leads to.
pub open spec fn phase_after(phase: PublishPhase, action: PublishAction) -> PublishPhase {
    match phase {
        PublishPhase::Done => PublishPhase::Done,
        _ => match action {
            PublishAction::Start => PublishPhase::Running,
            PublishAction::Reset => PublishPhase::Idle,
            PublishAction::Pause => match phase {
                PublishPhase::Idle => PublishPhase::Idle,
                _ => PublishPhase::Paused,
            },
        },
    }
}

impl PublishPhase {
    /// Applies one driver action; a completed operation stays completed.
    pub fn apply(self, action: PublishAction) -> (next: Self)
        ensures
            next == phase_after(self, action),
    {
        match (self, action) {
            (PublishPhase::Done, _) => PublishPhase::Done,
            (PublishPhase::Idle, PublishAction::Start) => PublishPhase::Running,
            (PublishPhase::Idle, PublishAction::Pause) => PublishPhase::Idle,
            (PublishPhase::Idle, PublishAction::Reset) => PublishPhase::Idle,
            (PublishPhase::Running, PublishAction::Pause) => PublishPhase::Paused,
            (PublishPhase::Running, PublishAction::Start) => PublishPhase::Running,
            (PublishPhase::Running, PublishAction::Reset) => PublishPhase::Idle,
            (PublishPhase::Paused, PublishAction::Start) => PublishPhase::Running,
            (PublishPhase::Paused, PublishAction::Pause) => PublishPhase::Paused,
            (PublishPhase::Paused, PublishAction::Reset) => PublishPhase::Idle,
        }
    }

    /// Whether the worker timer should be alive.
    pub fn is_running(self) -> (running: bool)
        ensures
            running == (self == PublishPhase::Running),
    {
        match self {
            PublishPhase::Running => true,
            _ => false,
        }
    }

    /// Short status word; the badge always carries this text as well as color.
    pub fn label(self) -> (word: &'static str)
        ensures
            word@ == match self {
                PublishPhase::Idle => "idle"@,
                PublishPhase::Running => "publishing"@,
                PublishPhase::Paused => "paused"@,
                PublishPhase::Done => "published"@,
            },
    {
        match self {
            PublishPhase::Idle => "idle",
            PublishPhase::Running => "publishing",
            PublishPhase::Paused => "paused",
            PublishPhase::Done => "published",
        }
    }
}

/// A completed operation stays completed whatever action arrives, and every
/// other phase answers every action.
pub proof fn lemma_completion_is_sticky(action: PublishAction)
    ensures
        phase_after(PublishPhase::Done, action) == PublishPhase::Done,
        forall|phase: PublishPhase|
            phase != PublishPhase::Done ==> #[trigger] phase_after(phase, PublishAction::Reset)
                == PublishPhase::Idle,
        forall|phase: PublishPhase|
            phase != PublishPhase::Done ==> #[trigger] phase_after(phase, PublishAction::Start)
                == PublishPhase::Running,
{
}

/// The state one timer tick produces.
#[derive(Debug, Clone, Copy, PartialEq, Eq, Structural)]
pub struct PublishTick {
    /// Phase after the tick.
    pub phase: PublishPhase,
    /// Clamped progress after the tick, `0..=100`.
    pub progress: u64,
    /// Spinner frame index after the tick.
    pub frame: usize,
}

/// The number of ticks after which a publish of `total` ticks completes.
pub open spec fn tick_limit(total: usize) -> int {
    if total == 0 { 1 } else { total as int }
}

/// The tick that advances a publish at `tick` with `progress`, `step`, `total`.
pub open spec fn tick_result(tick: usize, progress: u64, step: u64, total: usize) -> PublishTick {
    if tick >= tick_limit(total) {
        PublishTick { phase: PublishPhase::Done, progress: 100, frame: tick }
    } else {
        PublishTick {
            phase: PublishPhase::Running,
            progress: if progress + step >= 100 { 100 } else { (progress + step) as u64 },
            frame: tick,
        }
    }
}

/// Advances the simulated publish by one tick.
///
/// Progress is clamped to `100` and the operation completes exactly at `total`
/// ticks, so the demonstration can never run away.
pub fn publish_tick(tick: usize, progress: u64, step: u64, total: usize) -> (next: PublishTick)
    ensures
        next == tick_result(tick, progress, step, total),
        next.progress <= 100,
        (next.phase == PublishPhase::Done) <==> tick >= tick_limit(total),
{
    let sum = progress.saturating_add(step);
    let progress = if sum < 100 { sum } else { 100 };
    let limit = if total == 0 { 1 } else { total };
    if tick >= limit {
        PublishTick { phase: PublishPhase::Done, progress: 100, frame: tick }
    } else {
        PublishTick { phase: PublishPhase::Running, progress, frame: tick }
    }
}

/// A publish that ticks from `0` never exceeds full progress, keeps running
/// before its last tick, and completes at exactly its last tick.
pub proof fn lemma_publish_completes_exactly_once(tick: usize, progress: u64, step: u64, total: usize)
    ensures
        tick_result(tick, progress, step, total).progress <= 100,
        tick < tick_limit(total) ==> tick_result(tick, progress, step, total).phase
            == PublishPhase::Running,
        tick >= tick_limit(total) ==> tick_result(tick, progress, step, total).phase
            == PublishPhase::Done && tick_result(tick, progress, step, total).progress == 100,
{
}

// ---------------------------------------------------------------------------
// Release checklist
// ---------------------------------------------------------------------------

/// Number of `true` entries in `s`.
pub open spec fn count_true(s: Seq<bool>) -> nat
    decreases s.len(),
{
    if s.len() == 0 {
        0
    } else {
        count_true(s.drop_last()) + if s.last() { 1nat } else { 0nat }
    }
}

/// A count of checked entries never exceeds the number of entries.
pub proof fn lemma_count_true_bounded(s: Seq<bool>)
    ensures
        count_true(s) <= s.len(),
    decreases s.len(),
{
    if s.len() > 0 {
        lemma_count_true_bounded(s.drop_last());
    }
}

/// An all-false sequence counts zero.
proof fn lemma_count_true_all_false(s: Seq<bool>)
    requires
        forall|i: int| 0 <= i < s.len() ==> !s[i],
    ensures
        count_true(s) == 0,
    decreases s.len(),
{
    if s.len() > 0 {
        lemma_count_true_all_false(s.drop_last());
    }
}

/// Release-checklist state: session-local, resettable, and counted.
#[derive(Debug, Clone)]
pub struct Checklist {
    done: Vec<bool>,
}

impl View for Checklist {
    type V = Seq<bool>;

    closed spec fn view(&self) -> Seq<bool> {
        self.done@
    }
}

impl Default for Checklist {
    fn default() -> (list: Self)
        ensures
            list@ == Seq::<bool>::empty(),
    {
        Checklist { done: Vec::new() }
    }
}

/// Completion percentage of `s`, rounded down.
pub open spec fn percent_of(s: Seq<bool>) -> int {
    if s.len() == 0 {
        0
    } else {
        ((count_true(s) * 100) as int) / (s.len() as int)
    }
}

impl Checklist {
    /// Creates a checklist of `items` unchecked entries.
    pub fn new(items: usize) -> (list: Self)
        ensures
            list@.len() == items,
            forall|i: int| 0 <= i < items ==> !#[trigger] list@[i],
    {
        let mut done: Vec<bool> = Vec::new();
        let mut k: usize = 0;
        while k < items
            invariant
                k <= items,
                done@.len() == k,
                forall|i: int| 0 <= i < k ==> !#[trigger] done@[i],
            decreases items - k,
        {
            done.push(false);
            k = k + 1;
        }
        Checklist { done }
    }

    /// Flips one entry; out-of-range indices are ignored.
    pub fn toggle(&mut self, index: usize)
        ensures
            final(self)@ == if index < old(self)@.len() {
                old(self)@.update(index as int, !old(self)@[index as int])
            } else {
                old(self)@
            },
    {
        if index < self.done.len() {
            let flipped = !self.done[index];
            self.done.set(index, flipped);
        }
    }

    /// Clears every entry.
    pub fn reset(&mut self)
        ensures
            final(self)@.len() == old(self)@.len(),
            forall|i: int| 0 <= i < final(self)@.len() ==> !#[trigger] final(self)@[i],
    {
        let len = self.done.len();
        let mut k: usize = 0;
        while k < len
            invariant
                len == self.done@.len(),
                k <= len,
                forall|i: int| 0 <= i < k ==> !#[trigger] self.done@[i],
            decreases len - k,
        {
            self.done.set(k, false);
            k = k + 1;
        }
    }

    /// Whether entry `index` is checked.
    pub fn is_done(&self, index: usize) -> (checked: bool)
        ensures
            checked == (index < self@.len() && self@[index as int]),
    {
        if index < self.done.len() {
            self.done[index]
        } else {
            false
        }
    }

    /// Number of checked entries.
    pub fn completed(&self) -> (count: usize)
        ensures
            count == count_true(self@),
            count <= self@.len(),
    {
        let len = self.done.len();
        let mut count: usize = 0;
        let mut k: usize = 0;
        while k < len
            invariant
                len == self.done@.len(),
                k <= len,
                count == count_true(self.done@.take(k as int)),
                count <= k,
            decreases len - k,
        {
            proof {
                assert(self.done@.take(k + 1).drop_last() =~= self.done@.take(k as int));
            }
            if self.done[k] {
                count = count + 1;
            }
            k = k + 1;
        }
        proof {
            assert(self.done@.take(len as int) =~= self.done@);
        }
        count
    }

    /// Number of entries.
    pub fn total(&self) -> (count: usize)
        ensures
            count == self@.len(),
    {
        self.done.len()
    }

    /// Completion percentage in `0..=100`.
    pub fn percent(&self) -> (pct: u64)
        ensures
            pct == percent_of(self@),
            pct <= 100,
    {
        let len = self.done.len();
        if len == 0 {
            return 0;
        }
        let count = self.completed();
        let scaled: u128 = count as u128 * 100;
        let pct: u128 = scaled / (len as u128);
        proof {
            assert(count <= len);
            assert(pct <= 100) by (nonlinear_arith)
                requires
                    scaled as int == count * 100,
                    pct as int == (scaled as int) / (len as int),
                    count <= len,
                    len > 0,
            ;
        }
        pct as u64
    }
}

/// Flipping the same entry twice restores the checklist, and a reset clears
/// every count while keeping the number of entries.
pub proof fn lemma_toggle_twice_and_reset(s: Seq<bool>, index: int)
    requires
        0 <= index < s.len(),
    ensures
        s.update(index, !s[index]).update(index, !s.update(index, !s[index])[index]) == s,
        forall|r: Seq<bool>|
            r.len() == s.len() && (forall|i: int| 0 <= i < r.len() ==> !#[trigger] r[i])
                ==> count_true(r) == 0 && percent_of(r) == 0,
        count_true(s) <= s.len(),
        0 <= percent_of(s) <= 100,
{
    assert(s.update(index, !s[index]).update(index, !s.update(index, !s[index])[index]) =~= s);
    assert forall|r: Seq<bool>|
        r.len() == s.len() && (forall|i: int| 0 <= i < r.len() ==> !#[trigger] r[i]) implies count_true(
        r,
    ) == 0 && percent_of(r) == 0 by {
        lemma_count_true_all_false(r);
    }
    lemma_count_true_bounded(s);
    if s.len() > 0 {
        let c = count_true(s) as int;
        let n = s.len() as int;
        assert(0 <= (c * 100) / n <= 100) by (nonlinear_arith)
            requires
                0 <= c <= n,
                n > 0,
        ;
    }
}

// ---------------------------------------------------------------------------
// Timelines
// ---------------------------------------------------------------------------

/// Lifecycle phases in execution order, shown as a timeline.
pub fn lifecycle_phases() -> (phases: [&'static str; 5])
    ensures
        phases@.len() == 5,
        phases@[0]@ == "Boot"@,
        phases@[1]@ == "Mount"@,
        phases@[2]@ == "Ready"@,
        phases@[3]@ == "Unmount"@,
        phases@[4]@ == "Exit"@,
{
    ["Boot", "Mount", "Ready", "Unmount", "Exit"]
}

/// Where a listener runs in the dispatch order.
pub fn event_phases() -> (phases: [&'static str; 3])
    ensures
        phases@.len() == 3,
        phases@[0]@ == "capture"@,
        phases@[1]@ == "target"@,
        phases@[2]@ == "bubble"@,
{
    ["capture", "target", "bubble"]
}

// ---------------------------------------------------------------------------
// Responsive breakpoints
// ---------------------------------------------------------------------------

/// Root width at or above which the expanded editorial index fits.
pub const WIDE_BREAKPOINT: u16 = 110;

/// Root width below which the index disappears entirely.
pub const NARROW_BREAKPOINT: u16 = 72;

/// Expanded editorial index width in cells.
pub const INDEX_WIDTH: u16 = 30;

/// Compact numbered rail width in cells.
pub const RAIL_WIDTH: u16 = 7;

/// The layout treatment a measured width selects.
///
/// This is the one source of truth for the documentation shell's breakpoints
/// and for the responsive chapter that teaches them.
#[derive(Debug, Clone, Copy, PartialEq, Eq, Structural)]
pub enum WidthMode {
    /// Room for an expanded index beside a wide document column.
    Wide,
    /// Room for a compact rail only.
    Mixed,
    /// No index; navigation lives in the header and search.
    Narrow,
}

/// The mode a measured width and collapse preference select.
pub open spec fn mode_for(width: u16, collapsed: bool) -> WidthMode {
    if width >= WIDE_BREAKPOINT && !collapsed {
        WidthMode::Wide
    } else if width >= NARROW_BREAKPOINT {
        WidthMode::Mixed
    } else {
        WidthMode::Narrow
    }
}

/// Cells a mode reserves from the content column.
pub open spec fn reserved_for(mode: WidthMode) -> u16 {
    match mode {
        WidthMode::Wide => INDEX_WIDTH,
        WidthMode::Mixed => RAIL_WIDTH,
        WidthMode::Narrow => 0,
    }
}

impl WidthMode {
    /// Chooses the mode for a measured width, honouring a collapse preference
    /// only where the viewport can hold the expanded index.
    pub fn for_width(width: u16, collapsed: bool) -> (mode: Self)
        ensures
            mode == mode_for(width, collapsed),
    {
        if width >= WIDE_BREAKPOINT && !collapsed {
            WidthMode::Wide
        } else if width >= NARROW_BREAKPOINT {
            WidthMode::Mixed
        } else {
            WidthMode::Narrow
        }
    }

    /// Cells the effective mode reserves from the content column.
    pub fn reserved_width(self) -> (cells: u16)
        ensures
            cells == reserved_for(self),
    {
        match self {
            WidthMode::Wide => INDEX_WIDTH,
            WidthMode::Mixed => RAIL_WIDTH,
            WidthMode::Narrow => 0,
        }
    }

    /// Human-readable mode name with a symbolic cue.
    pub fn label(self) -> (name: &'static str)
        ensures
            name@ == match self {
                WidthMode::Wide => "wide · expanded index"@,
                WidthMode::Mixed => "medium · compact rail"@,
                WidthMode::Narrow => "narrow · content only"@,
            },
    {
        match self {
            WidthMode::Wide => "wide · expanded index",
            WidthMode::Mixed => "medium · compact rail",
            WidthMode::Narrow => "narrow · content only",
        }
    }
}

/// The breakpoints partition widths: the index disappears exactly below the
/// narrow breakpoint, the collapse preference never yields the expanded index,
/// and a wider viewport never selects a narrower treatment.
pub proof fn lemma_breakpoints(width: u16, wider: u16, collapsed: bool)
    requires
        width <= wider,
    ensures
        (mode_for(width, collapsed) == WidthMode::Narrow) <==> width < NARROW_BREAKPOINT,
        mode_for(width, true) != WidthMode::Wide,
        mode_for(width, collapsed) == WidthMode::Wide ==> mode_for(wider, collapsed)
            == WidthMode::Wide,
        mode_for(width, collapsed) != WidthMode::Narrow ==> mode_for(wider, collapsed)
            != WidthMode::Narrow,
        reserved_for(mode_for(width, collapsed)) <= INDEX_WIDTH,
{
}

// ---------------------------------------------------------------------------
// Decimal numbers in log lines
// ---------------------------------------------------------------------------

/// The ASCII digit for `d < 10`.
pub open spec fn digit_char(d: nat) -> char {
    ((d + 48) as u8) as char
}

/// The decimal representation of `n`, without leading zeros.
pub open spec fn decimal(n: nat) -> Seq<char>
    decreases n,
{
    if n < 10 {
        seq![digit_char(n)]
    } else {
        decimal(n / 10).push(digit_char(n % 10))
    }
}

/// Appends the decimal digits of `n`.
fn push_decimal(out: &mut Vec<char>, n: usize)
    ensures
        final(out)@ == old(out)@ + decimal(n as nat),
    decreases n,
{
    if n >= 10 {
        push_decimal(out, n / 10);
    }
    let d = (n % 10) as u8;
    let c = (d + 48) as char;
    out.push(c);
    proof {
        if n >= 10 {
            assert(decimal(n as nat) == decimal((n / 10) as nat).push(digit_char((n % 10) as nat)));
        }
    }
}

/// The decimal representation of `n`, as `usize::to_string` writes it.
pub fn decimal_string(n: usize) -> (text: String)
    ensures
        text@ == decimal(n as nat),
{
    let mut chars: Vec<char> = Vec::new();
    push_decimal(&mut chars, n);
    proof {
        assert(chars@ =~= decimal(n as nat));
    }
    string_from_chars(chars.as_slice())
}

// ---------------------------------------------------------------------------
// The publish worker
// ---------------------------------------------------------------------------

/// Ticks a simulated publish takes to complete.
pub const PUBLISH_TOTAL: usize = 20;

/// Progress each tick adds.
pub const PUBLISH_STEP: u64 = 5;

/// Entries the publish log keeps.
pub const PUBLISH_LOG_CAP: usize = 8;

/// What one tick of the publish worker produces.
pub struct PublishStep {
    /// The tick number just taken.
    pub tick: usize,
    /// The state the tick produces.
    pub state: PublishTick,
    /// Lines to append to the publish log, in order.
    pub log: Vec<String>,
}

/// The log lines the tick numbered `tick` appends.
pub open spec fn worker_log(tick: usize, done: bool) -> Seq<Seq<char>> {
    let chunk: Seq<Seq<char>> = if tick % 4 == 0 {
        seq!["chunk "@ + decimal((tick / 4) as nat) + " verified"@]
    } else {
        Seq::empty()
    };
    if done {
        chunk.push("release published"@)
    } else {
        chunk
    }
}

/// One tick of the publish worker, resumed after `previous` ticks at
/// `progress`: every fourth tick verifies a chunk, and the completing tick
/// publishes the release. The worker stops once the state is `Done`.
pub fn publish_worker_step(previous: usize, progress: u64) -> (step: PublishStep)
    requires
        previous < usize::MAX,
    ensures
        step.tick == previous + 1,
        step.state == tick_result(step.tick, progress, PUBLISH_STEP, PUBLISH_TOTAL),
        Seq::new(step.log@.len(), |i: int| step.log@[i]@) == worker_log(
            step.tick,
            step.state.phase == PublishPhase::Done,
        ),
{
    let tick = previous + 1;
    let state = publish_tick(tick, progress, PUBLISH_STEP, PUBLISH_TOTAL);
    let mut log: Vec<String> = Vec::new();
    let ghost expected = worker_log(tick, state.phase == PublishPhase::Done);
    if tick % 4 == 0 {
        let mut line = "chunk ".to_owned();
        let number = decimal_string(tick / 4);
        line.append(number.as_str());
        line.append(" verified");
        log.push(line);
    }
    let done = match state.phase {
        PublishPhase::Done => true,
        _ => false,
    };
    if done {
        log.push("release published".to_owned());
    }
    proof {
        assert(Seq::new(log@.len(), |i: int| log@[i]@) =~= expected);
    }
    PublishStep { tick, state, log }
}

// ---------------------------------------------------------------------------
// Controls chapter demonstrations
// ---------------------------------------------------------------------------

/// Entries the command and event ledgers keep.
pub const LEDGER_CAP: usize = 8;

/// The characters of each string, in order.
pub open spec fn string_views(s: Seq<String>) -> Seq<Seq<char>> {
    Seq::new(s.len(), |i: int| s[i]@)
}

/// Records a submitted command: a blank submission records nothing, anything
/// else is trimmed and recorded as `ran COMMAND` in the bounded ledger.
pub fn record_command(log: &mut Vec<String>, submitted: &str)
    requires
        old(log)@.len() < usize::MAX,
    ensures
        trimmed(submitted@).len() == 0 ==> final(log)@ == old(log)@,
        trimmed(submitted@).len() > 0 ==> string_views(final(log)@) == keep_newest(
            string_views(old(log)@).push("ran "@ + trimmed(submitted@)),
            LEDGER_CAP,
        ),
{
    let command = trim_chars(submitted);
    if command.unicode_len() == 0 {
        return;
    }
    let mut entry = "ran ".to_owned();
    entry.append(command);
    let ghost pushed = old(log)@.push(entry);
    push_bounded(log, entry, LEDGER_CAP);
    proof {
        let views = string_views(old(log)@).push("ran "@ + trimmed(submitted@));
        assert(string_views(pushed) =~= views);
        if pushed.len() > LEDGER_CAP {
            assert(string_views(log@) =~= views.skip(views.len() - LEDGER_CAP));
        } else {
            assert(string_views(log@) =~= views);
        }
    }
}

/// Panes the focusable panel cycles through.
pub const PANE_COUNT: usize = 3;

/// The highlighted pane after a key press in the focusable panel, and whether
/// the panel handled the key: the arrows move within the panes without
/// wrapping, and Enter or Space are handled without moving.
pub fn focus_pane(pane: usize, key: Key) -> (moved: (usize, bool))
    ensures
        moved == match key {
            Key::Left => (if pane > 0 { (pane - 1) as usize } else { 0usize }, true),
            Key::Right => (if pane + 1 < PANE_COUNT - 1 { (pane + 1) as usize } else { (PANE_COUNT - 1) as usize }, true),
            Key::Enter => (pane, true),
            Key::Char(c) => (pane, c == ' '),
            _ => (pane, false),
        },
{
    match key {
        Key::Left => (pane.saturating_sub(1), true),
        Key::Right => {
            let last = PANE_COUNT - 1;
            if pane < last - 1 {
                (pane + 1, true)
            } else {
                (last, true)
            }
        },
        Key::Enter => (pane, true),
        Key::Char(c) => (pane, c == ' '),
        _ => (pane, false),
    }
}

/// A semantic event from one of the ledger's controls.
#[derive(Debug, Clone, Copy, PartialEq, Eq, Structural)]
pub enum LedgerEvent {
    /// The telemetry checkbox changed to the given value.
    Telemetry(bool),
    /// The verbose-frames switch changed to the given value.
    Verbose(bool),
    /// The stable channel was selected.
    Stable,
    /// The nightly channel was selected.
    Nightly,
}

/// `true` or `false`, as `bool` displays.
pub open spec fn bool_text(b: bool) -> Seq<char> {
    if b { "true"@ } else { "false"@ }
}

/// The ledger line an event records.
pub open spec fn ledger_text(event: LedgerEvent) -> Seq<char> {
    match event {
        LedgerEvent::Telemetry(next) => "checkbox → telemetry "@ + bool_text(next),
        LedgerEvent::Verbose(next) => "switch → verbose "@ + bool_text(next),
        LedgerEvent::Stable => "radio → stable"@,
        LedgerEvent::Nightly => "radio → nightly"@,
    }
}

/// The ledger line an event records.
pub fn ledger_line(event: LedgerEvent) -> (line: String)
    ensures
        line@ == ledger_text(event),
{
    match event {
        LedgerEvent::Telemetry(next) => {
            let mut line = "checkbox → telemetry ".to_owned();
            line.append(if next { "true" } else { "false" });
            line
        },
        LedgerEvent::Verbose(next) => {
            let mut line = "switch → verbose ".to_owned();
            line.append(if next { "true" } else { "false" });
            line
        },
        LedgerEvent::Stable => "radio → stable".to_owned(),
        LedgerEvent::Nightly => "radio → nightly".to_owned(),
    }
}

impl Checklist {
    /// Sets one entry to `checked`, flipping it only when it differs;
    /// out-of-range indices are ignored.
    pub fn apply_check(&mut self, index: usize, checked: bool)
        ensures
            final(self)@ == if index < old(self)@.len() {
                old(self)@.update(index as int, checked)
            } else {
                old(self)@
            },
    {
        if self.is_done(index) != checked {
            self.toggle(index);
        }
        proof {
            if index < old(self)@.len() {
                assert(self@ =~= old(self)@.update(index as int, checked));
            }
        }
    }
}

} // verus!
