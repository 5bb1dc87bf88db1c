use vstd::prelude::*;
use crate::decode::{decode_stage, decoded_stage, fallback_stage, keep_stage};
use crate::stage::{stage_index, StageID, STAGE_COUNT};
use crate::watcher::ChangeWatcher;

verus! {

/// The state of the run timer that the engine drives.
#[derive(Clone, Copy, Debug, PartialEq, Eq, Structural)]
pub enum TimerState {
    NotRunning,
    Running,
    Paused,
    /// The run is over; the engine takes no action.
    Ended,
}

/// An action for the run timer.
#[derive(Clone, Copy, Debug, PartialEq, Eq, Structural)]
pub enum TimerAction {
    Start,
    Split,
    PauseGameTime,
    ResumeGameTime,
}

/// What the user enabled: auto start, auto split, and splitting on each stage.
#[derive(Clone, Debug)]
pub struct Settings {
    pub start: bool,
    pub split: bool,
    /// One entry per stage, in story order.
    pub stages: Vec<bool>,
}

impl Settings {
    pub open spec fn wf(&self) -> bool {
        self.stages@.len() == STAGE_COUNT
    }

    /// Whether finishing `s` produces a split.
    pub open spec fn splits_on(&self, s: StageID) -> bool {
        self.stages@[stage_index(s)]
    }

    /// Everything enabled.
    pub fn new() -> (r: Settings)
        ensures
            r.wf(),
            r.start,
            r.split,
            forall|s: StageID| r.splits_on(s),
    {
        let mut stages: Vec<bool> = Vec::new();
        let mut i: usize = 0;
        while i < STAGE_COUNT
            invariant
                i <= STAGE_COUNT,
                stages@.len() == i,
                forall|j: int| 0 <= j < i ==> stages@[j],
            decreases STAGE_COUNT - i,
        {
            stages.push(true);
            i = i + 1;
        }
        Settings { start: true, split: true, stages }
    }

    /// Whether finishing `s` produces a split.
    pub fn stage_enabled(&self, s: StageID) -> (r: bool)
        requires
            self.wf(),
        ensures
            r == self.splits_on(s),
    {
        self.stages[s.index()]
    }

    /// Enables or disables the split on `s`.
    pub fn set_stage(&mut self, s: StageID, enabled: bool)
        requires
            old(self).wf(),
        ensures
            final(self).wf(),
            final(self).start == old(self).start,
            final(self).split == old(self).split,
            final(self).splits_on(s) == enabled,
            forall|t: StageID| t != s ==> final(self).splits_on(t) == old(self).splits_on(t),
    {
        let i = s.index();
        self.stages.set(i, enabled);
        assert forall|t: StageID| t != s implies final(self).splits_on(t) == old(self).splits_on(
            t,
        ) by {
            assert(stage_index(t) != stage_index(s));
        }
    }
}

/// How many race-won transitions a stage needs before it splits.
pub open spec fn required_splits(s: StageID) -> u64 {
    match s {
        StageID::Chapter3_6 => 2,
        StageID::Chapter7_4 => 4,
        _ => 1,
    }
}

/// How many race-won transitions a stage needs before it splits: more than one
/// for the two stages that are raced in several parts.
pub fn required_count(s: StageID) -> (r: u64)
    ensures
        r == required_splits(s),
{
    match s {
        StageID::Chapter3_6 => 2,
        StageID::Chapter7_4 => 4,
        _ => 1,
    }
}

/// The value of a flag byte read from the game: set only when it holds 1.
pub fn flag_from_byte(b: u8) -> (r: bool)
    ensures
        r == (b == 1),
{
    b == 1
}

/// What was read from the game on one tick; `None` marks a failed read.
#[derive(Clone, Debug)]
pub struct Sample {
    pub is_loading: Option<bool>,
    pub story_mode_flag: Option<bool>,
    /// The raw NUL-terminated path that names the stage.
    pub stage_path: Option<Vec<u8>>,
    pub race_won: Option<bool>,
}

/// Whether the reads that a tick cannot do without succeeded. A failed
/// race-won read leaves that watcher as it was and skips the split check; a
/// stage path that cannot be read keeps the previous stage.
pub open spec fn sample_usable(s: &Sample) -> bool {
    s.is_loading.is_some() && s.story_mode_flag.is_some()
}

/// The stage that a sample reports, given the stage watched so far.
pub open spec fn sampled_stage(s: &Sample, previous: Option<StageID>) -> StageID {
    match s.stage_path {
        Some(p) => decoded_stage(p@, previous),
        None => fallback_stage(previous),
    }
}

/// The watched values of one session with the game, and the count of race-won
/// transitions seen on the current stage.
#[derive(Clone, Copy, Debug)]
pub struct Watchers {
    pub is_loading: ChangeWatcher<bool>,
    pub story_mode_flag: ChangeWatcher<bool>,
    pub stage_id: ChangeWatcher<StageID>,
    pub race_won: ChangeWatcher<bool>,
    pub split_buffer: u64,
}

/// The watchers after a tick's samples were taken. When the sample is not
/// usable only the stage watcher moves, taking its own stage again; otherwise
/// every read value is taken, and the split buffer restarts when the stage
/// changes.
pub open spec fn observed(w: Watchers, s: &Sample) -> Watchers {
    if !sample_usable(s) {
        Watchers { stage_id: w.stage_id.updated(w.stage_id.last()), ..w }
    } else {
        let stage_id = w.stage_id.updated(Some(sampled_stage(s, w.stage_id.last())));
        Watchers {
            is_loading: w.is_loading.updated(s.is_loading),
            story_mode_flag: w.story_mode_flag.updated(s.story_mode_flag),
            stage_id,
            race_won: w.race_won.updated(s.race_won),
            split_buffer: if stage_id.is_changed() {
                0
            } else {
                w.split_buffer
            },
        }
    }
}

/// The loading report: `Some(true)` right after a stage change, else the new
/// is-loading value when it changed, else `None` (no change).
pub open spec fn loading_report(w: Watchers) -> Option<bool> {
    if w.stage_id.is_changed() {
        Some(true)
    } else if w.is_loading.is_changed() {
        w.is_loading.last()
    } else {
        None
    }
}

/// Whether the run starts: auto start is on, story mode was just entered and
/// the game is not loading.
pub open spec fn start_fires(w: Watchers, settings: &Settings) -> bool {
    settings.start && w.story_mode_flag.is_changed_to(true) && w.is_loading.last() == Some(false)
}

/// Whether this tick counts towards a split: auto split is on, the race was
/// just won, and a stage is known.
pub open spec fn split_qualifies(w: Watchers, settings: &Settings) -> bool {
    settings.split && w.race_won.is_changed_to(true) && w.stage_id.pair.is_some()
}

/// The split buffer after the split check.
pub open spec fn buffer_after_split(w: Watchers, settings: &Settings) -> u64 {
    if split_qualifies(w, settings) && required_splits(w.stage_id.last().unwrap()) > 1 {
        if w.split_buffer < u64::MAX {
            (w.split_buffer + 1) as u64
        } else {
            w.split_buffer
        }
    } else {
        w.split_buffer
    }
}

/// Whether the split check fires.
pub open spec fn split_fires(w: Watchers, settings: &Settings) -> bool {
    let stage = w.stage_id.last().unwrap();
    split_qualifies(w, settings) && settings.splits_on(stage) && (required_splits(stage) > 1
        ==> buffer_after_split(w, settings) == required_splits(stage))
}

/// The timer actions that carry a loading report.
pub open spec fn loading_actions(report: Option<bool>) -> Seq<TimerAction> {
    match report {
        Some(true) => seq![TimerAction::PauseGameTime],
        Some(false) => seq![TimerAction::ResumeGameTime],
        None => seq![],
    }
}

/// The actions of a tick whose samples have been taken into `w`; the split
/// check runs only when the race-won value was read on this tick.
pub open spec fn decided_actions(
    w: Watchers,
    settings: &Settings,
    timer: TimerState,
    race_read: bool,
) -> Seq<TimerAction> {
    match timer {
        TimerState::Running | TimerState::Paused => loading_actions(loading_report(w)) + if race_read
            && split_fires(w, settings) {
            seq![TimerAction::Split]
        } else {
            seq![]
        },
        TimerState::NotRunning => if start_fires(w, settings) {
            seq![TimerAction::Start, TimerAction::PauseGameTime] + loading_actions(loading_report(w))
        } else {
            seq![]
        },
        TimerState::Ended => seq![],
    }
}

/// The actions of one tick.
pub open spec fn tick_actions(w: Watchers, s: &Sample, settings: &Settings, timer: TimerState) -> Seq<
    TimerAction,
> {
    if sample_usable(s) {
        decided_actions(observed(w, s), settings, timer, s.race_won.is_some())
    } else {
        seq![]
    }
}

/// The watchers after one tick.
pub open spec fn after_tick(w: Watchers, s: &Sample, settings: &Settings, timer: TimerState) -> Watchers {
    let o = observed(w, s);
    if sample_usable(s) && s.race_won.is_some() && (timer == TimerState::Running || timer
        == TimerState::Paused) {
        Watchers { split_buffer: buffer_after_split(o, settings), ..o }
    } else {
        o
    }
}

impl Watchers {
    /// Watchers of a session that has seen nothing yet.
    pub fn new() -> (r: Watchers)
        ensures
            r.is_loading.pair.is_none(),
            r.story_mode_flag.pair.is_none(),
            r.stage_id.pair.is_none(),
            r.race_won.pair.is_none(),
            r.split_buffer == 0,
    {
        Watchers {
            is_loading: ChangeWatcher::new(),
            story_mode_flag: ChangeWatcher::new(),
            stage_id: ChangeWatcher::new(),
            race_won: ChangeWatcher::new(),
            split_buffer: 0,
        }
    }
}

/// Takes one tick's samples into the watchers. Returns whether the sample was
/// usable; when it was not, the flag watchers and the split buffer stay as they
/// were and the stage watcher takes its own stage again, as when the stage
/// read alone fails.
pub fn update_loop(watchers: &mut Watchers, sample: &Sample) -> (r: bool)
    ensures
        r == sample_usable(sample),
        *final(watchers) == observed(*old(watchers), sample),
        (!r || sample.stage_path.is_none()) && old(watchers).stage_id.pair.is_some()
            ==> final(watchers).stage_id.last() == old(watchers).stage_id.last()
            && !final(watchers).stage_id.is_changed(),
{
    if sample.is_loading.is_none() || sample.story_mode_flag.is_none() {
        let kept = watchers.stage_id.current();
        watchers.stage_id.update(kept);
        return false;
    }
    watchers.is_loading.update(sample.is_loading);
    watchers.story_mode_flag.update(sample.story_mode_flag);
    let previous = watchers.stage_id.current();
    let stage = match &sample.stage_path {
        Some(p) => decode_stage(p.as_slice(), previous),
        None => keep_stage(previous),
    };
    watchers.stage_id.update(Some(stage));
    watchers.race_won.update(sample.race_won);
    if watchers.stage_id.changed() {
        watchers.split_buffer = 0;
    }
    true
}

/// The loading report of the current tick.
pub fn is_loading(watchers: &Watchers) -> (r: Option<bool>)
    ensures
        r == loading_report(*watchers),
{
    if watchers.stage_id.changed() {
        Some(true)
    } else if watchers.is_loading.changed() {
        watchers.is_loading.current()
    } else {
        None
    }
}

/// Whether the run should start on the current tick.
pub fn start(watchers: &Watchers, settings: &Settings) -> (r: bool)
    ensures
        r == start_fires(*watchers, settings),
{
    settings.start && watchers.story_mode_flag.changed_to(&true) && match watchers.is_loading.current() {
        Some(l) => !l,
        None => false,
    }
}

/// Whether the current tick splits. A race-won transition on a stage raced in
/// several parts counts in the split buffer, whether or not that stage splits;
/// such a stage splits when the count reaches its required number.
pub fn split(watchers: &mut Watchers, settings: &Settings) -> (r: bool)
    requires
        settings.wf(),
    ensures
        r == split_fires(*old(watchers), settings),
        *final(watchers) == (Watchers { split_buffer: buffer_after_split(*old(watchers), settings), ..*old(watchers) }),
{
    if !settings.split || !watchers.race_won.changed_to(&true) {
        return false;
    }
    let stage = match watchers.stage_id.current() {
        Some(s) => s,
        None => return false,
    };
    let required = required_count(stage);
    if required > 1 {
        watchers.split_buffer = watchers.split_buffer.saturating_add(1);
        watchers.split_buffer == required && settings.stage_enabled(stage)
    } else {
        settings.stage_enabled(stage)
    }
}

/// Pushes the timer actions that carry a loading report.
fn push_loading(actions: &mut Vec<TimerAction>, report: Option<bool>)
    ensures
        final(actions)@ == old(actions)@ + loading_actions(report),
{
    match report {
        Some(true) => actions.push(TimerAction::PauseGameTime),
        Some(false) => actions.push(TimerAction::ResumeGameTime),
        None => {},
    }
    assert(final(actions)@ =~= old(actions)@ + loading_actions(report));
}

/// One tick of the engine: takes the tick's samples into the watchers, then
/// decides the timer actions. While the timer runs or is paused, the loading
/// report comes first, then the split check (resetting is never decided from
/// memory, and game time is never overridden). While it is not running, a start
/// is followed by the loading report. A sample that is not usable gives no
/// action and no transition; a failed race-won read gives no split check, so
/// a race-won edge of an earlier tick is never counted twice.
pub fn tick(watchers: &mut Watchers, sample: &Sample, settings: &Settings, timer: TimerState) -> (r:
    Vec<TimerAction>)
    requires
        settings.wf(),
    ensures
        r@ == tick_actions(*old(watchers), sample, settings, timer),
        *final(watchers) == after_tick(*old(watchers), sample, settings, timer),
{
    let mut actions: Vec<TimerAction> = Vec::new();
    if !update_loop(watchers, sample) {
        return actions;
    }
    match timer {
        TimerState::Running | TimerState::Paused => {
            push_loading(&mut actions, is_loading(watchers));
            if sample.race_won.is_some() && split(watchers, settings) {
                actions.push(TimerAction::Split);
            }
        },
        TimerState::NotRunning => {
            if start(watchers, settings) {
                actions.push(TimerAction::Start);
                actions.push(TimerAction::PauseGameTime);
                push_loading(&mut actions, is_loading(watchers));
            }
        },
        TimerState::Ended => {},
    }
    assert(actions@ =~= tick_actions(*old(watchers), sample, settings, timer));
    actions
}

/// Ends a session when the game closes: all watched history is dropped, and the
/// game time is paused if the timer is running.
pub fn detach(watchers: &mut Watchers, timer: TimerState) -> (r: Vec<TimerAction>)
    ensures
        final(watchers).is_loading.pair.is_none(),
        final(watchers).story_mode_flag.pair.is_none(),
        final(watchers).stage_id.pair.is_none(),
        final(watchers).race_won.pair.is_none(),
        final(watchers).split_buffer == 0,
        r@ == (if timer == TimerState::Running {
            seq![TimerAction::PauseGameTime]
        } else {
            seq![]
        }),
{
    *watchers = Watchers::new();
    let mut actions: Vec<TimerAction> = Vec::new();
    if timer == TimerState::Running {
        actions.push(TimerAction::PauseGameTime);
    }
    assert(actions@ =~= (if timer == TimerState::Running {
        seq![TimerAction::PauseGameTime]
    } else {
        seq![]
    }));
    actions
}

/// On a stage raced in several parts, each race-won transition read while the
/// timer runs and the stage stays the same adds one to the split buffer; a
/// stage change sets it back to 0 before the split check; and neither depends
/// on which stages are enabled for splitting.
pub proof fn lemma_split_buffer_counts(
    w: Watchers,
    s: &Sample,
    settings: &Settings,
    other: &Settings,
    timer: TimerState,
)
    requires
        settings.wf(),
        other.wf(),
        other.split == settings.split,
        sample_usable(s),
        timer == TimerState::Running || timer == TimerState::Paused,
    ensures
        observed(w, s).stage_id.is_changed() ==> observed(w, s).split_buffer == 0,
        observed(w, s).stage_id.is_changed() ==> after_tick(w, s, settings, timer).split_buffer <= 1,
        ({
            let o = observed(w, s);
            let stage = o.stage_id.last().unwrap();
            s.race_won.is_some() && !o.stage_id.is_changed() && split_qualifies(o, settings)
                && required_splits(stage) > 1 && w.split_buffer < u64::MAX ==> after_tick(w, s, settings, timer).split_buffer
                == w.split_buffer + 1
        }),
        ({
            let o = observed(w, s);
            !split_qualifies(o, settings) ==> after_tick(w, s, settings, timer).split_buffer
                == o.split_buffer
        }),
        s.race_won.is_none() ==> after_tick(w, s, settings, timer).split_buffer == observed(
            w,
            s,
        ).split_buffer,
        after_tick(w, s, settings, timer).split_buffer == after_tick(w, s, other, timer).split_buffer,
{
}

/// A failed read of a flag never alters that flag's watcher, and a failed
/// race-won read never gives a split.
pub proof fn lemma_failed_flag_read_keeps_watcher(
    w: Watchers,
    s: &Sample,
    settings: &Settings,
    timer: TimerState,
)
    ensures
        s.is_loading.is_none() ==> after_tick(w, s, settings, timer).is_loading == w.is_loading,
        s.story_mode_flag.is_none() ==> after_tick(w, s, settings, timer).story_mode_flag
            == w.story_mode_flag,
        s.race_won.is_none() ==> after_tick(w, s, settings, timer).race_won == w.race_won,
        s.race_won.is_none() ==> !tick_actions(w, s, settings, timer).contains(TimerAction::Split),
{
    if s.race_won.is_none() && sample_usable(s) {
        let o = observed(w, s);
        let acts = tick_actions(w, s, settings, timer);
        if timer == TimerState::Running || timer == TimerState::Paused {
            assert(acts =~= loading_actions(loading_report(o)));
        }
        assert(!acts.contains(TimerAction::Split));
    }
}

/// While the timer runs or is paused, a tick on which the observed stage
/// changes reports loading first, whatever the is-loading value.
pub proof fn lemma_stage_change_reports_loading(
    w: Watchers,
    s: &Sample,
    settings: &Settings,
    timer: TimerState,
)
    requires
        settings.wf(),
        sample_usable(s),
        timer == TimerState::Running || timer == TimerState::Paused,
        observed(w, s).stage_id.is_changed(),
    ensures
        loading_report(observed(w, s)) == Some(true),
        tick_actions(w, s, settings, timer).len() > 0,
        tick_actions(w, s, settings, timer)[0] == TimerAction::PauseGameTime,
{
}

/// A tick whose reads failed takes no action and shows no transition: the flag
/// watchers and the split buffer stay as they were, and the stage watcher keeps
/// its stage, which no longer reads as changed.
pub proof fn lemma_failed_read_is_silent(
    w: Watchers,
    s: &Sample,
    settings: &Settings,
    timer: TimerState,
)
    requires
        !sample_usable(s),
    ensures
        after_tick(w, s, settings, timer).is_loading == w.is_loading,
        after_tick(w, s, settings, timer).story_mode_flag == w.story_mode_flag,
        after_tick(w, s, settings, timer).race_won == w.race_won,
        after_tick(w, s, settings, timer).split_buffer == w.split_buffer,
        after_tick(w, s, settings, timer).stage_id.last() == w.stage_id.last(),
        !after_tick(w, s, settings, timer).stage_id.is_changed(),
        tick_actions(w, s, settings, timer) == Seq::<TimerAction>::empty(),
{
}

/// A start is taken only when the timer is not running, and is followed at once
/// by the loading report.
pub proof fn lemma_start_then_loading(
    w: Watchers,
    s: &Sample,
    settings: &Settings,
)
    requires
        sample_usable(s),
        start_fires(observed(w, s), settings),
    ensures
        tick_actions(w, s, settings, TimerState::NotRunning) == seq![
            TimerAction::Start,
            TimerAction::PauseGameTime,
        ] + loading_actions(loading_report(observed(w, s))),
{
}

} // verus!
