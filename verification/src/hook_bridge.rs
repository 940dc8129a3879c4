//! The life of the bridge's thread as a machine of states.
//!
//! The thread installs its hooks, creates its window, runs the message loop and
//! releases what it holds. Every one of these is a call into the operating system,
//! made by the thread that drives this machine: the machine says which call comes
//! next, takes the report of what the call returned, and decides what follows.
//! However the calls turn out, the machine leads to the release of every hook that
//! was installed.

use vstd::prelude::*;

use crate::win32;

verus! {

/// A range of window-event codes that one hook subscribes to, both ends included.
#[derive(Debug, Clone, Copy, PartialEq, Eq, Structural)]
pub struct EventRange {
    pub min: u32,
    pub max: u32,
}

/// A hook that was installed: the range it covers and the handle that the platform
/// gave for it.
#[derive(Debug, Clone, Copy, PartialEq, Eq, Structural)]
pub struct HookRegistration {
    pub range: EventRange,
    pub handle: isize,
}

/// The ranges that the bridge hooks, in the order of installation: location
/// changes; destruction through hiding; the start through the end of minimizing; the
/// end of a move or resize; foreground changes; location through name changes;
/// cloaking through uncloaking.
pub open spec fn hook_ranges() -> Seq<EventRange> {
    seq![
        EventRange {
            min: win32::event_object_locationchange(),
            max: win32::event_object_locationchange(),
        },
        EventRange { min: win32::event_object_destroy(), max: win32::event_object_hide() },
        EventRange {
            min: win32::event_system_minimizestart(),
            max: win32::event_system_minimizeend(),
        },
        EventRange {
            min: win32::event_system_movesizeend(),
            max: win32::event_system_movesizeend(),
        },
        EventRange {
            min: win32::event_system_foreground(),
            max: win32::event_system_foreground(),
        },
        EventRange {
            min: win32::event_object_locationchange(),
            max: win32::event_object_namechange(),
        },
        EventRange { min: win32::event_object_cloaked(), max: win32::event_object_uncloaked() },
    ]
}

/// The ranges that the bridge hooks. Narrow ranges, each with a hook of its own, let
/// fewer signals reach the callback than one wide range would.
pub fn hook_event_ranges() -> (ranges: Vec<EventRange>)
    ensures
        ranges@ == hook_ranges(),
{
    let mut ranges: Vec<EventRange> = Vec::new();
    ranges.push(
        EventRange {
            min: win32::event_object_locationchange_code(),
            max: win32::event_object_locationchange_code(),
        },
    );
    ranges.push(
        EventRange {
            min: win32::event_object_destroy_code(),
            max: win32::event_object_hide_code(),
        },
    );
    ranges.push(
        EventRange {
            min: win32::event_system_minimizestart_code(),
            max: win32::event_system_minimizeend_code(),
        },
    );
    ranges.push(
        EventRange {
            min: win32::event_system_movesizeend_code(),
            max: win32::event_system_movesizeend_code(),
        },
    );
    ranges.push(
        EventRange {
            min: win32::event_system_foreground_code(),
            max: win32::event_system_foreground_code(),
        },
    );
    ranges.push(
        EventRange {
            min: win32::event_object_locationchange_code(),
            max: win32::event_object_namechange_code(),
        },
    );
    ranges.push(
        EventRange {
            min: win32::event_object_cloaked_code(),
            max: win32::event_object_uncloaked_code(),
        },
    );
    assert(ranges@ =~= hook_ranges());
    ranges
}

/// Where the bridge's thread stands. Each phase but the last waits for the report of
/// one call.
#[derive(Debug, Clone, Copy, PartialEq, Eq, Structural)]
pub enum BridgePhase {
    /// Waiting for the handle of the hook being installed.
    InstallingHooks,
    /// Waiting for the handle of the event window.
    CreatingWindow,
    /// Waiting to hear whether the abort signal has arrived.
    PollingAbort,
    /// Waiting, blocked, for the next message.
    RetrievingMessage,
    /// Waiting for the message to be dispatched.
    DispatchingMessage,
    /// Waiting for the event window to be destroyed.
    DestroyingWindow,
    /// Waiting for the result of the unhook that is under way.
    Unhooking,
    /// Nothing is held any more.
    Finished,
}

/// The call that the bridge's thread is to make next.
#[derive(Debug, Clone, Copy, PartialEq, Eq, Structural)]
pub enum BridgeAction {
    /// Install a hook for the range.
    InstallHook(EventRange),
    /// Create the message-only event window.
    CreateWindow,
    /// Look, without blocking, whether the abort signal has arrived.
    PollAbort,
    /// Retrieve the next message, blocking until there is one.
    RetrieveMessage,
    /// Translate and dispatch the message that was retrieved.
    DispatchMessage,
    /// Destroy the event window.
    DestroyWindow,
    /// Remove the hook.
    Unhook(HookRegistration),
    /// Leave the thread: everything has been released.
    Finish,
}

/// What a call returned.
#[derive(Debug, Clone, Copy, PartialEq, Eq, Structural)]
pub enum BridgeReport {
    /// The handle that installing the hook returned.
    HookInstalled(isize),
    /// The handle that creating the window returned.
    WindowCreated(isize),
    /// Whether the abort signal has arrived.
    AbortPolled(bool),
    /// The platform boolean that retrieving a message returned: zero when there are
    /// no more messages.
    MessageRetrieved(i32),
    /// The message has been dispatched.
    MessageDispatched,
    /// The attempt to destroy the window is over, whether or not it succeeded.
    WindowDestroyed,
    /// The platform boolean that removing the hook returned: zero when it failed.
    Unhooked(i32),
}

/// Why the bridge did not come up.
#[derive(Debug, Clone, Copy, PartialEq, Eq, Structural)]
pub enum StartupFailure {
    /// A hook could not be installed.
    HookInstallation,
    /// The event window could not be created.
    WindowCreation,
}

/// The state of the bridge's thread.
pub struct BridgeState {
    /// The ranges to hook, in order.
    pub ranges: Seq<EventRange>,
    pub phase: BridgePhase,
    /// The hooks installed so far, in the order of installation.
    pub hooks: Seq<HookRegistration>,
    /// While unhooking: the position in `hooks` of the unhook under way.
    pub cursor: int,
    pub failure: Option<StartupFailure>,
    /// The hooks whose removal failed, in the order of the attempts.
    pub failed_unhooks: Seq<HookRegistration>,
}

/// The state in which the release of the hooks begins, and its first call: the
/// removal of the hook installed first, or the end where no hook is held.
pub open spec fn begin_release(s: BridgeState) -> (BridgeState, BridgeAction) {
    if s.hooks.len() > 0 {
        (BridgeState { phase: BridgePhase::Unhooking, cursor: 0, ..s }, BridgeAction::Unhook(s.hooks[0]))
    } else {
        (BridgeState { phase: BridgePhase::Finished, ..s }, BridgeAction::Finish)
    }
}

/// The state after the calls before the message loop have been chosen, and the first
/// call: the installation of the first hook, or the creation of the window where
/// there is nothing to hook.
pub open spec fn initial(ranges: Seq<EventRange>) -> (BridgeState, BridgeAction) {
    let s = BridgeState {
        ranges,
        phase: BridgePhase::InstallingHooks,
        hooks: Seq::empty(),
        cursor: 0,
        failure: None,
        failed_unhooks: Seq::empty(),
    };
    if ranges.len() > 0 {
        (s, BridgeAction::InstallHook(ranges[0]))
    } else {
        (BridgeState { phase: BridgePhase::CreatingWindow, ..s }, BridgeAction::CreateWindow)
    }
}

/// What the bridge does with a report: the next state and the next call, or nothing
/// where the report does not answer the call that the phase waits for.
pub open spec fn step(s: BridgeState, report: BridgeReport) -> Option<(BridgeState, BridgeAction)> {
    match (s.phase, report) {
        (BridgePhase::InstallingHooks, BridgeReport::HookInstalled(handle)) => {
            if s.hooks.len() >= s.ranges.len() {
                None
            } else if win32::hook_handle_invalid(handle) {
                Some(
                    begin_release(
                        BridgeState { failure: Some(StartupFailure::HookInstallation), ..s },
                    ),
                )
            } else {
                let hooks = s.hooks.push(
                    HookRegistration { range: s.ranges[s.hooks.len() as int], handle },
                );
                if hooks.len() < s.ranges.len() {
                    Some(
                        (
                            BridgeState { hooks, ..s },
                            BridgeAction::InstallHook(s.ranges[hooks.len() as int]),
                        ),
                    )
                } else {
                    Some(
                        (
                            BridgeState { hooks, phase: BridgePhase::CreatingWindow, ..s },
                            BridgeAction::CreateWindow,
                        ),
                    )
                }
            }
        },
        (BridgePhase::CreatingWindow, BridgeReport::WindowCreated(handle)) => {
            if handle == 0 {
                Some(
                    begin_release(
                        BridgeState { failure: Some(StartupFailure::WindowCreation), ..s },
                    ),
                )
            } else {
                Some((BridgeState { phase: BridgePhase::PollingAbort, ..s }, BridgeAction::PollAbort))
            }
        },
        (BridgePhase::PollingAbort, BridgeReport::AbortPolled(aborted)) => {
            if aborted {
                Some(
                    (
                        BridgeState { phase: BridgePhase::DestroyingWindow, ..s },
                        BridgeAction::DestroyWindow,
                    ),
                )
            } else {
                Some(
                    (
                        BridgeState { phase: BridgePhase::RetrievingMessage, ..s },
                        BridgeAction::RetrieveMessage,
                    ),
                )
            }
        },
        (BridgePhase::RetrievingMessage, BridgeReport::MessageRetrieved(retrieved)) => {
            if win32::bool_value(retrieved) {
                Some(
                    (
                        BridgeState { phase: BridgePhase::DispatchingMessage, ..s },
                        BridgeAction::DispatchMessage,
                    ),
                )
            } else {
                Some(begin_release(s))
            }
        },
        (BridgePhase::DispatchingMessage, BridgeReport::MessageDispatched) => {
            Some((BridgeState { phase: BridgePhase::PollingAbort, ..s }, BridgeAction::PollAbort))
        },
        (BridgePhase::DestroyingWindow, BridgeReport::WindowDestroyed) => { Some(begin_release(s)) },
        (BridgePhase::Unhooking, BridgeReport::Unhooked(removed)) => {
            if 0 <= s.cursor < s.hooks.len() {
                let failed_unhooks = if win32::bool_value(removed) {
                    s.failed_unhooks
                } else {
                    s.failed_unhooks.push(s.hooks[s.cursor])
                };
                if s.cursor + 1 < s.hooks.len() {
                    Some(
                        (
                            BridgeState { cursor: s.cursor + 1, failed_unhooks, ..s },
                            BridgeAction::Unhook(s.hooks[s.cursor + 1]),
                        ),
                    )
                } else {
                    Some(
                        (
                            BridgeState {
                                cursor: s.cursor + 1,
                                failed_unhooks,
                                phase: BridgePhase::Finished,
                                ..s
                            },
                            BridgeAction::Finish,
                        ),
                    )
                }
            } else {
                None
            }
        },
        _ => None,
    }
}

/// The last state and the calls asked for when a bridge in state `s` is given the
/// reports one after the other. A report that is not accepted asks for no call.
pub open spec fn run(s: BridgeState, reports: Seq<BridgeReport>) -> (BridgeState, Seq<BridgeAction>)
    decreases reports.len(),
{
    if reports.len() == 0 {
        (s, Seq::empty())
    } else {
        match step(s, reports[0]) {
            None => run(s, reports.drop_first()),
            Some((next, action)) => {
                let (last, actions) = run(next, reports.drop_first());
                (last, seq![action] + actions)
            },
        }
    }
}

/// The hooks that the calls remove, in the order of the calls.
pub open spec fn unhooks(actions: Seq<BridgeAction>) -> Seq<HookRegistration>
    decreases actions.len(),
{
    if actions.len() == 0 {
        Seq::empty()
    } else {
        let later = unhooks(actions.drop_first());
        match actions[0] {
            BridgeAction::Unhook(hook) => seq![hook] + later,
            _ => later,
        }
    }
}

/// The handles of the hooks that the reports show as installed, in the order of the
/// reports: those of the accepted reports of an installation whose handle is valid.
pub open spec fn installed_handles(s: BridgeState, reports: Seq<BridgeReport>) -> Seq<isize>
    decreases reports.len(),
{
    if reports.len() == 0 {
        Seq::empty()
    } else {
        match step(s, reports[0]) {
            None => installed_handles(s, reports.drop_first()),
            Some((next, _)) => {
                let later = installed_handles(next, reports.drop_first());
                match reports[0] {
                    BridgeReport::HookInstalled(handle) => if win32::hook_handle_invalid(handle) {
                        later
                    } else {
                        seq![handle] + later
                    },
                    _ => later,
                }
            },
        }
    }
}

/// The handles of the hooks.
pub open spec fn handles(hooks: Seq<HookRegistration>) -> Seq<isize> {
    hooks.map_values(|hook: HookRegistration| hook.handle)
}

/// What holds of every state that a bridge gets into: while it unhooks, the unhook
/// under way is that of a hook it holds.
pub open spec fn consistent(s: BridgeState) -> bool {
    s.phase == BridgePhase::Unhooking ==> 0 <= s.cursor < s.hooks.len()
}

proof fn lemma_step_consistent(s: BridgeState, report: BridgeReport)
    requires
        consistent(s),
    ensures
        step(s, report) matches Some((next, _)) ==> consistent(next),
{
}

proof fn lemma_unhooks_cons(action: BridgeAction, actions: Seq<BridgeAction>)
    ensures
        unhooks(seq![action] + actions) == match action {
            BridgeAction::Unhook(hook) => seq![hook] + unhooks(actions),
            _ => unhooks(actions),
        },
{
    assert((seq![action] + actions).drop_first() =~= actions);
}

proof fn lemma_run(s: BridgeState, reports: Seq<BridgeReport>)
    requires
        consistent(s),
    ensures
        handles(run(s, reports).0.hooks) == handles(s.hooks) + installed_handles(s, reports),
        run(s, reports).0.phase == BridgePhase::Finished ==> match s.phase {
            BridgePhase::Unhooking => {
                &&& run(s, reports).0.hooks == s.hooks
                &&& unhooks(run(s, reports).1) == s.hooks.subrange(
                    s.cursor + 1,
                    s.hooks.len() as int,
                )
            },
            BridgePhase::Finished => {
                &&& run(s, reports).0.hooks == s.hooks
                &&& unhooks(run(s, reports).1) == Seq::<HookRegistration>::empty()
            },
            _ => unhooks(run(s, reports).1) == run(s, reports).0.hooks,
        },
    decreases reports.len(),
{
    if reports.len() == 0 {
        assert(handles(s.hooks) + Seq::<isize>::empty() =~= handles(s.hooks));
    } else {
        let rest = reports.drop_first();
        match step(s, reports[0]) {
            None => {
                lemma_run(s, rest);
            },
            Some((next, action)) => {
                lemma_step_consistent(s, reports[0]);
                lemma_run(next, rest);
                let (last, actions) = run(next, rest);
                lemma_unhooks_cons(action, actions);
                // The handles on record.
                match reports[0] {
                    BridgeReport::HookInstalled(handle) => {
                        if win32::hook_handle_invalid(handle) {
                            assert(next.hooks == s.hooks);
                        } else {
                            assert(handles(next.hooks) =~= handles(s.hooks) + seq![handle]);
                            assert(handles(s.hooks) + (seq![handle] + installed_handles(next, rest))
                                =~= (handles(s.hooks) + seq![handle]) + installed_handles(
                                next,
                                rest,
                            ));
                        }
                    },
                    _ => {
                        assert(next.hooks == s.hooks);
                    },
                }
                // The unhooks asked for.
                if last.phase == BridgePhase::Finished {
                    match s.phase {
                        BridgePhase::Unhooking => {
                            if next.phase == BridgePhase::Unhooking {
                                assert(seq![next.hooks[next.cursor]] + next.hooks.subrange(
                                    next.cursor + 1,
                                    next.hooks.len() as int,
                                ) =~= s.hooks.subrange(s.cursor + 1, s.hooks.len() as int));
                            } else {
                                assert(s.hooks.subrange(s.cursor + 1, s.hooks.len() as int)
                                    =~= Seq::<HookRegistration>::empty());
                            }
                        },
                        BridgePhase::Finished => {},
                        _ => {
                            if next.phase == BridgePhase::Unhooking {
                                assert(seq![next.hooks[0]] + next.hooks.subrange(
                                    1,
                                    next.hooks.len() as int,
                                ) =~= next.hooks);
                            } else if next.phase == BridgePhase::Finished {
                                assert(next.hooks =~= Seq::<HookRegistration>::empty());
                            }
                        },
                    }
                }
            },
        }
    }
}

/// Every hook that was installed is removed, once, before the thread is left.
///
/// Let a bridge take any reports whatever, among them reports of unhooks that
/// failed. If the bridge has finished, the hooks whose removal it asked for are the
/// hooks that the reports showed as installed: each of them once, in the order of
/// installation.
pub proof fn every_installed_hook_is_unhooked(ranges: Seq<EventRange>, reports: Seq<BridgeReport>)
    ensures
        run(initial(ranges).0, reports).0.phase == BridgePhase::Finished ==> handles(
            unhooks(run(initial(ranges).0, reports).1),
        ) == installed_handles(initial(ranges).0, reports),
{
    let first = initial(ranges).0;
    lemma_run(first, reports);
    assert(handles(first.hooks) + installed_handles(first, reports) =~= installed_handles(
        first,
        reports,
    ));
}

/// Whether a call is one that releases: the removal of a hook, or the end.
pub open spec fn is_release(action: BridgeAction) -> bool {
    action is Unhook || action is Finish
}

/// Whether the bridge has turned to releasing what it holds.
pub open spec fn is_releasing(s: BridgeState) -> bool {
    s.phase == BridgePhase::Unhooking || s.phase == BridgePhase::Finished
}

/// The abort signal is looked for before every blocking retrieval: the bridge asks
/// for a message only in answer to the report that no abort signal has arrived.
pub proof fn abort_is_polled_before_each_retrieval(s: BridgeState, report: BridgeReport)
    ensures
        step(s, report) matches Some((_, BridgeAction::RetrieveMessage)) ==> s.phase
            == BridgePhase::PollingAbort && report == BridgeReport::AbortPolled(false),
        s.phase == BridgePhase::PollingAbort && report == BridgeReport::AbortPolled(true) ==> step(
            s,
            report,
        ) matches Some((_, BridgeAction::DestroyWindow)),
{
}

/// A bridge that has turned to releasing only releases: whatever it is told, it
/// asks for nothing but the removal of hooks and the end, and the reason of a
/// failed startup stays on record.
pub proof fn releasing_only_releases(s: BridgeState, reports: Seq<BridgeReport>)
    requires
        is_releasing(s),
    ensures
        is_releasing(run(s, reports).0),
        run(s, reports).0.failure == s.failure,
        forall|i: int|
            0 <= i < run(s, reports).1.len() ==> is_release(#[trigger] run(s, reports).1[i]),
    decreases reports.len(),
{
    if reports.len() > 0 {
        let rest = reports.drop_first();
        match step(s, reports[0]) {
            None => {
                releasing_only_releases(s, rest);
            },
            Some((next, action)) => {
                releasing_only_releases(next, rest);
            },
        }
    }
}

/// The reports of unhooks with the given results.
pub open spec fn unhook_reports(results: Seq<i32>) -> Seq<BridgeReport> {
    results.map_values(|removed: i32| BridgeReport::Unhooked(removed))
}

/// The release comes to its end: a bridge that unhooks has finished as soon as it
/// has had the result of one unhook for each hook that was left, whatever the
/// results are.
pub proof fn release_ends_after_every_unhook(s: BridgeState, results: Seq<i32>)
    requires
        consistent(s),
        s.phase == BridgePhase::Unhooking,
        results.len() == s.hooks.len() - s.cursor,
    ensures
        run(s, unhook_reports(results)).0.phase == BridgePhase::Finished,
        run(s, unhook_reports(results)).1.len() == results.len(),
    decreases results.len(),
{
    let reports = unhook_reports(results);
    let (next, action) = step(s, reports[0]).unwrap();
    assert(reports.drop_first() =~= unhook_reports(results.drop_first()));
    if next.phase == BridgePhase::Unhooking {
        release_ends_after_every_unhook(next, results.drop_first());
    } else {
        assert(results.drop_first().len() == 0);
        assert(run(next, reports.drop_first()).1.len() == 0);
    }
}

/// A startup that fails is rolled back.
///
/// When a hook cannot be installed or the window cannot be created, the bridge puts
/// the reason on record and turns to releasing at once: its next call removes the
/// hook installed first, or ends the thread where no hook is held, and no later
/// call does anything but release.
pub proof fn failed_startup_is_rolled_back(
    s: BridgeState,
    report: BridgeReport,
    reports: Seq<BridgeReport>,
)
    requires
        step(s, report) is Some,
        (report matches BridgeReport::HookInstalled(handle) && win32::hook_handle_invalid(handle))
            || report == BridgeReport::WindowCreated(0),
    ensures
        ({
            let (next, action) = step(s, report).unwrap();
            &&& next.failure == Some(
                if report is HookInstalled {
                    StartupFailure::HookInstallation
                } else {
                    StartupFailure::WindowCreation
                },
            )
            &&& next.hooks == s.hooks
            &&& is_releasing(next)
            &&& action == if s.hooks.len() > 0 {
                BridgeAction::Unhook(s.hooks[0])
            } else {
                BridgeAction::Finish
            }
            &&& is_releasing(run(next, reports).0)
            &&& forall|i: int|
                0 <= i < run(next, reports).1.len() ==> is_release(
                    #[trigger] run(next, reports).1[i],
                )
        }),
{
    let (next, action) = step(s, report).unwrap();
    releasing_only_releases(next, reports);
}

/// The bridge's thread, as far as its decisions go.
pub struct HookBridge {
    ranges: Vec<EventRange>,
    phase: BridgePhase,
    hooks: Vec<HookRegistration>,
    cursor: usize,
    failure: Option<StartupFailure>,
    failed_unhooks: Vec<HookRegistration>,
}

impl View for HookBridge {
    type V = BridgeState;

    closed spec fn view(&self) -> BridgeState {
        BridgeState {
            ranges: self.ranges@,
            phase: self.phase,
            hooks: self.hooks@,
            cursor: self.cursor as int,
            failure: self.failure,
            failed_unhooks: self.failed_unhooks@,
        }
    }
}

impl HookBridge {
    /// Begins the life of a bridge that is to hook the given ranges, and says which
    /// call comes first.
    pub fn start(ranges: Vec<EventRange>) -> (started: (HookBridge, BridgeAction))
        ensures
            (started.0@, started.1) == initial(ranges@),
    {
        let first = if ranges.len() > 0 {
            BridgeAction::InstallHook(ranges[0])
        } else {
            BridgeAction::CreateWindow
        };
        let phase = if ranges.len() > 0 {
            BridgePhase::InstallingHooks
        } else {
            BridgePhase::CreatingWindow
        };
        let bridge = HookBridge {
            ranges,
            phase,
            hooks: Vec::new(),
            cursor: 0,
            failure: None,
            failed_unhooks: Vec::new(),
        };
        (bridge, first)
    }

    /// Where the bridge's thread stands.
    pub fn phase(&self) -> (phase: BridgePhase)
        ensures
            phase == self@.phase,
    {
        self.phase
    }

    /// Whether the bridge holds nothing any more, so that its thread can be left.
    pub fn is_finished(&self) -> (finished: bool)
        ensures
            finished == (self@.phase == BridgePhase::Finished),
    {
        match self.phase {
            BridgePhase::Finished => true,
            _ => false,
        }
    }

    /// Why the bridge did not come up, if it did not.
    pub fn failure(&self) -> (failure: Option<StartupFailure>)
        ensures
            failure == self@.failure,
    {
        self.failure
    }

    /// The hooks installed so far, in the order of installation.
    pub fn hooks(&self) -> (hooks: &Vec<HookRegistration>)
        ensures
            hooks@ == self@.hooks,
    {
        &self.hooks
    }

    /// The hooks whose removal failed, in the order of the attempts.
    pub fn failed_unhooks(&self) -> (failed: &Vec<HookRegistration>)
        ensures
            failed@ == self@.failed_unhooks,
    {
        &self.failed_unhooks
    }

    /// Turns to the release of the hooks.
    fn release(&mut self) -> (action: BridgeAction)
        ensures
            (final(self)@, action) == begin_release(old(self)@),
    {
        if self.hooks.len() > 0 {
            self.phase = BridgePhase::Unhooking;
            self.cursor = 0;
            BridgeAction::Unhook(self.hooks[0])
        } else {
            self.phase = BridgePhase::Finished;
            BridgeAction::Finish
        }
    }

    /// Takes the report of the call that was asked for and says which call comes
    /// next. A report that does not answer the call that the bridge waits for changes
    /// nothing and gets no answer.
    pub fn step(&mut self, report: BridgeReport) -> (next: Option<BridgeAction>)
        ensures
            match step(old(self)@, report) {
                Some((state, action)) => next == Some(action) && final(self)@ == state,
                None => next is None && final(self)@ == old(self)@,
            },
    {
        match (self.phase, report) {
            (BridgePhase::InstallingHooks, BridgeReport::HookInstalled(handle)) => {
                let installed = self.hooks.len();
                if installed >= self.ranges.len() {
                    None
                } else if win32::hook_handle_is_invalid(handle) {
                    self.failure = Some(StartupFailure::HookInstallation);
                    Some(self.release())
                } else {
                    self.hooks.push(HookRegistration { range: self.ranges[installed], handle });
                    if self.hooks.len() < self.ranges.len() {
                        Some(BridgeAction::InstallHook(self.ranges[self.hooks.len()]))
                    } else {
                        self.phase = BridgePhase::CreatingWindow;
                        Some(BridgeAction::CreateWindow)
                    }
                }
            },
            (BridgePhase::CreatingWindow, BridgeReport::WindowCreated(handle)) => {
                if handle == 0 {
                    self.failure = Some(StartupFailure::WindowCreation);
                    Some(self.release())
                } else {
                    self.phase = BridgePhase::PollingAbort;
                    Some(BridgeAction::PollAbort)
                }
            },
            (BridgePhase::PollingAbort, BridgeReport::AbortPolled(aborted)) => {
                if aborted {
                    self.phase = BridgePhase::DestroyingWindow;
                    Some(BridgeAction::DestroyWindow)
                } else {
                    self.phase = BridgePhase::RetrievingMessage;
                    Some(BridgeAction::RetrieveMessage)
                }
            },
            (BridgePhase::RetrievingMessage, BridgeReport::MessageRetrieved(retrieved)) => {
                if win32::bool_is_true(retrieved) {
                    self.phase = BridgePhase::DispatchingMessage;
                    Some(BridgeAction::DispatchMessage)
                } else {
                    Some(self.release())
                }
            },
            (BridgePhase::DispatchingMessage, BridgeReport::MessageDispatched) => {
                self.phase = BridgePhase::PollingAbort;
                Some(BridgeAction::PollAbort)
            },
            (BridgePhase::DestroyingWindow, BridgeReport::WindowDestroyed) => {
                Some(self.release())
            },
            (BridgePhase::Unhooking, BridgeReport::Unhooked(removed)) => {
                if self.cursor < self.hooks.len() {
                    if !win32::bool_is_true(removed) {
                        self.failed_unhooks.push(self.hooks[self.cursor]);
                    }
                    self.cursor = self.cursor + 1;
                    if self.cursor < self.hooks.len() {
                        Some(BridgeAction::Unhook(self.hooks[self.cursor]))
                    } else {
                        self.phase = BridgePhase::Finished;
                        Some(BridgeAction::Finish)
                    }
                } else {
                    None
                }
            },
            _ => None,
        }
    }
}

} // verus!
