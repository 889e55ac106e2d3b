use vstd::prelude::*;
use vstd::string::StringExecFns;
use crate::keys::{is_ignored_key, is_pure_modifier, KeyEvent};
use crate::resolve::{keycodes_to_string, render};

verus! {

/// Default quiet period: the silence, in milliseconds, after the last key
/// press that ends a session.
pub const QUIET_MS: u64 = 900;

/// Default first watchdog wait, in milliseconds, after a session starts.
pub const WAIT_MS: u64 = 1000;

/// One completed session: the last window title seen during it, and the
/// text its key presses render to.
pub struct Emission {
    pub title: String,
    pub text: String,
}

impl View for Emission {
    type V = (Seq<char>, Seq<char>);

    open spec fn view(&self) -> (Seq<char>, Seq<char>) {
        (self.title@, self.text@)
    }
}

/// The view of an optional emission.
pub open spec fn emission_view(o: Option<Emission>) -> Option<(Seq<char>, Seq<char>)> {
    match o {
        Some(e) => Some(e@),
        None => None,
    }
}

/// What a key-down decided.
pub struct EventOutcome {
    /// The record of the session that this key closed, if any.
    pub record: Option<Emission>,
    /// The delay of a watchdog to start, if this key started a session from
    /// idle.
    pub watchdog: Option<u64>,
}

/// What a watchdog wake decided.
pub enum WakeOutcome {
    /// The engine was idle: nothing to do.
    Stale,
    /// The quiet period has not passed yet: wake again after this many
    /// milliseconds.
    Rearm(u64),
    /// The quiet period has passed: the session ended, with this record
    /// (none if nothing was buffered).
    Done(Option<Emission>),
}

/// The engine's abstract state: the session buffer and the debounce timers.
pub struct EngineView {
    /// Buffered key presses, in arrival order.
    pub pending: Seq<KeyEvent>,
    /// The last window title seen since the last flush.
    pub title: Seq<char>,
    /// When the current session started.
    pub start: Option<u64>,
    /// When the current session's last key press came.
    pub last: Option<u64>,
    /// When the one outstanding watchdog is due.
    pub due: Option<u64>,
    /// The quiet period.
    pub quiet: u64,
    /// The first watchdog wait.
    pub wait: u64,
}

impl EngineView {
    /// Idle: no session and no watchdog outstanding.
    pub open spec fn is_idle(self) -> bool {
        self.last is None
    }

    /// Both timers and the watchdog come and go together, a non-empty
    /// buffer means a session is armed, and an empty buffer has no title.
    pub open spec fn wf(self) -> bool {
        &&& self.quiet <= self.wait
        &&& (self.start is Some <==> self.last is Some)
        &&& (self.last is Some <==> self.due is Some)
        &&& (self.pending.len() > 0 ==> self.last is Some)
        &&& (self.pending.len() == 0 ==> self.title.len() == 0)
    }
}

/// `now + delay`, capped at the largest timestamp.
pub open spec fn deadline(now: u64, delay: u64) -> u64 {
    if now + delay > u64::MAX {
        u64::MAX
    } else {
        (now + delay) as u64
    }
}

/// Time passed since `last`, zero if the clock reads earlier.
pub open spec fn elapsed_since(now: u64, last: u64) -> u64 {
    if now >= last {
        (now - last) as u64
    } else {
        0
    }
}

/// Whether a key-down at `t` comes a quiet period or more after the current
/// session's last key press, so that it closes that session.
pub open spec fn closes_session(v: EngineView, t: u64) -> bool {
    v.last matches Some(l) && elapsed_since(t, l) >= v.quiet
}

/// The state after a key-down with the focused window's title. A pure
/// modifier changes nothing; any other key is buffered and refreshes the
/// title. When idle, it starts a session with a watchdog due after the first
/// wait; when it comes a quiet period or more after the session's last key
/// press, that session is closed and a new one starts with this key alone
/// (the outstanding watchdog stays and serves the new one); otherwise it
/// moves the session's last-event time.
pub open spec fn after_event(v: EngineView, e: KeyEvent, title: Seq<char>) -> EngineView {
    if is_pure_modifier(e.key.vk_code) {
        v
    } else if v.is_idle() {
        EngineView {
            pending: v.pending.push(e),
            title,
            start: Some(e.time),
            last: Some(e.time),
            due: Some(deadline(e.time, v.wait)),
            ..v
        }
    } else if closes_session(v, e.time) {
        EngineView { pending: seq![e], title, start: Some(e.time), last: Some(e.time), ..v }
    } else {
        EngineView { pending: v.pending.push(e), title, last: Some(e.time), ..v }
    }
}

/// The record that a key-down publishes: the session it closes, if that
/// session buffered anything.
pub open spec fn event_emission(v: EngineView, e: KeyEvent) -> Option<(Seq<char>, Seq<char>)> {
    if !is_pure_modifier(e.key.vk_code) && closes_session(v, e.time) {
        flushed(v)
    } else {
        None
    }
}

/// The delay of the watchdog that a key-down asks for: only the one that
/// starts a session asks, so at most one watchdog is ever outstanding.
pub open spec fn event_schedule(v: EngineView, e: KeyEvent) -> Option<u64> {
    if !is_pure_modifier(e.key.vk_code) && v.is_idle() {
        Some(v.wait)
    } else {
        None
    }
}

/// The record that a flush publishes, if anything is buffered.
pub open spec fn flushed(v: EngineView) -> Option<(Seq<char>, Seq<char>)> {
    if v.pending.len() == 0 {
        None
    } else {
        Some((v.title, render(v.pending)))
    }
}

/// The state after a flush: buffer and title cleared, or nothing changed if
/// the buffer was empty.
pub open spec fn after_flush(v: EngineView) -> EngineView {
    if v.pending.len() == 0 {
        v
    } else {
        EngineView { pending: seq![], title: seq![], ..v }
    }
}

/// Whether a watchdog waking at `now` ends the session.
pub open spec fn wake_flushes(v: EngineView, now: u64) -> bool {
    v.last matches Some(l) && elapsed_since(now, l) >= v.quiet
}

/// The delay of the re-armed watchdog after an early wake.
pub open spec fn rearm_delay(v: EngineView, now: u64) -> u64 {
    (v.quiet - elapsed_since(now, v.last->0)) as u64
}

/// The state after a watchdog wakes at `now`.
pub open spec fn after_wake(v: EngineView, now: u64) -> EngineView {
    if v.is_idle() {
        v
    } else if wake_flushes(v, now) {
        EngineView { pending: seq![], title: seq![], start: None, last: None, due: None, ..v }
    } else {
        EngineView { due: Some(deadline(now, rearm_delay(v, now))), ..v }
    }
}

/// The record that a watchdog waking at `now` publishes.
pub open spec fn wake_emission(v: EngineView, now: u64) -> Option<(Seq<char>, Seq<char>)> {
    if wake_flushes(v, now) {
        flushed(v)
    } else {
        None
    }
}

/// The title recorded when the focused window's title cannot be read.
pub open spec fn placeholder_title() -> Seq<char> {
    "<< WINDOW TITLE UNKOWN >>"@
}

/// The title to record for a key press: the focused window's title if the
/// lookup gave one, else the fixed placeholder.
pub fn title_or_placeholder(found: Option<String>) -> (r: String)
    ensures
        found matches Some(t) ==> r@ == t@,
        found is None ==> r@ == placeholder_title(),
{
    match found {
        Some(t) => t,
        None => String::from_str("<< WINDOW TITLE UNKOWN >>"),
    }
}

/// The aggregation engine: the session buffer and the debounce state,
/// updated together as one unit.
pub struct Engine {
    events: Vec<KeyEvent>,
    title: String,
    session_start: Option<u64>,
    last_event: Option<u64>,
    watchdog_due: Option<u64>,
    quiet: u64,
    wait: u64,
}

impl View for Engine {
    type V = EngineView;

    closed spec fn view(&self) -> EngineView {
        EngineView {
            pending: self.events@,
            title: self.title@,
            start: self.session_start,
            last: self.last_event,
            due: self.watchdog_due,
            quiet: self.quiet,
            wait: self.wait,
        }
    }
}

impl Engine {
    /// An idle engine with the given quiet period and first watchdog wait.
    pub fn new(quiet_ms: u64, wait_ms: u64) -> (r: Engine)
        requires
            quiet_ms <= wait_ms,
        ensures
            r@.wf(),
            r@.is_idle(),
            r@.pending.len() == 0,
            r@.quiet == quiet_ms,
            r@.wait == wait_ms,
    {
        Engine {
            events: Vec::new(),
            title: String::new(),
            session_start: None,
            last_event: None,
            watchdog_due: None,
            quiet: quiet_ms,
            wait: wait_ms,
        }
    }

    /// Whether no session is in progress.
    pub fn is_idle(&self) -> (r: bool)
        ensures
            r == self@.is_idle(),
    {
        self.last_event.is_none()
    }

    /// The number of buffered key presses.
    pub fn pending_len(&self) -> (r: usize)
        ensures
            r == self@.pending.len(),
    {
        self.events.len()
    }

    /// When the outstanding watchdog is due, if one is.
    pub fn watchdog_due(&self) -> (r: Option<u64>)
        ensures
            r == self@.due,
    {
        self.watchdog_due
    }

    /// Takes a key-down seen while `title` was the focused window's title.
    /// Returns the record of the session it closed, if any, and the delay of
    /// a watchdog to start, if it started a session from idle.
    pub fn on_event(&mut self, event: KeyEvent, title: String) -> (r: EventOutcome)
        requires
            old(self)@.wf(),
        ensures
            final(self)@ == after_event(old(self)@, event, title@),
            emission_view(r.record) == event_emission(old(self)@, event),
            r.watchdog == event_schedule(old(self)@, event),
            final(self)@.wf(),
    {
        if is_ignored_key(event.key.vk_code) {
            return EventOutcome { record: None, watchdog: None };
        }
        let t = event.time;
        match self.last_event {
            None => {
                self.events.push(event);
                self.title = title;
                self.session_start = Some(t);
                self.last_event = Some(t);
                self.watchdog_due = Some(t.saturating_add(self.wait));
                EventOutcome { record: None, watchdog: Some(self.wait) }
            },
            Some(l) => {
                let closes = t.saturating_sub(l) >= self.quiet;
                let record = if closes {
                    self.flush()
                } else {
                    None
                };
                self.events.push(event);
                self.title = title;
                if closes {
                    self.session_start = Some(t);
                    assert(self@.pending =~= seq![event]);
                }
                self.last_event = Some(t);
                EventOutcome { record, watchdog: None }
            },
        }
    }

    /// Takes out the buffered key presses and title, rendered as one record;
    /// with nothing buffered, changes nothing and returns none.
    pub fn flush(&mut self) -> (r: Option<Emission>)
        ensures
            emission_view(r) == flushed(old(self)@),
            final(self)@ == after_flush(old(self)@),
            old(self)@.wf() ==> final(self)@.wf(),
    {
        if self.events.len() == 0 {
            return None;
        }
        let text = keycodes_to_string(&self.events);
        let title = self.title.clone();
        self.events = Vec::new();
        self.title = String::new();
        Some(Emission { title, text })
    }

    /// Handles the outstanding watchdog waking at `now`: ends the session
    /// if the quiet period has passed since its last key press, else re-arms
    /// the watchdog for the rest of the quiet period.
    pub fn on_watchdog_wake(&mut self, now: u64) -> (r: WakeOutcome)
        requires
            old(self)@.wf(),
        ensures
            final(self)@ == after_wake(old(self)@, now),
            final(self)@.wf(),
            r is Stale <==> old(self)@.is_idle(),
            r matches WakeOutcome::Rearm(d) ==> !wake_flushes(old(self)@, now) && d == rearm_delay(
                old(self)@,
                now,
            ),
            r matches WakeOutcome::Done(em) ==> wake_flushes(old(self)@, now) && emission_view(em)
                == flushed(old(self)@),
            !old(self)@.is_idle() ==> (r is Done <==> wake_flushes(old(self)@, now)),
    {
        match self.last_event {
            None => WakeOutcome::Stale,
            Some(l) => {
                let elapsed = now.saturating_sub(l);
                if elapsed >= self.quiet {
                    let em = self.flush();
                    self.session_start = None;
                    self.last_event = None;
                    self.watchdog_due = None;
                    assert(self@.pending =~= seq![]);
                    assert(self@.title =~= seq![]);
                    WakeOutcome::Done(em)
                } else {
                    let d = self.quiet - elapsed;
                    self.watchdog_due = Some(now.saturating_add(d));
                    WakeOutcome::Rearm(d)
                }
            }
        }
    }
}

} // verus!
