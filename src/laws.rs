use vstd::prelude::*;
use crate::keys::{is_pure_modifier, KeyEvent, KeyInfo, KeyNames, VK_BACK, VK_SPACE};
use crate::resolve::{lower_of, render, token_of, with_control};
use crate::engine::{
    after_event, after_flush, after_wake, event_emission, event_schedule, flushed, wake_emission,
    wake_flushes, EngineView,
};

verus! {

/// One input to the engine: a key-down seen with a window title, or a
/// watchdog wake at a time.
pub enum Input {
    Key(KeyEvent, Seq<char>),
    Wake(u64),
}

/// When an input happens.
pub open spec fn time_of(i: Input) -> u64 {
    match i {
        Input::Key(e, _) => e.time,
        Input::Wake(t) => t,
    }
}

/// The state after one input.
pub open spec fn step(v: EngineView, i: Input) -> EngineView {
    match i {
        Input::Key(e, title) => after_event(v, e, title),
        Input::Wake(now) => after_wake(v, now),
    }
}

/// The record that one input publishes, if any.
pub open spec fn step_emission(v: EngineView, i: Input) -> Option<(Seq<char>, Seq<char>)> {
    match i {
        Input::Key(e, _) => event_emission(v, e),
        Input::Wake(now) => wake_emission(v, now),
    }
}

/// The state after a sequence of inputs.
pub open spec fn run(v: EngineView, ins: Seq<Input>) -> EngineView
    decreases ins.len(),
{
    if ins.len() == 0 {
        v
    } else {
        step(run(v, ins.drop_last()), ins.last())
    }
}

/// The records published along a sequence of inputs, in order.
pub open spec fn emissions(v: EngineView, ins: Seq<Input>) -> Seq<(Seq<char>, Seq<char>)>
    decreases ins.len(),
{
    if ins.len() == 0 {
        seq![]
    } else {
        let prev = emissions(v, ins.drop_last());
        match step_emission(run(v, ins.drop_last()), ins.last()) {
            Some(x) => prev.push(x),
            None => prev,
        }
    }
}

/// The key-down events among the inputs, in order.
pub open spec fn keys_of(ins: Seq<Input>) -> Seq<KeyEvent>
    decreases ins.len(),
{
    if ins.len() == 0 {
        seq![]
    } else {
        match ins.last() {
            Input::Key(e, _) => keys_of(ins.drop_last()).push(e),
            Input::Wake(_) => keys_of(ins.drop_last()),
        }
    }
}

/// The time and window title of the latest key-down among the inputs.
pub open spec fn last_key(ins: Seq<Input>) -> Option<(u64, Seq<char>)>
    decreases ins.len(),
{
    if ins.len() == 0 {
        None
    } else {
        match ins.last() {
            Input::Key(e, title) => Some((e.time, title)),
            Input::Wake(_) => last_key(ins.drop_last()),
        }
    }
}

/// The time of the latest key-down among the inputs.
pub open spec fn last_key_time(ins: Seq<Input>) -> u64 {
    match last_key(ins) {
        Some((t, _)) => t,
        None => 0,
    }
}

/// The window title seen with the latest key-down among the inputs.
pub open spec fn last_key_title(ins: Seq<Input>) -> Seq<char> {
    match last_key(ins) {
        Some((_, title)) => title,
        None => seq![],
    }
}

/// A burst of typing: it opens with a key-down, holds no pure modifier, and
/// every later input (key-down or watchdog wake) comes less than `quiet`
/// after the latest key-down before it, and not before it.
pub open spec fn is_burst(ins: Seq<Input>, quiet: u64) -> bool {
    &&& ins.len() > 0
    &&& ins[0] is Key
    &&& forall|j: int|
        0 <= j < ins.len() ==> (#[trigger] ins[j] matches Input::Key(e, _) ==> !is_pure_modifier(
            e.key.vk_code,
        ))
    &&& forall|j: int|
        1 <= j < ins.len() ==> {
            let lk = #[trigger] last_key_time(ins.take(j));
            lk <= time_of(ins[j]) < lk + quiet
        }
}

proof fn lemma_step_wf(v: EngineView, i: Input)
    requires
        v.wf(),
    ensures
        step(v, i).wf(),
        step(v, i).quiet == v.quiet,
        step(v, i).wait == v.wait,
{
}

proof fn lemma_run_concat(v: EngineView, a: Seq<Input>, b: Seq<Input>)
    ensures
        run(v, a + b) == run(run(v, a), b),
        emissions(v, a + b) == emissions(v, a) + emissions(run(v, a), b),
    decreases b.len(),
{
    if b.len() == 0 {
        assert(a + b =~= a);
        assert(emissions(v, a) + seq![] =~= emissions(v, a));
    } else {
        lemma_run_concat(v, a, b.drop_last());
        assert((a + b).drop_last() =~= a + b.drop_last());
        assert((a + b).last() == b.last());
        let prev = emissions(v, a) + emissions(run(v, a), b.drop_last());
        match step_emission(run(run(v, a), b.drop_last()), b.last()) {
            Some(x) => {
                assert(prev.push(x) =~= emissions(v, a) + emissions(run(v, a), b.drop_last()).push(
                    x,
                ));
            },
            None => {},
        }
    }
}

/// Whether a key-down at `t` starts a fresh session: the engine is idle, or
/// its session's last key press lies a quiet period or more before `t` and
/// the outstanding watchdog is due no later than the first wait after it.
pub open spec fn opens_session(v: EngineView, t: u64) -> bool {
    ||| v.is_idle()
    ||| {
        &&& v.last is Some
        &&& v.due is Some
        &&& v.last->0 + v.quiet <= t
        &&& v.due->0 <= v.last->0 + v.wait
    }
}

/// The records published by the key-down that starts a fresh session: the
/// closed session's, if it buffered anything.
pub open spec fn closed_records(v: EngineView) -> Seq<(Seq<char>, Seq<char>)> {
    match flushed(v) {
        Some(r) => seq![r],
        None => seq![],
    }
}

/// What a burst that starts a fresh session leaves behind: an armed session
/// holding exactly the burst's key-downs, the title and time of its latest
/// one, a watchdog due no later than the first wait after that, and nothing
/// published but the record of the session it closed.
proof fn lemma_burst(v: EngineView, ins: Seq<Input>)
    requires
        v.wf(),
        is_burst(ins, v.quiet),
        opens_session(v, time_of(ins[0])),
    ensures
        run(v, ins).wf(),
        !run(v, ins).is_idle(),
        run(v, ins).quiet == v.quiet,
        run(v, ins).wait == v.wait,
        run(v, ins).pending == keys_of(ins),
        run(v, ins).pending.len() > 0,
        last_key(ins) is Some,
        run(v, ins).last == Some(last_key_time(ins)),
        run(v, ins).title == last_key_title(ins),
        run(v, ins).due matches Some(d) && d <= last_key_time(ins) + v.wait,
        emissions(v, ins) == closed_records(v),
    decreases ins.len(),
{
    let p = ins.drop_last();
    let x = ins.last();
    if ins.len() == 1 {
        assert(p.len() == 0);
        assert(x == ins[0]);
        assert(ins[0] matches Input::Key(e, _) ==> !is_pure_modifier(e.key.vk_code));
        assert(keys_of(p) =~= seq![]);
        assert(emissions(v, p) =~= Seq::<(Seq<char>, Seq<char>)>::empty());
        if v.is_idle() {
            assert(v.pending =~= seq![]);
            assert(closed_records(v) =~= Seq::<(Seq<char>, Seq<char>)>::empty());
        } else {
            match flushed(v) {
                Some(r) => {
                    assert(Seq::<(Seq<char>, Seq<char>)>::empty().push(r) =~= seq![r]);
                },
                None => {},
            }
        }
    } else {
        assert forall|j: int| 1 <= j < p.len() implies #[trigger] p.take(j) == ins.take(j) by {
            assert(p.take(j) =~= ins.take(j));
        }
        assert forall|j: int| 1 <= j < p.len() implies {
            let lk = #[trigger] last_key_time(p.take(j));
            lk <= time_of(p[j]) < lk + v.quiet
        } by {
            assert(p.take(j) == ins.take(j));
            assert(p[j] == ins[j]);
            assert(last_key_time(ins.take(j)) == last_key_time(p.take(j)));
        }
        assert forall|j: int| 0 <= j < p.len() implies (#[trigger] p[j] matches Input::Key(
            e,
            _,
        ) ==> !is_pure_modifier(e.key.vk_code)) by {
            assert(p[j] == ins[j]);
        }
        assert(p[0] == ins[0]);
        lemma_burst(v, p);
        let s = run(v, p);
        lemma_step_wf(s, x);
        let j = ins.len() - 1;
        assert(ins.take(j) =~= p);
        assert(x == ins[j]);
        assert(ins[j] matches Input::Key(e, _) ==> !is_pure_modifier(e.key.vk_code));
        assert(step_emission(s, x) is None);
    }
}

/// A burst that starts a fresh session, followed by a watchdog wake the
/// quiet period or later after its last key-down: that wake publishes the
/// burst's one record and leaves the engine idle.
proof fn lemma_burst_then_wake(v: EngineView, ins: Seq<Input>, w: u64)
    requires
        v.wf(),
        is_burst(ins, v.quiet),
        opens_session(v, time_of(ins[0])),
        last_key_time(ins) + v.quiet <= w,
    ensures
        emissions(v, ins.push(Input::Wake(w))) == closed_records(v).push(
            (last_key_title(ins), render(keys_of(ins))),
        ),
        run(v, ins.push(Input::Wake(w))).is_idle(),
        run(v, ins.push(Input::Wake(w))).wf(),
        run(v, ins.push(Input::Wake(w))).quiet == v.quiet,
        run(v, ins.push(Input::Wake(w))).wait == v.wait,
{
    lemma_burst(v, ins);
    let all = ins.push(Input::Wake(w));
    assert(all.drop_last() =~= ins);
    assert(all.last() == Input::Wake(w));
    lemma_step_wf(run(v, ins), Input::Wake(w));
}

/// Watchdog wakes that all come a quiet period or more after the session's
/// last key-down: the first ends the session and publishes its record, the
/// others find the engine idle.
proof fn lemma_quiet_wakes(v: EngineView, gap: Seq<Input>)
    requires
        v.wf(),
        !v.is_idle(),
        forall|j: int|
            0 <= j < gap.len() ==> #[trigger] gap[j] is Wake && v.last->0 + v.quiet <= time_of(
                gap[j],
            ),
    ensures
        gap.len() > 0 ==> run(v, gap).is_idle() && emissions(v, gap) == closed_records(v),
        run(v, gap).wf(),
        run(v, gap).quiet == v.quiet,
        run(v, gap).wait == v.wait,
    decreases gap.len(),
{
    if gap.len() > 0 {
        let p = gap.drop_last();
        assert forall|j: int| 0 <= j < p.len() implies #[trigger] p[j] is Wake && v.last->0
            + v.quiet <= time_of(p[j]) by {
            assert(p[j] == gap[j]);
        }
        lemma_quiet_wakes(v, p);
        lemma_step_wf(run(v, p), gap.last());
        assert(gap.last() == gap[gap.len() - 1]);
        if p.len() == 0 {
            assert(emissions(v, p) =~= Seq::<(Seq<char>, Seq<char>)>::empty());
            match flushed(v) {
                Some(r) => {
                    assert(Seq::<(Seq<char>, Seq<char>)>::empty().push(r) =~= seq![r]);
                },
                None => {
                    assert(closed_records(v) =~= Seq::<(Seq<char>, Seq<char>)>::empty());
                },
            }
        }
    }
}

/// A burst of typing whose gaps all stay under the quiet period is published
/// exactly once: nothing is published during it, a watchdog waking the quiet
/// period or later after its last key-down publishes one record holding the
/// latest window title and the tokens of all its key-downs in arrival order,
/// and one waking earlier publishes nothing. Through the burst the
/// outstanding watchdog stays due no later than the first wait after its
/// last key-down.
pub proof fn law_burst_flushes_once(v: EngineView, ins: Seq<Input>, w: u64)
    requires
        v.wf(),
        v.is_idle(),
        is_burst(ins, v.quiet),
        last_key_time(ins) <= w,
    ensures
        last_key(ins) is Some,
        emissions(v, ins) == Seq::<(Seq<char>, Seq<char>)>::empty(),
        run(v, ins).due matches Some(d) && d <= last_key_time(ins) + v.wait,
        w >= last_key_time(ins) + v.quiet ==> emissions(v, ins.push(Input::Wake(w))) == seq![
            (last_key_title(ins), render(keys_of(ins))),
        ] && run(v, ins.push(Input::Wake(w))).is_idle(),
        w < last_key_time(ins) + v.quiet ==> emissions(v, ins.push(Input::Wake(w))) == Seq::<
            (Seq<char>, Seq<char>),
        >::empty() && !run(v, ins.push(Input::Wake(w))).is_idle(),
{
    assert(v.pending =~= seq![]);
    assert(closed_records(v) =~= Seq::<(Seq<char>, Seq<char>)>::empty());
    lemma_burst(v, ins);
    let all = ins.push(Input::Wake(w));
    assert(all.drop_last() =~= ins);
    assert(all.last() == Input::Wake(w));
    if w >= last_key_time(ins) + v.quiet {
        lemma_burst_then_wake(v, ins, w);
        assert(closed_records(v).push((last_key_title(ins), render(keys_of(ins)))) =~= seq![
            (last_key_title(ins), render(keys_of(ins))),
        ]);
    }
}

/// After a burst of typing the watchdog, firing when it is due (or at the
/// last key-down, if that came later) and again when it re-arms, publishes
/// the burst's record no later than the first wait after the last key-down:
/// at its first firing if the quiet period has passed by then, else at
/// exactly the end of the quiet period. That end must be a representable
/// timestamp: past it the re-armed deadline is capped and never reached.
pub proof fn law_burst_published_in_time(v: EngineView, ins: Seq<Input>)
    requires
        v.wf(),
        v.is_idle(),
        is_burst(ins, v.quiet),
        last_key_time(ins) + v.quiet <= u64::MAX,
    ensures
        ({
            let s = run(v, ins);
            let lk = last_key_time(ins);
            let rec = (last_key_title(ins), render(keys_of(ins)));
            let w1 = if s.due->0 >= lk {
                s.due->0
            } else {
                lk
            };
            &&& s.due is Some
            &&& lk <= w1 <= lk + v.wait
            &&& wake_flushes(s, w1) ==> wake_emission(s, w1) == Some(rec) && after_wake(
                s,
                w1,
            ).is_idle()
            &&& !wake_flushes(s, w1) ==> {
                let s2 = after_wake(s, w1);
                &&& wake_emission(s, w1) is None
                &&& s2.due == Some((lk + v.quiet) as u64)
                &&& wake_emission(s2, (lk + v.quiet) as u64) == Some(rec)
                &&& after_wake(s2, (lk + v.quiet) as u64).is_idle()
            }
        }),
{
    lemma_burst(v, ins);
    let s = run(v, ins);
    let lk = last_key_time(ins);
    let w1 = if s.due->0 >= lk {
        s.due->0
    } else {
        lk
    };
    law_rearm_reaches_quiet(s, w1, (lk + v.quiet) as u64);
}

/// Two bursts, the second starting a quiet period or more after the first
/// ended, publish exactly two records, whatever watchdog wakes come in the
/// gap between them, once a watchdog wakes a quiet period after the second:
/// the first record holds only the first burst's key-downs, the second only
/// the second's.
pub proof fn law_two_bursts_two_records(
    v: EngineView,
    b1: Seq<Input>,
    gap: Seq<Input>,
    b2: Seq<Input>,
    w2: u64,
)
    requires
        v.wf(),
        v.is_idle(),
        is_burst(b1, v.quiet),
        is_burst(b2, v.quiet),
        last_key_time(b1) + v.quiet <= time_of(b2[0]),
        forall|j: int|
            0 <= j < gap.len() ==> #[trigger] gap[j] is Wake && last_key_time(b1) + v.quiet
                <= time_of(gap[j]),
        last_key_time(b2) + v.quiet <= w2,
    ensures
        emissions(v, b1 + gap + b2.push(Input::Wake(w2))) == seq![
            (last_key_title(b1), render(keys_of(b1))),
            (last_key_title(b2), render(keys_of(b2))),
        ],
{
    let rec1 = (last_key_title(b1), render(keys_of(b1)));
    let rec2 = (last_key_title(b2), render(keys_of(b2)));
    let second = b2.push(Input::Wake(w2));
    assert(v.pending =~= seq![]);
    assert(closed_records(v) =~= Seq::<(Seq<char>, Seq<char>)>::empty());
    lemma_burst(v, b1);
    let s1 = run(v, b1);
    assert(closed_records(s1) =~= seq![rec1]);
    lemma_quiet_wakes(s1, gap);
    let s2 = run(s1, gap);
    lemma_run_concat(v, b1, gap);
    lemma_run_concat(v, b1 + gap, second);
    if gap.len() == 0 {
        assert(b1 + gap =~= b1);
        lemma_burst_then_wake(s1, b2, w2);
        assert(emissions(v, b1 + gap + second) =~= seq![rec1, rec2]);
    } else {
        assert(s2.pending =~= seq![]);
        assert(closed_records(s2) =~= Seq::<(Seq<char>, Seq<char>)>::empty());
        lemma_burst_then_wake(s2, b2, w2);
        assert(emissions(v, b1 + gap + second) =~= seq![rec1, rec2]);
    }
}

/// A pure modifier key (shift, caps-lock) yields no text, and a key-down of
/// one leaves the engine as it was: in particular it never starts a session.
pub proof fn law_modifier_is_inert(v: EngineView, e: KeyEvent, title: Seq<char>)
    requires
        is_pure_modifier(e.key.vk_code),
    ensures
        token_of(e.key, e.names) == Seq::<char>::empty(),
        after_event(v, e, title) == v,
        event_schedule(v, e) is None,
        event_emission(v, e) is None,
{
}

/// Flushing an empty buffer publishes nothing and changes nothing, so a
/// second flush right after a first one is always a no-op.
pub proof fn law_empty_flush_is_noop(v: EngineView)
    ensures
        v.pending.len() == 0 ==> flushed(v) is None && after_flush(v) == v,
        flushed(after_flush(v)) is None,
        after_flush(after_flush(v)) == after_flush(v),
{
}

/// Case policy: the same key resolved with caps-lock off gives the lower-case
/// form of what it gives with caps-lock on, behind the control marker when
/// control was held; space and backspace give the same token either way. A
/// name taken from the shifted lookup keeps its own case.
pub proof fn law_case_policy(k: KeyInfo, n: KeyNames)
    ensures
        ({
            let on = KeyInfo { caps: true, ..k };
            let off = KeyInfo { caps: false, ..k };
            &&& (k.vk_code == VK_SPACE || k.vk_code == VK_BACK) ==> token_of(on, n) == token_of(
                off,
                n,
            )
            &&& (k.vk_code == VK_SPACE ==> token_of(on, n) == seq![' '])
            &&& (k.vk_code == VK_BACK ==> token_of(on, n) == seq!['\x08'])
            &&& !is_pure_modifier(k.vk_code) && k.vk_code != VK_SPACE && k.vk_code != VK_BACK
                ==> match n.key_char {
                Some(c) => token_of(on, n) == with_control(k.cntrl, seq![c]) && token_of(off, n)
                    == with_control(k.cntrl, lower_of(seq![c])),
                None => match n.scan_name {
                    Some(name) => if k.shift && n.shift_name is Some {
                        token_of(on, n) == token_of(off, n)
                    } else {
                        token_of(on, n) == with_control(k.cntrl, name@) && token_of(off, n)
                            == with_control(k.cntrl, lower_of(name@))
                    },
                    None => token_of(on, n) == Seq::<char>::empty() && token_of(off, n)
                        == Seq::<char>::empty(),
                },
            }
        }),
{
}

/// The watchdog is never starved: a wake before the quiet period has passed
/// since the last key-down re-arms it for exactly the end of that quiet
/// period, keeping the whole buffer, and a wake then ends the session,
/// publishing every buffered key-down; a wake at or after that point ends
/// it at once.
pub proof fn law_rearm_reaches_quiet(v: EngineView, w1: u64, w2: u64)
    requires
        v.wf(),
        !v.is_idle(),
        v.last->0 <= w1,
        v.last->0 + v.quiet <= w2,
        v.last->0 + v.quiet <= u64::MAX,
    ensures
        wake_flushes(v, w1) <==> w1 >= v.last->0 + v.quiet,
        wake_flushes(v, w1) ==> after_wake(v, w1).is_idle() && wake_emission(v, w1) == flushed(v),
        !wake_flushes(v, w1) ==> {
            let s = after_wake(v, w1);
            &&& wake_emission(v, w1) is None
            &&& !s.is_idle()
            &&& s.pending == v.pending
            &&& s.title == v.title
            &&& s.due == Some((v.last->0 + v.quiet) as u64)
            &&& wake_flushes(s, w2)
            &&& after_wake(s, w2).is_idle()
            &&& wake_emission(s, w2) == flushed(v)
        },
{
}

} // verus!
