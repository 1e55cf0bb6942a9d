//! The scene shown while the home scene loads at startup: a background, a tip,
//! and a loading animation, or the error when loading failed.
//!
//! The scene is a state machine driven by the application: it reports when it
//! is entered, what polling the home scene's loading gave, and asks whether
//! to hand over to the home scene. Times are in milliseconds.

use vstd::prelude::*;
use crate::timing::MIN_SHOW_MS;
use crate::tips::{pick_startup_tip, is_one_of};
use crate::text::prefixed;

verus! {

/// What a poll of the home scene's loading gave.
pub enum LoadPoll {
    /// Still loading.
    Pending,
    /// The home scene is ready.
    Loaded,
    /// Loading failed with this message.
    Failed(String),
}

/// Where the startup scene stands.
pub enum StartupPhase {
    /// The home scene is loading.
    Loading,
    /// The home scene is ready and may take over after `finish_time`.
    Ready { finish_time: u64 },
    /// Loading failed; the scene shows the message and stays.
    Failed { message: String },
    /// The home scene has taken over.
    Done,
}

/// What the scene asks of the application after a frame.
#[derive(Clone, Copy, Debug, PartialEq, Eq, Structural)]
pub enum SceneSwitch {
    /// Keep showing this scene.
    Stay,
    /// Replace this scene by the loaded one.
    Replace,
}

/// The startup loading scene.
pub struct StartupLoadingScene {
    pub phase: StartupPhase,
    /// When the scene was first entered; `None` until then.
    pub enter_time: Option<u64>,
    /// The tip shown at the bottom left.
    pub tip: String,
}

/// The scene after being entered at `now`: the first entry time is kept.
pub open spec fn spec_enter(s: StartupLoadingScene, now: u64) -> StartupLoadingScene {
    StartupLoadingScene {
        enter_time: if s.enter_time is None { Some(now) } else { s.enter_time },
        ..s
    }
}

/// `a + b`, or `u64::MAX` when that does not fit.
pub open spec fn sat_add(a: u64, b: u64) -> u64 {
    if a + b > u64::MAX { u64::MAX } else { (a + b) as u64 }
}

/// The scene after polling its loading at `now` gave `poll`. Only a loading
/// scene changes: a ready home scene may take over `MIN_SHOW_MS` later, and a
/// failure is kept with its message.
pub open spec fn spec_update(s: StartupLoadingScene, now: u64, poll: LoadPoll) -> StartupLoadingScene {
    match s.phase {
        StartupPhase::Loading => match poll {
            LoadPoll::Pending => s,
            LoadPoll::Loaded => StartupLoadingScene {
                phase: StartupPhase::Ready { finish_time: sat_add(now, MIN_SHOW_MS) },
                ..s
            },
            LoadPoll::Failed(m) => StartupLoadingScene {
                phase: StartupPhase::Failed { message: m },
                ..s
            },
        },
        _ => s,
    }
}

/// The scene after asking at `now` whether to hand over, and the answer: the
/// home scene takes over once it is ready and `now` is past the finish time.
pub open spec fn spec_next_scene(s: StartupLoadingScene, now: u64) -> (StartupLoadingScene, SceneSwitch) {
    match s.phase {
        StartupPhase::Ready { finish_time } => if now > finish_time {
            (StartupLoadingScene { phase: StartupPhase::Done, ..s }, SceneSwitch::Replace)
        } else {
            (s, SceneSwitch::Stay)
        },
        _ => (s, SceneSwitch::Stay),
    }
}

/// Entering the scene again keeps the time of the first entry.
pub proof fn law_enter_keeps_first_time(s: StartupLoadingScene, t1: u64, t2: u64)
    ensures
        spec_enter(spec_enter(s, t1), t2) == spec_enter(s, t1),
        s.enter_time is None ==> spec_enter(s, t1).enter_time == Some(t1),
{
}

/// The home scene only takes over from a ready scene, after its finish time.
pub proof fn law_replace_only_when_ready(s: StartupLoadingScene, now: u64)
    ensures
        spec_next_scene(s, now).1 == SceneSwitch::Replace ==> (s.phase matches StartupPhase::Ready {
            finish_time,
        } && now > finish_time),
{
}

/// Once the home scene has loaded at `loaded_at`, the startup scene stays for
/// more than `MIN_SHOW_MS` before the home scene takes over.
pub proof fn law_minimum_show_time(s: StartupLoadingScene, loaded_at: u64, now: u64)
    requires
        s.phase is Loading,
    ensures
        spec_next_scene(spec_update(s, loaded_at, LoadPoll::Loaded), now).1 == SceneSwitch::Replace
            ==> now > loaded_at + MIN_SHOW_MS,
        now > loaded_at + MIN_SHOW_MS ==> spec_next_scene(
            spec_update(s, loaded_at, LoadPoll::Loaded),
            now,
        ).1 == SceneSwitch::Replace,
{
}

/// The home scene takes over at most once.
pub proof fn law_replace_at_most_once(s: StartupLoadingScene, t1: u64, t2: u64, t3: u64, poll: LoadPoll)
    requires
        spec_next_scene(s, t1).1 == SceneSwitch::Replace,
    ensures
        spec_next_scene(spec_next_scene(s, t1).0, t2).1 == SceneSwitch::Stay,
        spec_update(spec_next_scene(s, t1).0, t3, poll) == spec_next_scene(s, t1).0,
{
}

/// A failed startup stays on the error: polling and asking change nothing.
pub proof fn law_failure_is_final(s: StartupLoadingScene, now: u64, poll: LoadPoll)
    requires
        s.phase is Failed,
    ensures
        spec_update(s, now, poll) == s,
        spec_next_scene(s, now) == (s, SceneSwitch::Stay),
{
}

/// One call made by the application on the startup scene.
pub enum StartupEvent {
    /// `enter` at a time.
    Enter(u64),
    /// `update` at a time, with what the poll gave.
    Update(u64, LoadPoll),
    /// `next_scene` at a time.
    Ask(u64),
}

/// The scene after one call, and the answer when the call asks for the next scene.
pub open spec fn spec_step(s: StartupLoadingScene, e: StartupEvent) -> (StartupLoadingScene, Option<SceneSwitch>) {
    match e {
        StartupEvent::Enter(now) => (spec_enter(s, now), None),
        StartupEvent::Update(now, poll) => (spec_update(s, now, poll), None),
        StartupEvent::Ask(now) => {
            let (s1, a) = spec_next_scene(s, now);
            (s1, Some(a))
        },
    }
}

/// The scene after a sequence of calls, and the answers to its questions, in order.
pub open spec fn spec_run(s: StartupLoadingScene, events: Seq<StartupEvent>) -> (StartupLoadingScene, Seq<SceneSwitch>)
    decreases events.len(),
{
    if events.len() == 0 {
        (s, Seq::empty())
    } else {
        let (s1, a) = spec_step(s, events[0]);
        let (sn, rest) = spec_run(s1, events.drop_first());
        (sn, match a {
            Some(x) => seq![x] + rest,
            None => rest,
        })
    }
}

/// A scene that has handed over stays done and answers `Stay` to every question.
proof fn lemma_done_stays(s: StartupLoadingScene, events: Seq<StartupEvent>)
    requires
        s.phase is Done,
    ensures
        spec_run(s, events).0.phase is Done,
        forall|j: int| 0 <= j < spec_run(s, events).1.len() ==> #[trigger] spec_run(s, events).1[j]
            == SceneSwitch::Stay,
    decreases events.len(),
{
    if events.len() > 0 {
        let (s1, a) = spec_step(s, events[0]);
        lemma_done_stays(s1, events.drop_first());
    }
}

/// Over any sequence of calls, the home scene takes over at most once.
pub proof fn law_replace_once_in_any_run(s: StartupLoadingScene, events: Seq<StartupEvent>)
    ensures
        forall|i: int, j: int|
            #![trigger spec_run(s, events).1[i], spec_run(s, events).1[j]]
            0 <= i < j < spec_run(s, events).1.len() && spec_run(s, events).1[i] == SceneSwitch::Replace
                ==> spec_run(s, events).1[j] == SceneSwitch::Stay,
    decreases events.len(),
{
    if events.len() > 0 {
        let (s1, a) = spec_step(s, events[0]);
        let rest_events = events.drop_first();
        law_replace_once_in_any_run(s1, rest_events);
        let rest = spec_run(s1, rest_events).1;
        let answers = spec_run(s, events).1;
        match a {
            Some(x) => {
                assert(answers == seq![x] + rest);
                if x == SceneSwitch::Replace {
                    lemma_done_stays(s1, rest_events);
                }
                assert forall|i: int, j: int|
                    #![trigger answers[i], answers[j]]
                    0 <= i < j < answers.len() && answers[i] == SceneSwitch::Replace implies answers[j]
                    == SceneSwitch::Stay by {
                    if i == 0 {
                        assert(answers[j] == rest[j - 1]);
                    } else {
                        assert(answers[i] == rest[i - 1]);
                        assert(answers[j] == rest[j - 1]);
                    }
                }
            },
            None => {
                assert(answers == rest);
            },
        }
    }
}

/// Entering records the first entry time and changes nothing else.
pub proof fn law_enter_effect(s: StartupLoadingScene, now: u64)
    ensures
        s.enter_time is None ==> spec_enter(s, now).enter_time == Some(now),
        s.enter_time is Some ==> spec_enter(s, now).enter_time == s.enter_time,
        spec_enter(s, now).phase == s.phase,
        spec_enter(s, now).tip == s.tip,
{
}

/// What one poll does: a pending poll changes nothing, whatever the scene and
/// the time; a scene that is not loading ignores polls; a loading scene whose
/// home scene is ready may hand over `MIN_SHOW_MS` after the poll; a failure
/// is kept with its message. The entry time and the tip never change.
pub proof fn law_update_effect(s: StartupLoadingScene, now: u64, poll: LoadPoll)
    ensures
        spec_update(s, now, LoadPoll::Pending) == s,
        !(s.phase is Loading) ==> spec_update(s, now, poll) == s,
        spec_update(s, now, poll).enter_time == s.enter_time,
        spec_update(s, now, poll).tip == s.tip,
        s.phase is Loading && spec_update(s, now, poll).phase !is Loading ==> !(poll is Pending),
        s.phase is Loading && poll is Loaded ==> (spec_update(s, now, poll).phase matches StartupPhase::Ready {
            finish_time,
        } && (now + MIN_SHOW_MS <= u64::MAX ==> finish_time == now + MIN_SHOW_MS) && (now
            + MIN_SHOW_MS > u64::MAX ==> finish_time == u64::MAX)),
        (s.phase is Loading && poll is Failed) ==> spec_update(s, now, poll).phase == (
        StartupPhase::Failed { message: poll->Failed_0 }),
{
}

/// What asking for the next scene does: the home scene takes over exactly
/// when the scene is ready and the time is past its finish time, and the scene
/// is then done; otherwise nothing changes.
pub proof fn law_next_scene_effect(s: StartupLoadingScene, now: u64)
    ensures
        spec_next_scene(s, now).1 == SceneSwitch::Replace <==> (s.phase matches StartupPhase::Ready {
            finish_time,
        } && now > finish_time),
        spec_next_scene(s, now).1 == SceneSwitch::Stay ==> spec_next_scene(s, now).0 == s,
        spec_next_scene(s, now).1 == SceneSwitch::Replace ==> (spec_next_scene(s, now).0.phase is Done
            && spec_next_scene(s, now).0.enter_time == s.enter_time && spec_next_scene(s, now).0.tip
            == s.tip),
{
}

impl StartupLoadingScene {
    /// A scene whose home scene is loading, not yet entered, showing one of
    /// `tips` at random (the greeting `老师,欢迎回来!` when there is none).
    pub fn new(tips: &[&'static str]) -> (s: StartupLoadingScene)
        ensures
            s.phase is Loading,
            s.enter_time is None,
            tips@.len() == 0 ==> s.tip@ == "老师,欢迎回来!"@,
            tips@.len() > 0 ==> is_one_of(s.tip@, tips@),
    {
        let tip = pick_startup_tip(tips);
        StartupLoadingScene { phase: StartupPhase::Loading, enter_time: None, tip: tip.to_owned() }
    }

    /// Whether the home scene is still loading, i.e. whether to poll it.
    pub fn is_loading(&self) -> (r: bool)
        ensures
            r == self.phase is Loading,
    {
        match self.phase {
            StartupPhase::Loading => true,
            _ => false,
        }
    }

    /// The scene is entered at `now`; only the first entry time is kept.
    pub fn enter(&mut self, now: u64)
        ensures
            *final(self) == spec_enter(*old(self), now),
            old(self).enter_time is None ==> final(self).enter_time == Some(now),
            old(self).enter_time is Some ==> final(self).enter_time == old(self).enter_time,
            final(self).phase == old(self).phase,
            final(self).tip == old(self).tip,
    {
        if self.enter_time.is_none() {
            self.enter_time = Some(now);
        }
    }

    /// Polling the home scene's loading at `now` gave `poll`.
    pub fn update(&mut self, now: u64, poll: LoadPoll)
        ensures
            *final(self) == spec_update(*old(self), now, poll),
    {
        if self.is_loading() {
            match poll {
                LoadPoll::Pending => {},
                LoadPoll::Loaded => {
                    self.phase = StartupPhase::Ready { finish_time: now.saturating_add(MIN_SHOW_MS) };
                },
                LoadPoll::Failed(m) => {
                    self.phase = StartupPhase::Failed { message: m };
                },
            }
        }
    }

    /// Whether the home scene takes over at `now`; when it does, the scene is done.
    pub fn next_scene(&mut self, now: u64) -> (r: SceneSwitch)
        ensures
            (*final(self), r) == spec_next_scene(*old(self), now),
    {
        let switch = match self.phase {
            StartupPhase::Ready { finish_time } => now > finish_time,
            _ => false,
        };
        if switch {
            self.phase = StartupPhase::Done;
            SceneSwitch::Replace
        } else {
            SceneSwitch::Stay
        }
    }

    /// The error message to show, when loading failed.
    pub fn error_message(&self) -> (r: Option<&String>)
        ensures
            match self.phase {
                StartupPhase::Failed { message } => r == Some(&message),
                _ => r is None,
            },
    {
        match &self.phase {
            StartupPhase::Failed { message } => Some(message),
            _ => None,
        }
    }

    /// The tip line: `Tip: ` followed by the tip.
    pub fn tip_line(&self) -> (r: String)
        ensures
            r@ == "Tip: "@ + self.tip@,
    {
        prefixed("Tip: ", self.tip.as_str())
    }
}

} // verus!
