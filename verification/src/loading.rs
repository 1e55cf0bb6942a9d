//! The scene shown while a chart's game scene loads: a card with the chart's
//! credits over its blurred illustration, a tip, and a loading indicator; an
//! outro slides it away before the game scene takes over.
//!
//! The scene is a state machine driven by the application, which performs the
//! loading, the polling and the drawing. Times are in milliseconds.

use vstd::prelude::*;
use crate::charter::{display_charter, spec_display_charter};
use crate::illustration::{
    decode_image, get_palette, decoded_image, rgb_palette, palette_color, LoadError,
    LoadedIllustration, PALETTE_QUALITY, PALETTE_COLORS, palette_fits, palette_sums_fit,
};
use crate::pixels::{ThemeColor, use_black_text, spec_use_black_text};
use crate::startup::sat_add;
use crate::text::prefixed;
use crate::timing::{
    BEFORE_MS, transition_time, wait_time, spec_transition_time, spec_wait_time,
};
use crate::tips::{resolve_tip, is_one_of};

verus! {

/// The text of a chart's description that the scene shows.
pub struct ChartInfo {
    pub name: String,
    pub composer: String,
    /// The charter, possibly with `[!:<id>:<name>]` mentions.
    pub charter: String,
    pub illustrator: String,
    /// Path of the illustration file in the chart's file system.
    pub illustration: String,
    pub tip: Option<String>,
}

/// What a poll of the game scene's construction gave.
#[derive(Clone, Copy, Debug, PartialEq, Eq, Structural)]
pub enum GamePoll {
    /// Still being built.
    Pending,
    /// The game scene is ready.
    Ready,
    /// Building it failed.
    Failed,
}

/// Whether the application should poll the game scene again within this update.
#[derive(Clone, Copy, Debug, PartialEq, Eq, Structural)]
pub enum PollDecision {
    /// Done for this update.
    Stop,
    /// Yield the thread and poll again.
    PollAgain,
}

/// The scene that follows the loading scene, once known.
#[derive(Clone, Copy, Debug, PartialEq, Eq, Structural)]
pub enum Pending {
    /// The game scene replaces the loading scene.
    Game,
    /// The loading scene is popped with the error.
    Error,
}

/// What the scene asks of the application after a frame.
#[derive(Clone, Copy, Debug, PartialEq, Eq, Structural)]
pub enum LoadingSwitch {
    /// Keep showing this scene.
    Stay,
    /// Replace this scene by the game scene.
    Replace,
    /// Pop this scene, handing the error back.
    PopWithError,
}

/// The chart loading scene.
pub struct LoadingScene {
    pub info: ChartInfo,
    /// The charter as displayed, mentions replaced by names.
    pub charter: String,
    pub theme_color: ThemeColor,
    /// Whether text over the theme color is drawn black.
    pub use_black: bool,
    /// Whether the game scene is still being built.
    pub loading: bool,
    pub next_scene: Option<Pending>,
    /// When the game scene finished building, plus `BEFORE_MS`; `None` until then.
    pub finish_time: Option<u64>,
    /// Whether the scene renders to an offscreen target.
    pub has_target: bool,
}

/// The time after which the next scene takes over: the finish time, the outro
/// and the pause after it.
pub open spec fn hand_over_time(finish_time: u64, reduced_motion: bool) -> int {
    finish_time + match spec_transition_time(reduced_motion) {
        Some(t) => t as int,
        None => 0int,
    } + spec_wait_time(reduced_motion)
}

/// The scene after entering it with or without an offscreen target.
pub open spec fn spec_enter(s: LoadingScene, has_target: bool) -> LoadingScene {
    LoadingScene { has_target, ..s }
}

/// The scene after a poll at `now` gave `poll`, and whether to poll again.
/// While pending, polling goes on only when rendering to a target; a result
/// ends the loading, records the next scene and sets the finish time to
/// `now + BEFORE_MS`.
pub open spec fn spec_update(s: LoadingScene, now: u64, poll: GamePoll) -> (LoadingScene, PollDecision) {
    if !s.loading {
        (s, PollDecision::Stop)
    } else {
        match poll {
            GamePoll::Pending => (s, if s.has_target { PollDecision::PollAgain } else { PollDecision::Stop }),
            _ => (
                LoadingScene {
                    loading: false,
                    next_scene: Some(if poll == GamePoll::Ready { Pending::Game } else { Pending::Error }),
                    finish_time: Some(sat_add(now, BEFORE_MS)),
                    ..s
                },
                PollDecision::Stop,
            ),
        }
    }
}

/// The scene after asking at `now` whether to hand over, and the answer. An
/// error is handed back at once; the game scene takes over once `now` is past
/// the hand-over time.
pub open spec fn spec_next_scene(s: LoadingScene, now: u64, reduced_motion: bool) -> (LoadingScene, LoadingSwitch) {
    if s.next_scene == Some(Pending::Error) {
        (LoadingScene { next_scene: None, ..s }, LoadingSwitch::PopWithError)
    } else if s.finish_time matches Some(f) && now > hand_over_time(f, reduced_motion)
        && s.next_scene == Some(Pending::Game) {
        (LoadingScene { next_scene: None, ..s }, LoadingSwitch::Replace)
    } else {
        (s, LoadingSwitch::Stay)
    }
}

/// When building the game scene fails, the error is handed back at the next
/// question, whatever the time.
pub proof fn law_error_is_handed_back_at_once(
    s: LoadingScene,
    failed_at: u64,
    now: u64,
    reduced_motion: bool,
)
    requires
        s.loading,
    ensures
        spec_next_scene(spec_update(s, failed_at, GamePoll::Failed).0, now, reduced_motion).1
            == LoadingSwitch::PopWithError,
{
}

/// Once the game scene is ready at `ready_at`, it takes over exactly when `now`
/// is past `ready_at + BEFORE_MS` plus the outro and the pause after it
/// (1.8 s more, or nothing more with reduced motion).
pub proof fn law_game_takes_over_after_outro(
    s: LoadingScene,
    ready_at: u64,
    now: u64,
    reduced_motion: bool,
)
    requires
        s.loading,
    ensures
        spec_next_scene(spec_update(s, ready_at, GamePoll::Ready).0, now, reduced_motion).1
            == LoadingSwitch::Replace <==> now > ready_at + BEFORE_MS + (if reduced_motion {
            0int
        } else {
            1800int
        }),
        spec_next_scene(spec_update(s, ready_at, GamePoll::Ready).0, now, reduced_motion).1
            != LoadingSwitch::PopWithError,
{
}

/// The next scene is handed over at most once.
pub proof fn law_hand_over_at_most_once(
    s: LoadingScene,
    t1: u64,
    t2: u64,
    rm1: bool,
    rm2: bool,
)
    requires
        spec_next_scene(s, t1, rm1).1 != LoadingSwitch::Stay,
    ensures
        spec_next_scene(spec_next_scene(s, t1, rm1).0, t2, rm2).1 == LoadingSwitch::Stay,
{
}

/// A result of building the game scene is recorded once: later polls change
/// nothing and ask for no more polling.
pub proof fn law_result_recorded_once(s: LoadingScene, t1: u64, t2: u64, first: GamePoll, later: GamePoll)
    requires
        s.loading,
        first != GamePoll::Pending,
    ensures
        spec_update(spec_update(s, t1, first).0, t2, later) == (
            spec_update(s, t1, first).0,
            PollDecision::Stop,
        ),
{
}

/// A pending poll changes nothing; polling goes on within the update exactly
/// when the scene renders to a target.
pub proof fn law_pending_poll(s: LoadingScene, now: u64)
    requires
        s.loading,
    ensures
        spec_update(s, now, GamePoll::Pending).0 == s,
        spec_update(s, now, GamePoll::Pending).1 == PollDecision::PollAgain <==> s.has_target,
{
}

/// Before the game scene is built or has failed, the scene stays.
pub proof fn law_stay_while_loading(s: LoadingScene, now: u64, reduced_motion: bool)
    requires
        s.next_scene is None,
    ensures
        spec_next_scene(s, now, reduced_motion) == (s, LoadingSwitch::Stay),
{
}

/// The scene's bookkeeping: it is loading exactly while no finish time is
/// set, and while loading it has no next scene.
pub open spec fn loading_invariant(s: LoadingScene) -> bool {
    &&& (s.loading <==> s.finish_time is None)
    &&& (s.loading ==> s.next_scene is None)
}

/// Entering, polling and asking all keep the scene's bookkeeping, and once the
/// loading has ended its finish time never changes.
pub proof fn law_invariant_kept(
    s: LoadingScene,
    has_target: bool,
    now: u64,
    poll: GamePoll,
    reduced_motion: bool,
)
    requires
        loading_invariant(s),
    ensures
        loading_invariant(spec_enter(s, has_target)),
        loading_invariant(spec_update(s, now, poll).0),
        loading_invariant(spec_next_scene(s, now, reduced_motion).0),
        !s.loading ==> spec_update(s, now, poll).0.finish_time == s.finish_time,
        spec_next_scene(s, now, reduced_motion).0.finish_time == s.finish_time,
        spec_enter(s, has_target).finish_time == s.finish_time,
{
}

/// The game scene never takes over at or before the hand-over time: the
/// finish time, the outro and the pause after it.
pub proof fn law_replace_only_after_hand_over_time(s: LoadingScene, now: u64, reduced_motion: bool)
    ensures
        spec_next_scene(s, now, reduced_motion).1 == LoadingSwitch::Replace ==> (s.finish_time matches Some(f)
            && now > hand_over_time(f, reduced_motion)),
{
}

/// One call made by the application on the scene.
pub enum LoadingEvent {
    /// `enter`, with or without an offscreen target.
    Enter(bool),
    /// `update` at a time, with what the poll gave.
    Update(u64, GamePoll),
    /// `next_scene` at a time, with or without reduced motion.
    Ask(u64, bool),
}

/// The scene after one call, and the answer when the call asks for the next scene.
pub open spec fn spec_step(s: LoadingScene, e: LoadingEvent) -> (LoadingScene, Option<LoadingSwitch>) {
    match e {
        LoadingEvent::Enter(t) => (spec_enter(s, t), None),
        LoadingEvent::Update(now, poll) => (spec_update(s, now, poll).0, None),
        LoadingEvent::Ask(now, rm) => {
            let (s1, a) = spec_next_scene(s, now, rm);
            (s1, Some(a))
        },
    }
}

/// The scene after a sequence of calls, and the answers to its questions, in order.
pub open spec fn spec_run(s: LoadingScene, events: Seq<LoadingEvent>) -> (LoadingScene, Seq<LoadingSwitch>)
    decreases events.len(),
{
    if events.len() == 0 {
        (s, Seq::empty())
    } else {
        let (s1, a) = spec_step(s, events[0]);
        let (sn, rest) = spec_run(s1, events.drop_first());
        (sn, match a {
            Some(x) => seq![x] + rest,
            None => rest,
        })
    }
}

/// No answer after a hand-over hands anything over.
pub open spec fn at_most_one_hand_over(answers: Seq<LoadingSwitch>) -> bool {
    forall|i: int, j: int|
        #![trigger answers[i], answers[j]]
        0 <= i < j < answers.len() && answers[i] != LoadingSwitch::Stay ==> answers[j]
            == LoadingSwitch::Stay
}

/// A scene that has handed over stays so, and answers `Stay` to every question.
proof fn lemma_handed_over_stays(s: LoadingScene, events: Seq<LoadingEvent>)
    requires
        !s.loading,
        s.next_scene is None,
    ensures
        !spec_run(s, events).0.loading,
        spec_run(s, events).0.next_scene is None,
        forall|j: int| 0 <= j < spec_run(s, events).1.len() ==> #[trigger] spec_run(s, events).1[j]
            == LoadingSwitch::Stay,
    decreases events.len(),
{
    if events.len() > 0 {
        let (s1, a) = spec_step(s, events[0]);
        lemma_handed_over_stays(s1, events.drop_first());
    }
}

/// Over any sequence of calls on a scene whose bookkeeping holds (as it does
/// for a new scene), the bookkeeping keeps holding and the next scene is
/// handed over at most once.
pub proof fn law_hand_over_once_in_any_run(s: LoadingScene, events: Seq<LoadingEvent>)
    requires
        loading_invariant(s),
    ensures
        loading_invariant(spec_run(s, events).0),
        at_most_one_hand_over(spec_run(s, events).1),
    decreases events.len(),
{
    if events.len() > 0 {
        let e = events[0];
        let (s1, a) = spec_step(s, e);
        match e {
            LoadingEvent::Enter(t) => law_invariant_kept(s, t, 0, GamePoll::Pending, false),
            LoadingEvent::Update(now, poll) => law_invariant_kept(s, false, now, poll, false),
            LoadingEvent::Ask(now, rm) => law_invariant_kept(s, false, now, GamePoll::Pending, rm),
        }
        let rest_events = events.drop_first();
        law_hand_over_once_in_any_run(s1, rest_events);
        let rest = spec_run(s1, rest_events).1;
        let answers = spec_run(s, events).1;
        match a {
            Some(x) => {
                assert(answers == seq![x] + rest);
                if x != LoadingSwitch::Stay {
                    lemma_handed_over_stays(s1, rest_events);
                }
                assert forall|i: int, j: int|
                    #![trigger answers[i], answers[j]]
                    0 <= i < j < answers.len() && answers[i] != LoadingSwitch::Stay implies answers[j]
                    == LoadingSwitch::Stay by {
                    if i == 0 {
                        assert(answers[j] == rest[j - 1]);
                    } else {
                        assert(answers[i] == rest[i - 1]);
                        assert(answers[j] == rest[j - 1]);
                    }
                }
            },
            None => {
                assert(answers == rest);
            },
        }
    }
}

/// Entering records exactly the given target flag and changes nothing else
/// that the scene decides by.
pub proof fn law_enter_records_target(s: LoadingScene, has_target: bool, now: u64)
    ensures
        spec_enter(s, has_target).has_target == has_target,
        spec_enter(s, has_target).loading == s.loading,
        spec_enter(s, has_target).next_scene == s.next_scene,
        spec_enter(s, has_target).finish_time == s.finish_time,
        spec_enter(s, has_target).theme_color == s.theme_color,
        spec_enter(s, has_target).use_black == s.use_black,
        s.loading ==> (spec_update(spec_enter(s, has_target), now, GamePoll::Pending).1
            == PollDecision::PollAgain <==> has_target),
{
}

/// What one poll does: a pending poll changes nothing; a result ends the
/// loading, records which scene follows and sets the finish time `BEFORE_MS`
/// after the poll; a scene that is no longer loading ignores polls. Only a
/// pending poll while rendering to a target asks for another poll.
pub proof fn law_update_effect(s: LoadingScene, now: u64, poll: GamePoll)
    ensures
        !s.loading ==> spec_update(s, now, poll) == (s, PollDecision::Stop),
        s.loading && poll == GamePoll::Pending ==> spec_update(s, now, poll).0 == s,
        spec_update(s, now, poll).1 == PollDecision::PollAgain <==> (s.loading && poll
            == GamePoll::Pending && s.has_target),
        s.loading && poll != GamePoll::Pending ==> ({
            let t = spec_update(s, now, poll).0;
            &&& !t.loading
            &&& t.next_scene == Some(
                if poll == GamePoll::Ready {
                    Pending::Game
                } else {
                    Pending::Error
                },
            )
            &&& (now + BEFORE_MS <= u64::MAX ==> t.finish_time == Some((now + BEFORE_MS) as u64))
            &&& (now + BEFORE_MS > u64::MAX ==> t.finish_time == Some(u64::MAX))
            &&& t.has_target == s.has_target
            &&& t.theme_color == s.theme_color
            &&& t.use_black == s.use_black
            &&& t.charter == s.charter
        }),
{
}

/// What asking for the next scene does: an error is handed back whatever the
/// time; the game scene once the time is past the finish time plus the outro
/// (1.4 s unless motion is reduced) and the pause (0.4 s unless motion is
/// reduced); otherwise nothing changes. A handed-over scene is taken out.
pub proof fn law_next_scene_effect(s: LoadingScene, now: u64, reduced_motion: bool)
    ensures
        spec_next_scene(s, now, reduced_motion).1 == LoadingSwitch::PopWithError <==> s.next_scene
            == Some(Pending::Error),
        spec_next_scene(s, now, reduced_motion).1 == LoadingSwitch::Replace <==> (s.next_scene == Some(
            Pending::Game,
        ) && (s.finish_time matches Some(f) && now > f + (if reduced_motion {
            0int
        } else {
            1800int
        }))),
        spec_next_scene(s, now, reduced_motion).1 == LoadingSwitch::Stay ==> spec_next_scene(
            s,
            now,
            reduced_motion,
        ).0 == s,
        spec_next_scene(s, now, reduced_motion).1 != LoadingSwitch::Stay ==> ({
            let t = spec_next_scene(s, now, reduced_motion).0;
            &&& t.next_scene is None
            &&& t.loading == s.loading
            &&& t.finish_time == s.finish_time
            &&& t.has_target == s.has_target
        }),
{
}

impl LoadingScene {
    /// Loads an illustration from the bytes of its file: decodes it, and takes
    /// as theme color the first color of its palette (quality 10, two colors).
    /// Fails when the bytes do not decode, when computing the palette reports
    /// an error, or when the image is so large (more than 8,521,760 sampled
    /// pixels, i.e. more than 766,958,402 RGB bytes) that the palette's `i32`
    /// sums could overflow for some content. On such images color-thief's
    /// result rests on wrapping arithmetic, or it panics in debug builds; the
    /// library refuses them instead.
    pub fn load(bytes: &[u8]) -> (r: Result<LoadedIllustration, LoadError>)
        ensures
            r == Err::<LoadedIllustration, LoadError>(LoadError::Decode) <==> decoded_image(
                bytes@,
            ) is None,
            r == Err::<LoadedIllustration, LoadError>(LoadError::TooLarge) <==> (decoded_image(
                bytes@,
            ) matches Some(d) && !palette_sums_fit(d.2.len() as int, PALETTE_QUALITY as int)),
            r == Err::<LoadedIllustration, LoadError>(LoadError::Palette) <==> (decoded_image(
                bytes@,
            ) matches Some(d) && palette_sums_fit(d.2.len() as int, PALETTE_QUALITY as int) && rgb_palette(
                d.2,
                PALETTE_QUALITY,
                PALETTE_COLORS,
            ) is None),
            r matches Ok(l) ==> decoded_image(bytes@) == Some((l.width, l.height, l.rgb@, l.rgba@))
                && l.buffers_fit() && (rgb_palette(l.rgb@, PALETTE_QUALITY, PALETTE_COLORS) matches Some(
                p,
            ) && p.len() >= 1 && l.theme == palette_color(p[0]) && l.theme.r == p[0].0 && l.theme.g
                == p[0].1 && l.theme.b == p[0].2),
    {
        let decoded = match decode_image(bytes) {
            Ok(d) => d,
            Err(_) => return Err(LoadError::Decode),
        };
        if !palette_fits(decoded.rgb.len()) {
            return Err(LoadError::TooLarge);
        }
        let palette = get_palette(decoded.rgb.as_slice(), PALETTE_QUALITY, PALETTE_COLORS);
        LoadedIllustration::from_decoded(decoded, palette)
    }

    /// The illustration a new scene uses: the preloaded one when there is one,
    /// otherwise the result of loading it when that succeeded, otherwise none
    /// (the scene then shows placeholders and a white theme).
    pub fn pick_illustration<T>(preloaded: Option<T>, loaded: Option<Result<T, LoadError>>) -> (r:
        Option<T>)
        ensures
            preloaded is Some ==> r == preloaded,
            preloaded is None ==> r == match loaded {
                Some(Ok(x)) => Some(x),
                _ => None,
            },
    {
        match preloaded {
            Some(p) => Some(p),
            None => match loaded {
                Some(Ok(x)) => Some(x),
                _ => None,
            },
        }
    }

    /// A scene for the chart `info` whose game scene is being built. `theme` is
    /// the illustration's theme color, `None` when the illustration could not
    /// be loaded (white is used then). A chart without a tip gets one of
    /// `tips` at random.
    pub fn new(info: ChartInfo, theme: Option<ThemeColor>, tips: &[&str]) -> (s: LoadingScene)
        requires
            info.tip is Some || tips@.len() > 0,
        ensures
            s.info.name == info.name,
            s.info.composer == info.composer,
            s.info.charter == info.charter,
            s.info.illustrator == info.illustrator,
            s.info.illustration == info.illustration,
            s.info.tip matches Some(t) && (info.tip matches Some(own) ==> t@ == own@) && (
            info.tip is None ==> is_one_of(t@, tips@)),
            s.charter@ == spec_display_charter(info.charter@),
            s.theme_color == (match theme {
                Some(c) => c,
                None => ThemeColor { r: 255, g: 255, b: 255 },
            }),
            s.use_black == spec_use_black_text(s.theme_color),
            s.loading,
            s.next_scene is None,
            s.finish_time is None,
            !s.has_target,
            loading_invariant(s),
    {
        let theme_color = match theme {
            Some(c) => c,
            None => ThemeColor::white(),
        };
        let use_black = use_black_text(theme_color);
        let charter = display_charter(info.charter.as_str());
        let ChartInfo { name, composer, charter: raw_charter, illustrator, illustration, tip } = info;
        let tip = resolve_tip(tip, tips);
        LoadingScene {
            info: ChartInfo {
                name,
                composer,
                charter: raw_charter,
                illustrator,
                illustration,
                tip: Some(tip),
            },
            charter,
            theme_color,
            use_black,
            loading: true,
            next_scene: None,
            finish_time: None,
            has_target: false,
        }
    }

    /// The scene is entered, rendering to an offscreen target or not.
    pub fn enter(&mut self, has_target: bool)
        ensures
            *final(self) == spec_enter(*old(self), has_target),
            final(self).has_target == has_target,
            final(self).loading == old(self).loading,
            final(self).next_scene == old(self).next_scene,
            final(self).finish_time == old(self).finish_time,
    {
        self.has_target = has_target;
    }

    /// A poll of the game scene at `now` gave `poll`; says whether to poll again.
    pub fn update(&mut self, now: u64, poll: GamePoll) -> (r: PollDecision)
        ensures
            (*final(self), r) == spec_update(*old(self), now, poll),
    {
        if !self.loading {
            return PollDecision::Stop;
        }
        match poll {
            GamePoll::Pending => {
                if self.has_target {
                    PollDecision::PollAgain
                } else {
                    PollDecision::Stop
                }
            },
            GamePoll::Ready => {
                self.loading = false;
                self.next_scene = Some(Pending::Game);
                self.finish_time = Some(now.saturating_add(BEFORE_MS));
                PollDecision::Stop
            },
            GamePoll::Failed => {
                self.loading = false;
                self.next_scene = Some(Pending::Error);
                self.finish_time = Some(now.saturating_add(BEFORE_MS));
                PollDecision::Stop
            },
        }
    }

    /// Whether the next scene takes over at `now`; the scene handed over is
    /// taken out of this one.
    pub fn next_scene(&mut self, now: u64, reduced_motion: bool) -> (r: LoadingSwitch)
        ensures
            (*final(self), r) == spec_next_scene(*old(self), now, reduced_motion),
    {
        if self.next_scene == Some(Pending::Error) {
            self.next_scene = None;
            return LoadingSwitch::PopWithError;
        }
        if let Some(f) = self.finish_time {
            let outro = match transition_time(reduced_motion) {
                Some(t) => t,
                None => 0,
            };
            let delay: u64 = outro + wait_time(reduced_motion);
            if now > f && now - f > delay && self.next_scene == Some(Pending::Game) {
                self.next_scene = None;
                return LoadingSwitch::Replace;
            }
        }
        LoadingSwitch::Stay
    }

    /// How long ago the finish time passed, once it has: the outro's clock.
    pub fn outro_elapsed(&self, now: u64) -> (r: Option<u64>)
        ensures
            match self.finish_time {
                Some(f) => if now > f { r == Some((now - f) as u64) } else { r is None },
                None => r is None,
            },
    {
        match self.finish_time {
            Some(f) => if now > f {
                Some(now - f)
            } else {
                None
            },
            None => None,
        }
    }

    /// The charter credit line: `Chart by ` and the displayed charter.
    pub fn charter_line(&self) -> (r: String)
        ensures
            r@ == "Chart by "@ + self.charter@,
    {
        prefixed("Chart by ", self.charter.as_str())
    }

    /// The illustrator credit line: `Illustration by ` and the illustrator.
    pub fn illustrator_line(&self) -> (r: String)
        ensures
            r@ == "Illustration by "@ + self.info.illustrator@,
    {
        prefixed("Illustration by ", self.info.illustrator.as_str())
    }
}

} // verus!
