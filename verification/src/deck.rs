//! The order of the slides, and the run of the presentation step by
//! step: draw a slide, play its motion, close it with its transition,
//! clear it, and only then choose the next one.

use vstd::prelude::*;

use crate::slides::Slide;
use crate::style::{
    no_press_in, transition_step_spec, PaletteFade, Transition, TransitionAction, TransitionPhase,
};

verus! {

/// Number of slides the presentation runs through.
pub const DECK_LEN: usize = 14;

/// The slide shown at position `n` of the presentation, if there is one.
pub open spec fn deck_spec(n: int) -> Option<Slide> {
    if n == 0 {
        Some(Slide::Intro)
    } else if n == 1 {
        Some(Slide::IpmxWhat)
    } else if n == 2 {
        Some(Slide::St2110)
    } else if n == 3 {
        Some(Slide::Nmos)
    } else if n == 4 {
        Some(Slide::NmosLive)
    } else if n == 5 {
        Some(Slide::Vsf)
    } else if n == 6 {
        Some(Slide::IpmxValue)
    } else if n == 7 {
        Some(Slide::Benefits)
    } else if n == 8 {
        Some(Slide::Example)
    } else if n == 9 {
        Some(Slide::Benefits2)
    } else if n == 10 {
        Some(Slide::WhyNow)
    } else if n == 11 {
        Some(Slide::WhyNow2)
    } else if n == 12 {
        Some(Slide::AnimGenerated)
    } else if n == 13 {
        Some(Slide::ThankYou)
    } else {
        None
    }
}

/// The slide at position `n` of the presentation, or `None` past the end.
pub fn slide_n(n: usize) -> (r: Option<Slide>)
    ensures
        r == deck_spec(n as int),
{
    match n {
        0 => Some(Slide::Intro),
        1 => Some(Slide::IpmxWhat),
        2 => Some(Slide::St2110),
        3 => Some(Slide::Nmos),
        4 => Some(Slide::NmosLive),
        5 => Some(Slide::Vsf),
        6 => Some(Slide::IpmxValue),
        7 => Some(Slide::Benefits),
        8 => Some(Slide::Example),
        9 => Some(Slide::Benefits2),
        10 => Some(Slide::WhyNow),
        11 => Some(Slide::WhyNow2),
        12 => Some(Slide::AnimGenerated),
        13 => Some(Slide::ThankYou),
        _ => None,
    }
}

/// What the presentation loop does next.
#[derive(Clone, Copy, Debug, PartialEq, Eq, Structural)]
pub enum PresenterStep {
    /// Show this slide, then ask again.
    Show(Slide),
    /// The deck is over: sleep one frame, then ask again.
    Idle,
}

/// The presentation loop's position in the deck.
pub struct Presenter {
    /// Position of the next slide to show.
    pub next: usize,
}

/// One decision of the loop at position `next`: the position after it and
/// what to do.
pub open spec fn presenter_step_spec(next: nat) -> (nat, PresenterStep) {
    match deck_spec(next as int) {
        Some(s) => ((next + 1) as nat, PresenterStep::Show(s)),
        None => (next, PresenterStep::Idle),
    }
}

/// The decisions of the loop over `k` asks, starting at position `next`.
pub open spec fn presenter_run(next: nat, k: nat) -> Seq<PresenterStep>
    decreases k,
{
    if k == 0 {
        Seq::empty()
    } else {
        let (after, step) = presenter_step_spec(next);
        seq![step] + presenter_run(after, (k - 1) as nat)
    }
}

impl Presenter {
    /// A loop at the start of the deck.
    pub fn new() -> (r: Presenter)
        ensures
            r.next == 0,
    {
        Presenter { next: 0 }
    }

    /// Decides what the loop does next, and moves past the slide it shows.
    pub fn step(&mut self) -> (r: PresenterStep)
        ensures
            (final(self).next as nat, r) == presenter_step_spec(old(self).next as nat),
    {
        match slide_n(self.next) {
            Some(s) => {
                self.next = self.next + 1;
                PresenterStep::Show(s)
            },
            None => PresenterStep::Idle,
        }
    }
}

/// The step a presentation gives at ask `i`, counted from the start: the
/// `i`-th slide of the deck, and after the last one nothing more.
pub open spec fn deck_step(i: int) -> PresenterStep {
    match deck_spec(i) {
        Some(s) => PresenterStep::Show(s),
        None => PresenterStep::Idle,
    }
}

/// There are slides exactly at the positions below `DECK_LEN`.
pub proof fn law_deck_extent(n: int)
    ensures
        deck_spec(n) is Some <==> 0 <= n < DECK_LEN,
{
}

/// Run from position `next`, the loop's `i`-th decision is the one for
/// position `next + i` while the deck lasts, and idling after.
proof fn lemma_run_from(next: nat, k: nat)
    requires
        next <= DECK_LEN,
    ensures
        presenter_run(next, k).len() == k,
        forall|i: int| 0 <= i < k ==> #[trigger] presenter_run(next, k)[i] == deck_step(next + i),
    decreases k,
{
    if k > 0 {
        let (after, step) = presenter_step_spec(next);
        law_deck_extent(next as int);
        lemma_run_from(after, (k - 1) as nat);
        let rest = presenter_run(after, (k - 1) as nat);
        assert forall|i: int| 0 <= i < k implies #[trigger] presenter_run(next, k)[i] == deck_step(next + i) by {
            if i > 0 {
                assert(presenter_run(next, k)[i] == rest[i - 1]);
                if next >= DECK_LEN {
                    law_deck_extent(next + i);
                    law_deck_extent(after + (i - 1));
                }
            }
        }
    }
}

/// Starting a presentation and asking `k` times shows the slides of the
/// deck in order, each once, and then idles for every ask after the last
/// slide.
pub proof fn law_deck_order(k: nat)
    ensures
        presenter_run(0, k).len() == k,
        forall|i: int| 0 <= i < k ==> #[trigger] presenter_run(0, k)[i] == deck_step(i),
{
    lemma_run_from(0, k);
}

/// No slide is shown twice, every slide but the imported animation is
/// shown, and the imported animation is never shown.
pub proof fn law_deck_contents(i: int, j: int, s: Slide)
    ensures
        0 <= i < j < DECK_LEN ==> deck_spec(i) != deck_spec(j),
        s != Slide::AnimImported ==> exists|n: int| 0 <= n < DECK_LEN && deck_spec(n) == Some(s),
        deck_spec(i) != Some(Slide::AnimImported),
{
    if s != Slide::AnimImported {
        let n: int = match s {
            Slide::Intro => 0,
            Slide::IpmxWhat => 1,
            Slide::St2110 => 2,
            Slide::Nmos => 3,
            Slide::NmosLive => 4,
            Slide::Vsf => 5,
            Slide::IpmxValue => 6,
            Slide::Benefits => 7,
            Slide::Example => 8,
            Slide::Benefits2 => 9,
            Slide::WhyNow => 10,
            Slide::WhyNow2 => 11,
            Slide::AnimGenerated => 12,
            Slide::AnimImported => 0,
            Slide::ThankYou => 13,
        };
        assert(deck_spec(n) == Some(s));
    }
}

/// Where the run of the deck stands between two frames.
#[derive(Clone, Copy, Debug, PartialEq, Eq, Structural)]
pub enum DeckStage {
    /// No slide is on screen; the next ask chooses one.
    Between,
    /// The slide is drawn; its motion comes next.
    Drawn(Slide),
    /// The slide's motion is over and its closing transition is in this
    /// phase.
    Closing(Slide, TransitionPhase),
}

/// What the game loop does for one step of the deck.
#[derive(Clone, Copy, Debug, PartialEq, Eq, Structural)]
pub enum DeckAction {
    /// Draw this slide: its window, texts and sprites.
    Draw(Slide),
    /// Play this slide's motion to its end.
    PlayMotion(Slide),
    /// Run this fade to its end.
    Fade(PaletteFade),
    /// Sleep one frame.
    SleepFrame,
    /// Clear this slide's window and let go of its sprites.
    Clear(Slide),
    /// The deck is over: sleep one frame.
    Idle,
}

/// The whole presentation: the position in the deck and the stage of the
/// slide being shown.
pub struct DeckRun {
    pub presenter: Presenter,
    pub stage: DeckStage,
}

/// One step of the deck at position `next` and stage `stage`, with A
/// pressed or not at this step: the position, stage and action after it.
pub open spec fn deck_next(next: nat, stage: DeckStage, a_pressed: bool) -> (nat, DeckStage, DeckAction) {
    match stage {
        DeckStage::Between => match deck_spec(next as int) {
            Some(s) => ((next + 1) as nat, DeckStage::Drawn(s), DeckAction::Draw(s)),
            None => (next, DeckStage::Between, DeckAction::Idle),
        },
        DeckStage::Drawn(s) => (next, DeckStage::Closing(s, TransitionPhase::Start), DeckAction::PlayMotion(s)),
        DeckStage::Closing(s, phase) => {
            let (after, act) = transition_step_spec(phase, a_pressed);
            match act {
                TransitionAction::Fade(f) => (next, DeckStage::Closing(s, after), DeckAction::Fade(f)),
                TransitionAction::SleepFrame => (next, DeckStage::Closing(s, after), DeckAction::SleepFrame),
                TransitionAction::Done => (next, DeckStage::Between, DeckAction::Clear(s)),
            }
        },
    }
}

/// The run of the deck over the steps `presses` (whether A is pressed at
/// each): the position and stage it ends in, and its actions.
pub open spec fn deck_run(next: nat, stage: DeckStage, presses: Seq<bool>) -> (nat, DeckStage, Seq<DeckAction>)
    decreases presses.len(),
{
    if presses.len() == 0 {
        (next, stage, Seq::empty())
    } else {
        let (n, st, act) = deck_next(next, stage, presses[0]);
        let (n2, st2, rest) = deck_run(n, st, presses.drop_first());
        (n2, st2, seq![act] + rest)
    }
}

impl DeckRun {
    /// A presentation at the start of the deck, with nothing on screen.
    pub fn new() -> (r: DeckRun)
        ensures
            r.presenter.next == 0,
            r.stage == DeckStage::Between,
    {
        DeckRun { presenter: Presenter::new(), stage: DeckStage::Between }
    }

    /// One step of the presentation; `a_pressed` is whether A is held at
    /// this step. The next slide is chosen only when no slide is on
    /// screen, which is after the shown slide's transition is over and its
    /// window cleared.
    pub fn step(&mut self, a_pressed: bool) -> (r: DeckAction)
        ensures
            (final(self).presenter.next as nat, final(self).stage, r)
                == deck_next(old(self).presenter.next as nat, old(self).stage, a_pressed),
    {
        match self.stage {
            DeckStage::Between => match self.presenter.step() {
                PresenterStep::Show(s) => {
                    self.stage = DeckStage::Drawn(s);
                    DeckAction::Draw(s)
                },
                PresenterStep::Idle => DeckAction::Idle,
            },
            DeckStage::Drawn(s) => {
                self.stage = DeckStage::Closing(s, TransitionPhase::Start);
                DeckAction::PlayMotion(s)
            },
            DeckStage::Closing(s, phase) => {
                let mut t = Transition { phase };
                match t.step(a_pressed) {
                    TransitionAction::Fade(f) => {
                        self.stage = DeckStage::Closing(s, t.phase);
                        DeckAction::Fade(f)
                    },
                    TransitionAction::SleepFrame => {
                        self.stage = DeckStage::Closing(s, t.phase);
                        DeckAction::SleepFrame
                    },
                    TransitionAction::Done => {
                        self.stage = DeckStage::Between;
                        DeckAction::Clear(s)
                    },
                }
            },
        }
    }
}

/// A run has one action per step.
proof fn lemma_run_len(next: nat, stage: DeckStage, presses: Seq<bool>)
    ensures
        deck_run(next, stage, presses).2.len() == presses.len(),
    decreases presses.len(),
{
    if presses.len() > 0 {
        let (n, st, act) = deck_next(next, stage, presses[0]);
        lemma_run_len(n, st, presses.drop_first());
    }
}

/// A slide waiting for A: it sleeps until the first step at which A is
/// pressed, fades out there, clears at the next step, and then no slide is
/// on screen; without a press it keeps waiting.
proof fn lemma_closing_wait(next: nat, s: Slide, presses: Seq<bool>)
    ensures
        ({
            let (n2, st2, acts) = deck_run(next, DeckStage::Closing(s, TransitionPhase::WaitingForA), presses);
            &&& acts.len() == presses.len()
            &&& forall|i: int| 0 <= i < presses.len() && no_press_in(presses, 0, i) ==>
                #[trigger] acts[i] == (if presses[i] {
                    DeckAction::Fade(PaletteFade { delay: 5, start: 0, end: 16, color: 0 })
                } else {
                    DeckAction::SleepFrame
                })
            &&& forall|i: int| 1 <= i < presses.len() && no_press_in(presses, 0, i - 1) && presses[i - 1] ==>
                #[trigger] acts[i] == DeckAction::Clear(s)
            &&& (no_press_in(presses, 0, presses.len() as int)
                ==> st2 == DeckStage::Closing(s, TransitionPhase::WaitingForA) && n2 == next)
            &&& (presses.len() >= 2 && no_press_in(presses, 0, presses.len() - 2) && presses[presses.len() - 2]
                ==> st2 == DeckStage::Between && n2 == next)
        }),
    decreases presses.len(),
{
    lemma_run_len(next, DeckStage::Closing(s, TransitionPhase::WaitingForA), presses);
    if presses.len() > 0 {
        let q = presses.drop_first();
        let acts = deck_run(next, DeckStage::Closing(s, TransitionPhase::WaitingForA), presses).2;
        if presses[0] {
            lemma_run_len(next, DeckStage::Closing(s, TransitionPhase::Finished), q);
            let st1 = DeckStage::Closing(s, TransitionPhase::Finished);
            let rest = deck_run(next, st1, q).2;
            if q.len() > 0 {
                assert(rest[0] == DeckAction::Clear(s));
                assert(acts[1] == rest[0]);
                let (n3, st3, rest2) = deck_run(next, DeckStage::Between, q.drop_first());
                if q.len() == 1 {
                    assert(deck_run(next, st1, q).1 == DeckStage::Between);
                }
            }
            assert forall|i: int| 0 <= i < presses.len() && no_press_in(presses, 0, i) implies
                #[trigger] acts[i] == (if presses[i] {
                    DeckAction::Fade(PaletteFade { delay: 5, start: 0, end: 16, color: 0 })
                } else {
                    DeckAction::SleepFrame
                }) by {
                if i > 0 {
                    assert(presses[0]);
                    assert(!no_press_in(presses, 0, i));
                }
            }
            assert forall|i: int| 1 <= i < presses.len() && no_press_in(presses, 0, i - 1) && presses[i - 1] implies
                #[trigger] acts[i] == DeckAction::Clear(s) by {
                if i > 1 {
                    assert(presses[0]);
                    assert(!no_press_in(presses, 0, i - 1));
                }
            }
            assert(!no_press_in(presses, 0, presses.len() as int));
            if presses.len() >= 2 && no_press_in(presses, 0, presses.len() - 2) && presses[presses.len() - 2] {
                if presses.len() > 2 {
                    assert(!no_press_in(presses, 0, presses.len() - 2));
                }
            }
        } else {
            lemma_closing_wait(next, s, q);
            let rest = deck_run(next, DeckStage::Closing(s, TransitionPhase::WaitingForA), q).2;
            assert forall|i: int| 0 < i <= presses.len() implies
                no_press_in(presses, 0, i) == no_press_in(q, 0, i - 1) by {
                if no_press_in(q, 0, i - 1) {
                    assert forall|j: int| 0 <= j < i implies !#[trigger] presses[j] by {
                        if j > 0 {
                            assert(presses[j] == q[j - 1]);
                        }
                    }
                }
                if no_press_in(presses, 0, i) {
                    assert forall|j: int| 0 <= j < i - 1 implies !#[trigger] q[j] by {
                        assert(q[j] == presses[j + 1]);
                    }
                }
            }
            assert forall|i: int| 0 < i < presses.len() implies #[trigger] acts[i] == rest[i - 1] && presses[i] == q[i - 1] by {}
            assert(no_press_in(presses, 0, 0));
            assert forall|i: int| 1 <= i < presses.len() && no_press_in(presses, 0, i - 1) && presses[i - 1] implies
                #[trigger] acts[i] == DeckAction::Clear(s) by {
                assert(i >= 2);
                assert(q[i - 2] == presses[i - 1]);
            }
        }
    }
}

/// One slide of the deck, start to end. With no slide on screen and slide
/// `next` still to come, the run draws that slide, plays its motion, fades
/// in whatever the button, then sleeps one frame per step until the first
/// step at which A is pressed; there it fades out, at the step after it
/// clears the slide, and only then is the next position chosen. If A is
/// never pressed, no later slide is ever drawn.
pub proof fn law_slide_run(next: nat, presses: Seq<bool>)
    requires
        next < DECK_LEN,
        presses.len() >= 3,
    ensures
        ({
            let s = deck_spec(next as int)->0;
            let (n2, st2, acts) = deck_run(next, DeckStage::Between, presses);
            &&& acts.len() == presses.len()
            &&& acts[0] == DeckAction::Draw(s)
            &&& acts[1] == DeckAction::PlayMotion(s)
            &&& acts[2] == DeckAction::Fade(PaletteFade { delay: 5, start: 16, end: 0, color: 0 })
            &&& forall|i: int| 3 <= i < presses.len() && no_press_in(presses, 3, i) ==>
                #[trigger] acts[i] == (if presses[i] {
                    DeckAction::Fade(PaletteFade { delay: 5, start: 0, end: 16, color: 0 })
                } else {
                    DeckAction::SleepFrame
                })
            &&& forall|i: int| 4 <= i < presses.len() && no_press_in(presses, 3, i - 1) && presses[i - 1] ==>
                #[trigger] acts[i] == DeckAction::Clear(s)
            &&& (no_press_in(presses, 3, presses.len() as int)
                ==> st2 == DeckStage::Closing(s, TransitionPhase::WaitingForA) && n2 == next + 1)
            &&& (presses.len() >= 5 && no_press_in(presses, 3, presses.len() - 2) && presses[presses.len() - 2]
                ==> st2 == DeckStage::Between && n2 == next + 1)
        }),
{
    let s = deck_spec(next as int)->0;
    let q = presses.subrange(3, presses.len() as int);
    lemma_closing_wait((next + 1) as nat, s, q);
    let p1 = presses.drop_first();
    let p2 = p1.drop_first();
    let p3 = p2.drop_first();
    assert(p3 =~= q);
    law_deck_extent(next as int);
    lemma_run_len(next, DeckStage::Between, presses);
    let n1 = (next + 1) as nat;
    let r1 = deck_run(n1, DeckStage::Drawn(s), p1);
    let r2 = deck_run(n1, DeckStage::Closing(s, TransitionPhase::Start), p2);
    let r3 = deck_run(n1, DeckStage::Closing(s, TransitionPhase::WaitingForA), p3);
    assert(deck_run(next, DeckStage::Between, presses) == (r1.0, r1.1, seq![DeckAction::Draw(s)] + r1.2));
    assert(r1 == (r2.0, r2.1, seq![DeckAction::PlayMotion(s)] + r2.2));
    assert(r2 == (r3.0, r3.1, seq![DeckAction::Fade(PaletteFade { delay: 5, start: 16, end: 0, color: 0 })] + r3.2));
    let acts = deck_run(next, DeckStage::Between, presses).2;
    let rest = deck_run((next + 1) as nat, DeckStage::Closing(s, TransitionPhase::WaitingForA), q).2;
    assert forall|i: int| 3 <= i < presses.len() implies #[trigger] acts[i] == rest[i - 3] && presses[i] == q[i - 3] by {}
    assert forall|i: int| 3 <= i <= presses.len() implies no_press_in(presses, 3, i) == no_press_in(q, 0, i - 3) by {
        if no_press_in(q, 0, i - 3) {
            assert forall|j: int| 3 <= j < i implies !#[trigger] presses[j] by {
                assert(presses[j] == q[j - 3]);
            }
        }
        if no_press_in(presses, 3, i) {
            assert forall|j: int| 0 <= j < i - 3 implies !#[trigger] q[j] by {
                assert(q[j] == presses[j + 3]);
            }
        }
    }
    assert forall|i: int| 4 <= i < presses.len() && no_press_in(presses, 3, i - 1) && presses[i - 1] implies
        #[trigger] acts[i] == DeckAction::Clear(s) by {
        assert(q[i - 4] == presses[i - 1]);
        assert(no_press_in(q, 0, i - 4));
    }
}

/// Past the last slide the run idles at every step and draws nothing.
pub proof fn law_deck_over(next: nat, presses: Seq<bool>)
    requires
        next >= DECK_LEN,
    ensures
        deck_run(next, DeckStage::Between, presses).2.len() == presses.len(),
        forall|i: int| 0 <= i < presses.len() ==> #[trigger] deck_run(next, DeckStage::Between, presses).2[i] == DeckAction::Idle,
        deck_run(next, DeckStage::Between, presses).1 == DeckStage::Between,
    decreases presses.len(),
{
    if presses.len() > 0 {
        law_deck_over(next, presses.drop_first());
        let rest = deck_run(next, DeckStage::Between, presses.drop_first()).2;
        assert forall|i: int| 0 < i < presses.len() implies #[trigger] deck_run(next, DeckStage::Between, presses).2[i] == rest[i - 1] by {}
    }
}

/// The talk in order: the title slide, what IPMX is, ST 2110, NMOS, the
/// live NMOS demo, VSF, what IPMX packages, what it enables, a real-world
/// example, the benefits, why it matters now (two slides), the animation,
/// and the closing slide; fourteen slides and no more.
pub proof fn law_deck_sequence(n: int)
    ensures
        deck_spec(0) == Some(Slide::Intro),
        deck_spec(1) == Some(Slide::IpmxWhat),
        deck_spec(2) == Some(Slide::St2110),
        deck_spec(3) == Some(Slide::Nmos),
        deck_spec(4) == Some(Slide::NmosLive),
        deck_spec(5) == Some(Slide::Vsf),
        deck_spec(6) == Some(Slide::IpmxValue),
        deck_spec(7) == Some(Slide::Benefits),
        deck_spec(8) == Some(Slide::Example),
        deck_spec(9) == Some(Slide::Benefits2),
        deck_spec(10) == Some(Slide::WhyNow),
        deck_spec(11) == Some(Slide::WhyNow2),
        deck_spec(12) == Some(Slide::AnimGenerated),
        deck_spec(13) == Some(Slide::ThankYou),
        n < 0 || n >= 14 ==> deck_spec(n) is None,
        DECK_LEN == 14,
{
}

} // verus!
