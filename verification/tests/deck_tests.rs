use lib::deck::{slide_n, Presenter, PresenterStep, DECK_LEN};
use lib::slides::Slide;

#[test]
fn deck_runs_in_order() {
    let expected = [
        Slide::Intro,
        Slide::IpmxWhat,
        Slide::St2110,
        Slide::Nmos,
        Slide::NmosLive,
        Slide::Vsf,
        Slide::IpmxValue,
        Slide::Benefits,
        Slide::Example,
        Slide::Benefits2,
        Slide::WhyNow,
        Slide::WhyNow2,
        Slide::AnimGenerated,
        Slide::ThankYou,
    ];
    assert_eq!(expected.len(), DECK_LEN);
    for (i, s) in expected.iter().enumerate() {
        assert_eq!(slide_n(i), Some(*s));
    }
}

#[test]
fn deck_ends_after_last_slide() {
    assert_eq!(slide_n(14), None);
    assert_eq!(slide_n(15), None);
    assert_eq!(slide_n(usize::MAX), None);
}

#[test]
fn imported_animation_is_never_shown() {
    for i in 0..64 {
        assert_ne!(slide_n(i), Some(Slide::AnimImported));
    }
}

#[test]
fn no_slide_shown_twice() {
    for i in 0..DECK_LEN {
        for j in (i + 1)..DECK_LEN {
            assert_ne!(slide_n(i), slide_n(j));
        }
    }
}

#[test]
fn presenter_shows_each_slide_once_then_idles() {
    let mut p = Presenter::new();
    for i in 0..DECK_LEN {
        assert_eq!(p.step(), PresenterStep::Show(slide_n(i).unwrap()));
        assert_eq!(p.next, i + 1);
    }
    for _ in 0..10 {
        assert_eq!(p.step(), PresenterStep::Idle);
        assert_eq!(p.next, DECK_LEN);
    }
}

#[test]
fn presenter_first_and_last() {
    let mut p = Presenter::new();
    assert_eq!(p.step(), PresenterStep::Show(Slide::Intro));
    let mut last = PresenterStep::Idle;
    for _ in 1..DECK_LEN {
        last = p.step();
    }
    assert_eq!(last, PresenterStep::Show(Slide::ThankYou));
    assert_eq!(p.step(), PresenterStep::Idle);
}

use lib::deck::{DeckAction, DeckRun, DeckStage};
use lib::style::{fade_from_black, fade_to_black};

#[test]
fn deck_run_waits_for_a_between_slides() {
    let mut run = DeckRun::new();
    // A held from the start does not skip the first slide's fade-in
    assert_eq!(run.step(true), DeckAction::Draw(Slide::Intro));
    assert_eq!(run.step(true), DeckAction::PlayMotion(Slide::Intro));
    assert_eq!(run.step(true), DeckAction::Fade(fade_from_black()));
    for _ in 0..5 {
        assert_eq!(run.step(false), DeckAction::SleepFrame);
    }
    assert_eq!(run.step(true), DeckAction::Fade(fade_to_black()));
    assert_eq!(run.step(true), DeckAction::Clear(Slide::Intro));
    assert_eq!(run.stage, DeckStage::Between);
    assert_eq!(run.step(false), DeckAction::Draw(Slide::IpmxWhat));
}

#[test]
fn deck_run_never_pressed_stays_on_first_slide() {
    let mut run = DeckRun::new();
    assert_eq!(run.step(false), DeckAction::Draw(Slide::Intro));
    assert_eq!(run.step(false), DeckAction::PlayMotion(Slide::Intro));
    assert_eq!(run.step(false), DeckAction::Fade(fade_from_black()));
    for _ in 0..1000 {
        assert_eq!(run.step(false), DeckAction::SleepFrame);
    }
    assert_eq!(run.presenter.next, 1);
}

#[test]
fn deck_run_whole_deck_then_idle() {
    let mut run = DeckRun::new();
    let mut drawn = Vec::new();
    for _ in 0..(DECK_LEN * 5 + 10) {
        match run.step(true) {
            DeckAction::Draw(s) => drawn.push(s),
            _ => {}
        }
    }
    let expected: Vec<Slide> = (0..DECK_LEN).map(|i| slide_n(i).unwrap()).collect();
    assert_eq!(drawn, expected);
    assert_eq!(run.step(true), DeckAction::Idle);
    assert_eq!(run.stage, DeckStage::Between);
}
