use lib::texts::TextId;
use lib::style::{
    bigfont, blue_font, create_msg_window, fade_from_black, fade_to_black, font, poke_sprite,
    poke_sprite_n, print_text, wait_a_button, FontFace, FontSpec, PaletteFade, Rect, SpriteSpec,
    Text, Transition, TransitionAction, TransitionPhase, WaitStep,
};

#[test]
fn fonts() {
    assert_eq!(font(), FontSpec { face: FontFace::Small, fg_color: None, shadow_color: None });
    assert_eq!(bigfont(), FontSpec { face: FontFace::Normal, fg_color: Some(4), shadow_color: Some(5) });
    assert_eq!(blue_font(), FontSpec { face: FontFace::Small, fg_color: Some(8), shadow_color: Some(9) });
}

#[test]
fn sprites() {
    assert_eq!(
        poke_sprite(137, (200, 100), 1),
        SpriteSpec { species: 137, x: 200, y: 100, priority: 1, index: 0 }
    );
    assert_eq!(
        poke_sprite_n(25, (-3, 7), 2, 3),
        SpriteSpec { species: 25, x: -3, y: 7, priority: 2, index: 3 }
    );
}

#[test]
fn msg_window_tile() {
    let w = create_msg_window((2, 2, 26, 16), 0);
    assert_eq!(w.rect, Rect { x: 2, y: 2, w: 26, h: 16 });
    assert_eq!(w.base_tile, 0x80);
    assert_eq!(create_msg_window((1, 1, 1, 1), 0x10).base_tile, 0x90);
    assert_eq!(create_msg_window((1, 1, 1, 1), 0xFF7F).base_tile, 0xFFFF);
}

#[test]
fn text_items() {
    let t = print_text(font(), (50, 106), Text::Ascii(TextId::StatusHeading));
    assert_eq!(t.x, 50);
    assert_eq!(t.y, 106);
    assert_eq!(t.font, font());
    assert_eq!(t.text, Text::Ascii(TextId::StatusHeading));
    let e = print_text(bigfont(), (0, 0), Text::Encoded(vec![0xBB, 0xFF]));
    assert_eq!(e.text, Text::Encoded(vec![0xBB, 0xFF]));
}

#[test]
fn fades_undo_each_other() {
    let a = fade_from_black();
    let b = fade_to_black();
    assert_eq!(a, PaletteFade { delay: 5, start: 16, end: 0, color: 0 });
    assert_eq!(b, PaletteFade { delay: 5, start: 0, end: 16, color: 0 });
    assert_eq!(a.start, b.end);
    assert_eq!(a.end, b.start);
}

#[test]
fn wait_step() {
    assert_eq!(wait_a_button(true), WaitStep::Done);
    assert_eq!(wait_a_button(false), WaitStep::SleepFrame);
}

#[test]
fn transition_runs_fade_wait_fade() {
    let mut t = Transition::transition_slide();
    assert_eq!(t.phase, TransitionPhase::Start);
    // a press during the fade-in is not taken as the end of the wait
    assert_eq!(t.step(true), TransitionAction::Fade(fade_from_black()));
    assert_eq!(t.step(false), TransitionAction::SleepFrame);
    assert_eq!(t.step(false), TransitionAction::SleepFrame);
    assert_eq!(t.phase, TransitionPhase::WaitingForA);
    assert_eq!(t.step(true), TransitionAction::Fade(fade_to_black()));
    assert_eq!(t.phase, TransitionPhase::Finished);
    assert_eq!(t.step(false), TransitionAction::Done);
    assert_eq!(t.step(true), TransitionAction::Done);
}
