//! Fonts, sprites, text placement, window placement and the palette
//! transition that closes every slide.

use vstd::prelude::*;

use crate::texts::TextId;

verus! {

/// Width of the screen in 8x8 tiles.
pub const SCREEN_TILES_W: u8 = 30;
/// Height of the screen in 8x8 tiles.
pub const SCREEN_TILES_H: u8 = 20;
/// Width of the screen in pixels.
pub const SCREEN_PX_W: i16 = 240;
/// Height of the screen in pixels.
pub const SCREEN_PX_H: i16 = 160;

/// First tile of the message-window tile block; a window's own offset is
/// added to it.
pub const MSG_WINDOW_BASE_TILE: u16 = 0x80;

/// The glyph sets of the engine's text printer.
#[derive(Clone, Copy, Debug, PartialEq, Eq, Structural)]
pub enum FontFace {
    Small,
    Normal,
}

/// A font: a glyph set and, where given, colours that replace the glyph
/// set's own foreground and shadow colours.
#[derive(Clone, Copy, Debug, PartialEq, Eq, Structural)]
pub struct FontSpec {
    pub face: FontFace,
    pub fg_color: Option<u8>,
    pub shadow_color: Option<u8>,
}

/// The body font.
pub open spec fn font_spec() -> FontSpec {
    FontSpec { face: FontFace::Small, fg_color: None, shadow_color: None }
}

/// The title font.
pub open spec fn bigfont_spec() -> FontSpec {
    FontSpec { face: FontFace::Normal, fg_color: Some(4u8), shadow_color: Some(5u8) }
}

/// The heading font of the live slide.
pub open spec fn blue_font_spec() -> FontSpec {
    FontSpec { face: FontFace::Small, fg_color: Some(8u8), shadow_color: Some(9u8) }
}

/// The body font: the small glyph set in its own colours.
pub fn font() -> (r: FontSpec)
    ensures
        r == font_spec(),
{
    FontSpec { face: FontFace::Small, fg_color: None, shadow_color: None }
}

/// The title font: the normal glyph set, foreground colour 4, shadow 5.
pub fn bigfont() -> (r: FontSpec)
    ensures
        r == bigfont_spec(),
{
    FontSpec { face: FontFace::Normal, fg_color: Some(4), shadow_color: Some(5) }
}

/// The heading font of the live slide: the small glyph set, foreground
/// colour 8, shadow 9.
pub fn blue_font() -> (r: FontSpec)
    ensures
        r == blue_font_spec(),
{
    FontSpec { face: FontFace::Small, fg_color: Some(8), shadow_color: Some(9) }
}

/// A Pokémon picture sprite: species, position of its top-left corner in
/// pixels, drawing priority and the picture slot it is loaded into.
#[derive(Clone, Copy, Debug, PartialEq, Eq, Structural)]
pub struct SpriteSpec {
    pub species: u16,
    pub x: i16,
    pub y: i16,
    pub priority: u8,
    pub index: u8,
}

/// A Pokémon sprite in picture slot `index`.
pub fn poke_sprite_n(species: u16, pos: (i16, i16), priority: u8, index: u8) -> (r: SpriteSpec)
    ensures
        r == (SpriteSpec { species, x: pos.0, y: pos.1, priority, index }),
{
    SpriteSpec { species, x: pos.0, y: pos.1, priority, index }
}

/// A Pokémon sprite in picture slot 0.
pub fn poke_sprite(species: u16, pos: (i16, i16), priority: u8) -> (r: SpriteSpec)
    ensures
        r == poke_sprite_n_spec(species, pos, priority, 0),
{
    poke_sprite_n(species, pos, priority, 0)
}

/// What `poke_sprite_n` builds.
pub open spec fn poke_sprite_n_spec(species: u16, pos: (i16, i16), priority: u8, index: u8) -> SpriteSpec {
    SpriteSpec { species, x: pos.0, y: pos.1, priority, index }
}

/// The top-left corner of a sprite lies on the screen.
pub open spec fn sprite_on_screen(s: SpriteSpec) -> bool {
    0 <= s.x < SCREEN_PX_W && 0 <= s.y < SCREEN_PX_H
}

/// A rectangle of tiles: left column, top row, width and height.
#[derive(Clone, Copy, Debug, PartialEq, Eq, Structural)]
pub struct Rect {
    pub x: u8,
    pub y: u8,
    pub w: u8,
    pub h: u8,
}

/// A message window: its inner rectangle of tiles and the first tile of its
/// pixel buffer.
#[derive(Clone, Copy, Debug, PartialEq, Eq, Structural)]
pub struct MsgWindowSpec {
    pub rect: Rect,
    pub base_tile: u16,
}

/// The message window with inner rectangle `rect`, whose pixel buffer
/// starts `offset` tiles into the message-window tile block.
pub fn create_msg_window(rect: (u8, u8, u8, u8), offset: u16) -> (r: MsgWindowSpec)
    requires
        MSG_WINDOW_BASE_TILE + offset <= u16::MAX,
    ensures
        r.rect == (Rect { x: rect.0, y: rect.1, w: rect.2, h: rect.3 }),
        r.base_tile == MSG_WINDOW_BASE_TILE + offset,
{
    MsgWindowSpec {
        rect: Rect { x: rect.0, y: rect.1, w: rect.2, h: rect.3 },
        base_tile: MSG_WINDOW_BASE_TILE + offset,
    }
}

/// The window and the one-tile border drawn round it lie on the screen.
pub open spec fn window_on_screen(w: MsgWindowSpec) -> bool {
    &&& 1 <= w.rect.x
    &&& 1 <= w.rect.y
    &&& 1 <= w.rect.w
    &&& 1 <= w.rect.h
    &&& w.rect.x + w.rect.w + 1 <= SCREEN_TILES_W
    &&& w.rect.y + w.rect.h + 1 <= SCREEN_TILES_H
}

/// What a text item prints: one of the slides' own texts, or a label that
/// is already in the game's character encoding.
#[derive(Clone, Debug, PartialEq, Eq)]
pub enum Text {
    Ascii(TextId),
    Encoded(Vec<u8>),
}

/// A text printed into a window at a pixel offset from the window's
/// top-left corner.
#[derive(Clone, Debug, PartialEq, Eq)]
pub struct TextItem {
    pub font: FontSpec,
    pub x: u8,
    pub y: u8,
    pub text: Text,
}

/// The text item that prints `text` in `font` at `pos` inside its window.
pub fn print_text(font: FontSpec, pos: (u8, u8), text: Text) -> (r: TextItem)
    ensures
        r.font == font,
        r.x == pos.0,
        r.y == pos.1,
        r.text == text,
{
    TextItem { font, x: pos.0, y: pos.1, text }
}

/// The text starts inside the pixel area of the window.
pub open spec fn text_in_window(t: TextItem, w: MsgWindowSpec) -> bool {
    t.x < w.rect.w * 8 && t.y < w.rect.h * 8
}

/// A fade of all palettes: frames between steps, starting and ending blend
/// level (0 is the palette itself, 16 is fully the blend colour) and the
/// blend colour.
#[derive(Clone, Copy, Debug, PartialEq, Eq, Structural)]
pub struct PaletteFade {
    pub delay: u8,
    pub start: u8,
    pub end: u8,
    pub color: u16,
}

/// Fade all palettes in from black.
pub fn fade_from_black() -> (r: PaletteFade)
    ensures
        r == (PaletteFade { delay: 5, start: 16, end: 0, color: 0 }),
{
    PaletteFade { delay: 5, start: 16, end: 0, color: 0 }
}

/// Fade all palettes out to black.
pub fn fade_to_black() -> (r: PaletteFade)
    ensures
        r == (PaletteFade { delay: 5, start: 0, end: 16, color: 0 }),
{
    PaletteFade { delay: 5, start: 0, end: 16, color: 0 }
}

/// One poll of the wait for the A button.
#[derive(Clone, Copy, Debug, PartialEq, Eq, Structural)]
pub enum WaitStep {
    /// A is pressed: the wait is over.
    Done,
    /// A is not pressed: sleep one frame and poll again.
    SleepFrame,
}

/// Decides one poll of the wait for the A button.
pub fn wait_a_button(a_pressed: bool) -> (r: WaitStep)
    ensures
        r == (if a_pressed { WaitStep::Done } else { WaitStep::SleepFrame }),
{
    if a_pressed {
        WaitStep::Done
    } else {
        WaitStep::SleepFrame
    }
}

/// Where the end-of-slide transition stands.
#[derive(Clone, Copy, Debug, PartialEq, Eq, Structural)]
pub enum TransitionPhase {
    /// Nothing done yet.
    Start,
    /// Faded in; waiting for the A button.
    WaitingForA,
    /// Faded out again; the transition is over.
    Finished,
}

/// What the game loop does for one step of a transition.
#[derive(Clone, Copy, Debug, PartialEq, Eq, Structural)]
pub enum TransitionAction {
    /// Run this fade to its end.
    Fade(PaletteFade),
    /// Sleep one frame.
    SleepFrame,
    /// The transition is over.
    Done,
}

/// The transition that ends every slide: fade in from black, wait for the
/// A button, fade out to black.
pub struct Transition {
    pub phase: TransitionPhase,
}

/// One step of the transition: the phase after it and the action.
pub open spec fn transition_step_spec(phase: TransitionPhase, a_pressed: bool) -> (TransitionPhase, TransitionAction) {
    match phase {
        TransitionPhase::Start => (
            TransitionPhase::WaitingForA,
            TransitionAction::Fade(PaletteFade { delay: 5, start: 16, end: 0, color: 0 }),
        ),
        TransitionPhase::WaitingForA => if a_pressed {
            (TransitionPhase::Finished, TransitionAction::Fade(PaletteFade { delay: 5, start: 0, end: 16, color: 0 }))
        } else {
            (TransitionPhase::WaitingForA, TransitionAction::SleepFrame)
        },
        TransitionPhase::Finished => (TransitionPhase::Finished, TransitionAction::Done),
    }
}

impl Transition {
    /// A transition that has not started.
    pub fn transition_slide() -> (r: Transition)
        ensures
            r.phase == TransitionPhase::Start,
    {
        Transition { phase: TransitionPhase::Start }
    }

    /// Advances the transition by one step; `a_pressed` is whether the A
    /// button is held at this step.
    pub fn step(&mut self, a_pressed: bool) -> (r: TransitionAction)
        ensures
            (final(self).phase, r) == transition_step_spec(old(self).phase, a_pressed),
    {
        match self.phase {
            TransitionPhase::Start => {
                self.phase = TransitionPhase::WaitingForA;
                TransitionAction::Fade(fade_from_black())
            },
            TransitionPhase::WaitingForA => {
                match wait_a_button(a_pressed) {
                    WaitStep::Done => {
                        self.phase = TransitionPhase::Finished;
                        TransitionAction::Fade(fade_to_black())
                    },
                    WaitStep::SleepFrame => TransitionAction::SleepFrame,
                }
            },
            TransitionPhase::Finished => TransitionAction::Done,
        }
    }
}

/// The transition ends where it began: its closing fade runs its opening
/// fade backwards (same speed and colour, start and end swapped), it waits
/// for as long as A is not pressed, and once finished it stays finished.
pub proof fn law_transition_round_trip(a: bool, b: bool)
    ensures
        ({
            let (p1, open) = transition_step_spec(TransitionPhase::Start, a);
            let (p2, close) = transition_step_spec(p1, true);
            &&& p1 == TransitionPhase::WaitingForA
            &&& p2 == TransitionPhase::Finished
            &&& open matches TransitionAction::Fade(f_in)
            &&& close matches TransitionAction::Fade(f_out)
            &&& f_in.delay == f_out.delay && f_in.color == f_out.color
            &&& f_in.start == f_out.end && f_in.end == f_out.start
        }),
        transition_step_spec(TransitionPhase::WaitingForA, false)
            == (TransitionPhase::WaitingForA, TransitionAction::SleepFrame),
        transition_step_spec(TransitionPhase::Finished, b).0 == TransitionPhase::Finished,
{
}

/// The actions of a transition in phase `phase` over the polls `presses`
/// (whether A is pressed at each poll), and the phase it ends in.
pub open spec fn transition_run(phase: TransitionPhase, presses: Seq<bool>) -> (TransitionPhase, Seq<TransitionAction>)
    decreases presses.len(),
{
    if presses.len() == 0 {
        (phase, Seq::empty())
    } else {
        let (next, act) = transition_step_spec(phase, presses[0]);
        let (end, rest) = transition_run(next, presses.drop_first());
        (end, seq![act] + rest)
    }
}

/// A is not pressed at any poll from `lo` up to (not including) `hi`.
pub open spec fn no_press_in(presses: Seq<bool>, lo: int, hi: int) -> bool {
    forall|j: int| lo <= j < hi ==> !#[trigger] presses[j]
}

/// A finished transition stays finished and does nothing more.
proof fn lemma_finished_run(presses: Seq<bool>)
    ensures
        transition_run(TransitionPhase::Finished, presses).0 == TransitionPhase::Finished,
        transition_run(TransitionPhase::Finished, presses).1.len() == presses.len(),
        forall|i: int| 0 <= i < presses.len() ==> #[trigger] transition_run(TransitionPhase::Finished, presses).1[i] == TransitionAction::Done,
    decreases presses.len(),
{
    if presses.len() > 0 {
        lemma_finished_run(presses.drop_first());
        let rest = transition_run(TransitionPhase::Finished, presses.drop_first()).1;
        assert forall|i: int| 0 <= i < presses.len() implies #[trigger] transition_run(TransitionPhase::Finished, presses).1[i] == TransitionAction::Done by {
            if i > 0 {
                assert(transition_run(TransitionPhase::Finished, presses).1[i] == rest[i - 1]);
            }
        }
    }
}

/// The wait for the A button: it sleeps one frame at every poll until the
/// first poll at which A is pressed, fades out there, and does nothing
/// after; it finishes if and only if A is pressed at some poll.
pub proof fn law_wait_for_a(presses: Seq<bool>)
    ensures
        ({
            let (end, acts) = transition_run(TransitionPhase::WaitingForA, presses);
            &&& acts.len() == presses.len()
            &&& forall|i: int| 0 <= i < presses.len() && no_press_in(presses, 0, i) ==>
                #[trigger] acts[i] == (if presses[i] {
                    TransitionAction::Fade(PaletteFade { delay: 5, start: 0, end: 16, color: 0 })
                } else {
                    TransitionAction::SleepFrame
                })
            &&& forall|i: int| 0 <= i < presses.len() && !no_press_in(presses, 0, i) ==>
                #[trigger] acts[i] == TransitionAction::Done
            &&& (end == TransitionPhase::Finished <==> !no_press_in(presses, 0, presses.len() as int))
            &&& (end != TransitionPhase::Finished ==> end == TransitionPhase::WaitingForA)
        }),
    decreases presses.len(),
{
    if presses.len() > 0 {
        let q = presses.drop_first();
        let acts = transition_run(TransitionPhase::WaitingForA, presses).1;
        if presses[0] {
            lemma_finished_run(q);
            let rest = transition_run(TransitionPhase::Finished, q).1;
            assert forall|i: int| 0 <= i < presses.len() && !no_press_in(presses, 0, i) implies
                #[trigger] acts[i] == TransitionAction::Done by {
                assert(i > 0);
                assert(acts[i] == rest[i - 1]);
            }
            assert forall|i: int| 0 <= i < presses.len() && no_press_in(presses, 0, i) implies
                #[trigger] acts[i] == TransitionAction::Fade(PaletteFade { delay: 5, start: 0, end: 16, color: 0 }) by {
                if i > 0 {
                    assert(presses[0]);
                    assert(!no_press_in(presses, 0, i));
                }
            }
            assert(!no_press_in(presses, 0, presses.len() as int));
        } else {
            law_wait_for_a(q);
            let rest = transition_run(TransitionPhase::WaitingForA, q).1;
            assert forall|i: int| 0 < i <= presses.len() implies
                no_press_in(presses, 0, i) == no_press_in(q, 0, i - 1) by {
                if no_press_in(q, 0, i - 1) {
                    assert forall|j: int| 0 <= j < i implies !#[trigger] presses[j] by {
                        if j > 0 {
                            assert(presses[j] == q[j - 1]);
                        }
                    }
                }
                if no_press_in(presses, 0, i) {
                    assert forall|j: int| 0 <= j < i - 1 implies !#[trigger] q[j] by {
                        assert(q[j] == presses[j + 1]);
                    }
                }
            }
            assert forall|i: int| 0 < i < presses.len() implies #[trigger] acts[i] == rest[i - 1] && presses[i] == q[i - 1] by {}
            assert(no_press_in(presses, 0, 0));
        }
    }
}

/// The transition that ends a slide: it always fades in at its first step,
/// whatever the button; after that it sleeps until the first poll at which
/// A is pressed, fades out there, and does nothing more. It completes if
/// and only if A is pressed at some poll after the fade-in.
pub proof fn law_transition_completes(presses: Seq<bool>)
    requires
        presses.len() >= 1,
    ensures
        ({
            let (end, acts) = transition_run(TransitionPhase::Start, presses);
            &&& acts.len() == presses.len()
            &&& acts[0] == TransitionAction::Fade(PaletteFade { delay: 5, start: 16, end: 0, color: 0 })
            &&& forall|i: int| 1 <= i < presses.len() && no_press_in(presses, 1, i) ==>
                #[trigger] acts[i] == (if presses[i] {
                    TransitionAction::Fade(PaletteFade { delay: 5, start: 0, end: 16, color: 0 })
                } else {
                    TransitionAction::SleepFrame
                })
            &&& forall|i: int| 1 <= i < presses.len() && !no_press_in(presses, 1, i) ==>
                #[trigger] acts[i] == TransitionAction::Done
            &&& (end == TransitionPhase::Finished <==> !no_press_in(presses, 1, presses.len() as int))
        }),
{
    let q = presses.drop_first();
    law_wait_for_a(q);
    let acts = transition_run(TransitionPhase::Start, presses).1;
    let rest = transition_run(TransitionPhase::WaitingForA, q).1;
    assert forall|i: int| 1 <= i <= presses.len() implies no_press_in(presses, 1, i) == no_press_in(q, 0, i - 1) by {
        if no_press_in(q, 0, i - 1) {
            assert forall|j: int| 1 <= j < i implies !#[trigger] presses[j] by {
                assert(presses[j] == q[j - 1]);
            }
        }
        if no_press_in(presses, 1, i) {
            assert forall|j: int| 0 <= j < i - 1 implies !#[trigger] q[j] by {
                assert(q[j] == presses[j + 1]);
            }
        }
    }
    assert forall|i: int| 1 <= i < presses.len() implies #[trigger] acts[i] == rest[i - 1] && presses[i] == q[i - 1] by {}
}

} // verus!
