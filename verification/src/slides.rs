//! What each slide shows: its window, its texts, its sprites and its motion,
//! and the per-frame decisions of the slides that change while shown.

use vstd::prelude::*;

use crate::bridge::{
    label_field, nmos_ready, nmos_receiver_label, nmos_request_connect, nmos_sender_label, nmos_status, status_label,
    status_label_spec, BridgeMemory, READY_OFFSET, READY_VALUE, RECEIVER_OFFSET, SENDER_OFFSET,
    STATUS_OFFSET, COMMAND_OFFSET, CMD_CONNECT, BRIDGE_LEN,
};
use crate::style::{
    bigfont, bigfont_spec, blue_font, blue_font_spec, create_msg_window, font, font_spec,
    poke_sprite, poke_sprite_n, poke_sprite_n_spec, print_text, sprite_on_screen, text_in_window,
    window_on_screen, FontFace, FontSpec, MsgWindowSpec, Rect, SpriteSpec, Text, TextItem, MSG_WINDOW_BASE_TILE,
};
use crate::texts::{text_spec, TextId};

verus! {

/// A sprite sheet loaded from the game's graphics, drawn with one of its
/// animations.
#[derive(Clone, Copy, Debug, PartialEq, Eq, Structural)]
pub struct SheetSpriteSpec {
    pub tag: u16,
    pub size_flags: u8,
    pub palette_slot: u8,
    pub x: i16,
    pub y: i16,
    pub animation: u8,
}

/// How a slide moves while it waits for the presenter.
#[derive(Clone, Copy, Debug, PartialEq, Eq, Structural)]
pub enum SlideMotion {
    /// Nothing moves.
    Still,
    /// An envelope sprite flies from one Pokémon to the other (see
    /// `EnvelopeFlight`).
    EnvelopeFlight(SheetSpriteSpec),
    /// A sheet sprite cycles through the status icons (see
    /// `status_cycle_frames`).
    StatusCycle(SheetSpriteSpec),
}

/// Everything one slide shows.
#[derive(Clone, Debug)]
pub struct SlideLayout {
    pub window: MsgWindowSpec,
    pub texts: Vec<TextItem>,
    pub sprites: Vec<SpriteSpec>,
    pub motion: SlideMotion,
}

/// The item prints the text `id` in `font` at (`x`, `y`).
pub open spec fn shows_ascii(t: TextItem, font: crate::style::FontSpec, x: u8, y: u8, id: TextId) -> bool {
    &&& t.font == font
    &&& t.x == x
    &&& t.y == y
    &&& t.text == Text::Ascii(id)
}

/// The item prints the encoded bytes `bytes` in `font` at (`x`, `y`).
pub open spec fn shows_encoded(t: TextItem, font: crate::style::FontSpec, x: u8, y: u8, bytes: Seq<u8>) -> bool {
    &&& t.font == font
    &&& t.x == x
    &&& t.y == y
    &&& t.text matches Text::Encoded(v) && v@ == bytes
}

/// The window with inner rectangle `rect` at the start of the
/// message-window tile block.
pub open spec fn window_at(rect: (u8, u8, u8, u8)) -> MsgWindowSpec {
    MsgWindowSpec {
        rect: Rect { x: rect.0, y: rect.1, w: rect.2, h: rect.3 },
        base_tile: MSG_WINDOW_BASE_TILE,
    }
}

/// The common slide: a title in the title font at the window's corner, a
/// body in the body font below it, and one still Pokémon sprite.
pub open spec fn is_titled_slide(
    r: SlideLayout,
    rect: (u8, u8, u8, u8),
    title: TextId,
    body: TextId,
    sprite: SpriteSpec,
) -> bool {
    &&& r.window == window_at(rect)
    &&& r.texts@.len() == 2
    &&& shows_ascii(r.texts@[0], bigfont_spec(), 0, 0, title)
    &&& shows_ascii(r.texts@[1], font_spec(), 0, 14, body)
    &&& r.sprites@ == seq![sprite]
    &&& r.motion == SlideMotion::Still
}

/// The window and its border lie on the screen, every text starts inside
/// the window, and every Pokémon sprite's corner lies on the screen.
pub open spec fn layout_on_screen(r: SlideLayout) -> bool {
    &&& window_on_screen(r.window)
    &&& forall|i: int| 0 <= i < r.texts@.len() ==> #[trigger] text_in_window(r.texts@[i], r.window)
    &&& forall|i: int| 0 <= i < r.sprites@.len() ==> #[trigger] sprite_on_screen(r.sprites@[i])
}

/// The slides there are. Every one but `AnimImported` is in the deck, in
/// the order `crate::deck::deck_spec` gives.
#[derive(Clone, Copy, Debug, PartialEq, Eq, Structural)]
pub enum Slide {
    Intro,
    IpmxWhat,
    St2110,
    Nmos,
    NmosLive,
    Vsf,
    IpmxValue,
    Benefits,
    Example,
    Benefits2,
    WhyNow,
    WhyNow2,
    AnimGenerated,
    AnimImported,
    ThankYou,
}

/// What each slide other than the live NMOS slide shows.
pub open spec fn still_slide_shows(slide: Slide, r: SlideLayout) -> bool {
    match slide {
        Slide::Intro => is_titled_slide(r, (4, 7, 22, 8), TextId::WhatIsIpmxTitle, TextId::IntroBody, poke_sprite_n_spec(137, (200, 100), 1, 0)),
        Slide::IpmxWhat => is_titled_slide(r, (2, 2, 26, 16), TextId::WhatIsIpmxTitle, TextId::IpmxWhatBody, poke_sprite_n_spec(474, (200, 40), 1, 0)),
        Slide::St2110 => is_titled_slide(r, (2, 2, 26, 16), TextId::St2110Title, TextId::St2110Body, poke_sprite_n_spec(82, (200, 40), 1, 0)),
        Slide::Nmos => is_titled_slide(r, (2, 2, 26, 16), TextId::NmosTitle, TextId::NmosBody, poke_sprite_n_spec(600, (200, 40), 1, 0)),
        Slide::Vsf => is_titled_slide(r, (2, 2, 26, 16), TextId::VsfTitle, TextId::VsfBody, poke_sprite_n_spec(125, (200, 40), 1, 0)),
        Slide::IpmxValue => is_titled_slide(r, (2, 2, 26, 16), TextId::IpmxValueTitle, TextId::IpmxValueBody, poke_sprite_n_spec(94, (200, 32), 1, 0)),
        Slide::Benefits => is_titled_slide(r, (2, 2, 26, 16), TextId::BenefitsTitle, TextId::BenefitsBody, poke_sprite_n_spec(243, (200, 32), 1, 0)),
        Slide::Example => is_titled_slide(r, (2, 2, 26, 16), TextId::ExampleTitle, TextId::ExampleBody, poke_sprite_n_spec(202, (200, 32), 1, 0)),
        Slide::Benefits2 => is_titled_slide(r, (2, 2, 26, 16), TextId::Benefits2Title, TextId::Benefits2Body, poke_sprite_n_spec(52, (200, 124), 1, 0)),
        Slide::WhyNow => is_titled_slide(r, (2, 2, 26, 16), TextId::WhyNowTitle, TextId::WhyNowBody, poke_sprite_n_spec(31, (200, 32), 1, 0)),
        Slide::WhyNow2 => is_titled_slide(r, (2, 2, 26, 16), TextId::WhyNowTitle, TextId::WhyNow2Body, poke_sprite_n_spec(34, (200, 32), 1, 0)),
        Slide::ThankYou => {
            &&& r.window == window_at((8, 7, 14, 6))
            &&& r.texts@.len() == 1
            &&& shows_ascii(r.texts@[0], bigfont_spec(), 0, 0, TextId::ThankYouText)
            &&& r.sprites@ == seq![poke_sprite_n_spec(155, (200, 80), 2, 0)]
            &&& r.motion == SlideMotion::Still
        },
        Slide::AnimGenerated => {
            &&& r.window == window_at((2, 2, 26, 4))
            &&& r.texts@.len() == 2
            &&& shows_ascii(r.texts@[0], bigfont_spec(), 0, 0, TextId::AnimGeneratedTitle)
            &&& shows_ascii(r.texts@[1], font_spec(), 0, 14, TextId::AnimGeneratedBody)
            &&& r.sprites@ == seq![
                poke_sprite_n_spec(NIDORAN_M, (NIDORAN_M_X, PAIR_Y), 1, 0),
                poke_sprite_n_spec(NIDORAN_F, (NIDORAN_F_X, PAIR_Y), 1, 1),
            ]
            &&& r.motion == SlideMotion::EnvelopeFlight(envelope_sprite())
        },
        Slide::AnimImported => {
            &&& r.window == window_at((2, 2, 26, 4))
            &&& r.texts@.len() == 2
            &&& shows_ascii(r.texts@[0], bigfont_spec(), 0, 0, TextId::AnimImportedTitle)
            &&& shows_ascii(r.texts@[1], font_spec(), 0, 14, TextId::AnimImportedBody)
            &&& r.sprites@.len() == 0
            &&& r.motion == SlideMotion::StatusCycle(status_cycle_sprite())
        },
        Slide::NmosLive => false,
    }
}

/// What the live NMOS slide shows for the bridge block `mem`: while the
/// host has not marked the labels valid it says it is waiting; once it has,
/// it shows the sender and receiver labels exactly as the block holds them
/// and the name of the connection status.
pub open spec fn nmos_live_shows(mem: Seq<u8>, r: SlideLayout) -> bool {
    &&& r.window == window_at((2, 2, 26, 16))
    &&& shows_ascii(r.texts@[0], bigfont_spec(), 0, 0, TextId::NmosLiveTitle)
    &&& shows_ascii(r.texts@[1], font_spec(), 0, 16, TextId::NmosLiveIntro)
    &&& (mem[READY_OFFSET as int] != READY_VALUE ==> {
            &&& r.texts@.len() == 3
            &&& shows_ascii(r.texts@[2], font_spec(), 0, 60, TextId::NmosLiveWaiting)
        })
    &&& (mem[READY_OFFSET as int] == READY_VALUE ==> {
            &&& r.texts@.len() == 8
            &&& shows_ascii(r.texts@[2], blue_font_spec(), 0, 34, TextId::SenderHeading)
            &&& shows_encoded(r.texts@[3], font_spec(), 0, 46, label_field(mem, SENDER_OFFSET as int))
            &&& shows_ascii(r.texts@[4], blue_font_spec(), 0, 68, TextId::ReceiverHeading)
            &&& shows_encoded(r.texts@[5], font_spec(), 0, 80, label_field(mem, RECEIVER_OFFSET as int))
            &&& shows_ascii(r.texts@[6], font_spec(), 0, 106, TextId::StatusHeading)
            &&& shows_ascii(r.texts@[7], font_spec(), 50, 106, status_label_spec(mem[STATUS_OFFSET as int]))
        })
    &&& r.sprites@ == seq![poke_sprite_n_spec(384, (200, 32), 1, 0)]
    &&& r.motion == SlideMotion::Still
}

/// What `slide` shows when the bridge block holds `mem`.
pub open spec fn slide_shows(slide: Slide, mem: Seq<u8>, r: SlideLayout) -> bool {
    if slide == Slide::NmosLive {
        nmos_live_shows(mem, r)
    } else {
        still_slide_shows(slide, r)
    }
}

/// A list holding the one sprite `s`.
fn one_sprite(s: SpriteSpec) -> (r: Vec<SpriteSpec>)
    ensures
        r@ == seq![s],
{
    let mut v: Vec<SpriteSpec> = Vec::new();
    v.push(s);
    v
}

/// A slide with a title, a body and one still sprite.
fn titled_slide(rect: (u8, u8, u8, u8), title: TextId, body: TextId, sprite: SpriteSpec) -> (r: SlideLayout)
    ensures
        is_titled_slide(r, rect, title, body, sprite),
{
    let window = create_msg_window(rect, 0);
    let mut texts: Vec<TextItem> = Vec::new();
    texts.push(print_text(bigfont(), (0, 0), Text::Ascii(title)));
    texts.push(print_text(font(), (0, 14), Text::Ascii(body)));
    SlideLayout { window, texts, sprites: one_sprite(sprite), motion: SlideMotion::Still }
}

/// The title slide.
pub fn slide_intro() -> (r: SlideLayout)
    ensures
        still_slide_shows(Slide::Intro, r),
        layout_on_screen(r),
{
    titled_slide((4, 7, 22, 8), TextId::WhatIsIpmxTitle, TextId::IntroBody, poke_sprite(137, (200, 100), 1))
}

/// What IPMX is.
pub fn slide_ipmx_what() -> (r: SlideLayout)
    ensures
        still_slide_shows(Slide::IpmxWhat, r),
        layout_on_screen(r),
{
    titled_slide((2, 2, 26, 16), TextId::WhatIsIpmxTitle, TextId::IpmxWhatBody, poke_sprite(474, (200, 40), 1))
}

/// SMPTE ST 2110.
pub fn slide_st2110() -> (r: SlideLayout)
    ensures
        still_slide_shows(Slide::St2110, r),
        layout_on_screen(r),
{
    titled_slide((2, 2, 26, 16), TextId::St2110Title, TextId::St2110Body, poke_sprite(82, (200, 40), 1))
}

/// AMWA NMOS.
pub fn slide_nmos() -> (r: SlideLayout)
    ensures
        still_slide_shows(Slide::Nmos, r),
        layout_on_screen(r),
{
    titled_slide((2, 2, 26, 16), TextId::NmosTitle, TextId::NmosBody, poke_sprite(600, (200, 40), 1))
}

/// The Video Services Forum.
pub fn slide_vsf() -> (r: SlideLayout)
    ensures
        still_slide_shows(Slide::Vsf, r),
        layout_on_screen(r),
{
    titled_slide((2, 2, 26, 16), TextId::VsfTitle, TextId::VsfBody, poke_sprite(125, (200, 40), 1))
}

/// What IPMX packages together.
pub fn slide_ipmx_value() -> (r: SlideLayout)
    ensures
        still_slide_shows(Slide::IpmxValue, r),
        layout_on_screen(r),
{
    titled_slide((2, 2, 26, 16), TextId::IpmxValueTitle, TextId::IpmxValueBody, poke_sprite(94, (200, 32), 1))
}

/// What IPMX enables.
pub fn slide_benefits() -> (r: SlideLayout)
    ensures
        still_slide_shows(Slide::Benefits, r),
        layout_on_screen(r),
{
    titled_slide((2, 2, 26, 16), TextId::BenefitsTitle, TextId::BenefitsBody, poke_sprite(243, (200, 32), 1))
}

/// A real-world example.
pub fn slide_example() -> (r: SlideLayout)
    ensures
        still_slide_shows(Slide::Example, r),
        layout_on_screen(r),
{
    titled_slide((2, 2, 26, 16), TextId::ExampleTitle, TextId::ExampleBody, poke_sprite(202, (200, 32), 1))
}

/// The benefits, continued.
pub fn slide_benefits_2() -> (r: SlideLayout)
    ensures
        still_slide_shows(Slide::Benefits2, r),
        layout_on_screen(r),
{
    titled_slide((2, 2, 26, 16), TextId::Benefits2Title, TextId::Benefits2Body, poke_sprite(52, (200, 124), 1))
}

/// Why IPMX matters now.
pub fn slide_why_now() -> (r: SlideLayout)
    ensures
        still_slide_shows(Slide::WhyNow, r),
        layout_on_screen(r),
{
    titled_slide((2, 2, 26, 16), TextId::WhyNowTitle, TextId::WhyNowBody, poke_sprite(31, (200, 32), 1))
}

/// Why IPMX matters now, continued.
pub fn slide_why_now_2() -> (r: SlideLayout)
    ensures
        still_slide_shows(Slide::WhyNow2, r),
        layout_on_screen(r),
{
    titled_slide((2, 2, 26, 16), TextId::WhyNowTitle, TextId::WhyNow2Body, poke_sprite(34, (200, 32), 1))
}

/// The closing slide: one text in the title font and a sprite drawn at
/// priority 2.
pub fn slide_thank_you() -> (r: SlideLayout)
    ensures
        still_slide_shows(Slide::ThankYou, r),
        layout_on_screen(r),
{
    let window = create_msg_window((8, 7, 14, 6), 0);
    let mut texts: Vec<TextItem> = Vec::new();
    texts.push(print_text(bigfont(), (0, 0), Text::Ascii(TextId::ThankYouText)));
    SlideLayout { window, texts, sprites: one_sprite(poke_sprite(155, (200, 80), 2)), motion: SlideMotion::Still }
}

/// The live NMOS slide for the bridge block `mem`: while the host has not
/// marked the labels valid it says it is waiting; once it has, it shows the
/// sender and receiver labels exactly as the block holds them and the name
/// of the connection status.
pub fn slide_nmos_live(mem: &BridgeMemory) -> (r: SlideLayout)
    ensures
        nmos_live_shows(mem@, r),
        layout_on_screen(r),
{
    let window = create_msg_window((2, 2, 26, 16), 0);
    let mut texts: Vec<TextItem> = Vec::new();
    texts.push(print_text(bigfont(), (0, 0), Text::Ascii(TextId::NmosLiveTitle)));
    texts.push(print_text(font(), (0, 16), Text::Ascii(TextId::NmosLiveIntro)));
    if !nmos_ready(mem) {
        texts.push(print_text(font(), (0, 60), Text::Ascii(TextId::NmosLiveWaiting)));
    } else {
        texts.push(print_text(blue_font(), (0, 34), Text::Ascii(TextId::SenderHeading)));
        texts.push(print_text(font(), (0, 46), Text::Encoded(nmos_sender_label(mem))));
        texts.push(print_text(blue_font(), (0, 68), Text::Ascii(TextId::ReceiverHeading)));
        texts.push(print_text(font(), (0, 80), Text::Encoded(nmos_receiver_label(mem))));
        let status = status_label(nmos_status(mem));
        texts.push(print_text(font(), (0, 106), Text::Ascii(TextId::StatusHeading)));
        texts.push(print_text(font(), (50, 106), Text::Ascii(status)));
    }
    SlideLayout { window, texts, sprites: one_sprite(poke_sprite(384, (200, 32), 1)), motion: SlideMotion::Still }
}

/// Two bridge blocks give the live NMOS slide the same content: both or
/// neither mark the labels valid, and when they do, the labels and the
/// status agree.
pub open spec fn same_live_content(a: Seq<u8>, b: Seq<u8>) -> bool {
    &&& (a[READY_OFFSET as int] == READY_VALUE) == (b[READY_OFFSET as int] == READY_VALUE)
    &&& a[READY_OFFSET as int] == READY_VALUE ==> {
        &&& label_field(a, SENDER_OFFSET as int) == label_field(b, SENDER_OFFSET as int)
        &&& label_field(a, RECEIVER_OFFSET as int) == label_field(b, RECEIVER_OFFSET as int)
        &&& a[STATUS_OFFSET as int] == b[STATUS_OFFSET as int]
    }
}

/// Whether two bridge blocks give the live NMOS slide the same content.
fn live_content_equal(a: &BridgeMemory, b: &BridgeMemory) -> (r: bool)
    ensures
        r == same_live_content(a@, b@),
{
    let ready_a = nmos_ready(a);
    if ready_a != nmos_ready(b) {
        return false;
    }
    if !ready_a {
        return true;
    }
    if nmos_status(a) != nmos_status(b) {
        return false;
    }
    let mut i: usize = SENDER_OFFSET;
    while i < COMMAND_OFFSET
        invariant
            SENDER_OFFSET <= i <= COMMAND_OFFSET,
            a@.len() == BRIDGE_LEN,
            b@.len() == BRIDGE_LEN,
            forall|j: int| SENDER_OFFSET <= j < i ==> a@[j] == b@[j],
            a@[READY_OFFSET as int] == READY_VALUE,
            b@[READY_OFFSET as int] == READY_VALUE,
            a@[STATUS_OFFSET as int] == b@[STATUS_OFFSET as int],
        decreases COMMAND_OFFSET - i,
    {
        if a.bytes[i] != b.bytes[i] {
            assert(a@[i as int] != b@[i as int]);
            if i < RECEIVER_OFFSET {
                assert(label_field(a@, SENDER_OFFSET as int)[i - SENDER_OFFSET] != label_field(b@, SENDER_OFFSET as int)[i - SENDER_OFFSET]);
            } else {
                assert(label_field(a@, RECEIVER_OFFSET as int)[i - RECEIVER_OFFSET] != label_field(b@, RECEIVER_OFFSET as int)[i - RECEIVER_OFFSET]);
            }
            return false;
        }
        i = i + 1;
    }
    assert(label_field(a@, SENDER_OFFSET as int) =~= label_field(b@, SENDER_OFFSET as int));
    assert(label_field(a@, RECEIVER_OFFSET as int) =~= label_field(b@, RECEIVER_OFFSET as int));
    true
}

/// The live NMOS slide while it is shown.
pub struct LiveSlide {
    shown: BridgeMemory,
}

impl LiveSlide {
    /// The bridge block the slide's texts were last drawn from.
    pub closed spec fn shown(&self) -> Seq<u8> {
        self.shown@
    }

    /// Starts the live slide on the block `mem`: the slide's layout, and a
    /// tracker that remembers the block it was drawn from.
    pub fn start(mem: &BridgeMemory) -> (r: (LiveSlide, SlideLayout))
        ensures
            r.0.shown() == mem@,
            nmos_live_shows(mem@, r.1),
            layout_on_screen(r.1),
    {
        (LiveSlide { shown: BridgeMemory { bytes: mem.bytes } }, slide_nmos_live(mem))
    }

    /// One frame of the live slide with the block `mem` as it now stands:
    /// `None` when the slide already shows what `mem` gives, otherwise the
    /// layout to redraw, drawn from `mem`. Either way the slide afterwards
    /// shows what `mem` gives.
    pub fn step(&mut self, mem: &BridgeMemory) -> (r: Option<SlideLayout>)
        ensures
            same_live_content(old(self).shown(), mem@) ==> r is None && final(self).shown() == old(self).shown(),
            !same_live_content(old(self).shown(), mem@) ==> {
                &&& r matches Some(l) && nmos_live_shows(mem@, l) && layout_on_screen(l)
                &&& final(self).shown() == mem@
            },
            same_live_content(final(self).shown(), mem@),
    {
        if live_content_equal(&self.shown, mem) {
            None
        } else {
            self.shown = BridgeMemory { bytes: mem.bytes };
            Some(slide_nmos_live(mem))
        }
    }
}

/// Blocks with the same live content give the live slide the same layout,
/// so a frame that finds the content unchanged need not redraw.
pub proof fn law_same_content_same_slide(a: Seq<u8>, b: Seq<u8>, r: SlideLayout)
    requires
        a.len() == BRIDGE_LEN,
        b.len() == BRIDGE_LEN,
        same_live_content(a, b),
    ensures
        nmos_live_shows(a, r) == nmos_live_shows(b, r),
{
}

/// Once the host marks the labels valid, the live slide leaves the waiting
/// text: a slide drawn from a block without valid labels differs from one
/// with them, and the redrawn slide shows the labels, not the waiting text.
pub proof fn law_waiting_clears(shown: Seq<u8>, mem: Seq<u8>, l: SlideLayout)
    requires
        shown.len() == BRIDGE_LEN,
        mem.len() == BRIDGE_LEN,
        shown[READY_OFFSET as int] != READY_VALUE,
        mem[READY_OFFSET as int] == READY_VALUE,
        nmos_live_shows(mem, l),
    ensures
        !same_live_content(shown, mem),
        l.texts@.len() == 8,
        shows_encoded(l.texts@[3], font_spec(), 0, 46, label_field(mem, SENDER_OFFSET as int)),
        shows_encoded(l.texts@[5], font_spec(), 0, 80, label_field(mem, RECEIVER_OFFSET as int)),
{
}

/// Species of the Pokémon that sends the envelope (Nidoran, male).
pub const NIDORAN_M: u16 = 32;
/// Species of the Pokémon that receives the envelope (Nidoran, female).
pub const NIDORAN_F: u16 = 29;
/// Column of the sender Nidoran.
pub const NIDORAN_M_X: i16 = 40;
/// Column of the receiver Nidoran.
pub const NIDORAN_F_X: i16 = 200;
/// Row of both Nidorans and of the envelope.
pub const PAIR_Y: i16 = 80;
/// Pixels the envelope moves each frame.
pub const FLIGHT_STEP: i16 = 2;
/// Frames the envelope takes from one Nidoran to the other.
pub const FLIGHT_FRAMES: u32 = 80;

/// Column of the envelope after `k` frames of flight.
pub open spec fn envelope_x(k: int) -> int {
    NIDORAN_M_X + FLIGHT_STEP * k
}

/// The envelope: a sheet sprite that starts on the sender Nidoran.
pub open spec fn envelope_sprite() -> SheetSpriteSpec {
    SheetSpriteSpec { tag: 0x1236, size_flags: 0b0100, palette_slot: 1, x: NIDORAN_M_X, y: PAIR_Y, animation: 0 }
}

/// What the animation slide does in one frame.
#[derive(Clone, Copy, Debug, PartialEq, Eq, Structural)]
pub enum FlightStep {
    /// Move the envelope to this column and row, then sleep one frame.
    Move(i16, i16),
    /// The envelope has landed: the connect command has been written into
    /// the bridge block, and the game writes it to shared memory.
    Landed,
    /// The animation is over.
    Done,
}

/// The envelope's flight on the animation slide.
pub struct EnvelopeFlight {
    frame: u32,
    landed: bool,
}

impl EnvelopeFlight {
    /// The flight never goes past its last frame, and lands only there.
    #[verifier::type_invariant]
    spec fn inv(self) -> bool {
        &&& self.frame <= FLIGHT_FRAMES
        &&& self.landed ==> self.frame == FLIGHT_FRAMES
    }

    /// Frames flown so far.
    pub closed spec fn frames_flown(&self) -> nat {
        self.frame as nat
    }

    /// Whether the landing, and its connect command, has happened.
    pub closed spec fn has_landed(&self) -> bool {
        self.landed
    }
}

/// Index of the next step of a flight at `frame`, `landed`, counted from
/// the start.
pub open spec fn flight_index(frame: nat, landed: bool) -> nat {
    if landed { frame + 1 } else { frame }
}

/// The step a flight gives at ask `i`, counted from the start: a move to
/// each column of the path in turn, then the landing, then nothing more.
pub open spec fn flight_step_at(i: int) -> FlightStep {
    if i < FLIGHT_FRAMES {
        FlightStep::Move(envelope_x(i + 1) as i16, PAIR_Y)
    } else if i == FLIGHT_FRAMES {
        FlightStep::Landed
    } else {
        FlightStep::Done
    }
}

/// One decision of the flight: the frame count and landing flag after it,
/// and the step.
pub open spec fn flight_next(frame: nat, landed: bool) -> (nat, bool, FlightStep) {
    if frame < FLIGHT_FRAMES {
        ((frame + 1) as nat, landed, FlightStep::Move(envelope_x(frame + 1int) as i16, PAIR_Y))
    } else if !landed {
        (frame, true, FlightStep::Landed)
    } else {
        (frame, landed, FlightStep::Done)
    }
}

/// The steps of a flight over `k` asks from `frame`, `landed`.
pub open spec fn flight_run(frame: nat, landed: bool, k: nat) -> Seq<FlightStep>
    decreases k,
{
    if k == 0 {
        Seq::empty()
    } else {
        let (f, l, step) = flight_next(frame, landed);
        seq![step] + flight_run(f, l, (k - 1) as nat)
    }
}

impl EnvelopeFlight {
    /// A flight that has not started: the envelope sits on the sender.
    pub fn new() -> (r: EnvelopeFlight)
        ensures
            r.frames_flown() == 0,
            !r.has_landed(),
    {
        EnvelopeFlight { frame: 0, landed: false }
    }

    /// One frame of the flight. When the envelope lands, the connect
    /// command is written into `mem`; no other step touches `mem`.
    pub fn step(&mut self, mem: &mut BridgeMemory) -> (r: FlightStep)
        ensures
            (final(self).frames_flown(), final(self).has_landed(), r)
                == flight_next(old(self).frames_flown(), old(self).has_landed()),
            final(mem)@ == (if r == FlightStep::Landed {
                old(mem)@.update(COMMAND_OFFSET as int, CMD_CONNECT)
            } else {
                old(mem)@
            }),
    {
        proof {
            use_type_invariant(&*self);
        }
        if self.frame < FLIGHT_FRAMES {
            self.frame = self.frame + 1;
            FlightStep::Move(NIDORAN_M_X + FLIGHT_STEP * (self.frame as i16), PAIR_Y)
        } else if !self.landed {
            self.landed = true;
            nmos_request_connect(mem);
            FlightStep::Landed
        } else {
            FlightStep::Done
        }
    }
}

proof fn lemma_flight_run_from(frame: nat, landed: bool, k: nat)
    requires
        frame <= FLIGHT_FRAMES,
        landed ==> frame == FLIGHT_FRAMES,
    ensures
        flight_run(frame, landed, k).len() == k,
        forall|i: int| 0 <= i < k ==> #[trigger] flight_run(frame, landed, k)[i] == flight_step_at(flight_index(frame, landed) + i),
    decreases k,
{
    if k > 0 {
        let (f, l, step) = flight_next(frame, landed);
        lemma_flight_run_from(f, l, (k - 1) as nat);
        let rest = flight_run(f, l, (k - 1) as nat);
        assert(flight_index(f, l) == flight_index(frame, landed) + 1 || (landed && f == frame && l == landed));
        assert forall|i: int| 0 <= i < k implies #[trigger] flight_run(frame, landed, k)[i] == flight_step_at(flight_index(frame, landed) + i) by {
            if i > 0 {
                assert(flight_run(frame, landed, k)[i] == rest[i - 1]);
            }
        }
    }
}

/// From its start the flight moves the envelope along the path, one
/// column per frame, until it stands on the receiver Nidoran; the next
/// step is the landing, which is the one step that writes the connect
/// command; after that nothing more happens.
pub proof fn law_flight_order(k: nat)
    ensures
        flight_run(0, false, k).len() == k,
        forall|i: int| 0 <= i < k ==> #[trigger] flight_run(0, false, k)[i] == flight_step_at(i),
        envelope_x(0) == NIDORAN_M_X,
        envelope_x(FLIGHT_FRAMES as int) == NIDORAN_F_X,
        flight_step_at(FLIGHT_FRAMES - 1) == FlightStep::Move(NIDORAN_F_X, PAIR_Y),
        flight_step_at(FLIGHT_FRAMES as int) == FlightStep::Landed,
{
    lemma_flight_run_from(0, false, k);
}

/// The flight in numbers: it starts on the sender Nidoran (species 32) at
/// (40, 80) and moves 2 pixels right per frame, so its first move is to
/// (42, 80) and its 80th and last to the receiver Nidoran (species 29) at
/// (200, 80); the 81st step is the landing, which writes 1 to byte 0x41 of
/// the bridge block, and every step after it does nothing.
pub proof fn law_flight_numbers(k: int)
    ensures
        NIDORAN_M == 32 && NIDORAN_F == 29,
        flight_step_at(0) == FlightStep::Move(42, 80),
        0 <= k < 80 ==> flight_step_at(k) == FlightStep::Move((42 + 2 * k) as i16, 80),
        flight_step_at(79) == FlightStep::Move(200, 80),
        flight_step_at(80) == FlightStep::Landed,
        k > 80 ==> flight_step_at(k) == FlightStep::Done,
        COMMAND_OFFSET == 0x41 && CMD_CONNECT == 1,
{
}

/// The animation slide: the sender Nidoran on the left, the receiver
/// Nidoran on the right, and an envelope that flies from one to the other.
pub fn slide_anim_generated() -> (r: SlideLayout)
    ensures
        still_slide_shows(Slide::AnimGenerated, r),
        layout_on_screen(r),
{
    let window = create_msg_window((2, 2, 26, 4), 0);
    let mut texts: Vec<TextItem> = Vec::new();
    texts.push(print_text(bigfont(), (0, 0), Text::Ascii(TextId::AnimGeneratedTitle)));
    texts.push(print_text(font(), (0, 14), Text::Ascii(TextId::AnimGeneratedBody)));
    let mut sprites: Vec<SpriteSpec> = Vec::new();
    sprites.push(poke_sprite_n(NIDORAN_M, (NIDORAN_M_X, PAIR_Y), 1, 0));
    sprites.push(poke_sprite_n(NIDORAN_F, (NIDORAN_F_X, PAIR_Y), 1, 1));
    assert(sprites@ =~= seq![
        poke_sprite_n_spec(NIDORAN_M, (NIDORAN_M_X, PAIR_Y), 1, 0),
        poke_sprite_n_spec(NIDORAN_F, (NIDORAN_F_X, PAIR_Y), 1, 1),
    ]);
    let envelope = SheetSpriteSpec { tag: 0x1236, size_flags: 0b0100, palette_slot: 1, x: NIDORAN_M_X, y: PAIR_Y, animation: 0 };
    SlideLayout { window, texts, sprites, motion: SlideMotion::EnvelopeFlight(envelope) }
}

/// One frame of a sprite animation: first tile of the frame, how many
/// frames it is shown, and whether it is flipped.
#[derive(Clone, Copy, Debug, PartialEq, Eq, Structural)]
pub struct AnimFrame {
    pub tile: u16,
    pub duration: u8,
    pub hflip: bool,
    pub vflip: bool,
}

/// Number of frames in the status-icon cycle.
pub const STATUS_CYCLE_LEN: usize = 6;

/// The status-icon cycle: the six icons, four tiles apart, 40 frames each,
/// unflipped.
pub fn status_cycle_frames() -> (r: Vec<AnimFrame>)
    ensures
        r@.len() == STATUS_CYCLE_LEN,
        r@.len() == 6,
        forall|k: int| 0 <= k < STATUS_CYCLE_LEN ==> #[trigger] r@[k] == (AnimFrame { tile: (4 * k) as u16, duration: 40, hflip: false, vflip: false }),
{
    let mut out: Vec<AnimFrame> = Vec::new();
    let mut i: usize = 0;
    while i < STATUS_CYCLE_LEN
        invariant
            i <= STATUS_CYCLE_LEN,
            out@.len() == i,
            forall|k: int| 0 <= k < i ==> #[trigger] out@[k] == (AnimFrame { tile: (4 * k) as u16, duration: 40, hflip: false, vflip: false }),
        decreases STATUS_CYCLE_LEN - i,
    {
        out.push(AnimFrame { tile: (4 * i) as u16, duration: 40, hflip: false, vflip: false });
        i = i + 1;
    }
    out
}

/// The sheet sprite of the imported animation.
pub open spec fn status_cycle_sprite() -> SheetSpriteSpec {
    SheetSpriteSpec { tag: 0x1235, size_flags: 0b0100, palette_slot: 0, x: 120, y: 80, animation: 0 }
}

/// The imported animation: the engine's status icons cycling in place; no
/// Pokémon sprite.
pub fn slide_anim_imported() -> (r: SlideLayout)
    ensures
        still_slide_shows(Slide::AnimImported, r),
        layout_on_screen(r),
{
    let window = create_msg_window((2, 2, 26, 4), 0);
    let mut texts: Vec<TextItem> = Vec::new();
    texts.push(print_text(bigfont(), (0, 0), Text::Ascii(TextId::AnimImportedTitle)));
    texts.push(print_text(font(), (0, 14), Text::Ascii(TextId::AnimImportedBody)));
    let sheet = SheetSpriteSpec { tag: 0x1235, size_flags: 0b0100, palette_slot: 0, x: 120, y: 80, animation: 0 };
    SlideLayout { window, texts, sprites: Vec::new(), motion: SlideMotion::StatusCycle(sheet) }
}


/// A connect request does not change what the live NMOS slide shows: the
/// slide reads the ready flag, the labels and the status, and the request
/// writes the command byte alone.
pub proof fn law_connect_keeps_live_slide(before: Seq<u8>, r: SlideLayout)
    requires
        before.len() == crate::bridge::BRIDGE_LEN,
    ensures
        nmos_live_shows(before, r) == nmos_live_shows(
            before.update(crate::bridge::COMMAND_OFFSET as int, crate::bridge::CMD_CONNECT),
            r,
        ),
{
    let after = before.update(crate::bridge::COMMAND_OFFSET as int, crate::bridge::CMD_CONNECT);
    crate::bridge::law_connect_request_frame(before, after);
}


/// What each slide puts on screen, slide by slide: its window, its title
/// and body (by name; `crate::texts::law_text_words` gives their words)
/// and its Pokémon sprites, as the slides of the talk have them.
pub proof fn law_slide_contents(slide: Slide, mem: Seq<u8>, r: SlideLayout)
    requires
        slide_shows(slide, mem, r),
    ensures
        slide == Slide::Intro ==> {
            &&& r.window.rect == (Rect { x: 4, y: 7, w: 22, h: 8 })
            &&& r.texts@.len() == 2
            &&& r.window.base_tile == 0x80
            &&& r.texts@[0].font == FontSpec { face: FontFace::Normal, fg_color: Some(4u8), shadow_color: Some(5u8) } && r.texts@[0].x == 0 && r.texts@[0].y == 0
            &&& r.texts@[1].font == FontSpec { face: FontFace::Small, fg_color: None, shadow_color: None } && r.texts@[1].x == 0 && r.texts@[1].y == 14
            &&& r.texts@[0].text == Text::Ascii(TextId::WhatIsIpmxTitle)
            &&& r.texts@[1].text == Text::Ascii(TextId::IntroBody)
            &&& r.sprites@ == seq![SpriteSpec { species: 137, x: 200, y: 100, priority: 1, index: 0 }]
        },
        slide == Slide::IpmxWhat ==> {
            &&& r.window.rect == (Rect { x: 2, y: 2, w: 26, h: 16 })
            &&& r.texts@.len() == 2
            &&& r.window.base_tile == 0x80
            &&& r.texts@[0].font == FontSpec { face: FontFace::Normal, fg_color: Some(4u8), shadow_color: Some(5u8) } && r.texts@[0].x == 0 && r.texts@[0].y == 0
            &&& r.texts@[1].font == FontSpec { face: FontFace::Small, fg_color: None, shadow_color: None } && r.texts@[1].x == 0 && r.texts@[1].y == 14
            &&& r.texts@[0].text == Text::Ascii(TextId::WhatIsIpmxTitle)
            &&& r.texts@[1].text == Text::Ascii(TextId::IpmxWhatBody)
            &&& r.sprites@ == seq![SpriteSpec { species: 474, x: 200, y: 40, priority: 1, index: 0 }]
        },
        slide == Slide::St2110 ==> {
            &&& r.window.rect == (Rect { x: 2, y: 2, w: 26, h: 16 })
            &&& r.texts@.len() == 2
            &&& r.window.base_tile == 0x80
            &&& r.texts@[0].font == FontSpec { face: FontFace::Normal, fg_color: Some(4u8), shadow_color: Some(5u8) } && r.texts@[0].x == 0 && r.texts@[0].y == 0
            &&& r.texts@[1].font == FontSpec { face: FontFace::Small, fg_color: None, shadow_color: None } && r.texts@[1].x == 0 && r.texts@[1].y == 14
            &&& r.texts@[0].text == Text::Ascii(TextId::St2110Title)
            &&& r.texts@[1].text == Text::Ascii(TextId::St2110Body)
            &&& r.sprites@ == seq![SpriteSpec { species: 82, x: 200, y: 40, priority: 1, index: 0 }]
        },
        slide == Slide::Nmos ==> {
            &&& r.window.rect == (Rect { x: 2, y: 2, w: 26, h: 16 })
            &&& r.texts@.len() == 2
            &&& r.window.base_tile == 0x80
            &&& r.texts@[0].font == FontSpec { face: FontFace::Normal, fg_color: Some(4u8), shadow_color: Some(5u8) } && r.texts@[0].x == 0 && r.texts@[0].y == 0
            &&& r.texts@[1].font == FontSpec { face: FontFace::Small, fg_color: None, shadow_color: None } && r.texts@[1].x == 0 && r.texts@[1].y == 14
            &&& r.texts@[0].text == Text::Ascii(TextId::NmosTitle)
            &&& r.texts@[1].text == Text::Ascii(TextId::NmosBody)
            &&& r.sprites@ == seq![SpriteSpec { species: 600, x: 200, y: 40, priority: 1, index: 0 }]
        },
        slide == Slide::Vsf ==> {
            &&& r.window.rect == (Rect { x: 2, y: 2, w: 26, h: 16 })
            &&& r.texts@.len() == 2
            &&& r.window.base_tile == 0x80
            &&& r.texts@[0].font == FontSpec { face: FontFace::Normal, fg_color: Some(4u8), shadow_color: Some(5u8) } && r.texts@[0].x == 0 && r.texts@[0].y == 0
            &&& r.texts@[1].font == FontSpec { face: FontFace::Small, fg_color: None, shadow_color: None } && r.texts@[1].x == 0 && r.texts@[1].y == 14
            &&& r.texts@[0].text == Text::Ascii(TextId::VsfTitle)
            &&& r.texts@[1].text == Text::Ascii(TextId::VsfBody)
            &&& r.sprites@ == seq![SpriteSpec { species: 125, x: 200, y: 40, priority: 1, index: 0 }]
        },
        slide == Slide::IpmxValue ==> {
            &&& r.window.rect == (Rect { x: 2, y: 2, w: 26, h: 16 })
            &&& r.texts@.len() == 2
            &&& r.window.base_tile == 0x80
            &&& r.texts@[0].font == FontSpec { face: FontFace::Normal, fg_color: Some(4u8), shadow_color: Some(5u8) } && r.texts@[0].x == 0 && r.texts@[0].y == 0
            &&& r.texts@[1].font == FontSpec { face: FontFace::Small, fg_color: None, shadow_color: None } && r.texts@[1].x == 0 && r.texts@[1].y == 14
            &&& r.texts@[0].text == Text::Ascii(TextId::IpmxValueTitle)
            &&& r.texts@[1].text == Text::Ascii(TextId::IpmxValueBody)
            &&& r.sprites@ == seq![SpriteSpec { species: 94, x: 200, y: 32, priority: 1, index: 0 }]
        },
        slide == Slide::Benefits ==> {
            &&& r.window.rect == (Rect { x: 2, y: 2, w: 26, h: 16 })
            &&& r.texts@.len() == 2
            &&& r.window.base_tile == 0x80
            &&& r.texts@[0].font == FontSpec { face: FontFace::Normal, fg_color: Some(4u8), shadow_color: Some(5u8) } && r.texts@[0].x == 0 && r.texts@[0].y == 0
            &&& r.texts@[1].font == FontSpec { face: FontFace::Small, fg_color: None, shadow_color: None } && r.texts@[1].x == 0 && r.texts@[1].y == 14
            &&& r.texts@[0].text == Text::Ascii(TextId::BenefitsTitle)
            &&& r.texts@[1].text == Text::Ascii(TextId::BenefitsBody)
            &&& r.sprites@ == seq![SpriteSpec { species: 243, x: 200, y: 32, priority: 1, index: 0 }]
        },
        slide == Slide::Example ==> {
            &&& r.window.rect == (Rect { x: 2, y: 2, w: 26, h: 16 })
            &&& r.texts@.len() == 2
            &&& r.window.base_tile == 0x80
            &&& r.texts@[0].font == FontSpec { face: FontFace::Normal, fg_color: Some(4u8), shadow_color: Some(5u8) } && r.texts@[0].x == 0 && r.texts@[0].y == 0
            &&& r.texts@[1].font == FontSpec { face: FontFace::Small, fg_color: None, shadow_color: None } && r.texts@[1].x == 0 && r.texts@[1].y == 14
            &&& r.texts@[0].text == Text::Ascii(TextId::ExampleTitle)
            &&& r.texts@[1].text == Text::Ascii(TextId::ExampleBody)
            &&& r.sprites@ == seq![SpriteSpec { species: 202, x: 200, y: 32, priority: 1, index: 0 }]
        },
        slide == Slide::Benefits2 ==> {
            &&& r.window.rect == (Rect { x: 2, y: 2, w: 26, h: 16 })
            &&& r.texts@.len() == 2
            &&& r.window.base_tile == 0x80
            &&& r.texts@[0].font == FontSpec { face: FontFace::Normal, fg_color: Some(4u8), shadow_color: Some(5u8) } && r.texts@[0].x == 0 && r.texts@[0].y == 0
            &&& r.texts@[1].font == FontSpec { face: FontFace::Small, fg_color: None, shadow_color: None } && r.texts@[1].x == 0 && r.texts@[1].y == 14
            &&& r.texts@[0].text == Text::Ascii(TextId::Benefits2Title)
            &&& r.texts@[1].text == Text::Ascii(TextId::Benefits2Body)
            &&& r.sprites@ == seq![SpriteSpec { species: 52, x: 200, y: 124, priority: 1, index: 0 }]
        },
        slide == Slide::WhyNow ==> {
            &&& r.window.rect == (Rect { x: 2, y: 2, w: 26, h: 16 })
            &&& r.texts@.len() == 2
            &&& r.window.base_tile == 0x80
            &&& r.texts@[0].font == FontSpec { face: FontFace::Normal, fg_color: Some(4u8), shadow_color: Some(5u8) } && r.texts@[0].x == 0 && r.texts@[0].y == 0
            &&& r.texts@[1].font == FontSpec { face: FontFace::Small, fg_color: None, shadow_color: None } && r.texts@[1].x == 0 && r.texts@[1].y == 14
            &&& r.texts@[0].text == Text::Ascii(TextId::WhyNowTitle)
            &&& r.texts@[1].text == Text::Ascii(TextId::WhyNowBody)
            &&& r.sprites@ == seq![SpriteSpec { species: 31, x: 200, y: 32, priority: 1, index: 0 }]
        },
        slide == Slide::WhyNow2 ==> {
            &&& r.window.rect == (Rect { x: 2, y: 2, w: 26, h: 16 })
            &&& r.texts@.len() == 2
            &&& r.window.base_tile == 0x80
            &&& r.texts@[0].font == FontSpec { face: FontFace::Normal, fg_color: Some(4u8), shadow_color: Some(5u8) } && r.texts@[0].x == 0 && r.texts@[0].y == 0
            &&& r.texts@[1].font == FontSpec { face: FontFace::Small, fg_color: None, shadow_color: None } && r.texts@[1].x == 0 && r.texts@[1].y == 14
            &&& r.texts@[0].text == Text::Ascii(TextId::WhyNowTitle)
            &&& r.texts@[1].text == Text::Ascii(TextId::WhyNow2Body)
            &&& r.sprites@ == seq![SpriteSpec { species: 34, x: 200, y: 32, priority: 1, index: 0 }]
        },
        slide == Slide::ThankYou ==> {
            &&& r.window.rect == (Rect { x: 8, y: 7, w: 14, h: 6 })
            &&& r.texts@.len() == 1
            &&& r.window.base_tile == 0x80
            &&& r.texts@[0].font == FontSpec { face: FontFace::Normal, fg_color: Some(4u8), shadow_color: Some(5u8) } && r.texts@[0].x == 0 && r.texts@[0].y == 0
            &&& r.texts@[0].text == Text::Ascii(TextId::ThankYouText)
            &&& r.sprites@ == seq![SpriteSpec { species: 155, x: 200, y: 80, priority: 2, index: 0 }]
        },
        slide == Slide::AnimGenerated ==> {
            &&& r.window.rect == (Rect { x: 2, y: 2, w: 26, h: 4 })
            &&& r.texts@.len() == 2
            &&& r.window.base_tile == 0x80
            &&& r.texts@[0].font == FontSpec { face: FontFace::Normal, fg_color: Some(4u8), shadow_color: Some(5u8) } && r.texts@[0].x == 0 && r.texts@[0].y == 0
            &&& r.texts@[1].font == FontSpec { face: FontFace::Small, fg_color: None, shadow_color: None } && r.texts@[1].x == 0 && r.texts@[1].y == 14
            &&& r.texts@[0].text == Text::Ascii(TextId::AnimGeneratedTitle)
            &&& r.texts@[1].text == Text::Ascii(TextId::AnimGeneratedBody)
            &&& r.sprites@ == seq![
                SpriteSpec { species: 32, x: 40, y: 80, priority: 1, index: 0 },
                SpriteSpec { species: 29, x: 200, y: 80, priority: 1, index: 1 },
            ]
            &&& r.motion matches SlideMotion::EnvelopeFlight(e) && e.x == 40 && e.y == 80
        },
        slide == Slide::AnimImported ==> {
            &&& r.window.rect == (Rect { x: 2, y: 2, w: 26, h: 4 })
            &&& r.texts@.len() == 2
            &&& r.window.base_tile == 0x80
            &&& r.texts@[0].font == FontSpec { face: FontFace::Normal, fg_color: Some(4u8), shadow_color: Some(5u8) } && r.texts@[0].x == 0 && r.texts@[0].y == 0
            &&& r.texts@[1].font == FontSpec { face: FontFace::Small, fg_color: None, shadow_color: None } && r.texts@[1].x == 0 && r.texts@[1].y == 14
            &&& r.texts@[0].text == Text::Ascii(TextId::AnimImportedTitle)
            &&& r.texts@[1].text == Text::Ascii(TextId::AnimImportedBody)
            &&& r.sprites@.len() == 0
        },
        slide == Slide::NmosLive ==> {
            &&& r.window.rect == (Rect { x: 2, y: 2, w: 26, h: 16 })
            &&& r.texts@.len() == (if mem[0] == 1 { 8int } else { 3int })
            &&& r.texts@[0].text == Text::Ascii(TextId::NmosLiveTitle)
            &&& r.texts@[1].text == Text::Ascii(TextId::NmosLiveIntro)
            &&& r.texts@[0].font == FontSpec { face: FontFace::Normal, fg_color: Some(4u8), shadow_color: Some(5u8) } && r.texts@[0].x == 0 && r.texts@[0].y == 0
            &&& r.texts@[1].font == FontSpec { face: FontFace::Small, fg_color: None, shadow_color: None } && r.texts@[1].x == 0 && r.texts@[1].y == 16
            &&& r.sprites@ == seq![SpriteSpec { species: 384, x: 200, y: 32, priority: 1, index: 0 }]
        },
{
}

/// The texts of the slide `slide` with title and body (or, for the closing
/// slide, its one text).
spec fn slide_heading(slide: Slide) -> (TextId, Option<TextId>) {
    match slide {
        Slide::Intro => (TextId::WhatIsIpmxTitle, Some(TextId::IntroBody)),
        Slide::IpmxWhat => (TextId::WhatIsIpmxTitle, Some(TextId::IpmxWhatBody)),
        Slide::St2110 => (TextId::St2110Title, Some(TextId::St2110Body)),
        Slide::Nmos => (TextId::NmosTitle, Some(TextId::NmosBody)),
        Slide::Vsf => (TextId::VsfTitle, Some(TextId::VsfBody)),
        Slide::IpmxValue => (TextId::IpmxValueTitle, Some(TextId::IpmxValueBody)),
        Slide::Benefits => (TextId::BenefitsTitle, Some(TextId::BenefitsBody)),
        Slide::Example => (TextId::ExampleTitle, Some(TextId::ExampleBody)),
        Slide::Benefits2 => (TextId::Benefits2Title, Some(TextId::Benefits2Body)),
        Slide::WhyNow => (TextId::WhyNowTitle, Some(TextId::WhyNowBody)),
        Slide::WhyNow2 => (TextId::WhyNowTitle, Some(TextId::WhyNow2Body)),
        Slide::ThankYou => (TextId::ThankYouText, None),
        Slide::AnimGenerated => (TextId::AnimGeneratedTitle, Some(TextId::AnimGeneratedBody)),
        Slide::AnimImported => (TextId::AnimImportedTitle, Some(TextId::AnimImportedBody)),
        Slide::NmosLive => (TextId::NmosLiveTitle, Some(TextId::NmosLiveIntro)),
    }
}

/// Two different slides never show the same texts: whatever the bridge
/// block holds, the texts of one slide's layout differ from those of any
/// other slide's layout.
pub proof fn law_slides_distinct(s1: Slide, m1: Seq<u8>, r1: SlideLayout, s2: Slide, m2: Seq<u8>, r2: SlideLayout)
    requires
        slide_shows(s1, m1, r1),
        slide_shows(s2, m2, r2),
        s1 != s2,
    ensures
        r1.texts@ != r2.texts@,
{
    law_slide_contents(s1, m1, r1);
    law_slide_contents(s2, m2, r2);
    if r1.texts@ == r2.texts@ {
        assert(r1.texts@[0] == r2.texts@[0]);
        if r1.texts@.len() > 1 {
            assert(r1.texts@[1] == r2.texts@[1]);
        }
        assert(slide_heading(s1) == slide_heading(s2));
    }
}

/// The live slide's body, from the bridge block: without the ready flag
/// (byte 0 equal to 1) it shows the waiting text at (0, 60); with it, the
/// "Sender" heading at (0, 34) over the 32 bytes from offset 1, and the
/// "Receiver" heading at (0, 68) over the 32 bytes from offset 0x21, printed
/// as they stand in the block at (0, 46) and (0, 80), then "Status:" at
/// (0, 106).
pub proof fn law_live_labels(mem: Seq<u8>, r: SlideLayout)
    requires
        nmos_live_shows(mem, r),
        mem.len() == 0x43,
    ensures
        mem[0] != 1 ==> {
            &&& r.texts@.len() == 3
            &&& r.texts@[2].text == Text::Ascii(TextId::NmosLiveWaiting)
            &&& r.texts@[2].x == 0 && r.texts@[2].y == 60
        },
        mem[0] == 1 ==> {
            &&& r.texts@.len() == 8
            &&& r.texts@[2].text == Text::Ascii(TextId::SenderHeading) && r.texts@[2].x == 0 && r.texts@[2].y == 34
            &&& r.texts@[3].text matches Text::Encoded(v) && v@ == mem.subrange(1, 33)
            &&& r.texts@[3].x == 0 && r.texts@[3].y == 46
            &&& r.texts@[4].text == Text::Ascii(TextId::ReceiverHeading) && r.texts@[4].x == 0 && r.texts@[4].y == 68
            &&& r.texts@[5].text matches Text::Encoded(v) && v@ == mem.subrange(0x21, 0x41)
            &&& r.texts@[5].x == 0 && r.texts@[5].y == 80
            &&& r.texts@[6].text == Text::Ascii(TextId::StatusHeading) && r.texts@[6].x == 0 && r.texts@[6].y == 106
        },
{
}

/// The status line of the live slide, once the host has marked the labels
/// valid, names the status byte: 0 "Idle", 1 "Connecting...", 2 "Connected
/// !", 3 "Failed", and any other byte "Unknown".
pub proof fn law_live_status_words(mem: Seq<u8>, r: SlideLayout)
    requires
        nmos_live_shows(mem, r),
        mem[0] == 1,
    ensures
        r.texts@.len() == 8,
        r.texts@[7].x == 50 && r.texts@[7].y == 106,
        r.texts@[7].text matches Text::Ascii(id) && text_spec(id) == (if mem[0x42] == 0 {
            "Idle"@
        } else if mem[0x42] == 1 {
            "Connecting..."@
        } else if mem[0x42] == 2 {
            "Connected !"@
        } else if mem[0x42] == 3 {
            "Failed"@
        } else {
            "Unknown"@
        }),
{
}

/// What `slide` shows when the bridge block holds `mem`.
pub fn slide_layout(slide: Slide, mem: &BridgeMemory) -> (r: SlideLayout)
    ensures
        slide_shows(slide, mem@, r),
        layout_on_screen(r),
{
    match slide {
        Slide::Intro => slide_intro(),
        Slide::IpmxWhat => slide_ipmx_what(),
        Slide::St2110 => slide_st2110(),
        Slide::Nmos => slide_nmos(),
        Slide::NmosLive => slide_nmos_live(mem),
        Slide::Vsf => slide_vsf(),
        Slide::IpmxValue => slide_ipmx_value(),
        Slide::Benefits => slide_benefits(),
        Slide::Example => slide_example(),
        Slide::Benefits2 => slide_benefits_2(),
        Slide::WhyNow => slide_why_now(),
        Slide::WhyNow2 => slide_why_now_2(),
        Slide::AnimGenerated => slide_anim_generated(),
        Slide::AnimImported => slide_anim_imported(),
        Slide::ThankYou => slide_thank_you(),
    }
}

} // verus!
