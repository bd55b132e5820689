use lib::bridge::{BridgeMemory, LABEL_LEN, RECEIVER_OFFSET, SENDER_OFFSET, STATUS_OFFSET};
use lib::slides::{
    slide_anim_generated, EnvelopeFlight, FlightStep, LiveSlide, FLIGHT_FRAMES, slide_anim_imported, slide_benefits,
    slide_benefits_2, slide_example, slide_intro, slide_ipmx_value, slide_ipmx_what,
    slide_layout, slide_nmos, slide_nmos_live, slide_st2110, slide_thank_you, slide_vsf,
    slide_why_now, slide_why_now_2, status_cycle_frames, AnimFrame, SheetSpriteSpec, Slide,
    SlideLayout, SlideMotion,
};
use lib::bridge::{CMD_CONNECT, COMMAND_OFFSET};
use lib::style::{bigfont, blue_font, font, SpriteSpec, Text};
use lib::texts::{text_of, INTRO_BODY, NMOS_LIVE_WAITING, THANK_YOU_TEXT, WHAT_IS_IPMX_TITLE};

fn on_screen(l: &SlideLayout) -> bool {
    let w = l.window.rect;
    let window_ok = w.x >= 1 && w.y >= 1 && w.w >= 1 && w.h >= 1
        && (w.x as u32 + w.w as u32 + 1) <= 30
        && (w.y as u32 + w.h as u32 + 1) <= 20;
    let texts_ok = l.texts.iter().all(|t| (t.x as u32) < w.w as u32 * 8 && (t.y as u32) < w.h as u32 * 8);
    let sprite_ok = l.sprites.iter().all(|s| s.x >= 0 && s.x < 240 && s.y >= 0 && s.y < 160);
    window_ok && texts_ok && sprite_ok
}

fn ascii(t: &Text) -> &'static str {
    match t {
        Text::Ascii(id) => text_of(*id),
        Text::Encoded(_) => panic!("expected ASCII text"),
    }
}

#[test]
fn intro_slide() {
    let l = slide_intro();
    assert_eq!((l.window.rect.x, l.window.rect.y, l.window.rect.w, l.window.rect.h), (4, 7, 22, 8));
    assert_eq!(l.window.base_tile, 0x80);
    assert_eq!(l.texts.len(), 2);
    assert_eq!(ascii(&l.texts[0].text), "What is IPMX ?");
    assert_eq!(ascii(&l.texts[0].text), WHAT_IS_IPMX_TITLE);
    assert_eq!(l.texts[0].font, bigfont());
    assert_eq!((l.texts[0].x, l.texts[0].y), (0, 0));
    assert_eq!(ascii(&l.texts[1].text), "An introductory presentation\nabout open standards for\ninteroperable media over IP.");
    assert_eq!(ascii(&l.texts[1].text), INTRO_BODY);
    assert_eq!(l.texts[1].font, font());
    assert_eq!((l.texts[1].x, l.texts[1].y), (0, 14));
    assert_eq!(l.sprites, vec![SpriteSpec { species: 137, x: 200, y: 100, priority: 1, index: 0 }]);
    assert_eq!(l.motion, SlideMotion::Still);
}

#[test]
fn titled_slides_titles_and_sprites() {
    let cases: Vec<(SlideLayout, &str, u16, i16, i16)> = vec![
        (slide_ipmx_what(), "What is IPMX ?", 474, 200, 40),
        (slide_st2110(), "SMPTE ST 2110", 82, 200, 40),
        (slide_nmos(), "AMWA NMOS", 600, 200, 40),
        (slide_vsf(), "Video Services Forum", 125, 200, 40),
        (slide_ipmx_value(), "What IPMX packages", 94, 200, 32),
        (slide_benefits(), "What IPMX enables", 243, 200, 32),
        (slide_example(), "Real-world example", 202, 200, 32),
        (slide_benefits_2(), "Benefits", 52, 200, 124),
        (slide_why_now(), "Why IPMX matters now", 31, 200, 32),
        (slide_why_now_2(), "Why IPMX matters now", 34, 200, 32),
    ];
    for (l, title, species, x, y) in cases {
        assert_eq!((l.window.rect.x, l.window.rect.y, l.window.rect.w, l.window.rect.h), (2, 2, 26, 16));
        assert_eq!(l.texts.len(), 2);
        assert_eq!(ascii(&l.texts[0].text), title);
        assert_eq!(l.texts[0].font, bigfont());
        assert_eq!(l.texts[1].font, font());
        assert_eq!((l.texts[1].x, l.texts[1].y), (0, 14));
        assert_eq!(l.sprites, vec![SpriteSpec { species, x, y, priority: 1, index: 0 }]);
        assert_eq!(l.motion, SlideMotion::Still);
        assert!(on_screen(&l));
    }
}

#[test]
fn body_texts() {
    assert_eq!(ascii(&slide_st2110().texts[1].text), "\nThe backbone of IPMX.\n\nDefines how to send uncompressed\nvideo, audio and data over IP.\n\nThe rules for media to travel\nbetween devices, replacing\nanalog methods like SDI.\n    ");
    assert_eq!(ascii(&slide_why_now_2().texts[1].text), "\nIPMX provides a proven,\nstandardized path forward that\nbrings everyone under one\ncertification umbrella.\n    ");
    assert_eq!(ascii(&slide_benefits_2().texts[1].text), "\nNo manual cabling plans needed, like it\nwas needed with analog media. Making\nthe workflow for media workers a lot\nsimpler and easier!\n    ");
}

#[test]
fn thank_you_slide() {
    let l = slide_thank_you();
    assert_eq!((l.window.rect.x, l.window.rect.y, l.window.rect.w, l.window.rect.h), (8, 7, 14, 6));
    assert_eq!(l.texts.len(), 1);
    assert_eq!(ascii(&l.texts[0].text), "That's it !\nThank you for your\nattention !");
    assert_eq!(ascii(&l.texts[0].text), THANK_YOU_TEXT);
    assert_eq!(l.texts[0].font, bigfont());
    assert_eq!(l.sprites, vec![SpriteSpec { species: 155, x: 200, y: 80, priority: 2, index: 0 }]);
    assert!(on_screen(&l));
}

fn bridge(ready: u8, status: u8) -> BridgeMemory {
    let mut bytes = [0xFFu8; 0x43];
    bytes[0] = ready;
    for i in 0..LABEL_LEN {
        bytes[SENDER_OFFSET + i] = i as u8;
        bytes[RECEIVER_OFFSET + i] = 100 + i as u8;
    }
    bytes[0x41] = 0;
    bytes[STATUS_OFFSET] = status;
    BridgeMemory { bytes }
}

#[test]
fn nmos_live_waiting() {
    let l = slide_nmos_live(&bridge(0, 2));
    assert_eq!(l.texts.len(), 3);
    assert_eq!(ascii(&l.texts[0].text), "NMOS live demo");
    assert_eq!(ascii(&l.texts[1].text), "You can even do stuff like this:");
    assert_eq!((l.texts[1].x, l.texts[1].y), (0, 16));
    assert_eq!(ascii(&l.texts[2].text), "Waiting for NMOS bridge...");
    assert_eq!(ascii(&l.texts[2].text), NMOS_LIVE_WAITING);
    assert_eq!((l.texts[2].x, l.texts[2].y), (0, 60));
    assert_eq!(l.sprites, vec![SpriteSpec { species: 384, x: 200, y: 32, priority: 1, index: 0 }]);
    assert!(on_screen(&l));
}

#[test]
fn nmos_live_ready() {
    let m = bridge(1, 1);
    let l = slide_nmos_live(&m);
    assert_eq!(l.texts.len(), 8);
    assert_eq!(ascii(&l.texts[2].text), "Sender");
    assert_eq!(l.texts[2].font, blue_font());
    assert_eq!((l.texts[2].x, l.texts[2].y), (0, 34));
    assert_eq!(l.texts[3].text, Text::Encoded((0..32u8).collect()));
    assert_eq!((l.texts[3].x, l.texts[3].y), (0, 46));
    assert_eq!(ascii(&l.texts[4].text), "Receiver");
    assert_eq!((l.texts[4].x, l.texts[4].y), (0, 68));
    assert_eq!(l.texts[5].text, Text::Encoded((100..132u8).collect()));
    assert_eq!((l.texts[5].x, l.texts[5].y), (0, 80));
    assert_eq!(ascii(&l.texts[6].text), "Status:");
    assert_eq!((l.texts[6].x, l.texts[6].y), (0, 106));
    assert_eq!(ascii(&l.texts[7].text), "Connecting...");
    assert_eq!((l.texts[7].x, l.texts[7].y), (50, 106));
    assert!(on_screen(&l));
}

#[test]
fn nmos_live_unknown_status() {
    let l = slide_nmos_live(&bridge(1, 9));
    assert_eq!(ascii(&l.texts[7].text), "Unknown");
    let l = slide_nmos_live(&bridge(1, 3));
    assert_eq!(ascii(&l.texts[7].text), "Failed");
}

#[test]
fn anim_generated_slide() {
    let l = slide_anim_generated();
    assert_eq!((l.window.rect.x, l.window.rect.y, l.window.rect.w, l.window.rect.h), (2, 2, 26, 4));
    assert_eq!(ascii(&l.texts[0].text), "Another use case?");
    assert_eq!(ascii(&l.texts[1].text), "So we can make cool stuff like this as well.");
    assert_eq!(
        l.sprites,
        vec![
            SpriteSpec { species: 32, x: 40, y: 80, priority: 1, index: 0 },
            SpriteSpec { species: 29, x: 200, y: 80, priority: 1, index: 1 },
        ]
    );
    assert_eq!(
        l.motion,
        SlideMotion::EnvelopeFlight(SheetSpriteSpec { tag: 0x1236, size_flags: 0b0100, palette_slot: 1, x: 40, y: 80, animation: 0 })
    );
    assert!(on_screen(&l));
}

#[test]
fn envelope_flight_writes_connect_once_on_landing() {
    let mut flight = EnvelopeFlight::new();
    let mut mem = bridge(1, 0);
    let start = mem.bytes;
    for k in 1..=FLIGHT_FRAMES as i16 {
        assert_eq!(flight.step(&mut mem), FlightStep::Move(40 + 2 * k, 80));
        assert_eq!(mem.bytes, start);
    }
    assert_eq!(flight.step(&mut mem), FlightStep::Landed);
    assert_eq!(mem.bytes[COMMAND_OFFSET], CMD_CONNECT);
    for i in 0..0x43 {
        if i != COMMAND_OFFSET {
            assert_eq!(mem.bytes[i], start[i]);
        }
    }
    let mut fresh = bridge(1, 0);
    assert_eq!(flight.step(&mut fresh), FlightStep::Done);
    assert_eq!(fresh.bytes[COMMAND_OFFSET], 0);
    assert_eq!(flight.step(&mut fresh), FlightStep::Done);
}

#[test]
fn live_slide_redraws_when_bridge_comes_up() {
    let (mut live, first) = LiveSlide::start(&bridge(0, 0));
    assert_eq!(first.texts.len(), 3);
    assert_eq!(ascii(&first.texts[2].text), "Waiting for NMOS bridge...");
    // nothing changed: no redraw
    assert!(live.step(&bridge(0, 0)).is_none());
    // labels change while not ready: still nothing to redraw
    let mut other = bridge(0, 0);
    other.bytes[5] = 0x42;
    assert!(live.step(&other).is_none());
    // the bridge comes up: redraw with the labels
    let up = bridge(1, 1);
    let l = live.step(&up).expect("redraw");
    assert_eq!(l.texts.len(), 8);
    assert_eq!(l.texts[3].text, Text::Encoded((0..32u8).collect()));
    assert_eq!(ascii(&l.texts[7].text), "Connecting...");
    // same content, only the command byte differs: no redraw
    let mut cmd = bridge(1, 1);
    cmd.bytes[COMMAND_OFFSET] = 1;
    assert!(live.step(&cmd).is_none());
    // status changes: redraw
    let l = live.step(&bridge(1, 2)).expect("redraw");
    assert_eq!(ascii(&l.texts[7].text), "Connected !");
    // a receiver label byte changes: redraw
    let mut relabel = bridge(1, 2);
    relabel.bytes[0x40] = 7;
    let l = live.step(&relabel).expect("redraw");
    assert_eq!(l.texts[5].text, Text::Encoded((100..131u8).chain([7u8]).collect()));
    // the bridge goes down: back to waiting
    let l = live.step(&bridge(0, 2)).expect("redraw");
    assert_eq!(l.texts.len(), 3);
}

#[test]
fn anim_imported_slide() {
    let l = slide_anim_imported();
    assert_eq!(ascii(&l.texts[0].text), "Imported animation");
    assert_eq!(ascii(&l.texts[1].text), "Engine AnimCmd frame table");
    assert!(l.sprites.is_empty());
    assert_eq!(
        l.motion,
        SlideMotion::StatusCycle(SheetSpriteSpec { tag: 0x1235, size_flags: 0b0100, palette_slot: 0, x: 120, y: 80, animation: 0 })
    );
    let frames = status_cycle_frames();
    assert_eq!(frames.len(), 6);
    for (k, f) in frames.iter().enumerate() {
        assert_eq!(*f, AnimFrame { tile: 4 * k as u16, duration: 40, hflip: false, vflip: false });
    }
    assert!(on_screen(&l));
}

#[test]
fn every_slide_fits_the_screen() {
    let m = bridge(1, 0);
    let all = [
        Slide::Intro, Slide::IpmxWhat, Slide::St2110, Slide::Nmos, Slide::NmosLive, Slide::Vsf,
        Slide::IpmxValue, Slide::Benefits, Slide::Example, Slide::Benefits2, Slide::WhyNow,
        Slide::WhyNow2, Slide::AnimGenerated, Slide::AnimImported, Slide::ThankYou,
    ];
    for s in all {
        assert!(on_screen(&slide_layout(s, &m)));
    }
    assert_eq!(slide_layout(Slide::NmosLive, &bridge(0, 0)).texts.len(), 3);
    assert_eq!(ascii(&slide_layout(Slide::Vsf, &m).texts[0].text), "Video Services Forum");
}
