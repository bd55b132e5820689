//! The words on the slides, and a name for each.

use vstd::prelude::*;

verus! {

pub const WHAT_IS_IPMX_TITLE: &'static str = "What is IPMX ?";
pub const INTRO_BODY: &'static str = "An introductory presentation\nabout open standards for\ninteroperable media over IP.";
pub const IPMX_WHAT_BODY: &'static str = "\nA suite of open standards that let\nsystems trade audio, video and\nmetadata interoperably over IP.\n\nVideo can be raw (lossless) or\ncompressed (JPEG-XS, HEVC) for\nflexibility between quality and\nbandwidth efficiency.\n    ";
pub const ST2110_TITLE: &'static str = "SMPTE ST 2110";
pub const ST2110_BODY: &'static str = "\nThe backbone of IPMX.\n\nDefines how to send uncompressed\nvideo, audio and data over IP.\n\nThe rules for media to travel\nbetween devices, replacing\nanalog methods like SDI.\n    ";
pub const NMOS_TITLE: &'static str = "AMWA NMOS";
pub const NMOS_BODY: &'static str = "\nNetworked Media Open Specifications.\nSolves: how do you discover,\nconnect and manage streams?\n\nLike a middleman advertising every\nnode, device, sender and receiver\nso all your devices can find each\nother automatically.\n    ";
pub const VSF_TITLE: &'static str = "Video Services Forum";
pub const VSF_BODY: &'static str = "\nVSF provides Technical\nRecommendations that fill the gaps.\n\nAnswers questions like:\n- How much bandwidth do I need?\n- How do I ensure timing?\n- How to make it all work?\n    ";
pub const IPMX_VALUE_TITLE: &'static str = "What IPMX packages";
pub const IPMX_VALUE_BODY: &'static str = "\nST 2110 = The language\n  How video and audio are sent\n\nNMOS = The conversation\n  How devices find each other\n\nVSF TRs = The practical guide\n  How to make it all work\n\nIPMX bundles all of these with\ncertification requirements.\n    ";
pub const BENEFITS_TITLE: &'static str = "What IPMX enables";
pub const BENEFITS_BODY: &'static str = "\nTiming Control\n  PTP syncs everything to the nanosecond.\n\nInteroperability\n  All certified devices speak the same rules.\n\nEasy Setup\n  Devices connect and work automatically.\n    ";
pub const EXAMPLE_TITLE: &'static str = "Real-world example";
pub const EXAMPLE_BODY: &'static str = "\nIn a new production facility:\n- Cameras output ST 2110 streams\n  discovered by NMOS automatically\n- Router uses IS-05 to connect\n  any source to any destination\n- Multiviewer finds all sources\n  via IS-04 without manual config\n- Everything synced via PTP\n    ";
pub const BENEFITS_2_TITLE: &'static str = "Benefits";
pub const BENEFITS_2_BODY: &'static str = "\nNo manual cabling plans needed, like it\nwas needed with analog media. Making\nthe workflow for media workers a lot\nsimpler and easier!\n    ";
pub const WHY_NOW_TITLE: &'static str = "Why IPMX matters now";
pub const WHY_NOW_BODY: &'static str = "\nThe industry is at an\ninflection point.\n\nOld infrastructure is aging and\nnew demands (4K, 8K, HDR) require\nrethinking our technologies.\n    ";
pub const WHY_NOW_2_BODY: &'static str = "\nIPMX provides a proven,\nstandardized path forward that\nbrings everyone under one\ncertification umbrella.\n    ";
pub const NMOS_LIVE_TITLE: &'static str = "NMOS live demo";
pub const NMOS_LIVE_INTRO: &'static str = "You can even do stuff like this:";
pub const NMOS_LIVE_WAITING: &'static str = "Waiting for NMOS bridge...";
pub const SENDER_HEADING: &'static str = "Sender";
pub const RECEIVER_HEADING: &'static str = "Receiver";
pub const STATUS_HEADING: &'static str = "Status:";
pub const ANIM_GENERATED_TITLE: &'static str = "Another use case?";
pub const ANIM_GENERATED_BODY: &'static str = "So we can make cool stuff like this as well.";
pub const ANIM_IMPORTED_TITLE: &'static str = "Imported animation";
pub const ANIM_IMPORTED_BODY: &'static str = "Engine AnimCmd frame table";
pub const THANK_YOU_TEXT: &'static str = "That's it !\nThank you for your\nattention !";
pub const STATUS_IDLE: &'static str = "Idle";
pub const STATUS_CONNECTING: &'static str = "Connecting...";
pub const STATUS_CONNECTED: &'static str = "Connected !";
pub const STATUS_FAILED: &'static str = "Failed";
pub const STATUS_UNKNOWN: &'static str = "Unknown";

/// A name for each text the slides print in ASCII.
#[derive(Clone, Copy, Debug, PartialEq, Eq, Structural)]
pub enum TextId {
    WhatIsIpmxTitle,
    IntroBody,
    IpmxWhatBody,
    St2110Title,
    St2110Body,
    NmosTitle,
    NmosBody,
    VsfTitle,
    VsfBody,
    IpmxValueTitle,
    IpmxValueBody,
    BenefitsTitle,
    BenefitsBody,
    ExampleTitle,
    ExampleBody,
    Benefits2Title,
    Benefits2Body,
    WhyNowTitle,
    WhyNowBody,
    WhyNow2Body,
    NmosLiveTitle,
    NmosLiveIntro,
    NmosLiveWaiting,
    SenderHeading,
    ReceiverHeading,
    StatusHeading,
    AnimGeneratedTitle,
    AnimGeneratedBody,
    AnimImportedTitle,
    AnimImportedBody,
    ThankYouText,
    StatusIdle,
    StatusConnecting,
    StatusConnected,
    StatusFailed,
    StatusUnknown,
}

/// The characters of a named text.
pub open spec fn text_spec(id: TextId) -> Seq<char> {
    match id {
        TextId::WhatIsIpmxTitle => WHAT_IS_IPMX_TITLE@,
        TextId::IntroBody => INTRO_BODY@,
        TextId::IpmxWhatBody => IPMX_WHAT_BODY@,
        TextId::St2110Title => ST2110_TITLE@,
        TextId::St2110Body => ST2110_BODY@,
        TextId::NmosTitle => NMOS_TITLE@,
        TextId::NmosBody => NMOS_BODY@,
        TextId::VsfTitle => VSF_TITLE@,
        TextId::VsfBody => VSF_BODY@,
        TextId::IpmxValueTitle => IPMX_VALUE_TITLE@,
        TextId::IpmxValueBody => IPMX_VALUE_BODY@,
        TextId::BenefitsTitle => BENEFITS_TITLE@,
        TextId::BenefitsBody => BENEFITS_BODY@,
        TextId::ExampleTitle => EXAMPLE_TITLE@,
        TextId::ExampleBody => EXAMPLE_BODY@,
        TextId::Benefits2Title => BENEFITS_2_TITLE@,
        TextId::Benefits2Body => BENEFITS_2_BODY@,
        TextId::WhyNowTitle => WHY_NOW_TITLE@,
        TextId::WhyNowBody => WHY_NOW_BODY@,
        TextId::WhyNow2Body => WHY_NOW_2_BODY@,
        TextId::NmosLiveTitle => NMOS_LIVE_TITLE@,
        TextId::NmosLiveIntro => NMOS_LIVE_INTRO@,
        TextId::NmosLiveWaiting => NMOS_LIVE_WAITING@,
        TextId::SenderHeading => SENDER_HEADING@,
        TextId::ReceiverHeading => RECEIVER_HEADING@,
        TextId::StatusHeading => STATUS_HEADING@,
        TextId::AnimGeneratedTitle => ANIM_GENERATED_TITLE@,
        TextId::AnimGeneratedBody => ANIM_GENERATED_BODY@,
        TextId::AnimImportedTitle => ANIM_IMPORTED_TITLE@,
        TextId::AnimImportedBody => ANIM_IMPORTED_BODY@,
        TextId::ThankYouText => THANK_YOU_TEXT@,
        TextId::StatusIdle => STATUS_IDLE@,
        TextId::StatusConnecting => STATUS_CONNECTING@,
        TextId::StatusConnected => STATUS_CONNECTED@,
        TextId::StatusFailed => STATUS_FAILED@,
        TextId::StatusUnknown => STATUS_UNKNOWN@,
    }
}

/// The characters of a named text.
pub fn text_of(id: TextId) -> (r: &'static str)
    ensures
        r@ == text_spec(id),
{
    match id {
        TextId::WhatIsIpmxTitle => WHAT_IS_IPMX_TITLE,
        TextId::IntroBody => INTRO_BODY,
        TextId::IpmxWhatBody => IPMX_WHAT_BODY,
        TextId::St2110Title => ST2110_TITLE,
        TextId::St2110Body => ST2110_BODY,
        TextId::NmosTitle => NMOS_TITLE,
        TextId::NmosBody => NMOS_BODY,
        TextId::VsfTitle => VSF_TITLE,
        TextId::VsfBody => VSF_BODY,
        TextId::IpmxValueTitle => IPMX_VALUE_TITLE,
        TextId::IpmxValueBody => IPMX_VALUE_BODY,
        TextId::BenefitsTitle => BENEFITS_TITLE,
        TextId::BenefitsBody => BENEFITS_BODY,
        TextId::ExampleTitle => EXAMPLE_TITLE,
        TextId::ExampleBody => EXAMPLE_BODY,
        TextId::Benefits2Title => BENEFITS_2_TITLE,
        TextId::Benefits2Body => BENEFITS_2_BODY,
        TextId::WhyNowTitle => WHY_NOW_TITLE,
        TextId::WhyNowBody => WHY_NOW_BODY,
        TextId::WhyNow2Body => WHY_NOW_2_BODY,
        TextId::NmosLiveTitle => NMOS_LIVE_TITLE,
        TextId::NmosLiveIntro => NMOS_LIVE_INTRO,
        TextId::NmosLiveWaiting => NMOS_LIVE_WAITING,
        TextId::SenderHeading => SENDER_HEADING,
        TextId::ReceiverHeading => RECEIVER_HEADING,
        TextId::StatusHeading => STATUS_HEADING,
        TextId::AnimGeneratedTitle => ANIM_GENERATED_TITLE,
        TextId::AnimGeneratedBody => ANIM_GENERATED_BODY,
        TextId::AnimImportedTitle => ANIM_IMPORTED_TITLE,
        TextId::AnimImportedBody => ANIM_IMPORTED_BODY,
        TextId::ThankYouText => THANK_YOU_TEXT,
        TextId::StatusIdle => STATUS_IDLE,
        TextId::StatusConnecting => STATUS_CONNECTING,
        TextId::StatusConnected => STATUS_CONNECTED,
        TextId::StatusFailed => STATUS_FAILED,
        TextId::StatusUnknown => STATUS_UNKNOWN,
    }
}

/// Every named text is exactly the words the slides print for it.
pub proof fn law_text_words()
    ensures
        text_spec(TextId::WhatIsIpmxTitle) == "What is IPMX ?"@,
        text_spec(TextId::IntroBody) == "An introductory presentation\nabout open standards for\ninteroperable media over IP."@,
        text_spec(TextId::IpmxWhatBody) == "\nA suite of open standards that let\nsystems trade audio, video and\nmetadata interoperably over IP.\n\nVideo can be raw (lossless) or\ncompressed (JPEG-XS, HEVC) for\nflexibility between quality and\nbandwidth efficiency.\n    "@,
        text_spec(TextId::St2110Title) == "SMPTE ST 2110"@,
        text_spec(TextId::St2110Body) == "\nThe backbone of IPMX.\n\nDefines how to send uncompressed\nvideo, audio and data over IP.\n\nThe rules for media to travel\nbetween devices, replacing\nanalog methods like SDI.\n    "@,
        text_spec(TextId::NmosTitle) == "AMWA NMOS"@,
        text_spec(TextId::NmosBody) == "\nNetworked Media Open Specifications.\nSolves: how do you discover,\nconnect and manage streams?\n\nLike a middleman advertising every\nnode, device, sender and receiver\nso all your devices can find each\nother automatically.\n    "@,
        text_spec(TextId::VsfTitle) == "Video Services Forum"@,
        text_spec(TextId::VsfBody) == "\nVSF provides Technical\nRecommendations that fill the gaps.\n\nAnswers questions like:\n- How much bandwidth do I need?\n- How do I ensure timing?\n- How to make it all work?\n    "@,
        text_spec(TextId::IpmxValueTitle) == "What IPMX packages"@,
        text_spec(TextId::IpmxValueBody) == "\nST 2110 = The language\n  How video and audio are sent\n\nNMOS = The conversation\n  How devices find each other\n\nVSF TRs = The practical guide\n  How to make it all work\n\nIPMX bundles all of these with\ncertification requirements.\n    "@,
        text_spec(TextId::BenefitsTitle) == "What IPMX enables"@,
        text_spec(TextId::BenefitsBody) == "\nTiming Control\n  PTP syncs everything to the nanosecond.\n\nInteroperability\n  All certified devices speak the same rules.\n\nEasy Setup\n  Devices connect and work automatically.\n    "@,
        text_spec(TextId::ExampleTitle) == "Real-world example"@,
        text_spec(TextId::ExampleBody) == "\nIn a new production facility:\n- Cameras output ST 2110 streams\n  discovered by NMOS automatically\n- Router uses IS-05 to connect\n  any source to any destination\n- Multiviewer finds all sources\n  via IS-04 without manual config\n- Everything synced via PTP\n    "@,
        text_spec(TextId::Benefits2Title) == "Benefits"@,
        text_spec(TextId::Benefits2Body) == "\nNo manual cabling plans needed, like it\nwas needed with analog media. Making\nthe workflow for media workers a lot\nsimpler and easier!\n    "@,
        text_spec(TextId::WhyNowTitle) == "Why IPMX matters now"@,
        text_spec(TextId::WhyNowBody) == "\nThe industry is at an\ninflection point.\n\nOld infrastructure is aging and\nnew demands (4K, 8K, HDR) require\nrethinking our technologies.\n    "@,
        text_spec(TextId::WhyNow2Body) == "\nIPMX provides a proven,\nstandardized path forward that\nbrings everyone under one\ncertification umbrella.\n    "@,
        text_spec(TextId::NmosLiveTitle) == "NMOS live demo"@,
        text_spec(TextId::NmosLiveIntro) == "You can even do stuff like this:"@,
        text_spec(TextId::NmosLiveWaiting) == "Waiting for NMOS bridge..."@,
        text_spec(TextId::SenderHeading) == "Sender"@,
        text_spec(TextId::ReceiverHeading) == "Receiver"@,
        text_spec(TextId::StatusHeading) == "Status:"@,
        text_spec(TextId::AnimGeneratedTitle) == "Another use case?"@,
        text_spec(TextId::AnimGeneratedBody) == "So we can make cool stuff like this as well."@,
        text_spec(TextId::AnimImportedTitle) == "Imported animation"@,
        text_spec(TextId::AnimImportedBody) == "Engine AnimCmd frame table"@,
        text_spec(TextId::ThankYouText) == "That's it !\nThank you for your\nattention !"@,
        text_spec(TextId::StatusIdle) == "Idle"@,
        text_spec(TextId::StatusConnecting) == "Connecting..."@,
        text_spec(TextId::StatusConnected) == "Connected !"@,
        text_spec(TextId::StatusFailed) == "Failed"@,
        text_spec(TextId::StatusUnknown) == "Unknown"@,
{
}

/// Length and first character of each text; no two texts agree on both.
spec fn text_fingerprint(id: TextId) -> (nat, char) {
    match id {
        TextId::WhatIsIpmxTitle => (14nat, 'W'),
        TextId::IntroBody => (82nat, 'A'),
        TextId::IpmxWhatBody => (220nat, '\n'),
        TextId::St2110Title => (13nat, 'S'),
        TextId::St2110Body => (175nat, '\n'),
        TextId::NmosTitle => (9nat, 'A'),
        TextId::NmosBody => (224nat, '\n'),
        TextId::VsfTitle => (20nat, 'V'),
        TextId::VsfBody => (174nat, '\n'),
        TextId::IpmxValueTitle => (18nat, 'W'),
        TextId::IpmxValueBody => (231nat, '\n'),
        TextId::BenefitsTitle => (17nat, 'W'),
        TextId::BenefitsBody => (180nat, '\n'),
        TextId::ExampleTitle => (18nat, 'R'),
        TextId::ExampleBody => (260nat, '\n'),
        TextId::Benefits2Title => (8nat, 'B'),
        TextId::Benefits2Body => (139nat, '\n'),
        TextId::WhyNowTitle => (20nat, 'W'),
        TextId::WhyNowBody => (141nat, '\n'),
        TextId::WhyNow2Body => (110nat, '\n'),
        TextId::NmosLiveTitle => (14nat, 'N'),
        TextId::NmosLiveIntro => (32nat, 'Y'),
        TextId::NmosLiveWaiting => (26nat, 'W'),
        TextId::SenderHeading => (6nat, 'S'),
        TextId::ReceiverHeading => (8nat, 'R'),
        TextId::StatusHeading => (7nat, 'S'),
        TextId::AnimGeneratedTitle => (17nat, 'A'),
        TextId::AnimGeneratedBody => (44nat, 'S'),
        TextId::AnimImportedTitle => (18nat, 'I'),
        TextId::AnimImportedBody => (26nat, 'E'),
        TextId::ThankYouText => (42nat, 'T'),
        TextId::StatusIdle => (4nat, 'I'),
        TextId::StatusConnecting => (13nat, 'C'),
        TextId::StatusConnected => (11nat, 'C'),
        TextId::StatusFailed => (6nat, 'F'),
        TextId::StatusUnknown => (7nat, 'U'),
    }
}

/// The text with a given length and first character, if there is one.
spec fn text_with_fingerprint(fp: (nat, char)) -> Option<TextId> {
    if fp == (14nat, 'W') {
        Some(TextId::WhatIsIpmxTitle)
    } else if fp == (82nat, 'A') {
        Some(TextId::IntroBody)
    } else if fp == (220nat, '\n') {
        Some(TextId::IpmxWhatBody)
    } else if fp == (13nat, 'S') {
        Some(TextId::St2110Title)
    } else if fp == (175nat, '\n') {
        Some(TextId::St2110Body)
    } else if fp == (9nat, 'A') {
        Some(TextId::NmosTitle)
    } else if fp == (224nat, '\n') {
        Some(TextId::NmosBody)
    } else if fp == (20nat, 'V') {
        Some(TextId::VsfTitle)
    } else if fp == (174nat, '\n') {
        Some(TextId::VsfBody)
    } else if fp == (18nat, 'W') {
        Some(TextId::IpmxValueTitle)
    } else if fp == (231nat, '\n') {
        Some(TextId::IpmxValueBody)
    } else if fp == (17nat, 'W') {
        Some(TextId::BenefitsTitle)
    } else if fp == (180nat, '\n') {
        Some(TextId::BenefitsBody)
    } else if fp == (18nat, 'R') {
        Some(TextId::ExampleTitle)
    } else if fp == (260nat, '\n') {
        Some(TextId::ExampleBody)
    } else if fp == (8nat, 'B') {
        Some(TextId::Benefits2Title)
    } else if fp == (139nat, '\n') {
        Some(TextId::Benefits2Body)
    } else if fp == (20nat, 'W') {
        Some(TextId::WhyNowTitle)
    } else if fp == (141nat, '\n') {
        Some(TextId::WhyNowBody)
    } else if fp == (110nat, '\n') {
        Some(TextId::WhyNow2Body)
    } else if fp == (14nat, 'N') {
        Some(TextId::NmosLiveTitle)
    } else if fp == (32nat, 'Y') {
        Some(TextId::NmosLiveIntro)
    } else if fp == (26nat, 'W') {
        Some(TextId::NmosLiveWaiting)
    } else if fp == (6nat, 'S') {
        Some(TextId::SenderHeading)
    } else if fp == (8nat, 'R') {
        Some(TextId::ReceiverHeading)
    } else if fp == (7nat, 'S') {
        Some(TextId::StatusHeading)
    } else if fp == (17nat, 'A') {
        Some(TextId::AnimGeneratedTitle)
    } else if fp == (44nat, 'S') {
        Some(TextId::AnimGeneratedBody)
    } else if fp == (18nat, 'I') {
        Some(TextId::AnimImportedTitle)
    } else if fp == (26nat, 'E') {
        Some(TextId::AnimImportedBody)
    } else if fp == (42nat, 'T') {
        Some(TextId::ThankYouText)
    } else if fp == (4nat, 'I') {
        Some(TextId::StatusIdle)
    } else if fp == (13nat, 'C') {
        Some(TextId::StatusConnecting)
    } else if fp == (11nat, 'C') {
        Some(TextId::StatusConnected)
    } else if fp == (6nat, 'F') {
        Some(TextId::StatusFailed)
    } else if fp == (7nat, 'U') {
        Some(TextId::StatusUnknown)
    } else {
        None
    }
}

proof fn lemma_text_fingerprint(id: TextId)
    ensures
        text_spec(id).len() == text_fingerprint(id).0,
        text_spec(id).len() > 0,
        text_spec(id)[0] == text_fingerprint(id).1,
        text_with_fingerprint(text_fingerprint(id)) == Some(id),
{
    match id {
        TextId::WhatIsIpmxTitle => {
            reveal_strlit("What is IPMX ?");
        },
        TextId::IntroBody => {
            reveal_strlit("An introductory presentation\nabout open standards for\ninteroperable media over IP.");
        },
        TextId::IpmxWhatBody => {
            reveal_strlit("\nA suite of open standards that let\nsystems trade audio, video and\nmetadata interoperably over IP.\n\nVideo can be raw (lossless) or\ncompressed (JPEG-XS, HEVC) for\nflexibility between quality and\nbandwidth efficiency.\n    ");
        },
        TextId::St2110Title => {
            reveal_strlit("SMPTE ST 2110");
        },
        TextId::St2110Body => {
            reveal_strlit("\nThe backbone of IPMX.\n\nDefines how to send uncompressed\nvideo, audio and data over IP.\n\nThe rules for media to travel\nbetween devices, replacing\nanalog methods like SDI.\n    ");
        },
        TextId::NmosTitle => {
            reveal_strlit("AMWA NMOS");
        },
        TextId::NmosBody => {
            reveal_strlit("\nNetworked Media Open Specifications.\nSolves: how do you discover,\nconnect and manage streams?\n\nLike a middleman advertising every\nnode, device, sender and receiver\nso all your devices can find each\nother automatically.\n    ");
        },
        TextId::VsfTitle => {
            reveal_strlit("Video Services Forum");
        },
        TextId::VsfBody => {
            reveal_strlit("\nVSF provides Technical\nRecommendations that fill the gaps.\n\nAnswers questions like:\n- How much bandwidth do I need?\n- How do I ensure timing?\n- How to make it all work?\n    ");
        },
        TextId::IpmxValueTitle => {
            reveal_strlit("What IPMX packages");
        },
        TextId::IpmxValueBody => {
            reveal_strlit("\nST 2110 = The language\n  How video and audio are sent\n\nNMOS = The conversation\n  How devices find each other\n\nVSF TRs = The practical guide\n  How to make it all work\n\nIPMX bundles all of these with\ncertification requirements.\n    ");
        },
        TextId::BenefitsTitle => {
            reveal_strlit("What IPMX enables");
        },
        TextId::BenefitsBody => {
            reveal_strlit("\nTiming Control\n  PTP syncs everything to the nanosecond.\n\nInteroperability\n  All certified devices speak the same rules.\n\nEasy Setup\n  Devices connect and work automatically.\n    ");
        },
        TextId::ExampleTitle => {
            reveal_strlit("Real-world example");
        },
        TextId::ExampleBody => {
            reveal_strlit("\nIn a new production facility:\n- Cameras output ST 2110 streams\n  discovered by NMOS automatically\n- Router uses IS-05 to connect\n  any source to any destination\n- Multiviewer finds all sources\n  via IS-04 without manual config\n- Everything synced via PTP\n    ");
        },
        TextId::Benefits2Title => {
            reveal_strlit("Benefits");
        },
        TextId::Benefits2Body => {
            reveal_strlit("\nNo manual cabling plans needed, like it\nwas needed with analog media. Making\nthe workflow for media workers a lot\nsimpler and easier!\n    ");
        },
        TextId::WhyNowTitle => {
            reveal_strlit("Why IPMX matters now");
        },
        TextId::WhyNowBody => {
            reveal_strlit("\nThe industry is at an\ninflection point.\n\nOld infrastructure is aging and\nnew demands (4K, 8K, HDR) require\nrethinking our technologies.\n    ");
        },
        TextId::WhyNow2Body => {
            reveal_strlit("\nIPMX provides a proven,\nstandardized path forward that\nbrings everyone under one\ncertification umbrella.\n    ");
        },
        TextId::NmosLiveTitle => {
            reveal_strlit("NMOS live demo");
        },
        TextId::NmosLiveIntro => {
            reveal_strlit("You can even do stuff like this:");
        },
        TextId::NmosLiveWaiting => {
            reveal_strlit("Waiting for NMOS bridge...");
        },
        TextId::SenderHeading => {
            reveal_strlit("Sender");
        },
        TextId::ReceiverHeading => {
            reveal_strlit("Receiver");
        },
        TextId::StatusHeading => {
            reveal_strlit("Status:");
        },
        TextId::AnimGeneratedTitle => {
            reveal_strlit("Another use case?");
        },
        TextId::AnimGeneratedBody => {
            reveal_strlit("So we can make cool stuff like this as well.");
        },
        TextId::AnimImportedTitle => {
            reveal_strlit("Imported animation");
        },
        TextId::AnimImportedBody => {
            reveal_strlit("Engine AnimCmd frame table");
        },
        TextId::ThankYouText => {
            reveal_strlit("That's it !\nThank you for your\nattention !");
        },
        TextId::StatusIdle => {
            reveal_strlit("Idle");
        },
        TextId::StatusConnecting => {
            reveal_strlit("Connecting...");
        },
        TextId::StatusConnected => {
            reveal_strlit("Connected !");
        },
        TextId::StatusFailed => {
            reveal_strlit("Failed");
        },
        TextId::StatusUnknown => {
            reveal_strlit("Unknown");
        },
    }
}

/// No two named texts have the same words: every name stands for its own
/// text, so showing one text never shows another.
pub proof fn law_texts_distinct(a: TextId, b: TextId)
    ensures
        a != b ==> text_spec(a) != text_spec(b),
{
    lemma_text_fingerprint(a);
    lemma_text_fingerprint(b);
    if a != b && text_spec(a) == text_spec(b) {
        assert(text_fingerprint(a) == text_fingerprint(b));
    }
}

} // verus!
