//! The state of the screens: playback modes, the console's sources and
//! selections, the about and help pages.
use vstd::prelude::*;

use crate::pipewire::{PipewireAppSource, PipewirePhysicalSource};

verus! {

/// Where the virtual microphone's audio comes from.
#[derive(PartialEq, Eq, Structural, Clone, Copy, Debug)]
pub enum PlaybackMode {
    /// No audio: the virtual microphone transmits silence.
    Silence,
    PhysicalMic,
    ApplicationAudio,
    LocalFile,
}

impl PlaybackMode {
    /// Every mode, in the order the console shows them.
    pub fn iterable() -> (modes: [Self; 4])
        ensures
            modes@ == seq![
                PlaybackMode::Silence,
                PlaybackMode::PhysicalMic,
                PlaybackMode::ApplicationAudio,
                PlaybackMode::LocalFile,
            ],
    {
        let modes = [Self::Silence, Self::PhysicalMic, Self::ApplicationAudio, Self::LocalFile];
        assert(modes@ =~= seq![
            PlaybackMode::Silence,
            PlaybackMode::PhysicalMic,
            PlaybackMode::ApplicationAudio,
            PlaybackMode::LocalFile,
        ]);
        modes
    }
}

/// The console screen: the sources offered and the ones selected, and the
/// gain for application audio.
pub struct ConsoleState {
    pub physical_sources: Vec<PipewirePhysicalSource>,
    pub selected_physical_source_id: Option<u32>,
    pub app_sources: Vec<PipewireAppSource>,
    pub selected_app_source_id: Option<u32>,
    /// In percent.
    pub app_audio_gain: u32,
}

impl Default for ConsoleState {
    fn default() -> (c: Self)
        ensures
            c.physical_sources@ == Seq::<PipewirePhysicalSource>::empty(),
            c.selected_physical_source_id.is_none(),
            c.app_sources@ == Seq::<PipewireAppSource>::empty(),
            c.selected_app_source_id.is_none(),
            c.app_audio_gain == 100,
    {
        ConsoleState {
            physical_sources: Vec::new(),
            selected_physical_source_id: None,
            app_sources: Vec::new(),
            selected_app_source_id: None,
            app_audio_gain: 100,
        }
    }
}

/// The licence text of AudioPass.
pub const LICENSE_TEXT: &'static str = "MIT License\n\nCopyright (c) 2026 Vishnu Nithin Reddy\n\nPermission is hereby granted, free of charge, to any person obtaining a copy\nof this software and associated documentation files (the \"Software\"), to deal\nin the Software without restriction, including without limitation the rights\nto use, copy, modify, merge, publish, distribute, sublicense, and/or sell\ncopies of the Software, and to permit persons to whom the Software is\nfurnished to do so, subject to the following conditions:\n\nThe above copyright notice and this permission notice shall be included in all\ncopies or substantial portions of the Software.\n\nTHE SOFTWARE IS PROVIDED \"AS IS\", WITHOUT WARRANTY OF ANY KIND, EXPRESS OR\nIMPLIED, INCLUDING BUT NOT LIMITED TO THE WARRANTIES OF MERCHANTABILITY,\nFITNESS FOR A PARTICULAR PURPOSE AND NONINFRINGEMENT. IN NO EVENT SHALL THE\nAUTHORS OR COPYRIGHT HOLDERS BE LIABLE FOR ANY CLAIM, DAMAGES OR OTHER\nLIABILITY, WHETHER IN AN ACTION OF CONTRACT, TORT OR OTHERWISE, ARISING FROM,\nOUT OF OR IN CONNECTION WITH THE SOFTWARE OR THE USE OR OTHER DEALINGS IN THE\nSOFTWARE.\n";

/// The notices of the libraries that AudioPass is built with.
pub const THIRD_PARTY_TEXT: &'static str = "AudioPass is built with these open source libraries, each under its own licence:\n\n- eframe and egui (MIT OR Apache-2.0)\n- egui-phosphor and the Phosphor icons (MIT)\n- pipewire-rs (MIT)\n- ringbuf (MIT OR Apache-2.0)\n- rfd (MIT)\n- serde and serde_json (MIT OR Apache-2.0)\n- single-instance (MIT)\n- tokio (MIT)\n- uuid (MIT OR Apache-2.0)\n";

/// What AudioPass does with the user's data.
pub const PRIVACY_TEXT: &'static str = "AudioPass works fully offline. It collects no data and sends nothing over the network.\n\nThe only data it keeps is the list of tracks you add, saved on this computer under your configuration directory (audiopass/data.json).\n\nThe Homepage and GitHub buttons open those pages in your browser only when you click them.\n";

/// A document that the about screen shows.
#[derive(PartialEq, Eq, Structural, Clone, Copy, Debug)]
pub enum LegalDoc {
    License,
    ThirdParty,
    Privacy,
}

impl LegalDoc {
    /// Every document, in the order the about screen shows them.
    pub fn iterable() -> (docs: [LegalDoc; 3])
        ensures
            docs@ == seq![LegalDoc::License, LegalDoc::ThirdParty, LegalDoc::Privacy],
    {
        let docs = [Self::License, Self::ThirdParty, Self::Privacy];
        assert(docs@ =~= seq![LegalDoc::License, LegalDoc::ThirdParty, LegalDoc::Privacy]);
        docs
    }

    /// The document's button label.
    pub open spec fn label(self) -> Seq<char> {
        match self {
            LegalDoc::License => "LICENSE"@,
            LegalDoc::ThirdParty => "THIRD PARTY NOTICES"@,
            LegalDoc::Privacy => "PRIVACY POLICY"@,
        }
    }

    /// The document's button label.
    pub fn get_label(&self) -> (s: String)
        ensures
            s@ == self.label(),
            *self == LegalDoc::License ==> s@ == "LICENSE"@,
            *self == LegalDoc::ThirdParty ==> s@ == "THIRD PARTY NOTICES"@,
            *self == LegalDoc::Privacy ==> s@ == "PRIVACY POLICY"@,
    {
        String::from_str(
            match self {
                Self::License => "LICENSE",
                Self::ThirdParty => "THIRD PARTY NOTICES",
                Self::Privacy => "PRIVACY POLICY",
            },
        )
    }

    /// The document's text.
    pub open spec fn content(self) -> Seq<char> {
        match self {
            LegalDoc::License => LICENSE_TEXT@,
            LegalDoc::ThirdParty => THIRD_PARTY_TEXT@,
            LegalDoc::Privacy => PRIVACY_TEXT@,
        }
    }

    /// The document's text.
    pub fn get_content(&self) -> (s: &'static str)
        ensures
            s@ == self.content(),
            *self == LegalDoc::License ==> s@ == LICENSE_TEXT@,
            *self == LegalDoc::ThirdParty ==> s@ == THIRD_PARTY_TEXT@,
            *self == LegalDoc::Privacy ==> s@ == PRIVACY_TEXT@,
    {
        match self {
            Self::License => LICENSE_TEXT,
            Self::ThirdParty => THIRD_PARTY_TEXT,
            Self::Privacy => PRIVACY_TEXT,
        }
    }

    /// Each document shows its own text and is labelled with its own name:
    /// the licence shows `LICENSE_TEXT`, the third-party notices show
    /// `THIRD_PARTY_TEXT`, the privacy policy shows `PRIVACY_TEXT`, and no
    /// two documents carry the same label.
    pub proof fn law_each_doc_shows_its_text(doc: LegalDoc, other: LegalDoc)
        ensures
            doc == LegalDoc::License ==> doc.content() == LICENSE_TEXT@ && doc.label() == "LICENSE"@,
            doc == LegalDoc::ThirdParty ==> doc.content() == THIRD_PARTY_TEXT@ && doc.label()
                == "THIRD PARTY NOTICES"@,
            doc == LegalDoc::Privacy ==> doc.content() == PRIVACY_TEXT@ && doc.label() == "PRIVACY POLICY"@,
            doc != other ==> doc.label() != other.label(),
    {
        reveal_strlit("LICENSE");
        reveal_strlit("THIRD PARTY NOTICES");
        reveal_strlit("PRIVACY POLICY");
        assert("LICENSE"@.len() == 7);
        assert("THIRD PARTY NOTICES"@.len() == 19);
        assert("PRIVACY POLICY"@.len() == 14);
    }
}

/// The about screen: which document it shows.
pub struct AboutState {
    pub selected_doc: LegalDoc,
}

impl Default for AboutState {
    fn default() -> (a: Self)
        ensures
            a.selected_doc == LegalDoc::License,
    {
        AboutState { selected_doc: LegalDoc::License }
    }
}

/// A topic of the help screen.
#[derive(PartialEq, Eq, Structural, Clone, Copy, Debug)]
pub enum HelpCategory {
    General,
    PhysicalMic,
    ApplicationAudio,
    LocalFile,
}

impl HelpCategory {
    /// Every topic, in the order the help screen shows them.
    pub fn iterable() -> (categories: [Self; 4])
        ensures
            categories@ == seq![
                HelpCategory::General,
                HelpCategory::PhysicalMic,
                HelpCategory::ApplicationAudio,
                HelpCategory::LocalFile,
            ],
    {
        let categories = [Self::General, Self::PhysicalMic, Self::ApplicationAudio, Self::LocalFile];
        assert(categories@ =~= seq![
            HelpCategory::General,
            HelpCategory::PhysicalMic,
            HelpCategory::ApplicationAudio,
            HelpCategory::LocalFile,
        ]);
        categories
    }
}

/// The help screen: which topic it shows.
pub struct HelpState {
    pub selected_category: HelpCategory,
}

impl Default for HelpState {
    fn default() -> (h: Self)
        ensures
            h.selected_category == HelpCategory::General,
    {
        HelpState { selected_category: HelpCategory::General }
    }
}

/// The screens after startup.
#[derive(PartialEq, Eq, Structural, Clone, Copy, Debug)]
pub enum MainScreen {
    Console,
    Help,
    About,
}

/// The looks of a button.
#[derive(PartialEq, Eq, Structural, Clone, Copy, Debug)]
pub enum ButtonVariant {
    Primary,
    Secondary,
}

} // verus!
