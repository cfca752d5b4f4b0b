//! The state that the commands read and change, and the read-only
//! settings and resources around it.

use vstd::prelude::*;

verus! {

/// The settings of the game's manifest that the commands look at.
#[derive(Clone, Copy, Debug, PartialEq, Eq, Structural)]
pub struct Settings {
    /// Whether the debugging commands may be used.
    pub debug: bool,
}

/// The game's manifest, as far as the commands read it.
#[derive(Clone, Copy, Debug, PartialEq, Eq, Structural)]
pub struct Manifest {
    pub settings: Settings,
}

/// The state of one player's session. The caller owns it and lends it to the
/// dispatcher for the length of one call.
///
/// `info_pages`, `channels` and `notes` stand for sets and `variables` for a
/// map: each is kept as a list in the order in which it is shown, and
/// [`SessionView::wf`] says that no member or name occurs twice.
#[derive(Clone, Debug, PartialEq, Eq)]
pub struct Session {
    /// The choices made so far, the latest last.
    pub history: Vec<String>,
    /// The language in which text is shown.
    pub lang: String,
    /// The identifiers of the info pages that the player has unlocked.
    pub info_pages: Vec<String>,
    /// What has happened so far, the oldest entry first.
    pub log: Vec<String>,
    /// The names of the audio channels that are switched on.
    pub channels: Vec<String>,
    /// The notes that have been applied.
    pub notes: Vec<String>,
    /// The variables by name, each with its value.
    pub variables: Vec<(String, String)>,
}

/// A [`Session`] as sequences of characters.
pub struct SessionView {
    pub history: Seq<Seq<char>>,
    pub lang: Seq<char>,
    pub info_pages: Seq<Seq<char>>,
    pub log: Seq<Seq<char>>,
    pub channels: Seq<Seq<char>>,
    pub notes: Seq<Seq<char>>,
    pub variables: Seq<(Seq<char>, Seq<char>)>,
}

impl SessionView {
    /// The names of the variables, in their order.
    pub open spec fn variable_names(self) -> Seq<Seq<char>> {
        Seq::new(self.variables.len(), |i: int| self.variables[i].0)
    }

    /// No page, channel, note or variable name occurs twice.
    pub open spec fn wf(self) -> bool {
        &&& self.info_pages.no_duplicates()
        &&& self.channels.no_duplicates()
        &&& self.notes.no_duplicates()
        &&& self.variable_names().no_duplicates()
    }
}

impl View for Session {
    type V = SessionView;

    open spec fn view(&self) -> SessionView {
        SessionView {
            history: self.history.deep_view(),
            lang: self.lang@,
            info_pages: self.info_pages.deep_view(),
            log: self.log.deep_view(),
            channels: self.channels.deep_view(),
            notes: self.notes.deep_view(),
            variables: self.variables.deep_view(),
        }
    }
}

impl Session {
    /// A session in which nothing has happened yet.
    pub fn new(lang: String) -> (session: Session)
        ensures
            session@.wf(),
            session@.lang == lang@,
            session@.history.len() == 0,
            session@.info_pages.len() == 0,
            session@.log.len() == 0,
            session@.channels.len() == 0,
            session@.notes.len() == 0,
            session@.variables.len() == 0,
    {
        Session {
            history: Vec::new(),
            lang,
            info_pages: Vec::new(),
            log: Vec::new(),
            channels: Vec::new(),
            notes: Vec::new(),
            variables: Vec::new(),
        }
    }
}

/// What the game has loaded, as far as the commands read it. Of each
/// collaborator it holds the names by which the commands choose; the
/// translation tables, the audio players and the prompt definitions stay
/// with their owners. Every list stands for a map, in the order in which it
/// is shown, and [`ResourcesView::wf`] says that no name occurs twice.
#[derive(Clone, Debug, PartialEq, Eq)]
pub struct Resources {
    /// The names of the languages that have a translation.
    pub translations: Vec<String>,
    /// The info pages: identifier and marked-up text.
    pub info_pages: Vec<(String, String)>,
    /// The channel names of the audio subsystem, if there is one.
    pub audio: Option<Vec<String>>,
    /// The prompt files: name of the file and names of its prompts.
    pub prompts: Vec<(String, Vec<String>)>,
}

/// [`Resources`] as sequences of characters.
pub struct ResourcesView {
    pub translations: Seq<Seq<char>>,
    pub info_pages: Seq<(Seq<char>, Seq<char>)>,
    pub audio: Option<Seq<Seq<char>>>,
    pub prompts: Seq<(Seq<char>, Seq<Seq<char>>)>,
}

/// The identifiers of the info pages, in their order.
pub open spec fn page_ids(pages: Seq<(Seq<char>, Seq<char>)>) -> Seq<Seq<char>> {
    Seq::new(pages.len(), |i: int| pages[i].0)
}

/// The names of the prompt files, in their order.
pub open spec fn file_names(prompts: Seq<(Seq<char>, Seq<Seq<char>>)>) -> Seq<Seq<char>> {
    Seq::new(prompts.len(), |i: int| prompts[i].0)
}

impl ResourcesView {
    /// No language, page, channel or prompt file occurs twice, nor a prompt
    /// within its file.
    pub open spec fn wf(self) -> bool {
        &&& self.translations.no_duplicates()
        &&& page_ids(self.info_pages).no_duplicates()
        &&& self.audio matches Some(known) ==> known.no_duplicates()
        &&& file_names(self.prompts).no_duplicates()
        &&& forall|i: int|
            0 <= i < self.prompts.len() ==> (#[trigger] self.prompts[i]).1.no_duplicates()
    }
}

impl View for Resources {
    type V = ResourcesView;

    open spec fn view(&self) -> ResourcesView {
        ResourcesView {
            translations: self.translations.deep_view(),
            info_pages: self.info_pages.deep_view(),
            audio: self.audio.deep_view(),
            prompts: self.prompts.deep_view(),
        }
    }
}

} // verus!
