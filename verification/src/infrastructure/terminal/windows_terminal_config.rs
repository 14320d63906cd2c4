use vstd::prelude::*;
use crate::domain::entities::profile::names_of;
use crate::infrastructure::terminal::settings_json::{
    settings_update, updated_settings, TerminalConfigError,
};

verus! {

/// The settings file of Windows Terminal, below the local application data.
pub const STABLE_SETTINGS: &'static str =
    "\\Packages\\Microsoft.WindowsTerminal_8wekyb3d8bbwe\\LocalState\\settings.json";

/// The settings file of Windows Terminal Preview.
pub const PREVIEW_SETTINGS: &'static str =
    "\\Packages\\Microsoft.WindowsTerminalPreview_8wekyb3d8bbwe\\LocalState\\settings.json";

/// The settings file of a Windows Terminal that was installed without a
/// package.
pub const UNPACKAGED_SETTINGS: &'static str = "\\Microsoft\\Windows Terminal\\settings.json";

/// The error of a terminal without a settings file.
pub const SETTINGS_NOT_FOUND: &'static str = "Windows Terminal settings.json not found";

/// The configurator of Windows Terminal: it sets the font in the defaults of
/// every settings file that exists.
pub struct WindowsTerminalConfig {}

/// The places where a settings file may lie.
pub open spec fn settings_paths_of(local_appdata: Seq<char>) -> Seq<Seq<char>> {
    seq![
        local_appdata + STABLE_SETTINGS@,
        local_appdata + PREVIEW_SETTINGS@,
        local_appdata + UNPACKAGED_SETTINGS@,
    ]
}

impl WindowsTerminalConfig {
    pub fn new() -> (config: WindowsTerminalConfig) {
        WindowsTerminalConfig {  }
    }

    /// The places where a settings file may lie, given the directory of the
    /// local application data; none where that directory is not known.
    pub fn get_settings_paths(local_appdata: Option<&str>) -> (paths: Vec<String>)
        ensures
            names_of(paths@) == (match local_appdata {
                Some(directory) => settings_paths_of(directory@),
                None => Seq::empty(),
            }),
    {
        let mut paths: Vec<String> = Vec::new();
        match local_appdata {
            Some(directory) => {
                let mut stable = String::from_str(directory);
                stable.append(STABLE_SETTINGS);
                paths.push(stable);
                let mut preview = String::from_str(directory);
                preview.append(PREVIEW_SETTINGS);
                paths.push(preview);
                let mut unpackaged = String::from_str(directory);
                unpackaged.append(UNPACKAGED_SETTINGS);
                paths.push(unpackaged);
                assert(names_of(paths@) =~= settings_paths_of(directory@));
            },
            None => {
                assert(names_of(paths@) =~= Seq::<Seq<char>>::empty());
            },
        }
        paths
    }

    /// The new text of one settings file, with `font_name` as the font of
    /// the default profile.
    pub fn configure_file(&self, content: &str, font_name: &str) -> (result: Result<
        String,
        TerminalConfigError,
    >)
        ensures
            match settings_update(content@, font_name@) {
                Ok(text) => result is Ok && result->Ok_0@ == text,
                Err(error) => result == Err::<String, TerminalConfigError>(error),
            },
    {
        updated_settings(content, font_name)
    }

    /// The result of a configuration in which every settings file that exists
    /// was updated: an error where none exists.
    pub fn configure_result(&self, updated_files: usize) -> (result: Result<(), TerminalConfigError>)
        ensures
            result == (if updated_files > 0 {
                Ok::<(), TerminalConfigError>(())
            } else {
                Err::<(), TerminalConfigError>(TerminalConfigError::NotFound)
            }),
    {
        if updated_files > 0 {
            Ok(())
        } else {
            Err(TerminalConfigError::NotFound)
        }
    }

    /// Whether there is a terminal to configure: there is where one of the
    /// settings files exists.
    pub fn is_supported(&self, exists_at: &Vec<bool>) -> (supported: bool)
        ensures
            supported == exists_at@.contains(true),
    {
        let mut i: usize = 0;
        while i < exists_at.len()
            invariant
                i <= exists_at@.len(),
                forall|j: int| 0 <= j < i ==> !exists_at@[j],
            decreases exists_at@.len() - i,
        {
            if exists_at[i] {
                return true;
            }
            i = i + 1;
        }
        false
    }
}

impl Default for WindowsTerminalConfig {
    fn default() -> (config: WindowsTerminalConfig) {
        WindowsTerminalConfig::new()
    }
}

/// Where the update of one settings file stands.
#[derive(Debug, PartialEq, Eq)]
pub enum FontUpdateStage {
    /// Does the settings file at this position exist?
    Checking { position: usize },
    /// The settings file at this position is being read.
    Reading { position: usize },
    /// This text is being written to the settings file at this position.
    Writing { position: usize, text: String },
    /// Every settings file that exists was updated, and there was one.
    Done,
    /// The update failed.
    Failed(TerminalConfigError),
}

/// What came of the request of a stage.
#[derive(Debug, PartialEq, Eq)]
pub enum FontUpdateAnswer {
    /// The settings file exists, or does not.
    Exists(bool),
    /// The content of the settings file, or nothing where it could not be
    /// read.
    Content(Option<String>),
    /// The settings file was written, or could not be.
    Written(bool),
}

/// The mathematical value of a [`FontUpdateStage`].
pub ghost enum FontUpdateStageView {
    Checking { position: usize },
    Reading { position: usize },
    Writing { position: usize, text: Seq<char> },
    Done,
    Failed(TerminalConfigError),
}

impl View for FontUpdateStage {
    type V = FontUpdateStageView;

    open spec fn view(&self) -> FontUpdateStageView {
        match *self {
            FontUpdateStage::Checking { position } => FontUpdateStageView::Checking { position },
            FontUpdateStage::Reading { position } => FontUpdateStageView::Reading { position },
            FontUpdateStage::Writing { position, text } => FontUpdateStageView::Writing {
                position,
                text: text@,
            },
            FontUpdateStage::Done => FontUpdateStageView::Done,
            FontUpdateStage::Failed(error) => FontUpdateStageView::Failed(error),
        }
    }
}

/// The update of the terminal's font in every settings file that exists, one
/// file after the other in the order of their places: the decisions, apart
/// from the work on the files. The first failure ends the update.
pub struct FontUpdate {
    font_name: String,
    places: usize,
    updated: usize,
    stage: FontUpdateStage,
}

/// The mathematical value of a [`FontUpdate`]: the font, the number of
/// places where a settings file may lie, the number of files updated so far
/// and the stage.
pub ghost struct FontUpdateView {
    pub font_name: Seq<char>,
    pub places: nat,
    pub updated: nat,
    pub stage: FontUpdateStageView,
}

impl View for FontUpdate {
    type V = FontUpdateView;

    closed spec fn view(&self) -> FontUpdateView {
        FontUpdateView {
            font_name: self.font_name@,
            places: self.places as nat,
            updated: self.updated as nat,
            stage: self.stage@,
        }
    }
}

/// The update when the place at `position` is next: after the last place it
/// is done where a file was updated, and failed where none exists.
pub open spec fn at_place(update: FontUpdateView, position: nat) -> FontUpdateView {
    if position < update.places {
        FontUpdateView { stage: FontUpdateStageView::Checking { position: position as usize }, ..update }
    } else if update.updated > 0 {
        FontUpdateView { stage: FontUpdateStageView::Done, ..update }
    } else {
        FontUpdateView {
            stage: FontUpdateStageView::Failed(TerminalConfigError::NotFound),
            ..update
        }
    }
}

/// The update after an answer. A file that does not exist is passed over; one
/// that exists is read, its settings are given the font, and the new text is
/// written. A file that cannot be read, parsed, printed or written ends the
/// update with its error. An answer that the stage does not wait for changes
/// nothing.
pub open spec fn next_update(update: FontUpdateView, answer: FontUpdateAnswer) -> FontUpdateView {
    match (update.stage, answer) {
        (FontUpdateStageView::Checking { position }, FontUpdateAnswer::Exists(exists)) => if exists {
            FontUpdateView { stage: FontUpdateStageView::Reading { position }, ..update }
        } else {
            at_place(update, (position + 1) as nat)
        },
        (FontUpdateStageView::Reading { position }, FontUpdateAnswer::Content(content)) => match content {
            Some(text) => match settings_update(text@, update.font_name) {
                Ok(updated) => FontUpdateView {
                    stage: FontUpdateStageView::Writing { position, text: updated },
                    ..update
                },
                Err(error) => FontUpdateView { stage: FontUpdateStageView::Failed(error), ..update },
            },
            None => FontUpdateView {
                stage: FontUpdateStageView::Failed(TerminalConfigError::Read),
                ..update
            },
        },
        (FontUpdateStageView::Writing { position, text }, FontUpdateAnswer::Written(written)) => if written {
            at_place(FontUpdateView { updated: update.updated + 1, ..update }, (position + 1) as nat)
        } else {
            FontUpdateView { stage: FontUpdateStageView::Failed(TerminalConfigError::Write), ..update }
        },
        _ => update,
    }
}

/// What the bookkeeping of an update keeps: the current place is one of the
/// places, no more files were updated than places were passed, and an update
/// that is done has updated a file.
pub open spec fn update_is_well_formed(update: FontUpdateView) -> bool {
    &&& update.places <= usize::MAX
    &&& update.updated <= update.places
    &&& match update.stage {
        FontUpdateStageView::Checking { position } | FontUpdateStageView::Reading { position }
        | FontUpdateStageView::Writing { position, .. } => position < update.places && update.updated
            <= position,
        FontUpdateStageView::Done => update.updated > 0,
        FontUpdateStageView::Failed(_) => true,
    }
}

impl FontUpdate {
    /// The update of `places` settings files with `font_name`, at its
    /// beginning.
    pub fn start(font_name: &str, places: usize) -> (update: FontUpdate)
        ensures
            update@ == at_place(
                FontUpdateView {
                    font_name: font_name@,
                    places: places as nat,
                    updated: 0,
                    stage: FontUpdateStageView::Done,
                },
                0,
            ),
            update_is_well_formed(update@),
    {
        let mut update = FontUpdate {
            font_name: String::from_str(font_name),
            places,
            updated: 0,
            stage: FontUpdateStage::Done,
        };
        update.go_to(0);
        update
    }

    /// Moves to the place at `position`.
    fn go_to(&mut self, position: usize)
        requires
            old(self)@.updated <= position <= old(self)@.places,
            old(self)@.updated <= old(self)@.places,
        ensures
            final(self)@ == at_place(old(self)@, position as nat),
            update_is_well_formed(final(self)@),
    {
        if position < self.places {
            self.stage = FontUpdateStage::Checking { position };
        } else if self.updated > 0 {
            self.stage = FontUpdateStage::Done;
        } else {
            self.stage = FontUpdateStage::Failed(TerminalConfigError::NotFound);
        }
    }

    /// Where the update stands.
    pub fn stage(&self) -> (stage: &FontUpdateStage)
        ensures
            stage@ == self@.stage,
    {
        &self.stage
    }

    /// The result of an update that has ended, and nothing while it is under
    /// way.
    pub fn result(&self) -> (result: Option<Result<(), TerminalConfigError>>)
        ensures
            result == (match self@.stage {
                FontUpdateStageView::Done => Some(Ok::<(), TerminalConfigError>(())),
                FontUpdateStageView::Failed(error) => Some(Err::<(), TerminalConfigError>(error)),
                _ => None,
            }),
    {
        match &self.stage {
            FontUpdateStage::Done => Some(Ok(())),
            FontUpdateStage::Failed(error) => Some(Err(*error)),
            _ => None,
        }
    }

    /// Takes the answer to the request of the stage.
    pub fn step(&mut self, answer: FontUpdateAnswer)
        requires
            update_is_well_formed(old(self)@),
        ensures
            final(self)@ == next_update(old(self)@, answer),
            update_is_well_formed(final(self)@),
    {
        match &self.stage {
            FontUpdateStage::Checking { position } => {
                let position = *position;
                match answer {
                    FontUpdateAnswer::Exists(exists) => {
                        if exists {
                            self.stage = FontUpdateStage::Reading { position };
                        } else {
                            self.go_to(position + 1);
                        }
                    },
                    _ => {},
                }
            },
            FontUpdateStage::Reading { position } => {
                let position = *position;
                match answer {
                    FontUpdateAnswer::Content(Some(text)) => {
                        match updated_settings(text.as_str(), self.font_name.as_str()) {
                            Ok(updated) => {
                                self.stage = FontUpdateStage::Writing { position, text: updated };
                            },
                            Err(error) => {
                                self.stage = FontUpdateStage::Failed(error);
                            },
                        }
                    },
                    FontUpdateAnswer::Content(None) => {
                        self.stage = FontUpdateStage::Failed(TerminalConfigError::Read);
                    },
                    _ => {},
                }
            },
            FontUpdateStage::Writing { position, text } => {
                let position = *position;
                match answer {
                    FontUpdateAnswer::Written(written) => {
                        if written {
                            self.updated = self.updated + 1;
                            self.go_to(position + 1);
                        } else {
                            self.stage = FontUpdateStage::Failed(TerminalConfigError::Write);
                        }
                    },
                    _ => {},
                }
            },
            FontUpdateStage::Done => {},
            FontUpdateStage::Failed(_) => {},
        }
    }
}

/// The files are dealt with in the order of their places, a file is read
/// only where it exists and written only where its new text could be made,
/// and an update that has ended stays as it is: after the first failure
/// nothing more is read or written.
pub proof fn law_update_stops_at_the_first_failure(update: FontUpdateView, answer: FontUpdateAnswer)
    requires
        update_is_well_formed(update),
    ensures
        update_is_well_formed(next_update(update, answer)),
        update.stage is Done || update.stage is Failed ==> next_update(update, answer) == update,
        next_update(update, answer).stage is Reading && !(update.stage is Reading) ==> update.stage is Checking
            && answer == FontUpdateAnswer::Exists(true),
        next_update(update, answer).stage is Writing && !(update.stage is Writing) ==> update.stage is Reading
            && answer is Content && answer->Content_0 is Some && settings_update(
            answer->Content_0->Some_0@,
            update.font_name,
        ) == Ok::<Seq<char>, TerminalConfigError>(next_update(update, answer).stage->Writing_text),
        next_update(update, answer).stage is Done ==> next_update(update, answer).updated > 0,
        next_update(update, answer).updated >= update.updated,
{
}

} // verus!
