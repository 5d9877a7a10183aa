//! The settings, and how a new directory for the models is saved in them.

use vstd::prelude::*;

use crate::error::{done_view, result_view, Error, ErrorView};
use crate::location::{Location, LocationRef, LocationView};
use crate::text::trimmed;

verus! {

/// What the settings file holds.
#[derive(Debug, PartialEq, Eq)]
pub struct LocalSttSettings {
    /// The directory for the models that the user chose.
    pub models_base: Option<String>,
}

/// The value of [`LocalSttSettings`].
pub struct SettingsView {
    pub models_base: Option<Seq<char>>,
}

impl DeepView for LocalSttSettings {
    type V = SettingsView;

    open spec fn deep_view(&self) -> SettingsView {
        SettingsView { models_base: self.models_base.deep_view() }
    }
}

/// The directory that a text names: the text without outer white space, or
/// none where nothing else is in it.
pub open spec fn chosen_dir(path: Option<Seq<char>>) -> Option<Seq<char>> {
    match path {
        Some(path) => if trimmed(path).len() == 0 {
            None
        } else {
            Some(trimmed(path))
        },
        None => None,
    }
}

/// Removes outer white space from a path; a blank path counts as none.
pub fn normalize_models_base(path: Option<String>) -> (r: Option<String>)
    ensures
        r.deep_view() == chosen_dir(path.deep_view()),
{
    match path {
        Some(path) => {
            let path = path.as_str().trim();
            if path.is_empty() {
                None
            } else {
                Some(path.to_string())
            }
        },
        None => None,
    }
}

/// The directory for the models that the settings name. Without settings,
/// because the file is missing or cannot be understood, there is none.
pub open spec fn stored_dir(settings: Option<SettingsView>) -> Option<Seq<char>> {
    match settings {
        Some(settings) => chosen_dir(settings.models_base),
        None => None,
    }
}

/// The directory for the models that the settings name, if any.
pub fn read_custom_models_base(settings: &Option<LocalSttSettings>) -> (r: Option<String>)
    ensures
        r.deep_view() == stored_dir(settings.deep_view()),
{
    match settings {
        Some(settings) => normalize_models_base(settings.models_base.clone()),
        None => None,
    }
}

/// Create the directory that `file` lies in, which `dir` gives.
#[derive(Debug, PartialEq, Eq)]
pub struct CreateSettingsDir {
    /// The settings file.
    pub file: Location,
    /// The directory for the models that is to be saved.
    pub path: Option<String>,
}

/// Create the directory `path`.
#[derive(Debug, PartialEq, Eq)]
pub struct CreateModelsDir {
    pub file: Location,
    pub path: String,
}

/// Write `settings` down as text.
#[derive(Debug, PartialEq, Eq)]
pub struct EncodeSettings {
    pub file: Location,
    pub settings: LocalSttSettings,
}

/// Write `content` into `file`.
#[derive(Debug, PartialEq, Eq)]
pub struct WriteSettings {
    pub file: Location,
    pub content: String,
}

/// Find out whether `file` exists.
#[derive(Debug, PartialEq, Eq)]
pub struct CheckSettings {
    pub file: Location,
}

/// Remove `file`.
#[derive(Debug, PartialEq, Eq)]
pub struct RemoveSettings {
    pub file: Location,
}

/// Read the settings again, and find where models are kept now.
#[derive(Debug, PartialEq, Eq)]
pub struct ReadBack;

/// What to do next to save a directory for the models. Each step but the
/// last is work for the caller, who hands the result to its `resume`.
#[derive(Debug, PartialEq, Eq)]
pub enum PersistStep {
    CreateSettingsDir(CreateSettingsDir),
    CreateModelsDir(CreateModelsDir),
    Encode(EncodeSettings),
    Write(WriteSettings),
    Check(CheckSettings),
    Remove(RemoveSettings),
    ReadBack(ReadBack),
    /// The answer: where models are kept now.
    Done(Result<Location, Error>),
}

/// The value of a [`PersistStep`].
#[allow(inconsistent_fields)]
pub enum PersistStepView {
    CreateSettingsDir { file: LocationView, path: Option<Seq<char>> },
    CreateModelsDir { file: LocationView, path: Seq<char> },
    Encode { file: LocationView, settings: SettingsView },
    Write { file: LocationView, content: Seq<char> },
    Check { file: LocationView },
    Remove { file: LocationView },
    ReadBack,
    Done(Result<LocationView, ErrorView>),
}

impl DeepView for PersistStep {
    type V = PersistStepView;

    open spec fn deep_view(&self) -> PersistStepView {
        match self {
            PersistStep::CreateSettingsDir(s) => PersistStepView::CreateSettingsDir {
                file: s.file.deep_view(),
                path: s.path.deep_view(),
            },
            PersistStep::CreateModelsDir(s) => PersistStepView::CreateModelsDir {
                file: s.file.deep_view(),
                path: s.path@,
            },
            PersistStep::Encode(s) => PersistStepView::Encode {
                file: s.file.deep_view(),
                settings: s.settings.deep_view(),
            },
            PersistStep::Write(s) => PersistStepView::Write {
                file: s.file.deep_view(),
                content: s.content@,
            },
            PersistStep::Check(s) => PersistStepView::Check { file: s.file.deep_view() },
            PersistStep::Remove(s) => PersistStepView::Remove { file: s.file.deep_view() },
            PersistStep::ReadBack(_) => PersistStepView::ReadBack,
            PersistStep::Done(Ok(base)) => PersistStepView::Done(Ok(base.deep_view())),
            PersistStep::Done(Err(e)) => PersistStepView::Done(Err(e.deep_view())),
        }
    }
}

impl PersistStepView {
    /// The end of the attempt, because of `reason`.
    pub open spec fn failed(reason: Seq<char>) -> PersistStepView {
        PersistStepView::Done(Err(ErrorView::LocalSettingsFailed(reason)))
    }

    /// What follows the attempt to create the directory of `file`: a path is
    /// saved after its directory was made; without one the file is to go.
    pub open spec fn after_settings_dir(
        file: LocationView,
        path: Option<Seq<char>>,
        created: Result<(), Seq<char>>,
    ) -> PersistStepView {
        match created {
            Ok(_) => match path {
                Some(path) => PersistStepView::CreateModelsDir { file, path },
                None => PersistStepView::Check { file },
            },
            Err(reason) => PersistStepView::failed(reason),
        }
    }

    /// What follows the attempt to create the directory `path`: the settings
    /// that name it are written.
    pub open spec fn after_models_dir(
        file: LocationView,
        path: Seq<char>,
        created: Result<(), Seq<char>>,
    ) -> PersistStepView {
        match created {
            Ok(_) => PersistStepView::Encode {
                file,
                settings: SettingsView { models_base: Some(path) },
            },
            Err(reason) => PersistStepView::failed(reason),
        }
    }

    /// What follows the attempt to write the settings down as text: the text
    /// goes into `file`.
    pub open spec fn after_encoding(
        file: LocationView,
        encoded: Result<Seq<char>, Seq<char>>,
    ) -> PersistStepView {
        match encoded {
            Ok(content) => PersistStepView::Write { file, content },
            Err(reason) => PersistStepView::failed(reason),
        }
    }

    /// What follows the search for `file`: a file that is there is removed.
    pub open spec fn after_check(file: LocationView, exists: bool) -> PersistStepView {
        if exists {
            PersistStepView::Remove { file }
        } else {
            PersistStepView::ReadBack
        }
    }

    /// What follows the last change to the settings file.
    pub open spec fn after_change(changed: Result<(), Seq<char>>) -> PersistStepView {
        match changed {
            Ok(_) => PersistStepView::ReadBack,
            Err(reason) => PersistStepView::failed(reason),
        }
    }
}

/// Starts to save `path` as the directory for the models in `file`; without
/// a path the saved choice is forgotten.
pub fn persist_models_base(file: Location, path: Option<String>) -> (r: PersistStep)
    ensures
        r.deep_view() == (PersistStepView::CreateSettingsDir {
            file: file.deep_view(),
            path: path.deep_view(),
        }),
{
    PersistStep::CreateSettingsDir(CreateSettingsDir { file, path })
}

impl CreateSettingsDir {
    /// The directory to create: the one that the settings file lies in.
    pub fn dir(&self) -> (r: Option<LocationRef<'_>>)
        ensures
            r.deep_view() == self.file.deep_view().parent(),
    {
        self.file.parent()
    }

    /// A path is saved after its directory was made; without one the file
    /// is to go.
    pub fn resume(self, created: Result<(), String>) -> (r: PersistStep)
        ensures
            r.deep_view() == PersistStepView::after_settings_dir(
                self.file.deep_view(),
                self.path.deep_view(),
                done_view(created),
            ),
    {
        match created {
            Ok(_) => match self.path {
                Some(path) => PersistStep::CreateModelsDir(
                    CreateModelsDir { file: self.file, path },
                ),
                None => PersistStep::Check(CheckSettings { file: self.file }),
            },
            Err(reason) => PersistStep::Done(Err(Error::LocalSettingsFailed(reason))),
        }
    }
}

impl CreateModelsDir {
    /// Once the directory is there, the settings that name it are written.
    pub fn resume(self, created: Result<(), String>) -> (r: PersistStep)
        ensures
            r.deep_view() == PersistStepView::after_models_dir(
                self.file.deep_view(),
                self.path@,
                done_view(created),
            ),
    {
        match created {
            Ok(_) => PersistStep::Encode(
                EncodeSettings {
                    file: self.file,
                    settings: LocalSttSettings { models_base: Some(self.path) },
                },
            ),
            Err(reason) => PersistStep::Done(Err(Error::LocalSettingsFailed(reason))),
        }
    }
}

impl EncodeSettings {
    /// The text goes into the settings file.
    pub fn resume(self, encoded: Result<String, String>) -> (r: PersistStep)
        ensures
            r.deep_view() == PersistStepView::after_encoding(
                self.file.deep_view(),
                result_view(encoded),
            ),
    {
        match encoded {
            Ok(content) => PersistStep::Write(WriteSettings { file: self.file, content }),
            Err(reason) => PersistStep::Done(Err(Error::LocalSettingsFailed(reason))),
        }
    }
}

impl WriteSettings {
    /// The settings are saved.
    pub fn resume(self, written: Result<(), String>) -> (r: PersistStep)
        ensures
            r.deep_view() == PersistStepView::after_change(done_view(written)),
    {
        match written {
            Ok(_) => PersistStep::ReadBack(ReadBack),
            Err(reason) => PersistStep::Done(Err(Error::LocalSettingsFailed(reason))),
        }
    }
}

impl CheckSettings {
    /// A file that is there is removed.
    pub fn resume(self, exists: bool) -> (r: PersistStep)
        ensures
            r.deep_view() == PersistStepView::after_check(self.file.deep_view(), exists),
    {
        if exists {
            PersistStep::Remove(RemoveSettings { file: self.file })
        } else {
            PersistStep::ReadBack(ReadBack)
        }
    }
}

impl RemoveSettings {
    /// The choice is forgotten.
    pub fn resume(self, removed: Result<(), String>) -> (r: PersistStep)
        ensures
            r.deep_view() == PersistStepView::after_change(done_view(removed)),
    {
        match removed {
            Ok(_) => PersistStep::ReadBack(ReadBack),
            Err(reason) => PersistStep::Done(Err(Error::LocalSettingsFailed(reason))),
        }
    }
}

impl ReadBack {
    /// The answer is where models are kept now.
    pub fn resume(self, base: Location) -> (r: PersistStep)
        ensures
            r.deep_view() == PersistStepView::Done(Ok(base.deep_view())),
    {
        PersistStep::Done(Ok(base))
    }
}

} // verus!
