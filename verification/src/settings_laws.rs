//! What holds of a whole attempt to save a directory for the models.

use std::path::PathBuf;

use vstd::prelude::*;

use crate::error::{done_view, result_view, Error, ErrorView};
use crate::location::{
    app_root_of, default_models_base_at, Location, LocationRef, LocationView, RootView,
};
use crate::plugin::models_base_of;
use crate::settings::{
    chosen_dir, persist_models_base, stored_dir, CheckSettings, CreateModelsDir, CreateSettingsDir,
    EncodeSettings, PersistStep, PersistStepView, ReadBack, RemoveSettings, SettingsView,
    WriteSettings,
};
use crate::text::{is_blank, is_core_of, trimmed_twice, trimming_leaves_the_core};

verus! {

/// What the steps of one attempt are answered.
pub struct PersistWorld {
    /// Whether the directory of the settings file could be created.
    pub settings_dir: Result<(), Seq<char>>,
    /// Whether the directory for the models could be created.
    pub models_dir: Result<(), Seq<char>>,
    /// The settings as text.
    pub encoded: Result<Seq<char>, Seq<char>>,
    /// Whether the settings file could be written.
    pub written: Result<(), Seq<char>>,
    /// Whether there is a settings file.
    pub exists: bool,
    /// Whether the settings file could be removed.
    pub removed: Result<(), Seq<char>>,
    /// Where models are kept in the end.
    pub base: LocationView,
}

/// The step that follows `step` where it is answered as in `w`.
pub open spec fn next_step(step: PersistStepView, w: PersistWorld) -> PersistStepView {
    match step {
        PersistStepView::CreateSettingsDir {
            file,
            path,
        } => PersistStepView::after_settings_dir(file, path, w.settings_dir),
        PersistStepView::CreateModelsDir { file, path } => PersistStepView::after_models_dir(
            file,
            path,
            w.models_dir,
        ),
        PersistStepView::Encode { file, .. } => PersistStepView::after_encoding(file, w.encoded),
        PersistStepView::Write { .. } => PersistStepView::after_change(w.written),
        PersistStepView::Check { file } => PersistStepView::after_check(file, w.exists),
        PersistStepView::Remove { .. } => PersistStepView::after_change(w.removed),
        PersistStepView::ReadBack => PersistStepView::Done(Ok(w.base)),
        PersistStepView::Done(_) => step,
    }
}

/// How many steps can follow `step` at most.
pub open spec fn steps_left(step: PersistStepView) -> nat {
    match step {
        PersistStepView::CreateSettingsDir { .. } => 5,
        PersistStepView::CreateModelsDir { .. } => 4,
        PersistStepView::Encode { .. } => 3,
        PersistStepView::Write { .. } => 2,
        PersistStepView::Check { .. } => 3,
        PersistStepView::Remove { .. } => 2,
        PersistStepView::ReadBack => 1,
        PersistStepView::Done(_) => 0,
    }
}

/// The answer that an attempt comes to from `step` on.
pub open spec fn answer_from(step: PersistStepView, w: PersistWorld) -> Result<
    LocationView,
    ErrorView,
>
    decreases steps_left(step),
{
    match step {
        PersistStepView::Done(answer) => answer,
        _ => answer_from(next_step(step, w), w),
    }
}

/// The steps of an attempt from `step` on, up to the answer.
pub open spec fn steps_from(step: PersistStepView, w: PersistWorld) -> Seq<PersistStepView>
    decreases steps_left(step),
{
    if step is Done {
        seq![step]
    } else {
        seq![step] + steps_from(next_step(step, w), w)
    }
}

/// What `file` holds at the end of an attempt, from `step` on, where it holds
/// `content` before. `None` stands for no file. What a file holds after an
/// attempt to write it failed is not known.
pub open spec fn file_after(
    step: PersistStepView,
    w: PersistWorld,
    file: LocationView,
    content: Option<Seq<char>>,
) -> Option<Seq<char>>
    decreases steps_left(step),
{
    let changed = match step {
        PersistStepView::Write { file: f, content: new } if f == file => if w.written is Ok {
            Some(new)
        } else {
            arbitrary()
        },
        PersistStepView::Remove { file: f } if f == file => if w.removed is Ok {
            None
        } else {
            content
        },
        _ => content,
    };
    if step is Done {
        changed
    } else {
        file_after(next_step(step, w), w, file, changed)
    }
}

/// The answer to a request to save `path`.
pub open spec fn persist_answer(path: Option<Seq<char>>, w: PersistWorld) -> Result<
    LocationView,
    ErrorView,
> {
    let failure = if w.settings_dir is Err {
        Some(w.settings_dir->Err_0)
    } else if path is Some && w.models_dir is Err {
        Some(w.models_dir->Err_0)
    } else if path is Some && w.encoded is Err {
        Some(w.encoded->Err_0)
    } else if path is Some && w.written is Err {
        Some(w.written->Err_0)
    } else if path is None && w.exists && w.removed is Err {
        Some(w.removed->Err_0)
    } else {
        None
    };
    match failure {
        Some(reason) => Err(ErrorView::LocalSettingsFailed(reason)),
        None => Ok(w.base),
    }
}

/// The answer of a whole attempt: the first failure in the order of the
/// work, or else where models are kept now.
pub proof fn attempt_gives_the_answer(
    file: LocationView,
    path: Option<Seq<char>>,
    w: PersistWorld,
)
    ensures
        answer_from(PersistStepView::CreateSettingsDir { file, path }, w) == persist_answer(
            path,
            w,
        ),
{
    reveal_with_fuel(answer_from, 7);
}

/// After an attempt that succeeds, the settings file holds the new settings,
/// or is gone where no directory was chosen.
pub proof fn success_changes_the_file(
    file: LocationView,
    path: Option<Seq<char>>,
    w: PersistWorld,
    content: Option<Seq<char>>,
)
    requires
        w.exists == (content is Some),
        persist_answer(path, w) is Ok,
    ensures
        file_after(PersistStepView::CreateSettingsDir { file, path }, w, file, content) == (
        if path is Some {
            Some(w.encoded->Ok_0)
        } else {
            None
        }),
{
    reveal_with_fuel(file_after, 7);
}

/// An attempt that fails, and not because the settings could not be written
/// into their file, leaves that file as it is.
pub proof fn failure_leaves_the_file(
    file: LocationView,
    path: Option<Seq<char>>,
    w: PersistWorld,
    content: Option<Seq<char>>,
)
    requires
        persist_answer(path, w) is Err,
        path is Some && w.settings_dir is Ok && w.models_dir is Ok && w.encoded is Ok
            ==> w.written is Ok,
    ensures
        file_after(PersistStepView::CreateSettingsDir { file, path }, w, file, content) == content,
{
    reveal_with_fuel(file_after, 7);
}

/// What is written as text is the directory that was chosen, and nothing is
/// written without one.
pub proof fn the_choice_is_what_is_encoded(
    file: LocationView,
    path: Option<Seq<char>>,
    w: PersistWorld,
)
    ensures
        ({
            let first = PersistStepView::CreateSettingsDir { file, path };
            let second = next_step(first, w);
            let third = next_step(second, w);
            third is Encode <==> path is Some && w.settings_dir is Ok && w.models_dir is Ok
        }),
        ({
            let first = PersistStepView::CreateSettingsDir { file, path };
            let second = next_step(first, w);
            let third = next_step(second, w);
            third is Encode ==> third == (PersistStepView::Encode {
                file,
                settings: SettingsView { models_base: path },
            })
        }),
{
}

/// A directory that was chosen is read back from the settings as it was
/// saved.
pub proof fn a_chosen_dir_is_read_back(path: Option<Seq<char>>)
    ensures
        stored_dir(Some(SettingsView { models_base: chosen_dir(path) })) == chosen_dir(path),
{
    if let Some(p) = path {
        trimmed_twice(p);
    }
}

/// The settings that a settings file holds, as `decode` understands text.
pub open spec fn settings_in(
    content: Option<Seq<char>>,
    decode: spec_fn(Seq<char>) -> Option<SettingsView>,
) -> Option<SettingsView> {
    match content {
        Some(text) => decode(text),
        None => None,
    }
}

/// What was saved is what is read. After the attempt to save any `path`
/// succeeded, the settings name the directory that `path` names, that is the
/// path without outer white space, and none where it is blank or missing.
/// `decode` is how the text of the settings is understood; it gives back the
/// settings that were written.
pub proof fn persist_then_read(
    file: LocationView,
    path: Option<Seq<char>>,
    w: PersistWorld,
    before: Option<Seq<char>>,
    decode: spec_fn(Seq<char>) -> Option<SettingsView>,
)
    requires
        w.exists == (before is Some),
        answer_from(PersistStepView::CreateSettingsDir { file, path }, w) is Ok,
        path is Some ==> decode(w.encoded->Ok_0) == Some(SettingsView { models_base: path }),
    ensures
        stored_dir(
            settings_in(
                file_after(PersistStepView::CreateSettingsDir { file, path }, w, file, before),
                decode,
            ),
        ) == chosen_dir(path),
{
    attempt_gives_the_answer(file, path, w);
    success_changes_the_file(file, path, w, before);
}

/// Setting the directory and asking for it give the same place. After the
/// request for `input` succeeded, models are kept in the directory that
/// `input` names, or in the default one where it names none. Where the
/// settings are read back as they are then, this place is the answer to the
/// request too. `decode` is how the text of the settings is understood; it
/// gives back the settings that were written.
pub proof fn set_then_read(
    file: LocationView,
    input: Option<Seq<char>>,
    w: PersistWorld,
    before: Option<Seq<char>>,
    decode: spec_fn(Seq<char>) -> Option<SettingsView>,
    global_base: Option<Seq<char>>,
    data_dir: Option<PathBuf>,
)
    requires
        w.exists == (before is Some),
        persist_answer(chosen_dir(input), w) is Ok,
        chosen_dir(input) is Some ==> decode(w.encoded->Ok_0) == Some(
            SettingsView { models_base: chosen_dir(input) },
        ),
    ensures
        ({
            let first = PersistStepView::CreateSettingsDir { file, path: chosen_dir(input) };
            let after = settings_in(file_after(first, w, file, before), decode);
            let place = match chosen_dir(input) {
                Some(path) => LocationView::at(RootView::Custom(path)),
                None => default_models_base_at(app_root_of(global_base, data_dir)),
            };
            &&& models_base_of(global_base, after, data_dir) == place
            &&& w.base == models_base_of(global_base, after, data_dir) ==> answer_from(first, w)
                == Ok::<LocationView, ErrorView>(place)
        }),
{
    attempt_gives_the_answer(file, chosen_dir(input), w);
    persist_then_read(file, chosen_dir(input), w, before, decode);
    a_chosen_dir_is_read_back(input);
}

/// What a step of the attempt to save `path` in `file` may be: it names that
/// file, and no other directory than `path`.
pub open spec fn is_step_for(
    step: PersistStepView,
    file: LocationView,
    path: Option<Seq<char>>,
    w: PersistWorld,
) -> bool {
    match step {
        PersistStepView::CreateSettingsDir { file: f, path: p } => f == file && p == path,
        PersistStepView::CreateModelsDir { file: f, path: p } => f == file && path == Some(p),
        PersistStepView::Encode { file: f, settings } => f == file && path is Some
            && settings.models_base == path,
        PersistStepView::Write { file: f, content } => f == file && path is Some && w.encoded
            == Ok::<Seq<char>, Seq<char>>(content),
        PersistStepView::Check { file: f } => f == file && path is None,
        PersistStepView::Remove { file: f } => f == file && path is None && w.exists,
        PersistStepView::ReadBack => true,
        PersistStepView::Done(_) => true,
    }
}

proof fn lemma_steps_are_for_the_file(
    step: PersistStepView,
    file: LocationView,
    path: Option<Seq<char>>,
    w: PersistWorld,
    i: int,
)
    requires
        is_step_for(step, file, path, w),
        0 <= i < steps_from(step, w).len(),
    ensures
        is_step_for(steps_from(step, w)[i], file, path, w),
    decreases steps_left(step),
{
    if !(step is Done) && i > 0 {
        let next = next_step(step, w);
        assert(is_step_for(next, file, path, w));
        lemma_steps_are_for_the_file(next, file, path, w, i - 1);
        assert(steps_from(step, w)[i] == steps_from(next, w)[i - 1]);
    }
}

/// An attempt to save `path` in `file` touches nothing else: every step that
/// writes, looks for or removes a file names `file`, the directory of `file`
/// and `path` are the only ones that are created, and the settings that are
/// written name `path`.
pub proof fn only_the_settings_are_touched(
    file: LocationView,
    path: Option<Seq<char>>,
    w: PersistWorld,
    i: int,
)
    requires
        0 <= i < steps_from(PersistStepView::CreateSettingsDir { file, path }, w).len(),
    ensures
        is_step_for(
            steps_from(PersistStepView::CreateSettingsDir { file, path }, w)[i],
            file,
            path,
            w,
        ),
{
    lemma_steps_are_for_the_file(
        PersistStepView::CreateSettingsDir { file, path },
        file,
        path,
        w,
        i,
    );
}

/// An attempt ends with its answer after six steps at most, and no step
/// before the last is an answer.
pub proof fn every_attempt_ends(step: PersistStepView, w: PersistWorld)
    ensures
        1 <= steps_from(step, w).len() <= steps_left(step) + 1,
        steps_from(step, w)[0] == step,
        steps_from(step, w).last() == PersistStepView::Done(answer_from(step, w)),
        forall|i: int|
            0 <= i < steps_from(step, w).len() - 1 ==> !(#[trigger] steps_from(step, w)[i] is Done),
    decreases steps_left(step),
{
    if !(step is Done) {
        let rest = steps_from(next_step(step, w), w);
        every_attempt_ends(next_step(step, w), w);
        assert forall|i: int| 0 <= i < steps_from(step, w).len() - 1 implies !(
        #[trigger] steps_from(step, w)[i] is Done) by {
            if i > 0 {
                assert(steps_from(step, w)[i] == rest[i - 1]);
            }
        }
    }
}

/// The end of an attempt that failed because of `reason`.
pub open spec fn is_failure(step: PersistStepView, reason: Seq<char>) -> bool {
    step == PersistStepView::Done(Err(ErrorView::LocalSettingsFailed(reason)))
}

/// The work to save a directory: the directory of the settings file is
/// created, then the directory itself, the settings that name it are written
/// down as text, and the text goes into the file; then the settings are read
/// again. The first of these that fails ends the attempt with its reason.
pub proof fn a_directory_is_saved_in_order(file: LocationView, path: Seq<char>, w: PersistWorld)
    ensures
        ({
            let steps = steps_from(
                PersistStepView::CreateSettingsDir { file, path: Some(path) },
                w,
            );
            let tried_dirs = w.settings_dir is Ok && w.models_dir is Ok;
            &&& steps[0] == PersistStepView::CreateSettingsDir { file, path: Some(path) }
            &&& w.settings_dir is Err ==> steps.len() == 2 && is_failure(
                steps[1],
                w.settings_dir->Err_0,
            )
            &&& w.settings_dir is Ok ==> steps.len() >= 3 && steps[1]
                == PersistStepView::CreateModelsDir { file, path }
            &&& w.settings_dir is Ok && w.models_dir is Err ==> steps.len() == 3 && is_failure(
                steps[2],
                w.models_dir->Err_0,
            )
            &&& tried_dirs ==> steps.len() >= 4 && steps[2] == PersistStepView::Encode {
                file,
                settings: SettingsView { models_base: Some(path) },
            }
            &&& tried_dirs && w.encoded is Err ==> steps.len() == 4 && is_failure(
                steps[3],
                w.encoded->Err_0,
            )
            &&& tried_dirs && w.encoded is Ok ==> steps.len() >= 5 && steps[3]
                == PersistStepView::Write { file, content: w.encoded->Ok_0 }
            &&& tried_dirs && w.encoded is Ok && w.written is Err ==> steps.len() == 5
                && is_failure(steps[4], w.written->Err_0)
            &&& tried_dirs && w.encoded is Ok && w.written is Ok ==> steps.len() == 6 && steps[4]
                == PersistStepView::ReadBack && steps[5] == PersistStepView::Done(Ok(w.base))
        }),
{
    reveal_with_fuel(steps_from, 7);
}

/// The work to forget the choice: the directory of the settings file is
/// created, and the file is removed if it is there; then the settings are
/// read again. The first of these that fails ends the attempt with its
/// reason.
pub proof fn a_choice_is_forgotten_in_order(file: LocationView, w: PersistWorld)
    ensures
        ({
            let steps = steps_from(PersistStepView::CreateSettingsDir { file, path: None }, w);
            &&& steps[0] == PersistStepView::CreateSettingsDir { file, path: None }
            &&& w.settings_dir is Err ==> steps.len() == 2 && is_failure(
                steps[1],
                w.settings_dir->Err_0,
            )
            &&& w.settings_dir is Ok ==> steps.len() >= 4 && steps[1] == PersistStepView::Check {
                file,
            }
            &&& w.settings_dir is Ok && !w.exists ==> steps.len() == 4 && steps[2]
                == PersistStepView::ReadBack && steps[3] == PersistStepView::Done(Ok(w.base))
            &&& w.settings_dir is Ok && w.exists ==> steps[2] == PersistStepView::Remove { file }
            &&& w.settings_dir is Ok && w.exists && w.removed is Err ==> steps.len() == 4
                && is_failure(steps[3], w.removed->Err_0)
            &&& w.settings_dir is Ok && w.exists && w.removed is Ok ==> steps.len() == 5 && steps[3]
                == PersistStepView::ReadBack && steps[4] == PersistStepView::Done(Ok(w.base))
        }),
{
    reveal_with_fuel(steps_from, 7);
}

/// What is saved of a path, and what saved settings name, is the path without
/// the white space around it; a path that is missing or blank names nothing.
pub proof fn a_path_names_its_core(path: Option<Seq<char>>)
    ensures
        chosen_dir(path) is None <==> path is None || is_blank(path->0),
        chosen_dir(path) matches Some(dir) ==> is_core_of(dir, path->0),
        stored_dir(Some(SettingsView { models_base: path })) == chosen_dir(path),
        stored_dir(None) is None,
{
    if let Some(p) = path {
        trimming_leaves_the_core(p);
    }
}

/// Whether an attempt ended because of `reason`.
pub open spec fn ends_with(step: PersistStep, reason: String) -> bool {
    step matches PersistStep::Done(Err(Error::LocalSettingsFailed(told))) && told@ == reason@
}

/// An attempt begins with the directory of the settings file, the place right
/// above that file.
pub proof fn an_attempt_begins_with_the_settings_dir(
    file: Location,
    path: Option<String>,
    first: PersistStep,
    step: CreateSettingsDir,
    dir: Option<LocationRef<'_>>,
)
    requires
        call_ensures(persist_models_base, (file, path), first),
        call_ensures(CreateSettingsDir::dir, (&step,), dir),
    ensures
        first matches PersistStep::CreateSettingsDir(s) && s.file.deep_view() == file.deep_view()
            && s.path.deep_view() == path.deep_view(),
        dir is None <==> step.file.segments@.len() == 0,
        dir matches Some(d) ==> d.root.deep_view() == step.file.root.deep_view()
            && d.segments.deep_view() == step.file.segments.deep_view().drop_last(),
{
    assert(step.file.segments.deep_view().len() == step.file.segments@.len());
}

/// Once the directory of the settings file is there, the directory that was
/// chosen is created, or the file is looked for where none was chosen. Once
/// that directory is there, the settings that name it are written down.
pub proof fn directories_come_first(
    settings_dir: CreateSettingsDir,
    models_dir: CreateModelsDir,
    created: Result<(), String>,
    second: PersistStep,
    third: PersistStep,
)
    requires
        call_ensures(CreateSettingsDir::resume, (settings_dir, created), second),
        call_ensures(CreateModelsDir::resume, (models_dir, created), third),
    ensures
        created matches Err(reason) ==> ends_with(second, reason) && ends_with(third, reason),
        created is Ok && settings_dir.path is Some ==> (second matches PersistStep::CreateModelsDir(
            s,
        ) && s.file.deep_view() == settings_dir.file.deep_view() && s.path@
            == settings_dir.path->0@),
        created is Ok && settings_dir.path is None ==> (second matches PersistStep::Check(s)
            && s.file.deep_view() == settings_dir.file.deep_view()),
        created is Ok ==> (third matches PersistStep::Encode(s) && s.file.deep_view()
            == models_dir.file.deep_view() && s.settings.models_base.deep_view() == Some(
            models_dir.path@,
        )),
{
}

/// The text of the settings is what is written into their file, and nothing
/// else; after that the settings are read again.
pub proof fn the_text_is_written(
    encode: EncodeSettings,
    encoded: Result<String, String>,
    second: PersistStep,
    write: WriteSettings,
    written: Result<(), String>,
    third: PersistStep,
)
    requires
        call_ensures(EncodeSettings::resume, (encode, encoded), second),
        call_ensures(WriteSettings::resume, (write, written), third),
    ensures
        encoded matches Ok(content) ==> (second matches PersistStep::Write(s) && s.file.deep_view()
            == encode.file.deep_view() && s.content@ == content@),
        encoded matches Err(reason) ==> ends_with(second, reason),
        written is Ok ==> third is ReadBack,
        written matches Err(reason) ==> ends_with(third, reason),
{
}

/// A settings file is removed exactly if it is there; after that the settings
/// are read again. What is found then is the answer.
pub proof fn an_old_file_is_removed(
    check: CheckSettings,
    there: bool,
    second: PersistStep,
    remove: RemoveSettings,
    removed: Result<(), String>,
    third: PersistStep,
    read: ReadBack,
    base: Location,
    last: PersistStep,
)
    requires
        call_ensures(CheckSettings::resume, (check, there), second),
        call_ensures(RemoveSettings::resume, (remove, removed), third),
        call_ensures(ReadBack::resume, (read, base), last),
    ensures
        there ==> (second matches PersistStep::Remove(s) && s.file.deep_view()
            == check.file.deep_view()),
        !there ==> second is ReadBack,
        removed is Ok ==> third is ReadBack,
        removed matches Err(reason) ==> ends_with(third, reason),
        last matches PersistStep::Done(Ok(place)) && place.deep_view() == base.deep_view(),
{
}

/// The steps of an attempt that is carried out are those of the attempt with
/// the same answers: `resume` gives the step that follows.
pub proof fn resumed_steps_follow_each_other(w: PersistWorld)
    ensures
        forall|s: CreateSettingsDir, a: Result<(), String>, r: PersistStep| #[trigger]
            call_ensures(CreateSettingsDir::resume, (s, a), r) && w.settings_dir
                == done_view(a) ==> r.deep_view() == next_step(
                PersistStep::CreateSettingsDir(s).deep_view(),
                w,
            ),
        forall|s: CreateModelsDir, a: Result<(), String>, r: PersistStep| #[trigger]
            call_ensures(CreateModelsDir::resume, (s, a), r) && w.models_dir
                == done_view(a) ==> r.deep_view() == next_step(
                PersistStep::CreateModelsDir(s).deep_view(),
                w,
            ),
        forall|s: EncodeSettings, a: Result<String, String>, r: PersistStep| #[trigger]
            call_ensures(EncodeSettings::resume, (s, a), r) && w.encoded
                == result_view(a) ==> r.deep_view() == next_step(
                PersistStep::Encode(s).deep_view(),
                w,
            ),
        forall|s: WriteSettings, a: Result<(), String>, r: PersistStep| #[trigger]
            call_ensures(WriteSettings::resume, (s, a), r) && w.written
                == done_view(a) ==> r.deep_view() == next_step(
                PersistStep::Write(s).deep_view(),
                w,
            ),
        forall|s: CheckSettings, there: bool, r: PersistStep| #[trigger]
            call_ensures(CheckSettings::resume, (s, there), r) && w.exists == there
                ==> r.deep_view() == next_step(PersistStep::Check(s).deep_view(), w),
        forall|s: RemoveSettings, a: Result<(), String>, r: PersistStep| #[trigger]
            call_ensures(RemoveSettings::resume, (s, a), r) && w.removed
                == done_view(a) ==> r.deep_view() == next_step(
                PersistStep::Remove(s).deep_view(),
                w,
            ),
        forall|s: ReadBack, base: Location, r: PersistStep| #[trigger]
            call_ensures(ReadBack::resume, (s, base), r) && w.base == base.deep_view()
                ==> r.deep_view() == next_step(PersistStep::ReadBack(s).deep_view(), w),
{
}

} // verus!
