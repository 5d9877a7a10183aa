//! Places in the file system: a root directory and the names below it.
//!
//! Which character separates names, and how a root is written, is up to the
//! machine, so a place is kept as its parts. The caller turns it into a path
//! by joining them in order.

use std::path::PathBuf;

use vstd::prelude::*;

verus! {

/// `std::path::PathBuf`: a path of the machine, carried through unread.
#[verifier::external_type_specification]
#[verifier::external_body]
pub struct ExPathBuf(PathBuf);

/// `dirs::data_dir` looks up the directory for user data. What it finds
/// depends on the environment and the operating system, so nothing is
/// claimed of its result.
pub assume_specification[ dirs::data_dir ]() -> (r: Option<PathBuf>)
;

/// Whether looking up the directory for user data gave `found`. This is known
/// only of a lookup that was made.
pub open spec fn data_dir_gave(found: Option<PathBuf>) -> bool {
    call_ensures(dirs::data_dir, (), found)
}

/// The file that holds the settings.
pub const LOCAL_STT_SETTINGS_FILENAME: &'static str = "local-stt.json";

/// Where a place begins.
#[derive(Debug, PartialEq, Eq)]
pub enum Root {
    /// The base directory of the application, as its settings give it.
    GlobalBase(String),
    /// The directory for user data.
    DataDir(PathBuf),
    /// The empty path.
    Empty,
    /// A directory that the user chose.
    Custom(String),
}

/// The value of a [`Root`].
pub enum RootView {
    GlobalBase(Seq<char>),
    DataDir(PathBuf),
    Empty,
    Custom(Seq<char>),
}

impl DeepView for Root {
    type V = RootView;

    open spec fn deep_view(&self) -> RootView {
        match self {
            Root::GlobalBase(path) => RootView::GlobalBase(path@),
            Root::DataDir(path) => RootView::DataDir(*path),
            Root::Empty => RootView::Empty,
            Root::Custom(path) => RootView::Custom(path@),
        }
    }
}

/// A root and the names to join to it, the outermost first.
#[derive(Debug, PartialEq, Eq)]
pub struct Location {
    pub root: Root,
    pub segments: Vec<String>,
}

/// The value of a [`Location`].
#[verifier::ext_equal]
pub struct LocationView {
    pub root: RootView,
    pub segments: Seq<Seq<char>>,
}

impl DeepView for Location {
    type V = LocationView;

    open spec fn deep_view(&self) -> LocationView {
        LocationView { root: self.root.deep_view(), segments: self.segments.deep_view() }
    }
}

/// A place inside another [`Location`] that is borrowed.
#[derive(Debug, PartialEq, Eq)]
pub struct LocationRef<'a> {
    pub root: &'a Root,
    pub segments: &'a [String],
}

impl<'a> DeepView for LocationRef<'a> {
    type V = LocationView;

    open spec fn deep_view(&self) -> LocationView {
        LocationView { root: self.root.deep_view(), segments: self.segments.deep_view() }
    }
}

impl LocationView {
    /// The place itself, with no name below the root.
    pub open spec fn at(root: RootView) -> LocationView {
        LocationView { root, segments: Seq::empty() }
    }

    /// The place called `name` inside this one.
    pub open spec fn join(self, name: Seq<char>) -> LocationView {
        LocationView { root: self.root, segments: self.segments.push(name) }
    }

    /// The place that this one is inside of; `None` where no name was joined
    /// to the root.
    pub open spec fn parent(self) -> Option<LocationView> {
        if self.segments.len() == 0 {
            None
        } else {
            Some(LocationView { root: self.root, segments: self.segments.drop_last() })
        }
    }
}

impl Location {
    /// The root itself.
    pub fn at(root: Root) -> (r: Location)
        ensures
            r.deep_view() == LocationView::at(root.deep_view()),
    {
        let r = Location { root, segments: Vec::new() };
        assert(r.segments.deep_view() =~= Seq::<Seq<char>>::empty());
        r
    }

    /// The place called `name` inside this one.
    pub fn join(self, name: &str) -> (r: Location)
        ensures
            r.deep_view() == self.deep_view().join(name@),
    {
        let mut segments = self.segments;
        segments.push(name.to_string());
        assert(segments.deep_view() =~= self.segments.deep_view().push(name@));
        Location { root: self.root, segments }
    }

    /// The place itself, borrowed.
    pub fn borrow(&self) -> (r: LocationRef<'_>)
        ensures
            r.deep_view() == self.deep_view(),
    {
        let r = LocationRef { root: &self.root, segments: self.segments.as_slice() };
        assert(r.segments.deep_view() =~= self.segments.deep_view());
        r
    }

    /// The place that this one is inside of; `None` where no name was joined
    /// to the root.
    pub fn parent(&self) -> (r: Option<LocationRef<'_>>)
        ensures
            r.deep_view() == self.deep_view().parent(),
    {
        let count: usize = self.segments.len();
        if count == 0 {
            None
        } else {
            let segments = vstd::slice::slice_subrange(self.segments.as_slice(), 0, count - 1);
            assert(segments.deep_view() =~= self.segments.deep_view().drop_last());
            Some(LocationRef { root: &self.root, segments })
        }
    }
}

/// The directory of the application where its settings give none.
pub open spec fn data_root(data_dir: Option<PathBuf>) -> RootView {
    match data_dir {
        Some(path) => RootView::DataDir(path),
        None => RootView::Empty,
    }
}

/// The directory of the application: the base directory that its settings
/// give, else the directory for user data.
pub open spec fn app_root_of(
    global_base: Option<Seq<char>>,
    data_dir: Option<PathBuf>,
) -> RootView {
    match global_base {
        Some(base) => RootView::GlobalBase(base),
        None => data_root(data_dir),
    }
}

/// The directory of the application for a known directory for user data.
pub fn app_root(global_base: &Option<String>, data_dir: Option<PathBuf>) -> (r: Root)
    ensures
        r.deep_view() == app_root_of(global_base.deep_view(), data_dir),
{
    match global_base {
        Some(base) => Root::GlobalBase(base.clone()),
        None => match data_dir {
            Some(path) => Root::DataDir(path),
            None => Root::Empty,
        },
    }
}

/// The directory of the application. The directory for user data is looked
/// up only where the settings give no base directory.
fn find_app_root(global_base: &Option<String>) -> (r: Root)
    ensures
        exists|d: Option<PathBuf>|
            (global_base is None ==> data_dir_gave(d)) && r.deep_view() == #[trigger] app_root_of(
                global_base.deep_view(),
                d,
            ),
{
    let data_dir = match global_base {
        Some(_) => None,
        None => dirs::data_dir(),
    };
    app_root(global_base, data_dir)
}

/// Where models are kept unless the user chose another directory.
pub open spec fn default_models_base_at(root: RootView) -> LocationView {
    LocationView::at(root).join("models"@)
}

/// The directory `models` inside `root`.
pub fn default_models_base_in(root: Root) -> (r: Location)
    ensures
        r.deep_view() == default_models_base_at(root.deep_view()),
{
    Location::at(root).join("models")
}

/// Where models are kept unless the user chose another directory: the
/// directory `models` inside that of the application.
pub fn default_models_base(global_base: &Option<String>) -> (r: Location)
    ensures
        exists|d: Option<PathBuf>|
            (global_base is None ==> data_dir_gave(d)) && r.deep_view() == default_models_base_at(
                #[trigger] app_root_of(global_base.deep_view(), d),
            ),
{
    default_models_base_in(find_app_root(global_base))
}

/// Where the settings file is kept.
pub open spec fn settings_path_at(root: RootView) -> LocationView {
    LocationView::at(root).join(LOCAL_STT_SETTINGS_FILENAME@)
}

/// The settings file inside `root`.
pub fn settings_path_in(root: Root) -> (r: Location)
    ensures
        r.deep_view() == settings_path_at(root.deep_view()),
{
    Location::at(root).join(LOCAL_STT_SETTINGS_FILENAME)
}

/// Where the settings file is kept: inside the directory of the application.
pub fn settings_path(global_base: &Option<String>) -> (r: Location)
    ensures
        exists|d: Option<PathBuf>|
            (global_base is None ==> data_dir_gave(d)) && r.deep_view() == settings_path_at(
                #[trigger] app_root_of(global_base.deep_view(), d),
            ),
{
    settings_path_in(find_app_root(global_base))
}

/// The directory of the speech-to-text models inside `base`.
pub open spec fn stt_dir(base: LocationView) -> LocationView {
    base.join("stt"@)
}

/// The directory of the models of the cactus engine inside `base`.
pub open spec fn cactus_dir(base: LocationView) -> LocationView {
    base.join("cactus"@)
}

/// The settings file and the default directory of the models lie side by
/// side in the directory of the application.
pub proof fn settings_lie_beside_the_models(root: RootView)
    ensures
        settings_path_at(root).parent() == Some(LocationView::at(root)),
        default_models_base_at(root).parent() == Some(LocationView::at(root)),
        settings_path_at(root) != default_models_base_at(root),
{
    reveal_strlit("local-stt.json");
    reveal_strlit("models");
    assert(settings_path_at(root).segments.drop_last() =~= Seq::<Seq<char>>::empty());
    assert(default_models_base_at(root).segments.drop_last() =~= Seq::<Seq<char>>::empty());
    assert(settings_path_at(root).segments[0].len() == 14);
    assert(default_models_base_at(root).segments[0].len() == 6);
}

/// The directories of the two engines are different places inside the
/// directory of the models.
pub proof fn engine_dirs_lie_inside_the_base(base: LocationView)
    ensures
        stt_dir(base).parent() == Some(base),
        cactus_dir(base).parent() == Some(base),
        stt_dir(base) != cactus_dir(base),
{
    reveal_strlit("stt");
    reveal_strlit("cactus");
    assert(stt_dir(base).segments.drop_last() =~= base.segments);
    assert(cactus_dir(base).segments.drop_last() =~= base.segments);
    assert(stt_dir(base).segments.last().len() == 3);
    assert(cactus_dir(base).segments.last().len() == 6);
}

/// A base directory of the application comes before the directory for user
/// data, and that before the empty path.
pub proof fn a_base_comes_before_the_data_dir(
    global_base: Option<String>,
    data_dir: Option<PathBuf>,
    r: Root,
)
    requires
        call_ensures(app_root, (&global_base, data_dir), r),
    ensures
        global_base matches Some(base) ==> r matches Root::GlobalBase(path) && path@ == base@,
        global_base is None ==> match data_dir {
            Some(dir) => r == Root::DataDir(dir),
            None => r is Empty,
        },
{
}

/// A place below another begins at the same root and has the names of that
/// place and then its own; what lies directly above it is that place again.
pub proof fn joined_places_lie_inside(
    root: Root,
    at: Location,
    place: Location,
    name: &str,
    inside: Location,
)
    requires
        call_ensures(Location::at, (root,), at),
        call_ensures(Location::join, (place, name), inside),
    ensures
        at.root.deep_view() == root.deep_view(),
        at.segments@.len() == 0,
        inside.root.deep_view() == place.root.deep_view(),
        inside.segments@.len() == place.segments@.len() + 1,
        inside.segments.deep_view() == place.segments.deep_view().push(name@),
        inside.deep_view().parent() == Some(place.deep_view()),
        at.deep_view().parent() is None,
{
    assert(at.segments.deep_view().len() == 0);
    assert(inside.segments.deep_view().len() == inside.segments@.len());
    assert(inside.deep_view().segments.drop_last() =~= place.deep_view().segments);
}

/// What lies above a place has its root and its names but the last; a root
/// has nothing above it. A borrowed place is the place itself.
pub proof fn places_lie_inside_their_parents(
    place: Location,
    parent: Option<LocationRef<'_>>,
    borrowed: LocationRef<'_>,
)
    requires
        call_ensures(Location::parent, (&place,), parent),
        call_ensures(Location::borrow, (&place,), borrowed),
    ensures
        parent is None <==> place.segments@.len() == 0,
        parent matches Some(p) ==> p.root.deep_view() == place.root.deep_view()
            && p.segments.deep_view() == place.segments.deep_view().drop_last(),
        borrowed.root.deep_view() == place.root.deep_view(),
        borrowed.segments.deep_view() == place.segments.deep_view(),
{
    assert(place.segments.deep_view().len() == place.segments@.len());
}

/// Two roots have the same value exactly if they are of one kind and name
/// the same directory.
pub proof fn roots_are_told_apart(a: Root, b: Root)
    ensures
        a.deep_view() == b.deep_view() <==> match (a, b) {
            (Root::GlobalBase(x), Root::GlobalBase(y)) => x@ == y@,
            (Root::DataDir(x), Root::DataDir(y)) => x == y,
            (Root::Empty, Root::Empty) => true,
            (Root::Custom(x), Root::Custom(y)) => x@ == y@,
            _ => false,
        },
{
}

/// In any root, models are kept in `models` and the settings in
/// `local-stt.json`.
pub proof fn files_have_fixed_names(root: Root, models: Location, settings: Location)
    requires
        call_ensures(default_models_base_in, (root,), models),
        call_ensures(settings_path_in, (root,), settings),
    ensures
        models.root.deep_view() == root.deep_view(),
        models.segments.deep_view() == seq!["models"@],
        settings.root.deep_view() == root.deep_view(),
        settings.segments.deep_view() == seq!["local-stt.json"@],
{
}

/// Whether `root` is the directory of the application whose settings give
/// `global_base`: that directory, or else the one for user data as it was
/// looked up, or else the empty path.
pub open spec fn is_app_root(root: Root, global_base: Option<String>) -> bool {
    match global_base {
        Some(base) => root matches Root::GlobalBase(path) && path@ == base@,
        None => match root {
            Root::DataDir(dir) => call_ensures(dirs::data_dir, (), Some(dir)),
            Root::Empty => call_ensures(dirs::data_dir, (), None),
            _ => false,
        },
    }
}

/// Models and settings are kept in the directory of the application. Where
/// its settings give none, the directory for user data is looked up, and
/// nothing else stands in for what the lookup gave.
pub proof fn files_are_kept_in_the_app_root(
    global_base: Option<String>,
    models: Location,
    settings: Location,
)
    requires
        call_ensures(default_models_base, (&global_base,), models),
        call_ensures(settings_path, (&global_base,), settings),
    ensures
        is_app_root(models.root, global_base),
        models.segments.deep_view() == seq!["models"@],
        is_app_root(settings.root, global_base),
        settings.segments.deep_view() == seq!["local-stt.json"@],
{
}

} // verus!
