use local_stt::error::Error;
use local_stt::plugin::LocalStt;
use local_stt::location::{Location, Root};
use local_stt::settings::{
    normalize_models_base, persist_models_base, read_custom_models_base, LocalSttSettings,
    PersistStep,
};

fn file() -> Location {
    Location::at(Root::GlobalBase("/base".to_string())).join("local-stt.json")
}

fn stored(path: &str) -> Option<LocalSttSettings> {
    Some(LocalSttSettings { models_base: Some(path.to_string()) })
}

fn text(s: &str) -> String {
    s.to_string()
}

/// What the outside answers, and what the settings file holds.
struct Disk {
    settings_dir: Result<(), String>,
    models_dir: Result<(), String>,
    encode: Result<(), String>,
    write: Result<(), String>,
    remove: Result<(), String>,
    content: Option<String>,
    created: Vec<String>,
}

fn disk(content: Option<&str>) -> Disk {
    Disk {
        settings_dir: Ok(()),
        models_dir: Ok(()),
        encode: Ok(()),
        write: Ok(()),
        remove: Ok(()),
        content: content.map(text),
        created: Vec::new(),
    }
}

fn run(mut step: PersistStep, disk: &mut Disk) -> Result<Location, Error> {
    loop {
        step = match step {
            PersistStep::CreateSettingsDir(s) => {
                let app_dir = Location::at(Root::GlobalBase(text("/base")));
                assert_eq!(s.dir(), Some(app_dir.borrow()));
                s.resume(disk.settings_dir.clone())
            }
            PersistStep::CreateModelsDir(s) => {
                disk.created.push(s.path.clone());
                s.resume(disk.models_dir.clone())
            }
            PersistStep::Encode(s) => {
                let encoded = disk.encode.clone().map(|_| s.settings.models_base.clone().unwrap());
                s.resume(encoded)
            }
            PersistStep::Write(s) => {
                assert_eq!(s.file, file());
                if disk.write.is_ok() {
                    disk.content = Some(s.content.clone());
                }
                s.resume(disk.write.clone())
            }
            PersistStep::Check(s) => s.resume(disk.content.is_some()),
            PersistStep::Remove(s) => {
                assert_eq!(s.file, file());
                if disk.remove.is_ok() {
                    disk.content = None;
                }
                s.resume(disk.remove.clone())
            }
            PersistStep::ReadBack(s) => {
                let settings =
                    disk.content.clone().map(|path| LocalSttSettings { models_base: Some(path) });
                let now = LocalStt { global_base: Some(text("/base")), settings };
                s.resume(now.models_base_dir())
            }
            PersistStep::Done(answer) => return answer,
        };
    }
}

fn custom(path: &str) -> Location {
    Location::at(Root::Custom(text(path)))
}

fn default_base() -> Location {
    Location::at(Root::GlobalBase(text("/base"))).join("models")
}

fn plugin() -> LocalStt {
    LocalStt { global_base: Some(text("/base")), settings: None }
}

#[test]
fn blank_paths_count_as_none() {
    assert_eq!(normalize_models_base(Some(text("  \u{3000}\t"))), None);
    assert_eq!(normalize_models_base(Some(text(""))), None);
    assert_eq!(normalize_models_base(None), None);
}

#[test]
fn paths_lose_their_outer_white_space_only() {
    assert_eq!(normalize_models_base(Some(text(" \n/my models \u{a0}"))), Some(text("/my models")));
    assert_eq!(normalize_models_base(Some(text("/plain"))), Some(text("/plain")));
}

#[test]
fn white_space_is_the_unicode_property() {
    let listed = |c: char| {
        matches!(
            c as u32,
            0x9..=0xd
                | 0x20
                | 0x85
                | 0xa0
                | 0x1680
                | 0x2000..=0x200a
                | 0x2028
                | 0x2029
                | 0x202f
                | 0x205f
                | 0x3000
        )
    };
    for c in '\u{0}'..=char::MAX {
        let trimmed = normalize_models_base(Some(format!("{c}x{c}")));
        let expected = if listed(c) { text("x") } else { format!("{c}x{c}") };
        assert_eq!(trimmed, Some(expected));
    }
}

#[test]
fn stored_paths_are_normalized_when_read() {
    assert_eq!(read_custom_models_base(&stored("  /models  ")), Some(text("/models")));
    assert_eq!(read_custom_models_base(&stored("   ")), None);
    assert_eq!(read_custom_models_base(&Some(LocalSttSettings { models_base: None })), None);
    assert_eq!(read_custom_models_base(&None), None);
}

#[test]
fn set_then_read_gives_the_chosen_directory() {
    let mut disk = disk(None);
    let answer = run(plugin().set_models_base_dir(Some(text("  /mine "))), &mut disk);
    assert_eq!(answer, Ok(custom("/mine")));
    assert_eq!(disk.content, Some(text("/mine")));
    assert_eq!(disk.created, vec![text("/mine")]);
}

#[test]
fn any_saved_path_is_read_without_its_outer_white_space() {
    let mut d = disk(None);
    let answer = run(persist_models_base(file(), Some(text(" /a\\\"b\" "))), &mut d);
    assert_eq!(d.content, Some(text(" /a\\\"b\" ")));
    assert_eq!(answer, Ok(custom("/a\\\"b\"")));

    let mut d = disk(None);
    let answer = run(persist_models_base(file(), Some(text(" "))), &mut d);
    assert_eq!(d.content, Some(text(" ")));
    assert_eq!(answer, Ok(default_base()));
}

#[test]
fn a_blank_choice_removes_the_settings() {
    let mut disk = disk(Some("/old"));
    let answer = run(plugin().set_models_base_dir(Some(text(" "))), &mut disk);
    assert_eq!(answer, Ok(default_base()));
    assert_eq!(disk.content, None);
    assert!(disk.created.is_empty());
}

#[test]
fn nothing_is_removed_where_nothing_is_stored() {
    let mut disk = disk(None);
    disk.remove = Err(text("never asked"));
    let answer = run(plugin().set_models_base_dir(None), &mut disk);
    assert_eq!(answer, Ok(default_base()));
}

#[test]
fn each_failure_ends_the_attempt() {
    let failed = |reason: &str| Err(Error::LocalSettingsFailed(text(reason)));
    let save = || persist_models_base(file(), Some(text("/mine")));

    let mut d = disk(Some("/old"));
    d.settings_dir = Err(text("parent"));
    assert_eq!(run(save(), &mut d), failed("parent"));
    assert!(d.created.is_empty());

    let mut d = disk(Some("/old"));
    d.models_dir = Err(text("models"));
    assert_eq!(run(save(), &mut d), failed("models"));
    assert_eq!(d.content, Some(text("/old")));

    let mut d = disk(Some("/old"));
    d.encode = Err(text("encode"));
    assert_eq!(run(save(), &mut d), failed("encode"));
    assert_eq!(d.content, Some(text("/old")));

    let mut d = disk(Some("/old"));
    d.write = Err(text("write"));
    assert_eq!(run(save(), &mut d), failed("write"));

    let mut d = disk(Some("/old"));
    d.remove = Err(text("remove"));
    assert_eq!(run(persist_models_base(file(), None), &mut d), failed("remove"));
    assert_eq!(d.content, Some(text("/old")));
}
