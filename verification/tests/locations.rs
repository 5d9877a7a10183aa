use std::path::PathBuf;

use local_stt::plugin::LocalStt;
use local_stt::location::{
    app_root, default_models_base, default_models_base_in, settings_path, settings_path_in,
    Location, Root,
};
use local_stt::settings::LocalSttSettings;

fn base(path: &str) -> Option<String> {
    Some(path.to_string())
}

fn segments(location: &Location) -> Vec<&str> {
    location.segments.iter().map(|s| s.as_str()).collect()
}

#[test]
fn the_global_base_comes_first() {
    let data = Some(PathBuf::from("/home/me/.local/share"));
    assert_eq!(app_root(&base("/app"), data.clone()), Root::GlobalBase("/app".to_string()));
    assert_eq!(app_root(&None, data), Root::DataDir(PathBuf::from("/home/me/.local/share")));
    assert_eq!(app_root(&None, None), Root::Empty);
}

#[test]
fn the_data_directory_of_the_machine_is_the_fallback() {
    let expected = match dirs::data_dir() {
        Some(path) => Root::DataDir(path),
        None => Root::Empty,
    };
    let location = default_models_base(&None);
    assert_eq!(location.root, expected);
    assert_eq!(segments(&location), vec!["models"]);
    let file = settings_path(&None);
    assert_eq!(file.root, location.root);
    assert_eq!(segments(&file), vec!["local-stt.json"]);
}

#[test]
fn settings_and_models_lie_side_by_side() {
    let root = || Root::GlobalBase("/app".to_string());
    assert_eq!(settings_path(&base("/app")), settings_path_in(root()));
    assert_eq!(default_models_base(&base("/app")), default_models_base_in(root()));
    assert_eq!(segments(&settings_path_in(root())), vec!["local-stt.json"]);
    assert_eq!(segments(&default_models_base_in(root())), vec!["models"]);
}

#[test]
fn without_a_choice_models_go_to_the_default() {
    let plugin = LocalStt { global_base: base("/app"), settings: None };
    let root = Root::GlobalBase("/app".to_string());
    assert_eq!(plugin.models_base_dir().root, root);
    assert_eq!(segments(&plugin.models_base_dir()), vec!["models"]);
    assert_eq!(segments(&plugin.models_dir()), vec!["models", "stt"]);
    assert_eq!(segments(&plugin.cactus_models_dir()), vec!["models", "cactus"]);
    assert_eq!(plugin.default_models_base_dir(), plugin.models_base_dir());
}

#[test]
fn a_choice_replaces_the_default() {
    let plugin = LocalStt {
        global_base: base("/app"),
        settings: Some(LocalSttSettings { models_base: base(" /mine\n") }),
    };
    let root = Root::Custom("/mine".to_string());
    assert_eq!(plugin.models_base_dir(), Location::at(Root::Custom("/mine".to_string())));
    assert_eq!(plugin.models_dir().root, root);
    assert_eq!(segments(&plugin.models_dir()), vec!["stt"]);
    assert_eq!(segments(&plugin.cactus_models_dir()), vec!["cactus"]);
    assert_eq!(segments(&plugin.default_models_base_dir()), vec!["models"]);
}

#[test]
fn parents_drop_the_last_name() {
    let root = || Root::Custom("/mine".to_string());
    let place = Location::at(root()).join("a").join("b");
    assert_eq!(place.parent(), Some(Location::at(root()).join("a").borrow()));
    assert_eq!(Location::at(root()).parent(), None);
}

#[test]
fn engine_directories_are_siblings() {
    for settings in [None, Some(LocalSttSettings { models_base: base("/mine") })] {
        let plugin = LocalStt { global_base: base("/app"), settings };
        let stt = plugin.models_dir();
        let cactus = plugin.cactus_models_dir();
        assert_eq!(stt.parent(), cactus.parent());
        assert_eq!(stt.parent(), Some(plugin.models_base_dir().borrow()));
        assert_ne!(stt, cactus);
    }
}
