use marquee_manager::config::{Commands, Config, Settings};
use marquee_manager::files::FileSet;
use marquee_manager::marquee::{
    candidate_paths, find_collection_marquee, find_file, find_game_marquee, find_marquee_file,
    find_system_marquee, has_all_paths, system_folder, MarqueeType,
};
use marquee_manager::table::TextMap;

fn config() -> Config {
    let mut settings = Settings::with_defaults();
    settings.accepted_formats = "png,jpg".to_string();
    settings.default_image_path = Some("/img/default.png".to_string());
    settings.marquee_image_path = Some("/img".to_string());
    settings.marquee_image_path_default = Some("/roms".to_string());
    settings.system_marquee_path = Some("/logos".to_string());
    settings.collection_marquee_path = Some("/collections".to_string());
    Config { settings, commands: Commands { commands: TextMap::new() } }
}

fn files(paths: &[&str]) -> FileSet {
    let mut set = FileSet::new();
    for p in paths {
        set.insert(p);
    }
    set
}

fn registry() -> TextMap {
    let mut systems = TextMap::new();
    systems.insert("nes", "Nintendo Entertainment System");
    systems
}

#[test]
fn probing_prefers_the_first_extension() {
    let set = files(&["/a/b.jpg", "/a/b.png"]);
    assert_eq!(find_file("/a/b", "png,jpg", &set), Some("/a/b.png".to_string()));
    assert_eq!(find_file("/a/b", "jpg,png", &set), Some("/a/b.jpg".to_string()));
}

#[test]
fn probing_falls_to_a_later_extension() {
    let set = files(&["/a/b.jpg"]);
    assert_eq!(find_file("/a/b", "png,jpg", &set), Some("/a/b.jpg".to_string()));
    assert_eq!(find_file("/a/b", "png,gif", &set), None);
    assert_eq!(find_file("/a/b", "png", &FileSet::new()), None);
}

#[test]
fn probing_trims_extensions() {
    let set = files(&["/a/b.jpg"]);
    assert_eq!(find_file("/a/b", " png , jpg ", &set), Some("/a/b.jpg".to_string()));
}

#[test]
fn probing_with_an_empty_extension_looks_at_the_base() {
    let set = files(&["/a/b"]);
    assert_eq!(find_file("/a/b", "", &set), Some("/a/b".to_string()));
    assert_eq!(find_file("/a/b", "png, ", &set), Some("/a/b".to_string()));
}

#[test]
fn probing_appends_to_names_with_dots() {
    let set = files(&["/a/Super Mario Bros. 3.png"]);
    assert_eq!(
        find_file("/a/Super Mario Bros. 3", "png", &set),
        Some("/a/Super Mario Bros. 3.png".to_string())
    );
}

#[test]
fn folder_falls_back_to_the_name() {
    let systems = registry();
    assert_eq!(system_folder("nes", &systems), "Nintendo Entertainment System");
    assert_eq!(system_folder("arcade", &systems), "arcade");
    assert_eq!(system_folder("", &systems), "");
}

#[test]
fn system_marquee_uses_the_folder() {
    let set = files(&["/logos/Nintendo Entertainment System.png", "/logos/nes.png"]);
    assert_eq!(
        find_system_marquee("nes", &config(), &registry(), &set),
        Some("/logos/Nintendo Entertainment System.png".to_string())
    );
    assert_eq!(find_system_marquee("snes", &config(), &registry(), &set), None);
}

#[test]
fn game_resolution_takes_the_game_first() {
    let all = files(&[
        "/img/Nintendo Entertainment System-zelda1.png",
        "/roms/Nintendo Entertainment System/images/zelda1-marquee.png",
        "/logos/Nintendo Entertainment System.png",
        "/img/default.png",
    ]);
    let request = MarqueeType::Game { system_name: "nes", game_name: "zelda1" };
    assert_eq!(
        find_marquee_file(request, &config(), &registry(), &all),
        "/img/Nintendo Entertainment System-zelda1.png"
    );
}

#[test]
fn game_resolution_takes_the_second_location_next() {
    let set = files(&[
        "/roms/Nintendo Entertainment System/images/zelda1-marquee.jpg",
        "/logos/Nintendo Entertainment System.png",
        "/img/default.png",
    ]);
    let request = MarqueeType::Game { system_name: "nes", game_name: "zelda1" };
    assert_eq!(
        find_marquee_file(request, &config(), &registry(), &set),
        "/roms/Nintendo Entertainment System/images/zelda1-marquee.jpg"
    );
    assert_eq!(
        find_game_marquee("zelda1", "nes", &config(), &registry(), &set),
        None
    );
}

#[test]
fn game_resolution_falls_back_to_the_system() {
    let set = files(&["/logos/Nintendo Entertainment System.png", "/img/default.png"]);
    let request = MarqueeType::Game { system_name: "nes", game_name: "zelda1" };
    assert_eq!(
        find_marquee_file(request, &config(), &registry(), &set),
        "/logos/Nintendo Entertainment System.png"
    );
}

#[test]
fn game_resolution_ends_at_the_default() {
    let set = files(&["/img/default.png"]);
    let request = MarqueeType::Game { system_name: "nes", game_name: "zelda1" };
    assert_eq!(find_marquee_file(request, &config(), &registry(), &set), "/img/default.png");
    let empty = MarqueeType::Game { system_name: "", game_name: "" };
    assert_eq!(find_marquee_file(empty, &config(), &registry(), &set), "/img/default.png");
}

#[test]
fn resolution_returns_an_existing_file() {
    let set = files(&["/img/default.png", "/collections/auto-favorites.jpg", "/logos/snes.jpg"]);
    let requests = [
        MarqueeType::System { system_name: "snes" },
        MarqueeType::System { system_name: "nes" },
        MarqueeType::Game { system_name: "snes", game_name: "mario" },
        MarqueeType::Collection { collection_name: "favorites" },
        MarqueeType::Collection { collection_name: "other" },
    ];
    for request in requests {
        let path = find_marquee_file(request, &config(), &registry(), &set);
        assert!(set.contains(&path));
    }
}

#[test]
fn system_resolution_with_unknown_system() {
    let set = files(&["/img/default.png", "/logos/arcade.jpg"]);
    let request = MarqueeType::System { system_name: "arcade" };
    assert_eq!(find_marquee_file(request, &config(), &registry(), &set), "/logos/arcade.jpg");
    let missing = MarqueeType::System { system_name: "mame" };
    assert_eq!(find_marquee_file(missing, &config(), &registry(), &set), "/img/default.png");
}

#[test]
fn collection_resolution() {
    let set = files(&["/collections/auto-favorites.jpg"]);
    assert_eq!(
        find_collection_marquee("favorites", &config(), &set),
        Some("/collections/auto-favorites.jpg".to_string())
    );
    assert_eq!(find_collection_marquee("recent", &config(), &set), None);
    let request = MarqueeType::Collection { collection_name: "recent" };
    assert_eq!(find_marquee_file(request, &config(), &registry(), &set), "/img/default.png");
}

#[test]
fn candidates_are_listed_in_probing_order() {
    let request = MarqueeType::Game { system_name: "nes", game_name: "zelda1" };
    assert_eq!(
        candidate_paths(request, &config(), &registry()),
        vec![
            "/img/Nintendo Entertainment System-zelda1.png",
            "/img/Nintendo Entertainment System-zelda1.jpg",
            "/roms/Nintendo Entertainment System/images/zelda1-marquee.png",
            "/roms/Nintendo Entertainment System/images/zelda1-marquee.jpg",
            "/logos/Nintendo Entertainment System.png",
            "/logos/Nintendo Entertainment System.jpg",
            "/img/default.png",
        ]
    );
    let system = MarqueeType::System { system_name: "arcade" };
    assert_eq!(
        candidate_paths(system, &config(), &registry()),
        vec!["/logos/arcade.png", "/logos/arcade.jpg", "/img/default.png"]
    );
    let collection = MarqueeType::Collection { collection_name: "c" };
    assert_eq!(
        candidate_paths(collection, &config(), &registry()),
        vec!["/collections/auto-c.png", "/collections/auto-c.jpg", "/img/default.png"]
    );
}

#[test]
fn resolution_depends_on_the_candidates_only() {
    let request = MarqueeType::Game { system_name: "nes", game_name: "zelda1" };
    let disk = files(&[
        "/unrelated/file.png",
        "/roms/Nintendo Entertainment System/images/zelda1-marquee.jpg",
        "/img/default.png",
    ]);
    let mut seen = FileSet::new();
    for path in candidate_paths(request, &config(), &registry()) {
        if disk.contains(&path) {
            seen.insert(&path);
        }
    }
    assert_eq!(
        find_marquee_file(request, &config(), &registry(), &seen),
        find_marquee_file(request, &config(), &registry(), &disk)
    );
}

#[test]
fn path_check_by_kind() {
    let mut cfg = config();
    cfg.settings.collection_marquee_path = None;
    assert!(has_all_paths(MarqueeType::System { system_name: "a" }, &cfg));
    assert!(has_all_paths(MarqueeType::Game { system_name: "a", game_name: "b" }, &cfg));
    assert!(!has_all_paths(MarqueeType::Collection { collection_name: "a" }, &cfg));
    cfg.settings.default_image_path = None;
    assert!(!has_all_paths(MarqueeType::System { system_name: "a" }, &cfg));
}
