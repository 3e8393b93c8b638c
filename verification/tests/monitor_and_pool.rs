use marquee_manager::config::deserialize_bool_from_string_opt;
use marquee_manager::log_monitor::{
    achievement_notice, classify, scan_line, unread_from, LogEvent,
};
use marquee_manager::scraper::{
    find_marquee_media, game_info_url, lines, pool_entries, Media,
};
use marquee_manager::systems::{folder_name_of, register_systems, System};
use marquee_manager::table::TextMap;
use marquee_manager::text::{parse_u32, string_of};

#[test]
fn parse_unsigned() {
    assert_eq!(parse_u32("0"), Some(0));
    assert_eq!(parse_u32("42"), Some(42));
    assert_eq!(parse_u32("+7"), Some(7));
    assert_eq!(parse_u32("007"), Some(7));
    assert_eq!(parse_u32("4294967295"), Some(u32::MAX));
    assert_eq!(parse_u32("4294967296"), None);
    assert_eq!(parse_u32("99999999999999999999999999"), None);
    assert_eq!(parse_u32(""), None);
    assert_eq!(parse_u32("+"), None);
    assert_eq!(parse_u32("-1"), None);
    assert_eq!(parse_u32("12a"), None);
    assert_eq!(parse_u32(" 12"), None);
    assert_eq!(parse_u32("++1"), None);
    assert_eq!(parse_u32("\u{663}"), None);
}

#[test]
fn log_lines() {
    assert_eq!(
        scan_line("[INFO] [RCHEEVOS]: Identified game: 1234 (hash)"),
        Some(LogEvent::GameIdentified(1234))
    );
    assert_eq!(
        scan_line("[INFO] Achievement 55 awarded to user"),
        Some(LogEvent::AchievementUnlocked(55))
    );
    assert_eq!(scan_line("nothing of interest"), None);
    assert_eq!(scan_line("Identified game: x"), None);
    assert_eq!(scan_line(""), None);
}

#[test]
fn log_line_with_a_game_is_not_searched_for_an_achievement() {
    assert_eq!(
        scan_line("Identified game: 7, Achievement 8 awarded"),
        Some(LogEvent::GameIdentified(7))
    );
    assert_eq!(scan_line("Identified game: 99999999999 Achievement 8 awarded"), None);
    assert_eq!(scan_line("Achievement 99999999999 awarded"), None);
}

#[test]
fn classify_captured_numbers() {
    assert_eq!(
        classify(&Some("12".to_string()), &Some("13".to_string())),
        Some(LogEvent::GameIdentified(12))
    );
    assert_eq!(classify(&None, &Some("13".to_string())), Some(LogEvent::AchievementUnlocked(13)));
    assert_eq!(classify(&Some("x".to_string()), &Some("13".to_string())), None);
    assert_eq!(classify(&None, &None), None);
}

#[test]
fn log_positions() {
    assert_eq!(unread_from(10, 25), Some(10));
    assert_eq!(unread_from(10, 10), None);
    assert_eq!(unread_from(10, 3), None);
    assert_eq!(achievement_notice(77), "achievement|77");
}

#[test]
fn folder_names() {
    assert_eq!(folder_name_of("~/roms/nes"), Some("nes".to_string()));
    assert_eq!(folder_name_of("/a/b/"), Some("b".to_string()));
    assert_eq!(folder_name_of("nes"), Some("nes".to_string()));
    assert_eq!(folder_name_of("~/nes"), Some("nes".to_string()));
    assert_eq!(folder_name_of("a/./"), Some("a".to_string()));
    assert_eq!(folder_name_of("./a"), Some("a".to_string()));
    assert_eq!(folder_name_of("a/.."), None);
    assert_eq!(folder_name_of(".."), None);
    assert_eq!(folder_name_of("."), None);
    assert_eq!(folder_name_of(""), None);
    assert_eq!(folder_name_of("/"), None);
    assert_eq!(folder_name_of("~/"), None);
    assert_eq!(folder_name_of("a/..b"), Some("..b".to_string()));
}

#[test]
fn registry_from_systems() {
    let system = |name: &str, path: &str| System {
        name: name.to_string(),
        path: path.to_string(),
        theme: name.to_string(),
    };
    let systems = vec![
        system("nes", "~/../roms/Nintendo Entertainment System"),
        system("odd", "/"),
        system("snes", "/roms/snes/"),
        system("nes", "~/roms/famicom"),
    ];
    let mut registry = TextMap::new();
    registry.insert("odd", "kept");
    register_systems(&mut registry, &systems);
    assert_eq!(registry.get("nes"), Some("famicom".to_string()));
    assert_eq!(registry.get("snes"), Some("snes".to_string()));
    assert_eq!(registry.get("odd"), Some("kept".to_string()));
    assert_eq!(registry.get("gb"), None);
}

#[test]
fn text_lines() {
    let as_strings = |s: &str| lines(s).iter().map(string_of).collect::<Vec<String>>();
    assert_eq!(as_strings("a\nb"), vec!["a", "b"]);
    assert_eq!(as_strings("a\r\nb\n"), vec!["a", "b"]);
    assert_eq!(as_strings("a\n\nb\r"), vec!["a", "", "b\r"]);
    assert_eq!(as_strings(""), Vec::<String>::new());
    assert_eq!(as_strings("\n"), vec![""]);
}

#[test]
fn pool_lines_with_six_fields() {
    let pool = "nes|The Legend of Zelda|zelda1|m/zelda1.png|/img/m/zelda1.png|/roms/nes/zelda1.zip\r\n\
                broken|line\n\
                a|b|c|d|e|f|g\n\
                snes||mario|||\n";
    let entries = pool_entries(pool);
    assert_eq!(entries.len(), 2);
    assert_eq!(entries[0].system_name, "nes");
    assert_eq!(entries[0].game_title, "The Legend of Zelda");
    assert_eq!(entries[0].game_name, "zelda1");
    assert_eq!(entries[0].marquee_path, "m/zelda1.png");
    assert_eq!(entries[0].full_marquee_path, "/img/m/zelda1.png");
    assert_eq!(entries[0].rom_path, "/roms/nes/zelda1.zip");
    assert_eq!(entries[1].system_name, "snes");
    assert_eq!(entries[1].game_title, "");
    assert_eq!(entries[1].game_name, "mario");
    assert_eq!(entries[1].rom_path, "");
    assert!(pool_entries("").is_empty());
}

#[test]
fn marquee_among_media() {
    let media = |t: &str, u: &str| Media { media_type: t.to_string(), url: u.to_string() };
    let medias = vec![media("box", "u0"), media("marquee", "u1"), media("marquee", "u2")];
    assert_eq!(find_marquee_media(&medias), Some(1));
    assert_eq!(find_marquee_media(&vec![media("box", "u0"), media("Marquee", "u1")]), None);
    assert_eq!(find_marquee_media(&Vec::new()), None);
    assert_eq!(
        game_info_url("zelda1"),
        "https://www.screenscraper.fr/api2/jeuInfos.php?devid=YOUR_DEV_ID&devpassword=YOUR_DEV_PASS&softname=MarqueeManager&output=json&romnom=zelda1&systemeid=0"
    );
}

#[test]
fn optional_flags() {
    assert_eq!(deserialize_bool_from_string_opt(&None), Ok(false));
    assert_eq!(deserialize_bool_from_string_opt(&Some("true".to_string())), Ok(true));
    assert_eq!(deserialize_bool_from_string_opt(&Some("True".to_string())), Ok(true));
    assert_eq!(deserialize_bool_from_string_opt(&Some("FALSE".to_string())), Ok(false));
    assert_eq!(deserialize_bool_from_string_opt(&Some("fAlSe".to_string())), Ok(false));
    assert_eq!(
        deserialize_bool_from_string_opt(&Some("yes".to_string())),
        Err("yes".to_string())
    );
    assert_eq!(deserialize_bool_from_string_opt(&Some("".to_string())), Err("".to_string()));
    assert_eq!(
        deserialize_bool_from_string_opt(&Some("true ".to_string())),
        Err("true ".to_string())
    );
}
