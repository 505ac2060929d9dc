use odin::mods::bepinex::{
    build_environment, doorstop_insert_lib, doorstop_invoke_dll, doorstop_lib, doorstop_libs,
    is_bepinex_installed, BepInExEnvironment,
};
use odin::utils::environment::Config;

fn default_environment() -> BepInExEnvironment {
    build_environment(&Config::new(), "/home/steam/valheim")
}

fn all_but(paths: &[String], missing: usize) -> Vec<String> {
    let mut kept = Vec::new();
    for (i, path) in paths.iter().enumerate() {
        if i != missing {
            kept.push(path.clone());
        }
    }
    kept
}

#[test]
fn default_library_name() {
    assert_eq!(doorstop_lib(&Config::new()), "libdoorstop_x64.so");
}

#[test]
fn default_library_dir_lies_under_the_working_dir() {
    assert_eq!(doorstop_libs(&Config::new(), "/home/steam/valheim"), "/home/steam/valheim/doorstop_libs");
    assert_eq!(doorstop_libs(&Config::new(), ""), "/doorstop_libs");
}

#[test]
fn default_entry_dll_lies_under_the_working_dir() {
    assert_eq!(
        doorstop_invoke_dll(&Config::new(), "/home/steam/valheim"),
        "/home/steam/valheim/BepInEx/core/BepInEx.Preloader.dll"
    );
}

#[test]
fn compose_without_overrides() {
    let environment = default_environment();
    assert_eq!(environment.ld_preload(), "libdoorstop_x64.so");
    assert_eq!(environment.ld_library_path(), "./linux64:/home/steam/valheim/doorstop_libs");
    assert_eq!(environment.doorstop_enable(), "TRUE");
    assert_eq!(
        environment.doorstop_invoke_dll(),
        "/home/steam/valheim/BepInEx/core/BepInEx.Preloader.dll"
    );
    assert_eq!(environment.doorstop_corlib_override_path(), "/home/steam/valheim/unstripped_corlib");
    assert_eq!(environment.dyld_library_path(), "/home/steam/valheim/doorstop_libs");
    assert_eq!(
        environment.dyld_insert_libraries(),
        "/home/steam/valheim/doorstop_libs/libdoorstop_x64.so"
    );
}

#[test]
fn preload_list_is_the_library_name_alone() {
    let mut config = Config::new();
    config.set("LD_LIBRARY_PATH", "/usr/lib");
    config.set("DOORSTOP_LIBS", "/opt/doorstop");
    let environment = build_environment(&config, "/srv");
    assert_eq!(environment.ld_preload(), "libdoorstop_x64.so");
}

#[test]
fn preload_list_is_joined_without_separator() {
    let mut config = Config::new();
    config.set("LD_PRELOAD", "/usr/lib/libfirst.so");
    let environment = build_environment(&config, "/srv");
    assert_eq!(environment.ld_preload(), "/usr/lib/libfirst.solibdoorstop_x64.so");
    config.set("DOORSTOP_LIB", "custom.so");
    let environment = build_environment(&config, "/srv");
    assert_eq!(environment.ld_preload(), "/usr/lib/libfirst.socustom.so");
}

#[test]
fn mac_preload_default_strips_every_colon() {
    let mut config = Config::new();
    config.set("DOORSTOP_LIB", "lib:doorstop:x64.so");
    config.set("DOORSTOP_LIBS", "/d");
    let environment = build_environment(&config, "/srv");
    assert_eq!(environment.dyld_insert_libraries(), "/d/libdoorstopx64.so");
    assert_eq!(doorstop_insert_lib(&config, "/srv"), "/d/libdoorstopx64.so");
    assert_eq!(environment.ld_preload(), "lib:doorstop:x64.so");
}

#[test]
fn mac_preload_override_is_taken_as_it_stands() {
    let mut config = Config::new();
    config.set("DYLD_INSERT_LIBRARIES", "/x/a:b.dylib");
    let environment = build_environment(&config, "/srv");
    assert_eq!(environment.dyld_insert_libraries(), "/x/a:b.dylib");
}

#[test]
fn later_defaults_follow_the_overridden_library_dir() {
    let mut config = Config::new();
    config.set("DOORSTOP_LIBS", "/opt/doorstop");
    let environment = build_environment(&config, "/srv");
    assert_eq!(environment.ld_library_path(), "./linux64:/opt/doorstop");
    assert_eq!(environment.dyld_library_path(), "/opt/doorstop");
    assert_eq!(environment.dyld_insert_libraries(), "/opt/doorstop/libdoorstop_x64.so");
}

#[test]
fn each_override_replaces_its_default() {
    let mut config = Config::new();
    config.set("LD_LIBRARY_PATH", "/a");
    config.set("DOORSTOP_INVOKE_DLL_PATH", "/b.dll");
    config.set("DOORSTOP_CORLIB_OVERRIDE_PATH", "/c");
    config.set("DYLD_LIBRARY_PATH", "/d");
    let environment = build_environment(&config, "/srv");
    assert_eq!(environment.ld_library_path(), "/a");
    assert_eq!(environment.doorstop_invoke_dll(), "/b.dll");
    assert_eq!(environment.doorstop_corlib_override_path(), "/c");
    assert_eq!(environment.dyld_library_path(), "/d");
    assert_eq!(environment.doorstop_enable(), "TRUE");
}

#[test]
fn enable_flag_has_no_override() {
    let mut config = Config::new();
    config.set("DOORSTOP_ENABLE", "FALSE");
    assert_eq!(build_environment(&config, "/srv").doorstop_enable(), "TRUE");
}

#[test]
fn empty_override_falls_back_to_the_default() {
    let mut config = Config::new();
    config.set("DOORSTOP_LIB", "");
    config.set("DOORSTOP_LIBS", "");
    let environment = build_environment(&config, "/srv");
    assert_eq!(environment.ld_preload(), "libdoorstop_x64.so");
    assert_eq!(environment.dyld_library_path(), "/srv/doorstop_libs");
}

#[test]
fn no_value_is_empty() {
    let mut config = Config::new();
    config.set("LD_PRELOAD", "");
    config.set("DYLD_INSERT_LIBRARIES", "");
    for environment in [build_environment(&config, ""), build_environment(&Config::new(), "/srv")] {
        assert!(!environment.ld_preload().is_empty());
        assert!(!environment.ld_library_path().is_empty());
        assert!(!environment.doorstop_enable().is_empty());
        assert!(!environment.doorstop_invoke_dll().is_empty());
        assert!(!environment.doorstop_corlib_override_path().is_empty());
        assert!(!environment.dyld_library_path().is_empty());
        assert!(!environment.dyld_insert_libraries().is_empty());
    }
}

#[test]
fn required_paths_are_four_in_order() {
    let environment = default_environment();
    assert_eq!(
        environment.required_paths(),
        vec![
            "/home/steam/valheim/unstripped_corlib".to_string(),
            "/home/steam/valheim/doorstop_libs/libdoorstop_x64.so".to_string(),
            "/home/steam/valheim/doorstop_libs".to_string(),
            "/home/steam/valheim/BepInEx/core/BepInEx.Preloader.dll".to_string(),
        ]
    );
}

#[test]
fn installed_when_all_four_paths_exist() {
    let environment = default_environment();
    let mut existing = environment.required_paths();
    assert!(is_bepinex_installed(&environment, &existing));
    existing.push("/somewhere/else".to_string());
    existing.reverse();
    assert!(is_bepinex_installed(&environment, &existing));
}

#[test]
fn not_installed_without_the_corlib_override_path() {
    let environment = default_environment();
    let existing = all_but(&environment.required_paths(), 0);
    assert!(!is_bepinex_installed(&environment, &existing));
}

#[test]
fn not_installed_without_the_mac_preload_list() {
    let environment = default_environment();
    let existing = all_but(&environment.required_paths(), 1);
    assert!(!is_bepinex_installed(&environment, &existing));
}

#[test]
fn not_installed_without_the_mac_library_path() {
    let environment = default_environment();
    let existing = all_but(&environment.required_paths(), 2);
    assert!(!is_bepinex_installed(&environment, &existing));
}

#[test]
fn not_installed_without_the_entry_dll() {
    let environment = default_environment();
    let existing = all_but(&environment.required_paths(), 3);
    assert!(!is_bepinex_installed(&environment, &existing));
}

#[test]
fn not_installed_when_nothing_exists() {
    let environment = default_environment();
    assert!(!is_bepinex_installed(&environment, &Vec::new()));
}

#[test]
fn linux_only_paths_do_not_count() {
    let environment = default_environment();
    let existing = vec![
        environment.ld_preload().to_string(),
        environment.ld_library_path().to_string(),
        environment.doorstop_enable().to_string(),
    ];
    assert!(!is_bepinex_installed(&environment, &existing));
}

#[test]
fn a_list_valued_path_is_looked_for_as_one_path() {
    let mut config = Config::new();
    config.set("DYLD_LIBRARY_PATH", "/a:/b");
    let environment = build_environment(&config, "/srv");
    let mut existing = all_but(&environment.required_paths(), 2);
    existing.push("/a".to_string());
    existing.push("/b".to_string());
    assert!(!is_bepinex_installed(&environment, &existing));
    existing.push("/a:/b".to_string());
    assert!(is_bepinex_installed(&environment, &existing));
}

#[test]
fn process_bindings_are_seven_in_order() {
    let environment = default_environment();
    let bindings = environment.process_bindings();
    let keys: Vec<&str> = bindings.iter().map(|binding| binding.key()).collect();
    assert_eq!(
        keys,
        vec![
            "DOORSTOP_ENABLE",
            "DOORSTOP_INVOKE_DLL_PATH",
            "DOORSTOP_CORLIB_OVERRIDE_PATH",
            "LD_LIBRARY_PATH",
            "LD_PRELOAD",
            "DYLD_LIBRARY_PATH",
            "DYLD_INSERT_LIBRARIES",
        ]
    );
}

#[test]
fn only_the_mac_library_path_is_quoted() {
    let environment = default_environment();
    let bindings = environment.process_bindings();
    let values: Vec<&str> = bindings.iter().map(|binding| binding.value()).collect();
    assert_eq!(
        values,
        vec![
            "TRUE",
            "/home/steam/valheim/BepInEx/core/BepInEx.Preloader.dll",
            "/home/steam/valheim/unstripped_corlib",
            "./linux64:/home/steam/valheim/doorstop_libs",
            "libdoorstop_x64.so",
            "\"/home/steam/valheim/doorstop_libs\"",
            "/home/steam/valheim/doorstop_libs/libdoorstop_x64.so",
        ]
    );
}

#[test]
fn build_environment_is_fresh_each_time() {
    let mut config = Config::new();
    let first = build_environment(&config, "/srv");
    config.set("DOORSTOP_LIBS", "/other");
    let second = build_environment(&config, "/srv");
    assert_eq!(first.dyld_library_path(), "/srv/doorstop_libs");
    assert_eq!(second.dyld_library_path(), "/other");
    assert_eq!(build_environment(&config, "/srv"), second);
}
