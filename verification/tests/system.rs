use instance_manager::mods::count_mods;
use instance_manager::mods::has_mod_extension;
use instance_manager::paths::instances_dir;
use instance_manager::paths::launch_script;
use instance_manager::process::listing_shows_instance;
use std::path::Path;

fn file_names(names: &[&str]) -> Vec<String> {
    names.iter().map(|s| s.to_string()).collect()
}

#[test]
fn listing_with_the_instance_on_one_line() {
    let listing = "USER PID COMMAND\n\
                   u 1 /sbin/init\n\
                   u 77 bwrap flatpak run org.prismlauncher.PrismLauncher --launch Survival\n\
                   u 78 bash\n";
    assert!(listing_shows_instance(listing, "Survival"));
    assert!(!listing_shows_instance(listing, "Creative"));
    assert!(!listing_shows_instance(listing, "survival"));
}

#[test]
fn listing_needs_all_three_on_the_same_line() {
    let listing = "u 1 flatpak run something\nu 2 PrismLauncher Survival\nu 3 flatpak Survival\nu 4 flatpak PrismLauncher";
    assert!(!listing_shows_instance(listing, "Survival"));
    assert!(listing_shows_instance("Survival PrismLauncher flatpak", "Survival"));
}

#[test]
fn listing_lines_end_at_line_feeds() {
    assert!(!listing_shows_instance("flatpak PrismLauncher Sur\nvival", "Sur\nvival"));
    assert!(!listing_shows_instance("flatpak PrismLauncher A\n", "A\n"));
    assert!(listing_shows_instance("x\n\nflatpak PrismLauncher A", "A"));
    assert!(listing_shows_instance("flatpak PrismLauncher A\n\n\n", "A"));
}

#[test]
fn listing_lines_drop_the_carriage_return_before_a_line_feed() {
    assert!(!listing_shows_instance("flatpak PrismLauncher A\r\nnext", "A\r"));
    assert!(listing_shows_instance("flatpak PrismLauncher A\r\nnext", "A"));
    assert!(listing_shows_instance("flatpak PrismLauncher A\r", "A\r"));
    assert!(listing_shows_instance("flatpak PrismLauncher A\r\r\n", "A\r"));
    assert!(listing_shows_instance("flatpak PrismLauncher A\rB\n", "A\rB"));
}

#[test]
fn listing_that_is_empty_shows_nothing() {
    assert!(!listing_shows_instance("", "A"));
    assert!(!listing_shows_instance("", ""));
    assert!(!listing_shows_instance("\n\n", ""));
    assert!(listing_shows_instance("flatpak PrismLauncher", ""));
}

#[test]
fn listing_agrees_with_a_search_over_the_standard_lines() {
    let listings = [
        "",
        "\n",
        "flatpak PrismLauncher X",
        "a\r\nflatpak PrismLauncher X\r\n",
        "flatpak\nPrismLauncher X",
        "flatpak PrismLauncher\rX\n",
        "PrismLauncher X flatpak\r",
        "\r\n\r\nXflatpakPrismLauncher",
    ];
    for listing in listings {
        for name in ["X", "", "\r", "X\r", "r\rX", "Y"] {
            let expected = listing
                .lines()
                .any(|line| line.contains("flatpak") && line.contains("PrismLauncher") && line.contains(name));
            assert_eq!(listing_shows_instance(listing, name), expected, "{:?} {:?}", listing, name);
        }
    }
}

#[test]
fn mod_archives_are_told_by_their_extension() {
    assert!(has_mod_extension("sodium.jar"));
    assert!(has_mod_extension("a.jar"));
    assert!(has_mod_extension("fabric-api-0.92.0+1.20.1.jar"));
    assert!(has_mod_extension("..jar"));
    assert!(!has_mod_extension(".jar"));
    assert!(!has_mod_extension("jar"));
    assert!(!has_mod_extension("sodium.JAR"));
    assert!(!has_mod_extension("sodium.jar.disabled"));
    assert!(!has_mod_extension("sodiumjar"));
    assert!(!has_mod_extension("sodium.jar "));
    assert!(!has_mod_extension(""));
    assert!(!has_mod_extension("sodium.zip"));
}

#[test]
fn mod_extension_agrees_with_the_standard_path_extension() {
    for name in ["a.jar", ".jar", "..jar", "x.y.jar", "jar", "a.jar.", "a.Jar", "a.", "é.jar", "a.jarx", "...jar"] {
        let expected = Path::new(name).extension().and_then(|e| e.to_str()).map(|e| e == "jar").unwrap_or(false);
        assert_eq!(has_mod_extension(name), expected, "{:?}", name);
    }
}

#[test]
fn mods_are_counted() {
    assert_eq!(count_mods(&file_names(&[])), 0);
    assert_eq!(count_mods(&file_names(&["readme.txt", ".jar", "old.jar.disabled"])), 0);
    assert_eq!(count_mods(&file_names(&["a.jar", "readme.txt", "b.jar", "c.JAR", "d.jar"])), 3);
    assert_eq!(count_mods(&file_names(&["same.jar", "same.jar"])), 2);
}

#[test]
fn instances_directory_below_home() {
    assert_eq!(
        instances_dir("/home/steve"),
        "/home/steve/.var/app/org.prismlauncher.PrismLauncher/data/PrismLauncher/instances"
    );
    assert_eq!(
        instances_dir("/home/steve/"),
        "/home/steve/.var/app/org.prismlauncher.PrismLauncher/data/PrismLauncher/instances"
    );
    assert_eq!(instances_dir("/"), "/.var/app/org.prismlauncher.PrismLauncher/data/PrismLauncher/instances");
    assert_eq!(instances_dir(""), ".var/app/org.prismlauncher.PrismLauncher/data/PrismLauncher/instances");
}

#[test]
fn instances_directory_agrees_with_the_standard_join() {
    for home in ["/home/steve", "/home/steve/", "/", "", "relative", "/a//", "/home/é"] {
        let expected =
            Path::new(home).join(".var/app/org.prismlauncher.PrismLauncher/data/PrismLauncher/instances");
        assert_eq!(Path::new(&instances_dir(home)), expected.as_path(), "{:?}", home);
        assert_eq!(instances_dir(home), expected.to_str().unwrap(), "{:?}", home);
    }
}

#[test]
fn launch_script_below_home() {
    assert_eq!(launch_script("/home/steve"), "/home/steve/scripts/launch-minecraft.sh");
    assert_eq!(launch_script("/home/steve/"), "/home/steve//scripts/launch-minecraft.sh");
    assert_eq!(launch_script(""), "/scripts/launch-minecraft.sh");
}
