use instance_manager::instance::Component;
use instance_manager::instance::GeneralConfig;
use instance_manager::instance::Instance;
use instance_manager::instance::InstanceConfig;
use instance_manager::instance::MMCPack;
use instance_manager::repository::collect_instances;
use instance_manager::repository::load_instances;
use instance_manager::repository::Candidate;

const NOW: u128 = 1_700_000_000_000;

fn text(s: &str) -> Option<String> {
    Some(s.to_string())
}

fn config(name: Option<&str>, launched: Option<&str>, played: Option<&str>) -> Option<InstanceConfig> {
    Some(InstanceConfig {
        general: Some(GeneralConfig {
            name: name.map(|s| s.to_string()),
            last_launch_time: launched.map(|s| s.to_string()),
            total_time_played: played.map(|s| s.to_string()),
        }),
    })
}

fn component(uid: &str, version: Option<&str>) -> Component {
    Component { uid: uid.to_string(), version: version.map(|s| s.to_string()) }
}

fn candidate(path: &str, name: Option<&str>) -> Candidate {
    Candidate { path: path.to_string(), config: config(name, None, None), pack: None }
}

fn names(instances: &Vec<Instance>) -> Vec<String> {
    instances.iter().map(|i| i.name.clone()).collect()
}

#[test]
fn parse_full_record() {
    let pack = MMCPack {
        components: vec![component("org.lwjgl3", Some("3.3.1")), component("net.minecraft", Some("1.20.4"))],
    };
    let inst = Instance::parse(
        "/data/instances/survival".to_string(),
        config(Some("Survival"), Some("1699827200000"), Some("3661")),
        Some(pack),
        NOW,
    )
    .unwrap();
    assert_eq!(inst.name, "Survival");
    assert_eq!(inst.path, "/data/instances/survival");
    assert_eq!(inst.last_played_ts, Some(1_699_827_200_000));
    assert_eq!(inst.last_played, text("2 days ago"));
    assert_eq!(inst.time_played_secs, Some(3661));
    assert_eq!(inst.time_played, text("1h 1m"));
    assert_eq!(inst.mc_version, text("1.20.4"));
}

#[test]
fn parse_keeps_the_name_exactly() {
    for name in ["Alpha", "  spaced  name ", "MiXeD Case", "ÄÖÜ ß", "a", "\tTab"] {
        let inst = Instance::parse("/p".to_string(), config(Some(name), None, None), None, NOW).unwrap();
        assert_eq!(inst.name, name);
    }
}

#[test]
fn parse_without_primary_config_gives_no_record() {
    assert!(Instance::parse("/p".to_string(), None, None, NOW).is_none());
    let pack = MMCPack { components: vec![component("net.minecraft", Some("1.0"))] };
    assert!(Instance::parse("/p".to_string(), None, Some(pack), NOW).is_none());
}

#[test]
fn parse_without_general_group_gives_no_record() {
    assert!(Instance::parse("/p".to_string(), Some(InstanceConfig { general: None }), None, NOW).is_none());
}

#[test]
fn parse_without_name_gives_no_record() {
    assert!(Instance::parse("/p".to_string(), config(None, Some("1"), Some("2")), None, NOW).is_none());
}

#[test]
fn parse_with_empty_name_gives_no_record() {
    assert!(Instance::parse("/p".to_string(), config(Some(""), None, None), None, NOW).is_none());
}

#[test]
fn parse_absent_numbers_stay_absent() {
    let inst = Instance::parse("/p".to_string(), config(Some("Fresh"), None, None), None, NOW).unwrap();
    assert_eq!(inst.last_played_ts, None);
    assert_eq!(inst.last_played, None);
    assert_eq!(inst.time_played_secs, None);
    assert_eq!(inst.time_played, None);
    assert_eq!(inst.mc_version, None);
}

#[test]
fn parse_malformed_numbers_count_as_absent() {
    let inst =
        Instance::parse("/p".to_string(), config(Some("Odd"), Some("yesterday"), Some("-5")), None, NOW).unwrap();
    assert_eq!(inst.name, "Odd");
    assert_eq!(inst.last_played_ts, None);
    assert_eq!(inst.last_played, None);
    assert_eq!(inst.time_played_secs, None);
    assert_eq!(inst.time_played, None);
    let inst = Instance::parse("/p".to_string(), config(Some("Half"), Some(""), Some("12")), None, NOW).unwrap();
    assert_eq!(inst.last_played_ts, None);
    assert_eq!(inst.time_played_secs, Some(12));
    assert_eq!(inst.time_played, text("12s"));
}

#[test]
fn parse_zero_is_a_value_of_its_own() {
    let inst = Instance::parse("/p".to_string(), config(Some("Zero"), Some("0"), Some("0")), None, NOW).unwrap();
    assert_eq!(inst.last_played_ts, Some(0));
    assert_eq!(inst.last_played, text("19675 days ago"));
    assert_eq!(inst.time_played_secs, Some(0));
    assert_eq!(inst.time_played, text("0s"));
}

#[test]
fn parse_launch_in_the_future() {
    let inst =
        Instance::parse("/p".to_string(), config(Some("Skewed"), Some("1700000000001"), None), None, NOW).unwrap();
    assert_eq!(inst.last_played_ts, Some(1_700_000_000_001));
    assert_eq!(inst.last_played, text("Recently"));
}

#[test]
fn game_version_is_that_of_the_first_game_component() {
    let pack = MMCPack {
        components: vec![
            component("net.fabricmc.fabric-loader", Some("0.15")),
            component("net.minecraft", Some("1.19.2")),
            component("net.minecraft", Some("1.20.1")),
        ],
    };
    assert_eq!(pack.game_version(), text("1.19.2"));
}

#[test]
fn game_version_is_absent_without_the_game_component() {
    let pack = MMCPack { components: vec![component("org.lwjgl3", Some("3.3.1"))] };
    assert_eq!(pack.game_version(), None);
    assert_eq!(MMCPack { components: vec![] }.game_version(), None);
    let pack = MMCPack { components: vec![component("net.minecraft.server", Some("1"))] };
    assert_eq!(pack.game_version(), None);
    let pack = MMCPack { components: vec![component("NET.MINECRAFT", Some("1"))] };
    assert_eq!(pack.game_version(), None);
}

#[test]
fn game_version_stops_at_the_first_game_component() {
    let pack = MMCPack {
        components: vec![component("net.minecraft", None), component("net.minecraft", Some("1.20.1"))],
    };
    assert_eq!(pack.game_version(), None);
}

#[test]
fn manifest_never_keeps_a_record_from_being_made() {
    let inst = Instance::parse(
        "/p".to_string(),
        config(Some("Plain"), None, None),
        Some(MMCPack { components: vec![] }),
        NOW,
    )
    .unwrap();
    assert_eq!(inst.name, "Plain");
    assert_eq!(inst.mc_version, None);
}

#[test]
fn instance_clone_is_equal_field_by_field() {
    let inst = Instance::parse(
        "/data/a".to_string(),
        config(Some("A"), Some("1699999940000"), Some("61")),
        Some(MMCPack { components: vec![component("net.minecraft", Some("1.8.9"))] }),
        NOW,
    )
    .unwrap();
    let copy = inst.clone();
    assert_eq!(copy.name, inst.name);
    assert_eq!(copy.path, inst.path);
    assert_eq!(copy.last_played, text("1 minutes ago"));
    assert_eq!(copy.last_played_ts, inst.last_played_ts);
    assert_eq!(copy.time_played, text("1m"));
    assert_eq!(copy.time_played_secs, inst.time_played_secs);
    assert_eq!(copy.mc_version, text("1.8.9"));
}

#[test]
fn collect_keeps_the_order_of_the_candidates() {
    let found = collect_instances(
        vec![candidate("/r/3", Some("Gamma")), candidate("/r/1", Some("Alpha")), candidate("/r/2", Some("Beta"))],
        NOW,
    );
    assert_eq!(names(&found), ["Gamma", "Alpha", "Beta"]);
}

#[test]
fn load_orders_by_name() {
    let loaded = load_instances(
        vec![candidate("/r/3", Some("Gamma")), candidate("/r/1", Some("Alpha")), candidate("/r/2", Some("Beta"))],
        NOW,
    );
    assert_eq!(names(&loaded), ["Alpha", "Beta", "Gamma"]);
    assert_eq!(loaded[0].path, "/r/1");
    assert_eq!(loaded[2].path, "/r/3");
}

#[test]
fn load_passes_over_what_gives_no_record() {
    let loaded = load_instances(
        vec![
            candidate("/r/broken", None),
            candidate("/r/b", Some("B")),
            Candidate { path: "/r/nofile".to_string(), config: None, pack: None },
            Candidate { path: "/r/nogroup".to_string(), config: Some(InstanceConfig { general: None }), pack: None },
            candidate("/r/a", Some("A")),
            candidate("/r/empty", Some("")),
        ],
        NOW,
    );
    assert_eq!(names(&loaded), ["A", "B"]);
}

#[test]
fn load_of_nothing_is_empty() {
    assert!(load_instances(vec![], NOW).is_empty());
    assert!(load_instances(vec![Candidate { path: "/r/x".to_string(), config: None, pack: None }], NOW).is_empty());
}

#[test]
fn load_keeps_equal_names_in_candidate_order() {
    let loaded = load_instances(
        vec![candidate("/r/second", Some("Same")), candidate("/r/zero", Some("Other")), candidate("/r/first", Some("Same"))],
        NOW,
    );
    assert_eq!(names(&loaded), ["Other", "Same", "Same"]);
    assert_eq!(loaded[1].path, "/r/second");
    assert_eq!(loaded[2].path, "/r/first");
}

#[test]
fn load_orders_names_by_code_point() {
    let loaded = load_instances(
        vec![
            candidate("/r/1", Some("beta")),
            candidate("/r/2", Some("Beta")),
            candidate("/r/3", Some("Zeta")),
            candidate("/r/4", Some("Be")),
            candidate("/r/5", Some("émile")),
        ],
        NOW,
    );
    assert_eq!(names(&loaded), ["Be", "Beta", "Zeta", "beta", "émile"]);
}
