use instance_manager::filter::filter_instances;
use instance_manager::instance::GeneralConfig;
use instance_manager::instance::Instance;
use instance_manager::instance::InstanceConfig;
use instance_manager::sort::sort_instances;
use instance_manager::sort_mode::SortMode;
use instance_manager::text::contains_chars;
use instance_manager::text::str_contains;
use instance_manager::text::to_chars;

fn named(name: &str, played: Option<u64>) -> Instance {
    Instance::parse(
        format!("/i/{}", name),
        Some(InstanceConfig {
            general: Some(GeneralConfig {
                name: Some(name.to_string()),
                last_launch_time: played.map(|n| n.to_string()),
                total_time_played: played.map(|n| n.to_string()),
            }),
        }),
        None,
        1_000_000,
    )
    .unwrap()
}

fn shown(instances: &Vec<Instance>, query: &str) -> Vec<String> {
    filter_instances(instances, query).iter().map(|i| i.name.clone()).collect()
}

fn library() -> Vec<Instance> {
    vec![
        named("Vanilla 1.20", Some(5)),
        named("Modded SKYBLOCK", None),
        named("skyfactory", Some(9)),
        named("Créatif", Some(1)),
    ]
}

#[test]
fn characters_of_a_string() {
    assert_eq!(to_chars(""), Vec::<char>::new());
    assert_eq!(to_chars("aé\u{10000}"), vec!['a', 'é', '\u{10000}']);
}

#[test]
fn substring_search() {
    assert!(str_contains("skyfactory", "sky"));
    assert!(str_contains("skyfactory", "factory"));
    assert!(str_contains("skyfactory", "yf"));
    assert!(str_contains("skyfactory", "skyfactory"));
    assert!(str_contains("skyfactory", ""));
    assert!(str_contains("", ""));
    assert!(!str_contains("", "a"));
    assert!(!str_contains("sky", "skyf"));
    assert!(!str_contains("skyfactory", "Sky"));
    assert!(!str_contains("skyfactory", "sf"));
    assert!(str_contains("aab", "ab"));
    assert!(str_contains("créatif", "éa"));
    assert!(contains_chars(&vec!['a', 'b', 'c'], &vec!['c']));
    assert!(!contains_chars(&vec!['a', 'b', 'c'], &vec!['c', 'a']));
}

#[test]
fn substring_search_agrees_with_the_standard_search() {
    let words = ["", "a", "ab", "ba", "aab", "abab", "bab", "abc", "é", "aé", "x"];
    for hay in words {
        for needle in words {
            assert_eq!(str_contains(hay, needle), hay.contains(needle), "{:?} {:?}", hay, needle);
        }
    }
}

#[test]
fn empty_query_shows_everything_in_order() {
    let all = library();
    assert_eq!(shown(&all, ""), ["Vanilla 1.20", "Modded SKYBLOCK", "skyfactory", "Créatif"]);
    assert!(filter_instances(&vec![], "").is_empty());
}

#[test]
fn empty_query_after_each_sort_keeps_the_sorted_order() {
    for mode in [SortMode::Name, SortMode::LastPlayed, SortMode::Playtime] {
        let mut all = library();
        sort_instances(&mut all, mode);
        let order: Vec<String> = all.iter().map(|i| i.name.clone()).collect();
        assert_eq!(shown(&all, ""), order);
    }
    let mut all = library();
    sort_instances(&mut all, SortMode::LastPlayed);
    assert_eq!(shown(&all, ""), ["skyfactory", "Vanilla 1.20", "Créatif", "Modded SKYBLOCK"]);
}

#[test]
fn query_matches_regardless_of_case() {
    let all = library();
    assert_eq!(shown(&all, "sky"), ["Modded SKYBLOCK", "skyfactory"]);
    assert_eq!(shown(&all, "SKY"), ["Modded SKYBLOCK", "skyfactory"]);
    assert_eq!(shown(&all, "SkY"), ["Modded SKYBLOCK", "skyfactory"]);
    assert_eq!(shown(&all, "VANILLA"), ["Vanilla 1.20"]);
    assert_eq!(shown(&all, "1.2"), ["Vanilla 1.20"]);
    assert_eq!(shown(&all, "CRÉA"), ["Créatif"]);
}

#[test]
fn query_lowers_the_name_and_the_query() {
    let all = vec![named("UPPER", None), named("lower", None)];
    assert_eq!(shown(&all, "upper"), ["UPPER"]);
    assert_eq!(shown(&all, "LOWER"), ["lower"]);
    assert_eq!(shown(&all, "ER"), ["UPPER", "lower"]);
}

#[test]
fn query_without_a_match_shows_nothing() {
    let all = library();
    assert!(shown(&all, "nether").is_empty());
    assert!(shown(&all, "skyfactory2").is_empty());
    assert!(shown(&vec![], "a").is_empty());
}

#[test]
fn query_keeps_the_order_of_the_list() {
    let mut all = library();
    sort_instances(&mut all, SortMode::Name);
    assert_eq!(shown(&all, "a"), ["Créatif", "Vanilla 1.20", "skyfactory"]);
    sort_instances(&mut all, SortMode::Playtime);
    assert_eq!(shown(&all, "a"), ["skyfactory", "Vanilla 1.20", "Créatif"]);
}

#[test]
fn filtering_twice_gives_the_same_result() {
    let all = library();
    for query in ["", "sky", "A", "zzz"] {
        let once = filter_instances(&all, query);
        let again = filter_instances(&all, query);
        let names_once: Vec<String> = once.iter().map(|i| i.name.clone()).collect();
        let names_again: Vec<String> = again.iter().map(|i| i.name.clone()).collect();
        assert_eq!(names_once, names_again);
        assert_eq!(shown(&once, query), names_once);
    }
}

#[test]
fn filtered_instances_are_whole_copies() {
    let all = library();
    let found = filter_instances(&all, "vanilla");
    assert_eq!(found.len(), 1);
    assert_eq!(found[0].path, "/i/Vanilla 1.20");
    assert_eq!(found[0].time_played_secs, Some(5));
    assert_eq!(found[0].time_played, Some("5s".to_string()));
}
