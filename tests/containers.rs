use statusline::containers::collect;
use statusline::containers::parse_cached_output;
use statusline::containers::parse_ps_output;
use statusline::containers::parse_stats_output;
use statusline::containers::serialize_container_info;
use statusline::containers::simplify_status;
use statusline::containers::Container;
use statusline::containers::ContainerInfo;
use statusline::containers::ContainersStep;

#[test]
fn classifies_statuses() {
    assert_eq!(simplify_status("Up 3 hours"), "running");
    assert_eq!(simplify_status("Exited (0) 2 days ago"), "exited");
    assert_eq!(simplify_status("Created"), "created");
    assert_eq!(simplify_status("Up 2 minutes (Paused)"), "running");
    assert_eq!(simplify_status("Restarting (1) 5 seconds ago"), "restarting");
    assert_eq!(simplify_status("Removal In Progress"), "Removal In Progress");
    assert_eq!(simplify_status("removing"), "removing");
    assert_eq!(simplify_status("Dead"), "dead");
    assert_eq!(simplify_status("something else"), "something else");
    assert_eq!(simplify_status(""), "");
}

#[test]
fn parses_list_output() {
    let info = parse_ps_output("web\tUp 3 hours\tnginx:1\tx\nbad line\ndb\tExited (1) 1 day ago\tpostgres");
    assert_eq!(info.containers.len(), 2);
    assert_eq!(info.containers[0].name, "web");
    assert_eq!(info.containers[0].status, "running");
    assert_eq!(info.containers[0].image, "nginx:1\tx");
    assert_eq!(info.containers[1].status, "exited");
}

#[test]
fn parses_stats_for_tracked_names() {
    let names = vec!["web".to_string()];
    let stats = parse_stats_output("web\t0.50%\t12.5MiB / 7.67GiB\nother\t1%\t1MiB\nweb2\t--\tx", &names);
    assert_eq!(stats.len(), 1);
    assert_eq!(stats[0].cpu_percent.as_deref(), Some("0.50"));
    assert_eq!(stats[0].mem_usage, "12.5MiB / 7.67GiB");
}

#[test]
fn cache_record_round_trip() {
    let info = ContainerInfo {
        containers: vec![
            Container {
                name: "web".to_string(),
                status: "running".to_string(),
                image: "nginx".to_string(),
                cpu_percent: Some("0.50".to_string()),
                mem_usage: Some("1MiB / 2GiB".to_string()),
            },
            Container {
                name: "db".to_string(),
                status: "exited".to_string(),
                image: "pg".to_string(),
                cpu_percent: None,
                mem_usage: None,
            },
        ],
    };
    let text = serialize_container_info(&info);
    assert_eq!(text, "web|running|nginx|0.50|1MiB / 2GiB\ndb|exited|pg||");
    let back = parse_cached_output(&text).unwrap();
    assert_eq!(back.containers.len(), 2);
    assert_eq!(back.containers[0].cpu_percent.as_deref(), Some("0.50"));
    assert_eq!(back.containers[1].mem_usage, None);
}

#[test]
fn cache_record_with_wrong_field_count_is_dropped() {
    let back = parse_cached_output("a|b|c|d\nx|running|img|abc|m").unwrap();
    assert_eq!(back.containers.len(), 1);
    assert_eq!(back.containers[0].name, "x");
    assert_eq!(back.containers[0].cpu_percent, None);
    assert!(parse_cached_output("a|b").is_none());
    assert!(parse_cached_output("").is_none());
}

#[test]
fn fresh_collection_joins_stats_and_caches() {
    let out = collect(
        || None,
        || Some("web\tUp 1 hour\tnginx\ndb\tExited (0)\tpg".to_string()),
        || Some("web\t2.5%\t3MiB / 1GiB".to_string()),
    );
    let info = &out.info;
    assert_eq!(info.containers.len(), 2);
    assert_eq!(info.containers[0].cpu_percent.as_deref(), Some("2.5"));
    assert_eq!(info.containers[0].mem_usage.as_deref(), Some("3MiB / 1GiB"));
    assert_eq!(info.containers[1].mem_usage, None);
    assert_eq!(out.answered, ContainersStep::Fresh);
    assert!(out.stats_requested);
    assert_eq!(out.to_cache.as_deref(), Some("web|running|nginx|2.5|3MiB / 1GiB\ndb|exited|pg||"));
}

#[test]
fn no_stats_asked_when_nothing_runs() {
    let out = collect(|| None, || Some("db\tExited (0)\tpg".to_string()), || panic!("no stats call expected"));
    assert!(!out.stats_requested);
    assert_eq!(out.to_cache.as_deref(), Some("db|exited|pg||"));
}

#[test]
fn no_runtime_means_no_containers() {
    let out = collect(|| None, || None, || panic!("no stats call expected"));
    assert!(out.info.containers.is_empty());
    assert_eq!(out.answered, ContainersStep::Unavailable);
    assert_eq!(out.to_cache, None);
}

#[test]
fn cached_list_is_served() {
    let out = collect(
        || Some("a|running|img|1.0|m".to_string()),
        || panic!("no list call expected"),
        || panic!("no stats call expected"),
    );
    assert_eq!(out.info.containers[0].name, "a");
    assert_eq!(out.answered, ContainersStep::Cached);
    assert_eq!(out.to_cache, None);
}
