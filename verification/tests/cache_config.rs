use powerpack::cache::paths::{join, ENTRY_FILE, STAGING_FILE};
use powerpack::cache::{BuildError, Cache, Layout, Phase, Policy};
use powerpack::env::Environment;
use powerpack::time::Duration;

fn environment(vars: &[(&str, &str)]) -> Environment {
    let mut env = Environment::new();
    for (name, value) in vars {
        env.set(name, value);
    }
    env
}

#[test]
fn join_puts_one_separator_between() {
    assert_eq!(join("/cache", "weather"), "/cache/weather");
    assert_eq!(join("/cache/", "weather"), "/cache/weather");
    assert_eq!(join("cache", "weather"), "cache/weather");
    assert_eq!(join("/", "weather"), "/weather");
    assert_eq!(join("", "weather"), "weather");
    assert_eq!(join("/cache", ""), "/cache/");
    assert_eq!(join("/cache/", ""), "/cache/");
    assert_eq!(join("", ""), "");
    assert_eq!(join("/cache", "a/b"), "/cache/a/b");
    assert_eq!(join("/Users/é", "ü"), "/Users/é/ü");
}

#[test]
fn join_lets_an_absolute_child_stand_for_itself() {
    assert_eq!(join("/cache", "/etc/passwd"), "/etc/passwd");
    assert_eq!(join("", "/x"), "/x");
    assert_eq!(join("/cache", "/"), "/");
}

#[test]
fn join_agrees_with_the_standard_library() {
    for base in ["", "/", "a", "a/", "/a", "/a/b", "/a/b/", "a//", "é"] {
        for child in ["", "/", "x", "x/", "/x", "x/y", "data.json", "ü"] {
            let expected = std::path::Path::new(base).join(child);
            assert_eq!(join(base, child), expected.to_str().unwrap(), "{:?} {:?}", base, child);
        }
    }
}

#[test]
fn layout_of_a_key() {
    let layout = Layout::of("/cache", "weather");
    assert_eq!(
        layout,
        Layout {
            directory: "/cache/weather".to_string(),
            entry: "/cache/weather/data.json".to_string(),
            staging: "/cache/weather/data.tmp".to_string(),
        }
    );
    assert_eq!(ENTRY_FILE, "data.json");
    assert_eq!(STAGING_FILE, "data.tmp");
    let path = std::path::Path::new("/cache").join("weather").join("data.json");
    assert_eq!(layout.entry, path.to_str().unwrap());
    assert_eq!(layout.staging, path.with_extension("tmp").to_str().unwrap());
    assert_eq!(layout.directory, path.parent().unwrap().to_str().unwrap());
}

#[test]
fn keys_do_not_share_a_directory() {
    let a = Layout::of("/cache", "a");
    let b = Layout::of("/cache", "b");
    assert_ne!(a.directory, b.directory);
    assert_ne!(a.entry, b.entry);
    assert_ne!(a.staging, b.staging);
    assert_ne!(a.entry, a.staging);
}

#[test]
fn builder_starts_empty_and_keeps_what_is_set() {
    let b = Cache::builder();
    assert_eq!(b.directory, None);
    assert_eq!(b.bundle_id, None);
    assert_eq!(b.ttl, None);
    assert_eq!(b.poll_interval, None);
    assert_eq!(b.poll_duration, None);
    let b = b
        .directory("/tmp/cache")
        .bundle_id("com.example.bundle")
        .ttl(Duration::from_secs(60))
        .poll_interval(Duration::from_millis(50))
        .poll_duration(Duration::from_secs(2));
    assert_eq!(b.directory, Some("/tmp/cache".to_string()));
    assert_eq!(b.bundle_id, Some("com.example.bundle".to_string()));
    assert_eq!(b.ttl, Some(Duration::from_secs(60)));
    assert_eq!(b.poll_interval, Some(Duration::from_millis(50)));
    assert_eq!(b.poll_duration, Some(Duration::from_secs(2)));
}

#[test]
fn build_uses_the_defaults() {
    let cache = Cache::builder().directory("/tmp/cache").build(&Environment::new(), None).unwrap();
    assert_eq!(cache.directory, "/tmp/cache");
    assert_eq!(cache.ttl, Duration::from_secs(30));
    assert_eq!(cache.poll_interval, Duration::from_millis(100));
    assert_eq!(cache.poll_duration, Duration::from_secs(1));
    assert_eq!(
        cache.policy(),
        Policy {
            ttl: Duration::from_secs(30),
            poll_interval: Duration::from_millis(100),
            poll_duration: Duration::from_secs(1),
        }
    );
}

#[test]
fn build_keeps_the_times_that_were_set() {
    let cache = Cache::builder()
        .directory("/tmp/cache")
        .ttl(Duration::from_secs(60))
        .poll_interval(Duration::from_millis(5))
        .poll_duration(Duration::zero())
        .build(&Environment::new(), None)
        .unwrap();
    assert_eq!(cache.ttl, Duration::from_secs(60));
    assert_eq!(cache.poll_interval, Duration::from_millis(5));
    assert_eq!(cache.poll_duration, Duration::zero());
}

#[test]
fn a_directory_that_was_set_counts_first() {
    let env = environment(&[
        ("alfred_workflow_cache", "/alfred/cache"),
        ("alfred_workflow_bundleid", "com.example.env"),
    ]);
    let cache = Cache::builder()
        .directory("/explicit")
        .bundle_id("com.example.set")
        .build(&env, Some("/Users/crayons".to_string()))
        .unwrap();
    assert_eq!(cache.directory, "/explicit");
}

#[test]
fn the_directory_that_alfred_names_counts_next() {
    let env = environment(&[
        ("alfred_workflow_cache", "/alfred/cache"),
        ("alfred_workflow_bundleid", "com.example.env"),
    ]);
    let cache = Cache::builder()
        .bundle_id("com.example.set")
        .build(&env, Some("/Users/crayons".to_string()))
        .unwrap();
    assert_eq!(cache.directory, "/alfred/cache");
    let cache = Cache::builder().build(&env, None).unwrap();
    assert_eq!(cache.directory, "/alfred/cache");
}

#[test]
fn the_directory_is_derived_from_the_bundle_id() {
    let cache = Cache::builder()
        .bundle_id("com.example.bundle")
        .build(&Environment::new(), Some("/Users/crayons".to_string()))
        .unwrap();
    assert_eq!(
        cache.directory,
        "/Users/crayons/Library/Caches/com.runningwithcrayons.Alfred/Workflow Data/com.example.bundle"
    );
}

#[test]
fn the_bundle_id_that_alfred_names_counts_before_the_one_set() {
    let env = environment(&[("alfred_workflow_bundleid", "com.example.env")]);
    let cache = Cache::builder()
        .bundle_id("com.example.set")
        .build(&env, Some("/Users/crayons/".to_string()))
        .unwrap();
    assert_eq!(
        cache.directory,
        "/Users/crayons/Library/Caches/com.runningwithcrayons.Alfred/Workflow Data/com.example.env"
    );
    let env = environment(&[("alfred_workflow_bundleid", ""), ("alfred_workflow_cache", "")]);
    let cache = Cache::builder()
        .bundle_id("com.example.set")
        .build(&env, Some("/Users/crayons".to_string()))
        .unwrap();
    assert_eq!(
        cache.directory,
        "/Users/crayons/Library/Caches/com.runningwithcrayons.Alfred/Workflow Data/com.example.set"
    );
}

#[test]
fn build_fails_without_a_bundle_id() {
    let built = Cache::builder().build(&Environment::new(), Some("/Users/crayons".to_string()));
    assert_eq!(built.err(), Some(BuildError::NoBundleId));
    let built = Cache::builder().build(&Environment::new(), None);
    assert_eq!(built.err(), Some(BuildError::NoBundleId));
    assert_eq!(BuildError::NoBundleId.message(), "no bundle id set");
}

#[test]
fn build_fails_without_a_home_directory() {
    let built = Cache::builder().bundle_id("com.example.bundle").build(&Environment::new(), None);
    assert_eq!(built.err(), Some(BuildError::NoHomeDirectory));
    assert_eq!(
        BuildError::NoHomeDirectory.message(),
        "failed to find current user's home directory"
    );
}

#[test]
fn load_begins_with_a_look_at_the_entry_file() {
    let cache = Cache::builder()
        .directory("/tmp/cache")
        .ttl(Duration::from_secs(60))
        .build(&Environment::new(), None)
        .unwrap();
    let load = cache.load("weather", "c1");
    assert_eq!(load.phase, Phase::Reading);
    assert_eq!(load.checksum, "c1");
    assert_eq!(load.policy, cache.policy());
    assert_eq!(load.layout, Layout::of("/tmp/cache", "weather"));
    assert_eq!(load.layout.entry, "/tmp/cache/weather/data.json");
    assert!(!load.is_over());
}
