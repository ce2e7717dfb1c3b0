use prollyglot_runtime::identity::{
    resident_bytes_in_status, stable_stat_fields, stat_fields, Ancestor, AncestryWalk, MAX_ANCESTORS,
};

#[test]
fn reads_process_start_time_without_splitting_the_command_name() {
    let fields: Vec<_> = (3..=22).map(|n| n.to_string()).collect();
    let stat = format!("12 (name with ) spaces) {}", fields.join(" "));
    assert_eq!(stat_fields(&stat), Some((4, 22)));
    assert!(stat_fields("12 (incomplete)").is_none());
}

#[test]
fn stat_fields_follow_the_parser_of_each_field_type() {
    let mut fields: Vec<String> = (3..=22).map(|n| n.to_string()).collect();
    fields[1] = "4294967296".into();
    let stat = format!("7 (x) {}", fields.join(" "));
    assert_eq!(stat_fields(&stat), None);

    fields[1] = "+4294967295".into();
    fields[19] = "18446744073709551615".into();
    let stat = format!("7 (x)  \t{}\n", fields.join("   "));
    assert_eq!(stat_fields(&stat), Some((u32::MAX, u64::MAX)));

    fields[19] = "-1".into();
    let stat = format!("7 (x) {}", fields.join(" "));
    assert_eq!(stat_fields(&stat), None);

    let short: Vec<String> = (3..=21).map(|n| n.to_string()).collect();
    assert_eq!(stat_fields(&format!("7 (x) {}", short.join(" "))), None);
}

#[test]
fn linux_resident_memory_probe_is_nonzero() {
    // The text a Linux kernel gives in /proc/self/status, cut to its
    // memory lines; reading the file is the adapter's part.
    let status = "Name:\tprollyglot\nUmask:\t0022\nState:\tS (sleeping)\n\
                  VmPeak:\t  812344 kB\nVmSize:\t  812340 kB\nVmHWM:\t   73212 kB\n\
                  VmRSS:\t   71988 kB\nRssAnon:\t   20932 kB\nThreads:\t12\n";
    assert!(resident_bytes_in_status(&status).is_some_and(|bytes| bytes > 0));
}

#[test]
fn resident_memory_comes_from_the_first_readable_vmrss_line() {
    let status = "Name:\tdemo\nVmPeak:\t  9000 kB\nVmRSS:\t  1234 kB\nVmRSS:\t 99 kB\n";
    assert_eq!(resident_bytes_in_status(status), Some(1234 * 1024));
    assert_eq!(resident_bytes_in_status("VmRSS:\tlots kB\nVmRSS: 2 kB"), Some(2048));
    assert_eq!(resident_bytes_in_status("VmRSS:"), None);
    assert_eq!(resident_bytes_in_status(" VmRSS: 5 kB"), None);
    assert_eq!(resident_bytes_in_status("VmRSS: 18446744073709551615 kB"), None);
    assert_eq!(resident_bytes_in_status(""), None);
}

#[test]
fn evidence_read_twice_must_agree() {
    let fields: Vec<_> = (3..=22).map(|n| n.to_string()).collect();
    let first = format!("12 (player) {}", fields.join(" "));
    assert_eq!(stable_stat_fields(&first, &first), Some((4, 22)));
    let restarted = first.replace(" 22", " 23");
    assert_eq!(stable_stat_fields(&first, &restarted), None);
    assert_eq!(stable_stat_fields(&first, "12 (gone)"), None);
}

#[test]
fn the_walk_settles_on_the_topmost_ancestor_with_the_same_executable() {
    // 900 (player child) -> 800 (player) -> 700 (shell) -> 1 (init).
    let mut walk = AncestryWalk::start(900, 50, 800);
    assert_eq!(walk.next(), Some(800));
    walk.observe(Some(Ancestor { parent: 700, started: 40, same_executable: true }));
    assert_eq!(walk.next(), Some(700));
    walk.observe(Some(Ancestor { parent: 1, started: 30, same_executable: false }));
    assert_eq!(walk.next(), None);
    let identity = walk.identity("/usr/bin/player".into());
    assert_eq!(identity.instance, "800:40");
    assert_eq!(identity.executable, "/usr/bin/player");

    let lone = AncestryWalk::start(42, 7, 1);
    assert_eq!(lone.next(), None);
    assert_eq!(lone.identity("/bin/x".into()).instance, "42:7");

    let mut unreadable = AncestryWalk::start(10, 1, 9);
    unreadable.observe(None);
    assert_eq!(unreadable.next(), None);
    assert_eq!(unreadable.identity("/bin/x".into()).instance, "10:1");
}

#[test]
fn the_walk_reads_a_bounded_number_of_ancestors() {
    let mut walk = AncestryWalk::start(100_000, 0, 99_999);
    let mut reads = 0;
    while let Some(pid) = walk.next() {
        reads += 1;
        walk.observe(Some(Ancestor { parent: pid - 1, started: 0, same_executable: false }));
    }
    assert_eq!(reads, MAX_ANCESTORS);
    let mut looping = AncestryWalk::start(5, 0, 6);
    looping.observe(Some(Ancestor { parent: 6, started: 0, same_executable: true }));
    assert_eq!(looping.next(), None);
    assert_eq!(looping.identity("/bin/x".into()).instance, "6:0");
}
