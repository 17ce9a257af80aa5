use minicon::cgroup::discover_from;

fn some(b: &[u8]) -> Option<Vec<u8>> {
    Some(b.to_vec())
}

#[test]
fn absent_files_yield_empty_map() {
    assert_eq!(discover_from(&None, &None).len(), 0);
    assert_eq!(discover_from(&some(b"4:memory:/\n"), &None).len(), 0);
    assert_eq!(discover_from(&None, &some(b"whatever\n")).len(), 0);
}

#[test]
fn empty_files_yield_empty_map() {
    assert_eq!(discover_from(&some(b""), &some(b"x - cgroup y z\n")).len(), 0);
    assert_eq!(discover_from(&some(b"4:memory:/\n"), &some(b"")).len(), 0);
}

#[test]
fn recognized_subsystem_maps_to_its_mount_point() {
    let cg = some(b"4:memory:/\n");
    let mi = some(
        b"33 24 0:28 / /sys/fs/cgroup/memory rw,nosuid shared:15 - cgroup cgroup rw,memory\n",
    );
    let m = discover_from(&cg, &mi);
    assert_eq!(m.entries.len(), 1);
    assert_eq!(m.entries[0].0, "memory");
    assert_eq!(m.entries[0].1, "/sys/fs/cgroup/memory");
}

#[test]
fn options_are_scanned_from_the_end() {
    let cg = some(b"2:cpu:/\n4:memory:/\n");
    // Both names stand in the super-options; the later token wins.
    let mi = some(b"33 24 0:28 / /mnt rw,relatime shared:1 - cgroup cgroup cpu,memory\n");
    let m = discover_from(&cg, &mi);
    assert_eq!(m.entries.len(), 1);
    assert_eq!(m.entries[0].0, "memory");
    assert_eq!(m.entries[0].1, "/mnt");
}

#[test]
fn single_token_options_still_match() {
    let cg = some(b"4:memory:/\n");
    let mi = some(b"33 24 0:28 / /mnt rw shared:1 - cgroup2 cgroup memory\n");
    let m = discover_from(&cg, &mi);
    assert_eq!(m.entries.len(), 1);
    assert_eq!(m.entries[0].0, "memory");
}

#[test]
fn lines_of_other_filesystems_are_skipped() {
    let cg = some(b"4:memory:/\n");
    let mi = some(b"33 24 0:28 / /mnt rw shared:1 - tmpfs tmpfs rw,memory\n");
    assert_eq!(discover_from(&cg, &mi).len(), 0);
}

#[test]
fn malformed_lines_never_halt_discovery() {
    let cg = some(b"bad line\nnot:three:fields:extra\n4:memory:/\n");
    let mi = some(
        b"no separator here\n1 2 3 - cgroup x y\n33 24 0:28 / /mnt rw shared:1 - cgroup cgroup rw,memory\n",
    );
    let m = discover_from(&cg, &mi);
    assert_eq!(m.entries.len(), 1);
    assert_eq!(m.entries[0].0, "memory");
    assert_eq!(m.entries[0].1, "/mnt");
}

#[test]
fn unknown_subsystem_names_do_not_match() {
    let cg = some(b"4:memory:/\n");
    let mi = some(b"33 24 0:28 / /mnt rw shared:1 - cgroup cgroup rw,cpuset\n");
    assert_eq!(discover_from(&cg, &mi).len(), 0);
}

#[test]
fn lookup_takes_the_last_entry_for_a_name() {
    let cg = some(b"2:cpu:/\n4:memory:/\n");
    let mi = some(
        b"30 24 0:25 / /old rw shared:1 - cgroup cgroup rw,memory\n31 24 0:26 / /new rw shared:2 - cgroup cgroup rw,memory\n",
    );
    let m = discover_from(&cg, &mi);
    assert_eq!(m.entries.len(), 2);
    assert_eq!(m.get("memory").map(String::as_str), Some("/new"));
    assert_eq!(m.get("cpu"), None);
    assert_eq!(m.get("blkio"), None);
}
