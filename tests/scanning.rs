use temp_cleaner::{scan_locations, standard_catalog, ChildEntry, DirEntryKind, LocationEntry, RootListing, ScanResult, SizeWalk};

fn child(path: &str, name: &str, size: u64) -> ChildEntry {
    ChildEntry { path: path.to_string(), name: name.to_string(), size }
}

fn loc(root: &str, category: &str) -> LocationEntry {
    LocationEntry { root: root.to_string(), category: category.to_string() }
}

fn walk(root: &str, listings: &[(&str, Vec<DirEntryKind>)]) -> u64 {
    let mut w = SizeWalk::new(root.to_string());
    while let Some(dir) = w.next_dir() {
        let dir = dir.clone();
        let listing = listings
            .iter()
            .find(|(p, _)| *p == dir)
            .map(|(_, l)| l.iter().map(copy_kind).collect())
            .unwrap_or_default();
        w.absorb(listing);
    }
    w.total()
}

fn copy_kind(k: &DirEntryKind) -> DirEntryKind {
    match k {
        DirEntryKind::File { len } => DirEntryKind::File { len: *len },
        DirEntryKind::Dir { path } => DirEntryKind::Dir { path: path.clone() },
        DirEntryKind::Other => DirEntryKind::Other,
    }
}

fn sample_tree() -> Vec<(&'static str, Vec<DirEntryKind>)> {
    vec![
        (
            "r",
            vec![
                DirEntryKind::File { len: 10 },
                DirEntryKind::Dir { path: "r/a".to_string() },
                DirEntryKind::Other,
                DirEntryKind::Dir { path: "r/c".to_string() },
            ],
        ),
        ("r/a", vec![DirEntryKind::File { len: 5 }, DirEntryKind::Dir { path: "r/a/b".to_string() }]),
        ("r/a/b", vec![DirEntryKind::File { len: 7 }]),
        ("r/c", vec![]),
    ]
}

#[test]
fn walk_sums_files_at_every_depth() {
    assert_eq!(walk("r", &sample_tree()), 22);
}

#[test]
fn walk_is_repeatable() {
    let tree = sample_tree();
    assert_eq!(walk("r", &tree), walk("r", &tree));
}

#[test]
fn walk_of_unreadable_root_is_zero() {
    assert_eq!(walk("missing", &sample_tree()), 0);
}

#[test]
fn walk_saturates() {
    let tree = vec![("r", vec![DirEntryKind::File { len: u64::MAX }, DirEntryKind::File { len: 1 }])];
    assert_eq!(walk("r", &tree), u64::MAX);
}

#[test]
fn walk_lists_deepest_pending_first() {
    let mut w = SizeWalk::new("r".to_string());
    assert!(!w.is_done());
    w.absorb(vec![DirEntryKind::Dir { path: "r/x".to_string() }, DirEntryKind::Dir { path: "r/y".to_string() }]);
    assert_eq!(w.next_dir().map(|s| s.as_str()), Some("r/y"));
    w.absorb(vec![]);
    assert_eq!(w.next_dir().map(|s| s.as_str()), Some("r/x"));
    w.absorb(vec![]);
    assert!(w.is_done());
    assert!(w.next_dir().is_none());
}

#[test]
fn scan_drops_empty_entries() {
    let mut r = ScanResult::new();
    let l = loc("C:\\Temp", "Temp");
    r.absorb_root(&l, &vec![child("C:\\Temp\\a.tmp", "a.tmp", 100), child("C:\\Temp\\b.tmp", "b.tmp", 0)]);
    assert_eq!(r.files.len(), 1);
    assert_eq!(r.files[0].size, 100);
    assert_eq!(r.files[0].name, "a.tmp");
    assert_eq!(r.files[0].path, "C:\\Temp\\a.tmp");
    assert_eq!(r.files[0].category, "Temp");
    assert_eq!(r.files[0].root_path, "C:\\Temp");
    assert_eq!(r.total_size, 100);
}

#[test]
fn scan_total_is_sum_over_roots() {
    let mut r = ScanResult::new();
    r.absorb_root(&loc("A", "ca"), &vec![child("A\\1", "1", 3), child("A\\2", "2", 4)]);
    r.absorb_root(&loc("B", "cb"), &vec![child("B\\1", "1", 0), child("B\\2", "2", 8)]);
    assert_eq!(r.files.len(), 3);
    assert_eq!(r.total_size, r.files.iter().map(|f| f.size).sum::<u64>());
    assert_eq!(r.total_size, 15);
    assert!(r.files.iter().all(|f| f.size > 0));
    assert_eq!(r.files[2].category, "cb");
    assert_eq!(r.files[2].root_path, "B");
}

#[test]
fn scan_of_empty_root_adds_nothing() {
    let mut r = ScanResult::new();
    r.absorb_root(&loc("A", "ca"), &vec![]);
    assert!(r.files.is_empty());
    assert_eq!(r.total_size, 0);
}

#[test]
fn record_refuses_overflowing_total() {
    let mut r = ScanResult::new();
    let l = loc("A", "ca");
    assert!(r.record(&l, &child("A\\big", "big", u64::MAX - 1)));
    assert!(!r.record(&l, &child("A\\x", "x", 2)));
    assert!(r.record(&l, &child("A\\y", "y", 1)));
    assert!(!r.record(&l, &child("A\\z", "z", 0)));
    assert_eq!(r.total_size, u64::MAX);
    assert_eq!(r.files.len(), 2);
}

#[test]
fn catalog_without_base_directories() {
    let c = standard_catalog(&None, &None, &None);
    let roots: Vec<&str> = c.iter().map(|e| e.root.as_str()).collect();
    assert_eq!(
        roots,
        vec![
            "C:\\Windows\\Temp",
            "C:\\Windows\\Prefetch",
            "C:\\Windows\\SoftwareDistribution\\Download",
            "C:\\Windows\\Logs",
            "C:\\Windows\\Minidump",
            "C:\\ProgramData\\Microsoft\\Windows\\WER",
        ]
    );
    assert_eq!(c[4].category, "Dumps de Crash");
}

#[test]
fn catalog_with_base_directories() {
    let c = standard_catalog(
        &Some("T".to_string()),
        &Some("L".to_string()),
        &Some("R".to_string()),
    );
    assert_eq!(c.len(), 15);
    assert_eq!(c[0].root, "T");
    assert_eq!(c[0].category, "Arquivos Temporários do Windows");
    assert_eq!(c[7].root, "L\\Google\\Chrome\\User Data\\Default\\Cache");
    assert_eq!(c[7].category, "Cache do Chrome");
    assert_eq!(c[11].root, "L\\Microsoft\\Windows\\Explorer");
    assert_eq!(c[13].root, "R\\Discord\\Code Cache");
    assert_eq!(c[14].root, "R\\Spotify\\Storage");
    assert_eq!(c[14].category, "Cache do Spotify");
}

#[test]
fn catalog_with_only_roaming_directory() {
    let c = standard_catalog(&None, &None, &Some("R".to_string()));
    assert_eq!(c.len(), 9);
    assert_eq!(c[6].root, "R\\Discord\\Cache");
}

#[test]
fn scan_of_one_root_with_empty_file() {
    let roots = vec![RootListing {
        location: loc("C:\\Windows\\Temp", "Arquivos Temporários do Sistema"),
        children: vec![child("C:\\Windows\\Temp\\a.log", "a.log", 100), child("C:\\Windows\\Temp\\b.log", "b.log", 0)],
    }];
    let r = scan_locations(&roots);
    assert_eq!(r.files.len(), 1);
    assert_eq!(r.files[0].name, "a.log");
    assert_eq!(r.files[0].size, 100);
    assert_eq!(r.total_size, 100);
}

#[test]
fn scan_over_several_roots_keeps_order() {
    let roots = vec![
        RootListing { location: loc("A", "ca"), children: vec![child("A\\1", "1", 2)] },
        RootListing { location: loc("B", "cb"), children: vec![] },
        RootListing { location: loc("C", "cc"), children: vec![child("C\\1", "1", 0), child("C\\2", "2", 9)] },
    ];
    let r = scan_locations(&roots);
    let names: Vec<&str> = r.files.iter().map(|f| f.path.as_str()).collect();
    assert_eq!(names, vec!["A\\1", "C\\2"]);
    assert_eq!(r.total_size, 11);
    assert_eq!(r.total_size, r.files.iter().map(|f| f.size).sum::<u64>());
}

#[test]
fn scan_of_nothing_is_empty() {
    let r = scan_locations(&vec![]);
    assert!(r.files.is_empty());
    assert_eq!(r.total_size, 0);
}
