use procs_config::catalog::{catalog_entries, find_column_kind, lookup_by_kind};
use procs_config::chars_util::str_contains_ci;
use procs_config::column::{gen_column, ColumnObject};
use procs_config::kind::{kind_name, ConfigColumnKind};
use procs_config::Platform;

#[test]
fn catalog_linux_and_mac_sizes() {
    assert_eq!(catalog_entries(Platform::Linux).len(), 63);
    assert_eq!(catalog_entries(Platform::Mac).len(), 38);
}

#[test]
fn every_active_entry_has_name_description_and_object() {
    for p in [Platform::Linux, Platform::Mac] {
        for e in catalog_entries(p) {
            assert!(!e.name.is_empty());
            assert!(!e.description.is_empty());
            let looked = lookup_by_kind(p, &e.kind).unwrap();
            assert_eq!(looked.name, e.name);
            assert_eq!(looked.description, e.description);
            let obj = gen_column(&e.kind, "unix:///var/run/docker.sock", "|");
            assert_eq!(obj, obj.clone());
        }
    }
}

#[test]
fn lookup_by_kind_rejects_foreign_kinds() {
    assert!(lookup_by_kind(Platform::Mac, &ConfigColumnKind::Eip).is_none());
    let e = lookup_by_kind(Platform::Linux, &ConfigColumnKind::Eip).unwrap();
    assert_eq!(e.name, "Eip");
    assert_eq!(e.description, "Instruction pointer");
}

#[test]
fn find_cpu_matches_cpu_time_first() {
    assert_eq!(
        find_column_kind(Platform::Linux, "cpu"),
        Some(ConfigColumnKind::CpuTime)
    );
    // Both the CPU-time and the CPU-usage kind match "cpu".
    assert!(str_contains_ci(kind_name(&ConfigColumnKind::CpuTime), "cpu"));
    assert!(str_contains_ci(kind_name(&ConfigColumnKind::UsageCpu), "cpu"));
    assert_eq!(
        find_column_kind(Platform::Linux, "usagec"),
        Some(ConfigColumnKind::UsageCpu)
    );
}

#[test]
fn find_is_case_insensitive() {
    for pat in ["CPU", "Cpu", "cPu"] {
        assert_eq!(
            find_column_kind(Platform::Mac, pat),
            find_column_kind(Platform::Mac, "cpu")
        );
    }
    assert_eq!(
        find_column_kind(Platform::Linux, "VMPEAK"),
        Some(ConfigColumnKind::VmPeak)
    );
}

#[test]
fn find_nonexistent_returns_none() {
    assert_eq!(find_column_kind(Platform::Linux, "nonexistent-xyz"), None);
    assert_eq!(find_column_kind(Platform::Mac, "nonexistent-xyz"), None);
}

#[test]
fn find_respects_declaration_order() {
    // Both CpuTime and StartTime contain "time"; CpuTime is declared first.
    assert_eq!(
        find_column_kind(Platform::Mac, "time"),
        Some(ConfigColumnKind::CpuTime)
    );
}

#[test]
fn platform_only_kinds_absent_from_mac_search() {
    assert_eq!(
        find_column_kind(Platform::Linux, "wchan"),
        Some(ConfigColumnKind::Wchan)
    );
    assert_eq!(find_column_kind(Platform::Mac, "wchan"), None);
}

#[test]
fn catalog_names_are_unique_case_insensitively() {
    for p in [Platform::Linux, Platform::Mac] {
        let names: Vec<String> = catalog_entries(p)
            .into_iter()
            .map(|e| e.name.to_lowercase())
            .collect();
        for i in 0..names.len() {
            for j in (i + 1)..names.len() {
                assert_ne!(names[i], names[j]);
            }
        }
    }
}

#[test]
fn username_aliases_user() {
    let a = gen_column(&ConfigColumnKind::User, "path", "|");
    let b = gen_column(&ConfigColumnKind::Username, "path", "|");
    assert_eq!(a, b);
    assert_eq!(a, ColumnObject::User);
}

#[test]
fn factory_routes_construction_parameters() {
    let d = gen_column(&ConfigColumnKind::Docker, "unix:///run/docker.sock", "|");
    assert_eq!(
        d,
        ColumnObject::Docker {
            path: String::from("unix:///run/docker.sock")
        }
    );
    let s = gen_column(&ConfigColumnKind::Separator, "unix:///run/docker.sock", "||");
    assert_eq!(
        s,
        ColumnObject::Separator {
            glyph: String::from("||")
        }
    );
}
