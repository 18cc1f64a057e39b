use procs_config::column::instantiate_columns;
use procs_config::config::{
    Config, ConfigColorMode, ConfigColumn, ConfigPager, ConfigPagerMode, ConfigSearchKind,
    ConfigSearchLogic, ConfigSortOrder,
};
use procs_config::document::{
    default_config, default_document, resolve, to_document, DocColumn, DocError, DocSearch,
    DocSort, DocStyle, Document, SearchField, StyleField,
};
use procs_config::kind::ConfigColumnKind;
use procs_config::style::{ConfigColumnAlign, ConfigColumnStyle};
use procs_config::Platform;

fn empty_doc() -> Document {
    Document {
        columns: Vec::new(),
        style: None,
        search: None,
        display: None,
        sort: None,
        docker: None,
        pager: None,
    }
}

fn col(kind: &str, style: &str) -> DocColumn {
    DocColumn {
        kind: kind.to_string(),
        style: style.to_string(),
        numeric_search: None,
        nonnumeric_search: None,
        align: None,
    }
}

#[test]
fn deep_defaulting_single_column_document() {
    let mut doc = empty_doc();
    doc.columns.push(col("Pid", "BrightYellow"));
    let c = resolve(&doc, Platform::Linux).unwrap();
    assert_eq!(c.columns.len(), 1);
    assert_eq!(c.columns[0].kind, ConfigColumnKind::Pid);
    assert_eq!(c.columns[0].style, ConfigColumnStyle::BrightYellow);
    assert!(!c.columns[0].numeric_search);
    assert!(!c.columns[0].nonnumeric_search);
    assert_eq!(c.columns[0].align, ConfigColumnAlign::Left);
    // Omitted sub-records take their own independent defaults.
    assert_eq!(c.search.logic, ConfigSearchLogic::And);
    assert_eq!(c.search.numeric_search, ConfigSearchKind::Exact);
    assert_eq!(c.search.nonnumeric_search, ConfigSearchKind::Partial);
    assert_eq!(c.display.color_mode, ConfigColorMode::Auto);
    assert_eq!(c.sort.order, ConfigSortOrder::Ascending);
    assert_eq!(c.sort.column, 0);
    assert_eq!(c.docker.path, "unix:///var/run/docker.sock");
    assert_eq!(
        c.pager,
        ConfigPager {
            mode: ConfigPagerMode::Auto,
            command: None
        }
    );
    assert_eq!(c.display.separator, "\u{2502}");
    assert_eq!(c.display.ascending, "\u{25b2}");
    assert_eq!(c.display.descending, "\u{25bc}");
    assert!(!c.display.show_self);
    assert!(c.display.cut_to_terminal);
}

#[test]
fn builtin_default_resolves_on_linux() {
    let c = resolve(&default_document(Platform::Linux), Platform::Linux).unwrap();
    assert_eq!(c, default_config(Platform::Linux));
    assert_eq!(c.columns.len(), 22);
    assert!(c
        .columns
        .iter()
        .any(|cc| cc.kind == ConfigColumnKind::VmPeak));
    assert!(c.columns.iter().any(|cc| cc.kind == ConfigColumnKind::User));
    assert_eq!(c.columns[0].kind, ConfigColumnKind::Pid);
    assert!(c.columns[0].numeric_search);
}

#[test]
fn builtin_default_resolves_on_mac() {
    let c = resolve(&default_document(Platform::Mac), Platform::Mac).unwrap();
    assert_eq!(c, default_config(Platform::Mac));
    assert_eq!(c.columns.len(), 21);
    // The peak-virtual-size column exists only in the Linux layout.
    assert!(!c
        .columns
        .iter()
        .any(|cc| cc.kind == ConfigColumnKind::VmPeak));
    assert!(c
        .columns
        .iter()
        .any(|cc| cc.kind == ConfigColumnKind::Username));
}

#[test]
fn builtin_default_keeps_duplicate_separators() {
    let c = default_config(Platform::Linux);
    let seps = c
        .columns
        .iter()
        .filter(|cc| cc.kind == ConfigColumnKind::Separator)
        .count();
    assert_eq!(seps, 3);
}

#[test]
fn round_trip_default_config_linux() {
    let c = default_config(Platform::Linux);
    let doc = to_document(&c);
    assert_eq!(resolve(&doc, Platform::Linux), Ok(c));
}

#[test]
fn round_trip_default_config_mac() {
    let c = default_config(Platform::Mac);
    let doc = to_document(&c);
    assert_eq!(resolve(&doc, Platform::Mac), Ok(c));
}

#[test]
fn round_trip_resolved_document() {
    let mut doc = empty_doc();
    doc.columns.push(DocColumn {
        kind: "State".to_string(),
        style: "ByState".to_string(),
        numeric_search: Some(true),
        nonnumeric_search: Some(false),
        align: Some("Center".to_string()),
    });
    doc.sort = Some(DocSort {
        column: Some(7),
        order: Some("Descending".to_string()),
    });
    let c = resolve(&doc, Platform::Mac).unwrap();
    let again = resolve(&to_document(&c), Platform::Mac).unwrap();
    assert_eq!(c, again);
}

#[test]
fn unsupported_kind_is_a_document_error() {
    let mut doc = empty_doc();
    doc.columns.push(col("Eip", "BrightYellow"));
    assert_eq!(
        resolve(&doc, Platform::Mac),
        Err(DocError::ColumnKindUnsupported { index: 0 })
    );
    assert!(resolve(&doc, Platform::Linux).is_ok());
}

#[test]
fn unknown_kind_is_a_document_error() {
    let mut doc = empty_doc();
    doc.columns.push(col("Pid", "BrightYellow"));
    doc.columns.push(col("NoSuchKind", "BrightYellow"));
    assert_eq!(
        resolve(&doc, Platform::Linux),
        Err(DocError::ColumnKindUnknown { index: 1 })
    );
}

#[test]
fn unknown_style_and_align_are_document_errors() {
    let mut doc = empty_doc();
    doc.columns.push(col("Pid", "Sparkly"));
    assert_eq!(
        resolve(&doc, Platform::Linux),
        Err(DocError::ColumnStyleUnknown { index: 0 })
    );
    let mut doc = empty_doc();
    let mut c = col("Pid", "BrightYellow");
    c.align = Some("Middle".to_string());
    doc.columns.push(c);
    assert_eq!(
        resolve(&doc, Platform::Linux),
        Err(DocError::ColumnAlignUnknown { index: 0 })
    );
}

#[test]
fn unknown_style_table_color_is_a_document_error() {
    let mut doc = empty_doc();
    doc.style = Some(DocStyle {
        header: "Ultraviolet".to_string(),
        unit: "BrightWhite".to_string(),
        by_percentage: None,
        by_state: None,
        by_unit: None,
    });
    assert_eq!(
        resolve(&doc, Platform::Linux),
        Err(DocError::StyleColorUnknown {
            field: StyleField::Header
        })
    );
}

#[test]
fn unknown_search_field_is_a_document_error() {
    let mut doc = empty_doc();
    doc.search = Some(DocSearch {
        numeric_search: None,
        nonnumeric_search: None,
        logic: Some("Xor".to_string()),
    });
    assert_eq!(
        resolve(&doc, Platform::Linux),
        Err(DocError::SearchFieldUnknown {
            field: SearchField::Logic
        })
    );
}

#[test]
fn unknown_display_sort_pager_spellings_are_document_errors() {
    let mut doc = empty_doc();
    doc.display = Some(procs_config::document::DocDisplay {
        show_self: None,
        cut_to_terminal: None,
        cut_to_pager: None,
        cut_to_pipe: None,
        color_mode: Some("Sometimes".to_string()),
        separator: None,
        ascending: None,
        descending: None,
    });
    assert_eq!(
        resolve(&doc, Platform::Linux),
        Err(DocError::DisplayColorModeUnknown)
    );

    let mut doc = empty_doc();
    doc.sort = Some(DocSort {
        column: None,
        order: Some("Sideways".to_string()),
    });
    assert_eq!(resolve(&doc, Platform::Linux), Err(DocError::SortOrderUnknown));

    let mut doc = empty_doc();
    doc.pager = Some(procs_config::document::DocPager {
        mode: Some("Never".to_string()),
        command: None,
    });
    assert_eq!(resolve(&doc, Platform::Linux), Err(DocError::PagerModeUnknown));
}

#[test]
fn document_order_and_duplicates_are_preserved() {
    let mut doc = empty_doc();
    doc.columns.push(col("Separator", "White"));
    doc.columns.push(col("Pid", "BrightYellow"));
    doc.columns.push(col("Separator", "White"));
    let c = resolve(&doc, Platform::Mac).unwrap();
    let kinds: Vec<ConfigColumnKind> = c.columns.iter().map(|cc| cc.kind).collect();
    assert_eq!(
        kinds,
        vec![
            ConfigColumnKind::Separator,
            ConfigColumnKind::Pid,
            ConfigColumnKind::Separator
        ]
    );
}

#[test]
fn instantiate_realizes_every_column_in_order() {
    let c = default_config(Platform::Linux);
    let infos = instantiate_columns(&c);
    assert_eq!(infos.len(), c.columns.len());
    for (info, cc) in infos.iter().zip(c.columns.iter()) {
        assert_eq!(info.kind, cc.kind);
        assert_eq!(info.style, cc.style);
        assert_eq!(info.align, cc.align);
        assert_eq!(info.numeric_search, cc.numeric_search);
        assert_eq!(info.nonnumeric_search, cc.nonnumeric_search);
    }
    let sep = infos
        .iter()
        .find(|i| i.kind == ConfigColumnKind::Separator)
        .unwrap();
    assert_eq!(
        sep.column,
        procs_config::column::ColumnObject::Separator {
            glyph: "\u{2502}".to_string()
        }
    );
}

#[test]
fn resolve_respects_explicit_fields_over_defaults() {
    let mut doc = empty_doc();
    doc.columns.push(DocColumn {
        kind: "Nice".to_string(),
        style: "BrightMagenta".to_string(),
        numeric_search: Some(true),
        nonnumeric_search: Some(true),
        align: Some("Right".to_string()),
    });
    let c = resolve(&doc, Platform::Mac).unwrap();
    assert_eq!(
        c.columns[0],
        ConfigColumn {
            kind: ConfigColumnKind::Nice,
            style: ConfigColumnStyle::BrightMagenta,
            numeric_search: true,
            nonnumeric_search: true,
            align: ConfigColumnAlign::Right,
        }
    );
}

#[test]
fn resolution_is_all_or_nothing() {
    // A failing later entry aborts the whole document, even though the
    // first entry is fine.
    let mut doc = empty_doc();
    doc.columns.push(col("Pid", "BrightYellow"));
    doc.columns.push(col("Eip", "BrightBlue"));
    let r: Result<Config, DocError> = resolve(&doc, Platform::Mac);
    assert_eq!(r, Err(DocError::ColumnKindUnsupported { index: 1 }));
}
