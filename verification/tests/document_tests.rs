use procs_config::config::{ConfigColorMode, ConfigSearchKind, ConfigSearchLogic};
use procs_config::document::{
    default_config, default_document, resolve, to_document, DocColumn, DocError, DocSearch,
    DocStyle, DocStyleByPercentage, Document, SearchField, StyleField,
};
use procs_config::style::ConfigColor;
use procs_config::Platform;

fn doc_with_pid() -> Document {
    Document {
        columns: vec![DocColumn {
            kind: "Pid".to_string(),
            style: "BrightYellow".to_string(),
            numeric_search: None,
            nonnumeric_search: None,
            align: None,
        }],
        style: None,
        search: None,
        display: None,
        sort: None,
        docker: None,
        pager: None,
    }
}

#[test]
fn style_table_overrides_only_what_it_names() {
    let mut doc = doc_with_pid();
    doc.style = Some(DocStyle {
        header: "Red".to_string(),
        unit: "Cyan".to_string(),
        by_percentage: Some(DocStyleByPercentage {
            color_000: "White".to_string(),
            color_025: "White".to_string(),
            color_050: "White".to_string(),
            color_075: "White".to_string(),
            color_100: "White".to_string(),
        }),
        by_state: None,
        by_unit: None,
    });
    let c = resolve(&doc, Platform::Linux).unwrap();
    assert_eq!(c.style.header, ConfigColor::Red);
    assert_eq!(c.style.unit, ConfigColor::Cyan);
    assert_eq!(c.style.by_percentage.color_000, ConfigColor::White);
    // The band tables the document omits keep their own defaults.
    assert_eq!(c.style.by_state.color_r, ConfigColor::BrightGreen);
    assert_eq!(c.style.by_unit.color_x, ConfigColor::BrightBlue);
}

#[test]
fn band_color_error_names_the_band_field() {
    let mut doc = doc_with_pid();
    doc.style = Some(DocStyle {
        header: "Red".to_string(),
        unit: "Cyan".to_string(),
        by_percentage: Some(DocStyleByPercentage {
            color_000: "White".to_string(),
            color_025: "Chartreuse".to_string(),
            color_050: "White".to_string(),
            color_075: "White".to_string(),
            color_100: "White".to_string(),
        }),
        by_state: None,
        by_unit: None,
    });
    assert_eq!(
        resolve(&doc, Platform::Linux),
        Err(DocError::StyleColorUnknown {
            field: StyleField::Pct025
        })
    );
}

#[test]
fn search_table_partial_override() {
    let mut doc = doc_with_pid();
    doc.search = Some(DocSearch {
        numeric_search: Some("Partial".to_string()),
        nonnumeric_search: None,
        logic: Some("Nor".to_string()),
    });
    let c = resolve(&doc, Platform::Mac).unwrap();
    assert_eq!(c.search.numeric_search, ConfigSearchKind::Partial);
    assert_eq!(c.search.nonnumeric_search, ConfigSearchKind::Partial);
    assert_eq!(c.search.logic, ConfigSearchLogic::Nor);
}

#[test]
fn bad_numeric_search_kind_names_the_field() {
    let mut doc = doc_with_pid();
    doc.search = Some(DocSearch {
        numeric_search: Some("Fuzzy".to_string()),
        nonnumeric_search: None,
        logic: None,
    });
    assert_eq!(
        resolve(&doc, Platform::Linux),
        Err(DocError::SearchFieldUnknown {
            field: SearchField::Numeric
        })
    );
}

#[test]
fn serialized_document_spells_every_field_out() {
    let c = default_config(Platform::Mac);
    let doc = to_document(&c);
    assert_eq!(doc.columns.len(), 21);
    assert_eq!(doc.columns[0].kind, "Pid");
    assert_eq!(doc.columns[0].style, "BrightYellow");
    assert_eq!(doc.columns[0].numeric_search, Some(true));
    assert_eq!(doc.columns[0].align, Some("Left".to_string()));
    assert_eq!(doc.columns[1].kind, "Username");
    let style = doc.style.unwrap();
    assert_eq!(style.header, "BrightWhite");
    assert_eq!(
        style.by_percentage.unwrap().color_050,
        "BrightYellow".to_string()
    );
    let display = doc.display.unwrap();
    assert_eq!(display.color_mode, Some("Auto".to_string()));
    assert_eq!(display.separator, Some("\u{2502}".to_string()));
    let sort = doc.sort.unwrap();
    assert_eq!(sort.column, Some(0));
    assert_eq!(sort.order, Some("Ascending".to_string()));
    assert_eq!(doc.docker.unwrap().path, "unix:///var/run/docker.sock");
    assert_eq!(doc.pager.unwrap().mode, Some("Auto".to_string()));
}

#[test]
fn builtin_document_leaves_all_tables_absent() {
    for p in [Platform::Linux, Platform::Mac] {
        let d = default_document(p);
        assert!(d.style.is_none());
        assert!(d.search.is_none());
        assert!(d.display.is_none());
        assert!(d.sort.is_none());
        assert!(d.docker.is_none());
        assert!(d.pager.is_none());
    }
}

#[test]
fn display_override_of_color_mode_and_glyphs() {
    let mut doc = doc_with_pid();
    doc.display = Some(procs_config::document::DocDisplay {
        show_self: Some(true),
        cut_to_terminal: None,
        cut_to_pager: None,
        cut_to_pipe: None,
        color_mode: Some("Disable".to_string()),
        separator: Some("|".to_string()),
        ascending: None,
        descending: None,
    });
    let c = resolve(&doc, Platform::Linux).unwrap();
    assert!(c.display.show_self);
    assert!(c.display.cut_to_terminal);
    assert_eq!(c.display.color_mode, ConfigColorMode::Disable);
    assert_eq!(c.display.separator, "|");
    assert_eq!(c.display.ascending, "\u{25b2}");
}

#[test]
fn errors_report_their_field_path() {
    let mut doc = doc_with_pid();
    doc.columns[0].kind = "NoSuchKind".to_string();
    let e = resolve(&doc, Platform::Linux).unwrap_err();
    assert_eq!(e.field_path(), "columns.kind");
    assert_eq!(e.column_index(), Some(0));

    let mut doc = doc_with_pid();
    doc.style = Some(DocStyle {
        header: "Mauve".to_string(),
        unit: "Cyan".to_string(),
        by_percentage: None,
        by_state: None,
        by_unit: None,
    });
    let e = resolve(&doc, Platform::Linux).unwrap_err();
    assert_eq!(e.field_path(), "style.header");
    assert_eq!(e.column_index(), None);
}
