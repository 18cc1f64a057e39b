use procs_config::config::{ConfigDisplay, ConfigDocker, ConfigSearch, ConfigSort};
use procs_config::style::{
    ConfigColor, ConfigStyle, ConfigStyleByPercentage, ConfigStyleByState, ConfigStyleByUnit,
};

#[test]
fn default_percentage_bands_are_blue_green_yellow_red_red() {
    let t = ConfigStyleByPercentage::default();
    assert_eq!(t.color_000, ConfigColor::BrightBlue);
    assert_eq!(t.color_025, ConfigColor::BrightGreen);
    assert_eq!(t.color_050, ConfigColor::BrightYellow);
    assert_eq!(t.color_075, ConfigColor::BrightRed);
    assert_eq!(t.color_100, ConfigColor::BrightRed);
}

#[test]
fn default_unit_bands_are_blue_green_yellow_red_red_blue() {
    let t = ConfigStyleByUnit::default();
    assert_eq!(t.color_k, ConfigColor::BrightBlue);
    assert_eq!(t.color_m, ConfigColor::BrightGreen);
    assert_eq!(t.color_g, ConfigColor::BrightYellow);
    assert_eq!(t.color_t, ConfigColor::BrightRed);
    assert_eq!(t.color_p, ConfigColor::BrightRed);
    assert_eq!(t.color_x, ConfigColor::BrightBlue);
}

#[test]
fn default_state_bands_match_the_documented_colors() {
    let t = ConfigStyleByState::default();
    assert_eq!(t.color_d, ConfigColor::BrightRed);
    assert_eq!(t.color_r, ConfigColor::BrightGreen);
    assert_eq!(t.color_s, ConfigColor::BrightBlue);
    assert_eq!(t.color_t, ConfigColor::BrightCyan);
    assert_eq!(t.color_z, ConfigColor::BrightMagenta);
    assert_eq!(t.color_x, ConfigColor::BrightMagenta);
    assert_eq!(t.color_k, ConfigColor::BrightYellow);
    assert_eq!(t.color_w, ConfigColor::BrightYellow);
    assert_eq!(t.color_p, ConfigColor::BrightYellow);
}

#[test]
fn default_style_header_and_unit_are_bright_white() {
    let s = ConfigStyle::default();
    assert_eq!(s.header, ConfigColor::BrightWhite);
    assert_eq!(s.unit, ConfigColor::BrightWhite);
    assert_eq!(s.by_percentage, ConfigStyleByPercentage::default());
    assert_eq!(s.by_state, ConfigStyleByState::default());
    assert_eq!(s.by_unit, ConfigStyleByUnit::default());
}

#[test]
fn default_sub_records_match_their_documented_values() {
    let s = ConfigSearch::default();
    assert_eq!(
        s,
        ConfigSearch {
            numeric_search: procs_config::config::ConfigSearchKind::Exact,
            nonnumeric_search: procs_config::config::ConfigSearchKind::Partial,
            logic: procs_config::config::ConfigSearchLogic::And,
        }
    );
    let d = ConfigDisplay::default();
    assert!(!d.show_self);
    assert!(d.cut_to_terminal);
    assert!(!d.cut_to_pager);
    assert!(!d.cut_to_pipe);
    assert_eq!(d.color_mode, procs_config::config::ConfigColorMode::Auto);
    assert_eq!(d.separator, "\u{2502}");
    assert_eq!(d.ascending, "\u{25b2}");
    assert_eq!(d.descending, "\u{25bc}");
    let so = ConfigSort::default();
    assert_eq!(so.column, 0);
    assert_eq!(so.order, procs_config::config::ConfigSortOrder::Ascending);
    assert_eq!(
        ConfigDocker::default().path,
        "unix:///var/run/docker.sock"
    );
}
