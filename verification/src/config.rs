use vstd::prelude::*;

use crate::Platform;
use crate::chars_util::str_eq;
use crate::kind::{active_on, ConfigColumnKind};
use crate::style::{ConfigColumnAlign, ConfigColumnStyle, ConfigStyle};

verus! {


/// How a search term is matched against a column value.
#[derive(Clone, Copy, Debug, PartialEq, Eq, Structural)]
pub enum ConfigSearchKind {
    Exact,
    Partial,
}

/// The document spelling of a search kind.
pub open spec fn search_kind_name_spec(v: ConfigSearchKind) -> Seq<char> {
    match v {
        ConfigSearchKind::Exact => "Exact"@,
        ConfigSearchKind::Partial => "Partial"@,
    }
}

/// Executable counterpart of `search_kind_name_spec`.
pub fn search_kind_name(v: &ConfigSearchKind) -> (r: &'static str)
    ensures
        r@ == search_kind_name_spec(*v),
{
    match v {
        ConfigSearchKind::Exact => "Exact",
        ConfigSearchKind::Partial => "Partial",
    }
}

/// The search kind written as `s`, matched against the exact spelling.
pub open spec fn parse_search_kind_spec(s: Seq<char>) -> Option<ConfigSearchKind> {
    if s == "Exact"@ {
        Some(ConfigSearchKind::Exact)
    } else if s == "Partial"@ {
        Some(ConfigSearchKind::Partial)
    } else {
        None
    }
}

/// Executable counterpart of `parse_search_kind_spec`.
pub fn parse_search_kind(s: &str) -> (r: Option<ConfigSearchKind>)
    ensures
        r == parse_search_kind_spec(s@),
{
    if str_eq(s, "Exact") {
        Some(ConfigSearchKind::Exact)
    } else if str_eq(s, "Partial") {
        Some(ConfigSearchKind::Partial)
    } else {
        None
    }
}

/// Parsing a search kind's own spelling gives the value back.
pub proof fn lemma_parse_search_kind_name(v: ConfigSearchKind)
    ensures
        parse_search_kind_spec(search_kind_name_spec(v)) == Some(v),
{
    reveal_strlit("Exact");
    reveal_strlit("Partial");
    assert("Exact"@.len() == 5);
    assert("Partial"@.len() == 7);
    match v {
        ConfigSearchKind::Exact => {
            assert(parse_search_kind_spec(search_kind_name_spec(v)) == Some(ConfigSearchKind::Exact));
        },
        ConfigSearchKind::Partial => {
            assert(parse_search_kind_spec(search_kind_name_spec(v)) == Some(ConfigSearchKind::Partial));
        },
    }
}

/// How several search terms are combined.
#[derive(Clone, Copy, Debug, PartialEq, Eq, Structural)]
pub enum ConfigSearchLogic {
    And,
    Or,
    Nand,
    Nor,
}

/// The document spelling of a search logic.
pub open spec fn search_logic_name_spec(v: ConfigSearchLogic) -> Seq<char> {
    match v {
        ConfigSearchLogic::And => "And"@,
        ConfigSearchLogic::Or => "Or"@,
        ConfigSearchLogic::Nand => "Nand"@,
        ConfigSearchLogic::Nor => "Nor"@,
    }
}

/// Executable counterpart of `search_logic_name_spec`.
pub fn search_logic_name(v: &ConfigSearchLogic) -> (r: &'static str)
    ensures
        r@ == search_logic_name_spec(*v),
{
    match v {
        ConfigSearchLogic::And => "And",
        ConfigSearchLogic::Or => "Or",
        ConfigSearchLogic::Nand => "Nand",
        ConfigSearchLogic::Nor => "Nor",
    }
}

/// The search logic written as `s`, matched against the exact spelling.
pub open spec fn parse_search_logic_spec(s: Seq<char>) -> Option<ConfigSearchLogic> {
    if s == "And"@ {
        Some(ConfigSearchLogic::And)
    } else if s == "Or"@ {
        Some(ConfigSearchLogic::Or)
    } else if s == "Nand"@ {
        Some(ConfigSearchLogic::Nand)
    } else if s == "Nor"@ {
        Some(ConfigSearchLogic::Nor)
    } else {
        None
    }
}

/// Executable counterpart of `parse_search_logic_spec`.
pub fn parse_search_logic(s: &str) -> (r: Option<ConfigSearchLogic>)
    ensures
        r == parse_search_logic_spec(s@),
{
    if str_eq(s, "And") {
        Some(ConfigSearchLogic::And)
    } else if str_eq(s, "Or") {
        Some(ConfigSearchLogic::Or)
    } else if str_eq(s, "Nand") {
        Some(ConfigSearchLogic::Nand)
    } else if str_eq(s, "Nor") {
        Some(ConfigSearchLogic::Nor)
    } else {
        None
    }
}

/// Parsing a search logic's own spelling gives the value back.
pub proof fn lemma_parse_search_logic_name(v: ConfigSearchLogic)
    ensures
        parse_search_logic_spec(search_logic_name_spec(v)) == Some(v),
{
    reveal_strlit("And");
    reveal_strlit("Or");
    reveal_strlit("Nand");
    reveal_strlit("Nor");
    assert("And"@.len() == 3);
    assert("Or"@.len() == 2);
    assert("Nand"@.len() == 4);
    assert("Nor"@.len() == 3);
    assert("And"@[0] == 'A');
    assert("Nor"@[0] == 'N');
    match v {
        ConfigSearchLogic::And => {
            assert(parse_search_logic_spec(search_logic_name_spec(v)) == Some(ConfigSearchLogic::And));
        },
        ConfigSearchLogic::Or => {
            assert(parse_search_logic_spec(search_logic_name_spec(v)) == Some(ConfigSearchLogic::Or));
        },
        ConfigSearchLogic::Nand => {
            assert(parse_search_logic_spec(search_logic_name_spec(v)) == Some(ConfigSearchLogic::Nand));
        },
        ConfigSearchLogic::Nor => {
            assert(parse_search_logic_spec(search_logic_name_spec(v)) == Some(ConfigSearchLogic::Nor));
        },
    }
}

/// When colored output is emitted.
#[derive(Clone, Copy, Debug, PartialEq, Eq, Structural)]
pub enum ConfigColorMode {
    Auto,
    Always,
    Disable,
}

/// The document spelling of a color mode.
pub open spec fn color_mode_name_spec(v: ConfigColorMode) -> Seq<char> {
    match v {
        ConfigColorMode::Auto => "Auto"@,
        ConfigColorMode::Always => "Always"@,
        ConfigColorMode::Disable => "Disable"@,
    }
}

/// Executable counterpart of `color_mode_name_spec`.
pub fn color_mode_name(v: &ConfigColorMode) -> (r: &'static str)
    ensures
        r@ == color_mode_name_spec(*v),
{
    match v {
        ConfigColorMode::Auto => "Auto",
        ConfigColorMode::Always => "Always",
        ConfigColorMode::Disable => "Disable",
    }
}

/// The color mode written as `s`, matched against the exact spelling.
pub open spec fn parse_color_mode_spec(s: Seq<char>) -> Option<ConfigColorMode> {
    if s == "Auto"@ {
        Some(ConfigColorMode::Auto)
    } else if s == "Always"@ {
        Some(ConfigColorMode::Always)
    } else if s == "Disable"@ {
        Some(ConfigColorMode::Disable)
    } else {
        None
    }
}

/// Executable counterpart of `parse_color_mode_spec`.
pub fn parse_color_mode(s: &str) -> (r: Option<ConfigColorMode>)
    ensures
        r == parse_color_mode_spec(s@),
{
    if str_eq(s, "Auto") {
        Some(ConfigColorMode::Auto)
    } else if str_eq(s, "Always") {
        Some(ConfigColorMode::Always)
    } else if str_eq(s, "Disable") {
        Some(ConfigColorMode::Disable)
    } else {
        None
    }
}

/// Parsing a color mode's own spelling gives the value back.
pub proof fn lemma_parse_color_mode_name(v: ConfigColorMode)
    ensures
        parse_color_mode_spec(color_mode_name_spec(v)) == Some(v),
{
    reveal_strlit("Auto");
    reveal_strlit("Always");
    reveal_strlit("Disable");
    assert("Auto"@.len() == 4);
    assert("Always"@.len() == 6);
    assert("Disable"@.len() == 7);
    match v {
        ConfigColorMode::Auto => {
            assert(parse_color_mode_spec(color_mode_name_spec(v)) == Some(ConfigColorMode::Auto));
        },
        ConfigColorMode::Always => {
            assert(parse_color_mode_spec(color_mode_name_spec(v)) == Some(ConfigColorMode::Always));
        },
        ConfigColorMode::Disable => {
            assert(parse_color_mode_spec(color_mode_name_spec(v)) == Some(ConfigColorMode::Disable));
        },
    }
}

/// The direction of the default sort.
#[derive(Clone, Copy, Debug, PartialEq, Eq, Structural)]
pub enum ConfigSortOrder {
    Ascending,
    Descending,
}

/// The document spelling of a sort order.
pub open spec fn sort_order_name_spec(v: ConfigSortOrder) -> Seq<char> {
    match v {
        ConfigSortOrder::Ascending => "Ascending"@,
        ConfigSortOrder::Descending => "Descending"@,
    }
}

/// Executable counterpart of `sort_order_name_spec`.
pub fn sort_order_name(v: &ConfigSortOrder) -> (r: &'static str)
    ensures
        r@ == sort_order_name_spec(*v),
{
    match v {
        ConfigSortOrder::Ascending => "Ascending",
        ConfigSortOrder::Descending => "Descending",
    }
}

/// The sort order written as `s`, matched against the exact spelling.
pub open spec fn parse_sort_order_spec(s: Seq<char>) -> Option<ConfigSortOrder> {
    if s == "Ascending"@ {
        Some(ConfigSortOrder::Ascending)
    } else if s == "Descending"@ {
        Some(ConfigSortOrder::Descending)
    } else {
        None
    }
}

/// Executable counterpart of `parse_sort_order_spec`.
pub fn parse_sort_order(s: &str) -> (r: Option<ConfigSortOrder>)
    ensures
        r == parse_sort_order_spec(s@),
{
    if str_eq(s, "Ascending") {
        Some(ConfigSortOrder::Ascending)
    } else if str_eq(s, "Descending") {
        Some(ConfigSortOrder::Descending)
    } else {
        None
    }
}

/// Parsing a sort order's own spelling gives the value back.
pub proof fn lemma_parse_sort_order_name(v: ConfigSortOrder)
    ensures
        parse_sort_order_spec(sort_order_name_spec(v)) == Some(v),
{
    reveal_strlit("Ascending");
    reveal_strlit("Descending");
    assert("Ascending"@.len() == 9);
    assert("Descending"@.len() == 10);
    match v {
        ConfigSortOrder::Ascending => {
            assert(parse_sort_order_spec(sort_order_name_spec(v)) == Some(ConfigSortOrder::Ascending));
        },
        ConfigSortOrder::Descending => {
            assert(parse_sort_order_spec(sort_order_name_spec(v)) == Some(ConfigSortOrder::Descending));
        },
    }
}

/// When output is routed through a pager.
#[derive(Clone, Copy, Debug, PartialEq, Eq, Structural)]
pub enum ConfigPagerMode {
    Auto,
    Always,
    Disable,
}

/// The document spelling of a pager mode.
pub open spec fn pager_mode_name_spec(v: ConfigPagerMode) -> Seq<char> {
    match v {
        ConfigPagerMode::Auto => "Auto"@,
        ConfigPagerMode::Always => "Always"@,
        ConfigPagerMode::Disable => "Disable"@,
    }
}

/// Executable counterpart of `pager_mode_name_spec`.
pub fn pager_mode_name(v: &ConfigPagerMode) -> (r: &'static str)
    ensures
        r@ == pager_mode_name_spec(*v),
{
    match v {
        ConfigPagerMode::Auto => "Auto",
        ConfigPagerMode::Always => "Always",
        ConfigPagerMode::Disable => "Disable",
    }
}

/// The pager mode written as `s`, matched against the exact spelling.
pub open spec fn parse_pager_mode_spec(s: Seq<char>) -> Option<ConfigPagerMode> {
    if s == "Auto"@ {
        Some(ConfigPagerMode::Auto)
    } else if s == "Always"@ {
        Some(ConfigPagerMode::Always)
    } else if s == "Disable"@ {
        Some(ConfigPagerMode::Disable)
    } else {
        None
    }
}

/// Executable counterpart of `parse_pager_mode_spec`.
pub fn parse_pager_mode(s: &str) -> (r: Option<ConfigPagerMode>)
    ensures
        r == parse_pager_mode_spec(s@),
{
    if str_eq(s, "Auto") {
        Some(ConfigPagerMode::Auto)
    } else if str_eq(s, "Always") {
        Some(ConfigPagerMode::Always)
    } else if str_eq(s, "Disable") {
        Some(ConfigPagerMode::Disable)
    } else {
        None
    }
}

/// Parsing a pager mode's own spelling gives the value back.
pub proof fn lemma_parse_pager_mode_name(v: ConfigPagerMode)
    ensures
        parse_pager_mode_spec(pager_mode_name_spec(v)) == Some(v),
{
    reveal_strlit("Auto");
    reveal_strlit("Always");
    reveal_strlit("Disable");
    assert("Auto"@.len() == 4);
    assert("Always"@.len() == 6);
    assert("Disable"@.len() == 7);
    match v {
        ConfigPagerMode::Auto => {
            assert(parse_pager_mode_spec(pager_mode_name_spec(v)) == Some(ConfigPagerMode::Auto));
        },
        ConfigPagerMode::Always => {
            assert(parse_pager_mode_spec(pager_mode_name_spec(v)) == Some(ConfigPagerMode::Always));
        },
        ConfigPagerMode::Disable => {
            assert(parse_pager_mode_spec(pager_mode_name_spec(v)) == Some(ConfigPagerMode::Disable));
        },
    }
}

/// One column as written in a configuration document, fully resolved.
#[derive(Clone, Copy, Debug, PartialEq, Eq, Structural)]
pub struct ConfigColumn {
    pub kind: ConfigColumnKind,
    pub style: ConfigColumnStyle,
    pub numeric_search: bool,
    pub nonnumeric_search: bool,
    pub align: ConfigColumnAlign,
}

/// Search defaults.
#[derive(Clone, Copy, Debug, PartialEq, Eq, Structural)]
pub struct ConfigSearch {
    pub numeric_search: ConfigSearchKind,
    pub nonnumeric_search: ConfigSearchKind,
    pub logic: ConfigSearchLogic,
}

/// The default search settings: exact numeric match, partial
/// non-numeric match, terms combined with and.
pub open spec fn default_config_search() -> ConfigSearch {
    ConfigSearch {
        numeric_search: ConfigSearchKind::Exact,
        nonnumeric_search: ConfigSearchKind::Partial,
        logic: ConfigSearchLogic::And,
    }
}

impl Default for ConfigSearch {
    fn default() -> (r: Self)
        ensures
            r == default_config_search(),
    {
        ConfigSearch {
            numeric_search: ConfigSearchKind::Exact,
            nonnumeric_search: ConfigSearchKind::Partial,
            logic: ConfigSearchLogic::And,
        }
    }
}

/// Display flags: self-process visibility, truncation, color mode and the
/// separator and sort-marker glyphs.
#[derive(Clone, Debug, PartialEq)]
pub struct ConfigDisplay {
    pub show_self: bool,
    pub cut_to_terminal: bool,
    pub cut_to_pager: bool,
    pub cut_to_pipe: bool,
    pub color_mode: ConfigColorMode,
    pub separator: String,
    pub ascending: String,
    pub descending: String,
}

/// Mathematical shape of the display flags.
#[verifier::ext_equal]
pub ghost struct ConfigDisplayV {
    pub show_self: bool,
    pub cut_to_terminal: bool,
    pub cut_to_pager: bool,
    pub cut_to_pipe: bool,
    pub color_mode: ConfigColorMode,
    pub separator: Seq<char>,
    pub ascending: Seq<char>,
    pub descending: Seq<char>,
}

impl View for ConfigDisplay {
    type V = ConfigDisplayV;

    open spec fn view(&self) -> ConfigDisplayV {
        ConfigDisplayV {
            show_self: self.show_self,
            cut_to_terminal: self.cut_to_terminal,
            cut_to_pager: self.cut_to_pager,
            cut_to_pipe: self.cut_to_pipe,
            color_mode: self.color_mode,
            separator: self.separator@,
            ascending: self.ascending@,
            descending: self.descending@,
        }
    }
}

/// The default display flags: hide the monitoring process itself, cut to
/// the terminal width only, automatic color, and the box-drawing bar and
/// triangle glyphs.
pub open spec fn default_config_display() -> ConfigDisplayV {
    ConfigDisplayV {
        show_self: false,
        cut_to_terminal: true,
        cut_to_pager: false,
        cut_to_pipe: false,
        color_mode: ConfigColorMode::Auto,
        separator: "\u{2502}"@,
        ascending: "\u{25b2}"@,
        descending: "\u{25bc}"@,
    }
}

impl Default for ConfigDisplay {
    fn default() -> (r: Self)
        ensures
            r@ == default_config_display(),
    {
        ConfigDisplay {
            show_self: false,
            cut_to_terminal: true,
            cut_to_pager: false,
            cut_to_pipe: false,
            color_mode: ConfigColorMode::Auto,
            separator: "\u{2502}".to_owned(),
            ascending: "\u{25b2}".to_owned(),
            descending: "\u{25bc}".to_owned(),
        }
    }
}

/// Sort defaults: which configured column to sort by, and the direction.
#[derive(Clone, Copy, Debug, PartialEq, Eq, Structural)]
pub struct ConfigSort {
    pub column: usize,
    pub order: ConfigSortOrder,
}

/// The default sort: the first configured column, ascending.
pub open spec fn default_config_sort() -> ConfigSort {
    ConfigSort { column: 0, order: ConfigSortOrder::Ascending }
}

impl Default for ConfigSort {
    fn default() -> (r: Self)
        ensures
            r == default_config_sort(),
    {
        ConfigSort { column: 0, order: ConfigSortOrder::Ascending }
    }
}

/// Where the Docker daemon is reached for container names.
#[derive(Clone, Debug, PartialEq)]
pub struct ConfigDocker {
    pub path: String,
}

/// Mathematical shape of the Docker connection settings.
#[verifier::ext_equal]
pub ghost struct ConfigDockerV {
    pub path: Seq<char>,
}

impl View for ConfigDocker {
    type V = ConfigDockerV;

    open spec fn view(&self) -> ConfigDockerV {
        ConfigDockerV { path: self.path@ }
    }
}

/// The default Docker daemon address.
pub open spec fn default_config_docker() -> ConfigDockerV {
    ConfigDockerV { path: "unix:///var/run/docker.sock"@ }
}

impl Default for ConfigDocker {
    fn default() -> (r: Self)
        ensures
            r@ == default_config_docker(),
    {
        ConfigDocker { path: "unix:///var/run/docker.sock".to_owned() }
    }
}

/// Pager behavior, with an optional explicit pager command.
#[derive(Clone, Debug, PartialEq)]
pub struct ConfigPager {
    pub mode: ConfigPagerMode,
    pub command: Option<String>,
}

/// Mathematical shape of the pager settings.
#[verifier::ext_equal]
pub ghost struct ConfigPagerV {
    pub mode: ConfigPagerMode,
    pub command: Option<Seq<char>>,
}

impl View for ConfigPager {
    type V = ConfigPagerV;

    open spec fn view(&self) -> ConfigPagerV {
        ConfigPagerV { mode: self.mode, command: self.command.deep_view() }
    }
}

/// The default pager settings: automatic, no explicit command.
pub open spec fn default_config_pager() -> ConfigPagerV {
    ConfigPagerV { mode: ConfigPagerMode::Auto, command: None }
}

impl Default for ConfigPager {
    fn default() -> (r: Self)
        ensures
            r@ == default_config_pager(),
    {
        ConfigPager { mode: ConfigPagerMode::Auto, command: None }
    }
}

/// A fully resolved configuration: the ordered column list (order is
/// display order) and every settings sub-record.
#[derive(Clone, Debug, PartialEq)]
pub struct Config {
    pub columns: Vec<ConfigColumn>,
    pub style: ConfigStyle,
    pub search: ConfigSearch,
    pub display: ConfigDisplay,
    pub sort: ConfigSort,
    pub docker: ConfigDocker,
    pub pager: ConfigPager,
}

/// Mathematical shape of a resolved configuration.
#[verifier::ext_equal]
pub ghost struct ConfigV {
    pub columns: Seq<ConfigColumn>,
    pub style: ConfigStyle,
    pub search: ConfigSearch,
    pub display: ConfigDisplayV,
    pub sort: ConfigSort,
    pub docker: ConfigDockerV,
    pub pager: ConfigPagerV,
}

impl View for Config {
    type V = ConfigV;

    open spec fn view(&self) -> ConfigV {
        ConfigV {
            columns: self.columns@,
            style: self.style,
            search: self.search,
            display: self.display@,
            sort: self.sort,
            docker: self.docker@,
            pager: self.pager@,
        }
    }
}

/// Every configured column kind belongs to the active catalog of `p`.
pub open spec fn config_supported(c: ConfigV, p: Platform) -> bool {
    forall|i: int| 0 <= i < c.columns.len() ==> active_on(p, c.columns[i].kind)
}

} // verus!
