use vstd::prelude::*;

use crate::Platform;
use crate::config::{
    color_mode_name, color_mode_name_spec, default_config_display, default_config_docker,
    default_config_pager, default_config_search, default_config_sort, pager_mode_name,
    pager_mode_name_spec, parse_color_mode, parse_color_mode_spec, parse_pager_mode,
    parse_pager_mode_spec, parse_search_kind, parse_search_kind_spec, parse_search_logic,
    parse_search_logic_spec, parse_sort_order, parse_sort_order_spec, search_kind_name,
    search_kind_name_spec, search_logic_name, search_logic_name_spec, sort_order_name,
    sort_order_name_spec, Config, ConfigColumn, ConfigDisplay, ConfigDisplayV, ConfigDocker,
    ConfigDockerV, ConfigPager, ConfigPagerV, ConfigSearch, ConfigSort, ConfigV,
};
use crate::kind::{active_on, is_active, kind_name, kind_name_spec, parse_kind_name, parse_kind_spec, ConfigColumnKind};
use crate::config::config_supported;
use crate::style::lemma_parse_color_name;
use crate::style::{
    align_name, align_name_spec, color_name, color_name_spec, default_by_percentage,
    default_by_state, default_by_unit, default_config_style, parse_align, parse_align_spec,
    parse_color, parse_color_spec, parse_style, parse_style_spec, style_name, style_name_spec,
    ConfigColumnAlign, ConfigColumnStyle, ConfigStyle, ConfigStyleByPercentage, ConfigStyleByState,
    ConfigStyleByUnit,
};

verus! {

/// One column as written in a configuration document: the kind and style
/// by their spellings, the remaining fields optional.
#[derive(Clone, Debug, PartialEq)]
pub struct DocColumn {
    pub kind: String,
    pub style: String,
    pub numeric_search: Option<bool>,
    pub nonnumeric_search: Option<bool>,
    pub align: Option<String>,
}

/// Mathematical shape of a document column entry.
#[verifier::ext_equal]
pub ghost struct DocColumnV {
    pub kind: Seq<char>,
    pub style: Seq<char>,
    pub numeric_search: Option<bool>,
    pub nonnumeric_search: Option<bool>,
    pub align: Option<Seq<char>>,
}

impl View for DocColumn {
    type V = DocColumnV;

    open spec fn view(&self) -> DocColumnV {
        DocColumnV {
            kind: self.kind@,
            style: self.style@,
            numeric_search: self.numeric_search,
            nonnumeric_search: self.nonnumeric_search,
            align: self.align.deep_view(),
        }
    }
}

/// The percentage-banded color table of a document, colors written as spellings.
#[derive(Clone, Debug, PartialEq)]
pub struct DocStyleByPercentage {
    pub color_000: String,
    pub color_025: String,
    pub color_050: String,
    pub color_075: String,
    pub color_100: String,
}

/// Mathematical shape of a document's percentage-banded table.
#[verifier::ext_equal]
pub ghost struct DocStyleByPercentageV {
    pub color_000: Seq<char>,
    pub color_025: Seq<char>,
    pub color_050: Seq<char>,
    pub color_075: Seq<char>,
    pub color_100: Seq<char>,
}

impl View for DocStyleByPercentage {
    type V = DocStyleByPercentageV;

    open spec fn view(&self) -> DocStyleByPercentageV {
        DocStyleByPercentageV {
            color_000: self.color_000@,
            color_025: self.color_025@,
            color_050: self.color_050@,
            color_075: self.color_075@,
            color_100: self.color_100@,
        }
    }
}

/// The byte-unit-banded color table of a document, colors written as spellings.
#[derive(Clone, Debug, PartialEq)]
pub struct DocStyleByUnit {
    pub color_k: String,
    pub color_m: String,
    pub color_g: String,
    pub color_t: String,
    pub color_p: String,
    pub color_x: String,
}

/// Mathematical shape of a document's byte-unit-banded table.
#[verifier::ext_equal]
pub ghost struct DocStyleByUnitV {
    pub color_k: Seq<char>,
    pub color_m: Seq<char>,
    pub color_g: Seq<char>,
    pub color_t: Seq<char>,
    pub color_p: Seq<char>,
    pub color_x: Seq<char>,
}

impl View for DocStyleByUnit {
    type V = DocStyleByUnitV;

    open spec fn view(&self) -> DocStyleByUnitV {
        DocStyleByUnitV {
            color_k: self.color_k@,
            color_m: self.color_m@,
            color_g: self.color_g@,
            color_t: self.color_t@,
            color_p: self.color_p@,
            color_x: self.color_x@,
        }
    }
}

/// The process-state-banded color table of a document, colors written as spellings.
#[derive(Clone, Debug, PartialEq)]
pub struct DocStyleByState {
    pub color_d: String,
    pub color_r: String,
    pub color_s: String,
    pub color_t: String,
    pub color_z: String,
    pub color_x: String,
    pub color_k: String,
    pub color_w: String,
    pub color_p: String,
}

/// Mathematical shape of a document's process-state-banded table.
#[verifier::ext_equal]
pub ghost struct DocStyleByStateV {
    pub color_d: Seq<char>,
    pub color_r: Seq<char>,
    pub color_s: Seq<char>,
    pub color_t: Seq<char>,
    pub color_z: Seq<char>,
    pub color_x: Seq<char>,
    pub color_k: Seq<char>,
    pub color_w: Seq<char>,
    pub color_p: Seq<char>,
}

impl View for DocStyleByState {
    type V = DocStyleByStateV;

    open spec fn view(&self) -> DocStyleByStateV {
        DocStyleByStateV {
            color_d: self.color_d@,
            color_r: self.color_r@,
            color_s: self.color_s@,
            color_t: self.color_t@,
            color_z: self.color_z@,
            color_x: self.color_x@,
            color_k: self.color_k@,
            color_w: self.color_w@,
            color_p: self.color_p@,
        }
    }
}

/// The style table of a document.  When the table is present its header
/// and unit colors must be given; the band tables stay optional.
#[derive(Clone, Debug, PartialEq)]
pub struct DocStyle {
    pub header: String,
    pub unit: String,
    pub by_percentage: Option<DocStyleByPercentage>,
    pub by_state: Option<DocStyleByState>,
    pub by_unit: Option<DocStyleByUnit>,
}

/// Mathematical shape of a document's style table.
#[verifier::ext_equal]
pub ghost struct DocStyleV {
    pub header: Seq<char>,
    pub unit: Seq<char>,
    pub by_percentage: Option<DocStyleByPercentageV>,
    pub by_state: Option<DocStyleByStateV>,
    pub by_unit: Option<DocStyleByUnitV>,
}

impl View for DocStyle {
    type V = DocStyleV;

    open spec fn view(&self) -> DocStyleV {
        DocStyleV {
            header: self.header@,
            unit: self.unit@,
            by_percentage: match self.by_percentage {
                Some(t) => Some(t@),
                None => None,
            },
            by_state: match self.by_state {
                Some(t) => Some(t@),
                None => None,
            },
            by_unit: match self.by_unit {
                Some(t) => Some(t@),
                None => None,
            },
        }
    }
}

/// The search table of a document, kinds and logic by their spellings.
#[derive(Clone, Debug, PartialEq)]
pub struct DocSearch {
    pub numeric_search: Option<String>,
    pub nonnumeric_search: Option<String>,
    pub logic: Option<String>,
}

/// Mathematical shape of a document's search table.
#[verifier::ext_equal]
pub ghost struct DocSearchV {
    pub numeric_search: Option<Seq<char>>,
    pub nonnumeric_search: Option<Seq<char>>,
    pub logic: Option<Seq<char>>,
}

impl View for DocSearch {
    type V = DocSearchV;

    open spec fn view(&self) -> DocSearchV {
        DocSearchV {
            numeric_search: self.numeric_search.deep_view(),
            nonnumeric_search: self.nonnumeric_search.deep_view(),
            logic: self.logic.deep_view(),
        }
    }
}

/// The display table of a document, every field optional.
#[derive(Clone, Debug, PartialEq)]
pub struct DocDisplay {
    pub show_self: Option<bool>,
    pub cut_to_terminal: Option<bool>,
    pub cut_to_pager: Option<bool>,
    pub cut_to_pipe: Option<bool>,
    pub color_mode: Option<String>,
    pub separator: Option<String>,
    pub ascending: Option<String>,
    pub descending: Option<String>,
}

/// Mathematical shape of a document's display table.
#[verifier::ext_equal]
pub ghost struct DocDisplayV {
    pub show_self: Option<bool>,
    pub cut_to_terminal: Option<bool>,
    pub cut_to_pager: Option<bool>,
    pub cut_to_pipe: Option<bool>,
    pub color_mode: Option<Seq<char>>,
    pub separator: Option<Seq<char>>,
    pub ascending: Option<Seq<char>>,
    pub descending: Option<Seq<char>>,
}

impl View for DocDisplay {
    type V = DocDisplayV;

    open spec fn view(&self) -> DocDisplayV {
        DocDisplayV {
            show_self: self.show_self,
            cut_to_terminal: self.cut_to_terminal,
            cut_to_pager: self.cut_to_pager,
            cut_to_pipe: self.cut_to_pipe,
            color_mode: self.color_mode.deep_view(),
            separator: self.separator.deep_view(),
            ascending: self.ascending.deep_view(),
            descending: self.descending.deep_view(),
        }
    }
}

/// The sort table of a document.
#[derive(Clone, Debug, PartialEq)]
pub struct DocSort {
    pub column: Option<usize>,
    pub order: Option<String>,
}

/// Mathematical shape of a document's sort table.
#[verifier::ext_equal]
pub ghost struct DocSortV {
    pub column: Option<usize>,
    pub order: Option<Seq<char>>,
}

impl View for DocSort {
    type V = DocSortV;

    open spec fn view(&self) -> DocSortV {
        DocSortV { column: self.column, order: self.order.deep_view() }
    }
}

/// The Docker table of a document; its path must be given when the table
/// is present.
#[derive(Clone, Debug, PartialEq)]
pub struct DocDocker {
    pub path: String,
}

/// Mathematical shape of a document's Docker table.
#[verifier::ext_equal]
pub ghost struct DocDockerV {
    pub path: Seq<char>,
}

impl View for DocDocker {
    type V = DocDockerV;

    open spec fn view(&self) -> DocDockerV {
        DocDockerV { path: self.path@ }
    }
}

/// The pager table of a document.
#[derive(Clone, Debug, PartialEq)]
pub struct DocPager {
    pub mode: Option<String>,
    pub command: Option<String>,
}

/// Mathematical shape of a document's pager table.
#[verifier::ext_equal]
pub ghost struct DocPagerV {
    pub mode: Option<Seq<char>>,
    pub command: Option<Seq<char>>,
}

impl View for DocPager {
    type V = DocPagerV;

    open spec fn view(&self) -> DocPagerV {
        DocPagerV { mode: self.mode.deep_view(), command: self.command.deep_view() }
    }
}

/// A partially specified configuration document: the ordered column list,
/// and each settings table present or absent as a whole.
#[derive(Clone, Debug, PartialEq)]
pub struct Document {
    pub columns: Vec<DocColumn>,
    pub style: Option<DocStyle>,
    pub search: Option<DocSearch>,
    pub display: Option<DocDisplay>,
    pub sort: Option<DocSort>,
    pub docker: Option<DocDocker>,
    pub pager: Option<DocPager>,
}

/// Mathematical shape of a configuration document.
#[verifier::ext_equal]
pub ghost struct DocumentV {
    pub columns: Seq<DocColumnV>,
    pub style: Option<DocStyleV>,
    pub search: Option<DocSearchV>,
    pub display: Option<DocDisplayV>,
    pub sort: Option<DocSortV>,
    pub docker: Option<DocDockerV>,
    pub pager: Option<DocPagerV>,
}

impl View for Document {
    type V = DocumentV;

    open spec fn view(&self) -> DocumentV {
        DocumentV {
            columns: doc_columns_view(self.columns),
            style: match self.style {
                Some(t) => Some(t@),
                None => None,
            },
            search: match self.search {
                Some(t) => Some(t@),
                None => None,
            },
            display: match self.display {
                Some(t) => Some(t@),
                None => None,
            },
            sort: match self.sort {
                Some(t) => Some(t@),
                None => None,
            },
            docker: match self.docker {
                Some(t) => Some(t@),
                None => None,
            },
            pager: match self.pager {
                Some(t) => Some(t@),
                None => None,
            },
        }
    }
}

/// The element-wise view of a document's column list.
pub open spec fn doc_columns_view(v: Vec<DocColumn>) -> Seq<DocColumnV> {
    Seq::new(v@.len(), |i: int| v@[i]@)
}

/// The view of an optional document table.
pub open spec fn opt_view<T: View>(o: Option<T>) -> Option<T::V> {
    match o {
        Some(t) => Some(t@),
        None => None,
    }
}

/// Which style-table color a document error points at.
#[derive(Clone, Copy, Debug, PartialEq, Eq, Structural)]
pub enum StyleField {
    Header,
    Unit,
    Pct000,
    Pct025,
    Pct050,
    Pct075,
    Pct100,
    UnitK,
    UnitM,
    UnitG,
    UnitT,
    UnitP,
    UnitX,
    StateD,
    StateR,
    StateS,
    StateT,
    StateZ,
    StateX,
    StateK,
    StateW,
    StateP,
}

/// Which search-table field a document error points at.
#[derive(Clone, Copy, Debug, PartialEq, Eq, Structural)]
pub enum SearchField {
    Numeric,
    Nonnumeric,
    Logic,
}

/// A document error: the offending field, with the column index where the
/// field belongs to a column entry.  Resolution aborts on the first error;
/// no partially resolved configuration is ever returned.
#[derive(Clone, Copy, Debug, PartialEq, Eq, Structural)]
pub enum DocError {
    ColumnKindUnknown { index: usize },
    ColumnKindUnsupported { index: usize },
    ColumnStyleUnknown { index: usize },
    ColumnAlignUnknown { index: usize },
    StyleColorUnknown { field: StyleField },
    SearchFieldUnknown { field: SearchField },
    DisplayColorModeUnknown,
    SortOrderUnknown,
    PagerModeUnknown,
}


/// The configuration-file path of the field a document error points at.
pub open spec fn field_path_spec(e: DocError) -> Seq<char> {
    match e {
        DocError::ColumnKindUnknown { .. } => "columns.kind"@,
        DocError::ColumnKindUnsupported { .. } => "columns.kind"@,
        DocError::ColumnStyleUnknown { .. } => "columns.style"@,
        DocError::ColumnAlignUnknown { .. } => "columns.align"@,
        DocError::StyleColorUnknown { field } => match field {
            StyleField::Header => "style.header"@,
            StyleField::Unit => "style.unit"@,
            StyleField::Pct000 => "style.by_percentage.color_000"@,
            StyleField::Pct025 => "style.by_percentage.color_025"@,
            StyleField::Pct050 => "style.by_percentage.color_050"@,
            StyleField::Pct075 => "style.by_percentage.color_075"@,
            StyleField::Pct100 => "style.by_percentage.color_100"@,
            StyleField::UnitK => "style.by_unit.color_k"@,
            StyleField::UnitM => "style.by_unit.color_m"@,
            StyleField::UnitG => "style.by_unit.color_g"@,
            StyleField::UnitT => "style.by_unit.color_t"@,
            StyleField::UnitP => "style.by_unit.color_p"@,
            StyleField::UnitX => "style.by_unit.color_x"@,
            StyleField::StateD => "style.by_state.color_d"@,
            StyleField::StateR => "style.by_state.color_r"@,
            StyleField::StateS => "style.by_state.color_s"@,
            StyleField::StateT => "style.by_state.color_t"@,
            StyleField::StateZ => "style.by_state.color_z"@,
            StyleField::StateX => "style.by_state.color_x"@,
            StyleField::StateK => "style.by_state.color_k"@,
            StyleField::StateW => "style.by_state.color_w"@,
            StyleField::StateP => "style.by_state.color_p"@,
        },
        DocError::SearchFieldUnknown { field } => match field {
            SearchField::Numeric => "search.numeric_search"@,
            SearchField::Nonnumeric => "search.nonnumeric_search"@,
            SearchField::Logic => "search.logic"@,
        },
        DocError::DisplayColorModeUnknown => "display.color_mode"@,
        DocError::SortOrderUnknown => "sort.order"@,
        DocError::PagerModeUnknown => "pager.mode"@,
    }
}

impl DocError {
    /// The index of the column entry the error points at, where the
    /// offending field belongs to a column entry.
    pub fn column_index(&self) -> (r: Option<usize>)
        ensures
            match *self {
                DocError::ColumnKindUnknown { index } => r == Some(index),
                DocError::ColumnKindUnsupported { index } => r == Some(index),
                DocError::ColumnStyleUnknown { index } => r == Some(index),
                DocError::ColumnAlignUnknown { index } => r == Some(index),
                _ => r is None,
            },
    {
        match self {
            DocError::ColumnKindUnknown { index } => Some(*index),
            DocError::ColumnKindUnsupported { index } => Some(*index),
            DocError::ColumnStyleUnknown { index } => Some(*index),
            DocError::ColumnAlignUnknown { index } => Some(*index),
            _ => None,
        }
    }

    /// Executable counterpart of `field_path_spec`, for error reports.
    pub fn field_path(&self) -> (r: &'static str)
        ensures
            r@ == field_path_spec(*self),
    {
        match self {
            DocError::ColumnKindUnknown { .. } => "columns.kind",
            DocError::ColumnKindUnsupported { .. } => "columns.kind",
            DocError::ColumnStyleUnknown { .. } => "columns.style",
            DocError::ColumnAlignUnknown { .. } => "columns.align",
            DocError::StyleColorUnknown { field } => match field {
                StyleField::Header => "style.header",
                StyleField::Unit => "style.unit",
                StyleField::Pct000 => "style.by_percentage.color_000",
                StyleField::Pct025 => "style.by_percentage.color_025",
                StyleField::Pct050 => "style.by_percentage.color_050",
                StyleField::Pct075 => "style.by_percentage.color_075",
                StyleField::Pct100 => "style.by_percentage.color_100",
                StyleField::UnitK => "style.by_unit.color_k",
                StyleField::UnitM => "style.by_unit.color_m",
                StyleField::UnitG => "style.by_unit.color_g",
                StyleField::UnitT => "style.by_unit.color_t",
                StyleField::UnitP => "style.by_unit.color_p",
                StyleField::UnitX => "style.by_unit.color_x",
                StyleField::StateD => "style.by_state.color_d",
                StyleField::StateR => "style.by_state.color_r",
                StyleField::StateS => "style.by_state.color_s",
                StyleField::StateT => "style.by_state.color_t",
                StyleField::StateZ => "style.by_state.color_z",
                StyleField::StateX => "style.by_state.color_x",
                StyleField::StateK => "style.by_state.color_k",
                StyleField::StateW => "style.by_state.color_w",
                StyleField::StateP => "style.by_state.color_p",
            },
            DocError::SearchFieldUnknown { field } => match field {
                SearchField::Numeric => "search.numeric_search",
                SearchField::Nonnumeric => "search.nonnumeric_search",
                SearchField::Logic => "search.logic",
            },
            DocError::DisplayColorModeUnknown => "display.color_mode",
            DocError::SortOrderUnknown => "sort.order",
            DocError::PagerModeUnknown => "pager.mode",
        }
    }
}

/// A boolean document field, absent meaning false.
pub open spec fn or_false(o: Option<bool>) -> bool {
    match o {
        Some(b) => b,
        None => false,
    }
}

/// Resolves one document column entry: the kind spelling must name a kind
/// of the active catalog, the style spelling a known style, and a given
/// alignment spelling a known alignment; search flags default to false and
/// the alignment to left.
pub open spec fn resolve_column_spec(c: DocColumnV, p: Platform, idx: int) -> Result<
    ConfigColumn,
    DocError,
> {
    match parse_kind_spec(c.kind) {
        None => Err(DocError::ColumnKindUnknown { index: idx as usize }),
        Some(k) => {
            if !active_on(p, k) {
                Err(DocError::ColumnKindUnsupported { index: idx as usize })
            } else {
                match parse_style_spec(c.style) {
                    None => Err(DocError::ColumnStyleUnknown { index: idx as usize }),
                    Some(st) => {
                        match c.align {
                            None => Ok(
                                ConfigColumn {
                                    kind: k,
                                    style: st,
                                    numeric_search: or_false(c.numeric_search),
                                    nonnumeric_search: or_false(c.nonnumeric_search),
                                    align: ConfigColumnAlign::Left,
                                },
                            ),
                            Some(a) => match parse_align_spec(a) {
                                None => Err(DocError::ColumnAlignUnknown { index: idx as usize }),
                                Some(al) => Ok(
                                    ConfigColumn {
                                        kind: k,
                                        style: st,
                                        numeric_search: or_false(c.numeric_search),
                                        nonnumeric_search: or_false(c.nonnumeric_search),
                                        align: al,
                                    },
                                ),
                            },
                        }
                    },
                }
            }
        },
    }
}

/// Resolves the column entries from position `i` on, in document order,
/// stopping at the first error.
pub open spec fn resolve_columns_from(cols: Seq<DocColumnV>, p: Platform, i: int) -> Result<
    Seq<ConfigColumn>,
    DocError,
>
    decreases cols.len() - i,
{
    if i < 0 || i >= cols.len() {
        Ok(Seq::empty())
    } else {
        match resolve_column_spec(cols[i], p, i) {
            Err(e) => Err(e),
            Ok(c) => match resolve_columns_from(cols, p, i + 1) {
                Err(e) => Err(e),
                Ok(rest) => Ok(seq![c] + rest),
            },
        }
    }
}

/// Resolves a document's percentage-banded table: absent means the default table,
/// and every color given must be a known spelling.
pub open spec fn resolve_by_percentage_spec(o: Option<DocStyleByPercentageV>) -> Result<ConfigStyleByPercentage, DocError> {
    match o {
        None => Ok(default_by_percentage()),
        Some(t) => {
            match parse_color_spec(t.color_000) {
                None => Err(DocError::StyleColorUnknown { field: StyleField::Pct000 }),
                Some(c_color_000) => {
                    match parse_color_spec(t.color_025) {
                        None => Err(DocError::StyleColorUnknown { field: StyleField::Pct025 }),
                        Some(c_color_025) => {
                            match parse_color_spec(t.color_050) {
                                None => Err(DocError::StyleColorUnknown { field: StyleField::Pct050 }),
                                Some(c_color_050) => {
                                    match parse_color_spec(t.color_075) {
                                        None => Err(DocError::StyleColorUnknown { field: StyleField::Pct075 }),
                                        Some(c_color_075) => {
                                            match parse_color_spec(t.color_100) {
                                                None => Err(DocError::StyleColorUnknown { field: StyleField::Pct100 }),
                                                Some(c_color_100) => {
                                                    Ok(ConfigStyleByPercentage { color_000: c_color_000, color_025: c_color_025, color_050: c_color_050, color_075: c_color_075, color_100: c_color_100 })
                                                },
                                            }
                                        },
                                    }
                                },
                            }
                        },
                    }
                },
            }
        },
    }
}

/// Resolves a document's byte-unit-banded table: absent means the default table,
/// and every color given must be a known spelling.
pub open spec fn resolve_by_unit_spec(o: Option<DocStyleByUnitV>) -> Result<ConfigStyleByUnit, DocError> {
    match o {
        None => Ok(default_by_unit()),
        Some(t) => {
            match parse_color_spec(t.color_k) {
                None => Err(DocError::StyleColorUnknown { field: StyleField::UnitK }),
                Some(c_color_k) => {
                    match parse_color_spec(t.color_m) {
                        None => Err(DocError::StyleColorUnknown { field: StyleField::UnitM }),
                        Some(c_color_m) => {
                            match parse_color_spec(t.color_g) {
                                None => Err(DocError::StyleColorUnknown { field: StyleField::UnitG }),
                                Some(c_color_g) => {
                                    match parse_color_spec(t.color_t) {
                                        None => Err(DocError::StyleColorUnknown { field: StyleField::UnitT }),
                                        Some(c_color_t) => {
                                            match parse_color_spec(t.color_p) {
                                                None => Err(DocError::StyleColorUnknown { field: StyleField::UnitP }),
                                                Some(c_color_p) => {
                                                    match parse_color_spec(t.color_x) {
                                                        None => Err(DocError::StyleColorUnknown { field: StyleField::UnitX }),
                                                        Some(c_color_x) => {
                                                            Ok(ConfigStyleByUnit { color_k: c_color_k, color_m: c_color_m, color_g: c_color_g, color_t: c_color_t, color_p: c_color_p, color_x: c_color_x })
                                                        },
                                                    }
                                                },
                                            }
                                        },
                                    }
                                },
                            }
                        },
                    }
                },
            }
        },
    }
}

/// Resolves a document's process-state-banded table: absent means the default table,
/// and every color given must be a known spelling.
pub open spec fn resolve_by_state_spec(o: Option<DocStyleByStateV>) -> Result<ConfigStyleByState, DocError> {
    match o {
        None => Ok(default_by_state()),
        Some(t) => {
            match parse_color_spec(t.color_d) {
                None => Err(DocError::StyleColorUnknown { field: StyleField::StateD }),
                Some(c_color_d) => {
                    match parse_color_spec(t.color_r) {
                        None => Err(DocError::StyleColorUnknown { field: StyleField::StateR }),
                        Some(c_color_r) => {
                            match parse_color_spec(t.color_s) {
                                None => Err(DocError::StyleColorUnknown { field: StyleField::StateS }),
                                Some(c_color_s) => {
                                    match parse_color_spec(t.color_t) {
                                        None => Err(DocError::StyleColorUnknown { field: StyleField::StateT }),
                                        Some(c_color_t) => {
                                            match parse_color_spec(t.color_z) {
                                                None => Err(DocError::StyleColorUnknown { field: StyleField::StateZ }),
                                                Some(c_color_z) => {
                                                    match parse_color_spec(t.color_x) {
                                                        None => Err(DocError::StyleColorUnknown { field: StyleField::StateX }),
                                                        Some(c_color_x) => {
                                                            match parse_color_spec(t.color_k) {
                                                                None => Err(DocError::StyleColorUnknown { field: StyleField::StateK }),
                                                                Some(c_color_k) => {
                                                                    match parse_color_spec(t.color_w) {
                                                                        None => Err(DocError::StyleColorUnknown { field: StyleField::StateW }),
                                                                        Some(c_color_w) => {
                                                                            match parse_color_spec(t.color_p) {
                                                                                None => Err(DocError::StyleColorUnknown { field: StyleField::StateP }),
                                                                                Some(c_color_p) => {
                                                                                    Ok(ConfigStyleByState { color_d: c_color_d, color_r: c_color_r, color_s: c_color_s, color_t: c_color_t, color_z: c_color_z, color_x: c_color_x, color_k: c_color_k, color_w: c_color_w, color_p: c_color_p })
                                                                                },
                                                                            }
                                                                        },
                                                                    }
                                                                },
                                                            }
                                                        },
                                                    }
                                                },
                                            }
                                        },
                                    }
                                },
                            }
                        },
                    }
                },
            }
        },
    }
}

/// Resolves a document's style table: absent means the default style
/// table; a present table must give known header and unit colors.
pub open spec fn resolve_style_spec(o: Option<DocStyleV>) -> Result<ConfigStyle, DocError> {
    match o {
        None => Ok(default_config_style()),
        Some(t) => match parse_color_spec(t.header) {
            None => Err(DocError::StyleColorUnknown { field: StyleField::Header }),
            Some(h) => match parse_color_spec(t.unit) {
                None => Err(DocError::StyleColorUnknown { field: StyleField::Unit }),
                Some(u) => match resolve_by_percentage_spec(t.by_percentage) {
                    Err(e) => Err(e),
                    Ok(bp) => match resolve_by_state_spec(t.by_state) {
                        Err(e) => Err(e),
                        Ok(bs) => match resolve_by_unit_spec(t.by_unit) {
                            Err(e) => Err(e),
                            Ok(bu) => Ok(
                                ConfigStyle {
                                    header: h,
                                    unit: u,
                                    by_percentage: bp,
                                    by_state: bs,
                                    by_unit: bu,
                                },
                            ),
                        },
                    },
                },
            },
        },
    }
}

/// Resolves a document's search table: absent fields take their defaults,
/// given spellings must be known.
pub open spec fn resolve_search_spec(o: Option<DocSearchV>) -> Result<ConfigSearch, DocError> {
    match o {
        None => Ok(default_config_search()),
        Some(t) => {
            let d = default_config_search();
            match (match t.numeric_search {
                None => Ok(d.numeric_search),
                Some(s) => match parse_search_kind_spec(s) {
                    None => Err(DocError::SearchFieldUnknown { field: SearchField::Numeric }),
                    Some(v) => Ok(v),
                },
            }) {
                Err(e) => Err(e),
                Ok(ns) => match (match t.nonnumeric_search {
                    None => Ok(d.nonnumeric_search),
                    Some(s) => match parse_search_kind_spec(s) {
                        None => Err(
                            DocError::SearchFieldUnknown { field: SearchField::Nonnumeric },
                        ),
                        Some(v) => Ok(v),
                    },
                }) {
                    Err(e) => Err(e),
                    Ok(nns) => match (match t.logic {
                        None => Ok(d.logic),
                        Some(s) => match parse_search_logic_spec(s) {
                            None => Err(DocError::SearchFieldUnknown { field: SearchField::Logic }),
                            Some(v) => Ok(v),
                        },
                    }) {
                        Err(e) => Err(e),
                        Ok(lg) => Ok(
                            ConfigSearch {
                                numeric_search: ns,
                                nonnumeric_search: nns,
                                logic: lg,
                            },
                        ),
                    },
                },
            }
        },
    }
}

/// Resolves a document's display table: absent fields take their
/// defaults; a given color-mode spelling must be known.
pub open spec fn resolve_display_spec(o: Option<DocDisplayV>) -> Result<ConfigDisplayV, DocError> {
    match o {
        None => Ok(default_config_display()),
        Some(t) => {
            let d = default_config_display();
            match (match t.color_mode {
                None => Ok(d.color_mode),
                Some(s) => match parse_color_mode_spec(s) {
                    None => Err(DocError::DisplayColorModeUnknown),
                    Some(v) => Ok(v),
                },
            }) {
                Err(e) => Err(e),
                Ok(cm) => Ok(
                    ConfigDisplayV {
                        show_self: match t.show_self {
                            Some(b) => b,
                            None => d.show_self,
                        },
                        cut_to_terminal: match t.cut_to_terminal {
                            Some(b) => b,
                            None => d.cut_to_terminal,
                        },
                        cut_to_pager: match t.cut_to_pager {
                            Some(b) => b,
                            None => d.cut_to_pager,
                        },
                        cut_to_pipe: match t.cut_to_pipe {
                            Some(b) => b,
                            None => d.cut_to_pipe,
                        },
                        color_mode: cm,
                        separator: match t.separator {
                            Some(s) => s,
                            None => d.separator,
                        },
                        ascending: match t.ascending {
                            Some(s) => s,
                            None => d.ascending,
                        },
                        descending: match t.descending {
                            Some(s) => s,
                            None => d.descending,
                        },
                    },
                ),
            }
        },
    }
}

/// Resolves a document's sort table: absent fields take their defaults; a
/// given order spelling must be known.
pub open spec fn resolve_sort_spec(o: Option<DocSortV>) -> Result<ConfigSort, DocError> {
    match o {
        None => Ok(default_config_sort()),
        Some(t) => {
            let d = default_config_sort();
            match (match t.order {
                None => Ok(d.order),
                Some(s) => match parse_sort_order_spec(s) {
                    None => Err(DocError::SortOrderUnknown),
                    Some(v) => Ok(v),
                },
            }) {
                Err(e) => Err(e),
                Ok(ord) => Ok(
                    ConfigSort {
                        column: match t.column {
                            Some(c) => c,
                            None => d.column,
                        },
                        order: ord,
                    },
                ),
            }
        },
    }
}

/// Resolves a document's Docker table: absent means the default address.
pub open spec fn resolve_docker_spec(o: Option<DocDockerV>) -> Result<ConfigDockerV, DocError> {
    match o {
        None => Ok(default_config_docker()),
        Some(t) => Ok(ConfigDockerV { path: t.path }),
    }
}

/// Resolves a document's pager table: an absent mode means automatic; a
/// given mode spelling must be known.
pub open spec fn resolve_pager_spec(o: Option<DocPagerV>) -> Result<ConfigPagerV, DocError> {
    match o {
        None => Ok(default_config_pager()),
        Some(t) => {
            let d = default_config_pager();
            match (match t.mode {
                None => Ok(d.mode),
                Some(s) => match parse_pager_mode_spec(s) {
                    None => Err(DocError::PagerModeUnknown),
                    Some(v) => Ok(v),
                },
            }) {
                Err(e) => Err(e),
                Ok(m) => Ok(ConfigPagerV { mode: m, command: t.command }),
            }
        },
    }
}

/// Resolves a whole document against the schema defaults: every field the
/// document specifies is taken after validating its spelling, and every
/// field it omits takes that field's own independent default.
pub open spec fn spec_resolve(d: DocumentV, p: Platform) -> Result<ConfigV, DocError> {
    match resolve_columns_from(d.columns, p, 0) {
        Err(e) => Err(e),
        Ok(cols) => match resolve_style_spec(d.style) {
            Err(e) => Err(e),
            Ok(style) => match resolve_search_spec(d.search) {
                Err(e) => Err(e),
                Ok(search) => match resolve_display_spec(d.display) {
                    Err(e) => Err(e),
                    Ok(display) => match resolve_sort_spec(d.sort) {
                        Err(e) => Err(e),
                        Ok(sort) => match resolve_docker_spec(d.docker) {
                            Err(e) => Err(e),
                            Ok(docker) => match resolve_pager_spec(d.pager) {
                                Err(e) => Err(e),
                                Ok(pager) => Ok(
                                    ConfigV {
                                        columns: cols,
                                        style: style,
                                        search: search,
                                        display: display,
                                        sort: sort,
                                        docker: docker,
                                        pager: pager,
                                    },
                                ),
                            },
                        },
                    },
                },
            },
        },
    }
}

fn resolve_by_percentage(o: &Option<DocStyleByPercentage>) -> (r: Result<ConfigStyleByPercentage, DocError>)
    ensures
        match r {
            Ok(v) => resolve_by_percentage_spec(opt_view(*o)) == Ok::<ConfigStyleByPercentage, DocError>(v),
            Err(e) => resolve_by_percentage_spec(opt_view(*o)) == Err::<ConfigStyleByPercentage, DocError>(e),
        },
{
    match o {
        None => Ok(Default::default()),
        Some(t) => {
            match parse_color(t.color_000.as_str()) {
                None => Err(DocError::StyleColorUnknown { field: StyleField::Pct000 }),
                Some(c_color_000) => {
                    match parse_color(t.color_025.as_str()) {
                        None => Err(DocError::StyleColorUnknown { field: StyleField::Pct025 }),
                        Some(c_color_025) => {
                            match parse_color(t.color_050.as_str()) {
                                None => Err(DocError::StyleColorUnknown { field: StyleField::Pct050 }),
                                Some(c_color_050) => {
                                    match parse_color(t.color_075.as_str()) {
                                        None => Err(DocError::StyleColorUnknown { field: StyleField::Pct075 }),
                                        Some(c_color_075) => {
                                            match parse_color(t.color_100.as_str()) {
                                                None => Err(DocError::StyleColorUnknown { field: StyleField::Pct100 }),
                                                Some(c_color_100) => {
                                                    Ok(ConfigStyleByPercentage { color_000: c_color_000, color_025: c_color_025, color_050: c_color_050, color_075: c_color_075, color_100: c_color_100 })
                                                },
                                            }
                                        },
                                    }
                                },
                            }
                        },
                    }
                },
            }
        },
    }
}


fn resolve_by_unit(o: &Option<DocStyleByUnit>) -> (r: Result<ConfigStyleByUnit, DocError>)
    ensures
        match r {
            Ok(v) => resolve_by_unit_spec(opt_view(*o)) == Ok::<ConfigStyleByUnit, DocError>(v),
            Err(e) => resolve_by_unit_spec(opt_view(*o)) == Err::<ConfigStyleByUnit, DocError>(e),
        },
{
    match o {
        None => Ok(Default::default()),
        Some(t) => {
            match parse_color(t.color_k.as_str()) {
                None => Err(DocError::StyleColorUnknown { field: StyleField::UnitK }),
                Some(c_color_k) => {
                    match parse_color(t.color_m.as_str()) {
                        None => Err(DocError::StyleColorUnknown { field: StyleField::UnitM }),
                        Some(c_color_m) => {
                            match parse_color(t.color_g.as_str()) {
                                None => Err(DocError::StyleColorUnknown { field: StyleField::UnitG }),
                                Some(c_color_g) => {
                                    match parse_color(t.color_t.as_str()) {
                                        None => Err(DocError::StyleColorUnknown { field: StyleField::UnitT }),
                                        Some(c_color_t) => {
                                            match parse_color(t.color_p.as_str()) {
                                                None => Err(DocError::StyleColorUnknown { field: StyleField::UnitP }),
                                                Some(c_color_p) => {
                                                    match parse_color(t.color_x.as_str()) {
                                                        None => Err(DocError::StyleColorUnknown { field: StyleField::UnitX }),
                                                        Some(c_color_x) => {
                                                            Ok(ConfigStyleByUnit { color_k: c_color_k, color_m: c_color_m, color_g: c_color_g, color_t: c_color_t, color_p: c_color_p, color_x: c_color_x })
                                                        },
                                                    }
                                                },
                                            }
                                        },
                                    }
                                },
                            }
                        },
                    }
                },
            }
        },
    }
}


fn resolve_by_state(o: &Option<DocStyleByState>) -> (r: Result<ConfigStyleByState, DocError>)
    ensures
        match r {
            Ok(v) => resolve_by_state_spec(opt_view(*o)) == Ok::<ConfigStyleByState, DocError>(v),
            Err(e) => resolve_by_state_spec(opt_view(*o)) == Err::<ConfigStyleByState, DocError>(e),
        },
{
    match o {
        None => Ok(Default::default()),
        Some(t) => {
            match parse_color(t.color_d.as_str()) {
                None => Err(DocError::StyleColorUnknown { field: StyleField::StateD }),
                Some(c_color_d) => {
                    match parse_color(t.color_r.as_str()) {
                        None => Err(DocError::StyleColorUnknown { field: StyleField::StateR }),
                        Some(c_color_r) => {
                            match parse_color(t.color_s.as_str()) {
                                None => Err(DocError::StyleColorUnknown { field: StyleField::StateS }),
                                Some(c_color_s) => {
                                    match parse_color(t.color_t.as_str()) {
                                        None => Err(DocError::StyleColorUnknown { field: StyleField::StateT }),
                                        Some(c_color_t) => {
                                            match parse_color(t.color_z.as_str()) {
                                                None => Err(DocError::StyleColorUnknown { field: StyleField::StateZ }),
                                                Some(c_color_z) => {
                                                    match parse_color(t.color_x.as_str()) {
                                                        None => Err(DocError::StyleColorUnknown { field: StyleField::StateX }),
                                                        Some(c_color_x) => {
                                                            match parse_color(t.color_k.as_str()) {
                                                                None => Err(DocError::StyleColorUnknown { field: StyleField::StateK }),
                                                                Some(c_color_k) => {
                                                                    match parse_color(t.color_w.as_str()) {
                                                                        None => Err(DocError::StyleColorUnknown { field: StyleField::StateW }),
                                                                        Some(c_color_w) => {
                                                                            match parse_color(t.color_p.as_str()) {
                                                                                None => Err(DocError::StyleColorUnknown { field: StyleField::StateP }),
                                                                                Some(c_color_p) => {
                                                                                    Ok(ConfigStyleByState { color_d: c_color_d, color_r: c_color_r, color_s: c_color_s, color_t: c_color_t, color_z: c_color_z, color_x: c_color_x, color_k: c_color_k, color_w: c_color_w, color_p: c_color_p })
                                                                                },
                                                                            }
                                                                        },
                                                                    }
                                                                },
                                                            }
                                                        },
                                                    }
                                                },
                                            }
                                        },
                                    }
                                },
                            }
                        },
                    }
                },
            }
        },
    }
}



fn resolve_column(c: &DocColumn, p: Platform, idx: usize) -> (r: Result<ConfigColumn, DocError>)
    ensures
        match r {
            Ok(v) => resolve_column_spec(c@, p, idx as int) == Ok::<ConfigColumn, DocError>(v),
            Err(e) => resolve_column_spec(c@, p, idx as int) == Err::<ConfigColumn, DocError>(e),
        },
{
    match parse_kind_name(c.kind.as_str()) {
        None => Err(DocError::ColumnKindUnknown { index: idx }),
        Some(k) => {
            if !is_active(p, &k) {
                Err(DocError::ColumnKindUnsupported { index: idx })
            } else {
                match parse_style(c.style.as_str()) {
                    None => Err(DocError::ColumnStyleUnknown { index: idx }),
                    Some(st) => {
                        let numeric_search = match c.numeric_search {
                            Some(b) => b,
                            None => false,
                        };
                        let nonnumeric_search = match c.nonnumeric_search {
                            Some(b) => b,
                            None => false,
                        };
                        match &c.align {
                            None => Ok(
                                ConfigColumn {
                                    kind: k,
                                    style: st,
                                    numeric_search,
                                    nonnumeric_search,
                                    align: ConfigColumnAlign::Left,
                                },
                            ),
                            Some(a) => match parse_align(a.as_str()) {
                                None => Err(DocError::ColumnAlignUnknown { index: idx }),
                                Some(al) => Ok(
                                    ConfigColumn {
                                        kind: k,
                                        style: st,
                                        numeric_search,
                                        nonnumeric_search,
                                        align: al,
                                    },
                                ),
                            },
                        }
                    },
                }
            }
        },
    }
}

fn resolve_columns(cols: &Vec<DocColumn>, p: Platform) -> (r: Result<Vec<ConfigColumn>, DocError>)
    ensures
        match r {
            Ok(v) => resolve_columns_from(doc_columns_view(*cols), p, 0) == Ok::<
                Seq<ConfigColumn>,
                DocError,
            >(v@),
            Err(e) => resolve_columns_from(doc_columns_view(*cols), p, 0) == Err::<
                Seq<ConfigColumn>,
                DocError,
            >(e),
        },
{
    let ghost cv = doc_columns_view(*cols);
    let mut acc: Vec<ConfigColumn> = Vec::new();
    let mut i: usize = 0;
    while i < cols.len()
        invariant
            cv == doc_columns_view(*cols),
            cv.len() == cols@.len(),
            0 <= i <= cols@.len(),
            forall|j: int| 0 <= j < cv.len() ==> cv[j] == cols@[j]@,
            match resolve_columns_from(cv, p, i as int) {
                Ok(rest) => resolve_columns_from(cv, p, 0) == Ok::<Seq<ConfigColumn>, DocError>(
                    acc@ + rest,
                ),
                Err(e) => resolve_columns_from(cv, p, 0) == Err::<Seq<ConfigColumn>, DocError>(e),
            },
        decreases cols@.len() - i,
    {
        let col = &cols[i];
        match resolve_column(col, p, i) {
            Err(e) => {
                return Err(e);
            },
            Ok(c) => {
                proof {
                    assert(acc@.push(c) =~= acc@ + seq![c]);
                    match resolve_columns_from(cv, p, i + 1 as int) {
                        Ok(rest) => {
                            assert(acc@ + seq![c] + rest =~= acc@ + (seq![c] + rest));
                        },
                        Err(e) => {},
                    }
                }
                acc.push(c);
            },
        }
        i += 1;
    }
    proof {
        assert(acc@ + Seq::<ConfigColumn>::empty() =~= acc@);
    }
    Ok(acc)
}

fn resolve_style(o: &Option<DocStyle>) -> (r: Result<ConfigStyle, DocError>)
    ensures
        match r {
            Ok(v) => resolve_style_spec(opt_view(*o)) == Ok::<ConfigStyle, DocError>(v),
            Err(e) => resolve_style_spec(opt_view(*o)) == Err::<ConfigStyle, DocError>(e),
        },
{
    match o {
        None => Ok(Default::default()),
        Some(t) => match parse_color(t.header.as_str()) {
            None => Err(DocError::StyleColorUnknown { field: StyleField::Header }),
            Some(h) => match parse_color(t.unit.as_str()) {
                None => Err(DocError::StyleColorUnknown { field: StyleField::Unit }),
                Some(u) => match resolve_by_percentage(&t.by_percentage) {
                    Err(e) => Err(e),
                    Ok(bp) => match resolve_by_state(&t.by_state) {
                        Err(e) => Err(e),
                        Ok(bs) => match resolve_by_unit(&t.by_unit) {
                            Err(e) => Err(e),
                            Ok(bu) => Ok(
                                ConfigStyle {
                                    header: h,
                                    unit: u,
                                    by_percentage: bp,
                                    by_state: bs,
                                    by_unit: bu,
                                },
                            ),
                        },
                    },
                },
            },
        },
    }
}

fn resolve_search(o: &Option<DocSearch>) -> (r: Result<ConfigSearch, DocError>)
    ensures
        match r {
            Ok(v) => resolve_search_spec(opt_view(*o)) == Ok::<ConfigSearch, DocError>(v),
            Err(e) => resolve_search_spec(opt_view(*o)) == Err::<ConfigSearch, DocError>(e),
        },
{
    match o {
        None => Ok(Default::default()),
        Some(t) => {
            let d = ConfigSearch::default();
            let ns = match &t.numeric_search {
                None => d.numeric_search,
                Some(s) => match parse_search_kind(s.as_str()) {
                    None => {
                        return Err(DocError::SearchFieldUnknown { field: SearchField::Numeric });
                    },
                    Some(v) => v,
                },
            };
            let nns = match &t.nonnumeric_search {
                None => d.nonnumeric_search,
                Some(s) => match parse_search_kind(s.as_str()) {
                    None => {
                        return Err(
                            DocError::SearchFieldUnknown { field: SearchField::Nonnumeric },
                        );
                    },
                    Some(v) => v,
                },
            };
            let lg = match &t.logic {
                None => d.logic,
                Some(s) => match parse_search_logic(s.as_str()) {
                    None => {
                        return Err(DocError::SearchFieldUnknown { field: SearchField::Logic });
                    },
                    Some(v) => v,
                },
            };
            Ok(ConfigSearch { numeric_search: ns, nonnumeric_search: nns, logic: lg })
        },
    }
}

fn resolve_display(o: &Option<DocDisplay>) -> (r: Result<ConfigDisplay, DocError>)
    ensures
        match r {
            Ok(v) => resolve_display_spec(opt_view(*o)) == Ok::<ConfigDisplayV, DocError>(v@),
            Err(e) => resolve_display_spec(opt_view(*o)) == Err::<ConfigDisplayV, DocError>(e),
        },
{
    match o {
        None => Ok(Default::default()),
        Some(t) => {
            let d = ConfigDisplay::default();
            let cm = match &t.color_mode {
                None => d.color_mode,
                Some(s) => match parse_color_mode(s.as_str()) {
                    None => {
                        return Err(DocError::DisplayColorModeUnknown);
                    },
                    Some(v) => v,
                },
            };
            Ok(
                ConfigDisplay {
                    show_self: match t.show_self {
                        Some(b) => b,
                        None => d.show_self,
                    },
                    cut_to_terminal: match t.cut_to_terminal {
                        Some(b) => b,
                        None => d.cut_to_terminal,
                    },
                    cut_to_pager: match t.cut_to_pager {
                        Some(b) => b,
                        None => d.cut_to_pager,
                    },
                    cut_to_pipe: match t.cut_to_pipe {
                        Some(b) => b,
                        None => d.cut_to_pipe,
                    },
                    color_mode: cm,
                    separator: match &t.separator {
                        Some(s) => s.clone(),
                        None => d.separator,
                    },
                    ascending: match &t.ascending {
                        Some(s) => s.clone(),
                        None => d.ascending,
                    },
                    descending: match &t.descending {
                        Some(s) => s.clone(),
                        None => d.descending,
                    },
                },
            )
        },
    }
}

fn resolve_sort(o: &Option<DocSort>) -> (r: Result<ConfigSort, DocError>)
    ensures
        match r {
            Ok(v) => resolve_sort_spec(opt_view(*o)) == Ok::<ConfigSort, DocError>(v),
            Err(e) => resolve_sort_spec(opt_view(*o)) == Err::<ConfigSort, DocError>(e),
        },
{
    match o {
        None => Ok(Default::default()),
        Some(t) => {
            let d = ConfigSort::default();
            let ord = match &t.order {
                None => d.order,
                Some(s) => match parse_sort_order(s.as_str()) {
                    None => {
                        return Err(DocError::SortOrderUnknown);
                    },
                    Some(v) => v,
                },
            };
            Ok(
                ConfigSort {
                    column: match t.column {
                        Some(c) => c,
                        None => d.column,
                    },
                    order: ord,
                },
            )
        },
    }
}

fn resolve_docker(o: &Option<DocDocker>) -> (r: Result<ConfigDocker, DocError>)
    ensures
        match r {
            Ok(v) => resolve_docker_spec(opt_view(*o)) == Ok::<ConfigDockerV, DocError>(v@),
            Err(e) => resolve_docker_spec(opt_view(*o)) == Err::<ConfigDockerV, DocError>(e),
        },
{
    match o {
        None => Ok(Default::default()),
        Some(t) => Ok(ConfigDocker { path: t.path.clone() }),
    }
}

fn resolve_pager(o: &Option<DocPager>) -> (r: Result<ConfigPager, DocError>)
    ensures
        match r {
            Ok(v) => resolve_pager_spec(opt_view(*o)) == Ok::<ConfigPagerV, DocError>(v@),
            Err(e) => resolve_pager_spec(opt_view(*o)) == Err::<ConfigPagerV, DocError>(e),
        },
{
    match o {
        None => Ok(Default::default()),
        Some(t) => {
            let d = ConfigPager::default();
            let m = match &t.mode {
                None => d.mode,
                Some(s) => match parse_pager_mode(s.as_str()) {
                    None => {
                        return Err(DocError::PagerModeUnknown);
                    },
                    Some(v) => v,
                },
            };
            Ok(ConfigPager { mode: m, command: t.command.clone() })
        },
    }
}

/// Resolves a document against the schema defaults into a complete
/// configuration, or reports the first document error.  No partially
/// resolved configuration is ever returned.
pub fn resolve(doc: &Document, p: Platform) -> (r: Result<Config, DocError>)
    ensures
        match r {
            Ok(c) => spec_resolve(doc@, p) == Ok::<ConfigV, DocError>(c@),
            Err(e) => spec_resolve(doc@, p) == Err::<ConfigV, DocError>(e),
        },
{
    let columns = match resolve_columns(&doc.columns, p) {
        Ok(v) => v,
        Err(e) => {
            return Err(e);
        },
    };
    let style = match resolve_style(&doc.style) {
        Ok(v) => v,
        Err(e) => {
            return Err(e);
        },
    };
    let search = match resolve_search(&doc.search) {
        Ok(v) => v,
        Err(e) => {
            return Err(e);
        },
    };
    let display = match resolve_display(&doc.display) {
        Ok(v) => v,
        Err(e) => {
            return Err(e);
        },
    };
    let sort = match resolve_sort(&doc.sort) {
        Ok(v) => v,
        Err(e) => {
            return Err(e);
        },
    };
    let docker = match resolve_docker(&doc.docker) {
        Ok(v) => v,
        Err(e) => {
            return Err(e);
        },
    };
    let pager = match resolve_pager(&doc.pager) {
        Ok(v) => v,
        Err(e) => {
            return Err(e);
        },
    };
    Ok(Config { columns, style, search, display, sort, docker, pager })
}


/// The document table that spells out a percentage-banded color table.
pub open spec fn doc_by_percentage_of(s: ConfigStyleByPercentage) -> DocStyleByPercentageV {
    DocStyleByPercentageV {
        color_000: color_name_spec(s.color_000),
        color_025: color_name_spec(s.color_025),
        color_050: color_name_spec(s.color_050),
        color_075: color_name_spec(s.color_075),
        color_100: color_name_spec(s.color_100),
    }
}

/// The document table that spells out a byte-unit-banded color table.
pub open spec fn doc_by_unit_of(s: ConfigStyleByUnit) -> DocStyleByUnitV {
    DocStyleByUnitV {
        color_k: color_name_spec(s.color_k),
        color_m: color_name_spec(s.color_m),
        color_g: color_name_spec(s.color_g),
        color_t: color_name_spec(s.color_t),
        color_p: color_name_spec(s.color_p),
        color_x: color_name_spec(s.color_x),
    }
}

/// The document table that spells out a process-state-banded color table.
pub open spec fn doc_by_state_of(s: ConfigStyleByState) -> DocStyleByStateV {
    DocStyleByStateV {
        color_d: color_name_spec(s.color_d),
        color_r: color_name_spec(s.color_r),
        color_s: color_name_spec(s.color_s),
        color_t: color_name_spec(s.color_t),
        color_z: color_name_spec(s.color_z),
        color_x: color_name_spec(s.color_x),
        color_k: color_name_spec(s.color_k),
        color_w: color_name_spec(s.color_w),
        color_p: color_name_spec(s.color_p),
    }
}


/// The document column entry that spells out a resolved column.
pub open spec fn doc_column_of(c: ConfigColumn) -> DocColumnV {
    DocColumnV {
        kind: kind_name_spec(c.kind),
        style: style_name_spec(c.style),
        numeric_search: Some(c.numeric_search),
        nonnumeric_search: Some(c.nonnumeric_search),
        align: Some(align_name_spec(c.align)),
    }
}

/// The document column list that spells out a resolved column list.
pub open spec fn doc_columns_of(cols: Seq<ConfigColumn>) -> Seq<DocColumnV> {
    Seq::new(cols.len(), |i: int| doc_column_of(cols[i]))
}

/// The document style table that spells out a resolved style table.
pub open spec fn doc_style_of(s: ConfigStyle) -> DocStyleV {
    DocStyleV {
        header: color_name_spec(s.header),
        unit: color_name_spec(s.unit),
        by_percentage: Some(doc_by_percentage_of(s.by_percentage)),
        by_state: Some(doc_by_state_of(s.by_state)),
        by_unit: Some(doc_by_unit_of(s.by_unit)),
    }
}

/// The document search table that spells out resolved search settings.
pub open spec fn doc_search_of(s: ConfigSearch) -> DocSearchV {
    DocSearchV {
        numeric_search: Some(search_kind_name_spec(s.numeric_search)),
        nonnumeric_search: Some(search_kind_name_spec(s.nonnumeric_search)),
        logic: Some(search_logic_name_spec(s.logic)),
    }
}

/// The document display table that spells out resolved display settings.
pub open spec fn doc_display_of(s: ConfigDisplayV) -> DocDisplayV {
    DocDisplayV {
        show_self: Some(s.show_self),
        cut_to_terminal: Some(s.cut_to_terminal),
        cut_to_pager: Some(s.cut_to_pager),
        cut_to_pipe: Some(s.cut_to_pipe),
        color_mode: Some(color_mode_name_spec(s.color_mode)),
        separator: Some(s.separator),
        ascending: Some(s.ascending),
        descending: Some(s.descending),
    }
}

/// The document sort table that spells out resolved sort settings.
pub open spec fn doc_sort_of(s: ConfigSort) -> DocSortV {
    DocSortV { column: Some(s.column), order: Some(sort_order_name_spec(s.order)) }
}

/// The document Docker table that spells out resolved Docker settings.
pub open spec fn doc_docker_of(s: ConfigDockerV) -> DocDockerV {
    DocDockerV { path: s.path }
}

/// The document pager table that spells out resolved pager settings.
pub open spec fn doc_pager_of(s: ConfigPagerV) -> DocPagerV {
    DocPagerV { mode: Some(pager_mode_name_spec(s.mode)), command: s.command }
}

/// The document that spells out a whole resolved configuration, every
/// field written explicitly.
pub open spec fn doc_of_spec(c: ConfigV) -> DocumentV {
    DocumentV {
        columns: doc_columns_of(c.columns),
        style: Some(doc_style_of(c.style)),
        search: Some(doc_search_of(c.search)),
        display: Some(doc_display_of(c.display)),
        sort: Some(doc_sort_of(c.sort)),
        docker: Some(doc_docker_of(c.docker)),
        pager: Some(doc_pager_of(c.pager)),
    }
}

/// Serializes a resolved configuration into a document that spells every
/// field out.  Resolving that document gives the configuration back.
pub fn to_document(c: &Config) -> (d: Document)
    ensures
        d@ == doc_of_spec(c@),
{
    let mut cols: Vec<DocColumn> = Vec::new();
    let mut i: usize = 0;
    while i < c.columns.len()
        invariant
            0 <= i <= c.columns.len(),
            cols@.len() == i,
            forall|j: int| 0 <= j < i ==> cols@[j]@ == doc_column_of(c@.columns[j]),
        decreases c.columns.len() - i,
    {
        let col = c.columns[i];
        cols.push(
            DocColumn {
                kind: kind_name(&col.kind).to_owned(),
                style: style_name(&col.style).to_owned(),
                numeric_search: Some(col.numeric_search),
                nonnumeric_search: Some(col.nonnumeric_search),
                align: Some(align_name(&col.align).to_owned()),
            },
        );
        i += 1;
    }
    let d = Document {
        columns: cols,
        style: Some(
            DocStyle {
                header: color_name(&c.style.header).to_owned(),
                unit: color_name(&c.style.unit).to_owned(),
                by_percentage: Some(
                    DocStyleByPercentage {
                        color_000: color_name(&c.style.by_percentage.color_000).to_owned(),
                        color_025: color_name(&c.style.by_percentage.color_025).to_owned(),
                        color_050: color_name(&c.style.by_percentage.color_050).to_owned(),
                        color_075: color_name(&c.style.by_percentage.color_075).to_owned(),
                        color_100: color_name(&c.style.by_percentage.color_100).to_owned(),
                    },
                ),
                by_state: Some(
                    DocStyleByState {
                        color_d: color_name(&c.style.by_state.color_d).to_owned(),
                        color_r: color_name(&c.style.by_state.color_r).to_owned(),
                        color_s: color_name(&c.style.by_state.color_s).to_owned(),
                        color_t: color_name(&c.style.by_state.color_t).to_owned(),
                        color_z: color_name(&c.style.by_state.color_z).to_owned(),
                        color_x: color_name(&c.style.by_state.color_x).to_owned(),
                        color_k: color_name(&c.style.by_state.color_k).to_owned(),
                        color_w: color_name(&c.style.by_state.color_w).to_owned(),
                        color_p: color_name(&c.style.by_state.color_p).to_owned(),
                    },
                ),
                by_unit: Some(
                    DocStyleByUnit {
                        color_k: color_name(&c.style.by_unit.color_k).to_owned(),
                        color_m: color_name(&c.style.by_unit.color_m).to_owned(),
                        color_g: color_name(&c.style.by_unit.color_g).to_owned(),
                        color_t: color_name(&c.style.by_unit.color_t).to_owned(),
                        color_p: color_name(&c.style.by_unit.color_p).to_owned(),
                        color_x: color_name(&c.style.by_unit.color_x).to_owned(),
                    },
                ),
            },
        ),
        search: Some(
            DocSearch {
                numeric_search: Some(search_kind_name(&c.search.numeric_search).to_owned()),
                nonnumeric_search: Some(search_kind_name(&c.search.nonnumeric_search).to_owned()),
                logic: Some(search_logic_name(&c.search.logic).to_owned()),
            },
        ),
        display: Some(
            DocDisplay {
                show_self: Some(c.display.show_self),
                cut_to_terminal: Some(c.display.cut_to_terminal),
                cut_to_pager: Some(c.display.cut_to_pager),
                cut_to_pipe: Some(c.display.cut_to_pipe),
                color_mode: Some(color_mode_name(&c.display.color_mode).to_owned()),
                separator: Some(c.display.separator.clone()),
                ascending: Some(c.display.ascending.clone()),
                descending: Some(c.display.descending.clone()),
            },
        ),
        sort: Some(
            DocSort {
                column: Some(c.sort.column),
                order: Some(sort_order_name(&c.sort.order).to_owned()),
            },
        ),
        docker: Some(DocDocker { path: c.docker.path.clone() }),
        pager: Some(
            DocPager {
                mode: Some(pager_mode_name(&c.pager.mode).to_owned()),
                command: match &c.pager.command {
                    Some(s) => Some(s.clone()),
                    None => None,
                },
            },
        ),
    };
    proof {
        assert(d@.columns =~= doc_of_spec(c@).columns);
        assert(d@ =~= doc_of_spec(c@));
    }
    d
}

/// The built-in default column layout of a platform, in display order.
pub open spec fn default_columns_spec(p: Platform) -> Seq<ConfigColumn> {
    match p {
        Platform::Linux => seq![
            ConfigColumn { kind: ConfigColumnKind::Pid, style: ConfigColumnStyle::BrightYellow, numeric_search: true, nonnumeric_search: false, align: ConfigColumnAlign::Left },
            ConfigColumn { kind: ConfigColumnKind::User, style: ConfigColumnStyle::BrightGreen, numeric_search: false, nonnumeric_search: true, align: ConfigColumnAlign::Left },
            ConfigColumn { kind: ConfigColumnKind::Separator, style: ConfigColumnStyle::White, numeric_search: false, nonnumeric_search: false, align: ConfigColumnAlign::Left },
            ConfigColumn { kind: ConfigColumnKind::State, style: ConfigColumnStyle::ByState, numeric_search: false, nonnumeric_search: false, align: ConfigColumnAlign::Left },
            ConfigColumn { kind: ConfigColumnKind::Nice, style: ConfigColumnStyle::BrightMagenta, numeric_search: false, nonnumeric_search: false, align: ConfigColumnAlign::Right },
            ConfigColumn { kind: ConfigColumnKind::Tty, style: ConfigColumnStyle::BrightWhite, numeric_search: false, nonnumeric_search: false, align: ConfigColumnAlign::Left },
            ConfigColumn { kind: ConfigColumnKind::UsageCpu, style: ConfigColumnStyle::ByPercentage, numeric_search: false, nonnumeric_search: false, align: ConfigColumnAlign::Right },
            ConfigColumn { kind: ConfigColumnKind::UsageMem, style: ConfigColumnStyle::ByPercentage, numeric_search: false, nonnumeric_search: false, align: ConfigColumnAlign::Right },
            ConfigColumn { kind: ConfigColumnKind::VmPeak, style: ConfigColumnStyle::ByUnit, numeric_search: false, nonnumeric_search: false, align: ConfigColumnAlign::Right },
            ConfigColumn { kind: ConfigColumnKind::VmSize, style: ConfigColumnStyle::ByUnit, numeric_search: false, nonnumeric_search: false, align: ConfigColumnAlign::Right },
            ConfigColumn { kind: ConfigColumnKind::VmRss, style: ConfigColumnStyle::ByUnit, numeric_search: false, nonnumeric_search: false, align: ConfigColumnAlign::Right },
            ConfigColumn { kind: ConfigColumnKind::TcpPort, style: ConfigColumnStyle::BrightCyan, numeric_search: true, nonnumeric_search: false, align: ConfigColumnAlign::Left },
            ConfigColumn { kind: ConfigColumnKind::UdpPort, style: ConfigColumnStyle::BrightCyan, numeric_search: true, nonnumeric_search: false, align: ConfigColumnAlign::Left },
            ConfigColumn { kind: ConfigColumnKind::ReadBytes, style: ConfigColumnStyle::ByUnit, numeric_search: false, nonnumeric_search: false, align: ConfigColumnAlign::Right },
            ConfigColumn { kind: ConfigColumnKind::WriteBytes, style: ConfigColumnStyle::ByUnit, numeric_search: false, nonnumeric_search: false, align: ConfigColumnAlign::Right },
            ConfigColumn { kind: ConfigColumnKind::Slot, style: ConfigColumnStyle::ByUnit, numeric_search: false, nonnumeric_search: false, align: ConfigColumnAlign::Right },
            ConfigColumn { kind: ConfigColumnKind::Separator, style: ConfigColumnStyle::White, numeric_search: false, nonnumeric_search: false, align: ConfigColumnAlign::Left },
            ConfigColumn { kind: ConfigColumnKind::CpuTime, style: ConfigColumnStyle::BrightCyan, numeric_search: false, nonnumeric_search: false, align: ConfigColumnAlign::Left },
            ConfigColumn { kind: ConfigColumnKind::StartTime, style: ConfigColumnStyle::BrightMagenta, numeric_search: false, nonnumeric_search: false, align: ConfigColumnAlign::Left },
            ConfigColumn { kind: ConfigColumnKind::Docker, style: ConfigColumnStyle::BrightGreen, numeric_search: false, nonnumeric_search: true, align: ConfigColumnAlign::Left },
            ConfigColumn { kind: ConfigColumnKind::Separator, style: ConfigColumnStyle::White, numeric_search: false, nonnumeric_search: false, align: ConfigColumnAlign::Left },
            ConfigColumn { kind: ConfigColumnKind::Command, style: ConfigColumnStyle::BrightWhite, numeric_search: false, nonnumeric_search: true, align: ConfigColumnAlign::Left }
        ],
        Platform::Mac => seq![
            ConfigColumn { kind: ConfigColumnKind::Pid, style: ConfigColumnStyle::BrightYellow, numeric_search: true, nonnumeric_search: false, align: ConfigColumnAlign::Left },
            ConfigColumn { kind: ConfigColumnKind::Username, style: ConfigColumnStyle::BrightGreen, numeric_search: false, nonnumeric_search: true, align: ConfigColumnAlign::Left },
            ConfigColumn { kind: ConfigColumnKind::Separator, style: ConfigColumnStyle::White, numeric_search: false, nonnumeric_search: false, align: ConfigColumnAlign::Left },
            ConfigColumn { kind: ConfigColumnKind::State, style: ConfigColumnStyle::ByState, numeric_search: false, nonnumeric_search: false, align: ConfigColumnAlign::Left },
            ConfigColumn { kind: ConfigColumnKind::Nice, style: ConfigColumnStyle::BrightMagenta, numeric_search: false, nonnumeric_search: false, align: ConfigColumnAlign::Right },
            ConfigColumn { kind: ConfigColumnKind::Tty, style: ConfigColumnStyle::BrightWhite, numeric_search: false, nonnumeric_search: false, align: ConfigColumnAlign::Left },
            ConfigColumn { kind: ConfigColumnKind::UsageCpu, style: ConfigColumnStyle::ByPercentage, numeric_search: false, nonnumeric_search: false, align: ConfigColumnAlign::Right },
            ConfigColumn { kind: ConfigColumnKind::UsageMem, style: ConfigColumnStyle::ByPercentage, numeric_search: false, nonnumeric_search: false, align: ConfigColumnAlign::Right },
            ConfigColumn { kind: ConfigColumnKind::VmSize, style: ConfigColumnStyle::ByUnit, numeric_search: false, nonnumeric_search: false, align: ConfigColumnAlign::Right },
            ConfigColumn { kind: ConfigColumnKind::VmRss, style: ConfigColumnStyle::ByUnit, numeric_search: false, nonnumeric_search: false, align: ConfigColumnAlign::Right },
            ConfigColumn { kind: ConfigColumnKind::TcpPort, style: ConfigColumnStyle::BrightCyan, numeric_search: true, nonnumeric_search: false, align: ConfigColumnAlign::Left },
            ConfigColumn { kind: ConfigColumnKind::UdpPort, style: ConfigColumnStyle::BrightCyan, numeric_search: true, nonnumeric_search: false, align: ConfigColumnAlign::Left },
            ConfigColumn { kind: ConfigColumnKind::ReadBytes, style: ConfigColumnStyle::ByUnit, numeric_search: false, nonnumeric_search: false, align: ConfigColumnAlign::Right },
            ConfigColumn { kind: ConfigColumnKind::WriteBytes, style: ConfigColumnStyle::ByUnit, numeric_search: false, nonnumeric_search: false, align: ConfigColumnAlign::Right },
            ConfigColumn { kind: ConfigColumnKind::Slot, style: ConfigColumnStyle::ByUnit, numeric_search: false, nonnumeric_search: false, align: ConfigColumnAlign::Right },
            ConfigColumn { kind: ConfigColumnKind::Separator, style: ConfigColumnStyle::White, numeric_search: false, nonnumeric_search: false, align: ConfigColumnAlign::Left },
            ConfigColumn { kind: ConfigColumnKind::CpuTime, style: ConfigColumnStyle::BrightCyan, numeric_search: false, nonnumeric_search: false, align: ConfigColumnAlign::Left },
            ConfigColumn { kind: ConfigColumnKind::StartTime, style: ConfigColumnStyle::BrightMagenta, numeric_search: false, nonnumeric_search: false, align: ConfigColumnAlign::Left },
            ConfigColumn { kind: ConfigColumnKind::Docker, style: ConfigColumnStyle::BrightGreen, numeric_search: false, nonnumeric_search: true, align: ConfigColumnAlign::Left },
            ConfigColumn { kind: ConfigColumnKind::Separator, style: ConfigColumnStyle::White, numeric_search: false, nonnumeric_search: false, align: ConfigColumnAlign::Left },
            ConfigColumn { kind: ConfigColumnKind::Command, style: ConfigColumnStyle::BrightWhite, numeric_search: false, nonnumeric_search: true, align: ConfigColumnAlign::Left }
        ],
    }
}

/// The configuration the built-in zero document resolves to: the
/// platform's default column layout with every settings table at its
/// default.
pub open spec fn default_config_spec(p: Platform) -> ConfigV {
    ConfigV {
        columns: default_columns_spec(p),
        style: default_config_style(),
        search: default_config_search(),
        display: default_config_display(),
        sort: default_config_sort(),
        docker: default_config_docker(),
        pager: default_config_pager(),
    }
}

/// Executable counterpart of `default_config_spec`.
#[verifier::rlimit(30)]
pub fn default_config(p: Platform) -> (c: Config)
    ensures
        c@ == default_config_spec(p),
{
    let mut columns: Vec<ConfigColumn> = Vec::new();
    match p {
        Platform::Linux => {
            columns.push(ConfigColumn { kind: ConfigColumnKind::Pid, style: ConfigColumnStyle::BrightYellow, numeric_search: true, nonnumeric_search: false, align: ConfigColumnAlign::Left });
            columns.push(ConfigColumn { kind: ConfigColumnKind::User, style: ConfigColumnStyle::BrightGreen, numeric_search: false, nonnumeric_search: true, align: ConfigColumnAlign::Left });
            columns.push(ConfigColumn { kind: ConfigColumnKind::Separator, style: ConfigColumnStyle::White, numeric_search: false, nonnumeric_search: false, align: ConfigColumnAlign::Left });
            columns.push(ConfigColumn { kind: ConfigColumnKind::State, style: ConfigColumnStyle::ByState, numeric_search: false, nonnumeric_search: false, align: ConfigColumnAlign::Left });
            columns.push(ConfigColumn { kind: ConfigColumnKind::Nice, style: ConfigColumnStyle::BrightMagenta, numeric_search: false, nonnumeric_search: false, align: ConfigColumnAlign::Right });
            columns.push(ConfigColumn { kind: ConfigColumnKind::Tty, style: ConfigColumnStyle::BrightWhite, numeric_search: false, nonnumeric_search: false, align: ConfigColumnAlign::Left });
            columns.push(ConfigColumn { kind: ConfigColumnKind::UsageCpu, style: ConfigColumnStyle::ByPercentage, numeric_search: false, nonnumeric_search: false, align: ConfigColumnAlign::Right });
            columns.push(ConfigColumn { kind: ConfigColumnKind::UsageMem, style: ConfigColumnStyle::ByPercentage, numeric_search: false, nonnumeric_search: false, align: ConfigColumnAlign::Right });
            columns.push(ConfigColumn { kind: ConfigColumnKind::VmPeak, style: ConfigColumnStyle::ByUnit, numeric_search: false, nonnumeric_search: false, align: ConfigColumnAlign::Right });
            columns.push(ConfigColumn { kind: ConfigColumnKind::VmSize, style: ConfigColumnStyle::ByUnit, numeric_search: false, nonnumeric_search: false, align: ConfigColumnAlign::Right });
            columns.push(ConfigColumn { kind: ConfigColumnKind::VmRss, style: ConfigColumnStyle::ByUnit, numeric_search: false, nonnumeric_search: false, align: ConfigColumnAlign::Right });
            columns.push(ConfigColumn { kind: ConfigColumnKind::TcpPort, style: ConfigColumnStyle::BrightCyan, numeric_search: true, nonnumeric_search: false, align: ConfigColumnAlign::Left });
            columns.push(ConfigColumn { kind: ConfigColumnKind::UdpPort, style: ConfigColumnStyle::BrightCyan, numeric_search: true, nonnumeric_search: false, align: ConfigColumnAlign::Left });
            columns.push(ConfigColumn { kind: ConfigColumnKind::ReadBytes, style: ConfigColumnStyle::ByUnit, numeric_search: false, nonnumeric_search: false, align: ConfigColumnAlign::Right });
            columns.push(ConfigColumn { kind: ConfigColumnKind::WriteBytes, style: ConfigColumnStyle::ByUnit, numeric_search: false, nonnumeric_search: false, align: ConfigColumnAlign::Right });
            columns.push(ConfigColumn { kind: ConfigColumnKind::Slot, style: ConfigColumnStyle::ByUnit, numeric_search: false, nonnumeric_search: false, align: ConfigColumnAlign::Right });
            columns.push(ConfigColumn { kind: ConfigColumnKind::Separator, style: ConfigColumnStyle::White, numeric_search: false, nonnumeric_search: false, align: ConfigColumnAlign::Left });
            columns.push(ConfigColumn { kind: ConfigColumnKind::CpuTime, style: ConfigColumnStyle::BrightCyan, numeric_search: false, nonnumeric_search: false, align: ConfigColumnAlign::Left });
            columns.push(ConfigColumn { kind: ConfigColumnKind::StartTime, style: ConfigColumnStyle::BrightMagenta, numeric_search: false, nonnumeric_search: false, align: ConfigColumnAlign::Left });
            columns.push(ConfigColumn { kind: ConfigColumnKind::Docker, style: ConfigColumnStyle::BrightGreen, numeric_search: false, nonnumeric_search: true, align: ConfigColumnAlign::Left });
            columns.push(ConfigColumn { kind: ConfigColumnKind::Separator, style: ConfigColumnStyle::White, numeric_search: false, nonnumeric_search: false, align: ConfigColumnAlign::Left });
            columns.push(ConfigColumn { kind: ConfigColumnKind::Command, style: ConfigColumnStyle::BrightWhite, numeric_search: false, nonnumeric_search: true, align: ConfigColumnAlign::Left });
        },
        Platform::Mac => {
            columns.push(ConfigColumn { kind: ConfigColumnKind::Pid, style: ConfigColumnStyle::BrightYellow, numeric_search: true, nonnumeric_search: false, align: ConfigColumnAlign::Left });
            columns.push(ConfigColumn { kind: ConfigColumnKind::Username, style: ConfigColumnStyle::BrightGreen, numeric_search: false, nonnumeric_search: true, align: ConfigColumnAlign::Left });
            columns.push(ConfigColumn { kind: ConfigColumnKind::Separator, style: ConfigColumnStyle::White, numeric_search: false, nonnumeric_search: false, align: ConfigColumnAlign::Left });
            columns.push(ConfigColumn { kind: ConfigColumnKind::State, style: ConfigColumnStyle::ByState, numeric_search: false, nonnumeric_search: false, align: ConfigColumnAlign::Left });
            columns.push(ConfigColumn { kind: ConfigColumnKind::Nice, style: ConfigColumnStyle::BrightMagenta, numeric_search: false, nonnumeric_search: false, align: ConfigColumnAlign::Right });
            columns.push(ConfigColumn { kind: ConfigColumnKind::Tty, style: ConfigColumnStyle::BrightWhite, numeric_search: false, nonnumeric_search: false, align: ConfigColumnAlign::Left });
            columns.push(ConfigColumn { kind: ConfigColumnKind::UsageCpu, style: ConfigColumnStyle::ByPercentage, numeric_search: false, nonnumeric_search: false, align: ConfigColumnAlign::Right });
            columns.push(ConfigColumn { kind: ConfigColumnKind::UsageMem, style: ConfigColumnStyle::ByPercentage, numeric_search: false, nonnumeric_search: false, align: ConfigColumnAlign::Right });
            columns.push(ConfigColumn { kind: ConfigColumnKind::VmSize, style: ConfigColumnStyle::ByUnit, numeric_search: false, nonnumeric_search: false, align: ConfigColumnAlign::Right });
            columns.push(ConfigColumn { kind: ConfigColumnKind::VmRss, style: ConfigColumnStyle::ByUnit, numeric_search: false, nonnumeric_search: false, align: ConfigColumnAlign::Right });
            columns.push(ConfigColumn { kind: ConfigColumnKind::TcpPort, style: ConfigColumnStyle::BrightCyan, numeric_search: true, nonnumeric_search: false, align: ConfigColumnAlign::Left });
            columns.push(ConfigColumn { kind: ConfigColumnKind::UdpPort, style: ConfigColumnStyle::BrightCyan, numeric_search: true, nonnumeric_search: false, align: ConfigColumnAlign::Left });
            columns.push(ConfigColumn { kind: ConfigColumnKind::ReadBytes, style: ConfigColumnStyle::ByUnit, numeric_search: false, nonnumeric_search: false, align: ConfigColumnAlign::Right });
            columns.push(ConfigColumn { kind: ConfigColumnKind::WriteBytes, style: ConfigColumnStyle::ByUnit, numeric_search: false, nonnumeric_search: false, align: ConfigColumnAlign::Right });
            columns.push(ConfigColumn { kind: ConfigColumnKind::Slot, style: ConfigColumnStyle::ByUnit, numeric_search: false, nonnumeric_search: false, align: ConfigColumnAlign::Right });
            columns.push(ConfigColumn { kind: ConfigColumnKind::Separator, style: ConfigColumnStyle::White, numeric_search: false, nonnumeric_search: false, align: ConfigColumnAlign::Left });
            columns.push(ConfigColumn { kind: ConfigColumnKind::CpuTime, style: ConfigColumnStyle::BrightCyan, numeric_search: false, nonnumeric_search: false, align: ConfigColumnAlign::Left });
            columns.push(ConfigColumn { kind: ConfigColumnKind::StartTime, style: ConfigColumnStyle::BrightMagenta, numeric_search: false, nonnumeric_search: false, align: ConfigColumnAlign::Left });
            columns.push(ConfigColumn { kind: ConfigColumnKind::Docker, style: ConfigColumnStyle::BrightGreen, numeric_search: false, nonnumeric_search: true, align: ConfigColumnAlign::Left });
            columns.push(ConfigColumn { kind: ConfigColumnKind::Separator, style: ConfigColumnStyle::White, numeric_search: false, nonnumeric_search: false, align: ConfigColumnAlign::Left });
            columns.push(ConfigColumn { kind: ConfigColumnKind::Command, style: ConfigColumnStyle::BrightWhite, numeric_search: false, nonnumeric_search: true, align: ConfigColumnAlign::Left });
        },
    }
    proof {
        assert(columns@ =~= default_columns_spec(p));
    }
    let c = Config {
        columns,
        style: Default::default(),
        search: Default::default(),
        display: Default::default(),
        sort: Default::default(),
        docker: Default::default(),
        pager: Default::default(),
    };
    proof {
        assert(c@ =~= default_config_spec(p));
    }
    c
}

/// The document column entry that selects a column, spelling the kind and
/// style out and omitting the alignment when it is the default.
pub open spec fn doc_column_brief_of(c: ConfigColumn) -> DocColumnV {
    DocColumnV {
        kind: kind_name_spec(c.kind),
        style: style_name_spec(c.style),
        numeric_search: Some(c.numeric_search),
        nonnumeric_search: Some(c.nonnumeric_search),
        align: if c.align == ConfigColumnAlign::Left {
            None
        } else {
            Some(align_name_spec(c.align))
        },
    }
}

/// The brief document column list that selects a resolved column list.
pub open spec fn doc_columns_brief_of(cols: Seq<ConfigColumn>) -> Seq<DocColumnV> {
    Seq::new(cols.len(), |i: int| doc_column_brief_of(cols[i]))
}

/// The built-in zero document of a platform: only the default column
/// layout, written briefly, with every settings table absent.
pub open spec fn default_document_spec(p: Platform) -> DocumentV {
    DocumentV {
        columns: doc_columns_brief_of(default_columns_spec(p)),
        style: None,
        search: None,
        display: None,
        sort: None,
        docker: None,
        pager: None,
    }
}

/// Executable counterpart of `default_document_spec`: the document used
/// when no configuration file is given at all.
#[verifier::rlimit(30)]
pub fn default_document(p: Platform) -> (d: Document)
    ensures
        d@ == default_document_spec(p),
{
    let mut cols: Vec<DocColumn> = Vec::new();
    match p {
        Platform::Linux => {
            cols.push(DocColumn { kind: "Pid".to_owned(), style: "BrightYellow".to_owned(), numeric_search: Some(true), nonnumeric_search: Some(false), align: None });
            cols.push(DocColumn { kind: "User".to_owned(), style: "BrightGreen".to_owned(), numeric_search: Some(false), nonnumeric_search: Some(true), align: None });
            cols.push(DocColumn { kind: "Separator".to_owned(), style: "White".to_owned(), numeric_search: Some(false), nonnumeric_search: Some(false), align: None });
            cols.push(DocColumn { kind: "State".to_owned(), style: "ByState".to_owned(), numeric_search: Some(false), nonnumeric_search: Some(false), align: None });
            cols.push(DocColumn { kind: "Nice".to_owned(), style: "BrightMagenta".to_owned(), numeric_search: Some(false), nonnumeric_search: Some(false), align: Some("Right".to_owned()) });
            cols.push(DocColumn { kind: "Tty".to_owned(), style: "BrightWhite".to_owned(), numeric_search: Some(false), nonnumeric_search: Some(false), align: None });
            cols.push(DocColumn { kind: "UsageCpu".to_owned(), style: "ByPercentage".to_owned(), numeric_search: Some(false), nonnumeric_search: Some(false), align: Some("Right".to_owned()) });
            cols.push(DocColumn { kind: "UsageMem".to_owned(), style: "ByPercentage".to_owned(), numeric_search: Some(false), nonnumeric_search: Some(false), align: Some("Right".to_owned()) });
            cols.push(DocColumn { kind: "VmPeak".to_owned(), style: "ByUnit".to_owned(), numeric_search: Some(false), nonnumeric_search: Some(false), align: Some("Right".to_owned()) });
            cols.push(DocColumn { kind: "VmSize".to_owned(), style: "ByUnit".to_owned(), numeric_search: Some(false), nonnumeric_search: Some(false), align: Some("Right".to_owned()) });
            cols.push(DocColumn { kind: "VmRss".to_owned(), style: "ByUnit".to_owned(), numeric_search: Some(false), nonnumeric_search: Some(false), align: Some("Right".to_owned()) });
            cols.push(DocColumn { kind: "TcpPort".to_owned(), style: "BrightCyan".to_owned(), numeric_search: Some(true), nonnumeric_search: Some(false), align: None });
            cols.push(DocColumn { kind: "UdpPort".to_owned(), style: "BrightCyan".to_owned(), numeric_search: Some(true), nonnumeric_search: Some(false), align: None });
            cols.push(DocColumn { kind: "ReadBytes".to_owned(), style: "ByUnit".to_owned(), numeric_search: Some(false), nonnumeric_search: Some(false), align: Some("Right".to_owned()) });
            cols.push(DocColumn { kind: "WriteBytes".to_owned(), style: "ByUnit".to_owned(), numeric_search: Some(false), nonnumeric_search: Some(false), align: Some("Right".to_owned()) });
            cols.push(DocColumn { kind: "Slot".to_owned(), style: "ByUnit".to_owned(), numeric_search: Some(false), nonnumeric_search: Some(false), align: Some("Right".to_owned()) });
            cols.push(DocColumn { kind: "Separator".to_owned(), style: "White".to_owned(), numeric_search: Some(false), nonnumeric_search: Some(false), align: None });
            cols.push(DocColumn { kind: "CpuTime".to_owned(), style: "BrightCyan".to_owned(), numeric_search: Some(false), nonnumeric_search: Some(false), align: None });
            cols.push(DocColumn { kind: "StartTime".to_owned(), style: "BrightMagenta".to_owned(), numeric_search: Some(false), nonnumeric_search: Some(false), align: None });
            cols.push(DocColumn { kind: "Docker".to_owned(), style: "BrightGreen".to_owned(), numeric_search: Some(false), nonnumeric_search: Some(true), align: None });
            cols.push(DocColumn { kind: "Separator".to_owned(), style: "White".to_owned(), numeric_search: Some(false), nonnumeric_search: Some(false), align: None });
            cols.push(DocColumn { kind: "Command".to_owned(), style: "BrightWhite".to_owned(), numeric_search: Some(false), nonnumeric_search: Some(true), align: None });
        },
        Platform::Mac => {
            cols.push(DocColumn { kind: "Pid".to_owned(), style: "BrightYellow".to_owned(), numeric_search: Some(true), nonnumeric_search: Some(false), align: None });
            cols.push(DocColumn { kind: "Username".to_owned(), style: "BrightGreen".to_owned(), numeric_search: Some(false), nonnumeric_search: Some(true), align: None });
            cols.push(DocColumn { kind: "Separator".to_owned(), style: "White".to_owned(), numeric_search: Some(false), nonnumeric_search: Some(false), align: None });
            cols.push(DocColumn { kind: "State".to_owned(), style: "ByState".to_owned(), numeric_search: Some(false), nonnumeric_search: Some(false), align: None });
            cols.push(DocColumn { kind: "Nice".to_owned(), style: "BrightMagenta".to_owned(), numeric_search: Some(false), nonnumeric_search: Some(false), align: Some("Right".to_owned()) });
            cols.push(DocColumn { kind: "Tty".to_owned(), style: "BrightWhite".to_owned(), numeric_search: Some(false), nonnumeric_search: Some(false), align: None });
            cols.push(DocColumn { kind: "UsageCpu".to_owned(), style: "ByPercentage".to_owned(), numeric_search: Some(false), nonnumeric_search: Some(false), align: Some("Right".to_owned()) });
            cols.push(DocColumn { kind: "UsageMem".to_owned(), style: "ByPercentage".to_owned(), numeric_search: Some(false), nonnumeric_search: Some(false), align: Some("Right".to_owned()) });
            cols.push(DocColumn { kind: "VmSize".to_owned(), style: "ByUnit".to_owned(), numeric_search: Some(false), nonnumeric_search: Some(false), align: Some("Right".to_owned()) });
            cols.push(DocColumn { kind: "VmRss".to_owned(), style: "ByUnit".to_owned(), numeric_search: Some(false), nonnumeric_search: Some(false), align: Some("Right".to_owned()) });
            cols.push(DocColumn { kind: "TcpPort".to_owned(), style: "BrightCyan".to_owned(), numeric_search: Some(true), nonnumeric_search: Some(false), align: None });
            cols.push(DocColumn { kind: "UdpPort".to_owned(), style: "BrightCyan".to_owned(), numeric_search: Some(true), nonnumeric_search: Some(false), align: None });
            cols.push(DocColumn { kind: "ReadBytes".to_owned(), style: "ByUnit".to_owned(), numeric_search: Some(false), nonnumeric_search: Some(false), align: Some("Right".to_owned()) });
            cols.push(DocColumn { kind: "WriteBytes".to_owned(), style: "ByUnit".to_owned(), numeric_search: Some(false), nonnumeric_search: Some(false), align: Some("Right".to_owned()) });
            cols.push(DocColumn { kind: "Slot".to_owned(), style: "ByUnit".to_owned(), numeric_search: Some(false), nonnumeric_search: Some(false), align: Some("Right".to_owned()) });
            cols.push(DocColumn { kind: "Separator".to_owned(), style: "White".to_owned(), numeric_search: Some(false), nonnumeric_search: Some(false), align: None });
            cols.push(DocColumn { kind: "CpuTime".to_owned(), style: "BrightCyan".to_owned(), numeric_search: Some(false), nonnumeric_search: Some(false), align: None });
            cols.push(DocColumn { kind: "StartTime".to_owned(), style: "BrightMagenta".to_owned(), numeric_search: Some(false), nonnumeric_search: Some(false), align: None });
            cols.push(DocColumn { kind: "Docker".to_owned(), style: "BrightGreen".to_owned(), numeric_search: Some(false), nonnumeric_search: Some(true), align: None });
            cols.push(DocColumn { kind: "Separator".to_owned(), style: "White".to_owned(), numeric_search: Some(false), nonnumeric_search: Some(false), align: None });
            cols.push(DocColumn { kind: "Command".to_owned(), style: "BrightWhite".to_owned(), numeric_search: Some(false), nonnumeric_search: Some(true), align: None });
        },
    }
    let d = Document {
        columns: cols,
        style: None,
        search: None,
        display: None,
        sort: None,
        docker: None,
        pager: None,
    };
    proof {
        assert(d@.columns =~= default_document_spec(p).columns);
        assert(d@ =~= default_document_spec(p));
    }
    d
}

/// Resolving the spelled-out percentage-banded table gives the table back.
pub proof fn lemma_resolve_by_percentage_roundtrip(s: ConfigStyleByPercentage)
    ensures
        resolve_by_percentage_spec(Some(doc_by_percentage_of(s))) == Ok::<ConfigStyleByPercentage, DocError>(s),
{
    lemma_parse_color_name(s.color_000);
    lemma_parse_color_name(s.color_025);
    lemma_parse_color_name(s.color_050);
    lemma_parse_color_name(s.color_075);
    lemma_parse_color_name(s.color_100);
}

/// Resolving the spelled-out byte-unit-banded table gives the table back.
pub proof fn lemma_resolve_by_unit_roundtrip(s: ConfigStyleByUnit)
    ensures
        resolve_by_unit_spec(Some(doc_by_unit_of(s))) == Ok::<ConfigStyleByUnit, DocError>(s),
{
    lemma_parse_color_name(s.color_k);
    lemma_parse_color_name(s.color_m);
    lemma_parse_color_name(s.color_g);
    lemma_parse_color_name(s.color_t);
    lemma_parse_color_name(s.color_p);
    lemma_parse_color_name(s.color_x);
}

/// Resolving the spelled-out process-state-banded table gives the table back.
pub proof fn lemma_resolve_by_state_roundtrip(s: ConfigStyleByState)
    ensures
        resolve_by_state_spec(Some(doc_by_state_of(s))) == Ok::<ConfigStyleByState, DocError>(s),
{
    lemma_parse_color_name(s.color_d);
    lemma_parse_color_name(s.color_r);
    lemma_parse_color_name(s.color_s);
    lemma_parse_color_name(s.color_t);
    lemma_parse_color_name(s.color_z);
    lemma_parse_color_name(s.color_x);
    lemma_parse_color_name(s.color_k);
    lemma_parse_color_name(s.color_w);
    lemma_parse_color_name(s.color_p);
}


/// Resolving the spelled-out style table gives the table back.
pub proof fn lemma_resolve_style_roundtrip(s: ConfigStyle)
    ensures
        resolve_style_spec(Some(doc_style_of(s))) == Ok::<ConfigStyle, DocError>(s),
{
    lemma_parse_color_name(s.header);
    lemma_parse_color_name(s.unit);
    lemma_resolve_by_percentage_roundtrip(s.by_percentage);
    lemma_resolve_by_state_roundtrip(s.by_state);
    lemma_resolve_by_unit_roundtrip(s.by_unit);
}

/// Resolving the spelled-out search table gives the settings back.
pub proof fn lemma_resolve_search_roundtrip(s: ConfigSearch)
    ensures
        resolve_search_spec(Some(doc_search_of(s))) == Ok::<ConfigSearch, DocError>(s),
{
    crate::config::lemma_parse_search_kind_name(s.numeric_search);
    crate::config::lemma_parse_search_kind_name(s.nonnumeric_search);
    crate::config::lemma_parse_search_logic_name(s.logic);
}

/// Resolving the spelled-out display table gives the settings back.
pub proof fn lemma_resolve_display_roundtrip(s: ConfigDisplayV)
    ensures
        resolve_display_spec(Some(doc_display_of(s))) == Ok::<ConfigDisplayV, DocError>(s),
{
    crate::config::lemma_parse_color_mode_name(s.color_mode);
    let r = resolve_display_spec(Some(doc_display_of(s)));
    assert(r is Ok && r->Ok_0 =~= s);
}

/// Resolving the spelled-out sort table gives the settings back.
pub proof fn lemma_resolve_sort_roundtrip(s: ConfigSort)
    ensures
        resolve_sort_spec(Some(doc_sort_of(s))) == Ok::<ConfigSort, DocError>(s),
{
    crate::config::lemma_parse_sort_order_name(s.order);
}

/// Resolving the spelled-out pager table gives the settings back.
pub proof fn lemma_resolve_pager_roundtrip(s: ConfigPagerV)
    ensures
        resolve_pager_spec(Some(doc_pager_of(s))) == Ok::<ConfigPagerV, DocError>(s),
{
    crate::config::lemma_parse_pager_mode_name(s.mode);
    let r = resolve_pager_spec(Some(doc_pager_of(s)));
    assert(r is Ok && r->Ok_0 =~= s);
}

proof fn lemma_resolve_columns_roundtrip(cols: Seq<ConfigColumn>, p: Platform, i: int)
    requires
        0 <= i <= cols.len(),
        forall|j: int| 0 <= j < cols.len() ==> active_on(p, cols[j].kind),
    ensures
        resolve_columns_from(doc_columns_of(cols), p, i) == Ok::<Seq<ConfigColumn>, DocError>(
            cols.subrange(i, cols.len() as int),
        ),
    decreases cols.len() - i,
{
    let dc = doc_columns_of(cols);
    if i == cols.len() {
        assert(cols.subrange(i, cols.len() as int) =~= Seq::<ConfigColumn>::empty());
    } else {
        crate::kind::lemma_parse_kind_name(cols[i].kind);
        crate::style::lemma_parse_style_name(cols[i].style);
        crate::style::lemma_parse_align_name(cols[i].align);
        assert(resolve_column_spec(dc[i], p, i) == Ok::<ConfigColumn, DocError>(cols[i]));
        lemma_resolve_columns_roundtrip(cols, p, i + 1);
        assert(seq![cols[i]] + cols.subrange(i + 1, cols.len() as int) =~= cols.subrange(
            i,
            cols.len() as int,
        ));
    }
}

/// Serialization round trip: resolving the document that spells out a
/// configuration whose column kinds the platform supports gives exactly
/// that configuration back.
pub proof fn lemma_serialize_resolve_roundtrip(c: ConfigV, p: Platform)
    requires
        config_supported(c, p),
    ensures
        spec_resolve(doc_of_spec(c), p) == Ok::<ConfigV, DocError>(c),
{
    lemma_resolve_columns_roundtrip(c.columns, p, 0);
    assert(c.columns.subrange(0, c.columns.len() as int) =~= c.columns);
    lemma_resolve_style_roundtrip(c.style);
    lemma_resolve_search_roundtrip(c.search);
    lemma_resolve_display_roundtrip(c.display);
    lemma_resolve_sort_roundtrip(c.sort);
    lemma_resolve_pager_roundtrip(c.pager);
    let r = spec_resolve(doc_of_spec(c), p);
    assert(r is Ok && r->Ok_0 =~= c);
}

proof fn lemma_resolve_columns_supported(cols: Seq<DocColumnV>, p: Platform, i: int)
    requires
        0 <= i <= cols.len(),
        resolve_columns_from(cols, p, i) is Ok,
    ensures
        resolve_columns_from(cols, p, i)->Ok_0.len() == cols.len() - i,
        forall|j: int|
            0 <= j < cols.len() - i ==> active_on(
                p,
                resolve_columns_from(cols, p, i)->Ok_0[j].kind,
            ),
    decreases cols.len() - i,
{
    if i < cols.len() {
        lemma_resolve_columns_supported(cols, p, i + 1);
    }
}

/// A successfully resolved configuration references only kinds of the
/// platform's active catalog.
pub proof fn lemma_resolve_supported(d: DocumentV, p: Platform, c: ConfigV)
    requires
        spec_resolve(d, p) == Ok::<ConfigV, DocError>(c),
    ensures
        config_supported(c, p),
{
    lemma_resolve_columns_supported(d.columns, p, 0);
}

/// Deep defaulting: whatever else a document holds, every settings table
/// it omits resolves to that table's own independent default.
pub proof fn lemma_deep_defaulting(d: DocumentV, p: Platform, c: ConfigV)
    requires
        spec_resolve(d, p) == Ok::<ConfigV, DocError>(c),
    ensures
        d.style is None ==> c.style == default_config_style(),
        d.search is None ==> c.search == default_config_search(),
        d.display is None ==> c.display == default_config_display(),
        d.sort is None ==> c.sort == default_config_sort(),
        d.docker is None ==> c.docker == default_config_docker(),
        d.pager is None ==> c.pager == default_config_pager(),
{
}

proof fn lemma_resolve_columns_err(cols: Seq<DocColumnV>, p: Platform, j: int, i: int)
    requires
        0 <= j <= i < cols.len(),
        resolve_column_spec(cols[i], p, i) is Err,
    ensures
        resolve_columns_from(cols, p, j) is Err,
    decreases i - j,
{
    if j < i {
        lemma_resolve_columns_err(cols, p, j + 1, i);
    }
}

/// A document that references a kind outside the platform's active
/// catalog fails to resolve: it reports a document error instead of
/// producing a configuration.
pub proof fn lemma_unsupported_kind_rejected(
    d: DocumentV,
    p: Platform,
    i: int,
    k: ConfigColumnKind,
)
    requires
        0 <= i < d.columns.len(),
        parse_kind_spec(d.columns[i].kind) == Some(k),
        !active_on(p, k),
    ensures
        spec_resolve(d, p) is Err,
{
    lemma_resolve_columns_err(d.columns, p, 0, i);
}


proof fn lemma_resolve_columns_brief_roundtrip(cols: Seq<ConfigColumn>, p: Platform, i: int)
    requires
        0 <= i <= cols.len(),
        forall|j: int| 0 <= j < cols.len() ==> active_on(p, cols[j].kind),
    ensures
        resolve_columns_from(doc_columns_brief_of(cols), p, i) == Ok::<
            Seq<ConfigColumn>,
            DocError,
        >(cols.subrange(i, cols.len() as int)),
    decreases cols.len() - i,
{
    let dc = doc_columns_brief_of(cols);
    if i == cols.len() {
        assert(cols.subrange(i, cols.len() as int) =~= Seq::<ConfigColumn>::empty());
    } else {
        crate::kind::lemma_parse_kind_name(cols[i].kind);
        crate::style::lemma_parse_style_name(cols[i].style);
        crate::style::lemma_parse_align_name(cols[i].align);
        assert(resolve_column_spec(dc[i], p, i) == Ok::<ConfigColumn, DocError>(cols[i]));
        lemma_resolve_columns_brief_roundtrip(cols, p, i + 1);
        assert(seq![cols[i]] + cols.subrange(i + 1, cols.len() as int) =~= cols.subrange(
            i,
            cols.len() as int,
        ));
    }
}

/// Every kind of the built-in default layout of a platform belongs to that
/// platform's active catalog.
pub proof fn lemma_default_columns_supported(p: Platform)
    ensures
        forall|j: int|
            0 <= j < default_columns_spec(p).len() ==> active_on(
                p,
                default_columns_spec(p)[j].kind,
            ),
{
}

/// The built-in zero document resolves successfully on each supported
/// platform, to exactly the platform's default configuration.
pub proof fn lemma_default_document_resolves(p: Platform)
    ensures
        spec_resolve(default_document_spec(p), p) == Ok::<ConfigV, DocError>(
            default_config_spec(p),
        ),
{
    lemma_default_columns_supported(p);
    lemma_resolve_columns_brief_roundtrip(default_columns_spec(p), p, 0);
    let cols = default_columns_spec(p);
    assert(cols.subrange(0, cols.len() as int) =~= cols);
    let r = spec_resolve(default_document_spec(p), p);
    assert(r is Ok && r->Ok_0 =~= default_config_spec(p));
}

} // verus!
