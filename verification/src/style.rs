use vstd::prelude::*;

use crate::chars_util::str_eq;

verus! {


/// A display color a document can name.
#[derive(Clone, Copy, Debug, PartialEq, Eq, Structural)]
pub enum ConfigColor {
    BrightRed,
    BrightGreen,
    BrightYellow,
    BrightBlue,
    BrightMagenta,
    BrightCyan,
    BrightWhite,
    Red,
    Green,
    Yellow,
    Blue,
    Magenta,
    Cyan,
    White,
}

/// The document spelling of a color.
pub open spec fn color_name_spec(v: ConfigColor) -> Seq<char> {
    match v {
        ConfigColor::BrightRed => "BrightRed"@,
        ConfigColor::BrightGreen => "BrightGreen"@,
        ConfigColor::BrightYellow => "BrightYellow"@,
        ConfigColor::BrightBlue => "BrightBlue"@,
        ConfigColor::BrightMagenta => "BrightMagenta"@,
        ConfigColor::BrightCyan => "BrightCyan"@,
        ConfigColor::BrightWhite => "BrightWhite"@,
        ConfigColor::Red => "Red"@,
        ConfigColor::Green => "Green"@,
        ConfigColor::Yellow => "Yellow"@,
        ConfigColor::Blue => "Blue"@,
        ConfigColor::Magenta => "Magenta"@,
        ConfigColor::Cyan => "Cyan"@,
        ConfigColor::White => "White"@,
    }
}

/// Executable counterpart of `color_name_spec`.
pub fn color_name(v: &ConfigColor) -> (r: &'static str)
    ensures
        r@ == color_name_spec(*v),
{
    match v {
        ConfigColor::BrightRed => "BrightRed",
        ConfigColor::BrightGreen => "BrightGreen",
        ConfigColor::BrightYellow => "BrightYellow",
        ConfigColor::BrightBlue => "BrightBlue",
        ConfigColor::BrightMagenta => "BrightMagenta",
        ConfigColor::BrightCyan => "BrightCyan",
        ConfigColor::BrightWhite => "BrightWhite",
        ConfigColor::Red => "Red",
        ConfigColor::Green => "Green",
        ConfigColor::Yellow => "Yellow",
        ConfigColor::Blue => "Blue",
        ConfigColor::Magenta => "Magenta",
        ConfigColor::Cyan => "Cyan",
        ConfigColor::White => "White",
    }
}

/// The color written as `s`, matched against the exact spelling.
pub open spec fn parse_color_spec(s: Seq<char>) -> Option<ConfigColor> {
    if s == "BrightRed"@ {
        Some(ConfigColor::BrightRed)
    } else if s == "BrightGreen"@ {
        Some(ConfigColor::BrightGreen)
    } else if s == "BrightYellow"@ {
        Some(ConfigColor::BrightYellow)
    } else if s == "BrightBlue"@ {
        Some(ConfigColor::BrightBlue)
    } else if s == "BrightMagenta"@ {
        Some(ConfigColor::BrightMagenta)
    } else if s == "BrightCyan"@ {
        Some(ConfigColor::BrightCyan)
    } else if s == "BrightWhite"@ {
        Some(ConfigColor::BrightWhite)
    } else if s == "Red"@ {
        Some(ConfigColor::Red)
    } else if s == "Green"@ {
        Some(ConfigColor::Green)
    } else if s == "Yellow"@ {
        Some(ConfigColor::Yellow)
    } else if s == "Blue"@ {
        Some(ConfigColor::Blue)
    } else if s == "Magenta"@ {
        Some(ConfigColor::Magenta)
    } else if s == "Cyan"@ {
        Some(ConfigColor::Cyan)
    } else if s == "White"@ {
        Some(ConfigColor::White)
    } else {
        None
    }
}

/// Executable counterpart of `parse_color_spec`.
pub fn parse_color(s: &str) -> (r: Option<ConfigColor>)
    ensures
        r == parse_color_spec(s@),
{
    if str_eq(s, "BrightRed") {
        Some(ConfigColor::BrightRed)
    } else if str_eq(s, "BrightGreen") {
        Some(ConfigColor::BrightGreen)
    } else if str_eq(s, "BrightYellow") {
        Some(ConfigColor::BrightYellow)
    } else if str_eq(s, "BrightBlue") {
        Some(ConfigColor::BrightBlue)
    } else if str_eq(s, "BrightMagenta") {
        Some(ConfigColor::BrightMagenta)
    } else if str_eq(s, "BrightCyan") {
        Some(ConfigColor::BrightCyan)
    } else if str_eq(s, "BrightWhite") {
        Some(ConfigColor::BrightWhite)
    } else if str_eq(s, "Red") {
        Some(ConfigColor::Red)
    } else if str_eq(s, "Green") {
        Some(ConfigColor::Green)
    } else if str_eq(s, "Yellow") {
        Some(ConfigColor::Yellow)
    } else if str_eq(s, "Blue") {
        Some(ConfigColor::Blue)
    } else if str_eq(s, "Magenta") {
        Some(ConfigColor::Magenta)
    } else if str_eq(s, "Cyan") {
        Some(ConfigColor::Cyan)
    } else if str_eq(s, "White") {
        Some(ConfigColor::White)
    } else {
        None
    }
}

/// Parsing a color's own spelling gives the value back.
pub proof fn lemma_parse_color_name(v: ConfigColor)
    ensures
        parse_color_spec(color_name_spec(v)) == Some(v),
{
    reveal_strlit("BrightRed");
    reveal_strlit("BrightGreen");
    reveal_strlit("BrightYellow");
    reveal_strlit("BrightBlue");
    reveal_strlit("BrightMagenta");
    reveal_strlit("BrightCyan");
    reveal_strlit("BrightWhite");
    reveal_strlit("Red");
    reveal_strlit("Green");
    reveal_strlit("Yellow");
    reveal_strlit("Blue");
    reveal_strlit("Magenta");
    reveal_strlit("Cyan");
    reveal_strlit("White");
    assert("BrightRed"@.len() == 9);
    assert("BrightGreen"@.len() == 11);
    assert("BrightYellow"@.len() == 12);
    assert("BrightBlue"@.len() == 10);
    assert("BrightMagenta"@.len() == 13);
    assert("BrightCyan"@.len() == 10);
    assert("BrightWhite"@.len() == 11);
    assert("Red"@.len() == 3);
    assert("Green"@.len() == 5);
    assert("Yellow"@.len() == 6);
    assert("Blue"@.len() == 4);
    assert("Magenta"@.len() == 7);
    assert("Cyan"@.len() == 4);
    assert("White"@.len() == 5);
    assert("BrightGreen"@[6] == 'G');
    assert("BrightWhite"@[6] == 'W');
    assert("BrightBlue"@[6] == 'B');
    assert("BrightCyan"@[6] == 'C');
    assert("Green"@[0] == 'G');
    assert("White"@[0] == 'W');
    assert("Blue"@[0] == 'B');
    assert("Cyan"@[0] == 'C');
    match v {
        ConfigColor::BrightRed => {
            assert(parse_color_spec(color_name_spec(v)) == Some(ConfigColor::BrightRed));
        },
        ConfigColor::BrightGreen => {
            assert(parse_color_spec(color_name_spec(v)) == Some(ConfigColor::BrightGreen));
        },
        ConfigColor::BrightYellow => {
            assert(parse_color_spec(color_name_spec(v)) == Some(ConfigColor::BrightYellow));
        },
        ConfigColor::BrightBlue => {
            assert(parse_color_spec(color_name_spec(v)) == Some(ConfigColor::BrightBlue));
        },
        ConfigColor::BrightMagenta => {
            assert(parse_color_spec(color_name_spec(v)) == Some(ConfigColor::BrightMagenta));
        },
        ConfigColor::BrightCyan => {
            assert(parse_color_spec(color_name_spec(v)) == Some(ConfigColor::BrightCyan));
        },
        ConfigColor::BrightWhite => {
            assert(parse_color_spec(color_name_spec(v)) == Some(ConfigColor::BrightWhite));
        },
        ConfigColor::Red => {
            assert(parse_color_spec(color_name_spec(v)) == Some(ConfigColor::Red));
        },
        ConfigColor::Green => {
            assert(parse_color_spec(color_name_spec(v)) == Some(ConfigColor::Green));
        },
        ConfigColor::Yellow => {
            assert(parse_color_spec(color_name_spec(v)) == Some(ConfigColor::Yellow));
        },
        ConfigColor::Blue => {
            assert(parse_color_spec(color_name_spec(v)) == Some(ConfigColor::Blue));
        },
        ConfigColor::Magenta => {
            assert(parse_color_spec(color_name_spec(v)) == Some(ConfigColor::Magenta));
        },
        ConfigColor::Cyan => {
            assert(parse_color_spec(color_name_spec(v)) == Some(ConfigColor::Cyan));
        },
        ConfigColor::White => {
            assert(parse_color_spec(color_name_spec(v)) == Some(ConfigColor::White));
        },
    }
}

/// The color-selection policy of one column: a fixed color, or a
/// percentage-, process-state- or byte-unit-banded table.
#[derive(Clone, Copy, Debug, PartialEq, Eq, Structural)]
pub enum ConfigColumnStyle {
    BrightRed,
    BrightGreen,
    BrightYellow,
    BrightBlue,
    BrightMagenta,
    BrightCyan,
    BrightWhite,
    Red,
    Green,
    Yellow,
    Blue,
    Magenta,
    Cyan,
    White,
    ByPercentage,
    ByState,
    ByUnit,
}

/// The document spelling of a column style.
pub open spec fn style_name_spec(v: ConfigColumnStyle) -> Seq<char> {
    match v {
        ConfigColumnStyle::BrightRed => "BrightRed"@,
        ConfigColumnStyle::BrightGreen => "BrightGreen"@,
        ConfigColumnStyle::BrightYellow => "BrightYellow"@,
        ConfigColumnStyle::BrightBlue => "BrightBlue"@,
        ConfigColumnStyle::BrightMagenta => "BrightMagenta"@,
        ConfigColumnStyle::BrightCyan => "BrightCyan"@,
        ConfigColumnStyle::BrightWhite => "BrightWhite"@,
        ConfigColumnStyle::Red => "Red"@,
        ConfigColumnStyle::Green => "Green"@,
        ConfigColumnStyle::Yellow => "Yellow"@,
        ConfigColumnStyle::Blue => "Blue"@,
        ConfigColumnStyle::Magenta => "Magenta"@,
        ConfigColumnStyle::Cyan => "Cyan"@,
        ConfigColumnStyle::White => "White"@,
        ConfigColumnStyle::ByPercentage => "ByPercentage"@,
        ConfigColumnStyle::ByState => "ByState"@,
        ConfigColumnStyle::ByUnit => "ByUnit"@,
    }
}

/// Executable counterpart of `style_name_spec`.
pub fn style_name(v: &ConfigColumnStyle) -> (r: &'static str)
    ensures
        r@ == style_name_spec(*v),
{
    match v {
        ConfigColumnStyle::BrightRed => "BrightRed",
        ConfigColumnStyle::BrightGreen => "BrightGreen",
        ConfigColumnStyle::BrightYellow => "BrightYellow",
        ConfigColumnStyle::BrightBlue => "BrightBlue",
        ConfigColumnStyle::BrightMagenta => "BrightMagenta",
        ConfigColumnStyle::BrightCyan => "BrightCyan",
        ConfigColumnStyle::BrightWhite => "BrightWhite",
        ConfigColumnStyle::Red => "Red",
        ConfigColumnStyle::Green => "Green",
        ConfigColumnStyle::Yellow => "Yellow",
        ConfigColumnStyle::Blue => "Blue",
        ConfigColumnStyle::Magenta => "Magenta",
        ConfigColumnStyle::Cyan => "Cyan",
        ConfigColumnStyle::White => "White",
        ConfigColumnStyle::ByPercentage => "ByPercentage",
        ConfigColumnStyle::ByState => "ByState",
        ConfigColumnStyle::ByUnit => "ByUnit",
    }
}

/// The column style written as `s`, matched against the exact spelling.
pub open spec fn parse_style_spec(s: Seq<char>) -> Option<ConfigColumnStyle> {
    if s == "BrightRed"@ {
        Some(ConfigColumnStyle::BrightRed)
    } else if s == "BrightGreen"@ {
        Some(ConfigColumnStyle::BrightGreen)
    } else if s == "BrightYellow"@ {
        Some(ConfigColumnStyle::BrightYellow)
    } else if s == "BrightBlue"@ {
        Some(ConfigColumnStyle::BrightBlue)
    } else if s == "BrightMagenta"@ {
        Some(ConfigColumnStyle::BrightMagenta)
    } else if s == "BrightCyan"@ {
        Some(ConfigColumnStyle::BrightCyan)
    } else if s == "BrightWhite"@ {
        Some(ConfigColumnStyle::BrightWhite)
    } else if s == "Red"@ {
        Some(ConfigColumnStyle::Red)
    } else if s == "Green"@ {
        Some(ConfigColumnStyle::Green)
    } else if s == "Yellow"@ {
        Some(ConfigColumnStyle::Yellow)
    } else if s == "Blue"@ {
        Some(ConfigColumnStyle::Blue)
    } else if s == "Magenta"@ {
        Some(ConfigColumnStyle::Magenta)
    } else if s == "Cyan"@ {
        Some(ConfigColumnStyle::Cyan)
    } else if s == "White"@ {
        Some(ConfigColumnStyle::White)
    } else if s == "ByPercentage"@ {
        Some(ConfigColumnStyle::ByPercentage)
    } else if s == "ByState"@ {
        Some(ConfigColumnStyle::ByState)
    } else if s == "ByUnit"@ {
        Some(ConfigColumnStyle::ByUnit)
    } else {
        None
    }
}

/// Executable counterpart of `parse_style_spec`.
pub fn parse_style(s: &str) -> (r: Option<ConfigColumnStyle>)
    ensures
        r == parse_style_spec(s@),
{
    if str_eq(s, "BrightRed") {
        Some(ConfigColumnStyle::BrightRed)
    } else if str_eq(s, "BrightGreen") {
        Some(ConfigColumnStyle::BrightGreen)
    } else if str_eq(s, "BrightYellow") {
        Some(ConfigColumnStyle::BrightYellow)
    } else if str_eq(s, "BrightBlue") {
        Some(ConfigColumnStyle::BrightBlue)
    } else if str_eq(s, "BrightMagenta") {
        Some(ConfigColumnStyle::BrightMagenta)
    } else if str_eq(s, "BrightCyan") {
        Some(ConfigColumnStyle::BrightCyan)
    } else if str_eq(s, "BrightWhite") {
        Some(ConfigColumnStyle::BrightWhite)
    } else if str_eq(s, "Red") {
        Some(ConfigColumnStyle::Red)
    } else if str_eq(s, "Green") {
        Some(ConfigColumnStyle::Green)
    } else if str_eq(s, "Yellow") {
        Some(ConfigColumnStyle::Yellow)
    } else if str_eq(s, "Blue") {
        Some(ConfigColumnStyle::Blue)
    } else if str_eq(s, "Magenta") {
        Some(ConfigColumnStyle::Magenta)
    } else if str_eq(s, "Cyan") {
        Some(ConfigColumnStyle::Cyan)
    } else if str_eq(s, "White") {
        Some(ConfigColumnStyle::White)
    } else if str_eq(s, "ByPercentage") {
        Some(ConfigColumnStyle::ByPercentage)
    } else if str_eq(s, "ByState") {
        Some(ConfigColumnStyle::ByState)
    } else if str_eq(s, "ByUnit") {
        Some(ConfigColumnStyle::ByUnit)
    } else {
        None
    }
}

/// Parsing a column style's own spelling gives the value back.
pub proof fn lemma_parse_style_name(v: ConfigColumnStyle)
    ensures
        parse_style_spec(style_name_spec(v)) == Some(v),
{
    reveal_strlit("BrightRed");
    reveal_strlit("BrightGreen");
    reveal_strlit("BrightYellow");
    reveal_strlit("BrightBlue");
    reveal_strlit("BrightMagenta");
    reveal_strlit("BrightCyan");
    reveal_strlit("BrightWhite");
    reveal_strlit("Red");
    reveal_strlit("Green");
    reveal_strlit("Yellow");
    reveal_strlit("Blue");
    reveal_strlit("Magenta");
    reveal_strlit("Cyan");
    reveal_strlit("White");
    reveal_strlit("ByPercentage");
    reveal_strlit("ByState");
    reveal_strlit("ByUnit");
    assert("BrightRed"@.len() == 9);
    assert("BrightGreen"@.len() == 11);
    assert("BrightYellow"@.len() == 12);
    assert("BrightBlue"@.len() == 10);
    assert("BrightMagenta"@.len() == 13);
    assert("BrightCyan"@.len() == 10);
    assert("BrightWhite"@.len() == 11);
    assert("Red"@.len() == 3);
    assert("Green"@.len() == 5);
    assert("Yellow"@.len() == 6);
    assert("Blue"@.len() == 4);
    assert("Magenta"@.len() == 7);
    assert("Cyan"@.len() == 4);
    assert("White"@.len() == 5);
    assert("ByPercentage"@.len() == 12);
    assert("ByState"@.len() == 7);
    assert("ByUnit"@.len() == 6);
    assert("BrightGreen"@[6] == 'G');
    assert("BrightWhite"@[6] == 'W');
    assert("BrightYellow"@[1] == 'r');
    assert("ByPercentage"@[1] == 'y');
    assert("BrightBlue"@[6] == 'B');
    assert("BrightCyan"@[6] == 'C');
    assert("Green"@[0] == 'G');
    assert("White"@[0] == 'W');
    assert("Yellow"@[0] == 'Y');
    assert("ByUnit"@[0] == 'B');
    assert("Blue"@[0] == 'B');
    assert("Cyan"@[0] == 'C');
    assert("Magenta"@[0] == 'M');
    assert("ByState"@[0] == 'B');
    match v {
        ConfigColumnStyle::BrightRed => {
            assert(parse_style_spec(style_name_spec(v)) == Some(ConfigColumnStyle::BrightRed));
        },
        ConfigColumnStyle::BrightGreen => {
            assert(parse_style_spec(style_name_spec(v)) == Some(ConfigColumnStyle::BrightGreen));
        },
        ConfigColumnStyle::BrightYellow => {
            assert(parse_style_spec(style_name_spec(v)) == Some(ConfigColumnStyle::BrightYellow));
        },
        ConfigColumnStyle::BrightBlue => {
            assert(parse_style_spec(style_name_spec(v)) == Some(ConfigColumnStyle::BrightBlue));
        },
        ConfigColumnStyle::BrightMagenta => {
            assert(parse_style_spec(style_name_spec(v)) == Some(ConfigColumnStyle::BrightMagenta));
        },
        ConfigColumnStyle::BrightCyan => {
            assert(parse_style_spec(style_name_spec(v)) == Some(ConfigColumnStyle::BrightCyan));
        },
        ConfigColumnStyle::BrightWhite => {
            assert(parse_style_spec(style_name_spec(v)) == Some(ConfigColumnStyle::BrightWhite));
        },
        ConfigColumnStyle::Red => {
            assert(parse_style_spec(style_name_spec(v)) == Some(ConfigColumnStyle::Red));
        },
        ConfigColumnStyle::Green => {
            assert(parse_style_spec(style_name_spec(v)) == Some(ConfigColumnStyle::Green));
        },
        ConfigColumnStyle::Yellow => {
            assert(parse_style_spec(style_name_spec(v)) == Some(ConfigColumnStyle::Yellow));
        },
        ConfigColumnStyle::Blue => {
            assert(parse_style_spec(style_name_spec(v)) == Some(ConfigColumnStyle::Blue));
        },
        ConfigColumnStyle::Magenta => {
            assert(parse_style_spec(style_name_spec(v)) == Some(ConfigColumnStyle::Magenta));
        },
        ConfigColumnStyle::Cyan => {
            assert(parse_style_spec(style_name_spec(v)) == Some(ConfigColumnStyle::Cyan));
        },
        ConfigColumnStyle::White => {
            assert(parse_style_spec(style_name_spec(v)) == Some(ConfigColumnStyle::White));
        },
        ConfigColumnStyle::ByPercentage => {
            assert(parse_style_spec(style_name_spec(v)) == Some(ConfigColumnStyle::ByPercentage));
        },
        ConfigColumnStyle::ByState => {
            assert(parse_style_spec(style_name_spec(v)) == Some(ConfigColumnStyle::ByState));
        },
        ConfigColumnStyle::ByUnit => {
            assert(parse_style_spec(style_name_spec(v)) == Some(ConfigColumnStyle::ByUnit));
        },
    }
}

/// Horizontal alignment of a column's rendered values.
#[derive(Clone, Copy, Debug, PartialEq, Eq, Structural)]
pub enum ConfigColumnAlign {
    Left,
    Right,
    Center,
}

/// The document spelling of a column alignment.
pub open spec fn align_name_spec(v: ConfigColumnAlign) -> Seq<char> {
    match v {
        ConfigColumnAlign::Left => "Left"@,
        ConfigColumnAlign::Right => "Right"@,
        ConfigColumnAlign::Center => "Center"@,
    }
}

/// Executable counterpart of `align_name_spec`.
pub fn align_name(v: &ConfigColumnAlign) -> (r: &'static str)
    ensures
        r@ == align_name_spec(*v),
{
    match v {
        ConfigColumnAlign::Left => "Left",
        ConfigColumnAlign::Right => "Right",
        ConfigColumnAlign::Center => "Center",
    }
}

/// The column alignment written as `s`, matched against the exact spelling.
pub open spec fn parse_align_spec(s: Seq<char>) -> Option<ConfigColumnAlign> {
    if s == "Left"@ {
        Some(ConfigColumnAlign::Left)
    } else if s == "Right"@ {
        Some(ConfigColumnAlign::Right)
    } else if s == "Center"@ {
        Some(ConfigColumnAlign::Center)
    } else {
        None
    }
}

/// Executable counterpart of `parse_align_spec`.
pub fn parse_align(s: &str) -> (r: Option<ConfigColumnAlign>)
    ensures
        r == parse_align_spec(s@),
{
    if str_eq(s, "Left") {
        Some(ConfigColumnAlign::Left)
    } else if str_eq(s, "Right") {
        Some(ConfigColumnAlign::Right)
    } else if str_eq(s, "Center") {
        Some(ConfigColumnAlign::Center)
    } else {
        None
    }
}

/// Parsing a column alignment's own spelling gives the value back.
pub proof fn lemma_parse_align_name(v: ConfigColumnAlign)
    ensures
        parse_align_spec(align_name_spec(v)) == Some(v),
{
    reveal_strlit("Left");
    reveal_strlit("Right");
    reveal_strlit("Center");
    assert("Left"@.len() == 4);
    assert("Right"@.len() == 5);
    assert("Center"@.len() == 6);
    match v {
        ConfigColumnAlign::Left => {
            assert(parse_align_spec(align_name_spec(v)) == Some(ConfigColumnAlign::Left));
        },
        ConfigColumnAlign::Right => {
            assert(parse_align_spec(align_name_spec(v)) == Some(ConfigColumnAlign::Right));
        },
        ConfigColumnAlign::Center => {
            assert(parse_align_spec(align_name_spec(v)) == Some(ConfigColumnAlign::Center));
        },
    }
}

/// Color table for percentage-banded styling, one color per band
/// boundary at 0, 25, 50, 75 and 100 percent.
#[derive(Clone, Copy, Debug, PartialEq, Eq, Structural)]
pub struct ConfigStyleByPercentage {
    pub color_000: ConfigColor,
    pub color_025: ConfigColor,
    pub color_050: ConfigColor,
    pub color_075: ConfigColor,
    pub color_100: ConfigColor,
}

/// The documented default percentage bands: blue, green, yellow, red, red.
pub open spec fn default_by_percentage() -> ConfigStyleByPercentage {
    ConfigStyleByPercentage {
        color_000: ConfigColor::BrightBlue,
        color_025: ConfigColor::BrightGreen,
        color_050: ConfigColor::BrightYellow,
        color_075: ConfigColor::BrightRed,
        color_100: ConfigColor::BrightRed,
    }
}

impl Default for ConfigStyleByPercentage {
    fn default() -> (r: Self)
        ensures
            r == default_by_percentage(),
    {
        ConfigStyleByPercentage {
            color_000: ConfigColor::BrightBlue,
            color_025: ConfigColor::BrightGreen,
            color_050: ConfigColor::BrightYellow,
            color_075: ConfigColor::BrightRed,
            color_100: ConfigColor::BrightRed,
        }
    }
}

/// Color table for byte-unit-banded styling: kilo, mega, giga, tera, peta
/// and the exact (unscaled) band.
#[derive(Clone, Copy, Debug, PartialEq, Eq, Structural)]
pub struct ConfigStyleByUnit {
    pub color_k: ConfigColor,
    pub color_m: ConfigColor,
    pub color_g: ConfigColor,
    pub color_t: ConfigColor,
    pub color_p: ConfigColor,
    pub color_x: ConfigColor,
}

/// The documented default unit bands: blue, green, yellow, red, red, blue.
pub open spec fn default_by_unit() -> ConfigStyleByUnit {
    ConfigStyleByUnit {
        color_k: ConfigColor::BrightBlue,
        color_m: ConfigColor::BrightGreen,
        color_g: ConfigColor::BrightYellow,
        color_t: ConfigColor::BrightRed,
        color_p: ConfigColor::BrightRed,
        color_x: ConfigColor::BrightBlue,
    }
}

impl Default for ConfigStyleByUnit {
    fn default() -> (r: Self)
        ensures
            r == default_by_unit(),
    {
        ConfigStyleByUnit {
            color_k: ConfigColor::BrightBlue,
            color_m: ConfigColor::BrightGreen,
            color_g: ConfigColor::BrightYellow,
            color_t: ConfigColor::BrightRed,
            color_p: ConfigColor::BrightRed,
            color_x: ConfigColor::BrightBlue,
        }
    }
}

/// Color table for process-state-banded styling, one color per state
/// bucket: disk wait, running, sleeping, stopped, zombie, other or idle,
/// locked, paging, and unknown.
#[derive(Clone, Copy, Debug, PartialEq, Eq, Structural)]
pub struct ConfigStyleByState {
    pub color_d: ConfigColor,
    pub color_r: ConfigColor,
    pub color_s: ConfigColor,
    pub color_t: ConfigColor,
    pub color_z: ConfigColor,
    pub color_x: ConfigColor,
    pub color_k: ConfigColor,
    pub color_w: ConfigColor,
    pub color_p: ConfigColor,
}

/// The documented default state bands: red, green, blue, cyan, magenta,
/// magenta, yellow, yellow, yellow.
pub open spec fn default_by_state() -> ConfigStyleByState {
    ConfigStyleByState {
        color_d: ConfigColor::BrightRed,
        color_r: ConfigColor::BrightGreen,
        color_s: ConfigColor::BrightBlue,
        color_t: ConfigColor::BrightCyan,
        color_z: ConfigColor::BrightMagenta,
        color_x: ConfigColor::BrightMagenta,
        color_k: ConfigColor::BrightYellow,
        color_w: ConfigColor::BrightYellow,
        color_p: ConfigColor::BrightYellow,
    }
}

impl Default for ConfigStyleByState {
    fn default() -> (r: Self)
        ensures
            r == default_by_state(),
    {
        ConfigStyleByState {
            color_d: ConfigColor::BrightRed,
            color_r: ConfigColor::BrightGreen,
            color_s: ConfigColor::BrightBlue,
            color_t: ConfigColor::BrightCyan,
            color_z: ConfigColor::BrightMagenta,
            color_x: ConfigColor::BrightMagenta,
            color_k: ConfigColor::BrightYellow,
            color_w: ConfigColor::BrightYellow,
            color_p: ConfigColor::BrightYellow,
        }
    }
}

/// Style defaults: the header and unit colors, and the three band tables.
#[derive(Clone, Copy, Debug, PartialEq, Eq, Structural)]
pub struct ConfigStyle {
    pub header: ConfigColor,
    pub unit: ConfigColor,
    pub by_percentage: ConfigStyleByPercentage,
    pub by_state: ConfigStyleByState,
    pub by_unit: ConfigStyleByUnit,
}

/// The default style table: bright-white header and unit, default bands.
pub open spec fn default_config_style() -> ConfigStyle {
    ConfigStyle {
        header: ConfigColor::BrightWhite,
        unit: ConfigColor::BrightWhite,
        by_percentage: default_by_percentage(),
        by_state: default_by_state(),
        by_unit: default_by_unit(),
    }
}

impl Default for ConfigStyle {
    fn default() -> (r: Self)
        ensures
            r == default_config_style(),
    {
        ConfigStyle {
            header: ConfigColor::BrightWhite,
            unit: ConfigColor::BrightWhite,
            by_percentage: Default::default(),
            by_state: Default::default(),
            by_unit: Default::default(),
        }
    }
}

} // verus!
