use vstd::prelude::*;

verus! {

/// The antialiasing mode of the rasterizer (`cairo_antialias_t`).
#[derive(Clone, Copy, Debug, PartialEq, Eq, Structural)]
pub enum Antialias {
    Default,
    Off,
    Gray,
    Subpixel,
    Fast,
    Good,
    Best,
}

/// The integer by which cairo's C interface names an `Antialias`.
pub open spec fn antialias_code(x: Antialias) -> int {
    match x {
        Antialias::Default => 0,
        Antialias::Off => 1,
        Antialias::Gray => 2,
        Antialias::Subpixel => 3,
        Antialias::Fast => 4,
        Antialias::Good => 5,
        Antialias::Best => 6,
    }
}

/// The `Antialias` that an integer names in cairo's C interface, if any.
pub open spec fn antialias_from_code(code: int) -> Option<Antialias> {
    if code == 0 {
        Some(Antialias::Default)
    } else if code == 1 {
        Some(Antialias::Off)
    } else if code == 2 {
        Some(Antialias::Gray)
    } else if code == 3 {
        Some(Antialias::Subpixel)
    } else if code == 4 {
        Some(Antialias::Fast)
    } else if code == 5 {
        Some(Antialias::Good)
    } else if code == 6 {
        Some(Antialias::Best)
    } else {
        None
    }
}

/// The values of `cairo_antialias_t` (`CAIRO_ANTIALIAS_DEFAULT = 0`, `CAIRO_ANTIALIAS_NONE = 1`, `CAIRO_ANTIALIAS_GRAY = 2`, `CAIRO_ANTIALIAS_SUBPIXEL = 3`, `CAIRO_ANTIALIAS_FAST = 4`, `CAIRO_ANTIALIAS_GOOD = 5`, `CAIRO_ANTIALIAS_BEST = 6`), each at the position of
/// its number in cairo.h.
pub open spec fn cairo_antialias_numbering() -> Seq<Antialias> {
    seq![
        Antialias::Default,
        Antialias::Off,
        Antialias::Gray,
        Antialias::Subpixel,
        Antialias::Fast,
        Antialias::Good,
        Antialias::Best,
    ]
}

/// The code of every `Antialias` is the number that cairo.h gives it, and every
/// number that cairo.h gives decodes to the value that it numbers.
pub proof fn lemma_antialias_codes_follow_cairo_numbering(x: Antialias, code: int)
    ensures
        cairo_antialias_numbering().len() == 7,
        0 <= antialias_code(x) < 7,
        cairo_antialias_numbering()[antialias_code(x)] == x,
        0 <= code < 7 ==> antialias_from_code(code) == Some(cairo_antialias_numbering()[code]),
        !(0 <= code < 7) ==> antialias_from_code(code) is None,
{
}

/// Every `Antialias` survives being turned into its code and back, and a code
/// that names an `Antialias` is that value's code.
pub proof fn lemma_antialias_code_round_trip(x: Antialias, code: int)
    ensures
        antialias_from_code(antialias_code(x)) == Some(x),
        antialias_from_code(code) matches Some(y) ==> antialias_code(y) == code,
{
}

impl Antialias {
    /// The code of this value in cairo's C interface.
    pub fn to_raw(&self) -> (r: i32)
        ensures
            r == antialias_code(*self),
            0 <= r < 7,
            cairo_antialias_numbering()[r as int] == *self,
    {
        proof {
            lemma_antialias_codes_follow_cairo_numbering(*self, 0);
        }
        match self {
            Antialias::Default => 0,
            Antialias::Off => 1,
            Antialias::Gray => 2,
            Antialias::Subpixel => 3,
            Antialias::Fast => 4,
            Antialias::Good => 5,
            Antialias::Best => 6,
        }
    }

    /// The value that a code of cairo's C interface stands for; `None` for an
    /// integer that names no `Antialias`.
    pub fn from_raw(code: i32) -> (r: Option<Antialias>)
        ensures
            r == antialias_from_code(code as int),
            r is Some <==> 0 <= code < 7,
            0 <= code < 7 ==> r == Some(cairo_antialias_numbering()[code as int]),
    {
        proof {
            lemma_antialias_codes_follow_cairo_numbering(Antialias::Default, code as int);
        }
        match code {
            0 => Some(Antialias::Default),
            1 => Some(Antialias::Off),
            2 => Some(Antialias::Gray),
            3 => Some(Antialias::Subpixel),
            4 => Some(Antialias::Fast),
            5 => Some(Antialias::Good),
            6 => Some(Antialias::Best),
            _ => None,
        }
    }
}

/// The rule that decides which regions a path encloses (`cairo_fill_rule_t`).
#[derive(Clone, Copy, Debug, PartialEq, Eq, Structural)]
pub enum FillRule {
    Winding,
    EvenOdd,
}

/// The integer by which cairo's C interface names a `FillRule`.
pub open spec fn fill_rule_code(x: FillRule) -> int {
    match x {
        FillRule::Winding => 0,
        FillRule::EvenOdd => 1,
    }
}

/// The `FillRule` that an integer names in cairo's C interface, if any.
pub open spec fn fill_rule_from_code(code: int) -> Option<FillRule> {
    if code == 0 {
        Some(FillRule::Winding)
    } else if code == 1 {
        Some(FillRule::EvenOdd)
    } else {
        None
    }
}

/// The values of `cairo_fill_rule_t` (`CAIRO_FILL_RULE_WINDING = 0`, `CAIRO_FILL_RULE_EVEN_ODD = 1`), each at the position of
/// its number in cairo.h.
pub open spec fn cairo_fill_rule_numbering() -> Seq<FillRule> {
    seq![
        FillRule::Winding,
        FillRule::EvenOdd,
    ]
}

/// The code of every `FillRule` is the number that cairo.h gives it, and every
/// number that cairo.h gives decodes to the value that it numbers.
pub proof fn lemma_fill_rule_codes_follow_cairo_numbering(x: FillRule, code: int)
    ensures
        cairo_fill_rule_numbering().len() == 2,
        0 <= fill_rule_code(x) < 2,
        cairo_fill_rule_numbering()[fill_rule_code(x)] == x,
        0 <= code < 2 ==> fill_rule_from_code(code) == Some(cairo_fill_rule_numbering()[code]),
        !(0 <= code < 2) ==> fill_rule_from_code(code) is None,
{
}

/// Every `FillRule` survives being turned into its code and back, and a code
/// that names a `FillRule` is that value's code.
pub proof fn lemma_fill_rule_code_round_trip(x: FillRule, code: int)
    ensures
        fill_rule_from_code(fill_rule_code(x)) == Some(x),
        fill_rule_from_code(code) matches Some(y) ==> fill_rule_code(y) == code,
{
}

impl FillRule {
    /// The code of this value in cairo's C interface.
    pub fn to_raw(&self) -> (r: i32)
        ensures
            r == fill_rule_code(*self),
            0 <= r < 2,
            cairo_fill_rule_numbering()[r as int] == *self,
    {
        proof {
            lemma_fill_rule_codes_follow_cairo_numbering(*self, 0);
        }
        match self {
            FillRule::Winding => 0,
            FillRule::EvenOdd => 1,
        }
    }

    /// The value that a code of cairo's C interface stands for; `None` for an
    /// integer that names no `FillRule`.
    pub fn from_raw(code: i32) -> (r: Option<FillRule>)
        ensures
            r == fill_rule_from_code(code as int),
            r is Some <==> 0 <= code < 2,
            0 <= code < 2 ==> r == Some(cairo_fill_rule_numbering()[code as int]),
    {
        proof {
            lemma_fill_rule_codes_follow_cairo_numbering(FillRule::Winding, code as int);
        }
        match code {
            0 => Some(FillRule::Winding),
            1 => Some(FillRule::EvenOdd),
            _ => None,
        }
    }
}

/// How the ends of a stroked line are drawn (`cairo_line_cap_t`).
#[derive(Clone, Copy, Debug, PartialEq, Eq, Structural)]
pub enum LineCap {
    Butt,
    Round,
    Square,
}

/// The integer by which cairo's C interface names a `LineCap`.
pub open spec fn line_cap_code(x: LineCap) -> int {
    match x {
        LineCap::Butt => 0,
        LineCap::Round => 1,
        LineCap::Square => 2,
    }
}

/// The `LineCap` that an integer names in cairo's C interface, if any.
pub open spec fn line_cap_from_code(code: int) -> Option<LineCap> {
    if code == 0 {
        Some(LineCap::Butt)
    } else if code == 1 {
        Some(LineCap::Round)
    } else if code == 2 {
        Some(LineCap::Square)
    } else {
        None
    }
}

/// The values of `cairo_line_cap_t` (`CAIRO_LINE_CAP_BUTT = 0`, `CAIRO_LINE_CAP_ROUND = 1`, `CAIRO_LINE_CAP_SQUARE = 2`), each at the position of
/// its number in cairo.h.
pub open spec fn cairo_line_cap_numbering() -> Seq<LineCap> {
    seq![
        LineCap::Butt,
        LineCap::Round,
        LineCap::Square,
    ]
}

/// The code of every `LineCap` is the number that cairo.h gives it, and every
/// number that cairo.h gives decodes to the value that it numbers.
pub proof fn lemma_line_cap_codes_follow_cairo_numbering(x: LineCap, code: int)
    ensures
        cairo_line_cap_numbering().len() == 3,
        0 <= line_cap_code(x) < 3,
        cairo_line_cap_numbering()[line_cap_code(x)] == x,
        0 <= code < 3 ==> line_cap_from_code(code) == Some(cairo_line_cap_numbering()[code]),
        !(0 <= code < 3) ==> line_cap_from_code(code) is None,
{
}

/// Every `LineCap` survives being turned into its code and back, and a code
/// that names a `LineCap` is that value's code.
pub proof fn lemma_line_cap_code_round_trip(x: LineCap, code: int)
    ensures
        line_cap_from_code(line_cap_code(x)) == Some(x),
        line_cap_from_code(code) matches Some(y) ==> line_cap_code(y) == code,
{
}

impl LineCap {
    /// The code of this value in cairo's C interface.
    pub fn to_raw(&self) -> (r: i32)
        ensures
            r == line_cap_code(*self),
            0 <= r < 3,
            cairo_line_cap_numbering()[r as int] == *self,
    {
        proof {
            lemma_line_cap_codes_follow_cairo_numbering(*self, 0);
        }
        match self {
            LineCap::Butt => 0,
            LineCap::Round => 1,
            LineCap::Square => 2,
        }
    }

    /// The value that a code of cairo's C interface stands for; `None` for an
    /// integer that names no `LineCap`.
    pub fn from_raw(code: i32) -> (r: Option<LineCap>)
        ensures
            r == line_cap_from_code(code as int),
            r is Some <==> 0 <= code < 3,
            0 <= code < 3 ==> r == Some(cairo_line_cap_numbering()[code as int]),
    {
        proof {
            lemma_line_cap_codes_follow_cairo_numbering(LineCap::Butt, code as int);
        }
        match code {
            0 => Some(LineCap::Butt),
            1 => Some(LineCap::Round),
            2 => Some(LineCap::Square),
            _ => None,
        }
    }
}

/// How the joints of a stroked path are drawn (`cairo_line_join_t`).
#[derive(Clone, Copy, Debug, PartialEq, Eq, Structural)]
pub enum LineJoin {
    Miter,
    Round,
    Bevel,
}

/// The integer by which cairo's C interface names a `LineJoin`.
pub open spec fn line_join_code(x: LineJoin) -> int {
    match x {
        LineJoin::Miter => 0,
        LineJoin::Round => 1,
        LineJoin::Bevel => 2,
    }
}

/// The `LineJoin` that an integer names in cairo's C interface, if any.
pub open spec fn line_join_from_code(code: int) -> Option<LineJoin> {
    if code == 0 {
        Some(LineJoin::Miter)
    } else if code == 1 {
        Some(LineJoin::Round)
    } else if code == 2 {
        Some(LineJoin::Bevel)
    } else {
        None
    }
}

/// The values of `cairo_line_join_t` (`CAIRO_LINE_JOIN_MITER = 0`, `CAIRO_LINE_JOIN_ROUND = 1`, `CAIRO_LINE_JOIN_BEVEL = 2`), each at the position of
/// its number in cairo.h.
pub open spec fn cairo_line_join_numbering() -> Seq<LineJoin> {
    seq![
        LineJoin::Miter,
        LineJoin::Round,
        LineJoin::Bevel,
    ]
}

/// The code of every `LineJoin` is the number that cairo.h gives it, and every
/// number that cairo.h gives decodes to the value that it numbers.
pub proof fn lemma_line_join_codes_follow_cairo_numbering(x: LineJoin, code: int)
    ensures
        cairo_line_join_numbering().len() == 3,
        0 <= line_join_code(x) < 3,
        cairo_line_join_numbering()[line_join_code(x)] == x,
        0 <= code < 3 ==> line_join_from_code(code) == Some(cairo_line_join_numbering()[code]),
        !(0 <= code < 3) ==> line_join_from_code(code) is None,
{
}

/// Every `LineJoin` survives being turned into its code and back, and a code
/// that names a `LineJoin` is that value's code.
pub proof fn lemma_line_join_code_round_trip(x: LineJoin, code: int)
    ensures
        line_join_from_code(line_join_code(x)) == Some(x),
        line_join_from_code(code) matches Some(y) ==> line_join_code(y) == code,
{
}

impl LineJoin {
    /// The code of this value in cairo's C interface.
    pub fn to_raw(&self) -> (r: i32)
        ensures
            r == line_join_code(*self),
            0 <= r < 3,
            cairo_line_join_numbering()[r as int] == *self,
    {
        proof {
            lemma_line_join_codes_follow_cairo_numbering(*self, 0);
        }
        match self {
            LineJoin::Miter => 0,
            LineJoin::Round => 1,
            LineJoin::Bevel => 2,
        }
    }

    /// The value that a code of cairo's C interface stands for; `None` for an
    /// integer that names no `LineJoin`.
    pub fn from_raw(code: i32) -> (r: Option<LineJoin>)
        ensures
            r == line_join_from_code(code as int),
            r is Some <==> 0 <= code < 3,
            0 <= code < 3 ==> r == Some(cairo_line_join_numbering()[code as int]),
    {
        proof {
            lemma_line_join_codes_follow_cairo_numbering(LineJoin::Miter, code as int);
        }
        match code {
            0 => Some(LineJoin::Miter),
            1 => Some(LineJoin::Round),
            2 => Some(LineJoin::Bevel),
            _ => None,
        }
    }
}

/// The slant of a font selected by family name (`cairo_font_slant_t`).
#[derive(Clone, Copy, Debug, PartialEq, Eq, Structural)]
pub enum FontSlant {
    Normal,
    Italic,
    Oblique,
}

/// The integer by which cairo's C interface names a `FontSlant`.
pub open spec fn font_slant_code(x: FontSlant) -> int {
    match x {
        FontSlant::Normal => 0,
        FontSlant::Italic => 1,
        FontSlant::Oblique => 2,
    }
}

/// The `FontSlant` that an integer names in cairo's C interface, if any.
pub open spec fn font_slant_from_code(code: int) -> Option<FontSlant> {
    if code == 0 {
        Some(FontSlant::Normal)
    } else if code == 1 {
        Some(FontSlant::Italic)
    } else if code == 2 {
        Some(FontSlant::Oblique)
    } else {
        None
    }
}

/// The values of `cairo_font_slant_t` (`CAIRO_FONT_SLANT_NORMAL = 0`, `CAIRO_FONT_SLANT_ITALIC = 1`, `CAIRO_FONT_SLANT_OBLIQUE = 2`), each at the position of
/// its number in cairo.h.
pub open spec fn cairo_font_slant_numbering() -> Seq<FontSlant> {
    seq![
        FontSlant::Normal,
        FontSlant::Italic,
        FontSlant::Oblique,
    ]
}

/// The code of every `FontSlant` is the number that cairo.h gives it, and every
/// number that cairo.h gives decodes to the value that it numbers.
pub proof fn lemma_font_slant_codes_follow_cairo_numbering(x: FontSlant, code: int)
    ensures
        cairo_font_slant_numbering().len() == 3,
        0 <= font_slant_code(x) < 3,
        cairo_font_slant_numbering()[font_slant_code(x)] == x,
        0 <= code < 3 ==> font_slant_from_code(code) == Some(cairo_font_slant_numbering()[code]),
        !(0 <= code < 3) ==> font_slant_from_code(code) is None,
{
}

/// Every `FontSlant` survives being turned into its code and back, and a code
/// that names a `FontSlant` is that value's code.
pub proof fn lemma_font_slant_code_round_trip(x: FontSlant, code: int)
    ensures
        font_slant_from_code(font_slant_code(x)) == Some(x),
        font_slant_from_code(code) matches Some(y) ==> font_slant_code(y) == code,
{
}

impl FontSlant {
    /// The code of this value in cairo's C interface.
    pub fn to_raw(&self) -> (r: i32)
        ensures
            r == font_slant_code(*self),
            0 <= r < 3,
            cairo_font_slant_numbering()[r as int] == *self,
    {
        proof {
            lemma_font_slant_codes_follow_cairo_numbering(*self, 0);
        }
        match self {
            FontSlant::Normal => 0,
            FontSlant::Italic => 1,
            FontSlant::Oblique => 2,
        }
    }

    /// The value that a code of cairo's C interface stands for; `None` for an
    /// integer that names no `FontSlant`.
    pub fn from_raw(code: i32) -> (r: Option<FontSlant>)
        ensures
            r == font_slant_from_code(code as int),
            r is Some <==> 0 <= code < 3,
            0 <= code < 3 ==> r == Some(cairo_font_slant_numbering()[code as int]),
    {
        proof {
            lemma_font_slant_codes_follow_cairo_numbering(FontSlant::Normal, code as int);
        }
        match code {
            0 => Some(FontSlant::Normal),
            1 => Some(FontSlant::Italic),
            2 => Some(FontSlant::Oblique),
            _ => None,
        }
    }
}

/// The weight of a font selected by family name (`cairo_font_weight_t`).
#[derive(Clone, Copy, Debug, PartialEq, Eq, Structural)]
pub enum FontWeight {
    Normal,
    Bold,
}

/// The integer by which cairo's C interface names a `FontWeight`.
pub open spec fn font_weight_code(x: FontWeight) -> int {
    match x {
        FontWeight::Normal => 0,
        FontWeight::Bold => 1,
    }
}

/// The `FontWeight` that an integer names in cairo's C interface, if any.
pub open spec fn font_weight_from_code(code: int) -> Option<FontWeight> {
    if code == 0 {
        Some(FontWeight::Normal)
    } else if code == 1 {
        Some(FontWeight::Bold)
    } else {
        None
    }
}

/// The values of `cairo_font_weight_t` (`CAIRO_FONT_WEIGHT_NORMAL = 0`, `CAIRO_FONT_WEIGHT_BOLD = 1`), each at the position of
/// its number in cairo.h.
pub open spec fn cairo_font_weight_numbering() -> Seq<FontWeight> {
    seq![
        FontWeight::Normal,
        FontWeight::Bold,
    ]
}

/// The code of every `FontWeight` is the number that cairo.h gives it, and every
/// number that cairo.h gives decodes to the value that it numbers.
pub proof fn lemma_font_weight_codes_follow_cairo_numbering(x: FontWeight, code: int)
    ensures
        cairo_font_weight_numbering().len() == 2,
        0 <= font_weight_code(x) < 2,
        cairo_font_weight_numbering()[font_weight_code(x)] == x,
        0 <= code < 2 ==> font_weight_from_code(code) == Some(cairo_font_weight_numbering()[code]),
        !(0 <= code < 2) ==> font_weight_from_code(code) is None,
{
}

/// Every `FontWeight` survives being turned into its code and back, and a code
/// that names a `FontWeight` is that value's code.
pub proof fn lemma_font_weight_code_round_trip(x: FontWeight, code: int)
    ensures
        font_weight_from_code(font_weight_code(x)) == Some(x),
        font_weight_from_code(code) matches Some(y) ==> font_weight_code(y) == code,
{
}

impl FontWeight {
    /// The code of this value in cairo's C interface.
    pub fn to_raw(&self) -> (r: i32)
        ensures
            r == font_weight_code(*self),
            0 <= r < 2,
            cairo_font_weight_numbering()[r as int] == *self,
    {
        proof {
            lemma_font_weight_codes_follow_cairo_numbering(*self, 0);
        }
        match self {
            FontWeight::Normal => 0,
            FontWeight::Bold => 1,
        }
    }

    /// The value that a code of cairo's C interface stands for; `None` for an
    /// integer that names no `FontWeight`.
    pub fn from_raw(code: i32) -> (r: Option<FontWeight>)
        ensures
            r == font_weight_from_code(code as int),
            r is Some <==> 0 <= code < 2,
            0 <= code < 2 ==> r == Some(cairo_font_weight_numbering()[code as int]),
    {
        proof {
            lemma_font_weight_codes_follow_cairo_numbering(FontWeight::Normal, code as int);
        }
        match code {
            0 => Some(FontWeight::Normal),
            1 => Some(FontWeight::Bold),
            _ => None,
        }
    }
}

/// The order in which text clusters map to glyphs (`cairo_text_cluster_flags_t`).
#[derive(Clone, Copy, Debug, PartialEq, Eq, Structural)]
pub enum TextClusterFlags {
    Forward,
    Backward,
}

/// The integer by which cairo's C interface names a `TextClusterFlags`.
pub open spec fn text_cluster_flags_code(x: TextClusterFlags) -> int {
    match x {
        TextClusterFlags::Forward => 0,
        TextClusterFlags::Backward => 1,
    }
}

/// The `TextClusterFlags` that an integer names in cairo's C interface, if any.
pub open spec fn text_cluster_flags_from_code(code: int) -> Option<TextClusterFlags> {
    if code == 0 {
        Some(TextClusterFlags::Forward)
    } else if code == 1 {
        Some(TextClusterFlags::Backward)
    } else {
        None
    }
}

/// The values of `cairo_text_cluster_flags_t` (no flag set = 0, `CAIRO_TEXT_CLUSTER_FLAG_BACKWARD = 1`), each at the position of
/// its number in cairo.h.
pub open spec fn cairo_text_cluster_flags_numbering() -> Seq<TextClusterFlags> {
    seq![
        TextClusterFlags::Forward,
        TextClusterFlags::Backward,
    ]
}

/// The code of every `TextClusterFlags` is the number that cairo.h gives it, and every
/// number that cairo.h gives decodes to the value that it numbers.
pub proof fn lemma_text_cluster_flags_codes_follow_cairo_numbering(x: TextClusterFlags, code: int)
    ensures
        cairo_text_cluster_flags_numbering().len() == 2,
        0 <= text_cluster_flags_code(x) < 2,
        cairo_text_cluster_flags_numbering()[text_cluster_flags_code(x)] == x,
        0 <= code < 2 ==> text_cluster_flags_from_code(code) == Some(cairo_text_cluster_flags_numbering()[code]),
        !(0 <= code < 2) ==> text_cluster_flags_from_code(code) is None,
{
}

/// Every `TextClusterFlags` survives being turned into its code and back, and a code
/// that names a `TextClusterFlags` is that value's code.
pub proof fn lemma_text_cluster_flags_code_round_trip(x: TextClusterFlags, code: int)
    ensures
        text_cluster_flags_from_code(text_cluster_flags_code(x)) == Some(x),
        text_cluster_flags_from_code(code) matches Some(y) ==> text_cluster_flags_code(y) == code,
{
}

impl TextClusterFlags {
    /// The code of this value in cairo's C interface.
    pub fn to_raw(&self) -> (r: i32)
        ensures
            r == text_cluster_flags_code(*self),
            0 <= r < 2,
            cairo_text_cluster_flags_numbering()[r as int] == *self,
    {
        proof {
            lemma_text_cluster_flags_codes_follow_cairo_numbering(*self, 0);
        }
        match self {
            TextClusterFlags::Forward => 0,
            TextClusterFlags::Backward => 1,
        }
    }

    /// The value that a code of cairo's C interface stands for; `None` for an
    /// integer that names no `TextClusterFlags`.
    pub fn from_raw(code: i32) -> (r: Option<TextClusterFlags>)
        ensures
            r == text_cluster_flags_from_code(code as int),
            r is Some <==> 0 <= code < 2,
            0 <= code < 2 ==> r == Some(cairo_text_cluster_flags_numbering()[code as int]),
    {
        proof {
            lemma_text_cluster_flags_codes_follow_cairo_numbering(TextClusterFlags::Forward, code as int);
        }
        match code {
            0 => Some(TextClusterFlags::Forward),
            1 => Some(TextClusterFlags::Backward),
            _ => None,
        }
    }
}

} // verus!
