//! The twelve Euler axis orders: parsing, naming, and classification.

use vstd::prelude::*;

verus! {

/// Uppercases the three lowercase axis letters; every other character is
/// left unchanged. No character other than 'x', 'y', 'z' (or the uppercase
/// letters themselves) can contribute an axis letter to an order code, so
/// this folding decides order-code matching for arbitrary input.
pub open spec fn upper(c: char) -> char {
    if c == 'x' {
        'X'
    } else if c == 'y' {
        'Y'
    } else if c == 'z' {
        'Z'
    } else {
        c
    }
}

/// The uppercase image of a whole string, character by character.
pub open spec fn upper_seq(s: Seq<char>) -> Seq<char> {
    s.map_values(|c: char| upper(c))
}

/// True of the three uppercase axis letters.
pub open spec fn is_axis_char(c: char) -> bool {
    c == 'X' || c == 'Y' || c == 'Z'
}

/// The order named by three already-uppercased characters, if any. The
/// twelve valid codes are exactly the three-letter axis sequences in which
/// consecutive axes differ.
pub open spec fn order_from_chars(a: char, b: char, c: char) -> Option<EulerOrder> {
    if a == 'X' && b == 'Y' && c == 'Z' {
        Some(EulerOrder::XYZ)
    } else if a == 'X' && b == 'Z' && c == 'Y' {
        Some(EulerOrder::XZY)
    } else if a == 'Y' && b == 'X' && c == 'Z' {
        Some(EulerOrder::YXZ)
    } else if a == 'Y' && b == 'Z' && c == 'X' {
        Some(EulerOrder::YZX)
    } else if a == 'Z' && b == 'X' && c == 'Y' {
        Some(EulerOrder::ZXY)
    } else if a == 'Z' && b == 'Y' && c == 'X' {
        Some(EulerOrder::ZYX)
    } else if a == 'X' && b == 'Y' && c == 'X' {
        Some(EulerOrder::XYX)
    } else if a == 'X' && b == 'Z' && c == 'X' {
        Some(EulerOrder::XZX)
    } else if a == 'Y' && b == 'X' && c == 'Y' {
        Some(EulerOrder::YXY)
    } else if a == 'Y' && b == 'Z' && c == 'Y' {
        Some(EulerOrder::YZY)
    } else if a == 'Z' && b == 'X' && c == 'Z' {
        Some(EulerOrder::ZXZ)
    } else if a == 'Z' && b == 'Y' && c == 'Z' {
        Some(EulerOrder::ZYZ)
    } else {
        None
    }
}

/// What parsing an order name yields: the order whose code the input
/// matches up to letter case, or nothing.
pub open spec fn parse_order(s: Seq<char>) -> Option<EulerOrder> {
    if s.len() == 3 {
        order_from_chars(upper(s[0]), upper(s[1]), upper(s[2]))
    } else {
        None
    }
}

/// Parsing with the silent fallback the conversion entry points use: an
/// unrecognized order name defaults to ZYX rather than failing.
pub open spec fn parse_order_or_default(s: Seq<char>) -> EulerOrder {
    match parse_order(s) {
        Some(o) => o,
        None => EulerOrder::ZYX,
    }
}

/// One of the twelve axis sequences an Euler-angle triple can be tagged
/// with: the six Tait-Bryan orders (three distinct axes) and the six
/// proper Euler orders (first axis repeated last).
#[derive(Clone, Copy, Debug, PartialEq, Eq, Structural)]
pub enum EulerOrder {
    XYZ,
    XZY,
    YXZ,
    YZX,
    ZXY,
    ZYX,
    XYX,
    XZX,
    YXY,
    YZY,
    ZXZ,
    ZYZ,
}

impl EulerOrder {
    /// The order's three-letter code, uppercase.
    pub open spec fn code(self) -> Seq<char> {
        match self {
            EulerOrder::XYZ => "XYZ"@,
            EulerOrder::XZY => "XZY"@,
            EulerOrder::YXZ => "YXZ"@,
            EulerOrder::YZX => "YZX"@,
            EulerOrder::ZXY => "ZXY"@,
            EulerOrder::ZYX => "ZYX"@,
            EulerOrder::XYX => "XYX"@,
            EulerOrder::XZX => "XZX"@,
            EulerOrder::YXY => "YXY"@,
            EulerOrder::YZY => "YZY"@,
            EulerOrder::ZXZ => "ZXZ"@,
            EulerOrder::ZYZ => "ZYZ"@,
        }
    }

    /// The order's three-letter code as a string slice.
    pub fn as_str(&self) -> (r: &'static str)
        ensures
            r@ == self.code(),
    {
        match self {
            EulerOrder::XYZ => "XYZ",
            EulerOrder::XZY => "XZY",
            EulerOrder::YXZ => "YXZ",
            EulerOrder::YZX => "YZX",
            EulerOrder::ZXY => "ZXY",
            EulerOrder::ZYX => "ZYX",
            EulerOrder::XYX => "XYX",
            EulerOrder::XZX => "XZX",
            EulerOrder::YXY => "YXY",
            EulerOrder::YZY => "YZY",
            EulerOrder::ZXZ => "ZXZ",
            EulerOrder::ZYZ => "ZYZ",
        }
    }

    /// True of the six proper Euler orders, whose first axis repeats last;
    /// the other six are the Tait-Bryan orders of three distinct axes.
    pub open spec fn is_proper(self) -> bool {
        self == EulerOrder::XYX || self == EulerOrder::XZX || self == EulerOrder::YXY
            || self == EulerOrder::YZY || self == EulerOrder::ZXZ || self == EulerOrder::ZYZ
    }

    /// The order's family name.
    pub open spec fn family(self) -> Seq<char> {
        if self.is_proper() {
            "Proper Euler"@
        } else {
            "Tait-Bryan"@
        }
    }

    /// The order's conventional name, where one is in common use.
    pub open spec fn common(self) -> Seq<char> {
        if self == EulerOrder::XYZ {
            "Roll-Pitch-Yaw"@
        } else if self == EulerOrder::ZYX {
            "Yaw-Pitch-Roll (Aerospace)"@
        } else if self == EulerOrder::ZXZ {
            "Classical Euler (Precession)"@
        } else {
            ""@
        }
    }

    /// Parses an order name, insensitively to the case of the axis
    /// letters; any string that matches no code yields `None`.
    pub fn from_string(s: &str) -> (r: Option<EulerOrder>)
        ensures
            r == parse_order(s@),
    {
        let n = s.unicode_len();
        if n != 3 {
            return None;
        }
        let a = to_upper(s.get_char(0));
        let b = to_upper(s.get_char(1));
        let c = to_upper(s.get_char(2));
        if a == 'X' && b == 'Y' && c == 'Z' {
            Some(EulerOrder::XYZ)
        } else if a == 'X' && b == 'Z' && c == 'Y' {
            Some(EulerOrder::XZY)
        } else if a == 'Y' && b == 'X' && c == 'Z' {
            Some(EulerOrder::YXZ)
        } else if a == 'Y' && b == 'Z' && c == 'X' {
            Some(EulerOrder::YZX)
        } else if a == 'Z' && b == 'X' && c == 'Y' {
            Some(EulerOrder::ZXY)
        } else if a == 'Z' && b == 'Y' && c == 'X' {
            Some(EulerOrder::ZYX)
        } else if a == 'X' && b == 'Y' && c == 'X' {
            Some(EulerOrder::XYX)
        } else if a == 'X' && b == 'Z' && c == 'X' {
            Some(EulerOrder::XZX)
        } else if a == 'Y' && b == 'X' && c == 'Y' {
            Some(EulerOrder::YXY)
        } else if a == 'Y' && b == 'Z' && c == 'Y' {
            Some(EulerOrder::YZY)
        } else if a == 'Z' && b == 'X' && c == 'Z' {
            Some(EulerOrder::ZXZ)
        } else if a == 'Z' && b == 'Y' && c == 'Z' {
            Some(EulerOrder::ZYZ)
        } else {
            None
        }
    }

    /// Parses an order name with the entry points' fallback policy:
    /// an unrecognized name silently selects ZYX.
    pub fn from_string_or_default(s: &str) -> (r: EulerOrder)
        ensures
            r == parse_order_or_default(s@),
    {
        match Self::from_string(s) {
            Some(o) => o,
            None => EulerOrder::ZYX,
        }
    }

    /// The order's family name as a string slice.
    pub fn family_name(&self) -> (r: &'static str)
        ensures
            r@ == self.family(),
    {
        match self {
            EulerOrder::XYX | EulerOrder::XZX | EulerOrder::YXY | EulerOrder::YZY
                | EulerOrder::ZXZ | EulerOrder::ZYZ => "Proper Euler",
            _ => "Tait-Bryan",
        }
    }

    /// The order's conventional name as a string slice.
    pub fn common_name(&self) -> (r: &'static str)
        ensures
            r@ == self.common(),
    {
        match self {
            EulerOrder::XYZ => "Roll-Pitch-Yaw",
            EulerOrder::ZYX => "Yaw-Pitch-Roll (Aerospace)",
            EulerOrder::ZXZ => "Classical Euler (Precession)",
            _ => "",
        }
    }
}

/// The twelve orders in their canonical listing: the six Tait-Bryan
/// orders first, then the six proper Euler orders.
pub open spec fn order_list() -> Seq<EulerOrder> {
    seq![
        EulerOrder::XYZ,
        EulerOrder::XZY,
        EulerOrder::YXZ,
        EulerOrder::YZX,
        EulerOrder::ZXY,
        EulerOrder::ZYX,
        EulerOrder::XYX,
        EulerOrder::XZX,
        EulerOrder::YXY,
        EulerOrder::YZY,
        EulerOrder::ZXZ,
        EulerOrder::ZYZ,
    ]
}

/// The canonical listing of the twelve orders.
pub fn all_orders() -> (r: Vec<EulerOrder>)
    ensures
        r@ == order_list(),
{
    let v: Vec<EulerOrder> = vec![
        EulerOrder::XYZ,
        EulerOrder::XZY,
        EulerOrder::YXZ,
        EulerOrder::YZX,
        EulerOrder::ZXY,
        EulerOrder::ZYX,
        EulerOrder::XYX,
        EulerOrder::XZX,
        EulerOrder::YXY,
        EulerOrder::YZY,
        EulerOrder::ZXZ,
        EulerOrder::ZYZ,
    ];
    proof {
        assert(v@ =~= order_list());
    }
    v
}

/// Uppercases an axis letter in executable code.
fn to_upper(c: char) -> (r: char)
    ensures
        r == upper(c),
{
    if c == 'x' {
        'X'
    } else if c == 'y' {
        'Y'
    } else if c == 'z' {
        'Z'
    } else {
        c
    }
}

/// The polarity of a gimbal-lock singularity: positive when the locked
/// middle angle sits at its upper singular value, negative at the lower.
#[derive(Clone, Copy, Debug, PartialEq, Eq, Structural)]
pub enum LockType {
    Positive,
    Negative,
}

impl LockType {
    /// The label the lock annotation carries.
    pub open spec fn label(self) -> Seq<char> {
        match self {
            LockType::Positive => "positive"@,
            LockType::Negative => "negative"@,
        }
    }

    /// The lock label as a string slice.
    pub fn as_str(&self) -> (r: &'static str)
        ensures
            r@ == self.label(),
    {
        match self {
            LockType::Positive => "positive",
            LockType::Negative => "negative",
        }
    }
}

/// Every order's code parses back to that very order: naming and parsing
/// are mutually inverse on the twelve codes.
pub proof fn lemma_code_parses_back(o: EulerOrder)
    ensures
        parse_order(o.code()) == Some(o),
{
    reveal_all_codes();
}

/// Distinct orders carry distinct codes.
pub proof fn lemma_codes_distinct(a: EulerOrder, b: EulerOrder)
    requires
        a.code() == b.code(),
    ensures
        a == b,
{
    reveal_all_codes();
    assert(a.code()[0] == b.code()[0] && a.code()[1] == b.code()[1] && a.code()[2] == b.code()[2]);
}

/// Parsing is insensitive to the case of the axis letters: two strings
/// with the same uppercase image parse to the same order.
pub proof fn lemma_parse_case_insensitive(s: Seq<char>, t: Seq<char>)
    requires
        upper_seq(s) == upper_seq(t),
    ensures
        parse_order(s) == parse_order(t),
{
    assert(upper_seq(s).len() == s.len());
    assert(upper_seq(t).len() == t.len());
    if s.len() == 3 {
        assert(upper(s[0]) == upper_seq(s)[0] && upper(t[0]) == upper_seq(t)[0]);
        assert(upper(s[1]) == upper_seq(s)[1] && upper(t[1]) == upper_seq(t)[1]);
        assert(upper(s[2]) == upper_seq(s)[2] && upper(t[2]) == upper_seq(t)[2]);
    }
}

/// A successful parse pins the input down: its uppercase image is exactly
/// the code of the order returned.
pub proof fn lemma_parse_sound(s: Seq<char>, o: EulerOrder)
    requires
        parse_order(s) == Some(o),
    ensures
        upper_seq(s) == o.code(),
{
    reveal_all_codes();
    assert(upper_seq(s).len() == 3);
    assert(upper_seq(s)[0] == upper(s[0]));
    assert(upper_seq(s)[1] == upper(s[1]));
    assert(upper_seq(s)[2] == upper(s[2]));
    assert(upper_seq(s) =~= o.code());
}

/// Three uppercased characters name an order exactly when all three are
/// axis letters and consecutive axes differ; hence the valid codes are
/// precisely the axis sequences with or without the first axis repeated
/// last, twelve in all.
pub proof fn lemma_valid_codes(a: char, b: char, c: char)
    ensures
        order_from_chars(a, b, c).is_some() <==> (is_axis_char(a) && is_axis_char(b)
            && is_axis_char(c) && a != b && b != c),
{
}

/// Each code is three axis letters in which consecutive axes differ, and
/// the first axis repeats last exactly for the proper Euler orders.
pub proof fn lemma_code_shape(o: EulerOrder)
    ensures
        o.code().len() == 3,
        is_axis_char(o.code()[0]),
        is_axis_char(o.code()[1]),
        is_axis_char(o.code()[2]),
        o.code()[0] != o.code()[1],
        o.code()[1] != o.code()[2],
        (o.code()[0] == o.code()[2]) <==> o.is_proper(),
{
    reveal_all_codes();
}

/// Makes the character content of the twelve code literals available to
/// the proofs above.
proof fn reveal_all_codes()
    ensures
        "XYZ"@ =~= seq!['X', 'Y', 'Z'],
        "XZY"@ =~= seq!['X', 'Z', 'Y'],
        "YXZ"@ =~= seq!['Y', 'X', 'Z'],
        "YZX"@ =~= seq!['Y', 'Z', 'X'],
        "ZXY"@ =~= seq!['Z', 'X', 'Y'],
        "ZYX"@ =~= seq!['Z', 'Y', 'X'],
        "XYX"@ =~= seq!['X', 'Y', 'X'],
        "XZX"@ =~= seq!['X', 'Z', 'X'],
        "YXY"@ =~= seq!['Y', 'X', 'Y'],
        "YZY"@ =~= seq!['Y', 'Z', 'Y'],
        "ZXZ"@ =~= seq!['Z', 'X', 'Z'],
        "ZYZ"@ =~= seq!['Z', 'Y', 'Z'],
{
    reveal_strlit("XYZ");
    reveal_strlit("XZY");
    reveal_strlit("YXZ");
    reveal_strlit("YZX");
    reveal_strlit("ZXY");
    reveal_strlit("ZYX");
    reveal_strlit("XYX");
    reveal_strlit("XZX");
    reveal_strlit("YXY");
    reveal_strlit("YZY");
    reveal_strlit("ZXZ");
    reveal_strlit("ZYZ");
}

} // verus!
