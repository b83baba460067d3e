//! Color schemes: their names, their colors, and how the config file names them.
use vstd::prelude::*;
use crate::text::text_eq;

verus! {

/// The color schemes, in the order the settings list shows them.
#[derive(Clone, Copy, Debug, PartialEq, Eq, Structural)]
pub enum ColorScheme {
    Green,
    Blue,
    Amber,
    Orange,
    LightGreen,
    Red,
    BrightRed,
}

/// A terminal color that a scheme draws with.
#[derive(Clone, Copy, Debug, PartialEq, Eq, Structural)]
pub enum ThemeColor {
    Green,
    LightGreen,
    Cyan,
    LightBlue,
    Yellow,
    LightYellow,
    Red,
    LightRed,
    Rgb(u8, u8, u8),
}

/// The schemes in settings order.
pub open spec fn schemes() -> Seq<ColorScheme> {
    seq![
        ColorScheme::Green,
        ColorScheme::Blue,
        ColorScheme::Amber,
        ColorScheme::Orange,
        ColorScheme::LightGreen,
        ColorScheme::Red,
        ColorScheme::BrightRed,
    ]
}

/// The name under which the config file stores a scheme.
pub open spec fn scheme_key(c: ColorScheme) -> Seq<char> {
    match c {
        ColorScheme::Green => "Green"@,
        ColorScheme::Blue => "Blue"@,
        ColorScheme::Amber => "Amber"@,
        ColorScheme::Orange => "Orange"@,
        ColorScheme::LightGreen => "LightGreen"@,
        ColorScheme::Red => "Red"@,
        ColorScheme::BrightRed => "BrightRed"@,
    }
}

/// The scheme that a stored name stands for; an unknown name stands for Green.
pub open spec fn scheme_of_key(s: Seq<char>) -> ColorScheme {
    if s == "Blue"@ {
        ColorScheme::Blue
    } else if s == "Amber"@ {
        ColorScheme::Amber
    } else if s == "Orange"@ {
        ColorScheme::Orange
    } else if s == "LightGreen"@ {
        ColorScheme::LightGreen
    } else if s == "Red"@ {
        ColorScheme::Red
    } else if s == "BrightRed"@ {
        ColorScheme::BrightRed
    } else {
        ColorScheme::Green
    }
}

/// The position of a scheme in the settings list.
pub open spec fn scheme_index(c: ColorScheme) -> usize {
    match c {
        ColorScheme::Green => 0,
        ColorScheme::Blue => 1,
        ColorScheme::Amber => 2,
        ColorScheme::Orange => 3,
        ColorScheme::LightGreen => 4,
        ColorScheme::Red => 5,
        ColorScheme::BrightRed => 6,
    }
}

impl ColorScheme {
    /// The name shown in the settings list.
    pub fn name(&self) -> (r: &'static str)
        ensures
            r@ == (match *self {
                ColorScheme::Green => "Classic Green"@,
                ColorScheme::Blue => "Terminal Blue"@,
                ColorScheme::Amber => "Retro Amber"@,
                ColorScheme::Orange => "Bright Orange"@,
                ColorScheme::LightGreen => "Light Green"@,
                ColorScheme::Red => "Alert Red"@,
                ColorScheme::BrightRed => "Vibrant Red"@,
            }),
    {
        match self {
            ColorScheme::Green => "Classic Green",
            ColorScheme::Blue => "Terminal Blue",
            ColorScheme::Amber => "Retro Amber",
            ColorScheme::Orange => "Bright Orange",
            ColorScheme::LightGreen => "Light Green",
            ColorScheme::Red => "Alert Red",
            ColorScheme::BrightRed => "Vibrant Red",
        }
    }

    /// The main color of the scheme.
    pub fn primary_color(&self) -> (r: ThemeColor)
        ensures
            r == (match *self {
                ColorScheme::Green => ThemeColor::Green,
                ColorScheme::Blue => ThemeColor::Cyan,
                ColorScheme::Amber => ThemeColor::Yellow,
                ColorScheme::Orange => ThemeColor::Rgb(255, 165, 0),
                ColorScheme::LightGreen => ThemeColor::LightGreen,
                ColorScheme::Red => ThemeColor::Red,
                ColorScheme::BrightRed => ThemeColor::Rgb(255, 69, 0),
            }),
    {
        match self {
            ColorScheme::Green => ThemeColor::Green,
            ColorScheme::Blue => ThemeColor::Cyan,
            ColorScheme::Amber => ThemeColor::Yellow,
            ColorScheme::Orange => ThemeColor::Rgb(255, 165, 0),
            ColorScheme::LightGreen => ThemeColor::LightGreen,
            ColorScheme::Red => ThemeColor::Red,
            ColorScheme::BrightRed => ThemeColor::Rgb(255, 69, 0),
        }
    }

    /// The accent color of the scheme.
    pub fn secondary_color(&self) -> (r: ThemeColor)
        ensures
            r == (match *self {
                ColorScheme::Green => ThemeColor::LightGreen,
                ColorScheme::Blue => ThemeColor::LightBlue,
                ColorScheme::Amber => ThemeColor::LightYellow,
                ColorScheme::Orange => ThemeColor::Rgb(255, 200, 100),
                ColorScheme::LightGreen => ThemeColor::Green,
                ColorScheme::Red => ThemeColor::LightRed,
                ColorScheme::BrightRed => ThemeColor::Rgb(255, 100, 100),
            }),
    {
        match self {
            ColorScheme::Green => ThemeColor::LightGreen,
            ColorScheme::Blue => ThemeColor::LightBlue,
            ColorScheme::Amber => ThemeColor::LightYellow,
            ColorScheme::Orange => ThemeColor::Rgb(255, 200, 100),
            ColorScheme::LightGreen => ThemeColor::Green,
            ColorScheme::Red => ThemeColor::LightRed,
            ColorScheme::BrightRed => ThemeColor::Rgb(255, 100, 100),
        }
    }

    /// Every scheme, in settings order.
    pub fn all_schemes() -> (r: Vec<ColorScheme>)
        ensures
            r@ == schemes(),
    {
        let r = vec![
            ColorScheme::Green,
            ColorScheme::Blue,
            ColorScheme::Amber,
            ColorScheme::Orange,
            ColorScheme::LightGreen,
            ColorScheme::Red,
            ColorScheme::BrightRed,
        ];
        assert(r@ =~= schemes());
        r
    }

    /// The scheme a stored name stands for (Green for an unknown name).
    pub fn from_string(s: &str) -> (r: ColorScheme)
        ensures
            r == scheme_of_key(s@),
    {
        if text_eq(s, "Blue") {
            ColorScheme::Blue
        } else if text_eq(s, "Amber") {
            ColorScheme::Amber
        } else if text_eq(s, "Orange") {
            ColorScheme::Orange
        } else if text_eq(s, "LightGreen") {
            ColorScheme::LightGreen
        } else if text_eq(s, "Red") {
            ColorScheme::Red
        } else if text_eq(s, "BrightRed") {
            ColorScheme::BrightRed
        } else {
            ColorScheme::Green
        }
    }

    /// The name under which the config file stores the scheme.
    pub fn to_string(&self) -> (r: String)
        ensures
            r@ == scheme_key(*self),
    {
        let s = match self {
            ColorScheme::Green => "Green",
            ColorScheme::Blue => "Blue",
            ColorScheme::Amber => "Amber",
            ColorScheme::Orange => "Orange",
            ColorScheme::LightGreen => "LightGreen",
            ColorScheme::Red => "Red",
            ColorScheme::BrightRed => "BrightRed",
        };
        String::from_str(s)
    }

    /// The scheme's position in the settings list.
    pub fn index(&self) -> (r: usize)
        ensures
            r == scheme_index(*self),
            r < schemes().len(),
            schemes()[r as int] == *self,
    {
        match self {
            ColorScheme::Green => 0,
            ColorScheme::Blue => 1,
            ColorScheme::Amber => 2,
            ColorScheme::Orange => 3,
            ColorScheme::LightGreen => 4,
            ColorScheme::Red => 5,
            ColorScheme::BrightRed => 6,
        }
    }
}

/// Reading back the stored name of a scheme gives the scheme.
pub proof fn lemma_scheme_key_round_trip(c: ColorScheme)
    ensures
        scheme_of_key(scheme_key(c)) == c,
{
    reveal_strlit("Green");
    reveal_strlit("Blue");
    reveal_strlit("Amber");
    reveal_strlit("Orange");
    reveal_strlit("LightGreen");
    reveal_strlit("Red");
    reveal_strlit("BrightRed");
    let k = scheme_key(c);
    if c != ColorScheme::Blue {
        assert(k != "Blue"@) by {
            if k.len() == 4 {
                assert(k[0] != "Blue"@[0] || k[1] != "Blue"@[1]);
            }
        }
    }
    if c != ColorScheme::Amber {
        assert(k != "Amber"@) by {
            if k.len() == 5 {
                assert(k[0] != "Amber"@[0]);
            }
        }
    }
    if c != ColorScheme::Orange {
        assert(k.len() != 6 || k[0] != "Orange"@[0]);
    }
    if c != ColorScheme::Red {
        assert(k.len() != 3 || k[0] != "Red"@[0]);
    }
    if c != ColorScheme::LightGreen {
        assert(k.len() != 10);
    }
    if c != ColorScheme::BrightRed {
        assert(k.len() != 9);
    }
}

} // verus!
