//! Aspect-ratio presets.

use crate::text::{decimal, push_decimal, same_text};
use vstd::prelude::*;
use vstd::string::*;

verus! {

/// A named width:height preset. `Square` is the ratio-less default.
#[derive(Clone, Copy, Debug, PartialEq, Eq, Structural)]
pub enum Aspect {
    Square,
    Portrait,
    Landscape,
    Tall,
    Wide,
    UltraWide,
}

impl Aspect {
    /// The lowercase name under which the preset is shown and stored.
    pub open spec fn name(self) -> Seq<char> {
        match self {
            Aspect::Square => "square"@,
            Aspect::Portrait => "portrait"@,
            Aspect::Landscape => "landscape"@,
            Aspect::Tall => "tall"@,
            Aspect::Wide => "wide"@,
            Aspect::UltraWide => "ultrawide"@,
        }
    }

    /// The preset that goes by the name `s`, if there is one.
    pub open spec fn named(s: Seq<char>) -> Option<Aspect> {
        if s == "square"@ {
            Some(Aspect::Square)
        } else if s == "portrait"@ {
            Some(Aspect::Portrait)
        } else if s == "landscape"@ {
            Some(Aspect::Landscape)
        } else if s == "tall"@ {
            Some(Aspect::Tall)
        } else if s == "wide"@ {
            Some(Aspect::Wide)
        } else if s == "ultrawide"@ {
            Some(Aspect::UltraWide)
        } else {
            None
        }
    }

    /// The width:height pair of each preset; `Square` has none.
    pub open spec fn ratio(self) -> Option<(nat, nat)> {
        match self {
            Aspect::Square => None,
            Aspect::Portrait => Some((2, 3)),
            Aspect::Landscape => Some((3, 2)),
            Aspect::Tall => Some((1, 2)),
            Aspect::Wide => Some((16, 9)),
            Aspect::UltraWide => Some((21, 9)),
        }
    }

    /// The pair written as `{w}:{h}`.
    pub open spec fn ratio_text(w: nat, h: nat) -> Seq<char> {
        decimal(w) + ":"@ + decimal(h)
    }

    /// What the preset adds to a command: ` --ar {w}:{h}`, or nothing for `Square`.
    pub open spec fn flag(self) -> Seq<char> {
        match self.ratio() {
            Some((w, h)) => " --ar "@ + Self::ratio_text(w, h),
            None => Seq::empty(),
        }
    }

    /// How the preset is shown to a user: its name, followed by its ratio if it has one.
    pub open spec fn label(self) -> Seq<char> {
        match self.ratio() {
            Some((w, h)) => self.name() + " "@ + Self::ratio_text(w, h),
            None => self.name(),
        }
    }

    /// The name of the preset.
    pub fn str(&self) -> (r: &'static str)
        ensures
            r@ == self.name(),
    {
        match self {
            Aspect::Square => "square",
            Aspect::Tall => "tall",
            Aspect::Portrait => "portrait",
            Aspect::Landscape => "landscape",
            Aspect::Wide => "wide",
            Aspect::UltraWide => "ultrawide",
        }
    }

    /// Finds the preset by its name. Names are matched exactly.
    pub fn from_name(name: &str) -> (r: Option<Aspect>)
        ensures
            r == Self::named(name@),
    {
        if same_text(name, "square") {
            Some(Aspect::Square)
        } else if same_text(name, "portrait") {
            Some(Aspect::Portrait)
        } else if same_text(name, "landscape") {
            Some(Aspect::Landscape)
        } else if same_text(name, "tall") {
            Some(Aspect::Tall)
        } else if same_text(name, "wide") {
            Some(Aspect::Wide)
        } else if same_text(name, "ultrawide") {
            Some(Aspect::UltraWide)
        } else {
            None
        }
    }

    /// The width and height of the preset, or `None` for `Square`.
    pub fn wh(&self) -> (r: Option<[u8; 2]>)
        ensures
            match self.ratio() {
                Some((w, h)) => r.is_some() && r.unwrap()[0] == w && r.unwrap()[1] == h,
                None => r.is_none(),
            },
    {
        match self {
            Aspect::Square => None,
            Aspect::Portrait => Some([2, 3]),
            Aspect::Landscape => Some([3, 2]),
            Aspect::Tall => Some([1, 2]),
            Aspect::Wide => Some([16, 9]),
            Aspect::UltraWide => Some([21, 9]),
        }
    }

    /// Appends `{w}:{h}` to `out` if the preset has a ratio, after `lead`.
    fn push_ratio(&self, out: &mut String, lead: &str)
        ensures
            final(out)@ == old(out)@ + (match self.ratio() {
                Some((w, h)) => lead@ + Self::ratio_text(w, h),
                None => Seq::empty(),
            }),
    {
        if let Some(wh) = self.wh() {
            let w: u8 = wh[0];
            let h: u8 = wh[1];
            out.append(lead);
            push_decimal(out, w as u32);
            out.append(":");
            push_decimal(out, h as u32);
        }
    }

    /// Appends the preset's command flag to `out`.
    pub fn push_flag(&self, out: &mut String)
        ensures
            final(out)@ == old(out)@ + self.flag(),
    {
        self.push_ratio(out, " --ar ");
    }

    /// The text under which the preset is offered: `wide 16:9`, `square`.
    pub fn aspect_string(&self) -> (r: String)
        ensures
            r@ == self.label(),
    {
        let mut s = self.str().to_owned();
        self.push_ratio(&mut s, " ");
        s
    }
}

/// No two presets share a name, so a stored name leads back to its preset.
pub proof fn lemma_aspect_names(a: Aspect)
    ensures
        Aspect::named(a.name()) == Some(a),
{
    reveal_strlit("square");
    reveal_strlit("portrait");
    reveal_strlit("landscape");
    reveal_strlit("tall");
    reveal_strlit("wide");
    reveal_strlit("ultrawide");
    assert("square"@.len() == 6);
    assert("portrait"@.len() == 8);
    assert("landscape"@.len() == 9);
    assert("tall"@.len() == 4);
    assert("wide"@.len() == 4);
    assert("ultrawide"@.len() == 9);
    assert("tall"@[0] != "wide"@[0]);
    assert("landscape"@[0] != "ultrawide"@[0]);
}

} // verus!
