//! Rendering algorithms, the aspect presets each one permits, and the rule
//! that brings an aspect back among the permitted ones.

use crate::aspect::Aspect;
use crate::text::same_text;
use vstd::prelude::*;
use vstd::string::*;

verus! {

/// A rendering algorithm of the image service. `V3` is the service's default.
#[derive(Clone, Copy, Debug, PartialEq, Eq, Structural)]
pub enum Algorithm {
    V3,
    Test,
    TestPhoto,
}

impl Algorithm {
    /// The lowercase name under which the algorithm is shown, stored and
    /// passed to the service.
    pub open spec fn name(self) -> Seq<char> {
        match self {
            Algorithm::V3 => "v3"@,
            Algorithm::Test => "test"@,
            Algorithm::TestPhoto => "testp"@,
        }
    }

    /// The algorithm that goes by the name `s`, if there is one.
    pub open spec fn named(s: Seq<char>) -> Option<Algorithm> {
        if s == "v3"@ {
            Some(Algorithm::V3)
        } else if s == "test"@ {
            Some(Algorithm::Test)
        } else if s == "testp"@ {
            Some(Algorithm::TestPhoto)
        } else {
            None
        }
    }

    /// The presets that the algorithm permits, in the order in which they are offered.
    pub open spec fn allowed(self) -> Seq<Aspect> {
        match self {
            Algorithm::V3 => seq![
                Aspect::Square,
                Aspect::Portrait,
                Aspect::Landscape,
                Aspect::Tall,
                Aspect::Wide,
                Aspect::UltraWide,
            ],
            Algorithm::Test | Algorithm::TestPhoto => seq![
                Aspect::Square,
                Aspect::Portrait,
                Aspect::Landscape,
            ],
        }
    }

    /// Whether the algorithm permits `aspect`.
    pub open spec fn permits(self, aspect: Aspect) -> bool {
        self.allowed().contains(aspect)
    }

    /// The aspect to go on with when the algorithm becomes `self`: a permitted
    /// one stays; `Tall` falls back to `Portrait`, `Wide` and `UltraWide` to
    /// `Landscape`; any other is left as it is.
    pub open spec fn remapped(self, aspect: Aspect) -> Aspect {
        if self.permits(aspect) {
            aspect
        } else {
            match aspect {
                Aspect::Tall => Aspect::Portrait,
                Aspect::Wide | Aspect::UltraWide => Aspect::Landscape,
                _ => aspect,
            }
        }
    }

    /// What the algorithm adds to a command: ` --{name}`, or nothing for `V3`.
    pub open spec fn flag(self) -> Seq<char> {
        if self == Algorithm::V3 {
            Seq::empty()
        } else {
            " --"@ + self.name()
        }
    }

    /// The name of the algorithm.
    pub fn str(&self) -> (r: &'static str)
        ensures
            r@ == self.name(),
    {
        match self {
            Algorithm::V3 => "v3",
            Algorithm::Test => "test",
            Algorithm::TestPhoto => "testp",
        }
    }

    /// Finds the algorithm by its name. Names are matched exactly.
    pub fn from_name(name: &str) -> (r: Option<Algorithm>)
        ensures
            r == Self::named(name@),
    {
        if same_text(name, "v3") {
            Some(Algorithm::V3)
        } else if same_text(name, "test") {
            Some(Algorithm::Test)
        } else if same_text(name, "testp") {
            Some(Algorithm::TestPhoto)
        } else {
            None
        }
    }

    /// The presets that the algorithm permits, in the order in which they are offered.
    pub fn allowed_aspects(&self) -> (r: &'static [Aspect])
        ensures
            r@ == self.allowed(),
    {
        match self {
            Algorithm::V3 => &[
                Aspect::Square,
                Aspect::Portrait,
                Aspect::Landscape,
                Aspect::Tall,
                Aspect::Wide,
                Aspect::UltraWide,
            ],
            Algorithm::Test | Algorithm::TestPhoto => {
                &[Aspect::Square, Aspect::Portrait, Aspect::Landscape]
            },
        }
    }

    /// Tells whether the algorithm permits `aspect`.
    pub fn allows(&self, aspect: Aspect) -> (r: bool)
        ensures
            r == self.permits(aspect),
    {
        let r = match self {
            Algorithm::V3 => true,
            Algorithm::Test | Algorithm::TestPhoto => match aspect {
                Aspect::Square | Aspect::Portrait | Aspect::Landscape => true,
                _ => false,
            },
        };
        proof {
            lemma_permits(*self, aspect);
        }
        r
    }

    /// The aspect to go on with when the algorithm becomes `self`.
    pub fn remap(&self, aspect: Aspect) -> (r: Aspect)
        ensures
            r == self.remapped(aspect),
    {
        if self.allows(aspect) {
            aspect
        } else {
            match aspect {
                Aspect::Tall => Aspect::Portrait,
                Aspect::Wide | Aspect::UltraWide => Aspect::Landscape,
                _ => aspect,
            }
        }
    }

    /// Appends the algorithm's command flag to `out`.
    pub fn push_flag(&self, out: &mut String)
        ensures
            final(out)@ == old(out)@ + self.flag(),
    {
        if *self != Algorithm::V3 {
            out.append(" --");
            out.append(self.str());
        }
    }
}

/// `V3` permits every preset; `Test` and `TestPhoto` permit `Square`,
/// `Portrait` and `Landscape` and no other.
pub proof fn lemma_permits(algorithm: Algorithm, aspect: Aspect)
    ensures
        algorithm.permits(aspect) <==> (algorithm == Algorithm::V3 || aspect == Aspect::Square
            || aspect == Aspect::Portrait || aspect == Aspect::Landscape),
{
    let allowed = algorithm.allowed();
    assert(allowed[0] == Aspect::Square);
    assert(allowed[1] == Aspect::Portrait);
    assert(allowed[2] == Aspect::Landscape);
    if algorithm == Algorithm::V3 {
        assert(allowed[3] == Aspect::Tall);
        assert(allowed[4] == Aspect::Wide);
        assert(allowed[5] == Aspect::UltraWide);
    }
}

/// Whatever the aspect was, after a change of algorithm it is one that the
/// new algorithm permits. A permitted aspect is kept; `Tall` becomes
/// `Portrait`, `Wide` and `UltraWide` become `Landscape`. In particular
/// `Square`, `Portrait` and `Landscape` survive every change.
pub proof fn lemma_remap(algorithm: Algorithm, aspect: Aspect)
    ensures
        algorithm.permits(algorithm.remapped(aspect)),
        algorithm.permits(aspect) ==> algorithm.remapped(aspect) == aspect,
        !algorithm.permits(aspect) ==> algorithm.remapped(aspect) == (match aspect {
            Aspect::Tall => Aspect::Portrait,
            _ => Aspect::Landscape,
        }),
        aspect == Aspect::Square || aspect == Aspect::Portrait || aspect == Aspect::Landscape
            ==> algorithm.remapped(aspect) == aspect,
        algorithm.remapped(algorithm.remapped(aspect)) == algorithm.remapped(aspect),
{
    lemma_permits(algorithm, aspect);
    lemma_permits(algorithm, algorithm.remapped(aspect));
}

/// No two algorithms share a name, so a stored name leads back to its algorithm.
pub proof fn lemma_algorithm_names(a: Algorithm)
    ensures
        Algorithm::named(a.name()) == Some(a),
{
    reveal_strlit("v3");
    reveal_strlit("test");
    reveal_strlit("testp");
    assert("v3"@.len() == 2);
    assert("test"@.len() == 4);
    assert("testp"@.len() == 5);
}

} // verus!
