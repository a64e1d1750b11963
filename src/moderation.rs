//! Content moderation.
//!
//! rustrict classifies text into categories (profane, offensive, sexual, mean,
//! evasive, spam), each with a severity: mild, moderate or severe. The result is
//! kept here as the flag word of rustrict's `Type`: three bits per category, the
//! lowest for mild, the next for moderate, the highest for severe. A policy is a
//! mask of flags; content is blocked when its analysis meets any flag of the mask.

use vstd::prelude::*;

verus! {

/// The three severity flags of each category.
pub const PROFANE: u32 = 0b111;
pub const OFFENSIVE: u32 = 0b111_000;
pub const SEXUAL: u32 = 0b111_000_000;
pub const MEAN: u32 = 0b111_000_000_000;
pub const EVASIVE: u32 = 0b111_000_000_000_000;
pub const SPAM: u32 = 0b111_000_000_000_000_000;
/// One of rustrict's few known-safe phrases.
pub const SAFE: u32 = 0b1_000_000_000_000_000_000;

/// One severity across every category.
pub const MILD: u32 = 0b001_001_001_001_001_001;
pub const MODERATE: u32 = 0b010_010_010_010_010_010;
pub const SEVERE: u32 = 0b100_100_100_100_100_100;
pub const MODERATE_OR_HIGHER: u32 = MODERATE | SEVERE;

/// What rustrict's analysis of `text` reports, as its flag word.
pub uninterp spec fn censor_flags(text: Seq<char>) -> u32;

/// Relies on rustrict's `Censor::from_str(..).analyze()` with its built-in word
/// lists, whose result depends on the text alone, read out with `Type::bits`.
#[verifier::external_body]
fn censor_analysis(text: &str) -> (r: u32)
    ensures
        r == censor_flags(text@),
{
    #[allow(deprecated)]
    rustrict::Censor::from_str(text).analyze().bits()
}

/// The analysis of a piece of content.
#[derive(Clone, Copy, Debug, PartialEq, Eq)]
pub struct Verdict {
    pub flags: u32,
}

impl Verdict {
    /// Analyses `text`.
    pub fn of_text(text: &str) -> (r: Verdict)
        ensures
            r.flags == censor_flags(text@),
    {
        Verdict { flags: censor_analysis(text) }
    }

    /// Whether the analysis meets `threshold`: they share at least one flag.
    pub fn is(&self, threshold: u32) -> (r: bool)
        ensures
            r == (self.flags & threshold != 0),
    {
        self.flags & threshold != 0
    }
}

/// The rule that decides which content is refused.
#[derive(Clone, Copy, Debug, PartialEq, Eq)]
pub enum Policy {
    /// Refuses sexual content of moderate or higher severity, and any offensive
    /// or mean content. This is the default.
    Standard,
    /// Refuses severe content of any category, and any sexual content.
    SevereOrSexual,
}

/// The flags that `policy` refuses.
pub open spec fn policy_mask(policy: Policy) -> u32 {
    match policy {
        Policy::Standard => (SEXUAL & MODERATE_OR_HIGHER) | OFFENSIVE | MEAN,
        Policy::SevereOrSexual => SEVERE | SEXUAL,
    }
}

/// Whether `policy` refuses content whose analysis is `flags`.
pub open spec fn blocks(policy: Policy, flags: u32) -> bool {
    flags & policy_mask(policy) != 0
}

impl Policy {
    /// The flags that this policy refuses.
    pub fn mask(&self) -> (r: u32)
        ensures
            r == policy_mask(*self),
    {
        match self {
            Policy::Standard => (SEXUAL & MODERATE_OR_HIGHER) | OFFENSIVE | MEAN,
            Policy::SevereOrSexual => SEVERE | SEXUAL,
        }
    }

    /// Whether this policy refuses content with the analysis `verdict`.
    pub fn is_blocked(&self, verdict: &Verdict) -> (r: bool)
        ensures
            r == blocks(*self, verdict.flags),
    {
        verdict.is(self.mask())
    }
}

} // verus!
