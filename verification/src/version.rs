//! Semantic versions: the parsed form of a version token, the hardcoded
//! minimum required of the installed tool, and the precedence comparison
//! against it.

use vstd::prelude::*;

verus! {

/// A parsed semantic version: the numeric triple together with the raw
/// pre-release and build-metadata text (both empty for a plain release).
#[derive(Debug, Clone, PartialEq, Eq)]
pub struct SemVer {
    pub major: u64,
    pub minor: u64,
    pub patch: u64,
    pub prerelease: String,
    pub build: String,
}

/// The mathematical content of a `SemVer`.
pub struct SemVerView {
    pub major: u64,
    pub minor: u64,
    pub patch: u64,
    pub prerelease: Seq<char>,
    pub build: Seq<char>,
}

impl View for SemVer {
    type V = SemVerView;

    open spec fn view(&self) -> SemVerView {
        SemVerView {
            major: self.major,
            minor: self.minor,
            patch: self.patch,
            prerelease: self.prerelease@,
            build: self.build@,
        }
    }
}

/// The least git version the tool will work with: 2.30.0, a plain release.
pub open spec fn spec_minimum_git_version() -> SemVerView {
    SemVerView {
        major: 2,
        minor: 30,
        patch: 0,
        prerelease: Seq::<char>::empty(),
        build: Seq::<char>::empty(),
    }
}

/// The hardcoded minimum git version, constructed once per use and never
/// mutated; its validity is settled here by construction.
pub fn minimum_git_version() -> (v: SemVer)
    ensures
        v@ == spec_minimum_git_version(),
{
    SemVer { major: 2, minor: 30, patch: 0, prerelease: String::new(), build: String::new() }
}

/// Strict semantic-version precedence against a plain release: earlier in the
/// numeric triple, or the same triple carrying a pre-release tag (a
/// pre-release sorts before the corresponding release).
pub open spec fn spec_precedes_release(v: SemVerView, released: SemVerView) -> bool
    recommends
        released.prerelease.len() == 0,
{
    ||| v.major < released.major
    ||| (v.major == released.major && v.minor < released.minor)
    ||| (v.major == released.major && v.minor == released.minor && v.patch < released.patch)
    ||| (v.major == released.major && v.minor == released.minor && v.patch == released.patch
        && v.prerelease.len() > 0)
}

impl SemVer {
    /// Whether `self` is strictly earlier than the plain release `released`
    /// under semantic-version precedence.
    pub fn precedes_release(&self, released: &SemVer) -> (r: bool)
        requires
            released@.prerelease.len() == 0,
        ensures
            r == spec_precedes_release(self@, released@),
    {
        if self.major != released.major {
            self.major < released.major
        } else if self.minor != released.minor {
            self.minor < released.minor
        } else if self.patch != released.patch {
            self.patch < released.patch
        } else {
            !self.prerelease.as_str().is_empty()
        }
    }
}

/// The decimal digit character for a value below ten.
pub open spec fn spec_digit_char(d: nat) -> char
    recommends
        d < 10,
{
    if d == 0 {
        '0'
    } else if d == 1 {
        '1'
    } else if d == 2 {
        '2'
    } else if d == 3 {
        '3'
    } else if d == 4 {
        '4'
    } else if d == 5 {
        '5'
    } else if d == 6 {
        '6'
    } else if d == 7 {
        '7'
    } else if d == 8 {
        '8'
    } else {
        '9'
    }
}

/// The decimal rendering of a natural number, without leading zeros.
pub open spec fn spec_decimal(n: nat) -> Seq<char>
    decreases n,
{
    if n < 10 {
        seq![spec_digit_char(n)]
    } else {
        spec_decimal(n / 10) + seq![spec_digit_char(n % 10)]
    }
}

fn digit_str(d: u64) -> (s: &'static str)
    requires
        d < 10,
    ensures
        s@ == seq![spec_digit_char(d as nat)],
{
    proof {
        reveal_strlit("0");
        reveal_strlit("1");
        reveal_strlit("2");
        reveal_strlit("3");
        reveal_strlit("4");
        reveal_strlit("5");
        reveal_strlit("6");
        reveal_strlit("7");
        reveal_strlit("8");
        reveal_strlit("9");
    }
    let s: &'static str = match d {
        0 => "0",
        1 => "1",
        2 => "2",
        3 => "3",
        4 => "4",
        5 => "5",
        6 => "6",
        7 => "7",
        8 => "8",
        _ => "9",
    };
    proof {
        assert(s@ =~= seq![spec_digit_char(d as nat)]);
    }
    s
}

/// Renders a number in decimal, matching its mathematical rendering digit for
/// digit.
pub fn u64_to_decimal(n: u64) -> (s: String)
    ensures
        s@ == spec_decimal(n as nat),
    decreases n,
{
    if n < 10 {
        String::from_str(digit_str(n))
    } else {
        let mut s = u64_to_decimal(n / 10);
        s.append(digit_str(n % 10));
        s
    }
}

/// The display form of a version: `major.minor.patch`, then `-prerelease`
/// when a pre-release tag is present, then `+build` when build metadata is
/// present.
pub open spec fn spec_version_chars(v: SemVerView) -> Seq<char> {
    spec_decimal(v.major as nat) + "."@ + spec_decimal(v.minor as nat) + "."@ + spec_decimal(
        v.patch as nat,
    ) + (if v.prerelease.len() > 0 {
        "-"@ + v.prerelease
    } else {
        Seq::<char>::empty()
    }) + (if v.build.len() > 0 {
        "+"@ + v.build
    } else {
        Seq::<char>::empty()
    })
}

/// Renders a version in its display form.
pub fn version_string(v: &SemVer) -> (s: String)
    ensures
        s@ == spec_version_chars(v@),
{
    let mut s = u64_to_decimal(v.major);
    s.append(".");
    let minor = u64_to_decimal(v.minor);
    s.append(minor.as_str());
    s.append(".");
    let patch = u64_to_decimal(v.patch);
    s.append(patch.as_str());
    if !v.prerelease.as_str().is_empty() {
        s.append("-");
        s.append(v.prerelease.as_str());
    }
    if !v.build.as_str().is_empty() {
        s.append("+");
        s.append(v.build.as_str());
    }
    proof {
        assert(s@ =~= spec_version_chars(v@));
    }
    s
}

/// The outcome of `semver::Version::parse` on the given text: the parsed
/// version, or the parser's error text. A pure function of the text alone.
pub uninterp spec fn semver_parse(text: Seq<char>) -> Result<SemVerView, Seq<char>>;

/// Relies on `semver::Version::parse`: parsing is a pure function of the
/// text, yielding the numeric triple with its pre-release and build-metadata
/// identifiers, or an error whose text describes the first offence.
#[verifier::external_body]
pub(crate) fn parse_version_token(text: &str) -> (r: Result<SemVer, String>)
    ensures
        r matches Ok(v) ==> (semver_parse(text@) matches Ok(w) && v@ == w),
        r matches Err(e) ==> (semver_parse(text@) matches Err(d) && e@ == d),
{
    match semver::Version::parse(text) {
        Ok(v) => Ok(
            SemVer {
                major: v.major,
                minor: v.minor,
                patch: v.patch,
                prerelease: v.pre.as_str().to_string(),
                build: v.build.as_str().to_string(),
            },
        ),
        Err(e) => Err(format!("{}", e)),
    }
}

} // verus!
