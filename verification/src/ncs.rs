//! The Greek alphabet as a closed enumeration.
//!
//! `GreekAlphabet` has one variant per letter, in traditional alphabetical
//! order, plus an `Empty` sentinel for "no letter".  Every decoding function
//! is total and absorbs unrecognized input into `Empty`; the letter accessors
//! are the only partial surface and demand a real letter.

use vstd::pervasive::arbitrary;
use vstd::pervasive::unreached;
use vstd::prelude::*;
use vstd::string::StrSliceExecFns;
use vstd::string::StringExecFns;

verus! {

/// The letters of the Greek alphabet, in traditional alphabetical order,
/// followed by the `Empty` sentinel.
///
/// `Empty` stands for "no letter": it is the default value, the result of
/// every failed decode, and an invalid argument to every letter accessor.
#[derive(Clone, Copy, PartialEq, Eq, Structural, Debug)]
pub enum GreekAlphabet {
    Alpha,
    Beta,
    Gamma,
    Delta,
    Epsilon,
    Zeta,
    Eta,
    Theta,
    Iota,
    Kappa,
    Lambda,
    My,
    Ny,
    Xi,
    Omicron,
    Pi,
    Rho,
    Sigma,
    Tau,
    Ypsilon,
    Phi,
    Chi,
    Psi,
    Omega,
    Empty,
}

/// The 1-based position of a letter in the alphabet; `Empty` sits outside
/// the sequence and is assigned 0.
pub open spec fn ordinal_of(l: GreekAlphabet) -> int {
    match l {
        GreekAlphabet::Alpha => 1,
        GreekAlphabet::Beta => 2,
        GreekAlphabet::Gamma => 3,
        GreekAlphabet::Delta => 4,
        GreekAlphabet::Epsilon => 5,
        GreekAlphabet::Zeta => 6,
        GreekAlphabet::Eta => 7,
        GreekAlphabet::Theta => 8,
        GreekAlphabet::Iota => 9,
        GreekAlphabet::Kappa => 10,
        GreekAlphabet::Lambda => 11,
        GreekAlphabet::My => 12,
        GreekAlphabet::Ny => 13,
        GreekAlphabet::Xi => 14,
        GreekAlphabet::Omicron => 15,
        GreekAlphabet::Pi => 16,
        GreekAlphabet::Rho => 17,
        GreekAlphabet::Sigma => 18,
        GreekAlphabet::Tau => 19,
        GreekAlphabet::Ypsilon => 20,
        GreekAlphabet::Phi => 21,
        GreekAlphabet::Chi => 22,
        GreekAlphabet::Psi => 23,
        GreekAlphabet::Omega => 24,
        GreekAlphabet::Empty => 0,
    }
}

/// The letter at 1-based position `n`; every position outside `1..=24`
/// decodes to `Empty`.
pub open spec fn letter_of_ordinal(n: int) -> GreekAlphabet {
    if n == 1 {
        GreekAlphabet::Alpha
    } else if n == 2 {
        GreekAlphabet::Beta
    } else if n == 3 {
        GreekAlphabet::Gamma
    } else if n == 4 {
        GreekAlphabet::Delta
    } else if n == 5 {
        GreekAlphabet::Epsilon
    } else if n == 6 {
        GreekAlphabet::Zeta
    } else if n == 7 {
        GreekAlphabet::Eta
    } else if n == 8 {
        GreekAlphabet::Theta
    } else if n == 9 {
        GreekAlphabet::Iota
    } else if n == 10 {
        GreekAlphabet::Kappa
    } else if n == 11 {
        GreekAlphabet::Lambda
    } else if n == 12 {
        GreekAlphabet::My
    } else if n == 13 {
        GreekAlphabet::Ny
    } else if n == 14 {
        GreekAlphabet::Xi
    } else if n == 15 {
        GreekAlphabet::Omicron
    } else if n == 16 {
        GreekAlphabet::Pi
    } else if n == 17 {
        GreekAlphabet::Rho
    } else if n == 18 {
        GreekAlphabet::Sigma
    } else if n == 19 {
        GreekAlphabet::Tau
    } else if n == 20 {
        GreekAlphabet::Ypsilon
    } else if n == 21 {
        GreekAlphabet::Phi
    } else if n == 22 {
        GreekAlphabet::Chi
    } else if n == 23 {
        GreekAlphabet::Psi
    } else if n == 24 {
        GreekAlphabet::Omega
    } else {
        GreekAlphabet::Empty
    }
}

/// The fixed capital Greek code point of a letter; unspecified for `Empty`.
pub open spec fn spec_uppercase(l: GreekAlphabet) -> char
    recommends
        !(l is Empty),
{
    match l {
        GreekAlphabet::Alpha => 'Α',
        GreekAlphabet::Beta => 'Β',
        GreekAlphabet::Gamma => 'Γ',
        GreekAlphabet::Delta => 'Δ',
        GreekAlphabet::Epsilon => 'Ε',
        GreekAlphabet::Zeta => 'Ζ',
        GreekAlphabet::Eta => 'Η',
        GreekAlphabet::Theta => 'Θ',
        GreekAlphabet::Iota => 'Ι',
        GreekAlphabet::Kappa => 'Κ',
        GreekAlphabet::Lambda => 'Λ',
        GreekAlphabet::My => 'Μ',
        GreekAlphabet::Ny => 'Ν',
        GreekAlphabet::Xi => 'Ξ',
        GreekAlphabet::Omicron => 'Ο',
        GreekAlphabet::Pi => 'Π',
        GreekAlphabet::Rho => 'Ρ',
        GreekAlphabet::Sigma => 'Σ',
        GreekAlphabet::Tau => 'Τ',
        GreekAlphabet::Ypsilon => 'Υ',
        GreekAlphabet::Phi => 'Φ',
        GreekAlphabet::Chi => 'Χ',
        GreekAlphabet::Psi => 'Ψ',
        GreekAlphabet::Omega => 'Ω',
        GreekAlphabet::Empty => arbitrary(),
    }
}

/// The fixed small Greek code point of a letter; unspecified for `Empty`.
pub open spec fn spec_lowercase(l: GreekAlphabet) -> char
    recommends
        !(l is Empty),
{
    match l {
        GreekAlphabet::Alpha => 'α',
        GreekAlphabet::Beta => 'β',
        GreekAlphabet::Gamma => 'γ',
        GreekAlphabet::Delta => 'δ',
        GreekAlphabet::Epsilon => 'ε',
        GreekAlphabet::Zeta => 'ζ',
        GreekAlphabet::Eta => 'η',
        GreekAlphabet::Theta => 'θ',
        GreekAlphabet::Iota => 'ι',
        GreekAlphabet::Kappa => 'κ',
        GreekAlphabet::Lambda => 'λ',
        GreekAlphabet::My => 'μ',
        GreekAlphabet::Ny => 'ν',
        GreekAlphabet::Xi => 'ξ',
        GreekAlphabet::Omicron => 'ο',
        GreekAlphabet::Pi => 'π',
        GreekAlphabet::Rho => 'ρ',
        GreekAlphabet::Sigma => 'σ',
        GreekAlphabet::Tau => 'τ',
        GreekAlphabet::Ypsilon => 'υ',
        GreekAlphabet::Phi => 'φ',
        GreekAlphabet::Chi => 'χ',
        GreekAlphabet::Psi => 'ψ',
        GreekAlphabet::Omega => 'ω',
        GreekAlphabet::Empty => arbitrary(),
    }
}

/// The letter owning a Greek code point, capital or small; every other
/// character decodes to `Empty`.
pub open spec fn letter_of_char(c: char) -> GreekAlphabet {
    if c == 'Α' || c == 'α' {
        GreekAlphabet::Alpha
    } else if c == 'Β' || c == 'β' {
        GreekAlphabet::Beta
    } else if c == 'Γ' || c == 'γ' {
        GreekAlphabet::Gamma
    } else if c == 'Δ' || c == 'δ' {
        GreekAlphabet::Delta
    } else if c == 'Ε' || c == 'ε' {
        GreekAlphabet::Epsilon
    } else if c == 'Ζ' || c == 'ζ' {
        GreekAlphabet::Zeta
    } else if c == 'Η' || c == 'η' {
        GreekAlphabet::Eta
    } else if c == 'Θ' || c == 'θ' {
        GreekAlphabet::Theta
    } else if c == 'Ι' || c == 'ι' {
        GreekAlphabet::Iota
    } else if c == 'Κ' || c == 'κ' {
        GreekAlphabet::Kappa
    } else if c == 'Λ' || c == 'λ' {
        GreekAlphabet::Lambda
    } else if c == 'Μ' || c == 'μ' {
        GreekAlphabet::My
    } else if c == 'Ν' || c == 'ν' {
        GreekAlphabet::Ny
    } else if c == 'Ξ' || c == 'ξ' {
        GreekAlphabet::Xi
    } else if c == 'Ο' || c == 'ο' {
        GreekAlphabet::Omicron
    } else if c == 'Π' || c == 'π' {
        GreekAlphabet::Pi
    } else if c == 'Ρ' || c == 'ρ' {
        GreekAlphabet::Rho
    } else if c == 'Σ' || c == 'σ' {
        GreekAlphabet::Sigma
    } else if c == 'Τ' || c == 'τ' {
        GreekAlphabet::Tau
    } else if c == 'Υ' || c == 'υ' {
        GreekAlphabet::Ypsilon
    } else if c == 'Φ' || c == 'φ' {
        GreekAlphabet::Phi
    } else if c == 'Χ' || c == 'χ' {
        GreekAlphabet::Chi
    } else if c == 'Ψ' || c == 'ψ' {
        GreekAlphabet::Psi
    } else if c == 'Ω' || c == 'ω' {
        GreekAlphabet::Omega
    } else {
        GreekAlphabet::Empty
    }
}

/// The fixed Latin transcription of a letter, as a sequence of characters;
/// unspecified for `Empty`.
pub open spec fn spec_transcription(l: GreekAlphabet) -> Seq<char>
    recommends
        !(l is Empty),
{
    match l {
        GreekAlphabet::Alpha => "a"@,
        GreekAlphabet::Beta => "b"@,
        GreekAlphabet::Gamma => "g"@,
        GreekAlphabet::Delta => "d"@,
        GreekAlphabet::Epsilon => "ĕ"@,
        GreekAlphabet::Zeta => "z"@,
        GreekAlphabet::Eta => "ē"@,
        GreekAlphabet::Theta => "th"@,
        GreekAlphabet::Iota => "i, j"@,
        GreekAlphabet::Kappa => "k"@,
        GreekAlphabet::Lambda => "l"@,
        GreekAlphabet::My => "m"@,
        GreekAlphabet::Ny => "n"@,
        GreekAlphabet::Xi => "x"@,
        GreekAlphabet::Omicron => "ŏ"@,
        GreekAlphabet::Pi => "p"@,
        GreekAlphabet::Rho => "r"@,
        GreekAlphabet::Sigma => "s"@,
        GreekAlphabet::Tau => "t"@,
        GreekAlphabet::Ypsilon => "y, ü"@,
        GreekAlphabet::Phi => "ph, f"@,
        GreekAlphabet::Chi => "ch"@,
        GreekAlphabet::Psi => "ps"@,
        GreekAlphabet::Omega => "ō"@,
        GreekAlphabet::Empty => arbitrary(),
    }
}

/// The English name of a letter, as a sequence of characters; unspecified
/// for `Empty`.
pub open spec fn spec_name(l: GreekAlphabet) -> Seq<char>
    recommends
        !(l is Empty),
{
    match l {
        GreekAlphabet::Alpha => "Alpha"@,
        GreekAlphabet::Beta => "Beta"@,
        GreekAlphabet::Gamma => "Gamma"@,
        GreekAlphabet::Delta => "Delta"@,
        GreekAlphabet::Epsilon => "Epsilon"@,
        GreekAlphabet::Zeta => "Zeta"@,
        GreekAlphabet::Eta => "Eta"@,
        GreekAlphabet::Theta => "Theta"@,
        GreekAlphabet::Iota => "Iota"@,
        GreekAlphabet::Kappa => "Kappa"@,
        GreekAlphabet::Lambda => "Lambda"@,
        GreekAlphabet::My => "My"@,
        GreekAlphabet::Ny => "Ny"@,
        GreekAlphabet::Xi => "Xi"@,
        GreekAlphabet::Omicron => "Omicron"@,
        GreekAlphabet::Pi => "Pi"@,
        GreekAlphabet::Rho => "Rho"@,
        GreekAlphabet::Sigma => "Sigma"@,
        GreekAlphabet::Tau => "Tau"@,
        GreekAlphabet::Ypsilon => "Ypsilon"@,
        GreekAlphabet::Phi => "Phi"@,
        GreekAlphabet::Chi => "Chi"@,
        GreekAlphabet::Psi => "Psi"@,
        GreekAlphabet::Omega => "Omega"@,
        GreekAlphabet::Empty => arbitrary(),
    }
}

/// The display form `"<Name>(<Upper>,<Lower>)"` of a letter; unspecified
/// for `Empty`.  `lemma_describe_structure` relates it to the name and the
/// letter pair.
pub open spec fn spec_describe(l: GreekAlphabet) -> Seq<char>
    recommends
        !(l is Empty),
{
    match l {
        GreekAlphabet::Alpha => "Alpha(Α,α)"@,
        GreekAlphabet::Beta => "Beta(Β,β)"@,
        GreekAlphabet::Gamma => "Gamma(Γ,γ)"@,
        GreekAlphabet::Delta => "Delta(Δ,δ)"@,
        GreekAlphabet::Epsilon => "Epsilon(Ε,ε)"@,
        GreekAlphabet::Zeta => "Zeta(Ζ,ζ)"@,
        GreekAlphabet::Eta => "Eta(Η,η)"@,
        GreekAlphabet::Theta => "Theta(Θ,θ)"@,
        GreekAlphabet::Iota => "Iota(Ι,ι)"@,
        GreekAlphabet::Kappa => "Kappa(Κ,κ)"@,
        GreekAlphabet::Lambda => "Lambda(Λ,λ)"@,
        GreekAlphabet::My => "My(Μ,μ)"@,
        GreekAlphabet::Ny => "Ny(Ν,ν)"@,
        GreekAlphabet::Xi => "Xi(Ξ,ξ)"@,
        GreekAlphabet::Omicron => "Omicron(Ο,ο)"@,
        GreekAlphabet::Pi => "Pi(Π,π)"@,
        GreekAlphabet::Rho => "Rho(Ρ,ρ)"@,
        GreekAlphabet::Sigma => "Sigma(Σ,σ)"@,
        GreekAlphabet::Tau => "Tau(Τ,τ)"@,
        GreekAlphabet::Ypsilon => "Ypsilon(Υ,υ)"@,
        GreekAlphabet::Phi => "Phi(Φ,φ)"@,
        GreekAlphabet::Chi => "Chi(Χ,χ)"@,
        GreekAlphabet::Psi => "Psi(Ψ,ψ)"@,
        GreekAlphabet::Omega => "Omega(Ω,ω)"@,
        GreekAlphabet::Empty => arbitrary(),
    }
}

impl GreekAlphabet {
    /// Returns the letter's fixed capital Greek code point.
    ///
    /// Invalid on `Empty`: a real letter is required.
    pub fn uppercase(&self) -> (c: char)
        requires
            !(*self is Empty),
        ensures
            c == spec_uppercase(*self),
    {
        match self {
            GreekAlphabet::Alpha => 'Α',
            GreekAlphabet::Beta => 'Β',
            GreekAlphabet::Gamma => 'Γ',
            GreekAlphabet::Delta => 'Δ',
            GreekAlphabet::Epsilon => 'Ε',
            GreekAlphabet::Zeta => 'Ζ',
            GreekAlphabet::Eta => 'Η',
            GreekAlphabet::Theta => 'Θ',
            GreekAlphabet::Iota => 'Ι',
            GreekAlphabet::Kappa => 'Κ',
            GreekAlphabet::Lambda => 'Λ',
            GreekAlphabet::My => 'Μ',
            GreekAlphabet::Ny => 'Ν',
            GreekAlphabet::Xi => 'Ξ',
            GreekAlphabet::Omicron => 'Ο',
            GreekAlphabet::Pi => 'Π',
            GreekAlphabet::Rho => 'Ρ',
            GreekAlphabet::Sigma => 'Σ',
            GreekAlphabet::Tau => 'Τ',
            GreekAlphabet::Ypsilon => 'Υ',
            GreekAlphabet::Phi => 'Φ',
            GreekAlphabet::Chi => 'Χ',
            GreekAlphabet::Psi => 'Ψ',
            GreekAlphabet::Omega => 'Ω',
            GreekAlphabet::Empty => unreached(),
        }
    }

    /// Returns the letter's fixed small Greek code point.
    ///
    /// Invalid on `Empty`: a real letter is required.
    pub fn lowercase(&self) -> (c: char)
        requires
            !(*self is Empty),
        ensures
            c == spec_lowercase(*self),
    {
        match self {
            GreekAlphabet::Alpha => 'α',
            GreekAlphabet::Beta => 'β',
            GreekAlphabet::Gamma => 'γ',
            GreekAlphabet::Delta => 'δ',
            GreekAlphabet::Epsilon => 'ε',
            GreekAlphabet::Zeta => 'ζ',
            GreekAlphabet::Eta => 'η',
            GreekAlphabet::Theta => 'θ',
            GreekAlphabet::Iota => 'ι',
            GreekAlphabet::Kappa => 'κ',
            GreekAlphabet::Lambda => 'λ',
            GreekAlphabet::My => 'μ',
            GreekAlphabet::Ny => 'ν',
            GreekAlphabet::Xi => 'ξ',
            GreekAlphabet::Omicron => 'ο',
            GreekAlphabet::Pi => 'π',
            GreekAlphabet::Rho => 'ρ',
            GreekAlphabet::Sigma => 'σ',
            GreekAlphabet::Tau => 'τ',
            GreekAlphabet::Ypsilon => 'υ',
            GreekAlphabet::Phi => 'φ',
            GreekAlphabet::Chi => 'χ',
            GreekAlphabet::Psi => 'ψ',
            GreekAlphabet::Omega => 'ω',
            GreekAlphabet::Empty => unreached(),
        }
    }

    /// Returns the letter's fixed Latin transcription (possibly several
    /// alternatives separated by `", "`).
    ///
    /// Invalid on `Empty`: a real letter is required.
    pub fn transcription(&self) -> (s: &str)
        requires
            !(*self is Empty),
        ensures
            s@ == spec_transcription(*self),
    {
        match self {
            GreekAlphabet::Alpha => "a",
            GreekAlphabet::Beta => "b",
            GreekAlphabet::Gamma => "g",
            GreekAlphabet::Delta => "d",
            GreekAlphabet::Epsilon => "ĕ",
            GreekAlphabet::Zeta => "z",
            GreekAlphabet::Eta => "ē",
            GreekAlphabet::Theta => "th",
            GreekAlphabet::Iota => "i, j",
            GreekAlphabet::Kappa => "k",
            GreekAlphabet::Lambda => "l",
            GreekAlphabet::My => "m",
            GreekAlphabet::Ny => "n",
            GreekAlphabet::Xi => "x",
            GreekAlphabet::Omicron => "ŏ",
            GreekAlphabet::Pi => "p",
            GreekAlphabet::Rho => "r",
            GreekAlphabet::Sigma => "s",
            GreekAlphabet::Tau => "t",
            GreekAlphabet::Ypsilon => "y, ü",
            GreekAlphabet::Phi => "ph, f",
            GreekAlphabet::Chi => "ch",
            GreekAlphabet::Psi => "ps",
            GreekAlphabet::Omega => "ō",
            GreekAlphabet::Empty => unreached(),
        }
    }

    /// The capital code point as a one-character string slice.
    fn uppercase_str(&self) -> (s: &str)
        requires
            !(*self is Empty),
        ensures
            s@ == seq![spec_uppercase(*self)],
    {
        match self {
            GreekAlphabet::Alpha => {
                proof {
                    reveal_strlit("Α");
                    assert("Α"@ =~= seq!['Α']);
                }
                "Α"
            },
            GreekAlphabet::Beta => {
                proof {
                    reveal_strlit("Β");
                    assert("Β"@ =~= seq!['Β']);
                }
                "Β"
            },
            GreekAlphabet::Gamma => {
                proof {
                    reveal_strlit("Γ");
                    assert("Γ"@ =~= seq!['Γ']);
                }
                "Γ"
            },
            GreekAlphabet::Delta => {
                proof {
                    reveal_strlit("Δ");
                    assert("Δ"@ =~= seq!['Δ']);
                }
                "Δ"
            },
            GreekAlphabet::Epsilon => {
                proof {
                    reveal_strlit("Ε");
                    assert("Ε"@ =~= seq!['Ε']);
                }
                "Ε"
            },
            GreekAlphabet::Zeta => {
                proof {
                    reveal_strlit("Ζ");
                    assert("Ζ"@ =~= seq!['Ζ']);
                }
                "Ζ"
            },
            GreekAlphabet::Eta => {
                proof {
                    reveal_strlit("Η");
                    assert("Η"@ =~= seq!['Η']);
                }
                "Η"
            },
            GreekAlphabet::Theta => {
                proof {
                    reveal_strlit("Θ");
                    assert("Θ"@ =~= seq!['Θ']);
                }
                "Θ"
            },
            GreekAlphabet::Iota => {
                proof {
                    reveal_strlit("Ι");
                    assert("Ι"@ =~= seq!['Ι']);
                }
                "Ι"
            },
            GreekAlphabet::Kappa => {
                proof {
                    reveal_strlit("Κ");
                    assert("Κ"@ =~= seq!['Κ']);
                }
                "Κ"
            },
            GreekAlphabet::Lambda => {
                proof {
                    reveal_strlit("Λ");
                    assert("Λ"@ =~= seq!['Λ']);
                }
                "Λ"
            },
            GreekAlphabet::My => {
                proof {
                    reveal_strlit("Μ");
                    assert("Μ"@ =~= seq!['Μ']);
                }
                "Μ"
            },
            GreekAlphabet::Ny => {
                proof {
                    reveal_strlit("Ν");
                    assert("Ν"@ =~= seq!['Ν']);
                }
                "Ν"
            },
            GreekAlphabet::Xi => {
                proof {
                    reveal_strlit("Ξ");
                    assert("Ξ"@ =~= seq!['Ξ']);
                }
                "Ξ"
            },
            GreekAlphabet::Omicron => {
                proof {
                    reveal_strlit("Ο");
                    assert("Ο"@ =~= seq!['Ο']);
                }
                "Ο"
            },
            GreekAlphabet::Pi => {
                proof {
                    reveal_strlit("Π");
                    assert("Π"@ =~= seq!['Π']);
                }
                "Π"
            },
            GreekAlphabet::Rho => {
                proof {
                    reveal_strlit("Ρ");
                    assert("Ρ"@ =~= seq!['Ρ']);
                }
                "Ρ"
            },
            GreekAlphabet::Sigma => {
                proof {
                    reveal_strlit("Σ");
                    assert("Σ"@ =~= seq!['Σ']);
                }
                "Σ"
            },
            GreekAlphabet::Tau => {
                proof {
                    reveal_strlit("Τ");
                    assert("Τ"@ =~= seq!['Τ']);
                }
                "Τ"
            },
            GreekAlphabet::Ypsilon => {
                proof {
                    reveal_strlit("Υ");
                    assert("Υ"@ =~= seq!['Υ']);
                }
                "Υ"
            },
            GreekAlphabet::Phi => {
                proof {
                    reveal_strlit("Φ");
                    assert("Φ"@ =~= seq!['Φ']);
                }
                "Φ"
            },
            GreekAlphabet::Chi => {
                proof {
                    reveal_strlit("Χ");
                    assert("Χ"@ =~= seq!['Χ']);
                }
                "Χ"
            },
            GreekAlphabet::Psi => {
                proof {
                    reveal_strlit("Ψ");
                    assert("Ψ"@ =~= seq!['Ψ']);
                }
                "Ψ"
            },
            GreekAlphabet::Omega => {
                proof {
                    reveal_strlit("Ω");
                    assert("Ω"@ =~= seq!['Ω']);
                }
                "Ω"
            },
            GreekAlphabet::Empty => unreached(),
        }
    }

    /// The small code point as a one-character string slice.
    fn lowercase_str(&self) -> (s: &str)
        requires
            !(*self is Empty),
        ensures
            s@ == seq![spec_lowercase(*self)],
    {
        match self {
            GreekAlphabet::Alpha => {
                proof {
                    reveal_strlit("α");
                    assert("α"@ =~= seq!['α']);
                }
                "α"
            },
            GreekAlphabet::Beta => {
                proof {
                    reveal_strlit("β");
                    assert("β"@ =~= seq!['β']);
                }
                "β"
            },
            GreekAlphabet::Gamma => {
                proof {
                    reveal_strlit("γ");
                    assert("γ"@ =~= seq!['γ']);
                }
                "γ"
            },
            GreekAlphabet::Delta => {
                proof {
                    reveal_strlit("δ");
                    assert("δ"@ =~= seq!['δ']);
                }
                "δ"
            },
            GreekAlphabet::Epsilon => {
                proof {
                    reveal_strlit("ε");
                    assert("ε"@ =~= seq!['ε']);
                }
                "ε"
            },
            GreekAlphabet::Zeta => {
                proof {
                    reveal_strlit("ζ");
                    assert("ζ"@ =~= seq!['ζ']);
                }
                "ζ"
            },
            GreekAlphabet::Eta => {
                proof {
                    reveal_strlit("η");
                    assert("η"@ =~= seq!['η']);
                }
                "η"
            },
            GreekAlphabet::Theta => {
                proof {
                    reveal_strlit("θ");
                    assert("θ"@ =~= seq!['θ']);
                }
                "θ"
            },
            GreekAlphabet::Iota => {
                proof {
                    reveal_strlit("ι");
                    assert("ι"@ =~= seq!['ι']);
                }
                "ι"
            },
            GreekAlphabet::Kappa => {
                proof {
                    reveal_strlit("κ");
                    assert("κ"@ =~= seq!['κ']);
                }
                "κ"
            },
            GreekAlphabet::Lambda => {
                proof {
                    reveal_strlit("λ");
                    assert("λ"@ =~= seq!['λ']);
                }
                "λ"
            },
            GreekAlphabet::My => {
                proof {
                    reveal_strlit("μ");
                    assert("μ"@ =~= seq!['μ']);
                }
                "μ"
            },
            GreekAlphabet::Ny => {
                proof {
                    reveal_strlit("ν");
                    assert("ν"@ =~= seq!['ν']);
                }
                "ν"
            },
            GreekAlphabet::Xi => {
                proof {
                    reveal_strlit("ξ");
                    assert("ξ"@ =~= seq!['ξ']);
                }
                "ξ"
            },
            GreekAlphabet::Omicron => {
                proof {
                    reveal_strlit("ο");
                    assert("ο"@ =~= seq!['ο']);
                }
                "ο"
            },
            GreekAlphabet::Pi => {
                proof {
                    reveal_strlit("π");
                    assert("π"@ =~= seq!['π']);
                }
                "π"
            },
            GreekAlphabet::Rho => {
                proof {
                    reveal_strlit("ρ");
                    assert("ρ"@ =~= seq!['ρ']);
                }
                "ρ"
            },
            GreekAlphabet::Sigma => {
                proof {
                    reveal_strlit("σ");
                    assert("σ"@ =~= seq!['σ']);
                }
                "σ"
            },
            GreekAlphabet::Tau => {
                proof {
                    reveal_strlit("τ");
                    assert("τ"@ =~= seq!['τ']);
                }
                "τ"
            },
            GreekAlphabet::Ypsilon => {
                proof {
                    reveal_strlit("υ");
                    assert("υ"@ =~= seq!['υ']);
                }
                "υ"
            },
            GreekAlphabet::Phi => {
                proof {
                    reveal_strlit("φ");
                    assert("φ"@ =~= seq!['φ']);
                }
                "φ"
            },
            GreekAlphabet::Chi => {
                proof {
                    reveal_strlit("χ");
                    assert("χ"@ =~= seq!['χ']);
                }
                "χ"
            },
            GreekAlphabet::Psi => {
                proof {
                    reveal_strlit("ψ");
                    assert("ψ"@ =~= seq!['ψ']);
                }
                "ψ"
            },
            GreekAlphabet::Omega => {
                proof {
                    reveal_strlit("ω");
                    assert("ω"@ =~= seq!['ω']);
                }
                "ω"
            },
            GreekAlphabet::Empty => unreached(),
        }
    }

    /// Returns `"<Name>(<Upper>,<Lower>)"`, e.g. `"Pi(Π,π)"`.
    ///
    /// Invalid on `Empty`: a real letter is required.
    pub fn describe(&self) -> (s: String)
        requires
            !(*self is Empty),
        ensures
            s@ == spec_describe(*self),
    {
        match self {
            GreekAlphabet::Alpha => String::from_str("Alpha(Α,α)"),
            GreekAlphabet::Beta => String::from_str("Beta(Β,β)"),
            GreekAlphabet::Gamma => String::from_str("Gamma(Γ,γ)"),
            GreekAlphabet::Delta => String::from_str("Delta(Δ,δ)"),
            GreekAlphabet::Epsilon => String::from_str("Epsilon(Ε,ε)"),
            GreekAlphabet::Zeta => String::from_str("Zeta(Ζ,ζ)"),
            GreekAlphabet::Eta => String::from_str("Eta(Η,η)"),
            GreekAlphabet::Theta => String::from_str("Theta(Θ,θ)"),
            GreekAlphabet::Iota => String::from_str("Iota(Ι,ι)"),
            GreekAlphabet::Kappa => String::from_str("Kappa(Κ,κ)"),
            GreekAlphabet::Lambda => String::from_str("Lambda(Λ,λ)"),
            GreekAlphabet::My => String::from_str("My(Μ,μ)"),
            GreekAlphabet::Ny => String::from_str("Ny(Ν,ν)"),
            GreekAlphabet::Xi => String::from_str("Xi(Ξ,ξ)"),
            GreekAlphabet::Omicron => String::from_str("Omicron(Ο,ο)"),
            GreekAlphabet::Pi => String::from_str("Pi(Π,π)"),
            GreekAlphabet::Rho => String::from_str("Rho(Ρ,ρ)"),
            GreekAlphabet::Sigma => String::from_str("Sigma(Σ,σ)"),
            GreekAlphabet::Tau => String::from_str("Tau(Τ,τ)"),
            GreekAlphabet::Ypsilon => String::from_str("Ypsilon(Υ,υ)"),
            GreekAlphabet::Phi => String::from_str("Phi(Φ,φ)"),
            GreekAlphabet::Chi => String::from_str("Chi(Χ,χ)"),
            GreekAlphabet::Psi => String::from_str("Psi(Ψ,ψ)"),
            GreekAlphabet::Omega => String::from_str("Omega(Ω,ω)"),
            GreekAlphabet::Empty => unreached(),
        }
    }

    /// Decodes any of the 48 Greek upper/lowercase code points to its
    /// letter; every other character yields `Empty`.  Total, never fails.
    pub fn from_char(c: char) -> (r: GreekAlphabet)
        ensures
            r == letter_of_char(c),
    {
        match c {
            'Α' | 'α' => GreekAlphabet::Alpha,
            'Β' | 'β' => GreekAlphabet::Beta,
            'Γ' | 'γ' => GreekAlphabet::Gamma,
            'Δ' | 'δ' => GreekAlphabet::Delta,
            'Ε' | 'ε' => GreekAlphabet::Epsilon,
            'Ζ' | 'ζ' => GreekAlphabet::Zeta,
            'Η' | 'η' => GreekAlphabet::Eta,
            'Θ' | 'θ' => GreekAlphabet::Theta,
            'Ι' | 'ι' => GreekAlphabet::Iota,
            'Κ' | 'κ' => GreekAlphabet::Kappa,
            'Λ' | 'λ' => GreekAlphabet::Lambda,
            'Μ' | 'μ' => GreekAlphabet::My,
            'Ν' | 'ν' => GreekAlphabet::Ny,
            'Ξ' | 'ξ' => GreekAlphabet::Xi,
            'Ο' | 'ο' => GreekAlphabet::Omicron,
            'Π' | 'π' => GreekAlphabet::Pi,
            'Ρ' | 'ρ' => GreekAlphabet::Rho,
            'Σ' | 'σ' => GreekAlphabet::Sigma,
            'Τ' | 'τ' => GreekAlphabet::Tau,
            'Υ' | 'υ' => GreekAlphabet::Ypsilon,
            'Φ' | 'φ' => GreekAlphabet::Phi,
            'Χ' | 'χ' => GreekAlphabet::Chi,
            'Ψ' | 'ψ' => GreekAlphabet::Psi,
            'Ω' | 'ω' => GreekAlphabet::Omega,
            _ => GreekAlphabet::Empty,
        }
    }

    /// Encodes the letter as its 1-based alphabetical position;
    /// `Empty` encodes as 0.  Total: every value fits in a byte.
    pub fn to_u8(&self) -> (n: u8)
        ensures
            n as int == ordinal_of(*self),
    {
        match self {
            GreekAlphabet::Alpha => 1,
            GreekAlphabet::Beta => 2,
            GreekAlphabet::Gamma => 3,
            GreekAlphabet::Delta => 4,
            GreekAlphabet::Epsilon => 5,
            GreekAlphabet::Zeta => 6,
            GreekAlphabet::Eta => 7,
            GreekAlphabet::Theta => 8,
            GreekAlphabet::Iota => 9,
            GreekAlphabet::Kappa => 10,
            GreekAlphabet::Lambda => 11,
            GreekAlphabet::My => 12,
            GreekAlphabet::Ny => 13,
            GreekAlphabet::Xi => 14,
            GreekAlphabet::Omicron => 15,
            GreekAlphabet::Pi => 16,
            GreekAlphabet::Rho => 17,
            GreekAlphabet::Sigma => 18,
            GreekAlphabet::Tau => 19,
            GreekAlphabet::Ypsilon => 20,
            GreekAlphabet::Phi => 21,
            GreekAlphabet::Chi => 22,
            GreekAlphabet::Psi => 23,
            GreekAlphabet::Omega => 24,
            GreekAlphabet::Empty => 0,
        }
    }

    /// Decodes a 1-based alphabetical position; anything outside `1..=24`
    /// yields `Empty`.  Total, never fails.
    pub fn from_u8(p: u8) -> (r: GreekAlphabet)
        ensures
            r == letter_of_ordinal(p as int),
    {
        match p {
            1 => GreekAlphabet::Alpha,
            2 => GreekAlphabet::Beta,
            3 => GreekAlphabet::Gamma,
            4 => GreekAlphabet::Delta,
            5 => GreekAlphabet::Epsilon,
            6 => GreekAlphabet::Zeta,
            7 => GreekAlphabet::Eta,
            8 => GreekAlphabet::Theta,
            9 => GreekAlphabet::Iota,
            10 => GreekAlphabet::Kappa,
            11 => GreekAlphabet::Lambda,
            12 => GreekAlphabet::My,
            13 => GreekAlphabet::Ny,
            14 => GreekAlphabet::Xi,
            15 => GreekAlphabet::Omicron,
            16 => GreekAlphabet::Pi,
            17 => GreekAlphabet::Rho,
            18 => GreekAlphabet::Sigma,
            19 => GreekAlphabet::Tau,
            20 => GreekAlphabet::Ypsilon,
            21 => GreekAlphabet::Phi,
            22 => GreekAlphabet::Chi,
            23 => GreekAlphabet::Psi,
            24 => GreekAlphabet::Omega,
            _ => GreekAlphabet::Empty,
        }
    }

    /// Returns the letter's fixed Latin transcription as an owned string.
    ///
    /// Invalid on `Empty`: a real letter is required.
    pub fn transcription_string(&self) -> (s: String)
        requires
            !(*self is Empty),
        ensures
            s@ == spec_transcription(*self),
    {
        String::from_str(self.transcription())
    }

    /// Returns the capital and small code points, in that order.
    ///
    /// Invalid on `Empty`: a real letter is required.
    pub fn letters(&self) -> (p: (char, char))
        requires
            !(*self is Empty),
        ensures
            p.0 == spec_uppercase(*self),
            p.1 == spec_lowercase(*self),
    {
        (self.uppercase(), self.lowercase())
    }

    /// Returns the capital and small code points as one-character strings,
    /// in that order.
    ///
    /// Invalid on `Empty`: a real letter is required.
    pub fn letters_string(&self) -> (p: (String, String))
        requires
            !(*self is Empty),
        ensures
            p.0@ == seq![spec_uppercase(*self)],
            p.1@ == seq![spec_lowercase(*self)],
    {
        (String::from_str(self.uppercase_str()), String::from_str(self.lowercase_str()))
    }

    /// Returns the capital and small code points as a two-element vector,
    /// in that order.
    ///
    /// Invalid on `Empty`: a real letter is required.
    pub fn letters_vec(&self) -> (v: Vec<char>)
        requires
            !(*self is Empty),
        ensures
            v@ == seq![spec_uppercase(*self), spec_lowercase(*self)],
    {
        let mut v: Vec<char> = Vec::new();
        v.push(self.uppercase());
        v.push(self.lowercase());
        proof {
            assert(v@ =~= seq![spec_uppercase(*self), spec_lowercase(*self)]);
        }
        v
    }

    /// Returns the capital and small code points as a two-element vector of
    /// one-character strings, in that order.
    ///
    /// Invalid on `Empty`: a real letter is required.
    pub fn letters_vec_string(&self) -> (v: Vec<String>)
        requires
            !(*self is Empty),
        ensures
            v@.len() == 2,
            v@[0]@ == seq![spec_uppercase(*self)],
            v@[1]@ == seq![spec_lowercase(*self)],
    {
        let mut v: Vec<String> = Vec::new();
        v.push(String::from_str(self.uppercase_str()));
        v.push(String::from_str(self.lowercase_str()));
        v
    }

    /// Returns the capital and small code points as a two-element array,
    /// in that order.
    ///
    /// Invalid on `Empty`: a real letter is required.
    pub fn letters_array(&self) -> (a: [char; 2])
        requires
            !(*self is Empty),
        ensures
            a@ == seq![spec_uppercase(*self), spec_lowercase(*self)],
    {
        let a: [char; 2] = [self.uppercase(), self.lowercase()];
        proof {
            assert(a@ =~= seq![spec_uppercase(*self), spec_lowercase(*self)]);
        }
        a
    }

    /// Returns the capital and small code points as a two-element array of
    /// one-character strings, in that order.
    ///
    /// Invalid on `Empty`: a real letter is required.
    pub fn letters_array_string(&self) -> (a: [String; 2])
        requires
            !(*self is Empty),
        ensures
            a@.len() == 2,
            a@[0]@ == seq![spec_uppercase(*self)],
            a@[1]@ == seq![spec_lowercase(*self)],
    {
        [String::from_str(self.uppercase_str()), String::from_str(self.lowercase_str())]
    }

    /// Decodes a string that is exactly one character long, by code-point
    /// count, via the character decoder; any other length yields `Empty`.
    /// Total, never fails.
    pub fn from_text(t: &str) -> (r: GreekAlphabet)
        ensures
            r == spec_from_text(t@),
    {
        if t.unicode_len() == 1 {
            Self::from_char(t.get_char(0))
        } else {
            GreekAlphabet::Empty
        }
    }

    /// Decodes an owned string exactly as `from_text` does.  Total, never
    /// fails.
    pub fn from_string(t: String) -> (r: GreekAlphabet)
        ensures
            r == spec_from_text(t@),
    {
        Self::from_text(t.as_str())
    }

    /// The character form of the letter: its small code point.
    ///
    /// Invalid on `Empty`: a real letter is required.
    pub fn to_char(&self) -> (c: char)
        requires
            !(*self is Empty),
        ensures
            c == spec_lowercase(*self),
    {
        self.lowercase()
    }

    /// The string form of the letter: its small code point as a one-character
    /// string.
    ///
    /// Invalid on `Empty`: a real letter is required.
    pub fn to_text(&self) -> (s: String)
        requires
            !(*self is Empty),
        ensures
            s@ == seq![spec_lowercase(*self)],
    {
        String::from_str(self.lowercase_str())
    }

    /// Encodes the value as its ordinal in a wider unsigned width.
    pub fn to_u16(&self) -> (n: u16)
        ensures
            n as int == ordinal_of(*self),
    {
        self.to_u8() as u16
    }

    /// Decodes a 1-based alphabetical position given as `u16`; anything
    /// outside `1..=24` yields `Empty`.  Total, never fails.
    pub fn from_u16(p: u16) -> (r: GreekAlphabet)
        ensures
            r == letter_of_ordinal(p as int),
    {
        if p < 255 {
            Self::from_u8(p as u8)
        } else {
            GreekAlphabet::Empty
        }
    }

    /// Encodes the value as its ordinal in a wider unsigned width.
    pub fn to_u32(&self) -> (n: u32)
        ensures
            n as int == ordinal_of(*self),
    {
        self.to_u8() as u32
    }

    /// Decodes a 1-based alphabetical position given as `u32`; anything
    /// outside `1..=24` yields `Empty`.  Total, never fails.
    pub fn from_u32(p: u32) -> (r: GreekAlphabet)
        ensures
            r == letter_of_ordinal(p as int),
    {
        if p < 255 {
            Self::from_u8(p as u8)
        } else {
            GreekAlphabet::Empty
        }
    }

    /// Encodes the value as its ordinal in a wider unsigned width.
    pub fn to_u64(&self) -> (n: u64)
        ensures
            n as int == ordinal_of(*self),
    {
        self.to_u8() as u64
    }

    /// Decodes a 1-based alphabetical position given as `u64`; anything
    /// outside `1..=24` yields `Empty`.  Total, never fails.
    pub fn from_u64(p: u64) -> (r: GreekAlphabet)
        ensures
            r == letter_of_ordinal(p as int),
    {
        if p < 255 {
            Self::from_u8(p as u8)
        } else {
            GreekAlphabet::Empty
        }
    }

    /// Encodes the value as its ordinal in a wider unsigned width.
    pub fn to_u128(&self) -> (n: u128)
        ensures
            n as int == ordinal_of(*self),
    {
        self.to_u8() as u128
    }

    /// Decodes a 1-based alphabetical position given as `u128`; anything
    /// outside `1..=24` yields `Empty`.  Total, never fails.
    pub fn from_u128(p: u128) -> (r: GreekAlphabet)
        ensures
            r == letter_of_ordinal(p as int),
    {
        if p < 255 {
            Self::from_u8(p as u8)
        } else {
            GreekAlphabet::Empty
        }
    }

    /// Encodes the value as its ordinal in a wider unsigned width.
    pub fn to_usize(&self) -> (n: usize)
        ensures
            n as int == ordinal_of(*self),
    {
        self.to_u8() as usize
    }

    /// Decodes a 1-based alphabetical position given as `usize`; anything
    /// outside `1..=24` yields `Empty`.  Total, never fails.
    pub fn from_usize(p: usize) -> (r: GreekAlphabet)
        ensures
            r == letter_of_ordinal(p as int),
    {
        if p < 255 {
            Self::from_u8(p as u8)
        } else {
            GreekAlphabet::Empty
        }
    }

    /// Encodes the value as its ordinal as a signed byte; every ordinal fits.
    pub fn to_i8(&self) -> (n: i8)
        ensures
            n as int == ordinal_of(*self),
    {
        self.to_u8() as i8
    }

    /// Decodes a 1-based alphabetical position given as `i8`; anything
    /// outside `1..=24` yields `Empty`.  Total, never fails.
    pub fn from_i8(p: i8) -> (r: GreekAlphabet)
        ensures
            r == letter_of_ordinal(p as int),
    {
        if p > 0 {
            Self::from_u8(p as u8)
        } else {
            GreekAlphabet::Empty
        }
    }

    /// Encodes the value as its ordinal in a wider signed width.
    pub fn to_i16(&self) -> (n: i16)
        ensures
            n as int == ordinal_of(*self),
    {
        self.to_u8() as i16
    }

    /// Decodes a 1-based alphabetical position given as `i16`; anything
    /// outside `1..=24` yields `Empty`.  Total, never fails.
    pub fn from_i16(p: i16) -> (r: GreekAlphabet)
        ensures
            r == letter_of_ordinal(p as int),
    {
        if p > 0 && p < 255 {
            Self::from_u8(p as u8)
        } else {
            GreekAlphabet::Empty
        }
    }

    /// Encodes the value as its ordinal in a wider signed width.
    pub fn to_i32(&self) -> (n: i32)
        ensures
            n as int == ordinal_of(*self),
    {
        self.to_u8() as i32
    }

    /// Decodes a 1-based alphabetical position given as `i32`; anything
    /// outside `1..=24` yields `Empty`.  Total, never fails.
    pub fn from_i32(p: i32) -> (r: GreekAlphabet)
        ensures
            r == letter_of_ordinal(p as int),
    {
        if p > 0 && p < 255 {
            Self::from_u8(p as u8)
        } else {
            GreekAlphabet::Empty
        }
    }

    /// Encodes the value as its ordinal in a wider signed width.
    pub fn to_i64(&self) -> (n: i64)
        ensures
            n as int == ordinal_of(*self),
    {
        self.to_u8() as i64
    }

    /// Decodes a 1-based alphabetical position given as `i64`; anything
    /// outside `1..=24` yields `Empty`.  Total, never fails.
    pub fn from_i64(p: i64) -> (r: GreekAlphabet)
        ensures
            r == letter_of_ordinal(p as int),
    {
        if p > 0 && p < 255 {
            Self::from_u8(p as u8)
        } else {
            GreekAlphabet::Empty
        }
    }

    /// Encodes the value as its ordinal in a wider signed width.
    pub fn to_i128(&self) -> (n: i128)
        ensures
            n as int == ordinal_of(*self),
    {
        self.to_u8() as i128
    }

    /// Decodes a 1-based alphabetical position given as `i128`; anything
    /// outside `1..=24` yields `Empty`.  Total, never fails.
    pub fn from_i128(p: i128) -> (r: GreekAlphabet)
        ensures
            r == letter_of_ordinal(p as int),
    {
        if p > 0 && p < 255 {
            Self::from_u8(p as u8)
        } else {
            GreekAlphabet::Empty
        }
    }

    /// Encodes the value as its ordinal in a wider signed width.
    pub fn to_isize(&self) -> (n: isize)
        ensures
            n as int == ordinal_of(*self),
    {
        self.to_u8() as isize
    }

    /// Decodes a 1-based alphabetical position given as `isize`; anything
    /// outside `1..=24` yields `Empty`.  Total, never fails.
    pub fn from_isize(p: isize) -> (r: GreekAlphabet)
        ensures
            r == letter_of_ordinal(p as int),
    {
        if p > 0 && p < 255 {
            Self::from_u8(p as u8)
        } else {
            GreekAlphabet::Empty
        }
    }

    /// Adds two values in the cyclic group of order 24 over 1-based
    /// ordinals; a sum above 24 wraps by subtracting 24.  `Empty`
    /// participates with ordinal 0.
    pub fn add(self, other: Self) -> (r: Self)
        ensures
            r == spec_add(self, other),
    {
        proof {
            lemma_ordinal_range(self);
            lemma_ordinal_range(other);
        }
        let mut p: u8 = self.to_u8() + other.to_u8();
        if p > 24 {
            p = p - 24;
        }
        Self::from_u8(p)
    }

    /// Subtracts `other` from `self` in the cyclic group of order 24 over
    /// 1-based ordinals; a difference below 1 wraps by adding 24.  `Empty`
    /// participates with ordinal 0.
    pub fn subtract(self, other: Self) -> (r: Self)
        ensures
            r == spec_sub(self, other),
    {
        proof {
            lemma_ordinal_range(self);
            lemma_ordinal_range(other);
        }
        let mut d: i8 = (self.to_u8() as i8) - (other.to_u8() as i8);
        if d < 1 {
            d = d + 24;
        }
        Self::from_u8(d as u8)
    }

    /// Replaces `self` with the cyclic sum of `self` and `other`.
    pub fn add_assign(&mut self, other: Self)
        ensures
            *final(self) == spec_add(*old(self), other),
    {
        *self = (*self).add(other);
    }

    /// Replaces `self` with the cyclic difference of `self` and `other`.
    pub fn sub_assign(&mut self, other: Self)
        ensures
            *final(self) == spec_sub(*old(self), other),
    {
        *self = (*self).subtract(other);
    }
}

/// The decoding of a piece of text: a string of exactly one character, by
/// code-point count, decodes as that character does; any other length
/// decodes to `Empty`.
pub open spec fn spec_from_text(t: Seq<char>) -> GreekAlphabet {
    if t.len() == 1 {
        letter_of_char(t[0])
    } else {
        GreekAlphabet::Empty
    }
}

/// The cyclic sum of two values over 1-based ordinals, with 24 as modulus:
/// a sum above 24 wraps by subtracting 24 before decoding.
pub open spec fn spec_add(a: GreekAlphabet, b: GreekAlphabet) -> GreekAlphabet {
    let s = ordinal_of(a) + ordinal_of(b);
    letter_of_ordinal(if s > 24 { s - 24 } else { s })
}

/// The cyclic difference of two values over 1-based ordinals, with 24 as
/// modulus: a difference below 1 wraps by adding 24 before decoding.
pub open spec fn spec_sub(a: GreekAlphabet, b: GreekAlphabet) -> GreekAlphabet {
    let d = ordinal_of(a) - ordinal_of(b);
    letter_of_ordinal(if d < 1 { d + 24 } else { d })
}

/// The display form of a real letter is its name, then `(`, its capital
/// code point, `,`, its small code point, and `)`.
pub proof fn lemma_describe_structure(l: GreekAlphabet)
    requires
        !(l is Empty),
    ensures
        spec_describe(l) == spec_name(l) + seq!['('] + seq![spec_uppercase(l)] + seq![',']
            + seq![spec_lowercase(l)] + seq![')'],
{
    match l {
        GreekAlphabet::Alpha => {
            reveal_strlit("Alpha(Α,α)");
            reveal_strlit("Alpha");
            assert("Alpha(Α,α)"@ =~= "Alpha"@ + seq!['('] + seq!['Α'] + seq![','] + seq!['α'] + seq![')']);
        },
        GreekAlphabet::Beta => {
            reveal_strlit("Beta(Β,β)");
            reveal_strlit("Beta");
            assert("Beta(Β,β)"@ =~= "Beta"@ + seq!['('] + seq!['Β'] + seq![','] + seq!['β'] + seq![')']);
        },
        GreekAlphabet::Gamma => {
            reveal_strlit("Gamma(Γ,γ)");
            reveal_strlit("Gamma");
            assert("Gamma(Γ,γ)"@ =~= "Gamma"@ + seq!['('] + seq!['Γ'] + seq![','] + seq!['γ'] + seq![')']);
        },
        GreekAlphabet::Delta => {
            reveal_strlit("Delta(Δ,δ)");
            reveal_strlit("Delta");
            assert("Delta(Δ,δ)"@ =~= "Delta"@ + seq!['('] + seq!['Δ'] + seq![','] + seq!['δ'] + seq![')']);
        },
        GreekAlphabet::Epsilon => {
            reveal_strlit("Epsilon(Ε,ε)");
            reveal_strlit("Epsilon");
            assert("Epsilon(Ε,ε)"@ =~= "Epsilon"@ + seq!['('] + seq!['Ε'] + seq![','] + seq!['ε'] + seq![')']);
        },
        GreekAlphabet::Zeta => {
            reveal_strlit("Zeta(Ζ,ζ)");
            reveal_strlit("Zeta");
            assert("Zeta(Ζ,ζ)"@ =~= "Zeta"@ + seq!['('] + seq!['Ζ'] + seq![','] + seq!['ζ'] + seq![')']);
        },
        GreekAlphabet::Eta => {
            reveal_strlit("Eta(Η,η)");
            reveal_strlit("Eta");
            assert("Eta(Η,η)"@ =~= "Eta"@ + seq!['('] + seq!['Η'] + seq![','] + seq!['η'] + seq![')']);
        },
        GreekAlphabet::Theta => {
            reveal_strlit("Theta(Θ,θ)");
            reveal_strlit("Theta");
            assert("Theta(Θ,θ)"@ =~= "Theta"@ + seq!['('] + seq!['Θ'] + seq![','] + seq!['θ'] + seq![')']);
        },
        GreekAlphabet::Iota => {
            reveal_strlit("Iota(Ι,ι)");
            reveal_strlit("Iota");
            assert("Iota(Ι,ι)"@ =~= "Iota"@ + seq!['('] + seq!['Ι'] + seq![','] + seq!['ι'] + seq![')']);
        },
        GreekAlphabet::Kappa => {
            reveal_strlit("Kappa(Κ,κ)");
            reveal_strlit("Kappa");
            assert("Kappa(Κ,κ)"@ =~= "Kappa"@ + seq!['('] + seq!['Κ'] + seq![','] + seq!['κ'] + seq![')']);
        },
        GreekAlphabet::Lambda => {
            reveal_strlit("Lambda(Λ,λ)");
            reveal_strlit("Lambda");
            assert("Lambda(Λ,λ)"@ =~= "Lambda"@ + seq!['('] + seq!['Λ'] + seq![','] + seq!['λ'] + seq![')']);
        },
        GreekAlphabet::My => {
            reveal_strlit("My(Μ,μ)");
            reveal_strlit("My");
            assert("My(Μ,μ)"@ =~= "My"@ + seq!['('] + seq!['Μ'] + seq![','] + seq!['μ'] + seq![')']);
        },
        GreekAlphabet::Ny => {
            reveal_strlit("Ny(Ν,ν)");
            reveal_strlit("Ny");
            assert("Ny(Ν,ν)"@ =~= "Ny"@ + seq!['('] + seq!['Ν'] + seq![','] + seq!['ν'] + seq![')']);
        },
        GreekAlphabet::Xi => {
            reveal_strlit("Xi(Ξ,ξ)");
            reveal_strlit("Xi");
            assert("Xi(Ξ,ξ)"@ =~= "Xi"@ + seq!['('] + seq!['Ξ'] + seq![','] + seq!['ξ'] + seq![')']);
        },
        GreekAlphabet::Omicron => {
            reveal_strlit("Omicron(Ο,ο)");
            reveal_strlit("Omicron");
            assert("Omicron(Ο,ο)"@ =~= "Omicron"@ + seq!['('] + seq!['Ο'] + seq![','] + seq!['ο'] + seq![')']);
        },
        GreekAlphabet::Pi => {
            reveal_strlit("Pi(Π,π)");
            reveal_strlit("Pi");
            assert("Pi(Π,π)"@ =~= "Pi"@ + seq!['('] + seq!['Π'] + seq![','] + seq!['π'] + seq![')']);
        },
        GreekAlphabet::Rho => {
            reveal_strlit("Rho(Ρ,ρ)");
            reveal_strlit("Rho");
            assert("Rho(Ρ,ρ)"@ =~= "Rho"@ + seq!['('] + seq!['Ρ'] + seq![','] + seq!['ρ'] + seq![')']);
        },
        GreekAlphabet::Sigma => {
            reveal_strlit("Sigma(Σ,σ)");
            reveal_strlit("Sigma");
            assert("Sigma(Σ,σ)"@ =~= "Sigma"@ + seq!['('] + seq!['Σ'] + seq![','] + seq!['σ'] + seq![')']);
        },
        GreekAlphabet::Tau => {
            reveal_strlit("Tau(Τ,τ)");
            reveal_strlit("Tau");
            assert("Tau(Τ,τ)"@ =~= "Tau"@ + seq!['('] + seq!['Τ'] + seq![','] + seq!['τ'] + seq![')']);
        },
        GreekAlphabet::Ypsilon => {
            reveal_strlit("Ypsilon(Υ,υ)");
            reveal_strlit("Ypsilon");
            assert("Ypsilon(Υ,υ)"@ =~= "Ypsilon"@ + seq!['('] + seq!['Υ'] + seq![','] + seq!['υ'] + seq![')']);
        },
        GreekAlphabet::Phi => {
            reveal_strlit("Phi(Φ,φ)");
            reveal_strlit("Phi");
            assert("Phi(Φ,φ)"@ =~= "Phi"@ + seq!['('] + seq!['Φ'] + seq![','] + seq!['φ'] + seq![')']);
        },
        GreekAlphabet::Chi => {
            reveal_strlit("Chi(Χ,χ)");
            reveal_strlit("Chi");
            assert("Chi(Χ,χ)"@ =~= "Chi"@ + seq!['('] + seq!['Χ'] + seq![','] + seq!['χ'] + seq![')']);
        },
        GreekAlphabet::Psi => {
            reveal_strlit("Psi(Ψ,ψ)");
            reveal_strlit("Psi");
            assert("Psi(Ψ,ψ)"@ =~= "Psi"@ + seq!['('] + seq!['Ψ'] + seq![','] + seq!['ψ'] + seq![')']);
        },
        GreekAlphabet::Omega => {
            reveal_strlit("Omega(Ω,ω)");
            reveal_strlit("Omega");
            assert("Omega(Ω,ω)"@ =~= "Omega"@ + seq!['('] + seq!['Ω'] + seq![','] + seq!['ω'] + seq![')']);
        },
        GreekAlphabet::Empty => {},
    }
}

/// Every value's ordinal lies in `0..=24`, and ordinal 0 belongs to `Empty`
/// alone.
pub proof fn lemma_ordinal_range(l: GreekAlphabet)
    ensures
        0 <= ordinal_of(l) <= 24,
        ordinal_of(l) == 0 <==> l is Empty,
{
}

/// Round trip through the character tables: decoding a real letter's capital
/// or small code point gives the letter back.
pub proof fn lemma_char_round_trip(l: GreekAlphabet)
    requires
        !(l is Empty),
    ensures
        letter_of_char(spec_uppercase(l)) == l,
        letter_of_char(spec_lowercase(l)) == l,
{
}

/// Round trip through ordinals: every value decodes from its own ordinal,
/// and `Empty` encodes as 0.
pub proof fn lemma_ordinal_round_trip(l: GreekAlphabet)
    ensures
        letter_of_ordinal(ordinal_of(l)) == l,
        ordinal_of(GreekAlphabet::Empty) == 0,
{
}

/// Every ordinal outside `1..=24` decodes to `Empty`.
pub proof fn lemma_ordinal_out_of_range(n: int)
    requires
        n < 1 || n > 24,
    ensures
        letter_of_ordinal(n) is Empty,
{
}

/// A piece of text decodes to `Empty` whenever its length is not 1, and
/// whenever its single character is no Greek letter code point.
pub proof fn lemma_from_text_rejects(t: Seq<char>)
    requires
        t.len() == 1 ==> letter_of_char(t[0]) is Empty,
    ensures
        spec_from_text(t) is Empty,
{
}

/// Cyclic closure: the sum and the difference of two real letters are real
/// letters, never `Empty`.
pub proof fn lemma_cyclic_closure(a: GreekAlphabet, b: GreekAlphabet)
    requires
        !(a is Empty),
        !(b is Empty),
    ensures
        !(spec_add(a, b) is Empty),
        !(spec_sub(a, b) is Empty),
{
    lemma_ordinal_range(a);
    lemma_ordinal_range(b);
}

/// Subtracting a real letter from itself wraps to `Omega`: no real letter is
/// a true identity of the cyclic arithmetic.
pub proof fn lemma_subtract_self(a: GreekAlphabet)
    requires
        !(a is Empty),
    ensures
        spec_sub(a, a) is Omega,
{
}

impl Default for GreekAlphabet {
    /// The default value is the `Empty` sentinel.
    fn default() -> (r: Self)
        ensures
            r is Empty,
    {
        GreekAlphabet::Empty
    }
}

} // verus!
