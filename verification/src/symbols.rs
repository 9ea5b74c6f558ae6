//! The symbol table shared by the Markdown snippets and the Markdown
//! autocomplete: the degree sign and the Greek letters, by name.

use crate::text::str_eq;
use vstd::prelude::*;

verus! {

/// The symbol called `name`, or the empty string if there is none.
pub open spec fn symbol(name: Seq<char>) -> Seq<char> {
    if name == "degree"@ {
        "°"@
    } else if name == "alpha"@ {
        "α"@
    } else if name == "beta"@ {
        "β"@
    } else if name == "gamma"@ {
        "γ"@
    } else if name == "delta"@ {
        "δ"@
    } else if name == "epsilon"@ {
        "ε"@
    } else if name == "zeta"@ {
        "ζ"@
    } else if name == "eta"@ {
        "η"@
    } else if name == "theta"@ {
        "θ"@
    } else if name == "iota"@ {
        "ι"@
    } else if name == "kappa"@ {
        "κ"@
    } else if name == "lambda"@ {
        "λ"@
    } else if name == "mu"@ {
        "μ"@
    } else if name == "nu"@ {
        "ν"@
    } else if name == "xi"@ {
        "ξ"@
    } else if name == "omicron"@ {
        "ο"@
    } else if name == "pi"@ {
        "π"@
    } else if name == "rho"@ {
        "ρ"@
    } else if name == "sigma"@ {
        "σ"@
    } else if name == "tau"@ {
        "τ"@
    } else if name == "upsilon"@ {
        "υ"@
    } else if name == "phi"@ {
        "φ"@
    } else if name == "chi"@ {
        "χ"@
    } else if name == "psi"@ {
        "ψ"@
    } else if name == "omega"@ {
        "ω"@
    } else if name == "Alpha"@ {
        "Α"@
    } else if name == "Beta"@ {
        "Β"@
    } else if name == "Gamma"@ {
        "Γ"@
    } else if name == "Delta"@ {
        "Δ"@
    } else if name == "Epsilon"@ {
        "Ε"@
    } else if name == "Zeta"@ {
        "Ζ"@
    } else if name == "Eta"@ {
        "Η"@
    } else if name == "Theta"@ {
        "Θ"@
    } else if name == "Iota"@ {
        "Ι"@
    } else if name == "Kappa"@ {
        "Κ"@
    } else if name == "Lambda"@ {
        "Λ"@
    } else if name == "Mu"@ {
        "Μ"@
    } else if name == "Nu"@ {
        "Ν"@
    } else if name == "Xi"@ {
        "Ξ"@
    } else if name == "Omicron"@ {
        "Ο"@
    } else if name == "Pi"@ {
        "Π"@
    } else if name == "Rho"@ {
        "Ρ"@
    } else if name == "Sigma"@ {
        "Σ"@
    } else if name == "Tau"@ {
        "Τ"@
    } else if name == "Upsilon"@ {
        "Υ"@
    } else if name == "Phi"@ {
        "Φ"@
    } else if name == "Chi"@ {
        "Χ"@
    } else if name == "Psi"@ {
        "Ψ"@
    } else if name == "Omega"@ {
        "Ω"@
    } else {
        ""@
    }
}

/// The symbol called `name`, or the empty string if there is none.
pub fn symbol_exec(name: &str) -> (s: &'static str)
    ensures
        s@ == symbol(name@),
{
    if str_eq(name, "degree") {
        "°"
    } else if str_eq(name, "alpha") {
        "α"
    } else if str_eq(name, "beta") {
        "β"
    } else if str_eq(name, "gamma") {
        "γ"
    } else if str_eq(name, "delta") {
        "δ"
    } else if str_eq(name, "epsilon") {
        "ε"
    } else if str_eq(name, "zeta") {
        "ζ"
    } else if str_eq(name, "eta") {
        "η"
    } else if str_eq(name, "theta") {
        "θ"
    } else if str_eq(name, "iota") {
        "ι"
    } else if str_eq(name, "kappa") {
        "κ"
    } else if str_eq(name, "lambda") {
        "λ"
    } else if str_eq(name, "mu") {
        "μ"
    } else if str_eq(name, "nu") {
        "ν"
    } else if str_eq(name, "xi") {
        "ξ"
    } else if str_eq(name, "omicron") {
        "ο"
    } else if str_eq(name, "pi") {
        "π"
    } else if str_eq(name, "rho") {
        "ρ"
    } else if str_eq(name, "sigma") {
        "σ"
    } else if str_eq(name, "tau") {
        "τ"
    } else if str_eq(name, "upsilon") {
        "υ"
    } else if str_eq(name, "phi") {
        "φ"
    } else if str_eq(name, "chi") {
        "χ"
    } else if str_eq(name, "psi") {
        "ψ"
    } else if str_eq(name, "omega") {
        "ω"
    } else if str_eq(name, "Alpha") {
        "Α"
    } else if str_eq(name, "Beta") {
        "Β"
    } else if str_eq(name, "Gamma") {
        "Γ"
    } else if str_eq(name, "Delta") {
        "Δ"
    } else if str_eq(name, "Epsilon") {
        "Ε"
    } else if str_eq(name, "Zeta") {
        "Ζ"
    } else if str_eq(name, "Eta") {
        "Η"
    } else if str_eq(name, "Theta") {
        "Θ"
    } else if str_eq(name, "Iota") {
        "Ι"
    } else if str_eq(name, "Kappa") {
        "Κ"
    } else if str_eq(name, "Lambda") {
        "Λ"
    } else if str_eq(name, "Mu") {
        "Μ"
    } else if str_eq(name, "Nu") {
        "Ν"
    } else if str_eq(name, "Xi") {
        "Ξ"
    } else if str_eq(name, "Omicron") {
        "Ο"
    } else if str_eq(name, "Pi") {
        "Π"
    } else if str_eq(name, "Rho") {
        "Ρ"
    } else if str_eq(name, "Sigma") {
        "Σ"
    } else if str_eq(name, "Tau") {
        "Τ"
    } else if str_eq(name, "Upsilon") {
        "Υ"
    } else if str_eq(name, "Phi") {
        "Φ"
    } else if str_eq(name, "Chi") {
        "Χ"
    } else if str_eq(name, "Psi") {
        "Ψ"
    } else if str_eq(name, "Omega") {
        "Ω"
    } else {
        ""
    }
}

} // verus!
