//! The stablecoin and fiat equivalence resolver: a fixed table of
//! equivalence classes over ticker symbols, and the pure lookup that
//! broadens a symbol to its whole class.

use vstd::prelude::*;

use crate::textmatch::str_eq;

verus! {

/// The dollar equivalence class: the fiat code and its stablecoins.
pub open spec fn usd_class() -> Seq<Seq<char>> {
    seq![
        "USD"@,
        "USDT"@,
        "USDC"@,
        "BUSD"@,
        "DAI"@,
        "TUSD"@,
        "USDP"@,
        "GUSD"@,
        "FDUSD"@,
    ]
}

/// The euro equivalence class: the fiat code and its stablecoins.
pub open spec fn eur_class() -> Seq<Seq<char>> {
    seq!["EUR"@, "EURS"@, "EURT"@, "SEUR"@, "CEUR"@, "EURE"@, "JEUR"@]
}

/// The variants of a symbol: its whole equivalence class when it belongs
/// to one, the singleton of the symbol itself otherwise.
pub open spec fn spec_variants(sym: Seq<char>) -> Seq<Seq<char>> {
    if usd_class().contains(sym) {
        usd_class()
    } else if eur_class().contains(sym) {
        eur_class()
    } else {
        seq![sym]
    }
}

/// Law: a symbol belonging to an equivalence class is broadened to the
/// whole class, so any two members of one class have the same variant
/// set, and the set holds every member; a symbol outside every class
/// maps to itself alone.  The variant set always holds the symbol.
pub proof fn lemma_variants_class(sym: Seq<char>)
    ensures
        usd_class().contains(sym) ==> spec_variants(sym) == usd_class(),
        !usd_class().contains(sym) && eur_class().contains(sym) ==> spec_variants(sym)
            == eur_class(),
        !usd_class().contains(sym) && !eur_class().contains(sym) ==> spec_variants(sym)
            == seq![sym],
        spec_variants(sym).contains(sym),
{
    if !usd_class().contains(sym) && !eur_class().contains(sym) {
        assert(spec_variants(sym)[0] == sym);
    }
}

/// The dollar class as strings.
pub fn usd_class_members() -> (r: Vec<String>)
    ensures
        r.deep_view() =~= usd_class(),
{
    let mut v: Vec<String> = Vec::new();
    v.push("USD".to_owned());
    v.push("USDT".to_owned());
    v.push("USDC".to_owned());
    v.push("BUSD".to_owned());
    v.push("DAI".to_owned());
    v.push("TUSD".to_owned());
    v.push("USDP".to_owned());
    v.push("GUSD".to_owned());
    v.push("FDUSD".to_owned());
    v
}

/// The euro class as strings.
pub fn eur_class_members() -> (r: Vec<String>)
    ensures
        r.deep_view() =~= eur_class(),
{
    let mut v: Vec<String> = Vec::new();
    v.push("EUR".to_owned());
    v.push("EURS".to_owned());
    v.push("EURT".to_owned());
    v.push("SEUR".to_owned());
    v.push("CEUR".to_owned());
    v.push("EURE".to_owned());
    v.push("JEUR".to_owned());
    v
}

/// Whether `sym` is one of `class`.
pub fn class_contains(class: &Vec<String>, sym: &str) -> (r: bool)
    ensures
        r == class.deep_view().contains(sym@),
{
    let n = class.len();
    for i in 0..n
        invariant
            n == class@.len(),
            forall|k: int| 0 <= k < i ==> class.deep_view()[k] != sym@,
    {
        if str_eq(class[i].as_str(), sym) {
            proof {
                assert(class.deep_view()[i as int] == sym@);
            }
            return true;
        }
    }
    proof {
        assert forall|k: int| 0 <= k < class.deep_view().len() implies class.deep_view()[k]
            != sym@ by {}
    }
    false
}

/// The variant set of an asset symbol: the symbol together with its whole
/// fiat-stablecoin equivalence class when it belongs to one, the symbol
/// alone otherwise.
pub fn variants_of(symbol: &str) -> (r: Vec<String>)
    ensures
        r.deep_view() == spec_variants(symbol@),
{
    let usd = usd_class_members();
    if class_contains(&usd, symbol) {
        return usd;
    }
    let eur = eur_class_members();
    if class_contains(&eur, symbol) {
        return eur;
    }
    let mut v: Vec<String> = Vec::new();
    v.push(symbol.to_owned());
    proof {
        assert(v.deep_view() =~= seq![symbol@]);
    }
    v
}

} // verus!
