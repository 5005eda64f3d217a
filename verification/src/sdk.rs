//! The items of `soroban_sdk` that the library uses, with what it assumes of them.

use vstd::prelude::*;
use crate::symbols::is_valid_symbol;

verus! {

/// The contract host environment, `soroban_sdk::Env`, carried through unopened.
#[verifier::external_type_specification]
#[verifier::external_body]
pub struct ExEnv(soroban_sdk::Env);

/// An account or contract address, `soroban_sdk::Address`, carried through unopened.
#[verifier::external_type_specification]
#[verifier::external_body]
pub struct ExAddress(soroban_sdk::Address);

/// A host symbol, `soroban_sdk::Symbol`, carried through unopened.
#[verifier::external_type_specification]
#[verifier::external_body]
pub struct ExSymbol(soroban_sdk::Symbol);

/// The text that a host symbol holds.
pub uninterp spec fn symbol_text(sym: soroban_sdk::Symbol) -> Seq<char>;

/// Calls `soroban_sdk::Symbol::new`. Its documentation allows the characters
/// `a-zA-Z0-9_` and at most 32 of them, and the call panics on any other text,
/// so the contract requires exactly that. The symbol it returns holds `text`.
/// Left unsaid: which host value stands for it (an inline value for short
/// texts, a host object otherwise).
#[verifier::external_body]
pub(crate) fn symbol_new(env: &soroban_sdk::Env, text: &str) -> (sym: soroban_sdk::Symbol)
    requires
        is_valid_symbol(text@),
    ensures
        symbol_text(sym) == text@,
{
    soroban_sdk::Symbol::new(env, text)
}

} // verus!
