//! The top-level labels that the blockchain name service answers for.
//!
//! A domain belongs to the name service when it ends in one of five labels.
//! The test is on the characters as they were supplied: nothing is folded to
//! lower case and nothing is decoded first.

use vstd::prelude::*;
use crate::text::{chars_of, has_suffix};

verus! {

/// Whether `domain` ends in one of the recognised labels `.genesis`, `.free`,
/// `.web`, `.defi` and `.dao`.
pub open spec fn is_genesis_name(domain: Seq<char>) -> bool {
    ||| ".genesis"@.is_suffix_of(domain)
    ||| ".free"@.is_suffix_of(domain)
    ||| ".web"@.is_suffix_of(domain)
    ||| ".defi"@.is_suffix_of(domain)
    ||| ".dao"@.is_suffix_of(domain)
}

/// Whether `domain` ends in one of the labels that the command-line probe
/// knows: `.genesis`, `.free`, `.web` and `.defi`. The probe does not know
/// `.dao`.
pub open spec fn is_probe_name(domain: Seq<char>) -> bool {
    ||| ".genesis"@.is_suffix_of(domain)
    ||| ".free"@.is_suffix_of(domain)
    ||| ".web"@.is_suffix_of(domain)
    ||| ".defi"@.is_suffix_of(domain)
}

/// Whether the command-line probe takes `domain` for a name of the
/// blockchain name service.
pub fn is_probe_domain(domain: &str) -> (b: bool)
    ensures
        b == is_probe_name(domain@),
{
    let name = chars_of(domain);
    has_suffix(&name, ".genesis") || has_suffix(&name, ".free") || has_suffix(&name, ".web")
        || has_suffix(&name, ".defi")
}

/// Whether `domain` ends in a recognised label.
pub fn is_genesis_domain(domain: &str) -> (b: bool)
    ensures
        b == is_genesis_name(domain@),
{
    let name = chars_of(domain);
    has_suffix(&name, ".genesis") || has_suffix(&name, ".free") || has_suffix(&name, ".web")
        || has_suffix(&name, ".defi") || has_suffix(&name, ".dao")
}

} // verus!
