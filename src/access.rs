//! Who may do what: the owner and signatory predicates.
use vstd::prelude::*;

use crate::types::{principals_view, Config, ConfigView, PrincipalView};

verus! {

/// `p` is the configured owner.
pub open spec fn is_owner(c: ConfigView, p: PrincipalView) -> bool {
    p == c.owner
}

/// `p` is one of the configured signatories.
pub open spec fn is_signatory(c: ConfigView, p: PrincipalView) -> bool {
    c.signatories.contains(p)
}

/// Whether `sender` is the owner of `config`.
pub fn check_owner(config: &Config, sender: &String) -> (r: bool)
    ensures
        r == is_owner(config@, sender@),
{
    *sender == config.owner
}

/// Whether `p` occurs in `list`.
pub fn contains_principal(list: &Vec<String>, p: &String) -> (r: bool)
    ensures
        r == principals_view(list@).contains(p@),
{
    let ghost lv = principals_view(list@);
    let mut i: usize = 0;
    while i < list.len()
        invariant
            i <= list.len(),
            lv == principals_view(list@),
            forall|j: int| 0 <= j < i ==> lv[j] != p@,
        decreases list.len() - i,
    {
        if list[i] == *p {
            assert(lv[i as int] == p@);
            return true;
        }
        i = i + 1;
    }
    false
}

/// Whether `sender` is one of the signatories of `config`.
pub fn check_signatory(config: &Config, sender: &String) -> (r: bool)
    ensures
        r == is_signatory(config@, sender@),
{
    contains_principal(&config.signatories, sender)
}

} // verus!
