//! The repository scan: which banned terms a file's text contains.
//! Walking the repository and reporting live outside the verified core;
//! the decision for one file's text is made here.

use vstd::prelude::*;
use vstd::string::StringExecFns;

use crate::registry::{lemma_string_views_push, string_views};
use crate::text;

verus! {

/// The banned terms a scan flags in a file's text, in the fixed scan
/// order.
pub open spec fn scan_spec(c: Seq<char>) -> Seq<Seq<char>> {
    let s0 = Seq::<Seq<char>>::empty();
    let s1 = if text::contains_seq(c, "energy"@) {
        s0.push("energy"@)
    } else {
        s0
    };
    let s2 = if text::contains_seq(c, "value_score"@) {
        s1.push("value_score"@)
    } else {
        s1
    };
    let s3 = if text::contains_seq(c, "attractiveness"@) {
        s2.push("attractiveness"@)
    } else {
        s2
    };
    let s4 = if text::contains_seq(c, "monetize"@) {
        s3.push("monetize"@)
    } else {
        s3
    };
    if text::contains_seq(c, "biometric_raw"@) {
        s4.push("biometric_raw"@)
    } else {
        s4
    }
}

/// The banned terms that occur in a file's text, in scan order.
pub fn scan_violations(content: &str) -> (r: Vec<String>)
    ensures
        string_views(r@) == scan_spec(content@),
{
    let mut r: Vec<String> = Vec::new();
    assert(string_views(r@) =~= Seq::<Seq<char>>::empty());
    if text::str_contains(content, "energy") {
        let ghost old_r = r@;
        r.push(String::from_str("energy"));
        proof {
            lemma_string_views_push(old_r, r@.last());
        }
    }
    if text::str_contains(content, "value_score") {
        let ghost old_r = r@;
        r.push(String::from_str("value_score"));
        proof {
            lemma_string_views_push(old_r, r@.last());
        }
    }
    if text::str_contains(content, "attractiveness") {
        let ghost old_r = r@;
        r.push(String::from_str("attractiveness"));
        proof {
            lemma_string_views_push(old_r, r@.last());
        }
    }
    if text::str_contains(content, "monetize") {
        let ghost old_r = r@;
        r.push(String::from_str("monetize"));
        proof {
            lemma_string_views_push(old_r, r@.last());
        }
    }
    if text::str_contains(content, "biometric_raw") {
        let ghost old_r = r@;
        r.push(String::from_str("biometric_raw"));
        proof {
            lemma_string_views_push(old_r, r@.last());
        }
    }
    r
}

} // verus!
