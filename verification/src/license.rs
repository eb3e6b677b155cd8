//! The license registry: which licenses source files may carry, whether
//! each is compatible with the project's own license terms, and whether it
//! demands a contributor agreement.

use vstd::prelude::*;
use vstd::string::StringExecFns;

use crate::text;

verus! {

broadcast use vstd::string::group_string_axioms;

/// One registered license.
#[derive(Debug)]
pub struct LicenseEntry {
    pub spdx_id: String,
    pub compatible_with_sgcl: bool,
    pub requires_cla: bool,
}

/// Mathematical model of a license entry.
#[verifier::ext_equal]
pub struct LicenseView {
    pub spdx_id: Seq<char>,
    pub compatible_with_sgcl: bool,
    pub requires_cla: bool,
}

impl View for LicenseEntry {
    type V = LicenseView;

    open spec fn view(&self) -> LicenseView {
        LicenseView {
            spdx_id: self.spdx_id@,
            compatible_with_sgcl: self.compatible_with_sgcl,
            requires_cla: self.requires_cla,
        }
    }
}

/// The views of a list of license entries.
pub open spec fn lic_views(s: Seq<LicenseEntry>) -> Seq<LicenseView> {
    s.map_values(|e: LicenseEntry| e@)
}

/// Some entry in `s` carries the SPDX id `id`.
pub open spec fn lic_id_in(s: Seq<LicenseView>, id: Seq<char>) -> bool {
    exists|i: int| 0 <= i < s.len() && s[i].spdx_id == id
}

/// The position of the entry carrying `id`, when ids are unique.
pub open spec fn lic_id_at(s: Seq<LicenseView>, id: Seq<char>) -> int {
    choose|i: int| 0 <= i < s.len() && s[i].spdx_id == id
}

/// Entry ids are pairwise distinct.
pub open spec fn lic_ids_unique(s: Seq<LicenseView>) -> bool {
    forall|i: int, j: int| 0 <= i < j < s.len() ==> s[i].spdx_id != s[j].spdx_id
}

/// The registry contents after registering one entry: an entry with the
/// same id is replaced in place, a new id is appended.
pub open spec fn lic_upsert(s: Seq<LicenseView>, e: LicenseView) -> Seq<LicenseView> {
    if lic_id_in(s, e.spdx_id) {
        s.update(lic_id_at(s, e.spdx_id), e)
    } else {
        s.push(e)
    }
}

/// The first entry carrying `id`, if any.
pub open spec fn lic_find(s: Seq<LicenseView>, id: Seq<char>) -> Option<LicenseView>
    decreases s.len(),
{
    if s.len() == 0 {
        None
    } else if s[0].spdx_id == id {
        Some(s[0])
    } else {
        lic_find(s.drop_first(), id)
    }
}

/// The licenses the registry is built with, in registration order.
pub open spec fn builtin_licenses() -> Seq<LicenseView> {
    seq![
        LicenseView { spdx_id: "GPL-3.0-only"@, compatible_with_sgcl: true, requires_cla: true },
        LicenseView { spdx_id: "GPL-3.0-or-later"@, compatible_with_sgcl: true, requires_cla: true },
        LicenseView { spdx_id: "MIT"@, compatible_with_sgcl: true, requires_cla: true },
        LicenseView { spdx_id: "Apache-2.0"@, compatible_with_sgcl: true, requires_cla: true },
        LicenseView { spdx_id: "BSL-1.1"@, compatible_with_sgcl: false, requires_cla: false },
        LicenseView { spdx_id: "SSPL"@, compatible_with_sgcl: false, requires_cla: false },
        LicenseView { spdx_id: "SGRL-α"@, compatible_with_sgcl: true, requires_cla: false },
    ]
}

/// The built-in license ids are pairwise distinct.
proof fn lemma_builtin_ids_unique()
    ensures
        lic_ids_unique(builtin_licenses()),
{
    reveal_strlit("GPL-3.0-only");
    reveal_strlit("GPL-3.0-or-later");
    reveal_strlit("MIT");
    reveal_strlit("Apache-2.0");
    reveal_strlit("BSL-1.1");
    reveal_strlit("SSPL");
    reveal_strlit("SGRL-α");
    let b = builtin_licenses();
    assert(b.len() == 7);
    assert("GPL-3.0-only"@.len() == 12);
    assert("GPL-3.0-or-later"@.len() == 16);
    assert("MIT"@.len() == 3);
    assert("Apache-2.0"@.len() == 10);
    assert("BSL-1.1"@.len() == 7);
    assert("SSPL"@.len() == 4);
    assert("SGRL-α"@.len() == 6);
    assert forall|i: int, j: int| 0 <= i < j < b.len() implies b[i].spdx_id != b[j].spdx_id by {
        assert(b[0].spdx_id == "GPL-3.0-only"@);
        assert(b[1].spdx_id == "GPL-3.0-or-later"@);
        assert(b[2].spdx_id == "MIT"@);
        assert(b[3].spdx_id == "Apache-2.0"@);
        assert(b[4].spdx_id == "BSL-1.1"@);
        assert(b[5].spdx_id == "SSPL"@);
        assert(b[6].spdx_id == "SGRL-α"@);
    }
}

/// The registry of known licenses.
pub struct LicenseRegistry {
    licenses: Vec<LicenseEntry>,
}

impl View for LicenseRegistry {
    type V = Seq<LicenseView>;

    closed spec fn view(&self) -> Seq<LicenseView> {
        lic_views(self.licenses@)
    }
}

impl LicenseRegistry {
    /// Entry ids in the registry are pairwise distinct.
    pub open spec fn wf(&self) -> bool {
        lic_ids_unique(self@)
    }

    /// The position of the entry carrying `id`, when the registry holds
    /// one.
    fn find_index(&self, id: &str) -> (r: Option<usize>)
        ensures
            match r {
                Some(i) => i < self@.len() && self@[i as int].spdx_id == id@,
                None => !lic_id_in(self@, id@),
            },
    {
        let mut i: usize = 0;
        while i < self.licenses.len()
            invariant
                0 <= i <= self@.len(),
                self@.len() == self.licenses@.len(),
                forall|k: int| 0 <= k < i ==> self@[k].spdx_id != id@,
            decreases self@.len() - i,
        {
            if text::str_eq(self.licenses[i].spdx_id.as_str(), id) {
                assert(self@[i as int].spdx_id == id@);
                return Some(i);
            }
            i += 1;
        }
        None
    }

    /// Registers one license, replacing the entry of the same id when one
    /// is already present.
    pub fn register(&mut self, spdx_id: &str, sgcl_compat: bool, cla_needed: bool)
        requires
            old(self).wf(),
        ensures
            final(self).wf(),
            final(self)@ == lic_upsert(
                old(self)@,
                LicenseView {
                    spdx_id: spdx_id@,
                    compatible_with_sgcl: sgcl_compat,
                    requires_cla: cla_needed,
                },
            ),
    {
        let entry = LicenseEntry {
            spdx_id: String::from_str(spdx_id),
            compatible_with_sgcl: sgcl_compat,
            requires_cla: cla_needed,
        };
        let found = self.find_index(spdx_id);
        match found {
            Some(k) => {
                proof {
                    let s = self@;
                    let i = lic_id_at(s, spdx_id@);
                    assert(lic_id_in(s, spdx_id@));
                    assert(0 <= i < s.len() && s[i].spdx_id == spdx_id@);
                    if i != k {
                        if i < k {
                            assert(s[i].spdx_id != s[k as int].spdx_id);
                        } else {
                            assert(s[k as int].spdx_id != s[i].spdx_id);
                        }
                        assert(false);
                    }
                }
                let ghost olds = self@;
                self.licenses[k] = entry;
                proof {
                    assert(self@ =~= olds.update(k as int, self.licenses@[k as int]@));
                    assert forall|a: int, b: int| 0 <= a < b < self@.len() implies self@[a].spdx_id
                        != self@[b].spdx_id by {
                        assert(olds[a].spdx_id != olds[b].spdx_id);
                    }
                }
            },
            None => {
                let ghost olds = self@;
                self.licenses.push(entry);
                proof {
                    assert(self@ =~= olds.push(self.licenses@[olds.len() as int]@));
                    assert forall|a: int, b: int| 0 <= a < b < self@.len() implies self@[a].spdx_id
                        != self@[b].spdx_id by {
                        if b < olds.len() {
                            assert(olds[a].spdx_id != olds[b].spdx_id);
                        } else {
                            assert(!lic_id_in(olds, self@[b].spdx_id));
                        }
                    }
                }
            },
        }
    }

    /// The built-in registry: the project's own license and its variants,
    /// the compatible permissive licenses (contributor agreement required),
    /// the licenses that are ruled out, and the internal reciprocal
    /// license.
    pub fn new() -> (r: Self)
        ensures
            r.wf(),
            r@ == builtin_licenses(),
    {
        proof {
            reveal_strlit("GPL-3.0-only");
            reveal_strlit("GPL-3.0-or-later");
            reveal_strlit("MIT");
            reveal_strlit("Apache-2.0");
            reveal_strlit("BSL-1.1");
            reveal_strlit("SSPL");
            reveal_strlit("SGRL-α");
            lemma_builtin_ids_unique();
        }
        let ghost b = builtin_licenses();
        let mut reg = LicenseRegistry { licenses: Vec::new() };
        assert(reg@ =~= b.take(0));
        reg.register("GPL-3.0-only", true, true);
        proof {
            assert(b.take(0).push(b[0]) =~= b.take(1));
        }
        assert(reg@ =~= b.take(1));
        proof {
            assert(!lic_id_in(reg@, "GPL-3.0-or-later"@)) by {
                assert forall|i: int| 0 <= i < reg@.len() implies reg@[i].spdx_id
                    != "GPL-3.0-or-later"@ by {
                    assert(reg@[i] == b[i]);
                    assert(b[i].spdx_id != b[1].spdx_id);
                }
            }
            assert(b.take(1).push(b[1]) =~= b.take(2));
        }
        reg.register("GPL-3.0-or-later", true, true);
        assert(reg@ =~= b.take(2));
        proof {
            assert(!lic_id_in(reg@, "MIT"@)) by {
                assert forall|i: int| 0 <= i < reg@.len() implies reg@[i].spdx_id != "MIT"@ by {
                    assert(reg@[i] == b[i]);
                    assert(b[i].spdx_id != b[2].spdx_id);
                }
            }
            assert(b.take(2).push(b[2]) =~= b.take(3));
        }
        reg.register("MIT", true, true);
        assert(reg@ =~= b.take(3));
        proof {
            assert(!lic_id_in(reg@, "Apache-2.0"@)) by {
                assert forall|i: int| 0 <= i < reg@.len() implies reg@[i].spdx_id
                    != "Apache-2.0"@ by {
                    assert(reg@[i] == b[i]);
                    assert(b[i].spdx_id != b[3].spdx_id);
                }
            }
            assert(b.take(3).push(b[3]) =~= b.take(4));
        }
        reg.register("Apache-2.0", true, true);
        assert(reg@ =~= b.take(4));
        proof {
            assert(!lic_id_in(reg@, "BSL-1.1"@)) by {
                assert forall|i: int| 0 <= i < reg@.len() implies reg@[i].spdx_id != "BSL-1.1"@ by {
                    assert(reg@[i] == b[i]);
                    assert(b[i].spdx_id != b[4].spdx_id);
                }
            }
            assert(b.take(4).push(b[4]) =~= b.take(5));
        }
        reg.register("BSL-1.1", false, false);
        assert(reg@ =~= b.take(5));
        proof {
            assert(!lic_id_in(reg@, "SSPL"@)) by {
                assert forall|i: int| 0 <= i < reg@.len() implies reg@[i].spdx_id != "SSPL"@ by {
                    assert(reg@[i] == b[i]);
                    assert(b[i].spdx_id != b[5].spdx_id);
                }
            }
            assert(b.take(5).push(b[5]) =~= b.take(6));
        }
        reg.register("SSPL", false, false);
        assert(reg@ =~= b.take(6));
        proof {
            assert(!lic_id_in(reg@, "SGRL-α"@)) by {
                assert forall|i: int| 0 <= i < reg@.len() implies reg@[i].spdx_id
                    != "SGRL-α"@ by {
                    assert(reg@[i] == b[i]);
                    assert(b[i].spdx_id != b[6].spdx_id);
                }
            }
            assert(b.take(6).push(b[6]) =~= b.take(7));
        }
        reg.register("SGRL-α", true, false);
        assert(reg@ =~= b.take(7));
        assert(b.take(7) =~= b);
        reg
    }

    /// Whether the license named `spdx_id` is registered as compatible;
    /// an unregistered license is not.
    pub fn is_compatible_with_sgcl(&self, spdx_id: &str) -> (r: bool)
        ensures
            r == match lic_find(self@, spdx_id@) {
                Some(e) => e.compatible_with_sgcl,
                None => false,
            },
    {
        assert(self@.skip(0) =~= self@);
        let mut i: usize = 0;
        while i < self.licenses.len()
            invariant
                0 <= i <= self@.len(),
                self@.len() == self.licenses@.len(),
                lic_find(self@, spdx_id@) == lic_find(self@.skip(i as int), spdx_id@),
            decreases self@.len() - i,
        {
            proof {
                assert(self@.skip(i as int).drop_first() =~= self@.skip(i + 1));
                assert(self@.skip(i as int)[0] == self@[i as int]);
            }
            if text::str_eq(self.licenses[i].spdx_id.as_str(), spdx_id) {
                return self.licenses[i].compatible_with_sgcl;
            }
            i += 1;
        }
        proof {
            assert(self@.skip(self@.len() as int) =~= Seq::<LicenseView>::empty());
        }
        false
    }

    /// Whether the license named `spdx_id` demands a contributor
    /// agreement; an unregistered license does not.
    pub fn requires_cla(&self, spdx_id: &str) -> (r: bool)
        ensures
            r == match lic_find(self@, spdx_id@) {
                Some(e) => e.requires_cla,
                None => false,
            },
    {
        assert(self@.skip(0) =~= self@);
        let mut i: usize = 0;
        while i < self.licenses.len()
            invariant
                0 <= i <= self@.len(),
                self@.len() == self.licenses@.len(),
                lic_find(self@, spdx_id@) == lic_find(self@.skip(i as int), spdx_id@),
            decreases self@.len() - i,
        {
            proof {
                assert(self@.skip(i as int).drop_first() =~= self@.skip(i + 1));
                assert(self@.skip(i as int)[0] == self@[i as int]);
            }
            if text::str_eq(self.licenses[i].spdx_id.as_str(), spdx_id) {
                return self.licenses[i].requires_cla;
            }
            i += 1;
        }
        proof {
            assert(self@.skip(self@.len() as int) =~= Seq::<LicenseView>::empty());
        }
        false
    }
}

/// The SPDX marker that a source file declares its license with.
pub open spec fn spec_license_marker() -> Seq<char> {
    "SPDX-License-Identifier:"@
}

/// The license a file text declares: the text after the first SPDX marker,
/// to the end of that line, trimmed; or `NOASSERTION` when no marker
/// occurs.
pub open spec fn license_of(content: Seq<char>) -> Seq<char> {
    if text::contains_seq(content, spec_license_marker()) {
        let start = text::first_match(content, spec_license_marker()) + spec_license_marker().len();
        let stop = text::first_char_from(content, '\n', start);
        text::trim_seq(content.subrange(start, stop))
    } else {
        "NOASSERTION"@
    }
}

/// Finds the declared SPDX license in a file text.
pub fn detect_license(content: &str) -> (r: String)
    ensures
        r@ == license_of(content@),
{
    match text::marker_line_suffix(content, "SPDX-License-Identifier:") {
        Some(s) => s,
        None => String::from_str("NOASSERTION"),
    }
}

} // verus!
