//! Vendor/unknown settings attachable to an outgoing settings set: a
//! deduplicated collection of settings whose identifiers are `Unknown` and
//! do not coincide with any standard code.

use crate::ids::{
    is_standard_code, lemma_mask_bits_low, lemma_mask_empty, lemma_mask_or, spec_mask_of_code,
    valid_code, SettingId,
};
use crate::setting::Setting;
use crate::svec::{pair_list_get, pair_list_len, pair_list_new, pair_list_push, pair_list_seq,
    PairList};
use vstd::prelude::*;

verus! {

/// A code an experimental setting may carry: representable, but not owned
/// by a standard parameter.
pub open spec fn experimental_code(c: u16) -> bool {
    valid_code(c) && !is_standard_code(c)
}

/// Whether some pair of the collection carries the code.
pub open spec fn contains_code(s: Seq<(u16, u32)>, c: u16) -> bool {
    exists|i: int| 0 <= i < s.len() && s[i].0 == c
}

/// A well-formed collection: every code experimental, no code twice.
pub open spec fn exp_wf(s: Seq<(u16, u32)>) -> bool {
    (forall|i: int| 0 <= i < s.len() ==> experimental_code(#[trigger] s[i].0)) && (forall|
        i: int,
        j: int,
    |
        0 <= i < j < s.len() ==> (#[trigger] s[i].0) != (#[trigger] s[j].0))
}

/// One builder step: a setting is kept only when its identifier is
/// `Unknown`, its code does not map back to a standard identifier, and the
/// code was not seen before; everything else is silently dropped.
pub open spec fn exp_push(s: Seq<(u16, u32)>, setting: Option<Setting>) -> Seq<(u16, u32)> {
    match setting {
        Option::None => s,
        Option::Some(st) => match st.spec_id() {
            SettingId::Unknown(c) => if experimental_code(c) && !contains_code(s, c) {
                s.push((c, st.spec_value()))
            } else {
                s
            },
            _ => s,
        },
    }
}

/// The first `k` items of `items` pushed in turn.
pub open spec fn exp_extend(s: Seq<(u16, u32)>, items: Seq<Option<Setting>>, k: int) -> Seq<
    (u16, u32),
>
    decreases k,
{
    if k <= 0 {
        s
    } else {
        exp_push(exp_extend(s, items, k - 1), items[k - 1])
    }
}

/// Appending a pair extends code membership by exactly that code.
proof fn lemma_pair_push_contains(s: Seq<(u16, u32)>, item: (u16, u32))
    ensures
        forall|c: u16| contains_code(#[trigger] s.push(item), c) <==> (contains_code(s, c) || c
            == item.0),
{
    assert forall|c: u16| contains_code(#[trigger] s.push(item), c) implies (contains_code(s, c)
        || c == item.0) by {
        let i = choose|i: int| 0 <= i < s.push(item).len() && s.push(item)[i].0 == c;
        if i < s.len() {
            assert(s[i].0 == c);
        }
    }
    assert forall|c: u16| (contains_code(s, c) || c == item.0) implies contains_code(
        #[trigger] s.push(item),
        c,
    ) by {
        if contains_code(s, c) {
            let i = choose|i: int| 0 <= i < s.len() && s[i].0 == c;
            assert(s.push(item)[i].0 == c);
        } else {
            assert(s.push(item)[s.len() as int].0 == c);
        }
    }
}

/// The mask accumulator has exactly the bits of the codes seen so far.
spec fn pair_mask_matches(m: u16, s: Seq<(u16, u32)>) -> bool {
    forall|c: u16| valid_code(c) ==> (((m & spec_mask_of_code(c)) != 0) <==> contains_code(s, c))
}

/// A deduplicated collection of vendor settings, each carrying an `Unknown`
/// identifier whose code does not coincide with any standard code. Built
/// only through [`ExperimentalSettingsBuilder`].
pub struct ExperimentalSettings {
    settings: PairList,
}

/// A builder for constructing `ExperimentalSettings`: accepts the output of
/// fallible `Setting` construction directly, silently dropping `None`,
/// non-`Unknown` settings, spoofed standard codes, and duplicates.
pub struct ExperimentalSettingsBuilder {
    settings: PairList,
    mask: u16,
}

impl View for ExperimentalSettings {
    type V = Seq<(u16, u32)>;

    closed spec fn view(&self) -> Seq<(u16, u32)> {
        pair_list_seq(self.settings)
    }
}

impl View for ExperimentalSettingsBuilder {
    type V = Seq<(u16, u32)>;

    closed spec fn view(&self) -> Seq<(u16, u32)> {
        pair_list_seq(self.settings)
    }
}

impl ExperimentalSettings {
    /// A frozen collection is deduplicated and holds experimental codes
    /// only.
    pub open spec fn wf(&self) -> bool {
        exp_wf(self@)
    }

    /// Creates a new `ExperimentalSettingsBuilder`.
    pub fn builder() -> (r: ExperimentalSettingsBuilder)
        ensures
            r@ == Seq::<(u16, u32)>::empty(),
            r.wf(),
    {
        let r = ExperimentalSettingsBuilder { settings: pair_list_new(), mask: 0 };
        proof {
            assert forall|c: u16| valid_code(c) implies !((0u16 & spec_mask_of_code(c)) != 0) by {
                lemma_mask_empty(c);
            }
        }
        r
    }

    /// The number of settings in the collection.
    pub fn len(&self) -> (r: usize)
        ensures
            r == self@.len(),
    {
        pair_list_len(&self.settings)
    }

    /// The setting in place `i` of the collection.
    pub fn get(&self, i: usize) -> (r: Setting)
        requires
            self.wf(),
            i < self@.len(),
        ensures
            r.spec_id() == SettingId::Unknown(self@[i as int].0),
            r.spec_value() == self@[i as int].1,
    {
        let (code, value) = pair_list_get(&self.settings, i);
        Setting::from_parts(SettingId::Unknown(code), value)
    }
}

impl Clone for ExperimentalSettings {
    /// The copy holds the same settings in the same order.
    fn clone(&self) -> (r: Self)
        ensures
            r@ == self@,
            self.wf() ==> r.wf(),
    {
        ExperimentalSettings { settings: self.settings.clone() }
    }
}

impl ExperimentalSettingsBuilder {
    /// The builder's pairs are deduplicated and mirrored by its mask.
    pub closed spec fn wf(&self) -> bool {
        exp_wf(self@) && pair_mask_matches(self.mask, self@)
    }

    /// Pushes the result of a fallible `Setting` construction; anything but
    /// a fresh, genuinely unknown setting is silently dropped.
    pub fn push(self, setting: Option<Setting>) -> (r: Self)
        requires
            self.wf(),
        ensures
            r.wf(),
            r@ == exp_push(self@, setting),
    {
        let mut this = self;
        match setting {
            None => this,
            Some(st) => {
                match st.id() {
                    SettingId::Unknown(code) => {
                        let back_is_unknown = match SettingId::from_code(code) {
                            SettingId::Unknown(_) => true,
                            _ => false,
                        };
                        if back_is_unknown {
                            let mask_id = st.id().mask_id();
                            proof {
                                if valid_code(code) {
                                    lemma_mask_bits_low(code);
                                }
                            }
                            if mask_id != 0 {
                                if this.mask & mask_id == 0 {
                                    proof {
                                        assert(!contains_code(self@, code));
                                    }
                                    this.mask = this.mask | mask_id;
                                    pair_list_push(&mut this.settings, (code, st.value()));
                                    proof {
                                        lemma_pair_push_contains(self@, (code, st.spec_value()));
                                        assert forall|c: u16| valid_code(c) implies (((this.mask
                                            & spec_mask_of_code(c)) != 0) <==> contains_code(
                                            this@,
                                            c,
                                        )) by {
                                            lemma_mask_or(self.mask, code, c);
                                        }
                                    }
                                }
                            }
                        }
                        this
                    },
                    _ => this,
                }
            },
        }
    }

    /// Pushes every item of `items` in turn, preserving first-seen order.
    pub fn extend(self, items: Vec<Option<Setting>>) -> (r: Self)
        requires
            self.wf(),
        ensures
            r.wf(),
            r@ == exp_extend(self@, items@, items@.len() as int),
    {
        let ghost orig = self@;
        let mut this = self;
        let mut k: usize = 0;
        while k < items.len()
            invariant
                k <= items.len(),
                this.wf(),
                this@ == exp_extend(orig, items@, k as int),
            decreases items.len() - k,
        {
            this = this.push(items[k]);
            k += 1;
        }
        this
    }

    /// Freezes the collection; there is no completion step, since vendor
    /// extensions have no canonical default.
    pub fn build(self) -> (r: ExperimentalSettings)
        requires
            self.wf(),
        ensures
            r@ == self@,
            r.wf(),
    {
        ExperimentalSettings { settings: self.settings }
    }
}

/// Experimental dedup: of two pushed settings with the same code, only the
/// first can be kept; the second push is a no-op.
pub proof fn lemma_exp_push_dedup(s: Seq<(u16, u32)>, a: Setting, b: Setting)
    requires
        a.spec_id() matches SettingId::Unknown(ca) && b.spec_id() matches SettingId::Unknown(cb)
            && ca == cb,
    ensures
        exp_push(exp_push(s, Some(a)), Some(b)) == exp_push(s, Some(a)),
{
    match a.spec_id() {
        SettingId::Unknown(c) => {
            if experimental_code(c) && !contains_code(s, c) {
                lemma_pair_push_contains(s, (c, a.spec_value()));
                assert(contains_code(exp_push(s, Some(a)), c));
            }
        },
        _ => {},
    }
}

/// Experimental filtering: a setting whose identifier is standard, or whose
/// `Unknown` code coincides with a standard code, is never stored.
pub proof fn lemma_exp_push_standard_dropped(s: Seq<(u16, u32)>, st: Setting)
    requires
        match st.spec_id() {
            SettingId::Unknown(c) => is_standard_code(c),
            _ => true,
        },
    ensures
        exp_push(s, Some(st)) == s,
{
}

} // verus!
