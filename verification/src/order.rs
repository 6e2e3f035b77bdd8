//! The emission order of settings in a SETTINGS frame: a deduplicated
//! sequence of identifier codes, always completed to cover every standard
//! identifier.

use crate::ids::{
    is_standard_code, lemma_mask_bits_low, lemma_mask_empty, lemma_mask_or, spec_code,
    spec_from_code, spec_mask_of_code, valid_code, SettingId,
};
use crate::svec::{id_list_get, id_list_len, id_list_new, id_list_push, id_list_seq, IdList};
use vstd::prelude::*;

verus! {

/// The canonical emission order of the eight standard parameters.
pub open spec fn default_codes() -> Seq<u16> {
    seq![1u16, 2u16, 3u16, 4u16, 5u16, 6u16, 8u16, 9u16]
}

/// Codes a deduplicated sequence may hold: each representable, none twice.
pub open spec fn codes_wf(s: Seq<u16>) -> bool {
    (forall|i: int| 0 <= i < s.len() ==> valid_code(#[trigger] s[i])) && s.no_duplicates()
}

/// One builder step: a representable, unseen code is appended; a duplicate
/// or unrepresentable one is silently dropped.
pub open spec fn order_push(s: Seq<u16>, code: u16) -> Seq<u16> {
    if valid_code(code) && !s.contains(code) {
        s.push(code)
    } else {
        s
    }
}

/// The first `k` identifiers of `ids` pushed in turn.
pub open spec fn order_extend(s: Seq<u16>, ids: Seq<SettingId>, k: int) -> Seq<u16>
    decreases k,
{
    if k <= 0 {
        s
    } else {
        order_push(order_extend(s, ids, k - 1), spec_code(ids[k - 1]))
    }
}

/// The first `k` canonical codes pushed in turn.
pub open spec fn completed_prefix(s: Seq<u16>, k: int) -> Seq<u16>
    decreases k,
{
    if k <= 0 {
        s
    } else {
        order_push(completed_prefix(s, k - 1), default_codes()[k - 1])
    }
}

/// What `build` freezes: the pushed codes first, then the canonical codes
/// that were not pushed, in canonical order.
pub open spec fn completed(s: Seq<u16>) -> Seq<u16> {
    completed_prefix(s, 8)
}

/// A frozen order: deduplicated, and covering every standard code.
pub open spec fn order_wf(s: Seq<u16>) -> bool {
    codes_wf(s) && (forall|c: u16| is_standard_code(c) ==> #[trigger] s.contains(c))
}

/// The mask accumulator has exactly the bits of the codes seen so far.
spec fn mask_matches(m: u16, s: Seq<u16>) -> bool {
    forall|c: u16| valid_code(c) ==> (((m & spec_mask_of_code(c)) != 0) <==> #[trigger] s.contains(
        c,
    ))
}

/// Appending an element extends membership by exactly that element.
proof fn lemma_push_contains(s: Seq<u16>, x: u16)
    ensures
        forall|c: u16| #[trigger] s.push(x).contains(c) <==> (s.contains(c) || c == x),
{
    assert forall|c: u16| #[trigger] s.push(x).contains(c) implies (s.contains(c) || c == x) by {
        let i = choose|i: int| 0 <= i < s.push(x).len() && s.push(x)[i] == c;
        if i < s.len() {
            assert(s[i] == c);
        }
    }
    assert forall|c: u16| (s.contains(c) || c == x) implies #[trigger] s.push(x).contains(c) by {
        if s.contains(c) {
            let i = choose|i: int| 0 <= i < s.len() && s[i] == c;
            assert(s.push(x)[i] == c);
        } else {
            assert(s.push(x)[s.len() as int] == c);
        }
    }
}

/// What one builder step does to membership.
proof fn lemma_order_push_contains(s: Seq<u16>, code: u16)
    ensures
        forall|c: u16| #[trigger] order_push(s, code).contains(c) <==> (s.contains(c) || (
        valid_code(code) && c == code)),
{
    if valid_code(code) && !s.contains(code) {
        lemma_push_contains(s, code);
    }
}

/// A builder step keeps a deduplicated sequence deduplicated.
proof fn lemma_order_push_wf(s: Seq<u16>, code: u16)
    requires
        codes_wf(s),
    ensures
        codes_wf(order_push(s, code)),
{
    if valid_code(code) && !s.contains(code) {
        let s1 = s.push(code);
        assert forall|i: int, j: int|
            0 <= i < s1.len() && 0 <= j < s1.len() && i != j implies s1[i] != s1[j] by {
            if i < s.len() && j < s.len() {
            } else if j == s.len() && i < s.len() {
                if s1[i] == code {
                    assert(s.contains(code));
                }
            } else if i == s.len() && j < s.len() {
                if s1[j] == code {
                    assert(s.contains(code));
                }
            }
        }
    }
}

/// Represents the order of settings in a SETTINGS frame: an ordered list of
/// identifier codes with no duplicates, built only through
/// [`SettingsOrderBuilder`] so that it always covers every standard
/// identifier.
pub struct SettingsOrder {
    ids: IdList,
}

/// A builder for constructing a `SettingsOrder`: identifiers pushed first
/// keep their first-seen position, duplicates are dropped, and `build`
/// completes the sequence with the canonical order.
pub struct SettingsOrderBuilder {
    ids: IdList,
    mask: u16,
}

impl View for SettingsOrder {
    type V = Seq<u16>;

    closed spec fn view(&self) -> Seq<u16> {
        id_list_seq(self.ids)
    }
}

impl View for SettingsOrderBuilder {
    type V = Seq<u16>;

    closed spec fn view(&self) -> Seq<u16> {
        id_list_seq(self.ids)
    }
}

impl SettingsOrder {
    /// A frozen order is deduplicated and covers every standard code.
    pub open spec fn wf(&self) -> bool {
        order_wf(self@)
    }

    /// Creates a new `SettingsOrderBuilder`.
    pub fn builder() -> (r: SettingsOrderBuilder)
        ensures
            r@ == Seq::<u16>::empty(),
            r.wf(),
    {
        let r = SettingsOrderBuilder { ids: id_list_new(), mask: 0 };
        proof {
            assert forall|c: u16| valid_code(c) implies !((0u16 & spec_mask_of_code(c)) != 0) by {
                lemma_mask_empty(c);
            }
        }
        r
    }

    /// The number of identifiers in the order.
    pub fn len(&self) -> (r: usize)
        ensures
            r == self@.len(),
    {
        id_list_len(&self.ids)
    }

    /// The identifier in place `i` of the order.
    pub fn get(&self, i: usize) -> (r: SettingId)
        requires
            i < self@.len(),
        ensures
            r == spec_from_code(self@[i as int]),
    {
        SettingId::from_code(id_list_get(&self.ids, i))
    }
}

impl Clone for SettingsOrder {
    /// The copy holds the same codes in the same order.
    fn clone(&self) -> (r: Self)
        ensures
            r@ == self@,
            self.wf() ==> r.wf(),
    {
        SettingsOrder { ids: self.ids.clone() }
    }
}

impl Default for SettingsOrder {
    /// The canonical order: every standard identifier, in standard-code
    /// order.
    fn default() -> (r: SettingsOrder)
        ensures
            r@ == default_codes(),
            r.wf(),
    {
        let r = SettingsOrder::builder().build();
        proof {
            lemma_completed_empty();
        }
        r
    }
}

impl SettingsOrderBuilder {
    /// The builder's codes are deduplicated and mirrored by its mask.
    pub closed spec fn wf(&self) -> bool {
        codes_wf(self@) && mask_matches(self.mask, self@)
    }

    /// Pushes one identifier: appended if its mask bit is new, silently
    /// dropped if it is a duplicate or owns no mask bit.
    pub fn push(self, id: SettingId) -> (r: Self)
        requires
            self.wf(),
        ensures
            r.wf(),
            r@ == order_push(self@, spec_code(id)),
    {
        let mut this = self;
        let mask_id = id.mask_id();
        proof {
            if valid_code(spec_code(id)) {
                lemma_mask_bits_low(spec_code(id));
            }
        }
        if mask_id != 0 {
            if this.mask & mask_id == 0 {
                let code = id.code();
                proof {
                    assert(!self@.contains(code));
                }
                this.mask = this.mask | mask_id;
                id_list_push(&mut this.ids, code);
                proof {
                    lemma_push_contains(self@, code);
                    lemma_order_push_wf(self@, code);
                    assert forall|c: u16| valid_code(c) implies (((this.mask & spec_mask_of_code(
                        c,
                    )) != 0) <==> this@.contains(c)) by {
                        lemma_mask_or(self.mask, code, c);
                    }
                }
            }
        }
        this
    }

    /// Pushes every identifier of `ids` in turn, preserving first-seen
    /// order.
    pub fn extend(self, ids: Vec<SettingId>) -> (r: Self)
        requires
            self.wf(),
        ensures
            r.wf(),
            r@ == order_extend(self@, ids@, ids@.len() as int),
    {
        let ghost orig = self@;
        let mut this = self;
        let mut k: usize = 0;
        while k < ids.len()
            invariant
                k <= ids.len(),
                this.wf(),
                this@ == order_extend(orig, ids@, k as int),
            decreases ids.len() - k,
        {
            this = this.push(ids[k]);
            k += 1;
        }
        this
    }

    /// Completes the sequence with the canonical order and freezes it:
    /// every standard identifier ends up present exactly once.
    pub fn build(self) -> (r: SettingsOrder)
        requires
            self.wf(),
        ensures
            r@ == completed(self@),
            r.wf(),
    {
        let ghost orig = self@;
        let mut this = self;
        let mut j: usize = 0;
        while j < 8
            invariant
                j <= 8,
                this.wf(),
                this@ == completed_prefix(orig, j as int),
                forall|jj: int| 0 <= jj < j ==> this@.contains(#[trigger] default_codes()[jj]),
            decreases 8 - j,
        {
            let ghost before = this@;
            let c = default_code_at(j);
            this = this.push(SettingId::from_code(c));
            proof {
                lemma_order_push_contains(before, c);
                assert forall|jj: int| 0 <= jj < j + 1 implies this@.contains(
                    #[trigger] default_codes()[jj],
                ) by {
                    if jj < j {
                        assert(before.contains(default_codes()[jj]));
                    }
                }
            }
            j += 1;
        }
        let r = SettingsOrder { ids: this.ids };
        proof {
            assert(r@ == completed(orig));
            assert forall|c: u16| is_standard_code(c) implies #[trigger] r@.contains(c) by {
                if c == 1 {
                    assert(default_codes()[0] == 1);
                } else if c == 2 {
                    assert(default_codes()[1] == 2);
                } else if c == 3 {
                    assert(default_codes()[2] == 3);
                } else if c == 4 {
                    assert(default_codes()[3] == 4);
                } else if c == 5 {
                    assert(default_codes()[4] == 5);
                } else if c == 6 {
                    assert(default_codes()[5] == 6);
                } else if c == 8 {
                    assert(default_codes()[6] == 8);
                } else {
                    assert(default_codes()[7] == 9);
                }
            }
        }
        r
    }
}

/// The exec step that yields the canonical code in place `j`.
fn default_code_at(j: usize) -> (r: u16)
    requires
        j < 8,
    ensures
        r == default_codes()[j as int],
{
    if j == 0 {
        1
    } else if j == 1 {
        2
    } else if j == 2 {
        3
    } else if j == 3 {
        4
    } else if j == 4 {
        5
    } else if j == 5 {
        6
    } else if j == 6 {
        8
    } else {
        9
    }
}

/// Completing an empty builder yields exactly the canonical order.
pub proof fn lemma_completed_empty()
    ensures
        completed(Seq::<u16>::empty()) =~= default_codes(),
{
    let e = Seq::<u16>::empty();
    assert(completed_prefix(e, 0) == e);
    lemma_order_push_contains(completed_prefix(e, 0), 1);
    assert(completed_prefix(e, 1) =~= seq![1u16]);
    lemma_order_push_contains(completed_prefix(e, 1), 2);
    assert(completed_prefix(e, 2) =~= seq![1u16, 2u16]);
    lemma_order_push_contains(completed_prefix(e, 2), 3);
    assert(completed_prefix(e, 3) =~= seq![1u16, 2u16, 3u16]);
    lemma_order_push_contains(completed_prefix(e, 3), 4);
    assert(completed_prefix(e, 4) =~= seq![1u16, 2u16, 3u16, 4u16]);
    lemma_order_push_contains(completed_prefix(e, 4), 5);
    assert(completed_prefix(e, 5) =~= seq![1u16, 2u16, 3u16, 4u16, 5u16]);
    lemma_order_push_contains(completed_prefix(e, 5), 6);
    assert(completed_prefix(e, 6) =~= seq![1u16, 2u16, 3u16, 4u16, 5u16, 6u16]);
    lemma_order_push_contains(completed_prefix(e, 6), 8);
    assert(completed_prefix(e, 7) =~= seq![1u16, 2u16, 3u16, 4u16, 5u16, 6u16, 8u16]);
    lemma_order_push_contains(completed_prefix(e, 7), 9);
    assert(completed_prefix(e, 8) =~= default_codes());
}

/// Builder completeness: whatever standard identifiers were pushed, the
/// built order has length exactly eight and holds each standard identifier
/// exactly once (it is deduplicated and covers all eight).
pub proof fn lemma_build_completeness(s: Seq<u16>)
    requires
        codes_wf(s),
        forall|i: int| 0 <= i < s.len() ==> is_standard_code(#[trigger] s[i]),
    ensures
        completed(s).len() == 8,
        completed(s).no_duplicates(),
        forall|c: u16| is_standard_code(c) ==> #[trigger] completed(s).contains(c),
{
    broadcast use vstd::set::group_set_axioms;
    broadcast use vstd::seq_lib::group_seq_properties;

    lemma_completed_props(s, 8);
    let t = completed(s);
    assert forall|c: u16| is_standard_code(c) implies #[trigger] t.contains(c) by {
        if c == 1 {
            assert(default_codes()[0] == 1);
        } else if c == 2 {
            assert(default_codes()[1] == 2);
        } else if c == 3 {
            assert(default_codes()[2] == 3);
        } else if c == 4 {
            assert(default_codes()[3] == 4);
        } else if c == 5 {
            assert(default_codes()[4] == 5);
        } else if c == 6 {
            assert(default_codes()[5] == 6);
        } else if c == 8 {
            assert(default_codes()[6] == 8);
        } else {
            assert(default_codes()[7] == 9);
        }
    }
    // Cardinality: `t` deduplicated over exactly the eight standard codes.
    t.unique_seq_to_set();
    default_codes().unique_seq_to_set();
    assert(default_codes().no_duplicates());
    assert(t.to_set() =~= default_codes().to_set()) by {
        assert forall|c: u16| t.contains(c) implies default_codes().contains(c) by {
            let i = choose|i: int| 0 <= i < t.len() && t[i] == c;
            assert(is_standard_code(c));
            if c == 1 {
                assert(default_codes()[0] == 1);
            } else if c == 2 {
                assert(default_codes()[1] == 2);
            } else if c == 3 {
                assert(default_codes()[2] == 3);
            } else if c == 4 {
                assert(default_codes()[3] == 4);
            } else if c == 5 {
                assert(default_codes()[4] == 5);
            } else if c == 6 {
                assert(default_codes()[5] == 6);
            } else {
                assert(default_codes()[7] == 9);
            }
        }
        assert forall|c: u16| default_codes().contains(c) implies t.contains(c) by {
            let i = choose|i: int| 0 <= i < 8 && default_codes()[i] == c;
            assert(is_standard_code(c));
        }
    }
    assert(default_codes().len() == 8);
}

/// After `k` completion steps the sequence is still deduplicated, every
/// element is standard, and the first `k` canonical codes are covered.
proof fn lemma_completed_props(s: Seq<u16>, k: int)
    requires
        0 <= k <= 8,
        codes_wf(s),
        forall|i: int| 0 <= i < s.len() ==> is_standard_code(#[trigger] s[i]),
    ensures
        codes_wf(completed_prefix(s, k)),
        forall|i: int|
            0 <= i < completed_prefix(s, k).len() ==> is_standard_code(
                #[trigger] completed_prefix(s, k)[i],
            ),
        forall|jj: int| 0 <= jj < k ==> completed_prefix(s, k).contains(
            #[trigger] default_codes()[jj],
        ),
    decreases k,
{
    if k > 0 {
        lemma_completed_props(s, k - 1);
        let prev = completed_prefix(s, k - 1);
        let code = default_codes()[k - 1];
        assert(is_standard_code(code));
        lemma_order_push_wf(prev, code);
        lemma_order_push_contains(prev, code);
        let cur = completed_prefix(s, k);
        assert forall|i: int| 0 <= i < cur.len() implies is_standard_code(#[trigger] cur[i]) by {
            if i < prev.len() {
                assert(cur[i] == prev[i]);
            } else {
                assert(cur[i] == code);
            }
        }
        assert forall|jj: int| 0 <= jj < k implies cur.contains(
            #[trigger] default_codes()[jj],
        ) by {
            if jj < k - 1 {
                assert(prev.contains(default_codes()[jj]));
            }
        }
    }
}

/// A deduplicated sequence of representable codes has at most fifteen
/// entries, one per mask bit.
pub proof fn lemma_codes_wf_len(s: Seq<u16>)
    requires
        codes_wf(s),
    ensures
        s.len() <= 15,
{
    broadcast use vstd::set::group_set_axioms;
    broadcast use vstd::seq_lib::seq_to_set_is_finite;

    let all = seq![1u16, 2u16, 3u16, 4u16, 5u16, 6u16, 7u16, 8u16, 9u16, 10u16, 11u16, 12u16,
        13u16, 14u16, 15u16];
    assert(all.no_duplicates());
    s.unique_seq_to_set();
    all.unique_seq_to_set();
    assert forall|c: u16| s.to_set().contains(c) implies all.to_set().contains(c) by {
        assert(s.contains(c));
        let i = choose|i: int| 0 <= i < s.len() && s[i] == c;
        assert(valid_code(c));
        assert(all[c - 1] == c);
        assert(all.contains(c));
    }
    vstd::set_lib::lemma_len_subset(s.to_set(), all.to_set());
}

/// Pushed identifiers appear first and keep their first-seen places: the
/// built order begins with the builder's sequence, unchanged, and the
/// completion only appends.
pub proof fn lemma_build_keeps_pushed_prefix(s: Seq<u16>)
    ensures
        completed(s).len() >= s.len(),
        forall|i: int| 0 <= i < s.len() ==> completed(s)[i] == s[i],
{
    lemma_completed_prefix_stable(s, 8);
}

/// Completion steps never disturb the places already filled.
proof fn lemma_completed_prefix_stable(s: Seq<u16>, k: int)
    requires
        0 <= k <= 8,
    ensures
        completed_prefix(s, k).len() >= s.len(),
        forall|i: int| 0 <= i < s.len() ==> completed_prefix(s, k)[i] == s[i],
    decreases k,
{
    if k > 0 {
        lemma_completed_prefix_stable(s, k - 1);
    }
}

/// Builder dedup: pushing an identifier a second time is a no-op, so a
/// twice-pushed identifier keeps its first-seen position.
pub proof fn lemma_push_dedup(s: Seq<u16>, id: SettingId)
    ensures
        order_push(order_push(s, spec_code(id)), spec_code(id)) == order_push(s, spec_code(id)),
        valid_code(spec_code(id)) && !s.contains(spec_code(id)) ==> order_push(s, spec_code(id))[
            s.len() as int] == spec_code(id),
{
    let code = spec_code(id);
    lemma_order_push_contains(s, code);
    if valid_code(code) {
        assert(order_push(s, code).contains(code));
    }
}

} // verus!
