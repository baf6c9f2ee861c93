//! A model of the OS-side table of exclusive global hotkey registrations.
//!
//! The OS owns the real table; this type mirrors the part of its documented
//! behaviour the service relies on: a registration is refused when its
//! (modifiers, key) combination or its identifier is already taken, and
//! unregistering an identifier that is not present does nothing and is
//! never an error. Registration of the whole binding table stops at the
//! first refusal and rolls nothing back; the teardown path unconditionally
//! unregisters every binding identifier instead.

use vstd::prelude::*;
use crate::bindings::{spec_bindings, bindings, HotkeyBinding, Modifiers};

verus! {

/// One active registration: an identifier holding one (modifiers, key)
/// combination.
#[derive(Clone, Copy, Debug, PartialEq, Eq, Structural)]
pub struct HotkeyRegistration {
    pub id: i32,
    pub modifiers: Modifiers,
    pub key: u32,
}

/// The registration a binding asks for.
pub open spec fn spec_registration_of(b: HotkeyBinding) -> HotkeyRegistration {
    HotkeyRegistration { id: b.id, modifiers: b.modifiers, key: b.key }
}

/// Whether some active registration holds this (modifiers, key) combination.
pub open spec fn combo_registered(s: Seq<HotkeyRegistration>, m: Modifiers, key: u32) -> bool {
    exists|i: int| 0 <= i < s.len() && (#[trigger] s[i]).modifiers == m && s[i].key == key
}

/// Whether some active registration carries this identifier.
pub open spec fn id_registered(s: Seq<HotkeyRegistration>, id: i32) -> bool {
    exists|i: int| 0 <= i < s.len() && (#[trigger] s[i]).id == id
}

/// Whether a new registration would be refused: its combination or its
/// identifier is already taken.
pub open spec fn spec_conflicts(
    s: Seq<HotkeyRegistration>,
    m: Modifiers,
    key: u32,
    id: i32,
) -> bool {
    combo_registered(s, m, key) || id_registered(s, id)
}

/// The table with every registration of the given identifier removed, in
/// the original order.
pub open spec fn spec_without_id(s: Seq<HotkeyRegistration>, id: i32) -> Seq<HotkeyRegistration>
    decreases s.len(),
{
    if s.len() == 0 {
        Seq::empty()
    } else if s[0].id == id {
        spec_without_id(s.drop_first(), id)
    } else {
        seq![s[0]] + spec_without_id(s.drop_first(), id)
    }
}

/// How removal acts on a table grown by one entry at the end.
pub proof fn lemma_without_id_push(s: Seq<HotkeyRegistration>, id: i32, r: HotkeyRegistration)
    ensures
        spec_without_id(s.push(r), id) == (if r.id == id {
            spec_without_id(s, id)
        } else {
            spec_without_id(s, id).push(r)
        }),
    decreases s.len(),
{
    if s.len() == 0 {
        assert(s.push(r)[0] == r);
        assert(s.push(r).drop_first() =~= Seq::<HotkeyRegistration>::empty());
        assert(spec_without_id(Seq::<HotkeyRegistration>::empty(), id)
            =~= Seq::<HotkeyRegistration>::empty());
        assert(spec_without_id(s, id) =~= Seq::<HotkeyRegistration>::empty());
        if r.id == id {
            assert(spec_without_id(s.push(r), id) =~= spec_without_id(s, id));
        } else {
            assert(spec_without_id(s.push(r), id) =~= spec_without_id(s, id).push(r));
        }
    } else {
        assert(s.push(r)[0] == s[0]);
        assert(s.push(r).drop_first() =~= s.drop_first().push(r));
        lemma_without_id_push(s.drop_first(), id, r);
        if r.id == id {
            assert(spec_without_id(s.push(r), id) =~= spec_without_id(s, id));
        } else {
            assert(spec_without_id(s.push(r), id) =~= spec_without_id(s, id).push(r));
        }
    }
}

/// What removal keeps: every survivor comes from the table and does not
/// carry the removed identifier, and every entry with a different
/// identifier survives.
pub proof fn lemma_without_id_elements(s: Seq<HotkeyRegistration>, id: i32)
    ensures
        forall|j: int|
            0 <= j < spec_without_id(s, id).len() ==> (#[trigger] spec_without_id(s, id)[j]).id
                != id && s.contains(spec_without_id(s, id)[j]),
        forall|j: int|
            0 <= j < s.len() && (#[trigger] s[j]).id != id ==> spec_without_id(s, id).contains(
                s[j],
            ),
    decreases s.len(),
{
    if s.len() == 0 {
    } else {
        let rest = s.drop_first();
        lemma_without_id_elements(rest, id);
        assert forall|j: int|
            0 <= j < spec_without_id(s, id).len() implies (#[trigger] spec_without_id(s, id)[j]).id
            != id && s.contains(spec_without_id(s, id)[j]) by {
            if s[0].id == id {
                assert(spec_without_id(s, id)[j] == spec_without_id(rest, id)[j]);
                let k = choose|k: int| 0 <= k < rest.len() && rest[k] == spec_without_id(s, id)[j];
                assert(s[k + 1] == spec_without_id(s, id)[j]);
            } else {
                if j == 0 {
                    assert(spec_without_id(s, id)[0] == s[0]);
                } else {
                    assert(spec_without_id(s, id)[j] == spec_without_id(rest, id)[j - 1]);
                    let k = choose|k: int|
                        0 <= k < rest.len() && rest[k] == spec_without_id(s, id)[j];
                    assert(s[k + 1] == spec_without_id(s, id)[j]);
                }
            }
        }
        assert forall|j: int|
            0 <= j < s.len() && (#[trigger] s[j]).id != id implies spec_without_id(s, id).contains(
            s[j],
        ) by {
            if j == 0 {
                assert(spec_without_id(s, id)[0] == s[0]);
            } else {
                assert(rest[j - 1] == s[j]);
                assert(spec_without_id(rest, id).contains(rest[j - 1]));
                let k = choose|k: int|
                    0 <= k < spec_without_id(rest, id).len() && spec_without_id(rest, id)[k]
                        == rest[j - 1];
                if s[0].id == id {
                    assert(spec_without_id(s, id)[k] == s[j]);
                } else {
                    assert(spec_without_id(s, id)[k + 1] == s[j]);
                }
            }
        }
    }
}

/// Unregistering an identifier that was never registered leaves the table
/// exactly as it was: a no-op, not an error.
pub proof fn lemma_unregister_unknown_is_noop(s: Seq<HotkeyRegistration>, id: i32)
    requires
        !id_registered(s, id),
    ensures
        spec_without_id(s, id) == s,
    decreases s.len(),
{
    if s.len() == 0 {
        assert(spec_without_id(s, id) =~= s);
    } else {
        assert(s[0].id != id);
        assert forall|i: int| 0 <= i < s.drop_first().len() implies (#[trigger] s.drop_first()[i]).id
            != id by {
            assert(s[i + 1] == s.drop_first()[i]);
        }
        lemma_unregister_unknown_is_noop(s.drop_first(), id);
        assert(spec_without_id(s, id) =~= s);
    }
}

/// A combination already held by an active registration conflicts with any
/// further registration of the same combination, whatever identifier the
/// second attempt uses.
pub proof fn lemma_second_registration_conflicts(
    s: Seq<HotkeyRegistration>,
    first: HotkeyRegistration,
    second_id: i32,
)
    ensures
        spec_conflicts(s.push(first), first.modifiers, first.key, second_id),
{
    assert(s.push(first)[s.len() as int] == first);
}

/// The outcome of registering the bindings from position `i` on, in order,
/// stopping at the first refusal: the table afterwards, and the position of
/// the refused binding if one was refused.
pub open spec fn spec_register_outcome(
    s: Seq<HotkeyRegistration>,
    bs: Seq<HotkeyBinding>,
    i: int,
) -> (Seq<HotkeyRegistration>, Option<int>)
    decreases bs.len() - i,
{
    if i < 0 || i >= bs.len() {
        (s, None)
    } else if spec_conflicts(s, bs[i].modifiers, bs[i].key, bs[i].id) {
        (s, Some(i))
    } else {
        spec_register_outcome(s.push(spec_registration_of(bs[i])), bs, i + 1)
    }
}

/// The table after the teardown path has unregistered every binding
/// identifier, in registration order.
pub open spec fn spec_teardown(s: Seq<HotkeyRegistration>) -> Seq<HotkeyRegistration> {
    spec_without_id(
        spec_without_id(spec_without_id(spec_without_id(spec_without_id(s, 1), 2), 3), 4),
        5,
    )
}

/// Teardown leaves exactly the registrations of other owners: no binding
/// identifier survives it, and every registration whose identifier is not a
/// binding identifier does.
pub proof fn lemma_teardown_clears_binding_ids(s: Seq<HotkeyRegistration>)
    ensures
        forall|j: int|
            0 <= j < spec_teardown(s).len() ==> !(1 <= (#[trigger] spec_teardown(s)[j]).id <= 5)
                && s.contains(spec_teardown(s)[j]),
        forall|j: int|
            0 <= j < s.len() && !(1 <= (#[trigger] s[j]).id <= 5) ==> spec_teardown(s).contains(
                s[j],
            ),
{
    let t1 = spec_without_id(s, 1);
    let t2 = spec_without_id(t1, 2);
    let t3 = spec_without_id(t2, 3);
    let t4 = spec_without_id(t3, 4);
    let t5 = spec_without_id(t4, 5);
    lemma_without_id_elements(s, 1);
    lemma_without_id_elements(t1, 2);
    lemma_without_id_elements(t2, 3);
    lemma_without_id_elements(t3, 4);
    lemma_without_id_elements(t4, 5);
    assert forall|j: int|
        0 <= j < t5.len() implies !(1 <= (#[trigger] t5[j]).id <= 5) && s.contains(t5[j]) by {
        let x = t5[j];
        assert(t4.contains(x));
        let j4 = choose|k: int| 0 <= k < t4.len() && t4[k] == x;
        assert(t3.contains(x));
        let j3 = choose|k: int| 0 <= k < t3.len() && t3[k] == x;
        assert(t2.contains(x));
        let j2 = choose|k: int| 0 <= k < t2.len() && t2[k] == x;
        assert(t1.contains(x));
        let j1 = choose|k: int| 0 <= k < t1.len() && t1[k] == x;
        assert(s.contains(x));
    }
    assert forall|j: int|
        0 <= j < s.len() && !(1 <= (#[trigger] s[j]).id <= 5) implies spec_teardown(s).contains(
        s[j],
    ) by {
        let x = s[j];
        assert(t1.contains(x));
        let j1 = choose|k: int| 0 <= k < t1.len() && t1[k] == x;
        assert(t2.contains(x));
        let j2 = choose|k: int| 0 <= k < t2.len() && t2[k] == x;
        assert(t3.contains(x));
        let j3 = choose|k: int| 0 <= k < t3.len() && t3[k] == x;
        assert(t4.contains(x));
        let j4 = choose|k: int| 0 <= k < t4.len() && t4[k] == x;
        assert(t5.contains(x));
    }
}

/// No identifier and no combination is taken twice.
pub open spec fn wf_table(s: Seq<HotkeyRegistration>) -> bool {
    forall|i: int, j: int|
        0 <= i < j < s.len() ==> (#[trigger] s[i]).id != (#[trigger] s[j]).id && !(s[i].modifiers
            == s[j].modifiers && s[i].key == s[j].key)
}

/// Removal keeps the table free of duplicate identifiers and combinations.
pub proof fn lemma_without_id_preserves_wf(s: Seq<HotkeyRegistration>, id: i32)
    requires
        wf_table(s),
    ensures
        wf_table(spec_without_id(s, id)),
    decreases s.len(),
{
    if s.len() == 0 {
    } else {
        let rest = s.drop_first();
        assert forall|i: int, j: int| 0 <= i < j < rest.len() implies (#[trigger] rest[i]).id != (
        #[trigger] rest[j]).id && !(rest[i].modifiers == rest[j].modifiers && rest[i].key
            == rest[j].key) by {
            assert(s[i + 1] == rest[i] && s[j + 1] == rest[j]);
        }
        lemma_without_id_preserves_wf(rest, id);
        lemma_without_id_elements(rest, id);
        let w = spec_without_id(s, id);
        if s[0].id == id {
        } else {
            let wr = spec_without_id(rest, id);
            assert forall|i: int, j: int| 0 <= i < j < w.len() implies (#[trigger] w[i]).id != (
            #[trigger] w[j]).id && !(w[i].modifiers == w[j].modifiers && w[i].key == w[j].key) by {
                if i == 0 {
                    assert(w[0] == s[0]);
                    assert(w[j] == wr[j - 1]);
                    assert(rest.contains(wr[j - 1]));
                    let k = choose|k: int| 0 <= k < rest.len() && rest[k] == wr[j - 1];
                    assert(s[k + 1] == wr[j - 1]);
                } else {
                    assert(w[i] == wr[i - 1] && w[j] == wr[j - 1]);
                }
            }
        }
    }
}

/// A registration that conflicts with neither a table nor a new entry
/// conflicts with neither after the entry is appended.
proof fn lemma_no_conflict_after_push(
    s: Seq<HotkeyRegistration>,
    r: HotkeyRegistration,
    m: Modifiers,
    key: u32,
    id: i32,
)
    requires
        !spec_conflicts(s, m, key, id),
        !(r.modifiers == m && r.key == key),
        r.id != id,
    ensures
        !spec_conflicts(s.push(r), m, key, id),
{
    let t = s.push(r);
    if combo_registered(t, m, key) {
        let i = choose|i: int| 0 <= i < t.len() && (#[trigger] t[i]).modifiers == m && t[i].key == key;
        if i < s.len() {
            assert(s[i] == t[i]);
        } else {
            assert(t[i] == r);
        }
    }
    if id_registered(t, id) {
        let i = choose|i: int| 0 <= i < t.len() && (#[trigger] t[i]).id == id;
        if i < s.len() {
            assert(s[i] == t[i]);
        } else {
            assert(t[i] == r);
        }
    }
}

/// Startup is owed success whenever no binding's combination or identifier
/// is already taken: the five bindings never conflict among themselves,
/// their keys and identifiers being pairwise distinct.
pub proof fn lemma_register_all_succeeds_when_free(s: Seq<HotkeyRegistration>)
    requires
        forall|i: int|
            0 <= i < spec_bindings().len() ==> !spec_conflicts(
                s,
                (#[trigger] spec_bindings()[i]).modifiers,
                spec_bindings()[i].key,
                spec_bindings()[i].id,
            ),
    ensures
        spec_register_outcome(s, spec_bindings(), 0).1 is None,
{
    let bs = spec_bindings();
    let r0 = spec_registration_of(bs[0]);
    let r1 = spec_registration_of(bs[1]);
    let r2 = spec_registration_of(bs[2]);
    let r3 = spec_registration_of(bs[3]);
    let r4 = spec_registration_of(bs[4]);
    let s1 = s.push(r0);
    let s2 = s1.push(r1);
    let s3 = s2.push(r2);
    let s4 = s3.push(r3);
    let s5 = s4.push(r4);
    lemma_no_conflict_after_push(s, r0, bs[1].modifiers, bs[1].key, bs[1].id);
    lemma_no_conflict_after_push(s, r0, bs[2].modifiers, bs[2].key, bs[2].id);
    lemma_no_conflict_after_push(s1, r1, bs[2].modifiers, bs[2].key, bs[2].id);
    lemma_no_conflict_after_push(s, r0, bs[3].modifiers, bs[3].key, bs[3].id);
    lemma_no_conflict_after_push(s1, r1, bs[3].modifiers, bs[3].key, bs[3].id);
    lemma_no_conflict_after_push(s2, r2, bs[3].modifiers, bs[3].key, bs[3].id);
    lemma_no_conflict_after_push(s, r0, bs[4].modifiers, bs[4].key, bs[4].id);
    lemma_no_conflict_after_push(s1, r1, bs[4].modifiers, bs[4].key, bs[4].id);
    lemma_no_conflict_after_push(s2, r2, bs[4].modifiers, bs[4].key, bs[4].id);
    lemma_no_conflict_after_push(s3, r3, bs[4].modifiers, bs[4].key, bs[4].id);
    assert(spec_register_outcome(s5, bs, 5).1 is None);
    assert(spec_register_outcome(s4, bs, 4).1 is None);
    assert(spec_register_outcome(s3, bs, 3).1 is None);
    assert(spec_register_outcome(s2, bs, 2).1 is None);
    assert(spec_register_outcome(s1, bs, 1).1 is None);
}

/// The error `register_all` surfaces: the position in the binding table of
/// the registration the OS refused.
#[derive(Clone, Copy, Debug, PartialEq, Eq, Structural)]
pub struct RegistrationError {
    pub index: usize,
}

/// The model table of active registrations.
pub struct HotkeyRegistry {
    regs: Vec<HotkeyRegistration>,
}

impl View for HotkeyRegistry {
    type V = Seq<HotkeyRegistration>;

    closed spec fn view(&self) -> Seq<HotkeyRegistration> {
        self.regs@
    }
}

impl HotkeyRegistry {
    /// No identifier and no combination is taken twice.
    pub open spec fn wf(self) -> bool {
        wf_table(self@)
    }

    /// An empty table.
    pub fn new() -> (r: HotkeyRegistry)
        ensures
            r@ == Seq::<HotkeyRegistration>::empty(),
            r.wf(),
    {
        HotkeyRegistry { regs: Vec::new() }
    }

    /// How many registrations are active.
    pub fn len(&self) -> (n: usize)
        ensures
            n == self@.len(),
    {
        self.regs.len()
    }

    /// Whether this identifier is registered.
    pub fn has_id(&self, id: i32) -> (b: bool)
        ensures
            b == id_registered(self@, id),
    {
        let n = self.regs.len();
        let mut i: usize = 0;
        while i < n
            invariant
                n == self.regs.len(),
                i <= n,
                forall|j: int| 0 <= j < i ==> (#[trigger] self.regs@[j]).id != id,
            decreases n - i,
        {
            if self.regs[i].id == id {
                return true;
            }
            i = i + 1;
        }
        false
    }

    /// Whether this (modifiers, key) combination is registered.
    pub fn has_combo(&self, modifiers: Modifiers, key: u32) -> (b: bool)
        ensures
            b == combo_registered(self@, modifiers, key),
    {
        let n = self.regs.len();
        let mut i: usize = 0;
        while i < n
            invariant
                n == self.regs.len(),
                i <= n,
                forall|j: int|
                    0 <= j < i ==> !((#[trigger] self.regs@[j]).modifiers == modifiers
                        && self.regs@[j].key == key),
            decreases n - i,
        {
            let r = self.regs[i];
            if r.modifiers == modifiers && r.key == key {
                return true;
            }
            i = i + 1;
        }
        false
    }

    /// Attempts one registration: succeeds exactly when neither the
    /// combination nor the identifier is already taken, and then appends
    /// it; a refused attempt changes nothing.
    pub fn register(&mut self, id: i32, modifiers: Modifiers, key: u32) -> (ok: bool)
        ensures
            ok <==> !spec_conflicts(old(self)@, modifiers, key, id),
            ok ==> final(self)@ == old(self)@.push(
                HotkeyRegistration { id, modifiers, key },
            ),
            !ok ==> final(self)@ == old(self)@,
            old(self).wf() ==> final(self).wf(),
    {
        let n = self.regs.len();
        let mut i: usize = 0;
        while i < n
            invariant
                n == self.regs.len(),
                i <= n,
                self@ == old(self)@,
                forall|j: int|
                    0 <= j < i ==> !((#[trigger] self.regs@[j]).modifiers == modifiers
                        && self.regs@[j].key == key) && self.regs@[j].id != id,
            decreases n - i,
        {
            let r = self.regs[i];
            if (r.modifiers == modifiers && r.key == key) || r.id == id {
                return false;
            }
            i = i + 1;
        }
        self.regs.push(HotkeyRegistration { id, modifiers, key });
        proof {
            let prev = old(self)@;
            assert forall|x: int, y: int| 0 <= x < y < self@.len() && old(self).wf() implies (
            #[trigger] self@[x]).id != (#[trigger] self@[y]).id && !(self@[x].modifiers
                == self@[y].modifiers && self@[x].key == self@[y].key) by {
                if y < prev.len() {
                    assert(self@[x] == prev[x] && self@[y] == prev[y]);
                } else {
                    assert(self@[x] == prev[x]);
                    assert(self@[y] == (HotkeyRegistration { id, modifiers, key }));
                }
            }
        }
        true
    }

    /// Removes every registration of this identifier; for an identifier
    /// that is not present this changes nothing, and it is never an error.
    pub fn unregister(&mut self, id: i32)
        ensures
            final(self)@ == spec_without_id(old(self)@, id),
            old(self).wf() ==> final(self).wf(),
    {
        let n = self.regs.len();
        let mut kept: Vec<HotkeyRegistration> = Vec::new();
        let mut i: usize = 0;
        while i < n
            invariant
                n == self.regs.len(),
                i <= n,
                self@ == old(self)@,
                kept@ == spec_without_id(self.regs@.take(i as int), id),
            decreases n - i,
        {
            let r = self.regs[i];
            proof {
                lemma_without_id_push(self.regs@.take(i as int), id, r);
                assert(self.regs@.take(i as int).push(r) =~= self.regs@.take(i as int + 1));
            }
            if r.id != id {
                kept.push(r);
            }
            i = i + 1;
        }
        proof {
            assert(self.regs@.take(n as int) =~= self.regs@);
        }
        self.regs = kept;
        proof {
            if old(self).wf() {
                lemma_without_id_preserves_wf(old(self)@, id);
            }
        }
    }

    /// Registers the whole binding table, in table order, stopping at the
    /// first refusal without rolling back what was already registered.
    /// Succeeds exactly when every one of the five registrations is
    /// accepted.
    pub fn register_all(&mut self) -> (r: Result<(), RegistrationError>)
        ensures
            final(self)@ == spec_register_outcome(old(self)@, spec_bindings(), 0).0,
            (match r {
                Ok(()) => spec_register_outcome(old(self)@, spec_bindings(), 0).1 is None,
                Err(e) => spec_register_outcome(old(self)@, spec_bindings(), 0).1 == Some(
                    e.index as int,
                ),
            }),
            old(self).wf() ==> final(self).wf(),
    {
        let table = bindings();
        let n = table.len();
        let mut i: usize = 0;
        while i < n
            invariant
                n == 5,
                table@ == spec_bindings(),
                i <= n,
                old(self).wf() ==> self.wf(),
                spec_register_outcome(old(self)@, spec_bindings(), 0) == spec_register_outcome(
                    self@,
                    spec_bindings(),
                    i as int,
                ),
            decreases n - i,
        {
            let b = table[i];
            let ok = self.register(b.id, b.modifiers, b.key);
            if !ok {
                return Err(RegistrationError { index: i });
            }
            i = i + 1;
        }
        Ok(())
    }

    /// The teardown path: unconditionally unregisters all five binding
    /// identifiers, in order, whether or not each is registered; no call
    /// raises an error.
    pub fn unregister_all(&mut self)
        ensures
            final(self)@ == spec_teardown(old(self)@),
            old(self).wf() ==> final(self).wf(),
    {
        self.unregister(1);
        self.unregister(2);
        self.unregister(3);
        self.unregister(4);
        self.unregister(5);
    }
}

} // verus!
