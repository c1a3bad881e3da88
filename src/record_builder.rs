//! The builder behaviour as a runtime value: a list of field descriptors, one
//! slot per field, setters that overwrite a slot, and a `build` that fails on
//! the first required field that was never set.
use vstd::prelude::*;
use vstd::string::StringExecFns;

use crate::shape::{is_wrapper, ty_inner_type, Field};

verus! {

/// What the builder knows of one field: its name, and whether it is an
/// optional wrapper (which never blocks `build`) or required.
pub struct FieldDescriptor {
    pub name: String,
    pub optional: bool,
}

/// `d` is the descriptor of the declared field `f`.
pub open spec fn describes(d: FieldDescriptor, f: Field) -> bool {
    d.name@ == f.name@ && d.optional == is_wrapper(f.ty)
}

/// The descriptor of a declared field: optional exactly when its type has the
/// optional-wrapper shape.
pub fn describe_field(f: &Field) -> (r: FieldDescriptor)
    ensures
        describes(r, *f),
{
    FieldDescriptor { name: f.name.clone(), optional: ty_inner_type(&f.ty).is_some() }
}

/// The descriptors of the declared fields, in declaration order.
pub fn describe_fields(fields: &Vec<Field>) -> (r: Vec<FieldDescriptor>)
    ensures
        r@.len() == fields@.len(),
        forall|i: int| 0 <= i < fields@.len() ==> describes(#[trigger] r@[i], fields@[i]),
{
    let mut r: Vec<FieldDescriptor> = Vec::new();
    let mut i: usize = 0;
    while i < fields.len()
        invariant
            i <= fields@.len(),
            r@.len() == i,
            forall|j: int| 0 <= j < i ==> describes(#[trigger] r@[j], fields@[j]),
        decreases fields@.len() - i,
    {
        r.push(describe_field(&fields[i]));
        i = i + 1;
    }
    r
}

/// A record that `build` assembled: one value per field, in declaration
/// order; present for every required field, as stored for an optional one.
pub struct Record<V> {
    pub values: Vec<Option<V>>,
}

/// The failure of `build`: the required field, by position and name, that
/// was found unset first.
pub struct MissingField {
    pub index: usize,
    pub name: String,
}

impl MissingField {
    /// The report of the failure: the field's name followed by ` is not set`.
    pub fn message(&self) -> (r: String)
        ensures
            r@ == self.name@ + " is not set"@,
    {
        let mut r = self.name.clone();
        r.append(" is not set");
        r
    }
}

/// A builder: one slot per field, each absent until its setter is called.
pub struct RecordBuilder<V> {
    fields: Vec<FieldDescriptor>,
    slots: Vec<Option<V>>,
}

/// Field `i` is required and its slot is absent.
pub open spec fn is_missing<V>(fields: Seq<FieldDescriptor>, slots: Seq<Option<V>>, i: int) -> bool {
    !fields[i].optional && slots[i] is None
}

/// No required field has an absent slot.
pub open spec fn none_missing<V>(fields: Seq<FieldDescriptor>, slots: Seq<Option<V>>) -> bool {
    forall|i: int| 0 <= i < fields.len() ==> !#[trigger] is_missing(fields, slots, i)
}

/// Field `i` is the first, in declaration order, that is required and unset.
pub open spec fn is_first_missing<V>(
    fields: Seq<FieldDescriptor>,
    slots: Seq<Option<V>>,
    i: int,
) -> bool {
    &&& 0 <= i < fields.len()
    &&& is_missing(fields, slots, i)
    &&& forall|j: int| 0 <= j < i ==> !#[trigger] is_missing(fields, slots, j)
}

/// What `build` returns on a builder with the given fields and slots: the
/// stored values when no required field is unset, else the first one unset.
pub open spec fn build_result<V>(
    fields: Seq<FieldDescriptor>,
    slots: Seq<Option<V>>,
    r: Result<Record<V>, MissingField>,
) -> bool {
    match r {
        Ok(rec) => none_missing(fields, slots) && rec.values@ == slots,
        Err(e) => is_first_missing(fields, slots, e.index as int) && e.name@
            == fields[e.index as int].name@,
    }
}

/// `n` absent slots.
pub open spec fn empty_slots<V>(n: nat) -> Seq<Option<V>> {
    Seq::new(n, |i: int| None::<V>)
}

/// The slots after calling the setters `(index, value)` of `calls` in order
/// on `slots`.
pub open spec fn apply_sets<V>(slots: Seq<Option<V>>, calls: Seq<(usize, V)>) -> Seq<Option<V>>
    decreases calls.len(),
{
    if calls.len() == 0 {
        slots
    } else {
        apply_sets(slots, calls.drop_last()).update(
            calls.last().0 as int,
            Some(calls.last().1),
        )
    }
}

impl<V: Copy> RecordBuilder<V> {
    /// The descriptors of the fields, in declaration order.
    pub closed spec fn field_list(&self) -> Seq<FieldDescriptor> {
        self.fields@
    }

    /// The stored value of each field, in declaration order.
    pub closed spec fn slot_list(&self) -> Seq<Option<V>> {
        self.slots@
    }

    /// One slot per field.
    pub open spec fn wf(&self) -> bool {
        self.slot_list().len() == self.field_list().len()
    }

    /// The factory: a fresh builder over `fields` with every slot absent,
    /// optional fields included.
    pub fn new(fields: Vec<FieldDescriptor>) -> (r: Self)
        ensures
            r.wf(),
            r.field_list() == fields@,
            r.slot_list() == empty_slots::<V>(fields@.len()),
    {
        let mut slots: Vec<Option<V>> = Vec::new();
        let mut i: usize = 0;
        while i < fields.len()
            invariant
                i <= fields@.len(),
                slots@ == empty_slots::<V>(i as nat),
            decreases fields@.len() - i,
        {
            slots.push(None);
            i = i + 1;
            assert(slots@ =~= empty_slots::<V>(i as nat));
        }
        RecordBuilder { fields, slots }
    }

    /// The number of fields.
    pub fn len(&self) -> (r: usize)
        requires
            self.wf(),
        ensures
            r == self.field_list().len(),
    {
        self.fields.len()
    }

    /// The position of the first field named `name`, if any.
    pub fn index_of(&self, name: &String) -> (r: Option<usize>)
        requires
            self.wf(),
        ensures
            match r {
                Some(i) => i < self.field_list().len() && self.field_list()[i as int].name@
                    == name@ && forall|j: int|
                    0 <= j < i ==> #[trigger] self.field_list()[j].name@ != name@,
                None => forall|j: int|
                    0 <= j < self.field_list().len() ==> #[trigger] self.field_list()[j].name@
                        != name@,
            },
    {
        let mut i: usize = 0;
        while i < self.fields.len()
            invariant
                i <= self.fields@.len(),
                forall|j: int| 0 <= j < i ==> #[trigger] self.fields@[j].name@ != name@,
            decreases self.fields@.len() - i,
        {
            if self.fields[i].name.eq(name) {
                return Some(i);
            }
            i = i + 1;
        }
        None
    }

    /// The setter of field `index`: stores `value` as present, replacing
    /// whatever was stored before.
    pub fn set(&mut self, index: usize, value: V)
        requires
            old(self).wf(),
            index < old(self).field_list().len(),
        ensures
            final(self).wf(),
            final(self).field_list() == old(self).field_list(),
            final(self).slot_list() == old(self).slot_list().update(index as int, Some(value)),
    {
        self.slots.set(index, Some(value));
    }

    /// The stored value of field `index`.
    pub fn get(&self, index: usize) -> (r: Option<V>)
        requires
            self.wf(),
            index < self.field_list().len(),
        ensures
            r == self.slot_list()[index as int],
    {
        self.slots[index]
    }

    /// Assembles the record from the stored values, in declaration order.
    ///
    /// Fails with the first required field whose slot is absent. The builder
    /// is left as it was, so a failed build can be retried after the
    /// missing field is set.
    pub fn build(&self) -> (r: Result<Record<V>, MissingField>)
        requires
            self.wf(),
        ensures
            build_result(self.field_list(), self.slot_list(), r),
    {
        let mut values: Vec<Option<V>> = Vec::new();
        let mut i: usize = 0;
        while i < self.fields.len()
            invariant
                self.wf(),
                i <= self.fields@.len(),
                values@ == self.slots@.take(i as int),
                forall|j: int| 0 <= j < i ==> !#[trigger] is_missing(self.fields@, self.slots@, j),
            decreases self.fields@.len() - i,
        {
            let v = self.slots[i];
            if !self.fields[i].optional && v.is_none() {
                return Err(MissingField { index: i, name: self.fields[i].name.clone() });
            }
            values.push(v);
            i = i + 1;
            assert(values@ =~= self.slots@.take(i as int));
        }
        assert(values@ =~= self.slots@);
        Ok(Record { values })
    }
}

/// One of the setter calls `calls` is on field `i`.
pub open spec fn calls_setter<V>(calls: Seq<(usize, V)>, i: int) -> bool {
    exists|k: int| 0 <= k < calls.len() && #[trigger] calls[k].0 == i
}

/// The setter calls `calls` keep the number of slots.
proof fn lemma_apply_sets_len<V>(slots: Seq<Option<V>>, calls: Seq<(usize, V)>)
    requires
        forall|k: int| 0 <= k < calls.len() ==> #[trigger] calls[k].0 < slots.len(),
    ensures
        apply_sets(slots, calls).len() == slots.len(),
    decreases calls.len(),
{
    if calls.len() > 0 {
        let init = calls.drop_last();
        assert forall|k: int| 0 <= k < init.len() implies #[trigger] init[k].0 < slots.len() by {
            assert(init[k] == calls[k]);
        }
        lemma_apply_sets_len(slots, init);
    }
}

/// After the setter calls `calls` on `slots`, a slot holds the value of the
/// last call on it, or what it held before when no call was on it.
proof fn lemma_apply_sets_slot<V>(slots: Seq<Option<V>>, calls: Seq<(usize, V)>, i: int)
    requires
        forall|k: int| 0 <= k < calls.len() ==> #[trigger] calls[k].0 < slots.len(),
        0 <= i < slots.len(),
    ensures
        forall|k: int|
            0 <= k < calls.len() && #[trigger] calls[k].0 == i && (forall|l: int|
                k < l < calls.len() ==> #[trigger] calls[l].0 != i) ==> apply_sets(slots, calls)[i]
                == Some(calls[k].1),
        (forall|k: int| 0 <= k < calls.len() ==> #[trigger] calls[k].0 != i) ==> apply_sets(
            slots,
            calls,
        )[i] == slots[i],
    decreases calls.len(),
{
    if calls.len() > 0 {
        let init = calls.drop_last();
        assert forall|k: int| 0 <= k < init.len() implies #[trigger] init[k].0 < slots.len() by {
            assert(init[k] == calls[k]);
        }
        lemma_apply_sets_slot(slots, init, i);
        lemma_apply_sets_len(slots, init);
        let n = calls.len() - 1;
        assert forall|k: int|
            0 <= k < calls.len() && #[trigger] calls[k].0 == i && (forall|l: int|
                k < l < calls.len() ==> #[trigger] calls[l].0 != i) implies apply_sets(
            slots,
            calls,
        )[i] == Some(calls[k].1) by {
            if k < n {
                assert(calls[n].0 != i);
                assert(init[k] == calls[k]);
                assert forall|l: int| k < l < init.len() implies #[trigger] init[l].0 != i by {
                    assert(init[l] == calls[l]);
                }
            }
        }
        if forall|k: int| 0 <= k < calls.len() ==> #[trigger] calls[k].0 != i {
            assert forall|k: int| 0 <= k < init.len() implies #[trigger] init[k].0 != i by {
                assert(init[k] == calls[k]);
            }
        }
    }
}

/// A builder whose fields are all required fails to build when no setter
/// was called, and reports the first field in declaration order.
pub proof fn lemma_unset_required_fails_at_first<V>(
    fields: Seq<FieldDescriptor>,
    r: Result<Record<V>, MissingField>,
)
    requires
        fields.len() > 0,
        forall|i: int| 0 <= i < fields.len() ==> !#[trigger] fields[i].optional,
        build_result(fields, empty_slots::<V>(fields.len()), r),
    ensures
        r is Err,
        r->Err_0.index == 0,
        r->Err_0.name@ == fields[0].name@,
{
    let slots = empty_slots::<V>(fields.len());
    assert(is_missing(fields, slots, 0));
    if r is Err && r->Err_0.index > 0 {
        assert(!is_missing(fields, slots, 0));
    }
}

/// Calling the setter of every field exactly once, in any order, on a fresh
/// builder makes `build` succeed with exactly the values passed.
pub proof fn lemma_every_setter_once_builds<V>(
    fields: Seq<FieldDescriptor>,
    calls: Seq<(usize, V)>,
    r: Result<Record<V>, MissingField>,
)
    requires
        forall|k: int| 0 <= k < calls.len() ==> #[trigger] calls[k].0 < fields.len(),
        forall|i: int| 0 <= i < fields.len() ==> #[trigger] calls_setter(calls, i),
        forall|k: int, l: int| 0 <= k < l < calls.len() ==> calls[k].0 != calls[l].0,
        build_result(fields, apply_sets(empty_slots::<V>(fields.len()), calls), r),
    ensures
        r is Ok,
        r->Ok_0.values@.len() == fields.len(),
        forall|k: int|
            0 <= k < calls.len() ==> r->Ok_0.values@[#[trigger] calls[k].0 as int] == Some(
                calls[k].1,
            ),
{
    let empty = empty_slots::<V>(fields.len());
    let slots = apply_sets(empty, calls);
    lemma_apply_sets_len(empty, calls);
    assert forall|k: int| 0 <= k < calls.len() implies slots[#[trigger] calls[k].0 as int] == Some(
        calls[k].1,
    ) by {
        lemma_apply_sets_slot(empty, calls, calls[k].0 as int);
        assert forall|l: int| k < l < calls.len() implies #[trigger] calls[l].0 != calls[k].0 by {}
    }
    assert forall|i: int| 0 <= i < fields.len() implies !#[trigger] is_missing(fields, slots, i) by {
        assert(calls_setter(calls, i));
        let k = choose|k: int| 0 <= k < calls.len() && #[trigger] calls[k].0 == i;
        assert(slots[calls[k].0 as int] == Some(calls[k].1));
    }
    if r is Err {
        assert(!is_missing(fields, slots, r->Err_0.index as int));
    }
}

/// An optional field whose setter was never called never blocks `build`: the
/// build fails only on a required field, and succeeds with the optional
/// field absent exactly when every required field is set.
pub proof fn lemma_unset_optional_never_blocks<V>(
    fields: Seq<FieldDescriptor>,
    slots: Seq<Option<V>>,
    i: int,
    r: Result<Record<V>, MissingField>,
)
    requires
        slots.len() == fields.len(),
        0 <= i < fields.len(),
        fields[i].optional,
        slots[i] is None,
        build_result(fields, slots, r),
    ensures
        r is Err ==> r->Err_0.index != i,
        r is Ok <==> (forall|j: int|
            0 <= j < fields.len() && !#[trigger] fields[j].optional ==> slots[j] is Some),
        r is Ok ==> r->Ok_0.values@[i] is None,
{
    if r is Err {
        let e = r->Err_0.index as int;
        assert(is_missing(fields, slots, e));
        assert(!fields[e].optional && slots[e] is None);
    } else {
        assert forall|j: int|
            0 <= j < fields.len() && !#[trigger] fields[j].optional implies slots[j] is Some by {
            assert(!is_missing(fields, slots, j));
        }
    }
}

/// The slots of a builder made by the factory are a function of the setter
/// calls made on it alone: a slot that none of those calls set is still
/// absent, whatever calls were made on any other builder.
pub proof fn lemma_fresh_builder_changes_only_by_its_calls<V>(
    n: nat,
    calls: Seq<(usize, V)>,
    i: int,
)
    requires
        forall|k: int| 0 <= k < calls.len() ==> #[trigger] calls[k].0 < n,
        0 <= i < n,
        forall|k: int| 0 <= k < calls.len() ==> #[trigger] calls[k].0 != i,
    ensures
        apply_sets(empty_slots::<V>(n), calls).len() == n,
        apply_sets(empty_slots::<V>(n), calls)[i] is None,
{
    lemma_apply_sets_len(empty_slots::<V>(n), calls);
    lemma_apply_sets_slot(empty_slots::<V>(n), calls, i);
}

/// Calling a field's setter twice keeps only the second value: the slots are
/// as after the second call alone, and a successful build holds that value.
pub proof fn lemma_last_write_wins<V>(
    fields: Seq<FieldDescriptor>,
    slots: Seq<Option<V>>,
    i: usize,
    first: V,
    second: V,
    r: Result<Record<V>, MissingField>,
)
    requires
        slots.len() == fields.len(),
        i < fields.len(),
        build_result(fields, apply_sets(slots, seq![(i, first), (i, second)]), r),
    ensures
        apply_sets(slots, seq![(i, first), (i, second)]) == slots.update(i as int, Some(second)),
        r is Ok ==> r->Ok_0.values@[i as int] == Some(second),
{
    let calls = seq![(i, first), (i, second)];
    let once = seq![(i, first)];
    assert(calls.drop_last() =~= once);
    assert(once.drop_last() =~= Seq::<(usize, V)>::empty());
    assert(apply_sets(slots, once.drop_last()) == slots);
    assert(once.last() == (i, first));
    assert(calls.last() == (i, second));
    assert(apply_sets(slots, once) == slots.update(i as int, Some(first)));
    assert(apply_sets(slots, calls) =~= slots.update(i as int, Some(second)));
}

} // verus!
