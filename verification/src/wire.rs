//! The wire model: scalar values, ordered fields, and how lists and numbers
//! are written as text.

use crate::models::common::param_serialize;
use vstd::prelude::*;

verus! {

/// A scalar as a request carries it.
#[derive(Clone, Debug, PartialEq, Eq)]
pub enum WireValue {
    Bool(bool),
    Int(i32),
    Text(String),
}

/// The mathematical value of a [`WireValue`].
pub enum Wire {
    Bool(bool),
    Int(int),
    Text(Seq<char>),
}

impl DeepView for WireValue {
    type V = Wire;

    open spec fn deep_view(&self) -> Wire {
        match self {
            WireValue::Bool(b) => Wire::Bool(*b),
            WireValue::Int(n) => Wire::Int(*n as int),
            WireValue::Text(s) => Wire::Text(s@),
        }
    }
}

/// A named wire value. A request is an ordered sequence of these, all at one
/// level: a value is a scalar, never a further group of fields.
pub type Field = (String, WireValue);

/// The mathematical value of a sequence of fields.
pub type WireFields = Seq<(Seq<char>, Wire)>;

/// `parts` written one after the other with `sep` between neighbours.
pub open spec fn join(parts: Seq<Seq<char>>, sep: Seq<char>) -> Seq<char>
    decreases parts.len(),
{
    if parts.len() == 0 {
        Seq::empty()
    } else if parts.len() == 1 {
        parts[0]
    } else {
        join(parts.drop_last(), sep) + sep + parts.last()
    }
}

/// Joining after one more part: the separator comes only between parts.
pub proof fn lemma_join_push(parts: Seq<Seq<char>>, sep: Seq<char>, part: Seq<char>)
    ensures
        join(parts.push(part), sep) == if parts.len() == 0 {
            part
        } else {
            join(parts, sep) + sep + part
        },
{
    let longer = parts.push(part);
    assert(longer.drop_last() =~= parts);
    assert(longer.last() == part);
}

/// Joins `parts` with `sep`.
pub fn join_strings(parts: &Vec<String>, sep: &str) -> (r: String)
    ensures
        r@ == join(parts.deep_view(), sep@),
{
    let mut out = String::new();
    let mut i: usize = 0;
    while i < parts.len()
        invariant
            i <= parts.len(),
            out@ == join(parts.deep_view().take(i as int), sep@),
        decreases parts.len() - i,
    {
        proof {
            let done = parts.deep_view().take(i as int);
            lemma_join_push(done, sep@, parts[i as int]@);
            assert(parts.deep_view().take(i + 1) =~= done.push(parts[i as int]@));
        }
        if i > 0 {
            out.append(sep);
        }
        out.append(parts[i].as_str());
        i += 1;
    }
    assert(parts.deep_view().take(i as int) =~= parts.deep_view());
    out
}

/// The character of one decimal digit.
pub open spec fn digit(d: int) -> char {
    if d == 0 {
        '0'
    } else if d == 1 {
        '1'
    } else if d == 2 {
        '2'
    } else if d == 3 {
        '3'
    } else if d == 4 {
        '4'
    } else if d == 5 {
        '5'
    } else if d == 6 {
        '6'
    } else if d == 7 {
        '7'
    } else if d == 8 {
        '8'
    } else {
        '9'
    }
}

/// A natural number in decimal, without leading zeros.
pub open spec fn decimal_nat(n: nat) -> Seq<char>
    decreases n,
{
    if n < 10 {
        seq![digit(n as int)]
    } else {
        decimal_nat(n / 10).push(digit((n % 10) as int))
    }
}

/// An integer in decimal: a minus sign for a negative one, then its magnitude.
pub open spec fn decimal(n: int) -> Seq<char> {
    if n < 0 {
        seq!['-'] + decimal_nat((-n) as nat)
    } else {
        decimal_nat(n as nat)
    }
}

/// Digits given lowest first, written highest first.
spec fn digits_reversed(lowest_first: Seq<u8>) -> Seq<char> {
    Seq::new(lowest_first.len(), |i: int| digit(lowest_first[lowest_first.len() - 1 - i] as int))
}

fn digit_str(d: u8) -> (r: &'static str)
    requires
        d < 10,
    ensures
        r@ == seq![digit(d as int)],
{
    proof {
        reveal_strlit("0");
        reveal_strlit("1");
        reveal_strlit("2");
        reveal_strlit("3");
        reveal_strlit("4");
        reveal_strlit("5");
        reveal_strlit("6");
        reveal_strlit("7");
        reveal_strlit("8");
        reveal_strlit("9");
    }
    let r = if d == 0 {
        "0"
    } else if d == 1 {
        "1"
    } else if d == 2 {
        "2"
    } else if d == 3 {
        "3"
    } else if d == 4 {
        "4"
    } else if d == 5 {
        "5"
    } else if d == 6 {
        "6"
    } else if d == 7 {
        "7"
    } else if d == 8 {
        "8"
    } else {
        "9"
    };
    assert(r@ =~= seq![digit(d as int)]);
    r
}

/// Writes a magnitude in decimal.
pub fn decimal_nat_string(n: u32) -> (r: String)
    ensures
        r@ == decimal_nat(n as nat),
{
    let mut rest: u32 = n;
    let mut low: Vec<u8> = Vec::new();
    while rest >= 10
        invariant
            decimal_nat(n as nat) == decimal_nat(rest as nat) + digits_reversed(low@),
            forall|k: int| 0 <= k < low.len() ==> low[k] < 10,
        decreases rest,
    {
        let d: u8 = (rest % 10) as u8;
        proof {
            let before = digits_reversed(low@);
            let after = digits_reversed(low@.push(d));
            assert(after =~= seq![digit(d as int)] + before);
            assert(decimal_nat(rest as nat) =~= decimal_nat((rest / 10) as nat) + seq![
                digit(d as int),
            ]);
            assert(decimal_nat((rest / 10) as nat) + seq![digit(d as int)] + before
                =~= decimal_nat((rest / 10) as nat) + after);
        }
        low.push(d);
        rest = rest / 10;
    }
    let mut out = String::from_str(digit_str(rest as u8));
    let mut i: usize = low.len();
    while i > 0
        invariant
            i <= low.len(),
            forall|k: int| 0 <= k < low.len() ==> low[k] < 10,
            out@ == seq![digit(rest as int)] + digits_reversed(low@).take(low.len() - i),
        decreases i,
    {
        i -= 1;
        proof {
            let all = digits_reversed(low@);
            assert(all.take(low.len() - i) =~= all.take(low.len() - i - 1).push(
                digit(low[i as int] as int),
            ));
        }
        out.append(digit_str(low[i]));
    }
    assert(digits_reversed(low@).take(low.len() as int) =~= digits_reversed(low@));
    out
}

/// Writes an integer in decimal.
pub fn decimal_string(n: i32) -> (r: String)
    ensures
        r@ == decimal(n as int),
{
    if n < 0 {
        let magnitude: u32 = (0 - (n as i64)) as u32;
        let mut out = String::from_str("-");
        proof {
            reveal_strlit("-");
        }
        let digits = decimal_nat_string(magnitude);
        out.append(digits.as_str());
        assert(out@ =~= seq!['-'] + decimal_nat((-n) as nat));
        out
    } else {
        decimal_nat_string(n as u32)
    }
}

/// A scalar as plain text: `true` or `false`, a decimal number, or the text
/// itself.
pub open spec fn scalar_text(value: Wire) -> Seq<char> {
    match value {
        Wire::Bool(b) => if b {
            "true"@
        } else {
            "false"@
        },
        Wire::Int(n) => decimal(n),
        Wire::Text(s) => s,
    }
}

/// Writes a scalar as plain text.
pub fn scalar_string(value: &WireValue) -> (r: String)
    ensures
        r@ == scalar_text(value.deep_view()),
{
    match value {
        WireValue::Bool(b) => if *b {
            String::from_str("true")
        } else {
            String::from_str("false")
        },
        WireValue::Int(n) => decimal_string(*n),
        WireValue::Text(s) => s.clone(),
    }
}

/// Puts the fields of `more` behind those of `out`.
pub fn extend(out: &mut Vec<Field>, more: Vec<Field>)
    ensures
        final(out).deep_view() == old(out).deep_view() + more.deep_view(),
{
    let mut rest = more;
    out.append(&mut rest);
    assert(out.deep_view() =~= old(out).deep_view() + more.deep_view());
}

/// A place in a parameter group: the key, and the value where one is set.
pub type Slot = (Seq<char>, Option<Wire>);

/// The fields that one slot contributes: one where it is set, none where it
/// is not.
pub open spec fn slot_fields(slot: Slot) -> WireFields {
    match slot.1 {
        Some(value) => seq![(slot.0, value)],
        None => Seq::empty(),
    }
}

/// The fields of the slots that are set, in the order of the slots.
pub open spec fn present(slots: Seq<Slot>) -> WireFields
    decreases slots.len(),
{
    if slots.len() == 0 {
        Seq::empty()
    } else {
        present(slots.drop_last()) + slot_fields(slots.last())
    }
}

/// The slot of an optional flag.
pub open spec fn bool_slot(key: Seq<char>, value: Option<bool>) -> Slot {
    (
        key,
        match value {
            Some(b) => Some(Wire::Bool(b)),
            None => None,
        },
    )
}

/// The slot of an optional number.
pub open spec fn int_slot(key: Seq<char>, value: Option<i32>) -> Slot {
    (
        key,
        match value {
            Some(n) => Some(Wire::Int(n as int)),
            None => None,
        },
    )
}

/// The slot of an optional text.
pub open spec fn text_slot(key: Seq<char>, value: Option<String>) -> Slot {
    (
        key,
        match value {
            Some(s) => Some(Wire::Text(s@)),
            None => None,
        },
    )
}

/// The slot of an optional word whose text is known.
pub open spec fn label_slot(key: Seq<char>, value: Option<Seq<char>>) -> Slot {
    (
        key,
        match value {
            Some(s) => Some(Wire::Text(s)),
            None => None,
        },
    )
}

/// The slot of an optional list: its items go out as one text, joined with a
/// comma and a space.
pub open spec fn list_slot(key: Seq<char>, value: Option<Vec<String>>) -> Slot {
    (
        key,
        match value {
            Some(items) => Some(Wire::Text(join(items.deep_view(), ", "@))),
            None => None,
        },
    )
}

/// One more slot adds its fields behind those of the others.
pub proof fn lemma_present_push(slots: Seq<Slot>, slot: Slot)
    ensures
        present(slots.push(slot)) == present(slots) + slot_fields(slot),
{
    assert(slots.push(slot).drop_last() =~= slots);
}

/// The fields that stand under a key.
pub open spec fn entries(fields: WireFields, key: Seq<char>) -> WireFields {
    fields.filter(|field: (Seq<char>, Wire)| field.0 == key)
}

/// No two slots share a key.
#[verifier::opaque]
pub open spec fn distinct_slots(slots: Seq<Slot>) -> bool {
    forall|i: int, j: int|
        0 <= i < j < slots.len() ==> (#[trigger] slots[i]).0 != (#[trigger] slots[j]).0
}

proof fn lemma_entries_of_slot(slot: Slot, key: Seq<char>)
    ensures
        entries(slot_fields(slot), key) == if slot.0 == key {
            slot_fields(slot)
        } else {
            Seq::empty()
        },
{
    reveal_with_fuel(Seq::filter, 2);
    let fields = slot_fields(slot);
    if fields.len() == 1 {
        assert(fields.drop_last() =~= Seq::empty());
        if slot.0 == key {
            assert(entries(fields, key) =~= fields);
        }
    }
}

proof fn lemma_entries_of_other_slots(slots: Seq<Slot>, key: Seq<char>)
    requires
        forall|k: int| 0 <= k < slots.len() ==> (#[trigger] slots[k]).0 != key,
    ensures
        entries(present(slots), key) == Seq::<(Seq<char>, Wire)>::empty(),
    decreases slots.len(),
{
    reveal_with_fuel(Seq::filter, 1);
    if slots.len() > 0 {
        let pred = |field: (Seq<char>, Wire)| field.0 == key;
        lemma_entries_of_other_slots(slots.drop_last(), key);
        lemma_entries_of_slot(slots.last(), key);
        Seq::filter_distributes_over_add(
            present(slots.drop_last()),
            slot_fields(slots.last()),
            pred,
        );
    }
}

proof fn lemma_unique_slot_on_wire(slots: Seq<Slot>, i: int, key: Seq<char>)
    requires
        0 <= i < slots.len(),
        slots[i].0 == key,
        forall|k: int| 0 <= k < slots.len() && k != i ==> (#[trigger] slots[k]).0 != key,
    ensures
        entries(present(slots), key) == slot_fields(slots[i]),
    decreases slots.len(),
{
    let pred = |field: (Seq<char>, Wire)| field.0 == key;
    let front = slots.drop_last();
    let last = slots.last();
    Seq::filter_distributes_over_add(present(front), slot_fields(last), pred);
    lemma_entries_of_slot(last, key);
    if i == slots.len() - 1 {
        lemma_entries_of_other_slots(front, key);
        assert(entries(present(slots), key) =~= slot_fields(last));
    } else {
        lemma_unique_slot_on_wire(front, i, key);
        assert(entries(present(slots), key) =~= slot_fields(front[i]));
    }
}

/// Where no two slots share a key, what stands on the wire under the key of
/// a slot is what that slot contributes: its one value where it is set, and
/// nothing, not even the key, where it is not.
pub proof fn lemma_slot_on_wire(slots: Seq<Slot>, i: int)
    requires
        distinct_slots(slots),
        0 <= i < slots.len(),
    ensures
        entries(present(slots), slots[i].0) == slot_fields(slots[i]),
{
    reveal(distinct_slots);
    lemma_unique_slot_on_wire(slots, i, slots[i].0);
}

/// A list that is given goes out as one field: its key with the items joined
/// by a comma and a space. A list that is absent contributes nothing.
pub proof fn lemma_list_slot(key: Seq<char>, value: Option<Vec<String>>)
    ensures
        match value {
            Some(items) => slot_fields(list_slot(key, value)) == seq![
                (key, Wire::Text(join(items.deep_view(), ", "@))),
            ],
            None => slot_fields(list_slot(key, value)) == Seq::<(Seq<char>, Wire)>::empty(),
        },
{
}

/// Collects the fields of a parameter group, slot by slot.
pub(crate) struct FieldBuilder {
    fields: Vec<Field>,
    slots: Ghost<Seq<Slot>>,
}

impl FieldBuilder {
    /// The slots visited so far.
    pub closed spec fn slots(&self) -> Seq<Slot> {
        self.slots@
    }

    /// The fields collected are those of the slots visited.
    pub closed spec fn wf(&self) -> bool {
        self.fields.deep_view() == present(self.slots@)
    }

    /// A builder that has visited no slot.
    pub fn new() -> (r: Self)
        ensures
            r.wf(),
            r.slots() == Seq::<Slot>::empty(),
    {
        let r = FieldBuilder { fields: Vec::new(), slots: Ghost(Seq::empty()) };
        assert(r.fields.deep_view() =~= present(r.slots@));
        r
    }

    fn visit(&mut self, key: &str, value: Option<WireValue>, Ghost(slot): Ghost<Slot>)
        requires
            old(self).wf(),
            slot.0 == key@,
            slot.1 == value.deep_view(),
        ensures
            final(self).wf(),
            final(self).slots() == old(self).slots().push(slot),
    {
        proof {
            lemma_present_push(self.slots@, slot);
        }
        let ghost before = self.fields.deep_view();
        match value {
            Some(v) => {
                self.fields.push((String::from_str(key), v));
                assert(self.fields.deep_view() =~= before + slot_fields(slot));
            },
            None => {
                assert(self.fields.deep_view() =~= before + slot_fields(slot));
            },
        }
        self.slots = Ghost(self.slots@.push(slot));
    }

    /// Visits the slot of an optional flag.
    pub fn flag(&mut self, key: &str, value: &Option<bool>)
        requires
            old(self).wf(),
        ensures
            final(self).wf(),
            final(self).slots() == old(self).slots().push(bool_slot(key@, *value)),
    {
        let wire = match value {
            Some(b) => Some(WireValue::Bool(*b)),
            None => None,
        };
        self.visit(key, wire, Ghost(bool_slot(key@, *value)));
    }

    /// Visits the slot of an optional number.
    pub fn number(&mut self, key: &str, value: &Option<i32>)
        requires
            old(self).wf(),
        ensures
            final(self).wf(),
            final(self).slots() == old(self).slots().push(int_slot(key@, *value)),
    {
        let wire = match value {
            Some(n) => Some(WireValue::Int(*n)),
            None => None,
        };
        self.visit(key, wire, Ghost(int_slot(key@, *value)));
    }

    /// Visits the slot of an optional text.
    pub fn text(&mut self, key: &str, value: &Option<String>)
        requires
            old(self).wf(),
        ensures
            final(self).wf(),
            final(self).slots() == old(self).slots().push(text_slot(key@, *value)),
    {
        let wire = match value {
            Some(s) => Some(WireValue::Text(s.clone())),
            None => None,
        };
        self.visit(key, wire, Ghost(text_slot(key@, *value)));
    }

    /// Visits the slot of an optional word.
    pub fn label(&mut self, key: &str, value: Option<&str>)
        requires
            old(self).wf(),
        ensures
            final(self).wf(),
            final(self).slots() == old(self).slots().push(
                label_slot(
                    key@,
                    match value {
                        Some(s) => Some(s@),
                        None => None,
                    },
                ),
            ),
    {
        let ghost slot = label_slot(
            key@,
            match value {
                Some(s) => Some(s@),
                None => None,
            },
        );
        let wire = match value {
            Some(s) => Some(WireValue::Text(String::from_str(s))),
            None => None,
        };
        self.visit(key, wire, Ghost(slot));
    }

    /// Visits the slot of an optional list.
    pub fn list(&mut self, key: &str, value: &Option<Vec<String>>)
        requires
            old(self).wf(),
        ensures
            final(self).wf(),
            final(self).slots() == old(self).slots().push(list_slot(key@, *value)),
    {
        let wire = match param_serialize(value) {
            Some(text) => Some(WireValue::Text(text)),
            None => None,
        };
        self.visit(key, wire, Ghost(list_slot(key@, *value)));
    }

    /// The fields of the slots visited.
    pub fn finish(self) -> (r: Vec<Field>)
        requires
            self.wf(),
        ensures
            r.deep_view() == present(self.slots()),
    {
        self.fields
    }
}

} // verus!
