//! The named fields of one event, in the order they were recorded.
use vstd::prelude::*;

use smallvec::SmallVec;

use crate::style::decimal;
use crate::text::text_eq;

verus! {

/// One named field of an event, with its value as text.
pub struct Field {
    pub name: String,
    pub value: String,
}

impl View for Field {
    type V = (Seq<char>, Seq<char>);

    open spec fn view(&self) -> (Seq<char>, Seq<char>) {
        (self.name@, self.value@)
    }
}

/// The name of the field that holds an event's message.
pub open spec fn message_key() -> Seq<char> {
    seq!['m', 'e', 's', 's', 'a', 'g', 'e']
}

/// The name of the field that marks an event as a success.
pub open spec fn success_key() -> Seq<char> {
    seq!['s', 'u', 'c', 'c', 'e', 's', 's']
}

/// The name of the field that holds an event's cause.
pub open spec fn cause_key() -> Seq<char> {
    seq!['c', 'a', 'u', 's', 'e']
}

/// The text of the boolean `true`.
pub open spec fn true_text() -> Seq<char> {
    seq!['t', 'r', 'u', 'e']
}

/// The text of the boolean `false`.
pub open spec fn false_text() -> Seq<char> {
    seq!['f', 'a', 'l', 's', 'e']
}

/// The text of a boolean.
pub open spec fn bool_text(b: bool) -> Seq<char> {
    if b {
        true_text()
    } else {
        false_text()
    }
}

/// The decimal text of an integer, with a leading `-` when it is negative.
pub open spec fn int_text(n: int) -> Seq<char> {
    if n < 0 {
        seq!['-'] + decimal((-n) as nat)
    } else {
        decimal(n as nat)
    }
}

/// The views of a run of fields.
pub open spec fn field_views(fields: Seq<Field>) -> Seq<(Seq<char>, Seq<char>)> {
    fields.map_values(|f: Field| f@)
}

/// Some field is named `success` and holds `true`.
pub open spec fn has_success(fields: Seq<(Seq<char>, Seq<char>)>) -> bool {
    exists|k: int| 0 <= k < fields.len() && #[trigger] fields[k] == (success_key(), true_text())
}

/// The event has one field, and it is the message.
pub open spec fn is_simple(fields: Seq<(Seq<char>, Seq<char>)>) -> bool {
    fields.len() == 1 && fields[0].0 == message_key()
}

/// The value of the first field called `name`, if any.
pub open spec fn first_value(fields: Seq<(Seq<char>, Seq<char>)>, name: Seq<char>) -> Option<
    Seq<char>,
>
    decreases fields.len(),
{
    if fields.len() == 0 {
        None
    } else if fields[0].0 == name {
        Some(fields[0].1)
    } else {
        first_value(fields.drop_first(), name)
    }
}

/// Fields in a `SmallVec` that keeps the first four inline.
#[verifier::external_body]
pub struct FieldList {
    items: SmallVec<[Field; 4]>,
}

/// What a field list holds, in the order the fields were pushed.
pub uninterp spec fn collected(v: FieldList) -> Seq<Field>;

/// Relies on `SmallVec::new`: the vector starts empty.
#[verifier::external_body]
fn small_vec_new() -> (r: FieldList)
    ensures
        collected(r) == Seq::<Field>::empty(),
{
    FieldList { items: SmallVec::new() }
}

/// Relies on `SmallVec::push`: the item goes to the end.
#[verifier::external_body]
fn small_vec_push(v: &mut FieldList, item: Field)
    ensures
        collected(*final(v)) == collected(*old(v)).push(item),
{
    v.items.push(item)
}

/// Relies on `SmallVec::as_slice`: the items in order.
#[verifier::external_body]
fn small_vec_as_slice(v: &FieldList) -> (r: &[Field])
    ensures
        r@ == collected(*v),
{
    v.items.as_slice()
}

/// Relies on `itoa::Buffer::format` for `i64`: the decimal text of the value.
#[verifier::external_body]
fn itoa_i64(value: i64) -> (r: String)
    ensures
        r@ == int_text(value as int),
{
    itoa::Buffer::new().format(value).to_owned()
}

/// Relies on `itoa::Buffer::format` for `u64`: the decimal text of the value.
#[verifier::external_body]
fn itoa_u64(value: u64) -> (r: String)
    ensures
        r@ == int_text(value as int),
{
    itoa::Buffer::new().format(value).to_owned()
}

/// `name` is the message field's name.
pub fn is_message_key(name: &str) -> (r: bool)
    ensures
        r == (name@ == message_key()),
{
    proof {
        reveal_strlit("message");
        assert("message"@ =~= message_key());
    }
    text_eq(name, "message")
}

/// `name` is the success field's name.
pub fn is_success_key(name: &str) -> (r: bool)
    ensures
        r == (name@ == success_key()),
{
    proof {
        reveal_strlit("success");
        assert("success"@ =~= success_key());
    }
    text_eq(name, "success")
}

/// `name` is the cause field's name.
pub fn is_cause_key(name: &str) -> (r: bool)
    ensures
        r == (name@ == cause_key()),
{
    proof {
        reveal_strlit("cause");
        assert("cause"@ =~= cause_key());
    }
    text_eq(name, "cause")
}

/// The fields of one event, in emission order.
pub struct FieldCollector {
    fields: FieldList,
}

impl FieldCollector {
    /// The fields recorded so far, as (name, value) texts.
    pub closed spec fn view_fields(&self) -> Seq<(Seq<char>, Seq<char>)> {
        field_views(collected(self.fields))
    }

    /// An empty collector.
    pub fn new() -> (r: Self)
        ensures
            r.view_fields() == Seq::<(Seq<char>, Seq<char>)>::empty(),
    {
        let r = FieldCollector { fields: small_vec_new() };
        assert(r.view_fields() =~= Seq::<(Seq<char>, Seq<char>)>::empty());
        r
    }

    fn record(&mut self, name: &str, value: String)
        ensures
            final(self).view_fields() == old(self).view_fields().push((name@, value@)),
    {
        let field = Field { name: name.to_owned(), value };
        small_vec_push(&mut self.fields, field);
        assert(final(self).view_fields() =~= old(self).view_fields().push((name@, value@)));
    }

    /// Records a signed integer field as its decimal text.
    pub fn record_i64(&mut self, name: &str, value: i64)
        ensures
            final(self).view_fields() == old(self).view_fields().push((name@, int_text(value as int))),
    {
        self.record(name, itoa_i64(value));
    }

    /// Records an unsigned integer field as its decimal text.
    pub fn record_u64(&mut self, name: &str, value: u64)
        ensures
            final(self).view_fields() == old(self).view_fields().push((name@, int_text(value as int))),
    {
        self.record(name, itoa_u64(value));
    }

    /// Records a boolean field as `true` or `false`.
    pub fn record_bool(&mut self, name: &str, value: bool)
        ensures
            final(self).view_fields() == old(self).view_fields().push((name@, bool_text(value))),
    {
        proof {
            reveal_strlit("true");
            reveal_strlit("false");
            assert("true"@ =~= true_text());
            assert("false"@ =~= false_text());
        }
        let text = if value {
            "true"
        } else {
            "false"
        };
        self.record(name, text.to_owned());
    }

    /// Records a text field as it stands.
    pub fn record_str(&mut self, name: &str, value: &str)
        ensures
            final(self).view_fields() == old(self).view_fields().push((name@, value@)),
    {
        self.record(name, value.to_owned());
    }

    /// Records a field of another type by its debug text.
    pub fn record_debug(&mut self, name: &str, debug_text: &str)
        ensures
            final(self).view_fields() == old(self).view_fields().push((name@, debug_text@)),
    {
        self.record(name, debug_text.to_owned());
    }

    /// The fields recorded so far, in order.
    pub fn fields(&self) -> (r: &[Field])
        ensures
            field_views(r@) == self.view_fields(),
    {
        small_vec_as_slice(&self.fields)
    }

    /// Some field is named `success` and holds `true`.
    pub fn has_success_field(&self) -> (r: bool)
        ensures
            r == has_success(self.view_fields()),
    {
        has_success_field(self.fields())
    }

    /// The event has exactly one field, and it is the message.
    pub fn is_simple_message(&self) -> (r: bool)
        ensures
            r == is_simple(self.view_fields()),
    {
        is_simple_message(self.fields())
    }

    /// The value of the first `cause` field, if any.
    pub fn get_cause_value(&self) -> (r: Option<&str>)
        ensures
            match r {
                Some(v) => first_value(self.view_fields(), cause_key()) == Some(v@),
                None => first_value(self.view_fields(), cause_key()) is None,
            },
    {
        let fields = self.fields();
        proof {
            reveal_strlit("cause");
            assert("cause"@ =~= cause_key());
        }
        match first_named(fields, "cause") {
            Some(i) => Some(fields[i].value.as_str()),
            None => None,
        }
    }
}

/// Some field is named `success` and holds `true`.
pub fn has_success_field(fields: &[Field]) -> (r: bool)
    ensures
        r == has_success(field_views(fields@)),
{
    let ghost fv = field_views(fields@);
    proof {
        reveal_strlit("true");
        assert("true"@ =~= true_text());
    }
    let mut i: usize = 0;
    while i < fields.len()
        invariant
            fv == field_views(fields@),
            "true"@ == true_text(),
            i <= fields.len(),
            forall|k: int| 0 <= k < i ==> fv[k] != (success_key(), true_text()),
        decreases fields.len() - i,
    {
        assert(fv[i as int] == fields@[i as int]@);
        if is_success_key(fields[i].name.as_str()) && text_eq(fields[i].value.as_str(), "true") {
            assert(has_success(fv));
            return true;
        }
        i = i + 1;
    }
    false
}

/// The event has exactly one field, and it is the message.
pub fn is_simple_message(fields: &[Field]) -> (r: bool)
    ensures
        r == is_simple(field_views(fields@)),
{
    if fields.len() == 1 {
        assert(field_views(fields@)[0] == fields@[0]@);
    }
    fields.len() == 1 && is_message_key(fields[0].name.as_str())
}

/// Index of the first field called `name`, if any.
pub fn first_named(fields: &[Field], name: &str) -> (r: Option<usize>)
    ensures
        match r {
            Some(i) => i < fields@.len() && first_value(field_views(fields@), name@) == Some(
                fields@[i as int].value@,
            ),
            None => first_value(field_views(fields@), name@) is None,
        },
{
    let ghost fv = field_views(fields@);
    assert(fv.subrange(0, fv.len() as int) =~= fv);
    let mut i: usize = 0;
    while i < fields.len()
        invariant
            fv == field_views(fields@),
            i <= fields.len(),
            first_value(fv, name@) == first_value(fv.subrange(i as int, fv.len() as int), name@),
        decreases fields.len() - i,
    {
        let ghost rest = fv.subrange(i as int, fv.len() as int);
        if text_eq(fields[i].name.as_str(), name) {
            return Some(i);
        }
        assert(rest.drop_first() =~= fv.subrange(i + 1, fv.len() as int));
        i = i + 1;
    }
    None
}

} // verus!
