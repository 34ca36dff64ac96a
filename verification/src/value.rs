//! A model of the values that a guest script hands across the boundary.

use vstd::prelude::*;

verus! {

/// A value of the guest, as far as the bridge looks into it.
#[derive(Debug, PartialEq, Eq)]
pub enum GuestValue {
    /// The engine's "no value".
    Undefined,
    Null,
    Bool(bool),
    /// A number with an integral value.
    Int(i64),
    Str(String),
    /// A buffer of raw bytes.
    Bytes(Vec<u8>),
    Array(Vec<GuestValue>),
    /// An object: its own properties, in the order in which they were set.
    Object(Vec<Property>),
    /// A value of any other kind: a function, a symbol, a number with a
    /// fraction.
    Opaque,
}

/// One property of an object.
#[derive(Debug, PartialEq, Eq)]
pub struct Property {
    pub key: String,
    pub value: GuestValue,
}

/// The mathematical value of a [`GuestValue`].
pub enum ValueView {
    Undefined,
    Null,
    Bool(bool),
    Int(int),
    Str(Seq<char>),
    Bytes(Seq<u8>),
    Array(Seq<ValueView>),
    Object(Seq<(Seq<char>, ValueView)>),
    Opaque,
}

impl View for GuestValue {
    type V = ValueView;

    open spec fn view(&self) -> ValueView
        decreases self,
    {
        match self {
            GuestValue::Undefined => ValueView::Undefined,
            GuestValue::Null => ValueView::Null,
            GuestValue::Bool(b) => ValueView::Bool(*b),
            GuestValue::Int(n) => ValueView::Int(*n as int),
            GuestValue::Str(s) => ValueView::Str(s@),
            GuestValue::Bytes(b) => ValueView::Bytes(b@),
            GuestValue::Array(items) => ValueView::Array(
                Seq::new(
                    items@.len(),
                    |i: int|
                        if 0 <= i < items@.len() {
                            items@[i].view()
                        } else {
                            ValueView::Undefined
                        },
                ),
            ),
            GuestValue::Object(props) => ValueView::Object(
                Seq::new(
                    props@.len(),
                    |i: int|
                        if 0 <= i < props@.len() {
                            (props@[i].key@, props@[i].value.view())
                        } else {
                            (Seq::empty(), ValueView::Undefined)
                        },
                ),
            ),
            GuestValue::Opaque => ValueView::Opaque,
        }
    }
}

/// The properties of an object as pairs of key and value.
pub open spec fn properties_view(props: Seq<Property>) -> Seq<(Seq<char>, ValueView)> {
    Seq::new(props.len(), |i: int| (props[i].key@, props[i].value@))
}

/// The elements of an array.
pub open spec fn items_view(items: Seq<GuestValue>) -> Seq<ValueView> {
    Seq::new(items.len(), |i: int| items[i]@)
}

/// The view of an object is the view of its properties.
pub proof fn lemma_object_view(props: Vec<Property>)
    ensures
        GuestValue::Object(props)@ == ValueView::Object(properties_view(props@)),
{
    reveal_with_fuel(<GuestValue as View>::view, 2);
    let whole = GuestValue::Object(props)@->Object_0;
    assert forall|i: int| 0 <= i < props@.len() implies whole[i] == properties_view(props@)[i] by {
        assert(whole[i].0 == props@[i].key@);
        assert(whole[i].1 == props@[i].value@);
    }
    assert(whole =~= properties_view(props@));
}

/// The view of an array is the view of its elements.
pub proof fn lemma_array_view(items: Vec<GuestValue>)
    ensures
        GuestValue::Array(items)@ == ValueView::Array(items_view(items@)),
{
    assert(GuestValue::Array(items)@->Array_0 =~= items_view(items@));
}

/// The value of the first property with the given key.
pub open spec fn property(props: Seq<(Seq<char>, ValueView)>, key: Seq<char>) -> Option<ValueView>
    decreases props.len(),
{
    if props.len() == 0 {
        None
    } else if props[0].0 == key {
        Some(props[0].1)
    } else {
        property(props.skip(1), key)
    }
}

/// Finds the first property with the given key.
pub fn find_property<'a>(props: &'a Vec<Property>, key: &str) -> (r: Option<&'a GuestValue>)
    ensures
        match r {
            Some(value) => property(properties_view(props@), key@) == Some(value@),
            None => property(properties_view(props@), key@) is None,
        },
{
    let ghost all = properties_view(props@);
    let wanted = key.to_owned();
    let mut i: usize = 0;
    assert(all.skip(0) =~= all);
    while i < props.len()
        invariant
            i <= props.len(),
            wanted@ == key@,
            all == properties_view(props@),
            property(all, key@) == property(all.skip(i as int), key@),
        decreases props.len() - i,
    {
        proof {
            assert(all.skip(i as int)[0] == all[i as int]);
            assert(all.skip(i as int).skip(1) =~= all.skip(i + 1));
        }
        if props[i].key == wanted {
            return Some(&props[i].value);
        }
        i = i + 1;
    }
    None
}

impl GuestValue {
    /// The value of a property of an object; `None` for a value that is no
    /// object, and for an object without that property.
    pub fn get(&self, key: &str) -> (r: Option<&GuestValue>)
        ensures
            match r {
                Some(value) => self@ matches ValueView::Object(props) && property(props, key@)
                    == Some(value@),
                None => self@ matches ValueView::Object(props) ==> property(props, key@) is None,
            },
    {
        match self {
            GuestValue::Object(props) => {
                proof {
                    lemma_object_view(*props);
                }
                find_property(props, key)
            },
            _ => None,
        }
    }
}

} // verus!
