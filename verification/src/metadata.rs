//! Request metadata: the header entries that travel with an in-flight request.
//!
//! A [`Request`] is modelled as a map from a header name to the values carried
//! under that name, in the order in which they were added. Header names are
//! compared exactly; on the wire they are lower case.

use crate::outside::header_value_from_str;
use vstd::prelude::*;
use vstd::slice::slice_to_vec;
use vstd::utf8::encode_utf8;

verus! {

/// The bytes that may occur in a header value: visible ASCII, space, tab and
/// the opaque range above ASCII; no control characters, no DEL.
pub open spec fn is_header_byte(b: u8) -> bool {
    b >= 32 && b != 127 || b == 9
}

/// A byte string that can be carried as a header value.
pub open spec fn is_header_value(bytes: Seq<u8>) -> bool {
    forall|i: int| 0 <= i < bytes.len() ==> is_header_byte(#[trigger] bytes[i])
}

/// The values that `headers` carries under `name`; empty where it carries none.
pub open spec fn values_of(headers: Map<Seq<char>, Seq<Seq<u8>>>, name: Seq<char>) -> Seq<
    Seq<u8>,
> {
    if headers.dom().contains(name) {
        headers[name]
    } else {
        Seq::empty()
    }
}

/// The value that a reader of `name` observes: the first one carried under it.
pub open spec fn first_value(headers: Map<Seq<char>, Seq<Seq<u8>>>, name: Seq<char>) -> Option<
    Seq<u8>,
> {
    if values_of(headers, name).len() > 0 {
        Some(values_of(headers, name)[0])
    } else {
        None
    }
}

/// `headers` with one more value under `name`, after those already there.
pub open spec fn appended(
    headers: Map<Seq<char>, Seq<Seq<u8>>>,
    name: Seq<char>,
    value: Seq<u8>,
) -> Map<Seq<char>, Seq<Seq<u8>>> {
    headers.insert(name, values_of(headers, name).push(value))
}

/// `headers` with `value` as the only value under `name`.
pub open spec fn replaced(
    headers: Map<Seq<char>, Seq<Seq<u8>>>,
    name: Seq<char>,
    value: Seq<u8>,
) -> Map<Seq<char>, Seq<Seq<u8>>> {
    headers.insert(name, seq![value])
}

/// A validated header value.
#[derive(Debug)]
pub struct HeaderValue {
    bytes: Vec<u8>,
}

impl View for HeaderValue {
    type V = Seq<u8>;

    closed spec fn view(&self) -> Seq<u8> {
        self.bytes@
    }
}

impl HeaderValue {
    #[verifier::type_invariant]
    spec fn well_formed(self) -> bool {
        is_header_value(self.bytes@)
    }

    /// Validates `bytes` as a header value.
    pub fn from_bytes(bytes: &[u8]) -> (value: Option<HeaderValue>)
        ensures
            value is Some <==> is_header_value(bytes@),
            value matches Some(v) ==> v@ == bytes@,
    {
        let mut i: usize = 0;
        while i < bytes.len()
            invariant
                i <= bytes.len(),
                is_header_value(bytes@.take(i as int)),
            decreases bytes.len() - i,
        {
            let b: u8 = bytes[i];
            if !(b >= 32 && b != 127 || b == 9) {
                return None;
            }
            assert(bytes@.take(i + 1) =~= bytes@.take(i as int).push(b));
            i = i + 1;
        }
        assert(bytes@.take(i as int) =~= bytes@);
        Some(HeaderValue { bytes: slice_to_vec(bytes) })
    }

    /// Validates `text` as a header value: the value holds the text's UTF-8
    /// encoding, where every byte of it may occur in a header value.
    pub fn from_text(text: &str) -> (value: Option<HeaderValue>)
        ensures
            value is Some <==> is_header_value(encode_utf8(text@)),
            value matches Some(v) ==> v@ == encode_utf8(text@),
    {
        match header_value_from_str(text) {
            Some(bytes) => Some(HeaderValue { bytes }),
            None => None,
        }
    }

    /// The bytes of the value.
    pub fn as_bytes(&self) -> (bytes: &[u8])
        ensures
            bytes@ == self@,
            is_header_value(self@),
    {
        proof {
            use_type_invariant(self);
        }
        self.bytes.as_slice()
    }

    /// A copy of the value.
    pub fn duplicate(&self) -> (value: HeaderValue)
        ensures
            value@ == self@,
    {
        proof {
            use_type_invariant(self);
        }
        HeaderValue { bytes: slice_to_vec(self.bytes.as_slice()) }
    }
}

/// One header entry: a name and a value carried under it.
#[derive(Debug)]
struct Header {
    name: String,
    value: HeaderValue,
}

/// The values that the entries carry under `name`, in order.
spec fn values_in(entries: Seq<Header>, name: Seq<char>) -> Seq<Seq<u8>>
    decreases entries.len(),
{
    if entries.len() == 0 {
        Seq::empty()
    } else if entries.last().name@ == name {
        values_in(entries.drop_last(), name).push(entries.last().value@)
    } else {
        values_in(entries.drop_last(), name)
    }
}

proof fn lemma_values_in_push(entries: Seq<Header>, entry: Header, name: Seq<char>)
    ensures
        values_in(entries.push(entry), name) == if entry.name@ == name {
            values_in(entries, name).push(entry.value@)
        } else {
            values_in(entries, name)
        },
{
    assert(entries.push(entry).drop_last() =~= entries);
}

/// The metadata of an in-flight request.
#[derive(Debug)]
pub struct Request {
    headers: Vec<Header>,
}

impl View for Request {
    type V = Map<Seq<char>, Seq<Seq<u8>>>;

    closed spec fn view(&self) -> Map<Seq<char>, Seq<Seq<u8>>> {
        Map::new(
            |name: Seq<char>| values_in(self.headers@, name).len() > 0,
            |name: Seq<char>| values_in(self.headers@, name),
        )
    }
}

impl Request {
    proof fn lemma_values(&self, name: Seq<char>)
        ensures
            values_of(self@, name) == values_in(self.headers@, name),
            self@.dom().contains(name) <==> values_in(self.headers@, name).len() > 0,
    {
        assert(values_of(self@, name) =~= values_in(self.headers@, name));
    }

    /// The request's value is `target` where the entries carry under every
    /// name what `target` carries under it, and `target` has no empty entry.
    proof fn lemma_view_is(&self, target: Map<Seq<char>, Seq<Seq<u8>>>)
        requires
            forall|name: Seq<char>|
                values_in(self.headers@, name) == #[trigger] values_of(target, name),
            forall|name: Seq<char>| #[trigger] target.dom().contains(name) ==> target[name].len() > 0,
        ensures
            self@ == target,
    {
        assert forall|name: Seq<char>| #[trigger]
            self@.dom().contains(name) == target.dom().contains(name) by {
            assert(values_in(self.headers@, name) == values_of(target, name));
        }
        assert forall|name: Seq<char>| self@.dom().contains(name) implies #[trigger] self@[name]
            == target[name] by {
            assert(values_in(self.headers@, name) == values_of(target, name));
        }
        assert(self@ =~= target);
    }

    /// A request without metadata.
    pub fn new() -> (request: Request)
        ensures
            request@ == Map::<Seq<char>, Seq<Seq<u8>>>::empty(),
    {
        let request = Request { headers: Vec::new() };
        assert(request@ =~= Map::<Seq<char>, Seq<Seq<u8>>>::empty());
        request
    }

    /// Adds `value` under `name`, after the values that the name already carries.
    pub fn append(&mut self, name: &str, value: HeaderValue)
        ensures
            final(self)@ == appended(old(self)@, name@, value@),
    {
        let ghost before = self.headers@;
        let ghost target = appended(old(self)@, name@, value@);
        let entry = Header { name: name.to_owned(), value };
        self.headers.push(entry);
        proof {
            assert forall|other: Seq<char>|
                values_in(self.headers@, other) == #[trigger] values_of(target, other) by {
                lemma_values_in_push(before, entry, other);
                old(self).lemma_values(other);
                old(self).lemma_values(name@);
            }
            assert forall|other: Seq<char>| #[trigger]
                target.dom().contains(other) implies target[other].len() > 0 by {
                old(self).lemma_values(other);
            }
            self.lemma_view_is(target);
        }
    }

    /// The values carried under `name`, in the order in which they were added.
    pub fn get_all(&self, name: &str) -> (values: Vec<HeaderValue>)
        ensures
            values.len() == values_of(self@, name@).len(),
            forall|i: int|
                0 <= i < values.len() ==> (#[trigger] values[i])@ == values_of(self@, name@)[i],
    {
        let wanted = name.to_owned();
        let mut values: Vec<HeaderValue> = Vec::new();
        let mut i: usize = 0;
        while i < self.headers.len()
            invariant
                i <= self.headers.len(),
                wanted@ == name@,
                values.len() == values_in(self.headers@.take(i as int), name@).len(),
                forall|k: int|
                    0 <= k < values.len() ==> (#[trigger] values[k])@ == values_in(
                        self.headers@.take(i as int),
                        name@,
                    )[k],
            decreases self.headers.len() - i,
        {
            proof {
                assert(self.headers@.take(i + 1) =~= self.headers@.take(i as int).push(
                    self.headers@[i as int],
                ));
                lemma_values_in_push(self.headers@.take(i as int), self.headers@[i as int], name@);
            }
            if self.headers[i].name == wanted {
                values.push(self.headers[i].value.duplicate());
            }
            i = i + 1;
        }
        proof {
            assert(self.headers@.take(i as int) =~= self.headers@);
            self.lemma_values(name@);
        }
        values
    }

    /// The value that a reader of `name` observes: the first one carried under it.
    pub fn get(&self, name: &str) -> (value: Option<HeaderValue>)
        ensures
            value is Some <==> first_value(self@, name@) is Some,
            value matches Some(v) ==> Some(v@) == first_value(self@, name@),
    {
        let values = self.get_all(name);
        if values.len() > 0 {
            Some(values[0].duplicate())
        } else {
            None
        }
    }

    /// Makes `value` the only value under `name`.
    pub fn insert(&mut self, name: &str, value: HeaderValue)
        ensures
            final(self)@ == replaced(old(self)@, name@, value@),
    {
        let ghost target = replaced(old(self)@, name@, value@);
        let wanted = name.to_owned();
        let mut kept: Vec<Header> = Vec::new();
        let mut i: usize = 0;
        while i < self.headers.len()
            invariant
                i <= self.headers.len(),
                wanted@ == name@,
                forall|other: Seq<char>|
                    #[trigger] values_in(kept@, other) == if other == name@ {
                        Seq::<Seq<u8>>::empty()
                    } else {
                        values_in(self.headers@.take(i as int), other)
                    },
            decreases self.headers.len() - i,
        {
            let ghost kept_before = kept@;
            let ghost entry = self.headers@[i as int];
            proof {
                assert(self.headers@.take(i + 1) =~= self.headers@.take(i as int).push(entry));
                assert forall|other: Seq<char>|
                    values_in(self.headers@.take(i + 1), other) == if entry.name@ == other {
                        values_in(self.headers@.take(i as int), other).push(entry.value@)
                    } else {
                        values_in(self.headers@.take(i as int), other)
                    } by {
                    lemma_values_in_push(self.headers@.take(i as int), entry, other);
                }
            }
            if !(self.headers[i].name == wanted) {
                let copy = Header {
                    name: self.headers[i].name.clone(),
                    value: self.headers[i].value.duplicate(),
                };
                kept.push(copy);
                proof {
                    assert forall|other: Seq<char>|
                        #[trigger] values_in(kept@, other) == if other == name@ {
                            Seq::<Seq<u8>>::empty()
                        } else {
                            values_in(self.headers@.take(i + 1), other)
                        } by {
                        lemma_values_in_push(kept_before, copy, other);
                    }
                }
            }
            i = i + 1;
        }
        let ghost kept_all = kept@;
        let entry = Header { name: wanted, value };
        kept.push(entry);
        proof {
            assert(self.headers@.take(i as int) =~= self.headers@);
            assert forall|other: Seq<char>|
                values_in(kept@, other) == #[trigger] values_of(target, other) by {
                lemma_values_in_push(kept_all, entry, other);
                old(self).lemma_values(other);
            }
            assert forall|other: Seq<char>| #[trigger]
                target.dom().contains(other) implies target[other].len() > 0 by {
                old(self).lemma_values(other);
            }
        }
        self.headers = kept;
        proof {
            self.lemma_view_is(target);
        }
    }
}

} // verus!
