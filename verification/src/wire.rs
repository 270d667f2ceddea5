//! The wire object: an ordered list of fields, each a key and a value, as a
//! JSON-compatible format writes and reads it.

use vstd::prelude::*;
use vstd::string::StringExecFns;

verus! {

/// Whether two texts hold the same characters.
fn same_text(a: &str, b: &str) -> (r: bool)
    ensures
        r == (a@ == b@),
{
    let left = String::from_str(a);
    let right = String::from_str(b);
    left == right
}

/// A key that the format knows.
#[derive(Debug, Clone, Copy, PartialEq, Eq)]
pub enum WireKey {
    Status,
    Message,
    Code,
    Data,
}

impl WireKey {
    /// The key as it stands in a wire object.
    pub open spec fn text(self) -> Seq<char> {
        match self {
            WireKey::Status => "status"@,
            WireKey::Message => "message"@,
            WireKey::Code => "code"@,
            WireKey::Data => "data"@,
        }
    }

    /// The key that stands in a wire object as `name`, if the format knows one.
    pub open spec fn named(name: Seq<char>) -> Option<WireKey> {
        if name == "status"@ {
            Some(WireKey::Status)
        } else if name == "message"@ {
            Some(WireKey::Message)
        } else if name == "code"@ {
            Some(WireKey::Code)
        } else if name == "data"@ {
            Some(WireKey::Data)
        } else {
            None
        }
    }

    /// The key as it stands in a wire object.
    pub fn name(self) -> (r: &'static str)
        ensures
            r@ == self.text(),
    {
        match self {
            WireKey::Status => "status",
            WireKey::Message => "message",
            WireKey::Code => "code",
            WireKey::Data => "data",
        }
    }

    /// The key that stands in a wire object as `name`, if the format knows one.
    pub fn from_name(name: &str) -> (r: Option<WireKey>)
        ensures
            r == WireKey::named(name@),
    {
        if same_text(name, "status") {
            Some(WireKey::Status)
        } else if same_text(name, "message") {
            Some(WireKey::Message)
        } else if same_text(name, "code") {
            Some(WireKey::Code)
        } else if same_text(name, "data") {
            Some(WireKey::Data)
        } else {
            None
        }
    }
}

/// The state of a response, which a wire object tells under the key `status`.
#[derive(Debug, Clone, Copy, PartialEq, Eq)]
pub enum Status {
    Success,
    Fail,
    Error,
}

impl Status {
    /// The token that tells this state.
    pub open spec fn text(self) -> Seq<char> {
        match self {
            Status::Success => "success"@,
            Status::Fail => "fail"@,
            Status::Error => "error"@,
        }
    }

    /// The state that `token` tells, if it tells one. Case counts.
    pub open spec fn of_token(token: Seq<char>) -> Option<Status> {
        if token == "success"@ {
            Some(Status::Success)
        } else if token == "fail"@ {
            Some(Status::Fail)
        } else if token == "error"@ {
            Some(Status::Error)
        } else {
            None
        }
    }

    /// The token that tells this state.
    pub fn token(self) -> (r: &'static str)
        ensures
            r@ == self.text(),
    {
        match self {
            Status::Success => "success",
            Status::Fail => "fail",
            Status::Error => "error",
        }
    }

    /// The state that `token` tells, if it tells one. Case counts.
    pub fn from_token(token: &str) -> (r: Option<Status>)
        ensures
            r == Status::of_token(token@),
    {
        if same_text(token, "success") {
            Some(Status::Success)
        } else if same_text(token, "fail") {
            Some(Status::Fail)
        } else if same_text(token, "error") {
            Some(Status::Error)
        } else {
            None
        }
    }
}

/// The four keys differ from each other, and each is found again by its text.
pub proof fn lemma_key_names_differ()
    ensures
        forall|k: WireKey| #[trigger] WireKey::named(k.text()) == Some(k),
        forall|j: WireKey, k: WireKey| j != k ==> #[trigger] j.text() != #[trigger] k.text(),
{
    reveal_strlit("status");
    reveal_strlit("message");
    reveal_strlit("code");
    reveal_strlit("data");
    assert("status"@.len() == 6);
    assert("message"@.len() == 7);
    assert("code"@[0] == 'c');
    assert("data"@[0] == 'd');
}

/// The three tokens differ from each other, and each tells its own state.
pub proof fn lemma_tokens_differ()
    ensures
        forall|s: Status| #[trigger] Status::of_token(s.text()) == Some(s),
        forall|s: Status, t: Status| s != t ==> #[trigger] s.text() != #[trigger] t.text(),
{
    reveal_strlit("success");
    reveal_strlit("fail");
    reveal_strlit("error");
    assert("success"@.len() == 7);
    assert("fail"@.len() == 4);
    assert("error"@.len() == 5);
}

/// A value in a wire object. The format itself reads texts and numbers; any
/// other value goes through as the payload type `P` holds it.
#[derive(Debug, Clone, PartialEq)]
pub enum WireValue<P> {
    Text(String),
    Number(serde_json::Number),
    Other(P),
}

/// What a wire value holds.
pub ghost enum WireValueView<P> {
    Text(Seq<char>),
    Number(serde_json::Number),
    Other(P),
}

impl<P> View for WireValue<P> {
    type V = WireValueView<P>;

    open spec fn view(&self) -> WireValueView<P> {
        match *self {
            WireValue::Text(text) => WireValueView::Text(text@),
            WireValue::Number(number) => WireValueView::Number(number),
            WireValue::Other(payload) => WireValueView::Other(payload),
        }
    }
}

/// A field of a wire object.
#[derive(Debug, Clone, PartialEq)]
pub struct WireField<P> {
    pub key: String,
    pub value: WireValue<P>,
}

impl<P> View for WireField<P> {
    type V = (Seq<char>, WireValueView<P>);

    open spec fn view(&self) -> (Seq<char>, WireValueView<P>) {
        (self.key@, self.value@)
    }
}

/// What a wire object holds: its keys and values, in order.
pub type ObjectView<P> = Seq<(Seq<char>, WireValueView<P>)>;

/// A wire object: its fields in the order in which they are written.
#[derive(Debug, Clone, PartialEq)]
pub struct WireObject<P> {
    pub fields: Vec<WireField<P>>,
}

impl<P> View for WireObject<P> {
    type V = ObjectView<P>;

    open spec fn view(&self) -> ObjectView<P> {
        self.fields@.map_values(|field: WireField<P>| field@)
    }
}

/// The value of the first field of `object` that stands under `key`.
pub open spec fn lookup<P>(object: ObjectView<P>, key: Seq<char>) -> Option<WireValueView<P>>
    decreases object.len(),
{
    if object.len() == 0 {
        None
    } else if object[0].0 == key {
        Some(object[0].1)
    } else {
        lookup(object.drop_first(), key)
    }
}

/// Whether no key stands twice in `object`.
pub open spec fn no_key_twice<P>(object: ObjectView<P>) -> bool {
    forall|i: int, j: int|
        0 <= i < j < object.len() ==> (#[trigger] object[i]).0 != (#[trigger] object[j]).0
}

/// `lookup` finds the field at `at` where no field before it stands under
/// the same key.
pub proof fn lemma_lookup_first<P>(object: ObjectView<P>, at: int)
    requires
        0 <= at < object.len(),
        forall|i: int| 0 <= i < at ==> (#[trigger] object[i]).0 != object[at].0,
    ensures
        lookup(object, object[at].0) == Some(object[at].1),
    decreases at,
{
    if at > 0 {
        let rest = object.drop_first();
        assert(object[0].0 != object[at].0);
        assert(rest[at - 1] == object[at]);
        assert forall|i: int| 0 <= i < at - 1 implies (#[trigger] rest[i]).0 != rest[at - 1].0 by {
            assert(rest[i] == object[i + 1]);
        }
        lemma_lookup_first(rest, at - 1);
    }
}

/// What `lookup` finds stands in the object under the key, and it finds
/// nothing only where no field stands under the key.
pub proof fn lemma_lookup_found<P>(object: ObjectView<P>, key: Seq<char>)
    ensures
        lookup(object, key) matches Some(value) ==> object.contains((key, value)),
        lookup(object, key) is None ==> forall|i: int|
            0 <= i < object.len() ==> (#[trigger] object[i]).0 != key,
    decreases object.len(),
{
    if object.len() > 0 {
        let rest = object.drop_first();
        lemma_lookup_found(rest, key);
        if object[0].0 == key {
            assert(object[0] == (key, object[0].1));
        } else {
            if let Some(value) = lookup(rest, key) {
                let i = choose|i: int| 0 <= i < rest.len() && rest[i] == (key, value);
                assert(object[i + 1] == (key, value));
            } else {
                assert forall|i: int| 0 <= i < object.len() implies (#[trigger] object[i]).0
                    != key by {
                    if i > 0 {
                        assert(rest[i - 1] == object[i]);
                    }
                }
            }
        }
    }
}

/// Two objects in which no key stands twice and which hold the same fields,
/// in whatever order, hold the same value under every key.
pub proof fn lemma_lookup_any_order<P>(
    first: ObjectView<P>,
    second: ObjectView<P>,
    key: Seq<char>,
)
    requires
        no_key_twice(first),
        no_key_twice(second),
        forall|field: (Seq<char>, WireValueView<P>)|
            first.contains(field) <==> second.contains(field),
    ensures
        lookup(first, key) == lookup(second, key),
{
    lemma_lookup_found(first, key);
    lemma_lookup_found(second, key);
    match lookup(first, key) {
        Some(value) => {
            assert(second.contains((key, value)));
            let at = choose|at: int| 0 <= at < second.len() && second[at] == (key, value);
            lemma_lookup_first(second, at);
        },
        None => {
            if let Some(value) = lookup(second, key) {
                assert(first.contains((key, value)));
                let at = choose|at: int| 0 <= at < first.len() && first[at] == (key, value);
                assert(first[at].0 == key);
            }
        },
    }
}

} // verus!
