use vstd::prelude::*;

use vstd::std_specs::convert::FromSpec;

verus! {

/// Raw value of a foreign reference that stands for "no object".
pub const NULL_RAW: u64 = 0;

/// Something that names one foreign object by its raw pointer.
pub trait Handle: Sized {
    /// The raw pointer, as an integer, that identifies the object.
    spec fn id(&self) -> u64;

    fn raw(&self) -> (r: u64)
        ensures
            r == self.id(),
    ;
}

/// The untyped handle of a foreign object: only its identity.
#[derive(Clone, Copy, Debug, PartialEq, Eq, Structural)]
pub struct JObject {
    raw: u64,
}

impl View for JObject {
    type V = u64;

    closed spec fn view(&self) -> u64 {
        self.raw
    }
}

impl JObject {
    pub fn from_raw(raw: u64) -> (r: JObject)
        ensures
            r@ == raw,
    {
        JObject { raw }
    }

    pub fn null() -> (r: JObject)
        ensures
            r@ == NULL_RAW,
    {
        JObject { raw: NULL_RAW }
    }

    pub fn into_inner(self) -> (r: u64)
        ensures
            r == self@,
    {
        self.raw
    }

    pub fn is_null(&self) -> (r: bool)
        ensures
            r == (self@ == NULL_RAW),
    {
        self.raw == NULL_RAW
    }
}

impl Handle for JObject {
    open spec fn id(&self) -> u64 {
        self@
    }

    fn raw(&self) -> (r: u64) {
        self.raw
    }
}

/// A handle known (by the caller) to name a class object.
#[derive(Clone, Copy, Debug, PartialEq, Eq, Structural)]
pub struct JClass(JObject);

impl View for JClass {
    type V = u64;

    closed spec fn view(&self) -> u64 {
        self.0@
    }
}

impl JClass {
    /// Unchecked: the caller vouches that `raw` names a class.
    pub fn from_raw(raw: u64) -> (r: JClass)
        ensures
            r@ == raw,
    {
        JClass(JObject::from_raw(raw))
    }

    pub fn into_inner(self) -> (r: u64)
        ensures
            r == self@,
    {
        self.0.into_inner()
    }

    /// The same object seen as an untyped handle.
    pub fn deref(&self) -> (r: &JObject)
        ensures
            r@ == self@,
    {
        &self.0
    }

    pub fn as_ref(&self) -> (r: &u64)
        ensures
            *r == self@,
    {
        &self.0.raw
    }
}

impl Handle for JClass {
    open spec fn id(&self) -> u64 {
        self@
    }

    fn raw(&self) -> (r: u64) {
        self.0.raw
    }
}

impl From<JObject> for JClass {
    /// Unchecked: the caller vouches that `o` names a class.
    fn from(o: JObject) -> (r: JClass) {
        JClass(o)
    }
}

impl vstd::std_specs::convert::FromSpecImpl<JObject> for JClass {
    open spec fn obeys_from_spec() -> bool {
        true
    }

    closed spec fn from_spec(o: JObject) -> JClass {
        JClass(o)
    }
}

impl From<JClass> for JObject {
    fn from(c: JClass) -> (r: JObject) {
        c.0
    }
}

impl vstd::std_specs::convert::FromSpecImpl<JClass> for JObject {
    open spec fn obeys_from_spec() -> bool {
        true
    }

    closed spec fn from_spec(c: JClass) -> JObject {
        c.0
    }
}

/// A handle known (by the caller) to name a string object.
#[derive(Clone, Copy, Debug, PartialEq, Eq, Structural)]
pub struct JString(JObject);

impl View for JString {
    type V = u64;

    closed spec fn view(&self) -> u64 {
        self.0@
    }
}

impl JString {
    /// Unchecked: the caller vouches that `raw` names a string.
    pub fn from_raw(raw: u64) -> (r: JString)
        ensures
            r@ == raw,
    {
        JString(JObject::from_raw(raw))
    }

    pub fn into_inner(self) -> (r: u64)
        ensures
            r == self@,
    {
        self.0.into_inner()
    }

    /// The same object seen as an untyped handle.
    pub fn deref(&self) -> (r: &JObject)
        ensures
            r@ == self@,
    {
        &self.0
    }

    pub fn as_ref(&self) -> (r: &u64)
        ensures
            *r == self@,
    {
        &self.0.raw
    }
}

impl Handle for JString {
    open spec fn id(&self) -> u64 {
        self@
    }

    fn raw(&self) -> (r: u64) {
        self.0.raw
    }
}

impl From<JObject> for JString {
    /// Unchecked: the caller vouches that `o` names a string.
    fn from(o: JObject) -> (r: JString) {
        JString(o)
    }
}

impl vstd::std_specs::convert::FromSpecImpl<JObject> for JString {
    open spec fn obeys_from_spec() -> bool {
        true
    }

    closed spec fn from_spec(o: JObject) -> JString {
        JString(o)
    }
}

impl From<JString> for JObject {
    fn from(s: JString) -> (r: JObject) {
        s.0
    }
}

impl vstd::std_specs::convert::FromSpecImpl<JString> for JObject {
    open spec fn obeys_from_spec() -> bool {
        true
    }

    closed spec fn from_spec(s: JString) -> JObject {
        s.0
    }
}

/// Converting a handle to a typed view and back gives the same identity.
pub proof fn lemma_typed_views_round_trip(o: JObject)
    ensures
        JObject::from_spec(JClass::from_spec(o)) == o,
        JObject::from_spec(JString::from_spec(o)) == o,
        JClass::from_spec(o)@ == o@,
        JString::from_spec(o)@ == o@,
{
}

/// Reading a typed view back as an untyped handle keeps its identity.
pub proof fn lemma_views_back_to_object(c: JClass, s: JString)
    ensures
        JObject::from_spec(c)@ == c@,
        JObject::from_spec(s)@ == s@,
        JClass::from_spec(JObject::from_spec(c)) == c,
        JString::from_spec(JObject::from_spec(s)) == s,
{
}

} // verus!
