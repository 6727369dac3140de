use vstd::prelude::*;
use crate::calls::{ForeignCall, JNIEnv, Primitive, ReleaseMode};
use crate::error::Error;
use crate::objects::{JClass, JObject, NULL_RAW};

verus! {

/// A handle to a foreign array, with the environment it belongs to.
#[derive(Clone, Copy, Debug, PartialEq, Eq, Structural)]
pub struct JArray {
    internal: u64,
    env: JNIEnv,
}

/// What is done to a pinned window between pinning and the final release.
pub enum PinOp {
    /// A read-only view.
    View,
    /// A mutable view, whether or not anything is written through it.
    ViewMut,
    /// A copy-back that keeps the pin.
    Commit,
}

/// Whether a pin counts as modified after one more operation.
pub open spec fn dirty_step(dirty: bool, op: PinOp) -> bool {
    match op {
        PinOp::ViewMut => true,
        _ => dirty,
    }
}

/// Whether a pin counts as modified after a run of operations.
pub open spec fn dirty_after(dirty: bool, ops: Seq<PinOp>) -> bool
    decreases ops.len(),
{
    if ops.len() == 0 {
        dirty
    } else {
        dirty_after(dirty_step(dirty, ops[0]), ops.drop_first())
    }
}

/// The release mode of a commit, or of the final release of a pin.
pub open spec fn release_mode_for(just_commit: bool, dirty: bool) -> ReleaseMode {
    if just_commit {
        ReleaseMode::Commit
    } else if dirty {
        ReleaseMode::CopyBack
    } else {
        ReleaseMode::Abort
    }
}

/// The calls that pin the elements of `array` as `ty`: none for the placeholder kind.
pub open spec fn pin_calls_for(env: u64, array: u64, ty: Primitive) -> Result<
    Seq<ForeignCall>,
    Error,
> {
    if ty == Primitive::Void {
        Err(Error::WrongElementType)
    } else {
        Ok(
            seq![
                ForeignCall::GetArrayElements { env, ty, array },
                ForeignCall::GetArrayLength { env, array },
            ],
        )
    }
}

/// A pin counts as modified after a run of operations exactly when it started
/// modified or the run hands out a mutable view.
pub proof fn lemma_dirty_after(dirty: bool, ops: Seq<PinOp>)
    ensures
        dirty_after(dirty, ops) == (dirty || ops.contains(PinOp::ViewMut)),
    decreases ops.len(),
{
    if ops.len() > 0 {
        let rest = ops.drop_first();
        lemma_dirty_after(dirty_step(dirty, ops[0]), rest);
        if rest.contains(PinOp::ViewMut) {
            let i = choose|i: int| 0 <= i < rest.len() && rest[i] == PinOp::ViewMut;
            assert(ops[i + 1] == PinOp::ViewMut);
        }
        if ops.contains(PinOp::ViewMut) && ops[0] != PinOp::ViewMut {
            let j = choose|j: int| 0 <= j < ops.len() && ops[j] == PinOp::ViewMut;
            assert(rest[j - 1] == PinOp::ViewMut);
        }
    }
}

/// Dirty tracking: starting from a fresh pin, the final release discards the
/// elements when no mutable view was handed out, and copies them back when one
/// was, whether or not anything was written through it.
pub proof fn lemma_release_mode_tracks_mutable_views(ops: Seq<PinOp>)
    ensures
        release_mode_for(false, dirty_after(false, ops)) == (if ops.contains(PinOp::ViewMut) {
            ReleaseMode::CopyBack
        } else {
            ReleaseMode::Abort
        }),
{
    lemma_dirty_after(false, ops);
}

/// A commit leaves the modified state as it was, so writes before or after a
/// commit still lead to a final copy-back.
pub proof fn lemma_commit_keeps_dirty(dirty: bool, before: Seq<PinOp>, after: Seq<PinOp>)
    ensures
        dirty_after(dirty, before.push(PinOp::Commit) + after) == dirty_after(dirty, before + after),
        (dirty || before.contains(PinOp::ViewMut) || after.contains(PinOp::ViewMut))
            ==> release_mode_for(false, dirty_after(dirty, before.push(PinOp::Commit) + after))
            == ReleaseMode::CopyBack,
{
    let with = before.push(PinOp::Commit) + after;
    let without = before + after;
    lemma_dirty_after(dirty, with);
    lemma_dirty_after(dirty, without);
    let n = before.len() as int;
    if with.contains(PinOp::ViewMut) {
        let i = choose|i: int| 0 <= i < with.len() && with[i] == PinOp::ViewMut;
        if i < n {
            assert(without[i] == PinOp::ViewMut);
        } else {
            assert(without[i - 1] == PinOp::ViewMut);
        }
    }
    if without.contains(PinOp::ViewMut) {
        let i = choose|i: int| 0 <= i < without.len() && without[i] == PinOp::ViewMut;
        if i < n {
            assert(with[i] == PinOp::ViewMut);
        } else {
            assert(with[i + 1] == PinOp::ViewMut);
        }
    }
    if before.contains(PinOp::ViewMut) {
        let i = choose|i: int| 0 <= i < before.len() && before[i] == PinOp::ViewMut;
        assert(without[i] == PinOp::ViewMut);
    }
    if after.contains(PinOp::ViewMut) {
        let i = choose|i: int| 0 <= i < after.len() && after[i] == PinOp::ViewMut;
        assert(without[n + i] == PinOp::ViewMut);
    }
}

/// Pinning as the placeholder kind is refused with `WrongElementType`, and no
/// call is planned for it.
pub proof fn lemma_void_pin_refused(env: u64, array: u64)
    ensures
        pin_calls_for(env, array, Primitive::Void) == Err::<Seq<ForeignCall>, Error>(
            Error::WrongElementType,
        ),
{
}

/// What opening a pin of kind `ty` on `data` gives: a pending exception, then a
/// null element pointer, is an error; otherwise a clean pin on those elements.
pub open spec fn pin_opened<T>(
    array: JArray,
    ty: Primitive,
    data: Seq<T>,
    elements_null: bool,
    exception_pending: bool,
    r: Result<JArrayPrimitiveData<T>, Error>,
) -> bool {
    if exception_pending {
        r == Err::<JArrayPrimitiveData<T>, Error>(Error::PendingException)
    } else if elements_null {
        r == Err::<JArrayPrimitiveData<T>, Error>(Error::NullHandle)
    } else {
        &&& r is Ok
        &&& r.unwrap().array_id() == array.array_id()
        &&& r.unwrap().env_id() == array.env_id()
        &&& r.unwrap().kind() == ty
        &&& r.unwrap().elements() == data
        &&& !r.unwrap().is_dirty()
    }
}

/// A window onto the elements of a primitive array, pinned until released.
/// `dirty` records whether a mutable view was ever handed out.
pub struct JArrayPrimitiveData<T> {
    array: u64,
    env: u64,
    ty: Primitive,
    data: Vec<T>,
    dirty: bool,
}

impl<T> JArrayPrimitiveData<T> {
    pub closed spec fn array_id(&self) -> u64 {
        self.array
    }

    pub closed spec fn env_id(&self) -> u64 {
        self.env
    }

    pub closed spec fn kind(&self) -> Primitive {
        self.ty
    }

    pub closed spec fn elements(&self) -> Seq<T> {
        self.data@
    }

    pub closed spec fn is_dirty(&self) -> bool {
        self.dirty
    }

    /// The release call issued with `just_commit` set (a commit) or not (the final release).
    pub open spec fn release_call_for(&self, just_commit: bool) -> ForeignCall {
        ForeignCall::ReleaseArrayElements {
            env: self.env_id(),
            ty: self.kind(),
            array: self.array_id(),
            mode: release_mode_for(just_commit, self.is_dirty()),
        }
    }

    /// A read-only view of the pinned elements.
    pub fn get(&self) -> (r: &[T])
        ensures
            r@ == self.elements(),
    {
        self.data.as_slice()
    }

    /// A mutable view of the pinned elements; from now on the pin counts as modified.
    pub fn get_mut(&mut self) -> (r: &mut [T])
        ensures
            r@ == old(self).elements(),
            final(self).elements() == final(r)@,
            final(self).is_dirty() == dirty_step(old(self).is_dirty(), PinOp::ViewMut),
            final(self).kind() == old(self).kind(),
            final(self).array_id() == old(self).array_id(),
            final(self).env_id() == old(self).env_id(),
    {
        self.dirty = true;
        self.data.as_mut_slice()
    }

    /// The call that copies the elements back and keeps the pin; the pin is left as it was.
    pub fn commit(&self) -> (r: ForeignCall)
        ensures
            r == self.release_call_for(true),
    {
        self.internal_release(true)
    }

    fn internal_release(&self, just_commit: bool) -> (r: ForeignCall)
        ensures
            r == self.release_call_for(just_commit),
    {
        let mode = if just_commit {
            ReleaseMode::Commit
        } else if self.dirty {
            ReleaseMode::CopyBack
        } else {
            ReleaseMode::Abort
        };
        ForeignCall::ReleaseArrayElements { env: self.env, ty: self.ty, array: self.array, mode }
    }

    /// Ends the pin: the final release call, and the elements to write back
    /// before it, which are there exactly when the pin is modified.
    pub fn release(self) -> (r: (ForeignCall, Option<Vec<T>>))
        ensures
            r.0 == self.release_call_for(false),
            r.1 is Some <==> self.is_dirty(),
            r.1 matches Some(d) ==> d@ == self.elements(),
    {
        let call = self.internal_release(false);
        if self.dirty {
            (call, Some(self.data))
        } else {
            (call, None)
        }
    }
}

impl JArray {
    pub closed spec fn array_id(&self) -> u64 {
        self.internal
    }

    pub closed spec fn env_id(&self) -> u64 {
        self.env@
    }

    /// Wraps an array handle as it is; the caller vouches that it names an array.
    pub fn from_env(env: &JNIEnv, array: JObject) -> (r: Result<JArray, Error>)
        ensures
            r is Ok,
            r.unwrap().array_id() == array@,
            r.unwrap().env_id() == env@,
    {
        Ok(JArray { internal: array.into_inner(), env: *env })
    }

    /// Takes the result of an array-creating call and the exception flag read after it.
    pub fn from_created(env: &JNIEnv, created: JObject, exception_pending: bool) -> (r: Result<
        JArray,
        Error,
    >)
        ensures
            exception_pending ==> r == Err::<JArray, Error>(Error::PendingException),
            !exception_pending && created@ == NULL_RAW ==> r == Err::<JArray, Error>(
                Error::NullHandle,
            ),
            !exception_pending && created@ != NULL_RAW ==> r.is_ok() && r.unwrap().array_id()
                == created@ && r.unwrap().env_id() == env@,
    {
        if exception_pending {
            Err(Error::PendingException)
        } else if created.is_null() {
            Err(Error::NullHandle)
        } else {
            JArray::from_env(env, created)
        }
    }

    pub fn into_inner(self) -> (r: u64)
        ensures
            r == self.array_id(),
    {
        self.internal
    }

    pub fn env(&self) -> (r: JNIEnv)
        ensures
            r@ == self.env_id(),
    {
        self.env
    }

    /// The call that creates a primitive array of `size` elements of kind `ty`.
    pub fn new_primitive(env: &JNIEnv, ty: Primitive, size: i32) -> (r: Result<
        ForeignCall,
        Error,
    >)
        ensures
            ty == Primitive::Void ==> r == Err::<ForeignCall, Error>(Error::WrongElementType),
            ty != Primitive::Void ==> r == Ok::<ForeignCall, Error>(
                ForeignCall::NewPrimitiveArray { env: env@, ty, size },
            ),
    {
        if ty == Primitive::Void {
            Err(Error::WrongElementType)
        } else {
            Ok(ForeignCall::NewPrimitiveArray { env: env.inner(), ty, size })
        }
    }

    /// The call that creates an array of `size` char elements.
    pub fn new_char(env: &JNIEnv, size: i32) -> (r: ForeignCall)
        ensures
            r == (ForeignCall::NewPrimitiveArray { env: env@, ty: Primitive::Char, size }),
    {
        ForeignCall::NewPrimitiveArray { env: env.inner(), ty: Primitive::Char, size }
    }

    /// The call that creates an array of `size` byte elements.
    pub fn new_byte(env: &JNIEnv, size: i32) -> (r: ForeignCall)
        ensures
            r == (ForeignCall::NewPrimitiveArray { env: env@, ty: Primitive::Byte, size }),
    {
        ForeignCall::NewPrimitiveArray { env: env.inner(), ty: Primitive::Byte, size }
    }

    /// The call that creates an array of `size` short elements.
    pub fn new_short(env: &JNIEnv, size: i32) -> (r: ForeignCall)
        ensures
            r == (ForeignCall::NewPrimitiveArray { env: env@, ty: Primitive::Short, size }),
    {
        ForeignCall::NewPrimitiveArray { env: env.inner(), ty: Primitive::Short, size }
    }

    /// The call that creates an array of `size` int elements.
    pub fn new_int(env: &JNIEnv, size: i32) -> (r: ForeignCall)
        ensures
            r == (ForeignCall::NewPrimitiveArray { env: env@, ty: Primitive::Int, size }),
    {
        ForeignCall::NewPrimitiveArray { env: env.inner(), ty: Primitive::Int, size }
    }

    /// The call that creates an array of `size` boolean elements.
    pub fn new_boolean(env: &JNIEnv, size: i32) -> (r: ForeignCall)
        ensures
            r == (ForeignCall::NewPrimitiveArray { env: env@, ty: Primitive::Boolean, size }),
    {
        ForeignCall::NewPrimitiveArray { env: env.inner(), ty: Primitive::Boolean, size }
    }

    /// The call that creates an array of `size` float elements.
    pub fn new_float(env: &JNIEnv, size: i32) -> (r: ForeignCall)
        ensures
            r == (ForeignCall::NewPrimitiveArray { env: env@, ty: Primitive::Float, size }),
    {
        ForeignCall::NewPrimitiveArray { env: env.inner(), ty: Primitive::Float, size }
    }

    /// The call that creates an array of `size` double elements.
    pub fn new_double(env: &JNIEnv, size: i32) -> (r: ForeignCall)
        ensures
            r == (ForeignCall::NewPrimitiveArray { env: env@, ty: Primitive::Double, size }),
    {
        ForeignCall::NewPrimitiveArray { env: env.inner(), ty: Primitive::Double, size }
    }

    /// The call that creates an array of `size` long elements.
    pub fn new_long(env: &JNIEnv, size: i32) -> (r: ForeignCall)
        ensures
            r == (ForeignCall::NewPrimitiveArray { env: env@, ty: Primitive::Long, size }),
    {
        ForeignCall::NewPrimitiveArray { env: env.inner(), ty: Primitive::Long, size }
    }

    /// The call that creates an array of `size` objects of class `class`, each `initial`.
    pub fn new_object(env: &JNIEnv, class: JClass, size: i32, initial: JObject) -> (r:
        ForeignCall)
        ensures
            r == (ForeignCall::NewObjectArray {
                env: env@,
                size,
                class: class@,
                initial: initial@,
            }),
    {
        ForeignCall::NewObjectArray {
            env: env.inner(),
            size,
            class: class.into_inner(),
            initial: initial.into_inner(),
        }
    }

    /// The call that reads the element at `idx` of an object array.
    pub fn get_object_element(&self, idx: usize) -> (r: ForeignCall)
        requires
            idx <= i32::MAX,
        ensures
            r == (ForeignCall::GetObjectArrayElement {
                env: self.env_id(),
                array: self.array_id(),
                index: idx as i32,
            }),
    {
        ForeignCall::GetObjectArrayElement {
            env: self.env.inner(),
            array: self.internal,
            index: idx as i32,
        }
    }

    /// The call that stores `value` at `idx` of an object array.
    pub fn set_object_element(&self, idx: usize, value: JObject) -> (r: ForeignCall)
        requires
            idx <= i32::MAX,
        ensures
            r == (ForeignCall::SetObjectArrayElement {
                env: self.env_id(),
                array: self.array_id(),
                index: idx as i32,
                value: value@,
            }),
    {
        ForeignCall::SetObjectArrayElement {
            env: self.env.inner(),
            array: self.internal,
            index: idx as i32,
            value: value.into_inner(),
        }
    }

    /// The calls that pin this array's elements as `ty` and read its length.
    /// The placeholder kind is refused before any call.
    pub fn primitive_data_calls(&self, ty: Primitive) -> (r: Result<Vec<ForeignCall>, Error>)
        ensures
            r.is_ok() == pin_calls_for(self.env_id(), self.array_id(), ty).is_ok(),
            r.is_err() ==> r == Err::<Vec<ForeignCall>, Error>(Error::WrongElementType),
            r.is_ok() ==> r.unwrap()@ == pin_calls_for(
                self.env_id(),
                self.array_id(),
                ty,
            ).unwrap(),
    {
        if ty == Primitive::Void {
            return Err(Error::WrongElementType);
        }
        let env = self.env.inner();
        let calls = vec![
            ForeignCall::GetArrayElements { env, ty, array: self.internal },
            ForeignCall::GetArrayLength { env, array: self.internal },
        ];
        Ok(calls)
    }

    /// The release call that gives back elements pinned as `ty` when no pin
    /// could be opened on them; nothing is copied back.
    pub fn abandon_call(&self, ty: Primitive) -> (r: ForeignCall)
        ensures
            r == (ForeignCall::ReleaseArrayElements {
                env: self.env_id(),
                ty,
                array: self.array_id(),
                mode: ReleaseMode::Abort,
            }),
    {
        ForeignCall::ReleaseArrayElements {
            env: self.env.inner(),
            ty,
            array: self.internal,
            mode: ReleaseMode::Abort,
        }
    }

    /// Opens a clean pin on the elements that the pin calls handed over, given
    /// whether the element pointer was null and whether an exception was pending.
    fn primitive_data<T>(
        &self,
        ty: Primitive,
        data: Vec<T>,
        elements_null: bool,
        exception_pending: bool,
    ) -> (r: Result<JArrayPrimitiveData<T>, Error>)
        requires
            ty != Primitive::Void,
        ensures
            pin_opened(*self, ty, data@, elements_null, exception_pending, r),
    {
        if exception_pending {
            Err(Error::PendingException)
        } else if elements_null {
            Err(Error::NullHandle)
        } else {
            Ok(JArrayPrimitiveData { array: self.internal, env: self.env.inner(), ty, data, dirty: false })
        }
    }

    /// Opens a pin on this array's elements as bytes.
    pub fn get_data_byte(&self, data: Vec<i8>, elements_null: bool, exception_pending: bool) -> (r:
        Result<JArrayPrimitiveData<i8>, Error>)
        ensures
            pin_opened(*self, Primitive::Byte, data@, elements_null, exception_pending, r),
    {
        self.primitive_data(Primitive::Byte, data, elements_null, exception_pending)
    }

    /// Opens a pin on this array's elements as booleans, one byte each.
    pub fn get_data_boolean(&self, data: Vec<u8>, elements_null: bool, exception_pending: bool) -> (r:
        Result<JArrayPrimitiveData<u8>, Error>)
        ensures
            pin_opened(*self, Primitive::Boolean, data@, elements_null, exception_pending, r),
    {
        self.primitive_data(Primitive::Boolean, data, elements_null, exception_pending)
    }

    /// Opens a pin on this array's elements as UTF-16 code units.
    pub fn get_data_char(&self, data: Vec<u16>, elements_null: bool, exception_pending: bool) -> (r:
        Result<JArrayPrimitiveData<u16>, Error>)
        ensures
            pin_opened(*self, Primitive::Char, data@, elements_null, exception_pending, r),
    {
        self.primitive_data(Primitive::Char, data, elements_null, exception_pending)
    }

    /// Opens a pin on this array's elements as shorts.
    pub fn get_data_short(&self, data: Vec<i16>, elements_null: bool, exception_pending: bool) -> (r:
        Result<JArrayPrimitiveData<i16>, Error>)
        ensures
            pin_opened(*self, Primitive::Short, data@, elements_null, exception_pending, r),
    {
        self.primitive_data(Primitive::Short, data, elements_null, exception_pending)
    }

    /// Opens a pin on this array's elements as ints.
    pub fn get_data_int(&self, data: Vec<i32>, elements_null: bool, exception_pending: bool) -> (r:
        Result<JArrayPrimitiveData<i32>, Error>)
        ensures
            pin_opened(*self, Primitive::Int, data@, elements_null, exception_pending, r),
    {
        self.primitive_data(Primitive::Int, data, elements_null, exception_pending)
    }

    /// Opens a pin on this array's elements as longs.
    pub fn get_data_long(&self, data: Vec<i64>, elements_null: bool, exception_pending: bool) -> (r:
        Result<JArrayPrimitiveData<i64>, Error>)
        ensures
            pin_opened(*self, Primitive::Long, data@, elements_null, exception_pending, r),
    {
        self.primitive_data(Primitive::Long, data, elements_null, exception_pending)
    }

    /// Opens a pin on this array's elements as floats, held as their IEEE 754 bit patterns.
    pub fn get_data_float(&self, data: Vec<u32>, elements_null: bool, exception_pending: bool) -> (r:
        Result<JArrayPrimitiveData<u32>, Error>)
        ensures
            pin_opened(*self, Primitive::Float, data@, elements_null, exception_pending, r),
    {
        self.primitive_data(Primitive::Float, data, elements_null, exception_pending)
    }

    /// Opens a pin on this array's elements as doubles, held as their IEEE 754 bit patterns.
    pub fn get_data_double(&self, data: Vec<u64>, elements_null: bool, exception_pending: bool) -> (r:
        Result<JArrayPrimitiveData<u64>, Error>)
        ensures
            pin_opened(*self, Primitive::Double, data@, elements_null, exception_pending, r),
    {
        self.primitive_data(Primitive::Double, data, elements_null, exception_pending)
    }

}

} // verus!
