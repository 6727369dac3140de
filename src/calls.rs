use vstd::prelude::*;

verus! {

/// Flag value that copies the elements back and keeps the pin.
pub const JNI_COMMIT: i32 = 1;

/// Flag value that frees the pin without copying the elements back.
pub const JNI_ABORT: i32 = 2;

/// Flag value that copies the elements back and frees the pin.
pub const JNI_COPY_BACK: i32 = 0;

/// The element kinds of primitive arrays; `Void` is a placeholder with no arrays.
#[derive(Clone, Copy, Debug, PartialEq, Eq, Structural)]
pub enum Primitive {
    Boolean,
    Byte,
    Char,
    Short,
    Int,
    Long,
    Float,
    Double,
    Void,
}

/// How a release of pinned array elements treats the elements and the pin.
#[derive(Clone, Copy, Debug, PartialEq, Eq, Structural)]
pub enum ReleaseMode {
    /// Copy the elements back, then free the pin.
    CopyBack,
    /// Copy the elements back and keep the pin.
    Commit,
    /// Free the pin and drop any changes.
    Abort,
}

pub open spec fn spec_flag(mode: ReleaseMode) -> i32 {
    match mode {
        ReleaseMode::CopyBack => JNI_COPY_BACK,
        ReleaseMode::Commit => JNI_COMMIT,
        ReleaseMode::Abort => JNI_ABORT,
    }
}

impl ReleaseMode {
    /// The integer flag that the runtime's release call takes for this mode.
    pub fn flag(&self) -> (r: i32)
        ensures
            r == spec_flag(*self),
    {
        match self {
            ReleaseMode::CopyBack => JNI_COPY_BACK,
            ReleaseMode::Commit => JNI_COMMIT,
            ReleaseMode::Abort => JNI_ABORT,
        }
    }
}

/// The thread-bound environment through which foreign calls are made,
/// known here by the raw pointer that identifies it.
#[derive(Clone, Copy, Debug, PartialEq, Eq, Structural)]
pub struct JNIEnv {
    raw: u64,
}

impl View for JNIEnv {
    type V = u64;

    closed spec fn view(&self) -> u64 {
        self.raw
    }
}

impl JNIEnv {
    pub fn from_raw(raw: u64) -> (r: JNIEnv)
        ensures
            r@ == raw,
    {
        JNIEnv { raw }
    }

    pub fn inner(&self) -> (r: u64)
        ensures
            r == self@,
    {
        self.raw
    }
}

/// One call into the foreign runtime, made through the environment `env`.
/// Every call is followed by a check of the runtime's exception flag.
#[derive(Clone, Copy, Debug, PartialEq, Eq, Structural)]
pub enum ForeignCall {
    DeleteLocalRef { env: u64, obj: u64 },
    NewGlobalRef { env: u64, obj: u64 },
    DeleteGlobalRef { env: u64, obj: u64 },
    NewPrimitiveArray { env: u64, ty: Primitive, size: i32 },
    NewObjectArray { env: u64, size: i32, class: u64, initial: u64 },
    GetArrayElements { env: u64, ty: Primitive, array: u64 },
    GetArrayLength { env: u64, array: u64 },
    ReleaseArrayElements { env: u64, ty: Primitive, array: u64, mode: ReleaseMode },
    GetObjectArrayElement { env: u64, array: u64, index: i32 },
    SetObjectArrayElement { env: u64, array: u64, index: i32, value: u64 },
}

} // verus!
