use vstd::prelude::*;
use crate::calls::{ForeignCall, JNIEnv};
use crate::objects::Handle;

verus! {

/// Sole ownership of one local reference, tied to the environment that produced it.
/// It is ended by `drop_ref`, which takes it by value: the delete call comes once,
/// and only when the owner lets go of the reference.
pub struct LocalRef<T: Handle> {
    inner: T,
    env: u64,
}

impl<T: Handle> LocalRef<T> {
    pub closed spec fn handle(&self) -> T {
        self.inner
    }

    pub closed spec fn env_id(&self) -> u64 {
        self.env
    }

    /// The call issued when the reference is released.
    pub open spec fn delete_call(&self) -> ForeignCall {
        ForeignCall::DeleteLocalRef { env: self.env_id(), obj: self.handle().id() }
    }

    /// Takes ownership of a handle that already stands in `env`'s local table;
    /// no call is made.
    pub fn from_env(env: &JNIEnv, other: T) -> (r: LocalRef<T>)
        ensures
            r.handle() == other,
            r.env_id() == env@,
    {
        LocalRef { inner: other, env: env.inner() }
    }

    /// The handle, borrowed; ownership stays here.
    pub fn as_ref(&self) -> (r: &T)
        ensures
            *r == self.handle(),
    {
        &self.inner
    }

    /// Ends the reference: the one delete call, through the environment that produced it.
    pub fn drop_ref(self) -> (r: ForeignCall)
        ensures
            r == self.delete_call(),
    {
        let obj = self.inner.raw();
        ForeignCall::DeleteLocalRef { env: self.env, obj }
    }
}

/// A local reference made from a handle by `from_env` is deleted by exactly one
/// call, which names that handle and the environment it came from.
pub proof fn lemma_local_ref_deleted_once<T: Handle>(env: JNIEnv, h: T, r: LocalRef<T>)
    requires
        r.handle() == h,
        r.env_id() == env@,
    ensures
        r.delete_call() == (ForeignCall::DeleteLocalRef { env: env@, obj: h.id() }),
{
}

} // verus!
