use vstd::prelude::*;
use crate::calls::{ForeignCall, JNIEnv};
use crate::error::Error;
use crate::objects::{JObject, NULL_RAW};

verus! {

/// A reference that keeps a foreign object alive beyond any local scope.
/// It holds the environment pointer it was created through, for the delete call only.
#[derive(Debug, PartialEq, Eq, Structural)]
pub struct GlobalRef {
    obj: u64,
    env: u64,
}

/// What one borrow of a global reference does: nothing to the reference, and a
/// view of the pinned object.
pub open spec fn borrow_post(before: GlobalRef, after: GlobalRef, view: JObject) -> bool {
    after == before && view@ == before.obj_id()
}

impl GlobalRef {
    pub closed spec fn obj_id(&self) -> u64 {
        self.obj
    }

    pub closed spec fn env_id(&self) -> u64 {
        self.env
    }

    /// The call issued when the reference is destroyed.
    pub open spec fn delete_call(&self) -> ForeignCall {
        ForeignCall::DeleteGlobalRef { env: self.env_id(), obj: self.obj_id() }
    }

    /// Wraps a global reference that the runtime has already created.
    pub fn new(env: &JNIEnv, obj: u64) -> (r: GlobalRef)
        ensures
            r.obj_id() == obj,
            r.env_id() == env@,
    {
        GlobalRef { obj, env: env.inner() }
    }

    /// The call that asks the runtime to promote `object` to a global reference.
    pub fn promote_call(env: &JNIEnv, object: &JObject) -> (r: ForeignCall)
        ensures
            r == (ForeignCall::NewGlobalRef { env: env@, obj: object@ }),
    {
        ForeignCall::NewGlobalRef { env: env.inner(), obj: object.into_inner() }
    }

    /// Takes what the promotion call returned and the exception flag read after it.
    /// A pending exception or a null result means the runtime refused.
    pub fn from(env: &JNIEnv, created: JObject, exception_pending: bool) -> (r: Result<
        GlobalRef,
        Error,
    >)
        ensures
            (exception_pending || created@ == NULL_RAW) <==> r is Err,
            r matches Err(e) ==> e == Error::PromotionFailed,
            r matches Ok(g) ==> g.obj_id() == created@ && g.env_id() == env@,
    {
        if exception_pending || created.is_null() {
            Err(Error::PromotionFailed)
        } else {
            Ok(GlobalRef::new(env, created.into_inner()))
        }
    }

    /// A view of the pinned object; the reference keeps ownership.
    pub fn inner(&mut self) -> (r: JObject)
        ensures
            borrow_post(*old(self), *final(self), r),
    {
        JObject::from_raw(self.obj)
    }

    /// Ends the reference: the one delete call, through the environment it was created with.
    pub fn drop_ref(self) -> (r: ForeignCall)
        ensures
            r == self.delete_call(),
    {
        ForeignCall::DeleteGlobalRef { env: self.env, obj: self.obj }
    }
}

/// Borrowing a global reference any number of times gives views that all name
/// the pinned object, and leaves the one delete call of its destruction as it was.
pub proof fn lemma_borrows_agree(g: GlobalRef, states: Seq<GlobalRef>, views: Seq<JObject>)
    requires
        states.len() == views.len() + 1,
        states[0] == g,
        forall|i: int| 0 <= i < views.len() ==> borrow_post(states[i], states[i + 1], views[i]),
    ensures
        forall|i: int, j: int|
            0 <= i < views.len() && 0 <= j < views.len() ==> views[i]@ == views[j]@,
        forall|i: int| 0 <= i < views.len() ==> views[i]@ == g.obj_id(),
        forall|i: int| 0 <= i < states.len() ==> states[i] == g,
        states.last().delete_call() == g.delete_call(),
    decreases views.len(),
{
    if views.len() > 0 {
        let n = views.len() - 1;
        let (s0, v0) = (states.take(n + 1), views.take(n));
        assert forall|i: int| 0 <= i < v0.len() implies borrow_post(s0[i], s0[i + 1], v0[i]) by {
            assert(borrow_post(states[i], states[i + 1], views[i]));
        }
        lemma_borrows_agree(g, s0, v0);
        assert(s0[n] == states[n]);
        assert forall|i: int| 0 <= i < states.len() implies states[i] == g by {
            if i <= n {
                assert(s0[i] == states[i]);
            } else {
                assert(borrow_post(states[n], states[n + 1], views[n]));
            }
        }
        assert forall|i: int| 0 <= i < views.len() implies views[i]@ == g.obj_id() by {
            assert(borrow_post(states[i], states[i + 1], views[i]));
        }
    }
}

} // verus!
