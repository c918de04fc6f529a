use vstd::prelude::*;

verus! {

/// An owning handle to an engine value that the caller never looks inside.
/// A null handle holds nothing; it stands for "not supplied" or "not set".
pub struct Handle<T> {
    pub ptr: Option<Box<T>>,
}

impl<T> Handle<T> {
    /// Wraps a freshly made value.
    pub fn new(v: T) -> (r: Self)
        ensures
            r.ptr == Some(Box::new(v)),
    {
        Handle { ptr: Some(Box::new(v)) }
    }

    /// The handle that holds nothing.
    pub fn null() -> (r: Self)
        ensures
            r.ptr is None,
    {
        Handle { ptr: None }
    }

    pub fn is_null(&self) -> (r: bool)
        ensures
            r == self.ptr is None,
    {
        self.ptr.is_none()
    }

    /// Read access to the value held; absent for a null handle.
    pub fn as_ref(&self) -> (r: Option<&T>)
        ensures
            self.ptr is None ==> r is None,
            self.ptr is Some ==> r == Some(&*self.ptr->Some_0),
    {
        match &self.ptr {
            None => None,
            Some(b) => Some(&**b),
        }
    }
}

pub type AuthorizerHandle = Handle<cedar_policy::Authorizer>;

pub type PolicySetHandle = Handle<cedar_policy::PolicySet>;

pub type SchemaHandle = Handle<cedar_policy::Schema>;

pub type ValidatorHandle = Handle<cedar_policy::Validator>;

/// Releases an authorizer handle, once.
pub fn free_authorizer(h: AuthorizerHandle) {
    let _owned = h.ptr;
}

/// Releases a policy set handle, once.
pub fn free_policy_set(h: PolicySetHandle) {
    let _owned = h.ptr;
}

/// Releases a schema handle, once.
pub fn free_schema(h: SchemaHandle) {
    let _owned = h.ptr;
}

/// Releases a validator handle, once.
pub fn free_validator(h: ValidatorHandle) {
    let _owned = h.ptr;
}

} // verus!
