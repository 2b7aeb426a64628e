//! A container that captures one error value of any type, together with the
//! backtrace of the place where it was captured, and hands the value back to
//! whoever asks for it by its type.

use backtrace::Backtrace;
use std::any::Any;
use std::any::TypeId;
use std::sync::Arc;
use vstd::prelude::*;

verus! {

/// `Backtrace` of the backtrace crate: the frames of a captured stack.
/// Nothing is known of what a value holds.
#[verifier::external_type_specification]
#[verifier::external_body]
pub struct ExBacktrace(Backtrace);

/// `TypeId` of std: the identifier of a type. Nothing is known of what a
/// value holds.
#[verifier::external_type_specification]
#[verifier::external_body]
pub struct ExTypeId(TypeId);

/// `Arc<dyn Any + Send + Sync>` of std: a shared reference to a value whose
/// type is known only at run time. What the reference points to is not
/// visible to the verifier.
#[verifier::external_body]
pub struct ErasedArc {
    value: Arc<dyn Any + Send + Sync>,
}

impl Clone for ErasedArc {
    /// `Arc::clone` of std: one more reference to the same value. Nothing is
    /// claimed of the reference.
    #[verifier::external_body]
    fn clone(&self) -> (shared: Self) {
        ErasedArc { value: self.value.clone() }
    }
}

/// `Backtrace::new` of the backtrace crate: the stack at the call site, with
/// symbols resolved. Nothing is claimed of what it holds.
#[verifier::external_body]
fn capture_backtrace() -> (backtrace: Backtrace) {
    Backtrace::new()
}

/// `Arc::new` of std, the result seen as a reference to a value of any type.
/// Nothing is claimed of the reference.
#[verifier::external_body]
fn erase<T: Send + Sync + 'static>(value: T) -> (erased: ErasedArc) {
    ErasedArc { value: Arc::new(value) }
}

/// The same reference with its type forgotten; no std function is involved but
/// the coercion. Nothing is claimed of the reference.
#[verifier::external_body]
fn erase_arc<T: Send + Sync + 'static>(value: Arc<T>) -> (erased: ErasedArc) {
    ErasedArc { value }
}

/// `<dyn Any>::is` of std: whether the value behind the reference has the
/// type `T`. Nothing is claimed of the answer.
#[verifier::external_body]
fn erased_is<T: Send + Sync + 'static>(erased: &ErasedArc) -> (is: bool) {
    erased.value.is::<T>()
}

/// `Any::type_id` of std, of the value behind the reference. Nothing is
/// claimed of the identifier.
#[verifier::external_body]
fn erased_type_id(erased: &ErasedArc) -> (id: TypeId) {
    (*erased.value).type_id()
}

/// `TypeId::of` of std: the identifier of the type `T`. Nothing is claimed of
/// the identifier.
#[verifier::external_body]
fn type_id_of<T: 'static>() -> (id: TypeId) {
    TypeId::of::<T>()
}

/// `Arc::<dyn Any + Send + Sync>::downcast` of std. Where the value behind the
/// reference does not have the type `T`, std hands back the reference it was
/// given.
#[verifier::external_body]
fn erased_downcast<T: Send + Sync + 'static>(erased: ErasedArc) -> (r: Result<Arc<T>, ErasedArc>)
    ensures
        r matches Err(back) ==> back == erased,
{
    match erased.value.downcast::<T>() {
        Ok(typed) => Ok(typed),
        Err(value) => Err(ErasedArc { value }),
    }
}

/// `Arc::ptr_eq` of std: whether both references point to the same value.
/// The answer rests on addresses, so nothing is claimed of it.
#[verifier::external_body]
fn erased_ptr_eq(a: &ErasedArc, b: &ErasedArc) -> (same: bool) {
    Arc::ptr_eq(&a.value, &b.value)
}

/// `Arc::try_unwrap` of std: the value itself where the reference is the only
/// one to it, else the reference that was given.
#[verifier::external_body]
fn arc_try_unwrap<T>(shared: Arc<T>) -> (r: Result<T, Arc<T>>)
    ensures
        match r {
            Ok(value) => value == *shared,
            Err(back) => back == shared,
        },
{
    Arc::try_unwrap(shared)
}

/// Why a value could not be taken out of its container.
#[derive(Debug)]
pub enum TakeError {
    /// The container holds a value of another type.
    TypeMismatch { expected: TypeId, found: TypeId },
    /// Another holder shares the value.
    StillShared,
    /// The value was taken before.
    AlreadyTaken,
}

/// `Backtrace::clone` of the backtrace crate, which `derive` writes: a copy
/// of the captured frames. Nothing is claimed of the copy.
pub assume_specification[ <Backtrace as Clone>::clone ](backtrace: &Backtrace) -> (copy: Backtrace)
;

/// Holds at most one captured error value and the backtrace of its capture.
pub struct ActorInnerError {
    inner_error: Option<ErasedArc>,
    backtrace: Backtrace,
}

impl Clone for ActorInnerError {
    /// Another holder of the same captured value. While both exist neither
    /// can take the value out.
    fn clone(&self) -> (r: Self)
        ensures
            r.is_taken() == self.is_taken(),
    {
        let inner_error = match &self.inner_error {
            Some(shared) => Some(shared.clone()),
            None => None,
        };
        ActorInnerError { inner_error, backtrace: self.backtrace.clone() }
    }
}

impl ActorInnerError {
    /// The reference that the container holds, if the value was not taken.
    pub closed spec fn held(&self) -> Option<ErasedArc> {
        self.inner_error
    }

    /// The backtrace that the container was made with.
    pub closed spec fn captured_backtrace(&self) -> Backtrace {
        self.backtrace
    }

    /// Whether the value was taken out.
    pub open spec fn is_taken(&self) -> bool {
        self.held() is None
    }

    /// Captures `inner_error` and the backtrace of this call.
    pub fn new<T>(inner_error: T) -> (e: Self) where T: Send + Sync + 'static
        ensures
            !e.is_taken(),
    {
        ActorInnerError { inner_error: Some(erase(inner_error)), backtrace: capture_backtrace() }
    }

    /// The backtrace taken when the value was captured.
    pub fn backtrace(&self) -> (b: &Backtrace)
        ensures
            *b == self.captured_backtrace(),
    {
        &self.backtrace
    }

    /// Whether the container still holds its value.
    pub fn holds_value(&self) -> (r: bool)
        ensures
            r == !self.is_taken(),
    {
        self.inner_error.is_some()
    }

    /// Whether the container holds a value of the type `T`. An empty
    /// container holds none; the container is not changed.
    pub fn is_type<T: Send + Sync + 'static>(&self) -> (r: bool)
        ensures
            self.is_taken() ==> !r,
    {
        match &self.inner_error {
            Some(m) => erased_is::<T>(m),
            None => false,
        }
    }

    /// Takes the value out if it has the type `T` and nobody shares it. On
    /// every failure the container keeps what it held.
    pub fn take<T>(&mut self) -> (r: Result<T, TakeError>) where T: Send + Sync + 'static
        ensures
            old(self).is_taken() <==> r matches Err(TakeError::AlreadyTaken),
            r is Ok ==> final(self).is_taken(),
            r matches Err(TakeError::AlreadyTaken) ==> *final(self) == *old(self),
            r matches Err(TakeError::TypeMismatch { .. }) ==> *final(self) == *old(self),
            r matches Err(TakeError::StillShared) ==> !final(self).is_taken(),
            final(self).captured_backtrace() == old(self).captured_backtrace(),
    {
        match self.inner_error.take() {
            Some(v) => {
                let downcast = erased_downcast::<T>(v);
                self.settle_downcast(downcast)
            },
            None => Err(TakeError::AlreadyTaken),
        }
    }

    /// The second half of `take`, for a container whose value is out for the
    /// attempt: decides on what the downcast gave. A mismatch puts the
    /// reference back and reports the type asked for and the type found.
    pub fn settle_downcast<T>(&mut self, downcast: Result<Arc<T>, ErasedArc>) -> (r: Result<
        T,
        TakeError,
    >) where T: Send + Sync + 'static
        requires
            old(self).is_taken(),
        ensures
            final(self).captured_backtrace() == old(self).captured_backtrace(),
            match downcast {
                Ok(shared) => match r {
                    Ok(value) => value == *shared && final(self).is_taken(),
                    Err(e) => e is StillShared && !final(self).is_taken(),
                },
                Err(given) => {
                    &&& r matches Err(TakeError::TypeMismatch { .. })
                    &&& final(self).held() == Some(given)
                },
            },
    {
        match downcast {
            Ok(shared) => {
                let unwrapped = arc_try_unwrap(shared);
                self.settle_unwrap(unwrapped)
            },
            Err(given) => {
                let found = erased_type_id(&given);
                self.inner_error = Some(given);
                Err(TakeError::TypeMismatch { expected: type_id_of::<T>(), found })
            },
        }
    }

    /// The last step of `take`: the value itself ends the attempt with
    /// success and leaves the container empty; a reference that is still
    /// shared goes back into the container.
    pub fn settle_unwrap<T>(&mut self, unwrapped: Result<T, Arc<T>>) -> (r: Result<T, TakeError>) where
        T: Send + Sync + 'static,

        requires
            old(self).is_taken(),
        ensures
            final(self).captured_backtrace() == old(self).captured_backtrace(),
            match unwrapped {
                Ok(value) => r == Ok::<T, TakeError>(value) && final(self).is_taken(),
                Err(_) => r matches Err(TakeError::StillShared) && !final(self).is_taken(),
            },
    {
        match unwrapped {
            Ok(value) => Ok(value),
            Err(shared) => {
                self.inner_error = Some(erase_arc(shared));
                Err(TakeError::StillShared)
            },
        }
    }

    /// Whether both containers hold the same captured value, or are both
    /// empty. A container that holds a value never equals an empty one.
    pub fn same_error(&self, other: &ActorInnerError) -> (r: bool)
        ensures
            self.is_taken() && other.is_taken() ==> r,
            self.is_taken() != other.is_taken() ==> !r,
    {
        match (&self.inner_error, &other.inner_error) {
            (Some(a), Some(b)) => erased_ptr_eq(a, b),
            (None, None) => true,
            _ => false,
        }
    }

    /// Captures a text as the error value.
    pub fn from_string(s: String) -> (e: Self)
        ensures
            !e.is_taken(),
    {
        Self::new(s)
    }

    /// Captures a copy of a string slice as the error value.
    pub fn from_str(s: &str) -> (e: Self)
        ensures
            !e.is_taken(),
    {
        Self::new(s.to_owned())
    }
}

} // verus!
