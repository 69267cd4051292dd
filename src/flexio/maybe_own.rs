use vstd::prelude::*;

verus! {

/// A value that is owned until it is moved into static storage, after which
/// it is reached through a `'static` reference.
pub struct MaybeOwn<T: 'static> {
    inner: MaybeOwnEnum<T>,
}

enum MaybeOwnEnum<T: 'static> {
    Owned(Option<T>),
    StaticRef(&'static T),
}

impl<T: 'static> MaybeOwn<T> {
    /// Holds a value: owned, or in static storage.
    pub closed spec fn wf(&self) -> bool {
        !(self.inner matches MaybeOwnEnum::Owned(None))
    }

    /// The value held.
    pub closed spec fn value(&self) -> T {
        match self.inner {
            MaybeOwnEnum::Owned(Some(x)) => x,
            MaybeOwnEnum::StaticRef(x) => *x,
            MaybeOwnEnum::Owned(None) => arbitrary(),
        }
    }

    /// The value has been moved into static storage.
    pub closed spec fn is_static(&self) -> bool {
        self.inner matches MaybeOwnEnum::StaticRef(_)
    }

    /// Takes ownership of `t`.
    pub fn new(t: T) -> (r: Self)
        ensures
            r.wf(),
            r.value() == t,
            !r.is_static(),
    {
        Self { inner: MaybeOwnEnum::Owned(Some(t)) }
    }

    /// The value held.
    pub fn get(&self) -> (r: &T)
        requires
            self.wf(),
        ensures
            *r == self.value(),
    {
        match &self.inner {
            MaybeOwnEnum::Owned(Some(x)) => x,
            MaybeOwnEnum::StaticRef(x) => x,
            MaybeOwnEnum::Owned(None) => unreached(),
        }
    }

    /// Moves the value into `storage`, which must be empty, and hands out a
    /// `'static` reference to it. Once moved, the same reference is returned
    /// and `storage` is left alone.
    pub fn convert_to_static_ref(&mut self, storage: &'static mut Option<T>) -> (r: &'static T)
        requires
            old(self).wf(),
            old(self).is_static() || old(storage).is_none(),
        ensures
            final(self).wf(),
            final(self).is_static(),
            final(self).value() == old(self).value(),
            *r == old(self).value(),
            !old(self).is_static() ==> *final(storage) == Some(old(self).value()),
            old(self).is_static() ==> *final(storage) == *old(storage),
    {
        match &mut self.inner {
            MaybeOwnEnum::Owned(x) => {
                let x = x.take().unwrap();
                let x: &'static T = storage.insert(x);
                self.inner = MaybeOwnEnum::StaticRef(x);
                x
            },
            MaybeOwnEnum::StaticRef(x) => x,
        }
    }
}

} // verus!
