//! A value that is kept in a file between runs.
//!
//! The value lives in memory; reading and writing the file is left to the
//! program, which hands in what the file held and takes out what to store.

use vstd::prelude::*;

verus! {

/// What can be kept in a file: anything with a value to start from.
pub trait Persistable: Default {

}

impl<T: Default> Persistable for T {

}

/// A value together with the path of the file that keeps it.
pub struct Persistent<T: Persistable> {
    path: String,
    inner: T,
}

impl<T: Persistable> View for Persistent<T> {
    type V = T;

    /// The value kept.
    closed spec fn view(&self) -> T {
        self.inner
    }
}

impl<T: Persistable> Persistent<T> {
    /// The path of the file.
    pub closed spec fn spec_path(&self) -> Seq<char> {
        self.path@
    }

    /// Keeps `stored`, the value that the file at `path` held, or the value
    /// to start from where there was no file.
    pub fn open_with(path: String, stored: Option<T>) -> (kept: Self)
        ensures
            kept.spec_path() == path@,
            match stored {
                Some(value) => kept@ == value,
                None => call_ensures(T::default, (), kept@),
            },
    {
        let inner = match stored {
            Some(value) => value,
            None => T::default(),
        };
        Persistent { path, inner }
    }

    /// The path of the file.
    pub fn path(&self) -> (path: &str)
        ensures
            path@ == self.spec_path(),
    {
        self.path.as_str()
    }

    /// The value kept, for changes that the caller stores itself afterwards.
    #[inline]
    pub fn get_mut_unchecked(&mut self) -> (value: &mut T)
        ensures
            *value == old(self)@,
            final(self)@ == *final(value),
            final(self).spec_path() == old(self).spec_path(),
    {
        &mut self.inner
    }

    /// The value kept.
    #[inline]
    pub fn read(&self) -> (value: &T)
        ensures
            *value == self@,
    {
        &self.inner
    }
}


impl<T: Persistable> std::ops::Deref for Persistent<T> {
    type Target = T;

    /// The value kept.
    #[inline]
    fn deref(&self) -> (value: &T)
        ensures
            *value == self@,
    {
        &self.inner
    }
}

} // verus!
