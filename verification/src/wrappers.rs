//! Resource wrappers around the sound chip's handles.
//!
//! The engine looks a resource up by its type, and the hardware layer's handle
//! types belong to the hardware layer. Each wrapper here gives one handle a
//! type of this crate and nothing else: it holds the handle, hands it out by
//! reference, and keeps no state of its own.

use core::ops::{Deref, DerefMut};
use vstd::prelude::*;

verus! {

/// Access to the sound chip as a whole.
pub struct Sound<S>(S);

impl<S> View for Sound<S> {
    type V = S;

    /// The handle that the wrapper holds.
    closed spec fn view(&self) -> S {
        self.0
    }
}

impl<S> Sound<S> {
    /// Wraps a handle.
    pub fn new(handle: S) -> (wrapped: Self)
        ensures
            wrapped@ == handle,
    {
        Sound(handle)
    }

    /// Gives the handle back.
    pub fn into_inner(self) -> (handle: S)
        ensures
            handle == self@,
    {
        self.0
    }

    /// The wrapper has no state but its handle: two that hold the same
    /// handle are the same.
    pub proof fn lemma_only_the_handle(self, other: Self)
        requires
            self@ == other@,
        ensures
            self == other,
    {
    }
}

impl<S> Deref for Sound<S> {
    type Target = S;

    fn deref(&self) -> (handle: &S)
        ensures
            *handle == self@,
    {
        &self.0
    }
}

impl<S> DerefMut for Sound<S> {
    fn deref_mut(&mut self) -> (handle: &mut S)
        ensures
            *handle == old(self)@,
            final(self)@ == *final(handle),
    {
        &mut self.0
    }
}

/// Access to the noise generator.
pub struct Noise<H>(H);

impl<H> View for Noise<H> {
    type V = H;

    /// The handle that the wrapper holds.
    closed spec fn view(&self) -> H {
        self.0
    }
}

impl<H> Noise<H> {
    /// Wraps a handle.
    pub fn new(handle: H) -> (wrapped: Self)
        ensures
            wrapped@ == handle,
    {
        Noise(handle)
    }

    /// Gives the handle back.
    pub fn into_inner(self) -> (handle: H)
        ensures
            handle == self@,
    {
        self.0
    }

    /// The wrapper has no state but its handle: two that hold the same
    /// handle are the same.
    pub proof fn lemma_only_the_handle(self, other: Self)
        requires
            self@ == other@,
        ensures
            self == other,
    {
    }
}

impl<H> Deref for Noise<H> {
    type Target = H;

    fn deref(&self) -> (handle: &H)
        ensures
            *handle == self@,
    {
        &self.0
    }
}

impl<H> DerefMut for Noise<H> {
    fn deref_mut(&mut self) -> (handle: &mut H)
        ensures
            *handle == old(self)@,
            final(self)@ == *final(handle),
    {
        &mut self.0
    }
}

/// Access to the `N`th pulse channel.
///
/// The chip has two pulse channels, and the hardware layer gives each a type
/// of its own. One wrapper serves both: it holds the two handles and hands
/// out the first where `N` is 1 and the second where `N` is 2.
pub struct Channel<const N: usize, C1, C2> {
    c1: C1,
    c2: C2,
}

impl<const N: usize, C1, C2> View for Channel<N, C1, C2> {
    type V = (C1, C2);

    /// The two handles that the wrapper holds, the first channel's first.
    closed spec fn view(&self) -> (C1, C2) {
        (self.c1, self.c2)
    }
}

impl<const N: usize, C1, C2> Channel<N, C1, C2> {
    /// Gives both handles back.
    pub fn into_inner(self) -> (handles: (C1, C2))
        ensures
            handles == self@,
    {
        (self.c1, self.c2)
    }

    /// The wrapper has no state but its two handles: two that hold the same
    /// handles are the same.
    pub proof fn lemma_only_the_handles(self, other: Self)
        requires
            self@ == other@,
        ensures
            self == other,
    {
    }
}

impl<C1, C2> Channel<1, C1, C2> {
    /// Wraps the two channel handles taken from the sound chip.
    pub fn from_sound(channel1: C1, channel2: C2) -> (wrapped: Self)
        ensures
            wrapped@ == (channel1, channel2),
    {
        Channel { c1: channel1, c2: channel2 }
    }
}

impl<C1, C2> Channel<2, C1, C2> {
    /// Wraps the two channel handles taken from the sound chip.
    pub fn from_sound(channel1: C1, channel2: C2) -> (wrapped: Self)
        ensures
            wrapped@ == (channel1, channel2),
    {
        Channel { c1: channel1, c2: channel2 }
    }
}

impl<C1, C2> Deref for Channel<1, C1, C2> {
    type Target = C1;

    fn deref(&self) -> (handle: &C1)
        ensures
            *handle == self@.0,
    {
        &self.c1
    }
}

impl<C1, C2> DerefMut for Channel<1, C1, C2> {
    fn deref_mut(&mut self) -> (handle: &mut C1)
        ensures
            *handle == old(self)@.0,
            final(self)@ == (*final(handle), old(self)@.1),
    {
        &mut self.c1
    }
}

impl<C1, C2> Deref for Channel<2, C1, C2> {
    type Target = C2;

    fn deref(&self) -> (handle: &C2)
        ensures
            *handle == self@.1,
    {
        &self.c2
    }
}

impl<C1, C2> DerefMut for Channel<2, C1, C2> {
    fn deref_mut(&mut self) -> (handle: &mut C2)
        ensures
            *handle == old(self)@.1,
            final(self)@ == (old(self)@.0, *final(handle)),
    {
        &mut self.c2
    }
}

} // verus!
