//! The frame buffer: one snapshot of the strip.
//!
//! A frame owns a fixed number of pixel slots and a logical length. Slots at
//! and beyond the logical length are always black, so a shorter frame loaded
//! over a longer one never shows a stale tail.

use crate::color::Rgb;
use vstd::prelude::*;
use vstd::slice::slice_subrange;

verus! {

/// What the slots of a frame hold after `pixels` was loaded into `capacity`
/// slots: the pixels that fit, then black.
pub open spec fn padded(pixels: Seq<Rgb>, capacity: nat) -> Seq<Rgb> {
    Seq::new(
        capacity,
        |i: int|
            if i < pixels.len() {
                pixels[i]
            } else {
                Rgb::black()
            },
    )
}

/// The pixels that a frame of `capacity` slots keeps of `pixels`.
pub open spec fn kept(pixels: Seq<Rgb>, capacity: nat) -> Seq<Rgb> {
    if pixels.len() <= capacity {
        pixels
    } else {
        pixels.take(capacity as int)
    }
}

/// A bounded, ordered sequence of pixels.
#[derive(Debug)]
pub struct Frame {
    slots: Vec<Rgb>,
    len: usize,
}

impl View for Frame {
    type V = Seq<Rgb>;

    /// The logical prefix: the pixels that the frame shows.
    closed spec fn view(&self) -> Seq<Rgb> {
        self.slots@.take(self.len as int)
    }
}

impl Frame {
    #[verifier::type_invariant]
    spec fn well_formed(self) -> bool {
        &&& self.len <= self.slots@.len()
        &&& forall|i: int| self.len <= i < self.slots@.len() ==> self.slots@[i] == Rgb::black()
    }

    /// Every slot of the frame, the logical prefix and the black tail.
    pub closed spec fn storage(self) -> Seq<Rgb> {
        self.slots@
    }

    /// Builds a frame of `capacity` slots from `pixels`.
    ///
    /// Up to `capacity` pixels are copied in order; an input longer than
    /// that is truncated, and every slot that is left is black.
    pub fn from(pixels: &[Rgb], capacity: usize) -> (frame: Self)
        ensures
            frame.storage() == padded(pixels@, capacity as nat),
            frame@ == kept(pixels@, capacity as nat),
    {
        let mut slots: Vec<Rgb> = Vec::new();
        let mut i: usize = 0;
        while i < capacity
            invariant
                i <= capacity,
                slots@.len() == i,
                forall|j: int|
                    0 <= j < i ==> slots@[j] == if j < pixels@.len() {
                        pixels@[j]
                    } else {
                        Rgb::black()
                    },
            decreases capacity - i,
        {
            if i < pixels.len() {
                slots.push(pixels[i]);
            } else {
                slots.push(Rgb::new(0, 0, 0));
            }
            i += 1;
        }
        let len: usize = if pixels.len() <= capacity {
            pixels.len()
        } else {
            capacity
        };
        assert(slots@ =~= padded(pixels@, capacity as nat));
        assert(slots@.take(len as int) =~= kept(pixels@, capacity as nat));
        Frame { slots, len }
    }

    /// An all-black frame that shows `count` pixels.
    pub fn dark(count: usize) -> (frame: Self)
        ensures
            frame.storage() == Seq::new(count as nat, |i: int| Rgb::black()),
            frame@ == frame.storage(),
    {
        let mut slots: Vec<Rgb> = Vec::new();
        let mut i: usize = 0;
        while i < count
            invariant
                i <= count,
                slots@.len() == i,
                forall|j: int| 0 <= j < i ==> slots@[j] == Rgb::black(),
            decreases count - i,
        {
            slots.push(Rgb::new(0, 0, 0));
            i += 1;
        }
        assert(slots@ =~= Seq::new(count as nat, |i: int| Rgb::black()));
        assert(slots@.take(count as int) =~= slots@);
        Frame { slots, len: count }
    }

    /// Replaces the content of the frame by `pixels`.
    ///
    /// The capacity stays; the result is that of [`Frame::from`] with this
    /// capacity, whatever the frame held before.
    pub fn load(&mut self, pixels: &[Rgb])
        ensures
            final(self).storage() == padded(pixels@, old(self).storage().len()),
            final(self)@ == kept(pixels@, old(self).storage().len()),
    {
        proof {
            use_type_invariant(&*self);
        }
        let capacity: usize = self.slots.len();
        let fresh = Frame::from(pixels, capacity);
        *self = fresh;
    }

    /// Number of pixels that the frame shows.
    pub fn len(&self) -> (n: usize)
        ensures
            n == self@.len(),
            n <= self.storage().len(),
    {
        proof {
            use_type_invariant(self);
        }
        self.len
    }

    /// Whether the frame shows no pixel.
    pub fn is_empty(&self) -> (empty: bool)
        ensures
            empty <==> self@.len() == 0,
    {
        proof {
            use_type_invariant(self);
        }
        self.len == 0
    }

    /// Number of slots of the frame.
    pub fn capacity(&self) -> (n: usize)
        ensures
            n == self.storage().len(),
    {
        self.slots.len()
    }

    /// The pixels that the frame shows, and no slot beyond them.
    pub fn as_slice(&self) -> (pixels: &[Rgb])
        ensures
            pixels@ == self@,
    {
        proof {
            use_type_invariant(self);
        }
        slice_subrange(self.slots.as_slice(), 0, self.len)
    }

    /// The pixel in slot `index`, or `None` beyond the capacity. A slot at or
    /// beyond the logical length holds black.
    pub fn slot(&self, index: usize) -> (pixel: Option<Rgb>)
        ensures
            pixel == if index < self.storage().len() {
                Some(self.storage()[index as int])
            } else {
                None
            },
            self@.len() <= index < self.storage().len() ==> pixel == Some(Rgb::black()),
            index < self@.len() ==> pixel == Some(self@[index as int]),
    {
        proof {
            use_type_invariant(self);
        }
        if index < self.slots.len() {
            Some(self.slots[index])
        } else {
            None
        }
    }
}

} // verus!
