//! Moving a pair of values between the shapes a pair can take: a tuple, an
//! array of two, a `Position`, a `Size`.

use crate::layout::{Position, Size};
use vstd::prelude::*;

verus! {

/// A value that can be packed again as a `T` with the same two components
/// in the same order.
pub trait Repack<T>: Sized {
    /// The value as a `T`.
    spec fn repacked(self) -> T;

    /// Packs the value again as a `T`.
    fn repack(self) -> (r: T)
        ensures
            r == self.repacked(),
    ;
}

impl<T> Repack<[T; 2]> for (T, T) {
    open spec fn repacked(self) -> [T; 2] {
        [self.0, self.1]
    }

    fn repack(self) -> (r: [T; 2]) {
        [self.0, self.1]
    }
}

impl<T: Copy> Repack<(T, T)> for [T; 2] {
    open spec fn repacked(self) -> (T, T) {
        (self[0], self[1])
    }

    fn repack(self) -> (r: (T, T)) {
        (self[0], self[1])
    }
}

impl<T> Repack<T> for Position where [i32; 2]: Repack<T> {
    open spec fn repacked(self) -> T {
        [self.0, self.1].repacked()
    }

    fn repack(self) -> (r: T) {
        [self.0, self.1].repack()
    }
}

impl<T: Repack<[i32; 2]>> Repack<Position> for T {
    open spec fn repacked(self) -> Position {
        Position(Repack::<[i32; 2]>::repacked(self)[0], Repack::<[i32; 2]>::repacked(self)[1])
    }

    fn repack(self) -> (r: Position) {
        let repacked: [i32; 2] = self.repack();
        Position(repacked[0], repacked[1])
    }
}

impl<T> Repack<T> for Size where [i32; 2]: Repack<T> {
    open spec fn repacked(self) -> T {
        [self.0, self.1].repacked()
    }

    fn repack(self) -> (r: T) {
        [self.0, self.1].repack()
    }
}

impl<T: Repack<[i32; 2]>> Repack<Size> for T {
    open spec fn repacked(self) -> Size {
        Size(Repack::<[i32; 2]>::repacked(self)[0], Repack::<[i32; 2]>::repacked(self)[1])
    }

    fn repack(self) -> (r: Size) {
        let repacked: [i32; 2] = self.repack();
        Size(repacked[0], repacked[1])
    }
}

} // verus!
