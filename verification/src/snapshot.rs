use vstd::prelude::*;

verus! {

/// Values that can be compared for equality in executable code.
pub trait Same: Sized {
    /// Whether the two values are equal.
    fn same(&self, other: &Self) -> (res: bool)
        ensures
            res == (*self == *other),
    ;
}

/// Values whose state can be copied and compared, as an edit history needs.
pub trait Snapshot: View + Sized {
    /// An exact copy.
    fn duplicate(&self) -> (res: Self)
        ensures
            res@ == self@,
    ;

    /// Whether the two values hold the same state.
    fn same_as(&self, other: &Self) -> (res: bool)
        ensures
            res == (self@ == other@),
    ;
}

impl Same for i64 {
    fn same(&self, other: &Self) -> (res: bool) {
        *self == *other
    }
}

impl Same for i32 {
    fn same(&self, other: &Self) -> (res: bool) {
        *self == *other
    }
}

impl Same for u32 {
    fn same(&self, other: &Self) -> (res: bool) {
        *self == *other
    }
}

impl Same for u64 {
    fn same(&self, other: &Self) -> (res: bool) {
        *self == *other
    }
}

impl Same for usize {
    fn same(&self, other: &Self) -> (res: bool) {
        *self == *other
    }
}

impl Same for bool {
    fn same(&self, other: &Self) -> (res: bool) {
        *self == *other
    }
}

impl<A: Same, B: Same> Same for (A, B) {
    fn same(&self, other: &Self) -> (res: bool) {
        self.0.same(&other.0) && self.1.same(&other.1)
    }
}

impl<A: Same, B: Same, C: Same> Same for (A, B, C) {
    fn same(&self, other: &Self) -> (res: bool) {
        self.0.same(&other.0) && self.1.same(&other.1) && self.2.same(&other.2)
    }
}

} // verus!
