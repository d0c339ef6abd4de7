//! Values that are copied and told apart by what they hold.

use vstd::prelude::*;

verus! {

/// A value made of plain data.
pub trait Record: DeepView + Sized {
    /// Tests whether two values hold the same.
    fn same(&self, other: &Self) -> (same: bool)
        ensures
            same == (self.deep_view() == other.deep_view()),
    ;

    /// A value that holds the same.
    fn copy(&self) -> (copy: Self)
        ensures
            copy.deep_view() == self.deep_view(),
    ;
}

impl Record for bool {
    fn same(&self, other: &bool) -> (same: bool) {
        *self == *other
    }

    fn copy(&self) -> (copy: bool) {
        *self
    }
}

impl Record for u8 {
    fn same(&self, other: &u8) -> (same: bool) {
        *self == *other
    }

    fn copy(&self) -> (copy: u8) {
        *self
    }
}

impl Record for u16 {
    fn same(&self, other: &u16) -> (same: bool) {
        *self == *other
    }

    fn copy(&self) -> (copy: u16) {
        *self
    }
}

impl Record for u32 {
    fn same(&self, other: &u32) -> (same: bool) {
        *self == *other
    }

    fn copy(&self) -> (copy: u32) {
        *self
    }
}

impl Record for i32 {
    fn same(&self, other: &i32) -> (same: bool) {
        *self == *other
    }

    fn copy(&self) -> (copy: i32) {
        *self
    }
}

impl Record for u64 {
    fn same(&self, other: &u64) -> (same: bool) {
        *self == *other
    }

    fn copy(&self) -> (copy: u64) {
        *self
    }
}

impl Record for i64 {
    fn same(&self, other: &i64) -> (same: bool) {
        *self == *other
    }

    fn copy(&self) -> (copy: i64) {
        *self
    }
}

impl Record for String {
    fn same(&self, other: &String) -> (same: bool) {
        *self == *other
    }

    fn copy(&self) -> (copy: String) {
        self.clone()
    }
}

impl<T: Record> Record for Option<T> {
    fn same(&self, other: &Option<T>) -> (same: bool) {
        match (self, other) {
            (Some(a), Some(b)) => a.same(b),
            (None, None) => true,
            _ => false,
        }
    }

    fn copy(&self) -> (copy: Option<T>) {
        match self {
            Some(a) => Some(a.copy()),
            None => None,
        }
    }
}

impl<T: Record> Record for Vec<T> {
    fn same(&self, other: &Vec<T>) -> (same: bool) {
        if self.len() != other.len() {
            assert(self.deep_view().len() != other.deep_view().len());
            return false;
        }
        let mut i: usize = 0;
        while i < self.len()
            invariant
                i <= self@.len(),
                self@.len() == other@.len(),
                forall|k: int|
                    0 <= k < i ==> (#[trigger] self@[k]).deep_view() == other@[k].deep_view(),
            decreases self@.len() - i,
        {
            if !self[i].same(&other[i]) {
                assert(self.deep_view()[i as int] != other.deep_view()[i as int]);
                return false;
            }
            i = i + 1;
        }
        assert(self.deep_view() =~= other.deep_view());
        true
    }

    fn copy(&self) -> (copy: Vec<T>) {
        let mut copy: Vec<T> = Vec::new();
        let mut i: usize = 0;
        while i < self.len()
            invariant
                i <= self@.len(),
                copy@.len() == i,
                forall|k: int|
                    0 <= k < i ==> (#[trigger] copy@[k]).deep_view() == self@[k].deep_view(),
            decreases self@.len() - i,
        {
            copy.push(self[i].copy());
            i = i + 1;
        }
        assert(copy.deep_view() =~= self.deep_view());
        copy
    }
}

} // verus!
