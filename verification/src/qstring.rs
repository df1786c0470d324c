//! An owned string of UTF-16 units, the value type the generated object
//! model exchanges with the native side.

use vstd::prelude::*;

verus! {

/// An owned string of UTF-16 units.
#[derive(PartialEq, Eq, Debug)]
pub struct QString {
    /// The UTF-16 units, in order.
    pub data: Vec<u16>,
}

impl View for QString {
    type V = Seq<u16>;

    open spec fn view(&self) -> Seq<u16> {
        self.data@
    }
}

impl QString {
    /// The empty string.
    pub fn new() -> (r: QString)
        ensures
            r@.len() == 0,
    {
        QString { data: Vec::new() }
    }

    /// A string holding the given UTF-16 units.
    pub fn from_units(units: Vec<u16>) -> (r: QString)
        ensures
            r@ == units@,
    {
        QString { data: units }
    }

    /// The string's UTF-16 units.
    pub fn as_slice(&self) -> (r: &[u16])
        ensures
            r@ == self@,
    {
        self.data.as_slice()
    }

    /// Whether the string holds no units.
    pub fn is_empty(&self) -> (r: bool)
        ensures
            r == (self@.len() == 0),
    {
        self.data.len() == 0
    }

    /// Unit-wise equality with another string.
    pub fn eq_units(&self, other: &QString) -> (r: bool)
        ensures
            r == (self@ == other@),
    {
        if self.data.len() != other.data.len() {
            return false;
        }
        let mut i: usize = 0;
        while i < self.data.len()
            invariant
                0 <= i <= self.data@.len(),
                self.data@.len() == other.data@.len(),
                forall|j: int| 0 <= j < i ==> self.data@[j] == other.data@[j],
            decreases self.data@.len() - i,
        {
            if self.data[i] != other.data[i] {
                return false;
            }
            i = i + 1;
        }
        proof {
            assert(self@ =~= other@);
        }
        true
    }

    /// An exact copy of this string.
    pub fn clone_string(&self) -> (r: QString)
        ensures
            r@ == self@,
    {
        let mut data: Vec<u16> = Vec::new();
        proof {
            assert(data@ =~= self.data@.subrange(0, 0));
        }
        let mut i: usize = 0;
        while i < self.data.len()
            invariant
                0 <= i <= self.data@.len(),
                data@ == self.data@.subrange(0, i as int),
            decreases self.data@.len() - i,
        {
            data.push(self.data[i]);
            proof {
                assert(data@ =~= self.data@.subrange(0, i + 1int));
            }
            i = i + 1;
        }
        proof {
            assert(self.data@.subrange(0, self.data@.len() as int) =~= self.data@);
        }
        QString { data }
    }

    /// Prepend the given string in front of this one.
    pub fn prepend(&mut self, other: &QString)
        ensures
            final(self)@ == other@ + old(self)@,
    {
        let mut data = other.clone_string().data;
        proof {
            assert(data@ =~= other.data@ + self.data@.subrange(0, 0));
        }
        let mut i: usize = 0;
        while i < self.data.len()
            invariant
                0 <= i <= self.data@.len(),
                data@ == other.data@ + self.data@.subrange(0, i as int),
            decreases self.data@.len() - i,
        {
            data.push(self.data[i]);
            proof {
                assert(data@ =~= other.data@ + self.data@.subrange(0, i + 1int));
            }
            i = i + 1;
        }
        proof {
            assert(self.data@.subrange(0, self.data@.len() as int) =~= self.data@);
        }
        self.data = data;
    }
}

} // verus!
