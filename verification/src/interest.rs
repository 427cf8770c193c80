use vstd::prelude::*;

verus! {

/// The readiness conditions a socket is subscribed to: reading, writing or both.
/// There is no empty interest.
#[derive(Clone, Copy, Debug, PartialEq, Eq, Structural)]
pub enum Interest {
    Readable,
    Writable,
    ReadWrite,
}

impl Interest {
    /// Reading is among the conditions.
    pub open spec fn has_readable(self) -> bool {
        self != Interest::Writable
    }

    /// Writing is among the conditions.
    pub open spec fn has_writable(self) -> bool {
        self != Interest::Readable
    }

    /// The interest with the given conditions, where there is one: at least one of
    /// the two must be asked for.
    pub open spec fn of(readable: bool, writable: bool) -> Option<Interest> {
        if readable && writable {
            Some(Interest::ReadWrite)
        } else if readable {
            Some(Interest::Readable)
        } else if writable {
            Some(Interest::Writable)
        } else {
            None
        }
    }

    /// The conditions of `self` and writing.
    pub open spec fn and_writable(self) -> Interest {
        if self.has_readable() {
            Interest::ReadWrite
        } else {
            Interest::Writable
        }
    }

    /// Whether reading is among the conditions.
    pub fn is_readable(self) -> (readable: bool)
        ensures
            readable == self.has_readable(),
    {
        match self {
            Interest::Writable => false,
            _ => true,
        }
    }

    /// Whether writing is among the conditions.
    pub fn is_writable(self) -> (writable: bool)
        ensures
            writable == self.has_writable(),
    {
        match self {
            Interest::Readable => false,
            _ => true,
        }
    }

    /// The conditions of `self` and those of `other` together.
    pub fn add(self, other: Interest) -> (sum: Interest)
        ensures
            Some(sum) == Self::of(
                self.has_readable() || other.has_readable(),
                self.has_writable() || other.has_writable(),
            ),
    {
        let readable = self.is_readable() || other.is_readable();
        let writable = self.is_writable() || other.is_writable();
        if readable && writable {
            Interest::ReadWrite
        } else if readable {
            Interest::Readable
        } else {
            Interest::Writable
        }
    }

    /// The conditions of `self` that are not among those of `other`; `None` where
    /// none is left.
    pub fn remove(self, other: Interest) -> (rest: Option<Interest>)
        ensures
            rest == Self::of(
                self.has_readable() && !other.has_readable(),
                self.has_writable() && !other.has_writable(),
            ),
    {
        let readable = self.is_readable() && !other.is_readable();
        let writable = self.is_writable() && !other.is_writable();
        if readable && writable {
            Some(Interest::ReadWrite)
        } else if readable {
            Some(Interest::Readable)
        } else if writable {
            Some(Interest::Writable)
        } else {
            None
        }
    }

    /// `self` without the writing condition; reading alone where nothing else
    /// would be left.
    pub fn without_writable(self) -> (rest: Interest)
        ensures
            rest == Interest::Readable,
            !rest.has_writable(),
    {
        match self.remove(Interest::Writable) {
            Some(rest) => rest,
            None => Interest::Readable,
        }
    }
}

} // verus!
