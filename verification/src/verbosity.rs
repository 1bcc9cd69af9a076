//! How much the program tells of what it does.

use vstd::prelude::*;

verus! {

#[derive(Clone, Copy, Debug, PartialEq, Eq, Structural)]
pub enum Verbosity {
    Normal,
    Info,
    Debug,
    Trace,
}

impl Verbosity {
    /// The level as a number, from 0 for the normal one.
    pub open spec fn level(self) -> int {
        match self {
            Verbosity::Normal => 0,
            Verbosity::Info => 1,
            Verbosity::Debug => 2,
            Verbosity::Trace => 3,
        }
    }

    /// The verbosity of a level from 0 to 3.
    pub fn from_int(level: u8) -> (r: Self)
        requires
            level <= 3,
        ensures
            r.level() == level,
    {
        if level == 0 {
            Verbosity::Normal
        } else if level == 1 {
            Verbosity::Info
        } else if level == 2 {
            Verbosity::Debug
        } else {
            Verbosity::Trace
        }
    }

    /// The verbosity of a level, where there is one.
    pub fn try_from_int(level: u8) -> (r: Option<Self>)
        ensures
            level <= 3 ==> (r matches Some(v) && v.level() == level),
            level > 3 ==> r is None,
    {
        if level <= 3 {
            Some(Verbosity::from_int(level))
        } else {
            None
        }
    }

    /// The level as a number.
    pub fn to_int(&self) -> (r: u8)
        ensures
            r == self.level(),
    {
        match self {
            Verbosity::Normal => 0,
            Verbosity::Info => 1,
            Verbosity::Debug => 2,
            Verbosity::Trace => 3,
        }
    }

    /// Whether this verbosity tells as much as `other` or more.
    pub fn at_least(&self, other: Verbosity) -> (r: bool)
        ensures
            r == (self.level() >= other.level()),
    {
        self.to_int() >= other.to_int()
    }
}

} // verus!
