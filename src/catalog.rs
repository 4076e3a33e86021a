use vstd::prelude::*;

verus! {

/// Number of categories in the catalog.
pub const CLASS_COUNT: usize = 4;

/// An object category that a bounding box can be labelled with.
#[derive(Clone, Copy, Debug, PartialEq, Eq, Structural, Hash)]
pub enum Classes {
    Ball,
    Robot,
    GoalPost,
    PenaltySpot,
}

/// A code that names no category: it is not below `CLASS_COUNT`.
#[derive(Clone, Copy, Debug, PartialEq, Eq, Structural)]
pub struct OutOfRange {
    pub code: usize,
}

/// The canonical order of the categories: enumeration, codes and
/// navigation all follow it.
pub open spec fn canonical() -> Seq<Classes> {
    seq![Classes::Ball, Classes::Robot, Classes::GoalPost, Classes::PenaltySpot]
}

/// The category after `c` in canonical order, the first one after the last.
pub open spec fn next_of(c: Classes) -> Classes {
    canonical()[((c.code_spec() + 1) as int) % (CLASS_COUNT as int)]
}

/// The category before `c` in canonical order, the last one before the first.
pub open spec fn previous_of(c: Classes) -> Classes {
    canonical()[((c.code_spec() + CLASS_COUNT - 1) as int) % (CLASS_COUNT as int)]
}

/// `n` steps forward from `c`.
pub open spec fn next_n(c: Classes, n: nat) -> Classes
    decreases n,
{
    if n == 0 {
        c
    } else {
        next_of(next_n(c, (n - 1) as nat))
    }
}

/// `n` steps backward from `c`.
pub open spec fn previous_n(c: Classes, n: nat) -> Classes
    decreases n,
{
    if n == 0 {
        c
    } else {
        previous_of(previous_n(c, (n - 1) as nat))
    }
}

impl Classes {
    /// Position of the category in the canonical order.
    pub open spec fn code_spec(self) -> nat {
        match self {
            Classes::Ball => 0,
            Classes::Robot => 1,
            Classes::GoalPost => 2,
            Classes::PenaltySpot => 3,
        }
    }

    /// Every category, in canonical order.
    pub fn list() -> (r: Vec<Classes>)
        ensures
            r@ == canonical(),
    {
        vec![Classes::Ball, Classes::Robot, Classes::GoalPost, Classes::PenaltySpot]
    }

    /// The integer code of the category: its position in canonical order.
    pub fn code(&self) -> (r: usize)
        ensures
            r == self.code_spec(),
            r < CLASS_COUNT,
    {
        match self {
            Classes::Ball => 0,
            Classes::Robot => 1,
            Classes::GoalPost => 2,
            Classes::PenaltySpot => 3,
        }
    }

    /// The category with the given code; codes from `CLASS_COUNT` on are refused.
    pub fn from_code(code: usize) -> (r: Result<Classes, OutOfRange>)
        ensures
            code < CLASS_COUNT ==> r == Ok::<Classes, OutOfRange>(canonical()[code as int]),
            code >= CLASS_COUNT ==> r == Err::<Classes, OutOfRange>(OutOfRange { code }),
    {
        match code {
            0 => Ok(Classes::Ball),
            1 => Ok(Classes::Robot),
            2 => Ok(Classes::GoalPost),
            3 => Ok(Classes::PenaltySpot),
            _ => Err(OutOfRange { code }),
        }
    }

    /// Where `class` stands in the list of all categories.
    fn position(classes: &Vec<Classes>, class: &Classes) -> (r: usize)
        requires
            classes@ == canonical(),
        ensures
            r < classes@.len(),
            classes@[r as int] == *class,
            r == class.code_spec(),
    {
        let mut i: usize = 0;
        while i < classes.len()
            invariant
                classes@ == canonical(),
                i <= class.code_spec(),
            decreases classes.len() - i,
        {
            if classes[i] == *class {
                return i;
            }
            i = i + 1;
        }
        i
    }

    /// The category before `class` in canonical order, wrapping from the
    /// first to the last.
    pub fn previous(class: &Classes) -> (r: Classes)
        ensures
            r == previous_of(*class),
    {
        let classes = Self::list();
        let index = Self::position(&classes, class);
        classes[(index + classes.len() - 1) % classes.len()]
    }

    /// The category after `class` in canonical order, wrapping from the
    /// last to the first.
    pub fn next(class: &Classes) -> (r: Classes)
        ensures
            r == next_of(*class),
    {
        let classes = Self::list();
        let index = Self::position(&classes, class);
        classes[(index + 1) % classes.len()]
    }
}

impl From<&Classes> for usize {
    fn from(value: &Classes) -> (r: usize) {
        value.code()
    }
}

impl vstd::std_specs::convert::FromSpecImpl<&Classes> for usize {
    open spec fn obeys_from_spec() -> bool {
        true
    }

    open spec fn from_spec(v: &Classes) -> usize {
        v.code_spec() as usize
    }
}

} // verus!
