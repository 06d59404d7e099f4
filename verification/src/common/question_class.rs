//! The table of question and record classes.

use vstd::prelude::*;
use vstd::std_specs::convert::FromSpecImpl;

verus! {

/// A two octet code that specifies the class of the query. For example, the
/// class is `Internet` for the Internet.
#[derive(Debug, Copy, Clone, Eq, PartialEq, Structural)]
pub enum QuestionClass {
    /// the internet
    Internet,
    /// Chaos
    Chaos,
    /// Hesiod
    Hesiod,
    /// The class `NONE` (254)
    NoClass,
    /// Any
    Any,
    /// A code below `0xFF00` that no class is assigned to
    Unassigned(u16),
    /// A code from `0xFF00` on
    Reserved(u16),
}

impl QuestionClass {
    /// The class that the wire code `val` stands for.
    pub open spec fn from_code(val: u16) -> Self {
        if val == 1 {
            QuestionClass::Internet
        } else if val == 3 {
            QuestionClass::Chaos
        } else if val == 4 {
            QuestionClass::Hesiod
        } else if val == 254 {
            QuestionClass::NoClass
        } else if val == 255 {
            QuestionClass::Any
        } else if val >= 0xFF00 {
            QuestionClass::Reserved(val)
        } else {
            QuestionClass::Unassigned(val)
        }
    }

    /// The wire code that the class stands for.
    pub open spec fn code(self) -> u16 {
        match self {
            QuestionClass::Internet => 1,
            QuestionClass::Chaos => 3,
            QuestionClass::Hesiod => 4,
            QuestionClass::NoClass => 254,
            QuestionClass::Any => 255,
            QuestionClass::Unassigned(x) => x,
            QuestionClass::Reserved(x) => x,
        }
    }
}

impl From<u16> for QuestionClass {
    fn from(val: u16) -> (r: Self) {
        match val {
            1 => QuestionClass::Internet,
            3 => QuestionClass::Chaos,
            4 => QuestionClass::Hesiod,
            254 => QuestionClass::NoClass,
            255 => QuestionClass::Any,
            x if x >= 0xFF00 => QuestionClass::Reserved(x),
            x => QuestionClass::Unassigned(x),
        }
    }
}

impl FromSpecImpl<u16> for QuestionClass {
    open spec fn obeys_from_spec() -> bool {
        true
    }

    open spec fn from_spec(val: u16) -> Self {
        QuestionClass::from_code(val)
    }
}

/// No class loses its code: the code of the class read from `val` is `val`.
pub proof fn lemma_class_keeps_code(val: u16)
    ensures
        QuestionClass::from_code(val).code() == val,
{
}

/// A code is reserved exactly from `0xFF00` on, and unassigned exactly when
/// it is below that and names none of the five classes.
pub proof fn lemma_class_ranges(val: u16)
    ensures
        QuestionClass::from_code(val) is Reserved <==> val >= 0xFF00,
        QuestionClass::from_code(val) is Unassigned <==> (val < 0xFF00 && val != 1 && val != 3
            && val != 4 && val != 254 && val != 255),
{
}

} // verus!
