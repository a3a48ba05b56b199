//! The colours that pair a key with its lock.

use vstd::prelude::*;
use vstd::string::StringExecFns;

verus! {

/// The colour of a key or of a lock. A key opens the locks of its own colour.
#[derive(Clone, Copy, Debug, PartialEq, Eq, Structural, Hash)]
pub enum LockKeyColor {
    Red,
    Blue,
    Green,
    Yellow,
    Brown,
}

/// An upper-case ASCII letter as its lower-case one; any other character as
/// itself.
pub open spec fn lower_char(c: char) -> char {
    if 'A' <= c && c <= 'Z' {
        ((c as u32) + 32) as char
    } else {
        c
    }
}

/// `s` with each of its characters lowered.
pub open spec fn lowered(s: Seq<char>) -> Seq<char> {
    Seq::new(s.len(), |i: int| lower_char(s[i]))
}

/// The colour that a name stands for, letter case aside.
pub open spec fn color_named(s: Seq<char>) -> Option<LockKeyColor> {
    let l = lowered(s);
    if l == "red"@ {
        Some(LockKeyColor::Red)
    } else if l == "blue"@ {
        Some(LockKeyColor::Blue)
    } else if l == "brown"@ {
        Some(LockKeyColor::Brown)
    } else if l == "green"@ {
        Some(LockKeyColor::Green)
    } else if l == "yellow"@ {
        Some(LockKeyColor::Yellow)
    } else {
        None
    }
}

/// Whether `s`, lowered, reads as `word`.
fn reads_as(s: &str, word: &str) -> (same: bool)
    ensures
        same == (lowered(s@) == word@),
{
    let n = s.unicode_len();
    if n != word.unicode_len() {
        return false;
    }
    let mut i: usize = 0;
    while i < n
        invariant
            i <= n,
            n == s@.len(),
            n == word@.len(),
            forall|j: int| 0 <= j < i ==> lower_char(s@[j]) == word@[j],
        decreases n - i,
    {
        let c = s.get_char(i);
        let w = word.get_char(i);
        let folded: u32 = if c >= 'A' && c <= 'Z' {
            c as u32 + 32
        } else {
            c as u32
        };
        if folded != w as u32 {
            assert(lowered(s@)[i as int] != word@[i as int]);
            return false;
        }
        i += 1;
    }
    assert(lowered(s@) =~= word@);
    true
}

impl LockKeyColor {
    /// The colour's name, in lower case.
    pub open spec fn name(self) -> Seq<char> {
        match self {
            LockKeyColor::Red => "red"@,
            LockKeyColor::Blue => "blue"@,
            LockKeyColor::Brown => "brown"@,
            LockKeyColor::Green => "green"@,
            LockKeyColor::Yellow => "yellow"@,
        }
    }

    /// The number under which the colour is filed in a hashed table.
    pub open spec fn code(self) -> u8 {
        match self {
            LockKeyColor::Red => 0,
            LockKeyColor::Blue => 1,
            LockKeyColor::Green => 2,
            LockKeyColor::Yellow => 3,
            LockKeyColor::Brown => 4,
        }
    }

    /// The colour filed under a number.
    pub open spec fn of_code(code: u8) -> Option<LockKeyColor> {
        if code == 0 {
            Some(LockKeyColor::Red)
        } else if code == 1 {
            Some(LockKeyColor::Blue)
        } else if code == 2 {
            Some(LockKeyColor::Green)
        } else if code == 3 {
            Some(LockKeyColor::Yellow)
        } else if code == 4 {
            Some(LockKeyColor::Brown)
        } else {
            None
        }
    }

    /// Gives the colour's name, in lower case.
    pub fn to_string(&self) -> (s: String)
        ensures
            s@ == self.name(),
    {
        match self {
            LockKeyColor::Red => String::from_str("red"),
            LockKeyColor::Blue => String::from_str("blue"),
            LockKeyColor::Brown => String::from_str("brown"),
            LockKeyColor::Green => String::from_str("green"),
            LockKeyColor::Yellow => String::from_str("yellow"),
        }
    }

    /// Reads a colour from its name, in any letter case. Any other string
    /// names no colour.
    pub fn from_name(s: &str) -> (color: Option<LockKeyColor>)
        ensures
            color == color_named(s@),
    {
        if reads_as(s, "red") {
            Some(LockKeyColor::Red)
        } else if reads_as(s, "blue") {
            Some(LockKeyColor::Blue)
        } else if reads_as(s, "brown") {
            Some(LockKeyColor::Brown)
        } else if reads_as(s, "green") {
            Some(LockKeyColor::Green)
        } else if reads_as(s, "yellow") {
            Some(LockKeyColor::Yellow)
        } else {
            None
        }
    }

    /// Gives the number under which the colour is filed.
    pub fn to_code(self) -> (code: u8)
        ensures
            code == self.code(),
            LockKeyColor::of_code(code) == Some(self),
    {
        match self {
            LockKeyColor::Red => 0,
            LockKeyColor::Blue => 1,
            LockKeyColor::Green => 2,
            LockKeyColor::Yellow => 3,
            LockKeyColor::Brown => 4,
        }
    }
}

impl Default for LockKeyColor {
    fn default() -> (color: LockKeyColor)
        ensures
            color == LockKeyColor::Red,
    {
        LockKeyColor::Red
    }
}

/// Every colour is read back from its own name.
pub proof fn lemma_name_reads_back(color: LockKeyColor)
    ensures
        color_named(color.name()) == Some(color),
{
    reveal_strlit("red");
    reveal_strlit("blue");
    reveal_strlit("brown");
    reveal_strlit("green");
    reveal_strlit("yellow");
    assert(lowered(color.name()) =~= color.name());
    assert("red"@.len() == 3 && "blue"@.len() == 4 && "yellow"@.len() == 6);
    assert("brown"@[0] == 'b' && "green"@[0] == 'g');
}

} // verus!
