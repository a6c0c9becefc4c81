//! Two-part heights: a revision (era) number and a height (index) within it.
use vstd::prelude::*;
use vstd::string::*;

verus! {

/// Errors raised when building a height.
#[derive(Clone, Copy, Debug, PartialEq, Eq, Structural)]
pub enum HeightError {
    /// The height within the revision was zero.
    ZeroHeight,
}

/// A height on a counterparty chain: the revision (era) and the height
/// (index) within that revision. A valid height has a non-zero index.
#[derive(Clone, Copy, Debug, PartialEq, Eq, Structural)]
pub struct Height {
    revision_number: u64,
    revision_height: u64,
}

impl View for Height {
    type V = (u64, u64);

    closed spec fn view(&self) -> (u64, u64) {
        (self.revision_number, self.revision_height)
    }
}

/// Era-major order on height views: compare the era, then the index.
pub open spec fn height_lt(a: (u64, u64), b: (u64, u64)) -> bool {
    a.0 < b.0 || (a.0 == b.0 && a.1 < b.1)
}

/// Non-strict era-major order on height views.
pub open spec fn height_le(a: (u64, u64), b: (u64, u64)) -> bool {
    height_lt(a, b) || a == b
}

/// The decimal digit character for `d < 10`.
pub open spec fn digit_char(d: nat) -> char {
    seq!['0', '1', '2', '3', '4', '5', '6', '7', '8', '9'][d as int]
}

/// The decimal rendering of a natural number, without leading zeros.
pub open spec fn decimal(n: nat) -> Seq<char>
    decreases n,
{
    if n < 10 {
        seq![digit_char(n)]
    } else {
        decimal(n / 10).push(digit_char(n % 10))
    }
}

/// The text of a height view: `"<era>-<index>"`.
pub open spec fn height_text(h: (u64, u64)) -> Seq<char> {
    decimal(h.0 as nat) + seq!['-'] + decimal(h.1 as nat)
}

/// The one-character text of a decimal digit.
fn digit_str(d: u64) -> (r: &'static str)
    requires
        d < 10,
    ensures
        r@ == seq![digit_char(d as nat)],
{
    if d == 0 {
        proof { reveal_strlit("0"); }
        "0"
    } else if d == 1 {
        proof { reveal_strlit("1"); }
        "1"
    } else if d == 2 {
        proof { reveal_strlit("2"); }
        "2"
    } else if d == 3 {
        proof { reveal_strlit("3"); }
        "3"
    } else if d == 4 {
        proof { reveal_strlit("4"); }
        "4"
    } else if d == 5 {
        proof { reveal_strlit("5"); }
        "5"
    } else if d == 6 {
        proof { reveal_strlit("6"); }
        "6"
    } else if d == 7 {
        proof { reveal_strlit("7"); }
        "7"
    } else if d == 8 {
        proof { reveal_strlit("8"); }
        "8"
    } else {
        proof { reveal_strlit("9"); }
        "9"
    }
}

/// Appends the decimal rendering of `n` to `s`.
pub fn push_decimal(s: &mut String, n: u64)
    ensures
        final(s)@ == old(s)@ + decimal(n as nat),
    decreases n,
{
    if n < 10 {
        s.append(digit_str(n));
    } else {
        push_decimal(s, n / 10);
        s.append(digit_str(n % 10));
        proof {
            assert(decimal(n as nat) == decimal((n / 10) as nat).push(digit_char((n % 10) as nat)));
        }
    }
}

impl Height {
    /// Builds a height; the index within the revision must be non-zero.
    pub fn new(revision_number: u64, revision_height: u64) -> (r: Result<Height, HeightError>)
        ensures
            revision_height == 0 <==> r is Err,
            r matches Ok(h) ==> h@ == (revision_number, revision_height),
    {
        if revision_height == 0 {
            Err(HeightError::ZeroHeight)
        } else {
            Ok(Height { revision_number, revision_height })
        }
    }

    /// The revision (era) number.
    pub fn revision_number(&self) -> (r: u64)
        ensures
            r == self@.0,
    {
        self.revision_number
    }

    /// The height (index) within the revision.
    pub fn revision_height(&self) -> (r: u64)
        ensures
            r == self@.1,
    {
        self.revision_height
    }

    /// Whether `self` comes strictly before `other` in era-major order.
    pub fn lt(&self, other: &Height) -> (r: bool)
        ensures
            r == height_lt(self@, other@),
    {
        self.revision_number < other.revision_number || (self.revision_number
            == other.revision_number && self.revision_height < other.revision_height)
    }

    /// Whether `self` comes at or before `other` in era-major order.
    pub fn le(&self, other: &Height) -> (r: bool)
        ensures
            r == height_le(self@, other@),
    {
        self.lt(other) || (self.revision_number == other.revision_number
            && self.revision_height == other.revision_height)
    }

    /// Whether two heights are the same.
    pub fn same(&self, other: &Height) -> (r: bool)
        ensures
            r == (self@ == other@),
    {
        self.revision_number == other.revision_number && self.revision_height
            == other.revision_height
    }

    /// Renders the height as `"<era>-<index>"`.
    pub fn to_string(&self) -> (r: String)
        ensures
            r@ == height_text(self@),
    {
        let mut s = String::new();
        push_decimal(&mut s, self.revision_number);
        proof { reveal_strlit("-"); }
        s.append("-");
        push_decimal(&mut s, self.revision_height);
        s
    }
}

/// Within one era, heights are ordered by index; across eras, by era first.
pub proof fn lemma_height_order(h1: Height, h2: Height)
    ensures
        h1@.0 == h2@.0 ==> (height_lt(h1@, h2@) <==> h1@.1 < h2@.1),
        h1@.0 != h2@.0 ==> (height_lt(h1@, h2@) <==> h1@.0 < h2@.0),
{
}

} // verus!
