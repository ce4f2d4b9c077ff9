//! The aggregate value, its text, and the snapshots taken around a mutation.
use vstd::prelude::*;

use crate::decimal::{push_signed, signed_decimal};

verus! {

/// The year the first snapshot is made with.
pub const YEAR: i32 = 2023;

/// The month the first snapshot is made with.
pub const MONTH: i32 = 10;

/// The day the first snapshot is made with.
pub const DAY: i32 = 11;

/// What is added to the first field between the first and second snapshot.
pub const STEP: i32 = 100;

/// Three signed integers with value semantics: every assignment or pass
/// makes an independent copy.
#[derive(Clone, Copy, Debug, PartialEq, Eq, Structural)]
pub struct MyStruct(pub i32, pub i32, pub i32);

/// `s` with `d` added to its first field.
pub open spec fn bumped(s: MyStruct, d: int) -> MyStruct {
    MyStruct((s.0 + d) as i32, s.1, s.2)
}

/// The snapshots shown when `start` is shown, then has `step` added to its
/// first field in place, then is shown twice more.
pub open spec fn snapshot_seq(start: MyStruct, step: int) -> Seq<MyStruct> {
    seq![start, bumped(start, step), bumped(start, step)]
}

/// A value shown before a mutation keeps what it was shown with: for every
/// start value and every step, the first line of the snapshots is the line
/// of the unmutated start value, and the two lines after the mutation agree.
pub proof fn lemma_shown_before_mutation(start: MyStruct, step: int, address: Seq<char>)
    ensures
        snapshot_seq(start, step)[0].line_text(address) == start.line_text(address),
        snapshot_seq(start, step)[1].line_text(address) == snapshot_seq(start, step)[2].line_text(
            address,
        ),
{
}

impl MyStruct {
    /// The text of the value: `MyStruct(a, b, c)` with each field in decimal.
    pub open spec fn text(self) -> Seq<char> {
        "MyStruct("@ + signed_decimal(self.0 as int) + ", "@ + signed_decimal(self.1 as int)
            + ", "@ + signed_decimal(self.2 as int) + ")"@
    }

    /// The line that shows the value held at `address`:
    /// `my_struct : MyStruct(a, b, c) @ <address>`.
    pub open spec fn line_text(self, address: Seq<char>) -> Seq<char> {
        "my_struct : "@ + self.text() + " @ "@ + address
    }

    /// Adds `d` to the first field in place; the other fields stay.
    pub fn add_to_first(&mut self, d: i32)
        requires
            i32::MIN <= old(self).0 + d <= i32::MAX,
        ensures
            *final(self) == bumped(*old(self), d as int),
    {
        self.0 = self.0 + d;
    }

    /// Appends the text of the value to `out`.
    pub fn push_text(&self, out: &mut String)
        ensures
            final(out)@ == old(out)@ + self.text(),
    {
        out.append("MyStruct(");
        push_signed(out, self.0);
        out.append(", ");
        push_signed(out, self.1);
        out.append(", ");
        push_signed(out, self.2);
        out.append(")");
        assert(out@ =~= old(out)@ + self.text());
    }

    /// The text of the value: `MyStruct(a, b, c)`.
    pub fn render(&self) -> (r: String)
        ensures
            r@ == self.text(),
    {
        let mut r = String::new();
        self.push_text(&mut r);
        assert(r@ =~= self.text());
        r
    }

    /// The line that shows the value held at `address`.
    pub fn line(&self, address: &str) -> (r: String)
        ensures
            r@ == self.line_text(address@),
    {
        let mut r = String::new();
        r.append("my_struct : ");
        self.push_text(&mut r);
        r.append(" @ ");
        r.append(address);
        assert(r@ =~= self.line_text(address@));
        r
    }
}

/// Shows `start`, adds `step` to its first field in place, and shows it
/// twice more; returns the three values shown, in order. The first is an
/// independent copy made before the mutation, so it keeps the fields of
/// `start` whatever `step` is.
pub fn snapshots_of(start: MyStruct, step: i32) -> (r: Vec<MyStruct>)
    requires
        i32::MIN <= start.0 + step <= i32::MAX,
    ensures
        r@ == snapshot_seq(start, step as int),
        r@[0] == start,
{
    let mut my_struct = start;
    let mut shown: Vec<MyStruct> = Vec::new();
    shown.push(my_struct);
    my_struct.add_to_first(step);
    shown.push(my_struct);
    shown.push(my_struct);
    assert(shown@ =~= snapshot_seq(start, step as int));
    shown
}

/// The three values shown for `MyStruct(YEAR, MONTH, DAY)` with `STEP` added
/// to its first field after the first.
pub fn snapshots() -> (r: Vec<MyStruct>)
    ensures
        r@ == seq![MyStruct(2023, 10, 11), MyStruct(2123, 10, 11), MyStruct(2123, 10, 11)],
{
    let r = snapshots_of(MyStruct(YEAR, MONTH, DAY), STEP);
    assert(r@ =~= seq![MyStruct(2023, 10, 11), MyStruct(2123, 10, 11), MyStruct(2123, 10, 11)]);
    r
}

} // verus!
