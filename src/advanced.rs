//! Function pointers, operator overloading, a box-like wrapper and outlined text.
use vstd::prelude::*;
use vstd::string::{StringExecFns, StringSliceAdditionalSpecFns};
use crate::http::{decimal, decimal_string};
use crate::text::push_char;

verus! {

/// Adds one.
pub fn add_one(x: i32) -> (r: i32)
    requires
        x < i32::MAX,
    ensures
        r == x + 1,
{
    x + 1
}

/// Calls `f` on `arg` twice and adds the two results.
pub fn do_twice(f: impl Fn(i32) -> i32, arg: i32) -> (r: i32)
    requires
        call_requires(f, (arg,)),
        forall|y: i32| call_ensures(f, (arg,), y) ==> i32::MIN / 2 <= y <= i32::MAX / 2,
    ensures
        exists|a: i32, b: i32| call_ensures(f, (arg,), a) && call_ensures(f, (arg,), b) && r == a + b,
{
    let a = f(arg);
    let b = f(arg);
    a + b
}

/// A wrapper that holds one value.
pub struct MyBox<T>(pub T);

impl<T> MyBox<T> {
    pub fn new(x: T) -> (r: MyBox<T>)
        ensures
            r.0 == x,
    {
        MyBox(x)
    }

}

impl<T> core::ops::Deref for MyBox<T> {
    type Target = T;

    fn deref(&self) -> (r: &T)
        ensures
            *r == self.0,
    {
        &self.0
    }
}

/// Animals and the names of their young.
pub trait Animal {
    fn baby_name() -> String;
}

/// A dog.
pub struct Dog;

impl Animal for Dog {
    fn baby_name() -> (r: String)
        ensures
            r@ == "puppy"@,
    {
        String::from_str("puppy")
    }
}

/// A point on the integer grid.
#[derive(Debug, Copy, Clone, PartialEq, Eq, Structural)]
pub struct Point {
    pub x: i32,
    pub y: i32,
}

impl core::ops::Add for Point {
    type Output = Point;

    fn add(self, other: Point) -> (r: Point) {
        Point { x: self.x + other.x, y: self.y + other.y }
    }
}

impl vstd::std_specs::ops::AddSpecImpl for Point {
    open spec fn obeys_add_spec() -> bool {
        true
    }

    open spec fn add_req(self, rhs: Point) -> bool {
        i32::MIN <= self.x + rhs.x <= i32::MAX && i32::MIN <= self.y + rhs.y <= i32::MAX
    }

    open spec fn add_spec(self, rhs: Point) -> Point {
        Point { x: (self.x + rhs.x) as i32, y: (self.y + rhs.y) as i32 }
    }
}

/// The decimal notation of a signed number.
pub open spec fn signed_decimal(v: int) -> Seq<char> {
    if v < 0 {
        seq!['-'] + decimal((-v) as nat)
    } else {
        decimal(v as nat)
    }
}

fn signed_decimal_string(v: i32) -> (r: String)
    ensures
        r@ == signed_decimal(v as int),
{
    if v < 0 {
        let mut s = String::from_str("-");
        let magnitude = (-(v as i64)) as usize;
        let digits = decimal_string(magnitude);
        s.append(digits.as_str());
        proof {
            reveal_strlit("-");
        }
        assert(s@ =~= seq!['-'] + decimal((-v) as nat));
        s
    } else {
        decimal_string(v as usize)
    }
}

impl Point {
    /// The point written as `(x, y)`.
    pub fn to_text(&self) -> (r: String)
        ensures
            r@ == seq!['('] + signed_decimal(self.x as int) + seq![',', ' '] + signed_decimal(self.y as int) + seq![')'],
    {
        let mut s = String::from_str("(");
        let x = signed_decimal_string(self.x);
        s.append(x.as_str());
        s.append(", ");
        let y = signed_decimal_string(self.y);
        s.append(y.as_str());
        s.append(")");
        proof {
            reveal_strlit("(");
            reveal_strlit(", ");
            reveal_strlit(")");
        }
        assert(s@ =~= seq!['('] + signed_decimal(self.x as int) + seq![',', ' '] + signed_decimal(self.y as int) + seq![')']);
        s
    }
}

/// `n` copies of `c`.
pub open spec fn repeat_char(c: char, n: nat) -> Seq<char> {
    Seq::new(n, |i: int| c)
}

fn repeated(c: char, n: usize) -> (r: String)
    ensures
        r@ == repeat_char(c, n as nat),
{
    let mut s = String::new();
    let mut i: usize = 0;
    while i < n
        invariant
            i <= n,
            s@ == repeat_char(c, i as nat),
        decreases n - i,
    {
        push_char(&mut s, c);
        i = i + 1;
        assert(s@ =~= repeat_char(c, i as nat));
    }
    s
}

/// The five lines that frame `text` in a box of asterisks: a full border,
/// a padding line, the text between `* ` and ` *`, a padding line and a full
/// border. The box is as wide as the text's byte length plus four.
pub fn outline(text: &str) -> (lines: Vec<String>)
    requires
        text.spec_bytes().len() + 4 <= usize::MAX,
    ensures
        lines@.len() == 5,
        lines@[0]@ == repeat_char('*', text.spec_bytes().len() + 4),
        lines@[1]@ == seq!['*'] + repeat_char(' ', text.spec_bytes().len() + 2) + seq!['*'],
        lines@[2]@ == seq!['*', ' '] + text@ + seq![' ', '*'],
        lines@[3]@ == lines@[1]@,
        lines@[4]@ == lines@[0]@,
{
    let len = text.len();
    let border = repeated('*', len + 4);
    let mut padding = String::from_str("*");
    let spaces = repeated(' ', len + 2);
    padding.append(spaces.as_str());
    push_char(&mut padding, '*');
    let mut middle = String::from_str("* ");
    middle.append(text);
    middle.append(" *");
    proof {
        reveal_strlit("*");
        reveal_strlit("* ");
        reveal_strlit(" *");
    }
    assert(padding@ =~= seq!['*'] + repeat_char(' ', text.spec_bytes().len() + 2) + seq!['*']);
    assert(middle@ =~= seq!['*', ' '] + text@ + seq![' ', '*']);
    let mut lines: Vec<String> = Vec::new();
    lines.push(border.clone());
    lines.push(padding.clone());
    lines.push(middle);
    lines.push(padding);
    lines.push(border);
    lines
}

} // verus!
