//! A worked pair of interfaces and the concrete types implementing them.
//!
//! `Operator` has a reading method and a mutating one; `Printable` renders
//! the value as text (emitting the text is a caller's concern, so the
//! methods return it).  `Add` declares both interfaces, `Sub` only the
//! first: together they exercise every slot position and receiver shape the
//! dispatch glue in `crate::dispatch` has to handle.

use vstd::prelude::*;
use vstd::string::StringExecFns;

verus! {

/// The decimal digit `d` as a character.
pub open spec fn digit_char(d: int) -> char
    recommends
        0 <= d < 10,
{
    if d == 0 {
        '0'
    } else if d == 1 {
        '1'
    } else if d == 2 {
        '2'
    } else if d == 3 {
        '3'
    } else if d == 4 {
        '4'
    } else if d == 5 {
        '5'
    } else if d == 6 {
        '6'
    } else if d == 7 {
        '7'
    } else if d == 8 {
        '8'
    } else {
        '9'
    }
}

/// The decimal rendering of `n`, without leading zeros.
pub open spec fn decimal(n: int) -> Seq<char>
    recommends
        0 <= n,
    decreases n,
{
    if n < 10 {
        seq![digit_char(n)]
    } else {
        decimal(n / 10).push(digit_char(n % 10))
    }
}

/// The single decimal digit `d`, rendered.
pub fn digit_str(d: u8) -> (s: &'static str)
    requires
        d < 10,
    ensures
        s@ == seq![digit_char(d as int)],
{
    let s = match d {
        0 => "0",
        1 => "1",
        2 => "2",
        3 => "3",
        4 => "4",
        5 => "5",
        6 => "6",
        7 => "7",
        8 => "8",
        _ => "9",
    };
    proof {
        reveal_strlit("0");
        reveal_strlit("1");
        reveal_strlit("2");
        reveal_strlit("3");
        reveal_strlit("4");
        reveal_strlit("5");
        reveal_strlit("6");
        reveal_strlit("7");
        reveal_strlit("8");
        reveal_strlit("9");
        assert(s@ =~= seq![digit_char(d as int)]);
    }
    s
}

/// Renders `n` in decimal.
pub fn u8_decimal(n: u8) -> (s: String)
    ensures
        s@ == decimal(n as int),
{
    if n < 10 {
        let s = String::from_str(digit_str(n));
        proof {
            assert(s@ =~= decimal(n as int));
        }
        s
    } else if n < 100 {
        let s = String::from_str(digit_str(n / 10)).concat(digit_str(n % 10));
        proof {
            reveal_with_fuel(decimal, 2);
            assert(s@ =~= decimal(n as int));
        }
        s
    } else {
        let s = String::from_str(digit_str(n / 100)).concat(digit_str((n / 10) % 10)).concat(
            digit_str(n % 10),
        );
        proof {
            assert(n as int / 10 / 10 == n as int / 100) by (nonlinear_arith);
            assert(10 <= n as int / 10 && n as int / 10 < 100) by (nonlinear_arith)
                requires
                    100 <= n < 256,
            ;
            assert(n as int / 100 < 10) by (nonlinear_arith)
                requires
                    n < 256,
            ;
            reveal_with_fuel(decimal, 3);
            assert(s@ =~= decimal(n as int));
        }
        s
    }
}

/// An interface with one reading and one mutating method.
pub trait Operator: Sized {
    /// The inputs on which `perform` is defined without overflow.
    spec fn perform_ok(&self, a: u8) -> bool;

    /// What `perform` computes.
    spec fn perform_spec(&self, a: u8) -> u8;

    /// The value after `reconfigure`.
    spec fn reconfigure_spec(&self, n: u8) -> Self;

    /// Combines the argument with the stored value.
    fn perform(&self, a: u8) -> (r: u8)
        requires
            self.perform_ok(a),
        ensures
            r == self.perform_spec(a),
    ;

    /// Replaces the stored value.
    fn reconfigure(&mut self, n: u8)
        ensures
            *final(self) == old(self).reconfigure_spec(n),
    ;
}

/// An interface that renders its implementer as text.
pub trait Printable {
    /// The plain rendering.
    spec fn print_spec(&self) -> Seq<char>;

    /// The debugging rendering.
    spec fn print_debug_spec(&self) -> Seq<char>;

    /// Renders the value for display.
    fn print(&self) -> (s: String)
        ensures
            s@ == self.print_spec(),
    ;

    /// Renders the value for debugging.
    fn print_debug(&self) -> (s: String)
        ensures
            s@ == self.print_debug_spec(),
    ;
}

/// Adds its stored value to whatever it is given.
pub struct Add(pub u8);

impl Operator for Add {
    open spec fn perform_ok(&self, a: u8) -> bool {
        self.0 + a <= u8::MAX
    }

    open spec fn perform_spec(&self, a: u8) -> u8 {
        (self.0 + a) as u8
    }

    open spec fn reconfigure_spec(&self, n: u8) -> Add {
        Add(n)
    }

    fn perform(&self, a: u8) -> u8 {
        self.0 + a
    }

    fn reconfigure(&mut self, n: u8) {
        self.0 = n;
    }
}

impl Printable for Add {
    open spec fn print_spec(&self) -> Seq<char> {
        "+ "@ + decimal(self.0 as int)
    }

    open spec fn print_debug_spec(&self) -> Seq<char> {
        "Add("@ + decimal(self.0 as int) + ")"@
    }

    fn print(&self) -> (s: String) {
        String::from_str("+ ").concat(u8_decimal(self.0).as_str())
    }

    fn print_debug(&self) -> (s: String) {
        let s = String::from_str("Add(").concat(u8_decimal(self.0).as_str()).concat(")");
        proof {
            assert(s@ =~= self.print_debug_spec());
        }
        s
    }
}

/// Subtracts whatever it is given from its stored value.
pub struct Sub(pub u8);

impl Operator for Sub {
    open spec fn perform_ok(&self, a: u8) -> bool {
        a <= self.0
    }

    open spec fn perform_spec(&self, a: u8) -> u8 {
        (self.0 - a) as u8
    }

    open spec fn reconfigure_spec(&self, n: u8) -> Sub {
        Sub(n)
    }

    fn perform(&self, a: u8) -> u8 {
        self.0 - a
    }

    fn reconfigure(&mut self, n: u8) {
        self.0 = n;
    }
}

} // verus!
