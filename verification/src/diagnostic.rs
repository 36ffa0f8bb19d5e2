//! A driver's diagnostic record as plain values, and the line it displays as.
use vstd::prelude::*;
use vstd::string::StringExecFns;

verus! {

/// What a driver reports about a failed operation.
#[derive(Debug)]
pub struct Diagnostic {
    /// The five-character SQLSTATE code.
    pub state: String,
    /// The driver's own error number.
    pub native_error: i32,
    /// The message text.
    pub message: String,
}

/// The mathematical content of a [`Diagnostic`].
pub struct DiagnosticView {
    pub state: Seq<char>,
    pub native_error: int,
    pub message: Seq<char>,
}

/// The character that writes the digit `d`.
pub open spec fn digit_char(d: int) -> char {
    if d == 0 {
        '0'
    } else if d == 1 {
        '1'
    } else if d == 2 {
        '2'
    } else if d == 3 {
        '3'
    } else if d == 4 {
        '4'
    } else if d == 5 {
        '5'
    } else if d == 6 {
        '6'
    } else if d == 7 {
        '7'
    } else if d == 8 {
        '8'
    } else {
        '9'
    }
}

/// The decimal digits of `n`, most significant first, without leading zeros.
pub open spec fn decimal_digits(n: nat) -> Seq<char>
    decreases n,
{
    if n < 10 {
        seq![digit_char(n as int)]
    } else {
        decimal_digits(n / 10).push(digit_char((n % 10) as int))
    }
}

/// The decimal writing of `n`, with a minus sign in front of a negative number.
pub open spec fn decimal(n: int) -> Seq<char> {
    if n < 0 {
        seq!['-'] + decimal_digits((-n) as nat)
    } else {
        decimal_digits(n as nat)
    }
}

impl DiagnosticView {
    /// The line that displays this record: state, native error and message,
    /// each behind its label.
    pub open spec fn rendered(self) -> Seq<char> {
        "State: "@ + self.state + ", Native error: "@ + decimal(self.native_error)
            + ", Message: "@ + self.message
    }
}

impl View for Diagnostic {
    type V = DiagnosticView;

    open spec fn view(&self) -> DiagnosticView {
        DiagnosticView {
            state: self.state@,
            native_error: self.native_error as int,
            message: self.message@,
        }
    }
}

fn digit_str(d: u64) -> (s: &'static str)
    requires
        d < 10,
    ensures
        s@ == seq![digit_char(d as int)],
{
    proof {
        reveal_strlit("0");
        reveal_strlit("1");
        reveal_strlit("2");
        reveal_strlit("3");
        reveal_strlit("4");
        reveal_strlit("5");
        reveal_strlit("6");
        reveal_strlit("7");
        reveal_strlit("8");
        reveal_strlit("9");
    }
    let s = if d == 0 {
        "0"
    } else if d == 1 {
        "1"
    } else if d == 2 {
        "2"
    } else if d == 3 {
        "3"
    } else if d == 4 {
        "4"
    } else if d == 5 {
        "5"
    } else if d == 6 {
        "6"
    } else if d == 7 {
        "7"
    } else if d == 8 {
        "8"
    } else {
        "9"
    };
    assert(s@ =~= seq![digit_char(d as int)]);
    s
}

fn digits_string(n: u64) -> (s: String)
    ensures
        s@ == decimal_digits(n as nat),
    decreases n,
{
    if n < 10 {
        String::from_str(digit_str(n))
    } else {
        let mut s = digits_string(n / 10);
        s.append(digit_str(n % 10));
        assert(s@ =~= decimal_digits(n as nat));
        s
    }
}

/// Writes `n` in decimal.
pub fn decimal_string(n: i32) -> (s: String)
    ensures
        s@ == decimal(n as int),
{
    let wide: i64 = n as i64;
    if wide < 0 {
        let mut s = String::from_str("-");
        let digits = digits_string((-wide) as u64);
        s.append(digits.as_str());
        proof {
            reveal_strlit("-");
            assert(s@ =~= decimal(n as int));
        }
        s
    } else {
        digits_string(wide as u64)
    }
}

impl Clone for Diagnostic {
    fn clone(&self) -> (copy: Self)
        ensures
            copy == *self,
    {
        Diagnostic {
            state: self.state.clone(),
            native_error: self.native_error,
            message: self.message.clone(),
        }
    }
}

impl Diagnostic {
    /// Makes a record of the three values a driver reports.
    pub fn new(state: &str, native_error: i32, message: &str) -> (d: Diagnostic)
        ensures
            d@.state == state@,
            d@.native_error == native_error,
            d@.message == message@,
    {
        Diagnostic {
            state: String::from_str(state),
            native_error,
            message: String::from_str(message),
        }
    }

    /// The line that displays this record.
    pub fn render(&self) -> (line: String)
        ensures
            line@ == self@.rendered(),
    {
        let mut line = String::from_str("State: ");
        line.append(self.state.as_str());
        line.append(", Native error: ");
        let number = decimal_string(self.native_error);
        line.append(number.as_str());
        line.append(", Message: ");
        line.append(self.message.as_str());
        line
    }
}

/// The line of a record closes with the record's message, whole.
pub proof fn rendered_closes_with_message(d: DiagnosticView)
    ensures
        d.message.is_suffix_of(d.rendered()),
{
    let line = d.rendered();
    let head = "State: "@ + d.state + ", Native error: "@ + decimal(d.native_error)
        + ", Message: "@;
    assert(line =~= head + d.message);
    assert(line.subrange(line.len() - d.message.len(), line.len() as int) =~= d.message);
}

} // verus!
