use vstd::prelude::*;

verus! {

/// The character of a decimal digit.
pub open spec fn digit_char(d: nat) -> char {
    if d == 0 { '0' } else if d == 1 { '1' } else if d == 2 { '2' } else if d == 3 { '3' }
    else if d == 4 { '4' } else if d == 5 { '5' } else if d == 6 { '6' } else if d == 7 { '7' }
    else if d == 8 { '8' } else { '9' }
}

/// The decimal form of `n`, without leading zeros.
pub open spec fn decimal(n: nat) -> Seq<char>
    decreases n,
{
    if n < 10 {
        seq![digit_char(n)]
    } else {
        decimal(n / 10) + seq![digit_char(n % 10)]
    }
}

fn digit_text(d: u64) -> (r: &'static str)
    requires
        d < 10,
    ensures
        r@ == seq![digit_char(d as nat)],
{
    proof {
        reveal_strlit("0");
        reveal_strlit("1");
        reveal_strlit("2");
        reveal_strlit("3");
        reveal_strlit("4");
        reveal_strlit("5");
        reveal_strlit("6");
        reveal_strlit("7");
        reveal_strlit("8");
        reveal_strlit("9");
    }
    if d == 0 { "0" } else if d == 1 { "1" } else if d == 2 { "2" } else if d == 3 { "3" }
    else if d == 4 { "4" } else if d == 5 { "5" } else if d == 6 { "6" } else if d == 7 { "7" }
    else if d == 8 { "8" } else { "9" }
}

/// Writes `n` in decimal.
pub fn decimal_text(n: u64) -> (r: String)
    ensures
        r@ == decimal(n as nat),
    decreases n,
{
    if n < 10 {
        String::from_str(digit_text(n))
    } else {
        let head = decimal_text(n / 10);
        head.concat(digit_text(n % 10))
    }
}

/// A point in source text: a file name, a 1-based line and a 1-based column.
pub struct Location {
    file: String,
    line: u32,
    column: u32,
}

impl Location {
    /// The file name held.
    pub closed spec fn spec_file(&self) -> Seq<char> {
        self.file@
    }

    pub closed spec fn spec_line(&self) -> u32 {
        self.line
    }

    pub closed spec fn spec_column(&self) -> u32 {
        self.column
    }

    /// Lines and columns count from one.
    #[verifier::type_invariant]
    spec fn counts_from_one(self) -> bool {
        self.line >= 1 && self.column >= 1
    }

    /// The position of a capture point at `line`, `column` of `file`.
    pub fn new(file: &str, line: u32, column: u32) -> (r: Location)
        requires
            line >= 1,
            column >= 1,
        ensures
            r.spec_file() == file@,
            r.spec_line() == line,
            r.spec_column() == column,
    {
        Location { file: file.to_string(), line, column }
    }

    /// The display form `file:line:column`.
    pub open spec fn display(&self) -> Seq<char> {
        self.spec_file() + seq![':'] + decimal(self.spec_line() as nat) + seq![':'] + decimal(
            self.spec_column() as nat,
        )
    }

    /// Writes the position as `file:line:column`.
    pub fn to_string(&self) -> (r: String)
        ensures
            r@ == self.display(),
    {
        proof {
            reveal_strlit(":");
        }
        let line = decimal_text(self.line as u64);
        let column = decimal_text(self.column as u64);
        let r = self.file.clone().concat(":").concat(line.as_str()).concat(":").concat(column.as_str());
        r
    }

    pub fn file(&self) -> (r: &str)
        ensures
            r@ == self.spec_file(),
    {
        self.file.as_str()
    }

    pub fn line(&self) -> (r: u32)
        ensures
            r == self.spec_line(),
            r >= 1,
    {
        proof {
            use_type_invariant(self);
        }
        self.line
    }

    pub fn column(&self) -> (r: u32)
        ensures
            r == self.spec_column(),
            r >= 1,
    {
        proof {
            use_type_invariant(self);
        }
        self.column
    }
}

} // verus!
