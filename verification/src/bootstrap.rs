//! How the two pipes reach the subordinate.
//!
//! The controller opens both pipes, keeps one end of each and leaves the
//! other two open across the start of the subordinate, which inherits them.
//! It tells the subordinate their descriptor numbers in two environment
//! variables, as decimal text. Nothing here opens, closes or spawns: the
//! caller hands over descriptor numbers and texts and acts on the answer.

use vstd::prelude::*;

use crate::endpoint::{ControllerProcess, ControllerView, SubordinateProcess, SubordinateView};

verus! {

/// The variable that names the descriptor from which the subordinate reads
/// its commands.
pub const SUB_IN_ENV: &'static str = "UFO_SUBORDINATE_PIPEFD_IN";

/// The variable that names the descriptor to which the subordinate writes
/// its responses.
pub const SUB_OUT_ENV: &'static str = "UFO_SUBORDINATE_PIPEFD_OUT";

/// The value of a decimal digit.
pub open spec fn digit(c: char) -> Option<nat> {
    if '0' <= c <= '9' {
        Some((c as nat - '0' as nat) as nat)
    } else {
        None
    }
}

/// The number that a non-empty run of decimal digits denotes.
pub open spec fn digits(s: Seq<char>) -> Option<nat>
    decreases s.len(),
{
    if s.len() == 0 {
        None
    } else if s.len() == 1 {
        digit(s[0])
    } else {
        match (digits(s.drop_last()), digit(s.last())) {
            (Some(high), Some(low)) => Some(10 * high + low),
            _ => None,
        }
    }
}

/// The 32-bit integer that a text denotes in decimal: an optional sign and
/// then digits, nothing before, between or after them, and a number that
/// fits.
pub open spec fn decimal_i32(s: Seq<char>) -> Option<i32> {
    if s.len() > 0 && s[0] == '-' {
        match digits(s.skip(1)) {
            Some(n) => if n <= 0x8000_0000 {
                Some((0 - n) as i32)
            } else {
                None
            },
            None => None,
        }
    } else {
        match digits(if s.len() > 0 && s[0] == '+' { s.skip(1) } else { s }) {
            Some(n) => if n <= 0x7fff_ffff {
                Some(n as i32)
            } else {
                None
            },
            None => None,
        }
    }
}

/// The integer that a text denotes. Calls `str::parse` for `i32`, which
/// accepts an optional sign followed by decimal digits and nothing else, and
/// refuses a number that does not fit.
#[verifier::external_body]
fn parse_descriptor(s: &str) -> (r: Option<i32>)
    ensures
        r == decimal_i32(s@),
{
    s.parse::<i32>().ok()
}

/// The decimal digit of a value below ten.
pub open spec fn digit_char(d: nat) -> char {
    ('0' as nat + d) as char
}

/// A natural number in decimal, without leading zeros.
pub open spec fn nat_text(n: nat) -> Seq<char>
    decreases n,
{
    if n < 10 {
        seq![digit_char(n)]
    } else {
        nat_text(n / 10).push(digit_char(n % 10))
    }
}

/// An integer in decimal: a minus sign where it is negative, then its
/// magnitude without leading zeros.
pub open spec fn decimal_text(v: int) -> Seq<char> {
    if v < 0 {
        seq!['-'] + nat_text((0 - v) as nat)
    } else {
        nat_text(v as nat)
    }
}

/// A descriptor number as text. Calls `ToString::to_string` for `i32`, which
/// writes the number in decimal: a minus sign where it is negative, then the
/// digits of its magnitude.
#[verifier::external_body]
fn descriptor_text(fd: i32) -> (r: String)
    ensures
        r@ == decimal_text(fd as int),
{
    fd.to_string()
}

/// The digits of a number denote the number.
pub proof fn lemma_digits_of_nat_text(n: nat)
    ensures
        digits(nat_text(n)) == Some(n),
        nat_text(n).len() > 0,
        nat_text(n)[0] != '-',
        nat_text(n)[0] != '+',
    decreases n,
{
    if n >= 10 {
        lemma_digits_of_nat_text(n / 10);
        let t = nat_text(n);
        assert(t.drop_last() =~= nat_text(n / 10));
    }
}

/// Every 32-bit integer is read back from its decimal text.
pub proof fn lemma_decimal_roundtrip(v: i32)
    ensures
        decimal_i32(decimal_text(v as int)) == Some(v),
{
    if v < 0 {
        let n = (0 - v) as nat;
        lemma_digits_of_nat_text(n);
        assert(decimal_text(v as int).skip(1) =~= nat_text(n));
    } else {
        lemma_digits_of_nat_text(v as nat);
    }
}

/// What becomes of one of the subordinate's three standard streams.
#[derive(Debug, Copy, Clone, PartialEq, Eq, Structural)]
pub enum StdioMode {
    /// The stream is connected to nothing.
    Null,
    /// The stream is the controller's own.
    Inherit,
}

/// Which of the subordinate's two pipes is meant.
#[derive(Debug, Copy, Clone, PartialEq, Eq, Structural)]
pub enum PipeEnd {
    /// The pipe from which the subordinate reads.
    In,
    /// The pipe to which the subordinate writes.
    Out,
}

/// Why a subordinate could not find its pipes.
#[derive(Debug, Copy, Clone, PartialEq, Eq, Structural)]
pub enum StartupError {
    /// The variable for this pipe is not set.
    Unset(PipeEnd),
    /// The variable for this pipe does not hold a descriptor number.
    NotADescriptor(PipeEnd),
}

/// How to start the subordinate, given the two pipes: what its standard
/// streams are, what its environment says, and which descriptor goes where.
#[derive(Debug, PartialEq, Eq)]
pub struct Launch {
    /// The subordinate's standard input.
    pub stdin: StdioMode,
    /// The subordinate's standard output.
    pub stdout: StdioMode,
    /// The subordinate's standard error.
    pub stderr: StdioMode,
    /// The value of `SUB_IN_ENV`.
    pub pipefd_in: String,
    /// The value of `SUB_OUT_ENV`.
    pub pipefd_out: String,
    /// The end from which the subordinate reads. The controller closes its
    /// copy once the subordinate has started.
    pub child_in: i32,
    /// The end to which the subordinate writes. The controller closes its
    /// copy once the subordinate has started.
    pub child_out: i32,
    /// The end to which the controller writes.
    pub cmd_out: i32,
    /// The end from which the controller reads.
    pub cmd_in: i32,
}

/// Plans the start of a subordinate over two pipes, each given as its read
/// end and its write end. The subordinate reads from the first pipe and
/// writes to the second; the controller keeps the other two ends. The
/// subordinate's input is null and its output and error are the
/// controller's. The controller that comes with the plan has not begun.
pub fn start_subordinate_process(parent_to_child: (i32, i32), child_to_parent: (i32, i32)) -> (r: (
    Launch,
    ControllerProcess,
))
    ensures
        r.0.stdin == StdioMode::Null,
        r.0.stdout == StdioMode::Inherit,
        r.0.stderr == StdioMode::Inherit,
        r.0.child_in == parent_to_child.0,
        r.0.cmd_out == parent_to_child.1,
        r.0.cmd_in == child_to_parent.0,
        r.0.child_out == child_to_parent.1,
        r.0.pipefd_in@ == decimal_text(r.0.child_in as int),
        r.0.pipefd_out@ == decimal_text(r.0.child_out as int),
        r.1@ == ControllerView::new(),
{
    let child_pipefd_in = parent_to_child.0;
    let child_pipefd_out = child_to_parent.1;
    let launch = Launch {
        stdin: StdioMode::Null,
        stdout: StdioMode::Inherit,
        stderr: StdioMode::Inherit,
        pipefd_in: descriptor_text(child_pipefd_in),
        pipefd_out: descriptor_text(child_pipefd_out),
        child_in: child_pipefd_in,
        child_out: child_pipefd_out,
        cmd_out: parent_to_child.1,
        cmd_in: child_to_parent.0,
    };
    (launch, ControllerProcess::new())
}

/// What the subordinate makes of its two variables: the descriptors that
/// they name, or the first thing that is wrong with them. A variable that
/// is not set is reported before one that holds no number, and the input
/// before the output.
pub open spec fn adopted(pipe_in: Option<Seq<char>>, pipe_out: Option<Seq<char>>) -> Result<
    (i32, i32),
    StartupError,
> {
    match (pipe_in, pipe_out) {
        (None, _) => Err(StartupError::Unset(PipeEnd::In)),
        (Some(_), None) => Err(StartupError::Unset(PipeEnd::Out)),
        (Some(i), Some(o)) => match (decimal_i32(i), decimal_i32(o)) {
            (None, _) => Err(StartupError::NotADescriptor(PipeEnd::In)),
            (Some(_), None) => Err(StartupError::NotADescriptor(PipeEnd::Out)),
            (Some(cmd_in), Some(cmd_out)) => Ok((cmd_in, cmd_out)),
        },
    }
}

/// The text of a variable as a mathematical value.
pub open spec fn text_of(v: Option<&str>) -> Option<Seq<char>> {
    match v {
        Some(s) => Some(s@),
        None => None,
    }
}

/// A subordinate that has found its pipes: the descriptor to read from, the
/// descriptor to write to, and the endpoint that will speak over them.
pub struct Adopted {
    pub cmd_in: i32,
    pub cmd_out: i32,
    pub endpoint: SubordinateProcess,
}

/// Begins a subordinate from the values of its two variables, `None` where
/// one is not set. The subordinate adopts the descriptors that they name;
/// it never opens a pipe itself. The endpoint that comes back has not begun.
pub fn subordinate_begin(pipe_in: Option<&str>, pipe_out: Option<&str>) -> (r: Result<
    Adopted,
    StartupError,
>)
    ensures
        match adopted(text_of(pipe_in), text_of(pipe_out)) {
            Ok((cmd_in, cmd_out)) => r matches Ok(a) && a.cmd_in == cmd_in && a.cmd_out == cmd_out
                && a.endpoint@ == SubordinateView::new(),
            Err(e) => r matches Err(x) && x == e,
        },
{
    let pipe_in = match pipe_in {
        Some(s) => s,
        None => {
            return Err(StartupError::Unset(PipeEnd::In));
        },
    };
    let pipe_out = match pipe_out {
        Some(s) => s,
        None => {
            return Err(StartupError::Unset(PipeEnd::Out));
        },
    };
    let cmd_in = match parse_descriptor(pipe_in) {
        Some(fd) => fd,
        None => {
            return Err(StartupError::NotADescriptor(PipeEnd::In));
        },
    };
    let cmd_out = match parse_descriptor(pipe_out) {
        Some(fd) => fd,
        None => {
            return Err(StartupError::NotADescriptor(PipeEnd::Out));
        },
    };
    Ok(Adopted { cmd_in, cmd_out, endpoint: SubordinateProcess::new() })
}

/// The subordinate finds the pipes that the controller left for it: from
/// the two texts of a plan it adopts exactly the two descriptors that the
/// plan set aside for it.
pub proof fn lemma_descriptors_inherited(child_in: i32, child_out: i32)
    ensures
        adopted(Some(decimal_text(child_in as int)), Some(decimal_text(child_out as int)))
            == Ok::<(i32, i32), StartupError>((child_in, child_out)),
{
    lemma_decimal_roundtrip(child_in);
    lemma_decimal_roundtrip(child_out);
}

/// Without both variables, or with one that holds no number, a subordinate
/// does not start.
pub proof fn lemma_no_start_without_descriptors(
    pipe_in: Option<Seq<char>>,
    pipe_out: Option<Seq<char>>,
)
    ensures
        adopted(pipe_in, pipe_out) is Ok <==> (pipe_in is Some && decimal_i32(pipe_in->0) is Some
            && pipe_out is Some && decimal_i32(pipe_out->0) is Some),
{
}

} // verus!
