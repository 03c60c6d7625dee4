//! Lifecycle status of a supervised process and its textual encoding.

use vstd::prelude::*;
use vstd::string::StringExecFns;

verus! {

/// The lifecycle state of one supervised process.
///
/// The only transitions are `Running -> Done(code)` (the process exited and
/// the operating system reported a numeric exit code) and `Running -> Killed`
/// (no exit code was obtainable, e.g. the process was terminated by a
/// signal).  `Done` and `Killed` are terminal.
#[derive(Clone, Copy, PartialEq, Eq, Structural, Debug)]
pub enum ProcessStatus {
    Running,
    Done(i32),
    Killed,
}

impl ProcessStatus {
    /// A status is terminal when no further transition is possible.
    pub open spec fn is_terminal(self) -> bool {
        !(self is Running)
    }
}

/// The decimal digit character for a value below ten.
pub open spec fn dec_digit(d: nat) -> char {
    if d == 0 {
        '0'
    } else if d == 1 {
        '1'
    } else if d == 2 {
        '2'
    } else if d == 3 {
        '3'
    } else if d == 4 {
        '4'
    } else if d == 5 {
        '5'
    } else if d == 6 {
        '6'
    } else if d == 7 {
        '7'
    } else if d == 8 {
        '8'
    } else {
        '9'
    }
}

/// The decimal rendering of a natural number, most significant digit first.
pub open spec fn dec_rep(n: nat) -> Seq<char>
    decreases n,
{
    if n < 10 {
        seq![dec_digit(n)]
    } else {
        dec_rep(n / 10).push(dec_digit(n % 10))
    }
}

/// The decimal rendering of an integer, with a leading minus sign when
/// negative.
pub open spec fn int_rep(i: int) -> Seq<char> {
    if i < 0 {
        seq!['-'] + dec_rep((-i) as nat)
    } else {
        dec_rep(i as nat)
    }
}

/// The status string a client sees: `"running"`, `"done <exit_code>"` or
/// `"killed"`.
pub open spec fn status_chars(s: ProcessStatus) -> Seq<char> {
    match s {
        ProcessStatus::Running => "running"@,
        ProcessStatus::Done(code) => "done "@ + int_rep(code as int),
        ProcessStatus::Killed => "killed"@,
    }
}

/// The status a collector resolves once the process has terminated: a
/// reported exit code yields `Done(code)`, an unobtainable one yields
/// `Killed`.
pub open spec fn resolved_status(exit_code: Option<i32>) -> ProcessStatus {
    match exit_code {
        Some(code) => ProcessStatus::Done(code),
        None => ProcessStatus::Killed,
    }
}

/// Appends one decimal digit character to `s`.
fn append_dec_digit(s: &mut String, d: u32)
    requires
        d < 10,
    ensures
        final(s)@ == old(s)@ + seq![dec_digit(d as nat)],
{
    match d {
        0u32 => {
            proof {
                reveal_strlit("0");
            }
            s.append("0");
        },
        1u32 => {
            proof {
                reveal_strlit("1");
            }
            s.append("1");
        },
        2u32 => {
            proof {
                reveal_strlit("2");
            }
            s.append("2");
        },
        3u32 => {
            proof {
                reveal_strlit("3");
            }
            s.append("3");
        },
        4u32 => {
            proof {
                reveal_strlit("4");
            }
            s.append("4");
        },
        5u32 => {
            proof {
                reveal_strlit("5");
            }
            s.append("5");
        },
        6u32 => {
            proof {
                reveal_strlit("6");
            }
            s.append("6");
        },
        7u32 => {
            proof {
                reveal_strlit("7");
            }
            s.append("7");
        },
        8u32 => {
            proof {
                reveal_strlit("8");
            }
            s.append("8");
        },
        _ => {
            proof {
                reveal_strlit("9");
            }
            s.append("9");
        },
    }
    proof {
        assert(final(s)@ =~= old(s)@ + seq![dec_digit(d as nat)]);
    }
}

/// Appends the decimal rendering of `n` to `s`.
fn append_dec(s: &mut String, n: u32)
    ensures
        final(s)@ == old(s)@ + dec_rep(n as nat),
    decreases n,
{
    if n >= 10 {
        append_dec(s, n / 10);
    }
    append_dec_digit(s, n % 10);
    proof {
        if n < 10 {
            assert(final(s)@ =~= old(s)@ + dec_rep(n as nat));
        } else {
            assert(dec_rep(n as nat) == dec_rep(n as nat / 10).push(dec_digit(n as nat % 10)));
            assert(final(s)@ =~= old(s)@ + dec_rep(n as nat));
        }
    }
}

impl ProcessStatus {
    /// Renders the status as the string a client sees.
    pub fn status_string(&self) -> (r: String)
        ensures
            r@ == status_chars(*self),
    {
        match self {
            ProcessStatus::Running => "running".to_owned(),
            ProcessStatus::Done(code) => {
                let c: i32 = *code;
                let mut s = "done ".to_owned();
                if c < 0 {
                    proof {
                        reveal_strlit("-");
                    }
                    s.append("-");
                    let wide: i64 = -(c as i64);
                    assert(0 <= wide <= 0x8000_0000);
                    let m: u32 = wide as u32;
                    append_dec(&mut s, m);
                    proof {
                        assert(s@ =~= status_chars(*self));
                    }
                } else {
                    append_dec(&mut s, c as u32);
                }
                s
            },
            ProcessStatus::Killed => "killed".to_owned(),
        }
    }
}

} // verus!
