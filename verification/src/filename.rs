//! Timestamped filenames and output paths for saved captures.
//!
//! A capture is written as `screenshot_YYYYMMDD_HHMMSS.png` inside a fixed
//! `SimpleScreenshotTool` subdirectory of the platform pictures directory,
//! or of the current working directory when no pictures directory can be
//! resolved.

use vstd::prelude::*;

verus! {

/// A wall-clock instant at second granularity, as plain calendar fields.
#[derive(Clone, Copy, Debug, PartialEq, Eq, Structural)]
pub struct LocalTime {
    pub year: i32,
    /// 1 through 12.
    pub month: u8,
    /// 1 through 31.
    pub day: u8,
    /// 0 through 23.
    pub hour: u8,
    /// 0 through 59.
    pub minute: u8,
    /// 0 through 59.
    pub second: u8,
}

impl LocalTime {
    /// The fields form a calendar instant that the fixed-width
    /// `YYYYMMDD_HHMMSS` stamp can express.
    pub open spec fn wf(self) -> bool {
        &&& 0 <= self.year <= 9999
        &&& 1 <= self.month <= 12
        &&& 1 <= self.day <= 31
        &&& self.hour < 24
        &&& self.minute < 60
        &&& self.second < 60
    }
}

/// The decimal digit character for `n`, which must lie in 0 through 9.
pub open spec fn decimal_digit(n: int) -> char {
    if n == 0 {
        '0'
    } else if n == 1 {
        '1'
    } else if n == 2 {
        '2'
    } else if n == 3 {
        '3'
    } else if n == 4 {
        '4'
    } else if n == 5 {
        '5'
    } else if n == 6 {
        '6'
    } else if n == 7 {
        '7'
    } else if n == 8 {
        '8'
    } else {
        '9'
    }
}

/// `n` zero-padded to two decimal digits, for `n` below 100.
pub open spec fn two_digit_chars(n: int) -> Seq<char> {
    seq![decimal_digit(n / 10), decimal_digit(n % 10)]
}

/// `n` zero-padded to four decimal digits, for `n` below 10000.
pub open spec fn four_digit_chars(n: int) -> Seq<char> {
    seq![
        decimal_digit(n / 1000),
        decimal_digit(n / 100 % 10),
        decimal_digit(n / 10 % 10),
        decimal_digit(n % 10),
    ]
}

/// The filename a capture taken at `t` is stored under:
/// `screenshot_` + the date as `YYYYMMDD` + `_` + the time as `HHMMSS` +
/// `.png`.
pub open spec fn filename_chars(t: LocalTime) -> Seq<char> {
    "screenshot_"@ + four_digit_chars(t.year as int) + two_digit_chars(t.month as int)
        + two_digit_chars(t.day as int) + "_"@ + two_digit_chars(t.hour as int) + two_digit_chars(
        t.minute as int,
    ) + two_digit_chars(t.second as int) + ".png"@
}

/// The single decimal digit character for `d`.
fn digit_str(d: u32) -> (r: &'static str)
    requires
        d < 10,
    ensures
        r@ == seq![decimal_digit(d as int)],
{
    match d {
        0 => {
            let s = "0";
            proof {
                reveal_strlit("0");
                assert(s@ =~= seq![decimal_digit(0)]);
            }
            s
        }
        1 => {
            let s = "1";
            proof {
                reveal_strlit("1");
                assert(s@ =~= seq![decimal_digit(1)]);
            }
            s
        }
        2 => {
            let s = "2";
            proof {
                reveal_strlit("2");
                assert(s@ =~= seq![decimal_digit(2)]);
            }
            s
        }
        3 => {
            let s = "3";
            proof {
                reveal_strlit("3");
                assert(s@ =~= seq![decimal_digit(3)]);
            }
            s
        }
        4 => {
            let s = "4";
            proof {
                reveal_strlit("4");
                assert(s@ =~= seq![decimal_digit(4)]);
            }
            s
        }
        5 => {
            let s = "5";
            proof {
                reveal_strlit("5");
                assert(s@ =~= seq![decimal_digit(5)]);
            }
            s
        }
        6 => {
            let s = "6";
            proof {
                reveal_strlit("6");
                assert(s@ =~= seq![decimal_digit(6)]);
            }
            s
        }
        7 => {
            let s = "7";
            proof {
                reveal_strlit("7");
                assert(s@ =~= seq![decimal_digit(7)]);
            }
            s
        }
        8 => {
            let s = "8";
            proof {
                reveal_strlit("8");
                assert(s@ =~= seq![decimal_digit(8)]);
            }
            s
        }
        _ => {
            let s = "9";
            proof {
                reveal_strlit("9");
                assert(s@ =~= seq![decimal_digit(9)]);
            }
            s
        }
    }
}

/// Appends `n` as two zero-padded decimal digits.
fn append_two_digits(s: &mut String, n: u32)
    requires
        n < 100,
    ensures
        final(s)@ == old(s)@ + two_digit_chars(n as int),
{
    s.append(digit_str(n / 10));
    s.append(digit_str(n % 10));
    proof {
        assert(s@ =~= old(s)@ + two_digit_chars(n as int));
    }
}

/// Appends `n` as four zero-padded decimal digits.
fn append_four_digits(s: &mut String, n: u32)
    requires
        n < 10000,
    ensures
        final(s)@ == old(s)@ + four_digit_chars(n as int),
{
    s.append(digit_str(n / 1000));
    s.append(digit_str(n / 100 % 10));
    s.append(digit_str(n / 10 % 10));
    s.append(digit_str(n % 10));
    proof {
        assert(s@ =~= old(s)@ + four_digit_chars(n as int));
    }
}

/// The filename for a capture taken at `t`: the date and time at second
/// granularity, zero-padded to fixed width, between the `screenshot_`
/// prefix and the `.png` extension.  Captures within one wall-clock second
/// share a name; a one-shot tool takes at most one.
pub fn screenshot_filename(t: &LocalTime) -> (r: String)
    requires
        t.wf(),
    ensures
        r@ == filename_chars(*t),
{
    let mut s = String::from_str("screenshot_");
    append_four_digits(&mut s, t.year as u32);
    append_two_digits(&mut s, t.month as u32);
    append_two_digits(&mut s, t.day as u32);
    s.append("_");
    append_two_digits(&mut s, t.hour as u32);
    append_two_digits(&mut s, t.minute as u32);
    append_two_digits(&mut s, t.second as u32);
    s.append(".png");
    proof {
        assert(s@ =~= filename_chars(*t));
    }
    s
}

/// The directory captures are stored in: the `SimpleScreenshotTool`
/// subdirectory of the platform pictures directory, or of the current
/// working directory (`.`) when no pictures directory is available.
pub fn output_directory(pictures: Option<String>) -> (r: String)
    ensures
        r@ == (match pictures {
            Some(p) => p@,
            None => "."@,
        }) + "/SimpleScreenshotTool"@,
{
    match pictures {
        Some(p) => p.concat("/SimpleScreenshotTool"),
        None => String::from_str(".").concat("/SimpleScreenshotTool"),
    }
}

/// The full path of the file `name` inside the directory `dir`.
pub fn file_path(dir: &str, name: &str) -> (r: String)
    ensures
        r@ == dir@ + "/"@ + name@,
{
    let mut s = String::from_str(dir);
    s.append("/");
    s.append(name);
    proof {
        assert(s@ =~= dir@ + "/"@ + name@);
    }
    s
}

} // verus!
