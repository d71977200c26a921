use vstd::prelude::*;
use vstd::string::StrSliceExecFns;
use vstd::string::StringExecFns;

use crate::level::Level;

verus! {

/// One log record: a severity, a message, and an optional source
/// location. The message is already fully formed; rendering only adds
/// the per-severity layout around it.
#[derive(Debug)]
pub struct LogRecord {
    pub level: Level,
    pub message: String,
    pub file: Option<String>,
    pub line: Option<u32>,
}

impl LogRecord {
    /// The source file of this record as a character sequence, if one
    /// was captured.
    pub open spec fn file_view(self) -> Option<Seq<char>> {
        match self.file {
            Some(f) => Some(f@),
            None => None,
        }
    }
}

/// The decimal digit characters `'0'` through `'9'`.
pub open spec fn digit_char(d: int) -> char {
    if d == 0 {
        '0'
    } else if d == 1 {
        '1'
    } else if d == 2 {
        '2'
    } else if d == 3 {
        '3'
    } else if d == 4 {
        '4'
    } else if d == 5 {
        '5'
    } else if d == 6 {
        '6'
    } else if d == 7 {
        '7'
    } else if d == 8 {
        '8'
    } else {
        '9'
    }
}

/// The usual decimal rendering of `n`: no sign, no leading zeros
/// (except that 0 itself is rendered as `"0"`).
pub open spec fn dec_str(n: nat) -> Seq<char>
    decreases n,
{
    if n < 10 {
        seq![digit_char(n as int)]
    } else {
        dec_str(n / 10) + seq![digit_char((n % 10) as int)]
    }
}

/// The one-character string for the decimal digit `d`.
fn digit_literal(d: u32) -> (r: &'static str)
    requires
        d < 10,
    ensures
        r@ == seq![digit_char(d as int)],
{
    proof {
        reveal_strlit("0");
        reveal_strlit("1");
        reveal_strlit("2");
        reveal_strlit("3");
        reveal_strlit("4");
        reveal_strlit("5");
        reveal_strlit("6");
        reveal_strlit("7");
        reveal_strlit("8");
        reveal_strlit("9");
    }
    let r: &'static str = match d {
        0 => "0",
        1 => "1",
        2 => "2",
        3 => "3",
        4 => "4",
        5 => "5",
        6 => "6",
        7 => "7",
        8 => "8",
        _ => "9",
    };
    proof {
        assert(r@ =~= seq![digit_char(d as int)]);
    }
    r
}

/// Append the decimal rendering of `n` to `out`.
pub fn push_dec(out: &mut String, n: u32)
    ensures
        final(out)@ == old(out)@ + dec_str(n as nat),
    decreases n,
{
    if n >= 10 {
        push_dec(out, n / 10);
    }
    out.append(digit_literal(n % 10));
    proof {
        assert(final(out)@ =~= old(out)@ + dec_str(n as nat));
    }
}

/// Does `f` start with the literal path segment `"src/"`?
pub open spec fn has_src_prefix(f: Seq<char>) -> bool {
    f.len() >= 4 && f[0] == 's' && f[1] == 'r' && f[2] == 'c' && f[3] == '/'
}

/// Does `f` end with the literal source-file extension `".rs"`?
pub open spec fn has_rs_suffix(f: Seq<char>) -> bool {
    f.len() >= 3 && f[f.len() - 3] == '.' && f[f.len() - 2] == 'r' && f[f.len() - 1] == 's'
}

/// The shortened form of a source file name: a leading `"src/"`
/// segment and a trailing `".rs"` extension are each stripped
/// independently and only once, the prefix first.
pub open spec fn shortened_file(f: Seq<char>) -> Seq<char> {
    let g = if has_src_prefix(f) {
        f.subrange(4, f.len() as int)
    } else {
        f
    };
    if has_rs_suffix(g) {
        g.subrange(0, g.len() - 3)
    } else {
        g
    }
}

/// Strip a leading `"src/"` and a trailing `".rs"` from a file name,
/// each if present and only once.
pub fn shorten_filename(f: &str) -> (r: String)
    ensures
        r@ == shortened_file(f@),
{
    let n: usize = f.unicode_len();
    let start: usize = if n >= 4 && f.get_char(0) == 's' && f.get_char(1) == 'r' && f.get_char(2)
        == 'c' && f.get_char(3) == '/' {
        4
    } else {
        0
    };
    let g: &str = f.substring_char(start, n);
    let m: usize = n - start;
    proof {
        assert(g@ =~= if has_src_prefix(f@) {
            f@.subrange(4, f@.len() as int)
        } else {
            f@
        });
    }
    let end: usize = if m >= 3 && g.get_char(m - 3) == '.' && g.get_char(m - 2) == 'r'
        && g.get_char(m - 1) == 's' {
        m - 3
    } else {
        m
    };
    let h: &str = g.substring_char(0, end);
    proof {
        assert(h@ =~= shortened_file(f@));
    }
    String::from_str(h)
}

/// The `<file>:<line>` location of a record: the file name (shortened
/// unless `full` is set), a colon, and the decimal line number. A
/// missing file renders as `"?"`, a missing line as `0`.
pub open spec fn location(file: Option<Seq<char>>, line: Option<u32>, full: bool) -> Seq<char> {
    let f = match file {
        None => "?"@,
        Some(f) => if full {
            f
        } else {
            shortened_file(f)
        },
    };
    let n: u32 = match line {
        None => 0,
        Some(n) => n,
    };
    f + ":"@ + dec_str(n as nat)
}

/// Append the `<file>:<line>` location to `out`.
fn push_location(out: &mut String, file: &Option<String>, line: &Option<u32>, full: bool)
    ensures
        final(out)@ == old(out)@ + location(
            match *file {
                Some(f) => Some(f@),
                None => None,
            },
            *line,
            full,
        ),
{
    match file {
        None => out.append("?"),
        Some(f) => {
            if full {
                out.append(f.as_str());
            } else {
                let s = shorten_filename(f.as_str());
                out.append(s.as_str());
            }
        },
    }
    out.append(":");
    let n: u32 = match line {
        None => 0,
        Some(n) => *n,
    };
    push_dec(out, n);
}

/// The exact line of text a record is rendered to, styling aside:
/// errors and warnings get a bracketed prefix, info passes through
/// verbatim, and debug and trace get a bracketed prefix plus the
/// source location.
pub open spec fn rendered_line(
    level: Level,
    message: Seq<char>,
    file: Option<Seq<char>>,
    line: Option<u32>,
    full: bool,
) -> Seq<char> {
    match level {
        Level::Error => "[ERROR] "@ + message,
        Level::Warn => "[WARN] "@ + message,
        Level::Info => message,
        Level::Debug => "[DEBUG]["@ + location(file, line, full) + "] "@ + message,
        Level::Trace => "[TRACE]["@ + location(file, line, full) + "] "@ + message,
    }
}

/// Render a record into the exact text of its log line, without any
/// styling. `full` disables the file-name shortening of debug and
/// trace locations.
pub fn render(r: &LogRecord, full: bool) -> (out: String)
    ensures
        out@ == rendered_line(r.level, r.message@, r.file_view(), r.line, full),
{
    let mut out = String::new();
    match r.level {
        Level::Error => {
            out.append("[ERROR] ");
            out.append(r.message.as_str());
        },
        Level::Warn => {
            out.append("[WARN] ");
            out.append(r.message.as_str());
        },
        Level::Info => {
            out.append(r.message.as_str());
        },
        Level::Debug => {
            out.append("[DEBUG][");
            push_location(&mut out, &r.file, &r.line, full);
            out.append("] ");
            out.append(r.message.as_str());
        },
        Level::Trace => {
            out.append("[TRACE][");
            push_location(&mut out, &r.file, &r.line, full);
            out.append("] ");
            out.append(r.message.as_str());
        },
    }
    proof {
        assert(out@ =~= rendered_line(r.level, r.message@, r.file_view(), r.line, full));
    }
    out
}

} // verus!
