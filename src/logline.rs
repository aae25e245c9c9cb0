use vstd::prelude::*;
use vstd::string::{StrSliceExecFns, StringExecFns};

verus! {

/// `s` begins with `p`.
pub open spec fn has_prefix(s: Seq<char>, p: Seq<char>) -> bool {
    p.len() <= s.len() && s.subrange(0, p.len() as int) == p
}

/// Whether `s` begins with `p`.
pub fn starts_with(s: &str, p: &str) -> (r: bool)
    ensures
        r == has_prefix(s@, p@),
{
    let n = s.unicode_len();
    let m = p.unicode_len();
    if m > n {
        return false;
    }
    let mut i: usize = 0;
    while i < m
        invariant
            m == p@.len(),
            n == s@.len(),
            m <= n,
            i <= m,
            s@.subrange(0, i as int) == p@.subrange(0, i as int),
        decreases m - i,
    {
        if s.get_char(i) != p.get_char(i) {
            assert(s@.subrange(0, m as int)[i as int] != p@[i as int]);
            return false;
        }
        assert(s@.subrange(0, i + 1) =~= s@.subrange(0, i as int).push(s@[i as int]));
        assert(p@.subrange(0, i + 1) =~= p@.subrange(0, i as int).push(p@[i as int]));
        i = i + 1;
    }
    assert(p@.subrange(0, m as int) =~= p@);
    true
}

/// One line of the application log, by the record's target: output of the tool
/// service, messages of the web page, or the application's own records.
pub open spec fn log_line_spec(
    date: Seq<char>,
    time: Seq<char>,
    level: Seq<char>,
    target: Seq<char>,
    message: Seq<char>,
) -> Seq<char> {
    let head = "["@ + date + "]["@ + time + "]["@;
    if has_prefix(target, "tool_service_stdout"@) {
        head + "🥑python] "@ + message
    } else if has_prefix(target, "webview"@) {
        head + "✨frontend]["@ + level + "] "@ + message
    } else {
        head + level + "]["@ + target + "] "@ + message
    }
}

/// Formats one log record.
pub fn log_line(date: &str, time: &str, level: &str, target: &str, message: &str) -> (r: String)
    ensures
        r@ == log_line_spec(date@, time@, level@, target@, message@),
{
    let head = "[".to_owned().concat(date).concat("][").concat(time).concat("][");
    if starts_with(target, "tool_service_stdout") {
        head.concat("🥑python] ").concat(message)
    } else if starts_with(target, "webview") {
        head.concat("✨frontend][").concat(level).concat("] ").concat(message)
    } else {
        head.concat(level).concat("][").concat(target).concat("] ").concat(message)
    }
}

} // verus!
