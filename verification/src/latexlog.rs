//! Classification of the typesetting engine's log output, on the renderer
//! side of the sandbox: whether a successful run overran its box, and which
//! error line a failed run reported.
use crate::bytes::{contains_bytes, contains_seq, sub_bytes};
use vstd::prelude::*;

verus! {

/// A finished PDF build: the document bytes and whether the engine reported
/// an overrun box.
pub struct PdfResult {
    pub pdf: Vec<u8>,
    pub overrun_hbox: bool,
}

/// The log marker the engine prints when content overruns its box:
/// `Overfull \hbox`.
pub open spec fn overfull_marker() -> Seq<u8> {
    seq![
        79u8, 118u8, 101u8, 114u8, 102u8, 117u8, 108u8, 108u8, 32u8, 92u8, 104u8, 98u8, 111u8,
        120u8,
    ]
}

/// The overrun marker, as bytes.
pub fn overfull_marker_vec() -> (r: Vec<u8>)
    ensures
        r@ == overfull_marker(),
{
    let r: Vec<u8> = vec![
        79u8, 118u8, 101u8, 114u8, 102u8, 117u8, 108u8, 108u8, 32u8, 92u8, 104u8, 98u8, 111u8,
        120u8,
    ];
    proof {
        assert(r@ =~= overfull_marker());
    }
    r
}

/// Whether the engine's log reports an overrun box.
pub fn log_overfull(log: &Vec<u8>) -> (r: bool)
    ensures
        r == contains_seq(log@, overfull_marker()),
{
    let marker = overfull_marker_vec();
    contains_bytes(log, &marker)
}

/// The position of the first newline in `s`, or `s.len()` if there is none.
pub open spec fn nl_pos(s: Seq<u8>) -> nat
    decreases s.len(),
{
    if s.len() == 0 {
        0
    } else if s[0] == 10 {
        0
    } else {
        1 + nl_pos(s.skip(1))
    }
}

/// The first newline really is the first: everything before it is not a
/// newline, and it is a newline unless the string has none.
proof fn lemma_nl_pos_char(s: Seq<u8>, k: int)
    requires
        0 <= k <= s.len(),
        forall|j: int| 0 <= j < k ==> s[j] != 10,
        k < s.len() ==> s[k] == 10,
    ensures
        nl_pos(s) == k,
    decreases s.len(),
{
    if s.len() == 0 {
    } else if s[0] == 10 {
        assert(k == 0);
    } else {
        assert(k > 0);
        let t = s.skip(1);
        assert(forall|j: int| 0 <= j < k - 1 ==> t[j] == s[j + 1] && t[j] != 10);
        assert(k - 1 < t.len() ==> t[k - 1] == s[k]);
        lemma_nl_pos_char(t, k - 1);
    }
}

/// The first newline position never runs past the end.
proof fn lemma_nl_pos_le(s: Seq<u8>)
    ensures
        nl_pos(s) <= s.len(),
    decreases s.len(),
{
    if s.len() > 0 && s[0] != 10 {
        lemma_nl_pos_le(s.skip(1));
    }
}

/// The message of the first log line that starts with `! ` (the engine's
/// error-line marker), with the marker stripped, or nothing if no line does.
pub open spec fn error_message_of(s: Seq<u8>) -> Option<Seq<u8>>
    decreases s.len(),
    via error_message_of_decreases
{
    if s.len() == 0 {
        None
    } else {
        let e = nl_pos(s) as int;
        if e >= 2 && s[0] == 33 && s[1] == 32 {
            Some(s.subrange(2, e))
        } else if e == s.len() {
            None
        } else {
            error_message_of(s.subrange(e + 1, s.len() as int))
        }
    }
}

#[via_fn]
proof fn error_message_of_decreases(s: Seq<u8>) {
    lemma_nl_pos_le(s);
}

/// Finds the first error line of the engine's log: the first line that starts
/// with `! `, with that marker stripped.
pub fn first_error_line(log: &Vec<u8>) -> (r: Option<Vec<u8>>)
    ensures
        match r {
            Some(m) => error_message_of(log@) == Some(m@),
            None => error_message_of(log@) is None,
        },
{
    let n = log.len();
    proof {
        assert(log@.subrange(0, n as int) =~= log@);
    }
    let mut i: usize = 0;
    while i < n
        invariant
            i <= n,
            n == log@.len(),
            error_message_of(log@) == error_message_of(log@.subrange(i as int, n as int)),
        decreases n - i,
    {
        let ghost suffix = log@.subrange(i as int, n as int);
        let mut e: usize = i;
        while e < n && log[e] != 10
            invariant
                i <= e <= n,
                n == log@.len(),
                forall|j: int| i <= j < e ==> log@[j] != 10,
            decreases n - e,
        {
            e = e + 1;
        }
        proof {
            assert(forall|j: int| 0 <= j < e - i ==> suffix[j] == log@[i + j] && suffix[j] != 10);
            assert(e < n ==> suffix[e - i] == log@[e as int] && suffix[e - i] == 10);
            lemma_nl_pos_char(suffix, e - i);
        }
        if e - i >= 2 && log[i] == 33 && log[i + 1] == 32 {
            let m = sub_bytes(log, i + 2, e);
            proof {
                assert(suffix[0] == log@[i as int]);
                assert(suffix[1] == log@[i as int + 1]);
                assert(m@ =~= suffix.subrange(2, e - i));
            }
            return Some(m);
        }
        if e == n {
            proof {
                assert(suffix.len() > 0);
                if nl_pos(suffix) >= 2 {
                    assert(suffix[0] == log@[i as int]);
                    assert(suffix[1] == log@[i as int + 1]);
                }
                assert(error_message_of(suffix) is None);
            }
            return None;
        }
        proof {
            if nl_pos(suffix) >= 2 {
                assert(suffix[0] == log@[i as int]);
                assert(suffix[1] == log@[i as int + 1]);
            }
            assert(suffix.subrange(e - i + 1, suffix.len() as int) =~= log@.subrange(
                e + 1,
                n as int,
            ));
        }
        i = e + 1;
    }
    proof {
        assert(log@.subrange(i as int, n as int) =~= Seq::<u8>::empty());
    }
    None
}

/// What the engine's run amounted to.
pub enum LatexLogReport {
    /// The engine succeeded; `overrun_hbox` tells whether the log reports an
    /// overrun box.
    Rendered { overrun_hbox: bool },
    /// The engine failed and reported this error line, to surface verbatim.
    InvalidInput { message: Vec<u8> },
    /// The engine failed without a recognizable error line.
    Unknown,
}

/// Classifies one engine run from its exit success and its log: a successful
/// run is checked for the overrun marker; a failed run surfaces its first
/// error line, if the log has one.
pub fn classify_latex_log(success: bool, stdout: &Vec<u8>) -> (r: LatexLogReport)
    ensures
        success ==> (r matches LatexLogReport::Rendered { overrun_hbox } && overrun_hbox
            == contains_seq(stdout@, overfull_marker())),
        !success ==> match error_message_of(stdout@) {
            Some(m) => r matches LatexLogReport::InvalidInput { message } && message@ == m,
            None => r is Unknown,
        },
{
    if success {
        LatexLogReport::Rendered { overrun_hbox: log_overfull(stdout) }
    } else {
        match first_error_line(stdout) {
            Some(message) => LatexLogReport::InvalidInput { message },
            None => LatexLogReport::Unknown,
        }
    }
}

} // verus!
