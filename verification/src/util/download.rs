//! Download bookkeeping.
//!
//! The embedding application streams the artifact over the network; the
//! library supplies everything about a download that can be decided without
//! one: the scratch-file name an attempt writes to (a random suffix keeps
//! concurrent invocations off each other's files), and the progress
//! arithmetic per received chunk.  Progress feeds display only; no outcome
//! ever depends on it.

use vstd::prelude::*;

verus! {

/// Relies on `rand::random`: an arbitrary `u32`; nothing is assumed of its
/// value.
#[verifier::external_body]
fn random_u32() -> u32 {
    rand::random::<u32>()
}

/// The decimal digit character for `d`.
pub open spec fn spec_digit_char(d: int) -> char {
    if d == 0 {
        '0'
    } else if d == 1 {
        '1'
    } else if d == 2 {
        '2'
    } else if d == 3 {
        '3'
    } else if d == 4 {
        '4'
    } else if d == 5 {
        '5'
    } else if d == 6 {
        '6'
    } else if d == 7 {
        '7'
    } else if d == 8 {
        '8'
    } else {
        '9'
    }
}

/// The decimal text of `n`, most significant digit first, no leading zeros
/// (a single `0` for zero).
pub open spec fn spec_decimal(n: nat) -> Seq<char>
    decreases n,
{
    if n < 10 {
        seq![spec_digit_char(n as int)]
    } else {
        spec_decimal(n / 10) + seq![spec_digit_char((n % 10) as int)]
    }
}

fn digit_str(d: u32) -> (r: &'static str)
    requires
        d < 10,
    ensures
        r@ == seq![spec_digit_char(d as int)],
{
    let r = match d {
        0 => "0",
        1 => "1",
        2 => "2",
        3 => "3",
        4 => "4",
        5 => "5",
        6 => "6",
        7 => "7",
        8 => "8",
        _ => "9",
    };
    proof {
        reveal_strlit("0");
        reveal_strlit("1");
        reveal_strlit("2");
        reveal_strlit("3");
        reveal_strlit("4");
        reveal_strlit("5");
        reveal_strlit("6");
        reveal_strlit("7");
        reveal_strlit("8");
        reveal_strlit("9");
        assert(r@ =~= seq![spec_digit_char(d as int)]);
    }
    r
}

/// The decimal text of `n`.
pub fn u32_decimal(n: u32) -> (r: String)
    ensures
        r@ == spec_decimal(n as nat),
    decreases n,
{
    if n < 10 {
        String::from_str(digit_str(n))
    } else {
        let mut s = u32_decimal(n / 10);
        s.append(digit_str(n % 10));
        s
    }
}

/// The scratch-file name of a download attempt with suffix `n`.
pub open spec fn spec_scratch_file_name(n: nat) -> Seq<char> {
    "download-"@ + spec_decimal(n)
}

/// The scratch-file name for the given suffix.
pub fn scratch_file_name(n: u32) -> (r: String)
    ensures
        r@ == spec_scratch_file_name(n as nat),
{
    let mut s = String::from_str("download-");
    let d = u32_decimal(n);
    s.append(d.as_str());
    s
}

/// A scratch-file name with a fresh random suffix.  Two calls may (and
/// normally do) name different files; nothing more is known of the suffix.
pub fn fresh_scratch_file_name() -> (r: String)
    ensures
        exists|n: u32| r@ == spec_scratch_file_name(n as nat),
{
    let n = random_u32();
    let r = scratch_file_name(n);
    proof {
        assert(r@ == spec_scratch_file_name(n as nat));
    }
    r
}

/// Progress bookkeeping for one streaming download: bytes received so far
/// against the advertised total, when the response advertised one.
pub struct DownloadProgress {
    pub downloaded: u64,
    pub total: Option<u64>,
}

impl DownloadProgress {
    /// A download that has not received anything yet, with the advertised
    /// content length when there was one.
    pub fn new(content_length: Option<u64>) -> (r: DownloadProgress)
        ensures
            r.downloaded == 0,
            r.total == content_length,
    {
        DownloadProgress { downloaded: 0, total: content_length }
    }

    /// Records one received chunk.
    pub fn record_chunk(&mut self, len: u64)
        requires
            old(self).downloaded + len <= u64::MAX,
        ensures
            final(self).downloaded == old(self).downloaded + len,
            final(self).total == old(self).total,
    {
        self.downloaded = self.downloaded + len;
    }

    /// The position a progress display should show: the received bytes,
    /// clamped to the advertised total when one was advertised.
    pub fn position(&self) -> (r: u64)
        ensures
            match self.total {
                Some(t) => r == if self.downloaded <= t {
                    self.downloaded
                } else {
                    t
                },
                None => r == self.downloaded,
            },
    {
        match self.total {
            Some(t) => if self.downloaded <= t {
                self.downloaded
            } else {
                t
            },
            None => self.downloaded,
        }
    }
}

} // verus!
