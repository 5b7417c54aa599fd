//! The log reader: recent commits with short hashes and relative dates.

use vstd::prelude::*;
use vstd::string::*;

use crate::errors::GitError;
use crate::gitio;
use crate::gitio::CommitRaw;

verus! {

/// One commit entry of the log: full hash, its first seven characters,
/// author name, the author timestamp as a relative date, and the first
/// message line.
#[derive(Clone, Debug)]
pub struct GitLogEntry {
    pub hash: String,
    pub short_hash: String,
    pub author: String,
    pub relative_date: String,
    pub message: String,
}

/// The decimal digit character for a value below ten.
pub open spec fn digit_char(d: nat) -> char {
    if d == 0 {
        '0'
    } else if d == 1 {
        '1'
    } else if d == 2 {
        '2'
    } else if d == 3 {
        '3'
    } else if d == 4 {
        '4'
    } else if d == 5 {
        '5'
    } else if d == 6 {
        '6'
    } else if d == 7 {
        '7'
    } else if d == 8 {
        '8'
    } else {
        '9'
    }
}

/// The decimal representation of a number, most significant digit first.
pub open spec fn dec_rep(n: nat) -> Seq<char>
    decreases n,
{
    if n < 10 {
        seq![digit_char(n)]
    } else {
        dec_rep(n / 10).push(digit_char(n % 10))
    }
}

/// One decimal digit as a string slice.
fn digit_str(d: u64) -> (r: &'static str)
    requires
        d < 10,
    ensures
        r@ == seq![digit_char(d as nat)],
{
    proof {
        reveal_strlit("0");
        reveal_strlit("1");
        reveal_strlit("2");
        reveal_strlit("3");
        reveal_strlit("4");
        reveal_strlit("5");
        reveal_strlit("6");
        reveal_strlit("7");
        reveal_strlit("8");
        reveal_strlit("9");
        assert(seq![digit_char(d as nat)].len() == 1);
    }
    let r: &'static str = if d == 0 {
        "0"
    } else if d == 1 {
        "1"
    } else if d == 2 {
        "2"
    } else if d == 3 {
        "3"
    } else if d == 4 {
        "4"
    } else if d == 5 {
        "5"
    } else if d == 6 {
        "6"
    } else if d == 7 {
        "7"
    } else if d == 8 {
        "8"
    } else {
        "9"
    };
    proof {
        assert(r@ =~= seq![digit_char(d as nat)]);
    }
    r
}

/// Formats a number in decimal.
pub fn u64_to_dec(n: u64) -> (r: String)
    ensures
        r@ == dec_rep(n as nat),
    decreases n,
{
    if n < 10 {
        String::from_str(digit_str(n))
    } else {
        let mut s = u64_to_dec(n / 10);
        s.append(digit_str(n % 10));
        proof {
            assert(s@ =~= dec_rep(n as nat));
        }
        s
    }
}

/// The relative-date wording for a commit timestamp observed at a given
/// time: bucketed into seconds, minutes, hours, days, 30-day months and
/// 12-month years, with singular wording at exactly one unit, and "just now"
/// for a timestamp in the future.
pub open spec fn relative_label_spec(now: int, seconds: int) -> Seq<char> {
    let diff = now - seconds;
    if diff < 0 {
        "just now"@
    } else if diff < 60 {
        dec_rep(diff as nat) + " seconds ago"@
    } else if diff / 60 < 60 {
        if diff / 60 == 1 {
            "1 minute ago"@
        } else {
            dec_rep((diff / 60) as nat) + " minutes ago"@
        }
    } else if diff / 3600 < 24 {
        if diff / 3600 == 1 {
            "1 hour ago"@
        } else {
            dec_rep((diff / 3600) as nat) + " hours ago"@
        }
    } else if diff / 86400 < 30 {
        if diff / 86400 == 1 {
            "1 day ago"@
        } else {
            dec_rep((diff / 86400) as nat) + " days ago"@
        }
    } else if diff / 86400 / 30 < 12 {
        if diff / 86400 / 30 == 1 {
            "1 month ago"@
        } else {
            dec_rep((diff / 86400 / 30) as nat) + " months ago"@
        }
    } else {
        if diff / 86400 / 30 / 12 == 1 {
            "1 year ago"@
        } else {
            dec_rep((diff / 86400 / 30 / 12) as nat) + " years ago"@
        }
    }
}

/// Renders the relative-date wording for a timestamp as seen from `now`.
pub fn relative_date_label(now: i64, seconds: i64) -> (r: String)
    ensures
        r@ == relative_label_spec(now as int, seconds as int),
{
    let wide: i128 = now as i128 - seconds as i128;
    if wide < 0 {
        return String::from_str("just now");
    }
    let diff: u64 = wide as u64;
    if diff < 60 {
        let mut s = u64_to_dec(diff);
        s.append(" seconds ago");
        return s;
    }
    let minutes: u64 = diff / 60;
    if minutes < 60 {
        if minutes == 1 {
            return String::from_str("1 minute ago");
        }
        let mut s = u64_to_dec(minutes);
        s.append(" minutes ago");
        return s;
    }
    let hours: u64 = minutes / 60;
    if hours < 24 {
        if hours == 1 {
            return String::from_str("1 hour ago");
        }
        let mut s = u64_to_dec(hours);
        s.append(" hours ago");
        return s;
    }
    let days: u64 = hours / 24;
    if days < 30 {
        if days == 1 {
            return String::from_str("1 day ago");
        }
        let mut s = u64_to_dec(days);
        s.append(" days ago");
        return s;
    }
    let months: u64 = days / 30;
    if months < 12 {
        if months == 1 {
            return String::from_str("1 month ago");
        }
        let mut s = u64_to_dec(months);
        s.append(" months ago");
        return s;
    }
    let years: u64 = months / 12;
    if years == 1 {
        return String::from_str("1 year ago");
    }
    let mut s = u64_to_dec(years);
    s.append(" years ago");
    s
}

/// Formats a commit timestamp relative to the current clock reading.
pub fn format_relative_date(seconds_since_epoch: i64) -> (r: String)
    ensures
        exists|now: int| r@ == relative_label_spec(now, seconds_since_epoch as int),
{
    let now = gitio::now_unix_seconds();
    let r = relative_date_label(now, seconds_since_epoch);
    proof {
        assert(r@ == relative_label_spec(now as int, seconds_since_epoch as int));
    }
    r
}

/// The first seven characters of a hash, or all of it when shorter.
pub open spec fn short_hash_spec(hash: Seq<char>) -> Seq<char> {
    if hash.len() < 7 {
        hash
    } else {
        hash.subrange(0, 7)
    }
}

/// Shortens a full hash to its display form.
pub fn short_hash_of(hash: &str) -> (r: String)
    ensures
        r@ == short_hash_spec(hash@),
{
    let n: usize = hash.unicode_len();
    if n < 7 {
        proof {
            assert(hash@.subrange(0, n as int) =~= hash@);
        }
        let s = hash.substring_char(0, n);
        s.to_owned()
    } else {
        let s = hash.substring_char(0, 7);
        s.to_owned()
    }
}

/// The number of entries a log query yields at most.
pub open spec fn log_limit_spec(limit: Option<u32>) -> nat {
    match limit {
        Some(l) => l as nat,
        None => 20,
    }
}

/// Walks commit ancestry from HEAD and returns at most `limit` entries
/// (twenty when unspecified), each carrying the full hash, the short hash of
/// short_hash_spec, the author name, a relative date, and the first message
/// line. Failures to open the repository, read HEAD or walk ancestry are
/// fatal.
pub fn get_log(cwd: &str, limit: Option<u32>) -> (r: Result<Vec<GitLogEntry>, GitError>)
    ensures
        r matches Ok(v) ==> v@.len() <= log_limit_spec(limit),
        r matches Err(e) ==> e == GitError::RepositoryOpen || e == GitError::ReferenceResolution
            || e == GitError::AncestryWalk || e == GitError::ObjectRead,
        r matches Ok(v) ==> forall|i: int|
            0 <= i < v@.len() ==> (#[trigger] v@[i]).short_hash@ == short_hash_spec(v@[i].hash@),
{
    let repo = match gitio::open_repo(cwd) {
        Ok(repo) => repo,
        Err(e) => return Err(e),
    };
    let head_id = match gitio::head_commit_id(&repo) {
        Ok(id) => id,
        Err(e) => return Err(e),
    };
    let max: usize = match limit {
        Some(l) => l as usize,
        None => 20,
    };
    let raw = match gitio::log_entries(&repo, &head_id, max) {
        Ok(raw) => raw,
        Err(e) => return Err(e),
    };
    let mut out: Vec<GitLogEntry> = Vec::new();
    let mut i: usize = 0;
    while i < raw.len()
        invariant
            0 <= i <= raw@.len(),
            out@.len() == i,
            forall|k: int|
                0 <= k < i ==> (#[trigger] out@[k]).short_hash@ == short_hash_spec(out@[k].hash@),
        decreases raw@.len() - i,
    {
        let c = &raw[i];
        let entry = GitLogEntry {
            hash: c.hash.clone(),
            short_hash: short_hash_of(c.hash.as_str()),
            author: c.author.clone(),
            relative_date: format_relative_date(c.seconds),
            message: c.summary.clone(),
        };
        out.push(entry);
        i += 1;
    }
    Ok(out)
}

} // verus!
