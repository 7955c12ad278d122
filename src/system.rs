//! Host-side rules: which usernames may become OS accounts, quota sizes,
//! and the kernel tuning the installer applies.

use vstd::prelude::*;
use crate::error::StoreError;
use crate::services::{list2, owned, strs};

verus! {

/// Whether `char::is_alphanumeric` holds of `c` (Unicode Alphabetic or Numeric).
pub uninterp spec fn char_alphanumeric(c: char) -> bool;

/// Relies on `char::is_alphanumeric`: whether the character is Unicode
/// Alphabetic or Numeric; a function of the character alone.
#[verifier::external_body]
fn is_alphanumeric(c: char) -> (r: bool)
    ensures
        r == char_alphanumeric(c),
{
    c.is_alphanumeric()
}

/// A username is non-empty and uses alphanumerics, `-` and `_` only.
pub open spec fn valid_username(s: Seq<char>, alnum: spec_fn(char) -> bool) -> bool {
    s.len() > 0 && forall|i: int| 0 <= i < s.len() ==> alnum(#[trigger] s[i]) || s[i] == '-' || s[i] == '_'
}

/// The username rule, given for each character of `username` whether it is
/// alphanumeric.
pub fn check_username(username: &str, alphanumeric: &Vec<bool>) -> (r: Result<(), StoreError>)
    requires
        alphanumeric@.len() == username@.len(),
    ensures
        r is Ok <==> username@.len() > 0 && forall|i: int|
            0 <= i < username@.len() ==> alphanumeric@[i] || #[trigger] username@[i] == '-'
                || username@[i] == '_',
        r is Err ==> r == Err::<(), StoreError>(StoreError::ValidationFailed),
{
    let n = username.unicode_len();
    if n == 0 {
        return Err(StoreError::ValidationFailed);
    }
    let mut i: usize = 0;
    while i < n
        invariant
            n == username@.len(),
            alphanumeric@.len() == n,
            i <= n,
            forall|j: int|
                0 <= j < i ==> alphanumeric@[j] || #[trigger] username@[j] == '-' || username@[j]
                    == '_',
        decreases n - i,
    {
        let c = username.get_char(i);
        if !(alphanumeric[i] || c == '-' || c == '_') {
            return Err(StoreError::ValidationFailed);
        }
        i = i + 1;
    }
    Ok(())
}

/// Refuses a username that is empty or holds anything but alphanumerics,
/// `-` and `_`, before it reaches an OS account command.
pub fn validate_username(username: &str) -> (r: Result<(), StoreError>)
    ensures
        r is Ok <==> valid_username(username@, |c: char| char_alphanumeric(c)),
        r is Err ==> r == Err::<(), StoreError>(StoreError::ValidationFailed),
{
    let n = username.unicode_len();
    let mut flags: Vec<bool> = Vec::new();
    let mut i: usize = 0;
    while i < n
        invariant
            n == username@.len(),
            i <= n,
            flags@.len() == i,
            forall|j: int| 0 <= j < i ==> flags@[j] == char_alphanumeric(username@[j]),
        decreases n - i,
    {
        flags.push(is_alphanumeric(username.get_char(i)));
        i = i + 1;
    }
    let r = check_username(username, &flags);
    proof {
        if r is Ok {
            assert forall|j: int| 0 <= j < username@.len() implies char_alphanumeric(
                #[trigger] username@[j],
            ) || username@[j] == '-' || username@[j] == '_' by {
                assert(flags@[j] || username@[j] == '-' || username@[j] == '_');
            }
        } else if username@.len() > 0 {
            assert(!(forall|j: int|
                0 <= j < username@.len() ==> flags@[j] || #[trigger] username@[j] == '-'
                    || username@[j] == '_'));
            let j = choose|j: int|
                0 <= j < username@.len() && !(flags@[j] || #[trigger] username@[j] == '-'
                    || username@[j] == '_');
            assert(!(char_alphanumeric(username@[j]) || username@[j] == '-' || username@[j] == '_'));
        }
    }
    r
}

/// A password must not be empty.
pub fn validate_password(password: &str) -> (r: Result<(), StoreError>)
    ensures
        r is Ok <==> password@.len() > 0,
        r is Err ==> r == Err::<(), StoreError>(StoreError::ValidationFailed),
{
    if password.unicode_len() == 0 {
        Err(StoreError::ValidationFailed)
    } else {
        Ok(())
    }
}

/// Disk blocks (of 1 KiB) in a quota of `quota_gb` gigabytes; `None` when it
/// does not fit in 64 bits.
pub fn quota_blocks(quota_gb: u64) -> (r: Option<u64>)
    ensures
        quota_gb * 1048576 <= u64::MAX ==> r == Some((quota_gb * 1048576) as u64),
        quota_gb * 1048576 > u64::MAX ==> r is None,
{
    if quota_gb > u64::MAX / 1048576 {
        None
    } else {
        Some(quota_gb * 1048576)
    }
}

/// Whether `char::is_whitespace` holds of `c` (Unicode White_Space).
pub uninterp spec fn char_whitespace(c: char) -> bool;

/// Relies on `char::is_whitespace`: whether the character has the Unicode
/// White_Space property; a function of the character alone.
#[verifier::external_body]
fn is_whitespace(c: char) -> (r: bool)
    ensures
        r == char_whitespace(c),
{
    c.is_whitespace()
}

/// Position just after the first line break at or after `i`, if any.
pub open spec fn line_end(s: Seq<char>, i: int) -> Option<int>
    decreases s.len() - i,
{
    if i < 0 || i >= s.len() {
        None
    } else if s[i] == '\n' {
        Some(i + 1)
    } else {
        line_end(s, i + 1)
    }
}

/// End of the run of non-whitespace characters starting at `i` (`w` marks whitespace).
pub open spec fn word_end(w: Seq<bool>, i: int) -> int
    decreases w.len() - i,
{
    if i < 0 || i >= w.len() || w[i] {
        i
    } else {
        word_end(w, i + 1)
    }
}

/// Start of the first word at or after `i` on the same line, or the end of
/// that line (or text) when the line has no further word.
pub open spec fn word_start(s: Seq<char>, w: Seq<bool>, i: int) -> int
    decreases s.len() - i,
{
    if i < 0 || i >= s.len() || s[i] == '\n' || !w[i] {
        i
    } else {
        word_start(s, w, i + 1)
    }
}

/// The device column of `df -P` output: the first word of the second line,
/// whitespace being marked by `w`.
pub open spec fn df_device(s: Seq<char>, w: Seq<bool>) -> Option<Seq<char>> {
    match line_end(s, 0) {
        None => None,
        Some(start) => {
            let b = word_start(s, w, start);
            let e = word_end(w, b);
            if b < s.len() && s[b] != '\n' && e > b {
                Some(s.subrange(b, e))
            } else {
                None
            }
        },
    }
}

/// Which characters of `s` are whitespace.
pub open spec fn whitespace_of(s: Seq<char>) -> Seq<bool> {
    s.map_values(|c: char| char_whitespace(c))
}

/// The device holding /home, read from `df -P /home` output, given for each
/// character whether it is whitespace: the first word of the second line;
/// `None` when there is no second line or it holds no word.
pub fn home_device_with(df_output: &str, whitespace: &Vec<bool>) -> (r: Option<String>)
    requires
        whitespace@.len() == df_output@.len(),
    ensures
        match r {
            Some(d) => df_device(df_output@, whitespace@) == Some(d@),
            None => df_device(df_output@, whitespace@) is None,
        },
{
    let ghost s = df_output@;
    let ghost w = whitespace@;
    let n = df_output.unicode_len();
    let mut i: usize = 0;
    while i < n && df_output.get_char(i) != '\n'
        invariant
            s == df_output@,
            n == s.len(),
            i <= n,
            line_end(s, 0) == line_end(s, i as int),
        decreases n - i,
    {
        i = i + 1;
    }
    if i == n {
        return None;
    }
    let mut j: usize = i + 1;
    while j < n && df_output.get_char(j) != '\n' && whitespace[j]
        invariant
            s == df_output@,
            w == whitespace@,
            n == s.len(),
            w.len() == n,
            i < j <= n,
            line_end(s, 0) == Some(i + 1),
            word_start(s, w, i + 1) == word_start(s, w, j as int),
        decreases n - j,
    {
        j = j + 1;
    }
    if j == n || df_output.get_char(j) == '\n' {
        return None;
    }
    let mut k: usize = j;
    while k < n && !whitespace[k]
        invariant
            s == df_output@,
            w == whitespace@,
            n == s.len(),
            w.len() == n,
            j <= k <= n,
            word_end(w, j as int) == word_end(w, k as int),
        decreases n - k,
    {
        k = k + 1;
    }
    if k == j {
        return None;
    }
    Some(String::from_str(df_output.substring_char(j, k)))
}

/// The device holding /home, read from `df -P /home` output.
pub fn home_device(df_output: &str) -> (r: Option<String>)
    ensures
        match r {
            Some(d) => df_device(df_output@, whitespace_of(df_output@)) == Some(d@),
            None => df_device(df_output@, whitespace_of(df_output@)) is None,
        },
{
    let n = df_output.unicode_len();
    let mut flags: Vec<bool> = Vec::new();
    let mut i: usize = 0;
    while i < n
        invariant
            n == df_output@.len(),
            i <= n,
            flags@.len() == i,
            forall|j: int| 0 <= j < i ==> flags@[j] == char_whitespace(df_output@[j]),
        decreases n - i,
    {
        flags.push(is_whitespace(df_output.get_char(i)));
        i = i + 1;
    }
    assert(flags@ =~= whitespace_of(df_output@));
    home_device_with(df_output, &flags)
}

/// Swap aggressiveness: almost none with more than 16 GB of RAM, low otherwise.
pub open spec fn swappiness(ram_gb: u64) -> Seq<char> {
    if ram_gb > 16 {
        "1"@
    } else {
        "10"@
    }
}

/// The sysctl drop-in the installer writes for media-server workloads.
pub open spec fn optimization_config_text(ram_gb: u64) -> Seq<char> {
    "# Server Manager Media Server Optimizations\nfs.inotify.max_user_watches=524288\nvm.swappiness="@
        + swappiness(ram_gb)
        + "\nvm.dirty_ratio=10\nvm.dirty_background_ratio=5\nnet.core.default_qdisc=fq\nnet.ipv4.tcp_congestion_control=bbr\nnet.core.somaxconn=4096\nnet.ipv4.tcp_fastopen=3\nvm.max_map_count=262144\nnet.core.rmem_max=4194304\nnet.core.wmem_max=1048576\n"@
}

pub const SYSCTL_DROP_IN_PATH: &'static str = "/etc/sysctl.d/99-server-manager-optimization.conf";

pub fn optimization_config(ram_gb: u64) -> (r: String)
    ensures
        r@ == optimization_config_text(ram_gb),
{
    let mut text = owned(
        "# Server Manager Media Server Optimizations\nfs.inotify.max_user_watches=524288\nvm.swappiness=",
    );
    text.append(if ram_gb > 16 { "1" } else { "10" });
    text.append(
        "\nvm.dirty_ratio=10\nvm.dirty_background_ratio=5\nnet.core.default_qdisc=fq\nnet.ipv4.tcp_congestion_control=bbr\nnet.core.somaxconn=4096\nnet.ipv4.tcp_fastopen=3\nvm.max_map_count=262144\nnet.core.rmem_max=4194304\nnet.core.wmem_max=1048576\n",
    );
    text
}

pub struct SystemManager;

impl SystemManager {
    /// The `sysctl` invocations of the installer's quick tuning pass, each `-w key=value`.
    pub fn apply_optimizations() -> (r: Vec<Vec<String>>)
        ensures
            r@.len() == 4,
            strs(r@[0]@) == seq!["-w"@, "fs.inotify.max_user_watches=524288"@],
            strs(r@[1]@) == seq!["-w"@, "vm.swappiness=10"@],
            strs(r@[2]@) == seq!["-w"@, "net.core.default_qdisc=fq"@],
            strs(r@[3]@) == seq!["-w"@, "net.ipv4.tcp_congestion_control=bbr"@],
    {
        vec![
            list2("-w", "fs.inotify.max_user_watches=524288"),
            list2("-w", "vm.swappiness=10"),
            list2("-w", "net.core.default_qdisc=fq"),
            list2("-w", "net.ipv4.tcp_congestion_control=bbr"),
        ]
    }
}

} // verus!
