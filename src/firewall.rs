//! Firewall rules as `ufw` argument lists; running them is the caller's part.

use vstd::prelude::*;
use crate::config::same_text;
use crate::services::{list2, list3, owned, push_text, strs};

verus! {

pub open spec fn contains_text(s: Seq<char>, pat: Seq<char>) -> bool {
    exists|i: int| 0 <= i && i + pat.len() <= s.len() && #[trigger] s.subrange(i, i + pat.len()) == pat
}

pub fn find_text(s: &str, pat: &str) -> (r: bool)
    ensures
        r == contains_text(s@, pat@),
{
    let n = s.unicode_len();
    let m = pat.unicode_len();
    if m > n {
        return false;
    }
    if m == 0 {
        assert(s@.subrange(0int, 0int + pat@.len()) =~= pat@);
        return true;
    }
    let mut i: usize = 0;
    while i < n - m + 1
        invariant
            n == s@.len(),
            m == pat@.len(),
            1 <= m <= n,
            i <= n - m + 1,
            forall|j: int| 0 <= j < i ==> #[trigger] s@.subrange(j, j + m) != pat@,
        decreases n - m + 1 - i,
    {
        if same_text(s.substring_char(i, i + m), pat) {
            return true;
        }
        i = i + 1;
    }
    assert forall|j: int| 0 <= j && j + pat@.len() <= s@.len() implies #[trigger] s@.subrange(
        j,
        j + pat@.len(),
    ) != pat@ by {
        assert(j < i);
    }
    false
}

pub open spec fn allow_args(port: Seq<char>, comment: Seq<char>) -> Seq<Seq<char>> {
    if comment.len() == 0 {
        seq!["allow"@, port]
    } else {
        seq!["allow"@, port, "comment"@, comment]
    }
}

pub struct FirewallManager;

impl FirewallManager {
    /// `ufw` arguments that open `port`, labelled with `comment` when one is given.
    pub fn allow_port(port: &str, comment: &str) -> (r: Vec<String>)
        ensures
            strs(r@) == allow_args(port@, comment@),
    {
        let mut args = list2("allow", port);
        if comment.unicode_len() != 0 {
            push_text(&mut args, "comment");
            push_text(&mut args, comment);
        }
        args
    }

    /// `ufw` arguments that remove the rule opening `port`.
    pub fn deny_port(port: &str) -> (r: Vec<String>)
        ensures
            strs(r@) == seq!["delete"@, "allow"@, port@],
    {
        list3("delete", "allow", port)
    }

    /// Given what `ufw status` printed, the arguments that turn the firewall
    /// on, or `None` when it is active already.
    pub fn enable(status_output: &str) -> (r: Option<Vec<String>>)
        ensures
            contains_text(status_output@, "Status: active"@) ==> r is None,
            !contains_text(status_output@, "Status: active"@) ==> r is Some && strs(r->Some_0@)
                == seq!["--force"@, "enable"@],
    {
        if find_text(status_output, "Status: active") {
            None
        } else {
            Some(list2("--force", "enable"))
        }
    }

    /// The rules that keep SSH reachable, by service name and by port.
    pub fn ensure_basic_rules() -> (r: Vec<Vec<String>>)
        ensures
            r@.len() == 2,
            strs(r@[0]@) == allow_args("ssh"@, "SSH Access"@),
            strs(r@[1]@) == allow_args("22"@, "SSH Fallback"@),
    {
        vec![Self::allow_port("ssh", "SSH Access"), Self::allow_port("22", "SSH Fallback")]
    }

    /// The baseline policy: deny incoming, allow outgoing, allow SSH, then enable.
    pub fn baseline_rules() -> (r: Vec<Vec<String>>)
        ensures
            r@.len() == 5,
            strs(r@[0]@) == seq!["default"@, "deny"@, "incoming"@],
            strs(r@[1]@) == seq!["default"@, "allow"@, "outgoing"@],
            strs(r@[2]@) == seq!["allow"@, "ssh"@],
            strs(r@[3]@) == seq!["allow"@, "22/tcp"@],
            strs(r@[4]@) == seq!["--force"@, "enable"@],
    {
        vec![
            list3("default", "deny", "incoming"),
            list3("default", "allow", "outgoing"),
            list2("allow", "ssh"),
            list2("allow", "22/tcp"),
            list2("--force", "enable"),
        ]
    }
}

} // verus!
