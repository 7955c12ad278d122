//! Escaping of credentials embedded in generated configuration files.

use vstd::prelude::*;

verus! {

/// `s` with every single quote preceded by a backslash, for a quoted SQL literal.
pub open spec fn sql_escaped(s: Seq<char>) -> Seq<char>
    decreases s.len(),
{
    if s.len() == 0 {
        seq![]
    } else if s.last() == '\'' {
        sql_escaped(s.drop_last()) + seq!['\\', '\'']
    } else {
        sql_escaped(s.drop_last()).push(s.last())
    }
}

/// `s` with backslashes doubled and double quotes backslash-escaped, for a
/// double-quoted PHP string.
pub open spec fn php_escaped(s: Seq<char>) -> Seq<char>
    decreases s.len(),
{
    if s.len() == 0 {
        seq![]
    } else if s.last() == '\\' {
        php_escaped(s.drop_last()) + seq!['\\', '\\']
    } else if s.last() == '"' {
        php_escaped(s.drop_last()) + seq!['\\', '"']
    } else {
        php_escaped(s.drop_last()).push(s.last())
    }
}

pub fn sql_escape(s: &str) -> (r: String)
    ensures
        r@ == sql_escaped(s@),
{
    let n = s.unicode_len();
    let mut r = String::new();
    let mut i: usize = 0;
    while i < n
        invariant
            n == s@.len(),
            i <= n,
            r@ == sql_escaped(s@.take(i as int)),
        decreases n - i,
    {
        assert(s@.take(i as int + 1).drop_last() =~= s@.take(i as int));
        let c = s.get_char(i);
        if c == '\'' {
            proof {
                reveal_strlit("\\'");
            }
            r.append("\\'");
            assert(r@ =~= sql_escaped(s@.take(i as int + 1)));
        } else {
            let piece = s.substring_char(i, i + 1);
            r.append(piece);
            assert(r@ =~= sql_escaped(s@.take(i as int + 1)));
        }
        i = i + 1;
    }
    assert(s@.take(n as int) =~= s@);
    r
}

pub fn php_escape(s: &str) -> (r: String)
    ensures
        r@ == php_escaped(s@),
{
    let n = s.unicode_len();
    let mut r = String::new();
    let mut i: usize = 0;
    while i < n
        invariant
            n == s@.len(),
            i <= n,
            r@ == php_escaped(s@.take(i as int)),
        decreases n - i,
    {
        assert(s@.take(i as int + 1).drop_last() =~= s@.take(i as int));
        let c = s.get_char(i);
        if c == '\\' {
            proof {
                reveal_strlit("\\\\");
            }
            r.append("\\\\");
            assert(r@ =~= php_escaped(s@.take(i as int + 1)));
        } else if c == '"' {
            proof {
                reveal_strlit("\\\"");
            }
            r.append("\\\"");
            assert(r@ =~= php_escaped(s@.take(i as int + 1)));
        } else {
            let piece = s.substring_char(i, i + 1);
            r.append(piece);
            assert(r@ =~= php_escaped(s@.take(i as int + 1)));
        }
        i = i + 1;
    }
    assert(s@.take(n as int) =~= s@);
    r
}

} // verus!
