use vstd::prelude::*;
use crate::chars::{chars_of, string_of_chars};

verus! {

/// An ASCII uppercase letter mapped to its lowercase form; any other
/// character is unchanged.
pub open spec fn ascii_lower_char(c: char) -> char {
    if 'A' <= c && c <= 'Z' {
        (((c as u8) + 32) as u8) as char
    } else {
        c
    }
}

/// A character sequence with every ASCII uppercase letter lowercased.
pub open spec fn lower_seq(s: Seq<char>) -> Seq<char> {
    s.map(|i: int, c: char| ascii_lower_char(c))
}

/// A character sequence with every occurrence of `localhost` replaced by the
/// loopback numeric address, scanning left to right.
pub open spec fn replace_localhost(s: Seq<char>) -> Seq<char>
    decreases s.len(),
{
    if s.len() == 0 {
        s
    } else if s.len() >= 9 && s.subrange(0, 9) == "localhost"@ {
        "127.0.0.1"@ + replace_localhost(s.skip(9))
    } else {
        seq![s[0]] + replace_localhost(s.skip(1))
    }
}

/// The rewriting applied to a configured proxy before it is handed to the
/// package manager: lowercase it, then replace `localhost` with
/// `127.0.0.1`, which the managed binary can resolve without environment
/// information.
pub open spec fn remap_proxy_spec(s: Seq<char>) -> Seq<char> {
    replace_localhost(lower_seq(s))
}

fn ascii_lower(c: char) -> (r: char)
    ensures
        r == ascii_lower_char(c),
{
    if c >= 'A' && c <= 'Z' {
        ((c as u8) + 32) as char
    } else {
        c
    }
}

fn lower_chars(v: &Vec<char>) -> (r: Vec<char>)
    ensures
        r@ == lower_seq(v@),
{
    let mut r: Vec<char> = Vec::new();
    let mut i: usize = 0;
    while i < v.len()
        invariant
            i <= v@.len(),
            r@.len() == i,
            forall|j: int| 0 <= j < i ==> r@[j] == ascii_lower_char(v@[j]),
        decreases v@.len() - i,
    {
        r.push(ascii_lower(v[i]));
        i = i + 1;
    }
    proof {
        assert(r@ =~= lower_seq(v@));
    }
    r
}

fn is_localhost_at(v: &Vec<char>, i: usize) -> (r: bool)
    requires
        i <= v@.len(),
    ensures
        r == (i + 9 <= v@.len() && v@.subrange(i as int, i as int + 9) == "localhost"@),
{
    proof {
        reveal_strlit("localhost");
    }
    if v.len() - i < 9 {
        return false;
    }
    let matched = v[i] == 'l' && v[i + 1] == 'o' && v[i + 2] == 'c' && v[i + 3] == 'a' && v[i + 4]
        == 'l' && v[i + 5] == 'h' && v[i + 6] == 'o' && v[i + 7] == 's' && v[i + 8] == 't';
    proof {
        let sub = v@.subrange(i as int, i as int + 9);
        assert(sub[0] == v@[i as int] && sub[1] == v@[i as int + 1] && sub[2] == v@[i as int + 2]
            && sub[3] == v@[i as int + 3] && sub[4] == v@[i as int + 4] && sub[5] == v@[i as int
            + 5] && sub[6] == v@[i as int + 6] && sub[7] == v@[i as int + 7] && sub[8] == v@[i
            as int + 8]);
        if matched {
            assert(sub =~= "localhost"@);
        } else if sub == "localhost"@ {
            assert(sub[0] == "localhost"@[0] && sub[1] == "localhost"@[1] && sub[2]
                == "localhost"@[2] && sub[3] == "localhost"@[3] && sub[4] == "localhost"@[4]
                && sub[5] == "localhost"@[5] && sub[6] == "localhost"@[6] && sub[7]
                == "localhost"@[7] && sub[8] == "localhost"@[8]);
            assert(false);
        }
    }
    matched
}

fn replace_localhost_chars(v: &Vec<char>) -> (r: Vec<char>)
    ensures
        r@ == replace_localhost(v@),
{
    let mut r: Vec<char> = Vec::new();
    let mut i: usize = 0;
    proof {
        assert(v@.skip(0) =~= v@);
        assert(r@ + replace_localhost(v@) =~= replace_localhost(v@));
    }
    while i < v.len()
        invariant
            i <= v@.len(),
            replace_localhost(v@) =~= r@ + replace_localhost(v@.skip(i as int)),
        decreases v@.len() - i,
    {
        if is_localhost_at(v, i) {
            let ghost pre = r@;
            r.push('1');
            r.push('2');
            r.push('7');
            r.push('.');
            r.push('0');
            r.push('.');
            r.push('0');
            r.push('.');
            r.push('1');
            proof {
                reveal_strlit("127.0.0.1");
                assert(r@ =~= pre + "127.0.0.1"@);
                assert(v@.skip(i as int).subrange(0, 9) =~= v@.subrange(i as int, i as int + 9));
                assert(v@.skip(i as int).skip(9) =~= v@.skip(i as int + 9));
                assert(replace_localhost(v@.skip(i as int)) == "127.0.0.1"@ + replace_localhost(
                    v@.skip(i as int + 9),
                ));
                assert(replace_localhost(v@) =~= r@ + replace_localhost(v@.skip(i as int + 9)));
            }
            i = i + 9;
        } else {
            let ghost pre = r@;
            r.push(v[i]);
            proof {
                let rest = v@.skip(i as int);
                assert(rest.len() > 0);
                if rest.len() >= 9 {
                    assert(rest.subrange(0, 9) =~= v@.subrange(i as int, i as int + 9));
                }
                assert(rest[0] == v@[i as int]);
                assert(rest.skip(1) =~= v@.skip(i as int + 1));
                assert(replace_localhost(rest) == seq![v@[i as int]] + replace_localhost(
                    v@.skip(i as int + 1),
                ));
                assert(r@ =~= pre + seq![v@[i as int]]);
                assert(replace_localhost(v@) =~= r@ + replace_localhost(v@.skip(i as int + 1)));
            }
            i = i + 1;
        }
    }
    proof {
        assert(v@.skip(v@.len() as int) =~= Seq::<char>::empty());
        assert(replace_localhost(Seq::<char>::empty()).len() == 0);
        assert(r@ =~= replace_localhost(v@));
    }
    r
}

/// Rewrites a configured proxy for the package manager: ASCII-lowercases it
/// and replaces `localhost` with its loopback numeric address.
pub fn remap_proxy(proxy: &str) -> (r: String)
    ensures
        r@ == remap_proxy_spec(proxy@),
{
    let chars = chars_of(proxy);
    let lowered = lower_chars(&chars);
    let replaced = replace_localhost_chars(&lowered);
    string_of_chars(&replaced)
}

} // verus!
