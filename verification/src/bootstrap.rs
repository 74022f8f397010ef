//! Decision logic of the environment bootstrap: reading the distribution
//! identifier out of an os-release text, and choosing the package-manager
//! command that installs a browser for it. Running commands and reading files
//! are the caller's part.

use crate::strutil::{
    find_char_in, lemma_find_char_props, match_at, match_at_exec, spec_lines, split_lines,
};
use vstd::prelude::*;
use vstd::string::{StrSliceExecFns, StringExecFns};

verus! {

/// Leading double quotes removed.
pub open spec fn trim_leading_quotes(s: Seq<char>) -> Seq<char>
    decreases s.len(),
{
    if s.len() > 0 && s[0] == '"' {
        trim_leading_quotes(s.skip(1))
    } else {
        s
    }
}

/// Trailing double quotes removed.
pub open spec fn trim_trailing_quotes(s: Seq<char>) -> Seq<char>
    decreases s.len(),
{
    if s.len() > 0 && s[s.len() - 1] == '"' {
        trim_trailing_quotes(s.take(s.len() - 1))
    } else {
        s
    }
}

/// Double quotes removed from both ends.
pub open spec fn trim_quotes(s: Seq<char>) -> Seq<char> {
    trim_trailing_quotes(trim_leading_quotes(s))
}

/// A copy of `s` with double quotes removed from both ends.
fn trim_quotes_str(s: &str) -> (r: String)
    ensures
        r@ == trim_quotes(s@),
{
    let n = s.unicode_len();
    let mut lo: usize = 0;
    proof {
        assert(s@.skip(0) =~= s@);
    }
    while lo < n && s.get_char(lo) == '"'
        invariant
            n == s@.len(),
            lo <= n,
            trim_leading_quotes(s@) == trim_leading_quotes(s@.skip(lo as int)),
        decreases n - lo,
    {
        proof {
            assert(s@.skip(lo as int)[0] == s@[lo as int]);
            assert(s@.skip(lo as int).skip(1) =~= s@.skip(lo + 1));
        }
        lo += 1;
    }
    proof {
        if lo < n {
            assert(s@.skip(lo as int)[0] == s@[lo as int]);
            assert(trim_leading_quotes(s@.skip(lo as int)) == s@.skip(lo as int));
        } else {
            assert(s@.skip(lo as int) =~= Seq::<char>::empty());
        }
    }
    let mut hi: usize = n;
    while hi > lo && s.get_char(hi - 1) == '"'
        invariant
            n == s@.len(),
            lo <= hi <= n,
            trim_trailing_quotes(s@.skip(lo as int)) == trim_trailing_quotes(
                s@.subrange(lo as int, hi as int),
            ),
        decreases hi,
    {
        proof {
            let piece = s@.subrange(lo as int, hi as int);
            assert(piece[piece.len() - 1] == s@[hi - 1]);
            assert(piece.take(piece.len() - 1) =~= s@.subrange(lo as int, hi - 1));
        }
        hi -= 1;
    }
    proof {
        let piece = s@.subrange(lo as int, hi as int);
        if hi > lo {
            assert(piece[piece.len() - 1] == s@[hi - 1]);
            assert(trim_trailing_quotes(piece) == piece);
        } else {
            assert(piece =~= Seq::<char>::empty());
        }
        assert(s@.skip(lo as int) =~= s@.subrange(lo as int, n as int));
    }
    let piece = s.substring_char(lo, hi);
    piece.to_owned()
}

/// The marker that opens a distribution-identifier line.
pub open spec fn id_prefix() -> Seq<char> {
    "ID="@
}

/// The value of the first `ID=` line, double quotes trimmed.
pub open spec fn first_id_value(lines: Seq<Seq<char>>) -> Option<Seq<char>>
    decreases lines.len(),
{
    if lines.len() == 0 {
        None
    } else if match_at(lines[0], id_prefix(), 0) {
        Some(trim_quotes(lines[0].skip(3)))
    } else {
        first_id_value(lines.skip(1))
    }
}

/// The distribution identifier given by an os-release text: the value of its
/// first `ID=` line, double quotes trimmed; `None` when no such line exists.
pub open spec fn spec_os_release_id(content: Seq<char>) -> Option<Seq<char>> {
    first_id_value(spec_lines(content))
}

/// Read the distribution identifier out of an os-release text.
pub fn parse_os_release_id(content: &str) -> (r: Option<String>)
    ensures
        r.deep_view() == spec_os_release_id(content@),
{
    let lines = split_lines(content);
    let mut i: usize = 0;
    proof {
        reveal_strlit("ID=");
        assert(id_prefix().len() == 3);
        assert(lines.deep_view().skip(0) =~= lines.deep_view());
    }
    while i < lines.len()
        invariant
            lines.deep_view() == spec_lines(content@),
            i <= lines@.len(),
            id_prefix().len() == 3,
            first_id_value(lines.deep_view()) == first_id_value(
                lines.deep_view().skip(i as int),
            ),
        decreases lines@.len() - i,
    {
        let ghost tail = lines.deep_view().skip(i as int);
        proof {
            assert(tail[0] == lines.deep_view()[i as int]);
            assert(lines.deep_view()[i as int] == lines@[i as int]@);
            assert(tail.skip(1) =~= lines.deep_view().skip(i + 1));
        }
        let line = lines[i].as_str();
        let ln = line.unicode_len();
        let is_id_line = if ln >= 3 {
            match_at_exec(line, "ID=", 0)
        } else {
            proof {
                assert(!match_at(line@, id_prefix(), 0));
            }
            false
        };
        if is_id_line {
            let value = trim_quotes_str(line.substring_char(3, ln));
            proof {
                assert(line@.subrange(3, ln as int) =~= line@.skip(3));
            }
            return Some(value);
        }
        i += 1;
    }
    proof {
        assert(lines.deep_view().skip(i as int) =~= Seq::<Seq<char>>::empty());
    }
    None
}

/// The package-manager command (program and arguments) that installs a
/// browser on a given Linux distribution; `None` for an unsupported one.
pub open spec fn spec_install_command(distro: Seq<char>) -> Option<Seq<Seq<char>>> {
    if distro == "arch"@ || distro == "manjaro"@ {
        Some(seq!["sudo"@, "pacman"@, "-S"@, "--noconfirm"@, "chromium"@])
    } else if distro == "ubuntu"@ || distro == "debian"@ {
        Some(seq!["sudo"@, "apt-get"@, "install"@, "-y"@, "chromium-browser"@])
    } else if distro == "fedora"@ {
        Some(seq!["sudo"@, "dnf"@, "install"@, "-y"@, "chromium"@])
    } else {
        None
    }
}

fn argv5(a: &str, b: &str, c: &str, d: &str, e: &str) -> (r: Vec<String>)
    ensures
        r.deep_view() =~= seq![a@, b@, c@, d@, e@],
{
    let mut cmd: Vec<String> = Vec::new();
    cmd.push(String::from_str(a));
    cmd.push(String::from_str(b));
    cmd.push(String::from_str(c));
    cmd.push(String::from_str(d));
    cmd.push(String::from_str(e));
    proof {
        assert(cmd.deep_view() =~= seq![a@, b@, c@, d@, e@]);
    }
    cmd
}

/// Choose the install command for a distribution.
pub fn install_command_for_distro(distro: &str) -> (r: Option<Vec<String>>)
    ensures
        r.deep_view() == spec_install_command(distro@),
{
    if crate::strutil::str_eq(distro, "arch") || crate::strutil::str_eq(distro, "manjaro") {
        Some(argv5("sudo", "pacman", "-S", "--noconfirm", "chromium"))
    } else if crate::strutil::str_eq(distro, "ubuntu") || crate::strutil::str_eq(
        distro,
        "debian",
    ) {
        Some(argv5("sudo", "apt-get", "install", "-y", "chromium-browser"))
    } else if crate::strutil::str_eq(distro, "fedora") {
        Some(argv5("sudo", "dnf", "install", "-y", "chromium"))
    } else {
        None
    }
}

} // verus!
