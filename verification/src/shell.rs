//! Shell environment output: escaping paths and building the
//! configuration script for each shell family.

use vstd::prelude::*;
use vstd::string::StrSliceExecFns;
use vstd::string::StringExecFns;

use crate::strutil::spec_contains_sub;
use crate::strutil::str_contains;
use crate::strutil::str_eq;

verus! {

/// A character sequence expanded character by character.
pub open spec fn spec_escape_chars(s: Seq<char>, f: spec_fn(char) -> Seq<char>) -> Seq<char>
    decreases s.len(),
{
    if s.len() == 0 {
        Seq::<char>::empty()
    } else {
        f(s[0]) + spec_escape_chars(s.drop_first(), f)
    }
}

/// Expansion distributes over concatenation.
pub proof fn lemma_escape_concat(a: Seq<char>, b: Seq<char>, f: spec_fn(char) -> Seq<char>)
    ensures
        spec_escape_chars(a + b, f) == spec_escape_chars(a, f) + spec_escape_chars(b, f),
    decreases a.len(),
{
    if a.len() == 0 {
        assert(a + b =~= b);
        assert(spec_escape_chars(a, f) + spec_escape_chars(b, f) =~= spec_escape_chars(b, f));
    } else {
        assert((a + b).len() > 0);
        assert((a + b)[0] == a[0]);
        assert((a + b).drop_first() =~= a.drop_first() + b);
        lemma_escape_concat(a.drop_first(), b, f);
        assert(spec_escape_chars(a + b, f) =~= spec_escape_chars(a, f) + spec_escape_chars(b, f));
    }
}

/// Expanding one character yields its expansion.
pub proof fn lemma_escape_singleton(c: char, f: spec_fn(char) -> Seq<char>)
    ensures
        spec_escape_chars(seq![c], f) == f(c),
{
    assert(seq![c].drop_first() =~= Seq::<char>::empty());
    assert(spec_escape_chars(Seq::<char>::empty(), f) =~= Seq::<char>::empty());
    assert(spec_escape_chars(seq![c], f) =~= f(c));
}

/// POSIX shells: a single quote becomes `'\''`.
pub open spec fn posix_char(c: char) -> Seq<char> {
    if c == '\'' {
        seq!['\'', '\\', '\'', '\'']
    } else {
        seq![c]
    }
}

/// The POSIX expansion, as one function value.
pub open spec fn posix_f() -> spec_fn(char) -> Seq<char> {
    |c: char| posix_char(c)
}

/// A path escaped for POSIX shells: single-quoted, with internal
/// single quotes broken out.
pub open spec fn spec_escape_posix(s: Seq<char>) -> Seq<char> {
    seq!['\''] + spec_escape_chars(s, posix_f()) + seq!['\'']
}

/// Escapes a path for POSIX shells (bash, zsh, sh).
pub fn escape_for_posix_shell(path: &str) -> (r: String)
    ensures
        r@ == spec_escape_posix(path@),
{
    let n: usize = path.unicode_len();
    let mut out: String = String::from_str("'");
    proof {
        reveal_strlit("'");
        assert("'"@ =~= seq!['\'']);
        assert(path@.take(0) =~= Seq::<char>::empty());
        assert(out@ =~= seq!['\''] + spec_escape_chars(path@.take(0), posix_f()));
    }
    let mut i: usize = 0;
    while i < n
        invariant
            n == path@.len(),
            i <= n,
            out@ == seq!['\''] + spec_escape_chars(path@.take(i as int), posix_f()),
        decreases n - i,
    {
        let c = path.get_char(i);
        if c == '\'' {
            out.append("'\\''");
            proof {
                reveal_strlit("'\\''");
                assert("'\\''"@ =~= seq!['\'', '\\', '\'', '\'']);
            }
        } else {
            out.append(path.substring_char(i, i + 1));
        }
        proof {
            assert(path@.take(i + 1) =~= path@.take(i as int) + seq![path@[i as int]]);
            lemma_escape_concat(path@.take(i as int), seq![path@[i as int]], posix_f());
            lemma_escape_singleton(path@[i as int], posix_f());
            assert(out@ =~= seq!['\''] + spec_escape_chars(path@.take(i + 1), posix_f()));
        }
        i = i + 1;
    }
    out.append("'");
    proof {
        reveal_strlit("'");
        assert(path@.take(n as int) =~= path@);
        assert(out@ =~= spec_escape_posix(path@));
    }
    out
}

/// The fish shell: backslashes, double quotes and dollar signs take
/// a backslash.
pub open spec fn fish_char(c: char) -> Seq<char> {
    if c == '\\' {
        seq!['\\', '\\']
    } else if c == '"' {
        seq!['\\', '"']
    } else if c == '$' {
        seq!['\\', '$']
    } else {
        seq![c]
    }
}

/// The fish expansion, as one function value.
pub open spec fn fish_f() -> spec_fn(char) -> Seq<char> {
    |c: char| fish_char(c)
}

/// A path escaped for fish: double-quoted, with backslashes, double
/// quotes and dollar signs escaped.
pub open spec fn spec_escape_fish(s: Seq<char>) -> Seq<char> {
    seq!['"'] + spec_escape_chars(s, fish_f()) + seq!['"']
}

/// Escapes a path for the fish shell.
pub fn escape_for_fish(path: &str) -> (r: String)
    ensures
        r@ == spec_escape_fish(path@),
{
    let n: usize = path.unicode_len();
    let mut out: String = String::from_str("\"");
    proof {
        reveal_strlit("\"");
        assert("\""@ =~= seq!['"']);
        assert(path@.take(0) =~= Seq::<char>::empty());
        assert(out@ =~= seq!['"'] + spec_escape_chars(path@.take(0), fish_f()));
    }
    let mut i: usize = 0;
    while i < n
        invariant
            n == path@.len(),
            i <= n,
            out@ == seq!['"'] + spec_escape_chars(path@.take(i as int), fish_f()),
        decreases n - i,
    {
        let c = path.get_char(i);
        if c == '\\' {
            out.append("\\\\");
            proof {
                reveal_strlit("\\\\");
                assert("\\\\"@ =~= seq!['\\', '\\']);
            }
        } else if c == '"' {
            out.append("\\\"");
            proof {
                reveal_strlit("\\\"");
                assert("\\\""@ =~= seq!['\\', '"']);
            }
        } else if c == '$' {
            out.append("\\$");
            proof {
                reveal_strlit("\\$");
                assert("\\$"@ =~= seq!['\\', '$']);
            }
        } else {
            out.append(path.substring_char(i, i + 1));
        }
        proof {
            assert(path@.take(i + 1) =~= path@.take(i as int) + seq![path@[i as int]]);
            lemma_escape_concat(path@.take(i as int), seq![path@[i as int]], fish_f());
            lemma_escape_singleton(path@[i as int], fish_f());
            assert(out@ =~= seq!['"'] + spec_escape_chars(path@.take(i + 1), fish_f()));
        }
        i = i + 1;
    }
    out.append("\"");
    proof {
        reveal_strlit("\"");
        assert(path@.take(n as int) =~= path@);
        assert(out@ =~= spec_escape_fish(path@));
    }
    out
}

/// PowerShell: a double quote is doubled.
pub open spec fn powershell_char(c: char) -> Seq<char> {
    if c == '"' {
        seq!['"', '"']
    } else {
        seq![c]
    }
}

/// The PowerShell expansion, as one function value.
pub open spec fn powershell_f() -> spec_fn(char) -> Seq<char> {
    |c: char| powershell_char(c)
}

/// A path escaped for PowerShell; the caller supplies the quotes.
pub open spec fn spec_escape_powershell(s: Seq<char>) -> Seq<char> {
    spec_escape_chars(s, powershell_f())
}

/// Escapes a path for PowerShell.
pub fn escape_for_powershell(path: &str) -> (r: String)
    ensures
        r@ == spec_escape_powershell(path@),
{
    let n: usize = path.unicode_len();
    let mut out: String = String::new();
    proof {
        assert(path@.take(0) =~= Seq::<char>::empty());
        assert(out@ =~= spec_escape_chars(path@.take(0), powershell_f()));
    }
    let mut i: usize = 0;
    while i < n
        invariant
            n == path@.len(),
            i <= n,
            out@ == spec_escape_chars(path@.take(i as int), powershell_f()),
        decreases n - i,
    {
        let c = path.get_char(i);
        if c == '"' {
            out.append("\"\"");
            proof {
                reveal_strlit("\"\"");
                assert("\"\""@ =~= seq!['"', '"']);
            }
        } else {
            out.append(path.substring_char(i, i + 1));
        }
        proof {
            assert(path@.take(i + 1) =~= path@.take(i as int) + seq![path@[i as int]]);
            lemma_escape_concat(path@.take(i as int), seq![path@[i as int]], powershell_f());
            lemma_escape_singleton(path@[i as int], powershell_f());
            assert(out@ =~= spec_escape_chars(path@.take(i + 1), powershell_f()));
        }
        i = i + 1;
    }
    proof {
        assert(path@.take(n as int) =~= path@);
    }
    out
}

/// Windows CMD: percent signs are doubled; carets and the shell's
/// redirection characters take a caret.
pub open spec fn cmd_char(c: char) -> Seq<char> {
    if c == '%' {
        seq!['%', '%']
    } else if c == '^' {
        seq!['^', '^']
    } else if c == '&' {
        seq!['^', '&']
    } else if c == '|' {
        seq!['^', '|']
    } else if c == '<' {
        seq!['^', '<']
    } else if c == '>' {
        seq!['^', '>']
    } else {
        seq![c]
    }
}

/// The CMD expansion, as one function value.
pub open spec fn cmd_f() -> spec_fn(char) -> Seq<char> {
    |c: char| cmd_char(c)
}

/// A path escaped for CMD.
pub open spec fn spec_escape_cmd(s: Seq<char>) -> Seq<char> {
    spec_escape_chars(s, cmd_f())
}

/// Escapes a path for Windows CMD.
pub fn escape_for_cmd(path: &str) -> (r: String)
    ensures
        r@ == spec_escape_cmd(path@),
{
    let n: usize = path.unicode_len();
    let mut out: String = String::new();
    proof {
        assert(path@.take(0) =~= Seq::<char>::empty());
        assert(out@ =~= spec_escape_chars(path@.take(0), cmd_f()));
    }
    let mut i: usize = 0;
    while i < n
        invariant
            n == path@.len(),
            i <= n,
            out@ == spec_escape_chars(path@.take(i as int), cmd_f()),
        decreases n - i,
    {
        let c = path.get_char(i);
        if c == '%' {
            out.append("%%");
            proof {
                reveal_strlit("%%");
                assert("%%"@ =~= seq!['%', '%']);
            }
        } else if c == '^' {
            out.append("^^");
            proof {
                reveal_strlit("^^");
                assert("^^"@ =~= seq!['^', '^']);
            }
        } else if c == '&' {
            out.append("^&");
            proof {
                reveal_strlit("^&");
                assert("^&"@ =~= seq!['^', '&']);
            }
        } else if c == '|' {
            out.append("^|");
            proof {
                reveal_strlit("^|");
                assert("^|"@ =~= seq!['^', '|']);
            }
        } else if c == '<' {
            out.append("^<");
            proof {
                reveal_strlit("^<");
                assert("^<"@ =~= seq!['^', '<']);
            }
        } else if c == '>' {
            out.append("^>");
            proof {
                reveal_strlit("^>");
                assert("^>"@ =~= seq!['^', '>']);
            }
        } else {
            out.append(path.substring_char(i, i + 1));
        }
        proof {
            assert(path@.take(i + 1) =~= path@.take(i as int) + seq![path@[i as int]]);
            lemma_escape_concat(path@.take(i as int), seq![path@[i as int]], cmd_f());
            lemma_escape_singleton(path@[i as int], cmd_f());
            assert(out@ =~= spec_escape_chars(path@.take(i + 1), cmd_f()));
        }
        i = i + 1;
    }
    proof {
        assert(path@.take(n as int) =~= path@);
    }
    out
}

/// The environment script for one shell family: a line putting the
/// bin directory on the PATH, and, when the current toolchain's own
/// script exists, a line sourcing it. Unknown shells get the POSIX
/// form.
pub open spec fn spec_env_script(
    shell: Seq<char>,
    bin_dir: Seq<char>,
    script: Seq<char>,
    script_exists: bool,
) -> Seq<char> {
    if shell == "fish"@ {
        "set -gx PATH "@ + spec_escape_fish(bin_dir) + " $PATH;\n"@ + (if script_exists {
            "source "@ + spec_escape_fish(script) + ";\n"@
        } else {
            Seq::<char>::empty()
        })
    } else if shell == "powershell"@ || shell == "pwsh"@ {
        "$env:Path = \""@ + spec_escape_powershell(bin_dir) + ";$env:Path\";\n"@ + (
        if script_exists {
            ". \""@ + spec_escape_powershell(script) + "\";\n"@
        } else {
            Seq::<char>::empty()
        })
    } else if shell == "cmd"@ {
        "set PATH="@ + spec_escape_cmd(bin_dir) + ";%PATH%\n"@ + (if script_exists {
            "call "@ + spec_escape_cmd(script) + "\n"@
        } else {
            Seq::<char>::empty()
        })
    } else {
        "export PATH="@ + spec_escape_posix(bin_dir) + ":$PATH;\n"@ + (if script_exists {
            "source "@ + spec_escape_posix(script) + ";\n"@
        } else {
            Seq::<char>::empty()
        })
    }
}

/// Builds the environment script for a shell. `script` names the
/// current toolchain's own environment script, and `script_exists`
/// says whether the caller found it on disk.
pub fn env_script(shell: &str, bin_dir: &str, script: &str, script_exists: bool) -> (r: String)
    ensures
        r@ == spec_env_script(shell@, bin_dir@, script@, script_exists),
{
    if str_eq(shell, "fish") {
        let mut out: String = String::from_str("set -gx PATH ");
        out.append(escape_for_fish(bin_dir).as_str());
        out.append(" $PATH;\n");
        if script_exists {
            out.append("source ");
            out.append(escape_for_fish(script).as_str());
            out.append(";\n");
        }
        proof {
            assert(out@ =~= spec_env_script(shell@, bin_dir@, script@, script_exists));
        }
        out
    } else if str_eq(shell, "powershell") || str_eq(shell, "pwsh") {
        let mut out: String = String::from_str("$env:Path = \"");
        out.append(escape_for_powershell(bin_dir).as_str());
        out.append(";$env:Path\";\n");
        if script_exists {
            out.append(". \"");
            out.append(escape_for_powershell(script).as_str());
            out.append("\";\n");
        }
        proof {
            assert(out@ =~= spec_env_script(shell@, bin_dir@, script@, script_exists));
        }
        out
    } else if str_eq(shell, "cmd") {
        let mut out: String = String::from_str("set PATH=");
        out.append(escape_for_cmd(bin_dir).as_str());
        out.append(";%PATH%\n");
        if script_exists {
            out.append("call ");
            out.append(escape_for_cmd(script).as_str());
            out.append("\n");
        }
        proof {
            assert(out@ =~= spec_env_script(shell@, bin_dir@, script@, script_exists));
        }
        out
    } else {
        let mut out: String = String::from_str("export PATH=");
        out.append(escape_for_posix_shell(bin_dir).as_str());
        out.append(":$PATH;\n");
        if script_exists {
            out.append("source ");
            out.append(escape_for_posix_shell(script).as_str());
            out.append(";\n");
        }
        proof {
            assert(out@ =~= spec_env_script(shell@, bin_dir@, script@, script_exists));
        }
        out
    }
}

/// Whether `i` is the position of the last separator of a path.
pub open spec fn spec_is_last_sep(s: Seq<char>, i: int) -> bool {
    &&& 0 <= i < s.len()
    &&& s[i] == '/'
    &&& forall|j: int| i < j < s.len() ==> s[j] != '/'
}

/// The base name of a path: what follows its last separator.
pub open spec fn spec_basename(s: Seq<char>) -> Seq<char> {
    if exists|i: int| spec_is_last_sep(s, i) {
        s.skip((choose|i: int| spec_is_last_sep(s, i)) + 1)
    } else {
        s
    }
}

/// The base name of a path, as an owned string.
pub fn basename_of(path: &str) -> (r: String)
    ensures
        r@ == spec_basename(path@),
{
    let n: usize = path.unicode_len();
    let mut i: usize = n;
    while i > 0
        invariant
            n == path@.len(),
            i <= n,
            forall|j: int| i <= j < n ==> path@[j] != '/',
        decreases i,
    {
        let c = path.get_char(i - 1);
        if c == '/' {
            proof {
                let e: int = i - 1;
                assert(spec_is_last_sep(path@, e));
                let w = choose|w: int| spec_is_last_sep(path@, w);
                if w < e {
                    assert(path@[e] != '/');
                }
                if w > e {
                    assert(path@[w] != '/');
                }
                assert(w == e);
            }
            let rest: &str = path.substring_char(i, n);
            proof {
                assert(rest@ =~= path@.skip(i as int));
            }
            return String::from_str(rest);
        }
        i = i - 1;
    }
    proof {
        if exists|w: int| spec_is_last_sep(path@, w) {
            let w = choose|w: int| spec_is_last_sep(path@, w);
            assert(path@[w] != '/');
        }
    }
    String::from_str(path)
}

/// The shell family a login shell path names: the base name when it
/// is a known shell, else the first of fish, zsh or bash named
/// anywhere in the path, else `sh`.
pub open spec fn spec_classify_shell(s: Seq<char>) -> Seq<char> {
    let base = spec_basename(s);
    if base == "fish"@ {
        "fish"@
    } else if base == "zsh"@ {
        "zsh"@
    } else if base == "bash"@ {
        "bash"@
    } else if base == "ksh"@ || base == "ksh93"@ {
        "ksh"@
    } else if base == "dash"@ {
        "dash"@
    } else if base == "sh"@ {
        "sh"@
    } else if spec_contains_sub(s, "fish"@) {
        "fish"@
    } else if spec_contains_sub(s, "zsh"@) {
        "zsh"@
    } else if spec_contains_sub(s, "bash"@) {
        "bash"@
    } else {
        "sh"@
    }
}

/// Classifies a login shell path into a shell family.
pub fn classify_shell(shell_path: &str) -> (r: String)
    ensures
        r@ == spec_classify_shell(shell_path@),
{
    let base = basename_of(shell_path);
    if str_eq(base.as_str(), "fish") {
        String::from_str("fish")
    } else if str_eq(base.as_str(), "zsh") {
        String::from_str("zsh")
    } else if str_eq(base.as_str(), "bash") {
        String::from_str("bash")
    } else if str_eq(base.as_str(), "ksh") || str_eq(base.as_str(), "ksh93") {
        String::from_str("ksh")
    } else if str_eq(base.as_str(), "dash") {
        String::from_str("dash")
    } else if str_eq(base.as_str(), "sh") {
        String::from_str("sh")
    } else if str_contains(shell_path, "fish") {
        String::from_str("fish")
    } else if str_contains(shell_path, "zsh") {
        String::from_str("zsh")
    } else if str_contains(shell_path, "bash") {
        String::from_str("bash")
    } else {
        String::from_str("sh")
    }
}

} // verus!
