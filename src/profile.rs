use vstd::prelude::*;

use crate::text::{
    char_seqs, chars_of, contains_chars, contains_seq, joined, lines_chars, lines_of, same_chars,
    string_of, trim_chars, trimmed,
};

verus! {

/// The marker line written above the PATH line in a shell profile.
pub open spec fn marker() -> Seq<char> {
    "# Wallp"@
}

/// `c` as it stands inside a double-quoted shell word.
pub open spec fn escaped_char(c: char) -> Seq<char> {
    if c == '"' {
        seq!['\\', '"']
    } else if c == '$' {
        seq!['\\', '$']
    } else {
        seq![c]
    }
}

/// `s` with every `"` and `$` preceded by a backslash.
pub open spec fn shell_escaped(s: Seq<char>) -> Seq<char>
    decreases s.len(),
{
    if s.len() == 0 {
        Seq::empty()
    } else {
        shell_escaped(s.drop_last()) + escaped_char(s.last())
    }
}

/// `c` as it stands inside a double-quoted PowerShell string.
pub open spec fn powershell_escaped_char(c: char) -> Seq<char> {
    if c == '"' {
        seq!['"', '"']
    } else if c == '`' {
        seq!['`', '`']
    } else if c == '$' {
        seq!['`', '$']
    } else {
        seq![c]
    }
}

/// `s` with `"` doubled, a backtick doubled, and `$` preceded by a backtick.
pub open spec fn powershell_escaped(s: Seq<char>) -> Seq<char>
    decreases s.len(),
{
    if s.len() == 0 {
        Seq::empty()
    } else {
        powershell_escaped(s.drop_last()) + powershell_escaped_char(s.last())
    }
}

/// The profile line that appends `install_dir` to PATH.
pub open spec fn export_line(install_dir: Seq<char>) -> Seq<char> {
    "export PATH=\"$PATH:"@ + shell_escaped(install_dir) + "\""@
}

/// Whether some line of `content`, trimmed, is exactly `line`.
pub open spec fn has_line(content: Seq<char>, line: Seq<char>) -> bool {
    exists|i: int| 0 <= i < lines_of(content).len() && trimmed(#[trigger] lines_of(content)[i]) == line
}

/// Whether a profile line survives the removal of the PATH entry for `export`.
pub open spec fn kept_line(line: Seq<char>, export: Seq<char>) -> bool {
    trimmed(line) != export && !contains_seq(line, marker())
}

pub open spec fn kept_pred(export: Seq<char>) -> spec_fn(Seq<char>) -> bool {
    |line: Seq<char>| kept_line(line, export)
}

/// The shell's startup files, (rc file, login profile): zsh's for "zsh",
/// bash's for anything else.
pub fn get_shell_files(shell: &str) -> (r: (String, String))
    ensures
        shell@ == "zsh"@ ==> r.0@ == ".zshrc"@ && r.1@ == ".zprofile"@,
        shell@ != "zsh"@ ==> r.0@ == ".bashrc"@ && r.1@ == ".bash_profile"@,
{
    if same_chars(&chars_of(shell), &chars_of("zsh")) {
        (".zshrc".to_string(), ".zprofile".to_string())
    } else {
        (".bashrc".to_string(), ".bash_profile".to_string())
    }
}

/// The shell named by a `$SHELL` value: zsh where it mentions "zsh", bash otherwise.
pub fn shell_from_env(shell_path: &str) -> (r: String)
    ensures
        contains_seq(shell_path@, "zsh"@) ==> r@ == "zsh"@,
        !contains_seq(shell_path@, "zsh"@) ==> r@ == "bash"@,
{
    if contains_chars(&chars_of(shell_path), &chars_of("zsh")) {
        "zsh".to_string()
    } else {
        "bash".to_string()
    }
}

/// `s` with every `"` and `$` preceded by a backslash.
pub fn shell_escape(s: &str) -> (r: String)
    ensures
        r@ == shell_escaped(s@),
{
    let v = chars_of(s);
    let mut out: Vec<char> = Vec::new();
    let mut i: usize = 0;
    while i < v.len()
        invariant
            i <= v@.len(),
            v@ == s@,
            out@ == shell_escaped(v@.subrange(0, i as int)),
        decreases v@.len() - i,
    {
        let ghost before = v@.subrange(0, i as int);
        let ghost after = v@.subrange(0, i as int + 1);
        assert(after.drop_last() =~= before);
        assert(after.last() == v@[i as int]);
        let c = v[i];
        if c == '"' || c == '$' {
            out.push('\\');
        }
        out.push(c);
        assert(out@ =~= shell_escaped(after));
        i = i + 1;
    }
    assert(v@.subrange(0, v@.len() as int) =~= v@);
    string_of(&out)
}

/// `s` made safe inside a double-quoted PowerShell string.
pub fn powershell_escape(s: &str) -> (r: String)
    ensures
        r@ == powershell_escaped(s@),
{
    let v = chars_of(s);
    let mut out: Vec<char> = Vec::new();
    let mut i: usize = 0;
    while i < v.len()
        invariant
            i <= v@.len(),
            v@ == s@,
            out@ == powershell_escaped(v@.subrange(0, i as int)),
        decreases v@.len() - i,
    {
        let ghost before = v@.subrange(0, i as int);
        let ghost after = v@.subrange(0, i as int + 1);
        assert(after.drop_last() =~= before);
        assert(after.last() == v@[i as int]);
        let c = v[i];
        if c == '"' {
            out.push('"');
        } else if c == '`' || c == '$' {
            out.push('`');
        }
        out.push(c);
        assert(out@ =~= powershell_escaped(after));
        i = i + 1;
    }
    assert(v@.subrange(0, v@.len() as int) =~= v@);
    string_of(&out)
}

/// The profile line that appends `install_dir` to PATH.
pub fn create_export_line(install_dir: &str) -> (r: String)
    ensures
        r@ == export_line(install_dir@),
{
    let escaped = shell_escape(install_dir);
    let mut line = "export PATH=\"$PATH:".to_string();
    line.append(escaped.as_str());
    line.append("\"");
    line
}

/// Whether some line of `content`, trimmed, is exactly `line`.
fn has_trimmed_line(content: &str, line: &Vec<char>) -> (r: bool)
    ensures
        r == has_line(content@, line@),
{
    let lines = lines_chars(&chars_of(content));
    let mut i: usize = 0;
    while i < lines.len()
        invariant
            i <= lines@.len(),
            char_seqs(lines@) == lines_of(content@),
            forall|j: int| 0 <= j < i ==> trimmed(#[trigger] lines_of(content@)[j]) != line@,
        decreases lines@.len() - i,
    {
        assert(lines@[i as int]@ == lines_of(content@)[i as int]);
        if same_chars(&trim_chars(&lines[i]), line) {
            return true;
        }
        i = i + 1;
    }
    false
}

/// Whether `content` already holds the PATH line for `install_dir`.
pub fn is_path_in_profile(content: &str, install_dir: &str) -> (r: bool)
    ensures
        r == has_line(content@, export_line(install_dir@)),
{
    let export = create_export_line(install_dir);
    has_trimmed_line(content, &chars_of(export.as_str()))
}

/// `content` with the marker and the PATH line for `install_dir` appended,
/// unless it already holds that line.
pub fn add_path_to_profile_content(content: &str, install_dir: &str) -> (r: String)
    ensures
        has_line(content@, export_line(install_dir@)) ==> r@ == content@,
        !has_line(content@, export_line(install_dir@)) ==> r@ == content@ + "\n"@ + marker()
            + "\n"@ + export_line(install_dir@) + "\n"@,
{
    let export = create_export_line(install_dir);
    if has_trimmed_line(content, &chars_of(export.as_str())) {
        return content.to_string();
    }
    let mut out = content.to_string();
    out.append("\n");
    out.append("# Wallp");
    out.append("\n");
    out.append(export.as_str());
    out.append("\n");
    out
}

/// `content` without the PATH line for `install_dir` and without any line
/// holding the marker; the other lines stay, in order, joined by newlines.
pub fn remove_path_from_profile_content(content: &str, install_dir: &str) -> (r: String)
    ensures
        r@ == joined(
            lines_of(content@).filter(kept_pred(export_line(install_dir@))),
            "\n"@,
        ),
{
    let export = chars_of(create_export_line(install_dir).as_str());
    let mark = chars_of("# Wallp");
    let newline = chars_of("\n");
    let lines = lines_chars(&chars_of(content));
    let ghost all = lines_of(content@);
    let ghost keep = kept_pred(export@);
    let mut out: Vec<char> = Vec::new();
    let mut count: usize = 0;
    let mut i: usize = 0;
    while i < lines.len()
        invariant
            i <= lines@.len(),
            char_seqs(lines@) == all,
            keep == kept_pred(export@),
            mark@ == marker(),
            newline@ == "\n"@,
            out@ == joined(all.subrange(0, i as int).filter(keep), "\n"@),
            count == all.subrange(0, i as int).filter(keep).len(),
            count <= i,
        decreases lines@.len() - i,
    {
        let ghost before = all.subrange(0, i as int);
        let ghost after = all.subrange(0, i as int + 1);
        assert(after.drop_last() =~= before);
        assert(after.last() == all[i as int]);
        assert(lines@[i as int]@ == all[i as int]);
        let keep_line = !same_chars(&trim_chars(&lines[i]), &export) && !contains_chars(
            &lines[i],
            &mark,
        );
        assert(keep_line == keep(all[i as int]));
        proof {
            reveal_with_fuel(Seq::filter, 1);
        }
        if keep_line {
            let ghost kept_before = before.filter(keep);
            assert(after.filter(keep) == kept_before.push(all[i as int]));
            if count > 0 {
                let mut k: usize = 0;
                while k < newline.len()
                    invariant
                        k <= newline@.len(),
                        out@ == joined(kept_before, "\n"@) + newline@.subrange(0, k as int),
                    decreases newline@.len() - k,
                {
                    out.push(newline[k]);
                    k = k + 1;
                }
                assert(newline@.subrange(0, newline@.len() as int) =~= newline@);
            }
            let line = &lines[i];
            let ghost out_before = out@;
            let mut k: usize = 0;
            while k < line.len()
                invariant
                    k <= line@.len(),
                    out@ == out_before + line@.subrange(0, k as int),
                decreases line@.len() - k,
            {
                out.push(line[k]);
                k = k + 1;
            }
            assert(line@.subrange(0, line@.len() as int) =~= line@);
            assert(kept_before.push(all[i as int]).drop_last() =~= kept_before);
            if count == 0 {
                assert(kept_before.len() == 0);
                assert(out@ =~= joined(after.filter(keep), "\n"@));
            } else {
                assert(out@ =~= joined(after.filter(keep), "\n"@));
            }
            count = count + 1;
        } else {
            assert(after.filter(keep) == before.filter(keep));
        }
        i = i + 1;
    }
    assert(all.subrange(0, all.len() as int) =~= all);
    string_of(&out)
}

} // verus!
