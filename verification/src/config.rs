//! The configuration types the menu works on: an ordered list of named,
//! invocable shells. Loading and saving the configuration is the caller's
//! concern; the types here carry what the menu needs to render a label and
//! to report which position was chosen, plus the invocation details the
//! caller maps the chosen position back to.

use vstd::prelude::*;
use vstd::string::StrSliceExecFns;

verus! {

/// An environment variable to pass to a shell process.
#[derive(Debug, Clone)]
pub struct ShellItemEnvironmentVariable {
    /// The name of the environment variable.
    pub name: String,
    /// The value of the environment variable.
    pub value: String,
}

/// Represents a configured shell to choose from.
#[derive(Debug, Clone)]
pub struct ShellItem {
    /// The name of the shell, shown as the menu label.
    pub name: String,
    /// The path to the shell, in its textual form.
    pub path: String,
    /// Arguments to supply to the shell.
    pub args: Vec<String>,
    /// Optional environment variables to pass to the shell.
    pub env_vars: Option<Vec<ShellItemEnvironmentVariable>>,
}

impl ShellItem {
    /// Initialize a new `ShellItem` from a label, a path, borrowed argument
    /// strings and optional environment variables.
    pub fn new(
        name: &str,
        path: String,
        args: Vec<&str>,
        env_vars: Option<Vec<ShellItemEnvironmentVariable>>,
    ) -> (r: ShellItem)
        ensures
            r.name@ == name@,
            r.path@ == path@,
            r.args@.len() == args@.len(),
            forall|i: int| 0 <= i < args@.len() ==> r.args@[i]@ == args@[i]@,
            r.env_vars == env_vars,
    {
        let mut owned_args: Vec<String> = Vec::new();
        let mut i: usize = 0;
        while i < args.len()
            invariant
                i <= args@.len(),
                owned_args@.len() == i,
                forall|j: int| 0 <= j < i ==> owned_args@[j]@ == args@[j]@,
            decreases args@.len() - i,
        {
            owned_args.push(args[i].to_owned());
            i += 1;
        }
        ShellItem { name: name.to_owned(), path, args: owned_args, env_vars }
    }
}

/// Config file for the picker.
#[derive(Debug, Clone)]
pub struct ConfigFile {
    /// Shells to choose from.
    pub shells: Vec<ShellItem>,
}

/// The suffix of `s` after its last '/'; `s` itself when no '/' occurs.
pub open spec fn after_last_slash(s: Seq<char>) -> Seq<char>
    decreases s.len(),
{
    if s.len() == 0 {
        s
    } else if s[s.len() - 1] == '/' {
        Seq::<char>::empty()
    } else {
        after_last_slash(s.drop_last()).push(s[s.len() - 1])
    }
}

/// The path's final component, resolved as `Path::file_name` resolves
/// it: trailing separators and lone '.' components are skipped, and the
/// empty sequence stands for a path with no final component. A final
/// ".." component is returned as it is; the caller treats it as absent.
pub open spec fn last_component(s: Seq<char>) -> Seq<char>
    decreases s.len(),
{
    if s.len() == 0 {
        s
    } else if s[s.len() - 1] == '/' {
        last_component(s.drop_last())
    } else {
        let chunk = after_last_slash(s);
        if chunk.len() == 1 && chunk[0] == '.' {
            last_component(s.drop_last())
        } else {
            chunk
        }
    }
}

/// The display name for a shell at a given path: the path's final
/// component, or "Default" when the path has none — when it is empty or
/// consists of separators and '.' components, or ends in a ".."
/// component.
pub open spec fn display_name_of(s: Seq<char>) -> Seq<char> {
    let c = last_component(s);
    if c.len() == 0 || (c.len() == 2 && c[0] == '.' && c[1] == '.') {
        "Default"@
    } else {
        c
    }
}

/// `after_last_slash(u)` is the stretch from `k` to the end, whenever
/// position `k` sits right after a '/' (or at the start) and no '/'
/// occurs from `k` on.
proof fn lemma_after_last_slash_at(u: Seq<char>, k: int)
    requires
        0 <= k <= u.len(),
        forall|j: int| k <= j < u.len() ==> u[j] != '/',
        k == 0 || u[k - 1] == '/',
    ensures
        after_last_slash(u) == u.subrange(k, u.len() as int),
    decreases u.len(),
{
    if u.len() == 0 {
        assert(u.subrange(0, 0) =~= u);
    } else if k == u.len() {
        assert(after_last_slash(u) =~= u.subrange(k, u.len() as int));
    } else {
        let v = u.drop_last();
        lemma_after_last_slash_at(v, k);
        assert(v.subrange(k, v.len() as int).push(u[u.len() - 1]) =~= u.subrange(
            k,
            u.len() as int,
        ));
    }
}

/// The label to show for a shell whose path is `path`: the path's final
/// component, with "Default" as the fallback.
pub fn shell_display_name(path: &str) -> (r: String)
    ensures
        r@ == display_name_of(path@),
{
    let len = path.unicode_len();
    let mut end: usize = len;
    proof {
        assert(path@.subrange(0, len as int) =~= path@);
    }
    loop
        invariant
            end <= len,
            len == path@.len(),
            last_component(path@) == last_component(path@.subrange(0, end as int)),
        decreases end,
    {
        if end == 0 {
            proof {
                assert(path@.subrange(0, 0) =~= Seq::<char>::empty());
            }
            return "Default".to_owned();
        }
        let c = path.get_char(end - 1);
        if c == '/' {
            proof {
                assert(path@.subrange(0, end as int).drop_last() =~= path@.subrange(
                    0,
                    end - 1,
                ));
            }
            end -= 1;
        } else {
            let mut start: usize = end;
            while start > 0 && path.get_char(start - 1) != '/'
                invariant
                    start <= end,
                    end <= len,
                    len == path@.len(),
                    forall|j: int| start <= j < end ==> path@[j] != '/',
                decreases start,
            {
                start -= 1;
            }
            proof {
                let prefix = path@.subrange(0, end as int);
                lemma_after_last_slash_at(prefix, start as int);
                assert(prefix.subrange(start as int, end as int) =~= path@.subrange(
                    start as int,
                    end as int,
                ));
            }
            if end - start == 1 && path.get_char(start) == '.' {
                proof {
                    assert(path@.subrange(0, end as int).drop_last() =~= path@.subrange(
                        0,
                        end - 1,
                    ));
                }
                end -= 1;
            } else if end - start == 2 && path.get_char(start) == '.' && path.get_char(start + 1)
                == '.' {
                return "Default".to_owned();
            } else {
                return path.substring_char(start, end).to_owned();
            }
        }
    }
}

impl ConfigFile {
    /// The built-in fallback configuration for Windows: PowerShell and the
    /// command prompt, each without arguments or environment variables.
    pub fn base_windows() -> (r: ConfigFile)
        ensures
            r.shells@.len() == 2,
            r.shells@[0].name@ == "PowerShell"@,
            r.shells@[0].path@ == "C:\\Windows\\System32\\WindowsPowerShell\\v1.0\\powershell.exe"@,
            r.shells@[0].args@.len() == 0,
            r.shells@[0].env_vars is None,
            r.shells@[1].name@ == "Command Prompt"@,
            r.shells@[1].path@ == "C:\\Windows\\System32\\cmd.exe"@,
            r.shells@[1].args@.len() == 0,
            r.shells@[1].env_vars is None,
    {
        let mut shells: Vec<ShellItem> = Vec::new();
        shells.push(
            ShellItem::new(
                "PowerShell",
                "C:\\Windows\\System32\\WindowsPowerShell\\v1.0\\powershell.exe".to_owned(),
                Vec::new(),
                None,
            ),
        );
        shells.push(
            ShellItem::new(
                "Command Prompt",
                "C:\\Windows\\System32\\cmd.exe".to_owned(),
                Vec::new(),
                None,
            ),
        );
        ConfigFile { shells }
    }

    /// The built-in fallback configuration elsewhere: the caller's default
    /// shell as the single entry, labelled by its path's file name.
    pub fn base_unix(default_shell: &str) -> (r: ConfigFile)
        ensures
            r.shells@.len() == 1,
            r.shells@[0].name@ == display_name_of(default_shell@),
            r.shells@[0].path@ == default_shell@,
            r.shells@[0].args@.len() == 0,
            r.shells@[0].env_vars is None,
    {
        let name = shell_display_name(default_shell);
        let mut shells: Vec<ShellItem> = Vec::new();
        shells.push(ShellItem::new(name.as_str(), default_shell.to_owned(), Vec::new(), None));
        ConfigFile { shells }
    }
}

} // verus!
