use vstd::prelude::*;

verus! {

/// `pattern` occurs somewhere in `s`.
pub open spec fn has_infix(s: Seq<char>, pattern: Seq<char>) -> bool {
    exists|i: int| 0 <= i <= s.len() - pattern.len() && #[trigger] s.subrange(i, i + pattern.len()) == pattern
}

/// `s` ends with `pattern`.
pub open spec fn has_suffix(s: Seq<char>, pattern: Seq<char>) -> bool {
    pattern.len() <= s.len() && s.subrange(s.len() - pattern.len(), s.len() as int) == pattern
}

/// A lower-cased executable path names a console program: a PowerShell
/// (`powershell`, `pwsh`) or the command prompt (`cmd.exe`, or a path that
/// ends in `cmd`).
pub open spec fn names_console(lower: Seq<char>) -> bool {
    ||| has_infix(lower, "powershell"@)
    ||| has_infix(lower, "pwsh"@)
    ||| has_infix(lower, "cmd.exe"@)
    ||| has_suffix(lower, "cmd"@)
}

/// `pattern` occurs in `s` exactly when `s` is some text, then the pattern,
/// then more text.
pub proof fn lemma_infix_is_concatenation(s: Seq<char>, pattern: Seq<char>)
    ensures
        has_infix(s, pattern) <==> exists|a: Seq<char>, b: Seq<char>| s == a + pattern + b,
{
    if has_infix(s, pattern) {
        let i = choose|i: int|
            0 <= i <= s.len() - pattern.len() && #[trigger] s.subrange(i, i + pattern.len())
                == pattern;
        let a = s.subrange(0, i);
        let b = s.subrange(i + pattern.len(), s.len() as int);
        assert(s =~= a + pattern + b);
    }
    if exists|a: Seq<char>, b: Seq<char>| s == a + pattern + b {
        let (a, b) = choose|a: Seq<char>, b: Seq<char>| s == a + pattern + b;
        assert(s.subrange(a.len() as int, a.len() + pattern.len() as int) =~= pattern);
    }
}

/// `s` ends with `pattern` exactly when `s` is some text followed by the pattern.
pub proof fn lemma_suffix_is_concatenation(s: Seq<char>, pattern: Seq<char>)
    ensures
        has_suffix(s, pattern) <==> exists|a: Seq<char>| s == a + pattern,
{
    if has_suffix(s, pattern) {
        let a = s.subrange(0, s.len() - pattern.len() as int);
        assert(s =~= a + pattern);
    }
    if exists|a: Seq<char>| s == a + pattern {
        let a = choose|a: Seq<char>| s == a + pattern;
        assert(s.subrange(s.len() - pattern.len(), s.len() as int) =~= pattern);
    }
}

/// A lower-cased path names a console program exactly when "powershell",
/// "pwsh" or "cmd.exe" stands in it as consecutive characters, or it ends in
/// "cmd"; a path with none of these (such as a PowerToys path, which holds
/// "power" but not "powershell") is no console program.
pub proof fn lemma_console_names(lower: Seq<char>)
    ensures
        names_console(lower) <==> {
            ||| exists|a: Seq<char>, b: Seq<char>| lower == a + "powershell"@ + b
            ||| exists|a: Seq<char>, b: Seq<char>| lower == a + "pwsh"@ + b
            ||| exists|a: Seq<char>, b: Seq<char>| lower == a + "cmd.exe"@ + b
            ||| exists|a: Seq<char>| lower == a + "cmd"@
        },
{
    lemma_infix_is_concatenation(lower, "powershell"@);
    lemma_infix_is_concatenation(lower, "pwsh"@);
    lemma_infix_is_concatenation(lower, "cmd.exe"@);
    lemma_suffix_is_concatenation(lower, "cmd"@);
}

/// The lower-case form of `s` that `str::to_lowercase` computes (Unicode
/// lower-casing, which may change the length).
pub uninterp spec fn lowercase(s: Seq<char>) -> Seq<char>;

/// Calls `str::to_lowercase`; its result is named `lowercase` of the
/// argument's characters.  Nothing more is stated of Unicode lower-casing.
#[verifier::external_body]
fn to_lowercase(s: &str) -> (lower: String)
    ensures
        lower@ == lowercase(s@),
{
    s.to_lowercase()
}

/// The characters of `s`, in order.
fn chars_of(s: &str) -> (chars: Vec<char>)
    ensures
        chars@ == s@,
{
    let n = s.unicode_len();
    let mut chars: Vec<char> = Vec::new();
    let mut i: usize = 0;
    while i < n
        invariant
            n == s@.len(),
            i <= n,
            chars@ == s@.subrange(0, i as int),
        decreases n - i,
    {
        chars.push(s.get_char(i));
        i = i + 1;
        assert(chars@ =~= s@.subrange(0, i as int));
    }
    assert(chars@ =~= s@);
    chars
}

/// Whether `pattern` occurs in `s` starting at `start`.
fn matches_at(s: &Vec<char>, pattern: &Vec<char>, start: usize) -> (found: bool)
    requires
        start + pattern@.len() <= s@.len(),
    ensures
        found == (s@.subrange(start as int, start + pattern@.len()) == pattern@),
{
    let slen = s.len();
    let mut k: usize = 0;
    while k < pattern.len()
        invariant
            start + pattern@.len() <= s@.len(),
            slen == s@.len(),
            k <= pattern@.len(),
            forall|j: int| 0 <= j < k ==> s@[start + j] == pattern@[j],
        decreases pattern@.len() - k,
    {
        if s[start + k] != pattern[k] {
            assert(s@.subrange(start as int, start + pattern@.len())[k as int] != pattern@[k as int]);
            return false;
        }
        k = k + 1;
    }
    assert(s@.subrange(start as int, start + pattern@.len()) =~= pattern@);
    true
}

/// Whether `pattern` occurs anywhere in `s`.
fn contains_chars(s: &Vec<char>, pattern: &Vec<char>) -> (found: bool)
    ensures
        found == has_infix(s@, pattern@),
{
    if pattern.len() > s.len() {
        return false;
    }
    let last = s.len() - pattern.len();
    let mut i: usize = 0;
    loop
        invariant
            last == s@.len() - pattern@.len(),
            pattern@.len() <= s@.len(),
            i <= last,
            forall|j: int| 0 <= j < i ==> #[trigger] s@.subrange(j, j + pattern@.len()) != pattern@,
        decreases last - i,
    {
        if matches_at(s, pattern, i) {
            return true;
        }
        if i == last {
            return false;
        }
        i = i + 1;
    }
}

/// Whether `s` ends with `pattern`.
fn ends_with_chars(s: &Vec<char>, pattern: &Vec<char>) -> (found: bool)
    ensures
        found == has_suffix(s@, pattern@),
{
    if pattern.len() > s.len() {
        false
    } else {
        matches_at(s, pattern, s.len() - pattern.len())
    }
}

/// Whether an already lower-cased executable path names a console program.
pub fn is_console_name(lower: &str) -> (console: bool)
    ensures
        console == names_console(lower@),
{
    let s = chars_of(lower);
    contains_chars(&s, &chars_of("powershell"))
        || contains_chars(&s, &chars_of("pwsh"))
        || contains_chars(&s, &chars_of("cmd.exe"))
        || ends_with_chars(&s, &chars_of("cmd"))
}

/// Whether an executable path names a console program, compared without
/// regard to case.
pub fn is_console_app(exe_path: &str) -> (console: bool)
    ensures
        console == names_console(lowercase(exe_path@)),
{
    let lower = to_lowercase(exe_path);
    is_console_name(lower.as_str())
}

/// How the winning program is started.
pub enum LaunchPlan {
    /// A console program: run `shell` with `args`, which opens it in a new
    /// console window.
    ConsoleWindow { shell: String, args: Vec<String> },
    /// On Linux (WSL): translate the Windows path `program` to a Linux path
    /// with `wslpath -u`, then start the translated path.
    TranslatePath { program: String },
    /// Start `program` directly.
    Direct { program: String },
}

/// The shell that opens console programs in a new window: `cmd.exe` on
/// Linux (WSL), `cmd` elsewhere.
pub open spec fn console_shell(on_linux: bool) -> Seq<char> {
    if on_linux { "cmd.exe"@ } else { "cmd"@ }
}

/// Decides how to start `executable` on this platform.
pub fn plan_launch(executable: &str, on_linux: bool) -> (plan: LaunchPlan)
    ensures
        match plan {
            LaunchPlan::ConsoleWindow { shell, args } => {
                &&& names_console(lowercase(executable@))
                &&& shell@ == console_shell(on_linux)
                &&& args@.len() == 4
                &&& args@[0]@ == "/C"@
                &&& args@[1]@ == "start"@
                &&& args@[2]@ == ""@
                &&& args@[3]@ == executable@
            },
            LaunchPlan::TranslatePath { program } => {
                &&& !names_console(lowercase(executable@))
                &&& on_linux
                &&& program@ == executable@
            },
            LaunchPlan::Direct { program } => {
                &&& !names_console(lowercase(executable@))
                &&& !on_linux
                &&& program@ == executable@
            },
        },
{
    if is_console_app(executable) {
        let shell = if on_linux {
            String::from_str("cmd.exe")
        } else {
            String::from_str("cmd")
        };
        let mut args: Vec<String> = Vec::new();
        args.push(String::from_str("/C"));
        args.push(String::from_str("start"));
        args.push(String::from_str(""));
        args.push(String::from_str(executable));
        LaunchPlan::ConsoleWindow { shell, args }
    } else if on_linux {
        LaunchPlan::TranslatePath { program: String::from_str(executable) }
    } else {
        LaunchPlan::Direct { program: String::from_str(executable) }
    }
}

} // verus!
