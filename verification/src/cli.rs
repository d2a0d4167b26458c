//! Decisions of the command line front end.
use vstd::prelude::*;
use crate::i18n::I18n;

verus! {

/// The text `hay` holds `needle` at some position.
pub open spec fn contains_text(hay: Seq<char>, needle: Seq<char>) -> bool {
    exists|i: int| 0 <= i <= hay.len() - needle.len() && #[trigger] hay.subrange(i, i + needle.len()) == needle
}

/// Whether `needle` occurs in `hay` (as `hay.contains(needle)`).
pub fn text_contains(hay: &str, needle: &str) -> (r: bool)
    ensures
        r == contains_text(hay@, needle@),
{
    let h = crate::text::chars_of(hay);
    let n = crate::text::chars_of(needle);
    if n.len() > h.len() {
        return false;
    }
    let hl = h.len();
    let last = hl - n.len();
    let mut i: usize = 0;
    loop
        invariant
            h@ == hay@,
            n@ == needle@,
            n@.len() <= h@.len(),
            hl == h@.len(),
            last == h@.len() - n@.len(),
            i <= last,
            forall|k: int| 0 <= k < i ==> #[trigger] hay@.subrange(k, k + needle@.len()) != needle@,
        decreases last - i,
    {
        let mut j: usize = 0;
        let mut same = true;
        while j < n.len()
            invariant
                h@ == hay@,
                n@ == needle@,
                n@.len() <= h@.len(),
                hl == h@.len(),
                i <= last,
                last == h@.len() - n@.len(),
                j <= n@.len(),
                same == (forall|m: int| 0 <= m < j ==> h@[i + m] == n@[m]),
            decreases n.len() - j,
        {
            if h[i + j] != n[j] {
                same = false;
            }
            j = j + 1;
        }
        if same {
            assert(hay@.subrange(i as int, i + needle@.len()) =~= needle@);
            return true;
        } else {
            let ghost m = choose|m: int| 0 <= m < n@.len() && h@[i + m] != n@[m];
            assert(hay@.subrange(i as int, i + needle@.len())[m] != needle@[m]);
        }
        if i == last {
            proof {
                if contains_text(hay@, needle@) {
                    let k = choose|k: int|
                        0 <= k <= hay@.len() - needle@.len() && #[trigger] hay@.subrange(
                            k,
                            k + needle@.len(),
                        ) == needle@;
                    assert(hay@.subrange(k, k + needle@.len()) != needle@);
                }
            }
            return false;
        }
        i = i + 1;
    }
}

/// Whether the command registered for start on login already passes
/// `--headless`; a command without it is registered anew.
pub fn startup_command_is_headless(cmd: &str) -> (r: bool)
    ensures
        r == contains_text(cmd@, "--headless"@),
{
    text_contains(cmd, "--headless")
}

/// The argument asks for a background run: `--daemon` or `-d`.
pub open spec fn is_daemon_flag(arg: Seq<char>) -> bool {
    arg == "--daemon"@ || arg == "-d"@
}

/// The arguments after the program name, without the background-run flags.
pub open spec fn child_args(args: Seq<Seq<char>>) -> Seq<Seq<char>>
    decreases args.len(),
{
    if args.len() <= 1 {
        Seq::empty()
    } else if is_daemon_flag(args.last()) {
        child_args(args.drop_last())
    } else {
        child_args(args.drop_last()).push(args.last())
    }
}

/// The arguments of the background process that a `--daemon` run starts: the
/// program's own arguments, the program name and the background-run flags
/// left out, so that the child does not start another.
pub fn daemon_child_args(args: &[String]) -> (r: Vec<String>)
    ensures
        r@.map_values(|a: String| a@) == child_args(args@.map_values(|a: String| a@)),
{
    let ghost views = args@.map_values(|a: String| a@);
    let mut r: Vec<String> = Vec::new();
    if args.len() == 0 {
        assert(r@.map_values(|a: String| a@) =~= child_args(views));
        return r;
    }
    let mut i: usize = 1;
    assert(r@.map_values(|a: String| a@) =~= child_args(views.subrange(0, 1)));
    while i < args.len()
        invariant
            1 <= i <= args@.len(),
            views == args@.map_values(|a: String| a@),
            r@.map_values(|a: String| a@) == child_args(views.subrange(0, i as int)),
        decreases args.len() - i,
    {
        let arg = args[i].as_str();
        assert(views.subrange(0, i + 1).drop_last() =~= views.subrange(0, i as int));
        assert(views.subrange(0, i + 1).last() == arg@);
        if !crate::text::text_eq(arg, "--daemon") && !crate::text::text_eq(arg, "-d") {
            let ghost before = r@;
            r.push(args[i].clone());
            assert(r@.map_values(|a: String| a@) =~= before.map_values(|a: String| a@).push(arg@));
        }
        i = i + 1;
    }
    assert(views.subrange(0, args@.len() as int) =~= views);
    r
}

/// What `str::to_lowercase` returns for a string with these characters
/// (Unicode's full lowercase mapping, which depends on the characters alone).
pub uninterp spec fn lowercase(s: Seq<char>) -> Seq<char>;

/// Calls `str::to_lowercase`.
///
/// Claimed: the result's characters are `lowercase` of the argument's.
#[verifier::external_body]
fn to_lowercase(s: &str) -> (r: String)
    ensures
        r@ == lowercase(s@),
{
    s.to_lowercase()
}

/// Whether windows are shown: never with `--headless`, always with `--gui`,
/// and otherwise when the parent process is the Explorer, that is, when the
/// program was started by a double click.
pub fn display_gui(headless: bool, gui: bool, parent_process: Option<&str>) -> (r: bool)
    ensures
        r == (if headless {
            false
        } else if gui {
            true
        } else {
            match parent_process {
                Some(name) => contains_text(lowercase(name@), "explorer.exe"@),
                None => false,
            }
        }),
{
    if headless {
        false
    } else if gui {
        true
    } else {
        match parent_process {
            Some(name) => {
                let lower = to_lowercase(name);
                text_contains(lower.as_str(), "explorer.exe")
            },
            None => false,
        }
    }
}

/// What `--startup` asks for.
#[derive(Clone, Copy, Debug, PartialEq, Eq, Structural)]
pub enum ToggleAction {
    Enable,
    Disable,
    Show,
}

/// What a `--startup` run does.
#[derive(Clone, Copy, Debug, PartialEq, Eq, Structural)]
pub enum StartupPlan {
    /// Print the status of both startups.
    ShowStatus,
    /// Machine-level startup needs elevation: print the refusal and the hint
    /// about `--user`.
    PermissionDenied,
    /// A startup is enabled already: print so and change nothing.
    AlreadyEnabled,
    /// Enable the task scheduler startup (`task`) or the registry one.
    Enable { task: bool },
    /// Disable the registry startup, and the task one too when `task_too`.
    Disable { task_too: bool },
}

/// The plan of a `--startup` run, from the action, the `--user` flag, whether
/// this process is elevated and which startups are enabled.
pub fn startup_plan(
    action: ToggleAction,
    user: bool,
    elevated: bool,
    reg_enabled: bool,
    task_enabled: bool,
) -> (p: StartupPlan)
    ensures
        p == (if action == ToggleAction::Show {
            StartupPlan::ShowStatus
        } else if !user && !elevated {
            StartupPlan::PermissionDenied
        } else if action == ToggleAction::Enable {
            if reg_enabled || task_enabled {
                StartupPlan::AlreadyEnabled
            } else {
                StartupPlan::Enable { task: !user }
            }
        } else {
            StartupPlan::Disable { task_too: elevated }
        }),
{
    match action {
        ToggleAction::Show => StartupPlan::ShowStatus,
        _ => {
            if !user && !elevated {
                StartupPlan::PermissionDenied
            } else {
                match action {
                    ToggleAction::Enable => {
                        if reg_enabled || task_enabled {
                            StartupPlan::AlreadyEnabled
                        } else {
                            StartupPlan::Enable { task: !user }
                        }
                    },
                    _ => StartupPlan::Disable { task_too: elevated },
                }
            }
        },
    }
}

/// The notice shown when the instance starts in the background, with the
/// warning about missing administrator rights when not elevated.
pub fn background_notice(i18n: &I18n, elevated: bool) -> (s: String)
    ensures
        s@ == (if elevated {
            i18n.background_started@
        } else {
            i18n.background_started@ + "\n"@ + i18n.admin_privilege_warning@
        }),
{
    let mut s = String::from_str(i18n.background_started);
    if !elevated {
        s.append("\n");
        s.append(i18n.admin_privilege_warning);
    }
    s
}

} // verus!
