use vstd::prelude::*;

use crate::text::{
    chars_of, concat_text, contains, contains_chars, join_lines, join_with_newlines, lines, lines_of,
    replace_all, replace_chars, same_chars, starts_with, starts_with_chars, string_from_chars,
    trim, trimmed_chars, views_of,
};

verus! {

/// A line with nothing but white space.
pub open spec fn is_blank(line: Seq<char>) -> bool {
    trim(line).len() == 0
}

/// Every `ExecStart=` line becomes `ExecStart=` followed by `cmd`; the indented
/// lines that continue such a line are emptied.
pub open spec fn rewrite_exec_start(lines: Seq<Seq<char>>, cmd: Seq<char>, in_exec: bool) -> Seq<
    Seq<char>,
>
    decreases lines.len(),
{
    if lines.len() == 0 {
        Seq::empty()
    } else {
        let l = lines[0];
        if starts_with(l, "ExecStart="@) {
            seq!["ExecStart="@ + cmd] + rewrite_exec_start(lines.drop_first(), cmd, true)
        } else if in_exec && starts_with(l, "    "@) {
            seq![Seq::<char>::empty()] + rewrite_exec_start(lines.drop_first(), cmd, true)
        } else {
            seq![l] + rewrite_exec_start(lines.drop_first(), cmd, false)
        }
    }
}

/// The lines without the blank lines that follow a blank line.
pub open spec fn squeeze_blank_lines(lines: Seq<Seq<char>>, prev_blank: bool) -> Seq<Seq<char>>
    decreases lines.len(),
{
    if lines.len() == 0 {
        Seq::empty()
    } else {
        let blank = is_blank(lines[0]);
        let rest = squeeze_blank_lines(lines.drop_first(), blank);
        if !blank || !prev_blank {
            seq![lines[0]] + rest
        } else {
            rest
        }
    }
}

/// The template with the user's information filled in: the placeholder home
/// directory `/home/your-username` becomes the user's home directory, then
/// every other `your-username` becomes the user's name.
pub open spec fn personalized(template: Seq<char>, username: Seq<char>, home_dir: Seq<char>) -> Seq<
    char,
> {
    replace_all(
        replace_all(template, "/home/your-username"@, home_dir),
        "your-username"@,
        username,
    )
}

/// The service file: the personalized template with its `ExecStart=` line
/// replaced by the launch command and runs of blank lines reduced to one.
pub open spec fn service_file_lines(
    template: Seq<char>,
    cmd: Seq<char>,
    username: Seq<char>,
    home_dir: Seq<char>,
) -> Seq<Seq<char>> {
    squeeze_blank_lines(
        rewrite_exec_start(lines(personalized(template, username, home_dir)), cmd, false),
        false,
    )
}

fn push_all(out: &mut Vec<char>, w: &Vec<char>)
    ensures
        final(out)@ == old(out)@ + w@,
{
    let mut k: usize = 0;
    while k < w.len()
        invariant
            0 <= k <= w@.len(),
            out@ == old(out)@ + w@.take(k as int),
        decreases w@.len() - k,
    {
        out.push(w[k]);
        assert(w@.take(k + 1) =~= w@.take(k as int).push(w@[k as int]));
        k += 1;
    }
    assert(w@.take(w@.len() as int) =~= w@);
}

/// Writes a systemd unit for llama-server from a template: the user's
/// information is filled in (`/home/your-username` becomes the user's home
/// directory, any other `your-username` the user's name), the
/// `ExecStart=` line runs `cmd` (its indented continuation lines are dropped),
/// and blank lines never follow each other.
pub fn build_systemd_service_file(template: &str, cmd: &str, username: &str, home_dir: &str) -> (r:
    String)
    ensures
        r@ == join_lines(service_file_lines(template@, cmd@, username@, home_dir@)),
{
    let t = chars_of(template);
    proof {
        reveal_strlit("your-username");
        reveal_strlit("/home/your-username");
    }
    let t = replace_chars(&t, &chars_of("/home/your-username"), &chars_of(home_dir));
    let t = replace_chars(&t, &chars_of("your-username"), &chars_of(username));
    let src = lines_of(&t);
    let ghost all = views_of(src@);
    let exec_prefix = chars_of("ExecStart=");
    let indent = chars_of("    ");
    let mut exec_line = chars_of("ExecStart=");
    push_all(&mut exec_line, &chars_of(cmd));
    // Rewrite the `ExecStart=` line.
    let mut rewritten: Vec<Vec<char>> = Vec::new();
    let mut in_exec = false;
    let mut i: usize = 0;
    assert(all.skip(0) =~= all);
    while i < src.len()
        invariant
            0 <= i <= src@.len(),
            all == views_of(src@),
            exec_prefix@ == "ExecStart="@,
            indent@ == "    "@,
            exec_line@ == "ExecStart="@ + cmd@,
            rewrite_exec_start(all, cmd@, false) == views_of(rewritten@) + rewrite_exec_start(
                all.skip(i as int),
                cmd@,
                in_exec,
            ),
        decreases src@.len() - i,
    {
        let ghost rest = all.skip(i as int);
        assert(rest[0] == src@[i as int]@);
        assert(rest.drop_first() =~= all.skip(i + 1));
        let ghost before = views_of(rewritten@);
        let line = &src[i];
        if starts_with_chars(line, &exec_prefix) {
            rewritten.push(exec_line.clone());
            in_exec = true;
        } else if in_exec && starts_with_chars(line, &indent) {
            rewritten.push(Vec::new());
        } else {
            rewritten.push(line.clone());
            in_exec = false;
        }
        assert(views_of(rewritten@) =~= before.push(views_of(rewritten@).last()));
        i += 1;
    }
    assert(all.skip(src@.len() as int) =~= Seq::<Seq<char>>::empty());
    assert(views_of(rewritten@) + Seq::<Seq<char>>::empty() =~= views_of(rewritten@));
    // Drop the blank lines that follow a blank line.
    let ghost rw = views_of(rewritten@);
    let mut kept: Vec<Vec<char>> = Vec::new();
    let mut prev_blank = false;
    let mut j: usize = 0;
    assert(rw.skip(0) =~= rw);
    assert(views_of(kept@) =~= Seq::<Seq<char>>::empty());
    while j < rewritten.len()
        invariant
            0 <= j <= rewritten@.len(),
            rw == views_of(rewritten@),
            squeeze_blank_lines(rw, false) == views_of(kept@) + squeeze_blank_lines(
                rw.skip(j as int),
                prev_blank,
            ),
        decreases rewritten@.len() - j,
    {
        let ghost rest = rw.skip(j as int);
        assert(rest[0] == rewritten@[j as int]@);
        assert(rest.drop_first() =~= rw.skip(j + 1));
        let ghost before = views_of(kept@);
        let line = &rewritten[j];
        let s = string_from_chars(line);
        let blank = trimmed_chars(s.as_str()).len() == 0;
        if !blank || !prev_blank {
            kept.push(line.clone());
            assert(views_of(kept@) =~= before.push(rest[0]));
        } else {
            assert(views_of(kept@) =~= before);
        }
        prev_blank = blank;
        j += 1;
    }
    assert(rw.skip(rewritten@.len() as int) =~= Seq::<Seq<char>>::empty());
    assert(views_of(kept@) + Seq::<Seq<char>>::empty() =~= views_of(kept@));
    let out = join_with_newlines(&kept);
    string_from_chars(&out)
}

/// In the service file no blank line follows another, and every line that
/// starts with `ExecStart=` is the launch command line.
pub proof fn lemma_service_file_shape(
    template: Seq<char>,
    cmd: Seq<char>,
    username: Seq<char>,
    home_dir: Seq<char>,
)
    ensures
        forall|k: int|
            0 <= k < service_file_lines(template, cmd, username, home_dir).len() - 1 ==> !(is_blank(
                #[trigger] service_file_lines(template, cmd, username, home_dir)[k],
            ) && is_blank(service_file_lines(template, cmd, username, home_dir)[k + 1])),
        forall|k: int|
            0 <= k < service_file_lines(template, cmd, username, home_dir).len() && starts_with(
                #[trigger] service_file_lines(template, cmd, username, home_dir)[k],
                "ExecStart="@,
            ) ==> service_file_lines(template, cmd, username, home_dir)[k] == "ExecStart="@ + cmd,
{
    let rw = rewrite_exec_start(lines(personalized(template, username, home_dir)), cmd, false);
    lemma_squeeze_no_adjacent_blanks(rw, false);
    lemma_rewrite_exec_lines(lines(personalized(template, username, home_dir)), cmd, false);
    lemma_squeeze_keeps_lines(rw, false);
}

proof fn lemma_squeeze_no_adjacent_blanks(lines: Seq<Seq<char>>, prev_blank: bool)
    ensures
        forall|k: int|
            0 <= k < squeeze_blank_lines(lines, prev_blank).len() - 1 ==> !(is_blank(
                #[trigger] squeeze_blank_lines(lines, prev_blank)[k],
            ) && is_blank(squeeze_blank_lines(lines, prev_blank)[k + 1])),
        prev_blank && squeeze_blank_lines(lines, prev_blank).len() > 0 ==> !is_blank(
            squeeze_blank_lines(lines, prev_blank)[0],
        ),
    decreases lines.len(),
{
    if lines.len() > 0 {
        let blank = is_blank(lines[0]);
        lemma_squeeze_no_adjacent_blanks(lines.drop_first(), blank);
        let rest = squeeze_blank_lines(lines.drop_first(), blank);
        let r = squeeze_blank_lines(lines, prev_blank);
        if !blank || !prev_blank {
            assert forall|k: int| 0 <= k < r.len() - 1 implies !(is_blank(#[trigger] r[k])
                && is_blank(r[k + 1])) by {
                if k > 0 {
                    assert(r[k] == rest[k - 1]);
                    assert(r[k + 1] == rest[k]);
                } else {
                    assert(r[1] == rest[0]);
                }
            }
        }
    }
}

proof fn lemma_squeeze_keeps_lines(lines: Seq<Seq<char>>, prev_blank: bool)
    ensures
        forall|k: int|
            0 <= k < squeeze_blank_lines(lines, prev_blank).len() ==> lines.contains(
                #[trigger] squeeze_blank_lines(lines, prev_blank)[k],
            ),
    decreases lines.len(),
{
    if lines.len() > 0 {
        let blank = is_blank(lines[0]);
        lemma_squeeze_keeps_lines(lines.drop_first(), blank);
        let rest = squeeze_blank_lines(lines.drop_first(), blank);
        let r = squeeze_blank_lines(lines, prev_blank);
        assert forall|k: int| 0 <= k < r.len() implies lines.contains(#[trigger] r[k]) by {
            if !blank || !prev_blank {
                if k == 0 {
                    assert(lines[0] == r[0]);
                } else {
                    assert(r[k] == rest[k - 1]);
                    let w = choose|w: int|
                        0 <= w < lines.drop_first().len() && lines.drop_first()[w] == rest[k - 1];
                    assert(lines[w + 1] == r[k]);
                }
            } else {
                let w = choose|w: int|
                    0 <= w < lines.drop_first().len() && lines.drop_first()[w] == rest[k];
                assert(lines[w + 1] == r[k]);
            }
        }
    }
}

proof fn lemma_rewrite_exec_lines(lines: Seq<Seq<char>>, cmd: Seq<char>, in_exec: bool)
    ensures
        forall|k: int|
            0 <= k < rewrite_exec_start(lines, cmd, in_exec).len() && starts_with(
                #[trigger] rewrite_exec_start(lines, cmd, in_exec)[k],
                "ExecStart="@,
            ) ==> rewrite_exec_start(lines, cmd, in_exec)[k] == "ExecStart="@ + cmd,
        rewrite_exec_start(lines, cmd, in_exec).len() == lines.len(),
    decreases lines.len(),
{
    if lines.len() > 0 {
        let l = lines[0];
        let next = if starts_with(l, "ExecStart="@) {
            true
        } else if in_exec && starts_with(l, "    "@) {
            true
        } else {
            false
        };
        lemma_rewrite_exec_lines(lines.drop_first(), cmd, next);
        let rest = rewrite_exec_start(lines.drop_first(), cmd, next);
        let r = rewrite_exec_start(lines, cmd, in_exec);
        assert forall|k: int|
            0 <= k < r.len() && starts_with(#[trigger] r[k], "ExecStart="@) implies r[k]
            == "ExecStart="@ + cmd by {
            if k > 0 {
                assert(r[k] == rest[k - 1]);
            } else if !starts_with(l, "ExecStart="@) && in_exec && starts_with(l, "    "@) {
                reveal_strlit("ExecStart=");
                assert(r[0] == Seq::<char>::empty());
            }
        }
    }
}

/// The user the unit is written for: `USER` when it is set, else
/// `USERNAME`, else the template's own placeholder `your-username`.
pub fn service_user(user_var: Option<String>, username_var: Option<String>) -> (r: String)
    ensures
        r@ == (match user_var {
            Some(u) => u@,
            None => match username_var {
                Some(u) => u@,
                None => "your-username"@,
            },
        }),
{
    match user_var {
        Some(u) => u,
        None => match username_var {
            Some(u) => u,
            None => "your-username".to_string(),
        },
    }
}

/// The home directory written into the unit: the user's home directory when
/// it is known, else `/home/<user>`.
pub fn service_home(home_dir: Option<String>, user: &str) -> (r: String)
    ensures
        r@ == (match home_dir {
            Some(h) => h@,
            None => "/home/"@ + user@,
        }),
{
    match home_dir {
        Some(h) => h,
        None => concat_text("/home/", user),
    }
}

// ---------------------------------------------------------------------------
// What `systemctl` reports.
// ---------------------------------------------------------------------------

/// The state shown for the llama-server unit, from the output of
/// `systemctl is-active`: `running` when active, `stopped` when inactive or
/// failed, `unknown` otherwise.
pub open spec fn service_state_spec(output: Seq<char>) -> Seq<char> {
    let s = trim(output);
    if s == "active"@ {
        "running"@
    } else if s == "inactive"@ || s == "failed"@ {
        "stopped"@
    } else {
        "unknown"@
    }
}

pub fn service_state(output: &str) -> (r: String)
    ensures
        r@ == service_state_spec(output@),
{
    let s = trimmed_chars(output);
    if same_chars(&s, &chars_of("active")) {
        "running".to_string()
    } else if same_chars(&s, &chars_of("inactive")) || same_chars(&s, &chars_of("failed")) {
        "stopped".to_string()
    } else {
        "unknown".to_string()
    }
}

/// Whether `systemctl list-unit-files` lists the llama-server unit.
pub fn service_unit_listed(output: &str) -> (r: bool)
    ensures
        r == contains(output@, "llama-server.service"@),
{
    contains_chars(&chars_of(output), &chars_of("llama-server.service"))
}

// ---------------------------------------------------------------------------
// Running `systemctl` through pkexec, and removing the service.
// ---------------------------------------------------------------------------

/// What a privileged command reports: its output when it succeeded,
/// otherwise its error output, or `操作被取消` (the user cancelled the
/// authorization) when it printed none.
pub fn systemctl_outcome(success: bool, stdout: String, stderr: String) -> (r: Result<String, String>)
    ensures
        success ==> (r matches Ok(o) && o@ == stdout@),
        !success ==> (r matches Err(e) && e@ == (if stderr@.len() == 0 {
            "操作被取消"@
        } else {
            stderr@
        })),
{
    if success {
        Ok(stdout)
    } else if stderr.as_str().is_empty() {
        Err("操作被取消".to_string())
    } else {
        Err(stderr)
    }
}

/// The next step of removing the service.
#[derive(Debug)]
pub enum UninstallStep {
    /// Stop the running service (`systemctl stop`).
    Stop,
    /// Delete the unit file.
    RemoveUnit,
    /// Reload systemd's configuration; its outcome does not matter.
    Reload,
    /// Removing is over, with this result.
    Done(Result<String, String>),
}

/// The first step, from the service state (`service_state`): a running
/// service is stopped first.
pub fn uninstall_start(state: &str) -> (r: UninstallStep)
    ensures
        r == (if state@ == "running"@ {
            UninstallStep::Stop
        } else {
            UninstallStep::RemoveUnit
        }),
{
    if same_chars(&chars_of(state), &chars_of("running")) {
        UninstallStep::Stop
    } else {
        UninstallStep::RemoveUnit
    }
}

/// After stopping: a failure ends the removal with that error.
pub fn uninstall_after_stop(stopped: Result<String, String>) -> (r: UninstallStep)
    ensures
        match stopped {
            Ok(_) => r == UninstallStep::RemoveUnit,
            Err(e) => r matches UninstallStep::Done(Err(x)) && x@ == e@,
        },
{
    match stopped {
        Ok(_) => UninstallStep::RemoveUnit,
        Err(e) => UninstallStep::Done(Err(e)),
    }
}

/// After deleting the unit file: on failure the removal ends with the error
/// output, or `删除服务文件失败` when there is none.
pub fn uninstall_after_remove(success: bool, stderr: String) -> (r: UninstallStep)
    ensures
        success ==> r == UninstallStep::Reload,
        !success ==> (r matches UninstallStep::Done(Err(x)) && x@ == (if stderr@.len() == 0 {
            "删除服务文件失败"@
        } else {
            stderr@
        })),
{
    if success {
        UninstallStep::Reload
    } else if stderr.as_str().is_empty() {
        UninstallStep::Done(Err("删除服务文件失败".to_string()))
    } else {
        UninstallStep::Done(Err(stderr))
    }
}

/// After reloading: the service is removed.
pub fn uninstall_after_reload() -> (r: UninstallStep)
    ensures
        r matches UninstallStep::Done(Ok(m)) && m@ == "服务已卸载"@,
{
    UninstallStep::Done(Ok("服务已卸载".to_string()))
}

} // verus!
