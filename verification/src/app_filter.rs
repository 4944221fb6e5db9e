//! Which application has the focus, whether correction is switched off
//! there, and the list of running applications offered in the settings.

use vstd::prelude::*;
use crate::text::{lowercase, str_eq, str_less, text_less, to_lowercase};
use crate::text::{lemma_text_less_total, lemma_text_less_transitive};

verus! {

broadcast use vstd::string::group_string_axioms;

/// The file name in a Windows path: what follows its last backslash, or the
/// whole path when it has none.
pub open spec fn file_name(path: Seq<char>) -> Seq<char>
    decreases path.len(),
{
    if path.len() == 0 {
        path
    } else if path.last() == '\\' {
        Seq::empty()
    } else {
        file_name(path.drop_last()).push(path.last())
    }
}

/// The file name is what ends the path after its last backslash: it holds
/// no backslash, and the path is some prefix followed by it.
pub proof fn lemma_file_name_is_last_component(path: Seq<char>)
    ensures
        !file_name(path).contains('\\'),
        file_name(path).len() <= path.len(),
        path == path.take(path.len() - file_name(path).len()) + file_name(path),
    decreases path.len(),
{
    if path.len() > 0 {
        lemma_file_name_is_last_component(path.drop_last());
        if path.last() == '\\' {
            assert(path.take(path.len() as int) =~= path);
            assert(path + Seq::<char>::empty() =~= path);
        } else {
            let f = file_name(path.drop_last());
            let prefix = path.drop_last().take(path.drop_last().len() - f.len());
            assert(path.take(path.len() - (f.len() + 1)) =~= prefix);
            assert(path =~= path.drop_last().push(path.last()));
            assert(prefix + f.push(path.last()) =~= (prefix + f).push(path.last()));
            assert forall|i: int| 0 <= i < f.push(path.last()).len() implies f.push(path.last())[i] != '\\' by {
                if i < f.len() {
                    assert(!f.contains('\\'));
                    assert(f.push(path.last())[i] == f[i]);
                }
            }
        }
    }
}

/// The process name under which an executable is listed: the lower-cased
/// file name of its image path.
pub open spec fn process_name(image_path: Seq<char>) -> Seq<char> {
    lowercase(file_name(image_path))
}

/// The file name of `path`: the part after its last backslash.
pub fn path_file_name(path: &str) -> (r: String)
    ensures
        r@ == file_name(path@),
{
    let total: usize = path.unicode_len();
    let ghost chars = path@;
    let mut start: usize = 0;
    let mut pos: usize = 0;
    for c in it: path.chars()
        invariant
            it.seq() == chars,
            total == chars.len(),
            pos == it.index(),
            pos <= total,
            start <= it.index(),
            file_name(chars.take(it.index() as int)) == chars.subrange(start as int, it.index() as int),
    {
        let ghost k = it.index() as int;
        assert(chars.take(k + 1).drop_last() =~= chars.take(k));
        assert(chars.take(k + 1).last() == c);
        if c == '\\' {
            start = pos + 1;
            assert(chars.subrange(start as int, k + 1) =~= Seq::<char>::empty());
        } else {
            assert(chars.subrange(start as int, k + 1) =~= chars.subrange(start as int, k).push(c));
        }
        pos = pos + 1;
    }
    assert(chars.take(total as int) =~= chars);
    String::from_str(path.substring_char(start, total))
}

/// The name of the application that has the focus, from the image path of
/// its process (`None` when no window has the focus or the path could not
/// be read).
pub fn get_foreground_app(image_path: Option<String>) -> (r: Option<String>)
    ensures
        match image_path {
            Some(p) => r matches Some(name) && name@ == process_name(p@),
            None => r is None,
        },
        opt_view(r) == foreground_name(opt_view(image_path)),
{
    match image_path {
        Some(p) => {
            let file = path_file_name(p.as_str());
            Some(to_lowercase(file.as_str()))
        },
        None => None,
    }
}

/// The view of an optional name.
pub open spec fn opt_view(name: Option<String>) -> Option<Seq<char>> {
    match name {
        Some(n) => Some(n@),
        None => None,
    }
}

/// The name of the focused application given the image path of its process.
pub open spec fn foreground_name(image_path: Option<Seq<char>>) -> Option<Seq<char>> {
    match image_path {
        Some(p) => Some(process_name(p)),
        None => None,
    }
}

/// Correction is switched off in the focused application: its name is, up
/// to case, one of the disabled names.
pub open spec fn app_disabled(disabled_apps: Seq<String>, foreground_app: Option<Seq<char>>) -> bool {
    match foreground_app {
        Some(app) => exists|i: int|
            0 <= i < disabled_apps.len() && lowercase(#[trigger] disabled_apps[i]@) == app,
        None => false,
    }
}

/// Correction is switched off in an application exactly when some entry of
/// the disabled list, at any position, lower-cases to its name.
pub proof fn lemma_app_disabled_any_entry(disabled_apps: Seq<String>, app: Seq<char>, i: int)
    ensures
        0 <= i < disabled_apps.len() && lowercase(disabled_apps[i]@) == app ==> app_disabled(
            disabled_apps,
            Some(app),
        ),
        app_disabled(disabled_apps, Some(app)) ==> exists|j: int|
            0 <= j < disabled_apps.len() && lowercase(#[trigger] disabled_apps[j]@) == app,
        !app_disabled(disabled_apps, None),
{
}

/// Whether correction is switched off in the focused application
/// `foreground_app` (as `get_foreground_app` names it).
#[verifier::loop_isolation(false)]
pub fn is_app_disabled(disabled_apps: &[String], foreground_app: Option<String>) -> (r: bool)
    ensures
        r == app_disabled(disabled_apps@, opt_view(foreground_app)),
        foreground_app is None ==> !r,
        foreground_app matches Some(app) ==> forall|i: int|
            0 <= i < disabled_apps@.len() && lowercase(#[trigger] disabled_apps@[i]@) == app@ ==> r,
        r ==> exists|i: int|
            0 <= i < disabled_apps@.len() && (foreground_app matches Some(app) && lowercase(
                #[trigger] disabled_apps@[i]@,
            ) == app@),
{
    if disabled_apps.len() == 0 {
        return false;
    }
    match foreground_app {
        Some(app) => {
            let mut i: usize = 0;
            while i < disabled_apps.len()
                invariant
                    i <= disabled_apps@.len(),
                    forall|j: int| 0 <= j < i ==> lowercase(#[trigger] disabled_apps@[j]@) != app@,
                decreases disabled_apps@.len() - i,
            {
                let name = to_lowercase(disabled_apps[i].as_str());
                if name == app {
                    assert(lowercase(disabled_apps@[i as int]@) == app@);
                    return true;
                }
                i = i + 1;
            }
            false
        },
        None => false,
    }
}

/// System and background processes left out of the application list.
pub open spec fn hidden_process(name: Seq<char>) -> bool {
    ||| name == "system"@
    ||| name == "system idle process"@
    ||| name == "registry"@
    ||| name == "smss.exe"@
    ||| name == "csrss.exe"@
    ||| name == "wininit.exe"@
    ||| name == "services.exe"@
    ||| name == "lsass.exe"@
    ||| name == "svchost.exe"@
    ||| name == "fontdrvhost.exe"@
    ||| name == "dwm.exe"@
    ||| name == "conhost.exe"@
    ||| name == "sihost.exe"@
    ||| name == "taskhostw.exe"@
    ||| name == "ctfmon.exe"@
    ||| name == "dllhost.exe"@
    ||| name == "runtimebroker.exe"@
    ||| name == "searchhost.exe"@
    ||| name == "startmenuexperiencehost.exe"@
    ||| name == "shellexperiencehost.exe"@
    ||| name == "textinputhost.exe"@
    ||| name == "widgetservice.exe"@
    ||| name == "securityhealthservice.exe"@
    ||| name == "securityhealthsystray.exe"@
    ||| name == "spoolsv.exe"@
    ||| name == "wudfhost.exe"@
    ||| name == "dashost.exe"@
    ||| name == "audiodg.exe"@
    ||| name == "searchindexer.exe"@
    ||| name == "searchprotocolhost.exe"@
    ||| name == "searchfilterhost.exe"@
    ||| name == "wmiprvse.exe"@
    ||| name == "sgrmbroker.exe"@
    ||| name == "memorystatus.exe"@
    ||| name == "applicationframehost.exe"@
    ||| name == "systemsettings.exe"@
    ||| name == "lockapp.exe"@
    ||| name == "crashpad_handler.exe"@
    ||| name == "backgroundtaskhost.exe"@
    ||| name == "gamebarpresencewriter.exe"@
    ||| name == "textlint.exe"@
}

/// The system and background processes kept out of the application list:
/// each of these names is hidden, and so never offered; no other name is.
pub proof fn lemma_hidden_system_processes()
    ensures
        forall|name: Seq<char>| #[trigger] hidden_process(name) ==> name == "system"@ || name == "system idle process"@ || name == "registry"@ || name == "smss.exe"@ || name == "csrss.exe"@ || name == "wininit.exe"@ || name == "services.exe"@ || name == "lsass.exe"@ || name == "svchost.exe"@ || name == "fontdrvhost.exe"@ || name == "dwm.exe"@ || name == "conhost.exe"@ || name == "sihost.exe"@ || name == "taskhostw.exe"@ || name == "ctfmon.exe"@ || name == "dllhost.exe"@ || name == "runtimebroker.exe"@ || name == "searchhost.exe"@ || name == "startmenuexperiencehost.exe"@ || name == "shellexperiencehost.exe"@ || name == "textinputhost.exe"@ || name == "widgetservice.exe"@ || name == "securityhealthservice.exe"@ || name == "securityhealthsystray.exe"@ || name == "spoolsv.exe"@ || name == "wudfhost.exe"@ || name == "dashost.exe"@ || name == "audiodg.exe"@ || name == "searchindexer.exe"@ || name == "searchprotocolhost.exe"@ || name == "searchfilterhost.exe"@ || name == "wmiprvse.exe"@ || name == "sgrmbroker.exe"@ || name == "memorystatus.exe"@ || name == "applicationframehost.exe"@ || name == "systemsettings.exe"@ || name == "lockapp.exe"@ || name == "crashpad_handler.exe"@ || name == "backgroundtaskhost.exe"@ || name == "gamebarpresencewriter.exe"@ || name == "textlint.exe"@,
        hidden_process("system"@),
        hidden_process("system idle process"@),
        hidden_process("registry"@),
        hidden_process("smss.exe"@),
        hidden_process("csrss.exe"@),
        hidden_process("wininit.exe"@),
        hidden_process("services.exe"@),
        hidden_process("lsass.exe"@),
        hidden_process("svchost.exe"@),
        hidden_process("fontdrvhost.exe"@),
        hidden_process("dwm.exe"@),
        hidden_process("conhost.exe"@),
        hidden_process("sihost.exe"@),
        hidden_process("taskhostw.exe"@),
        hidden_process("ctfmon.exe"@),
        hidden_process("dllhost.exe"@),
        hidden_process("runtimebroker.exe"@),
        hidden_process("searchhost.exe"@),
        hidden_process("startmenuexperiencehost.exe"@),
        hidden_process("shellexperiencehost.exe"@),
        hidden_process("textinputhost.exe"@),
        hidden_process("widgetservice.exe"@),
        hidden_process("securityhealthservice.exe"@),
        hidden_process("securityhealthsystray.exe"@),
        hidden_process("spoolsv.exe"@),
        hidden_process("wudfhost.exe"@),
        hidden_process("dashost.exe"@),
        hidden_process("audiodg.exe"@),
        hidden_process("searchindexer.exe"@),
        hidden_process("searchprotocolhost.exe"@),
        hidden_process("searchfilterhost.exe"@),
        hidden_process("wmiprvse.exe"@),
        hidden_process("sgrmbroker.exe"@),
        hidden_process("memorystatus.exe"@),
        hidden_process("applicationframehost.exe"@),
        hidden_process("systemsettings.exe"@),
        hidden_process("lockapp.exe"@),
        hidden_process("crashpad_handler.exe"@),
        hidden_process("backgroundtaskhost.exe"@),
        hidden_process("gamebarpresencewriter.exe"@),
        hidden_process("textlint.exe"@),
{
}

/// Whether `name` is one of the hidden system processes.
pub fn is_hidden_process(name: &str) -> (r: bool)
    ensures
        r == hidden_process(name@),
{
    str_eq(name, "system")
        || str_eq(name, "system idle process")
        || str_eq(name, "registry")
        || str_eq(name, "smss.exe")
        || str_eq(name, "csrss.exe")
        || str_eq(name, "wininit.exe")
        || str_eq(name, "services.exe")
        || str_eq(name, "lsass.exe")
        || str_eq(name, "svchost.exe")
        || str_eq(name, "fontdrvhost.exe")
        || str_eq(name, "dwm.exe")
        || str_eq(name, "conhost.exe")
        || str_eq(name, "sihost.exe")
        || str_eq(name, "taskhostw.exe")
        || str_eq(name, "ctfmon.exe")
        || str_eq(name, "dllhost.exe")
        || str_eq(name, "runtimebroker.exe")
        || str_eq(name, "searchhost.exe")
        || str_eq(name, "startmenuexperiencehost.exe")
        || str_eq(name, "shellexperiencehost.exe")
        || str_eq(name, "textinputhost.exe")
        || str_eq(name, "widgetservice.exe")
        || str_eq(name, "securityhealthservice.exe")
        || str_eq(name, "securityhealthsystray.exe")
        || str_eq(name, "spoolsv.exe")
        || str_eq(name, "wudfhost.exe")
        || str_eq(name, "dashost.exe")
        || str_eq(name, "audiodg.exe")
        || str_eq(name, "searchindexer.exe")
        || str_eq(name, "searchprotocolhost.exe")
        || str_eq(name, "searchfilterhost.exe")
        || str_eq(name, "wmiprvse.exe")
        || str_eq(name, "sgrmbroker.exe")
        || str_eq(name, "memorystatus.exe")
        || str_eq(name, "applicationframehost.exe")
        || str_eq(name, "systemsettings.exe")
        || str_eq(name, "lockapp.exe")
        || str_eq(name, "crashpad_handler.exe")
        || str_eq(name, "backgroundtaskhost.exe")
        || str_eq(name, "gamebarpresencewriter.exe")
        || str_eq(name, "textlint.exe")
}

/// A process name offered in the application list.
pub open spec fn shown_process(name: Seq<char>) -> bool {
    name.len() > 0 && !hidden_process(name)
}

/// The names are in strictly increasing order (so each appears once).
pub open spec fn strictly_sorted(names: Seq<String>) -> bool {
    forall|i: int, j: int| 0 <= i < j < names.len() ==> text_less(#[trigger] names[i]@, #[trigger] names[j]@)
}

/// `name` is the lower-cased form of one of the executable names.
pub open spec fn lowered_from(exe_names: Seq<String>, name: Seq<char>) -> bool {
    exists|k: int| 0 <= k < exe_names.len() && lowercase(#[trigger] exe_names[k]@) == name
}

/// The application list: the lower-cased executable names of the running
/// processes, without empty names and hidden system processes, each once,
/// in increasing order.
#[verifier::loop_isolation(false)]
pub fn enumerate_running_processes(exe_names: &Vec<String>) -> (r: Vec<String>)
    ensures
        strictly_sorted(r@),
        forall|i: int| 0 <= i < r@.len() ==> shown_process(#[trigger] r@[i]@) && lowered_from(exe_names@, r@[i]@),
        forall|k: int| 0 <= k < exe_names@.len() && shown_process(lowercase(#[trigger] exe_names@[k]@))
            ==> exists|i: int| 0 <= i < r@.len() && r@[i]@ == lowercase(exe_names@[k]@),
{
    let mut apps: Vec<String> = Vec::new();
    for m in 0..exe_names.len()
        invariant
            strictly_sorted(apps@),
            forall|i: int| 0 <= i < apps@.len() ==> shown_process(#[trigger] apps@[i]@) && lowered_from(exe_names@, apps@[i]@),
            forall|k: int| 0 <= k < m && shown_process(lowercase(#[trigger] exe_names@[k]@))
                ==> exists|i: int| 0 <= i < apps@.len() && apps@[i]@ == lowercase(exe_names@[k]@),
    {
        let name = to_lowercase(exe_names[m].as_str());
        let ghost lowered = lowercase(exe_names@[m as int]@);
        assert(lowered == name@);
        if !name.as_str().is_empty() && !is_hidden_process(name.as_str()) {
            let mut p: usize = 0;
            while p < apps.len() && str_less(apps[p].as_str(), name.as_str())
                invariant
                    p <= apps@.len(),
                    forall|j: int| 0 <= j < p ==> text_less(#[trigger] apps@[j]@, name@),
                decreases apps@.len() - p,
            {
                p = p + 1;
            }
            assert(lowered_from(exe_names@, name@)) by {
                assert(lowercase(exe_names@[m as int]@) == name@);
            }
            if p < apps.len() && apps[p] == name {
                assert(apps@[p as int]@ == lowercase(exe_names@[m as int]@));
            } else {
                let ghost before = apps@;
                proof {
                    if p < before.len() {
                        lemma_text_less_total(before[p as int]@, name@);
                    }
                    assert forall|i: int, j: int|
                        0 <= i < j < before.len() + 1 implies text_less(
                        #[trigger] before.insert(p as int, name)[i]@,
                        #[trigger] before.insert(p as int, name)[j]@,
                    ) by {
                        let ins = before.insert(p as int, name);
                        if j < p {
                        } else if j == p {
                            assert(ins[i] == before[i]);
                        } else if i < p {
                            assert(ins[i] == before[i]);
                            assert(ins[j] == before[j - 1]);
                            if p < before.len() && j - 1 > p {
                                lemma_text_less_transitive(name@, before[p as int]@, before[j - 1]@);
                            }
                            lemma_text_less_transitive(before[i]@, name@, before[j - 1]@);
                        } else if i == p {
                            assert(ins[j] == before[j - 1]);
                            if j - 1 > p {
                                lemma_text_less_transitive(name@, before[p as int]@, before[j - 1]@);
                            }
                        } else {
                            assert(ins[i] == before[i - 1]);
                            assert(ins[j] == before[j - 1]);
                        }
                    }
                }
                apps.insert(p, name);
                assert(apps@ == before.insert(p as int, apps@[p as int]));
                assert forall|k: int|
                    0 <= k < m && shown_process(lowercase(#[trigger] exe_names@[k]@)) implies exists|i: int|
                    0 <= i < apps@.len() && apps@[i]@ == lowercase(exe_names@[k]@) by {
                    let i0 = choose|i: int| 0 <= i < before.len() && before[i]@ == lowercase(exe_names@[k]@);
                    if i0 < p {
                        assert(apps@[i0] == before[i0]);
                    } else {
                        assert(apps@[i0 + 1] == before[i0]);
                    }
                }
                assert(apps@[p as int]@ == lowercase(exe_names@[m as int]@));
            }
        }
    }
    apps
}

} // verus!
