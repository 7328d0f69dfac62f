//! The installation state of apps.
use crate::text::{chars_eq_str, chars_equal, chars_of, chars_of_string, concat_strings, opt_view, string_from};
use vstd::prelude::*;

verus! {

/// Credentials for pulling the images of an app.
#[derive(Debug, Clone, PartialEq, Eq)]
pub struct Token {
    pub username: String,
    pub password: String,
}

/// The name and version that identify an app.
#[derive(Debug, Clone, PartialEq, Eq, Hash)]
pub struct AppKey {
    pub name: String,
    pub version: String,
}

/// The stored state of an app in one deployment: the state it should reach and its id
/// there, where it has one.
#[derive(Debug, Clone, PartialEq, Eq)]
pub struct AppDataDeserializable {
    pub desired: AppStatus,
    pub deployment_id: String,
    pub id: Option<String>,
}

/// The stored state of an app: its key and its state in each deployment.
#[derive(Debug, Clone, PartialEq, Eq)]
pub struct AppDeserializable {
    pub key: AppKey,
    pub deployments: Vec<AppDataDeserializable>,
}

/// Values that know the app they belong to.
pub trait GetAppKey {
    /// The key of the app.
    fn app_key(&self) -> &AppKey;
}

/// Values that know the deployment they live in.
pub trait GetDeploymentId {
    /// The id of the deployment.
    fn deployment_id(&self) -> &String;
}

/// Whether an app is installed.
#[derive(Debug, Clone, Copy, PartialEq, Eq, Structural)]
pub enum AppStatus {
    Unknown,
    Installed,
    NotInstalled,
}

impl Default for AppStatus {
    fn default() -> (res: Self)
        ensures
            res == AppStatus::Unknown,
    {
        AppStatus::Unknown
    }
}

/// The state that a status text of the previous storage format stands for: `installed` is
/// installed, `not installed`, `removed` and `purged` are not, everything else is unknown.
pub open spec fn app_status_of_legacy(s: Seq<char>) -> AppStatus {
    if s == "installed"@ {
        AppStatus::Installed
    } else if s == "not installed"@ || s == "removed"@ || s == "purged"@ {
        AppStatus::NotInstalled
    } else {
        AppStatus::Unknown
    }
}

/// The status texts of the previous storage format: `installed` is installed; `not
/// installed`, `removed` and `purged` are not installed; every other text is unknown.
pub proof fn law_legacy_app_status(other: Seq<char>)
    ensures
        app_status_of_legacy(seq!['i', 'n', 's', 't', 'a', 'l', 'l', 'e', 'd'])
            == AppStatus::Installed,
        app_status_of_legacy(
            seq!['n', 'o', 't', ' ', 'i', 'n', 's', 't', 'a', 'l', 'l', 'e', 'd'],
        ) == AppStatus::NotInstalled,
        app_status_of_legacy(seq!['r', 'e', 'm', 'o', 'v', 'e', 'd']) == AppStatus::NotInstalled,
        app_status_of_legacy(seq!['p', 'u', 'r', 'g', 'e', 'd']) == AppStatus::NotInstalled,
        other != seq!['i', 'n', 's', 't', 'a', 'l', 'l', 'e', 'd'] && other != seq![
            'n',
            'o',
            't',
            ' ',
            'i',
            'n',
            's',
            't',
            'a',
            'l',
            'l',
            'e',
            'd',
        ] && other != seq!['r', 'e', 'm', 'o', 'v', 'e', 'd'] && other != seq![
            'p',
            'u',
            'r',
            'g',
            'e',
            'd',
        ] ==> app_status_of_legacy(other) == AppStatus::Unknown,
{
    reveal_strlit("installed");
    reveal_strlit("not installed");
    reveal_strlit("removed");
    reveal_strlit("purged");
    assert("installed"@ =~= seq!['i', 'n', 's', 't', 'a', 'l', 'l', 'e', 'd']);
    assert("not installed"@ =~= seq!['n', 'o', 't', ' ', 'i', 'n', 's', 't', 'a', 'l', 'l', 'e', 'd']);
    assert("removed"@ =~= seq!['r', 'e', 'm', 'o', 'v', 'e', 'd']);
    assert("purged"@ =~= seq!['p', 'u', 'r', 'g', 'e', 'd']);
}

/// The state that a status text of the previous storage format stands for.
pub fn app_status_from_legacy(legacy: &str) -> (res: AppStatus)
    ensures
        res == app_status_of_legacy(legacy@),
{
    let v = chars_of(legacy);
    if chars_eq_str(&v, "installed") {
        AppStatus::Installed
    } else if chars_eq_str(&v, "not installed") || chars_eq_str(&v, "removed") || chars_eq_str(
        &v,
        "purged",
    ) {
        AppStatus::NotInstalled
    } else {
        AppStatus::Unknown
    }
}

/// The state of an app in one deployment: the state it should reach, its id there where it
/// has one, and the deployment.
#[derive(Debug, Clone, PartialEq, Eq)]
pub struct AppData {
    pub desired: AppStatus,
    pub id: Option<String>,
    pub deployment_id: String,
}

impl AppData {
    /// An app not yet placed in the deployment.
    pub fn new(deployment_id: String) -> (res: Self)
        ensures
            res.desired == AppStatus::Unknown,
            res.id is None,
            res.deployment_id == deployment_id,
    {
        AppData { desired: AppStatus::Unknown, id: None, deployment_id }
    }

    /// Notes the id of the app in the deployment.
    pub fn set_id(&mut self, id: String)
        ensures
            final(self).id == Some(id),
            final(self).desired == old(self).desired,
            final(self).deployment_id == old(self).deployment_id,
    {
        self.id = Some(id);
    }
}

/// No deployment occurs twice.
pub open spec fn deployments_unique(data: Seq<AppData>) -> bool {
    forall|a: int, b: int|
        0 <= a < data.len() && 0 <= b < data.len() && a != b ==> (#[trigger] data[a]).deployment_id@
            != (#[trigger] data[b]).deployment_id@
}

/// Some entry of `data` is for the deployment `id`.
pub open spec fn has_deployment(data: Seq<AppData>, id: Seq<char>) -> bool {
    exists|j: int| 0 <= j < data.len() && (#[trigger] data[j]).deployment_id@ == id
}

/// The id of the app given by the last successful installation into the deployment `id`
/// among `results`, if any.
pub open spec fn latest_install(results: Seq<(String, Result<String, String>)>, id: Seq<char>) -> Option<
    Seq<char>,
>
    decreases results.len(),
{
    if results.len() == 0 {
        None
    } else if results.last().0@ == id && results.last().1 is Ok {
        Some(results.last().1->Ok_0@)
    } else {
        latest_install(results.drop_last(), id)
    }
}

/// Some installation among `results` succeeded into a deployment of `data`.
pub open spec fn any_install_landed(data: Seq<AppData>, results: Seq<(String, Result<String, String>)>) -> bool {
    exists|k: int|
        0 <= k < results.len() && (#[trigger] results[k]).1 is Ok && has_deployment(
            data,
            results[k].0@,
        )
}

/// An app was to be installed into deployments and none of them took it.
#[derive(Debug, Clone, PartialEq, Eq)]
pub struct InstallFailed {
    /// The number of deployments tried.
    pub deployments: usize,
}

/// What to do next to install an app into one deployment.
#[derive(Debug, Clone, PartialEq, Eq)]
pub enum InstallStep {
    /// Ask the deployment whether the app with this id is installed.
    CheckInstalled(String),
    /// The app with this id is installed already; nothing is to be done.
    AlreadyInstalled(String),
    /// Install the app.
    Install,
}

/// The next step of installing into one deployment, given the id the app has there and,
/// once asked, whether the deployment has it installed.
pub fn install_step(id: &Option<String>, installed: Option<bool>) -> (res: InstallStep)
    ensures
        match (id, installed) {
            (None, _) => res == InstallStep::Install,
            (Some(x), None) => res matches InstallStep::CheckInstalled(y) && y@ == x@,
            (Some(x), Some(true)) => res matches InstallStep::AlreadyInstalled(y) && y@ == x@,
            (Some(_), Some(false)) => res == InstallStep::Install,
        },
{
    match (id, installed) {
        (None, _) => InstallStep::Install,
        (Some(x), None) => InstallStep::CheckInstalled(x.clone()),
        (Some(x), Some(true)) => InstallStep::AlreadyInstalled(x.clone()),
        (Some(_), Some(false)) => InstallStep::Install,
    }
}

/// Where the deployment `id` stands in `data`.
fn deployment_index(data: &Vec<AppData>, id: &String) -> (res: Option<usize>)
    ensures
        match res {
            Some(j) => j < data@.len() && data@[j as int].deployment_id@ == id@,
            None => !has_deployment(data@, id@),
        },
{
    let wanted = chars_of_string(id);
    let mut j: usize = 0;
    while j < data.len()
        invariant
            j <= data@.len(),
            wanted@ == id@,
            forall|k: int| 0 <= k < j ==> (#[trigger] data@[k]).deployment_id@ != id@,
        decreases data@.len() - j,
    {
        if chars_equal(&chars_of_string(&data[j].deployment_id), &wanted) {
            return Some(j);
        }
        j = j + 1;
    }
    None
}

/// The app is installed into every deployment: the state each should reach becomes
/// installed, nothing else changes.
pub fn begin_install(data: &mut Vec<AppData>)
    ensures
        final(data)@.len() == old(data)@.len(),
        forall|j: int|
            0 <= j < final(data)@.len() ==> (#[trigger] final(data)@[j]) == (AppData {
                desired: AppStatus::Installed,
                ..old(data)@[j]
            }),
{
    let mut j: usize = 0;
    while j < data.len()
        invariant
            j <= data@.len(),
            data@.len() == old(data)@.len(),
            forall|k: int|
                0 <= k < data@.len() ==> (#[trigger] data@[k]) == if k < j {
                    AppData { desired: AppStatus::Installed, ..old(data)@[k] }
                } else {
                    old(data)@[k]
                },
        decreases data@.len() - j,
    {
        let ghost before = data@;
        let mut entry = data.remove(j);
        entry.desired = AppStatus::Installed;
        data.insert(j, entry);
        assert(data@ =~= before.update(j as int, entry));
        j = j + 1;
    }
}

/// Books the outcome of installing into the deployments: every deployment that took the
/// app keeps the id it gave (the last one, where it was told twice), and the installation
/// fails exactly where there are deployments and none of them took it.
pub fn finish_install(data: &mut Vec<AppData>, results: Vec<(String, Result<String, String>)>) -> (res: Result<
    (),
    InstallFailed,
>)
    requires
        deployments_unique(old(data)@),
    ensures
        final(data)@.len() == old(data)@.len(),
        deployments_unique(final(data)@),
        forall|j: int|
            0 <= j < final(data)@.len() ==> {
                let before = old(data)@[j];
                let after = #[trigger] final(data)@[j];
                &&& after.desired == before.desired
                &&& after.deployment_id == before.deployment_id
                &&& opt_view(after.id) == match latest_install(
                    results@,
                    before.deployment_id@,
                ) {
                    Some(x) => Some(x),
                    None => opt_view(before.id),
                }
            },
        res is Err <==> (old(data)@.len() > 0 && !any_install_landed(old(data)@, results@)),
        res matches Err(e) ==> e.deployments == old(data)@.len(),
{
    let ghost start = data@;
    let mut any = false;
    let mut i: usize = 0;
    while i < results.len()
        invariant
            i <= results@.len(),
            data@.len() == start.len(),
            start == old(data)@,
            deployments_unique(start),
            forall|j: int|
                0 <= j < data@.len() ==> {
                    let before = start[j];
                    let after = #[trigger] data@[j];
                    &&& after.desired == before.desired
                    &&& after.deployment_id == before.deployment_id
                    &&& opt_view(after.id) == match latest_install(
                        results@.take(i as int),
                        before.deployment_id@,
                    ) {
                        Some(x) => Some(x),
                        None => opt_view(before.id),
                    }
                },
            any == any_install_landed(start, results@.take(i as int)),
        decreases results@.len() - i,
    {
        let ghost prev = data@;
        assert(results@.take(i + 1).drop_last() =~= results@.take(i as int));
        assert(results@.take(i + 1).last() == results@[i as int]);
        match &results[i].1 {
            Ok(app_id) => {
                match deployment_index(data, &results[i].0) {
                    Some(j) => {
                        let mut entry = data.remove(j);
                        entry.id = Some(app_id.clone());
                        data.insert(j, entry);
                        assert(data@ =~= prev.update(j as int, entry));
                        any = true;
                        assert forall|m: int| 0 <= m < data@.len() && m != j implies data@[m]
                            == prev[m] && start[m].deployment_id@ != results@[i as int].0@ by {
                            assert(start[m].deployment_id@ != start[j as int].deployment_id@);
                        }
                        assert(results@.take(i + 1)[i as int] == results@[i as int]);
                        assert(any_install_landed(start, results@.take(i + 1))) by {
                            assert(has_deployment(start, results@[i as int].0@)) by {
                                assert(start[j as int].deployment_id@ == results@[i as int].0@);
                            }
                        }
                    },
                    None => {
                        assert(!has_deployment(start, results@[i as int].0@)) by {
                            if has_deployment(start, results@[i as int].0@) {
                                let m = choose|m: int|
                                    0 <= m < start.len() && (#[trigger] start[m]).deployment_id@
                                        == results@[i as int].0@;
                                assert(data@[m].deployment_id == start[m].deployment_id);
                            }
                        }
                        assert(any_install_landed(start, results@.take(i + 1)) == any_install_landed(
                            start,
                            results@.take(i as int),
                        )) by {
                            if any_install_landed(start, results@.take(i + 1)) {
                                let k = choose|k: int|
                                    0 <= k < i + 1 && (#[trigger] results@.take(i + 1)[k]).1 is Ok
                                        && has_deployment(start, results@.take(i + 1)[k].0@);
                                assert(k != i);
                                assert(results@.take(i as int)[k] == results@.take(i + 1)[k]);
                            }
                            if any_install_landed(start, results@.take(i as int)) {
                                let k = choose|k: int|
                                    0 <= k < i && (#[trigger] results@.take(i as int)[k]).1 is Ok
                                        && has_deployment(start, results@.take(i as int)[k].0@);
                                assert(results@.take(i as int)[k] == results@.take(i + 1)[k]);
                            }
                        }
                    },
                }
            },
            Err(_) => {
                assert(any_install_landed(start, results@.take(i + 1)) == any_install_landed(
                    start,
                    results@.take(i as int),
                )) by {
                    if any_install_landed(start, results@.take(i + 1)) {
                        let k = choose|k: int|
                            0 <= k < i + 1 && (#[trigger] results@.take(i + 1)[k]).1 is Ok
                                && has_deployment(start, results@.take(i + 1)[k].0@);
                        assert(k != i);
                        assert(results@.take(i as int)[k] == results@.take(i + 1)[k]);
                    }
                    if any_install_landed(start, results@.take(i as int)) {
                        let k = choose|k: int|
                            0 <= k < i && (#[trigger] results@.take(i as int)[k]).1 is Ok
                                && has_deployment(start, results@.take(i as int)[k].0@);
                        assert(results@.take(i as int)[k] == results@.take(i + 1)[k]);
                    }
                }
            },
        }
        i = i + 1;
    }
    assert(results@.take(i as int) =~= results@);
    assert(deployments_unique(data@)) by {
        assert forall|a: int, b: int|
            0 <= a < data@.len() && 0 <= b < data@.len() && a != b implies (#[trigger] data@[a]).deployment_id@
                != (#[trigger] data@[b]).deployment_id@ by {
            assert(start[a].deployment_id@ != start[b].deployment_id@);
        }
    }
    if !any && data.len() > 0 {
        Err(InstallFailed { deployments: data.len() })
    } else {
        Ok(())
    }
}

/// What happened last while removing an app from one deployment.
#[derive(Debug, PartialEq, Eq)]
pub enum UninstallEvent {
    /// The removal begins.
    Start,
    /// The deployment answered whether the app is installed, or failed to.
    Checked(Result<bool, String>),
    /// The deployment removed the app, or failed to.
    Uninstalled(Result<(), String>),
}

/// What to do next while removing an app from one deployment.
#[derive(Debug, Clone, PartialEq, Eq)]
pub enum UninstallAction {
    /// Nothing is to be removed; the detail says why.
    Skip(String),
    /// Ask the deployment whether the app with this id is installed.
    CheckInstalled(String),
    /// Remove the app with this id.
    Uninstall(String),
    /// The app is removed.
    Done,
    /// The removal failed with this error; the state of the app stays with the caller.
    Fail(String),
}

/// Why nothing is removed from a deployment that does not hold the app.
pub open spec fn not_installed_detail(deployment: Seq<char>) -> Seq<char> {
    "App is not installed on deployment "@ + deployment
}

/// Removing an app from one deployment, one event at a time: at the start the app is to be
/// not installed there, and without an id there nothing is to be removed; with an id the
/// deployment is asked first, an app it does not hold is skipped, and one it holds is
/// removed. A failed question or removal fails the whole with its error.
pub fn uninstall_step(data: &mut AppData, event: UninstallEvent) -> (res: UninstallAction)
    ensures
        final(data).id == old(data).id,
        final(data).deployment_id == old(data).deployment_id,
        final(data).desired == if event is Start {
            AppStatus::NotInstalled
        } else {
            old(data).desired
        },
        match event {
            UninstallEvent::Start => match old(data).id {
                None => res matches UninstallAction::Skip(d) && d@ == not_installed_detail(
                    old(data).deployment_id@,
                ),
                Some(x) => res matches UninstallAction::CheckInstalled(y) && y@ == x@,
            },
            UninstallEvent::Checked(Err(e)) => res matches UninstallAction::Fail(m) && m@ == e@,
            UninstallEvent::Checked(Ok(true)) => match old(data).id {
                Some(x) => res matches UninstallAction::Uninstall(y) && y@ == x@,
                None => res matches UninstallAction::Skip(d) && d@ == not_installed_detail(
                    old(data).deployment_id@,
                ),
            },
            UninstallEvent::Checked(Ok(false)) => res matches UninstallAction::Skip(d) && d@
                == not_installed_detail(old(data).deployment_id@),
            UninstallEvent::Uninstalled(Ok(())) => res == UninstallAction::Done,
            UninstallEvent::Uninstalled(Err(e)) => res matches UninstallAction::Fail(m) && m@
                == e@,
        },
{
    proof {
        reveal_strlit("App is not installed on deployment ");
    }
    match event {
        UninstallEvent::Start => {
            data.desired = AppStatus::NotInstalled;
            match &data.id {
                None => UninstallAction::Skip(
                    concat_strings(
                        &string_from("App is not installed on deployment "),
                        &data.deployment_id,
                    ),
                ),
                Some(x) => UninstallAction::CheckInstalled(x.clone()),
            }
        },
        UninstallEvent::Checked(Err(e)) => UninstallAction::Fail(e),
        UninstallEvent::Checked(Ok(installed)) => match (&data.id, installed) {
            (Some(x), true) => UninstallAction::Uninstall(x.clone()),
            _ => UninstallAction::Skip(
                concat_strings(
                    &string_from("App is not installed on deployment "),
                    &data.deployment_id,
                ),
            ),
        },
        UninstallEvent::Uninstalled(Ok(())) => UninstallAction::Done,
        UninstallEvent::Uninstalled(Err(e)) => UninstallAction::Fail(e),
    }
}

/// How removing an app from one deployment ended: removed (`Ok(None)`), failed with the
/// error and the app's state there (`Ok(Some(..))`), or the removal itself broke down
/// (`Err`).
pub type UninstallResult = Result<Option<(String, AppData)>, String>;

/// The error line of a deployment whose removal failed.
pub open spec fn uninstall_error_line(deployment: Seq<char>, error: Seq<char>) -> Seq<char> {
    "from deployment "@ + deployment + ": "@ + error
}

/// The error lines of the failed removals among `results`, in order.
pub open spec fn uninstall_errors(results: Seq<(String, UninstallResult)>) -> Seq<Seq<char>>
    decreases results.len(),
{
    if results.len() == 0 {
        Seq::empty()
    } else {
        let rest = uninstall_errors(results.drop_last());
        let (d, r) = results.last();
        match r {
            Ok(None) => rest,
            Ok(Some((e, _))) => rest.push(uninstall_error_line(d@, e@)),
            Err(e) => rest.push(uninstall_error_line(d@, e@)),
        }
    }
}

/// The states of the app in the deployments whose removal failed and handed them back, in
/// order.
pub open spec fn uninstall_kept(results: Seq<(String, UninstallResult)>) -> Seq<AppData>
    decreases results.len(),
{
    if results.len() == 0 {
        Seq::empty()
    } else {
        let rest = uninstall_kept(results.drop_last());
        match results.last().1 {
            Ok(Some((_, data))) => rest.push(data),
            _ => rest,
        }
    }
}

/// Books the outcome of removing an app from its deployments: every failure gives an error
/// line `from deployment <id>: <error>`, and the app keeps its state in the deployments
/// that handed it back. The removal succeeded exactly where nothing failed.
pub fn finish_uninstall(results: Vec<(String, UninstallResult)>) -> (res: Result<
    (),
    (Vec<String>, Vec<AppData>),
>)
    ensures
        uninstall_errors(results@).len() == 0 <==> res is Ok,
        res matches Err((errors, kept)) ==> errors@.len() == uninstall_errors(results@).len()
            && (forall|i: int|
            0 <= i < errors@.len() ==> (#[trigger] errors@[i])@ == uninstall_errors(results@)[i])
            && kept@ == uninstall_kept(results@),
{
    proof {
        reveal_strlit("from deployment ");
        reveal_strlit(": ");
    }
    let ghost all = results@;
    let mut rest = results;
    let mut errors: Vec<String> = Vec::new();
    let mut kept: Vec<AppData> = Vec::new();
    let mut n: usize = 0;
    assert(all.len() == rest.len());
    while rest.len() > 0
        invariant
            all.len() <= usize::MAX,
            n + rest@.len() == all.len(),
            rest@ == all.skip(n as int),
            errors@.len() == uninstall_errors(all.take(n as int)).len(),
            forall|i: int|
                0 <= i < errors@.len() ==> (#[trigger] errors@[i])@ == uninstall_errors(
                    all.take(n as int),
                )[i],
            kept@ == uninstall_kept(all.take(n as int)),
        decreases rest@.len(),
    {
        let (deployment, result) = rest.remove(0);
        let ghost at = n as int;
        assert((deployment, result) == all[at]);
        assert(rest@ =~= all.skip(at + 1));
        assert(all.take(at + 1).drop_last() =~= all.take(at));
        assert(all.take(at + 1).last() == all[at]);
        let prefix = concat_strings(&string_from("from deployment "), &deployment);
        let prefix = concat_strings(&prefix, &string_from(": "));
        match result {
            Ok(None) => {},
            Ok(Some((e, data))) => {
                errors.push(concat_strings(&prefix, &e));
                kept.push(data);
            },
            Err(e) => {
                errors.push(concat_strings(&prefix, &e));
            },
        }
        n = n + 1;
    }
    assert(all.take(n as int) =~= all);
    if errors.len() == 0 {
        Ok(())
    } else {
        Err((errors, kept))
    }
}

} // verus!
