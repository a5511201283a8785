//! Which installed apps can be offered for JIT, and the answer that lists them.

use vstd::prelude::*;
use crate::keyed::{keys_unique, pairs_map, KeyedList};

verus! {

/// What the device reports of one installed app.
#[derive(Debug)]
pub struct AppInfo {
    pub bundle_id: String,
    /// The display name, where the app has one.
    pub name: Option<String>,
    /// Whether the app is signed with `get-task-allow`.
    pub get_task_allow: bool,
}

/// The answer to a request for the app list.
#[derive(Debug)]
pub struct GetAppsReturn {
    pub ok: bool,
    /// Display names.
    pub apps: Vec<String>,
    /// Display name to bundle id.
    pub bundle_ids: Option<Vec<(String, String)>>,
    pub error: Option<String>,
}

/// The name under which an app is listed: its display name, else its bundle id.
pub open spec fn listed_name(a: AppInfo) -> Seq<char> {
    match a.name {
        Some(n) => n@,
        None => a.bundle_id@,
    }
}

/// Listed name to bundle id of the apps that allow a debugger; of two apps
/// with one name the later wins.
pub open spec fn debuggable_map(apps: Seq<AppInfo>) -> Map<Seq<char>, String>
    decreases apps.len(),
{
    if apps.len() == 0 {
        Map::empty()
    } else {
        let m = debuggable_map(apps.drop_last());
        let a = apps.last();
        if a.get_task_allow {
            m.insert(listed_name(a), a.bundle_id)
        } else {
            m
        }
    }
}

/// The name of the entry that stands for apps missing from the list.
pub open spec fn other_name() -> Seq<char> {
    "Other..."@
}

/// What the extra entry points to.
pub open spec fn other_target() -> Seq<char> {
    "UPDATE YOUR SHORTCUT"@
}

/// The text of the answer when no app allows a debugger.
pub open spec fn no_apps_text() -> Seq<char> {
    "No apps with get-task-allow found"@
}

/// The apps that allow a debugger, keyed by listed name.
pub fn debuggable_apps(apps: &Vec<AppInfo>) -> (r: KeyedList<String>)
    ensures
        r.wf(),
        r.view() == debuggable_map(apps@),
{
    let mut list: KeyedList<String> = KeyedList::new();
    let mut k: usize = 0;
    while k < apps.len()
        invariant
            k <= apps@.len(),
            list.wf(),
            list.view() == debuggable_map(apps@.take(k as int)),
        decreases apps@.len() - k,
    {
        assert(apps@.take(k + 1).drop_last() == apps@.take(k as int));
        let a = &apps[k];
        if a.get_task_allow {
            let name = match &a.name {
                Some(n) => n.clone(),
                None => a.bundle_id.clone(),
            };
            list.insert(name, a.bundle_id.clone());
        }
        k = k + 1;
    }
    assert(apps@.take(k as int) =~= apps@);
    list
}

/// The app-list answer: the apps that allow a debugger and the extra
/// entry, or an error when there are none.
pub fn get_apps_response(apps: &Vec<AppInfo>) -> (r: GetAppsReturn)
    ensures
        debuggable_map(apps@).len() == 0 ==> {
            &&& !r.ok
            &&& r.apps@.len() == 0
            &&& r.bundle_ids is None
            &&& r.error matches Some(m) && m@ == no_apps_text()
        },
        debuggable_map(apps@).len() > 0 ==> {
            &&& r.ok
            &&& r.error is None
            &&& r.bundle_ids matches Some(v) && {
                &&& keys_unique(v@)
                &&& pairs_map(v@).remove(other_name()) == debuggable_map(apps@).remove(other_name())
                &&& pairs_map(v@).contains_key(other_name())
                &&& pairs_map(v@)[other_name()]@ == other_target()
                &&& r.apps@.len() == v@.len()
                &&& forall|i: int| 0 <= i < v@.len() ==> #[trigger] r.apps@[i]@ == v@[i].0@
            }
        },
{
    let mut list = debuggable_apps(apps);
    proof {
        crate::keyed::lemma_pairs_map_len_of(list);
    }
    if list.len() == 0 {
        return GetAppsReturn {
            ok: false,
            apps: Vec::new(),
            bundle_ids: None,
            error: Some(String::from_str("No apps with get-task-allow found")),
        };
    }
    let ghost before = list.view();
    list.insert(String::from_str("Other..."), String::from_str("UPDATE YOUR SHORTCUT"));
    assert(list.view().remove(other_name()) =~= before.remove(other_name()));
    let pairs = list.into_pairs();
    let mut names: Vec<String> = Vec::new();
    let mut k: usize = 0;
    while k < pairs.len()
        invariant
            k <= pairs@.len(),
            names@.len() == k,
            forall|i: int| 0 <= i < k ==> #[trigger] names@[i]@ == pairs@[i].0@,
        decreases pairs@.len() - k,
    {
        names.push(pairs[k].0.clone());
        k = k + 1;
    }
    GetAppsReturn { ok: true, apps: names, bundle_ids: Some(pairs), error: None }
}

} // verus!
