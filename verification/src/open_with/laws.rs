//! What opening a checkout elsewhere is for: which applications are offered, how one is launched,
//! and what is said if it failed.

use vstd::prelude::*;

use crate::open_with;
use crate::open_with::{ExternalAppView, Launch};
use crate::text;

verus! {

/// The application with an identifier has the label and the icon of its entry; the system's handler
/// has those of a folder; what is not known has none.
pub proof fn law_applications_are_known_by_identifier(key: Seq<char>, i: int)
    ensures
        key.len() == 0 ==> open_with::label_of(key) == Some("Default app"@) && open_with::icon_of(
            key,
        ) == Some("folder"@),
        key.len() > 0 && open_with::is_place_of(key, i) ==> open_with::label_of(key) == Some(
            open_with::catalogue()[i].label,
        ) && open_with::icon_of(key) == Some(open_with::catalogue()[i].icon),
        key.len() > 0 && (forall|k: int|
            0 <= k < open_with::catalogue().len() ==> (
            #[trigger] open_with::catalogue()[k]).bundle_id != key) ==> open_with::label_of(key)
            is None && open_with::icon_of(key) is None,
{
    if open_with::is_place_of(key, i) {
        let k = choose|k: int| open_with::is_place_of(key, k);
        assert(open_with::is_place_of(key, k));
        assert(k == i) by {
            if k < i {
                assert(open_with::catalogue()[k].bundle_id != key);
            }
            if i < k {
                assert(open_with::catalogue()[i].bundle_id != key);
            }
        }
    }
    if open_with::is_known(key) {
        let k = choose|k: int| open_with::is_place_of(key, k);
        assert(open_with::catalogue()[k].bundle_id == key);
    }
}

/// An application that is stored as a preference is found again by its own identifier; the
/// system's handler is stored as nothing.
pub proof fn law_preferences_are_identifiers(app: ExternalAppView)
    ensures
        app.bundle_id matches Some(id) ==> open_with::key_of(app) == id,
        app.bundle_id is None ==> open_with::key_of(app).len() == 0,
{
}

proof fn lemma_present(n: nat, roots: Seq<Seq<Seq<char>>>, i: int)
    requires
        0 <= i < n,
        open_with::is_present(open_with::catalogue()[i].bundle, roots),
    ensures
        ({
            let c = open_with::catalogue()[i];
            open_with::present_among(n, roots).contains(
                ExternalAppView { label: c.label, bundle_id: Some(c.bundle_id), icon: c.icon },
            )
        }),
    decreases n,
{
    let c = open_with::catalogue()[i];
    let app = ExternalAppView { label: c.label, bundle_id: Some(c.bundle_id), icon: c.icon };
    let all = open_with::present_among(n, roots);
    let before = open_with::present_among((n - 1) as nat, roots);
    if i == n - 1 {
        assert(all[before.len() as int] == app);
    } else {
        lemma_present((n - 1) as nat, roots, i);
        let k = before.index_of(app);
        assert(all[k] == app);
    }
}

proof fn lemma_only_present(n: nat, roots: Seq<Seq<Seq<char>>>, k: int) -> (i: int)
    requires
        0 <= k < open_with::present_among(n, roots).len(),
    ensures
        0 <= i < n,
        open_with::is_present(open_with::catalogue()[i].bundle, roots),
        open_with::present_among(n, roots)[k] == (ExternalAppView {
            label: open_with::catalogue()[i].label,
            bundle_id: Some(open_with::catalogue()[i].bundle_id),
            icon: open_with::catalogue()[i].icon,
        }),
    decreases n,
{
    let before = open_with::present_among((n - 1) as nat, roots);
    if k < before.len() {
        assert(open_with::present_among(n, roots)[k] == before[k]);
        lemma_only_present((n - 1) as nat, roots, k)
    } else {
        n - 1
    }
}

/// An application is offered exactly if its bundle is in one of the directories, under its own
/// label, identifier and icon.
pub proof fn law_present_applications_are_offered(roots: Seq<Seq<Seq<char>>>, i: int, k: int)
    ensures
        0 <= i < open_with::catalogue().len() && open_with::is_present(
            open_with::catalogue()[i].bundle,
            roots,
        ) ==> open_with::offered(roots).contains(
            ExternalAppView {
                label: open_with::catalogue()[i].label,
                bundle_id: Some(open_with::catalogue()[i].bundle_id),
                icon: open_with::catalogue()[i].icon,
            },
        ),
        0 <= k < open_with::offered(roots).len() - 1 ==> exists|j: int|
            {
                let c = #[trigger] open_with::catalogue()[j];
                &&& 0 <= j < open_with::catalogue().len()
                &&& open_with::is_present(c.bundle, roots)
                &&& open_with::offered(roots)[k] == (ExternalAppView {
                    label: c.label,
                    bundle_id: Some(c.bundle_id),
                    icon: c.icon,
                })
            },
{
    let n = open_with::catalogue().len();
    let found = open_with::present_among(n, roots);
    let all = open_with::offered(roots);
    if 0 <= i < n && open_with::is_present(open_with::catalogue()[i].bundle, roots) {
        lemma_present(n, roots, i);
        let c = open_with::catalogue()[i];
        let app = ExternalAppView { label: c.label, bundle_id: Some(c.bundle_id), icon: c.icon };
        let at = found.index_of(app);
        assert(all[at] == app);
    }
    if 0 <= k < all.len() - 1 {
        let j = lemma_only_present(n, roots, k);
        assert(all[k] == found[k]);
        assert(open_with::is_present(open_with::catalogue()[j].bundle, roots));
    }
}

/// Bundles are looked for among the applications of all users, those of the user, and those of the
/// system.
pub proof fn law_bundles_are_looked_for_everywhere(home: Seq<char>)
    ensures
        ({
            let with = open_with::roots_for(Some(home));
            let without = open_with::roots_for(None);
            &&& with.len() == 5
            &&& with[0] == "/Applications"@
            &&& with[1] == open_with::below(home, "Applications"@)
            &&& with[2] == "/System/Applications"@
            &&& with[3] == "/System/Applications/Utilities"@
            &&& with[4] == "/System/Library/CoreServices"@
            &&& without == seq![with[0], with[2], with[3], with[4]]
            &&& home.len() > 0 && home.last() != '/' ==> open_with::below(home, "Applications"@)
                == home + "/"@ + "Applications"@
            &&& home.len() > 0 && home.last() == '/' ==> open_with::below(home, "Applications"@)
                == home + "Applications"@
        }),
{
}

/// An application is launched by its identifier, and the system's handler without one; either way
/// the path comes last.
pub proof fn law_the_application_is_named_by_identifier(app: ExternalAppView, path: Seq<char>)
    ensures
        app.bundle_id matches Some(id) ==> open_with::arguments_of(app, path) == seq![
            "-b"@,
            id,
            "--"@,
            path,
        ],
        app.bundle_id is None ==> open_with::arguments_of(app, path) == seq!["--"@, path],
{
}

/// A launch is at fault exactly if it did not run or did not succeed; what is said then is the
/// error, or what it wrote, or that the application could not open the checkout.
pub proof fn law_failed_launches_are_reported(
    app: ExternalAppView,
    error: String,
    written: Vec<u8>,
)
    ensures
        open_with::launch_fault(app, Launch::NotRun(error)) == Some("Cannot run open: "@ + error@),
        open_with::launch_fault(app, Launch::Ran(true, written)) is None,
        ({
            let said = text::lossy_of(written@);
            &&& text::blank(said) ==> open_with::launch_fault(app, Launch::Ran(false, written))
                == Some(app.label + " could not open this checkout"@)
            &&& !text::blank(said) ==> open_with::launch_fault(app, Launch::Ran(false, written))
                == Some(text::trimmed(said))
        }),
{
    text::law_trimmed_is_empty_iff_blank(text::lossy_of(written@));
}

/// A path that is refused says why.
pub proof fn law_refused_paths_say_why(path: Seq<char>, is_directory: bool)
    ensures
        path.len() == 0 || path[0] != '/' ==> open_with::path_fault(path, is_directory) == Some(
            "Refusing to open a relative path"@,
        ),
        path.len() > 0 && path[0] == '/' && !is_directory ==> open_with::path_fault(
            path,
            is_directory,
        ) == Some(path + " is no longer a directory; refresh the checkout"@),
{
}

} // verus!
