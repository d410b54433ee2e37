//! Handing a checkout to another application, on the user's word only.
//!
//! An application counts as installed where its bundle stands in one of a few directories, so
//! nothing here depends on a search index. What stands there is looked up by the caller.

use vstd::prelude::*;
use vstd::string::*;

use crate::text;

pub mod laws;

verus! {

/// An application that a checkout can be handed to.
pub struct ExternalApp {
    pub label: &'static str,
    /// `None` is the handler that the system has for the path.
    pub bundle_id: Option<&'static str>,
    pub icon: &'static str,
}

#[verifier::ext_equal]
pub struct ExternalAppView {
    pub label: Seq<char>,
    pub bundle_id: Option<Seq<char>>,
    pub icon: Seq<char>,
}

impl View for ExternalApp {
    type V = ExternalAppView;

    open spec fn view(&self) -> ExternalAppView {
        ExternalAppView {
            label: self.label@,
            bundle_id: match self.bundle_id {
                Some(id) => Some(id@),
                None => None,
            },
            icon: self.icon@,
        }
    }
}

/// An application that is looked for. The bundle's name is only looked up; what is launched goes
/// by the identifier.
pub struct Candidate {
    pub label: &'static str,
    pub bundle_id: &'static str,
    pub bundle: &'static str,
    pub icon: &'static str,
}

#[verifier::ext_equal]
pub struct CandidateView {
    pub label: Seq<char>,
    pub bundle_id: Seq<char>,
    pub bundle: Seq<char>,
    pub icon: Seq<char>,
}

impl View for Candidate {
    type V = CandidateView;

    open spec fn view(&self) -> CandidateView {
        CandidateView {
            label: self.label@,
            bundle_id: self.bundle_id@,
            bundle: self.bundle@,
            icon: self.icon@,
        }
    }
}

/// The applications that are looked for, in the order in which they are offered.
pub open spec fn catalogue() -> Seq<CandidateView> {
    seq![
        CandidateView {
            label: "VS Code"@,
            bundle_id: "com.microsoft.VSCode"@,
            bundle: "Visual Studio Code.app"@,
            icon: "vscode"@,
        },
        CandidateView {
            label: "VS Code Insiders"@,
            bundle_id: "com.microsoft.VSCodeInsiders"@,
            bundle: "Visual Studio Code - Insiders.app"@,
            icon: "vscode"@,
        },
        CandidateView {
            label: "VSCodium"@,
            bundle_id: "com.vscodium"@,
            bundle: "VSCodium.app"@,
            icon: "vscodium"@,
        },
        CandidateView {
            label: "Cursor"@,
            bundle_id: "com.todesktop.230313mzl4w4u92"@,
            bundle: "Cursor.app"@,
            icon: "cursor"@,
        },
        CandidateView {
            label: "Zed"@,
            bundle_id: "dev.zed.Zed"@,
            bundle: "Zed.app"@,
            icon: "zed"@,
        },
        CandidateView {
            label: "Trae"@,
            bundle_id: "com.trae.app"@,
            bundle: "Trae.app"@,
            icon: "trae"@,
        },
        CandidateView {
            label: "Xcode"@,
            bundle_id: "com.apple.dt.Xcode"@,
            bundle: "Xcode.app"@,
            icon: "edit"@,
        },
        CandidateView {
            label: "Ghostty"@,
            bundle_id: "com.mitchellh.ghostty"@,
            bundle: "Ghostty.app"@,
            icon: "terminal"@,
        },
        CandidateView {
            label: "iTerm"@,
            bundle_id: "com.googlecode.iterm2"@,
            bundle: "iTerm.app"@,
            icon: "terminal"@,
        },
        CandidateView {
            label: "Terminal"@,
            bundle_id: "com.apple.Terminal"@,
            bundle: "Terminal.app"@,
            icon: "terminal"@,
        },
        CandidateView {
            label: "Finder"@,
            bundle_id: "com.apple.finder"@,
            bundle: "Finder.app"@,
            icon: "folder"@,
        },
    ]
}

pub fn candidates() -> (r: Vec<Candidate>)
    ensures
        r@.len() == catalogue().len(),
        forall|i: int| 0 <= i < r@.len() ==> (#[trigger] r@[i])@ == catalogue()[i],
{
    vec![
        Candidate {
            label: "VS Code",
            bundle_id: "com.microsoft.VSCode",
            bundle: "Visual Studio Code.app",
            icon: "vscode",
        },
        Candidate {
            label: "VS Code Insiders",
            bundle_id: "com.microsoft.VSCodeInsiders",
            bundle: "Visual Studio Code - Insiders.app",
            icon: "vscode",
        },
        Candidate {
            label: "VSCodium",
            bundle_id: "com.vscodium",
            bundle: "VSCodium.app",
            icon: "vscodium",
        },
        Candidate {
            label: "Cursor",
            bundle_id: "com.todesktop.230313mzl4w4u92",
            bundle: "Cursor.app",
            icon: "cursor",
        },
        Candidate {
            label: "Zed",
            bundle_id: "dev.zed.Zed",
            bundle: "Zed.app",
            icon: "zed",
        },
        Candidate {
            label: "Trae",
            bundle_id: "com.trae.app",
            bundle: "Trae.app",
            icon: "trae",
        },
        Candidate {
            label: "Xcode",
            bundle_id: "com.apple.dt.Xcode",
            bundle: "Xcode.app",
            icon: "edit",
        },
        Candidate {
            label: "Ghostty",
            bundle_id: "com.mitchellh.ghostty",
            bundle: "Ghostty.app",
            icon: "terminal",
        },
        Candidate {
            label: "iTerm",
            bundle_id: "com.googlecode.iterm2",
            bundle: "iTerm.app",
            icon: "terminal",
        },
        Candidate {
            label: "Terminal",
            bundle_id: "com.apple.Terminal",
            bundle: "Terminal.app",
            icon: "terminal",
        },
        Candidate {
            label: "Finder",
            bundle_id: "com.apple.finder",
            bundle: "Finder.app",
            icon: "folder",
        },
    ]
}

/// The identifier that a preference stores; the system's handler has the empty one.
pub fn preference_key(app: &ExternalApp) -> (r: String)
    ensures
        r@ == key_of(app@),
{
    match app.bundle_id {
        Some(id) => id.to_owned(),
        None => String::new(),
    }
}

pub open spec fn key_of(app: ExternalAppView) -> Seq<char> {
    match app.bundle_id {
        Some(id) => id,
        None => Seq::empty(),
    }
}

/// The first place of an identifier among the candidates.
pub open spec fn is_place_of(key: Seq<char>, i: int) -> bool {
    &&& 0 <= i < catalogue().len()
    &&& catalogue()[i].bundle_id == key
    &&& forall|j: int| 0 <= j < i ==> (#[trigger] catalogue()[j]).bundle_id != key
}

fn find_candidate(key: &str) -> (r: Option<Candidate>)
    ensures
        match r {
            Some(c) => exists|i: int| #[trigger] is_place_of(key@, i) && c@ == catalogue()[i],
            None => forall|i: int|
                0 <= i < catalogue().len() ==> (#[trigger] catalogue()[i]).bundle_id != key@,
        },
{
    let all = candidates();
    let mut i: usize = 0;
    while i < all.len()
        invariant
            i <= all@.len(),
            all@.len() == catalogue().len(),
            forall|k: int| 0 <= k < all@.len() ==> (#[trigger] all@[k])@ == catalogue()[k],
            forall|k: int| 0 <= k < i ==> (#[trigger] catalogue()[k]).bundle_id != key@,
        decreases all.len() - i,
    {
        let c = &all[i];
        assert(c@ == catalogue()[i as int]);
        if text::same_text(c.bundle_id, key) {
            assert(is_place_of(key@, i as int));
            return Some(
                Candidate {
                    label: c.label,
                    bundle_id: c.bundle_id,
                    bundle: c.bundle,
                    icon: c.icon,
                },
            );
        }
        i += 1;
    }
    None
}

/// Whether an identifier names a candidate.
pub open spec fn is_known(key: Seq<char>) -> bool {
    exists|i: int| is_place_of(key, i)
}

pub open spec fn candidate_of(key: Seq<char>) -> CandidateView {
    catalogue()[choose|i: int| is_place_of(key, i)]
}

pub open spec fn icon_of(key: Seq<char>) -> Option<Seq<char>> {
    if key.len() == 0 {
        Some("folder"@)
    } else if is_known(key) {
        Some(candidate_of(key).icon)
    } else {
        None
    }
}

pub open spec fn label_of(key: Seq<char>) -> Option<Seq<char>> {
    if key.len() == 0 {
        Some("Default app"@)
    } else if is_known(key) {
        Some(candidate_of(key).label)
    } else {
        None
    }
}

/// The icon for a stored preference; none where nothing known bears the identifier, so that a
/// preference from elsewhere is not drawn with a wrong brand.
pub fn icon_for_preference(key: &str) -> (r: Option<&'static str>)
    ensures
        match r {
            Some(icon) => icon_of(key@) == Some(icon@),
            None => icon_of(key@) is None,
        },
{
    if key.is_empty() {
        return Some("folder");
    }
    match find_candidate(key) {
        Some(c) => {
            proof {
                lemma_place_is_single(key@, c@);
            }
            Some(c.icon)
        },
        None => None,
    }
}

/// The label for a stored preference.
pub fn label_for_preference(key: &str) -> (r: Option<&'static str>)
    ensures
        match r {
            Some(label) => label_of(key@) == Some(label@),
            None => label_of(key@) is None,
        },
{
    if key.is_empty() {
        return Some("Default app");
    }
    match find_candidate(key) {
        Some(c) => {
            proof {
                lemma_place_is_single(key@, c@);
            }
            Some(c.label)
        },
        None => None,
    }
}

proof fn lemma_place_is_single(key: Seq<char>, c: CandidateView)
    requires
        exists|i: int| #[trigger] is_place_of(key, i) && c == catalogue()[i],
    ensures
        is_known(key),
        candidate_of(key) == c,
{
    let i = choose|i: int| #[trigger] is_place_of(key, i) && c == catalogue()[i];
    let j = choose|j: int| is_place_of(key, j);
    if i < j {
        assert(catalogue()[i].bundle_id != key);
    } else if j < i {
        assert(catalogue()[j].bundle_id != key);
    }
}

// ---------------------------------------------------------------------------
// Detection

/// A directory below another.
pub open spec fn below(directory: Seq<char>, name: Seq<char>) -> Seq<char> {
    if directory.len() == 0 {
        name
    } else if directory.last() == '/' {
        directory + name
    } else {
        directory + "/"@ + name
    }
}

/// The directories that bundles are looked for in.
pub open spec fn roots_for(home: Option<Seq<char>>) -> Seq<Seq<char>> {
    let system = seq![
        "/System/Applications"@,
        "/System/Applications/Utilities"@,
        "/System/Library/CoreServices"@,
    ];
    match home {
        Some(home) => seq!["/Applications"@, below(home, "Applications"@)] + system,
        None => seq!["/Applications"@] + system,
    }
}

pub fn default_roots(home: &Option<String>) -> (r: Vec<String>)
    ensures
        text::texts(r@) == roots_for(text::option_text(*home)),
{
    let mut roots: Vec<String> = Vec::new();
    roots.push("/Applications".to_owned());
    if let Some(home) = home {
        let mut path: String = home.clone();
        if !home.as_str().is_empty() && !ends_with_slash(home) {
            path.append("/");
        }
        path.append("Applications");
        proof {
            assert(path@ =~= below(home@, "Applications"@));
        }
        roots.push(path);
    }
    roots.push("/System/Applications".to_owned());
    roots.push("/System/Applications/Utilities".to_owned());
    roots.push("/System/Library/CoreServices".to_owned());
    proof {
        assert(text::texts(roots@) =~= roots_for(text::option_text(*home)));
    }
    roots
}

fn ends_with_slash(path: &str) -> (r: bool)
    requires
        path@.len() > 0,
    ensures
        r == (path@.last() == '/'),
{
    let chars = text::chars_of(path);
    chars[chars.len() - 1] == '/'
}

/// Whether one of the directories holds a bundle of this name. Each directory is given by the
/// names of the directories that were found in it.
pub open spec fn is_present(bundle: Seq<char>, roots: Seq<Seq<Seq<char>>>) -> bool {
    exists|i: int| 0 <= i < roots.len() && (#[trigger] roots[i]).contains(bundle)
}

pub open spec fn root_views(roots: Seq<Vec<String>>) -> Seq<Seq<Seq<char>>> {
    roots.map_values(|names: Vec<String>| text::texts(names@))
}

/// The candidates among the first `n` whose bundle is present, in their order.
pub open spec fn present_among(n: nat, roots: Seq<Seq<Seq<char>>>) -> Seq<ExternalAppView>
    decreases n,
{
    if n == 0 {
        Seq::empty()
    } else {
        let c = catalogue()[n - 1];
        let earlier = present_among((n - 1) as nat, roots);
        if is_present(c.bundle, roots) {
            earlier.push(
                ExternalAppView { label: c.label, bundle_id: Some(c.bundle_id), icon: c.icon },
            )
        } else {
            earlier
        }
    }
}

/// The system's own handler.
pub open spec fn default_app() -> ExternalAppView {
    ExternalAppView { label: "Default app"@, bundle_id: None, icon: "folder"@ }
}

/// What is offered: the applications that are present, then the system's handler.
pub open spec fn offered(roots: Seq<Seq<Seq<char>>>) -> Seq<ExternalAppView> {
    present_among(catalogue().len(), roots).push(default_app())
}

pub open spec fn app_views(apps: Seq<ExternalApp>) -> Seq<ExternalAppView> {
    apps.map_values(|a: ExternalApp| a@)
}

fn bundle_is_present(bundle: &str, roots: &Vec<Vec<String>>) -> (r: bool)
    ensures
        r == is_present(bundle@, root_views(roots@)),
{
    let ghost all = root_views(roots@);
    let mut i: usize = 0;
    while i < roots.len()
        invariant
            i <= roots@.len(),
            all == root_views(roots@),
            all.len() == roots@.len(),
            forall|k: int| 0 <= k < i ==> !(#[trigger] all[k]).contains(bundle@),
        decreases roots.len() - i,
    {
        assert(all[i as int] == text::texts(roots@[i as int]@));
        if text::is_among(&roots[i], bundle) {
            assert(all[i as int].contains(bundle@));
            return true;
        }
        i += 1;
    }
    false
}

pub fn detect(roots: &Vec<Vec<String>>) -> (r: Vec<ExternalApp>)
    ensures
        app_views(r@) == offered(root_views(roots@)),
{
    let all = candidates();
    let mut apps: Vec<ExternalApp> = Vec::new();
    let mut i: usize = 0;
    proof {
        assert(app_views(apps@) =~= present_among(0, root_views(roots@)));
    }
    while i < all.len()
        invariant
            i <= all@.len(),
            all@.len() == catalogue().len(),
            forall|k: int| 0 <= k < all@.len() ==> (#[trigger] all@[k])@ == catalogue()[k],
            app_views(apps@) == present_among(i as nat, root_views(roots@)),
        decreases all.len() - i,
    {
        let c = &all[i];
        assert(c@ == catalogue()[i as int]);
        if bundle_is_present(c.bundle, roots) {
            let ghost before = apps@;
            apps.push(
                ExternalApp { label: c.label, bundle_id: Some(c.bundle_id), icon: c.icon },
            );
            proof {
                assert(app_views(apps@) =~= app_views(before).push(apps@[before.len() as int]@));
            }
        }
        i += 1;
    }
    let ghost before = apps@;
    apps.push(ExternalApp { label: "Default app", bundle_id: None, icon: "folder" });
    proof {
        assert(app_views(apps@) =~= app_views(before).push(apps@[before.len() as int]@));
    }
    apps
}

// ---------------------------------------------------------------------------
// Launching

/// Why a path is not handed out.
pub open spec fn path_fault(path: Seq<char>, is_directory: bool) -> Option<Seq<char>> {
    if !(path.len() > 0 && path[0] == '/') {
        Some("Refusing to open a relative path"@)
    } else if !is_directory {
        Some(path + " is no longer a directory; refresh the checkout"@)
    } else {
        None
    }
}

/// What `/usr/bin/open` is given. A path never stands where it could be read as an option.
pub open spec fn arguments_of(app: ExternalAppView, path: Seq<char>) -> Seq<Seq<char>> {
    (match app.bundle_id {
        Some(id) => seq!["-b"@, id],
        None => Seq::empty(),
    }) + seq!["--"@, path]
}

/// What `/usr/bin/open` is to be given for a path, which `is_directory` says to be one or not.
pub fn open_in(app: &ExternalApp, path: &str, is_directory: bool) -> (r: Result<
    Vec<String>,
    String,
>)
    ensures
        match r {
            Ok(arguments) => path_fault(path@, is_directory) is None && text::texts(arguments@)
                == arguments_of(app@, path@),
            Err(e) => path_fault(path@, is_directory) == Some(e@),
        },
{
    let chars = text::chars_of(path);
    if chars.len() == 0 || chars[0] != '/' {
        return Err("Refusing to open a relative path".to_owned());
    }
    if !is_directory {
        let mut out: String = path.to_owned();
        out.append(" is no longer a directory; refresh the checkout");
        return Err(out);
    }
    let mut arguments: Vec<String> = Vec::new();
    if let Some(id) = app.bundle_id {
        arguments.push("-b".to_owned());
        arguments.push(id.to_owned());
    }
    arguments.push("--".to_owned());
    arguments.push(path.to_owned());
    proof {
        assert(text::texts(arguments@) =~= arguments_of(app@, path@));
    }
    Ok(arguments)
}

/// What came of a launch.
pub enum Launch {
    /// It could not be run.
    NotRun(String),
    /// It ran, with success or not, and wrote this.
    Ran(bool, Vec<u8>),
}

pub open spec fn launch_fault(app: ExternalAppView, launch: Launch) -> Option<Seq<char>> {
    match launch {
        Launch::NotRun(error) => Some("Cannot run open: "@ + error@),
        Launch::Ran(success, stderr) => if success {
            None
        } else {
            Some(reported(app, text::lossy_of(stderr@)))
        },
    }
}

/// What is said of a launch that failed: what it wrote, or that it failed.
pub open spec fn reported(app: ExternalAppView, written: Seq<char>) -> Seq<char> {
    if text::trimmed(written).len() == 0 {
        app.label + " could not open this checkout"@
    } else {
        text::trimmed(written)
    }
}

/// What is said of a launch that failed and wrote this.
pub fn failure_text(app: &ExternalApp, written: &str) -> (r: String)
    ensures
        r@ == reported(app@, written@),
{
    let detail = text::trim(written);
    if detail.as_str().is_empty() {
        let mut out: String = app.label.to_owned();
        out.append(" could not open this checkout");
        out
    } else {
        detail
    }
}

/// What the user is told of a launch.
pub fn launch_outcome(app: &ExternalApp, launch: &Launch) -> (r: Result<(), String>)
    ensures
        match r {
            Ok(_) => launch_fault(app@, *launch) is None,
            Err(e) => launch_fault(app@, *launch) == Some(e@),
        },
{
    match launch {
        Launch::NotRun(error) => {
            let mut out: String = "Cannot run open: ".to_owned();
            out.append(error);
            Err(out)
        },
        Launch::Ran(success, stderr) => {
            if *success {
                return Ok(());
            }
            Err(failure_text(app, &text::lossy_text(stderr)))
        },
    }
}

// ---------------------------------------------------------------------------
// Laws

/// The system's handler is always offered, last and once; whatever else is offered is present.
pub proof fn law_the_default_is_always_offered(roots: Seq<Seq<Seq<char>>>)
    ensures
        offered(roots).last() == default_app(),
        forall|i: int|
            0 <= i < offered(roots).len() - 1 ==> (#[trigger] offered(roots)[i]).bundle_id is Some,
        offered(Seq::empty()) == seq![default_app()],
{
    lemma_present_have_identifiers(catalogue().len(), roots);
    lemma_nothing_is_present(catalogue().len());
    assert(offered(Seq::empty()) =~= seq![default_app()]);
}

proof fn lemma_present_have_identifiers(n: nat, roots: Seq<Seq<Seq<char>>>)
    ensures
        forall|i: int|
            0 <= i < present_among(n, roots).len() ==> (#[trigger] present_among(
                n,
                roots,
            )[i]).bundle_id is Some,
    decreases n,
{
    if n > 0 {
        lemma_present_have_identifiers((n - 1) as nat, roots);
    }
}

proof fn lemma_nothing_is_present(n: nat)
    ensures
        present_among(n, Seq::empty()) == Seq::<ExternalAppView>::empty(),
    decreases n,
{
    if n > 0 {
        lemma_nothing_is_present((n - 1) as nat);
    }
}

/// A relative path is refused, and so is one that is no directory, before anything is launched.
pub proof fn law_only_absolute_directories_are_opened(path: Seq<char>, is_directory: bool)
    ensures
        path_fault(path, is_directory) is None <==> path.len() > 0 && path[0] == '/'
            && is_directory,
{
}

/// The path is the last argument and stands behind `--`.
pub proof fn law_the_path_is_never_an_option(app: ExternalAppView, path: Seq<char>)
    ensures
        arguments_of(app, path).len() >= 2,
        arguments_of(app, path).last() == path,
        arguments_of(app, path)[arguments_of(app, path).len() - 2] == "--"@,
{
}

} // verus!
