//! What is read of a checkout and of a rebase in it: plain values.

use vstd::prelude::*;

use crate::text;

verus! {

/// What identifies the state of a checkout that was read.
#[derive(Debug, PartialEq, Eq)]
pub struct SnapshotGuard {
    pub fingerprint: String,
}

#[verifier::ext_equal]
pub struct SnapshotGuardView {
    pub fingerprint: Seq<char>,
}

impl View for SnapshotGuard {
    type V = SnapshotGuardView;

    open spec fn view(&self) -> SnapshotGuardView {
        SnapshotGuardView {
            fingerprint: self.fingerprint@,
        }
    }
}

impl Clone for SnapshotGuard {
    fn clone(&self) -> (r: Self)
        ensures
            r == *self,
    {
        SnapshotGuard {
            fingerprint: self.fingerprint.clone(),
        }
    }
}

impl SnapshotGuard {
    /// Whether two values agree in every field.
    pub fn same(&self, other: &Self) -> (r: bool)
        ensures
            r == (self@ == other@),
    {
        self.fingerprint == other.fingerprint
    }
}

/// Where the head of a checkout is.
#[derive(Debug, PartialEq, Eq)]
pub enum HeadState {
    Attached { branch: String, oid: String },
    Detached { oid: String },
    Unborn { branch: String },
}

#[verifier::ext_equal]
pub enum HeadStateView {
    Attached { branch: Seq<char>, oid: Seq<char> },
    Detached { oid: Seq<char> },
    Unborn { branch: Seq<char> },
}

impl View for HeadState {
    type V = HeadStateView;

    open spec fn view(&self) -> HeadStateView {
        match self {
            HeadState::Attached { branch, oid } => HeadStateView::Attached { branch: branch@, oid: oid@ },
            HeadState::Detached { oid } => HeadStateView::Detached { oid: oid@ },
            HeadState::Unborn { branch } => HeadStateView::Unborn { branch: branch@ },
        }
    }
}

impl Clone for HeadState {
    fn clone(&self) -> (r: Self)
        ensures
            r == *self,
    {
        match self {
            HeadState::Attached { branch, oid } => HeadState::Attached { branch: branch.clone(), oid: oid.clone() },
            HeadState::Detached { oid } => HeadState::Detached { oid: oid.clone() },
            HeadState::Unborn { branch } => HeadState::Unborn { branch: branch.clone() },
        }
    }
}

impl HeadState {
    /// Whether two values are the same, with the same fields.
    pub fn same(&self, other: &Self) -> (r: bool)
        ensures
            r == (self@ == other@),
    {
        match (self, other) {
            (HeadState::Attached { branch: branch_a, oid: oid_a }, HeadState::Attached { branch: branch_b, oid: oid_b }) => text::same_text(branch_a, branch_b) && text::same_text(oid_a, oid_b),
            (HeadState::Detached { oid: oid_a }, HeadState::Detached { oid: oid_b }) => text::same_text(oid_a, oid_b),
            (HeadState::Unborn { branch: branch_a }, HeadState::Unborn { branch: branch_b }) => text::same_text(branch_a, branch_b),
            _ => false,
        }
    }
}

/// A local branch and its commit.
#[derive(Debug, PartialEq, Eq)]
pub struct BranchOid {
    pub branch: String,
    pub oid: String,
}

#[verifier::ext_equal]
pub struct BranchOidView {
    pub branch: Seq<char>,
    pub oid: Seq<char>,
}

impl View for BranchOid {
    type V = BranchOidView;

    open spec fn view(&self) -> BranchOidView {
        BranchOidView {
            branch: self.branch@,
            oid: self.oid@,
        }
    }
}

impl Clone for BranchOid {
    fn clone(&self) -> (r: Self)
        ensures
            r == *self,
    {
        BranchOid {
            branch: self.branch.clone(),
            oid: self.oid.clone(),
        }
    }
}

impl BranchOid {
    /// Whether two values agree in every field.
    pub fn same(&self, other: &Self) -> (r: bool)
        ensures
            r == (self@ == other@),
    {
        self.branch == other.branch
            && self.oid == other.oid
    }
}

pub open spec fn branch_oid_views(s: Seq<BranchOid>) -> Seq<BranchOidView> {
    s.map_values(|x: BranchOid| x@)
}

pub fn clone_branch_oids(v: &Vec<BranchOid>) -> (r: Vec<BranchOid>)
    ensures
        branch_oid_views(r@) == branch_oid_views(v@),
{
    let mut out: Vec<BranchOid> = Vec::new();
    let mut i: usize = 0;
    while i < v.len()
        invariant
            i <= v@.len(),
            out@.len() == i,
            forall|k: int| 0 <= k < i ==> (#[trigger] out@[k])@ == v@[k]@,
        decreases v.len() - i,
    {
        out.push(v[i].clone());
        i += 1;
    }
    proof {
        assert(branch_oid_views(out@) =~= branch_oid_views(v@));
    }
    out
}

pub fn same_branch_oids(a: &Vec<BranchOid>, b: &Vec<BranchOid>) -> (r: bool)
    ensures
        r == (branch_oid_views(a@) == branch_oid_views(b@)),
{
    if a.len() != b.len() {
        assert(branch_oid_views(a@).len() != branch_oid_views(b@).len());
        return false;
    }
    let mut i: usize = 0;
    while i < a.len()
        invariant
            a@.len() == b@.len(),
            i <= a@.len(),
            forall|k: int| 0 <= k < i ==> (#[trigger] a@[k])@ == b@[k]@,
        decreases a.len() - i,
    {
        if !a[i].same(&b[i]) {
            assert(branch_oid_views(a@)[i as int] != branch_oid_views(b@)[i as int]);
            return false;
        }
        i += 1;
    }
    proof {
        assert(branch_oid_views(a@) =~= branch_oid_views(b@));
    }
    true
}

/// The state of a checkout.
#[derive(Debug, PartialEq, Eq)]
pub struct LocalSnapshot {
    pub guard: SnapshotGuard,
    pub head: HeadState,
    pub head_label: String,
    pub operation_active: bool,
    pub operation_is_default: bool,
    pub upstream_oid: Option<String>,
    pub local_branch_oids: Vec<BranchOid>,
}

#[verifier::ext_equal]
pub struct LocalSnapshotView {
    pub guard: SnapshotGuardView,
    pub head: HeadStateView,
    pub head_label: Seq<char>,
    pub operation_active: bool,
    pub operation_is_default: bool,
    pub upstream_oid: Option<Seq<char>>,
    pub local_branch_oids: Seq<BranchOidView>,
}

impl View for LocalSnapshot {
    type V = LocalSnapshotView;

    open spec fn view(&self) -> LocalSnapshotView {
        LocalSnapshotView {
            guard: self.guard@,
            head: self.head@,
            head_label: self.head_label@,
            operation_active: self.operation_active,
            operation_is_default: self.operation_is_default,
            upstream_oid: text::option_text(self.upstream_oid),
            local_branch_oids: branch_oid_views(self.local_branch_oids@),
        }
    }
}

impl Clone for LocalSnapshot {
    fn clone(&self) -> (r: Self)
        ensures
            r@ == self@,
    {
        LocalSnapshot {
            guard: self.guard.clone(),
            head: self.head.clone(),
            head_label: self.head_label.clone(),
            operation_active: self.operation_active,
            operation_is_default: self.operation_is_default,
            upstream_oid: self.upstream_oid.clone(),
            local_branch_oids: clone_branch_oids(&self.local_branch_oids),
        }
    }
}

impl LocalSnapshot {
    /// Whether two values agree in every field.
    pub fn same(&self, other: &Self) -> (r: bool)
        ensures
            r == (self@ == other@),
    {
        self.guard.same(&other.guard)
            && self.head.same(&other.head)
            && self.head_label == other.head_label
            && self.operation_active == other.operation_active
            && self.operation_is_default == other.operation_is_default
            && text::same_option_text(&self.upstream_oid, &other.upstream_oid)
            && same_branch_oids(&self.local_branch_oids, &other.local_branch_oids)
    }
}

pub open spec fn optional_local_snapshot(x: Option<LocalSnapshot>) -> Option<LocalSnapshotView> {
    match x {
        Some(v) => Some(v@),
        None => None,
    }
}

/// The commit of a branch of a remote, as it was observed.
#[derive(Debug, PartialEq, Eq)]
pub struct RemoteBranchObservation {
    pub remote: String,
    pub branch: String,
    pub oid: Option<String>,
}

#[verifier::ext_equal]
pub struct RemoteBranchObservationView {
    pub remote: Seq<char>,
    pub branch: Seq<char>,
    pub oid: Option<Seq<char>>,
}

impl View for RemoteBranchObservation {
    type V = RemoteBranchObservationView;

    open spec fn view(&self) -> RemoteBranchObservationView {
        RemoteBranchObservationView {
            remote: self.remote@,
            branch: self.branch@,
            oid: text::option_text(self.oid),
        }
    }
}

impl Clone for RemoteBranchObservation {
    fn clone(&self) -> (r: Self)
        ensures
            r == *self,
    {
        RemoteBranchObservation {
            remote: self.remote.clone(),
            branch: self.branch.clone(),
            oid: self.oid.clone(),
        }
    }
}

impl RemoteBranchObservation {
    /// Whether two values agree in every field.
    pub fn same(&self, other: &Self) -> (r: bool)
        ensures
            r == (self@ == other@),
    {
        self.remote == other.remote
            && self.branch == other.branch
            && text::same_option_text(&self.oid, &other.oid)
    }
}

pub open spec fn optional_remote_branch_observation(x: Option<RemoteBranchObservation>) -> Option<RemoteBranchObservationView> {
    match x {
        Some(v) => Some(v@),
        None => None,
    }
}

/// A path, by its bytes.
#[derive(Debug, PartialEq, Eq)]
pub struct GitPath {
    pub raw: Vec<u8>,
    pub display: String,
}

#[verifier::ext_equal]
pub struct GitPathView {
    pub raw: Seq<u8>,
    pub display: Seq<char>,
}

impl View for GitPath {
    type V = GitPathView;

    open spec fn view(&self) -> GitPathView {
        GitPathView {
            raw: self.raw@,
            display: self.display@,
        }
    }
}

impl Clone for GitPath {
    fn clone(&self) -> (r: Self)
        ensures
            r@ == self@,
    {
        GitPath {
            raw: text::clone_bytes(&self.raw),
            display: self.display.clone(),
        }
    }
}

impl GitPath {
    /// Whether two values agree in every field.
    pub fn same(&self, other: &Self) -> (r: bool)
        ensures
            r == (self@ == other@),
    {
        text::same_bytes(&self.raw, &other.raw)
            && self.display == other.display
    }
}

/// What identifies a rebase that is under way.
#[derive(Debug, PartialEq, Eq)]
pub struct ActiveOperationIdentity {
    pub operation_id: String,
    pub head_name: String,
    pub onto_oid: String,
    pub original_head_oid: String,
    pub stopped_oid: Option<String>,
    pub rebase_head_oid: Option<String>,
    pub stop_is_edit: bool,
    pub todo_sha256: String,
    pub done_sha256: String,
    pub ownership_marker_sha256: String,
}

#[verifier::ext_equal]
pub struct ActiveOperationIdentityView {
    pub operation_id: Seq<char>,
    pub head_name: Seq<char>,
    pub onto_oid: Seq<char>,
    pub original_head_oid: Seq<char>,
    pub stopped_oid: Option<Seq<char>>,
    pub rebase_head_oid: Option<Seq<char>>,
    pub stop_is_edit: bool,
    pub todo_sha256: Seq<char>,
    pub done_sha256: Seq<char>,
    pub ownership_marker_sha256: Seq<char>,
}

impl View for ActiveOperationIdentity {
    type V = ActiveOperationIdentityView;

    open spec fn view(&self) -> ActiveOperationIdentityView {
        ActiveOperationIdentityView {
            operation_id: self.operation_id@,
            head_name: self.head_name@,
            onto_oid: self.onto_oid@,
            original_head_oid: self.original_head_oid@,
            stopped_oid: text::option_text(self.stopped_oid),
            rebase_head_oid: text::option_text(self.rebase_head_oid),
            stop_is_edit: self.stop_is_edit,
            todo_sha256: self.todo_sha256@,
            done_sha256: self.done_sha256@,
            ownership_marker_sha256: self.ownership_marker_sha256@,
        }
    }
}

impl Clone for ActiveOperationIdentity {
    fn clone(&self) -> (r: Self)
        ensures
            r == *self,
    {
        ActiveOperationIdentity {
            operation_id: self.operation_id.clone(),
            head_name: self.head_name.clone(),
            onto_oid: self.onto_oid.clone(),
            original_head_oid: self.original_head_oid.clone(),
            stopped_oid: self.stopped_oid.clone(),
            rebase_head_oid: self.rebase_head_oid.clone(),
            stop_is_edit: self.stop_is_edit,
            todo_sha256: self.todo_sha256.clone(),
            done_sha256: self.done_sha256.clone(),
            ownership_marker_sha256: self.ownership_marker_sha256.clone(),
        }
    }
}

impl ActiveOperationIdentity {
    /// Whether two values agree in every field.
    pub fn same(&self, other: &Self) -> (r: bool)
        ensures
            r == (self@ == other@),
    {
        self.operation_id == other.operation_id
            && self.head_name == other.head_name
            && self.onto_oid == other.onto_oid
            && self.original_head_oid == other.original_head_oid
            && text::same_option_text(&self.stopped_oid, &other.stopped_oid)
            && text::same_option_text(&self.rebase_head_oid, &other.rebase_head_oid)
            && self.stop_is_edit == other.stop_is_edit
            && self.todo_sha256 == other.todo_sha256
            && self.done_sha256 == other.done_sha256
            && self.ownership_marker_sha256 == other.ownership_marker_sha256
    }
}

pub open spec fn optional_active_operation_identity(x: Option<ActiveOperationIdentity>) -> Option<ActiveOperationIdentityView> {
    match x {
        Some(v) => Some(v@),
        None => None,
    }
}

pub fn clone_optional_active_operation_identity(x: &Option<ActiveOperationIdentity>) -> (r: Option<ActiveOperationIdentity>)
    ensures
        optional_active_operation_identity(r) == optional_active_operation_identity(*x),
{
    match x {
        Some(v) => Some(v.clone()),
        None => None,
    }
}

pub fn same_optional_active_operation_identity(a: &Option<ActiveOperationIdentity>, b: &Option<ActiveOperationIdentity>) -> (r: bool)
    ensures
        r == (optional_active_operation_identity(*a) == optional_active_operation_identity(*b)),
{
    match (a, b) {
        (Some(x), Some(y)) => x.same(y),
        (None, None) => true,
        _ => false,
    }
}

/// What an object holds.
#[derive(Debug, PartialEq, Eq)]
pub enum BlobContent {
    Utf8(String),
    Binary,
    Media,
    Symlink(Vec<u8>),
    NonUtf8,
    TooLarge { bytes: u64, limit: u64 },
    Deleted,
}

#[verifier::ext_equal]
pub enum BlobContentView {
    Utf8(Seq<char>),
    Binary,
    Media,
    Symlink(Seq<u8>),
    NonUtf8,
    TooLarge { bytes: u64, limit: u64 },
    Deleted,
}

impl View for BlobContent {
    type V = BlobContentView;

    open spec fn view(&self) -> BlobContentView {
        match self {
            BlobContent::Utf8(x0) => BlobContentView::Utf8(x0@),
            BlobContent::Binary => BlobContentView::Binary,
            BlobContent::Media => BlobContentView::Media,
            BlobContent::Symlink(x0) => BlobContentView::Symlink(x0@),
            BlobContent::NonUtf8 => BlobContentView::NonUtf8,
            BlobContent::TooLarge { bytes, limit } => BlobContentView::TooLarge { bytes: *bytes, limit: *limit },
            BlobContent::Deleted => BlobContentView::Deleted,
        }
    }
}

impl Clone for BlobContent {
    fn clone(&self) -> (r: Self)
        ensures
            r@ == self@,
    {
        match self {
            BlobContent::Utf8(x0) => BlobContent::Utf8(x0.clone()),
            BlobContent::Binary => BlobContent::Binary,
            BlobContent::Media => BlobContent::Media,
            BlobContent::Symlink(x0) => BlobContent::Symlink(text::clone_bytes(x0)),
            BlobContent::NonUtf8 => BlobContent::NonUtf8,
            BlobContent::TooLarge { bytes, limit } => BlobContent::TooLarge { bytes: *bytes, limit: *limit },
            BlobContent::Deleted => BlobContent::Deleted,
        }
    }
}

impl BlobContent {
    /// Whether two values are the same, with the same fields.
    pub fn same(&self, other: &Self) -> (r: bool)
        ensures
            r == (self@ == other@),
    {
        match (self, other) {
            (BlobContent::Utf8(x0_a), BlobContent::Utf8(x0_b)) => text::same_text(x0_a, x0_b),
            (BlobContent::Binary, BlobContent::Binary) => true,
            (BlobContent::Media, BlobContent::Media) => true,
            (BlobContent::Symlink(x0_a), BlobContent::Symlink(x0_b)) => text::same_bytes(x0_a, x0_b),
            (BlobContent::NonUtf8, BlobContent::NonUtf8) => true,
            (BlobContent::TooLarge { bytes: bytes_a, limit: limit_a }, BlobContent::TooLarge { bytes: bytes_b, limit: limit_b }) => *bytes_a == *bytes_b && *limit_a == *limit_b,
            (BlobContent::Deleted, BlobContent::Deleted) => true,
            _ => false,
        }
    }
}

/// One side of a conflict.
#[derive(Debug, PartialEq, Eq)]
pub struct ConflictStage {
    pub oid: Option<String>,
    pub mode: Option<String>,
    pub content: BlobContent,
}

#[verifier::ext_equal]
pub struct ConflictStageView {
    pub oid: Option<Seq<char>>,
    pub mode: Option<Seq<char>>,
    pub content: BlobContentView,
}

impl View for ConflictStage {
    type V = ConflictStageView;

    open spec fn view(&self) -> ConflictStageView {
        ConflictStageView {
            oid: text::option_text(self.oid),
            mode: text::option_text(self.mode),
            content: self.content@,
        }
    }
}

impl Clone for ConflictStage {
    fn clone(&self) -> (r: Self)
        ensures
            r@ == self@,
    {
        ConflictStage {
            oid: self.oid.clone(),
            mode: self.mode.clone(),
            content: self.content.clone(),
        }
    }
}

impl ConflictStage {
    /// Whether two values agree in every field.
    pub fn same(&self, other: &Self) -> (r: bool)
        ensures
            r == (self@ == other@),
    {
        text::same_option_text(&self.oid, &other.oid)
            && text::same_option_text(&self.mode, &other.mode)
            && self.content.same(&other.content)
    }
}

/// How the sides of a conflict differ.
#[derive(Debug, PartialEq, Eq)]
pub enum ConflictKind {
    BothModified,
    AddedByBoth,
    DeletedByOurs,
    DeletedByTheirs,
    /// `details` is whatever else was found, which is compared and not read.
    RenameOrDelete { explanation: String, details: String },
    TypeChange,
}

#[verifier::ext_equal]
pub enum ConflictKindView {
    BothModified,
    AddedByBoth,
    DeletedByOurs,
    DeletedByTheirs,
    RenameOrDelete { explanation: Seq<char>, details: Seq<char> },
    TypeChange,
}

impl View for ConflictKind {
    type V = ConflictKindView;

    open spec fn view(&self) -> ConflictKindView {
        match self {
            ConflictKind::BothModified => ConflictKindView::BothModified,
            ConflictKind::AddedByBoth => ConflictKindView::AddedByBoth,
            ConflictKind::DeletedByOurs => ConflictKindView::DeletedByOurs,
            ConflictKind::DeletedByTheirs => ConflictKindView::DeletedByTheirs,
            ConflictKind::RenameOrDelete { explanation, details } => ConflictKindView::RenameOrDelete { explanation: explanation@, details: details@ },
            ConflictKind::TypeChange => ConflictKindView::TypeChange,
        }
    }
}

impl Clone for ConflictKind {
    fn clone(&self) -> (r: Self)
        ensures
            r == *self,
    {
        match self {
            ConflictKind::BothModified => ConflictKind::BothModified,
            ConflictKind::AddedByBoth => ConflictKind::AddedByBoth,
            ConflictKind::DeletedByOurs => ConflictKind::DeletedByOurs,
            ConflictKind::DeletedByTheirs => ConflictKind::DeletedByTheirs,
            ConflictKind::RenameOrDelete { explanation, details } => ConflictKind::RenameOrDelete { explanation: explanation.clone(), details: details.clone() },
            ConflictKind::TypeChange => ConflictKind::TypeChange,
        }
    }
}

impl ConflictKind {
    /// Whether two values are the same, with the same fields.
    pub fn same(&self, other: &Self) -> (r: bool)
        ensures
            r == (self@ == other@),
    {
        match (self, other) {
            (ConflictKind::BothModified, ConflictKind::BothModified) => true,
            (ConflictKind::AddedByBoth, ConflictKind::AddedByBoth) => true,
            (ConflictKind::DeletedByOurs, ConflictKind::DeletedByOurs) => true,
            (ConflictKind::DeletedByTheirs, ConflictKind::DeletedByTheirs) => true,
            (ConflictKind::RenameOrDelete { explanation: explanation_a, details: details_a }, ConflictKind::RenameOrDelete { explanation: explanation_b, details: details_b }) => text::same_text(explanation_a, explanation_b) && text::same_text(details_a, details_b),
            (ConflictKind::TypeChange, ConflictKind::TypeChange) => true,
            _ => false,
        }
    }
}

/// What lies on disk at a path.
#[derive(Debug, PartialEq, Eq)]
pub enum DiskGeneration {
    Missing,
    Symlink { target_sha256: String },
    Regular { sha256: String, len: u64, device: u64, inode: u64, modified_seconds: i64, modified_nanoseconds: i64 },
    Unsupported,
}

#[verifier::ext_equal]
pub enum DiskGenerationView {
    Missing,
    Symlink { target_sha256: Seq<char> },
    Regular { sha256: Seq<char>, len: u64, device: u64, inode: u64, modified_seconds: i64, modified_nanoseconds: i64 },
    Unsupported,
}

impl View for DiskGeneration {
    type V = DiskGenerationView;

    open spec fn view(&self) -> DiskGenerationView {
        match self {
            DiskGeneration::Missing => DiskGenerationView::Missing,
            DiskGeneration::Symlink { target_sha256 } => DiskGenerationView::Symlink { target_sha256: target_sha256@ },
            DiskGeneration::Regular { sha256, len, device, inode, modified_seconds, modified_nanoseconds } => DiskGenerationView::Regular { sha256: sha256@, len: *len, device: *device, inode: *inode, modified_seconds: *modified_seconds, modified_nanoseconds: *modified_nanoseconds },
            DiskGeneration::Unsupported => DiskGenerationView::Unsupported,
        }
    }
}

impl Clone for DiskGeneration {
    fn clone(&self) -> (r: Self)
        ensures
            r == *self,
    {
        match self {
            DiskGeneration::Missing => DiskGeneration::Missing,
            DiskGeneration::Symlink { target_sha256 } => DiskGeneration::Symlink { target_sha256: target_sha256.clone() },
            DiskGeneration::Regular { sha256, len, device, inode, modified_seconds, modified_nanoseconds } => DiskGeneration::Regular { sha256: sha256.clone(), len: *len, device: *device, inode: *inode, modified_seconds: *modified_seconds, modified_nanoseconds: *modified_nanoseconds },
            DiskGeneration::Unsupported => DiskGeneration::Unsupported,
        }
    }
}

impl DiskGeneration {
    /// Whether two values are the same, with the same fields.
    pub fn same(&self, other: &Self) -> (r: bool)
        ensures
            r == (self@ == other@),
    {
        match (self, other) {
            (DiskGeneration::Missing, DiskGeneration::Missing) => true,
            (DiskGeneration::Symlink { target_sha256: target_sha256_a }, DiskGeneration::Symlink { target_sha256: target_sha256_b }) => text::same_text(target_sha256_a, target_sha256_b),
            (DiskGeneration::Regular { sha256: sha256_a, len: len_a, device: device_a, inode: inode_a, modified_seconds: modified_seconds_a, modified_nanoseconds: modified_nanoseconds_a }, DiskGeneration::Regular { sha256: sha256_b, len: len_b, device: device_b, inode: inode_b, modified_seconds: modified_seconds_b, modified_nanoseconds: modified_nanoseconds_b }) => text::same_text(sha256_a, sha256_b) && *len_a == *len_b && *device_a == *device_b && *inode_a == *inode_b && *modified_seconds_a == *modified_seconds_b && *modified_nanoseconds_a == *modified_nanoseconds_b,
            (DiskGeneration::Unsupported, DiskGeneration::Unsupported) => true,
            _ => false,
        }
    }
}

/// A path that is unmerged.
#[derive(Debug, PartialEq, Eq)]
pub struct ConflictFile {
    pub path: GitPath,
    pub kind: ConflictKind,
    pub base: ConflictStage,
    pub ours: ConflictStage,
    pub theirs: ConflictStage,
    pub disk: DiskGeneration,
}

#[verifier::ext_equal]
pub struct ConflictFileView {
    pub path: GitPathView,
    pub kind: ConflictKindView,
    pub base: ConflictStageView,
    pub ours: ConflictStageView,
    pub theirs: ConflictStageView,
    pub disk: DiskGenerationView,
}

impl View for ConflictFile {
    type V = ConflictFileView;

    open spec fn view(&self) -> ConflictFileView {
        ConflictFileView {
            path: self.path@,
            kind: self.kind@,
            base: self.base@,
            ours: self.ours@,
            theirs: self.theirs@,
            disk: self.disk@,
        }
    }
}

impl Clone for ConflictFile {
    fn clone(&self) -> (r: Self)
        ensures
            r@ == self@,
    {
        ConflictFile {
            path: self.path.clone(),
            kind: self.kind.clone(),
            base: self.base.clone(),
            ours: self.ours.clone(),
            theirs: self.theirs.clone(),
            disk: self.disk.clone(),
        }
    }
}

impl ConflictFile {
    /// Whether two values agree in every field.
    pub fn same(&self, other: &Self) -> (r: bool)
        ensures
            r == (self@ == other@),
    {
        self.path.same(&other.path)
            && self.kind.same(&other.kind)
            && self.base.same(&other.base)
            && self.ours.same(&other.ours)
            && self.theirs.same(&other.theirs)
            && self.disk.same(&other.disk)
    }
}

pub open spec fn conflict_file_views(s: Seq<ConflictFile>) -> Seq<ConflictFileView> {
    s.map_values(|x: ConflictFile| x@)
}

/// A commit, with the bytes of its message and the text that these are.
#[derive(Debug, PartialEq, Eq)]
pub struct CommitEntry {
    pub oid: String,
    pub parent_oid: String,
    pub message_raw: Vec<u8>,
    pub message: String,
}

#[verifier::ext_equal]
pub struct CommitEntryView {
    pub oid: Seq<char>,
    pub parent_oid: Seq<char>,
    pub message_raw: Seq<u8>,
    pub message: Seq<char>,
}

impl View for CommitEntry {
    type V = CommitEntryView;

    open spec fn view(&self) -> CommitEntryView {
        CommitEntryView {
            oid: self.oid@,
            parent_oid: self.parent_oid@,
            message_raw: self.message_raw@,
            message: self.message@,
        }
    }
}

impl Clone for CommitEntry {
    fn clone(&self) -> (r: Self)
        ensures
            r@ == self@,
    {
        CommitEntry {
            oid: self.oid.clone(),
            parent_oid: self.parent_oid.clone(),
            message_raw: text::clone_bytes(&self.message_raw),
            message: self.message.clone(),
        }
    }
}

impl CommitEntry {
    /// Whether two values agree in every field.
    pub fn same(&self, other: &Self) -> (r: bool)
        ensures
            r == (self@ == other@),
    {
        self.oid == other.oid
            && self.parent_oid == other.parent_oid
            && text::same_bytes(&self.message_raw, &other.message_raw)
            && self.message == other.message
    }
}

pub open spec fn commit_entry_views(s: Seq<CommitEntry>) -> Seq<CommitEntryView> {
    s.map_values(|x: CommitEntry| x@)
}

pub fn clone_commit_entrys(v: &Vec<CommitEntry>) -> (r: Vec<CommitEntry>)
    ensures
        commit_entry_views(r@) == commit_entry_views(v@),
{
    let mut out: Vec<CommitEntry> = Vec::new();
    let mut i: usize = 0;
    while i < v.len()
        invariant
            i <= v@.len(),
            out@.len() == i,
            forall|k: int| 0 <= k < i ==> (#[trigger] out@[k])@ == v@[k]@,
        decreases v.len() - i,
    {
        out.push(v[i].clone());
        i += 1;
    }
    proof {
        assert(commit_entry_views(out@) =~= commit_entry_views(v@));
    }
    out
}

pub fn same_commit_entrys(a: &Vec<CommitEntry>, b: &Vec<CommitEntry>) -> (r: bool)
    ensures
        r == (commit_entry_views(a@) == commit_entry_views(b@)),
{
    if a.len() != b.len() {
        assert(commit_entry_views(a@).len() != commit_entry_views(b@).len());
        return false;
    }
    let mut i: usize = 0;
    while i < a.len()
        invariant
            a@.len() == b@.len(),
            i <= a@.len(),
            forall|k: int| 0 <= k < i ==> (#[trigger] a@[k])@ == b@[k]@,
        decreases a.len() - i,
    {
        if !a[i].same(&b[i]) {
            assert(commit_entry_views(a@)[i as int] != commit_entry_views(b@)[i as int]);
            return false;
        }
        i += 1;
    }
    proof {
        assert(commit_entry_views(a@) =~= commit_entry_views(b@));
    }
    true
}

/// The commits from a base to a head.
#[derive(Debug, PartialEq, Eq)]
pub struct CommitInventory {
    pub base_oid: String,
    pub branch: String,
    pub head_oid: String,
    pub commits: Vec<CommitEntry>,
}

#[verifier::ext_equal]
pub struct CommitInventoryView {
    pub base_oid: Seq<char>,
    pub branch: Seq<char>,
    pub head_oid: Seq<char>,
    pub commits: Seq<CommitEntryView>,
}

impl View for CommitInventory {
    type V = CommitInventoryView;

    open spec fn view(&self) -> CommitInventoryView {
        CommitInventoryView {
            base_oid: self.base_oid@,
            branch: self.branch@,
            head_oid: self.head_oid@,
            commits: commit_entry_views(self.commits@),
        }
    }
}

impl Clone for CommitInventory {
    fn clone(&self) -> (r: Self)
        ensures
            r@ == self@,
    {
        CommitInventory {
            base_oid: self.base_oid.clone(),
            branch: self.branch.clone(),
            head_oid: self.head_oid.clone(),
            commits: clone_commit_entrys(&self.commits),
        }
    }
}

impl CommitInventory {
    /// Whether two values agree in every field.
    pub fn same(&self, other: &Self) -> (r: bool)
        ensures
            r == (self@ == other@),
    {
        self.base_oid == other.base_oid
            && self.branch == other.branch
            && self.head_oid == other.head_oid
            && same_commit_entrys(&self.commits, &other.commits)
    }
}

/// What a plan does with a commit.
#[derive(Debug, PartialEq, Eq)]
pub enum PlanAction {
    Pick,
    Squash,
    Fixup,
    Drop,
    Reword { message: String },
    Edit,
}

#[verifier::ext_equal]
pub enum PlanActionView {
    Pick,
    Squash,
    Fixup,
    Drop,
    Reword { message: Seq<char> },
    Edit,
}

impl View for PlanAction {
    type V = PlanActionView;

    open spec fn view(&self) -> PlanActionView {
        match self {
            PlanAction::Pick => PlanActionView::Pick,
            PlanAction::Squash => PlanActionView::Squash,
            PlanAction::Fixup => PlanActionView::Fixup,
            PlanAction::Drop => PlanActionView::Drop,
            PlanAction::Reword { message } => PlanActionView::Reword { message: message@ },
            PlanAction::Edit => PlanActionView::Edit,
        }
    }
}

impl Clone for PlanAction {
    fn clone(&self) -> (r: Self)
        ensures
            r == *self,
    {
        match self {
            PlanAction::Pick => PlanAction::Pick,
            PlanAction::Squash => PlanAction::Squash,
            PlanAction::Fixup => PlanAction::Fixup,
            PlanAction::Drop => PlanAction::Drop,
            PlanAction::Reword { message } => PlanAction::Reword { message: message.clone() },
            PlanAction::Edit => PlanAction::Edit,
        }
    }
}

impl PlanAction {
    /// Whether two values are the same, with the same fields.
    pub fn same(&self, other: &Self) -> (r: bool)
        ensures
            r == (self@ == other@),
    {
        match (self, other) {
            (PlanAction::Pick, PlanAction::Pick) => true,
            (PlanAction::Squash, PlanAction::Squash) => true,
            (PlanAction::Fixup, PlanAction::Fixup) => true,
            (PlanAction::Drop, PlanAction::Drop) => true,
            (PlanAction::Reword { message: message_a }, PlanAction::Reword { message: message_b }) => text::same_text(message_a, message_b),
            (PlanAction::Edit, PlanAction::Edit) => true,
            _ => false,
        }
    }
}

/// One step of a plan.
#[derive(Debug, PartialEq, Eq)]
pub struct PlanStep {
    pub commit_oid: String,
    pub action: PlanAction,
}

#[verifier::ext_equal]
pub struct PlanStepView {
    pub commit_oid: Seq<char>,
    pub action: PlanActionView,
}

impl View for PlanStep {
    type V = PlanStepView;

    open spec fn view(&self) -> PlanStepView {
        PlanStepView {
            commit_oid: self.commit_oid@,
            action: self.action@,
        }
    }
}

impl Clone for PlanStep {
    fn clone(&self) -> (r: Self)
        ensures
            r == *self,
    {
        PlanStep {
            commit_oid: self.commit_oid.clone(),
            action: self.action.clone(),
        }
    }
}

impl PlanStep {
    /// Whether two values agree in every field.
    pub fn same(&self, other: &Self) -> (r: bool)
        ensures
            r == (self@ == other@),
    {
        self.commit_oid == other.commit_oid
            && self.action.same(&other.action)
    }
}

pub open spec fn plan_step_views(s: Seq<PlanStep>) -> Seq<PlanStepView> {
    s.map_values(|x: PlanStep| x@)
}

pub fn clone_plan_steps(v: &Vec<PlanStep>) -> (r: Vec<PlanStep>)
    ensures
        plan_step_views(r@) == plan_step_views(v@),
{
    let mut out: Vec<PlanStep> = Vec::new();
    let mut i: usize = 0;
    while i < v.len()
        invariant
            i <= v@.len(),
            out@.len() == i,
            forall|k: int| 0 <= k < i ==> (#[trigger] out@[k])@ == v@[k]@,
        decreases v.len() - i,
    {
        out.push(v[i].clone());
        i += 1;
    }
    proof {
        assert(plan_step_views(out@) =~= plan_step_views(v@));
    }
    out
}

pub fn same_plan_steps(a: &Vec<PlanStep>, b: &Vec<PlanStep>) -> (r: bool)
    ensures
        r == (plan_step_views(a@) == plan_step_views(b@)),
{
    if a.len() != b.len() {
        assert(plan_step_views(a@).len() != plan_step_views(b@).len());
        return false;
    }
    let mut i: usize = 0;
    while i < a.len()
        invariant
            a@.len() == b@.len(),
            i <= a@.len(),
            forall|k: int| 0 <= k < i ==> (#[trigger] a@[k])@ == b@[k]@,
        decreases a.len() - i,
    {
        if !a[i].same(&b[i]) {
            assert(plan_step_views(a@)[i as int] != plan_step_views(b@)[i as int]);
            return false;
        }
        i += 1;
    }
    proof {
        assert(plan_step_views(a@) =~= plan_step_views(b@));
    }
    true
}

/// A plan that was found valid.
#[derive(Debug, PartialEq, Eq)]
pub struct RebasePlan {
    pub steps: Vec<PlanStep>,
}

#[verifier::ext_equal]
pub struct RebasePlanView {
    pub steps: Seq<PlanStepView>,
}

impl View for RebasePlan {
    type V = RebasePlanView;

    open spec fn view(&self) -> RebasePlanView {
        RebasePlanView {
            steps: plan_step_views(self.steps@),
        }
    }
}

impl Clone for RebasePlan {
    fn clone(&self) -> (r: Self)
        ensures
            r@ == self@,
    {
        RebasePlan {
            steps: clone_plan_steps(&self.steps),
        }
    }
}

impl RebasePlan {
    /// Whether two values agree in every field.
    pub fn same(&self, other: &Self) -> (r: bool)
        ensures
            r == (self@ == other@),
    {
        same_plan_steps(&self.steps, &other.steps)
    }
}

/// What is known of a retained stash.
#[derive(Debug, PartialEq, Eq)]
pub struct StashReceipt {
    pub oid: String,
    pub includes_untracked: bool,
    pub ignored_files_excluded: bool,
    pub retained_after_restore: bool,
}

#[verifier::ext_equal]
pub struct StashReceiptView {
    pub oid: Seq<char>,
    pub includes_untracked: bool,
    pub ignored_files_excluded: bool,
    pub retained_after_restore: bool,
}

impl View for StashReceipt {
    type V = StashReceiptView;

    open spec fn view(&self) -> StashReceiptView {
        StashReceiptView {
            oid: self.oid@,
            includes_untracked: self.includes_untracked,
            ignored_files_excluded: self.ignored_files_excluded,
            retained_after_restore: self.retained_after_restore,
        }
    }
}

impl Clone for StashReceipt {
    fn clone(&self) -> (r: Self)
        ensures
            r == *self,
    {
        StashReceipt {
            oid: self.oid.clone(),
            includes_untracked: self.includes_untracked,
            ignored_files_excluded: self.ignored_files_excluded,
            retained_after_restore: self.retained_after_restore,
        }
    }
}

impl StashReceipt {
    /// Whether two values agree in every field.
    pub fn same(&self, other: &Self) -> (r: bool)
        ensures
            r == (self@ == other@),
    {
        self.oid == other.oid
            && self.includes_untracked == other.includes_untracked
            && self.ignored_files_excluded == other.ignored_files_excluded
            && self.retained_after_restore == other.retained_after_restore
    }
}

pub open spec fn optional_stash_receipt(x: Option<StashReceipt>) -> Option<StashReceiptView> {
    match x {
        Some(v) => Some(v@),
        None => None,
    }
}

pub fn clone_optional_stash_receipt(x: &Option<StashReceipt>) -> (r: Option<StashReceipt>)
    ensures
        optional_stash_receipt(r) == optional_stash_receipt(*x),
{
    match x {
        Some(v) => Some(v.clone()),
        None => None,
    }
}

pub fn same_optional_stash_receipt(a: &Option<StashReceipt>, b: &Option<StashReceipt>) -> (r: bool)
    ensures
        r == (optional_stash_receipt(*a) == optional_stash_receipt(*b)),
{
    match (a, b) {
        (Some(x), Some(y)) => x.same(y),
        (None, None) => true,
        _ => false,
    }
}

/// A preparation that found local changes.
#[derive(Debug, PartialEq, Eq)]
pub struct DirtyPreparation {
    pub inventory: CommitInventory,
    pub guard: SnapshotGuard,
    pub staged: usize,
    pub unstaged: usize,
    pub untracked: usize,
    pub conflicts: usize,
}

#[verifier::ext_equal]
pub struct DirtyPreparationView {
    pub inventory: CommitInventoryView,
    pub guard: SnapshotGuardView,
    pub staged: usize,
    pub unstaged: usize,
    pub untracked: usize,
    pub conflicts: usize,
}

impl View for DirtyPreparation {
    type V = DirtyPreparationView;

    open spec fn view(&self) -> DirtyPreparationView {
        DirtyPreparationView {
            inventory: self.inventory@,
            guard: self.guard@,
            staged: self.staged,
            unstaged: self.unstaged,
            untracked: self.untracked,
            conflicts: self.conflicts,
        }
    }
}

impl Clone for DirtyPreparation {
    fn clone(&self) -> (r: Self)
        ensures
            r@ == self@,
    {
        DirtyPreparation {
            inventory: self.inventory.clone(),
            guard: self.guard.clone(),
            staged: self.staged,
            unstaged: self.unstaged,
            untracked: self.untracked,
            conflicts: self.conflicts,
        }
    }
}

impl DirtyPreparation {
    /// Whether two values agree in every field.
    pub fn same(&self, other: &Self) -> (r: bool)
        ensures
            r == (self@ == other@),
    {
        self.inventory.same(&other.inventory)
            && self.guard.same(&other.guard)
            && self.staged == other.staged
            && self.unstaged == other.unstaged
            && self.untracked == other.untracked
            && self.conflicts == other.conflicts
    }
}

/// A preparation from which a rebase can start.
#[derive(Debug, PartialEq, Eq)]
pub struct RebasePreparation {
    pub inventory: CommitInventory,
    pub guard: SnapshotGuard,
    pub stash: Option<StashReceipt>,
}

#[verifier::ext_equal]
pub struct RebasePreparationView {
    pub inventory: CommitInventoryView,
    pub guard: SnapshotGuardView,
    pub stash: Option<StashReceiptView>,
}

impl View for RebasePreparation {
    type V = RebasePreparationView;

    open spec fn view(&self) -> RebasePreparationView {
        RebasePreparationView {
            inventory: self.inventory@,
            guard: self.guard@,
            stash: optional_stash_receipt(self.stash),
        }
    }
}

impl Clone for RebasePreparation {
    fn clone(&self) -> (r: Self)
        ensures
            r@ == self@,
    {
        RebasePreparation {
            inventory: self.inventory.clone(),
            guard: self.guard.clone(),
            stash: clone_optional_stash_receipt(&self.stash),
        }
    }
}

impl RebasePreparation {
    /// Whether two values agree in every field.
    pub fn same(&self, other: &Self) -> (r: bool)
        ensures
            r == (self@ == other@),
    {
        self.inventory.same(&other.inventory)
            && self.guard.same(&other.guard)
            && same_optional_stash_receipt(&self.stash, &other.stash)
    }
}

pub open spec fn optional_rebase_preparation(x: Option<RebasePreparation>) -> Option<RebasePreparationView> {
    match x {
        Some(v) => Some(v@),
        None => None,
    }
}

/// What a preparation came to.
#[derive(Debug, PartialEq, Eq)]
pub enum PrepareOutcome {
    Ready(RebasePreparation),
    Dirty(DirtyPreparation),
    ExternalWorkflow { explanation: String },
}

#[verifier::ext_equal]
pub enum PrepareOutcomeView {
    Ready(RebasePreparationView),
    Dirty(DirtyPreparationView),
    ExternalWorkflow { explanation: Seq<char> },
}

impl View for PrepareOutcome {
    type V = PrepareOutcomeView;

    open spec fn view(&self) -> PrepareOutcomeView {
        match self {
            PrepareOutcome::Ready(x0) => PrepareOutcomeView::Ready(x0@),
            PrepareOutcome::Dirty(x0) => PrepareOutcomeView::Dirty(x0@),
            PrepareOutcome::ExternalWorkflow { explanation } => PrepareOutcomeView::ExternalWorkflow { explanation: explanation@ },
        }
    }
}

impl Clone for PrepareOutcome {
    fn clone(&self) -> (r: Self)
        ensures
            r@ == self@,
    {
        match self {
            PrepareOutcome::Ready(x0) => PrepareOutcome::Ready(x0.clone()),
            PrepareOutcome::Dirty(x0) => PrepareOutcome::Dirty(x0.clone()),
            PrepareOutcome::ExternalWorkflow { explanation } => PrepareOutcome::ExternalWorkflow { explanation: explanation.clone() },
        }
    }
}

impl PrepareOutcome {
    /// Whether two values are the same, with the same fields.
    pub fn same(&self, other: &Self) -> (r: bool)
        ensures
            r == (self@ == other@),
    {
        match (self, other) {
            (PrepareOutcome::Ready(x0_a), PrepareOutcome::Ready(x0_b)) => x0_a.same(x0_b),
            (PrepareOutcome::Dirty(x0_a), PrepareOutcome::Dirty(x0_b)) => x0_a.same(x0_b),
            (PrepareOutcome::ExternalWorkflow { explanation: explanation_a }, PrepareOutcome::ExternalWorkflow { explanation: explanation_b }) => text::same_text(explanation_a, explanation_b),
            _ => false,
        }
    }
}

pub open spec fn optional_prepare_outcome(x: Option<PrepareOutcome>) -> Option<PrepareOutcomeView> {
    match x {
        Some(v) => Some(v@),
        None => None,
    }
}

/// How far a rebase is.
#[derive(Debug, PartialEq, Eq)]
pub enum RebaseState {
    Prepared,
    Running,
    PausedForEdit,
    Conflicted,
    Completed,
    Aborted,
    FailedUncertain,
}

#[verifier::ext_equal]
pub enum RebaseStateView {
    Prepared,
    Running,
    PausedForEdit,
    Conflicted,
    Completed,
    Aborted,
    FailedUncertain,
}

impl View for RebaseState {
    type V = RebaseStateView;

    open spec fn view(&self) -> RebaseStateView {
        match self {
            RebaseState::Prepared => RebaseStateView::Prepared,
            RebaseState::Running => RebaseStateView::Running,
            RebaseState::PausedForEdit => RebaseStateView::PausedForEdit,
            RebaseState::Conflicted => RebaseStateView::Conflicted,
            RebaseState::Completed => RebaseStateView::Completed,
            RebaseState::Aborted => RebaseStateView::Aborted,
            RebaseState::FailedUncertain => RebaseStateView::FailedUncertain,
        }
    }
}

impl Clone for RebaseState {
    fn clone(&self) -> (r: Self)
        ensures
            r == *self,
    {
        match self {
            RebaseState::Prepared => RebaseState::Prepared,
            RebaseState::Running => RebaseState::Running,
            RebaseState::PausedForEdit => RebaseState::PausedForEdit,
            RebaseState::Conflicted => RebaseState::Conflicted,
            RebaseState::Completed => RebaseState::Completed,
            RebaseState::Aborted => RebaseState::Aborted,
            RebaseState::FailedUncertain => RebaseState::FailedUncertain,
        }
    }
}

impl RebaseState {
    /// Whether two values are the same, with the same fields.
    pub fn same(&self, other: &Self) -> (r: bool)
        ensures
            r == (self@ == other@),
    {
        match (self, other) {
            (RebaseState::Prepared, RebaseState::Prepared) => true,
            (RebaseState::Running, RebaseState::Running) => true,
            (RebaseState::PausedForEdit, RebaseState::PausedForEdit) => true,
            (RebaseState::Conflicted, RebaseState::Conflicted) => true,
            (RebaseState::Completed, RebaseState::Completed) => true,
            (RebaseState::Aborted, RebaseState::Aborted) => true,
            (RebaseState::FailedUncertain, RebaseState::FailedUncertain) => true,
            _ => false,
        }
    }
}

/// How far the restoration of a stash is.
#[derive(Debug, PartialEq, Eq)]
pub enum StashRestoreState {
    NotStarted,
    Conflicted,
    Completed,
    Other { name: String },
}

#[verifier::ext_equal]
pub enum StashRestoreStateView {
    NotStarted,
    Conflicted,
    Completed,
    Other { name: Seq<char> },
}

impl View for StashRestoreState {
    type V = StashRestoreStateView;

    open spec fn view(&self) -> StashRestoreStateView {
        match self {
            StashRestoreState::NotStarted => StashRestoreStateView::NotStarted,
            StashRestoreState::Conflicted => StashRestoreStateView::Conflicted,
            StashRestoreState::Completed => StashRestoreStateView::Completed,
            StashRestoreState::Other { name } => StashRestoreStateView::Other { name: name@ },
        }
    }
}

impl Clone for StashRestoreState {
    fn clone(&self) -> (r: Self)
        ensures
            r == *self,
    {
        match self {
            StashRestoreState::NotStarted => StashRestoreState::NotStarted,
            StashRestoreState::Conflicted => StashRestoreState::Conflicted,
            StashRestoreState::Completed => StashRestoreState::Completed,
            StashRestoreState::Other { name } => StashRestoreState::Other { name: name.clone() },
        }
    }
}

impl StashRestoreState {
    /// Whether two values are the same, with the same fields.
    pub fn same(&self, other: &Self) -> (r: bool)
        ensures
            r == (self@ == other@),
    {
        match (self, other) {
            (StashRestoreState::NotStarted, StashRestoreState::NotStarted) => true,
            (StashRestoreState::Conflicted, StashRestoreState::Conflicted) => true,
            (StashRestoreState::Completed, StashRestoreState::Completed) => true,
            (StashRestoreState::Other { name: name_a }, StashRestoreState::Other { name: name_b }) => text::same_text(name_a, name_b),
            _ => false,
        }
    }
}

/// A commit that is being split.
#[derive(Debug, PartialEq, Eq)]
pub struct SplitState {
    pub stopped_oid: String,
    pub rewritten_stopped_oid: Option<String>,
    pub parent_oid: String,
    pub required_tree_oid: String,
    pub replacement_commit_count: Option<u64>,
}

#[verifier::ext_equal]
pub struct SplitStateView {
    pub stopped_oid: Seq<char>,
    pub rewritten_stopped_oid: Option<Seq<char>>,
    pub parent_oid: Seq<char>,
    pub required_tree_oid: Seq<char>,
    pub replacement_commit_count: Option<u64>,
}

impl View for SplitState {
    type V = SplitStateView;

    open spec fn view(&self) -> SplitStateView {
        SplitStateView {
            stopped_oid: self.stopped_oid@,
            rewritten_stopped_oid: text::option_text(self.rewritten_stopped_oid),
            parent_oid: self.parent_oid@,
            required_tree_oid: self.required_tree_oid@,
            replacement_commit_count: self.replacement_commit_count,
        }
    }
}

impl Clone for SplitState {
    fn clone(&self) -> (r: Self)
        ensures
            r == *self,
    {
        SplitState {
            stopped_oid: self.stopped_oid.clone(),
            rewritten_stopped_oid: self.rewritten_stopped_oid.clone(),
            parent_oid: self.parent_oid.clone(),
            required_tree_oid: self.required_tree_oid.clone(),
            replacement_commit_count: self.replacement_commit_count,
        }
    }
}

impl SplitState {
    /// Whether two values agree in every field.
    pub fn same(&self, other: &Self) -> (r: bool)
        ensures
            r == (self@ == other@),
    {
        self.stopped_oid == other.stopped_oid
            && text::same_option_text(&self.rewritten_stopped_oid, &other.rewritten_stopped_oid)
            && self.parent_oid == other.parent_oid
            && self.required_tree_oid == other.required_tree_oid
            && self.replacement_commit_count == other.replacement_commit_count
    }
}

pub open spec fn optional_split_state(x: Option<SplitState>) -> Option<SplitStateView> {
    match x {
        Some(v) => Some(v@),
        None => None,
    }
}

pub fn clone_optional_split_state(x: &Option<SplitState>) -> (r: Option<SplitState>)
    ensures
        optional_split_state(r) == optional_split_state(*x),
{
    match x {
        Some(v) => Some(v.clone()),
        None => None,
    }
}

pub fn same_optional_split_state(a: &Option<SplitState>, b: &Option<SplitState>) -> (r: bool)
    ensures
        r == (optional_split_state(*a) == optional_split_state(*b)),
{
    match (a, b) {
        (Some(x), Some(y)) => x.same(y),
        (None, None) => true,
        _ => false,
    }
}

/// A rebase as it was observed. Its evidence, its warning and what it hands on to a publication
/// are carried as their texts.
#[derive(Debug, PartialEq, Eq)]
pub struct RebaseOperationView {
    pub operation_id: String,
    pub attempt: u64,
    pub state: RebaseState,
    pub original_branch: String,
    pub original_head_oid: String,
    pub base_oid: String,
    pub active: Option<ActiveOperationIdentity>,
    pub resulting_commits: Vec<CommitEntry>,
    pub stash: Option<StashReceipt>,
    pub stash_restore: StashRestoreState,
    pub split: Option<SplitState>,
    pub evidence: Vec<String>,
    pub publish_warning: Option<String>,
    pub publish_handoff: Option<String>,
}

#[verifier::ext_equal]
pub struct RebaseOperationViewView {
    pub operation_id: Seq<char>,
    pub attempt: u64,
    pub state: RebaseStateView,
    pub original_branch: Seq<char>,
    pub original_head_oid: Seq<char>,
    pub base_oid: Seq<char>,
    pub active: Option<ActiveOperationIdentityView>,
    pub resulting_commits: Seq<CommitEntryView>,
    pub stash: Option<StashReceiptView>,
    pub stash_restore: StashRestoreStateView,
    pub split: Option<SplitStateView>,
    pub evidence: Seq<Seq<char>>,
    pub publish_warning: Option<Seq<char>>,
    pub publish_handoff: Option<Seq<char>>,
}

impl View for RebaseOperationView {
    type V = RebaseOperationViewView;

    open spec fn view(&self) -> RebaseOperationViewView {
        RebaseOperationViewView {
            operation_id: self.operation_id@,
            attempt: self.attempt,
            state: self.state@,
            original_branch: self.original_branch@,
            original_head_oid: self.original_head_oid@,
            base_oid: self.base_oid@,
            active: optional_active_operation_identity(self.active),
            resulting_commits: commit_entry_views(self.resulting_commits@),
            stash: optional_stash_receipt(self.stash),
            stash_restore: self.stash_restore@,
            split: optional_split_state(self.split),
            evidence: text::texts(self.evidence@),
            publish_warning: text::option_text(self.publish_warning),
            publish_handoff: text::option_text(self.publish_handoff),
        }
    }
}

impl Clone for RebaseOperationView {
    fn clone(&self) -> (r: Self)
        ensures
            r@ == self@,
    {
        RebaseOperationView {
            operation_id: self.operation_id.clone(),
            attempt: self.attempt,
            state: self.state.clone(),
            original_branch: self.original_branch.clone(),
            original_head_oid: self.original_head_oid.clone(),
            base_oid: self.base_oid.clone(),
            active: clone_optional_active_operation_identity(&self.active),
            resulting_commits: clone_commit_entrys(&self.resulting_commits),
            stash: clone_optional_stash_receipt(&self.stash),
            stash_restore: self.stash_restore.clone(),
            split: clone_optional_split_state(&self.split),
            evidence: text::clone_texts(&self.evidence),
            publish_warning: self.publish_warning.clone(),
            publish_handoff: self.publish_handoff.clone(),
        }
    }
}

pub open spec fn optional_rebase_operation_view(x: Option<RebaseOperationView>) -> Option<RebaseOperationViewView> {
    match x {
        Some(v) => Some(v@),
        None => None,
    }
}

} // verus!
