use vstd::prelude::*;
use crate::error::{Failure, FailureView};
use crate::finder::{RootEntry, RootEntryView};

verus! {

/// Whether a path starts at the filesystem root.
pub open spec fn is_absolute(path: Seq<char>) -> bool {
    path.len() > 0 && path[0] == '/'
}

/// The path named by `relative` when looked up from `base`: an absolute
/// `relative` stands for itself, otherwise it is appended to `base` with
/// exactly one separator between the two (none after an empty base).
pub open spec fn joined(base: Seq<char>, relative: Seq<char>) -> Seq<char> {
    if is_absolute(relative) {
        relative
    } else if base.len() == 0 || base.last() == '/' {
        base + relative
    } else {
        base + seq!['/'] + relative
    }
}

/// Joins two paths the way paths are joined where `/` separates their
/// components.
pub fn join_path(base: &str, relative: &str) -> (path: String)
    ensures
        path@ == joined(base@, relative@),
{
    let relative_len: usize = relative.unicode_len();
    if relative_len > 0 && relative.get_char(0) == '/' {
        return String::from_str(relative);
    }
    let base_len: usize = base.unicode_len();
    let mut path = String::from_str(base);
    if base_len > 0 && base.get_char(base_len - 1) != '/' {
        proof {
            reveal_strlit("/");
            assert("/"@ =~= seq!['/']);
        }
        path.append("/");
    }
    path.append(relative);
    path
}

/// What `std::path::Path::parent` gives for a path.
pub uninterp spec fn path_parent(path: Seq<char>) -> Option<Seq<char>>;

/// `std::path::Path::parent` on `path`. Nothing is claimed of the result
/// but that it is the same for the same path.
#[verifier::external_body]
pub(crate) fn parent_of(path: &str) -> (parent: Option<String>)
    ensures
        parent.is_some() == path_parent(path@).is_some(),
        parent matches Some(p) ==> Some(p@) == path_parent(path@),
{
    match std::path::Path::new(path).parent() {
        Some(parent) => Some(parent.to_string_lossy().into_owned()),
        None => None,
    }
}

/// The run context handed to every operation: the mount point of the
/// filesystem being migrated, the number of phases announced so far, and
/// what the run has to remember between two actions.
#[derive(Clone, Debug, PartialEq, Eq)]
pub struct MigrationContext {
    pub root_path: String,
    pub current_step: u32,
    /// The directory listing that is being worked through.
    pub listing: Vec<String>,
    /// The legacy root filesystems examined so far.
    pub candidates: Vec<RootEntry>,
    /// The legacy root filesystem that was picked.
    pub rootfs_v1: String,
    /// A failure held back until the overlay mount is released.
    pub postponed: Option<Failure>,
}

/// Mathematical model of a [`MigrationContext`].
pub struct ContextView {
    pub root_path: Seq<char>,
    pub current_step: u32,
    pub listing: Seq<Seq<char>>,
    pub candidates: Seq<RootEntryView>,
    pub rootfs_v1: Seq<char>,
    pub postponed: Option<FailureView>,
}

impl View for MigrationContext {
    type V = ContextView;

    open spec fn view(&self) -> ContextView {
        ContextView {
            root_path: self.root_path@,
            current_step: self.current_step,
            listing: self.listing.deep_view(),
            candidates: self.candidates.deep_view(),
            rootfs_v1: self.rootfs_v1@,
            postponed: match self.postponed {
                Some(failure) => Some(failure@),
                None => None,
            },
        }
    }
}

impl ContextView {
    /// The context of a run that has not begun.
    pub open spec fn fresh(root_path: Seq<char>) -> ContextView {
        ContextView {
            root_path,
            current_step: 0,
            listing: Seq::empty(),
            candidates: Seq::empty(),
            rootfs_v1: Seq::empty(),
            postponed: None,
        }
    }

    /// The location of `relative` below the root.
    pub open spec fn path(self, relative: Seq<char>) -> Seq<char> {
        joined(self.root_path, relative)
    }

    /// Whether `after` differs from this context at most in the listing
    /// that is worked through and in the number of phases announced.
    pub open spec fn same_but_listing(self, after: ContextView) -> bool {
        after == (ContextView { listing: after.listing, current_step: after.current_step, ..self })
    }

    /// The context after the next phase was announced.
    pub open spec fn stepped(self) -> ContextView {
        ContextView {
            current_step: if self.current_step < u32::MAX {
                (self.current_step + 1) as u32
            } else {
                u32::MAX
            },
            ..self
        }
    }
}

impl MigrationContext {
    pub fn new(root_path: &str) -> (ctx: MigrationContext)
        ensures
            ctx@ == ContextView::fresh(root_path@),
    {
        let ctx = MigrationContext {
            root_path: String::from_str(root_path),
            current_step: 0,
            listing: Vec::new(),
            candidates: Vec::new(),
            rootfs_v1: String::new(),
            postponed: None,
        };
        assert(ctx.listing.deep_view() =~= Seq::empty());
        assert(ctx.candidates.deep_view() =~= Seq::empty());
        ctx
    }

    /// The location of `relative` below the root.
    pub fn path(&self, relative: &str) -> (path: String)
        ensures
            path@ == self@.path(relative@),
    {
        join_path(self.root_path.as_str(), relative)
    }

    /// Counts one more phase as announced and returns its number. The
    /// counter stops at the largest value it can hold.
    pub fn log_step(&mut self) -> (number: u32)
        ensures
            number == final(self).current_step,
            final(self)@ == old(self)@.stepped(),
    {
        if self.current_step < u32::MAX {
            self.current_step = self.current_step + 1;
        }
        self.current_step
    }
}

} // verus!
