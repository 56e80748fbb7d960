use vstd::prelude::*;
use crate::action::{
    asked_as, Action, ActionKind, ActionView, Outcome, OutcomeView, Poll, PollView,
};
use crate::context::{join_path, joined, ContextView, MigrationContext};
use crate::error::{Failure, FailureView};

verus! {

/// A child of the root directory: its name, and whether it holds an `etc`
/// child of its own.
#[derive(Clone, Debug, PartialEq, Eq)]
pub struct RootEntry {
    pub name: String,
    pub has_etc: bool,
}

/// Mathematical model of a [`RootEntry`].
pub struct RootEntryView {
    pub name: Seq<char>,
    pub has_etc: bool,
}

impl DeepView for RootEntry {
    type V = RootEntryView;

    open spec fn deep_view(&self) -> RootEntryView {
        RootEntryView { name: self.name@, has_etc: self.has_etc }
    }
}

/// What every legacy root filesystem's name starts with.
pub open spec fn legacy_prefix() -> Seq<char> {
    "@kde-linux_"@
}

/// Whether a name starts with the legacy prefix.
pub open spec fn has_legacy_prefix(name: Seq<char>) -> bool {
    name.len() >= legacy_prefix().len() && name.subrange(0, legacy_prefix().len() as int)
        == legacy_prefix()
}

/// The child that every real root filesystem holds.
pub open spec fn marker_child() -> Seq<char> {
    "etc"@
}

/// Progress of looking for the newest legacy root filesystem.
#[derive(Clone, Copy, Debug, PartialEq, Eq)]
pub enum FindStep {
    /// Asked for the entries of the root directory.
    Listing,
    /// Asked whether entry `index` holds the marker child.
    Probing { index: usize },
}

impl FindStep {
    /// The kind of action whose outcome the step waits for.
    pub open spec fn asks(self) -> ActionKind {
        match self {
            FindStep::Listing => ActionKind::ListDirectory,
            FindStep::Probing { .. } => ActionKind::PathExists,
        }
    }
}

/// The first entry at or after `from` whose name starts with the legacy
/// prefix; the length of the listing where there is none.
pub open spec fn next_prefixed(listing: Seq<Seq<char>>, from: int) -> int
    decreases listing.len() - from,
{
    if from < 0 || from >= listing.len() {
        listing.len() as int
    } else if has_legacy_prefix(listing[from]) {
        from
    } else {
        next_prefixed(listing, from + 1)
    }
}

pub open spec fn is_digit(c: char) -> bool {
    '0' <= c && c <= '9'
}

pub open spec fn all_digits(s: Seq<char>) -> bool {
    forall|i: int| 0 <= i < s.len() ==> is_digit(#[trigger] s[i])
}

/// The value of a decimal digit; zero for any other character.
pub open spec fn digit_value(c: char) -> nat {
    if is_digit(c) {
        (c as int - '0' as int) as nat
    } else {
        0
    }
}

/// The number that a string of decimal digits denotes.
pub open spec fn digits_value(s: Seq<char>) -> nat
    decreases s.len(),
{
    if s.len() == 0 {
        0
    } else {
        digits_value(s.drop_last()) * 10 + digit_value(s.last())
    }
}

/// The version that a directory name carries: the name is the legacy
/// prefix followed by one or more decimal digits whose value fits in 64
/// bits.
pub open spec fn version_of(name: Seq<char>) -> Option<u64> {
    let p = legacy_prefix().len() as int;
    if name.len() > p && name.subrange(0, p) == legacy_prefix() && all_digits(
        name.subrange(p, name.len() as int),
    ) && digits_value(name.subrange(p, name.len() as int)) <= u64::MAX {
        Some(digits_value(name.subrange(p, name.len() as int)) as u64)
    } else {
        None
    }
}

/// Whether an entry is a usable legacy root filesystem.
pub open spec fn is_candidate(entry: RootEntryView) -> bool {
    entry.has_etc && version_of(entry.name) is Some
}

/// Whether entry `k` is the one to pick: a candidate that no candidate
/// exceeds in version and that no earlier candidate equals.
pub open spec fn is_latest(entries: Seq<RootEntryView>, k: int) -> bool {
    &&& 0 <= k < entries.len()
    &&& is_candidate(entries[k])
    &&& forall|j: int|
        0 <= j < entries.len() && is_candidate(#[trigger] entries[j]) ==> version_of(
            entries[j].name,
        )->0 <= version_of(entries[k].name)->0
    &&& forall|j: int|
        0 <= j < k && is_candidate(#[trigger] entries[j]) ==> version_of(entries[j].name)->0
            < version_of(entries[k].name)->0
}

/// The path of the newest legacy root filesystem below `root`, if any.
pub open spec fn latest_rootfs(root: Seq<char>, entries: Seq<RootEntryView>) -> Option<Seq<char>> {
    if exists|k: int| is_latest(entries, k) {
        Some(joined(root, entries[choose|k: int| is_latest(entries, k)].name))
    } else {
        None
    }
}

/// At most one entry is the one to pick.
pub proof fn lemma_latest_unique(entries: Seq<RootEntryView>, a: int, b: int)
    requires
        is_latest(entries, a),
        is_latest(entries, b),
    ensures
        a == b,
{
    if a < b {
        assert(is_candidate(entries[a]));
    } else if b < a {
        assert(is_candidate(entries[b]));
    }
}

/// Whether a name is the legacy prefix followed by one or more digits.
pub open spec fn matches_pattern(name: Seq<char>) -> bool {
    let p = legacy_prefix().len() as int;
    name.len() > p && name.subrange(0, p) == legacy_prefix() && all_digits(
        name.subrange(p, name.len() as int),
    )
}

/// The version of the entry that is picked, if any is.
pub open spec fn latest_version(entries: Seq<RootEntryView>) -> Option<u64> {
    if exists|k: int| is_latest(entries, k) {
        version_of(entries[choose|k: int| is_latest(entries, k)].name)
    } else {
        None
    }
}

/// Wherever there is a candidate, one entry is picked.
pub proof fn lemma_latest_exists(entries: Seq<RootEntryView>, c: int)
    requires
        0 <= c < entries.len(),
        is_candidate(entries[c]),
    ensures
        exists|k: int| is_latest(entries, k),
    decreases entries.len(),
{
    let shorter = entries.drop_last();
    let last = entries.len() - 1;
    assert forall|j: int| 0 <= j < last implies shorter[j] == entries[j] by {}
    if exists|j: int| 0 <= j < last && is_candidate(entries[j]) {
        let j = choose|j: int| 0 <= j < last && is_candidate(entries[j]);
        lemma_latest_exists(shorter, j);
        let k = choose|k: int| is_latest(shorter, k);
        if is_candidate(entries[last]) && version_of(entries[last].name)->0 > version_of(
            entries[k].name,
        )->0 {
            assert forall|j: int| 0 <= j < last && is_candidate(
                #[trigger] entries[j],
            ) implies version_of(entries[j].name)->0 < version_of(entries[last].name)->0 by {
                assert(is_candidate(shorter[j]));
            }
            assert(is_latest(entries, last));
        } else {
            assert forall|j: int|
                0 <= j < entries.len() && is_candidate(#[trigger] entries[j]) implies version_of(
                    entries[j].name,
                )->0 <= version_of(entries[k].name)->0 by {
                if j < last {
                    assert(is_candidate(shorter[j]));
                }
            }
            assert forall|j: int| 0 <= j < k && is_candidate(
                #[trigger] entries[j],
            ) implies version_of(entries[j].name)->0 < version_of(entries[k].name)->0 by {
                assert(is_candidate(shorter[j]));
            }
            assert(is_latest(entries, k));
        }
    } else {
        assert(c == last);
        assert(is_latest(entries, last));
    }
}

/// An entry whose name is not the legacy prefix followed by digits, or
/// that holds no `etc` child, is never picked, and the choice is the same
/// with or without it.
pub proof fn law_non_candidates_are_excluded(root: Seq<char>, entries: Seq<RootEntryView>, k: int)
    requires
        0 <= k < entries.len(),
        !matches_pattern(entries[k].name) || !entries[k].has_etc,
    ensures
        !is_candidate(entries[k]),
        !is_latest(entries, k),
        latest_rootfs(root, entries) == latest_rootfs(root, entries.remove(k)),
{
    let rest = entries.remove(k);
    assert forall|j: int| 0 <= j < rest.len() implies #[trigger] rest[j] == entries[if j < k {
        j
    } else {
        j + 1
    }] by {}
    if exists|a: int| is_latest(entries, a) {
        let a = choose|a: int| is_latest(entries, a);
        let b = if a < k {
            a
        } else {
            a - 1
        };
        assert(rest[b] == entries[a]);
        assert forall|j: int| 0 <= j < rest.len() && is_candidate(
            #[trigger] rest[j],
        ) implies version_of(rest[j].name)->0 <= version_of(rest[b].name)->0 by {
            assert(is_candidate(entries[if j < k {
                j
            } else {
                j + 1
            }]));
        }
        assert forall|j: int| 0 <= j < b && is_candidate(#[trigger] rest[j]) implies version_of(
            rest[j].name,
        )->0 < version_of(rest[b].name)->0 by {
            assert(is_candidate(entries[if j < k {
                j
            } else {
                j + 1
            }]));
        }
        assert(is_latest(rest, b));
        lemma_latest_unique(rest, b, choose|c: int| is_latest(rest, c));
    } else {
        if exists|b: int| is_latest(rest, b) {
            let b = choose|b: int| is_latest(rest, b);
            let a = if b < k {
                b
            } else {
                b + 1
            };
            assert(rest[b] == entries[a]);
            lemma_latest_exists(entries, a);
        }
    }
}

/// The version that is picked is the largest version of any candidate,
/// so it does not depend on the order in which the directory was listed.
pub proof fn law_latest_version_ignores_order(a: Seq<RootEntryView>, b: Seq<RootEntryView>)
    requires
        a.to_multiset() == b.to_multiset(),
    ensures
        latest_version(a) == latest_version(b),
{
    broadcast use vstd::seq_lib::group_to_multiset_ensures;

    lemma_latest_version_bounded(a, b);
    lemma_latest_version_bounded(b, a);
}

proof fn lemma_latest_version_bounded(a: Seq<RootEntryView>, b: Seq<RootEntryView>)
    requires
        a.to_multiset() == b.to_multiset(),
    ensures
        latest_version(a) is Some ==> latest_version(b) is Some && latest_version(a)->0
            <= latest_version(b)->0,
{
    broadcast use vstd::seq_lib::group_to_multiset_ensures;

    if exists|k: int| is_latest(a, k) {
        let k = choose|k: int| is_latest(a, k);
        assert(a.contains(a[k]));
        assert(b.to_multiset().count(a[k]) > 0);
        assert(b.contains(a[k]));
        let j = choose|j: int| 0 <= j < b.len() && b[j] == a[k];
        lemma_latest_exists(b, j);
        let m = choose|m: int| is_latest(b, m);
        assert(is_candidate(b[j]));
    }
}

/// Where no two candidates carry the same version, the entry that is
/// picked does not depend on the order of the listing either.
pub proof fn law_latest_rootfs_ignores_order(
    root: Seq<char>,
    a: Seq<RootEntryView>,
    b: Seq<RootEntryView>,
)
    requires
        a.to_multiset() == b.to_multiset(),
        forall|i: int, j: int|
            0 <= i < a.len() && 0 <= j < a.len() && is_candidate(#[trigger] a[i]) && is_candidate(
                #[trigger] a[j],
            ) && version_of(a[i].name) == version_of(a[j].name) ==> a[i] == a[j],
    ensures
        latest_rootfs(root, a) == latest_rootfs(root, b),
{
    broadcast use vstd::seq_lib::group_to_multiset_ensures;

    law_latest_version_ignores_order(a, b);
    if exists|k: int| is_latest(a, k) {
        let k = choose|k: int| is_latest(a, k);
        let m = choose|m: int| is_latest(b, m);
        assert(b.contains(b[m]));
        assert(a.to_multiset().count(b[m]) > 0);
        assert(a.contains(b[m]));
        let i = choose|i: int| 0 <= i < a.len() && a[i] == b[m];
        assert(is_candidate(a[i]));
        assert(is_candidate(a[k]));
    }
}

proof fn lemma_digits_value_step(s: Seq<char>, i: int)
    requires
        0 <= i < s.len(),
    ensures
        digits_value(s.subrange(0, i + 1)) == digits_value(s.subrange(0, i)) * 10 + digit_value(
            s[i],
        ),
{
    assert(s.subrange(0, i + 1).drop_last() =~= s.subrange(0, i));
}

proof fn lemma_digits_value_grows(s: Seq<char>, i: int)
    requires
        0 <= i <= s.len(),
    ensures
        digits_value(s.subrange(0, i)) <= digits_value(s),
    decreases s.len() - i,
{
    if i == s.len() {
        assert(s.subrange(0, i) =~= s);
    } else {
        lemma_digits_value_step(s, i);
        lemma_digits_value_grows(s, i + 1);
    }
}

pub struct LegacyRootFsV1Finder;

impl LegacyRootFsV1Finder {
    pub fn has_legacy_prefix(name: &str) -> (b: bool)
        ensures
            b == has_legacy_prefix(name@),
    {
        let prefix = "@kde-linux_";
        let n: usize = name.unicode_len();
        let p: usize = prefix.unicode_len();
        if n < p {
            return false;
        }
        let mut i: usize = 0;
        while i < p
            invariant
                0 <= i <= p <= n,
                n == name@.len(),
                p == prefix@.len(),
                prefix@ == legacy_prefix(),
                forall|j: int| 0 <= j < i ==> name@[j] == prefix@[j],
            decreases p - i,
        {
            if name.get_char(i) != prefix.get_char(i) {
                proof {
                    assert(name@.subrange(0, p as int)[i as int] == name@[i as int]);
                }
                return false;
            }
            i = i + 1;
        }
        assert(name@.subrange(0, p as int) =~= legacy_prefix());
        true
    }

    /// Reads the version out of a directory name.
    pub fn parse_version(name: &str) -> (version: Option<u64>)
        ensures
            version == version_of(name@),
    {
        if !Self::has_legacy_prefix(name) {
            return None;
        }
        let n: usize = name.unicode_len();
        let p: usize = "@kde-linux_".unicode_len();
        if n <= p {
            return None;
        }
        let ghost digits = name@.subrange(p as int, n as int);
        let mut value: u64 = 0;
        let mut i: usize = p;
        while i < n
            invariant
                p <= i <= n,
                n == name@.len(),
                p == legacy_prefix().len(),
                digits == name@.subrange(p as int, n as int),
                name@.subrange(0, p as int) == legacy_prefix(),
                all_digits(digits.subrange(0, i - p)),
                value == digits_value(digits.subrange(0, i - p)),
            decreases n - i,
        {
            let c = name.get_char(i);
            if !(c >= '0' && c <= '9') {
                proof {
                    assert(digits[i - p] == c);
                }
                return None;
            }
            let d: u64 = (c as u64) - ('0' as u64);
            proof {
                assert(digits[i - p] == c);
                lemma_digits_value_step(digits, i - p);
                assert forall|j: int| 0 <= j < i + 1 - p implies is_digit(
                    #[trigger] digits.subrange(0, i + 1 - p)[j],
                ) by {
                    if j < i - p {
                        assert(digits.subrange(0, i - p)[j] == digits[j]);
                    }
                }
            }
            if value > (u64::MAX - d) / 10 {
                proof {
                    lemma_digits_value_grows(digits, i + 1 - p);
                }
                return None;
            }
            value = value * 10 + d;
            i = i + 1;
        }
        assert(digits.subrange(0, n - p) =~= digits);
        Some(value)
    }

    /// Picks the newest legacy root filesystem among the children of
    /// `root`: the entry with the largest version among those that carry
    /// one and hold an `etc` child; the first such entry where several
    /// carry that version.
    pub fn select_latest(root: &str, entries: &Vec<RootEntry>) -> (found: Option<String>)
        ensures
            found.is_some() <==> exists|k: int|
                0 <= k < entries.len() && is_candidate(#[trigger] entries.deep_view()[k]),
            match found {
                Some(path) => Some(path@) == latest_rootfs(root@, entries.deep_view()),
                None => latest_rootfs(root@, entries.deep_view()) is None,
            },
    {
        let ghost view = entries.deep_view();
        let mut best: Option<(usize, u64)> = None;
        let mut i: usize = 0;
        while i < entries.len()
            invariant
                0 <= i <= entries.len(),
                view == entries.deep_view(),
                view.len() == entries.len(),
                match best {
                    Some((k, version)) => k < i && is_latest(view.subrange(0, i as int), k as int)
                        && version_of(view[k as int].name) == Some(version),
                    None => forall|j: int| 0 <= j < i ==> !is_candidate(#[trigger] view[j]),
                },
            decreases entries.len() - i,
        {
            let entry = &entries[i];
            assert(view[i as int] == entry.deep_view());
            let ghost before = view.subrange(0, i as int);
            let ghost after = view.subrange(0, i + 1);
            assert forall|j: int| 0 <= j < i implies before[j] == after[j] by {}
            assert(after[i as int] == view[i as int]);
            let mut replaced = false;
            if entry.has_etc {
                if let Some(version) = Self::parse_version(entry.name.as_str()) {
                    let better = match best {
                        Some((_, current)) => current < version,
                        None => true,
                    };
                    if better {
                        proof {
                            match best {
                                Some((k, current)) => {
                                    assert forall|j: int|
                                        0 <= j < i && is_candidate(
                                            #[trigger] after[j],
                                        ) implies version_of(after[j].name)->0 < version by {
                                        assert(is_candidate(before[j]));
                                    }
                                },
                                None => {
                                    assert forall|j: int| 0 <= j < i implies !is_candidate(
                                        #[trigger] after[j],
                                    ) by {
                                        assert(!is_candidate(view[j]));
                                    }
                                },
                            }
                            assert(is_latest(after, i as int));
                        }
                        best = Some((i, version));
                        replaced = true;
                    }
                }
            }
            proof {
                if !replaced {
                    match best {
                        Some((k, current)) => {
                            assert forall|j: int|
                                0 <= j < i + 1 && is_candidate(
                                    #[trigger] after[j],
                                ) implies version_of(after[j].name)->0 <= current by {
                                if j < i {
                                    assert(is_candidate(before[j]));
                                }
                            }
                            assert forall|j: int|
                                0 <= j < k && is_candidate(
                                    #[trigger] after[j],
                                ) implies version_of(after[j].name)->0 < current by {
                                assert(is_candidate(before[j]));
                            }
                            assert(after[k as int] == before[k as int]);
                            assert(is_latest(after, k as int));
                        },
                        None => {
                            assert(!is_candidate(view[i as int]));
                        },
                    }
                }
            }
            i = i + 1;
        }
        assert(view.subrange(0, i as int) =~= view);
        match best {
            Some((k, _)) => {
                proof {
                    let chosen = choose|c: int| is_latest(view, c);
                    lemma_latest_unique(view, k as int, chosen);
                }
                Some(join_path(root, entries[k].name.as_str()))
            },
            None => {
                assert forall|k: int| !is_latest(view, k) by {
                    if 0 <= k < view.len() {
                        assert(!is_candidate(view[k]));
                    }
                }
                None
            },
        }
    }

    pub open spec fn spec_begin_find_latest(ctx: ContextView) -> (FindStep, ActionView) {
        (FindStep::Listing, ActionView::ListDirectory { path: ctx.root_path })
    }

    /// What follows once the entries before `from` are examined: the next
    /// entry whose name starts with the legacy prefix is probed for the
    /// marker child; when none is left, the newest candidate is picked
    /// and remembered, and the value says whether there was one.
    pub open spec fn spec_scan_from(ctx: ContextView, from: int) -> (
        ContextView,
        PollView<FindStep, bool>,
    ) {
        let index = next_prefixed(ctx.listing, from);
        if 0 <= index < ctx.listing.len() {
            (
                ctx,
                PollView::Pending {
                    step: FindStep::Probing { index: index as usize },
                    action: ActionView::PathExists {
                        path: joined(joined(ctx.root_path, ctx.listing[index]), marker_child()),
                    },
                },
            )
        } else {
            match latest_rootfs(ctx.root_path, ctx.candidates) {
                Some(path) => (ContextView { rootfs_v1: path, ..ctx }, PollView::Ready { value: true }),
                None => (ctx, PollView::Ready { value: false }),
            }
        }
    }

    #[verifier::opaque]
    /// Looking for the newest legacy root filesystem: the root directory
    /// is listed, each child whose name starts with the legacy prefix is
    /// probed for the marker child, and the newest candidate is picked.
    /// A probe that points outside the listing is a stray step.
    pub open spec fn spec_find_latest(ctx: ContextView, step: FindStep, outcome: OutcomeView) -> (
        ContextView,
        PollView<FindStep, bool>,
    ) {
        match step {
            FindStep::Listing => match outcome {
                OutcomeView::Entries { names } => Self::spec_scan_from(
                    ContextView { listing: names, candidates: Seq::empty(), ..ctx },
                    0,
                ),
                OutcomeView::EntryFailed { reason } => (
                    ctx,
                    PollView::Failed {
                        failure: FailureView::fatal(
                            "Failed to read directory entry: "@,
                            reason,
                            "V1 detection"@,
                        ),
                    },
                ),
                _ => (
                    ctx,
                    PollView::Failed {
                        failure: FailureView::fatal(
                            "Failed to read root directory: "@,
                            outcome.reason(),
                            "V1 detection"@,
                        ),
                    },
                ),
            },
            FindStep::Probing { index } => if index < ctx.listing.len() {
                Self::spec_scan_from(
                    ContextView {
                        candidates: ctx.candidates.push(
                            RootEntryView {
                                name: ctx.listing[index as int],
                                has_etc: outcome.affirmed(),
                            },
                        ),
                        ..ctx
                    },
                    index + 1,
                )
            } else {
                (ctx, PollView::Failed { failure: FailureView::StrayStep })
            },
        }
    }

    pub fn begin_find_latest(ctx: &MigrationContext) -> (begun: (FindStep, Action))
        ensures
            (begun.0, begun.1@) == Self::spec_begin_find_latest(ctx@),
    {
        (FindStep::Listing, Action::ListDirectory { path: ctx.root_path.clone() })
    }

    fn scan_from(ctx: &mut MigrationContext, from: usize) -> (poll: Poll<FindStep, bool>)
        ensures
            (final(ctx)@, poll@) == Self::spec_scan_from(old(ctx)@, from as int),
    {
        let mut index: usize = from;
        while index < ctx.listing.len() && !Self::has_legacy_prefix(ctx.listing[index].as_str())
            invariant
                from <= index,
                *ctx == *old(ctx),
                next_prefixed(ctx@.listing, from as int) == next_prefixed(
                    ctx@.listing,
                    index as int,
                ),
            decreases ctx.listing.len() - index,
        {
            index = index + 1;
        }
        if index < ctx.listing.len() {
            let child = join_path(ctx.root_path.as_str(), ctx.listing[index].as_str());
            Poll::Pending {
                step: FindStep::Probing { index },
                action: Action::PathExists { path: join_path(child.as_str(), "etc") },
            }
        } else {
            match Self::select_latest(ctx.root_path.as_str(), &ctx.candidates) {
                Some(path) => {
                    ctx.rootfs_v1 = path;
                    Poll::Ready { value: true }
                },
                None => Poll::Ready { value: false },
            }
        }
    }

    pub fn find_latest(ctx: &mut MigrationContext, step: FindStep, outcome: Outcome) -> (poll: Poll<
        FindStep,
        bool,
    >)
        ensures
            (final(ctx)@, poll@) == Self::spec_find_latest(old(ctx)@, step, outcome@),
    {
        proof {
            reveal(LegacyRootFsV1Finder::spec_find_latest);
        }
        match step {
            FindStep::Listing => {
                match outcome {
                    Outcome::Entries { names } => {
                        ctx.listing = names;
                        ctx.candidates = Vec::new();
                        assert(ctx.candidates.deep_view() =~= Seq::empty());
                        Self::scan_from(ctx, 0)
                    },
                    Outcome::EntryFailed { reason } => Poll::Failed {
                        failure: Failure::fatal(
                            "Failed to read directory entry: ",
                            reason.as_str(),
                            "V1 detection",
                        ),
                    },
                    other => {
                        let reason = other.reason();
                        Poll::Failed {
                            failure: Failure::fatal(
                                "Failed to read root directory: ",
                                reason.as_str(),
                                "V1 detection",
                            ),
                        }
                    },
                }
            },
            FindStep::Probing { index } => {
                if index < ctx.listing.len() {
                    let entry = RootEntry {
                        name: ctx.listing[index].clone(),
                        has_etc: outcome.affirmed(),
                    };
                    let ghost before = ctx.candidates.deep_view();
                    ctx.candidates.push(entry);
                    assert(ctx.candidates.deep_view() =~= before.push(entry.deep_view()));
                    Self::scan_from(ctx, index + 1)
                } else {
                    Poll::Failed { failure: Failure::StrayStep }
                }
            },
        }
    }
}


/// Every step of the search asks for what it waits for, and leaves the
/// root and what is held back untouched.
pub proof fn lemma_find_step(ctx: ContextView, step: FindStep, outcome: OutcomeView)
    ensures
        asked_as(
            LegacyRootFsV1Finder::spec_find_latest(ctx, step, outcome).1,
            |s: FindStep| s.asks(),
        ),
        LegacyRootFsV1Finder::spec_find_latest(ctx, step, outcome).0.root_path == ctx.root_path,
        LegacyRootFsV1Finder::spec_find_latest(ctx, step, outcome).0.postponed == ctx.postponed,
        LegacyRootFsV1Finder::spec_find_latest(ctx, step, outcome).0.current_step
            == ctx.current_step,
{
    reveal(LegacyRootFsV1Finder::spec_find_latest);
}

} // verus!
