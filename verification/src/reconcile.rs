//! The reconciliation of an answer of the service with the snapshot.

use vstd::prelude::*;
use crate::app::{App, SelectedCategory, Snapshot};
use crate::model::{
    Category, MainData, SpeedLimitsMode, TorrentInfo, TorrentInfoSync, TransferInfo,
    TransferInfoSync,
};
use crate::sorting::{law_sorted_by_code_point_ignores_order, sort_names, sorted_names};

verus! {

/// How a reconciliation ended.
#[derive(Clone, Copy, Debug, PartialEq, Eq, Structural)]
pub enum SyncOutcome {
    /// The answer has been merged into the snapshot.
    Applied,
    /// The answer does not suffice: everything has to be fetched anew.
    RequiresFullReload,
}

/// A job with this hash stands in the list.
pub open spec fn has_hash(torrents: Seq<TorrentInfo>, hash: Seq<char>) -> bool {
    exists|i: int| 0 <= i < torrents.len() && (#[trigger] torrents[i]).hash@ == hash
}

/// Place `i` holds the first job with this hash.
pub open spec fn is_first_with_hash(torrents: Seq<TorrentInfo>, hash: Seq<char>, i: int) -> bool {
    &&& 0 <= i < torrents.len()
    &&& torrents[i].hash@ == hash
    &&& forall|j: int| 0 <= j < i ==> (#[trigger] torrents[j]).hash@ != hash
}

/// The place of the first job with this hash, if there is one.
pub open spec fn position_of(torrents: Seq<TorrentInfo>, hash: Seq<char>) -> Option<int> {
    if exists|i: int| is_first_with_hash(torrents, hash, i) {
        Some(choose|i: int| is_first_with_hash(torrents, hash, i))
    } else {
        None
    }
}

/// The test that a job passes when its hash is not among `removed`.
pub open spec fn survives(removed: Seq<Seq<char>>) -> spec_fn(TorrentInfo) -> bool {
    |t: TorrentInfo| !removed.contains(t.hash@)
}

/// The jobs whose hash is not among `removed`, in their order.
pub open spec fn without_hashes(torrents: Seq<TorrentInfo>, removed: Seq<Seq<char>>) -> Seq<
    TorrentInfo,
> {
    torrents.filter(survives(removed))
}

/// The test that a name passes when it is not among `removed`.
pub open spec fn absent_from(removed: Seq<Seq<char>>) -> spec_fn(Seq<char>) -> bool {
    |name: Seq<char>| !removed.contains(name)
}

/// The names that are not among `removed`, in their order.
pub open spec fn without_names(names: Seq<Seq<char>>, removed: Seq<Seq<char>>) -> Seq<Seq<char>> {
    names.filter(absent_from(removed))
}

/// Place `j` holds the first occurrence of the name.
pub open spec fn is_first_place(names: Seq<Seq<char>>, name: Seq<char>, j: int) -> bool {
    &&& 0 <= j < names.len()
    &&& names[j] == name
    &&& forall|k: int| 0 <= k < j ==> #[trigger] names[k] != name
}

/// The place of the first occurrence of the name, if it occurs.
pub open spec fn place_of(names: Seq<Seq<char>>, name: Seq<char>) -> Option<int> {
    if exists|j: int| is_first_place(names, name, j) {
        Some(choose|j: int| is_first_place(names, name, j))
    } else {
        None
    }
}

/// The names under which the entries of a list stand.
pub open spec fn names_of<T>(entries: Seq<(String, T)>) -> Seq<Seq<char>> {
    Seq::new(entries.len(), |i: int| entries[i].0@)
}

/// The jobs after the deltas of `updates`, taken in order: each delta is
/// merged into the first job with its hash. The first delta whose hash no job
/// has ends it: the deltas before it are merged, those after it are not, and
/// the second part of the result says so.
pub open spec fn updated(torrents: Seq<TorrentInfo>, updates: Seq<(String, TorrentInfoSync)>) -> (
    Seq<TorrentInfo>,
    bool,
)
    decreases updates.len(),
{
    if updates.len() == 0 {
        (torrents, false)
    } else {
        let before = updated(torrents, updates.drop_last());
        if before.1 {
            before
        } else {
            match position_of(before.0, updates.last().0@) {
                Some(i) => (before.0.update(i, before.0[i].merged(updates.last().1)), false),
                None => (before.0, true),
            }
        }
    }
}

/// The jobs after the removals that an answer carries.
pub open spec fn after_removals(torrents: Seq<TorrentInfo>, removed: Option<Vec<String>>) -> Seq<
    TorrentInfo,
> {
    match removed {
        Some(removed) => without_hashes(torrents, removed.deep_view()),
        None => torrents,
    }
}

/// The jobs after the deltas that an answer carries, and whether a delta
/// named a job that is not there.
pub open spec fn after_updates(
    torrents: Seq<TorrentInfo>,
    updates: Option<Vec<(String, TorrentInfoSync)>>,
) -> (Seq<TorrentInfo>, bool) {
    match updates {
        Some(updates) => updated(torrents, updates@),
        None => (torrents, false),
    }
}

/// The jobs after the removals and then the deltas of the answer, and
/// whether a delta named a job that is not there.
pub open spec fn jobs_after(torrents: Seq<TorrentInfo>, data: MainData) -> (
    Seq<TorrentInfo>,
    bool,
) {
    after_updates(after_removals(torrents, data.torrents_removed), data.torrents)
}

/// The categories with those that an answer adds, in order by code point;
/// as they are where the answer adds none.
pub open spec fn after_categories_added(
    categories: Seq<Seq<char>>,
    added: Option<Vec<(String, Category)>>,
) -> Seq<Seq<char>> {
    match added {
        Some(added) => if added@.len() == 0 {
            categories
        } else {
            sorted_names(categories + names_of(added@), false)
        },
        None => categories,
    }
}

/// `categories` without those that an answer removes, in their order.
pub open spec fn after_categories_removed(
    categories: Seq<Seq<char>>,
    removed: Option<Vec<String>>,
) -> Seq<Seq<char>> {
    match removed {
        Some(removed) => without_names(categories, removed.deep_view()),
        None => categories,
    }
}

/// The categories after an answer: first the new ones come in, then the
/// removed ones go.
pub open spec fn categories_after(categories: Seq<Seq<char>>, data: MainData) -> Seq<Seq<char>> {
    after_categories_removed(
        after_categories_added(categories, data.categories),
        data.categories_removed,
    )
}

/// The name that the filter refers to, if it refers to a category that is
/// there.
pub open spec fn selected_name(categories: Seq<Seq<char>>, selected: SelectedCategory) -> Option<
    Seq<char>,
> {
    match selected {
        SelectedCategory::Category(i) => if 2 <= i && i - 2 < categories.len() {
            Some(categories[i - 2])
        } else {
            None
        },
        _ => None,
    }
}

/// The filter after the list of categories has become `categories`, where
/// it referred to the category `name` before, if to any. The filter stays
/// on its category: it keeps its line where that still holds the name, else
/// it goes to the first line that does, and it shows all jobs where the
/// category is gone or its line has no number. A filter that referred to no
/// category stays as it is.
pub open spec fn selection_following(
    name: Option<Seq<char>>,
    selected: SelectedCategory,
    categories: Seq<Seq<char>>,
) -> SelectedCategory {
    match name {
        Some(name) => if selected_name(categories, selected) == Some(name) {
            selected
        } else {
            match place_of(categories, name) {
                Some(j) => if j + 2 <= usize::MAX {
                    SelectedCategory::Category((j + 2) as usize)
                } else {
                    SelectedCategory::All
                },
                None => SelectedCategory::All,
            }
        },
        None => selected,
    }
}

/// The transfer statistics after the delta that an answer carries.
pub open spec fn after_server_state(
    transfer_info: TransferInfo,
    delta: Option<TransferInfoSync>,
) -> TransferInfo {
    match delta {
        Some(delta) => transfer_info.merged(delta),
        None => transfer_info,
    }
}

/// Whether the answer asks for everything to be fetched anew: it says so
/// itself, or one of its deltas names a job that is not there.
pub open spec fn requires_reload(snapshot: Snapshot, data: MainData) -> bool {
    data.full_update == Some(true) || jobs_after(snapshot.torrents, data).1
}

/// How the reconciliation of the answer ends.
pub open spec fn outcome_of(snapshot: Snapshot, data: MainData) -> SyncOutcome {
    if requires_reload(snapshot, data) {
        SyncOutcome::RequiresFullReload
    } else {
        SyncOutcome::Applied
    }
}

/// The snapshot after the answer. An answer that stands for everything
/// changes nothing. Of any other, first the removed jobs go, then the deltas
/// are merged. Where a delta names a job that is not there, that is all:
/// nothing else of the answer is taken over. Else the new categories come
/// in, the removed ones go, the filter stays on its category or shows all
/// jobs where that is gone, and the transfer statistics are merged.
pub open spec fn reconciled(snapshot: Snapshot, data: MainData) -> Snapshot {
    if data.full_update == Some(true) {
        snapshot
    } else if jobs_after(snapshot.torrents, data).1 {
        Snapshot { torrents: jobs_after(snapshot.torrents, data).0, ..snapshot }
    } else {
        Snapshot {
            torrents: jobs_after(snapshot.torrents, data).0,
            categories: categories_after(snapshot.categories, data),
            selected_category: selection_following(
                selected_name(snapshot.categories, snapshot.selected_category),
                snapshot.selected_category,
                categories_after(snapshot.categories, data),
            ),
            transfer_info: after_server_state(snapshot.transfer_info, data.server_state),
        }
    }
}

/// Everything that the service holds, fetched at once.
#[derive(Debug, PartialEq, Eq)]
pub struct ReloadData {
    pub transfer_info: TransferInfo,
    pub torrents: Vec<TorrentInfo>,
    /// The categories, each name with the category.
    pub categories: Vec<(String, Category)>,
    pub speed_limits_mode: SpeedLimitsMode,
}

/// The snapshot after everything was fetched anew: the jobs and the transfer
/// statistics are the fetched ones, with the limits in force as the fetched
/// mode says, the categories are the fetched names in order by code point of
/// their lower-case form, and the filter stays on its category, or shows
/// all jobs where that is not among the fetched ones.
pub open spec fn reloaded(snapshot: Snapshot, data: ReloadData) -> Snapshot {
    Snapshot {
        torrents: data.torrents@,
        transfer_info: TransferInfo {
            use_alt_speed_limits: data.speed_limits_mode == SpeedLimitsMode::Alternative,
            ..data.transfer_info
        },
        categories: sorted_names(names_of(data.categories@), true),
        selected_category: selection_following(
            selected_name(snapshot.categories, snapshot.selected_category),
            snapshot.selected_category,
            sorted_names(names_of(data.categories@), true),
        ),
    }
}

/// Whether `name` is one of `names`.
pub fn contains_name(names: &Vec<String>, name: &String) -> (found: bool)
    ensures
        found == names.deep_view().contains(name@),
{
    let mut i: usize = 0;
    while i < names.len()
        invariant
            i <= names@.len(),
            forall|j: int| 0 <= j < i ==> names.deep_view()[j] != name@,
        decreases names@.len() - i,
    {
        if names[i] == *name {
            assert(names.deep_view()[i as int] == name@);
            return true;
        }
        i += 1;
    }
    false
}

/// The place of the first job with this hash.
pub fn find_torrent(torrents: &Vec<TorrentInfo>, hash: &String) -> (place: Option<usize>)
    ensures
        match place {
            Some(i) => position_of(torrents@, hash@) == Some(i as int),
            None => position_of(torrents@, hash@) is None,
        },
{
    let mut i: usize = 0;
    while i < torrents.len()
        invariant
            i <= torrents@.len(),
            forall|j: int| 0 <= j < i ==> (#[trigger] torrents@[j]).hash@ != hash@,
        decreases torrents@.len() - i,
    {
        if torrents[i].hash == *hash {
            assert(is_first_with_hash(torrents@, hash@, i as int));
            return Some(i);
        }
        i += 1;
    }
    proof {
        lemma_no_position(torrents@, hash@);
    }
    None
}

/// A hash that no job of the list has stands at no place.
proof fn lemma_no_position(torrents: Seq<TorrentInfo>, hash: Seq<char>)
    requires
        forall|j: int| 0 <= j < torrents.len() ==> (#[trigger] torrents[j]).hash@ != hash,
    ensures
        position_of(torrents, hash) is None,
{
}

/// The place of the first occurrence of the name.
pub fn find_name(names: &Vec<String>, name: &String) -> (place: Option<usize>)
    ensures
        match place {
            Some(j) => place_of(names.deep_view(), name@) == Some(j as int),
            None => place_of(names.deep_view(), name@) is None,
        },
{
    let mut j: usize = 0;
    while j < names.len()
        invariant
            j <= names@.len(),
            forall|k: int| 0 <= k < j ==> #[trigger] names.deep_view()[k] != name@,
        decreases names@.len() - j,
    {
        if names[j] == *name {
            assert(is_first_place(names.deep_view(), name@, j as int));
            return Some(j);
        }
        j += 1;
    }
    proof {
        lemma_no_place(names.deep_view(), name@);
    }
    None
}

/// A name that does not occur in the list stands at no place.
proof fn lemma_no_place(names: Seq<Seq<char>>, name: Seq<char>)
    requires
        forall|k: int| 0 <= k < names.len() ==> #[trigger] names[k] != name,
    ensures
        place_of(names, name) is None,
{
}

/// Drops the jobs whose hash is among `removed`.
pub fn remove_torrents(torrents: Vec<TorrentInfo>, removed: &Vec<String>) -> (kept: Vec<
    TorrentInfo,
>)
    ensures
        kept@ == without_hashes(torrents@, removed.deep_view()),
{
    let ghost keep = survives(removed.deep_view());
    let mut kept: Vec<TorrentInfo> = Vec::new();
    proof {
        reveal(Seq::filter);
        assert(torrents@.take(0).filter(keep) =~= kept@);
    }
    for torrent in it: torrents
        invariant
            it.seq() == torrents@,
            keep == survives(removed.deep_view()),
            kept@ == torrents@.take(it.index() as int).filter(keep),
    {
        proof {
            reveal(Seq::filter);
            let n = it.index() as int;
            assert(torrents@.take(n + 1).drop_last() =~= torrents@.take(n));
        }
        if !contains_name(removed, &torrent.hash) {
            kept.push(torrent);
        }
    }
    assert(torrents@.take(torrents@.len() as int) =~= torrents@);
    kept
}

/// Drops the names that are among `removed`.
pub fn remove_names(names: Vec<String>, removed: &Vec<String>) -> (kept: Vec<String>)
    ensures
        kept.deep_view() == without_names(names.deep_view(), removed.deep_view()),
{
    let ghost keep = absent_from(removed.deep_view());
    let ghost all = names.deep_view();
    let mut kept: Vec<String> = Vec::new();
    proof {
        reveal(Seq::filter);
        assert(all.take(0).filter(keep) =~= kept.deep_view());
    }
    for name in it: names
        invariant
            it.seq() == names@,
            all == names.deep_view(),
            keep == absent_from(removed.deep_view()),
            kept.deep_view() == all.take(it.index() as int).filter(keep),
    {
        let ghost before = kept.deep_view();
        proof {
            reveal(Seq::filter);
            let n = it.index() as int;
            assert(all.take(n + 1).drop_last() =~= all.take(n));
            assert(all.take(n + 1).last() == name@);
        }
        if !contains_name(removed, &name) {
            kept.push(name);
            assert(kept.deep_view() =~= before.push(name@));
        }
    }
    assert(all.take(names@.len() as int) =~= all);
    kept
}

/// Merges the deltas into the jobs, in order, up to the first delta whose
/// hash no job has; says whether there was one.
pub fn apply_updates(torrents: &mut Vec<TorrentInfo>, updates: Vec<(String, TorrentInfoSync)>) -> (unknown: bool)
    ensures
        (final(torrents)@, unknown) == updated(old(torrents)@, updates@),
{
    let mut unknown = false;
    assert(updates@.take(0) =~= Seq::empty());
    for entry in it: updates
        invariant
            it.seq() == updates@,
            (torrents@, unknown) == updated(old(torrents)@, updates@.take(it.index() as int)),
    {
        proof {
            let n = it.index() as int;
            assert(updates@.take(n + 1).drop_last() =~= updates@.take(n));
            assert(updates@.take(n + 1).last() == entry);
        }
        if !unknown {
            let (hash, delta) = entry;
            match find_torrent(torrents, &hash) {
                Some(i) => {
                    torrents[i].merge(delta);
                },
                None => {
                    unknown = true;
                },
            }
        }
    }
    assert(updates@.take(updates@.len() as int) =~= updates@);
    unknown
}

/// Adds the names under which the entries stand to `names`.
pub fn append_names(names: &mut Vec<String>, entries: Vec<(String, Category)>)
    ensures
        final(names).deep_view() == old(names).deep_view() + names_of(entries@),
{
    assert(names.deep_view() =~= old(names).deep_view() + names_of(entries@.take(0)));
    for entry in it: entries
        invariant
            it.seq() == entries@,
            names.deep_view() == old(names).deep_view() + names_of(
                entries@.take(it.index() as int),
            ),
    {
        let ghost before = names.deep_view();
        let ghost n = it.index() as int;
        names.push(entry.0);
        assert(names.deep_view() =~= before.push(entry.0@));
        assert(names.deep_view() =~= old(names).deep_view() + names_of(entries@.take(n + 1)));
    }
    assert(entries@.take(entries@.len() as int) =~= entries@);
}

/// The name that the filter refers to, if it refers to a category that is
/// there.
pub fn selected_category_name(categories: &Vec<String>, selected: SelectedCategory) -> (name: Option<&String>)
    ensures
        match name {
            Some(n) => selected_name(categories.deep_view(), selected) == Some(n@),
            None => selected_name(categories.deep_view(), selected) is None,
        },
{
    match selected {
        SelectedCategory::Category(i) => {
            if 2 <= i && i - 2 < categories.len() {
                Some(&categories[i - 2])
            } else {
                None
            }
        },
        _ => None,
    }
}

fn drop_removed(torrents: &mut Vec<TorrentInfo>, removed: &Option<Vec<String>>)
    ensures
        final(torrents)@ == after_removals(old(torrents)@, *removed),
{
    if let Some(removed) = removed {
        let mut all: Vec<TorrentInfo> = Vec::new();
        std::mem::swap(torrents, &mut all);
        *torrents = remove_torrents(all, removed);
    }
}

fn merge_updates(torrents: &mut Vec<TorrentInfo>, updates: Option<Vec<(String, TorrentInfoSync)>>) -> (unknown: bool)
    ensures
        (final(torrents)@, unknown) == after_updates(old(torrents)@, updates),
{
    match updates {
        Some(updates) => apply_updates(torrents, updates),
        None => false,
    }
}

fn add_categories(categories: &mut Vec<String>, added: Option<Vec<(String, Category)>>)
    ensures
        final(categories).deep_view() == after_categories_added(old(categories).deep_view(), added),
{
    if let Some(added) = added {
        if added.len() > 0 {
            let mut all: Vec<String> = Vec::new();
            std::mem::swap(categories, &mut all);
            append_names(&mut all, added);
            *categories = sort_names(all, false);
        }
    }
}

fn drop_categories(categories: &mut Vec<String>, removed: &Option<Vec<String>>)
    ensures
        final(categories).deep_view() == after_categories_removed(
            old(categories).deep_view(),
            *removed,
        ),
{
    if let Some(removed) = removed {
        let mut all: Vec<String> = Vec::new();
        std::mem::swap(categories, &mut all);
        *categories = remove_names(all, removed);
    }
}

/// A copy of the name that the filter refers to, if it refers to a category
/// that is there.
pub fn selected_category_copy(categories: &Vec<String>, selected: SelectedCategory) -> (name:
    Option<String>)
    ensures
        match name {
            Some(n) => selected_name(categories.deep_view(), selected) == Some(n@),
            None => selected_name(categories.deep_view(), selected) is None,
        },
{
    match selected_category_name(categories, selected) {
        Some(name) => Some(name.clone()),
        None => None,
    }
}

/// The filter after the list of categories has changed, where it referred
/// to the category `name` before, if to any.
pub fn follow_selection(
    name: &Option<String>,
    selected: SelectedCategory,
    categories: &Vec<String>,
) -> (after: SelectedCategory)
    ensures
        after == selection_following(
            match *name {
                Some(n) => Some(n@),
                None => None,
            },
            selected,
            categories.deep_view(),
        ),
{
    match name {
        Some(name) => {
            let stays = match selected_category_name(categories, selected) {
                Some(now) => *now == *name,
                None => false,
            };
            if stays {
                selected
            } else {
                match find_name(categories, name) {
                    Some(j) => {
                        if j <= usize::MAX - 2 {
                            SelectedCategory::Category(j + 2)
                        } else {
                            SelectedCategory::All
                        }
                    },
                    None => SelectedCategory::All,
                }
            }
        },
        None => selected,
    }
}

fn merge_server_state(transfer_info: &mut TransferInfo, delta: &Option<TransferInfoSync>)
    ensures
        *final(transfer_info) == after_server_state(*old(transfer_info), *delta),
{
    if let Some(delta) = delta {
        transfer_info.merge(delta);
    }
}

/// Merges an answer of the service into the snapshot, and says whether that
/// suffices. Nothing but the jobs, the categories, the filter on the
/// category and the transfer statistics changes; where the answer does not
/// suffice nothing but the jobs, and nothing at all where it stands for
/// everything.
pub fn reconcile(app: &mut App, data: MainData) -> (outcome: SyncOutcome)
    ensures
        final(app)@ == reconciled(old(app)@, data),
        outcome == outcome_of(old(app)@, data),
        *final(app) == (App {
            torrents: final(app).torrents,
            categories: final(app).categories,
            selected_category: final(app).selected_category,
            transfer_info: final(app).transfer_info,
            ..*old(app)
        }),
        outcome == SyncOutcome::RequiresFullReload ==> *final(app) == (App {
            torrents: final(app).torrents,
            ..*old(app)
        }),
        data.full_update == Some(true) ==> *final(app) == *old(app),
{
    if let Some(true) = data.full_update {
        return SyncOutcome::RequiresFullReload;
    }
    drop_removed(&mut app.torrents, &data.torrents_removed);
    let unknown = merge_updates(&mut app.torrents, data.torrents);
    if unknown {
        return SyncOutcome::RequiresFullReload;
    }
    let name = selected_category_copy(&app.categories, app.selected_category);
    add_categories(&mut app.categories, data.categories);
    drop_categories(&mut app.categories, &data.categories_removed);
    app.selected_category = follow_selection(&name, app.selected_category, &app.categories);
    merge_server_state(&mut app.transfer_info, &data.server_state);
    SyncOutcome::Applied
}

/// Replaces the jobs, the transfer statistics and the categories of the
/// snapshot by what was fetched, and lets the filter follow its category.
/// Nothing else changes.
pub fn replace_snapshot(app: &mut App, data: ReloadData)
    ensures
        final(app)@ == reloaded(old(app)@, data),
        *final(app) == (App {
            torrents: final(app).torrents,
            categories: final(app).categories,
            selected_category: final(app).selected_category,
            transfer_info: final(app).transfer_info,
            ..*old(app)
        }),
{
    let name = selected_category_copy(&app.categories, app.selected_category);
    app.torrents = data.torrents;
    app.transfer_info = data.transfer_info;
    app.transfer_info.use_alt_speed_limits = match data.speed_limits_mode {
        SpeedLimitsMode::Alternative => true,
        SpeedLimitsMode::Global => false,
    };
    let mut names: Vec<String> = Vec::new();
    append_names(&mut names, data.categories);
    assert(names.deep_view() =~= names_of(data.categories@));
    app.categories = sort_names(names, true);
    app.selected_category = follow_selection(&name, app.selected_category, &app.categories);
}

/// Merging deltas neither adds a job nor takes one away, and leaves every
/// hash in its place.
pub proof fn lemma_updated_keeps_hashes(
    torrents: Seq<TorrentInfo>,
    updates: Seq<(String, TorrentInfoSync)>,
)
    ensures
        updated(torrents, updates).0.len() == torrents.len(),
        forall|i: int|
            0 <= i < torrents.len() ==> (#[trigger] updated(torrents, updates).0[i]).hash
                == torrents[i].hash,
        forall|hash: Seq<char>| has_hash(updated(torrents, updates).0, hash) == has_hash(torrents, hash),
    decreases updates.len(),
{
    let after = updated(torrents, updates).0;
    if updates.len() > 0 {
        lemma_updated_keeps_hashes(torrents, updates.drop_last());
    }
    assert forall|hash: Seq<char>| has_hash(after, hash) == has_hash(torrents, hash) by {
        if has_hash(after, hash) {
            let i = choose|i: int| 0 <= i < after.len() && (#[trigger] after[i]).hash@ == hash;
            assert(torrents[i].hash@ == hash);
        }
        if has_hash(torrents, hash) {
            let i = choose|i: int| 0 <= i < torrents.len() && (#[trigger] torrents[i]).hash@ == hash;
            assert(after[i].hash@ == hash);
        }
    }
}

/// A job stands in the list exactly when some place is the first with its
/// hash.
pub proof fn lemma_position_of(torrents: Seq<TorrentInfo>, hash: Seq<char>)
    ensures
        position_of(torrents, hash) is Some <==> has_hash(torrents, hash),
        position_of(torrents, hash) matches Some(i) ==> is_first_with_hash(torrents, hash, i),
    decreases torrents.len(),
{
    if has_hash(torrents, hash) {
        let k = choose|k: int| 0 <= k < torrents.len() && (#[trigger] torrents[k]).hash@ == hash;
        lemma_first_below(torrents, hash, k);
    }
    if position_of(torrents, hash) is Some {
        let i = choose|i: int| is_first_with_hash(torrents, hash, i);
        assert(torrents[i].hash@ == hash);
    }
}

proof fn lemma_first_below(torrents: Seq<TorrentInfo>, hash: Seq<char>, k: int)
    requires
        0 <= k < torrents.len(),
        torrents[k].hash@ == hash,
    ensures
        exists|i: int| is_first_with_hash(torrents, hash, i),
    decreases k,
{
    if exists|j: int| 0 <= j < k && (#[trigger] torrents[j]).hash@ == hash {
        let j = choose|j: int| 0 <= j < k && (#[trigger] torrents[j]).hash@ == hash;
        lemma_first_below(torrents, hash, j);
    } else {
        assert(is_first_with_hash(torrents, hash, k));
    }
}

/// The deltas end at an unknown job exactly when one of them names a hash
/// that no job has.
pub proof fn lemma_updated_stops(torrents: Seq<TorrentInfo>, updates: Seq<(String, TorrentInfoSync)>)
    ensures
        updated(torrents, updates).1 <==> exists|k: int|
            0 <= k < updates.len() && !has_hash(torrents, (#[trigger] updates[k]).0@),
    decreases updates.len(),
{
    if updates.len() > 0 {
        let front = updates.drop_last();
        lemma_updated_stops(torrents, front);
        lemma_updated_keeps_hashes(torrents, front);
        let before = updated(torrents, front);
        lemma_position_of(before.0, updates.last().0@);
        if updated(torrents, updates).1 {
            if before.1 {
                let k = choose|k: int|
                    0 <= k < front.len() && !has_hash(torrents, (#[trigger] front[k]).0@);
                assert(updates[k] == front[k]);
            } else {
                assert(!has_hash(torrents, updates[updates.len() - 1].0@));
            }
        }
        if exists|k: int| 0 <= k < updates.len() && !has_hash(torrents, (#[trigger] updates[k]).0@) {
            let k = choose|k: int|
                0 <= k < updates.len() && !has_hash(torrents, (#[trigger] updates[k]).0@);
            if k < front.len() {
                assert(front[k] == updates[k]);
            }
        }
    }
}

/// What is left after a removal was there before, and has none of the
/// removed hashes.
pub proof fn lemma_without_hashes(torrents: Seq<TorrentInfo>, removed: Seq<Seq<char>>)
    ensures
        without_hashes(torrents, removed).len() <= torrents.len(),
        forall|hash: Seq<char>|
            has_hash(without_hashes(torrents, removed), hash) <==> has_hash(torrents, hash)
                && !removed.contains(hash),
    decreases torrents.len(),
{
    reveal(Seq::filter);
    let kept = without_hashes(torrents, removed);
    if torrents.len() > 0 {
        let front = torrents.drop_last();
        lemma_without_hashes(front, removed);
        let kept_front = without_hashes(front, removed);
        assert forall|hash: Seq<char>|
            has_hash(kept, hash) <==> has_hash(torrents, hash) && !removed.contains(hash) by {
            if has_hash(kept, hash) {
                let i = choose|i: int| 0 <= i < kept.len() && (#[trigger] kept[i]).hash@ == hash;
                if i < kept_front.len() {
                    assert(kept_front[i] == kept[i]);
                    assert(has_hash(kept_front, hash));
                    let j = choose|j: int|
                        0 <= j < front.len() && (#[trigger] front[j]).hash@ == hash;
                    assert(torrents[j] == front[j]);
                } else {
                    assert(kept[i] == torrents[torrents.len() - 1]);
                }
            }
            if has_hash(torrents, hash) && !removed.contains(hash) {
                let j = choose|j: int|
                    0 <= j < torrents.len() && (#[trigger] torrents[j]).hash@ == hash;
                if j < front.len() {
                    assert(front[j] == torrents[j]);
                    assert(has_hash(kept_front, hash));
                    let i = choose|i: int|
                        0 <= i < kept_front.len() && (#[trigger] kept_front[i]).hash@ == hash;
                    assert(kept[i] == kept_front[i]);
                } else {
                    assert(kept[kept.len() - 1] == torrents[j]);
                }
            }
        }
    } else {
        assert forall|hash: Seq<char>|
            has_hash(kept, hash) <==> has_hash(torrents, hash) && !removed.contains(hash) by {}
    }
}

/// A removal that names none of the jobs leaves the list as it is.
pub proof fn lemma_without_absent_hashes(torrents: Seq<TorrentInfo>, removed: Seq<Seq<char>>)
    requires
        forall|k: int| 0 <= k < removed.len() ==> !has_hash(torrents, #[trigger] removed[k]),
    ensures
        without_hashes(torrents, removed) == torrents,
    decreases torrents.len(),
{
    reveal(Seq::filter);
    if torrents.len() > 0 {
        let front = torrents.drop_last();
        assert forall|k: int| 0 <= k < removed.len() implies !has_hash(
            front,
            #[trigger] removed[k],
        ) by {
            if has_hash(front, removed[k]) {
                let j = choose|j: int|
                    0 <= j < front.len() && (#[trigger] front[j]).hash@ == removed[k];
                assert(torrents[j] == front[j]);
            }
        }
        lemma_without_absent_hashes(front, removed);
        if removed.contains(torrents.last().hash@) {
            let k = choose|k: int| 0 <= k < removed.len() && removed[k] == torrents.last().hash@;
            assert(torrents[torrents.len() - 1].hash@ == removed[k]);
            assert(has_hash(torrents, removed[k]));
        }
        assert(front.push(torrents.last()) =~= torrents);
    }
}

/// A hash that no job has makes no difference to a removal: the list of
/// hashes removes what it removes without that hash.
pub proof fn law_removing_absent_hash(
    torrents: Seq<TorrentInfo>,
    removed: Seq<Seq<char>>,
    hash: Seq<char>,
)
    requires
        !has_hash(torrents, hash),
    ensures
        without_hashes(torrents, removed.push(hash)) == without_hashes(torrents, removed),
        without_hashes(torrents, seq![hash]) == torrents,
    decreases torrents.len(),
{
    reveal(Seq::filter);
    assert forall|k: int| 0 <= k < seq![hash].len() implies !has_hash(
        torrents,
        #[trigger] seq![hash][k],
    ) by {}
    lemma_without_absent_hashes(torrents, seq![hash]);
    if torrents.len() > 0 {
        let front = torrents.drop_last();
        if has_hash(front, hash) {
            let j = choose|j: int| 0 <= j < front.len() && (#[trigger] front[j]).hash@ == hash;
            assert(torrents[j] == front[j]);
        }
        law_removing_absent_hash(front, removed, hash);
        let last = torrents.last().hash@;
        assert(torrents[torrents.len() - 1].hash@ == last);
        assert(last != hash);
        if removed.contains(last) {
            let k = choose|k: int| 0 <= k < removed.len() && removed[k] == last;
            assert(removed.push(hash)[k] == last);
        }
        if removed.push(hash).contains(last) {
            let k = choose|k: int| 0 <= k < removed.push(hash).len() && removed.push(hash)[k] == last;
            assert(removed[k] == last);
        }
    }
}

/// Removing the same hashes a second time changes nothing.
pub proof fn law_removal_is_idempotent(torrents: Seq<TorrentInfo>, removed: Seq<Seq<char>>)
    ensures
        without_hashes(without_hashes(torrents, removed), removed) == without_hashes(
            torrents,
            removed,
        ),
{
    let once = without_hashes(torrents, removed);
    lemma_without_hashes(torrents, removed);
    assert forall|k: int| 0 <= k < removed.len() implies !has_hash(once, #[trigger] removed[k]) by {
        assert(removed.contains(removed[k]));
    }
    lemma_without_absent_hashes(once, removed);
}

/// An answer never adds a job to the snapshot: every hash that the snapshot
/// holds afterwards it held before.
pub proof fn law_no_job_is_created(snapshot: Snapshot, data: MainData)
    ensures
        reconciled(snapshot, data).torrents.len() <= snapshot.torrents.len(),
        forall|hash: Seq<char>|
            has_hash(reconciled(snapshot, data).torrents, hash) ==> has_hash(
                snapshot.torrents,
                hash,
            ),
{
    if data.full_update != Some(true) {
        let kept = after_removals(snapshot.torrents, data.torrents_removed);
        if let Some(removed) = data.torrents_removed {
            lemma_without_hashes(snapshot.torrents, removed.deep_view());
        }
        if let Some(updates) = data.torrents {
            lemma_updated_keeps_hashes(kept, updates@);
        }
    }
}

/// A delta for a hash that the snapshot does not hold asks for everything to
/// be fetched anew.
pub proof fn law_unknown_hash_forces_reload(snapshot: Snapshot, data: MainData, k: int)
    requires
        data.torrents matches Some(updates) && 0 <= k < updates@.len() && !has_hash(
            snapshot.torrents,
            updates@[k].0@,
        ),
    ensures
        outcome_of(snapshot, data) == SyncOutcome::RequiresFullReload,
{
    let updates = data.torrents->0;
    let kept = after_removals(snapshot.torrents, data.torrents_removed);
    if let Some(removed) = data.torrents_removed {
        lemma_without_hashes(snapshot.torrents, removed.deep_view());
    }
    lemma_updated_stops(kept, updates@);
    assert(!has_hash(kept, updates@[k].0@));
}

/// An answer asks for everything to be fetched anew exactly when it says so
/// itself or one of its deltas names a job that is gone or was never there.
pub proof fn law_reload_exactly_when_needed(snapshot: Snapshot, data: MainData)
    ensures
        outcome_of(snapshot, data) == SyncOutcome::RequiresFullReload <==> data.full_update == Some(
            true,
        ) || (data.torrents matches Some(updates) && exists|k: int|
            0 <= k < updates@.len() && !has_hash(
                after_removals(snapshot.torrents, data.torrents_removed),
                (#[trigger] updates@[k]).0@,
            )),
{
    if let Some(updates) = data.torrents {
        lemma_updated_stops(after_removals(snapshot.torrents, data.torrents_removed), updates@);
    }
}

/// A name occurs in a list exactly when some place is the first to hold it.
pub proof fn lemma_place_of(names: Seq<Seq<char>>, name: Seq<char>)
    ensures
        place_of(names, name) is Some <==> names.contains(name),
        place_of(names, name) matches Some(j) ==> is_first_place(names, name, j),
{
    if names.contains(name) {
        let k = choose|k: int| 0 <= k < names.len() && names[k] == name;
        lemma_first_place_below(names, name, k);
    }
    if place_of(names, name) is Some {
        let j = choose|j: int| is_first_place(names, name, j);
        assert(names[j] == name);
    }
}

proof fn lemma_first_place_below(names: Seq<Seq<char>>, name: Seq<char>, k: int)
    requires
        0 <= k < names.len(),
        names[k] == name,
    ensures
        exists|j: int| is_first_place(names, name, j),
    decreases k,
{
    if exists|j: int| 0 <= j < k && #[trigger] names[j] == name {
        let j = choose|j: int| 0 <= j < k && #[trigger] names[j] == name;
        lemma_first_place_below(names, name, j);
    } else {
        assert(is_first_place(names, name, k));
    }
}

/// What is left after a removal of names was there before, and is none of
/// the removed names.
pub proof fn lemma_without_names(names: Seq<Seq<char>>, removed: Seq<Seq<char>>)
    ensures
        forall|name: Seq<char>|
            without_names(names, removed).contains(name) <==> names.contains(name)
                && !removed.contains(name),
{
    let keep = absent_from(removed);
    let kept = without_names(names, removed);
    assert forall|name: Seq<char>|
        kept.contains(name) <==> names.contains(name) && !removed.contains(name) by {
        if kept.contains(name) {
            let k = choose|k: int| 0 <= k < kept.len() && kept[k] == name;
            names.lemma_filter_pred(keep, k);
            names.lemma_filter_contains_rev(keep, name);
        }
        if names.contains(name) && !removed.contains(name) {
            let i = choose|i: int| 0 <= i < names.len() && names[i] == name;
            names.lemma_filter_contains(keep, i);
        }
    }
}

/// A removal of no name leaves the list as it is.
pub proof fn lemma_without_no_names(names: Seq<Seq<char>>, removed: Seq<Seq<char>>)
    requires
        removed.len() == 0,
    ensures
        without_names(names, removed) == names,
    decreases names.len(),
{
    reveal(Seq::filter);
    if names.len() > 0 {
        lemma_without_no_names(names.drop_last(), removed);
        assert(names.drop_last().push(names.last()) =~= names);
    }
}

/// The categories after an answer are those that were there or are new,
/// without those that are removed.
pub proof fn lemma_categories_after(categories: Seq<Seq<char>>, data: MainData)
    ensures
        forall|name: Seq<char>|
            categories_after(categories, data).contains(name) <==> (categories.contains(name) || (
            data.categories matches Some(added) && names_of(added@).contains(name))) && !(
            data.categories_removed matches Some(removed) && removed.deep_view().contains(name)),
{
    broadcast use vstd::seq_lib::group_to_multiset_ensures;

    let with_new = after_categories_added(categories, data.categories);
    assert forall|name: Seq<char>|
        with_new.contains(name) <==> categories.contains(name) || (data.categories matches Some(
            added,
        ) && names_of(added@).contains(name)) by {
        if let Some(added) = data.categories {
            let all = categories + names_of(added@);
            if added@.len() > 0 {
                crate::sorting::lemma_sorted_names(all, false);
                assert(with_new.contains(name) <==> all.contains(name)) by {
                    assert(with_new.to_multiset().count(name) == all.to_multiset().count(name));
                }
            } else {
                assert(all =~= categories);
            }
            if all.contains(name) {
                let k = choose|k: int| 0 <= k < all.len() && all[k] == name;
                if k < categories.len() {
                    assert(categories[k] == name);
                } else {
                    assert(names_of(added@)[k - categories.len()] == name);
                }
            }
            if categories.contains(name) {
                let k = choose|k: int| 0 <= k < categories.len() && categories[k] == name;
                assert(all[k] == name);
            }
            if names_of(added@).contains(name) {
                let k = choose|k: int| 0 <= k < names_of(added@).len() && names_of(added@)[k] == name;
                assert(all[categories.len() + k] == name);
            }
        }
    }
    if let Some(removed) = data.categories_removed {
        lemma_without_names(with_new, removed.deep_view());
    }
}

/// The filter that follows its category refers to that category as long as
/// the category is there and its line has a number, and shows all jobs when
/// the category is gone.
pub proof fn lemma_selection_following(
    name: Seq<char>,
    selected: SelectedCategory,
    categories: Seq<Seq<char>>,
)
    ensures
        categories.contains(name) && categories.len() < usize::MAX ==> selected_name(
            categories,
            selection_following(Some(name), selected, categories),
        ) == Some(name),
        !categories.contains(name) ==> selection_following(Some(name), selected, categories)
            == SelectedCategory::All,
{
    lemma_place_of(categories, name);
    if !categories.contains(name) {
        if selected_name(categories, selected) == Some(name) {
            let i = selected->Category_0;
            assert(categories[i - 2] == name);
        }
    }
}

/// The filter stays on its category. Where an answer suffices and the filter
/// refers to a category, it shows all jobs afterwards exactly if the answer
/// removes that category, and refers to the same category if not, whatever
/// else the answer adds or removes. A filter that refers to no category
/// stays as it is. This holds as long as every line of the list of
/// categories has a number.
pub proof fn law_filter_stays_on_its_category(snapshot: Snapshot, data: MainData)
    requires
        data.full_update != Some(true),
        !jobs_after(snapshot.torrents, data).1,
        categories_after(snapshot.categories, data).len() < usize::MAX,
    ensures
        ({
            let after = reconciled(snapshot, data);
            match selected_name(snapshot.categories, snapshot.selected_category) {
                Some(name) => if data.categories_removed matches Some(removed)
                    && removed.deep_view().contains(name) {
                    after.selected_category == SelectedCategory::All
                } else {
                    selected_name(after.categories, after.selected_category) == Some(name)
                },
                None => after.selected_category == snapshot.selected_category,
            }
        }),
{
    if let Some(name) = selected_name(snapshot.categories, snapshot.selected_category) {
        let i = snapshot.selected_category->Category_0;
        assert(snapshot.categories[i - 2] == name);
        assert(snapshot.categories.contains(name));
        lemma_categories_after(snapshot.categories, data);
        lemma_selection_following(
            name,
            snapshot.selected_category,
            categories_after(snapshot.categories, data),
        );
    }
}

/// When everything is fetched anew the filter stays on its category if that
/// is among the fetched ones, and shows all jobs if not. A filter that
/// refers to no category stays as it is. This holds as long as every line
/// of the list of categories has a number.
pub proof fn law_filter_follows_reload(snapshot: Snapshot, data: ReloadData)
    requires
        reloaded(snapshot, data).categories.len() < usize::MAX,
    ensures
        ({
            let after = reloaded(snapshot, data);
            match selected_name(snapshot.categories, snapshot.selected_category) {
                Some(name) => if after.categories.contains(name) {
                    selected_name(after.categories, after.selected_category) == Some(name)
                } else {
                    after.selected_category == SelectedCategory::All
                },
                None => after.selected_category == snapshot.selected_category,
            }
        }),
{
    if let Some(name) = selected_name(snapshot.categories, snapshot.selected_category) {
        lemma_selection_following(
            name,
            snapshot.selected_category,
            reloaded(snapshot, data).categories,
        );
    }
}

/// An answer with a delta for a job that is not there is taken over no
/// further than its jobs: the categories, the filter and the transfer
/// statistics stay as they are, whatever the answer says of them.
pub proof fn law_forced_reload_takes_nothing_else(snapshot: Snapshot, data: MainData)
    requires
        data.full_update != Some(true),
        jobs_after(snapshot.torrents, data).1,
    ensures
        outcome_of(snapshot, data) == SyncOutcome::RequiresFullReload,
        reconciled(snapshot, data).categories == snapshot.categories,
        reconciled(snapshot, data).selected_category == snapshot.selected_category,
        reconciled(snapshot, data).transfer_info == snapshot.transfer_info,
{
}

/// An answer that says that nothing changed leaves the snapshot as it is.
pub proof fn law_empty_answer_changes_nothing(snapshot: Snapshot, data: MainData)
    requires
        data.is_empty(),
    ensures
        reconciled(snapshot, data) == snapshot,
        outcome_of(snapshot, data) == SyncOutcome::Applied,
{
    reveal(Seq::filter);
    if let Some(removed) = data.torrents_removed {
        assert(removed.deep_view().len() == 0);
        assert forall|k: int| 0 <= k < removed.deep_view().len() implies !has_hash(
            snapshot.torrents,
            #[trigger] removed.deep_view()[k],
        ) by {}
        lemma_without_absent_hashes(snapshot.torrents, removed.deep_view());
    }
    if let Some(removed) = data.categories_removed {
        lemma_without_no_names(snapshot.categories, removed.deep_view());
    }
    if let Some(delta) = data.server_state {
        assert(snapshot.transfer_info.merged(delta) == snapshot.transfer_info);
    }
}

/// No hash stands twice in the list of deltas.
pub open spec fn distinct_hashes(updates: Seq<(String, TorrentInfoSync)>) -> bool {
    forall|i: int, j: int|
        0 <= i < j < updates.len() ==> (#[trigger] updates[i]).0@ != (#[trigger] updates[j]).0@
}

/// Every entry of the one list is an entry of the other.
pub open spec fn same_entries(
    first: Seq<(String, TorrentInfoSync)>,
    second: Seq<(String, TorrentInfoSync)>,
) -> bool {
    &&& forall|k: int| 0 <= k < first.len() ==> second.contains(#[trigger] first[k])
    &&& forall|k: int| 0 <= k < second.len() ==> first.contains(#[trigger] second[k])
}

/// Whether the delta at place `k` of the list goes to the job at place `i`.
pub open spec fn goes_to(
    torrents: Seq<TorrentInfo>,
    updates: Seq<(String, TorrentInfoSync)>,
    k: int,
    i: int,
) -> bool {
    0 <= k < updates.len() && position_of(torrents, updates[k].0@) == Some(i)
}

/// The job at place `i` after the deltas of a list in which no hash stands
/// twice and every hash is that of a job: merged with the delta that goes
/// to it, if one does.
pub open spec fn merged_at(
    torrents: Seq<TorrentInfo>,
    updates: Seq<(String, TorrentInfoSync)>,
    i: int,
) -> TorrentInfo {
    if exists|k: int| goes_to(torrents, updates, k, i) {
        torrents[i].merged(updates[choose|k: int| goes_to(torrents, updates, k, i)].1)
    } else {
        torrents[i]
    }
}

/// Where the first job with a hash stands depends on the hashes alone.
proof fn lemma_position_follows_hashes(a: Seq<TorrentInfo>, b: Seq<TorrentInfo>, hash: Seq<char>)
    requires
        a.len() == b.len(),
        forall|i: int| 0 <= i < a.len() ==> (#[trigger] a[i]).hash == b[i].hash,
    ensures
        position_of(a, hash) == position_of(b, hash),
{
    lemma_position_of(a, hash);
    lemma_position_of(b, hash);
    if has_hash(a, hash) {
        let i = choose|i: int| 0 <= i < a.len() && (#[trigger] a[i]).hash@ == hash;
        assert(b[i].hash@ == hash);
    }
    if has_hash(b, hash) {
        let i = choose|i: int| 0 <= i < b.len() && (#[trigger] b[i]).hash@ == hash;
        assert(a[i].hash@ == hash);
    }
    if position_of(a, hash) is Some {
        let i = position_of(a, hash)->0;
        let j = position_of(b, hash)->0;
        assert(a[j].hash@ == hash);
        assert(b[i].hash@ == hash);
    }
}

/// Two deltas that go to the same job have the same hash, so stand at the
/// same place of a list in which no hash stands twice.
proof fn lemma_one_delta_per_job(
    torrents: Seq<TorrentInfo>,
    updates: Seq<(String, TorrentInfoSync)>,
    k: int,
    m: int,
    i: int,
)
    requires
        distinct_hashes(updates),
        goes_to(torrents, updates, k, i),
        goes_to(torrents, updates, m, i),
    ensures
        k == m,
{
    lemma_position_of(torrents, updates[k].0@);
    lemma_position_of(torrents, updates[m].0@);
    assert(updates[k].0@ == torrents[i].hash@);
    assert(updates[m].0@ == torrents[i].hash@);
}

/// After the deltas of a list in which no hash stands twice and every hash
/// is that of a job, each job is merged with the delta that goes to it, and
/// no delta is left out.
pub proof fn lemma_updated_job_by_job(
    torrents: Seq<TorrentInfo>,
    updates: Seq<(String, TorrentInfoSync)>,
)
    requires
        distinct_hashes(updates),
        forall|k: int| 0 <= k < updates.len() ==> has_hash(torrents, (#[trigger] updates[k]).0@),
    ensures
        !updated(torrents, updates).1,
        updated(torrents, updates).0.len() == torrents.len(),
        forall|i: int|
            0 <= i < torrents.len() ==> #[trigger] updated(torrents, updates).0[i] == merged_at(
                torrents,
                updates,
                i,
            ),
    decreases updates.len(),
{
    lemma_updated_stops(torrents, updates);
    lemma_updated_keeps_hashes(torrents, updates);
    let after = updated(torrents, updates).0;
    if updates.len() == 0 {
        assert forall|i: int| 0 <= i < torrents.len() implies #[trigger] after[i] == merged_at(
            torrents,
            updates,
            i,
        ) by {}
    } else {
        let front = updates.drop_last();
        let last = updates.last();
        let n = front.len() as int;
        assert(distinct_hashes(front)) by {
            assert forall|i: int, j: int| 0 <= i < j < front.len() implies (#[trigger] front[i]).0@
                != (#[trigger] front[j]).0@ by {
                assert(front[i] == updates[i] && front[j] == updates[j]);
            }
        }
        assert forall|k: int| 0 <= k < front.len() implies has_hash(
            torrents,
            (#[trigger] front[k]).0@,
        ) by {
            assert(front[k] == updates[k]);
        }
        lemma_updated_job_by_job(torrents, front);
        lemma_updated_keeps_hashes(torrents, front);
        let before = updated(torrents, front).0;
        lemma_position_follows_hashes(before, torrents, last.0@);
        assert(has_hash(torrents, updates[n].0@));
        lemma_position_of(torrents, last.0@);
        let p = position_of(torrents, last.0@)->0;
        assert(goes_to(torrents, updates, n, p));
        assert forall|i: int| 0 <= i < torrents.len() implies #[trigger] after[i] == merged_at(
            torrents,
            updates,
            i,
        ) by {
            if i == p {
                // no delta of the front goes to this job
                if exists|k: int| goes_to(torrents, front, k, p) {
                    let k = choose|k: int| goes_to(torrents, front, k, p);
                    assert(front[k] == updates[k]);
                    assert(goes_to(torrents, updates, k, p));
                    lemma_one_delta_per_job(torrents, updates, k, n, p);
                }
                assert(before[p] == torrents[p]);
                let m = choose|m: int| goes_to(torrents, updates, m, p);
                lemma_one_delta_per_job(torrents, updates, m, n, p);
            } else {
                assert(after[i] == before[i]);
                if exists|k: int| goes_to(torrents, updates, k, i) {
                    let k = choose|k: int| goes_to(torrents, updates, k, i);
                    assert(k != n);
                    assert(front[k] == updates[k]);
                    assert(goes_to(torrents, front, k, i));
                    let m = choose|m: int| goes_to(torrents, front, m, i);
                    assert(front[m] == updates[m]);
                    assert(goes_to(torrents, updates, m, i));
                    lemma_one_delta_per_job(torrents, updates, k, m, i);
                } else {
                    if exists|k: int| goes_to(torrents, front, k, i) {
                        let k = choose|k: int| goes_to(torrents, front, k, i);
                        assert(front[k] == updates[k]);
                        assert(goes_to(torrents, updates, k, i));
                    }
                }
            }
        }
    }
}

/// The order in which the deltas of an answer come makes no difference, as
/// long as no hash stands twice among them: two lists that hold the same
/// deltas ask for everything to be fetched anew or not alike, and where they
/// do not ask for it they give the same jobs.
pub proof fn law_order_of_updates_is_immaterial(
    torrents: Seq<TorrentInfo>,
    first: Seq<(String, TorrentInfoSync)>,
    second: Seq<(String, TorrentInfoSync)>,
)
    requires
        distinct_hashes(first),
        distinct_hashes(second),
        same_entries(first, second),
    ensures
        updated(torrents, first).1 == updated(torrents, second).1,
        !updated(torrents, first).1 ==> updated(torrents, first).0 == updated(torrents, second).0,
{
    lemma_updated_stops(torrents, first);
    lemma_updated_stops(torrents, second);
    if updated(torrents, first).1 {
        let k = choose|k: int| 0 <= k < first.len() && !has_hash(torrents, (#[trigger] first[k]).0@);
        assert(second.contains(first[k]));
        let m = choose|m: int| 0 <= m < second.len() && second[m] == first[k];
        assert(!has_hash(torrents, second[m].0@));
    }
    if updated(torrents, second).1 {
        let k = choose|k: int|
            0 <= k < second.len() && !has_hash(torrents, (#[trigger] second[k]).0@);
        assert(first.contains(second[k]));
        let m = choose|m: int| 0 <= m < first.len() && first[m] == second[k];
        assert(!has_hash(torrents, first[m].0@));
    }
    if !updated(torrents, first).1 {
        lemma_updated_job_by_job(torrents, first);
        lemma_updated_job_by_job(torrents, second);
        let a = updated(torrents, first).0;
        let b = updated(torrents, second).0;
        assert forall|i: int| 0 <= i < torrents.len() implies a[i] == b[i] by {
            if exists|k: int| goes_to(torrents, first, k, i) {
                let k = choose|k: int| goes_to(torrents, first, k, i);
                assert(second.contains(first[k]));
                let m = choose|m: int| 0 <= m < second.len() && second[m] == first[k];
                assert(goes_to(torrents, second, m, i));
                let c = choose|c: int| goes_to(torrents, second, c, i);
                lemma_one_delta_per_job(torrents, second, c, m, i);
            } else {
                if exists|m: int| goes_to(torrents, second, m, i) {
                    let m = choose|m: int| goes_to(torrents, second, m, i);
                    assert(first.contains(second[m]));
                    let k = choose|k: int| 0 <= k < first.len() && first[k] == second[m];
                    assert(goes_to(torrents, first, k, i));
                }
            }
        }
        assert(a =~= b);
    }
}

/// Every name of the one list is a name of the other.
pub open spec fn same_names(first: Seq<Seq<char>>, second: Seq<Seq<char>>) -> bool {
    &&& forall|k: int| 0 <= k < first.len() ==> second.contains(#[trigger] first[k])
    &&& forall|k: int| 0 <= k < second.len() ==> first.contains(#[trigger] second[k])
}

/// Two answers say the same where they differ in nothing but the order of
/// their deltas and of their new categories.
pub open spec fn says_the_same(a: MainData, b: MainData) -> bool {
    &&& a.rid == b.rid
    &&& a.full_update == b.full_update
    &&& a.torrents_removed == b.torrents_removed
    &&& a.categories_removed == b.categories_removed
    &&& a.server_state == b.server_state
    &&& match (a.torrents, b.torrents) {
        (Some(x), Some(y)) => same_entries(x@, y@),
        (None, None) => true,
        _ => false,
    }
    &&& match (a.categories, b.categories) {
        (Some(x), Some(y)) => same_names(names_of(x@), names_of(y@)),
        (None, None) => true,
        _ => false,
    }
}

/// Two lists without a name twice that hold the same names hold each name
/// as often.
proof fn lemma_same_names_as_often(first: Seq<Seq<char>>, second: Seq<Seq<char>>)
    requires
        first.no_duplicates(),
        second.no_duplicates(),
        same_names(first, second),
    ensures
        first.to_multiset() == second.to_multiset(),
{
    broadcast use vstd::seq_lib::group_to_multiset_ensures;

    first.lemma_multiset_has_no_duplicates();
    second.lemma_multiset_has_no_duplicates();
    assert forall|name: Seq<char>| first.to_multiset().count(name) == second.to_multiset().count(
        name,
    ) by {
        if first.contains(name) {
            let k = choose|k: int| 0 <= k < first.len() && first[k] == name;
            assert(second.contains(first[k]));
        }
        if second.contains(name) {
            let k = choose|k: int| 0 <= k < second.len() && second[k] == name;
            assert(first.contains(second[k]));
        }
    }
    assert(first.to_multiset() =~= second.to_multiset());
}

/// An answer is read as a map: the order of its deltas and of its new
/// categories makes no difference to whether everything has to be fetched
/// anew, nor to the categories, the filter and the transfer statistics of
/// the snapshot; and where the answer suffices, none to its jobs.
pub proof fn law_answer_is_read_as_a_map(snapshot: Snapshot, a: MainData, b: MainData)
    requires
        a.well_formed(),
        b.well_formed(),
        says_the_same(a, b),
    ensures
        outcome_of(snapshot, a) == outcome_of(snapshot, b),
        reconciled(snapshot, a).categories == reconciled(snapshot, b).categories,
        reconciled(snapshot, a).selected_category == reconciled(snapshot, b).selected_category,
        reconciled(snapshot, a).transfer_info == reconciled(snapshot, b).transfer_info,
        outcome_of(snapshot, a) == SyncOutcome::Applied ==> reconciled(snapshot, a) == reconciled(
            snapshot,
            b,
        ),
{
    let kept = after_removals(snapshot.torrents, a.torrents_removed);
    if let Some(x) = a.torrents {
        let y = b.torrents->0;
        assert(distinct_hashes(x@));
        assert(distinct_hashes(y@));
        law_order_of_updates_is_immaterial(kept, x@, y@);
    }
    if let Some(x) = a.categories {
        let y = b.categories->0;
        let first = names_of(x@);
        let second = names_of(y@);
        assert(first.no_duplicates()) by {
            assert forall|i: int, j: int|
                0 <= i < first.len() && 0 <= j < first.len() && i != j implies first[i]
                != first[j] by {
                if i < j {
                    assert(x@[i].0@ != x@[j].0@);
                } else {
                    assert(x@[j].0@ != x@[i].0@);
                }
            }
        }
        assert(second.no_duplicates()) by {
            assert forall|i: int, j: int|
                0 <= i < second.len() && 0 <= j < second.len() && i != j implies second[i]
                != second[j] by {
                if i < j {
                    assert(y@[i].0@ != y@[j].0@);
                } else {
                    assert(y@[j].0@ != y@[i].0@);
                }
            }
        }
        lemma_same_names_as_often(first, second);
        vstd::seq_lib::lemma_multiset_commutative(snapshot.categories, first);
        vstd::seq_lib::lemma_multiset_commutative(snapshot.categories, second);
        law_sorted_by_code_point_ignores_order(
            snapshot.categories + first,
            snapshot.categories + second,
        );
    }
}

/// What was fetched is read as a map of categories: the order in which the
/// categories come makes no difference to the snapshot, as long as no name
/// comes twice and no two names differ in nothing but their case.
pub proof fn law_categories_are_read_as_a_map(snapshot: Snapshot, a: ReloadData, b: ReloadData)
    requires
        a.transfer_info == b.transfer_info,
        a.torrents@ == b.torrents@,
        a.speed_limits_mode == b.speed_limits_mode,
        names_of(a.categories@).no_duplicates(),
        names_of(b.categories@).no_duplicates(),
        same_names(names_of(a.categories@), names_of(b.categories@)),
        crate::sorting::keys_tell_apart(names_of(a.categories@), true),
    ensures
        reloaded(snapshot, a) == reloaded(snapshot, b),
{
    lemma_same_names_as_often(names_of(a.categories@), names_of(b.categories@));
    crate::sorting::law_sorted_names_ignore_order(
        names_of(a.categories@),
        names_of(b.categories@),
        true,
    );
}

/// The jobs of the snapshot after an answer that does not stand for
/// everything are those that were there before and are not reported as
/// gone.
pub proof fn law_hashes_after_answer(snapshot: Snapshot, data: MainData)
    requires
        data.full_update != Some(true),
    ensures
        forall|hash: Seq<char>|
            has_hash(reconciled(snapshot, data).torrents, hash) <==> has_hash(
                snapshot.torrents,
                hash,
            ) && !(data.torrents_removed matches Some(removed) && removed.deep_view().contains(
                hash,
            )),
{
    let kept = after_removals(snapshot.torrents, data.torrents_removed);
    if let Some(removed) = data.torrents_removed {
        lemma_without_hashes(snapshot.torrents, removed.deep_view());
    }
    if let Some(updates) = data.torrents {
        lemma_updated_keeps_hashes(kept, updates@);
    }
}

/// The synchronisation as a whole: the cursor, and what it has made of the
/// snapshot.
pub struct Engine {
    pub cursor: i64,
    pub snapshot: Snapshot,
}

/// What the service said in one cycle of the synchronisation: its answer to
/// the question for what changed, and what was fetched if the answer asked
/// for everything to be fetched anew.
pub struct Cycle {
    pub answer: MainData,
    pub everything: ReloadData,
}

/// The synchronisation after a cycle: the cursor is the one that the answer
/// carries; the snapshot is the merged one, or the one fetched anew where
/// the answer asked for that.
pub open spec fn after_cycle(engine: Engine, cycle: Cycle) -> Engine {
    Engine {
        cursor: cycle.answer.rid,
        snapshot: if requires_reload(engine.snapshot, cycle.answer) {
            reloaded(reconciled(engine.snapshot, cycle.answer), cycle.everything)
        } else {
            reconciled(engine.snapshot, cycle.answer)
        },
    }
}

/// The synchronisation after a run of cycles.
pub open spec fn after_cycles(engine: Engine, cycles: Seq<Cycle>) -> Engine
    decreases cycles.len(),
{
    if cycles.len() == 0 {
        engine
    } else {
        after_cycle(after_cycles(engine, cycles.drop_last()), cycles.last())
    }
}

/// After any run of cycles the cursor is the one that the last answer
/// carried, whether or not that answer asked for everything to be fetched
/// anew.
pub proof fn law_cursor_follows_last_answer(engine: Engine, cycles: Seq<Cycle>)
    requires
        cycles.len() > 0,
    ensures
        after_cycles(engine, cycles).cursor == cycles.last().answer.rid,
{
}

/// A cycle whose answer says that nothing changed moves the cursor and
/// leaves the snapshot as it is, whatever went before: so also straight
/// after everything was fetched.
pub proof fn law_empty_cycle_keeps_snapshot(engine: Engine, cycle: Cycle)
    requires
        cycle.answer.is_empty(),
    ensures
        after_cycle(engine, cycle).snapshot == engine.snapshot,
{
    law_empty_answer_changes_nothing(engine.snapshot, cycle.answer);
}

} // verus!
