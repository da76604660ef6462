//! The record store: what a record is, where it lives, and the rules for
//! stamping and listing records. Reading and writing the files is left to
//! the caller; everything here works on plain values.

use vstd::prelude::*;
use crate::text::{texts, lemma_texts_push};

verus! {

/// The directory under the home directory that holds all records.
pub open spec fn store_dir_name() -> Seq<char> {
    ".pake-gui"@
}

/// The file inside a record's directory that holds the record.
pub open spec fn record_file_name() -> Seq<char> {
    "tauri.conf.json"@
}

/// A named build configuration.
pub struct Project {
    pub id: String,
    pub name: String,
    pub config: serde_json::Value,
    pub last_modified: u64,
}

/// A path as the list of its components, outermost first.
pub struct StorePath {
    pub components: Vec<String>,
}

impl View for StorePath {
    type V = Seq<Seq<char>>;

    open spec fn view(&self) -> Seq<Seq<char>> {
        texts(self.components@)
    }
}

/// Why the store could not serve a request.
#[derive(Debug)]
pub enum RegistryError {
    /// The user's home directory is unknown.
    NoHomeDirectory,
    /// There is no record under the given identifier.
    NotFound,
    /// The file system refused an operation; the text is the cause.
    Io(String),
    /// A stored file does not hold a record; the text is the cause.
    Parse(String),
}

/// The message that goes with an error.
pub open spec fn registry_message(e: RegistryError) -> Seq<char> {
    match e {
        RegistryError::NoHomeDirectory => "Could not find home directory"@,
        RegistryError::NotFound => "Record not found"@,
        RegistryError::Io(cause) => cause@,
        RegistryError::Parse(cause) => cause@,
    }
}

impl RegistryError {
    /// The message shown to the user.
    pub fn message(&self) -> (r: String)
        ensures
            r@ == registry_message(*self),
    {
        match self {
            RegistryError::NoHomeDirectory => "Could not find home directory".to_owned(),
            RegistryError::NotFound => "Record not found".to_owned(),
            RegistryError::Io(cause) => cause.clone(),
            RegistryError::Parse(cause) => cause.clone(),
        }
    }
}

/// What a listing does about a stored record that cannot be read.
#[derive(Clone, Copy, Debug, PartialEq, Eq, Structural)]
pub enum ScanPolicy {
    /// The first such record fails the whole listing.
    FailFast,
    /// Such records are left out of the listing.
    Skip,
}

/// The records that were read, in order, among the outcomes of a scan.
pub open spec fn records_read(entries: Seq<Result<Project, RegistryError>>) -> Seq<Project>
    decreases entries.len(),
{
    if entries.len() == 0 {
        Seq::empty()
    } else {
        match entries.last() {
            Ok(p) => records_read(entries.drop_last()).push(p),
            Err(_) => records_read(entries.drop_last()),
        }
    }
}

/// Whether the outcome at `at` is the first failure of a scan.
pub open spec fn is_first_failure(entries: Seq<Result<Project, RegistryError>>, at: int) -> bool {
    &&& 0 <= at < entries.len()
    &&& entries[at].is_err()
    &&& forall|k: int| 0 <= k < at ==> (#[trigger] entries[k]).is_ok()
}

/// Gathers the records of a scan, one outcome for each record directory.
/// Under [`ScanPolicy::FailFast`] the first failure is the result; under
/// [`ScanPolicy::Skip`] failures are left out.
pub fn collect_records(entries: Vec<Result<Project, RegistryError>>, policy: ScanPolicy) -> (r:
    Result<Vec<Project>, RegistryError>)
    ensures
        match r {
            Ok(found) => found@ == records_read(entries@) && (policy == ScanPolicy::FailFast
                ==> forall|k: int| 0 <= k < entries@.len() ==> (#[trigger] entries@[k]).is_ok()),
            Err(e) => policy == ScanPolicy::FailFast && exists|at: int|
                is_first_failure(entries@, at) && entries@[at] == Err::<Project, RegistryError>(e),
        },
{
    let ghost all = entries@;
    let mut rest: Vec<Result<Project, RegistryError>> = entries;
    let total: usize = rest.len();
    let mut found: Vec<Project> = Vec::new();
    let mut taken: usize = 0;
    assert(found@ =~= records_read(all.take(0)));
    while rest.len() > 0
        invariant
            all == entries@,
            all.len() == total,
            taken + rest.len() == all.len(),
            rest@ == all.skip(taken as int),
            found@ == records_read(all.take(taken as int)),
            policy == ScanPolicy::FailFast ==> forall|k: int|
                0 <= k < taken ==> (#[trigger] all[k]).is_ok(),
        decreases rest.len(),
    {
        let entry: Result<Project, RegistryError> = rest.remove(0);
        proof {
            assert(entry == all[taken as int]);
            assert(rest@ =~= all.skip(taken + 1));
            let next = all.take(taken + 1);
            assert(next.drop_last() =~= all.take(taken as int));
            assert(next.last() == entry);
        }
        match entry {
            Ok(p) => {
                found.push(p);
            },
            Err(e) => {
                if policy == ScanPolicy::FailFast {
                    assert(is_first_failure(all, taken as int));
                    return Err(e);
                }
            },
        }
        taken = taken + 1;
    }
    assert(all.take(taken as int) =~= all);
    Ok(found)
}

/// The store, rooted in a directory of its own under the home directory.
pub struct ProjectManager {
    home: String,
}

/// Whether `s` is in descending order of modification time.
pub open spec fn newest_first(s: Seq<Project>) -> bool {
    forall|i: int, j: int| 0 <= i < j < s.len() ==> s[i].last_modified >= s[j].last_modified
}

/// Whether the modification times in `s` strictly descend.
pub open spec fn strictly_newest_first(s: Seq<Project>) -> bool {
    forall|i: int, j: int| 0 <= i < j < s.len() ==> s[i].last_modified > s[j].last_modified
}

/// Whether no two records of `s` share a modification time.
pub open spec fn distinct_times(s: Seq<Project>) -> bool {
    forall|i: int, j: int|
        0 <= i < s.len() && 0 <= j < s.len() && i != j ==> s[i].last_modified
            != s[j].last_modified
}

/// The records of `s` whose modification time is `t`, in their order.
pub open spec fn with_time(s: Seq<Project>, t: u64) -> Seq<Project>
    decreases s.len(),
{
    if s.len() == 0 {
        Seq::empty()
    } else if s.last().last_modified == t {
        with_time(s.drop_last(), t).push(s.last())
    } else {
        with_time(s.drop_last(), t)
    }
}

/// Whether records of equal modification time stand in `a` in the order in
/// which they stand in `b`.
pub open spec fn ties_as_in(a: Seq<Project>, b: Seq<Project>) -> bool {
    forall|t: u64| #[trigger] with_time(a, t) == with_time(b, t)
}

/// The record as it is stored by a save at time `now`: the same record with
/// its modification time replaced.
pub open spec fn stamped(p: Project, now: u64) -> Project {
    Project { id: p.id, name: p.name, config: p.config, last_modified: now }
}

/// The low 64 bits of a count of milliseconds.
pub open spec fn low_millis(ms: u128) -> u64 {
    (ms % 0x1_0000_0000_0000_0000) as u64
}

/// Narrows a count of milliseconds since the epoch to the width of a
/// record's modification time, keeping the low 64 bits.
pub fn millis_stamp(ms: u128) -> (r: u64)
    ensures
        r == low_millis(ms),
{
    let low: u128 = ms % 0x1_0000_0000_0000_0000;
    low as u64
}

/// Sets the record's modification time to `now` and leaves the rest as it is.
pub fn stamp(project: Project, now: u64) -> (r: Project)
    ensures
        r == stamped(project, now),
{
    Project { id: project.id, name: project.name, config: project.config, last_modified: now }
}

/// Orders records by modification time, most recent first. Records of
/// equal time keep the order in which they came.
pub fn sort_newest_first(records: Vec<Project>) -> (r: Vec<Project>)
    ensures
        newest_first(r@),
        r@.to_multiset() == records@.to_multiset(),
        ties_as_in(r@, records@),
{
    let ghost all = records@;
    let mut rest: Vec<Project> = records;
    let mut out: Vec<Project> = Vec::new();
    proof {
        assert(rest@ =~= all.take(rest.len() as int));
        assert(all.skip(rest.len() as int) =~= out@);
        assert(out@.to_multiset() =~= vstd::multiset::Multiset::empty()) by {
            broadcast use vstd::seq_lib::group_to_multiset_ensures;
        }
        assert(out@.to_multiset().add(rest@.to_multiset()) =~= records@.to_multiset());
    }
    while rest.len() > 0
        invariant
            all == records@,
            rest.len() <= all.len(),
            rest@ == all.take(rest.len() as int),
            newest_first(out@),
            out@.to_multiset().add(rest@.to_multiset()) == records@.to_multiset(),
            ties_as_in(out@, all.skip(rest.len() as int)),
        decreases rest.len(),
    {
        let ghost rest_before = rest@;
        let ghost out_before = out@;
        let item: Project = rest.pop().unwrap();
        proof {
            broadcast use vstd::seq_lib::group_to_multiset_ensures;
            assert(rest_before =~= rest@.push(item));
        }
        let mut at: usize = 0;
        while at < out.len() && out[at].last_modified > item.last_modified
            invariant
                at <= out.len(),
                forall|k: int| 0 <= k < at ==> out@[k].last_modified > item.last_modified,
            decreases out.len() - at,
        {
            at = at + 1;
        }
        out.insert(at, item);
        proof {
            broadcast use vstd::seq_lib::group_to_multiset_ensures;
            assert(out@ =~= out_before.insert(at as int, item));
            assert(out@.remove(at as int) =~= out_before);
            assert(out@[at as int] == item);
            vstd::seq_lib::to_multiset_remove(out@, at as int);
            assert(out@.contains(item));
            assert(out@.to_multiset() =~= out_before.to_multiset().insert(item));
            assert(rest_before.to_multiset() =~= rest@.to_multiset().insert(item));
            assert(out@.to_multiset().add(rest@.to_multiset()) =~= out_before.to_multiset().add(
                rest_before.to_multiset(),
            ));
            let n = rest.len() as int;
            assert(rest@ =~= all.take(n));
            assert(item == all[n]);
            let head = out_before.take(at as int);
            let tail = out_before.skip(at as int);
            assert(out_before =~= head + tail);
            assert(out@ =~= head + seq![item] + tail);
            assert(all.skip(n) =~= seq![item] + all.skip(n + 1));
            assert forall|t: u64| #[trigger] with_time(out@, t) == with_time(all.skip(n), t) by {
                lemma_with_time_concat(head, tail, t);
                lemma_with_time_concat(head, seq![item], t);
                lemma_with_time_concat(head + seq![item], tail, t);
                lemma_with_time_concat(seq![item], all.skip(n + 1), t);
                assert(with_time(out_before, t) == with_time(all.skip(n + 1), t));
                if t == item.last_modified {
                    lemma_with_time_absent(head, t);
                    assert(with_time(out@, t) =~= with_time(all.skip(n), t));
                } else {
                    lemma_with_time_absent(seq![item], t);
                    assert(with_time(out@, t) =~= with_time(all.skip(n), t));
                }
            }
            assert forall|i: int, j: int| 0 <= i < j < out@.len() implies out@[i].last_modified
                >= out@[j].last_modified by {
                if j < at {
                    assert(out@[i] == out_before[i] && out@[j] == out_before[j]);
                } else if j == at {
                    assert(out@[i] == out_before[i]);
                } else if i < at {
                    assert(out@[i] == out_before[i] && out@[j] == out_before[j - 1]);
                } else if i == at {
                    assert(out@[j] == out_before[j - 1]);
                } else {
                    assert(out@[i] == out_before[i - 1] && out@[j] == out_before[j - 1]);
                }
            }
        }
    }
    proof {
        assert(rest@.to_multiset() =~= vstd::multiset::Multiset::empty()) by {
            broadcast use vstd::seq_lib::group_to_multiset_ensures;
            assert(rest@ =~= Seq::<Project>::empty());
        }
        assert(out@.to_multiset() =~= out@.to_multiset().add(rest@.to_multiset()));
        assert(all.skip(0) =~= all);
    }
    out
}

/// The records of one time in a list made of two parts are those of the
/// first part, then those of the second.
pub proof fn lemma_with_time_concat(a: Seq<Project>, b: Seq<Project>, t: u64)
    ensures
        with_time(a + b, t) == with_time(a, t) + with_time(b, t),
    decreases b.len(),
{
    if b.len() == 0 {
        assert(a + b =~= a);
        assert(with_time(a, t) + with_time(b, t) =~= with_time(a, t));
    } else {
        assert((a + b).drop_last() =~= a + b.drop_last());
        assert((a + b).last() == b.last());
        lemma_with_time_concat(a, b.drop_last(), t);
        if b.last().last_modified == t {
            assert(with_time(a, t) + with_time(b.drop_last(), t).push(b.last()) =~= (with_time(
                a,
                t,
            ) + with_time(b.drop_last(), t)).push(b.last()));
        }
    }
}

/// A list none of whose records has the time `t` holds no record of that
/// time.
pub proof fn lemma_with_time_absent(a: Seq<Project>, t: u64)
    requires
        forall|i: int| 0 <= i < a.len() ==> a[i].last_modified != t,
    ensures
        with_time(a, t) == Seq::<Project>::empty(),
    decreases a.len(),
{
    if a.len() > 0 {
        assert forall|i: int| 0 <= i < a.drop_last().len() implies a.drop_last()[i].last_modified
            != t by {
            assert(a.drop_last()[i] == a[i]);
        }
        lemma_with_time_absent(a.drop_last(), t);
    }
}

/// A list in descending order whose modification times are all distinct is
/// in strictly descending order.
pub proof fn lemma_distinct_times_strict(s: Seq<Project>)
    requires
        newest_first(s),
        distinct_times(s),
    ensures
        strictly_newest_first(s),
{
}

/// Stamping a record keeps its identifier, its name and its configuration,
/// and makes `now` its modification time; where the clock has not gone back
/// behind the record's earlier time, the new time is not before the old one.
pub proof fn lemma_stamp_keeps_record(p: Project, now: u64)
    ensures
        stamped(p, now).id == p.id,
        stamped(p, now).name == p.name,
        stamped(p, now).config == p.config,
        stamped(p, now).last_modified == now,
        now >= p.last_modified ==> stamped(p, now).last_modified >= p.last_modified,
{
}

impl ProjectManager {
    /// The store of the user whose home directory is `home`; fails where no
    /// home directory is known.
    pub fn new(home: Option<String>) -> (r: Result<ProjectManager, RegistryError>)
        ensures
            match r {
                Ok(m) => home.is_some() && m.home_text() == home.unwrap()@,
                Err(e) => home.is_none() && e == RegistryError::NoHomeDirectory,
            },
    {
        match home {
            Some(h) => Ok(ProjectManager { home: h }),
            None => Err(RegistryError::NoHomeDirectory),
        }
    }

    /// The home directory that the store was made with.
    pub closed spec fn home_text(&self) -> Seq<char> {
        self.home@
    }

    /// The components of the store's root directory.
    pub open spec fn root(&self) -> Seq<Seq<char>> {
        seq![self.home_text(), store_dir_name()]
    }

    /// The store's root directory.
    pub fn projects_dir(&self) -> (r: StorePath)
        ensures
            r@ == self.root(),
    {
        let mut components: Vec<String> = Vec::new();
        let first: String = self.home.clone();
        let second: String = ".pake-gui".to_owned();
        proof {
            lemma_texts_push(components@, first);
            lemma_texts_push(components@.push(first), second);
        }
        components.push(first);
        components.push(second);
        assert(texts(components@) =~= self.root());
        StorePath { components }
    }

    /// The directory of the record `project_id`. Nothing is looked up: the
    /// directory need not exist.
    pub fn get_project_path(&self, project_id: &str) -> (r: StorePath)
        ensures
            r@ == self.root().push(project_id@),
    {
        let root: StorePath = self.projects_dir();
        let mut components: Vec<String> = root.components;
        let last: String = project_id.to_owned();
        proof {
            lemma_texts_push(components@, last);
        }
        components.push(last);
        StorePath { components }
    }

    /// The file that holds the record `project_id`. Nothing is looked up.
    pub fn get_project_config_path(&self, project_id: &str) -> (r: StorePath)
        ensures
            r@ == self.root().push(project_id@).push(record_file_name()),
    {
        let dir: StorePath = self.get_project_path(project_id);
        let mut components: Vec<String> = dir.components;
        let last: String = "tauri.conf.json".to_owned();
        proof {
            lemma_texts_push(components@, last);
        }
        components.push(last);
        StorePath { components }
    }

    /// The listing of the store, given the records found in it: the same
    /// records, most recently modified first.
    pub fn list_projects(&self, found: Vec<Project>) -> (r: Vec<Project>)
        ensures
            newest_first(r@),
            r@.to_multiset() == found@.to_multiset(),
            ties_as_in(r@, found@),
            distinct_times(found@) ==> strictly_newest_first(r@),
    {
        let sorted: Vec<Project> = sort_newest_first(found);
        proof {
            if distinct_times(found@) {
                lemma_permutation_keeps_distinct(found@, sorted@);
                lemma_distinct_times_strict(sorted@);
            }
        }
        sorted
    }

    /// What a save at time `now` writes, and where: the record's file, and
    /// the record with `now` as its modification time.
    pub fn save_project(&self, project: Project, now: u64) -> (r: (StorePath, Project))
        ensures
            r.0@ == self.root().push(project.id@).push(record_file_name()),
            r.1 == stamped(project, now),
    {
        let file: StorePath = self.get_project_config_path(project.id.as_str());
        (file, stamp(project, now))
    }

    /// What a delete removes: the record's directory where it is present,
    /// nothing where it is absent.
    pub fn delete_project(&self, project_id: &str, present: bool) -> (r: Option<StorePath>)
        ensures
            match r {
                Some(dir) => present && dir@ == self.root().push(project_id@),
                None => !present,
            },
    {
        if present {
            Some(self.get_project_path(project_id))
        } else {
            None
        }
    }
}

/// A rearrangement of a list with distinct modification times has distinct
/// modification times.
pub proof fn lemma_permutation_keeps_distinct(a: Seq<Project>, b: Seq<Project>)
    requires
        distinct_times(a),
        a.to_multiset() == b.to_multiset(),
    ensures
        distinct_times(b),
{
    broadcast use vstd::seq_lib::group_to_multiset_ensures;
    assert forall|i: int, j: int|
        0 <= i < b.len() && 0 <= j < b.len() && i != j implies b[i].last_modified
        != b[j].last_modified by {
        if b[i].last_modified == b[j].last_modified {
            // both occur in `a`
            assert(b.to_multiset().count(b[i]) > 0);
            assert(b.to_multiset().count(b[j]) > 0);
            assert(a.to_multiset().count(b[i]) > 0);
            assert(a.to_multiset().count(b[j]) > 0);
            assert(a.contains(b[i]));
            assert(a.contains(b[j]));
            let x = choose|x: int| 0 <= x < a.len() && a[x] == b[i];
            let y = choose|y: int| 0 <= y < a.len() && a[y] == b[j];
            if x != y {
                assert(false);
            } else {
                // the same record occurs twice in `b`, so twice in `a`
                lemma_two_occurrences(b, i, j);
                lemma_count_two_gives_two_places(a, b[i]);
                assert(false);
            }
        }
    }
}

/// A value found at two places of a list occurs at least twice in it.
proof fn lemma_two_occurrences(s: Seq<Project>, i: int, j: int)
    requires
        0 <= i < j < s.len() || 0 <= j < i < s.len(),
        s[i] == s[j],
    ensures
        s.to_multiset().count(s[i]) >= 2,
    decreases s.len(),
{
    broadcast use vstd::seq_lib::group_to_multiset_ensures;
    let hi = if i < j { j } else { i };
    let lo = if i < j { i } else { j };
    let last = s.len() - 1;
    assert(s =~= s.drop_last().push(s.last()));
    if hi == last {
        assert(s.drop_last()[lo] == s[lo]);
        assert(s.drop_last().contains(s[lo]));
        assert(s.drop_last().to_multiset().count(s[lo]) > 0);
        assert(s.to_multiset() =~= s.drop_last().to_multiset().insert(s.last()));
    } else {
        lemma_two_occurrences(s.drop_last(), i, j);
        assert(s.to_multiset() =~= s.drop_last().to_multiset().insert(s.last()));
    }
}

/// A value that occurs at least twice in a list is found at two places.
proof fn lemma_count_two_gives_two_places(s: Seq<Project>, v: Project)
    requires
        s.to_multiset().count(v) >= 2,
    ensures
        exists|x: int, y: int| 0 <= x < y < s.len() && s[x] == v && s[y] == v,
    decreases s.len(),
{
    broadcast use vstd::seq_lib::group_to_multiset_ensures;
    if s.len() == 0 {
        assert(s =~= Seq::<Project>::empty());
        assert(s.to_multiset() =~= vstd::multiset::Multiset::empty());
    } else {
        assert(s =~= s.drop_last().push(s.last()));
        assert(s.to_multiset() =~= s.drop_last().to_multiset().insert(s.last()));
        if s.last() == v {
            assert(s.drop_last().to_multiset().count(v) >= 1);
            assert(s.drop_last().contains(v));
            let x = choose|x: int| 0 <= x < s.drop_last().len() && s.drop_last()[x] == v;
            assert(s[x] == v && s[s.len() - 1] == v);
        } else {
            lemma_count_two_gives_two_places(s.drop_last(), v);
            let (x, y) = choose|x: int, y: int|
                0 <= x < y < s.drop_last().len() && s.drop_last()[x] == v && s.drop_last()[y]
                    == v;
            assert(s[x] == v && s[y] == v);
        }
    }
}

} // verus!
