//! The mock API server's state: four independent keyed stores holding
//! the authoritative collections that the endpoint handlers answer from.

use vstd::prelude::*;

use crate::codec::lower_of;
use crate::codec::to_lowercase;
use crate::dependency::Dependency;
use crate::issue::Issue;
use crate::project::Project;
use crate::revision::Revision;
use crate::strutil::contains_sub;
use crate::strutil::eq_ignore_ascii_case;
use crate::strutil::revision_of_project;
use crate::strutil::spec_contains_sub;
use crate::strutil::spec_eq_ignore_ascii_case;
use crate::strutil::spec_revision_of_project;
use crate::strutil::str_eq;

verus! {

/// Index of the first element of `s` satisfying `p`, if any.
pub open spec fn find_by<T>(s: Seq<T>, p: spec_fn(T) -> bool) -> Option<int>
    decreases s.len(),
{
    if s.len() == 0 {
        None
    } else if p(s[0]) {
        Some(0int)
    } else {
        match find_by(s.skip(1), p) {
            Some(i) => Some(i + 1),
            None => None,
        }
    }
}

/// What `find_by` returns: the position of the first element satisfying
/// `p`, or `None` when no element does.
pub proof fn lemma_find_by<T>(s: Seq<T>, p: spec_fn(T) -> bool)
    ensures
        match find_by(s, p) {
            Some(i) => 0 <= i < s.len() && p(s[i]) && (forall|j: int|
                0 <= j < i ==> !p(#[trigger] s[j])),
            None => forall|j: int| 0 <= j < s.len() ==> !p(#[trigger] s[j]),
        },
    decreases s.len(),
{
    if s.len() != 0 && !p(s[0]) {
        lemma_find_by(s.skip(1), p);
        match find_by(s.skip(1), p) {
            Some(i) => {
                assert(s[i + 1] == s.skip(1)[i]);
                assert forall|j: int| 0 <= j < i + 1 implies !p(#[trigger] s[j]) by {
                    if j > 0 {
                        assert(s[j] == s.skip(1)[j - 1]);
                    }
                }
            },
            None => {
                assert forall|j: int| 0 <= j < s.len() implies !p(#[trigger] s[j]) by {
                    if j > 0 {
                        assert(s[j] == s.skip(1)[j - 1]);
                    }
                }
            },
        }
    }
}

/// The key predicate of the project store.
pub open spec fn project_has_key(key: Seq<char>) -> spec_fn(Project) -> bool {
    |p: Project| p.id@ == key
}

/// The key predicate of the revision store.
pub open spec fn revision_has_key(key: Seq<char>) -> spec_fn(Revision) -> bool {
    |v: Revision| v.locator@ == key
}

/// The key predicate of the dependency store.
pub open spec fn entry_has_key(key: Seq<char>) -> spec_fn(DependencyEntry) -> bool {
    |e: DependencyEntry| e.revision_locator@ == key
}

/// The key predicate of the issue store.
pub open spec fn issue_has_key(key: u64) -> spec_fn(Issue) -> bool {
    |x: Issue| x.id == key
}

/// The dependencies recorded for one revision.
pub struct DependencyEntry {
    /// The revision locator these dependencies belong to.
    pub revision_locator: String,
    /// The dependencies, in recorded order.
    pub deps: Vec<Dependency>,
}

/// Whether a stored project matches an optional case-insensitive
/// substring filter on its title.
pub open spec fn spec_title_matches(p: Project, filter: Option<Seq<char>>) -> bool {
    match filter {
        None => true,
        Some(f) => spec_contains_sub(lower_of(p.title@), lower_of(f)),
    }
}

/// Whether a stored issue matches an optional case-insensitive exact
/// filter on its type.
pub open spec fn spec_category_matches(i: Issue, category: Option<Seq<char>>) -> bool {
    match category {
        None => true,
        Some(c) => spec_eq_ignore_ascii_case(i.issue_type@, c),
    }
}

/// The in-memory store for the mock API server.
///
/// Projects are keyed by project locator, revisions by revision locator,
/// dependency lists by the revision locator they belong to, and issues by
/// numeric id. Keys are unique; insertion order is kept and is the order
/// listings are answered in.
pub struct MockState {
    /// Projects, keyed by locator (e.g., "custom+1/test-project").
    pub projects: Vec<Project>,
    /// Revisions, keyed by locator (e.g., "custom+1/test$main").
    pub revisions: Vec<Revision>,
    /// Dependency lists, keyed by revision locator.
    pub dependencies: Vec<DependencyEntry>,
    /// Issues, keyed by id.
    pub issues: Vec<Issue>,
    /// Optional authentication token; when set, requests must carry it.
    pub required_token: Option<String>,
}

impl MockState {
    /// Key uniqueness across all four stores.
    pub open spec fn wf(self) -> bool {
        &&& forall|i: int, j: int|
            0 <= i < j < self.projects@.len() ==> (#[trigger] self.projects@[i]).id@ != (
            #[trigger] self.projects@[j]).id@
        &&& forall|i: int, j: int|
            0 <= i < j < self.revisions@.len() ==> (#[trigger] self.revisions@[i]).locator@ != (
            #[trigger] self.revisions@[j]).locator@
        &&& forall|i: int, j: int|
            0 <= i < j < self.dependencies@.len() ==> (
            #[trigger] self.dependencies@[i]).revision_locator@ != (
            #[trigger] self.dependencies@[j]).revision_locator@
        &&& forall|i: int, j: int|
            0 <= i < j < self.issues@.len() ==> (#[trigger] self.issues@[i]).id != (
            #[trigger] self.issues@[j]).id
    }

    /// Create a new empty state.
    pub fn new() -> (r: Self)
        ensures
            r.projects@.len() == 0,
            r.revisions@.len() == 0,
            r.dependencies@.len() == 0,
            r.issues@.len() == 0,
            r.required_token is None,
            r.wf(),
    {
        MockState {
            projects: Vec::new(),
            revisions: Vec::new(),
            dependencies: Vec::new(),
            issues: Vec::new(),
            required_token: None,
        }
    }

    /// Add a project, keyed by its locator: an existing entry with the
    /// same key is replaced in place, otherwise the project is appended.
    pub fn with_project(self, project: Project) -> (r: Self)
        requires
            self.wf(),
        ensures
            r.wf(),
            match find_by(self.projects@, project_has_key(project.id@)) {
                Some(i) => r.projects@ == self.projects@.update(i, project),
                None => r.projects@ == self.projects@.push(project),
            },
            r.revisions == self.revisions,
            r.dependencies == self.dependencies,
            r.issues == self.issues,
            r.required_token == self.required_token,
    {
        let ghost orig = self.projects@;
        let ghost pred = project_has_key(project.id@);
        proof {
            lemma_find_by(orig, pred);
        }
        let mut s = self;
        let n = s.projects.len();
        let mut i: usize = 0;
        while i < n
            invariant
                i <= n,
                n == orig.len(),
                s == self,
                orig == self.projects@,
                self.wf(),
                pred == project_has_key(project.id@),
                forall|j: int| 0 <= j < i ==> !pred(#[trigger] orig[j]),
            decreases n - i,
        {
            if str_eq(s.projects[i].id.as_str(), project.id.as_str()) {
                proof {
                    assert(pred(orig[i as int]));
                    lemma_find_by(orig, pred);
                    assert(find_by(orig, pred) == Some(i as int));
                }
                let _old = s.projects.remove(i);
                s.projects.insert(i, project);
                proof {
                    assert(s.projects@ =~= orig.update(i as int, project));
                    assert forall|a: int, b: int|
                        0 <= a < b < s.projects@.len() implies (#[trigger] s.projects@[a]).id@ != (
                    #[trigger] s.projects@[b]).id@ by {
                        assert(s.projects@[a].id@ == orig[a].id@);
                        assert(s.projects@[b].id@ == orig[b].id@);
                    }
                }
                return s;
            }
            i = i + 1;
        }
        proof {
            lemma_find_by(orig, pred);
            assert(find_by(orig, pred) is None);
        }
        s.projects.push(project);
        proof {
            assert forall|a: int, b: int|
                0 <= a < b < s.projects@.len() implies (#[trigger] s.projects@[a]).id@ != (
            #[trigger] s.projects@[b]).id@ by {
                if b < orig.len() {
                } else {
                    assert(!pred(orig[a]));
                }
            }
        }
        s
    }

    /// Add a revision, keyed by its locator, with replace-or-append
    /// semantics as for projects.
    pub fn with_revision(self, revision: Revision) -> (r: Self)
        requires
            self.wf(),
        ensures
            r.wf(),
            match find_by(self.revisions@, revision_has_key(revision.locator@)) {
                Some(i) => r.revisions@ == self.revisions@.update(i, revision),
                None => r.revisions@ == self.revisions@.push(revision),
            },
            r.projects == self.projects,
            r.dependencies == self.dependencies,
            r.issues == self.issues,
            r.required_token == self.required_token,
    {
        let ghost orig = self.revisions@;
        let ghost pred = revision_has_key(revision.locator@);
        proof {
            lemma_find_by(orig, pred);
        }
        let mut s = self;
        let n = s.revisions.len();
        let mut i: usize = 0;
        while i < n
            invariant
                i <= n,
                n == orig.len(),
                s == self,
                orig == self.revisions@,
                self.wf(),
                pred == revision_has_key(revision.locator@),
                forall|j: int| 0 <= j < i ==> !pred(#[trigger] orig[j]),
            decreases n - i,
        {
            if str_eq(s.revisions[i].locator.as_str(), revision.locator.as_str()) {
                proof {
                    assert(pred(orig[i as int]));
                    lemma_find_by(orig, pred);
                    assert(find_by(orig, pred) == Some(i as int));
                }
                let _old = s.revisions.remove(i);
                s.revisions.insert(i, revision);
                proof {
                    assert(s.revisions@ =~= orig.update(i as int, revision));
                    assert forall|a: int, b: int|
                        0 <= a < b < s.revisions@.len() implies (
                    #[trigger] s.revisions@[a]).locator@ != (
                    #[trigger] s.revisions@[b]).locator@ by {
                        assert(s.revisions@[a].locator@ == orig[a].locator@);
                        assert(s.revisions@[b].locator@ == orig[b].locator@);
                    }
                }
                return s;
            }
            i = i + 1;
        }
        proof {
            lemma_find_by(orig, pred);
            assert(find_by(orig, pred) is None);
        }
        s.revisions.push(revision);
        proof {
            assert forall|a: int, b: int|
                0 <= a < b < s.revisions@.len() implies (#[trigger] s.revisions@[a]).locator@ != (
            #[trigger] s.revisions@[b]).locator@ by {
                if b < orig.len() {
                } else {
                    assert(!pred(orig[a]));
                }
            }
        }
        s
    }

    /// Record the dependency list of a revision, with replace-or-append
    /// semantics keyed by the revision locator.
    pub fn with_dependencies(self, revision_locator: &str, deps: Vec<Dependency>) -> (r: Self)
        requires
            self.wf(),
        ensures
            r.wf(),
            match find_by(self.dependencies@, entry_has_key(revision_locator@)) {
                Some(i) => r.dependencies@.len() == self.dependencies@.len()
                    && r.dependencies@[i].revision_locator@ == revision_locator@
                    && r.dependencies@[i].deps == deps && (forall|j: int|
                    0 <= j < self.dependencies@.len() && j != i ==> r.dependencies@[j]
                        == self.dependencies@[j]),
                None => r.dependencies@.len() == self.dependencies@.len() + 1
                    && r.dependencies@.last().revision_locator@ == revision_locator@
                    && r.dependencies@.last().deps == deps && (forall|j: int|
                    0 <= j < self.dependencies@.len() ==> r.dependencies@[j]
                        == self.dependencies@[j]),
            },
            r.projects == self.projects,
            r.revisions == self.revisions,
            r.issues == self.issues,
            r.required_token == self.required_token,
    {
        let ghost orig = self.dependencies@;
        let ghost pred = entry_has_key(revision_locator@);
        proof {
            lemma_find_by(orig, pred);
        }
        let key = revision_locator.to_owned();
        let entry = DependencyEntry { revision_locator: key, deps };
        let mut s = self;
        let n = s.dependencies.len();
        let mut i: usize = 0;
        while i < n
            invariant
                i <= n,
                n == orig.len(),
                s == self,
                orig == self.dependencies@,
                self.wf(),
                pred == entry_has_key(revision_locator@),
                entry.revision_locator@ == revision_locator@,
                entry.deps == deps,
                forall|j: int| 0 <= j < i ==> !pred(#[trigger] orig[j]),
            decreases n - i,
        {
            if str_eq(s.dependencies[i].revision_locator.as_str(), entry.revision_locator.as_str())
            {
                proof {
                    assert(pred(orig[i as int]));
                    lemma_find_by(orig, pred);
                    assert(find_by(orig, pred) == Some(i as int));
                }
                let ghost gentry = entry;
                let _old = s.dependencies.remove(i);
                s.dependencies.insert(i, entry);
                proof {
                    assert(s.dependencies@ =~= orig.update(i as int, gentry));
                    assert forall|a: int, b: int|
                        0 <= a < b < s.dependencies@.len() implies (
                    #[trigger] s.dependencies@[a]).revision_locator@ != (
                    #[trigger] s.dependencies@[b]).revision_locator@ by {
                        assert(s.dependencies@[a].revision_locator@ == orig[a].revision_locator@);
                        assert(s.dependencies@[b].revision_locator@ == orig[b].revision_locator@);
                    }
                }
                return s;
            }
            i = i + 1;
        }
        proof {
            lemma_find_by(orig, pred);
            assert(find_by(orig, pred) is None);
        }
        s.dependencies.push(entry);
        proof {
            assert forall|a: int, b: int|
                0 <= a < b < s.dependencies@.len() implies (
            #[trigger] s.dependencies@[a]).revision_locator@ != (
            #[trigger] s.dependencies@[b]).revision_locator@ by {
                if b < orig.len() {
                } else {
                    assert(!pred(orig[a]));
                }
            }
        }
        s
    }

    /// Add an issue, keyed by its id, with replace-or-append semantics.
    pub fn with_issue(self, issue: Issue) -> (r: Self)
        requires
            self.wf(),
        ensures
            r.wf(),
            match find_by(self.issues@, issue_has_key(issue.id)) {
                Some(i) => r.issues@ == self.issues@.update(i, issue),
                None => r.issues@ == self.issues@.push(issue),
            },
            r.projects == self.projects,
            r.revisions == self.revisions,
            r.dependencies == self.dependencies,
            r.required_token == self.required_token,
    {
        let ghost orig = self.issues@;
        let ghost pred = issue_has_key(issue.id);
        proof {
            lemma_find_by(orig, pred);
        }
        let mut s = self;
        let n = s.issues.len();
        let mut i: usize = 0;
        while i < n
            invariant
                i <= n,
                n == orig.len(),
                s == self,
                orig == self.issues@,
                self.wf(),
                pred == issue_has_key(issue.id),
                forall|j: int| 0 <= j < i ==> !pred(#[trigger] orig[j]),
            decreases n - i,
        {
            if s.issues[i].id == issue.id {
                proof {
                    assert(pred(orig[i as int]));
                    lemma_find_by(orig, pred);
                    assert(find_by(orig, pred) == Some(i as int));
                }
                let _old = s.issues.remove(i);
                s.issues.insert(i, issue);
                proof {
                    assert(s.issues@ =~= orig.update(i as int, issue));
                    assert forall|a: int, b: int|
                        0 <= a < b < s.issues@.len() implies (#[trigger] s.issues@[a]).id != (
                    #[trigger] s.issues@[b]).id by {
                        assert(s.issues@[a].id == orig[a].id);
                        assert(s.issues@[b].id == orig[b].id);
                    }
                }
                return s;
            }
            i = i + 1;
        }
        proof {
            lemma_find_by(orig, pred);
            assert(find_by(orig, pred) is None);
        }
        s.issues.push(issue);
        proof {
            assert forall|a: int, b: int|
                0 <= a < b < s.issues@.len() implies (#[trigger] s.issues@[a]).id != (
            #[trigger] s.issues@[b]).id by {
                if b < orig.len() {
                } else {
                    assert(!pred(orig[a]));
                }
            }
        }
        s
    }

    /// Set the required authentication token.
    pub fn with_required_token(self, token: &str) -> (r: Self)
        ensures
            match r.required_token {
                Some(t) => t@ == token@,
                None => false,
            },
            r.projects == self.projects,
            r.revisions == self.revisions,
            r.dependencies == self.dependencies,
            r.issues == self.issues,
    {
        let mut s = self;
        s.required_token = Some(token.to_owned());
        s
    }

    /// Get a project by locator (exact key lookup).
    pub fn get_project(&self, locator: &str) -> (r: Option<&Project>)
        ensures
            match find_by(self.projects@, project_has_key(locator@)) {
                Some(i) => r matches Some(p) && *p == self.projects@[i],
                None => r is None,
            },
    {
        let ghost pred = project_has_key(locator@);
        proof {
            lemma_find_by(self.projects@, pred);
        }
        let n = self.projects.len();
        let mut i: usize = 0;
        while i < n
            invariant
                i <= n,
                n == self.projects@.len(),
                pred == project_has_key(locator@),
                forall|j: int| 0 <= j < i ==> !pred(#[trigger] self.projects@[j]),
            decreases n - i,
        {
            if str_eq(self.projects[i].id.as_str(), locator) {
                proof {
                    assert(pred(self.projects@[i as int]));
                    lemma_find_by(self.projects@, pred);
                    assert(find_by(self.projects@, pred) == Some(i as int));
                }
                return Some(&self.projects[i]);
            }
            i = i + 1;
        }
        proof {
            lemma_find_by(self.projects@, pred);
        }
        None
    }

    /// Get a revision by locator (exact key lookup).
    pub fn get_revision(&self, locator: &str) -> (r: Option<&Revision>)
        ensures
            match find_by(self.revisions@, revision_has_key(locator@)) {
                Some(i) => r matches Some(v) && *v == self.revisions@[i],
                None => r is None,
            },
    {
        let ghost pred = revision_has_key(locator@);
        proof {
            lemma_find_by(self.revisions@, pred);
        }
        let n = self.revisions.len();
        let mut i: usize = 0;
        while i < n
            invariant
                i <= n,
                n == self.revisions@.len(),
                pred == revision_has_key(locator@),
                forall|j: int| 0 <= j < i ==> !pred(#[trigger] self.revisions@[j]),
            decreases n - i,
        {
            if str_eq(self.revisions[i].locator.as_str(), locator) {
                proof {
                    assert(pred(self.revisions@[i as int]));
                    lemma_find_by(self.revisions@, pred);
                    assert(find_by(self.revisions@, pred) == Some(i as int));
                }
                return Some(&self.revisions[i]);
            }
            i = i + 1;
        }
        proof {
            lemma_find_by(self.revisions@, pred);
        }
        None
    }

    /// Get the dependency list recorded for a revision (exact key
    /// lookup); `None` when the revision has no recorded list at all.
    pub fn get_dependencies(&self, revision_locator: &str) -> (r: Option<&Vec<Dependency>>)
        ensures
            match find_by(self.dependencies@, entry_has_key(revision_locator@)) {
                Some(i) => r matches Some(d) && *d == self.dependencies@[i].deps,
                None => r is None,
            },
    {
        let ghost pred = entry_has_key(revision_locator@);
        proof {
            lemma_find_by(self.dependencies@, pred);
        }
        let n = self.dependencies.len();
        let mut i: usize = 0;
        while i < n
            invariant
                i <= n,
                n == self.dependencies@.len(),
                pred == entry_has_key(revision_locator@),
                forall|j: int| 0 <= j < i ==> !pred(#[trigger] self.dependencies@[j]),
            decreases n - i,
        {
            if str_eq(self.dependencies[i].revision_locator.as_str(), revision_locator) {
                proof {
                    assert(pred(self.dependencies@[i as int]));
                    lemma_find_by(self.dependencies@, pred);
                    assert(find_by(self.dependencies@, pred) == Some(i as int));
                }
                return Some(&self.dependencies[i].deps);
            }
            i = i + 1;
        }
        proof {
            lemma_find_by(self.dependencies@, pred);
        }
        None
    }

    /// Get an issue by id (exact key lookup).
    pub fn get_issue(&self, id: u64) -> (r: Option<&Issue>)
        ensures
            match find_by(self.issues@, issue_has_key(id)) {
                Some(i) => r matches Some(x) && *x == self.issues@[i],
                None => r is None,
            },
    {
        let ghost pred = issue_has_key(id);
        proof {
            lemma_find_by(self.issues@, pred);
        }
        let n = self.issues.len();
        let mut i: usize = 0;
        while i < n
            invariant
                i <= n,
                n == self.issues@.len(),
                pred == issue_has_key(id),
                forall|j: int| 0 <= j < i ==> !pred(#[trigger] self.issues@[j]),
            decreases n - i,
        {
            if self.issues[i].id == id {
                proof {
                    assert(pred(self.issues@[i as int]));
                    lemma_find_by(self.issues@, pred);
                    assert(find_by(self.issues@, pred) == Some(i as int));
                }
                return Some(&self.issues[i]);
            }
            i = i + 1;
        }
        proof {
            lemma_find_by(self.issues@, pred);
        }
        None
    }

    /// The predicate form of the title filter.
    pub open spec fn title_pred(filter: Option<Seq<char>>) -> spec_fn(Project) -> bool {
        |p: Project| spec_title_matches(p, filter)
    }

    /// The projects matching an optional case-insensitive substring
    /// filter on the title, in store order.
    pub open spec fn filtered_projects(self, filter: Option<Seq<char>>) -> Seq<Project> {
        self.projects@.filter(Self::title_pred(filter))
    }

    /// List all projects, optionally filtered by title (case-insensitive
    /// substring match). Returns the full matching set; pagination is the
    /// caller-facing handler's concern.
    pub fn list_projects<'a>(&'a self, title_filter: Option<&str>) -> (r: Vec<&'a Project>)
        ensures
            r@.len() == self.filtered_projects(
                match title_filter {
                    Some(f) => Some(f@),
                    None => None,
                },
            ).len(),
            forall|k: int|
                0 <= k < r@.len() ==> *(#[trigger] r@[k]) == self.filtered_projects(
                    match title_filter {
                        Some(f) => Some(f@),
                        None => None,
                    },
                )[k],
    {
        let ghost gf: Option<Seq<char>> = match title_filter {
            Some(f) => Some(f@),
            None => None,
        };
        let ghost pred = Self::title_pred(gf);
        let mut out: Vec<&'a Project> = Vec::new();
        let ghost mut fil: Seq<Project> = Seq::empty();
        let n = self.projects.len();
        let mut i: usize = 0;
        proof {
            assert(self.projects@.subrange(0, 0).filter(pred) =~= fil);
        }
        while i < n
            invariant
                i <= n,
                n == self.projects@.len(),
                gf == (match title_filter {
                    Some(f) => Some(f@),
                    None => None,
                }),
                pred == MockState::title_pred(gf),
                fil == self.projects@.subrange(0, i as int).filter(pred),
                out@.len() == fil.len(),
                forall|k: int| 0 <= k < out@.len() ==> *(#[trigger] out@[k]) == fil[k],
            decreases n - i,
        {
            let p = &self.projects[i];
            let matches = match title_filter {
                None => true,
                Some(f) => {
                    let lt = to_lowercase(p.title.as_str());
                    let lf = to_lowercase(f);
                    contains_sub(lt.as_str(), lf.as_str())
                },
            };
            proof {
                assert(matches == pred(self.projects@[i as int]));
                let prefix = self.projects@.subrange(0, i as int);
                assert(self.projects@.subrange(0, i + 1) =~= prefix.push(self.projects@[i as int]));
                prefix.lemma_filter_push(self.projects@[i as int], pred);
            }
            if matches {
                out.push(p);
                proof {
                    fil = fil.push(self.projects@[i as int]);
                }
            }
            i = i + 1;
        }
        proof {
            assert(self.projects@.subrange(0, n as int) =~= self.projects@);
        }
        out
    }

    /// The predicate marking the revisions of one project.
    pub open spec fn revision_pred(project_locator: Seq<char>) -> spec_fn(Revision) -> bool {
        |v: Revision| spec_revision_of_project(v.locator@, project_locator)
    }

    /// The revisions whose locator marks them as revisions of the given
    /// project, in store order.
    pub open spec fn revisions_of_project(self, project_locator: Seq<char>) -> Seq<Revision> {
        self.revisions@.filter(Self::revision_pred(project_locator))
    }

    /// List the revisions of a project: every revision whose key has the
    /// project's locator as a strict prefix immediately followed by the
    /// reserved separator.
    pub fn list_revisions_for_project<'a>(&'a self, project_locator: &str) -> (r: Vec<
        &'a Revision,
    >)
        ensures
            r@.len() == self.revisions_of_project(project_locator@).len(),
            forall|k: int|
                0 <= k < r@.len() ==> *(#[trigger] r@[k]) == self.revisions_of_project(
                    project_locator@,
                )[k],
    {
        let ghost pred = Self::revision_pred(project_locator@);
        let mut out: Vec<&'a Revision> = Vec::new();
        let ghost mut fil: Seq<Revision> = Seq::empty();
        let n = self.revisions.len();
        let mut i: usize = 0;
        proof {
            assert(self.revisions@.subrange(0, 0).filter(pred) =~= fil);
        }
        while i < n
            invariant
                i <= n,
                n == self.revisions@.len(),
                pred == MockState::revision_pred(project_locator@),
                fil == self.revisions@.subrange(0, i as int).filter(pred),
                out@.len() == fil.len(),
                forall|k: int| 0 <= k < out@.len() ==> *(#[trigger] out@[k]) == fil[k],
            decreases n - i,
        {
            let v = &self.revisions[i];
            let matches = revision_of_project(v.locator.as_str(), project_locator);
            proof {
                assert(matches == pred(self.revisions@[i as int]));
                let prefix = self.revisions@.subrange(0, i as int);
                assert(self.revisions@.subrange(0, i + 1) =~= prefix.push(
                    self.revisions@[i as int],
                ));
                prefix.lemma_filter_push(self.revisions@[i as int], pred);
            }
            if matches {
                out.push(v);
                proof {
                    fil = fil.push(self.revisions@[i as int]);
                }
            }
            i = i + 1;
        }
        proof {
            assert(self.revisions@.subrange(0, n as int) =~= self.revisions@);
        }
        out
    }

    /// The predicate form of the category filter.
    pub open spec fn category_pred(category: Option<Seq<char>>) -> spec_fn(Issue) -> bool {
        |x: Issue| spec_category_matches(x, category)
    }

    /// The issues matching an optional case-insensitive exact filter on
    /// their type, in store order.
    pub open spec fn filtered_issues(self, category: Option<Seq<char>>) -> Seq<Issue> {
        self.issues@.filter(Self::category_pred(category))
    }

    /// List all issues, optionally filtered by category (case-insensitive
    /// exact match against the issue type).
    pub fn list_issues<'a>(&'a self, category: Option<&str>) -> (r: Vec<&'a Issue>)
        ensures
            r@.len() == self.filtered_issues(
                match category {
                    Some(c) => Some(c@),
                    None => None,
                },
            ).len(),
            forall|k: int|
                0 <= k < r@.len() ==> *(#[trigger] r@[k]) == self.filtered_issues(
                    match category {
                        Some(c) => Some(c@),
                        None => None,
                    },
                )[k],
    {
        let ghost gc: Option<Seq<char>> = match category {
            Some(c) => Some(c@),
            None => None,
        };
        let ghost pred = Self::category_pred(gc);
        let mut out: Vec<&'a Issue> = Vec::new();
        let ghost mut fil: Seq<Issue> = Seq::empty();
        let n = self.issues.len();
        let mut i: usize = 0;
        proof {
            assert(self.issues@.subrange(0, 0).filter(pred) =~= fil);
        }
        while i < n
            invariant
                i <= n,
                n == self.issues@.len(),
                gc == (match category {
                    Some(c) => Some(c@),
                    None => None,
                }),
                pred == MockState::category_pred(gc),
                fil == self.issues@.subrange(0, i as int).filter(pred),
                out@.len() == fil.len(),
                forall|k: int| 0 <= k < out@.len() ==> *(#[trigger] out@[k]) == fil[k],
            decreases n - i,
        {
            let x = &self.issues[i];
            let matches = match category {
                None => true,
                Some(c) => eq_ignore_ascii_case(x.issue_type.as_str(), c),
            };
            proof {
                assert(matches == pred(self.issues@[i as int]));
                let prefix = self.issues@.subrange(0, i as int);
                assert(self.issues@.subrange(0, i + 1) =~= prefix.push(self.issues@[i as int]));
                prefix.lemma_filter_push(self.issues@[i as int], pred);
            }
            if matches {
                out.push(x);
                proof {
                    fil = fil.push(self.issues@[i as int]);
                }
            }
            i = i + 1;
        }
        proof {
            assert(self.issues@.subrange(0, n as int) =~= self.issues@);
        }
        out
    }

    /// Update a project in place: each of title/url/public is
    /// independently optional; a present value overwrites, an absent one
    /// leaves the stored field untouched. Returns the post-update record,
    /// or `None` (leaving the state unchanged) when the key is absent.
    pub fn update_project(
        &mut self,
        locator: &str,
        title: Option<String>,
        url: Option<String>,
        public: Option<bool>,
    ) -> (r: Option<&Project>)
        ensures
            old(self).wf() ==> final(self).wf(),
            final(self).revisions == old(self).revisions,
            final(self).dependencies == old(self).dependencies,
            final(self).issues == old(self).issues,
            final(self).required_token == old(self).required_token,
            match find_by(old(self).projects@, project_has_key(locator@)) {
                None => r is None && final(self).projects == old(self).projects,
                Some(i) => {
                    let before = old(self).projects@[i];
                    let after = final(self).projects@[i];
                    &&& r matches Some(p) && *p == after
                    &&& final(self).projects@.len() == old(self).projects@.len()
                    &&& (forall|j: int|
                        0 <= j < old(self).projects@.len() && j != i
                            ==> final(self).projects@[j] == old(self).projects@[j])
                    &&& after.id == before.id
                    &&& after.title == (match title {
                        Some(t) => t,
                        None => before.title,
                    })
                    &&& after.url == (match url {
                        Some(u) => Some(u),
                        None => before.url,
                    })
                    &&& after.public == (match public {
                        Some(b) => b,
                        None => before.public,
                    })
                    &&& after.branch == before.branch
                    &&& after.version == before.version
                    &&& after.project_type == before.project_type
                    &&& after.scanned == before.scanned
                    &&& after.last_analyzed == before.last_analyzed
                    &&& after.issues == before.issues
                    &&& after.labels == before.labels
                    &&& after.teams == before.teams
                    &&& after.latest_revision == before.latest_revision
                    &&& after.latest_build_status == before.latest_build_status
                },
            },
    {
        let ghost orig = self.projects@;
        let ghost pred = project_has_key(locator@);
        proof {
            lemma_find_by(orig, pred);
        }
        let n = self.projects.len();
        let mut i: usize = 0;
        while i < n
            invariant
                i <= n,
                n == orig.len(),
                *self == *old(self),
                orig == old(self).projects@,
                pred == project_has_key(locator@),
                forall|j: int| 0 <= j < i ==> !pred(#[trigger] orig[j]),
            decreases n - i,
        {
            if str_eq(self.projects[i].id.as_str(), locator) {
                proof {
                    assert(pred(orig[i as int]));
                    lemma_find_by(orig, pred);
                    assert(find_by(orig, pred) == Some(i as int));
                }
                let mut p = self.projects.remove(i);
                if let Some(t) = title {
                    p.title = t;
                }
                if let Some(u) = url {
                    p.url = Some(u);
                }
                if let Some(b) = public {
                    p.public = b;
                }
                let ghost pnew = p;
                self.projects.insert(i, p);
                proof {
                    assert(self.projects@ =~= orig.update(i as int, pnew));
                    if old(self).wf() {
                        assert forall|a: int, b: int|
                            0 <= a < b < self.projects@.len() implies (
                        #[trigger] self.projects@[a]).id@ != (#[trigger] self.projects@[b]).id@ by {
                            assert(self.projects@[a].id@ == orig[a].id@);
                            assert(self.projects@[b].id@ == orig[b].id@);
                        }
                    }
                }
                return Some(&self.projects[i]);
            }
            i = i + 1;
        }
        proof {
            lemma_find_by(orig, pred);
            assert(find_by(orig, pred) is None);
        }
        None
    }
}

impl Default for MockState {
    /// An empty state.
    fn default() -> (r: Self)
        ensures
            r.projects@.len() == 0,
            r.revisions@.len() == 0,
            r.dependencies@.len() == 0,
            r.issues@.len() == 0,
            r.required_token is None,
            r.wf(),
    {
        MockState::new()
    }
}

} // verus!
