//! Where the server keeps its files: everything lives in one directory under
//! the home of the user that runs it.

use vstd::prelude::*;
use vstd::string::StringExecFns;

verus! {

/// The name of the server's directory under the home directory.
pub const ROOT_NAME: &'static str = "webgwas";

/// The name of the directory, under the root, that holds result artifacts.
pub const RESULTS_NAME: &'static str = "results";

/// The name of the relational store's file under the root.
pub const DATABASE_NAME: &'static str = "webgwas.db";

/// The name of the fit-quality reference file under the root.
pub const FIT_QUALITY_NAME: &'static str = "fit_quality.parquet";

/// The path of `name` inside the directory `base`: the two parts with one
/// `/` between them, unless `base` is empty or brings the `/` itself.
pub open spec fn joined(base: Seq<char>, name: Seq<char>) -> Seq<char> {
    if base.len() == 0 || base.last() == '/' {
        base + name
    } else {
        base + seq!['/'] + name
    }
}

/// The path of `name` inside the directory `base`.
pub fn join(base: &str, name: &str) -> (path: String)
    ensures
        path@ == joined(base@, name@),
{
    let n = base.unicode_len();
    let mut path = String::from_str(base);
    if n > 0 && base.get_char(n - 1) != '/' {
        proof {
            reveal_strlit("/");
        }
        path.append("/");
    }
    path.append(name);
    path
}

/// The paths that the server reads and writes.
#[derive(Clone, Debug, PartialEq, Eq)]
pub struct StorageLayout {
    /// The server's own directory.
    pub root: String,
    /// The directory of result artifacts. Nothing in it outlives the process
    /// that wrote it.
    pub results: String,
    /// The file of the relational store.
    pub database: String,
    /// The fit-quality reference file.
    pub fit_quality: String,
}

/// `path` is the directory `dir` itself or lies somewhere inside it.
pub open spec fn within(path: Seq<char>, dir: Seq<char>) -> bool {
    path == dir || (dir + seq!['/']).is_prefix_of(path)
}

impl StorageLayout {
    /// The layout names the server's files under the home directory `home`.
    pub open spec fn is_under(&self, home: Seq<char>) -> bool {
        &&& self.root@ == joined(home, ROOT_NAME@)
        &&& self.results@ == joined(self.root@, RESULTS_NAME@)
        &&& self.database@ == joined(self.root@, DATABASE_NAME@)
        &&& self.fit_quality@ == joined(self.root@, FIT_QUALITY_NAME@)
    }

    /// The layout for the user whose home directory is `home`.
    pub fn under_home(home: &str) -> (layout: Self)
        ensures
            layout.is_under(home@),
    {
        let root = join(home, ROOT_NAME);
        let results = join(root.as_str(), RESULTS_NAME);
        let database = join(root.as_str(), DATABASE_NAME);
        let fit_quality = join(root.as_str(), FIT_QUALITY_NAME);
        StorageLayout { root, results, database, fit_quality }
    }
}

/// Clearing the results directory, with all that it holds, leaves the root,
/// the relational store and the fit-quality file alone: none of them is the
/// results directory or lies inside it.
pub proof fn lemma_results_directory_is_apart(layout: StorageLayout, home: Seq<char>)
    requires
        layout.is_under(home),
    ensures
        !within(layout.root@, layout.results@),
        !within(layout.database@, layout.results@),
        !within(layout.fit_quality@, layout.results@),
        within(layout.results@, layout.root@),
{
    reveal_strlit("webgwas");
    reveal_strlit("results");
    reveal_strlit("webgwas.db");
    reveal_strlit("fit_quality.parquet");
    // Past the root and its separator, a path inside the results directory
    // goes on with the first letter of that directory's name.
    let inside = layout.results@ + seq!['/'];
    let at = layout.root@.len() as int + 1;
    assert(inside[at] == 'r');
    if inside.is_prefix_of(layout.database@) {
        assert(layout.database@[at] == inside[at]);
    }
    if inside.is_prefix_of(layout.fit_quality@) {
        assert(layout.fit_quality@[at] == inside[at]);
    }
}

} // verus!
