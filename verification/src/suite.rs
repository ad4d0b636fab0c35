//! The suite registry: interpreter variants, their invocation templates and
//! the paths that each of them leaves out.

use vstd::prelude::*;
use vstd::string::*;

verus! {

/// What a suite does with a test file.
#[derive(Debug, Clone, Copy, PartialEq, Eq)]
pub enum Disposition {
    Run,
    Skip,
}

/// An interpreter variant: its language tag, how it is invoked, and a table
/// from a test path, or a directory above it, to a state such as `skip`.
/// Where the table holds a path more than once, its first entry counts.
#[derive(Clone, Debug)]
pub struct Suite {
    pub name: String,
    pub language: String,
    pub executable: String,
    pub args: Vec<String>,
    pub tests: Vec<(String, String)>,
}

/// The character contents of a path table.
pub open spec fn table_view(table: Seq<(String, String)>) -> Seq<(Seq<char>, Seq<char>)> {
    table.map_values(|e: (String, String)| (e.0@, e.1@))
}

/// The paths that a table has entries for, in order.
pub open spec fn keys(table: Seq<(Seq<char>, Seq<char>)>) -> Seq<Seq<char>> {
    table.map_values(|e: (Seq<char>, Seq<char>)| e.0)
}

/// The state that the first entry for `key` gives, if there is one.
pub open spec fn lookup(table: Seq<(Seq<char>, Seq<char>)>, key: Seq<char>) -> Option<Seq<char>>
    decreases table.len(),
{
    if table.len() == 0 {
        None
    } else if table[0].0 == key {
        Some(table[0].1)
    } else {
        lookup(table.skip(1), key)
    }
}

/// In a table without a path twice, the entry for a path is the state that
/// is looked up for it, wherever in the table it stands.
pub proof fn lemma_lookup_finds_entry(table: Seq<(Seq<char>, Seq<char>)>, i: int)
    requires
        keys(table).no_duplicates(),
        0 <= i < table.len(),
    ensures
        lookup(table, table[i].0) == Some(table[i].1),
    decreases table.len(),
{
    assert(keys(table)[i] == table[i].0);
    assert(keys(table)[0] == table[0].0);
    if table[0].0 != table[i].0 {
        let rest = table.skip(1);
        assert forall|a: int, b: int|
            0 <= a < keys(rest).len() && 0 <= b < keys(rest).len() && a != b implies keys(rest)[a]
            != keys(rest)[b] by {
            assert(keys(rest)[a] == keys(table)[a + 1]);
            assert(keys(rest)[b] == keys(table)[b + 1]);
        }
        assert(rest[i - 1] == table[i]);
        lemma_lookup_finds_entry(rest, i - 1);
    }
}

/// A path without an entry has no state.
pub proof fn lemma_lookup_without_entry(table: Seq<(Seq<char>, Seq<char>)>, key: Seq<char>)
    requires
        forall|i: int| 0 <= i < table.len() ==> (#[trigger] table[i]).0 != key,
    ensures
        lookup(table, key) is None,
    decreases table.len(),
{
    if table.len() > 0 {
        assert(table[0].0 != key);
        assert forall|i: int| 0 <= i < table.skip(1).len() implies (#[trigger] table.skip(1)[i]).0
            != key by {
            assert(table.skip(1)[i] == table[i + 1]);
        }
        lemma_lookup_without_entry(table.skip(1), key);
    }
}

/// Whether the first `k` characters of `path` are a whole number of its
/// components: the path ends there, or a separator follows.
pub open spec fn component_end(path: Seq<char>, k: int) -> bool {
    0 <= k <= path.len() && (k == path.len() || path[k] == '/')
}

/// The number of separators that `path` begins with.
pub open spec fn leading_separators(path: Seq<char>) -> int
    decreases path.len(),
{
    if path.len() > 0 && path[0] == '/' {
        1 + leading_separators(path.skip(1))
    } else {
        0
    }
}

/// The components within the first `k` characters of `path`, joined by
/// separators: those characters without the separators that the path begins
/// with.
pub open spec fn joined_prefix(path: Seq<char>, k: int) -> Seq<char> {
    let lead = leading_separators(path);
    path.subrange(
        if lead < k {
            lead
        } else {
            k
        },
        k,
    )
}

proof fn lemma_leading_separators(path: Seq<char>, m: int)
    requires
        0 <= m <= path.len(),
        forall|j: int| 0 <= j < m ==> path[j] == '/',
        m == path.len() || path[m] != '/',
    ensures
        leading_separators(path) == m,
    decreases m,
{
    if m > 0 {
        assert(path[0] == '/');
        assert forall|j: int| 0 <= j < m - 1 implies path.skip(1)[j] == '/' by {
            assert(path.skip(1)[j] == path[j + 1]);
        }
        lemma_leading_separators(path.skip(1), m - 1);
    }
}

/// The state of the longest run of whole components at the beginning of
/// `path`, within its first `k` characters, that the table has an entry for.
pub open spec fn state_within(
    table: Seq<(Seq<char>, Seq<char>)>,
    path: Seq<char>,
    k: int,
) -> Option<Seq<char>>
    decreases k + 1,
{
    if k < 0 || k > path.len() {
        None
    } else if component_end(path, k) && lookup(table, joined_prefix(path, k)) is Some {
        lookup(table, joined_prefix(path, k))
    } else {
        state_within(table, path, k - 1)
    }
}

/// The most specific entry decides: where the table has an entry for the
/// components within the first `k` characters and for none that reach
/// further, up to `n` characters, the state within `n` is that entry's.
pub proof fn lemma_most_specific_entry(
    table: Seq<(Seq<char>, Seq<char>)>,
    path: Seq<char>,
    k: int,
    n: int,
)
    requires
        0 <= k <= n <= path.len(),
        component_end(path, k),
        lookup(table, joined_prefix(path, k)) is Some,
        forall|m: int|
            k < m <= n && #[trigger] component_end(path, m) ==> lookup(
                table,
                joined_prefix(path, m),
            ) is None,
    ensures
        state_within(table, path, n) == lookup(table, joined_prefix(path, k)),
    decreases n - k,
{
    if k < n {
        lemma_most_specific_entry(table, path, k, n - 1);
    }
}

/// Where the table has no entry for the path nor for a directory above it,
/// there is no state, and the file is run.
pub proof fn lemma_no_entry_runs(table: Seq<(Seq<char>, Seq<char>)>, path: Seq<char>, n: int)
    requires
        n <= path.len(),
        forall|m: int|
            0 <= m <= n && #[trigger] component_end(path, m) ==> lookup(
                table,
                joined_prefix(path, m),
            ) is None,
    ensures
        state_within(table, path, n) is None,
        n == path.len() ==> disposition_of(table, path) == Disposition::Run,
    decreases n + 1,
{
    if n >= 0 {
        lemma_no_entry_runs(table, path, n - 1);
    }
}

/// The disposition of `path`: skip where the most specific entry says
/// `skip`, run otherwise, and where there is no entry.
pub open spec fn disposition_of(table: Seq<(Seq<char>, Seq<char>)>, path: Seq<char>) -> Disposition {
    if state_within(table, path, path.len() as int) == Some("skip"@) {
        Disposition::Skip
    } else {
        Disposition::Run
    }
}

/// Finds the state that the table gives for exactly `key`.
pub fn find_state(table: &Vec<(String, String)>, key: &str) -> (r: Option<String>)
    ensures
        match r {
            Some(s) => lookup(table_view(table@), key@) == Some(s@),
            None => lookup(table_view(table@), key@) is None,
        },
{
    let wanted = String::from_str(key);
    let mut i: usize = 0;
    assert(table_view(table@).skip(0) =~= table_view(table@));
    while i < table.len()
        invariant
            i <= table.len(),
            wanted@ == key@,
            lookup(table_view(table@), key@) == lookup(table_view(table@).skip(i as int), key@),
        decreases table.len() - i,
    {
        let ghost rest = table_view(table@).skip(i as int);
        assert(rest[0] == (table@[i as int].0@, table@[i as int].1@));
        assert(rest.skip(1) =~= table_view(table@).skip(i + 1));
        if table[i].0 == wanted {
            return Some(table[i].1.clone());
        }
        i += 1;
    }
    None
}

impl Suite {
    /// The path table, by characters.
    pub open spec fn table(&self) -> Seq<(Seq<char>, Seq<char>)> {
        table_view(self.tests@)
    }

    /// No path has two entries in the table.
    pub open spec fn well_formed(&self) -> bool {
        keys(self.table()).no_duplicates()
    }

    /// Resolves what this suite does with the test file at `path`, whose
    /// components are separated by `/`: what the table says of the file or,
    /// failing that, of the nearest directory above it; to run it, where the
    /// table says nothing. Separators at the beginning of the path are
    /// passed over.
    pub fn disposition(&self, path: &str) -> (r: Disposition)
        ensures
            r == disposition_of(self.table(), path@),
    {
        let n = path.unicode_len();
        let mut lead: usize = 0;
        let mut counting = true;
        while counting && lead < n
            invariant
                n == path@.len(),
                lead <= n,
                forall|j: int| 0 <= j < lead ==> path@[j] == '/',
                !counting ==> lead < n && path@[lead as int] != '/',
            decreases n - lead + (if counting { 1int } else { 0int }),
        {
            if path.get_char(lead) == '/' {
                lead += 1;
            } else {
                counting = false;
            }
        }
        proof {
            lemma_leading_separators(path@, lead as int);
        }
        let mut k: usize = n;
        let mut found: Option<String> = None;
        let mut done = false;
        while !done
            invariant
                n == path@.len(),
                k <= n,
                lead == leading_separators(path@),
                !done ==> found is None && state_within(self.table(), path@, n as int)
                    == state_within(self.table(), path@, k as int),
                done ==> match found {
                    Some(s) => state_within(self.table(), path@, n as int) == Some(s@),
                    None => state_within(self.table(), path@, n as int) is None,
                },
            decreases k + (if done { 0int } else { 1int }),
        {
            let at_end = if k == n {
                true
            } else {
                path.get_char(k) == '/'
            };
            let mut hit: Option<String> = None;
            if at_end {
                let from = if lead < k {
                    lead
                } else {
                    k
                };
                hit = find_state(&self.tests, path.substring_char(from, k));
            }
            if hit.is_some() {
                found = hit;
                done = true;
            } else if k == 0 {
                assert(state_within(self.table(), path@, -1) is None);
                done = true;
            } else {
                k -= 1;
            }
        }
        match found {
            Some(s) => {
                let skip = String::from_str("skip");
                if s == skip {
                    Disposition::Skip
                } else {
                    Disposition::Run
                }
            },
            None => Disposition::Run,
        }
    }
}

fn entry(path: &str, state: &str) -> (r: (String, String))
    ensures
        r.0@ == path@,
        r.1@ == state@,
{
    (String::from_str(path), String::from_str(state))
}

/// The table of the tree-walking interpreter.
pub open spec fn jlox_table() -> Seq<(Seq<char>, Seq<char>)> {
    seq![
        ("test/scanning"@, "skip"@),
        ("test/expressions"@, "skip"@),
        ("test/number/nan_equality.lox"@, "skip"@),
        ("test/limit/loop_too_large.lox"@, "skip"@),
        ("test/limit/no_reuse_constants.lox"@, "skip"@),
        ("test/limit/too_many_constants.lox"@, "skip"@),
        ("test/limit/too_many_locals.lox"@, "skip"@),
        ("test/limit/too_many_upvalues.lox"@, "skip"@),
        ("test/limit/stack_overflow.lox"@, "skip"@),
    ]
}

/// The table of the bytecode interpreter.
pub open spec fn clox_table() -> Seq<(Seq<char>, Seq<char>)> {
    seq![
        ("test/scanning"@, "skip"@),
        ("test/expressions"@, "skip"@),
        ("test/limit/no_reuse_constants.lox"@, "skip"@),
        ("test/limit/too_many_constants.lox"@, "skip"@),
    ]
}

/// The paths that the tree-walking interpreter leaves out.
pub fn get_jlox_tests() -> (r: Vec<(String, String)>)
    ensures
        table_view(r@) == jlox_table(),
{
    let mut tests: Vec<(String, String)> = Vec::new();
    // Early chapters: scanning and expressions only.
    tests.push(entry("test/scanning", "skip"));
    tests.push(entry("test/expressions", "skip"));
    // Equality on boxed doubles does not follow IEEE there.
    tests.push(entry("test/number/nan_equality.lox", "skip"));
    // This interpreter has no hardcoded limits.
    tests.push(entry("test/limit/loop_too_large.lox", "skip"));
    tests.push(entry("test/limit/no_reuse_constants.lox", "skip"));
    tests.push(entry("test/limit/too_many_constants.lox", "skip"));
    tests.push(entry("test/limit/too_many_locals.lox", "skip"));
    tests.push(entry("test/limit/too_many_upvalues.lox", "skip"));
    tests.push(entry("test/limit/stack_overflow.lox", "skip"));
    assert(table_view(tests@) =~= jlox_table());
    tests
}

/// The paths that the bytecode interpreter leaves out.
pub fn get_clox_tests() -> (r: Vec<(String, String)>)
    ensures
        table_view(r@) == clox_table(),
{
    let mut tests: Vec<(String, String)> = Vec::new();
    // Early chapters.
    tests.push(entry("test/scanning", "skip"));
    tests.push(entry("test/expressions", "skip"));
    // The constant table there holds far more than these tests reach.
    tests.push(entry("test/limit/no_reuse_constants.lox", "skip"));
    tests.push(entry("test/limit/too_many_constants.lox", "skip"));
    assert(table_view(tests@) =~= clox_table());
    tests
}

/// No path stands twice in either of the two tables.
pub proof fn lemma_tables_well_formed()
    ensures
        keys(jlox_table()).no_duplicates(),
        keys(clox_table()).no_duplicates(),
{
    reveal_strlit("test/scanning");
    reveal_strlit("test/expressions");
    reveal_strlit("test/number/nan_equality.lox");
    reveal_strlit("test/limit/loop_too_large.lox");
    reveal_strlit("test/limit/no_reuse_constants.lox");
    reveal_strlit("test/limit/too_many_constants.lox");
    reveal_strlit("test/limit/too_many_locals.lox");
    reveal_strlit("test/limit/too_many_upvalues.lox");
    reveal_strlit("test/limit/stack_overflow.lox");
    assert("test/scanning"@.len() == 13);
    assert("test/expressions"@.len() == 16);
    assert("test/number/nan_equality.lox"@.len() == 28);
    assert("test/limit/loop_too_large.lox"@.len() == 29);
    assert("test/limit/no_reuse_constants.lox"@.len() == 33);
    assert("test/limit/too_many_constants.lox"@.len() == 33);
    assert("test/limit/too_many_locals.lox"@.len() == 30);
    assert("test/limit/too_many_upvalues.lox"@.len() == 32);
    assert("test/limit/stack_overflow.lox"@.len() == 29);
    assert("test/limit/loop_too_large.lox"@[11] != "test/limit/stack_overflow.lox"@[11]);
    assert("test/limit/no_reuse_constants.lox"@[11] != "test/limit/too_many_constants.lox"@[11]);
    let j = keys(jlox_table());
    assert(j =~= seq![
        "test/scanning"@,
        "test/expressions"@,
        "test/number/nan_equality.lox"@,
        "test/limit/loop_too_large.lox"@,
        "test/limit/no_reuse_constants.lox"@,
        "test/limit/too_many_constants.lox"@,
        "test/limit/too_many_locals.lox"@,
        "test/limit/too_many_upvalues.lox"@,
        "test/limit/stack_overflow.lox"@,
    ]);
    let c = keys(clox_table());
    assert(c =~= seq![
        "test/scanning"@,
        "test/expressions"@,
        "test/limit/no_reuse_constants.lox"@,
        "test/limit/too_many_constants.lox"@,
    ]);
    assert forall|a: int, b: int| 0 <= a < j.len() && 0 <= b < j.len() && a != b implies j[a]
        != j[b] by {
        assert(j.len() == 9);
        assert(j[a].len() != j[b].len() || j[a][11] != j[b][11]);
    }
    assert forall|a: int, b: int| 0 <= a < c.len() && 0 <= b < c.len() && a != b implies c[a]
        != c[b] by {
        assert(c.len() == 4);
        assert(c[a].len() != c[b].len() || c[a][11] != c[b][11]);
    }
}

/// Whether a suite is that of the tree-walking interpreter.
pub open spec fn is_jlox(s: Suite) -> bool {
    &&& s.name@ == "jlox"@
    &&& s.language@ == "java"@
    &&& s.executable@ == "java"@
    &&& crate::text::texts(s.args@) == seq!["-cp"@, "build"@, "JLox.lox.Lox"@]
    &&& s.table() == jlox_table()
}

/// Whether a suite is that of the bytecode interpreter.
pub open spec fn is_clox(s: Suite) -> bool {
    &&& s.name@ == "clox"@
    &&& s.language@ == "c"@
    &&& s.executable@ == "build/clox.exe"@
    &&& s.args@.len() == 0
    &&& s.table() == clox_table()
}

/// The suite of the tree-walking interpreter.
pub fn jlox_suite() -> (r: Suite)
    ensures
        is_jlox(r),
        r.well_formed(),
{
    proof {
        lemma_tables_well_formed();
    }
    let mut args: Vec<String> = Vec::new();
    args.push(String::from_str("-cp"));
    args.push(String::from_str("build"));
    args.push(String::from_str("JLox.lox.Lox"));
    assert(crate::text::texts(args@) =~= seq!["-cp"@, "build"@, "JLox.lox.Lox"@]);
    Suite {
        name: String::from_str("jlox"),
        language: String::from_str("java"),
        executable: String::from_str("java"),
        args,
        tests: get_jlox_tests(),
    }
}

/// The suite of the bytecode interpreter.
pub fn clox_suite() -> (r: Suite)
    ensures
        is_clox(r),
        r.well_formed(),
{
    proof {
        lemma_tables_well_formed();
    }
    Suite {
        name: String::from_str("clox"),
        language: String::from_str("c"),
        executable: String::from_str("build/clox.exe"),
        args: Vec::new(),
        tests: get_clox_tests(),
    }
}

/// Finds the suite of the given name.
pub fn find_suite(name: &str) -> (r: Option<Suite>)
    ensures
        match r {
            Some(s) => if name@ == "jlox"@ {
                is_jlox(s)
            } else {
                name@ == "clox"@ && is_clox(s)
            },
            None => name@ != "jlox"@ && name@ != "clox"@,
        },
{
    let wanted = String::from_str(name);
    if wanted == String::from_str("jlox") {
        Some(jlox_suite())
    } else if wanted == String::from_str("clox") {
        Some(clox_suite())
    } else {
        None
    }
}

/// The names of all suites, in the order in which they are run together.
pub fn suite_names() -> (r: Vec<String>)
    ensures
        crate::text::texts(r@) == seq!["jlox"@, "clox"@],
{
    let mut names: Vec<String> = Vec::new();
    names.push(String::from_str("jlox"));
    names.push(String::from_str("clox"));
    assert(crate::text::texts(names@) =~= seq!["jlox"@, "clox"@]);
    names
}

} // verus!
