//! The ZCode companion: where its usage database is looked for, how the day's
//! token usage is summarised, and how the Node.js check is read.
use vstd::prelude::*;

use crate::pet::opt_view;
use crate::text::{owned, trim, trim_seq};

verus! {

// ---------------------------------------------------------------------------
// Usage statistics
// ---------------------------------------------------------------------------

/// Token usage of one model today.
#[derive(Clone, Debug)]
pub struct ModelTokenRow {
    /// Model id, such as `glm-5.2`.
    pub model_id: String,
    /// API calls today.
    pub calls: u64,
    /// Tokens used today.
    pub total_tokens: u64,
}

/// Today's token usage of ZCode.
#[derive(Clone, Debug)]
pub struct TokenStats {
    /// The database that was read.
    pub db_path: String,
    pub today_input_tokens: u64,
    pub today_output_tokens: u64,
    pub today_total_tokens: u64,
    pub today_calls: u64,
    /// Per-model usage, most tokens first.
    pub active_models: Vec<ModelTokenRow>,
}

/// One per-model row as the database returns it: the model id (possibly
/// NULL), the number of calls and the sum of tokens (possibly NULL).
#[derive(Clone, Debug)]
pub struct RawModelRow {
    pub model_id: Option<String>,
    pub calls: i64,
    pub total_tokens: Option<i64>,
}

/// A database count as an unsigned number: negative counts become 0.
pub open spec fn count_of(x: i64) -> u64 {
    if x < 0 {
        0
    } else {
        x as u64
    }
}

/// `ModelTokenRow` `r` is the database row `raw`: a NULL model id becomes
/// empty, NULL tokens become 0, and the numbers are converted with `as u64`.
pub open spec fn is_row_of(r: ModelTokenRow, raw: RawModelRow) -> bool {
    &&& r.model_id@ == match raw.model_id {
        Some(m) => m@,
        None => Seq::empty(),
    }
    &&& r.calls == raw.calls as u64
    &&& r.total_tokens == match raw.total_tokens {
        Some(t) => t as u64,
        None => 0u64,
    }
}

/// The rows that were read without error, in order.
pub open spec fn read_rows(raw: Seq<Option<RawModelRow>>) -> Seq<RawModelRow>
    decreases raw.len(),
{
    if raw.len() == 0 {
        Seq::empty()
    } else {
        let rest = read_rows(raw.drop_last());
        match raw.last() {
            Some(row) => rest.push(row),
            None => rest,
        }
    }
}

/// The rows that were read without error, in order: the `Some` entries of
/// `raw` with their contents.
pub open spec fn readable_rows(raw: Seq<Option<RawModelRow>>) -> Seq<RawModelRow> {
    raw.filter(|o: Option<RawModelRow>| o is Some).map_values(|o: Option<RawModelRow>| o->0)
}

/// Every row that was read is kept, in order, and nothing else: no rows
/// from no rows, a readable row added at the end adds that row at the end,
/// an unreadable one adds nothing; so there is one row per `Some` of `raw`
/// and each of them is among the rows.
pub proof fn law_read_rows_keeps_every_readable_row(
    raw: Seq<Option<RawModelRow>>,
    row: RawModelRow,
)
    ensures
        read_rows(Seq::<Option<RawModelRow>>::empty()) == Seq::<RawModelRow>::empty(),
        read_rows(raw.push(Some(row))) == read_rows(raw).push(row),
        read_rows(raw.push(None)) == read_rows(raw),
        read_rows(raw) == readable_rows(raw),
        forall|k: int|
            0 <= k < raw.len() && raw[k] is Some ==> #[trigger] read_rows(raw).contains(
                raw[k]->0,
            ),
{
    assert(raw.push(Some(row)).drop_last() == raw);
    assert(raw.push(None::<RawModelRow>).drop_last() == raw);
    lemma_read_rows_is_readable(raw);
    let p = |o: Option<RawModelRow>| o is Some;
    assert forall|k: int| 0 <= k < raw.len() && raw[k] is Some implies #[trigger] read_rows(
        raw,
    ).contains(raw[k]->0) by {
        raw.lemma_filter_contains(p, k);
        let f = raw.filter(p);
        let i = choose|i: int| 0 <= i < f.len() && f[i] == raw[k];
        assert(readable_rows(raw)[i] == raw[k]->0);
    }
}

proof fn lemma_read_rows_is_readable(raw: Seq<Option<RawModelRow>>)
    ensures
        read_rows(raw) == readable_rows(raw),
    decreases raw.len(),
{
    reveal(Seq::filter);
    if raw.len() > 0 {
        lemma_read_rows_is_readable(raw.drop_last());
        let p = |o: Option<RawModelRow>| o is Some;
        let f = |o: Option<RawModelRow>| o->0;
        let prev = raw.drop_last().filter(p);
        if raw.last() is Some {
            assert(raw.filter(p) == prev.push(raw.last()));
            assert(prev.push(raw.last()).map_values(f) =~= prev.map_values(f).push(raw.last()->0));
        } else {
            assert(raw.filter(p) == prev);
        }
    }
}

/// Each of `r` is the row of `raw` at the same position.
pub open spec fn rows_match(r: Seq<ModelTokenRow>, raw: Seq<RawModelRow>) -> bool {
    &&& r.len() == raw.len()
    &&& forall|k: int| 0 <= k < r.len() ==> #[trigger] is_row_of(r[k], raw[k])
}

/// The per-model usage from the rows of the per-model query; rows that
/// could not be read (`None`) are left out.
pub fn model_rows(raw: Vec<Option<RawModelRow>>) -> (r: Vec<ModelTokenRow>)
    ensures
        rows_match(r@, read_rows(raw@)),
        rows_match(r@, readable_rows(raw@)),
{
    let mut r: Vec<ModelTokenRow> = Vec::new();
    let n = raw.len();
    for j in 0..n
        invariant
            n == raw@.len(),
            rows_match(r@, read_rows(raw@.take(j as int))),
    {
        let ghost prev = read_rows(raw@.take(j as int));
        let ghost old_r = r@;
        assert(raw@.take(j + 1).drop_last() == raw@.take(j as int));
        assert(raw@.take(j + 1).last() == raw@[j as int]);
        if let Some(row) = &raw[j] {
            let model_id = match &row.model_id {
                Some(m) => m.clone(),
                None => String::new(),
            };
            let total_tokens: u64 = match row.total_tokens {
                Some(t) => t as u64,
                None => 0,
            };
            r.push(ModelTokenRow { model_id, calls: row.calls as u64, total_tokens });
            assert(read_rows(raw@.take(j + 1)) == prev.push(*row));
            assert(is_row_of(r@[old_r.len() as int], *row));
            assert forall|k: int| 0 <= k < r@.len() implies #[trigger] is_row_of(
                r@[k],
                prev.push(*row)[k],
            ) by {
                if k < old_r.len() {
                    assert(r@[k] == old_r[k]);
                    assert(prev.push(*row)[k] == prev[k]);
                }
            }
        } else {
            assert(read_rows(raw@.take(j + 1)) == prev);
        }
    }
    assert(raw@.take(n as int) == raw@);
    proof {
        lemma_read_rows_is_readable(raw@);
    }
    r
}

/// A database count as an unsigned number: negative counts become 0.
pub fn count_from(x: i64) -> (r: u64)
    ensures
        r == count_of(x),
{
    if x < 0 {
        0
    } else {
        x as u64
    }
}

/// Today's usage from the database at `db_path`: the four sums of the daily
/// query (input, output and total tokens, calls), each at least 0, and the
/// per-model rows.
pub fn today_stats(
    db_path: String,
    input: i64,
    output: i64,
    total: i64,
    calls: i64,
    raw_rows: Vec<Option<RawModelRow>>,
) -> (r: TokenStats)
    ensures
        r.db_path@ == db_path@,
        r.today_input_tokens == count_of(input),
        r.today_output_tokens == count_of(output),
        r.today_total_tokens == count_of(total),
        r.today_calls == count_of(calls),
        rows_match(r.active_models@, read_rows(raw_rows@)),
{
    TokenStats {
        db_path,
        today_input_tokens: count_from(input),
        today_output_tokens: count_from(output),
        today_total_tokens: count_from(total),
        today_calls: count_from(calls),
        active_models: model_rows(raw_rows),
    }
}

// ---------------------------------------------------------------------------
// Where the database is
// ---------------------------------------------------------------------------

/// The path of the database under a ZCode data directory: `cli/db/db.sqlite`.
pub const DB_FILE_COMPONENTS: [&'static str; 3] = ["cli", "db", "db.sqlite"];

/// The override of the data directory read from its file: kept only when
/// not empty.
pub fn override_dir_from(field: Option<String>) -> (r: Option<String>)
    ensures
        opt_view(r) == match opt_view(field) {
            Some(d) => if d.len() > 0 {
                Some(d)
            } else {
                None
            },
            None => None,
        },
{
    match field {
        Some(d) => if d.as_str().is_empty() {
            None
        } else {
            Some(d)
        },
        None => None,
    }
}

/// The data directory the user asked for: trimmed, and `None` when blank
/// (which clears the override).
pub fn normalize_data_dir(dir: &Option<String>) -> (r: Option<String>)
    ensures
        opt_view(r) == match opt_view(*dir) {
            Some(d) => if trim_seq(d).len() > 0 {
                Some(trim_seq(d))
            } else {
                None
            },
            None => None,
        },
{
    match dir {
        Some(d) => {
            let t = trim(d.as_str());
            if t.is_empty() {
                None
            } else {
                Some(owned(t))
            }
        },
        None => None,
    }
}

/// A ZCode data directory in which the database is looked for.
#[derive(Clone, Debug, PartialEq, Eq)]
pub enum DataDir {
    /// The directory at this path.
    At(String),
    /// The directory of this name in the user's home directory.
    InHome(String),
}

/// A data directory as (whether it is in the home directory, its text).
pub open spec fn data_dir_view(d: DataDir) -> (bool, Seq<char>) {
    match d {
        DataDir::At(p) => (false, p@),
        DataDir::InHome(n) => (true, n@),
    }
}

/// Where the database may be, in the order it is looked for: the user's
/// override; the directory named by `ZCODE_STORAGE_DIR` (trimmed, when not
/// blank); then, when the home directory is known, `~/.zcode-beta` and
/// `~/.zcode`.
pub open spec fn data_dir_order(
    override_dir: Option<Seq<char>>,
    storage_env: Option<Seq<char>>,
    home_known: bool,
) -> Seq<(bool, Seq<char>)> {
    let head: Seq<(bool, Seq<char>)> = match override_dir {
        Some(d) => seq![(false, d)],
        None => Seq::empty(),
    };
    let env: Seq<(bool, Seq<char>)> = match storage_env {
        Some(e) => if trim_seq(e).len() > 0 {
            seq![(false, trim_seq(e))]
        } else {
            Seq::empty()
        },
        None => Seq::empty(),
    };
    let home: Seq<(bool, Seq<char>)> = if home_known {
        seq![(true, ".zcode-beta"@), (true, ".zcode"@)]
    } else {
        Seq::empty()
    };
    head + env + home
}

/// The data directories in which the database is looked for, in order; the
/// database of each is under `DB_FILE_COMPONENTS`.
pub fn data_dir_candidates(
    override_dir: &Option<String>,
    storage_env: &Option<String>,
    home_known: bool,
) -> (r: Vec<DataDir>)
    ensures
        r@.map_values(|d: DataDir| data_dir_view(d)) == data_dir_order(
            opt_view(*override_dir),
            opt_view(*storage_env),
            home_known,
        ),
{
    let mut r: Vec<DataDir> = Vec::new();
    if let Some(d) = override_dir {
        r.push(DataDir::At(d.clone()));
    }
    if let Some(e) = storage_env {
        let t = trim(e.as_str());
        if !t.is_empty() {
            r.push(DataDir::At(owned(t)));
        }
    }
    if home_known {
        r.push(DataDir::InHome(owned(".zcode-beta")));
        r.push(DataDir::InHome(owned(".zcode")));
    }
    proof {
        reveal_strlit(".zcode-beta");
        reveal_strlit(".zcode");
    }
    assert(r@.map_values(|d: DataDir| data_dir_view(d)) =~= data_dir_order(
        opt_view(*override_dir),
        opt_view(*storage_env),
        home_known,
    ));
    r
}

/// The user's override is always looked at first, the directory named by
/// `ZCODE_STORAGE_DIR` is looked at whether or not the home directory is
/// known, and `~/.zcode` comes last when the home directory is known.
pub proof fn law_override_comes_first(
    override_dir: Option<Seq<char>>,
    storage_env: Option<Seq<char>>,
    home_known: bool,
)
    ensures
        override_dir is Some ==> data_dir_order(override_dir, storage_env, home_known).len() > 0
            && data_dir_order(override_dir, storage_env, home_known)[0] == (
            false,
            override_dir->0,
        ),
        storage_env is Some && trim_seq(storage_env->0).len() > 0 ==> data_dir_order(
            override_dir,
            storage_env,
            home_known,
        ).contains((false, trim_seq(storage_env->0))),
        home_known ==> data_dir_order(override_dir, storage_env, home_known).last() == (
            true,
            ".zcode"@,
        ),
        !home_known ==> data_dir_order(override_dir, storage_env, home_known).len() <= 2,
{
    let r = data_dir_order(override_dir, storage_env, home_known);
    if storage_env is Some && trim_seq(storage_env->0).len() > 0 {
        let k: int = if override_dir is Some {
            1
        } else {
            0
        };
        assert(r[k] == (false, trim_seq(storage_env->0)));
    }
}

/// The position of the first `true` among `exists`.
pub open spec fn first_existing(exists: Seq<bool>) -> Option<int>
    decreases exists.len(),
{
    if exists.len() == 0 {
        None
    } else if exists[0] {
        Some(0)
    } else {
        match first_existing(exists.drop_first()) {
            Some(k) => Some(k + 1),
            None => None,
        }
    }
}

/// `first_existing` picks the first candidate whose database exists: it is
/// `Some(k)` exactly when `exists[k]` holds and no earlier entry does, and
/// `None` exactly when no entry holds.
pub proof fn law_first_existing_is_first_true(exists: Seq<bool>)
    ensures
        first_existing(exists) is Some ==> 0 <= first_existing(exists)->0 < exists.len()
            && exists[first_existing(exists)->0] && forall|j: int|
            0 <= j < first_existing(exists)->0 ==> !#[trigger] exists[j],
        first_existing(exists) is None <==> forall|j: int|
            0 <= j < exists.len() ==> !#[trigger] exists[j],
    decreases exists.len(),
{
    if exists.len() > 0 && !exists[0] {
        let rest = exists.drop_first();
        law_first_existing_is_first_true(rest);
        assert forall|j: int| 1 <= j < exists.len() implies exists[j] == rest[j - 1] by {}
        if first_existing(rest) is None {
            assert forall|j: int| 0 <= j < exists.len() implies !#[trigger] exists[j] by {
                if j > 0 {
                    assert(!rest[j - 1]);
                }
            }
        } else {
            let k = first_existing(rest)->0;
            assert forall|j: int| 0 <= j < k + 1 implies !#[trigger] exists[j] by {
                if j > 0 {
                    assert(!rest[j - 1]);
                }
            }
        }
    }
}

/// The candidate to read: the first whose database exists (`exists[k]`
/// tells whether the database of candidate `k` exists); `None` when none does.
pub fn first_existing_index(exists: &Vec<bool>) -> (r: Option<usize>)
    ensures
        first_existing(exists@) is None ==> r is None,
        first_existing(exists@) is Some ==> r is Some && r->0 == first_existing(exists@)->0,
        r is Some ==> r->0 < exists@.len() && exists@[r->0 as int] && forall|j: int|
            0 <= j < r->0 ==> !#[trigger] exists@[j],
        r is None ==> forall|j: int| 0 <= j < exists@.len() ==> !#[trigger] exists@[j],
{
    let n = exists.len();
    let mut k: usize = 0;
    assert(exists@.skip(0) == exists@);
    while k < n
        invariant
            n == exists@.len(),
            k <= n,
            forall|j: int| 0 <= j < k ==> !#[trigger] exists@[j],
            first_existing(exists@) == match first_existing(exists@.skip(k as int)) {
                Some(j) => Some(j + k),
                None => None,
            },
        decreases n - k,
    {
        assert(exists@.skip(k as int)[0] == exists@[k as int]);
        if exists[k] {
            assert(exists@.skip(k as int).len() > 0);
            return Some(k);
        }
        assert(exists@.skip(k as int).drop_first() == exists@.skip(k + 1));
        k = k + 1;
    }
    None
}

// ---------------------------------------------------------------------------
// Node.js
// ---------------------------------------------------------------------------

/// The Node.js version reported by `node --version`, from whether the command
/// succeeded and what it printed.
pub fn node_version_from(success: bool, stdout: &str) -> (r: Result<String, String>)
    ensures
        !success ==> r is Err && r->Err_0@ == "Node.js 不可用（node --version 执行失败）"@,
        success && trim_seq(stdout@).len() == 0 ==> r is Err && r->Err_0@ == "无法读取 Node.js 版本"@,
        success && trim_seq(stdout@).len() > 0 ==> r is Ok && r->Ok_0@ == trim_seq(stdout@),
{
    if !success {
        proof {
            reveal_strlit("Node.js 不可用（node --version 执行失败）");
        }
        return Err(owned("Node.js 不可用（node --version 执行失败）"));
    }
    let version = trim(stdout);
    if version.is_empty() {
        proof {
            reveal_strlit("无法读取 Node.js 版本");
        }
        return Err(owned("无法读取 Node.js 版本"));
    }
    Ok(owned(version))
}

} // verus!
