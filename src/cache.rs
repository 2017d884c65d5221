use vstd::prelude::*;
use vstd::string::*;
use crate::types::{DBItem, ItemReturnInfo, TaskType};

verus! {

/// Seconds a cached row lives after its last write.
pub const CACHE_TTL_SECONDS: i64 = 604800;

/// The expiry of a row written at `now`, saturating at the largest timestamp.
pub open spec fn expiry_after(now: i64) -> i64 {
    if now > i64::MAX - CACHE_TTL_SECONDS {
        i64::MAX
    } else {
        (now + CACHE_TTL_SECONDS) as i64
    }
}

pub fn expiry_from(now: i64) -> (r: i64)
    ensures
        r == expiry_after(now),
{
    if now > i64::MAX - CACHE_TTL_SECONDS {
        i64::MAX
    } else {
        now + CACHE_TTL_SECONDS
    }
}

pub open spec fn column_of(task: TaskType) -> Seq<char> {
    match task {
        TaskType::Transcribe => "transcribe"@,
        TaskType::Translate => "translate"@,
        TaskType::SummarizeDefault => "summarize_default"@,
        TaskType::SummarizeCaveman => "summarize_caveman"@,
    }
}

/// The attribute under which the store keeps the text of a task.
pub fn column_name(task: TaskType) -> (r: &'static str)
    ensures
        r@ == column_of(task),
{
    proof {
        reveal_strlit("transcribe");
        reveal_strlit("translate");
        reveal_strlit("summarize_default");
        reveal_strlit("summarize_caveman");
    }
    match task {
        TaskType::Transcribe => "transcribe",
        TaskType::Translate => "translate",
        TaskType::SummarizeDefault => "summarize_default",
        TaskType::SummarizeCaveman => "summarize_caveman",
    }
}

/// One row of the cache: all texts derived from one piece of media, under one expiry.
#[derive(Debug)]
pub struct CacheRow {
    pub content_id: String,
    pub transcript: Option<String>,
    pub translation: Option<String>,
    pub summary: Option<String>,
    pub caveman_summary: Option<String>,
    pub expires_at: i64,
}

/// What a row holds, as mathematics.
pub ghost struct RowModel {
    pub columns: Map<TaskType, Seq<char>>,
    pub expires_at: int,
}

pub open spec fn slot_of(row: CacheRow, task: TaskType) -> Option<String> {
    match task {
        TaskType::Transcribe => row.transcript,
        TaskType::Translate => row.translation,
        TaskType::SummarizeDefault => row.summary,
        TaskType::SummarizeCaveman => row.caveman_summary,
    }
}

pub open spec fn columns_of(row: CacheRow) -> Map<TaskType, Seq<char>> {
    Map::new(|t: TaskType| slot_of(row, t) is Some, |t: TaskType| slot_of(row, t)->Some_0@)
}

pub open spec fn model_of(row: CacheRow) -> RowModel {
    RowModel { columns: columns_of(row), expires_at: row.expires_at as int }
}

/// The lookup result owed for `task` when the content's row is `row`.
pub open spec fn lookup_spec(row: Option<RowModel>, task: TaskType) -> Option<Option<Seq<char>>> {
    match row {
        Option::None => Option::None,
        Option::Some(m) => Option::Some(
            if m.columns.contains_key(task) {
                Option::Some(m.columns[task])
            } else {
                Option::None
            },
        ),
    }
}

/// `r` reports what `lookup_spec` owes.
pub open spec fn reports(r: ItemReturnInfo, owed: Option<Option<Seq<char>>>) -> bool {
    match owed {
        Option::None => r is Absent,
        Option::Some(Option::None) => r is Exists,
        Option::Some(Option::Some(t)) => r matches ItemReturnInfo::Text(s) && s@ == t,
    }
}

impl CacheRow {
    /// A row holding one text.
    pub fn with_text(content_id: String, task: TaskType, text: String, expires_at: i64) -> (r: CacheRow)
        ensures
            r.content_id@ == content_id@,
            model_of(r) == (RowModel { columns: Map::empty().insert(task, text@), expires_at: expires_at as int }),
    {
        let mut r = CacheRow {
            content_id,
            transcript: None,
            translation: None,
            summary: None,
            caveman_summary: None,
            expires_at,
        };
        let ghost t0 = text@;
        r.set_slot(task, text);
        assert(columns_of(r) =~= Map::empty().insert(task, t0));
        r
    }

    fn set_slot(&mut self, task: TaskType, text: String)
        ensures
            final(self).content_id == old(self).content_id,
            final(self).expires_at == old(self).expires_at,
            slot_of(*final(self), task) == Some(text),
            forall|t: TaskType| t != task ==> slot_of(*final(self), t) == slot_of(*old(self), t),
    {
        match task {
            TaskType::Transcribe => self.transcript = Some(text),
            TaskType::Translate => self.translation = Some(text),
            TaskType::SummarizeDefault => self.summary = Some(text),
            TaskType::SummarizeCaveman => self.caveman_summary = Some(text),
        }
    }

    fn slot(&self, task: TaskType) -> (r: &Option<String>)
        ensures
            *r == slot_of(*self, task),
    {
        match task {
            TaskType::Transcribe => &self.transcript,
            TaskType::Translate => &self.translation,
            TaskType::SummarizeDefault => &self.summary,
            TaskType::SummarizeCaveman => &self.caveman_summary,
        }
    }
}

/// Classifies the row found for a content id, if any, for one task.
pub fn lookup_in_row(row: Option<&CacheRow>, task: TaskType) -> (r: ItemReturnInfo)
    ensures
        reports(r, lookup_spec(
            match row {
                Option::Some(x) => Option::Some(model_of(*x)),
                Option::None => Option::None,
            },
            task,
        )),
{
    match row {
        Option::None => ItemReturnInfo::Absent,
        Option::Some(x) => match x.slot(task) {
            Option::Some(t) => ItemReturnInfo::Text(t.clone()),
            Option::None => ItemReturnInfo::Exists,
        },
    }
}

/// Why a write to the cache was rejected.
#[derive(Clone, Copy, Debug, PartialEq, Eq, Structural)]
pub enum CacheError {
    /// `put_new` found a row for the content already.
    DuplicateKey,
    /// `update_existing` found no row for the content.
    NoSuchRow,
}

/// Which write fills a cache column.
#[derive(Clone, Copy, Debug, PartialEq, Eq, Structural)]
pub enum CacheWrite {
    /// A row exists: add the column to it.
    Update,
    /// No row exists: insert a new one.
    Insert,
}

/// The write that fills a column, given what a lookup found: any row at all,
/// with or without this column, is updated in place.
pub fn write_for(found: &ItemReturnInfo) -> (r: CacheWrite)
    ensures
        r == (if *found is Absent { CacheWrite::Insert } else { CacheWrite::Update }),
{
    match found {
        ItemReturnInfo::Absent => CacheWrite::Insert,
        _ => CacheWrite::Update,
    }
}

/// The rows, as a map from content id to what the row holds.
pub open spec fn table_map(rows: Seq<CacheRow>) -> Map<Seq<char>, RowModel>
    decreases rows.len(),
{
    if rows.len() == 0 {
        Map::empty()
    } else {
        table_map(rows.drop_last()).insert(rows.last().content_id@, model_of(rows.last()))
    }
}

pub open spec fn ids_unique(rows: Seq<CacheRow>) -> bool {
    forall|i: int, j: int|
        0 <= i < rows.len() && 0 <= j < rows.len() && rows[i].content_id@ == rows[j].content_id@
            ==> i == j
}

/// The cache after a new row for `id` holding `text` for `task` is inserted.
pub open spec fn put_new_spec(m: Map<Seq<char>, RowModel>, id: Seq<char>, task: TaskType, text: Seq<char>, expires_at: int) -> Map<Seq<char>, RowModel> {
    m.insert(id, RowModel { columns: Map::empty().insert(task, text), expires_at })
}

/// The cache after the existing row of `id` gains or replaces the column of
/// `task` and has its expiry refreshed from `now`.
pub open spec fn update_spec(m: Map<Seq<char>, RowModel>, id: Seq<char>, task: TaskType, text: Seq<char>, now: i64) -> Map<Seq<char>, RowModel> {
    m.insert(id, RowModel { columns: m[id].columns.insert(task, text), expires_at: expiry_after(now) as int })
}

/// The cache after `smart_put`: update when a row exists, insert otherwise.
pub open spec fn smart_put_spec(m: Map<Seq<char>, RowModel>, id: Seq<char>, task: TaskType, text: Seq<char>, now: i64) -> Map<Seq<char>, RowModel> {
    if m.contains_key(id) {
        update_spec(m, id, task, text, now)
    } else {
        put_new_spec(m, id, task, text, expiry_after(now) as int)
    }
}

proof fn lemma_table_map_has(rows: Seq<CacheRow>, i: int)
    requires
        ids_unique(rows),
        0 <= i < rows.len(),
    ensures
        table_map(rows).contains_key(rows[i].content_id@),
        table_map(rows)[rows[i].content_id@] == model_of(rows[i]),
    decreases rows.len(),
{
    let init = rows.drop_last();
    if i < rows.len() - 1 {
        assert(ids_unique(init));
        assert(init[i] == rows[i]);
        lemma_table_map_has(init, i);
        assert(rows.last().content_id@ != rows[i].content_id@);
    }
}

proof fn lemma_table_map_lacks(rows: Seq<CacheRow>, id: Seq<char>)
    requires
        forall|i: int| 0 <= i < rows.len() ==> (#[trigger] rows[i]).content_id@ != id,
    ensures
        !table_map(rows).contains_key(id),
    decreases rows.len(),
{
    if rows.len() > 0 {
        let init = rows.drop_last();
        assert forall|i: int| 0 <= i < init.len() implies (#[trigger] init[i]).content_id@ != id by {
            assert(init[i] == rows[i]);
        };
        lemma_table_map_lacks(init, id);
        assert(rows[rows.len() - 1].content_id@ != id);
    }
}

proof fn lemma_table_map_update(rows: Seq<CacheRow>, i: int, r: CacheRow)
    requires
        ids_unique(rows),
        0 <= i < rows.len(),
        r.content_id@ == rows[i].content_id@,
    ensures
        ids_unique(rows.update(i, r)),
        table_map(rows.update(i, r)) == table_map(rows).insert(r.content_id@, model_of(r)),
    decreases rows.len(),
{
    let rows2 = rows.update(i, r);
    let init = rows.drop_last();
    assert(rows2.drop_last() == if i < rows.len() - 1 { init.update(i, r) } else { init });
    if i < rows.len() - 1 {
        assert(ids_unique(init));
        assert(init[i] == rows[i]);
        lemma_table_map_update(init, i, r);
        assert(rows.last().content_id@ != r.content_id@);
        assert(table_map(rows2) =~= table_map(rows).insert(r.content_id@, model_of(r)));
    } else {
        assert(table_map(rows2) =~= table_map(rows).insert(r.content_id@, model_of(r)));
    }
}

/// Update versus insert: filling the translation of a content id that has no
/// row creates one row holding that one column; filling then the default
/// summary of the same content id adds the column to that row, under one
/// expiry refreshed by the second write, and adds no other row.
pub proof fn lemma_smart_put_appends(
    m: Map<Seq<char>, RowModel>,
    id: Seq<char>,
    x: Seq<char>,
    y: Seq<char>,
    now1: i64,
    now2: i64,
)
    requires
        !m.contains_key(id),
    ensures
        smart_put_spec(m, id, TaskType::Translate, x, now1).dom() == m.dom().insert(id),
        smart_put_spec(m, id, TaskType::Translate, x, now1)[id].columns
            == Map::<TaskType, Seq<char>>::empty().insert(TaskType::Translate, x),
        smart_put_spec(
            smart_put_spec(m, id, TaskType::Translate, x, now1),
            id,
            TaskType::SummarizeDefault,
            y,
            now2,
        ).dom() == m.dom().insert(id),
        smart_put_spec(
            smart_put_spec(m, id, TaskType::Translate, x, now1),
            id,
            TaskType::SummarizeDefault,
            y,
            now2,
        )[id] == (RowModel {
            columns: Map::<TaskType, Seq<char>>::empty().insert(TaskType::Translate, x).insert(
                TaskType::SummarizeDefault,
                y,
            ),
            expires_at: expiry_after(now2) as int,
        }),
{
    let m1 = smart_put_spec(m, id, TaskType::Translate, x, now1);
    let m2 = smart_put_spec(m1, id, TaskType::SummarizeDefault, y, now2);
    assert(m1.dom() =~= m.dom().insert(id));
    assert(m2.dom() =~= m.dom().insert(id));
}

/// A text written with `smart_put` is what a later lookup of the same content
/// id and task finds, so a repeated request is served from the cache.
pub proof fn lemma_stored_text_is_found(
    m: Map<Seq<char>, RowModel>,
    id: Seq<char>,
    task: TaskType,
    text: Seq<char>,
    now: i64,
)
    ensures
        smart_put_spec(m, id, task, text, now).contains_key(id),
        lookup_spec(Option::Some(smart_put_spec(m, id, task, text, now)[id]), task)
            == Option::Some(Option::Some(text)),
{
}

/// An in-memory cache with the store's semantics: one row per content id,
/// one column per task type, one expiry per row.
pub struct CacheTable {
    rows: Vec<CacheRow>,
}

impl View for CacheTable {
    type V = Map<Seq<char>, RowModel>;

    closed spec fn view(&self) -> Map<Seq<char>, RowModel> {
        table_map(self.rows@)
    }
}

impl CacheTable {
    pub closed spec fn wf(&self) -> bool {
        ids_unique(self.rows@)
    }

    pub fn new() -> (r: CacheTable)
        ensures
            r.wf(),
            r@ == Map::<Seq<char>, RowModel>::empty(),
    {
        CacheTable { rows: Vec::new() }
    }

    fn find(&self, id: &String) -> (r: Option<usize>)
        requires
            self.wf(),
        ensures
            match r {
                Option::Some(i) => i < self.rows@.len() && self.rows@[i as int].content_id@ == id@
                    && self@.contains_key(id@) && self@[id@] == model_of(self.rows@[i as int]),
                Option::None => !self@.contains_key(id@),
            },
    {
        let mut i: usize = 0;
        while i < self.rows.len()
            invariant
                self.wf(),
                i <= self.rows@.len(),
                forall|j: int| 0 <= j < i ==> (#[trigger] self.rows@[j]).content_id@ != id@,
            decreases self.rows@.len() - i,
        {
            if self.rows[i].content_id == *id {
                proof {
                    lemma_table_map_has(self.rows@, i as int);
                }
                return Some(i);
            }
            i = i + 1;
        }
        proof {
            lemma_table_map_lacks(self.rows@, id@);
        }
        None
    }

    /// Point lookup: the text cached for `task`, or whether a row exists at all.
    pub fn get(&self, id: &String, task: TaskType) -> (r: ItemReturnInfo)
        requires
            self.wf(),
        ensures
            reports(r, lookup_spec(
                if self@.contains_key(id@) { Option::Some(self@[id@]) } else { Option::None },
                task,
            )),
    {
        match self.find(id) {
            Option::Some(i) => lookup_in_row(Some(&self.rows[i]), task),
            Option::None => lookup_in_row(None, task),
        }
    }

    /// Inserts a new row; rejected when a row for the content exists already.
    pub fn put_new(&mut self, item: DBItem) -> (r: Result<(), CacheError>)
        requires
            old(self).wf(),
        ensures
            final(self).wf(),
            old(self)@.contains_key(item.unique_file_id@) ==> r == Err::<(), CacheError>(CacheError::DuplicateKey)
                && final(self)@ == old(self)@,
            !old(self)@.contains_key(item.unique_file_id@) ==> r is Ok
                && final(self)@ == put_new_spec(old(self)@, item.unique_file_id@, item.task_type, item.text@, item.expires_at as int),
    {
        match self.find(&item.unique_file_id) {
            Option::Some(_) => Err(CacheError::DuplicateKey),
            Option::None => {
                let ghost id = item.unique_file_id@;
                let row = CacheRow::with_text(item.unique_file_id, item.task_type, item.text, item.expires_at);
                let ghost rows0 = self.rows@;
                self.rows.push(row);
                proof {
                    assert(self.rows@.drop_last() == rows0);
                    assert forall|i: int, j: int|
                        0 <= i < self.rows@.len() && 0 <= j < self.rows@.len()
                            && self.rows@[i].content_id@ == self.rows@[j].content_id@ implies i == j by {
                        if i < rows0.len() && j == rows0.len() {
                            assert(rows0[i] == self.rows@[i]);
                            lemma_table_map_has(rows0, i);
                        }
                        if j < rows0.len() && i == rows0.len() {
                            assert(rows0[j] == self.rows@[j]);
                            lemma_table_map_has(rows0, j);
                        }
                    };
                }
                Ok(())
            },
        }
    }

    /// Adds or replaces the column of `task` on the existing row of `id` and
    /// refreshes the row's expiry from `now`; rejected when there is no such row.
    pub fn update_existing(&mut self, id: &String, task: TaskType, text: String, now: i64) -> (r: Result<(), CacheError>)
        requires
            old(self).wf(),
        ensures
            final(self).wf(),
            !old(self)@.contains_key(id@) ==> r == Err::<(), CacheError>(CacheError::NoSuchRow)
                && final(self)@ == old(self)@,
            old(self)@.contains_key(id@) ==> r is Ok
                && final(self)@ == update_spec(old(self)@, id@, task, text@, now),
    {
        match self.find(id) {
            Option::None => Err(CacheError::NoSuchRow),
            Option::Some(i) => {
                let ghost rows0 = self.rows@;
                let ghost t = text@;
                let expires_at = expiry_from(now);
                self.rows[i].set_slot(task, text);
                self.rows[i].expires_at = expires_at;
                proof {
                    assert(self.rows@ == rows0.update(i as int, self.rows@[i as int]));
                    lemma_table_map_update(rows0, i as int, self.rows@[i as int]);
                    assert(columns_of(self.rows@[i as int]) =~= columns_of(rows0[i as int]).insert(task, t));
                }
                Ok(())
            },
        }
    }

    /// Fills one column: updates the row of `id` when there is one, inserts a
    /// new row otherwise. Returns which of the two it did.
    pub fn smart_put(&mut self, id: &String, task: TaskType, text: String, now: i64) -> (r: CacheWrite)
        requires
            old(self).wf(),
        ensures
            final(self).wf(),
            final(self)@ == smart_put_spec(old(self)@, id@, task, text@, now),
            r == (if old(self)@.contains_key(id@) { CacheWrite::Update } else { CacheWrite::Insert }),
    {
        let found = self.get(id, task);
        match write_for(&found) {
            CacheWrite::Update => {
                let _ = self.update_existing(id, task, text, now);
                CacheWrite::Update
            },
            CacheWrite::Insert => {
                let item = DBItem {
                    text,
                    unique_file_id: id.clone(),
                    task_type: task,
                    expires_at: expiry_from(now),
                };
                let _ = self.put_new(item);
                CacheWrite::Insert
            },
        }
    }
}

} // verus!
