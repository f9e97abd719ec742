//! The browse pages of the web front end: searches of items and changes, item details and
//! the bill-of-materials tree, over the rows that the front end reads from the answers.

use vstd::prelude::*;

use crate::protocol::ArenaMethod;
use crate::request::{concat2, concat3, opt_view, owned};
use crate::text::{
    chars_of, is_blank, is_blank_str, lemma_lex_asymmetric, lemma_lex_irreflexive,
    lemma_lex_total, lemma_lex_transitive, lex_less, lex_lt, trim, trim_string,
};

verus! {

/// A reference by name (a category or a lifecycle phase).
#[derive(Clone, Debug, Default, PartialEq, Eq)]
pub struct GuidRef {
    pub name: Option<String>,
}

/// A row of the item search.
#[derive(Clone, Debug, PartialEq, Eq)]
pub struct ItemRow {
    pub guid: Option<String>,
    pub number: Option<String>,
    pub name: Option<String>,
    pub category: Option<GuidRef>,
    pub lifecycle_phase: Option<GuidRef>,
}

/// A line of a bill of materials. `Q` is the type of the quantity (a floating-point number
/// in the running program); nothing here computes with it.
#[derive(Clone, Debug, PartialEq)]
pub struct BomLineRow<Q> {
    pub item: Option<BomItemRef>,
    pub quantity: Option<Q>,
    pub ref_des: Option<String>,
}

/// The item of a line of a bill of materials.
#[derive(Clone, Debug, PartialEq, Eq)]
pub struct BomItemRef {
    pub guid: Option<String>,
    pub number: Option<String>,
    pub name: Option<String>,
}

/// A row of the change search.
#[derive(Clone, Debug, PartialEq, Eq)]
pub struct ChangeRow {
    pub guid: Option<String>,
    pub number: Option<String>,
    pub title: Option<String>,
    pub lifecycle_status: Option<LifecycleStatusRef>,
    pub implementation_status: Option<String>,
}

/// The lifecycle status of a change.
#[derive(Clone, Debug, PartialEq, Eq)]
pub struct LifecycleStatusRef {
    pub status_type: Option<String>,
}

/// A file of an item.
#[derive(Clone, Debug, PartialEq, Eq)]
pub struct FileRow {
    pub guid: Option<String>,
    pub title: Option<String>,
    pub format: Option<String>,
}

/// A revision of an item.
#[derive(Clone, Debug, PartialEq, Eq)]
pub struct RevisionRow {
    pub revision_number: Option<String>,
    pub lifecycle_phase: Option<GuidRef>,
    pub effective_datetime: Option<String>,
}

/// A list answer of the API, whose results may be missing.
#[derive(Clone, Debug, PartialEq)]
pub struct ListResponse<T> {
    pub results: Option<Vec<T>>,
}

/// The rows of a list answer: its results, or none when it has none.
pub fn rows_of<T>(list: ListResponse<T>) -> (res: Vec<T>)
    ensures
        res@ == match list.results {
            Some(v) => v@,
            None => Seq::<T>::empty(),
        },
{
    match list.results {
        Some(v) => v,
        None => Vec::new(),
    }
}

/// `*{trim(query)}*`: the search pattern for a query, matching the trimmed query anywhere.
pub open spec fn contains_pattern(query: Seq<char>) -> Seq<char> {
    "*"@ + trim(query) + "*"@
}

/// `m` searches items by `name` alone, for the first `limit` results.
pub open spec fn is_name_search(m: ArenaMethod, name: Seq<char>, limit: i64) -> bool {
    match m {
        ArenaMethod::SearchItems {
            number,
            name: n,
            description,
            category_guid,
            lifecycle_phase_guid,
            offset,
            limit: l,
        } => {
            &&& number is None
            &&& opt_view(n) == Some(name)
            &&& description is None
            &&& category_guid is None
            &&& lifecycle_phase_guid is None
            &&& offset is None
            &&& l == Some(limit)
        },
        _ => false,
    }
}

/// `m` searches changes by `title` alone (every change when there is none), for the first
/// `limit` results.
pub open spec fn is_title_search(m: ArenaMethod, title: Option<Seq<char>>, limit: i64) -> bool {
    match m {
        ArenaMethod::SearchChanges {
            number,
            title: t,
            lifecycle_status,
            implementation_status,
            offset,
            limit: l,
        } => {
            &&& number is None
            &&& opt_view(t) == title
            &&& lifecycle_status is None
            &&& implementation_status is None
            &&& offset is None
            &&& l == Some(limit)
        },
        _ => false,
    }
}

/// The name filter of the item search: every item (`*`) for a blank query, else the items
/// whose name contains the trimmed query.
pub fn items_name_filter(query: &str) -> (res: String)
    ensures
        res@ == if is_blank(query@) {
            "*"@
        } else {
            contains_pattern(query@)
        },
{
    if is_blank_str(query) {
        owned("*")
    } else {
        let t = trim_string(query);
        concat3("*", t.as_str(), "*")
    }
}

/// The pattern of a search that needs a query: none for a blank query.
pub fn optional_pattern(query: &str) -> (res: Option<String>)
    ensures
        is_blank(query@) ==> res is None,
        !is_blank(query@) ==> opt_view(res) == Some(contains_pattern(query@)),
{
    if is_blank_str(query) {
        None
    } else {
        let t = trim_string(query);
        Some(concat3("*", t.as_str(), "*"))
    }
}

/// The query of the items page: the name filter, the first 50 results.
pub fn items_search(query: &str) -> (res: ArenaMethod)
    ensures
        is_name_search(
            res,
            if is_blank(query@) {
                "*"@
            } else {
                contains_pattern(query@)
            },
            50,
        ),
{
    ArenaMethod::SearchItems {
        number: None,
        name: Some(items_name_filter(query)),
        description: None,
        category_guid: None,
        lifecycle_phase_guid: None,
        offset: None,
        limit: Some(50),
    }
}

/// The query of the bill-of-materials page: none for a blank query, else the items whose
/// name contains it, the first 20 results.
pub fn bom_search(query: &str) -> (res: Option<ArenaMethod>)
    ensures
        is_blank(query@) ==> res is None,
        !is_blank(query@) ==> res is Some && is_name_search(res->0, contains_pattern(query@), 20),
{
    match optional_pattern(query) {
        None => None,
        Some(p) => Some(
            ArenaMethod::SearchItems {
                number: None,
                name: Some(p),
                description: None,
                category_guid: None,
                lifecycle_phase_guid: None,
                offset: None,
                limit: Some(20),
            },
        ),
    }
}

/// The query of the changes page: every change for a blank query, else the changes whose
/// title contains it; the first 50 results.
pub fn changes_search(query: &str) -> (res: ArenaMethod)
    ensures
        is_title_search(
            res,
            if is_blank(query@) {
                None
            } else {
                Some(contains_pattern(query@))
            },
            50,
        ),
{
    ArenaMethod::SearchChanges {
        number: None,
        title: optional_pattern(query),
        lifecycle_status: None,
        implementation_status: None,
        offset: None,
        limit: Some(50),
    }
}

/// The name under which the details show a file: its title, or `untitled`.
pub fn file_title(file: &FileRow) -> (res: String)
    ensures
        res@ == match file.title {
            Some(t) => t@,
            None => "untitled"@,
        },
{
    match &file.title {
        Some(t) => t.clone(),
        None => owned("untitled"),
    }
}

/// The queries that fill the details of an item: the item, its files, its revisions.
pub fn item_detail_queries(guid: &str) -> (res: Vec<ArenaMethod>)
    ensures
        res@.len() == 3,
        res@[0] matches ArenaMethod::GetItem { guid: g } && g@ == guid@,
        res@[1] matches ArenaMethod::GetItemFiles { guid: g } && g@ == guid@,
        res@[2] matches ArenaMethod::GetItemRevisions { guid: g } && g@ == guid@,
{
    let mut v: Vec<ArenaMethod> = Vec::new();
    v.push(ArenaMethod::GetItem { guid: owned(guid) });
    v.push(ArenaMethod::GetItemFiles { guid: owned(guid) });
    v.push(ArenaMethod::GetItemRevisions { guid: owned(guid) });
    v
}

/// A string that may be missing, as a page shows it: empty when missing.
pub open spec fn or_empty(s: Option<String>) -> Seq<char> {
    match s {
        Some(v) => v@,
        None => Seq::<char>::empty(),
    }
}

/// The text of an optional string, empty when missing.
pub fn text_or_empty(s: &Option<String>) -> (res: String)
    ensures
        res@ == or_empty(*s),
{
    match s {
        Some(v) => v.clone(),
        None => String::new(),
    }
}

/// How the bill-of-materials page lists an item it found: `{number} - {name}`.
pub fn item_label(item: &ItemRow) -> (res: String)
    ensures
        res@ == or_empty(item.number) + " - "@ + or_empty(item.name),
{
    let number = text_or_empty(&item.number);
    let name = text_or_empty(&item.name);
    concat3(number.as_str(), " - ", name.as_str())
}

/// The column by which the item search is sorted.
#[derive(Clone, Copy, Debug, PartialEq, Eq, Structural)]
pub enum SortColumn {
    Number,
    Name,
    Category,
    Phase,
}

/// The direction of a sort.
#[derive(Clone, Copy, Debug, PartialEq, Eq, Structural)]
pub enum SortDir {
    Asc,
    Desc,
}

/// A click on the header of `col`: the same column turns the direction over; another
/// column becomes the sort column, ascending.
pub fn toggle_sort(column: &mut SortColumn, dir: &mut SortDir, col: SortColumn)
    ensures
        *old(column) == col ==> *final(column) == col && *final(dir) == (if *old(dir) == SortDir::Asc {
            SortDir::Desc
        } else {
            SortDir::Asc
        }),
        *old(column) != col ==> *final(column) == col && *final(dir) == SortDir::Asc,
{
    if *column == col {
        *dir = if *dir == SortDir::Asc {
            SortDir::Desc
        } else {
            SortDir::Asc
        };
    } else {
        *column = col;
        *dir = SortDir::Asc;
    }
}

/// The mark after the header of `col`: an arrow up or down on the sort column, nothing on
/// the others.
pub fn sort_indicator(column: SortColumn, dir: SortDir, col: SortColumn) -> (res: &'static str)
    ensures
        res@ == if column == col {
            if dir == SortDir::Asc {
                " \u{25b2}"@
            } else {
                " \u{25bc}"@
            }
        } else {
            ""@
        },
{
    if column == col {
        if dir == SortDir::Asc {
            " \u{25b2}"
        } else {
            " \u{25bc}"
        }
    } else {
        ""
    }
}

/// The name of an optional reference, empty when either is missing.
pub open spec fn ref_name(r: Option<GuidRef>) -> Seq<char> {
    match r {
        Some(g) => or_empty(g.name),
        None => Seq::<char>::empty(),
    }
}

/// What a row is sorted by in a column: its number, name, category name or phase name,
/// missing values counting as empty.
pub open spec fn sort_key(row: ItemRow, col: SortColumn) -> Seq<char> {
    match col {
        SortColumn::Number => or_empty(row.number),
        SortColumn::Name => or_empty(row.name),
        SortColumn::Category => ref_name(row.category),
        SortColumn::Phase => ref_name(row.lifecycle_phase),
    }
}

/// Each column sorts by its own field: the number, the name, the category's name and the
/// lifecycle phase's name, a missing value counting as empty.
pub proof fn law_sort_key_fields(row: ItemRow)
    ensures
        sort_key(row, SortColumn::Number) == match row.number {
            Some(n) => n@,
            None => Seq::<char>::empty(),
        },
        sort_key(row, SortColumn::Name) == match row.name {
            Some(n) => n@,
            None => Seq::<char>::empty(),
        },
        sort_key(row, SortColumn::Category) == match row.category {
            Some(GuidRef { name: Some(n) }) => n@,
            _ => Seq::<char>::empty(),
        },
        sort_key(row, SortColumn::Phase) == match row.lifecycle_phase {
            Some(GuidRef { name: Some(n) }) => n@,
            _ => Seq::<char>::empty(),
        },
{
}

/// A column's key depends on its field alone: two rows that agree on a column's field have
/// the same key there, whatever their other fields.
pub proof fn law_sort_key_own_field(a: ItemRow, b: ItemRow)
    ensures
        a.number == b.number ==> sort_key(a, SortColumn::Number) == sort_key(b, SortColumn::Number),
        a.name == b.name ==> sort_key(a, SortColumn::Name) == sort_key(b, SortColumn::Name),
        a.category == b.category ==> sort_key(a, SortColumn::Category) == sort_key(b, SortColumn::Category),
        a.lifecycle_phase == b.lifecycle_phase ==> sort_key(a, SortColumn::Phase) == sort_key(
            b,
            SortColumn::Phase,
        ),
{
}

/// Sorted rows come in the order of the column's keys: ascending, no key is smaller than
/// one before it; descending, no key is larger than one before it.
pub proof fn law_sorted_direction(s: Seq<ItemRow>, col: SortColumn, dir: SortDir)
    requires
        sorted_rows(s, col, dir),
    ensures
        dir == SortDir::Asc ==> forall|i: int, j: int|
            0 <= i < j < s.len() ==> !lex_lt(sort_key(#[trigger] s[j], col), sort_key(#[trigger] s[i], col)),
        dir == SortDir::Desc ==> forall|i: int, j: int|
            0 <= i < j < s.len() ==> !lex_lt(sort_key(#[trigger] s[i], col), sort_key(#[trigger] s[j], col)),
{
    assert forall|i: int, j: int| 0 <= i < j < s.len() implies !precedes(#[trigger] s[j], #[trigger] s[i], col, dir) by {}
}

/// Rows sorted by phase, ascending, come in the order of their lifecycle phase names: no
/// row's phase name is smaller than that of a row before it.
pub proof fn law_sorted_by_phase(s: Seq<ItemRow>)
    requires
        sorted_rows(s, SortColumn::Phase, SortDir::Asc),
    ensures
        forall|i: int, j: int|
            0 <= i < j < s.len() ==> !lex_lt(
                match #[trigger] s[j].lifecycle_phase {
                    Some(GuidRef { name: Some(n) }) => n@,
                    _ => Seq::<char>::empty(),
                },
                match #[trigger] s[i].lifecycle_phase {
                    Some(GuidRef { name: Some(n) }) => n@,
                    _ => Seq::<char>::empty(),
                },
            ),
{
    assert forall|i: int, j: int| 0 <= i < j < s.len() implies !lex_lt(
        match #[trigger] s[j].lifecycle_phase {
            Some(GuidRef { name: Some(n) }) => n@,
            _ => Seq::<char>::empty(),
        },
        match #[trigger] s[i].lifecycle_phase {
            Some(GuidRef { name: Some(n) }) => n@,
            _ => Seq::<char>::empty(),
        },
    ) by {
        law_sort_key_fields(s[i]);
        law_sort_key_fields(s[j]);
        assert(!precedes(s[j], s[i], SortColumn::Phase, SortDir::Asc));
    }
}

/// `a` goes before `b` in the sort: its key is smaller (ascending) or larger (descending).
pub open spec fn precedes(a: ItemRow, b: ItemRow, col: SortColumn, dir: SortDir) -> bool {
    match dir {
        SortDir::Asc => lex_lt(sort_key(a, col), sort_key(b, col)),
        SortDir::Desc => lex_lt(sort_key(b, col), sort_key(a, col)),
    }
}

/// No row of `s` goes before a row in front of it.
pub open spec fn sorted_rows(s: Seq<ItemRow>, col: SortColumn, dir: SortDir) -> bool {
    forall|i: int, j: int|
        0 <= i < j < s.len() ==> !precedes(#[trigger] s[j], #[trigger] s[i], col, dir)
}

/// The test for the rows whose key in `col` is `k`.
pub open spec fn key_is(col: SortColumn, k: Seq<char>) -> spec_fn(ItemRow) -> bool {
    |r: ItemRow| sort_key(r, col) == k
}

/// The rows of `s` whose key in `col` is `k`, in their order in `s`.
pub open spec fn rows_with_key(s: Seq<ItemRow>, col: SortColumn, k: Seq<char>) -> Seq<ItemRow> {
    s.filter(key_is(col, k))
}

proof fn lemma_precedes_facts(a: ItemRow, b: ItemRow, c: ItemRow, col: SortColumn, dir: SortDir)
    ensures
        !precedes(a, a, col, dir),
        precedes(a, b, col, dir) ==> !precedes(b, a, col, dir),
        precedes(a, b, col, dir) && precedes(b, c, col, dir) ==> precedes(a, c, col, dir),
{
    lemma_lex_irreflexive(sort_key(a, col));
    lemma_lex_asymmetric(sort_key(a, col), sort_key(b, col));
    lemma_lex_transitive(sort_key(a, col), sort_key(b, col), sort_key(c, col));
    lemma_lex_transitive(sort_key(c, col), sort_key(b, col), sort_key(a, col));
}

proof fn lemma_insert_sorted(out: Seq<ItemRow>, p: int, x: ItemRow, col: SortColumn, dir: SortDir)
    requires
        sorted_rows(out, col, dir),
        0 <= p <= out.len(),
        forall|i: int| 0 <= i < p ==> !precedes(x, #[trigger] out[i], col, dir),
        p < out.len() ==> precedes(x, out[p], col, dir),
    ensures
        sorted_rows(out.insert(p, x), col, dir),
{
    let o = out.insert(p, x);
    out.insert_ensures(p, x);
    assert forall|i: int, j: int| 0 <= i < j < o.len() implies !precedes(
        #[trigger] o[j],
        #[trigger] o[i],
        col,
        dir,
    ) by {
        if j < p {
            assert(o[i] == out[i] && o[j] == out[j]);
        } else if j == p {
            assert(o[i] == out[i]);
        } else if i < p {
            assert(o[i] == out[i] && o[j] == out[j - 1]);
        } else if i == p {
            assert(o[j] == out[j - 1]);
            lemma_precedes_facts(out[j - 1], x, out[p], col, dir);
            if j - 1 > p {
                assert(!precedes(out[j - 1], out[p], col, dir));
            }
        } else {
            assert(o[i] == out[i - 1] && o[j] == out[j - 1]);
        }
    }
}

proof fn lemma_filter_none(s: Seq<ItemRow>, pred: spec_fn(ItemRow) -> bool)
    requires
        forall|i: int| 0 <= i < s.len() ==> !pred(#[trigger] s[i]),
    ensures
        s.filter(pred) == Seq::<ItemRow>::empty(),
    decreases s.len(),
{
    reveal(Seq::filter);
    if s.len() > 0 {
        lemma_filter_none(s.drop_last(), pred);
        assert(!pred(s[s.len() - 1]));
    }
}

proof fn lemma_filter_single(x: ItemRow, pred: spec_fn(ItemRow) -> bool)
    ensures
        seq![x].filter(pred) == (if pred(x) {
            seq![x]
        } else {
            Seq::<ItemRow>::empty()
        }),
{
    reveal_with_fuel(Seq::filter, 2);
    assert(seq![x].drop_last() =~= Seq::<ItemRow>::empty());
}

/// The rows with key `k` after `x` was put at `p`: those before, and `x` when it has that key.
proof fn lemma_insert_rows_with_key(
    out: Seq<ItemRow>,
    p: int,
    x: ItemRow,
    col: SortColumn,
    dir: SortDir,
    k: Seq<char>,
)
    requires
        sorted_rows(out, col, dir),
        0 <= p <= out.len(),
        p < out.len() ==> precedes(x, out[p], col, dir),
    ensures
        rows_with_key(out.insert(p, x), col, k) == rows_with_key(out, col, k) + (if sort_key(x, col)
            == k {
            seq![x]
        } else {
            Seq::<ItemRow>::empty()
        }),
{
    let pred = key_is(col, k);
    let front = out.subrange(0, p);
    let back = out.subrange(p, out.len() as int);
    assert(out.insert(p, x) =~= front + seq![x] + back);
    assert(out =~= front + back);
    Seq::filter_distributes_over_add(front + seq![x], back, pred);
    Seq::filter_distributes_over_add(front, seq![x], pred);
    Seq::filter_distributes_over_add(front, back, pred);
    lemma_filter_single(x, pred);
    if sort_key(x, col) == k {
        assert forall|i: int| 0 <= i < back.len() implies !pred(#[trigger] back[i]) by {
            lemma_precedes_facts(x, out[p], out[p], col, dir);
            if i > 0 {
                assert(!precedes(out[p + i], out[p], col, dir));
            }
            assert(back[i] == out[p + i]);
        }
        lemma_filter_none(back, pred);
        assert(rows_with_key(out, col, k) =~= front.filter(pred));
    }
}

proof fn lemma_filter_prepend(x: ItemRow, s: Seq<ItemRow>, pred: spec_fn(ItemRow) -> bool)
    ensures
        (seq![x] + s).filter(pred) == (if pred(x) {
            seq![x]
        } else {
            Seq::<ItemRow>::empty()
        }) + s.filter(pred),
{
    Seq::filter_distributes_over_add(seq![x], s, pred);
    lemma_filter_single(x, pred);
}

proof fn lemma_filter_witness(s: Seq<ItemRow>, pred: spec_fn(ItemRow) -> bool)
    requires
        s.filter(pred).len() > 0,
    ensures
        exists|i: int| 0 <= i < s.len() && pred(#[trigger] s[i]),
{
    let e = s.filter(pred)[0];
    s.lemma_filter_pred(pred, 0);
    assert(s.filter(pred).contains(e));
    s.lemma_filter_contains_rev(pred, e);
}

/// The sort has one possible result: two arrangements that are both in the order of the
/// same column and direction, and hold the same rows for every key in the same order, are
/// the same. So the result of [`sort_items`] is fully determined by its input.
pub proof fn law_sort_result_unique(a: Seq<ItemRow>, b: Seq<ItemRow>, col: SortColumn, dir: SortDir)
    requires
        sorted_rows(a, col, dir),
        sorted_rows(b, col, dir),
        forall|k: Seq<char>| #[trigger] rows_with_key(a, col, k) == rows_with_key(b, col, k),
    ensures
        a == b,
    decreases a.len() + b.len(),
{
    if a.len() == 0 && b.len() == 0 {
        assert(a =~= b);
    } else if a.len() == 0 || b.len() == 0 {
        let (e, full, empty) = if a.len() == 0 {
            (b[0], b, a)
        } else {
            (a[0], a, b)
        };
        let k = sort_key(e, col);
        assert(full =~= seq![e] + full.drop_first());
        lemma_filter_prepend(e, full.drop_first(), key_is(col, k));
        reveal(Seq::filter);
        assert(rows_with_key(empty, col, k) == rows_with_key(full, col, k));
        assert(false);
    } else {
        let a0 = a[0];
        let b0 = b[0];
        let ka = sort_key(a0, col);
        let kb = sort_key(b0, col);
        let a1 = a.drop_first();
        let b1 = b.drop_first();
        assert(a =~= seq![a0] + a1);
        assert(b =~= seq![b0] + b1);
        // the first rows of both have the least key, so the same key
        lemma_filter_prepend(a0, a1, key_is(col, ka));
        lemma_filter_prepend(b0, b1, key_is(col, kb));
        assert(rows_with_key(b, col, ka) == rows_with_key(a, col, ka));
        assert(rows_with_key(a, col, kb) == rows_with_key(b, col, kb));
        lemma_filter_witness(b, key_is(col, ka));
        lemma_filter_witness(a, key_is(col, kb));
        let j = choose|j: int| 0 <= j < b.len() && key_is(col, ka)(#[trigger] b[j]);
        let i = choose|i: int| 0 <= i < a.len() && key_is(col, kb)(#[trigger] a[i]);
        if j > 0 {
            assert(!precedes(b[j], b[0], col, dir));
        }
        if i > 0 {
            assert(!precedes(a[i], a[0], col, dir));
        }
        lemma_lex_total(ka, kb);
        lemma_lex_irreflexive(ka);
        assert(ka == kb);
        // so both lists of rows with that key start with them
        assert(rows_with_key(a, col, ka)[0] == a0);
        assert(rows_with_key(b, col, ka)[0] == b0);
        assert(a0 == b0);
        // the rest keep the same rows for every key, and stay sorted
        assert forall|k: Seq<char>| #[trigger] rows_with_key(a1, col, k) == rows_with_key(b1, col, k) by {
            lemma_filter_prepend(a0, a1, key_is(col, k));
            lemma_filter_prepend(a0, b1, key_is(col, k));
            let front = if sort_key(a0, col) == k {
                seq![a0]
            } else {
                Seq::<ItemRow>::empty()
            };
            assert(rows_with_key(a, col, k) == rows_with_key(b, col, k));
            assert(rows_with_key(a1, col, k) =~= rows_with_key(a, col, k).skip(front.len() as int));
            assert(rows_with_key(b1, col, k) =~= rows_with_key(b, col, k).skip(front.len() as int));
        }
        assert forall|x: int, y: int| 0 <= x < y < a1.len() implies !precedes(
            #[trigger] a1[y],
            #[trigger] a1[x],
            col,
            dir,
        ) by {
            assert(a1[x] == a[x + 1] && a1[y] == a[y + 1]);
        }
        assert forall|x: int, y: int| 0 <= x < y < b1.len() implies !precedes(
            #[trigger] b1[y],
            #[trigger] b1[x],
            col,
            dir,
        ) by {
            assert(b1[x] == b[x + 1] && b1[y] == b[y + 1]);
        }
        law_sort_result_unique(a1, b1, col, dir);
    }
}

/// The key of `row` in `col`, as characters.
fn key_chars(row: &ItemRow, col: SortColumn) -> (res: Vec<char>)
    ensures
        res@ == sort_key(*row, col),
{
    let text: Option<&String> = match col {
        SortColumn::Number => row.number.as_ref(),
        SortColumn::Name => row.name.as_ref(),
        SortColumn::Category => match &row.category {
            Some(g) => g.name.as_ref(),
            None => None,
        },
        SortColumn::Phase => match &row.lifecycle_phase {
            Some(g) => g.name.as_ref(),
            None => None,
        },
    };
    match text {
        Some(t) => chars_of(t.as_str()),
        None => Vec::new(),
    }
}

/// Whether `a` goes before `b` in the sort.
fn goes_before(a: &ItemRow, b: &ItemRow, col: SortColumn, dir: SortDir) -> (res: bool)
    ensures
        res == precedes(*a, *b, col, dir),
{
    let ka = key_chars(a, col);
    let kb = key_chars(b, col);
    match dir {
        SortDir::Asc => lex_less(ka.as_slice(), kb.as_slice()),
        SortDir::Desc => lex_less(kb.as_slice(), ka.as_slice()),
    }
}

/// The rows in the order of the column and direction chosen; rows with the same key keep
/// the order that the search gave them (and a descending sort is not the ascending one
/// reversed: equal keys stay in their order there too).
pub fn sort_items(rows: Vec<ItemRow>, col: SortColumn, dir: SortDir) -> (res: Vec<ItemRow>)
    ensures
        sorted_rows(res@, col, dir),
        forall|k: Seq<char>|
            #[trigger] rows_with_key(res@, col, k) == rows_with_key(rows@, col, k),
{
    let ghost input = rows@;
    let mut rest = rows;
    let mut out: Vec<ItemRow> = Vec::new();
    let ghost mut n: int = 0;
    proof {
        assert forall|k: Seq<char>| #[trigger]
            rows_with_key(out@, col, k) == rows_with_key(input.take(0), col, k) by {
            assert(out@ =~= input.take(0));
        }
        assert(rest@ =~= input.skip(0));
    }
    while rest.len() > 0
        invariant
            0 <= n <= input.len(),
            rest@ == input.skip(n),
            sorted_rows(out@, col, dir),
            forall|k: Seq<char>| #[trigger]
                rows_with_key(out@, col, k) == rows_with_key(input.take(n), col, k),
        decreases rest.len(),
    {
        let x = rest.remove(0);
        assert(x == input[n]);
        let mut p: usize = 0;
        while p < out.len() && !goes_before(&x, &out[p], col, dir)
            invariant
                p <= out.len(),
                forall|i: int| 0 <= i < p ==> !precedes(x, #[trigger] out@[i], col, dir),
            decreases out.len() - p,
        {
            p = p + 1;
        }
        let ghost before = out@;
        proof {
            lemma_insert_sorted(before, p as int, x, col, dir);
        }
        out.insert(p, x);
        proof {
            assert forall|k: Seq<char>| #[trigger]
                rows_with_key(out@, col, k) == rows_with_key(input.take(n + 1), col, k) by {
                lemma_insert_rows_with_key(before, p as int, x, col, dir, k);
                assert(input.take(n + 1) =~= input.take(n) + seq![x]);
                Seq::filter_distributes_over_add(input.take(n), seq![x], key_is(col, k));
                lemma_filter_single(x, key_is(col, k));
            }
            assert(rest@ =~= input.skip(n + 1));
            n = n + 1;
        }
    }
    proof {
        assert(input.take(n) =~= input);
    }
    out
}

/// A line of the bill-of-materials tree: the item, its quantity and reference designators,
/// and the lines below it once they were fetched.
#[derive(Debug)]
pub struct BomNode<Q> {
    pub guid: String,
    pub number: String,
    pub name: String,
    pub quantity: Option<Q>,
    pub ref_des: Option<String>,
    /// The lines of the item's own bill of materials, once fetched.
    pub children: Option<Vec<BomNode<Q>>>,
    pub expanded: bool,
    pub loading: bool,
}

/// A field of the item of a line, empty when the item or the field is missing.
pub open spec fn item_field(item: Option<BomItemRef>, field: int) -> Seq<char> {
    match item {
        Some(i) => if field == 0 {
            or_empty(i.guid)
        } else if field == 1 {
            or_empty(i.number)
        } else {
            or_empty(i.name)
        },
        None => Seq::<char>::empty(),
    }
}

/// `node` shows `line`: its item's guid, number and name (empty when missing), its quantity
/// and designators, collapsed, with nothing fetched below it.
pub open spec fn node_of<Q>(line: BomLineRow<Q>, node: BomNode<Q>) -> bool {
    &&& node.guid@ == item_field(line.item, 0)
    &&& node.number@ == item_field(line.item, 1)
    &&& node.name@ == item_field(line.item, 2)
    &&& node.quantity == line.quantity
    &&& node.ref_des == line.ref_des
    &&& node.children is None
    &&& !node.expanded
    &&& !node.loading
}

/// The tree line of a line of a bill of materials.
pub fn bom_line_to_node<Q>(line: BomLineRow<Q>) -> (res: BomNode<Q>)
    ensures
        node_of(line, res),
{
    let (guid, number, name) = match &line.item {
        Some(i) => (text_or_empty(&i.guid), text_or_empty(&i.number), text_or_empty(&i.name)),
        None => (String::new(), String::new(), String::new()),
    };
    BomNode {
        guid,
        number,
        name,
        quantity: line.quantity,
        ref_des: line.ref_des,
        children: None,
        expanded: false,
        loading: false,
    }
}

/// The tree lines of the lines of a bill of materials, in order.
pub fn bom_nodes<Q>(lines: Vec<BomLineRow<Q>>) -> (res: Vec<BomNode<Q>>)
    ensures
        res@.len() == lines@.len(),
        forall|i: int| 0 <= i < lines@.len() ==> node_of(lines@[i], #[trigger] res@[i]),
{
    let ghost input = lines@;
    let mut rest = lines;
    let mut out: Vec<BomNode<Q>> = Vec::new();
    let ghost mut n: int = 0;
    assert(rest@ =~= input.skip(0));
    while rest.len() > 0
        invariant
            0 <= n <= input.len(),
            rest@ == input.skip(n),
            out@.len() == n,
            forall|i: int| 0 <= i < n ==> node_of(input[i], #[trigger] out@[i]),
        decreases rest.len(),
    {
        let line = rest.remove(0);
        assert(line == input[n]);
        out.push(bom_line_to_node(line));
        proof {
            assert(rest@ =~= input.skip(n + 1));
            n = n + 1;
        }
    }
    out
}

/// A click on a tree line: an open line closes; a closed line whose lines were fetched
/// opens; otherwise the line is marked loading and its bill of materials is asked for.
pub fn toggle_expand<Q>(node: &mut BomNode<Q>) -> (res: Option<ArenaMethod>)
    ensures
        old(node).expanded ==> res is None && *final(node) == (BomNode { expanded: false, ..*old(node) }),
        !old(node).expanded && old(node).children is Some ==> res is None && *final(node) == (BomNode {
            expanded: true,
            ..*old(node)
        }),
        !old(node).expanded && old(node).children is None ==> *final(node) == (BomNode {
            loading: true,
            ..*old(node)
        }) && res == Some(ArenaMethod::GetBom { guid: old(node).guid }),
{
    if node.expanded {
        node.expanded = false;
        return None;
    }
    if node.children.is_some() {
        node.expanded = true;
        return None;
    }
    node.loading = true;
    Some(ArenaMethod::GetBom { guid: node.guid.clone() })
}

/// The answer to a tree line's bill of materials: its lines become the line's children
/// (none when the answer could not be read), and the line opens.
pub fn children_arrived<Q>(node: &mut BomNode<Q>, lines: Option<Vec<BomLineRow<Q>>>)
    ensures
        final(node).expanded,
        !final(node).loading,
        final(node).guid == old(node).guid,
        final(node).number == old(node).number,
        final(node).name == old(node).name,
        final(node).quantity == old(node).quantity,
        final(node).ref_des == old(node).ref_des,
        final(node).children matches Some(c) && match lines {
            Some(l) => c@.len() == l@.len() && forall|i: int|
                0 <= i < l@.len() ==> node_of(l@[i], #[trigger] c@[i]),
            None => c@.len() == 0,
        },
{
    let children = match lines {
        Some(l) => bom_nodes(l),
        None => Vec::new(),
    };
    node.children = Some(children);
    node.expanded = true;
    node.loading = false;
}

/// The mark in front of a tree line.
pub fn expand_icon<Q>(node: &BomNode<Q>) -> (res: &'static str)
    ensures
        res@ == if node.loading {
            "..."@
        } else if node.expanded {
            "\u{25bc}"@
        } else {
            "\u{25b6}"@
        },
{
    if node.loading {
        "..."
    } else if node.expanded {
        "\u{25bc}"
    } else {
        "\u{25b6}"
    }
}

/// The heading of the bill of materials of the chosen item: `BOM: {label}`.
pub fn bom_heading(label: &str) -> (res: String)
    ensures
        res@ == "BOM: "@ + label@,
{
    concat2("BOM: ", label)
}

/// How a tree line shows its reference designators: `ref: {designators}`.
pub fn ref_label(ref_des: &str) -> (res: String)
    ensures
        res@ == "ref: "@ + ref_des@,
{
    concat2("ref: ", ref_des)
}

/// The name of a category or phase as a row shows it, empty when missing.
pub fn ref_name_text(r: &Option<GuidRef>) -> (res: String)
    ensures
        res@ == ref_name(*r),
{
    match r {
        Some(g) => text_or_empty(&g.name),
        None => String::new(),
    }
}

/// The status of a change as its row shows it: the lifecycle status's type, empty when
/// missing.
pub fn change_status_text(change: &ChangeRow) -> (res: String)
    ensures
        res@ == match change.lifecycle_status {
            Some(s) => or_empty(s.status_type),
            None => Seq::<char>::empty(),
        },
{
    match &change.lifecycle_status {
        Some(s) => text_or_empty(&s.status_type),
        None => String::new(),
    }
}

/// The message of an answer that could not be read as the rows expected:
/// `Parse error: {detail}`.
pub fn parse_error_message(detail: &str) -> (res: String)
    ensures
        res@ == "Parse error: "@ + detail@,
{
    concat2("Parse error: ", detail)
}

/// The items page: the rows found, whether a search is under way, and the last error.
#[derive(Clone, Debug, PartialEq, Eq)]
pub struct ItemsPage {
    pub items: Vec<ItemRow>,
    pub loading: bool,
    pub error: Option<String>,
}

impl ItemsPage {
    /// No rows, nothing under way, no error.
    pub fn new() -> (res: ItemsPage)
        ensures
            res.items@.len() == 0,
            !res.loading,
            res.error is None,
    {
        ItemsPage { items: Vec::new(), loading: false, error: None }
    }

    /// Starts a search: the page is marked loading and the last error cleared (the rows stay
    /// until the answer); the query is that of [`items_search`].
    pub fn start_search(&mut self, query: &str) -> (res: ArenaMethod)
        ensures
            final(self).items == old(self).items,
            final(self).loading,
            final(self).error is None,
            is_name_search(
                res,
                if is_blank(query@) {
                    "*"@
                } else {
                    contains_pattern(query@)
                },
                50,
            ),
    {
        self.loading = true;
        self.error = None;
        items_search(query)
    }

    /// The answer to the search: its rows replace the old ones, or its error is shown and the
    /// old rows stay; either way the search is over.
    pub fn search_arrived(&mut self, result: Result<Vec<ItemRow>, String>)
        ensures
            !final(self).loading,
            match result {
                Ok(rows) => final(self).items == rows && final(self).error == old(self).error,
                Err(message) => final(self).items == old(self).items && final(self).error == Some(
                    message,
                ),
            },
    {
        match result {
            Ok(rows) => {
                self.items = rows;
            },
            Err(message) => {
                self.error = Some(message);
            },
        }
        self.loading = false;
    }
}

/// The bill-of-materials page: the items found to start from, the chosen item (guid and
/// label), the lines of its bill of materials, and what is under way.
#[derive(Debug)]
pub struct BomTreeState<Q> {
    pub root_items: Vec<ItemRow>,
    pub selected_item: Option<(String, String)>,
    pub bom_lines: Vec<BomNode<Q>>,
    pub loading_search: bool,
    pub loading_bom: bool,
}

impl<Q> BomTreeState<Q> {
    /// Nothing found, nothing chosen, nothing under way.
    pub fn new() -> (res: BomTreeState<Q>)
        ensures
            res.root_items@.len() == 0,
            res.selected_item is None,
            res.bom_lines@.len() == 0,
            !res.loading_search,
            !res.loading_bom,
    {
        BomTreeState {
            root_items: Vec::new(),
            selected_item: None,
            bom_lines: Vec::new(),
            loading_search: false,
            loading_bom: false,
        }
    }
}

/// Starts a search for the item to show: a blank query does nothing; otherwise the search
/// is marked under way and the query of [`bom_search`] is returned.
pub fn start_root_search<Q>(state: &mut BomTreeState<Q>, query: &str) -> (res: Option<ArenaMethod>)
    ensures
        is_blank(query@) ==> res is None && final(state).loading_search == old(state).loading_search,
        !is_blank(query@) ==> res is Some && is_name_search(res->0, contains_pattern(query@), 20)
            && final(state).loading_search,
        final(state).root_items == old(state).root_items,
        final(state).selected_item == old(state).selected_item,
        final(state).bom_lines == old(state).bom_lines,
        final(state).loading_bom == old(state).loading_bom,
{
    let method = bom_search(query);
    if method.is_some() {
        state.loading_search = true;
    }
    method
}

/// The answer to the search for the item to show: the items found replace the old ones
/// when it could be read, and stay otherwise; the search is over.
pub fn roots_arrived<Q>(state: &mut BomTreeState<Q>, result: Option<Vec<ItemRow>>)
    ensures
        !final(state).loading_search,
        match result {
            Some(rows) => final(state).root_items == rows,
            None => final(state).root_items == old(state).root_items,
        },
        final(state).selected_item == old(state).selected_item,
        final(state).bom_lines == old(state).bom_lines,
        final(state).loading_bom == old(state).loading_bom,
{
    match result {
        Some(rows) => {
            state.root_items = rows;
        },
        None => {},
    }
    state.loading_search = false;
}

/// Choosing the item to show: it becomes the selection, its old lines go, the page waits
/// for its bill of materials, and exactly that one query is returned.
pub fn select_root<Q>(state: &mut BomTreeState<Q>, guid: String, label: String) -> (res: ArenaMethod)
    ensures
        final(state).selected_item == Some((guid, label)),
        final(state).bom_lines@.len() == 0,
        final(state).loading_bom,
        final(state).root_items == old(state).root_items,
        final(state).loading_search == old(state).loading_search,
        res == (ArenaMethod::GetBom { guid }),
{
    let query = ArenaMethod::GetBom { guid: guid.clone() };
    state.selected_item = Some((guid, label));
    state.bom_lines = Vec::new();
    state.loading_bom = true;
    query
}

/// The answer to the chosen item's bill of materials: when it could be read, its lines
/// become the tree's lines in order; when not, the lines stay as they were (empty after
/// [`select_root`]); either way the page stops waiting.
pub fn bom_arrived<Q>(state: &mut BomTreeState<Q>, lines: Option<Vec<BomLineRow<Q>>>)
    ensures
        !final(state).loading_bom,
        match lines {
            Some(l) => final(state).bom_lines@.len() == l@.len() && forall|i: int|
                0 <= i < l@.len() ==> node_of(l@[i], #[trigger] final(state).bom_lines@[i]),
            None => final(state).bom_lines == old(state).bom_lines,
        },
        final(state).selected_item == old(state).selected_item,
        final(state).root_items == old(state).root_items,
        final(state).loading_search == old(state).loading_search,
{
    match lines {
        Some(l) => {
            state.bom_lines = bom_nodes(l);
        },
        None => {},
    }
    state.loading_bom = false;
}

/// The changes page: the rows found, whether a search is under way, the last error, the
/// chosen change and the JSON of its affected items.
#[derive(Clone, Debug, PartialEq, Eq)]
pub struct ChangesPage {
    pub changes: Vec<ChangeRow>,
    pub loading: bool,
    pub error: Option<String>,
    pub selected_guid: Option<String>,
    pub affected_items_json: Option<String>,
}

impl ChangesPage {
    /// No rows, nothing under way, nothing chosen.
    pub fn new() -> (res: ChangesPage)
        ensures
            res.changes@.len() == 0,
            !res.loading,
            res.error is None,
            res.selected_guid is None,
            res.affected_items_json is None,
    {
        ChangesPage {
            changes: Vec::new(),
            loading: false,
            error: None,
            selected_guid: None,
            affected_items_json: None,
        }
    }

    /// Starts a search: the page is marked loading and the last error cleared; the query is
    /// that of [`changes_search`].
    pub fn start_search(&mut self, query: &str) -> (res: ArenaMethod)
        ensures
            *final(self) == (ChangesPage { loading: true, error: None, ..*old(self) }),
            is_title_search(
                res,
                if is_blank(query@) {
                    None
                } else {
                    Some(contains_pattern(query@))
                },
                50,
            ),
    {
        self.loading = true;
        self.error = None;
        changes_search(query)
    }

    /// The answer to the search: its rows replace the old ones, or its error is shown and the
    /// old rows stay; either way the search is over.
    pub fn search_arrived(&mut self, result: Result<Vec<ChangeRow>, String>)
        ensures
            match result {
                Ok(rows) => *final(self) == (ChangesPage { changes: rows, loading: false, ..*old(self) }),
                Err(message) => *final(self) == (ChangesPage {
                    loading: false,
                    error: Some(message),
                    ..*old(self)
                }),
            },
    {
        match result {
            Ok(rows) => {
                self.changes = rows;
            },
            Err(message) => {
                self.error = Some(message);
            },
        }
        self.loading = false;
    }

    /// A click on the row of change `guid`: it becomes the selection, the affected items
    /// shown so far go, and the query for its affected items is returned.
    pub fn select_change(&mut self, guid: String) -> (res: ArenaMethod)
        ensures
            *final(self) == (ChangesPage {
                selected_guid: Some(guid),
                affected_items_json: None,
                ..*old(self)
            }),
            res == (ArenaMethod::GetChangeAffectedItems { guid }),
    {
        let query = ArenaMethod::GetChangeAffectedItems { guid: guid.clone() };
        self.selected_guid = Some(guid);
        self.affected_items_json = None;
        query
    }

    /// The answer to the affected items: shown exactly when the query succeeded.
    pub fn affected_arrived(&mut self, result: Result<String, String>)
        ensures
            match result {
                Ok(json) => *final(self) == (ChangesPage { affected_items_json: Some(json), ..*old(self) }),
                Err(_) => *final(self) == *old(self),
            },
    {
        match result {
            Ok(json) => {
                self.affected_items_json = Some(json);
            },
            Err(_) => {},
        }
    }
}

} // verus!
