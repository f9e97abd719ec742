use arena::browse::{
    bom_heading, bom_line_to_node, bom_nodes, bom_search, change_status_text, changes_search,
    children_arrived, expand_icon, file_title, item_detail_queries, item_label,
    items_name_filter, items_search, ref_label, ref_name_text, rows_of, sort_indicator,
    sort_items, toggle_expand, toggle_sort, BomItemRef, BomLineRow, ChangeRow, FileRow, GuidRef,
    ItemRow, LifecycleStatusRef, ListResponse, SortColumn, SortDir, parse_error_message,
    ItemsPage, BomTreeState, start_root_search, roots_arrived, select_root, bom_arrived,
    ChangesPage,
};
use arena::protocol::ArenaMethod;

fn row(number: &str, name: &str, category: Option<&str>) -> ItemRow {
    ItemRow {
        guid: Some(format!("g-{number}")),
        number: Some(number.to_string()),
        name: Some(name.to_string()),
        category: category.map(|c| GuidRef { name: Some(c.to_string()) }),
        lifecycle_phase: None,
    }
}

fn numbers(rows: &[ItemRow]) -> Vec<String> {
    rows.iter().map(|r| r.number.clone().unwrap_or_default()).collect()
}

#[test]
fn search_filters() {
    assert_eq!(items_name_filter("  "), "*");
    assert_eq!(items_name_filter(" bolt "), "*bolt*");
    match items_search("") {
        ArenaMethod::SearchItems { name, limit, number, .. } => {
            assert_eq!(name.as_deref(), Some("*"));
            assert_eq!(limit, Some(50));
            assert_eq!(number, None);
        }
        other => panic!("unexpected {other:?}"),
    }
    assert_eq!(bom_search("   "), None);
    match bom_search("gear") {
        Some(ArenaMethod::SearchItems { name, limit, .. }) => {
            assert_eq!(name.as_deref(), Some("*gear*"));
            assert_eq!(limit, Some(20));
        }
        other => panic!("unexpected {other:?}"),
    }
    match changes_search("") {
        ArenaMethod::SearchChanges { title, limit, .. } => {
            assert_eq!(title, None);
            assert_eq!(limit, Some(50));
        }
        other => panic!("unexpected {other:?}"),
    }
    match changes_search(" ECO fix ") {
        ArenaMethod::SearchChanges { title, .. } => assert_eq!(title.as_deref(), Some("*ECO fix*")),
        other => panic!("unexpected {other:?}"),
    }
}

#[test]
fn list_answers_without_results_are_empty() {
    let none: ListResponse<ItemRow> = ListResponse { results: None };
    assert!(rows_of(none).is_empty());
    let some = ListResponse { results: Some(vec![row("1", "a", None)]) };
    assert_eq!(rows_of(some).len(), 1);
}

#[test]
fn sorting_is_stable_in_both_directions() {
    let rows = vec![
        row("3", "nut", Some("B")),
        row("1", "bolt", Some("A")),
        row("2", "washer", Some("B")),
        row("4", "pin", None),
    ];
    let by_number = sort_items(rows.clone(), SortColumn::Number, SortDir::Asc);
    assert_eq!(numbers(&by_number), vec!["1", "2", "3", "4"]);
    let by_number_desc = sort_items(rows.clone(), SortColumn::Number, SortDir::Desc);
    assert_eq!(numbers(&by_number_desc), vec!["4", "3", "2", "1"]);
    let by_category = sort_items(rows.clone(), SortColumn::Category, SortDir::Asc);
    assert_eq!(numbers(&by_category), vec!["4", "1", "3", "2"]);
    let by_category_desc = sort_items(rows.clone(), SortColumn::Category, SortDir::Desc);
    assert_eq!(numbers(&by_category_desc), vec!["3", "2", "1", "4"]);
    let by_name = sort_items(rows, SortColumn::Name, SortDir::Asc);
    assert_eq!(numbers(&by_name), vec!["1", "3", "4", "2"]);
}

#[test]
fn sorting_compares_strings_as_str_does() {
    let rows = vec![row("b", "", None), row("B", "", None), row("ab", "", None), row("a", "", None), row("é", "", None)];
    let sorted = sort_items(rows, SortColumn::Number, SortDir::Asc);
    let mut expected = vec!["b", "B", "ab", "a", "é"];
    expected.sort();
    assert_eq!(numbers(&sorted), expected);
}

#[test]
fn sort_headers() {
    let mut column = SortColumn::Number;
    let mut dir = SortDir::Asc;
    toggle_sort(&mut column, &mut dir, SortColumn::Number);
    assert_eq!((column, dir), (SortColumn::Number, SortDir::Desc));
    toggle_sort(&mut column, &mut dir, SortColumn::Name);
    assert_eq!((column, dir), (SortColumn::Name, SortDir::Asc));
    toggle_sort(&mut column, &mut dir, SortColumn::Name);
    toggle_sort(&mut column, &mut dir, SortColumn::Name);
    assert_eq!(dir, SortDir::Asc);
    assert_eq!(sort_indicator(SortColumn::Name, SortDir::Asc, SortColumn::Name), " ▲");
    assert_eq!(sort_indicator(SortColumn::Name, SortDir::Desc, SortColumn::Name), " ▼");
    assert_eq!(sort_indicator(SortColumn::Name, SortDir::Desc, SortColumn::Phase), "");
}

fn line(guid: Option<&str>, qty: Option<f64>) -> BomLineRow<f64> {
    BomLineRow {
        item: guid.map(|g| BomItemRef {
            guid: Some(g.to_string()),
            number: Some(format!("N-{g}")),
            name: None,
        }),
        quantity: qty,
        ref_des: Some("R1".to_string()),
    }
}

#[test]
fn bom_lines_become_tree_nodes() {
    let node = bom_line_to_node(line(Some("X"), Some(2.0)));
    assert_eq!(node.guid, "X");
    assert_eq!(node.number, "N-X");
    assert_eq!(node.name, "");
    assert_eq!(node.quantity, Some(2.0));
    assert!(node.children.is_none() && !node.expanded && !node.loading);
    let empty = bom_line_to_node(line(None, None));
    assert_eq!(empty.guid, "");
    assert_eq!(bom_nodes(vec![line(Some("A"), None), line(Some("B"), None)]).len(), 2);
}

#[test]
fn tree_lines_are_fetched_once() {
    let mut node = bom_line_to_node(line(Some("X"), None));
    assert_eq!(expand_icon(&node), "▶");
    let request = toggle_expand(&mut node);
    assert_eq!(request, Some(ArenaMethod::GetBom { guid: "X".to_string() }));
    assert!(node.loading);
    assert_eq!(expand_icon(&node), "...");
    children_arrived(&mut node, Some(vec![line(Some("C"), Some(1.0))]));
    assert!(node.expanded && !node.loading);
    assert_eq!(expand_icon(&node), "▼");
    assert_eq!(node.children.as_ref().map(|c| c.len()), Some(1));
    assert_eq!(toggle_expand(&mut node), None);
    assert!(!node.expanded);
    assert_eq!(toggle_expand(&mut node), None);
    assert!(node.expanded);
    let mut failed = bom_line_to_node(line(Some("Y"), None));
    toggle_expand(&mut failed);
    children_arrived(&mut failed, None);
    assert_eq!(failed.children.as_ref().map(|c| c.len()), Some(0));
}

#[test]
fn labels() {
    assert_eq!(item_label(&row("100-1", "Bracket", None)), "100-1 - Bracket");
    let bare = ItemRow { guid: None, number: None, name: None, category: None, lifecycle_phase: None };
    assert_eq!(item_label(&bare), " - ");
    assert_eq!(bom_heading("100-1 - Bracket"), "BOM: 100-1 - Bracket");
    assert_eq!(ref_label("R1,R2"), "ref: R1,R2");
    assert_eq!(file_title(&FileRow { guid: None, title: None, format: None }), "untitled");
    assert_eq!(file_title(&FileRow { guid: None, title: Some("Drawing".to_string()), format: None }), "Drawing");
    assert_eq!(ref_name_text(&Some(GuidRef { name: Some("Parts".to_string()) })), "Parts");
    assert_eq!(ref_name_text(&Some(GuidRef::default())), "");
    let change = ChangeRow {
        guid: None,
        number: None,
        title: None,
        lifecycle_status: Some(LifecycleStatusRef { status_type: Some("OPEN".to_string()) }),
        implementation_status: None,
    };
    assert_eq!(change_status_text(&change), "OPEN");
    let queries = item_detail_queries("G");
    assert_eq!(
        queries,
        vec![
            ArenaMethod::GetItem { guid: "G".to_string() },
            ArenaMethod::GetItemFiles { guid: "G".to_string() },
            ArenaMethod::GetItemRevisions { guid: "G".to_string() },
        ]
    );
}

#[test]
fn items_page_keeps_rows_on_a_failed_search() {
    let mut page = ItemsPage::new();
    assert!(page.items.is_empty() && !page.loading && page.error.is_none());
    let query = page.start_search(" bolt ");
    match query {
        ArenaMethod::SearchItems { name, limit, .. } => {
            assert_eq!(name.as_deref(), Some("*bolt*"));
            assert_eq!(limit, Some(50));
        }
        other => panic!("unexpected query {other:?}"),
    }
    assert!(page.loading);
    page.search_arrived(Ok(vec![row("100-1", "Bolt", None)]));
    assert!(!page.loading);
    assert_eq!(numbers(&page.items), vec!["100-1".to_string()]);
    assert!(page.error.is_none());
    page.start_search("");
    page.search_arrived(Err(parse_error_message("expected value")));
    assert!(!page.loading);
    assert_eq!(page.error.as_deref(), Some("Parse error: expected value"));
    assert_eq!(numbers(&page.items), vec!["100-1".to_string()]);
    page.start_search("x");
    assert!(page.error.is_none());
}

#[test]
fn bom_page_selects_a_root_and_loads_its_lines() {
    let mut state: BomTreeState<f64> = BomTreeState::new();
    assert_eq!(start_root_search(&mut state, "   "), None);
    assert!(!state.loading_search);
    match start_root_search(&mut state, " arm ") {
        Some(ArenaMethod::SearchItems { name, limit, .. }) => {
            assert_eq!(name.as_deref(), Some("*arm*"));
            assert_eq!(limit, Some(20));
        }
        other => panic!("unexpected query {other:?}"),
    }
    assert!(state.loading_search);
    roots_arrived(&mut state, Some(vec![row("200-1", "Arm", None)]));
    assert!(!state.loading_search);
    assert_eq!(state.root_items.len(), 1);
    roots_arrived(&mut state, None);
    assert_eq!(state.root_items.len(), 1);

    let query = select_root(&mut state, "G1".to_string(), "200-1 - Arm".to_string());
    assert_eq!(query, ArenaMethod::GetBom { guid: "G1".to_string() });
    assert_eq!(state.selected_item, Some(("G1".to_string(), "200-1 - Arm".to_string())));
    assert!(state.bom_lines.is_empty() && state.loading_bom);
    bom_arrived(&mut state, Some(vec![line(Some("A"), Some(1.0)), line(Some("B"), None)]));
    assert!(!state.loading_bom);
    let guids: Vec<String> = state.bom_lines.iter().map(|n| n.guid.clone()).collect();
    assert_eq!(guids, vec!["A".to_string(), "B".to_string()]);

    select_root(&mut state, "G2".to_string(), "200-2 - Pin".to_string());
    assert!(state.bom_lines.is_empty());
    bom_arrived(&mut state, None);
    assert!(state.bom_lines.is_empty() && !state.loading_bom);
    assert_eq!(state.selected_item.as_ref().map(|s| s.0.clone()), Some("G2".to_string()));
}

fn change(guid: &str) -> ChangeRow {
    ChangeRow {
        guid: Some(guid.to_string()),
        number: Some(format!("CO-{guid}")),
        title: None,
        lifecycle_status: None,
        implementation_status: None,
    }
}

#[test]
fn changes_page_search_and_row_click() {
    let mut page = ChangesPage::new();
    match page.start_search("  ") {
        ArenaMethod::SearchChanges { title, limit, .. } => {
            assert_eq!(title, None);
            assert_eq!(limit, Some(50));
        }
        other => panic!("unexpected query {other:?}"),
    }
    assert!(page.loading);
    page.search_arrived(Ok(vec![change("C1")]));
    assert!(!page.loading && page.error.is_none());
    assert_eq!(page.changes, vec![change("C1")]);
    match page.start_search(" motor ") {
        ArenaMethod::SearchChanges { title, .. } => assert_eq!(title.as_deref(), Some("*motor*")),
        other => panic!("unexpected query {other:?}"),
    }
    page.search_arrived(Err("Arena API error (500): down".to_string()));
    assert!(!page.loading);
    assert_eq!(page.error.as_deref(), Some("Arena API error (500): down"));
    assert_eq!(page.changes, vec![change("C1")]);

    let query = page.select_change("C1".to_string());
    assert_eq!(query, ArenaMethod::GetChangeAffectedItems { guid: "C1".to_string() });
    assert_eq!(page.selected_guid.as_deref(), Some("C1"));
    assert_eq!(page.affected_items_json, None);
    page.affected_arrived(Ok("[1]".to_string()));
    assert_eq!(page.affected_items_json.as_deref(), Some("[1]"));
    page.select_change("C2".to_string());
    assert_eq!(page.affected_items_json, None);
    page.affected_arrived(Err("failed".to_string()));
    assert_eq!(page.affected_items_json, None);
    assert_eq!(page.selected_guid.as_deref(), Some("C2"));
}
