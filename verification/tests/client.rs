use arena::client::{
    answer_from, api_answer, attributes_from, add_change_affected_item, change_change_status, create_bom_line, create_item, delete_bom_line,
    get_item, get_item_file_content, parse_additional_attributes, search_changes, search_items,
    update_bom_line, update_item,
};
use arena::request::{BodyValue, HttpMethod};
use arena::types::{
    AddChangeAffectedItemParams, ChangeChangeStatusParams, CreateBomLineParams, CreateItemParams,
    DeleteBomLineParams, SearchChangesParams, SearchItemsParams, UpdateBomLineParams,
    UpdateItemParams,
};

fn field(key: &str, value: BodyValue) -> (String, BodyValue) {
    (key.to_string(), value)
}

#[test]
fn reads_are_plain_gets() {
    let item = get_item("ABC");
    assert_eq!(item.method, HttpMethod::Get);
    assert_eq!(item.path, "/items/ABC");
    assert_eq!(item.query, vec![("responseview".to_string(), "full".to_string())]);
    assert!(item.body.is_none());
    assert_eq!(get_item_file_content("I", "F").path, "/items/I/files/F/content");
}

#[test]
fn searches_send_only_the_given_filters() {
    let params = SearchItemsParams {
        number: Some("100-*".to_string()),
        name: None,
        description: Some("bolt".to_string()),
        category_guid: None,
        lifecycle_phase_guid: None,
        offset: None,
        limit: Some(25),
    };
    let request = search_items(&params);
    assert_eq!(request.path, "/items");
    assert_eq!(
        request.query,
        vec![
            ("number".to_string(), "100-*".to_string()),
            ("description".to_string(), "bolt".to_string()),
            ("limit".to_string(), "25".to_string()),
        ]
    );
    let changes = search_changes(&SearchChangesParams {
        number: None,
        title: None,
        lifecycle_status: None,
        implementation_status: Some("DONE".to_string()),
        offset: Some(0),
        limit: None,
    });
    assert_eq!(
        changes.query,
        vec![
            ("implementationStatus".to_string(), "DONE".to_string()),
            ("offset".to_string(), "0".to_string()),
        ]
    );
}

#[test]
fn creating_an_item() {
    let params = CreateItemParams {
        name: "Bracket".to_string(),
        category_guid: "CAT".to_string(),
        number: None,
        description: Some("steel".to_string()),
        additional_attributes_json: Some("[{\"guid\": \"A1\", \"value\": 3}]".to_string()),
    };
    let request = create_item(&params).unwrap();
    assert_eq!(request.method, HttpMethod::Post);
    assert_eq!(request.path, "/items");
    assert_eq!(
        request.body.unwrap().fields,
        vec![
            field("name", BodyValue::Str("Bracket".to_string())),
            field("category", BodyValue::GuidRef("CAT".to_string())),
            field("description", BodyValue::Str("steel".to_string())),
            field("additionalAttributes", BodyValue::RawArray(vec!["{\"guid\":\"A1\",\"value\":3}".to_string()])),
        ]
    );
}

#[test]
fn attributes_must_be_a_json_array() {
    assert_eq!(parse_additional_attributes(&None), Ok(None));
    assert_eq!(
        parse_additional_attributes(&Some("[1, \"two\"]".to_string())),
        Ok(Some(vec!["1".to_string(), "\"two\"".to_string()]))
    );
    let message = "additional_attributes_json must be a valid JSON array".to_string();
    assert_eq!(parse_additional_attributes(&Some("{\"a\":1}".to_string())), Err(message.clone()));
    let update = UpdateItemParams {
        guid: "G".to_string(),
        name: None,
        number: None,
        description: None,
        additional_attributes_json: Some("not json".to_string()),
    };
    assert_eq!(update_item(&update), Err(message));
}

#[test]
fn bom_lines_carry_their_quantity_as_a_number() {
    let request = create_bom_line(&CreateBomLineParams {
        item_guid: "P".to_string(),
        child_item_guid: "C".to_string(),
        quantity: Some("2.5".to_string()),
        ref_des: Some("R1".to_string()),
        notes: None,
    });
    assert_eq!(request.path, "/items/P/bom");
    assert_eq!(
        request.body.unwrap().fields,
        vec![
            field("item", BodyValue::GuidRef("C".to_string())),
            field("quantity", BodyValue::Raw("2.5".to_string())),
            field("refDes", BodyValue::Str("R1".to_string())),
        ]
    );
    let update = update_bom_line(&UpdateBomLineParams {
        item_guid: "P".to_string(),
        line_guid: "L".to_string(),
        quantity: None,
        ref_des: None,
        notes: Some("n".to_string()),
    });
    assert_eq!(update.method, HttpMethod::Put);
    assert_eq!(update.path, "/items/P/bom/L");
    assert_eq!(update.body.unwrap().fields, vec![field("notes", BodyValue::Str("n".to_string()))]);
    let delete = delete_bom_line(&DeleteBomLineParams { item_guid: "P".to_string(), line_guid: "L".to_string() });
    assert_eq!(delete.method, HttpMethod::Delete);
    assert_eq!(delete.path, "/items/P/bom/L");
}

#[test]
fn change_workflow_bodies() {
    let status = change_change_status(&ChangeChangeStatusParams {
        change_guid: "CH".to_string(),
        status: "SUBMITTED".to_string(),
        comment: None,
        force: Some(true),
    });
    assert_eq!(status.path, "/changes/statuschanges");
    assert_eq!(
        status.body.unwrap().fields,
        vec![
            field("change", BodyValue::GuidRef("CH".to_string())),
            field("lifecycleStatus", BodyValue::TypeRef("SUBMITTED".to_string())),
            field("force", BodyValue::Bool(true)),
        ]
    );
    let add = add_change_affected_item(&AddChangeAffectedItemParams {
        change_guid: "CH".to_string(),
        item_guid: "IT".to_string(),
        new_lifecycle_phase_guid: Some("PH".to_string()),
        new_revision_number: None,
    });
    assert_eq!(add.path, "/changes/CH/items");
    assert_eq!(
        add.body.unwrap().fields,
        vec![
            field("item", BodyValue::GuidRef("IT".to_string())),
            field("newLifecyclePhase", BodyValue::GuidRef("PH".to_string())),
        ]
    );
}

#[test]
fn api_answers() {
    assert_eq!(api_answer(204, HttpMethod::Delete, b"{\"a\": 1}"), Ok(None));
    assert_eq!(api_answer(200, HttpMethod::Delete, b""), Ok(None));
    assert_eq!(api_answer(200, HttpMethod::Delete, b"{ \"a\" : 1 }"), Ok(Some("{\"a\":1}".to_string())));
    assert_eq!(
        api_answer(200, HttpMethod::Delete, b"x"),
        Err("failed to deserialize Arena API response".to_string())
    );
    assert_eq!(api_answer(200, HttpMethod::Get, b"{ \"a\" : [1, 2] }"), Ok(Some("{\"a\":[1,2]}".to_string())));
    assert_eq!(api_answer(204, HttpMethod::Get, b""), Err("error decoding response body".to_string()));
    assert_eq!(api_answer(200, HttpMethod::Post, b"x"), Err("error decoding response body".to_string()));
    assert_eq!(answer_from(HttpMethod::Put, Some("1".to_string())), Ok(Some("1".to_string())));
    assert_eq!(answer_from(HttpMethod::Delete, None), Err("failed to deserialize Arena API response".to_string()));
}

#[test]
fn attributes_from_parsed_json() {
    assert_eq!(attributes_from(Some(vec!["1".to_string()])), Ok(Some(vec!["1".to_string()])));
    assert_eq!(
        attributes_from(None),
        Err("additional_attributes_json must be a valid JSON array".to_string())
    );
    assert_eq!(
        parse_additional_attributes(&Some("[ {\"a\": 1}, 2 ]".to_string())),
        Ok(Some(vec!["{\"a\":1}".to_string(), "2".to_string()]))
    );
}
