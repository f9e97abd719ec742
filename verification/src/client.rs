//! The requests behind each Arena operation: path, query and body, planned from the
//! operation's parameters before anything is sent.

use vstd::prelude::*;

use crate::request::{
    bare_request, body_request, concat2, concat3, concat4, concat5, empty_body, opt_field, opt_int_param, opt_param, opt_str, opt_guid, opt_raw, opt_bool, push_opt_guid, push_opt_raw, push_opt_bool, opt_view, owned, push_field, push_int_param, push_opt_str, push_param, query_request, query_view, ApiRequest, ApiRequestView, BodyValue, BodyValueView, FieldsView, HttpMethod, QueryView, RequestBody,
};
use crate::content::delete_answered_nothing;
use crate::session::undecodable_body_message;
use crate::text::{decimal_int, strings_of};
use crate::types::{
    AddChangeAffectedItemParams, ChangeChangeStatusParams, ChangeQualityStatusParams, ChangeRequestStatusParams, CreateBomLineParams, CreateChangeParams, CreateItemParams, CreateRequestParams, CreateSupplierParams, CreateTicketParams, ItemLifecyclePhaseChangeParams, UpdateBomLineParams, UpdateChangeParams, UpdateItemParams, UpdateRequestParams, UpdateSupplierParams,
    DeleteBomLineParams, RemoveChangeAffectedItemParams, SearchChangesParams, SearchFilesParams,
    SearchItemsParams, SearchQualityProcessesParams, SearchRequestsParams,
    SearchSupplierItemsParams, SearchSuppliersParams, SearchTicketsParams,
    SearchTrainingPlansParams,
};

verus! {

/// The message given when `additional_attributes_json` is not a JSON array.
pub open spec fn attributes_error_message() -> Seq<char> {
    "additional_attributes_json must be a valid JSON array"@
}

/// Names what serde_json makes of a text that should hold a JSON array: the JSON text of
/// each element as serde_json writes it back, or nothing when the text is not a JSON array.
pub uninterp spec fn json_array_elements(text: Seq<char>) -> Option<Seq<Seq<char>>>;

/// `serde_json::from_str::<Vec<serde_json::Value>>`, each element handed back as the
/// text `serde_json::Value::to_string` writes: the contract only names the result.
#[verifier::external_body]
fn parse_json_array(text: &str) -> (res: Option<Vec<String>>)
    ensures
        match res {
            Some(v) => json_array_elements(text@) == Some(strings_of(v@)),
            None => json_array_elements(text@) is None,
        },
{
    match serde_json::from_str::<Vec<serde_json::Value>>(text) {
        Ok(items) => Some(items.iter().map(|item| item.to_string()).collect()),
        Err(_) => None,
    }
}

/// What the additional attributes of a create or update become: nothing when no text is
/// given, the elements of the array when the text is a JSON array, and an error otherwise.
pub open spec fn attributes_spec(json: Option<Seq<char>>) -> Result<Option<Seq<Seq<char>>>, Seq<char>> {
    match json {
        None => Ok(None),
        Some(text) => match json_array_elements(text) {
            Some(elements) => Ok(Some(elements)),
            None => Err(attributes_error_message()),
        },
    }
}

/// The attributes of a create or update, given what serde_json made of the
/// `additional_attributes_json` text (the JSON texts of its elements, or `None` when it is
/// not a JSON array).
pub fn attributes_from(parsed: Option<Vec<String>>) -> (res: Result<Option<Vec<String>>, String>)
    ensures
        match parsed {
            Some(v) => res == Ok::<Option<Vec<String>>, String>(Some(v)),
            None => res matches Err(m) && m@ == attributes_error_message(),
        },
{
    match parsed {
        Some(v) => Ok(Some(v)),
        None => Err(owned("additional_attributes_json must be a valid JSON array")),
    }
}

/// Parses the optional `additional_attributes_json` text of a create or update.
pub fn parse_additional_attributes(json: &Option<String>) -> (res: Result<Option<Vec<String>>, String>)
    ensures
        match res {
            Ok(Some(v)) => attributes_spec(opt_view(*json)) == Ok::<_, Seq<char>>(Some(strings_of(v@))),
            Ok(None) => attributes_spec(opt_view(*json)) == Ok::<_, Seq<char>>(None::<Seq<Seq<char>>>),
            Err(e) => attributes_spec(opt_view(*json)) == Err::<Option<Seq<Seq<char>>>, _>(e@),
        },
{
    match json {
        None => Ok(None),
        Some(text) => attributes_from(parse_json_array(text.as_str())),
    }
}

/// The `additionalAttributes` field when attributes are given.
pub open spec fn attrs_field(attrs: Option<Seq<Seq<char>>>) -> FieldsView {
    match attrs {
        Some(v) => seq![("additionalAttributes"@, BodyValueView::RawArray(v))],
        None => seq![],
    }
}

pub open spec fn opt_strings_of(o: Option<Vec<String>>) -> Option<Seq<Seq<char>>> {
    match o {
        Some(v) => Some(strings_of(v@)),
        None => None,
    }
}

fn push_attrs(body: &mut RequestBody, attrs: Option<Vec<String>>)
    ensures
        final(body)@ == old(body)@ + attrs_field(opt_strings_of(attrs)),
{
    let ghost before = body@;
    match attrs {
        Some(v) => {
            let ghost vv = strings_of(v@);
            push_field(body, "additionalAttributes", BodyValue::RawArray(v));
            assert(body@ =~= before + attrs_field(Some(vv)));
        },
        None => {
            assert(body@ =~= before + attrs_field(None));
        },
    }
}

/// GET `/items/{guid}` with `responseview=full`: an item with full detail.
pub fn get_item(guid: &str) -> (res: ApiRequest)
    ensures
        res@ == (ApiRequestView {
            method: HttpMethod::Get,
            path: "/items/"@ + guid@,
            query: seq![("responseview"@, "full"@)],
            body: None,
        }),
{
    let mut query: Vec<(String, String)> = Vec::new();
    query.push((owned("responseview"), owned("full")));
    assert(query_view(query@) =~= seq![("responseview"@, "full"@)]);
    query_request(concat2("/items/", guid), query)
}

/// GET `/items/{guid}/sourcing`: the sourcing entries of an item.
pub fn get_item_sourcing(guid: &str) -> (res: ApiRequest)
    ensures
        res@ == (ApiRequestView { method: HttpMethod::Get, path: "/items/"@ + guid@ + "/sourcing"@, query: seq![], body: None }),
{
    bare_request(HttpMethod::Get, concat3("/items/", guid, "/sourcing"))
}

/// GET `/items/{guid}/compliance`: the compliance requirements of an item.
pub fn get_item_compliance(guid: &str) -> (res: ApiRequest)
    ensures
        res@ == (ApiRequestView { method: HttpMethod::Get, path: "/items/"@ + guid@ + "/compliance"@, query: seq![], body: None }),
{
    bare_request(HttpMethod::Get, concat3("/items/", guid, "/compliance"))
}

/// GET `/items/{guid}/references`: the references of an item.
pub fn get_item_references(guid: &str) -> (res: ApiRequest)
    ensures
        res@ == (ApiRequestView { method: HttpMethod::Get, path: "/items/"@ + guid@ + "/references"@, query: seq![], body: None }),
{
    bare_request(HttpMethod::Get, concat3("/items/", guid, "/references"))
}

/// GET `/items/{guid}/quality`: the quality processes of an item.
pub fn get_item_quality(guid: &str) -> (res: ApiRequest)
    ensures
        res@ == (ApiRequestView { method: HttpMethod::Get, path: "/items/"@ + guid@ + "/quality"@, query: seq![], body: None }),
{
    bare_request(HttpMethod::Get, concat3("/items/", guid, "/quality"))
}

/// GET `/items/{guid}/bom`: the bill of materials of an item.
pub fn get_bom(guid: &str) -> (res: ApiRequest)
    ensures
        res@ == (ApiRequestView { method: HttpMethod::Get, path: "/items/"@ + guid@ + "/bom"@, query: seq![], body: None }),
{
    bare_request(HttpMethod::Get, concat3("/items/", guid, "/bom"))
}

/// GET `/items/{guid}/whereused`: the assemblies that use an item.
pub fn get_where_used(guid: &str) -> (res: ApiRequest)
    ensures
        res@ == (ApiRequestView { method: HttpMethod::Get, path: "/items/"@ + guid@ + "/whereused"@, query: seq![], body: None }),
{
    bare_request(HttpMethod::Get, concat3("/items/", guid, "/whereused"))
}

/// GET `/changes/{guid}`: a change order.
pub fn get_change(guid: &str) -> (res: ApiRequest)
    ensures
        res@ == (ApiRequestView { method: HttpMethod::Get, path: "/changes/"@ + guid@, query: seq![], body: None }),
{
    bare_request(HttpMethod::Get, concat2("/changes/", guid))
}

/// GET `/changes/{guid}/items`: the affected items of a change order.
pub fn get_change_affected_items(guid: &str) -> (res: ApiRequest)
    ensures
        res@ == (ApiRequestView { method: HttpMethod::Get, path: "/changes/"@ + guid@ + "/items"@, query: seq![], body: None }),
{
    bare_request(HttpMethod::Get, concat3("/changes/", guid, "/items"))
}

/// GET `/changes/{guid}/files`: the files of a change order.
pub fn get_change_files(guid: &str) -> (res: ApiRequest)
    ensures
        res@ == (ApiRequestView { method: HttpMethod::Get, path: "/changes/"@ + guid@ + "/files"@, query: seq![], body: None }),
{
    bare_request(HttpMethod::Get, concat3("/changes/", guid, "/files"))
}

/// GET `/changes/{guid}/implementationstatuses`: the implementation statuses of a change order.
pub fn get_change_implementation_statuses(guid: &str) -> (res: ApiRequest)
    ensures
        res@ == (ApiRequestView { method: HttpMethod::Get, path: "/changes/"@ + guid@ + "/implementationstatuses"@, query: seq![], body: None }),
{
    bare_request(HttpMethod::Get, concat3("/changes/", guid, "/implementationstatuses"))
}

/// GET `/items/{guid}/revisions`: the revisions of an item.
pub fn get_item_revisions(guid: &str) -> (res: ApiRequest)
    ensures
        res@ == (ApiRequestView { method: HttpMethod::Get, path: "/items/"@ + guid@ + "/revisions"@, query: seq![], body: None }),
{
    bare_request(HttpMethod::Get, concat3("/items/", guid, "/revisions"))
}

/// GET `/items/{guid}/files`: the files of an item.
pub fn get_item_files(guid: &str) -> (res: ApiRequest)
    ensures
        res@ == (ApiRequestView { method: HttpMethod::Get, path: "/items/"@ + guid@ + "/files"@, query: seq![], body: None }),
{
    bare_request(HttpMethod::Get, concat3("/items/", guid, "/files"))
}

/// GET `/files/{guid}`: a file.
pub fn get_file(guid: &str) -> (res: ApiRequest)
    ensures
        res@ == (ApiRequestView { method: HttpMethod::Get, path: "/files/"@ + guid@, query: seq![], body: None }),
{
    bare_request(HttpMethod::Get, concat2("/files/", guid))
}

/// GET `/requests/{guid}`: a change request.
pub fn get_request(guid: &str) -> (res: ApiRequest)
    ensures
        res@ == (ApiRequestView { method: HttpMethod::Get, path: "/requests/"@ + guid@, query: seq![], body: None }),
{
    bare_request(HttpMethod::Get, concat2("/requests/", guid))
}

/// GET `/requests/{guid}/items`: the items of a change request.
pub fn get_request_items(guid: &str) -> (res: ApiRequest)
    ensures
        res@ == (ApiRequestView { method: HttpMethod::Get, path: "/requests/"@ + guid@ + "/items"@, query: seq![], body: None }),
{
    bare_request(HttpMethod::Get, concat3("/requests/", guid, "/items"))
}

/// GET `/suppliers/{guid}`: a supplier.
pub fn get_supplier(guid: &str) -> (res: ApiRequest)
    ensures
        res@ == (ApiRequestView { method: HttpMethod::Get, path: "/suppliers/"@ + guid@, query: seq![], body: None }),
{
    bare_request(HttpMethod::Get, concat2("/suppliers/", guid))
}

/// GET `/qualityprocesses/{guid}`: a quality process.
pub fn get_quality_process(guid: &str) -> (res: ApiRequest)
    ensures
        res@ == (ApiRequestView { method: HttpMethod::Get, path: "/qualityprocesses/"@ + guid@, query: seq![], body: None }),
{
    bare_request(HttpMethod::Get, concat2("/qualityprocesses/", guid))
}

/// GET `/qualityprocesses/{guid}/steps`: the steps of a quality process.
pub fn get_quality_process_steps(guid: &str) -> (res: ApiRequest)
    ensures
        res@ == (ApiRequestView { method: HttpMethod::Get, path: "/qualityprocesses/"@ + guid@ + "/steps"@, query: seq![], body: None }),
{
    bare_request(HttpMethod::Get, concat3("/qualityprocesses/", guid, "/steps"))
}

/// GET `/tickets/{guid}`: a ticket.
pub fn get_ticket(guid: &str) -> (res: ApiRequest)
    ensures
        res@ == (ApiRequestView { method: HttpMethod::Get, path: "/tickets/"@ + guid@, query: seq![], body: None }),
{
    bare_request(HttpMethod::Get, concat2("/tickets/", guid))
}

/// GET `/trainingplans/{guid}`: a training plan.
pub fn get_training_plan(guid: &str) -> (res: ApiRequest)
    ensures
        res@ == (ApiRequestView { method: HttpMethod::Get, path: "/trainingplans/"@ + guid@, query: seq![], body: None }),
{
    bare_request(HttpMethod::Get, concat2("/trainingplans/", guid))
}

/// GET `/trainingplans/{guid}/records`: the training records of a training plan.
pub fn get_training_plan_records(guid: &str) -> (res: ApiRequest)
    ensures
        res@ == (ApiRequestView { method: HttpMethod::Get, path: "/trainingplans/"@ + guid@ + "/records"@, query: seq![], body: None }),
{
    bare_request(HttpMethod::Get, concat3("/trainingplans/", guid, "/records"))
}

/// GET `/items/{guid}/history`: the history of an item.
pub fn get_item_history(guid: &str) -> (res: ApiRequest)
    ensures
        res@ == (ApiRequestView { method: HttpMethod::Get, path: "/items/"@ + guid@ + "/history"@, query: seq![], body: None }),
{
    bare_request(HttpMethod::Get, concat3("/items/", guid, "/history"))
}

/// GET `/items/{guid}/future-changes`: the pending changes that will affect an item.
pub fn get_item_future_changes(guid: &str) -> (res: ApiRequest)
    ensures
        res@ == (ApiRequestView { method: HttpMethod::Get, path: "/items/"@ + guid@ + "/future-changes"@, query: seq![], body: None }),
{
    bare_request(HttpMethod::Get, concat3("/items/", guid, "/future-changes"))
}

/// GET `/items/{guid}/thumbnail`: the thumbnail image of an item.
pub fn get_item_thumbnail(guid: &str) -> (res: ApiRequest)
    ensures
        res@ == (ApiRequestView { method: HttpMethod::Get, path: "/items/"@ + guid@ + "/thumbnail"@, query: seq![], body: None }),
{
    bare_request(HttpMethod::Get, concat3("/items/", guid, "/thumbnail"))
}

/// GET `/changes/{guid}/history`: the history of a change order.
pub fn get_change_history(guid: &str) -> (res: ApiRequest)
    ensures
        res@ == (ApiRequestView { method: HttpMethod::Get, path: "/changes/"@ + guid@ + "/history"@, query: seq![], body: None }),
{
    bare_request(HttpMethod::Get, concat3("/changes/", guid, "/history"))
}

/// GET `/changes/{guid}/alerts`: the alerts of a change order.
pub fn get_change_alerts(guid: &str) -> (res: ApiRequest)
    ensures
        res@ == (ApiRequestView { method: HttpMethod::Get, path: "/changes/"@ + guid@ + "/alerts"@, query: seq![], body: None }),
{
    bare_request(HttpMethod::Get, concat3("/changes/", guid, "/alerts"))
}

/// GET `/changes/{guid}/implementation-tasks`: the implementation tasks of a change order.
pub fn get_change_implementation_tasks(guid: &str) -> (res: ApiRequest)
    ensures
        res@ == (ApiRequestView { method: HttpMethod::Get, path: "/changes/"@ + guid@ + "/implementation-tasks"@, query: seq![], body: None }),
{
    bare_request(HttpMethod::Get, concat3("/changes/", guid, "/implementation-tasks"))
}

/// GET `/files/{guid}/content`: the content of a file.
pub fn get_file_content(guid: &str) -> (res: ApiRequest)
    ensures
        res@ == (ApiRequestView { method: HttpMethod::Get, path: "/files/"@ + guid@ + "/content"@, query: seq![], body: None }),
{
    bare_request(HttpMethod::Get, concat3("/files/", guid, "/content"))
}

/// GET `/requests/{guid}/files`: the files of a change request.
pub fn get_request_files(guid: &str) -> (res: ApiRequest)
    ensures
        res@ == (ApiRequestView { method: HttpMethod::Get, path: "/requests/"@ + guid@ + "/files"@, query: seq![], body: None }),
{
    bare_request(HttpMethod::Get, concat3("/requests/", guid, "/files"))
}

/// GET `/requests/{guid}/changes`: the changes linked to a change request.
pub fn get_request_changes(guid: &str) -> (res: ApiRequest)
    ensures
        res@ == (ApiRequestView { method: HttpMethod::Get, path: "/requests/"@ + guid@ + "/changes"@, query: seq![], body: None }),
{
    bare_request(HttpMethod::Get, concat3("/requests/", guid, "/changes"))
}

/// GET `/supplieritems/{guid}`: a supplier item.
pub fn get_supplier_item(guid: &str) -> (res: ApiRequest)
    ensures
        res@ == (ApiRequestView { method: HttpMethod::Get, path: "/supplieritems/"@ + guid@, query: seq![], body: None }),
{
    bare_request(HttpMethod::Get, concat2("/supplieritems/", guid))
}

/// GET `/suppliers/{guid}/addresses`: the addresses of a supplier.
pub fn get_supplier_addresses(guid: &str) -> (res: ApiRequest)
    ensures
        res@ == (ApiRequestView { method: HttpMethod::Get, path: "/suppliers/"@ + guid@ + "/addresses"@, query: seq![], body: None }),
{
    bare_request(HttpMethod::Get, concat3("/suppliers/", guid, "/addresses"))
}

/// GET `/suppliers/{guid}/phone-numbers`: the phone numbers of a supplier.
pub fn get_supplier_phone_numbers(guid: &str) -> (res: ApiRequest)
    ensures
        res@ == (ApiRequestView { method: HttpMethod::Get, path: "/suppliers/"@ + guid@ + "/phone-numbers"@, query: seq![], body: None }),
{
    bare_request(HttpMethod::Get, concat3("/suppliers/", guid, "/phone-numbers"))
}

/// GET `/suppliers/{guid}/files`: the files of a supplier.
pub fn get_supplier_files(guid: &str) -> (res: ApiRequest)
    ensures
        res@ == (ApiRequestView { method: HttpMethod::Get, path: "/suppliers/"@ + guid@ + "/files"@, query: seq![], body: None }),
{
    bare_request(HttpMethod::Get, concat3("/suppliers/", guid, "/files"))
}

/// GET `/suppliers/{guid}/approval-status`: the approval status of a supplier.
pub fn get_supplier_approval_status(guid: &str) -> (res: ApiRequest)
    ensures
        res@ == (ApiRequestView { method: HttpMethod::Get, path: "/suppliers/"@ + guid@ + "/approval-status"@, query: seq![], body: None }),
{
    bare_request(HttpMethod::Get, concat3("/suppliers/", guid, "/approval-status"))
}

/// GET `/supplieritems/{guid}/files`: the files of a supplier item.
pub fn get_supplier_item_files(guid: &str) -> (res: ApiRequest)
    ensures
        res@ == (ApiRequestView { method: HttpMethod::Get, path: "/supplieritems/"@ + guid@ + "/files"@, query: seq![], body: None }),
{
    bare_request(HttpMethod::Get, concat3("/supplieritems/", guid, "/files"))
}

/// GET `/supplieritems/{guid}/compliance`: the compliance requirements of a supplier item.
pub fn get_supplier_item_compliance(guid: &str) -> (res: ApiRequest)
    ensures
        res@ == (ApiRequestView { method: HttpMethod::Get, path: "/supplieritems/"@ + guid@ + "/compliance"@, query: seq![], body: None }),
{
    bare_request(HttpMethod::Get, concat3("/supplieritems/", guid, "/compliance"))
}

/// GET `/supplieritems/{guid}/sourcing`: the sourcing of a supplier item.
pub fn get_supplier_item_sourcing(guid: &str) -> (res: ApiRequest)
    ensures
        res@ == (ApiRequestView { method: HttpMethod::Get, path: "/supplieritems/"@ + guid@ + "/sourcing"@, query: seq![], body: None }),
{
    bare_request(HttpMethod::Get, concat3("/supplieritems/", guid, "/sourcing"))
}

/// GET `/tickets/{guid}/items`: the items of a ticket.
pub fn get_ticket_items(guid: &str) -> (res: ApiRequest)
    ensures
        res@ == (ApiRequestView { method: HttpMethod::Get, path: "/tickets/"@ + guid@ + "/items"@, query: seq![], body: None }),
{
    bare_request(HttpMethod::Get, concat3("/tickets/", guid, "/items"))
}

/// GET `/tickets/{guid}/changes`: the changes of a ticket.
pub fn get_ticket_changes(guid: &str) -> (res: ApiRequest)
    ensures
        res@ == (ApiRequestView { method: HttpMethod::Get, path: "/tickets/"@ + guid@ + "/changes"@, query: seq![], body: None }),
{
    bare_request(HttpMethod::Get, concat3("/tickets/", guid, "/changes"))
}

/// GET `/tickets/{guid}/files`: the files of a ticket.
pub fn get_ticket_files(guid: &str) -> (res: ApiRequest)
    ensures
        res@ == (ApiRequestView { method: HttpMethod::Get, path: "/tickets/"@ + guid@ + "/files"@, query: seq![], body: None }),
{
    bare_request(HttpMethod::Get, concat3("/tickets/", guid, "/files"))
}

/// GET `/trainingplans/{guid}/users`: the users of a training plan.
pub fn get_training_plan_users(guid: &str) -> (res: ApiRequest)
    ensures
        res@ == (ApiRequestView { method: HttpMethod::Get, path: "/trainingplans/"@ + guid@ + "/users"@, query: seq![], body: None }),
{
    bare_request(HttpMethod::Get, concat3("/trainingplans/", guid, "/users"))
}

/// GET `/trainingplans/{guid}/items`: the items of a training plan.
pub fn get_training_plan_items(guid: &str) -> (res: ApiRequest)
    ensures
        res@ == (ApiRequestView { method: HttpMethod::Get, path: "/trainingplans/"@ + guid@ + "/items"@, query: seq![], body: None }),
{
    bare_request(HttpMethod::Get, concat3("/trainingplans/", guid, "/items"))
}

/// GET `/trainingplans/{guid}/files`: the files of a training plan.
pub fn get_training_plan_files(guid: &str) -> (res: ApiRequest)
    ensures
        res@ == (ApiRequestView { method: HttpMethod::Get, path: "/trainingplans/"@ + guid@ + "/files"@, query: seq![], body: None }),
{
    bare_request(HttpMethod::Get, concat3("/trainingplans/", guid, "/files"))
}

/// GET `/settings/changes/categories/{guid}/attributes`: the attributes of a change category.
pub fn get_change_category_attributes(guid: &str) -> (res: ApiRequest)
    ensures
        res@ == (ApiRequestView { method: HttpMethod::Get, path: "/settings/changes/categories/"@ + guid@ + "/attributes"@, query: seq![], body: None }),
{
    bare_request(HttpMethod::Get, concat3("/settings/changes/categories/", guid, "/attributes"))
}

/// GET `/settings/changes/categories/{guid}/routings`: the routings of a change category.
pub fn get_change_category_routings(guid: &str) -> (res: ApiRequest)
    ensures
        res@ == (ApiRequestView { method: HttpMethod::Get, path: "/settings/changes/categories/"@ + guid@ + "/routings"@, query: seq![], body: None }),
{
    bare_request(HttpMethod::Get, concat3("/settings/changes/categories/", guid, "/routings"))
}

/// GET `/settings/users/{guid}`: a workspace user.
pub fn get_user(guid: &str) -> (res: ApiRequest)
    ensures
        res@ == (ApiRequestView { method: HttpMethod::Get, path: "/settings/users/"@ + guid@, query: seq![], body: None }),
{
    bare_request(HttpMethod::Get, concat2("/settings/users/", guid))
}

/// GET `/items/{item_guid}/files/{file_guid}/content`: the content of a file of an item.
pub fn get_item_file_content(item_guid: &str, file_guid: &str) -> (res: ApiRequest)
    ensures
        res@ == (ApiRequestView { method: HttpMethod::Get, path: "/items/"@ + item_guid@ + "/files/"@ + file_guid@ + "/content"@, query: seq![], body: None }),
{
    bare_request(HttpMethod::Get, concat5("/items/", item_guid, "/files/", file_guid, "/content"))
}

/// GET `/items/{item_guid}/bom/{bom_line_guid}/substitutes`: the substitutes of a line of a bill of materials.
pub fn get_bom_substitutes(item_guid: &str, bom_line_guid: &str) -> (res: ApiRequest)
    ensures
        res@ == (ApiRequestView { method: HttpMethod::Get, path: "/items/"@ + item_guid@ + "/bom/"@ + bom_line_guid@ + "/substitutes"@, query: seq![], body: None }),
{
    bare_request(HttpMethod::Get, concat5("/items/", item_guid, "/bom/", bom_line_guid, "/substitutes"))
}

/// GET `/changes/{change_guid}/implementation-tasks/{task_guid}`: an implementation task of a change order.
pub fn get_change_implementation_task(change_guid: &str, task_guid: &str) -> (res: ApiRequest)
    ensures
        res@ == (ApiRequestView { method: HttpMethod::Get, path: "/changes/"@ + change_guid@ + "/implementation-tasks/"@ + task_guid@, query: seq![], body: None }),
{
    bare_request(HttpMethod::Get, concat4("/changes/", change_guid, "/implementation-tasks/", task_guid))
}

/// GET `/changes/{change_guid}/implementation-tasks/{task_guid}/notes`: the notes of an implementation task.
pub fn get_implementation_task_notes(change_guid: &str, task_guid: &str) -> (res: ApiRequest)
    ensures
        res@ == (ApiRequestView { method: HttpMethod::Get, path: "/changes/"@ + change_guid@ + "/implementation-tasks/"@ + task_guid@ + "/notes"@, query: seq![], body: None }),
{
    bare_request(HttpMethod::Get, concat5("/changes/", change_guid, "/implementation-tasks/", task_guid, "/notes"))
}

/// GET `/qualityprocesses/{process_guid}/steps/{step_guid}`: a step of a quality process.
pub fn get_quality_process_step(process_guid: &str, step_guid: &str) -> (res: ApiRequest)
    ensures
        res@ == (ApiRequestView { method: HttpMethod::Get, path: "/qualityprocesses/"@ + process_guid@ + "/steps/"@ + step_guid@, query: seq![], body: None }),
{
    bare_request(HttpMethod::Get, concat4("/qualityprocesses/", process_guid, "/steps/", step_guid))
}

/// GET `/qualityprocesses/{process_guid}/steps/{step_guid}/decisions`: the decisions of a quality process step.
pub fn get_quality_step_decisions(process_guid: &str, step_guid: &str) -> (res: ApiRequest)
    ensures
        res@ == (ApiRequestView { method: HttpMethod::Get, path: "/qualityprocesses/"@ + process_guid@ + "/steps/"@ + step_guid@ + "/decisions"@, query: seq![], body: None }),
{
    bare_request(HttpMethod::Get, concat5("/qualityprocesses/", process_guid, "/steps/", step_guid, "/decisions"))
}

/// GET `/qualityprocesses/{process_guid}/steps/{step_guid}/objects`: the objects affected by a quality process step.
pub fn get_quality_step_affected_objects(process_guid: &str, step_guid: &str) -> (res: ApiRequest)
    ensures
        res@ == (ApiRequestView { method: HttpMethod::Get, path: "/qualityprocesses/"@ + process_guid@ + "/steps/"@ + step_guid@ + "/objects"@, query: seq![], body: None }),
{
    bare_request(HttpMethod::Get, concat5("/qualityprocesses/", process_guid, "/steps/", step_guid, "/objects"))
}

/// GET `/settings/items/lifecyclephases`: the lifecycle phases of the workspace.
pub fn get_lifecycle_phases() -> (res: ApiRequest)
    ensures
        res@ == (ApiRequestView { method: HttpMethod::Get, path: "/settings/items/lifecyclephases"@, query: seq![], body: None }),
{
    bare_request(HttpMethod::Get, owned("/settings/items/lifecyclephases"))
}

/// GET `/settings/items/categories`: the item categories of the workspace.
pub fn get_item_categories() -> (res: ApiRequest)
    ensures
        res@ == (ApiRequestView { method: HttpMethod::Get, path: "/settings/items/categories"@, query: seq![], body: None }),
{
    bare_request(HttpMethod::Get, owned("/settings/items/categories"))
}

/// GET `/settings/changes/categories`: the change categories of the workspace.
pub fn get_change_categories() -> (res: ApiRequest)
    ensures
        res@ == (ApiRequestView { method: HttpMethod::Get, path: "/settings/changes/categories"@, query: seq![], body: None }),
{
    bare_request(HttpMethod::Get, owned("/settings/changes/categories"))
}

/// GET `/settings/items/numberformats`: the item number formats of the workspace.
pub fn get_item_number_formats() -> (res: ApiRequest)
    ensures
        res@ == (ApiRequestView { method: HttpMethod::Get, path: "/settings/items/numberformats"@, query: seq![], body: None }),
{
    bare_request(HttpMethod::Get, owned("/settings/items/numberformats"))
}

/// GET `/settings/files/categories`: the file categories of the workspace.
pub fn get_file_categories() -> (res: ApiRequest)
    ensures
        res@ == (ApiRequestView { method: HttpMethod::Get, path: "/settings/files/categories"@, query: seq![], body: None }),
{
    bare_request(HttpMethod::Get, owned("/settings/files/categories"))
}

/// GET `/settings/requests/categories`: the request categories of the workspace.
pub fn get_request_categories() -> (res: ApiRequest)
    ensures
        res@ == (ApiRequestView { method: HttpMethod::Get, path: "/settings/requests/categories"@, query: seq![], body: None }),
{
    bare_request(HttpMethod::Get, owned("/settings/requests/categories"))
}

/// GET `/settings/items/attributes`: the item attribute definitions of the workspace.
pub fn get_item_attributes() -> (res: ApiRequest)
    ensures
        res@ == (ApiRequestView { method: HttpMethod::Get, path: "/settings/items/attributes"@, query: seq![], body: None }),
{
    bare_request(HttpMethod::Get, owned("/settings/items/attributes"))
}

/// GET `/settings/bom/attributes`: the bill of materials attribute definitions of the workspace.
pub fn get_bom_attributes() -> (res: ApiRequest)
    ensures
        res@ == (ApiRequestView { method: HttpMethod::Get, path: "/settings/bom/attributes"@, query: seq![], body: None }),
{
    bare_request(HttpMethod::Get, owned("/settings/bom/attributes"))
}

/// GET `/settings/users`: the users of the workspace.
pub fn get_users() -> (res: ApiRequest)
    ensures
        res@ == (ApiRequestView { method: HttpMethod::Get, path: "/settings/users"@, query: seq![], body: None }),
{
    bare_request(HttpMethod::Get, owned("/settings/users"))
}

/// GET `/settings/usergroups`: the user groups of the workspace.
pub fn get_user_groups() -> (res: ApiRequest)
    ensures
        res@ == (ApiRequestView { method: HttpMethod::Get, path: "/settings/usergroups"@, query: seq![], body: None }),
{
    bare_request(HttpMethod::Get, owned("/settings/usergroups"))
}

/// GET `/settings/recentactivities/apiusages`: the API usage log of the workspace.
pub fn get_api_usage() -> (res: ApiRequest)
    ensures
        res@ == (ApiRequestView { method: HttpMethod::Get, path: "/settings/recentactivities/apiusages"@, query: seq![], body: None }),
{
    bare_request(HttpMethod::Get, owned("/settings/recentactivities/apiusages"))
}

/// DELETE `/items/{guid}`: removes an item.
pub fn delete_item(guid: &str) -> (res: ApiRequest)
    ensures
        res@ == (ApiRequestView { method: HttpMethod::Delete, path: "/items/"@ + guid@, query: seq![], body: None }),
{
    bare_request(HttpMethod::Delete, concat2("/items/", guid))
}

/// DELETE `/items/{item_guid}/bom/{line_guid}`: removes a line of a bill of materials.
pub fn delete_bom_line(params: &DeleteBomLineParams) -> (res: ApiRequest)
    ensures
        res@ == (ApiRequestView {
            method: HttpMethod::Delete,
            path: "/items/"@ + params.item_guid@ + "/bom/"@ + params.line_guid@,
            query: seq![],
            body: None,
        }),
{
    bare_request(
        HttpMethod::Delete,
        concat4("/items/", params.item_guid.as_str(), "/bom/", params.line_guid.as_str()),
    )
}

/// DELETE `/changes/{change_guid}/items/{affected_item_guid}`: removes an affected item
/// from a change order.
pub fn remove_change_affected_item(params: &RemoveChangeAffectedItemParams) -> (res: ApiRequest)
    ensures
        res@ == (ApiRequestView {
            method: HttpMethod::Delete,
            path: "/changes/"@ + params.change_guid@ + "/items/"@ + params.affected_item_guid@,
            query: seq![],
            body: None,
        }),
{
    bare_request(
        HttpMethod::Delete,
        concat4("/changes/", params.change_guid.as_str(), "/items/", params.affected_item_guid.as_str()),
    )
}

/// The query of a search of items: each given filter in turn, then the offset and the limit.
pub open spec fn search_items_query(p: SearchItemsParams) -> QueryView {
    opt_param("number"@, opt_view(p.number))
        + opt_param("name"@, opt_view(p.name))
        + opt_param("description"@, opt_view(p.description))
        + opt_param("category.guid"@, opt_view(p.category_guid))
        + opt_param("lifecyclePhase.guid"@, opt_view(p.lifecycle_phase_guid))
        + opt_int_param("offset"@, p.offset)
        + opt_int_param("limit"@, p.limit)
}

proof fn lemma_items_query_filters(p: SearchItemsParams, x: (Seq<char>, Seq<char>))
    ensures
        search_items_query(p).contains(x) <==> opt_param("number"@, opt_view(p.number)).contains(x)
            || opt_param("name"@, opt_view(p.name)).contains(x) || opt_param(
            "description"@,
            opt_view(p.description),
        ).contains(x) || opt_param("category.guid"@, opt_view(p.category_guid)).contains(x)
            || opt_param("lifecyclePhase.guid"@, opt_view(p.lifecycle_phase_guid)).contains(x) || opt_int_param("offset"@, p.offset).contains(x)
            || opt_int_param("limit"@, p.limit).contains(x),
{
    let a = opt_param("number"@, opt_view(p.number));
    let b = opt_param("name"@, opt_view(p.name));
    let c = opt_param("description"@, opt_view(p.description));
    let d = opt_param("category.guid"@, opt_view(p.category_guid));
    let g = opt_param("lifecyclePhase.guid"@, opt_view(p.lifecycle_phase_guid));
    let e = opt_int_param("offset"@, p.offset);
    let f = opt_int_param("limit"@, p.limit);
    lemma_contains_add(a + b + c + d + g + e, f, x);
    lemma_contains_add(a + b + c + d + g, e, x);
    lemma_contains_add(a + b + c + d, g, x);
    lemma_contains_add(a + b + c, d, x);
    lemma_contains_add(a + b, c, x);
    lemma_contains_add(a, b, x);
}

proof fn lemma_in_item_filters(p: SearchItemsParams, x: (Seq<char>, Seq<char>))
    ensures
        opt_param("number"@, opt_view(p.number)).contains(x) <==> x.0 == "number"@ && opt_view(p.number)
            == Some(x.1),
        opt_param("name"@, opt_view(p.name)).contains(x) <==> x.0 == "name"@ && opt_view(p.name)
            == Some(x.1),
        opt_param("description"@, opt_view(p.description)).contains(x) <==> x.0 == "description"@
            && opt_view(p.description) == Some(x.1),
        opt_param("category.guid"@, opt_view(p.category_guid)).contains(x) <==> x.0 == "category.guid"@
            && opt_view(p.category_guid) == Some(x.1),
        opt_param("lifecyclePhase.guid"@, opt_view(p.lifecycle_phase_guid)).contains(x) <==> x.0
            == "lifecyclePhase.guid"@ && opt_view(p.lifecycle_phase_guid) == Some(x.1),
{
    lemma_in_opt_param("number"@, opt_view(p.number), x);
    lemma_in_opt_param("name"@, opt_view(p.name), x);
    lemma_in_opt_param("description"@, opt_view(p.description), x);
    lemma_in_opt_param("category.guid"@, opt_view(p.category_guid), x);
    lemma_in_opt_param("lifecyclePhase.guid"@, opt_view(p.lifecycle_phase_guid), x);
}

/// Each filter of an item search is sent under its own key: the query holds the pair
/// (`number`, v), (`name`, v), (`description`, v), (`category.guid`, v) or
/// (`lifecyclePhase.guid`, v) exactly when that filter was given as v; the offset and the
/// limit go under `offset` and `limit` in decimal.
pub proof fn law_search_items_filter_keys(p: SearchItemsParams, v: Seq<char>)
    ensures
        search_items_query(p).contains(("number"@, v)) <==> opt_view(p.number) == Some(v),
        search_items_query(p).contains(("name"@, v)) <==> opt_view(p.name) == Some(v),
        search_items_query(p).contains(("description"@, v)) <==> opt_view(p.description) == Some(v),
        search_items_query(p).contains(("category.guid"@, v)) <==> opt_view(p.category_guid) == Some(v),
        search_items_query(p).contains(("lifecyclePhase.guid"@, v)) <==> opt_view(p.lifecycle_phase_guid)
            == Some(v),
        search_items_query(p).contains(("offset"@, v)) <==> p.offset is Some && v == decimal_int(p.offset->0 as int),
        search_items_query(p).contains(("limit"@, v)) <==> p.limit is Some && v == decimal_int(p.limit->0 as int),
{
    reveal_strlit("number");
    reveal_strlit("name");
    reveal_strlit("description");
    reveal_strlit("category.guid");
    reveal_strlit("lifecyclePhase.guid");
    reveal_strlit("offset");
    reveal_strlit("limit");
    assert("offset"@[0] != "limit"@[0]);
    assert("number"@[1] != "name"@[1]);
    assert("number"@[0] != "description"@[0]);
    assert("number"@[0] != "category.guid"@[0]);
    assert("number"@[0] != "lifecyclePhase.guid"@[0]);
    assert("number"@[0] != "offset"@[0]);
    assert("number"@[0] != "limit"@[0]);
    assert("name"@[0] != "description"@[0]);
    assert("name"@[0] != "category.guid"@[0]);
    assert("name"@[0] != "lifecyclePhase.guid"@[0]);
    assert("name"@[0] != "offset"@[0]);
    assert("name"@[0] != "limit"@[0]);
    assert("description"@[0] != "category.guid"@[0]);
    assert("description"@[0] != "lifecyclePhase.guid"@[0]);
    assert("description"@[0] != "offset"@[0]);
    assert("description"@[0] != "limit"@[0]);
    assert("category.guid"@[0] != "lifecyclePhase.guid"@[0]);
    assert("category.guid"@[0] != "offset"@[0]);
    assert("category.guid"@[0] != "limit"@[0]);
    assert("lifecyclePhase.guid"@[0] != "offset"@[0]);
    assert("lifecyclePhase.guid"@[2] != "limit"@[2]);
    lemma_items_query_filters(p, ("number"@, v));
    lemma_items_query_filters(p, ("name"@, v));
    lemma_items_query_filters(p, ("description"@, v));
    lemma_items_query_filters(p, ("category.guid"@, v));
    lemma_items_query_filters(p, ("lifecyclePhase.guid"@, v));
    lemma_in_item_filters(p, ("number"@, v));
    lemma_in_item_filters(p, ("name"@, v));
    lemma_in_item_filters(p, ("description"@, v));
    lemma_in_item_filters(p, ("category.guid"@, v));
    lemma_in_item_filters(p, ("lifecyclePhase.guid"@, v));
    lemma_in_int_param("offset"@, p.offset, ("number"@, v));
    lemma_in_int_param("limit"@, p.limit, ("number"@, v));
    lemma_in_int_param("offset"@, p.offset, ("name"@, v));
    lemma_in_int_param("limit"@, p.limit, ("name"@, v));
    lemma_in_int_param("offset"@, p.offset, ("description"@, v));
    lemma_in_int_param("limit"@, p.limit, ("description"@, v));
    lemma_in_int_param("offset"@, p.offset, ("category.guid"@, v));
    lemma_in_int_param("limit"@, p.limit, ("category.guid"@, v));
    lemma_in_int_param("offset"@, p.offset, ("lifecyclePhase.guid"@, v));
    lemma_in_int_param("limit"@, p.limit, ("lifecyclePhase.guid"@, v));
    lemma_items_query_filters(p, ("offset"@, v));
    lemma_in_item_filters(p, ("offset"@, v));
    lemma_in_int_param("offset"@, p.offset, ("offset"@, v));
    lemma_in_int_param("limit"@, p.limit, ("offset"@, v));
    lemma_items_query_filters(p, ("limit"@, v));
    lemma_in_item_filters(p, ("limit"@, v));
    lemma_in_int_param("offset"@, p.offset, ("limit"@, v));
    lemma_in_int_param("limit"@, p.limit, ("limit"@, v));
}

/// GET `/items` with the given filters: a search of items.
pub fn search_items(params: &SearchItemsParams) -> (res: ApiRequest)
    ensures
        res@ == (ApiRequestView { method: HttpMethod::Get, path: "/items"@, query: search_items_query(*params), body: None }),
{
    let mut query: Vec<(String, String)> = Vec::new();
    assert(query_view(query@) =~= seq![]);
    push_param(&mut query, "number", &params.number);
    push_param(&mut query, "name", &params.name);
    push_param(&mut query, "description", &params.description);
    push_param(&mut query, "category.guid", &params.category_guid);
    push_param(&mut query, "lifecyclePhase.guid", &params.lifecycle_phase_guid);
    push_int_param(&mut query, "offset", params.offset);
    push_int_param(&mut query, "limit", params.limit);
    assert(query_view(query@) =~= search_items_query(*params));
    query_request(owned("/items"), query)
}

/// The query of a search of change orders: each given filter in turn, then the offset and the limit.
pub open spec fn search_changes_query(p: SearchChangesParams) -> QueryView {
    opt_param("number"@, opt_view(p.number))
        + opt_param("title"@, opt_view(p.title))
        + opt_param("lifecycleStatus.type"@, opt_view(p.lifecycle_status))
        + opt_param("implementationStatus"@, opt_view(p.implementation_status))
        + opt_int_param("offset"@, p.offset)
        + opt_int_param("limit"@, p.limit)
}

proof fn lemma_contains_add(a: QueryView, b: QueryView, x: (Seq<char>, Seq<char>))
    ensures
        (a + b).contains(x) <==> a.contains(x) || b.contains(x),
{
    if (a + b).contains(x) {
        let i = choose|i: int| 0 <= i < (a + b).len() && (a + b)[i] == x;
        if i < a.len() {
            assert(a[i] == x);
        } else {
            assert(b[i - a.len()] == x);
        }
    }
    if a.contains(x) {
        let i = choose|i: int| 0 <= i < a.len() && a[i] == x;
        assert((a + b)[i] == x);
    }
    if b.contains(x) {
        let i = choose|i: int| 0 <= i < b.len() && b[i] == x;
        assert((a + b)[a.len() + i] == x);
    }
}

proof fn lemma_in_opt_param(key: Seq<char>, value: Option<Seq<char>>, x: (Seq<char>, Seq<char>))
    ensures
        opt_param(key, value).contains(x) <==> value == Some(x.1) && x.0 == key,
{
    if value == Some(x.1) && x.0 == key {
        assert(opt_param(key, value)[0] == x);
    }
}

proof fn lemma_in_int_param(key: Seq<char>, value: Option<i64>, x: (Seq<char>, Seq<char>))
    ensures
        opt_int_param(key, value).contains(x) <==> value is Some && x == (key, decimal_int(value->0 as int)),
{
    if value is Some && x == (key, decimal_int(value->0 as int)) {
        assert(opt_int_param(key, value)[0] == x);
    }
}

proof fn lemma_changes_query_filters(p: SearchChangesParams, x: (Seq<char>, Seq<char>))
    ensures
        search_changes_query(p).contains(x) <==> opt_param("number"@, opt_view(p.number)).contains(x)
            || opt_param("title"@, opt_view(p.title)).contains(x) || opt_param(
            "lifecycleStatus.type"@,
            opt_view(p.lifecycle_status),
        ).contains(x) || opt_param("implementationStatus"@, opt_view(p.implementation_status)).contains(
            x,
        ) || opt_int_param("offset"@, p.offset).contains(x)
            || opt_int_param("limit"@, p.limit).contains(x),
{
    let a = opt_param("number"@, opt_view(p.number));
    let b = opt_param("title"@, opt_view(p.title));
    let c = opt_param("lifecycleStatus.type"@, opt_view(p.lifecycle_status));
    let d = opt_param("implementationStatus"@, opt_view(p.implementation_status));
    let e = opt_int_param("offset"@, p.offset);
    let f = opt_int_param("limit"@, p.limit);
    lemma_contains_add(a + b + c + d + e, f, x);
    lemma_contains_add(a + b + c + d, e, x);
    lemma_contains_add(a + b + c, d, x);
    lemma_contains_add(a + b, c, x);
    lemma_contains_add(a, b, x);
}

proof fn lemma_in_change_filters(p: SearchChangesParams, x: (Seq<char>, Seq<char>))
    ensures
        opt_param("number"@, opt_view(p.number)).contains(x) <==> x.0 == "number"@ && opt_view(p.number)
            == Some(x.1),
        opt_param("title"@, opt_view(p.title)).contains(x) <==> x.0 == "title"@ && opt_view(p.title)
            == Some(x.1),
        opt_param("lifecycleStatus.type"@, opt_view(p.lifecycle_status)).contains(x) <==> x.0
            == "lifecycleStatus.type"@ && opt_view(p.lifecycle_status) == Some(x.1),
        opt_param("implementationStatus"@, opt_view(p.implementation_status)).contains(x) <==> x.0
            == "implementationStatus"@ && opt_view(p.implementation_status) == Some(x.1),
{
    lemma_in_opt_param("number"@, opt_view(p.number), x);
    lemma_in_opt_param("title"@, opt_view(p.title), x);
    lemma_in_opt_param("lifecycleStatus.type"@, opt_view(p.lifecycle_status), x);
    lemma_in_opt_param("implementationStatus"@, opt_view(p.implementation_status), x);
}

/// Each filter of a change search is sent under its own key: the query holds the pair
/// (`number`, v), (`title`, v), (`lifecycleStatus.type`, v) or (`implementationStatus`, v)
/// exactly when that filter was given as v; the offset and the limit go under `offset` and
/// `limit` in decimal.
pub proof fn law_search_changes_filter_keys(p: SearchChangesParams, v: Seq<char>)
    ensures
        search_changes_query(p).contains(("number"@, v)) <==> opt_view(p.number) == Some(v),
        search_changes_query(p).contains(("title"@, v)) <==> opt_view(p.title) == Some(v),
        search_changes_query(p).contains(("lifecycleStatus.type"@, v)) <==> opt_view(p.lifecycle_status)
            == Some(v),
        search_changes_query(p).contains(("implementationStatus"@, v)) <==> opt_view(
            p.implementation_status,
        ) == Some(v),
        search_changes_query(p).contains(("offset"@, v)) <==> p.offset is Some && v == decimal_int(p.offset->0 as int),
        search_changes_query(p).contains(("limit"@, v)) <==> p.limit is Some && v == decimal_int(p.limit->0 as int),
{
    reveal_strlit("number");
    reveal_strlit("title");
    reveal_strlit("lifecycleStatus.type");
    reveal_strlit("implementationStatus");
    reveal_strlit("offset");
    reveal_strlit("limit");
    assert("offset"@[0] != "limit"@[0]);
    assert("number"@[0] != "offset"@[0]);
    assert("number"@ != "title"@);
    assert("number"@ != "lifecycleStatus.type"@);
    assert("number"@ != "implementationStatus"@);
    assert("title"@[0] != "limit"@[0]);
    assert("title"@ != "lifecycleStatus.type"@);
    assert("title"@ != "implementationStatus"@);
    assert("lifecycleStatus.type"@[0] != "implementationStatus"@[0]);
    assert("number"@ != "limit"@);
    assert("title"@ != "offset"@);
    assert("lifecycleStatus.type"@[0] != "offset"@[0]);
    assert("lifecycleStatus.type"@[2] != "limit"@[2]);
    assert("implementationStatus"@[0] != "offset"@[0]);
    assert("implementationStatus"@[0] != "limit"@[0]);
    lemma_changes_query_filters(p, ("number"@, v));
    lemma_changes_query_filters(p, ("title"@, v));
    lemma_changes_query_filters(p, ("lifecycleStatus.type"@, v));
    lemma_changes_query_filters(p, ("implementationStatus"@, v));
    lemma_in_change_filters(p, ("number"@, v));
    lemma_in_change_filters(p, ("title"@, v));
    lemma_in_change_filters(p, ("lifecycleStatus.type"@, v));
    lemma_in_change_filters(p, ("implementationStatus"@, v));
    lemma_in_int_param("offset"@, p.offset, ("number"@, v));
    lemma_in_int_param("limit"@, p.limit, ("number"@, v));
    lemma_in_int_param("offset"@, p.offset, ("title"@, v));
    lemma_in_int_param("limit"@, p.limit, ("title"@, v));
    lemma_in_int_param("offset"@, p.offset, ("lifecycleStatus.type"@, v));
    lemma_in_int_param("limit"@, p.limit, ("lifecycleStatus.type"@, v));
    lemma_in_int_param("offset"@, p.offset, ("implementationStatus"@, v));
    lemma_in_int_param("limit"@, p.limit, ("implementationStatus"@, v));
    lemma_changes_query_filters(p, ("offset"@, v));
    lemma_in_change_filters(p, ("offset"@, v));
    lemma_in_int_param("offset"@, p.offset, ("offset"@, v));
    lemma_in_int_param("limit"@, p.limit, ("offset"@, v));
    lemma_changes_query_filters(p, ("limit"@, v));
    lemma_in_change_filters(p, ("limit"@, v));
    lemma_in_int_param("offset"@, p.offset, ("limit"@, v));
    lemma_in_int_param("limit"@, p.limit, ("limit"@, v));
}

/// GET `/changes` with the given filters: a search of change orders.
pub fn search_changes(params: &SearchChangesParams) -> (res: ApiRequest)
    ensures
        res@ == (ApiRequestView { method: HttpMethod::Get, path: "/changes"@, query: search_changes_query(*params), body: None }),
{
    let mut query: Vec<(String, String)> = Vec::new();
    assert(query_view(query@) =~= seq![]);
    push_param(&mut query, "number", &params.number);
    push_param(&mut query, "title", &params.title);
    push_param(&mut query, "lifecycleStatus.type", &params.lifecycle_status);
    push_param(&mut query, "implementationStatus", &params.implementation_status);
    push_int_param(&mut query, "offset", params.offset);
    push_int_param(&mut query, "limit", params.limit);
    assert(query_view(query@) =~= search_changes_query(*params));
    query_request(owned("/changes"), query)
}

/// The query of a search of files: each given filter in turn, then the offset and the limit.
pub open spec fn search_files_query(p: SearchFilesParams) -> QueryView {
    opt_param("name"@, opt_view(p.name))
        + opt_param("category.guid"@, opt_view(p.category_guid))
        + opt_int_param("offset"@, p.offset)
        + opt_int_param("limit"@, p.limit)
}

/// GET `/files` with the given filters: a search of files.
pub fn search_files(params: &SearchFilesParams) -> (res: ApiRequest)
    ensures
        res@ == (ApiRequestView { method: HttpMethod::Get, path: "/files"@, query: search_files_query(*params), body: None }),
{
    let mut query: Vec<(String, String)> = Vec::new();
    assert(query_view(query@) =~= seq![]);
    push_param(&mut query, "name", &params.name);
    push_param(&mut query, "category.guid", &params.category_guid);
    push_int_param(&mut query, "offset", params.offset);
    push_int_param(&mut query, "limit", params.limit);
    assert(query_view(query@) =~= search_files_query(*params));
    query_request(owned("/files"), query)
}

/// The query of a search of change requests: each given filter in turn, then the offset and the limit.
pub open spec fn search_requests_query(p: SearchRequestsParams) -> QueryView {
    opt_param("number"@, opt_view(p.number))
        + opt_param("title"@, opt_view(p.title))
        + opt_param("lifecycleStatus.type"@, opt_view(p.lifecycle_status))
        + opt_int_param("offset"@, p.offset)
        + opt_int_param("limit"@, p.limit)
}

/// GET `/requests` with the given filters: a search of change requests.
pub fn search_requests(params: &SearchRequestsParams) -> (res: ApiRequest)
    ensures
        res@ == (ApiRequestView { method: HttpMethod::Get, path: "/requests"@, query: search_requests_query(*params), body: None }),
{
    let mut query: Vec<(String, String)> = Vec::new();
    assert(query_view(query@) =~= seq![]);
    push_param(&mut query, "number", &params.number);
    push_param(&mut query, "title", &params.title);
    push_param(&mut query, "lifecycleStatus.type", &params.lifecycle_status);
    push_int_param(&mut query, "offset", params.offset);
    push_int_param(&mut query, "limit", params.limit);
    assert(query_view(query@) =~= search_requests_query(*params));
    query_request(owned("/requests"), query)
}

/// The query of a search of suppliers: each given filter in turn, then the offset and the limit.
pub open spec fn search_suppliers_query(p: SearchSuppliersParams) -> QueryView {
    opt_param("name"@, opt_view(p.name))
        + opt_int_param("offset"@, p.offset)
        + opt_int_param("limit"@, p.limit)
}

/// GET `/suppliers` with the given filters: a search of suppliers.
pub fn search_suppliers(params: &SearchSuppliersParams) -> (res: ApiRequest)
    ensures
        res@ == (ApiRequestView { method: HttpMethod::Get, path: "/suppliers"@, query: search_suppliers_query(*params), body: None }),
{
    let mut query: Vec<(String, String)> = Vec::new();
    assert(query_view(query@) =~= seq![]);
    push_param(&mut query, "name", &params.name);
    push_int_param(&mut query, "offset", params.offset);
    push_int_param(&mut query, "limit", params.limit);
    assert(query_view(query@) =~= search_suppliers_query(*params));
    query_request(owned("/suppliers"), query)
}

/// The query of a search of supplier items: each given filter in turn, then the offset and the limit.
pub open spec fn search_supplier_items_query(p: SearchSupplierItemsParams) -> QueryView {
    opt_param("supplier.guid"@, opt_view(p.supplier_guid))
        + opt_int_param("offset"@, p.offset)
        + opt_int_param("limit"@, p.limit)
}

/// GET `/supplieritems` with the given filters: a search of supplier items.
pub fn search_supplier_items(params: &SearchSupplierItemsParams) -> (res: ApiRequest)
    ensures
        res@ == (ApiRequestView { method: HttpMethod::Get, path: "/supplieritems"@, query: search_supplier_items_query(*params), body: None }),
{
    let mut query: Vec<(String, String)> = Vec::new();
    assert(query_view(query@) =~= seq![]);
    push_param(&mut query, "supplier.guid", &params.supplier_guid);
    push_int_param(&mut query, "offset", params.offset);
    push_int_param(&mut query, "limit", params.limit);
    assert(query_view(query@) =~= search_supplier_items_query(*params));
    query_request(owned("/supplieritems"), query)
}

/// The query of a search of quality processes: each given filter in turn, then the offset and the limit.
pub open spec fn search_quality_processes_query(p: SearchQualityProcessesParams) -> QueryView {
    opt_param("number"@, opt_view(p.number))
        + opt_param("name"@, opt_view(p.name))
        + opt_param("status"@, opt_view(p.status))
        + opt_int_param("offset"@, p.offset)
        + opt_int_param("limit"@, p.limit)
}

/// GET `/qualityprocesses` with the given filters: a search of quality processes.
pub fn search_quality_processes(params: &SearchQualityProcessesParams) -> (res: ApiRequest)
    ensures
        res@ == (ApiRequestView { method: HttpMethod::Get, path: "/qualityprocesses"@, query: search_quality_processes_query(*params), body: None }),
{
    let mut query: Vec<(String, String)> = Vec::new();
    assert(query_view(query@) =~= seq![]);
    push_param(&mut query, "number", &params.number);
    push_param(&mut query, "name", &params.name);
    push_param(&mut query, "status", &params.status);
    push_int_param(&mut query, "offset", params.offset);
    push_int_param(&mut query, "limit", params.limit);
    assert(query_view(query@) =~= search_quality_processes_query(*params));
    query_request(owned("/qualityprocesses"), query)
}

/// The query of a search of tickets: each given filter in turn, then the offset and the limit.
pub open spec fn search_tickets_query(p: SearchTicketsParams) -> QueryView {
    opt_param("number"@, opt_view(p.number))
        + opt_param("title"@, opt_view(p.title))
        + opt_int_param("offset"@, p.offset)
        + opt_int_param("limit"@, p.limit)
}

/// GET `/tickets` with the given filters: a search of tickets.
pub fn search_tickets(params: &SearchTicketsParams) -> (res: ApiRequest)
    ensures
        res@ == (ApiRequestView { method: HttpMethod::Get, path: "/tickets"@, query: search_tickets_query(*params), body: None }),
{
    let mut query: Vec<(String, String)> = Vec::new();
    assert(query_view(query@) =~= seq![]);
    push_param(&mut query, "number", &params.number);
    push_param(&mut query, "title", &params.title);
    push_int_param(&mut query, "offset", params.offset);
    push_int_param(&mut query, "limit", params.limit);
    assert(query_view(query@) =~= search_tickets_query(*params));
    query_request(owned("/tickets"), query)
}

/// The query of a search of training plans: each given filter in turn, then the offset and the limit.
pub open spec fn search_training_plans_query(p: SearchTrainingPlansParams) -> QueryView {
    opt_param("number"@, opt_view(p.number))
        + opt_param("name"@, opt_view(p.name))
        + opt_int_param("offset"@, p.offset)
        + opt_int_param("limit"@, p.limit)
}

/// GET `/trainingplans` with the given filters: a search of training plans.
pub fn search_training_plans(params: &SearchTrainingPlansParams) -> (res: ApiRequest)
    ensures
        res@ == (ApiRequestView { method: HttpMethod::Get, path: "/trainingplans"@, query: search_training_plans_query(*params), body: None }),
{
    let mut query: Vec<(String, String)> = Vec::new();
    assert(query_view(query@) =~= seq![]);
    push_param(&mut query, "number", &params.number);
    push_param(&mut query, "name", &params.name);
    push_int_param(&mut query, "offset", params.offset);
    push_int_param(&mut query, "limit", params.limit);
    assert(query_view(query@) =~= search_training_plans_query(*params));
    query_request(owned("/trainingplans"), query)
}

/// The body of a new item.
pub open spec fn create_item_fields(p: CreateItemParams, attrs: Option<Seq<Seq<char>>>) -> FieldsView {
    seq![("name"@, BodyValueView::Str(p.name@)), ("category"@, BodyValueView::GuidRef(p.category_guid@))]
        + opt_field("number"@, opt_str(p.number))
        + opt_field("description"@, opt_str(p.description))
        + attrs_field(attrs)
}

/// POST a new item: fails when `additional_attributes_json` is not a JSON array.
pub fn create_item(params: &CreateItemParams) -> (res: Result<ApiRequest, String>)
    ensures
        match attributes_spec(opt_view(params.additional_attributes_json)) {
            Err(e) => res matches Err(m) && m@ == e,
            Ok(attrs) => res matches Ok(r) && r@ == (ApiRequestView { method: HttpMethod::Post, path: "/items"@, query: seq![], body: Some(create_item_fields(*params, attrs)) }),
        },
{
    let attrs = match parse_additional_attributes(&params.additional_attributes_json) {
        Ok(a) => a,
        Err(e) => return Err(e),
    };
    let ghost attrs_view = opt_strings_of(attrs);
    let mut body = empty_body();
    push_field(&mut body, "name", BodyValue::Str(params.name.clone()));
    push_field(&mut body, "category", BodyValue::GuidRef(params.category_guid.clone()));
    push_opt_str(&mut body, "number", &params.number);
    push_opt_str(&mut body, "description", &params.description);
    push_attrs(&mut body, attrs);
    assert(body@ =~= create_item_fields(*params, attrs_view));
    Ok(body_request(HttpMethod::Post, owned("/items"), body))
}

/// The body of changes to an item.
pub open spec fn update_item_fields(p: UpdateItemParams, attrs: Option<Seq<Seq<char>>>) -> FieldsView {
    opt_field("name"@, opt_str(p.name))
        + opt_field("number"@, opt_str(p.number))
        + opt_field("description"@, opt_str(p.description))
        + attrs_field(attrs)
}

/// PUT changes to an item: fails when `additional_attributes_json` is not a JSON array.
pub fn update_item(params: &UpdateItemParams) -> (res: Result<ApiRequest, String>)
    ensures
        match attributes_spec(opt_view(params.additional_attributes_json)) {
            Err(e) => res matches Err(m) && m@ == e,
            Ok(attrs) => res matches Ok(r) && r@ == (ApiRequestView { method: HttpMethod::Put, path: "/items/"@ + params.guid@, query: seq![], body: Some(update_item_fields(*params, attrs)) }),
        },
{
    let attrs = match parse_additional_attributes(&params.additional_attributes_json) {
        Ok(a) => a,
        Err(e) => return Err(e),
    };
    let ghost attrs_view = opt_strings_of(attrs);
    let mut body = empty_body();
    push_opt_str(&mut body, "name", &params.name);
    push_opt_str(&mut body, "number", &params.number);
    push_opt_str(&mut body, "description", &params.description);
    push_attrs(&mut body, attrs);
    assert(body@ =~= update_item_fields(*params, attrs_view));
    Ok(body_request(HttpMethod::Put, concat2("/items/", params.guid.as_str()), body))
}

/// The body of a lifecycle phase change of an item.
pub open spec fn item_lifecycle_phase_change_fields(p: ItemLifecyclePhaseChangeParams) -> FieldsView {
    seq![("item"@, BodyValueView::GuidRef(p.item_guid@)), ("lifecyclePhase"@, BodyValueView::GuidRef(p.lifecycle_phase_guid@))]
        + opt_field("comment"@, opt_str(p.comment))
}

/// POST a lifecycle phase change of an item.
pub fn item_lifecycle_phase_change(params: &ItemLifecyclePhaseChangeParams) -> (res: ApiRequest)
    ensures
        res@ == (ApiRequestView { method: HttpMethod::Post, path: "/items/lifecyclephasechanges"@, query: seq![], body: Some(item_lifecycle_phase_change_fields(*params)) }),
{
    let mut body = empty_body();
    push_field(&mut body, "item", BodyValue::GuidRef(params.item_guid.clone()));
    push_field(&mut body, "lifecyclePhase", BodyValue::GuidRef(params.lifecycle_phase_guid.clone()));
    push_opt_str(&mut body, "comment", &params.comment);
    assert(body@ =~= item_lifecycle_phase_change_fields(*params));
    body_request(HttpMethod::Post, owned("/items/lifecyclephasechanges"), body)
}

/// The body of a new line of a bill of materials.
pub open spec fn create_bom_line_fields(p: CreateBomLineParams) -> FieldsView {
    seq![("item"@, BodyValueView::GuidRef(p.child_item_guid@))]
        + opt_field("quantity"@, opt_raw(p.quantity))
        + opt_field("refDes"@, opt_str(p.ref_des))
        + opt_field("notes"@, opt_str(p.notes))
}

/// POST a new line of a bill of materials.
pub fn create_bom_line(params: &CreateBomLineParams) -> (res: ApiRequest)
    ensures
        res@ == (ApiRequestView { method: HttpMethod::Post, path: "/items/"@ + params.item_guid@ + "/bom"@, query: seq![], body: Some(create_bom_line_fields(*params)) }),
{
    let mut body = empty_body();
    push_field(&mut body, "item", BodyValue::GuidRef(params.child_item_guid.clone()));
    push_opt_raw(&mut body, "quantity", &params.quantity);
    push_opt_str(&mut body, "refDes", &params.ref_des);
    push_opt_str(&mut body, "notes", &params.notes);
    assert(body@ =~= create_bom_line_fields(*params));
    body_request(HttpMethod::Post, concat3("/items/", params.item_guid.as_str(), "/bom"), body)
}

/// The body of changes to a line of a bill of materials.
pub open spec fn update_bom_line_fields(p: UpdateBomLineParams) -> FieldsView {
    opt_field("quantity"@, opt_raw(p.quantity))
        + opt_field("refDes"@, opt_str(p.ref_des))
        + opt_field("notes"@, opt_str(p.notes))
}

/// PUT changes to a line of a bill of materials.
pub fn update_bom_line(params: &UpdateBomLineParams) -> (res: ApiRequest)
    ensures
        res@ == (ApiRequestView { method: HttpMethod::Put, path: "/items/"@ + params.item_guid@ + "/bom/"@ + params.line_guid@, query: seq![], body: Some(update_bom_line_fields(*params)) }),
{
    let mut body = empty_body();
    push_opt_raw(&mut body, "quantity", &params.quantity);
    push_opt_str(&mut body, "refDes", &params.ref_des);
    push_opt_str(&mut body, "notes", &params.notes);
    assert(body@ =~= update_bom_line_fields(*params));
    body_request(HttpMethod::Put, concat4("/items/", params.item_guid.as_str(), "/bom/", params.line_guid.as_str()), body)
}

/// The body of a new change order.
pub open spec fn create_change_fields(p: CreateChangeParams, attrs: Option<Seq<Seq<char>>>) -> FieldsView {
    opt_field("title"@, opt_str(p.title))
        + opt_field("category"@, opt_guid(p.category_guid))
        + opt_field("description"@, opt_str(p.description))
        + attrs_field(attrs)
}

/// POST a new change order: fails when `additional_attributes_json` is not a JSON array.
pub fn create_change(params: &CreateChangeParams) -> (res: Result<ApiRequest, String>)
    ensures
        match attributes_spec(opt_view(params.additional_attributes_json)) {
            Err(e) => res matches Err(m) && m@ == e,
            Ok(attrs) => res matches Ok(r) && r@ == (ApiRequestView { method: HttpMethod::Post, path: "/changes"@, query: seq![], body: Some(create_change_fields(*params, attrs)) }),
        },
{
    let attrs = match parse_additional_attributes(&params.additional_attributes_json) {
        Ok(a) => a,
        Err(e) => return Err(e),
    };
    let ghost attrs_view = opt_strings_of(attrs);
    let mut body = empty_body();
    push_opt_str(&mut body, "title", &params.title);
    push_opt_guid(&mut body, "category", &params.category_guid);
    push_opt_str(&mut body, "description", &params.description);
    push_attrs(&mut body, attrs);
    assert(body@ =~= create_change_fields(*params, attrs_view));
    Ok(body_request(HttpMethod::Post, owned("/changes"), body))
}

/// The body of changes to a change order.
pub open spec fn update_change_fields(p: UpdateChangeParams, attrs: Option<Seq<Seq<char>>>) -> FieldsView {
    opt_field("title"@, opt_str(p.title))
        + opt_field("description"@, opt_str(p.description))
        + attrs_field(attrs)
}

/// PUT changes to a change order: fails when `additional_attributes_json` is not a JSON array.
pub fn update_change(params: &UpdateChangeParams) -> (res: Result<ApiRequest, String>)
    ensures
        match attributes_spec(opt_view(params.additional_attributes_json)) {
            Err(e) => res matches Err(m) && m@ == e,
            Ok(attrs) => res matches Ok(r) && r@ == (ApiRequestView { method: HttpMethod::Put, path: "/changes/"@ + params.guid@, query: seq![], body: Some(update_change_fields(*params, attrs)) }),
        },
{
    let attrs = match parse_additional_attributes(&params.additional_attributes_json) {
        Ok(a) => a,
        Err(e) => return Err(e),
    };
    let ghost attrs_view = opt_strings_of(attrs);
    let mut body = empty_body();
    push_opt_str(&mut body, "title", &params.title);
    push_opt_str(&mut body, "description", &params.description);
    push_attrs(&mut body, attrs);
    assert(body@ =~= update_change_fields(*params, attrs_view));
    Ok(body_request(HttpMethod::Put, concat2("/changes/", params.guid.as_str()), body))
}

/// The body of a lifecycle status change of a change order.
pub open spec fn change_change_status_fields(p: ChangeChangeStatusParams) -> FieldsView {
    seq![("change"@, BodyValueView::GuidRef(p.change_guid@)), ("lifecycleStatus"@, BodyValueView::TypeRef(p.status@))]
        + opt_field("comment"@, opt_str(p.comment))
        + opt_field("force"@, opt_bool(p.force))
}

/// POST a lifecycle status change of a change order.
pub fn change_change_status(params: &ChangeChangeStatusParams) -> (res: ApiRequest)
    ensures
        res@ == (ApiRequestView { method: HttpMethod::Post, path: "/changes/statuschanges"@, query: seq![], body: Some(change_change_status_fields(*params)) }),
{
    let mut body = empty_body();
    push_field(&mut body, "change", BodyValue::GuidRef(params.change_guid.clone()));
    push_field(&mut body, "lifecycleStatus", BodyValue::TypeRef(params.status.clone()));
    push_opt_str(&mut body, "comment", &params.comment);
    push_opt_bool(&mut body, "force", params.force);
    assert(body@ =~= change_change_status_fields(*params));
    body_request(HttpMethod::Post, owned("/changes/statuschanges"), body)
}

/// The body of an item added to a change order.
pub open spec fn add_change_affected_item_fields(p: AddChangeAffectedItemParams) -> FieldsView {
    seq![("item"@, BodyValueView::GuidRef(p.item_guid@))]
        + opt_field("newLifecyclePhase"@, opt_guid(p.new_lifecycle_phase_guid))
        + opt_field("newRevisionNumber"@, opt_str(p.new_revision_number))
}

/// POST an item added to a change order.
pub fn add_change_affected_item(params: &AddChangeAffectedItemParams) -> (res: ApiRequest)
    ensures
        res@ == (ApiRequestView { method: HttpMethod::Post, path: "/changes/"@ + params.change_guid@ + "/items"@, query: seq![], body: Some(add_change_affected_item_fields(*params)) }),
{
    let mut body = empty_body();
    push_field(&mut body, "item", BodyValue::GuidRef(params.item_guid.clone()));
    push_opt_guid(&mut body, "newLifecyclePhase", &params.new_lifecycle_phase_guid);
    push_opt_str(&mut body, "newRevisionNumber", &params.new_revision_number);
    assert(body@ =~= add_change_affected_item_fields(*params));
    body_request(HttpMethod::Post, concat3("/changes/", params.change_guid.as_str(), "/items"), body)
}

/// The body of a new change request.
pub open spec fn create_request_fields(p: CreateRequestParams, attrs: Option<Seq<Seq<char>>>) -> FieldsView {
    opt_field("title"@, opt_str(p.title))
        + opt_field("category"@, opt_guid(p.category_guid))
        + opt_field("description"@, opt_str(p.description))
        + attrs_field(attrs)
}

/// POST a new change request: fails when `additional_attributes_json` is not a JSON array.
pub fn create_request(params: &CreateRequestParams) -> (res: Result<ApiRequest, String>)
    ensures
        match attributes_spec(opt_view(params.additional_attributes_json)) {
            Err(e) => res matches Err(m) && m@ == e,
            Ok(attrs) => res matches Ok(r) && r@ == (ApiRequestView { method: HttpMethod::Post, path: "/requests"@, query: seq![], body: Some(create_request_fields(*params, attrs)) }),
        },
{
    let attrs = match parse_additional_attributes(&params.additional_attributes_json) {
        Ok(a) => a,
        Err(e) => return Err(e),
    };
    let ghost attrs_view = opt_strings_of(attrs);
    let mut body = empty_body();
    push_opt_str(&mut body, "title", &params.title);
    push_opt_guid(&mut body, "category", &params.category_guid);
    push_opt_str(&mut body, "description", &params.description);
    push_attrs(&mut body, attrs);
    assert(body@ =~= create_request_fields(*params, attrs_view));
    Ok(body_request(HttpMethod::Post, owned("/requests"), body))
}

/// The body of changes to a change request.
pub open spec fn update_request_fields(p: UpdateRequestParams, attrs: Option<Seq<Seq<char>>>) -> FieldsView {
    opt_field("title"@, opt_str(p.title))
        + opt_field("description"@, opt_str(p.description))
        + attrs_field(attrs)
}

/// PUT changes to a change request: fails when `additional_attributes_json` is not a JSON array.
pub fn update_request(params: &UpdateRequestParams) -> (res: Result<ApiRequest, String>)
    ensures
        match attributes_spec(opt_view(params.additional_attributes_json)) {
            Err(e) => res matches Err(m) && m@ == e,
            Ok(attrs) => res matches Ok(r) && r@ == (ApiRequestView { method: HttpMethod::Put, path: "/requests/"@ + params.guid@, query: seq![], body: Some(update_request_fields(*params, attrs)) }),
        },
{
    let attrs = match parse_additional_attributes(&params.additional_attributes_json) {
        Ok(a) => a,
        Err(e) => return Err(e),
    };
    let ghost attrs_view = opt_strings_of(attrs);
    let mut body = empty_body();
    push_opt_str(&mut body, "title", &params.title);
    push_opt_str(&mut body, "description", &params.description);
    push_attrs(&mut body, attrs);
    assert(body@ =~= update_request_fields(*params, attrs_view));
    Ok(body_request(HttpMethod::Put, concat2("/requests/", params.guid.as_str()), body))
}

/// The body of a lifecycle status change of a change request.
pub open spec fn change_request_status_fields(p: ChangeRequestStatusParams) -> FieldsView {
    seq![("request"@, BodyValueView::GuidRef(p.request_guid@)), ("lifecycleStatus"@, BodyValueView::TypeRef(p.status@))]
        + opt_field("comment"@, opt_str(p.comment))
}

/// POST a lifecycle status change of a change request.
pub fn change_request_status(params: &ChangeRequestStatusParams) -> (res: ApiRequest)
    ensures
        res@ == (ApiRequestView { method: HttpMethod::Post, path: "/requests/statuschanges"@, query: seq![], body: Some(change_request_status_fields(*params)) }),
{
    let mut body = empty_body();
    push_field(&mut body, "request", BodyValue::GuidRef(params.request_guid.clone()));
    push_field(&mut body, "lifecycleStatus", BodyValue::TypeRef(params.status.clone()));
    push_opt_str(&mut body, "comment", &params.comment);
    assert(body@ =~= change_request_status_fields(*params));
    body_request(HttpMethod::Post, owned("/requests/statuschanges"), body)
}

/// The body of a new supplier.
pub open spec fn create_supplier_fields(p: CreateSupplierParams, attrs: Option<Seq<Seq<char>>>) -> FieldsView {
    seq![("name"@, BodyValueView::Str(p.name@))]
        + opt_field("description"@, opt_str(p.description))
        + attrs_field(attrs)
}

/// POST a new supplier: fails when `additional_attributes_json` is not a JSON array.
pub fn create_supplier(params: &CreateSupplierParams) -> (res: Result<ApiRequest, String>)
    ensures
        match attributes_spec(opt_view(params.additional_attributes_json)) {
            Err(e) => res matches Err(m) && m@ == e,
            Ok(attrs) => res matches Ok(r) && r@ == (ApiRequestView { method: HttpMethod::Post, path: "/suppliers"@, query: seq![], body: Some(create_supplier_fields(*params, attrs)) }),
        },
{
    let attrs = match parse_additional_attributes(&params.additional_attributes_json) {
        Ok(a) => a,
        Err(e) => return Err(e),
    };
    let ghost attrs_view = opt_strings_of(attrs);
    let mut body = empty_body();
    push_field(&mut body, "name", BodyValue::Str(params.name.clone()));
    push_opt_str(&mut body, "description", &params.description);
    push_attrs(&mut body, attrs);
    assert(body@ =~= create_supplier_fields(*params, attrs_view));
    Ok(body_request(HttpMethod::Post, owned("/suppliers"), body))
}

/// The body of changes to a supplier.
pub open spec fn update_supplier_fields(p: UpdateSupplierParams, attrs: Option<Seq<Seq<char>>>) -> FieldsView {
    opt_field("name"@, opt_str(p.name))
        + opt_field("description"@, opt_str(p.description))
        + attrs_field(attrs)
}

/// PUT changes to a supplier: fails when `additional_attributes_json` is not a JSON array.
pub fn update_supplier(params: &UpdateSupplierParams) -> (res: Result<ApiRequest, String>)
    ensures
        match attributes_spec(opt_view(params.additional_attributes_json)) {
            Err(e) => res matches Err(m) && m@ == e,
            Ok(attrs) => res matches Ok(r) && r@ == (ApiRequestView { method: HttpMethod::Put, path: "/suppliers/"@ + params.guid@, query: seq![], body: Some(update_supplier_fields(*params, attrs)) }),
        },
{
    let attrs = match parse_additional_attributes(&params.additional_attributes_json) {
        Ok(a) => a,
        Err(e) => return Err(e),
    };
    let ghost attrs_view = opt_strings_of(attrs);
    let mut body = empty_body();
    push_opt_str(&mut body, "name", &params.name);
    push_opt_str(&mut body, "description", &params.description);
    push_attrs(&mut body, attrs);
    assert(body@ =~= update_supplier_fields(*params, attrs_view));
    Ok(body_request(HttpMethod::Put, concat2("/suppliers/", params.guid.as_str()), body))
}

/// The body of a status change of a quality process.
pub open spec fn change_quality_status_fields(p: ChangeQualityStatusParams) -> FieldsView {
    seq![("qualityProcess"@, BodyValueView::GuidRef(p.quality_guid@)), ("status"@, BodyValueView::Str(p.status@))]
        + opt_field("comment"@, opt_str(p.comment))
}

/// POST a status change of a quality process.
pub fn change_quality_status(params: &ChangeQualityStatusParams) -> (res: ApiRequest)
    ensures
        res@ == (ApiRequestView { method: HttpMethod::Post, path: "/qualityprocesses/statuschanges"@, query: seq![], body: Some(change_quality_status_fields(*params)) }),
{
    let mut body = empty_body();
    push_field(&mut body, "qualityProcess", BodyValue::GuidRef(params.quality_guid.clone()));
    push_field(&mut body, "status", BodyValue::Str(params.status.clone()));
    push_opt_str(&mut body, "comment", &params.comment);
    assert(body@ =~= change_quality_status_fields(*params));
    body_request(HttpMethod::Post, owned("/qualityprocesses/statuschanges"), body)
}

/// The body of a new ticket made from a template.
pub open spec fn create_ticket_fields(p: CreateTicketParams, attrs: Option<Seq<Seq<char>>>) -> FieldsView {
    seq![("template"@, BodyValueView::GuidRef(p.template_guid@))]
        + opt_field("title"@, opt_str(p.title))
        + opt_field("description"@, opt_str(p.description))
        + attrs_field(attrs)
}

/// POST a new ticket made from a template: fails when `additional_attributes_json` is not a JSON array.
pub fn create_ticket(params: &CreateTicketParams) -> (res: Result<ApiRequest, String>)
    ensures
        match attributes_spec(opt_view(params.additional_attributes_json)) {
            Err(e) => res matches Err(m) && m@ == e,
            Ok(attrs) => res matches Ok(r) && r@ == (ApiRequestView { method: HttpMethod::Post, path: "/tickets"@, query: seq![], body: Some(create_ticket_fields(*params, attrs)) }),
        },
{
    let attrs = match parse_additional_attributes(&params.additional_attributes_json) {
        Ok(a) => a,
        Err(e) => return Err(e),
    };
    let ghost attrs_view = opt_strings_of(attrs);
    let mut body = empty_body();
    push_field(&mut body, "template", BodyValue::GuidRef(params.template_guid.clone()));
    push_opt_str(&mut body, "title", &params.title);
    push_opt_str(&mut body, "description", &params.description);
    push_attrs(&mut body, attrs);
    assert(body@ =~= create_ticket_fields(*params, attrs_view));
    Ok(body_request(HttpMethod::Post, owned("/tickets"), body))
}

/// Names the compact JSON text that serde_json writes back for the JSON in a byte string,
/// `None` when the bytes are not JSON.
pub uninterp spec fn json_compact_bytes(bytes: Seq<u8>) -> Option<Seq<char>>;

/// `serde_json::from_slice::<serde_json::Value>` and then `Value::to_string`: the contract
/// only names the result.
#[verifier::external_body]
fn compact_json_bytes(bytes: &[u8]) -> (res: Option<String>)
    ensures
        opt_view(res) == json_compact_bytes(bytes@),
{
    match serde_json::from_slice::<serde_json::Value>(bytes) {
        Ok(value) => Some(value.to_string()),
        Err(_) => None,
    }
}

/// The message of an answer whose body is not JSON: for a DELETE, the body was read and
/// parsed as such; for the other methods, the HTTP client's JSON reading failed.
pub open spec fn answer_error_message(method: HttpMethod) -> Seq<char> {
    if method == HttpMethod::Delete {
        "failed to deserialize Arena API response"@
    } else {
        undecodable_body_message()
    }
}

/// `r` is an answer with the JSON text `json`.
pub open spec fn answered_with(r: Result<Option<String>, String>, json: Seq<char>) -> bool {
    match r {
        Ok(Some(t)) => t@ == json,
        _ => false,
    }
}

/// `r` is the error `message`.
pub open spec fn answer_failed_with(r: Result<Option<String>, String>, message: Seq<char>) -> bool {
    match r {
        Err(m) => m@ == message,
        _ => false,
    }
}

/// The answer to a request of `method`, given the compact JSON that serde_json wrote back
/// for its body (`None` when the body is not JSON).
pub fn answer_from(method: HttpMethod, compact: Option<String>) -> (res: Result<Option<String>, String>)
    ensures
        match compact {
            Some(t) => res == Ok::<Option<String>, String>(Some(t)),
            None => answer_failed_with(res, answer_error_message(method)),
        },
{
    match compact {
        Some(t) => Ok(Some(t)),
        None => {
            if method == HttpMethod::Delete {
                Err(owned("failed to deserialize Arena API response"))
            } else {
                Err(owned("error decoding response body"))
            }
        },
    }
}

/// What a tool gets from the answer to its request: nothing (JSON `null`) for a DELETE
/// answered with 204 or an empty body; otherwise the body's JSON, written back compactly;
/// and an error when the body is not JSON.
pub fn api_answer(status: u16, method: HttpMethod, body: &[u8]) -> (res: Result<Option<String>, String>)
    ensures
        method == HttpMethod::Delete && (status == 204 || body@.len() == 0) ==> res == Ok::<
            Option<String>,
            String,
        >(None),
        !(method == HttpMethod::Delete && (status == 204 || body@.len() == 0)) ==> match json_compact_bytes(
            body@,
        ) {
            Some(t) => answered_with(res, t),
            None => answer_failed_with(res, answer_error_message(method)),
        },
{
    if method == HttpMethod::Delete && delete_answered_nothing(status, body.len()) {
        return Ok(None);
    }
    answer_from(method, compact_json_bytes(body))
}

} // verus!
