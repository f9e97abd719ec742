//! The parameters of the Arena operations and the login exchange.

use vstd::prelude::*;

verus! {

/// The body of a login request.
#[derive(Clone, Debug, PartialEq, Eq)]
pub struct LoginRequest {
    pub email: String,
    pub password: String,
    pub workspace_id: Option<i64>,
}

/// What a successful login answers.
#[derive(Clone, Debug, PartialEq, Eq)]
pub struct LoginResponse {
    pub arena_session_id: String,
    pub workspace_id: Option<i64>,
    pub workspace_name: Option<String>,
}

/// Filters of an item search.
#[derive(Clone, Debug, PartialEq, Eq)]
pub struct SearchItemsParams {
    pub number: Option<String>,
    pub name: Option<String>,
    pub description: Option<String>,
    pub category_guid: Option<String>,
    pub lifecycle_phase_guid: Option<String>,
    pub offset: Option<i64>,
    pub limit: Option<i64>,
}

/// Which item to fetch.
#[derive(Clone, Debug, PartialEq, Eq)]
pub struct GetItemParams {
    pub guid: String,
}

/// Which item's bill of materials to fetch.
#[derive(Clone, Debug, PartialEq, Eq)]
pub struct GetBomParams {
    pub guid: String,
}

/// Which item's parent assemblies to fetch.
#[derive(Clone, Debug, PartialEq, Eq)]
pub struct GetWhereUsedParams {
    pub guid: String,
}

/// Filters of a change search.
#[derive(Clone, Debug, PartialEq, Eq)]
pub struct SearchChangesParams {
    pub number: Option<String>,
    pub title: Option<String>,
    pub lifecycle_status: Option<String>,
    pub implementation_status: Option<String>,
    pub offset: Option<i64>,
    pub limit: Option<i64>,
}

/// Which change to fetch.
#[derive(Clone, Debug, PartialEq, Eq)]
pub struct GetChangeParams {
    pub guid: String,
}

/// Which change's affected items to fetch.
#[derive(Clone, Debug, PartialEq, Eq)]
pub struct GetChangeAffectedItemsParams {
    pub guid: String,
}

/// Which item's revisions to fetch.
#[derive(Clone, Debug, PartialEq, Eq)]
pub struct GetItemRevisionsParams {
    pub guid: String,
}

/// Which item's files to fetch.
#[derive(Clone, Debug, PartialEq, Eq)]
pub struct GetItemFilesParams {
    pub guid: String,
}

/// Filters of a supplier search.
#[derive(Clone, Debug, PartialEq, Eq)]
pub struct SearchSuppliersParams {
    pub name: Option<String>,
    pub offset: Option<i64>,
    pub limit: Option<i64>,
}

/// Filters of a quality process search.
#[derive(Clone, Debug, PartialEq, Eq)]
pub struct SearchQualityProcessesParams {
    pub number: Option<String>,
    pub name: Option<String>,
    pub status: Option<String>,
    pub offset: Option<i64>,
    pub limit: Option<i64>,
}

/// Filters of a request search.
#[derive(Clone, Debug, PartialEq, Eq)]
pub struct SearchRequestsParams {
    pub number: Option<String>,
    pub title: Option<String>,
    pub lifecycle_status: Option<String>,
    pub offset: Option<i64>,
    pub limit: Option<i64>,
}

/// Filters of a file search.
#[derive(Clone, Debug, PartialEq, Eq)]
pub struct SearchFilesParams {
    pub name: Option<String>,
    pub category_guid: Option<String>,
    pub offset: Option<i64>,
    pub limit: Option<i64>,
}

/// Filters of a supplier item search.
#[derive(Clone, Debug, PartialEq, Eq)]
pub struct SearchSupplierItemsParams {
    pub supplier_guid: Option<String>,
    pub offset: Option<i64>,
    pub limit: Option<i64>,
}

/// Filters of a ticket search.
#[derive(Clone, Debug, PartialEq, Eq)]
pub struct SearchTicketsParams {
    pub number: Option<String>,
    pub title: Option<String>,
    pub offset: Option<i64>,
    pub limit: Option<i64>,
}

/// Filters of a training plan search.
#[derive(Clone, Debug, PartialEq, Eq)]
pub struct SearchTrainingPlansParams {
    pub number: Option<String>,
    pub name: Option<String>,
    pub offset: Option<i64>,
    pub limit: Option<i64>,
}

/// A new item.
#[derive(Clone, Debug, PartialEq, Eq)]
pub struct CreateItemParams {
    pub name: String,
    pub category_guid: String,
    pub number: Option<String>,
    pub description: Option<String>,
    pub additional_attributes_json: Option<String>,
}

/// Changes to an item.
#[derive(Clone, Debug, PartialEq, Eq)]
pub struct UpdateItemParams {
    pub guid: String,
    pub name: Option<String>,
    pub number: Option<String>,
    pub description: Option<String>,
    pub additional_attributes_json: Option<String>,
}

/// A lifecycle phase change of an item.
#[derive(Clone, Debug, PartialEq, Eq)]
pub struct ItemLifecyclePhaseChangeParams {
    pub item_guid: String,
    pub lifecycle_phase_guid: String,
    pub comment: Option<String>,
}

/// A new line of a bill of materials; the quantity is held as its JSON number text.
#[derive(Clone, Debug, PartialEq, Eq)]
pub struct CreateBomLineParams {
    pub item_guid: String,
    pub child_item_guid: String,
    pub quantity: Option<String>,
    pub ref_des: Option<String>,
    pub notes: Option<String>,
}

/// Changes to a line of a bill of materials; the quantity is held as its JSON number text.
#[derive(Clone, Debug, PartialEq, Eq)]
pub struct UpdateBomLineParams {
    pub item_guid: String,
    pub line_guid: String,
    pub quantity: Option<String>,
    pub ref_des: Option<String>,
    pub notes: Option<String>,
}

/// Which line of a bill of materials to delete.
#[derive(Clone, Debug, PartialEq, Eq)]
pub struct DeleteBomLineParams {
    pub item_guid: String,
    pub line_guid: String,
}

/// A new change order.
#[derive(Clone, Debug, PartialEq, Eq)]
pub struct CreateChangeParams {
    pub title: Option<String>,
    pub category_guid: Option<String>,
    pub description: Option<String>,
    pub additional_attributes_json: Option<String>,
}

/// Changes to a change order.
#[derive(Clone, Debug, PartialEq, Eq)]
pub struct UpdateChangeParams {
    pub guid: String,
    pub title: Option<String>,
    pub description: Option<String>,
    pub additional_attributes_json: Option<String>,
}

/// A lifecycle status change of a change order.
#[derive(Clone, Debug, PartialEq, Eq)]
pub struct ChangeChangeStatusParams {
    pub change_guid: String,
    pub status: String,
    pub comment: Option<String>,
    pub force: Option<bool>,
}

/// An item to add to a change order.
#[derive(Clone, Debug, PartialEq, Eq)]
pub struct AddChangeAffectedItemParams {
    pub change_guid: String,
    pub item_guid: String,
    pub new_lifecycle_phase_guid: Option<String>,
    pub new_revision_number: Option<String>,
}

/// An affected item to remove from a change order.
#[derive(Clone, Debug, PartialEq, Eq)]
pub struct RemoveChangeAffectedItemParams {
    pub change_guid: String,
    pub affected_item_guid: String,
}

/// A new change request.
#[derive(Clone, Debug, PartialEq, Eq)]
pub struct CreateRequestParams {
    pub title: Option<String>,
    pub category_guid: Option<String>,
    pub description: Option<String>,
    pub additional_attributes_json: Option<String>,
}

/// Changes to a change request.
#[derive(Clone, Debug, PartialEq, Eq)]
pub struct UpdateRequestParams {
    pub guid: String,
    pub title: Option<String>,
    pub description: Option<String>,
    pub additional_attributes_json: Option<String>,
}

/// A lifecycle status change of a request.
#[derive(Clone, Debug, PartialEq, Eq)]
pub struct ChangeRequestStatusParams {
    pub request_guid: String,
    pub status: String,
    pub comment: Option<String>,
}

/// A new supplier.
#[derive(Clone, Debug, PartialEq, Eq)]
pub struct CreateSupplierParams {
    pub name: String,
    pub description: Option<String>,
    pub additional_attributes_json: Option<String>,
}

/// Changes to a supplier.
#[derive(Clone, Debug, PartialEq, Eq)]
pub struct UpdateSupplierParams {
    pub guid: String,
    pub name: Option<String>,
    pub description: Option<String>,
    pub additional_attributes_json: Option<String>,
}

/// A status change of a quality process.
#[derive(Clone, Debug, PartialEq, Eq)]
pub struct ChangeQualityStatusParams {
    pub quality_guid: String,
    pub status: String,
    pub comment: Option<String>,
}

/// A new ticket made from a template.
#[derive(Clone, Debug, PartialEq, Eq)]
pub struct CreateTicketParams {
    pub template_guid: String,
    pub title: Option<String>,
    pub description: Option<String>,
    pub additional_attributes_json: Option<String>,
}

/// The parameters of an operation that takes none.
#[derive(Clone, Debug, PartialEq, Eq)]
pub struct EmptyParams {}

/// A list answer of the API: the number of results when given, and the results.
#[derive(Clone, Debug, PartialEq, Eq)]
pub struct ArenaListResponse<T> {
    pub count: Option<i64>,
    pub results: Vec<T>,
}

/// A reference to another record by its guid and name.
#[derive(Clone, Debug, PartialEq, Eq)]
pub struct GuidRef {
    pub guid: Option<String>,
    pub name: Option<String>,
}

/// The API and web addresses of a record.
#[derive(Clone, Debug, PartialEq, Eq)]
pub struct UrlRef {
    pub api: Option<String>,
    pub app: Option<String>,
}

/// A reference to a user.
#[derive(Clone, Debug, PartialEq, Eq)]
pub struct UserRef {
    pub guid: Option<String>,
    pub email: Option<String>,
    pub full_name: Option<String>,
}

/// An item; each additional attribute is held as its JSON text.
#[derive(Clone, Debug, PartialEq, Eq)]
pub struct Item {
    pub guid: Option<String>,
    pub name: Option<String>,
    pub number: Option<String>,
    pub revision_number: Option<String>,
    pub description: Option<String>,
    pub assembly_type: Option<String>,
    pub category: Option<GuidRef>,
    pub lifecycle_phase: Option<GuidRef>,
    pub owner: Option<UserRef>,
    pub creator: Option<UserRef>,
    pub creation_date_time: Option<String>,
    pub modified_date_time: Option<String>,
    pub effective_date_time: Option<String>,
    pub modified_bom: Option<bool>,
    pub modified_files: Option<bool>,
    pub modified_specs: Option<bool>,
    pub modified_sourcing: Option<bool>,
    pub uom: Option<String>,
    pub procurement_type: Option<String>,
    pub url: Option<UrlRef>,
    pub additional_attributes: Option<Vec<String>>,
}

/// A line of a bill of materials; the quantity is held as its JSON number text and each
/// additional attribute as its JSON text.
#[derive(Clone, Debug, PartialEq, Eq)]
pub struct BomLine {
    pub guid: Option<String>,
    pub line_number: Option<i64>,
    pub quantity: Option<String>,
    pub ref_des: Option<String>,
    pub notes: Option<String>,
    pub item: Option<BomItemRef>,
    pub additional_attributes: Option<Vec<String>>,
}

/// The item of a line of a bill of materials.
#[derive(Clone, Debug, PartialEq, Eq)]
pub struct BomItemRef {
    pub guid: Option<String>,
    pub name: Option<String>,
    pub number: Option<String>,
    pub revision_number: Option<String>,
    pub revision_status: Option<String>,
    pub url: Option<UrlRef>,
}

/// An assembly that uses an item; the quantity is held as its JSON number text.
#[derive(Clone, Debug, PartialEq, Eq)]
pub struct WhereUsedEntry {
    pub guid: Option<String>,
    pub item: Option<BomItemRef>,
    pub line_number: Option<i64>,
    pub quantity: Option<String>,
    pub ref_des: Option<String>,
    pub notes: Option<String>,
}

/// A change order; each additional attribute is held as its JSON text.
#[derive(Clone, Debug, PartialEq, Eq)]
pub struct Change {
    pub guid: Option<String>,
    pub number: Option<String>,
    pub title: Option<String>,
    pub description: Option<String>,
    pub category: Option<GuidRef>,
    pub creator: Option<UserRef>,
    pub owner: Option<UserRef>,
    pub lifecycle_status: Option<LifecycleStatus>,
    pub implementation_status: Option<String>,
    pub effective_date_time: Option<String>,
    pub creation_date_time: Option<String>,
    pub modified_date_time: Option<String>,
    pub effectivity_type: Option<String>,
    pub url: Option<UrlRef>,
    pub additional_attributes: Option<Vec<String>>,
}

/// The lifecycle status of a change order.
#[derive(Clone, Debug, PartialEq, Eq)]
pub struct LifecycleStatus {
    pub status_type: Option<String>,
}

/// An item affected by a change order; the disposition is held as its JSON text.
#[derive(Clone, Debug, PartialEq, Eq)]
pub struct ChangeAffectedItem {
    pub guid: Option<String>,
    pub item: Option<BomItemRef>,
    pub disposition_attribute: Option<String>,
    pub new_lifecycle_phase: Option<GuidRef>,
    pub new_revision_number: Option<String>,
}

/// A revision of an item.
#[derive(Clone, Debug, PartialEq, Eq)]
pub struct ItemRevision {
    pub guid: Option<String>,
    pub number: Option<String>,
    pub status: Option<i64>,
    pub lifecycle_phase: Option<GuidRef>,
    pub change: Option<RevisionChangeRef>,
    pub creation_date_time: Option<String>,
    pub effective_date_time: Option<String>,
}

/// The change order that made a revision.
#[derive(Clone, Debug, PartialEq, Eq)]
pub struct RevisionChangeRef {
    pub guid: Option<String>,
    pub number: Option<String>,
    pub creation_date_time: Option<String>,
    pub effective_date_time: Option<String>,
}

/// A file attached to an item.
#[derive(Clone, Debug, PartialEq, Eq)]
pub struct ItemFile {
    pub guid: Option<String>,
    pub file: Option<FileRef>,
}

/// A file.
#[derive(Clone, Debug, PartialEq, Eq)]
pub struct FileRef {
    pub guid: Option<String>,
    pub name: Option<String>,
    pub format: Option<String>,
    pub size: Option<i64>,
    pub creation_date_time: Option<String>,
    pub author: Option<UserRef>,
    pub category: Option<GuidRef>,
    pub mime_type: Option<String>,
    pub is_latest_edition: Option<bool>,
    pub is_primary: Option<bool>,
    pub is_checked_out: Option<bool>,
    pub is_locked: Option<bool>,
}

/// A lifecycle phase of items.
#[derive(Clone, Debug, PartialEq, Eq)]
pub struct LifecyclePhase {
    pub guid: Option<String>,
    pub name: Option<String>,
    pub short_name: Option<String>,
    pub stage: Option<String>,
    pub active: Option<bool>,
    pub used: Option<bool>,
}

} // verus!
