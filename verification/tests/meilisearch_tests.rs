use search_controller::meilisearch::{
    create_index_request, documents_url, field_names_with_role, index_settings, task_observation,
    FieldRole, MeilisearchClient, MeilisearchError, TASK_POLL_ATTEMPTS,
};
use search_controller::polling::PollObservation;
use search_controller::FieldSpec;

fn field(name: &str, searchable: bool, filterable: bool, sortable: bool) -> FieldSpec {
    FieldSpec { name: name.to_string(), searchable, filterable, sortable }
}

#[test]
fn base_url_loses_trailing_slashes() {
    assert_eq!(MeilisearchClient::new("http://localhost:30700/").base_url(), "http://localhost:30700");
    assert_eq!(MeilisearchClient::new("http://h///").base_url(), "http://h");
    assert_eq!(MeilisearchClient::new("http://h").base_url(), "http://h");
    assert_eq!(MeilisearchClient::new("///").base_url(), "");
    assert_eq!(MeilisearchClient::new("").base_url(), "");
}

#[test]
fn endpoints() {
    let c = MeilisearchClient::new("http://localhost:30700/");
    assert_eq!(c.health_url(), "http://localhost:30700/health");
    assert_eq!(c.indexes_url(), "http://localhost:30700/indexes");
    assert_eq!(c.index_url("products"), "http://localhost:30700/indexes/products");
    assert_eq!(c.settings_url("products"), "http://localhost:30700/indexes/products/settings");
    assert_eq!(c.task_url(0), "http://localhost:30700/tasks/0");
    assert_eq!(c.task_url(4021), "http://localhost:30700/tasks/4021");
    assert_eq!(
        documents_url("http://localhost:30700", "products"),
        "http://localhost:30700/indexes/products/documents"
    );
}

#[test]
fn create_request_carries_the_primary_key() {
    let r = create_index_request("products", "sku");
    assert_eq!(r.uid, "products");
    assert_eq!(r.primary_key.as_deref(), Some("sku"));
}

#[test]
fn settings_split_fields_by_role() {
    let fields = vec![
        field("title", true, false, false),
        field("description", true, false, false),
        field("price", false, true, true),
        field("stock", false, false, true),
    ];
    let s = index_settings(&fields);
    assert_eq!(s.searchable_attributes, vec!["title", "description"]);
    assert_eq!(s.filterable_attributes, vec!["price"]);
    assert_eq!(s.sortable_attributes, vec!["price", "stock"]);
}

#[test]
fn settings_make_everything_searchable_when_no_field_is() {
    let fields = vec![field("price", false, true, false)];
    let s = index_settings(&fields);
    assert_eq!(s.searchable_attributes, vec!["*"]);
    assert_eq!(s.filterable_attributes, vec!["price"]);
    assert!(s.sortable_attributes.is_empty());
    let none: Vec<FieldSpec> = vec![];
    let s = index_settings(&none);
    assert_eq!(s.searchable_attributes, vec!["*"]);
    assert!(s.filterable_attributes.is_empty());
}

#[test]
fn names_by_role_keep_field_order() {
    let fields = vec![field("b", true, true, false), field("a", true, false, false)];
    assert_eq!(field_names_with_role(&fields, FieldRole::Searchable), vec!["b", "a"]);
    assert_eq!(field_names_with_role(&fields, FieldRole::Filterable), vec!["b"]);
    assert!(field_names_with_role(&fields, FieldRole::Sortable).is_empty());
}

#[test]
fn task_polls() {
    assert!(matches!(task_observation(Some("succeeded")), PollObservation::Ready));
    assert!(matches!(task_observation(Some("failed")), PollObservation::Failed));
    assert!(matches!(task_observation(Some("enqueued")), PollObservation::Pending { pause_ms: 100 }));
    assert!(matches!(task_observation(Some("processing")), PollObservation::Pending { pause_ms: 100 }));
    assert!(matches!(task_observation(None), PollObservation::Pending { pause_ms: 100 }));
    assert_eq!(TASK_POLL_ATTEMPTS, 60);
}

#[test]
fn meilisearch_error_messages() {
    assert_eq!(
        MeilisearchError::CreateIndexFailed("bad".to_string()).message(),
        "Failed to create index: bad"
    );
    assert_eq!(
        MeilisearchError::ConfigureIndexFailed("bad".to_string()).message(),
        "Failed to configure index: bad"
    );
    assert_eq!(
        MeilisearchError::DeleteIndexFailed("bad".to_string()).message(),
        "Failed to delete index: bad"
    );
    assert_eq!(MeilisearchError::TaskFailed(12).message(), "Meilisearch task 12 failed");
    assert_eq!(
        MeilisearchError::TaskTimeout(907).message(),
        "Timeout waiting for Meilisearch task 907"
    );
    assert_eq!(
        MeilisearchError::IndexDocumentsFailed("x".to_string()).message(),
        "Failed to index documents: x"
    );
}
