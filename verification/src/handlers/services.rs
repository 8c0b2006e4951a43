//! The tool for the service catalog.

use crate::datadog::client::ApiRequest;
use crate::datadog::client::DatadogClient;
use crate::datadog::models::Service;
use crate::datadog::models::ServiceAttributes;
use crate::datadog::models::ServiceContact;
use crate::datadog::models::ServiceDoc;
use crate::datadog::models::ServiceIntegrations;
use crate::datadog::models::ServiceLink;
use crate::datadog::models::ServiceRepo;
use crate::datadog::models::ServicesResponse;
use crate::datadog::models::ServicesWarning;
use crate::handlers::common::list_envelope;
use crate::handlers::common::pagination_of;
use crate::handlers::common::pagination_summary;
use crate::handlers::common::Paginator;
use crate::handlers::common::ResponseFormatter;
use crate::json::add_new_fields;
use crate::json::append_fields;
use crate::json::map_json;
use crate::json::opt_field;
use crate::json::push_opt_field;
use crate::json::set_fields;
use crate::json::text_or_null;
use crate::json::text_or_null_json;
use crate::json::texts_or_null;
use crate::json::texts_or_null_json;
use crate::json::view_fields;
use crate::json::view_opt;
use crate::json::with_fields;
use crate::json::with_new_fields;
use crate::json::Json;
use crate::json::JsonView;
use crate::text::view_text;
use vstd::prelude::*;
use vstd::string::*;

verus! {

/// The tool for the service catalog.
#[derive(Debug, Clone, Copy)]
pub struct ServicesHandler;

impl Paginator for ServicesHandler {

}

impl ResponseFormatter for ServicesHandler {

}

/// A listing of services, ready to be sent, with what shapes its answer.
#[derive(Debug)]
pub struct ServicesListing {
    pub request: ApiRequest,
    pub page: usize,
    pub page_size: usize,
    pub filter_env: Option<String>,
}

/// A contact as it is reported.
pub open spec fn contact_json(contact: ServiceContact) -> JsonView {
    JsonView::Object(
        seq![
            ("name"@, text_or_null(contact.name)),
            ("email"@, text_or_null(contact.email)),
            ("type"@, text_or_null(contact.contact_type)),
        ],
    )
}

/// A link as it is reported.
pub open spec fn link_json(link: ServiceLink) -> JsonView {
    JsonView::Object(
        seq![
            ("name"@, text_or_null(link.name)),
            ("url"@, text_or_null(link.url)),
            ("type"@, text_or_null(link.link_type)),
        ],
    )
}

/// A repository as it is reported.
pub open spec fn repo_json(repo: ServiceRepo) -> JsonView {
    JsonView::Object(
        seq![
            ("name"@, text_or_null(repo.name)),
            ("url"@, text_or_null(repo.url)),
            ("provider"@, text_or_null(repo.provider)),
        ],
    )
}

/// A document as it is reported.
pub open spec fn doc_json(doc: ServiceDoc) -> JsonView {
    JsonView::Object(
        seq![
            ("name"@, text_or_null(doc.name)),
            ("url"@, text_or_null(doc.url)),
            ("provider"@, text_or_null(doc.provider)),
        ],
    )
}

/// A warning as it is reported.
pub open spec fn warning_json(warning: ServicesWarning) -> JsonView {
    JsonView::Object(
        seq![
            ("code"@, text_or_null(warning.code)),
            ("detail"@, text_or_null(warning.detail)),
            ("title"@, text_or_null(warning.title)),
        ],
    )
}

/// The integrations of a service as they are reported: the two that have
/// a field of their own, then the others by name; a later one replaces an
/// earlier one of the same name.
pub open spec fn integrations_json(integrations: ServiceIntegrations) -> JsonView {
    JsonView::Object(
        with_fields(
            opt_field("pagerduty"@, view_opt(integrations.pagerduty)) + opt_field(
                "slack"@,
                view_opt(integrations.slack),
            ),
            view_fields(integrations.others@),
        ),
    )
}

/// A list of contacts as it is reported.
pub open spec fn contacts_json(contacts: Seq<ServiceContact>) -> JsonView {
    JsonView::Array(Seq::new(contacts.len(), |i: int| contact_json(contacts[i])))
}

/// A list of links as it is reported.
pub open spec fn links_json(links: Seq<ServiceLink>) -> JsonView {
    JsonView::Array(Seq::new(links.len(), |i: int| link_json(links[i])))
}

/// A list of repositories as it is reported.
pub open spec fn repos_json(repos: Seq<ServiceRepo>) -> JsonView {
    JsonView::Array(Seq::new(repos.len(), |i: int| repo_json(repos[i])))
}

/// A list of documents as it is reported.
pub open spec fn docs_json(docs: Seq<ServiceDoc>) -> JsonView {
    JsonView::Array(Seq::new(docs.len(), |i: int| doc_json(docs[i])))
}

/// A list of warnings as it is reported.
pub open spec fn warnings_json(warnings: Seq<ServicesWarning>) -> JsonView {
    JsonView::Array(Seq::new(warnings.len(), |i: int| warning_json(warnings[i])))
}

/// A list of services as it is reported.
pub open spec fn services_json(services: Seq<Service>) -> JsonView {
    JsonView::Array(Seq::new(services.len(), |i: int| service_json(services[i])))
}

/// What is reported of the attributes of a service that have a field of
/// their own.
pub open spec fn service_attribute_fields(attributes: ServiceAttributes) -> Seq<(Seq<char>, JsonView)> {
    seq![
        ("schema_version"@, text_or_null(attributes.schema_version)),
        ("dd_service"@, text_or_null(attributes.dd_service)),
        ("dd_team"@, text_or_null(attributes.dd_team)),
        ("application"@, text_or_null(attributes.application)),
        ("tier"@, text_or_null(attributes.tier)),
        ("lifecycle"@, text_or_null(attributes.lifecycle)),
        ("type_of_service"@, text_or_null(attributes.type_of_service)),
        ("languages"@, texts_or_null(attributes.languages)),
        ("tags"@, texts_or_null(attributes.tags)),
    ] + opt_field(
        "contacts"@,
        match attributes.contacts {
            Some(list) => Some(contacts_json(list@)),
            None => None,
        },
    ) + opt_field(
        "links"@,
        match attributes.links {
            Some(list) => Some(links_json(list@)),
            None => None,
        },
    ) + opt_field(
        "repos"@,
        match attributes.repos {
            Some(list) => Some(repos_json(list@)),
            None => None,
        },
    ) + opt_field(
        "docs"@,
        match attributes.docs {
            Some(list) => Some(docs_json(list@)),
            None => None,
        },
    ) + opt_field(
        "integrations"@,
        match attributes.integrations {
            Some(integrations) => Some(integrations_json(integrations)),
            None => None,
        },
    )
}

/// The id and type of a service.
pub open spec fn service_head(service: Service) -> Seq<(Seq<char>, JsonView)> {
    seq![("id"@, text_or_null(service.id)), ("type"@, text_or_null(service.service_type))]
}

/// A service as it is reported: its id and type, its attributes, and
/// those further attributes whose name is not taken.
pub open spec fn service_json(service: Service) -> JsonView {
    JsonView::Object(
        match service.attributes {
            Some(attributes) => with_new_fields(
                service_head(service) + service_attribute_fields(attributes),
                view_fields(attributes.extra@),
            ),
            None => service_head(service),
        },
    )
}

/// The warnings of an answer.
pub open spec fn warnings_of(response: ServicesResponse) -> Seq<ServicesWarning> {
    match response.meta {
        Some(meta) => match meta.warnings {
            Some(warnings) => warnings@,
            None => Seq::empty(),
        },
        None => Seq::empty(),
    }
}

/// The link to the next page of an answer.
pub open spec fn next_of(response: ServicesResponse) -> Option<String> {
    match response.links {
        Some(links) => links.next,
        None => None,
    }
}

/// The response to a listing of services.
pub open spec fn services_response(
    response: ServicesResponse,
    page: usize,
    page_size: usize,
    filter_env: Option<String>,
) -> JsonView {
    list_envelope(
        services_json(response.data@),
        Some(pagination_summary(page, page_size, response.data@.len() as usize)),
        Some(
            JsonView::Object(
                seq![
                    ("filter_env"@, text_or_null(filter_env)),
                    ("warnings"@, warnings_json(warnings_of(response))),
                    ("next"@, text_or_null(next_of(response))),
                ],
            ),
        ),
    )
}

/// Builds a triple of optional texts.
fn build_triple(
    keys: (&str, &str, &str),
    first: &Option<String>,
    second: &Option<String>,
    third: &Option<String>,
) -> (json: Json)
    ensures
        json@ == JsonView::Object(
            seq![
                (keys.0@, text_or_null(*first)),
                (keys.1@, text_or_null(*second)),
                (keys.2@, text_or_null(*third)),
            ],
        ),
{
    let mut fields: Vec<(String, Json)> = Vec::new();
    Json::push_field(&mut fields, keys.0, text_or_null_json(first));
    Json::push_field(&mut fields, keys.1, text_or_null_json(second));
    Json::push_field(&mut fields, keys.2, text_or_null_json(third));
    assert(view_fields(fields@) =~= seq![
        (keys.0@, text_or_null(*first)),
        (keys.1@, text_or_null(*second)),
        (keys.2@, text_or_null(*third)),
    ]);
    Json::object(fields)
}

/// Builds a contact as it is reported.
fn build_contact(contact: &ServiceContact) -> (json: Json)
    ensures
        json@ == contact_json(*contact),
{
    build_triple(("name", "email", "type"), &contact.name, &contact.email, &contact.contact_type)
}

/// Builds a link as it is reported.
fn build_link(link: &ServiceLink) -> (json: Json)
    ensures
        json@ == link_json(*link),
{
    build_triple(("name", "url", "type"), &link.name, &link.url, &link.link_type)
}

/// Builds a repository as it is reported.
fn build_repo(repo: &ServiceRepo) -> (json: Json)
    ensures
        json@ == repo_json(*repo),
{
    build_triple(("name", "url", "provider"), &repo.name, &repo.url, &repo.provider)
}

/// Builds a document as it is reported.
fn build_doc(doc: &ServiceDoc) -> (json: Json)
    ensures
        json@ == doc_json(*doc),
{
    build_triple(("name", "url", "provider"), &doc.name, &doc.url, &doc.provider)
}

/// Builds a warning as it is reported.
fn build_warning(warning: &ServicesWarning) -> (json: Json)
    ensures
        json@ == warning_json(*warning),
{
    build_triple(("code", "detail", "title"), &warning.code, &warning.detail, &warning.title)
}

/// Builds the integrations of a service as they are reported.
fn build_integrations(integrations: &ServiceIntegrations) -> (json: Json)
    ensures
        json@ == integrations_json(*integrations),
{
    let mut fields: Vec<(String, Json)> = Vec::new();
    let pagerduty = match &integrations.pagerduty {
        Some(value) => Some(value.clone()),
        None => None,
    };
    push_opt_field(&mut fields, "pagerduty", pagerduty);
    assert(view_fields(fields@) =~= opt_field("pagerduty"@, view_opt(integrations.pagerduty)));
    let slack = match &integrations.slack {
        Some(value) => Some(value.clone()),
        None => None,
    };
    push_opt_field(&mut fields, "slack", slack);
    set_fields(&mut fields, &integrations.others);
    Json::object(fields)
}

/// Builds the array of contacts, where there are any.
fn build_contacts(contacts: &Option<Vec<ServiceContact>>) -> (json: Option<Json>)
    ensures
        view_opt(json) == match *contacts {
            Some(list) => Some(contacts_json(list@)),
            None => None,
        },
{
    match contacts {
        Some(list) => {
            let json = map_json(list.as_slice(), build_contact);
            assert(json@->Array_0 =~= contacts_json(list@)->Array_0);
            Some(json)
        },
        None => None,
    }
}

/// Builds the array of links, where there are any.
fn build_links(links: &Option<Vec<ServiceLink>>) -> (json: Option<Json>)
    ensures
        view_opt(json) == match *links {
            Some(list) => Some(links_json(list@)),
            None => None,
        },
{
    match links {
        Some(list) => {
            let json = map_json(list.as_slice(), build_link);
            assert(json@->Array_0 =~= links_json(list@)->Array_0);
            Some(json)
        },
        None => None,
    }
}

/// Builds the array of repositories, where there are any.
fn build_repos(repos: &Option<Vec<ServiceRepo>>) -> (json: Option<Json>)
    ensures
        view_opt(json) == match *repos {
            Some(list) => Some(repos_json(list@)),
            None => None,
        },
{
    match repos {
        Some(list) => {
            let json = map_json(list.as_slice(), build_repo);
            assert(json@->Array_0 =~= repos_json(list@)->Array_0);
            Some(json)
        },
        None => None,
    }
}

/// Builds the array of documents, where there are any.
fn build_docs(docs: &Option<Vec<ServiceDoc>>) -> (json: Option<Json>)
    ensures
        view_opt(json) == match *docs {
            Some(list) => Some(docs_json(list@)),
            None => None,
        },
{
    match docs {
        Some(list) => {
            let json = map_json(list.as_slice(), build_doc);
            assert(json@->Array_0 =~= docs_json(list@)->Array_0);
            Some(json)
        },
        None => None,
    }
}

/// Builds what is reported of the attributes of a service that have a
/// field of their own.
fn build_attribute_fields(attributes: &ServiceAttributes) -> (fields: Vec<(String, Json)>)
    ensures
        view_fields(fields@) == service_attribute_fields(*attributes),
{
    let mut fields: Vec<(String, Json)> = Vec::new();
    Json::push_field(&mut fields, "schema_version", text_or_null_json(&attributes.schema_version));
    Json::push_field(&mut fields, "dd_service", text_or_null_json(&attributes.dd_service));
    Json::push_field(&mut fields, "dd_team", text_or_null_json(&attributes.dd_team));
    Json::push_field(&mut fields, "application", text_or_null_json(&attributes.application));
    Json::push_field(&mut fields, "tier", text_or_null_json(&attributes.tier));
    Json::push_field(&mut fields, "lifecycle", text_or_null_json(&attributes.lifecycle));
    Json::push_field(&mut fields, "type_of_service", text_or_null_json(&attributes.type_of_service));
    Json::push_field(&mut fields, "languages", texts_or_null_json(&attributes.languages));
    Json::push_field(&mut fields, "tags", texts_or_null_json(&attributes.tags));
    assert(view_fields(fields@) =~= seq![
        ("schema_version"@, text_or_null(attributes.schema_version)),
        ("dd_service"@, text_or_null(attributes.dd_service)),
        ("dd_team"@, text_or_null(attributes.dd_team)),
        ("application"@, text_or_null(attributes.application)),
        ("tier"@, text_or_null(attributes.tier)),
        ("lifecycle"@, text_or_null(attributes.lifecycle)),
        ("type_of_service"@, text_or_null(attributes.type_of_service)),
        ("languages"@, texts_or_null(attributes.languages)),
        ("tags"@, texts_or_null(attributes.tags)),
    ]);
    push_opt_field(&mut fields, "contacts", build_contacts(&attributes.contacts));
    push_opt_field(&mut fields, "links", build_links(&attributes.links));
    push_opt_field(&mut fields, "repos", build_repos(&attributes.repos));
    push_opt_field(&mut fields, "docs", build_docs(&attributes.docs));
    let integrations = match &attributes.integrations {
        Some(integrations) => Some(build_integrations(integrations)),
        None => None,
    };
    push_opt_field(&mut fields, "integrations", integrations);
    fields
}

/// Builds a service as it is reported.
fn build_service(service: &Service) -> (json: Json)
    ensures
        json@ == service_json(*service),
{
    let mut fields: Vec<(String, Json)> = Vec::new();
    Json::push_field(&mut fields, "id", text_or_null_json(&service.id));
    Json::push_field(&mut fields, "type", text_or_null_json(&service.service_type));
    assert(view_fields(fields@) =~= service_head(*service));
    match &service.attributes {
        Some(attributes) => {
            append_fields(&mut fields, build_attribute_fields(attributes));
            add_new_fields(&mut fields, &attributes.extra);
        },
        None => {},
    }
    Json::object(fields)
}

impl ServicesHandler {
    /// Reads the arguments of a listing of services into the request to
    /// send and what shapes its answer.
    pub fn list(client: &DatadogClient, params: &Json) -> (listing: ServicesListing)
        ensures
            (listing.page, listing.page_size) == pagination_of(params@),
            view_text(listing.filter_env) == params@.text_field("env"@),
            listing.request@ == client@.request_for(
                crate::datadog::client::HttpMethod::Get,
                "/api/v2/services/definitions"@,
                Some(
                    seq![
                        ("page[size]"@, crate::text::decimal(listing.page_size as i32 as int)),
                        ("page[number]"@, crate::text::decimal(listing.page as i32 as int)),
                    ] + crate::datadog::client::opt_pair("filter[env]"@, params@.text_field("env"@)),
                ),
                None,
            ),
    {
        let handler = ServicesHandler;
        let (page, page_size) = handler.parse_pagination(params);
        let filter_env = match params.get_str("env") {
            Some(text) => Some(text.to_string()),
            None => None,
        };
        let request_env = match params.get_str("env") {
            Some(text) => Some(text.to_string()),
            None => None,
        };
        let size = #[verifier::truncate]
        (page_size as i32);
        let number = #[verifier::truncate]
        (page as i32);
        let request = client.get_service_catalog(Some(size), Some(number), request_env);
        proof {
            let sent = seq![
                ("page[size]"@, crate::text::decimal(size as int)),
                ("page[number]"@, crate::text::decimal(number as int)),
            ] + crate::datadog::client::opt_pair("filter[env]"@, params@.text_field("env"@));
            assert(crate::datadog::client::opt_pair("page[size]"@, Some(crate::text::decimal(size as int)))
                + crate::datadog::client::opt_pair(
                "page[number]"@,
                Some(crate::text::decimal(number as int)),
            ) + crate::datadog::client::opt_pair("filter[env]"@, params@.text_field("env"@)) =~= sent);
            assert(sent.len() > 0);
        }
        ServicesListing { request, page, page_size, filter_env }
    }

    /// Shapes the answer to a listing of services.
    pub fn list_response(listing: &ServicesListing, response: &ServicesResponse) -> (json: Json)
        ensures
            json@ == services_response(
                *response,
                listing.page,
                listing.page_size,
                listing.filter_env,
            ),
    {
        let handler = ServicesHandler;
        let data = map_json(response.data.as_slice(), build_service);
        assert(data@->Array_0 =~= services_json(response.data@)->Array_0);
        let pagination = handler.format_pagination(
            listing.page,
            listing.page_size,
            response.data.len(),
        );
        let warnings = match &response.meta {
            Some(meta) => match &meta.warnings {
                Some(list) => map_json(list.as_slice(), build_warning),
                None => Json::empty_array(),
            },
            None => Json::empty_array(),
        };
        assert(warnings@->Array_0 =~= warnings_json(warnings_of(*response))->Array_0);
        let next = match &response.links {
            Some(links) => text_or_null_json(&links.next),
            None => Json::Null,
        };
        let mut meta: Vec<(String, Json)> = Vec::new();
        Json::push_field(&mut meta, "filter_env", text_or_null_json(&listing.filter_env));
        Json::push_field(&mut meta, "warnings", warnings);
        Json::push_field(&mut meta, "next", next);
        assert(view_fields(meta@) =~= seq![
            ("filter_env"@, text_or_null(listing.filter_env)),
            ("warnings"@, warnings_json(warnings_of(*response))),
            ("next"@, text_or_null(next_of(*response))),
        ]);
        handler.format_list(data, Some(pagination), Some(Json::object(meta)))
    }
}

} // verus!
