//! The assets of a release: listing them, and uploading a new one.
//!
//! An upload takes two round trips. The release is fetched first, for the
//! upload URL template that only its representation carries; the asset is
//! then posted to the target built from that template. `UploadAssetBuilder`
//! holds the decisions between the two; the caller carries out each request
//! and hands the outcome back.
use vstd::prelude::*;
use crate::error::ReleasesError;
use crate::releases::{release_path, ReleasesHandler};
use crate::request::{
    field, lemma_params_concat, lemma_params_field, params_of, ValueModel, fields_view, number_of, number_value, push_field, small_number_of, small_number_value,
    Field, Method, Param, Request, RequestModel,
};
use crate::text::{remove_all, strip_all};

verus! {

#[verifier::external_type_specification]
#[verifier::external_body]
pub struct ExUri(http::Uri);

#[verifier::external_type_specification]
#[verifier::external_body]
pub struct ExInvalidUri(http::uri::InvalidUri);

/// Whether http's URI parser accepts the text `s`.
pub uninterp spec fn uri_accepts(s: Seq<char>) -> bool;

/// Relies on http's `TryFrom<String> for Uri`: whether the text parses as a
/// URI depends on the text alone.
#[verifier::external_body]
fn parse_uri(s: String) -> (r: Result<http::Uri, http::uri::InvalidUri>)
    ensures
        r is Ok <==> uri_accepts(s@),
{
    http::Uri::try_from(s)
}

/// `/{owner}/{repo}/releases/{id}/assets`.
pub open spec fn assets_path(owner: Seq<char>, repo: Seq<char>, id: u64) -> Seq<char> {
    release_path(owner, repo, id) + "/assets"@
}

/// The upload target for an asset: the release's upload URL template with
/// its `{?name,label}` placeholder removed, then `?name=` and the asset's
/// name, then `&label=` and the label when there is one.
pub open spec fn upload_target_of(
    template: Seq<char>,
    name: Seq<char>,
    label: Option<String>,
) -> Seq<char> {
    let base = strip_all(template, "{?name,label}"@) + "?name="@ + name;
    match label {
        Some(l) => base + "&label="@ + l@,
        None => base,
    }
}

impl ReleasesHandler {
    /// A builder for listing the assets of the release `release_id`.
    pub fn assets(&self, release_id: u64) -> (r: ListReleaseAssetsBuilder<'_>)
        ensures
            r.handler == self,
            r.release_id == release_id,
            r.per_page.is_none(),
            r.page.is_none(),
    {
        ListReleaseAssetsBuilder { handler: self, release_id, per_page: None, page: None }
    }

    /// A builder for uploading `body` as the asset `asset_name` of the
    /// release `id`.
    pub fn upload_asset(&self, id: u64, asset_name: &str, body: Vec<u8>) -> (r: UploadAssetBuilder<'_>)
        ensures
            r.handler == self,
            r.release_id == id,
            r.name@ == asset_name@,
            r.body@ == body@,
            r.label.is_none(),
    {
        UploadAssetBuilder {
            handler: self,
            release_id: id,
            name: String::from_str(asset_name),
            body,
            label: None,
        }
    }
}

/// Lists the assets of a release, a page at a time.
pub struct ListReleaseAssetsBuilder<'h> {
    pub handler: &'h ReleasesHandler,
    /// Names the release in the path; never part of the query.
    pub release_id: u64,
    /// Results per page; the service caps it at 100.
    pub per_page: Option<u8>,
    /// The page to fetch, counted from 1.
    pub page: Option<u32>,
}

impl<'h> ListReleaseAssetsBuilder<'h> {
    pub open spec fn spec_request(&self) -> RequestModel {
        RequestModel {
            method: Method::Get,
            path: assets_path(self.handler.owner@, self.handler.repo@, self.release_id),
            query: field(Param::PerPage, small_number_of(self.per_page))
                + field(Param::Page, number_of(self.page)),
            body: None,
        }
    }

    /// Sets the number of results per page.
    pub fn per_page(self, per_page: u8) -> (r: Self)
        ensures
            r == (ListReleaseAssetsBuilder { per_page: Some(per_page), ..self }),
    {
        ListReleaseAssetsBuilder { per_page: Some(per_page), ..self }
    }

    /// Sets the page to fetch.
    pub fn page(self, page: u32) -> (r: Self)
        ensures
            r == (ListReleaseAssetsBuilder { page: Some(page), ..self }),
    {
        ListReleaseAssetsBuilder { page: Some(page), ..self }
    }

    /// The GET request that lists the assets, with the pagination parameters
    /// that were set.
    pub fn request(&self) -> (r: Request)
        ensures
            r@ == self.spec_request(),
    {
        let mut query: Vec<Field> = Vec::new();
        push_field(&mut query, Param::PerPage, small_number_value(self.per_page));
        push_field(&mut query, Param::Page, number_value(self.page));
        let mut path = self.handler.release_path(self.release_id);
        path.append("/assets");
        Request { method: Method::Get, path, query, body: None }
    }
}

/// Uploads a binary asset to a release.
pub struct UploadAssetBuilder<'h> {
    pub handler: &'h ReleasesHandler,
    pub release_id: u64,
    /// The file name of the asset.
    pub name: String,
    pub body: Vec<u8>,
    pub label: Option<String>,
}

/// The POST that uploads an asset: the raw bytes, sent as
/// `application/octet-stream` with their exact length.
pub struct UploadRequest {
    /// The upload target as text.
    pub target: String,
    /// The upload target as parsed by http.
    pub uri: http::Uri,
    pub content_type: String,
    pub content_length: usize,
    pub body: Vec<u8>,
}

impl<'h> UploadAssetBuilder<'h> {
    pub open spec fn spec_target(&self, template: Seq<char>) -> Seq<char> {
        upload_target_of(template, self.name@, self.label)
    }

    /// Sets the label shown for the asset.
    pub fn label(self, label: &str) -> (r: Self)
        ensures
            r == (UploadAssetBuilder { label: r.label, ..self }),
            r.label matches Some(s) && s@ == label@,
    {
        UploadAssetBuilder { label: Some(String::from_str(label)), ..self }
    }

    /// The first step: the GET request that fetches the release, whose
    /// representation holds the upload URL template.
    pub fn release_request(&self) -> (r: Request)
        ensures
            r@ == (RequestModel {
                method: Method::Get,
                path: release_path(self.handler.owner@, self.handler.repo@, self.release_id),
                query: Seq::empty(),
                body: None,
            }),
    {
        self.handler.get_request(self.release_id)
    }

    /// The upload target built from the release's upload URL template.
    pub fn upload_target(&self, template: &str) -> (r: String)
        ensures
            r@ == self.spec_target(template@),
    {
        proof { reveal_strlit("{?name,label}"); }
        let mut t = remove_all(template, "{?name,label}");
        t.append("?name=");
        t.append(self.name.as_str());
        match &self.label {
            Some(l) => {
                t.append("&label=");
                t.append(l.as_str());
            },
            None => {},
        }
        t
    }

    /// The upload for the target `target`, given what parsing it as a URI
    /// gave: the POST when it parsed, else a URI construction error that
    /// carries the target.
    pub fn upload_with(
        self,
        target: String,
        parsed: Result<http::Uri, http::uri::InvalidUri>,
    ) -> (r: Result<UploadRequest, ReleasesError>)
        ensures
            parsed is Err ==> (r matches Err(ReleasesError::UriConstruction { target: t })
                && t@ == target@),
            parsed is Ok ==> (r matches Ok(u) && u.target@ == target@ && u.uri == parsed->Ok_0
                && u.content_type@ == "application/octet-stream"@
                && u.content_length == self.body@.len() && u.body@ == self.body@),
    {
        match parsed {
            Ok(uri) => {
                let content_length = self.body.len();
                Ok(UploadRequest {
                    target,
                    uri,
                    content_type: String::from_str("application/octet-stream"),
                    content_length,
                    body: self.body,
                })
            },
            Err(_) => Err(ReleasesError::UriConstruction { target }),
        }
    }

    /// The second step, given the outcome of fetching the release: its upload
    /// URL template, or the error that the fetch ended in. A failed fetch
    /// ends the upload with that error, so no POST is built. Otherwise the
    /// POST carries the body and its exact length to the target built from
    /// the template, or the upload fails with a URI construction error when
    /// that target does not parse.
    pub fn after_fetch(self, fetched: Result<String, ReleasesError>) -> (r: Result<
        UploadRequest,
        ReleasesError,
    >)
        ensures
            fetched is Err ==> (r matches Err(e) && e == fetched->Err_0),
            fetched matches Ok(template) ==> {
                let target = self.spec_target(template@);
                &&& (r is Ok <==> uri_accepts(target))
                &&& (r matches Ok(u) ==> u.target@ == target
                    && u.content_type@ == "application/octet-stream"@
                    && u.content_length == self.body@.len() && u.body@ == self.body@)
                &&& (r matches Err(e) ==> (e matches ReleasesError::UriConstruction { target: t }
                    && t@ == target))
            },
    {
        match fetched {
            Err(e) => Err(e),
            Ok(template) => {
                let target = self.upload_target(template.as_str());
                let parsed = parse_uri(target.clone());
                self.upload_with(target, parsed)
            },
        }
    }
}

impl<'h> ListReleaseAssetsBuilder<'h> {
    /// Whether the query carries `p`: a pagination parameter when it was set.
    pub open spec fn sets(&self, p: Param) -> bool {
        match p {
            Param::PerPage => self.per_page is Some,
            Param::Page => self.page is Some,
            _ => false,
        }
    }
}

/// Listing assets sends exactly the pagination parameters that were set, and
/// no other; with neither set, the query is empty.
pub proof fn assets_query_holds_exactly_what_was_set(b: ListReleaseAssetsBuilder)
    ensures
        forall|p: Param| params_of(b.spec_request().query).contains(p) <==> b.sets(p),
        b.per_page is None && b.page is None ==> b.spec_request().query == Seq::<(Param, ValueModel)>::empty(),
{
    let f1 = field(Param::PerPage, small_number_of(b.per_page));
    let f2 = field(Param::Page, number_of(b.page));
    lemma_params_field(Param::PerPage, small_number_of(b.per_page));
    lemma_params_field(Param::Page, number_of(b.page));
    lemma_params_concat(f1, f2);
    if b.per_page is None && b.page is None {
        assert(f1 + f2 =~= Seq::<(Param, ValueModel)>::empty());
    }
}

} // verus!
