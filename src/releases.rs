//! The releases of one repository: the entry points and the request
//! builders for listing, creating, updating and deleting releases and for
//! generating release notes.
use vstd::prelude::*;
use crate::request::{
    field, lemma_params_concat, lemma_params_field, params_of, flag_of, flag_value, number_of, number_value, push_field, small_number_of,
    small_number_value, text_of, text_value, Field, Method, Param, Request, RequestModel,
    Value, ValueModel,
};
use crate::text::{decimal, push_decimal};

verus! {

/// Whether a release is marked as the repository's latest.
#[derive(Clone, Copy, Debug, PartialEq, Eq, Structural)]
pub enum MakeLatest {
    True,
    False,
    /// Latest-ness follows from creation date and highest semantic version.
    Legacy,
}

/// The token that stands for a `MakeLatest` policy on the wire.
pub open spec fn make_latest_token(m: MakeLatest) -> Seq<char> {
    match m {
        MakeLatest::True => "true"@,
        MakeLatest::False => "false"@,
        MakeLatest::Legacy => "legacy"@,
    }
}

impl MakeLatest {
    /// The lowercase token of the policy: `true`, `false` or `legacy`.
    pub fn as_str(&self) -> (r: &'static str)
        ensures
            r@ == make_latest_token(*self),
    {
        match self {
            MakeLatest::True => "true",
            MakeLatest::False => "false",
            MakeLatest::Legacy => "legacy",
        }
    }
}

pub open spec fn make_latest_of(o: Option<MakeLatest>) -> Option<ValueModel> {
    match o {
        Some(m) => Some(ValueModel::Text(make_latest_token(m))),
        None => None,
    }
}

fn make_latest_value(o: Option<MakeLatest>) -> (r: Option<Value>)
    ensures
        crate::request::value_of(r) == make_latest_of(o),
{
    match o {
        Some(m) => Some(Value::Text(String::from_str(m.as_str()))),
        None => None,
    }
}

/// `/{owner}/{repo}/releases`: the root of every path of this API.
pub open spec fn releases_root(owner: Seq<char>, repo: Seq<char>) -> Seq<char> {
    "/"@ + owner + "/"@ + repo + "/releases"@
}

/// `/{owner}/{repo}/releases/{id}`.
pub open spec fn release_path(owner: Seq<char>, repo: Seq<char>, id: u64) -> Seq<char> {
    releases_root(owner, repo) + "/"@ + decimal(id as nat)
}

/// The releases of one repository, named by its owner and its name.
#[derive(Clone, Debug)]
pub struct ReleasesHandler {
    pub owner: String,
    pub repo: String,
}

impl ReleasesHandler {
    pub open spec fn root(&self) -> Seq<char> {
        releases_root(self.owner@, self.repo@)
    }

    /// The releases of the repository `repo` of `owner`.
    pub fn new(owner: &str, repo: &str) -> (r: Self)
        ensures
            r.owner@ == owner@,
            r.repo@ == repo@,
    {
        ReleasesHandler { owner: String::from_str(owner), repo: String::from_str(repo) }
    }

    /// The path `/{owner}/{repo}/releases`.
    pub fn root_path(&self) -> (r: String)
        ensures
            r@ == self.root(),
    {
        let mut p = String::from_str("/");
        p.append(self.owner.as_str());
        p.append("/");
        p.append(self.repo.as_str());
        p.append("/releases");
        p
    }

    /// The path `/{owner}/{repo}/releases/{id}`.
    pub fn release_path(&self, id: u64) -> (r: String)
        ensures
            r@ == release_path(self.owner@, self.repo@, id),
    {
        let mut p = self.root_path();
        p.append("/");
        push_decimal(&mut p, id);
        p
    }

    /// A builder for listing the releases; nothing is sent yet.
    pub fn list(&self) -> (r: ListReleasesBuilder<'_>)
        ensures
            r.handler == self,
            r.per_page.is_none(),
            r.page.is_none(),
    {
        ListReleasesBuilder { handler: self, per_page: None, page: None }
    }

    /// A builder for creating a release with the tag `tag_name`.
    pub fn create(&self, tag_name: &str) -> (r: CreateReleaseBuilder<'_>)
        ensures
            r.handler == self,
            r.tag_name@ == tag_name@,
            r.target_commitish.is_none(),
            r.name.is_none(),
            r.body.is_none(),
            r.draft.is_none(),
            r.prerelease.is_none(),
            r.make_latest.is_none(),
    {
        CreateReleaseBuilder {
            handler: self,
            tag_name: String::from_str(tag_name),
            target_commitish: None,
            name: None,
            body: None,
            draft: None,
            prerelease: None,
            make_latest: None,
        }
    }

    /// A builder for changing the release `release_id`; fields left unset
    /// keep their value on the service.
    pub fn update(&self, release_id: u64) -> (r: UpdateReleaseBuilder<'_>)
        ensures
            r.handler == self,
            r.release_id == release_id,
            r.tag_name.is_none(),
            r.target_commitish.is_none(),
            r.name.is_none(),
            r.body.is_none(),
            r.draft.is_none(),
            r.prerelease.is_none(),
            r.make_latest.is_none(),
    {
        UpdateReleaseBuilder {
            handler: self,
            release_id,
            tag_name: None,
            target_commitish: None,
            name: None,
            body: None,
            draft: None,
            prerelease: None,
            make_latest: None,
        }
    }

    /// A builder for generating release notes for the tag `tag_name`.
    pub fn generate_release_notes(&self, tag_name: &str) -> (r: GenerateReleaseNotesBuilder<'_>)
        ensures
            r.handler == self,
            r.tag_name@ == tag_name@,
            r.previous_tag_name.is_none(),
            r.target_commitish.is_none(),
            r.configuration_file_path.is_none(),
    {
        GenerateReleaseNotesBuilder {
            handler: self,
            tag_name: String::from_str(tag_name),
            previous_tag_name: None,
            target_commitish: None,
            configuration_file_path: None,
        }
    }

    /// The GET request for the latest release.
    pub fn get_latest_request(&self) -> (r: Request)
        ensures
            r@ == (RequestModel {
                method: Method::Get,
                path: self.root() + "/latest"@,
                query: Seq::empty(),
                body: None,
            }),
    {
        let mut path = self.root_path();
        path.append("/latest");
        let r = Request { method: Method::Get, path, query: Vec::new(), body: None };
        assert(crate::request::fields_view(r.query@) =~= Seq::empty());
        r
    }

    /// The GET request for the release tagged `tag`.
    pub fn get_by_tag_request(&self, tag: &str) -> (r: Request)
        ensures
            r@ == (RequestModel {
                method: Method::Get,
                path: self.root() + "/tags/"@ + tag@,
                query: Seq::empty(),
                body: None,
            }),
    {
        let mut path = self.root_path();
        path.append("/tags/");
        path.append(tag);
        let r = Request { method: Method::Get, path, query: Vec::new(), body: None };
        assert(crate::request::fields_view(r.query@) =~= Seq::empty());
        r
    }

    /// The GET request for the release `number`.
    pub fn get_request(&self, number: u64) -> (r: Request)
        ensures
            r@ == (RequestModel {
                method: Method::Get,
                path: release_path(self.owner@, self.repo@, number),
                query: Seq::empty(),
                body: None,
            }),
    {
        let r = Request { method: Method::Get, path: self.release_path(number), query: Vec::new(), body: None };
        assert(crate::request::fields_view(r.query@) =~= Seq::empty());
        r
    }

    /// The DELETE request that removes the release `id`; its outcome is read
    /// with `crate::error::check_status`.
    pub fn delete_request(&self, id: u64) -> (r: Request)
        ensures
            r@ == (RequestModel {
                method: Method::Delete,
                path: release_path(self.owner@, self.repo@, id),
                query: Seq::empty(),
                body: None,
            }),
    {
        let r = Request { method: Method::Delete, path: self.release_path(id), query: Vec::new(), body: None };
        assert(crate::request::fields_view(r.query@) =~= Seq::empty());
        r
    }
}

/// Lists the releases of a repository, a page at a time.
pub struct ListReleasesBuilder<'h> {
    pub handler: &'h ReleasesHandler,
    /// Results per page; the service caps it at 100.
    pub per_page: Option<u8>,
    /// The page to fetch, counted from 1.
    pub page: Option<u32>,
}

impl<'h> ListReleasesBuilder<'h> {
    /// The request that lists the releases.
    pub open spec fn spec_request(&self) -> RequestModel {
        RequestModel {
            method: Method::Get,
            path: self.handler.root(),
            query: field(Param::PerPage, small_number_of(self.per_page))
                + field(Param::Page, number_of(self.page)),
            body: None,
        }
    }

    /// Sets the number of results per page.
    pub fn per_page(self, per_page: u8) -> (r: Self)
        ensures
            r.handler == self.handler,
            r.per_page == Some(per_page),
            r.page == self.page,
    {
        ListReleasesBuilder { per_page: Some(per_page), ..self }
    }

    /// Sets the page to fetch.
    pub fn page(self, page: u32) -> (r: Self)
        ensures
            r.handler == self.handler,
            r.per_page == self.per_page,
            r.page == Some(page),
    {
        ListReleasesBuilder { page: Some(page), ..self }
    }

    /// The GET request that lists the releases, with the pagination
    /// parameters that were set.
    pub fn request(&self) -> (r: Request)
        ensures
            r@ == self.spec_request(),
    {
        let mut query: Vec<Field> = Vec::new();
        push_field(&mut query, Param::PerPage, small_number_value(self.per_page));
        push_field(&mut query, Param::Page, number_value(self.page));
        Request { method: Method::Get, path: self.handler.root_path(), query, body: None }
    }
}

/// Creates a release.
pub struct CreateReleaseBuilder<'h> {
    pub handler: &'h ReleasesHandler,
    pub tag_name: String,
    /// The commit or branch the tag is created from, when the tag does not
    /// exist yet.
    pub target_commitish: Option<String>,
    pub name: Option<String>,
    pub body: Option<String>,
    pub draft: Option<bool>,
    pub prerelease: Option<bool>,
    pub make_latest: Option<MakeLatest>,
}

impl<'h> CreateReleaseBuilder<'h> {
    /// The JSON body of the request: the tag, then each optional field that
    /// was set.
    pub open spec fn spec_body(&self) -> Seq<(Param, ValueModel)> {
        seq![(Param::TagName, ValueModel::Text(self.tag_name@))]
            + field(Param::TargetCommitish, text_of(self.target_commitish))
            + field(Param::Name, text_of(self.name))
            + field(Param::Body, text_of(self.body))
            + field(Param::Draft, flag_of(self.draft))
            + field(Param::Prerelease, flag_of(self.prerelease))
            + field(Param::MakeLatest, make_latest_of(self.make_latest))
    }

    pub open spec fn spec_request(&self) -> RequestModel {
        RequestModel {
            method: Method::Post,
            path: self.handler.root(),
            query: Seq::empty(),
            body: Some(self.spec_body()),
        }
    }

    /// Sets the commit or branch the tag is created from.
    pub fn target_commitish(self, target_commitish: &str) -> (r: Self)
        ensures
            r == (CreateReleaseBuilder { target_commitish: r.target_commitish, ..self }),
            r.target_commitish matches Some(s) && s@ == target_commitish@,
    {
        CreateReleaseBuilder { target_commitish: Some(String::from_str(target_commitish)), ..self }
    }

    /// Sets the name of the release.
    pub fn name(self, name: &str) -> (r: Self)
        ensures
            r == (CreateReleaseBuilder { name: r.name, ..self }),
            r.name matches Some(s) && s@ == name@,
    {
        CreateReleaseBuilder { name: Some(String::from_str(name)), ..self }
    }

    /// Sets the text describing the release.
    pub fn body(self, body: &str) -> (r: Self)
        ensures
            r == (CreateReleaseBuilder { body: r.body, ..self }),
            r.body matches Some(s) && s@ == body@,
    {
        CreateReleaseBuilder { body: Some(String::from_str(body)), ..self }
    }

    /// Sets whether the release is a draft.
    pub fn draft(self, draft: bool) -> (r: Self)
        ensures
            r == (CreateReleaseBuilder { draft: Some(draft), ..self }),
    {
        CreateReleaseBuilder { draft: Some(draft), ..self }
    }

    /// Sets whether the release is a prerelease.
    pub fn prerelease(self, prerelease: bool) -> (r: Self)
        ensures
            r == (CreateReleaseBuilder { prerelease: Some(prerelease), ..self }),
    {
        CreateReleaseBuilder { prerelease: Some(prerelease), ..self }
    }

    /// Sets whether the release is marked as the latest.
    pub fn make_latest(self, make_latest: MakeLatest) -> (r: Self)
        ensures
            r == (CreateReleaseBuilder { make_latest: Some(make_latest), ..self }),
    {
        CreateReleaseBuilder { make_latest: Some(make_latest), ..self }
    }

    /// The POST request that creates the release.
    pub fn request(&self) -> (r: Request)
        ensures
            r@ == self.spec_request(),
    {
        let mut body: Vec<Field> = Vec::new();
        body.push(Field { param: Param::TagName, value: Value::Text(self.tag_name.clone()) });
        assert(crate::request::fields_view(body@) =~= seq![(Param::TagName, ValueModel::Text(self.tag_name@))]);
        push_field(&mut body, Param::TargetCommitish, text_value(&self.target_commitish));
        push_field(&mut body, Param::Name, text_value(&self.name));
        push_field(&mut body, Param::Body, text_value(&self.body));
        push_field(&mut body, Param::Draft, flag_value(self.draft));
        push_field(&mut body, Param::Prerelease, flag_value(self.prerelease));
        push_field(&mut body, Param::MakeLatest, make_latest_value(self.make_latest));
        let r = Request { method: Method::Post, path: self.handler.root_path(), query: Vec::new(), body: Some(body) };
        assert(crate::request::fields_view(r.query@) =~= Seq::empty());
        r
    }
}

/// Changes a release. Only the fields that were set are sent; the service
/// keeps the others as they are.
pub struct UpdateReleaseBuilder<'h> {
    pub handler: &'h ReleasesHandler,
    /// Names the release in the path; never part of the body.
    pub release_id: u64,
    pub tag_name: Option<String>,
    pub target_commitish: Option<String>,
    pub name: Option<String>,
    pub body: Option<String>,
    pub draft: Option<bool>,
    pub prerelease: Option<bool>,
    pub make_latest: Option<MakeLatest>,
}

impl<'h> UpdateReleaseBuilder<'h> {
    /// The JSON body of the request: each field that was set, and no other.
    pub open spec fn spec_body(&self) -> Seq<(Param, ValueModel)> {
        field(Param::TagName, text_of(self.tag_name))
            + field(Param::TargetCommitish, text_of(self.target_commitish))
            + field(Param::Name, text_of(self.name))
            + field(Param::Body, text_of(self.body))
            + field(Param::Draft, flag_of(self.draft))
            + field(Param::Prerelease, flag_of(self.prerelease))
            + field(Param::MakeLatest, make_latest_of(self.make_latest))
    }

    pub open spec fn spec_request(&self) -> RequestModel {
        RequestModel {
            method: Method::Patch,
            path: release_path(self.handler.owner@, self.handler.repo@, self.release_id),
            query: Seq::empty(),
            body: Some(self.spec_body()),
        }
    }

    /// Sets the tag of the release.
    pub fn tag_name(self, tag_name: &str) -> (r: Self)
        ensures
            r == (UpdateReleaseBuilder { tag_name: r.tag_name, ..self }),
            r.tag_name matches Some(s) && s@ == tag_name@,
    {
        UpdateReleaseBuilder { tag_name: Some(String::from_str(tag_name)), ..self }
    }

    /// Sets the commit or branch the tag is created from.
    pub fn target_commitish(self, target_commitish: &str) -> (r: Self)
        ensures
            r == (UpdateReleaseBuilder { target_commitish: r.target_commitish, ..self }),
            r.target_commitish matches Some(s) && s@ == target_commitish@,
    {
        UpdateReleaseBuilder { target_commitish: Some(String::from_str(target_commitish)), ..self }
    }

    /// Sets the name of the release.
    pub fn name(self, name: &str) -> (r: Self)
        ensures
            r == (UpdateReleaseBuilder { name: r.name, ..self }),
            r.name matches Some(s) && s@ == name@,
    {
        UpdateReleaseBuilder { name: Some(String::from_str(name)), ..self }
    }

    /// Sets the text describing the release.
    pub fn body(self, body: &str) -> (r: Self)
        ensures
            r == (UpdateReleaseBuilder { body: r.body, ..self }),
            r.body matches Some(s) && s@ == body@,
    {
        UpdateReleaseBuilder { body: Some(String::from_str(body)), ..self }
    }

    /// Sets whether the release is a draft.
    pub fn draft(self, draft: bool) -> (r: Self)
        ensures
            r == (UpdateReleaseBuilder { draft: Some(draft), ..self }),
    {
        UpdateReleaseBuilder { draft: Some(draft), ..self }
    }

    /// Sets whether the release is a prerelease.
    pub fn prerelease(self, prerelease: bool) -> (r: Self)
        ensures
            r == (UpdateReleaseBuilder { prerelease: Some(prerelease), ..self }),
    {
        UpdateReleaseBuilder { prerelease: Some(prerelease), ..self }
    }

    /// Sets whether the release is marked as the latest.
    pub fn make_latest(self, make_latest: MakeLatest) -> (r: Self)
        ensures
            r == (UpdateReleaseBuilder { make_latest: Some(make_latest), ..self }),
    {
        UpdateReleaseBuilder { make_latest: Some(make_latest), ..self }
    }

    /// The PATCH request that changes the release.
    pub fn request(&self) -> (r: Request)
        ensures
            r@ == self.spec_request(),
    {
        let mut body: Vec<Field> = Vec::new();
        assert(crate::request::fields_view(body@) =~= Seq::empty());
        push_field(&mut body, Param::TagName, text_value(&self.tag_name));
        push_field(&mut body, Param::TargetCommitish, text_value(&self.target_commitish));
        push_field(&mut body, Param::Name, text_value(&self.name));
        push_field(&mut body, Param::Body, text_value(&self.body));
        push_field(&mut body, Param::Draft, flag_value(self.draft));
        push_field(&mut body, Param::Prerelease, flag_value(self.prerelease));
        push_field(&mut body, Param::MakeLatest, make_latest_value(self.make_latest));
        let r = Request {
            method: Method::Patch,
            path: self.handler.release_path(self.release_id),
            query: Vec::new(),
            body: Some(body),
        };
        assert(crate::request::fields_view(r.query@) =~= Seq::empty());
        r
    }
}

/// Asks the service to generate release notes. This changes nothing on the
/// service.
pub struct GenerateReleaseNotesBuilder<'h> {
    pub handler: &'h ReleasesHandler,
    pub tag_name: String,
    /// The tag the notes start from; the service infers it when unset.
    pub previous_tag_name: Option<String>,
    /// Ignored by the service when the tag exists.
    pub target_commitish: Option<String>,
    /// A configuration file in the repository for generating the notes.
    pub configuration_file_path: Option<String>,
}

impl<'h> GenerateReleaseNotesBuilder<'h> {
    /// The JSON body of the request: the tag, then each optional field that
    /// was set.
    pub open spec fn spec_body(&self) -> Seq<(Param, ValueModel)> {
        seq![(Param::TagName, ValueModel::Text(self.tag_name@))]
            + field(Param::PreviousTagName, text_of(self.previous_tag_name))
            + field(Param::TargetCommitish, text_of(self.target_commitish))
            + field(Param::ConfigurationFilePath, text_of(self.configuration_file_path))
    }

    pub open spec fn spec_request(&self) -> RequestModel {
        RequestModel {
            method: Method::Post,
            path: self.handler.root() + "/generate-notes"@,
            query: Seq::empty(),
            body: Some(self.spec_body()),
        }
    }

    /// Sets the tag the notes start from.
    pub fn previous_tag_name(self, previous_tag_name: &str) -> (r: Self)
        ensures
            r == (GenerateReleaseNotesBuilder { previous_tag_name: r.previous_tag_name, ..self }),
            r.previous_tag_name matches Some(s) && s@ == previous_tag_name@,
    {
        GenerateReleaseNotesBuilder { previous_tag_name: Some(String::from_str(previous_tag_name)), ..self }
    }

    /// Sets the commit or branch the tag would be created from.
    pub fn target_commitish(self, target_commitish: &str) -> (r: Self)
        ensures
            r == (GenerateReleaseNotesBuilder { target_commitish: r.target_commitish, ..self }),
            r.target_commitish matches Some(s) && s@ == target_commitish@,
    {
        GenerateReleaseNotesBuilder { target_commitish: Some(String::from_str(target_commitish)), ..self }
    }

    /// Sets the path of the configuration file for generating the notes.
    pub fn configuration_file_path(self, configuration_file_path: &str) -> (r: Self)
        ensures
            r == (GenerateReleaseNotesBuilder { configuration_file_path: r.configuration_file_path, ..self }),
            r.configuration_file_path matches Some(s) && s@ == configuration_file_path@,
    {
        GenerateReleaseNotesBuilder {
            configuration_file_path: Some(String::from_str(configuration_file_path)),
            ..self
        }
    }

    /// The POST request that generates the notes.
    pub fn request(&self) -> (r: Request)
        ensures
            r@ == self.spec_request(),
    {
        let mut body: Vec<Field> = Vec::new();
        body.push(Field { param: Param::TagName, value: Value::Text(self.tag_name.clone()) });
        assert(crate::request::fields_view(body@) =~= seq![(Param::TagName, ValueModel::Text(self.tag_name@))]);
        push_field(&mut body, Param::PreviousTagName, text_value(&self.previous_tag_name));
        push_field(&mut body, Param::TargetCommitish, text_value(&self.target_commitish));
        push_field(&mut body, Param::ConfigurationFilePath, text_value(&self.configuration_file_path));
        let mut path = self.handler.root_path();
        path.append("/generate-notes");
        let r = Request { method: Method::Post, path, query: Vec::new(), body: Some(body) };
        assert(crate::request::fields_view(r.query@) =~= Seq::empty());
        r
    }
}

impl<'h> ListReleasesBuilder<'h> {
    /// Whether the query carries `p`: a pagination parameter when it was set.
    pub open spec fn sets(&self, p: Param) -> bool {
        match p {
            Param::PerPage => self.per_page is Some,
            Param::Page => self.page is Some,
            _ => false,
        }
    }
}

impl<'h> CreateReleaseBuilder<'h> {
    /// Whether the body carries `p`: the tag always, an optional field when
    /// it was set.
    pub open spec fn sets(&self, p: Param) -> bool {
        match p {
            Param::TagName => true,
            Param::TargetCommitish => self.target_commitish is Some,
            Param::Name => self.name is Some,
            Param::Body => self.body is Some,
            Param::Draft => self.draft is Some,
            Param::Prerelease => self.prerelease is Some,
            Param::MakeLatest => self.make_latest is Some,
            _ => false,
        }
    }
}

impl<'h> UpdateReleaseBuilder<'h> {
    /// Whether the body carries `p`: a field when it was set.
    pub open spec fn sets(&self, p: Param) -> bool {
        match p {
            Param::TagName => self.tag_name is Some,
            Param::TargetCommitish => self.target_commitish is Some,
            Param::Name => self.name is Some,
            Param::Body => self.body is Some,
            Param::Draft => self.draft is Some,
            Param::Prerelease => self.prerelease is Some,
            Param::MakeLatest => self.make_latest is Some,
            _ => false,
        }
    }
}

impl<'h> GenerateReleaseNotesBuilder<'h> {
    /// Whether the body carries `p`: the tag always, an optional field when
    /// it was set.
    pub open spec fn sets(&self, p: Param) -> bool {
        match p {
            Param::TagName => true,
            Param::PreviousTagName => self.previous_tag_name is Some,
            Param::TargetCommitish => self.target_commitish is Some,
            Param::ConfigurationFilePath => self.configuration_file_path is Some,
            _ => false,
        }
    }
}

/// Listing releases sends exactly the pagination parameters that were set,
/// and no other; with neither set, the query is empty.
pub proof fn list_query_holds_exactly_what_was_set(b: ListReleasesBuilder)
    ensures
        forall|p: Param| params_of(b.spec_request().query).contains(p) <==> b.sets(p),
        b.per_page is None && b.page is None ==> b.spec_request().query == Seq::<(Param, ValueModel)>::empty(),
{
    let f1 = field(Param::PerPage, small_number_of(b.per_page));
    let f2 = field(Param::Page, number_of(b.page));
    lemma_params_field(Param::PerPage, small_number_of(b.per_page));
    lemma_params_field(Param::Page, number_of(b.page));
    lemma_params_concat(f1, f2);
    if b.per_page is None && b.page is None {
        assert(f1 + f2 =~= Seq::<(Param, ValueModel)>::empty());
    }
}

/// Creating a release sends the tag and exactly the optional fields that
/// were set: an unset field is left out of the body, never sent as null.
pub proof fn create_body_holds_exactly_what_was_set(b: CreateReleaseBuilder)
    ensures
        forall|p: Param| params_of(b.spec_request().body.unwrap()).contains(p) <==> b.sets(p),
{
    let f0 = seq![(Param::TagName, ValueModel::Text(b.tag_name@))];
    let f1 = field(Param::TargetCommitish, text_of(b.target_commitish));
    let f2 = field(Param::Name, text_of(b.name));
    let f3 = field(Param::Body, text_of(b.body));
    let f4 = field(Param::Draft, flag_of(b.draft));
    let f5 = field(Param::Prerelease, flag_of(b.prerelease));
    let f6 = field(Param::MakeLatest, make_latest_of(b.make_latest));
    lemma_params_field(Param::TagName, Some(ValueModel::Text(b.tag_name@)));
    lemma_params_field(Param::TargetCommitish, text_of(b.target_commitish));
    lemma_params_field(Param::Name, text_of(b.name));
    lemma_params_field(Param::Body, text_of(b.body));
    lemma_params_field(Param::Draft, flag_of(b.draft));
    lemma_params_field(Param::Prerelease, flag_of(b.prerelease));
    lemma_params_field(Param::MakeLatest, make_latest_of(b.make_latest));
    lemma_params_concat(f0, f1);
    lemma_params_concat(f0 + f1, f2);
    lemma_params_concat(f0 + f1 + f2, f3);
    lemma_params_concat(f0 + f1 + f2 + f3, f4);
    lemma_params_concat(f0 + f1 + f2 + f3 + f4, f5);
    lemma_params_concat(f0 + f1 + f2 + f3 + f4 + f5, f6);
}

/// Updating a release sends exactly the fields that were set: an unset field
/// is left out of the body, never sent as null, so the service keeps it.
pub proof fn update_body_holds_exactly_what_was_set(b: UpdateReleaseBuilder)
    ensures
        forall|p: Param| params_of(b.spec_request().body.unwrap()).contains(p) <==> b.sets(p),
{
    let f0 = field(Param::TagName, text_of(b.tag_name));
    let f1 = field(Param::TargetCommitish, text_of(b.target_commitish));
    let f2 = field(Param::Name, text_of(b.name));
    let f3 = field(Param::Body, text_of(b.body));
    let f4 = field(Param::Draft, flag_of(b.draft));
    let f5 = field(Param::Prerelease, flag_of(b.prerelease));
    let f6 = field(Param::MakeLatest, make_latest_of(b.make_latest));
    lemma_params_field(Param::TagName, text_of(b.tag_name));
    lemma_params_field(Param::TargetCommitish, text_of(b.target_commitish));
    lemma_params_field(Param::Name, text_of(b.name));
    lemma_params_field(Param::Body, text_of(b.body));
    lemma_params_field(Param::Draft, flag_of(b.draft));
    lemma_params_field(Param::Prerelease, flag_of(b.prerelease));
    lemma_params_field(Param::MakeLatest, make_latest_of(b.make_latest));
    lemma_params_concat(f0, f1);
    lemma_params_concat(f0 + f1, f2);
    lemma_params_concat(f0 + f1 + f2, f3);
    lemma_params_concat(f0 + f1 + f2 + f3, f4);
    lemma_params_concat(f0 + f1 + f2 + f3 + f4, f5);
    lemma_params_concat(f0 + f1 + f2 + f3 + f4 + f5, f6);
}

/// An update with no field set is still a PATCH of the release's path, and
/// its body is empty: it changes nothing on the service.
pub proof fn empty_update_changes_nothing(b: UpdateReleaseBuilder)
    requires
        b.tag_name is None,
        b.target_commitish is None,
        b.name is None,
        b.body is None,
        b.draft is None,
        b.prerelease is None,
        b.make_latest is None,
    ensures
        b.spec_request().method == Method::Patch,
        b.spec_request().path == release_path(b.handler.owner@, b.handler.repo@, b.release_id),
        b.spec_request().body == Some(Seq::<(Param, ValueModel)>::empty()),
{
    assert(b.spec_body() =~= Seq::<(Param, ValueModel)>::empty());
}

/// Generating release notes sends the tag and exactly the optional fields
/// that were set: an unset field is left out of the body, never sent as null.
pub proof fn notes_body_holds_exactly_what_was_set(b: GenerateReleaseNotesBuilder)
    ensures
        forall|p: Param| params_of(b.spec_request().body.unwrap()).contains(p) <==> b.sets(p),
{
    let f0 = seq![(Param::TagName, ValueModel::Text(b.tag_name@))];
    let f1 = field(Param::PreviousTagName, text_of(b.previous_tag_name));
    let f2 = field(Param::TargetCommitish, text_of(b.target_commitish));
    let f3 = field(Param::ConfigurationFilePath, text_of(b.configuration_file_path));
    lemma_params_field(Param::TagName, Some(ValueModel::Text(b.tag_name@)));
    lemma_params_field(Param::PreviousTagName, text_of(b.previous_tag_name));
    lemma_params_field(Param::TargetCommitish, text_of(b.target_commitish));
    lemma_params_field(Param::ConfigurationFilePath, text_of(b.configuration_file_path));
    lemma_params_concat(f0, f1);
    lemma_params_concat(f0 + f1, f2);
    lemma_params_concat(f0 + f1 + f2, f3);
}

} // verus!
