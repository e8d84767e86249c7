//! Endpoints of the search engine's REST interface: for each one, the urls it
//! may be reached at, the request that goes there, and the HTTP method and
//! body that the request is sent with.
use vstd::prelude::*;
use crate::http::{DefaultBody, HttpMethod, HttpRequest, Url};
use crate::params::{
    Alias, Feature, Fields, Id, Index, IndexMetric, Lang, Metric, Name,
    NewIndex, NodeId, Repository, ScrollId, Snapshot, Target, TaskId, ThreadPoolPatterns, Type,
};

verus! {

/// The urls of the indices close endpoint, by the parameters each one takes.
#[derive(Debug, PartialEq, Clone)]
pub enum IndicesCloseUrlParams {
    Index(Index),
}

impl IndicesCloseUrlParams {
    /// The url these parameters spell.
    pub fn url(self) -> (r: Url)
        ensures
            r@ == match self {
                IndicesCloseUrlParams::Index(index) => "/"@ + index.0@ + "/_close"@,
            },
    {
        match self {
            IndicesCloseUrlParams::Index(index) => {
                let mut url = "/".to_owned();
                url.push_str(index.0.as_str());
                url.push_str("/_close");
                Url::from_string(url)
            },
        }
    }
}

/// A request to the indices close endpoint.
#[derive(Debug, PartialEq, Clone)]
pub struct IndicesCloseRequest<B> {
    pub url: Url,
    pub body: B,
}

impl<B> IndicesCloseRequest<B> {
    /// A request to the url at `index`.
    pub fn for_index(index: Index, body: B) -> (r: Self)
        ensures
            r.url@ == "/"@ + index.0@ + "/_close"@,
            r.body == body,
    {
        IndicesCloseRequest { url: IndicesCloseUrlParams::Index(index).url(), body: body }
    }
}

impl<B> From<IndicesCloseRequest<B>> for HttpRequest<B> {
    fn from(req: IndicesCloseRequest<B>) -> HttpRequest<B> {
        HttpRequest { url: req.url, method: HttpMethod::Post, body: Some(req.body) }
    }
}

impl<B> vstd::std_specs::convert::FromSpecImpl<IndicesCloseRequest<B>> for HttpRequest<B> {
    open spec fn obeys_from_spec() -> bool {
        true
    }

    open spec fn from_spec(req: IndicesCloseRequest<B>) -> HttpRequest<B> {
        HttpRequest { url: req.url, method: HttpMethod::Post, body: Some(req.body) }
    }
}

/// The urls of the delete script endpoint, by the parameters each one takes.
#[derive(Debug, PartialEq, Clone)]
pub enum DeleteScriptUrlParams {
    LangId(Lang, Id),
}

impl DeleteScriptUrlParams {
    /// The url these parameters spell.
    pub fn url(self) -> (r: Url)
        ensures
            r@ == match self {
                DeleteScriptUrlParams::LangId(lang, id) => "/_scripts/"@ + lang.0@ + "/"@ + id.0@,
            },
    {
        match self {
            DeleteScriptUrlParams::LangId(lang, id) => {
                let mut url = "/_scripts/".to_owned();
                url.push_str(lang.0.as_str());
                url.push_str("/");
                url.push_str(id.0.as_str());
                Url::from_string(url)
            },
        }
    }
}

/// A request to the delete script endpoint.
#[derive(Debug, PartialEq, Clone)]
pub struct DeleteScriptRequest {
    pub url: Url,
}

impl DeleteScriptRequest {
    /// A request to the url at `lang`, `id`.
    pub fn for_lang_id(lang: Lang, id: Id) -> (r: Self)
        ensures
            r.url@ == "/_scripts/"@ + lang.0@ + "/"@ + id.0@,
    {
        DeleteScriptRequest { url: DeleteScriptUrlParams::LangId(lang, id).url() }
    }
}

impl From<DeleteScriptRequest> for HttpRequest<DefaultBody> {
    fn from(req: DeleteScriptRequest) -> HttpRequest<DefaultBody> {
        HttpRequest { url: req.url, method: HttpMethod::Delete, body: None }
    }
}

impl vstd::std_specs::convert::FromSpecImpl<DeleteScriptRequest> for HttpRequest<DefaultBody> {
    open spec fn obeys_from_spec() -> bool {
        true
    }

    open spec fn from_spec(req: DeleteScriptRequest) -> HttpRequest<DefaultBody> {
        HttpRequest { url: req.url, method: HttpMethod::Delete, body: None }
    }
}

/// The urls of the termvectors endpoint, by the parameters each one takes.
#[derive(Debug, PartialEq, Clone)]
pub enum TermvectorsUrlParams {
    IndexType(Index, Type),
    IndexTypeId(Index, Type, Id),
}

impl TermvectorsUrlParams {
    /// The url these parameters spell.
    pub fn url(self) -> (r: Url)
        ensures
            r@ == match self {
                TermvectorsUrlParams::IndexType(index, ty) => "/"@ + index.0@ + "/"@ + ty.0@ + "/_termvectors"@,
                TermvectorsUrlParams::IndexTypeId(index, ty, id) => "/"@ + index.0@ + "/"@ + ty.0@ + "/"@ + id.0@ + "/_termvectors"@,
            },
    {
        match self {
            TermvectorsUrlParams::IndexType(index, ty) => {
                let mut url = "/".to_owned();
                url.push_str(index.0.as_str());
                url.push_str("/");
                url.push_str(ty.0.as_str());
                url.push_str("/_termvectors");
                Url::from_string(url)
            },
            TermvectorsUrlParams::IndexTypeId(index, ty, id) => {
                let mut url = "/".to_owned();
                url.push_str(index.0.as_str());
                url.push_str("/");
                url.push_str(ty.0.as_str());
                url.push_str("/");
                url.push_str(id.0.as_str());
                url.push_str("/_termvectors");
                Url::from_string(url)
            },
        }
    }
}

/// A request to the termvectors endpoint.
#[derive(Debug, PartialEq, Clone)]
pub struct TermvectorsRequest<B> {
    pub url: Url,
    pub body: B,
}

impl<B> TermvectorsRequest<B> {
    /// A request to the url at `index`, `ty`.
    pub fn for_index_ty(index: Index, ty: Type, body: B) -> (r: Self)
        ensures
            r.url@ == "/"@ + index.0@ + "/"@ + ty.0@ + "/_termvectors"@,
            r.body == body,
    {
        TermvectorsRequest { url: TermvectorsUrlParams::IndexType(index, ty).url(), body: body }
    }

    /// A request to the url at `index`, `ty`, `id`.
    pub fn for_index_ty_id(index: Index, ty: Type, id: Id, body: B) -> (r: Self)
        ensures
            r.url@ == "/"@ + index.0@ + "/"@ + ty.0@ + "/"@ + id.0@ + "/_termvectors"@,
            r.body == body,
    {
        TermvectorsRequest { url: TermvectorsUrlParams::IndexTypeId(index, ty, id).url(), body: body }
    }
}

impl<B> From<TermvectorsRequest<B>> for HttpRequest<B> {
    fn from(req: TermvectorsRequest<B>) -> HttpRequest<B> {
        HttpRequest { url: req.url, method: HttpMethod::Post, body: Some(req.body) }
    }
}

impl<B> vstd::std_specs::convert::FromSpecImpl<TermvectorsRequest<B>> for HttpRequest<B> {
    open spec fn obeys_from_spec() -> bool {
        true
    }

    open spec fn from_spec(req: TermvectorsRequest<B>) -> HttpRequest<B> {
        HttpRequest { url: req.url, method: HttpMethod::Post, body: Some(req.body) }
    }
}

/// The urls of the field stats endpoint, by the parameters each one takes.
#[derive(Debug, PartialEq, Clone)]
pub enum FieldStatsUrlParams {
    /// The url that takes no parameters.
    Base,
    Index(Index),
}

impl FieldStatsUrlParams {
    /// The url these parameters spell.
    pub fn url(self) -> (r: Url)
        ensures
            r@ == match self {
                FieldStatsUrlParams::Base => "/_field_stats"@,
                FieldStatsUrlParams::Index(index) => "/"@ + index.0@ + "/_field_stats"@,
            },
    {
        match self {
            FieldStatsUrlParams::Base => Url::from_string("/_field_stats".to_owned()),
            FieldStatsUrlParams::Index(index) => {
                let mut url = "/".to_owned();
                url.push_str(index.0.as_str());
                url.push_str("/_field_stats");
                Url::from_string(url)
            },
        }
    }
}

/// A request to the field stats endpoint.
#[derive(Debug, PartialEq, Clone)]
pub struct FieldStatsRequest<B> {
    pub url: Url,
    pub body: B,
}

impl<B> FieldStatsRequest<B> {
    /// A request to the url without parameters.
    pub fn new(body: B) -> (r: Self)
        ensures
            r.url@ == "/_field_stats"@,
            r.body == body,
    {
        FieldStatsRequest { url: FieldStatsUrlParams::Base.url(), body: body }
    }

    /// A request to the url at `index`.
    pub fn for_index(index: Index, body: B) -> (r: Self)
        ensures
            r.url@ == "/"@ + index.0@ + "/_field_stats"@,
            r.body == body,
    {
        FieldStatsRequest { url: FieldStatsUrlParams::Index(index).url(), body: body }
    }
}

impl<B> From<FieldStatsRequest<B>> for HttpRequest<B> {
    fn from(req: FieldStatsRequest<B>) -> HttpRequest<B> {
        HttpRequest { url: req.url, method: HttpMethod::Post, body: Some(req.body) }
    }
}

impl<B> vstd::std_specs::convert::FromSpecImpl<FieldStatsRequest<B>> for HttpRequest<B> {
    open spec fn obeys_from_spec() -> bool {
        true
    }

    open spec fn from_spec(req: FieldStatsRequest<B>) -> HttpRequest<B> {
        HttpRequest { url: req.url, method: HttpMethod::Post, body: Some(req.body) }
    }
}

/// The urls of the cat thread pool endpoint, by the parameters each one takes.
#[derive(Debug, PartialEq, Clone)]
pub enum CatThreadPoolUrlParams {
    /// The url that takes no parameters.
    Base,
    ThreadPoolPatterns(ThreadPoolPatterns),
}

impl CatThreadPoolUrlParams {
    /// The url these parameters spell.
    pub fn url(self) -> (r: Url)
        ensures
            r@ == match self {
                CatThreadPoolUrlParams::Base => "/_cat/thread_pool"@,
                CatThreadPoolUrlParams::ThreadPoolPatterns(thread_pool_patterns) => "/_cat/thread_pool/"@ + thread_pool_patterns.0@,
            },
    {
        match self {
            CatThreadPoolUrlParams::Base => Url::from_string("/_cat/thread_pool".to_owned()),
            CatThreadPoolUrlParams::ThreadPoolPatterns(thread_pool_patterns) => {
                let mut url = "/_cat/thread_pool/".to_owned();
                url.push_str(thread_pool_patterns.0.as_str());
                Url::from_string(url)
            },
        }
    }
}

/// A request to the cat thread pool endpoint.
#[derive(Debug, PartialEq, Clone)]
pub struct CatThreadPoolRequest {
    pub url: Url,
}

impl CatThreadPoolRequest {
    /// A request to the url without parameters.
    pub fn new() -> (r: Self)
        ensures
            r.url@ == "/_cat/thread_pool"@,
    {
        CatThreadPoolRequest { url: CatThreadPoolUrlParams::Base.url() }
    }

    /// A request to the url at `thread_pool_patterns`.
    pub fn for_thread_pool_patterns(thread_pool_patterns: ThreadPoolPatterns) -> (r: Self)
        ensures
            r.url@ == "/_cat/thread_pool/"@ + thread_pool_patterns.0@,
    {
        CatThreadPoolRequest { url: CatThreadPoolUrlParams::ThreadPoolPatterns(thread_pool_patterns).url() }
    }
}

impl From<CatThreadPoolRequest> for HttpRequest<DefaultBody> {
    fn from(req: CatThreadPoolRequest) -> HttpRequest<DefaultBody> {
        HttpRequest { url: req.url, method: HttpMethod::Get, body: None }
    }
}

impl vstd::std_specs::convert::FromSpecImpl<CatThreadPoolRequest> for HttpRequest<DefaultBody> {
    open spec fn obeys_from_spec() -> bool {
        true
    }

    open spec fn from_spec(req: CatThreadPoolRequest) -> HttpRequest<DefaultBody> {
        HttpRequest { url: req.url, method: HttpMethod::Get, body: None }
    }
}

/// The urls of the snapshot delete endpoint, by the parameters each one takes.
#[derive(Debug, PartialEq, Clone)]
pub enum SnapshotDeleteUrlParams {
    RepositorySnapshot(Repository, Snapshot),
}

impl SnapshotDeleteUrlParams {
    /// The url these parameters spell.
    pub fn url(self) -> (r: Url)
        ensures
            r@ == match self {
                SnapshotDeleteUrlParams::RepositorySnapshot(repository, snapshot) => "/_snapshot/"@ + repository.0@ + "/"@ + snapshot.0@,
            },
    {
        match self {
            SnapshotDeleteUrlParams::RepositorySnapshot(repository, snapshot) => {
                let mut url = "/_snapshot/".to_owned();
                url.push_str(repository.0.as_str());
                url.push_str("/");
                url.push_str(snapshot.0.as_str());
                Url::from_string(url)
            },
        }
    }
}

/// A request to the snapshot delete endpoint.
#[derive(Debug, PartialEq, Clone)]
pub struct SnapshotDeleteRequest {
    pub url: Url,
}

impl SnapshotDeleteRequest {
    /// A request to the url at `repository`, `snapshot`.
    pub fn for_repository_snapshot(repository: Repository, snapshot: Snapshot) -> (r: Self)
        ensures
            r.url@ == "/_snapshot/"@ + repository.0@ + "/"@ + snapshot.0@,
    {
        SnapshotDeleteRequest { url: SnapshotDeleteUrlParams::RepositorySnapshot(repository, snapshot).url() }
    }
}

impl From<SnapshotDeleteRequest> for HttpRequest<DefaultBody> {
    fn from(req: SnapshotDeleteRequest) -> HttpRequest<DefaultBody> {
        HttpRequest { url: req.url, method: HttpMethod::Delete, body: None }
    }
}

impl vstd::std_specs::convert::FromSpecImpl<SnapshotDeleteRequest> for HttpRequest<DefaultBody> {
    open spec fn obeys_from_spec() -> bool {
        true
    }

    open spec fn from_spec(req: SnapshotDeleteRequest) -> HttpRequest<DefaultBody> {
        HttpRequest { url: req.url, method: HttpMethod::Delete, body: None }
    }
}

/// The urls of the indices get settings endpoint, by the parameters each one takes.
#[derive(Debug, PartialEq, Clone)]
pub enum IndicesGetSettingsUrlParams {
    /// The url that takes no parameters.
    Base,
    Index(Index),
    IndexName(Index, Name),
    Name(Name),
}

impl IndicesGetSettingsUrlParams {
    /// The url these parameters spell.
    pub fn url(self) -> (r: Url)
        ensures
            r@ == match self {
                IndicesGetSettingsUrlParams::Base => "/_settings"@,
                IndicesGetSettingsUrlParams::Index(index) => "/"@ + index.0@ + "/_settings"@,
                IndicesGetSettingsUrlParams::IndexName(index, name) => "/"@ + index.0@ + "/_settings/"@ + name.0@,
                IndicesGetSettingsUrlParams::Name(name) => "/_settings/"@ + name.0@,
            },
    {
        match self {
            IndicesGetSettingsUrlParams::Base => Url::from_string("/_settings".to_owned()),
            IndicesGetSettingsUrlParams::Index(index) => {
                let mut url = "/".to_owned();
                url.push_str(index.0.as_str());
                url.push_str("/_settings");
                Url::from_string(url)
            },
            IndicesGetSettingsUrlParams::IndexName(index, name) => {
                let mut url = "/".to_owned();
                url.push_str(index.0.as_str());
                url.push_str("/_settings/");
                url.push_str(name.0.as_str());
                Url::from_string(url)
            },
            IndicesGetSettingsUrlParams::Name(name) => {
                let mut url = "/_settings/".to_owned();
                url.push_str(name.0.as_str());
                Url::from_string(url)
            },
        }
    }
}

/// A request to the indices get settings endpoint.
#[derive(Debug, PartialEq, Clone)]
pub struct IndicesGetSettingsRequest {
    pub url: Url,
}

impl IndicesGetSettingsRequest {
    /// A request to the url without parameters.
    pub fn new() -> (r: Self)
        ensures
            r.url@ == "/_settings"@,
    {
        IndicesGetSettingsRequest { url: IndicesGetSettingsUrlParams::Base.url() }
    }

    /// A request to the url at `index`.
    pub fn for_index(index: Index) -> (r: Self)
        ensures
            r.url@ == "/"@ + index.0@ + "/_settings"@,
    {
        IndicesGetSettingsRequest { url: IndicesGetSettingsUrlParams::Index(index).url() }
    }

    /// A request to the url at `index`, `name`.
    pub fn for_index_name(index: Index, name: Name) -> (r: Self)
        ensures
            r.url@ == "/"@ + index.0@ + "/_settings/"@ + name.0@,
    {
        IndicesGetSettingsRequest { url: IndicesGetSettingsUrlParams::IndexName(index, name).url() }
    }

    /// A request to the url at `name`.
    pub fn for_name(name: Name) -> (r: Self)
        ensures
            r.url@ == "/_settings/"@ + name.0@,
    {
        IndicesGetSettingsRequest { url: IndicesGetSettingsUrlParams::Name(name).url() }
    }
}

impl From<IndicesGetSettingsRequest> for HttpRequest<DefaultBody> {
    fn from(req: IndicesGetSettingsRequest) -> HttpRequest<DefaultBody> {
        HttpRequest { url: req.url, method: HttpMethod::Get, body: None }
    }
}

impl vstd::std_specs::convert::FromSpecImpl<IndicesGetSettingsRequest> for HttpRequest<DefaultBody> {
    open spec fn obeys_from_spec() -> bool {
        true
    }

    open spec fn from_spec(req: IndicesGetSettingsRequest) -> HttpRequest<DefaultBody> {
        HttpRequest { url: req.url, method: HttpMethod::Get, body: None }
    }
}

/// The urls of the create endpoint, by the parameters each one takes.
#[derive(Debug, PartialEq, Clone)]
pub enum CreateUrlParams {
    IndexTypeId(Index, Type, Id),
}

impl CreateUrlParams {
    /// The url these parameters spell.
    pub fn url(self) -> (r: Url)
        ensures
            r@ == match self {
                CreateUrlParams::IndexTypeId(index, ty, id) => "/"@ + index.0@ + "/"@ + ty.0@ + "/"@ + id.0@ + "/_create"@,
            },
    {
        match self {
            CreateUrlParams::IndexTypeId(index, ty, id) => {
                let mut url = "/".to_owned();
                url.push_str(index.0.as_str());
                url.push_str("/");
                url.push_str(ty.0.as_str());
                url.push_str("/");
                url.push_str(id.0.as_str());
                url.push_str("/_create");
                Url::from_string(url)
            },
        }
    }
}

/// A request to the create endpoint.
#[derive(Debug, PartialEq, Clone)]
pub struct CreateRequest<B> {
    pub url: Url,
    pub body: B,
}

impl<B> CreateRequest<B> {
    /// A request to the url at `index`, `ty`, `id`.
    pub fn for_index_ty_id(index: Index, ty: Type, id: Id, body: B) -> (r: Self)
        ensures
            r.url@ == "/"@ + index.0@ + "/"@ + ty.0@ + "/"@ + id.0@ + "/_create"@,
            r.body == body,
    {
        CreateRequest { url: CreateUrlParams::IndexTypeId(index, ty, id).url(), body: body }
    }
}

impl<B> From<CreateRequest<B>> for HttpRequest<B> {
    fn from(req: CreateRequest<B>) -> HttpRequest<B> {
        HttpRequest { url: req.url, method: HttpMethod::Post, body: Some(req.body) }
    }
}

impl<B> vstd::std_specs::convert::FromSpecImpl<CreateRequest<B>> for HttpRequest<B> {
    open spec fn obeys_from_spec() -> bool {
        true
    }

    open spec fn from_spec(req: CreateRequest<B>) -> HttpRequest<B> {
        HttpRequest { url: req.url, method: HttpMethod::Post, body: Some(req.body) }
    }
}

/// The urls of the snapshot delete repository endpoint, by the parameters each one takes.
#[derive(Debug, PartialEq, Clone)]
pub enum SnapshotDeleteRepositoryUrlParams {
    Repository(Repository),
}

impl SnapshotDeleteRepositoryUrlParams {
    /// The url these parameters spell.
    pub fn url(self) -> (r: Url)
        ensures
            r@ == match self {
                SnapshotDeleteRepositoryUrlParams::Repository(repository) => "/_snapshot/"@ + repository.0@,
            },
    {
        match self {
            SnapshotDeleteRepositoryUrlParams::Repository(repository) => {
                let mut url = "/_snapshot/".to_owned();
                url.push_str(repository.0.as_str());
                Url::from_string(url)
            },
        }
    }
}

/// A request to the snapshot delete repository endpoint.
#[derive(Debug, PartialEq, Clone)]
pub struct SnapshotDeleteRepositoryRequest {
    pub url: Url,
}

impl SnapshotDeleteRepositoryRequest {
    /// A request to the url at `repository`.
    pub fn for_repository(repository: Repository) -> (r: Self)
        ensures
            r.url@ == "/_snapshot/"@ + repository.0@,
    {
        SnapshotDeleteRepositoryRequest { url: SnapshotDeleteRepositoryUrlParams::Repository(repository).url() }
    }
}

impl From<SnapshotDeleteRepositoryRequest> for HttpRequest<DefaultBody> {
    fn from(req: SnapshotDeleteRepositoryRequest) -> HttpRequest<DefaultBody> {
        HttpRequest { url: req.url, method: HttpMethod::Delete, body: None }
    }
}

impl vstd::std_specs::convert::FromSpecImpl<SnapshotDeleteRepositoryRequest> for HttpRequest<DefaultBody> {
    open spec fn obeys_from_spec() -> bool {
        true
    }

    open spec fn from_spec(req: SnapshotDeleteRepositoryRequest) -> HttpRequest<DefaultBody> {
        HttpRequest { url: req.url, method: HttpMethod::Delete, body: None }
    }
}

/// The urls of the cluster allocation explain endpoint, by the parameters each one takes.
#[derive(Debug, PartialEq, Clone)]
pub enum ClusterAllocationExplainUrlParams {
    /// The url that takes no parameters.
    Base,
}

impl ClusterAllocationExplainUrlParams {
    /// The url these parameters spell.
    pub fn url(self) -> (r: Url)
        ensures
            r@ == match self {
                ClusterAllocationExplainUrlParams::Base => "/_cluster/allocation/explain"@,
            },
    {
        match self {
            ClusterAllocationExplainUrlParams::Base => Url::from_string("/_cluster/allocation/explain".to_owned()),
        }
    }
}

/// A request to the cluster allocation explain endpoint.
#[derive(Debug, PartialEq, Clone)]
pub struct ClusterAllocationExplainRequest<B> {
    pub url: Url,
    pub body: B,
}

impl<B> ClusterAllocationExplainRequest<B> {
    /// A request to the url without parameters.
    pub fn new(body: B) -> (r: Self)
        ensures
            r.url@ == "/_cluster/allocation/explain"@,
            r.body == body,
    {
        ClusterAllocationExplainRequest { url: ClusterAllocationExplainUrlParams::Base.url(), body: body }
    }
}

impl<B> From<ClusterAllocationExplainRequest<B>> for HttpRequest<B> {
    fn from(req: ClusterAllocationExplainRequest<B>) -> HttpRequest<B> {
        HttpRequest { url: req.url, method: HttpMethod::Post, body: Some(req.body) }
    }
}

impl<B> vstd::std_specs::convert::FromSpecImpl<ClusterAllocationExplainRequest<B>> for HttpRequest<B> {
    open spec fn obeys_from_spec() -> bool {
        true
    }

    open spec fn from_spec(req: ClusterAllocationExplainRequest<B>) -> HttpRequest<B> {
        HttpRequest { url: req.url, method: HttpMethod::Post, body: Some(req.body) }
    }
}

/// The urls of the indices put template endpoint, by the parameters each one takes.
#[derive(Debug, PartialEq, Clone)]
pub enum IndicesPutTemplateUrlParams {
    Name(Name),
}

impl IndicesPutTemplateUrlParams {
    /// The url these parameters spell.
    pub fn url(self) -> (r: Url)
        ensures
            r@ == match self {
                IndicesPutTemplateUrlParams::Name(name) => "/_template/"@ + name.0@,
            },
    {
        match self {
            IndicesPutTemplateUrlParams::Name(name) => {
                let mut url = "/_template/".to_owned();
                url.push_str(name.0.as_str());
                Url::from_string(url)
            },
        }
    }
}

/// A request to the indices put template endpoint.
#[derive(Debug, PartialEq, Clone)]
pub struct IndicesPutTemplateRequest<B> {
    pub url: Url,
    pub body: B,
}

impl<B> IndicesPutTemplateRequest<B> {
    /// A request to the url at `name`.
    pub fn for_name(name: Name, body: B) -> (r: Self)
        ensures
            r.url@ == "/_template/"@ + name.0@,
            r.body == body,
    {
        IndicesPutTemplateRequest { url: IndicesPutTemplateUrlParams::Name(name).url(), body: body }
    }
}

impl<B> From<IndicesPutTemplateRequest<B>> for HttpRequest<B> {
    fn from(req: IndicesPutTemplateRequest<B>) -> HttpRequest<B> {
        HttpRequest { url: req.url, method: HttpMethod::Post, body: Some(req.body) }
    }
}

impl<B> vstd::std_specs::convert::FromSpecImpl<IndicesPutTemplateRequest<B>> for HttpRequest<B> {
    open spec fn obeys_from_spec() -> bool {
        true
    }

    open spec fn from_spec(req: IndicesPutTemplateRequest<B>) -> HttpRequest<B> {
        HttpRequest { url: req.url, method: HttpMethod::Post, body: Some(req.body) }
    }
}

/// The urls of the indices get template endpoint, by the parameters each one takes.
#[derive(Debug, PartialEq, Clone)]
pub enum IndicesGetTemplateUrlParams {
    /// The url that takes no parameters.
    Base,
    Name(Name),
}

impl IndicesGetTemplateUrlParams {
    /// The url these parameters spell.
    pub fn url(self) -> (r: Url)
        ensures
            r@ == match self {
                IndicesGetTemplateUrlParams::Base => "/_template"@,
                IndicesGetTemplateUrlParams::Name(name) => "/_template/"@ + name.0@,
            },
    {
        match self {
            IndicesGetTemplateUrlParams::Base => Url::from_string("/_template".to_owned()),
            IndicesGetTemplateUrlParams::Name(name) => {
                let mut url = "/_template/".to_owned();
                url.push_str(name.0.as_str());
                Url::from_string(url)
            },
        }
    }
}

/// A request to the indices get template endpoint.
#[derive(Debug, PartialEq, Clone)]
pub struct IndicesGetTemplateRequest {
    pub url: Url,
}

impl IndicesGetTemplateRequest {
    /// A request to the url without parameters.
    pub fn new() -> (r: Self)
        ensures
            r.url@ == "/_template"@,
    {
        IndicesGetTemplateRequest { url: IndicesGetTemplateUrlParams::Base.url() }
    }

    /// A request to the url at `name`.
    pub fn for_name(name: Name) -> (r: Self)
        ensures
            r.url@ == "/_template/"@ + name.0@,
    {
        IndicesGetTemplateRequest { url: IndicesGetTemplateUrlParams::Name(name).url() }
    }
}

impl From<IndicesGetTemplateRequest> for HttpRequest<DefaultBody> {
    fn from(req: IndicesGetTemplateRequest) -> HttpRequest<DefaultBody> {
        HttpRequest { url: req.url, method: HttpMethod::Get, body: None }
    }
}

impl vstd::std_specs::convert::FromSpecImpl<IndicesGetTemplateRequest> for HttpRequest<DefaultBody> {
    open spec fn obeys_from_spec() -> bool {
        true
    }

    open spec fn from_spec(req: IndicesGetTemplateRequest) -> HttpRequest<DefaultBody> {
        HttpRequest { url: req.url, method: HttpMethod::Get, body: None }
    }
}

/// The urls of the cluster state endpoint, by the parameters each one takes.
#[derive(Debug, PartialEq, Clone)]
pub enum ClusterStateUrlParams {
    /// The url that takes no parameters.
    Base,
    Metric(Metric),
    MetricIndex(Metric, Index),
}

impl ClusterStateUrlParams {
    /// The url these parameters spell.
    pub fn url(self) -> (r: Url)
        ensures
            r@ == match self {
                ClusterStateUrlParams::Base => "/_cluster/state"@,
                ClusterStateUrlParams::Metric(metric) => "/_cluster/state/"@ + metric.0@,
                ClusterStateUrlParams::MetricIndex(metric, index) => "/_cluster/state/"@ + metric.0@ + "/"@ + index.0@,
            },
    {
        match self {
            ClusterStateUrlParams::Base => Url::from_string("/_cluster/state".to_owned()),
            ClusterStateUrlParams::Metric(metric) => {
                let mut url = "/_cluster/state/".to_owned();
                url.push_str(metric.0.as_str());
                Url::from_string(url)
            },
            ClusterStateUrlParams::MetricIndex(metric, index) => {
                let mut url = "/_cluster/state/".to_owned();
                url.push_str(metric.0.as_str());
                url.push_str("/");
                url.push_str(index.0.as_str());
                Url::from_string(url)
            },
        }
    }
}

/// A request to the cluster state endpoint.
#[derive(Debug, PartialEq, Clone)]
pub struct ClusterStateRequest {
    pub url: Url,
}

impl ClusterStateRequest {
    /// A request to the url without parameters.
    pub fn new() -> (r: Self)
        ensures
            r.url@ == "/_cluster/state"@,
    {
        ClusterStateRequest { url: ClusterStateUrlParams::Base.url() }
    }

    /// A request to the url at `metric`.
    pub fn for_metric(metric: Metric) -> (r: Self)
        ensures
            r.url@ == "/_cluster/state/"@ + metric.0@,
    {
        ClusterStateRequest { url: ClusterStateUrlParams::Metric(metric).url() }
    }

    /// A request to the url at `metric`, `index`.
    pub fn for_metric_index(metric: Metric, index: Index) -> (r: Self)
        ensures
            r.url@ == "/_cluster/state/"@ + metric.0@ + "/"@ + index.0@,
    {
        ClusterStateRequest { url: ClusterStateUrlParams::MetricIndex(metric, index).url() }
    }
}

impl From<ClusterStateRequest> for HttpRequest<DefaultBody> {
    fn from(req: ClusterStateRequest) -> HttpRequest<DefaultBody> {
        HttpRequest { url: req.url, method: HttpMethod::Get, body: None }
    }
}

impl vstd::std_specs::convert::FromSpecImpl<ClusterStateRequest> for HttpRequest<DefaultBody> {
    open spec fn obeys_from_spec() -> bool {
        true
    }

    open spec fn from_spec(req: ClusterStateRequest) -> HttpRequest<DefaultBody> {
        HttpRequest { url: req.url, method: HttpMethod::Get, body: None }
    }
}

/// The urls of the msearch template endpoint, by the parameters each one takes.
#[derive(Debug, PartialEq, Clone)]
pub enum MsearchTemplateUrlParams {
    /// The url that takes no parameters.
    Base,
    Index(Index),
    IndexType(Index, Type),
}

impl MsearchTemplateUrlParams {
    /// The url these parameters spell.
    pub fn url(self) -> (r: Url)
        ensures
            r@ == match self {
                MsearchTemplateUrlParams::Base => "/_msearch/template"@,
                MsearchTemplateUrlParams::Index(index) => "/"@ + index.0@ + "/_msearch/template"@,
                MsearchTemplateUrlParams::IndexType(index, ty) => "/"@ + index.0@ + "/"@ + ty.0@ + "/_msearch/template"@,
            },
    {
        match self {
            MsearchTemplateUrlParams::Base => Url::from_string("/_msearch/template".to_owned()),
            MsearchTemplateUrlParams::Index(index) => {
                let mut url = "/".to_owned();
                url.push_str(index.0.as_str());
                url.push_str("/_msearch/template");
                Url::from_string(url)
            },
            MsearchTemplateUrlParams::IndexType(index, ty) => {
                let mut url = "/".to_owned();
                url.push_str(index.0.as_str());
                url.push_str("/");
                url.push_str(ty.0.as_str());
                url.push_str("/_msearch/template");
                Url::from_string(url)
            },
        }
    }
}

/// A request to the msearch template endpoint.
#[derive(Debug, PartialEq, Clone)]
pub struct MsearchTemplateRequest<B> {
    pub url: Url,
    pub body: B,
}

impl<B> MsearchTemplateRequest<B> {
    /// A request to the url without parameters.
    pub fn new(body: B) -> (r: Self)
        ensures
            r.url@ == "/_msearch/template"@,
            r.body == body,
    {
        MsearchTemplateRequest { url: MsearchTemplateUrlParams::Base.url(), body: body }
    }

    /// A request to the url at `index`.
    pub fn for_index(index: Index, body: B) -> (r: Self)
        ensures
            r.url@ == "/"@ + index.0@ + "/_msearch/template"@,
            r.body == body,
    {
        MsearchTemplateRequest { url: MsearchTemplateUrlParams::Index(index).url(), body: body }
    }

    /// A request to the url at `index`, `ty`.
    pub fn for_index_ty(index: Index, ty: Type, body: B) -> (r: Self)
        ensures
            r.url@ == "/"@ + index.0@ + "/"@ + ty.0@ + "/_msearch/template"@,
            r.body == body,
    {
        MsearchTemplateRequest { url: MsearchTemplateUrlParams::IndexType(index, ty).url(), body: body }
    }
}

impl<B> From<MsearchTemplateRequest<B>> for HttpRequest<B> {
    fn from(req: MsearchTemplateRequest<B>) -> HttpRequest<B> {
        HttpRequest { url: req.url, method: HttpMethod::Post, body: Some(req.body) }
    }
}

impl<B> vstd::std_specs::convert::FromSpecImpl<MsearchTemplateRequest<B>> for HttpRequest<B> {
    open spec fn obeys_from_spec() -> bool {
        true
    }

    open spec fn from_spec(req: MsearchTemplateRequest<B>) -> HttpRequest<B> {
        HttpRequest { url: req.url, method: HttpMethod::Post, body: Some(req.body) }
    }
}

/// The urls of the bulk endpoint, by the parameters each one takes.
#[derive(Debug, PartialEq, Clone)]
pub enum BulkUrlParams {
    /// The url that takes no parameters.
    Base,
    Index(Index),
    IndexType(Index, Type),
}

impl BulkUrlParams {
    /// The url these parameters spell.
    pub fn url(self) -> (r: Url)
        ensures
            r@ == match self {
                BulkUrlParams::Base => "/_bulk"@,
                BulkUrlParams::Index(index) => "/"@ + index.0@ + "/_bulk"@,
                BulkUrlParams::IndexType(index, ty) => "/"@ + index.0@ + "/"@ + ty.0@ + "/_bulk"@,
            },
    {
        match self {
            BulkUrlParams::Base => Url::from_string("/_bulk".to_owned()),
            BulkUrlParams::Index(index) => {
                let mut url = "/".to_owned();
                url.push_str(index.0.as_str());
                url.push_str("/_bulk");
                Url::from_string(url)
            },
            BulkUrlParams::IndexType(index, ty) => {
                let mut url = "/".to_owned();
                url.push_str(index.0.as_str());
                url.push_str("/");
                url.push_str(ty.0.as_str());
                url.push_str("/_bulk");
                Url::from_string(url)
            },
        }
    }
}

/// A request to the bulk endpoint.
#[derive(Debug, PartialEq, Clone)]
pub struct BulkRequest<B> {
    pub url: Url,
    pub body: B,
}

impl<B> BulkRequest<B> {
    /// A request to the url without parameters.
    pub fn new(body: B) -> (r: Self)
        ensures
            r.url@ == "/_bulk"@,
            r.body == body,
    {
        BulkRequest { url: BulkUrlParams::Base.url(), body: body }
    }

    /// A request to the url at `index`.
    pub fn for_index(index: Index, body: B) -> (r: Self)
        ensures
            r.url@ == "/"@ + index.0@ + "/_bulk"@,
            r.body == body,
    {
        BulkRequest { url: BulkUrlParams::Index(index).url(), body: body }
    }

    /// A request to the url at `index`, `ty`.
    pub fn for_index_ty(index: Index, ty: Type, body: B) -> (r: Self)
        ensures
            r.url@ == "/"@ + index.0@ + "/"@ + ty.0@ + "/_bulk"@,
            r.body == body,
    {
        BulkRequest { url: BulkUrlParams::IndexType(index, ty).url(), body: body }
    }
}

impl<B> From<BulkRequest<B>> for HttpRequest<B> {
    fn from(req: BulkRequest<B>) -> HttpRequest<B> {
        HttpRequest { url: req.url, method: HttpMethod::Post, body: Some(req.body) }
    }
}

impl<B> vstd::std_specs::convert::FromSpecImpl<BulkRequest<B>> for HttpRequest<B> {
    open spec fn obeys_from_spec() -> bool {
        true
    }

    open spec fn from_spec(req: BulkRequest<B>) -> HttpRequest<B> {
        HttpRequest { url: req.url, method: HttpMethod::Post, body: Some(req.body) }
    }
}

/// The urls of the explain endpoint, by the parameters each one takes.
#[derive(Debug, PartialEq, Clone)]
pub enum ExplainUrlParams {
    IndexTypeId(Index, Type, Id),
}

impl ExplainUrlParams {
    /// The url these parameters spell.
    pub fn url(self) -> (r: Url)
        ensures
            r@ == match self {
                ExplainUrlParams::IndexTypeId(index, ty, id) => "/"@ + index.0@ + "/"@ + ty.0@ + "/"@ + id.0@ + "/_explain"@,
            },
    {
        match self {
            ExplainUrlParams::IndexTypeId(index, ty, id) => {
                let mut url = "/".to_owned();
                url.push_str(index.0.as_str());
                url.push_str("/");
                url.push_str(ty.0.as_str());
                url.push_str("/");
                url.push_str(id.0.as_str());
                url.push_str("/_explain");
                Url::from_string(url)
            },
        }
    }
}

/// A request to the explain endpoint.
#[derive(Debug, PartialEq, Clone)]
pub struct ExplainRequest<B> {
    pub url: Url,
    pub body: B,
}

impl<B> ExplainRequest<B> {
    /// A request to the url at `index`, `ty`, `id`.
    pub fn for_index_ty_id(index: Index, ty: Type, id: Id, body: B) -> (r: Self)
        ensures
            r.url@ == "/"@ + index.0@ + "/"@ + ty.0@ + "/"@ + id.0@ + "/_explain"@,
            r.body == body,
    {
        ExplainRequest { url: ExplainUrlParams::IndexTypeId(index, ty, id).url(), body: body }
    }
}

impl<B> From<ExplainRequest<B>> for HttpRequest<B> {
    fn from(req: ExplainRequest<B>) -> HttpRequest<B> {
        HttpRequest { url: req.url, method: HttpMethod::Post, body: Some(req.body) }
    }
}

impl<B> vstd::std_specs::convert::FromSpecImpl<ExplainRequest<B>> for HttpRequest<B> {
    open spec fn obeys_from_spec() -> bool {
        true
    }

    open spec fn from_spec(req: ExplainRequest<B>) -> HttpRequest<B> {
        HttpRequest { url: req.url, method: HttpMethod::Post, body: Some(req.body) }
    }
}

/// The urls of the suggest endpoint, by the parameters each one takes.
#[derive(Debug, PartialEq, Clone)]
pub enum SuggestUrlParams {
    /// The url that takes no parameters.
    Base,
    Index(Index),
}

impl SuggestUrlParams {
    /// The url these parameters spell.
    pub fn url(self) -> (r: Url)
        ensures
            r@ == match self {
                SuggestUrlParams::Base => "/_suggest"@,
                SuggestUrlParams::Index(index) => "/"@ + index.0@ + "/_suggest"@,
            },
    {
        match self {
            SuggestUrlParams::Base => Url::from_string("/_suggest".to_owned()),
            SuggestUrlParams::Index(index) => {
                let mut url = "/".to_owned();
                url.push_str(index.0.as_str());
                url.push_str("/_suggest");
                Url::from_string(url)
            },
        }
    }
}

/// A request to the suggest endpoint.
#[derive(Debug, PartialEq, Clone)]
pub struct SuggestRequest<B> {
    pub url: Url,
    pub body: B,
}

impl<B> SuggestRequest<B> {
    /// A request to the url without parameters.
    pub fn new(body: B) -> (r: Self)
        ensures
            r.url@ == "/_suggest"@,
            r.body == body,
    {
        SuggestRequest { url: SuggestUrlParams::Base.url(), body: body }
    }

    /// A request to the url at `index`.
    pub fn for_index(index: Index, body: B) -> (r: Self)
        ensures
            r.url@ == "/"@ + index.0@ + "/_suggest"@,
            r.body == body,
    {
        SuggestRequest { url: SuggestUrlParams::Index(index).url(), body: body }
    }
}

impl<B> From<SuggestRequest<B>> for HttpRequest<B> {
    fn from(req: SuggestRequest<B>) -> HttpRequest<B> {
        HttpRequest { url: req.url, method: HttpMethod::Post, body: Some(req.body) }
    }
}

impl<B> vstd::std_specs::convert::FromSpecImpl<SuggestRequest<B>> for HttpRequest<B> {
    open spec fn obeys_from_spec() -> bool {
        true
    }

    open spec fn from_spec(req: SuggestRequest<B>) -> HttpRequest<B> {
        HttpRequest { url: req.url, method: HttpMethod::Post, body: Some(req.body) }
    }
}

/// The urls of the snapshot get repository endpoint, by the parameters each one takes.
#[derive(Debug, PartialEq, Clone)]
pub enum SnapshotGetRepositoryUrlParams {
    /// The url that takes no parameters.
    Base,
    Repository(Repository),
}

impl SnapshotGetRepositoryUrlParams {
    /// The url these parameters spell.
    pub fn url(self) -> (r: Url)
        ensures
            r@ == match self {
                SnapshotGetRepositoryUrlParams::Base => "/_snapshot"@,
                SnapshotGetRepositoryUrlParams::Repository(repository) => "/_snapshot/"@ + repository.0@,
            },
    {
        match self {
            SnapshotGetRepositoryUrlParams::Base => Url::from_string("/_snapshot".to_owned()),
            SnapshotGetRepositoryUrlParams::Repository(repository) => {
                let mut url = "/_snapshot/".to_owned();
                url.push_str(repository.0.as_str());
                Url::from_string(url)
            },
        }
    }
}

/// A request to the snapshot get repository endpoint.
#[derive(Debug, PartialEq, Clone)]
pub struct SnapshotGetRepositoryRequest {
    pub url: Url,
}

impl SnapshotGetRepositoryRequest {
    /// A request to the url without parameters.
    pub fn new() -> (r: Self)
        ensures
            r.url@ == "/_snapshot"@,
    {
        SnapshotGetRepositoryRequest { url: SnapshotGetRepositoryUrlParams::Base.url() }
    }

    /// A request to the url at `repository`.
    pub fn for_repository(repository: Repository) -> (r: Self)
        ensures
            r.url@ == "/_snapshot/"@ + repository.0@,
    {
        SnapshotGetRepositoryRequest { url: SnapshotGetRepositoryUrlParams::Repository(repository).url() }
    }
}

impl From<SnapshotGetRepositoryRequest> for HttpRequest<DefaultBody> {
    fn from(req: SnapshotGetRepositoryRequest) -> HttpRequest<DefaultBody> {
        HttpRequest { url: req.url, method: HttpMethod::Get, body: None }
    }
}

impl vstd::std_specs::convert::FromSpecImpl<SnapshotGetRepositoryRequest> for HttpRequest<DefaultBody> {
    open spec fn obeys_from_spec() -> bool {
        true
    }

    open spec fn from_spec(req: SnapshotGetRepositoryRequest) -> HttpRequest<DefaultBody> {
        HttpRequest { url: req.url, method: HttpMethod::Get, body: None }
    }
}

/// The urls of the render search template endpoint, by the parameters each one takes.
#[derive(Debug, PartialEq, Clone)]
pub enum RenderSearchTemplateUrlParams {
    /// The url that takes no parameters.
    Base,
    Id(Id),
}

impl RenderSearchTemplateUrlParams {
    /// The url these parameters spell.
    pub fn url(self) -> (r: Url)
        ensures
            r@ == match self {
                RenderSearchTemplateUrlParams::Base => "/_render/template"@,
                RenderSearchTemplateUrlParams::Id(id) => "/_render/template/"@ + id.0@,
            },
    {
        match self {
            RenderSearchTemplateUrlParams::Base => Url::from_string("/_render/template".to_owned()),
            RenderSearchTemplateUrlParams::Id(id) => {
                let mut url = "/_render/template/".to_owned();
                url.push_str(id.0.as_str());
                Url::from_string(url)
            },
        }
    }
}

/// A request to the render search template endpoint.
#[derive(Debug, PartialEq, Clone)]
pub struct RenderSearchTemplateRequest<B> {
    pub url: Url,
    pub body: B,
}

impl<B> RenderSearchTemplateRequest<B> {
    /// A request to the url without parameters.
    pub fn new(body: B) -> (r: Self)
        ensures
            r.url@ == "/_render/template"@,
            r.body == body,
    {
        RenderSearchTemplateRequest { url: RenderSearchTemplateUrlParams::Base.url(), body: body }
    }

    /// A request to the url at `id`.
    pub fn for_id(id: Id, body: B) -> (r: Self)
        ensures
            r.url@ == "/_render/template/"@ + id.0@,
            r.body == body,
    {
        RenderSearchTemplateRequest { url: RenderSearchTemplateUrlParams::Id(id).url(), body: body }
    }
}

impl<B> From<RenderSearchTemplateRequest<B>> for HttpRequest<B> {
    fn from(req: RenderSearchTemplateRequest<B>) -> HttpRequest<B> {
        HttpRequest { url: req.url, method: HttpMethod::Post, body: Some(req.body) }
    }
}

impl<B> vstd::std_specs::convert::FromSpecImpl<RenderSearchTemplateRequest<B>> for HttpRequest<B> {
    open spec fn obeys_from_spec() -> bool {
        true
    }

    open spec fn from_spec(req: RenderSearchTemplateRequest<B>) -> HttpRequest<B> {
        HttpRequest { url: req.url, method: HttpMethod::Post, body: Some(req.body) }
    }
}

/// The urls of the indices stats endpoint, by the parameters each one takes.
#[derive(Debug, PartialEq, Clone)]
pub enum IndicesStatsUrlParams {
    /// The url that takes no parameters.
    Base,
    Index(Index),
    IndexMetric(Index, Metric),
    Metric(Metric),
}

impl IndicesStatsUrlParams {
    /// The url these parameters spell.
    pub fn url(self) -> (r: Url)
        ensures
            r@ == match self {
                IndicesStatsUrlParams::Base => "/_stats"@,
                IndicesStatsUrlParams::Index(index) => "/"@ + index.0@ + "/_stats"@,
                IndicesStatsUrlParams::IndexMetric(index, metric) => "/"@ + index.0@ + "/_stats/"@ + metric.0@,
                IndicesStatsUrlParams::Metric(metric) => "/_stats/"@ + metric.0@,
            },
    {
        match self {
            IndicesStatsUrlParams::Base => Url::from_string("/_stats".to_owned()),
            IndicesStatsUrlParams::Index(index) => {
                let mut url = "/".to_owned();
                url.push_str(index.0.as_str());
                url.push_str("/_stats");
                Url::from_string(url)
            },
            IndicesStatsUrlParams::IndexMetric(index, metric) => {
                let mut url = "/".to_owned();
                url.push_str(index.0.as_str());
                url.push_str("/_stats/");
                url.push_str(metric.0.as_str());
                Url::from_string(url)
            },
            IndicesStatsUrlParams::Metric(metric) => {
                let mut url = "/_stats/".to_owned();
                url.push_str(metric.0.as_str());
                Url::from_string(url)
            },
        }
    }
}

/// A request to the indices stats endpoint.
#[derive(Debug, PartialEq, Clone)]
pub struct IndicesStatsRequest {
    pub url: Url,
}

impl IndicesStatsRequest {
    /// A request to the url without parameters.
    pub fn new() -> (r: Self)
        ensures
            r.url@ == "/_stats"@,
    {
        IndicesStatsRequest { url: IndicesStatsUrlParams::Base.url() }
    }

    /// A request to the url at `index`.
    pub fn for_index(index: Index) -> (r: Self)
        ensures
            r.url@ == "/"@ + index.0@ + "/_stats"@,
    {
        IndicesStatsRequest { url: IndicesStatsUrlParams::Index(index).url() }
    }

    /// A request to the url at `index`, `metric`.
    pub fn for_index_metric(index: Index, metric: Metric) -> (r: Self)
        ensures
            r.url@ == "/"@ + index.0@ + "/_stats/"@ + metric.0@,
    {
        IndicesStatsRequest { url: IndicesStatsUrlParams::IndexMetric(index, metric).url() }
    }

    /// A request to the url at `metric`.
    pub fn for_metric(metric: Metric) -> (r: Self)
        ensures
            r.url@ == "/_stats/"@ + metric.0@,
    {
        IndicesStatsRequest { url: IndicesStatsUrlParams::Metric(metric).url() }
    }
}

impl From<IndicesStatsRequest> for HttpRequest<DefaultBody> {
    fn from(req: IndicesStatsRequest) -> HttpRequest<DefaultBody> {
        HttpRequest { url: req.url, method: HttpMethod::Get, body: None }
    }
}

impl vstd::std_specs::convert::FromSpecImpl<IndicesStatsRequest> for HttpRequest<DefaultBody> {
    open spec fn obeys_from_spec() -> bool {
        true
    }

    open spec fn from_spec(req: IndicesStatsRequest) -> HttpRequest<DefaultBody> {
        HttpRequest { url: req.url, method: HttpMethod::Get, body: None }
    }
}

/// The urls of the cat repositories endpoint, by the parameters each one takes.
#[derive(Debug, PartialEq, Clone)]
pub enum CatRepositoriesUrlParams {
    /// The url that takes no parameters.
    Base,
}

impl CatRepositoriesUrlParams {
    /// The url these parameters spell.
    pub fn url(self) -> (r: Url)
        ensures
            r@ == match self {
                CatRepositoriesUrlParams::Base => "/_cat/repositories"@,
            },
    {
        match self {
            CatRepositoriesUrlParams::Base => Url::from_string("/_cat/repositories".to_owned()),
        }
    }
}

/// A request to the cat repositories endpoint.
#[derive(Debug, PartialEq, Clone)]
pub struct CatRepositoriesRequest {
    pub url: Url,
}

impl CatRepositoriesRequest {
    /// A request to the url without parameters.
    pub fn new() -> (r: Self)
        ensures
            r.url@ == "/_cat/repositories"@,
    {
        CatRepositoriesRequest { url: CatRepositoriesUrlParams::Base.url() }
    }
}

impl From<CatRepositoriesRequest> for HttpRequest<DefaultBody> {
    fn from(req: CatRepositoriesRequest) -> HttpRequest<DefaultBody> {
        HttpRequest { url: req.url, method: HttpMethod::Get, body: None }
    }
}

impl vstd::std_specs::convert::FromSpecImpl<CatRepositoriesRequest> for HttpRequest<DefaultBody> {
    open spec fn obeys_from_spec() -> bool {
        true
    }

    open spec fn from_spec(req: CatRepositoriesRequest) -> HttpRequest<DefaultBody> {
        HttpRequest { url: req.url, method: HttpMethod::Get, body: None }
    }
}

/// The urls of the indices forcemerge endpoint, by the parameters each one takes.
#[derive(Debug, PartialEq, Clone)]
pub enum IndicesForcemergeUrlParams {
    /// The url that takes no parameters.
    Base,
    Index(Index),
}

impl IndicesForcemergeUrlParams {
    /// The url these parameters spell.
    pub fn url(self) -> (r: Url)
        ensures
            r@ == match self {
                IndicesForcemergeUrlParams::Base => "/_forcemerge"@,
                IndicesForcemergeUrlParams::Index(index) => "/"@ + index.0@ + "/_forcemerge"@,
            },
    {
        match self {
            IndicesForcemergeUrlParams::Base => Url::from_string("/_forcemerge".to_owned()),
            IndicesForcemergeUrlParams::Index(index) => {
                let mut url = "/".to_owned();
                url.push_str(index.0.as_str());
                url.push_str("/_forcemerge");
                Url::from_string(url)
            },
        }
    }
}

/// A request to the indices forcemerge endpoint.
#[derive(Debug, PartialEq, Clone)]
pub struct IndicesForcemergeRequest<B> {
    pub url: Url,
    pub body: B,
}

impl<B> IndicesForcemergeRequest<B> {
    /// A request to the url without parameters.
    pub fn new(body: B) -> (r: Self)
        ensures
            r.url@ == "/_forcemerge"@,
            r.body == body,
    {
        IndicesForcemergeRequest { url: IndicesForcemergeUrlParams::Base.url(), body: body }
    }

    /// A request to the url at `index`.
    pub fn for_index(index: Index, body: B) -> (r: Self)
        ensures
            r.url@ == "/"@ + index.0@ + "/_forcemerge"@,
            r.body == body,
    {
        IndicesForcemergeRequest { url: IndicesForcemergeUrlParams::Index(index).url(), body: body }
    }
}

impl<B> From<IndicesForcemergeRequest<B>> for HttpRequest<B> {
    fn from(req: IndicesForcemergeRequest<B>) -> HttpRequest<B> {
        HttpRequest { url: req.url, method: HttpMethod::Post, body: Some(req.body) }
    }
}

impl<B> vstd::std_specs::convert::FromSpecImpl<IndicesForcemergeRequest<B>> for HttpRequest<B> {
    open spec fn obeys_from_spec() -> bool {
        true
    }

    open spec fn from_spec(req: IndicesForcemergeRequest<B>) -> HttpRequest<B> {
        HttpRequest { url: req.url, method: HttpMethod::Post, body: Some(req.body) }
    }
}

/// The urls of the ping endpoint, by the parameters each one takes.
#[derive(Debug, PartialEq, Clone)]
pub enum PingUrlParams {
    /// The url that takes no parameters.
    Base,
}

impl PingUrlParams {
    /// The url these parameters spell.
    pub fn url(self) -> (r: Url)
        ensures
            r@ == match self {
                PingUrlParams::Base => "/"@,
            },
    {
        match self {
            PingUrlParams::Base => Url::from_string("/".to_owned()),
        }
    }
}

/// A request to the ping endpoint.
#[derive(Debug, PartialEq, Clone)]
pub struct PingRequest {
    pub url: Url,
}

impl PingRequest {
    /// A request to the url without parameters.
    pub fn new() -> (r: Self)
        ensures
            r.url@ == "/"@,
    {
        PingRequest { url: PingUrlParams::Base.url() }
    }
}

impl From<PingRequest> for HttpRequest<DefaultBody> {
    fn from(req: PingRequest) -> HttpRequest<DefaultBody> {
        HttpRequest { url: req.url, method: HttpMethod::Get, body: None }
    }
}

impl vstd::std_specs::convert::FromSpecImpl<PingRequest> for HttpRequest<DefaultBody> {
    open spec fn obeys_from_spec() -> bool {
        true
    }

    open spec fn from_spec(req: PingRequest) -> HttpRequest<DefaultBody> {
        HttpRequest { url: req.url, method: HttpMethod::Get, body: None }
    }
}

/// The urls of the ping head endpoint, by the parameters each one takes.
#[derive(Debug, PartialEq, Clone)]
pub enum PingHeadUrlParams {
    /// The url that takes no parameters.
    Base,
}

impl PingHeadUrlParams {
    /// The url these parameters spell.
    pub fn url(self) -> (r: Url)
        ensures
            r@ == match self {
                PingHeadUrlParams::Base => "/"@,
            },
    {
        match self {
            PingHeadUrlParams::Base => Url::from_string("/".to_owned()),
        }
    }
}

/// A request to the ping head endpoint.
#[derive(Debug, PartialEq, Clone)]
pub struct PingHeadRequest {
    pub url: Url,
}

impl PingHeadRequest {
    /// A request to the url without parameters.
    pub fn new() -> (r: Self)
        ensures
            r.url@ == "/"@,
    {
        PingHeadRequest { url: PingHeadUrlParams::Base.url() }
    }
}

impl From<PingHeadRequest> for HttpRequest<DefaultBody> {
    fn from(req: PingHeadRequest) -> HttpRequest<DefaultBody> {
        HttpRequest { url: req.url, method: HttpMethod::Head, body: None }
    }
}

impl vstd::std_specs::convert::FromSpecImpl<PingHeadRequest> for HttpRequest<DefaultBody> {
    open spec fn obeys_from_spec() -> bool {
        true
    }

    open spec fn from_spec(req: PingHeadRequest) -> HttpRequest<DefaultBody> {
        HttpRequest { url: req.url, method: HttpMethod::Head, body: None }
    }
}

/// The urls of the tasks get endpoint, by the parameters each one takes.
#[derive(Debug, PartialEq, Clone)]
pub enum TasksGetUrlParams {
    TaskId(TaskId),
}

impl TasksGetUrlParams {
    /// The url these parameters spell.
    pub fn url(self) -> (r: Url)
        ensures
            r@ == match self {
                TasksGetUrlParams::TaskId(task_id) => "/_tasks/"@ + task_id.0@,
            },
    {
        match self {
            TasksGetUrlParams::TaskId(task_id) => {
                let mut url = "/_tasks/".to_owned();
                url.push_str(task_id.0.as_str());
                Url::from_string(url)
            },
        }
    }
}

/// A request to the tasks get endpoint.
#[derive(Debug, PartialEq, Clone)]
pub struct TasksGetRequest {
    pub url: Url,
}

impl TasksGetRequest {
    /// A request to the url at `task_id`.
    pub fn for_task_id(task_id: TaskId) -> (r: Self)
        ensures
            r.url@ == "/_tasks/"@ + task_id.0@,
    {
        TasksGetRequest { url: TasksGetUrlParams::TaskId(task_id).url() }
    }
}

impl From<TasksGetRequest> for HttpRequest<DefaultBody> {
    fn from(req: TasksGetRequest) -> HttpRequest<DefaultBody> {
        HttpRequest { url: req.url, method: HttpMethod::Get, body: None }
    }
}

impl vstd::std_specs::convert::FromSpecImpl<TasksGetRequest> for HttpRequest<DefaultBody> {
    open spec fn obeys_from_spec() -> bool {
        true
    }

    open spec fn from_spec(req: TasksGetRequest) -> HttpRequest<DefaultBody> {
        HttpRequest { url: req.url, method: HttpMethod::Get, body: None }
    }
}

/// The urls of the indices exists endpoint, by the parameters each one takes.
#[derive(Debug, PartialEq, Clone)]
pub enum IndicesExistsUrlParams {
    Index(Index),
}

impl IndicesExistsUrlParams {
    /// The url these parameters spell.
    pub fn url(self) -> (r: Url)
        ensures
            r@ == match self {
                IndicesExistsUrlParams::Index(index) => "/"@ + index.0@,
            },
    {
        match self {
            IndicesExistsUrlParams::Index(index) => {
                let mut url = "/".to_owned();
                url.push_str(index.0.as_str());
                Url::from_string(url)
            },
        }
    }
}

/// A request to the indices exists endpoint.
#[derive(Debug, PartialEq, Clone)]
pub struct IndicesExistsRequest {
    pub url: Url,
}

impl IndicesExistsRequest {
    /// A request to the url at `index`.
    pub fn for_index(index: Index) -> (r: Self)
        ensures
            r.url@ == "/"@ + index.0@,
    {
        IndicesExistsRequest { url: IndicesExistsUrlParams::Index(index).url() }
    }
}

impl From<IndicesExistsRequest> for HttpRequest<DefaultBody> {
    fn from(req: IndicesExistsRequest) -> HttpRequest<DefaultBody> {
        HttpRequest { url: req.url, method: HttpMethod::Head, body: None }
    }
}

impl vstd::std_specs::convert::FromSpecImpl<IndicesExistsRequest> for HttpRequest<DefaultBody> {
    open spec fn obeys_from_spec() -> bool {
        true
    }

    open spec fn from_spec(req: IndicesExistsRequest) -> HttpRequest<DefaultBody> {
        HttpRequest { url: req.url, method: HttpMethod::Head, body: None }
    }
}

/// The urls of the indices flush synced endpoint, by the parameters each one takes.
#[derive(Debug, PartialEq, Clone)]
pub enum IndicesFlushSyncedUrlParams {
    /// The url that takes no parameters.
    Base,
    Index(Index),
}

impl IndicesFlushSyncedUrlParams {
    /// The url these parameters spell.
    pub fn url(self) -> (r: Url)
        ensures
            r@ == match self {
                IndicesFlushSyncedUrlParams::Base => "/_flush/synced"@,
                IndicesFlushSyncedUrlParams::Index(index) => "/"@ + index.0@ + "/_flush/synced"@,
            },
    {
        match self {
            IndicesFlushSyncedUrlParams::Base => Url::from_string("/_flush/synced".to_owned()),
            IndicesFlushSyncedUrlParams::Index(index) => {
                let mut url = "/".to_owned();
                url.push_str(index.0.as_str());
                url.push_str("/_flush/synced");
                Url::from_string(url)
            },
        }
    }
}

/// A request to the indices flush synced endpoint.
#[derive(Debug, PartialEq, Clone)]
pub struct IndicesFlushSyncedRequest<B> {
    pub url: Url,
    pub body: B,
}

impl<B> IndicesFlushSyncedRequest<B> {
    /// A request to the url without parameters.
    pub fn new(body: B) -> (r: Self)
        ensures
            r.url@ == "/_flush/synced"@,
            r.body == body,
    {
        IndicesFlushSyncedRequest { url: IndicesFlushSyncedUrlParams::Base.url(), body: body }
    }

    /// A request to the url at `index`.
    pub fn for_index(index: Index, body: B) -> (r: Self)
        ensures
            r.url@ == "/"@ + index.0@ + "/_flush/synced"@,
            r.body == body,
    {
        IndicesFlushSyncedRequest { url: IndicesFlushSyncedUrlParams::Index(index).url(), body: body }
    }
}

impl<B> From<IndicesFlushSyncedRequest<B>> for HttpRequest<B> {
    fn from(req: IndicesFlushSyncedRequest<B>) -> HttpRequest<B> {
        HttpRequest { url: req.url, method: HttpMethod::Post, body: Some(req.body) }
    }
}

impl<B> vstd::std_specs::convert::FromSpecImpl<IndicesFlushSyncedRequest<B>> for HttpRequest<B> {
    open spec fn obeys_from_spec() -> bool {
        true
    }

    open spec fn from_spec(req: IndicesFlushSyncedRequest<B>) -> HttpRequest<B> {
        HttpRequest { url: req.url, method: HttpMethod::Post, body: Some(req.body) }
    }
}

/// The urls of the msearch endpoint, by the parameters each one takes.
#[derive(Debug, PartialEq, Clone)]
pub enum MsearchUrlParams {
    /// The url that takes no parameters.
    Base,
    Index(Index),
    IndexType(Index, Type),
}

impl MsearchUrlParams {
    /// The url these parameters spell.
    pub fn url(self) -> (r: Url)
        ensures
            r@ == match self {
                MsearchUrlParams::Base => "/_msearch"@,
                MsearchUrlParams::Index(index) => "/"@ + index.0@ + "/_msearch"@,
                MsearchUrlParams::IndexType(index, ty) => "/"@ + index.0@ + "/"@ + ty.0@ + "/_msearch"@,
            },
    {
        match self {
            MsearchUrlParams::Base => Url::from_string("/_msearch".to_owned()),
            MsearchUrlParams::Index(index) => {
                let mut url = "/".to_owned();
                url.push_str(index.0.as_str());
                url.push_str("/_msearch");
                Url::from_string(url)
            },
            MsearchUrlParams::IndexType(index, ty) => {
                let mut url = "/".to_owned();
                url.push_str(index.0.as_str());
                url.push_str("/");
                url.push_str(ty.0.as_str());
                url.push_str("/_msearch");
                Url::from_string(url)
            },
        }
    }
}

/// A request to the msearch endpoint.
#[derive(Debug, PartialEq, Clone)]
pub struct MsearchRequest<B> {
    pub url: Url,
    pub body: B,
}

impl<B> MsearchRequest<B> {
    /// A request to the url without parameters.
    pub fn new(body: B) -> (r: Self)
        ensures
            r.url@ == "/_msearch"@,
            r.body == body,
    {
        MsearchRequest { url: MsearchUrlParams::Base.url(), body: body }
    }

    /// A request to the url at `index`.
    pub fn for_index(index: Index, body: B) -> (r: Self)
        ensures
            r.url@ == "/"@ + index.0@ + "/_msearch"@,
            r.body == body,
    {
        MsearchRequest { url: MsearchUrlParams::Index(index).url(), body: body }
    }

    /// A request to the url at `index`, `ty`.
    pub fn for_index_ty(index: Index, ty: Type, body: B) -> (r: Self)
        ensures
            r.url@ == "/"@ + index.0@ + "/"@ + ty.0@ + "/_msearch"@,
            r.body == body,
    {
        MsearchRequest { url: MsearchUrlParams::IndexType(index, ty).url(), body: body }
    }
}

impl<B> From<MsearchRequest<B>> for HttpRequest<B> {
    fn from(req: MsearchRequest<B>) -> HttpRequest<B> {
        HttpRequest { url: req.url, method: HttpMethod::Post, body: Some(req.body) }
    }
}

impl<B> vstd::std_specs::convert::FromSpecImpl<MsearchRequest<B>> for HttpRequest<B> {
    open spec fn obeys_from_spec() -> bool {
        true
    }

    open spec fn from_spec(req: MsearchRequest<B>) -> HttpRequest<B> {
        HttpRequest { url: req.url, method: HttpMethod::Post, body: Some(req.body) }
    }
}

/// The urls of the info endpoint, by the parameters each one takes.
#[derive(Debug, PartialEq, Clone)]
pub enum InfoUrlParams {
    /// The url that takes no parameters.
    Base,
}

impl InfoUrlParams {
    /// The url these parameters spell.
    pub fn url(self) -> (r: Url)
        ensures
            r@ == match self {
                InfoUrlParams::Base => "/"@,
            },
    {
        match self {
            InfoUrlParams::Base => Url::from_string("/".to_owned()),
        }
    }
}

/// A request to the info endpoint.
#[derive(Debug, PartialEq, Clone)]
pub struct InfoRequest {
    pub url: Url,
}

impl InfoRequest {
    /// A request to the url without parameters.
    pub fn new() -> (r: Self)
        ensures
            r.url@ == "/"@,
    {
        InfoRequest { url: InfoUrlParams::Base.url() }
    }
}

impl From<InfoRequest> for HttpRequest<DefaultBody> {
    fn from(req: InfoRequest) -> HttpRequest<DefaultBody> {
        HttpRequest { url: req.url, method: HttpMethod::Get, body: None }
    }
}

impl vstd::std_specs::convert::FromSpecImpl<InfoRequest> for HttpRequest<DefaultBody> {
    open spec fn obeys_from_spec() -> bool {
        true
    }

    open spec fn from_spec(req: InfoRequest) -> HttpRequest<DefaultBody> {
        HttpRequest { url: req.url, method: HttpMethod::Get, body: None }
    }
}

/// The urls of the search template endpoint, by the parameters each one takes.
#[derive(Debug, PartialEq, Clone)]
pub enum SearchTemplateUrlParams {
    /// The url that takes no parameters.
    Base,
    Index(Index),
    IndexType(Index, Type),
}

impl SearchTemplateUrlParams {
    /// The url these parameters spell.
    pub fn url(self) -> (r: Url)
        ensures
            r@ == match self {
                SearchTemplateUrlParams::Base => "/_search/template"@,
                SearchTemplateUrlParams::Index(index) => "/"@ + index.0@ + "/_search/template"@,
                SearchTemplateUrlParams::IndexType(index, ty) => "/"@ + index.0@ + "/"@ + ty.0@ + "/_search/template"@,
            },
    {
        match self {
            SearchTemplateUrlParams::Base => Url::from_string("/_search/template".to_owned()),
            SearchTemplateUrlParams::Index(index) => {
                let mut url = "/".to_owned();
                url.push_str(index.0.as_str());
                url.push_str("/_search/template");
                Url::from_string(url)
            },
            SearchTemplateUrlParams::IndexType(index, ty) => {
                let mut url = "/".to_owned();
                url.push_str(index.0.as_str());
                url.push_str("/");
                url.push_str(ty.0.as_str());
                url.push_str("/_search/template");
                Url::from_string(url)
            },
        }
    }
}

/// A request to the search template endpoint.
#[derive(Debug, PartialEq, Clone)]
pub struct SearchTemplateRequest<B> {
    pub url: Url,
    pub body: B,
}

impl<B> SearchTemplateRequest<B> {
    /// A request to the url without parameters.
    pub fn new(body: B) -> (r: Self)
        ensures
            r.url@ == "/_search/template"@,
            r.body == body,
    {
        SearchTemplateRequest { url: SearchTemplateUrlParams::Base.url(), body: body }
    }

    /// A request to the url at `index`.
    pub fn for_index(index: Index, body: B) -> (r: Self)
        ensures
            r.url@ == "/"@ + index.0@ + "/_search/template"@,
            r.body == body,
    {
        SearchTemplateRequest { url: SearchTemplateUrlParams::Index(index).url(), body: body }
    }

    /// A request to the url at `index`, `ty`.
    pub fn for_index_ty(index: Index, ty: Type, body: B) -> (r: Self)
        ensures
            r.url@ == "/"@ + index.0@ + "/"@ + ty.0@ + "/_search/template"@,
            r.body == body,
    {
        SearchTemplateRequest { url: SearchTemplateUrlParams::IndexType(index, ty).url(), body: body }
    }
}

impl<B> From<SearchTemplateRequest<B>> for HttpRequest<B> {
    fn from(req: SearchTemplateRequest<B>) -> HttpRequest<B> {
        HttpRequest { url: req.url, method: HttpMethod::Post, body: Some(req.body) }
    }
}

impl<B> vstd::std_specs::convert::FromSpecImpl<SearchTemplateRequest<B>> for HttpRequest<B> {
    open spec fn obeys_from_spec() -> bool {
        true
    }

    open spec fn from_spec(req: SearchTemplateRequest<B>) -> HttpRequest<B> {
        HttpRequest { url: req.url, method: HttpMethod::Post, body: Some(req.body) }
    }
}

/// The urls of the indices delete endpoint, by the parameters each one takes.
#[derive(Debug, PartialEq, Clone)]
pub enum IndicesDeleteUrlParams {
    Index(Index),
}

impl IndicesDeleteUrlParams {
    /// The url these parameters spell.
    pub fn url(self) -> (r: Url)
        ensures
            r@ == match self {
                IndicesDeleteUrlParams::Index(index) => "/"@ + index.0@,
            },
    {
        match self {
            IndicesDeleteUrlParams::Index(index) => {
                let mut url = "/".to_owned();
                url.push_str(index.0.as_str());
                Url::from_string(url)
            },
        }
    }
}

/// A request to the indices delete endpoint.
#[derive(Debug, PartialEq, Clone)]
pub struct IndicesDeleteRequest {
    pub url: Url,
}

impl IndicesDeleteRequest {
    /// A request to the url at `index`.
    pub fn for_index(index: Index) -> (r: Self)
        ensures
            r.url@ == "/"@ + index.0@,
    {
        IndicesDeleteRequest { url: IndicesDeleteUrlParams::Index(index).url() }
    }
}

impl From<IndicesDeleteRequest> for HttpRequest<DefaultBody> {
    fn from(req: IndicesDeleteRequest) -> HttpRequest<DefaultBody> {
        HttpRequest { url: req.url, method: HttpMethod::Delete, body: None }
    }
}

impl vstd::std_specs::convert::FromSpecImpl<IndicesDeleteRequest> for HttpRequest<DefaultBody> {
    open spec fn obeys_from_spec() -> bool {
        true
    }

    open spec fn from_spec(req: IndicesDeleteRequest) -> HttpRequest<DefaultBody> {
        HttpRequest { url: req.url, method: HttpMethod::Delete, body: None }
    }
}

/// The urls of the delete by query endpoint, by the parameters each one takes.
#[derive(Debug, PartialEq, Clone)]
pub enum DeleteByQueryUrlParams {
    Index(Index),
    IndexType(Index, Type),
}

impl DeleteByQueryUrlParams {
    /// The url these parameters spell.
    pub fn url(self) -> (r: Url)
        ensures
            r@ == match self {
                DeleteByQueryUrlParams::Index(index) => "/"@ + index.0@ + "/_delete_by_query"@,
                DeleteByQueryUrlParams::IndexType(index, ty) => "/"@ + index.0@ + "/"@ + ty.0@ + "/_delete_by_query"@,
            },
    {
        match self {
            DeleteByQueryUrlParams::Index(index) => {
                let mut url = "/".to_owned();
                url.push_str(index.0.as_str());
                url.push_str("/_delete_by_query");
                Url::from_string(url)
            },
            DeleteByQueryUrlParams::IndexType(index, ty) => {
                let mut url = "/".to_owned();
                url.push_str(index.0.as_str());
                url.push_str("/");
                url.push_str(ty.0.as_str());
                url.push_str("/_delete_by_query");
                Url::from_string(url)
            },
        }
    }
}

/// A request to the delete by query endpoint.
#[derive(Debug, PartialEq, Clone)]
pub struct DeleteByQueryRequest<B> {
    pub url: Url,
    pub body: B,
}

impl<B> DeleteByQueryRequest<B> {
    /// A request to the url at `index`.
    pub fn for_index(index: Index, body: B) -> (r: Self)
        ensures
            r.url@ == "/"@ + index.0@ + "/_delete_by_query"@,
            r.body == body,
    {
        DeleteByQueryRequest { url: DeleteByQueryUrlParams::Index(index).url(), body: body }
    }

    /// A request to the url at `index`, `ty`.
    pub fn for_index_ty(index: Index, ty: Type, body: B) -> (r: Self)
        ensures
            r.url@ == "/"@ + index.0@ + "/"@ + ty.0@ + "/_delete_by_query"@,
            r.body == body,
    {
        DeleteByQueryRequest { url: DeleteByQueryUrlParams::IndexType(index, ty).url(), body: body }
    }
}

impl<B> From<DeleteByQueryRequest<B>> for HttpRequest<B> {
    fn from(req: DeleteByQueryRequest<B>) -> HttpRequest<B> {
        HttpRequest { url: req.url, method: HttpMethod::Post, body: Some(req.body) }
    }
}

impl<B> vstd::std_specs::convert::FromSpecImpl<DeleteByQueryRequest<B>> for HttpRequest<B> {
    open spec fn obeys_from_spec() -> bool {
        true
    }

    open spec fn from_spec(req: DeleteByQueryRequest<B>) -> HttpRequest<B> {
        HttpRequest { url: req.url, method: HttpMethod::Post, body: Some(req.body) }
    }
}

/// The urls of the delete template endpoint, by the parameters each one takes.
#[derive(Debug, PartialEq, Clone)]
pub enum DeleteTemplateUrlParams {
    Id(Id),
}

impl DeleteTemplateUrlParams {
    /// The url these parameters spell.
    pub fn url(self) -> (r: Url)
        ensures
            r@ == match self {
                DeleteTemplateUrlParams::Id(id) => "/_search/template/"@ + id.0@,
            },
    {
        match self {
            DeleteTemplateUrlParams::Id(id) => {
                let mut url = "/_search/template/".to_owned();
                url.push_str(id.0.as_str());
                Url::from_string(url)
            },
        }
    }
}

/// A request to the delete template endpoint.
#[derive(Debug, PartialEq, Clone)]
pub struct DeleteTemplateRequest {
    pub url: Url,
}

impl DeleteTemplateRequest {
    /// A request to the url at `id`.
    pub fn for_id(id: Id) -> (r: Self)
        ensures
            r.url@ == "/_search/template/"@ + id.0@,
    {
        DeleteTemplateRequest { url: DeleteTemplateUrlParams::Id(id).url() }
    }
}

impl From<DeleteTemplateRequest> for HttpRequest<DefaultBody> {
    fn from(req: DeleteTemplateRequest) -> HttpRequest<DefaultBody> {
        HttpRequest { url: req.url, method: HttpMethod::Delete, body: None }
    }
}

impl vstd::std_specs::convert::FromSpecImpl<DeleteTemplateRequest> for HttpRequest<DefaultBody> {
    open spec fn obeys_from_spec() -> bool {
        true
    }

    open spec fn from_spec(req: DeleteTemplateRequest) -> HttpRequest<DefaultBody> {
        HttpRequest { url: req.url, method: HttpMethod::Delete, body: None }
    }
}

/// The urls of the indices create endpoint, by the parameters each one takes.
#[derive(Debug, PartialEq, Clone)]
pub enum IndicesCreateUrlParams {
    Index(Index),
}

impl IndicesCreateUrlParams {
    /// The url these parameters spell.
    pub fn url(self) -> (r: Url)
        ensures
            r@ == match self {
                IndicesCreateUrlParams::Index(index) => "/"@ + index.0@,
            },
    {
        match self {
            IndicesCreateUrlParams::Index(index) => {
                let mut url = "/".to_owned();
                url.push_str(index.0.as_str());
                Url::from_string(url)
            },
        }
    }
}

/// A request to the indices create endpoint.
#[derive(Debug, PartialEq, Clone)]
pub struct IndicesCreateRequest<B> {
    pub url: Url,
    pub body: B,
}

impl<B> IndicesCreateRequest<B> {
    /// A request to the url at `index`.
    pub fn for_index(index: Index, body: B) -> (r: Self)
        ensures
            r.url@ == "/"@ + index.0@,
            r.body == body,
    {
        IndicesCreateRequest { url: IndicesCreateUrlParams::Index(index).url(), body: body }
    }
}

impl<B> From<IndicesCreateRequest<B>> for HttpRequest<B> {
    fn from(req: IndicesCreateRequest<B>) -> HttpRequest<B> {
        HttpRequest { url: req.url, method: HttpMethod::Put, body: Some(req.body) }
    }
}

impl<B> vstd::std_specs::convert::FromSpecImpl<IndicesCreateRequest<B>> for HttpRequest<B> {
    open spec fn obeys_from_spec() -> bool {
        true
    }

    open spec fn from_spec(req: IndicesCreateRequest<B>) -> HttpRequest<B> {
        HttpRequest { url: req.url, method: HttpMethod::Put, body: Some(req.body) }
    }
}

/// The urls of the percolate endpoint, by the parameters each one takes.
#[derive(Debug, PartialEq, Clone)]
pub enum PercolateUrlParams {
    IndexType(Index, Type),
    IndexTypeId(Index, Type, Id),
}

impl PercolateUrlParams {
    /// The url these parameters spell.
    pub fn url(self) -> (r: Url)
        ensures
            r@ == match self {
                PercolateUrlParams::IndexType(index, ty) => "/"@ + index.0@ + "/"@ + ty.0@ + "/_percolate"@,
                PercolateUrlParams::IndexTypeId(index, ty, id) => "/"@ + index.0@ + "/"@ + ty.0@ + "/"@ + id.0@ + "/_percolate"@,
            },
    {
        match self {
            PercolateUrlParams::IndexType(index, ty) => {
                let mut url = "/".to_owned();
                url.push_str(index.0.as_str());
                url.push_str("/");
                url.push_str(ty.0.as_str());
                url.push_str("/_percolate");
                Url::from_string(url)
            },
            PercolateUrlParams::IndexTypeId(index, ty, id) => {
                let mut url = "/".to_owned();
                url.push_str(index.0.as_str());
                url.push_str("/");
                url.push_str(ty.0.as_str());
                url.push_str("/");
                url.push_str(id.0.as_str());
                url.push_str("/_percolate");
                Url::from_string(url)
            },
        }
    }
}

/// A request to the percolate endpoint.
#[derive(Debug, PartialEq, Clone)]
pub struct PercolateRequest<B> {
    pub url: Url,
    pub body: B,
}

impl<B> PercolateRequest<B> {
    /// A request to the url at `index`, `ty`.
    pub fn for_index_ty(index: Index, ty: Type, body: B) -> (r: Self)
        ensures
            r.url@ == "/"@ + index.0@ + "/"@ + ty.0@ + "/_percolate"@,
            r.body == body,
    {
        PercolateRequest { url: PercolateUrlParams::IndexType(index, ty).url(), body: body }
    }

    /// A request to the url at `index`, `ty`, `id`.
    pub fn for_index_ty_id(index: Index, ty: Type, id: Id, body: B) -> (r: Self)
        ensures
            r.url@ == "/"@ + index.0@ + "/"@ + ty.0@ + "/"@ + id.0@ + "/_percolate"@,
            r.body == body,
    {
        PercolateRequest { url: PercolateUrlParams::IndexTypeId(index, ty, id).url(), body: body }
    }
}

impl<B> From<PercolateRequest<B>> for HttpRequest<B> {
    fn from(req: PercolateRequest<B>) -> HttpRequest<B> {
        HttpRequest { url: req.url, method: HttpMethod::Post, body: Some(req.body) }
    }
}

impl<B> vstd::std_specs::convert::FromSpecImpl<PercolateRequest<B>> for HttpRequest<B> {
    open spec fn obeys_from_spec() -> bool {
        true
    }

    open spec fn from_spec(req: PercolateRequest<B>) -> HttpRequest<B> {
        HttpRequest { url: req.url, method: HttpMethod::Post, body: Some(req.body) }
    }
}

/// The urls of the simple search endpoint, by the parameters each one takes.
#[derive(Debug, PartialEq, Clone)]
pub enum SimpleSearchUrlParams {
    /// The url that takes no parameters.
    Base,
    Index(Index),
    IndexType(Index, Type),
}

impl SimpleSearchUrlParams {
    /// The url these parameters spell.
    pub fn url(self) -> (r: Url)
        ensures
            r@ == match self {
                SimpleSearchUrlParams::Base => "/_search"@,
                SimpleSearchUrlParams::Index(index) => "/"@ + index.0@ + "/_search"@,
                SimpleSearchUrlParams::IndexType(index, ty) => "/"@ + index.0@ + "/"@ + ty.0@ + "/_search"@,
            },
    {
        match self {
            SimpleSearchUrlParams::Base => Url::from_string("/_search".to_owned()),
            SimpleSearchUrlParams::Index(index) => {
                let mut url = "/".to_owned();
                url.push_str(index.0.as_str());
                url.push_str("/_search");
                Url::from_string(url)
            },
            SimpleSearchUrlParams::IndexType(index, ty) => {
                let mut url = "/".to_owned();
                url.push_str(index.0.as_str());
                url.push_str("/");
                url.push_str(ty.0.as_str());
                url.push_str("/_search");
                Url::from_string(url)
            },
        }
    }
}

/// A request to the simple search endpoint.
#[derive(Debug, PartialEq, Clone)]
pub struct SimpleSearchRequest {
    pub url: Url,
}

impl SimpleSearchRequest {
    /// A request to the url without parameters.
    pub fn new() -> (r: Self)
        ensures
            r.url@ == "/_search"@,
    {
        SimpleSearchRequest { url: SimpleSearchUrlParams::Base.url() }
    }

    /// A request to the url at `index`.
    pub fn for_index(index: Index) -> (r: Self)
        ensures
            r.url@ == "/"@ + index.0@ + "/_search"@,
    {
        SimpleSearchRequest { url: SimpleSearchUrlParams::Index(index).url() }
    }

    /// A request to the url at `index`, `ty`.
    pub fn for_index_ty(index: Index, ty: Type) -> (r: Self)
        ensures
            r.url@ == "/"@ + index.0@ + "/"@ + ty.0@ + "/_search"@,
    {
        SimpleSearchRequest { url: SimpleSearchUrlParams::IndexType(index, ty).url() }
    }
}

impl From<SimpleSearchRequest> for HttpRequest<DefaultBody> {
    fn from(req: SimpleSearchRequest) -> HttpRequest<DefaultBody> {
        HttpRequest { url: req.url, method: HttpMethod::Get, body: None }
    }
}

impl vstd::std_specs::convert::FromSpecImpl<SimpleSearchRequest> for HttpRequest<DefaultBody> {
    open spec fn obeys_from_spec() -> bool {
        true
    }

    open spec fn from_spec(req: SimpleSearchRequest) -> HttpRequest<DefaultBody> {
        HttpRequest { url: req.url, method: HttpMethod::Get, body: None }
    }
}

/// The urls of the search endpoint, by the parameters each one takes.
#[derive(Debug, PartialEq, Clone)]
pub enum SearchUrlParams {
    /// The url that takes no parameters.
    Base,
    Index(Index),
    IndexType(Index, Type),
}

impl SearchUrlParams {
    /// The url these parameters spell.
    pub fn url(self) -> (r: Url)
        ensures
            r@ == match self {
                SearchUrlParams::Base => "/_search"@,
                SearchUrlParams::Index(index) => "/"@ + index.0@ + "/_search"@,
                SearchUrlParams::IndexType(index, ty) => "/"@ + index.0@ + "/"@ + ty.0@ + "/_search"@,
            },
    {
        match self {
            SearchUrlParams::Base => Url::from_string("/_search".to_owned()),
            SearchUrlParams::Index(index) => {
                let mut url = "/".to_owned();
                url.push_str(index.0.as_str());
                url.push_str("/_search");
                Url::from_string(url)
            },
            SearchUrlParams::IndexType(index, ty) => {
                let mut url = "/".to_owned();
                url.push_str(index.0.as_str());
                url.push_str("/");
                url.push_str(ty.0.as_str());
                url.push_str("/_search");
                Url::from_string(url)
            },
        }
    }
}

/// A request to the search endpoint.
#[derive(Debug, PartialEq, Clone)]
pub struct SearchRequest<B> {
    pub url: Url,
    pub body: B,
}

impl<B> SearchRequest<B> {
    /// A request to the url without parameters.
    pub fn new(body: B) -> (r: Self)
        ensures
            r.url@ == "/_search"@,
            r.body == body,
    {
        SearchRequest { url: SearchUrlParams::Base.url(), body: body }
    }

    /// A request to the url at `index`.
    pub fn for_index(index: Index, body: B) -> (r: Self)
        ensures
            r.url@ == "/"@ + index.0@ + "/_search"@,
            r.body == body,
    {
        SearchRequest { url: SearchUrlParams::Index(index).url(), body: body }
    }

    /// A request to the url at `index`, `ty`.
    pub fn for_index_ty(index: Index, ty: Type, body: B) -> (r: Self)
        ensures
            r.url@ == "/"@ + index.0@ + "/"@ + ty.0@ + "/_search"@,
            r.body == body,
    {
        SearchRequest { url: SearchUrlParams::IndexType(index, ty).url(), body: body }
    }
}

impl<B> From<SearchRequest<B>> for HttpRequest<B> {
    fn from(req: SearchRequest<B>) -> HttpRequest<B> {
        HttpRequest { url: req.url, method: HttpMethod::Post, body: Some(req.body) }
    }
}

impl<B> vstd::std_specs::convert::FromSpecImpl<SearchRequest<B>> for HttpRequest<B> {
    open spec fn obeys_from_spec() -> bool {
        true
    }

    open spec fn from_spec(req: SearchRequest<B>) -> HttpRequest<B> {
        HttpRequest { url: req.url, method: HttpMethod::Post, body: Some(req.body) }
    }
}

/// The urls of the cat nodeattrs endpoint, by the parameters each one takes.
#[derive(Debug, PartialEq, Clone)]
pub enum CatNodeattrsUrlParams {
    /// The url that takes no parameters.
    Base,
}

impl CatNodeattrsUrlParams {
    /// The url these parameters spell.
    pub fn url(self) -> (r: Url)
        ensures
            r@ == match self {
                CatNodeattrsUrlParams::Base => "/_cat/nodeattrs"@,
            },
    {
        match self {
            CatNodeattrsUrlParams::Base => Url::from_string("/_cat/nodeattrs".to_owned()),
        }
    }
}

/// A request to the cat nodeattrs endpoint.
#[derive(Debug, PartialEq, Clone)]
pub struct CatNodeattrsRequest {
    pub url: Url,
}

impl CatNodeattrsRequest {
    /// A request to the url without parameters.
    pub fn new() -> (r: Self)
        ensures
            r.url@ == "/_cat/nodeattrs"@,
    {
        CatNodeattrsRequest { url: CatNodeattrsUrlParams::Base.url() }
    }
}

impl From<CatNodeattrsRequest> for HttpRequest<DefaultBody> {
    fn from(req: CatNodeattrsRequest) -> HttpRequest<DefaultBody> {
        HttpRequest { url: req.url, method: HttpMethod::Get, body: None }
    }
}

impl vstd::std_specs::convert::FromSpecImpl<CatNodeattrsRequest> for HttpRequest<DefaultBody> {
    open spec fn obeys_from_spec() -> bool {
        true
    }

    open spec fn from_spec(req: CatNodeattrsRequest) -> HttpRequest<DefaultBody> {
        HttpRequest { url: req.url, method: HttpMethod::Get, body: None }
    }
}

/// The urls of the snapshot verify repository endpoint, by the parameters each one takes.
#[derive(Debug, PartialEq, Clone)]
pub enum SnapshotVerifyRepositoryUrlParams {
    Repository(Repository),
}

impl SnapshotVerifyRepositoryUrlParams {
    /// The url these parameters spell.
    pub fn url(self) -> (r: Url)
        ensures
            r@ == match self {
                SnapshotVerifyRepositoryUrlParams::Repository(repository) => "/_snapshot/"@ + repository.0@ + "/_verify"@,
            },
    {
        match self {
            SnapshotVerifyRepositoryUrlParams::Repository(repository) => {
                let mut url = "/_snapshot/".to_owned();
                url.push_str(repository.0.as_str());
                url.push_str("/_verify");
                Url::from_string(url)
            },
        }
    }
}

/// A request to the snapshot verify repository endpoint.
#[derive(Debug, PartialEq, Clone)]
pub struct SnapshotVerifyRepositoryRequest<B> {
    pub url: Url,
    pub body: B,
}

impl<B> SnapshotVerifyRepositoryRequest<B> {
    /// A request to the url at `repository`.
    pub fn for_repository(repository: Repository, body: B) -> (r: Self)
        ensures
            r.url@ == "/_snapshot/"@ + repository.0@ + "/_verify"@,
            r.body == body,
    {
        SnapshotVerifyRepositoryRequest { url: SnapshotVerifyRepositoryUrlParams::Repository(repository).url(), body: body }
    }
}

impl<B> From<SnapshotVerifyRepositoryRequest<B>> for HttpRequest<B> {
    fn from(req: SnapshotVerifyRepositoryRequest<B>) -> HttpRequest<B> {
        HttpRequest { url: req.url, method: HttpMethod::Post, body: Some(req.body) }
    }
}

impl<B> vstd::std_specs::convert::FromSpecImpl<SnapshotVerifyRepositoryRequest<B>> for HttpRequest<B> {
    open spec fn obeys_from_spec() -> bool {
        true
    }

    open spec fn from_spec(req: SnapshotVerifyRepositoryRequest<B>) -> HttpRequest<B> {
        HttpRequest { url: req.url, method: HttpMethod::Post, body: Some(req.body) }
    }
}

/// The urls of the count endpoint, by the parameters each one takes.
#[derive(Debug, PartialEq, Clone)]
pub enum CountUrlParams {
    /// The url that takes no parameters.
    Base,
    Index(Index),
    IndexType(Index, Type),
}

impl CountUrlParams {
    /// The url these parameters spell.
    pub fn url(self) -> (r: Url)
        ensures
            r@ == match self {
                CountUrlParams::Base => "/_count"@,
                CountUrlParams::Index(index) => "/"@ + index.0@ + "/_count"@,
                CountUrlParams::IndexType(index, ty) => "/"@ + index.0@ + "/"@ + ty.0@ + "/_count"@,
            },
    {
        match self {
            CountUrlParams::Base => Url::from_string("/_count".to_owned()),
            CountUrlParams::Index(index) => {
                let mut url = "/".to_owned();
                url.push_str(index.0.as_str());
                url.push_str("/_count");
                Url::from_string(url)
            },
            CountUrlParams::IndexType(index, ty) => {
                let mut url = "/".to_owned();
                url.push_str(index.0.as_str());
                url.push_str("/");
                url.push_str(ty.0.as_str());
                url.push_str("/_count");
                Url::from_string(url)
            },
        }
    }
}

/// A request to the count endpoint.
#[derive(Debug, PartialEq, Clone)]
pub struct CountRequest<B> {
    pub url: Url,
    pub body: B,
}

impl<B> CountRequest<B> {
    /// A request to the url without parameters.
    pub fn new(body: B) -> (r: Self)
        ensures
            r.url@ == "/_count"@,
            r.body == body,
    {
        CountRequest { url: CountUrlParams::Base.url(), body: body }
    }

    /// A request to the url at `index`.
    pub fn for_index(index: Index, body: B) -> (r: Self)
        ensures
            r.url@ == "/"@ + index.0@ + "/_count"@,
            r.body == body,
    {
        CountRequest { url: CountUrlParams::Index(index).url(), body: body }
    }

    /// A request to the url at `index`, `ty`.
    pub fn for_index_ty(index: Index, ty: Type, body: B) -> (r: Self)
        ensures
            r.url@ == "/"@ + index.0@ + "/"@ + ty.0@ + "/_count"@,
            r.body == body,
    {
        CountRequest { url: CountUrlParams::IndexType(index, ty).url(), body: body }
    }
}

impl<B> From<CountRequest<B>> for HttpRequest<B> {
    fn from(req: CountRequest<B>) -> HttpRequest<B> {
        HttpRequest { url: req.url, method: HttpMethod::Post, body: Some(req.body) }
    }
}

impl<B> vstd::std_specs::convert::FromSpecImpl<CountRequest<B>> for HttpRequest<B> {
    open spec fn obeys_from_spec() -> bool {
        true
    }

    open spec fn from_spec(req: CountRequest<B>) -> HttpRequest<B> {
        HttpRequest { url: req.url, method: HttpMethod::Post, body: Some(req.body) }
    }
}

/// The urls of the cat allocation endpoint, by the parameters each one takes.
#[derive(Debug, PartialEq, Clone)]
pub enum CatAllocationUrlParams {
    /// The url that takes no parameters.
    Base,
    NodeId(NodeId),
}

impl CatAllocationUrlParams {
    /// The url these parameters spell.
    pub fn url(self) -> (r: Url)
        ensures
            r@ == match self {
                CatAllocationUrlParams::Base => "/_cat/allocation"@,
                CatAllocationUrlParams::NodeId(node_id) => "/_cat/allocation/"@ + node_id.0@,
            },
    {
        match self {
            CatAllocationUrlParams::Base => Url::from_string("/_cat/allocation".to_owned()),
            CatAllocationUrlParams::NodeId(node_id) => {
                let mut url = "/_cat/allocation/".to_owned();
                url.push_str(node_id.0.as_str());
                Url::from_string(url)
            },
        }
    }
}

/// A request to the cat allocation endpoint.
#[derive(Debug, PartialEq, Clone)]
pub struct CatAllocationRequest {
    pub url: Url,
}

impl CatAllocationRequest {
    /// A request to the url without parameters.
    pub fn new() -> (r: Self)
        ensures
            r.url@ == "/_cat/allocation"@,
    {
        CatAllocationRequest { url: CatAllocationUrlParams::Base.url() }
    }

    /// A request to the url at `node_id`.
    pub fn for_node_id(node_id: NodeId) -> (r: Self)
        ensures
            r.url@ == "/_cat/allocation/"@ + node_id.0@,
    {
        CatAllocationRequest { url: CatAllocationUrlParams::NodeId(node_id).url() }
    }
}

impl From<CatAllocationRequest> for HttpRequest<DefaultBody> {
    fn from(req: CatAllocationRequest) -> HttpRequest<DefaultBody> {
        HttpRequest { url: req.url, method: HttpMethod::Get, body: None }
    }
}

impl vstd::std_specs::convert::FromSpecImpl<CatAllocationRequest> for HttpRequest<DefaultBody> {
    open spec fn obeys_from_spec() -> bool {
        true
    }

    open spec fn from_spec(req: CatAllocationRequest) -> HttpRequest<DefaultBody> {
        HttpRequest { url: req.url, method: HttpMethod::Get, body: None }
    }
}

/// The urls of the indices flush endpoint, by the parameters each one takes.
#[derive(Debug, PartialEq, Clone)]
pub enum IndicesFlushUrlParams {
    /// The url that takes no parameters.
    Base,
    Index(Index),
}

impl IndicesFlushUrlParams {
    /// The url these parameters spell.
    pub fn url(self) -> (r: Url)
        ensures
            r@ == match self {
                IndicesFlushUrlParams::Base => "/_flush"@,
                IndicesFlushUrlParams::Index(index) => "/"@ + index.0@ + "/_flush"@,
            },
    {
        match self {
            IndicesFlushUrlParams::Base => Url::from_string("/_flush".to_owned()),
            IndicesFlushUrlParams::Index(index) => {
                let mut url = "/".to_owned();
                url.push_str(index.0.as_str());
                url.push_str("/_flush");
                Url::from_string(url)
            },
        }
    }
}

/// A request to the indices flush endpoint.
#[derive(Debug, PartialEq, Clone)]
pub struct IndicesFlushRequest<B> {
    pub url: Url,
    pub body: B,
}

impl<B> IndicesFlushRequest<B> {
    /// A request to the url without parameters.
    pub fn new(body: B) -> (r: Self)
        ensures
            r.url@ == "/_flush"@,
            r.body == body,
    {
        IndicesFlushRequest { url: IndicesFlushUrlParams::Base.url(), body: body }
    }

    /// A request to the url at `index`.
    pub fn for_index(index: Index, body: B) -> (r: Self)
        ensures
            r.url@ == "/"@ + index.0@ + "/_flush"@,
            r.body == body,
    {
        IndicesFlushRequest { url: IndicesFlushUrlParams::Index(index).url(), body: body }
    }
}

impl<B> From<IndicesFlushRequest<B>> for HttpRequest<B> {
    fn from(req: IndicesFlushRequest<B>) -> HttpRequest<B> {
        HttpRequest { url: req.url, method: HttpMethod::Post, body: Some(req.body) }
    }
}

impl<B> vstd::std_specs::convert::FromSpecImpl<IndicesFlushRequest<B>> for HttpRequest<B> {
    open spec fn obeys_from_spec() -> bool {
        true
    }

    open spec fn from_spec(req: IndicesFlushRequest<B>) -> HttpRequest<B> {
        HttpRequest { url: req.url, method: HttpMethod::Post, body: Some(req.body) }
    }
}

/// The urls of the indices refresh endpoint, by the parameters each one takes.
#[derive(Debug, PartialEq, Clone)]
pub enum IndicesRefreshUrlParams {
    /// The url that takes no parameters.
    Base,
    Index(Index),
}

impl IndicesRefreshUrlParams {
    /// The url these parameters spell.
    pub fn url(self) -> (r: Url)
        ensures
            r@ == match self {
                IndicesRefreshUrlParams::Base => "/_refresh"@,
                IndicesRefreshUrlParams::Index(index) => "/"@ + index.0@ + "/_refresh"@,
            },
    {
        match self {
            IndicesRefreshUrlParams::Base => Url::from_string("/_refresh".to_owned()),
            IndicesRefreshUrlParams::Index(index) => {
                let mut url = "/".to_owned();
                url.push_str(index.0.as_str());
                url.push_str("/_refresh");
                Url::from_string(url)
            },
        }
    }
}

/// A request to the indices refresh endpoint.
#[derive(Debug, PartialEq, Clone)]
pub struct IndicesRefreshRequest<B> {
    pub url: Url,
    pub body: B,
}

impl<B> IndicesRefreshRequest<B> {
    /// A request to the url without parameters.
    pub fn new(body: B) -> (r: Self)
        ensures
            r.url@ == "/_refresh"@,
            r.body == body,
    {
        IndicesRefreshRequest { url: IndicesRefreshUrlParams::Base.url(), body: body }
    }

    /// A request to the url at `index`.
    pub fn for_index(index: Index, body: B) -> (r: Self)
        ensures
            r.url@ == "/"@ + index.0@ + "/_refresh"@,
            r.body == body,
    {
        IndicesRefreshRequest { url: IndicesRefreshUrlParams::Index(index).url(), body: body }
    }
}

impl<B> From<IndicesRefreshRequest<B>> for HttpRequest<B> {
    fn from(req: IndicesRefreshRequest<B>) -> HttpRequest<B> {
        HttpRequest { url: req.url, method: HttpMethod::Post, body: Some(req.body) }
    }
}

impl<B> vstd::std_specs::convert::FromSpecImpl<IndicesRefreshRequest<B>> for HttpRequest<B> {
    open spec fn obeys_from_spec() -> bool {
        true
    }

    open spec fn from_spec(req: IndicesRefreshRequest<B>) -> HttpRequest<B> {
        HttpRequest { url: req.url, method: HttpMethod::Post, body: Some(req.body) }
    }
}

/// The urls of the cat help endpoint, by the parameters each one takes.
#[derive(Debug, PartialEq, Clone)]
pub enum CatHelpUrlParams {
    /// The url that takes no parameters.
    Base,
}

impl CatHelpUrlParams {
    /// The url these parameters spell.
    pub fn url(self) -> (r: Url)
        ensures
            r@ == match self {
                CatHelpUrlParams::Base => "/_cat"@,
            },
    {
        match self {
            CatHelpUrlParams::Base => Url::from_string("/_cat".to_owned()),
        }
    }
}

/// A request to the cat help endpoint.
#[derive(Debug, PartialEq, Clone)]
pub struct CatHelpRequest {
    pub url: Url,
}

impl CatHelpRequest {
    /// A request to the url without parameters.
    pub fn new() -> (r: Self)
        ensures
            r.url@ == "/_cat"@,
    {
        CatHelpRequest { url: CatHelpUrlParams::Base.url() }
    }
}

impl From<CatHelpRequest> for HttpRequest<DefaultBody> {
    fn from(req: CatHelpRequest) -> HttpRequest<DefaultBody> {
        HttpRequest { url: req.url, method: HttpMethod::Get, body: None }
    }
}

impl vstd::std_specs::convert::FromSpecImpl<CatHelpRequest> for HttpRequest<DefaultBody> {
    open spec fn obeys_from_spec() -> bool {
        true
    }

    open spec fn from_spec(req: CatHelpRequest) -> HttpRequest<DefaultBody> {
        HttpRequest { url: req.url, method: HttpMethod::Get, body: None }
    }
}

/// The urls of the search shards endpoint, by the parameters each one takes.
#[derive(Debug, PartialEq, Clone)]
pub enum SearchShardsUrlParams {
    /// The url that takes no parameters.
    Base,
    Index(Index),
}

impl SearchShardsUrlParams {
    /// The url these parameters spell.
    pub fn url(self) -> (r: Url)
        ensures
            r@ == match self {
                SearchShardsUrlParams::Base => "/_search_shards"@,
                SearchShardsUrlParams::Index(index) => "/"@ + index.0@ + "/_search_shards"@,
            },
    {
        match self {
            SearchShardsUrlParams::Base => Url::from_string("/_search_shards".to_owned()),
            SearchShardsUrlParams::Index(index) => {
                let mut url = "/".to_owned();
                url.push_str(index.0.as_str());
                url.push_str("/_search_shards");
                Url::from_string(url)
            },
        }
    }
}

/// A request to the search shards endpoint.
#[derive(Debug, PartialEq, Clone)]
pub struct SearchShardsRequest<B> {
    pub url: Url,
    pub body: B,
}

impl<B> SearchShardsRequest<B> {
    /// A request to the url without parameters.
    pub fn new(body: B) -> (r: Self)
        ensures
            r.url@ == "/_search_shards"@,
            r.body == body,
    {
        SearchShardsRequest { url: SearchShardsUrlParams::Base.url(), body: body }
    }

    /// A request to the url at `index`.
    pub fn for_index(index: Index, body: B) -> (r: Self)
        ensures
            r.url@ == "/"@ + index.0@ + "/_search_shards"@,
            r.body == body,
    {
        SearchShardsRequest { url: SearchShardsUrlParams::Index(index).url(), body: body }
    }
}

impl<B> From<SearchShardsRequest<B>> for HttpRequest<B> {
    fn from(req: SearchShardsRequest<B>) -> HttpRequest<B> {
        HttpRequest { url: req.url, method: HttpMethod::Post, body: Some(req.body) }
    }
}

impl<B> vstd::std_specs::convert::FromSpecImpl<SearchShardsRequest<B>> for HttpRequest<B> {
    open spec fn obeys_from_spec() -> bool {
        true
    }

    open spec fn from_spec(req: SearchShardsRequest<B>) -> HttpRequest<B> {
        HttpRequest { url: req.url, method: HttpMethod::Post, body: Some(req.body) }
    }
}

/// The urls of the cluster health endpoint, by the parameters each one takes.
#[derive(Debug, PartialEq, Clone)]
pub enum ClusterHealthUrlParams {
    /// The url that takes no parameters.
    Base,
    Index(Index),
}

impl ClusterHealthUrlParams {
    /// The url these parameters spell.
    pub fn url(self) -> (r: Url)
        ensures
            r@ == match self {
                ClusterHealthUrlParams::Base => "/_cluster/health"@,
                ClusterHealthUrlParams::Index(index) => "/_cluster/health/"@ + index.0@,
            },
    {
        match self {
            ClusterHealthUrlParams::Base => Url::from_string("/_cluster/health".to_owned()),
            ClusterHealthUrlParams::Index(index) => {
                let mut url = "/_cluster/health/".to_owned();
                url.push_str(index.0.as_str());
                Url::from_string(url)
            },
        }
    }
}

/// A request to the cluster health endpoint.
#[derive(Debug, PartialEq, Clone)]
pub struct ClusterHealthRequest {
    pub url: Url,
}

impl ClusterHealthRequest {
    /// A request to the url without parameters.
    pub fn new() -> (r: Self)
        ensures
            r.url@ == "/_cluster/health"@,
    {
        ClusterHealthRequest { url: ClusterHealthUrlParams::Base.url() }
    }

    /// A request to the url at `index`.
    pub fn for_index(index: Index) -> (r: Self)
        ensures
            r.url@ == "/_cluster/health/"@ + index.0@,
    {
        ClusterHealthRequest { url: ClusterHealthUrlParams::Index(index).url() }
    }
}

impl From<ClusterHealthRequest> for HttpRequest<DefaultBody> {
    fn from(req: ClusterHealthRequest) -> HttpRequest<DefaultBody> {
        HttpRequest { url: req.url, method: HttpMethod::Get, body: None }
    }
}

impl vstd::std_specs::convert::FromSpecImpl<ClusterHealthRequest> for HttpRequest<DefaultBody> {
    open spec fn obeys_from_spec() -> bool {
        true
    }

    open spec fn from_spec(req: ClusterHealthRequest) -> HttpRequest<DefaultBody> {
        HttpRequest { url: req.url, method: HttpMethod::Get, body: None }
    }
}

/// The urls of the indices exists alias endpoint, by the parameters each one takes.
#[derive(Debug, PartialEq, Clone)]
pub enum IndicesExistsAliasUrlParams {
    Index(Index),
    IndexName(Index, Name),
    Name(Name),
}

impl IndicesExistsAliasUrlParams {
    /// The url these parameters spell.
    pub fn url(self) -> (r: Url)
        ensures
            r@ == match self {
                IndicesExistsAliasUrlParams::Index(index) => "/"@ + index.0@ + "/_alias"@,
                IndicesExistsAliasUrlParams::IndexName(index, name) => "/"@ + index.0@ + "/_alias/"@ + name.0@,
                IndicesExistsAliasUrlParams::Name(name) => "/_alias/"@ + name.0@,
            },
    {
        match self {
            IndicesExistsAliasUrlParams::Index(index) => {
                let mut url = "/".to_owned();
                url.push_str(index.0.as_str());
                url.push_str("/_alias");
                Url::from_string(url)
            },
            IndicesExistsAliasUrlParams::IndexName(index, name) => {
                let mut url = "/".to_owned();
                url.push_str(index.0.as_str());
                url.push_str("/_alias/");
                url.push_str(name.0.as_str());
                Url::from_string(url)
            },
            IndicesExistsAliasUrlParams::Name(name) => {
                let mut url = "/_alias/".to_owned();
                url.push_str(name.0.as_str());
                Url::from_string(url)
            },
        }
    }
}

/// A request to the indices exists alias endpoint.
#[derive(Debug, PartialEq, Clone)]
pub struct IndicesExistsAliasRequest {
    pub url: Url,
}

impl IndicesExistsAliasRequest {
    /// A request to the url at `index`.
    pub fn for_index(index: Index) -> (r: Self)
        ensures
            r.url@ == "/"@ + index.0@ + "/_alias"@,
    {
        IndicesExistsAliasRequest { url: IndicesExistsAliasUrlParams::Index(index).url() }
    }

    /// A request to the url at `index`, `name`.
    pub fn for_index_name(index: Index, name: Name) -> (r: Self)
        ensures
            r.url@ == "/"@ + index.0@ + "/_alias/"@ + name.0@,
    {
        IndicesExistsAliasRequest { url: IndicesExistsAliasUrlParams::IndexName(index, name).url() }
    }

    /// A request to the url at `name`.
    pub fn for_name(name: Name) -> (r: Self)
        ensures
            r.url@ == "/_alias/"@ + name.0@,
    {
        IndicesExistsAliasRequest { url: IndicesExistsAliasUrlParams::Name(name).url() }
    }
}

impl From<IndicesExistsAliasRequest> for HttpRequest<DefaultBody> {
    fn from(req: IndicesExistsAliasRequest) -> HttpRequest<DefaultBody> {
        HttpRequest { url: req.url, method: HttpMethod::Head, body: None }
    }
}

impl vstd::std_specs::convert::FromSpecImpl<IndicesExistsAliasRequest> for HttpRequest<DefaultBody> {
    open spec fn obeys_from_spec() -> bool {
        true
    }

    open spec fn from_spec(req: IndicesExistsAliasRequest) -> HttpRequest<DefaultBody> {
        HttpRequest { url: req.url, method: HttpMethod::Head, body: None }
    }
}

/// The urls of the indices get field mapping endpoint, by the parameters each one takes.
#[derive(Debug, PartialEq, Clone)]
pub enum IndicesGetFieldMappingUrlParams {
    Fields(Fields),
    IndexFields(Index, Fields),
    IndexTypeFields(Index, Type, Fields),
    TypeFields(Type, Fields),
}

impl IndicesGetFieldMappingUrlParams {
    /// The url these parameters spell.
    pub fn url(self) -> (r: Url)
        ensures
            r@ == match self {
                IndicesGetFieldMappingUrlParams::Fields(fields) => "/_mapping/field/"@ + fields.0@,
                IndicesGetFieldMappingUrlParams::IndexFields(index, fields) => "/"@ + index.0@ + "/_mapping/field/"@ + fields.0@,
                IndicesGetFieldMappingUrlParams::IndexTypeFields(index, ty, fields) => "/"@ + index.0@ + "/_mapping/"@ + ty.0@ + "/field/"@ + fields.0@,
                IndicesGetFieldMappingUrlParams::TypeFields(ty, fields) => "/_mapping/"@ + ty.0@ + "/field/"@ + fields.0@,
            },
    {
        match self {
            IndicesGetFieldMappingUrlParams::Fields(fields) => {
                let mut url = "/_mapping/field/".to_owned();
                url.push_str(fields.0.as_str());
                Url::from_string(url)
            },
            IndicesGetFieldMappingUrlParams::IndexFields(index, fields) => {
                let mut url = "/".to_owned();
                url.push_str(index.0.as_str());
                url.push_str("/_mapping/field/");
                url.push_str(fields.0.as_str());
                Url::from_string(url)
            },
            IndicesGetFieldMappingUrlParams::IndexTypeFields(index, ty, fields) => {
                let mut url = "/".to_owned();
                url.push_str(index.0.as_str());
                url.push_str("/_mapping/");
                url.push_str(ty.0.as_str());
                url.push_str("/field/");
                url.push_str(fields.0.as_str());
                Url::from_string(url)
            },
            IndicesGetFieldMappingUrlParams::TypeFields(ty, fields) => {
                let mut url = "/_mapping/".to_owned();
                url.push_str(ty.0.as_str());
                url.push_str("/field/");
                url.push_str(fields.0.as_str());
                Url::from_string(url)
            },
        }
    }
}

/// A request to the indices get field mapping endpoint.
#[derive(Debug, PartialEq, Clone)]
pub struct IndicesGetFieldMappingRequest {
    pub url: Url,
}

impl IndicesGetFieldMappingRequest {
    /// A request to the url at `fields`.
    pub fn for_fields(fields: Fields) -> (r: Self)
        ensures
            r.url@ == "/_mapping/field/"@ + fields.0@,
    {
        IndicesGetFieldMappingRequest { url: IndicesGetFieldMappingUrlParams::Fields(fields).url() }
    }

    /// A request to the url at `index`, `fields`.
    pub fn for_index_fields(index: Index, fields: Fields) -> (r: Self)
        ensures
            r.url@ == "/"@ + index.0@ + "/_mapping/field/"@ + fields.0@,
    {
        IndicesGetFieldMappingRequest { url: IndicesGetFieldMappingUrlParams::IndexFields(index, fields).url() }
    }

    /// A request to the url at `index`, `ty`, `fields`.
    pub fn for_index_ty_fields(index: Index, ty: Type, fields: Fields) -> (r: Self)
        ensures
            r.url@ == "/"@ + index.0@ + "/_mapping/"@ + ty.0@ + "/field/"@ + fields.0@,
    {
        IndicesGetFieldMappingRequest { url: IndicesGetFieldMappingUrlParams::IndexTypeFields(index, ty, fields).url() }
    }

    /// A request to the url at `ty`, `fields`.
    pub fn for_ty_fields(ty: Type, fields: Fields) -> (r: Self)
        ensures
            r.url@ == "/_mapping/"@ + ty.0@ + "/field/"@ + fields.0@,
    {
        IndicesGetFieldMappingRequest { url: IndicesGetFieldMappingUrlParams::TypeFields(ty, fields).url() }
    }
}

impl From<IndicesGetFieldMappingRequest> for HttpRequest<DefaultBody> {
    fn from(req: IndicesGetFieldMappingRequest) -> HttpRequest<DefaultBody> {
        HttpRequest { url: req.url, method: HttpMethod::Get, body: None }
    }
}

impl vstd::std_specs::convert::FromSpecImpl<IndicesGetFieldMappingRequest> for HttpRequest<DefaultBody> {
    open spec fn obeys_from_spec() -> bool {
        true
    }

    open spec fn from_spec(req: IndicesGetFieldMappingRequest) -> HttpRequest<DefaultBody> {
        HttpRequest { url: req.url, method: HttpMethod::Get, body: None }
    }
}

/// The urls of the ingest put pipeline endpoint, by the parameters each one takes.
#[derive(Debug, PartialEq, Clone)]
pub enum IngestPutPipelineUrlParams {
    Id(Id),
}

impl IngestPutPipelineUrlParams {
    /// The url these parameters spell.
    pub fn url(self) -> (r: Url)
        ensures
            r@ == match self {
                IngestPutPipelineUrlParams::Id(id) => "/_ingest/pipeline/"@ + id.0@,
            },
    {
        match self {
            IngestPutPipelineUrlParams::Id(id) => {
                let mut url = "/_ingest/pipeline/".to_owned();
                url.push_str(id.0.as_str());
                Url::from_string(url)
            },
        }
    }
}

/// A request to the ingest put pipeline endpoint.
#[derive(Debug, PartialEq, Clone)]
pub struct IngestPutPipelineRequest<B> {
    pub url: Url,
    pub body: B,
}

impl<B> IngestPutPipelineRequest<B> {
    /// A request to the url at `id`.
    pub fn for_id(id: Id, body: B) -> (r: Self)
        ensures
            r.url@ == "/_ingest/pipeline/"@ + id.0@,
            r.body == body,
    {
        IngestPutPipelineRequest { url: IngestPutPipelineUrlParams::Id(id).url(), body: body }
    }
}

impl<B> From<IngestPutPipelineRequest<B>> for HttpRequest<B> {
    fn from(req: IngestPutPipelineRequest<B>) -> HttpRequest<B> {
        HttpRequest { url: req.url, method: HttpMethod::Put, body: Some(req.body) }
    }
}

impl<B> vstd::std_specs::convert::FromSpecImpl<IngestPutPipelineRequest<B>> for HttpRequest<B> {
    open spec fn obeys_from_spec() -> bool {
        true
    }

    open spec fn from_spec(req: IngestPutPipelineRequest<B>) -> HttpRequest<B> {
        HttpRequest { url: req.url, method: HttpMethod::Put, body: Some(req.body) }
    }
}

/// The urls of the cluster pending tasks endpoint, by the parameters each one takes.
#[derive(Debug, PartialEq, Clone)]
pub enum ClusterPendingTasksUrlParams {
    /// The url that takes no parameters.
    Base,
}

impl ClusterPendingTasksUrlParams {
    /// The url these parameters spell.
    pub fn url(self) -> (r: Url)
        ensures
            r@ == match self {
                ClusterPendingTasksUrlParams::Base => "/_cluster/pending_tasks"@,
            },
    {
        match self {
            ClusterPendingTasksUrlParams::Base => Url::from_string("/_cluster/pending_tasks".to_owned()),
        }
    }
}

/// A request to the cluster pending tasks endpoint.
#[derive(Debug, PartialEq, Clone)]
pub struct ClusterPendingTasksRequest {
    pub url: Url,
}

impl ClusterPendingTasksRequest {
    /// A request to the url without parameters.
    pub fn new() -> (r: Self)
        ensures
            r.url@ == "/_cluster/pending_tasks"@,
    {
        ClusterPendingTasksRequest { url: ClusterPendingTasksUrlParams::Base.url() }
    }
}

impl From<ClusterPendingTasksRequest> for HttpRequest<DefaultBody> {
    fn from(req: ClusterPendingTasksRequest) -> HttpRequest<DefaultBody> {
        HttpRequest { url: req.url, method: HttpMethod::Get, body: None }
    }
}

impl vstd::std_specs::convert::FromSpecImpl<ClusterPendingTasksRequest> for HttpRequest<DefaultBody> {
    open spec fn obeys_from_spec() -> bool {
        true
    }

    open spec fn from_spec(req: ClusterPendingTasksRequest) -> HttpRequest<DefaultBody> {
        HttpRequest { url: req.url, method: HttpMethod::Get, body: None }
    }
}

/// The urls of the ingest simulate endpoint, by the parameters each one takes.
#[derive(Debug, PartialEq, Clone)]
pub enum IngestSimulateUrlParams {
    /// The url that takes no parameters.
    Base,
    Id(Id),
}

impl IngestSimulateUrlParams {
    /// The url these parameters spell.
    pub fn url(self) -> (r: Url)
        ensures
            r@ == match self {
                IngestSimulateUrlParams::Base => "/_ingest/pipeline/_simulate"@,
                IngestSimulateUrlParams::Id(id) => "/_ingest/pipeline/"@ + id.0@ + "/_simulate"@,
            },
    {
        match self {
            IngestSimulateUrlParams::Base => Url::from_string("/_ingest/pipeline/_simulate".to_owned()),
            IngestSimulateUrlParams::Id(id) => {
                let mut url = "/_ingest/pipeline/".to_owned();
                url.push_str(id.0.as_str());
                url.push_str("/_simulate");
                Url::from_string(url)
            },
        }
    }
}

/// A request to the ingest simulate endpoint.
#[derive(Debug, PartialEq, Clone)]
pub struct IngestSimulateRequest<B> {
    pub url: Url,
    pub body: B,
}

impl<B> IngestSimulateRequest<B> {
    /// A request to the url without parameters.
    pub fn new(body: B) -> (r: Self)
        ensures
            r.url@ == "/_ingest/pipeline/_simulate"@,
            r.body == body,
    {
        IngestSimulateRequest { url: IngestSimulateUrlParams::Base.url(), body: body }
    }

    /// A request to the url at `id`.
    pub fn for_id(id: Id, body: B) -> (r: Self)
        ensures
            r.url@ == "/_ingest/pipeline/"@ + id.0@ + "/_simulate"@,
            r.body == body,
    {
        IngestSimulateRequest { url: IngestSimulateUrlParams::Id(id).url(), body: body }
    }
}

impl<B> From<IngestSimulateRequest<B>> for HttpRequest<B> {
    fn from(req: IngestSimulateRequest<B>) -> HttpRequest<B> {
        HttpRequest { url: req.url, method: HttpMethod::Post, body: Some(req.body) }
    }
}

impl<B> vstd::std_specs::convert::FromSpecImpl<IngestSimulateRequest<B>> for HttpRequest<B> {
    open spec fn obeys_from_spec() -> bool {
        true
    }

    open spec fn from_spec(req: IngestSimulateRequest<B>) -> HttpRequest<B> {
        HttpRequest { url: req.url, method: HttpMethod::Post, body: Some(req.body) }
    }
}

/// The urls of the indices get alias endpoint, by the parameters each one takes.
#[derive(Debug, PartialEq, Clone)]
pub enum IndicesGetAliasUrlParams {
    /// The url that takes no parameters.
    Base,
    Index(Index),
    IndexName(Index, Name),
    Name(Name),
}

impl IndicesGetAliasUrlParams {
    /// The url these parameters spell.
    pub fn url(self) -> (r: Url)
        ensures
            r@ == match self {
                IndicesGetAliasUrlParams::Base => "/_alias"@,
                IndicesGetAliasUrlParams::Index(index) => "/"@ + index.0@ + "/_alias"@,
                IndicesGetAliasUrlParams::IndexName(index, name) => "/"@ + index.0@ + "/_alias/"@ + name.0@,
                IndicesGetAliasUrlParams::Name(name) => "/_alias/"@ + name.0@,
            },
    {
        match self {
            IndicesGetAliasUrlParams::Base => Url::from_string("/_alias".to_owned()),
            IndicesGetAliasUrlParams::Index(index) => {
                let mut url = "/".to_owned();
                url.push_str(index.0.as_str());
                url.push_str("/_alias");
                Url::from_string(url)
            },
            IndicesGetAliasUrlParams::IndexName(index, name) => {
                let mut url = "/".to_owned();
                url.push_str(index.0.as_str());
                url.push_str("/_alias/");
                url.push_str(name.0.as_str());
                Url::from_string(url)
            },
            IndicesGetAliasUrlParams::Name(name) => {
                let mut url = "/_alias/".to_owned();
                url.push_str(name.0.as_str());
                Url::from_string(url)
            },
        }
    }
}

/// A request to the indices get alias endpoint.
#[derive(Debug, PartialEq, Clone)]
pub struct IndicesGetAliasRequest {
    pub url: Url,
}

impl IndicesGetAliasRequest {
    /// A request to the url without parameters.
    pub fn new() -> (r: Self)
        ensures
            r.url@ == "/_alias"@,
    {
        IndicesGetAliasRequest { url: IndicesGetAliasUrlParams::Base.url() }
    }

    /// A request to the url at `index`.
    pub fn for_index(index: Index) -> (r: Self)
        ensures
            r.url@ == "/"@ + index.0@ + "/_alias"@,
    {
        IndicesGetAliasRequest { url: IndicesGetAliasUrlParams::Index(index).url() }
    }

    /// A request to the url at `index`, `name`.
    pub fn for_index_name(index: Index, name: Name) -> (r: Self)
        ensures
            r.url@ == "/"@ + index.0@ + "/_alias/"@ + name.0@,
    {
        IndicesGetAliasRequest { url: IndicesGetAliasUrlParams::IndexName(index, name).url() }
    }

    /// A request to the url at `name`.
    pub fn for_name(name: Name) -> (r: Self)
        ensures
            r.url@ == "/_alias/"@ + name.0@,
    {
        IndicesGetAliasRequest { url: IndicesGetAliasUrlParams::Name(name).url() }
    }
}

impl From<IndicesGetAliasRequest> for HttpRequest<DefaultBody> {
    fn from(req: IndicesGetAliasRequest) -> HttpRequest<DefaultBody> {
        HttpRequest { url: req.url, method: HttpMethod::Get, body: None }
    }
}

impl vstd::std_specs::convert::FromSpecImpl<IndicesGetAliasRequest> for HttpRequest<DefaultBody> {
    open spec fn obeys_from_spec() -> bool {
        true
    }

    open spec fn from_spec(req: IndicesGetAliasRequest) -> HttpRequest<DefaultBody> {
        HttpRequest { url: req.url, method: HttpMethod::Get, body: None }
    }
}

/// The urls of the get script endpoint, by the parameters each one takes.
#[derive(Debug, PartialEq, Clone)]
pub enum GetScriptUrlParams {
    LangId(Lang, Id),
}

impl GetScriptUrlParams {
    /// The url these parameters spell.
    pub fn url(self) -> (r: Url)
        ensures
            r@ == match self {
                GetScriptUrlParams::LangId(lang, id) => "/_scripts/"@ + lang.0@ + "/"@ + id.0@,
            },
    {
        match self {
            GetScriptUrlParams::LangId(lang, id) => {
                let mut url = "/_scripts/".to_owned();
                url.push_str(lang.0.as_str());
                url.push_str("/");
                url.push_str(id.0.as_str());
                Url::from_string(url)
            },
        }
    }
}

/// A request to the get script endpoint.
#[derive(Debug, PartialEq, Clone)]
pub struct GetScriptRequest {
    pub url: Url,
}

impl GetScriptRequest {
    /// A request to the url at `lang`, `id`.
    pub fn for_lang_id(lang: Lang, id: Id) -> (r: Self)
        ensures
            r.url@ == "/_scripts/"@ + lang.0@ + "/"@ + id.0@,
    {
        GetScriptRequest { url: GetScriptUrlParams::LangId(lang, id).url() }
    }
}

impl From<GetScriptRequest> for HttpRequest<DefaultBody> {
    fn from(req: GetScriptRequest) -> HttpRequest<DefaultBody> {
        HttpRequest { url: req.url, method: HttpMethod::Get, body: None }
    }
}

impl vstd::std_specs::convert::FromSpecImpl<GetScriptRequest> for HttpRequest<DefaultBody> {
    open spec fn obeys_from_spec() -> bool {
        true
    }

    open spec fn from_spec(req: GetScriptRequest) -> HttpRequest<DefaultBody> {
        HttpRequest { url: req.url, method: HttpMethod::Get, body: None }
    }
}

/// The urls of the indices recovery endpoint, by the parameters each one takes.
#[derive(Debug, PartialEq, Clone)]
pub enum IndicesRecoveryUrlParams {
    /// The url that takes no parameters.
    Base,
    Index(Index),
}

impl IndicesRecoveryUrlParams {
    /// The url these parameters spell.
    pub fn url(self) -> (r: Url)
        ensures
            r@ == match self {
                IndicesRecoveryUrlParams::Base => "/_recovery"@,
                IndicesRecoveryUrlParams::Index(index) => "/"@ + index.0@ + "/_recovery"@,
            },
    {
        match self {
            IndicesRecoveryUrlParams::Base => Url::from_string("/_recovery".to_owned()),
            IndicesRecoveryUrlParams::Index(index) => {
                let mut url = "/".to_owned();
                url.push_str(index.0.as_str());
                url.push_str("/_recovery");
                Url::from_string(url)
            },
        }
    }
}

/// A request to the indices recovery endpoint.
#[derive(Debug, PartialEq, Clone)]
pub struct IndicesRecoveryRequest {
    pub url: Url,
}

impl IndicesRecoveryRequest {
    /// A request to the url without parameters.
    pub fn new() -> (r: Self)
        ensures
            r.url@ == "/_recovery"@,
    {
        IndicesRecoveryRequest { url: IndicesRecoveryUrlParams::Base.url() }
    }

    /// A request to the url at `index`.
    pub fn for_index(index: Index) -> (r: Self)
        ensures
            r.url@ == "/"@ + index.0@ + "/_recovery"@,
    {
        IndicesRecoveryRequest { url: IndicesRecoveryUrlParams::Index(index).url() }
    }
}

impl From<IndicesRecoveryRequest> for HttpRequest<DefaultBody> {
    fn from(req: IndicesRecoveryRequest) -> HttpRequest<DefaultBody> {
        HttpRequest { url: req.url, method: HttpMethod::Get, body: None }
    }
}

impl vstd::std_specs::convert::FromSpecImpl<IndicesRecoveryRequest> for HttpRequest<DefaultBody> {
    open spec fn obeys_from_spec() -> bool {
        true
    }

    open spec fn from_spec(req: IndicesRecoveryRequest) -> HttpRequest<DefaultBody> {
        HttpRequest { url: req.url, method: HttpMethod::Get, body: None }
    }
}

/// The urls of the ingest delete pipeline endpoint, by the parameters each one takes.
#[derive(Debug, PartialEq, Clone)]
pub enum IngestDeletePipelineUrlParams {
    Id(Id),
}

impl IngestDeletePipelineUrlParams {
    /// The url these parameters spell.
    pub fn url(self) -> (r: Url)
        ensures
            r@ == match self {
                IngestDeletePipelineUrlParams::Id(id) => "/_ingest/pipeline/"@ + id.0@,
            },
    {
        match self {
            IngestDeletePipelineUrlParams::Id(id) => {
                let mut url = "/_ingest/pipeline/".to_owned();
                url.push_str(id.0.as_str());
                Url::from_string(url)
            },
        }
    }
}

/// A request to the ingest delete pipeline endpoint.
#[derive(Debug, PartialEq, Clone)]
pub struct IngestDeletePipelineRequest {
    pub url: Url,
}

impl IngestDeletePipelineRequest {
    /// A request to the url at `id`.
    pub fn for_id(id: Id) -> (r: Self)
        ensures
            r.url@ == "/_ingest/pipeline/"@ + id.0@,
    {
        IngestDeletePipelineRequest { url: IngestDeletePipelineUrlParams::Id(id).url() }
    }
}

impl From<IngestDeletePipelineRequest> for HttpRequest<DefaultBody> {
    fn from(req: IngestDeletePipelineRequest) -> HttpRequest<DefaultBody> {
        HttpRequest { url: req.url, method: HttpMethod::Delete, body: None }
    }
}

impl vstd::std_specs::convert::FromSpecImpl<IngestDeletePipelineRequest> for HttpRequest<DefaultBody> {
    open spec fn obeys_from_spec() -> bool {
        true
    }

    open spec fn from_spec(req: IngestDeletePipelineRequest) -> HttpRequest<DefaultBody> {
        HttpRequest { url: req.url, method: HttpMethod::Delete, body: None }
    }
}

/// The urls of the tasks cancel endpoint, by the parameters each one takes.
#[derive(Debug, PartialEq, Clone)]
pub enum TasksCancelUrlParams {
    /// The url that takes no parameters.
    Base,
    TaskId(TaskId),
}

impl TasksCancelUrlParams {
    /// The url these parameters spell.
    pub fn url(self) -> (r: Url)
        ensures
            r@ == match self {
                TasksCancelUrlParams::Base => "/_tasks/_cancel"@,
                TasksCancelUrlParams::TaskId(task_id) => "/_tasks/"@ + task_id.0@ + "/_cancel"@,
            },
    {
        match self {
            TasksCancelUrlParams::Base => Url::from_string("/_tasks/_cancel".to_owned()),
            TasksCancelUrlParams::TaskId(task_id) => {
                let mut url = "/_tasks/".to_owned();
                url.push_str(task_id.0.as_str());
                url.push_str("/_cancel");
                Url::from_string(url)
            },
        }
    }
}

/// A request to the tasks cancel endpoint.
#[derive(Debug, PartialEq, Clone)]
pub struct TasksCancelRequest<B> {
    pub url: Url,
    pub body: B,
}

impl<B> TasksCancelRequest<B> {
    /// A request to the url without parameters.
    pub fn new(body: B) -> (r: Self)
        ensures
            r.url@ == "/_tasks/_cancel"@,
            r.body == body,
    {
        TasksCancelRequest { url: TasksCancelUrlParams::Base.url(), body: body }
    }

    /// A request to the url at `task_id`.
    pub fn for_task_id(task_id: TaskId, body: B) -> (r: Self)
        ensures
            r.url@ == "/_tasks/"@ + task_id.0@ + "/_cancel"@,
            r.body == body,
    {
        TasksCancelRequest { url: TasksCancelUrlParams::TaskId(task_id).url(), body: body }
    }
}

impl<B> From<TasksCancelRequest<B>> for HttpRequest<B> {
    fn from(req: TasksCancelRequest<B>) -> HttpRequest<B> {
        HttpRequest { url: req.url, method: HttpMethod::Post, body: Some(req.body) }
    }
}

impl<B> vstd::std_specs::convert::FromSpecImpl<TasksCancelRequest<B>> for HttpRequest<B> {
    open spec fn obeys_from_spec() -> bool {
        true
    }

    open spec fn from_spec(req: TasksCancelRequest<B>) -> HttpRequest<B> {
        HttpRequest { url: req.url, method: HttpMethod::Post, body: Some(req.body) }
    }
}

/// The urls of the indices clear cache endpoint, by the parameters each one takes.
#[derive(Debug, PartialEq, Clone)]
pub enum IndicesClearCacheUrlParams {
    /// The url that takes no parameters.
    Base,
    Index(Index),
}

impl IndicesClearCacheUrlParams {
    /// The url these parameters spell.
    pub fn url(self) -> (r: Url)
        ensures
            r@ == match self {
                IndicesClearCacheUrlParams::Base => "/_cache/clear"@,
                IndicesClearCacheUrlParams::Index(index) => "/"@ + index.0@ + "/_cache/clear"@,
            },
    {
        match self {
            IndicesClearCacheUrlParams::Base => Url::from_string("/_cache/clear".to_owned()),
            IndicesClearCacheUrlParams::Index(index) => {
                let mut url = "/".to_owned();
                url.push_str(index.0.as_str());
                url.push_str("/_cache/clear");
                Url::from_string(url)
            },
        }
    }
}

/// A request to the indices clear cache endpoint.
#[derive(Debug, PartialEq, Clone)]
pub struct IndicesClearCacheRequest<B> {
    pub url: Url,
    pub body: B,
}

impl<B> IndicesClearCacheRequest<B> {
    /// A request to the url without parameters.
    pub fn new(body: B) -> (r: Self)
        ensures
            r.url@ == "/_cache/clear"@,
            r.body == body,
    {
        IndicesClearCacheRequest { url: IndicesClearCacheUrlParams::Base.url(), body: body }
    }

    /// A request to the url at `index`.
    pub fn for_index(index: Index, body: B) -> (r: Self)
        ensures
            r.url@ == "/"@ + index.0@ + "/_cache/clear"@,
            r.body == body,
    {
        IndicesClearCacheRequest { url: IndicesClearCacheUrlParams::Index(index).url(), body: body }
    }
}

impl<B> From<IndicesClearCacheRequest<B>> for HttpRequest<B> {
    fn from(req: IndicesClearCacheRequest<B>) -> HttpRequest<B> {
        HttpRequest { url: req.url, method: HttpMethod::Post, body: Some(req.body) }
    }
}

impl<B> vstd::std_specs::convert::FromSpecImpl<IndicesClearCacheRequest<B>> for HttpRequest<B> {
    open spec fn obeys_from_spec() -> bool {
        true
    }

    open spec fn from_spec(req: IndicesClearCacheRequest<B>) -> HttpRequest<B> {
        HttpRequest { url: req.url, method: HttpMethod::Post, body: Some(req.body) }
    }
}

/// The urls of the delete endpoint, by the parameters each one takes.
#[derive(Debug, PartialEq, Clone)]
pub enum DeleteUrlParams {
    IndexTypeId(Index, Type, Id),
}

impl DeleteUrlParams {
    /// The url these parameters spell.
    pub fn url(self) -> (r: Url)
        ensures
            r@ == match self {
                DeleteUrlParams::IndexTypeId(index, ty, id) => "/"@ + index.0@ + "/"@ + ty.0@ + "/"@ + id.0@,
            },
    {
        match self {
            DeleteUrlParams::IndexTypeId(index, ty, id) => {
                let mut url = "/".to_owned();
                url.push_str(index.0.as_str());
                url.push_str("/");
                url.push_str(ty.0.as_str());
                url.push_str("/");
                url.push_str(id.0.as_str());
                Url::from_string(url)
            },
        }
    }
}

/// A request to the delete endpoint.
#[derive(Debug, PartialEq, Clone)]
pub struct DeleteRequest {
    pub url: Url,
}

impl DeleteRequest {
    /// A request to the url at `index`, `ty`, `id`.
    pub fn for_index_ty_id(index: Index, ty: Type, id: Id) -> (r: Self)
        ensures
            r.url@ == "/"@ + index.0@ + "/"@ + ty.0@ + "/"@ + id.0@,
    {
        DeleteRequest { url: DeleteUrlParams::IndexTypeId(index, ty, id).url() }
    }
}

impl From<DeleteRequest> for HttpRequest<DefaultBody> {
    fn from(req: DeleteRequest) -> HttpRequest<DefaultBody> {
        HttpRequest { url: req.url, method: HttpMethod::Delete, body: None }
    }
}

impl vstd::std_specs::convert::FromSpecImpl<DeleteRequest> for HttpRequest<DefaultBody> {
    open spec fn obeys_from_spec() -> bool {
        true
    }

    open spec fn from_spec(req: DeleteRequest) -> HttpRequest<DefaultBody> {
        HttpRequest { url: req.url, method: HttpMethod::Delete, body: None }
    }
}

/// The urls of the indices put mapping endpoint, by the parameters each one takes.
#[derive(Debug, PartialEq, Clone)]
pub enum IndicesPutMappingUrlParams {
    IndexType(Index, Type),
    Type(Type),
}

impl IndicesPutMappingUrlParams {
    /// The url these parameters spell.
    pub fn url(self) -> (r: Url)
        ensures
            r@ == match self {
                IndicesPutMappingUrlParams::IndexType(index, ty) => "/"@ + index.0@ + "/_mappings/"@ + ty.0@,
                IndicesPutMappingUrlParams::Type(ty) => "/_mappings/"@ + ty.0@,
            },
    {
        match self {
            IndicesPutMappingUrlParams::IndexType(index, ty) => {
                let mut url = "/".to_owned();
                url.push_str(index.0.as_str());
                url.push_str("/_mappings/");
                url.push_str(ty.0.as_str());
                Url::from_string(url)
            },
            IndicesPutMappingUrlParams::Type(ty) => {
                let mut url = "/_mappings/".to_owned();
                url.push_str(ty.0.as_str());
                Url::from_string(url)
            },
        }
    }
}

/// A request to the indices put mapping endpoint.
#[derive(Debug, PartialEq, Clone)]
pub struct IndicesPutMappingRequest<B> {
    pub url: Url,
    pub body: B,
}

impl<B> IndicesPutMappingRequest<B> {
    /// A request to the url at `index`, `ty`.
    pub fn for_index_ty(index: Index, ty: Type, body: B) -> (r: Self)
        ensures
            r.url@ == "/"@ + index.0@ + "/_mappings/"@ + ty.0@,
            r.body == body,
    {
        IndicesPutMappingRequest { url: IndicesPutMappingUrlParams::IndexType(index, ty).url(), body: body }
    }

    /// A request to the url at `ty`.
    pub fn for_ty(ty: Type, body: B) -> (r: Self)
        ensures
            r.url@ == "/_mappings/"@ + ty.0@,
            r.body == body,
    {
        IndicesPutMappingRequest { url: IndicesPutMappingUrlParams::Type(ty).url(), body: body }
    }
}

impl<B> From<IndicesPutMappingRequest<B>> for HttpRequest<B> {
    fn from(req: IndicesPutMappingRequest<B>) -> HttpRequest<B> {
        HttpRequest { url: req.url, method: HttpMethod::Post, body: Some(req.body) }
    }
}

impl<B> vstd::std_specs::convert::FromSpecImpl<IndicesPutMappingRequest<B>> for HttpRequest<B> {
    open spec fn obeys_from_spec() -> bool {
        true
    }

    open spec fn from_spec(req: IndicesPutMappingRequest<B>) -> HttpRequest<B> {
        HttpRequest { url: req.url, method: HttpMethod::Post, body: Some(req.body) }
    }
}

/// The urls of the cat aliases endpoint, by the parameters each one takes.
#[derive(Debug, PartialEq, Clone)]
pub enum CatAliasesUrlParams {
    /// The url that takes no parameters.
    Base,
    Name(Name),
}

impl CatAliasesUrlParams {
    /// The url these parameters spell.
    pub fn url(self) -> (r: Url)
        ensures
            r@ == match self {
                CatAliasesUrlParams::Base => "/_cat/aliases"@,
                CatAliasesUrlParams::Name(name) => "/_cat/aliases/"@ + name.0@,
            },
    {
        match self {
            CatAliasesUrlParams::Base => Url::from_string("/_cat/aliases".to_owned()),
            CatAliasesUrlParams::Name(name) => {
                let mut url = "/_cat/aliases/".to_owned();
                url.push_str(name.0.as_str());
                Url::from_string(url)
            },
        }
    }
}

/// A request to the cat aliases endpoint.
#[derive(Debug, PartialEq, Clone)]
pub struct CatAliasesRequest {
    pub url: Url,
}

impl CatAliasesRequest {
    /// A request to the url without parameters.
    pub fn new() -> (r: Self)
        ensures
            r.url@ == "/_cat/aliases"@,
    {
        CatAliasesRequest { url: CatAliasesUrlParams::Base.url() }
    }

    /// A request to the url at `name`.
    pub fn for_name(name: Name) -> (r: Self)
        ensures
            r.url@ == "/_cat/aliases/"@ + name.0@,
    {
        CatAliasesRequest { url: CatAliasesUrlParams::Name(name).url() }
    }
}

impl From<CatAliasesRequest> for HttpRequest<DefaultBody> {
    fn from(req: CatAliasesRequest) -> HttpRequest<DefaultBody> {
        HttpRequest { url: req.url, method: HttpMethod::Get, body: None }
    }
}

impl vstd::std_specs::convert::FromSpecImpl<CatAliasesRequest> for HttpRequest<DefaultBody> {
    open spec fn obeys_from_spec() -> bool {
        true
    }

    open spec fn from_spec(req: CatAliasesRequest) -> HttpRequest<DefaultBody> {
        HttpRequest { url: req.url, method: HttpMethod::Get, body: None }
    }
}

/// The urls of the cluster stats endpoint, by the parameters each one takes.
#[derive(Debug, PartialEq, Clone)]
pub enum ClusterStatsUrlParams {
    /// The url that takes no parameters.
    Base,
    NodeId(NodeId),
}

impl ClusterStatsUrlParams {
    /// The url these parameters spell.
    pub fn url(self) -> (r: Url)
        ensures
            r@ == match self {
                ClusterStatsUrlParams::Base => "/_cluster/stats"@,
                ClusterStatsUrlParams::NodeId(node_id) => "/_cluster/stats/nodes/"@ + node_id.0@,
            },
    {
        match self {
            ClusterStatsUrlParams::Base => Url::from_string("/_cluster/stats".to_owned()),
            ClusterStatsUrlParams::NodeId(node_id) => {
                let mut url = "/_cluster/stats/nodes/".to_owned();
                url.push_str(node_id.0.as_str());
                Url::from_string(url)
            },
        }
    }
}

/// A request to the cluster stats endpoint.
#[derive(Debug, PartialEq, Clone)]
pub struct ClusterStatsRequest {
    pub url: Url,
}

impl ClusterStatsRequest {
    /// A request to the url without parameters.
    pub fn new() -> (r: Self)
        ensures
            r.url@ == "/_cluster/stats"@,
    {
        ClusterStatsRequest { url: ClusterStatsUrlParams::Base.url() }
    }

    /// A request to the url at `node_id`.
    pub fn for_node_id(node_id: NodeId) -> (r: Self)
        ensures
            r.url@ == "/_cluster/stats/nodes/"@ + node_id.0@,
    {
        ClusterStatsRequest { url: ClusterStatsUrlParams::NodeId(node_id).url() }
    }
}

impl From<ClusterStatsRequest> for HttpRequest<DefaultBody> {
    fn from(req: ClusterStatsRequest) -> HttpRequest<DefaultBody> {
        HttpRequest { url: req.url, method: HttpMethod::Get, body: None }
    }
}

impl vstd::std_specs::convert::FromSpecImpl<ClusterStatsRequest> for HttpRequest<DefaultBody> {
    open spec fn obeys_from_spec() -> bool {
        true
    }

    open spec fn from_spec(req: ClusterStatsRequest) -> HttpRequest<DefaultBody> {
        HttpRequest { url: req.url, method: HttpMethod::Get, body: None }
    }
}

/// The urls of the indices validate query endpoint, by the parameters each one takes.
#[derive(Debug, PartialEq, Clone)]
pub enum IndicesValidateQueryUrlParams {
    /// The url that takes no parameters.
    Base,
    Index(Index),
    IndexType(Index, Type),
}

impl IndicesValidateQueryUrlParams {
    /// The url these parameters spell.
    pub fn url(self) -> (r: Url)
        ensures
            r@ == match self {
                IndicesValidateQueryUrlParams::Base => "/_validate/query"@,
                IndicesValidateQueryUrlParams::Index(index) => "/"@ + index.0@ + "/_validate/query"@,
                IndicesValidateQueryUrlParams::IndexType(index, ty) => "/"@ + index.0@ + "/"@ + ty.0@ + "/_validate/query"@,
            },
    {
        match self {
            IndicesValidateQueryUrlParams::Base => Url::from_string("/_validate/query".to_owned()),
            IndicesValidateQueryUrlParams::Index(index) => {
                let mut url = "/".to_owned();
                url.push_str(index.0.as_str());
                url.push_str("/_validate/query");
                Url::from_string(url)
            },
            IndicesValidateQueryUrlParams::IndexType(index, ty) => {
                let mut url = "/".to_owned();
                url.push_str(index.0.as_str());
                url.push_str("/");
                url.push_str(ty.0.as_str());
                url.push_str("/_validate/query");
                Url::from_string(url)
            },
        }
    }
}

/// A request to the indices validate query endpoint.
#[derive(Debug, PartialEq, Clone)]
pub struct IndicesValidateQueryRequest<B> {
    pub url: Url,
    pub body: B,
}

impl<B> IndicesValidateQueryRequest<B> {
    /// A request to the url without parameters.
    pub fn new(body: B) -> (r: Self)
        ensures
            r.url@ == "/_validate/query"@,
            r.body == body,
    {
        IndicesValidateQueryRequest { url: IndicesValidateQueryUrlParams::Base.url(), body: body }
    }

    /// A request to the url at `index`.
    pub fn for_index(index: Index, body: B) -> (r: Self)
        ensures
            r.url@ == "/"@ + index.0@ + "/_validate/query"@,
            r.body == body,
    {
        IndicesValidateQueryRequest { url: IndicesValidateQueryUrlParams::Index(index).url(), body: body }
    }

    /// A request to the url at `index`, `ty`.
    pub fn for_index_ty(index: Index, ty: Type, body: B) -> (r: Self)
        ensures
            r.url@ == "/"@ + index.0@ + "/"@ + ty.0@ + "/_validate/query"@,
            r.body == body,
    {
        IndicesValidateQueryRequest { url: IndicesValidateQueryUrlParams::IndexType(index, ty).url(), body: body }
    }
}

impl<B> From<IndicesValidateQueryRequest<B>> for HttpRequest<B> {
    fn from(req: IndicesValidateQueryRequest<B>) -> HttpRequest<B> {
        HttpRequest { url: req.url, method: HttpMethod::Post, body: Some(req.body) }
    }
}

impl<B> vstd::std_specs::convert::FromSpecImpl<IndicesValidateQueryRequest<B>> for HttpRequest<B> {
    open spec fn obeys_from_spec() -> bool {
        true
    }

    open spec fn from_spec(req: IndicesValidateQueryRequest<B>) -> HttpRequest<B> {
        HttpRequest { url: req.url, method: HttpMethod::Post, body: Some(req.body) }
    }
}

/// The urls of the cat pending tasks endpoint, by the parameters each one takes.
#[derive(Debug, PartialEq, Clone)]
pub enum CatPendingTasksUrlParams {
    /// The url that takes no parameters.
    Base,
}

impl CatPendingTasksUrlParams {
    /// The url these parameters spell.
    pub fn url(self) -> (r: Url)
        ensures
            r@ == match self {
                CatPendingTasksUrlParams::Base => "/_cat/pending_tasks"@,
            },
    {
        match self {
            CatPendingTasksUrlParams::Base => Url::from_string("/_cat/pending_tasks".to_owned()),
        }
    }
}

/// A request to the cat pending tasks endpoint.
#[derive(Debug, PartialEq, Clone)]
pub struct CatPendingTasksRequest {
    pub url: Url,
}

impl CatPendingTasksRequest {
    /// A request to the url without parameters.
    pub fn new() -> (r: Self)
        ensures
            r.url@ == "/_cat/pending_tasks"@,
    {
        CatPendingTasksRequest { url: CatPendingTasksUrlParams::Base.url() }
    }
}

impl From<CatPendingTasksRequest> for HttpRequest<DefaultBody> {
    fn from(req: CatPendingTasksRequest) -> HttpRequest<DefaultBody> {
        HttpRequest { url: req.url, method: HttpMethod::Get, body: None }
    }
}

impl vstd::std_specs::convert::FromSpecImpl<CatPendingTasksRequest> for HttpRequest<DefaultBody> {
    open spec fn obeys_from_spec() -> bool {
        true
    }

    open spec fn from_spec(req: CatPendingTasksRequest) -> HttpRequest<DefaultBody> {
        HttpRequest { url: req.url, method: HttpMethod::Get, body: None }
    }
}

/// The urls of the clear scroll endpoint, by the parameters each one takes.
#[derive(Debug, PartialEq, Clone)]
pub enum ClearScrollUrlParams {
    /// The url that takes no parameters.
    Base,
    ScrollId(ScrollId),
}

impl ClearScrollUrlParams {
    /// The url these parameters spell.
    pub fn url(self) -> (r: Url)
        ensures
            r@ == match self {
                ClearScrollUrlParams::Base => "/_search/scroll"@,
                ClearScrollUrlParams::ScrollId(scroll_id) => "/_search/scroll/"@ + scroll_id.0@,
            },
    {
        match self {
            ClearScrollUrlParams::Base => Url::from_string("/_search/scroll".to_owned()),
            ClearScrollUrlParams::ScrollId(scroll_id) => {
                let mut url = "/_search/scroll/".to_owned();
                url.push_str(scroll_id.0.as_str());
                Url::from_string(url)
            },
        }
    }
}

/// A request to the clear scroll endpoint.
#[derive(Debug, PartialEq, Clone)]
pub struct ClearScrollRequest<B> {
    pub url: Url,
    pub body: B,
}

impl<B> ClearScrollRequest<B> {
    /// A request to the url without parameters.
    pub fn new(body: B) -> (r: Self)
        ensures
            r.url@ == "/_search/scroll"@,
            r.body == body,
    {
        ClearScrollRequest { url: ClearScrollUrlParams::Base.url(), body: body }
    }

    /// A request to the url at `scroll_id`.
    pub fn for_scroll_id(scroll_id: ScrollId, body: B) -> (r: Self)
        ensures
            r.url@ == "/_search/scroll/"@ + scroll_id.0@,
            r.body == body,
    {
        ClearScrollRequest { url: ClearScrollUrlParams::ScrollId(scroll_id).url(), body: body }
    }
}

impl<B> From<ClearScrollRequest<B>> for HttpRequest<B> {
    fn from(req: ClearScrollRequest<B>) -> HttpRequest<B> {
        HttpRequest { url: req.url, method: HttpMethod::Delete, body: Some(req.body) }
    }
}

impl<B> vstd::std_specs::convert::FromSpecImpl<ClearScrollRequest<B>> for HttpRequest<B> {
    open spec fn obeys_from_spec() -> bool {
        true
    }

    open spec fn from_spec(req: ClearScrollRequest<B>) -> HttpRequest<B> {
        HttpRequest { url: req.url, method: HttpMethod::Delete, body: Some(req.body) }
    }
}

/// The urls of the cat shards endpoint, by the parameters each one takes.
#[derive(Debug, PartialEq, Clone)]
pub enum CatShardsUrlParams {
    /// The url that takes no parameters.
    Base,
    Index(Index),
}

impl CatShardsUrlParams {
    /// The url these parameters spell.
    pub fn url(self) -> (r: Url)
        ensures
            r@ == match self {
                CatShardsUrlParams::Base => "/_cat/shards"@,
                CatShardsUrlParams::Index(index) => "/_cat/shards/"@ + index.0@,
            },
    {
        match self {
            CatShardsUrlParams::Base => Url::from_string("/_cat/shards".to_owned()),
            CatShardsUrlParams::Index(index) => {
                let mut url = "/_cat/shards/".to_owned();
                url.push_str(index.0.as_str());
                Url::from_string(url)
            },
        }
    }
}

/// A request to the cat shards endpoint.
#[derive(Debug, PartialEq, Clone)]
pub struct CatShardsRequest {
    pub url: Url,
}

impl CatShardsRequest {
    /// A request to the url without parameters.
    pub fn new() -> (r: Self)
        ensures
            r.url@ == "/_cat/shards"@,
    {
        CatShardsRequest { url: CatShardsUrlParams::Base.url() }
    }

    /// A request to the url at `index`.
    pub fn for_index(index: Index) -> (r: Self)
        ensures
            r.url@ == "/_cat/shards/"@ + index.0@,
    {
        CatShardsRequest { url: CatShardsUrlParams::Index(index).url() }
    }
}

impl From<CatShardsRequest> for HttpRequest<DefaultBody> {
    fn from(req: CatShardsRequest) -> HttpRequest<DefaultBody> {
        HttpRequest { url: req.url, method: HttpMethod::Get, body: None }
    }
}

impl vstd::std_specs::convert::FromSpecImpl<CatShardsRequest> for HttpRequest<DefaultBody> {
    open spec fn obeys_from_spec() -> bool {
        true
    }

    open spec fn from_spec(req: CatShardsRequest) -> HttpRequest<DefaultBody> {
        HttpRequest { url: req.url, method: HttpMethod::Get, body: None }
    }
}

/// The urls of the indices shard stores endpoint, by the parameters each one takes.
#[derive(Debug, PartialEq, Clone)]
pub enum IndicesShardStoresUrlParams {
    /// The url that takes no parameters.
    Base,
    Index(Index),
}

impl IndicesShardStoresUrlParams {
    /// The url these parameters spell.
    pub fn url(self) -> (r: Url)
        ensures
            r@ == match self {
                IndicesShardStoresUrlParams::Base => "/_shard_stores"@,
                IndicesShardStoresUrlParams::Index(index) => "/"@ + index.0@ + "/_shard_stores"@,
            },
    {
        match self {
            IndicesShardStoresUrlParams::Base => Url::from_string("/_shard_stores".to_owned()),
            IndicesShardStoresUrlParams::Index(index) => {
                let mut url = "/".to_owned();
                url.push_str(index.0.as_str());
                url.push_str("/_shard_stores");
                Url::from_string(url)
            },
        }
    }
}

/// A request to the indices shard stores endpoint.
#[derive(Debug, PartialEq, Clone)]
pub struct IndicesShardStoresRequest {
    pub url: Url,
}

impl IndicesShardStoresRequest {
    /// A request to the url without parameters.
    pub fn new() -> (r: Self)
        ensures
            r.url@ == "/_shard_stores"@,
    {
        IndicesShardStoresRequest { url: IndicesShardStoresUrlParams::Base.url() }
    }

    /// A request to the url at `index`.
    pub fn for_index(index: Index) -> (r: Self)
        ensures
            r.url@ == "/"@ + index.0@ + "/_shard_stores"@,
    {
        IndicesShardStoresRequest { url: IndicesShardStoresUrlParams::Index(index).url() }
    }
}

impl From<IndicesShardStoresRequest> for HttpRequest<DefaultBody> {
    fn from(req: IndicesShardStoresRequest) -> HttpRequest<DefaultBody> {
        HttpRequest { url: req.url, method: HttpMethod::Get, body: None }
    }
}

impl vstd::std_specs::convert::FromSpecImpl<IndicesShardStoresRequest> for HttpRequest<DefaultBody> {
    open spec fn obeys_from_spec() -> bool {
        true
    }

    open spec fn from_spec(req: IndicesShardStoresRequest) -> HttpRequest<DefaultBody> {
        HttpRequest { url: req.url, method: HttpMethod::Get, body: None }
    }
}

/// The urls of the indices update aliases endpoint, by the parameters each one takes.
#[derive(Debug, PartialEq, Clone)]
pub enum IndicesUpdateAliasesUrlParams {
    /// The url that takes no parameters.
    Base,
}

impl IndicesUpdateAliasesUrlParams {
    /// The url these parameters spell.
    pub fn url(self) -> (r: Url)
        ensures
            r@ == match self {
                IndicesUpdateAliasesUrlParams::Base => "/_aliases"@,
            },
    {
        match self {
            IndicesUpdateAliasesUrlParams::Base => Url::from_string("/_aliases".to_owned()),
        }
    }
}

/// A request to the indices update aliases endpoint.
#[derive(Debug, PartialEq, Clone)]
pub struct IndicesUpdateAliasesRequest<B> {
    pub url: Url,
    pub body: B,
}

impl<B> IndicesUpdateAliasesRequest<B> {
    /// A request to the url without parameters.
    pub fn new(body: B) -> (r: Self)
        ensures
            r.url@ == "/_aliases"@,
            r.body == body,
    {
        IndicesUpdateAliasesRequest { url: IndicesUpdateAliasesUrlParams::Base.url(), body: body }
    }
}

impl<B> From<IndicesUpdateAliasesRequest<B>> for HttpRequest<B> {
    fn from(req: IndicesUpdateAliasesRequest<B>) -> HttpRequest<B> {
        HttpRequest { url: req.url, method: HttpMethod::Post, body: Some(req.body) }
    }
}

impl<B> vstd::std_specs::convert::FromSpecImpl<IndicesUpdateAliasesRequest<B>> for HttpRequest<B> {
    open spec fn obeys_from_spec() -> bool {
        true
    }

    open spec fn from_spec(req: IndicesUpdateAliasesRequest<B>) -> HttpRequest<B> {
        HttpRequest { url: req.url, method: HttpMethod::Post, body: Some(req.body) }
    }
}

/// The urls of the cat segments endpoint, by the parameters each one takes.
#[derive(Debug, PartialEq, Clone)]
pub enum CatSegmentsUrlParams {
    /// The url that takes no parameters.
    Base,
    Index(Index),
}

impl CatSegmentsUrlParams {
    /// The url these parameters spell.
    pub fn url(self) -> (r: Url)
        ensures
            r@ == match self {
                CatSegmentsUrlParams::Base => "/_cat/segments"@,
                CatSegmentsUrlParams::Index(index) => "/_cat/segments/"@ + index.0@,
            },
    {
        match self {
            CatSegmentsUrlParams::Base => Url::from_string("/_cat/segments".to_owned()),
            CatSegmentsUrlParams::Index(index) => {
                let mut url = "/_cat/segments/".to_owned();
                url.push_str(index.0.as_str());
                Url::from_string(url)
            },
        }
    }
}

/// A request to the cat segments endpoint.
#[derive(Debug, PartialEq, Clone)]
pub struct CatSegmentsRequest {
    pub url: Url,
}

impl CatSegmentsRequest {
    /// A request to the url without parameters.
    pub fn new() -> (r: Self)
        ensures
            r.url@ == "/_cat/segments"@,
    {
        CatSegmentsRequest { url: CatSegmentsUrlParams::Base.url() }
    }

    /// A request to the url at `index`.
    pub fn for_index(index: Index) -> (r: Self)
        ensures
            r.url@ == "/_cat/segments/"@ + index.0@,
    {
        CatSegmentsRequest { url: CatSegmentsUrlParams::Index(index).url() }
    }
}

impl From<CatSegmentsRequest> for HttpRequest<DefaultBody> {
    fn from(req: CatSegmentsRequest) -> HttpRequest<DefaultBody> {
        HttpRequest { url: req.url, method: HttpMethod::Get, body: None }
    }
}

impl vstd::std_specs::convert::FromSpecImpl<CatSegmentsRequest> for HttpRequest<DefaultBody> {
    open spec fn obeys_from_spec() -> bool {
        true
    }

    open spec fn from_spec(req: CatSegmentsRequest) -> HttpRequest<DefaultBody> {
        HttpRequest { url: req.url, method: HttpMethod::Get, body: None }
    }
}

/// The urls of the mpercolate endpoint, by the parameters each one takes.
#[derive(Debug, PartialEq, Clone)]
pub enum MpercolateUrlParams {
    /// The url that takes no parameters.
    Base,
    Index(Index),
    IndexType(Index, Type),
}

impl MpercolateUrlParams {
    /// The url these parameters spell.
    pub fn url(self) -> (r: Url)
        ensures
            r@ == match self {
                MpercolateUrlParams::Base => "/_mpercolate"@,
                MpercolateUrlParams::Index(index) => "/"@ + index.0@ + "/_mpercolate"@,
                MpercolateUrlParams::IndexType(index, ty) => "/"@ + index.0@ + "/"@ + ty.0@ + "/_mpercolate"@,
            },
    {
        match self {
            MpercolateUrlParams::Base => Url::from_string("/_mpercolate".to_owned()),
            MpercolateUrlParams::Index(index) => {
                let mut url = "/".to_owned();
                url.push_str(index.0.as_str());
                url.push_str("/_mpercolate");
                Url::from_string(url)
            },
            MpercolateUrlParams::IndexType(index, ty) => {
                let mut url = "/".to_owned();
                url.push_str(index.0.as_str());
                url.push_str("/");
                url.push_str(ty.0.as_str());
                url.push_str("/_mpercolate");
                Url::from_string(url)
            },
        }
    }
}

/// A request to the mpercolate endpoint.
#[derive(Debug, PartialEq, Clone)]
pub struct MpercolateRequest<B> {
    pub url: Url,
    pub body: B,
}

impl<B> MpercolateRequest<B> {
    /// A request to the url without parameters.
    pub fn new(body: B) -> (r: Self)
        ensures
            r.url@ == "/_mpercolate"@,
            r.body == body,
    {
        MpercolateRequest { url: MpercolateUrlParams::Base.url(), body: body }
    }

    /// A request to the url at `index`.
    pub fn for_index(index: Index, body: B) -> (r: Self)
        ensures
            r.url@ == "/"@ + index.0@ + "/_mpercolate"@,
            r.body == body,
    {
        MpercolateRequest { url: MpercolateUrlParams::Index(index).url(), body: body }
    }

    /// A request to the url at `index`, `ty`.
    pub fn for_index_ty(index: Index, ty: Type, body: B) -> (r: Self)
        ensures
            r.url@ == "/"@ + index.0@ + "/"@ + ty.0@ + "/_mpercolate"@,
            r.body == body,
    {
        MpercolateRequest { url: MpercolateUrlParams::IndexType(index, ty).url(), body: body }
    }
}

impl<B> From<MpercolateRequest<B>> for HttpRequest<B> {
    fn from(req: MpercolateRequest<B>) -> HttpRequest<B> {
        HttpRequest { url: req.url, method: HttpMethod::Post, body: Some(req.body) }
    }
}

impl<B> vstd::std_specs::convert::FromSpecImpl<MpercolateRequest<B>> for HttpRequest<B> {
    open spec fn obeys_from_spec() -> bool {
        true
    }

    open spec fn from_spec(req: MpercolateRequest<B>) -> HttpRequest<B> {
        HttpRequest { url: req.url, method: HttpMethod::Post, body: Some(req.body) }
    }
}

/// The urls of the indices open endpoint, by the parameters each one takes.
#[derive(Debug, PartialEq, Clone)]
pub enum IndicesOpenUrlParams {
    Index(Index),
}

impl IndicesOpenUrlParams {
    /// The url these parameters spell.
    pub fn url(self) -> (r: Url)
        ensures
            r@ == match self {
                IndicesOpenUrlParams::Index(index) => "/"@ + index.0@ + "/_open"@,
            },
    {
        match self {
            IndicesOpenUrlParams::Index(index) => {
                let mut url = "/".to_owned();
                url.push_str(index.0.as_str());
                url.push_str("/_open");
                Url::from_string(url)
            },
        }
    }
}

/// A request to the indices open endpoint.
#[derive(Debug, PartialEq, Clone)]
pub struct IndicesOpenRequest<B> {
    pub url: Url,
    pub body: B,
}

impl<B> IndicesOpenRequest<B> {
    /// A request to the url at `index`.
    pub fn for_index(index: Index, body: B) -> (r: Self)
        ensures
            r.url@ == "/"@ + index.0@ + "/_open"@,
            r.body == body,
    {
        IndicesOpenRequest { url: IndicesOpenUrlParams::Index(index).url(), body: body }
    }
}

impl<B> From<IndicesOpenRequest<B>> for HttpRequest<B> {
    fn from(req: IndicesOpenRequest<B>) -> HttpRequest<B> {
        HttpRequest { url: req.url, method: HttpMethod::Post, body: Some(req.body) }
    }
}

impl<B> vstd::std_specs::convert::FromSpecImpl<IndicesOpenRequest<B>> for HttpRequest<B> {
    open spec fn obeys_from_spec() -> bool {
        true
    }

    open spec fn from_spec(req: IndicesOpenRequest<B>) -> HttpRequest<B> {
        HttpRequest { url: req.url, method: HttpMethod::Post, body: Some(req.body) }
    }
}

/// The urls of the get endpoint, by the parameters each one takes.
#[derive(Debug, PartialEq, Clone)]
pub enum GetUrlParams {
    IndexTypeId(Index, Type, Id),
}

impl GetUrlParams {
    /// The url these parameters spell.
    pub fn url(self) -> (r: Url)
        ensures
            r@ == match self {
                GetUrlParams::IndexTypeId(index, ty, id) => "/"@ + index.0@ + "/"@ + ty.0@ + "/"@ + id.0@,
            },
    {
        match self {
            GetUrlParams::IndexTypeId(index, ty, id) => {
                let mut url = "/".to_owned();
                url.push_str(index.0.as_str());
                url.push_str("/");
                url.push_str(ty.0.as_str());
                url.push_str("/");
                url.push_str(id.0.as_str());
                Url::from_string(url)
            },
        }
    }
}

/// A request to the get endpoint.
#[derive(Debug, PartialEq, Clone)]
pub struct GetRequest {
    pub url: Url,
}

impl GetRequest {
    /// A request to the url at `index`, `ty`, `id`.
    pub fn for_index_ty_id(index: Index, ty: Type, id: Id) -> (r: Self)
        ensures
            r.url@ == "/"@ + index.0@ + "/"@ + ty.0@ + "/"@ + id.0@,
    {
        GetRequest { url: GetUrlParams::IndexTypeId(index, ty, id).url() }
    }
}

impl From<GetRequest> for HttpRequest<DefaultBody> {
    fn from(req: GetRequest) -> HttpRequest<DefaultBody> {
        HttpRequest { url: req.url, method: HttpMethod::Get, body: None }
    }
}

impl vstd::std_specs::convert::FromSpecImpl<GetRequest> for HttpRequest<DefaultBody> {
    open spec fn obeys_from_spec() -> bool {
        true
    }

    open spec fn from_spec(req: GetRequest) -> HttpRequest<DefaultBody> {
        HttpRequest { url: req.url, method: HttpMethod::Get, body: None }
    }
}

/// The urls of the update by query endpoint, by the parameters each one takes.
#[derive(Debug, PartialEq, Clone)]
pub enum UpdateByQueryUrlParams {
    Index(Index),
    IndexType(Index, Type),
}

impl UpdateByQueryUrlParams {
    /// The url these parameters spell.
    pub fn url(self) -> (r: Url)
        ensures
            r@ == match self {
                UpdateByQueryUrlParams::Index(index) => "/"@ + index.0@ + "/_update_by_query"@,
                UpdateByQueryUrlParams::IndexType(index, ty) => "/"@ + index.0@ + "/"@ + ty.0@ + "/_update_by_query"@,
            },
    {
        match self {
            UpdateByQueryUrlParams::Index(index) => {
                let mut url = "/".to_owned();
                url.push_str(index.0.as_str());
                url.push_str("/_update_by_query");
                Url::from_string(url)
            },
            UpdateByQueryUrlParams::IndexType(index, ty) => {
                let mut url = "/".to_owned();
                url.push_str(index.0.as_str());
                url.push_str("/");
                url.push_str(ty.0.as_str());
                url.push_str("/_update_by_query");
                Url::from_string(url)
            },
        }
    }
}

/// A request to the update by query endpoint.
#[derive(Debug, PartialEq, Clone)]
pub struct UpdateByQueryRequest<B> {
    pub url: Url,
    pub body: B,
}

impl<B> UpdateByQueryRequest<B> {
    /// A request to the url at `index`.
    pub fn for_index(index: Index, body: B) -> (r: Self)
        ensures
            r.url@ == "/"@ + index.0@ + "/_update_by_query"@,
            r.body == body,
    {
        UpdateByQueryRequest { url: UpdateByQueryUrlParams::Index(index).url(), body: body }
    }

    /// A request to the url at `index`, `ty`.
    pub fn for_index_ty(index: Index, ty: Type, body: B) -> (r: Self)
        ensures
            r.url@ == "/"@ + index.0@ + "/"@ + ty.0@ + "/_update_by_query"@,
            r.body == body,
    {
        UpdateByQueryRequest { url: UpdateByQueryUrlParams::IndexType(index, ty).url(), body: body }
    }
}

impl<B> From<UpdateByQueryRequest<B>> for HttpRequest<B> {
    fn from(req: UpdateByQueryRequest<B>) -> HttpRequest<B> {
        HttpRequest { url: req.url, method: HttpMethod::Post, body: Some(req.body) }
    }
}

impl<B> vstd::std_specs::convert::FromSpecImpl<UpdateByQueryRequest<B>> for HttpRequest<B> {
    open spec fn obeys_from_spec() -> bool {
        true
    }

    open spec fn from_spec(req: UpdateByQueryRequest<B>) -> HttpRequest<B> {
        HttpRequest { url: req.url, method: HttpMethod::Post, body: Some(req.body) }
    }
}

/// The urls of the mtermvectors endpoint, by the parameters each one takes.
#[derive(Debug, PartialEq, Clone)]
pub enum MtermvectorsUrlParams {
    /// The url that takes no parameters.
    Base,
    Index(Index),
    IndexType(Index, Type),
}

impl MtermvectorsUrlParams {
    /// The url these parameters spell.
    pub fn url(self) -> (r: Url)
        ensures
            r@ == match self {
                MtermvectorsUrlParams::Base => "/_mtermvectors"@,
                MtermvectorsUrlParams::Index(index) => "/"@ + index.0@ + "/_mtermvectors"@,
                MtermvectorsUrlParams::IndexType(index, ty) => "/"@ + index.0@ + "/"@ + ty.0@ + "/_mtermvectors"@,
            },
    {
        match self {
            MtermvectorsUrlParams::Base => Url::from_string("/_mtermvectors".to_owned()),
            MtermvectorsUrlParams::Index(index) => {
                let mut url = "/".to_owned();
                url.push_str(index.0.as_str());
                url.push_str("/_mtermvectors");
                Url::from_string(url)
            },
            MtermvectorsUrlParams::IndexType(index, ty) => {
                let mut url = "/".to_owned();
                url.push_str(index.0.as_str());
                url.push_str("/");
                url.push_str(ty.0.as_str());
                url.push_str("/_mtermvectors");
                Url::from_string(url)
            },
        }
    }
}

/// A request to the mtermvectors endpoint.
#[derive(Debug, PartialEq, Clone)]
pub struct MtermvectorsRequest<B> {
    pub url: Url,
    pub body: B,
}

impl<B> MtermvectorsRequest<B> {
    /// A request to the url without parameters.
    pub fn new(body: B) -> (r: Self)
        ensures
            r.url@ == "/_mtermvectors"@,
            r.body == body,
    {
        MtermvectorsRequest { url: MtermvectorsUrlParams::Base.url(), body: body }
    }

    /// A request to the url at `index`.
    pub fn for_index(index: Index, body: B) -> (r: Self)
        ensures
            r.url@ == "/"@ + index.0@ + "/_mtermvectors"@,
            r.body == body,
    {
        MtermvectorsRequest { url: MtermvectorsUrlParams::Index(index).url(), body: body }
    }

    /// A request to the url at `index`, `ty`.
    pub fn for_index_ty(index: Index, ty: Type, body: B) -> (r: Self)
        ensures
            r.url@ == "/"@ + index.0@ + "/"@ + ty.0@ + "/_mtermvectors"@,
            r.body == body,
    {
        MtermvectorsRequest { url: MtermvectorsUrlParams::IndexType(index, ty).url(), body: body }
    }
}

impl<B> From<MtermvectorsRequest<B>> for HttpRequest<B> {
    fn from(req: MtermvectorsRequest<B>) -> HttpRequest<B> {
        HttpRequest { url: req.url, method: HttpMethod::Post, body: Some(req.body) }
    }
}

impl<B> vstd::std_specs::convert::FromSpecImpl<MtermvectorsRequest<B>> for HttpRequest<B> {
    open spec fn obeys_from_spec() -> bool {
        true
    }

    open spec fn from_spec(req: MtermvectorsRequest<B>) -> HttpRequest<B> {
        HttpRequest { url: req.url, method: HttpMethod::Post, body: Some(req.body) }
    }
}

/// The urls of the cat recovery endpoint, by the parameters each one takes.
#[derive(Debug, PartialEq, Clone)]
pub enum CatRecoveryUrlParams {
    /// The url that takes no parameters.
    Base,
    Index(Index),
}

impl CatRecoveryUrlParams {
    /// The url these parameters spell.
    pub fn url(self) -> (r: Url)
        ensures
            r@ == match self {
                CatRecoveryUrlParams::Base => "/_cat/recovery"@,
                CatRecoveryUrlParams::Index(index) => "/_cat/recovery/"@ + index.0@,
            },
    {
        match self {
            CatRecoveryUrlParams::Base => Url::from_string("/_cat/recovery".to_owned()),
            CatRecoveryUrlParams::Index(index) => {
                let mut url = "/_cat/recovery/".to_owned();
                url.push_str(index.0.as_str());
                Url::from_string(url)
            },
        }
    }
}

/// A request to the cat recovery endpoint.
#[derive(Debug, PartialEq, Clone)]
pub struct CatRecoveryRequest {
    pub url: Url,
}

impl CatRecoveryRequest {
    /// A request to the url without parameters.
    pub fn new() -> (r: Self)
        ensures
            r.url@ == "/_cat/recovery"@,
    {
        CatRecoveryRequest { url: CatRecoveryUrlParams::Base.url() }
    }

    /// A request to the url at `index`.
    pub fn for_index(index: Index) -> (r: Self)
        ensures
            r.url@ == "/_cat/recovery/"@ + index.0@,
    {
        CatRecoveryRequest { url: CatRecoveryUrlParams::Index(index).url() }
    }
}

impl From<CatRecoveryRequest> for HttpRequest<DefaultBody> {
    fn from(req: CatRecoveryRequest) -> HttpRequest<DefaultBody> {
        HttpRequest { url: req.url, method: HttpMethod::Get, body: None }
    }
}

impl vstd::std_specs::convert::FromSpecImpl<CatRecoveryRequest> for HttpRequest<DefaultBody> {
    open spec fn obeys_from_spec() -> bool {
        true
    }

    open spec fn from_spec(req: CatRecoveryRequest) -> HttpRequest<DefaultBody> {
        HttpRequest { url: req.url, method: HttpMethod::Get, body: None }
    }
}

/// The urls of the snapshot restore endpoint, by the parameters each one takes.
#[derive(Debug, PartialEq, Clone)]
pub enum SnapshotRestoreUrlParams {
    RepositorySnapshot(Repository, Snapshot),
}

impl SnapshotRestoreUrlParams {
    /// The url these parameters spell.
    pub fn url(self) -> (r: Url)
        ensures
            r@ == match self {
                SnapshotRestoreUrlParams::RepositorySnapshot(repository, snapshot) => "/_snapshot/"@ + repository.0@ + "/"@ + snapshot.0@ + "/_restore"@,
            },
    {
        match self {
            SnapshotRestoreUrlParams::RepositorySnapshot(repository, snapshot) => {
                let mut url = "/_snapshot/".to_owned();
                url.push_str(repository.0.as_str());
                url.push_str("/");
                url.push_str(snapshot.0.as_str());
                url.push_str("/_restore");
                Url::from_string(url)
            },
        }
    }
}

/// A request to the snapshot restore endpoint.
#[derive(Debug, PartialEq, Clone)]
pub struct SnapshotRestoreRequest<B> {
    pub url: Url,
    pub body: B,
}

impl<B> SnapshotRestoreRequest<B> {
    /// A request to the url at `repository`, `snapshot`.
    pub fn for_repository_snapshot(repository: Repository, snapshot: Snapshot, body: B) -> (r: Self)
        ensures
            r.url@ == "/_snapshot/"@ + repository.0@ + "/"@ + snapshot.0@ + "/_restore"@,
            r.body == body,
    {
        SnapshotRestoreRequest { url: SnapshotRestoreUrlParams::RepositorySnapshot(repository, snapshot).url(), body: body }
    }
}

impl<B> From<SnapshotRestoreRequest<B>> for HttpRequest<B> {
    fn from(req: SnapshotRestoreRequest<B>) -> HttpRequest<B> {
        HttpRequest { url: req.url, method: HttpMethod::Post, body: Some(req.body) }
    }
}

impl<B> vstd::std_specs::convert::FromSpecImpl<SnapshotRestoreRequest<B>> for HttpRequest<B> {
    open spec fn obeys_from_spec() -> bool {
        true
    }

    open spec fn from_spec(req: SnapshotRestoreRequest<B>) -> HttpRequest<B> {
        HttpRequest { url: req.url, method: HttpMethod::Post, body: Some(req.body) }
    }
}

/// The urls of the reindex endpoint, by the parameters each one takes.
#[derive(Debug, PartialEq, Clone)]
pub enum ReindexUrlParams {
    /// The url that takes no parameters.
    Base,
}

impl ReindexUrlParams {
    /// The url these parameters spell.
    pub fn url(self) -> (r: Url)
        ensures
            r@ == match self {
                ReindexUrlParams::Base => "/_reindex"@,
            },
    {
        match self {
            ReindexUrlParams::Base => Url::from_string("/_reindex".to_owned()),
        }
    }
}

/// A request to the reindex endpoint.
#[derive(Debug, PartialEq, Clone)]
pub struct ReindexRequest<B> {
    pub url: Url,
    pub body: B,
}

impl<B> ReindexRequest<B> {
    /// A request to the url without parameters.
    pub fn new(body: B) -> (r: Self)
        ensures
            r.url@ == "/_reindex"@,
            r.body == body,
    {
        ReindexRequest { url: ReindexUrlParams::Base.url(), body: body }
    }
}

impl<B> From<ReindexRequest<B>> for HttpRequest<B> {
    fn from(req: ReindexRequest<B>) -> HttpRequest<B> {
        HttpRequest { url: req.url, method: HttpMethod::Post, body: Some(req.body) }
    }
}

impl<B> vstd::std_specs::convert::FromSpecImpl<ReindexRequest<B>> for HttpRequest<B> {
    open spec fn obeys_from_spec() -> bool {
        true
    }

    open spec fn from_spec(req: ReindexRequest<B>) -> HttpRequest<B> {
        HttpRequest { url: req.url, method: HttpMethod::Post, body: Some(req.body) }
    }
}

/// The urls of the cat health endpoint, by the parameters each one takes.
#[derive(Debug, PartialEq, Clone)]
pub enum CatHealthUrlParams {
    /// The url that takes no parameters.
    Base,
}

impl CatHealthUrlParams {
    /// The url these parameters spell.
    pub fn url(self) -> (r: Url)
        ensures
            r@ == match self {
                CatHealthUrlParams::Base => "/_cat/health"@,
            },
    {
        match self {
            CatHealthUrlParams::Base => Url::from_string("/_cat/health".to_owned()),
        }
    }
}

/// A request to the cat health endpoint.
#[derive(Debug, PartialEq, Clone)]
pub struct CatHealthRequest {
    pub url: Url,
}

impl CatHealthRequest {
    /// A request to the url without parameters.
    pub fn new() -> (r: Self)
        ensures
            r.url@ == "/_cat/health"@,
    {
        CatHealthRequest { url: CatHealthUrlParams::Base.url() }
    }
}

impl From<CatHealthRequest> for HttpRequest<DefaultBody> {
    fn from(req: CatHealthRequest) -> HttpRequest<DefaultBody> {
        HttpRequest { url: req.url, method: HttpMethod::Get, body: None }
    }
}

impl vstd::std_specs::convert::FromSpecImpl<CatHealthRequest> for HttpRequest<DefaultBody> {
    open spec fn obeys_from_spec() -> bool {
        true
    }

    open spec fn from_spec(req: CatHealthRequest) -> HttpRequest<DefaultBody> {
        HttpRequest { url: req.url, method: HttpMethod::Get, body: None }
    }
}

/// The urls of the cat count endpoint, by the parameters each one takes.
#[derive(Debug, PartialEq, Clone)]
pub enum CatCountUrlParams {
    /// The url that takes no parameters.
    Base,
    Index(Index),
}

impl CatCountUrlParams {
    /// The url these parameters spell.
    pub fn url(self) -> (r: Url)
        ensures
            r@ == match self {
                CatCountUrlParams::Base => "/_cat/count"@,
                CatCountUrlParams::Index(index) => "/_cat/count/"@ + index.0@,
            },
    {
        match self {
            CatCountUrlParams::Base => Url::from_string("/_cat/count".to_owned()),
            CatCountUrlParams::Index(index) => {
                let mut url = "/_cat/count/".to_owned();
                url.push_str(index.0.as_str());
                Url::from_string(url)
            },
        }
    }
}

/// A request to the cat count endpoint.
#[derive(Debug, PartialEq, Clone)]
pub struct CatCountRequest {
    pub url: Url,
}

impl CatCountRequest {
    /// A request to the url without parameters.
    pub fn new() -> (r: Self)
        ensures
            r.url@ == "/_cat/count"@,
    {
        CatCountRequest { url: CatCountUrlParams::Base.url() }
    }

    /// A request to the url at `index`.
    pub fn for_index(index: Index) -> (r: Self)
        ensures
            r.url@ == "/_cat/count/"@ + index.0@,
    {
        CatCountRequest { url: CatCountUrlParams::Index(index).url() }
    }
}

impl From<CatCountRequest> for HttpRequest<DefaultBody> {
    fn from(req: CatCountRequest) -> HttpRequest<DefaultBody> {
        HttpRequest { url: req.url, method: HttpMethod::Get, body: None }
    }
}

impl vstd::std_specs::convert::FromSpecImpl<CatCountRequest> for HttpRequest<DefaultBody> {
    open spec fn obeys_from_spec() -> bool {
        true
    }

    open spec fn from_spec(req: CatCountRequest) -> HttpRequest<DefaultBody> {
        HttpRequest { url: req.url, method: HttpMethod::Get, body: None }
    }
}

/// The urls of the cat snapshots endpoint, by the parameters each one takes.
#[derive(Debug, PartialEq, Clone)]
pub enum CatSnapshotsUrlParams {
    /// The url that takes no parameters.
    Base,
    Repository(Repository),
}

impl CatSnapshotsUrlParams {
    /// The url these parameters spell.
    pub fn url(self) -> (r: Url)
        ensures
            r@ == match self {
                CatSnapshotsUrlParams::Base => "/_cat/snapshots"@,
                CatSnapshotsUrlParams::Repository(repository) => "/_cat/snapshots/"@ + repository.0@,
            },
    {
        match self {
            CatSnapshotsUrlParams::Base => Url::from_string("/_cat/snapshots".to_owned()),
            CatSnapshotsUrlParams::Repository(repository) => {
                let mut url = "/_cat/snapshots/".to_owned();
                url.push_str(repository.0.as_str());
                Url::from_string(url)
            },
        }
    }
}

/// A request to the cat snapshots endpoint.
#[derive(Debug, PartialEq, Clone)]
pub struct CatSnapshotsRequest {
    pub url: Url,
}

impl CatSnapshotsRequest {
    /// A request to the url without parameters.
    pub fn new() -> (r: Self)
        ensures
            r.url@ == "/_cat/snapshots"@,
    {
        CatSnapshotsRequest { url: CatSnapshotsUrlParams::Base.url() }
    }

    /// A request to the url at `repository`.
    pub fn for_repository(repository: Repository) -> (r: Self)
        ensures
            r.url@ == "/_cat/snapshots/"@ + repository.0@,
    {
        CatSnapshotsRequest { url: CatSnapshotsUrlParams::Repository(repository).url() }
    }
}

impl From<CatSnapshotsRequest> for HttpRequest<DefaultBody> {
    fn from(req: CatSnapshotsRequest) -> HttpRequest<DefaultBody> {
        HttpRequest { url: req.url, method: HttpMethod::Get, body: None }
    }
}

impl vstd::std_specs::convert::FromSpecImpl<CatSnapshotsRequest> for HttpRequest<DefaultBody> {
    open spec fn obeys_from_spec() -> bool {
        true
    }

    open spec fn from_spec(req: CatSnapshotsRequest) -> HttpRequest<DefaultBody> {
        HttpRequest { url: req.url, method: HttpMethod::Get, body: None }
    }
}

/// The urls of the indices get mapping endpoint, by the parameters each one takes.
#[derive(Debug, PartialEq, Clone)]
pub enum IndicesGetMappingUrlParams {
    /// The url that takes no parameters.
    Base,
    Index(Index),
    IndexType(Index, Type),
    Type(Type),
}

impl IndicesGetMappingUrlParams {
    /// The url these parameters spell.
    pub fn url(self) -> (r: Url)
        ensures
            r@ == match self {
                IndicesGetMappingUrlParams::Base => "/_mapping"@,
                IndicesGetMappingUrlParams::Index(index) => "/"@ + index.0@ + "/_mapping"@,
                IndicesGetMappingUrlParams::IndexType(index, ty) => "/"@ + index.0@ + "/_mapping/"@ + ty.0@,
                IndicesGetMappingUrlParams::Type(ty) => "/_mapping/"@ + ty.0@,
            },
    {
        match self {
            IndicesGetMappingUrlParams::Base => Url::from_string("/_mapping".to_owned()),
            IndicesGetMappingUrlParams::Index(index) => {
                let mut url = "/".to_owned();
                url.push_str(index.0.as_str());
                url.push_str("/_mapping");
                Url::from_string(url)
            },
            IndicesGetMappingUrlParams::IndexType(index, ty) => {
                let mut url = "/".to_owned();
                url.push_str(index.0.as_str());
                url.push_str("/_mapping/");
                url.push_str(ty.0.as_str());
                Url::from_string(url)
            },
            IndicesGetMappingUrlParams::Type(ty) => {
                let mut url = "/_mapping/".to_owned();
                url.push_str(ty.0.as_str());
                Url::from_string(url)
            },
        }
    }
}

/// A request to the indices get mapping endpoint.
#[derive(Debug, PartialEq, Clone)]
pub struct IndicesGetMappingRequest {
    pub url: Url,
}

impl IndicesGetMappingRequest {
    /// A request to the url without parameters.
    pub fn new() -> (r: Self)
        ensures
            r.url@ == "/_mapping"@,
    {
        IndicesGetMappingRequest { url: IndicesGetMappingUrlParams::Base.url() }
    }

    /// A request to the url at `index`.
    pub fn for_index(index: Index) -> (r: Self)
        ensures
            r.url@ == "/"@ + index.0@ + "/_mapping"@,
    {
        IndicesGetMappingRequest { url: IndicesGetMappingUrlParams::Index(index).url() }
    }

    /// A request to the url at `index`, `ty`.
    pub fn for_index_ty(index: Index, ty: Type) -> (r: Self)
        ensures
            r.url@ == "/"@ + index.0@ + "/_mapping/"@ + ty.0@,
    {
        IndicesGetMappingRequest { url: IndicesGetMappingUrlParams::IndexType(index, ty).url() }
    }

    /// A request to the url at `ty`.
    pub fn for_ty(ty: Type) -> (r: Self)
        ensures
            r.url@ == "/_mapping/"@ + ty.0@,
    {
        IndicesGetMappingRequest { url: IndicesGetMappingUrlParams::Type(ty).url() }
    }
}

impl From<IndicesGetMappingRequest> for HttpRequest<DefaultBody> {
    fn from(req: IndicesGetMappingRequest) -> HttpRequest<DefaultBody> {
        HttpRequest { url: req.url, method: HttpMethod::Get, body: None }
    }
}

impl vstd::std_specs::convert::FromSpecImpl<IndicesGetMappingRequest> for HttpRequest<DefaultBody> {
    open spec fn obeys_from_spec() -> bool {
        true
    }

    open spec fn from_spec(req: IndicesGetMappingRequest) -> HttpRequest<DefaultBody> {
        HttpRequest { url: req.url, method: HttpMethod::Get, body: None }
    }
}

/// The urls of the snapshot get endpoint, by the parameters each one takes.
#[derive(Debug, PartialEq, Clone)]
pub enum SnapshotGetUrlParams {
    RepositorySnapshot(Repository, Snapshot),
}

impl SnapshotGetUrlParams {
    /// The url these parameters spell.
    pub fn url(self) -> (r: Url)
        ensures
            r@ == match self {
                SnapshotGetUrlParams::RepositorySnapshot(repository, snapshot) => "/_snapshot/"@ + repository.0@ + "/"@ + snapshot.0@,
            },
    {
        match self {
            SnapshotGetUrlParams::RepositorySnapshot(repository, snapshot) => {
                let mut url = "/_snapshot/".to_owned();
                url.push_str(repository.0.as_str());
                url.push_str("/");
                url.push_str(snapshot.0.as_str());
                Url::from_string(url)
            },
        }
    }
}

/// A request to the snapshot get endpoint.
#[derive(Debug, PartialEq, Clone)]
pub struct SnapshotGetRequest {
    pub url: Url,
}

impl SnapshotGetRequest {
    /// A request to the url at `repository`, `snapshot`.
    pub fn for_repository_snapshot(repository: Repository, snapshot: Snapshot) -> (r: Self)
        ensures
            r.url@ == "/_snapshot/"@ + repository.0@ + "/"@ + snapshot.0@,
    {
        SnapshotGetRequest { url: SnapshotGetUrlParams::RepositorySnapshot(repository, snapshot).url() }
    }
}

impl From<SnapshotGetRequest> for HttpRequest<DefaultBody> {
    fn from(req: SnapshotGetRequest) -> HttpRequest<DefaultBody> {
        HttpRequest { url: req.url, method: HttpMethod::Get, body: None }
    }
}

impl vstd::std_specs::convert::FromSpecImpl<SnapshotGetRequest> for HttpRequest<DefaultBody> {
    open spec fn obeys_from_spec() -> bool {
        true
    }

    open spec fn from_spec(req: SnapshotGetRequest) -> HttpRequest<DefaultBody> {
        HttpRequest { url: req.url, method: HttpMethod::Get, body: None }
    }
}

/// The urls of the cat nodes endpoint, by the parameters each one takes.
#[derive(Debug, PartialEq, Clone)]
pub enum CatNodesUrlParams {
    /// The url that takes no parameters.
    Base,
}

impl CatNodesUrlParams {
    /// The url these parameters spell.
    pub fn url(self) -> (r: Url)
        ensures
            r@ == match self {
                CatNodesUrlParams::Base => "/_cat/nodes"@,
            },
    {
        match self {
            CatNodesUrlParams::Base => Url::from_string("/_cat/nodes".to_owned()),
        }
    }
}

/// A request to the cat nodes endpoint.
#[derive(Debug, PartialEq, Clone)]
pub struct CatNodesRequest {
    pub url: Url,
}

impl CatNodesRequest {
    /// A request to the url without parameters.
    pub fn new() -> (r: Self)
        ensures
            r.url@ == "/_cat/nodes"@,
    {
        CatNodesRequest { url: CatNodesUrlParams::Base.url() }
    }
}

impl From<CatNodesRequest> for HttpRequest<DefaultBody> {
    fn from(req: CatNodesRequest) -> HttpRequest<DefaultBody> {
        HttpRequest { url: req.url, method: HttpMethod::Get, body: None }
    }
}

impl vstd::std_specs::convert::FromSpecImpl<CatNodesRequest> for HttpRequest<DefaultBody> {
    open spec fn obeys_from_spec() -> bool {
        true
    }

    open spec fn from_spec(req: CatNodesRequest) -> HttpRequest<DefaultBody> {
        HttpRequest { url: req.url, method: HttpMethod::Get, body: None }
    }
}

/// The urls of the exists endpoint, by the parameters each one takes.
#[derive(Debug, PartialEq, Clone)]
pub enum ExistsUrlParams {
    IndexTypeId(Index, Type, Id),
}

impl ExistsUrlParams {
    /// The url these parameters spell.
    pub fn url(self) -> (r: Url)
        ensures
            r@ == match self {
                ExistsUrlParams::IndexTypeId(index, ty, id) => "/"@ + index.0@ + "/"@ + ty.0@ + "/"@ + id.0@,
            },
    {
        match self {
            ExistsUrlParams::IndexTypeId(index, ty, id) => {
                let mut url = "/".to_owned();
                url.push_str(index.0.as_str());
                url.push_str("/");
                url.push_str(ty.0.as_str());
                url.push_str("/");
                url.push_str(id.0.as_str());
                Url::from_string(url)
            },
        }
    }
}

/// A request to the exists endpoint.
#[derive(Debug, PartialEq, Clone)]
pub struct ExistsRequest {
    pub url: Url,
}

impl ExistsRequest {
    /// A request to the url at `index`, `ty`, `id`.
    pub fn for_index_ty_id(index: Index, ty: Type, id: Id) -> (r: Self)
        ensures
            r.url@ == "/"@ + index.0@ + "/"@ + ty.0@ + "/"@ + id.0@,
    {
        ExistsRequest { url: ExistsUrlParams::IndexTypeId(index, ty, id).url() }
    }
}

impl From<ExistsRequest> for HttpRequest<DefaultBody> {
    fn from(req: ExistsRequest) -> HttpRequest<DefaultBody> {
        HttpRequest { url: req.url, method: HttpMethod::Head, body: None }
    }
}

impl vstd::std_specs::convert::FromSpecImpl<ExistsRequest> for HttpRequest<DefaultBody> {
    open spec fn obeys_from_spec() -> bool {
        true
    }

    open spec fn from_spec(req: ExistsRequest) -> HttpRequest<DefaultBody> {
        HttpRequest { url: req.url, method: HttpMethod::Head, body: None }
    }
}

/// The urls of the cluster reroute endpoint, by the parameters each one takes.
#[derive(Debug, PartialEq, Clone)]
pub enum ClusterRerouteUrlParams {
    /// The url that takes no parameters.
    Base,
}

impl ClusterRerouteUrlParams {
    /// The url these parameters spell.
    pub fn url(self) -> (r: Url)
        ensures
            r@ == match self {
                ClusterRerouteUrlParams::Base => "/_cluster/reroute"@,
            },
    {
        match self {
            ClusterRerouteUrlParams::Base => Url::from_string("/_cluster/reroute".to_owned()),
        }
    }
}

/// A request to the cluster reroute endpoint.
#[derive(Debug, PartialEq, Clone)]
pub struct ClusterRerouteRequest<B> {
    pub url: Url,
    pub body: B,
}

impl<B> ClusterRerouteRequest<B> {
    /// A request to the url without parameters.
    pub fn new(body: B) -> (r: Self)
        ensures
            r.url@ == "/_cluster/reroute"@,
            r.body == body,
    {
        ClusterRerouteRequest { url: ClusterRerouteUrlParams::Base.url(), body: body }
    }
}

impl<B> From<ClusterRerouteRequest<B>> for HttpRequest<B> {
    fn from(req: ClusterRerouteRequest<B>) -> HttpRequest<B> {
        HttpRequest { url: req.url, method: HttpMethod::Post, body: Some(req.body) }
    }
}

impl<B> vstd::std_specs::convert::FromSpecImpl<ClusterRerouteRequest<B>> for HttpRequest<B> {
    open spec fn obeys_from_spec() -> bool {
        true
    }

    open spec fn from_spec(req: ClusterRerouteRequest<B>) -> HttpRequest<B> {
        HttpRequest { url: req.url, method: HttpMethod::Post, body: Some(req.body) }
    }
}

/// The urls of the nodes hot threads endpoint, by the parameters each one takes.
#[derive(Debug, PartialEq, Clone)]
pub enum NodesHotThreadsUrlParams {
    /// The url that takes no parameters.
    Base,
    NodeId(NodeId),
}

impl NodesHotThreadsUrlParams {
    /// The url these parameters spell.
    pub fn url(self) -> (r: Url)
        ensures
            r@ == match self {
                NodesHotThreadsUrlParams::Base => "/_nodes/hot_threads"@,
                NodesHotThreadsUrlParams::NodeId(node_id) => "/_nodes/"@ + node_id.0@ + "/hot_threads"@,
            },
    {
        match self {
            NodesHotThreadsUrlParams::Base => Url::from_string("/_nodes/hot_threads".to_owned()),
            NodesHotThreadsUrlParams::NodeId(node_id) => {
                let mut url = "/_nodes/".to_owned();
                url.push_str(node_id.0.as_str());
                url.push_str("/hot_threads");
                Url::from_string(url)
            },
        }
    }
}

/// A request to the nodes hot threads endpoint.
#[derive(Debug, PartialEq, Clone)]
pub struct NodesHotThreadsRequest {
    pub url: Url,
}

impl NodesHotThreadsRequest {
    /// A request to the url without parameters.
    pub fn new() -> (r: Self)
        ensures
            r.url@ == "/_nodes/hot_threads"@,
    {
        NodesHotThreadsRequest { url: NodesHotThreadsUrlParams::Base.url() }
    }

    /// A request to the url at `node_id`.
    pub fn for_node_id(node_id: NodeId) -> (r: Self)
        ensures
            r.url@ == "/_nodes/"@ + node_id.0@ + "/hot_threads"@,
    {
        NodesHotThreadsRequest { url: NodesHotThreadsUrlParams::NodeId(node_id).url() }
    }
}

impl From<NodesHotThreadsRequest> for HttpRequest<DefaultBody> {
    fn from(req: NodesHotThreadsRequest) -> HttpRequest<DefaultBody> {
        HttpRequest { url: req.url, method: HttpMethod::Get, body: None }
    }
}

impl vstd::std_specs::convert::FromSpecImpl<NodesHotThreadsRequest> for HttpRequest<DefaultBody> {
    open spec fn obeys_from_spec() -> bool {
        true
    }

    open spec fn from_spec(req: NodesHotThreadsRequest) -> HttpRequest<DefaultBody> {
        HttpRequest { url: req.url, method: HttpMethod::Get, body: None }
    }
}

/// The urls of the nodes stats endpoint, by the parameters each one takes.
#[derive(Debug, PartialEq, Clone)]
pub enum NodesStatsUrlParams {
    /// The url that takes no parameters.
    Base,
    Metric(Metric),
    MetricIndexMetric(Metric, IndexMetric),
    NodeId(NodeId),
    NodeIdMetric(NodeId, Metric),
    NodeIdMetricIndexMetric(NodeId, Metric, IndexMetric),
}

impl NodesStatsUrlParams {
    /// The url these parameters spell.
    pub fn url(self) -> (r: Url)
        ensures
            r@ == match self {
                NodesStatsUrlParams::Base => "/_nodes/stats"@,
                NodesStatsUrlParams::Metric(metric) => "/_nodes/stats/"@ + metric.0@,
                NodesStatsUrlParams::MetricIndexMetric(metric, index_metric) => "/_nodes/stats/"@ + metric.0@ + "/"@ + index_metric.0@,
                NodesStatsUrlParams::NodeId(node_id) => "/_nodes/"@ + node_id.0@ + "/stats"@,
                NodesStatsUrlParams::NodeIdMetric(node_id, metric) => "/_nodes/"@ + node_id.0@ + "/stats/"@ + metric.0@,
                NodesStatsUrlParams::NodeIdMetricIndexMetric(node_id, metric, index_metric) => "/_nodes/"@ + node_id.0@ + "/stats/"@ + metric.0@ + "/"@ + index_metric.0@,
            },
    {
        match self {
            NodesStatsUrlParams::Base => Url::from_string("/_nodes/stats".to_owned()),
            NodesStatsUrlParams::Metric(metric) => {
                let mut url = "/_nodes/stats/".to_owned();
                url.push_str(metric.0.as_str());
                Url::from_string(url)
            },
            NodesStatsUrlParams::MetricIndexMetric(metric, index_metric) => {
                let mut url = "/_nodes/stats/".to_owned();
                url.push_str(metric.0.as_str());
                url.push_str("/");
                url.push_str(index_metric.0.as_str());
                Url::from_string(url)
            },
            NodesStatsUrlParams::NodeId(node_id) => {
                let mut url = "/_nodes/".to_owned();
                url.push_str(node_id.0.as_str());
                url.push_str("/stats");
                Url::from_string(url)
            },
            NodesStatsUrlParams::NodeIdMetric(node_id, metric) => {
                let mut url = "/_nodes/".to_owned();
                url.push_str(node_id.0.as_str());
                url.push_str("/stats/");
                url.push_str(metric.0.as_str());
                Url::from_string(url)
            },
            NodesStatsUrlParams::NodeIdMetricIndexMetric(node_id, metric, index_metric) => {
                let mut url = "/_nodes/".to_owned();
                url.push_str(node_id.0.as_str());
                url.push_str("/stats/");
                url.push_str(metric.0.as_str());
                url.push_str("/");
                url.push_str(index_metric.0.as_str());
                Url::from_string(url)
            },
        }
    }
}

/// A request to the nodes stats endpoint.
#[derive(Debug, PartialEq, Clone)]
pub struct NodesStatsRequest {
    pub url: Url,
}

impl NodesStatsRequest {
    /// A request to the url without parameters.
    pub fn new() -> (r: Self)
        ensures
            r.url@ == "/_nodes/stats"@,
    {
        NodesStatsRequest { url: NodesStatsUrlParams::Base.url() }
    }

    /// A request to the url at `metric`.
    pub fn for_metric(metric: Metric) -> (r: Self)
        ensures
            r.url@ == "/_nodes/stats/"@ + metric.0@,
    {
        NodesStatsRequest { url: NodesStatsUrlParams::Metric(metric).url() }
    }

    /// A request to the url at `metric`, `index_metric`.
    pub fn for_metric_index_metric(metric: Metric, index_metric: IndexMetric) -> (r: Self)
        ensures
            r.url@ == "/_nodes/stats/"@ + metric.0@ + "/"@ + index_metric.0@,
    {
        NodesStatsRequest { url: NodesStatsUrlParams::MetricIndexMetric(metric, index_metric).url() }
    }

    /// A request to the url at `node_id`.
    pub fn for_node_id(node_id: NodeId) -> (r: Self)
        ensures
            r.url@ == "/_nodes/"@ + node_id.0@ + "/stats"@,
    {
        NodesStatsRequest { url: NodesStatsUrlParams::NodeId(node_id).url() }
    }

    /// A request to the url at `node_id`, `metric`.
    pub fn for_node_id_metric(node_id: NodeId, metric: Metric) -> (r: Self)
        ensures
            r.url@ == "/_nodes/"@ + node_id.0@ + "/stats/"@ + metric.0@,
    {
        NodesStatsRequest { url: NodesStatsUrlParams::NodeIdMetric(node_id, metric).url() }
    }

    /// A request to the url at `node_id`, `metric`, `index_metric`.
    pub fn for_node_id_metric_index_metric(node_id: NodeId, metric: Metric, index_metric: IndexMetric) -> (r: Self)
        ensures
            r.url@ == "/_nodes/"@ + node_id.0@ + "/stats/"@ + metric.0@ + "/"@ + index_metric.0@,
    {
        NodesStatsRequest { url: NodesStatsUrlParams::NodeIdMetricIndexMetric(node_id, metric, index_metric).url() }
    }
}

impl From<NodesStatsRequest> for HttpRequest<DefaultBody> {
    fn from(req: NodesStatsRequest) -> HttpRequest<DefaultBody> {
        HttpRequest { url: req.url, method: HttpMethod::Get, body: None }
    }
}

impl vstd::std_specs::convert::FromSpecImpl<NodesStatsRequest> for HttpRequest<DefaultBody> {
    open spec fn obeys_from_spec() -> bool {
        true
    }

    open spec fn from_spec(req: NodesStatsRequest) -> HttpRequest<DefaultBody> {
        HttpRequest { url: req.url, method: HttpMethod::Get, body: None }
    }
}

/// The urls of the ingest get pipeline endpoint, by the parameters each one takes.
#[derive(Debug, PartialEq, Clone)]
pub enum IngestGetPipelineUrlParams {
    /// The url that takes no parameters.
    Base,
    Id(Id),
}

impl IngestGetPipelineUrlParams {
    /// The url these parameters spell.
    pub fn url(self) -> (r: Url)
        ensures
            r@ == match self {
                IngestGetPipelineUrlParams::Base => "/_ingest/pipeline"@,
                IngestGetPipelineUrlParams::Id(id) => "/_ingest/pipeline/"@ + id.0@,
            },
    {
        match self {
            IngestGetPipelineUrlParams::Base => Url::from_string("/_ingest/pipeline".to_owned()),
            IngestGetPipelineUrlParams::Id(id) => {
                let mut url = "/_ingest/pipeline/".to_owned();
                url.push_str(id.0.as_str());
                Url::from_string(url)
            },
        }
    }
}

/// A request to the ingest get pipeline endpoint.
#[derive(Debug, PartialEq, Clone)]
pub struct IngestGetPipelineRequest {
    pub url: Url,
}

impl IngestGetPipelineRequest {
    /// A request to the url without parameters.
    pub fn new() -> (r: Self)
        ensures
            r.url@ == "/_ingest/pipeline"@,
    {
        IngestGetPipelineRequest { url: IngestGetPipelineUrlParams::Base.url() }
    }

    /// A request to the url at `id`.
    pub fn for_id(id: Id) -> (r: Self)
        ensures
            r.url@ == "/_ingest/pipeline/"@ + id.0@,
    {
        IngestGetPipelineRequest { url: IngestGetPipelineUrlParams::Id(id).url() }
    }
}

impl From<IngestGetPipelineRequest> for HttpRequest<DefaultBody> {
    fn from(req: IngestGetPipelineRequest) -> HttpRequest<DefaultBody> {
        HttpRequest { url: req.url, method: HttpMethod::Get, body: None }
    }
}

impl vstd::std_specs::convert::FromSpecImpl<IngestGetPipelineRequest> for HttpRequest<DefaultBody> {
    open spec fn obeys_from_spec() -> bool {
        true
    }

    open spec fn from_spec(req: IngestGetPipelineRequest) -> HttpRequest<DefaultBody> {
        HttpRequest { url: req.url, method: HttpMethod::Get, body: None }
    }
}

/// The urls of the put template endpoint, by the parameters each one takes.
#[derive(Debug, PartialEq, Clone)]
pub enum PutTemplateUrlParams {
    Id(Id),
}

impl PutTemplateUrlParams {
    /// The url these parameters spell.
    pub fn url(self) -> (r: Url)
        ensures
            r@ == match self {
                PutTemplateUrlParams::Id(id) => "/_search/template/"@ + id.0@,
            },
    {
        match self {
            PutTemplateUrlParams::Id(id) => {
                let mut url = "/_search/template/".to_owned();
                url.push_str(id.0.as_str());
                Url::from_string(url)
            },
        }
    }
}

/// A request to the put template endpoint.
#[derive(Debug, PartialEq, Clone)]
pub struct PutTemplateRequest<B> {
    pub url: Url,
    pub body: B,
}

impl<B> PutTemplateRequest<B> {
    /// A request to the url at `id`.
    pub fn for_id(id: Id, body: B) -> (r: Self)
        ensures
            r.url@ == "/_search/template/"@ + id.0@,
            r.body == body,
    {
        PutTemplateRequest { url: PutTemplateUrlParams::Id(id).url(), body: body }
    }
}

impl<B> From<PutTemplateRequest<B>> for HttpRequest<B> {
    fn from(req: PutTemplateRequest<B>) -> HttpRequest<B> {
        HttpRequest { url: req.url, method: HttpMethod::Post, body: Some(req.body) }
    }
}

impl<B> vstd::std_specs::convert::FromSpecImpl<PutTemplateRequest<B>> for HttpRequest<B> {
    open spec fn obeys_from_spec() -> bool {
        true
    }

    open spec fn from_spec(req: PutTemplateRequest<B>) -> HttpRequest<B> {
        HttpRequest { url: req.url, method: HttpMethod::Post, body: Some(req.body) }
    }
}

/// The urls of the get source endpoint, by the parameters each one takes.
#[derive(Debug, PartialEq, Clone)]
pub enum GetSourceUrlParams {
    IndexTypeId(Index, Type, Id),
}

impl GetSourceUrlParams {
    /// The url these parameters spell.
    pub fn url(self) -> (r: Url)
        ensures
            r@ == match self {
                GetSourceUrlParams::IndexTypeId(index, ty, id) => "/"@ + index.0@ + "/"@ + ty.0@ + "/"@ + id.0@ + "/_source"@,
            },
    {
        match self {
            GetSourceUrlParams::IndexTypeId(index, ty, id) => {
                let mut url = "/".to_owned();
                url.push_str(index.0.as_str());
                url.push_str("/");
                url.push_str(ty.0.as_str());
                url.push_str("/");
                url.push_str(id.0.as_str());
                url.push_str("/_source");
                Url::from_string(url)
            },
        }
    }
}

/// A request to the get source endpoint.
#[derive(Debug, PartialEq, Clone)]
pub struct GetSourceRequest {
    pub url: Url,
}

impl GetSourceRequest {
    /// A request to the url at `index`, `ty`, `id`.
    pub fn for_index_ty_id(index: Index, ty: Type, id: Id) -> (r: Self)
        ensures
            r.url@ == "/"@ + index.0@ + "/"@ + ty.0@ + "/"@ + id.0@ + "/_source"@,
    {
        GetSourceRequest { url: GetSourceUrlParams::IndexTypeId(index, ty, id).url() }
    }
}

impl From<GetSourceRequest> for HttpRequest<DefaultBody> {
    fn from(req: GetSourceRequest) -> HttpRequest<DefaultBody> {
        HttpRequest { url: req.url, method: HttpMethod::Get, body: None }
    }
}

impl vstd::std_specs::convert::FromSpecImpl<GetSourceRequest> for HttpRequest<DefaultBody> {
    open spec fn obeys_from_spec() -> bool {
        true
    }

    open spec fn from_spec(req: GetSourceRequest) -> HttpRequest<DefaultBody> {
        HttpRequest { url: req.url, method: HttpMethod::Get, body: None }
    }
}

/// The urls of the snapshot create endpoint, by the parameters each one takes.
#[derive(Debug, PartialEq, Clone)]
pub enum SnapshotCreateUrlParams {
    RepositorySnapshot(Repository, Snapshot),
}

impl SnapshotCreateUrlParams {
    /// The url these parameters spell.
    pub fn url(self) -> (r: Url)
        ensures
            r@ == match self {
                SnapshotCreateUrlParams::RepositorySnapshot(repository, snapshot) => "/_snapshot/"@ + repository.0@ + "/"@ + snapshot.0@,
            },
    {
        match self {
            SnapshotCreateUrlParams::RepositorySnapshot(repository, snapshot) => {
                let mut url = "/_snapshot/".to_owned();
                url.push_str(repository.0.as_str());
                url.push_str("/");
                url.push_str(snapshot.0.as_str());
                Url::from_string(url)
            },
        }
    }
}

/// A request to the snapshot create endpoint.
#[derive(Debug, PartialEq, Clone)]
pub struct SnapshotCreateRequest<B> {
    pub url: Url,
    pub body: B,
}

impl<B> SnapshotCreateRequest<B> {
    /// A request to the url at `repository`, `snapshot`.
    pub fn for_repository_snapshot(repository: Repository, snapshot: Snapshot, body: B) -> (r: Self)
        ensures
            r.url@ == "/_snapshot/"@ + repository.0@ + "/"@ + snapshot.0@,
            r.body == body,
    {
        SnapshotCreateRequest { url: SnapshotCreateUrlParams::RepositorySnapshot(repository, snapshot).url(), body: body }
    }
}

impl<B> From<SnapshotCreateRequest<B>> for HttpRequest<B> {
    fn from(req: SnapshotCreateRequest<B>) -> HttpRequest<B> {
        HttpRequest { url: req.url, method: HttpMethod::Post, body: Some(req.body) }
    }
}

impl<B> vstd::std_specs::convert::FromSpecImpl<SnapshotCreateRequest<B>> for HttpRequest<B> {
    open spec fn obeys_from_spec() -> bool {
        true
    }

    open spec fn from_spec(req: SnapshotCreateRequest<B>) -> HttpRequest<B> {
        HttpRequest { url: req.url, method: HttpMethod::Post, body: Some(req.body) }
    }
}

/// The urls of the scroll endpoint, by the parameters each one takes.
#[derive(Debug, PartialEq, Clone)]
pub enum ScrollUrlParams {
    /// The url that takes no parameters.
    Base,
    ScrollId(ScrollId),
}

impl ScrollUrlParams {
    /// The url these parameters spell.
    pub fn url(self) -> (r: Url)
        ensures
            r@ == match self {
                ScrollUrlParams::Base => "/_search/scroll"@,
                ScrollUrlParams::ScrollId(scroll_id) => "/_search/scroll/"@ + scroll_id.0@,
            },
    {
        match self {
            ScrollUrlParams::Base => Url::from_string("/_search/scroll".to_owned()),
            ScrollUrlParams::ScrollId(scroll_id) => {
                let mut url = "/_search/scroll/".to_owned();
                url.push_str(scroll_id.0.as_str());
                Url::from_string(url)
            },
        }
    }
}

/// A request to the scroll endpoint.
#[derive(Debug, PartialEq, Clone)]
pub struct ScrollRequest<B> {
    pub url: Url,
    pub body: B,
}

impl<B> ScrollRequest<B> {
    /// A request to the url without parameters.
    pub fn new(body: B) -> (r: Self)
        ensures
            r.url@ == "/_search/scroll"@,
            r.body == body,
    {
        ScrollRequest { url: ScrollUrlParams::Base.url(), body: body }
    }

    /// A request to the url at `scroll_id`.
    pub fn for_scroll_id(scroll_id: ScrollId, body: B) -> (r: Self)
        ensures
            r.url@ == "/_search/scroll/"@ + scroll_id.0@,
            r.body == body,
    {
        ScrollRequest { url: ScrollUrlParams::ScrollId(scroll_id).url(), body: body }
    }
}

impl<B> From<ScrollRequest<B>> for HttpRequest<B> {
    fn from(req: ScrollRequest<B>) -> HttpRequest<B> {
        HttpRequest { url: req.url, method: HttpMethod::Post, body: Some(req.body) }
    }
}

impl<B> vstd::std_specs::convert::FromSpecImpl<ScrollRequest<B>> for HttpRequest<B> {
    open spec fn obeys_from_spec() -> bool {
        true
    }

    open spec fn from_spec(req: ScrollRequest<B>) -> HttpRequest<B> {
        HttpRequest { url: req.url, method: HttpMethod::Post, body: Some(req.body) }
    }
}

/// The urls of the snapshot status endpoint, by the parameters each one takes.
#[derive(Debug, PartialEq, Clone)]
pub enum SnapshotStatusUrlParams {
    /// The url that takes no parameters.
    Base,
    Repository(Repository),
    RepositorySnapshot(Repository, Snapshot),
}

impl SnapshotStatusUrlParams {
    /// The url these parameters spell.
    pub fn url(self) -> (r: Url)
        ensures
            r@ == match self {
                SnapshotStatusUrlParams::Base => "/_snapshot/_status"@,
                SnapshotStatusUrlParams::Repository(repository) => "/_snapshot/"@ + repository.0@ + "/_status"@,
                SnapshotStatusUrlParams::RepositorySnapshot(repository, snapshot) => "/_snapshot/"@ + repository.0@ + "/"@ + snapshot.0@ + "/_status"@,
            },
    {
        match self {
            SnapshotStatusUrlParams::Base => Url::from_string("/_snapshot/_status".to_owned()),
            SnapshotStatusUrlParams::Repository(repository) => {
                let mut url = "/_snapshot/".to_owned();
                url.push_str(repository.0.as_str());
                url.push_str("/_status");
                Url::from_string(url)
            },
            SnapshotStatusUrlParams::RepositorySnapshot(repository, snapshot) => {
                let mut url = "/_snapshot/".to_owned();
                url.push_str(repository.0.as_str());
                url.push_str("/");
                url.push_str(snapshot.0.as_str());
                url.push_str("/_status");
                Url::from_string(url)
            },
        }
    }
}

/// A request to the snapshot status endpoint.
#[derive(Debug, PartialEq, Clone)]
pub struct SnapshotStatusRequest {
    pub url: Url,
}

impl SnapshotStatusRequest {
    /// A request to the url without parameters.
    pub fn new() -> (r: Self)
        ensures
            r.url@ == "/_snapshot/_status"@,
    {
        SnapshotStatusRequest { url: SnapshotStatusUrlParams::Base.url() }
    }

    /// A request to the url at `repository`.
    pub fn for_repository(repository: Repository) -> (r: Self)
        ensures
            r.url@ == "/_snapshot/"@ + repository.0@ + "/_status"@,
    {
        SnapshotStatusRequest { url: SnapshotStatusUrlParams::Repository(repository).url() }
    }

    /// A request to the url at `repository`, `snapshot`.
    pub fn for_repository_snapshot(repository: Repository, snapshot: Snapshot) -> (r: Self)
        ensures
            r.url@ == "/_snapshot/"@ + repository.0@ + "/"@ + snapshot.0@ + "/_status"@,
    {
        SnapshotStatusRequest { url: SnapshotStatusUrlParams::RepositorySnapshot(repository, snapshot).url() }
    }
}

impl From<SnapshotStatusRequest> for HttpRequest<DefaultBody> {
    fn from(req: SnapshotStatusRequest) -> HttpRequest<DefaultBody> {
        HttpRequest { url: req.url, method: HttpMethod::Get, body: None }
    }
}

impl vstd::std_specs::convert::FromSpecImpl<SnapshotStatusRequest> for HttpRequest<DefaultBody> {
    open spec fn obeys_from_spec() -> bool {
        true
    }

    open spec fn from_spec(req: SnapshotStatusRequest) -> HttpRequest<DefaultBody> {
        HttpRequest { url: req.url, method: HttpMethod::Get, body: None }
    }
}

/// The urls of the mget endpoint, by the parameters each one takes.
#[derive(Debug, PartialEq, Clone)]
pub enum MgetUrlParams {
    /// The url that takes no parameters.
    Base,
    Index(Index),
    IndexType(Index, Type),
}

impl MgetUrlParams {
    /// The url these parameters spell.
    pub fn url(self) -> (r: Url)
        ensures
            r@ == match self {
                MgetUrlParams::Base => "/_mget"@,
                MgetUrlParams::Index(index) => "/"@ + index.0@ + "/_mget"@,
                MgetUrlParams::IndexType(index, ty) => "/"@ + index.0@ + "/"@ + ty.0@ + "/_mget"@,
            },
    {
        match self {
            MgetUrlParams::Base => Url::from_string("/_mget".to_owned()),
            MgetUrlParams::Index(index) => {
                let mut url = "/".to_owned();
                url.push_str(index.0.as_str());
                url.push_str("/_mget");
                Url::from_string(url)
            },
            MgetUrlParams::IndexType(index, ty) => {
                let mut url = "/".to_owned();
                url.push_str(index.0.as_str());
                url.push_str("/");
                url.push_str(ty.0.as_str());
                url.push_str("/_mget");
                Url::from_string(url)
            },
        }
    }
}

/// A request to the mget endpoint.
#[derive(Debug, PartialEq, Clone)]
pub struct MgetRequest<B> {
    pub url: Url,
    pub body: B,
}

impl<B> MgetRequest<B> {
    /// A request to the url without parameters.
    pub fn new(body: B) -> (r: Self)
        ensures
            r.url@ == "/_mget"@,
            r.body == body,
    {
        MgetRequest { url: MgetUrlParams::Base.url(), body: body }
    }

    /// A request to the url at `index`.
    pub fn for_index(index: Index, body: B) -> (r: Self)
        ensures
            r.url@ == "/"@ + index.0@ + "/_mget"@,
            r.body == body,
    {
        MgetRequest { url: MgetUrlParams::Index(index).url(), body: body }
    }

    /// A request to the url at `index`, `ty`.
    pub fn for_index_ty(index: Index, ty: Type, body: B) -> (r: Self)
        ensures
            r.url@ == "/"@ + index.0@ + "/"@ + ty.0@ + "/_mget"@,
            r.body == body,
    {
        MgetRequest { url: MgetUrlParams::IndexType(index, ty).url(), body: body }
    }
}

impl<B> From<MgetRequest<B>> for HttpRequest<B> {
    fn from(req: MgetRequest<B>) -> HttpRequest<B> {
        HttpRequest { url: req.url, method: HttpMethod::Post, body: Some(req.body) }
    }
}

impl<B> vstd::std_specs::convert::FromSpecImpl<MgetRequest<B>> for HttpRequest<B> {
    open spec fn obeys_from_spec() -> bool {
        true
    }

    open spec fn from_spec(req: MgetRequest<B>) -> HttpRequest<B> {
        HttpRequest { url: req.url, method: HttpMethod::Post, body: Some(req.body) }
    }
}

/// The urls of the indices exists template endpoint, by the parameters each one takes.
#[derive(Debug, PartialEq, Clone)]
pub enum IndicesExistsTemplateUrlParams {
    Name(Name),
}

impl IndicesExistsTemplateUrlParams {
    /// The url these parameters spell.
    pub fn url(self) -> (r: Url)
        ensures
            r@ == match self {
                IndicesExistsTemplateUrlParams::Name(name) => "/_template/"@ + name.0@,
            },
    {
        match self {
            IndicesExistsTemplateUrlParams::Name(name) => {
                let mut url = "/_template/".to_owned();
                url.push_str(name.0.as_str());
                Url::from_string(url)
            },
        }
    }
}

/// A request to the indices exists template endpoint.
#[derive(Debug, PartialEq, Clone)]
pub struct IndicesExistsTemplateRequest {
    pub url: Url,
}

impl IndicesExistsTemplateRequest {
    /// A request to the url at `name`.
    pub fn for_name(name: Name) -> (r: Self)
        ensures
            r.url@ == "/_template/"@ + name.0@,
    {
        IndicesExistsTemplateRequest { url: IndicesExistsTemplateUrlParams::Name(name).url() }
    }
}

impl From<IndicesExistsTemplateRequest> for HttpRequest<DefaultBody> {
    fn from(req: IndicesExistsTemplateRequest) -> HttpRequest<DefaultBody> {
        HttpRequest { url: req.url, method: HttpMethod::Head, body: None }
    }
}

impl vstd::std_specs::convert::FromSpecImpl<IndicesExistsTemplateRequest> for HttpRequest<DefaultBody> {
    open spec fn obeys_from_spec() -> bool {
        true
    }

    open spec fn from_spec(req: IndicesExistsTemplateRequest) -> HttpRequest<DefaultBody> {
        HttpRequest { url: req.url, method: HttpMethod::Head, body: None }
    }
}

/// The urls of the indices get upgrade endpoint, by the parameters each one takes.
#[derive(Debug, PartialEq, Clone)]
pub enum IndicesGetUpgradeUrlParams {
    /// The url that takes no parameters.
    Base,
    Index(Index),
}

impl IndicesGetUpgradeUrlParams {
    /// The url these parameters spell.
    pub fn url(self) -> (r: Url)
        ensures
            r@ == match self {
                IndicesGetUpgradeUrlParams::Base => "/_upgrade"@,
                IndicesGetUpgradeUrlParams::Index(index) => "/"@ + index.0@ + "/_upgrade"@,
            },
    {
        match self {
            IndicesGetUpgradeUrlParams::Base => Url::from_string("/_upgrade".to_owned()),
            IndicesGetUpgradeUrlParams::Index(index) => {
                let mut url = "/".to_owned();
                url.push_str(index.0.as_str());
                url.push_str("/_upgrade");
                Url::from_string(url)
            },
        }
    }
}

/// A request to the indices get upgrade endpoint.
#[derive(Debug, PartialEq, Clone)]
pub struct IndicesGetUpgradeRequest {
    pub url: Url,
}

impl IndicesGetUpgradeRequest {
    /// A request to the url without parameters.
    pub fn new() -> (r: Self)
        ensures
            r.url@ == "/_upgrade"@,
    {
        IndicesGetUpgradeRequest { url: IndicesGetUpgradeUrlParams::Base.url() }
    }

    /// A request to the url at `index`.
    pub fn for_index(index: Index) -> (r: Self)
        ensures
            r.url@ == "/"@ + index.0@ + "/_upgrade"@,
    {
        IndicesGetUpgradeRequest { url: IndicesGetUpgradeUrlParams::Index(index).url() }
    }
}

impl From<IndicesGetUpgradeRequest> for HttpRequest<DefaultBody> {
    fn from(req: IndicesGetUpgradeRequest) -> HttpRequest<DefaultBody> {
        HttpRequest { url: req.url, method: HttpMethod::Get, body: None }
    }
}

impl vstd::std_specs::convert::FromSpecImpl<IndicesGetUpgradeRequest> for HttpRequest<DefaultBody> {
    open spec fn obeys_from_spec() -> bool {
        true
    }

    open spec fn from_spec(req: IndicesGetUpgradeRequest) -> HttpRequest<DefaultBody> {
        HttpRequest { url: req.url, method: HttpMethod::Get, body: None }
    }
}

/// The urls of the put script endpoint, by the parameters each one takes.
#[derive(Debug, PartialEq, Clone)]
pub enum PutScriptUrlParams {
    LangId(Lang, Id),
}

impl PutScriptUrlParams {
    /// The url these parameters spell.
    pub fn url(self) -> (r: Url)
        ensures
            r@ == match self {
                PutScriptUrlParams::LangId(lang, id) => "/_scripts/"@ + lang.0@ + "/"@ + id.0@,
            },
    {
        match self {
            PutScriptUrlParams::LangId(lang, id) => {
                let mut url = "/_scripts/".to_owned();
                url.push_str(lang.0.as_str());
                url.push_str("/");
                url.push_str(id.0.as_str());
                Url::from_string(url)
            },
        }
    }
}

/// A request to the put script endpoint.
#[derive(Debug, PartialEq, Clone)]
pub struct PutScriptRequest<B> {
    pub url: Url,
    pub body: B,
}

impl<B> PutScriptRequest<B> {
    /// A request to the url at `lang`, `id`.
    pub fn for_lang_id(lang: Lang, id: Id, body: B) -> (r: Self)
        ensures
            r.url@ == "/_scripts/"@ + lang.0@ + "/"@ + id.0@,
            r.body == body,
    {
        PutScriptRequest { url: PutScriptUrlParams::LangId(lang, id).url(), body: body }
    }
}

impl<B> From<PutScriptRequest<B>> for HttpRequest<B> {
    fn from(req: PutScriptRequest<B>) -> HttpRequest<B> {
        HttpRequest { url: req.url, method: HttpMethod::Post, body: Some(req.body) }
    }
}

impl<B> vstd::std_specs::convert::FromSpecImpl<PutScriptRequest<B>> for HttpRequest<B> {
    open spec fn obeys_from_spec() -> bool {
        true
    }

    open spec fn from_spec(req: PutScriptRequest<B>) -> HttpRequest<B> {
        HttpRequest { url: req.url, method: HttpMethod::Post, body: Some(req.body) }
    }
}

/// The urls of the get template endpoint, by the parameters each one takes.
#[derive(Debug, PartialEq, Clone)]
pub enum GetTemplateUrlParams {
    Id(Id),
}

impl GetTemplateUrlParams {
    /// The url these parameters spell.
    pub fn url(self) -> (r: Url)
        ensures
            r@ == match self {
                GetTemplateUrlParams::Id(id) => "/_search/template/"@ + id.0@,
            },
    {
        match self {
            GetTemplateUrlParams::Id(id) => {
                let mut url = "/_search/template/".to_owned();
                url.push_str(id.0.as_str());
                Url::from_string(url)
            },
        }
    }
}

/// A request to the get template endpoint.
#[derive(Debug, PartialEq, Clone)]
pub struct GetTemplateRequest {
    pub url: Url,
}

impl GetTemplateRequest {
    /// A request to the url at `id`.
    pub fn for_id(id: Id) -> (r: Self)
        ensures
            r.url@ == "/_search/template/"@ + id.0@,
    {
        GetTemplateRequest { url: GetTemplateUrlParams::Id(id).url() }
    }
}

impl From<GetTemplateRequest> for HttpRequest<DefaultBody> {
    fn from(req: GetTemplateRequest) -> HttpRequest<DefaultBody> {
        HttpRequest { url: req.url, method: HttpMethod::Get, body: None }
    }
}

impl vstd::std_specs::convert::FromSpecImpl<GetTemplateRequest> for HttpRequest<DefaultBody> {
    open spec fn obeys_from_spec() -> bool {
        true
    }

    open spec fn from_spec(req: GetTemplateRequest) -> HttpRequest<DefaultBody> {
        HttpRequest { url: req.url, method: HttpMethod::Get, body: None }
    }
}

/// The urls of the indices delete template endpoint, by the parameters each one takes.
#[derive(Debug, PartialEq, Clone)]
pub enum IndicesDeleteTemplateUrlParams {
    Name(Name),
}

impl IndicesDeleteTemplateUrlParams {
    /// The url these parameters spell.
    pub fn url(self) -> (r: Url)
        ensures
            r@ == match self {
                IndicesDeleteTemplateUrlParams::Name(name) => "/_template/"@ + name.0@,
            },
    {
        match self {
            IndicesDeleteTemplateUrlParams::Name(name) => {
                let mut url = "/_template/".to_owned();
                url.push_str(name.0.as_str());
                Url::from_string(url)
            },
        }
    }
}

/// A request to the indices delete template endpoint.
#[derive(Debug, PartialEq, Clone)]
pub struct IndicesDeleteTemplateRequest {
    pub url: Url,
}

impl IndicesDeleteTemplateRequest {
    /// A request to the url at `name`.
    pub fn for_name(name: Name) -> (r: Self)
        ensures
            r.url@ == "/_template/"@ + name.0@,
    {
        IndicesDeleteTemplateRequest { url: IndicesDeleteTemplateUrlParams::Name(name).url() }
    }
}

impl From<IndicesDeleteTemplateRequest> for HttpRequest<DefaultBody> {
    fn from(req: IndicesDeleteTemplateRequest) -> HttpRequest<DefaultBody> {
        HttpRequest { url: req.url, method: HttpMethod::Delete, body: None }
    }
}

impl vstd::std_specs::convert::FromSpecImpl<IndicesDeleteTemplateRequest> for HttpRequest<DefaultBody> {
    open spec fn obeys_from_spec() -> bool {
        true
    }

    open spec fn from_spec(req: IndicesDeleteTemplateRequest) -> HttpRequest<DefaultBody> {
        HttpRequest { url: req.url, method: HttpMethod::Delete, body: None }
    }
}

/// The urls of the index endpoint, by the parameters each one takes.
#[derive(Debug, PartialEq, Clone)]
pub enum IndexUrlParams {
    IndexType(Index, Type),
    IndexTypeId(Index, Type, Id),
}

impl IndexUrlParams {
    /// The url these parameters spell.
    pub fn url(self) -> (r: Url)
        ensures
            r@ == match self {
                IndexUrlParams::IndexType(index, ty) => "/"@ + index.0@ + "/"@ + ty.0@,
                IndexUrlParams::IndexTypeId(index, ty, id) => "/"@ + index.0@ + "/"@ + ty.0@ + "/"@ + id.0@,
            },
    {
        match self {
            IndexUrlParams::IndexType(index, ty) => {
                let mut url = "/".to_owned();
                url.push_str(index.0.as_str());
                url.push_str("/");
                url.push_str(ty.0.as_str());
                Url::from_string(url)
            },
            IndexUrlParams::IndexTypeId(index, ty, id) => {
                let mut url = "/".to_owned();
                url.push_str(index.0.as_str());
                url.push_str("/");
                url.push_str(ty.0.as_str());
                url.push_str("/");
                url.push_str(id.0.as_str());
                Url::from_string(url)
            },
        }
    }
}

/// A request to the index endpoint.
#[derive(Debug, PartialEq, Clone)]
pub struct IndexRequest<B> {
    pub url: Url,
    pub body: B,
}

impl<B> IndexRequest<B> {
    /// A request to the url at `index`, `ty`.
    pub fn for_index_ty(index: Index, ty: Type, body: B) -> (r: Self)
        ensures
            r.url@ == "/"@ + index.0@ + "/"@ + ty.0@,
            r.body == body,
    {
        IndexRequest { url: IndexUrlParams::IndexType(index, ty).url(), body: body }
    }

    /// A request to the url at `index`, `ty`, `id`.
    pub fn for_index_ty_id(index: Index, ty: Type, id: Id, body: B) -> (r: Self)
        ensures
            r.url@ == "/"@ + index.0@ + "/"@ + ty.0@ + "/"@ + id.0@,
            r.body == body,
    {
        IndexRequest { url: IndexUrlParams::IndexTypeId(index, ty, id).url(), body: body }
    }
}

impl<B> From<IndexRequest<B>> for HttpRequest<B> {
    fn from(req: IndexRequest<B>) -> HttpRequest<B> {
        HttpRequest { url: req.url, method: HttpMethod::Post, body: Some(req.body) }
    }
}

impl<B> vstd::std_specs::convert::FromSpecImpl<IndexRequest<B>> for HttpRequest<B> {
    open spec fn obeys_from_spec() -> bool {
        true
    }

    open spec fn from_spec(req: IndexRequest<B>) -> HttpRequest<B> {
        HttpRequest { url: req.url, method: HttpMethod::Post, body: Some(req.body) }
    }
}

/// The urls of the indices put settings endpoint, by the parameters each one takes.
#[derive(Debug, PartialEq, Clone)]
pub enum IndicesPutSettingsUrlParams {
    /// The url that takes no parameters.
    Base,
    Index(Index),
}

impl IndicesPutSettingsUrlParams {
    /// The url these parameters spell.
    pub fn url(self) -> (r: Url)
        ensures
            r@ == match self {
                IndicesPutSettingsUrlParams::Base => "/_settings"@,
                IndicesPutSettingsUrlParams::Index(index) => "/"@ + index.0@ + "/_settings"@,
            },
    {
        match self {
            IndicesPutSettingsUrlParams::Base => Url::from_string("/_settings".to_owned()),
            IndicesPutSettingsUrlParams::Index(index) => {
                let mut url = "/".to_owned();
                url.push_str(index.0.as_str());
                url.push_str("/_settings");
                Url::from_string(url)
            },
        }
    }
}

/// A request to the indices put settings endpoint.
#[derive(Debug, PartialEq, Clone)]
pub struct IndicesPutSettingsRequest<B> {
    pub url: Url,
    pub body: B,
}

impl<B> IndicesPutSettingsRequest<B> {
    /// A request to the url without parameters.
    pub fn new(body: B) -> (r: Self)
        ensures
            r.url@ == "/_settings"@,
            r.body == body,
    {
        IndicesPutSettingsRequest { url: IndicesPutSettingsUrlParams::Base.url(), body: body }
    }

    /// A request to the url at `index`.
    pub fn for_index(index: Index, body: B) -> (r: Self)
        ensures
            r.url@ == "/"@ + index.0@ + "/_settings"@,
            r.body == body,
    {
        IndicesPutSettingsRequest { url: IndicesPutSettingsUrlParams::Index(index).url(), body: body }
    }
}

impl<B> From<IndicesPutSettingsRequest<B>> for HttpRequest<B> {
    fn from(req: IndicesPutSettingsRequest<B>) -> HttpRequest<B> {
        HttpRequest { url: req.url, method: HttpMethod::Put, body: Some(req.body) }
    }
}

impl<B> vstd::std_specs::convert::FromSpecImpl<IndicesPutSettingsRequest<B>> for HttpRequest<B> {
    open spec fn obeys_from_spec() -> bool {
        true
    }

    open spec fn from_spec(req: IndicesPutSettingsRequest<B>) -> HttpRequest<B> {
        HttpRequest { url: req.url, method: HttpMethod::Put, body: Some(req.body) }
    }
}

/// The urls of the cat templates endpoint, by the parameters each one takes.
#[derive(Debug, PartialEq, Clone)]
pub enum CatTemplatesUrlParams {
    /// The url that takes no parameters.
    Base,
    Name(Name),
}

impl CatTemplatesUrlParams {
    /// The url these parameters spell.
    pub fn url(self) -> (r: Url)
        ensures
            r@ == match self {
                CatTemplatesUrlParams::Base => "/_cat/templates"@,
                CatTemplatesUrlParams::Name(name) => "/_cat/templates/"@ + name.0@,
            },
    {
        match self {
            CatTemplatesUrlParams::Base => Url::from_string("/_cat/templates".to_owned()),
            CatTemplatesUrlParams::Name(name) => {
                let mut url = "/_cat/templates/".to_owned();
                url.push_str(name.0.as_str());
                Url::from_string(url)
            },
        }
    }
}

/// A request to the cat templates endpoint.
#[derive(Debug, PartialEq, Clone)]
pub struct CatTemplatesRequest {
    pub url: Url,
}

impl CatTemplatesRequest {
    /// A request to the url without parameters.
    pub fn new() -> (r: Self)
        ensures
            r.url@ == "/_cat/templates"@,
    {
        CatTemplatesRequest { url: CatTemplatesUrlParams::Base.url() }
    }

    /// A request to the url at `name`.
    pub fn for_name(name: Name) -> (r: Self)
        ensures
            r.url@ == "/_cat/templates/"@ + name.0@,
    {
        CatTemplatesRequest { url: CatTemplatesUrlParams::Name(name).url() }
    }
}

impl From<CatTemplatesRequest> for HttpRequest<DefaultBody> {
    fn from(req: CatTemplatesRequest) -> HttpRequest<DefaultBody> {
        HttpRequest { url: req.url, method: HttpMethod::Get, body: None }
    }
}

impl vstd::std_specs::convert::FromSpecImpl<CatTemplatesRequest> for HttpRequest<DefaultBody> {
    open spec fn obeys_from_spec() -> bool {
        true
    }

    open spec fn from_spec(req: CatTemplatesRequest) -> HttpRequest<DefaultBody> {
        HttpRequest { url: req.url, method: HttpMethod::Get, body: None }
    }
}

/// The urls of the cat indices endpoint, by the parameters each one takes.
#[derive(Debug, PartialEq, Clone)]
pub enum CatIndicesUrlParams {
    /// The url that takes no parameters.
    Base,
    Index(Index),
}

impl CatIndicesUrlParams {
    /// The url these parameters spell.
    pub fn url(self) -> (r: Url)
        ensures
            r@ == match self {
                CatIndicesUrlParams::Base => "/_cat/indices"@,
                CatIndicesUrlParams::Index(index) => "/_cat/indices/"@ + index.0@,
            },
    {
        match self {
            CatIndicesUrlParams::Base => Url::from_string("/_cat/indices".to_owned()),
            CatIndicesUrlParams::Index(index) => {
                let mut url = "/_cat/indices/".to_owned();
                url.push_str(index.0.as_str());
                Url::from_string(url)
            },
        }
    }
}

/// A request to the cat indices endpoint.
#[derive(Debug, PartialEq, Clone)]
pub struct CatIndicesRequest {
    pub url: Url,
}

impl CatIndicesRequest {
    /// A request to the url without parameters.
    pub fn new() -> (r: Self)
        ensures
            r.url@ == "/_cat/indices"@,
    {
        CatIndicesRequest { url: CatIndicesUrlParams::Base.url() }
    }

    /// A request to the url at `index`.
    pub fn for_index(index: Index) -> (r: Self)
        ensures
            r.url@ == "/_cat/indices/"@ + index.0@,
    {
        CatIndicesRequest { url: CatIndicesUrlParams::Index(index).url() }
    }
}

impl From<CatIndicesRequest> for HttpRequest<DefaultBody> {
    fn from(req: CatIndicesRequest) -> HttpRequest<DefaultBody> {
        HttpRequest { url: req.url, method: HttpMethod::Get, body: None }
    }
}

impl vstd::std_specs::convert::FromSpecImpl<CatIndicesRequest> for HttpRequest<DefaultBody> {
    open spec fn obeys_from_spec() -> bool {
        true
    }

    open spec fn from_spec(req: CatIndicesRequest) -> HttpRequest<DefaultBody> {
        HttpRequest { url: req.url, method: HttpMethod::Get, body: None }
    }
}

/// The urls of the cluster put settings endpoint, by the parameters each one takes.
#[derive(Debug, PartialEq, Clone)]
pub enum ClusterPutSettingsUrlParams {
    /// The url that takes no parameters.
    Base,
}

impl ClusterPutSettingsUrlParams {
    /// The url these parameters spell.
    pub fn url(self) -> (r: Url)
        ensures
            r@ == match self {
                ClusterPutSettingsUrlParams::Base => "/_cluster/settings"@,
            },
    {
        match self {
            ClusterPutSettingsUrlParams::Base => Url::from_string("/_cluster/settings".to_owned()),
        }
    }
}

/// A request to the cluster put settings endpoint.
#[derive(Debug, PartialEq, Clone)]
pub struct ClusterPutSettingsRequest<B> {
    pub url: Url,
    pub body: B,
}

impl<B> ClusterPutSettingsRequest<B> {
    /// A request to the url without parameters.
    pub fn new(body: B) -> (r: Self)
        ensures
            r.url@ == "/_cluster/settings"@,
            r.body == body,
    {
        ClusterPutSettingsRequest { url: ClusterPutSettingsUrlParams::Base.url(), body: body }
    }
}

impl<B> From<ClusterPutSettingsRequest<B>> for HttpRequest<B> {
    fn from(req: ClusterPutSettingsRequest<B>) -> HttpRequest<B> {
        HttpRequest { url: req.url, method: HttpMethod::Put, body: Some(req.body) }
    }
}

impl<B> vstd::std_specs::convert::FromSpecImpl<ClusterPutSettingsRequest<B>> for HttpRequest<B> {
    open spec fn obeys_from_spec() -> bool {
        true
    }

    open spec fn from_spec(req: ClusterPutSettingsRequest<B>) -> HttpRequest<B> {
        HttpRequest { url: req.url, method: HttpMethod::Put, body: Some(req.body) }
    }
}

/// The urls of the update endpoint, by the parameters each one takes.
#[derive(Debug, PartialEq, Clone)]
pub enum UpdateUrlParams {
    IndexTypeId(Index, Type, Id),
}

impl UpdateUrlParams {
    /// The url these parameters spell.
    pub fn url(self) -> (r: Url)
        ensures
            r@ == match self {
                UpdateUrlParams::IndexTypeId(index, ty, id) => "/"@ + index.0@ + "/"@ + ty.0@ + "/"@ + id.0@ + "/_update"@,
            },
    {
        match self {
            UpdateUrlParams::IndexTypeId(index, ty, id) => {
                let mut url = "/".to_owned();
                url.push_str(index.0.as_str());
                url.push_str("/");
                url.push_str(ty.0.as_str());
                url.push_str("/");
                url.push_str(id.0.as_str());
                url.push_str("/_update");
                Url::from_string(url)
            },
        }
    }
}

/// A request to the update endpoint.
#[derive(Debug, PartialEq, Clone)]
pub struct UpdateRequest<B> {
    pub url: Url,
    pub body: B,
}

impl<B> UpdateRequest<B> {
    /// A request to the url at `index`, `ty`, `id`.
    pub fn for_index_ty_id(index: Index, ty: Type, id: Id, body: B) -> (r: Self)
        ensures
            r.url@ == "/"@ + index.0@ + "/"@ + ty.0@ + "/"@ + id.0@ + "/_update"@,
            r.body == body,
    {
        UpdateRequest { url: UpdateUrlParams::IndexTypeId(index, ty, id).url(), body: body }
    }
}

impl<B> From<UpdateRequest<B>> for HttpRequest<B> {
    fn from(req: UpdateRequest<B>) -> HttpRequest<B> {
        HttpRequest { url: req.url, method: HttpMethod::Post, body: Some(req.body) }
    }
}

impl<B> vstd::std_specs::convert::FromSpecImpl<UpdateRequest<B>> for HttpRequest<B> {
    open spec fn obeys_from_spec() -> bool {
        true
    }

    open spec fn from_spec(req: UpdateRequest<B>) -> HttpRequest<B> {
        HttpRequest { url: req.url, method: HttpMethod::Post, body: Some(req.body) }
    }
}

/// The urls of the indices put alias endpoint, by the parameters each one takes.
#[derive(Debug, PartialEq, Clone)]
pub enum IndicesPutAliasUrlParams {
    IndexName(Index, Name),
}

impl IndicesPutAliasUrlParams {
    /// The url these parameters spell.
    pub fn url(self) -> (r: Url)
        ensures
            r@ == match self {
                IndicesPutAliasUrlParams::IndexName(index, name) => "/"@ + index.0@ + "/_aliases/"@ + name.0@,
            },
    {
        match self {
            IndicesPutAliasUrlParams::IndexName(index, name) => {
                let mut url = "/".to_owned();
                url.push_str(index.0.as_str());
                url.push_str("/_aliases/");
                url.push_str(name.0.as_str());
                Url::from_string(url)
            },
        }
    }
}

/// A request to the indices put alias endpoint.
#[derive(Debug, PartialEq, Clone)]
pub struct IndicesPutAliasRequest<B> {
    pub url: Url,
    pub body: B,
}

impl<B> IndicesPutAliasRequest<B> {
    /// A request to the url at `index`, `name`.
    pub fn for_index_name(index: Index, name: Name, body: B) -> (r: Self)
        ensures
            r.url@ == "/"@ + index.0@ + "/_aliases/"@ + name.0@,
            r.body == body,
    {
        IndicesPutAliasRequest { url: IndicesPutAliasUrlParams::IndexName(index, name).url(), body: body }
    }
}

impl<B> From<IndicesPutAliasRequest<B>> for HttpRequest<B> {
    fn from(req: IndicesPutAliasRequest<B>) -> HttpRequest<B> {
        HttpRequest { url: req.url, method: HttpMethod::Post, body: Some(req.body) }
    }
}

impl<B> vstd::std_specs::convert::FromSpecImpl<IndicesPutAliasRequest<B>> for HttpRequest<B> {
    open spec fn obeys_from_spec() -> bool {
        true
    }

    open spec fn from_spec(req: IndicesPutAliasRequest<B>) -> HttpRequest<B> {
        HttpRequest { url: req.url, method: HttpMethod::Post, body: Some(req.body) }
    }
}

/// The urls of the cat plugins endpoint, by the parameters each one takes.
#[derive(Debug, PartialEq, Clone)]
pub enum CatPluginsUrlParams {
    /// The url that takes no parameters.
    Base,
}

impl CatPluginsUrlParams {
    /// The url these parameters spell.
    pub fn url(self) -> (r: Url)
        ensures
            r@ == match self {
                CatPluginsUrlParams::Base => "/_cat/plugins"@,
            },
    {
        match self {
            CatPluginsUrlParams::Base => Url::from_string("/_cat/plugins".to_owned()),
        }
    }
}

/// A request to the cat plugins endpoint.
#[derive(Debug, PartialEq, Clone)]
pub struct CatPluginsRequest {
    pub url: Url,
}

impl CatPluginsRequest {
    /// A request to the url without parameters.
    pub fn new() -> (r: Self)
        ensures
            r.url@ == "/_cat/plugins"@,
    {
        CatPluginsRequest { url: CatPluginsUrlParams::Base.url() }
    }
}

impl From<CatPluginsRequest> for HttpRequest<DefaultBody> {
    fn from(req: CatPluginsRequest) -> HttpRequest<DefaultBody> {
        HttpRequest { url: req.url, method: HttpMethod::Get, body: None }
    }
}

impl vstd::std_specs::convert::FromSpecImpl<CatPluginsRequest> for HttpRequest<DefaultBody> {
    open spec fn obeys_from_spec() -> bool {
        true
    }

    open spec fn from_spec(req: CatPluginsRequest) -> HttpRequest<DefaultBody> {
        HttpRequest { url: req.url, method: HttpMethod::Get, body: None }
    }
}

/// The urls of the count percolate endpoint, by the parameters each one takes.
#[derive(Debug, PartialEq, Clone)]
pub enum CountPercolateUrlParams {
    IndexType(Index, Type),
    IndexTypeId(Index, Type, Id),
}

impl CountPercolateUrlParams {
    /// The url these parameters spell.
    pub fn url(self) -> (r: Url)
        ensures
            r@ == match self {
                CountPercolateUrlParams::IndexType(index, ty) => "/"@ + index.0@ + "/"@ + ty.0@ + "/_percolate/count"@,
                CountPercolateUrlParams::IndexTypeId(index, ty, id) => "/"@ + index.0@ + "/"@ + ty.0@ + "/"@ + id.0@ + "/_percolate/count"@,
            },
    {
        match self {
            CountPercolateUrlParams::IndexType(index, ty) => {
                let mut url = "/".to_owned();
                url.push_str(index.0.as_str());
                url.push_str("/");
                url.push_str(ty.0.as_str());
                url.push_str("/_percolate/count");
                Url::from_string(url)
            },
            CountPercolateUrlParams::IndexTypeId(index, ty, id) => {
                let mut url = "/".to_owned();
                url.push_str(index.0.as_str());
                url.push_str("/");
                url.push_str(ty.0.as_str());
                url.push_str("/");
                url.push_str(id.0.as_str());
                url.push_str("/_percolate/count");
                Url::from_string(url)
            },
        }
    }
}

/// A request to the count percolate endpoint.
#[derive(Debug, PartialEq, Clone)]
pub struct CountPercolateRequest<B> {
    pub url: Url,
    pub body: B,
}

impl<B> CountPercolateRequest<B> {
    /// A request to the url at `index`, `ty`.
    pub fn for_index_ty(index: Index, ty: Type, body: B) -> (r: Self)
        ensures
            r.url@ == "/"@ + index.0@ + "/"@ + ty.0@ + "/_percolate/count"@,
            r.body == body,
    {
        CountPercolateRequest { url: CountPercolateUrlParams::IndexType(index, ty).url(), body: body }
    }

    /// A request to the url at `index`, `ty`, `id`.
    pub fn for_index_ty_id(index: Index, ty: Type, id: Id, body: B) -> (r: Self)
        ensures
            r.url@ == "/"@ + index.0@ + "/"@ + ty.0@ + "/"@ + id.0@ + "/_percolate/count"@,
            r.body == body,
    {
        CountPercolateRequest { url: CountPercolateUrlParams::IndexTypeId(index, ty, id).url(), body: body }
    }
}

impl<B> From<CountPercolateRequest<B>> for HttpRequest<B> {
    fn from(req: CountPercolateRequest<B>) -> HttpRequest<B> {
        HttpRequest { url: req.url, method: HttpMethod::Post, body: Some(req.body) }
    }
}

impl<B> vstd::std_specs::convert::FromSpecImpl<CountPercolateRequest<B>> for HttpRequest<B> {
    open spec fn obeys_from_spec() -> bool {
        true
    }

    open spec fn from_spec(req: CountPercolateRequest<B>) -> HttpRequest<B> {
        HttpRequest { url: req.url, method: HttpMethod::Post, body: Some(req.body) }
    }
}

/// The urls of the indices upgrade endpoint, by the parameters each one takes.
#[derive(Debug, PartialEq, Clone)]
pub enum IndicesUpgradeUrlParams {
    /// The url that takes no parameters.
    Base,
    Index(Index),
}

impl IndicesUpgradeUrlParams {
    /// The url these parameters spell.
    pub fn url(self) -> (r: Url)
        ensures
            r@ == match self {
                IndicesUpgradeUrlParams::Base => "/_upgrade"@,
                IndicesUpgradeUrlParams::Index(index) => "/"@ + index.0@ + "/_upgrade"@,
            },
    {
        match self {
            IndicesUpgradeUrlParams::Base => Url::from_string("/_upgrade".to_owned()),
            IndicesUpgradeUrlParams::Index(index) => {
                let mut url = "/".to_owned();
                url.push_str(index.0.as_str());
                url.push_str("/_upgrade");
                Url::from_string(url)
            },
        }
    }
}

/// A request to the indices upgrade endpoint.
#[derive(Debug, PartialEq, Clone)]
pub struct IndicesUpgradeRequest<B> {
    pub url: Url,
    pub body: B,
}

impl<B> IndicesUpgradeRequest<B> {
    /// A request to the url without parameters.
    pub fn new(body: B) -> (r: Self)
        ensures
            r.url@ == "/_upgrade"@,
            r.body == body,
    {
        IndicesUpgradeRequest { url: IndicesUpgradeUrlParams::Base.url(), body: body }
    }

    /// A request to the url at `index`.
    pub fn for_index(index: Index, body: B) -> (r: Self)
        ensures
            r.url@ == "/"@ + index.0@ + "/_upgrade"@,
            r.body == body,
    {
        IndicesUpgradeRequest { url: IndicesUpgradeUrlParams::Index(index).url(), body: body }
    }
}

impl<B> From<IndicesUpgradeRequest<B>> for HttpRequest<B> {
    fn from(req: IndicesUpgradeRequest<B>) -> HttpRequest<B> {
        HttpRequest { url: req.url, method: HttpMethod::Post, body: Some(req.body) }
    }
}

impl<B> vstd::std_specs::convert::FromSpecImpl<IndicesUpgradeRequest<B>> for HttpRequest<B> {
    open spec fn obeys_from_spec() -> bool {
        true
    }

    open spec fn from_spec(req: IndicesUpgradeRequest<B>) -> HttpRequest<B> {
        HttpRequest { url: req.url, method: HttpMethod::Post, body: Some(req.body) }
    }
}

/// The urls of the indices delete alias endpoint, by the parameters each one takes.
#[derive(Debug, PartialEq, Clone)]
pub enum IndicesDeleteAliasUrlParams {
    IndexName(Index, Name),
}

impl IndicesDeleteAliasUrlParams {
    /// The url these parameters spell.
    pub fn url(self) -> (r: Url)
        ensures
            r@ == match self {
                IndicesDeleteAliasUrlParams::IndexName(index, name) => "/"@ + index.0@ + "/_aliases/"@ + name.0@,
            },
    {
        match self {
            IndicesDeleteAliasUrlParams::IndexName(index, name) => {
                let mut url = "/".to_owned();
                url.push_str(index.0.as_str());
                url.push_str("/_aliases/");
                url.push_str(name.0.as_str());
                Url::from_string(url)
            },
        }
    }
}

/// A request to the indices delete alias endpoint.
#[derive(Debug, PartialEq, Clone)]
pub struct IndicesDeleteAliasRequest {
    pub url: Url,
}

impl IndicesDeleteAliasRequest {
    /// A request to the url at `index`, `name`.
    pub fn for_index_name(index: Index, name: Name) -> (r: Self)
        ensures
            r.url@ == "/"@ + index.0@ + "/_aliases/"@ + name.0@,
    {
        IndicesDeleteAliasRequest { url: IndicesDeleteAliasUrlParams::IndexName(index, name).url() }
    }
}

impl From<IndicesDeleteAliasRequest> for HttpRequest<DefaultBody> {
    fn from(req: IndicesDeleteAliasRequest) -> HttpRequest<DefaultBody> {
        HttpRequest { url: req.url, method: HttpMethod::Delete, body: None }
    }
}

impl vstd::std_specs::convert::FromSpecImpl<IndicesDeleteAliasRequest> for HttpRequest<DefaultBody> {
    open spec fn obeys_from_spec() -> bool {
        true
    }

    open spec fn from_spec(req: IndicesDeleteAliasRequest) -> HttpRequest<DefaultBody> {
        HttpRequest { url: req.url, method: HttpMethod::Delete, body: None }
    }
}

/// The urls of the cat tasks endpoint, by the parameters each one takes.
#[derive(Debug, PartialEq, Clone)]
pub enum CatTasksUrlParams {
    /// The url that takes no parameters.
    Base,
}

impl CatTasksUrlParams {
    /// The url these parameters spell.
    pub fn url(self) -> (r: Url)
        ensures
            r@ == match self {
                CatTasksUrlParams::Base => "/_cat/tasks"@,
            },
    {
        match self {
            CatTasksUrlParams::Base => Url::from_string("/_cat/tasks".to_owned()),
        }
    }
}

/// A request to the cat tasks endpoint.
#[derive(Debug, PartialEq, Clone)]
pub struct CatTasksRequest {
    pub url: Url,
}

impl CatTasksRequest {
    /// A request to the url without parameters.
    pub fn new() -> (r: Self)
        ensures
            r.url@ == "/_cat/tasks"@,
    {
        CatTasksRequest { url: CatTasksUrlParams::Base.url() }
    }
}

impl From<CatTasksRequest> for HttpRequest<DefaultBody> {
    fn from(req: CatTasksRequest) -> HttpRequest<DefaultBody> {
        HttpRequest { url: req.url, method: HttpMethod::Get, body: None }
    }
}

impl vstd::std_specs::convert::FromSpecImpl<CatTasksRequest> for HttpRequest<DefaultBody> {
    open spec fn obeys_from_spec() -> bool {
        true
    }

    open spec fn from_spec(req: CatTasksRequest) -> HttpRequest<DefaultBody> {
        HttpRequest { url: req.url, method: HttpMethod::Get, body: None }
    }
}

/// The urls of the indices rollover endpoint, by the parameters each one takes.
#[derive(Debug, PartialEq, Clone)]
pub enum IndicesRolloverUrlParams {
    Alias(Alias),
    AliasNewIndex(Alias, NewIndex),
}

impl IndicesRolloverUrlParams {
    /// The url these parameters spell.
    pub fn url(self) -> (r: Url)
        ensures
            r@ == match self {
                IndicesRolloverUrlParams::Alias(alias) => "/"@ + alias.0@ + "/_rollover"@,
                IndicesRolloverUrlParams::AliasNewIndex(alias, new_index) => "/"@ + alias.0@ + "/_rollover/"@ + new_index.0@,
            },
    {
        match self {
            IndicesRolloverUrlParams::Alias(alias) => {
                let mut url = "/".to_owned();
                url.push_str(alias.0.as_str());
                url.push_str("/_rollover");
                Url::from_string(url)
            },
            IndicesRolloverUrlParams::AliasNewIndex(alias, new_index) => {
                let mut url = "/".to_owned();
                url.push_str(alias.0.as_str());
                url.push_str("/_rollover/");
                url.push_str(new_index.0.as_str());
                Url::from_string(url)
            },
        }
    }
}

/// A request to the indices rollover endpoint.
#[derive(Debug, PartialEq, Clone)]
pub struct IndicesRolloverRequest<B> {
    pub url: Url,
    pub body: B,
}

impl<B> IndicesRolloverRequest<B> {
    /// A request to the url at `alias`.
    pub fn for_alias(alias: Alias, body: B) -> (r: Self)
        ensures
            r.url@ == "/"@ + alias.0@ + "/_rollover"@,
            r.body == body,
    {
        IndicesRolloverRequest { url: IndicesRolloverUrlParams::Alias(alias).url(), body: body }
    }

    /// A request to the url at `alias`, `new_index`.
    pub fn for_alias_new_index(alias: Alias, new_index: NewIndex, body: B) -> (r: Self)
        ensures
            r.url@ == "/"@ + alias.0@ + "/_rollover/"@ + new_index.0@,
            r.body == body,
    {
        IndicesRolloverRequest { url: IndicesRolloverUrlParams::AliasNewIndex(alias, new_index).url(), body: body }
    }
}

impl<B> From<IndicesRolloverRequest<B>> for HttpRequest<B> {
    fn from(req: IndicesRolloverRequest<B>) -> HttpRequest<B> {
        HttpRequest { url: req.url, method: HttpMethod::Post, body: Some(req.body) }
    }
}

impl<B> vstd::std_specs::convert::FromSpecImpl<IndicesRolloverRequest<B>> for HttpRequest<B> {
    open spec fn obeys_from_spec() -> bool {
        true
    }

    open spec fn from_spec(req: IndicesRolloverRequest<B>) -> HttpRequest<B> {
        HttpRequest { url: req.url, method: HttpMethod::Post, body: Some(req.body) }
    }
}

/// The urls of the reindex rethrottle endpoint, by the parameters each one takes.
#[derive(Debug, PartialEq, Clone)]
pub enum ReindexRethrottleUrlParams {
    TaskId(TaskId),
}

impl ReindexRethrottleUrlParams {
    /// The url these parameters spell.
    pub fn url(self) -> (r: Url)
        ensures
            r@ == match self {
                ReindexRethrottleUrlParams::TaskId(task_id) => "/_delete_by_query/"@ + task_id.0@ + "/_rethrottle"@,
            },
    {
        match self {
            ReindexRethrottleUrlParams::TaskId(task_id) => {
                let mut url = "/_delete_by_query/".to_owned();
                url.push_str(task_id.0.as_str());
                url.push_str("/_rethrottle");
                Url::from_string(url)
            },
        }
    }
}

/// A request to the reindex rethrottle endpoint.
#[derive(Debug, PartialEq, Clone)]
pub struct ReindexRethrottleRequest<B> {
    pub url: Url,
    pub body: B,
}

impl<B> ReindexRethrottleRequest<B> {
    /// A request to the url at `task_id`.
    pub fn for_task_id(task_id: TaskId, body: B) -> (r: Self)
        ensures
            r.url@ == "/_delete_by_query/"@ + task_id.0@ + "/_rethrottle"@,
            r.body == body,
    {
        ReindexRethrottleRequest { url: ReindexRethrottleUrlParams::TaskId(task_id).url(), body: body }
    }
}

impl<B> From<ReindexRethrottleRequest<B>> for HttpRequest<B> {
    fn from(req: ReindexRethrottleRequest<B>) -> HttpRequest<B> {
        HttpRequest { url: req.url, method: HttpMethod::Post, body: Some(req.body) }
    }
}

impl<B> vstd::std_specs::convert::FromSpecImpl<ReindexRethrottleRequest<B>> for HttpRequest<B> {
    open spec fn obeys_from_spec() -> bool {
        true
    }

    open spec fn from_spec(req: ReindexRethrottleRequest<B>) -> HttpRequest<B> {
        HttpRequest { url: req.url, method: HttpMethod::Post, body: Some(req.body) }
    }
}

/// The urls of the snapshot create repository endpoint, by the parameters each one takes.
#[derive(Debug, PartialEq, Clone)]
pub enum SnapshotCreateRepositoryUrlParams {
    Repository(Repository),
}

impl SnapshotCreateRepositoryUrlParams {
    /// The url these parameters spell.
    pub fn url(self) -> (r: Url)
        ensures
            r@ == match self {
                SnapshotCreateRepositoryUrlParams::Repository(repository) => "/_snapshot/"@ + repository.0@,
            },
    {
        match self {
            SnapshotCreateRepositoryUrlParams::Repository(repository) => {
                let mut url = "/_snapshot/".to_owned();
                url.push_str(repository.0.as_str());
                Url::from_string(url)
            },
        }
    }
}

/// A request to the snapshot create repository endpoint.
#[derive(Debug, PartialEq, Clone)]
pub struct SnapshotCreateRepositoryRequest<B> {
    pub url: Url,
    pub body: B,
}

impl<B> SnapshotCreateRepositoryRequest<B> {
    /// A request to the url at `repository`.
    pub fn for_repository(repository: Repository, body: B) -> (r: Self)
        ensures
            r.url@ == "/_snapshot/"@ + repository.0@,
            r.body == body,
    {
        SnapshotCreateRepositoryRequest { url: SnapshotCreateRepositoryUrlParams::Repository(repository).url(), body: body }
    }
}

impl<B> From<SnapshotCreateRepositoryRequest<B>> for HttpRequest<B> {
    fn from(req: SnapshotCreateRepositoryRequest<B>) -> HttpRequest<B> {
        HttpRequest { url: req.url, method: HttpMethod::Post, body: Some(req.body) }
    }
}

impl<B> vstd::std_specs::convert::FromSpecImpl<SnapshotCreateRepositoryRequest<B>> for HttpRequest<B> {
    open spec fn obeys_from_spec() -> bool {
        true
    }

    open spec fn from_spec(req: SnapshotCreateRepositoryRequest<B>) -> HttpRequest<B> {
        HttpRequest { url: req.url, method: HttpMethod::Post, body: Some(req.body) }
    }
}

/// The urls of the indices get endpoint, by the parameters each one takes.
#[derive(Debug, PartialEq, Clone)]
pub enum IndicesGetUrlParams {
    Index(Index),
    IndexFeature(Index, Feature),
}

impl IndicesGetUrlParams {
    /// The url these parameters spell.
    pub fn url(self) -> (r: Url)
        ensures
            r@ == match self {
                IndicesGetUrlParams::Index(index) => "/"@ + index.0@,
                IndicesGetUrlParams::IndexFeature(index, feature) => "/"@ + index.0@ + "/"@ + feature.0@,
            },
    {
        match self {
            IndicesGetUrlParams::Index(index) => {
                let mut url = "/".to_owned();
                url.push_str(index.0.as_str());
                Url::from_string(url)
            },
            IndicesGetUrlParams::IndexFeature(index, feature) => {
                let mut url = "/".to_owned();
                url.push_str(index.0.as_str());
                url.push_str("/");
                url.push_str(feature.0.as_str());
                Url::from_string(url)
            },
        }
    }
}

/// A request to the indices get endpoint.
#[derive(Debug, PartialEq, Clone)]
pub struct IndicesGetRequest {
    pub url: Url,
}

impl IndicesGetRequest {
    /// A request to the url at `index`.
    pub fn for_index(index: Index) -> (r: Self)
        ensures
            r.url@ == "/"@ + index.0@,
    {
        IndicesGetRequest { url: IndicesGetUrlParams::Index(index).url() }
    }

    /// A request to the url at `index`, `feature`.
    pub fn for_index_feature(index: Index, feature: Feature) -> (r: Self)
        ensures
            r.url@ == "/"@ + index.0@ + "/"@ + feature.0@,
    {
        IndicesGetRequest { url: IndicesGetUrlParams::IndexFeature(index, feature).url() }
    }
}

impl From<IndicesGetRequest> for HttpRequest<DefaultBody> {
    fn from(req: IndicesGetRequest) -> HttpRequest<DefaultBody> {
        HttpRequest { url: req.url, method: HttpMethod::Get, body: None }
    }
}

impl vstd::std_specs::convert::FromSpecImpl<IndicesGetRequest> for HttpRequest<DefaultBody> {
    open spec fn obeys_from_spec() -> bool {
        true
    }

    open spec fn from_spec(req: IndicesGetRequest) -> HttpRequest<DefaultBody> {
        HttpRequest { url: req.url, method: HttpMethod::Get, body: None }
    }
}

/// The urls of the indices analyze endpoint, by the parameters each one takes.
#[derive(Debug, PartialEq, Clone)]
pub enum IndicesAnalyzeUrlParams {
    /// The url that takes no parameters.
    Base,
    Index(Index),
}

impl IndicesAnalyzeUrlParams {
    /// The url these parameters spell.
    pub fn url(self) -> (r: Url)
        ensures
            r@ == match self {
                IndicesAnalyzeUrlParams::Base => "/_analyze"@,
                IndicesAnalyzeUrlParams::Index(index) => "/"@ + index.0@ + "/_analyze"@,
            },
    {
        match self {
            IndicesAnalyzeUrlParams::Base => Url::from_string("/_analyze".to_owned()),
            IndicesAnalyzeUrlParams::Index(index) => {
                let mut url = "/".to_owned();
                url.push_str(index.0.as_str());
                url.push_str("/_analyze");
                Url::from_string(url)
            },
        }
    }
}

/// A request to the indices analyze endpoint.
#[derive(Debug, PartialEq, Clone)]
pub struct IndicesAnalyzeRequest<B> {
    pub url: Url,
    pub body: B,
}

impl<B> IndicesAnalyzeRequest<B> {
    /// A request to the url without parameters.
    pub fn new(body: B) -> (r: Self)
        ensures
            r.url@ == "/_analyze"@,
            r.body == body,
    {
        IndicesAnalyzeRequest { url: IndicesAnalyzeUrlParams::Base.url(), body: body }
    }

    /// A request to the url at `index`.
    pub fn for_index(index: Index, body: B) -> (r: Self)
        ensures
            r.url@ == "/"@ + index.0@ + "/_analyze"@,
            r.body == body,
    {
        IndicesAnalyzeRequest { url: IndicesAnalyzeUrlParams::Index(index).url(), body: body }
    }
}

impl<B> From<IndicesAnalyzeRequest<B>> for HttpRequest<B> {
    fn from(req: IndicesAnalyzeRequest<B>) -> HttpRequest<B> {
        HttpRequest { url: req.url, method: HttpMethod::Post, body: Some(req.body) }
    }
}

impl<B> vstd::std_specs::convert::FromSpecImpl<IndicesAnalyzeRequest<B>> for HttpRequest<B> {
    open spec fn obeys_from_spec() -> bool {
        true
    }

    open spec fn from_spec(req: IndicesAnalyzeRequest<B>) -> HttpRequest<B> {
        HttpRequest { url: req.url, method: HttpMethod::Post, body: Some(req.body) }
    }
}

/// The urls of the cat fielddata endpoint, by the parameters each one takes.
#[derive(Debug, PartialEq, Clone)]
pub enum CatFielddataUrlParams {
    /// The url that takes no parameters.
    Base,
    Fields(Fields),
}

impl CatFielddataUrlParams {
    /// The url these parameters spell.
    pub fn url(self) -> (r: Url)
        ensures
            r@ == match self {
                CatFielddataUrlParams::Base => "/_cat/fielddata"@,
                CatFielddataUrlParams::Fields(fields) => "/_cat/fielddata/"@ + fields.0@,
            },
    {
        match self {
            CatFielddataUrlParams::Base => Url::from_string("/_cat/fielddata".to_owned()),
            CatFielddataUrlParams::Fields(fields) => {
                let mut url = "/_cat/fielddata/".to_owned();
                url.push_str(fields.0.as_str());
                Url::from_string(url)
            },
        }
    }
}

/// A request to the cat fielddata endpoint.
#[derive(Debug, PartialEq, Clone)]
pub struct CatFielddataRequest {
    pub url: Url,
}

impl CatFielddataRequest {
    /// A request to the url without parameters.
    pub fn new() -> (r: Self)
        ensures
            r.url@ == "/_cat/fielddata"@,
    {
        CatFielddataRequest { url: CatFielddataUrlParams::Base.url() }
    }

    /// A request to the url at `fields`.
    pub fn for_fields(fields: Fields) -> (r: Self)
        ensures
            r.url@ == "/_cat/fielddata/"@ + fields.0@,
    {
        CatFielddataRequest { url: CatFielddataUrlParams::Fields(fields).url() }
    }
}

impl From<CatFielddataRequest> for HttpRequest<DefaultBody> {
    fn from(req: CatFielddataRequest) -> HttpRequest<DefaultBody> {
        HttpRequest { url: req.url, method: HttpMethod::Get, body: None }
    }
}

impl vstd::std_specs::convert::FromSpecImpl<CatFielddataRequest> for HttpRequest<DefaultBody> {
    open spec fn obeys_from_spec() -> bool {
        true
    }

    open spec fn from_spec(req: CatFielddataRequest) -> HttpRequest<DefaultBody> {
        HttpRequest { url: req.url, method: HttpMethod::Get, body: None }
    }
}

/// The urls of the indices segments endpoint, by the parameters each one takes.
#[derive(Debug, PartialEq, Clone)]
pub enum IndicesSegmentsUrlParams {
    /// The url that takes no parameters.
    Base,
    Index(Index),
}

impl IndicesSegmentsUrlParams {
    /// The url these parameters spell.
    pub fn url(self) -> (r: Url)
        ensures
            r@ == match self {
                IndicesSegmentsUrlParams::Base => "/_segments"@,
                IndicesSegmentsUrlParams::Index(index) => "/"@ + index.0@ + "/_segments"@,
            },
    {
        match self {
            IndicesSegmentsUrlParams::Base => Url::from_string("/_segments".to_owned()),
            IndicesSegmentsUrlParams::Index(index) => {
                let mut url = "/".to_owned();
                url.push_str(index.0.as_str());
                url.push_str("/_segments");
                Url::from_string(url)
            },
        }
    }
}

/// A request to the indices segments endpoint.
#[derive(Debug, PartialEq, Clone)]
pub struct IndicesSegmentsRequest {
    pub url: Url,
}

impl IndicesSegmentsRequest {
    /// A request to the url without parameters.
    pub fn new() -> (r: Self)
        ensures
            r.url@ == "/_segments"@,
    {
        IndicesSegmentsRequest { url: IndicesSegmentsUrlParams::Base.url() }
    }

    /// A request to the url at `index`.
    pub fn for_index(index: Index) -> (r: Self)
        ensures
            r.url@ == "/"@ + index.0@ + "/_segments"@,
    {
        IndicesSegmentsRequest { url: IndicesSegmentsUrlParams::Index(index).url() }
    }
}

impl From<IndicesSegmentsRequest> for HttpRequest<DefaultBody> {
    fn from(req: IndicesSegmentsRequest) -> HttpRequest<DefaultBody> {
        HttpRequest { url: req.url, method: HttpMethod::Get, body: None }
    }
}

impl vstd::std_specs::convert::FromSpecImpl<IndicesSegmentsRequest> for HttpRequest<DefaultBody> {
    open spec fn obeys_from_spec() -> bool {
        true
    }

    open spec fn from_spec(req: IndicesSegmentsRequest) -> HttpRequest<DefaultBody> {
        HttpRequest { url: req.url, method: HttpMethod::Get, body: None }
    }
}

/// The urls of the indices shrink endpoint, by the parameters each one takes.
#[derive(Debug, PartialEq, Clone)]
pub enum IndicesShrinkUrlParams {
    IndexTarget(Index, Target),
}

impl IndicesShrinkUrlParams {
    /// The url these parameters spell.
    pub fn url(self) -> (r: Url)
        ensures
            r@ == match self {
                IndicesShrinkUrlParams::IndexTarget(index, target) => "/"@ + index.0@ + "/_shrink/"@ + target.0@,
            },
    {
        match self {
            IndicesShrinkUrlParams::IndexTarget(index, target) => {
                let mut url = "/".to_owned();
                url.push_str(index.0.as_str());
                url.push_str("/_shrink/");
                url.push_str(target.0.as_str());
                Url::from_string(url)
            },
        }
    }
}

/// A request to the indices shrink endpoint.
#[derive(Debug, PartialEq, Clone)]
pub struct IndicesShrinkRequest<B> {
    pub url: Url,
    pub body: B,
}

impl<B> IndicesShrinkRequest<B> {
    /// A request to the url at `index`, `target`.
    pub fn for_index_target(index: Index, target: Target, body: B) -> (r: Self)
        ensures
            r.url@ == "/"@ + index.0@ + "/_shrink/"@ + target.0@,
            r.body == body,
    {
        IndicesShrinkRequest { url: IndicesShrinkUrlParams::IndexTarget(index, target).url(), body: body }
    }
}

impl<B> From<IndicesShrinkRequest<B>> for HttpRequest<B> {
    fn from(req: IndicesShrinkRequest<B>) -> HttpRequest<B> {
        HttpRequest { url: req.url, method: HttpMethod::Post, body: Some(req.body) }
    }
}

impl<B> vstd::std_specs::convert::FromSpecImpl<IndicesShrinkRequest<B>> for HttpRequest<B> {
    open spec fn obeys_from_spec() -> bool {
        true
    }

    open spec fn from_spec(req: IndicesShrinkRequest<B>) -> HttpRequest<B> {
        HttpRequest { url: req.url, method: HttpMethod::Post, body: Some(req.body) }
    }
}

/// The urls of the tasks list endpoint, by the parameters each one takes.
#[derive(Debug, PartialEq, Clone)]
pub enum TasksListUrlParams {
    /// The url that takes no parameters.
    Base,
}

impl TasksListUrlParams {
    /// The url these parameters spell.
    pub fn url(self) -> (r: Url)
        ensures
            r@ == match self {
                TasksListUrlParams::Base => "/_tasks"@,
            },
    {
        match self {
            TasksListUrlParams::Base => Url::from_string("/_tasks".to_owned()),
        }
    }
}

/// A request to the tasks list endpoint.
#[derive(Debug, PartialEq, Clone)]
pub struct TasksListRequest {
    pub url: Url,
}

impl TasksListRequest {
    /// A request to the url without parameters.
    pub fn new() -> (r: Self)
        ensures
            r.url@ == "/_tasks"@,
    {
        TasksListRequest { url: TasksListUrlParams::Base.url() }
    }
}

impl From<TasksListRequest> for HttpRequest<DefaultBody> {
    fn from(req: TasksListRequest) -> HttpRequest<DefaultBody> {
        HttpRequest { url: req.url, method: HttpMethod::Get, body: None }
    }
}

impl vstd::std_specs::convert::FromSpecImpl<TasksListRequest> for HttpRequest<DefaultBody> {
    open spec fn obeys_from_spec() -> bool {
        true
    }

    open spec fn from_spec(req: TasksListRequest) -> HttpRequest<DefaultBody> {
        HttpRequest { url: req.url, method: HttpMethod::Get, body: None }
    }
}

/// The urls of the cat master endpoint, by the parameters each one takes.
#[derive(Debug, PartialEq, Clone)]
pub enum CatMasterUrlParams {
    /// The url that takes no parameters.
    Base,
}

impl CatMasterUrlParams {
    /// The url these parameters spell.
    pub fn url(self) -> (r: Url)
        ensures
            r@ == match self {
                CatMasterUrlParams::Base => "/_cat/master"@,
            },
    {
        match self {
            CatMasterUrlParams::Base => Url::from_string("/_cat/master".to_owned()),
        }
    }
}

/// A request to the cat master endpoint.
#[derive(Debug, PartialEq, Clone)]
pub struct CatMasterRequest {
    pub url: Url,
}

impl CatMasterRequest {
    /// A request to the url without parameters.
    pub fn new() -> (r: Self)
        ensures
            r.url@ == "/_cat/master"@,
    {
        CatMasterRequest { url: CatMasterUrlParams::Base.url() }
    }
}

impl From<CatMasterRequest> for HttpRequest<DefaultBody> {
    fn from(req: CatMasterRequest) -> HttpRequest<DefaultBody> {
        HttpRequest { url: req.url, method: HttpMethod::Get, body: None }
    }
}

impl vstd::std_specs::convert::FromSpecImpl<CatMasterRequest> for HttpRequest<DefaultBody> {
    open spec fn obeys_from_spec() -> bool {
        true
    }

    open spec fn from_spec(req: CatMasterRequest) -> HttpRequest<DefaultBody> {
        HttpRequest { url: req.url, method: HttpMethod::Get, body: None }
    }
}

/// The urls of the indices exists type endpoint, by the parameters each one takes.
#[derive(Debug, PartialEq, Clone)]
pub enum IndicesExistsTypeUrlParams {
    IndexType(Index, Type),
}

impl IndicesExistsTypeUrlParams {
    /// The url these parameters spell.
    pub fn url(self) -> (r: Url)
        ensures
            r@ == match self {
                IndicesExistsTypeUrlParams::IndexType(index, ty) => "/"@ + index.0@ + "/_mapping/"@ + ty.0@,
            },
    {
        match self {
            IndicesExistsTypeUrlParams::IndexType(index, ty) => {
                let mut url = "/".to_owned();
                url.push_str(index.0.as_str());
                url.push_str("/_mapping/");
                url.push_str(ty.0.as_str());
                Url::from_string(url)
            },
        }
    }
}

/// A request to the indices exists type endpoint.
#[derive(Debug, PartialEq, Clone)]
pub struct IndicesExistsTypeRequest {
    pub url: Url,
}

impl IndicesExistsTypeRequest {
    /// A request to the url at `index`, `ty`.
    pub fn for_index_ty(index: Index, ty: Type) -> (r: Self)
        ensures
            r.url@ == "/"@ + index.0@ + "/_mapping/"@ + ty.0@,
    {
        IndicesExistsTypeRequest { url: IndicesExistsTypeUrlParams::IndexType(index, ty).url() }
    }
}

impl From<IndicesExistsTypeRequest> for HttpRequest<DefaultBody> {
    fn from(req: IndicesExistsTypeRequest) -> HttpRequest<DefaultBody> {
        HttpRequest { url: req.url, method: HttpMethod::Head, body: None }
    }
}

impl vstd::std_specs::convert::FromSpecImpl<IndicesExistsTypeRequest> for HttpRequest<DefaultBody> {
    open spec fn obeys_from_spec() -> bool {
        true
    }

    open spec fn from_spec(req: IndicesExistsTypeRequest) -> HttpRequest<DefaultBody> {
        HttpRequest { url: req.url, method: HttpMethod::Head, body: None }
    }
}

/// The urls of the cluster get settings endpoint, by the parameters each one takes.
#[derive(Debug, PartialEq, Clone)]
pub enum ClusterGetSettingsUrlParams {
    /// The url that takes no parameters.
    Base,
}

impl ClusterGetSettingsUrlParams {
    /// The url these parameters spell.
    pub fn url(self) -> (r: Url)
        ensures
            r@ == match self {
                ClusterGetSettingsUrlParams::Base => "/_cluster/settings"@,
            },
    {
        match self {
            ClusterGetSettingsUrlParams::Base => Url::from_string("/_cluster/settings".to_owned()),
        }
    }
}

/// A request to the cluster get settings endpoint.
#[derive(Debug, PartialEq, Clone)]
pub struct ClusterGetSettingsRequest {
    pub url: Url,
}

impl ClusterGetSettingsRequest {
    /// A request to the url without parameters.
    pub fn new() -> (r: Self)
        ensures
            r.url@ == "/_cluster/settings"@,
    {
        ClusterGetSettingsRequest { url: ClusterGetSettingsUrlParams::Base.url() }
    }
}

impl From<ClusterGetSettingsRequest> for HttpRequest<DefaultBody> {
    fn from(req: ClusterGetSettingsRequest) -> HttpRequest<DefaultBody> {
        HttpRequest { url: req.url, method: HttpMethod::Get, body: None }
    }
}

impl vstd::std_specs::convert::FromSpecImpl<ClusterGetSettingsRequest> for HttpRequest<DefaultBody> {
    open spec fn obeys_from_spec() -> bool {
        true
    }

    open spec fn from_spec(req: ClusterGetSettingsRequest) -> HttpRequest<DefaultBody> {
        HttpRequest { url: req.url, method: HttpMethod::Get, body: None }
    }
}

/// The urls of the nodes info endpoint, by the parameters each one takes.
#[derive(Debug, PartialEq, Clone)]
pub enum NodesInfoUrlParams {
    /// The url that takes no parameters.
    Base,
    Metric(Metric),
    NodeId(NodeId),
    NodeIdMetric(NodeId, Metric),
}

impl NodesInfoUrlParams {
    /// The url these parameters spell.
    pub fn url(self) -> (r: Url)
        ensures
            r@ == match self {
                NodesInfoUrlParams::Base => "/_nodes"@,
                NodesInfoUrlParams::Metric(metric) => "/_nodes/"@ + metric.0@,
                NodesInfoUrlParams::NodeId(node_id) => "/_nodes/"@ + node_id.0@,
                NodesInfoUrlParams::NodeIdMetric(node_id, metric) => "/_nodes/"@ + node_id.0@ + "/"@ + metric.0@,
            },
    {
        match self {
            NodesInfoUrlParams::Base => Url::from_string("/_nodes".to_owned()),
            NodesInfoUrlParams::Metric(metric) => {
                let mut url = "/_nodes/".to_owned();
                url.push_str(metric.0.as_str());
                Url::from_string(url)
            },
            NodesInfoUrlParams::NodeId(node_id) => {
                let mut url = "/_nodes/".to_owned();
                url.push_str(node_id.0.as_str());
                Url::from_string(url)
            },
            NodesInfoUrlParams::NodeIdMetric(node_id, metric) => {
                let mut url = "/_nodes/".to_owned();
                url.push_str(node_id.0.as_str());
                url.push_str("/");
                url.push_str(metric.0.as_str());
                Url::from_string(url)
            },
        }
    }
}

/// A request to the nodes info endpoint.
#[derive(Debug, PartialEq, Clone)]
pub struct NodesInfoRequest {
    pub url: Url,
}

impl NodesInfoRequest {
    /// A request to the url without parameters.
    pub fn new() -> (r: Self)
        ensures
            r.url@ == "/_nodes"@,
    {
        NodesInfoRequest { url: NodesInfoUrlParams::Base.url() }
    }

    /// A request to the url at `metric`.
    pub fn for_metric(metric: Metric) -> (r: Self)
        ensures
            r.url@ == "/_nodes/"@ + metric.0@,
    {
        NodesInfoRequest { url: NodesInfoUrlParams::Metric(metric).url() }
    }

    /// A request to the url at `node_id`.
    pub fn for_node_id(node_id: NodeId) -> (r: Self)
        ensures
            r.url@ == "/_nodes/"@ + node_id.0@,
    {
        NodesInfoRequest { url: NodesInfoUrlParams::NodeId(node_id).url() }
    }

    /// A request to the url at `node_id`, `metric`.
    pub fn for_node_id_metric(node_id: NodeId, metric: Metric) -> (r: Self)
        ensures
            r.url@ == "/_nodes/"@ + node_id.0@ + "/"@ + metric.0@,
    {
        NodesInfoRequest { url: NodesInfoUrlParams::NodeIdMetric(node_id, metric).url() }
    }
}

impl From<NodesInfoRequest> for HttpRequest<DefaultBody> {
    fn from(req: NodesInfoRequest) -> HttpRequest<DefaultBody> {
        HttpRequest { url: req.url, method: HttpMethod::Get, body: None }
    }
}

impl vstd::std_specs::convert::FromSpecImpl<NodesInfoRequest> for HttpRequest<DefaultBody> {
    open spec fn obeys_from_spec() -> bool {
        true
    }

    open spec fn from_spec(req: NodesInfoRequest) -> HttpRequest<DefaultBody> {
        HttpRequest { url: req.url, method: HttpMethod::Get, body: None }
    }
}
} // verus!
