//! Requests to ollama-router, and what its replies mean: the model catalog
//! (`/v1/models`) merged with the currently-loaded set (`/api/ps`).

use vstd::hash_set::StringHashSet;
use vstd::prelude::*;
use vstd::string::*;

use crate::http::{is_success, success, ApiRequest, ApiRequestView, Method};
use crate::ipc::protocol::{ModelInfo, ModelInfoView};
use crate::text::{
    decimal, decimal_reads_back, decimal_text, decimal_value, strip_trailing,
    stripping_takes_a_trailing_run_only, without_trailing,
};

verus! {

/// How many seconds connecting may take.
pub const CONNECT_TIMEOUT_SECS: u64 = 10;

/// How many idle connections to keep.
pub const POOL_MAX_IDLE: usize = 2;

/// How many seconds a request may take.
pub const REQUEST_TIMEOUT_SECS: u64 = 10;

/// Why a request to ollama-router failed.
#[derive(Debug, Clone, PartialEq, Eq)]
pub enum OllamaError {
    /// The exchange itself failed, with the reason.
    Transport(String),
    /// The router answered with a status that is no success.
    Status { status: u16 },
}

/// What an [`OllamaError`] says.
#[verifier::ext_equal]
pub enum OllamaErrorView {
    Transport(Seq<char>),
    Status { status: u16 },
}

impl OllamaErrorView {
    /// The error in words.
    pub open spec fn message(self) -> Seq<char> {
        match self {
            OllamaErrorView::Transport(e) => "HTTP transport error: "@ + e,
            OllamaErrorView::Status { status } => "ollama-router returned "@ + decimal(
                status as nat,
            ),
        }
    }
}

impl DeepView for OllamaError {
    type V = OllamaErrorView;

    open spec fn deep_view(&self) -> OllamaErrorView {
        match self {
            OllamaError::Transport(e) => OllamaErrorView::Transport(e@),
            OllamaError::Status { status } => OllamaErrorView::Status { status: *status },
        }
    }
}

impl OllamaError {
    /// The error in words.
    pub fn message(&self) -> (r: String)
        ensures
            r@ == self.deep_view().message(),
    {
        match self {
            OllamaError::Transport(e) => "HTTP transport error: ".to_owned().concat(e.as_str()),
            OllamaError::Status { status } => "ollama-router returned ".to_owned().concat(
                decimal_text(*status as u64).as_str(),
            ),
        }
    }
}

/// The error that an HTTP status stands for, if it is no success.
pub open spec fn refusal(status: u16) -> Option<OllamaErrorView> {
    if success(status) {
        None
    } else {
        Some(OllamaErrorView::Status { status })
    }
}

/// Translates a non-success HTTP status into a typed error.
pub fn check_status(status: u16) -> (r: Result<(), OllamaError>)
    ensures
        success(status) ==> r is Ok,
        !success(status) ==> r == Err::<(), _>(OllamaError::Status { status }),
        (match r {
            Ok(_) => None,
            Err(e) => Some(e.deep_view()),
        }) == refusal(status),
{
    if is_success(status) {
        Ok(())
    } else {
        Err(OllamaError::Status { status })
    }
}

/// One entry of `/api/ps`. It carries both a name and a model; either may match
/// an id of the catalog.
#[derive(Debug, Clone, PartialEq, Eq)]
pub struct LoadedModel {
    pub name: Option<String>,
    pub model: Option<String>,
}

/// What a [`LoadedModel`] says.
#[verifier::ext_equal]
pub struct LoadedModelView {
    pub name: Option<Seq<char>>,
    pub model: Option<Seq<char>>,
}

impl DeepView for LoadedModel {
    type V = LoadedModelView;

    open spec fn deep_view(&self) -> LoadedModelView {
        LoadedModelView { name: self.name.deep_view(), model: self.model.deep_view() }
    }
}

impl LoadedModelView {
    /// The entry goes by the name `id`.
    pub open spec fn goes_by(self, id: Seq<char>) -> bool {
        self.name == Some(id) || self.model == Some(id)
    }
}

/// Some entry goes by the name `id`.
pub open spec fn is_loaded(entries: Seq<LoadedModelView>, id: Seq<char>) -> bool {
    exists|i: int| 0 <= i < entries.len() && (#[trigger] entries[i]).goes_by(id)
}

/// The set of currently-loaded model ids.
pub fn loaded_set(entries: &Vec<LoadedModel>) -> (r: StringHashSet)
    ensures
        forall|id: Seq<char>| #[trigger] r@.contains(id) <==> is_loaded(entries.deep_view(), id),
{
    let mut set = StringHashSet::new();
    let ghost all = entries.deep_view();
    let mut i: usize = 0;
    while i < entries.len()
        invariant
            i <= entries.len(),
            all == entries.deep_view(),
            forall|id: Seq<char>| #[trigger]
                set@.contains(id) <==> is_loaded(all.take(i as int), id),
        decreases entries.len() - i,
    {
        let ghost before = set@;
        if let Some(n) = &entries[i].name {
            set.insert(n.clone());
        }
        if let Some(m) = &entries[i].model {
            set.insert(m.clone());
        }
        proof {
            let prev = all.take(i as int);
            let next = all.take(i + 1);
            assert(next =~= prev.push(all[i as int]));
            assert forall|id: Seq<char>| #[trigger] set@.contains(id) <==> is_loaded(next, id) by {
                assert(set@.contains(id) <==> before.contains(id) || all[i as int].goes_by(id));
                if is_loaded(prev, id) {
                    let k = choose|k: int| 0 <= k < prev.len() && (#[trigger] prev[k]).goes_by(id);
                    assert(next[k].goes_by(id));
                }
                if all[i as int].goes_by(id) {
                    assert(next[i as int].goes_by(id));
                }
                if is_loaded(next, id) {
                    let k = choose|k: int| 0 <= k < next.len() && (#[trigger] next[k]).goes_by(id);
                    if k < i {
                        assert(prev[k].goes_by(id));
                    }
                }
            }
        }
        i += 1;
    }
    assert(all.take(i as int) =~= all);
    set
}

/// The catalog entry for `id`, given what is loaded.
pub open spec fn model_entry(entries: Seq<LoadedModelView>, id: Seq<char>) -> ModelInfoView {
    ModelInfoView { id, loaded: is_loaded(entries, id), active: false }
}

/// The full catalog, each model flagged `loaded` if the router reports it. The
/// loaded probe is best-effort: if it failed, every model counts as not loaded.
pub open spec fn model_list(
    catalog: Seq<Seq<char>>,
    loaded: Result<Seq<LoadedModelView>, OllamaErrorView>,
) -> Seq<ModelInfoView> {
    let entries = match loaded {
        Ok(e) => e,
        Err(_) => Seq::empty(),
    };
    Seq::new(catalog.len(), |i: int| model_entry(entries, catalog[i]))
}

/// What a result of the loaded probe says.
pub open spec fn probe_view(loaded: Result<Vec<LoadedModel>, OllamaError>) -> Result<
    Seq<LoadedModelView>,
    OllamaErrorView,
> {
    match loaded {
        Ok(v) => Ok(v.deep_view()),
        Err(e) => Err(e.deep_view()),
    }
}

/// Merges the ids of the catalog with what the loaded probe answered.
pub fn merge_models(
    catalog: &Vec<String>,
    loaded: &Result<Vec<LoadedModel>, OllamaError>,
) -> (r: Vec<ModelInfo>)
    ensures
        r.deep_view() == model_list(catalog.deep_view(), probe_view(*loaded)),
{
    let set = match loaded {
        Ok(entries) => loaded_set(entries),
        Err(_) => StringHashSet::new(),
    };
    let ghost entries = match probe_view(*loaded) {
        Ok(e) => e,
        Err(_) => Seq::empty(),
    };
    assert(forall|id: Seq<char>| #[trigger] set@.contains(id) <==> is_loaded(entries, id));
    let mut out: Vec<ModelInfo> = Vec::new();
    let mut i: usize = 0;
    while i < catalog.len()
        invariant
            i <= catalog.len(),
            out@.len() == i,
            forall|id: Seq<char>| #[trigger] set@.contains(id) <==> is_loaded(entries, id),
            forall|j: int|
                0 <= j < i ==> (#[trigger] out@[j]).deep_view() == model_entry(
                    entries,
                    catalog@[j]@,
                ),
        decreases catalog.len() - i,
    {
        out.push(
            ModelInfo {
                id: catalog[i].clone(),
                loaded: set.contains(catalog[i].as_str()),
                active: false,
            },
        );
        i += 1;
    }
    assert(out.deep_view() =~= model_list(catalog.deep_view(), probe_view(*loaded)));
    out
}

/// Client for ollama-router's catalog and loaded-model endpoints: where it is
/// and the token to present.
#[derive(Debug, Clone, PartialEq, Eq)]
pub struct OllamaRouterClient {
    base_url: String,
    token: Option<String>,
}

/// What an [`OllamaRouterClient`] knows.
#[verifier::ext_equal]
pub struct OllamaRouterClientView {
    pub base_url: Seq<char>,
    pub token: Option<Seq<char>>,
}

impl View for OllamaRouterClient {
    type V = OllamaRouterClientView;

    closed spec fn view(&self) -> OllamaRouterClientView {
        OllamaRouterClientView { base_url: self.base_url@, token: self.token.deep_view() }
    }
}

impl OllamaRouterClientView {
    /// The client for the router at `base_url`.
    pub open spec fn at(base_url: Seq<char>, token: Option<Seq<char>>) -> Self {
        OllamaRouterClientView { base_url: without_trailing(base_url, '/'), token }
    }

    /// The request for the catalog.
    pub open spec fn catalog_request(self) -> ApiRequestView {
        self.get("/v1/models"@)
    }

    /// The request for the loaded models.
    pub open spec fn ps_request(self) -> ApiRequestView {
        self.get("/api/ps"@)
    }

    /// The request for `path`, with the token if there is one.
    pub open spec fn get(self, path: Seq<char>) -> ApiRequestView {
        ApiRequestView {
            method: Method::Get,
            url: self.base_url + path,
            bearer: self.token,
            body: None,
            timeout_secs: Some(REQUEST_TIMEOUT_SECS),
        }
    }
}

impl OllamaRouterClient {
    /// A client for the router at `base_url`; slashes at its end do not count.
    pub fn new(base_url: &str, token: Option<String>) -> (r: Self)
        ensures
            r@ == OllamaRouterClientView::at(base_url@, token.deep_view()),
    {
        OllamaRouterClient { base_url: strip_trailing(base_url, '/'), token }
    }

    fn get(&self, path: &str) -> (r: ApiRequest)
        ensures
            r@ == self@.get(path@),
    {
        ApiRequest {
            method: Method::Get,
            url: self.base_url.clone().concat(path),
            bearer: match &self.token {
                Some(t) => Some(t.clone()),
                None => None,
            },
            body: None,
            timeout_secs: Some(REQUEST_TIMEOUT_SECS),
        }
    }

    /// `GET /v1/models`: the catalog, to be merged with the loaded models by
    /// [`merge_models`].
    pub fn list_models(&self) -> (r: ApiRequest)
        ensures
            r@ == self@.catalog_request(),
    {
        self.get("/v1/models")
    }

    /// `GET /api/ps`: the loaded models.
    pub fn loaded_request(&self) -> (r: ApiRequest)
        ensures
            r@ == self@.ps_request(),
    {
        self.get("/api/ps")
    }
}

/// The picker shows the whole catalog in the router's order, with no model
/// chosen yet, whatever the loaded probe answered.
pub proof fn catalog_is_kept(
    catalog: Seq<Seq<char>>,
    loaded: Result<Seq<LoadedModelView>, OllamaErrorView>,
)
    ensures
        model_list(catalog, loaded).len() == catalog.len(),
        forall|i: int|
            0 <= i < catalog.len() ==> (#[trigger] model_list(catalog, loaded)[i]).id == catalog[i]
                && !model_list(catalog, loaded)[i].active,
{
}

/// A failed loaded probe leaves every model unloaded.
pub proof fn failed_probe_loads_nothing(catalog: Seq<Seq<char>>, e: OllamaErrorView)
    ensures
        forall|i: int|
            0 <= i < catalog.len() ==> !(#[trigger] model_list(
                catalog,
                Err::<Seq<LoadedModelView>, _>(e),
            )[i]).loaded,
{
}

/// The router's status is no error exactly from 200 to 299, and else an error
/// that keeps the number.
pub proof fn router_statuses_are_kept(status: u16)
    ensures
        refusal(status) is None <==> 200 <= status <= 299,
        refusal(status) matches Some(e) ==> e == (OllamaErrorView::Status { status }),
{
}

/// Every error is told in words of its own, followed by the whole reason or by
/// the number of the status.
pub proof fn router_errors_tell_their_detail(detail: Seq<char>, status: u16)
    ensures
        OllamaErrorView::Transport(detail).message() == "HTTP transport error: "@ + detail,
        ({
            let m = OllamaErrorView::Status { status }.message();
            let front = "ollama-router returned "@;
            &&& m.take(front.len() as int) == front
            &&& decimal_value(m.skip(front.len() as int)) == status
            &&& forall|i: int|
                front.len() <= i < m.len() ==> 48 <= (#[trigger] m[i]) as int <= 57
        }),
{
    decimal_reads_back(status as nat);
    let m = OllamaErrorView::Status { status }.message();
    let front = "ollama-router returned "@;
    assert(m.take(front.len() as int) =~= front);
    assert(m.skip(front.len() as int) =~= decimal(status as nat));
    assert forall|i: int| front.len() <= i < m.len() implies 48 <= (#[trigger] m[i]) as int
        <= 57 by {
        assert(m[i] == decimal(status as nat)[i - front.len()]);
    }
}

/// A model of the catalog counts as loaded exactly when some entry of the loaded
/// probe has its id for a name or for a model.
pub proof fn loaded_models_are_those_reported(
    catalog: Seq<Seq<char>>,
    entries: Seq<LoadedModelView>,
    i: int,
)
    requires
        0 <= i < catalog.len(),
    ensures
        model_list(catalog, Ok(entries))[i].loaded <==> exists|k: int|
            0 <= k < entries.len() && ((#[trigger] entries[k]).name == Some(catalog[i])
                || entries[k].model == Some(catalog[i])),
{
    let id = catalog[i];
    if is_loaded(entries, id) {
        let k = choose|k: int| 0 <= k < entries.len() && (#[trigger] entries[k]).goes_by(id);
        assert(entries[k].name == Some(id) || entries[k].model == Some(id));
    }
    if exists|k: int|
        0 <= k < entries.len() && ((#[trigger] entries[k]).name == Some(id) || entries[k].model
            == Some(id)) {
        let k = choose|k: int|
            0 <= k < entries.len() && ((#[trigger] entries[k]).name == Some(id) || entries[k].model
                == Some(id));
        assert(entries[k].goes_by(id));
    }
}

/// A client asks its own router, where it was told it is, without the slashes at
/// the end, and presents the token it was given, or none.
pub proof fn router_requests_go_where_they_should(base: Seq<char>, token: Option<Seq<char>>)
    ensures
        ({
            let c = OllamaRouterClientView::at(base, token);
            let host = c.base_url;
            let catalog = c.catalog_request();
            let loaded = c.ps_request();
            &&& host == base.take(host.len() as int)
            &&& forall|i: int| host.len() <= i < base.len() ==> #[trigger] base[i] == '/'
            &&& host.len() > 0 ==> host.last() != '/'
            &&& catalog.url == host + "/v1/models"@
            &&& catalog.method is Get && catalog.bearer == token && catalog.body is None
                && catalog.timeout_secs == Some(10u64)
            &&& loaded.url == host + "/api/ps"@
            &&& loaded.method is Get && loaded.bearer == token && loaded.body is None
                && loaded.timeout_secs == Some(10u64)
        }),
{
    stripping_takes_a_trailing_run_only(base, '/');
}

/// The picker goes by the entries of the loaded probe as they came, every one in
/// its place with its name and its model, or by its failure.
pub proof fn probe_is_taken_as_it_came(entries: Vec<LoadedModel>, e: OllamaError)
    ensures
        probe_view(Ok(entries)) matches Ok(all) && all.len() == entries@.len() && (forall|i: int|
            0 <= i < all.len() ==> (#[trigger] all[i]).name == entries@[i].name.deep_view()
                && all[i].model == entries@[i].model.deep_view()),
        probe_view(Err(e)) == Err::<Seq<LoadedModelView>, _>(e.deep_view()),
{
}

} // verus!
