//! The HTTP surface's decisions: the state handlers share, the status and
//! text an error is answered with, and the texts of the endpoints that have
//! no service call behind them.

use vstd::prelude::*;
use crate::common::{error_message_spec, DaedalusError};
use crate::domain::{ModelSummary, SearchResult};
use crate::service::DaedalusService;
use crate::text::{concat2, decimal_i64, push_str, signed_decimal_spec};

verus! {

/// The state every request handler shares: the service.
#[derive(Debug, Clone)]
pub struct ApiState {
    service: DaedalusService,
}

impl View for ApiState {
    type V = DaedalusService;

    /// The service the handlers call.
    closed spec fn view(&self) -> DaedalusService {
        self.service
    }
}

impl ApiState {
    /// Handler state around a service.
    pub fn new(service: DaedalusService) -> (r: ApiState)
        ensures
            r@ == service,
    {
        ApiState { service }
    }

    /// The service the handlers call.
    pub fn service(&self) -> (r: &DaedalusService)
        ensures
            *r == self@,
    {
        &self.service
    }
}

/// An HTTP error answer: a status code and a message.
#[derive(Debug, Clone, PartialEq, Eq)]
pub struct ApiError {
    pub status: u16,
    pub message: String,
}

/// The status an error is answered with: 404 for a missing resource, 400
/// for invalid input or configuration, 500 otherwise.
pub open spec fn error_status(e: DaedalusError) -> u16 {
    match e {
        DaedalusError::NotFound(_) => 404,
        DaedalusError::Validation(_) => 400,
        DaedalusError::Config(_) => 400,
        _ => 500,
    }
}

impl ApiError {
    /// An answer with the given status and message.
    pub fn new(status: u16, message: String) -> (r: ApiError)
        ensures
            r.status == status,
            r.message == message,
    {
        ApiError { status, message }
    }

    /// The answer to a service error: its status by kind and its text.
    pub fn from_error(e: &DaedalusError) -> (r: ApiError)
        ensures
            r.status == error_status(*e),
            r.message@ == error_message_spec(*e),
    {
        let status: u16 = match e {
            DaedalusError::NotFound(_) => 404,
            DaedalusError::Validation(_) => 400,
            DaedalusError::Config(_) => 400,
            _ => 500,
        };
        ApiError { status, message: e.message() }
    }

    /// The 404 answer for a library item that does not exist.
    pub fn library_item_not_found(id: i64) -> (r: ApiError)
        ensures
            r.status == 404,
            r.message@ == "library item "@ + signed_decimal_spec(id as int) + " not found"@,
    {
        let mut m = concat2("library item ", decimal_i64(id).as_str());
        push_str(&mut m, " not found");
        ApiError { status: 404, message: m }
    }

    /// The 404 answer for a job that does not exist.
    pub fn job_not_found(id: i64) -> (r: ApiError)
        ensures
            r.status == 404,
            r.message@ == "job "@ + signed_decimal_spec(id as int) + " not found"@,
    {
        let mut m = concat2("job ", decimal_i64(id).as_str());
        push_str(&mut m, " not found");
        ApiError { status: 404, message: m }
    }

    /// The 501 answer for the Civitai model detail endpoint, which is not offered yet.
    pub fn model_detail_not_ready(id: &str) -> (r: ApiError)
        ensures
            r.status == 501,
            r.message@ == "Civitai model detail is not implemented yet for id "@ + id@,
    {
        ApiError {
            status: 501,
            message: concat2("Civitai model detail is not implemented yet for id ", id),
        }
    }
}

/// The page size a search uses when none is given.
pub open spec fn search_limit_spec(limit: Option<usize>) -> usize {
    match limit {
        Some(l) => l,
        None => 20,
    }
}

/// The page size a search uses: the given one, or 20.
pub fn search_limit(limit: Option<usize>) -> (r: usize)
    ensures
        r == search_limit_spec(limit),
{
    match limit {
        Some(l) => l,
        None => 20,
    }
}

/// The answer of the Civitai search endpoint: no source call is made yet,
/// so the page is empty.
pub fn civitai_search_page(query: &str, limit: Option<usize>) -> (r: SearchResult<ModelSummary>)
    ensures
        r.items@.len() == 0,
        r.total == 0,
        r.next_page is None,
{
    let _limit = search_limit(limit);
    SearchResult { items: Vec::new(), total: 0, next_page: None }
}

/// A daemon URL without trailing `/`, as `trim_end_matches('/')` leaves it.
pub open spec fn trim_slashes_spec(s: Seq<char>) -> Seq<char>
    decreases s.len(),
{
    if s.len() > 0 && s.last() == '/' {
        trim_slashes_spec(s.drop_last())
    } else {
        s
    }
}

/// Removes trailing `/` from a daemon URL.
pub fn normalize_base_url(base_url: &str) -> (r: String)
    ensures
        r@ == trim_slashes_spec(base_url@),
{
    let mut j: usize = base_url.unicode_len();
    assert(base_url@.subrange(0, j as int) =~= base_url@);
    while j > 0 && base_url.get_char(j - 1) == '/'
        invariant
            j <= base_url@.len(),
            trim_slashes_spec(base_url@) == trim_slashes_spec(base_url@.subrange(0, j as int)),
        decreases j,
    {
        proof {
            let s = base_url@.subrange(0, j as int);
            assert(s.drop_last() =~= base_url@.subrange(0, j - 1));
        }
        j = j - 1;
    }
    proof {
        let s = base_url@.subrange(0, j as int);
        if j == base_url@.len() {
            assert(s =~= base_url@);
        }
    }
    base_url.substring_char(0, j).to_owned()
}

/// The URL of an API endpoint: the base URL followed by the path.
pub fn endpoint_url(base_url: &str, path: &str) -> (r: String)
    ensures
        r@ == base_url@ + path@,
{
    concat2(base_url, path)
}

/// Which backend the desktop interface uses.
#[derive(Debug, Clone, Copy, PartialEq, Eq, Structural)]
pub enum BackendChoice {
    Embedded,
    Remote,
}

/// Whether a mode tries the remote daemon first.
pub fn probes_remote(mode: crate::config::GuiMode) -> (r: bool)
    ensures
        r == (mode != crate::config::GuiMode::Embedded),
{
    match mode {
        crate::config::GuiMode::Auto => true,
        crate::config::GuiMode::Remote => true,
        crate::config::GuiMode::Embedded => false,
    }
}

/// The backend the interface uses: `Auto` and `Remote` connect to the
/// daemon when it answers its health check and fall back to the embedded
/// service otherwise; `Embedded` always runs in-process.
pub fn choose_backend(mode: crate::config::GuiMode, remote_healthy: bool) -> (r: BackendChoice)
    ensures
        r == if mode != crate::config::GuiMode::Embedded && remote_healthy {
            BackendChoice::Remote
        } else {
            BackendChoice::Embedded
        },
{
    if probes_remote(mode) && remote_healthy {
        BackendChoice::Remote
    } else {
        BackendChoice::Embedded
    }
}

/// The status line the interface shows for its backend.
pub fn status_line(choice: BackendChoice, remote_url: &str) -> (r: String)
    ensures
        r@ == match choice {
            BackendChoice::Embedded => "Embedded mode"@,
            BackendChoice::Remote => "Remote mode: "@ + remote_url@,
        },
{
    match choice {
        BackendChoice::Embedded => "Embedded mode".to_owned(),
        BackendChoice::Remote => concat2("Remote mode: ", remote_url),
    }
}

} // verus!
